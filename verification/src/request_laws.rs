//! What each request carries: the pairs its query string reads back as,
//! stated over the command's options.
use vstd::prelude::*;

use crate::query::{filter_pairs, opt_pair, query_text};
use crate::laws::{decode_query, law_query_text_decodes_back, law_query_text_empty};
use crate::cli::{
    AppsCommand, Cli, Command, DeviceCommand, EventsCommand, HttpMethod, InstallsCommand, InventoryFilters, JsonArg,
    OutputFormat, SettingsCommand, UsageHistoryCommand,
};
use crate::error::ErrorView;
use crate::routes::{
    apps_target, list_pairs_a, list_pairs_b, list_pairs_c, list_pairs_d, certificates_target, dashboard_target, devices_target, events_target, logs_target, qf,
    qn, qn64, qv, device_plan, events_plan, get_json, installs_plan, plan_spec, settings_plan, usage_history_plan,
    CallView, PlanView, RenderView,
};
use crate::json::{json_compact_text, json_parse_error};
use crate::query::param_pairs;
use crate::text::{decimal, has_prefix, strip_both};

verus! {

/// The pairs a request target's query string reads back as, after `base`.
pub open spec fn query_pairs(target: Seq<char>, base: Seq<char>) -> Seq<(Seq<char>, Seq<char>)> {
    if target.len() > base.len() {
        decode_query(target.skip(base.len() as int))
    } else {
        seq![]
    }
}

/// No pair has the key `k`.
pub open spec fn no_key(ps: Seq<(Seq<char>, Seq<char>)>, k: Seq<char>) -> bool {
    forall|i: int| 0 <= i < ps.len() ==> (#[trigger] ps[i]).0 != k
}

/// The value a flag is sent with: `true` when on, none when off.
pub open spec fn flag_value(on: bool) -> Option<Seq<char>> {
    if on {
        Some("true"@)
    } else {
        None
    }
}

/// A flag is sent as `k=true` when on, and not at all when off.
pub open spec fn sends_flag(ps: Seq<(Seq<char>, Seq<char>)>, k: Seq<char>, on: bool) -> bool {
    sends_opt(ps, k, flag_value(on))
}

/// An option is sent as `k=value` when given, with no other value for
/// `k`, and not at all otherwise.
pub open spec fn sends_opt(ps: Seq<(Seq<char>, Seq<char>)>, k: Seq<char>, v: Option<Seq<char>>) -> bool {
    match v {
        Some(x) => ps.contains((k, x)) && forall|i: int|
            0 <= i < ps.len() && (#[trigger] ps[i]).0 == k ==> ps[i].1 == x,
        None => no_key(ps, k),
    }
}

/// `k` is one of `ks`.
pub open spec fn has_key(ks: Seq<Seq<char>>, k: Seq<char>) -> bool
    decreases ks.len(),
{
    ks.len() > 0 && (ks.last() == k || has_key(ks.drop_last(), k))
}

/// No key occurs twice in `ks`.
pub open spec fn all_distinct(ks: Seq<Seq<char>>) -> bool
    decreases ks.len(),
{
    ks.len() == 0 || (!has_key(ks.drop_last(), ks.last()) && all_distinct(ks.drop_last()))
}

/// Every pair's key is one of `keys`.
pub open spec fn only_keys(ps: Seq<(Seq<char>, Seq<char>)>, keys: Seq<Seq<char>>) -> bool {
    forall|i: int| 0 <= i < ps.len() ==> has_key(keys, (#[trigger] ps[i]).0)
}

/// `ps` sends each of the options `keys` with its value in `vals`.
pub open spec fn sends_all(ps: Seq<(Seq<char>, Seq<char>)>, keys: Seq<Seq<char>>, vals: Seq<Option<Seq<char>>>) -> bool
    decreases keys.len(),
{
    keys.len() == 0 || (vals.len() == keys.len() && sends_opt(ps, keys.last(), vals.last())
        && sends_all(ps, keys.drop_last(), vals.drop_last()))
}

/// Parts that each hold one option under its own key, in order.
pub open spec fn options(
    parts: Seq<Seq<(Seq<char>, Seq<char>)>>,
    keys: Seq<Seq<char>>,
    vals: Seq<Option<Seq<char>>>,
) -> bool
    decreases parts.len(),
{
    &&& parts.len() == keys.len()
    &&& vals.len() == keys.len()
    &&& parts.len() > 0 ==> {
        &&& keyed(parts.last(), keys.last())
        &&& sends_opt(parts.last(), keys.last(), vals.last())
        &&& options(parts.drop_last(), keys.drop_last(), vals.drop_last())
    }
}

/// A number option as the text it is sent as.
pub open spec fn number_text(v: Option<u32>) -> Option<Seq<char>> {
    match v {
        Some(n) => Some(decimal(n as nat)),
        None => None,
    }
}

pub open spec fn number64_text(v: Option<u64>) -> Option<Seq<char>> {
    match v {
        Some(n) => Some(decimal(n as nat)),
        None => None,
    }
}

pub open spec fn string_text(v: Option<String>) -> Option<Seq<char>> {
    match v {
        Some(s) => Some(s@),
        None => None,
    }
}

proof fn lemma_query_pairs(base: Seq<char>, ps: Seq<(Seq<char>, Seq<char>)>)
    ensures
        has_prefix(base + query_text(ps), base),
        query_pairs(base + query_text(ps), base) == ps,
{
    law_query_text_empty(ps);
    let t = base + query_text(ps);
    assert(t.take(base.len() as int) =~= base);
    if ps.len() == 0 {
        assert(query_text(ps).len() == 0);
        assert(t.len() == base.len());
    } else {
        assert(t.skip(base.len() as int) =~= query_text(ps));
        law_query_text_decodes_back(ps);
    }
}

proof fn lemma_no_key_concat(a: Seq<(Seq<char>, Seq<char>)>, b: Seq<(Seq<char>, Seq<char>)>, k: Seq<char>)
    requires
        no_key(a, k),
        no_key(b, k),
    ensures
        no_key(a + b, k),
{
    assert forall|i: int| 0 <= i < (a + b).len() implies (#[trigger] (a + b)[i]).0 != k by {
        if i < a.len() {
            assert((a + b)[i] == a[i]);
        } else {
            assert((a + b)[i] == b[i - a.len()]);
        }
    }
}

proof fn lemma_contains_concat(a: Seq<(Seq<char>, Seq<char>)>, b: Seq<(Seq<char>, Seq<char>)>, x: (Seq<char>, Seq<char>))
    requires
        a.contains(x) || b.contains(x),
    ensures
        (a + b).contains(x),
{
    if a.contains(x) {
        let i = choose|i: int| 0 <= i < a.len() && a[i] == x;
        assert((a + b)[i] == x);
    } else {
        let i = choose|i: int| 0 <= i < b.len() && b[i] == x;
        assert((a + b)[a.len() + i] == x);
    }
}

/// `sends_*` of a whole from its parts: the part that holds the key says
/// it, every other part has no such key.
proof fn lemma_sends_concat(a: Seq<(Seq<char>, Seq<char>)>, b: Seq<(Seq<char>, Seq<char>)>, k: Seq<char>, v: Option<Seq<char>>)
    requires
        (sends_opt(a, k, v) && no_key(b, k)) || (no_key(a, k) && sends_opt(b, k, v)),
    ensures
        sends_opt(a + b, k, v),
{
    match v {
        Some(x) => {
            lemma_contains_concat(a, b, (k, x));
            assert forall|i: int| 0 <= i < (a + b).len() && (#[trigger] (a + b)[i]).0 == k implies (a
                + b)[i].1 == x by {
                if i < a.len() {
                    assert((a + b)[i] == a[i]);
                } else {
                    assert((a + b)[i] == b[i - a.len()]);
                }
            }
        },
        None => lemma_no_key_concat(a, b, k),
    }
}

/// Every pair has the key `key`.
pub open spec fn keyed(ps: Seq<(Seq<char>, Seq<char>)>, key: Seq<char>) -> bool {
    forall|i: int| 0 <= i < ps.len() ==> (#[trigger] ps[i]).0 == key
}

proof fn lemma_other_key(ps: Seq<(Seq<char>, Seq<char>)>, key: Seq<char>, k: Seq<char>)
    requires
        keyed(ps, key),
        key.len() != k.len() || exists|j: int| 0 <= j < k.len() && j < key.len() && key[j] != k[j],
    ensures
        no_key(ps, k),
{
    assert(key != k);
}

/// What each kind of option contributes: its own key only, and the value
/// when given.
proof fn lemma_sources(k: Seq<char>, n: Option<u32>, m: Option<u64>, on: bool, v: Option<String>, x: Seq<char>)
    ensures
        keyed(qn(k, n), k) && sends_opt(qn(k, n), k, number_text(n)),
        keyed(qn64(k, m), k) && sends_opt(qn64(k, m), k, number64_text(m)),
        keyed(qf(k, on), k) && sends_opt(qf(k, on), k, flag_value(on)),
        keyed(opt_pair(k, v), k) && sends_opt(opt_pair(k, v), k, string_text(v)),
        keyed(qv(k, x), k) && sends_opt(qv(k, x), k, Some(x)),
{
    if n is Some {
        assert(qn(k, n)[0] == (k, decimal(n.unwrap() as nat)));
    }
    if m is Some {
        assert(qn64(k, m)[0] == (k, decimal(m.unwrap() as nat)));
    }
    if on {
        assert(qf(k, on)[0] == (k, "true"@));
    }
    if v is Some {
        assert(opt_pair(k, v)[0] == (k, v.unwrap()@));
    }
    assert(qv(k, x)[0] == (k, x));
}

/// The parts joined in order.
pub open spec fn joined(parts: Seq<Seq<(Seq<char>, Seq<char>)>>) -> Seq<(Seq<char>, Seq<char>)>
    decreases parts.len(),
{
    if parts.len() == 0 {
        seq![]
    } else {
        joined(parts.drop_last()) + parts.last()
    }
}

proof fn lemma_ne(a: Seq<char>, b: Seq<char>, i: int)
    requires
        a.len() != b.len() || (0 <= i < a.len() && i < b.len() && a[i] != b[i]),
    ensures
        a != b,
{
}

proof fn lemma_only_keys_no_key(ps: Seq<(Seq<char>, Seq<char>)>, ks: Seq<Seq<char>>, k: Seq<char>)
    requires
        only_keys(ps, ks),
        !has_key(ks, k),
    ensures
        no_key(ps, k),
{
}

proof fn lemma_sends_all_concat(
    a: Seq<(Seq<char>, Seq<char>)>,
    b: Seq<(Seq<char>, Seq<char>)>,
    ks: Seq<Seq<char>>,
    vs: Seq<Option<Seq<char>>>,
    kb: Seq<char>,
)
    requires
        sends_all(a, ks, vs),
        keyed(b, kb),
        !has_key(ks, kb),
    ensures
        sends_all(a + b, ks, vs),
    decreases ks.len(),
{
    if ks.len() > 0 {
        lemma_sends_all_concat(a, b, ks.drop_last(), vs.drop_last(), kb);
        lemma_other_key_ne(b, kb, ks.last());
        lemma_sends_concat(a, b, ks.last(), vs.last());
    }
}

/// Joined parts send every option of theirs, and no key but theirs.
proof fn lemma_joined_options(
    parts: Seq<Seq<(Seq<char>, Seq<char>)>>,
    keys: Seq<Seq<char>>,
    vals: Seq<Option<Seq<char>>>,
)
    requires
        options(parts, keys, vals),
        all_distinct(keys),
    ensures
        sends_all(joined(parts), keys, vals),
        only_keys(joined(parts), keys),
    decreases parts.len(),
{
    if parts.len() > 0 {
        let ip = parts.drop_last();
        let ik = keys.drop_last();
        let iv = vals.drop_last();
        lemma_joined_options(ip, ik, iv);
        let a = joined(ip);
        let last = parts.last();
        lemma_only_keys_no_key(a, ik, keys.last());
        lemma_sends_concat(a, last, keys.last(), vals.last());
        lemma_sends_all_concat(a, last, ik, iv, keys.last());
        assert forall|i: int| 0 <= i < (a + last).len() implies has_key(keys, (#[trigger] (a + last)[i]).0) by {
            if i < a.len() {
                assert((a + last)[i] == a[i]);
            } else {
                assert((a + last)[i] == last[i - a.len()]);
            }
        }
    }
}

proof fn lemma_other_key_ne(ps: Seq<(Seq<char>, Seq<char>)>, key: Seq<char>, k: Seq<char>)
    requires
        keyed(ps, key),
        key != k,
    ensures
        no_key(ps, k),
{
}


proof fn lemma_has_push(ks: Seq<Seq<char>>, x: Seq<char>, k: Seq<char>)
    ensures
        has_key(ks.push(x), k) == (x == k || has_key(ks, k)),
{
    assert(ks.push(x).drop_last() =~= ks);
}

proof fn lemma_not_has_push(ks: Seq<Seq<char>>, x: Seq<char>, k: Seq<char>)
    requires
        !has_key(ks, k),
        x != k,
    ensures
        !has_key(ks.push(x), k),
{
    lemma_has_push(ks, x, k);
}

proof fn lemma_distinct_push(ks: Seq<Seq<char>>, x: Seq<char>)
    requires
        all_distinct(ks),
        !has_key(ks, x),
    ensures
        all_distinct(ks.push(x)),
{
    assert(ks.push(x).drop_last() =~= ks);
}

proof fn lemma_options_push(
    parts: Seq<Seq<(Seq<char>, Seq<char>)>>,
    keys: Seq<Seq<char>>,
    vals: Seq<Option<Seq<char>>>,
    p: Seq<(Seq<char>, Seq<char>)>,
    k: Seq<char>,
    v: Option<Seq<char>>,
)
    requires
        options(parts, keys, vals),
        keyed(p, k),
        sends_opt(p, k, v),
    ensures
        options(parts.push(p), keys.push(k), vals.push(v)),
        joined(parts.push(p)) == joined(parts) + p,
{
    assert(parts.push(p).drop_last() =~= parts);
    assert(keys.push(k).drop_last() =~= keys);
    assert(vals.push(v).drop_last() =~= vals);
}

proof fn lemma_sends_all_pop(
    ps: Seq<(Seq<char>, Seq<char>)>,
    keys: Seq<Seq<char>>,
    vals: Seq<Option<Seq<char>>>,
    k: Seq<char>,
    v: Option<Seq<char>>,
)
    requires
        sends_all(ps, keys.push(k), vals.push(v)),
    ensures
        sends_opt(ps, k, v),
        sends_all(ps, keys, vals),
{
    assert(keys.push(k).drop_last() =~= keys);
    assert(vals.push(v).drop_last() =~= vals);
}

proof fn lemma_assoc(a: Seq<(Seq<char>, Seq<char>)>, b: Seq<(Seq<char>, Seq<char>)>, c: Seq<(Seq<char>, Seq<char>)>)
    ensures
        a + (b + c) == (a + b) + c,
{
    assert(a + (b + c) =~= (a + b) + c);
}

proof fn lemma_options_empty()
    ensures
        options(seq![], seq![], seq![]),
        joined(seq![]) == Seq::<(Seq<char>, Seq<char>)>::empty(),
        all_distinct(seq![]),
        forall|k: Seq<char>| !has_key(seq![], k),
{
}

proof fn lemma_devices_request_keys()
    ensures
        all_distinct(seq!["limit"@, "offset"@, "includeArchived"@]),
{
    reveal_strlit("includeArchived");
    reveal_strlit("limit");
    reveal_strlit("offset");
    lemma_options_empty();
    let ks0 = Seq::<Seq<char>>::empty();
    let ks1 = ks0.push("limit"@);
    let ks2 = ks1.push("offset"@);
    let ks3 = ks2.push("includeArchived"@);
    lemma_distinct_push(ks0, "limit"@);
    lemma_ne("limit"@, "offset"@, 0);
    lemma_not_has_push(ks0, "limit"@, "offset"@);
    lemma_distinct_push(ks1, "offset"@);
    lemma_ne("limit"@, "includeArchived"@, 0);
    lemma_not_has_push(ks0, "limit"@, "includeArchived"@);
    lemma_ne("offset"@, "includeArchived"@, 0);
    lemma_not_has_push(ks1, "offset"@, "includeArchived"@);
    lemma_distinct_push(ks2, "includeArchived"@);
    assert(ks3 =~= seq!["limit"@, "offset"@, "includeArchived"@]);
}

proof fn lemma_devices_request_pairs(limit: Option<u32>, offset: Option<u32>, include_archived: bool)
    ensures
        sends_opt(qn("limit"@, limit) + qn("offset"@, offset) + qf("includeArchived"@, include_archived), "limit"@, number_text(limit)),
        sends_opt(qn("limit"@, limit) + qn("offset"@, offset) + qf("includeArchived"@, include_archived), "offset"@, number_text(offset)),
        sends_opt(qn("limit"@, limit) + qn("offset"@, offset) + qf("includeArchived"@, include_archived), "includeArchived"@, flag_value(include_archived)),
        only_keys(qn("limit"@, limit) + qn("offset"@, offset) + qf("includeArchived"@, include_archived), seq!["limit"@, "offset"@, "includeArchived"@]),
{
    lemma_sources("limit"@, limit, None, false, None, seq![]);
    lemma_sources("offset"@, offset, None, false, None, seq![]);
    lemma_sources("includeArchived"@, None, None, include_archived, None, seq![]);
    lemma_options_empty();
    let ps0 = Seq::<Seq<(Seq<char>, Seq<char>)>>::empty();
    let ks0 = Seq::<Seq<char>>::empty();
    let vs0 = Seq::<Option<Seq<char>>>::empty();
    let ps1 = ps0.push(qn("limit"@, limit));
    let ks1 = ks0.push("limit"@);
    let vs1 = vs0.push(number_text(limit));
    lemma_options_push(ps0, ks0, vs0, qn("limit"@, limit), "limit"@, number_text(limit));
    let ps2 = ps1.push(qn("offset"@, offset));
    let ks2 = ks1.push("offset"@);
    let vs2 = vs1.push(number_text(offset));
    lemma_options_push(ps1, ks1, vs1, qn("offset"@, offset), "offset"@, number_text(offset));
    let ps3 = ps2.push(qf("includeArchived"@, include_archived));
    let ks3 = ks2.push("includeArchived"@);
    let vs3 = vs2.push(flag_value(include_archived));
    lemma_options_push(ps2, ks2, vs2, qf("includeArchived"@, include_archived), "includeArchived"@, flag_value(include_archived));
    lemma_devices_request_keys();
    assert(ks3 =~= seq!["limit"@, "offset"@, "includeArchived"@]);
    lemma_joined_options(ps3, ks3, vs3);
    lemma_sends_all_pop(joined(ps3), ks2, vs2, "includeArchived"@, flag_value(include_archived));
    lemma_sends_all_pop(joined(ps3), ks1, vs1, "offset"@, number_text(offset));
    lemma_sends_all_pop(joined(ps3), ks0, vs0, "limit"@, number_text(limit));
    assert(Seq::<(Seq<char>, Seq<char>)>::empty() + qn("limit"@, limit) =~= qn("limit"@, limit));
    assert(joined(ps3) =~= qn("limit"@, limit) + qn("offset"@, offset) + qf("includeArchived"@, include_archived));
}

/// `devices`: the limit and offset when given, `includeArchived=true`
/// exactly when archived devices are asked for, and nothing else.
pub proof fn law_devices_request(limit: Option<u32>, offset: Option<u32>, include_archived: bool)
    ensures
        ({
            let base = "/api/v1/devices"@;
            let t = devices_target(limit, offset, include_archived);
            let ps = query_pairs(t, base);
            &&& has_prefix(t, base)
            &&& sends_opt(ps, "limit"@, number_text(limit))
            &&& sends_opt(ps, "offset"@, number_text(offset))
            &&& sends_flag(ps, "includeArchived"@, include_archived)
            &&& only_keys(ps, seq!["limit"@, "offset"@, "includeArchived"@])
        }),
{
    lemma_devices_request_pairs(limit, offset, include_archived);
    let ps = qn("limit"@, limit) + qn("offset"@, offset) + qf("includeArchived"@, include_archived);
    assert(devices_target(limit, offset, include_archived) == "/api/v1/devices"@ + query_text(ps));
    lemma_query_pairs("/api/v1/devices"@, ps);
}

proof fn lemma_dashboard_request_keys()
    ensures
        all_distinct(seq!["eventsLimit"@, "includeArchived"@]),
{
    reveal_strlit("eventsLimit");
    reveal_strlit("includeArchived");
    lemma_options_empty();
    let ks0 = Seq::<Seq<char>>::empty();
    let ks1 = ks0.push("eventsLimit"@);
    let ks2 = ks1.push("includeArchived"@);
    lemma_distinct_push(ks0, "eventsLimit"@);
    lemma_ne("eventsLimit"@, "includeArchived"@, 0);
    lemma_not_has_push(ks0, "eventsLimit"@, "includeArchived"@);
    lemma_distinct_push(ks1, "includeArchived"@);
    assert(ks2 =~= seq!["eventsLimit"@, "includeArchived"@]);
}

proof fn lemma_dashboard_request_pairs(events_limit: Option<u32>, include_archived: bool)
    ensures
        sends_opt(qn("eventsLimit"@, events_limit) + qf("includeArchived"@, include_archived), "eventsLimit"@, number_text(events_limit)),
        sends_opt(qn("eventsLimit"@, events_limit) + qf("includeArchived"@, include_archived), "includeArchived"@, flag_value(include_archived)),
        only_keys(qn("eventsLimit"@, events_limit) + qf("includeArchived"@, include_archived), seq!["eventsLimit"@, "includeArchived"@]),
{
    lemma_sources("eventsLimit"@, events_limit, None, false, None, seq![]);
    lemma_sources("includeArchived"@, None, None, include_archived, None, seq![]);
    lemma_options_empty();
    let ps0 = Seq::<Seq<(Seq<char>, Seq<char>)>>::empty();
    let ks0 = Seq::<Seq<char>>::empty();
    let vs0 = Seq::<Option<Seq<char>>>::empty();
    let ps1 = ps0.push(qn("eventsLimit"@, events_limit));
    let ks1 = ks0.push("eventsLimit"@);
    let vs1 = vs0.push(number_text(events_limit));
    lemma_options_push(ps0, ks0, vs0, qn("eventsLimit"@, events_limit), "eventsLimit"@, number_text(events_limit));
    let ps2 = ps1.push(qf("includeArchived"@, include_archived));
    let ks2 = ks1.push("includeArchived"@);
    let vs2 = vs1.push(flag_value(include_archived));
    lemma_options_push(ps1, ks1, vs1, qf("includeArchived"@, include_archived), "includeArchived"@, flag_value(include_archived));
    lemma_dashboard_request_keys();
    assert(ks2 =~= seq!["eventsLimit"@, "includeArchived"@]);
    lemma_joined_options(ps2, ks2, vs2);
    lemma_sends_all_pop(joined(ps2), ks1, vs1, "includeArchived"@, flag_value(include_archived));
    lemma_sends_all_pop(joined(ps2), ks0, vs0, "eventsLimit"@, number_text(events_limit));
    assert(Seq::<(Seq<char>, Seq<char>)>::empty() + qn("eventsLimit"@, events_limit) =~= qn("eventsLimit"@, events_limit));
    assert(joined(ps2) =~= qn("eventsLimit"@, events_limit) + qf("includeArchived"@, include_archived));
}

/// `dashboard`: the events limit when given, `includeArchived=true` exactly
/// when archived devices are asked for, and nothing else.
pub proof fn law_dashboard_request(events_limit: Option<u32>, include_archived: bool)
    ensures
        ({
            let base = "/api/v1/dashboard"@;
            let t = dashboard_target(events_limit, include_archived);
            let ps = query_pairs(t, base);
            &&& has_prefix(t, base)
            &&& sends_opt(ps, "eventsLimit"@, number_text(events_limit))
            &&& sends_flag(ps, "includeArchived"@, include_archived)
            &&& only_keys(ps, seq!["eventsLimit"@, "includeArchived"@])
        }),
{
    lemma_dashboard_request_pairs(events_limit, include_archived);
    let ps = qn("eventsLimit"@, events_limit) + qf("includeArchived"@, include_archived);
    assert(dashboard_target(events_limit, include_archived) == "/api/v1/dashboard"@ + query_text(ps));
    lemma_query_pairs("/api/v1/dashboard"@, ps);
}

proof fn lemma_certificates_request_keys()
    ensures
        all_distinct(seq!["search"@, "status"@, "limit"@, "includeArchived"@]),
{
    reveal_strlit("includeArchived");
    reveal_strlit("limit");
    reveal_strlit("search");
    reveal_strlit("status");
    lemma_options_empty();
    let ks0 = Seq::<Seq<char>>::empty();
    let ks1 = ks0.push("search"@);
    let ks2 = ks1.push("status"@);
    let ks3 = ks2.push("limit"@);
    let ks4 = ks3.push("includeArchived"@);
    lemma_distinct_push(ks0, "search"@);
    lemma_ne("search"@, "status"@, 1);
    lemma_not_has_push(ks0, "search"@, "status"@);
    lemma_distinct_push(ks1, "status"@);
    lemma_ne("search"@, "limit"@, 0);
    lemma_not_has_push(ks0, "search"@, "limit"@);
    lemma_ne("status"@, "limit"@, 0);
    lemma_not_has_push(ks1, "status"@, "limit"@);
    lemma_distinct_push(ks2, "limit"@);
    lemma_ne("search"@, "includeArchived"@, 0);
    lemma_not_has_push(ks0, "search"@, "includeArchived"@);
    lemma_ne("status"@, "includeArchived"@, 0);
    lemma_not_has_push(ks1, "status"@, "includeArchived"@);
    lemma_ne("limit"@, "includeArchived"@, 0);
    lemma_not_has_push(ks2, "limit"@, "includeArchived"@);
    lemma_distinct_push(ks3, "includeArchived"@);
    assert(ks4 =~= seq!["search"@, "status"@, "limit"@, "includeArchived"@]);
}

proof fn lemma_certificates_request_pairs(search: Seq<char>, status: Seq<char>, limit: Option<u32>, include_archived: bool)
    ensures
        sends_opt(qv("search"@, search) + qv("status"@, status) + qn("limit"@, limit) + qf("includeArchived"@, include_archived), "search"@, Some(search)),
        sends_opt(qv("search"@, search) + qv("status"@, status) + qn("limit"@, limit) + qf("includeArchived"@, include_archived), "status"@, Some(status)),
        sends_opt(qv("search"@, search) + qv("status"@, status) + qn("limit"@, limit) + qf("includeArchived"@, include_archived), "limit"@, number_text(limit)),
        sends_opt(qv("search"@, search) + qv("status"@, status) + qn("limit"@, limit) + qf("includeArchived"@, include_archived), "includeArchived"@, flag_value(include_archived)),
        only_keys(qv("search"@, search) + qv("status"@, status) + qn("limit"@, limit) + qf("includeArchived"@, include_archived), seq!["search"@, "status"@, "limit"@, "includeArchived"@]),
{
    lemma_sources("search"@, None, None, false, None, search);
    lemma_sources("status"@, None, None, false, None, status);
    lemma_sources("limit"@, limit, None, false, None, seq![]);
    lemma_sources("includeArchived"@, None, None, include_archived, None, seq![]);
    lemma_options_empty();
    let ps0 = Seq::<Seq<(Seq<char>, Seq<char>)>>::empty();
    let ks0 = Seq::<Seq<char>>::empty();
    let vs0 = Seq::<Option<Seq<char>>>::empty();
    let ps1 = ps0.push(qv("search"@, search));
    let ks1 = ks0.push("search"@);
    let vs1 = vs0.push(Some(search));
    lemma_options_push(ps0, ks0, vs0, qv("search"@, search), "search"@, Some(search));
    let ps2 = ps1.push(qv("status"@, status));
    let ks2 = ks1.push("status"@);
    let vs2 = vs1.push(Some(status));
    lemma_options_push(ps1, ks1, vs1, qv("status"@, status), "status"@, Some(status));
    let ps3 = ps2.push(qn("limit"@, limit));
    let ks3 = ks2.push("limit"@);
    let vs3 = vs2.push(number_text(limit));
    lemma_options_push(ps2, ks2, vs2, qn("limit"@, limit), "limit"@, number_text(limit));
    let ps4 = ps3.push(qf("includeArchived"@, include_archived));
    let ks4 = ks3.push("includeArchived"@);
    let vs4 = vs3.push(flag_value(include_archived));
    lemma_options_push(ps3, ks3, vs3, qf("includeArchived"@, include_archived), "includeArchived"@, flag_value(include_archived));
    lemma_certificates_request_keys();
    assert(ks4 =~= seq!["search"@, "status"@, "limit"@, "includeArchived"@]);
    lemma_joined_options(ps4, ks4, vs4);
    lemma_sends_all_pop(joined(ps4), ks3, vs3, "includeArchived"@, flag_value(include_archived));
    lemma_sends_all_pop(joined(ps4), ks2, vs2, "limit"@, number_text(limit));
    lemma_sends_all_pop(joined(ps4), ks1, vs1, "status"@, Some(status));
    lemma_sends_all_pop(joined(ps4), ks0, vs0, "search"@, Some(search));
    assert(Seq::<(Seq<char>, Seq<char>)>::empty() + qv("search"@, search) =~= qv("search"@, search));
    assert(joined(ps4) =~= qv("search"@, search) + qv("status"@, status) + qn("limit"@, limit) + qf("includeArchived"@, include_archived));
}

/// `certificates`: the search and status always, first; the limit when
/// given; `includeArchived=true` exactly when archived devices are asked
/// for, last; nothing else.
pub proof fn law_certificates_request(search: Seq<char>, status: Seq<char>, limit: Option<u32>, include_archived: bool)
    ensures
        ({
            let base = "/api/v1/security/certificates"@;
            let t = certificates_target(search, status, limit, include_archived);
            let ps = query_pairs(t, base);
            &&& has_prefix(t, base)
            &&& sends_opt(ps, "search"@, Some(search))
            &&& sends_opt(ps, "status"@, Some(status))
            &&& sends_opt(ps, "limit"@, number_text(limit))
            &&& sends_flag(ps, "includeArchived"@, include_archived)
            &&& ps.len() >= 2 && ps[0] == ("search"@, search) && ps[1] == ("status"@, status)
            &&& include_archived ==> ps.last() == ("includeArchived"@, "true"@)
            &&& only_keys(ps, seq!["search"@, "status"@, "limit"@, "includeArchived"@])
        }),
{
    lemma_certificates_request_pairs(search, status, limit, include_archived);
    let ps = qv("search"@, search) + qv("status"@, status) + qn("limit"@, limit) + qf("includeArchived"@, include_archived);
    assert(certificates_target(search, status, limit, include_archived) == "/api/v1/security/certificates"@ + query_text(ps));
    lemma_query_pairs("/api/v1/security/certificates"@, ps);
}

proof fn lemma_logs_request_keys()
    ensures
        all_distinct(seq!["levels"@, "platform"@, "file"@, "q"@, "summary"@, "maxLinesPerDevice"@, "includeArchived"@, "limit"@, "offset"@]),
{
    reveal_strlit("file");
    reveal_strlit("includeArchived");
    reveal_strlit("levels");
    reveal_strlit("limit");
    reveal_strlit("maxLinesPerDevice");
    reveal_strlit("offset");
    reveal_strlit("platform");
    reveal_strlit("q");
    reveal_strlit("summary");
    lemma_options_empty();
    let ks0 = Seq::<Seq<char>>::empty();
    let ks1 = ks0.push("levels"@);
    let ks2 = ks1.push("platform"@);
    let ks3 = ks2.push("file"@);
    let ks4 = ks3.push("q"@);
    let ks5 = ks4.push("summary"@);
    let ks6 = ks5.push("maxLinesPerDevice"@);
    let ks7 = ks6.push("includeArchived"@);
    let ks8 = ks7.push("limit"@);
    let ks9 = ks8.push("offset"@);
    lemma_distinct_push(ks0, "levels"@);
    lemma_ne("levels"@, "platform"@, 0);
    lemma_not_has_push(ks0, "levels"@, "platform"@);
    lemma_distinct_push(ks1, "platform"@);
    lemma_ne("levels"@, "file"@, 0);
    lemma_not_has_push(ks0, "levels"@, "file"@);
    lemma_ne("platform"@, "file"@, 0);
    lemma_not_has_push(ks1, "platform"@, "file"@);
    lemma_distinct_push(ks2, "file"@);
    lemma_ne("levels"@, "q"@, 0);
    lemma_not_has_push(ks0, "levels"@, "q"@);
    lemma_ne("platform"@, "q"@, 0);
    lemma_not_has_push(ks1, "platform"@, "q"@);
    lemma_ne("file"@, "q"@, 0);
    lemma_not_has_push(ks2, "file"@, "q"@);
    lemma_distinct_push(ks3, "q"@);
    lemma_ne("levels"@, "summary"@, 0);
    lemma_not_has_push(ks0, "levels"@, "summary"@);
    lemma_ne("platform"@, "summary"@, 0);
    lemma_not_has_push(ks1, "platform"@, "summary"@);
    lemma_ne("file"@, "summary"@, 0);
    lemma_not_has_push(ks2, "file"@, "summary"@);
    lemma_ne("q"@, "summary"@, 0);
    lemma_not_has_push(ks3, "q"@, "summary"@);
    lemma_distinct_push(ks4, "summary"@);
    lemma_ne("levels"@, "maxLinesPerDevice"@, 0);
    lemma_not_has_push(ks0, "levels"@, "maxLinesPerDevice"@);
    lemma_ne("platform"@, "maxLinesPerDevice"@, 0);
    lemma_not_has_push(ks1, "platform"@, "maxLinesPerDevice"@);
    lemma_ne("file"@, "maxLinesPerDevice"@, 0);
    lemma_not_has_push(ks2, "file"@, "maxLinesPerDevice"@);
    lemma_ne("q"@, "maxLinesPerDevice"@, 0);
    lemma_not_has_push(ks3, "q"@, "maxLinesPerDevice"@);
    lemma_ne("summary"@, "maxLinesPerDevice"@, 0);
    lemma_not_has_push(ks4, "summary"@, "maxLinesPerDevice"@);
    lemma_distinct_push(ks5, "maxLinesPerDevice"@);
    lemma_ne("levels"@, "includeArchived"@, 0);
    lemma_not_has_push(ks0, "levels"@, "includeArchived"@);
    lemma_ne("platform"@, "includeArchived"@, 0);
    lemma_not_has_push(ks1, "platform"@, "includeArchived"@);
    lemma_ne("file"@, "includeArchived"@, 0);
    lemma_not_has_push(ks2, "file"@, "includeArchived"@);
    lemma_ne("q"@, "includeArchived"@, 0);
    lemma_not_has_push(ks3, "q"@, "includeArchived"@);
    lemma_ne("summary"@, "includeArchived"@, 0);
    lemma_not_has_push(ks4, "summary"@, "includeArchived"@);
    lemma_ne("maxLinesPerDevice"@, "includeArchived"@, 0);
    lemma_not_has_push(ks5, "maxLinesPerDevice"@, "includeArchived"@);
    lemma_distinct_push(ks6, "includeArchived"@);
    lemma_ne("levels"@, "limit"@, 0);
    lemma_not_has_push(ks0, "levels"@, "limit"@);
    lemma_ne("platform"@, "limit"@, 0);
    lemma_not_has_push(ks1, "platform"@, "limit"@);
    lemma_ne("file"@, "limit"@, 0);
    lemma_not_has_push(ks2, "file"@, "limit"@);
    lemma_ne("q"@, "limit"@, 0);
    lemma_not_has_push(ks3, "q"@, "limit"@);
    lemma_ne("summary"@, "limit"@, 0);
    lemma_not_has_push(ks4, "summary"@, "limit"@);
    lemma_ne("maxLinesPerDevice"@, "limit"@, 0);
    lemma_not_has_push(ks5, "maxLinesPerDevice"@, "limit"@);
    lemma_ne("includeArchived"@, "limit"@, 0);
    lemma_not_has_push(ks6, "includeArchived"@, "limit"@);
    lemma_distinct_push(ks7, "limit"@);
    lemma_ne("levels"@, "offset"@, 0);
    lemma_not_has_push(ks0, "levels"@, "offset"@);
    lemma_ne("platform"@, "offset"@, 0);
    lemma_not_has_push(ks1, "platform"@, "offset"@);
    lemma_ne("file"@, "offset"@, 0);
    lemma_not_has_push(ks2, "file"@, "offset"@);
    lemma_ne("q"@, "offset"@, 0);
    lemma_not_has_push(ks3, "q"@, "offset"@);
    lemma_ne("summary"@, "offset"@, 0);
    lemma_not_has_push(ks4, "summary"@, "offset"@);
    lemma_ne("maxLinesPerDevice"@, "offset"@, 0);
    lemma_not_has_push(ks5, "maxLinesPerDevice"@, "offset"@);
    lemma_ne("includeArchived"@, "offset"@, 0);
    lemma_not_has_push(ks6, "includeArchived"@, "offset"@);
    lemma_ne("limit"@, "offset"@, 0);
    lemma_not_has_push(ks7, "limit"@, "offset"@);
    lemma_distinct_push(ks8, "offset"@);
    assert(ks9 =~= seq!["levels"@, "platform"@, "file"@, "q"@, "summary"@, "maxLinesPerDevice"@, "includeArchived"@, "limit"@, "offset"@]);
}

#[verifier::rlimit(100)]
#[verifier::spinoff_prover]
proof fn lemma_logs_request_pairs(tool: Seq<char>, levels: Option<String>, platform: Option<String>, file: Option<String>, grep: Option<String>, summary: bool, max_lines_per_device: Option<u32>, include_archived: bool, limit: Option<u32>, offset: Option<u32>)
    ensures
        sends_opt(opt_pair("levels"@, levels) + opt_pair("platform"@, platform) + opt_pair("file"@, file) + opt_pair("q"@, grep) + qf("summary"@, summary) + qn("maxLinesPerDevice"@, max_lines_per_device) + qf("includeArchived"@, include_archived) + qn("limit"@, limit) + qn("offset"@, offset), "levels"@, string_text(levels)),
        sends_opt(opt_pair("levels"@, levels) + opt_pair("platform"@, platform) + opt_pair("file"@, file) + opt_pair("q"@, grep) + qf("summary"@, summary) + qn("maxLinesPerDevice"@, max_lines_per_device) + qf("includeArchived"@, include_archived) + qn("limit"@, limit) + qn("offset"@, offset), "platform"@, string_text(platform)),
        sends_opt(opt_pair("levels"@, levels) + opt_pair("platform"@, platform) + opt_pair("file"@, file) + opt_pair("q"@, grep) + qf("summary"@, summary) + qn("maxLinesPerDevice"@, max_lines_per_device) + qf("includeArchived"@, include_archived) + qn("limit"@, limit) + qn("offset"@, offset), "file"@, string_text(file)),
        sends_opt(opt_pair("levels"@, levels) + opt_pair("platform"@, platform) + opt_pair("file"@, file) + opt_pair("q"@, grep) + qf("summary"@, summary) + qn("maxLinesPerDevice"@, max_lines_per_device) + qf("includeArchived"@, include_archived) + qn("limit"@, limit) + qn("offset"@, offset), "q"@, string_text(grep)),
        sends_opt(opt_pair("levels"@, levels) + opt_pair("platform"@, platform) + opt_pair("file"@, file) + opt_pair("q"@, grep) + qf("summary"@, summary) + qn("maxLinesPerDevice"@, max_lines_per_device) + qf("includeArchived"@, include_archived) + qn("limit"@, limit) + qn("offset"@, offset), "summary"@, flag_value(summary)),
        sends_opt(opt_pair("levels"@, levels) + opt_pair("platform"@, platform) + opt_pair("file"@, file) + opt_pair("q"@, grep) + qf("summary"@, summary) + qn("maxLinesPerDevice"@, max_lines_per_device) + qf("includeArchived"@, include_archived) + qn("limit"@, limit) + qn("offset"@, offset), "maxLinesPerDevice"@, number_text(max_lines_per_device)),
        sends_opt(opt_pair("levels"@, levels) + opt_pair("platform"@, platform) + opt_pair("file"@, file) + opt_pair("q"@, grep) + qf("summary"@, summary) + qn("maxLinesPerDevice"@, max_lines_per_device) + qf("includeArchived"@, include_archived) + qn("limit"@, limit) + qn("offset"@, offset), "includeArchived"@, flag_value(include_archived)),
        sends_opt(opt_pair("levels"@, levels) + opt_pair("platform"@, platform) + opt_pair("file"@, file) + opt_pair("q"@, grep) + qf("summary"@, summary) + qn("maxLinesPerDevice"@, max_lines_per_device) + qf("includeArchived"@, include_archived) + qn("limit"@, limit) + qn("offset"@, offset), "limit"@, number_text(limit)),
        sends_opt(opt_pair("levels"@, levels) + opt_pair("platform"@, platform) + opt_pair("file"@, file) + opt_pair("q"@, grep) + qf("summary"@, summary) + qn("maxLinesPerDevice"@, max_lines_per_device) + qf("includeArchived"@, include_archived) + qn("limit"@, limit) + qn("offset"@, offset), "offset"@, number_text(offset)),
        only_keys(opt_pair("levels"@, levels) + opt_pair("platform"@, platform) + opt_pair("file"@, file) + opt_pair("q"@, grep) + qf("summary"@, summary) + qn("maxLinesPerDevice"@, max_lines_per_device) + qf("includeArchived"@, include_archived) + qn("limit"@, limit) + qn("offset"@, offset), seq!["levels"@, "platform"@, "file"@, "q"@, "summary"@, "maxLinesPerDevice"@, "includeArchived"@, "limit"@, "offset"@]),
{
    lemma_sources("levels"@, None, None, false, levels, seq![]);
    lemma_sources("platform"@, None, None, false, platform, seq![]);
    lemma_sources("file"@, None, None, false, file, seq![]);
    lemma_sources("q"@, None, None, false, grep, seq![]);
    lemma_sources("summary"@, None, None, summary, None, seq![]);
    lemma_sources("maxLinesPerDevice"@, max_lines_per_device, None, false, None, seq![]);
    lemma_sources("includeArchived"@, None, None, include_archived, None, seq![]);
    lemma_sources("limit"@, limit, None, false, None, seq![]);
    lemma_sources("offset"@, offset, None, false, None, seq![]);
    lemma_options_empty();
    let ps0 = Seq::<Seq<(Seq<char>, Seq<char>)>>::empty();
    let ks0 = Seq::<Seq<char>>::empty();
    let vs0 = Seq::<Option<Seq<char>>>::empty();
    let ps1 = ps0.push(opt_pair("levels"@, levels));
    let ks1 = ks0.push("levels"@);
    let vs1 = vs0.push(string_text(levels));
    lemma_options_push(ps0, ks0, vs0, opt_pair("levels"@, levels), "levels"@, string_text(levels));
    let ps2 = ps1.push(opt_pair("platform"@, platform));
    let ks2 = ks1.push("platform"@);
    let vs2 = vs1.push(string_text(platform));
    lemma_options_push(ps1, ks1, vs1, opt_pair("platform"@, platform), "platform"@, string_text(platform));
    let ps3 = ps2.push(opt_pair("file"@, file));
    let ks3 = ks2.push("file"@);
    let vs3 = vs2.push(string_text(file));
    lemma_options_push(ps2, ks2, vs2, opt_pair("file"@, file), "file"@, string_text(file));
    let ps4 = ps3.push(opt_pair("q"@, grep));
    let ks4 = ks3.push("q"@);
    let vs4 = vs3.push(string_text(grep));
    lemma_options_push(ps3, ks3, vs3, opt_pair("q"@, grep), "q"@, string_text(grep));
    let ps5 = ps4.push(qf("summary"@, summary));
    let ks5 = ks4.push("summary"@);
    let vs5 = vs4.push(flag_value(summary));
    lemma_options_push(ps4, ks4, vs4, qf("summary"@, summary), "summary"@, flag_value(summary));
    let ps6 = ps5.push(qn("maxLinesPerDevice"@, max_lines_per_device));
    let ks6 = ks5.push("maxLinesPerDevice"@);
    let vs6 = vs5.push(number_text(max_lines_per_device));
    lemma_options_push(ps5, ks5, vs5, qn("maxLinesPerDevice"@, max_lines_per_device), "maxLinesPerDevice"@, number_text(max_lines_per_device));
    let ps7 = ps6.push(qf("includeArchived"@, include_archived));
    let ks7 = ks6.push("includeArchived"@);
    let vs7 = vs6.push(flag_value(include_archived));
    lemma_options_push(ps6, ks6, vs6, qf("includeArchived"@, include_archived), "includeArchived"@, flag_value(include_archived));
    let ps8 = ps7.push(qn("limit"@, limit));
    let ks8 = ks7.push("limit"@);
    let vs8 = vs7.push(number_text(limit));
    lemma_options_push(ps7, ks7, vs7, qn("limit"@, limit), "limit"@, number_text(limit));
    let ps9 = ps8.push(qn("offset"@, offset));
    let ks9 = ks8.push("offset"@);
    let vs9 = vs8.push(number_text(offset));
    lemma_options_push(ps8, ks8, vs8, qn("offset"@, offset), "offset"@, number_text(offset));
    lemma_logs_request_keys();
    assert(ks9 =~= seq!["levels"@, "platform"@, "file"@, "q"@, "summary"@, "maxLinesPerDevice"@, "includeArchived"@, "limit"@, "offset"@]);
    lemma_joined_options(ps9, ks9, vs9);
    lemma_sends_all_pop(joined(ps9), ks8, vs8, "offset"@, number_text(offset));
    lemma_sends_all_pop(joined(ps9), ks7, vs7, "limit"@, number_text(limit));
    lemma_sends_all_pop(joined(ps9), ks6, vs6, "includeArchived"@, flag_value(include_archived));
    lemma_sends_all_pop(joined(ps9), ks5, vs5, "maxLinesPerDevice"@, number_text(max_lines_per_device));
    lemma_sends_all_pop(joined(ps9), ks4, vs4, "summary"@, flag_value(summary));
    lemma_sends_all_pop(joined(ps9), ks3, vs3, "q"@, string_text(grep));
    lemma_sends_all_pop(joined(ps9), ks2, vs2, "file"@, string_text(file));
    lemma_sends_all_pop(joined(ps9), ks1, vs1, "platform"@, string_text(platform));
    lemma_sends_all_pop(joined(ps9), ks0, vs0, "levels"@, string_text(levels));
    assert(Seq::<(Seq<char>, Seq<char>)>::empty() + opt_pair("levels"@, levels) =~= opt_pair("levels"@, levels));
    assert(joined(ps9) =~= opt_pair("levels"@, levels) + opt_pair("platform"@, platform) + opt_pair("file"@, file) + opt_pair("q"@, grep) + qf("summary"@, summary) + qn("maxLinesPerDevice"@, max_lines_per_device) + qf("includeArchived"@, include_archived) + qn("limit"@, limit) + qn("offset"@, offset));
}

/// `logs TOOL`: every filter that is given (levels, platform, file, `q` for
/// `--grep`, lines per device, limit, offset) with its value, the flags
/// (`summary`, `includeArchived`) exactly when set, and nothing else.
pub proof fn law_logs_request(tool: Seq<char>, levels: Option<String>, platform: Option<String>, file: Option<String>, grep: Option<String>, summary: bool, max_lines_per_device: Option<u32>, include_archived: bool, limit: Option<u32>, offset: Option<u32>)
    ensures
        ({
            let base = "/api/v1/management/logs/"@ + tool;
            let t = logs_target(tool, levels, platform, file, grep, summary, max_lines_per_device, include_archived, limit, offset);
            let ps = query_pairs(t, base);
            &&& has_prefix(t, base)
            &&& sends_opt(ps, "levels"@, string_text(levels))
            &&& sends_opt(ps, "platform"@, string_text(platform))
            &&& sends_opt(ps, "file"@, string_text(file))
            &&& sends_opt(ps, "q"@, string_text(grep))
            &&& sends_flag(ps, "summary"@, summary)
            &&& sends_opt(ps, "maxLinesPerDevice"@, number_text(max_lines_per_device))
            &&& sends_flag(ps, "includeArchived"@, include_archived)
            &&& sends_opt(ps, "limit"@, number_text(limit))
            &&& sends_opt(ps, "offset"@, number_text(offset))
            &&& only_keys(ps, seq!["levels"@, "platform"@, "file"@, "q"@, "summary"@, "maxLinesPerDevice"@, "includeArchived"@, "limit"@, "offset"@])
        }),
{
    lemma_logs_request_pairs(tool, levels, platform, file, grep, summary, max_lines_per_device, include_archived, limit, offset);
    let ps = opt_pair("levels"@, levels) + opt_pair("platform"@, platform) + opt_pair("file"@, file) + opt_pair("q"@, grep) + qf("summary"@, summary) + qn("maxLinesPerDevice"@, max_lines_per_device) + qf("includeArchived"@, include_archived) + qn("limit"@, limit) + qn("offset"@, offset);
    assert(logs_target(tool, levels, platform, file, grep, summary, max_lines_per_device, include_archived, limit, offset) == "/api/v1/management/logs/"@ + tool + query_text(ps));
    lemma_query_pairs("/api/v1/management/logs/"@ + tool, ps);
}

proof fn lemma_events_request_keys()
    ensures
        all_distinct(seq!["limit"@, "offset"@, "startDate"@, "endDate"@, "type"@]),
{
    reveal_strlit("endDate");
    reveal_strlit("limit");
    reveal_strlit("offset");
    reveal_strlit("startDate");
    reveal_strlit("type");
    lemma_options_empty();
    let ks0 = Seq::<Seq<char>>::empty();
    let ks1 = ks0.push("limit"@);
    let ks2 = ks1.push("offset"@);
    let ks3 = ks2.push("startDate"@);
    let ks4 = ks3.push("endDate"@);
    let ks5 = ks4.push("type"@);
    lemma_distinct_push(ks0, "limit"@);
    lemma_ne("limit"@, "offset"@, 0);
    lemma_not_has_push(ks0, "limit"@, "offset"@);
    lemma_distinct_push(ks1, "offset"@);
    lemma_ne("limit"@, "startDate"@, 0);
    lemma_not_has_push(ks0, "limit"@, "startDate"@);
    lemma_ne("offset"@, "startDate"@, 0);
    lemma_not_has_push(ks1, "offset"@, "startDate"@);
    lemma_distinct_push(ks2, "startDate"@);
    lemma_ne("limit"@, "endDate"@, 0);
    lemma_not_has_push(ks0, "limit"@, "endDate"@);
    lemma_ne("offset"@, "endDate"@, 0);
    lemma_not_has_push(ks1, "offset"@, "endDate"@);
    lemma_ne("startDate"@, "endDate"@, 0);
    lemma_not_has_push(ks2, "startDate"@, "endDate"@);
    lemma_distinct_push(ks3, "endDate"@);
    lemma_ne("limit"@, "type"@, 0);
    lemma_not_has_push(ks0, "limit"@, "type"@);
    lemma_ne("offset"@, "type"@, 0);
    lemma_not_has_push(ks1, "offset"@, "type"@);
    lemma_ne("startDate"@, "type"@, 0);
    lemma_not_has_push(ks2, "startDate"@, "type"@);
    lemma_ne("endDate"@, "type"@, 0);
    lemma_not_has_push(ks3, "endDate"@, "type"@);
    lemma_distinct_push(ks4, "type"@);
    assert(ks5 =~= seq!["limit"@, "offset"@, "startDate"@, "endDate"@, "type"@]);
}

proof fn lemma_events_request_pairs(limit: Option<u32>, offset: Option<u32>, since: Option<String>, until: Option<String>, kind: Option<String>)
    ensures
        sends_opt(qn("limit"@, limit) + qn("offset"@, offset) + opt_pair("startDate"@, since) + opt_pair("endDate"@, until) + opt_pair("type"@, kind), "limit"@, number_text(limit)),
        sends_opt(qn("limit"@, limit) + qn("offset"@, offset) + opt_pair("startDate"@, since) + opt_pair("endDate"@, until) + opt_pair("type"@, kind), "offset"@, number_text(offset)),
        sends_opt(qn("limit"@, limit) + qn("offset"@, offset) + opt_pair("startDate"@, since) + opt_pair("endDate"@, until) + opt_pair("type"@, kind), "startDate"@, string_text(since)),
        sends_opt(qn("limit"@, limit) + qn("offset"@, offset) + opt_pair("startDate"@, since) + opt_pair("endDate"@, until) + opt_pair("type"@, kind), "endDate"@, string_text(until)),
        sends_opt(qn("limit"@, limit) + qn("offset"@, offset) + opt_pair("startDate"@, since) + opt_pair("endDate"@, until) + opt_pair("type"@, kind), "type"@, string_text(kind)),
        only_keys(qn("limit"@, limit) + qn("offset"@, offset) + opt_pair("startDate"@, since) + opt_pair("endDate"@, until) + opt_pair("type"@, kind), seq!["limit"@, "offset"@, "startDate"@, "endDate"@, "type"@]),
{
    lemma_sources("limit"@, limit, None, false, None, seq![]);
    lemma_sources("offset"@, offset, None, false, None, seq![]);
    lemma_sources("startDate"@, None, None, false, since, seq![]);
    lemma_sources("endDate"@, None, None, false, until, seq![]);
    lemma_sources("type"@, None, None, false, kind, seq![]);
    lemma_options_empty();
    let ps0 = Seq::<Seq<(Seq<char>, Seq<char>)>>::empty();
    let ks0 = Seq::<Seq<char>>::empty();
    let vs0 = Seq::<Option<Seq<char>>>::empty();
    let ps1 = ps0.push(qn("limit"@, limit));
    let ks1 = ks0.push("limit"@);
    let vs1 = vs0.push(number_text(limit));
    lemma_options_push(ps0, ks0, vs0, qn("limit"@, limit), "limit"@, number_text(limit));
    let ps2 = ps1.push(qn("offset"@, offset));
    let ks2 = ks1.push("offset"@);
    let vs2 = vs1.push(number_text(offset));
    lemma_options_push(ps1, ks1, vs1, qn("offset"@, offset), "offset"@, number_text(offset));
    let ps3 = ps2.push(opt_pair("startDate"@, since));
    let ks3 = ks2.push("startDate"@);
    let vs3 = vs2.push(string_text(since));
    lemma_options_push(ps2, ks2, vs2, opt_pair("startDate"@, since), "startDate"@, string_text(since));
    let ps4 = ps3.push(opt_pair("endDate"@, until));
    let ks4 = ks3.push("endDate"@);
    let vs4 = vs3.push(string_text(until));
    lemma_options_push(ps3, ks3, vs3, opt_pair("endDate"@, until), "endDate"@, string_text(until));
    let ps5 = ps4.push(opt_pair("type"@, kind));
    let ks5 = ks4.push("type"@);
    let vs5 = vs4.push(string_text(kind));
    lemma_options_push(ps4, ks4, vs4, opt_pair("type"@, kind), "type"@, string_text(kind));
    lemma_events_request_keys();
    assert(ks5 =~= seq!["limit"@, "offset"@, "startDate"@, "endDate"@, "type"@]);
    lemma_joined_options(ps5, ks5, vs5);
    lemma_sends_all_pop(joined(ps5), ks4, vs4, "type"@, string_text(kind));
    lemma_sends_all_pop(joined(ps5), ks3, vs3, "endDate"@, string_text(until));
    lemma_sends_all_pop(joined(ps5), ks2, vs2, "startDate"@, string_text(since));
    lemma_sends_all_pop(joined(ps5), ks1, vs1, "offset"@, number_text(offset));
    lemma_sends_all_pop(joined(ps5), ks0, vs0, "limit"@, number_text(limit));
    assert(Seq::<(Seq<char>, Seq<char>)>::empty() + qn("limit"@, limit) =~= qn("limit"@, limit));
    assert(joined(ps5) =~= qn("limit"@, limit) + qn("offset"@, offset) + opt_pair("startDate"@, since) + opt_pair("endDate"@, until) + opt_pair("type"@, kind));
}

/// `events`: the limit, offset, `startDate` (`--since`), `endDate`
/// (`--until`) and `type` each exactly when given, and nothing else.
pub proof fn law_events_request(limit: Option<u32>, offset: Option<u32>, since: Option<String>, until: Option<String>, kind: Option<String>)
    ensures
        ({
            let base = "/api/v1/events"@;
            let t = events_target(limit, offset, since, until, kind);
            let ps = query_pairs(t, base);
            &&& has_prefix(t, base)
            &&& sends_opt(ps, "limit"@, number_text(limit))
            &&& sends_opt(ps, "offset"@, number_text(offset))
            &&& sends_opt(ps, "startDate"@, string_text(since))
            &&& sends_opt(ps, "endDate"@, string_text(until))
            &&& sends_opt(ps, "type"@, string_text(kind))
            &&& only_keys(ps, seq!["limit"@, "offset"@, "startDate"@, "endDate"@, "type"@])
        }),
{
    lemma_events_request_pairs(limit, offset, since, until, kind);
    let ps = qn("limit"@, limit) + qn("offset"@, offset) + opt_pair("startDate"@, since) + opt_pair("endDate"@, until) + opt_pair("type"@, kind);
    assert(events_target(limit, offset, since, until, kind) == "/api/v1/events"@ + query_text(ps));
    lemma_query_pairs("/api/v1/events"@, ps);
}

proof fn lemma_apps_filters_request_keys()
    ensures
        all_distinct(seq!["includeArchived"@]),
{
    reveal_strlit("includeArchived");
    lemma_options_empty();
    let ks0 = Seq::<Seq<char>>::empty();
    let ks1 = ks0.push("includeArchived"@);
    lemma_distinct_push(ks0, "includeArchived"@);
    assert(ks1 =~= seq!["includeArchived"@]);
}

proof fn lemma_apps_filters_request_pairs(include_archived: bool)
    ensures
        sends_opt(qf("includeArchived"@, include_archived), "includeArchived"@, flag_value(include_archived)),
        only_keys(qf("includeArchived"@, include_archived), seq!["includeArchived"@]),
{
    lemma_sources("includeArchived"@, None, None, include_archived, None, seq![]);
    lemma_options_empty();
    let ps0 = Seq::<Seq<(Seq<char>, Seq<char>)>>::empty();
    let ks0 = Seq::<Seq<char>>::empty();
    let vs0 = Seq::<Option<Seq<char>>>::empty();
    let ps1 = ps0.push(qf("includeArchived"@, include_archived));
    let ks1 = ks0.push("includeArchived"@);
    let vs1 = vs0.push(flag_value(include_archived));
    lemma_options_push(ps0, ks0, vs0, qf("includeArchived"@, include_archived), "includeArchived"@, flag_value(include_archived));
    lemma_apps_filters_request_keys();
    assert(ks1 =~= seq!["includeArchived"@]);
    lemma_joined_options(ps1, ks1, vs1);
    lemma_sends_all_pop(joined(ps1), ks0, vs0, "includeArchived"@, flag_value(include_archived));
    assert(Seq::<(Seq<char>, Seq<char>)>::empty() + qf("includeArchived"@, include_archived) =~= qf("includeArchived"@, include_archived));
    assert(joined(ps1) =~= qf("includeArchived"@, include_archived));
}

/// `apps filters`: `includeArchived=true` exactly when archived devices are
/// asked for, and nothing else.
pub proof fn law_apps_filters_request(include_archived: bool)
    ensures
        ({
            let base = "/api/v1/applications/filters"@;
            let t = apps_target(AppsCommand::Filters { include_archived });
            let ps = query_pairs(t, base);
            &&& has_prefix(t, base)
            &&& sends_flag(ps, "includeArchived"@, include_archived)
            &&& only_keys(ps, seq!["includeArchived"@])
        }),
{
    lemma_apps_filters_request_pairs(include_archived);
    let ps = qf("includeArchived"@, include_archived);
    assert(apps_target(AppsCommand::Filters { include_archived }) == "/api/v1/applications/filters"@ + query_text(ps));
    lemma_query_pairs("/api/v1/applications/filters"@, ps);
}

proof fn lemma_apps_collection_health_request_keys()
    ensures
        all_distinct(seq!["freshDays"@, "staleDays"@, "includeArchived"@]),
{
    reveal_strlit("freshDays");
    reveal_strlit("includeArchived");
    reveal_strlit("staleDays");
    lemma_options_empty();
    let ks0 = Seq::<Seq<char>>::empty();
    let ks1 = ks0.push("freshDays"@);
    let ks2 = ks1.push("staleDays"@);
    let ks3 = ks2.push("includeArchived"@);
    lemma_distinct_push(ks0, "freshDays"@);
    lemma_ne("freshDays"@, "staleDays"@, 0);
    lemma_not_has_push(ks0, "freshDays"@, "staleDays"@);
    lemma_distinct_push(ks1, "staleDays"@);
    lemma_ne("freshDays"@, "includeArchived"@, 0);
    lemma_not_has_push(ks0, "freshDays"@, "includeArchived"@);
    lemma_ne("staleDays"@, "includeArchived"@, 0);
    lemma_not_has_push(ks1, "staleDays"@, "includeArchived"@);
    lemma_distinct_push(ks2, "includeArchived"@);
    assert(ks3 =~= seq!["freshDays"@, "staleDays"@, "includeArchived"@]);
}

proof fn lemma_apps_collection_health_request_pairs(fresh_days: Option<u32>, stale_days: Option<u32>, include_archived: bool)
    ensures
        sends_opt(qn("freshDays"@, fresh_days) + qn("staleDays"@, stale_days) + qf("includeArchived"@, include_archived), "freshDays"@, number_text(fresh_days)),
        sends_opt(qn("freshDays"@, fresh_days) + qn("staleDays"@, stale_days) + qf("includeArchived"@, include_archived), "staleDays"@, number_text(stale_days)),
        sends_opt(qn("freshDays"@, fresh_days) + qn("staleDays"@, stale_days) + qf("includeArchived"@, include_archived), "includeArchived"@, flag_value(include_archived)),
        only_keys(qn("freshDays"@, fresh_days) + qn("staleDays"@, stale_days) + qf("includeArchived"@, include_archived), seq!["freshDays"@, "staleDays"@, "includeArchived"@]),
{
    lemma_sources("freshDays"@, fresh_days, None, false, None, seq![]);
    lemma_sources("staleDays"@, stale_days, None, false, None, seq![]);
    lemma_sources("includeArchived"@, None, None, include_archived, None, seq![]);
    lemma_options_empty();
    let ps0 = Seq::<Seq<(Seq<char>, Seq<char>)>>::empty();
    let ks0 = Seq::<Seq<char>>::empty();
    let vs0 = Seq::<Option<Seq<char>>>::empty();
    let ps1 = ps0.push(qn("freshDays"@, fresh_days));
    let ks1 = ks0.push("freshDays"@);
    let vs1 = vs0.push(number_text(fresh_days));
    lemma_options_push(ps0, ks0, vs0, qn("freshDays"@, fresh_days), "freshDays"@, number_text(fresh_days));
    let ps2 = ps1.push(qn("staleDays"@, stale_days));
    let ks2 = ks1.push("staleDays"@);
    let vs2 = vs1.push(number_text(stale_days));
    lemma_options_push(ps1, ks1, vs1, qn("staleDays"@, stale_days), "staleDays"@, number_text(stale_days));
    let ps3 = ps2.push(qf("includeArchived"@, include_archived));
    let ks3 = ks2.push("includeArchived"@);
    let vs3 = vs2.push(flag_value(include_archived));
    lemma_options_push(ps2, ks2, vs2, qf("includeArchived"@, include_archived), "includeArchived"@, flag_value(include_archived));
    lemma_apps_collection_health_request_keys();
    assert(ks3 =~= seq!["freshDays"@, "staleDays"@, "includeArchived"@]);
    lemma_joined_options(ps3, ks3, vs3);
    lemma_sends_all_pop(joined(ps3), ks2, vs2, "includeArchived"@, flag_value(include_archived));
    lemma_sends_all_pop(joined(ps3), ks1, vs1, "staleDays"@, number_text(stale_days));
    lemma_sends_all_pop(joined(ps3), ks0, vs0, "freshDays"@, number_text(fresh_days));
    assert(Seq::<(Seq<char>, Seq<char>)>::empty() + qn("freshDays"@, fresh_days) =~= qn("freshDays"@, fresh_days));
    assert(joined(ps3) =~= qn("freshDays"@, fresh_days) + qn("staleDays"@, stale_days) + qf("includeArchived"@, include_archived));
}

/// `apps collection-health`: the fresh and stale windows when given,
/// `includeArchived=true` exactly when archived devices are asked for, and
/// nothing else.
pub proof fn law_apps_collection_health_request(fresh_days: Option<u32>, stale_days: Option<u32>, include_archived: bool)
    ensures
        ({
            let base = "/api/v1/applications/collection-health"@;
            let t = apps_target(AppsCommand::CollectionHealth { fresh_days, stale_days, include_archived });
            let ps = query_pairs(t, base);
            &&& has_prefix(t, base)
            &&& sends_opt(ps, "freshDays"@, number_text(fresh_days))
            &&& sends_opt(ps, "staleDays"@, number_text(stale_days))
            &&& sends_flag(ps, "includeArchived"@, include_archived)
            &&& only_keys(ps, seq!["freshDays"@, "staleDays"@, "includeArchived"@])
        }),
{
    lemma_apps_collection_health_request_pairs(fresh_days, stale_days, include_archived);
    let ps = qn("freshDays"@, fresh_days) + qn("staleDays"@, stale_days) + qf("includeArchived"@, include_archived);
    assert(apps_target(AppsCommand::CollectionHealth { fresh_days, stale_days, include_archived }) == "/api/v1/applications/collection-health"@ + query_text(ps));
    lemma_query_pairs("/api/v1/applications/collection-health"@, ps);
}

proof fn lemma_apps_by_device_request_keys()
    ensures
        all_distinct(seq!["app"@, "days"@, "usages"@, "catalogs"@, "locations"@, "includeArchived"@]),
{
    reveal_strlit("app");
    reveal_strlit("catalogs");
    reveal_strlit("days");
    reveal_strlit("includeArchived");
    reveal_strlit("locations");
    reveal_strlit("usages");
    lemma_options_empty();
    let ks0 = Seq::<Seq<char>>::empty();
    let ks1 = ks0.push("app"@);
    let ks2 = ks1.push("days"@);
    let ks3 = ks2.push("usages"@);
    let ks4 = ks3.push("catalogs"@);
    let ks5 = ks4.push("locations"@);
    let ks6 = ks5.push("includeArchived"@);
    lemma_distinct_push(ks0, "app"@);
    lemma_ne("app"@, "days"@, 0);
    lemma_not_has_push(ks0, "app"@, "days"@);
    lemma_distinct_push(ks1, "days"@);
    lemma_ne("app"@, "usages"@, 0);
    lemma_not_has_push(ks0, "app"@, "usages"@);
    lemma_ne("days"@, "usages"@, 0);
    lemma_not_has_push(ks1, "days"@, "usages"@);
    lemma_distinct_push(ks2, "usages"@);
    lemma_ne("app"@, "catalogs"@, 0);
    lemma_not_has_push(ks0, "app"@, "catalogs"@);
    lemma_ne("days"@, "catalogs"@, 0);
    lemma_not_has_push(ks1, "days"@, "catalogs"@);
    lemma_ne("usages"@, "catalogs"@, 0);
    lemma_not_has_push(ks2, "usages"@, "catalogs"@);
    lemma_distinct_push(ks3, "catalogs"@);
    lemma_ne("app"@, "locations"@, 0);
    lemma_not_has_push(ks0, "app"@, "locations"@);
    lemma_ne("days"@, "locations"@, 0);
    lemma_not_has_push(ks1, "days"@, "locations"@);
    lemma_ne("usages"@, "locations"@, 0);
    lemma_not_has_push(ks2, "usages"@, "locations"@);
    lemma_ne("catalogs"@, "locations"@, 0);
    lemma_not_has_push(ks3, "catalogs"@, "locations"@);
    lemma_distinct_push(ks4, "locations"@);
    lemma_ne("app"@, "includeArchived"@, 0);
    lemma_not_has_push(ks0, "app"@, "includeArchived"@);
    lemma_ne("days"@, "includeArchived"@, 0);
    lemma_not_has_push(ks1, "days"@, "includeArchived"@);
    lemma_ne("usages"@, "includeArchived"@, 0);
    lemma_not_has_push(ks2, "usages"@, "includeArchived"@);
    lemma_ne("catalogs"@, "includeArchived"@, 0);
    lemma_not_has_push(ks3, "catalogs"@, "includeArchived"@);
    lemma_ne("locations"@, "includeArchived"@, 0);
    lemma_not_has_push(ks4, "locations"@, "includeArchived"@);
    lemma_distinct_push(ks5, "includeArchived"@);
    assert(ks6 =~= seq!["app"@, "days"@, "usages"@, "catalogs"@, "locations"@, "includeArchived"@]);
}

proof fn lemma_apps_by_device_request_pairs(app: String, days: Option<u32>, usages: Option<String>, catalogs: Option<String>, locations: Option<String>, include_archived: bool)
    ensures
        sends_opt(qv("app"@, app@) + qn("days"@, days) + opt_pair("usages"@, usages) + opt_pair("catalogs"@, catalogs) + opt_pair("locations"@, locations) + qf("includeArchived"@, include_archived), "app"@, Some(app@)),
        sends_opt(qv("app"@, app@) + qn("days"@, days) + opt_pair("usages"@, usages) + opt_pair("catalogs"@, catalogs) + opt_pair("locations"@, locations) + qf("includeArchived"@, include_archived), "days"@, number_text(days)),
        sends_opt(qv("app"@, app@) + qn("days"@, days) + opt_pair("usages"@, usages) + opt_pair("catalogs"@, catalogs) + opt_pair("locations"@, locations) + qf("includeArchived"@, include_archived), "usages"@, string_text(usages)),
        sends_opt(qv("app"@, app@) + qn("days"@, days) + opt_pair("usages"@, usages) + opt_pair("catalogs"@, catalogs) + opt_pair("locations"@, locations) + qf("includeArchived"@, include_archived), "catalogs"@, string_text(catalogs)),
        sends_opt(qv("app"@, app@) + qn("days"@, days) + opt_pair("usages"@, usages) + opt_pair("catalogs"@, catalogs) + opt_pair("locations"@, locations) + qf("includeArchived"@, include_archived), "locations"@, string_text(locations)),
        sends_opt(qv("app"@, app@) + qn("days"@, days) + opt_pair("usages"@, usages) + opt_pair("catalogs"@, catalogs) + opt_pair("locations"@, locations) + qf("includeArchived"@, include_archived), "includeArchived"@, flag_value(include_archived)),
        only_keys(qv("app"@, app@) + qn("days"@, days) + opt_pair("usages"@, usages) + opt_pair("catalogs"@, catalogs) + opt_pair("locations"@, locations) + qf("includeArchived"@, include_archived), seq!["app"@, "days"@, "usages"@, "catalogs"@, "locations"@, "includeArchived"@]),
{
    lemma_sources("app"@, None, None, false, None, app@);
    lemma_sources("days"@, days, None, false, None, seq![]);
    lemma_sources("usages"@, None, None, false, usages, seq![]);
    lemma_sources("catalogs"@, None, None, false, catalogs, seq![]);
    lemma_sources("locations"@, None, None, false, locations, seq![]);
    lemma_sources("includeArchived"@, None, None, include_archived, None, seq![]);
    lemma_options_empty();
    let ps0 = Seq::<Seq<(Seq<char>, Seq<char>)>>::empty();
    let ks0 = Seq::<Seq<char>>::empty();
    let vs0 = Seq::<Option<Seq<char>>>::empty();
    let ps1 = ps0.push(qv("app"@, app@));
    let ks1 = ks0.push("app"@);
    let vs1 = vs0.push(Some(app@));
    lemma_options_push(ps0, ks0, vs0, qv("app"@, app@), "app"@, Some(app@));
    let ps2 = ps1.push(qn("days"@, days));
    let ks2 = ks1.push("days"@);
    let vs2 = vs1.push(number_text(days));
    lemma_options_push(ps1, ks1, vs1, qn("days"@, days), "days"@, number_text(days));
    let ps3 = ps2.push(opt_pair("usages"@, usages));
    let ks3 = ks2.push("usages"@);
    let vs3 = vs2.push(string_text(usages));
    lemma_options_push(ps2, ks2, vs2, opt_pair("usages"@, usages), "usages"@, string_text(usages));
    let ps4 = ps3.push(opt_pair("catalogs"@, catalogs));
    let ks4 = ks3.push("catalogs"@);
    let vs4 = vs3.push(string_text(catalogs));
    lemma_options_push(ps3, ks3, vs3, opt_pair("catalogs"@, catalogs), "catalogs"@, string_text(catalogs));
    let ps5 = ps4.push(opt_pair("locations"@, locations));
    let ks5 = ks4.push("locations"@);
    let vs5 = vs4.push(string_text(locations));
    lemma_options_push(ps4, ks4, vs4, opt_pair("locations"@, locations), "locations"@, string_text(locations));
    let ps6 = ps5.push(qf("includeArchived"@, include_archived));
    let ks6 = ks5.push("includeArchived"@);
    let vs6 = vs5.push(flag_value(include_archived));
    lemma_options_push(ps5, ks5, vs5, qf("includeArchived"@, include_archived), "includeArchived"@, flag_value(include_archived));
    lemma_apps_by_device_request_keys();
    assert(ks6 =~= seq!["app"@, "days"@, "usages"@, "catalogs"@, "locations"@, "includeArchived"@]);
    lemma_joined_options(ps6, ks6, vs6);
    lemma_sends_all_pop(joined(ps6), ks5, vs5, "includeArchived"@, flag_value(include_archived));
    lemma_sends_all_pop(joined(ps6), ks4, vs4, "locations"@, string_text(locations));
    lemma_sends_all_pop(joined(ps6), ks3, vs3, "catalogs"@, string_text(catalogs));
    lemma_sends_all_pop(joined(ps6), ks2, vs2, "usages"@, string_text(usages));
    lemma_sends_all_pop(joined(ps6), ks1, vs1, "days"@, number_text(days));
    lemma_sends_all_pop(joined(ps6), ks0, vs0, "app"@, Some(app@));
    assert(Seq::<(Seq<char>, Seq<char>)>::empty() + qv("app"@, app@) =~= qv("app"@, app@));
    assert(joined(ps6) =~= qv("app"@, app@) + qn("days"@, days) + opt_pair("usages"@, usages) + opt_pair("catalogs"@, catalogs) + opt_pair("locations"@, locations) + qf("includeArchived"@, include_archived));
}

/// `apps by-device APP`: the application always, the window and each
/// inventory filter when given, `includeArchived=true` exactly when asked
/// for, and nothing else.
pub proof fn law_apps_by_device_request(app: String, days: Option<u32>, usages: Option<String>, catalogs: Option<String>, locations: Option<String>, include_archived: bool)
    ensures
        ({
            let base = "/api/v1/applications/usage/by-device"@;
            let t = apps_target(AppsCommand::ByDevice { app, days, usages, catalogs, locations, include_archived });
            let ps = query_pairs(t, base);
            &&& has_prefix(t, base)
            &&& sends_opt(ps, "app"@, Some(app@))
            &&& sends_opt(ps, "days"@, number_text(days))
            &&& sends_opt(ps, "usages"@, string_text(usages))
            &&& sends_opt(ps, "catalogs"@, string_text(catalogs))
            &&& sends_opt(ps, "locations"@, string_text(locations))
            &&& sends_flag(ps, "includeArchived"@, include_archived)
            &&& only_keys(ps, seq!["app"@, "days"@, "usages"@, "catalogs"@, "locations"@, "includeArchived"@])
        }),
{
    lemma_apps_by_device_request_pairs(app, days, usages, catalogs, locations, include_archived);
    let ps = qv("app"@, app@) + qn("days"@, days) + opt_pair("usages"@, usages) + opt_pair("catalogs"@, catalogs) + opt_pair("locations"@, locations) + qf("includeArchived"@, include_archived);
    assert(apps_target(AppsCommand::ByDevice { app, days, usages, catalogs, locations, include_archived }) == "/api/v1/applications/usage/by-device"@ + query_text(ps));
    lemma_query_pairs("/api/v1/applications/usage/by-device"@, ps);
}

proof fn lemma_apps_distribution_request_keys()
    ensures
        all_distinct(seq!["applicationNames"@, "usages"@, "catalogs"@, "locations"@, "areas"@, "fleets"@, "rooms"@, "platforms"@, "includeArchived"@]),
{
    reveal_strlit("applicationNames");
    reveal_strlit("areas");
    reveal_strlit("catalogs");
    reveal_strlit("fleets");
    reveal_strlit("includeArchived");
    reveal_strlit("locations");
    reveal_strlit("platforms");
    reveal_strlit("rooms");
    reveal_strlit("usages");
    lemma_options_empty();
    let ks0 = Seq::<Seq<char>>::empty();
    let ks1 = ks0.push("applicationNames"@);
    let ks2 = ks1.push("usages"@);
    let ks3 = ks2.push("catalogs"@);
    let ks4 = ks3.push("locations"@);
    let ks5 = ks4.push("areas"@);
    let ks6 = ks5.push("fleets"@);
    let ks7 = ks6.push("rooms"@);
    let ks8 = ks7.push("platforms"@);
    let ks9 = ks8.push("includeArchived"@);
    lemma_distinct_push(ks0, "applicationNames"@);
    lemma_ne("applicationNames"@, "usages"@, 0);
    lemma_not_has_push(ks0, "applicationNames"@, "usages"@);
    lemma_distinct_push(ks1, "usages"@);
    lemma_ne("applicationNames"@, "catalogs"@, 0);
    lemma_not_has_push(ks0, "applicationNames"@, "catalogs"@);
    lemma_ne("usages"@, "catalogs"@, 0);
    lemma_not_has_push(ks1, "usages"@, "catalogs"@);
    lemma_distinct_push(ks2, "catalogs"@);
    lemma_ne("applicationNames"@, "locations"@, 0);
    lemma_not_has_push(ks0, "applicationNames"@, "locations"@);
    lemma_ne("usages"@, "locations"@, 0);
    lemma_not_has_push(ks1, "usages"@, "locations"@);
    lemma_ne("catalogs"@, "locations"@, 0);
    lemma_not_has_push(ks2, "catalogs"@, "locations"@);
    lemma_distinct_push(ks3, "locations"@);
    lemma_ne("applicationNames"@, "areas"@, 0);
    lemma_not_has_push(ks0, "applicationNames"@, "areas"@);
    lemma_ne("usages"@, "areas"@, 0);
    lemma_not_has_push(ks1, "usages"@, "areas"@);
    lemma_ne("catalogs"@, "areas"@, 0);
    lemma_not_has_push(ks2, "catalogs"@, "areas"@);
    lemma_ne("locations"@, "areas"@, 0);
    lemma_not_has_push(ks3, "locations"@, "areas"@);
    lemma_distinct_push(ks4, "areas"@);
    lemma_ne("applicationNames"@, "fleets"@, 0);
    lemma_not_has_push(ks0, "applicationNames"@, "fleets"@);
    lemma_ne("usages"@, "fleets"@, 0);
    lemma_not_has_push(ks1, "usages"@, "fleets"@);
    lemma_ne("catalogs"@, "fleets"@, 0);
    lemma_not_has_push(ks2, "catalogs"@, "fleets"@);
    lemma_ne("locations"@, "fleets"@, 0);
    lemma_not_has_push(ks3, "locations"@, "fleets"@);
    lemma_ne("areas"@, "fleets"@, 0);
    lemma_not_has_push(ks4, "areas"@, "fleets"@);
    lemma_distinct_push(ks5, "fleets"@);
    lemma_ne("applicationNames"@, "rooms"@, 0);
    lemma_not_has_push(ks0, "applicationNames"@, "rooms"@);
    lemma_ne("usages"@, "rooms"@, 0);
    lemma_not_has_push(ks1, "usages"@, "rooms"@);
    lemma_ne("catalogs"@, "rooms"@, 0);
    lemma_not_has_push(ks2, "catalogs"@, "rooms"@);
    lemma_ne("locations"@, "rooms"@, 0);
    lemma_not_has_push(ks3, "locations"@, "rooms"@);
    lemma_ne("areas"@, "rooms"@, 0);
    lemma_not_has_push(ks4, "areas"@, "rooms"@);
    lemma_ne("fleets"@, "rooms"@, 0);
    lemma_not_has_push(ks5, "fleets"@, "rooms"@);
    lemma_distinct_push(ks6, "rooms"@);
    lemma_ne("applicationNames"@, "platforms"@, 0);
    lemma_not_has_push(ks0, "applicationNames"@, "platforms"@);
    lemma_ne("usages"@, "platforms"@, 0);
    lemma_not_has_push(ks1, "usages"@, "platforms"@);
    lemma_ne("catalogs"@, "platforms"@, 0);
    lemma_not_has_push(ks2, "catalogs"@, "platforms"@);
    lemma_ne("locations"@, "platforms"@, 0);
    lemma_not_has_push(ks3, "locations"@, "platforms"@);
    lemma_ne("areas"@, "platforms"@, 0);
    lemma_not_has_push(ks4, "areas"@, "platforms"@);
    lemma_ne("fleets"@, "platforms"@, 0);
    lemma_not_has_push(ks5, "fleets"@, "platforms"@);
    lemma_ne("rooms"@, "platforms"@, 0);
    lemma_not_has_push(ks6, "rooms"@, "platforms"@);
    lemma_distinct_push(ks7, "platforms"@);
    lemma_ne("applicationNames"@, "includeArchived"@, 0);
    lemma_not_has_push(ks0, "applicationNames"@, "includeArchived"@);
    lemma_ne("usages"@, "includeArchived"@, 0);
    lemma_not_has_push(ks1, "usages"@, "includeArchived"@);
    lemma_ne("catalogs"@, "includeArchived"@, 0);
    lemma_not_has_push(ks2, "catalogs"@, "includeArchived"@);
    lemma_ne("locations"@, "includeArchived"@, 0);
    lemma_not_has_push(ks3, "locations"@, "includeArchived"@);
    lemma_ne("areas"@, "includeArchived"@, 0);
    lemma_not_has_push(ks4, "areas"@, "includeArchived"@);
    lemma_ne("fleets"@, "includeArchived"@, 0);
    lemma_not_has_push(ks5, "fleets"@, "includeArchived"@);
    lemma_ne("rooms"@, "includeArchived"@, 0);
    lemma_not_has_push(ks6, "rooms"@, "includeArchived"@);
    lemma_ne("platforms"@, "includeArchived"@, 0);
    lemma_not_has_push(ks7, "platforms"@, "includeArchived"@);
    lemma_distinct_push(ks8, "includeArchived"@);
    assert(ks9 =~= seq!["applicationNames"@, "usages"@, "catalogs"@, "locations"@, "areas"@, "fleets"@, "rooms"@, "platforms"@, "includeArchived"@]);
}

#[verifier::rlimit(100)]
#[verifier::spinoff_prover]
proof fn lemma_apps_distribution_request_pairs(names: String, filters: InventoryFilters, include_archived: bool)
    ensures
        sends_opt(qv("applicationNames"@, names@) + opt_pair("usages"@, filters.usages) + opt_pair("catalogs"@, filters.catalogs) + opt_pair("locations"@, filters.locations) + opt_pair("areas"@, filters.areas) + opt_pair("fleets"@, filters.fleets) + opt_pair("rooms"@, filters.rooms) + opt_pair("platforms"@, filters.platforms) + qf("includeArchived"@, include_archived), "applicationNames"@, Some(names@)),
        sends_opt(qv("applicationNames"@, names@) + opt_pair("usages"@, filters.usages) + opt_pair("catalogs"@, filters.catalogs) + opt_pair("locations"@, filters.locations) + opt_pair("areas"@, filters.areas) + opt_pair("fleets"@, filters.fleets) + opt_pair("rooms"@, filters.rooms) + opt_pair("platforms"@, filters.platforms) + qf("includeArchived"@, include_archived), "usages"@, string_text(filters.usages)),
        sends_opt(qv("applicationNames"@, names@) + opt_pair("usages"@, filters.usages) + opt_pair("catalogs"@, filters.catalogs) + opt_pair("locations"@, filters.locations) + opt_pair("areas"@, filters.areas) + opt_pair("fleets"@, filters.fleets) + opt_pair("rooms"@, filters.rooms) + opt_pair("platforms"@, filters.platforms) + qf("includeArchived"@, include_archived), "catalogs"@, string_text(filters.catalogs)),
        sends_opt(qv("applicationNames"@, names@) + opt_pair("usages"@, filters.usages) + opt_pair("catalogs"@, filters.catalogs) + opt_pair("locations"@, filters.locations) + opt_pair("areas"@, filters.areas) + opt_pair("fleets"@, filters.fleets) + opt_pair("rooms"@, filters.rooms) + opt_pair("platforms"@, filters.platforms) + qf("includeArchived"@, include_archived), "locations"@, string_text(filters.locations)),
        sends_opt(qv("applicationNames"@, names@) + opt_pair("usages"@, filters.usages) + opt_pair("catalogs"@, filters.catalogs) + opt_pair("locations"@, filters.locations) + opt_pair("areas"@, filters.areas) + opt_pair("fleets"@, filters.fleets) + opt_pair("rooms"@, filters.rooms) + opt_pair("platforms"@, filters.platforms) + qf("includeArchived"@, include_archived), "areas"@, string_text(filters.areas)),
        sends_opt(qv("applicationNames"@, names@) + opt_pair("usages"@, filters.usages) + opt_pair("catalogs"@, filters.catalogs) + opt_pair("locations"@, filters.locations) + opt_pair("areas"@, filters.areas) + opt_pair("fleets"@, filters.fleets) + opt_pair("rooms"@, filters.rooms) + opt_pair("platforms"@, filters.platforms) + qf("includeArchived"@, include_archived), "fleets"@, string_text(filters.fleets)),
        sends_opt(qv("applicationNames"@, names@) + opt_pair("usages"@, filters.usages) + opt_pair("catalogs"@, filters.catalogs) + opt_pair("locations"@, filters.locations) + opt_pair("areas"@, filters.areas) + opt_pair("fleets"@, filters.fleets) + opt_pair("rooms"@, filters.rooms) + opt_pair("platforms"@, filters.platforms) + qf("includeArchived"@, include_archived), "rooms"@, string_text(filters.rooms)),
        sends_opt(qv("applicationNames"@, names@) + opt_pair("usages"@, filters.usages) + opt_pair("catalogs"@, filters.catalogs) + opt_pair("locations"@, filters.locations) + opt_pair("areas"@, filters.areas) + opt_pair("fleets"@, filters.fleets) + opt_pair("rooms"@, filters.rooms) + opt_pair("platforms"@, filters.platforms) + qf("includeArchived"@, include_archived), "platforms"@, string_text(filters.platforms)),
        sends_opt(qv("applicationNames"@, names@) + opt_pair("usages"@, filters.usages) + opt_pair("catalogs"@, filters.catalogs) + opt_pair("locations"@, filters.locations) + opt_pair("areas"@, filters.areas) + opt_pair("fleets"@, filters.fleets) + opt_pair("rooms"@, filters.rooms) + opt_pair("platforms"@, filters.platforms) + qf("includeArchived"@, include_archived), "includeArchived"@, flag_value(include_archived)),
        only_keys(qv("applicationNames"@, names@) + opt_pair("usages"@, filters.usages) + opt_pair("catalogs"@, filters.catalogs) + opt_pair("locations"@, filters.locations) + opt_pair("areas"@, filters.areas) + opt_pair("fleets"@, filters.fleets) + opt_pair("rooms"@, filters.rooms) + opt_pair("platforms"@, filters.platforms) + qf("includeArchived"@, include_archived), seq!["applicationNames"@, "usages"@, "catalogs"@, "locations"@, "areas"@, "fleets"@, "rooms"@, "platforms"@, "includeArchived"@]),
{
    lemma_sources("applicationNames"@, None, None, false, None, names@);
    lemma_sources("usages"@, None, None, false, filters.usages, seq![]);
    lemma_sources("catalogs"@, None, None, false, filters.catalogs, seq![]);
    lemma_sources("locations"@, None, None, false, filters.locations, seq![]);
    lemma_sources("areas"@, None, None, false, filters.areas, seq![]);
    lemma_sources("fleets"@, None, None, false, filters.fleets, seq![]);
    lemma_sources("rooms"@, None, None, false, filters.rooms, seq![]);
    lemma_sources("platforms"@, None, None, false, filters.platforms, seq![]);
    lemma_sources("includeArchived"@, None, None, include_archived, None, seq![]);
    lemma_options_empty();
    let ps0 = Seq::<Seq<(Seq<char>, Seq<char>)>>::empty();
    let ks0 = Seq::<Seq<char>>::empty();
    let vs0 = Seq::<Option<Seq<char>>>::empty();
    let ps1 = ps0.push(qv("applicationNames"@, names@));
    let ks1 = ks0.push("applicationNames"@);
    let vs1 = vs0.push(Some(names@));
    lemma_options_push(ps0, ks0, vs0, qv("applicationNames"@, names@), "applicationNames"@, Some(names@));
    let ps2 = ps1.push(opt_pair("usages"@, filters.usages));
    let ks2 = ks1.push("usages"@);
    let vs2 = vs1.push(string_text(filters.usages));
    lemma_options_push(ps1, ks1, vs1, opt_pair("usages"@, filters.usages), "usages"@, string_text(filters.usages));
    let ps3 = ps2.push(opt_pair("catalogs"@, filters.catalogs));
    let ks3 = ks2.push("catalogs"@);
    let vs3 = vs2.push(string_text(filters.catalogs));
    lemma_options_push(ps2, ks2, vs2, opt_pair("catalogs"@, filters.catalogs), "catalogs"@, string_text(filters.catalogs));
    let ps4 = ps3.push(opt_pair("locations"@, filters.locations));
    let ks4 = ks3.push("locations"@);
    let vs4 = vs3.push(string_text(filters.locations));
    lemma_options_push(ps3, ks3, vs3, opt_pair("locations"@, filters.locations), "locations"@, string_text(filters.locations));
    let ps5 = ps4.push(opt_pair("areas"@, filters.areas));
    let ks5 = ks4.push("areas"@);
    let vs5 = vs4.push(string_text(filters.areas));
    lemma_options_push(ps4, ks4, vs4, opt_pair("areas"@, filters.areas), "areas"@, string_text(filters.areas));
    let ps6 = ps5.push(opt_pair("fleets"@, filters.fleets));
    let ks6 = ks5.push("fleets"@);
    let vs6 = vs5.push(string_text(filters.fleets));
    lemma_options_push(ps5, ks5, vs5, opt_pair("fleets"@, filters.fleets), "fleets"@, string_text(filters.fleets));
    let ps7 = ps6.push(opt_pair("rooms"@, filters.rooms));
    let ks7 = ks6.push("rooms"@);
    let vs7 = vs6.push(string_text(filters.rooms));
    lemma_options_push(ps6, ks6, vs6, opt_pair("rooms"@, filters.rooms), "rooms"@, string_text(filters.rooms));
    let ps8 = ps7.push(opt_pair("platforms"@, filters.platforms));
    let ks8 = ks7.push("platforms"@);
    let vs8 = vs7.push(string_text(filters.platforms));
    lemma_options_push(ps7, ks7, vs7, opt_pair("platforms"@, filters.platforms), "platforms"@, string_text(filters.platforms));
    let ps9 = ps8.push(qf("includeArchived"@, include_archived));
    let ks9 = ks8.push("includeArchived"@);
    let vs9 = vs8.push(flag_value(include_archived));
    lemma_options_push(ps8, ks8, vs8, qf("includeArchived"@, include_archived), "includeArchived"@, flag_value(include_archived));
    lemma_apps_distribution_request_keys();
    assert(ks9 =~= seq!["applicationNames"@, "usages"@, "catalogs"@, "locations"@, "areas"@, "fleets"@, "rooms"@, "platforms"@, "includeArchived"@]);
    lemma_joined_options(ps9, ks9, vs9);
    lemma_sends_all_pop(joined(ps9), ks8, vs8, "includeArchived"@, flag_value(include_archived));
    lemma_sends_all_pop(joined(ps9), ks7, vs7, "platforms"@, string_text(filters.platforms));
    lemma_sends_all_pop(joined(ps9), ks6, vs6, "rooms"@, string_text(filters.rooms));
    lemma_sends_all_pop(joined(ps9), ks5, vs5, "fleets"@, string_text(filters.fleets));
    lemma_sends_all_pop(joined(ps9), ks4, vs4, "areas"@, string_text(filters.areas));
    lemma_sends_all_pop(joined(ps9), ks3, vs3, "locations"@, string_text(filters.locations));
    lemma_sends_all_pop(joined(ps9), ks2, vs2, "catalogs"@, string_text(filters.catalogs));
    lemma_sends_all_pop(joined(ps9), ks1, vs1, "usages"@, string_text(filters.usages));
    lemma_sends_all_pop(joined(ps9), ks0, vs0, "applicationNames"@, Some(names@));
    assert(Seq::<(Seq<char>, Seq<char>)>::empty() + qv("applicationNames"@, names@) =~= qv("applicationNames"@, names@));
    assert(joined(ps9) =~= qv("applicationNames"@, names@) + opt_pair("usages"@, filters.usages) + opt_pair("catalogs"@, filters.catalogs) + opt_pair("locations"@, filters.locations) + opt_pair("areas"@, filters.areas) + opt_pair("fleets"@, filters.fleets) + opt_pair("rooms"@, filters.rooms) + opt_pair("platforms"@, filters.platforms) + qf("includeArchived"@, include_archived));
}

proof fn lemma_apps_distribution_request_order(names: String, filters: InventoryFilters, include_archived: bool)
    ensures
        qv("applicationNames"@, names@) + filter_pairs(filters) + qf("includeArchived"@, include_archived) == qv("applicationNames"@, names@) + opt_pair("usages"@, filters.usages) + opt_pair("catalogs"@, filters.catalogs) + opt_pair("locations"@, filters.locations) + opt_pair("areas"@, filters.areas) + opt_pair("fleets"@, filters.fleets) + opt_pair("rooms"@, filters.rooms) + opt_pair("platforms"@, filters.platforms) + qf("includeArchived"@, include_archived),
{
    assert(qv("applicationNames"@, names@) + filter_pairs(filters) + qf("includeArchived"@, include_archived) == ((qv("applicationNames"@, names@) + ((((((opt_pair("usages"@, filters.usages) + opt_pair("catalogs"@, filters.catalogs)) + opt_pair("locations"@, filters.locations)) + opt_pair("areas"@, filters.areas)) + opt_pair("fleets"@, filters.fleets)) + opt_pair("rooms"@, filters.rooms)) + opt_pair("platforms"@, filters.platforms))) + qf("includeArchived"@, include_archived)));
    lemma_assoc(qv("applicationNames"@, names@), (((((opt_pair("usages"@, filters.usages) + opt_pair("catalogs"@, filters.catalogs)) + opt_pair("locations"@, filters.locations)) + opt_pair("areas"@, filters.areas)) + opt_pair("fleets"@, filters.fleets)) + opt_pair("rooms"@, filters.rooms)), opt_pair("platforms"@, filters.platforms));
    lemma_assoc(qv("applicationNames"@, names@), ((((opt_pair("usages"@, filters.usages) + opt_pair("catalogs"@, filters.catalogs)) + opt_pair("locations"@, filters.locations)) + opt_pair("areas"@, filters.areas)) + opt_pair("fleets"@, filters.fleets)), opt_pair("rooms"@, filters.rooms));
    lemma_assoc(qv("applicationNames"@, names@), (((opt_pair("usages"@, filters.usages) + opt_pair("catalogs"@, filters.catalogs)) + opt_pair("locations"@, filters.locations)) + opt_pair("areas"@, filters.areas)), opt_pair("fleets"@, filters.fleets));
    lemma_assoc(qv("applicationNames"@, names@), ((opt_pair("usages"@, filters.usages) + opt_pair("catalogs"@, filters.catalogs)) + opt_pair("locations"@, filters.locations)), opt_pair("areas"@, filters.areas));
    lemma_assoc(qv("applicationNames"@, names@), (opt_pair("usages"@, filters.usages) + opt_pair("catalogs"@, filters.catalogs)), opt_pair("locations"@, filters.locations));
    lemma_assoc(qv("applicationNames"@, names@), opt_pair("usages"@, filters.usages), opt_pair("catalogs"@, filters.catalogs));
}

/// `apps distribution NAMES`: the names always, each inventory filter when
/// given, `includeArchived=true` exactly when asked for, and nothing else.
pub proof fn law_apps_distribution_request(names: String, filters: InventoryFilters, include_archived: bool)
    ensures
        ({
            let base = "/api/v1/applications/distribution"@;
            let t = apps_target(AppsCommand::Distribution { names, filters, include_archived });
            let ps = query_pairs(t, base);
            &&& has_prefix(t, base)
            &&& sends_opt(ps, "applicationNames"@, Some(names@))
            &&& sends_opt(ps, "usages"@, string_text(filters.usages))
            &&& sends_opt(ps, "catalogs"@, string_text(filters.catalogs))
            &&& sends_opt(ps, "locations"@, string_text(filters.locations))
            &&& sends_opt(ps, "areas"@, string_text(filters.areas))
            &&& sends_opt(ps, "fleets"@, string_text(filters.fleets))
            &&& sends_opt(ps, "rooms"@, string_text(filters.rooms))
            &&& sends_opt(ps, "platforms"@, string_text(filters.platforms))
            &&& sends_flag(ps, "includeArchived"@, include_archived)
            &&& only_keys(ps, seq!["applicationNames"@, "usages"@, "catalogs"@, "locations"@, "areas"@, "fleets"@, "rooms"@, "platforms"@, "includeArchived"@])
        }),
{
    lemma_apps_distribution_request_pairs(names, filters, include_archived);
    lemma_apps_distribution_request_order(names, filters, include_archived);
    let ps = qv("applicationNames"@, names@) + opt_pair("usages"@, filters.usages) + opt_pair("catalogs"@, filters.catalogs) + opt_pair("locations"@, filters.locations) + opt_pair("areas"@, filters.areas) + opt_pair("fleets"@, filters.fleets) + opt_pair("rooms"@, filters.rooms) + opt_pair("platforms"@, filters.platforms) + qf("includeArchived"@, include_archived);
    assert(apps_target(AppsCommand::Distribution { names, filters, include_archived }) == "/api/v1/applications/distribution"@ + query_text(ps));
    lemma_query_pairs("/api/v1/applications/distribution"@, ps);
}

proof fn lemma_apps_usage_request_keys()
    ensures
        all_distinct(seq!["days"@, "applicationNames"@, "minHours"@, "minLaunches"@, "usages"@, "catalogs"@, "locations"@, "areas"@, "fleets"@, "rooms"@, "platforms"@, "includeArchived"@]),
{
    reveal_strlit("applicationNames");
    reveal_strlit("areas");
    reveal_strlit("catalogs");
    reveal_strlit("days");
    reveal_strlit("fleets");
    reveal_strlit("includeArchived");
    reveal_strlit("locations");
    reveal_strlit("minHours");
    reveal_strlit("minLaunches");
    reveal_strlit("platforms");
    reveal_strlit("rooms");
    reveal_strlit("usages");
    lemma_options_empty();
    let ks0 = Seq::<Seq<char>>::empty();
    let ks1 = ks0.push("days"@);
    let ks2 = ks1.push("applicationNames"@);
    let ks3 = ks2.push("minHours"@);
    let ks4 = ks3.push("minLaunches"@);
    let ks5 = ks4.push("usages"@);
    let ks6 = ks5.push("catalogs"@);
    let ks7 = ks6.push("locations"@);
    let ks8 = ks7.push("areas"@);
    let ks9 = ks8.push("fleets"@);
    let ks10 = ks9.push("rooms"@);
    let ks11 = ks10.push("platforms"@);
    let ks12 = ks11.push("includeArchived"@);
    lemma_distinct_push(ks0, "days"@);
    lemma_ne("days"@, "applicationNames"@, 0);
    lemma_not_has_push(ks0, "days"@, "applicationNames"@);
    lemma_distinct_push(ks1, "applicationNames"@);
    lemma_ne("days"@, "minHours"@, 0);
    lemma_not_has_push(ks0, "days"@, "minHours"@);
    lemma_ne("applicationNames"@, "minHours"@, 0);
    lemma_not_has_push(ks1, "applicationNames"@, "minHours"@);
    lemma_distinct_push(ks2, "minHours"@);
    lemma_ne("days"@, "minLaunches"@, 0);
    lemma_not_has_push(ks0, "days"@, "minLaunches"@);
    lemma_ne("applicationNames"@, "minLaunches"@, 0);
    lemma_not_has_push(ks1, "applicationNames"@, "minLaunches"@);
    lemma_ne("minHours"@, "minLaunches"@, 0);
    lemma_not_has_push(ks2, "minHours"@, "minLaunches"@);
    lemma_distinct_push(ks3, "minLaunches"@);
    lemma_ne("days"@, "usages"@, 0);
    lemma_not_has_push(ks0, "days"@, "usages"@);
    lemma_ne("applicationNames"@, "usages"@, 0);
    lemma_not_has_push(ks1, "applicationNames"@, "usages"@);
    lemma_ne("minHours"@, "usages"@, 0);
    lemma_not_has_push(ks2, "minHours"@, "usages"@);
    lemma_ne("minLaunches"@, "usages"@, 0);
    lemma_not_has_push(ks3, "minLaunches"@, "usages"@);
    lemma_distinct_push(ks4, "usages"@);
    lemma_ne("days"@, "catalogs"@, 0);
    lemma_not_has_push(ks0, "days"@, "catalogs"@);
    lemma_ne("applicationNames"@, "catalogs"@, 0);
    lemma_not_has_push(ks1, "applicationNames"@, "catalogs"@);
    lemma_ne("minHours"@, "catalogs"@, 0);
    lemma_not_has_push(ks2, "minHours"@, "catalogs"@);
    lemma_ne("minLaunches"@, "catalogs"@, 0);
    lemma_not_has_push(ks3, "minLaunches"@, "catalogs"@);
    lemma_ne("usages"@, "catalogs"@, 0);
    lemma_not_has_push(ks4, "usages"@, "catalogs"@);
    lemma_distinct_push(ks5, "catalogs"@);
    lemma_ne("days"@, "locations"@, 0);
    lemma_not_has_push(ks0, "days"@, "locations"@);
    lemma_ne("applicationNames"@, "locations"@, 0);
    lemma_not_has_push(ks1, "applicationNames"@, "locations"@);
    lemma_ne("minHours"@, "locations"@, 0);
    lemma_not_has_push(ks2, "minHours"@, "locations"@);
    lemma_ne("minLaunches"@, "locations"@, 0);
    lemma_not_has_push(ks3, "minLaunches"@, "locations"@);
    lemma_ne("usages"@, "locations"@, 0);
    lemma_not_has_push(ks4, "usages"@, "locations"@);
    lemma_ne("catalogs"@, "locations"@, 0);
    lemma_not_has_push(ks5, "catalogs"@, "locations"@);
    lemma_distinct_push(ks6, "locations"@);
    lemma_ne("days"@, "areas"@, 0);
    lemma_not_has_push(ks0, "days"@, "areas"@);
    lemma_ne("applicationNames"@, "areas"@, 0);
    lemma_not_has_push(ks1, "applicationNames"@, "areas"@);
    lemma_ne("minHours"@, "areas"@, 0);
    lemma_not_has_push(ks2, "minHours"@, "areas"@);
    lemma_ne("minLaunches"@, "areas"@, 0);
    lemma_not_has_push(ks3, "minLaunches"@, "areas"@);
    lemma_ne("usages"@, "areas"@, 0);
    lemma_not_has_push(ks4, "usages"@, "areas"@);
    lemma_ne("catalogs"@, "areas"@, 0);
    lemma_not_has_push(ks5, "catalogs"@, "areas"@);
    lemma_ne("locations"@, "areas"@, 0);
    lemma_not_has_push(ks6, "locations"@, "areas"@);
    lemma_distinct_push(ks7, "areas"@);
    lemma_ne("days"@, "fleets"@, 0);
    lemma_not_has_push(ks0, "days"@, "fleets"@);
    lemma_ne("applicationNames"@, "fleets"@, 0);
    lemma_not_has_push(ks1, "applicationNames"@, "fleets"@);
    lemma_ne("minHours"@, "fleets"@, 0);
    lemma_not_has_push(ks2, "minHours"@, "fleets"@);
    lemma_ne("minLaunches"@, "fleets"@, 0);
    lemma_not_has_push(ks3, "minLaunches"@, "fleets"@);
    lemma_ne("usages"@, "fleets"@, 0);
    lemma_not_has_push(ks4, "usages"@, "fleets"@);
    lemma_ne("catalogs"@, "fleets"@, 0);
    lemma_not_has_push(ks5, "catalogs"@, "fleets"@);
    lemma_ne("locations"@, "fleets"@, 0);
    lemma_not_has_push(ks6, "locations"@, "fleets"@);
    lemma_ne("areas"@, "fleets"@, 0);
    lemma_not_has_push(ks7, "areas"@, "fleets"@);
    lemma_distinct_push(ks8, "fleets"@);
    lemma_ne("days"@, "rooms"@, 0);
    lemma_not_has_push(ks0, "days"@, "rooms"@);
    lemma_ne("applicationNames"@, "rooms"@, 0);
    lemma_not_has_push(ks1, "applicationNames"@, "rooms"@);
    lemma_ne("minHours"@, "rooms"@, 0);
    lemma_not_has_push(ks2, "minHours"@, "rooms"@);
    lemma_ne("minLaunches"@, "rooms"@, 0);
    lemma_not_has_push(ks3, "minLaunches"@, "rooms"@);
    lemma_ne("usages"@, "rooms"@, 0);
    lemma_not_has_push(ks4, "usages"@, "rooms"@);
    lemma_ne("catalogs"@, "rooms"@, 0);
    lemma_not_has_push(ks5, "catalogs"@, "rooms"@);
    lemma_ne("locations"@, "rooms"@, 0);
    lemma_not_has_push(ks6, "locations"@, "rooms"@);
    lemma_ne("areas"@, "rooms"@, 0);
    lemma_not_has_push(ks7, "areas"@, "rooms"@);
    lemma_ne("fleets"@, "rooms"@, 0);
    lemma_not_has_push(ks8, "fleets"@, "rooms"@);
    lemma_distinct_push(ks9, "rooms"@);
    lemma_ne("days"@, "platforms"@, 0);
    lemma_not_has_push(ks0, "days"@, "platforms"@);
    lemma_ne("applicationNames"@, "platforms"@, 0);
    lemma_not_has_push(ks1, "applicationNames"@, "platforms"@);
    lemma_ne("minHours"@, "platforms"@, 0);
    lemma_not_has_push(ks2, "minHours"@, "platforms"@);
    lemma_ne("minLaunches"@, "platforms"@, 0);
    lemma_not_has_push(ks3, "minLaunches"@, "platforms"@);
    lemma_ne("usages"@, "platforms"@, 0);
    lemma_not_has_push(ks4, "usages"@, "platforms"@);
    lemma_ne("catalogs"@, "platforms"@, 0);
    lemma_not_has_push(ks5, "catalogs"@, "platforms"@);
    lemma_ne("locations"@, "platforms"@, 0);
    lemma_not_has_push(ks6, "locations"@, "platforms"@);
    lemma_ne("areas"@, "platforms"@, 0);
    lemma_not_has_push(ks7, "areas"@, "platforms"@);
    lemma_ne("fleets"@, "platforms"@, 0);
    lemma_not_has_push(ks8, "fleets"@, "platforms"@);
    lemma_ne("rooms"@, "platforms"@, 0);
    lemma_not_has_push(ks9, "rooms"@, "platforms"@);
    lemma_distinct_push(ks10, "platforms"@);
    lemma_ne("days"@, "includeArchived"@, 0);
    lemma_not_has_push(ks0, "days"@, "includeArchived"@);
    lemma_ne("applicationNames"@, "includeArchived"@, 0);
    lemma_not_has_push(ks1, "applicationNames"@, "includeArchived"@);
    lemma_ne("minHours"@, "includeArchived"@, 0);
    lemma_not_has_push(ks2, "minHours"@, "includeArchived"@);
    lemma_ne("minLaunches"@, "includeArchived"@, 0);
    lemma_not_has_push(ks3, "minLaunches"@, "includeArchived"@);
    lemma_ne("usages"@, "includeArchived"@, 0);
    lemma_not_has_push(ks4, "usages"@, "includeArchived"@);
    lemma_ne("catalogs"@, "includeArchived"@, 0);
    lemma_not_has_push(ks5, "catalogs"@, "includeArchived"@);
    lemma_ne("locations"@, "includeArchived"@, 0);
    lemma_not_has_push(ks6, "locations"@, "includeArchived"@);
    lemma_ne("areas"@, "includeArchived"@, 0);
    lemma_not_has_push(ks7, "areas"@, "includeArchived"@);
    lemma_ne("fleets"@, "includeArchived"@, 0);
    lemma_not_has_push(ks8, "fleets"@, "includeArchived"@);
    lemma_ne("rooms"@, "includeArchived"@, 0);
    lemma_not_has_push(ks9, "rooms"@, "includeArchived"@);
    lemma_ne("platforms"@, "includeArchived"@, 0);
    lemma_not_has_push(ks10, "platforms"@, "includeArchived"@);
    lemma_distinct_push(ks11, "includeArchived"@);
    assert(ks12 =~= seq!["days"@, "applicationNames"@, "minHours"@, "minLaunches"@, "usages"@, "catalogs"@, "locations"@, "areas"@, "fleets"@, "rooms"@, "platforms"@, "includeArchived"@]);
}

#[verifier::rlimit(100)]
#[verifier::spinoff_prover]
proof fn lemma_apps_usage_request_pairs(days: Option<u32>, names: Option<String>, min_hours: Option<String>, min_launches: Option<u32>, filters: InventoryFilters, include_archived: bool)
    ensures
        sends_opt(qn("days"@, days) + opt_pair("applicationNames"@, names) + opt_pair("minHours"@, min_hours) + qn("minLaunches"@, min_launches) + opt_pair("usages"@, filters.usages) + opt_pair("catalogs"@, filters.catalogs) + opt_pair("locations"@, filters.locations) + opt_pair("areas"@, filters.areas) + opt_pair("fleets"@, filters.fleets) + opt_pair("rooms"@, filters.rooms) + opt_pair("platforms"@, filters.platforms) + qf("includeArchived"@, include_archived), "days"@, number_text(days)),
        sends_opt(qn("days"@, days) + opt_pair("applicationNames"@, names) + opt_pair("minHours"@, min_hours) + qn("minLaunches"@, min_launches) + opt_pair("usages"@, filters.usages) + opt_pair("catalogs"@, filters.catalogs) + opt_pair("locations"@, filters.locations) + opt_pair("areas"@, filters.areas) + opt_pair("fleets"@, filters.fleets) + opt_pair("rooms"@, filters.rooms) + opt_pair("platforms"@, filters.platforms) + qf("includeArchived"@, include_archived), "applicationNames"@, string_text(names)),
        sends_opt(qn("days"@, days) + opt_pair("applicationNames"@, names) + opt_pair("minHours"@, min_hours) + qn("minLaunches"@, min_launches) + opt_pair("usages"@, filters.usages) + opt_pair("catalogs"@, filters.catalogs) + opt_pair("locations"@, filters.locations) + opt_pair("areas"@, filters.areas) + opt_pair("fleets"@, filters.fleets) + opt_pair("rooms"@, filters.rooms) + opt_pair("platforms"@, filters.platforms) + qf("includeArchived"@, include_archived), "minHours"@, string_text(min_hours)),
        sends_opt(qn("days"@, days) + opt_pair("applicationNames"@, names) + opt_pair("minHours"@, min_hours) + qn("minLaunches"@, min_launches) + opt_pair("usages"@, filters.usages) + opt_pair("catalogs"@, filters.catalogs) + opt_pair("locations"@, filters.locations) + opt_pair("areas"@, filters.areas) + opt_pair("fleets"@, filters.fleets) + opt_pair("rooms"@, filters.rooms) + opt_pair("platforms"@, filters.platforms) + qf("includeArchived"@, include_archived), "minLaunches"@, number_text(min_launches)),
        sends_opt(qn("days"@, days) + opt_pair("applicationNames"@, names) + opt_pair("minHours"@, min_hours) + qn("minLaunches"@, min_launches) + opt_pair("usages"@, filters.usages) + opt_pair("catalogs"@, filters.catalogs) + opt_pair("locations"@, filters.locations) + opt_pair("areas"@, filters.areas) + opt_pair("fleets"@, filters.fleets) + opt_pair("rooms"@, filters.rooms) + opt_pair("platforms"@, filters.platforms) + qf("includeArchived"@, include_archived), "usages"@, string_text(filters.usages)),
        sends_opt(qn("days"@, days) + opt_pair("applicationNames"@, names) + opt_pair("minHours"@, min_hours) + qn("minLaunches"@, min_launches) + opt_pair("usages"@, filters.usages) + opt_pair("catalogs"@, filters.catalogs) + opt_pair("locations"@, filters.locations) + opt_pair("areas"@, filters.areas) + opt_pair("fleets"@, filters.fleets) + opt_pair("rooms"@, filters.rooms) + opt_pair("platforms"@, filters.platforms) + qf("includeArchived"@, include_archived), "catalogs"@, string_text(filters.catalogs)),
        sends_opt(qn("days"@, days) + opt_pair("applicationNames"@, names) + opt_pair("minHours"@, min_hours) + qn("minLaunches"@, min_launches) + opt_pair("usages"@, filters.usages) + opt_pair("catalogs"@, filters.catalogs) + opt_pair("locations"@, filters.locations) + opt_pair("areas"@, filters.areas) + opt_pair("fleets"@, filters.fleets) + opt_pair("rooms"@, filters.rooms) + opt_pair("platforms"@, filters.platforms) + qf("includeArchived"@, include_archived), "locations"@, string_text(filters.locations)),
        sends_opt(qn("days"@, days) + opt_pair("applicationNames"@, names) + opt_pair("minHours"@, min_hours) + qn("minLaunches"@, min_launches) + opt_pair("usages"@, filters.usages) + opt_pair("catalogs"@, filters.catalogs) + opt_pair("locations"@, filters.locations) + opt_pair("areas"@, filters.areas) + opt_pair("fleets"@, filters.fleets) + opt_pair("rooms"@, filters.rooms) + opt_pair("platforms"@, filters.platforms) + qf("includeArchived"@, include_archived), "areas"@, string_text(filters.areas)),
        sends_opt(qn("days"@, days) + opt_pair("applicationNames"@, names) + opt_pair("minHours"@, min_hours) + qn("minLaunches"@, min_launches) + opt_pair("usages"@, filters.usages) + opt_pair("catalogs"@, filters.catalogs) + opt_pair("locations"@, filters.locations) + opt_pair("areas"@, filters.areas) + opt_pair("fleets"@, filters.fleets) + opt_pair("rooms"@, filters.rooms) + opt_pair("platforms"@, filters.platforms) + qf("includeArchived"@, include_archived), "fleets"@, string_text(filters.fleets)),
        sends_opt(qn("days"@, days) + opt_pair("applicationNames"@, names) + opt_pair("minHours"@, min_hours) + qn("minLaunches"@, min_launches) + opt_pair("usages"@, filters.usages) + opt_pair("catalogs"@, filters.catalogs) + opt_pair("locations"@, filters.locations) + opt_pair("areas"@, filters.areas) + opt_pair("fleets"@, filters.fleets) + opt_pair("rooms"@, filters.rooms) + opt_pair("platforms"@, filters.platforms) + qf("includeArchived"@, include_archived), "rooms"@, string_text(filters.rooms)),
        sends_opt(qn("days"@, days) + opt_pair("applicationNames"@, names) + opt_pair("minHours"@, min_hours) + qn("minLaunches"@, min_launches) + opt_pair("usages"@, filters.usages) + opt_pair("catalogs"@, filters.catalogs) + opt_pair("locations"@, filters.locations) + opt_pair("areas"@, filters.areas) + opt_pair("fleets"@, filters.fleets) + opt_pair("rooms"@, filters.rooms) + opt_pair("platforms"@, filters.platforms) + qf("includeArchived"@, include_archived), "platforms"@, string_text(filters.platforms)),
        sends_opt(qn("days"@, days) + opt_pair("applicationNames"@, names) + opt_pair("minHours"@, min_hours) + qn("minLaunches"@, min_launches) + opt_pair("usages"@, filters.usages) + opt_pair("catalogs"@, filters.catalogs) + opt_pair("locations"@, filters.locations) + opt_pair("areas"@, filters.areas) + opt_pair("fleets"@, filters.fleets) + opt_pair("rooms"@, filters.rooms) + opt_pair("platforms"@, filters.platforms) + qf("includeArchived"@, include_archived), "includeArchived"@, flag_value(include_archived)),
        only_keys(qn("days"@, days) + opt_pair("applicationNames"@, names) + opt_pair("minHours"@, min_hours) + qn("minLaunches"@, min_launches) + opt_pair("usages"@, filters.usages) + opt_pair("catalogs"@, filters.catalogs) + opt_pair("locations"@, filters.locations) + opt_pair("areas"@, filters.areas) + opt_pair("fleets"@, filters.fleets) + opt_pair("rooms"@, filters.rooms) + opt_pair("platforms"@, filters.platforms) + qf("includeArchived"@, include_archived), seq!["days"@, "applicationNames"@, "minHours"@, "minLaunches"@, "usages"@, "catalogs"@, "locations"@, "areas"@, "fleets"@, "rooms"@, "platforms"@, "includeArchived"@]),
{
    lemma_sources("days"@, days, None, false, None, seq![]);
    lemma_sources("applicationNames"@, None, None, false, names, seq![]);
    lemma_sources("minHours"@, None, None, false, min_hours, seq![]);
    lemma_sources("minLaunches"@, min_launches, None, false, None, seq![]);
    lemma_sources("usages"@, None, None, false, filters.usages, seq![]);
    lemma_sources("catalogs"@, None, None, false, filters.catalogs, seq![]);
    lemma_sources("locations"@, None, None, false, filters.locations, seq![]);
    lemma_sources("areas"@, None, None, false, filters.areas, seq![]);
    lemma_sources("fleets"@, None, None, false, filters.fleets, seq![]);
    lemma_sources("rooms"@, None, None, false, filters.rooms, seq![]);
    lemma_sources("platforms"@, None, None, false, filters.platforms, seq![]);
    lemma_sources("includeArchived"@, None, None, include_archived, None, seq![]);
    lemma_options_empty();
    let ps0 = Seq::<Seq<(Seq<char>, Seq<char>)>>::empty();
    let ks0 = Seq::<Seq<char>>::empty();
    let vs0 = Seq::<Option<Seq<char>>>::empty();
    let ps1 = ps0.push(qn("days"@, days));
    let ks1 = ks0.push("days"@);
    let vs1 = vs0.push(number_text(days));
    lemma_options_push(ps0, ks0, vs0, qn("days"@, days), "days"@, number_text(days));
    let ps2 = ps1.push(opt_pair("applicationNames"@, names));
    let ks2 = ks1.push("applicationNames"@);
    let vs2 = vs1.push(string_text(names));
    lemma_options_push(ps1, ks1, vs1, opt_pair("applicationNames"@, names), "applicationNames"@, string_text(names));
    let ps3 = ps2.push(opt_pair("minHours"@, min_hours));
    let ks3 = ks2.push("minHours"@);
    let vs3 = vs2.push(string_text(min_hours));
    lemma_options_push(ps2, ks2, vs2, opt_pair("minHours"@, min_hours), "minHours"@, string_text(min_hours));
    let ps4 = ps3.push(qn("minLaunches"@, min_launches));
    let ks4 = ks3.push("minLaunches"@);
    let vs4 = vs3.push(number_text(min_launches));
    lemma_options_push(ps3, ks3, vs3, qn("minLaunches"@, min_launches), "minLaunches"@, number_text(min_launches));
    let ps5 = ps4.push(opt_pair("usages"@, filters.usages));
    let ks5 = ks4.push("usages"@);
    let vs5 = vs4.push(string_text(filters.usages));
    lemma_options_push(ps4, ks4, vs4, opt_pair("usages"@, filters.usages), "usages"@, string_text(filters.usages));
    let ps6 = ps5.push(opt_pair("catalogs"@, filters.catalogs));
    let ks6 = ks5.push("catalogs"@);
    let vs6 = vs5.push(string_text(filters.catalogs));
    lemma_options_push(ps5, ks5, vs5, opt_pair("catalogs"@, filters.catalogs), "catalogs"@, string_text(filters.catalogs));
    let ps7 = ps6.push(opt_pair("locations"@, filters.locations));
    let ks7 = ks6.push("locations"@);
    let vs7 = vs6.push(string_text(filters.locations));
    lemma_options_push(ps6, ks6, vs6, opt_pair("locations"@, filters.locations), "locations"@, string_text(filters.locations));
    let ps8 = ps7.push(opt_pair("areas"@, filters.areas));
    let ks8 = ks7.push("areas"@);
    let vs8 = vs7.push(string_text(filters.areas));
    lemma_options_push(ps7, ks7, vs7, opt_pair("areas"@, filters.areas), "areas"@, string_text(filters.areas));
    let ps9 = ps8.push(opt_pair("fleets"@, filters.fleets));
    let ks9 = ks8.push("fleets"@);
    let vs9 = vs8.push(string_text(filters.fleets));
    lemma_options_push(ps8, ks8, vs8, opt_pair("fleets"@, filters.fleets), "fleets"@, string_text(filters.fleets));
    let ps10 = ps9.push(opt_pair("rooms"@, filters.rooms));
    let ks10 = ks9.push("rooms"@);
    let vs10 = vs9.push(string_text(filters.rooms));
    lemma_options_push(ps9, ks9, vs9, opt_pair("rooms"@, filters.rooms), "rooms"@, string_text(filters.rooms));
    let ps11 = ps10.push(opt_pair("platforms"@, filters.platforms));
    let ks11 = ks10.push("platforms"@);
    let vs11 = vs10.push(string_text(filters.platforms));
    lemma_options_push(ps10, ks10, vs10, opt_pair("platforms"@, filters.platforms), "platforms"@, string_text(filters.platforms));
    let ps12 = ps11.push(qf("includeArchived"@, include_archived));
    let ks12 = ks11.push("includeArchived"@);
    let vs12 = vs11.push(flag_value(include_archived));
    lemma_options_push(ps11, ks11, vs11, qf("includeArchived"@, include_archived), "includeArchived"@, flag_value(include_archived));
    lemma_apps_usage_request_keys();
    assert(ks12 =~= seq!["days"@, "applicationNames"@, "minHours"@, "minLaunches"@, "usages"@, "catalogs"@, "locations"@, "areas"@, "fleets"@, "rooms"@, "platforms"@, "includeArchived"@]);
    lemma_joined_options(ps12, ks12, vs12);
    lemma_sends_all_pop(joined(ps12), ks11, vs11, "includeArchived"@, flag_value(include_archived));
    lemma_sends_all_pop(joined(ps12), ks10, vs10, "platforms"@, string_text(filters.platforms));
    lemma_sends_all_pop(joined(ps12), ks9, vs9, "rooms"@, string_text(filters.rooms));
    lemma_sends_all_pop(joined(ps12), ks8, vs8, "fleets"@, string_text(filters.fleets));
    lemma_sends_all_pop(joined(ps12), ks7, vs7, "areas"@, string_text(filters.areas));
    lemma_sends_all_pop(joined(ps12), ks6, vs6, "locations"@, string_text(filters.locations));
    lemma_sends_all_pop(joined(ps12), ks5, vs5, "catalogs"@, string_text(filters.catalogs));
    lemma_sends_all_pop(joined(ps12), ks4, vs4, "usages"@, string_text(filters.usages));
    lemma_sends_all_pop(joined(ps12), ks3, vs3, "minLaunches"@, number_text(min_launches));
    lemma_sends_all_pop(joined(ps12), ks2, vs2, "minHours"@, string_text(min_hours));
    lemma_sends_all_pop(joined(ps12), ks1, vs1, "applicationNames"@, string_text(names));
    lemma_sends_all_pop(joined(ps12), ks0, vs0, "days"@, number_text(days));
    assert(Seq::<(Seq<char>, Seq<char>)>::empty() + qn("days"@, days) =~= qn("days"@, days));
    assert(joined(ps12) =~= qn("days"@, days) + opt_pair("applicationNames"@, names) + opt_pair("minHours"@, min_hours) + qn("minLaunches"@, min_launches) + opt_pair("usages"@, filters.usages) + opt_pair("catalogs"@, filters.catalogs) + opt_pair("locations"@, filters.locations) + opt_pair("areas"@, filters.areas) + opt_pair("fleets"@, filters.fleets) + opt_pair("rooms"@, filters.rooms) + opt_pair("platforms"@, filters.platforms) + qf("includeArchived"@, include_archived));
}

proof fn lemma_apps_usage_request_order(days: Option<u32>, names: Option<String>, min_hours: Option<String>, min_launches: Option<u32>, filters: InventoryFilters, include_archived: bool)
    ensures
        qn("days"@, days) + opt_pair("applicationNames"@, names) + opt_pair("minHours"@, min_hours) + qn("minLaunches"@, min_launches) + filter_pairs(filters) + qf("includeArchived"@, include_archived) == qn("days"@, days) + opt_pair("applicationNames"@, names) + opt_pair("minHours"@, min_hours) + qn("minLaunches"@, min_launches) + opt_pair("usages"@, filters.usages) + opt_pair("catalogs"@, filters.catalogs) + opt_pair("locations"@, filters.locations) + opt_pair("areas"@, filters.areas) + opt_pair("fleets"@, filters.fleets) + opt_pair("rooms"@, filters.rooms) + opt_pair("platforms"@, filters.platforms) + qf("includeArchived"@, include_archived),
{
    assert(qn("days"@, days) + opt_pair("applicationNames"@, names) + opt_pair("minHours"@, min_hours) + qn("minLaunches"@, min_launches) + filter_pairs(filters) + qf("includeArchived"@, include_archived) == (((((qn("days"@, days) + opt_pair("applicationNames"@, names)) + opt_pair("minHours"@, min_hours)) + qn("minLaunches"@, min_launches)) + ((((((opt_pair("usages"@, filters.usages) + opt_pair("catalogs"@, filters.catalogs)) + opt_pair("locations"@, filters.locations)) + opt_pair("areas"@, filters.areas)) + opt_pair("fleets"@, filters.fleets)) + opt_pair("rooms"@, filters.rooms)) + opt_pair("platforms"@, filters.platforms))) + qf("includeArchived"@, include_archived)));
    lemma_assoc(qn("days"@, days) + opt_pair("applicationNames"@, names) + opt_pair("minHours"@, min_hours) + qn("minLaunches"@, min_launches), (((((opt_pair("usages"@, filters.usages) + opt_pair("catalogs"@, filters.catalogs)) + opt_pair("locations"@, filters.locations)) + opt_pair("areas"@, filters.areas)) + opt_pair("fleets"@, filters.fleets)) + opt_pair("rooms"@, filters.rooms)), opt_pair("platforms"@, filters.platforms));
    lemma_assoc(qn("days"@, days) + opt_pair("applicationNames"@, names) + opt_pair("minHours"@, min_hours) + qn("minLaunches"@, min_launches), ((((opt_pair("usages"@, filters.usages) + opt_pair("catalogs"@, filters.catalogs)) + opt_pair("locations"@, filters.locations)) + opt_pair("areas"@, filters.areas)) + opt_pair("fleets"@, filters.fleets)), opt_pair("rooms"@, filters.rooms));
    lemma_assoc(qn("days"@, days) + opt_pair("applicationNames"@, names) + opt_pair("minHours"@, min_hours) + qn("minLaunches"@, min_launches), (((opt_pair("usages"@, filters.usages) + opt_pair("catalogs"@, filters.catalogs)) + opt_pair("locations"@, filters.locations)) + opt_pair("areas"@, filters.areas)), opt_pair("fleets"@, filters.fleets));
    lemma_assoc(qn("days"@, days) + opt_pair("applicationNames"@, names) + opt_pair("minHours"@, min_hours) + qn("minLaunches"@, min_launches), ((opt_pair("usages"@, filters.usages) + opt_pair("catalogs"@, filters.catalogs)) + opt_pair("locations"@, filters.locations)), opt_pair("areas"@, filters.areas));
    lemma_assoc(qn("days"@, days) + opt_pair("applicationNames"@, names) + opt_pair("minHours"@, min_hours) + qn("minLaunches"@, min_launches), (opt_pair("usages"@, filters.usages) + opt_pair("catalogs"@, filters.catalogs)), opt_pair("locations"@, filters.locations));
    lemma_assoc(qn("days"@, days) + opt_pair("applicationNames"@, names) + opt_pair("minHours"@, min_hours) + qn("minLaunches"@, min_launches), opt_pair("usages"@, filters.usages), opt_pair("catalogs"@, filters.catalogs));
}

/// `apps usage`: the window, names, minimum hours and launches and each
/// inventory filter when given, `includeArchived=true` exactly when asked
/// for, and nothing else.
pub proof fn law_apps_usage_request(days: Option<u32>, names: Option<String>, min_hours: Option<String>, min_launches: Option<u32>, filters: InventoryFilters, include_archived: bool)
    ensures
        ({
            let base = "/api/v1/applications/usage"@;
            let t = apps_target(AppsCommand::Usage { days, names, min_hours, min_launches, filters, include_archived });
            let ps = query_pairs(t, base);
            &&& has_prefix(t, base)
            &&& sends_opt(ps, "days"@, number_text(days))
            &&& sends_opt(ps, "applicationNames"@, string_text(names))
            &&& sends_opt(ps, "minHours"@, string_text(min_hours))
            &&& sends_opt(ps, "minLaunches"@, number_text(min_launches))
            &&& sends_opt(ps, "usages"@, string_text(filters.usages))
            &&& sends_opt(ps, "catalogs"@, string_text(filters.catalogs))
            &&& sends_opt(ps, "locations"@, string_text(filters.locations))
            &&& sends_opt(ps, "areas"@, string_text(filters.areas))
            &&& sends_opt(ps, "fleets"@, string_text(filters.fleets))
            &&& sends_opt(ps, "rooms"@, string_text(filters.rooms))
            &&& sends_opt(ps, "platforms"@, string_text(filters.platforms))
            &&& sends_flag(ps, "includeArchived"@, include_archived)
            &&& only_keys(ps, seq!["days"@, "applicationNames"@, "minHours"@, "minLaunches"@, "usages"@, "catalogs"@, "locations"@, "areas"@, "fleets"@, "rooms"@, "platforms"@, "includeArchived"@])
        }),
{
    lemma_apps_usage_request_pairs(days, names, min_hours, min_launches, filters, include_archived);
    lemma_apps_usage_request_order(days, names, min_hours, min_launches, filters, include_archived);
    let ps = qn("days"@, days) + opt_pair("applicationNames"@, names) + opt_pair("minHours"@, min_hours) + qn("minLaunches"@, min_launches) + opt_pair("usages"@, filters.usages) + opt_pair("catalogs"@, filters.catalogs) + opt_pair("locations"@, filters.locations) + opt_pair("areas"@, filters.areas) + opt_pair("fleets"@, filters.fleets) + opt_pair("rooms"@, filters.rooms) + opt_pair("platforms"@, filters.platforms) + qf("includeArchived"@, include_archived);
    assert(apps_target(AppsCommand::Usage { days, names, min_hours, min_launches, filters, include_archived }) == "/api/v1/applications/usage"@ + query_text(ps));
    lemma_query_pairs("/api/v1/applications/usage"@, ps);
}

proof fn lemma_apps_list_request_keys()
    ensures
        all_distinct(seq!["deviceNames"@, "applicationNames"@, "publishers"@, "categories"@, "versions"@, "search"@, "installDateFrom"@, "installDateTo"@, "sizeMin"@, "sizeMax"@, "usages"@, "catalogs"@, "locations"@, "areas"@, "fleets"@, "rooms"@, "platforms"@, "loadAll"@, "includeArchived"@, "limit"@, "offset"@, "deviceLimit"@]),
{
    reveal_strlit("applicationNames");
    reveal_strlit("areas");
    reveal_strlit("catalogs");
    reveal_strlit("categories");
    reveal_strlit("deviceLimit");
    reveal_strlit("deviceNames");
    reveal_strlit("fleets");
    reveal_strlit("includeArchived");
    reveal_strlit("installDateFrom");
    reveal_strlit("installDateTo");
    reveal_strlit("limit");
    reveal_strlit("loadAll");
    reveal_strlit("locations");
    reveal_strlit("offset");
    reveal_strlit("platforms");
    reveal_strlit("publishers");
    reveal_strlit("rooms");
    reveal_strlit("search");
    reveal_strlit("sizeMax");
    reveal_strlit("sizeMin");
    reveal_strlit("usages");
    reveal_strlit("versions");
    lemma_options_empty();
    let ks0 = Seq::<Seq<char>>::empty();
    let ks1 = ks0.push("deviceNames"@);
    let ks2 = ks1.push("applicationNames"@);
    let ks3 = ks2.push("publishers"@);
    let ks4 = ks3.push("categories"@);
    let ks5 = ks4.push("versions"@);
    let ks6 = ks5.push("search"@);
    let ks7 = ks6.push("installDateFrom"@);
    let ks8 = ks7.push("installDateTo"@);
    let ks9 = ks8.push("sizeMin"@);
    let ks10 = ks9.push("sizeMax"@);
    let ks11 = ks10.push("usages"@);
    let ks12 = ks11.push("catalogs"@);
    let ks13 = ks12.push("locations"@);
    let ks14 = ks13.push("areas"@);
    let ks15 = ks14.push("fleets"@);
    let ks16 = ks15.push("rooms"@);
    let ks17 = ks16.push("platforms"@);
    let ks18 = ks17.push("loadAll"@);
    let ks19 = ks18.push("includeArchived"@);
    let ks20 = ks19.push("limit"@);
    let ks21 = ks20.push("offset"@);
    let ks22 = ks21.push("deviceLimit"@);
    lemma_distinct_push(ks0, "deviceNames"@);
    lemma_ne("deviceNames"@, "applicationNames"@, 0);
    lemma_not_has_push(ks0, "deviceNames"@, "applicationNames"@);
    lemma_distinct_push(ks1, "applicationNames"@);
    lemma_ne("deviceNames"@, "publishers"@, 0);
    lemma_not_has_push(ks0, "deviceNames"@, "publishers"@);
    lemma_ne("applicationNames"@, "publishers"@, 0);
    lemma_not_has_push(ks1, "applicationNames"@, "publishers"@);
    lemma_distinct_push(ks2, "publishers"@);
    lemma_ne("deviceNames"@, "categories"@, 0);
    lemma_not_has_push(ks0, "deviceNames"@, "categories"@);
    lemma_ne("applicationNames"@, "categories"@, 0);
    lemma_not_has_push(ks1, "applicationNames"@, "categories"@);
    lemma_ne("publishers"@, "categories"@, 0);
    lemma_not_has_push(ks2, "publishers"@, "categories"@);
    lemma_distinct_push(ks3, "categories"@);
    lemma_ne("deviceNames"@, "versions"@, 0);
    lemma_not_has_push(ks0, "deviceNames"@, "versions"@);
    lemma_ne("applicationNames"@, "versions"@, 0);
    lemma_not_has_push(ks1, "applicationNames"@, "versions"@);
    lemma_ne("publishers"@, "versions"@, 0);
    lemma_not_has_push(ks2, "publishers"@, "versions"@);
    lemma_ne("categories"@, "versions"@, 0);
    lemma_not_has_push(ks3, "categories"@, "versions"@);
    lemma_distinct_push(ks4, "versions"@);
    lemma_ne("deviceNames"@, "search"@, 0);
    lemma_not_has_push(ks0, "deviceNames"@, "search"@);
    lemma_ne("applicationNames"@, "search"@, 0);
    lemma_not_has_push(ks1, "applicationNames"@, "search"@);
    lemma_ne("publishers"@, "search"@, 0);
    lemma_not_has_push(ks2, "publishers"@, "search"@);
    lemma_ne("categories"@, "search"@, 0);
    lemma_not_has_push(ks3, "categories"@, "search"@);
    lemma_ne("versions"@, "search"@, 0);
    lemma_not_has_push(ks4, "versions"@, "search"@);
    lemma_distinct_push(ks5, "search"@);
    lemma_ne("deviceNames"@, "installDateFrom"@, 0);
    lemma_not_has_push(ks0, "deviceNames"@, "installDateFrom"@);
    lemma_ne("applicationNames"@, "installDateFrom"@, 0);
    lemma_not_has_push(ks1, "applicationNames"@, "installDateFrom"@);
    lemma_ne("publishers"@, "installDateFrom"@, 0);
    lemma_not_has_push(ks2, "publishers"@, "installDateFrom"@);
    lemma_ne("categories"@, "installDateFrom"@, 0);
    lemma_not_has_push(ks3, "categories"@, "installDateFrom"@);
    lemma_ne("versions"@, "installDateFrom"@, 0);
    lemma_not_has_push(ks4, "versions"@, "installDateFrom"@);
    lemma_ne("search"@, "installDateFrom"@, 0);
    lemma_not_has_push(ks5, "search"@, "installDateFrom"@);
    lemma_distinct_push(ks6, "installDateFrom"@);
    lemma_ne("deviceNames"@, "installDateTo"@, 0);
    lemma_not_has_push(ks0, "deviceNames"@, "installDateTo"@);
    lemma_ne("applicationNames"@, "installDateTo"@, 0);
    lemma_not_has_push(ks1, "applicationNames"@, "installDateTo"@);
    lemma_ne("publishers"@, "installDateTo"@, 0);
    lemma_not_has_push(ks2, "publishers"@, "installDateTo"@);
    lemma_ne("categories"@, "installDateTo"@, 0);
    lemma_not_has_push(ks3, "categories"@, "installDateTo"@);
    lemma_ne("versions"@, "installDateTo"@, 0);
    lemma_not_has_push(ks4, "versions"@, "installDateTo"@);
    lemma_ne("search"@, "installDateTo"@, 0);
    lemma_not_has_push(ks5, "search"@, "installDateTo"@);
    lemma_ne("installDateFrom"@, "installDateTo"@, 0);
    lemma_not_has_push(ks6, "installDateFrom"@, "installDateTo"@);
    lemma_distinct_push(ks7, "installDateTo"@);
    lemma_ne("deviceNames"@, "sizeMin"@, 0);
    lemma_not_has_push(ks0, "deviceNames"@, "sizeMin"@);
    lemma_ne("applicationNames"@, "sizeMin"@, 0);
    lemma_not_has_push(ks1, "applicationNames"@, "sizeMin"@);
    lemma_ne("publishers"@, "sizeMin"@, 0);
    lemma_not_has_push(ks2, "publishers"@, "sizeMin"@);
    lemma_ne("categories"@, "sizeMin"@, 0);
    lemma_not_has_push(ks3, "categories"@, "sizeMin"@);
    lemma_ne("versions"@, "sizeMin"@, 0);
    lemma_not_has_push(ks4, "versions"@, "sizeMin"@);
    lemma_ne("search"@, "sizeMin"@, 0);
    lemma_not_has_push(ks5, "search"@, "sizeMin"@);
    lemma_ne("installDateFrom"@, "sizeMin"@, 0);
    lemma_not_has_push(ks6, "installDateFrom"@, "sizeMin"@);
    lemma_ne("installDateTo"@, "sizeMin"@, 0);
    lemma_not_has_push(ks7, "installDateTo"@, "sizeMin"@);
    lemma_distinct_push(ks8, "sizeMin"@);
    lemma_ne("deviceNames"@, "sizeMax"@, 0);
    lemma_not_has_push(ks0, "deviceNames"@, "sizeMax"@);
    lemma_ne("applicationNames"@, "sizeMax"@, 0);
    lemma_not_has_push(ks1, "applicationNames"@, "sizeMax"@);
    lemma_ne("publishers"@, "sizeMax"@, 0);
    lemma_not_has_push(ks2, "publishers"@, "sizeMax"@);
    lemma_ne("categories"@, "sizeMax"@, 0);
    lemma_not_has_push(ks3, "categories"@, "sizeMax"@);
    lemma_ne("versions"@, "sizeMax"@, 0);
    lemma_not_has_push(ks4, "versions"@, "sizeMax"@);
    lemma_ne("search"@, "sizeMax"@, 0);
    lemma_not_has_push(ks5, "search"@, "sizeMax"@);
    lemma_ne("installDateFrom"@, "sizeMax"@, 0);
    lemma_not_has_push(ks6, "installDateFrom"@, "sizeMax"@);
    lemma_ne("installDateTo"@, "sizeMax"@, 0);
    lemma_not_has_push(ks7, "installDateTo"@, "sizeMax"@);
    lemma_ne("sizeMin"@, "sizeMax"@, 5);
    lemma_not_has_push(ks8, "sizeMin"@, "sizeMax"@);
    lemma_distinct_push(ks9, "sizeMax"@);
    lemma_ne("deviceNames"@, "usages"@, 0);
    lemma_not_has_push(ks0, "deviceNames"@, "usages"@);
    lemma_ne("applicationNames"@, "usages"@, 0);
    lemma_not_has_push(ks1, "applicationNames"@, "usages"@);
    lemma_ne("publishers"@, "usages"@, 0);
    lemma_not_has_push(ks2, "publishers"@, "usages"@);
    lemma_ne("categories"@, "usages"@, 0);
    lemma_not_has_push(ks3, "categories"@, "usages"@);
    lemma_ne("versions"@, "usages"@, 0);
    lemma_not_has_push(ks4, "versions"@, "usages"@);
    lemma_ne("search"@, "usages"@, 0);
    lemma_not_has_push(ks5, "search"@, "usages"@);
    lemma_ne("installDateFrom"@, "usages"@, 0);
    lemma_not_has_push(ks6, "installDateFrom"@, "usages"@);
    lemma_ne("installDateTo"@, "usages"@, 0);
    lemma_not_has_push(ks7, "installDateTo"@, "usages"@);
    lemma_ne("sizeMin"@, "usages"@, 0);
    lemma_not_has_push(ks8, "sizeMin"@, "usages"@);
    lemma_ne("sizeMax"@, "usages"@, 0);
    lemma_not_has_push(ks9, "sizeMax"@, "usages"@);
    lemma_distinct_push(ks10, "usages"@);
    lemma_ne("deviceNames"@, "catalogs"@, 0);
    lemma_not_has_push(ks0, "deviceNames"@, "catalogs"@);
    lemma_ne("applicationNames"@, "catalogs"@, 0);
    lemma_not_has_push(ks1, "applicationNames"@, "catalogs"@);
    lemma_ne("publishers"@, "catalogs"@, 0);
    lemma_not_has_push(ks2, "publishers"@, "catalogs"@);
    lemma_ne("categories"@, "catalogs"@, 0);
    lemma_not_has_push(ks3, "categories"@, "catalogs"@);
    lemma_ne("versions"@, "catalogs"@, 0);
    lemma_not_has_push(ks4, "versions"@, "catalogs"@);
    lemma_ne("search"@, "catalogs"@, 0);
    lemma_not_has_push(ks5, "search"@, "catalogs"@);
    lemma_ne("installDateFrom"@, "catalogs"@, 0);
    lemma_not_has_push(ks6, "installDateFrom"@, "catalogs"@);
    lemma_ne("installDateTo"@, "catalogs"@, 0);
    lemma_not_has_push(ks7, "installDateTo"@, "catalogs"@);
    lemma_ne("sizeMin"@, "catalogs"@, 0);
    lemma_not_has_push(ks8, "sizeMin"@, "catalogs"@);
    lemma_ne("sizeMax"@, "catalogs"@, 0);
    lemma_not_has_push(ks9, "sizeMax"@, "catalogs"@);
    lemma_ne("usages"@, "catalogs"@, 0);
    lemma_not_has_push(ks10, "usages"@, "catalogs"@);
    lemma_distinct_push(ks11, "catalogs"@);
    lemma_ne("deviceNames"@, "locations"@, 0);
    lemma_not_has_push(ks0, "deviceNames"@, "locations"@);
    lemma_ne("applicationNames"@, "locations"@, 0);
    lemma_not_has_push(ks1, "applicationNames"@, "locations"@);
    lemma_ne("publishers"@, "locations"@, 0);
    lemma_not_has_push(ks2, "publishers"@, "locations"@);
    lemma_ne("categories"@, "locations"@, 0);
    lemma_not_has_push(ks3, "categories"@, "locations"@);
    lemma_ne("versions"@, "locations"@, 0);
    lemma_not_has_push(ks4, "versions"@, "locations"@);
    lemma_ne("search"@, "locations"@, 0);
    lemma_not_has_push(ks5, "search"@, "locations"@);
    lemma_ne("installDateFrom"@, "locations"@, 0);
    lemma_not_has_push(ks6, "installDateFrom"@, "locations"@);
    lemma_ne("installDateTo"@, "locations"@, 0);
    lemma_not_has_push(ks7, "installDateTo"@, "locations"@);
    lemma_ne("sizeMin"@, "locations"@, 0);
    lemma_not_has_push(ks8, "sizeMin"@, "locations"@);
    lemma_ne("sizeMax"@, "locations"@, 0);
    lemma_not_has_push(ks9, "sizeMax"@, "locations"@);
    lemma_ne("usages"@, "locations"@, 0);
    lemma_not_has_push(ks10, "usages"@, "locations"@);
    lemma_ne("catalogs"@, "locations"@, 0);
    lemma_not_has_push(ks11, "catalogs"@, "locations"@);
    lemma_distinct_push(ks12, "locations"@);
    lemma_ne("deviceNames"@, "areas"@, 0);
    lemma_not_has_push(ks0, "deviceNames"@, "areas"@);
    lemma_ne("applicationNames"@, "areas"@, 0);
    lemma_not_has_push(ks1, "applicationNames"@, "areas"@);
    lemma_ne("publishers"@, "areas"@, 0);
    lemma_not_has_push(ks2, "publishers"@, "areas"@);
    lemma_ne("categories"@, "areas"@, 0);
    lemma_not_has_push(ks3, "categories"@, "areas"@);
    lemma_ne("versions"@, "areas"@, 0);
    lemma_not_has_push(ks4, "versions"@, "areas"@);
    lemma_ne("search"@, "areas"@, 0);
    lemma_not_has_push(ks5, "search"@, "areas"@);
    lemma_ne("installDateFrom"@, "areas"@, 0);
    lemma_not_has_push(ks6, "installDateFrom"@, "areas"@);
    lemma_ne("installDateTo"@, "areas"@, 0);
    lemma_not_has_push(ks7, "installDateTo"@, "areas"@);
    lemma_ne("sizeMin"@, "areas"@, 0);
    lemma_not_has_push(ks8, "sizeMin"@, "areas"@);
    lemma_ne("sizeMax"@, "areas"@, 0);
    lemma_not_has_push(ks9, "sizeMax"@, "areas"@);
    lemma_ne("usages"@, "areas"@, 0);
    lemma_not_has_push(ks10, "usages"@, "areas"@);
    lemma_ne("catalogs"@, "areas"@, 0);
    lemma_not_has_push(ks11, "catalogs"@, "areas"@);
    lemma_ne("locations"@, "areas"@, 0);
    lemma_not_has_push(ks12, "locations"@, "areas"@);
    lemma_distinct_push(ks13, "areas"@);
    lemma_ne("deviceNames"@, "fleets"@, 0);
    lemma_not_has_push(ks0, "deviceNames"@, "fleets"@);
    lemma_ne("applicationNames"@, "fleets"@, 0);
    lemma_not_has_push(ks1, "applicationNames"@, "fleets"@);
    lemma_ne("publishers"@, "fleets"@, 0);
    lemma_not_has_push(ks2, "publishers"@, "fleets"@);
    lemma_ne("categories"@, "fleets"@, 0);
    lemma_not_has_push(ks3, "categories"@, "fleets"@);
    lemma_ne("versions"@, "fleets"@, 0);
    lemma_not_has_push(ks4, "versions"@, "fleets"@);
    lemma_ne("search"@, "fleets"@, 0);
    lemma_not_has_push(ks5, "search"@, "fleets"@);
    lemma_ne("installDateFrom"@, "fleets"@, 0);
    lemma_not_has_push(ks6, "installDateFrom"@, "fleets"@);
    lemma_ne("installDateTo"@, "fleets"@, 0);
    lemma_not_has_push(ks7, "installDateTo"@, "fleets"@);
    lemma_ne("sizeMin"@, "fleets"@, 0);
    lemma_not_has_push(ks8, "sizeMin"@, "fleets"@);
    lemma_ne("sizeMax"@, "fleets"@, 0);
    lemma_not_has_push(ks9, "sizeMax"@, "fleets"@);
    lemma_ne("usages"@, "fleets"@, 0);
    lemma_not_has_push(ks10, "usages"@, "fleets"@);
    lemma_ne("catalogs"@, "fleets"@, 0);
    lemma_not_has_push(ks11, "catalogs"@, "fleets"@);
    lemma_ne("locations"@, "fleets"@, 0);
    lemma_not_has_push(ks12, "locations"@, "fleets"@);
    lemma_ne("areas"@, "fleets"@, 0);
    lemma_not_has_push(ks13, "areas"@, "fleets"@);
    lemma_distinct_push(ks14, "fleets"@);
    lemma_ne("deviceNames"@, "rooms"@, 0);
    lemma_not_has_push(ks0, "deviceNames"@, "rooms"@);
    lemma_ne("applicationNames"@, "rooms"@, 0);
    lemma_not_has_push(ks1, "applicationNames"@, "rooms"@);
    lemma_ne("publishers"@, "rooms"@, 0);
    lemma_not_has_push(ks2, "publishers"@, "rooms"@);
    lemma_ne("categories"@, "rooms"@, 0);
    lemma_not_has_push(ks3, "categories"@, "rooms"@);
    lemma_ne("versions"@, "rooms"@, 0);
    lemma_not_has_push(ks4, "versions"@, "rooms"@);
    lemma_ne("search"@, "rooms"@, 0);
    lemma_not_has_push(ks5, "search"@, "rooms"@);
    lemma_ne("installDateFrom"@, "rooms"@, 0);
    lemma_not_has_push(ks6, "installDateFrom"@, "rooms"@);
    lemma_ne("installDateTo"@, "rooms"@, 0);
    lemma_not_has_push(ks7, "installDateTo"@, "rooms"@);
    lemma_ne("sizeMin"@, "rooms"@, 0);
    lemma_not_has_push(ks8, "sizeMin"@, "rooms"@);
    lemma_ne("sizeMax"@, "rooms"@, 0);
    lemma_not_has_push(ks9, "sizeMax"@, "rooms"@);
    lemma_ne("usages"@, "rooms"@, 0);
    lemma_not_has_push(ks10, "usages"@, "rooms"@);
    lemma_ne("catalogs"@, "rooms"@, 0);
    lemma_not_has_push(ks11, "catalogs"@, "rooms"@);
    lemma_ne("locations"@, "rooms"@, 0);
    lemma_not_has_push(ks12, "locations"@, "rooms"@);
    lemma_ne("areas"@, "rooms"@, 0);
    lemma_not_has_push(ks13, "areas"@, "rooms"@);
    lemma_ne("fleets"@, "rooms"@, 0);
    lemma_not_has_push(ks14, "fleets"@, "rooms"@);
    lemma_distinct_push(ks15, "rooms"@);
    lemma_ne("deviceNames"@, "platforms"@, 0);
    lemma_not_has_push(ks0, "deviceNames"@, "platforms"@);
    lemma_ne("applicationNames"@, "platforms"@, 0);
    lemma_not_has_push(ks1, "applicationNames"@, "platforms"@);
    lemma_ne("publishers"@, "platforms"@, 0);
    lemma_not_has_push(ks2, "publishers"@, "platforms"@);
    lemma_ne("categories"@, "platforms"@, 0);
    lemma_not_has_push(ks3, "categories"@, "platforms"@);
    lemma_ne("versions"@, "platforms"@, 0);
    lemma_not_has_push(ks4, "versions"@, "platforms"@);
    lemma_ne("search"@, "platforms"@, 0);
    lemma_not_has_push(ks5, "search"@, "platforms"@);
    lemma_ne("installDateFrom"@, "platforms"@, 0);
    lemma_not_has_push(ks6, "installDateFrom"@, "platforms"@);
    lemma_ne("installDateTo"@, "platforms"@, 0);
    lemma_not_has_push(ks7, "installDateTo"@, "platforms"@);
    lemma_ne("sizeMin"@, "platforms"@, 0);
    lemma_not_has_push(ks8, "sizeMin"@, "platforms"@);
    lemma_ne("sizeMax"@, "platforms"@, 0);
    lemma_not_has_push(ks9, "sizeMax"@, "platforms"@);
    lemma_ne("usages"@, "platforms"@, 0);
    lemma_not_has_push(ks10, "usages"@, "platforms"@);
    lemma_ne("catalogs"@, "platforms"@, 0);
    lemma_not_has_push(ks11, "catalogs"@, "platforms"@);
    lemma_ne("locations"@, "platforms"@, 0);
    lemma_not_has_push(ks12, "locations"@, "platforms"@);
    lemma_ne("areas"@, "platforms"@, 0);
    lemma_not_has_push(ks13, "areas"@, "platforms"@);
    lemma_ne("fleets"@, "platforms"@, 0);
    lemma_not_has_push(ks14, "fleets"@, "platforms"@);
    lemma_ne("rooms"@, "platforms"@, 0);
    lemma_not_has_push(ks15, "rooms"@, "platforms"@);
    lemma_distinct_push(ks16, "platforms"@);
    lemma_ne("deviceNames"@, "loadAll"@, 0);
    lemma_not_has_push(ks0, "deviceNames"@, "loadAll"@);
    lemma_ne("applicationNames"@, "loadAll"@, 0);
    lemma_not_has_push(ks1, "applicationNames"@, "loadAll"@);
    lemma_ne("publishers"@, "loadAll"@, 0);
    lemma_not_has_push(ks2, "publishers"@, "loadAll"@);
    lemma_ne("categories"@, "loadAll"@, 0);
    lemma_not_has_push(ks3, "categories"@, "loadAll"@);
    lemma_ne("versions"@, "loadAll"@, 0);
    lemma_not_has_push(ks4, "versions"@, "loadAll"@);
    lemma_ne("search"@, "loadAll"@, 0);
    lemma_not_has_push(ks5, "search"@, "loadAll"@);
    lemma_ne("installDateFrom"@, "loadAll"@, 0);
    lemma_not_has_push(ks6, "installDateFrom"@, "loadAll"@);
    lemma_ne("installDateTo"@, "loadAll"@, 0);
    lemma_not_has_push(ks7, "installDateTo"@, "loadAll"@);
    lemma_ne("sizeMin"@, "loadAll"@, 0);
    lemma_not_has_push(ks8, "sizeMin"@, "loadAll"@);
    lemma_ne("sizeMax"@, "loadAll"@, 0);
    lemma_not_has_push(ks9, "sizeMax"@, "loadAll"@);
    lemma_ne("usages"@, "loadAll"@, 0);
    lemma_not_has_push(ks10, "usages"@, "loadAll"@);
    lemma_ne("catalogs"@, "loadAll"@, 0);
    lemma_not_has_push(ks11, "catalogs"@, "loadAll"@);
    lemma_ne("locations"@, "loadAll"@, 0);
    lemma_not_has_push(ks12, "locations"@, "loadAll"@);
    lemma_ne("areas"@, "loadAll"@, 0);
    lemma_not_has_push(ks13, "areas"@, "loadAll"@);
    lemma_ne("fleets"@, "loadAll"@, 0);
    lemma_not_has_push(ks14, "fleets"@, "loadAll"@);
    lemma_ne("rooms"@, "loadAll"@, 0);
    lemma_not_has_push(ks15, "rooms"@, "loadAll"@);
    lemma_ne("platforms"@, "loadAll"@, 0);
    lemma_not_has_push(ks16, "platforms"@, "loadAll"@);
    lemma_distinct_push(ks17, "loadAll"@);
    lemma_ne("deviceNames"@, "includeArchived"@, 0);
    lemma_not_has_push(ks0, "deviceNames"@, "includeArchived"@);
    lemma_ne("applicationNames"@, "includeArchived"@, 0);
    lemma_not_has_push(ks1, "applicationNames"@, "includeArchived"@);
    lemma_ne("publishers"@, "includeArchived"@, 0);
    lemma_not_has_push(ks2, "publishers"@, "includeArchived"@);
    lemma_ne("categories"@, "includeArchived"@, 0);
    lemma_not_has_push(ks3, "categories"@, "includeArchived"@);
    lemma_ne("versions"@, "includeArchived"@, 0);
    lemma_not_has_push(ks4, "versions"@, "includeArchived"@);
    lemma_ne("search"@, "includeArchived"@, 0);
    lemma_not_has_push(ks5, "search"@, "includeArchived"@);
    lemma_ne("installDateFrom"@, "includeArchived"@, 2);
    lemma_not_has_push(ks6, "installDateFrom"@, "includeArchived"@);
    lemma_ne("installDateTo"@, "includeArchived"@, 0);
    lemma_not_has_push(ks7, "installDateTo"@, "includeArchived"@);
    lemma_ne("sizeMin"@, "includeArchived"@, 0);
    lemma_not_has_push(ks8, "sizeMin"@, "includeArchived"@);
    lemma_ne("sizeMax"@, "includeArchived"@, 0);
    lemma_not_has_push(ks9, "sizeMax"@, "includeArchived"@);
    lemma_ne("usages"@, "includeArchived"@, 0);
    lemma_not_has_push(ks10, "usages"@, "includeArchived"@);
    lemma_ne("catalogs"@, "includeArchived"@, 0);
    lemma_not_has_push(ks11, "catalogs"@, "includeArchived"@);
    lemma_ne("locations"@, "includeArchived"@, 0);
    lemma_not_has_push(ks12, "locations"@, "includeArchived"@);
    lemma_ne("areas"@, "includeArchived"@, 0);
    lemma_not_has_push(ks13, "areas"@, "includeArchived"@);
    lemma_ne("fleets"@, "includeArchived"@, 0);
    lemma_not_has_push(ks14, "fleets"@, "includeArchived"@);
    lemma_ne("rooms"@, "includeArchived"@, 0);
    lemma_not_has_push(ks15, "rooms"@, "includeArchived"@);
    lemma_ne("platforms"@, "includeArchived"@, 0);
    lemma_not_has_push(ks16, "platforms"@, "includeArchived"@);
    lemma_ne("loadAll"@, "includeArchived"@, 0);
    lemma_not_has_push(ks17, "loadAll"@, "includeArchived"@);
    lemma_distinct_push(ks18, "includeArchived"@);
    lemma_ne("deviceNames"@, "limit"@, 0);
    lemma_not_has_push(ks0, "deviceNames"@, "limit"@);
    lemma_ne("applicationNames"@, "limit"@, 0);
    lemma_not_has_push(ks1, "applicationNames"@, "limit"@);
    lemma_ne("publishers"@, "limit"@, 0);
    lemma_not_has_push(ks2, "publishers"@, "limit"@);
    lemma_ne("categories"@, "limit"@, 0);
    lemma_not_has_push(ks3, "categories"@, "limit"@);
    lemma_ne("versions"@, "limit"@, 0);
    lemma_not_has_push(ks4, "versions"@, "limit"@);
    lemma_ne("search"@, "limit"@, 0);
    lemma_not_has_push(ks5, "search"@, "limit"@);
    lemma_ne("installDateFrom"@, "limit"@, 0);
    lemma_not_has_push(ks6, "installDateFrom"@, "limit"@);
    lemma_ne("installDateTo"@, "limit"@, 0);
    lemma_not_has_push(ks7, "installDateTo"@, "limit"@);
    lemma_ne("sizeMin"@, "limit"@, 0);
    lemma_not_has_push(ks8, "sizeMin"@, "limit"@);
    lemma_ne("sizeMax"@, "limit"@, 0);
    lemma_not_has_push(ks9, "sizeMax"@, "limit"@);
    lemma_ne("usages"@, "limit"@, 0);
    lemma_not_has_push(ks10, "usages"@, "limit"@);
    lemma_ne("catalogs"@, "limit"@, 0);
    lemma_not_has_push(ks11, "catalogs"@, "limit"@);
    lemma_ne("locations"@, "limit"@, 0);
    lemma_not_has_push(ks12, "locations"@, "limit"@);
    lemma_ne("areas"@, "limit"@, 0);
    lemma_not_has_push(ks13, "areas"@, "limit"@);
    lemma_ne("fleets"@, "limit"@, 0);
    lemma_not_has_push(ks14, "fleets"@, "limit"@);
    lemma_ne("rooms"@, "limit"@, 0);
    lemma_not_has_push(ks15, "rooms"@, "limit"@);
    lemma_ne("platforms"@, "limit"@, 0);
    lemma_not_has_push(ks16, "platforms"@, "limit"@);
    lemma_ne("loadAll"@, "limit"@, 0);
    lemma_not_has_push(ks17, "loadAll"@, "limit"@);
    lemma_ne("includeArchived"@, "limit"@, 0);
    lemma_not_has_push(ks18, "includeArchived"@, "limit"@);
    lemma_distinct_push(ks19, "limit"@);
    lemma_ne("deviceNames"@, "offset"@, 0);
    lemma_not_has_push(ks0, "deviceNames"@, "offset"@);
    lemma_ne("applicationNames"@, "offset"@, 0);
    lemma_not_has_push(ks1, "applicationNames"@, "offset"@);
    lemma_ne("publishers"@, "offset"@, 0);
    lemma_not_has_push(ks2, "publishers"@, "offset"@);
    lemma_ne("categories"@, "offset"@, 0);
    lemma_not_has_push(ks3, "categories"@, "offset"@);
    lemma_ne("versions"@, "offset"@, 0);
    lemma_not_has_push(ks4, "versions"@, "offset"@);
    lemma_ne("search"@, "offset"@, 0);
    lemma_not_has_push(ks5, "search"@, "offset"@);
    lemma_ne("installDateFrom"@, "offset"@, 0);
    lemma_not_has_push(ks6, "installDateFrom"@, "offset"@);
    lemma_ne("installDateTo"@, "offset"@, 0);
    lemma_not_has_push(ks7, "installDateTo"@, "offset"@);
    lemma_ne("sizeMin"@, "offset"@, 0);
    lemma_not_has_push(ks8, "sizeMin"@, "offset"@);
    lemma_ne("sizeMax"@, "offset"@, 0);
    lemma_not_has_push(ks9, "sizeMax"@, "offset"@);
    lemma_ne("usages"@, "offset"@, 0);
    lemma_not_has_push(ks10, "usages"@, "offset"@);
    lemma_ne("catalogs"@, "offset"@, 0);
    lemma_not_has_push(ks11, "catalogs"@, "offset"@);
    lemma_ne("locations"@, "offset"@, 0);
    lemma_not_has_push(ks12, "locations"@, "offset"@);
    lemma_ne("areas"@, "offset"@, 0);
    lemma_not_has_push(ks13, "areas"@, "offset"@);
    lemma_ne("fleets"@, "offset"@, 0);
    lemma_not_has_push(ks14, "fleets"@, "offset"@);
    lemma_ne("rooms"@, "offset"@, 0);
    lemma_not_has_push(ks15, "rooms"@, "offset"@);
    lemma_ne("platforms"@, "offset"@, 0);
    lemma_not_has_push(ks16, "platforms"@, "offset"@);
    lemma_ne("loadAll"@, "offset"@, 0);
    lemma_not_has_push(ks17, "loadAll"@, "offset"@);
    lemma_ne("includeArchived"@, "offset"@, 0);
    lemma_not_has_push(ks18, "includeArchived"@, "offset"@);
    lemma_ne("limit"@, "offset"@, 0);
    lemma_not_has_push(ks19, "limit"@, "offset"@);
    lemma_distinct_push(ks20, "offset"@);
    lemma_ne("deviceNames"@, "deviceLimit"@, 6);
    lemma_not_has_push(ks0, "deviceNames"@, "deviceLimit"@);
    lemma_ne("applicationNames"@, "deviceLimit"@, 0);
    lemma_not_has_push(ks1, "applicationNames"@, "deviceLimit"@);
    lemma_ne("publishers"@, "deviceLimit"@, 0);
    lemma_not_has_push(ks2, "publishers"@, "deviceLimit"@);
    lemma_ne("categories"@, "deviceLimit"@, 0);
    lemma_not_has_push(ks3, "categories"@, "deviceLimit"@);
    lemma_ne("versions"@, "deviceLimit"@, 0);
    lemma_not_has_push(ks4, "versions"@, "deviceLimit"@);
    lemma_ne("search"@, "deviceLimit"@, 0);
    lemma_not_has_push(ks5, "search"@, "deviceLimit"@);
    lemma_ne("installDateFrom"@, "deviceLimit"@, 0);
    lemma_not_has_push(ks6, "installDateFrom"@, "deviceLimit"@);
    lemma_ne("installDateTo"@, "deviceLimit"@, 0);
    lemma_not_has_push(ks7, "installDateTo"@, "deviceLimit"@);
    lemma_ne("sizeMin"@, "deviceLimit"@, 0);
    lemma_not_has_push(ks8, "sizeMin"@, "deviceLimit"@);
    lemma_ne("sizeMax"@, "deviceLimit"@, 0);
    lemma_not_has_push(ks9, "sizeMax"@, "deviceLimit"@);
    lemma_ne("usages"@, "deviceLimit"@, 0);
    lemma_not_has_push(ks10, "usages"@, "deviceLimit"@);
    lemma_ne("catalogs"@, "deviceLimit"@, 0);
    lemma_not_has_push(ks11, "catalogs"@, "deviceLimit"@);
    lemma_ne("locations"@, "deviceLimit"@, 0);
    lemma_not_has_push(ks12, "locations"@, "deviceLimit"@);
    lemma_ne("areas"@, "deviceLimit"@, 0);
    lemma_not_has_push(ks13, "areas"@, "deviceLimit"@);
    lemma_ne("fleets"@, "deviceLimit"@, 0);
    lemma_not_has_push(ks14, "fleets"@, "deviceLimit"@);
    lemma_ne("rooms"@, "deviceLimit"@, 0);
    lemma_not_has_push(ks15, "rooms"@, "deviceLimit"@);
    lemma_ne("platforms"@, "deviceLimit"@, 0);
    lemma_not_has_push(ks16, "platforms"@, "deviceLimit"@);
    lemma_ne("loadAll"@, "deviceLimit"@, 0);
    lemma_not_has_push(ks17, "loadAll"@, "deviceLimit"@);
    lemma_ne("includeArchived"@, "deviceLimit"@, 0);
    lemma_not_has_push(ks18, "includeArchived"@, "deviceLimit"@);
    lemma_ne("limit"@, "deviceLimit"@, 0);
    lemma_not_has_push(ks19, "limit"@, "deviceLimit"@);
    lemma_ne("offset"@, "deviceLimit"@, 0);
    lemma_not_has_push(ks20, "offset"@, "deviceLimit"@);
    lemma_distinct_push(ks21, "deviceLimit"@);
    assert(ks22 =~= seq!["deviceNames"@, "applicationNames"@, "publishers"@, "categories"@, "versions"@, "search"@, "installDateFrom"@, "installDateTo"@, "sizeMin"@, "sizeMax"@, "usages"@, "catalogs"@, "locations"@, "areas"@, "fleets"@, "rooms"@, "platforms"@, "loadAll"@, "includeArchived"@, "limit"@, "offset"@, "deviceLimit"@]);
}

#[verifier::rlimit(100)]
#[verifier::spinoff_prover]
proof fn lemma_apps_list_request_pairs(devices: Option<String>, names: Option<String>, publishers: Option<String>, categories: Option<String>, versions: Option<String>, search: Option<String>, installed_from: Option<String>, installed_to: Option<String>, size_min: Option<u64>, size_max: Option<u64>, filters: InventoryFilters, load_all: bool, include_archived: bool, limit: Option<u32>, offset: Option<u32>, device_limit: Option<u32>)
    ensures
        sends_opt(opt_pair("deviceNames"@, devices) + opt_pair("applicationNames"@, names) + opt_pair("publishers"@, publishers) + opt_pair("categories"@, categories) + opt_pair("versions"@, versions) + opt_pair("search"@, search) + opt_pair("installDateFrom"@, installed_from) + opt_pair("installDateTo"@, installed_to) + qn64("sizeMin"@, size_min) + qn64("sizeMax"@, size_max) + opt_pair("usages"@, filters.usages) + opt_pair("catalogs"@, filters.catalogs) + opt_pair("locations"@, filters.locations) + opt_pair("areas"@, filters.areas) + opt_pair("fleets"@, filters.fleets) + opt_pair("rooms"@, filters.rooms) + opt_pair("platforms"@, filters.platforms) + qf("loadAll"@, load_all) + qf("includeArchived"@, include_archived) + qn("limit"@, limit) + qn("offset"@, offset) + qn("deviceLimit"@, device_limit), "deviceNames"@, string_text(devices)),
        sends_opt(opt_pair("deviceNames"@, devices) + opt_pair("applicationNames"@, names) + opt_pair("publishers"@, publishers) + opt_pair("categories"@, categories) + opt_pair("versions"@, versions) + opt_pair("search"@, search) + opt_pair("installDateFrom"@, installed_from) + opt_pair("installDateTo"@, installed_to) + qn64("sizeMin"@, size_min) + qn64("sizeMax"@, size_max) + opt_pair("usages"@, filters.usages) + opt_pair("catalogs"@, filters.catalogs) + opt_pair("locations"@, filters.locations) + opt_pair("areas"@, filters.areas) + opt_pair("fleets"@, filters.fleets) + opt_pair("rooms"@, filters.rooms) + opt_pair("platforms"@, filters.platforms) + qf("loadAll"@, load_all) + qf("includeArchived"@, include_archived) + qn("limit"@, limit) + qn("offset"@, offset) + qn("deviceLimit"@, device_limit), "applicationNames"@, string_text(names)),
        sends_opt(opt_pair("deviceNames"@, devices) + opt_pair("applicationNames"@, names) + opt_pair("publishers"@, publishers) + opt_pair("categories"@, categories) + opt_pair("versions"@, versions) + opt_pair("search"@, search) + opt_pair("installDateFrom"@, installed_from) + opt_pair("installDateTo"@, installed_to) + qn64("sizeMin"@, size_min) + qn64("sizeMax"@, size_max) + opt_pair("usages"@, filters.usages) + opt_pair("catalogs"@, filters.catalogs) + opt_pair("locations"@, filters.locations) + opt_pair("areas"@, filters.areas) + opt_pair("fleets"@, filters.fleets) + opt_pair("rooms"@, filters.rooms) + opt_pair("platforms"@, filters.platforms) + qf("loadAll"@, load_all) + qf("includeArchived"@, include_archived) + qn("limit"@, limit) + qn("offset"@, offset) + qn("deviceLimit"@, device_limit), "publishers"@, string_text(publishers)),
        sends_opt(opt_pair("deviceNames"@, devices) + opt_pair("applicationNames"@, names) + opt_pair("publishers"@, publishers) + opt_pair("categories"@, categories) + opt_pair("versions"@, versions) + opt_pair("search"@, search) + opt_pair("installDateFrom"@, installed_from) + opt_pair("installDateTo"@, installed_to) + qn64("sizeMin"@, size_min) + qn64("sizeMax"@, size_max) + opt_pair("usages"@, filters.usages) + opt_pair("catalogs"@, filters.catalogs) + opt_pair("locations"@, filters.locations) + opt_pair("areas"@, filters.areas) + opt_pair("fleets"@, filters.fleets) + opt_pair("rooms"@, filters.rooms) + opt_pair("platforms"@, filters.platforms) + qf("loadAll"@, load_all) + qf("includeArchived"@, include_archived) + qn("limit"@, limit) + qn("offset"@, offset) + qn("deviceLimit"@, device_limit), "categories"@, string_text(categories)),
        sends_opt(opt_pair("deviceNames"@, devices) + opt_pair("applicationNames"@, names) + opt_pair("publishers"@, publishers) + opt_pair("categories"@, categories) + opt_pair("versions"@, versions) + opt_pair("search"@, search) + opt_pair("installDateFrom"@, installed_from) + opt_pair("installDateTo"@, installed_to) + qn64("sizeMin"@, size_min) + qn64("sizeMax"@, size_max) + opt_pair("usages"@, filters.usages) + opt_pair("catalogs"@, filters.catalogs) + opt_pair("locations"@, filters.locations) + opt_pair("areas"@, filters.areas) + opt_pair("fleets"@, filters.fleets) + opt_pair("rooms"@, filters.rooms) + opt_pair("platforms"@, filters.platforms) + qf("loadAll"@, load_all) + qf("includeArchived"@, include_archived) + qn("limit"@, limit) + qn("offset"@, offset) + qn("deviceLimit"@, device_limit), "versions"@, string_text(versions)),
        sends_opt(opt_pair("deviceNames"@, devices) + opt_pair("applicationNames"@, names) + opt_pair("publishers"@, publishers) + opt_pair("categories"@, categories) + opt_pair("versions"@, versions) + opt_pair("search"@, search) + opt_pair("installDateFrom"@, installed_from) + opt_pair("installDateTo"@, installed_to) + qn64("sizeMin"@, size_min) + qn64("sizeMax"@, size_max) + opt_pair("usages"@, filters.usages) + opt_pair("catalogs"@, filters.catalogs) + opt_pair("locations"@, filters.locations) + opt_pair("areas"@, filters.areas) + opt_pair("fleets"@, filters.fleets) + opt_pair("rooms"@, filters.rooms) + opt_pair("platforms"@, filters.platforms) + qf("loadAll"@, load_all) + qf("includeArchived"@, include_archived) + qn("limit"@, limit) + qn("offset"@, offset) + qn("deviceLimit"@, device_limit), "search"@, string_text(search)),
        sends_opt(opt_pair("deviceNames"@, devices) + opt_pair("applicationNames"@, names) + opt_pair("publishers"@, publishers) + opt_pair("categories"@, categories) + opt_pair("versions"@, versions) + opt_pair("search"@, search) + opt_pair("installDateFrom"@, installed_from) + opt_pair("installDateTo"@, installed_to) + qn64("sizeMin"@, size_min) + qn64("sizeMax"@, size_max) + opt_pair("usages"@, filters.usages) + opt_pair("catalogs"@, filters.catalogs) + opt_pair("locations"@, filters.locations) + opt_pair("areas"@, filters.areas) + opt_pair("fleets"@, filters.fleets) + opt_pair("rooms"@, filters.rooms) + opt_pair("platforms"@, filters.platforms) + qf("loadAll"@, load_all) + qf("includeArchived"@, include_archived) + qn("limit"@, limit) + qn("offset"@, offset) + qn("deviceLimit"@, device_limit), "installDateFrom"@, string_text(installed_from)),
        sends_opt(opt_pair("deviceNames"@, devices) + opt_pair("applicationNames"@, names) + opt_pair("publishers"@, publishers) + opt_pair("categories"@, categories) + opt_pair("versions"@, versions) + opt_pair("search"@, search) + opt_pair("installDateFrom"@, installed_from) + opt_pair("installDateTo"@, installed_to) + qn64("sizeMin"@, size_min) + qn64("sizeMax"@, size_max) + opt_pair("usages"@, filters.usages) + opt_pair("catalogs"@, filters.catalogs) + opt_pair("locations"@, filters.locations) + opt_pair("areas"@, filters.areas) + opt_pair("fleets"@, filters.fleets) + opt_pair("rooms"@, filters.rooms) + opt_pair("platforms"@, filters.platforms) + qf("loadAll"@, load_all) + qf("includeArchived"@, include_archived) + qn("limit"@, limit) + qn("offset"@, offset) + qn("deviceLimit"@, device_limit), "installDateTo"@, string_text(installed_to)),
        sends_opt(opt_pair("deviceNames"@, devices) + opt_pair("applicationNames"@, names) + opt_pair("publishers"@, publishers) + opt_pair("categories"@, categories) + opt_pair("versions"@, versions) + opt_pair("search"@, search) + opt_pair("installDateFrom"@, installed_from) + opt_pair("installDateTo"@, installed_to) + qn64("sizeMin"@, size_min) + qn64("sizeMax"@, size_max) + opt_pair("usages"@, filters.usages) + opt_pair("catalogs"@, filters.catalogs) + opt_pair("locations"@, filters.locations) + opt_pair("areas"@, filters.areas) + opt_pair("fleets"@, filters.fleets) + opt_pair("rooms"@, filters.rooms) + opt_pair("platforms"@, filters.platforms) + qf("loadAll"@, load_all) + qf("includeArchived"@, include_archived) + qn("limit"@, limit) + qn("offset"@, offset) + qn("deviceLimit"@, device_limit), "sizeMin"@, number64_text(size_min)),
        sends_opt(opt_pair("deviceNames"@, devices) + opt_pair("applicationNames"@, names) + opt_pair("publishers"@, publishers) + opt_pair("categories"@, categories) + opt_pair("versions"@, versions) + opt_pair("search"@, search) + opt_pair("installDateFrom"@, installed_from) + opt_pair("installDateTo"@, installed_to) + qn64("sizeMin"@, size_min) + qn64("sizeMax"@, size_max) + opt_pair("usages"@, filters.usages) + opt_pair("catalogs"@, filters.catalogs) + opt_pair("locations"@, filters.locations) + opt_pair("areas"@, filters.areas) + opt_pair("fleets"@, filters.fleets) + opt_pair("rooms"@, filters.rooms) + opt_pair("platforms"@, filters.platforms) + qf("loadAll"@, load_all) + qf("includeArchived"@, include_archived) + qn("limit"@, limit) + qn("offset"@, offset) + qn("deviceLimit"@, device_limit), "sizeMax"@, number64_text(size_max)),
        sends_opt(opt_pair("deviceNames"@, devices) + opt_pair("applicationNames"@, names) + opt_pair("publishers"@, publishers) + opt_pair("categories"@, categories) + opt_pair("versions"@, versions) + opt_pair("search"@, search) + opt_pair("installDateFrom"@, installed_from) + opt_pair("installDateTo"@, installed_to) + qn64("sizeMin"@, size_min) + qn64("sizeMax"@, size_max) + opt_pair("usages"@, filters.usages) + opt_pair("catalogs"@, filters.catalogs) + opt_pair("locations"@, filters.locations) + opt_pair("areas"@, filters.areas) + opt_pair("fleets"@, filters.fleets) + opt_pair("rooms"@, filters.rooms) + opt_pair("platforms"@, filters.platforms) + qf("loadAll"@, load_all) + qf("includeArchived"@, include_archived) + qn("limit"@, limit) + qn("offset"@, offset) + qn("deviceLimit"@, device_limit), "usages"@, string_text(filters.usages)),
        sends_opt(opt_pair("deviceNames"@, devices) + opt_pair("applicationNames"@, names) + opt_pair("publishers"@, publishers) + opt_pair("categories"@, categories) + opt_pair("versions"@, versions) + opt_pair("search"@, search) + opt_pair("installDateFrom"@, installed_from) + opt_pair("installDateTo"@, installed_to) + qn64("sizeMin"@, size_min) + qn64("sizeMax"@, size_max) + opt_pair("usages"@, filters.usages) + opt_pair("catalogs"@, filters.catalogs) + opt_pair("locations"@, filters.locations) + opt_pair("areas"@, filters.areas) + opt_pair("fleets"@, filters.fleets) + opt_pair("rooms"@, filters.rooms) + opt_pair("platforms"@, filters.platforms) + qf("loadAll"@, load_all) + qf("includeArchived"@, include_archived) + qn("limit"@, limit) + qn("offset"@, offset) + qn("deviceLimit"@, device_limit), "catalogs"@, string_text(filters.catalogs)),
        sends_opt(opt_pair("deviceNames"@, devices) + opt_pair("applicationNames"@, names) + opt_pair("publishers"@, publishers) + opt_pair("categories"@, categories) + opt_pair("versions"@, versions) + opt_pair("search"@, search) + opt_pair("installDateFrom"@, installed_from) + opt_pair("installDateTo"@, installed_to) + qn64("sizeMin"@, size_min) + qn64("sizeMax"@, size_max) + opt_pair("usages"@, filters.usages) + opt_pair("catalogs"@, filters.catalogs) + opt_pair("locations"@, filters.locations) + opt_pair("areas"@, filters.areas) + opt_pair("fleets"@, filters.fleets) + opt_pair("rooms"@, filters.rooms) + opt_pair("platforms"@, filters.platforms) + qf("loadAll"@, load_all) + qf("includeArchived"@, include_archived) + qn("limit"@, limit) + qn("offset"@, offset) + qn("deviceLimit"@, device_limit), "locations"@, string_text(filters.locations)),
        sends_opt(opt_pair("deviceNames"@, devices) + opt_pair("applicationNames"@, names) + opt_pair("publishers"@, publishers) + opt_pair("categories"@, categories) + opt_pair("versions"@, versions) + opt_pair("search"@, search) + opt_pair("installDateFrom"@, installed_from) + opt_pair("installDateTo"@, installed_to) + qn64("sizeMin"@, size_min) + qn64("sizeMax"@, size_max) + opt_pair("usages"@, filters.usages) + opt_pair("catalogs"@, filters.catalogs) + opt_pair("locations"@, filters.locations) + opt_pair("areas"@, filters.areas) + opt_pair("fleets"@, filters.fleets) + opt_pair("rooms"@, filters.rooms) + opt_pair("platforms"@, filters.platforms) + qf("loadAll"@, load_all) + qf("includeArchived"@, include_archived) + qn("limit"@, limit) + qn("offset"@, offset) + qn("deviceLimit"@, device_limit), "areas"@, string_text(filters.areas)),
        sends_opt(opt_pair("deviceNames"@, devices) + opt_pair("applicationNames"@, names) + opt_pair("publishers"@, publishers) + opt_pair("categories"@, categories) + opt_pair("versions"@, versions) + opt_pair("search"@, search) + opt_pair("installDateFrom"@, installed_from) + opt_pair("installDateTo"@, installed_to) + qn64("sizeMin"@, size_min) + qn64("sizeMax"@, size_max) + opt_pair("usages"@, filters.usages) + opt_pair("catalogs"@, filters.catalogs) + opt_pair("locations"@, filters.locations) + opt_pair("areas"@, filters.areas) + opt_pair("fleets"@, filters.fleets) + opt_pair("rooms"@, filters.rooms) + opt_pair("platforms"@, filters.platforms) + qf("loadAll"@, load_all) + qf("includeArchived"@, include_archived) + qn("limit"@, limit) + qn("offset"@, offset) + qn("deviceLimit"@, device_limit), "fleets"@, string_text(filters.fleets)),
        sends_opt(opt_pair("deviceNames"@, devices) + opt_pair("applicationNames"@, names) + opt_pair("publishers"@, publishers) + opt_pair("categories"@, categories) + opt_pair("versions"@, versions) + opt_pair("search"@, search) + opt_pair("installDateFrom"@, installed_from) + opt_pair("installDateTo"@, installed_to) + qn64("sizeMin"@, size_min) + qn64("sizeMax"@, size_max) + opt_pair("usages"@, filters.usages) + opt_pair("catalogs"@, filters.catalogs) + opt_pair("locations"@, filters.locations) + opt_pair("areas"@, filters.areas) + opt_pair("fleets"@, filters.fleets) + opt_pair("rooms"@, filters.rooms) + opt_pair("platforms"@, filters.platforms) + qf("loadAll"@, load_all) + qf("includeArchived"@, include_archived) + qn("limit"@, limit) + qn("offset"@, offset) + qn("deviceLimit"@, device_limit), "rooms"@, string_text(filters.rooms)),
        sends_opt(opt_pair("deviceNames"@, devices) + opt_pair("applicationNames"@, names) + opt_pair("publishers"@, publishers) + opt_pair("categories"@, categories) + opt_pair("versions"@, versions) + opt_pair("search"@, search) + opt_pair("installDateFrom"@, installed_from) + opt_pair("installDateTo"@, installed_to) + qn64("sizeMin"@, size_min) + qn64("sizeMax"@, size_max) + opt_pair("usages"@, filters.usages) + opt_pair("catalogs"@, filters.catalogs) + opt_pair("locations"@, filters.locations) + opt_pair("areas"@, filters.areas) + opt_pair("fleets"@, filters.fleets) + opt_pair("rooms"@, filters.rooms) + opt_pair("platforms"@, filters.platforms) + qf("loadAll"@, load_all) + qf("includeArchived"@, include_archived) + qn("limit"@, limit) + qn("offset"@, offset) + qn("deviceLimit"@, device_limit), "platforms"@, string_text(filters.platforms)),
        sends_opt(opt_pair("deviceNames"@, devices) + opt_pair("applicationNames"@, names) + opt_pair("publishers"@, publishers) + opt_pair("categories"@, categories) + opt_pair("versions"@, versions) + opt_pair("search"@, search) + opt_pair("installDateFrom"@, installed_from) + opt_pair("installDateTo"@, installed_to) + qn64("sizeMin"@, size_min) + qn64("sizeMax"@, size_max) + opt_pair("usages"@, filters.usages) + opt_pair("catalogs"@, filters.catalogs) + opt_pair("locations"@, filters.locations) + opt_pair("areas"@, filters.areas) + opt_pair("fleets"@, filters.fleets) + opt_pair("rooms"@, filters.rooms) + opt_pair("platforms"@, filters.platforms) + qf("loadAll"@, load_all) + qf("includeArchived"@, include_archived) + qn("limit"@, limit) + qn("offset"@, offset) + qn("deviceLimit"@, device_limit), "loadAll"@, flag_value(load_all)),
        sends_opt(opt_pair("deviceNames"@, devices) + opt_pair("applicationNames"@, names) + opt_pair("publishers"@, publishers) + opt_pair("categories"@, categories) + opt_pair("versions"@, versions) + opt_pair("search"@, search) + opt_pair("installDateFrom"@, installed_from) + opt_pair("installDateTo"@, installed_to) + qn64("sizeMin"@, size_min) + qn64("sizeMax"@, size_max) + opt_pair("usages"@, filters.usages) + opt_pair("catalogs"@, filters.catalogs) + opt_pair("locations"@, filters.locations) + opt_pair("areas"@, filters.areas) + opt_pair("fleets"@, filters.fleets) + opt_pair("rooms"@, filters.rooms) + opt_pair("platforms"@, filters.platforms) + qf("loadAll"@, load_all) + qf("includeArchived"@, include_archived) + qn("limit"@, limit) + qn("offset"@, offset) + qn("deviceLimit"@, device_limit), "includeArchived"@, flag_value(include_archived)),
        sends_opt(opt_pair("deviceNames"@, devices) + opt_pair("applicationNames"@, names) + opt_pair("publishers"@, publishers) + opt_pair("categories"@, categories) + opt_pair("versions"@, versions) + opt_pair("search"@, search) + opt_pair("installDateFrom"@, installed_from) + opt_pair("installDateTo"@, installed_to) + qn64("sizeMin"@, size_min) + qn64("sizeMax"@, size_max) + opt_pair("usages"@, filters.usages) + opt_pair("catalogs"@, filters.catalogs) + opt_pair("locations"@, filters.locations) + opt_pair("areas"@, filters.areas) + opt_pair("fleets"@, filters.fleets) + opt_pair("rooms"@, filters.rooms) + opt_pair("platforms"@, filters.platforms) + qf("loadAll"@, load_all) + qf("includeArchived"@, include_archived) + qn("limit"@, limit) + qn("offset"@, offset) + qn("deviceLimit"@, device_limit), "limit"@, number_text(limit)),
        sends_opt(opt_pair("deviceNames"@, devices) + opt_pair("applicationNames"@, names) + opt_pair("publishers"@, publishers) + opt_pair("categories"@, categories) + opt_pair("versions"@, versions) + opt_pair("search"@, search) + opt_pair("installDateFrom"@, installed_from) + opt_pair("installDateTo"@, installed_to) + qn64("sizeMin"@, size_min) + qn64("sizeMax"@, size_max) + opt_pair("usages"@, filters.usages) + opt_pair("catalogs"@, filters.catalogs) + opt_pair("locations"@, filters.locations) + opt_pair("areas"@, filters.areas) + opt_pair("fleets"@, filters.fleets) + opt_pair("rooms"@, filters.rooms) + opt_pair("platforms"@, filters.platforms) + qf("loadAll"@, load_all) + qf("includeArchived"@, include_archived) + qn("limit"@, limit) + qn("offset"@, offset) + qn("deviceLimit"@, device_limit), "offset"@, number_text(offset)),
        sends_opt(opt_pair("deviceNames"@, devices) + opt_pair("applicationNames"@, names) + opt_pair("publishers"@, publishers) + opt_pair("categories"@, categories) + opt_pair("versions"@, versions) + opt_pair("search"@, search) + opt_pair("installDateFrom"@, installed_from) + opt_pair("installDateTo"@, installed_to) + qn64("sizeMin"@, size_min) + qn64("sizeMax"@, size_max) + opt_pair("usages"@, filters.usages) + opt_pair("catalogs"@, filters.catalogs) + opt_pair("locations"@, filters.locations) + opt_pair("areas"@, filters.areas) + opt_pair("fleets"@, filters.fleets) + opt_pair("rooms"@, filters.rooms) + opt_pair("platforms"@, filters.platforms) + qf("loadAll"@, load_all) + qf("includeArchived"@, include_archived) + qn("limit"@, limit) + qn("offset"@, offset) + qn("deviceLimit"@, device_limit), "deviceLimit"@, number_text(device_limit)),
        only_keys(opt_pair("deviceNames"@, devices) + opt_pair("applicationNames"@, names) + opt_pair("publishers"@, publishers) + opt_pair("categories"@, categories) + opt_pair("versions"@, versions) + opt_pair("search"@, search) + opt_pair("installDateFrom"@, installed_from) + opt_pair("installDateTo"@, installed_to) + qn64("sizeMin"@, size_min) + qn64("sizeMax"@, size_max) + opt_pair("usages"@, filters.usages) + opt_pair("catalogs"@, filters.catalogs) + opt_pair("locations"@, filters.locations) + opt_pair("areas"@, filters.areas) + opt_pair("fleets"@, filters.fleets) + opt_pair("rooms"@, filters.rooms) + opt_pair("platforms"@, filters.platforms) + qf("loadAll"@, load_all) + qf("includeArchived"@, include_archived) + qn("limit"@, limit) + qn("offset"@, offset) + qn("deviceLimit"@, device_limit), seq!["deviceNames"@, "applicationNames"@, "publishers"@, "categories"@, "versions"@, "search"@, "installDateFrom"@, "installDateTo"@, "sizeMin"@, "sizeMax"@, "usages"@, "catalogs"@, "locations"@, "areas"@, "fleets"@, "rooms"@, "platforms"@, "loadAll"@, "includeArchived"@, "limit"@, "offset"@, "deviceLimit"@]),
{
    lemma_sources("deviceNames"@, None, None, false, devices, seq![]);
    lemma_sources("applicationNames"@, None, None, false, names, seq![]);
    lemma_sources("publishers"@, None, None, false, publishers, seq![]);
    lemma_sources("categories"@, None, None, false, categories, seq![]);
    lemma_sources("versions"@, None, None, false, versions, seq![]);
    lemma_sources("search"@, None, None, false, search, seq![]);
    lemma_sources("installDateFrom"@, None, None, false, installed_from, seq![]);
    lemma_sources("installDateTo"@, None, None, false, installed_to, seq![]);
    lemma_sources("sizeMin"@, None, size_min, false, None, seq![]);
    lemma_sources("sizeMax"@, None, size_max, false, None, seq![]);
    lemma_sources("usages"@, None, None, false, filters.usages, seq![]);
    lemma_sources("catalogs"@, None, None, false, filters.catalogs, seq![]);
    lemma_sources("locations"@, None, None, false, filters.locations, seq![]);
    lemma_sources("areas"@, None, None, false, filters.areas, seq![]);
    lemma_sources("fleets"@, None, None, false, filters.fleets, seq![]);
    lemma_sources("rooms"@, None, None, false, filters.rooms, seq![]);
    lemma_sources("platforms"@, None, None, false, filters.platforms, seq![]);
    lemma_sources("loadAll"@, None, None, load_all, None, seq![]);
    lemma_sources("includeArchived"@, None, None, include_archived, None, seq![]);
    lemma_sources("limit"@, limit, None, false, None, seq![]);
    lemma_sources("offset"@, offset, None, false, None, seq![]);
    lemma_sources("deviceLimit"@, device_limit, None, false, None, seq![]);
    lemma_options_empty();
    let ps0 = Seq::<Seq<(Seq<char>, Seq<char>)>>::empty();
    let ks0 = Seq::<Seq<char>>::empty();
    let vs0 = Seq::<Option<Seq<char>>>::empty();
    let ps1 = ps0.push(opt_pair("deviceNames"@, devices));
    let ks1 = ks0.push("deviceNames"@);
    let vs1 = vs0.push(string_text(devices));
    lemma_options_push(ps0, ks0, vs0, opt_pair("deviceNames"@, devices), "deviceNames"@, string_text(devices));
    let ps2 = ps1.push(opt_pair("applicationNames"@, names));
    let ks2 = ks1.push("applicationNames"@);
    let vs2 = vs1.push(string_text(names));
    lemma_options_push(ps1, ks1, vs1, opt_pair("applicationNames"@, names), "applicationNames"@, string_text(names));
    let ps3 = ps2.push(opt_pair("publishers"@, publishers));
    let ks3 = ks2.push("publishers"@);
    let vs3 = vs2.push(string_text(publishers));
    lemma_options_push(ps2, ks2, vs2, opt_pair("publishers"@, publishers), "publishers"@, string_text(publishers));
    let ps4 = ps3.push(opt_pair("categories"@, categories));
    let ks4 = ks3.push("categories"@);
    let vs4 = vs3.push(string_text(categories));
    lemma_options_push(ps3, ks3, vs3, opt_pair("categories"@, categories), "categories"@, string_text(categories));
    let ps5 = ps4.push(opt_pair("versions"@, versions));
    let ks5 = ks4.push("versions"@);
    let vs5 = vs4.push(string_text(versions));
    lemma_options_push(ps4, ks4, vs4, opt_pair("versions"@, versions), "versions"@, string_text(versions));
    let ps6 = ps5.push(opt_pair("search"@, search));
    let ks6 = ks5.push("search"@);
    let vs6 = vs5.push(string_text(search));
    lemma_options_push(ps5, ks5, vs5, opt_pair("search"@, search), "search"@, string_text(search));
    let ps7 = ps6.push(opt_pair("installDateFrom"@, installed_from));
    let ks7 = ks6.push("installDateFrom"@);
    let vs7 = vs6.push(string_text(installed_from));
    lemma_options_push(ps6, ks6, vs6, opt_pair("installDateFrom"@, installed_from), "installDateFrom"@, string_text(installed_from));
    let ps8 = ps7.push(opt_pair("installDateTo"@, installed_to));
    let ks8 = ks7.push("installDateTo"@);
    let vs8 = vs7.push(string_text(installed_to));
    lemma_options_push(ps7, ks7, vs7, opt_pair("installDateTo"@, installed_to), "installDateTo"@, string_text(installed_to));
    let ps9 = ps8.push(qn64("sizeMin"@, size_min));
    let ks9 = ks8.push("sizeMin"@);
    let vs9 = vs8.push(number64_text(size_min));
    lemma_options_push(ps8, ks8, vs8, qn64("sizeMin"@, size_min), "sizeMin"@, number64_text(size_min));
    let ps10 = ps9.push(qn64("sizeMax"@, size_max));
    let ks10 = ks9.push("sizeMax"@);
    let vs10 = vs9.push(number64_text(size_max));
    lemma_options_push(ps9, ks9, vs9, qn64("sizeMax"@, size_max), "sizeMax"@, number64_text(size_max));
    let ps11 = ps10.push(opt_pair("usages"@, filters.usages));
    let ks11 = ks10.push("usages"@);
    let vs11 = vs10.push(string_text(filters.usages));
    lemma_options_push(ps10, ks10, vs10, opt_pair("usages"@, filters.usages), "usages"@, string_text(filters.usages));
    let ps12 = ps11.push(opt_pair("catalogs"@, filters.catalogs));
    let ks12 = ks11.push("catalogs"@);
    let vs12 = vs11.push(string_text(filters.catalogs));
    lemma_options_push(ps11, ks11, vs11, opt_pair("catalogs"@, filters.catalogs), "catalogs"@, string_text(filters.catalogs));
    let ps13 = ps12.push(opt_pair("locations"@, filters.locations));
    let ks13 = ks12.push("locations"@);
    let vs13 = vs12.push(string_text(filters.locations));
    lemma_options_push(ps12, ks12, vs12, opt_pair("locations"@, filters.locations), "locations"@, string_text(filters.locations));
    let ps14 = ps13.push(opt_pair("areas"@, filters.areas));
    let ks14 = ks13.push("areas"@);
    let vs14 = vs13.push(string_text(filters.areas));
    lemma_options_push(ps13, ks13, vs13, opt_pair("areas"@, filters.areas), "areas"@, string_text(filters.areas));
    let ps15 = ps14.push(opt_pair("fleets"@, filters.fleets));
    let ks15 = ks14.push("fleets"@);
    let vs15 = vs14.push(string_text(filters.fleets));
    lemma_options_push(ps14, ks14, vs14, opt_pair("fleets"@, filters.fleets), "fleets"@, string_text(filters.fleets));
    let ps16 = ps15.push(opt_pair("rooms"@, filters.rooms));
    let ks16 = ks15.push("rooms"@);
    let vs16 = vs15.push(string_text(filters.rooms));
    lemma_options_push(ps15, ks15, vs15, opt_pair("rooms"@, filters.rooms), "rooms"@, string_text(filters.rooms));
    let ps17 = ps16.push(opt_pair("platforms"@, filters.platforms));
    let ks17 = ks16.push("platforms"@);
    let vs17 = vs16.push(string_text(filters.platforms));
    lemma_options_push(ps16, ks16, vs16, opt_pair("platforms"@, filters.platforms), "platforms"@, string_text(filters.platforms));
    let ps18 = ps17.push(qf("loadAll"@, load_all));
    let ks18 = ks17.push("loadAll"@);
    let vs18 = vs17.push(flag_value(load_all));
    lemma_options_push(ps17, ks17, vs17, qf("loadAll"@, load_all), "loadAll"@, flag_value(load_all));
    let ps19 = ps18.push(qf("includeArchived"@, include_archived));
    let ks19 = ks18.push("includeArchived"@);
    let vs19 = vs18.push(flag_value(include_archived));
    lemma_options_push(ps18, ks18, vs18, qf("includeArchived"@, include_archived), "includeArchived"@, flag_value(include_archived));
    let ps20 = ps19.push(qn("limit"@, limit));
    let ks20 = ks19.push("limit"@);
    let vs20 = vs19.push(number_text(limit));
    lemma_options_push(ps19, ks19, vs19, qn("limit"@, limit), "limit"@, number_text(limit));
    let ps21 = ps20.push(qn("offset"@, offset));
    let ks21 = ks20.push("offset"@);
    let vs21 = vs20.push(number_text(offset));
    lemma_options_push(ps20, ks20, vs20, qn("offset"@, offset), "offset"@, number_text(offset));
    let ps22 = ps21.push(qn("deviceLimit"@, device_limit));
    let ks22 = ks21.push("deviceLimit"@);
    let vs22 = vs21.push(number_text(device_limit));
    lemma_options_push(ps21, ks21, vs21, qn("deviceLimit"@, device_limit), "deviceLimit"@, number_text(device_limit));
    lemma_apps_list_request_keys();
    assert(ks22 =~= seq!["deviceNames"@, "applicationNames"@, "publishers"@, "categories"@, "versions"@, "search"@, "installDateFrom"@, "installDateTo"@, "sizeMin"@, "sizeMax"@, "usages"@, "catalogs"@, "locations"@, "areas"@, "fleets"@, "rooms"@, "platforms"@, "loadAll"@, "includeArchived"@, "limit"@, "offset"@, "deviceLimit"@]);
    lemma_joined_options(ps22, ks22, vs22);
    lemma_sends_all_pop(joined(ps22), ks21, vs21, "deviceLimit"@, number_text(device_limit));
    lemma_sends_all_pop(joined(ps22), ks20, vs20, "offset"@, number_text(offset));
    lemma_sends_all_pop(joined(ps22), ks19, vs19, "limit"@, number_text(limit));
    lemma_sends_all_pop(joined(ps22), ks18, vs18, "includeArchived"@, flag_value(include_archived));
    lemma_sends_all_pop(joined(ps22), ks17, vs17, "loadAll"@, flag_value(load_all));
    lemma_sends_all_pop(joined(ps22), ks16, vs16, "platforms"@, string_text(filters.platforms));
    lemma_sends_all_pop(joined(ps22), ks15, vs15, "rooms"@, string_text(filters.rooms));
    lemma_sends_all_pop(joined(ps22), ks14, vs14, "fleets"@, string_text(filters.fleets));
    lemma_sends_all_pop(joined(ps22), ks13, vs13, "areas"@, string_text(filters.areas));
    lemma_sends_all_pop(joined(ps22), ks12, vs12, "locations"@, string_text(filters.locations));
    lemma_sends_all_pop(joined(ps22), ks11, vs11, "catalogs"@, string_text(filters.catalogs));
    lemma_sends_all_pop(joined(ps22), ks10, vs10, "usages"@, string_text(filters.usages));
    lemma_sends_all_pop(joined(ps22), ks9, vs9, "sizeMax"@, number64_text(size_max));
    lemma_sends_all_pop(joined(ps22), ks8, vs8, "sizeMin"@, number64_text(size_min));
    lemma_sends_all_pop(joined(ps22), ks7, vs7, "installDateTo"@, string_text(installed_to));
    lemma_sends_all_pop(joined(ps22), ks6, vs6, "installDateFrom"@, string_text(installed_from));
    lemma_sends_all_pop(joined(ps22), ks5, vs5, "search"@, string_text(search));
    lemma_sends_all_pop(joined(ps22), ks4, vs4, "versions"@, string_text(versions));
    lemma_sends_all_pop(joined(ps22), ks3, vs3, "categories"@, string_text(categories));
    lemma_sends_all_pop(joined(ps22), ks2, vs2, "publishers"@, string_text(publishers));
    lemma_sends_all_pop(joined(ps22), ks1, vs1, "applicationNames"@, string_text(names));
    lemma_sends_all_pop(joined(ps22), ks0, vs0, "deviceNames"@, string_text(devices));
    assert(Seq::<(Seq<char>, Seq<char>)>::empty() + opt_pair("deviceNames"@, devices) =~= opt_pair("deviceNames"@, devices));
    assert(joined(ps22) =~= opt_pair("deviceNames"@, devices) + opt_pair("applicationNames"@, names) + opt_pair("publishers"@, publishers) + opt_pair("categories"@, categories) + opt_pair("versions"@, versions) + opt_pair("search"@, search) + opt_pair("installDateFrom"@, installed_from) + opt_pair("installDateTo"@, installed_to) + qn64("sizeMin"@, size_min) + qn64("sizeMax"@, size_max) + opt_pair("usages"@, filters.usages) + opt_pair("catalogs"@, filters.catalogs) + opt_pair("locations"@, filters.locations) + opt_pair("areas"@, filters.areas) + opt_pair("fleets"@, filters.fleets) + opt_pair("rooms"@, filters.rooms) + opt_pair("platforms"@, filters.platforms) + qf("loadAll"@, load_all) + qf("includeArchived"@, include_archived) + qn("limit"@, limit) + qn("offset"@, offset) + qn("deviceLimit"@, device_limit));
}

proof fn lemma_apps_list_request_order(devices: Option<String>, names: Option<String>, publishers: Option<String>, categories: Option<String>, versions: Option<String>, search: Option<String>, installed_from: Option<String>, installed_to: Option<String>, size_min: Option<u64>, size_max: Option<u64>, filters: InventoryFilters, load_all: bool, include_archived: bool, limit: Option<u32>, offset: Option<u32>, device_limit: Option<u32>)
    ensures
        list_pairs_a(devices, names, publishers, categories) + list_pairs_b(versions, search, installed_from, installed_to) + list_pairs_c(size_min, size_max, filters) + list_pairs_d(load_all, include_archived, limit, offset, device_limit) == opt_pair("deviceNames"@, devices) + opt_pair("applicationNames"@, names) + opt_pair("publishers"@, publishers) + opt_pair("categories"@, categories) + opt_pair("versions"@, versions) + opt_pair("search"@, search) + opt_pair("installDateFrom"@, installed_from) + opt_pair("installDateTo"@, installed_to) + qn64("sizeMin"@, size_min) + qn64("sizeMax"@, size_max) + opt_pair("usages"@, filters.usages) + opt_pair("catalogs"@, filters.catalogs) + opt_pair("locations"@, filters.locations) + opt_pair("areas"@, filters.areas) + opt_pair("fleets"@, filters.fleets) + opt_pair("rooms"@, filters.rooms) + opt_pair("platforms"@, filters.platforms) + qf("loadAll"@, load_all) + qf("includeArchived"@, include_archived) + qn("limit"@, limit) + qn("offset"@, offset) + qn("deviceLimit"@, device_limit),
{
    assert(list_pairs_a(devices, names, publishers, categories) + list_pairs_b(versions, search, installed_from, installed_to) + list_pairs_c(size_min, size_max, filters) + list_pairs_d(load_all, include_archived, limit, offset, device_limit) == ((((((opt_pair("deviceNames"@, devices) + opt_pair("applicationNames"@, names)) + opt_pair("publishers"@, publishers)) + opt_pair("categories"@, categories)) + (((opt_pair("versions"@, versions) + opt_pair("search"@, search)) + opt_pair("installDateFrom"@, installed_from)) + opt_pair("installDateTo"@, installed_to))) + ((qn64("sizeMin"@, size_min) + qn64("sizeMax"@, size_max)) + ((((((opt_pair("usages"@, filters.usages) + opt_pair("catalogs"@, filters.catalogs)) + opt_pair("locations"@, filters.locations)) + opt_pair("areas"@, filters.areas)) + opt_pair("fleets"@, filters.fleets)) + opt_pair("rooms"@, filters.rooms)) + opt_pair("platforms"@, filters.platforms)))) + ((((qf("loadAll"@, load_all) + qf("includeArchived"@, include_archived)) + qn("limit"@, limit)) + qn("offset"@, offset)) + qn("deviceLimit"@, device_limit))));
    lemma_assoc(opt_pair("deviceNames"@, devices) + opt_pair("applicationNames"@, names) + opt_pair("publishers"@, publishers) + opt_pair("categories"@, categories), ((opt_pair("versions"@, versions) + opt_pair("search"@, search)) + opt_pair("installDateFrom"@, installed_from)), opt_pair("installDateTo"@, installed_to));
    lemma_assoc(opt_pair("deviceNames"@, devices) + opt_pair("applicationNames"@, names) + opt_pair("publishers"@, publishers) + opt_pair("categories"@, categories), (opt_pair("versions"@, versions) + opt_pair("search"@, search)), opt_pair("installDateFrom"@, installed_from));
    lemma_assoc(opt_pair("deviceNames"@, devices) + opt_pair("applicationNames"@, names) + opt_pair("publishers"@, publishers) + opt_pair("categories"@, categories), opt_pair("versions"@, versions), opt_pair("search"@, search));
    lemma_assoc(opt_pair("deviceNames"@, devices) + opt_pair("applicationNames"@, names) + opt_pair("publishers"@, publishers) + opt_pair("categories"@, categories) + opt_pair("versions"@, versions) + opt_pair("search"@, search) + opt_pair("installDateFrom"@, installed_from) + opt_pair("installDateTo"@, installed_to), (qn64("sizeMin"@, size_min) + qn64("sizeMax"@, size_max)), ((((((opt_pair("usages"@, filters.usages) + opt_pair("catalogs"@, filters.catalogs)) + opt_pair("locations"@, filters.locations)) + opt_pair("areas"@, filters.areas)) + opt_pair("fleets"@, filters.fleets)) + opt_pair("rooms"@, filters.rooms)) + opt_pair("platforms"@, filters.platforms)));
    lemma_assoc(opt_pair("deviceNames"@, devices) + opt_pair("applicationNames"@, names) + opt_pair("publishers"@, publishers) + opt_pair("categories"@, categories) + opt_pair("versions"@, versions) + opt_pair("search"@, search) + opt_pair("installDateFrom"@, installed_from) + opt_pair("installDateTo"@, installed_to), qn64("sizeMin"@, size_min), qn64("sizeMax"@, size_max));
    lemma_assoc(opt_pair("deviceNames"@, devices) + opt_pair("applicationNames"@, names) + opt_pair("publishers"@, publishers) + opt_pair("categories"@, categories) + opt_pair("versions"@, versions) + opt_pair("search"@, search) + opt_pair("installDateFrom"@, installed_from) + opt_pair("installDateTo"@, installed_to) + qn64("sizeMin"@, size_min) + qn64("sizeMax"@, size_max), (((((opt_pair("usages"@, filters.usages) + opt_pair("catalogs"@, filters.catalogs)) + opt_pair("locations"@, filters.locations)) + opt_pair("areas"@, filters.areas)) + opt_pair("fleets"@, filters.fleets)) + opt_pair("rooms"@, filters.rooms)), opt_pair("platforms"@, filters.platforms));
    lemma_assoc(opt_pair("deviceNames"@, devices) + opt_pair("applicationNames"@, names) + opt_pair("publishers"@, publishers) + opt_pair("categories"@, categories) + opt_pair("versions"@, versions) + opt_pair("search"@, search) + opt_pair("installDateFrom"@, installed_from) + opt_pair("installDateTo"@, installed_to) + qn64("sizeMin"@, size_min) + qn64("sizeMax"@, size_max), ((((opt_pair("usages"@, filters.usages) + opt_pair("catalogs"@, filters.catalogs)) + opt_pair("locations"@, filters.locations)) + opt_pair("areas"@, filters.areas)) + opt_pair("fleets"@, filters.fleets)), opt_pair("rooms"@, filters.rooms));
    lemma_assoc(opt_pair("deviceNames"@, devices) + opt_pair("applicationNames"@, names) + opt_pair("publishers"@, publishers) + opt_pair("categories"@, categories) + opt_pair("versions"@, versions) + opt_pair("search"@, search) + opt_pair("installDateFrom"@, installed_from) + opt_pair("installDateTo"@, installed_to) + qn64("sizeMin"@, size_min) + qn64("sizeMax"@, size_max), (((opt_pair("usages"@, filters.usages) + opt_pair("catalogs"@, filters.catalogs)) + opt_pair("locations"@, filters.locations)) + opt_pair("areas"@, filters.areas)), opt_pair("fleets"@, filters.fleets));
    lemma_assoc(opt_pair("deviceNames"@, devices) + opt_pair("applicationNames"@, names) + opt_pair("publishers"@, publishers) + opt_pair("categories"@, categories) + opt_pair("versions"@, versions) + opt_pair("search"@, search) + opt_pair("installDateFrom"@, installed_from) + opt_pair("installDateTo"@, installed_to) + qn64("sizeMin"@, size_min) + qn64("sizeMax"@, size_max), ((opt_pair("usages"@, filters.usages) + opt_pair("catalogs"@, filters.catalogs)) + opt_pair("locations"@, filters.locations)), opt_pair("areas"@, filters.areas));
    lemma_assoc(opt_pair("deviceNames"@, devices) + opt_pair("applicationNames"@, names) + opt_pair("publishers"@, publishers) + opt_pair("categories"@, categories) + opt_pair("versions"@, versions) + opt_pair("search"@, search) + opt_pair("installDateFrom"@, installed_from) + opt_pair("installDateTo"@, installed_to) + qn64("sizeMin"@, size_min) + qn64("sizeMax"@, size_max), (opt_pair("usages"@, filters.usages) + opt_pair("catalogs"@, filters.catalogs)), opt_pair("locations"@, filters.locations));
    lemma_assoc(opt_pair("deviceNames"@, devices) + opt_pair("applicationNames"@, names) + opt_pair("publishers"@, publishers) + opt_pair("categories"@, categories) + opt_pair("versions"@, versions) + opt_pair("search"@, search) + opt_pair("installDateFrom"@, installed_from) + opt_pair("installDateTo"@, installed_to) + qn64("sizeMin"@, size_min) + qn64("sizeMax"@, size_max), opt_pair("usages"@, filters.usages), opt_pair("catalogs"@, filters.catalogs));
    lemma_assoc(opt_pair("deviceNames"@, devices) + opt_pair("applicationNames"@, names) + opt_pair("publishers"@, publishers) + opt_pair("categories"@, categories) + opt_pair("versions"@, versions) + opt_pair("search"@, search) + opt_pair("installDateFrom"@, installed_from) + opt_pair("installDateTo"@, installed_to) + qn64("sizeMin"@, size_min) + qn64("sizeMax"@, size_max) + opt_pair("usages"@, filters.usages) + opt_pair("catalogs"@, filters.catalogs) + opt_pair("locations"@, filters.locations) + opt_pair("areas"@, filters.areas) + opt_pair("fleets"@, filters.fleets) + opt_pair("rooms"@, filters.rooms) + opt_pair("platforms"@, filters.platforms), (((qf("loadAll"@, load_all) + qf("includeArchived"@, include_archived)) + qn("limit"@, limit)) + qn("offset"@, offset)), qn("deviceLimit"@, device_limit));
    lemma_assoc(opt_pair("deviceNames"@, devices) + opt_pair("applicationNames"@, names) + opt_pair("publishers"@, publishers) + opt_pair("categories"@, categories) + opt_pair("versions"@, versions) + opt_pair("search"@, search) + opt_pair("installDateFrom"@, installed_from) + opt_pair("installDateTo"@, installed_to) + qn64("sizeMin"@, size_min) + qn64("sizeMax"@, size_max) + opt_pair("usages"@, filters.usages) + opt_pair("catalogs"@, filters.catalogs) + opt_pair("locations"@, filters.locations) + opt_pair("areas"@, filters.areas) + opt_pair("fleets"@, filters.fleets) + opt_pair("rooms"@, filters.rooms) + opt_pair("platforms"@, filters.platforms), ((qf("loadAll"@, load_all) + qf("includeArchived"@, include_archived)) + qn("limit"@, limit)), qn("offset"@, offset));
    lemma_assoc(opt_pair("deviceNames"@, devices) + opt_pair("applicationNames"@, names) + opt_pair("publishers"@, publishers) + opt_pair("categories"@, categories) + opt_pair("versions"@, versions) + opt_pair("search"@, search) + opt_pair("installDateFrom"@, installed_from) + opt_pair("installDateTo"@, installed_to) + qn64("sizeMin"@, size_min) + qn64("sizeMax"@, size_max) + opt_pair("usages"@, filters.usages) + opt_pair("catalogs"@, filters.catalogs) + opt_pair("locations"@, filters.locations) + opt_pair("areas"@, filters.areas) + opt_pair("fleets"@, filters.fleets) + opt_pair("rooms"@, filters.rooms) + opt_pair("platforms"@, filters.platforms), (qf("loadAll"@, load_all) + qf("includeArchived"@, include_archived)), qn("limit"@, limit));
    lemma_assoc(opt_pair("deviceNames"@, devices) + opt_pair("applicationNames"@, names) + opt_pair("publishers"@, publishers) + opt_pair("categories"@, categories) + opt_pair("versions"@, versions) + opt_pair("search"@, search) + opt_pair("installDateFrom"@, installed_from) + opt_pair("installDateTo"@, installed_to) + qn64("sizeMin"@, size_min) + qn64("sizeMax"@, size_max) + opt_pair("usages"@, filters.usages) + opt_pair("catalogs"@, filters.catalogs) + opt_pair("locations"@, filters.locations) + opt_pair("areas"@, filters.areas) + opt_pair("fleets"@, filters.fleets) + opt_pair("rooms"@, filters.rooms) + opt_pair("platforms"@, filters.platforms), qf("loadAll"@, load_all), qf("includeArchived"@, include_archived));
}

/// `apps list`: every filter and page option that is given with its value,
/// `loadAll=true` and `includeArchived=true` exactly when asked for, and
/// nothing else.
pub proof fn law_apps_list_request(devices: Option<String>, names: Option<String>, publishers: Option<String>, categories: Option<String>, versions: Option<String>, search: Option<String>, installed_from: Option<String>, installed_to: Option<String>, size_min: Option<u64>, size_max: Option<u64>, filters: InventoryFilters, load_all: bool, include_archived: bool, limit: Option<u32>, offset: Option<u32>, device_limit: Option<u32>)
    ensures
        ({
            let base = "/api/v1/applications"@;
            let t = apps_target(AppsCommand::List { devices, names, publishers, categories, versions, search, installed_from, installed_to, size_min, size_max, filters, load_all, include_archived, limit, offset, device_limit });
            let ps = query_pairs(t, base);
            &&& has_prefix(t, base)
            &&& sends_opt(ps, "deviceNames"@, string_text(devices))
            &&& sends_opt(ps, "applicationNames"@, string_text(names))
            &&& sends_opt(ps, "publishers"@, string_text(publishers))
            &&& sends_opt(ps, "categories"@, string_text(categories))
            &&& sends_opt(ps, "versions"@, string_text(versions))
            &&& sends_opt(ps, "search"@, string_text(search))
            &&& sends_opt(ps, "installDateFrom"@, string_text(installed_from))
            &&& sends_opt(ps, "installDateTo"@, string_text(installed_to))
            &&& sends_opt(ps, "sizeMin"@, number64_text(size_min))
            &&& sends_opt(ps, "sizeMax"@, number64_text(size_max))
            &&& sends_opt(ps, "usages"@, string_text(filters.usages))
            &&& sends_opt(ps, "catalogs"@, string_text(filters.catalogs))
            &&& sends_opt(ps, "locations"@, string_text(filters.locations))
            &&& sends_opt(ps, "areas"@, string_text(filters.areas))
            &&& sends_opt(ps, "fleets"@, string_text(filters.fleets))
            &&& sends_opt(ps, "rooms"@, string_text(filters.rooms))
            &&& sends_opt(ps, "platforms"@, string_text(filters.platforms))
            &&& sends_flag(ps, "loadAll"@, load_all)
            &&& sends_flag(ps, "includeArchived"@, include_archived)
            &&& sends_opt(ps, "limit"@, number_text(limit))
            &&& sends_opt(ps, "offset"@, number_text(offset))
            &&& sends_opt(ps, "deviceLimit"@, number_text(device_limit))
            &&& only_keys(ps, seq!["deviceNames"@, "applicationNames"@, "publishers"@, "categories"@, "versions"@, "search"@, "installDateFrom"@, "installDateTo"@, "sizeMin"@, "sizeMax"@, "usages"@, "catalogs"@, "locations"@, "areas"@, "fleets"@, "rooms"@, "platforms"@, "loadAll"@, "includeArchived"@, "limit"@, "offset"@, "deviceLimit"@])
        }),
{
    lemma_apps_list_request_pairs(devices, names, publishers, categories, versions, search, installed_from, installed_to, size_min, size_max, filters, load_all, include_archived, limit, offset, device_limit);
    lemma_apps_list_request_order(devices, names, publishers, categories, versions, search, installed_from, installed_to, size_min, size_max, filters, load_all, include_archived, limit, offset, device_limit);
    let ps = opt_pair("deviceNames"@, devices) + opt_pair("applicationNames"@, names) + opt_pair("publishers"@, publishers) + opt_pair("categories"@, categories) + opt_pair("versions"@, versions) + opt_pair("search"@, search) + opt_pair("installDateFrom"@, installed_from) + opt_pair("installDateTo"@, installed_to) + qn64("sizeMin"@, size_min) + qn64("sizeMax"@, size_max) + opt_pair("usages"@, filters.usages) + opt_pair("catalogs"@, filters.catalogs) + opt_pair("locations"@, filters.locations) + opt_pair("areas"@, filters.areas) + opt_pair("fleets"@, filters.fleets) + opt_pair("rooms"@, filters.rooms) + opt_pair("platforms"@, filters.platforms) + qf("loadAll"@, load_all) + qf("includeArchived"@, include_archived) + qn("limit"@, limit) + qn("offset"@, offset) + qn("deviceLimit"@, device_limit);
    assert(apps_target(AppsCommand::List { devices, names, publishers, categories, versions, search, installed_from, installed_to, size_min, size_max, filters, load_all, include_archived, limit, offset, device_limit }) == "/api/v1/applications"@ + query_text(ps));
    lemma_query_pairs("/api/v1/applications"@, ps);
}

proof fn lemma_events_failures_request_keys()
    ensures
        all_distinct(seq!["limit"@, "offset"@, "serial"@, "reason"@, "hours"@, "outcome"@]),
{
    reveal_strlit("hours");
    reveal_strlit("limit");
    reveal_strlit("offset");
    reveal_strlit("outcome");
    reveal_strlit("reason");
    reveal_strlit("serial");
    lemma_options_empty();
    let ks0 = Seq::<Seq<char>>::empty();
    let ks1 = ks0.push("limit"@);
    let ks2 = ks1.push("offset"@);
    let ks3 = ks2.push("serial"@);
    let ks4 = ks3.push("reason"@);
    let ks5 = ks4.push("hours"@);
    let ks6 = ks5.push("outcome"@);
    lemma_distinct_push(ks0, "limit"@);
    lemma_ne("limit"@, "offset"@, 0);
    lemma_not_has_push(ks0, "limit"@, "offset"@);
    lemma_distinct_push(ks1, "offset"@);
    lemma_ne("limit"@, "serial"@, 0);
    lemma_not_has_push(ks0, "limit"@, "serial"@);
    lemma_ne("offset"@, "serial"@, 0);
    lemma_not_has_push(ks1, "offset"@, "serial"@);
    lemma_distinct_push(ks2, "serial"@);
    lemma_ne("limit"@, "reason"@, 0);
    lemma_not_has_push(ks0, "limit"@, "reason"@);
    lemma_ne("offset"@, "reason"@, 0);
    lemma_not_has_push(ks1, "offset"@, "reason"@);
    lemma_ne("serial"@, "reason"@, 0);
    lemma_not_has_push(ks2, "serial"@, "reason"@);
    lemma_distinct_push(ks3, "reason"@);
    lemma_ne("limit"@, "hours"@, 0);
    lemma_not_has_push(ks0, "limit"@, "hours"@);
    lemma_ne("offset"@, "hours"@, 0);
    lemma_not_has_push(ks1, "offset"@, "hours"@);
    lemma_ne("serial"@, "hours"@, 0);
    lemma_not_has_push(ks2, "serial"@, "hours"@);
    lemma_ne("reason"@, "hours"@, 0);
    lemma_not_has_push(ks3, "reason"@, "hours"@);
    lemma_distinct_push(ks4, "hours"@);
    lemma_ne("limit"@, "outcome"@, 0);
    lemma_not_has_push(ks0, "limit"@, "outcome"@);
    lemma_ne("offset"@, "outcome"@, 0);
    lemma_not_has_push(ks1, "offset"@, "outcome"@);
    lemma_ne("serial"@, "outcome"@, 0);
    lemma_not_has_push(ks2, "serial"@, "outcome"@);
    lemma_ne("reason"@, "outcome"@, 0);
    lemma_not_has_push(ks3, "reason"@, "outcome"@);
    lemma_ne("hours"@, "outcome"@, 0);
    lemma_not_has_push(ks4, "hours"@, "outcome"@);
    lemma_distinct_push(ks5, "outcome"@);
    assert(ks6 =~= seq!["limit"@, "offset"@, "serial"@, "reason"@, "hours"@, "outcome"@]);
}

proof fn lemma_events_failures_request_pairs(limit: Option<u32>, offset: Option<u32>, serial: Option<String>, reason: Option<String>, hours: Option<u32>, outcome: Option<String>)
    ensures
        sends_opt(qn("limit"@, limit) + qn("offset"@, offset) + opt_pair("serial"@, serial) + opt_pair("reason"@, reason) + qn("hours"@, hours) + opt_pair("outcome"@, outcome), "limit"@, number_text(limit)),
        sends_opt(qn("limit"@, limit) + qn("offset"@, offset) + opt_pair("serial"@, serial) + opt_pair("reason"@, reason) + qn("hours"@, hours) + opt_pair("outcome"@, outcome), "offset"@, number_text(offset)),
        sends_opt(qn("limit"@, limit) + qn("offset"@, offset) + opt_pair("serial"@, serial) + opt_pair("reason"@, reason) + qn("hours"@, hours) + opt_pair("outcome"@, outcome), "serial"@, string_text(serial)),
        sends_opt(qn("limit"@, limit) + qn("offset"@, offset) + opt_pair("serial"@, serial) + opt_pair("reason"@, reason) + qn("hours"@, hours) + opt_pair("outcome"@, outcome), "reason"@, string_text(reason)),
        sends_opt(qn("limit"@, limit) + qn("offset"@, offset) + opt_pair("serial"@, serial) + opt_pair("reason"@, reason) + qn("hours"@, hours) + opt_pair("outcome"@, outcome), "hours"@, number_text(hours)),
        sends_opt(qn("limit"@, limit) + qn("offset"@, offset) + opt_pair("serial"@, serial) + opt_pair("reason"@, reason) + qn("hours"@, hours) + opt_pair("outcome"@, outcome), "outcome"@, string_text(outcome)),
        only_keys(qn("limit"@, limit) + qn("offset"@, offset) + opt_pair("serial"@, serial) + opt_pair("reason"@, reason) + qn("hours"@, hours) + opt_pair("outcome"@, outcome), seq!["limit"@, "offset"@, "serial"@, "reason"@, "hours"@, "outcome"@]),
{
    lemma_sources("limit"@, limit, None, false, None, seq![]);
    lemma_sources("offset"@, offset, None, false, None, seq![]);
    lemma_sources("serial"@, None, None, false, serial, seq![]);
    lemma_sources("reason"@, None, None, false, reason, seq![]);
    lemma_sources("hours"@, hours, None, false, None, seq![]);
    lemma_sources("outcome"@, None, None, false, outcome, seq![]);
    lemma_options_empty();
    let ps0 = Seq::<Seq<(Seq<char>, Seq<char>)>>::empty();
    let ks0 = Seq::<Seq<char>>::empty();
    let vs0 = Seq::<Option<Seq<char>>>::empty();
    let ps1 = ps0.push(qn("limit"@, limit));
    let ks1 = ks0.push("limit"@);
    let vs1 = vs0.push(number_text(limit));
    lemma_options_push(ps0, ks0, vs0, qn("limit"@, limit), "limit"@, number_text(limit));
    let ps2 = ps1.push(qn("offset"@, offset));
    let ks2 = ks1.push("offset"@);
    let vs2 = vs1.push(number_text(offset));
    lemma_options_push(ps1, ks1, vs1, qn("offset"@, offset), "offset"@, number_text(offset));
    let ps3 = ps2.push(opt_pair("serial"@, serial));
    let ks3 = ks2.push("serial"@);
    let vs3 = vs2.push(string_text(serial));
    lemma_options_push(ps2, ks2, vs2, opt_pair("serial"@, serial), "serial"@, string_text(serial));
    let ps4 = ps3.push(opt_pair("reason"@, reason));
    let ks4 = ks3.push("reason"@);
    let vs4 = vs3.push(string_text(reason));
    lemma_options_push(ps3, ks3, vs3, opt_pair("reason"@, reason), "reason"@, string_text(reason));
    let ps5 = ps4.push(qn("hours"@, hours));
    let ks5 = ks4.push("hours"@);
    let vs5 = vs4.push(number_text(hours));
    lemma_options_push(ps4, ks4, vs4, qn("hours"@, hours), "hours"@, number_text(hours));
    let ps6 = ps5.push(opt_pair("outcome"@, outcome));
    let ks6 = ks5.push("outcome"@);
    let vs6 = vs5.push(string_text(outcome));
    lemma_options_push(ps5, ks5, vs5, opt_pair("outcome"@, outcome), "outcome"@, string_text(outcome));
    lemma_events_failures_request_keys();
    assert(ks6 =~= seq!["limit"@, "offset"@, "serial"@, "reason"@, "hours"@, "outcome"@]);
    lemma_joined_options(ps6, ks6, vs6);
    lemma_sends_all_pop(joined(ps6), ks5, vs5, "outcome"@, string_text(outcome));
    lemma_sends_all_pop(joined(ps6), ks4, vs4, "hours"@, number_text(hours));
    lemma_sends_all_pop(joined(ps6), ks3, vs3, "reason"@, string_text(reason));
    lemma_sends_all_pop(joined(ps6), ks2, vs2, "serial"@, string_text(serial));
    lemma_sends_all_pop(joined(ps6), ks1, vs1, "offset"@, number_text(offset));
    lemma_sends_all_pop(joined(ps6), ks0, vs0, "limit"@, number_text(limit));
    assert(Seq::<(Seq<char>, Seq<char>)>::empty() + qn("limit"@, limit) =~= qn("limit"@, limit));
    assert(joined(ps6) =~= qn("limit"@, limit) + qn("offset"@, offset) + opt_pair("serial"@, serial) + opt_pair("reason"@, reason) + qn("hours"@, hours) + opt_pair("outcome"@, outcome));
}

/// `events failures`: the limit, offset, serial, reason, hours and outcome
/// each exactly when given, and nothing else; a `GET` with no body.
pub proof fn law_events_failures_request(limit: Option<u32>, offset: Option<u32>, serial: Option<String>, reason: Option<String>, hours: Option<u32>, outcome: Option<String>)
    ensures
        events_plan(EventsCommand::Failures { limit, offset, serial, reason, hours, outcome }) matches Ok(c) && c.method == HttpMethod::Get && c.body is None && ({
            let base = "/api/v1/events/failures"@;
            let t = c.target;
            let ps = query_pairs(t, base);
            &&& has_prefix(t, base)
            &&& sends_opt(ps, "limit"@, number_text(limit))
            &&& sends_opt(ps, "offset"@, number_text(offset))
            &&& sends_opt(ps, "serial"@, string_text(serial))
            &&& sends_opt(ps, "reason"@, string_text(reason))
            &&& sends_opt(ps, "hours"@, number_text(hours))
            &&& sends_opt(ps, "outcome"@, string_text(outcome))
            &&& only_keys(ps, seq!["limit"@, "offset"@, "serial"@, "reason"@, "hours"@, "outcome"@])
        }),
{
    lemma_events_failures_request_pairs(limit, offset, serial, reason, hours, outcome);
    let ps = qn("limit"@, limit) + qn("offset"@, offset) + opt_pair("serial"@, serial) + opt_pair("reason"@, reason) + qn("hours"@, hours) + opt_pair("outcome"@, outcome);
    assert(events_plan(EventsCommand::Failures { limit, offset, serial, reason, hours, outcome }) == Ok::<CallView, ErrorView>(get_json("/api/v1/events/failures"@ + query_text(ps))));
    lemma_query_pairs("/api/v1/events/failures"@, ps);
}

/// `events payload ID`: a `GET` of that event's payload, the id written in
/// decimal between `/api/v1/events/` and `/payload`, with no query and no body.
pub proof fn law_events_payload_request(event_id: u64)
    ensures
        events_plan(EventsCommand::Payload { event_id }) matches Ok(c) && c.method == HttpMethod::Get
            && c.body is None && c.target == "/api/v1/events/"@ + decimal(event_id as nat) + "/payload"@,
{
}

/// `events submit JSON`: JSON that parses is posted to `/api/v1/events` as
/// its compact form; JSON that does not is refused, named as the payload,
/// and nothing is sent.
pub proof fn law_events_submit_inline(t: String)
    ensures
        json_parse_error(t@) is None ==> (events_plan(EventsCommand::Submit { json: JsonArg::Inline(t) })
            matches Ok(c) && c.method == HttpMethod::Post && c.target == "/api/v1/events"@ && c.body == Some(
            json_compact_text(t@),
        )),
        json_parse_error(t@) matches Some(e) ==> events_plan(EventsCommand::Submit { json: JsonArg::Inline(t) })
            == Err::<CallView, ErrorView>(ErrorView::InvalidJson("payload"@, e)),
{
}

/// `events submit @FILE`: the file's JSON is posted as its compact form; a
/// file that cannot be read is refused with its path and the reason.
pub proof fn law_events_submit_file(path: String, t: String, d: String)
    ensures
        json_parse_error(t@) is None ==> (events_plan(
            EventsCommand::Submit { json: JsonArg::File { path, contents: Ok(t) } },
        ) matches Ok(c) && c.method == HttpMethod::Post && c.target == "/api/v1/events"@ && c.body == Some(
            json_compact_text(t@),
        )),
        events_plan(EventsCommand::Submit { json: JsonArg::File { path, contents: Err(d) } })
            == Err::<CallView, ErrorView>(ErrorView::ReadFile(path@, d@)),
{
}

/// `settings set JSON`: JSON that parses replaces the settings with a `PUT`
/// of its compact form, carrying `X-Updated-By` exactly when a name is
/// given; JSON that does not parse is refused, named as the settings.
pub proof fn law_settings_replace_request(t: String, updated_by: Option<String>)
    ensures
        json_parse_error(t@) is None ==> (settings_plan(
            SettingsCommand::Replace { json: JsonArg::Inline(t), updated_by },
        ) matches Ok(c) && c.method == HttpMethod::Put && c.target == "/api/v1/settings"@ && c.body == Some(
            json_compact_text(t@),
        ) && (updated_by matches Some(u) ==> c.headers == seq![("X-Updated-By"@, u@)]) && (
        updated_by is None ==> c.headers.len() == 0)),
        json_parse_error(t@) matches Some(e) ==> settings_plan(
            SettingsCommand::Replace { json: JsonArg::Inline(t), updated_by },
        ) == Err::<CallView, ErrorView>(ErrorView::InvalidJson("settings"@, e)),
{
}

proof fn lemma_device_events_request_keys()
    ensures
        all_distinct(seq!["limit"@, "type"@]),
{
    reveal_strlit("limit");
    reveal_strlit("type");
    lemma_options_empty();
    let ks0 = Seq::<Seq<char>>::empty();
    let ks1 = ks0.push("limit"@);
    let ks2 = ks1.push("type"@);
    lemma_distinct_push(ks0, "limit"@);
    lemma_ne("limit"@, "type"@, 0);
    lemma_not_has_push(ks0, "limit"@, "type"@);
    lemma_distinct_push(ks1, "type"@);
    assert(ks2 =~= seq!["limit"@, "type"@]);
}

proof fn lemma_device_events_request_pairs(serial: Seq<char>, limit: Option<u32>, kind: Option<String>)
    ensures
        sends_opt(qn("limit"@, limit) + opt_pair("type"@, kind), "limit"@, number_text(limit)),
        sends_opt(qn("limit"@, limit) + opt_pair("type"@, kind), "type"@, string_text(kind)),
        only_keys(qn("limit"@, limit) + opt_pair("type"@, kind), seq!["limit"@, "type"@]),
{
    lemma_sources("limit"@, limit, None, false, None, seq![]);
    lemma_sources("type"@, None, None, false, kind, seq![]);
    lemma_options_empty();
    let ps0 = Seq::<Seq<(Seq<char>, Seq<char>)>>::empty();
    let ks0 = Seq::<Seq<char>>::empty();
    let vs0 = Seq::<Option<Seq<char>>>::empty();
    let ps1 = ps0.push(qn("limit"@, limit));
    let ks1 = ks0.push("limit"@);
    let vs1 = vs0.push(number_text(limit));
    lemma_options_push(ps0, ks0, vs0, qn("limit"@, limit), "limit"@, number_text(limit));
    let ps2 = ps1.push(opt_pair("type"@, kind));
    let ks2 = ks1.push("type"@);
    let vs2 = vs1.push(string_text(kind));
    lemma_options_push(ps1, ks1, vs1, opt_pair("type"@, kind), "type"@, string_text(kind));
    lemma_device_events_request_keys();
    assert(ks2 =~= seq!["limit"@, "type"@]);
    lemma_joined_options(ps2, ks2, vs2);
    lemma_sends_all_pop(joined(ps2), ks1, vs1, "type"@, string_text(kind));
    lemma_sends_all_pop(joined(ps2), ks0, vs0, "limit"@, number_text(limit));
    assert(Seq::<(Seq<char>, Seq<char>)>::empty() + qn("limit"@, limit) =~= qn("limit"@, limit));
    assert(joined(ps2) =~= qn("limit"@, limit) + opt_pair("type"@, kind));
}

/// `device SERIAL events`: the limit and `type` each exactly when given, and
/// nothing else, under the device's own path.
pub proof fn law_device_events_request(serial: Seq<char>, limit: Option<u32>, kind: Option<String>)
    ensures
        device_plan(serial, Some(DeviceCommand::Events { limit, kind })) matches Ok(c) && c.method == HttpMethod::Get && c.body is None && ({
            let base = "/api/v1/device/"@ + serial + "/events"@;
            let t = c.target;
            let ps = query_pairs(t, base);
            &&& has_prefix(t, base)
            &&& sends_opt(ps, "limit"@, number_text(limit))
            &&& sends_opt(ps, "type"@, string_text(kind))
            &&& only_keys(ps, seq!["limit"@, "type"@])
        }),
{
    lemma_device_events_request_pairs(serial, limit, kind);
    let ps = qn("limit"@, limit) + opt_pair("type"@, kind);
    assert(device_plan(serial, Some(DeviceCommand::Events { limit, kind })) == Ok::<CallView, ErrorView>(get_json("/api/v1/device/"@ + serial + "/events"@ + query_text(ps))));
    lemma_query_pairs("/api/v1/device/"@ + serial + "/events"@, ps);
}

proof fn lemma_device_usage_request_keys()
    ensures
        all_distinct(seq!["days"@, "appName"@]),
{
    reveal_strlit("appName");
    reveal_strlit("days");
    lemma_options_empty();
    let ks0 = Seq::<Seq<char>>::empty();
    let ks1 = ks0.push("days"@);
    let ks2 = ks1.push("appName"@);
    lemma_distinct_push(ks0, "days"@);
    lemma_ne("days"@, "appName"@, 0);
    lemma_not_has_push(ks0, "days"@, "appName"@);
    lemma_distinct_push(ks1, "appName"@);
    assert(ks2 =~= seq!["days"@, "appName"@]);
}

proof fn lemma_device_usage_request_pairs(serial: Seq<char>, days: Option<u32>, app: Option<String>)
    ensures
        sends_opt(qn("days"@, days) + opt_pair("appName"@, app), "days"@, number_text(days)),
        sends_opt(qn("days"@, days) + opt_pair("appName"@, app), "appName"@, string_text(app)),
        only_keys(qn("days"@, days) + opt_pair("appName"@, app), seq!["days"@, "appName"@]),
{
    lemma_sources("days"@, days, None, false, None, seq![]);
    lemma_sources("appName"@, None, None, false, app, seq![]);
    lemma_options_empty();
    let ps0 = Seq::<Seq<(Seq<char>, Seq<char>)>>::empty();
    let ks0 = Seq::<Seq<char>>::empty();
    let vs0 = Seq::<Option<Seq<char>>>::empty();
    let ps1 = ps0.push(qn("days"@, days));
    let ks1 = ks0.push("days"@);
    let vs1 = vs0.push(number_text(days));
    lemma_options_push(ps0, ks0, vs0, qn("days"@, days), "days"@, number_text(days));
    let ps2 = ps1.push(opt_pair("appName"@, app));
    let ks2 = ks1.push("appName"@);
    let vs2 = vs1.push(string_text(app));
    lemma_options_push(ps1, ks1, vs1, opt_pair("appName"@, app), "appName"@, string_text(app));
    lemma_device_usage_request_keys();
    assert(ks2 =~= seq!["days"@, "appName"@]);
    lemma_joined_options(ps2, ks2, vs2);
    lemma_sends_all_pop(joined(ps2), ks1, vs1, "appName"@, string_text(app));
    lemma_sends_all_pop(joined(ps2), ks0, vs0, "days"@, number_text(days));
    assert(Seq::<(Seq<char>, Seq<char>)>::empty() + qn("days"@, days) =~= qn("days"@, days));
    assert(joined(ps2) =~= qn("days"@, days) + opt_pair("appName"@, app));
}

/// `device SERIAL usage`: the window and `appName` each exactly when given,
/// and nothing else, under the device's own path.
pub proof fn law_device_usage_request(serial: Seq<char>, days: Option<u32>, app: Option<String>)
    ensures
        device_plan(serial, Some(DeviceCommand::Usage { days, app })) matches Ok(c) && c.method == HttpMethod::Get && c.body is None && ({
            let base = "/api/v1/device/"@ + serial + "/applications/usage/history"@;
            let t = c.target;
            let ps = query_pairs(t, base);
            &&& has_prefix(t, base)
            &&& sends_opt(ps, "days"@, number_text(days))
            &&& sends_opt(ps, "appName"@, string_text(app))
            &&& only_keys(ps, seq!["days"@, "appName"@])
        }),
{
    lemma_device_usage_request_pairs(serial, days, app);
    let ps = qn("days"@, days) + opt_pair("appName"@, app);
    assert(device_plan(serial, Some(DeviceCommand::Usage { days, app })) == Ok::<CallView, ErrorView>(get_json("/api/v1/device/"@ + serial + "/applications/usage/history"@ + query_text(ps))));
    lemma_query_pairs("/api/v1/device/"@ + serial + "/applications/usage/history"@, ps);
}

// ------------------------------------------------------------ raw calls

/// `raw PATH -d JSON`: the call uses the method asked for, sends the JSON
/// given inline as its body (compact, as `serde_json` writes the value),
/// and its query string reads back as the `--param` pairs in order.
pub proof fn law_raw_sends_its_inline_body(
    output: OutputFormat,
    path: String,
    method: HttpMethod,
    t: String,
    params: Vec<String>,
    pp: Seq<(Seq<char>, Seq<char>)>,
)
    requires
        has_prefix(path@, "/"@),
        param_pairs(params@) == Some(pp),
        json_parse_error(t@) is None,
    ensures
        plan_spec(Cli { output, command: Command::Raw { path, method, data: Some(JsonArg::Inline(t)), params } })
            matches Ok(PlanView::Call(c, r)) && r == RenderView::Raw && c.method == method && c.body == Some(
            json_compact_text(t@),
        ) && has_prefix(c.target, path@) && query_pairs(c.target, path@) == pp,
{
    lemma_query_pairs(path@, pp);
}

/// `raw PATH -d @FILE`: the body is the file's JSON, compact.
pub proof fn law_raw_sends_its_file_body(
    output: OutputFormat,
    path: String,
    method: HttpMethod,
    file: String,
    t: String,
    params: Vec<String>,
    pp: Seq<(Seq<char>, Seq<char>)>,
)
    requires
        has_prefix(path@, "/"@),
        param_pairs(params@) == Some(pp),
        json_parse_error(t@) is None,
    ensures
        plan_spec(
            Cli {
                output,
                command: Command::Raw {
                    path,
                    method,
                    data: Some(JsonArg::File { path: file, contents: Ok(t) }),
                    params,
                },
            },
        ) matches Ok(PlanView::Call(c, r)) && r == RenderView::Raw && c.method == method && c.body == Some(
            json_compact_text(t@),
        ) && has_prefix(c.target, path@) && query_pairs(c.target, path@) == pp,
{
    lemma_query_pairs(path@, pp);
}

/// `raw PATH` without `-d`: no body.
pub proof fn law_raw_without_data_sends_no_body(
    output: OutputFormat,
    path: String,
    method: HttpMethod,
    params: Vec<String>,
    pp: Seq<(Seq<char>, Seq<char>)>,
)
    requires
        has_prefix(path@, "/"@),
        param_pairs(params@) == Some(pp),
    ensures
        plan_spec(Cli { output, command: Command::Raw { path, method, data: None, params } }) matches Ok(
            PlanView::Call(c, r),
        ) && r == RenderView::Raw && c.method == method && c.body is None && has_prefix(c.target, path@)
            && query_pairs(c.target, path@) == pp,
{
    lemma_query_pairs(path@, pp);
}

/// `raw` refuses a path that does not start with `/`, and JSON that does
/// not parse, before anything is sent.
pub proof fn law_raw_refusals(output: OutputFormat, path: String, method: HttpMethod, t: String, params: Vec<String>)
    ensures
        !has_prefix(path@, "/"@) ==> plan_spec(
            Cli { output, command: Command::Raw { path, method, data: Some(JsonArg::Inline(t)), params } },
        ) == Err::<PlanView, ErrorView>(ErrorView::RawPathNotAbsolute),
        has_prefix(path@, "/"@) && json_parse_error(t@) is Some ==> plan_spec(
            Cli { output, command: Command::Raw { path, method, data: Some(JsonArg::Inline(t)), params } },
        ) == Err::<PlanView, ErrorView>(ErrorView::InvalidJson("--data"@, json_parse_error(t@).unwrap())),
{
}

proof fn lemma_module_options_keys()
    ensures
        all_distinct(seq!["includeArchived"@, "limit"@, "offset"@]),
{
    reveal_strlit("includeArchived");
    reveal_strlit("limit");
    reveal_strlit("offset");
    lemma_options_empty();
    let ks0 = Seq::<Seq<char>>::empty();
    let ks1 = ks0.push("includeArchived"@);
    let ks2 = ks1.push("limit"@);
    let ks3 = ks2.push("offset"@);
    lemma_distinct_push(ks0, "includeArchived"@);
    lemma_ne("includeArchived"@, "limit"@, 0);
    lemma_not_has_push(ks0, "includeArchived"@, "limit"@);
    lemma_distinct_push(ks1, "limit"@);
    lemma_ne("includeArchived"@, "offset"@, 0);
    lemma_not_has_push(ks0, "includeArchived"@, "offset"@);
    lemma_ne("limit"@, "offset"@, 0);
    lemma_not_has_push(ks1, "limit"@, "offset"@);
    lemma_distinct_push(ks2, "offset"@);
    assert(ks3 =~= seq!["includeArchived"@, "limit"@, "offset"@]);
}

proof fn lemma_module_options_pairs(include_archived: bool, limit: Option<u32>, offset: Option<u32>)
    ensures
        sends_opt(qf("includeArchived"@, include_archived) + qn("limit"@, limit) + qn("offset"@, offset), "includeArchived"@, flag_value(include_archived)),
        sends_opt(qf("includeArchived"@, include_archived) + qn("limit"@, limit) + qn("offset"@, offset), "limit"@, number_text(limit)),
        sends_opt(qf("includeArchived"@, include_archived) + qn("limit"@, limit) + qn("offset"@, offset), "offset"@, number_text(offset)),
        only_keys(qf("includeArchived"@, include_archived) + qn("limit"@, limit) + qn("offset"@, offset), seq!["includeArchived"@, "limit"@, "offset"@]),
{
    lemma_sources("includeArchived"@, None, None, include_archived, None, seq![]);
    lemma_sources("limit"@, limit, None, false, None, seq![]);
    lemma_sources("offset"@, offset, None, false, None, seq![]);
    lemma_options_empty();
    let ps0 = Seq::<Seq<(Seq<char>, Seq<char>)>>::empty();
    let ks0 = Seq::<Seq<char>>::empty();
    let vs0 = Seq::<Option<Seq<char>>>::empty();
    let ps1 = ps0.push(qf("includeArchived"@, include_archived));
    let ks1 = ks0.push("includeArchived"@);
    let vs1 = vs0.push(flag_value(include_archived));
    lemma_options_push(ps0, ks0, vs0, qf("includeArchived"@, include_archived), "includeArchived"@, flag_value(include_archived));
    let ps2 = ps1.push(qn("limit"@, limit));
    let ks2 = ks1.push("limit"@);
    let vs2 = vs1.push(number_text(limit));
    lemma_options_push(ps1, ks1, vs1, qn("limit"@, limit), "limit"@, number_text(limit));
    let ps3 = ps2.push(qn("offset"@, offset));
    let ks3 = ks2.push("offset"@);
    let vs3 = vs2.push(number_text(offset));
    lemma_options_push(ps2, ks2, vs2, qn("offset"@, offset), "offset"@, number_text(offset));
    lemma_module_options_keys();
    assert(ks3 =~= seq!["includeArchived"@, "limit"@, "offset"@]);
    lemma_joined_options(ps3, ks3, vs3);
    lemma_sends_all_pop(joined(ps3), ks2, vs2, "offset"@, number_text(offset));
    lemma_sends_all_pop(joined(ps3), ks1, vs1, "limit"@, number_text(limit));
    lemma_sends_all_pop(joined(ps3), ks0, vs0, "includeArchived"@, flag_value(include_archived));
    assert(Seq::<(Seq<char>, Seq<char>)>::empty() + qf("includeArchived"@, include_archived) =~= qf("includeArchived"@, include_archived));
    assert(joined(ps3) =~= qf("includeArchived"@, include_archived) + qn("limit"@, limit) + qn("offset"@, offset));
}

/// `module NAME`: the path is the module's name under `/api/v1/`; the query
/// sends `includeArchived=true` exactly when asked, the limit and offset
/// each exactly when given and nothing else of its own, then the `--param`
/// pairs in order.
pub proof fn law_module_request(
    output: OutputFormat,
    name: String,
    include_archived: bool,
    limit: Option<u32>,
    offset: Option<u32>,
    params: Vec<String>,
    pp: Seq<(Seq<char>, Seq<char>)>,
)
    requires
        param_pairs(params@) == Some(pp),
    ensures
        plan_spec(Cli { output, command: Command::Module { name, include_archived, limit, offset, params } })
            matches Ok(PlanView::Call(c, r)) && r == RenderView::Json && c.method == HttpMethod::Get
            && c.body is None && ({
            let base = "/api/v1/"@ + strip_both(name@, '/');
            let ps = query_pairs(c.target, base);
            let own = ps.take(ps.len() - pp.len());
            &&& has_prefix(c.target, base)
            &&& ps.len() >= pp.len()
            &&& ps.skip(ps.len() - pp.len()) == pp
            &&& sends_flag(own, "includeArchived"@, include_archived)
            &&& sends_opt(own, "limit"@, number_text(limit))
            &&& sends_opt(own, "offset"@, number_text(offset))
            &&& only_keys(own, seq!["includeArchived"@, "limit"@, "offset"@])
        }),
{
    lemma_module_options_pairs(include_archived, limit, offset);
    let own = qf("includeArchived"@, include_archived) + qn("limit"@, limit) + qn("offset"@, offset);
    let base = "/api/v1/"@ + strip_both(name@, '/');
    lemma_query_pairs(base, own + pp);
    assert((own + pp).take((own + pp).len() - pp.len()) =~= own);
    assert((own + pp).skip((own + pp).len() - pp.len()) =~= pp);
}

proof fn lemma_date_anomalies_request_keys()
    ensures
        all_distinct(seq!["floor"@, "limit"@]),
{
    reveal_strlit("floor");
    reveal_strlit("limit");
    lemma_options_empty();
    let ks0 = Seq::<Seq<char>>::empty();
    let ks1 = ks0.push("floor"@);
    let ks2 = ks1.push("limit"@);
    lemma_distinct_push(ks0, "floor"@);
    lemma_ne("floor"@, "limit"@, 0);
    lemma_not_has_push(ks0, "floor"@, "limit"@);
    lemma_distinct_push(ks1, "limit"@);
    assert(ks2 =~= seq!["floor"@, "limit"@]);
}

proof fn lemma_date_anomalies_request_pairs(floor: Option<String>, limit: Option<u32>)
    ensures
        sends_opt(opt_pair("floor"@, floor) + qn("limit"@, limit), "floor"@, string_text(floor)),
        sends_opt(opt_pair("floor"@, floor) + qn("limit"@, limit), "limit"@, number_text(limit)),
        only_keys(opt_pair("floor"@, floor) + qn("limit"@, limit), seq!["floor"@, "limit"@]),
{
    lemma_sources("floor"@, None, None, false, floor, seq![]);
    lemma_sources("limit"@, limit, None, false, None, seq![]);
    lemma_options_empty();
    let ps0 = Seq::<Seq<(Seq<char>, Seq<char>)>>::empty();
    let ks0 = Seq::<Seq<char>>::empty();
    let vs0 = Seq::<Option<Seq<char>>>::empty();
    let ps1 = ps0.push(opt_pair("floor"@, floor));
    let ks1 = ks0.push("floor"@);
    let vs1 = vs0.push(string_text(floor));
    lemma_options_push(ps0, ks0, vs0, opt_pair("floor"@, floor), "floor"@, string_text(floor));
    let ps2 = ps1.push(qn("limit"@, limit));
    let ks2 = ks1.push("limit"@);
    let vs2 = vs1.push(number_text(limit));
    lemma_options_push(ps1, ks1, vs1, qn("limit"@, limit), "limit"@, number_text(limit));
    lemma_date_anomalies_request_keys();
    assert(ks2 =~= seq!["floor"@, "limit"@]);
    lemma_joined_options(ps2, ks2, vs2);
    lemma_sends_all_pop(joined(ps2), ks1, vs1, "limit"@, number_text(limit));
    lemma_sends_all_pop(joined(ps2), ks0, vs0, "floor"@, string_text(floor));
    assert(Seq::<(Seq<char>, Seq<char>)>::empty() + opt_pair("floor"@, floor) =~= opt_pair("floor"@, floor));
    assert(joined(ps2) =~= opt_pair("floor"@, floor) + qn("limit"@, limit));
}

/// `admin usage-history date-anomalies`: the floor and limit each exactly
/// when given, and nothing else; a `GET`.
pub proof fn law_date_anomalies_request(floor: Option<String>, limit: Option<u32>)
    ensures
        usage_history_plan(UsageHistoryCommand::DateAnomalies { floor, limit }).0.method == HttpMethod::Get && usage_history_plan(UsageHistoryCommand::DateAnomalies { floor, limit }).0.body is None && ({
            let base = "/api/v1/admin/usage-history/date-anomalies"@;
            let t = usage_history_plan(UsageHistoryCommand::DateAnomalies { floor, limit }).0.target;
            let ps = query_pairs(t, base);
            &&& has_prefix(t, base)
            &&& sends_opt(ps, "floor"@, string_text(floor))
            &&& sends_opt(ps, "limit"@, number_text(limit))
            &&& only_keys(ps, seq!["floor"@, "limit"@])
        }),
{
    lemma_date_anomalies_request_pairs(floor, limit);
    let ps = opt_pair("floor"@, floor) + qn("limit"@, limit);
    assert(usage_history_plan(UsageHistoryCommand::DateAnomalies { floor, limit }).0.target == "/api/v1/admin/usage-history/date-anomalies"@ + query_text(ps));
    lemma_query_pairs("/api/v1/admin/usage-history/date-anomalies"@, ps);
}

proof fn lemma_integrity_request_keys()
    ensures
        all_distinct(seq!["days"@, "sample"@]),
{
    reveal_strlit("days");
    reveal_strlit("sample");
    lemma_options_empty();
    let ks0 = Seq::<Seq<char>>::empty();
    let ks1 = ks0.push("days"@);
    let ks2 = ks1.push("sample"@);
    lemma_distinct_push(ks0, "days"@);
    lemma_ne("days"@, "sample"@, 0);
    lemma_not_has_push(ks0, "days"@, "sample"@);
    lemma_distinct_push(ks1, "sample"@);
    assert(ks2 =~= seq!["days"@, "sample"@]);
}

proof fn lemma_integrity_request_pairs(days: Option<u32>, sample: Option<u32>)
    ensures
        sends_opt(qn("days"@, days) + qn("sample"@, sample), "days"@, number_text(days)),
        sends_opt(qn("days"@, days) + qn("sample"@, sample), "sample"@, number_text(sample)),
        only_keys(qn("days"@, days) + qn("sample"@, sample), seq!["days"@, "sample"@]),
{
    lemma_sources("days"@, days, None, false, None, seq![]);
    lemma_sources("sample"@, sample, None, false, None, seq![]);
    lemma_options_empty();
    let ps0 = Seq::<Seq<(Seq<char>, Seq<char>)>>::empty();
    let ks0 = Seq::<Seq<char>>::empty();
    let vs0 = Seq::<Option<Seq<char>>>::empty();
    let ps1 = ps0.push(qn("days"@, days));
    let ks1 = ks0.push("days"@);
    let vs1 = vs0.push(number_text(days));
    lemma_options_push(ps0, ks0, vs0, qn("days"@, days), "days"@, number_text(days));
    let ps2 = ps1.push(qn("sample"@, sample));
    let ks2 = ks1.push("sample"@);
    let vs2 = vs1.push(number_text(sample));
    lemma_options_push(ps1, ks1, vs1, qn("sample"@, sample), "sample"@, number_text(sample));
    lemma_integrity_request_keys();
    assert(ks2 =~= seq!["days"@, "sample"@]);
    lemma_joined_options(ps2, ks2, vs2);
    lemma_sends_all_pop(joined(ps2), ks1, vs1, "sample"@, number_text(sample));
    lemma_sends_all_pop(joined(ps2), ks0, vs0, "days"@, number_text(days));
    assert(Seq::<(Seq<char>, Seq<char>)>::empty() + qn("days"@, days) =~= qn("days"@, days));
    assert(joined(ps2) =~= qn("days"@, days) + qn("sample"@, sample));
}

/// `admin usage-history integrity`: the window and sample size each exactly
/// when given, and nothing else; a `GET`.
pub proof fn law_integrity_request(days: Option<u32>, sample: Option<u32>)
    ensures
        usage_history_plan(UsageHistoryCommand::Integrity { days, sample }).0.method == HttpMethod::Get && usage_history_plan(UsageHistoryCommand::Integrity { days, sample }).0.body is None && ({
            let base = "/api/v1/admin/usage-history/integrity"@;
            let t = usage_history_plan(UsageHistoryCommand::Integrity { days, sample }).0.target;
            let ps = query_pairs(t, base);
            &&& has_prefix(t, base)
            &&& sends_opt(ps, "days"@, number_text(days))
            &&& sends_opt(ps, "sample"@, number_text(sample))
            &&& only_keys(ps, seq!["days"@, "sample"@])
        }),
{
    lemma_integrity_request_pairs(days, sample);
    let ps = qn("days"@, days) + qn("sample"@, sample);
    assert(usage_history_plan(UsageHistoryCommand::Integrity { days, sample }).0.target == "/api/v1/admin/usage-history/integrity"@ + query_text(ps));
    lemma_query_pairs("/api/v1/admin/usage-history/integrity"@, ps);
}

proof fn lemma_export_request_keys()
    ensures
        all_distinct(seq!["from"@, "to"@]),
{
    reveal_strlit("from");
    reveal_strlit("to");
    lemma_options_empty();
    let ks0 = Seq::<Seq<char>>::empty();
    let ks1 = ks0.push("from"@);
    let ks2 = ks1.push("to"@);
    lemma_distinct_push(ks0, "from"@);
    lemma_ne("from"@, "to"@, 0);
    lemma_not_has_push(ks0, "from"@, "to"@);
    lemma_distinct_push(ks1, "to"@);
    assert(ks2 =~= seq!["from"@, "to"@]);
}

proof fn lemma_export_request_pairs(from: String, to: String, out: Option<String>)
    ensures
        sends_opt(qv("from"@, from@) + qv("to"@, to@), "from"@, Some(from@)),
        sends_opt(qv("from"@, from@) + qv("to"@, to@), "to"@, Some(to@)),
        only_keys(qv("from"@, from@) + qv("to"@, to@), seq!["from"@, "to"@]),
{
    lemma_sources("from"@, None, None, false, None, from@);
    lemma_sources("to"@, None, None, false, None, to@);
    lemma_options_empty();
    let ps0 = Seq::<Seq<(Seq<char>, Seq<char>)>>::empty();
    let ks0 = Seq::<Seq<char>>::empty();
    let vs0 = Seq::<Option<Seq<char>>>::empty();
    let ps1 = ps0.push(qv("from"@, from@));
    let ks1 = ks0.push("from"@);
    let vs1 = vs0.push(Some(from@));
    lemma_options_push(ps0, ks0, vs0, qv("from"@, from@), "from"@, Some(from@));
    let ps2 = ps1.push(qv("to"@, to@));
    let ks2 = ks1.push("to"@);
    let vs2 = vs1.push(Some(to@));
    lemma_options_push(ps1, ks1, vs1, qv("to"@, to@), "to"@, Some(to@));
    lemma_export_request_keys();
    assert(ks2 =~= seq!["from"@, "to"@]);
    lemma_joined_options(ps2, ks2, vs2);
    lemma_sends_all_pop(joined(ps2), ks1, vs1, "to"@, Some(to@));
    lemma_sends_all_pop(joined(ps2), ks0, vs0, "from"@, Some(from@));
    assert(Seq::<(Seq<char>, Seq<char>)>::empty() + qv("from"@, from@) =~= qv("from"@, from@));
    assert(joined(ps2) =~= qv("from"@, from@) + qv("to"@, to@));
}

/// `admin usage-history export`: the `from` and `to` dates always, and
/// nothing else; a `GET`.
pub proof fn law_export_request(from: String, to: String, out: Option<String>)
    ensures
        usage_history_plan(UsageHistoryCommand::Export { from, to, out }).0.method == HttpMethod::Get && usage_history_plan(UsageHistoryCommand::Export { from, to, out }).0.body is None && ({
            let base = "/api/v1/admin/usage-history/export"@;
            let t = usage_history_plan(UsageHistoryCommand::Export { from, to, out }).0.target;
            let ps = query_pairs(t, base);
            &&& has_prefix(t, base)
            &&& sends_opt(ps, "from"@, Some(from@))
            &&& sends_opt(ps, "to"@, Some(to@))
            &&& only_keys(ps, seq!["from"@, "to"@])
        }),
{
    lemma_export_request_pairs(from, to, out);
    let ps = qv("from"@, from@) + qv("to"@, to@);
    assert(usage_history_plan(UsageHistoryCommand::Export { from, to, out }).0.target == "/api/v1/admin/usage-history/export"@ + query_text(ps));
    lemma_query_pairs("/api/v1/admin/usage-history/export"@, ps);
}

proof fn lemma_reset_baseline_request_keys()
    ensures
        all_distinct(seq!["before"@, "confirm"@, "reason"@]),
{
    reveal_strlit("before");
    reveal_strlit("confirm");
    reveal_strlit("reason");
    lemma_options_empty();
    let ks0 = Seq::<Seq<char>>::empty();
    let ks1 = ks0.push("before"@);
    let ks2 = ks1.push("confirm"@);
    let ks3 = ks2.push("reason"@);
    lemma_distinct_push(ks0, "before"@);
    lemma_ne("before"@, "confirm"@, 0);
    lemma_not_has_push(ks0, "before"@, "confirm"@);
    lemma_distinct_push(ks1, "confirm"@);
    lemma_ne("before"@, "reason"@, 0);
    lemma_not_has_push(ks0, "before"@, "reason"@);
    lemma_ne("confirm"@, "reason"@, 0);
    lemma_not_has_push(ks1, "confirm"@, "reason"@);
    lemma_distinct_push(ks2, "reason"@);
    assert(ks3 =~= seq!["before"@, "confirm"@, "reason"@]);
}

proof fn lemma_reset_baseline_request_pairs(before: String, confirm: bool, reason: Option<String>)
    ensures
        sends_opt(qv("before"@, before@) + qf("confirm"@, confirm) + opt_pair("reason"@, reason), "before"@, Some(before@)),
        sends_opt(qv("before"@, before@) + qf("confirm"@, confirm) + opt_pair("reason"@, reason), "confirm"@, flag_value(confirm)),
        sends_opt(qv("before"@, before@) + qf("confirm"@, confirm) + opt_pair("reason"@, reason), "reason"@, string_text(reason)),
        only_keys(qv("before"@, before@) + qf("confirm"@, confirm) + opt_pair("reason"@, reason), seq!["before"@, "confirm"@, "reason"@]),
{
    lemma_sources("before"@, None, None, false, None, before@);
    lemma_sources("confirm"@, None, None, confirm, None, seq![]);
    lemma_sources("reason"@, None, None, false, reason, seq![]);
    lemma_options_empty();
    let ps0 = Seq::<Seq<(Seq<char>, Seq<char>)>>::empty();
    let ks0 = Seq::<Seq<char>>::empty();
    let vs0 = Seq::<Option<Seq<char>>>::empty();
    let ps1 = ps0.push(qv("before"@, before@));
    let ks1 = ks0.push("before"@);
    let vs1 = vs0.push(Some(before@));
    lemma_options_push(ps0, ks0, vs0, qv("before"@, before@), "before"@, Some(before@));
    let ps2 = ps1.push(qf("confirm"@, confirm));
    let ks2 = ks1.push("confirm"@);
    let vs2 = vs1.push(flag_value(confirm));
    lemma_options_push(ps1, ks1, vs1, qf("confirm"@, confirm), "confirm"@, flag_value(confirm));
    let ps3 = ps2.push(opt_pair("reason"@, reason));
    let ks3 = ks2.push("reason"@);
    let vs3 = vs2.push(string_text(reason));
    lemma_options_push(ps2, ks2, vs2, opt_pair("reason"@, reason), "reason"@, string_text(reason));
    lemma_reset_baseline_request_keys();
    assert(ks3 =~= seq!["before"@, "confirm"@, "reason"@]);
    lemma_joined_options(ps3, ks3, vs3);
    lemma_sends_all_pop(joined(ps3), ks2, vs2, "reason"@, string_text(reason));
    lemma_sends_all_pop(joined(ps3), ks1, vs1, "confirm"@, flag_value(confirm));
    lemma_sends_all_pop(joined(ps3), ks0, vs0, "before"@, Some(before@));
    assert(Seq::<(Seq<char>, Seq<char>)>::empty() + qv("before"@, before@) =~= qv("before"@, before@));
    assert(joined(ps3) =~= qv("before"@, before@) + qf("confirm"@, confirm) + opt_pair("reason"@, reason));
}

/// `admin usage-history reset-baseline`: the cut-off date always,
/// `confirm=true` exactly when confirmed (else only a preview is asked
/// for), the reason when given, and nothing else; a `POST` with no body.
pub proof fn law_reset_baseline_request(before: String, confirm: bool, reason: Option<String>)
    ensures
        usage_history_plan(UsageHistoryCommand::ResetBaseline { before, confirm, reason }).0.method == HttpMethod::Post && usage_history_plan(UsageHistoryCommand::ResetBaseline { before, confirm, reason }).0.body is None && ({
            let base = "/api/v1/admin/usage-history/reset-baseline"@;
            let t = usage_history_plan(UsageHistoryCommand::ResetBaseline { before, confirm, reason }).0.target;
            let ps = query_pairs(t, base);
            &&& has_prefix(t, base)
            &&& sends_opt(ps, "before"@, Some(before@))
            &&& sends_flag(ps, "confirm"@, confirm)
            &&& sends_opt(ps, "reason"@, string_text(reason))
            &&& only_keys(ps, seq!["before"@, "confirm"@, "reason"@])
        }),
{
    lemma_reset_baseline_request_pairs(before, confirm, reason);
    let ps = qv("before"@, before@) + qf("confirm"@, confirm) + opt_pair("reason"@, reason);
    assert(usage_history_plan(UsageHistoryCommand::ResetBaseline { before, confirm, reason }).0.target == "/api/v1/admin/usage-history/reset-baseline"@ + query_text(ps));
    lemma_query_pairs("/api/v1/admin/usage-history/reset-baseline"@, ps);
}

proof fn lemma_cleanup_request_keys()
    ensures
        all_distinct(seq!["months"@]),
{
    reveal_strlit("months");
    lemma_options_empty();
    let ks0 = Seq::<Seq<char>>::empty();
    let ks1 = ks0.push("months"@);
    lemma_distinct_push(ks0, "months"@);
    assert(ks1 =~= seq!["months"@]);
}

proof fn lemma_cleanup_request_pairs(months: u32)
    ensures
        sends_opt(qv("months"@, decimal(months as nat)), "months"@, Some(decimal(months as nat))),
        only_keys(qv("months"@, decimal(months as nat)), seq!["months"@]),
{
    lemma_sources("months"@, None, None, false, None, decimal(months as nat));
    lemma_options_empty();
    let ps0 = Seq::<Seq<(Seq<char>, Seq<char>)>>::empty();
    let ks0 = Seq::<Seq<char>>::empty();
    let vs0 = Seq::<Option<Seq<char>>>::empty();
    let ps1 = ps0.push(qv("months"@, decimal(months as nat)));
    let ks1 = ks0.push("months"@);
    let vs1 = vs0.push(Some(decimal(months as nat)));
    lemma_options_push(ps0, ks0, vs0, qv("months"@, decimal(months as nat)), "months"@, Some(decimal(months as nat)));
    lemma_cleanup_request_keys();
    assert(ks1 =~= seq!["months"@]);
    lemma_joined_options(ps1, ks1, vs1);
    lemma_sends_all_pop(joined(ps1), ks0, vs0, "months"@, Some(decimal(months as nat)));
    assert(Seq::<(Seq<char>, Seq<char>)>::empty() + qv("months"@, decimal(months as nat)) =~= qv("months"@, decimal(months as nat)));
    assert(joined(ps1) =~= qv("months"@, decimal(months as nat)));
}

/// `admin usage-history cleanup`: the retention in months always, and
/// nothing else; a `DELETE`.
pub proof fn law_cleanup_request(months: u32)
    ensures
        usage_history_plan(UsageHistoryCommand::Cleanup { months }).0.method == HttpMethod::Delete && usage_history_plan(UsageHistoryCommand::Cleanup { months }).0.body is None && ({
            let base = "/api/v1/admin/usage-history/cleanup"@;
            let t = usage_history_plan(UsageHistoryCommand::Cleanup { months }).0.target;
            let ps = query_pairs(t, base);
            &&& has_prefix(t, base)
            &&& sends_opt(ps, "months"@, Some(decimal(months as nat)))
            &&& only_keys(ps, seq!["months"@])
        }),
{
    lemma_cleanup_request_pairs(months);
    let ps = qv("months"@, decimal(months as nat));
    assert(usage_history_plan(UsageHistoryCommand::Cleanup { months }).0.target == "/api/v1/admin/usage-history/cleanup"@ + query_text(ps));
    lemma_query_pairs("/api/v1/admin/usage-history/cleanup"@, ps);
}

proof fn lemma_clear_errors_request_keys()
    ensures
        all_distinct(seq!["days"@, "item_age_days"@]),
{
    reveal_strlit("days");
    reveal_strlit("item_age_days");
    lemma_options_empty();
    let ks0 = Seq::<Seq<char>>::empty();
    let ks1 = ks0.push("days"@);
    let ks2 = ks1.push("item_age_days"@);
    lemma_distinct_push(ks0, "days"@);
    lemma_ne("days"@, "item_age_days"@, 0);
    lemma_not_has_push(ks0, "days"@, "item_age_days"@);
    lemma_distinct_push(ks1, "item_age_days"@);
    assert(ks2 =~= seq!["days"@, "item_age_days"@]);
}

proof fn lemma_clear_errors_request_pairs(days: u32, item_age_days: Option<String>)
    ensures
        sends_opt(qv("days"@, decimal(days as nat)) + opt_pair("item_age_days"@, item_age_days), "days"@, Some(decimal(days as nat))),
        sends_opt(qv("days"@, decimal(days as nat)) + opt_pair("item_age_days"@, item_age_days), "item_age_days"@, string_text(item_age_days)),
        only_keys(qv("days"@, decimal(days as nat)) + opt_pair("item_age_days"@, item_age_days), seq!["days"@, "item_age_days"@]),
{
    lemma_sources("days"@, None, None, false, None, decimal(days as nat));
    lemma_sources("item_age_days"@, None, None, false, item_age_days, seq![]);
    lemma_options_empty();
    let ps0 = Seq::<Seq<(Seq<char>, Seq<char>)>>::empty();
    let ks0 = Seq::<Seq<char>>::empty();
    let vs0 = Seq::<Option<Seq<char>>>::empty();
    let ps1 = ps0.push(qv("days"@, decimal(days as nat)));
    let ks1 = ks0.push("days"@);
    let vs1 = vs0.push(Some(decimal(days as nat)));
    lemma_options_push(ps0, ks0, vs0, qv("days"@, decimal(days as nat)), "days"@, Some(decimal(days as nat)));
    let ps2 = ps1.push(opt_pair("item_age_days"@, item_age_days));
    let ks2 = ks1.push("item_age_days"@);
    let vs2 = vs1.push(string_text(item_age_days));
    lemma_options_push(ps1, ks1, vs1, opt_pair("item_age_days"@, item_age_days), "item_age_days"@, string_text(item_age_days));
    lemma_clear_errors_request_keys();
    assert(ks2 =~= seq!["days"@, "item_age_days"@]);
    lemma_joined_options(ps2, ks2, vs2);
    lemma_sends_all_pop(joined(ps2), ks1, vs1, "item_age_days"@, string_text(item_age_days));
    lemma_sends_all_pop(joined(ps2), ks0, vs0, "days"@, Some(decimal(days as nat)));
    assert(Seq::<(Seq<char>, Seq<char>)>::empty() + qv("days"@, decimal(days as nat)) =~= qv("days"@, decimal(days as nat)));
    assert(joined(ps2) =~= qv("days"@, decimal(days as nat)) + opt_pair("item_age_days"@, item_age_days));
}

/// `admin installs clear-errors`: the days always, the item age when
/// given, and nothing else; a `DELETE`.
pub proof fn law_clear_errors_request(days: u32, item_age_days: Option<String>)
    ensures
        installs_plan(InstallsCommand::ClearErrors { days, item_age_days }).method == HttpMethod::Delete && installs_plan(InstallsCommand::ClearErrors { days, item_age_days }).body is None && ({
            let base = "/api/v1/admin/installs/clear-errors"@;
            let t = installs_plan(InstallsCommand::ClearErrors { days, item_age_days }).target;
            let ps = query_pairs(t, base);
            &&& has_prefix(t, base)
            &&& sends_opt(ps, "days"@, Some(decimal(days as nat)))
            &&& sends_opt(ps, "item_age_days"@, string_text(item_age_days))
            &&& only_keys(ps, seq!["days"@, "item_age_days"@])
        }),
{
    lemma_clear_errors_request_pairs(days, item_age_days);
    let ps = qv("days"@, decimal(days as nat)) + opt_pair("item_age_days"@, item_age_days);
    assert(installs_plan(InstallsCommand::ClearErrors { days, item_age_days }).target == "/api/v1/admin/installs/clear-errors"@ + query_text(ps));
    lemma_query_pairs("/api/v1/admin/installs/clear-errors"@, ps);
}

proof fn lemma_reclassify_request_keys()
    ensures
        all_distinct(seq!["batch"@, "limit"@]),
{
    reveal_strlit("batch");
    reveal_strlit("limit");
    lemma_options_empty();
    let ks0 = Seq::<Seq<char>>::empty();
    let ks1 = ks0.push("batch"@);
    let ks2 = ks1.push("limit"@);
    lemma_distinct_push(ks0, "batch"@);
    lemma_ne("batch"@, "limit"@, 0);
    lemma_not_has_push(ks0, "batch"@, "limit"@);
    lemma_distinct_push(ks1, "limit"@);
    assert(ks2 =~= seq!["batch"@, "limit"@]);
}

proof fn lemma_reclassify_request_pairs(batch: Option<u32>, limit: Option<u32>)
    ensures
        sends_opt(qn("batch"@, batch) + qn("limit"@, limit), "batch"@, number_text(batch)),
        sends_opt(qn("batch"@, batch) + qn("limit"@, limit), "limit"@, number_text(limit)),
        only_keys(qn("batch"@, batch) + qn("limit"@, limit), seq!["batch"@, "limit"@]),
{
    lemma_sources("batch"@, batch, None, false, None, seq![]);
    lemma_sources("limit"@, limit, None, false, None, seq![]);
    lemma_options_empty();
    let ps0 = Seq::<Seq<(Seq<char>, Seq<char>)>>::empty();
    let ks0 = Seq::<Seq<char>>::empty();
    let vs0 = Seq::<Option<Seq<char>>>::empty();
    let ps1 = ps0.push(qn("batch"@, batch));
    let ks1 = ks0.push("batch"@);
    let vs1 = vs0.push(number_text(batch));
    lemma_options_push(ps0, ks0, vs0, qn("batch"@, batch), "batch"@, number_text(batch));
    let ps2 = ps1.push(qn("limit"@, limit));
    let ks2 = ks1.push("limit"@);
    let vs2 = vs1.push(number_text(limit));
    lemma_options_push(ps1, ks1, vs1, qn("limit"@, limit), "limit"@, number_text(limit));
    lemma_reclassify_request_keys();
    assert(ks2 =~= seq!["batch"@, "limit"@]);
    lemma_joined_options(ps2, ks2, vs2);
    lemma_sends_all_pop(joined(ps2), ks1, vs1, "limit"@, number_text(limit));
    lemma_sends_all_pop(joined(ps2), ks0, vs0, "batch"@, number_text(batch));
    assert(Seq::<(Seq<char>, Seq<char>)>::empty() + qn("batch"@, batch) =~= qn("batch"@, batch));
    assert(joined(ps2) =~= qn("batch"@, batch) + qn("limit"@, limit));
}

/// `admin installs reclassify`: the batch size and limit each exactly when
/// given, and nothing else; a `POST` with no body.
pub proof fn law_reclassify_request(batch: Option<u32>, limit: Option<u32>)
    ensures
        installs_plan(InstallsCommand::Reclassify { batch, limit }).method == HttpMethod::Post && installs_plan(InstallsCommand::Reclassify { batch, limit }).body is None && ({
            let base = "/api/v1/admin/installs/reclassify"@;
            let t = installs_plan(InstallsCommand::Reclassify { batch, limit }).target;
            let ps = query_pairs(t, base);
            &&& has_prefix(t, base)
            &&& sends_opt(ps, "batch"@, number_text(batch))
            &&& sends_opt(ps, "limit"@, number_text(limit))
            &&& only_keys(ps, seq!["batch"@, "limit"@])
        }),
{
    lemma_reclassify_request_pairs(batch, limit);
    let ps = qn("batch"@, batch) + qn("limit"@, limit);
    assert(installs_plan(InstallsCommand::Reclassify { batch, limit }).target == "/api/v1/admin/installs/reclassify"@ + query_text(ps));
    lemma_query_pairs("/api/v1/admin/installs/reclassify"@, ps);
}

proof fn lemma_settings_discover_request_keys()
    ensures
        all_distinct(seq!["include_archived"@]),
{
    reveal_strlit("include_archived");
    lemma_options_empty();
    let ks0 = Seq::<Seq<char>>::empty();
    let ks1 = ks0.push("include_archived"@);
    lemma_distinct_push(ks0, "include_archived"@);
    assert(ks1 =~= seq!["include_archived"@]);
}

proof fn lemma_settings_discover_request_pairs(include_archived: bool)
    ensures
        sends_opt(qf("include_archived"@, include_archived), "include_archived"@, flag_value(include_archived)),
        only_keys(qf("include_archived"@, include_archived), seq!["include_archived"@]),
{
    lemma_sources("include_archived"@, None, None, include_archived, None, seq![]);
    lemma_options_empty();
    let ps0 = Seq::<Seq<(Seq<char>, Seq<char>)>>::empty();
    let ks0 = Seq::<Seq<char>>::empty();
    let vs0 = Seq::<Option<Seq<char>>>::empty();
    let ps1 = ps0.push(qf("include_archived"@, include_archived));
    let ks1 = ks0.push("include_archived"@);
    let vs1 = vs0.push(flag_value(include_archived));
    lemma_options_push(ps0, ks0, vs0, qf("include_archived"@, include_archived), "include_archived"@, flag_value(include_archived));
    lemma_settings_discover_request_keys();
    assert(ks1 =~= seq!["include_archived"@]);
    lemma_joined_options(ps1, ks1, vs1);
    lemma_sends_all_pop(joined(ps1), ks0, vs0, "include_archived"@, flag_value(include_archived));
    assert(Seq::<(Seq<char>, Seq<char>)>::empty() + qf("include_archived"@, include_archived) =~= qf("include_archived"@, include_archived));
    assert(joined(ps1) =~= qf("include_archived"@, include_archived));
}

/// `settings discover`: `include_archived=true` exactly when archived
/// devices are asked for, and nothing else; a `GET`.
pub proof fn law_settings_discover_request(include_archived: bool)
    ensures
        settings_plan(SettingsCommand::Discover { include_archived }) matches Ok(c) && c.method == HttpMethod::Get && c.body is None && ({
            let base = "/api/v1/settings/inventory/discover"@;
            let t = c.target;
            let ps = query_pairs(t, base);
            &&& has_prefix(t, base)
            &&& sends_flag(ps, "include_archived"@, include_archived)
            &&& only_keys(ps, seq!["include_archived"@])
        }),
{
    lemma_settings_discover_request_pairs(include_archived);
    let ps = qf("include_archived"@, include_archived);
    assert(settings_plan(SettingsCommand::Discover { include_archived }) == Ok::<CallView, ErrorView>(get_json("/api/v1/settings/inventory/discover"@ + query_text(ps))));
    lemma_query_pairs("/api/v1/settings/inventory/discover"@, ps);
}

proof fn lemma_negotiate_request_keys()
    ensures
        all_distinct(seq!["device"@]),
{
    reveal_strlit("device");
    lemma_options_empty();
    let ks0 = Seq::<Seq<char>>::empty();
    let ks1 = ks0.push("device"@);
    lemma_distinct_push(ks0, "device"@);
    assert(ks1 =~= seq!["device"@]);
}

proof fn lemma_negotiate_request_pairs(output: OutputFormat, device: String)
    ensures
        sends_opt(qv("device"@, device@), "device"@, Some(device@)),
        only_keys(qv("device"@, device@), seq!["device"@]),
{
    lemma_sources("device"@, None, None, false, None, device@);
    lemma_options_empty();
    let ps0 = Seq::<Seq<(Seq<char>, Seq<char>)>>::empty();
    let ks0 = Seq::<Seq<char>>::empty();
    let vs0 = Seq::<Option<Seq<char>>>::empty();
    let ps1 = ps0.push(qv("device"@, device@));
    let ks1 = ks0.push("device"@);
    let vs1 = vs0.push(Some(device@));
    lemma_options_push(ps0, ks0, vs0, qv("device"@, device@), "device"@, Some(device@));
    lemma_negotiate_request_keys();
    assert(ks1 =~= seq!["device"@]);
    lemma_joined_options(ps1, ks1, vs1);
    lemma_sends_all_pop(joined(ps1), ks0, vs0, "device"@, Some(device@));
    assert(Seq::<(Seq<char>, Seq<char>)>::empty() + qv("device"@, device@) =~= qv("device"@, device@));
    assert(joined(ps1) =~= qv("device"@, device@));
}

/// `negotiate`: the device identity always, and nothing else; a `GET`.
pub proof fn law_negotiate_request(output: OutputFormat, device: String)
    ensures
        plan_spec(Cli { output, command: Command::Negotiate { device } }) matches Ok(PlanView::Call(c, _)) && c.method == HttpMethod::Get && c.body is None && ({
            let base = "/api/v1/negotiate"@;
            let t = c.target;
            let ps = query_pairs(t, base);
            &&& has_prefix(t, base)
            &&& sends_opt(ps, "device"@, Some(device@))
            &&& only_keys(ps, seq!["device"@])
        }),
{
    lemma_negotiate_request_pairs(output, device);
    let ps = qv("device"@, device@);
    assert(plan_spec(Cli { output, command: Command::Negotiate { device } }) == Ok::<PlanView, ErrorView>(PlanView::Call(get_json("/api/v1/negotiate"@ + query_text(ps)), RenderView::Json)));
    lemma_query_pairs("/api/v1/negotiate"@, ps);
}

} // verus!
