//! Properties of the library as a whole, proved over the contracts of its
//! functions.
use vstd::prelude::*;
use vstd::utf8::{decode_utf8, encode_utf8, is_ascii_chars, is_ascii_chars_encode_utf8};

use crate::cli::{
    AdminCommand, Cli, Command, DeviceCommand, InstallsCommand, OutputFormat, UsageHistoryCommand,
};
use crate::config::{connection_fields, ConnView, Resolution};
use crate::output::{config_json_text, config_lines, config_report_lines, kind_of};
use crate::error::ErrorView;
use crate::json::json_parse_error;
use crate::query::{encode_byte, hex_digit, is_unreserved, joined_pairs, pair_text, opt_pair, percent_encode, query_text, url_encoded};
use crate::resolve::{
    absorb, app_candidates, candidates, clean_env, cloud_candidates, cloud_choice, entra_candidates, keychain_run, lookup_of, runner_run, LookupView, discovery_on, env_candidates, initial, normalized_url, outcome,
    runner_candidates, settle, Cand, CredView, EnvView, Facts, Platform, ResolverView,
};
use crate::routes::{call_json, plan_spec, qf, qv, usage_history_plan, PlanView, RenderView};
use crate::text::{decimal, digit_char, strip_end};

verus! {

/// A character that a URL component carries as itself.
pub open spec fn is_unreserved_char(c: char) -> bool {
    c <= '\u{7f}' && is_unreserved(c as u8)
}

proof fn lemma_percent_encode_concat(a: Seq<u8>, b: Seq<u8>)
    ensures
        percent_encode(a + b) == percent_encode(a) + percent_encode(b),
    decreases b.len(),
{
    if b.len() == 0 {
        assert(a + b =~= a);
        assert(percent_encode(b) =~= Seq::<char>::empty());
        assert(percent_encode(a) + percent_encode(b) =~= percent_encode(a));
    } else {
        lemma_percent_encode_concat(a, b.drop_last());
        assert((a + b).drop_last() =~= a + b.drop_last());
        assert((a + b).last() == b.last());
        assert(percent_encode(a + b) =~= percent_encode(a) + percent_encode(b));
    }
}

proof fn lemma_char_from_zero(c: char)
    ensures
        '\0' <= c,
{
}

proof fn lemma_encode_utf8_concat(a: Seq<char>, b: Seq<char>)
    ensures
        encode_utf8(a + b) == encode_utf8(a) + encode_utf8(b),
    decreases a.len(),
{
    if a.len() == 0 {
        assert(a + b =~= b);
        assert(encode_utf8(a) =~= Seq::<u8>::empty());
        assert(encode_utf8(a) + encode_utf8(b) =~= encode_utf8(b));
    } else {
        lemma_encode_utf8_concat(a.drop_first(), b);
        assert((a + b).drop_first() =~= a.drop_first() + b);
        assert((a + b)[0] == a[0]);
        assert(encode_utf8(a + b) =~= encode_utf8(a) + encode_utf8(b));
    }
}

proof fn lemma_percent_encode_unreserved(bytes: Seq<u8>)
    requires
        forall|i: int| 0 <= i < bytes.len() ==> is_unreserved(#[trigger] bytes[i]),
    ensures
        percent_encode(bytes) == bytes.map_values(|b: u8| b as char),
    decreases bytes.len(),
{
    if bytes.len() > 0 {
        let init = bytes.drop_last();
        assert forall|i: int| 0 <= i < init.len() implies is_unreserved(#[trigger] init[i]) by {
            assert(init[i] == bytes[i]);
        }
        lemma_percent_encode_unreserved(init);
        assert(is_unreserved(bytes.last()));
        assert(encode_byte(bytes.last()) =~= seq![bytes.last() as char]);
        assert(bytes.map_values(|b: u8| b as char) =~= init.map_values(|b: u8| b as char).push(
            bytes.last() as char,
        ));
    } else {
        assert(bytes.map_values(|b: u8| b as char) =~= Seq::<char>::empty());
    }
}

/// Unreserved characters (`A-Z a-z 0-9 - _ . ~`) pass through URL
/// encoding unchanged.
pub proof fn law_unreserved_unchanged(s: Seq<char>)
    requires
        forall|i: int| 0 <= i < s.len() ==> is_unreserved_char(#[trigger] s[i]),
    ensures
        url_encoded(s) == s,
{
    assert forall|i: int| 0 <= i < s.len() implies '\0' <= #[trigger] s[i] && s[i] <= '\u{7f}' by {
        lemma_char_from_zero(s[i]);
        assert(is_unreserved_char(s[i]));
    }
    assert(is_ascii_chars(s));
    is_ascii_chars_encode_utf8(s);
    let bytes = encode_utf8(s);
    assert forall|i: int| 0 <= i < bytes.len() implies is_unreserved(#[trigger] bytes[i]) by {
        assert(s[i] as u8 == bytes[i]);
        assert(is_unreserved_char(s[i]));
    }
    lemma_percent_encode_unreserved(bytes);
    assert forall|i: int| 0 <= i < s.len() implies (bytes[i] as char) == s[i] by {
        assert(s[i] as u8 == bytes[i]);
        assert(s[i] <= '\u{7f}');
        assert(((s[i] as u8) as char) == s[i]);
    }
    assert(bytes.map_values(|b: u8| b as char) =~= s);
}

/// Every other character is sent as `%XX`, one per byte of its UTF-8
/// encoding: encoding a text is encoding its parts in turn.
pub proof fn law_encoding_is_per_part(a: Seq<char>, b: Seq<char>)
    ensures
        url_encoded(a + b) == url_encoded(a) + url_encoded(b),
{
    lemma_encode_utf8_concat(a, b);
    lemma_percent_encode_concat(encode_utf8(a), encode_utf8(b));
}

/// The value of a hexadecimal digit (`0-9`, `A-F`).
pub open spec fn hex_value(c: char) -> int {
    if '0' <= c && c <= '9' {
        c as int - 48
    } else {
        c as int - 55
    }
}

/// Percent-decoding: `%XX` is the byte `XX`, any other character is its
/// own code as a byte.
pub open spec fn percent_decode(s: Seq<char>) -> Seq<u8>
    decreases s.len(),
{
    if s.len() == 0 {
        seq![]
    } else if s[0] == '%' && s.len() >= 3 {
        seq![(hex_value(s[1]) * 16 + hex_value(s[2])) as u8] + percent_decode(s.skip(3))
    } else {
        seq![s[0] as u8] + percent_decode(s.skip(1))
    }
}

proof fn lemma_hex_digit_value(d: u8)
    requires
        d < 16,
    ensures
        hex_value(hex_digit(d)) == d,
        hex_digit(d) != '%',
{
}

proof fn lemma_decode_encode_byte(b: u8, rest: Seq<char>)
    ensures
        percent_decode(encode_byte(b) + rest) == seq![b] + percent_decode(rest),
{
    let s = encode_byte(b) + rest;
    if is_unreserved(b) {
        assert(s[0] == b as char);
        assert(s.skip(1) =~= rest);
    } else {
        lemma_hex_digit_value(b / 16);
        lemma_hex_digit_value(b % 16);
        assert(s[0] == '%');
        assert(s.skip(3) =~= rest);
        assert((hex_value(s[1]) * 16 + hex_value(s[2])) == b as int);
    }
}

proof fn lemma_decode_encode(bytes: Seq<u8>, rest: Seq<char>)
    ensures
        percent_decode(percent_encode(bytes) + rest) == bytes + percent_decode(rest),
    decreases bytes.len(),
{
    if bytes.len() == 0 {
        assert(percent_encode(bytes) + rest =~= rest);
        assert(bytes + percent_decode(rest) =~= percent_decode(rest));
    } else {
        let init = bytes.drop_last();
        let last = bytes.last();
        let tail = encode_byte(last) + rest;
        assert(percent_encode(bytes) + rest =~= percent_encode(init) + tail);
        lemma_decode_encode(init, tail);
        lemma_decode_encode_byte(last, rest);
        assert(init + (seq![last] + percent_decode(rest)) =~= bytes + percent_decode(rest));
    }
}

/// Percent-decoding a URL-encoded text gives back the bytes of its UTF-8
/// encoding, and decoding those as UTF-8 gives back the text.
pub proof fn law_url_encoding_decodes_back(s: Seq<char>)
    ensures
        percent_decode(url_encoded(s)) == encode_utf8(s),
        decode_utf8(percent_decode(url_encoded(s))) == s,
{
    lemma_decode_encode(encode_utf8(s), seq![]);
    assert(url_encoded(s) + Seq::<char>::empty() =~= url_encoded(s));
    assert(encode_utf8(s) + percent_decode(Seq::<char>::empty()) =~= encode_utf8(s));
    vstd::utf8::encode_utf8_decode_utf8(s);
}

/// A character URL encoding may produce: an unreserved character or `%`.
pub open spec fn is_encoded_char(c: char) -> bool {
    is_unreserved_char(c) || c == '%'
}

proof fn lemma_encode_byte_alphabet(b: u8)
    ensures
        forall|i: int| 0 <= i < encode_byte(b).len() ==> is_encoded_char(#[trigger] encode_byte(b)[i]),
{
    if !is_unreserved(b) {
        assert(is_encoded_char(hex_digit(b / 16)));
        assert(is_encoded_char(hex_digit(b % 16)));
    }
}

proof fn lemma_percent_encode_alphabet(bytes: Seq<u8>)
    ensures
        forall|i: int|
            0 <= i < percent_encode(bytes).len() ==> is_encoded_char(#[trigger] percent_encode(bytes)[i]),
    decreases bytes.len(),
{
    if bytes.len() > 0 {
        lemma_percent_encode_alphabet(bytes.drop_last());
        lemma_encode_byte_alphabet(bytes.last());
        let a = percent_encode(bytes.drop_last());
        let b = encode_byte(bytes.last());
        assert forall|i: int| 0 <= i < percent_encode(bytes).len() implies is_encoded_char(
            #[trigger] percent_encode(bytes)[i],
        ) by {
            if i < a.len() {
                assert(percent_encode(bytes)[i] == a[i]);
            } else {
                assert(percent_encode(bytes)[i] == b[i - a.len()]);
            }
        }
    }
}

/// URL encoding produces only unreserved characters and `%`: no `&`, `=`,
/// space or other character that a query string gives a meaning to.
pub proof fn law_url_encoding_alphabet(s: Seq<char>)
    ensures
        forall|i: int| 0 <= i < url_encoded(s).len() ==> is_encoded_char(#[trigger] url_encoded(s)[i]),
{
    lemma_percent_encode_alphabet(encode_utf8(s));
}

/// `s` split at every `c`, as `str::split` does it.
pub open spec fn split_on(s: Seq<char>, c: char) -> Seq<Seq<char>>
    decreases s.len(),
{
    if s.len() == 0 {
        seq![seq![]]
    } else {
        let p = split_on(s.drop_last(), c);
        if s.last() == c {
            p.push(seq![])
        } else {
            p.update(p.len() - 1, p.last().push(s.last()))
        }
    }
}

proof fn lemma_split_on_nonempty(s: Seq<char>, c: char)
    ensures
        split_on(s, c).len() >= 1,
    decreases s.len(),
{
    if s.len() > 0 {
        lemma_split_on_nonempty(s.drop_last(), c);
    }
}

proof fn lemma_split_on_without(s: Seq<char>, c: char)
    requires
        forall|i: int| 0 <= i < s.len() ==> s[i] != c,
    ensures
        split_on(s, c) == seq![s],
    decreases s.len(),
{
    if s.len() > 0 {
        lemma_split_on_without(s.drop_last(), c);
        assert(s.last() != c);
        assert(s.drop_last().push(s.last()) =~= s);
    } else {
        assert(s =~= Seq::<char>::empty());
    }
}

proof fn lemma_split_on_join(a: Seq<char>, b: Seq<char>, c: char)
    ensures
        split_on(a + seq![c] + b, c) == split_on(a, c) + split_on(b, c),
    decreases b.len(),
{
    lemma_split_on_nonempty(a, c);
    let ab = a + seq![c] + b;
    if b.len() == 0 {
        assert(ab.drop_last() =~= a);
        assert(split_on(b, c) =~= seq![Seq::<char>::empty()]);
        assert(split_on(a, c).push(seq![]) =~= split_on(a, c) + split_on(b, c));
    } else {
        lemma_split_on_join(a, b.drop_last(), c);
        lemma_split_on_nonempty(b.drop_last(), c);
        assert(ab.drop_last() =~= a + seq![c] + b.drop_last());
        assert(ab.last() == b.last());
        let pa = split_on(a, c);
        let pb = split_on(b.drop_last(), c);
        if b.last() == c {
            assert((pa + pb).push(seq![]) =~= pa + pb.push(seq![]));
        } else {
            assert((pa + pb).update((pa + pb).len() - 1, (pa + pb).last().push(b.last())) =~= pa
                + pb.update(pb.len() - 1, pb.last().push(b.last())));
        }
    }
}

/// A text as its percent-decoded UTF-8.
pub open spec fn decode_text(t: Seq<char>) -> Seq<char> {
    decode_utf8(percent_decode(t))
}

/// One `key=value` piece, decoded.
pub open spec fn decode_pair(piece: Seq<char>) -> (Seq<char>, Seq<char>) {
    let kv = split_on(piece, '=');
    (decode_text(kv[0]), decode_text(kv[1]))
}

/// A query string read back: the text after `?` split at `&`, each piece
/// split at `=`, and both sides decoded.
pub open spec fn decode_query(q: Seq<char>) -> Seq<(Seq<char>, Seq<char>)> {
    split_on(q.skip(1), '&').map_values(|piece: Seq<char>| decode_pair(piece))
}

proof fn lemma_encoded_has_no(s: Seq<char>, c: char)
    requires
        !is_encoded_char(c),
    ensures
        forall|i: int| 0 <= i < url_encoded(s).len() ==> url_encoded(s)[i] != c,
{
    law_url_encoding_alphabet(s);
}

proof fn lemma_split_pair(p: (Seq<char>, Seq<char>))
    ensures
        split_on(pair_text(p), '&') == seq![pair_text(p)],
        split_on(pair_text(p), '=') == seq![url_encoded(p.0), url_encoded(p.1)],
{
    assert(!is_encoded_char('&'));
    assert(!is_encoded_char('='));
    lemma_encoded_has_no(p.0, '&');
    lemma_encoded_has_no(p.1, '&');
    lemma_encoded_has_no(p.0, '=');
    lemma_encoded_has_no(p.1, '=');
    let t = pair_text(p);
    let k = url_encoded(p.0);
    let v = url_encoded(p.1);
    assert forall|i: int| 0 <= i < t.len() implies t[i] != '&' by {
        if i < k.len() {
            assert(t[i] == k[i]);
        } else if i > k.len() {
            assert(t[i] == v[i - k.len() - 1]);
        }
    }
    lemma_split_on_without(t, '&');
    lemma_split_on_join(k, v, '=');
    lemma_split_on_without(k, '=');
    lemma_split_on_without(v, '=');
}

proof fn lemma_split_joined(pairs: Seq<(Seq<char>, Seq<char>)>)
    requires
        pairs.len() > 0,
    ensures
        split_on(joined_pairs(pairs), '&') == pairs.map_values(|p: (Seq<char>, Seq<char>)| pair_text(p)),
    decreases pairs.len(),
{
    lemma_split_pair(pairs.last());
    if pairs.len() == 1 {
        assert(pairs.last() == pairs[0]);
        assert(pairs.map_values(|p: (Seq<char>, Seq<char>)| pair_text(p)) =~= seq![pair_text(pairs[0])]);
    } else {
        lemma_split_joined(pairs.drop_last());
        lemma_split_on_join(joined_pairs(pairs.drop_last()), pair_text(pairs.last()), '&');
        assert(pairs.map_values(|p: (Seq<char>, Seq<char>)| pair_text(p)) =~= pairs.drop_last().map_values(
            |p: (Seq<char>, Seq<char>)| pair_text(p),
        ) + seq![pair_text(pairs.last())]);
    }
}

/// A query string reads back as its pairs: after the `?`, splitting at
/// `&`, each piece at `=`, and decoding both sides gives the pairs in order.
pub proof fn law_query_text_decodes_back(pairs: Seq<(Seq<char>, Seq<char>)>)
    requires
        pairs.len() > 0,
    ensures
        query_text(pairs)[0] == '?',
        split_on(query_text(pairs).skip(1), '&').len() == pairs.len(),
        decode_query(query_text(pairs)) == pairs,
{
    reveal(query_text);
    let q = query_text(pairs);
    assert(q.skip(1) =~= joined_pairs(pairs));
    lemma_split_joined(pairs);
    let pieces = split_on(q.skip(1), '&');
    assert forall|i: int| 0 <= i < pairs.len() implies decode_pair(#[trigger] pieces[i]) == pairs[i] by {
        assert(pieces[i] == pair_text(pairs[i]));
        lemma_split_pair(pairs[i]);
        law_url_encoding_decodes_back(pairs[i].0);
        law_url_encoding_decodes_back(pairs[i].1);
    }
    assert(decode_query(q) =~= pairs);
}

/// A query string is empty exactly when there are no parameters, and
/// otherwise starts with `?`.
pub proof fn law_query_text_empty(pairs: Seq<(Seq<char>, Seq<char>)>)
    ensures
        (query_text(pairs).len() == 0) == (pairs.len() == 0),
        pairs.len() > 0 ==> query_text(pairs)[0] == '?',
{
    reveal(query_text);
}


// ------------------------------------------------------------ resolution

/// The state after taking in each answer in turn, running forward after
/// each.
pub open spec fn run(v: ResolverView, answers: Seq<Option<Seq<char>>>) -> ResolverView
    decreases answers.len(),
{
    if answers.len() == 0 {
        v
    } else {
        run(settle(absorb(v, answers[0])), answers.drop_first())
    }
}

/// Where a resolution stands after the given answers to its lookups.
pub open spec fn resolution_after(e: EnvView, p: Platform, answers: Seq<Option<Seq<char>>>) -> ResolverView {
    run(settle(initial(e, p)), answers)
}

/// The credential the environment sets, and its name: the API key, else
/// the token, else the passphrase.
pub open spec fn env_credential(e: EnvView) -> Option<(CredView, Seq<char>)> {
    match e.api_key {
        Some(k) => Some((CredView::ApiKey(k), "REPORTMATE_API_KEY"@)),
        None => match e.token {
            Some(t) => Some((CredView::Bearer(t), "REPORTMATE_TOKEN"@)),
            None => match e.passphrase {
                Some(p) => Some((CredView::Passphrase(p), "REPORTMATE_PASSPHRASE"@)),
                None => None,
            },
        },
    }
}

proof fn lemma_first_of_concat(x: Seq<Cand>, y: Seq<Cand>)
    requires
        x.len() > 0,
    ensures
        (x + y).len() > 0,
        (x + y)[0] == x[0],
{
}

proof fn lemma_first_candidate(f: Facts)
    ensures
        env_candidates(f.env).len() > 0 <==> env_credential(f.env) is Some,
        env_credential(f.env) matches Some((c, s)) ==> candidates(f).len() > 0
            && candidates(f)[0] == Cand::Given(c, s),
{
    let ec = env_candidates(f.env);
    let x1 = ec + app_candidates(f);
    let x2 = x1 + entra_candidates(f);
    let x3 = x2 + runner_candidates(f);
    assert(candidates(f) == x3 + cloud_candidates(f));
    if ec.len() > 0 {
        lemma_first_of_concat(ec, app_candidates(f));
        lemma_first_of_concat(x1, entra_candidates(f));
        lemma_first_of_concat(x2, runner_candidates(f));
        lemma_first_of_concat(x3, cloud_candidates(f));
    }
}

/// The states an explicit credential leaves: before the credential
/// sources, or finished with that credential.
spec fn held(w: ResolverView, e: EnvView) -> bool {
    &&& w.facts.env == e
    &&& ((0 <= w.pc <= 13 && w.next == 0) || (w.pc == 14 && w.credential == env_credential(e)))
}

proof fn lemma_settle_held(v: ResolverView, e: EnvView)
    requires
        held(v, e),
        env_credential(e) is Some,
    ensures
        held(settle(v), e),
        settle(v).pc != 13,
    decreases 14 - v.pc,
{
    lemma_first_candidate(v.facts);
    if v.pc < 13 && !crate::resolve::awaits(v) {
        lemma_settle_held(ResolverView { pc: v.pc + 1, ..v }, e);
    }
}

proof fn lemma_run_held(v: ResolverView, e: EnvView, answers: Seq<Option<Seq<char>>>)
    requires
        held(v, e),
        v.pc != 13,
        env_credential(e) is Some,
    ensures
        held(run(v, answers), e),
    decreases answers.len(),
{
    if answers.len() > 0 {
        let w = absorb(v, answers[0]);
        assert(held(w, e));
        lemma_settle_held(w, e);
        lemma_run_held(settle(w), e, answers.drop_first());
    }
}

/// Explicit configuration wins: a credential in the environment is the one
/// used, whatever the app, the runner or the cloud would have offered.
pub proof fn law_environment_credential_wins(
    e: EnvView,
    p: Platform,
    answers: Seq<Option<Seq<char>>>,
)
    requires
        env_credential(clean_env(e)) is Some,
    ensures
        resolution_after(e, p, answers).pc == 14 ==> resolution_after(e, p, answers).credential
            == env_credential(clean_env(e)),
{
    let ce = clean_env(e);
    assert(held(initial(e, p), ce));
    lemma_settle_held(initial(e, p), ce);
    lemma_run_held(settle(initial(e, p)), ce, answers);
}

proof fn lemma_run_keeps_env(v: ResolverView, answers: Seq<Option<Seq<char>>>)
    ensures
        run(v, answers).facts.env == v.facts.env,
    decreases answers.len(),
{
    if answers.len() > 0 {
        let w = absorb(v, answers[0]);
        lemma_settle_keeps_facts(w);
        lemma_run_keeps_env(settle(w), answers.drop_first());
    }
}

proof fn lemma_settle_keeps_facts(v: ResolverView)
    ensures
        settle(v).facts == v.facts,
    decreases 14 - v.pc,
{
    if 0 <= v.pc < 13 && !crate::resolve::awaits(v) {
        lemma_settle_keeps_facts(ResolverView { pc: v.pc + 1, ..v });
    }
}

/// An endpoint in the environment is the one used, trimmed and without
/// trailing `/`.
pub proof fn law_environment_endpoint_wins(
    e: EnvView,
    p: Platform,
    answers: Seq<Option<Seq<char>>>,
)
    requires
        clean_env(e).api_url is Some,
    ensures
        outcome(resolution_after(e, p, answers)).api_url == Some(
            normalized_url(clean_env(e).api_url.unwrap()),
        ),
{
    lemma_settle_keeps_facts(initial(e, p));
    lemma_run_keeps_env(settle(initial(e, p)), answers);
}

/// The endpoint comes from the first source that has one: the environment,
/// then the app's connection, then the device runner's preferences; it is
/// used trimmed and without trailing `/`, and its source is named.
pub proof fn law_endpoint_sources_in_order(v: ResolverView)
    ensures
        v.facts.env.api_url matches Some(u) ==> outcome(v).api_url == Some(normalized_url(u))
            && outcome(v).sources.api_url == Some("REPORTMATE_API_URL"@),
        v.facts.env.api_url is None ==> (v.facts.conn.api_url matches Some(u) ==> outcome(v).api_url
            == Some(normalized_url(u)) && outcome(v).sources.api_url == Some("ReportMate app connection"@)),
        v.facts.env.api_url is None && v.facts.conn.api_url is None ==> (v.facts.runner_url matches Some(u)
            ==> outcome(v).api_url == Some(normalized_url(u)) && outcome(v).sources.api_url == Some(
            "device runner preferences"@,
        )),
        v.facts.env.api_url is None && v.facts.conn.api_url is None && v.facts.runner_url is None
            ==> outcome(v).api_url is None && outcome(v).sources.api_url is None,
{
}

/// The Entra audience comes from the environment, else the app's
/// connection, and its source is named.
pub proof fn law_audience_sources_in_order(v: ResolverView)
    ensures
        v.facts.env.oidc_audience is Some ==> outcome(v).sources.audience == Some(
            "REPORTMATE_OIDC_AUDIENCE"@,
        ),
        v.facts.env.oidc_audience is None && v.facts.conn.oidc_audience is Some
            ==> outcome(v).sources.audience == Some("ReportMate app connection"@),
        v.facts.env.oidc_audience is None && v.facts.conn.oidc_audience is None
            ==> outcome(v).sources.audience is None,
{
}

/// With `REPORTMATE_NO_DISCOVERY` set, resolution consults nothing but the
/// environment: it is finished before any lookup, with the environment's
/// credential or none.
pub proof fn law_no_discovery_reads_only_environment(e: EnvView, p: Platform)
    requires
        !discovery_on(clean_env(e)),
    ensures
        settle(initial(e, p)).pc == 14,
        settle(initial(e, p)).credential == env_credential(clean_env(e)),
        settle(initial(e, p)).notes.len() == 0,
{
    let v = initial(e, p);
    let f = v.facts;
    assert(app_candidates(f) =~= Seq::<Cand>::empty());
    assert(entra_candidates(f) =~= Seq::<Cand>::empty());
    assert(runner_candidates(f) =~= Seq::<Cand>::empty());
    assert(cloud_candidates(f) =~= Seq::<Cand>::empty());
    assert(candidates(f) =~= env_candidates(f.env));
    lemma_first_candidate(f);
}

/// The device runner's API key is ingest-only: the credentials taken from
/// the runner are its read API key, then its passphrase.
pub proof fn law_runner_offers_its_read_key_then_passphrase(f: Facts)
    ensures
        runner_candidates(f) == (match f.runner_read_key {
            Some(k) => seq![Cand::Given(CredView::ApiKey(k), "device runner preferences (read API key)"@)],
            None => Seq::<Cand>::empty(),
        }) + (match f.runner_pass {
            Some(p) => seq![Cand::Given(CredView::Passphrase(p), "device runner preferences (passphrase)"@)],
            None => Seq::<Cand>::empty(),
        }),
{
}

proof fn lemma_candidates_bound(f: Facts)
    ensures
        candidates(f).len() <= 9,
{
    assert(env_candidates(f.env).len() <= 3);
    assert(app_candidates(f).len() <= 2);
    assert(entra_candidates(f).len() <= 1);
    assert(runner_candidates(f).len() <= 2);
    assert(cloud_candidates(f).len() <= 1);
}

/// A state resolution can be in: a step from start to finish, no source
/// passed before the credential sources, and no more passed than there are.
spec fn well_formed(v: ResolverView) -> bool {
    &&& 0 <= v.pc <= 14
    &&& v.pc < 13 ==> v.next == 0
    &&& v.pc == 13 ==> 0 <= v.next <= candidates(v.facts).len()
}

/// How many answers a state can still take at most.
spec fn remaining(v: ResolverView) -> int {
    if v.pc >= 14 {
        0
    } else if v.pc == 13 {
        candidates(v.facts).len() - v.next + 1
    } else {
        24 - v.pc
    }
}

proof fn lemma_settle_progress(v: ResolverView)
    requires
        well_formed(v),
    ensures
        well_formed(settle(v)),
        remaining(settle(v)) <= remaining(v),
        settle(v).pc >= 14 || crate::resolve::awaits(settle(v)),
    decreases 14 - v.pc,
{
    lemma_candidates_bound(v.facts);
    if v.pc < 13 && !crate::resolve::awaits(v) {
        lemma_settle_progress(ResolverView { pc: v.pc + 1, ..v });
    }
}

proof fn lemma_absorb_progress(v: ResolverView, a: Option<Seq<char>>)
    requires
        well_formed(v),
        v.pc < 14,
        crate::resolve::awaits(v),
    ensures
        well_formed(absorb(v, a)),
        remaining(absorb(v, a)) < remaining(v),
{
    lemma_candidates_bound(absorb(v, a).facts);
    lemma_candidates_bound(v.facts);
}

proof fn lemma_run_finishes(v: ResolverView, answers: Seq<Option<Seq<char>>>)
    requires
        well_formed(v),
        v.pc >= 14 || crate::resolve::awaits(v),
        remaining(v) <= answers.len(),
    ensures
        run(v, answers).pc == 14,
    decreases answers.len(),
{
    if answers.len() == 0 {
        assert(v.pc >= 14);
    } else if v.pc >= 14 {
        assert(absorb(v, answers[0]) == v);
        assert(settle(v) == v);
        lemma_run_finishes(v, answers.drop_first());
    } else {
        let w = absorb(v, answers[0]);
        lemma_absorb_progress(v, answers[0]);
        lemma_settle_progress(w);
        lemma_run_finishes(settle(w), answers.drop_first());
    }
}

/// Resolution always finishes: after at most 24 answers, whatever they are,
/// it has its result.
pub proof fn law_resolution_finishes(e: EnvView, p: Platform, answers: Seq<Option<Seq<char>>>)
    requires
        answers.len() >= 24,
    ensures
        resolution_after(e, p, answers).pc == 14,
{
    let v = initial(e, p);
    lemma_candidates_bound(v.facts);
    lemma_settle_progress(v);
    lemma_run_finishes(settle(v), answers);
}

/// A credential the device runner's preferences give.
pub open spec fn is_runner_secret(c: Cand) -> bool {
    c matches Cand::Given(_, s) && (s == "device runner preferences (read API key)"@ || s
        == "device runner preferences (passphrase)"@)
}

proof fn lemma_not_runner_secret_env(e: EnvView)
    ensures
        forall|i: int|
            0 <= i < env_candidates(e).len() ==> !is_runner_secret(#[trigger] env_candidates(e)[i]),
{
    reveal_strlit("REPORTMATE_API_KEY");
    reveal_strlit("REPORTMATE_TOKEN");
    reveal_strlit("REPORTMATE_PASSPHRASE");
    reveal_strlit("device runner preferences (read API key)");
    reveal_strlit("device runner preferences (passphrase)");
    let k = "REPORTMATE_API_KEY"@;
    let t = "REPORTMATE_TOKEN"@;
    let p = "REPORTMATE_PASSPHRASE"@;
    let r1 = "device runner preferences (read API key)"@;
    let r2 = "device runner preferences (passphrase)"@;
    assert(k != r1 && k != r2) by {
        assert(k[0] != r1[0]);
    }
    assert(t != r1 && t != r2) by {
        assert(t[0] != r1[0]);
    }
    assert(p != r1 && p != r2) by {
        assert(p[0] != r1[0]);
    }
}

/// Entra sign-in comes before any shared secret on the machine: with
/// discovery on and an audience known, every credential the runner offers
/// comes after an Entra sign-in.
pub proof fn law_entra_before_runner_secrets(f: Facts)
    requires
        f.discover,
        crate::resolve::audience_choice(f) is Some,
    ensures
        forall|j: int|
            0 <= j < candidates(f).len() && is_runner_secret(#[trigger] candidates(f)[j]) ==> exists|
                i: int,
            |
                0 <= i < j && (#[trigger] candidates(f)[i] is Entra),
{
    let ec = env_candidates(f.env);
    let ac = app_candidates(f);
    let nc = entra_candidates(f);
    let rc = runner_candidates(f);
    let cc = cloud_candidates(f);
    let all = candidates(f);
    assert(all == ec + ac + nc + rc + cc);
    lemma_not_runner_secret_env(f.env);
    let e_at: int = if f.conn.auth_method == Some("entraBearer"@) {
        ec.len() as int
    } else {
        (ec.len() + ac.len()) as int
    };
    assert(all[e_at] is Entra);
    assert forall|j: int|
        0 <= j < all.len() && is_runner_secret(#[trigger] all[j]) implies exists|i: int|
        0 <= i < j && (#[trigger] all[i] is Entra) by {
        if j < ec.len() {
            assert(all[j] == ec[j]);
        } else if j < ec.len() + ac.len() {
            assert(all[j] == ac[j - ec.len()]);
        } else if j < ec.len() + ac.len() + nc.len() {
            assert(all[j] == nc[j - ec.len() - ac.len()]);
        } else if j >= ec.len() + ac.len() + nc.len() + rc.len() {
            assert(all[j] == cc[j - ec.len() - ac.len() - nc.len() - rc.len()]);
        }
        assert(e_at < j);
        assert(all[e_at] is Entra);
    }
}

/// The lookup that would read the device runner's API key under a
/// registry key.
pub open spec fn runner_api_key_lookup(p: Platform, key: Seq<char>) -> LookupView {
    runner_run(p, key, "ApiKey"@)
}

/// The runner's API key is not even read: no state of resolution asks for
/// it, under any key.
pub proof fn law_runner_api_key_is_never_read(v: ResolverView, key: Seq<char>)
    ensures
        lookup_of(v) != runner_api_key_lookup(v.facts.platform, key),
{
    reveal_strlit("ApiKey");
    reveal_strlit("ApiUrl");
    reveal_strlit("ReadApiKey");
    reveal_strlit("Passphrase");
    reveal_strlit("security");
    reveal_strlit("defaults");
    reveal_strlit("reg");
    reveal_strlit("az");
    reveal_strlit("az.cmd");
    reveal_strlit("aws");
    let l = lookup_of(v);
    let r = runner_api_key_lookup(v.facts.platform, key);
    if 4 <= v.pc <= 12 {
        let name = crate::resolve::runner_name(v.pc);
        assert(name != "ApiKey"@) by {
            assert(name.len() != 6 || name[3] != "ApiKey"@[3]);
        }
        match (l, r) {
            (LookupView::Run(_, a), LookupView::Run(_, b)) => {
                if crate::resolve::is_mac(v.facts.platform) {
                    assert(a[2] != b[2]);
                } else {
                    assert(a[3] != b[3]);
                }
            },
            _ => {},
        }
    } else {
        match (l, r) {
            (LookupView::Run(x, _), LookupView::Run(y, _)) => {
                assert(x[0] != y[0]);
            },
            _ => {},
        }
    }
}

/// The admin app's `connection.json`, when it can be read and parsed, is
/// the connection as it stands: the keychain's connection items are read
/// only when there is no such file.
pub proof fn law_connection_file_is_used_as_is(e: EnvView, p: Platform, t: Seq<char>)
    requires
        discovery_on(clean_env(e)),
        json_parse_error(t) is None,
    ensures
        absorb(initial(e, p), Some(t)).facts.conn == connection_fields(t),
        absorb(initial(e, p), Some(t)).pc == 4,
{
}

/// Without a connection file, the connection on macOS is the keychain's
/// three items as the lookups gave them, and no cloud.
pub proof fn law_keychain_connection_without_file(e: EnvView, a: Option<Seq<char>>, u: Option<Seq<char>>, m: Option<Seq<char>>, o: Option<Seq<char>>)
    requires
        discovery_on(clean_env(e)),
        a is None || json_parse_error(a.unwrap()) is Some,
    ensures
        ({
            let v0 = settle(initial(e, Platform::MacOs));
            let v1 = settle(absorb(v0, a));
            let v2 = settle(absorb(v1, u));
            let v3 = settle(absorb(v2, m));
            let v4 = settle(absorb(v3, o));
            &&& v1.pc == 1 && lookup_of(v1) == keychain_run("ApiBaseUrl"@)
            &&& v2.pc == 2 && lookup_of(v2) == keychain_run("AuthMethod"@)
            &&& v3.pc == 3 && lookup_of(v3) == keychain_run("OidcAudience"@)
            &&& v4.facts.conn == ConnView { api_url: u, auth_method: m, oidc_audience: o, cloud: None }
        }),
{
}

/// A finished resolution stays finished: further answers change nothing.
pub proof fn law_finished_resolution_is_final(v: ResolverView, a: Option<Seq<char>>)
    requires
        v.pc == 14,
    ensures
        settle(absorb(v, a)) == v,
{
}

proof fn lemma_strip_end_last(s: Seq<char>, c: char)
    ensures
        strip_end(s, c).len() == 0 || strip_end(s, c).last() != c,
    decreases s.len(),
{
    if s.len() > 0 && s.last() == c {
        lemma_strip_end_last(s.drop_last(), c);
    }
}

/// An endpoint as used never ends in `/`, so paths join onto it cleanly.
pub proof fn law_endpoint_has_no_trailing_slash(u: Seq<char>)
    ensures
        normalized_url(u).len() == 0 || normalized_url(u).last() != '/',
{
    lemma_strip_end_last(crate::text::trim(u), '/');
}

/// `config` shows no secret: what it prints depends on the credential only
/// through its kind and on the internal secret only through whether one is
/// set, so two resolutions that differ only in their secrets print the same.
pub proof fn law_config_report_holds_no_secret(r1: Resolution, r2: Resolution, format: OutputFormat)
    requires
        r1.api_url == r2.api_url,
        r1.sources == r2.sources,
        r1.notes@ == r2.notes@,
        kind_of(r1.credential) == kind_of(r2.credential),
        (r1.internal_secret is Some) == (r2.internal_secret is Some),
    ensures
        config_report_lines(r1, format) == config_report_lines(r2, format),
{
    assert(config_lines(r1) =~= config_lines(r2));
    assert(config_json_text(r1) =~= config_json_text(r2));
}

// ------------------------------------------------------------ commands

/// Deleting a device refuses to run without `--confirm`, and sends no
/// request then; with it, the request is a `DELETE` that says so.
pub proof fn law_delete_needs_confirm(output: OutputFormat, serial: String, confirm: bool)
    ensures
        plan_spec(Cli { output, command: Command::Delete { serial, confirm } }) == (if confirm {
            Ok(
                PlanView::Call(
                    call_json(
                        crate::cli::HttpMethod::Delete,
                        "/api/v1/device/"@ + serial@ + "?confirm=true"@,
                    ),
                    RenderView::Json,
                ),
            )
        } else {
            Err::<PlanView, ErrorView>(ErrorView::DeleteWithoutConfirm(serial@))
        }),
        plan_spec(
            Cli {
                output,
                command: Command::Device {
                    serial,
                    module: None,
                    command: Some(DeviceCommand::Delete { confirm }),
                },
            },
        ) == plan_spec(Cli { output, command: Command::Delete { serial, confirm } }),
{
}

/// `archive` and `unarchive` at the top level do what the per-device
/// subcommands do.
pub proof fn law_lifecycle_aliases(output: OutputFormat, serial: String)
    ensures
        plan_spec(Cli { output, command: Command::Archive { serial } }) == plan_spec(
            Cli {
                output,
                command: Command::Device { serial, module: None, command: Some(DeviceCommand::Archive) },
            },
        ),
        plan_spec(Cli { output, command: Command::Unarchive { serial } }) == plan_spec(
            Cli {
                output,
                command: Command::Device {
                    serial,
                    module: None,
                    command: Some(DeviceCommand::Unarchive),
                },
            },
        ),
{
}

/// `device SERIAL --module NAME` is `device SERIAL module NAME`.
pub proof fn law_module_option_is_the_module_subcommand(output: OutputFormat, serial: String, name: String)
    ensures
        plan_spec(Cli { output, command: Command::Device { serial, module: Some(name), command: None } })
            == plan_spec(
            Cli {
                output,
                command: Command::Device {
                    serial,
                    module: None,
                    command: Some(DeviceCommand::Module { name }),
                },
            },
        ),
{
}

/// The hidden admin aliases send what the commands they stand for send:
/// `cleanup-usage` is `usage-history cleanup`, `clear-errors` is
/// `installs clear-errors` without an item age.
pub proof fn law_admin_aliases(output: OutputFormat, months: u32, days: u32)
    ensures
        plan_spec(Cli { output, command: Command::Admin(AdminCommand::CleanupUsage { months }) })
            == plan_spec(
            Cli {
                output,
                command: Command::Admin(
                    AdminCommand::UsageHistory(UsageHistoryCommand::Cleanup { months }),
                ),
            },
        ),
        plan_spec(Cli { output, command: Command::Admin(AdminCommand::ClearErrors { days }) })
            == plan_spec(
            Cli {
                output,
                command: Command::Admin(
                    AdminCommand::Installs(InstallsCommand::ClearErrors { days, item_age_days: None }),
                ),
            },
        ),
{
}

/// `reset-baseline` without `--confirm` only previews: the request carries
/// no `confirm` parameter.
pub proof fn law_reset_baseline_previews(before: String, reason: Option<String>)
    ensures
        usage_history_plan(UsageHistoryCommand::ResetBaseline { before, confirm: false, reason }).0
            == call_json(
            crate::cli::HttpMethod::Post,
            "/api/v1/admin/usage-history/reset-baseline"@ + query_text(
                qv("before"@, before@) + opt_pair("reason"@, reason),
            ),
        ),
{
    assert(qf("confirm"@, false) =~= Seq::<(Seq<char>, Seq<char>)>::empty());
    assert(qv("before"@, before@) + qf("confirm"@, false) =~= qv("before"@, before@));
}

/// Tables are drawn only when asked for: with `--output json` every
/// answer is printed as it came.
pub proof fn law_tables_only_on_request(cli: Cli)
    ensures
        plan_spec(cli) matches Ok(PlanView::Call(_, r)) && (r is DevicesTable || r is EventsTable)
            ==> cli.output == OutputFormat::Table,
{
}

/// The number a string of decimal digits spells, most significant first.
pub open spec fn digits_value(s: Seq<char>) -> int
    decreases s.len(),
{
    if s.len() == 0 {
        0
    } else {
        digits_value(s.drop_last()) * 10 + (s.last() as int - 48)
    }
}

/// Numbers go into requests as their plain decimal text: ASCII digits only,
/// no leading zero, and reading the digits back gives the number.
pub proof fn law_decimal_reads_back(n: nat)
    ensures
        decimal(n).len() >= 1,
        forall|i: int| 0 <= i < decimal(n).len() ==> '0' <= #[trigger] decimal(n)[i] <= '9',
        n > 0 ==> decimal(n)[0] != '0',
        digits_value(decimal(n)) == n,
    decreases n,
{
    if n < 10 {
        assert(decimal(n) == seq![digit_char(n)]);
        assert(digit_char(n) as int == 48 + n);
        assert(decimal(n)[0] == digit_char(n));
        assert('0' as int == 48);
        assert(n > 0 ==> decimal(n)[0] != '0');
        assert(decimal(n).drop_last() =~= Seq::<char>::empty());
        assert(digits_value(Seq::<char>::empty()) == 0);
        assert(decimal(n).last() == digit_char(n));
    } else {
        law_decimal_reads_back(n / 10);
        let d = decimal(n / 10);
        assert(decimal(n) == d.push(digit_char(n % 10)));
        assert(digit_char(n % 10) as int == 48 + n % 10);
        assert(decimal(n).drop_last() =~= d);
        assert(decimal(n).last() == digit_char(n % 10));
        assert((n / 10) * 10 + n % 10 == n);
        assert(digits_value(decimal(n)) == digits_value(d) * 10 + (n % 10));
        assert(n / 10 > 0);
        assert(decimal(n)[0] == d[0]);
        assert(d[0] != '0');
        assert forall|i: int| 0 <= i < decimal(n).len() implies '0' <= #[trigger] decimal(n)[i] <= '9' by {
            if i < d.len() {
                assert(decimal(n)[i] == d[i]);
            }
        }
    }
}

/// No credential from the machine is an AWS secret.
proof fn lemma_no_aws_before_cloud(f: Facts)
    ensures
        forall|i: int|
            0 <= i < (env_candidates(f.env) + app_candidates(f) + entra_candidates(f) + runner_candidates(f)).len()
                ==> !((env_candidates(f.env) + app_candidates(f) + entra_candidates(f) + runner_candidates(
                f,
            ))[i] is Aws),
{
    let e = env_candidates(f.env);
    let a = app_candidates(f);
    let n = entra_candidates(f);
    let r = runner_candidates(f);
    assert forall|i: int| 0 <= i < e.len() implies !(e[i] is Aws) by {}
    assert forall|i: int| 0 <= i < a.len() implies !(a[i] is Aws) by {}
    assert forall|i: int| 0 <= i < n.len() implies !(n[i] is Aws) by {}
    assert forall|i: int| 0 <= i < r.len() implies !(r[i] is Aws) by {}
    assert forall|i: int| 0 <= i < (e + a + n + r).len() implies !((e + a + n + r)[i] is Aws) by {
        if i < e.len() {
            assert((e + a + n + r)[i] == e[i]);
        } else if i < e.len() + a.len() {
            assert((e + a + n + r)[i] == a[i - e.len()]);
        } else if i < e.len() + a.len() + n.len() {
            assert((e + a + n + r)[i] == n[i - e.len() - a.len()]);
        } else {
            assert((e + a + n + r)[i] == r[i - e.len() - a.len() - n.len()]);
        }
    }
}

/// The deployment's AWS secret is the last resort: with discovery on and an
/// AWS-hosted API it is the last source tried, under
/// `REPORTMATE_AWS_SECRET_ID` or else `reportmate/client-passphrase`; no
/// source before it, and none at all otherwise, reads Secrets Manager.
pub proof fn law_aws_secret_comes_last(f: Facts)
    ensures
        f.discover && cloud_choice(f) == Some("aws"@) ==> candidates(f).len() >= 1
            && candidates(f).last() == Cand::Aws(
            match f.env.aws_secret_id {
                Some(i) => i,
                None => "reportmate/client-passphrase"@,
            },
        ),
        forall|i: int| 0 <= i < candidates(f).len() - 1 ==> !(#[trigger] candidates(f)[i] is Aws),
        !(f.discover && cloud_choice(f) == Some("aws"@)) ==> forall|i: int|
            0 <= i < candidates(f).len() ==> !(#[trigger] candidates(f)[i] is Aws),
{
    lemma_no_aws_before_cloud(f);
    let x = env_candidates(f.env) + app_candidates(f) + entra_candidates(f)
        + runner_candidates(f);
    let c = cloud_candidates(f);
    assert(candidates(f) == x + c);
    assert forall|i: int| 0 <= i < candidates(f).len() - 1 implies !(#[trigger] candidates(f)[i] is Aws) by {
        assert(c.len() <= 1);
        assert((x + c)[i] == x[i]);
    }
    if !(f.discover && cloud_choice(f) == Some("aws"@)) {
        assert(c =~= Seq::<Cand>::empty());
        assert(x + c =~= x);
    }
}

} // verus!
