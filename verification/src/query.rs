//! Query strings: percent-encoding and the builder every command uses.
use vstd::prelude::*;
use vstd::string::StringExecFns;
use vstd::utf8::encode_utf8;

use crate::cli::InventoryFilters;
use crate::error::CliError;
use crate::text::{chars_of, decimal, decimal_string, owned, push_char, signed_decimal, signed_decimal_string, string_of, sub_chars};

verus! {

/// RFC 3986 unreserved bytes: `A-Z a-z 0-9 - _ . ~`.
pub open spec fn is_unreserved(b: u8) -> bool {
    ||| (65 <= b && b <= 90)
    ||| (97 <= b && b <= 122)
    ||| (48 <= b && b <= 57)
    ||| b == 45
    ||| b == 95
    ||| b == 46
    ||| b == 126
}

/// Upper-case hexadecimal digit of `d < 16`.
pub open spec fn hex_digit(d: u8) -> char {
    if d < 10 {
        ((48 + d) as u8) as char
    } else {
        ((55 + d) as u8) as char
    }
}

/// One byte of a URL component: itself if unreserved, else `%XX`.
pub open spec fn encode_byte(b: u8) -> Seq<char> {
    if is_unreserved(b) {
        seq![b as char]
    } else {
        seq!['%', hex_digit(b / 16), hex_digit(b % 16)]
    }
}

pub open spec fn percent_encode(bytes: Seq<u8>) -> Seq<char>
    decreases bytes.len(),
{
    if bytes.len() == 0 {
        seq![]
    } else {
        percent_encode(bytes.drop_last()) + encode_byte(bytes.last())
    }
}

/// The URL-component encoding of `s`: each byte of its UTF-8 encoding,
/// unreserved bytes as themselves and every other byte as `%XX`.
pub open spec fn url_encoded(s: Seq<char>) -> Seq<char> {
    percent_encode(encode_utf8(s))
}

/// `key=value`, both encoded.
pub open spec fn pair_text(p: (Seq<char>, Seq<char>)) -> Seq<char> {
    url_encoded(p.0) + seq!['='] + url_encoded(p.1)
}

/// The encoded pairs joined by `&`.
pub open spec fn joined_pairs(pairs: Seq<(Seq<char>, Seq<char>)>) -> Seq<char>
    decreases pairs.len(),
{
    if pairs.len() == 0 {
        seq![]
    } else if pairs.len() == 1 {
        pair_text(pairs[0])
    } else {
        joined_pairs(pairs.drop_last()) + seq!['&'] + pair_text(pairs.last())
    }
}

/// `?k1=v1&k2=v2...`, or nothing when there are no pairs.
#[verifier::opaque]
pub open spec fn query_text(pairs: Seq<(Seq<char>, Seq<char>)>) -> Seq<char> {
    if pairs.len() == 0 {
        seq![]
    } else {
        seq!['?'] + joined_pairs(pairs)
    }
}

pub open spec fn pair_view(p: (String, String)) -> (Seq<char>, Seq<char>) {
    (p.0@, p.1@)
}

pub open spec fn pairs_view(pairs: Seq<(String, String)>) -> Seq<(Seq<char>, Seq<char>)> {
    pairs.map_values(|p: (String, String)| pair_view(p))
}

fn hex(d: u8) -> (c: char)
    requires
        d < 16,
    ensures
        c == hex_digit(d),
{
    if d < 10 {
        (d + 48u8) as char
    } else {
        (d + 55u8) as char
    }
}

/// Percent-encodes a URL component.
pub fn urlencode(s: &str) -> (r: String)
    ensures
        r@ == url_encoded(s@),
{
    let bytes = s.as_bytes();
    let mut r = String::new();
    for i in 0..bytes.len()
        invariant
            bytes@ == encode_utf8(s@),
            r@ == percent_encode(bytes@.take(i as int)),
    {
        let b = bytes[i];
        if (65 <= b && b <= 90) || (97 <= b && b <= 122) || (48 <= b && b <= 57) || b == 45 || b
            == 95 || b == 46 || b == 126 {
            push_char(&mut r, b as char);
        } else {
            push_char(&mut r, '%');
            push_char(&mut r, hex(b / 16));
            push_char(&mut r, hex(b % 16));
        }
        assert(bytes@.take(i + 1).drop_last() =~= bytes@.take(i as int));
        assert(r@ =~= percent_encode(bytes@.take(i as int)) + encode_byte(b));
    }
    assert(bytes@.take(bytes.len() as int) =~= bytes@);
    r
}

/// `?k=v&...` for the given pairs, each key and value percent-encoded;
/// empty when there are none.
pub fn query_string(pairs: &[(String, String)]) -> (r: String)
    ensures
        r@ == query_text(pairs_view(pairs@)),
{
    reveal(query_text);
    if pairs.len() == 0 {
        assert(pairs_view(pairs@) =~= Seq::<(Seq<char>, Seq<char>)>::empty());
        return String::new();
    }
    let mut r = String::new();
    push_char(&mut r, '?');
    let ghost all = pairs_view(pairs@);
    for i in 0..pairs.len()
        invariant
            all == pairs_view(pairs@),
            all.len() == pairs@.len(),
            pairs@.len() > 0,
            i == 0 ==> r@ == seq!['?'],
            i > 0 ==> r@ == seq!['?'] + joined_pairs(all.take(i as int)),
    {
        if i > 0 {
            push_char(&mut r, '&');
        }
        let k = urlencode(pairs[i].0.as_str());
        let v = urlencode(pairs[i].1.as_str());
        r.append(k.as_str());
        push_char(&mut r, '=');
        r.append(v.as_str());
        assert(all.take(i + 1).drop_last() =~= all.take(i as int));
        assert(all.take(i + 1).last() == all[i as int]);
        assert(all[i as int] == pair_view(pairs@[i as int]));
        if i == 0 {
            assert(r@ =~= seq!['?'] + joined_pairs(all.take(1)));
        } else {
            assert(r@ =~= seq!['?'] + joined_pairs(all.take(i + 1)));
        }
    }
    assert(all.take(pairs.len() as int) =~= all);
    r
}

/// A value that can stand in a query string.
pub trait QueryValue {
    /// The text the value is sent as.
    spec fn query_text(&self) -> Seq<char>;

    fn to_query_value(&self) -> (r: String)
        ensures
            r@ == self.query_text(),
    ;
}

impl QueryValue for u32 {
    open spec fn query_text(&self) -> Seq<char> {
        decimal(*self as nat)
    }

    fn to_query_value(&self) -> (r: String) {
        decimal_string(*self as u64)
    }
}

impl QueryValue for u64 {
    open spec fn query_text(&self) -> Seq<char> {
        decimal(*self as nat)
    }

    fn to_query_value(&self) -> (r: String) {
        decimal_string(*self)
    }
}

impl QueryValue for i32 {
    open spec fn query_text(&self) -> Seq<char> {
        signed_decimal(*self as int)
    }

    fn to_query_value(&self) -> (r: String) {
        signed_decimal_string(*self as i64)
    }
}

impl QueryValue for String {
    open spec fn query_text(&self) -> Seq<char> {
        self@
    }

    fn to_query_value(&self) -> (r: String) {
        self.clone()
    }
}

impl<'a> QueryValue for &'a str {
    open spec fn query_text(&self) -> Seq<char> {
        self@
    }

    fn to_query_value(&self) -> (r: String) {
        owned(*self)
    }
}

/// The pair that an optional value contributes: none for `None`.
pub open spec fn opt_pair(key: Seq<char>, v: Option<String>) -> Seq<(Seq<char>, Seq<char>)> {
    match v {
        Some(s) => seq![(key, s@)],
        None => seq![],
    }
}

/// The pairs the inventory-facet filters contribute, in their fixed order.
pub open spec fn filter_pairs(f: InventoryFilters) -> Seq<(Seq<char>, Seq<char>)> {
    opt_pair("usages"@, f.usages) + opt_pair("catalogs"@, f.catalogs) + opt_pair(
        "locations"@,
        f.locations,
    ) + opt_pair("areas"@, f.areas) + opt_pair("fleets"@, f.fleets) + opt_pair("rooms"@, f.rooms)
        + opt_pair("platforms"@, f.platforms)
}

/// The index of the first `c` in `s`, when that is `i`.
pub open spec fn first_at(s: Seq<char>, c: char, i: int) -> bool {
    0 <= i < s.len() && s[i] == c && forall|k: int| 0 <= k < i ==> s[k] != c
}

/// `s` split around its first `c`, as `str::split_once` does it.
pub open spec fn split_once(s: Seq<char>, c: char) -> Option<(Seq<char>, Seq<char>)> {
    if exists|i: int| first_at(s, c, i) {
        let i = choose|i: int| first_at(s, c, i);
        Some((s.take(i), s.skip(i + 1)))
    } else {
        None
    }
}

/// The pairs given as `key=value` arguments, each split at its first `=`;
/// `None` if one of them has no `=`.
pub open spec fn param_pairs(params: Seq<String>) -> Option<Seq<(Seq<char>, Seq<char>)>>
    decreases params.len(),
{
    if params.len() == 0 {
        Some(seq![])
    } else {
        match (param_pairs(params.drop_last()), split_once(params.last()@, '=')) {
            (Some(init), Some(kv)) => Some(init.push(kv)),
            _ => None,
        }
    }
}

/// The first argument without `=`.
pub open spec fn first_bad_param(params: Seq<String>, i: int) -> bool {
    0 <= i < params.len() && split_once(params[i]@, '=') is None && forall|k: int|
        0 <= k < i ==> split_once(#[trigger] params[k]@, '=') is Some
}

pub proof fn lemma_first_bad_param_unique(params: Seq<String>, i: int, j: int)
    requires
        first_bad_param(params, i),
        first_bad_param(params, j),
    ensures
        i == j,
{
    if i < j {
        assert(split_once(params[i]@, '=') is Some);
    } else if j < i {
        assert(split_once(params[j]@, '=') is Some);
    }
}

proof fn lemma_first_at_unique(s: Seq<char>, c: char, i: int, j: int)
    requires
        first_at(s, c, i),
        first_at(s, c, j),
    ensures
        i == j,
{
}

/// Splits `s` at its first `c`.
pub fn split_once_chars(s: &Vec<char>, c: char) -> (r: Option<(Vec<char>, Vec<char>)>)
    ensures
        match r {
            Some((a, b)) => split_once(s@, c) == Some((a@, b@)),
            None => split_once(s@, c) is None,
        },
{
    for i in 0..s.len()
        invariant
            forall|k: int| 0 <= k < i ==> s@[k] != c,
    {
        if s[i] == c {
            assert(first_at(s@, c, i as int));
            let ghost j = choose|j: int| first_at(s@, c, j);
            proof {
                lemma_first_at_unique(s@, c, i as int, j);
            }
            let a = sub_chars(s, 0, i);
            let b = sub_chars(s, i + 1, s.len());
            assert(a@ =~= s@.take(i as int));
            assert(b@ =~= s@.skip(i + 1));
            return Some((a, b));
        }
    }
    None
}

proof fn lemma_param_pairs_prefix(params: Seq<String>, i: int)
    requires
        0 <= i <= params.len(),
        param_pairs(params) is Some,
    ensures
        param_pairs(params.take(i)) is Some,
    decreases params.len(),
{
    if i < params.len() {
        assert(params.drop_last().take(i) =~= params.take(i));
        lemma_param_pairs_prefix(params.drop_last(), i);
    } else {
        assert(params.take(i) =~= params);
    }
}

proof fn lemma_param_pairs_fail(params: Seq<String>, i: int)
    requires
        0 <= i < params.len(),
        split_once(params[i]@, '=') is None,
    ensures
        param_pairs(params) is None,
{
    if param_pairs(params) is Some {
        lemma_param_pairs_prefix(params, i + 1);
        assert(params.take(i + 1).drop_last() =~= params.take(i));
        assert(params.take(i + 1).last() == params[i]);
    }
}

/// Query-string builder: every setter is a no-op for `None`/`false`, so a
/// command only sends what the operator asked for and the API's own
/// defaults apply otherwise.
#[derive(Default)]
pub struct Query(Vec<(String, String)>);

impl View for Query {
    type V = Seq<(Seq<char>, Seq<char>)>;

    closed spec fn view(&self) -> Seq<(Seq<char>, Seq<char>)> {
        pairs_view(self.0@)
    }
}

impl Query {
    pub fn new() -> (q: Query)
        ensures
            q@ == Seq::<(Seq<char>, Seq<char>)>::empty(),
    {
        let q = Query(Vec::new());
        assert(q@ =~= Seq::<(Seq<char>, Seq<char>)>::empty());
        q
    }

    fn push(self, key: String, value: String) -> (q: Query)
        ensures
            q@ == self@.push((key@, value@)),
    {
        let mut v = self.0;
        let ghost before = v@;
        v.push((key, value));
        let q = Query(v);
        assert(q@ =~= pairs_view(before).push((key@, value@)));
        q
    }

    /// Adds `key=value`.
    pub fn set<T: QueryValue>(self, key: &str, value: T) -> (q: Query)
        ensures
            q@ == self@.push((key@, value.query_text())),
    {
        let v = value.to_query_value();
        self.push(owned(key), v)
    }

    /// Adds `key=value` when there is a value, else nothing.
    pub fn opt<T: QueryValue>(self, key: &str, value: Option<T>) -> (q: Query)
        ensures
            q@ == match value {
                Some(v) => self@.push((key@, v.query_text())),
                None => self@,
            },
    {
        match value {
            Some(v) => self.set(key, v),
            None => self,
        }
    }

    /// Adds `key=true` when the flag is on, else nothing.
    pub fn flag(self, key: &str, on: bool) -> (q: Query)
        ensures
            q@ == if on {
                self@.push((key@, "true"@))
            } else {
                self@
            },
    {
        if on {
            self.set(key, "true")
        } else {
            self
        }
    }

    fn opt_text(self, key: &str, value: &Option<String>) -> (q: Query)
        ensures
            q@ == self@ + opt_pair(key@, *value),
    {
        match value {
            Some(v) => {
                let q = self.set(key, v.clone());
                assert(q@ =~= self@ + opt_pair(key@, *value));
                q
            },
            None => {
                assert(self@ + opt_pair(key@, *value) =~= self@);
                self
            },
        }
    }

    /// Adds the inventory-facet filters that are set.
    pub fn filters(self, f: &InventoryFilters) -> (q: Query)
        ensures
            q@ == self@ + filter_pairs(*f),
    {
        let ghost start = self@;
        let q = self.opt_text("usages", &f.usages);
        let q = q.opt_text("catalogs", &f.catalogs);
        let q = q.opt_text("locations", &f.locations);
        let q = q.opt_text("areas", &f.areas);
        let q = q.opt_text("fleets", &f.fleets);
        let q = q.opt_text("rooms", &f.rooms);
        let q = q.opt_text("platforms", &f.platforms);
        assert(q@ =~= start + filter_pairs(*f));
        q
    }

    /// Appends `key=value` pairs given verbatim on the command line, each
    /// split at its first `=`; the first one without `=` is refused.
    pub fn params(self, pairs: &[String]) -> (r: Result<Query, CliError>)
        ensures
            match r {
                Ok(q) => param_pairs(pairs@) matches Some(ps) && q@ == self@ + ps,
                Err(e) => param_pairs(pairs@) is None && exists|i: int|
                    first_bad_param(pairs@, i) && e == CliError::BadParam(pairs@[i]),
            },
    {
        let mut q = self;
        let ghost start = q@;
        for i in 0..pairs.len()
            invariant
                param_pairs(pairs@.take(i as int)) matches Some(ps) && q@ == start + ps,
                forall|k: int| 0 <= k < i ==> split_once(#[trigger] pairs@[k]@, '=') is Some,
        {
            let p = &pairs[i];
            let cs = chars_of(p.as_str());
            assert(pairs@.take(i + 1).drop_last() =~= pairs@.take(i as int));
            assert(pairs@.take(i + 1).last() == pairs@[i as int]);
            match split_once_chars(&cs, '=') {
                Some((k, v)) => {
                    q = q.push(string_of(&k), string_of(&v));
                },
                None => {
                    assert(first_bad_param(pairs@, i as int));
                    proof {
                        lemma_param_pairs_fail(pairs@, i as int);
                    }
                    return Err(CliError::BadParam(p.clone()));
                },
            }
        }
        assert(pairs@.take(pairs.len() as int) =~= pairs@);
        Ok(q)
    }

    /// `base` followed by the query string.
    pub fn path(&self, base: &str) -> (r: String)
        ensures
            r@ == base@ + query_text(self@),
    {
        let mut r = owned(base);
        let qs = query_string(self.0.as_slice());
        r.append(qs.as_str());
        r
    }
}

} // verus!
