//! What goes on the wire around a request, and what a response means.
//!
//! Sending is the caller's; this module says which headers and URL a request
//! carries and how the status, content type and body of the answer are
//! read.
use vstd::prelude::*;
use vstd::string::StringExecFns;

use crate::cli::{method_text, HttpMethod};
use crate::config::{Config, Credential};
use crate::error::CliError;
use crate::json::{json_check, json_parse_error, json_pretty, json_pretty_text};
use crate::query::{pair_view, pairs_view};
use crate::text::{chars_of, contains, has_infix, has_prefix, owned, starts_with, string_of, sub_chars};

verus! {

/// A response body: JSON text, or plain text when the endpoint does not
/// speak JSON (CSV exports, Prometheus metrics).
#[derive(Debug, PartialEq, Eq)]
pub enum Body {
    Json(String),
    Text(String),
}

/// At most the first `n` characters of `s`.
pub open spec fn first_chars(s: Seq<char>, n: nat) -> Seq<char> {
    if s.len() <= n {
        s
    } else {
        s.take(n as int)
    }
}

/// What a text endpoint's caller prints: plain text as it came, JSON
/// pretty-printed.
pub open spec fn text_of_json(t: Seq<char>) -> Seq<char> {
    if json_parse_error(t) is None {
        json_pretty_text(t)
    } else {
        t
    }
}

impl Body {
    /// The JSON text, or an error if the endpoint returned something else;
    /// the error quotes the first 200 characters of the body.
    pub fn into_json(self, path: &str) -> (r: Result<String, CliError>)
        ensures
            match self {
                Body::Json(t) => r == Ok::<String, CliError>(t),
                Body::Text(t) => r matches Err(CliError::NotJson { path: p, excerpt: x }) && p@
                    == path@ && x@ == first_chars(t@, 200),
            },
    {
        match self {
            Body::Json(t) => Ok(t),
            Body::Text(t) => {
                let cs = chars_of(t.as_str());
                let n = if cs.len() <= 200 {
                    cs.len()
                } else {
                    200
                };
                let head = sub_chars(&cs, 0, n);
                assert(head@ =~= first_chars(t@, 200));
                Err(CliError::NotJson { path: owned(path), excerpt: string_of(&head) })
            },
        }
    }

    /// The body as text: plain text verbatim, JSON pretty-printed.
    pub fn into_text(self) -> (r: String)
        ensures
            match self {
                Body::Text(t) => r == t,
                Body::Json(t) => r@ == text_of_json(t@),
            },
    {
        match self {
            Body::Text(t) => t,
            Body::Json(t) => match json_pretty(t.as_str()) {
                Some(p) => p,
                None => t,
            },
        }
    }
}

/// The text a text endpoint gives: a failed response's error as it is,
/// else the body as text (plain text verbatim, JSON pretty-printed).
pub fn response_text(r: Result<Body, CliError>) -> (t: Result<String, CliError>)
    ensures
        match r {
            Err(e) => t == Err::<String, CliError>(e),
            Ok(Body::Text(x)) => t == Ok::<String, CliError>(x),
            Ok(Body::Json(x)) => t matches Ok(p) && p@ == text_of_json(x@),
        },
{
    match r {
        Err(e) => Err(e),
        Ok(b) => Ok(b.into_text()),
    }
}

/// The JSON a JSON endpoint gives: a failed response's error as it is, the
/// error for a text body, else the JSON text.
pub fn response_json(r: Result<Body, CliError>, path: &str) -> (j: Result<String, CliError>)
    ensures
        match r {
            Err(e) => j == Err::<String, CliError>(e),
            Ok(Body::Json(x)) => j == Ok::<String, CliError>(x),
            Ok(Body::Text(x)) => j matches Err(CliError::NotJson { path: p, excerpt: e }) && p@
                == path@ && e@ == first_chars(x@, 200),
        },
{
    match r {
        Err(e) => Err(e),
        Ok(b) => b.into_json(path),
    }
}

pub open spec fn is_success(status: u16) -> bool {
    200 <= status < 300
}

/// The body a successful response carries: empty means JSON `null`; a JSON
/// content type must parse; otherwise text that parses is JSON unless the
/// content type is `text/...`.
pub open spec fn body_is(r: Result<Body, CliError>, content_type: Seq<char>, text: String) -> bool {
    if text@.len() == 0 {
        r matches Ok(Body::Json(t)) && t@ == "null"@
    } else if has_infix(content_type, "json"@) {
        match json_parse_error(text@) {
            None => r == Ok::<Body, CliError>(Body::Json(text)),
            Some(e) => r matches Err(CliError::BadResponseJson(d)) && d@ == e,
        }
    } else if json_parse_error(text@) is None && !has_prefix(content_type, "text/"@) {
        r == Ok::<Body, CliError>(Body::Json(text))
    } else {
        r == Ok::<Body, CliError>(Body::Text(text))
    }
}

/// Reads a response: a non-success status is an error that carries the
/// method, path, status and body; otherwise the body, parsed as JSON when
/// the server says it is JSON (or when it parses anyway), else as text.
pub fn read_response(
    method: HttpMethod,
    path: &str,
    status: u16,
    status_text: &str,
    content_type: &str,
    text: String,
) -> (r: Result<Body, CliError>)
    ensures
        !is_success(status) ==> (r matches Err(
            CliError::Upstream { method: m, path: p, status: s, body: b },
        ) && m@ == method_text(method) && p@ == path@ && s@ == status_text@ && b@ == text@),
        is_success(status) ==> body_is(r, content_type@, text),
{
    if !(200 <= status && status < 300) {
        return Err(
            CliError::Upstream {
                method: owned(method.as_str()),
                path: owned(path),
                status: owned(status_text),
                body: text,
            },
        );
    }
    if text.as_str().is_empty() {
        return Ok(Body::Json(owned("null")));
    }
    let ct = chars_of(content_type);
    if contains(&ct, &chars_of("json")) {
        return match json_check(text.as_str()) {
            Ok(()) => Ok(Body::Json(text)),
            Err(e) => Err(CliError::BadResponseJson(e)),
        };
    }
    let parses = match json_check(text.as_str()) {
        Ok(()) => true,
        Err(_) => false,
    };
    if parses && !starts_with(&ct, &chars_of("text/")) {
        Ok(Body::Json(text))
    } else {
        Ok(Body::Text(text))
    }
}

/// The header that carries a credential.
pub open spec fn credential_header(c: Credential) -> (Seq<char>, Seq<char>) {
    match c {
        Credential::ApiKey(k) => ("X-API-Key"@, k@),
        Credential::Bearer(t) => ("Authorization"@, "Bearer "@ + t@),
        Credential::Passphrase(p) => ("X-Client-Passphrase"@, p@),
    }
}

/// The credential's header, and the internal secret when there is one.
pub open spec fn auth_pairs(cfg: Config) -> Seq<(Seq<char>, Seq<char>)> {
    seq![credential_header(cfg.credential)] + match cfg.internal_secret {
        Some(s) => seq![("X-Internal-Secret"@, s@)],
        None => seq![],
    }
}

pub open spec fn accept_value() -> Seq<char> {
    "application/json, text/plain;q=0.9, */*;q=0.8"@
}

fn push_pair(v: &mut Vec<(String, String)>, k: String, val: String)
    ensures
        pairs_view(final(v)@) == pairs_view(old(v)@).push((k@, val@)),
{
    let ghost before = pairs_view(v@);
    v.push((k, val));
    assert(pairs_view(v@) =~= before.push((k@, val@)));
}

/// The authentication headers of a request: the credential's own header,
/// and `X-Internal-Secret` when an internal secret is configured.
pub fn auth_headers(cfg: &Config) -> (r: Vec<(String, String)>)
    ensures
        pairs_view(r@) == auth_pairs(*cfg),
{
    let mut r: Vec<(String, String)> = Vec::new();
    assert(pairs_view(r@) =~= Seq::<(Seq<char>, Seq<char>)>::empty());
    match &cfg.credential {
        Credential::ApiKey(k) => push_pair(&mut r, owned("X-API-Key"), k.clone()),
        Credential::Bearer(t) => {
            let mut v = owned("Bearer ");
            v.append(t.as_str());
            push_pair(&mut r, owned("Authorization"), v);
        },
        Credential::Passphrase(p) => push_pair(&mut r, owned("X-Client-Passphrase"), p.clone()),
    }
    match &cfg.internal_secret {
        Some(s) => push_pair(&mut r, owned("X-Internal-Secret"), s.clone()),
        None => {},
    }
    assert(pairs_view(r@) =~= auth_pairs(*cfg));
    r
}

/// `Content-Type: application/json` for a request with a JSON body, and
/// nothing for one without.
pub open spec fn content_pairs(has_body: bool) -> Seq<(Seq<char>, Seq<char>)> {
    if has_body {
        seq![("Content-Type"@, "application/json"@)]
    } else {
        seq![]
    }
}

/// Every header a request carries: the JSON content type when it has a
/// body, the command's own, the authentication headers, and `Accept`.
pub fn request_headers(cfg: &Config, extra: &Vec<(String, String)>, has_body: bool) -> (r: Vec<(String, String)>)
    ensures
        pairs_view(r@) == content_pairs(has_body) + pairs_view(extra@) + auth_pairs(*cfg) + seq![
            ("Accept"@, accept_value()),
        ],
{
    let mut r: Vec<(String, String)> = Vec::new();
    assert(pairs_view(r@) =~= Seq::<(Seq<char>, Seq<char>)>::empty());
    if has_body {
        push_pair(&mut r, owned("Content-Type"), owned("application/json"));
    }
    let ghost head = pairs_view(r@);
    assert(head =~= content_pairs(has_body));
    for i in 0..extra.len()
        invariant
            head == content_pairs(has_body),
            pairs_view(r@) == head + pairs_view(extra@.take(i as int)),
    {
        push_pair(&mut r, extra[i].0.clone(), extra[i].1.clone());
        assert(pairs_view(extra@.take(i + 1)) =~= pairs_view(extra@.take(i as int)).push(
            pair_view(extra@[i as int]),
        ));
        assert(pairs_view(r@) =~= head + pairs_view(extra@.take(i + 1)));
    }
    assert(extra@.take(extra.len() as int) =~= extra@);
    let mut auth = auth_headers(cfg);
    let ghost before = pairs_view(r@);
    let ghost av = pairs_view(auth@);
    r.append(&mut auth);
    assert(pairs_view(r@) =~= before + av);
    push_pair(&mut r, owned("Accept"), owned("application/json, text/plain;q=0.9, */*;q=0.8"));
    r
}

/// The URL of a request: the API root followed by the path and query.
pub fn request_url(cfg: &Config, target: &str) -> (r: String)
    ensures
        r@ == cfg.api_url@ + target@,
{
    let mut r = cfg.api_url.clone();
    r.append(target);
    r
}

/// The `User-Agent` a request carries.
pub fn user_agent(version: &str) -> (r: String)
    ensures
        r@ == "reportmate-cli/"@ + version@,
{
    let mut r = owned("reportmate-cli/");
    r.append(version);
    r
}

} // verus!
