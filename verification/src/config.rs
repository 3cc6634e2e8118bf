//! Runtime configuration: the API endpoint and the credential to present.
//!
//! Each value is resolved from the first source that has it, in this order:
//! the environment; the ReportMate admin app's saved connection on this
//! machine; for the credential, an Entra sign-in for a known audience
//! before any shared secret on the machine; the device runner's own
//! preferences; the deployment's cloud. `REPORTMATE_NO_DISCOVERY=1` confines resolution to the
//! environment. The reading itself (environment, files, helper programs) is
//! done by the caller; [`crate::resolve`] decides what to read and what
//! follows from it.
use vstd::prelude::*;
use vstd::string::StringExecFns;

use crate::error::CliError;
use crate::json::{json_member_str, json_parse_error, json_str_member, opt_view};
use crate::text::{
    before_char, before_char_chars, chars_of, has_prefix, join_words, join_words_of, lines_of,
    starts_with, text_lines, trim_chars, views, words, words_of, contains, ends_with, find_from, first_match, has_infix,
    has_suffix, lemma_first_match_unique, lower, occurs_at, owned, same_text, string_of, sub_chars,
    to_ascii_lowercase, trim, trim_str,
};

verus! {

pub enum Credential {
    ApiKey(String),
    Passphrase(String),
    Bearer(String),
}

pub open spec fn kind_text(c: Credential) -> Seq<char> {
    match c {
        Credential::ApiKey(_) => "api key (X-API-Key)"@,
        Credential::Passphrase(_) => "passphrase (X-Client-Passphrase)"@,
        Credential::Bearer(_) => "bearer token (Authorization)"@,
    }
}

impl Credential {
    /// What kind of credential this is and which header carries it.
    pub fn kind(&self) -> (r: &'static str)
        ensures
            r@ == kind_text(*self),
    {
        match self {
            Credential::ApiKey(_) => "api key (X-API-Key)",
            Credential::Passphrase(_) => "passphrase (X-Client-Passphrase)",
            Credential::Bearer(_) => "bearer token (Authorization)",
        }
    }
}

/// Where each resolved value came from, for `reportmateutil config`.
#[derive(Default)]
pub struct Sources {
    pub api_url: Option<String>,
    pub credential: Option<String>,
    pub audience: Option<String>,
}

/// The admin app's saved connection, minus secrets.
#[derive(Default, Debug, PartialEq)]
pub struct AppConnection {
    pub api_url: Option<String>,
    pub auth_method: Option<String>,
    pub oidc_audience: Option<String>,
    pub cloud: Option<String>,
}

/// The endpoint and credential a request is made with.
pub struct Config {
    pub api_url: String,
    pub credential: Credential,
    pub internal_secret: Option<String>,
    pub sources: Sources,
}

/// Everything the resolver found, including why a step was skipped.
pub struct Resolution {
    pub api_url: Option<String>,
    pub credential: Option<Credential>,
    pub internal_secret: Option<String>,
    pub sources: Sources,
    pub notes: Vec<String>,
}

impl Config {
    /// The configuration a resolution gives: its endpoint and credential,
    /// or the error that names what is missing (the endpoint first).
    pub fn load(r: Resolution) -> (res: Result<Config, CliError>)
        ensures
            r.api_url is None ==> res == Err::<Config, CliError>(CliError::NoEndpoint),
            r.api_url is Some && r.credential is None ==> res == Err::<Config, CliError>(
                CliError::NoCredential { notes: r.notes },
            ),
            r.api_url is Some && r.credential is Some ==> (res matches Ok(c) && c.api_url
                == r.api_url.unwrap() && c.credential == r.credential.unwrap()
                && c.internal_secret == r.internal_secret && c.sources == r.sources),
    {
        let api_url = match r.api_url {
            Some(u) => u,
            None => return Err(CliError::NoEndpoint),
        };
        let credential = match r.credential {
            Some(c) => c,
            None => return Err(CliError::NoCredential { notes: r.notes }),
        };
        Ok(Config { api_url, credential, internal_secret: r.internal_secret, sources: r.sources })
    }
}

/// Some text when it is not empty.
pub open spec fn nonempty(s: Seq<char>) -> Option<Seq<char>> {
    if s.len() > 0 {
        Some(s)
    } else {
        None
    }
}

pub open spec fn or_else(a: Option<Seq<char>>, b: Option<Seq<char>>) -> Option<Seq<char>> {
    match a {
        Some(x) => Some(x),
        None => b,
    }
}

/// An environment value as the resolver uses it: trimmed, and absent when
/// empty.
pub open spec fn cleaned(raw: Option<Seq<char>>) -> Option<Seq<char>> {
    match raw {
        Some(v) => nonempty(trim(v)),
        None => None,
    }
}

/// A raw environment value, trimmed; `None` when unset or blank.
pub fn env_value(raw: &Option<String>) -> (r: Option<String>)
    ensures
        opt_view(r) == cleaned(opt_view(*raw)),
{
    match raw {
        Some(v) => {
            let t = trim_str(v.as_str());
            if t.as_str().is_empty() {
                None
            } else {
                Some(t)
            }
        },
        None => None,
    }
}

/// A helper program's output as the resolver uses it: its trimmed stdout
/// when it exited 0 with output, else nothing.
pub open spec fn stdout_text(success: bool, stdout: Seq<char>) -> Option<Seq<char>> {
    if success {
        nonempty(trim(stdout))
    } else {
        None
    }
}

pub fn stdout_value(success: bool, stdout: &str) -> (r: Option<String>)
    ensures
        opt_view(r) == stdout_text(success, stdout@),
{
    if !success {
        return None;
    }
    let t = trim_str(stdout);
    if t.as_str().is_empty() {
        None
    } else {
        Some(t)
    }
}

pub open spec fn az_failure(audience: Seq<char>) -> Seq<char> {
    "az account get-access-token --resource "@ + audience + " returned nothing (run az login)"@
}

pub open spec fn aws_failure(secret_id: Seq<char>) -> Seq<char> {
    "aws secretsmanager get-secret-value --secret-id "@ + secret_id
        + " returned nothing (run aws sso login)"@
}

/// A delegated token for the API's Entra audience, from what
/// `az account get-access-token` printed.
pub fn az_token(audience: &str, output: Option<String>) -> (r: Result<String, String>)
    ensures
        match output {
            Some(t) => r == Ok::<String, String>(t),
            None => r matches Err(e) && e@ == az_failure(audience@),
        },
{
    match output {
        Some(t) => Ok(t),
        None => {
            let mut e = owned("az account get-access-token --resource ");
            e.append(audience);
            e.append(" returned nothing (run az login)");
            Err(e)
        },
    }
}

/// The client passphrase from what `aws secretsmanager get-secret-value`
/// printed; the text `None` means the secret holds no string.
pub fn aws_secret(secret_id: &str, output: Option<String>) -> (r: Result<String, String>)
    ensures
        match output {
            Some(s) if s@ != "None"@ => r == Ok::<String, String>(s),
            _ => r matches Err(e) && e@ == aws_failure(secret_id@),
        },
{
    match output {
        Some(s) => {
            if !same_text(s.as_str(), "None") {
                return Ok(s);
            }
        },
        None => {},
    }
    let mut e = owned("aws secretsmanager get-secret-value --secret-id ");
    e.append(secret_id);
    e.append(" returned nothing (run aws sso login)");
    Err(e)
}

/// The text between the first `//` and the next one (or the end), or all of
/// `u` when it holds no `//` (`u.split("//").nth(1)`, else `u`).
pub open spec fn after_scheme(u: Seq<char>) -> Seq<char> {
    let sep = seq!['/', '/'];
    if exists|i: int| first_match(u, sep, 0, i) {
        let start = (choose|i: int| first_match(u, sep, 0, i)) + 2;
        if exists|j: int| #[trigger] first_match(u, sep, start, j) {
            u.subrange(start, choose|j: int| #[trigger] first_match(u, sep, start, j))
        } else {
            u.skip(start)
        }
    } else {
        u
    }
}

/// The lower-cased host of an API URL.
pub open spec fn host_of(u: Seq<char>) -> Seq<char> {
    lower(before_char(after_scheme(u), '/'))
}

/// The cloud a host belongs to.
pub open spec fn cloud_of_host(h: Seq<char>) -> Option<Seq<char>> {
    if has_suffix(h, ".amazonaws.com"@) || has_infix(h, ".execute-api."@) || has_suffix(
        h,
        ".awsapprunner.com"@,
    ) {
        Some("aws"@)
    } else if has_suffix(h, ".azurecontainerapps.io"@) || has_suffix(h, ".azurewebsites.net"@)
        || has_suffix(h, ".azure-api.net"@) {
        Some("azure"@)
    } else {
        None
    }
}

fn after_scheme_chars(v: &Vec<char>) -> (r: Vec<char>)
    ensures
        r@ == after_scheme(v@),
{
    let mut sep: Vec<char> = Vec::new();
    sep.push('/');
    sep.push('/');
    assert(sep@ =~= seq!['/', '/']);
    match find_from(v, &sep, 0) {
        Some(i) => {
            let ghost ci = choose|k: int| first_match(v@, seq!['/', '/'], 0, k);
            proof {
                lemma_first_match_unique(v@, seq!['/', '/'], 0, i as int, ci);
            }
            assert(occurs_at(v@, sep@, i as int));
            assert(sep@.len() == 2);
            assert(i + 2 <= v@.len());
            assert(i + 2 <= v.len());
            let start = i + 2;
            match find_from(v, &sep, start) {
                Some(j) => {
                    let ghost cj = choose|k: int| first_match(v@, seq!['/', '/'], start as int, k);
                    proof {
                        lemma_first_match_unique(v@, seq!['/', '/'], start as int, j as int, cj);
                    }
                    sub_chars(v, start, j)
                },
                None => {
                    assert(forall|k: int| !first_match(v@, seq!['/', '/'], start as int, k));
                    let r = sub_chars(v, start, v.len());
                    assert(r@ =~= v@.skip(start as int));
                    r
                },
            }
        },
        None => {
            assert(forall|k: int| !first_match(v@, seq!['/', '/'], 0, k));
            sub_chars(v, 0, v.len())
        },
    }
}

/// `aws` for an AWS-hosted API, `azure` for an Azure one, by the host alone.
pub fn detect_cloud(api_url: &str) -> (r: Option<String>)
    ensures
        opt_view(r) == cloud_of_host(host_of(api_url@)),
{
    let v = chars_of(api_url);
    let rest = after_scheme_chars(&v);
    let h = before_char_chars(&rest, '/');
    let host = to_ascii_lowercase(&h);
    if ends_with(&host, &chars_of(".amazonaws.com")) || contains(&host, &chars_of(".execute-api."))
        || ends_with(&host, &chars_of(".awsapprunner.com")) {
        Some(owned("aws"))
    } else if ends_with(&host, &chars_of(".azurecontainerapps.io")) || ends_with(
        &host,
        &chars_of(".azurewebsites.net"),
    ) || ends_with(&host, &chars_of(".azure-api.net")) {
        Some(owned("azure"))
    } else {
        None
    }
}

/// A string member of the connection document: trimmed, absent when blank.
pub open spec fn connection_member(text: Seq<char>, key: Seq<char>) -> Option<Seq<char>> {
    match json_member_str(text, key) {
        Some(v) => nonempty(trim(v)),
        None => None,
    }
}

/// The admin app's saved connection, as text.
pub struct ConnView {
    pub api_url: Option<Seq<char>>,
    pub auth_method: Option<Seq<char>>,
    pub oidc_audience: Option<Seq<char>>,
    pub cloud: Option<Seq<char>>,
}

/// The connection a `connection.json` document describes.
pub open spec fn connection_fields(text: Seq<char>) -> ConnView {
    ConnView {
        api_url: or_else(connection_member(text, "apiUrl"@), connection_member(text, "apiBaseUrl"@)),
        auth_method: connection_member(text, "authMethod"@),
        oidc_audience: connection_member(text, "oidcAudience"@),
        cloud: connection_member(text, "cloud"@),
    }
}

pub open spec fn connection_view(c: AppConnection) -> ConnView {
    ConnView {
        api_url: opt_view(c.api_url),
        auth_method: opt_view(c.auth_method),
        oidc_audience: opt_view(c.oidc_audience),
        cloud: opt_view(c.cloud),
    }
}

fn member(text: &str, key: &str) -> (r: Option<String>)
    requires
        json_parse_error(text@) is None,
    ensures
        opt_view(r) == connection_member(text@, key@),
{
    match json_str_member(text, key) {
        Some(Some(v)) => {
            let t = trim_str(v.as_str());
            if t.as_str().is_empty() {
                None
            } else {
                Some(t)
            }
        },
        _ => None,
    }
}

/// The app's saved connection from the text of its `connection.json`;
/// `None` when the text is not JSON.
pub fn parse_connection_json(text: &str) -> (r: Option<AppConnection>)
    ensures
        match r {
            Some(c) => json_parse_error(text@) is None && connection_view(c)
                == connection_fields(text@),
            None => json_parse_error(text@) is Some,
        },
{
    match json_str_member(text, "apiUrl") {
        None => return None,
        Some(_) => {},
    }
    let api_url = match member(text, "apiUrl") {
        Some(u) => Some(u),
        None => member(text, "apiBaseUrl"),
    };
    Some(
        AppConnection {
            api_url,
            auth_method: member(text, "authMethod"),
            oidc_audience: member(text, "oidcAudience"),
            cloud: member(text, "cloud"),
        },
    )
}

/// What one line of a `reg query` listing says about the value `name`.
pub enum RegLine {
    /// Not the value's line.
    Skip,
    /// The value's line, but nothing follows the name: the listing is given up.
    Stop,
    /// The value.
    Found(Seq<char>),
}

/// A line `NAME    REG_xx    value`: the words after the type, joined by
/// single spaces.
pub open spec fn reg_line(line: Seq<char>, name: Seq<char>) -> RegLine {
    let t = trim(line);
    if has_prefix(t, name) {
        let ws = words(t.skip(name.len() as int));
        if ws.len() == 0 {
            RegLine::Stop
        } else if has_prefix(ws[0], "REG_"@) && join_words(ws.skip(1)).len() > 0 {
            RegLine::Found(join_words(ws.skip(1)))
        } else {
            RegLine::Skip
        }
    } else {
        RegLine::Skip
    }
}

/// The value the first line that decides gives.
pub open spec fn reg_scan(lines: Seq<Seq<char>>, name: Seq<char>) -> Option<Seq<char>>
    decreases lines.len(),
{
    if lines.len() == 0 {
        None
    } else {
        match reg_line(lines[0], name) {
            RegLine::Skip => reg_scan(lines.drop_first(), name),
            RegLine::Stop => None,
            RegLine::Found(v) => Some(v),
        }
    }
}

/// The value from a `reg query ... /v NAME` listing: `NAME    REG_SZ    value`.
pub fn parse_reg_query(out: &str, name: &str) -> (r: Option<String>)
    ensures
        opt_view(r) == reg_scan(text_lines(out@), name@),
{
    let lines = lines_of(&chars_of(out));
    let nm = chars_of(name);
    let reg = chars_of("REG_");
    let ghost all = views(lines@);
    let mut i: usize = 0;
    assert(all.skip(0) =~= all);
    while i < lines.len()
        invariant
            i <= lines.len(),
            all == views(lines@),
            all == text_lines(out@),
            reg_scan(all, name@) == reg_scan(all.skip(i as int), name@),
            nm@ == name@,
            reg@ == "REG_"@,
        decreases lines.len() - i,
    {
        let ghost rest = all.skip(i as int);
        assert(rest[0] == lines@[i as int]@);
        assert(rest.drop_first() =~= all.skip(i + 1));
        let t = trim_chars(&lines[i]);
        if starts_with(&t, &nm) {
            let after = sub_chars(&t, nm.len(), t.len());
            assert(after@ =~= t@.skip(nm@.len() as int));
            let ws = words_of(&after);
            if ws.len() == 0 {
                return None;
            }
            assert(views(ws@)[0] == ws@[0]@);
            if starts_with(&ws[0], &reg) {
                let v = join_words_of(&ws, 1);
                if v.len() > 0 {
                    return Some(string_of(&v));
                }
            }
        }
        i = i + 1;
    }
    None
}

} // verus!
