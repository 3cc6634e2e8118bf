//! Resolving the endpoint and credential, one outside lookup at a time.
//!
//! The resolver decides what to read next (the admin app's connection file,
//! or a helper program's output) and what follows from each answer; the
//! caller performs the lookups. Credentials come from the first source that
//! has one, in this order: `REPORTMATE_API_KEY`, `REPORTMATE_TOKEN`,
//! `REPORTMATE_PASSPHRASE`; the admin app's saved credential, by the method
//! the app uses; an Entra token through `az` for the audience from the
//! environment or the app's connection (before any shared secret on the
//! machine); the device runner's read API key (Windows) and shared
//! passphrase; the AWS Secrets Manager passphrase of an AWS-hosted
//! deployment. The runner's ingest-only API key is never read.
use vstd::prelude::*;
use vstd::string::StringExecFns;

use crate::config::{
    aws_failure, aws_secret, az_failure, az_token, cleaned, cloud_of_host, connection_fields,
    connection_view, detect_cloud, env_value, host_of, or_else, parse_connection_json,
    parse_reg_query, reg_scan, AppConnection, ConnView, Credential, Resolution, Sources,
};
use crate::json::{json_parse_error, opt_view};
use crate::text::{owned, same_text, strip_end, strip_end_chars, chars_of, string_of, text_lines, trim, trim_str};

verus! {

/// The operating system the tool runs on: where the app and the runner
/// keep their settings.
#[derive(Clone, Copy, Debug, PartialEq, Eq)]
pub enum Platform {
    MacOs,
    Windows,
    Other,
}

/// The environment variables resolution reads, as found (`None` when unset).
pub struct Environment {
    /// `REPORTMATE_API_URL`
    pub api_url: Option<String>,
    /// `REPORTMATE_OIDC_AUDIENCE`
    pub oidc_audience: Option<String>,
    /// `REPORTMATE_API_KEY`
    pub api_key: Option<String>,
    /// `REPORTMATE_TOKEN`
    pub token: Option<String>,
    /// `REPORTMATE_PASSPHRASE`
    pub passphrase: Option<String>,
    /// `REPORTMATE_NO_DISCOVERY`
    pub no_discovery: Option<String>,
    /// `REPORTMATE_CLOUD`
    pub cloud: Option<String>,
    /// `REPORTMATE_AWS_SECRET_ID`
    pub aws_secret_id: Option<String>,
    /// `REPORTMATE_INTERNAL_SECRET`
    pub internal_secret: Option<String>,
}

/// The device runner's endpoint, read API key and shared passphrase on this
/// machine.
pub struct RunnerPrefs {
    pub api_url: Option<String>,
    pub read_api_key: Option<String>,
    pub passphrase: Option<String>,
}

/// What the caller has to read for the resolver.
pub enum Lookup {
    /// The text of the admin app's `connection.json`, or nothing when it
    /// cannot be read.
    ConnectionFile,
    /// The trimmed standard output of a program ([`crate::config::stdout_value`]).
    Run { program: String, args: Vec<String> },
}

/// A source the credential may come from.
pub enum Candidate {
    /// Known without a lookup.
    Given { credential: Credential, source: String },
    /// An item of the admin app's keychain service: an API key or a passphrase.
    Keychain { account: String, api_key: bool, source: String },
    /// An Entra token for the audience, through `az`.
    Entra { audience: String, source: String },
    /// The client passphrase in AWS Secrets Manager.
    Aws { secret_id: String },
}

/// The resolver between two lookups.
pub struct Resolver {
    env: Environment,
    platform: Platform,
    discover: bool,
    connection: AppConnection,
    runner: RunnerPrefs,
    pc: u8,
    candidates: Vec<Candidate>,
    next: usize,
    credential: Option<(Credential, String)>,
    notes: Vec<String>,
}

/// One step of resolution: a lookup to make, or the result.
pub enum Step {
    Ask(Resolver, Lookup),
    Done(Resolution),
}

// ---------------------------------------------------------------- views

pub struct EnvView {
    pub api_url: Option<Seq<char>>,
    pub oidc_audience: Option<Seq<char>>,
    pub api_key: Option<Seq<char>>,
    pub token: Option<Seq<char>>,
    pub passphrase: Option<Seq<char>>,
    pub no_discovery: Option<Seq<char>>,
    pub cloud: Option<Seq<char>>,
    pub aws_secret_id: Option<Seq<char>>,
    pub internal_secret: Option<Seq<char>>,
}

pub open spec fn env_view(e: Environment) -> EnvView {
    EnvView {
        api_url: opt_view(e.api_url),
        oidc_audience: opt_view(e.oidc_audience),
        api_key: opt_view(e.api_key),
        token: opt_view(e.token),
        passphrase: opt_view(e.passphrase),
        no_discovery: opt_view(e.no_discovery),
        cloud: opt_view(e.cloud),
        aws_secret_id: opt_view(e.aws_secret_id),
        internal_secret: opt_view(e.internal_secret),
    }
}

/// Every value trimmed, and absent when blank.
pub open spec fn clean_env(e: EnvView) -> EnvView {
    EnvView {
        api_url: cleaned(e.api_url),
        oidc_audience: cleaned(e.oidc_audience),
        api_key: cleaned(e.api_key),
        token: cleaned(e.token),
        passphrase: cleaned(e.passphrase),
        no_discovery: cleaned(e.no_discovery),
        cloud: cleaned(e.cloud),
        aws_secret_id: cleaned(e.aws_secret_id),
        internal_secret: cleaned(e.internal_secret),
    }
}

pub enum CredView {
    ApiKey(Seq<char>),
    Passphrase(Seq<char>),
    Bearer(Seq<char>),
}

pub open spec fn cred_view(c: Credential) -> CredView {
    match c {
        Credential::ApiKey(k) => CredView::ApiKey(k@),
        Credential::Passphrase(p) => CredView::Passphrase(p@),
        Credential::Bearer(t) => CredView::Bearer(t@),
    }
}

pub enum Cand {
    Given(CredView, Seq<char>),
    Keychain(Seq<char>, bool, Seq<char>),
    Entra(Seq<char>, Seq<char>),
    Aws(Seq<char>),
}

pub open spec fn cand_view(c: Candidate) -> Cand {
    match c {
        Candidate::Given { credential, source } => Cand::Given(cred_view(credential), source@),
        Candidate::Keychain { account, api_key, source } => Cand::Keychain(
            account@,
            api_key,
            source@,
        ),
        Candidate::Entra { audience, source } => Cand::Entra(audience@, source@),
        Candidate::Aws { secret_id } => Cand::Aws(secret_id@),
    }
}

pub open spec fn cand_views(cs: Seq<Candidate>) -> Seq<Cand> {
    cs.map_values(|c: Candidate| cand_view(c))
}

/// What the resolver knows about this machine.
pub struct Facts {
    pub env: EnvView,
    pub platform: Platform,
    pub discover: bool,
    pub conn: ConnView,
    pub runner_url: Option<Seq<char>>,
    pub runner_read_key: Option<Seq<char>>,
    pub runner_pass: Option<Seq<char>>,
}

/// The resolver's state: its facts, the step it is at (0: connection file;
/// 1-3: the connection's items in the macOS keychain, read only when no
/// connection file could be read and parsed; 4-12: the runner's
/// preferences, three names each looked up under three registry keys in
/// turn; 13: credential sources; 14: finished), the credential source it is
/// at, and what it has found.
pub struct ResolverView {
    pub facts: Facts,
    pub pc: int,
    pub next: int,
    pub credential: Option<(CredView, Seq<char>)>,
    pub notes: Seq<Seq<char>>,
}

pub enum LookupView {
    ConnectionFile,
    Run(Seq<char>, Seq<Seq<char>>),
}

pub open spec fn strings_view(v: Seq<String>) -> Seq<Seq<char>> {
    v.map_values(|s: String| s@)
}

pub open spec fn lookup_view(l: Lookup) -> LookupView {
    match l {
        Lookup::ConnectionFile => LookupView::ConnectionFile,
        Lookup::Run { program, args } => LookupView::Run(program@, strings_view(args@)),
    }
}

pub open spec fn cred_pair_view(c: Option<(Credential, String)>) -> Option<(CredView, Seq<char>)> {
    match c {
        Some((cr, s)) => Some((cred_view(cr), s@)),
        None => None,
    }
}

impl View for Resolver {
    type V = ResolverView;

    closed spec fn view(&self) -> ResolverView {
        ResolverView {
            facts: Facts {
                env: env_view(self.env),
                platform: self.platform,
                discover: self.discover,
                conn: connection_view(self.connection),
                runner_url: opt_view(self.runner.api_url),
                runner_read_key: opt_view(self.runner.read_api_key),
                runner_pass: opt_view(self.runner.passphrase),
            },
            pc: self.pc as int,
            next: self.next as int,
            credential: cred_pair_view(self.credential),
            notes: strings_view(self.notes@),
        }
    }
}

// ---------------------------------------------------------------- decisions

/// Discovery is on unless `REPORTMATE_NO_DISCOVERY` is `1`, `true` or `yes`.
pub open spec fn discovery_on(e: EnvView) -> bool {
    match e.no_discovery {
        Some(v) => !(v == "1"@ || v == "true"@ || v == "yes"@),
        None => true,
    }
}

pub open spec fn is_mac(p: Platform) -> bool {
    p == Platform::MacOs
}

/// The endpoint as found, and where: environment, app, runner.
pub open spec fn url_choice(f: Facts) -> Option<(Seq<char>, Seq<char>)> {
    match f.env.api_url {
        Some(u) => Some((u, "REPORTMATE_API_URL"@)),
        None => match f.conn.api_url {
            Some(u) => Some((u, "ReportMate app connection"@)),
            None => match f.runner_url {
                Some(u) => Some((u, "device runner preferences"@)),
                None => None,
            },
        },
    }
}

/// An endpoint as used: trimmed, without trailing `/`.
pub open spec fn normalized_url(u: Seq<char>) -> Seq<char> {
    strip_end(trim(u), '/')
}

pub open spec fn resolved_url(f: Facts) -> Option<Seq<char>> {
    match url_choice(f) {
        Some((u, _)) => Some(normalized_url(u)),
        None => None,
    }
}

/// The Entra audience, and where: environment, then the app.
pub open spec fn audience_choice(f: Facts) -> Option<(Seq<char>, Seq<char>)> {
    match f.env.oidc_audience {
        Some(a) => Some((a, "REPORTMATE_OIDC_AUDIENCE"@)),
        None => match f.conn.oidc_audience {
            Some(a) => Some((a, "ReportMate app connection"@)),
            None => None,
        },
    }
}

/// The deployment's cloud: the app's, the environment's, or the endpoint's
/// host's.
pub open spec fn cloud_choice(f: Facts) -> Option<Seq<char>> {
    or_else(
        f.conn.cloud,
        or_else(
            f.env.cloud,
            match resolved_url(f) {
                Some(u) => cloud_of_host(host_of(u)),
                None => None,
            },
        ),
    )
}

pub open spec fn secret_id_of(f: Facts) -> Seq<char> {
    match f.env.aws_secret_id {
        Some(i) => i,
        None => "reportmate/client-passphrase"@,
    }
}

pub open spec fn env_candidates(e: EnvView) -> Seq<Cand> {
    (match e.api_key {
        Some(k) => seq![Cand::Given(CredView::ApiKey(k), "REPORTMATE_API_KEY"@)],
        None => seq![],
    }) + (match e.token {
        Some(t) => seq![Cand::Given(CredView::Bearer(t), "REPORTMATE_TOKEN"@)],
        None => seq![],
    }) + (match e.passphrase {
        Some(p) => seq![Cand::Given(CredView::Passphrase(p), "REPORTMATE_PASSPHRASE"@)],
        None => seq![],
    })
}

pub open spec fn app_key_cand() -> Cand {
    Cand::Keychain("ApiKey"@, true, "ReportMate app connection (API key)"@)
}

pub open spec fn app_pass_cand() -> Cand {
    Cand::Keychain("Passphrase"@, false, "ReportMate app connection (passphrase)"@)
}

/// The app's saved credential, by the method the app uses: a token for its
/// audience, its API key, its passphrase, or (no method recorded) whichever
/// secret it holds. Secrets live in the macOS keychain only; with discovery
/// off the app is not consulted.
pub open spec fn app_candidates(f: Facts) -> Seq<Cand> {
    if !f.discover {
        seq![]
    } else if f.conn.auth_method == Some("entraBearer"@) {
        match audience_choice(f) {
            Some((a, _)) => seq![Cand::Entra(a, "Entra sign-in via az (app connection)"@)],
            None => seq![],
        }
    } else if !is_mac(f.platform) {
        seq![]
    } else if f.conn.auth_method == Some("apiKey"@) {
        seq![app_key_cand()]
    } else if f.conn.auth_method == Some("passphrase"@) {
        seq![app_pass_cand()]
    } else {
        seq![app_key_cand(), app_pass_cand()]
    }
}

/// Entra sign-in for the audience, with discovery on, before any shared
/// secret on the machine; not again when the app's own method already
/// tried it.
pub open spec fn entra_candidates(f: Facts) -> Seq<Cand> {
    if !f.discover || f.conn.auth_method == Some("entraBearer"@) {
        seq![]
    } else {
        match audience_choice(f) {
            Some((a, _)) => seq![Cand::Entra(a, "Entra sign-in via az"@)],
            None => seq![],
        }
    }
}

/// The runner's read API key, then its shared passphrase (its API key is
/// ingest-only and never used).
pub open spec fn runner_candidates(f: Facts) -> Seq<Cand> {
    (match f.runner_read_key {
        Some(k) => seq![Cand::Given(CredView::ApiKey(k), "device runner preferences (read API key)"@)],
        None => seq![],
    }) + (match f.runner_pass {
        Some(p) => seq![
            Cand::Given(CredView::Passphrase(p), "device runner preferences (passphrase)"@),
        ],
        None => seq![],
    })
}

/// The deployment's cloud, with discovery on: the AWS Secrets Manager
/// passphrase of an AWS-hosted API.
pub open spec fn cloud_candidates(f: Facts) -> Seq<Cand> {
    if f.discover && cloud_choice(f) == Some("aws"@) {
        seq![Cand::Aws(secret_id_of(f))]
    } else {
        seq![]
    }
}

/// Every credential source, in the order they are tried.
pub open spec fn candidates(f: Facts) -> Seq<Cand> {
    env_candidates(f.env) + app_candidates(f) + entra_candidates(f) + runner_candidates(f)
        + cloud_candidates(f)
}

pub open spec fn keychain_run(account: Seq<char>) -> LookupView {
    LookupView::Run(
        "security"@,
        seq![
            "find-generic-password"@,
            "-s"@,
            "com.github.reportmate.mac"@,
            "-a"@,
            account,
            "-w"@,
        ],
    )
}

pub open spec fn fill_account(pc: int) -> Seq<char> {
    if pc == 1 {
        "ApiBaseUrl"@
    } else if pc == 2 {
        "AuthMethod"@
    } else {
        "OidcAudience"@
    }
}

/// The first runner step of the value that step `pc` reads.
pub open spec fn runner_base(pc: int) -> int {
    if pc < 7 {
        4
    } else if pc < 10 {
        7
    } else {
        10
    }
}

/// The runner value a step reads: the endpoint, the read API key, the
/// passphrase.
pub open spec fn runner_name(pc: int) -> Seq<char> {
    if pc < 7 {
        "ApiUrl"@
    } else if pc < 10 {
        "ReadApiKey"@
    } else {
        "Passphrase"@
    }
}

/// The registry key a step reads on Windows: the main key, then its
/// `Settings` and `Policies` subkeys.
pub open spec fn runner_key(pc: int) -> Seq<char> {
    if pc == runner_base(pc) {
        "HKLM\\SOFTWARE\\ReportMate"@
    } else if pc == runner_base(pc) + 1 {
        "HKLM\\SOFTWARE\\ReportMate\\Settings"@
    } else {
        "HKLM\\SOFTWARE\\ReportMate\\Policies"@
    }
}

pub open spec fn runner_run(p: Platform, key: Seq<char>, name: Seq<char>) -> LookupView {
    if is_mac(p) {
        LookupView::Run("defaults"@, seq!["read"@, "com.github.reportmate"@, name])
    } else {
        LookupView::Run("reg"@, seq!["query"@, key, "/v"@, name])
    }
}

pub open spec fn az_run(p: Platform, audience: Seq<char>) -> LookupView {
    LookupView::Run(
        if p == Platform::Windows {
            "az.cmd"@
        } else {
            "az"@
        },
        seq![
            "account"@,
            "get-access-token"@,
            "--resource"@,
            audience,
            "--query"@,
            "accessToken"@,
            "-o"@,
            "tsv"@,
        ],
    )
}

pub open spec fn aws_run(secret_id: Seq<char>) -> LookupView {
    LookupView::Run(
        "aws"@,
        seq![
            "secretsmanager"@,
            "get-secret-value"@,
            "--secret-id"@,
            secret_id,
            "--query"@,
            "SecretString"@,
            "--output"@,
            "text"@,
        ],
    )
}

pub open spec fn cand_lookup(p: Platform, c: Cand) -> LookupView {
    match c {
        Cand::Keychain(account, _, _) => keychain_run(account),
        Cand::Entra(a, _) => az_run(p, a),
        Cand::Aws(id) => aws_run(id),
        Cand::Given(_, _) => LookupView::ConnectionFile,
    }
}

/// What the resolver asks for at an awaiting step.
pub open spec fn lookup_of(v: ResolverView) -> LookupView {
    if v.pc == 0 {
        LookupView::ConnectionFile
    } else if 1 <= v.pc <= 3 {
        keychain_run(fill_account(v.pc))
    } else if 4 <= v.pc <= 12 {
        runner_run(v.facts.platform, runner_key(v.pc), runner_name(v.pc))
    } else {
        cand_lookup(v.facts.platform, candidates(v.facts)[v.next])
    }
}

/// Whether the step needs an outside lookup.
pub open spec fn awaits(v: ResolverView) -> bool {
    ||| v.pc == 0
    ||| (1 <= v.pc <= 3 && is_mac(v.facts.platform))
    ||| (4 <= v.pc <= 12 && v.facts.platform == Platform::Windows)
    ||| ((v.pc == 4 || v.pc == 10) && is_mac(v.facts.platform))
    ||| (v.pc == 13 && v.next < candidates(v.facts).len() && !(candidates(
        v.facts,
    )[v.next] is Given))
}

/// The state after running forward, without lookups, to the next lookup or
/// to the end.
pub open spec fn settle(v: ResolverView) -> ResolverView
    decreases 14 - v.pc,
{
    if v.pc >= 14 || v.pc < 0 || awaits(v) {
        v
    } else if v.pc == 13 {
        if v.next >= candidates(v.facts).len() || v.next < 0 {
            ResolverView { pc: 14, ..v }
        } else {
            match candidates(v.facts)[v.next] {
                Cand::Given(c, s) => ResolverView { pc: 14, credential: Some((c, s)), ..v },
                _ => v,
            }
        }
    } else {
        settle(ResolverView { pc: v.pc + 1, ..v })
    }
}

/// What a candidate yields for an answer.
pub open spec fn yield_of(c: Cand, a: Option<Seq<char>>) -> Option<(CredView, Seq<char>)> {
    match c {
        Cand::Given(cr, s) => Some((cr, s)),
        Cand::Keychain(_, api_key, s) => match a {
            Some(v) => Some(
                (
                    if api_key {
                        CredView::ApiKey(v)
                    } else {
                        CredView::Passphrase(v)
                    },
                    s,
                ),
            ),
            None => None,
        },
        Cand::Entra(_, s) => match a {
            Some(t) => Some((CredView::Bearer(t), s)),
            None => None,
        },
        Cand::Aws(id) => match a {
            Some(v) => if v != "None"@ {
                Some((CredView::Passphrase(v), "AWS Secrets Manager "@ + id))
            } else {
                None
            },
            None => None,
        },
    }
}

/// The note a candidate that yields nothing leaves.
pub open spec fn notes_of(c: Cand, a: Option<Seq<char>>) -> Seq<Seq<char>> {
    match c {
        Cand::Entra(aud, _) => if a is None {
            seq!["Entra sign-in: "@ + az_failure(aud)]
        } else {
            seq![]
        },
        Cand::Aws(id) => if yield_of(c, a) is None {
            seq!["AWS Secrets Manager "@ + id + ": "@ + aws_failure(id)]
        } else {
            seq![]
        },
        _ => seq![],
    }
}

pub open spec fn no_connection() -> ConnView {
    ConnView { api_url: None, auth_method: None, oidc_audience: None, cloud: None }
}

/// The connection a file's text describes; none when the file is missing,
/// unreadable or not JSON.
pub open spec fn connection_of(a: Option<Seq<char>>) -> Option<ConnView> {
    match a {
        Some(t) => if json_parse_error(t) is None {
            Some(connection_fields(t))
        } else {
            None
        },
        None => None,
    }
}

/// A runner preference from its program's output: the value itself on
/// macOS, the value in a `reg query` listing on Windows.
pub open spec fn runner_value(p: Platform, name: Seq<char>, a: Option<Seq<char>>) -> Option<
    Seq<char>,
> {
    if is_mac(p) {
        a
    } else {
        match a {
            Some(out) => reg_scan(text_lines(out), name),
            None => None,
        }
    }
}

pub open spec fn set_field(c: ConnView, pc: int, a: Option<Seq<char>>) -> ConnView {
    if pc == 1 {
        ConnView { api_url: a, ..c }
    } else if pc == 2 {
        ConnView { auth_method: a, ..c }
    } else {
        ConnView { oidc_audience: a, ..c }
    }
}

/// The facts with a runner value set: the endpoint, the read API key or the
/// passphrase, by the step that read it.
pub open spec fn set_runner(f: Facts, pc: int, val: Option<Seq<char>>) -> Facts {
    if pc < 7 {
        Facts { runner_url: val, ..f }
    } else if pc < 10 {
        Facts { runner_read_key: val, ..f }
    } else {
        Facts { runner_pass: val, ..f }
    }
}

/// The state once the answer to the pending lookup is taken in.
pub open spec fn absorb(v: ResolverView, a: Option<Seq<char>>) -> ResolverView {
    let f = v.facts;
    if v.pc == 0 {
        match connection_of(a) {
            Some(c) => ResolverView { facts: Facts { conn: c, ..f }, pc: 4, ..v },
            None => ResolverView { facts: Facts { conn: no_connection(), ..f }, pc: 1, ..v },
        }
    } else if 1 <= v.pc <= 3 {
        ResolverView { facts: Facts { conn: set_field(f.conn, v.pc, a), ..f }, pc: v.pc + 1, ..v }
    } else if 4 <= v.pc <= 12 {
        let val = runner_value(f.platform, runner_name(v.pc), a);
        if val is Some || f.platform != Platform::Windows || v.pc == runner_base(v.pc) + 2 {
            ResolverView { facts: set_runner(f, v.pc, val), pc: runner_base(v.pc) + 3, ..v }
        } else {
            ResolverView { pc: v.pc + 1, ..v }
        }
    } else if v.pc == 13 && 0 <= v.next < candidates(f).len() {
        let c = candidates(f)[v.next];
        match yield_of(c, a) {
            Some(cr) => ResolverView { pc: 14, credential: Some(cr), ..v },
            None => ResolverView { next: v.next + 1, notes: v.notes + notes_of(c, a), ..v },
        }
    } else {
        v
    }
}

/// Where resolution starts: cleaned environment; with discovery on, at the
/// connection file, else straight at the credential sources.
pub open spec fn initial(e: EnvView, p: Platform) -> ResolverView {
    let env = clean_env(e);
    let discover = discovery_on(env);
    ResolverView {
        facts: Facts {
            env,
            platform: p,
            discover,
            conn: no_connection(),
            runner_url: None,
            runner_read_key: None,
            runner_pass: None,
        },
        pc: if discover {
            0
        } else {
            13
        },
        next: 0,
        credential: None,
        notes: seq![],
    }
}

pub struct SourcesView {
    pub api_url: Option<Seq<char>>,
    pub credential: Option<Seq<char>>,
    pub audience: Option<Seq<char>>,
}

pub struct ResolutionView {
    pub api_url: Option<Seq<char>>,
    pub credential: Option<CredView>,
    pub internal_secret: Option<Seq<char>>,
    pub sources: SourcesView,
    pub notes: Seq<Seq<char>>,
}

pub open spec fn resolution_view(r: Resolution) -> ResolutionView {
    ResolutionView {
        api_url: opt_view(r.api_url),
        credential: match r.credential {
            Some(c) => Some(cred_view(c)),
            None => None,
        },
        internal_secret: opt_view(r.internal_secret),
        sources: SourcesView {
            api_url: opt_view(r.sources.api_url),
            credential: opt_view(r.sources.credential),
            audience: opt_view(r.sources.audience),
        },
        notes: strings_view(r.notes@),
    }
}

/// The result a finished state describes.
pub open spec fn outcome(v: ResolverView) -> ResolutionView {
    ResolutionView {
        api_url: resolved_url(v.facts),
        credential: match v.credential {
            Some((c, _)) => Some(c),
            None => None,
        },
        internal_secret: v.facts.env.internal_secret,
        sources: SourcesView {
            api_url: match url_choice(v.facts) {
                Some((_, s)) => Some(s),
                None => None,
            },
            credential: match v.credential {
                Some((_, s)) => Some(s),
                None => None,
            },
            audience: match audience_choice(v.facts) {
                Some((_, s)) => Some(s),
                None => None,
            },
        },
        notes: v.notes,
    }
}

/// The step that a state leads to: its lookup while it awaits one, else
/// the result it describes.
pub open spec fn step_is(s: Step, v: ResolverView) -> bool {
    match s {
        Step::Ask(r, l) => v.pc < 14 && r@ == v && lookup_view(l) == lookup_of(v),
        Step::Done(res) => v.pc >= 14 && resolution_view(res) == outcome(v),
    }
}

// ---------------------------------------------------------------- execution

pub open spec fn facts_of(
    env: Environment,
    platform: Platform,
    discover: bool,
    conn: AppConnection,
    runner: RunnerPrefs,
) -> Facts {
    Facts {
        env: env_view(env),
        platform,
        discover,
        conn: connection_view(conn),
        runner_url: opt_view(runner.api_url),
        runner_read_key: opt_view(runner.read_api_key),
        runner_pass: opt_view(runner.passphrase),
    }
}

impl Resolver {
    #[verifier::type_invariant]
    spec fn inv(self) -> bool {
        &&& self.pc <= 14
        &&& self.pc < 13 ==> self.next == 0
        &&& self.pc == 13 ==> self.next <= self.candidates@.len() && cand_views(self.candidates@)
            == candidates(self@.facts)
    }
}

fn clone_credential(c: &Credential) -> (r: Credential)
    ensures
        cred_view(r) == cred_view(*c),
{
    match c {
        Credential::ApiKey(k) => Credential::ApiKey(k.clone()),
        Credential::Passphrase(p) => Credential::Passphrase(p.clone()),
        Credential::Bearer(t) => Credential::Bearer(t.clone()),
    }
}

fn is_one_of_on_words(v: &String) -> (r: bool)
    ensures
        r == (v@ == "1"@ || v@ == "true"@ || v@ == "yes"@),
{
    same_text(v.as_str(), "1") || same_text(v.as_str(), "true") || same_text(v.as_str(), "yes")
}

fn clean_environment(e: &Environment) -> (r: Environment)
    ensures
        env_view(r) == clean_env(env_view(*e)),
{
    Environment {
        api_url: env_value(&e.api_url),
        oidc_audience: env_value(&e.oidc_audience),
        api_key: env_value(&e.api_key),
        token: env_value(&e.token),
        passphrase: env_value(&e.passphrase),
        no_discovery: env_value(&e.no_discovery),
        cloud: env_value(&e.cloud),
        aws_secret_id: env_value(&e.aws_secret_id),
        internal_secret: env_value(&e.internal_secret),
    }
}

fn discovery(e: &Environment) -> (r: bool)
    ensures
        r == discovery_on(env_view(*e)),
{
    match &e.no_discovery {
        Some(v) => !is_one_of_on_words(v),
        None => true,
    }
}

fn choose_url(env: &Environment, conn: &AppConnection, runner: &RunnerPrefs) -> (r: Option<(String, String)>)
    ensures
        match r {
            Some((u, s)) => url_choice(facts_of(*env, Platform::Other, false, *conn, *runner)) == Some((u@, s@)),
            None => url_choice(facts_of(*env, Platform::Other, false, *conn, *runner)) is None,
        },
{
    match &env.api_url {
        Some(u) => Some((u.clone(), owned("REPORTMATE_API_URL"))),
        None => match &conn.api_url {
            Some(u) => Some((u.clone(), owned("ReportMate app connection"))),
            None => match &runner.api_url {
                Some(u) => Some((u.clone(), owned("device runner preferences"))),
                None => None,
            },
        },
    }
}

proof fn lemma_facts_choice(env: Environment, p: Platform, d: bool, conn: AppConnection, runner: RunnerPrefs)
    ensures
        url_choice(facts_of(env, p, d, conn, runner)) == url_choice(facts_of(env, Platform::Other, false, conn, runner)),
        audience_choice(facts_of(env, p, d, conn, runner)) == audience_choice(facts_of(env, Platform::Other, false, conn, runner)),
        resolved_url(facts_of(env, p, d, conn, runner)) == resolved_url(facts_of(env, Platform::Other, false, conn, runner)),
        cloud_choice(facts_of(env, p, d, conn, runner)) == cloud_choice(facts_of(env, Platform::Other, false, conn, runner)),
        secret_id_of(facts_of(env, p, d, conn, runner)) == secret_id_of(facts_of(env, Platform::Other, false, conn, runner)),
{
}

fn normalize_url(u: &String) -> (r: String)
    ensures
        r@ == normalized_url(u@),
{
    let t = trim_str(u.as_str());
    let v = chars_of(t.as_str());
    string_of(&strip_end_chars(&v, '/'))
}

fn choose_audience(env: &Environment, conn: &AppConnection) -> (r: Option<(String, String)>)
    ensures
        forall|p: Platform, d: bool, runner: RunnerPrefs| match r {
            Some((a, s)) => audience_choice(facts_of(*env, p, d, *conn, runner)) == Some((a@, s@)),
            None => audience_choice(facts_of(*env, p, d, *conn, runner)) is None,
        },
{
    match &env.oidc_audience {
        Some(a) => Some((a.clone(), owned("REPORTMATE_OIDC_AUDIENCE"))),
        None => match &conn.oidc_audience {
            Some(a) => Some((a.clone(), owned("ReportMate app connection"))),
            None => None,
        },
    }
}

fn choose_cloud(env: &Environment, conn: &AppConnection, runner: &RunnerPrefs) -> (r: Option<String>)
    ensures
        opt_view(r) == cloud_choice(facts_of(*env, Platform::Other, false, *conn, *runner)),
{
    match &conn.cloud {
        Some(c) => Some(c.clone()),
        None => match &env.cloud {
            Some(c) => Some(c.clone()),
            None => match choose_url(env, conn, runner) {
                Some((u, _)) => detect_cloud(normalize_url(&u).as_str()),
                None => None,
            },
        },
    }
}

fn keychain_candidate(api_key: bool) -> (c: Candidate)
    ensures
        cand_view(c) == if api_key {
            app_key_cand()
        } else {
            app_pass_cand()
        },
{
    if api_key {
        Candidate::Keychain {
            account: owned("ApiKey"),
            api_key: true,
            source: owned("ReportMate app connection (API key)"),
        }
    } else {
        Candidate::Keychain {
            account: owned("Passphrase"),
            api_key: false,
            source: owned("ReportMate app connection (passphrase)"),
        }
    }
}

fn push_cand(v: &mut Vec<Candidate>, c: Candidate)
    ensures
        cand_views(final(v)@) == cand_views(old(v)@).push(cand_view(c)),
{
    let ghost before = cand_views(v@);
    v.push(c);
    assert(cand_views(v@) =~= before.push(cand_view(c)));
}

fn append_cands(v: &mut Vec<Candidate>, w: Vec<Candidate>)
    ensures
        cand_views(final(v)@) == cand_views(old(v)@) + cand_views(w@),
{
    let ghost before = cand_views(v@);
    let mut w = w;
    let ghost wv = cand_views(w@);
    v.append(&mut w);
    assert(cand_views(v@) =~= before + wv);
}

fn env_cands(env: &Environment) -> (v: Vec<Candidate>)
    ensures
        cand_views(v@) == env_candidates(env_view(*env)),
{
    let mut v: Vec<Candidate> = Vec::new();
    assert(cand_views(v@) =~= Seq::<Cand>::empty());
    match &env.api_key {
        Some(k) => push_cand(
            &mut v,
            Candidate::Given { credential: Credential::ApiKey(k.clone()), source: owned("REPORTMATE_API_KEY") },
        ),
        None => {},
    }
    match &env.token {
        Some(t) => push_cand(
            &mut v,
            Candidate::Given { credential: Credential::Bearer(t.clone()), source: owned("REPORTMATE_TOKEN") },
        ),
        None => {},
    }
    match &env.passphrase {
        Some(p) => push_cand(
            &mut v,
            Candidate::Given { credential: Credential::Passphrase(p.clone()), source: owned("REPORTMATE_PASSPHRASE") },
        ),
        None => {},
    }
    assert(cand_views(v@) =~= env_candidates(env_view(*env)));
    v
}

fn app_cands(
    env: &Environment,
    platform: Platform,
    discover: bool,
    conn: &AppConnection,
    runner: &RunnerPrefs,
) -> (v: Vec<Candidate>)
    ensures
        cand_views(v@) == app_candidates(facts_of(*env, platform, discover, *conn, *runner)),
{
    let ghost f = facts_of(*env, platform, discover, *conn, *runner);
    let mut v: Vec<Candidate> = Vec::new();
    assert(cand_views(v@) =~= Seq::<Cand>::empty());
    if !discover {
        return v;
    }
    let method_entra = match &conn.auth_method {
        Some(m) => same_text(m.as_str(), "entraBearer"),
        None => false,
    };
    let method_key = match &conn.auth_method {
        Some(m) => same_text(m.as_str(), "apiKey"),
        None => false,
    };
    let method_pass = match &conn.auth_method {
        Some(m) => same_text(m.as_str(), "passphrase"),
        None => false,
    };
    let mac = match platform {
        Platform::MacOs => true,
        _ => false,
    };
    if method_entra {
        match choose_audience(env, conn) {
            Some((a, _)) => push_cand(
                &mut v,
                Candidate::Entra { audience: a, source: owned("Entra sign-in via az (app connection)") },
            ),
            None => {},
        }
    } else if !mac {
    } else if method_key {
        push_cand(&mut v, keychain_candidate(true));
    } else if method_pass {
        push_cand(&mut v, keychain_candidate(false));
    } else {
        push_cand(&mut v, keychain_candidate(true));
        push_cand(&mut v, keychain_candidate(false));
    }
    assert(cand_views(v@) =~= app_candidates(f));
    v
}

fn runner_cands(runner: &RunnerPrefs) -> (v: Vec<Candidate>)
    ensures
        forall|env: Environment, p: Platform, d: bool, conn: AppConnection| cand_views(v@)
            == runner_candidates(#[trigger] facts_of(env, p, d, conn, *runner)),
{
    let mut v: Vec<Candidate> = Vec::new();
    assert(cand_views(v@) =~= Seq::<Cand>::empty());
    match &runner.read_api_key {
        Some(k) => push_cand(
            &mut v,
            Candidate::Given {
                credential: Credential::ApiKey(k.clone()),
                source: owned("device runner preferences (read API key)"),
            },
        ),
        None => {},
    }
    match &runner.passphrase {
        Some(p) => push_cand(
            &mut v,
            Candidate::Given {
                credential: Credential::Passphrase(p.clone()),
                source: owned("device runner preferences (passphrase)"),
            },
        ),
        None => {},
    }
    proof {
        assert forall|env: Environment, p: Platform, d: bool, conn: AppConnection| cand_views(v@)
            == runner_candidates(#[trigger] facts_of(env, p, d, conn, *runner)) by {
            assert(cand_views(v@) =~= runner_candidates(facts_of(env, p, d, conn, *runner)));
        }
    }
    v
}

fn entra_cands(
    env: &Environment,
    platform: Platform,
    discover: bool,
    conn: &AppConnection,
    runner: &RunnerPrefs,
) -> (v: Vec<Candidate>)
    ensures
        cand_views(v@) == entra_candidates(facts_of(*env, platform, discover, *conn, *runner)),
{
    let ghost f = facts_of(*env, platform, discover, *conn, *runner);
    let mut v: Vec<Candidate> = Vec::new();
    assert(cand_views(v@) =~= Seq::<Cand>::empty());
    let app_entra = match &conn.auth_method {
        Some(m) => same_text(m.as_str(), "entraBearer"),
        None => false,
    };
    if !discover || app_entra {
        return v;
    }
    match choose_audience(env, conn) {
        Some((a, _)) => push_cand(&mut v, Candidate::Entra { audience: a, source: owned("Entra sign-in via az") }),
        None => {},
    }
    assert(cand_views(v@) =~= entra_candidates(f));
    v
}

fn cloud_cands(
    env: &Environment,
    platform: Platform,
    discover: bool,
    conn: &AppConnection,
    runner: &RunnerPrefs,
) -> (v: Vec<Candidate>)
    ensures
        cand_views(v@) == cloud_candidates(facts_of(*env, platform, discover, *conn, *runner)),
{
    let ghost f = facts_of(*env, platform, discover, *conn, *runner);
    proof {
        lemma_facts_choice(*env, platform, discover, *conn, *runner);
    }
    let mut v: Vec<Candidate> = Vec::new();
    assert(cand_views(v@) =~= Seq::<Cand>::empty());
    if !discover {
        return v;
    }
    let cloud = choose_cloud(env, conn, runner);
    let aws = match &cloud {
        Some(c) => same_text(c.as_str(), "aws"),
        None => false,
    };
    if aws {
        let id = match &env.aws_secret_id {
            Some(i) => i.clone(),
            None => owned("reportmate/client-passphrase"),
        };
        push_cand(&mut v, Candidate::Aws { secret_id: id });
    }
    assert(cand_views(v@) =~= cloud_candidates(f));
    v
}

/// Every credential source, in the order they are tried.
fn build_candidates(
    env: &Environment,
    platform: Platform,
    discover: bool,
    conn: &AppConnection,
    runner: &RunnerPrefs,
) -> (r: Vec<Candidate>)
    ensures
        cand_views(r@) == candidates(facts_of(*env, platform, discover, *conn, *runner)),
{
    let ghost f = facts_of(*env, platform, discover, *conn, *runner);
    let mut v = env_cands(env);
    append_cands(&mut v, app_cands(env, platform, discover, conn, runner));
    append_cands(&mut v, entra_cands(env, platform, discover, conn, runner));
    let r = runner_cands(runner);
    assert(cand_views(r@) == runner_candidates(f));
    append_cands(&mut v, r);
    append_cands(&mut v, cloud_cands(env, platform, discover, conn, runner));
    v
}

fn strings(items: &[&str]) -> (r: Vec<String>)
    ensures
        strings_view(r@) == items@.map_values(|s: &str| s@),
{
    let mut r: Vec<String> = Vec::new();
    for i in 0..items.len()
        invariant
            strings_view(r@) == items@.take(i as int).map_values(|s: &str| s@),
    {
        let ghost before = strings_view(r@);
        r.push(owned(items[i]));
        assert(strings_view(r@) =~= before.push(items@[i as int]@));
        assert(items@.take(i + 1).map_values(|s: &str| s@) =~= items@.take(i as int).map_values(
            |s: &str| s@,
        ).push(items@[i as int]@));
    }
    assert(items@.take(items.len() as int) =~= items@);
    r
}

fn keychain_lookup(account: &str) -> (l: Lookup)
    ensures
        lookup_view(l) == keychain_run(account@),
{
    let args = strings(&["find-generic-password", "-s", "com.github.reportmate.mac", "-a", account, "-w"]);
    let l = Lookup::Run { program: owned("security"), args };
    assert(strings_view(args@) =~= seq![
        "find-generic-password"@,
        "-s"@,
        "com.github.reportmate.mac"@,
        "-a"@,
        account@,
        "-w"@,
    ]);
    l
}

fn runner_lookup(platform: Platform, key: &str, name: &str) -> (l: Lookup)
    ensures
        lookup_view(l) == runner_run(platform, key@, name@),
{
    match platform {
        Platform::MacOs => {
            let args = strings(&["read", "com.github.reportmate", name]);
            assert(strings_view(args@) =~= seq!["read"@, "com.github.reportmate"@, name@]);
            Lookup::Run { program: owned("defaults"), args }
        },
        _ => {
            let args = strings(&["query", key, "/v", name]);
            assert(strings_view(args@) =~= seq!["query"@, key@, "/v"@, name@]);
            Lookup::Run { program: owned("reg"), args }
        },
    }
}

fn candidate_lookup(platform: Platform, c: &Candidate) -> (l: Lookup)
    ensures
        lookup_view(l) == cand_lookup(platform, cand_view(*c)),
{
    match c {
        Candidate::Keychain { account, .. } => keychain_lookup(account.as_str()),
        Candidate::Entra { audience, .. } => {
            let args = strings(
                &["account", "get-access-token", "--resource", audience.as_str(), "--query", "accessToken", "-o", "tsv"],
            );
            assert(strings_view(args@) =~= seq![
                "account"@,
                "get-access-token"@,
                "--resource"@,
                audience@,
                "--query"@,
                "accessToken"@,
                "-o"@,
                "tsv"@,
            ]);
            let program = match platform {
                Platform::Windows => owned("az.cmd"),
                _ => owned("az"),
            };
            Lookup::Run { program, args }
        },
        Candidate::Aws { secret_id } => {
            let args = strings(
                &["secretsmanager", "get-secret-value", "--secret-id", secret_id.as_str(), "--query", "SecretString", "--output", "text"],
            );
            assert(strings_view(args@) =~= seq![
                "secretsmanager"@,
                "get-secret-value"@,
                "--secret-id"@,
                secret_id@,
                "--query"@,
                "SecretString"@,
                "--output"@,
                "text"@,
            ]);
            Lookup::Run { program: owned("aws"), args }
        },
        Candidate::Given { .. } => Lookup::ConnectionFile,
    }
}

/// The resolution a finished resolver describes.
fn finish(
    env: Environment,
    conn: AppConnection,
    runner: RunnerPrefs,
    credential: Option<(Credential, String)>,
    notes: Vec<String>,
) -> (r: Resolution)
    ensures
        resolution_view(r) == outcome(
            ResolverView {
                facts: facts_of(env, Platform::Other, false, conn, runner),
                pc: 14,
                next: 0,
                credential: cred_pair_view(credential),
                notes: strings_view(notes@),
            },
        ),
{
    let (api_url, url_source) = match choose_url(&env, &conn, &runner) {
        Some((u, s)) => (Some(normalize_url(&u)), Some(s)),
        None => (None, None),
    };
    let audience_source = match choose_audience(&env, &conn) {
        Some((_, s)) => Some(s),
        None => None,
    };
    let (credential, credential_source) = match credential {
        Some((c, s)) => (Some(c), Some(s)),
        None => (None, None),
    };
    Resolution {
        api_url,
        credential,
        internal_secret: env.internal_secret,
        sources: Sources { api_url: url_source, credential: credential_source, audience: audience_source },
        notes,
    }
}

/// What a candidate yields for an answer, and the note it leaves when it
/// yields nothing.
fn take_answer(c: &Candidate, answer: Option<String>) -> (r: (Option<(Credential, String)>, Vec<String>))
    ensures
        cred_pair_view(r.0) == yield_of(cand_view(*c), opt_view(answer)),
        strings_view(r.1@) == notes_of(cand_view(*c), opt_view(answer)),
{
    let mut notes: Vec<String> = Vec::new();
    let ghost empty = strings_view(notes@);
    assert(empty =~= Seq::<Seq<char>>::empty());
    match c {
        Candidate::Given { credential, source } => (Some((clone_credential(credential), source.clone())), notes),
        Candidate::Keychain { api_key, source, .. } => match answer {
            Some(v) => {
                let cr = if *api_key {
                    Credential::ApiKey(v)
                } else {
                    Credential::Passphrase(v)
                };
                (Some((cr, source.clone())), notes)
            },
            None => (None, notes),
        },
        Candidate::Entra { audience, source } => match az_token(audience.as_str(), answer) {
            Ok(t) => (Some((Credential::Bearer(t), source.clone())), notes),
            Err(e) => {
                let mut n = owned("Entra sign-in: ");
                n.append(e.as_str());
                notes.push(n);
                assert(strings_view(notes@) =~= seq![n@]);
                (None, notes)
            },
        },
        Candidate::Aws { secret_id } => match aws_secret(secret_id.as_str(), answer) {
            Ok(s) => {
                let mut src = owned("AWS Secrets Manager ");
                src.append(secret_id.as_str());
                (Some((Credential::Passphrase(s), src)), notes)
            },
            Err(e) => {
                let mut n = owned("AWS Secrets Manager ");
                n.append(secret_id.as_str());
                n.append(": ");
                n.append(e.as_str());
                notes.push(n);
                assert(strings_view(notes@) =~= seq![n@]);
                (None, notes)
            },
        },
    }
}

fn empty_connection() -> (c: AppConnection)
    ensures
        connection_view(c) == no_connection(),
{
    AppConnection { api_url: None, auth_method: None, oidc_audience: None, cloud: None }
}

fn runner_answer(platform: Platform, name: &str, answer: Option<String>) -> (r: Option<String>)
    ensures
        opt_view(r) == runner_value(platform, name@, opt_view(answer)),
{
    match platform {
        Platform::MacOs => answer,
        _ => match answer {
            Some(out) => parse_reg_query(out.as_str(), name),
            None => None,
        },
    }
}

fn runner_base_step(pc: u8) -> (b: u8)
    requires
        4 <= pc <= 12,
    ensures
        b == runner_base(pc as int),
{
    if pc < 7 {
        4
    } else if pc < 10 {
        7
    } else {
        10
    }
}

fn runner_name_text(pc: u8) -> (t: &'static str)
    requires
        4 <= pc <= 12,
    ensures
        t@ == runner_name(pc as int),
{
    if pc < 7 {
        "ApiUrl"
    } else if pc < 10 {
        "ReadApiKey"
    } else {
        "Passphrase"
    }
}

fn runner_key_text(pc: u8) -> (t: &'static str)
    requires
        4 <= pc <= 12,
    ensures
        t@ == runner_key(pc as int),
{
    let base = runner_base_step(pc);
    if pc == base {
        "HKLM\\SOFTWARE\\ReportMate"
    } else if pc == base + 1 {
        "HKLM\\SOFTWARE\\ReportMate\\Settings"
    } else {
        "HKLM\\SOFTWARE\\ReportMate\\Policies"
    }
}

fn append_strings(v: &mut Vec<String>, w: Vec<String>)
    ensures
        strings_view(final(v)@) == strings_view(old(v)@) + strings_view(w@),
{
    let ghost before = strings_view(v@);
    let mut w = w;
    let ghost wv = strings_view(w@);
    v.append(&mut w);
    assert(strings_view(v@) =~= before + wv);
}

/// Runs forward from a state, without lookups, to its next lookup or to the
/// result.
fn settle_from(r: Resolver) -> (s: Step)
    ensures
        step_is(s, settle(r@)),
    decreases 14 - r@.pc,
{
    proof {
        use_type_invariant(&r);
    }
    let ghost v = r@;
    let Resolver {
        env,
        platform,
        discover,
        connection,
        runner,
        pc,
        candidates,
        next,
        credential,
        notes,
    } = r;
    proof {
        lemma_facts_choice(env, platform, discover, connection, runner);
    }
    if pc == 0 {
        let r = Resolver { env, platform, discover, connection, runner, pc, candidates, next, credential, notes };
        assert(r@ == v);
        return Step::Ask(r, Lookup::ConnectionFile);
    }
    if pc <= 3 {
        let mac = match platform {
            Platform::MacOs => true,
            _ => false,
        };
        if mac {
            let account = if pc == 1 {
                "ApiBaseUrl"
            } else if pc == 2 {
                "AuthMethod"
            } else {
                "OidcAudience"
            };
            let l = keychain_lookup(account);
            let r = Resolver { env, platform, discover, connection, runner, pc, candidates, next, credential, notes };
            assert(r@ == v);
            return Step::Ask(r, l);
        }
        let r = Resolver { env, platform, discover, connection, runner, pc: pc + 1, candidates, next, credential, notes };
        assert(r@ == ResolverView { pc: v.pc + 1, ..v });
        return settle_from(r);
    }
    if pc <= 12 {
        let asks = match platform {
            Platform::Windows => true,
            Platform::MacOs => pc == 4 || pc == 10,
            Platform::Other => false,
        };
        if asks {
            let l = runner_lookup(platform, runner_key_text(pc), runner_name_text(pc));
            let r = Resolver { env, platform, discover, connection, runner, pc, candidates, next, credential, notes };
            assert(r@ == v);
            return Step::Ask(r, l);
        }
        if pc < 12 {
            let r = Resolver { env, platform, discover, connection, runner, pc: pc + 1, candidates, next, credential, notes };
            assert(r@ == ResolverView { pc: v.pc + 1, ..v });
            return settle_from(r);
        }
        let cands = build_candidates(&env, platform, discover, &connection, &runner);
        let r = Resolver { env, platform, discover, connection, runner, pc: 13, candidates: cands, next, credential, notes };
        assert(r@ == ResolverView { pc: v.pc + 1, ..v });
        return settle_from(r);
    }
    if pc == 13 {
        if next >= candidates.len() {
            return Step::Done(finish(env, connection, runner, credential, notes));
        }
        assert(cand_views(candidates@)[next as int] == cand_view(candidates@[next as int]));
        match &candidates[next] {
            Candidate::Given { credential: c, source } => {
                let cr = Some((clone_credential(c), source.clone()));
                return Step::Done(finish(env, connection, runner, cr, notes));
            },
            _ => {},
        }
        let l = candidate_lookup(platform, &candidates[next]);
        let r = Resolver { env, platform, discover, connection, runner, pc, candidates, next, credential, notes };
        assert(r@ == v);
        return Step::Ask(r, l);
    }
    Step::Done(finish(env, connection, runner, credential, notes))
}

impl Resolver {
    /// Starts resolving from the environment variables as found.
    pub fn start(env: Environment, platform: Platform) -> (s: Step)
        ensures
            step_is(s, settle(initial(env_view(env), platform))),
    {
        let e = clean_environment(&env);
        let discover = discovery(&e);
        let connection = empty_connection();
        let runner = RunnerPrefs { api_url: None, read_api_key: None, passphrase: None };
        let notes: Vec<String> = Vec::new();
        assert(strings_view(notes@) =~= Seq::<Seq<char>>::empty());
        let r = if discover {
            Resolver {
                env: e,
                platform,
                discover,
                connection,
                runner,
                pc: 0,
                candidates: Vec::new(),
                next: 0,
                credential: None,
                notes,
            }
        } else {
            let candidates = build_candidates(&e, platform, discover, &connection, &runner);
            Resolver { env: e, platform, discover, connection, runner, pc: 13, candidates, next: 0, credential: None, notes }
        };
        assert(r@ == initial(env_view(env), platform));
        settle_from(r)
    }
}

impl Resolution {
    /// Takes in the answer to the resolver's pending lookup and runs on to
    /// the next lookup or to the result.
    pub fn resolve(r: Resolver, answer: Option<String>) -> (s: Step)
        ensures
            step_is(s, settle(absorb(r@, opt_view(answer)))),
    {
        proof {
            use_type_invariant(&r);
        }
        let ghost v = r@;
        let ghost a = opt_view(answer);
        let Resolver {
            env,
            platform,
            discover,
            connection,
            runner,
            pc,
            candidates,
            next,
            credential,
            notes,
        } = r;
        proof {
            lemma_facts_choice(env, platform, discover, connection, runner);
        }
        if pc == 0 {
            let found = match &answer {
                Some(t) => parse_connection_json(t.as_str()),
                None => None,
            };
            let (conn, step) = match found {
                Some(c) => (c, 4u8),
                None => (empty_connection(), 1u8),
            };
            let r = Resolver { env, platform, discover, connection: conn, runner, pc: step, candidates, next, credential, notes };
            assert(r@ == absorb(v, a));
            return settle_from(r);
        }
        if pc <= 3 {
            let mut connection = connection;
            if pc == 1 {
                connection.api_url = answer;
            } else if pc == 2 {
                connection.auth_method = answer;
            } else {
                connection.oidc_audience = answer;
            }
            let r = Resolver { env, platform, discover, connection, runner, pc: pc + 1, candidates, next, credential, notes };
            assert(r@ == absorb(v, a));
            return settle_from(r);
        }
        if pc <= 12 {
            let val = runner_answer(platform, runner_name_text(pc), answer);
            let base = runner_base_step(pc);
            let windows = match platform {
                Platform::Windows => true,
                _ => false,
            };
            if val.is_none() && windows && pc < base + 2 {
                let r = Resolver { env, platform, discover, connection, runner, pc: pc + 1, candidates, next, credential, notes };
                assert(r@ == absorb(v, a));
                return settle_from(r);
            }
            let mut runner = runner;
            if pc < 7 {
                runner.api_url = val;
            } else if pc < 10 {
                runner.read_api_key = val;
            } else {
                runner.passphrase = val;
            }
            if base < 10 {
                let r = Resolver { env, platform, discover, connection, runner, pc: base + 3, candidates, next, credential, notes };
                assert(r@ == absorb(v, a));
                return settle_from(r);
            }
            let cands = build_candidates(&env, platform, discover, &connection, &runner);
            let r = Resolver { env, platform, discover, connection, runner, pc: 13, candidates: cands, next: 0, credential, notes };
            assert(r@ == absorb(v, a));
            return settle_from(r);
        }
        if pc == 13 && next < candidates.len() {
            assert(cand_views(candidates@)[next as int] == cand_view(candidates@[next as int]));
            let (y, new_notes) = take_answer(&candidates[next], answer);
            match y {
                Some(cr) => {
                    return Step::Done(finish(env, connection, runner, Some(cr), notes));
                },
                None => {
                    let mut notes = notes;
                    append_strings(&mut notes, new_notes);
                    let r = Resolver { env, platform, discover, connection, runner, pc, candidates, next: next + 1, credential, notes };
                    assert(r@ == absorb(v, a));
                    return settle_from(r);
                },
            }
        }
        let r = Resolver { env, platform, discover, connection, runner, pc, candidates, next, credential, notes };
        assert(r@ == absorb(v, a));
        settle_from(r)
    }
}

} // verus!
