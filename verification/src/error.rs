//! The ways a command can fail, and the message each one prints.
use vstd::prelude::*;
use vstd::string::StringExecFns;


verus! {

/// Everything that stops a command before, during or after its request.
#[derive(Debug, PartialEq, Eq)]
pub enum CliError {
    /// A `--param` argument without `=`.
    BadParam(String),
    /// `device SERIAL --module NAME` together with a subcommand.
    ModuleWithSubcommand,
    /// `device SERIAL delete` without `--confirm`.
    DeleteWithoutConfirm(String),
    /// `raw` with a path that does not start with `/`.
    RawPathNotAbsolute,
    /// An `@path` JSON argument whose file could not be read; the message
    /// names the file, then the cause on a line of its own.
    ReadFile { path: String, detail: String },
    /// A JSON argument that does not parse.
    InvalidJson { what: String, detail: String },
    /// A response that says it is JSON but does not parse.
    BadResponseJson(String),
    /// A text response where a JSON one was needed.
    NotJson { path: String, excerpt: String },
    /// A response with a non-success status.
    Upstream { method: String, path: String, status: String, body: String },
    /// No API endpoint could be resolved.
    NoEndpoint,
    /// No credential could be resolved; the notes say why each step failed.
    NoCredential { notes: Vec<String> },
}

pub open spec fn no_endpoint_text() -> Seq<char> {
    "no API endpoint: set REPORTMATE_API_URL, or connect the ReportMate app on this machine (Settings \u{2192} Connection)"@
}

pub open spec fn no_credential_text() -> Seq<char> {
    "no credential: set REPORTMATE_API_KEY (preferred), REPORTMATE_PASSPHRASE or REPORTMATE_TOKEN, connect the ReportMate app on this machine, or sign in to the deployment's cloud (az login / aws sso login)"@
}

/// Each note on a line of its own, indented by two spaces.
pub open spec fn notes_text(notes: Seq<String>) -> Seq<char>
    decreases notes.len(),
{
    if notes.len() == 0 {
        seq![]
    } else {
        notes_text(notes.drop_last()) + "\n  "@ + notes.last()@
    }
}

/// The message printed for an error.
pub open spec fn error_text(e: CliError) -> Seq<char> {
    match e {
        CliError::BadParam(p) => "--param must be key=value, got: "@ + p@,
        CliError::ModuleWithSubcommand => "--module cannot be combined with a subcommand"@,
        CliError::DeleteWithoutConfirm(s) => "refusing to delete "@ + s@ + " without --confirm"@,
        CliError::RawPathNotAbsolute => "path must start with /, e.g. /api/v1/dashboard"@,
        CliError::ReadFile { path, detail } => "reading "@ + path@ + "\n\nCaused by:\n    "@ + detail@,
        CliError::InvalidJson { what, detail } => what@ + " must be valid JSON: "@ + detail@,
        CliError::BadResponseJson(detail) => detail@,
        CliError::NotJson { path, excerpt } => path@ + " returned a non-JSON body: "@ + excerpt@,
        CliError::Upstream { method, path, status, body } => method@ + " "@ + path@ + " -> "@
            + status@ + ": "@ + body@,
        CliError::NoEndpoint => no_endpoint_text(),
        CliError::NoCredential { notes } => no_credential_text() + notes_text(notes@),
    }
}

impl CliError {
    /// The message printed for this error.
    pub fn message(&self) -> (r: String)
        ensures
            r@ == error_text(*self),
    {
        let mut s = String::new();
        match self {
            CliError::BadParam(p) => {
                s.append("--param must be key=value, got: ");
                s.append(p.as_str());
            },
            CliError::ModuleWithSubcommand => {
                s.append("--module cannot be combined with a subcommand");
            },
            CliError::DeleteWithoutConfirm(serial) => {
                s.append("refusing to delete ");
                s.append(serial.as_str());
                s.append(" without --confirm");
            },
            CliError::RawPathNotAbsolute => {
                s.append("path must start with /, e.g. /api/v1/dashboard");
            },
            CliError::ReadFile { path, detail } => {
                s.append("reading ");
                s.append(path.as_str());
                s.append("\n\nCaused by:\n    ");
                s.append(detail.as_str());
            },
            CliError::InvalidJson { what, detail } => {
                s.append(what.as_str());
                s.append(" must be valid JSON: ");
                s.append(detail.as_str());
            },
            CliError::BadResponseJson(detail) => {
                s.append(detail.as_str());
            },
            CliError::NotJson { path, excerpt } => {
                s.append(path.as_str());
                s.append(" returned a non-JSON body: ");
                s.append(excerpt.as_str());
            },
            CliError::Upstream { method, path, status, body } => {
                s.append(method.as_str());
                s.append(" ");
                s.append(path.as_str());
                s.append(" -> ");
                s.append(status.as_str());
                s.append(": ");
                s.append(body.as_str());
            },
            CliError::NoEndpoint => {
                s.append(
                    "no API endpoint: set REPORTMATE_API_URL, or connect the ReportMate app on this machine (Settings \u{2192} Connection)",
                );
            },
            CliError::NoCredential { notes } => {
                s.append(
                    "no credential: set REPORTMATE_API_KEY (preferred), REPORTMATE_PASSPHRASE or REPORTMATE_TOKEN, connect the ReportMate app on this machine, or sign in to the deployment's cloud (az login / aws sso login)",
                );
                for i in 0..notes.len()
                    invariant
                        s@ == no_credential_text() + notes_text(notes@.take(i as int)),
                {
                    s.append("\n  ");
                    s.append(notes[i].as_str());
                    assert(notes@.take(i + 1).drop_last() =~= notes@.take(i as int));
                }
                assert(notes@.take(notes.len() as int) =~= notes@);
            },
        }
        s
    }
}

/// An error with its texts as character sequences.
pub enum ErrorView {
    BadParam(Seq<char>),
    ModuleWithSubcommand,
    DeleteWithoutConfirm(Seq<char>),
    RawPathNotAbsolute,
    ReadFile(Seq<char>, Seq<char>),
    InvalidJson(Seq<char>, Seq<char>),
    BadResponseJson(Seq<char>),
    NotJson(Seq<char>, Seq<char>),
    Upstream(Seq<char>, Seq<char>, Seq<char>, Seq<char>),
    NoEndpoint,
    NoCredential(Seq<Seq<char>>),
}

pub open spec fn error_view(e: CliError) -> ErrorView {
    match e {
        CliError::BadParam(p) => ErrorView::BadParam(p@),
        CliError::ModuleWithSubcommand => ErrorView::ModuleWithSubcommand,
        CliError::DeleteWithoutConfirm(s) => ErrorView::DeleteWithoutConfirm(s@),
        CliError::RawPathNotAbsolute => ErrorView::RawPathNotAbsolute,
        CliError::ReadFile { path, detail } => ErrorView::ReadFile(path@, detail@),
        CliError::InvalidJson { what, detail } => ErrorView::InvalidJson(what@, detail@),
        CliError::BadResponseJson(d) => ErrorView::BadResponseJson(d@),
        CliError::NotJson { path, excerpt } => ErrorView::NotJson(path@, excerpt@),
        CliError::Upstream { method, path, status, body } => ErrorView::Upstream(
            method@,
            path@,
            status@,
            body@,
        ),
        CliError::NoEndpoint => ErrorView::NoEndpoint,
        CliError::NoCredential { notes } => ErrorView::NoCredential(
            notes@.map_values(|n: String| n@),
        ),
    }
}

} // verus!
