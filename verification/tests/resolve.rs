use reportmate::config::{Config, Credential, Resolution};
use reportmate::error::CliError;
use reportmate::resolve::{Environment, Lookup, Platform, Resolver, Step};

fn env() -> Environment {
    Environment {
        api_url: None,
        oidc_audience: None,
        api_key: None,
        token: None,
        passphrase: None,
        no_discovery: None,
        cloud: None,
        aws_secret_id: None,
        internal_secret: None,
    }
}

fn some(t: &str) -> Option<String> {
    Some(t.to_string())
}

fn describe(l: &Lookup) -> String {
    match l {
        Lookup::ConnectionFile => "connection.json".to_string(),
        Lookup::Run { program, args } => format!("{} {}", program, args.join(" ")),
    }
}

/// Runs resolution to the end, answering each lookup from `answer`; gives
/// the result and the lookups asked for, in order.
fn drive(e: Environment, p: Platform, answer: impl Fn(&str) -> Option<String>) -> (Resolution, Vec<String>) {
    let mut asked = Vec::new();
    let mut step = Resolver::start(e, p);
    loop {
        match step {
            Step::Done(r) => return (r, asked),
            Step::Ask(r, l) => {
                let d = describe(&l);
                let a = answer(&d);
                asked.push(d);
                step = Resolution::resolve(r, a);
            },
        }
    }
}

fn credential(r: &Resolution) -> Option<(String, String)> {
    r.credential.as_ref().map(|c| match c {
        Credential::ApiKey(k) => ("key".to_string(), k.clone()),
        Credential::Passphrase(p) => ("passphrase".to_string(), p.clone()),
        Credential::Bearer(t) => ("bearer".to_string(), t.clone()),
    })
}

#[test]
fn environment_credential_is_taken_without_asking_for_secrets() {
    let e = Environment { api_url: some(" https://api.example.org/ "), api_key: some("rm_k"), ..env() };
    let (r, asked) = drive(e, Platform::Other, |_| None);
    assert_eq!(asked, vec!["connection.json".to_string()]);
    assert_eq!(r.api_url.as_deref(), Some("https://api.example.org"));
    assert_eq!(credential(&r), Some(("key".into(), "rm_k".into())));
    assert_eq!(r.sources.api_url.as_deref(), Some("REPORTMATE_API_URL"));
    assert_eq!(r.sources.credential.as_deref(), Some("REPORTMATE_API_KEY"));
    assert!(r.notes.is_empty());
}

#[test]
fn key_beats_token_beats_passphrase() {
    let all = Environment { api_key: some("rm_k"), token: some("jwt"), passphrase: some("pp"), no_discovery: some("1"), ..env() };
    let (r, _) = drive(all, Platform::MacOs, |_| None);
    assert_eq!(credential(&r), Some(("key".into(), "rm_k".into())));
    let two = Environment { token: some("jwt"), passphrase: some("pp"), no_discovery: some("1"), ..env() };
    let (r, _) = drive(two, Platform::MacOs, |_| None);
    assert_eq!(credential(&r), Some(("bearer".into(), "jwt".into())));
    assert_eq!(r.sources.credential.as_deref(), Some("REPORTMATE_TOKEN"));
    let one = Environment { passphrase: some("pp"), api_key: some("   "), no_discovery: some("1"), ..env() };
    let (r, _) = drive(one, Platform::MacOs, |_| None);
    assert_eq!(credential(&r), Some(("passphrase".into(), "pp".into())));
}

#[test]
fn no_discovery_reads_nothing_but_the_environment() {
    for flag in ["1", "true", "yes", " yes "] {
        let e = Environment { api_url: some("https://a"), no_discovery: some(flag), ..env() };
        match Resolver::start(e, Platform::MacOs) {
            Step::Done(r) => {
                assert_eq!(r.api_url.as_deref(), Some("https://a"));
                assert!(r.credential.is_none());
            },
            Step::Ask(_, l) => panic!("asked for {}", describe(&l)),
        }
    }
    let e = Environment { no_discovery: some("0"), ..env() };
    assert!(matches!(Resolver::start(e, Platform::Other), Step::Ask(_, Lookup::ConnectionFile)));
}

#[test]
fn mac_app_connection_and_keychain_secret() {
    let conn = r#"{"apiUrl":"https://app.example.org","authMethod":"apiKey"}"#;
    let (r, asked) = drive(env(), Platform::MacOs, |l| match l {
        "connection.json" => some(conn),
        "security find-generic-password -s com.github.reportmate.mac -a ApiKey -w" => some("rm_app"),
        _ => None,
    });
    assert_eq!(
        asked,
        vec![
            "connection.json",
            "defaults read com.github.reportmate ApiUrl",
            "defaults read com.github.reportmate Passphrase",
            "security find-generic-password -s com.github.reportmate.mac -a ApiKey -w",
        ]
    );
    assert_eq!(r.api_url.as_deref(), Some("https://app.example.org"));
    assert_eq!(r.sources.api_url.as_deref(), Some("ReportMate app connection"));
    assert_eq!(credential(&r), Some(("key".into(), "rm_app".into())));
    assert_eq!(r.sources.credential.as_deref(), Some("ReportMate app connection (API key)"));
}

#[test]
fn mac_connection_file_is_not_filled_from_the_keychain() {
    let conn = r#"{"apiUrl":"https://app.example.org"}"#;
    let (r, asked) = drive(env(), Platform::MacOs, |l| match l {
        "connection.json" => some(conn),
        "security find-generic-password -s com.github.reportmate.mac -a AuthMethod -w" => some("passphrase"),
        "security find-generic-password -s com.github.reportmate.mac -a ApiKey -w" => some("rm_app"),
        _ => None,
    });
    assert!(!asked.iter().any(|l| l.contains("-a ApiBaseUrl") || l.contains("-a AuthMethod") || l.contains("-a OidcAudience")));
    assert_eq!(r.api_url.as_deref(), Some("https://app.example.org"));
    // No method recorded in the file: the app's key is tried first.
    assert_eq!(credential(&r), Some(("key".into(), "rm_app".into())));
}

#[test]
fn mac_keychain_connection_when_the_file_does_not_parse() {
    let (r, asked) = drive(env(), Platform::MacOs, |l| match l {
        "connection.json" => some("not json"),
        "security find-generic-password -s com.github.reportmate.mac -a ApiBaseUrl -w" => some("https://kc.example.org"),
        "security find-generic-password -s com.github.reportmate.mac -a AuthMethod -w" => some("passphrase"),
        "security find-generic-password -s com.github.reportmate.mac -a Passphrase -w" => some("kc_pp"),
        _ => None,
    });
    assert_eq!(asked[1], "security find-generic-password -s com.github.reportmate.mac -a ApiBaseUrl -w");
    assert_eq!(asked[2], "security find-generic-password -s com.github.reportmate.mac -a AuthMethod -w");
    assert_eq!(asked[3], "security find-generic-password -s com.github.reportmate.mac -a OidcAudience -w");
    assert_eq!(r.api_url.as_deref(), Some("https://kc.example.org"));
    assert_eq!(credential(&r), Some(("passphrase".into(), "kc_pp".into())));
}

#[test]
fn mac_app_without_a_method_tries_key_then_passphrase() {
    let (r, asked) = drive(env(), Platform::MacOs, |l| match l {
        "security find-generic-password -s com.github.reportmate.mac -a ApiBaseUrl -w" => some("https://k.example.org/"),
        "security find-generic-password -s com.github.reportmate.mac -a Passphrase -w" => some("app_pp"),
        _ => None,
    });
    assert_eq!(asked.len(), 8);
    assert_eq!(r.api_url.as_deref(), Some("https://k.example.org"));
    assert_eq!(credential(&r), Some(("passphrase".into(), "app_pp".into())));
    assert_eq!(r.sources.credential.as_deref(), Some("ReportMate app connection (passphrase)"));
}

#[test]
fn windows_runner_registry_gives_endpoint_and_passphrase() {
    let (r, asked) = drive(env(), Platform::Windows, |l| match l {
        "reg query HKLM\\SOFTWARE\\ReportMate /v ApiUrl" => {
            some("HKEY_LOCAL_MACHINE\\SOFTWARE\\ReportMate\r\n    ApiUrl    REG_SZ    https://runner.example.org/\r\n")
        },
        "reg query HKLM\\SOFTWARE\\ReportMate /v Passphrase" => {
            some("HKEY_LOCAL_MACHINE\\SOFTWARE\\ReportMate\r\n    Passphrase    REG_SZ    runner pp\r\n")
        },
        _ => None,
    });
    assert_eq!(
        asked,
        vec![
            "connection.json",
            "reg query HKLM\\SOFTWARE\\ReportMate /v ApiUrl",
            "reg query HKLM\\SOFTWARE\\ReportMate /v ReadApiKey",
            "reg query HKLM\\SOFTWARE\\ReportMate\\Settings /v ReadApiKey",
            "reg query HKLM\\SOFTWARE\\ReportMate\\Policies /v ReadApiKey",
            "reg query HKLM\\SOFTWARE\\ReportMate /v Passphrase",
        ]
    );
    assert_eq!(r.api_url.as_deref(), Some("https://runner.example.org"));
    assert_eq!(r.sources.api_url.as_deref(), Some("device runner preferences"));
    assert_eq!(credential(&r), Some(("passphrase".into(), "runner pp".into())));
    assert_eq!(r.sources.credential.as_deref(), Some("device runner preferences (passphrase)"));
}

#[test]
fn cloud_sign_in_failures_leave_notes() {
    let e = Environment {
        api_url: some("https://abc.execute-api.us-west-2.amazonaws.com/v1"),
        oidc_audience: some("api://aud"),
        internal_secret: some("sek"),
        ..env()
    };
    let (r, asked) = drive(e, Platform::Windows, |l| {
        if l.starts_with("aws ") {
            some("None")
        } else {
            None
        }
    });
    assert_eq!(asked.len(), 12);
    assert_eq!(
        asked[10..],
        [
            "az.cmd account get-access-token --resource api://aud --query accessToken -o tsv".to_string(),
            "aws secretsmanager get-secret-value --secret-id reportmate/client-passphrase --query SecretString --output text"
                .to_string(),
        ]
    );
    assert!(r.credential.is_none());
    assert_eq!(r.sources.audience.as_deref(), Some("REPORTMATE_OIDC_AUDIENCE"));
    assert_eq!(
        r.notes,
        vec![
            "Entra sign-in: az account get-access-token --resource api://aud returned nothing (run az login)".to_string(),
            "AWS Secrets Manager reportmate/client-passphrase: aws secretsmanager get-secret-value --secret-id reportmate/client-passphrase returned nothing (run aws sso login)".to_string(),
        ]
    );
    assert_eq!(r.internal_secret.as_deref(), Some("sek"));
    match Config::load(r) {
        Err(CliError::NoCredential { notes }) => assert_eq!(notes.len(), 2),
        _ => panic!("expected no credential"),
    }
}

#[test]
fn entra_token_and_aws_secret_are_taken() {
    let e = Environment { oidc_audience: some("api://aud"), ..env() };
    let (r, _) = drive(e, Platform::Other, |l| if l.starts_with("az ") { some("tok") } else { None });
    assert_eq!(credential(&r), Some(("bearer".into(), "tok".into())));
    assert_eq!(r.sources.credential.as_deref(), Some("Entra sign-in via az"));

    let e = Environment { cloud: some("aws"), aws_secret_id: some("my/secret"), ..env() };
    let (r, asked) = drive(e, Platform::Other, |l| if l.starts_with("aws ") { some("s3cret") } else { None });
    assert_eq!(asked.len(), 2);
    assert_eq!(credential(&r), Some(("passphrase".into(), "s3cret".into())));
    assert_eq!(r.sources.credential.as_deref(), Some("AWS Secrets Manager my/secret"));
}

#[test]
fn app_entra_method_uses_the_app_audience() {
    let conn = r#"{"apiUrl":"https://a.example.org","authMethod":"entraBearer","oidcAudience":"api://app"}"#;
    let (r, asked) = drive(env(), Platform::Other, |l| match l {
        "connection.json" => some(conn),
        "az account get-access-token --resource api://app --query accessToken -o tsv" => some("app_tok"),
        _ => None,
    });
    assert_eq!(asked.len(), 2);
    assert_eq!(credential(&r), Some(("bearer".into(), "app_tok".into())));
    assert_eq!(r.sources.credential.as_deref(), Some("Entra sign-in via az (app connection)"));
    assert_eq!(r.sources.audience.as_deref(), Some("ReportMate app connection"));
}

#[test]
fn nothing_found_means_no_endpoint() {
    let (r, _) = drive(env(), Platform::Other, |_| None);
    assert!(r.api_url.is_none());
    assert!(r.credential.is_none());
    assert_eq!(Config::load(r).err().unwrap(), CliError::NoEndpoint);
}

fn reg_listing(key: &str, name: &str, value: &str) -> Option<String> {
    some(&format!("{key}\r\n    {name}    REG_SZ    {value}\r\n"))
}

#[test]
fn entra_sign_in_comes_before_the_runner_passphrase() {
    let e = Environment { oidc_audience: some("api://aud"), ..env() };
    let (r, asked) = drive(e, Platform::Windows, |l| match l {
        "reg query HKLM\\SOFTWARE\\ReportMate /v Passphrase" => {
            reg_listing("HKEY_LOCAL_MACHINE\\SOFTWARE\\ReportMate", "Passphrase", "runner pp")
        },
        "az.cmd account get-access-token --resource api://aud --query accessToken -o tsv" => some("tok"),
        _ => None,
    });
    assert_eq!(asked.last().unwrap(), "az.cmd account get-access-token --resource api://aud --query accessToken -o tsv");
    assert_eq!(credential(&r), Some(("bearer".into(), "tok".into())));
    assert_eq!(r.sources.credential.as_deref(), Some("Entra sign-in via az"));
}

#[test]
fn runner_read_api_key_comes_before_its_passphrase() {
    let (r, asked) = drive(env(), Platform::Windows, |l| match l {
        "reg query HKLM\\SOFTWARE\\ReportMate\\Settings /v ReadApiKey" => {
            reg_listing("HKEY_LOCAL_MACHINE\\SOFTWARE\\ReportMate\\Settings", "ReadApiKey", "rm_read")
        },
        "reg query HKLM\\SOFTWARE\\ReportMate /v Passphrase" => {
            reg_listing("HKEY_LOCAL_MACHINE\\SOFTWARE\\ReportMate", "Passphrase", "pp")
        },
        "reg query HKLM\\SOFTWARE\\ReportMate /v ApiKey" => {
            reg_listing("HKEY_LOCAL_MACHINE\\SOFTWARE\\ReportMate", "ApiKey", "ingest")
        },
        _ => None,
    });
    assert!(!asked.iter().any(|l| l.ends_with("/v ApiKey")));
    assert!(!asked.iter().any(|l| l.contains("Policies /v ReadApiKey")));
    assert_eq!(credential(&r), Some(("key".into(), "rm_read".into())));
    assert_eq!(r.sources.credential.as_deref(), Some("device runner preferences (read API key)"));
}

#[test]
fn runner_values_are_taken_from_the_policies_subkey_last() {
    let (r, asked) = drive(env(), Platform::Windows, |l| match l {
        "reg query HKLM\\SOFTWARE\\ReportMate\\Policies /v ApiUrl" => {
            reg_listing("HKEY_LOCAL_MACHINE\\SOFTWARE\\ReportMate\\Policies", "ApiUrl", "https://policy.example.org")
        },
        _ => None,
    });
    assert_eq!(asked[1..4], [
        "reg query HKLM\\SOFTWARE\\ReportMate /v ApiUrl".to_string(),
        "reg query HKLM\\SOFTWARE\\ReportMate\\Settings /v ApiUrl".to_string(),
        "reg query HKLM\\SOFTWARE\\ReportMate\\Policies /v ApiUrl".to_string(),
    ]);
    assert_eq!(r.api_url.as_deref(), Some("https://policy.example.org"));
    assert!(r.credential.is_none());
}
