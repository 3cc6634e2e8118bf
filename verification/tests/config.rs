use reportmate::config::{
    aws_secret, az_token, detect_cloud, env_value, parse_connection_json, parse_reg_query,
    stdout_value, Config, Credential, Resolution, Sources,
};
use reportmate::error::CliError;

#[test]
fn detects_cloud_from_host() {
    assert_eq!(detect_cloud("https://api.prod.azurecontainerapps.io"), Some("azure".into()));
    assert_eq!(detect_cloud("https://abc.execute-api.us-west-2.amazonaws.com/v1"), Some("aws".into()));
    assert_eq!(detect_cloud("https://api.example.org"), None);
}

#[test]
fn parses_connection_json() {
    let c = parse_connection_json(r#"{"apiUrl":"https://api.example.org/","authMethod":"entraBearer","oidcAudience":"api://00000000-0000-0000-0000-000000000000","cloud":"azure"}"#).unwrap();
    assert_eq!(c.api_url.as_deref(), Some("https://api.example.org/"));
    assert_eq!(c.auth_method.as_deref(), Some("entraBearer"));
    assert_eq!(c.cloud.as_deref(), Some("azure"));
    assert!(parse_connection_json("not json").is_none());
}

#[test]
fn parses_reg_query_output() {
    let out = "\r\nHKEY_LOCAL_MACHINE\\SOFTWARE\\ReportMate\r\n    ApiUrl    REG_SZ    https://api.example.org\r\n\r\n";
    assert_eq!(parse_reg_query(out, "ApiUrl").as_deref(), Some("https://api.example.org"));
    assert_eq!(parse_reg_query(out, "Passphrase"), None);
}

#[test]
fn detect_cloud_reads_the_host_only() {
    assert_eq!(detect_cloud("HTTPS://X.AZUREWEBSITES.NET/api"), Some("azure".into()));
    assert_eq!(detect_cloud("https://svc.awsapprunner.com"), Some("aws".into()));
    assert_eq!(detect_cloud("https://gw.azure-api.net"), Some("azure".into()));
    assert_eq!(detect_cloud("https://api.example.org/x.amazonaws.com"), None);
    assert_eq!(detect_cloud("api.amazonaws.com"), Some("aws".into()));
    assert_eq!(detect_cloud(""), None);
}

#[test]
fn connection_json_falls_back_and_trims() {
    let c = parse_connection_json(r#"{"apiBaseUrl":"  https://b.example.org ","authMethod":"  ","cloud":7}"#).unwrap();
    assert_eq!(c.api_url.as_deref(), Some("https://b.example.org"));
    assert_eq!(c.auth_method, None);
    assert_eq!(c.oidc_audience, None);
    assert_eq!(c.cloud, None);
    let c = parse_connection_json("[1,2]").unwrap();
    assert_eq!(c.api_url, None);
}

#[test]
fn reg_query_takes_the_words_after_the_type() {
    let out = "HKEY_LOCAL_MACHINE\\SOFTWARE\\ReportMate\n    Passphrase    REG_SZ    two  words here\n";
    assert_eq!(parse_reg_query(out, "Passphrase").as_deref(), Some("two words here"));
    assert_eq!(parse_reg_query("    ApiUrl\n    ApiUrl    REG_SZ    x\n", "ApiUrl"), None);
    assert_eq!(parse_reg_query("    ApiUrl    REG_SZ\n    ApiUrl    REG_SZ    y\n", "ApiUrl").as_deref(), Some("y"));
}

#[test]
fn environment_values_are_trimmed_and_blank_is_unset() {
    assert_eq!(env_value(&Some("  v \n".to_string())).as_deref(), Some("v"));
    assert_eq!(env_value(&Some("   ".to_string())), None);
    assert_eq!(env_value(&None), None);
}

#[test]
fn helper_output_counts_only_on_success() {
    assert_eq!(stdout_value(true, " tok\n").as_deref(), Some("tok"));
    assert_eq!(stdout_value(true, "\n"), None);
    assert_eq!(stdout_value(false, "tok"), None);
}

#[test]
fn az_and_aws_failures_say_what_to_run() {
    assert_eq!(az_token("api://x", Some("t".into())), Ok("t".to_string()));
    assert_eq!(
        az_token("api://x", None),
        Err("az account get-access-token --resource api://x returned nothing (run az login)".to_string())
    );
    assert_eq!(aws_secret("s/id", Some("pp".into())), Ok("pp".to_string()));
    let failure = "aws secretsmanager get-secret-value --secret-id s/id returned nothing (run aws sso login)".to_string();
    assert_eq!(aws_secret("s/id", Some("None".into())), Err(failure.clone()));
    assert_eq!(aws_secret("s/id", None), Err(failure));
}

#[test]
fn credential_kinds_name_their_header() {
    assert_eq!(Credential::ApiKey("k".into()).kind(), "api key (X-API-Key)");
    assert_eq!(Credential::Passphrase("p".into()).kind(), "passphrase (X-Client-Passphrase)");
    assert_eq!(Credential::Bearer("t".into()).kind(), "bearer token (Authorization)");
}

fn resolution(url: Option<&str>, cred: Option<Credential>, notes: Vec<&str>) -> Resolution {
    Resolution {
        api_url: url.map(str::to_string),
        credential: cred,
        internal_secret: Some("sek".into()),
        sources: Sources { api_url: Some("REPORTMATE_API_URL".into()), credential: None, audience: None },
        notes: notes.into_iter().map(str::to_string).collect(),
    }
}

#[test]
fn config_load_needs_endpoint_then_credential() {
    let err = Config::load(resolution(None, None, vec![])).err().unwrap();
    assert_eq!(err, CliError::NoEndpoint);
    let err = Config::load(resolution(Some("https://a"), None, vec!["Entra sign-in: no"])).err().unwrap();
    assert_eq!(err, CliError::NoCredential { notes: vec!["Entra sign-in: no".to_string()] });
    assert!(err.message().starts_with("no credential"));
    assert!(err.message().ends_with("\n  Entra sign-in: no"));
    let cfg = Config::load(resolution(Some("https://a"), Some(Credential::ApiKey("k".into())), vec![]))
        .ok()
        .unwrap();
    assert_eq!(cfg.api_url, "https://a");
    assert_eq!(cfg.internal_secret.as_deref(), Some("sek"));
    assert_eq!(cfg.sources.api_url.as_deref(), Some("REPORTMATE_API_URL"));
    assert!(matches!(cfg.credential, Credential::ApiKey(ref k) if k == "k"));
}
