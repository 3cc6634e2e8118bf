use reportmate::cli::HttpMethod;
use reportmate::client::{
    auth_headers, read_response, request_headers, request_url, response_json, response_text, user_agent, Body,
};
use reportmate::config::{Config, Credential, Sources};
use reportmate::error::CliError;

fn config(credential: Credential, internal_secret: Option<&str>) -> Config {
    Config {
        api_url: "https://api.example.org".to_string(),
        credential,
        internal_secret: internal_secret.map(str::to_string),
        sources: Sources::default(),
    }
}

fn pair(k: &str, v: &str) -> (String, String) {
    (k.to_string(), v.to_string())
}

#[test]
fn credentials_map_to_the_api_headers() {
    let h = auth_headers(&config(Credential::ApiKey("rm_k".into()), None));
    assert_eq!(h, vec![pair("X-API-Key", "rm_k")]);
    let h = auth_headers(&config(Credential::Bearer("jwt".into()), None));
    assert_eq!(h, vec![pair("Authorization", "Bearer jwt")]);
    let h = auth_headers(&config(Credential::Passphrase("pp".into()), None));
    assert_eq!(h, vec![pair("X-Client-Passphrase", "pp")]);
    let h = auth_headers(&config(Credential::ApiKey("rm_k".into()), Some("sek")));
    assert_eq!(h, vec![pair("X-API-Key", "rm_k"), pair("X-Internal-Secret", "sek")]);
}

#[test]
fn request_headers_are_the_command_s_then_auth_then_accept() {
    let cfg = config(Credential::Passphrase("pp".into()), None);
    let h = request_headers(&cfg, &vec![pair("X-Updated-By", "rod")], false);
    assert_eq!(
        h,
        vec![
            pair("X-Updated-By", "rod"),
            pair("X-Client-Passphrase", "pp"),
            pair("Accept", "application/json, text/plain;q=0.9, */*;q=0.8"),
        ]
    );
}

#[test]
fn a_body_goes_with_the_json_content_type_and_only_then() {
    let cfg = config(Credential::ApiKey("k".into()), Some("sek"));
    let with = request_headers(&cfg, &vec![], true);
    assert_eq!(
        with,
        vec![
            pair("Content-Type", "application/json"),
            pair("X-API-Key", "k"),
            pair("X-Internal-Secret", "sek"),
            pair("Accept", "application/json, text/plain;q=0.9, */*;q=0.8"),
        ]
    );
    let without = request_headers(&cfg, &vec![], false);
    assert!(!without.iter().any(|(k, _)| k == "Content-Type"));
    assert_eq!(without.len(), 3);
}

#[test]
fn text_and_json_answers_pass_errors_on() {
    let err = CliError::Upstream { method: "GET".into(), path: "/p".into(), status: "500".into(), body: "x".into() };
    assert_eq!(response_text(Err(CliError::NoEndpoint)), Err(CliError::NoEndpoint));
    assert_eq!(response_json(Err(err), "/p").err().unwrap().message(), "GET /p -> 500: x");
    assert_eq!(response_text(Ok(Body::Text("rm_up 1\n".into()))), Ok("rm_up 1\n".to_string()));
    assert_eq!(response_text(Ok(Body::Json("[1,2]".into()))), Ok("[\n  1,\n  2\n]".to_string()));
    assert_eq!(response_json(Ok(Body::Json("{}".into())), "/p"), Ok("{}".to_string()));
    assert!(matches!(response_json(Ok(Body::Text("a".into())), "/p"), Err(CliError::NotJson { .. })));
}

#[test]
fn urls_and_user_agent() {
    let cfg = config(Credential::ApiKey("k".into()), None);
    assert_eq!(request_url(&cfg, "/api/v1/devices?limit=5"), "https://api.example.org/api/v1/devices?limit=5");
    assert_eq!(user_agent("2026.9.1"), "reportmate-cli/2026.9.1");
}

#[test]
fn api_errors_fail_with_the_upstream_status() {
    let body = r#"{"error":"Forbidden","detail":"missing scope"}"#;
    let r = read_response(HttpMethod::Get, "/api/v1/forbidden", 403, "403 Forbidden", "application/json", body.to_string());
    let err = r.err().unwrap();
    assert!(err.message().contains("GET /api/v1/forbidden -> 403"), "{}", err.message());
    assert!(err.message().contains("missing scope"), "{}", err.message());
    assert_eq!(
        err,
        CliError::Upstream {
            method: "GET".into(),
            path: "/api/v1/forbidden".into(),
            status: "403 Forbidden".into(),
            body: body.into(),
        }
    );
}

#[test]
fn responses_are_json_or_text_by_content_type() {
    let ok = |ct: &str, text: &str| read_response(HttpMethod::Get, "/p", 200, "200 OK", ct, text.to_string());
    assert_eq!(ok("application/json", ""), Ok(Body::Json("null".into())));
    assert_eq!(ok("application/json", "{\"a\":1}"), Ok(Body::Json("{\"a\":1}".into())));
    assert!(matches!(ok("application/json; charset=utf-8", "{oops"), Err(CliError::BadResponseJson(_))));
    assert_eq!(ok("text/plain; version=0.0.4", "rm_up 1\n"), Ok(Body::Text("rm_up 1\n".into())));
    assert_eq!(ok("text/plain", "[1]"), Ok(Body::Text("[1]".into())));
    assert_eq!(ok("", "[1]"), Ok(Body::Json("[1]".into())));
    assert_eq!(ok("text/csv", "a,b\n1,2\n"), Ok(Body::Text("a,b\n1,2\n".into())));
    assert_eq!(ok("application/octet-stream", "a,b"), Ok(Body::Text("a,b".into())));
    let created = read_response(HttpMethod::Post, "/p", 201, "201 Created", "application/json", "{}".into());
    assert_eq!(created, Ok(Body::Json("{}".into())));
    let moved = read_response(HttpMethod::Get, "/p", 301, "301 Moved Permanently", "", "".into());
    assert!(matches!(moved, Err(CliError::Upstream { .. })));
}

#[test]
fn text_endpoints_print_their_body_verbatim() {
    assert_eq!(Body::Text("rm_up 1\n".into()).into_text(), "rm_up 1\n");
    assert_eq!(Body::Text("a,b\n1,2\n3,4\n".into()).into_text(), "a,b\n1,2\n3,4\n");
    assert_eq!(Body::Json("{\"a\":1}".into()).into_text(), "{\n  \"a\": 1\n}");
}

#[test]
fn json_endpoints_refuse_text_bodies() {
    assert_eq!(Body::Json("[1]".into()).into_json("/p"), Ok("[1]".to_string()));
    let long = "x".repeat(250);
    match Body::Text(long).into_json("/api/v1/x") {
        Err(CliError::NotJson { path, excerpt }) => {
            assert_eq!(path, "/api/v1/x");
            assert_eq!(excerpt, "x".repeat(200));
        },
        other => panic!("{other:?}"),
    }
    let e = Body::Text("<html>".into()).into_json("/q").err().unwrap();
    assert_eq!(e.message(), "/q returned a non-JSON body: <html>");
}

#[test]
fn error_messages() {
    assert_eq!(CliError::BadParam("x".into()).message(), "--param must be key=value, got: x");
    assert_eq!(CliError::ModuleWithSubcommand.message(), "--module cannot be combined with a subcommand");
    assert_eq!(CliError::RawPathNotAbsolute.message(), "path must start with /, e.g. /api/v1/dashboard");
    assert_eq!(
        CliError::ReadFile { path: "a.json".into(), detail: "denied".into() }.message(),
        "reading a.json\n\nCaused by:\n    denied"
    );
    assert_eq!(
        CliError::InvalidJson { what: "settings".into(), detail: "EOF".into() }.message(),
        "settings must be valid JSON: EOF"
    );
    assert_eq!(CliError::BadResponseJson("bad".into()).message(), "bad");
    assert_eq!(
        CliError::NoEndpoint.message(),
        "no API endpoint: set REPORTMATE_API_URL, or connect the ReportMate app on this machine (Settings → Connection)"
    );
    assert_eq!(
        CliError::NoCredential { notes: vec![] }.message(),
        "no credential: set REPORTMATE_API_KEY (preferred), REPORTMATE_PASSPHRASE or REPORTMATE_TOKEN, connect the ReportMate app on this machine, or sign in to the deployment's cloud (az login / aws sso login)"
    );
    let two = CliError::NoCredential { notes: vec!["a".into(), "b".into()] }.message();
    assert!(two.ends_with("(az login / aws sso login)\n  a\n  b"));
}
