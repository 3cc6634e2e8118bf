use reportmate::cli::OutputFormat;
use reportmate::config::{Credential, Resolution, Sources};
use reportmate::output::{
    clip, config_report, devices_table, events_table, export_note, field, first_field, get,
    pretty_json, rows, JsonKind, JsonValue,
};

fn string(s: &str) -> JsonValue {
    JsonValue { text: format!("{s:?}"), kind: JsonKind::Str(s.to_string()) }
}

fn number(n: i64) -> JsonValue {
    JsonValue { text: n.to_string(), kind: JsonKind::Other }
}

fn object(members: Vec<(&str, JsonValue)>) -> JsonValue {
    JsonValue {
        text: String::from("{..}"),
        kind: JsonKind::Object(members.into_iter().map(|(k, v)| (k.to_string(), v)).collect()),
    }
}

fn array(items: Vec<JsonValue>) -> JsonValue {
    JsonValue { text: String::from("[..]"), kind: JsonKind::Array(items) }
}

fn strings(v: &[&str]) -> Vec<String> {
    v.iter().map(|s| s.to_string()).collect()
}

#[test]
fn devices_table_has_one_row_per_device_and_the_total() {
    let d1 = object(vec![
        ("serialNumber", string("SER1")),
        ("deviceName", string("Lab Mac")),
        ("platform", string("macOS")),
        ("lastSeen", string("2026-09-01")),
    ]);
    let d2 = object(vec![("serialNumber", string("SER2")), ("platform", number(3))]);
    let v = object(vec![("devices", array(vec![d1, d2])), ("total", number(2))]);
    let t = devices_table(&v);
    assert_eq!(t.header, strings(&["Serial", "Name", "Platform", "Last Seen"]));
    assert_eq!(
        t.rows,
        vec![strings(&["SER1", "Lab Mac", "macOS", "2026-09-01"]), strings(&["SER2", "-", "-", "-"])]
    );
    assert_eq!(t.footer.as_deref(), Some("total: 2"));
}

#[test]
fn tables_accept_a_bare_array_or_nothing() {
    let v = array(vec![object(vec![("serialNumber", string("S"))])]);
    let t = devices_table(&v);
    assert_eq!(t.rows, vec![strings(&["S", "-", "-", "-"])]);
    assert_eq!(t.footer, None);
    let t = devices_table(&string("nope"));
    assert!(t.rows.is_empty());
    let t = events_table(&object(vec![("events", number(1))]));
    assert!(t.rows.is_empty());
}

#[test]
fn events_table_takes_the_first_field_present_and_clips_messages() {
    let long = "m".repeat(100);
    let e = object(vec![
        ("ts", string("t1")),
        ("createdAt", string("t0")),
        ("device", string("SER1")),
        ("kind", number(1)),
        ("status", string("error")),
        ("message", string(&long)),
    ]);
    let t = events_table(&object(vec![("events", array(vec![e]))]));
    assert_eq!(t.header, strings(&["Time", "Serial", "Kind", "Message"]));
    assert_eq!(t.rows.len(), 1);
    assert_eq!(t.rows[0][0], "t1");
    assert_eq!(t.rows[0][1], "SER1");
    assert_eq!(t.rows[0][2], "error");
    assert_eq!(t.rows[0][3], format!("{}...", "m".repeat(77)));
    assert_eq!(t.rows[0][3].chars().count(), 80);
    assert_eq!(t.footer, None);
}

#[test]
fn clipping_keeps_short_messages() {
    assert_eq!(clip("short".to_string()), "short");
    let eighty = "é".repeat(80);
    assert_eq!(clip(eighty.clone()), eighty);
    let more = "é".repeat(81);
    assert_eq!(clip(more), format!("{}...", "é".repeat(77)));
}

#[test]
fn members_and_fields() {
    let v = object(vec![("a", string("x")), ("b", number(5))]);
    assert_eq!(get(&v, "a").map(|m| m.text.clone()), Some("\"x\"".to_string()));
    assert!(get(&v, "c").is_none());
    assert!(get(&string("a"), "a").is_none());
    assert_eq!(field(&v, "a"), "x");
    assert_eq!(field(&v, "b"), "-");
    assert_eq!(first_field(&v, &["b", "c", "a"]), "x");
    assert_eq!(first_field(&v, &["b", "c"]), "-");
    assert_eq!(rows(&array(vec![number(1), number(2)]), "k").len(), 2);
}

#[test]
fn json_output_is_the_api_body_pretty_printed() {
    let body = r#"{"ok":true,"path":"/api/v1/device/SER1"}"#;
    let out = pretty_json(body);
    assert_eq!(out, "{\n  \"ok\": true,\n  \"path\": \"/api/v1/device/SER1\"\n}");
    let value: serde_json::Value = serde_json::from_str(&out).expect("stdout is JSON");
    assert_eq!(value["path"], "/api/v1/device/SER1");
    assert_eq!(pretty_json("null"), "null");
    assert_eq!(pretty_json("{"), "");
}

#[test]
fn export_note_counts_rows_after_the_header() {
    assert_eq!(export_note("a,b\n1,2\n3,4\n", "august.csv"), "wrote 2 rows to august.csv");
    assert_eq!(export_note("a,b", "x.csv"), "wrote 0 rows to x.csv");
    assert_eq!(export_note("", "x.csv"), "wrote 0 rows to x.csv");
    assert_eq!(export_note("h\r\n1\r\n2", "y"), "wrote 2 rows to y");
}

fn resolution(complete: bool) -> Resolution {
    Resolution {
        api_url: Some("https://api.example.org".into()),
        credential: if complete { Some(Credential::ApiKey("secret".into())) } else { None },
        internal_secret: if complete { Some("sek".into()) } else { None },
        sources: Sources {
            api_url: Some("REPORTMATE_API_URL".into()),
            credential: if complete { Some("REPORTMATE_API_KEY".into()) } else { None },
            audience: Some("REPORTMATE_OIDC_AUDIENCE".into()),
        },
        notes: vec!["Entra sign-in: failed".into()],
    }
}

#[test]
fn config_report_for_people() {
    let lines = config_report(&resolution(true), OutputFormat::Table);
    assert_eq!(
        lines,
        strings(&[
            "API endpoint : https://api.example.org",
            "  from       : REPORTMATE_API_URL",
            "Credential   : api key (X-API-Key)",
            "  from       : REPORTMATE_API_KEY",
            "Entra audience from : REPORTMATE_OIDC_AUDIENCE",
            "Internal secret     : set (REPORTMATE_INTERNAL_SECRET)",
            "Note: Entra sign-in: failed",
        ])
    );
    let lines = config_report(&resolution(false), OutputFormat::Table);
    assert_eq!(lines[2], "Credential   : (none)");
    assert_eq!(lines[3], "  from       : -");
    assert_eq!(lines.len(), 10);
    assert_eq!(lines[6], "");
    assert!(lines[7].starts_with("Resolution order: environment"));
}

#[test]
fn config_report_as_json_holds_no_secret() {
    let lines = config_report(&resolution(true), OutputFormat::Json);
    assert_eq!(lines.len(), 1);
    assert!(!lines[0].contains("secret\""));
    let v: serde_json::Value = serde_json::from_str(&lines[0]).unwrap();
    assert_eq!(v["apiUrl"], "https://api.example.org");
    assert_eq!(v["apiUrlSource"], "REPORTMATE_API_URL");
    assert_eq!(v["credential"], "api key (X-API-Key)");
    assert_eq!(v["credentialSource"], "REPORTMATE_API_KEY");
    assert_eq!(v["audienceSource"], "REPORTMATE_OIDC_AUDIENCE");
    assert_eq!(v["internalSecret"], true);
    assert_eq!(v["notes"][0], "Entra sign-in: failed");
    let none = config_report(&resolution(false), OutputFormat::Json);
    let v: serde_json::Value = serde_json::from_str(&none[0]).unwrap();
    assert!(v["credential"].is_null());
    assert_eq!(v["internalSecret"], false);
}

#[test]
fn config_report_is_the_same_whatever_the_secrets() {
    let mut other = resolution(true);
    other.credential = Some(Credential::ApiKey("another-secret".into()));
    other.internal_secret = Some("another-sek".into());
    for format in [OutputFormat::Table, OutputFormat::Json] {
        let a = config_report(&resolution(true), format);
        let b = config_report(&other, format);
        assert_eq!(a, b);
        assert!(!a.iter().any(|l| l.contains("secret\"") || l.contains("sek\"")));
    }
}
