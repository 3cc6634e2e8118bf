use reportmate::cli::{
    AdminCommand, ApiKeysCommand, AppsCommand, Cli, Command, DeviceCommand, EventsCommand,
    HttpMethod, InstallsCommand, InventoryFilters, JsonArg, OutputFormat, SettingsCommand,
    UsageHistoryCommand,
};
use reportmate::cli::HttpMethod::{Delete, Get, Patch, Post, Put};
use reportmate::error::CliError;
use reportmate::routes::{api_key_body, json_arg, json_arg_file, plan, ApiCall, Expect, Plan, Render};

fn cli(command: Command) -> Cli {
    Cli { output: OutputFormat::Table, command }
}

fn planned(command: Command) -> (ApiCall, Render) {
    match plan(cli(command)) {
        Ok(Plan::Call(c, r)) => (c, r),
        Ok(other) => panic!("no call planned: {other:?}"),
        Err(e) => panic!("refused: {}", e.message()),
    }
}

fn sends(command: Command, method: HttpMethod, target: &str) {
    let (call, _) = planned(command);
    assert_eq!((call.method, call.target.as_str()), (method, target));
}

fn s(t: &str) -> String {
    t.to_string()
}

fn some(t: &str) -> Option<String> {
    Some(t.to_string())
}

fn no_filters() -> InventoryFilters {
    InventoryFilters::default()
}

fn device(serial: &str, command: Option<DeviceCommand>) -> Command {
    Command::Device { serial: s(serial), module: None, command }
}

fn module(name: &str, include_archived: bool, limit: Option<u32>, offset: Option<u32>, params: Vec<String>) -> Command {
    Command::Module { name: s(name), include_archived, limit, offset, params }
}

#[test]
fn device_commands_send_the_documented_requests() {
    sends(
        Command::Devices { limit: Some(5), offset: Some(10), include_archived: true },
        Get,
        "/api/v1/devices?limit=5&offset=10&includeArchived=true",
    );
    sends(device("SER1", None), Get, "/api/v1/device/SER1");
    sends(
        Command::Device { serial: s("SER1"), module: some("installs"), command: None },
        Get,
        "/api/v1/device/SER1/modules/installs",
    );
    sends(device("SER1", Some(DeviceCommand::Module { name: s("hardware") })), Get, "/api/v1/device/SER1/modules/hardware");
    sends(device("SER1", Some(DeviceCommand::Info)), Get, "/api/v1/device/SER1/info");
    sends(
        device("SER1", Some(DeviceCommand::Events { limit: Some(3), kind: some("error") })),
        Get,
        "/api/v1/device/SER1/events?limit=3&type=error",
    );
    sends(device("SER1", Some(DeviceCommand::InstallsLog)), Get, "/api/v1/device/SER1/installs/log");
    sends(device("SER1", Some(DeviceCommand::Log { tool: s("munki") })), Get, "/api/v1/device/SER1/logs/munki");
    sends(
        device("SER1", Some(DeviceCommand::Usage { days: Some(30), app: some("Adobe Photoshop") })),
        Get,
        "/api/v1/device/SER1/applications/usage/history?days=30&appName=Adobe%20Photoshop",
    );
    sends(device("SER1", Some(DeviceCommand::Archive)), Patch, "/api/v1/device/SER1/archive");
    sends(device("SER1", Some(DeviceCommand::Unarchive)), Patch, "/api/v1/device/SER1/unarchive");
    sends(device("SER1", Some(DeviceCommand::Delete { confirm: true })), Delete, "/api/v1/device/SER1?confirm=true");
    sends(Command::Archive { serial: s("SER2") }, Patch, "/api/v1/device/SER2/archive");
    sends(Command::Delete { serial: s("SER2"), confirm: true }, Delete, "/api/v1/device/SER2?confirm=true");
}

#[test]
fn fleet_reports_send_the_documented_requests() {
    sends(module("hardware", true, Some(50), Some(5), vec![]), Get, "/api/v1/hardware?includeArchived=true&limit=50&offset=5");
    sends(module("installs", false, None, None, vec![]), Get, "/api/v1/installs");
    sends(module("installs/full", false, None, None, vec![s("foo=bar")]), Get, "/api/v1/installs/full?foo=bar");
    sends(module("installs/filters", false, None, None, vec![]), Get, "/api/v1/installs/filters");
    sends(module("network", false, Some(1000), None, vec![]), Get, "/api/v1/network?limit=1000");
    for name in ["security", "management", "inventory", "system", "peripherals", "identity", "profiles"] {
        sends(module(name, false, None, None, vec![]), Get, &format!("/api/v1/{name}"));
    }
    sends(module("/hardware/", false, None, None, vec![]), Get, "/api/v1/hardware");
    sends(
        Command::Dashboard { events_limit: Some(50), include_archived: true },
        Get,
        "/api/v1/dashboard?eventsLimit=50&includeArchived=true",
    );
    sends(
        Command::Certificates { search: s("acme"), status: s("expiring"), limit: Some(20), include_archived: false },
        Get,
        "/api/v1/security/certificates?search=acme&status=expiring&limit=20",
    );
    sends(
        Command::Logs {
            tool: s("munki"),
            levels: some("error,warning"),
            platform: some("macos"),
            file: some("run.log"),
            grep: some("timed out"),
            summary: true,
            max_lines_per_device: Some(50),
            include_archived: true,
            limit: Some(10),
            offset: Some(0),
        },
        Get,
        "/api/v1/management/logs/munki?levels=error%2Cwarning&platform=macos&file=run.log&q=timed%20out&summary=true&maxLinesPerDevice=50&includeArchived=true&limit=10&offset=0",
    );
}

#[test]
fn application_reports_send_the_documented_requests() {
    let list = AppsCommand::List {
        devices: None,
        names: some("Zoom,Slack"),
        publishers: some("Zoom"),
        categories: None,
        versions: None,
        search: some("zo"),
        installed_from: None,
        installed_to: None,
        size_min: Some(100),
        size_max: None,
        filters: InventoryFilters { usages: some("lab"), platforms: some("macos"), ..no_filters() },
        load_all: true,
        include_archived: false,
        limit: Some(10),
        offset: None,
        device_limit: Some(100),
    };
    sends(
        Command::Apps(Box::new(list)),
        Get,
        "/api/v1/applications?applicationNames=Zoom%2CSlack&publishers=Zoom&search=zo&sizeMin=100&usages=lab&platforms=macos&loadAll=true&limit=10&deviceLimit=100",
    );
    sends(
        Command::Apps(Box::new(AppsCommand::Filters { include_archived: true })),
        Get,
        "/api/v1/applications/filters?includeArchived=true",
    );
    let usage = AppsCommand::Usage {
        days: Some(90),
        names: some("Zoom"),
        min_hours: some("1.5"),
        min_launches: Some(2),
        filters: InventoryFilters { catalogs: some("prod"), rooms: some("101"), ..no_filters() },
        include_archived: false,
    };
    sends(
        Command::Apps(Box::new(usage)),
        Get,
        "/api/v1/applications/usage?days=90&applicationNames=Zoom&minHours=1.5&minLaunches=2&catalogs=prod&rooms=101",
    );
    let by_device = AppsCommand::ByDevice {
        app: s("Zoom"),
        days: Some(7),
        usages: None,
        catalogs: None,
        locations: some("North Van"),
        include_archived: false,
    };
    sends(
        Command::Apps(Box::new(by_device)),
        Get,
        "/api/v1/applications/usage/by-device?app=Zoom&days=7&locations=North%20Van",
    );
    let distribution = AppsCommand::Distribution {
        names: s("Zoom,Slack"),
        filters: InventoryFilters { areas: some("Design"), fleets: some("Lab"), ..no_filters() },
        include_archived: false,
    };
    sends(
        Command::Apps(Box::new(distribution)),
        Get,
        "/api/v1/applications/distribution?applicationNames=Zoom%2CSlack&areas=Design&fleets=Lab",
    );
    sends(
        Command::Apps(Box::new(AppsCommand::CollectionHealth {
            fresh_days: Some(3),
            stale_days: Some(60),
            include_archived: false,
        })),
        Get,
        "/api/v1/applications/collection-health?freshDays=3&staleDays=60",
    );
}

fn events(limit: Option<u32>, offset: Option<u32>, since: Option<String>, until: Option<String>, kind: Option<String>, command: Option<EventsCommand>) -> Command {
    Command::Events { limit, offset, since, until, kind, command }
}

#[test]
fn event_commands_send_the_documented_requests() {
    sends(events(Some(20), None, None, None, None, None), Get, "/api/v1/events?limit=20");
    sends(
        events(None, Some(5), some("2026-09-01"), some("2026-09-09"), some("warning"), None),
        Get,
        "/api/v1/events?offset=5&startDate=2026-09-01&endDate=2026-09-09&type=warning",
    );
    let failures = EventsCommand::Failures {
        limit: Some(5),
        offset: None,
        serial: some("ABC"),
        reason: some("upload_aborted"),
        hours: Some(24),
        outcome: some("all"),
    };
    sends(
        events(None, None, None, None, None, Some(failures)),
        Get,
        "/api/v1/events/failures?limit=5&serial=ABC&reason=upload_aborted&hours=24&outcome=all",
    );
    sends(
        events(None, None, None, None, None, Some(EventsCommand::Payload { event_id: 12345 })),
        Get,
        "/api/v1/events/12345/payload",
    );
    let submit = EventsCommand::Submit { json: JsonArg::Inline(s(r#"{"metadata":{"serialNumber":"X"}}"#)) };
    sends(events(None, None, None, None, None, Some(submit)), Post, "/api/v1/events");
}

#[test]
fn service_and_key_commands_send_the_documented_requests() {
    sends(Command::Health { ready: false, full: false }, Get, "/api/v1/health/live");
    sends(Command::Health { ready: true, full: false }, Get, "/api/v1/health/ready");
    sends(Command::Health { ready: false, full: true }, Get, "/api/v1/health");
    sends(Command::Metrics, Get, "/api/v1/metrics");
    sends(Command::Negotiate { device: s("cli") }, Get, "/api/v1/negotiate?device=cli");
    sends(Command::ApiKeys(ApiKeysCommand::List), Get, "/api/v1/admin/api-keys");
    sends(
        Command::ApiKeys(ApiKeysCommand::Create { name: s("ci"), scopes: vec![s("read"), s("admin")] }),
        Post,
        "/api/v1/admin/api-keys",
    );
    sends(Command::ApiKeys(ApiKeysCommand::Revoke { key_id: s("k1") }), Delete, "/api/v1/admin/api-keys/k1");
}

fn history(cmd: UsageHistoryCommand) -> Command {
    Command::Admin(AdminCommand::UsageHistory(cmd))
}

#[test]
fn admin_commands_send_the_documented_requests() {
    sends(
        history(UsageHistoryCommand::DateAnomalies { floor: some("2025-01-01"), limit: Some(5) }),
        Get,
        "/api/v1/admin/usage-history/date-anomalies?floor=2025-01-01&limit=5",
    );
    sends(
        history(UsageHistoryCommand::Integrity { days: Some(14), sample: Some(10) }),
        Get,
        "/api/v1/admin/usage-history/integrity?days=14&sample=10",
    );
    sends(
        history(UsageHistoryCommand::Export { from: s("2026-08-01"), to: s("2026-09-01"), out: None }),
        Get,
        "/api/v1/admin/usage-history/export?from=2026-08-01&to=2026-09-01",
    );
    sends(
        history(UsageHistoryCommand::ResetBaseline { before: s("2026-01-01"), confirm: false, reason: some("term reset") }),
        Post,
        "/api/v1/admin/usage-history/reset-baseline?before=2026-01-01&reason=term%20reset",
    );
    sends(
        history(UsageHistoryCommand::ResetBaseline { before: s("2026-01-01"), confirm: true, reason: None }),
        Post,
        "/api/v1/admin/usage-history/reset-baseline?before=2026-01-01&confirm=true",
    );
    sends(history(UsageHistoryCommand::Cleanup { months: 12 }), Delete, "/api/v1/admin/usage-history/cleanup?months=12");
    sends(
        Command::Admin(AdminCommand::CleanupUsage { months: 18 }),
        Delete,
        "/api/v1/admin/usage-history/cleanup?months=18",
    );
    sends(
        Command::Admin(AdminCommand::Installs(InstallsCommand::ClearErrors { days: 0, item_age_days: some("3.5") })),
        Delete,
        "/api/v1/admin/installs/clear-errors?days=0&item_age_days=3.5",
    );
    sends(Command::Admin(AdminCommand::ClearErrors { days: 5 }), Delete, "/api/v1/admin/installs/clear-errors?days=5");
    sends(
        Command::Admin(AdminCommand::Installs(InstallsCommand::Reclassify { batch: Some(500), limit: Some(1000) })),
        Post,
        "/api/v1/admin/installs/reclassify?batch=500&limit=1000",
    );
    sends(Command::Admin(AdminCommand::DebugDatabase), Get, "/api/v1/debug/database");
}

fn raw(path: &str, method: HttpMethod, data: Option<JsonArg>, params: Vec<String>) -> Command {
    Command::Raw { path: s(path), method, data, params }
}

#[test]
fn settings_and_raw_send_the_documented_requests() {
    sends(Command::Settings(SettingsCommand::Get), Get, "/api/v1/settings");
    sends(
        Command::Settings(SettingsCommand::Replace { json: JsonArg::Inline(s(r#"{"a":1}"#)), updated_by: some("rod") }),
        Put,
        "/api/v1/settings",
    );
    sends(
        Command::Settings(SettingsCommand::Discover { include_archived: true }),
        Get,
        "/api/v1/settings/inventory/discover?include_archived=true",
    );
    sends(raw("/", Get, None, vec![]), Get, "/");
    sends(raw("/api/v1/dashboard", Get, None, vec![s("eventsLimit=1")]), Get, "/api/v1/dashboard?eventsLimit=1");
    sends(raw("/api/v1/admin/installs/reclassify", Post, None, vec![]), Post, "/api/v1/admin/installs/reclassify");
    sends(raw("/api/v1/settings", Put, Some(JsonArg::Inline(s(r#"{"b":2}"#))), vec![]), Put, "/api/v1/settings");
}

fn json(t: &str) -> serde_json::Value {
    serde_json::from_str(t).expect("json")
}

#[test]
fn post_and_put_bodies_are_the_documented_json() {
    let (call, _) = planned(Command::ApiKeys(ApiKeysCommand::Create { name: s("ci"), scopes: vec![s("read"), s("admin")] }));
    let mut expected = serde_json::Map::new();
    expected.insert(s("client_id"), serde_json::Value::String(s("ci")));
    expected.insert(
        s("scopes"),
        serde_json::Value::Array(vec![serde_json::Value::String(s("read")), serde_json::Value::String(s("admin"))]),
    );
    assert_eq!(json(call.body.as_deref().unwrap()), serde_json::Value::Object(expected));
    assert_eq!(call.expect, Expect::Json);

    let (call, _) = planned(Command::Settings(SettingsCommand::Replace {
        json: JsonArg::Inline(s(r#"{"a":1}"#)),
        updated_by: some("rod"),
    }));
    assert_eq!(json(call.body.as_deref().unwrap()), json(r#"{"a": 1}"#));
    assert_eq!(call.headers, vec![(s("X-Updated-By"), s("rod"))]);

    let payload = r#"{"metadata":{"serialNumber":"X"},"events":[]}"#;
    let arg = JsonArg::File { path: s("/tmp/payload.json"), contents: Ok(s(payload)) };
    let (call, _) = planned(events(None, None, None, None, None, Some(EventsCommand::Submit { json: arg })));
    assert_eq!(json(call.body.as_deref().unwrap()), json(r#"{"metadata": {"serialNumber": "X"}, "events": []}"#));

    let err = plan(cli(Command::Settings(SettingsCommand::Replace { json: JsonArg::Inline(s("not json")), updated_by: None })))
        .err()
        .unwrap();
    assert!(err.message().contains("valid JSON"), "{}", err.message());
}

#[test]
fn api_key_bodies_quote_their_strings() {
    assert_eq!(api_key_body("ci", &vec![s("read"), s("admin")]), r#"{"client_id":"ci","scopes":["read","admin"]}"#);
    assert_eq!(api_key_body("a\"b", &vec![]), r#"{"client_id":"a\"b","scopes":[]}"#);
    assert_eq!(api_key_body("x", &vec![s("read")]), r#"{"client_id":"x","scopes":["read"]}"#);
}

#[test]
fn json_arguments_are_inline_or_read_from_a_file() {
    assert_eq!(json_arg_file("@settings.json").as_deref(), Some("settings.json"));
    assert_eq!(json_arg_file("{\"a\":1}"), None);
    assert_eq!(json_arg_file("@"), Some(s("")));
    assert_eq!(json_arg(JsonArg::Inline(s("[1]")), "x"), Ok(s("[1]")));
    assert_eq!(json_arg(JsonArg::Inline(s(r#"{ "a" : [1, 2], "b": 1 }"#)), "x"), Ok(s(r#"{"a":[1,2],"b":1}"#)));
    let missing = JsonArg::File { path: s("nope.json"), contents: Err(s("No such file")) };
    assert_eq!(
        json_arg(missing, "settings"),
        Err(CliError::ReadFile { path: s("nope.json"), detail: s("No such file") })
    );
    match json_arg(JsonArg::File { path: s("p"), contents: Ok(s("{")) }, "payload") {
        Err(CliError::InvalidJson { what, .. }) => assert_eq!(what, "payload"),
        other => panic!("{other:?}"),
    }
}

#[test]
fn destructive_commands_refuse_without_confirm() {
    let err = plan(cli(device("SER1", Some(DeviceCommand::Delete { confirm: false })))).err().unwrap();
    assert!(err.message().contains("--confirm"));
    assert_eq!(err, CliError::DeleteWithoutConfirm(s("SER1")));
    assert_eq!(err.message(), "refusing to delete SER1 without --confirm");
    let err = plan(cli(Command::Delete { serial: s("SER2"), confirm: false })).err().unwrap();
    assert_eq!(err, CliError::DeleteWithoutConfirm(s("SER2")));
}

#[test]
fn module_cannot_be_combined_with_a_subcommand() {
    let c = Command::Device { serial: s("S"), module: some("m"), command: Some(DeviceCommand::Info) };
    assert_eq!(plan(cli(c)).err().unwrap(), CliError::ModuleWithSubcommand);
}

#[test]
fn raw_paths_must_be_absolute_and_params_well_formed() {
    assert_eq!(plan(cli(raw("api/v1", HttpMethod::Get, None, vec![]))).err().unwrap(), CliError::RawPathNotAbsolute);
    assert_eq!(
        plan(cli(raw("/x", HttpMethod::Get, None, vec![s("novalue")]))).err().unwrap(),
        CliError::BadParam(s("novalue"))
    );
    assert_eq!(
        plan(cli(module("hardware", false, None, None, vec![s("a=1"), s("b")]))).err().unwrap(),
        CliError::BadParam(s("b"))
    );
}

#[test]
fn renders_follow_the_output_format() {
    let devices = || Command::Devices { limit: None, offset: None, include_archived: false };
    assert_eq!(planned(devices()).1, Render::DevicesTable);
    let json_cli = Cli { output: OutputFormat::Json, command: devices() };
    assert!(matches!(plan(json_cli), Ok(Plan::Call(_, Render::Json))));
    assert_eq!(planned(events(None, None, None, None, None, None)).1, Render::EventsTable);
    assert_eq!(planned(Command::Metrics).1, Render::Text);
    assert_eq!(planned(Command::Metrics).0.expect, Expect::Text);
    assert_eq!(planned(raw("/x", HttpMethod::Get, None, vec![])).1, Render::Raw);
    assert_eq!(planned(raw("/x", HttpMethod::Get, None, vec![])).0.expect, Expect::Any);
    assert_eq!(planned(device("SER1", None)).1, Render::Json);
    assert_eq!(
        planned(history(UsageHistoryCommand::Export { from: s("a"), to: s("b"), out: some("o.csv") })).1,
        Render::Export(some("o.csv"))
    );
    assert!(matches!(plan(cli(Command::Config)), Ok(Plan::ShowConfig)));
}

#[test]
fn query_values_are_encoded_in_paths_but_not_path_segments() {
    sends(
        Command::Negotiate { device: s("a b&c") },
        HttpMethod::Get,
        "/api/v1/negotiate?device=a%20b%26c",
    );
    sends(device("SER 1", Some(DeviceCommand::Info)), HttpMethod::Get, "/api/v1/device/SER 1/info");
}
