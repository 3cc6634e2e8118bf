//! The request each command sends, and how its answer is shown.
//!
//! A command becomes one API call: method, path and query, JSON body and
//! extra headers. Query parameters are only sent for what the operator
//! asked for, so the API's own defaults apply otherwise.
use vstd::prelude::*;
use vstd::string::StringExecFns;

use crate::cli::{
    AdminCommand, ApiKeysCommand, AppsCommand, Cli, Command, DeviceCommand, EventsCommand,
    HttpMethod, InstallsCommand, InventoryFilters, JsonArg, OutputFormat, SettingsCommand, UsageHistoryCommand,
};
use crate::error::{error_view, CliError, ErrorView};
use crate::json::{json_compact, json_compact_text, json_parse_error, json_quote, json_quoted};
use crate::query::{
    filter_pairs, first_bad_param, lemma_first_bad_param_unique, opt_pair, pairs_view,
    param_pairs, query_text, Query,
};
use crate::text::{decimal, decimal_string, has_prefix, owned, str_starts_with, strip_both, trim_matches};

verus! {

/// What a call's response must be.
#[derive(Clone, Copy, Debug, PartialEq, Eq)]
pub enum Expect {
    /// A JSON body; a text body is an error.
    Json,
    /// Text; a JSON body is pretty-printed.
    Text,
    /// Either.
    Any,
}

/// How a command shows its result.
#[derive(Debug, PartialEq, Eq)]
pub enum Render {
    /// The body, pretty-printed JSON.
    Json,
    /// The device list as a table.
    DevicesTable,
    /// The event list as a table.
    EventsTable,
    /// The body verbatim.
    Text,
    /// The CSV written to a file (with a row count), or printed verbatim.
    Export(Option<String>),
    /// JSON pretty-printed, text verbatim.
    Raw,
}

/// One request to the API.
#[derive(Debug, PartialEq, Eq)]
pub struct ApiCall {
    pub method: HttpMethod,
    /// Path and query string.
    pub target: String,
    /// JSON text of the body.
    pub body: Option<String>,
    pub headers: Vec<(String, String)>,
    pub expect: Expect,
}

/// What a command line comes to.
#[derive(Debug, PartialEq, Eq)]
pub enum Plan {
    /// Show the resolved configuration; no request.
    ShowConfig,
    /// Send one request and show its answer.
    Call(ApiCall, Render),
}

pub struct CallView {
    pub method: HttpMethod,
    pub target: Seq<char>,
    pub body: Option<Seq<char>>,
    pub headers: Seq<(Seq<char>, Seq<char>)>,
    pub expect: Expect,
}

pub enum RenderView {
    Json,
    DevicesTable,
    EventsTable,
    Text,
    Export(Option<Seq<char>>),
    Raw,
}

pub enum PlanView {
    ShowConfig,
    Call(CallView, RenderView),
}

pub open spec fn opt_seq(o: Option<String>) -> Option<Seq<char>> {
    match o {
        Some(s) => Some(s@),
        None => None,
    }
}

pub open spec fn call_view(c: ApiCall) -> CallView {
    CallView {
        method: c.method,
        target: c.target@,
        body: opt_seq(c.body),
        headers: pairs_view(c.headers@),
        expect: c.expect,
    }
}

pub open spec fn render_view(r: Render) -> RenderView {
    match r {
        Render::Json => RenderView::Json,
        Render::DevicesTable => RenderView::DevicesTable,
        Render::EventsTable => RenderView::EventsTable,
        Render::Text => RenderView::Text,
        Render::Export(o) => RenderView::Export(opt_seq(o)),
        Render::Raw => RenderView::Raw,
    }
}

pub open spec fn plan_view(p: Plan) -> PlanView {
    match p {
        Plan::ShowConfig => PlanView::ShowConfig,
        Plan::Call(c, r) => PlanView::Call(call_view(c), render_view(r)),
    }
}

// ------------------------------------------------------------- query pairs

pub open spec fn qn(key: Seq<char>, v: Option<u32>) -> Seq<(Seq<char>, Seq<char>)> {
    match v {
        Some(n) => seq![(key, decimal(n as nat))],
        None => seq![],
    }
}

pub open spec fn qn64(key: Seq<char>, v: Option<u64>) -> Seq<(Seq<char>, Seq<char>)> {
    match v {
        Some(n) => seq![(key, decimal(n as nat))],
        None => seq![],
    }
}

pub open spec fn qf(key: Seq<char>, on: bool) -> Seq<(Seq<char>, Seq<char>)> {
    if on {
        seq![(key, "true"@)]
    } else {
        seq![]
    }
}

pub open spec fn qv(key: Seq<char>, v: Seq<char>) -> Seq<(Seq<char>, Seq<char>)> {
    seq![(key, v)]
}

/// A GET whose answer must be JSON.
pub open spec fn get_json(target: Seq<char>) -> CallView {
    CallView { method: HttpMethod::Get, target, body: None, headers: seq![], expect: Expect::Json }
}

pub open spec fn call_json(method: HttpMethod, target: Seq<char>) -> CallView {
    CallView { method, target, body: None, headers: seq![], expect: Expect::Json }
}

// ------------------------------------------------------------- applications

pub open spec fn list_pairs_a(
    devices: Option<String>,
    names: Option<String>,
    publishers: Option<String>,
    categories: Option<String>,
) -> Seq<(Seq<char>, Seq<char>)> {
    opt_pair("deviceNames"@, devices) + opt_pair("applicationNames"@, names) + opt_pair(
        "publishers"@,
        publishers,
    ) + opt_pair("categories"@, categories)
}

pub open spec fn list_pairs_b(
    versions: Option<String>,
    search: Option<String>,
    installed_from: Option<String>,
    installed_to: Option<String>,
) -> Seq<(Seq<char>, Seq<char>)> {
    opt_pair("versions"@, versions) + opt_pair("search"@, search) + opt_pair(
        "installDateFrom"@,
        installed_from,
    ) + opt_pair("installDateTo"@, installed_to)
}

pub open spec fn list_pairs_c(
    size_min: Option<u64>,
    size_max: Option<u64>,
    filters: InventoryFilters,
) -> Seq<(Seq<char>, Seq<char>)> {
    qn64("sizeMin"@, size_min) + qn64("sizeMax"@, size_max) + filter_pairs(filters)
}

pub open spec fn list_pairs_d(
    load_all: bool,
    include_archived: bool,
    limit: Option<u32>,
    offset: Option<u32>,
    device_limit: Option<u32>,
) -> Seq<(Seq<char>, Seq<char>)> {
    qf("loadAll"@, load_all) + qf("includeArchived"@, include_archived) + qn("limit"@, limit) + qn(
        "offset"@,
        offset,
    ) + qn("deviceLimit"@, device_limit)
}

/// The path and query of an applications report.
pub open spec fn apps_target(cmd: AppsCommand) -> Seq<char> {
    match cmd {
        AppsCommand::List {
            devices,
            names,
            publishers,
            categories,
            versions,
            search,
            installed_from,
            installed_to,
            size_min,
            size_max,
            filters,
            load_all,
            include_archived,
            limit,
            offset,
            device_limit,
        } => "/api/v1/applications"@ + query_text(
            list_pairs_a(devices, names, publishers, categories) + list_pairs_b(
                versions,
                search,
                installed_from,
                installed_to,
            ) + list_pairs_c(size_min, size_max, filters) + list_pairs_d(
                load_all,
                include_archived,
                limit,
                offset,
                device_limit,
            ),
        ),
        AppsCommand::Filters { include_archived } => "/api/v1/applications/filters"@ + query_text(
            qf("includeArchived"@, include_archived),
        ),
        AppsCommand::Usage { days, names, min_hours, min_launches, filters, include_archived } =>
            "/api/v1/applications/usage"@ + query_text(
            qn("days"@, days) + opt_pair("applicationNames"@, names) + opt_pair(
                "minHours"@,
                min_hours,
            ) + qn("minLaunches"@, min_launches) + filter_pairs(filters) + qf(
                "includeArchived"@,
                include_archived,
            ),
        ),
        AppsCommand::ByDevice { app, days, usages, catalogs, locations, include_archived } =>
            "/api/v1/applications/usage/by-device"@ + query_text(
            qv("app"@, app@) + qn("days"@, days) + opt_pair("usages"@, usages) + opt_pair(
                "catalogs"@,
                catalogs,
            ) + opt_pair("locations"@, locations) + qf("includeArchived"@, include_archived),
        ),
        AppsCommand::Distribution { names, filters, include_archived } =>
            "/api/v1/applications/distribution"@ + query_text(
            qv("applicationNames"@, names@) + filter_pairs(filters) + qf(
                "includeArchived"@,
                include_archived,
            ),
        ),
        AppsCommand::CollectionHealth { fresh_days, stale_days, include_archived } =>
            "/api/v1/applications/collection-health"@ + query_text(
            qn("freshDays"@, fresh_days) + qn("staleDays"@, stale_days) + qf(
                "includeArchived"@,
                include_archived,
            ),
        ),
    }
}

fn list_query_a(
    devices: Option<String>,
    names: Option<String>,
    publishers: Option<String>,
    categories: Option<String>,
) -> (q: Query)
    ensures
        q@ == list_pairs_a(devices, names, publishers, categories),
{
    let q = Query::new().opt("deviceNames", devices).opt("applicationNames", names).opt(
        "publishers",
        publishers,
    ).opt("categories", categories);
    assert(q@ =~= list_pairs_a(devices, names, publishers, categories));
    q
}

fn list_query_b(
    q: Query,
    versions: Option<String>,
    search: Option<String>,
    installed_from: Option<String>,
    installed_to: Option<String>,
) -> (r: Query)
    ensures
        r@ == q@ + list_pairs_b(versions, search, installed_from, installed_to),
{
    let r = q.opt("versions", versions).opt("search", search).opt(
        "installDateFrom",
        installed_from,
    ).opt("installDateTo", installed_to);
    assert(r@ =~= q@ + list_pairs_b(versions, search, installed_from, installed_to));
    r
}

fn list_query_c(q: Query, size_min: Option<u64>, size_max: Option<u64>, filters: &InventoryFilters) -> (r: Query)
    ensures
        r@ == q@ + list_pairs_c(size_min, size_max, *filters),
{
    let r = q.opt("sizeMin", size_min).opt("sizeMax", size_max).filters(filters);
    assert(r@ =~= q@ + list_pairs_c(size_min, size_max, *filters));
    r
}

fn list_query_d(
    q: Query,
    load_all: bool,
    include_archived: bool,
    limit: Option<u32>,
    offset: Option<u32>,
    device_limit: Option<u32>,
) -> (r: Query)
    ensures
        r@ == q@ + list_pairs_d(load_all, include_archived, limit, offset, device_limit),
{
    let r = q.flag("loadAll", load_all).flag("includeArchived", include_archived).opt(
        "limit",
        limit,
    ).opt("offset", offset).opt("deviceLimit", device_limit);
    assert(r@ =~= q@ + list_pairs_d(load_all, include_archived, limit, offset, device_limit));
    r
}

fn apps_list(cmd: AppsCommand) -> (r: String)
    requires
        cmd is List,
    ensures
        r@ == apps_target(cmd),
{
    match cmd {
        AppsCommand::List {
            devices,
            names,
            publishers,
            categories,
            versions,
            search,
            installed_from,
            installed_to,
            size_min,
            size_max,
            filters,
            load_all,
            include_archived,
            limit,
            offset,
            device_limit,
        } => {
            let ghost pa = list_pairs_a(devices, names, publishers, categories);
            let ghost pb = list_pairs_b(versions, search, installed_from, installed_to);
            let ghost pc = list_pairs_c(size_min, size_max, filters);
            let ghost pd = list_pairs_d(load_all, include_archived, limit, offset, device_limit);
            let q = list_query_a(devices, names, publishers, categories);
            let q = list_query_b(q, versions, search, installed_from, installed_to);
            let q = list_query_c(q, size_min, size_max, &filters);
            let q = list_query_d(q, load_all, include_archived, limit, offset, device_limit);
            assert(q@ == pa + pb + pc + pd);
            q.path("/api/v1/applications")
        },
        _ => String::new(),
    }
}

/// The path and query of an applications report.
pub fn apps(cmd: AppsCommand) -> (r: String)
    ensures
        r@ == apps_target(cmd),
{
    let ghost c = cmd;
    match cmd {
        AppsCommand::List { .. } => apps_list(cmd),
        AppsCommand::Filters { include_archived } => {
            let q = Query::new().flag("includeArchived", include_archived);
            assert(q@ =~= qf("includeArchived"@, include_archived));
            q.path("/api/v1/applications/filters")
        },
        AppsCommand::Usage { days, names, min_hours, min_launches, filters, include_archived } => {
            let q = Query::new().opt("days", days).opt("applicationNames", names).opt(
                "minHours",
                min_hours,
            ).opt("minLaunches", min_launches).filters(&filters).flag(
                "includeArchived",
                include_archived,
            );
            assert(q@ =~= qn("days"@, days) + opt_pair("applicationNames"@, names) + opt_pair(
                "minHours"@,
                min_hours,
            ) + qn("minLaunches"@, min_launches) + filter_pairs(filters) + qf(
                "includeArchived"@,
                include_archived,
            ));
            q.path("/api/v1/applications/usage")
        },
        AppsCommand::ByDevice { app, days, usages, catalogs, locations, include_archived } => {
            let q = Query::new().set("app", app).opt("days", days).opt("usages", usages).opt(
                "catalogs",
                catalogs,
            ).opt("locations", locations).flag("includeArchived", include_archived);
            assert(q@ =~= qv("app"@, app@) + qn("days"@, days) + opt_pair("usages"@, usages)
                + opt_pair("catalogs"@, catalogs) + opt_pair("locations"@, locations) + qf(
                "includeArchived"@,
                include_archived,
            ));
            q.path("/api/v1/applications/usage/by-device")
        },
        AppsCommand::Distribution { names, filters, include_archived } => {
            let q = Query::new().set("applicationNames", names).filters(&filters).flag(
                "includeArchived",
                include_archived,
            );
            assert(q@ =~= qv("applicationNames"@, names@) + filter_pairs(filters) + qf(
                "includeArchived"@,
                include_archived,
            ));
            q.path("/api/v1/applications/distribution")
        },
        AppsCommand::CollectionHealth { fresh_days, stale_days, include_archived } => {
            let q = Query::new().opt("freshDays", fresh_days).opt("staleDays", stale_days).flag(
                "includeArchived",
                include_archived,
            );
            assert(q@ =~= qn("freshDays"@, fresh_days) + qn("staleDays"@, stale_days) + qf(
                "includeArchived"@,
                include_archived,
            ));
            q.path("/api/v1/applications/collection-health")
        },
    }
}

// ------------------------------------------------------------- admin

fn no_headers() -> (h: Vec<(String, String)>)
    ensures
        pairs_view(h@) == Seq::<(Seq<char>, Seq<char>)>::empty(),
{
    let h: Vec<(String, String)> = Vec::new();
    assert(pairs_view(h@) =~= Seq::<(Seq<char>, Seq<char>)>::empty());
    h
}

/// A call without body or extra headers whose answer must be JSON.
fn json_call(method: HttpMethod, target: String) -> (c: ApiCall)
    ensures
        call_view(c) == call_json(method, target@),
{
    ApiCall { method, target, body: None, headers: no_headers(), expect: Expect::Json }
}

pub open spec fn usage_history_plan(cmd: UsageHistoryCommand) -> (CallView, RenderView) {
    match cmd {
        UsageHistoryCommand::DateAnomalies { floor, limit } => (
            get_json(
                "/api/v1/admin/usage-history/date-anomalies"@ + query_text(
                    opt_pair("floor"@, floor) + qn("limit"@, limit),
                ),
            ),
            RenderView::Json,
        ),
        UsageHistoryCommand::Integrity { days, sample } => (
            get_json(
                "/api/v1/admin/usage-history/integrity"@ + query_text(
                    qn("days"@, days) + qn("sample"@, sample),
                ),
            ),
            RenderView::Json,
        ),
        UsageHistoryCommand::Export { from, to, out } => (
            CallView {
                method: HttpMethod::Get,
                target: "/api/v1/admin/usage-history/export"@ + query_text(
                    qv("from"@, from@) + qv("to"@, to@),
                ),
                body: None,
                headers: seq![],
                expect: Expect::Text,
            },
            RenderView::Export(opt_seq(out)),
        ),
        UsageHistoryCommand::ResetBaseline { before, confirm, reason } => (
            call_json(
                HttpMethod::Post,
                "/api/v1/admin/usage-history/reset-baseline"@ + query_text(
                    qv("before"@, before@) + qf("confirm"@, confirm) + opt_pair("reason"@, reason),
                ),
            ),
            RenderView::Json,
        ),
        UsageHistoryCommand::Cleanup { months } => (
            call_json(
                HttpMethod::Delete,
                "/api/v1/admin/usage-history/cleanup"@ + query_text(
                    qv("months"@, decimal(months as nat)),
                ),
            ),
            RenderView::Json,
        ),
    }
}

pub open spec fn installs_plan(cmd: InstallsCommand) -> CallView {
    match cmd {
        InstallsCommand::ClearErrors { days, item_age_days } => call_json(
            HttpMethod::Delete,
            "/api/v1/admin/installs/clear-errors"@ + query_text(
                qv("days"@, decimal(days as nat)) + opt_pair("item_age_days"@, item_age_days),
            ),
        ),
        InstallsCommand::Reclassify { batch, limit } => call_json(
            HttpMethod::Post,
            "/api/v1/admin/installs/reclassify"@ + query_text(
                qn("batch"@, batch) + qn("limit"@, limit),
            ),
        ),
    }
}

/// The call an admin command makes; the hidden aliases make the call of
/// the command they stand for.
pub open spec fn admin_plan(cmd: AdminCommand) -> (CallView, RenderView) {
    match cmd {
        AdminCommand::UsageHistory(sub) => usage_history_plan(sub),
        AdminCommand::Installs(sub) => (installs_plan(sub), RenderView::Json),
        AdminCommand::DebugDatabase => (get_json("/api/v1/debug/database"@), RenderView::Json),
        AdminCommand::CleanupUsage { months } => usage_history_plan(
            UsageHistoryCommand::Cleanup { months },
        ),
        AdminCommand::ClearErrors { days } => (
            installs_plan(InstallsCommand::ClearErrors { days, item_age_days: None }),
            RenderView::Json,
        ),
    }
}

fn cleanup_call(months: u32) -> (c: ApiCall)
    ensures
        call_view(c) == usage_history_plan(UsageHistoryCommand::Cleanup { months }).0,
{
    let q = Query::new().set("months", months);
    assert(q@ =~= qv("months"@, decimal(months as nat)));
    json_call(HttpMethod::Delete, q.path("/api/v1/admin/usage-history/cleanup"))
}

fn usage_history(cmd: UsageHistoryCommand) -> (r: (ApiCall, Render))
    ensures
        (call_view(r.0), render_view(r.1)) == usage_history_plan(cmd),
{
    match cmd {
        UsageHistoryCommand::DateAnomalies { floor, limit } => {
            let q = Query::new().opt("floor", floor).opt("limit", limit);
            assert(q@ =~= opt_pair("floor"@, floor) + qn("limit"@, limit));
            (
                json_call(HttpMethod::Get, q.path("/api/v1/admin/usage-history/date-anomalies")),
                Render::Json,
            )
        },
        UsageHistoryCommand::Integrity { days, sample } => {
            let q = Query::new().opt("days", days).opt("sample", sample);
            assert(q@ =~= qn("days"@, days) + qn("sample"@, sample));
            (json_call(HttpMethod::Get, q.path("/api/v1/admin/usage-history/integrity")), Render::Json)
        },
        UsageHistoryCommand::Export { from, to, out } => {
            let q = Query::new().set("from", from).set("to", to);
            assert(q@ =~= qv("from"@, from@) + qv("to"@, to@));
            (
                ApiCall {
                    method: HttpMethod::Get,
                    target: q.path("/api/v1/admin/usage-history/export"),
                    body: None,
                    headers: no_headers(),
                    expect: Expect::Text,
                },
                Render::Export(out),
            )
        },
        UsageHistoryCommand::ResetBaseline { before, confirm, reason } => {
            let q = Query::new().set("before", before).flag("confirm", confirm).opt("reason", reason);
            assert(q@ =~= qv("before"@, before@) + qf("confirm"@, confirm) + opt_pair(
                "reason"@,
                reason,
            ));
            (
                json_call(HttpMethod::Post, q.path("/api/v1/admin/usage-history/reset-baseline")),
                Render::Json,
            )
        },
        UsageHistoryCommand::Cleanup { months } => (cleanup_call(months), Render::Json),
    }
}

fn clear_errors_call(days: u32, item_age_days: Option<String>) -> (c: ApiCall)
    ensures
        call_view(c) == installs_plan(InstallsCommand::ClearErrors { days, item_age_days }),
{
    let q = Query::new().set("days", days).opt("item_age_days", item_age_days);
    assert(q@ =~= qv("days"@, decimal(days as nat)) + opt_pair("item_age_days"@, item_age_days));
    json_call(HttpMethod::Delete, q.path("/api/v1/admin/installs/clear-errors"))
}

fn installs(cmd: InstallsCommand) -> (c: ApiCall)
    ensures
        call_view(c) == installs_plan(cmd),
{
    match cmd {
        InstallsCommand::ClearErrors { days, item_age_days } => clear_errors_call(days, item_age_days),
        InstallsCommand::Reclassify { batch, limit } => {
            let q = Query::new().opt("batch", batch).opt("limit", limit);
            assert(q@ =~= qn("batch"@, batch) + qn("limit"@, limit));
            json_call(HttpMethod::Post, q.path("/api/v1/admin/installs/reclassify"))
        },
    }
}

/// The call an admin command makes, and how its answer is shown.
pub fn admin(cmd: AdminCommand) -> (r: (ApiCall, Render))
    ensures
        (call_view(r.0), render_view(r.1)) == admin_plan(cmd),
{
    match cmd {
        AdminCommand::UsageHistory(sub) => usage_history(sub),
        AdminCommand::Installs(sub) => (installs(sub), Render::Json),
        AdminCommand::DebugDatabase => (json_call(HttpMethod::Get, owned("/api/v1/debug/database")), Render::Json),
        AdminCommand::CleanupUsage { months } => (cleanup_call(months), Render::Json),
        AdminCommand::ClearErrors { days } => (clear_errors_call(days, None), Render::Json),
    }
}

// ------------------------------------------------------------- arguments

/// Text that must be one JSON value, sent as that value's compact JSON; an
/// error names what it was for.
pub open spec fn json_text_check(t: Seq<char>, what: Seq<char>) -> Result<Seq<char>, ErrorView> {
    match json_parse_error(t) {
        None => Ok(json_compact_text(t)),
        Some(e) => Err(ErrorView::InvalidJson(what, e)),
    }
}

/// The JSON a JSON argument gives: inline text, or the file's text.
pub open spec fn json_arg_result(arg: JsonArg, what: Seq<char>) -> Result<Seq<char>, ErrorView> {
    match arg {
        JsonArg::Inline(t) => json_text_check(t@, what),
        JsonArg::File { path, contents } => match contents {
            Ok(t) => json_text_check(t@, what),
            Err(d) => Err(ErrorView::ReadFile(path@, d@)),
        },
    }
}

pub open spec fn string_result(r: Result<String, CliError>) -> Result<Seq<char>, ErrorView> {
    match r {
        Ok(s) => Ok(s@),
        Err(e) => Err(error_view(e)),
    }
}

fn checked_json(t: String, what: &str) -> (r: Result<String, CliError>)
    ensures
        string_result(r) == json_text_check(t@, what@),
{
    match json_compact(t.as_str()) {
        Ok(c) => Ok(c),
        Err(detail) => Err(CliError::InvalidJson { what: owned(what), detail }),
    }
}

/// A JSON argument: either inline JSON or `@path` to a file, whose text
/// must be one JSON value; what is sent is that value's compact JSON.
pub fn json_arg(arg: JsonArg, what: &str) -> (r: Result<String, CliError>)
    ensures
        string_result(r) == json_arg_result(arg, what@),
{
    match arg {
        JsonArg::Inline(t) => checked_json(t, what),
        JsonArg::File { path, contents } => match contents {
            Ok(t) => checked_json(t, what),
            Err(detail) => Err(CliError::ReadFile { path, detail }),
        },
    }
}

/// The file an `@path` argument names.
pub fn json_arg_file(arg: &str) -> (r: Option<String>)
    ensures
        match r {
            Some(p) => has_prefix(arg@, "@"@) && p@ == arg@.skip(1),
            None => !has_prefix(arg@, "@"@),
        },
{
    if str_starts_with(arg, "@") {
        proof {
            reveal_strlit("@");
        }
        let v = crate::text::chars_of(arg);
        let p = crate::text::sub_chars(&v, 1, v.len());
        assert(p@ =~= arg@.skip(1));
        Some(crate::text::string_of(&p))
    } else {
        None
    }
}

/// The scopes as JSON string literals separated by commas.
pub open spec fn quoted_list(scopes: Seq<String>) -> Seq<char>
    decreases scopes.len(),
{
    if scopes.len() == 0 {
        seq![]
    } else if scopes.len() == 1 {
        json_quoted(scopes[0]@)
    } else {
        quoted_list(scopes.drop_last()) + ","@ + json_quoted(scopes.last()@)
    }
}

/// `{"client_id":NAME,"scopes":[SCOPE,...]}`
pub open spec fn api_key_body_text(name: Seq<char>, scopes: Seq<String>) -> Seq<char> {
    "{\"client_id\":"@ + json_quoted(name) + ",\"scopes\":["@ + quoted_list(scopes) + "]}"@
}

/// The body that creates an API key.
pub fn api_key_body(name: &str, scopes: &Vec<String>) -> (r: String)
    ensures
        r@ == api_key_body_text(name@, scopes@),
{
    let mut r = owned("{\"client_id\":");
    let q = json_quote(name);
    r.append(q.as_str());
    r.append(",\"scopes\":[");
    let ghost head = r@;
    for i in 0..scopes.len()
        invariant
            r@ == head + quoted_list(scopes@.take(i as int)),
    {
        if i > 0 {
            r.append(",");
        }
        let s = json_quote(scopes[i].as_str());
        r.append(s.as_str());
        assert(scopes@.take(i + 1).drop_last() =~= scopes@.take(i as int));
        if i == 0 {
            assert(quoted_list(scopes@.take(1)) == json_quoted(scopes@[0]@));
        }
        assert(r@ =~= head + quoted_list(scopes@.take(i + 1)));
    }
    assert(scopes@.take(scopes.len() as int) =~= scopes@);
    r.append("]}");
    r
}

// ------------------------------------------------------------- devices and events

pub open spec fn device_base(serial: Seq<char>) -> Seq<char> {
    "/api/v1/device/"@ + serial
}

/// The call a per-device command makes; deleting needs `--confirm`.
pub open spec fn device_plan(serial: Seq<char>, cmd: Option<DeviceCommand>) -> Result<CallView, ErrorView> {
    let base = device_base(serial);
    match cmd {
        None => Ok(get_json(base)),
        Some(DeviceCommand::Info) => Ok(get_json(base + "/info"@)),
        Some(DeviceCommand::Module { name }) => Ok(get_json(base + "/modules/"@ + name@)),
        Some(DeviceCommand::Events { limit, kind }) => Ok(
            get_json(base + "/events"@ + query_text(qn("limit"@, limit) + opt_pair("type"@, kind))),
        ),
        Some(DeviceCommand::InstallsLog) => Ok(get_json(base + "/installs/log"@)),
        Some(DeviceCommand::Log { tool }) => Ok(get_json(base + "/logs/"@ + tool@)),
        Some(DeviceCommand::Usage { days, app }) => Ok(
            get_json(
                base + "/applications/usage/history"@ + query_text(
                    qn("days"@, days) + opt_pair("appName"@, app),
                ),
            ),
        ),
        Some(DeviceCommand::Archive) => Ok(call_json(HttpMethod::Patch, base + "/archive"@)),
        Some(DeviceCommand::Unarchive) => Ok(call_json(HttpMethod::Patch, base + "/unarchive"@)),
        Some(DeviceCommand::Delete { confirm }) => if confirm {
            Ok(call_json(HttpMethod::Delete, base + "?confirm=true"@))
        } else {
            Err(ErrorView::DeleteWithoutConfirm(serial))
        },
    }
}

pub open spec fn call_result(r: Result<ApiCall, CliError>) -> Result<CallView, ErrorView> {
    match r {
        Ok(c) => Ok(call_view(c)),
        Err(e) => Err(error_view(e)),
    }
}

fn concat(a: &str, b: &str) -> (r: String)
    ensures
        r@ == a@ + b@,
{
    let mut r = owned(a);
    r.append(b);
    r
}

/// The call a per-device command makes.
pub fn device(serial: &str, cmd: Option<DeviceCommand>) -> (r: Result<ApiCall, CliError>)
    ensures
        call_result(r) == device_plan(serial@, cmd),
{
    let base = concat("/api/v1/device/", serial);
    match cmd {
        None => Ok(json_call(HttpMethod::Get, base)),
        Some(DeviceCommand::Info) => Ok(json_call(HttpMethod::Get, concat(base.as_str(), "/info"))),
        Some(DeviceCommand::Module { name }) => {
            let p = concat(concat(base.as_str(), "/modules/").as_str(), name.as_str());
            Ok(json_call(HttpMethod::Get, p))
        },
        Some(DeviceCommand::Events { limit, kind }) => {
            let q = Query::new().opt("limit", limit).opt("type", kind);
            assert(q@ =~= qn("limit"@, limit) + opt_pair("type"@, kind));
            Ok(json_call(HttpMethod::Get, q.path(concat(base.as_str(), "/events").as_str())))
        },
        Some(DeviceCommand::InstallsLog) => Ok(
            json_call(HttpMethod::Get, concat(base.as_str(), "/installs/log")),
        ),
        Some(DeviceCommand::Log { tool }) => {
            let p = concat(concat(base.as_str(), "/logs/").as_str(), tool.as_str());
            Ok(json_call(HttpMethod::Get, p))
        },
        Some(DeviceCommand::Usage { days, app }) => {
            let q = Query::new().opt("days", days).opt("appName", app);
            assert(q@ =~= qn("days"@, days) + opt_pair("appName"@, app));
            Ok(
                json_call(
                    HttpMethod::Get,
                    q.path(concat(base.as_str(), "/applications/usage/history").as_str()),
                ),
            )
        },
        Some(DeviceCommand::Archive) => Ok(
            json_call(HttpMethod::Patch, concat(base.as_str(), "/archive")),
        ),
        Some(DeviceCommand::Unarchive) => Ok(
            json_call(HttpMethod::Patch, concat(base.as_str(), "/unarchive")),
        ),
        Some(DeviceCommand::Delete { confirm }) => {
            if !confirm {
                return Err(CliError::DeleteWithoutConfirm(owned(serial)));
            }
            Ok(json_call(HttpMethod::Delete, concat(base.as_str(), "?confirm=true")))
        },
    }
}

/// The call an events subcommand makes.
pub open spec fn events_plan(cmd: EventsCommand) -> Result<CallView, ErrorView> {
    match cmd {
        EventsCommand::Failures { limit, offset, serial, reason, hours, outcome } => Ok(
            get_json(
                "/api/v1/events/failures"@ + query_text(
                    qn("limit"@, limit) + qn("offset"@, offset) + opt_pair("serial"@, serial)
                        + opt_pair("reason"@, reason) + qn("hours"@, hours) + opt_pair(
                        "outcome"@,
                        outcome,
                    ),
                ),
            ),
        ),
        EventsCommand::Payload { event_id } => Ok(
            get_json("/api/v1/events/"@ + decimal(event_id as nat) + "/payload"@),
        ),
        EventsCommand::Submit { json } => match json_arg_result(json, "payload"@) {
            Ok(b) => Ok(
                CallView {
                    method: HttpMethod::Post,
                    target: "/api/v1/events"@,
                    body: Some(b),
                    headers: seq![],
                    expect: Expect::Json,
                },
            ),
            Err(e) => Err(e),
        },
    }
}

fn failures_call(
    limit: Option<u32>,
    offset: Option<u32>,
    serial: Option<String>,
    reason: Option<String>,
    hours: Option<u32>,
    outcome: Option<String>,
) -> (c: ApiCall)
    ensures
        Ok::<CallView, ErrorView>(call_view(c)) == events_plan(
            EventsCommand::Failures { limit, offset, serial, reason, hours, outcome },
        ),
{
    let q = Query::new().opt("limit", limit).opt("offset", offset).opt("serial", serial).opt(
        "reason",
        reason,
    ).opt("hours", hours).opt("outcome", outcome);
    assert(q@ =~= qn("limit"@, limit) + qn("offset"@, offset) + opt_pair("serial"@, serial)
        + opt_pair("reason"@, reason) + qn("hours"@, hours) + opt_pair("outcome"@, outcome));
    json_call(HttpMethod::Get, q.path("/api/v1/events/failures"))
}

/// The call an events subcommand makes.
pub fn events(cmd: EventsCommand) -> (r: Result<ApiCall, CliError>)
    ensures
        call_result(r) == events_plan(cmd),
{
    match cmd {
        EventsCommand::Failures { limit, offset, serial, reason, hours, outcome } => Ok(
            failures_call(limit, offset, serial, reason, hours, outcome),
        ),
        EventsCommand::Payload { event_id } => {
            let p = concat(
                concat("/api/v1/events/", decimal_string(event_id).as_str()).as_str(),
                "/payload",
            );
            Ok(json_call(HttpMethod::Get, p))
        },
        EventsCommand::Submit { json } => {
            let body = match json_arg(json, "payload") {
                Ok(b) => b,
                Err(e) => return Err(e),
            };
            Ok(
                ApiCall {
                    method: HttpMethod::Post,
                    target: owned("/api/v1/events"),
                    body: Some(body),
                    headers: no_headers(),
                    expect: Expect::Json,
                },
            )
        },
    }
}

// ------------------------------------------------------------- the command line

/// The pairs of `key=value` arguments, or the error for the first one
/// without `=`.
pub open spec fn params_result(params: Seq<String>) -> Result<Seq<(Seq<char>, Seq<char>)>, ErrorView> {
    match param_pairs(params) {
        Some(ps) => Ok(ps),
        None => Err(ErrorView::BadParam(params[choose|i: int| first_bad_param(params, i)]@)),
    }
}

fn with_params(q: Query, params: &Vec<String>) -> (r: Result<Query, CliError>)
    ensures
        match (r, params_result(params@)) {
            (Ok(q2), Ok(ps)) => q2@ == q@ + ps,
            (Err(e), Err(ev)) => error_view(e) == ev,
            _ => false,
        },
{
    let ghost q0 = q@;
    let r = q.params(params.as_slice());
    match &r {
        Ok(_) => {},
        Err(e) => {
            let ghost i = choose|i: int| first_bad_param(params@, i) && *e == CliError::BadParam(
                params@[i],
            );
            let ghost j = choose|j: int| first_bad_param(params@, j);
            proof {
                lemma_first_bad_param_unique(params@, i, j);
            }
        },
    }
    r
}

pub open spec fn lift(r: Result<CallView, ErrorView>, render: RenderView) -> Result<PlanView, ErrorView> {
    match r {
        Ok(c) => Ok(PlanView::Call(c, render)),
        Err(e) => Err(e),
    }
}

pub open spec fn plan_result(r: Result<Plan, CliError>) -> Result<PlanView, ErrorView> {
    match r {
        Ok(p) => Ok(plan_view(p)),
        Err(e) => Err(error_view(e)),
    }
}

/// A fleet-wide module report.
pub open spec fn module_plan(
    name: Seq<char>,
    include_archived: bool,
    limit: Option<u32>,
    offset: Option<u32>,
    params: Seq<String>,
) -> Result<CallView, ErrorView> {
    match params_result(params) {
        Ok(ps) => Ok(
            get_json(
                "/api/v1/"@ + strip_both(name, '/') + query_text(
                    qf("includeArchived"@, include_archived) + qn("limit"@, limit) + qn(
                        "offset"@,
                        offset,
                    ) + ps,
                ),
            ),
        ),
        Err(e) => Err(e),
    }
}

pub open spec fn devices_target(limit: Option<u32>, offset: Option<u32>, include_archived: bool) -> Seq<char> {
    "/api/v1/devices"@ + query_text(
        qn("limit"@, limit) + qn("offset"@, offset) + qf("includeArchived"@, include_archived),
    )
}

pub open spec fn certificates_target(
    search: Seq<char>,
    status: Seq<char>,
    limit: Option<u32>,
    include_archived: bool,
) -> Seq<char> {
    "/api/v1/security/certificates"@ + query_text(
        qv("search"@, search) + qv("status"@, status) + qn("limit"@, limit) + qf(
            "includeArchived"@,
            include_archived,
        ),
    )
}

pub open spec fn logs_pairs(
    levels: Option<String>,
    platform: Option<String>,
    file: Option<String>,
    grep: Option<String>,
    summary: bool,
) -> Seq<(Seq<char>, Seq<char>)> {
    opt_pair("levels"@, levels) + opt_pair("platform"@, platform) + opt_pair("file"@, file)
        + opt_pair("q"@, grep) + qf("summary"@, summary)
}

pub open spec fn logs_target(
    tool: Seq<char>,
    levels: Option<String>,
    platform: Option<String>,
    file: Option<String>,
    grep: Option<String>,
    summary: bool,
    max_lines_per_device: Option<u32>,
    include_archived: bool,
    limit: Option<u32>,
    offset: Option<u32>,
) -> Seq<char> {
    "/api/v1/management/logs/"@ + tool + query_text(
        logs_pairs(levels, platform, file, grep, summary) + qn(
            "maxLinesPerDevice"@,
            max_lines_per_device,
        ) + qf("includeArchived"@, include_archived) + qn("limit"@, limit) + qn("offset"@, offset),
    )
}

pub open spec fn events_target(
    limit: Option<u32>,
    offset: Option<u32>,
    since: Option<String>,
    until: Option<String>,
    kind: Option<String>,
) -> Seq<char> {
    "/api/v1/events"@ + query_text(
        qn("limit"@, limit) + qn("offset"@, offset) + opt_pair("startDate"@, since) + opt_pair(
            "endDate"@,
            until,
        ) + opt_pair("type"@, kind),
    )
}

pub open spec fn dashboard_target(events_limit: Option<u32>, include_archived: bool) -> Seq<char> {
    "/api/v1/dashboard"@ + query_text(
        qn("eventsLimit"@, events_limit) + qf("includeArchived"@, include_archived),
    )
}

/// Liveness by default; `--ready` adds the database probe, `--full` the
/// complete report.
pub open spec fn health_target(ready: bool, full: bool) -> Seq<char> {
    if ready {
        "/api/v1/health/ready"@
    } else if full {
        "/api/v1/health"@
    } else {
        "/api/v1/health/live"@
    }
}

pub open spec fn api_keys_plan(cmd: ApiKeysCommand) -> CallView {
    match cmd {
        ApiKeysCommand::List => get_json("/api/v1/admin/api-keys"@),
        ApiKeysCommand::Create { name, scopes } => CallView {
            method: HttpMethod::Post,
            target: "/api/v1/admin/api-keys"@,
            body: Some(api_key_body_text(name@, scopes@)),
            headers: seq![],
            expect: Expect::Json,
        },
        ApiKeysCommand::Revoke { key_id } => call_json(
            HttpMethod::Delete,
            "/api/v1/admin/api-keys/"@ + key_id@,
        ),
    }
}

pub open spec fn settings_plan(cmd: SettingsCommand) -> Result<CallView, ErrorView> {
    match cmd {
        SettingsCommand::Get => Ok(get_json("/api/v1/settings"@)),
        SettingsCommand::Replace { json, updated_by } => match json_arg_result(json, "settings"@) {
            Ok(b) => Ok(
                CallView {
                    method: HttpMethod::Put,
                    target: "/api/v1/settings"@,
                    body: Some(b),
                    headers: match updated_by {
                        Some(v) => seq![("X-Updated-By"@, v@)],
                        None => seq![],
                    },
                    expect: Expect::Json,
                },
            ),
            Err(e) => Err(e),
        },
        SettingsCommand::Discover { include_archived } => Ok(
            get_json(
                "/api/v1/settings/inventory/discover"@ + query_text(
                    qf("include_archived"@, include_archived),
                ),
            ),
        ),
    }
}

/// Any path with any method: the path must start with `/`; then the body
/// argument, then the parameters.
pub open spec fn raw_plan(
    path: Seq<char>,
    method: HttpMethod,
    data: Option<JsonArg>,
    params: Seq<String>,
) -> Result<CallView, ErrorView> {
    if !has_prefix(path, "/"@) {
        Err(ErrorView::RawPathNotAbsolute)
    } else {
        let body: Result<Option<Seq<char>>, ErrorView> = match data {
            Some(d) => match json_arg_result(d, "--data"@) {
                Ok(b) => Ok(Some(b)),
                Err(e) => Err(e),
            },
            None => Ok(None),
        };
        match body {
            Err(e) => Err(e),
            Ok(b) => match params_result(params) {
                Err(e) => Err(e),
                Ok(ps) => Ok(
                    CallView {
                        method,
                        target: path + query_text(ps),
                        body: b,
                        headers: seq![],
                        expect: Expect::Any,
                    },
                ),
            },
        }
    }
}

/// What a command line comes to.
pub open spec fn plan_spec(cli: Cli) -> Result<PlanView, ErrorView> {
    let table = cli.output == OutputFormat::Table;
    match cli.command {
        Command::Devices { limit, offset, include_archived } => Ok(
            PlanView::Call(
                get_json(devices_target(limit, offset, include_archived)),
                if table {
                    RenderView::DevicesTable
                } else {
                    RenderView::Json
                },
            ),
        ),
        Command::Device { serial, module, command } => match (module, command) {
            (Some(_), Some(_)) => Err(ErrorView::ModuleWithSubcommand),
            (Some(name), None) => lift(
                device_plan(serial@, Some(DeviceCommand::Module { name })),
                RenderView::Json,
            ),
            (None, c) => lift(device_plan(serial@, c), RenderView::Json),
        },
        Command::Module { name, include_archived, limit, offset, params } => lift(
            module_plan(name@, include_archived, limit, offset, params@),
            RenderView::Json,
        ),
        Command::Apps(cmd) => Ok(PlanView::Call(get_json(apps_target(*cmd)), RenderView::Json)),
        Command::Certificates { search, status, limit, include_archived } => Ok(
            PlanView::Call(
                get_json(certificates_target(search@, status@, limit, include_archived)),
                RenderView::Json,
            ),
        ),
        Command::Logs {
            tool,
            levels,
            platform,
            file,
            grep,
            summary,
            max_lines_per_device,
            include_archived,
            limit,
            offset,
        } => Ok(
            PlanView::Call(
                get_json(
                    logs_target(
                        tool@,
                        levels,
                        platform,
                        file,
                        grep,
                        summary,
                        max_lines_per_device,
                        include_archived,
                        limit,
                        offset,
                    ),
                ),
                RenderView::Json,
            ),
        ),
        Command::Events { limit, offset, since, until, kind, command } => match command {
            None => Ok(
                PlanView::Call(
                    get_json(events_target(limit, offset, since, until, kind)),
                    if table {
                        RenderView::EventsTable
                    } else {
                        RenderView::Json
                    },
                ),
            ),
            Some(c) => lift(events_plan(c), RenderView::Json),
        },
        Command::Dashboard { events_limit, include_archived } => Ok(
            PlanView::Call(get_json(dashboard_target(events_limit, include_archived)), RenderView::Json),
        ),
        Command::Config => Ok(PlanView::ShowConfig),
        Command::Health { ready, full } => Ok(
            PlanView::Call(get_json(health_target(ready, full)), RenderView::Json),
        ),
        Command::Metrics => Ok(
            PlanView::Call(
                CallView {
                    method: HttpMethod::Get,
                    target: "/api/v1/metrics"@,
                    body: None,
                    headers: seq![],
                    expect: Expect::Text,
                },
                RenderView::Text,
            ),
        ),
        Command::Negotiate { device } => Ok(
            PlanView::Call(
                get_json("/api/v1/negotiate"@ + query_text(qv("device"@, device@))),
                RenderView::Json,
            ),
        ),
        Command::Archive { serial } => lift(
            device_plan(serial@, Some(DeviceCommand::Archive)),
            RenderView::Json,
        ),
        Command::Unarchive { serial } => lift(
            device_plan(serial@, Some(DeviceCommand::Unarchive)),
            RenderView::Json,
        ),
        Command::Delete { serial, confirm } => lift(
            device_plan(serial@, Some(DeviceCommand::Delete { confirm })),
            RenderView::Json,
        ),
        Command::ApiKeys(cmd) => Ok(PlanView::Call(api_keys_plan(cmd), RenderView::Json)),
        Command::Admin(cmd) => Ok(PlanView::Call(admin_plan(cmd).0, admin_plan(cmd).1)),
        Command::Settings(cmd) => lift(settings_plan(cmd), RenderView::Json),
        Command::Raw { path, method, data, params } => lift(
            raw_plan(path@, method, data, params@),
            RenderView::Raw,
        ),
    }
}

fn call_plan(r: Result<ApiCall, CliError>, render: Render) -> (p: Result<Plan, CliError>)
    ensures
        plan_result(p) == lift(call_result(r), render_view(render)),
{
    match r {
        Ok(c) => Ok(Plan::Call(c, render)),
        Err(e) => Err(e),
    }
}

fn module_call(
    name: &str,
    include_archived: bool,
    limit: Option<u32>,
    offset: Option<u32>,
    params: &Vec<String>,
) -> (r: Result<ApiCall, CliError>)
    ensures
        call_result(r) == module_plan(name@, include_archived, limit, offset, params@),
{
    let q = Query::new().flag("includeArchived", include_archived).opt("limit", limit).opt(
        "offset",
        offset,
    );
    let ghost q0 = q@;
    assert(q0 =~= qf("includeArchived"@, include_archived) + qn("limit"@, limit) + qn(
        "offset"@,
        offset,
    ));
    let q = match with_params(q, params) {
        Ok(q) => q,
        Err(e) => return Err(e),
    };
    let base = concat("/api/v1/", trim_matches(name, '/').as_str());
    Ok(json_call(HttpMethod::Get, q.path(base.as_str())))
}

fn logs_query_a(
    levels: Option<String>,
    platform: Option<String>,
    file: Option<String>,
    grep: Option<String>,
    summary: bool,
) -> (q: Query)
    ensures
        q@ == logs_pairs(levels, platform, file, grep, summary),
{
    let q = Query::new().opt("levels", levels).opt("platform", platform).opt("file", file).opt(
        "q",
        grep,
    ).flag("summary", summary);
    assert(q@ =~= logs_pairs(levels, platform, file, grep, summary));
    q
}

fn logs_query_b(
    q: Query,
    max_lines_per_device: Option<u32>,
    include_archived: bool,
    limit: Option<u32>,
    offset: Option<u32>,
) -> (r: Query)
    ensures
        r@ == q@ + qn("maxLinesPerDevice"@, max_lines_per_device) + qf(
            "includeArchived"@,
            include_archived,
        ) + qn("limit"@, limit) + qn("offset"@, offset),
{
    let ghost q0 = q@;
    let r = q.opt("maxLinesPerDevice", max_lines_per_device).flag(
        "includeArchived",
        include_archived,
    ).opt("limit", limit).opt("offset", offset);
    assert(r@ =~= q0 + qn("maxLinesPerDevice"@, max_lines_per_device) + qf(
        "includeArchived"@,
        include_archived,
    ) + qn("limit"@, limit) + qn("offset"@, offset));
    r
}

fn logs_call(
    tool: &str,
    levels: Option<String>,
    platform: Option<String>,
    file: Option<String>,
    grep: Option<String>,
    summary: bool,
    max_lines_per_device: Option<u32>,
    include_archived: bool,
    limit: Option<u32>,
    offset: Option<u32>,
) -> (c: ApiCall)
    ensures
        call_view(c) == get_json(
            logs_target(
                tool@,
                levels,
                platform,
                file,
                grep,
                summary,
                max_lines_per_device,
                include_archived,
                limit,
                offset,
            ),
        ),
{
    let q = logs_query_a(levels, platform, file, grep, summary);
    let q = logs_query_b(q, max_lines_per_device, include_archived, limit, offset);
    json_call(HttpMethod::Get, q.path(concat("/api/v1/management/logs/", tool).as_str()))
}

fn events_list_call(
    limit: Option<u32>,
    offset: Option<u32>,
    since: Option<String>,
    until: Option<String>,
    kind: Option<String>,
) -> (c: ApiCall)
    ensures
        call_view(c) == get_json(events_target(limit, offset, since, until, kind)),
{
    let q = Query::new().opt("limit", limit).opt("offset", offset).opt("startDate", since).opt(
        "endDate",
        until,
    ).opt("type", kind);
    assert(q@ =~= qn("limit"@, limit) + qn("offset"@, offset) + opt_pair("startDate"@, since)
        + opt_pair("endDate"@, until) + opt_pair("type"@, kind));
    json_call(HttpMethod::Get, q.path("/api/v1/events"))
}

fn api_keys(cmd: ApiKeysCommand) -> (c: ApiCall)
    ensures
        call_view(c) == api_keys_plan(cmd),
{
    match cmd {
        ApiKeysCommand::List => json_call(HttpMethod::Get, owned("/api/v1/admin/api-keys")),
        ApiKeysCommand::Create { name, scopes } => ApiCall {
            method: HttpMethod::Post,
            target: owned("/api/v1/admin/api-keys"),
            body: Some(api_key_body(name.as_str(), &scopes)),
            headers: no_headers(),
            expect: Expect::Json,
        },
        ApiKeysCommand::Revoke { key_id } => json_call(
            HttpMethod::Delete,
            concat("/api/v1/admin/api-keys/", key_id.as_str()),
        ),
    }
}

fn settings(cmd: SettingsCommand) -> (r: Result<ApiCall, CliError>)
    ensures
        call_result(r) == settings_plan(cmd),
{
    match cmd {
        SettingsCommand::Get => Ok(json_call(HttpMethod::Get, owned("/api/v1/settings"))),
        SettingsCommand::Replace { json, updated_by } => {
            let body = match json_arg(json, "settings") {
                Ok(b) => b,
                Err(e) => return Err(e),
            };
            let mut headers: Vec<(String, String)> = Vec::new();
            match updated_by {
                Some(v) => headers.push((owned("X-Updated-By"), v)),
                None => {},
            }
            assert(pairs_view(headers@) =~= match updated_by {
                Some(v) => seq![("X-Updated-By"@, v@)],
                None => Seq::<(Seq<char>, Seq<char>)>::empty(),
            });
            Ok(
                ApiCall {
                    method: HttpMethod::Put,
                    target: owned("/api/v1/settings"),
                    body: Some(body),
                    headers,
                    expect: Expect::Json,
                },
            )
        },
        SettingsCommand::Discover { include_archived } => {
            let q = Query::new().flag("include_archived", include_archived);
            assert(q@ =~= qf("include_archived"@, include_archived));
            Ok(json_call(HttpMethod::Get, q.path("/api/v1/settings/inventory/discover")))
        },
    }
}

fn raw(path: &str, method: HttpMethod, data: Option<JsonArg>, params: &Vec<String>) -> (r: Result<ApiCall, CliError>)
    ensures
        call_result(r) == raw_plan(path@, method, data, params@),
{
    if !str_starts_with(path, "/") {
        return Err(CliError::RawPathNotAbsolute);
    }
    let body = match data {
        Some(d) => match json_arg(d, "--data") {
            Ok(b) => Some(b),
            Err(e) => return Err(e),
        },
        None => None,
    };
    let q = match with_params(Query::new(), params) {
        Ok(q) => q,
        Err(e) => return Err(e),
    };
    assert(Seq::<(Seq<char>, Seq<char>)>::empty() + q@ =~= q@);
    Ok(ApiCall { method, target: q.path(path), body, headers: no_headers(), expect: Expect::Any })
}

fn devices_call(limit: Option<u32>, offset: Option<u32>, include_archived: bool) -> (c: ApiCall)
    ensures
        call_view(c) == get_json(devices_target(limit, offset, include_archived)),
{
    let q = Query::new().opt("limit", limit).opt("offset", offset).flag(
        "includeArchived",
        include_archived,
    );
    assert(q@ =~= qn("limit"@, limit) + qn("offset"@, offset) + qf(
        "includeArchived"@,
        include_archived,
    ));
    json_call(HttpMethod::Get, q.path("/api/v1/devices"))
}

fn certificates_call(search: String, status: String, limit: Option<u32>, include_archived: bool) -> (c: ApiCall)
    ensures
        call_view(c) == get_json(certificates_target(search@, status@, limit, include_archived)),
{
    let ghost s0 = search@;
    let ghost s1 = status@;
    let q = Query::new().set("search", search).set("status", status).opt("limit", limit).flag(
        "includeArchived",
        include_archived,
    );
    assert(q@ =~= qv("search"@, s0) + qv("status"@, s1) + qn("limit"@, limit) + qf(
        "includeArchived"@,
        include_archived,
    ));
    json_call(HttpMethod::Get, q.path("/api/v1/security/certificates"))
}

fn dashboard_call(events_limit: Option<u32>, include_archived: bool) -> (c: ApiCall)
    ensures
        call_view(c) == get_json(dashboard_target(events_limit, include_archived)),
{
    let q = Query::new().opt("eventsLimit", events_limit).flag("includeArchived", include_archived);
    assert(q@ =~= qn("eventsLimit"@, events_limit) + qf("includeArchived"@, include_archived));
    json_call(HttpMethod::Get, q.path("/api/v1/dashboard"))
}

fn health_call(ready: bool, full: bool) -> (c: ApiCall)
    ensures
        call_view(c) == get_json(health_target(ready, full)),
{
    let path = if ready {
        "/api/v1/health/ready"
    } else if full {
        "/api/v1/health"
    } else {
        "/api/v1/health/live"
    };
    json_call(HttpMethod::Get, owned(path))
}

fn negotiate_call(device: String) -> (c: ApiCall)
    ensures
        call_view(c) == get_json("/api/v1/negotiate"@ + query_text(qv("device"@, device@))),
{
    let ghost d = device@;
    let q = Query::new().set("device", device);
    assert(q@ =~= qv("device"@, d));
    json_call(HttpMethod::Get, q.path("/api/v1/negotiate"))
}

fn device_plan_exec(serial: String, module: Option<String>, command: Option<DeviceCommand>) -> (r: Result<Plan, CliError>)
    ensures
        plan_result(r) == match (module, command) {
            (Some(_), Some(_)) => Err(ErrorView::ModuleWithSubcommand),
            (Some(name), None) => lift(
                device_plan(serial@, Some(DeviceCommand::Module { name })),
                RenderView::Json,
            ),
            (None, c) => lift(device_plan(serial@, c), RenderView::Json),
        },
{
    let command = match (module, command) {
        (Some(_), Some(_)) => return Err(CliError::ModuleWithSubcommand),
        (Some(name), None) => Some(DeviceCommand::Module { name }),
        (None, c) => c,
    };
    call_plan(device(serial.as_str(), command), Render::Json)
}

/// What a command line comes to: the request to send and how to show its
/// answer, or the configuration report, or the error that stops it.
pub fn plan(cli: Cli) -> (r: Result<Plan, CliError>)
    ensures
        plan_result(r) == plan_spec(cli),
{
    let table = match cli.output {
        OutputFormat::Table => true,
        OutputFormat::Json => false,
    };
    match cli.command {
        Command::Devices { limit, offset, include_archived } => Ok(
            Plan::Call(
                devices_call(limit, offset, include_archived),
                if table {
                    Render::DevicesTable
                } else {
                    Render::Json
                },
            ),
        ),
        Command::Device { serial, module, command } => device_plan_exec(serial, module, command),
        Command::Module { name, include_archived, limit, offset, params } => call_plan(
            module_call(name.as_str(), include_archived, limit, offset, &params),
            Render::Json,
        ),
        Command::Apps(cmd) => Ok(Plan::Call(json_call(HttpMethod::Get, apps(*cmd)), Render::Json)),
        Command::Certificates { search, status, limit, include_archived } => Ok(
            Plan::Call(certificates_call(search, status, limit, include_archived), Render::Json),
        ),
        Command::Logs {
            tool,
            levels,
            platform,
            file,
            grep,
            summary,
            max_lines_per_device,
            include_archived,
            limit,
            offset,
        } => Ok(
            Plan::Call(
                logs_call(
                    tool.as_str(),
                    levels,
                    platform,
                    file,
                    grep,
                    summary,
                    max_lines_per_device,
                    include_archived,
                    limit,
                    offset,
                ),
                Render::Json,
            ),
        ),
        Command::Events { limit, offset, since, until, kind, command } => match command {
            None => Ok(
                Plan::Call(
                    events_list_call(limit, offset, since, until, kind),
                    if table {
                        Render::EventsTable
                    } else {
                        Render::Json
                    },
                ),
            ),
            Some(c) => call_plan(events(c), Render::Json),
        },
        Command::Dashboard { events_limit, include_archived } => Ok(
            Plan::Call(dashboard_call(events_limit, include_archived), Render::Json),
        ),
        Command::Config => Ok(Plan::ShowConfig),
        Command::Health { ready, full } => Ok(Plan::Call(health_call(ready, full), Render::Json)),
        Command::Metrics => Ok(
            Plan::Call(
                ApiCall {
                    method: HttpMethod::Get,
                    target: owned("/api/v1/metrics"),
                    body: None,
                    headers: no_headers(),
                    expect: Expect::Text,
                },
                Render::Text,
            ),
        ),
        Command::Negotiate { device } => Ok(Plan::Call(negotiate_call(device), Render::Json)),
        Command::Archive { serial } => call_plan(
            device(serial.as_str(), Some(DeviceCommand::Archive)),
            Render::Json,
        ),
        Command::Unarchive { serial } => call_plan(
            device(serial.as_str(), Some(DeviceCommand::Unarchive)),
            Render::Json,
        ),
        Command::Delete { serial, confirm } => call_plan(
            device(serial.as_str(), Some(DeviceCommand::Delete { confirm })),
            Render::Json,
        ),
        Command::ApiKeys(cmd) => Ok(Plan::Call(api_keys(cmd), Render::Json)),
        Command::Admin(cmd) => {
            let (c, r) = admin(cmd);
            Ok(Plan::Call(c, r))
        },
        Command::Settings(cmd) => call_plan(settings(cmd), Render::Json),
        Command::Raw { path, method, data, params } => call_plan(
            raw(path.as_str(), method, data, &params),
            Render::Raw,
        ),
    }
}

} // verus!
