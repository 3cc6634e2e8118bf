//! The commands the tool understands, as plain values.
//!
//! Numbers that the command line takes as floating point (`--min-hours`,
//! `--item-age-days`) are held as the decimal text they are sent as.
use vstd::prelude::*;

verus! {

/// A JSON argument: inline JSON, or `@path` and what reading that file gave.
#[derive(Debug, PartialEq, Eq)]
pub enum JsonArg {
    Inline(String),
    File { path: String, contents: Result<String, String> },
}

/// The parsed command line: output format and command.
pub struct Cli {
    pub output: OutputFormat,
    pub command: Command,
}

pub enum Command {
    /// List devices in the fleet.
    Devices { limit: Option<u32>, offset: Option<u32>, include_archived: bool },
    /// Show a device (all modules), or run a per-device subcommand.
    Device { serial: String, module: Option<String>, command: Option<DeviceCommand> },
    /// Fleet-wide report for any module.
    Module {
        name: String,
        include_archived: bool,
        limit: Option<u32>,
        offset: Option<u32>,
        params: Vec<String>,
    },
    /// Application inventory, usage and distribution reports.
    Apps(Box<AppsCommand>),
    /// Search certificates across the fleet.
    Certificates { search: String, status: String, limit: Option<u32>, include_archived: bool },
    /// Sweep one tool's log tails across the fleet.
    Logs {
        tool: String,
        levels: Option<String>,
        platform: Option<String>,
        file: Option<String>,
        grep: Option<String>,
        summary: bool,
        max_lines_per_device: Option<u32>,
        include_archived: bool,
        limit: Option<u32>,
        offset: Option<u32>,
    },
    /// Recent fleet events, or an events subcommand.
    Events {
        limit: Option<u32>,
        offset: Option<u32>,
        since: Option<String>,
        until: Option<String>,
        kind: Option<String>,
        command: Option<EventsCommand>,
    },
    /// Dashboard summary.
    Dashboard { events_limit: Option<u32>, include_archived: bool },
    /// Show the endpoint and credential the tool would use.
    Config,
    /// API health (liveness by default).
    Health { ready: bool, full: bool },
    /// Prometheus metrics exposition (text).
    Metrics,
    /// Real-time negotiate.
    Negotiate { device: String },
    /// Archive a device.
    Archive { serial: String },
    /// Unarchive a device.
    Unarchive { serial: String },
    /// Delete a device.
    Delete { serial: String, confirm: bool },
    /// Manage per-client API keys.
    ApiKeys(ApiKeysCommand),
    /// Administrative maintenance and diagnostics.
    Admin(AdminCommand),
    /// Read or write server-side org settings.
    Settings(SettingsCommand),
    /// Call any path with any method.
    Raw { path: String, method: HttpMethod, data: Option<JsonArg>, params: Vec<String> },
}

pub enum DeviceCommand {
    Info,
    Module { name: String },
    Events { limit: Option<u32>, kind: Option<String> },
    InstallsLog,
    Log { tool: String },
    Usage { days: Option<u32>, app: Option<String> },
    Archive,
    Unarchive,
    Delete { confirm: bool },
}

pub enum EventsCommand {
    Failures {
        limit: Option<u32>,
        offset: Option<u32>,
        serial: Option<String>,
        reason: Option<String>,
        hours: Option<u32>,
        outcome: Option<String>,
    },
    Payload { event_id: u64 },
    Submit { json: JsonArg },
}

/// Inventory-facet filters shared by the applications reports. Each takes a
/// comma-separated list.
#[derive(Default)]
pub struct InventoryFilters {
    pub usages: Option<String>,
    pub catalogs: Option<String>,
    pub locations: Option<String>,
    pub areas: Option<String>,
    pub fleets: Option<String>,
    pub rooms: Option<String>,
    pub platforms: Option<String>,
}

pub enum AppsCommand {
    List {
        devices: Option<String>,
        names: Option<String>,
        publishers: Option<String>,
        categories: Option<String>,
        versions: Option<String>,
        search: Option<String>,
        installed_from: Option<String>,
        installed_to: Option<String>,
        size_min: Option<u64>,
        size_max: Option<u64>,
        filters: InventoryFilters,
        load_all: bool,
        include_archived: bool,
        limit: Option<u32>,
        offset: Option<u32>,
        device_limit: Option<u32>,
    },
    Filters { include_archived: bool },
    Usage {
        days: Option<u32>,
        names: Option<String>,
        /// Minimum total hours, as decimal text.
        min_hours: Option<String>,
        min_launches: Option<u32>,
        filters: InventoryFilters,
        include_archived: bool,
    },
    ByDevice {
        app: String,
        days: Option<u32>,
        usages: Option<String>,
        catalogs: Option<String>,
        locations: Option<String>,
        include_archived: bool,
    },
    Distribution { names: String, filters: InventoryFilters, include_archived: bool },
    CollectionHealth { fresh_days: Option<u32>, stale_days: Option<u32>, include_archived: bool },
}

pub enum AdminCommand {
    UsageHistory(UsageHistoryCommand),
    Installs(InstallsCommand),
    DebugDatabase,
    /// Alias for `admin usage-history cleanup`.
    CleanupUsage { months: u32 },
    /// Alias for `admin installs clear-errors`.
    ClearErrors { days: u32 },
}

pub enum UsageHistoryCommand {
    DateAnomalies { floor: Option<String>, limit: Option<u32> },
    Integrity { days: Option<u32>, sample: Option<u32> },
    Export { from: String, to: String, out: Option<String> },
    ResetBaseline { before: String, confirm: bool, reason: Option<String> },
    Cleanup { months: u32 },
}

pub enum InstallsCommand {
    ClearErrors {
        days: u32,
        /// Item age in days, as decimal text.
        item_age_days: Option<String>,
    },
    Reclassify { batch: Option<u32>, limit: Option<u32> },
}

pub enum SettingsCommand {
    Get,
    /// Replace the org settings with a JSON document (`settings set`).
    Replace { json: JsonArg, updated_by: Option<String> },
    Discover { include_archived: bool },
}

pub enum ApiKeysCommand {
    List,
    Create { name: String, scopes: Vec<String> },
    Revoke { key_id: String },
}

#[derive(Clone, Copy, Debug, PartialEq, Eq)]
pub enum OutputFormat {
    Table,
    Json,
}

#[derive(Clone, Copy, Debug, PartialEq, Eq)]
pub enum HttpMethod {
    Get,
    Post,
    Put,
    Patch,
    Delete,
}

pub open spec fn method_text(m: HttpMethod) -> Seq<char> {
    match m {
        HttpMethod::Get => "GET"@,
        HttpMethod::Post => "POST"@,
        HttpMethod::Put => "PUT"@,
        HttpMethod::Patch => "PATCH"@,
        HttpMethod::Delete => "DELETE"@,
    }
}

impl HttpMethod {
    /// The method's name on the wire.
    pub fn as_str(&self) -> (r: &'static str)
        ensures
            r@ == method_text(*self),
    {
        match self {
            HttpMethod::Get => "GET",
            HttpMethod::Post => "POST",
            HttpMethod::Put => "PUT",
            HttpMethod::Patch => "PATCH",
            HttpMethod::Delete => "DELETE",
        }
    }
}

} // verus!
