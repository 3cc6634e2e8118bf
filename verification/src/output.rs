//! What the tool prints: tables of devices and events, pretty JSON, the
//! configuration report.
use vstd::prelude::*;
use vstd::string::StringExecFns;

use crate::cli::OutputFormat;
use crate::config::{kind_text, Credential, Resolution};
use crate::json::{json_parse_error, json_pretty, json_pretty_text, json_quote, json_quoted, opt_view};
use crate::resolve::strings_view;
use crate::text::{chars_of, decimal, decimal_string, lines_of, owned, same_text, string_of, sub_chars, text_lines};

verus! {

/// A JSON value as the tables read it: its compact text, and its structure
/// where it is a string, an array or an object.
pub struct JsonValue {
    /// The value's compact JSON text, as `serde_json` displays it.
    pub text: String,
    pub kind: JsonKind,
}

pub enum JsonKind {
    Str(String),
    Array(Vec<JsonValue>),
    /// The members in order; keys are distinct.
    Object(Vec<(String, JsonValue)>),
    /// Null, a boolean or a number.
    Other,
}

/// The member `key` is the `i`th, and no earlier member has that key.
pub open spec fn first_key(ms: Seq<(String, JsonValue)>, key: Seq<char>, i: int) -> bool {
    0 <= i < ms.len() && ms[i].0@ == key && forall|k: int| 0 <= k < i ==> ms[k].0@ != key
}

/// The member `key` of an object (`Value::get`).
pub open spec fn member(v: JsonValue, key: Seq<char>) -> Option<JsonValue> {
    match v.kind {
        JsonKind::Object(ms) => if exists|i: int| first_key(ms@, key, i) {
            Some(ms@[choose|i: int| first_key(ms@, key, i)].1)
        } else {
            None
        },
        _ => None,
    }
}

/// The text of a string value (`Value::as_str`).
pub open spec fn str_of(v: JsonValue) -> Option<Seq<char>> {
    match v.kind {
        JsonKind::Str(s) => Some(s@),
        _ => None,
    }
}

/// The elements of an array value (`Value::as_array`).
pub open spec fn array_of(v: JsonValue) -> Option<Seq<JsonValue>> {
    match v.kind {
        JsonKind::Array(items) => Some(items@),
        _ => None,
    }
}

/// The string member `key`, or `-`.
pub open spec fn field_text(v: JsonValue, key: Seq<char>) -> Seq<char> {
    match member(v, key) {
        Some(m) => match str_of(m) {
            Some(s) => s,
            None => "-"@,
        },
        None => "-"@,
    }
}

/// The first of `keys` that is a string member, or `-`.
pub open spec fn first_field_text(v: JsonValue, keys: Seq<Seq<char>>) -> Seq<char>
    decreases keys.len(),
{
    if keys.len() == 0 {
        "-"@
    } else {
        match member(v, keys[0]) {
            Some(m) => match str_of(m) {
                Some(s) => s,
                None => first_field_text(v, keys.drop_first()),
            },
            None => first_field_text(v, keys.drop_first()),
        }
    }
}

/// The rows of a listing: its `list_key` array, or the value itself when it
/// is an array.
pub open spec fn rows_of(v: JsonValue, list_key: Seq<char>) -> Seq<JsonValue> {
    match member(v, list_key) {
        Some(m) => match array_of(m) {
            Some(items) => items,
            None => match array_of(v) {
                Some(items) => items,
                None => seq![],
            },
        },
        None => match array_of(v) {
            Some(items) => items,
            None => seq![],
        },
    }
}

/// The member `key` of an object.
pub fn get<'a>(v: &'a JsonValue, key: &str) -> (r: Option<&'a JsonValue>)
    ensures
        match r {
            Some(m) => member(*v, key@) == Some(*m),
            None => member(*v, key@) is None,
        },
{
    match &v.kind {
        JsonKind::Object(ms) => {
            for i in 0..ms.len()
                invariant
                    v.kind == JsonKind::Object(*ms),
                    forall|k: int| 0 <= k < i ==> ms@[k].0@ != key@,
            {
                if same_text(ms[i].0.as_str(), key) {
                    assert(first_key(ms@, key@, i as int));
                    let ghost j = choose|j: int| first_key(ms@, key@, j);
                    assert(j == i) by {
                        if j < i {
                        } else if j > i {
                            assert(ms@[i as int].0@ == key@);
                        }
                    }
                    assert(v.kind == JsonKind::Object(*ms));
                    assert(exists|k: int| first_key(ms@, key@, k));
                    assert(member(*v, key@) == Some(ms@[i as int].1));
                    return Some(&ms[i].1);
                }
            }
            None
        },
        _ => None,
    }
}

/// The string member `key` of a row, or `-`.
pub fn field(v: &JsonValue, key: &str) -> (r: String)
    ensures
        r@ == field_text(*v, key@),
{
    match get(v, key) {
        Some(m) => match &m.kind {
            JsonKind::Str(s) => s.clone(),
            _ => owned("-"),
        },
        None => owned("-"),
    }
}

/// The first of `keys` that is a string member of a row, or `-`.
pub fn first_field(v: &JsonValue, keys: &[&str]) -> (r: String)
    ensures
        r@ == first_field_text(*v, keys@.map_values(|k: &str| k@)),
{
    let ghost ks = keys@.map_values(|k: &str| k@);
    assert(ks.skip(0) =~= ks);
    for i in 0..keys.len()
        invariant
            ks == keys@.map_values(|k: &str| k@),
            first_field_text(*v, ks) == first_field_text(*v, ks.skip(i as int)),
    {
        assert(ks.skip(i as int)[0] == keys@[i as int]@);
        assert(ks.skip(i as int).drop_first() =~= ks.skip(i + 1));
        match get(v, keys[i]) {
            Some(m) => match &m.kind {
                JsonKind::Str(s) => {
                    return s.clone();
                },
                _ => {},
            },
            None => {},
        }
    }
    assert(ks.skip(keys.len() as int) =~= Seq::<Seq<char>>::empty());
    owned("-")
}

/// The rows of a listing.
pub fn rows<'a>(v: &'a JsonValue, list_key: &str) -> (r: &'a [JsonValue])
    ensures
        r@ == rows_of(*v, list_key@),
{
    let empty: &'a [JsonValue] = &[];
    let own = match &v.kind {
        JsonKind::Array(items) => items.as_slice(),
        _ => empty,
    };
    assert(empty@ =~= Seq::<JsonValue>::empty());
    match get(v, list_key) {
        Some(m) => match &m.kind {
            JsonKind::Array(items) => items.as_slice(),
            _ => own,
        },
        None => own,
    }
}

/// A table to print: header, rows, and a line after it.
pub struct TextTable {
    pub header: Vec<String>,
    pub rows: Vec<Vec<String>>,
    pub footer: Option<String>,
}

pub open spec fn row_view(r: Vec<String>) -> Seq<Seq<char>> {
    strings_view(r@)
}

pub open spec fn table_rows_view(t: TextTable) -> Seq<Seq<Seq<char>>> {
    t.rows@.map_values(|r: Vec<String>| row_view(r))
}

pub open spec fn device_row(d: JsonValue) -> Seq<Seq<char>> {
    seq![
        field_text(d, "serialNumber"@),
        field_text(d, "deviceName"@),
        field_text(d, "platform"@),
        field_text(d, "lastSeen"@),
    ]
}

/// The device list as a table: one row per device, and the `total` line
/// when the listing has one.
pub open spec fn devices_table_is(t: TextTable, v: JsonValue) -> bool {
    &&& strings_view(t.header@) == seq!["Serial"@, "Name"@, "Platform"@, "Last Seen"@]
    &&& table_rows_view(t) == rows_of(v, "devices"@).map_values(|d: JsonValue| device_row(d))
    &&& opt_view(t.footer) == match member(v, "total"@) {
        Some(total) => Some("total: "@ + total.text@),
        None => None,
    }
}

/// A message clipped to 80 characters: 77 and `...`.
pub open spec fn clipped(m: Seq<char>) -> Seq<char> {
    if m.len() > 80 {
        m.take(77) + "..."@
    } else {
        m
    }
}

pub open spec fn event_row(e: JsonValue) -> Seq<Seq<char>> {
    seq![
        first_field_text(e, seq!["timestamp"@, "ts"@, "createdAt"@]),
        first_field_text(e, seq!["serialNumber"@, "device"@, "deviceId"@]),
        first_field_text(e, seq!["kind"@, "eventType"@, "status"@]),
        clipped(field_text(e, "message"@)),
    ]
}

/// The event list as a table: one row per event.
pub open spec fn events_table_is(t: TextTable, v: JsonValue) -> bool {
    &&& strings_view(t.header@) == seq!["Time"@, "Serial"@, "Kind"@, "Message"@]
    &&& table_rows_view(t) == rows_of(v, "events"@).map_values(|e: JsonValue| event_row(e))
    &&& t.footer is None
}

fn header(names: &[&str]) -> (r: Vec<String>)
    ensures
        strings_view(r@) == names@.map_values(|s: &str| s@),
{
    let mut r: Vec<String> = Vec::new();
    for i in 0..names.len()
        invariant
            strings_view(r@) == names@.take(i as int).map_values(|s: &str| s@),
    {
        let ghost before = strings_view(r@);
        r.push(owned(names[i]));
        assert(strings_view(r@) =~= before.push(names@[i as int]@));
        assert(names@.take(i + 1).map_values(|s: &str| s@) =~= names@.take(i as int).map_values(
            |s: &str| s@,
        ).push(names@[i as int]@));
    }
    assert(names@.take(names.len() as int) =~= names@);
    r
}

fn device_cells(d: &JsonValue) -> (r: Vec<String>)
    ensures
        row_view(r) == device_row(*d),
{
    let mut r: Vec<String> = Vec::new();
    r.push(field(d, "serialNumber"));
    r.push(field(d, "deviceName"));
    r.push(field(d, "platform"));
    r.push(field(d, "lastSeen"));
    assert(row_view(r) =~= device_row(*d));
    r
}

/// A message clipped to 80 characters.
pub fn clip(m: String) -> (r: String)
    ensures
        r@ == clipped(m@),
{
    let cs = chars_of(m.as_str());
    if cs.len() > 80 {
        let mut s = string_of(&sub_chars(&cs, 0, 77));
        s.append("...");
        s
    } else {
        m
    }
}

fn event_cells(e: &JsonValue) -> (r: Vec<String>)
    ensures
        row_view(r) == event_row(*e),
{
    let mut r: Vec<String> = Vec::new();
    let a = first_field(e, &["timestamp", "ts", "createdAt"]);
    let b = first_field(e, &["serialNumber", "device", "deviceId"]);
    let c = first_field(e, &["kind", "eventType", "status"]);
    assert(seq!["timestamp", "ts", "createdAt"].map_values(|k: &str| k@) =~= seq![
        "timestamp"@,
        "ts"@,
        "createdAt"@,
    ]);
    assert(seq!["serialNumber", "device", "deviceId"].map_values(|k: &str| k@) =~= seq![
        "serialNumber"@,
        "device"@,
        "deviceId"@,
    ]);
    assert(seq!["kind", "eventType", "status"].map_values(|k: &str| k@) =~= seq![
        "kind"@,
        "eventType"@,
        "status"@,
    ]);
    r.push(a);
    r.push(b);
    r.push(c);
    r.push(clip(field(e, "message")));
    assert(row_view(r) =~= event_row(*e));
    r
}

/// Renders a device list (an object with a `devices` array, or a bare
/// array) as a table.
pub fn devices_table(v: &JsonValue) -> (t: TextTable)
    ensures
        devices_table_is(t, *v),
{
    let items = rows(v, "devices");
    let mut out: Vec<Vec<String>> = Vec::new();
    for i in 0..items.len()
        invariant
            out@.map_values(|r: Vec<String>| row_view(r)) == items@.take(i as int).map_values(
                |d: JsonValue| device_row(d),
            ),
    {
        let ghost before = out@.map_values(|r: Vec<String>| row_view(r));
        let row = device_cells(&items[i]);
        out.push(row);
        assert(out@.map_values(|r: Vec<String>| row_view(r)) =~= before.push(
            device_row(items@[i as int]),
        ));
        assert(items@.take(i + 1).map_values(|d: JsonValue| device_row(d)) =~= items@.take(
            i as int,
        ).map_values(|d: JsonValue| device_row(d)).push(device_row(items@[i as int])));
    }
    assert(items@.take(items.len() as int) =~= items@);
    let footer = match get(v, "total") {
        Some(total) => {
            let mut s = owned("total: ");
            s.append(total.text.as_str());
            Some(s)
        },
        None => None,
    };
    let h = header(&["Serial", "Name", "Platform", "Last Seen"]);
    assert(seq!["Serial", "Name", "Platform", "Last Seen"].map_values(|s: &str| s@) =~= seq![
        "Serial"@,
        "Name"@,
        "Platform"@,
        "Last Seen"@,
    ]);
    TextTable { header: h, rows: out, footer }
}

/// Renders an event list (an object with an `events` array, or a bare
/// array) as a table, messages clipped to 80 characters.
pub fn events_table(v: &JsonValue) -> (t: TextTable)
    ensures
        events_table_is(t, *v),
{
    let items = rows(v, "events");
    let mut out: Vec<Vec<String>> = Vec::new();
    for i in 0..items.len()
        invariant
            out@.map_values(|r: Vec<String>| row_view(r)) == items@.take(i as int).map_values(
                |e: JsonValue| event_row(e),
            ),
    {
        let ghost before = out@.map_values(|r: Vec<String>| row_view(r));
        let row = event_cells(&items[i]);
        out.push(row);
        assert(out@.map_values(|r: Vec<String>| row_view(r)) =~= before.push(
            event_row(items@[i as int]),
        ));
        assert(items@.take(i + 1).map_values(|e: JsonValue| event_row(e)) =~= items@.take(
            i as int,
        ).map_values(|e: JsonValue| event_row(e)).push(event_row(items@[i as int])));
    }
    assert(items@.take(items.len() as int) =~= items@);
    let h = header(&["Time", "Serial", "Kind", "Message"]);
    assert(seq!["Time", "Serial", "Kind", "Message"].map_values(|s: &str| s@) =~= seq![
        "Time"@,
        "Serial"@,
        "Kind"@,
        "Message"@,
    ]);
    TextTable { header: h, rows: out, footer: None }
}

/// JSON text as printed: pretty, or nothing when it does not parse.
pub open spec fn pretty_text(t: Seq<char>) -> Seq<char> {
    if json_parse_error(t) is None {
        json_pretty_text(t)
    } else {
        seq![]
    }
}

/// JSON text pretty-printed, as `--output json` and the JSON commands
/// print it.
pub fn pretty_json(text: &str) -> (r: String)
    ensures
        r@ == pretty_text(text@),
{
    match json_pretty(text) {
        Some(p) => p,
        None => String::new(),
    }
}

/// The rows of a CSV export: its lines but the header.
pub open spec fn export_row_count(csv: Seq<char>) -> nat {
    if text_lines(csv).len() > 0 {
        (text_lines(csv).len() - 1) as nat
    } else {
        0
    }
}

/// What an export written to a file reports.
pub open spec fn export_note_text(csv: Seq<char>, path: Seq<char>) -> Seq<char> {
    "wrote "@ + decimal(export_row_count(csv)) + " rows to "@ + path
}

pub fn export_note(csv: &str, path: &str) -> (r: String)
    ensures
        r@ == export_note_text(csv@, path@),
{
    let lines = lines_of(&chars_of(csv));
    assert(crate::text::views(lines@).len() == lines@.len());
    let n: usize = if lines.len() > 0 {
        lines.len() - 1
    } else {
        0
    };
    let mut r = owned("wrote ");
    r.append(decimal_string(n as u64).as_str());
    r.append(" rows to ");
    r.append(path);
    r
}

// ------------------------------------------------------------- configuration report

pub open spec fn json_opt(o: Option<Seq<char>>) -> Seq<char> {
    match o {
        Some(s) => json_quoted(s),
        None => "null"@,
    }
}

pub open spec fn json_items(ns: Seq<Seq<char>>) -> Seq<char>
    decreases ns.len(),
{
    if ns.len() == 0 {
        seq![]
    } else if ns.len() == 1 {
        json_quoted(ns[0])
    } else {
        json_items(ns.drop_last()) + ","@ + json_quoted(ns.last())
    }
}

pub open spec fn kind_of(c: Option<Credential>) -> Option<Seq<char>> {
    match c {
        Some(c) => Some(kind_text(c)),
        None => None,
    }
}

/// The report as compact JSON, keys in order: the resolved endpoint, the
/// credential's kind (no secret), where each came from, whether an
/// internal secret is set, and the notes.
pub open spec fn config_json_text(r: Resolution) -> Seq<char> {
    "{\"apiUrl\":"@ + json_opt(opt_view(r.api_url)) + ",\"apiUrlSource\":"@ + json_opt(
        opt_view(r.sources.api_url),
    ) + ",\"audienceSource\":"@ + json_opt(opt_view(r.sources.audience)) + ",\"credential\":"@
        + json_opt(kind_of(r.credential)) + ",\"credentialSource\":"@ + json_opt(
        opt_view(r.sources.credential),
    ) + ",\"internalSecret\":"@ + (if r.internal_secret is Some {
        "true"@
    } else {
        "false"@
    }) + ",\"notes\":["@ + json_items(strings_view(r.notes@)) + "]}"@
}

pub open spec fn or_text(o: Option<Seq<char>>, d: Seq<char>) -> Seq<char> {
    match o {
        Some(s) => s,
        None => d,
    }
}

/// The report as lines for a person: the endpoint and the credential's
/// kind with where each came from, the audience's source, whether an
/// internal secret is set, the notes, and the resolution order when
/// something is missing.
pub open spec fn config_lines(r: Resolution) -> Seq<Seq<char>> {
    config_head(r) + config_audience(r) + config_secret(r) + config_notes(r) + config_tail(r)
}

pub open spec fn config_head(r: Resolution) -> Seq<Seq<char>> {
    seq![
        "API endpoint : "@ + or_text(opt_view(r.api_url), "(none)"@),
        "  from       : "@ + or_text(opt_view(r.sources.api_url), "-"@),
        "Credential   : "@ + or_text(kind_of(r.credential), "(none)"@),
        "  from       : "@ + or_text(opt_view(r.sources.credential), "-"@),
    ]
}

pub open spec fn config_audience(r: Resolution) -> Seq<Seq<char>> {
    match r.sources.audience {
        Some(a) => seq!["Entra audience from : "@ + a@],
        None => seq![],
    }
}

pub open spec fn config_secret(r: Resolution) -> Seq<Seq<char>> {
    if r.internal_secret is Some {
        seq!["Internal secret     : set (REPORTMATE_INTERNAL_SECRET)"@]
    } else {
        seq![]
    }
}

pub open spec fn config_notes(r: Resolution) -> Seq<Seq<char>> {
    strings_view(r.notes@).map_values(|n: Seq<char>| "Note: "@ + n)
}

pub open spec fn config_tail(r: Resolution) -> Seq<Seq<char>> {
    if r.api_url is None || r.credential is None {
        seq![
            ""@,
            "Resolution order: environment (REPORTMATE_API_URL, REPORTMATE_TOKEN / REPORTMATE_API_KEY / REPORTMATE_PASSPHRASE),"@,
            "the ReportMate app's saved connection on this machine, the device runner's preferences,"@,
            "then the deployment's cloud sign-in (az login for an Entra audience, aws sso login for AWS)."@,
        ]
    } else {
        seq![]
    }
}

/// JSON text as the report shows it: pretty when it parses, else as it is.
pub open spec fn shown_json(t: Seq<char>) -> Seq<char> {
    if json_parse_error(t) is None {
        json_pretty_text(t)
    } else {
        t
    }
}

/// What `config` prints: the JSON report, pretty-printed, or its lines.
pub open spec fn config_report_lines(r: Resolution, format: OutputFormat) -> Seq<Seq<char>> {
    match format {
        OutputFormat::Json => seq![shown_json(config_json_text(r))],
        OutputFormat::Table => config_lines(r),
    }
}

fn append_json_opt(s: &mut String, o: &Option<String>)
    ensures
        final(s)@ == old(s)@ + json_opt(opt_view(*o)),
{
    match o {
        Some(v) => {
            let q = json_quote(v.as_str());
            s.append(q.as_str());
        },
        None => s.append("null"),
    }
}

fn config_json(r: &Resolution) -> (t: String)
    ensures
        t@ == config_json_text(*r),
{
    let mut s = owned("{\"apiUrl\":");
    append_json_opt(&mut s, &r.api_url);
    s.append(",\"apiUrlSource\":");
    append_json_opt(&mut s, &r.sources.api_url);
    s.append(",\"audienceSource\":");
    append_json_opt(&mut s, &r.sources.audience);
    s.append(",\"credential\":");
    let kind = match &r.credential {
        Some(c) => Some(owned(c.kind())),
        None => None,
    };
    append_json_opt(&mut s, &kind);
    s.append(",\"credentialSource\":");
    append_json_opt(&mut s, &r.sources.credential);
    s.append(",\"internalSecret\":");
    if r.internal_secret.is_some() {
        s.append("true");
    } else {
        s.append("false");
    }
    s.append(",\"notes\":[");
    let ghost head = s@;
    let ghost ns = strings_view(r.notes@);
    for i in 0..r.notes.len()
        invariant
            ns == strings_view(r.notes@),
            s@ == head + json_items(ns.take(i as int)),
    {
        if i > 0 {
            s.append(",");
        }
        let q = json_quote(r.notes[i].as_str());
        s.append(q.as_str());
        assert(ns.take(i + 1).drop_last() =~= ns.take(i as int));
        assert(ns.take(i + 1).last() == r.notes@[i as int]@);
        if i == 0 {
            assert(json_items(ns.take(1)) == json_quoted(ns[0]));
        }
        assert(s@ =~= head + json_items(ns.take(i + 1)));
    }
    assert(ns.take(r.notes.len() as int) =~= ns);
    s.append("]}");
    s
}

fn or_line(prefix: &str, o: &Option<String>, d: &str) -> (t: String)
    ensures
        t@ == prefix@ + or_text(opt_view(*o), d@),
{
    let mut s = owned(prefix);
    match o {
        Some(v) => s.append(v.as_str()),
        None => s.append(d),
    }
    s
}

fn push_line(v: &mut Vec<String>, l: String)
    ensures
        strings_view(final(v)@) == strings_view(old(v)@).push(l@),
{
    let ghost before = strings_view(v@);
    v.push(l);
    assert(strings_view(v@) =~= before.push(l@));
}

fn config_table_lines(r: &Resolution) -> (lines: Vec<String>)
    ensures
        strings_view(lines@) == config_lines(*r),
{
    let mut out: Vec<String> = Vec::new();
    push_line(&mut out, or_line("API endpoint : ", &r.api_url, "(none)"));
    push_line(&mut out, or_line("  from       : ", &r.sources.api_url, "-"));
    let kind = match &r.credential {
        Some(c) => Some(owned(c.kind())),
        None => None,
    };
    push_line(&mut out, or_line("Credential   : ", &kind, "(none)"));
    push_line(&mut out, or_line("  from       : ", &r.sources.credential, "-"));
    let ghost first = strings_view(out@);
    assert(first =~= config_head(*r));
    match &r.sources.audience {
        Some(a) => {
            let mut l = owned("Entra audience from : ");
            l.append(a.as_str());
            push_line(&mut out, l);
        },
        None => {},
    }
    if r.internal_secret.is_some() {
        push_line(&mut out, owned("Internal secret     : set (REPORTMATE_INTERNAL_SECRET)"));
    }
    let ghost before_notes = strings_view(out@);
    assert(before_notes =~= config_head(*r) + config_audience(*r) + config_secret(*r));
    let ghost ns = config_notes(*r);
    for i in 0..r.notes.len()
        invariant
            ns == config_notes(*r),
            strings_view(out@) == before_notes + ns.take(i as int),
    {
        let mut l = owned("Note: ");
        l.append(r.notes[i].as_str());
        push_line(&mut out, l);
        assert(ns.take(i + 1) =~= ns.take(i as int).push(ns[i as int]));
    }
    assert(ns.take(r.notes.len() as int) =~= ns);
    let ghost before_tail = strings_view(out@);
    if r.api_url.is_none() || r.credential.is_none() {
        push_line(&mut out, owned(""));
        push_line(
            &mut out,
            owned(
                "Resolution order: environment (REPORTMATE_API_URL, REPORTMATE_TOKEN / REPORTMATE_API_KEY / REPORTMATE_PASSPHRASE),",
            ),
        );
        push_line(
            &mut out,
            owned("the ReportMate app's saved connection on this machine, the device runner's preferences,"),
        );
        push_line(
            &mut out,
            owned("then the deployment's cloud sign-in (az login for an Entra audience, aws sso login for AWS)."),
        );
    }
    assert(strings_view(out@) =~= before_tail + config_tail(*r));
    out
}

/// What `config` prints: the resolved endpoint, the credential's kind and
/// the source of each, with no secret material.
pub fn config_report(r: &Resolution, format: OutputFormat) -> (lines: Vec<String>)
    ensures
        strings_view(lines@) == config_report_lines(*r, format),
{
    match format {
        OutputFormat::Json => {
            let mut out: Vec<String> = Vec::new();
            let text = config_json(r);
            let shown = match json_pretty(text.as_str()) {
                Some(p) => p,
                None => text,
            };
            push_line(&mut out, shown);
            assert(strings_view(out@) =~= seq![shown_json(config_json_text(*r))]);
            out
        },
        OutputFormat::Table => config_table_lines(r),
    }
}

} // verus!
