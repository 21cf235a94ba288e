//! The records of the settings store as it holds them, in columns of text
//! and integers, and their conversion to and from the configuration
//! records. Reading and writing the store itself is left to the caller.

use crate::config::{
    clone_opt_text, default_recommended_servers, default_server, opt_text, template_views,
    MasterConfigResponse, McpServer, McpSettings, RecommendedServer, SettingsView, SummaryView,
    SyncStatus, SyncSummary, TemplateView, Timestamp,
};
use crate::error::BackendError;
use vstd::prelude::*;

verus! {

/// What `chrono::DateTime::parse_from_rfc3339` makes of a text: the
/// instant read, or, where it rejects the text, the message of its error.
pub uninterp spec fn rfc3339_instant(text: Seq<char>) -> Result<Timestamp, Seq<char>>;

/// The text that `chrono::DateTime::to_rfc3339` writes for the instant in
/// UTC, or `None` where `chrono::DateTime::from_timestamp` has no date and
/// time for these seconds and nanoseconds.
pub uninterp spec fn rfc3339_text(at: Timestamp) -> Option<Seq<char>>;

/// The characters of the reason of a refusal.
pub open spec fn reading_view(r: Result<Timestamp, String>) -> Result<Timestamp, Seq<char>> {
    match r {
        Ok(at) => Ok(at),
        Err(reason) => Err(reason@),
    }
}

/// Calls `chrono::DateTime::parse_from_rfc3339`. The contract claims that
/// the outcome depends on the text alone: the instant read, given as the
/// date and time's `timestamp` and `timestamp_subsec_nanos`, or the error,
/// given as the message that its `Display` writes.
#[verifier::external_body]
fn parse_rfc3339(text: &str) -> (r: Result<Timestamp, String>)
    ensures
        reading_view(r) == rfc3339_instant(text@),
{
    match chrono::DateTime::parse_from_rfc3339(text) {
        Ok(at) => Ok(Timestamp { secs: at.timestamp(), nanos: at.timestamp_subsec_nanos() }),
        Err(e) => Err(e.to_string()),
    }
}

/// Calls `chrono::DateTime::to_rfc3339` on the date and time that
/// `chrono::DateTime::from_timestamp` makes of the instant. The contract
/// claims that the outcome depends on the instant alone.
#[verifier::external_body]
fn write_rfc3339(at: Timestamp) -> (r: Option<String>)
    ensures
        opt_text(r) == rfc3339_text(at),
{
    match chrono::DateTime::from_timestamp(at.secs, at.nanos) {
        Some(moment) => Some(moment.to_rfc3339()),
        None => None,
    }
}

/// Writes an instant in RFC 3339, as the store holds it and the listings
/// show it. There is no text for an instant outside the dates that can be
/// written.
pub fn instant_text(at: Timestamp) -> (r: Option<String>)
    ensures
        opt_text(r) == rfc3339_text(at),
{
    write_rfc3339(at)
}

/// The text that stands for a status in the history.
pub open spec fn status_column(status: SyncStatus) -> Seq<char> {
    match status {
        SyncStatus::Updated => "updated"@,
        SyncStatus::Skipped => "skipped"@,
        SyncStatus::Failed => "failed"@,
    }
}

/// The status that a text of the history stands for. Any text but the two
/// known ones reads as `Failed`.
pub open spec fn column_status(text: Seq<char>) -> SyncStatus {
    if text == "updated"@ {
        SyncStatus::Updated
    } else if text == "skipped"@ {
        SyncStatus::Skipped
    } else {
        SyncStatus::Failed
    }
}

/// A status read back from its text in the history is the status written.
pub proof fn lemma_status_round_trip(status: SyncStatus)
    ensures
        column_status(status_column(status)) == status,
{
    reveal_strlit("updated");
    reveal_strlit("skipped");
    reveal_strlit("failed");
    assert("updated"@[0] == 'u');
    assert("skipped"@[0] == 's');
    assert("failed"@.len() == 6);
}

/// Writes a status as the history holds it.
pub fn encode_status(status: SyncStatus) -> (r: String)
    ensures
        r@ == status_column(status),
{
    match status {
        SyncStatus::Updated => "updated".to_string(),
        SyncStatus::Skipped => "skipped".to_string(),
        SyncStatus::Failed => "failed".to_string(),
    }
}

/// Reads a status from the history.
pub fn decode_status(text: &String) -> (r: SyncStatus)
    ensures
        r == column_status(text@),
{
    if *text == "updated".to_string() {
        SyncStatus::Updated
    } else if *text == "skipped".to_string() {
        SyncStatus::Skipped
    } else {
        SyncStatus::Failed
    }
}

/// One entry of the history as the store holds it.
#[derive(Debug)]
pub struct HistoryRow {
    pub tool_name: String,
    pub status: String,
    pub message: String,
    pub synced_at: String,
}

/// What a [`HistoryRow`] is, as plain values.
pub struct RowOfHistory {
    pub tool_name: Seq<char>,
    pub status: Seq<char>,
    pub message: Seq<char>,
    pub synced_at: Seq<char>,
}

impl View for HistoryRow {
    type V = RowOfHistory;

    open spec fn view(&self) -> RowOfHistory {
        RowOfHistory {
            tool_name: self.tool_name@,
            status: self.status@,
            message: self.message@,
            synced_at: self.synced_at@,
        }
    }
}

/// The view of a row that may be missing.
pub open spec fn history_view(row: Option<HistoryRow>) -> Option<RowOfHistory> {
    match row {
        Some(found) => Some(found@),
        None => None,
    }
}

/// The row of a reconciliation attempt whose instant reads `at` in RFC
/// 3339; there is none where the instant has no such text.
pub open spec fn row_with_text(summary: SyncSummary, at: Option<Seq<char>>) -> Option<RowOfHistory> {
    match at {
        Some(text) => Some(
            RowOfHistory {
                tool_name: summary.tool@,
                status: status_column(summary.status),
                message: summary.message@,
                synced_at: text,
            },
        ),
        None => None,
    }
}

/// Turns the record of a reconciliation attempt into its row, given the
/// text of its instant: the status becomes its text, the rest is kept.
/// Without a text for the instant there is no row.
pub fn history_row_with_text(summary: &SyncSummary, at: Option<String>) -> (r: Option<HistoryRow>)
    ensures
        history_view(r) == row_with_text(*summary, opt_text(at)),
{
    match at {
        Some(text) => Some(
            HistoryRow {
                tool_name: summary.tool.clone(),
                status: encode_status(summary.status),
                message: summary.message.clone(),
                synced_at: text,
            },
        ),
        None => None,
    }
}

/// Turns the record of a reconciliation attempt into its row, the instant
/// written in RFC 3339. There is no row where the instant is outside the
/// dates that can be written.
pub fn history_row(summary: &SyncSummary) -> (r: Option<HistoryRow>)
    ensures
        history_view(r) == row_with_text(*summary, rfc3339_text(summary.synced_at)),
{
    history_row_with_text(summary, instant_text(summary.synced_at))
}

/// The record that a row gives with the instant `at`.
pub open spec fn summary_of_row(row: RowOfHistory, at: Timestamp) -> SummaryView {
    SummaryView {
        tool: row.tool_name,
        status: column_status(row.status),
        message: row.message,
        synced_at: at,
    }
}

/// Reads the record of a reconciliation attempt from its row, given what
/// reading the row's instant gave. A row whose instant could not be read is
/// refused as `Other`, with the reason.
pub fn summary_with_instant(row: &HistoryRow, at: Result<Timestamp, String>) -> (r: Result<
    SyncSummary,
    BackendError,
>)
    ensures
        match at {
            Ok(instant) => r is Ok && r->Ok_0@ == summary_of_row(row@, instant),
            Err(reason) => r is Err && r->Err_0 == BackendError::Other(reason),
        },
{
    let status = decode_status(&row.status);
    match at {
        Ok(instant) => Ok(
            SyncSummary {
                tool: row.tool_name.clone(),
                status,
                message: row.message.clone(),
                synced_at: instant,
            },
        ),
        Err(reason) => Err(BackendError::Other(reason)),
    }
}

/// What reading a row gives: the record with the instant that the row's
/// text holds, or, where that text is not in RFC 3339, the reason.
pub open spec fn row_reading(row: RowOfHistory) -> Result<SummaryView, Seq<char>> {
    match rfc3339_instant(row.synced_at) {
        Ok(at) => Ok(summary_of_row(row, at)),
        Err(reason) => Err(reason),
    }
}

/// Reads the record of a reconciliation attempt from its row. A row whose
/// instant is not in RFC 3339 is refused as `Other`, with the parser's
/// reason.
pub fn summary_from_row(row: &HistoryRow) -> (r: Result<SyncSummary, BackendError>)
    ensures
        match row_reading(row@) {
            Ok(summary) => r is Ok && r->Ok_0@ == summary,
            Err(reason) => r is Err && r->Err_0 is Other && r->Err_0->Other_0@ == reason,
        },
{
    summary_with_instant(row, parse_rfc3339(row.synced_at.as_str()))
}

/// Reads the records of a list of rows, in order. The first row whose
/// instant is not in RFC 3339 ends the reading: the list is refused as
/// `Other`, with the parser's reason for that row.
pub fn summaries_from_rows(rows: &Vec<HistoryRow>) -> (r: Result<Vec<SyncSummary>, BackendError>)
    ensures
        match r {
            Ok(items) => items.len() == rows.len() && forall|i: int|
                0 <= i < rows.len() ==> row_reading(#[trigger] rows[i]@) == Ok::<
                    SummaryView,
                    Seq<char>,
                >(items[i]@),
            Err(e) => exists|i: int|
                0 <= i < rows.len() && row_reading(#[trigger] rows[i]@) is Err && e is Other
                    && e->Other_0@ == row_reading(rows[i]@)->Err_0 && forall|k: int|
                    0 <= k < i ==> row_reading(#[trigger] rows[k]@) is Ok,
        },
        r is Ok <==> forall|i: int| 0 <= i < rows.len() ==> row_reading(#[trigger] rows[i]@) is Ok,
{
    let mut items: Vec<SyncSummary> = Vec::new();
    let mut i: usize = 0;
    while i < rows.len()
        invariant
            i <= rows.len(),
            items.len() == i,
            forall|k: int|
                0 <= k < i ==> row_reading(#[trigger] rows[k]@) == Ok::<SummaryView, Seq<char>>(
                    items[k]@,
                ),
        decreases rows.len() - i,
    {
        match summary_from_row(&rows[i]) {
            Ok(item) => items.push(item),
            Err(e) => {
                assert(row_reading(rows[i as int]@) is Err);
                return Err(e);
            },
        }
        i = i + 1;
    }
    Ok(items)
}

/// The master record as the store holds it, its settings already decoded.
#[derive(Debug)]
pub struct MasterRow {
    pub settings: McpSettings,
    pub updated_at: String,
}

/// Reads the master record, given its settings and what reading the
/// instant of its last change gave. An instant that could not be read is
/// refused as `Other`, with the reason.
pub fn master_with_instant(settings: McpSettings, at: Result<Timestamp, String>) -> (r: Result<
    MasterConfigResponse,
    BackendError,
>)
    ensures
        match at {
            Ok(instant) => r is Ok && r->Ok_0.settings == settings && r->Ok_0.updated_at
                == instant,
            Err(reason) => r is Err && r->Err_0 == BackendError::Other(reason),
        },
{
    match at {
        Ok(instant) => Ok(MasterConfigResponse { settings, updated_at: instant }),
        Err(reason) => Err(BackendError::Other(reason)),
    }
}

/// Reads the master record from what the store found. Without a row the
/// master is `ConfigNotFound`; a row whose instant is not in RFC 3339 is
/// refused as `Other`, with the parser's reason.
pub fn master_from_row(row: Option<MasterRow>) -> (r: Result<MasterConfigResponse, BackendError>)
    ensures
        match row {
            None => r is Err && r->Err_0 is ConfigNotFound,
            Some(found) => match rfc3339_instant(found.updated_at@) {
                Ok(at) => r is Ok && r->Ok_0.settings == found.settings && r->Ok_0.updated_at
                    == at,
                Err(reason) => r is Err && r->Err_0 is Other && r->Err_0->Other_0@ == reason,
            },
        },
{
    match row {
        None => Err(BackendError::ConfigNotFound),
        Some(found) => {
            let at = parse_rfc3339(found.updated_at.as_str());
            master_with_instant(found.settings, at)
        },
    }
}

/// The settings that a master record starts with: the default server and
/// no project override.
pub open spec fn initial_master() -> SettingsView {
    SettingsView { servers: seq![default_server()], project_overrides: Seq::empty() }
}

/// What is to be done to have a master record.
#[derive(Debug)]
pub enum EnsureStep {
    /// The master is there.
    Ready(MasterConfigResponse),
    /// There is none yet: store these settings, then read the master again.
    Create(McpSettings),
    /// Reading the master failed for another reason.
    Fail(BackendError),
}

/// Decides what follows an attempt to read the master: a master that was
/// found is handed on, a missing one is to be created from the initial
/// settings, and any other error stands.
pub fn ensure_master_config(found: Result<MasterConfigResponse, BackendError>) -> (r: EnsureStep)
    ensures
        match found {
            Ok(cfg) => r == EnsureStep::Ready(cfg),
            Err(BackendError::ConfigNotFound) => r is Create && r->Create_0@ == initial_master(),
            Err(e) => r == EnsureStep::Fail(e),
        },
{
    match found {
        Ok(cfg) => EnsureStep::Ready(cfg),
        Err(BackendError::ConfigNotFound) => {
            let mut servers: Vec<McpServer> = Vec::new();
            servers.push(McpServer::default());
            let created = McpSettings { servers, project_overrides: Vec::new() };
            assert(created@.servers =~= initial_master().servers);
            assert(created@.project_overrides =~= initial_master().project_overrides);
            EnsureStep::Create(created)
        },
        Err(e) => EnsureStep::Fail(e),
    }
}

/// The integer that stands for a flag in the store.
pub open spec fn flag_column(flag: bool) -> i64 {
    if flag {
        1
    } else {
        0
    }
}

/// The flag that an integer of the store stands for: anything but zero is
/// set.
pub open spec fn column_flag(value: i64) -> bool {
    value != 0
}

/// What a [`RecommendedRow`] is, as plain values.
pub struct RowView {
    pub id: Seq<char>,
    pub name: Seq<char>,
    pub description: Option<Seq<char>>,
    pub endpoint: Seq<char>,
    pub homepage: Option<Seq<char>>,
    pub category: Option<Seq<char>>,
    pub api_key_required: i64,
    pub default_enabled: i64,
}

/// One template of the catalog as the store holds it.
#[derive(Debug)]
pub struct RecommendedRow {
    pub id: String,
    pub name: String,
    pub description: Option<String>,
    pub endpoint: String,
    pub homepage: Option<String>,
    pub category: Option<String>,
    pub api_key_required: i64,
    pub default_enabled: i64,
}

impl View for RecommendedRow {
    type V = RowView;

    open spec fn view(&self) -> RowView {
        RowView {
            id: self.id@,
            name: self.name@,
            description: opt_text(self.description),
            endpoint: self.endpoint@,
            homepage: opt_text(self.homepage),
            category: opt_text(self.category),
            api_key_required: self.api_key_required,
            default_enabled: self.default_enabled,
        }
    }
}

/// The row of a template.
pub open spec fn row_of(t: TemplateView) -> RowView {
    RowView {
        id: t.id,
        name: t.name,
        description: t.description,
        endpoint: t.endpoint,
        homepage: t.homepage,
        category: t.category,
        api_key_required: flag_column(t.api_key_required),
        default_enabled: flag_column(t.default_enabled),
    }
}

/// The template of a row.
pub open spec fn template_of(row: RowView) -> TemplateView {
    TemplateView {
        id: row.id,
        name: row.name,
        description: row.description,
        endpoint: row.endpoint,
        homepage: row.homepage,
        category: row.category,
        api_key_required: column_flag(row.api_key_required),
        default_enabled: column_flag(row.default_enabled),
    }
}

/// A template read back from its row is the template written.
pub proof fn lemma_row_round_trip(t: TemplateView)
    ensures
        template_of(row_of(t)) == t,
{
}

impl RecommendedRow {
    /// Writes a template as the store holds it.
    pub fn from_server(server: &RecommendedServer) -> (r: Self)
        ensures
            r@ == row_of(server@),
    {
        RecommendedRow {
            id: server.id.clone(),
            name: server.name.clone(),
            description: clone_opt_text(&server.description),
            endpoint: server.endpoint.clone(),
            homepage: clone_opt_text(&server.homepage),
            category: clone_opt_text(&server.category),
            api_key_required: if server.api_key_required {
                1
            } else {
                0
            },
            default_enabled: if server.default_enabled {
                1
            } else {
                0
            },
        }
    }

    /// Reads a template from the store.
    pub fn to_server(&self) -> (r: RecommendedServer)
        ensures
            r@ == template_of(self@),
    {
        RecommendedServer {
            id: self.id.clone(),
            name: self.name.clone(),
            description: clone_opt_text(&self.description),
            endpoint: self.endpoint.clone(),
            homepage: clone_opt_text(&self.homepage),
            category: clone_opt_text(&self.category),
            api_key_required: self.api_key_required != 0,
            default_enabled: self.default_enabled != 0,
        }
    }
}

/// The views of a list of rows, in order.
pub open spec fn row_views(v: Seq<RecommendedRow>) -> Seq<RowView> {
    v.map_values(|r: RecommendedRow| r@)
}

/// The rows to insert into a catalog that holds `count` templates: the
/// built-in catalog where it is empty, and nothing otherwise.
pub open spec fn seed_of(count: i64) -> Seq<RowView> {
    if count == 0 {
        crate::config::builtin_catalog().map_values(|t: TemplateView| row_of(t))
    } else {
        Seq::empty()
    }
}

/// Decides what to seed the catalog with, given the number of templates
/// that it holds.
pub fn seed_recommended_servers(count: i64) -> (r: Vec<RecommendedRow>)
    ensures
        row_views(r@) == seed_of(count),
{
    let mut rows: Vec<RecommendedRow> = Vec::new();
    if count == 0 {
        let servers = default_recommended_servers();
        let mut i: usize = 0;
        while i < servers.len()
            invariant
                i <= servers.len(),
                rows.len() == i,
                forall|k: int| 0 <= k < i ==> rows@[k]@ == row_of(servers@[k]@),
            decreases servers.len() - i,
        {
            rows.push(RecommendedRow::from_server(&servers[i]));
            i = i + 1;
        }
        assert(row_views(rows@) =~= template_views(servers@).map_values(
            |t: TemplateView| row_of(t),
        ));
    } else {
        assert(row_views(rows@) =~= Seq::<RowView>::empty());
    }
    rows
}

} // verus!
