//! What the command line reports and decides: the difference between a
//! tool and the master in words, the label of a status, and the change that
//! a feature toggle makes to the master.

use crate::config::{
    is_first_with_id, lemma_position_of, position_of, McpServer, McpSettings, RecommendedServer,
    ServerView, SettingsView, SummaryView, SyncStatus, SyncSummary, TemplateView,
};
use crate::db::{instant_text, rfc3339_text};
use vstd::prelude::*;
use vstd::string::*;

verus! {

/// The characters of each string of a list, in order.
pub open spec fn texts(v: Seq<String>) -> Seq<Seq<char>> {
    v.map_values(|s: String| s@)
}

/// The ids of a list of server entries, in order.
pub open spec fn server_ids(servers: Seq<ServerView>) -> Seq<Seq<char>> {
    servers.map_values(|s: ServerView| s.id)
}

/// The ids of `ids` that do not occur in `others`, in the order of `ids`.
pub open spec fn ids_absent_from(ids: Seq<Seq<char>>, others: Seq<Seq<char>>) -> Seq<Seq<char>> {
    ids.filter(|id: Seq<char>| !others.contains(id))
}

/// The parts written one after the other with `sep` between them.
pub open spec fn joined(parts: Seq<Seq<char>>, sep: Seq<char>) -> Seq<char>
    decreases parts.len(),
{
    if parts.len() == 0 {
        Seq::empty()
    } else if parts.len() == 1 {
        parts[0]
    } else {
        joined(parts.drop_last(), sep) + sep + parts.last()
    }
}

/// The parts of the description of a difference: the ids that the tool
/// lacks, if any, and the ids that only the tool has, if any.
pub open spec fn diff_parts(missing: Seq<Seq<char>>, extra: Seq<Seq<char>>) -> Seq<Seq<char>> {
    let first = if missing.len() > 0 {
        seq![joined(missing, ", "@) + " 추가 필요"@]
    } else {
        Seq::empty()
    };
    let second = if extra.len() > 0 {
        seq![joined(extra, ", "@) + " 제거 확인"@]
    } else {
        Seq::empty()
    };
    first + second
}

/// The difference between a tool's settings and the master, in words:
/// nothing where they are equal; otherwise the ids to add and the ids to
/// check for removal, or a general remark where the ids are the same.
pub open spec fn diff_text(master: SettingsView, tool: SettingsView) -> Option<Seq<char>> {
    if master == tool {
        None
    } else {
        let master_ids = server_ids(master.servers);
        let tool_ids = server_ids(tool.servers);
        let parts = diff_parts(
            ids_absent_from(master_ids, tool_ids),
            ids_absent_from(tool_ids, master_ids),
        );
        if parts.len() == 0 {
            Some("서버 구성 차이 존재"@)
        } else {
            Some(joined(parts, " / "@))
        }
    }
}

fn has_id(servers: &Vec<McpServer>, id: &String) -> (r: bool)
    ensures
        r == server_ids(crate::config::server_views(servers@)).contains(id@),
{
    let ghost ids = server_ids(crate::config::server_views(servers@));
    let mut i: usize = 0;
    while i < servers.len()
        invariant
            i <= servers.len(),
            ids == server_ids(crate::config::server_views(servers@)),
            forall|k: int| 0 <= k < i ==> ids[k] != id@,
        decreases servers.len() - i,
    {
        if servers[i].id == *id {
            assert(ids[i as int] == id@);
            return true;
        }
        i = i + 1;
    }
    false
}

fn absent_ids(from: &Vec<McpServer>, others: &Vec<McpServer>) -> (r: Vec<String>)
    ensures
        texts(r@) == ids_absent_from(
            server_ids(crate::config::server_views(from@)),
            server_ids(crate::config::server_views(others@)),
        ),
{
    let ghost ids = server_ids(crate::config::server_views(from@));
    let ghost other_ids = server_ids(crate::config::server_views(others@));
    let mut out: Vec<String> = Vec::new();
    proof {
        reveal(Seq::filter);
        assert(ids.take(0) =~= Seq::<Seq<char>>::empty());
        assert(texts(out@) =~= ids_absent_from(ids.take(0), other_ids));
    }
    let mut i: usize = 0;
    while i < from.len()
        invariant
            i <= from.len(),
            ids == server_ids(crate::config::server_views(from@)),
            other_ids == server_ids(crate::config::server_views(others@)),
            texts(out@) == ids_absent_from(ids.take(i as int), other_ids),
        decreases from.len() - i,
    {
        let known = has_id(others, &from[i].id);
        proof {
            reveal(Seq::filter);
            assert(ids.take(i + 1).drop_last() =~= ids.take(i as int));
            assert(ids.take(i + 1).last() == from[i as int].id@);
        }
        if !known {
            let ghost before = texts(out@);
            out.push(from[i].id.clone());
            assert(texts(out@) =~= before.push(from[i as int].id@));
        }
        i = i + 1;
    }
    assert(ids.take(from.len() as int) =~= ids);
    out
}

/// Writes the parts one after the other with `sep` between them.
pub fn join(parts: &Vec<String>, sep: &str) -> (r: String)
    ensures
        r@ == joined(texts(parts@), sep@),
{
    let mut out = String::new();
    if parts.len() == 0 {
        return out;
    }
    out.append(parts[0].as_str());
    let ghost all = texts(parts@);
    assert(all.take(1) =~= seq![parts[0]@]);
    assert(out@ =~= joined(all.take(1), sep@));
    let mut i: usize = 1;
    while i < parts.len()
        invariant
            1 <= i <= parts.len(),
            all == texts(parts@),
            out@ == joined(all.take(i as int), sep@),
        decreases parts.len() - i,
    {
        out.append(sep);
        out.append(parts[i].as_str());
        proof {
            assert(all.take(i + 1).drop_last() =~= all.take(i as int));
            assert(all.take(i + 1).last() == parts[i as int]@);
        }
        i = i + 1;
    }
    assert(all.take(parts.len() as int) =~= all);
    out
}

/// Describes how a tool's settings differ from the master. Equal settings
/// have no description.
pub fn describe_diff(master: &McpSettings, tool: &McpSettings) -> (r: Option<String>)
    ensures
        crate::config::opt_text(r) == diff_text(master@, tool@),
{
    if master == tool {
        return None;
    }
    let missing = absent_ids(&master.servers, &tool.servers);
    let extra = absent_ids(&tool.servers, &master.servers);
    let mut parts: Vec<String> = Vec::new();
    if missing.len() > 0 {
        let mut part = join(&missing, ", ");
        part.append(" 추가 필요");
        parts.push(part);
    }
    if extra.len() > 0 {
        let mut part = join(&extra, ", ");
        part.append(" 제거 확인");
        parts.push(part);
    }
    assert(texts(parts@) =~= diff_parts(texts(missing@), texts(extra@)));
    if parts.len() == 0 {
        Some("서버 구성 차이 존재".to_string())
    } else {
        Some(join(&parts, " / "))
    }
}

/// The label of a status.
pub open spec fn status_label_text(status: SyncStatus) -> Seq<char> {
    match status {
        SyncStatus::Updated => "업데이트"@,
        SyncStatus::Skipped => "동일"@,
        SyncStatus::Failed => "실패"@,
    }
}

/// The label under which a status is shown.
pub fn status_label(status: &SyncStatus) -> (r: &'static str)
    ensures
        r@ == status_label_text(*status),
{
    match status {
        SyncStatus::Updated => "업데이트",
        SyncStatus::Skipped => "동일",
        SyncStatus::Failed => "실패",
    }
}

/// The status of a history entry with its message: the label, a dash, the
/// message.
pub fn format_status(summary: &SyncSummary) -> (r: String)
    ensures
        r@ == status_label_text(summary.status) + " - "@ + summary.message@,
{
    let mut out = String::new();
    out.append(status_label(&summary.status));
    out.append(" - ");
    out.append(summary.message.as_str());
    out
}

/// Why a feature toggle cannot be told from its two switches.
#[derive(Debug, Clone, Copy, PartialEq, Eq, Structural)]
pub enum ToggleError {
    /// Both switches were given.
    Both,
    /// Neither switch was given.
    Neither,
}

impl ToggleError {
    /// The message shown to the user.
    pub fn message(&self) -> (r: &'static str)
        ensures
            r@ == match *self {
                ToggleError::Both => "--on 과 --off 를 동시에 사용할 수 없습니다."@,
                ToggleError::Neither => "--on 또는 --off 중 하나를 지정하세요."@,
            },
    {
        match self {
            ToggleError::Both => "--on 과 --off 를 동시에 사용할 수 없습니다.",
            ToggleError::Neither => "--on 또는 --off 중 하나를 지정하세요.",
        }
    }
}

/// The state that the two switches of a feature toggle ask for: exactly
/// one of them has to be given.
pub fn toggle_choice(on: bool, off: bool) -> (r: Result<bool, ToggleError>)
    ensures
        r == if on && off {
            Err::<bool, ToggleError>(ToggleError::Both)
        } else if on {
            Ok(true)
        } else if off {
            Ok(false)
        } else {
            Err(ToggleError::Neither)
        },
{
    if on && off {
        Err(ToggleError::Both)
    } else if on {
        Ok(true)
    } else if off {
        Ok(false)
    } else {
        Err(ToggleError::Neither)
    }
}

/// The settings after the first server with the id `key` has been switched
/// to `desired`, or `None` where no server has that id.
pub open spec fn with_server_enabled(m: SettingsView, key: Seq<char>, desired: bool) -> Option<
    SettingsView,
> {
    match position_of(m.servers, key) {
        Some(i) => Some(
            SettingsView {
                servers: m.servers.update(i, ServerView { enabled: desired, ..m.servers[i] }),
                project_overrides: m.project_overrides,
            },
        ),
        None => None,
    }
}

/// Switches the first server with the id `key` on or off. Returns whether
/// there is such a server; without one the settings stay as they are.
pub fn set_server_enabled(master: &mut McpSettings, key: &String, desired: bool) -> (found: bool)
    ensures
        match with_server_enabled(old(master)@, key@, desired) {
            Some(after) => found && final(master)@ == after,
            None => !found && final(master)@ == old(master)@,
        },
{
    proof {
        lemma_position_of(master@.servers, key@);
    }
    let mut i: usize = 0;
    while i < master.servers.len()
        invariant
            i <= master.servers.len(),
            *master == *old(master),
            forall|k: int| 0 <= k < i ==> master.servers@[k].id@ != key@,
        decreases master.servers.len() - i,
    {
        if master.servers[i].id == *key {
            assert(is_first_with_id(master@.servers, key@, i as int));
            let mut entry = master.servers[i].clone();
            entry.enabled = desired;
            master.servers.set(i, entry);
            assert(master@.servers =~= old(master)@.servers.update(i as int, entry@));
            return true;
        }
        i = i + 1;
    }
    false
}

/// One line of a listing under a label, or nothing where there is no value.
pub open spec fn labelled_line(label: Seq<char>, value: Option<Seq<char>>) -> Seq<char> {
    match value {
        Some(text) => label + text + "\n"@,
        None => Seq::empty(),
    }
}

/// A template as the listing of the catalog shows it: name and id, then
/// description, endpoint, category and homepage, each on a line of its own
/// where the template has it, then the default state and whether an API key
/// is needed.
pub open spec fn recommended_text(t: TemplateView) -> Seq<char> {
    "\n- "@ + t.name + " ("@ + t.id + ")\n"@ + labelled_line("  설명: "@, t.description)
        + labelled_line("  엔드포인트: "@, Some(t.endpoint)) + labelled_line(
        "  카테고리: "@,
        t.category,
    ) + labelled_line("  문서: "@, t.homepage) + "  기본 상태: "@ + (if t.default_enabled {
        "활성화"@
    } else {
        "비활성화"@
    }) + " / API 키: "@ + (if t.api_key_required {
        "필요"@
    } else {
        "불필요"@
    }) + "\n"@
}

fn line_of(label: &str, value: &Option<String>) -> (r: String)
    ensures
        r@ == labelled_line(label@, crate::config::opt_text(*value)),
{
    let mut out = String::new();
    match value {
        Some(text) => {
            out.append(label);
            out.append(text.as_str());
            out.append("\n");
            assert(out@ =~= label@ + text@ + "\n"@);
        },
        None => {},
    }
    out
}

/// Writes a template as the listing of the catalog shows it.
pub fn describe_recommended(rule: &RecommendedServer) -> (r: String)
    ensures
        r@ == recommended_text(rule@),
{
    let mut out = String::new();
    out.append("\n- ");
    out.append(rule.name.as_str());
    out.append(" (");
    out.append(rule.id.as_str());
    out.append(")\n");
    assert(out@ =~= "\n- "@ + rule.name@ + " ("@ + rule.id@ + ")\n"@);
    out.append(line_of("  설명: ", &rule.description).as_str());
    out.append(line_of("  엔드포인트: ", &Some(rule.endpoint.clone())).as_str());
    out.append(line_of("  카테고리: ", &rule.category).as_str());
    out.append(line_of("  문서: ", &rule.homepage).as_str());
    out.append("  기본 상태: ");
    out.append(
        if rule.default_enabled {
            "활성화"
        } else {
            "비활성화"
        },
    );
    out.append(" / API 키: ");
    out.append(
        if rule.api_key_required {
            "필요"
        } else {
            "불필요"
        },
    );
    out.append("\n");
    out
}

/// The report of a reconciliation attempt: the tool and the message, led
/// by the instant in square brackets where one is given, and the label of
/// the status on a second line.
pub open spec fn summary_text(summary: SummaryView, stamp: Option<Seq<char>>) -> Seq<char> {
    let tail = summary.tool + " :: "@ + summary.message + "\n  상태: "@ + status_label_text(
        summary.status,
    ) + "\n"@;
    match stamp {
        Some(at) => "["@ + at + "] "@ + tail,
        None => tail,
    }
}

/// Writes the report of a reconciliation attempt, led by the given text of
/// its instant, if any.
pub fn sync_summary_text(summary: &SyncSummary, stamp: Option<String>) -> (r: String)
    ensures
        r@ == summary_text(summary@, crate::config::opt_text(stamp)),
{
    let mut tail = String::new();
    tail.append(summary.tool.as_str());
    tail.append(" :: ");
    tail.append(summary.message.as_str());
    tail.append("\n  상태: ");
    tail.append(status_label(&summary.status));
    tail.append("\n");
    match stamp {
        Some(at) => {
            let mut out = String::new();
            out.append("[");
            out.append(at.as_str());
            out.append("] ");
            out.append(tail.as_str());
            out
        },
        None => tail,
    }
}

/// Writes the report of a reconciliation attempt, with or without the
/// instant at which it was made, in RFC 3339. With the instant asked for
/// there is no report where the instant cannot be written.
pub fn describe_sync_summary(summary: &SyncSummary, include_timestamp: bool) -> (r: Option<String>)
    ensures
        crate::config::opt_text(r) == if !include_timestamp {
            Some(summary_text(summary@, None))
        } else {
            match rfc3339_text(summary.synced_at) {
                Some(at) => Some(summary_text(summary@, Some(at))),
                None => None,
            }
        },
{
    if !include_timestamp {
        return Some(sync_summary_text(summary, None));
    }
    match instant_text(summary.synced_at) {
        Some(at) => Some(sync_summary_text(summary, Some(at))),
        None => None,
    }
}

/// One entry of the history as the listing shows it: the instant in square
/// brackets, the tool, and the status with its message.
pub open spec fn history_entry_text(item: SummaryView, stamp: Seq<char>) -> Seq<char> {
    "- ["@ + stamp + "] "@ + item.tool + " :: "@ + (status_label_text(item.status) + " - "@
        + item.message)
}

/// Writes one entry of the history, given the text of its instant.
pub fn history_entry(item: &SyncSummary, stamp: &String) -> (r: String)
    ensures
        r@ == history_entry_text(item@, stamp@),
{
    let mut out = String::new();
    out.append("- [");
    out.append(stamp.as_str());
    out.append("] ");
    out.append(item.tool.as_str());
    out.append(" :: ");
    out.append(format_status(item).as_str());
    out
}

/// Writes one entry of the history with its instant in RFC 3339. There is
/// no line where the instant cannot be written.
pub fn describe_history_entry(item: &SyncSummary) -> (r: Option<String>)
    ensures
        crate::config::opt_text(r) == match rfc3339_text(item.synced_at) {
            Some(at) => Some(history_entry_text(item@, at)),
            None => None,
        },
{
    match instant_text(item.synced_at) {
        Some(at) => Some(history_entry(item, &at)),
        None => None,
    }
}

} // verus!
