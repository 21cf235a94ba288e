//! The merge engine: reconciling a tool's settings with the master, and the
//! decision that one reconciliation attempt takes.

use crate::config::{
    clone_overrides, clone_servers, opt_text, override_views, server_views, McpServer,
    McpSettings, OverrideView, ProjectOverride, ServerView, SettingsView, SyncStatus, SyncSummary,
    Timestamp, ToolConfiguration,
};
use vstd::prelude::*;

verus! {

/// Whether some item of `items` has the key `k`.
pub open spec fn has_key<T>(items: Seq<T>, key: spec_fn(T) -> Seq<char>, k: Seq<char>) -> bool {
    exists|i: int| 0 <= i < items.len() && #[trigger] key(items[i]) == k
}

/// Whether no two items of `items` share a key.
pub open spec fn unique_keys<T>(items: Seq<T>, key: spec_fn(T) -> Seq<char>) -> bool {
    forall|i: int, j: int|
        0 <= i < j < items.len() ==> #[trigger] key(items[i]) != #[trigger] key(items[j])
}

/// The items of `local` whose key the master does not know, in `local`'s order.
pub open spec fn local_only<T>(master: Seq<T>, local: Seq<T>, key: spec_fn(T) -> Seq<char>) -> Seq<
    T,
> {
    local.filter(|x: T| !has_key(master, key, key(x)))
}

/// The master's items in the master's order, followed by the items that only
/// `local` has. Items of one side that share a key among themselves are all
/// kept.
pub open spec fn merge_by_key<T>(master: Seq<T>, local: Seq<T>, key: spec_fn(T) -> Seq<char>) -> Seq<
    T,
> {
    master + local_only(master, local, key)
}

/// The key of a server entry: its id.
pub open spec fn server_key() -> spec_fn(ServerView) -> Seq<char> {
    |s: ServerView| s.id
}

/// The key of a project override: its project.
pub open spec fn override_key() -> spec_fn(OverrideView) -> Seq<char> {
    |o: OverrideView| o.project
}

/// The reconciled settings: `local` itself where it equals the master, and
/// otherwise the master's entries followed by the entries that only `local`
/// has, for servers and for project overrides alike.
pub open spec fn merged_settings(master: SettingsView, local: SettingsView) -> SettingsView {
    if local == master {
        local
    } else {
        SettingsView {
            servers: merge_by_key(master.servers, local.servers, server_key()),
            project_overrides: merge_by_key(
                master.project_overrides,
                local.project_overrides,
                override_key(),
            ),
        }
    }
}

/// Filtering a sequence with one more item at its end.
pub proof fn lemma_local_only_push<T>(
    master: Seq<T>,
    local: Seq<T>,
    x: T,
    key: spec_fn(T) -> Seq<char>,
)
    ensures
        local_only(master, local.push(x), key) == if has_key(master, key, key(x)) {
            local_only(master, local, key)
        } else {
            local_only(master, local, key).push(x)
        },
{
    reveal(Seq::filter);
    assert(local.push(x).drop_last() =~= local);
}

fn has_server_id(servers: &Vec<McpServer>, id: &String) -> (r: bool)
    ensures
        r == has_key(server_views(servers@), server_key(), id@),
{
    let mut i: usize = 0;
    while i < servers.len()
        invariant
            i <= servers.len(),
            forall|k: int| 0 <= k < i ==> servers@[k].id@ != id@,
        decreases servers.len() - i,
    {
        if servers[i].id == *id {
            assert(server_key()(server_views(servers@)[i as int]) == id@);
            return true;
        }
        i = i + 1;
    }
    assert forall|k: int| 0 <= k < server_views(servers@).len() implies #[trigger] server_key()(
        server_views(servers@)[k],
    ) != id@ by {
        assert(servers@[k].id@ != id@);
    }
    false
}

fn has_project(overrides: &Vec<ProjectOverride>, project: &String) -> (r: bool)
    ensures
        r == has_key(override_views(overrides@), override_key(), project@),
{
    let mut i: usize = 0;
    while i < overrides.len()
        invariant
            i <= overrides.len(),
            forall|k: int| 0 <= k < i ==> overrides@[k].project@ != project@,
        decreases overrides.len() - i,
    {
        if overrides[i].project == *project {
            assert(override_key()(override_views(overrides@)[i as int]) == project@);
            return true;
        }
        i = i + 1;
    }
    assert forall|k: int| 0 <= k < override_views(overrides@).len() implies #[trigger] override_key()(
        override_views(overrides@)[k],
    ) != project@ by {
        assert(overrides@[k].project@ != project@);
    }
    false
}

fn merge_servers(master: &Vec<McpServer>, local: &Vec<McpServer>) -> (r: Vec<McpServer>)
    ensures
        server_views(r@) == merge_by_key(server_views(master@), server_views(local@), server_key()),
{
    let mut merged = clone_servers(master);
    let ghost m = server_views(master@);
    let ghost l = server_views(local@);
    proof {
        reveal(Seq::filter);
        assert(l.take(0) =~= Seq::<ServerView>::empty());
        assert(server_views(merged@) =~= merge_by_key(m, l.take(0), server_key()));
    }
    let mut i: usize = 0;
    while i < local.len()
        invariant
            i <= local.len(),
            m == server_views(master@),
            l == server_views(local@),
            server_views(merged@) == merge_by_key(m, l.take(i as int), server_key()),
        decreases local.len() - i,
    {
        let known = has_server_id(master, &local[i].id);
        proof {
            lemma_local_only_push(m, l.take(i as int), l[i as int], server_key());
            assert(l.take(i as int).push(l[i as int]) =~= l.take(i + 1));
            assert(server_key()(l[i as int]) == local[i as int].id@);
        }
        if !known {
            let ghost before = server_views(merged@);
            merged.push(local[i].clone());
            assert(server_views(merged@) =~= before.push(l[i as int]));
            assert(before.push(l[i as int]) =~= m + local_only(m, l.take(i as int), server_key()).push(
                l[i as int],
            ));
        }
        i = i + 1;
    }
    assert(l.take(local.len() as int) =~= l);
    merged
}

/// Merges two lists of project overrides: the master's, followed by those of
/// `overrides` whose project the master does not name.
pub fn merge_project_overrides(
    master_overrides: &Vec<ProjectOverride>,
    overrides: &Vec<ProjectOverride>,
) -> (r: Vec<ProjectOverride>)
    ensures
        override_views(r@) == merge_by_key(
            override_views(master_overrides@),
            override_views(overrides@),
            override_key(),
        ),
{
    let mut merged = clone_overrides(master_overrides);
    let ghost m = override_views(master_overrides@);
    let ghost l = override_views(overrides@);
    proof {
        reveal(Seq::filter);
        assert(l.take(0) =~= Seq::<OverrideView>::empty());
        assert(override_views(merged@) =~= merge_by_key(m, l.take(0), override_key()));
    }
    let mut i: usize = 0;
    while i < overrides.len()
        invariant
            i <= overrides.len(),
            m == override_views(master_overrides@),
            l == override_views(overrides@),
            override_views(merged@) == merge_by_key(m, l.take(i as int), override_key()),
        decreases overrides.len() - i,
    {
        let known = has_project(master_overrides, &overrides[i].project);
        proof {
            lemma_local_only_push(m, l.take(i as int), l[i as int], override_key());
            assert(l.take(i as int).push(l[i as int]) =~= l.take(i + 1));
            assert(override_key()(l[i as int]) == overrides[i as int].project@);
        }
        if !known {
            let ghost before = override_views(merged@);
            merged.push(overrides[i].clone());
            assert(override_views(merged@) =~= before.push(l[i as int]));
            assert(before.push(l[i as int]) =~= m + local_only(m, l.take(i as int), override_key()).push(
                l[i as int],
            ));
        }
        i = i + 1;
    }
    assert(l.take(overrides.len() as int) =~= l);
    merged
}

/// Reconciles a tool's settings with the master. Settings equal to the
/// master come back unchanged. Otherwise the master's entries come first, in
/// the master's order and with the master's field values, and the entries
/// that only the tool has follow in the tool's order.
pub fn merge_settings(master: &McpSettings, tool: &McpSettings) -> (r: McpSettings)
    ensures
        r@ == merged_settings(master@, tool@),
{
    if tool == master {
        return tool.clone();
    }
    McpSettings {
        servers: merge_servers(&master.servers, &tool.servers),
        project_overrides: merge_project_overrides(
            &master.project_overrides,
            &tool.project_overrides,
        ),
    }
}

/// What the local-only part of a merge holds: nothing the master knows,
/// every item of `local` that the master does not know, and only items of
/// `local`, each at most as often as `local` has its key.
pub proof fn lemma_local_only<T>(master: Seq<T>, local: Seq<T>, key: spec_fn(T) -> Seq<char>)
    ensures
        forall|i: int|
            0 <= i < local_only(master, local, key).len() ==> !has_key(
                master,
                key,
                key(#[trigger] local_only(master, local, key)[i]),
            ),
        forall|i: int|
            0 <= i < local_only(master, local, key).len() ==> local.contains(
                #[trigger] local_only(master, local, key)[i],
            ),
        forall|k: int|
            0 <= k < local.len() && !has_key(master, key, key(local[k])) ==> local_only(
                master,
                local,
                key,
            ).contains(#[trigger] local[k]),
        unique_keys(local, key) ==> unique_keys(local_only(master, local, key), key),
    decreases local.len(),
{
    let only = local_only(master, local, key);
    if local.len() == 0 {
        reveal(Seq::filter);
        assert(only.len() == 0);
    } else {
        let init = local.drop_last();
        let x = local.last();
        let prev = local_only(master, init, key);
        assert(init.push(x) =~= local);
        lemma_local_only_push(master, init, x, key);
        lemma_local_only(master, init, key);
        assert forall|i: int| 0 <= i < only.len() implies local.contains(#[trigger] only[i]) by {
            if i < prev.len() {
                assert(init.contains(prev[i]));
                let j = choose|j: int| 0 <= j < init.len() && init[j] == prev[i];
                assert(local[j] == only[i]);
            } else {
                assert(local[local.len() - 1] == only[i]);
            }
        }
        assert forall|k: int|
            0 <= k < local.len() && !has_key(master, key, key(local[k])) implies only.contains(
            #[trigger] local[k],
        ) by {
            if k < init.len() {
                assert(init[k] == local[k]);
                assert(prev.contains(init[k]));
                let j = choose|j: int| 0 <= j < prev.len() && prev[j] == init[k];
                assert(only[j] == local[k]);
            } else {
                assert(only[only.len() - 1] == local[k]);
            }
        }
        if unique_keys(local, key) {
            assert forall|i: int, j: int| 0 <= i < j < init.len() implies #[trigger] key(init[i])
                != #[trigger] key(init[j]) by {
                assert(key(local[i]) != key(local[j]));
            }
            assert forall|i: int, j: int| 0 <= i < j < only.len() implies #[trigger] key(only[i])
                != #[trigger] key(only[j]) by {
                if j < prev.len() {
                    assert(key(prev[i]) != key(prev[j]));
                } else {
                    assert(init.contains(prev[i]));
                    let k = choose|k: int| 0 <= k < init.len() && init[k] == prev[i];
                    assert(key(local[k]) != key(local[local.len() - 1]));
                }
            }
        }
    }
}

/// Merging against the same master a second time changes nothing.
pub proof fn lemma_merge_by_key_twice<T>(master: Seq<T>, local: Seq<T>, key: spec_fn(T) -> Seq<char>)
    ensures
        merge_by_key(master, merge_by_key(master, local, key), key) == merge_by_key(
            master,
            local,
            key,
        ),
{
    let only = local_only(master, local, key);
    let pred = |x: T| !has_key(master, key, key(x));
    lemma_local_only(master, local, key);
    Seq::filter_distributes_over_add(master, only, pred);
    lemma_filter_none(master, pred);
    lemma_filter_all(only, pred);
    assert(master.filter(pred) + only.filter(pred) =~= only);
}

proof fn lemma_filter_none<T>(s: Seq<T>, pred: spec_fn(T) -> bool)
    requires
        forall|i: int| 0 <= i < s.len() ==> !pred(#[trigger] s[i]),
    ensures
        s.filter(pred).len() == 0,
    decreases s.len(),
{
    reveal(Seq::filter);
    if s.len() > 0 {
        lemma_filter_none(s.drop_last(), pred);
    }
}

proof fn lemma_filter_all<T>(s: Seq<T>, pred: spec_fn(T) -> bool)
    requires
        forall|i: int| 0 <= i < s.len() ==> pred(#[trigger] s[i]),
    ensures
        s.filter(pred) == s,
    decreases s.len(),
{
    reveal(Seq::filter);
    if s.len() > 0 {
        lemma_filter_all(s.drop_last(), pred);
        assert(s.drop_last().push(s.last()) =~= s);
    }
}

/// A merge starts with the master, item for item, and whatever it holds
/// under a key that the master knows is the master's own item.
pub proof fn lemma_merge_by_key_master<T>(master: Seq<T>, local: Seq<T>, key: spec_fn(T) -> Seq<char>)
    ensures
        merge_by_key(master, local, key).len() >= master.len(),
        forall|i: int|
            0 <= i < master.len() ==> #[trigger] merge_by_key(master, local, key)[i] == master[i],
        forall|j: int|
            0 <= j < merge_by_key(master, local, key).len() && has_key(
                master,
                key,
                key(#[trigger] merge_by_key(master, local, key)[j]),
            ) ==> j < master.len(),
{
    lemma_local_only(master, local, key);
    let only = local_only(master, local, key);
    let merged = merge_by_key(master, local, key);
    assert forall|j: int|
        0 <= j < merged.len() && has_key(master, key, key(#[trigger] merged[j])) implies j
        < master.len() by {
        if j >= master.len() {
            assert(merged[j] == only[j - master.len()]);
        }
    }
}

/// A merge holds every item of `local` whose key the master does not know.
pub proof fn lemma_merge_by_key_local<T>(master: Seq<T>, local: Seq<T>, key: spec_fn(T) -> Seq<char>)
    ensures
        forall|k: int|
            0 <= k < local.len() && !has_key(master, key, key(local[k])) ==> merge_by_key(
                master,
                local,
                key,
            ).contains(#[trigger] local[k]),
{
    lemma_local_only(master, local, key);
    let only = local_only(master, local, key);
    let merged = merge_by_key(master, local, key);
    assert forall|k: int|
        0 <= k < local.len() && !has_key(master, key, key(local[k])) implies merged.contains(
        #[trigger] local[k],
    ) by {
        assert(only.contains(local[k]));
        let j = choose|j: int| 0 <= j < only.len() && only[j] == local[k];
        assert(merged[master.len() + j] == local[k]);
    }
}

/// A merge of two sides that each have unique keys has unique keys.
pub proof fn lemma_merge_by_key_unique<T>(master: Seq<T>, local: Seq<T>, key: spec_fn(T) -> Seq<char>)
    requires
        unique_keys(master, key),
        unique_keys(local, key),
    ensures
        unique_keys(merge_by_key(master, local, key), key),
{
    lemma_local_only(master, local, key);
    let only = local_only(master, local, key);
    let merged = merge_by_key(master, local, key);
    assert forall|i: int, j: int| 0 <= i < j < merged.len() implies #[trigger] key(merged[i])
        != #[trigger] key(merged[j]) by {
        if j < master.len() {
            assert(key(master[i]) != key(master[j]));
        } else if i >= master.len() {
            assert(key(only[i - master.len()]) != key(only[j - master.len()]));
        } else {
            assert(merged[j] == only[j - master.len()]);
            assert(!has_key(master, key, key(only[j - master.len()])));
            assert(key(master[i]) != key(merged[j]));
        }
    }
}

/// Reconciling the master with itself gives the master.
pub proof fn lemma_merge_same(m: SettingsView)
    ensures
        merged_settings(m, m) == m,
{
}

/// Every server of the master is in the reconciled settings, at its place
/// and with the master's field values; and an entry of the result whose id
/// the master knows is the master's entry, never the tool's. The same holds
/// of the project overrides.
pub proof fn lemma_merge_keeps_master(m: SettingsView, t: SettingsView)
    ensures
        merged_settings(m, t).servers.len() >= m.servers.len(),
        forall|i: int|
            0 <= i < m.servers.len() ==> #[trigger] merged_settings(m, t).servers[i]
                == m.servers[i],
        forall|j: int|
            0 <= j < merged_settings(m, t).servers.len() && has_key(
                m.servers,
                server_key(),
                (#[trigger] merged_settings(m, t).servers[j]).id,
            ) ==> j < m.servers.len(),
        merged_settings(m, t).project_overrides.len() >= m.project_overrides.len(),
        forall|i: int|
            0 <= i < m.project_overrides.len() ==> #[trigger] merged_settings(
                m,
                t,
            ).project_overrides[i] == m.project_overrides[i],
        forall|j: int|
            0 <= j < merged_settings(m, t).project_overrides.len() && has_key(
                m.project_overrides,
                override_key(),
                (#[trigger] merged_settings(m, t).project_overrides[j]).project,
            ) ==> j < m.project_overrides.len(),
{
    if t != m {
        lemma_merge_by_key_master(m.servers, t.servers, server_key());
        lemma_merge_by_key_master(m.project_overrides, t.project_overrides, override_key());
        let r = merged_settings(m, t);
        assert forall|j: int|
            0 <= j < r.servers.len() && has_key(
                m.servers,
                server_key(),
                (#[trigger] r.servers[j]).id,
            ) implies j < m.servers.len() by {
            assert(server_key()(r.servers[j]) == r.servers[j].id);
        }
        assert forall|j: int|
            0 <= j < r.project_overrides.len() && has_key(
                m.project_overrides,
                override_key(),
                (#[trigger] r.project_overrides[j]).project,
            ) implies j < m.project_overrides.len() by {
            assert(override_key()(r.project_overrides[j]) == r.project_overrides[j].project);
        }
    }
}

/// Every server of the tool whose id the master does not know is in the
/// reconciled settings, unchanged; likewise every project override whose
/// project the master does not name.
pub proof fn lemma_merge_keeps_local_only(m: SettingsView, t: SettingsView)
    ensures
        forall|k: int|
            0 <= k < t.servers.len() && !has_key(m.servers, server_key(), t.servers[k].id)
                ==> merged_settings(m, t).servers.contains(#[trigger] t.servers[k]),
        forall|k: int|
            0 <= k < t.project_overrides.len() && !has_key(
                m.project_overrides,
                override_key(),
                t.project_overrides[k].project,
            ) ==> merged_settings(m, t).project_overrides.contains(
                #[trigger] t.project_overrides[k],
            ),
{
    if t != m {
        lemma_merge_by_key_local(m.servers, t.servers, server_key());
        lemma_merge_by_key_local(m.project_overrides, t.project_overrides, override_key());
        assert forall|k: int|
            0 <= k < t.servers.len() && !has_key(
                m.servers,
                server_key(),
                t.servers[k].id,
            ) implies merged_settings(m, t).servers.contains(#[trigger] t.servers[k]) by {
            assert(server_key()(t.servers[k]) == t.servers[k].id);
        }
        assert forall|k: int|
            0 <= k < t.project_overrides.len() && !has_key(
                m.project_overrides,
                override_key(),
                t.project_overrides[k].project,
            ) implies merged_settings(m, t).project_overrides.contains(
            #[trigger] t.project_overrides[k],
        ) by {
            assert(override_key()(t.project_overrides[k]) == t.project_overrides[k].project);
        }
    }
}

/// Where neither the master nor the tool names a server id twice, the
/// reconciled settings name none twice.
pub proof fn lemma_merge_unique_servers(m: SettingsView, t: SettingsView)
    requires
        unique_keys(m.servers, server_key()),
        unique_keys(t.servers, server_key()),
    ensures
        unique_keys(merged_settings(m, t).servers, server_key()),
{
    if t != m {
        lemma_merge_by_key_unique(m.servers, t.servers, server_key());
    }
}

/// Where neither the master nor the tool names a project twice, the
/// reconciled settings name none twice.
pub proof fn lemma_merge_unique_overrides(m: SettingsView, t: SettingsView)
    requires
        unique_keys(m.project_overrides, override_key()),
        unique_keys(t.project_overrides, override_key()),
    ensures
        unique_keys(merged_settings(m, t).project_overrides, override_key()),
{
    if t != m {
        lemma_merge_by_key_unique(m.project_overrides, t.project_overrides, override_key());
    }
}

/// Reconciling a second time against the same master changes nothing.
pub proof fn lemma_merge_idempotent(m: SettingsView, t: SettingsView)
    ensures
        merged_settings(m, merged_settings(m, t)) == merged_settings(m, t),
{
    let once = merged_settings(m, t);
    if t != m && once != m {
        lemma_merge_by_key_twice(m.servers, t.servers, server_key());
        lemma_merge_by_key_twice(m.project_overrides, t.project_overrides, override_key());
    }
}

/// What one reconciliation attempt decides: how it ends, what it reports,
/// and the settings to write over the tool's file, if any.
#[derive(Debug)]
pub struct SyncPlan {
    pub status: SyncStatus,
    pub message: String,
    pub write: Option<McpSettings>,
}

/// Decides one reconciliation attempt. A tool whose settings equal the
/// master is skipped and nothing is to be written. For any other tool the
/// reconciled settings are to replace the whole of its file. The attempt
/// never ends as `Failed`.
pub fn sync_tool(tool: &ToolConfiguration, master: &McpSettings) -> (plan: SyncPlan)
    ensures
        tool.settings@ == master@ ==> plan.status == SyncStatus::Skipped && plan.write is None
            && plan.message@ == "Already up-to-date"@,
        tool.settings@ != master@ ==> plan.status == SyncStatus::Updated && plan.write is Some
            && plan.write->0@ == merged_settings(master@, tool.settings@) && plan.message@
            == "Configuration updated"@,
{
    if tool.settings == *master {
        return SyncPlan {
            status: SyncStatus::Skipped,
            message: "Already up-to-date".to_string(),
            write: None,
        };
    }
    let normalized = merge_settings(master, &tool.settings);
    SyncPlan {
        status: SyncStatus::Updated,
        message: "Configuration updated".to_string(),
        write: Some(normalized),
    }
}

impl SyncPlan {
    /// The record of the attempt, for the history: the tool's name, the
    /// plan's status and message, and the instant at which it was carried
    /// out.
    pub fn summary(&self, tool: &ToolConfiguration, synced_at: Timestamp) -> (r: SyncSummary)
        ensures
            r.tool@ == tool.name@,
            r.status == self.status,
            r.message@ == self.message@,
            r.synced_at == synced_at,
    {
        SyncSummary {
            tool: tool.name.clone(),
            status: self.status,
            message: self.message.clone(),
            synced_at,
        }
    }
}

/// How many directory levels below the root a configuration file may lie.
pub const MAX_DEPTH: usize = 2;

/// The directory under which the tools keep their configuration.
pub fn tool_config_dir() -> (r: &'static str)
    ensures
        r@ == "../tool_configs"@,
{
    "../tool_configs"
}

/// The name of a tool's configuration file.
pub fn mcp_file_name() -> (r: &'static str)
    ensures
        r@ == "mcp.json"@,
{
    "mcp.json"
}

/// What a [`WalkedEntry`] is, as plain values.
pub struct WalkedView {
    pub path: Seq<char>,
    pub depth: int,
    pub is_file: bool,
    pub file_name: Seq<char>,
    pub parent_name: Option<Seq<char>>,
}

/// One entry met on a walk through the directory tree: its path, how many
/// levels below the root it lies, whether it is a file, its own name, and
/// the name of the directory that holds it, where that can be told.
#[derive(Debug)]
pub struct WalkedEntry {
    pub path: String,
    pub depth: usize,
    pub is_file: bool,
    pub file_name: String,
    pub parent_name: Option<String>,
}

impl View for WalkedEntry {
    type V = WalkedView;

    open spec fn view(&self) -> WalkedView {
        WalkedView {
            path: self.path@,
            depth: self.depth as int,
            is_file: self.is_file,
            file_name: self.file_name@,
            parent_name: opt_text(self.parent_name),
        }
    }
}

/// What a [`ToolRecord`] is, as plain values.
pub struct ToolView {
    pub name: Seq<char>,
    pub config_path: Seq<char>,
}

/// A tool as the registry knows it: its name and the path of its
/// configuration file.
#[derive(Debug)]
pub struct ToolRecord {
    pub name: String,
    pub config_path: String,
}

impl View for ToolRecord {
    type V = ToolView;

    open spec fn view(&self) -> ToolView {
        ToolView { name: self.name@, config_path: self.config_path@ }
    }
}

impl Clone for ToolRecord {
    fn clone(&self) -> (r: Self)
        ensures
            r@ == self@,
    {
        ToolRecord { name: self.name.clone(), config_path: self.config_path.clone() }
    }
}

/// The views of a list of walked entries, in order.
pub open spec fn walked_views(v: Seq<WalkedEntry>) -> Seq<WalkedView> {
    v.map_values(|e: WalkedEntry| e@)
}

/// The views of a list of tools, in order.
pub open spec fn tool_views(v: Seq<ToolRecord>) -> Seq<ToolView> {
    v.map_values(|t: ToolRecord| t@)
}

/// The tool that an entry of the walk gives away, if any: a file named
/// `mcp.json` at most two levels below the root belongs to the tool named
/// like the directory that holds it, or to `unknown` where that has no name.
pub open spec fn detected(entry: WalkedView) -> Option<ToolView> {
    if entry.is_file && entry.file_name == "mcp.json"@ && entry.depth <= MAX_DEPTH {
        Some(
            ToolView {
                name: match entry.parent_name {
                    Some(name) => name,
                    None => "unknown"@,
                },
                config_path: entry.path,
            },
        )
    } else {
        None
    }
}

/// Tells whether an entry of the walk is a tool's configuration file, and
/// whose.
pub fn detect_tool(entry: &WalkedEntry) -> (r: Option<ToolRecord>)
    ensures
        match detected(entry@) {
            Some(tool) => r is Some && r->0@ == tool,
            None => r is None,
        },
{
    if entry.is_file && entry.file_name == mcp_file_name().to_string() && entry.depth <= MAX_DEPTH {
        let name = match &entry.parent_name {
            Some(name) => name.clone(),
            None => "unknown".to_string(),
        };
        Some(ToolRecord { name, config_path: entry.path.clone() })
    } else {
        None
    }
}

/// The tools that a walk gives away, in the order of the walk.
pub fn discover_tools(entries: &Vec<WalkedEntry>) -> (r: Vec<ToolRecord>)
    ensures
        tool_views(r@) == walked_views(entries@).filter_map(|e: WalkedView| detected(e)),
{
    let ghost all = walked_views(entries@);
    let ghost f = |e: WalkedView| detected(e);
    let mut tools: Vec<ToolRecord> = Vec::new();
    assert(all.take(0) =~= Seq::<WalkedView>::empty());
    assert(tool_views(tools@) =~= all.take(0).filter_map(f));
    let mut i: usize = 0;
    while i < entries.len()
        invariant
            i <= entries.len(),
            all == walked_views(entries@),
            f == |e: WalkedView| detected(e),
            tool_views(tools@) == all.take(i as int).filter_map(f),
        decreases entries.len() - i,
    {
        let ghost before = tool_views(tools@);
        proof {
            assert(all.take(i + 1).drop_last() =~= all.take(i as int));
            assert(all.take(i + 1).last() == entries[i as int]@);
        }
        match detect_tool(&entries[i]) {
            Some(tool) => {
                tools.push(tool);
                assert(tool_views(tools@) =~= before + seq![tool@]);
            },
            None => {},
        }
        i = i + 1;
    }
    assert(all.take(entries.len() as int) =~= all);
    tools
}

/// The tools to reconcile: all of them, or, where a name is given, those of
/// that name.
pub open spec fn selected(tools: Seq<ToolView>, only: Option<Seq<char>>) -> Seq<ToolView> {
    match only {
        Some(name) => tools.filter(|t: ToolView| t.name == name),
        None => tools,
    }
}

/// Picks the tools to reconcile out of the registry, in its order.
pub fn select_tools(tools: &Vec<ToolRecord>, only: &Option<String>) -> (r: Vec<ToolRecord>)
    ensures
        tool_views(r@) == selected(tool_views(tools@), opt_text(*only)),
{
    let ghost all = tool_views(tools@);
    let mut picked: Vec<ToolRecord> = Vec::new();
    match only {
        None => {
            let mut i: usize = 0;
            while i < tools.len()
                invariant
                    i <= tools.len(),
                    picked.len() == i,
                    forall|k: int| 0 <= k < i ==> picked@[k]@ == tools@[k]@,
                decreases tools.len() - i,
            {
                picked.push(tools[i].clone());
                i = i + 1;
            }
            assert(tool_views(picked@) =~= all);
        },
        Some(name) => {
            let ghost pred = |t: ToolView| t.name == name@;
            proof {
                reveal(Seq::filter);
                assert(all.take(0) =~= Seq::<ToolView>::empty());
                assert(tool_views(picked@) =~= all.take(0).filter(pred));
            }
            let mut i: usize = 0;
            while i < tools.len()
                invariant
                    i <= tools.len(),
                    all == tool_views(tools@),
                    pred == |t: ToolView| t.name == name@,
                    tool_views(picked@) == all.take(i as int).filter(pred),
                decreases tools.len() - i,
            {
                let ghost before = tool_views(picked@);
                proof {
                    reveal(Seq::filter);
                    assert(all.take(i + 1).drop_last() =~= all.take(i as int));
                    assert(all.take(i + 1).last() == tools[i as int]@);
                }
                if tools[i].name == *name {
                    picked.push(tools[i].clone());
                    assert(tool_views(picked@) =~= before.push(tools[i as int]@));
                }
                i = i + 1;
            }
            assert(all.take(tools.len() as int) =~= all);
        },
    }
    picked
}

/// The first tool of the registry with the given name, if there is one.
pub fn find_tool(tools: &Vec<ToolRecord>, name: &String) -> (r: Option<ToolRecord>)
    ensures
        match r {
            Some(tool) => exists|i: int|
                0 <= i < tools.len() && tool@ == (#[trigger] tools[i])@ && tool.name@ == name@
                    && forall|k: int| 0 <= k < i ==> (#[trigger] tools[k]).name@ != name@,
            None => forall|k: int| 0 <= k < tools.len() ==> (#[trigger] tools[k]).name@ != name@,
        },
{
    let mut i: usize = 0;
    while i < tools.len()
        invariant
            i <= tools.len(),
            forall|k: int| 0 <= k < i ==> (#[trigger] tools[k]).name@ != name@,
        decreases tools.len() - i,
    {
        if tools[i].name == *name {
            return Some(tools[i].clone());
        }
        i = i + 1;
    }
    None
}

} // verus!
