//! The configuration records and their mathematical views.

use vstd::prelude::*;

verus! {

/// What a [`McpServer`] is, as plain values.
pub struct ServerView {
    pub id: Seq<char>,
    pub name: Seq<char>,
    pub description: Option<Seq<char>>,
    pub endpoint: Seq<char>,
    pub api_key: Option<Seq<char>>,
    pub enabled: bool,
}

/// The characters of an optional string.
pub open spec fn opt_text(s: Option<String>) -> Option<Seq<char>> {
    match s {
        Some(t) => Some(t@),
        None => None,
    }
}

/// One named endpoint. Its identity is `id`.
#[derive(Debug)]
pub struct McpServer {
    pub id: String,
    pub name: String,
    pub description: Option<String>,
    pub endpoint: String,
    pub api_key: Option<String>,
    pub enabled: bool,
}

impl View for McpServer {
    type V = ServerView;

    open spec fn view(&self) -> ServerView {
        ServerView {
            id: self.id@,
            name: self.name@,
            description: opt_text(self.description),
            endpoint: self.endpoint@,
            api_key: opt_text(self.api_key),
            enabled: self.enabled,
        }
    }
}

/// A copy of an optional string, character for character.
pub(crate) fn clone_opt_text(s: &Option<String>) -> (r: Option<String>)
    ensures
        opt_text(r) == opt_text(*s),
{
    match s {
        Some(t) => Some(t.clone()),
        None => None,
    }
}

/// Whether two optional strings hold the same characters.
fn opt_text_eq(a: &Option<String>, b: &Option<String>) -> (r: bool)
    ensures
        r == (opt_text(*a) == opt_text(*b)),
{
    match a {
        Some(x) => match b {
            Some(y) => *x == *y,
            None => false,
        },
        None => b.is_none(),
    }
}

impl Clone for McpServer {
    fn clone(&self) -> (r: Self)
        ensures
            r@ == self@,
    {
        McpServer {
            id: self.id.clone(),
            name: self.name.clone(),
            description: clone_opt_text(&self.description),
            endpoint: self.endpoint.clone(),
            api_key: clone_opt_text(&self.api_key),
            enabled: self.enabled,
        }
    }
}

impl PartialEq for McpServer {
    fn eq(&self, other: &Self) -> (r: bool) {
        self.id == other.id && self.name == other.name && opt_text_eq(
            &self.description,
            &other.description,
        ) && self.endpoint == other.endpoint && opt_text_eq(&self.api_key, &other.api_key)
            && self.enabled == other.enabled
    }
}

impl vstd::std_specs::cmp::PartialEqSpecImpl for McpServer {
    open spec fn obeys_eq_spec() -> bool {
        true
    }

    open spec fn eq_spec(&self, other: &Self) -> bool {
        self@ == other@
    }
}

impl Default for McpServer {
    fn default() -> (r: Self)
        ensures
            r@ == default_server(),
    {
        McpServer {
            id: "default".to_string(),
            name: "Default MCP Server".to_string(),
            description: Some("Fallback local MCP server".to_string()),
            endpoint: "http://localhost:3001".to_string(),
            api_key: None,
            enabled: true,
        }
    }
}

/// The entry that a fresh master record starts with.
pub open spec fn default_server() -> ServerView {
    ServerView {
        id: "default"@,
        name: "Default MCP Server"@,
        description: Some("Fallback local MCP server"@),
        endpoint: "http://localhost:3001"@,
        api_key: None,
        enabled: true,
    }
}

/// What a [`RecommendedServer`] is, as plain values.
pub struct TemplateView {
    pub id: Seq<char>,
    pub name: Seq<char>,
    pub description: Option<Seq<char>>,
    pub endpoint: Seq<char>,
    pub homepage: Option<Seq<char>>,
    pub category: Option<Seq<char>>,
    pub api_key_required: bool,
    pub default_enabled: bool,
}

/// A catalog entry that can be applied onto the master settings. It never
/// carries a secret.
#[derive(Debug)]
pub struct RecommendedServer {
    pub id: String,
    pub name: String,
    pub description: Option<String>,
    pub endpoint: String,
    pub homepage: Option<String>,
    pub category: Option<String>,
    pub api_key_required: bool,
    pub default_enabled: bool,
}

impl View for RecommendedServer {
    type V = TemplateView;

    open spec fn view(&self) -> TemplateView {
        TemplateView {
            id: self.id@,
            name: self.name@,
            description: opt_text(self.description),
            endpoint: self.endpoint@,
            homepage: opt_text(self.homepage),
            category: opt_text(self.category),
            api_key_required: self.api_key_required,
            default_enabled: self.default_enabled,
        }
    }
}

impl Clone for RecommendedServer {
    fn clone(&self) -> (r: Self)
        ensures
            r@ == self@,
    {
        RecommendedServer {
            id: self.id.clone(),
            name: self.name.clone(),
            description: clone_opt_text(&self.description),
            endpoint: self.endpoint.clone(),
            homepage: clone_opt_text(&self.homepage),
            category: clone_opt_text(&self.category),
            api_key_required: self.api_key_required,
            default_enabled: self.default_enabled,
        }
    }
}

impl PartialEq for RecommendedServer {
    fn eq(&self, other: &Self) -> (r: bool) {
        self.id == other.id && self.name == other.name && opt_text_eq(
            &self.description,
            &other.description,
        ) && self.endpoint == other.endpoint && opt_text_eq(&self.homepage, &other.homepage)
            && opt_text_eq(&self.category, &other.category) && self.api_key_required
            == other.api_key_required && self.default_enabled == other.default_enabled
    }
}

impl vstd::std_specs::cmp::PartialEqSpecImpl for RecommendedServer {
    open spec fn obeys_eq_spec() -> bool {
        true
    }

    open spec fn eq_spec(&self, other: &Self) -> bool {
        self@ == other@
    }
}

/// The server entry that a template stands for: the template's identity and
/// description, the given `enabled` flag, and no secret.
pub open spec fn template_entry(t: TemplateView, enabled: bool) -> ServerView {
    ServerView {
        id: t.id,
        name: t.name,
        description: t.description,
        endpoint: t.endpoint,
        api_key: None,
        enabled,
    }
}

impl RecommendedServer {
    /// Builds the server entry for this template. The entry has no API key.
    pub fn to_mcp_server(&self, enabled: bool) -> (r: McpServer)
        ensures
            r@ == template_entry(self@, enabled),
    {
        McpServer {
            id: self.id.clone(),
            name: self.name.clone(),
            description: clone_opt_text(&self.description),
            endpoint: self.endpoint.clone(),
            api_key: None,
            enabled,
        }
    }
}

/// The built-in catalog: a local default and three hosted services.
pub open spec fn builtin_catalog() -> Seq<TemplateView> {
    seq![
        TemplateView {
            id: "default"@,
            name: "Default MCP Server"@,
            description: Some("로컬 개발용 기본 MCP 서버"@),
            endpoint: "http://localhost:3001"@,
            homepage: None,
            category: Some("로컬"@),
            api_key_required: false,
            default_enabled: true,
        },
        TemplateView {
            id: "anthropic"@,
            name: "Anthropic MCP"@,
            description: Some("엔터프라이즈 워크플로우용 공식 MCP"@),
            endpoint: "https://api.anthropic.com/mcp"@,
            homepage: Some("https://docs.anthropic.com"@),
            category: Some("클라우드"@),
            api_key_required: true,
            default_enabled: false,
        },
        TemplateView {
            id: "openai"@,
            name: "OpenAI MCP"@,
            description: Some("GPT 기반 자동화 및 도구 연동에 적합"@),
            endpoint: "https://api.openai.com/v1/mcp"@,
            homepage: Some("https://platform.openai.com/docs"@),
            category: Some("클라우드"@),
            api_key_required: true,
            default_enabled: false,
        },
        TemplateView {
            id: "openrouter"@,
            name: "OpenRouter Community MCP"@,
            description: Some("여러 LLM 공급자를 하나로 통합한 커뮤니티 MCP"@),
            endpoint: "https://api.openrouter.ai/mcp"@,
            homepage: Some("https://openrouter.ai"@),
            category: Some("커뮤니티"@),
            api_key_required: true,
            default_enabled: false,
        },
    ]
}

/// The views of a list of templates, in order.
pub open spec fn template_views(v: Seq<RecommendedServer>) -> Seq<TemplateView> {
    v.map_values(|t: RecommendedServer| t@)
}

/// The templates that the catalog is seeded with when it is empty.
pub fn default_recommended_servers() -> (r: Vec<RecommendedServer>)
    ensures
        template_views(r@) == builtin_catalog(),
{
    let mut servers: Vec<RecommendedServer> = Vec::new();
    servers.push(
        RecommendedServer {
            id: "default".to_string(),
            name: "Default MCP Server".to_string(),
            description: Some("로컬 개발용 기본 MCP 서버".to_string()),
            endpoint: "http://localhost:3001".to_string(),
            homepage: None,
            category: Some("로컬".to_string()),
            api_key_required: false,
            default_enabled: true,
        },
    );
    servers.push(
        RecommendedServer {
            id: "anthropic".to_string(),
            name: "Anthropic MCP".to_string(),
            description: Some("엔터프라이즈 워크플로우용 공식 MCP".to_string()),
            endpoint: "https://api.anthropic.com/mcp".to_string(),
            homepage: Some("https://docs.anthropic.com".to_string()),
            category: Some("클라우드".to_string()),
            api_key_required: true,
            default_enabled: false,
        },
    );
    servers.push(
        RecommendedServer {
            id: "openai".to_string(),
            name: "OpenAI MCP".to_string(),
            description: Some("GPT 기반 자동화 및 도구 연동에 적합".to_string()),
            endpoint: "https://api.openai.com/v1/mcp".to_string(),
            homepage: Some("https://platform.openai.com/docs".to_string()),
            category: Some("클라우드".to_string()),
            api_key_required: true,
            default_enabled: false,
        },
    );
    servers.push(
        RecommendedServer {
            id: "openrouter".to_string(),
            name: "OpenRouter Community MCP".to_string(),
            description: Some("여러 LLM 공급자를 하나로 통합한 커뮤니티 MCP".to_string()),
            endpoint: "https://api.openrouter.ai/mcp".to_string(),
            homepage: Some("https://openrouter.ai".to_string()),
            category: Some("커뮤니티".to_string()),
            api_key_required: true,
            default_enabled: false,
        },
    );
    assert(template_views(servers@) =~= builtin_catalog());
    servers
}

/// An instant in UTC: whole seconds since the Unix epoch and the nanoseconds
/// past that second. Within a leap second `nanos` runs past 999,999,999.
#[derive(Debug, Clone, Copy, PartialEq, Eq, Structural)]
pub struct Timestamp {
    pub secs: i64,
    pub nanos: u32,
}

/// What a [`ProjectOverride`] is, as plain values.
pub struct OverrideView {
    pub project: Seq<char>,
    pub server_id: Seq<char>,
    pub last_synced_at: Option<Timestamp>,
}

/// The server that one project uses in place of the default. Its identity
/// is `project`.
#[derive(Debug)]
pub struct ProjectOverride {
    pub project: String,
    pub server_id: String,
    pub last_synced_at: Option<Timestamp>,
}

impl View for ProjectOverride {
    type V = OverrideView;

    open spec fn view(&self) -> OverrideView {
        OverrideView {
            project: self.project@,
            server_id: self.server_id@,
            last_synced_at: self.last_synced_at,
        }
    }
}

impl Clone for ProjectOverride {
    fn clone(&self) -> (r: Self)
        ensures
            r@ == self@,
    {
        ProjectOverride {
            project: self.project.clone(),
            server_id: self.server_id.clone(),
            last_synced_at: self.last_synced_at,
        }
    }
}

/// Whether two optional instants are the same.
fn opt_time_eq(a: &Option<Timestamp>, b: &Option<Timestamp>) -> (r: bool)
    ensures
        r == (*a == *b),
{
    match a {
        Some(x) => match b {
            Some(y) => x.secs == y.secs && x.nanos == y.nanos,
            None => false,
        },
        None => b.is_none(),
    }
}

impl PartialEq for ProjectOverride {
    fn eq(&self, other: &Self) -> (r: bool) {
        self.project == other.project && self.server_id == other.server_id && opt_time_eq(
            &self.last_synced_at,
            &other.last_synced_at,
        )
    }
}

impl vstd::std_specs::cmp::PartialEqSpecImpl for ProjectOverride {
    open spec fn obeys_eq_spec() -> bool {
        true
    }

    open spec fn eq_spec(&self, other: &Self) -> bool {
        self@ == other@
    }
}

/// What a [`McpSettings`] is, as plain values: the two sequences in order.
pub struct SettingsView {
    pub servers: Seq<ServerView>,
    pub project_overrides: Seq<OverrideView>,
}

/// The views of a list of server entries, in order.
pub open spec fn server_views(v: Seq<McpServer>) -> Seq<ServerView> {
    v.map_values(|s: McpServer| s@)
}

/// The views of a list of project overrides, in order.
pub open spec fn override_views(v: Seq<ProjectOverride>) -> Seq<OverrideView> {
    v.map_values(|o: ProjectOverride| o@)
}

/// A settings value: the server entries and the project overrides, both in
/// order. Two settings values are equal when both sequences are equal
/// element for element.
#[derive(Debug)]
pub struct McpSettings {
    pub servers: Vec<McpServer>,
    pub project_overrides: Vec<ProjectOverride>,
}

impl View for McpSettings {
    type V = SettingsView;

    open spec fn view(&self) -> SettingsView {
        SettingsView {
            servers: server_views(self.servers@),
            project_overrides: override_views(self.project_overrides@),
        }
    }
}

/// A copy of a list of server entries.
pub(crate) fn clone_servers(v: &Vec<McpServer>) -> (r: Vec<McpServer>)
    ensures
        server_views(r@) == server_views(v@),
{
    let mut out: Vec<McpServer> = Vec::new();
    let mut i: usize = 0;
    while i < v.len()
        invariant
            i <= v.len(),
            out.len() == i,
            forall|k: int| 0 <= k < i ==> out@[k]@ == v@[k]@,
        decreases v.len() - i,
    {
        out.push(v[i].clone());
        i = i + 1;
    }
    assert(server_views(out@) =~= server_views(v@));
    out
}

/// A copy of a list of project overrides.
pub(crate) fn clone_overrides(v: &Vec<ProjectOverride>) -> (r: Vec<ProjectOverride>)
    ensures
        override_views(r@) == override_views(v@),
{
    let mut out: Vec<ProjectOverride> = Vec::new();
    let mut i: usize = 0;
    while i < v.len()
        invariant
            i <= v.len(),
            out.len() == i,
            forall|k: int| 0 <= k < i ==> out@[k]@ == v@[k]@,
        decreases v.len() - i,
    {
        out.push(v[i].clone());
        i = i + 1;
    }
    assert(override_views(out@) =~= override_views(v@));
    out
}

/// Whether two lists of server entries are equal element for element.
fn servers_eq(a: &Vec<McpServer>, b: &Vec<McpServer>) -> (r: bool)
    ensures
        r == (server_views(a@) == server_views(b@)),
{
    if a.len() != b.len() {
        assert(server_views(a@).len() != server_views(b@).len());
        return false;
    }
    let mut i: usize = 0;
    while i < a.len()
        invariant
            i <= a.len(),
            a.len() == b.len(),
            forall|k: int| 0 <= k < i ==> a@[k]@ == b@[k]@,
        decreases a.len() - i,
    {
        if !(a[i] == b[i]) {
            assert(server_views(a@)[i as int] != server_views(b@)[i as int]);
            return false;
        }
        i = i + 1;
    }
    assert(server_views(a@) =~= server_views(b@));
    true
}

/// Whether two lists of project overrides are equal element for element.
fn overrides_eq(a: &Vec<ProjectOverride>, b: &Vec<ProjectOverride>) -> (r: bool)
    ensures
        r == (override_views(a@) == override_views(b@)),
{
    if a.len() != b.len() {
        assert(override_views(a@).len() != override_views(b@).len());
        return false;
    }
    let mut i: usize = 0;
    while i < a.len()
        invariant
            i <= a.len(),
            a.len() == b.len(),
            forall|k: int| 0 <= k < i ==> a@[k]@ == b@[k]@,
        decreases a.len() - i,
    {
        if !(a[i] == b[i]) {
            assert(override_views(a@)[i as int] != override_views(b@)[i as int]);
            return false;
        }
        i = i + 1;
    }
    assert(override_views(a@) =~= override_views(b@));
    true
}

impl Clone for McpSettings {
    fn clone(&self) -> (r: Self)
        ensures
            r@ == self@,
    {
        McpSettings {
            servers: clone_servers(&self.servers),
            project_overrides: clone_overrides(&self.project_overrides),
        }
    }
}

impl PartialEq for McpSettings {
    fn eq(&self, other: &Self) -> (r: bool) {
        servers_eq(&self.servers, &other.servers) && overrides_eq(
            &self.project_overrides,
            &other.project_overrides,
        )
    }
}

impl vstd::std_specs::cmp::PartialEqSpecImpl for McpSettings {
    open spec fn obeys_eq_spec() -> bool {
        true
    }

    open spec fn eq_spec(&self, other: &Self) -> bool {
        self@ == other@
    }
}

impl Default for McpSettings {
    fn default() -> (r: Self)
        ensures
            r@.servers.len() == 0,
            r@.project_overrides.len() == 0,
    {
        McpSettings { servers: Vec::new(), project_overrides: Vec::new() }
    }
}

/// Whether `i` is the place of the first entry of `servers` with the id `id`.
pub open spec fn is_first_with_id(servers: Seq<ServerView>, id: Seq<char>, i: int) -> bool {
    &&& 0 <= i < servers.len()
    &&& servers[i].id == id
    &&& forall|k: int| 0 <= k < i ==> (#[trigger] servers[k]).id != id
}

/// The place of the first entry with the id `id`, if there is one.
pub open spec fn position_of(servers: Seq<ServerView>, id: Seq<char>) -> Option<int> {
    if exists|i: int| is_first_with_id(servers, id, i) {
        Some(choose|i: int| is_first_with_id(servers, id, i))
    } else {
        None
    }
}

/// The master after a template has been applied. Where an entry with the
/// template's id exists, the first such entry takes the template's name,
/// description and endpoint and the given flag, and keeps its API key. Where
/// none exists, the template's entry is appended, without an API key.
pub open spec fn applied_template(m: SettingsView, t: TemplateView, enabled: bool) -> SettingsView {
    match position_of(m.servers, t.id) {
        Some(i) => SettingsView {
            servers: m.servers.update(
                i,
                ServerView { api_key: m.servers[i].api_key, ..template_entry(t, enabled) },
            ),
            project_overrides: m.project_overrides,
        },
        None => SettingsView {
            servers: m.servers.push(template_entry(t, enabled)),
            project_overrides: m.project_overrides,
        },
    }
}

/// The first entry with a given id is where `position_of` says, and there
/// is none exactly when no entry has the id.
pub proof fn lemma_position_of(servers: Seq<ServerView>, id: Seq<char>)
    ensures
        match position_of(servers, id) {
            Some(i) => is_first_with_id(servers, id, i),
            None => forall|k: int| 0 <= k < servers.len() ==> (#[trigger] servers[k]).id != id,
        },
        forall|i: int| is_first_with_id(servers, id, i) ==> position_of(servers, id) == Some(i),
{
    if exists|i: int| is_first_with_id(servers, id, i) {
        let c = choose|i: int| is_first_with_id(servers, id, i);
        assert forall|i: int| is_first_with_id(servers, id, i) implies i == c by {
            if i < c {
                assert(servers[i].id != id);
            } else if c < i {
                assert(servers[c].id != id);
            }
        }
    } else {
        assert forall|k: int| 0 <= k < servers.len() implies (#[trigger] servers[k]).id != id by {
            lemma_no_first_means_none(servers, id, k);
        }
    }
}

proof fn lemma_no_first_means_none(servers: Seq<ServerView>, id: Seq<char>, k: int)
    requires
        0 <= k < servers.len(),
        !exists|i: int| is_first_with_id(servers, id, i),
    ensures
        servers[k].id != id,
    decreases k,
{
    if servers[k].id == id {
        if forall|j: int| 0 <= j < k ==> (#[trigger] servers[j]).id != id {
            assert(is_first_with_id(servers, id, k));
        } else {
            let j = choose|j: int| 0 <= j < k && (#[trigger] servers[j]).id == id;
            lemma_no_first_means_none(servers, id, j);
        }
    }
}

impl McpSettings {
    /// Applies a template onto these settings: the entry with the template's
    /// id is brought up to the template and keeps the API key it had, or, if
    /// there is none, the template's entry is appended without a key.
    pub fn apply_recommended_server(&mut self, server: &RecommendedServer, enabled: bool)
        ensures
            final(self)@ == applied_template(old(self)@, server@, enabled),
    {
        proof {
            lemma_position_of(self@.servers, server@.id);
        }
        let mut i: usize = 0;
        while i < self.servers.len()
            invariant
                i <= self.servers.len(),
                *self == *old(self),
                forall|k: int| 0 <= k < i ==> self.servers@[k].id@ != server.id@,
            decreases self.servers.len() - i,
        {
            if self.servers[i].id == server.id {
                let mut entry = server.to_mcp_server(enabled);
                entry.api_key = clone_opt_text(&self.servers[i].api_key);
                assert(is_first_with_id(self@.servers, server@.id, i as int));
                self.servers.set(i, entry);
                assert(self@.servers =~= old(self)@.servers.update(i as int, entry@));
                return ;
            }
            i = i + 1;
        }
        self.servers.push(server.to_mcp_server(enabled));
        assert(self@.servers =~= old(self)@.servers.push(template_entry(server@, enabled)));
    }
}

/// Applying one template twice, whatever the two `enabled` flags, leaves the
/// entry where the first application put it, with the API key that the first
/// application left there; only the flag follows the second application.
pub proof fn lemma_reapply_keeps_api_key(m: SettingsView, t: TemplateView, first: bool, second: bool)
    ensures
        ({
            let once = applied_template(m, t, first);
            let twice = applied_template(once, t, second);
            &&& position_of(once.servers, t.id) is Some
            &&& position_of(twice.servers, t.id) == position_of(once.servers, t.id)
            &&& twice.servers.len() == once.servers.len()
            &&& twice.servers == once.servers.update(
                position_of(once.servers, t.id)->0,
                ServerView { enabled: second, ..once.servers[position_of(once.servers, t.id)->0] },
            )
            &&& twice.servers[position_of(once.servers, t.id)->0].api_key
                == once.servers[position_of(once.servers, t.id)->0].api_key
            &&& once.servers[position_of(once.servers, t.id)->0].api_key == match position_of(
                m.servers,
                t.id,
            ) {
                Some(i) => m.servers[i].api_key,
                None => None,
            }
            &&& twice.project_overrides == m.project_overrides
        }),
{
    let once = applied_template(m, t, first);
    lemma_position_of(m.servers, t.id);
    let p: int = match position_of(m.servers, t.id) {
        Some(i) => i,
        None => m.servers.len() as int,
    };
    assert(is_first_with_id(once.servers, t.id, p));
    lemma_position_of(once.servers, t.id);
    let twice = applied_template(once, t, second);
    assert(is_first_with_id(twice.servers, t.id, p));
    lemma_position_of(twice.servers, t.id);
    assert(twice.servers =~= once.servers.update(
        p,
        ServerView { enabled: second, ..once.servers[p] },
    ));
}

/// A tool with its configuration file and the settings read from it.
#[derive(Debug)]
pub struct ToolConfiguration {
    pub name: String,
    pub version: Option<String>,
    pub config_path: String,
    pub settings: McpSettings,
}

impl ToolConfiguration {
    /// A tool of unknown version.
    pub fn new(name: String, config_path: String, settings: McpSettings) -> (r: Self)
        ensures
            r.name == name,
            r.version is None,
            r.config_path == config_path,
            r.settings == settings,
    {
        ToolConfiguration { name, version: None, config_path, settings }
    }
}

impl Clone for ToolConfiguration {
    fn clone(&self) -> (r: Self)
        ensures
            r.name@ == self.name@,
            opt_text(r.version) == opt_text(self.version),
            r.config_path@ == self.config_path@,
            r.settings@ == self.settings@,
    {
        ToolConfiguration {
            name: self.name.clone(),
            version: clone_opt_text(&self.version),
            config_path: self.config_path.clone(),
            settings: self.settings.clone(),
        }
    }
}

/// How one reconciliation attempt ended. `Failed` is part of the taxonomy;
/// reconciliation itself never produces it.
#[derive(Debug, Clone, Copy, PartialEq, Eq, Structural)]
pub enum SyncStatus {
    Updated,
    Skipped,
    Failed,
}

/// The record of one reconciliation attempt.
#[derive(Debug)]
pub struct SyncSummary {
    pub tool: String,
    pub status: SyncStatus,
    pub message: String,
    pub synced_at: Timestamp,
}

/// What a [`SyncSummary`] is, as plain values.
pub struct SummaryView {
    pub tool: Seq<char>,
    pub status: SyncStatus,
    pub message: Seq<char>,
    pub synced_at: Timestamp,
}

impl View for SyncSummary {
    type V = SummaryView;

    open spec fn view(&self) -> SummaryView {
        SummaryView {
            tool: self.tool@,
            status: self.status,
            message: self.message@,
            synced_at: self.synced_at,
        }
    }
}

impl Clone for SyncSummary {
    fn clone(&self) -> (r: Self)
        ensures
            r@ == self@,
    {
        SyncSummary {
            tool: self.tool.clone(),
            status: self.status,
            message: self.message.clone(),
            synced_at: self.synced_at,
        }
    }
}

/// A request to reconcile one tool, or all of them.
#[derive(Debug)]
pub struct SyncRequest {
    pub tool: Option<String>,
}

/// A request to replace the master settings.
#[derive(Debug)]
pub struct UpdateMasterRequest {
    pub settings: McpSettings,
}

/// The master settings and the instant of their last change.
#[derive(Debug)]
pub struct MasterConfigResponse {
    pub settings: McpSettings,
    pub updated_at: Timestamp,
}

/// A request to apply a template onto the master. Without `enabled` the
/// template's own default decides.
#[derive(Debug)]
pub struct ImportRecommendedRequest {
    pub server_id: String,
    pub enabled: Option<bool>,
}

} // verus!
