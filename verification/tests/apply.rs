use backend::api::{import_recommended_server, require_recommended_server};
use backend::config::{default_recommended_servers, McpServer, McpSettings, RecommendedServer};
use backend::error::BackendError;

fn template(id: &str, default_enabled: bool) -> RecommendedServer {
    RecommendedServer {
        id: id.to_string(),
        name: "Anthropic MCP".to_string(),
        description: Some("official".to_string()),
        endpoint: "https://api.anthropic.com/mcp".to_string(),
        homepage: Some("https://docs.anthropic.com".to_string()),
        category: Some("cloud".to_string()),
        api_key_required: true,
        default_enabled,
    }
}

fn entry(id: &str, api_key: Option<&str>, enabled: bool) -> McpServer {
    McpServer {
        id: id.to_string(),
        name: "old name".to_string(),
        description: None,
        endpoint: "http://old".to_string(),
        api_key: api_key.map(|k| k.to_string()),
        enabled,
    }
}

fn applied(api_key: Option<&str>, enabled: bool) -> McpServer {
    McpServer {
        id: "anthropic".to_string(),
        name: "Anthropic MCP".to_string(),
        description: Some("official".to_string()),
        endpoint: "https://api.anthropic.com/mcp".to_string(),
        api_key: api_key.map(|k| k.to_string()),
        enabled,
    }
}

#[test]
fn apply_onto_existing_entry_keeps_api_key() {
    let mut master = McpSettings {
        servers: vec![entry("anthropic", Some("secret-123"), false)],
        project_overrides: vec![],
    };
    master.apply_recommended_server(&template("anthropic", false), true);
    assert_eq!(master.servers, vec![applied(Some("secret-123"), true)]);
}

#[test]
fn apply_twice_keeps_api_key_of_first_application() {
    let mut master = McpSettings {
        servers: vec![entry("other", Some("k0"), true), entry("anthropic", Some("secret-123"), false)],
        project_overrides: vec![],
    };
    let tpl = template("anthropic", false);
    master.apply_recommended_server(&tpl, true);
    let after_first = master.clone();
    master.apply_recommended_server(&tpl, false);
    assert_eq!(master.servers.len(), 2);
    assert_eq!(master.servers[1].api_key, after_first.servers[1].api_key);
    assert_eq!(master.servers[1].api_key, Some("secret-123".to_string()));
    assert_eq!(master.servers[1], applied(Some("secret-123"), false));
    assert_eq!(master.servers[0], entry("other", Some("k0"), true));
}

#[test]
fn apply_twice_on_new_entry_keeps_it_without_key() {
    let mut master = McpSettings::default();
    let tpl = template("anthropic", false);
    master.apply_recommended_server(&tpl, true);
    master.apply_recommended_server(&tpl, false);
    assert_eq!(master.servers, vec![applied(None, false)]);
}

#[test]
fn apply_appends_new_entry_without_api_key() {
    let mut master = McpSettings {
        servers: vec![entry("default", Some("k"), true)],
        project_overrides: vec![],
    };
    master.apply_recommended_server(&template("anthropic", false), true);
    assert_eq!(master.servers, vec![entry("default", Some("k"), true), applied(None, true)]);
}

#[test]
fn apply_changes_only_the_first_entry_of_that_id() {
    let mut master = McpSettings {
        servers: vec![entry("anthropic", Some("one"), false), entry("anthropic", Some("two"), false)],
        project_overrides: vec![],
    };
    master.apply_recommended_server(&template("anthropic", false), true);
    assert_eq!(
        master.servers,
        vec![applied(Some("one"), true), entry("anthropic", Some("two"), false)]
    );
}

#[test]
fn to_mcp_server_takes_template_fields_and_no_key() {
    let server = template("anthropic", true).to_mcp_server(false);
    assert_eq!(server, applied(None, false));
}

#[test]
fn import_defaults_to_template_flag() {
    let mut master = McpSettings::default();
    import_recommended_server(&mut master, &template("anthropic", true), None);
    assert_eq!(master.servers, vec![applied(None, true)]);
    let mut master = McpSettings::default();
    import_recommended_server(&mut master, &template("anthropic", false), None);
    assert_eq!(master.servers, vec![applied(None, false)]);
}

#[test]
fn import_follows_requested_flag() {
    let mut master = McpSettings {
        servers: vec![entry("anthropic", Some("secret-123"), true)],
        project_overrides: vec![],
    };
    import_recommended_server(&mut master, &template("anthropic", true), Some(false));
    assert_eq!(master.servers, vec![applied(Some("secret-123"), false)]);
}

#[test]
fn known_template_is_handed_on() {
    let r = require_recommended_server(Some(template("anthropic", true)), &"anthropic".to_string());
    assert_eq!(r.ok(), Some(template("anthropic", true)));
}

#[test]
fn unknown_template_is_not_found() {
    match require_recommended_server(None, &"nope".to_string()) {
        Err(BackendError::NotFound(what)) => assert_eq!(what, "recommended server 'nope'"),
        other => panic!("unexpected: {other:?}"),
    }
}

#[test]
fn default_server_is_local_fallback() {
    let d = McpServer::default();
    assert_eq!(
        d,
        McpServer {
            id: "default".to_string(),
            name: "Default MCP Server".to_string(),
            description: Some("Fallback local MCP server".to_string()),
            endpoint: "http://localhost:3001".to_string(),
            api_key: None,
            enabled: true,
        }
    );
}

#[test]
fn builtin_catalog_has_four_templates() {
    let catalog = default_recommended_servers();
    let ids: Vec<&str> = catalog.iter().map(|t| t.id.as_str()).collect();
    assert_eq!(ids, vec!["default", "anthropic", "openai", "openrouter"]);
    assert_eq!(
        catalog[0],
        RecommendedServer {
            id: "default".to_string(),
            name: "Default MCP Server".to_string(),
            description: Some("로컬 개발용 기본 MCP 서버".to_string()),
            endpoint: "http://localhost:3001".to_string(),
            homepage: None,
            category: Some("로컬".to_string()),
            api_key_required: false,
            default_enabled: true,
        }
    );
    assert_eq!(
        catalog[1],
        RecommendedServer {
            id: "anthropic".to_string(),
            name: "Anthropic MCP".to_string(),
            description: Some("엔터프라이즈 워크플로우용 공식 MCP".to_string()),
            endpoint: "https://api.anthropic.com/mcp".to_string(),
            homepage: Some("https://docs.anthropic.com".to_string()),
            category: Some("클라우드".to_string()),
            api_key_required: true,
            default_enabled: false,
        }
    );
    assert_eq!(catalog[2].endpoint, "https://api.openai.com/v1/mcp");
    assert_eq!(catalog[2].name, "OpenAI MCP");
    assert_eq!(catalog[3].endpoint, "https://api.openrouter.ai/mcp");
    assert_eq!(catalog[3].category, Some("커뮤니티".to_string()));
    assert!(catalog.iter().skip(1).all(|t| t.api_key_required && !t.default_enabled));
}
