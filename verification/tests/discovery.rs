use backend::sync::{
    detect_tool, discover_tools, find_tool, mcp_file_name, select_tools, tool_config_dir,
    ToolRecord, WalkedEntry, MAX_DEPTH,
};

fn dir(path: &str, depth: usize) -> WalkedEntry {
    let name = path.rsplit('/').next().unwrap_or("").to_string();
    WalkedEntry { path: path.to_string(), depth, is_file: false, file_name: name, parent_name: None }
}

fn file(path: &str, depth: usize) -> WalkedEntry {
    let mut parts = path.rsplit('/');
    let name = parts.next().unwrap_or("").to_string();
    let parent = parts.next().map(|p| p.to_string());
    WalkedEntry { path: path.to_string(), depth, is_file: true, file_name: name, parent_name: parent }
}

fn pairs(tools: &[ToolRecord]) -> Vec<(String, String)> {
    tools.iter().map(|t| (t.name.clone(), t.config_path.clone())).collect()
}

fn tool(name: &str, path: &str) -> ToolRecord {
    ToolRecord { name: name.to_string(), config_path: path.to_string() }
}

#[test]
fn discovery_finds_the_two_tools() {
    let walk = vec![
        dir("root", 0),
        dir("root/toolA", 1),
        file("root/toolA/mcp.json", 2),
        dir("root/toolB", 1),
        file("root/toolB/mcp.json", 2),
    ];
    assert_eq!(
        pairs(&discover_tools(&walk)),
        vec![
            ("toolA".to_string(), "root/toolA/mcp.json".to_string()),
            ("toolB".to_string(), "root/toolB/mcp.json".to_string()),
        ]
    );
}

#[test]
fn discovery_skips_other_files_and_directories() {
    let walk = vec![
        dir("root/mcp.json", 1),
        file("root/toolA/other.json", 2),
        file("root/toolA/MCP.JSON", 2),
        file("root/toolA/mcp.json.bak", 2),
    ];
    assert!(discover_tools(&walk).is_empty());
    assert!(discover_tools(&vec![]).is_empty());
}

#[test]
fn discovery_stops_two_levels_below_the_root() {
    assert_eq!(MAX_DEPTH, 2);
    assert!(detect_tool(&file("root/a/b/mcp.json", 3)).is_none());
    assert!(detect_tool(&file("root/a/mcp.json", 2)).is_some());
    assert!(detect_tool(&file("root/mcp.json", 1)).is_some());
}

#[test]
fn tool_without_a_named_directory_is_unknown() {
    let entry = WalkedEntry {
        path: "mcp.json".to_string(),
        depth: 0,
        is_file: true,
        file_name: "mcp.json".to_string(),
        parent_name: None,
    };
    let found = detect_tool(&entry).unwrap();
    assert_eq!(found.name, "unknown");
    assert_eq!(found.config_path, "mcp.json");
}

#[test]
fn conventions_of_the_tree() {
    assert_eq!(tool_config_dir(), "../tool_configs");
    assert_eq!(mcp_file_name(), "mcp.json");
}

#[test]
fn without_a_name_all_tools_are_selected() {
    let tools = vec![tool("a", "pa"), tool("b", "pb")];
    assert_eq!(pairs(&select_tools(&tools, &None)), pairs(&tools));
}

#[test]
fn with_a_name_only_that_tool_is_selected() {
    let tools = vec![tool("a", "pa"), tool("b", "pb"), tool("a", "pa2")];
    assert_eq!(
        pairs(&select_tools(&tools, &Some("a".to_string()))),
        vec![("a".to_string(), "pa".to_string()), ("a".to_string(), "pa2".to_string())]
    );
    assert!(select_tools(&tools, &Some("zzz".to_string())).is_empty());
}

#[test]
fn first_tool_of_a_name_is_found() {
    let tools = vec![tool("a", "pa"), tool("b", "pb"), tool("b", "pb2")];
    let found = find_tool(&tools, &"b".to_string()).unwrap();
    assert_eq!(found.config_path, "pb");
    assert!(find_tool(&tools, &"c".to_string()).is_none());
}
