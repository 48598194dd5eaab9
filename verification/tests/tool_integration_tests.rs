use mcp_rag::json::JsonValue;
use mcp_rag::knowledge_store::{
    auto_index_notice, auto_indexing_enabled, cancel_target, clear_started_message, cleared_message, context_for_name,
    context_for_path, context_to_update_by_name, context_to_update_by_path, context_with_id, indexing_log_level,
    indexing_started_message, path_missing_message, refresh_mcp_tools_message, short_id_outcome, short_operation_id,
    CancelTarget, KnowledgeError, McpIndexingLogLevel, cleanup_message, context_to_replace, duplicate_mcp_contexts,
};
use mcp_rag::mcp_tool_integration::{
    convert_mcp_tool_to_tool_spec, convert_mcp_tools, integrate_mcp_tools_into_config, search_limit, specs_by_name,
    ToolConfig, ToolOrigin, ToolSpec,
};
use mcp_rag::types::KnowledgeContext;

fn s(x: &str) -> JsonValue {
    JsonValue::String(x.to_string())
}

fn obj(pairs: Vec<(&str, JsonValue)>) -> JsonValue {
    JsonValue::Object(pairs.into_iter().map(|(k, v)| (k.to_string(), v)).collect())
}

fn native(name: &str) -> ToolSpec {
    ToolSpec {
        name: name.to_string(),
        description: "native tool".to_string(),
        input_schema: obj(vec![]),
        tool_origin: ToolOrigin::Native,
    }
}

fn context(id: &str, name: &str, path: &str) -> KnowledgeContext {
    KnowledgeContext::new(id.to_string(), name, "d", true, Some(path.to_string()), 0)
}

#[test]
fn an_mcp_tool_becomes_a_tool_spec() {
    let tool = obj(vec![
        ("name", s("get_weather")),
        ("description", s("Weather now")),
        ("input_schema", obj(vec![("type", s("object"))])),
    ]);
    let spec = convert_mcp_tool_to_tool_spec(&tool).unwrap().unwrap();
    assert_eq!(spec.name, "get_weather");
    assert_eq!(spec.description, "Weather now");
    assert_eq!(spec.tool_origin, ToolOrigin::Mcp);
    assert_eq!(spec.input_schema.get_str("type"), Some("object"));
}

#[test]
fn missing_fields_take_their_defaults() {
    let spec = convert_mcp_tool_to_tool_spec(&obj(vec![("name", s("ping"))])).unwrap().unwrap();
    assert_eq!(spec.description, "");
    assert!(matches!(&spec.input_schema, JsonValue::Object(m) if m.is_empty()));
    assert_eq!(
        convert_mcp_tool_to_tool_spec(&obj(vec![("description", s("x"))])).err(),
        Some("Tool missing name".to_string())
    );
}

#[test]
fn integration_adds_named_tools_and_keeps_the_rest() {
    let mut config = ToolConfig::new();
    config.insert("fs_read".to_string(), native("fs_read"));
    config.insert("weather".to_string(), native("weather"));
    let found = vec![
        obj(vec![("name", s("weather")), ("description", s("from mcp"))]),
        obj(vec![("description", s("nameless"))]),
        obj(vec![("name", s("git_log"))]),
    ];
    let out = integrate_mcp_tools_into_config(config, Ok(found)).unwrap();
    assert_eq!(out.len(), 3);
    assert_eq!(out.get("fs_read").unwrap().tool_origin, ToolOrigin::Native);
    assert_eq!(out.get("weather").unwrap().tool_origin, ToolOrigin::Mcp);
    assert_eq!(out.get("weather").unwrap().description, "from mcp");
    assert_eq!(out.get("git_log").unwrap().name, "git_log");
    assert!(out.get("nameless").is_none());
}

#[test]
fn a_failed_search_leaves_the_config_alone() {
    let mut config = ToolConfig::new();
    config.insert("fs_read".to_string(), native("fs_read"));
    let out = integrate_mcp_tools_into_config(config, Err("no store".to_string())).unwrap();
    assert_eq!(out.len(), 1);
    assert!(out.get("fs_read").is_some());
}

#[test]
fn tool_config_insert_replaces() {
    let mut config = ToolConfig::new();
    assert_eq!(config.len(), 0);
    config.insert("a".to_string(), native("a"));
    config.insert("a".to_string(), native("b"));
    assert_eq!(config.len(), 1);
    assert_eq!(config.get("a").unwrap().name, "b");
}

#[test]
fn search_results_convert_in_order_or_fail() {
    let tools = vec![obj(vec![("name", s("a"))]), obj(vec![("name", s("b"))])];
    let specs = convert_mcp_tools(&tools).unwrap();
    assert_eq!(specs.len(), 2);
    assert_eq!(specs[1].name, "b");
    let bad = vec![obj(vec![("name", s("a"))]), obj(vec![])];
    assert_eq!(convert_mcp_tools(&bad).err(), Some("Tool missing name".to_string()));

    let by_name = specs_by_name(vec![native("x"), native("y"), native("x")]);
    assert_eq!(by_name.len(), 2);
}

#[test]
fn search_limit_defaults_to_ten() {
    assert_eq!(search_limit(None), 10);
    assert_eq!(search_limit(Some(50)), 50);
}

#[test]
fn cancelling_needs_running_operations() {
    let none: Vec<String> = vec![];
    assert_eq!(cancel_target("abc", &none).err(), Some("No active operations found".to_string()));
    let ops = vec!["12345678".to_string()];
    assert!(matches!(cancel_target("1234", &ops), Ok(CancelTarget::ShortId)));
    let expected = uuid::Uuid::parse_str("550e8400-e29b-41d4-a716-446655440000").unwrap().as_u128();
    assert!(matches!(
        cancel_target("550e8400-e29b-41d4-a716-446655440000", &ops),
        Ok(CancelTarget::Operation(v)) if v == expected
    ));
    assert!(matches!(
        cancel_target("URN:UUID:550E8400-E29B-41D4-A716-446655440000", &ops),
        Ok(CancelTarget::Operation(v)) if v == expected
    ));
    assert!(matches!(
        cancel_target("{550e8400-e29b-41d4-a716-446655440000}", &ops),
        Ok(CancelTarget::Operation(v)) if v == expected
    ));
    assert!(matches!(cancel_target("550e8400e29b41d4a716446655440000", &ops), Ok(CancelTarget::Operation(v)) if v == expected));
    assert!(matches!(cancel_target("550e8400-e29b-41d4-a716-44665544000g", &ops), Ok(CancelTarget::ShortId)));
    assert_eq!(short_id_outcome("zz", Some(7), &listed_ops()).unwrap(), 7);
    let listed = vec!["aaaa1111 (Indexing 'x')".to_string(), "bbbb2222".to_string()];
    assert_eq!(
        short_id_outcome("zz", None, &listed).err(),
        Some("No operation found matching ID: zz\nAvailable operations:\naaaa1111 (Indexing 'x')\nbbbb2222".to_string())
    );
}

#[test]
fn operation_ids_show_eight_characters() {
    let id = uuid::Uuid::parse_str("550e8400-e29b-41d4-a716-446655440000").unwrap();
    assert_eq!(short_operation_id(id.as_u128()), "550e8400");
    assert_eq!(short_operation_id(0x0000_00ab_0000_0000_0000_0000_0000_0000), "000000ab");
    assert_eq!(short_operation_id(id.as_u128()), id.to_string()[..8].to_string());
    assert_eq!(
        indexing_started_message("docs", "/home/docs", "550e8400-e29b-41d4-a716-446655440000"),
        "🚀 Started indexing 'docs'\n📁 Path: /home/docs\n🆔 Operation ID: 550e8400."
    );
    assert_eq!(
        clear_started_message("550e8400-e29b"),
        "🚀 Started clearing all contexts in background.\n📊 Use 'knowledge status' to check progress.\n🆔 Operation ID: 550e8400"
    );
    assert_eq!(cleared_message(42), "✅ Successfully cleared 42 knowledge base entries");
    assert_eq!(path_missing_message("/nope"), "❌ Path does not exist: /nope");
    assert_eq!(refresh_mcp_tools_message(), "No MCP configuration found or no servers to index");
}

#[test]
fn contexts_are_found_or_reported_missing() {
    let c = context("id-1", "docs", "/docs");
    assert_eq!(context_for_path("/docs", Some(&c)).unwrap().name, "docs");
    assert_eq!(context_for_path("/x", None).err(), Some("No context found with path '/x'".to_string()));
    assert_eq!(context_for_name("n", None).err(), Some("No context found with name 'n'".to_string()));
    assert_eq!(context_to_update_by_name("n", None).err(), Some("Context with name 'n' not found".to_string()));
    let none: Vec<String> = vec![];
    assert_eq!(
        context_to_update_by_path("/x", None, &none).err(),
        Some("No contexts found. Add a context first with 'knowledge add <name> <path>'".to_string())
    );
    let paths = vec!["/a".to_string(), "/b".to_string()];
    assert_eq!(
        context_to_update_by_path("/x", None, &paths).err(),
        Some("No context found with path '/x'\nAvailable contexts:\n/a\n/b".to_string())
    );
    let all = vec![context("id-1", "first", "/1"), context("id-2", "second", "/2"), context("id-2", "third", "/3")];
    assert_eq!(context_with_id(&all, "id-2").unwrap().name, "second");
    assert_eq!(context_with_id(&all, "id-9").err(), Some("Context 'id-9' not found".to_string()));
}

#[test]
fn indexing_settings_have_defaults() {
    assert!(auto_indexing_enabled(false, None));
    assert!(auto_indexing_enabled(false, Some(true)));
    assert!(!auto_indexing_enabled(false, Some(false)));
    // With selective loading on, its loader discovers the servers: no automatic indexing.
    assert!(!auto_indexing_enabled(true, None));
    assert!(!auto_indexing_enabled(true, Some(true)));
    assert_eq!(indexing_log_level(None), McpIndexingLogLevel::Info);
    assert_eq!(indexing_log_level(Some("DEBUG")), McpIndexingLogLevel::Debug);
}

#[test]
fn auto_index_notices_follow_the_log_level() {
    let ok: Result<String, String> = Ok("done".to_string());
    let err: Result<String, String> = Err("broke".to_string());
    assert_eq!(auto_index_notice(&ok, McpIndexingLogLevel::Info), Some((false, "🔧 MCP Auto-indexing: done".to_string())));
    assert_eq!(auto_index_notice(&ok, McpIndexingLogLevel::Warn), None);
    assert_eq!(auto_index_notice(&err, McpIndexingLogLevel::Error), Some((true, "❌ MCP Auto-indexing failed: broke".to_string())));
    assert_eq!(auto_index_notice(&err, McpIndexingLogLevel::Silent), None);
    assert!(McpIndexingLogLevel::Debug.reports(McpIndexingLogLevel::Info));
    assert!(!McpIndexingLogLevel::Warn.reports(McpIndexingLogLevel::Info));
}

#[test]
fn knowledge_errors_read_as_client_errors() {
    assert_eq!(KnowledgeError::ClientError("down".to_string()).message(), "Client error: down");
}

fn listed_ops() -> Vec<String> {
    vec!["aaaa1111".to_string()]
}

fn stamped(id: &str, name: &str, created_at: i64) -> KnowledgeContext {
    KnowledgeContext {
        id: id.to_string(),
        name: name.to_string(),
        description: "MCP tools".to_string(),
        created_at,
        updated_at: created_at,
        persistent: true,
        source_path: None,
        item_count: 1,
    }
}

#[test]
fn cleanup_keeps_the_most_recent_context_of_each_server() {
    let contexts = vec![
        stamped("a", "mcp_XcodeBuildMCP", 10),
        stamped("b", "mcp_seqthink", 5),
        stamped("c", "mcp_XcodeBuildMCP", 30),
        stamped("d", "mcp_XcodeBuildMCP", 20),
        stamped("e", "mcp_seqthink", 5),
        stamped("f", "rules", 1),
        stamped("g", "rules", 2),
    ];
    assert_eq!(duplicate_mcp_contexts(&contexts), vec![0, 3, 4]);
    assert_eq!(
        cleanup_message(3, 2),
        "✅ Cleaned up 3 duplicate contexts, kept 2 unique server contexts"
    );
    assert!(duplicate_mcp_contexts(&vec![]).is_empty());
}

#[test]
fn refresh_replaces_the_context_of_the_same_server() {
    let contexts = vec![stamped("a", "mcp_git", 1), stamped("b", "mcp_fetch", 2)];
    assert_eq!(context_to_replace(&contexts, "mcp_fetch", "MCP tools"), Some(1));
    assert_eq!(context_to_replace(&contexts, "mcp_fetch", "other"), None);
}
