use std::collections::HashMap;
use std::path::PathBuf;

use mcp_rag::json::JsonValue;
use mcp_rag::mcp_error::McpError;
use mcp_rag::mcp_processor::{
    config_scope, connection_operation_name, settle_race, tools_list_answer, ConfigScope, McpDiscoveryService,
    McpServerEntry, McpServerInfo, RaceOutcome, ToolSchemaProcessor, ToolsListResult,
};
use mcp_rag::test_utils::TestData;

fn s(x: &str) -> JsonValue {
    JsonValue::String(x.to_string())
}

fn obj(pairs: Vec<(&str, JsonValue)>) -> JsonValue {
    JsonValue::Object(pairs.into_iter().map(|(k, v)| (k.to_string(), v)).collect())
}

fn arr(items: Vec<JsonValue>) -> JsonValue {
    JsonValue::Array(items)
}

fn server(name: &str, command: &str, timeout: u64) -> McpServerInfo {
    McpServerInfo {
        name: name.to_string(),
        command: command.to_string(),
        args: vec![],
        env: None,
        timeout,
        disabled: false,
        source_scope: "workspace".to_string(),
        source_path: PathBuf::from("/test/path"),
    }
}

#[test]
fn test_tool_schema_processor_create_mcp_contexts() {
    let processor = ToolSchemaProcessor::new();

    let server = McpServerInfo {
        name: "weather-server".to_string(),
        command: "weather-mcp-server".to_string(),
        args: vec!["--port".to_string(), "3000".to_string()],
        env: Some([("API_KEY".to_string(), "test123".to_string())].into()),
        timeout: 45000,
        disabled: false,
        source_scope: "global".to_string(),
        source_path: PathBuf::from("/global/mcp.json"),
    };

    let tools_result = ToolsListResult {
        tools: vec![obj(vec![
            ("name", s("forecast")),
            ("description", s("Get weather forecast")),
            (
                "inputSchema",
                obj(vec![
                    ("type", s("object")),
                    (
                        "properties",
                        obj(vec![
                            ("city", obj(vec![("type", s("string")), ("description", s("City name"))])),
                            ("days", obj(vec![("type", s("number")), ("description", s("Number of days"))])),
                        ]),
                    ),
                    ("required", arr(vec![s("city")])),
                ]),
            ),
        ])],
        next_cursor: None,
    };

    let contexts = processor.create_mcp_contexts(&server, &tools_result).unwrap();

    assert_eq!(contexts.len(), 1);
    let context = &contexts[0];
    assert_eq!(context.server_name, "weather_server");
    assert_eq!(context.tool_name, "forecast");
    assert_eq!(context.description, "Get weather forecast");
    assert_eq!(context.parameters.len(), 2);

    let city_param = context.parameters.iter().find(|p| p.name == "city").unwrap();
    assert_eq!(city_param.param_type, "string");
    assert_eq!(city_param.description, Some("City name".to_string()));
    assert!(city_param.required);

    let days_param = context.parameters.iter().find(|p| p.name == "days").unwrap();
    assert_eq!(days_param.param_type, "number");
    assert!(!days_param.required);
}

#[test]
fn test_tool_schema_processor_parameter_extraction() {
    let processor = ToolSchemaProcessor::new();

    let tool_with_complex_params = obj(vec![
        ("name", s("complex_tool")),
        ("description", s("A tool with complex parameters")),
        (
            "inputSchema",
            obj(vec![
                ("type", s("object")),
                (
                    "properties",
                    obj(vec![
                        (
                            "required_string",
                            obj(vec![("type", s("string")), ("description", s("A required string parameter"))]),
                        ),
                        (
                            "optional_number",
                            obj(vec![("type", s("number")), ("description", s("An optional number parameter"))]),
                        ),
                        ("boolean_flag", obj(vec![("type", s("boolean"))])),
                    ]),
                ),
                ("required", arr(vec![s("required_string")])),
            ]),
        ),
    ]);

    let params_text = processor.extract_parameters_text(&tool_with_complex_params);
    assert!(params_text.contains("required_string (string, required)"));
    assert!(params_text.contains("optional_number (number)"));
    assert!(params_text.contains("boolean_flag (boolean)"));
    assert!(!params_text.contains("boolean_flag (boolean, required)"));

    let structured_params = processor.extract_tool_parameters(&tool_with_complex_params);
    assert_eq!(structured_params.len(), 3);

    let required_param = structured_params.iter().find(|p| p.name == "required_string").unwrap();
    assert!(required_param.required);
    assert_eq!(required_param.description, Some("A required string parameter".to_string()));

    let optional_param = structured_params.iter().find(|p| p.name == "optional_number").unwrap();
    assert!(!optional_param.required);

    let boolean_param = structured_params.iter().find(|p| p.name == "boolean_flag").unwrap();
    assert_eq!(boolean_param.description, None);
}

#[test]
fn test_validate_server_config() {
    let service = McpDiscoveryService::new();

    let valid_server = McpServerInfo {
        name: "test-server".to_string(),
        command: "test-command".to_string(),
        args: vec!["arg1".to_string()],
        env: None,
        timeout: 30000,
        disabled: false,
        source_scope: "workspace".to_string(),
        source_path: PathBuf::from("/test/path"),
    };
    assert!(service.validate_server_config(&valid_server).is_ok());

    assert!(service.validate_server_config(&server("", "test-command", 30000)).is_err());
    assert!(service.validate_server_config(&server("test-server", "", 30000)).is_err());
    assert!(service.validate_server_config(&server("test-server", "test-command", 0)).is_err());
}

#[test]
fn test_mcp_server_info_to_semantic_config() {
    let mut env = HashMap::new();
    env.insert("TEST_VAR".to_string(), "test_value".to_string());

    let server_info = McpServerInfo {
        name: "test-server".to_string(),
        command: "test-command".to_string(),
        args: vec!["arg1".to_string(), "arg2".to_string()],
        env: Some(env.clone()),
        timeout: 45000,
        disabled: false,
        source_scope: "global".to_string(),
        source_path: PathBuf::from("/global/mcp.json"),
    };

    let semantic_config = server_info.to_semantic_config();

    assert_eq!(semantic_config.command, "test-command");
    assert_eq!(semantic_config.args, vec!["arg1", "arg2"]);
    assert_eq!(semantic_config.env, Some(env));
    assert_eq!(semantic_config.timeout, 45000);
}

#[test]
fn test_tool_schema_edge_cases() {
    let processor = ToolSchemaProcessor::new();
    let server_info = McpServerInfo {
        name: "test-server".to_string(),
        command: "test-command".to_string(),
        args: vec![],
        env: Some(HashMap::new()),
        timeout: 30000,
        disabled: false,
        source_scope: "test".to_string(),
        source_path: PathBuf::from("/test"),
    };

    let empty_tools_result = ToolsListResult { tools: vec![], next_cursor: None };

    let contexts = processor.create_mcp_contexts(&server_info, &empty_tools_result).unwrap();
    assert!(contexts.is_empty());

    let simple_tool = TestData::simple_tool();
    let tools_result = ToolsListResult { tools: vec![simple_tool], next_cursor: None };

    let contexts = processor.create_mcp_contexts(&server_info, &tools_result).unwrap();
    assert_eq!(contexts.len(), 1);
    assert!(contexts[0].parameters.is_empty());
}

#[test]
fn validation_messages_name_the_problem() {
    let service = McpDiscoveryService::new();
    assert_eq!(service.validate_server_config(&server("", "c", 1)), Err("Server name cannot be empty".to_string()));
    assert_eq!(service.validate_server_config(&server("n", "", 1)), Err("Server command cannot be empty".to_string()));
    assert_eq!(
        service.validate_server_config(&server("n", "c", 0)),
        Err("Server timeout must be greater than 0".to_string())
    );
    match service.check_server_for_schemas(&server("n", "", 1)) {
        Err(McpError::MalformedServerConfig { server_name, details }) => {
            assert_eq!(server_name, "n");
            assert_eq!(details, "Server command cannot be empty");
        },
        _ => panic!("expected a malformed configuration"),
    }
    assert!(service.check_server_for_schemas(&server("n", "c", 1)).is_ok());
}

#[test]
fn tool_names_with_a_server_prefix_are_split() {
    let processor = ToolSchemaProcessor::new();
    let srv = server("My Server", "cmd", 10);
    let tools = ToolsListResult {
        tools: vec![
            obj(vec![("name", s("git___commit")), ("description", s("Commit changes"))]),
            obj(vec![("description", s("no name"))]),
            obj(vec![("name", s("status"))]),
        ],
        next_cursor: None,
    };
    let contexts = processor.create_mcp_contexts(&srv, &tools).unwrap();
    assert_eq!(contexts.len(), 2);
    assert_eq!(contexts[0].server_name, "git");
    assert_eq!(contexts[0].tool_name, "commit");
    assert_eq!(contexts[0].id, "git_commit");
    assert_eq!(contexts[1].server_name, "my_server");
    assert_eq!(contexts[1].tool_name, "status");
    assert_eq!(contexts[1].id, "my_server_status");
    assert_eq!(contexts[1].description, "");
}

#[test]
fn a_tool_with_an_empty_name_is_refused() {
    let processor = ToolSchemaProcessor::new();
    let srv = server("srv", "cmd", 10);
    match processor.tool_to_mcp_context(&srv, &obj(vec![("name", s(""))])) {
        Err(McpError::InvalidToolSchema { server_name, tool_name, reason }) => {
            assert_eq!(server_name, "srv");
            assert_eq!(tool_name, "empty");
            assert_eq!(reason, "Tool name cannot be empty");
        },
        _ => panic!("expected an invalid schema"),
    }
    assert!(matches!(processor.tool_to_mcp_context(&srv, &obj(vec![])), Ok(None)));
}

#[test]
fn searchable_text_describes_the_tool() {
    let processor = ToolSchemaProcessor::new();
    let srv = server("files", "file-cmd", 10);
    let tool = obj(vec![
        ("name", s("read")),
        ("description", s("Read a file")),
        (
            "inputSchema",
            obj(vec![
                ("properties", obj(vec![("path", obj(vec![("type", s("string"))]))])),
                ("required", arr(vec![s("path")])),
            ]),
        ),
    ]);
    assert_eq!(
        processor.tool_to_searchable_text(&srv, &tool).unwrap(),
        "Tool: read from files server. Description: Read a file. Parameters: path (string, required). Categories: general. Server command: file-cmd"
    );
    assert_eq!(processor.tool_to_searchable_text(&srv, &obj(vec![])), None);
}

#[test]
fn properties_that_are_not_an_object_are_an_error_when_checked() {
    let processor = ToolSchemaProcessor::new();
    let srv = server("srv", "cmd", 10);
    let bad = TestData::invalid_schema_tool();
    assert!(processor.extract_tool_parameters_safe(&srv, "invalid_tool", &bad).is_err());
    assert!(processor.extract_tool_parameters(&bad).is_empty());
    let contexts = processor
        .create_mcp_contexts(&srv, &ToolsListResult { tools: vec![bad], next_cursor: None })
        .unwrap();
    assert_eq!(contexts.len(), 1);
    assert!(contexts[0].parameters.is_empty());
}

#[test]
fn entries_become_servers_of_their_scope() {
    let service = McpDiscoveryService::new();
    let entry = McpServerEntry {
        command: "weather-mcp-server".to_string(),
        args: vec!["--api-key".to_string(), "test".to_string()],
        env: None,
        timeout: 30000,
        disabled: false,
    };
    let off = McpServerEntry { command: "x".to_string(), args: vec![], env: None, timeout: 1, disabled: true };
    let servers = service.servers_from_entries(
        vec![("weather-server".to_string(), entry), ("disabled-server".to_string(), off)],
        "workspace",
        &PathBuf::from("/w/mcp.json"),
    );
    assert_eq!(servers.len(), 2);
    assert_eq!(servers[0].name, "weather-server");
    assert_eq!(servers[0].command, "weather-mcp-server");
    assert_eq!(servers[0].source_scope, "workspace");
    assert!(servers[1].disabled);

    let merged = service.merge_enabled_servers(Ok(servers), Err("unreadable".to_string()));
    assert_eq!(merged.len(), 1);
    assert_eq!(merged[0].name, "weather-server");
}

#[test]
fn scopes_are_workspace_or_global() {
    assert_eq!(config_scope("workspace"), Ok(ConfigScope::Workspace));
    assert_eq!(config_scope("global"), Ok(ConfigScope::Global));
    assert_eq!(
        config_scope("local"),
        Err("Invalid scope: local. Must be 'workspace' or 'global'".to_string())
    );
}

#[test]
fn timed_operations_settle_by_what_came_first() {
    let done: RaceOutcome<u32> = RaceOutcome::Finished(Ok(4));
    assert!(matches!(settle_race(done, 30, "discovery"), Ok(4)));
    match settle_race::<u32>(RaceOutcome::TimedOut, 30, "MCP server discovery") {
        Err(e) => assert_eq!(e.message(), "Operation 'MCP server discovery' timed out after 30 seconds"),
        Ok(_) => panic!("expected a timeout"),
    }
    match settle_race::<u32>(RaceOutcome::Cancelled, 15, "x") {
        Err(McpError::OperationCancelled { operation }) => assert_eq!(operation, "x"),
        _ => panic!("expected a cancellation"),
    }
    assert_eq!(connection_operation_name("weather"), "MCP server connection to 'weather'");
}

#[test]
fn tools_list_answers_need_a_result() {
    match tools_list_answer::<u32>("srv", Some("boom"), Some(1)) {
        Err(e) => assert_eq!(e.message(), "MCP server 'srv' returned an error: Server returned error: boom"),
        Ok(_) => panic!("expected an error"),
    }
    match tools_list_answer::<u32>("srv", None, None) {
        Err(e) => assert_eq!(e.message(), "MCP server 'srv' returned an error: Server returned empty result"),
        Ok(_) => panic!("expected an error"),
    }
    assert!(matches!(tools_list_answer::<u32>("srv", None, Some(3)), Ok(3)));
}
