use std::collections::HashMap;

use mcp_rag::json::JsonValue;
use mcp_rag::types::{
    FileType, McpServerConfig, McpToolContext, OperationType, ProgressInfo, ProgressStatus, SearchResultType,
    ToolParameter,
};

fn get<'a>(v: &'a JsonValue, key: &str) -> &'a JsonValue {
    v.get(key).expect("member present")
}

fn text(v: &JsonValue) -> &str {
    v.as_str().expect("a string")
}

#[test]
fn test_eta_edge_cases() {
    let mut progress = ProgressInfo::new();

    // Complete progress should have no ETA
    progress.update(100, 100, "Complete".to_string());
    assert!(progress.calculate_eta().is_none());

    // Zero total should have no ETA
    progress.update(50, 0, "Invalid".to_string());
    assert!(progress.calculate_eta().is_none());
}

#[test]
fn test_tool_parameter_creation() {
    let param = ToolParameter::new(
        "location".to_string(),
        "string".to_string(),
        Some("The location to get weather for".to_string()),
        true,
    );

    assert_eq!(param.name, "location");
    assert_eq!(param.param_type, "string");
    assert_eq!(param.description, Some("The location to get weather for".to_string()));
    assert!(param.required);
}

#[test]
fn test_mcp_server_config_creation() {
    let mut env = HashMap::new();
    env.insert("API_KEY".to_string(), "test-key".to_string());

    let config = McpServerConfig::new(
        "weather-server".to_string(),
        vec!["--port".to_string(), "8080".to_string()],
        Some(env.clone()),
        30000,
    );

    assert_eq!(config.command, "weather-server");
    assert_eq!(config.args, vec!["--port", "8080"]);
    assert_eq!(config.env, Some(env));
    assert_eq!(config.timeout, 30000);
}

#[test]
fn test_mcp_tool_context_creation() {
    let params = vec![
        ToolParameter::new(
            "location".to_string(),
            "string".to_string(),
            Some("Location for weather".to_string()),
            true,
        ),
        ToolParameter::new(
            "units".to_string(),
            "string".to_string(),
            Some("Temperature units".to_string()),
            false,
        ),
    ];

    let server_config = McpServerConfig::new("weather-server".to_string(), vec![], None, 30000);

    let tool_context = McpToolContext::new(
        "weather-tool-1".to_string(),
        "weather-server".to_string(),
        "get_current_weather".to_string(),
        "Get current weather for a location".to_string(),
        params.clone(),
        server_config.clone(),
        "Tool: get_current_weather from weather-server. Description: Get current weather for a location. Parameters: location (string, required), units (string)".to_string(),
    );

    assert_eq!(tool_context.id, "weather-tool-1");
    assert_eq!(tool_context.server_name, "weather-server");
    assert_eq!(tool_context.tool_name, "get_current_weather");
    assert_eq!(tool_context.description, "Get current weather for a location");
    assert_eq!(tool_context.parameters.len(), 2);
    assert_eq!(tool_context.parameters[0].name, "location");
    assert!(tool_context.parameters[0].required);
    assert_eq!(tool_context.parameters[1].name, "units");
    assert!(!tool_context.parameters[1].required);
}

#[test]
fn test_search_result_type_equality() {
    assert_eq!(SearchResultType::Document, SearchResultType::Document);
    assert_eq!(SearchResultType::McpTool, SearchResultType::McpTool);
    assert_ne!(SearchResultType::Document, SearchResultType::McpTool);
}

#[test]
fn test_mcp_tool_context_to_function_definition() {
    let tool_context = McpToolContext::new(
        "test-id".to_string(),
        "weather-server".to_string(),
        "get_weather".to_string(),
        "Get current weather for a location".to_string(),
        vec![
            ToolParameter::new(
                "location".to_string(),
                "string".to_string(),
                Some("The location to get weather for".to_string()),
                true,
            ),
            ToolParameter::new(
                "units".to_string(),
                "string".to_string(),
                Some("Temperature units (celsius/fahrenheit)".to_string()),
                false,
            ),
        ],
        McpServerConfig::new("weather-server".to_string(), vec![], None, 30000),
        "Weather tool for getting current conditions".to_string(),
    );

    let function_def = tool_context.to_function_definition();

    assert_eq!(text(get(&function_def, "name")), "weather-server_get_weather");
    assert_eq!(text(get(&function_def, "description")), "Get current weather for a location");

    let input_schema = get(&function_def, "input_schema");
    assert_eq!(text(get(input_schema, "type")), "object");

    let properties = get(input_schema, "properties");
    assert!(get(properties, "location").is_object());
    assert!(get(properties, "units").is_object());

    let required = get(input_schema, "required").as_array().unwrap();
    assert!(required.iter().any(|v| v.as_str() == Some("location")));
    assert!(!required.iter().any(|v| v.as_str() == Some("units")));
}

#[test]
fn test_mcp_tool_context_to_tool_spec() {
    let tool_context = McpToolContext::new(
        "test-id".to_string(),
        "file-server".to_string(),
        "read_file".to_string(),
        "Read contents of a file".to_string(),
        vec![ToolParameter::new(
            "path".to_string(),
            "string".to_string(),
            Some("Path to the file".to_string()),
            true,
        )],
        McpServerConfig::new("file-server".to_string(), vec![], None, 30000),
        "File reading tool".to_string(),
    );

    let tool_spec = tool_context.to_tool_spec();

    assert_eq!(text(get(&tool_spec, "name")), "file-server_read_file");
    assert_eq!(text(get(&tool_spec, "description")), "Read contents of a file");
    assert_eq!(text(get(&tool_spec, "toolOrigin")), "mcp");

    let input_schema = get(&tool_spec, "inputSchema");
    assert_eq!(text(get(input_schema, "type")), "object");

    let properties = get(input_schema, "properties");
    assert!(get(properties, "path").is_object());
}

#[test]
fn test_mcp_tool_context_function_name() {
    let tool_context = McpToolContext::new(
        "test-id".to_string(),
        "database-server".to_string(),
        "query_table".to_string(),
        "Query a database table".to_string(),
        vec![],
        McpServerConfig::new("database-server".to_string(), vec![], None, 30000),
        "Database query tool".to_string(),
    );

    let function_name = tool_context.get_function_name();
    assert_eq!(function_name, "database-server_query_table");
}

#[test]
fn test_mcp_tool_context_query_matching() {
    let tool_context = McpToolContext::new(
        "test-id".to_string(),
        "weather-server".to_string(),
        "get_current_weather".to_string(),
        "Get current weather conditions for any location".to_string(),
        vec![
            ToolParameter::new(
                "location".to_string(),
                "string".to_string(),
                Some("Geographic location".to_string()),
                true,
            ),
            ToolParameter::new(
                "temperature_unit".to_string(),
                "string".to_string(),
                Some("Temperature measurement unit".to_string()),
                false,
            ),
        ],
        McpServerConfig::new("weather-server".to_string(), vec![], None, 30000),
        "Weather information retrieval tool".to_string(),
    );

    assert!(tool_context.matches_query("weather"), "Should match tool name");
    assert!(tool_context.matches_query("current"), "Should match description");
    assert!(tool_context.matches_query("location"), "Should match parameter name");
    assert!(tool_context.matches_query("temperature"), "Should match parameter description");
    assert!(tool_context.matches_query("weather-server"), "Should match server name");

    assert!(tool_context.matches_query("WEATHER"), "Should be case insensitive");
    assert!(tool_context.matches_query("Weather"), "Should be case insensitive");

    assert!(!tool_context.matches_query("database"), "Should not match unrelated terms");
    assert!(!tool_context.matches_query("xyz"), "Should not match random terms");
}

#[test]
fn eta_before_progress_is_none() {
    let progress = ProgressInfo::new();
    assert_eq!(progress.current, 0);
    assert_eq!(progress.total, 0);
    assert_eq!(progress.message, "Initializing...");
    assert!(progress.calculate_eta().is_none());
    assert_eq!(progress.eta_nanos(Some(1_000)), None);
}

#[test]
fn eta_scales_elapsed_time_by_work_left() {
    let mut progress = ProgressInfo::new();
    progress.update(25, 100, "25% complete".to_string());
    // 25 items took 1000 ns: the 75 left take 3000 ns.
    assert_eq!(progress.eta_nanos(Some(1_000)), Some(3_000));
    // Rounds down: 3 left at 10 ns per 3 items done.
    progress.update(3, 6, "half".to_string());
    assert_eq!(progress.eta_nanos(Some(10)), Some(10));
    // The clock could not tell the elapsed time.
    assert_eq!(progress.eta_nanos(None), None);
}

#[test]
fn eta_is_none_when_done_or_nothing_done() {
    let mut progress = ProgressInfo::new();
    progress.update(10, 10, "done".to_string());
    assert_eq!(progress.eta_nanos(Some(500)), None);
    let mut progress = ProgressInfo::new();
    progress.update(0, 10, "waiting".to_string());
    assert_eq!(progress.eta_nanos(Some(500)), None);
}

#[test]
fn eta_saturates_at_the_largest_count() {
    let mut progress = ProgressInfo::new();
    progress.update(1, u64::MAX, "slow".to_string());
    assert_eq!(progress.eta_nanos(Some(u128::MAX)), Some(u128::MAX));
}

#[test]
fn operation_names_are_displayed() {
    let indexing = OperationType::Indexing { name: "docs".to_string(), path: "/tmp/docs".to_string() };
    assert_eq!(indexing.display_name(), "Indexing 'docs'");
    assert_eq!(OperationType::Clearing.display_name(), "Clearing all");
}

#[test]
fn plain_enums_compare_by_variant() {
    assert_eq!(FileType::Text, FileType::Text);
    assert_ne!(FileType::Markdown, FileType::Json);
    assert_ne!(ProgressStatus::CountingFiles, ProgressStatus::Complete);
    assert_eq!(ProgressStatus::Indexing(1, 2), ProgressStatus::Indexing(1, 2));
}

#[test]
fn definition_and_spec_share_the_function_name() {
    let c = McpToolContext::new(
        "id".to_string(),
        "srv".to_string(),
        "tool".to_string(),
        "does things".to_string(),
        vec![],
        McpServerConfig::new("cmd".to_string(), vec![], None, 1),
        "content".to_string(),
    );
    let name = c.get_function_name();
    assert_eq!(name, "srv_tool");
    assert_eq!(get(&c.to_function_definition(), "name").as_str(), Some(name.as_str()));
    assert_eq!(get(&c.to_tool_spec(), "name").as_str(), Some(name.as_str()));
    assert!(get(&get(&c.to_tool_spec(), "inputSchema"), "required").as_array().unwrap().is_empty());
}

#[test]
fn contexts_are_stamped_with_one_time() {
    let k = mcp_rag::types::KnowledgeContext::new("id".to_string(), "n", "d", false, None, 3);
    assert_eq!(k.created_at, k.updated_at);
    assert!(k.created_at > 0);
    assert_eq!(k.name, "n");
    assert_eq!(k.item_count, 3);
}

#[test]
fn tool_results_read_tool_and_description() {
    let c = McpToolContext::new(
        "id".to_string(),
        "weather-server".to_string(),
        "get_weather".to_string(),
        "Get weather information".to_string(),
        vec![],
        McpServerConfig::new("weather-server".to_string(), vec![], None, 30000),
        "Weather tool content".to_string(),
    );
    assert_eq!(mcp_rag::types::tool_result_content(&c), "Tool: get_weather - Get weather information");
}
