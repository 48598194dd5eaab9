use mcp_rag::json::JsonValue;
use mcp_rag::test_utils::{create_mock_mcp_config, create_mock_servers, MockMcpServer, PerformanceTestUtils, TestData};

fn get<'a>(v: &'a JsonValue, key: &str) -> &'a JsonValue {
    v.get(key).expect("member present")
}

fn member_is_null(v: &JsonValue, key: &str) -> bool {
    match v.get(key) {
        None => true,
        Some(x) => x.is_null(),
    }
}

#[test]
fn test_mock_server_creation() {
    let server = MockMcpServer::new("test-server").with_tool("test_tool", "A test tool", vec![("param", "string", true)]);

    assert_eq!(server.name, "test-server");
    assert_eq!(server.tools.len(), 1);
    assert!(!server.should_fail);

    let tools_result = server.get_tools_result().unwrap();
    assert_eq!(tools_result.tools.len(), 1);
    assert_eq!(tools_result.tools[0].get_str("name"), Some("test_tool"));
}

#[test]
fn test_failing_server() {
    let server = MockMcpServer::new("failing-server").with_failure("Test failure");

    assert!(server.should_fail);
    assert!(server.get_tools_result().is_err());
}

#[test]
fn test_mock_config_creation() {
    let servers = vec![
        MockMcpServer::new("server1").with_tool("tool1", "Test tool", vec![]),
        MockMcpServer::new("server2").with_tool("tool2", "Another tool", vec![]),
    ];

    let config = create_mock_mcp_config(&servers);
    assert!(get(get(&config, "servers"), "server1").is_object());
    assert!(get(get(&config, "servers"), "server2").is_object());
}

#[test]
fn test_performance_utils() {
    let large_set = PerformanceTestUtils::create_large_server_set(10);
    assert_eq!(large_set.len(), 10);

    let varied_set = PerformanceTestUtils::create_varied_servers();
    assert!(varied_set.len() > 5);
}

#[test]
fn test_test_data() {
    let complex = TestData::complex_tool();
    assert_eq!(complex.get_str("name"), Some("complex_analysis"));
    assert!(get(get(&complex, "inputSchema"), "properties").is_object());

    let malformed = TestData::malformed_tool();
    assert!(member_is_null(&malformed, "description"));

    let simple = TestData::simple_tool();
    assert!(member_is_null(&simple, "inputSchema"));
}

#[test]
fn test_mock_server_functionality() {
    let server = MockMcpServer::new("weather-server")
        .with_tool("get_weather", "Get current weather", vec![("location", "string", true), ("units", "string", false)]);

    assert_eq!(server.name, "weather-server");
    assert_eq!(server.tools.len(), 1);

    let tools_result = server.get_tools_result().unwrap();
    assert_eq!(tools_result.tools.len(), 1);

    let tool = &tools_result.tools[0];
    assert_eq!(tool.get_str("name"), Some("get_weather"));
    assert_eq!(tool.get_str("description"), Some("Get current weather"));

    let failing_server = MockMcpServer::new("failing-server").with_failure("Test failure");

    assert!(failing_server.should_fail);
    assert!(failing_server.get_tools_result().is_err());
}

#[test]
fn mock_tools_describe_their_parameters() {
    let server = MockMcpServer::new("s").with_tool("t", "d", vec![("a", "string", true), ("b", "number", false)]);
    let tool = &server.tools[0];
    let schema = get(tool, "inputSchema");
    assert_eq!(get(schema, "type").as_str(), Some("object"));
    let props = get(schema, "properties");
    assert_eq!(get(get(props, "a"), "type").as_str(), Some("string"));
    assert_eq!(get(get(props, "a"), "description").as_str(), Some("Parameter a for tool t"));
    assert_eq!(get(get(props, "b"), "type").as_str(), Some("number"));
    let required = get(schema, "required").as_array().unwrap();
    assert_eq!(required.len(), 1);
    assert_eq!(required[0].as_str(), Some("a"));
}

#[test]
fn a_repeated_parameter_takes_the_last_type() {
    let server = MockMcpServer::new("s").with_tool("t", "d", vec![("a", "string", true), ("a", "number", true)]);
    let props = get(get(&server.tools[0], "inputSchema"), "properties").as_object().unwrap();
    assert_eq!(props.len(), 1);
    assert_eq!(get(&props[0].1, "type").as_str(), Some("number"));
    let required = get(get(&server.tools[0], "inputSchema"), "required").as_array().unwrap();
    assert_eq!(required.len(), 2);
}

#[test]
fn failure_keeps_name_and_tools_and_gives_the_message() {
    let server = MockMcpServer::new("x").with_tool("t", "d", vec![]).with_failure("down");
    assert_eq!(server.name, "x");
    assert_eq!(server.tools.len(), 1);
    assert_eq!(server.get_tools_result().err(), Some("down".to_string()));
}

#[test]
fn server_info_of_a_mock() {
    let info = MockMcpServer::new("weather-server").to_server_info();
    assert_eq!(info.name, "weather-server");
    assert_eq!(info.command, "mock-weather-server");
    assert_eq!(info.args, vec!["--test".to_string()]);
    assert_eq!(info.env.map(|e| e.len()), Some(0));
    assert_eq!(info.timeout, 30000);
    assert!(!info.disabled);
    assert_eq!(info.source_scope, "test");
    assert_eq!(info.source_path, std::path::PathBuf::from("/mock/path"));
}

#[test]
fn the_usual_mock_servers() {
    let servers = create_mock_servers();
    let names: Vec<&str> = servers.iter().map(|s| s.name.as_str()).collect();
    assert_eq!(names, vec!["weather-server", "file-server", "database-server", "simple-server", "failing-server"]);
    let counts: Vec<usize> = servers.iter().map(|s| s.tools.len()).collect();
    assert_eq!(counts, vec![2, 2, 2, 1, 0]);
    assert!(servers[4].should_fail);
    assert_eq!(servers[4].failure_message, "Server is temporarily unavailable");
    assert_eq!(servers[1].tools[1].get_str("name"), Some("write_file"));
}

#[test]
fn failing_servers_are_left_out_of_the_config() {
    let servers = create_mock_servers();
    let config = create_mock_mcp_config(&servers);
    let entries = get(&config, "servers").as_object().unwrap();
    assert_eq!(entries.len(), 4);
    assert!(get(&config, "servers").get("failing-server").is_none());
    let weather = get(get(&config, "servers"), "weather-server");
    assert_eq!(weather.get_str("command"), Some("mock-weather-server"));
    assert!(matches!(get(weather, "timeout"), JsonValue::Number(n) if n == "30000"));
    assert!(matches!(get(weather, "disabled"), JsonValue::Bool(false)));
    assert_eq!(get(weather, "args").as_array().unwrap()[0].as_str(), Some("--test"));
}

#[test]
fn large_and_varied_server_sets() {
    let large = PerformanceTestUtils::create_large_server_set(3);
    assert_eq!(large[2].name, "server-2");
    assert_eq!(large[2].tools.len(), 2);
    assert_eq!(large[2].tools[0].get_str("name"), Some("tool-2-1"));
    assert_eq!(large[2].tools[1].get_str("description"), Some("Second tool for server 2"));

    let varied = PerformanceTestUtils::create_varied_servers();
    assert_eq!(varied.len(), 10);
    assert_eq!(varied[0].name, "small-server-0");
    assert_eq!(varied[5].name, "medium-server-0");
    assert_eq!(varied[5].tools.len(), 7);
    assert_eq!(varied[6].tools[3].get_str("name"), Some("tool-1-3"));
    assert_eq!(varied[6].tools[3].get_str("description"), Some("Tool 3 for medium server 1"));
    assert_eq!(varied[9].name, "large-server-1");
    assert_eq!(varied[9].tools.len(), 25);
}

#[test]
fn sample_tools_have_their_shapes() {
    let invalid = TestData::invalid_schema_tool();
    assert_eq!(get(get(&invalid, "inputSchema"), "properties").as_str(), Some("not_an_object"));
    let complex = TestData::complex_tool();
    let required = get(get(&complex, "inputSchema"), "required").as_array().unwrap();
    assert_eq!(required.len(), 2);
    let analysis = get(get(get(&complex, "inputSchema"), "properties"), "analysis_type");
    assert_eq!(get(analysis, "enum").as_array().unwrap().len(), 3);
}
