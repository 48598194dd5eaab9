use std::collections::HashMap;
use std::path::PathBuf;

use vstd::prelude::*;

use crate::json::{Json, JsonValue, json_members, json_items, distinct_keys, with_member, object_insert, json_str, push_member, push_item};
use crate::mcp_processor::{McpServerInfo, ToolsListResult, views_of};
use crate::text::{owned, push_str, decimal, u64_to_decimal};

verus! {

/// `PathBuf::from`: the path of a string. Paths are opaque here, so nothing
/// is stated of it.
#[verifier::external_body]
fn path_from(s: &str) -> PathBuf {
    PathBuf::from(s)
}

/// The values of tool parameters given as name, type and whether required.
pub open spec fn mock_param_views(ps: Seq<(&str, &str, bool)>) -> Seq<(Seq<char>, Seq<char>, bool)> {
    ps.map_values(|p: (&str, &str, bool)| (p.0@, p.1@, p.2))
}

/// The schema of parameter `param` of mock tool `tool`.
pub open spec fn mock_param_schema(param: Seq<char>, param_type: Seq<char>, tool: Seq<char>) -> Json {
    Json::Object(seq![
        ("type"@, Json::Str(param_type)),
        ("description"@, Json::Str("Parameter "@ + param + " for tool "@ + tool)),
    ])
}

/// The `properties` of a mock tool: each parameter set in turn, so that a
/// repeated name keeps its first place and takes the last schema.
pub open spec fn mock_properties(tool: Seq<char>, params: Seq<(Seq<char>, Seq<char>, bool)>) -> Seq<(Seq<char>, Json)>
    decreases params.len(),
{
    if params.len() == 0 {
        Seq::empty()
    } else {
        let p = params.last();
        with_member(mock_properties(tool, params.drop_last()), p.0, mock_param_schema(p.0, p.1, tool))
    }
}

/// The `required` list of a mock tool: the required parameters, in order.
pub open spec fn mock_required(params: Seq<(Seq<char>, Seq<char>, bool)>) -> Seq<Json>
    decreases params.len(),
{
    if params.len() == 0 {
        Seq::empty()
    } else {
        let before = mock_required(params.drop_last());
        if params.last().2 {
            before.push(Json::Str(params.last().0))
        } else {
            before
        }
    }
}

/// The tool that `MockMcpServer::with_tool` adds.
pub open spec fn mock_tool(name: Seq<char>, description: Seq<char>, params: Seq<(Seq<char>, Seq<char>, bool)>) -> Json {
    Json::Object(seq![
        ("name"@, Json::Str(name)),
        ("description"@, Json::Str(description)),
        ("inputSchema"@, Json::Object(seq![
            ("type"@, Json::Str("object"@)),
            ("properties"@, Json::Object(mock_properties(name, params))),
            ("required"@, Json::Array(mock_required(params))),
        ])),
    ])
}

/// An MCP server that tests talk to in place of a real one.
#[derive(Debug)]
pub struct MockMcpServer {
    pub name: String,
    pub tools: Vec<JsonValue>,
    pub should_fail: bool,
    pub failure_message: String,
}

/// The text `Parameter {param} for tool {tool}`.
fn param_description(param: &str, tool: &str) -> (r: String)
    ensures
        r@ == "Parameter "@ + param@ + " for tool "@ + tool@,
{
    let mut d = owned("Parameter ");
    push_str(&mut d, param);
    push_str(&mut d, " for tool ");
    push_str(&mut d, tool);
    d
}

impl MockMcpServer {
    /// A server named `name` with no tools, that does not fail.
    pub fn new(name: &str) -> (r: MockMcpServer)
        ensures
            r.name@ == name@,
            r.tools@.len() == 0,
            !r.should_fail,
            r.failure_message@ == Seq::<char>::empty(),
    {
        MockMcpServer { name: owned(name), tools: Vec::new(), should_fail: false, failure_message: String::new() }
    }

    /// The server with one more tool, whose input schema lists the parameters
    /// (name, type, whether required).
    pub fn with_tool(self, name: &str, description: &str, parameters: Vec<(&str, &str, bool)>) -> (r: MockMcpServer)
        ensures
            r.name == self.name,
            r.should_fail == self.should_fail,
            r.failure_message == self.failure_message,
            views_of(r.tools@) == views_of(self.tools@).push(mock_tool(name@, description@, mock_param_views(parameters@))),
    {
        let ghost ps = mock_param_views(parameters@);
        let mut properties: Vec<(String, JsonValue)> = Vec::new();
        let mut required: Vec<JsonValue> = Vec::new();
        let mut i: usize = 0;
        assert(json_members(properties@) =~= Seq::empty());
        assert(json_items(required@) =~= Seq::empty());
        assert(ps.take(0) =~= Seq::empty());
        while i < parameters.len()
            invariant
                i <= parameters@.len(),
                ps == mock_param_views(parameters@),
                distinct_keys(json_members(properties@)),
                json_members(properties@) == mock_properties(name@, ps.take(i as int)),
                json_items(required@) == mock_required(ps.take(i as int)),
            decreases parameters.len() - i,
        {
            let (param_name, param_type, is_required) = parameters[i];
            assert(ps.take(i + 1).drop_last() =~= ps.take(i as int));
            assert(ps.take(i + 1).last() == (param_name@, param_type@, is_required));
            let mut schema_members: Vec<(String, JsonValue)> = Vec::new();
            push_member(&mut schema_members, "type", json_str(param_type));
            push_member(&mut schema_members, "description", JsonValue::String(param_description(param_name, name)));
            assert(json_members(schema_members@) =~= seq![
                ("type"@, Json::Str(param_type@)),
                ("description"@, Json::Str("Parameter "@ + param_name@ + " for tool "@ + name@)),
            ]);
            object_insert(&mut properties, owned(param_name), JsonValue::Object(schema_members));
            if is_required {
                push_item(&mut required, json_str(param_name));
            }
            i = i + 1;
        }
        assert(ps.take(parameters@.len() as int) =~= ps);
        let mut schema: Vec<(String, JsonValue)> = Vec::new();
        push_member(&mut schema, "type", json_str("object"));
        push_member(&mut schema, "properties", JsonValue::Object(properties));
        push_member(&mut schema, "required", JsonValue::Array(required));
        assert(json_members(schema@) =~= seq![
            ("type"@, Json::Str("object"@)),
            ("properties"@, Json::Object(mock_properties(name@, ps))),
            ("required"@, Json::Array(mock_required(ps))),
        ]);
        let mut tool_members: Vec<(String, JsonValue)> = Vec::new();
        push_member(&mut tool_members, "name", json_str(name));
        push_member(&mut tool_members, "description", json_str(description));
        push_member(&mut tool_members, "inputSchema", JsonValue::Object(schema));
        assert(json_members(tool_members@) =~= seq![
            ("name"@, Json::Str(name@)),
            ("description"@, Json::Str(description@)),
            ("inputSchema"@, Json::Object(json_members(schema@))),
        ]);
        let tool = JsonValue::Object(tool_members);
        let mut server = self;
        let ghost before = server.tools@;
        server.tools.push(tool);
        assert(views_of(server.tools@) =~= views_of(before).push(mock_tool(name@, description@, ps)));
        server
    }

    /// The server, made to fail with `message`.
    pub fn with_failure(self, message: &str) -> (r: MockMcpServer)
        ensures
            r.name == self.name,
            r.tools == self.tools,
            r.should_fail,
            r.failure_message@ == message@,
    {
        MockMcpServer { should_fail: true, failure_message: owned(message), ..self }
    }

    /// How the server is configured: command `mock-{name}` with argument
    /// `--test`, an empty environment, a 30 s timeout, scope `test`, at
    /// `/mock/path`.
    pub fn to_server_info(&self) -> (r: McpServerInfo)
        ensures
            r.name@ == self.name@,
            r.command@ == "mock-"@ + self.name@,
            r.args.deep_view() == seq!["--test"@],
            r.env matches Some(m) && m@ == Map::<String, String>::empty(),
            r.timeout == 30000,
            !r.disabled,
            r.source_scope@ == "test"@,
    {
        let mut command = owned("mock-");
        push_str(&mut command, self.name.as_str());
        let args = vec![owned("--test")];
        assert(args.deep_view() =~= seq!["--test"@]);
        McpServerInfo {
            name: self.name.clone(),
            command,
            args,
            env: Some(HashMap::new()),
            timeout: 30000,
            disabled: false,
            source_scope: owned("test"),
            source_path: path_from("/mock/path"),
        }
    }

    /// The tools the server lists, or its failure message.
    pub fn get_tools_result(&self) -> (r: Result<ToolsListResult, String>)
        ensures
            r is Err <==> self.should_fail,
            r matches Err(m) ==> m@ == self.failure_message@,
            r matches Ok(t) ==> views_of(t.tools@) == views_of(self.tools@) && t.next_cursor is None,
    {
        if self.should_fail {
            Err(self.failure_message.clone())
        } else {
            let mut tools: Vec<JsonValue> = Vec::new();
            let mut i: usize = 0;
            while i < self.tools.len()
                invariant
                    i <= self.tools@.len(),
                    tools@.len() == i,
                    forall|k: int| 0 <= k < i ==> #[trigger] tools@[k]@ == self.tools@[k]@,
                decreases self.tools.len() - i,
            {
                let c = self.tools[i].deep_copy();
                tools.push(c);
                i = i + 1;
            }
            assert(views_of(tools@) =~= views_of(self.tools@));
            Ok(ToolsListResult { tools, next_cursor: None })
        }
    }
}


/// `s` is a mock server named `name` with tools `tools` that fails with
/// `failure` if one is given.
pub open spec fn is_mock(s: MockMcpServer, name: Seq<char>, tools: Seq<Json>, failure: Option<Seq<char>>) -> bool {
    &&& s.name@ == name
    &&& views_of(s.tools@) == tools
    &&& s.should_fail == (failure is Some)
    &&& s.failure_message@ == match failure {
        Some(m) => m,
        None => Seq::empty(),
    }
}

/// The servers of the usual test setup: weather, file, database and simple
/// servers that answer, and one that fails.
pub fn create_mock_servers() -> (r: Vec<MockMcpServer>)
    ensures
        r@.len() == 5,
        is_mock(r@[0], "weather-server"@, seq![
            mock_tool("get_current_weather"@, "Get current weather for a location"@,
                seq![("location"@, "string"@, true), ("units"@, "string"@, false)]),
            mock_tool("get_forecast"@, "Get weather forecast"@,
                seq![("location"@, "string"@, true), ("days"@, "number"@, false)]),
        ], None),
        is_mock(r@[1], "file-server"@, seq![
            mock_tool("read_file"@, "Read contents of a file"@,
                seq![("path"@, "string"@, true), ("encoding"@, "string"@, false)]),
            mock_tool("write_file"@, "Write contents to a file"@,
                seq![("path"@, "string"@, true), ("content"@, "string"@, true), ("create_dirs"@, "boolean"@, false)]),
        ], None),
        is_mock(r@[2], "database-server"@, seq![
            mock_tool("query_table"@, "Query database table"@,
                seq![("table"@, "string"@, true), ("where_clause"@, "string"@, false), ("limit"@, "number"@, false)]),
            mock_tool("insert_record"@, "Insert record into table"@,
                seq![("table"@, "string"@, true), ("data"@, "object"@, true)]),
        ], None),
        is_mock(r@[3], "simple-server"@, seq![
            mock_tool("ping"@, "Simple ping command"@, Seq::empty()),
        ], None),
        is_mock(r@[4], "failing-server"@, Seq::empty(), Some("Server is temporarily unavailable"@)),
{
    let p1 = vec![("location", "string", true), ("units", "string", false)];
    let p2 = vec![("location", "string", true), ("days", "number", false)];
    assert(mock_param_views(p1@) =~= seq![("location"@, "string"@, true), ("units"@, "string"@, false)]);
    assert(mock_param_views(p2@) =~= seq![("location"@, "string"@, true), ("days"@, "number"@, false)]);
    let weather = MockMcpServer::new("weather-server")
        .with_tool("get_current_weather", "Get current weather for a location", p1)
        .with_tool("get_forecast", "Get weather forecast", p2);

    let p3 = vec![("path", "string", true), ("encoding", "string", false)];
    let p4 = vec![("path", "string", true), ("content", "string", true), ("create_dirs", "boolean", false)];
    assert(mock_param_views(p3@) =~= seq![("path"@, "string"@, true), ("encoding"@, "string"@, false)]);
    assert(mock_param_views(p4@) =~= seq![("path"@, "string"@, true), ("content"@, "string"@, true), ("create_dirs"@, "boolean"@, false)]);
    let file = MockMcpServer::new("file-server")
        .with_tool("read_file", "Read contents of a file", p3)
        .with_tool("write_file", "Write contents to a file", p4);

    let p5 = vec![("table", "string", true), ("where_clause", "string", false), ("limit", "number", false)];
    let p6 = vec![("table", "string", true), ("data", "object", true)];
    assert(mock_param_views(p5@) =~= seq![("table"@, "string"@, true), ("where_clause"@, "string"@, false), ("limit"@, "number"@, false)]);
    assert(mock_param_views(p6@) =~= seq![("table"@, "string"@, true), ("data"@, "object"@, true)]);
    let database = MockMcpServer::new("database-server")
        .with_tool("query_table", "Query database table", p5)
        .with_tool("insert_record", "Insert record into table", p6);

    let p7: Vec<(&str, &str, bool)> = Vec::new();
    assert(mock_param_views(p7@) =~= Seq::empty());
    let simple = MockMcpServer::new("simple-server").with_tool("ping", "Simple ping command", p7);

    let failing = MockMcpServer::new("failing-server").with_failure("Server is temporarily unavailable");
    assert(views_of(failing.tools@) =~= Seq::empty());

    assert(views_of(weather.tools@) =~= seq![
        mock_tool("get_current_weather"@, "Get current weather for a location"@, mock_param_views(p1@)),
        mock_tool("get_forecast"@, "Get weather forecast"@, mock_param_views(p2@)),
    ]);
    assert(views_of(file.tools@) =~= seq![
        mock_tool("read_file"@, "Read contents of a file"@, mock_param_views(p3@)),
        mock_tool("write_file"@, "Write contents to a file"@, mock_param_views(p4@)),
    ]);
    assert(views_of(database.tools@) =~= seq![
        mock_tool("query_table"@, "Query database table"@, mock_param_views(p5@)),
        mock_tool("insert_record"@, "Insert record into table"@, mock_param_views(p6@)),
    ]);
    assert(views_of(simple.tools@) =~= seq![mock_tool("ping"@, "Simple ping command"@, mock_param_views(p7@))]);
    vec![weather, file, database, simple, failing]
}

/// The entry of a mock server in an `mcp.json` file.
pub open spec fn mock_server_entry(name: Seq<char>) -> Json {
    Json::Object(seq![
        ("command"@, Json::Str("mock-"@ + name)),
        ("args"@, Json::Array(seq![Json::Str("--test"@)])),
        ("env"@, Json::Object(Seq::empty())),
        ("timeout"@, Json::Number("30000"@)),
        ("disabled"@, Json::Bool(false)),
    ])
}

/// The `servers` of a mock configuration: each server that does not fail,
/// under its name (a repeated name keeps its first place).
pub open spec fn mock_config_members(servers: Seq<MockMcpServer>) -> Seq<(Seq<char>, Json)>
    decreases servers.len(),
{
    if servers.len() == 0 {
        Seq::empty()
    } else {
        let before = mock_config_members(servers.drop_last());
        let s = servers.last();
        if s.should_fail {
            before
        } else {
            with_member(before, s.name@, mock_server_entry(s.name@))
        }
    }
}

/// The `mcp.json` document that configures the servers that do not fail.
pub fn create_mock_mcp_config(servers: &[MockMcpServer]) -> (r: JsonValue)
    ensures
        r@ == Json::Object(seq![("servers"@, Json::Object(mock_config_members(servers@)))]),
{
    let mut server_configs: Vec<(String, JsonValue)> = Vec::new();
    let mut i: usize = 0;
    assert(json_members(server_configs@) =~= Seq::empty());
    assert(servers@.take(0) =~= Seq::empty());
    while i < servers.len()
        invariant
            i <= servers@.len(),
            distinct_keys(json_members(server_configs@)),
            json_members(server_configs@) == mock_config_members(servers@.take(i as int)),
        decreases servers.len() - i,
    {
        let server = &servers[i];
        assert(servers@.take(i + 1).drop_last() =~= servers@.take(i as int));
        assert(servers@.take(i + 1).last() == *server);
        if !server.should_fail {
            let info = server.to_server_info();
            let mut args: Vec<JsonValue> = Vec::new();
            push_item(&mut args, json_str("--test"));
            assert(json_items(args@) =~= seq![Json::Str("--test"@)]);
            let env: Vec<(String, JsonValue)> = Vec::new();
            assert(json_members(env@) =~= Seq::empty());
            let mut entry: Vec<(String, JsonValue)> = Vec::new();
            push_member(&mut entry, "command", JsonValue::String(info.command));
            push_member(&mut entry, "args", JsonValue::Array(args));
            push_member(&mut entry, "env", JsonValue::Object(env));
            push_member(&mut entry, "timeout", JsonValue::Number(owned("30000")));
            push_member(&mut entry, "disabled", JsonValue::Bool(false));
            assert(json_members(entry@) =~= seq![
                ("command"@, Json::Str("mock-"@ + server.name@)),
                ("args"@, Json::Array(seq![Json::Str("--test"@)])),
                ("env"@, Json::Object(Seq::empty())),
                ("timeout"@, Json::Number("30000"@)),
                ("disabled"@, Json::Bool(false)),
            ]);
            object_insert(&mut server_configs, server.name.clone(), JsonValue::Object(entry));
        }
        i = i + 1;
    }
    assert(servers@.take(servers@.len() as int) =~= servers@);
    let mut top: Vec<(String, JsonValue)> = Vec::new();
    push_member(&mut top, "servers", JsonValue::Object(server_configs));
    assert(json_members(top@) =~= seq![("servers"@, Json::Object(mock_config_members(servers@)))]);
    JsonValue::Object(top)
}


/// The object with two string members, in order.
fn string_object(k1: &str, v1: &str, k2: &str, v2: &str) -> (r: JsonValue)
    ensures
        r@ == Json::Object(seq![(k1@, Json::Str(v1@)), (k2@, Json::Str(v2@))]),
{
    let mut members: Vec<(String, JsonValue)> = Vec::new();
    push_member(&mut members, k1, json_str(v1));
    push_member(&mut members, k2, json_str(v2));
    assert(json_members(members@) =~= seq![(k1@, Json::Str(v1@)), (k2@, Json::Str(v2@))]);
    JsonValue::Object(members)
}

/// Sample tools for tests of schema handling.
#[derive(Debug)]
pub struct TestData;

/// A tool with a nested schema: an enum, an object parameter with its own
/// properties, numeric bounds and a default.
pub open spec fn complex_tool_json() -> Json {
    Json::Object(seq![
        ("name"@, Json::Str("complex_analysis"@)),
        ("description"@, Json::Str("Perform complex data analysis with multiple parameters"@)),
        ("inputSchema"@, Json::Object(seq![
            ("type"@, Json::Str("object"@)),
            ("properties"@, Json::Object(seq![
                ("data_source"@, Json::Object(seq![
                    ("type"@, Json::Str("string"@)),
                    ("description"@, Json::Str("Path to data source file"@)),
                ])),
                ("analysis_type"@, Json::Object(seq![
                    ("type"@, Json::Str("string"@)),
                    ("enum"@, Json::Array(seq![
                        Json::Str("statistical"@), Json::Str("predictive"@), Json::Str("descriptive"@),
                    ])),
                    ("description"@, Json::Str("Type of analysis to perform"@)),
                ])),
                ("parameters"@, Json::Object(seq![
                    ("type"@, Json::Str("object"@)),
                    ("properties"@, Json::Object(seq![
                        ("confidence_level"@, Json::Object(seq![
                            ("type"@, Json::Str("number"@)),
                            ("minimum"@, Json::Number("0.0"@)),
                            ("maximum"@, Json::Number("1.0"@)),
                        ])),
                        ("sample_size"@, Json::Object(seq![
                            ("type"@, Json::Str("integer"@)),
                            ("minimum"@, Json::Number("1"@)),
                        ])),
                    ])),
                ])),
                ("output_format"@, Json::Object(seq![
                    ("type"@, Json::Str("string"@)),
                    ("default"@, Json::Str("json"@)),
                ])),
            ])),
            ("required"@, Json::Array(seq![Json::Str("data_source"@), Json::Str("analysis_type"@)])),
        ])),
    ])
}

/// A tool without a description whose schema has no properties.
pub open spec fn malformed_tool_json() -> Json {
    Json::Object(seq![
        ("name"@, Json::Str("malformed_tool"@)),
        ("inputSchema"@, Json::Object(seq![
            ("type"@, Json::Str("object"@)),
            ("required"@, Json::Array(seq![Json::Str("missing_param"@)])),
        ])),
    ])
}

/// A tool without an input schema.
pub open spec fn simple_tool_json() -> Json {
    Json::Object(seq![
        ("name"@, Json::Str("simple_ping"@)),
        ("description"@, Json::Str("Simple ping command with no parameters"@)),
    ])
}

/// A tool whose schema has an unknown type and properties that are not an object.
pub open spec fn invalid_schema_tool_json() -> Json {
    Json::Object(seq![
        ("name"@, Json::Str("invalid_tool"@)),
        ("description"@, Json::Str("Tool with invalid schema"@)),
        ("inputSchema"@, Json::Object(seq![
            ("type"@, Json::Str("invalid_type"@)),
            ("properties"@, Json::Str("not_an_object"@)),
        ])),
    ])
}

impl TestData {
    pub fn complex_tool() -> (r: JsonValue)
        ensures
            r@ == complex_tool_json(),
    {
        let data_source = string_object("type", "string", "description", "Path to data source file");

        let mut choices: Vec<JsonValue> = Vec::new();
        push_item(&mut choices, json_str("statistical"));
        push_item(&mut choices, json_str("predictive"));
        push_item(&mut choices, json_str("descriptive"));
        let mut analysis_type: Vec<(String, JsonValue)> = Vec::new();
        push_member(&mut analysis_type, "type", json_str("string"));
        push_member(&mut analysis_type, "enum", JsonValue::Array(choices));
        push_member(&mut analysis_type, "description", json_str("Type of analysis to perform"));

        let mut confidence_level: Vec<(String, JsonValue)> = Vec::new();
        push_member(&mut confidence_level, "type", json_str("number"));
        push_member(&mut confidence_level, "minimum", JsonValue::Number(owned("0.0")));
        push_member(&mut confidence_level, "maximum", JsonValue::Number(owned("1.0")));
        let mut sample_size: Vec<(String, JsonValue)> = Vec::new();
        push_member(&mut sample_size, "type", json_str("integer"));
        push_member(&mut sample_size, "minimum", JsonValue::Number(owned("1")));
        let mut inner: Vec<(String, JsonValue)> = Vec::new();
        push_member(&mut inner, "confidence_level", JsonValue::Object(confidence_level));
        push_member(&mut inner, "sample_size", JsonValue::Object(sample_size));
        let mut parameters: Vec<(String, JsonValue)> = Vec::new();
        push_member(&mut parameters, "type", json_str("object"));
        push_member(&mut parameters, "properties", JsonValue::Object(inner));

        let output_format = string_object("type", "string", "default", "json");

        let mut properties: Vec<(String, JsonValue)> = Vec::new();
        push_member(&mut properties, "data_source", data_source);
        push_member(&mut properties, "analysis_type", JsonValue::Object(analysis_type));
        push_member(&mut properties, "parameters", JsonValue::Object(parameters));
        push_member(&mut properties, "output_format", output_format);

        let mut required: Vec<JsonValue> = Vec::new();
        push_item(&mut required, json_str("data_source"));
        push_item(&mut required, json_str("analysis_type"));

        let mut schema: Vec<(String, JsonValue)> = Vec::new();
        push_member(&mut schema, "type", json_str("object"));
        push_member(&mut schema, "properties", JsonValue::Object(properties));
        push_member(&mut schema, "required", JsonValue::Array(required));

        let mut tool: Vec<(String, JsonValue)> = Vec::new();
        push_member(&mut tool, "name", json_str("complex_analysis"));
        push_member(&mut tool, "description", json_str("Perform complex data analysis with multiple parameters"));
        push_member(&mut tool, "inputSchema", JsonValue::Object(schema));
        proof {
            assert(json_items(choices@) =~= seq![Json::Str("statistical"@), Json::Str("predictive"@), Json::Str("descriptive"@)]);
            assert(json_items(required@) =~= seq![Json::Str("data_source"@), Json::Str("analysis_type"@)]);
            assert(json_members(analysis_type@) =~= seq![
                ("type"@, Json::Str("string"@)),
                ("enum"@, Json::Array(json_items(choices@))),
                ("description"@, Json::Str("Type of analysis to perform"@)),
            ]);
            assert(json_members(confidence_level@) =~= seq![
                ("type"@, Json::Str("number"@)),
                ("minimum"@, Json::Number("0.0"@)),
                ("maximum"@, Json::Number("1.0"@)),
            ]);
            assert(json_members(sample_size@) =~= seq![
                ("type"@, Json::Str("integer"@)),
                ("minimum"@, Json::Number("1"@)),
            ]);
            assert(json_members(inner@) =~= seq![
                ("confidence_level"@, Json::Object(json_members(confidence_level@))),
                ("sample_size"@, Json::Object(json_members(sample_size@))),
            ]);
            assert(json_members(parameters@) =~= seq![
                ("type"@, Json::Str("object"@)),
                ("properties"@, Json::Object(json_members(inner@))),
            ]);
            assert(json_members(properties@) =~= seq![
                ("data_source"@, data_source@),
                ("analysis_type"@, Json::Object(json_members(analysis_type@))),
                ("parameters"@, Json::Object(json_members(parameters@))),
                ("output_format"@, output_format@),
            ]);
            assert(json_members(schema@) =~= seq![
                ("type"@, Json::Str("object"@)),
                ("properties"@, Json::Object(json_members(properties@))),
                ("required"@, Json::Array(json_items(required@))),
            ]);
            assert(json_members(tool@) =~= seq![
                ("name"@, Json::Str("complex_analysis"@)),
                ("description"@, Json::Str("Perform complex data analysis with multiple parameters"@)),
                ("inputSchema"@, Json::Object(json_members(schema@))),
            ]);
        }
        JsonValue::Object(tool)
    }

    pub fn malformed_tool() -> (r: JsonValue)
        ensures
            r@ == malformed_tool_json(),
    {
        let mut required: Vec<JsonValue> = Vec::new();
        push_item(&mut required, json_str("missing_param"));
        let mut schema: Vec<(String, JsonValue)> = Vec::new();
        push_member(&mut schema, "type", json_str("object"));
        push_member(&mut schema, "required", JsonValue::Array(required));
        let mut tool: Vec<(String, JsonValue)> = Vec::new();
        push_member(&mut tool, "name", json_str("malformed_tool"));
        push_member(&mut tool, "inputSchema", JsonValue::Object(schema));
        proof {
            assert(json_items(required@) =~= seq![Json::Str("missing_param"@)]);
            assert(json_members(schema@) =~= seq![
                ("type"@, Json::Str("object"@)),
                ("required"@, Json::Array(json_items(required@))),
            ]);
            assert(json_members(tool@) =~= seq![
                ("name"@, Json::Str("malformed_tool"@)),
                ("inputSchema"@, Json::Object(json_members(schema@))),
            ]);
        }
        JsonValue::Object(tool)
    }

    pub fn simple_tool() -> (r: JsonValue)
        ensures
            r@ == simple_tool_json(),
    {
        let r = string_object("name", "simple_ping", "description", "Simple ping command with no parameters");
        r
    }

    pub fn invalid_schema_tool() -> (r: JsonValue)
        ensures
            r@ == invalid_schema_tool_json(),
    {
        let schema = string_object("type", "invalid_type", "properties", "not_an_object");
        let mut tool: Vec<(String, JsonValue)> = Vec::new();
        push_member(&mut tool, "name", json_str("invalid_tool"));
        push_member(&mut tool, "description", json_str("Tool with invalid schema"));
        push_member(&mut tool, "inputSchema", schema);
        assert(json_members(tool@) =~= seq![
            ("name"@, Json::Str("invalid_tool"@)),
            ("description"@, Json::Str("Tool with invalid schema"@)),
            ("inputSchema"@, schema@),
        ]);
        JsonValue::Object(tool)
    }
}


/// The text `{a}{n}`.
fn prefixed(a: &str, n: u64) -> (r: String)
    ensures
        r@ == a@ + decimal(n as nat),
{
    let mut t = owned(a);
    let d = u64_to_decimal(n);
    push_str(&mut t, d.as_str());
    t
}

/// The text `{a}{n}{b}`.
fn numbered(a: &str, n: u64, b: &str) -> (r: String)
    ensures
        r@ == a@ + decimal(n as nat) + b@,
{
    let mut t = owned(a);
    let d = u64_to_decimal(n);
    push_str(&mut t, d.as_str());
    push_str(&mut t, b);
    t
}

/// The text `{a}{n}{b}{m}`.
fn numbered2(a: &str, n: u64, b: &str, m: u64) -> (r: String)
    ensures
        r@ == a@ + decimal(n as nat) + b@ + decimal(m as nat),
{
    let mut t = numbered(a, n, b);
    let d = u64_to_decimal(m);
    push_str(&mut t, d.as_str());
    t
}

/// Mock servers in numbers, for load tests.
#[derive(Debug)]
pub struct PerformanceTestUtils;

/// The two tools of server `i` of a large set.
pub open spec fn large_set_tools(i: nat) -> Seq<Json> {
    seq![
        mock_tool("tool-"@ + decimal(i) + "-1"@, "First tool for server "@ + decimal(i),
            seq![("param1"@, "string"@, true), ("param2"@, "number"@, false)]),
        mock_tool("tool-"@ + decimal(i) + "-2"@, "Second tool for server "@ + decimal(i),
            seq![("data"@, "object"@, true)]),
    ]
}

/// `count` tools of server `k`: tool `j` is `tool-{k}-{j}`, described as
/// `Tool {j}{middle}{k}`, with parameters `params`.
pub open spec fn numbered_tools(k: nat, count: nat, middle: Seq<char>, params: Seq<(Seq<char>, Seq<char>, bool)>) -> Seq<Json> {
    Seq::new(count, |j: int| mock_tool("tool-"@ + decimal(k) + "-"@ + decimal(j as nat), "Tool "@ + decimal(j as nat) + middle + decimal(k), params))
}

impl PerformanceTestUtils {
    /// `count` servers `server-{i}`, each with two tools.
    pub fn create_large_server_set(count: usize) -> (r: Vec<MockMcpServer>)
        ensures
            r@.len() == count,
            forall|i: int| 0 <= i < count ==> is_mock(#[trigger] r@[i], "server-"@ + decimal(i as nat), large_set_tools(i as nat), None),
    {
        let mut servers: Vec<MockMcpServer> = Vec::new();
        let mut i: usize = 0;
        while i < count
            invariant
                i <= count,
                servers@.len() == i,
                forall|k: int| 0 <= k < i ==> is_mock(#[trigger] servers@[k], "server-"@ + decimal(k as nat), large_set_tools(k as nat), None),
            decreases count - i,
        {
            let n = i as u64;
            let p1 = vec![("param1", "string", true), ("param2", "number", false)];
            let p2 = vec![("data", "object", true)];
            assert(mock_param_views(p1@) =~= seq![("param1"@, "string"@, true), ("param2"@, "number"@, false)]);
            assert(mock_param_views(p2@) =~= seq![("data"@, "object"@, true)]);
            let name = prefixed("server-", n);
            let t1 = numbered("tool-", n, "-1");
            let d1 = prefixed("First tool for server ", n);
            let t2 = numbered("tool-", n, "-2");
            let d2 = prefixed("Second tool for server ", n);
            let server = MockMcpServer::new(name.as_str())
                .with_tool(t1.as_str(), d1.as_str(), p1)
                .with_tool(t2.as_str(), d2.as_str(), p2);
            assert(views_of(server.tools@) =~= large_set_tools(i as nat));
            servers.push(server);
            i = i + 1;
        }
        servers
    }

    /// Servers of three sizes: five small ones with one tool, three medium
    /// ones with seven tools and two large ones with twenty-five.
    pub fn create_varied_servers() -> (r: Vec<MockMcpServer>)
        ensures
            r@.len() == 10,
            forall|k: int| 0 <= k < 5 ==> is_mock(#[trigger] r@[k], "small-server-"@ + decimal(k as nat),
                seq![mock_tool("tool-"@ + decimal(k as nat), "Simple tool"@, seq![("param"@, "string"@, true)])], None),
            forall|k: int| 0 <= k < 3 ==> is_mock(#[trigger] r@[5 + k], "medium-server-"@ + decimal(k as nat),
                numbered_tools(k as nat, 7, " for medium server "@, seq![("param1"@, "string"@, true), ("param2"@, "number"@, false)]), None),
            forall|k: int| 0 <= k < 2 ==> is_mock(#[trigger] r@[8 + k], "large-server-"@ + decimal(k as nat),
                numbered_tools(k as nat, 25, " for large server "@,
                    seq![("param1"@, "string"@, true), ("param2"@, "number"@, false), ("param3"@, "boolean"@, false)]), None),
    {
        let mut servers: Vec<MockMcpServer> = Vec::new();
        let mut i: u64 = 0;
        while i < 5
            invariant
                i <= 5,
                servers@.len() == i,
                forall|k: int| 0 <= k < i ==> is_mock(#[trigger] servers@[k], "small-server-"@ + decimal(k as nat),
                    seq![mock_tool("tool-"@ + decimal(k as nat), "Simple tool"@, seq![("param"@, "string"@, true)])], None),
            decreases 5 - i,
        {
            let p = vec![("param", "string", true)];
            assert(mock_param_views(p@) =~= seq![("param"@, "string"@, true)]);
            let name = prefixed("small-server-", i);
            let tool = prefixed("tool-", i);
            let server = MockMcpServer::new(name.as_str()).with_tool(tool.as_str(), "Simple tool", p);
            assert(views_of(server.tools@) =~= seq![mock_tool("tool-"@ + decimal(i as nat), "Simple tool"@, seq![("param"@, "string"@, true)])]);
            servers.push(server);
            i = i + 1;
        }
        let ghost medium_params = seq![("param1"@, "string"@, true), ("param2"@, "number"@, false)];
        let mut i: u64 = 0;
        while i < 3
            invariant
                i <= 3,
                servers@.len() == 5 + i,
                medium_params == seq![("param1"@, "string"@, true), ("param2"@, "number"@, false)],
                forall|k: int| 0 <= k < 5 ==> is_mock(#[trigger] servers@[k], "small-server-"@ + decimal(k as nat),
                    seq![mock_tool("tool-"@ + decimal(k as nat), "Simple tool"@, seq![("param"@, "string"@, true)])], None),
                forall|k: int| 0 <= k < i ==> is_mock(#[trigger] servers@[5 + k], "medium-server-"@ + decimal(k as nat),
                    numbered_tools(k as nat, 7, " for medium server "@, medium_params), None),
            decreases 3 - i,
        {
            let name = prefixed("medium-server-", i);
            let mut server = MockMcpServer::new(name.as_str());
            let mut j: u64 = 0;
            assert(views_of(server.tools@) =~= numbered_tools(i as nat, 0, " for medium server "@, medium_params));
            while j < 7
                invariant
                    j <= 7,
                    server.name@ == "medium-server-"@ + decimal(i as nat),
                    !server.should_fail,
                    server.failure_message@ == Seq::<char>::empty(),
                    medium_params == seq![("param1"@, "string"@, true), ("param2"@, "number"@, false)],
                    views_of(server.tools@) == numbered_tools(i as nat, j as nat, " for medium server "@, medium_params),
                decreases 7 - j,
            {
                let p = vec![("param1", "string", true), ("param2", "number", false)];
                assert(mock_param_views(p@) =~= medium_params);
                let tool = numbered2("tool-", i, "-", j);
                let description = numbered2("Tool ", j, " for medium server ", i);
                server = server.with_tool(tool.as_str(), description.as_str(), p);
                assert(views_of(server.tools@) =~= numbered_tools(i as nat, (j + 1) as nat, " for medium server "@, medium_params));
                j = j + 1;
            }
            let ghost before = servers@;
            servers.push(server);
            assert(servers@[5 + i as int] == server);
            assert forall|k: int| 0 <= k < 5 + i implies servers@[k] == before[k] by {}
            i = i + 1;
        }
        let ghost large_params = seq![("param1"@, "string"@, true), ("param2"@, "number"@, false), ("param3"@, "boolean"@, false)];
        let mut i: u64 = 0;
        while i < 2
            invariant
                i <= 2,
                servers@.len() == 8 + i,
                medium_params == seq![("param1"@, "string"@, true), ("param2"@, "number"@, false)],
                large_params == seq![("param1"@, "string"@, true), ("param2"@, "number"@, false), ("param3"@, "boolean"@, false)],
                forall|k: int| 0 <= k < 5 ==> is_mock(#[trigger] servers@[k], "small-server-"@ + decimal(k as nat),
                    seq![mock_tool("tool-"@ + decimal(k as nat), "Simple tool"@, seq![("param"@, "string"@, true)])], None),
                forall|k: int| 0 <= k < 3 ==> is_mock(#[trigger] servers@[5 + k], "medium-server-"@ + decimal(k as nat),
                    numbered_tools(k as nat, 7, " for medium server "@, medium_params), None),
                forall|k: int| 0 <= k < i ==> is_mock(#[trigger] servers@[8 + k], "large-server-"@ + decimal(k as nat),
                    numbered_tools(k as nat, 25, " for large server "@, large_params), None),
            decreases 2 - i,
        {
            let name = prefixed("large-server-", i);
            let mut server = MockMcpServer::new(name.as_str());
            let mut j: u64 = 0;
            assert(views_of(server.tools@) =~= numbered_tools(i as nat, 0, " for large server "@, large_params));
            while j < 25
                invariant
                    j <= 25,
                    server.name@ == "large-server-"@ + decimal(i as nat),
                    !server.should_fail,
                    server.failure_message@ == Seq::<char>::empty(),
                    large_params == seq![("param1"@, "string"@, true), ("param2"@, "number"@, false), ("param3"@, "boolean"@, false)],
                    views_of(server.tools@) == numbered_tools(i as nat, j as nat, " for large server "@, large_params),
                decreases 25 - j,
            {
                let p = vec![("param1", "string", true), ("param2", "number", false), ("param3", "boolean", false)];
                assert(mock_param_views(p@) =~= large_params);
                let tool = numbered2("tool-", i, "-", j);
                let description = numbered2("Tool ", j, " for large server ", i);
                server = server.with_tool(tool.as_str(), description.as_str(), p);
                assert(views_of(server.tools@) =~= numbered_tools(i as nat, (j + 1) as nat, " for large server "@, large_params));
                j = j + 1;
            }
            let ghost before = servers@;
            servers.push(server);
            assert(servers@[8 + i as int] == server);
            assert forall|k: int| 0 <= k < 8 + i implies servers@[k] == before[k] by {}
            i = i + 1;
        }
        servers
    }
}

} // verus!
