use vstd::prelude::*;

use crate::text::{owned, push_str, u64_to_decimal, decimal};

verus! {

#[verifier::external_type_specification]
#[verifier::external_body]
pub struct ExIoError(std::io::Error);

#[verifier::external_type_specification]
#[verifier::external_body]
pub struct ExJsonError(serde_json::Error);

/// Formats an I/O error with its `Display` impl (`ToString::to_string`).
/// Nothing is stated of the text: the error is opaque here.
#[verifier::external_body]
fn io_error_text(e: &std::io::Error) -> String {
    e.to_string()
}

/// Formats a `serde_json::Error` with its `Display` impl.
/// Nothing is stated of the text: the error is opaque here.
#[verifier::external_body]
fn json_error_text(e: &serde_json::Error) -> String {
    e.to_string()
}

/// Formats a `Duration` with its `Debug` impl (`{:?}`).
/// Nothing is stated of the text: the duration is opaque here.
#[verifier::external_body]
fn duration_debug_text(d: &std::time::Duration) -> String {
    format!("{:?}", d)
}

/// Errors of MCP operations.
#[derive(Debug)]
#[allow(inconsistent_fields)]
pub enum McpError {
    ConfigFileNotFound { path: String },
    InvalidConfig { reason: String },
    MalformedServerConfig { server_name: String, details: String },
    ServerConnectionFailed { server_name: String, reason: String },
    ServerUnavailable { server_name: String },
    ServerTimeout { server_name: String, timeout: std::time::Duration },
    ServerError { server_name: String, error_message: String },
    InvalidToolSchema { server_name: String, tool_name: String, reason: String },
    MissingSchemaField { field_name: String },
    SchemaParseFailed { server_name: String, details: String },
    IndexingFailed { server_name: String, reason: String },
    EmbeddingFailed { tool_name: String, reason: String },
    StorageFailed { reason: String },
    SearchFailed { reason: String },
    InvalidQuery { query: String, reason: String },
    FunctionDefinitionFailed { tool_name: String, reason: String },
    ParameterMappingFailed { tool_name: String, reason: String },
    HealthCheckFailed { server_name: String, reason: String },
    MaxRetriesExceeded { server_name: String, max_retries: u32 },
    IoError { operation: String, source: std::io::Error },
    JsonError { context: String, source: serde_json::Error },
    OperationCancelled { operation: String },
    OperationTimeout { operation: String, timeout_seconds: u64 },
    Internal { message: String },
    /// An error of the MCP client, held as its message.
    McpClient(String),
    /// An error of the client's transport, held as its message.
    Transport(String),
}

/// Result type of MCP operations.
pub type McpResult<T> = Result<T, McpError>;

impl McpError {
    /// Errors worth another attempt: failed or timed-out connections,
    /// unavailable servers and failed health checks.
    pub open spec fn retryable(self) -> bool {
        match self {
            McpError::ServerConnectionFailed { .. }
            | McpError::ServerTimeout { .. }
            | McpError::ServerUnavailable { .. }
            | McpError::HealthCheckFailed { .. } => true,
            _ => false,
        }
    }

    /// The server an error is about, for the variants that name one.
    pub open spec fn server(self) -> Option<Seq<char>> {
        match self {
            McpError::MalformedServerConfig { server_name, .. } => Some(server_name@),
            McpError::ServerConnectionFailed { server_name, .. } => Some(server_name@),
            McpError::ServerUnavailable { server_name } => Some(server_name@),
            McpError::ServerTimeout { server_name, .. } => Some(server_name@),
            McpError::ServerError { server_name, .. } => Some(server_name@),
            McpError::InvalidToolSchema { server_name, .. } => Some(server_name@),
            McpError::SchemaParseFailed { server_name, .. } => Some(server_name@),
            McpError::IndexingFailed { server_name, .. } => Some(server_name@),
            McpError::HealthCheckFailed { server_name, .. } => Some(server_name@),
            McpError::MaxRetriesExceeded { server_name, .. } => Some(server_name@),
            _ => None,
        }
    }

    /// The text of an error, for the variants whose text holds only strings
    /// and integers; `None` for those that format a duration or a wrapped error.
    pub open spec fn display_text(self) -> Option<Seq<char>> {
        match self {
            McpError::ConfigFileNotFound { path } =>
                Some("MCP configuration file not found at path: "@ + path@),
            McpError::InvalidConfig { reason } =>
                Some("Invalid MCP configuration: "@ + reason@),
            McpError::MalformedServerConfig { server_name, details } =>
                Some("MCP server configuration is malformed: "@ + server_name@ + " - "@ + details@),
            McpError::ServerConnectionFailed { server_name, reason } =>
                Some("Failed to connect to MCP server '"@ + server_name@ + "': "@ + reason@),
            McpError::ServerUnavailable { server_name } =>
                Some("MCP server '"@ + server_name@ + "' is unavailable (health check failed)"@),
            McpError::ServerError { server_name, error_message } =>
                Some("MCP server '"@ + server_name@ + "' returned an error: "@ + error_message@),
            McpError::InvalidToolSchema { server_name, tool_name, reason } =>
                Some("Invalid tool schema from server '"@ + server_name@ + "', tool '"@ + tool_name@ + "': "@ + reason@),
            McpError::MissingSchemaField { field_name } =>
                Some("Missing required field in tool schema: "@ + field_name@),
            McpError::SchemaParseFailed { server_name, details } =>
                Some("Tool schema parsing failed for server '"@ + server_name@ + "': "@ + details@),
            McpError::IndexingFailed { server_name, reason } =>
                Some("Failed to index MCP tools from server '"@ + server_name@ + "': "@ + reason@),
            McpError::EmbeddingFailed { tool_name, reason } =>
                Some("Embedding generation failed for tool '"@ + tool_name@ + "': "@ + reason@),
            McpError::StorageFailed { reason } =>
                Some("Failed to store MCP context: "@ + reason@),
            McpError::SearchFailed { reason } =>
                Some("MCP tool search failed: "@ + reason@),
            McpError::InvalidQuery { query, reason } =>
                Some("Invalid search query: "@ + query@ + " - "@ + reason@),
            McpError::FunctionDefinitionFailed { tool_name, reason } =>
                Some("Failed to convert MCP tool to function definition: "@ + tool_name@ + " - "@ + reason@),
            McpError::ParameterMappingFailed { tool_name, reason } =>
                Some("Tool parameter mapping failed for '"@ + tool_name@ + "': "@ + reason@),
            McpError::HealthCheckFailed { server_name, reason } =>
                Some("Health check failed for server '"@ + server_name@ + "': "@ + reason@),
            McpError::MaxRetriesExceeded { server_name, max_retries } =>
                Some("Server '"@ + server_name@ + "' exceeded maximum retry attempts ("@ + decimal(max_retries as nat) + ")"@),
            McpError::OperationCancelled { operation } =>
                Some("MCP operation was cancelled: "@ + operation@),
            McpError::OperationTimeout { operation, timeout_seconds } =>
                Some("Operation '"@ + operation@ + "' timed out after "@ + decimal(timeout_seconds as nat) + " seconds"@),
            McpError::Internal { message } =>
                Some("Internal MCP error: "@ + message@),
            McpError::McpClient(m) => Some("MCP client error: "@ + m@),
            McpError::Transport(m) => Some("Transport error: "@ + m@),
            _ => None,
        }
    }

    /// `b` is a copy of `a`: the same variant with fields of the same value.
    /// Errors that wrap a value that cannot be copied have no copy.
    pub open spec fn copies(a: McpError, b: McpError) -> bool {
        match (a, b) {
            (McpError::ConfigFileNotFound { path: x }, McpError::ConfigFileNotFound { path: y }) => x@ == y@,
            (McpError::InvalidConfig { reason: x }, McpError::InvalidConfig { reason: y }) => x@ == y@,
            (McpError::MalformedServerConfig { server_name: s1, details: d1 },
             McpError::MalformedServerConfig { server_name: s2, details: d2 }) => s1@ == s2@ && d1@ == d2@,
            (McpError::ServerConnectionFailed { server_name: s1, reason: r1 },
             McpError::ServerConnectionFailed { server_name: s2, reason: r2 }) => s1@ == s2@ && r1@ == r2@,
            (McpError::ServerUnavailable { server_name: s1 }, McpError::ServerUnavailable { server_name: s2 }) => s1@ == s2@,
            (McpError::ServerTimeout { server_name: s1, timeout: t1 },
             McpError::ServerTimeout { server_name: s2, timeout: t2 }) => s1@ == s2@ && t1 == t2,
            (McpError::ServerError { server_name: s1, error_message: m1 },
             McpError::ServerError { server_name: s2, error_message: m2 }) => s1@ == s2@ && m1@ == m2@,
            (McpError::InvalidToolSchema { server_name: s1, tool_name: t1, reason: r1 },
             McpError::InvalidToolSchema { server_name: s2, tool_name: t2, reason: r2 }) =>
                s1@ == s2@ && t1@ == t2@ && r1@ == r2@,
            (McpError::MissingSchemaField { field_name: x }, McpError::MissingSchemaField { field_name: y }) => x@ == y@,
            (McpError::SchemaParseFailed { server_name: s1, details: d1 },
             McpError::SchemaParseFailed { server_name: s2, details: d2 }) => s1@ == s2@ && d1@ == d2@,
            (McpError::IndexingFailed { server_name: s1, reason: r1 },
             McpError::IndexingFailed { server_name: s2, reason: r2 }) => s1@ == s2@ && r1@ == r2@,
            (McpError::EmbeddingFailed { tool_name: t1, reason: r1 },
             McpError::EmbeddingFailed { tool_name: t2, reason: r2 }) => t1@ == t2@ && r1@ == r2@,
            (McpError::StorageFailed { reason: x }, McpError::StorageFailed { reason: y }) => x@ == y@,
            (McpError::SearchFailed { reason: x }, McpError::SearchFailed { reason: y }) => x@ == y@,
            (McpError::InvalidQuery { query: q1, reason: r1 }, McpError::InvalidQuery { query: q2, reason: r2 }) =>
                q1@ == q2@ && r1@ == r2@,
            (McpError::FunctionDefinitionFailed { tool_name: t1, reason: r1 },
             McpError::FunctionDefinitionFailed { tool_name: t2, reason: r2 }) => t1@ == t2@ && r1@ == r2@,
            (McpError::ParameterMappingFailed { tool_name: t1, reason: r1 },
             McpError::ParameterMappingFailed { tool_name: t2, reason: r2 }) => t1@ == t2@ && r1@ == r2@,
            (McpError::HealthCheckFailed { server_name: s1, reason: r1 },
             McpError::HealthCheckFailed { server_name: s2, reason: r2 }) => s1@ == s2@ && r1@ == r2@,
            (McpError::MaxRetriesExceeded { server_name: s1, max_retries: m1 },
             McpError::MaxRetriesExceeded { server_name: s2, max_retries: m2 }) => s1@ == s2@ && m1 == m2,
            (McpError::OperationCancelled { operation: x }, McpError::OperationCancelled { operation: y }) => x@ == y@,
            (McpError::OperationTimeout { operation: o1, timeout_seconds: t1 },
             McpError::OperationTimeout { operation: o2, timeout_seconds: t2 }) => o1@ == o2@ && t1 == t2,
            (McpError::Internal { message: x }, McpError::Internal { message: y }) => x@ == y@,
            _ => false,
        }
    }

    /// `McpError::InvalidConfig` with the given reason.
    pub fn config_error(reason: &str) -> (r: McpError)
        ensures
            r matches McpError::InvalidConfig { reason: x } && x@ == reason@,
    {
        McpError::InvalidConfig { reason: owned(reason) }
    }

    /// `McpError::ServerConnectionFailed` for a server.
    pub fn connection_failed(server_name: &str, reason: &str) -> (r: McpError)
        ensures
            r matches McpError::ServerConnectionFailed { server_name: s, reason: x }
                && s@ == server_name@ && x@ == reason@,
    {
        McpError::ServerConnectionFailed { server_name: owned(server_name), reason: owned(reason) }
    }

    /// `McpError::InvalidToolSchema` for a tool of a server.
    pub fn invalid_schema(server_name: &str, tool_name: &str, reason: &str) -> (r: McpError)
        ensures
            r matches McpError::InvalidToolSchema { server_name: s, tool_name: t, reason: x }
                && s@ == server_name@ && t@ == tool_name@ && x@ == reason@,
    {
        McpError::InvalidToolSchema { server_name: owned(server_name), tool_name: owned(tool_name), reason: owned(reason) }
    }

    /// `McpError::IndexingFailed` for a server.
    pub fn indexing_failed(server_name: &str, reason: &str) -> (r: McpError)
        ensures
            r matches McpError::IndexingFailed { server_name: s, reason: x }
                && s@ == server_name@ && x@ == reason@,
    {
        McpError::IndexingFailed { server_name: owned(server_name), reason: owned(reason) }
    }

    /// `McpError::SearchFailed`.
    pub fn search_failed(reason: &str) -> (r: McpError)
        ensures
            r matches McpError::SearchFailed { reason: x } && x@ == reason@,
    {
        McpError::SearchFailed { reason: owned(reason) }
    }

    /// `McpError::Internal`.
    pub fn internal(message: &str) -> (r: McpError)
        ensures
            r matches McpError::Internal { message: x } && x@ == message@,
    {
        McpError::Internal { message: owned(message) }
    }

    /// Whether the operation that failed with this error is worth another attempt.
    pub fn is_retryable(&self) -> (r: bool)
        ensures
            r == self.retryable(),
    {
        match self {
            McpError::ServerConnectionFailed { .. }
            | McpError::ServerTimeout { .. }
            | McpError::ServerUnavailable { .. }
            | McpError::HealthCheckFailed { .. } => true,
            _ => false,
        }
    }

    /// The server an error is about, if it names one.
    pub fn server_name(&self) -> (r: Option<&str>)
        ensures
            r matches Some(s) ==> self.server() == Some(s@),
            r is None ==> self.server() is None,
    {
        match self {
            McpError::MalformedServerConfig { server_name, .. }
            | McpError::ServerConnectionFailed { server_name, .. }
            | McpError::ServerUnavailable { server_name }
            | McpError::ServerTimeout { server_name, .. }
            | McpError::ServerError { server_name, .. }
            | McpError::InvalidToolSchema { server_name, .. }
            | McpError::SchemaParseFailed { server_name, .. }
            | McpError::IndexingFailed { server_name, .. }
            | McpError::HealthCheckFailed { server_name, .. }
            | McpError::MaxRetriesExceeded { server_name, .. } => Some(server_name.as_str()),
            _ => None,
        }
    }
}


/// `pre` followed by `a`.
fn cat2(pre: &str, a: &str) -> (r: String)
    ensures
        r@ == pre@ + a@,
{
    let mut r = owned(pre);
    push_str(&mut r, a);
    r
}

/// `pre`, `a`, `post` one after the other.
fn cat3(pre: &str, a: &str, post: &str) -> (r: String)
    ensures
        r@ == pre@ + a@ + post@,
{
    let mut r = owned(pre);
    push_str(&mut r, a);
    push_str(&mut r, post);
    r
}

/// `p1`, `a`, `p2`, `b`, `p3` one after the other.
fn cat5(p1: &str, a: &str, p2: &str, b: &str, p3: &str) -> (r: String)
    ensures
        r@ == p1@ + a@ + p2@ + b@ + p3@,
{
    let mut r = owned(p1);
    push_str(&mut r, a);
    push_str(&mut r, p2);
    push_str(&mut r, b);
    push_str(&mut r, p3);
    r
}

/// `pre`, `a`, `mid`, `b` one after the other.
fn cat4(pre: &str, a: &str, mid: &str, b: &str) -> (r: String)
    ensures
        r@ == pre@ + a@ + mid@ + b@,
{
    let mut r = owned(pre);
    push_str(&mut r, a);
    push_str(&mut r, mid);
    push_str(&mut r, b);
    r
}

/// `p1`, `a`, `p2`, `b`, `p3`, `c` one after the other.
fn cat6(p1: &str, a: &str, p2: &str, b: &str, p3: &str, c: &str) -> (r: String)
    ensures
        r@ == p1@ + a@ + p2@ + b@ + p3@ + c@,
{
    let mut r = cat4(p1, a, p2, b);
    push_str(&mut r, p3);
    push_str(&mut r, c);
    r
}

impl McpError {
    /// The text of the error (what its `Display` impl prints).
    pub fn message(&self) -> (r: String)
        ensures
            self.display_text() matches Some(t) ==> r@ == t,
            self matches McpError::ServerTimeout { server_name, .. } ==>
                r@.subrange(0, ("Connection to MCP server '"@ + server_name@ + "' timed out after "@).len() as int)
                    == "Connection to MCP server '"@ + server_name@ + "' timed out after "@,
            self matches McpError::IoError { operation, .. } ==>
                r@.subrange(0, ("IO error during MCP operation: "@ + operation@ + " - "@).len() as int)
                    == "IO error during MCP operation: "@ + operation@ + " - "@,
            self matches McpError::JsonError { context, .. } ==>
                r@.subrange(0, ("JSON serialization/deserialization error: "@ + context@ + " - "@).len() as int)
                    == "JSON serialization/deserialization error: "@ + context@ + " - "@,
    {
        match self {
            McpError::ConfigFileNotFound { path } =>
                cat2("MCP configuration file not found at path: ", path.as_str()),
            McpError::InvalidConfig { reason } => cat2("Invalid MCP configuration: ", reason.as_str()),
            McpError::MalformedServerConfig { server_name, details } =>
                cat4("MCP server configuration is malformed: ", server_name.as_str(), " - ", details.as_str()),
            McpError::ServerConnectionFailed { server_name, reason } =>
                cat4("Failed to connect to MCP server '", server_name.as_str(), "': ", reason.as_str()),
            McpError::ServerUnavailable { server_name } =>
                cat3("MCP server '", server_name.as_str(), "' is unavailable (health check failed)"),
            McpError::ServerTimeout { server_name, timeout } => {
                let t = duration_debug_text(timeout);
                let r = cat4("Connection to MCP server '", server_name.as_str(), "' timed out after ", t.as_str());
                assert(r@.subrange(0, ("Connection to MCP server '"@ + server_name@ + "' timed out after "@).len() as int)
                    =~= "Connection to MCP server '"@ + server_name@ + "' timed out after "@);
                r
            },
            McpError::ServerError { server_name, error_message } =>
                cat4("MCP server '", server_name.as_str(), "' returned an error: ", error_message.as_str()),
            McpError::InvalidToolSchema { server_name, tool_name, reason } =>
                cat6("Invalid tool schema from server '", server_name.as_str(), "', tool '", tool_name.as_str(), "': ", reason.as_str()),
            McpError::MissingSchemaField { field_name } =>
                cat2("Missing required field in tool schema: ", field_name.as_str()),
            McpError::SchemaParseFailed { server_name, details } =>
                cat4("Tool schema parsing failed for server '", server_name.as_str(), "': ", details.as_str()),
            McpError::IndexingFailed { server_name, reason } =>
                cat4("Failed to index MCP tools from server '", server_name.as_str(), "': ", reason.as_str()),
            McpError::EmbeddingFailed { tool_name, reason } =>
                cat4("Embedding generation failed for tool '", tool_name.as_str(), "': ", reason.as_str()),
            McpError::StorageFailed { reason } => cat2("Failed to store MCP context: ", reason.as_str()),
            McpError::SearchFailed { reason } => cat2("MCP tool search failed: ", reason.as_str()),
            McpError::InvalidQuery { query, reason } =>
                cat4("Invalid search query: ", query.as_str(), " - ", reason.as_str()),
            McpError::FunctionDefinitionFailed { tool_name, reason } =>
                cat4("Failed to convert MCP tool to function definition: ", tool_name.as_str(), " - ", reason.as_str()),
            McpError::ParameterMappingFailed { tool_name, reason } =>
                cat4("Tool parameter mapping failed for '", tool_name.as_str(), "': ", reason.as_str()),
            McpError::HealthCheckFailed { server_name, reason } =>
                cat4("Health check failed for server '", server_name.as_str(), "': ", reason.as_str()),
            McpError::MaxRetriesExceeded { server_name, max_retries } => {
                let n = u64_to_decimal(*max_retries as u64);
                let r = cat5("Server '", server_name.as_str(), "' exceeded maximum retry attempts (", n.as_str(), ")");
                r
            },
            McpError::IoError { operation, source } => {
                let t = io_error_text(source);
                let r = cat4("IO error during MCP operation: ", operation.as_str(), " - ", t.as_str());
                assert(r@.subrange(0, ("IO error during MCP operation: "@ + operation@ + " - "@).len() as int)
                    =~= "IO error during MCP operation: "@ + operation@ + " - "@);
                r
            },
            McpError::JsonError { context, source } => {
                let t = json_error_text(source);
                let r = cat4("JSON serialization/deserialization error: ", context.as_str(), " - ", t.as_str());
                assert(r@.subrange(0, ("JSON serialization/deserialization error: "@ + context@ + " - "@).len() as int)
                    =~= "JSON serialization/deserialization error: "@ + context@ + " - "@);
                r
            },
            McpError::OperationCancelled { operation } =>
                cat2("MCP operation was cancelled: ", operation.as_str()),
            McpError::OperationTimeout { operation, timeout_seconds } => {
                let n = u64_to_decimal(*timeout_seconds);
                cat5("Operation '", operation.as_str(), "' timed out after ", n.as_str(), " seconds")
            },
            McpError::Internal { message } => cat2("Internal MCP error: ", message.as_str()),
            McpError::McpClient(m) => cat2("MCP client error: ", m.as_str()),
            McpError::Transport(m) => cat2("Transport error: ", m.as_str()),
        }
    }
}


impl McpError {
    /// The plain-language message of the kinds of error a user meets most;
    /// `None` for the others, which show their own text.
    pub open spec fn user_text(self) -> Option<Seq<char>> {
        match self {
            McpError::ConfigFileNotFound { .. } =>
                Some("MCP configuration file not found. Please ensure mcp.json exists and is properly configured."@),
            McpError::InvalidConfig { .. } =>
                Some("MCP configuration is invalid. Please check your mcp.json file format."@),
            McpError::ServerConnectionFailed { server_name, .. } =>
                Some("Unable to connect to MCP server '"@ + server_name@ + "'. Please check if the server is running and accessible."@),
            McpError::ServerUnavailable { server_name } =>
                Some("MCP server '"@ + server_name@ + "' is currently unavailable. It may be starting up or experiencing issues."@),
            McpError::ServerTimeout { server_name, .. } =>
                Some("Connection to MCP server '"@ + server_name@ + "' timed out. The server may be overloaded or unresponsive."@),
            McpError::InvalidToolSchema { server_name, tool_name, .. } =>
                Some("Tool '"@ + tool_name@ + "' from server '"@ + server_name@ + "' has an invalid schema. The server may need to be updated."@),
            McpError::IndexingFailed { server_name, .. } =>
                Some("Failed to index tools from server '"@ + server_name@ + "'. Some tools may not be available for search."@),
            McpError::SearchFailed { .. } =>
                Some("Tool search failed. Please try again or check your query."@),
            _ => None,
        }
    }

    /// A message for the user: a plain-language one for the common errors,
    /// the error's own text for the others.
    pub fn user_message(&self) -> (r: String)
        ensures
            self.user_text() matches Some(t) ==> r@ == t,
            self.user_text() is None ==> (self.display_text() matches Some(t) ==> r@ == t),
    {
        match self {
            McpError::ConfigFileNotFound { .. } =>
                owned("MCP configuration file not found. Please ensure mcp.json exists and is properly configured."),
            McpError::InvalidConfig { .. } =>
                owned("MCP configuration is invalid. Please check your mcp.json file format."),
            McpError::ServerConnectionFailed { server_name, .. } =>
                cat3("Unable to connect to MCP server '", server_name.as_str(), "'. Please check if the server is running and accessible."),
            McpError::ServerUnavailable { server_name } =>
                cat3("MCP server '", server_name.as_str(), "' is currently unavailable. It may be starting up or experiencing issues."),
            McpError::ServerTimeout { server_name, .. } =>
                cat3("Connection to MCP server '", server_name.as_str(), "' timed out. The server may be overloaded or unresponsive."),
            McpError::InvalidToolSchema { server_name, tool_name, .. } =>
                cat5("Tool '", tool_name.as_str(), "' from server '", server_name.as_str(), "' has an invalid schema. The server may need to be updated."),
            McpError::IndexingFailed { server_name, .. } =>
                cat3("Failed to index tools from server '", server_name.as_str(), "'. Some tools may not be available for search."),
            McpError::SearchFailed { .. } =>
                owned("Tool search failed. Please try again or check your query."),
            _ => self.message(),
        }
    }
}

/// A copy of a string.
fn copy_string(s: &String) -> (r: String)
    ensures
        r@ == s@,
{
    s.clone()
}

impl Clone for McpError {
    /// A copy of the error. An error that wraps an I/O error, a JSON error or
    /// an error of the MCP client becomes `Internal`, with that error's text
    /// in its message.
    fn clone(&self) -> (r: Self)
        ensures
            !(self is IoError || self is JsonError || self is McpClient || self is Transport) ==> McpError::copies(*self, r),
            self matches McpError::IoError { operation, .. } ==> (r matches McpError::Internal { message }
                && message@.subrange(0, ("IO error during "@ + operation@ + ": "@).len() as int) == "IO error during "@ + operation@ + ": "@),
            self matches McpError::JsonError { context, .. } ==> (r matches McpError::Internal { message }
                && message@.subrange(0, ("JSON error in "@ + context@ + ": "@).len() as int) == "JSON error in "@ + context@ + ": "@),
            self matches McpError::McpClient(m) ==> (r matches McpError::Internal { message }
                && message@ == "MCP client error: "@ + m@),
            self matches McpError::Transport(m) ==> (r matches McpError::Internal { message }
                && message@ == "Transport error: "@ + m@),
            r.retryable() == self.retryable(),
            r.server() == self.server(),
    {
        match self {
            McpError::ConfigFileNotFound { path } => McpError::ConfigFileNotFound { path: copy_string(path) },
            McpError::InvalidConfig { reason } => McpError::InvalidConfig { reason: copy_string(reason) },
            McpError::MalformedServerConfig { server_name, details } => McpError::MalformedServerConfig {
                server_name: copy_string(server_name),
                details: copy_string(details),
            },
            McpError::ServerConnectionFailed { server_name, reason } => McpError::ServerConnectionFailed {
                server_name: copy_string(server_name),
                reason: copy_string(reason),
            },
            McpError::ServerUnavailable { server_name } => McpError::ServerUnavailable {
                server_name: copy_string(server_name),
            },
            McpError::ServerTimeout { server_name, timeout } => McpError::ServerTimeout {
                server_name: copy_string(server_name),
                timeout: *timeout,
            },
            McpError::ServerError { server_name, error_message } => McpError::ServerError {
                server_name: copy_string(server_name),
                error_message: copy_string(error_message),
            },
            McpError::InvalidToolSchema { server_name, tool_name, reason } => McpError::InvalidToolSchema {
                server_name: copy_string(server_name),
                tool_name: copy_string(tool_name),
                reason: copy_string(reason),
            },
            McpError::MissingSchemaField { field_name } => McpError::MissingSchemaField {
                field_name: copy_string(field_name),
            },
            McpError::SchemaParseFailed { server_name, details } => McpError::SchemaParseFailed {
                server_name: copy_string(server_name),
                details: copy_string(details),
            },
            McpError::IndexingFailed { server_name, reason } => McpError::IndexingFailed {
                server_name: copy_string(server_name),
                reason: copy_string(reason),
            },
            McpError::EmbeddingFailed { tool_name, reason } => McpError::EmbeddingFailed {
                tool_name: copy_string(tool_name),
                reason: copy_string(reason),
            },
            McpError::StorageFailed { reason } => McpError::StorageFailed { reason: copy_string(reason) },
            McpError::SearchFailed { reason } => McpError::SearchFailed { reason: copy_string(reason) },
            McpError::InvalidQuery { query, reason } => McpError::InvalidQuery {
                query: copy_string(query),
                reason: copy_string(reason),
            },
            McpError::FunctionDefinitionFailed { tool_name, reason } => McpError::FunctionDefinitionFailed {
                tool_name: copy_string(tool_name),
                reason: copy_string(reason),
            },
            McpError::ParameterMappingFailed { tool_name, reason } => McpError::ParameterMappingFailed {
                tool_name: copy_string(tool_name),
                reason: copy_string(reason),
            },
            McpError::HealthCheckFailed { server_name, reason } => McpError::HealthCheckFailed {
                server_name: copy_string(server_name),
                reason: copy_string(reason),
            },
            McpError::MaxRetriesExceeded { server_name, max_retries } => McpError::MaxRetriesExceeded {
                server_name: copy_string(server_name),
                max_retries: *max_retries,
            },
            McpError::IoError { operation, source } => {
                let t = io_error_text(source);
                let message = cat4("IO error during ", operation.as_str(), ": ", t.as_str());
                assert(message@.subrange(0, ("IO error during "@ + operation@ + ": "@).len() as int)
                    =~= "IO error during "@ + operation@ + ": "@);
                McpError::Internal { message }
            },
            McpError::JsonError { context, source } => {
                let t = json_error_text(source);
                let message = cat4("JSON error in ", context.as_str(), ": ", t.as_str());
                assert(message@.subrange(0, ("JSON error in "@ + context@ + ": "@).len() as int)
                    =~= "JSON error in "@ + context@ + ": "@);
                McpError::Internal { message }
            },
            McpError::OperationCancelled { operation } => McpError::OperationCancelled {
                operation: copy_string(operation),
            },
            McpError::OperationTimeout { operation, timeout_seconds } => McpError::OperationTimeout {
                operation: copy_string(operation),
                timeout_seconds: *timeout_seconds,
            },
            McpError::Internal { message } => McpError::Internal { message: copy_string(message) },
            McpError::McpClient(m) => McpError::Internal { message: cat2("MCP client error: ", m.as_str()) },
            McpError::Transport(m) => McpError::Internal { message: cat2("Transport error: ", m.as_str()) },
        }
    }
}

} // verus!
