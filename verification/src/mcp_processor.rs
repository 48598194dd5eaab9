use std::collections::HashMap;
use std::path::PathBuf;

use vstd::prelude::*;

use crate::text::{owned, push_str, join, join_strings, find_first, has_substring, occurs_at, substring, lemma_join_holds_its_parts, lemma_substring_in_concat};
use crate::types::{McpServerConfig, McpToolContext, ToolParameter, ParamView, ContextView, param_views};
use crate::json::{Json, JsonValue, json_items, json_members, json_view, lemma_json_items, lemma_json_members, str_eq};
use crate::mcp_error::{McpError, McpResult};
use crate::clock::{to_snake_case, snake_case_of, utc_now_millis};

verus! {

#[verifier::external_type_specification]
#[verifier::external_body]
pub struct ExPathBuf(std::path::PathBuf);

/// `PathBuf::clone` copies the path: the copy is the same path.
pub assume_specification[ <std::path::PathBuf as Clone>::clone ](p: &std::path::PathBuf) -> (r: std::path::PathBuf)
    ensures
        r == *p,
;

/// A copy of a list of strings.
pub fn copy_strings(v: &Vec<String>) -> (r: Vec<String>)
    ensures
        r.deep_view() == v.deep_view(),
{
    let mut r: Vec<String> = Vec::new();
    let mut i: usize = 0;
    while i < v.len()
        invariant
            i <= v@.len(),
            r@.len() == i,
            forall|k: int| 0 <= k < i ==> #[trigger] r@[k]@ == v@[k]@,
        decreases v.len() - i,
    {
        let c = v[i].clone();
        r.push(c);
        i = i + 1;
    }
    assert(r.deep_view() =~= v.deep_view());
    r
}

/// A copy of an optional environment.
pub fn copy_env(env: &Option<HashMap<String, String>>) -> (r: Option<HashMap<String, String>>)
    ensures
        r matches Some(m) ==> env matches Some(e) && m@ == e@,
        r is None ==> env is None,
{
    match env {
        Some(m) => Some(m.clone()),
        None => None,
    }
}

/// An MCP server found in a configuration file.
#[derive(Debug, Clone)]
pub struct McpServerInfo {
    pub name: String,
    pub command: String,
    pub args: Vec<String>,
    pub env: Option<HashMap<String, String>>,
    /// Timeout of server operations, in milliseconds.
    pub timeout: u64,
    pub disabled: bool,
    /// Where the server was configured: `workspace` or `global`.
    pub source_scope: String,
    pub source_path: PathBuf,
}

/// Two optional environments hold the same variables.
pub open spec fn same_env(a: Option<HashMap<String, String>>, b: Option<HashMap<String, String>>) -> bool {
    match (a, b) {
        (Some(x), Some(y)) => x@ == y@,
        (None, None) => true,
        _ => false,
    }
}

impl McpServerInfo {
    /// `config` is how this server is run.
    pub open spec fn runs_as(&self, config: McpServerConfig) -> bool {
        &&& config.command@ == self.command@
        &&& config.args.deep_view() == self.args.deep_view()
        &&& same_env(config.env, self.env)
        &&& config.timeout == self.timeout
    }

    /// How to run this server, in the form the search client keeps.
    pub fn to_semantic_config(&self) -> (r: McpServerConfig)
        ensures
            self.runs_as(r),
    {
        McpServerConfig {
            command: self.command.clone(),
            args: copy_strings(&self.args),
            env: copy_env(&self.env),
            timeout: self.timeout,
        }
    }
}

/// A server entry of an `mcp.json` file.
#[derive(Debug, Clone)]
pub struct McpServerEntry {
    pub command: String,
    pub args: Vec<String>,
    pub env: Option<HashMap<String, String>>,
    pub timeout: u64,
    pub disabled: bool,
}

/// The servers a scope's configuration gave: none when it could not be read.
pub open spec fn found_servers(found: Result<Vec<McpServerInfo>, String>) -> Seq<McpServerInfo> {
    match found {
        Ok(v) => v@,
        Err(_) => Seq::empty(),
    }
}

/// The timeout of a server entry that gives none, in milliseconds.
pub const DEFAULT_SERVER_TIMEOUT_MS: u64 = 120_000;

/// How long discovering the servers may take, in seconds.
pub const MCP_SERVER_DISCOVERY_TIMEOUT_SECS: u64 = 30;

/// How long connecting to one server may take, in seconds.
pub const MCP_SERVER_CONNECTION_TIMEOUT_SECS: u64 = 15;

/// How an operation run under a time limit and a cancellation token ended.
#[derive(Debug)]
pub enum RaceOutcome<T> {
    /// The operation finished with this result.
    Finished(McpResult<T>),
    /// The time limit passed first.
    TimedOut,
    /// The token was cancelled first.
    Cancelled,
}

/// The result of an operation run under a time limit of `timeout_seconds`
/// and a cancellation token: its own result if it finished, else the error
/// that says which came first.
pub fn settle_race<T>(outcome: RaceOutcome<T>, timeout_seconds: u64, operation_name: &str) -> (r: McpResult<T>)
    ensures
        outcome matches RaceOutcome::Finished(x) ==> r == x,
        outcome is TimedOut ==> (r matches Err(McpError::OperationTimeout { operation, timeout_seconds: t })
            && operation@ == operation_name@ && t == timeout_seconds),
        outcome is Cancelled ==> (r matches Err(McpError::OperationCancelled { operation })
            && operation@ == operation_name@),
{
    match outcome {
        RaceOutcome::Finished(x) => x,
        RaceOutcome::TimedOut => Err(McpError::OperationTimeout { operation: owned(operation_name), timeout_seconds }),
        RaceOutcome::Cancelled => Err(McpError::OperationCancelled { operation: owned(operation_name) }),
    }
}

/// The name under which connecting to a server is timed.
pub fn connection_operation_name(server_name: &str) -> (r: String)
    ensures
        r@ == "MCP server connection to '"@ + server_name@ + "'"@,
{
    let mut n = owned("MCP server connection to '");
    push_str(&mut n, server_name);
    push_str(&mut n, "'");
    n
}

/// The two places an MCP configuration is read from.
#[derive(Debug, Clone, Copy, PartialEq, Eq, Structural)]
pub enum ConfigScope {
    Workspace,
    Global,
}

/// The scope a name gives: `workspace` or `global`; any other name is refused.
pub fn config_scope(scope: &str) -> (r: Result<ConfigScope, String>)
    ensures
        scope@ == "workspace"@ ==> r == Ok::<ConfigScope, String>(ConfigScope::Workspace),
        scope@ == "global"@ ==> r == Ok::<ConfigScope, String>(ConfigScope::Global),
        scope@ != "workspace"@ && scope@ != "global"@ ==>
            (r matches Err(m) && m@ == "Invalid scope: "@ + scope@ + ". Must be 'workspace' or 'global'"@),
{
    proof {
        reveal_strlit("workspace");
        reveal_strlit("global");
        assert("workspace"@.len() != "global"@.len());
    }
    if str_eq(scope, "workspace") {
        Ok(ConfigScope::Workspace)
    } else if str_eq(scope, "global") {
        Ok(ConfigScope::Global)
    } else {
        let mut m = owned("Invalid scope: ");
        push_str(&mut m, scope);
        push_str(&mut m, ". Must be 'workspace' or 'global'");
        Err(m)
    }
}

/// The error when a server returned an error for `tools/list`; the client's
/// error is given as its debug text.
pub fn server_returned_error(server_name: &str, error_debug: &str) -> (r: McpError)
    ensures
        r matches McpError::ServerError { server_name: s, error_message: m }
            && s@ == server_name@ && m@ == "Server returned error: "@ + error_debug@,
{
    let mut m = owned("Server returned error: ");
    push_str(&mut m, error_debug);
    McpError::ServerError { server_name: owned(server_name), error_message: m }
}

/// The result of a `tools/list` answer: its error if it has one, else its
/// result, which must be there.
pub fn tools_list_answer<T>(server_name: &str, error_debug: Option<&str>, result: Option<T>) -> (r: McpResult<T>)
    ensures
        error_debug matches Some(e) ==> (r matches Err(McpError::ServerError { server_name: s, error_message: m })
            && s@ == server_name@ && m@ == "Server returned error: "@ + e@),
        error_debug is None && result is None ==> (r matches Err(McpError::ServerError { server_name: s, error_message: m })
            && s@ == server_name@ && m@ == "Server returned empty result"@),
        error_debug is None ==> (result matches Some(x) ==> r == Ok::<T, McpError>(x)),
{
    if let Some(e) = error_debug {
        return Err(server_returned_error(server_name, e));
    }
    match result {
        Some(x) => Ok(x),
        None => Err(McpError::ServerError { server_name: owned(server_name), error_message: owned("Server returned empty result") }),
    }
}

/// Finds the MCP servers that configuration files name.
#[derive(Debug)]
pub struct McpDiscoveryService;

/// Why a server configuration is refused, if it is: an empty name, an empty
/// command, or a zero timeout, checked in that order.
pub open spec fn config_problem(server: McpServerInfo) -> Option<Seq<char>> {
    if server.name@.len() == 0 {
        Some("Server name cannot be empty"@)
    } else if server.command@.len() == 0 {
        Some("Server command cannot be empty"@)
    } else if server.timeout == 0 {
        Some("Server timeout must be greater than 0"@)
    } else {
        None
    }
}

impl McpDiscoveryService {
    pub fn new() -> (r: McpDiscoveryService) {
        McpDiscoveryService
    }

    /// Checks that a server can be started: it has a name and a command and
    /// a timeout above zero. The error says what is wrong.
    pub fn validate_server_config(&self, server: &McpServerInfo) -> (r: Result<(), String>)
        ensures
            r is Ok <==> config_problem(*server) is None,
            r matches Err(m) ==> config_problem(*server) == Some(m@),
    {
        if server.name.as_str().unicode_len() == 0 {
            return Err(owned("Server name cannot be empty"));
        }
        if server.command.as_str().unicode_len() == 0 {
            return Err(owned("Server command cannot be empty"));
        }
        if server.timeout == 0 {
            return Err(owned("Server timeout must be greater than 0"));
        }
        Ok(())
    }

    /// Checks a server before its tools are requested: a refused configuration
    /// is a `MalformedServerConfig` error that carries the reason.
    pub fn check_server_for_schemas(&self, server: &McpServerInfo) -> (r: McpResult<()>)
        ensures
            r is Ok <==> config_problem(*server) is None,
            r matches Err(McpError::MalformedServerConfig { server_name: s, details: d }) ==>
                s@ == server.name@ && config_problem(*server) == Some(d@),
            r is Err ==> r matches Err(McpError::MalformedServerConfig { .. }),
    {
        match self.validate_server_config(server) {
            Ok(()) => Ok(()),
            Err(details) => Err(McpError::MalformedServerConfig { server_name: server.name.clone(), details }),
        }
    }

    /// The servers of the entries of one configuration file, in order,
    /// tagged with the file's scope and path.
    pub fn servers_from_entries(
        &self,
        entries: Vec<(String, McpServerEntry)>,
        scope: &str,
        config_path: &PathBuf,
    ) -> (r: Vec<McpServerInfo>)
        ensures
            r@.len() == entries@.len(),
            forall|i: int| 0 <= i < entries@.len() ==> {
                let (name, e) = #[trigger] entries@[i];
                let s = r@[i];
                &&& s.name == name
                &&& s.command == e.command
                &&& s.args == e.args
                &&& s.env == e.env
                &&& s.timeout == e.timeout
                &&& s.disabled == e.disabled
                &&& s.source_scope@ == scope@
                &&& s.source_path == *config_path
            },
    {
        let mut r: Vec<McpServerInfo> = Vec::new();
        let mut rest = entries;
        let ghost all = rest@;
        let n = rest.len();
        let mut taken: usize = 0;
        while rest.len() > 0
            invariant
                taken + rest@.len() == all.len(),
                n == all.len(),
                rest@ =~= all.subrange(taken as int, all.len() as int),
                r@.len() == taken,
                forall|i: int| 0 <= i < taken ==> {
                    let (name, e) = #[trigger] all[i];
                    let s = r@[i];
                    &&& s.name == name
                    &&& s.command == e.command
                    &&& s.args == e.args
                    &&& s.env == e.env
                    &&& s.timeout == e.timeout
                    &&& s.disabled == e.disabled
                    &&& s.source_scope@ == scope@
                    &&& s.source_path == *config_path
                },
            decreases rest.len(),
        {
            assert(taken < all.len());
            let (name, e) = rest.remove(0);
            assert((name, e) == all[taken as int]);
            r.push(McpServerInfo {
                name,
                command: e.command,
                args: e.args,
                env: e.env,
                timeout: e.timeout,
                disabled: e.disabled,
                source_scope: owned(scope),
                source_path: config_path.clone(),
            });
            taken = taken + 1;
            assert(rest@ =~= all.subrange(taken as int, all.len() as int));
        }
        r
    }

    /// The enabled servers of the workspace configuration, then those of the
    /// global one, each list in its order. A configuration that could not be
    /// read contributes no server.
    pub fn merge_enabled_servers(&self, workspace: Result<Vec<McpServerInfo>, String>, global: Result<Vec<McpServerInfo>, String>)
        -> (r: Vec<McpServerInfo>)
        ensures
            r@ == (found_servers(workspace) + found_servers(global)).filter(|s: McpServerInfo| !s.disabled),
    {
        let workspace = match workspace {
            Ok(v) => v,
            Err(_) => Vec::new(),
        };
        let global = match global {
            Ok(v) => v,
            Err(_) => Vec::new(),
        };
        let ghost all = workspace@ + global@;
        let mut servers = workspace;
        let mut g = global;
        servers.append(&mut g);
        assert(servers@ == all);
        let mut r: Vec<McpServerInfo> = Vec::new();
        let mut rest = servers;
        let n = rest.len();
        let mut taken: usize = 0;
        while rest.len() > 0
            invariant
                taken + rest@.len() == all.len(),
                n == all.len(),
                rest@ =~= all.subrange(taken as int, all.len() as int),
                r@ == all.take(taken as int).filter(|s: McpServerInfo| !s.disabled),
            decreases rest.len(),
        {
            assert(taken < all.len());
            let s = rest.remove(0);
            assert(s == all[taken as int]);
            assert(all.take(taken + 1).drop_last() =~= all.take(taken as int));
            reveal_with_fuel(Seq::filter, 1);
            if !s.disabled {
                r.push(s);
            }
            taken = taken + 1;
            assert(rest@ =~= all.subrange(taken as int, all.len() as int));
        }
        assert(all.take(all.len() as int) =~= all);
        r
    }
}


/// The strings among a list of JSON values, in order.
pub open spec fn strings_among(items: Seq<Json>) -> Seq<Seq<char>>
    decreases items.len(),
{
    if items.len() == 0 {
        Seq::empty()
    } else {
        let rest = strings_among(items.drop_last());
        match items.last().as_str() {
            Some(s) => rest.push(s),
            None => rest,
        }
    }
}

/// The names an input schema lists under `required` (its string entries).
pub open spec fn required_names(schema: Json) -> Seq<Seq<char>> {
    match schema.get("required"@) {
        Some(r) => match r.as_array() {
            Some(items) => strings_among(items),
            None => Seq::empty(),
        },
        None => Seq::empty(),
    }
}

/// A text is among the strings of a list of JSON values exactly when some
/// value of the list is that string: every string is kept, nothing else is.
pub proof fn law_strings_among_are_the_listed_strings(items: Seq<Json>, s: Seq<char>)
    ensures
        strings_among(items).contains(s) <==> exists|i: int| 0 <= i < items.len() && #[trigger] items[i] == Json::Str(s),
    decreases items.len(),
{
    if items.len() > 0 {
        let rest = items.drop_last();
        law_strings_among_are_the_listed_strings(rest, s);
        let before = strings_among(rest);
        if strings_among(items).contains(s) {
            let k = choose|k: int| 0 <= k < strings_among(items).len() && strings_among(items)[k] == s;
            if k < before.len() {
                assert(before[k] == s);
                let i = choose|i: int| 0 <= i < rest.len() && #[trigger] rest[i] == Json::Str(s);
                assert(items[i] == Json::Str(s));
            } else {
                assert(items[items.len() - 1] == Json::Str(s));
            }
        }
        if exists|i: int| 0 <= i < items.len() && #[trigger] items[i] == Json::Str(s) {
            let i = choose|i: int| 0 <= i < items.len() && #[trigger] items[i] == Json::Str(s);
            if i < items.len() - 1 {
                assert(rest[i] == Json::Str(s));
                let k = choose|k: int| 0 <= k < before.len() && before[k] == s;
                assert(strings_among(items)[k] == s);
            } else {
                assert(strings_among(items) == before.push(s));
                assert(strings_among(items)[before.len() as int] == s);
            }
        }
    }
}

/// Every string an input schema lists under `required` is a required name,
/// and no other text is; so the property of each listed name is a required
/// parameter, whatever its definition.
pub proof fn law_listed_names_are_required(schema: Json, items: Seq<Json>, s: Seq<char>, def: Json, default_type: Seq<char>)
    requires
        schema.get("required"@) == Some(Json::Array(items)),
    ensures
        required_names(schema).contains(s) <==> exists|i: int| 0 <= i < items.len() && #[trigger] items[i] == Json::Str(s),
        (exists|i: int| 0 <= i < items.len() && #[trigger] items[i] == Json::Str(s))
            ==> param_of(s, def, required_names(schema), default_type).required,
{
    law_strings_among_are_the_listed_strings(items, s);
}

/// The parameter that property `name` with definition `def` describes;
/// `default_type` stands in for a missing type.
pub open spec fn param_of(name: Seq<char>, def: Json, required: Seq<Seq<char>>, default_type: Seq<char>) -> ParamView {
    ParamView {
        name,
        param_type: match def.get_str("type"@) {
            Some(t) => t,
            None => default_type,
        },
        description: def.get_str("description"@),
        required: required.contains(name),
    }
}

/// The parameters of a list of properties, in order.
pub open spec fn params_of(props: Seq<(Seq<char>, Json)>, required: Seq<Seq<char>>, default_type: Seq<char>) -> Seq<ParamView> {
    props.map_values(|m: (Seq<char>, Json)| param_of(m.0, m.1, required, default_type))
}

/// The parameters of a tool: none without an input schema or without
/// properties; `None` when the properties are not an object. A parameter
/// without a type is a string.
pub open spec fn checked_params(tool: Json) -> Option<Seq<ParamView>> {
    match tool.get("inputSchema"@) {
        None => Some(Seq::empty()),
        Some(schema) => match schema.get("properties"@) {
            None => Some(Seq::empty()),
            Some(props) => match props.as_object() {
                None => None,
                Some(members) => Some(params_of(members, required_names(schema), "string"@)),
            },
        },
    }
}

/// The parameters of a tool read leniently: none whenever the properties
/// are missing or not an object; a parameter without a type has type `unknown`.
pub open spec fn lenient_params(tool: Json) -> Seq<ParamView> {
    match tool.get("inputSchema"@) {
        None => Seq::empty(),
        Some(schema) => match schema.get("properties"@) {
            None => Seq::empty(),
            Some(props) => match props.as_object() {
                None => Seq::empty(),
                Some(members) => params_of(members, required_names(schema), "unknown"@),
            },
        },
    }
}

/// One parameter in the searchable text: `name (type)`, or
/// `name (type, required)`; a missing type reads `unknown`.
pub open spec fn param_text(name: Seq<char>, def: Json, required: Seq<Seq<char>>) -> Seq<char> {
    let t = match def.get_str("type"@) {
        Some(t) => t,
        None => "unknown"@,
    };
    if required.contains(name) {
        name + " ("@ + t + ", required)"@
    } else {
        name + " ("@ + t + ")"@
    }
}

/// The parameters of a tool as searchable text: each parameter's text,
/// joined by `, `; `no parameters` when there are none or they cannot be read.
pub open spec fn parameters_text(tool: Json) -> Seq<char> {
    match tool.get("inputSchema"@) {
        None => "no parameters"@,
        Some(schema) => match schema.get("properties"@) {
            None => "no parameters"@,
            Some(props) => match props.as_object() {
                None => "no parameters"@,
                Some(members) => if members.len() == 0 {
                    "no parameters"@
                } else {
                    join(
                        members.map_values(|m: (Seq<char>, Json)| param_text(m.0, m.1, required_names(schema))),
                        ", "@,
                    )
                },
            },
        },
    }
}

/// The categories of a tool as text: its string categories joined by `, `;
/// `general` when it has no list of categories.
pub open spec fn categories_text(tool: Json) -> Seq<char> {
    match tool.get("categories"@) {
        Some(c) => match c.as_array() {
            Some(items) => join(strings_among(items), ", "@),
            None => "general"@,
        },
        None => "general"@,
    }
}

/// Each category a tool lists (each string of its `categories` list) is
/// found in its categories text, and so in the text indexed for the tool.
pub proof fn law_listed_categories_are_indexed(
    server_name: Seq<char>,
    server_command: Seq<char>,
    tool: Json,
    items: Seq<Json>,
    i: int,
    category: Seq<char>,
)
    requires
        tool.get("categories"@) == Some(Json::Array(items)),
        0 <= i < items.len(),
        items[i] == Json::Str(category),
    ensures
        categories_text(tool) == join(strings_among(items), ", "@),
        has_substring(categories_text(tool), category),
        searchable_text(server_name, server_command, tool) matches Some(t) ==> has_substring(t, category),
{
    law_strings_among_are_the_listed_strings(items, category);
    let names = strings_among(items);
    let k = choose|k: int| 0 <= k < names.len() && names[k] == category;
    lemma_join_holds_its_parts(names, ", "@, k);
    let cat = categories_text(tool);
    if let Some(name) = tool.get_str("name"@) {
        let before = "Tool: "@ + name + " from "@ + server_name + " server. Description: "@ + description_of(tool)
            + ". Parameters: "@ + parameters_text(tool) + ". Categories: "@;
        let after = ". Server command: "@ + server_command;
        lemma_substring_in_concat(before, cat, after, category);
        assert(before + cat + after =~= searchable_text(server_name, server_command, tool)->Some_0);
    }
}

/// A tool's description, empty when it has none.
pub open spec fn description_of(tool: Json) -> Seq<char> {
    match tool.get_str("description"@) {
        Some(d) => d,
        None => Seq::empty(),
    }
}

/// The text indexed for a tool of a server; `None` for a tool without a name.
pub open spec fn searchable_text(server_name: Seq<char>, server_command: Seq<char>, tool: Json) -> Option<Seq<char>> {
    match tool.get_str("name"@) {
        None => None,
        Some(name) => Some(
            "Tool: "@ + name + " from "@ + server_name + " server. Description: "@ + description_of(tool)
                + ". Parameters: "@ + parameters_text(tool) + ". Categories: "@ + categories_text(tool)
                + ". Server command: "@ + server_command,
        ),
    }
}

/// Is `s` in `list`?
pub(crate) fn list_contains(list: &Vec<String>, s: &str) -> (r: bool)
    ensures
        r == list.deep_view().contains(s@),
{
    let mut i: usize = 0;
    while i < list.len()
        invariant
            i <= list@.len(),
            forall|j: int| 0 <= j < i ==> list@[j]@ != s@,
        decreases list.len() - i,
    {
        if str_eq(list[i].as_str(), s) {
            assert(list.deep_view()[i as int] == s@);
            return true;
        }
        i = i + 1;
    }
    assert forall|j: int| 0 <= j < list.deep_view().len() implies list.deep_view()[j] != s@ by {
        assert(list.deep_view()[j] == list@[j]@);
    }
    false
}

/// The strings among a list of JSON values, in order.
fn strings_in(items: &Vec<JsonValue>) -> (r: Vec<String>)
    ensures
        r.deep_view() == strings_among(json_items(items@)),
{
    proof { lemma_json_items(items@); }
    let ghost js = json_items(items@);
    let mut r: Vec<String> = Vec::new();
    let mut i: usize = 0;
    while i < items.len()
        invariant
            i <= items@.len(),
            js == json_items(items@),
            js.len() == items@.len(),
            forall|k: int| 0 <= k < items@.len() ==> #[trigger] js[k] == json_view(items@[k]),
            r.deep_view() == strings_among(js.take(i as int)),
        decreases items.len() - i,
    {
        assert(js.take(i + 1).drop_last() =~= js.take(i as int));
        assert(js.take(i + 1).last() == js[i as int]);
        let ghost before = r.deep_view();
        match items[i].as_str() {
            Some(s) => {
                r.push(owned(s));
                assert(r.deep_view() =~= before.push(s@));
            },
            None => {},
        }
        i = i + 1;
    }
    assert(js.take(items@.len() as int) =~= js);
    r
}

/// The names `schema` lists under `required`.
fn required_list(schema: &JsonValue) -> (r: Vec<String>)
    ensures
        r.deep_view() == required_names(schema@),
{
    match schema.get("required") {
        Some(req) => match req.as_array() {
            Some(items) => strings_in(items),
            None => {
                let r: Vec<String> = Vec::new();
                assert(r.deep_view() =~= Seq::<Seq<char>>::empty());
                r
            },
        },
        None => {
            let r: Vec<String> = Vec::new();
            assert(r.deep_view() =~= Seq::<Seq<char>>::empty());
            r
        },
    }
}

/// The parameters of a list of properties.
fn params_from(members: &Vec<(String, JsonValue)>, required: &Vec<String>, default_type: &str) -> (r: Vec<ToolParameter>)
    ensures
        param_views(r@) == params_of(json_members(members@), required.deep_view(), default_type@),
{
    proof { lemma_json_members(members@); }
    let ghost ms = json_members(members@);
    let mut r: Vec<ToolParameter> = Vec::new();
    let mut i: usize = 0;
    while i < members.len()
        invariant
            i <= members@.len(),
            ms == json_members(members@),
            ms.len() == members@.len(),
            forall|k: int| 0 <= k < members@.len() ==> #[trigger] ms[k] == (members@[k].0@, json_view(members@[k].1)),
            r@.len() == i,
            forall|k: int| 0 <= k < i ==> #[trigger] r@[k]@ == param_of(ms[k].0, ms[k].1, required.deep_view(), default_type@),
        decreases members.len() - i,
    {
        let (name, def) = (&members[i].0, &members[i].1);
        let param_type = match def.get_str("type") {
            Some(t) => owned(t),
            None => owned(default_type),
        };
        let description = match def.get_str("description") {
            Some(d) => Some(owned(d)),
            None => None,
        };
        let is_required = list_contains(required, name.as_str());
        let p = ToolParameter { name: name.clone(), param_type, description, required: is_required };
        assert(p@ == param_of(ms[i as int].0, ms[i as int].1, required.deep_view(), default_type@));
        r.push(p);
        i = i + 1;
    }
    assert(param_views(r@) =~= params_of(ms, required.deep_view(), default_type@));
    r
}


/// The tools a server lists.
#[derive(Debug)]
pub struct ToolsListResult {
    pub tools: Vec<JsonValue>,
    pub next_cursor: Option<String>,
}

/// Turns the tool schemas of MCP servers into searchable tool contexts.
#[derive(Debug)]
pub struct ToolSchemaProcessor;

/// The JSON values of a list.
pub open spec fn views_of(tools: Seq<JsonValue>) -> Seq<Json> {
    tools.map_values(|t: JsonValue| t@)
}

impl ToolSchemaProcessor {
    pub fn new() -> (r: ToolSchemaProcessor) {
        ToolSchemaProcessor
    }

    /// The parameters of a tool's input schema. A property without a type is
    /// a string. Fails when `inputSchema.properties` is not an object.
    pub fn extract_tool_parameters_safe(&self, server: &McpServerInfo, tool_name: &str, tool: &JsonValue)
        -> (r: McpResult<Vec<ToolParameter>>)
        ensures
            match checked_params(tool@) {
                Some(ps) => r matches Ok(v) && param_views(v@) == ps,
                None => r matches Err(McpError::InvalidToolSchema { server_name, tool_name: t, reason })
                    && server_name@ == server.name@ && t@ == tool_name@
                    && reason@ == "inputSchema.properties is not an object"@,
            },
    {
        let empty: Vec<ToolParameter> = Vec::new();
        assert(param_views(empty@) =~= Seq::<ParamView>::empty());
        let schema = match tool.get("inputSchema") {
            Some(s) => s,
            None => return Ok(empty),
        };
        let props = match schema.get("properties") {
            Some(p) => p,
            None => return Ok(empty),
        };
        match props.as_object() {
            Some(members) => {
                let required = required_list(schema);
                Ok(params_from(members, &required, "string"))
            },
            None => Err(McpError::InvalidToolSchema {
                server_name: server.name.clone(),
                tool_name: owned(tool_name),
                reason: owned("inputSchema.properties is not an object"),
            }),
        }
    }

    /// The parameters of a tool's input schema, read leniently: none when the
    /// properties are missing or not an object; a property without a type has
    /// type `unknown`.
    pub fn extract_tool_parameters(&self, tool: &JsonValue) -> (r: Vec<ToolParameter>)
        ensures
            param_views(r@) == lenient_params(tool@),
    {
        let empty: Vec<ToolParameter> = Vec::new();
        assert(param_views(empty@) =~= Seq::<ParamView>::empty());
        let schema = match tool.get("inputSchema") {
            Some(s) => s,
            None => return empty,
        };
        let props = match schema.get("properties") {
            Some(p) => p,
            None => return empty,
        };
        match props.as_object() {
            Some(members) => {
                let required = required_list(schema);
                params_from(members, &required, "unknown")
            },
            None => empty,
        }
    }

    /// The parameters of a tool as searchable text.
    pub fn extract_parameters_text(&self, tool: &JsonValue) -> (r: String)
        ensures
            r@ == parameters_text(tool@),
    {
        let schema = match tool.get("inputSchema") {
            Some(s) => s,
            None => return owned("no parameters"),
        };
        let props = match schema.get("properties") {
            Some(p) => p,
            None => return owned("no parameters"),
        };
        let members = match props.as_object() {
            Some(m) => m,
            None => return owned("no parameters"),
        };
        if members.len() == 0 {
            proof { lemma_json_members(members@); }
            return owned("no parameters");
        }
        let required = required_list(schema);
        proof { lemma_json_members(members@); }
        let ghost ms = json_members(members@);
        let ghost req = required.deep_view();
        let mut texts: Vec<String> = Vec::new();
        let mut i: usize = 0;
        while i < members.len()
            invariant
                i <= members@.len(),
                ms == json_members(members@),
                ms.len() == members@.len(),
                req == required.deep_view(),
                forall|k: int| 0 <= k < members@.len() ==> #[trigger] ms[k] == (members@[k].0@, json_view(members@[k].1)),
                texts@.len() == i,
                forall|k: int| 0 <= k < i ==> #[trigger] texts@[k]@ == param_text(ms[k].0, ms[k].1, req),
            decreases members.len() - i,
        {
            let (name, def) = (&members[i].0, &members[i].1);
            let mut t = owned(name.as_str());
            push_str(&mut t, " (");
            match def.get_str("type") {
                Some(ty) => push_str(&mut t, ty),
                None => push_str(&mut t, "unknown"),
            }
            if list_contains(&required, name.as_str()) {
                push_str(&mut t, ", required)");
            } else {
                push_str(&mut t, ")");
            }
            texts.push(t);
            i = i + 1;
        }
        assert(texts.deep_view() =~= ms.map_values(|m: (Seq<char>, Json)| param_text(m.0, m.1, req)));
        join_strings(&texts, ", ")
    }

    /// The categories of a tool as searchable text.
    pub fn extract_categories_text(&self, tool: &JsonValue) -> (r: String)
        ensures
            r@ == categories_text(tool@),
    {
        match tool.get("categories") {
            Some(c) => match c.as_array() {
                Some(items) => {
                    let names = strings_in(items);
                    join_strings(&names, ", ")
                },
                None => owned("general"),
            },
            None => owned("general"),
        }
    }

    /// The text indexed for a tool of a server; `None` for a tool without a name.
    pub fn tool_to_searchable_text(&self, server: &McpServerInfo, tool: &JsonValue) -> (r: Option<String>)
        ensures
            match searchable_text(server.name@, server.command@, tool@) {
                Some(t) => r matches Some(x) && x@ == t,
                None => r is None,
            },
    {
        let name = match tool.get_str("name") {
            Some(n) => n,
            None => return None,
        };
        let mut t = owned("Tool: ");
        push_str(&mut t, name);
        push_str(&mut t, " from ");
        push_str(&mut t, server.name.as_str());
        push_str(&mut t, " server. Description: ");
        match tool.get_str("description") {
            Some(d) => push_str(&mut t, d),
            None => {
                assert(t@ + Seq::<char>::empty() =~= t@);
            },
        }
        push_str(&mut t, ". Parameters: ");
        let params = self.extract_parameters_text(tool);
        push_str(&mut t, params.as_str());
        push_str(&mut t, ". Categories: ");
        let cats = self.extract_categories_text(tool);
        push_str(&mut t, cats.as_str());
        push_str(&mut t, ". Server command: ");
        push_str(&mut t, server.command.as_str());
        Some(t)
    }
}


/// The first position of `needle` in `hay` (meaningful when it occurs).
pub open spec fn first_occurrence(hay: Seq<char>, needle: Seq<char>) -> int {
    choose|i: int| occurs_at(hay, needle, i) && forall|j: int| 0 <= j < i ==> !occurs_at(hay, needle, j)
}

/// The (server, tool) names of a tool: a name of the form `server___tool`
/// is split at its first `___`; any other name is the tool's, and the server's
/// is `fallback`.
pub open spec fn split_names(name: Seq<char>, fallback: Seq<char>) -> (Seq<char>, Seq<char>) {
    if has_substring(name, "___"@) {
        let i = first_occurrence(name, "___"@);
        (name.take(i), name.skip(i + "___"@.len()))
    } else {
        (fallback, name)
    }
}

/// What becomes of one tool schema.
pub enum ContextOutcome {
    /// A tool without a name is skipped.
    Skipped,
    /// A tool with an empty name is refused.
    Invalid,
    /// Any other tool gives a context.
    Built(ContextView),
}

/// What becomes of `tool`, listed by a server of that name and command;
/// `fallback` is the server name used when the tool name does not carry one.
/// Parameters that cannot be read are left out.
pub open spec fn context_outcome(server_name: Seq<char>, server_command: Seq<char>, tool: Json, fallback: Seq<char>) -> ContextOutcome {
    match tool.get_str("name"@) {
        None => ContextOutcome::Skipped,
        Some(name) => if name.len() == 0 {
            ContextOutcome::Invalid
        } else {
            let (sn, tn) = split_names(name, fallback);
            ContextOutcome::Built(ContextView {
                id: sn + "_"@ + tn,
                server_name: sn,
                tool_name: tn,
                description: description_of(tool),
                parameters: match checked_params(tool) {
                    Some(ps) => ps,
                    None => Seq::empty(),
                },
                indexed_content: searchable_text(server_name, server_command, tool)->Some_0,
            })
        },
    }
}

/// The contexts of a list of tools: those that give one, in order.
pub open spec fn built_contexts(server_name: Seq<char>, server_command: Seq<char>, tools: Seq<Json>, fallback: Seq<char>) -> Seq<ContextView>
    decreases tools.len(),
{
    if tools.len() == 0 {
        Seq::empty()
    } else {
        let rest = built_contexts(server_name, server_command, tools.drop_last(), fallback);
        match context_outcome(server_name, server_command, tools.last(), fallback) {
            ContextOutcome::Built(v) => rest.push(v),
            _ => rest,
        }
    }
}

/// The shapes of a list of contexts.
pub open spec fn shapes(cs: Seq<McpToolContext>) -> Seq<ContextView> {
    cs.map_values(|c: McpToolContext| c.shape())
}

impl ToolSchemaProcessor {
    /// The context of one tool, with `fallback_server_name` as the server name
    /// of a tool whose name does not carry one.
    pub fn tool_to_mcp_context_with(&self, server: &McpServerInfo, tool: &JsonValue, fallback_server_name: &str)
        -> (r: McpResult<Option<McpToolContext>>)
        ensures
            match context_outcome(server.name@, server.command@, tool@, fallback_server_name@) {
                ContextOutcome::Skipped => r matches Ok(None),
                ContextOutcome::Invalid => r matches Err(McpError::InvalidToolSchema { server_name, tool_name, reason })
                    && server_name@ == server.name@ && tool_name@ == "empty"@
                    && reason@ == "Tool name cannot be empty"@,
                ContextOutcome::Built(v) => r matches Ok(Some(c)) && c.shape() == v && server.runs_as(c.server_config),
            },
    {
        let tool_name = match tool.get_str("name") {
            Some(n) => n,
            None => return Ok(None),
        };
        if tool_name.unicode_len() == 0 {
            return Err(McpError::InvalidToolSchema {
                server_name: server.name.clone(),
                tool_name: owned("empty"),
                reason: owned("Tool name cannot be empty"),
            });
        }
        let description = match tool.get_str("description") {
            Some(d) => owned(d),
            None => String::new(),
        };
        let parameters = match self.extract_tool_parameters_safe(server, tool_name, tool) {
            Ok(ps) => ps,
            Err(_) => {
                let empty: Vec<ToolParameter> = Vec::new();
                assert(param_views(empty@) =~= Seq::<ParamView>::empty());
                empty
            },
        };
        let indexed_content = match self.tool_to_searchable_text(server, tool) {
            Some(t) => t,
            None => {
                let mut t = owned("Tool: ");
                push_str(&mut t, tool_name);
                push_str(&mut t, " from ");
                push_str(&mut t, server.name.as_str());
                push_str(&mut t, " server");
                t
            },
        };
        proof { reveal_strlit("___"); }
        let (server_name, clean_tool_name) = match find_first(tool_name, "___") {
            Some(i) => {
                proof {
                    let j = first_occurrence(tool_name@, "___"@);
                    assert(occurs_at(tool_name@, "___"@, i as int));
                    assert(has_substring(tool_name@, "___"@));
                    assert(occurs_at(tool_name@, "___"@, j) && forall|k: int| 0 <= k < j ==> !occurs_at(tool_name@, "___"@, k));
                    if j < i as int {
                    } else if j > i as int {
                    }
                    assert(j == i as int);
                }
                let n = tool_name.unicode_len();
                let s = substring(tool_name, 0, i);
                let t = substring(tool_name, i + 3, n);
                assert(s@ =~= tool_name@.take(i as int));
                assert(t@ =~= tool_name@.skip(i + 3));
                (s, t)
            },
            None => (owned(fallback_server_name), owned(tool_name)),
        };
        let mut id = owned(server_name.as_str());
        push_str(&mut id, "_");
        push_str(&mut id, clean_tool_name.as_str());
        let context = McpToolContext {
            id,
            server_name,
            tool_name: clean_tool_name,
            description,
            parameters,
            server_config: server.to_semantic_config(),
            indexed_content,
            last_updated: utc_now_millis(),
        };
        Ok(Some(context))
    }

    /// The context of one tool. The server name of a tool whose name does not
    /// carry one is the server's name in snake case, and nothing more: no
    /// character that snake case keeps is removed or replaced.
    pub fn tool_to_mcp_context(&self, server: &McpServerInfo, tool: &JsonValue) -> (r: McpResult<Option<McpToolContext>>)
        ensures
            match context_outcome(server.name@, server.command@, tool@, snake_case_of(server.name@)) {
                ContextOutcome::Skipped => r matches Ok(None),
                ContextOutcome::Invalid => r matches Err(McpError::InvalidToolSchema { server_name, tool_name, reason })
                    && server_name@ == server.name@ && tool_name@ == "empty"@
                    && reason@ == "Tool name cannot be empty"@,
                ContextOutcome::Built(v) => r matches Ok(Some(c)) && c.shape() == v && server.runs_as(c.server_config),
            },
    {
        let fallback = to_snake_case(server.name.as_str());
        self.tool_to_mcp_context_with(server, tool, fallback.as_str())
    }

    /// The contexts of the tools a server lists, given the server name used
    /// for tools whose names do not carry one. Tools that give no context are
    /// left out; it does not fail.
    pub fn create_mcp_contexts_with(&self, server: &McpServerInfo, tools_result: &ToolsListResult, fallback_server_name: &str)
        -> (r: McpResult<Vec<McpToolContext>>)
        ensures
            r matches Ok(cs) && shapes(cs@) == built_contexts(server.name@, server.command@, views_of(tools_result.tools@), fallback_server_name@)
                && forall|i: int| 0 <= i < cs@.len() ==> server.runs_as(#[trigger] cs@[i].server_config),
    {
        let tools = &tools_result.tools;
        let ghost vs = views_of(tools@);
        let ghost (sn, sc, fb) = (server.name@, server.command@, fallback_server_name@);
        let mut contexts: Vec<McpToolContext> = Vec::new();
        let mut i: usize = 0;
        while i < tools.len()
            invariant
                i <= tools@.len(),
                vs == views_of(tools@),
                sn == server.name@,
                sc == server.command@,
                fb == fallback_server_name@,
                shapes(contexts@) == built_contexts(sn, sc, vs.take(i as int), fb),
                forall|k: int| 0 <= k < contexts@.len() ==> server.runs_as(#[trigger] contexts@[k].server_config),
            decreases tools.len() - i,
        {
            assert(vs.take(i + 1).drop_last() =~= vs.take(i as int));
            assert(vs.take(i + 1).last() == tools@[i as int]@);
            let ghost before = contexts@;
            match self.tool_to_mcp_context_with(server, &tools[i], fallback_server_name) {
                Ok(Some(c)) => {
                    contexts.push(c);
                    assert(shapes(contexts@) =~= shapes(before).push(c.shape()));
                },
                _ => {},
            }
            i = i + 1;
        }
        assert(vs.take(tools@.len() as int) =~= vs);
        Ok(contexts)
    }

    /// The contexts of the tools a server lists; tools whose names do not
    /// carry a server name get the server's name in snake case.
    /// No other clean-up of that name is made.
    pub fn create_mcp_contexts(&self, server: &McpServerInfo, tools_result: &ToolsListResult) -> (r: McpResult<Vec<McpToolContext>>)
        ensures
            r matches Ok(cs) && shapes(cs@) == built_contexts(server.name@, server.command@, views_of(tools_result.tools@), snake_case_of(server.name@))
                && forall|i: int| 0 <= i < cs@.len() ==> server.runs_as(#[trigger] cs@[i].server_config),
    {
        let fallback = to_snake_case(server.name.as_str());
        self.create_mcp_contexts_with(server, tools_result, fallback.as_str())
    }
}

} // verus!
