use std::collections::HashMap;

use vstd::prelude::*;

use crate::clock::{utc_now_millis, system_time_now, system_time_elapsed, duration_as_nanos, duration_new, duration_of};
use crate::text::{owned, push_str, to_lowercase, contains, lowercase_of, has_substring};
use crate::json::{Json, JsonValue, json_members, json_items, json_view, lemma_json_members, lemma_json_items, with_member, distinct_keys, object_insert};

verus! {

/// Kinds of files a context is built from.
#[derive(Debug, Clone, Copy, PartialEq, Eq, Structural)]
pub enum FileType {
    Text,
    Markdown,
    Json,
    Code,
    Unknown,
}

/// Progress of an indexing operation.
#[derive(Debug, Clone, Copy, PartialEq, Eq, Structural)]
pub enum ProgressStatus {
    CountingFiles,
    StartingIndexing(usize),
    Indexing(usize, usize),
    CreatingSemanticContext,
    GeneratingEmbeddings(usize, usize),
    BuildingIndex,
    Finalizing,
    Complete,
}

/// Whether a search result is a document or an MCP tool.
#[derive(Debug, Clone, Copy, PartialEq, Eq, Structural)]
pub enum SearchResultType {
    Document,
    McpTool,
}

/// A knowledge context. Times are milliseconds since the Unix epoch.
#[derive(Debug, Clone)]
pub struct KnowledgeContext {
    pub id: String,
    pub name: String,
    pub description: String,
    pub created_at: i64,
    pub updated_at: i64,
    pub persistent: bool,
    pub source_path: Option<String>,
    pub item_count: usize,
}

impl KnowledgeContext {
    /// A context created now (the clock is read once: both times are equal).
    pub fn new(
        id: String,
        name: &str,
        description: &str,
        persistent: bool,
        source_path: Option<String>,
        item_count: usize,
    ) -> (r: KnowledgeContext)
        ensures
            r.id == id,
            r.name@ == name@,
            r.description@ == description@,
            r.created_at == r.updated_at,
            r.persistent == persistent,
            r.source_path == source_path,
            r.item_count == item_count,
    {
        let now = utc_now_millis();
        KnowledgeContext {
            id,
            name: owned(name),
            description: owned(description),
            created_at: now,
            updated_at: now,
            persistent,
            source_path,
            item_count,
        }
    }
}

/// What an operation does.
#[derive(Debug, Clone)]
pub enum OperationType {
    Indexing { name: String, path: String },
    Clearing,
}

impl OperationType {
    pub open spec fn display_text(&self) -> Seq<char> {
        match self {
            OperationType::Indexing { name, .. } => "Indexing '"@ + name@ + "'"@,
            OperationType::Clearing => "Clearing all"@,
        }
    }

    /// The name shown for the operation.
    pub fn display_name(&self) -> (r: String)
        ensures
            r@ == self.display_text(),
    {
        match self {
            OperationType::Indexing { name, .. } => {
                let mut r = owned("Indexing '");
                push_str(&mut r, name.as_str());
                push_str(&mut r, "'");
                r
            },
            OperationType::Clearing => owned("Clearing all"),
        }
    }
}

/// Status of one operation, as shown to the user.
#[derive(Debug, Clone)]
pub struct OperationStatus {
    pub id: String,
    pub short_id: String,
    pub operation_type: OperationType,
    pub started_at: std::time::SystemTime,
    pub current: u64,
    pub total: u64,
    pub message: String,
    pub is_cancelled: bool,
    pub is_failed: bool,
    pub is_waiting: bool,
    pub eta: Option<std::time::Duration>,
}

/// Status of the whole system, as shown to the user.
#[derive(Debug, Clone)]
pub struct SystemStatus {
    pub total_contexts: usize,
    pub persistent_contexts: usize,
    pub volatile_contexts: usize,
    pub operations: Vec<OperationStatus>,
    pub active_count: usize,
    pub waiting_count: usize,
    pub max_concurrent: usize,
}

/// A parameter of an MCP tool.
#[derive(Debug, Clone)]
pub struct ToolParameter {
    pub name: String,
    pub param_type: String,
    pub description: Option<String>,
    pub required: bool,
}

/// A tool parameter as plain values.
pub struct ParamView {
    pub name: Seq<char>,
    pub param_type: Seq<char>,
    pub description: Option<Seq<char>>,
    pub required: bool,
}

impl View for ToolParameter {
    type V = ParamView;

    open spec fn view(&self) -> ParamView {
        ParamView {
            name: self.name@,
            param_type: self.param_type@,
            description: match self.description {
                Some(d) => Some(d@),
                None => None,
            },
            required: self.required,
        }
    }
}

/// The plain values of a list of parameters.
pub open spec fn param_views(ps: Seq<ToolParameter>) -> Seq<ParamView> {
    ps.map_values(|p: ToolParameter| p@)
}

impl ToolParameter {
    pub fn new(name: String, param_type: String, description: Option<String>, required: bool) -> (r: ToolParameter)
        ensures
            r.name == name,
            r.param_type == param_type,
            r.description == description,
            r.required == required,
    {
        ToolParameter { name, param_type, description, required }
    }
}

/// How to run an MCP server.
#[derive(Debug, Clone)]
pub struct McpServerConfig {
    pub command: String,
    pub args: Vec<String>,
    pub env: Option<HashMap<String, String>>,
    /// Timeout of server operations, in milliseconds.
    pub timeout: u64,
}

impl McpServerConfig {
    pub fn new(command: String, args: Vec<String>, env: Option<HashMap<String, String>>, timeout: u64) -> (r: McpServerConfig)
        ensures
            r.command == command,
            r.args == args,
            r.env == env,
            r.timeout == timeout,
    {
        McpServerConfig { command, args, env, timeout }
    }
}

/// An MCP tool, with what is searched for it. `last_updated` is in
/// milliseconds since the Unix epoch.
#[derive(Debug, Clone)]
pub struct McpToolContext {
    pub id: String,
    pub server_name: String,
    pub tool_name: String,
    pub description: String,
    pub parameters: Vec<ToolParameter>,
    pub server_config: McpServerConfig,
    pub indexed_content: String,
    pub last_updated: i64,
}

/// What a tool context says of its tool, apart from how its server runs
/// and when it was made.
pub struct ContextView {
    pub id: Seq<char>,
    pub server_name: Seq<char>,
    pub tool_name: Seq<char>,
    pub description: Seq<char>,
    pub parameters: Seq<ParamView>,
    pub indexed_content: Seq<char>,
}

impl McpToolContext {
    pub open spec fn shape(&self) -> ContextView {
        ContextView {
            id: self.id@,
            server_name: self.server_name@,
            tool_name: self.tool_name@,
            description: self.description@,
            parameters: param_views(self.parameters@),
            indexed_content: self.indexed_content@,
        }
    }
}

/// A parameter matches a lowercased query when its lowercased name or
/// description holds the query.
pub open spec fn param_matches(p: ToolParameter, q: Seq<char>) -> bool {
    has_substring(lowercase_of(p.name@), q)
        || (p.description matches Some(d) && has_substring(lowercase_of(d@), q))
}

impl McpToolContext {
    /// A tool context stamped with the current time.
    pub fn new(
        id: String,
        server_name: String,
        tool_name: String,
        description: String,
        parameters: Vec<ToolParameter>,
        server_config: McpServerConfig,
        indexed_content: String,
    ) -> (r: McpToolContext)
        ensures
            r.id == id,
            r.server_name == server_name,
            r.tool_name == tool_name,
            r.description == description,
            r.parameters == parameters,
            r.server_config == server_config,
            r.indexed_content == indexed_content,
    {
        McpToolContext {
            id,
            server_name,
            tool_name,
            description,
            parameters,
            server_config,
            indexed_content,
            last_updated: utc_now_millis(),
        }
    }

    /// The name the LLM calls the tool by: `<server>_<tool>`.
    pub open spec fn function_name(&self) -> Seq<char> {
        self.server_name@ + "_"@ + self.tool_name@
    }

    pub fn get_function_name(&self) -> (r: String)
        ensures
            r@ == self.function_name(),
    {
        let mut r = owned(self.server_name.as_str());
        push_str(&mut r, "_");
        push_str(&mut r, self.tool_name.as_str());
        r
    }

    /// The tool matches a query when, ignoring case, the query occurs in its
    /// name, description or server name, or in a parameter's name or description.
    pub open spec fn query_matches(&self, query: Seq<char>) -> bool {
        let q = lowercase_of(query);
        ||| has_substring(lowercase_of(self.tool_name@), q)
        ||| has_substring(lowercase_of(self.description@), q)
        ||| has_substring(lowercase_of(self.server_name@), q)
        ||| exists|i: int| 0 <= i < self.parameters@.len() && param_matches(#[trigger] self.parameters@[i], q)
    }

    pub fn matches_query(&self, query: &str) -> (r: bool)
        ensures
            r == self.query_matches(query@),
    {
        let q = to_lowercase(query);
        if contains(to_lowercase(self.tool_name.as_str()).as_str(), q.as_str()) {
            return true;
        }
        if contains(to_lowercase(self.description.as_str()).as_str(), q.as_str()) {
            return true;
        }
        if contains(to_lowercase(self.server_name.as_str()).as_str(), q.as_str()) {
            return true;
        }
        let mut i: usize = 0;
        while i < self.parameters.len()
            invariant
                i <= self.parameters@.len(),
                q@ == lowercase_of(query@),
                forall|j: int| 0 <= j < i ==> !param_matches(self.parameters@[j], q@),
            decreases self.parameters.len() - i,
        {
            let p = &self.parameters[i];
            if contains(to_lowercase(p.name.as_str()).as_str(), q.as_str()) {
                assert(param_matches(self.parameters@[i as int], q@));
                return true;
            }
            match &p.description {
                Some(d) => {
                    if contains(to_lowercase(d.as_str()).as_str(), q.as_str()) {
                        assert(param_matches(self.parameters@[i as int], q@));
                        return true;
                    }
                },
                None => {},
            }
            i = i + 1;
        }
        false
    }
}

/// The text shown for a tool found by a search: `Tool: <name> - <description>`.
pub open spec fn tool_result_text(tool: McpToolContext) -> Seq<char> {
    "Tool: "@ + tool.tool_name@ + " - "@ + tool.description@
}

/// The text shown for a tool found by a search.
pub fn tool_result_content(tool: &McpToolContext) -> (r: String)
    ensures
        r@ == tool_result_text(*tool),
{
    let mut r = owned("Tool: ");
    push_str(&mut r, tool.tool_name.as_str());
    push_str(&mut r, " - ");
    push_str(&mut r, tool.description.as_str());
    r
}


/// The JSON schema of one parameter: its type, and its description if it has one.
pub open spec fn param_schema_json(p: ToolParameter) -> Json {
    match p.description {
        Some(d) => Json::Object(seq![("type"@, Json::Str(p.param_type@)), ("description"@, Json::Str(d@))]),
        None => Json::Object(seq![("type"@, Json::Str(p.param_type@))]),
    }
}

/// The `properties` of a schema: each parameter's schema under its name;
/// a later parameter of the same name replaces an earlier one.
pub open spec fn properties_json(ps: Seq<ToolParameter>) -> Seq<(Seq<char>, Json)>
    decreases ps.len(),
{
    if ps.len() == 0 {
        Seq::empty()
    } else {
        with_member(properties_json(ps.drop_last()), ps.last().name@, param_schema_json(ps.last()))
    }
}

/// The `required` list of a schema: the names of the required parameters, in order.
pub open spec fn required_json(ps: Seq<ToolParameter>) -> Seq<Json>
    decreases ps.len(),
{
    if ps.len() == 0 {
        Seq::empty()
    } else if ps.last().required {
        required_json(ps.drop_last()).push(Json::Str(ps.last().name@))
    } else {
        required_json(ps.drop_last())
    }
}

/// The input schema of a tool with parameters `ps`.
pub open spec fn schema_json(ps: Seq<ToolParameter>) -> Json {
    Json::Object(seq![
        ("type"@, Json::Str("object"@)),
        ("properties"@, Json::Object(properties_json(ps))),
        ("required"@, Json::Array(required_json(ps))),
    ])
}

/// A copy of an optional string.
fn copy_opt(s: &Option<String>) -> (r: Option<String>)
    ensures
        r matches Some(x) ==> s matches Some(y) && x@ == y@,
        r is None ==> s is None,
{
    match s {
        Some(x) => Some(x.clone()),
        None => None,
    }
}

/// The JSON schema of one parameter.
fn param_schema(p: &ToolParameter) -> (r: JsonValue)
    ensures
        r@ == param_schema_json(*p),
{
    let mut members: Vec<(String, JsonValue)> = Vec::new();
    members.push((owned("type"), JsonValue::String(p.param_type.clone())));
    match &p.description {
        Some(d) => {
            members.push((owned("description"), JsonValue::String(d.clone())));
        },
        None => {},
    }
    proof {
        lemma_json_members(members@);
    }
    let r = JsonValue::Object(members);
    proof {
        match &p.description {
            Some(d) => {
                assert(json_members(members@) =~= seq![("type"@, Json::Str(p.param_type@)), ("description"@, Json::Str(d@))]);
            },
            None => {
                assert(json_members(members@) =~= seq![("type"@, Json::Str(p.param_type@))]);
            },
        }
    }
    r
}

/// `members` with the given members, in order.
fn object3(k1: &str, v1: JsonValue, k2: &str, v2: JsonValue, k3: &str, v3: JsonValue) -> (r: JsonValue)
    ensures
        r@ == Json::Object(seq![(k1@, v1@), (k2@, v2@), (k3@, v3@)]),
{
    let ghost (j1, j2, j3) = (v1@, v2@, v3@);
    let mut members: Vec<(String, JsonValue)> = Vec::new();
    members.push((owned(k1), v1));
    members.push((owned(k2), v2));
    members.push((owned(k3), v3));
    proof { lemma_json_members(members@); }
    assert(json_members(members@) =~= seq![(k1@, j1), (k2@, j2), (k3@, j3)]);
    JsonValue::Object(members)
}

impl McpToolContext {
    /// The function definition handed to an LLM: name, description and input schema.
    pub open spec fn function_definition_json(&self) -> Json {
        Json::Object(seq![
            ("name"@, Json::Str(self.function_name())),
            ("description"@, Json::Str(self.description@)),
            ("input_schema"@, schema_json(self.parameters@)),
        ])
    }

    /// The tool specification of the tool system: name, description, input
    /// schema, and its origin (`mcp`).
    pub open spec fn tool_spec_json(&self) -> Json {
        Json::Object(seq![
            ("name"@, Json::Str(self.function_name())),
            ("description"@, Json::Str(self.description@)),
            ("inputSchema"@, schema_json(self.parameters@)),
            ("toolOrigin"@, Json::Str("mcp"@)),
        ])
    }

    /// The input schema of the tool, built from its parameters.
    pub fn input_schema(&self) -> (r: JsonValue)
        ensures
            r@ == schema_json(self.parameters@),
    {
        let ps = &self.parameters;
        let mut props: Vec<(String, JsonValue)> = Vec::new();
        let mut required: Vec<JsonValue> = Vec::new();
        let mut i: usize = 0;
        assert(ps@.take(0) =~= Seq::<ToolParameter>::empty());
        while i < ps.len()
            invariant
                i <= ps@.len(),
                json_members(props@) == properties_json(ps@.take(i as int)),
                distinct_keys(json_members(props@)),
                json_items(required@) == required_json(ps@.take(i as int)),
            decreases ps.len() - i,
        {
            let p = &ps[i];
            let ghost before_req = required@;
            assert(ps@.take(i + 1).drop_last() =~= ps@.take(i as int));
            assert(ps@.take(i + 1).last() == ps@[i as int]);
            if p.required {
                let n = p.name.clone();
                let ghost nv = n@;
                required.push(JsonValue::String(n));
                assert(required@.drop_last() =~= before_req);
                assert(json_view(required@.last()) == Json::Str(nv));
                assert(json_items(required@) == json_items(before_req).push(Json::Str(nv)));
            }
            assert(json_items(required@) == required_json(ps@.take(i + 1)));
            let schema = param_schema(p);
            object_insert(&mut props, p.name.clone(), schema);
            i = i + 1;
        }
        assert(ps@.take(ps@.len() as int) =~= ps@);
        let props_json = JsonValue::Object(props);
        let required_json_v = JsonValue::Array(required);
        object3("type", JsonValue::String(owned("object")), "properties", props_json, "required", required_json_v)
    }

    /// The function definition handed to an LLM.
    pub fn to_function_definition(&self) -> (r: JsonValue)
        ensures
            r@ == self.function_definition_json(),
    {
        let name = self.get_function_name();
        object3(
            "name", JsonValue::String(name),
            "description", JsonValue::String(self.description.clone()),
            "input_schema", self.input_schema(),
        )
    }

    /// The tool specification of the tool system.
    pub fn to_tool_spec(&self) -> (r: JsonValue)
        ensures
            r@ == self.tool_spec_json(),
    {
        let name = self.get_function_name();
        let ghost (j1, j2, j3) = (Json::Str(self.function_name()), Json::Str(self.description@), schema_json(self.parameters@));
        let mut members: Vec<(String, JsonValue)> = Vec::new();
        members.push((owned("name"), JsonValue::String(name)));
        members.push((owned("description"), JsonValue::String(self.description.clone())));
        members.push((owned("inputSchema"), self.input_schema()));
        members.push((owned("toolOrigin"), JsonValue::String(owned("mcp"))));
        proof { lemma_json_members(members@); }
        assert(json_members(members@) =~= seq![("name"@, j1), ("description"@, j2), ("inputSchema"@, j3), ("toolOrigin"@, Json::Str("mcp"@))]);
        JsonValue::Object(members)
    }
}


/// Progress of an operation.
#[derive(Debug, Clone)]
pub struct ProgressInfo {
    pub current: u64,
    pub total: u64,
    pub message: String,
    /// When the first meaningful progress was reported.
    pub progress_started_at: Option<std::time::SystemTime>,
}

/// The time left at the rate seen so far: `current` items took `elapsed`,
/// so the `total - current` left take `(total - current) * elapsed / current`.
/// Only while some but not all items are done.
pub open spec fn eta_estimate(current: u64, total: u64, elapsed: nat) -> Option<nat> {
    if current > 0 && total > current {
        Some(((total - current) * elapsed / (current as int)) as nat)
    } else {
        None
    }
}

const NANOS_PER_SEC: u128 = 1_000_000_000;

/// The duration of an estimate of `t` nanoseconds, capped at `u128::MAX`
/// nanoseconds and at `u64::MAX` whole seconds.
pub open spec fn eta_duration(t: nat) -> std::time::Duration {
    let n: nat = if t > u128::MAX { u128::MAX as nat } else { t };
    let secs: nat = if n / 1_000_000_000 > u64::MAX { u64::MAX as nat } else { n / 1_000_000_000 };
    duration_of(secs as u64, (n % 1_000_000_000) as u32)
}

/// `a * e / c` is `a * (e / c) + a * (e % c) / c`.
proof fn lemma_split_product(a: int, e: int, c: int)
    requires
        a >= 0,
        e >= 0,
        c > 0,
    ensures
        a * e / c == a * (e / c) + a * (e % c) / c,
        a * (e / c) >= 0,
        a * (e % c) / c >= 0,
{
    let q = e / c;
    let r = e % c;
    assert(e == q * c + r) by (nonlinear_arith) requires q == e / c, r == e % c, c > 0;
    assert(a * e == (a * q) * c + a * r) by (nonlinear_arith) requires e == q * c + r;
    assert(((a * q) * c + a * r) / c == a * q + (a * r) / c) by (nonlinear_arith) requires c > 0, a >= 0, r >= 0, q >= 0;
    assert(a * q >= 0) by (nonlinear_arith) requires a >= 0, q >= 0;
    assert(a * r >= 0) by (nonlinear_arith) requires a >= 0, r >= 0;
    assert((a * r) / c >= 0) by (nonlinear_arith) requires a * r >= 0, c > 0;
}

impl ProgressInfo {
    pub fn new() -> (r: ProgressInfo)
        ensures
            r.current == 0,
            r.total == 0,
            r.message@ == "Initializing..."@,
            r.progress_started_at is None,
    {
        ProgressInfo {
            current: 0,
            total: 0,
            message: owned("Initializing..."),
            progress_started_at: None,
        }
    }

    /// Records new progress. The clock starts with the first report of some
    /// progress towards a known total.
    pub fn update(&mut self, current: u64, total: u64, message: String)
        ensures
            final(self).current == current,
            final(self).total == total,
            final(self).message == message,
            (old(self).progress_started_at is None && current > 0 && total > 0)
                ==> final(self).progress_started_at is Some,
            !(old(self).progress_started_at is None && current > 0 && total > 0)
                ==> final(self).progress_started_at == old(self).progress_started_at,
    {
        if self.progress_started_at.is_none() && current > 0 && total > 0 {
            self.progress_started_at = Some(system_time_now());
        }
        self.current = current;
        self.total = total;
        self.message = message;
    }

    /// The estimated time left, in nanoseconds, given the nanoseconds elapsed
    /// since progress started (`None` when the clock could not tell). Capped at
    /// `u128::MAX`.
    pub fn eta_nanos(&self, elapsed_nanos: Option<u128>) -> (r: Option<u128>)
        ensures
            (self.progress_started_at is None || elapsed_nanos is None) ==> r is None,
            self.progress_started_at is Some ==> match elapsed_nanos {
                Some(e) => match eta_estimate(self.current, self.total, e as nat) {
                    Some(t) => r == Some(if t > u128::MAX { u128::MAX } else { t as u128 }),
                    None => r is None,
                },
                None => r is None,
            },
    {
        if self.progress_started_at.is_none() {
            return None;
        }
        match elapsed_nanos {
            None => None,
            Some(elapsed) => {
                if self.current > 0 && self.total > self.current {
                    let remaining = (self.total - self.current) as u128;
                    let c = self.current as u128;
                    let q = elapsed / c;
                    let rest = elapsed % c;
                    proof { lemma_split_product(remaining as int, elapsed as int, c as int); }
                    assert(remaining * rest < 0x1_0000_0000_0000_0000_0000_0000_0000_0000) by (nonlinear_arith)
                        requires
                            remaining < 0x1_0000_0000_0000_0000,
                            rest < c,
                            c < 0x1_0000_0000_0000_0000,
                    ;
                    let tail = (remaining * rest) / c;
                    match remaining.checked_mul(q) {
                        Some(head) => match head.checked_add(tail) {
                            Some(t) => Some(t),
                            None => Some(u128::MAX),
                        },
                        None => {
                            assert(remaining * q + tail >= remaining * q);
                            Some(u128::MAX)
                        },
                    }
                } else {
                    None
                }
            },
        }
    }

    /// The estimated time left at the rate seen so far, reading the clock.
    /// `None` before progress started, when nothing or everything is done,
    /// or when the clock reads earlier than the start.
    pub fn calculate_eta(&self) -> (r: Option<std::time::Duration>)
        ensures
            r is Some ==> self.progress_started_at is Some && self.current > 0 && self.total > self.current,
            r matches Some(d) ==> exists|elapsed: u128|
                #[trigger] eta_estimate(self.current, self.total, elapsed as nat) matches Some(t) && d == eta_duration(t),
    {
        let elapsed = match &self.progress_started_at {
            Some(t) => match system_time_elapsed(t) {
                Some(d) => Some(duration_as_nanos(&d)),
                None => None,
            },
            None => None,
        };
        match self.eta_nanos(elapsed) {
            Some(n) => {
                let secs128 = n / NANOS_PER_SEC;
                let secs: u64 = if secs128 > u64::MAX as u128 { u64::MAX } else { secs128 as u64 };
                let nanos: u32 = (n % NANOS_PER_SEC) as u32;
                let d = duration_new(secs, nanos);
                proof {
                    let e = elapsed->Some_0;
                    assert(eta_estimate(self.current, self.total, e as nat) matches Some(t0) && d == eta_duration(t0));
                }
                Some(d)
            },
            None => None,
        }
    }
}

impl Default for ProgressInfo {
    fn default() -> (r: ProgressInfo)
        ensures
            r.current == 0,
            r.total == 0,
            r.message@ == "Initializing..."@,
            r.progress_started_at is None,
    {
        ProgressInfo::new()
    }
}


/// The function definition and the tool spec of a tool both call it by its
/// function name.
pub proof fn law_definitions_share_the_function_name(c: McpToolContext)
    ensures
        c.function_definition_json().get_str("name"@) == Some(c.function_name()),
        c.tool_spec_json().get_str("name"@) == Some(c.function_name()),
{
}

/// A tool matches a query when the lowercase query occurs in the lowercase
/// form of its tool name, its description, its server name, or the name or
/// description of one of its parameters; and it matches no query that
/// occurs in none of them.
pub proof fn law_query_matches_where_it_occurs(c: McpToolContext, query: Seq<char>)
    ensures
        has_substring(lowercase_of(c.tool_name@), lowercase_of(query)) ==> c.query_matches(query),
        has_substring(lowercase_of(c.description@), lowercase_of(query)) ==> c.query_matches(query),
        has_substring(lowercase_of(c.server_name@), lowercase_of(query)) ==> c.query_matches(query),
        forall|i: int| 0 <= i < c.parameters@.len()
            && has_substring(lowercase_of((#[trigger] c.parameters@[i]).name@), lowercase_of(query))
            ==> c.query_matches(query),
        forall|i: int| 0 <= i < c.parameters@.len()
            && ((#[trigger] c.parameters@[i]).description matches Some(d)
                && has_substring(lowercase_of(d@), lowercase_of(query)))
            ==> c.query_matches(query),
        c.query_matches(query) ==> {
            ||| has_substring(lowercase_of(c.tool_name@), lowercase_of(query))
            ||| has_substring(lowercase_of(c.description@), lowercase_of(query))
            ||| has_substring(lowercase_of(c.server_name@), lowercase_of(query))
            ||| exists|i: int| 0 <= i < c.parameters@.len() && {
                let p = #[trigger] c.parameters@[i];
                ||| has_substring(lowercase_of(p.name@), lowercase_of(query))
                ||| (p.description matches Some(d) && has_substring(lowercase_of(d@), lowercase_of(query)))
            }
        },
{
    assert forall|i: int| 0 <= i < c.parameters@.len()
        && has_substring(lowercase_of((#[trigger] c.parameters@[i]).name@), lowercase_of(query))
        implies c.query_matches(query) by {
        assert(param_matches(c.parameters@[i], lowercase_of(query)));
    }
    assert forall|i: int| 0 <= i < c.parameters@.len()
        && ((#[trigger] c.parameters@[i]).description matches Some(d)
            && has_substring(lowercase_of(d@), lowercase_of(query)))
        implies c.query_matches(query) by {
        assert(param_matches(c.parameters@[i], lowercase_of(query)));
    }
}

/// Query matching ignores case: two queries with the same lowercase form
/// match the same tools.
pub proof fn law_query_matching_ignores_case(c: McpToolContext, q1: Seq<char>, q2: Seq<char>)
    requires
        lowercase_of(q1) == lowercase_of(q2),
    ensures
        c.query_matches(q1) == c.query_matches(q2),
{
}

} // verus!
