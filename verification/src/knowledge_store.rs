use vstd::prelude::*;

use crate::json::str_eq;
use crate::text::{owned, push_str, to_lowercase, lowercase_of, substring, join, join_strings, u64_to_decimal, decimal, digit_char, starts_with};
use crate::types::KnowledgeContext;

verus! {

/// How much MCP indexing reports, from nothing to everything.
#[derive(Debug, Clone, Copy, PartialEq, Eq, PartialOrd, Ord, Structural)]
pub enum McpIndexingLogLevel {
    Silent,
    Error,
    Warn,
    Info,
    Debug,
}

impl McpIndexingLogLevel {
    /// The place of a level: `Silent` 0, `Error` 1, `Warn` 2, `Info` 3, `Debug` 4.
    pub open spec fn rank(self) -> int {
        match self {
            McpIndexingLogLevel::Silent => 0,
            McpIndexingLogLevel::Error => 1,
            McpIndexingLogLevel::Warn => 2,
            McpIndexingLogLevel::Info => 3,
            McpIndexingLogLevel::Debug => 4,
        }
    }

    /// The level a lowercase name stands for; `Info` for any other name.
    pub open spec fn named(lower: Seq<char>) -> McpIndexingLogLevel {
        if lower == "silent"@ {
            McpIndexingLogLevel::Silent
        } else if lower == "error"@ {
            McpIndexingLogLevel::Error
        } else if lower == "warn"@ {
            McpIndexingLogLevel::Warn
        } else if lower == "info"@ {
            McpIndexingLogLevel::Info
        } else if lower == "debug"@ {
            McpIndexingLogLevel::Debug
        } else {
            McpIndexingLogLevel::Info
        }
    }

    /// The level a name already in lowercase stands for.
    pub fn from_lowercase(lower: &str) -> (r: McpIndexingLogLevel)
        ensures
            r == McpIndexingLogLevel::named(lower@),
    {
        if str_eq(lower, "silent") {
            McpIndexingLogLevel::Silent
        } else if str_eq(lower, "error") {
            McpIndexingLogLevel::Error
        } else if str_eq(lower, "warn") {
            McpIndexingLogLevel::Warn
        } else if str_eq(lower, "info") {
            McpIndexingLogLevel::Info
        } else if str_eq(lower, "debug") {
            McpIndexingLogLevel::Debug
        } else {
            McpIndexingLogLevel::Info
        }
    }

    /// The level a name stands for, ignoring case; `Info` for an unknown name.
    pub fn from_str(s: &str) -> (r: McpIndexingLogLevel)
        ensures
            r == McpIndexingLogLevel::named(lowercase_of(s@)),
    {
        let lower = to_lowercase(s);
        McpIndexingLogLevel::from_lowercase(lower.as_str())
    }

    /// Whether this level reports what `threshold` reports (`self >= threshold`).
    pub fn reports(self, threshold: McpIndexingLogLevel) -> (r: bool)
        ensures
            r == (self.rank() >= threshold.rank()),
    {
        let a: u8 = match self {
            McpIndexingLogLevel::Silent => 0,
            McpIndexingLogLevel::Error => 1,
            McpIndexingLogLevel::Warn => 2,
            McpIndexingLogLevel::Info => 3,
            McpIndexingLogLevel::Debug => 4,
        };
        let b: u8 = match threshold {
            McpIndexingLogLevel::Silent => 0,
            McpIndexingLogLevel::Error => 1,
            McpIndexingLogLevel::Warn => 2,
            McpIndexingLogLevel::Info => 3,
            McpIndexingLogLevel::Debug => 4,
        };
        a >= b
    }
}

/// Every name stands for some level, and a name that is none of the five
/// stands for `Info`.
pub proof fn law_log_level_default(lower: Seq<char>)
    requires
        lower != "silent"@,
        lower != "error"@,
        lower != "warn"@,
        lower != "info"@,
        lower != "debug"@,
    ensures
        McpIndexingLogLevel::named(lower) == McpIndexingLogLevel::Info,
{
}

/// Errors of the knowledge store.
#[derive(Debug)]
pub enum KnowledgeError {
    ClientError(String),
}

impl KnowledgeError {
    /// The text of the error (what its `Display` impl prints).
    pub fn message(&self) -> (r: String)
        ensures
            self matches KnowledgeError::ClientError(m) ==> r@ == "Client error: "@ + m@,
    {
        match self {
            KnowledgeError::ClientError(m) => {
                let mut r = owned("Client error: ");
                push_str(&mut r, m.as_str());
                r
            },
        }
    }
}


/// The value of a hexadecimal digit, either case.
pub open spec fn hex_digit_value(c: char) -> Option<nat> {
    if '0' <= c && c <= '9' {
        Some((c as nat - '0' as nat) as nat)
    } else if 'a' <= c && c <= 'f' {
        Some((c as nat - 'a' as nat + 10) as nat)
    } else if 'A' <= c && c <= 'F' {
        Some((c as nat - 'A' as nat + 10) as nat)
    } else {
        None
    }
}

/// The value of a string of hexadecimal digits, most significant first.
pub open spec fn hex_value(s: Seq<char>) -> Option<nat>
    decreases s.len(),
{
    if s.len() == 0 {
        Some(0)
    } else {
        match (hex_value(s.drop_last()), hex_digit_value(s.last())) {
            (Some(v), Some(d)) => Some(v * 16 + d),
            _ => None,
        }
    }
}

/// The 32 digits of an id written `8-4-4-4-12`, if the hyphens stand there.
pub open spec fn hyphenated_digits(s: Seq<char>) -> Option<Seq<char>> {
    if s.len() == 36 && s[8] == '-' && s[13] == '-' && s[18] == '-' && s[23] == '-' {
        Some(s.subrange(0, 8) + s.subrange(9, 13) + s.subrange(14, 18) + s.subrange(19, 23) + s.subrange(24, 36))
    } else {
        None
    }
}

/// A character in ASCII lower case.
pub open spec fn ascii_lower(c: char) -> char {
    if 'A' <= c && c <= 'Z' {
        ((c as u32) + 32) as char
    } else {
        c
    }
}

/// The 32 digits of an id in one of the forms `Uuid::parse_str` reads: 32
/// digits, the hyphenated form, the hyphenated form in braces, or after
/// `urn:uuid:` in any case.
pub open spec fn uuid_digits(s: Seq<char>) -> Option<Seq<char>> {
    if s.len() == 32 {
        Some(s)
    } else if s.len() == 36 {
        hyphenated_digits(s)
    } else if s.len() == 38 && s[0] == '{' && s[37] == '}' {
        hyphenated_digits(s.subrange(1, 37))
    } else if s.len() == 45 && s.subrange(0, 9).map_values(|c: char| ascii_lower(c)) == "urn:uuid:"@ {
        hyphenated_digits(s.subrange(9, 45))
    } else {
        None
    }
}

/// The id a text writes, as the 128-bit number whose bytes, most significant
/// first, are the id's bytes; `None` when the text writes no id.
pub open spec fn uuid_value(s: Seq<char>) -> Option<u128> {
    match uuid_digits(s) {
        Some(d) => match hex_value(d) {
            Some(v) => Some(v as u128),
            None => None,
        },
        None => None,
    }
}

/// Calls `uuid::Uuid::parse_str` and takes the id as a number
/// (`Uuid::as_u128`, most significant byte first). The crate reads 32
/// hexadecimal digits of either case, plain, in the hyphenated `8-4-4-4-12`
/// form, in that form within braces, or after `urn:uuid:` in any case; its
/// digits, in order, are the number's.
#[verifier::external_body]
fn parse_uuid(s: &str) -> (r: Option<u128>)
    ensures
        r == uuid_value(s@),
{
    match uuid::Uuid::parse_str(s) {
        Ok(id) => Some(id.as_u128()),
        Err(_) => None,
    }
}

/// The lowercase hexadecimal digit of `d` (`d < 16`).
pub open spec fn hex_lower_char(d: nat) -> char {
    if d < 10 {
        digit_char(d)
    } else if d == 10 {
        'a'
    } else if d == 11 {
        'b'
    } else if d == 12 {
        'c'
    } else if d == 13 {
        'd'
    } else if d == 14 {
        'e'
    } else {
        'f'
    }
}

/// The last `width` lowercase hexadecimal digits of `v`, padded with zeros.
pub open spec fn hex_lower_padded(v: nat, width: nat) -> Seq<char>
    decreases width,
{
    if width == 0 {
        Seq::empty()
    } else {
        hex_lower_padded(v / 16, (width - 1) as nat).push(hex_lower_char(v % 16))
    }
}

/// The string of one lowercase hexadecimal digit.
fn hex_digit_str(d: u128) -> (r: &'static str)
    requires
        d < 16,
    ensures
        r@ == seq![hex_lower_char(d as nat)],
{
    if d < 10 {
        let s = crate::text::digit_str(d as u64);
        s
    } else if d == 10 {
        proof { reveal_strlit("a"); }
        "a"
    } else if d == 11 {
        proof { reveal_strlit("b"); }
        "b"
    } else if d == 12 {
        proof { reveal_strlit("c"); }
        "c"
    } else if d == 13 {
        proof { reveal_strlit("d"); }
        "d"
    } else if d == 14 {
        proof { reveal_strlit("e"); }
        "e"
    } else {
        proof { reveal_strlit("f"); }
        "f"
    }
}

/// The last `width` lowercase hexadecimal digits of `v`.
fn hex_padded(v: u128, width: usize) -> (r: String)
    ensures
        r@ == hex_lower_padded(v as nat, width as nat),
    decreases width,
{
    if width == 0 {
        String::new()
    } else {
        let mut r = hex_padded(v / 16, width - 1);
        push_str(&mut r, hex_digit_str(v % 16));
        r
    }
}

/// The first eight characters of an operation id as an id's text shows them:
/// the top 32 bits of the id in lowercase hexadecimal, padded with zeros.
pub fn short_operation_id(id: u128) -> (r: String)
    ensures
        r@ == hex_lower_padded((id as nat) / 0x1_0000_0000_0000_0000_0000_0000, 8),
{
    hex_padded(id / 0x1_0000_0000_0000_0000_0000_0000, 8)
}

/// What cancelling one operation comes to.
#[derive(Debug)]
pub enum CancelTarget {
    /// The text is a whole id: cancel the operation with this id.
    Operation(u128),
    /// The text is to be matched against the start of the ids.
    ShortId,
}

/// How to cancel the operation that `operation_id` names, given the ids of
/// the operations that run. With none running there is nothing to cancel.
pub fn cancel_target(operation_id: &str, available_ops: &Vec<String>) -> (r: Result<CancelTarget, String>)
    ensures
        available_ops@.len() == 0 <==> r is Err,
        r matches Err(m) ==> m@ == "No active operations found"@,
        r matches Ok(t) ==> match t {
            CancelTarget::Operation(v) => uuid_value(operation_id@) == Some(v),
            CancelTarget::ShortId => uuid_value(operation_id@) is None,
        },
{
    if available_ops.len() == 0 {
        return Err(owned("No active operations found"));
    }
    match parse_uuid(operation_id) {
        Some(id) => Ok(CancelTarget::Operation(id)),
        None => Ok(CancelTarget::ShortId),
    }
}

/// The error when no operation starts with `short_id`.
pub open spec fn no_operation_message(short_id: Seq<char>, available_ops: Seq<Seq<char>>) -> Seq<char> {
    "No operation found matching ID: "@ + short_id + "\nAvailable operations:\n"@ + join(available_ops, "\n"@)
}

/// The operation that a short id found, or the error that lists the
/// operations that run.
pub fn short_id_outcome(short_id: &str, found: Option<u128>, available_ops: &Vec<String>) -> (r: Result<u128, String>)
    ensures
        found matches Some(id) ==> r == Ok::<u128, String>(id),
        found is None ==> (r matches Err(m) && m@ == no_operation_message(short_id@, available_ops.deep_view())),
{
    match found {
        Some(id) => Ok(id),
        None => {
            let mut m = owned("No operation found matching ID: ");
            push_str(&mut m, short_id);
            push_str(&mut m, "\nAvailable operations:\n");
            let listed = join_strings(available_ops, "\n");
            push_str(&mut m, listed.as_str());
            Err(m)
        },
    }
}

/// The message when indexing of `name` at `path` started.
pub open spec fn indexing_started_text(name: Seq<char>, path: Seq<char>, short_id: Seq<char>) -> Seq<char> {
    "🚀 Started indexing '"@ + name + "'\n📁 Path: "@ + path + "\n🆔 Operation ID: "@ + short_id + "."@
}

/// The message when indexing started; the operation is shown by the first
/// eight characters of its id.
pub fn indexing_started_message(name: &str, path: &str, operation_id: &str) -> (r: String)
    requires
        operation_id@.len() >= 8,
    ensures
        r@ == indexing_started_text(name@, path@, operation_id@.subrange(0, 8)),
{
    let short = substring(operation_id, 0, 8);
    let mut m = owned("🚀 Started indexing '");
    push_str(&mut m, name);
    push_str(&mut m, "'\n📁 Path: ");
    push_str(&mut m, path);
    push_str(&mut m, "\n🆔 Operation ID: ");
    push_str(&mut m, short.as_str());
    push_str(&mut m, ".");
    m
}

/// `{prefix}{detail}`: the errors of the store's operations put what went
/// wrong after a fixed text.
pub fn prefixed_error(prefix: &str, detail: &str) -> (r: String)
    ensures
        r@ == prefix@ + detail@,
{
    let mut m = owned(prefix);
    push_str(&mut m, detail);
    m
}

/// The error when a path to index does not exist.
pub fn path_missing_message(path: &str) -> (r: String)
    ensures
        r@ == "❌ Path does not exist: "@ + path@,
{
    prefixed_error("❌ Path does not exist: ", path)
}

/// The message when clearing started in the background.
pub open spec fn clear_started_text(short_id: Seq<char>) -> Seq<char> {
    "🚀 Started clearing all contexts in background.\n📊 Use 'knowledge status' to check progress.\n🆔 Operation ID: "@ + short_id
}

pub fn clear_started_message(operation_id: &str) -> (r: String)
    requires
        operation_id@.len() >= 8,
    ensures
        r@ == clear_started_text(operation_id@.subrange(0, 8)),
{
    let short = substring(operation_id, 0, 8);
    prefixed_error("🚀 Started clearing all contexts in background.\n📊 Use 'knowledge status' to check progress.\n🆔 Operation ID: ", short.as_str())
}

/// The message when `count` entries were cleared at once.
pub fn cleared_message(count: u64) -> (r: String)
    ensures
        r@ == "✅ Successfully cleared "@ + decimal(count as nat) + " knowledge base entries"@,
{
    let mut m = owned("✅ Successfully cleared ");
    let n = u64_to_decimal(count);
    push_str(&mut m, n.as_str());
    push_str(&mut m, " knowledge base entries");
    m
}

/// The context found by path, or the error that says none has that path.
pub fn context_for_path<'a>(path: &str, found: Option<&'a KnowledgeContext>) -> (r: Result<&'a KnowledgeContext, String>)
    ensures
        found matches Some(c) ==> r == Ok::<&KnowledgeContext, String>(c),
        found is None ==> (r matches Err(m) && m@ == "No context found with path '"@ + path@ + "'"@),
{
    match found {
        Some(c) => Ok(c),
        None => {
            let mut m = owned("No context found with path '");
            push_str(&mut m, path);
            push_str(&mut m, "'");
            Err(m)
        },
    }
}

/// The context found by name, or the error that says none has that name.
pub fn context_for_name<'a>(name: &str, found: Option<&'a KnowledgeContext>) -> (r: Result<&'a KnowledgeContext, String>)
    ensures
        found matches Some(c) ==> r == Ok::<&KnowledgeContext, String>(c),
        found is None ==> (r matches Err(m) && m@ == "No context found with name '"@ + name@ + "'"@),
{
    match found {
        Some(c) => Ok(c),
        None => {
            let mut m = owned("No context found with name '");
            push_str(&mut m, name);
            push_str(&mut m, "'");
            Err(m)
        },
    }
}

/// The context to update by path; when none has that path, the error lists
/// the paths there are, or says that there are no contexts at all.
pub fn context_to_update_by_path<'a>(path: &str, found: Option<&'a KnowledgeContext>, available_paths: &Vec<String>)
    -> (r: Result<&'a KnowledgeContext, String>)
    ensures
        found matches Some(c) ==> r == Ok::<&KnowledgeContext, String>(c),
        found is None && available_paths@.len() == 0 ==> (r matches Err(m)
            && m@ == "No contexts found. Add a context first with 'knowledge add <name> <path>'"@),
        found is None && available_paths@.len() > 0 ==> (r matches Err(m)
            && m@ == "No context found with path '"@ + path@ + "'\nAvailable contexts:\n"@ + join(available_paths.deep_view(), "\n"@)),
{
    match found {
        Some(c) => Ok(c),
        None => {
            if available_paths.len() == 0 {
                Err(owned("No contexts found. Add a context first with 'knowledge add <name> <path>'"))
            } else {
                let mut m = owned("No context found with path '");
                push_str(&mut m, path);
                push_str(&mut m, "'\nAvailable contexts:\n");
                let listed = join_strings(available_paths, "\n");
                push_str(&mut m, listed.as_str());
                Err(m)
            }
        },
    }
}

/// The context whose id is `context_id`: the first one, should ids repeat.
pub fn context_with_id<'a>(contexts: &'a Vec<KnowledgeContext>, context_id: &str) -> (r: Result<&'a KnowledgeContext, String>)
    ensures
        r matches Ok(c) ==> c.id@ == context_id@
            && exists|i: int| 0 <= i < contexts@.len() && contexts@[i] == *c
                && forall|j: int| 0 <= j < i ==> contexts@[j].id@ != context_id@,
        r is Err ==> forall|j: int| 0 <= j < contexts@.len() ==> contexts@[j].id@ != context_id@,
        r matches Err(m) ==> m@ == "Context '"@ + context_id@ + "' not found"@,
{
    let mut i: usize = 0;
    while i < contexts.len()
        invariant
            i <= contexts@.len(),
            forall|j: int| 0 <= j < i ==> contexts@[j].id@ != context_id@,
        decreases contexts.len() - i,
    {
        if str_eq(contexts[i].id.as_str(), context_id) {
            return Ok(&contexts[i]);
        }
        i = i + 1;
    }
    let mut m = owned("Context '");
    push_str(&mut m, context_id);
    push_str(&mut m, "' not found");
    Err(m)
}

/// The context to update by name, or the error that says there is none.
pub fn context_to_update_by_name<'a>(name: &str, found: Option<&'a KnowledgeContext>) -> (r: Result<&'a KnowledgeContext, String>)
    ensures
        found matches Some(c) ==> r == Ok::<&KnowledgeContext, String>(c),
        found is None ==> (r matches Err(m) && m@ == "Context with name '"@ + name@ + "' not found"@),
{
    match found {
        Some(c) => Ok(c),
        None => {
            let mut m = owned("Context with name '");
            push_str(&mut m, name);
            push_str(&mut m, "' not found");
            Err(m)
        },
    }
}

/// What refreshing the MCP tools reports.
pub fn refresh_mcp_tools_message() -> (r: String)
    ensures
        r@ == "No MCP configuration found or no servers to index"@,
{
    owned("No MCP configuration found or no servers to index")
}

/// Whether MCP tools are indexed automatically. Never while selective
/// loading is on, whose loader discovers the servers itself; otherwise as the
/// setting says, and yes when it is not set or the settings cannot be read.
pub fn auto_indexing_enabled(selective_loading_enabled: bool, setting: Option<bool>) -> (r: bool)
    ensures
        r == (!selective_loading_enabled && setting != Some(false)),
{
    if selective_loading_enabled {
        return false;
    }
    match setting {
        Some(b) => b,
        None => true,
    }
}

/// The log level of MCP indexing: the one the setting names, `Info` when it
/// is not set or the settings cannot be read.
pub fn indexing_log_level(setting: Option<&str>) -> (r: McpIndexingLogLevel)
    ensures
        setting is None ==> r == McpIndexingLogLevel::Info,
        setting matches Some(s) ==> r == McpIndexingLogLevel::named(lowercase_of(s@)),
{
    match setting {
        Some(s) => McpIndexingLogLevel::from_str(s),
        None => McpIndexingLogLevel::Info,
    }
}

/// What automatic MCP indexing reports of its result at log level `level`:
/// a success from `Info` up, a failure from `Error` up, and nothing below.
/// The flag says whether the notice is an error.
pub fn auto_index_notice(result: &Result<String, String>, level: McpIndexingLogLevel) -> (r: Option<(bool, String)>)
    ensures
        result matches Ok(m) ==> (level.rank() >= McpIndexingLogLevel::Info.rank() <==> r is Some)
            && (r matches Some(n) ==> !n.0 && n.1@ == "🔧 MCP Auto-indexing: "@ + m@),
        result matches Err(e) ==> (level.rank() >= McpIndexingLogLevel::Error.rank() <==> r is Some)
            && (r matches Some(n) ==> n.0 && n.1@ == "❌ MCP Auto-indexing failed: "@ + e@),
{
    match result {
        Ok(m) => {
            if level.reports(McpIndexingLogLevel::Info) {
                Some((false, prefixed_error("🔧 MCP Auto-indexing: ", m.as_str())))
            } else {
                None
            }
        },
        Err(e) => {
            if level.reports(McpIndexingLogLevel::Error) {
                Some((true, prefixed_error("❌ MCP Auto-indexing failed: ", e.as_str())))
            } else {
                None
            }
        },
    }
}

/// A knowledge store over the search client `C`, which does the indexing and
/// searching; the functions of this module decide what the store answers.
pub struct KnowledgeStore<C> {
    client: C,
}

impl<C> KnowledgeStore<C> {
    pub closed spec fn client_spec(self) -> C {
        self.client
    }

    pub fn new(client: C) -> (r: KnowledgeStore<C>)
        ensures
            r.client_spec() == client,
    {
        KnowledgeStore { client }
    }

    pub fn client(&self) -> (r: &C)
        ensures
            *r == self.client_spec(),
    {
        &self.client
    }
}


/// A context that holds the tools of an MCP server: its name begins with `mcp_`.
pub open spec fn is_mcp_context(c: KnowledgeContext) -> bool {
    4 <= c.name@.len() && c.name@.take(4) == "mcp_"@
}

/// Context `i` holds the tools of an MCP server for which another context is
/// kept: a later-created one of the same name, or an equally recent one listed
/// before it.
pub open spec fn superseded(cs: Seq<KnowledgeContext>, i: int) -> bool {
    &&& is_mcp_context(cs[i])
    &&& exists|j: int| 0 <= j < cs.len() && j != i && #[trigger] cs[j].name@ == cs[i].name@
        && (cs[j].created_at > cs[i].created_at || (cs[j].created_at == cs[i].created_at && j < i))
}

/// The positions of the duplicate MCP contexts that a cleanup removes, in
/// order: for each MCP server the most recent context is kept (the first
/// listed among equally recent ones), the others go. Other contexts stay.
pub fn duplicate_mcp_contexts(contexts: &Vec<KnowledgeContext>) -> (r: Vec<usize>)
    ensures
        forall|k: int, l: int| 0 <= k < l < r@.len() ==> r@[k] < r@[l],
        forall|k: int| 0 <= k < r@.len() ==> r@[k] < contexts@.len(),
        forall|i: int| 0 <= i < contexts@.len() ==> (r@.contains(i as usize) <==> superseded(contexts@, i)),
{
    let mut out: Vec<usize> = Vec::new();
    let mut i: usize = 0;
    while i < contexts.len()
        invariant
            i <= contexts@.len(),
            forall|k: int, l: int| 0 <= k < l < out@.len() ==> out@[k] < out@[l],
            forall|k: int| 0 <= k < out@.len() ==> out@[k] < i,
            forall|m: int| 0 <= m < i ==> (out@.contains(m as usize) <==> superseded(contexts@, m)),
        decreases contexts.len() - i,
    {
        let c = &contexts[i];
        let mut found = false;
        if starts_with(c.name.as_str(), "mcp_") {
            proof { reveal_strlit("mcp_"); }
            let mut j: usize = 0;
            while j < contexts.len()
                invariant
                    i < contexts@.len(),
                    j <= contexts@.len(),
                    *c == contexts@[i as int],
                    is_mcp_context(contexts@[i as int]),
                    found ==> superseded(contexts@, i as int),
                    !found ==> forall|m: int| 0 <= m < j ==> !(m != i && #[trigger] contexts@[m].name@ == contexts@[i as int].name@
                        && (contexts@[m].created_at > contexts@[i as int].created_at
                            || (contexts@[m].created_at == contexts@[i as int].created_at && m < i))),
                decreases contexts.len() - j,
            {
                let d = &contexts[j];
                if !found && j != i && str_eq(d.name.as_str(), c.name.as_str())
                    && (d.created_at > c.created_at || (d.created_at == c.created_at && j < i)) {
                    found = true;
                }
                j = j + 1;
            }
        }
        let ghost before = out@;
        if found {
            out.push(i);
            proof {
                assert forall|m: int| 0 <= m <= i implies (out@.contains(m as usize) <==> superseded(contexts@, m)) by {
                    if m < i {
                        if before.contains(m as usize) {
                            let k = choose|k: int| 0 <= k < before.len() && before[k] == m as usize;
                            assert(out@[k] == m as usize);
                        }
                        if out@.contains(m as usize) {
                            let k = choose|k: int| 0 <= k < out@.len() && out@[k] == m as usize;
                            if k == before.len() {
                                assert(false);
                            } else {
                                assert(before[k] == m as usize);
                            }
                        }
                    } else {
                        assert(out@[before.len() as int] == i);
                    }
                }
            }
        } else {
            proof {
                if out@.contains(i) {
                    let k = choose|k: int| 0 <= k < out@.len() && out@[k] == i;
                    assert(out@[k] < i);
                }
                if superseded(contexts@, i as int) {
                    if is_mcp_context(contexts@[i as int]) {
                        let m = choose|m: int| 0 <= m < contexts@.len() && m != i && #[trigger] contexts@[m].name@ == contexts@[i as int].name@
                            && (contexts@[m].created_at > contexts@[i as int].created_at
                                || (contexts@[m].created_at == contexts@[i as int].created_at && m < i));
                        assert(contexts@[m].name@ == contexts@[i as int].name@);
                    }
                }
            }
        }
        i = i + 1;
    }
    out
}

/// Context `m` is kept over context `k` of the same server: it is more
/// recent, or as recent and listed first.
pub open spec fn kept_over(cs: Seq<KnowledgeContext>, m: int, k: int) -> bool {
    cs[m].created_at > cs[k].created_at || (cs[m].created_at == cs[k].created_at && m < k)
}

/// Among context `i` and the first `n` contexts, one of the name of `i` over
/// which none of them is kept.
proof fn lemma_best_context(cs: Seq<KnowledgeContext>, i: int, n: int) -> (k: int)
    requires
        0 <= i < cs.len(),
        0 <= n <= cs.len(),
    ensures
        0 <= k < cs.len(),
        cs[k].name@ == cs[i].name@,
        forall|m: int| (0 <= m < n || m == i) && m != k && cs[m].name@ == cs[i].name@ ==> !#[trigger] kept_over(cs, m, k),
    decreases n,
{
    if n == 0 {
        i
    } else {
        let k0 = lemma_best_context(cs, i, n - 1);
        let m = n - 1;
        if m != k0 && cs[m].name@ == cs[i].name@ && kept_over(cs, m, k0) {
            assert forall|m2: int| (0 <= m2 < n || m2 == i) && m2 != m && cs[m2].name@ == cs[i].name@
                implies !#[trigger] kept_over(cs, m2, m) by {
                if m2 != k0 {
                    assert(!kept_over(cs, m2, k0));
                }
            }
            m
        } else {
            k0
        }
    }
}

/// A cleanup keeps exactly one context of each MCP server: some context of
/// the server's name is not superseded, and of two contexts of one name at
/// least one is.
pub proof fn law_cleanup_keeps_one_per_server(cs: Seq<KnowledgeContext>, i: int, j: int)
    requires
        0 <= i < cs.len(),
        0 <= j < cs.len(),
        is_mcp_context(cs[i]),
    ensures
        exists|k: int| 0 <= k < cs.len() && cs[k].name@ == cs[i].name@ && !superseded(cs, k),
        i != j && cs[j].name@ == cs[i].name@ ==> superseded(cs, i) || superseded(cs, j),
{
    let k = lemma_best_context(cs, i, cs.len() as int);
    assert(is_mcp_context(cs[k]));
    assert(!superseded(cs, k)) by {
        if superseded(cs, k) {
            let m = choose|m: int| 0 <= m < cs.len() && m != k && #[trigger] cs[m].name@ == cs[k].name@
                && (cs[m].created_at > cs[k].created_at || (cs[m].created_at == cs[k].created_at && m < k));
            assert(kept_over(cs, m, k));
        }
    }
    if i != j && cs[j].name@ == cs[i].name@ {
        if kept_over(cs, j, i) {
            assert(cs[j].name@ == cs[i].name@);
        } else {
            assert(kept_over(cs, i, j));
            assert(is_mcp_context(cs[j]));
            assert(cs[i].name@ == cs[j].name@);
        }
    }
}

/// The report of a cleanup.
pub fn cleanup_message(removed: u64, kept: u64) -> (r: String)
    ensures
        r@ == "✅ Cleaned up "@ + decimal(removed as nat) + " duplicate contexts, kept "@ + decimal(kept as nat)
            + " unique server contexts"@,
{
    let mut m = owned("✅ Cleaned up ");
    push_str(&mut m, u64_to_decimal(removed).as_str());
    push_str(&mut m, " duplicate contexts, kept ");
    push_str(&mut m, u64_to_decimal(kept).as_str());
    push_str(&mut m, " unique server contexts");
    m
}

/// The context a refresh replaces: the first one with the name and
/// description of the server's tool context, so that refreshing adds no
/// duplicate.
pub fn context_to_replace(contexts: &Vec<KnowledgeContext>, name: &str, description: &str) -> (r: Option<usize>)
    ensures
        r matches Some(i) ==> i < contexts@.len() && contexts@[i as int].name@ == name@
            && contexts@[i as int].description@ == description@
            && forall|j: int| 0 <= j < i ==> !(contexts@[j].name@ == name@ && contexts@[j].description@ == description@),
        r is None ==> forall|j: int| 0 <= j < contexts@.len() ==> !(contexts@[j].name@ == name@ && contexts@[j].description@ == description@),
{
    let mut i: usize = 0;
    while i < contexts.len()
        invariant
            i <= contexts@.len(),
            forall|j: int| 0 <= j < i ==> !(contexts@[j].name@ == name@ && contexts@[j].description@ == description@),
        decreases contexts.len() - i,
    {
        if str_eq(contexts[i].name.as_str(), name) && str_eq(contexts[i].description.as_str(), description) {
            return Some(i);
        }
        i = i + 1;
    }
    None
}

} // verus!
