use vstd::prelude::*;

use crate::json::{Json, JsonValue};
use crate::keyed::{entries_map, names_distinct, lemma_entries_map_dom, lemma_entries_map_at, lemma_entries_map_update, lemma_entries_map_push, lemma_entries_map_len};
use crate::mcp_processor::views_of;
use crate::text::owned;

verus! {

/// Where a tool of the chat comes from.
#[derive(Debug, Clone, Copy, PartialEq, Eq, Structural)]
pub enum ToolOrigin {
    Native,
    Mcp,
}

/// A tool as the chat's tool configuration lists it.
#[derive(Debug)]
pub struct ToolSpec {
    pub name: String,
    pub description: String,
    pub input_schema: JsonValue,
    pub tool_origin: ToolOrigin,
}

/// The value of a tool spec.
pub struct ToolSpecView {
    pub name: Seq<char>,
    pub description: Seq<char>,
    pub input_schema: Json,
    pub tool_origin: ToolOrigin,
}

impl View for ToolSpec {
    type V = ToolSpecView;

    open spec fn view(&self) -> ToolSpecView {
        ToolSpecView {
            name: self.name@,
            description: self.description@,
            input_schema: self.input_schema@,
            tool_origin: self.tool_origin,
        }
    }
}

/// The tool spec of an MCP tool as the search returns it: `None` when the tool
/// has no string `name`. A missing description is empty; a missing
/// `input_schema` is an empty object.
pub open spec fn mcp_tool_spec(tool: Json) -> Option<ToolSpecView> {
    match tool.get_str("name"@) {
        None => None,
        Some(name) => Some(
            ToolSpecView {
                name,
                description: match tool.get_str("description"@) {
                    Some(d) => d,
                    None => Seq::empty(),
                },
                input_schema: match tool.get("input_schema"@) {
                    Some(s) => s,
                    None => Json::Object(Seq::empty()),
                },
                tool_origin: ToolOrigin::Mcp,
            },
        ),
    }
}

/// Turns an MCP tool into a tool spec; fails with `Tool missing name` when the
/// tool has no string `name`.
pub fn convert_mcp_tool_to_tool_spec(tool: &JsonValue) -> (r: Result<Option<ToolSpec>, String>)
    ensures
        r is Err <==> mcp_tool_spec(tool@) is None,
        r matches Err(m) ==> m@ == "Tool missing name"@,
        r matches Ok(s) ==> s matches Some(spec) && mcp_tool_spec(tool@) == Some(spec@),
{
    let name = match tool.get_str("name") {
        Some(n) => n,
        None => return Err(owned("Tool missing name")),
    };
    let description = match tool.get_str("description") {
        Some(d) => d,
        None => {
            proof { reveal_strlit(""); }
            ""
        },
    };
    let input_schema = match tool.get("input_schema") {
        Some(s) => s.deep_copy(),
        None => {
            let empty: Vec<(String, JsonValue)> = Vec::new();
            assert(crate::json::json_members(empty@) =~= Seq::empty());
            JsonValue::Object(empty)
        },
    };
    let spec = ToolSpec { name: owned(name), description: owned(description), input_schema, tool_origin: ToolOrigin::Mcp };
    assert(spec@.description == mcp_tool_spec(tool@).unwrap().description);
    Ok(Some(spec))
}

/// The name/value pairs of a list of configured tools.
pub open spec fn entry_views(es: Seq<(String, ToolSpec)>) -> Seq<(Seq<char>, ToolSpecView)> {
    es.map_values(|e: (String, ToolSpec)| (e.0@, e.1@))
}

/// The chat's tools by name.
pub struct ToolConfig {
    entries: Vec<(String, ToolSpec)>,
}

impl View for ToolConfig {
    type V = Map<Seq<char>, ToolSpecView>;

    closed spec fn view(&self) -> Map<Seq<char>, ToolSpecView> {
        entries_map(entry_views(self.entries@))
    }
}

impl ToolConfig {
    /// Each name is held once.
    pub closed spec fn wf(self) -> bool {
        names_distinct(entry_views(self.entries@))
    }

    pub fn new() -> (r: ToolConfig)
        ensures
            r.wf(),
            r@ == Map::<Seq<char>, ToolSpecView>::empty(),
    {
        let r = ToolConfig { entries: Vec::new() };
        assert(entry_views(r.entries@) =~= Seq::empty());
        r
    }

    /// Sets the tool under `name`, replacing one held before.
    pub fn insert(&mut self, name: String, spec: ToolSpec)
        requires
            old(self).wf(),
        ensures
            final(self).wf(),
            final(self)@ == old(self)@.insert(name@, spec@),
    {
        let ghost es = entry_views(self.entries@);
        let mut i: usize = 0;
        while i < self.entries.len()
            invariant
                self.entries@ == old(self).entries@,
                es == entry_views(self.entries@),
                names_distinct(es),
                i <= self.entries@.len(),
                forall|j: int| 0 <= j < i ==> es[j].0 != name@,
            decreases self.entries.len() - i,
        {
            if crate::json::str_eq(self.entries[i].0.as_str(), name.as_str()) {
                let ghost k = name@;
                let ghost v = spec@;
                assert(es[i as int].0 == k);
                self.entries.set(i, (name, spec));
                proof {
                    assert(entry_views(self.entries@) =~= es.update(i as int, (es[i as int].0, v)));
                    lemma_entries_map_update(es, i as int, v);
                    assert(self@ == entries_map(es).insert(k, v));
                    assert(old(self)@ == entries_map(es));
                    assert(self.wf());
                }
                return;
            }
            i = i + 1;
        }
        let ghost k = name@;
        let ghost v = spec@;
        self.entries.push((name, spec));
        proof {
            assert(entry_views(self.entries@) =~= es.push((k, v)));
            lemma_entries_map_push(es, (k, v));
        }
    }

    /// The tool held under `name`.
    pub fn get(&self, name: &str) -> (r: Option<&ToolSpec>)
        requires
            self.wf(),
        ensures
            r matches Some(s) ==> self@.contains_key(name@) && self@[name@] == s@,
            r is None ==> !self@.contains_key(name@),
    {
        let ghost es = entry_views(self.entries@);
        let mut i: usize = 0;
        while i < self.entries.len()
            invariant
                es == entry_views(self.entries@),
                names_distinct(es),
                i <= self.entries@.len(),
                forall|j: int| 0 <= j < i ==> es[j].0 != name@,
            decreases self.entries.len() - i,
        {
            if crate::json::str_eq(self.entries[i].0.as_str(), name) {
                proof { lemma_entries_map_at(es, i as int); }
                return Some(&self.entries[i].1);
            }
            i = i + 1;
        }
        proof { lemma_entries_map_dom(es, name@); }
        None
    }

    /// The number of tools.
    pub fn len(&self) -> (r: usize)
        requires
            self.wf(),
        ensures
            r == self@.len(),
    {
        proof { lemma_entries_map_len(entry_views(self.entries@)); }
        self.entries.len()
    }
}

/// The configuration after the MCP tools are added in order, each one that has
/// a name under that name, replacing a tool held there.
pub open spec fn with_mcp_tools(config: Map<Seq<char>, ToolSpecView>, tools: Seq<Json>) -> Map<Seq<char>, ToolSpecView>
    decreases tools.len(),
{
    if tools.len() == 0 {
        config
    } else {
        let before = with_mcp_tools(config, tools.drop_last());
        match mcp_tool_spec(tools.last()) {
            Some(spec) => before.insert(spec.name, spec),
            None => before,
        }
    }
}

/// Adds the MCP tools that the search found to the tool configuration.
/// When the search could not be made, the configuration is returned as it was.
pub fn integrate_mcp_tools_into_config(tool_config: ToolConfig, found: Result<Vec<JsonValue>, String>) -> (r: Result<ToolConfig, String>)
    requires
        tool_config.wf(),
    ensures
        r matches Ok(c) && c.wf() && c@ == match found {
            Ok(tools) => with_mcp_tools(tool_config@, views_of(tools@)),
            Err(_) => tool_config@,
        },
{
    let mcp_tools = match found {
        Ok(tools) => tools,
        Err(_) => return Ok(tool_config),
    };
    let ghost start = tool_config@;
    let ghost all = views_of(mcp_tools@);
    let mut config = tool_config;
    let mut i: usize = 0;
    while i < mcp_tools.len()
        invariant
            config.wf(),
            i <= mcp_tools@.len(),
            all == views_of(mcp_tools@),
            config@ == with_mcp_tools(start, all.take(i as int)),
        decreases mcp_tools.len() - i,
    {
        let tool = &mcp_tools[i];
        assert(all.take(i + 1).drop_last() =~= all.take(i as int));
        assert(all.take(i + 1).last() == tool@);
        if let Some(name) = tool.get_str("name") {
            match convert_mcp_tool_to_tool_spec(tool) {
                Ok(Some(spec)) => {
                    config.insert(owned(name), spec);
                },
                _ => {},
            }
        }
        i = i + 1;
    }
    assert(all.take(mcp_tools@.len() as int) =~= all);
    Ok(config)
}

/// Adding MCP tools leaves each tool whose name none of them carries as it
/// was, and adds no such name.
pub proof fn law_integration_keeps_other_tools(config: Map<Seq<char>, ToolSpecView>, tools: Seq<Json>, name: Seq<char>)
    requires
        forall|i: int| 0 <= i < tools.len() ==> #[trigger] tools[i].get_str("name"@) != Some(name),
    ensures
        with_mcp_tools(config, tools).contains_key(name) == config.contains_key(name),
        config.contains_key(name) ==> with_mcp_tools(config, tools)[name] == config[name],
    decreases tools.len(),
{
    if tools.len() > 0 {
        assert forall|i: int| 0 <= i < tools.drop_last().len() implies #[trigger] tools.drop_last()[i].get_str("name"@) != Some(name) by {
            assert(tools.drop_last()[i] == tools[i]);
        }
        law_integration_keeps_other_tools(config, tools.drop_last(), name);
        assert(tools[tools.len() - 1].get_str("name"@) != Some(name));
    }
}

/// After MCP tools are added, a tool with a name is held under that name with
/// its own spec, unless a later tool carries the same name.
pub proof fn law_integration_holds_last_tool(config: Map<Seq<char>, ToolSpecView>, tools: Seq<Json>, i: int)
    requires
        0 <= i < tools.len(),
        mcp_tool_spec(tools[i]) is Some,
        forall|j: int| i < j < tools.len() ==> #[trigger] tools[j].get_str("name"@) != tools[i].get_str("name"@),
    ensures
        with_mcp_tools(config, tools).contains_key(mcp_tool_spec(tools[i]).unwrap().name),
        with_mcp_tools(config, tools)[mcp_tool_spec(tools[i]).unwrap().name] == mcp_tool_spec(tools[i]).unwrap(),
    decreases tools.len(),
{
    if i < tools.len() - 1 {
        let d = tools.drop_last();
        assert(d[i] == tools[i]);
        assert forall|j: int| i < j < d.len() implies #[trigger] d[j].get_str("name"@) != d[i].get_str("name"@) by {
            assert(d[j] == tools[j]);
            assert(tools[j].get_str("name"@) != tools[i].get_str("name"@));
        }
        law_integration_holds_last_tool(config, d, i);
        assert(tools[tools.len() - 1].get_str("name"@) != tools[i].get_str("name"@));
    }
}

/// The tool specs of all the tools, in order; `None` when one has no name.
pub open spec fn mcp_tool_specs(tools: Seq<Json>) -> Option<Seq<ToolSpecView>>
    decreases tools.len(),
{
    if tools.len() == 0 {
        Some(Seq::empty())
    } else {
        match (mcp_tool_specs(tools.drop_last()), mcp_tool_spec(tools.last())) {
            (Some(specs), Some(spec)) => Some(specs.push(spec)),
            _ => None,
        }
    }
}

/// The views of a list of tool specs.
pub open spec fn spec_views(specs: Seq<ToolSpec>) -> Seq<ToolSpecView> {
    specs.map_values(|s: ToolSpec| s@)
}

/// Turns the tools a search found into tool specs, in order; fails with
/// `Tool missing name` at the first tool without a name.
pub fn convert_mcp_tools(tools: &Vec<JsonValue>) -> (r: Result<Vec<ToolSpec>, String>)
    ensures
        r is Ok <==> mcp_tool_specs(views_of(tools@)) is Some,
        r matches Ok(specs) ==> mcp_tool_specs(views_of(tools@)) == Some(spec_views(specs@)),
        r matches Err(m) ==> m@ == "Tool missing name"@,
{
    let ghost all = views_of(tools@);
    let mut out: Vec<ToolSpec> = Vec::new();
    let mut i: usize = 0;
    while i < tools.len()
        invariant
            i <= tools@.len(),
            all == views_of(tools@),
            mcp_tool_specs(all.take(i as int)) == Some(spec_views(out@)),
        decreases tools.len() - i,
    {
        assert(all.take(i + 1).drop_last() =~= all.take(i as int));
        assert(all.take(i + 1).last() == tools@[i as int]@);
        match convert_mcp_tool_to_tool_spec(&tools[i]) {
            Ok(Some(spec)) => {
                let ghost before = out@;
                out.push(spec);
                assert(spec_views(out@) =~= spec_views(before).push(out@.last()@));
            },
            Ok(None) => {
                assert(false);
            },
            Err(m) => {
                proof { lemma_specs_none_extends(all, i as int + 1); }
                return Err(m);
            },
        }
        i = i + 1;
    }
    assert(all.take(tools@.len() as int) =~= all);
    Ok(out)
}

/// Once a prefix has a tool without a name, so does every longer prefix.
proof fn lemma_specs_none_extends(tools: Seq<Json>, n: int)
    requires
        0 <= n <= tools.len(),
        mcp_tool_specs(tools.take(n)) is None,
    ensures
        mcp_tool_specs(tools) is None,
    decreases tools.len() - n,
{
    if n < tools.len() {
        assert(tools.take(n + 1).drop_last() =~= tools.take(n));
        lemma_specs_none_extends(tools, n + 1);
    } else {
        assert(tools.take(n) =~= tools);
    }
}

/// Each spec under its own name.
pub open spec fn named_specs(specs: Seq<ToolSpecView>) -> Seq<(Seq<char>, ToolSpecView)> {
    specs.map_values(|s: ToolSpecView| (s.name, s))
}

/// The tool specs by name; a later spec replaces an earlier one of the same name.
pub fn specs_by_name(specs: Vec<ToolSpec>) -> (r: ToolConfig)
    ensures
        r.wf(),
        r@ == entries_map(named_specs(spec_views(specs@))),
{
    let ghost all = named_specs(spec_views(specs@));
    let mut config = ToolConfig::new();
    let mut rest = specs;
    let ghost orig = rest@;
    let n = rest.len();
    let mut taken: usize = 0;
    while rest.len() > 0
        invariant
            config.wf(),
            all == named_specs(spec_views(orig)),
            taken + rest@.len() == orig.len(),
            orig.len() == n,
            rest@ =~= orig.subrange(taken as int, orig.len() as int),
            config@ == entries_map(all.take(taken as int)),
        decreases rest.len(),
    {
        let spec = rest.remove(0);
        assert(spec == orig[taken as int]);
        assert(all.take(taken + 1) =~= all.take(taken as int).push((spec@.name, spec@)));
        proof { lemma_entries_map_push(all.take(taken as int), (spec@.name, spec@)); }
        let name = spec.name.clone();
        config.insert(name, spec);
        taken = taken + 1;
        assert(rest@ =~= orig.subrange(taken as int, orig.len() as int));
    }
    assert(all.take(orig.len() as int) =~= all);
    config
}

/// How many tools a search returns: `max_tools`, or 10 when none is given.
pub fn search_limit(max_tools: Option<usize>) -> (r: usize)
    ensures
        r == match max_tools {
            Some(n) => n,
            None => 10,
        },
{
    match max_tools {
        Some(n) => n,
        None => 10,
    }
}

} // verus!
