use vstd::prelude::*;

use crate::json::{Json, JsonValue, str_eq};
use crate::keyed::{entries_map, names_distinct, lemma_entries_map_dom, lemma_entries_map_at, lemma_entries_map_update, lemma_entries_map_push, lemma_entries_map_len};
use crate::mcp_processor::{McpServerInfo, list_contains, views_of};
use crate::text::owned;

verus! {

/// Statistics about MCP server loading.
#[derive(Debug, Clone)]
pub struct ServerStats {
    pub total_available: usize,
}

/// Each server under its name.
pub open spec fn server_entries(servers: Seq<McpServerInfo>) -> Seq<(Seq<char>, McpServerInfo)> {
    servers.map_values(|s: McpServerInfo| (s.name@, s))
}

/// The server names that a list of search results carries in `server_name`.
pub open spec fn result_server_names(results: Seq<Json>) -> Set<Seq<char>> {
    Set::new(|n: Seq<char>| exists|i: int| 0 <= i < results.len() && #[trigger] results[i].get_str("server_name"@) == Some(n))
}

/// What loading one server takes.
#[derive(Debug)]
pub enum LoadAction<'a> {
    /// Its client runs already and is used again.
    AlreadyLoaded,
    /// A client has to be started for this server.
    Start(&'a McpServerInfo),
    /// No configured server has that name.
    Unknown,
}

/// Starts MCP servers only when a query needs them. The clients themselves
/// are run by the caller, which reports each one that started.
#[derive(Debug)]
pub struct SelectiveMcpLoader {
    available_servers: Vec<McpServerInfo>,
    loaded_servers: Vec<String>,
}

impl SelectiveMcpLoader {
    /// The configured servers by name.
    pub closed spec fn available(self) -> Map<Seq<char>, McpServerInfo> {
        entries_map(server_entries(self.available_servers@))
    }

    /// The servers whose clients run.
    pub closed spec fn loaded(self) -> Set<Seq<char>> {
        self.loaded_servers.deep_view().to_set()
    }

    /// Each name is held once.
    pub closed spec fn wf(self) -> bool {
        &&& names_distinct(server_entries(self.available_servers@))
        &&& self.loaded_servers.deep_view().no_duplicates()
    }

    /// The loader of the servers that discovery found, none of them loaded.
    /// A later server replaces an earlier one of the same name.
    pub fn new(servers: Vec<McpServerInfo>) -> (r: SelectiveMcpLoader)
        ensures
            r.wf(),
            r.available() == entries_map(server_entries(servers@)),
            r.loaded() == Set::<Seq<char>>::empty(),
    {
        let ghost all = server_entries(servers@);
        let mut available: Vec<McpServerInfo> = Vec::new();
        let mut rest = servers;
        let ghost orig = rest@;
        let n = rest.len();
        let mut taken: usize = 0;
        assert(server_entries(available@) =~= Seq::empty());
        assert(all.take(0) =~= Seq::empty());
        while rest.len() > 0
            invariant
                all == server_entries(orig),
                taken + rest@.len() == orig.len(),
                orig.len() == n,
                rest@ =~= orig.subrange(taken as int, orig.len() as int),
                names_distinct(server_entries(available@)),
                entries_map(server_entries(available@)) == entries_map(all.take(taken as int)),
            decreases rest.len(),
        {
            let server = rest.remove(0);
            assert(server == orig[taken as int]);
            assert(all.take(taken + 1) =~= all.take(taken as int).push((server.name@, server)));
            proof { lemma_entries_map_push(all.take(taken as int), (server.name@, server)); }
            Self::put_server(&mut available, server);
            taken = taken + 1;
            assert(rest@ =~= orig.subrange(taken as int, orig.len() as int));
        }
        assert(all.take(n as int) =~= all);
        let r = SelectiveMcpLoader { available_servers: available, loaded_servers: Vec::new() };
        assert(r.loaded_servers.deep_view() =~= Seq::<Seq<char>>::empty());
        assert(r.loaded() =~= Set::<Seq<char>>::empty());
        r
    }

    /// Puts `server` under its name, replacing a server of that name.
    fn put_server(servers: &mut Vec<McpServerInfo>, server: McpServerInfo)
        requires
            names_distinct(server_entries(old(servers)@)),
        ensures
            names_distinct(server_entries(final(servers)@)),
            entries_map(server_entries(final(servers)@)) == entries_map(server_entries(old(servers)@)).insert(server.name@, server),
    {
        let ghost es = server_entries(servers@);
        let mut i: usize = 0;
        while i < servers.len()
            invariant
                servers@ == old(servers)@,
                es == server_entries(servers@),
                names_distinct(es),
                i <= servers@.len(),
                forall|j: int| 0 <= j < i ==> es[j].0 != server.name@,
            decreases servers.len() - i,
        {
            if str_eq(servers[i].name.as_str(), server.name.as_str()) {
                let ghost s = server;
                assert(es[i as int].0 == s.name@);
                servers.set(i, server);
                proof {
                    assert(server_entries(servers@) =~= es.update(i as int, (es[i as int].0, s)));
                    lemma_entries_map_update(es, i as int, s);
                }
                return;
            }
            i = i + 1;
        }
        let ghost s = server;
        servers.push(server);
        proof {
            assert(server_entries(servers@) =~= es.push((s.name@, s)));
            lemma_entries_map_push(es, (s.name@, s));
        }
    }

    /// How many servers are configured.
    pub fn get_server_stats(&self) -> (r: ServerStats)
        requires
            self.wf(),
        ensures
            r.total_available == self.available().len(),
    {
        proof { lemma_entries_map_len(server_entries(self.available_servers@)); }
        ServerStats { total_available: self.available_servers.len() }
    }

    /// What loading the server `name` takes: nothing when it runs already,
    /// starting it when it is configured, and nothing to do for an unknown name.
    pub fn load_action(&self, name: &str) -> (r: LoadAction)
        requires
            self.wf(),
        ensures
            self.loaded().contains(name@) ==> r is AlreadyLoaded,
            !self.loaded().contains(name@) && self.available().contains_key(name@) ==>
                (r matches LoadAction::Start(info) && *info == self.available()[name@]),
            !self.loaded().contains(name@) && !self.available().contains_key(name@) ==> r is Unknown,
    {
        if list_contains(&self.loaded_servers, name) {
            return LoadAction::AlreadyLoaded;
        }
        let ghost es = server_entries(self.available_servers@);
        let mut i: usize = 0;
        while i < self.available_servers.len()
            invariant
                es == server_entries(self.available_servers@),
                names_distinct(es),
                !self.loaded_servers.deep_view().contains(name@),
                i <= self.available_servers@.len(),
                forall|j: int| 0 <= j < i ==> es[j].0 != name@,
            decreases self.available_servers.len() - i,
        {
            if str_eq(self.available_servers[i].name.as_str(), name) {
                proof { lemma_entries_map_at(es, i as int); }
                return LoadAction::Start(&self.available_servers[i]);
            }
            i = i + 1;
        }
        proof { lemma_entries_map_dom(es, name@); }
        LoadAction::Unknown
    }

    /// Notes that the client of server `name` runs.
    pub fn record_loaded(&mut self, name: String)
        requires
            old(self).wf(),
        ensures
            final(self).wf(),
            final(self).loaded() == old(self).loaded().insert(name@),
            final(self).available() == old(self).available(),
    {
        crate::selective_tool_manager::insert_name(&mut self.loaded_servers, name);
    }

    /// Notes that the clients of the servers in `names` were shut down.
    pub fn unload_servers(&mut self, names: &Vec<String>)
        requires
            old(self).wf(),
        ensures
            final(self).wf(),
            final(self).loaded() == old(self).loaded().difference(names.deep_view().to_set()),
            final(self).available() == old(self).available(),
    {
        let kept = without_names(&self.loaded_servers, names);
        self.loaded_servers = kept;
    }

    /// The names of the servers whose clients run.
    pub fn loaded_server_names(&self) -> (r: Vec<String>)
        requires
            self.wf(),
        ensures
            r.deep_view().to_set() == self.loaded(),
            r.deep_view().no_duplicates(),
    {
        crate::mcp_processor::copy_strings(&self.loaded_servers)
    }

    /// The distinct server names that search results carry in `server_name`,
    /// in the order they first occur.
    pub fn servers_in_results(results: &Vec<JsonValue>) -> (r: Vec<String>)
        ensures
            r.deep_view().to_set() == result_server_names(views_of(results@)),
            r.deep_view().no_duplicates(),
    {
        let ghost all = views_of(results@);
        let mut out: Vec<String> = Vec::new();
        let mut i: usize = 0;
        assert(out.deep_view() =~= Seq::<Seq<char>>::empty());
        while i < results.len()
            invariant
                i <= results@.len(),
                all == views_of(results@),
                out.deep_view().no_duplicates(),
                forall|n: Seq<char>| out.deep_view().contains(n) <==>
                    exists|j: int| 0 <= j < i && #[trigger] all[j].get_str("server_name"@) == Some(n),
            decreases results.len() - i,
        {
            assert(all[i as int] == results@[i as int]@);
            let ghost prev = out.deep_view();
            let found = results[i].get_str("server_name");
            match found {
                Some(name) => {
                    if !list_contains(&out, name) {
                        out.push(owned(name));
                        assert(out.deep_view() =~= prev.push(name@));
                    }
                    proof {
                        broadcast use vstd::seq_lib::lemma_seq_contains_after_push;
                        assert(forall|n: Seq<char>| out.deep_view().contains(n) <==> prev.contains(n) || n == name@);
                    }
                },
                None => {},
            }
            assert forall|n: Seq<char>| out.deep_view().contains(n) <==>
                exists|j: int| 0 <= j < i + 1 && #[trigger] all[j].get_str("server_name"@) == Some(n) by {
                if exists|j: int| 0 <= j < i + 1 && #[trigger] all[j].get_str("server_name"@) == Some(n) {
                    let j = choose|j: int| 0 <= j < i + 1 && #[trigger] all[j].get_str("server_name"@) == Some(n);
                    if j < i {
                        assert(prev.contains(n));
                    }
                }
                if prev.contains(n) {
                    let j = choose|j: int| 0 <= j < i && #[trigger] all[j].get_str("server_name"@) == Some(n);
                    assert(0 <= j < i + 1);
                }
            }
            i = i + 1;
        }
        assert(out.deep_view().to_set() =~= result_server_names(all));
        out
    }
}

/// The names of `list` that are not in `names`, in order.
pub fn without_names(list: &Vec<String>, names: &Vec<String>) -> (r: Vec<String>)
    requires
        list.deep_view().no_duplicates(),
    ensures
        r.deep_view().no_duplicates(),
        r.deep_view().to_set() == list.deep_view().to_set().difference(names.deep_view().to_set()),
{
    let ghost all = list.deep_view();
    let mut out: Vec<String> = Vec::new();
    let mut i: usize = 0;
    assert(out.deep_view() =~= Seq::<Seq<char>>::empty());
    while i < list.len()
        invariant
            i <= list@.len(),
            all == list.deep_view(),
            all.no_duplicates(),
            out.deep_view().no_duplicates(),
            forall|n: Seq<char>| out.deep_view().contains(n) <==>
                (exists|j: int| 0 <= j < i && #[trigger] all[j] == n) && !names.deep_view().contains(n),
        decreases list.len() - i,
    {
        let ghost prev = out.deep_view();
        assert(all[i as int] == list@[i as int]@);
        if !list_contains(names, list[i].as_str()) {
            proof {
                if prev.contains(all[i as int]) {
                    let j = choose|j: int| 0 <= j < i && #[trigger] all[j] == all[i as int];
                    assert(false);
                }
            }
            let c = list[i].clone();
            out.push(c);
            assert(out.deep_view() =~= prev.push(all[i as int]));
        }
        proof {
            broadcast use vstd::seq_lib::lemma_seq_contains_after_push;
            assert forall|n: Seq<char>| out.deep_view().contains(n) <==>
                (exists|j: int| 0 <= j < i + 1 && #[trigger] all[j] == n) && !names.deep_view().contains(n) by {
                if exists|j: int| 0 <= j < i + 1 && #[trigger] all[j] == n {
                    let j = choose|j: int| 0 <= j < i + 1 && #[trigger] all[j] == n;
                    if j < i && !names.deep_view().contains(n) {
                        assert(prev.contains(n));
                    }
                }
                if prev.contains(n) {
                    let j = choose|j: int| 0 <= j < i && #[trigger] all[j] == n;
                    assert(0 <= j < i + 1);
                }
            }
        }
        i = i + 1;
    }
    proof {
        assert forall|n: Seq<char>| #[trigger] out.deep_view().to_set().contains(n) <==>
            all.to_set().difference(names.deep_view().to_set()).contains(n) by {
            if all.contains(n) {
                let j = choose|j: int| 0 <= j < all.len() && all[j] == n;
                assert(all[j] == n);
            }
        }
        assert(out.deep_view().to_set() =~= all.to_set().difference(names.deep_view().to_set()));
    }
    out
}

/// A server is started at most once: after `record_loaded(name)`, whose
/// `ensures` gives `after`, the server is loaded, so `load_action(name)`
/// answers `AlreadyLoaded` until it is unloaded.
pub proof fn law_loaded_server_not_started_again(before: SelectiveMcpLoader, after: SelectiveMcpLoader, name: Seq<char>)
    requires
        after.loaded() == before.loaded().insert(name),
    ensures
        after.loaded().contains(name),
{
}

} // verus!
