use vstd::prelude::*;

use crate::mcp_processor::{list_contains, copy_strings};
use crate::selective_mcp_loader::{SelectiveMcpLoader, ServerStats, LoadAction, without_names};
use crate::text::owned;

verus! {

/// Adds `name` to a list of distinct names, unless it is there.
pub fn insert_name(list: &mut Vec<String>, name: String)
    requires
        old(list).deep_view().no_duplicates(),
    ensures
        final(list).deep_view().no_duplicates(),
        final(list).deep_view().to_set() == old(list).deep_view().to_set().insert(name@),
{
    if !list_contains(list, name.as_str()) {
        let ghost before = list.deep_view();
        let ghost nv = name@;
        list.push(name);
        proof {
            broadcast use vstd::seq_lib::lemma_seq_contains_after_push;
            assert(list.deep_view() =~= before.push(nv));
            assert(list.deep_view().to_set() =~= before.to_set().insert(nv));
        }
    } else {
        assert(list.deep_view().to_set().insert(name@) =~= list.deep_view().to_set());
    }
}

/// The servers that are worth starting before any query: `git` and `fetch`.
pub fn common_preload_servers() -> (r: Vec<String>)
    ensures
        r.deep_view() == seq!["git"@, "fetch"@],
{
    let r = vec![owned("git"), owned("fetch")];
    assert(r.deep_view() =~= seq!["git"@, "fetch"@]);
    r
}

/// A tool manager that starts MCP servers only when they are needed.
/// `M` is the manager of the chat's own tools; the MCP clients themselves
/// run with the caller, which reports each server it starts or stops.
pub struct SelectiveToolManager<M> {
    base_manager: M,
    mcp_loader: SelectiveMcpLoader,
    loaded_mcp_servers: Vec<String>,
}

impl<M> SelectiveToolManager<M> {
    pub closed spec fn base(self) -> M {
        self.base_manager
    }

    pub closed spec fn loader(self) -> SelectiveMcpLoader {
        self.mcp_loader
    }

    /// The MCP servers whose tools the manager offers.
    pub closed spec fn loaded(self) -> Set<Seq<char>> {
        self.loaded_mcp_servers.deep_view().to_set()
    }

    pub closed spec fn wf(self) -> bool {
        &&& self.mcp_loader.wf()
        &&& self.loaded_mcp_servers.deep_view().no_duplicates()
    }

    /// A manager over `base_manager` with no MCP server loaded.
    pub fn new(base_manager: M, mcp_loader: SelectiveMcpLoader) -> (r: SelectiveToolManager<M>)
        requires
            mcp_loader.wf(),
        ensures
            r.wf(),
            r.base() == base_manager,
            r.loader() == mcp_loader,
            r.loaded() == Set::<Seq<char>>::empty(),
    {
        let r = SelectiveToolManager { base_manager, mcp_loader, loaded_mcp_servers: Vec::new() };
        assert(r.loaded_mcp_servers.deep_view() =~= Seq::<Seq<char>>::empty());
        assert(r.loaded() =~= Set::<Seq<char>>::empty());
        r
    }

    /// The manager of the chat's own tools.
    pub fn base_manager(&self) -> (r: &M)
        ensures
            *r == self.base(),
    {
        &self.base_manager
    }

    /// The loader of the MCP servers.
    pub fn mcp_loader(&self) -> (r: &SelectiveMcpLoader)
        ensures
            *r == self.loader(),
    {
        &self.mcp_loader
    }

    /// How many MCP servers are configured.
    pub fn get_server_stats(&self) -> (r: ServerStats)
        requires
            self.wf(),
        ensures
            r.total_available == self.loader().available().len(),
    {
        self.mcp_loader.get_server_stats()
    }

    /// What loading the server `name` takes (see `SelectiveMcpLoader::load_action`).
    pub fn load_action(&self, name: &str) -> (r: LoadAction)
        requires
            self.wf(),
        ensures
            self.loader().loaded().contains(name@) ==> r is AlreadyLoaded,
            !self.loader().loaded().contains(name@) && self.loader().available().contains_key(name@) ==>
                (r matches LoadAction::Start(info) && *info == self.loader().available()[name@]),
            !self.loader().loaded().contains(name@) && !self.loader().available().contains_key(name@) ==> r is Unknown,
    {
        self.mcp_loader.load_action(name)
    }

    /// Notes that the client of server `name` runs, and offers its tools.
    pub fn record_loaded(&mut self, name: String)
        requires
            old(self).wf(),
        ensures
            final(self).wf(),
            final(self).loaded() == old(self).loaded().insert(name@),
            final(self).loader().loaded() == old(self).loader().loaded().insert(name@),
            final(self).loader().available() == old(self).loader().available(),
            final(self).base() == old(self).base(),
    {
        let copy = owned(name.as_str());
        self.mcp_loader.record_loaded(copy);
        insert_name(&mut self.loaded_mcp_servers, name);
    }

    /// The loaded servers that are not to be kept, in the order they were loaded.
    pub fn servers_to_unload(&self, keep_servers: &Vec<String>) -> (r: Vec<String>)
        requires
            self.wf(),
        ensures
            r.deep_view().no_duplicates(),
            r.deep_view().to_set() == self.loaded().difference(keep_servers.deep_view().to_set()),
    {
        without_names(&self.loaded_mcp_servers, keep_servers)
    }

    /// Unloads the servers that are not to be kept, and returns them: their
    /// clients are to be shut down.
    pub fn cleanup_unused_servers(&mut self, keep_servers: &Vec<String>) -> (r: Vec<String>)
        requires
            old(self).wf(),
        ensures
            final(self).wf(),
            r.deep_view().to_set() == old(self).loaded().difference(keep_servers.deep_view().to_set()),
            final(self).loaded() == old(self).loaded().intersect(keep_servers.deep_view().to_set()),
            final(self).loader().loaded() == old(self).loader().loaded().difference(r.deep_view().to_set()),
            final(self).loader().available() == old(self).loader().available(),
            final(self).base() == old(self).base(),
    {
        let servers_to_unload = self.servers_to_unload(keep_servers);
        if servers_to_unload.len() > 0 {
            self.mcp_loader.unload_servers(&servers_to_unload);
            let kept = without_names(&self.loaded_mcp_servers, &servers_to_unload);
            self.loaded_mcp_servers = kept;
        } else {
            assert(servers_to_unload.deep_view().to_set() =~= Set::<Seq<char>>::empty());
            assert(self.mcp_loader.loaded().difference(Set::<Seq<char>>::empty()) =~= self.mcp_loader.loaded());
        }
        assert forall|x: Seq<char>| #[trigger] self.loaded().contains(x) <==>
            old(self).loaded().intersect(keep_servers.deep_view().to_set()).contains(x) by {
            assert(servers_to_unload.deep_view().to_set().contains(x) ==
                old(self).loaded().difference(keep_servers.deep_view().to_set()).contains(x));
        }
        assert(self.loaded() =~= old(self).loaded().intersect(keep_servers.deep_view().to_set()));
        servers_to_unload
    }

    /// The names of the MCP servers whose tools the manager offers.
    pub fn loaded_server_names(&self) -> (r: Vec<String>)
        requires
            self.wf(),
        ensures
            r.deep_view().no_duplicates(),
            r.deep_view().to_set() == self.loaded(),
    {
        copy_strings(&self.loaded_mcp_servers)
    }
}

/// After a cleanup, whose `ensures` gives `after`, every loaded server is one
/// to keep, and a second cleanup with the same list unloads nothing.
pub proof fn law_cleanup_leaves_only_kept<M>(before: SelectiveToolManager<M>, after: SelectiveToolManager<M>, keep: Set<Seq<char>>)
    requires
        after.loaded() == before.loaded().intersect(keep),
    ensures
        forall|name: Seq<char>| after.loaded().contains(name) ==> keep.contains(name),
        after.loaded().difference(keep) == Set::<Seq<char>>::empty(),
{
    assert(after.loaded().difference(keep) =~= Set::<Seq<char>>::empty());
}

/// Builds a `SelectiveToolManager` once its base manager is given.
pub struct SelectiveToolManagerBuilder<M> {
    base_manager: Option<M>,
}

impl<M> SelectiveToolManagerBuilder<M> {
    pub closed spec fn base(self) -> Option<M> {
        self.base_manager
    }

    pub fn new() -> (r: SelectiveToolManagerBuilder<M>)
        ensures
            r.base() is None,
    {
        SelectiveToolManagerBuilder { base_manager: None }
    }

    pub fn with_base_manager(self, manager: M) -> (r: SelectiveToolManagerBuilder<M>)
        ensures
            r.base() == Some(manager),
    {
        SelectiveToolManagerBuilder { base_manager: Some(manager) }
    }

    /// The base manager, checked for before any server is discovered:
    /// `SelectiveToolManager::new` then takes it with the loader of the
    /// discovered servers. Fails with `Base manager not provided` without one.
    pub fn build(self) -> (r: Result<M, String>)
        ensures
            r is Err <==> self.base() is None,
            r matches Err(m) ==> m@ == "Base manager not provided"@,
            r matches Ok(base) ==> self.base() == Some(base),
    {
        match self.base_manager {
            Some(base) => Ok(base),
            None => Err(owned("Base manager not provided")),
        }
    }
}

impl<M> Default for SelectiveToolManagerBuilder<M> {
    fn default() -> (r: SelectiveToolManagerBuilder<M>)
        ensures
            r.base() is None,
    {
        SelectiveToolManagerBuilder::new()
    }
}

} // verus!
