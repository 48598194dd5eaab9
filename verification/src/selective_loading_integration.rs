use vstd::prelude::*;

use crate::mcp_processor::McpServerEntry;
use crate::text::{owned, push_str, u64_to_decimal, decimal};

verus! {

/// The MCP servers that a tool manager is configured with, by name.
#[derive(Debug)]
pub struct ServersConfig {
    pub mcp_servers: Vec<(String, McpServerEntry)>,
}

/// What building a tool manager comes to: the servers to start with, the
/// conversation, and a notice to show the user.
#[derive(Debug)]
pub struct ToolManagerPlan {
    /// Whether MCP servers are left to be loaded on demand.
    pub selective_loading: bool,
    pub mcp_config: Option<ServersConfig>,
    pub conversation_id: Option<String>,
    pub notice: Option<String>,
}

/// The notice shown when servers are loaded on demand.
pub open spec fn selective_notice(total_available: nat) -> Seq<char> {
    "🔧 Selective MCP Loading: "@ + decimal(total_available) + " servers available, loading on-demand"@
}

/// Builds a tool manager that may leave its MCP servers to be loaded on demand.
#[derive(Debug)]
pub struct SelectiveToolManagerBuilder {
    mcp_config: Option<ServersConfig>,
    conversation: Option<String>,
    selective_loading_enabled: bool,
}

impl SelectiveToolManagerBuilder {
    pub closed spec fn config(self) -> Option<ServersConfig> {
        self.mcp_config
    }

    pub closed spec fn conversation(self) -> Option<String> {
        self.conversation
    }

    pub closed spec fn enabled(self) -> bool {
        self.selective_loading_enabled
    }

    /// A builder with selective loading off.
    pub fn new() -> (r: SelectiveToolManagerBuilder)
        ensures
            r.config() is None,
            r.conversation() is None,
            !r.enabled(),
    {
        SelectiveToolManagerBuilder { mcp_config: None, conversation: None, selective_loading_enabled: false }
    }

    /// Turns selective loading on as the setting says; an unset setting leaves it off.
    pub fn with_selective_loading(self, setting: Option<bool>) -> (r: SelectiveToolManagerBuilder)
        ensures
            r.enabled() == (setting == Some(true)),
            r.config() == self.config(),
            r.conversation() == self.conversation(),
    {
        let enabled = match setting {
            Some(b) => b,
            None => false,
        };
        SelectiveToolManagerBuilder { selective_loading_enabled: enabled, ..self }
    }

    /// Sets the MCP servers to configure.
    pub fn mcp_server_config(self, config: ServersConfig) -> (r: SelectiveToolManagerBuilder)
        ensures
            r.config() == Some(config),
            r.conversation() == self.conversation(),
            r.enabled() == self.enabled(),
    {
        SelectiveToolManagerBuilder { mcp_config: Some(config), ..self }
    }

    /// Sets the conversation.
    pub fn conversation_id(self, conversation_id: &str) -> (r: SelectiveToolManagerBuilder)
        ensures
            r.conversation() matches Some(c) && c@ == conversation_id@,
            r.config() == self.config(),
            r.enabled() == self.enabled(),
    {
        SelectiveToolManagerBuilder { conversation: Some(owned(conversation_id)), ..self }
    }

    /// What to build. With selective loading the manager starts with no MCP
    /// server, and an interactive session is told how many servers wait to be
    /// loaded; without it the configured servers are kept.
    pub fn build(self, total_available: usize, interactive: bool) -> (r: ToolManagerPlan)
        ensures
            r.selective_loading == self.enabled(),
            r.conversation_id == self.conversation(),
            self.enabled() ==> (r.mcp_config matches Some(c) && c.mcp_servers@.len() == 0),
            !self.enabled() ==> r.mcp_config == self.config(),
            self.enabled() && interactive ==> (r.notice matches Some(n) && n@ == selective_notice(total_available as nat)),
            !(self.enabled() && interactive) ==> r.notice is None,
    {
        if self.selective_loading_enabled {
            let notice = if interactive {
                let mut n = owned("🔧 Selective MCP Loading: ");
                let count = u64_to_decimal(total_available as u64);
                push_str(&mut n, count.as_str());
                push_str(&mut n, " servers available, loading on-demand");
                Some(n)
            } else {
                None
            };
            ToolManagerPlan {
                selective_loading: true,
                mcp_config: Some(ServersConfig { mcp_servers: Vec::new() }),
                conversation_id: self.conversation,
                notice,
            }
        } else {
            ToolManagerPlan {
                selective_loading: false,
                mcp_config: self.mcp_config,
                conversation_id: self.conversation,
                notice: None,
            }
        }
    }
}

impl Default for SelectiveToolManagerBuilder {
    fn default() -> (r: SelectiveToolManagerBuilder)
        ensures
            r.config() is None,
            r.conversation() is None,
            !r.enabled(),
    {
        SelectiveToolManagerBuilder::new()
    }
}

/// Settings that the selective loading utilities read and write.
#[derive(Debug)]
pub struct SelectiveLoadingUtils;

impl SelectiveLoadingUtils {
    /// The one-line status, given whether selective loading is on.
    pub fn status_message_for(enabled: bool) -> (r: String)
        ensures
            enabled ==> r@ == "🔧 Selective MCP Loading: Enabled (servers loaded on-demand)"@,
            !enabled ==> r@ == "🔧 Selective MCP Loading: Disabled (all servers loaded at startup)"@,
    {
        if enabled {
            owned("🔧 Selective MCP Loading: Enabled (servers loaded on-demand)")
        } else {
            owned("🔧 Selective MCP Loading: Disabled (all servers loaded at startup)")
        }
    }
}

} // verus!
