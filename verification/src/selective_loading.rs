use vstd::prelude::*;

use crate::json::str_eq;
use crate::text::{owned, push_str, u64_to_decimal, decimal};

verus! {

/// The chat command that manages selective MCP loading.
#[derive(Debug)]
pub struct SelectiveLoadingCommand;

/// The help text of the command.
pub open spec fn help_text() -> Seq<char> {
    "Selective MCP Loading Commands:\n        \n🔧 /selective-loading status    - Show current status\n🔧 /selective-loading enable    - Enable selective loading\n🔧 /selective-loading disable   - Disable selective loading  \n🔧 /selective-loading toggle    - Toggle selective loading\n\nWhat is Selective Loading?\n• Instead of loading ALL MCP servers at startup\n• Only loads servers that contain tools relevant to your queries\n• Reduces memory usage and startup time\n• Provides 50%+ token reduction in conversations\n• Uses RAG (semantic search) to find the right tools\n\nBenefits:\n✅ Faster startup (only essential servers loaded)\n✅ Lower memory usage (unused servers not loaded)\n✅ Better performance (fewer active connections)\n✅ Smarter tool selection (RAG-based relevance)\n✅ Same functionality (tools loaded when needed)"@
}

/// The answer once selective loading is turned on.
pub open spec fn enabled_text() -> Seq<char> {
    "✅ Selective MCP Loading enabled! MCP servers will now be loaded on-demand based on your queries."@
}

/// The answer once selective loading is turned off.
pub open spec fn disabled_text() -> Seq<char> {
    "✅ Selective MCP Loading disabled! All enabled MCP servers will be loaded at startup."@
}

/// What the command is asked to do.
#[derive(Debug, Clone, PartialEq, Eq)]
pub enum SelectiveLoadingAction {
    Enable,
    Disable,
    Status,
    Toggle,
    Help,
    /// A word the command does not know.
    Unknown(String),
}

/// The action the first argument asks for: no argument or `help` asks for help.
pub open spec fn action_for(first: Option<Seq<char>>) -> SelectiveLoadingActionView {
    match first {
        None => SelectiveLoadingActionView::Help,
        Some(a) => if a == "enable"@ {
            SelectiveLoadingActionView::Enable
        } else if a == "disable"@ {
            SelectiveLoadingActionView::Disable
        } else if a == "status"@ {
            SelectiveLoadingActionView::Status
        } else if a == "toggle"@ {
            SelectiveLoadingActionView::Toggle
        } else if a == "help"@ {
            SelectiveLoadingActionView::Help
        } else {
            SelectiveLoadingActionView::Unknown(a)
        },
    }
}

/// An action as plain values.
pub enum SelectiveLoadingActionView {
    Enable,
    Disable,
    Status,
    Toggle,
    Help,
    Unknown(Seq<char>),
}

impl SelectiveLoadingAction {
    pub open spec fn view_action(&self) -> SelectiveLoadingActionView {
        match self {
            SelectiveLoadingAction::Enable => SelectiveLoadingActionView::Enable,
            SelectiveLoadingAction::Disable => SelectiveLoadingActionView::Disable,
            SelectiveLoadingAction::Status => SelectiveLoadingActionView::Status,
            SelectiveLoadingAction::Toggle => SelectiveLoadingActionView::Toggle,
            SelectiveLoadingAction::Help => SelectiveLoadingActionView::Help,
            SelectiveLoadingAction::Unknown(w) => SelectiveLoadingActionView::Unknown(w@),
        }
    }
}

/// The status report: when selective loading is on, with the number of
/// servers available and loaded if the servers could be read.
pub open spec fn status_text(enabled: bool, counts: Option<(usize, usize)>) -> Seq<char> {
    if enabled {
        match counts {
            Some((available, loaded)) =>
                "🔧 Selective MCP Loading: ✅ ENABLED\n📊 "@ + decimal(available as nat) + " total servers available\n📊 "@
                    + decimal(loaded as nat) + " currently loaded\n💡 Servers are loaded on-demand based on your queries"@,
            None => "🔧 Selective MCP Loading: ✅ ENABLED (no MCP configuration found)"@,
        }
    } else {
        "🔧 Selective MCP Loading: ❌ DISABLED (all servers loaded at startup)"@
    }
}

impl SelectiveLoadingCommand {
    /// The help text of the command.
    pub fn help() -> (r: String)
        ensures
            r@ == help_text(),
    {
        owned("Selective MCP Loading Commands:\n        \n🔧 /selective-loading status    - Show current status\n🔧 /selective-loading enable    - Enable selective loading\n🔧 /selective-loading disable   - Disable selective loading  \n🔧 /selective-loading toggle    - Toggle selective loading\n\nWhat is Selective Loading?\n• Instead of loading ALL MCP servers at startup\n• Only loads servers that contain tools relevant to your queries\n• Reduces memory usage and startup time\n• Provides 50%+ token reduction in conversations\n• Uses RAG (semantic search) to find the right tools\n\nBenefits:\n✅ Faster startup (only essential servers loaded)\n✅ Lower memory usage (unused servers not loaded)\n✅ Better performance (fewer active connections)\n✅ Smarter tool selection (RAG-based relevance)\n✅ Same functionality (tools loaded when needed)")
    }

    /// The answer once selective loading is turned on.
    pub fn enabled_message() -> (r: String)
        ensures
            r@ == enabled_text(),
    {
        owned("✅ Selective MCP Loading enabled! MCP servers will now be loaded on-demand based on your queries.")
    }

    /// The answer once selective loading is turned off.
    pub fn disabled_message() -> (r: String)
        ensures
            r@ == disabled_text(),
    {
        owned("✅ Selective MCP Loading disabled! All enabled MCP servers will be loaded at startup.")
    }

    /// The setting a toggle leaves: the opposite of the current one.
    pub fn toggled(currently_enabled: bool) -> (r: bool)
        ensures
            r == !currently_enabled,
    {
        !currently_enabled
    }

    /// The status report (see `status_text`).
    pub fn status_message(enabled: bool, counts: Option<(usize, usize)>) -> (r: String)
        ensures
            r@ == status_text(enabled, counts),
    {
        if enabled {
            match counts {
                Some((available, loaded)) => {
                    let mut r = owned("🔧 Selective MCP Loading: ✅ ENABLED\n📊 ");
                    push_str(&mut r, u64_to_decimal(available as u64).as_str());
                    push_str(&mut r, " total servers available\n📊 ");
                    push_str(&mut r, u64_to_decimal(loaded as u64).as_str());
                    push_str(&mut r, " currently loaded\n💡 Servers are loaded on-demand based on your queries");
                    r
                },
                None => owned("🔧 Selective MCP Loading: ✅ ENABLED (no MCP configuration found)"),
            }
        } else {
            owned("🔧 Selective MCP Loading: ❌ DISABLED (all servers loaded at startup)")
        }
    }

    /// The answer to an unknown word: the word, then the help text.
    pub fn unknown_command_message(word: &str) -> (r: String)
        ensures
            r@ == "❌ Unknown command: "@ + word@ + "\n\n"@ + help_text(),
    {
        let mut r = owned("❌ Unknown command: ");
        push_str(&mut r, word);
        push_str(&mut r, "\n\n");
        push_str(&mut r, SelectiveLoadingCommand::help().as_str());
        r
    }

    /// The action the arguments of the command ask for.
    pub fn parse_args(args: &[&str]) -> (r: SelectiveLoadingAction)
        ensures
            r.view_action() == action_for(if args@.len() == 0 { None } else { Some(args@[0]@) }),
    {
        if args.len() == 0 {
            return SelectiveLoadingAction::Help;
        }
        let a = args[0];
        if str_eq(a, "enable") {
            SelectiveLoadingAction::Enable
        } else if str_eq(a, "disable") {
            SelectiveLoadingAction::Disable
        } else if str_eq(a, "status") {
            SelectiveLoadingAction::Status
        } else if str_eq(a, "toggle") {
            SelectiveLoadingAction::Toggle
        } else if str_eq(a, "help") {
            SelectiveLoadingAction::Help
        } else {
            SelectiveLoadingAction::Unknown(owned(a))
        }
    }
}



/// The `/selective-loading` subcommands of the chat.
#[derive(Debug, Clone, Copy, PartialEq, Eq, Structural)]
pub enum SelectiveLoadingSubcommand {
    /// Show selective loading status
    Status,
    /// Enable selective MCP loading
    Enable,
    /// Disable selective MCP loading
    Disable,
    /// Toggle selective MCP loading
    Toggle,
}

/// The arguments of `/selective-loading`.
#[derive(Debug, Clone, Copy, PartialEq, Eq, Structural)]
pub struct SelectiveLoadingArgs;

/// What running a subcommand does: the setting it writes, if any, and what
/// it prints.
pub struct SubcommandOutcome {
    pub new_setting: Option<bool>,
    pub message: String,
}

/// The answer once a subcommand turned selective loading on.
pub open spec fn turned_on_text() -> Seq<char> {
    "✅ Selective MCP Loading enabled! MCP servers will now be loaded on-demand based on your queries.\n💡 Restart your chat session for changes to take effect."@
}

/// The answer once a subcommand turned selective loading off.
pub open spec fn turned_off_text() -> Seq<char> {
    "✅ Selective MCP Loading disabled! All enabled MCP servers will be loaded at startup.\n💡 Restart your chat session for changes to take effect."@
}

impl SelectiveLoadingSubcommand {
    /// The setting a subcommand leaves, given the current one.
    pub open spec fn setting_after(self, currently_enabled: bool) -> bool {
        match self {
            SelectiveLoadingSubcommand::Status => currently_enabled,
            SelectiveLoadingSubcommand::Enable => true,
            SelectiveLoadingSubcommand::Disable => false,
            SelectiveLoadingSubcommand::Toggle => !currently_enabled,
        }
    }

    /// What the subcommand prints, given the current setting.
    pub open spec fn message_for(self, currently_enabled: bool) -> Seq<char> {
        match self {
            SelectiveLoadingSubcommand::Status => if currently_enabled {
                "🔧 Selective MCP Loading: ✅ ENABLED\n💡 Servers are loaded on-demand based on your queries"@
            } else {
                "🔧 Selective MCP Loading: ❌ DISABLED (all servers loaded at startup)"@
            },
            _ => if self.setting_after(currently_enabled) { turned_on_text() } else { turned_off_text() },
        }
    }

    /// Decides what the subcommand does, given the current setting: the
    /// setting to write (none for `status`) and the message to print.
    pub fn plan(self, currently_enabled: bool) -> (r: SubcommandOutcome)
        ensures
            r.message@ == self.message_for(currently_enabled),
            self == SelectiveLoadingSubcommand::Status ==> r.new_setting is None,
            self != SelectiveLoadingSubcommand::Status ==> r.new_setting == Some(self.setting_after(currently_enabled)),
    {
        match self {
            SelectiveLoadingSubcommand::Status => {
                let message = if currently_enabled {
                    owned("🔧 Selective MCP Loading: ✅ ENABLED\n💡 Servers are loaded on-demand based on your queries")
                } else {
                    owned("🔧 Selective MCP Loading: ❌ DISABLED (all servers loaded at startup)")
                };
                SubcommandOutcome { new_setting: None, message }
            },
            _ => {
                let target = match self {
                    SelectiveLoadingSubcommand::Enable => true,
                    SelectiveLoadingSubcommand::Disable => false,
                    _ => !currently_enabled,
                };
                let message = if target {
                    owned("✅ Selective MCP Loading enabled! MCP servers will now be loaded on-demand based on your queries.\n💡 Restart your chat session for changes to take effect.")
                } else {
                    owned("✅ Selective MCP Loading disabled! All enabled MCP servers will be loaded at startup.\n💡 Restart your chat session for changes to take effect.")
                };
                SubcommandOutcome { new_setting: Some(target), message }
            },
        }
    }
}

/// `toggle` twice leaves the setting as it was; `enable` and `disable` do not
/// depend on it and are idempotent; `status` leaves it alone.
pub proof fn law_subcommand_settings(enabled: bool)
    ensures
        SelectiveLoadingSubcommand::Toggle.setting_after(SelectiveLoadingSubcommand::Toggle.setting_after(enabled)) == enabled,
        SelectiveLoadingSubcommand::Enable.setting_after(SelectiveLoadingSubcommand::Enable.setting_after(enabled)) == true,
        SelectiveLoadingSubcommand::Disable.setting_after(SelectiveLoadingSubcommand::Disable.setting_after(enabled)) == false,
        SelectiveLoadingSubcommand::Status.setting_after(enabled) == enabled,
{
}

} // verus!
