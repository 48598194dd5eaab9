use std::path::PathBuf;

use mcp_rag::json::JsonValue;
use mcp_rag::knowledge_store::McpIndexingLogLevel;
use mcp_rag::mcp_processor::{McpServerEntry, McpServerInfo};
use mcp_rag::selective_loading::{SelectiveLoadingAction, SelectiveLoadingCommand, SelectiveLoadingSubcommand};
use mcp_rag::selective_loading_integration::{SelectiveLoadingUtils, ServersConfig, SelectiveToolManagerBuilder as IntegrationBuilder};
use mcp_rag::selective_mcp_loader::{LoadAction, SelectiveMcpLoader};
use mcp_rag::selective_tool_manager::{common_preload_servers, SelectiveToolManager, SelectiveToolManagerBuilder};

fn info(name: &str, command: &str) -> McpServerInfo {
    McpServerInfo {
        name: name.to_string(),
        command: command.to_string(),
        args: vec![],
        env: None,
        timeout: 1000,
        disabled: false,
        source_scope: "workspace".to_string(),
        source_path: PathBuf::from("/w/mcp.json"),
    }
}

fn result_with_server(name: &str) -> JsonValue {
    JsonValue::Object(vec![("server_name".to_string(), JsonValue::String(name.to_string()))])
}

#[test]
fn test_mcp_indexing_log_level_from_string() {
    assert_eq!(McpIndexingLogLevel::from_str("silent"), McpIndexingLogLevel::Silent);
    assert_eq!(McpIndexingLogLevel::from_str("error"), McpIndexingLogLevel::Error);
    assert_eq!(McpIndexingLogLevel::from_str("warn"), McpIndexingLogLevel::Warn);
    assert_eq!(McpIndexingLogLevel::from_str("info"), McpIndexingLogLevel::Info);
    assert_eq!(McpIndexingLogLevel::from_str("debug"), McpIndexingLogLevel::Debug);

    assert_eq!(McpIndexingLogLevel::from_str("INFO"), McpIndexingLogLevel::Info);
    assert_eq!(McpIndexingLogLevel::from_str("Error"), McpIndexingLogLevel::Error);

    assert_eq!(McpIndexingLogLevel::from_str("unknown"), McpIndexingLogLevel::Info);
}

#[test]
fn help_mentions_selective_loading() {
    let help = SelectiveLoadingCommand::help();
    assert!(help.contains("Selective MCP Loading"));
    assert!(help.starts_with("Selective MCP Loading Commands:"));
}

#[test]
fn arguments_pick_the_command() {
    assert_eq!(SelectiveLoadingCommand::parse_args(&[]), SelectiveLoadingAction::Help);
    assert_eq!(SelectiveLoadingCommand::parse_args(&["status"]), SelectiveLoadingAction::Status);
    assert_eq!(SelectiveLoadingCommand::parse_args(&["enable", "x"]), SelectiveLoadingAction::Enable);
    assert_eq!(SelectiveLoadingCommand::parse_args(&["toggle"]), SelectiveLoadingAction::Toggle);
    assert_eq!(SelectiveLoadingCommand::parse_args(&["help"]), SelectiveLoadingAction::Help);
    assert_eq!(
        SelectiveLoadingCommand::parse_args(&["unknown"]),
        SelectiveLoadingAction::Unknown("unknown".to_string())
    );
    let answer = SelectiveLoadingCommand::unknown_command_message("unknown");
    assert!(answer.contains("Unknown command"));
    assert!(answer.starts_with("❌ Unknown command: unknown\n\nSelective MCP Loading Commands:"));
}

#[test]
fn status_reports_counts_when_enabled() {
    assert_eq!(
        SelectiveLoadingCommand::status_message(true, Some((12, 3))),
        "🔧 Selective MCP Loading: ✅ ENABLED\n📊 12 total servers available\n📊 3 currently loaded\n💡 Servers are loaded on-demand based on your queries"
    );
    assert_eq!(
        SelectiveLoadingCommand::status_message(true, None),
        "🔧 Selective MCP Loading: ✅ ENABLED (no MCP configuration found)"
    );
    assert_eq!(
        SelectiveLoadingCommand::status_message(false, Some((1, 1))),
        "🔧 Selective MCP Loading: ❌ DISABLED (all servers loaded at startup)"
    );
    assert!(SelectiveLoadingCommand::toggled(false));
    assert!(!SelectiveLoadingCommand::toggled(true));
    assert!(SelectiveLoadingCommand::enabled_message().starts_with("✅ Selective MCP Loading enabled!"));
    assert!(SelectiveLoadingCommand::disabled_message().starts_with("✅ Selective MCP Loading disabled!"));
}

#[test]
fn subcommands_plan_the_setting_and_message() {
    let out = SelectiveLoadingSubcommand::Toggle.plan(true);
    assert_eq!(out.new_setting, Some(false));
    assert!(out.message.starts_with("✅ Selective MCP Loading disabled!"));
    let out = SelectiveLoadingSubcommand::Enable.plan(true);
    assert_eq!(out.new_setting, Some(true));
    let out = SelectiveLoadingSubcommand::Status.plan(false);
    assert_eq!(out.new_setting, None);
    assert_eq!(out.message, "🔧 Selective MCP Loading: ❌ DISABLED (all servers loaded at startup)");
    assert_eq!(
        SelectiveLoadingUtils::status_message_for(true),
        "🔧 Selective MCP Loading: Enabled (servers loaded on-demand)"
    );
}

#[test]
fn loader_keeps_the_last_server_of_a_name() {
    let loader = SelectiveMcpLoader::new(vec![info("git", "old"), info("fetch", "f"), info("git", "new")]);
    assert_eq!(loader.get_server_stats().total_available, 2);
    match loader.load_action("git") {
        LoadAction::Start(s) => assert_eq!(s.command, "new"),
        _ => panic!("git should be started"),
    }
    assert!(matches!(loader.load_action("nope"), LoadAction::Unknown));
}

#[test]
fn a_loaded_server_is_not_started_again() {
    let mut loader = SelectiveMcpLoader::new(vec![info("git", "g")]);
    loader.record_loaded("git".to_string());
    assert!(matches!(loader.load_action("git"), LoadAction::AlreadyLoaded));
    assert_eq!(loader.loaded_server_names(), vec!["git".to_string()]);
    loader.unload_servers(&vec!["git".to_string()]);
    assert!(matches!(loader.load_action("git"), LoadAction::Start(_)));
}

#[test]
fn servers_named_in_search_results() {
    let results = vec![
        result_with_server("git"),
        JsonValue::Object(vec![("tool_name".to_string(), JsonValue::String("x".to_string()))]),
        result_with_server("fetch"),
        result_with_server("git"),
    ];
    assert_eq!(SelectiveMcpLoader::servers_in_results(&results), vec!["git".to_string(), "fetch".to_string()]);
}

#[test]
fn builder_needs_a_base_manager() {
    let builder: SelectiveToolManagerBuilder<u32> = SelectiveToolManagerBuilder::new();
    assert_eq!(builder.build().err(), Some("Base manager not provided".to_string()));
    let base = SelectiveToolManagerBuilder::new().with_base_manager(7u32).build().unwrap();
    let loader = SelectiveMcpLoader::new(vec![info("git", "g")]);
    let manager = SelectiveToolManager::new(base, loader);
    assert_eq!(*manager.base_manager(), 7);
    assert_eq!(manager.get_server_stats().total_available, 1);
    assert!(manager.loaded_server_names().is_empty());
}

#[test]
fn cleanup_keeps_only_the_kept_servers() {
    let loader = SelectiveMcpLoader::new(vec![info("git", "g"), info("fetch", "f"), info("db", "d")]);
    let mut manager = SelectiveToolManager::new((), loader);
    manager.record_loaded("git".to_string());
    manager.record_loaded("fetch".to_string());
    manager.record_loaded("db".to_string());
    manager.record_loaded("git".to_string());
    assert_eq!(manager.loaded_server_names().len(), 3);
    let unloaded = manager.cleanup_unused_servers(&vec!["fetch".to_string(), "other".to_string()]);
    assert_eq!(unloaded, vec!["git".to_string(), "db".to_string()]);
    assert_eq!(manager.loaded_server_names(), vec!["fetch".to_string()]);
    assert!(matches!(manager.load_action("git"), LoadAction::Start(_)));
    assert!(matches!(manager.load_action("fetch"), LoadAction::AlreadyLoaded));
    assert!(manager.cleanup_unused_servers(&vec!["fetch".to_string()]).is_empty());
}

#[test]
fn git_and_fetch_are_preloaded() {
    assert_eq!(common_preload_servers(), vec!["git".to_string(), "fetch".to_string()]);
}

#[test]
fn selective_builds_start_without_servers() {
    let entry = McpServerEntry { command: "c".to_string(), args: vec![], env: None, timeout: 1, disabled: false };
    let plan = IntegrationBuilder::new()
        .with_selective_loading(Some(true))
        .mcp_server_config(ServersConfig { mcp_servers: vec![("git".to_string(), entry)] })
        .conversation_id("conv-1")
        .build(5, true);
    assert!(plan.selective_loading);
    assert_eq!(plan.mcp_config.unwrap().mcp_servers.len(), 0);
    assert_eq!(plan.conversation_id, Some("conv-1".to_string()));
    assert_eq!(plan.notice, Some("🔧 Selective MCP Loading: 5 servers available, loading on-demand".to_string()));

    let plan = IntegrationBuilder::new().with_selective_loading(Some(true)).build(5, false);
    assert_eq!(plan.notice, None);
}

#[test]
fn plain_builds_keep_the_configured_servers() {
    let entry = McpServerEntry { command: "c".to_string(), args: vec![], env: None, timeout: 1, disabled: false };
    let plan = IntegrationBuilder::new()
        .with_selective_loading(None)
        .mcp_server_config(ServersConfig { mcp_servers: vec![("git".to_string(), entry)] })
        .build(5, true);
    assert!(!plan.selective_loading);
    assert_eq!(plan.mcp_config.unwrap().mcp_servers[0].0, "git");
    assert_eq!(plan.notice, None);
    assert_eq!(plan.conversation_id, None);
    let plan = IntegrationBuilder::default().with_selective_loading(Some(false)).build(0, true);
    assert!(!plan.selective_loading);
    assert!(plan.mcp_config.is_none());
}
