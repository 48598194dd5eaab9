pub mod clock;
pub mod json;
pub mod keyed;
pub mod text;
pub mod mcp_error;
pub mod mcp_retry;
pub mod types;
pub mod mcp_processor;
pub mod knowledge_store;
pub mod selective_loading;
pub mod mcp_tool_integration;
pub mod selective_mcp_loader;
pub mod selective_tool_manager;
pub mod selective_loading_integration;
pub mod test_utils;
