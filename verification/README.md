# mcp_rag

A library for finding and loading the tools of MCP servers by relevance, with
its behaviour stated in contracts and proved by Verus.

`src/` is the verified library:

- `json`, `keyed`, `text`: JSON values and their mathematical view, maps built
  from named entries, and the string operations the rest uses.
- `mcp_error`, `mcp_retry`: the errors of MCP operations, the circuit breaker,
  the health monitor and the decisions of a retry loop.
- `types`, `mcp_processor`: tool contexts and parameters, server discovery from
  configuration entries, and the turning of tool schemas into searchable
  contexts.
- `mcp_tool_integration`, `selective_mcp_loader`, `selective_tool_manager`,
  `selective_loading_integration`, `selective_loading`: adding MCP tools to the
  chat's tool configuration and loading servers only when a query needs them.
- `knowledge_store`: log levels and the answers of the knowledge store.
- `test_utils`: mock servers and sample tool schemas.

`app/` holds what the library leaves to its caller: file access, timers and
async loops, the serde and clap forms of the library's types, and the search
results, which rank by floating-point distance.
