//! Tests that the tool-calling protocol dependencies are available.

use rmcp::handler::server::ServerHandler;

/// Compile-time verification that rmcp::ServerHandler is importable.
#[allow(dead_code)]
fn assert_server_handler_exists<T: ServerHandler>() {}

/// Compile-time verification that schemars::JsonSchema is importable.
#[allow(dead_code)]
fn assert_json_schema_exists<T: schemars::JsonSchema>() {}

#[allow(dead_code)]
fn instantiate_for_string() {
    assert_json_schema_exists::<String>();
}

#[test]
fn mcp_dependencies_available() {
    // This test verifies that the MCP dependencies compile.
    // The actual verification happens at compile time via the imports above.
}
