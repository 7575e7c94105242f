//! Decision logic of an end-to-end test harness for a metrics daemon, verified with Verus.

pub mod availability;
pub mod cli;
pub mod client;
pub mod client_tests;
pub mod daemon_discovery;
pub mod dap_scenarios;
pub mod exchange;
pub mod executor;
pub mod grpc;
pub mod json;
pub mod jwt;
pub mod lists;
pub mod mcp;
pub mod mcp_bridge;
pub mod paths;
pub mod port_registry;
pub mod process;
pub mod report;
pub mod reporter;
pub mod rest;
pub mod scenarios;
pub mod script;
pub mod test_file_server;
pub mod text;
pub mod times;
pub mod unified;
pub mod websocket;
