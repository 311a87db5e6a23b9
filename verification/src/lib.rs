//! The decision logic of an MCP compliance test server and test client.
pub mod answers;
pub mod catalog;
pub mod client;
pub mod eval;
pub mod laws;
pub mod reply;
pub mod request;
pub mod rpc;
pub mod runs;
pub mod scenarios;
pub mod server;
pub mod text;
