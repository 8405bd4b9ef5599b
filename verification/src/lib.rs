//! Transit route search over the Model Context Protocol: the JSON-RPC
//! request handling, argument checks and route rendering of the
//! `search_transit_route` tool.

pub mod decimal;
pub mod json;
pub mod error;
pub mod models;
pub mod format;
pub mod search;
pub mod mcp;
pub mod rapidapi;
pub mod text;
