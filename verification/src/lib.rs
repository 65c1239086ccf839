//! Building blocks of a client for the Gemini Interactions API: endpoint
//! URLs, error context, wire logging helpers, the SSE line protocol, and the
//! JSON data model of interactions, each with a machine-checked contract.

pub mod common;
pub mod error_helpers;
pub mod errors;
pub mod json;
pub mod text;
pub mod order;
pub mod sse;
pub mod loud_wire;
pub mod tool_schema;
pub mod fields;
pub mod models;
