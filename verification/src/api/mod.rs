//! The JSON-RPC interface.

pub mod chain_handlers;
