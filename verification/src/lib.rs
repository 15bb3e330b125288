//! The virtual machine of a subnet: what it remembers between calls, what it
//! decides when the consensus engine calls it, and the JSON-RPC handler that it
//! offers.
//!
//! Nothing here touches a database, a network or a lock. A call that needs
//! stored blocks is a value that says what it waits for; the caller does that
//! work and resumes the call with what came back.

pub mod api;
pub mod behaviour;
pub mod block;
pub mod choices;
pub mod cluster;
pub mod errors;
pub mod http;
pub mod ids;
pub mod laws;
pub mod snow;
pub mod vm;
