//! The JSON-RPC session engine: envelopes, session state, dispatch and
//! the decisions of the read loop.

pub mod protocol;
pub mod router;
pub mod schema;
