//! JSON-RPC 2.0 framing of LSPS messages: method names, the message model,
//! the members a message is written as and read from, the outstanding
//! request ids, the raw Lightning payload, and amounts and fee rates.

pub mod amount;
pub mod id_map;
pub mod jsonrpc;
pub mod method;
pub mod msgs;
pub mod raw;
pub mod address;
