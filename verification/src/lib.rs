//! Federation engine for locally hosted social profiles: request signing,
//! actor discovery, the follow handshake, outbox documents and fan-out
//! delivery planning, with every rule stated as a contract.

pub mod numeral;
pub mod text;
pub mod server;
pub mod crypto;
pub mod date;
pub mod uri;
pub mod activitypub;
pub mod queries;
pub mod form;
pub mod router;
pub mod store;
pub mod config;
