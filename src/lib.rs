//! Session state machine, TTL result cache and MRU query history of an
//! interactive terminal search client.

pub mod actions;
pub mod cache;
pub mod highlight;
pub mod history;
pub mod layout;
pub mod record;
pub mod search;
pub mod session;
pub mod text;
