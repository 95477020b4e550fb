//! Bootstrap and command dispatch for a blockchain node: which operation a
//! parsed invocation selects, how it is sequenced, and which author identity
//! the node starts with.

pub mod about;
pub mod author;
pub mod chain_spec;
pub mod command;
pub mod dispatch;
pub mod identity;
pub mod launcher;
