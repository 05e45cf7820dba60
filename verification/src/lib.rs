//! Verified core of the gossip client pieces that decide things: the
//! database schema upgrade protocol, the relay entry widget's presentation
//! rules, and the PoW WoW auto-buy bookkeeping around a pre-event.

pub mod decimal;
pub mod text;
pub mod schema;
pub mod relay_entry;
pub mod autobuy;
