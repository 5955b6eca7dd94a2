//! A mod-mail relay bridge: users send the bot a private message, and the
//! bot forwards it into a fresh private incident channel shared with the
//! moderation team of a server the user picks.
//!
//! This crate is the verified core: the per-user conversation state machine,
//! the shared-guild candidate selection, the disambiguation scoring, the
//! cooldown bookkeeping, and the relay plan that a thin unverified shell
//! executes against the chat platform.
//!
//! - [`session`]: sessions, conversation stages, and the store that owns one
//!   session per user.
//! - [`machine`]: the state machine deciding what one inbound message leads
//!   to, and the laws it obeys.
//! - [`candidates`]: which shared servers a message can be relayed to.
//! - [`similarity`]: case-insensitive similarity scoring of a guess against
//!   candidate names.
//! - [`relay`]: the plan for carrying a message into a fresh incident
//!   channel.
//! - [`config`]: per-server relay configuration records.
//! - [`text`], [`logging`]: wording of notices and of the operator log.

use vstd::prelude::*;

pub mod candidates;
pub mod config;
pub mod logging;
pub mod machine;
pub mod relay;
pub mod session;
pub mod similarity;
pub mod text;

verus! {

} // verus!
