//! Guest-side protocol for talking to a host through numeric hostcalls.
//!
//! The guest holds small integers that name what the host keeps for it, and
//! takes by hand every piece of memory that the host fills. This crate is the
//! part of a guest that decides: it is told what the host answered and says
//! what that means and what is to be done next. Calling the host, reading
//! guest memory and releasing it are left to whoever embeds it.

pub mod client;
pub mod dns;
pub mod guest_allocator;
pub mod hostcalls;
pub mod kvstore;
pub mod message;
pub mod rand;
pub mod scaffolding;
pub mod time;
pub mod writer;

pub use crate::client::{select, PendingRequest, PollResult, SendError};
pub use crate::dns::DNS;
pub use crate::kvstore::KVStore;
pub use crate::time::Time;
