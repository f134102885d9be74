//! Core of a real-time text broadcast relay.
//!
//! Clients connect over a duplex message transport; every text message one
//! client sends is fanned out to every currently connected client. This
//! crate holds the verified core: the broadcast hub with bounded per-subscriber
//! queues and a drop-oldest overflow policy, and the per-connection session
//! state machine. The transport and the task runtime live outside the crate
//! and drive this core with plain values.

use vstd::prelude::*;

mod message;
mod hub;
mod session;

verus! {

pub use crate::message::Message;
pub use crate::message::MessageView;
pub use crate::hub::Hub;
pub use crate::session::Session;
pub use crate::session::SessionState;
pub use crate::session::Event;
pub use crate::session::Action;
pub use crate::session::welcome_text;
pub use crate::hub::push_bounded;
pub use crate::hub::publish_one;
pub use crate::hub::publish_all;
pub use crate::hub::remove_slot;
pub use crate::hub::publish_seq;
pub use crate::hub::lemma_publish_fanout;
pub use crate::hub::lemma_self_echo;
pub use crate::hub::lemma_bounded_lag;
pub use crate::hub::lemma_identical_delivery;
pub use crate::hub::lemma_isolation;
pub use crate::hub::lemma_unsubscribe_idempotent;

} // verus!
