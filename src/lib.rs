//! Core of a global input-capture service: the mapping from native keyboard
//! and mouse notifications to one uniform event record, and the start/stop
//! state machine that decides when captured notifications are forwarded.

pub mod text;
pub mod native;
pub mod event;
pub mod normalize;
pub mod listener;

