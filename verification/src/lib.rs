//! A small, allocation-light rendezvous channel of capacity one.
//!
//! A single [`channel::Channel`] both sends and receives: a send deposits a
//! value into the one-element slot when it is empty, a receive takes the value
//! out when it is present, and whichever side finds the slot in the wrong
//! state registers its waker and suspends.  The channel is driven by explicit
//! poll steps so that the whole state machine — the slot, the two waker
//! registries, and the admit/park transitions — is verified here.  The
//! surrounding executor plumbing (the spin cell that grants exclusive access
//! to the record, the `Future`/`Stream`/notifier adapters) lives outside the
//! verified core and calls into these poll steps.

pub mod channel;
pub mod laws;
pub mod registry;
