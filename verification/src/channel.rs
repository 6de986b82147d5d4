//! The rendezvous slot and its two poll steps.
//!
//! A channel owns one locked record: the optional in-transit value plus a
//! send-side and a receive-side waker registry.  In the running system the
//! record sits behind a spin cell and every transition happens inside its
//! critical section; here that exclusive access is the `&mut` receiver of the
//! poll steps, so each step is exactly one critical section.  A receive poll
//! takes the value out if one is present and drains the send-side registry;
//! otherwise it parks the receiver.  A send poll deposits its payload if the
//! slot is empty and drains the receive-side registry; otherwise it parks the
//! sender.  The wakers drained by an admit are handed back to the caller,
//! which invokes them before leaving the critical section.

use vstd::prelude::*;

use crate::registry::register_spec;
use crate::registry::wakers_of;
use crate::registry::Wake;

verus! {

/// Whether a send polled against slot contents `data` is admitted: only an
/// empty slot admits a send, so at most one value is ever in transit.
pub open spec fn send_admitted<T>(data: Option<T>) -> bool {
    data is None
}

/// Slot contents after a send poll whose computation holds `held`: the
/// payload moves into an empty slot, a full slot is left as it is.
pub open spec fn send_transfer<T>(data: Option<T>, held: Option<T>) -> Option<T> {
    if data is None {
        held
    } else {
        data
    }
}

/// The record guarded by the spin cell: the in-transit value and the two
/// waker registries.
pub struct Locked<T, W> {
    /// Receive wakers: waiters parked until a value arrives.
    pub recv: Wake<W>,
    /// Send wakers: waiters parked until the slot empties.
    pub send: Wake<W>,
    /// Data in transit, at most one value.
    pub data: Option<T>,
}

impl<T, W> Locked<T, W> {
    /// Well-formed: both registries are well-formed.
    pub open spec fn wf(self) -> bool {
        &&& self.recv.wf()
        &&& self.send.wf()
    }

    /// Empty record: no value in transit, no waiter parked.
    pub open spec fn is_empty(self) -> bool {
        &&& self.data is None
        &&& self.recv.entries() === Seq::<(usize, W)>::empty()
        &&& self.send.entries() === Seq::<(usize, W)>::empty()
    }
}

impl<T, W> Default for Locked<T, W> {
    /// An empty record.
    fn default() -> (l: Self)
        ensures
            l.wf(),
            l.is_empty(),
    {
        let data = None;
        let send = Wake::new();
        let recv = Wake::new();

        Locked { data, send, recv }
    }
}

/// A `Channel` notifies when another holder of the same channel sends a
/// message: a rendezvous queue of capacity one, on which any number of
/// waiters of either direction may be pending.
///
/// `T` is the message type; `W` is the host scheduler's waker handle, stored
/// and handed back by the poll steps but never inspected.  The running system
/// shares one channel among tasks behind a reference-counted handle and a
/// spin cell; the exclusive `&mut` access taken by the poll steps stands for
/// that cell's critical section.
pub struct Channel<T, W> {
    /// The record the spin cell guards.
    pub locked: Locked<T, W>,
}

impl<T, W> Channel<T, W> {
    /// Well-formed: the locked record is.
    pub open spec fn wf(self) -> bool {
        self.locked.wf()
    }

    /// Create a new channel, empty and with no waiter parked.
    pub fn new() -> (c: Self)
        ensures
            c.wf(),
            c.locked.is_empty(),
    {
        Channel { locked: Locked::default() }
    }

    /// Start sending a message on this channel.
    ///
    /// The payload moves into the returned suspendable computation, not into
    /// the channel: until a poll of that computation is admitted, the channel
    /// is untouched, and dropping the computation drops the payload with it.
    pub fn send(&self, message: T) -> (m: Message<T>)
        ensures
            m.message == Some(message),
    {
        Message { message: Some(message) }
    }

    /// One receive poll: one pass through the spin cell's critical section
    /// on behalf of the receiver identified by `chan`.
    ///
    /// If a value is in transit it is taken and every parked sender's waker
    /// is handed back for invocation; otherwise the receiver is parked under
    /// `chan` with `waker`.  Either way the slot is empty afterwards.
    pub fn poll_internal(&mut self, chan: usize, waker: W) -> (r: (Option<T>, Vec<W>))
        requires
            old(self).wf(),
        ensures
            final(self).wf(),
            r.0 == old(self).locked.data,
            final(self).locked.data is None,
            old(self).locked.data is Some ==> {
                &&& r.1@ == wakers_of(old(self).locked.send.entries())
                &&& final(self).locked.send.entries() === Seq::<(usize, W)>::empty()
                &&& final(self).locked.recv == old(self).locked.recv
            },
            old(self).locked.data is None ==> {
                &&& r.1@.len() == 0
                &&& final(self).locked.send == old(self).locked.send
                &&& final(self).locked.recv.entries() == register_spec(
                    old(self).locked.recv.entries(),
                    chan,
                    waker,
                )
            },
    {
        match self.locked.data.take() {
            Some(output) => {
                let ws = self.locked.send.wake();
                (Some(output), ws)
            }
            None => {
                self.locked.recv.register(chan, waker);
                (None, Vec::new())
            }
        }
    }
}

/// A message in the process of being sent over a [`Channel`]: the suspendable
/// send computation, owning the payload until an admitted poll transfers it.
pub struct Message<T> {
    /// The payload, present until a poll is admitted.
    pub message: Option<T>,
}

impl<T> Message<T> {
    /// One send poll: one pass through the spin cell's critical section on
    /// behalf of the sender identified by `chan`.
    ///
    /// If the slot is empty the held payload moves into it, every parked
    /// receiver's waker is handed back for invocation, and the poll reports
    /// completion (`r.0`); otherwise the sender is parked under `chan` with
    /// `waker` and both the payload and the slot stay as they were.
    pub fn poll<W>(&mut self, channel: &mut Channel<T, W>, chan: usize, waker: W) -> (r: (
        bool,
        Vec<W>,
    ))
        requires
            old(channel).wf(),
        ensures
            final(channel).wf(),
            r.0 == send_admitted(old(channel).locked.data),
            final(channel).locked.data == send_transfer(
                old(channel).locked.data,
                old(self).message,
            ),
            send_admitted(old(channel).locked.data) ==> {
                &&& final(self).message is None
                &&& r.1@ == wakers_of(old(channel).locked.recv.entries())
                &&& final(channel).locked.recv.entries() === Seq::<(usize, W)>::empty()
                &&& final(channel).locked.send == old(channel).locked.send
            },
            !send_admitted(old(channel).locked.data) ==> {
                &&& *final(self) == *old(self)
                &&& r.1@.len() == 0
                &&& final(channel).locked.recv == old(channel).locked.recv
                &&& final(channel).locked.send.entries() == register_spec(
                    old(channel).locked.send.entries(),
                    chan,
                    waker,
                )
            },
    {
        if channel.locked.data.is_none() {
            channel.locked.data = self.message.take();
            let ws = channel.locked.recv.wake();
            (true, ws)
        } else {
            channel.locked.send.register(chan, waker);
            (false, Vec::new())
        }
    }
}

impl<T, W> Default for Channel<T, W> {
    /// A new, empty channel.
    fn default() -> (c: Self)
        ensures
            c.wf(),
            c.locked.is_empty(),
    {
        Channel::new()
    }
}

} // verus!

