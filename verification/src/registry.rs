//! One direction's registry of pending waiters.
//!
//! A registry associates each pending waiter, identified by a stable integer,
//! with its waker.  It keeps a fast slot for the common single-waiter case —
//! a channel used by one waiter never touches the spill list — and moves
//! entries into a growable list once a second distinct waiter appears.
//! Re-registration under an identifier already present replaces that
//! identifier's waker in place, so the registry never holds two entries for
//! one waiter.

use vstd::prelude::*;

verus! {

/// Does `s` hold an entry for the waiter identifier `chan`?
pub open spec fn has_id<W>(s: Seq<(usize, W)>, chan: usize) -> bool {
    exists|i: int| 0 <= i < s.len() && s[i].0 == chan
}

/// The index of waiter `chan`'s entry in `s` (meaningful when `has_id` holds
/// and identifiers are distinct).
pub open spec fn id_index<W>(s: Seq<(usize, W)>, chan: usize) -> int {
    choose|i: int| 0 <= i < s.len() && s[i].0 == chan
}

/// All waiter identifiers in `s` are distinct.
pub open spec fn distinct_ids<W>(s: Seq<(usize, W)>) -> bool {
    forall|i: int, j: int|
        0 <= i < s.len() && 0 <= j < s.len() && i != j ==> s[i].0 != s[j].0
}

/// The registry contents after registering `(chan, waker)`: an existing entry
/// for `chan` has its waker replaced in place, a new waiter is appended.
pub open spec fn register_spec<W>(s: Seq<(usize, W)>, chan: usize, waker: W) -> Seq<(usize, W)> {
    if has_id(s, chan) {
        s.update(id_index(s, chan), (chan, waker))
    } else {
        s.push((chan, waker))
    }
}

/// The wakers of `s`, in registration order.
pub open spec fn wakers_of<W>(s: Seq<(usize, W)>) -> Seq<W> {
    s.map_values(|e: (usize, W)| e.1)
}

/// Type for waking on send or receive: the pending waiters of one direction
/// of a channel, each a (waiter identifier, waker) pair.
///
/// The waker type `W` is whatever handle the host scheduler hands the poll
/// steps; the registry only stores and returns such handles, never looks
/// inside them.
pub struct Wake<W> {
    /// Fast-slot waker, used while at most one waiter is registered.
    pub wake: Option<W>,
    /// Waiter identifier owning the fast slot; meaningful only while `wake`
    /// holds a waker.
    pub chan: usize,
    /// Spill list of (waiter identifier, waker) pairs, in registration order.
    pub list: Vec<(usize, W)>,
}

impl<W> Wake<W> {
    /// The registered (identifier, waker) pairs in registration order, the
    /// fast slot first.
    pub open spec fn entries(self) -> Seq<(usize, W)> {
        match self.wake {
            Some(w) => seq![(self.chan, w)] + self.list@,
            None => self.list@,
        }
    }

    /// Well-formed: at most one entry per waiter identifier, and the fast
    /// slot is only occupied while the spill list is empty.
    pub open spec fn wf(self) -> bool {
        &&& distinct_ids(self.entries())
        &&& (self.wake is Some ==> self.list@.len() == 0)
    }

    /// Create an empty registry.
    pub fn new() -> (w: Self)
        ensures
            w.wf(),
            w.entries() === Seq::<(usize, W)>::empty(),
    {
        Wake { wake: None, chan: 0, list: Vec::new() }
    }

    /// Register a waker for a waiter: replace the waker of an entry already
    /// held under `chan`, else append a new entry.
    #[verifier::loop_isolation(false)]
    pub fn register(&mut self, chan: usize, waker: W)
        requires
            old(self).wf(),
        ensures
            final(self).wf(),
            final(self).entries() == register_spec(old(self).entries(), chan, waker),
    {
        match self.wake.take() {
            Some(wake) => {
                if self.chan == chan {
                    self.wake = Some(waker);
                    proof {
                        let s = old(self).entries();
                        assert(s[0].0 == chan);
                        assert(has_id(s, chan));
                        assert(id_index(s, chan) == 0);
                        assert(self.entries() =~= register_spec(s, chan, waker));
                    }
                } else {
                    let prev_chan = self.chan;
                    self.list.push((prev_chan, wake));
                    self.list.push((chan, waker));
                    proof {
                        let s = old(self).entries();
                        assert(forall|i: int| 0 <= i < s.len() ==> s[i].0 != chan);
                        assert(!has_id(s, chan));
                        assert(self.entries() =~= register_spec(s, chan, waker));
                    }
                }
            }
            None => {
                if self.list.len() == 0 {
                    self.chan = chan;
                    self.wake = Some(waker);
                    proof {
                        let s = old(self).entries();
                        assert(!has_id(s, chan));
                        assert(self.entries() =~= register_spec(s, chan, waker));
                    }
                } else {
                    let n: usize = self.list.len();
                    let mut idx: usize = 0;
                    while idx < n && self.list[idx].0 != chan
                        invariant
                            0 <= idx <= n,
                            forall|j: int| 0 <= j < idx ==> self.list@[j].0 != chan,
                        decreases n - idx,
                    {
                        idx += 1;
                    }
                    if idx < n {
                        self.list[idx] = (chan, waker);
                        proof {
                            let s = old(self).entries();
                            assert(s[idx as int].0 == chan);
                            assert(has_id(s, chan));
                            let i = id_index(s, chan);
                            assert(0 <= i < s.len() && s[i].0 == chan);
                            assert(i == idx as int);
                            assert(self.entries() =~= register_spec(s, chan, waker));
                        }
                    } else {
                        self.list.push((chan, waker));
                        proof {
                            let s = old(self).entries();
                            assert(!has_id(s, chan));
                            assert(self.entries() =~= register_spec(s, chan, waker));
                        }
                    }
                }
            }
        }
        proof {
            lemma_register_spec_distinct(old(self).entries(), chan, waker);
        }
    }

    /// Drain the registry: remove every entry and hand back the wakers in
    /// registration order, the fast slot's first, for the caller to invoke.
    #[verifier::loop_isolation(false)]
    pub fn wake(&mut self) -> (ws: Vec<W>)
        ensures
            final(self).wf(),
            final(self).entries() === Seq::<(usize, W)>::empty(),
            ws@ == wakers_of(old(self).entries()),
    {
        let mut ws: Vec<W> = Vec::new();
        match self.wake.take() {
            Some(w) => {
                ws.push(w);
            }
            None => {}
        }
        proof {
            assert(wakers_of(old(self).entries()) =~= ws@ + wakers_of(self.list@));
        }
        while self.list.len() > 0
            invariant
                self.wake is None,
                wakers_of(old(self).entries()) == ws@ + wakers_of(self.list@),
            decreases self.list@.len(),
        {
            let e = self.list.remove(0);
            ws.push(e.1);
            proof {
                assert(wakers_of(old(self).entries()) =~= ws@ + wakers_of(self.list@));
            }
        }
        proof {
            assert(ws@ =~= wakers_of(old(self).entries()));
        }
        ws
    }
}

impl<W> Default for Wake<W> {
    /// An empty registry.
    fn default() -> (w: Self)
        ensures
            w.wf(),
            w.entries() === Seq::<(usize, W)>::empty(),
    {
        Wake::new()
    }
}

/// Registration keeps waiter identifiers distinct: replacing an entry keeps
/// the identifiers as they were, and a new entry's identifier was not present.
pub proof fn lemma_register_spec_distinct<W>(s: Seq<(usize, W)>, chan: usize, waker: W)
    requires
        distinct_ids(s),
    ensures
        distinct_ids(register_spec(s, chan, waker)),
{
    let r = register_spec(s, chan, waker);
    if has_id(s, chan) {
        let k = id_index(s, chan);
        assert(0 <= k < s.len() && s[k].0 == chan);
        assert forall|i: int, j: int|
            0 <= i < r.len() && 0 <= j < r.len() && i != j implies r[i].0 != r[j].0 by {
            assert(r[i].0 == s[i].0);
            assert(r[j].0 == s[j].0);
        }
    } else {
        assert forall|i: int, j: int|
            0 <= i < r.len() && 0 <= j < r.len() && i != j implies r[i].0 != r[j].0 by {
            if i < s.len() && j < s.len() {
            } else if i == s.len() {
                assert(r[j].0 == s[j].0);
            } else {
                assert(r[i].0 == s[i].0);
            }
        }
    }
}

} // verus!
