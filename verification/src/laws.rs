//! The channel's laws, proved over the spec functions that the poll steps'
//! contracts use.

use vstd::prelude::*;

use crate::channel::send_admitted;
use crate::channel::send_transfer;
use crate::registry::distinct_ids;
use crate::registry::has_id;
use crate::registry::id_index;
use crate::registry::register_spec;
use crate::registry::wakers_of;

verus! {

/// Capacity one: while a value is in transit, no further send is admitted
/// and the slot keeps the value it holds, whatever payload is offered.
pub proof fn lemma_capacity_one<T>(data: Option<T>, held: Option<T>)
    requires
        data is Some,
    ensures
        !send_admitted(data),
        send_transfer(data, held) == data,
{
}

/// Payload fidelity: a send of `v` admitted into the empty slot leaves
/// exactly `Some(v)` in transit, and that is what the matching receive poll
/// takes out.
pub proof fn lemma_payload_fidelity<T>(v: T)
    ensures
        send_admitted(Option::<T>::None),
        send_transfer(Option::<T>::None, Some(v)) == Some(v),
{
}

/// The values received over a sequence of matched send/receive pairs: each
/// pair starts from the empty slot the previous receive left, the send is
/// admitted, and the receive takes the slot contents.
pub open spec fn round_trip<T>(values: Seq<T>) -> Seq<T>
    decreases values.len(),
{
    if values.len() == 0 {
        Seq::<T>::empty()
    } else {
        let got = send_transfer(Option::<T>::None, Some(values.first()));
        (match got {
            Some(v) => seq![v],
            None => Seq::<T>::empty(),
        }) + round_trip(values.drop_first())
    }
}

/// Round trip: over any sequence of matched send/receive pairs on one
/// channel, the receives yield exactly the values sent, in order.
pub proof fn lemma_round_trip<T>(values: Seq<T>)
    ensures
        round_trip(values) == values,
    decreases values.len(),
{
    if values.len() == 0 {
        assert(round_trip(values) =~= values);
    } else {
        lemma_round_trip(values.drop_first());
        assert(round_trip(values) =~= values);
    }
}

/// Rendezvous completion: a receiver that parked — registering under `chan`
/// with waker `w` in a registry of contents `s` — has `w` among the wakers a
/// later admitted send hands back for invocation, and the slot then holds
/// the sent value, so the woken receiver's next poll completes with it.  The
/// statement is symmetric in the registries, so it covers a waiting sender
/// woken by an admitted receive as well.
pub proof fn lemma_rendezvous_completion<T, W>(s: Seq<(usize, W)>, chan: usize, w: W, v: T)
    requires
        distinct_ids(s),
    ensures
        wakers_of(register_spec(s, chan, w)).contains(w),
        send_transfer(Option::<T>::None, Some(v)) == Some(v),
{
    let r = register_spec(s, chan, w);
    lemma_register_spec_holds(s, chan, w);
    let i = id_index(r, chan);
    assert(wakers_of(r)[i] == w);
}

/// Cancellation safety: a send poll that is not admitted transfers nothing —
/// the slot keeps its contents and the payload stays inside the suspendable
/// computation — so dropping that computation drops the payload without
/// touching the channel.
pub proof fn lemma_cancellation_safety<T>(data: Option<T>, held: Option<T>)
    requires
        !send_admitted(data),
    ensures
        send_transfer(data, held) == data,
{
}

/// Multi-waiter wakeup: after two distinct waiters register, the registry
/// holds an entry for each, carrying the waker each registered last, and a
/// drain — which hands back every registered waker — therefore wakes both.
pub proof fn lemma_multi_waiter_wakeup<W>(
    s: Seq<(usize, W)>,
    a: usize,
    wa: W,
    b: usize,
    wb: W,
)
    requires
        distinct_ids(s),
        a != b,
    ensures
        ({
            let r = register_spec(register_spec(s, a, wa), b, wb);
            &&& has_id(r, a)
            &&& has_id(r, b)
            &&& r[id_index(r, a)] == (a, wa)
            &&& r[id_index(r, b)] == (b, wb)
            &&& wakers_of(r).contains(wa)
            &&& wakers_of(r).contains(wb)
        }),
{
    let s1 = register_spec(s, a, wa);
    let r = register_spec(s1, b, wb);
    crate::registry::lemma_register_spec_distinct(s, a, wa);
    crate::registry::lemma_register_spec_distinct(s1, b, wb);
    lemma_register_spec_holds(s, a, wa);
    lemma_register_spec_holds(s1, b, wb);
    lemma_register_spec_keeps_others(s1, b, wb, a);
    let ia = id_index(r, a);
    let ib = id_index(r, b);
    assert(wakers_of(r)[ia] == wa);
    assert(wakers_of(r)[ib] == wb);
}

/// After registering `(chan, waker)`, the registry holds exactly that entry
/// under `chan`.
pub proof fn lemma_register_spec_holds<W>(s: Seq<(usize, W)>, chan: usize, waker: W)
    requires
        distinct_ids(s),
    ensures
        has_id(register_spec(s, chan, waker), chan),
        register_spec(s, chan, waker)[id_index(register_spec(s, chan, waker), chan)] == (
            chan,
            waker,
        ),
{
    let r = register_spec(s, chan, waker);
    crate::registry::lemma_register_spec_distinct(s, chan, waker);
    if has_id(s, chan) {
        let k = id_index(s, chan);
        assert(0 <= k < s.len() && s[k].0 == chan);
        assert(r[k] == (chan, waker));
        assert(has_id(r, chan));
        let j = id_index(r, chan);
        assert(0 <= j < r.len() && r[j].0 == chan);
        assert(j == k);
    } else {
        let k = s.len() as int;
        assert(r[k] == (chan, waker));
        assert(has_id(r, chan));
        let j = id_index(r, chan);
        assert(0 <= j < r.len() && r[j].0 == chan);
        assert(j == k);
    }
}

/// Registering one waiter leaves every other waiter's entry in place.
pub proof fn lemma_register_spec_keeps_others<W>(
    s: Seq<(usize, W)>,
    chan: usize,
    waker: W,
    other: usize,
)
    requires
        distinct_ids(s),
        other != chan,
        has_id(s, other),
    ensures
        has_id(register_spec(s, chan, waker), other),
        register_spec(s, chan, waker)[id_index(register_spec(s, chan, waker), other)] == s[id_index(
            s,
            other,
        )],
{
    let r = register_spec(s, chan, waker);
    crate::registry::lemma_register_spec_distinct(s, chan, waker);
    let k = id_index(s, other);
    assert(0 <= k < s.len() && s[k].0 == other);
    if has_id(s, chan) {
        let m = id_index(s, chan);
        assert(0 <= m < s.len() && s[m].0 == chan);
        assert(m != k);
        assert(r[k] == s[k]);
    } else {
        assert(r[k] == s[k]);
    }
    assert(has_id(r, other));
    let j = id_index(r, other);
    assert(0 <= j < r.len() && r[j].0 == other);
    assert(j == k);
}

} // verus!
