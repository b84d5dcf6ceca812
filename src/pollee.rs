use vstd::prelude::*;

use crate::events::Events;

verus! {

/// One subscription in a pollee: the waiter of the poller `id`, woken when
/// an event of `mask` arrives.
pub struct Subscriber<W> {
    pub id: u64,
    pub mask: Events,
    pub waiter: W,
}

/// A publisher of readiness events: the events presently satisfied and the
/// pollers that wait for some of them.
///
/// `W` is the handle by which a subscribed waiter is woken. The caller holds
/// the pollee under one lock, so that reading or changing the events and
/// scanning the subscribers are one step.
pub struct Pollee<W> {
    pub events: Events,
    pub subscribers: Vec<Subscriber<W>>,
}

/// No two subscriptions belong to the same poller.
pub open spec fn ids_unique<W>(subs: Seq<Subscriber<W>>) -> bool {
    forall|i: int, j: int|
        0 <= i < subs.len() && 0 <= j < subs.len() && i != j ==> #[trigger] subs[i].id
            != #[trigger] subs[j].id
}

/// The positions, in increasing order, among the first `n` subscriptions
/// whose interest meets `delta`.
pub open spec fn wake_list<W>(subs: Seq<Subscriber<W>>, delta: Events, n: nat) -> Seq<usize>
    decreases n,
{
    if n == 0 {
        Seq::empty()
    } else {
        let rest = wake_list(subs, delta, (n - 1) as nat);
        if subs[n - 1].mask.meets(delta) {
            rest.push((n - 1) as usize)
        } else {
            rest
        }
    }
}

/// A position is in the wake list exactly when its subscription's interest
/// meets `delta`.
pub proof fn lemma_wake_list_members<W>(subs: Seq<Subscriber<W>>, delta: Events, n: nat)
    requires
        n <= subs.len(),
        subs.len() <= usize::MAX,
    ensures
        forall|k: usize|
            #[trigger] wake_list(subs, delta, n).contains(k) <==> (k < n
                && subs[k as int].mask.meets(delta)),
    decreases n,
{
    if n > 0 {
        lemma_wake_list_members(subs, delta, (n - 1) as nat);
        let rest = wake_list(subs, delta, (n - 1) as nat);
        assert forall|k: usize| #[trigger]
            wake_list(subs, delta, n).contains(k) <==> (k < n && subs[k as int].mask.meets(
                delta,
            )) by {
            if subs[n - 1].mask.meets(delta) {
                let pushed = rest.push((n - 1) as usize);
                if pushed.contains(k) && k != (n - 1) as usize {
                    let j = choose|j: int| 0 <= j < pushed.len() && pushed[j] == k;
                    assert(rest[j] == k);
                }
                if rest.contains(k) {
                    let j = choose|j: int| 0 <= j < rest.len() && rest[j] == k;
                    assert(pushed[j] == k);
                }
                if k == (n - 1) as usize {
                    assert(pushed[rest.len() as int] == k);
                }
            }
        }
    }
}

impl<W> Pollee<W> {
    pub open spec fn wf(self) -> bool {
        ids_unique(self.subscribers@)
    }

    /// The poller `id` holds a subscription here.
    pub open spec fn has_id(self, id: u64) -> bool {
        exists|i: int| 0 <= i < self.subscribers@.len() && #[trigger] self.subscribers@[i].id == id
    }

    /// The subscriptions that an edge of `delta` wakes.
    pub open spec fn woken_by(self, delta: Events) -> Seq<usize> {
        wake_list(self.subscribers@, delta, self.subscribers@.len())
    }

    pub fn new(initial: Events) -> (r: Pollee<W>)
        ensures
            r.wf(),
            r.events == initial,
            r.subscribers@.len() == 0,
    {
        Pollee { events: initial, subscribers: Vec::new() }
    }

    pub fn events(&self) -> (r: Events)
        ensures
            r == self.events,
    {
        self.events
    }

    pub fn subscriber_count(&self) -> (r: usize)
        ensures
            r == self.subscribers@.len(),
    {
        self.subscribers.len()
    }

    /// The wake handle of the subscription at position `i`.
    pub fn subscriber(&self, i: usize) -> (r: &W)
        requires
            i < self.subscribers@.len(),
        ensures
            *r == self.subscribers@[i as int].waiter,
    {
        &self.subscribers[i].waiter
    }

    /// The position of the subscription of poller `id`, if it has one.
    pub fn position(&self, id: u64) -> (r: Option<usize>)
        ensures
            r.is_none() <==> !self.has_id(id),
            r.is_some() ==> r.unwrap() < self.subscribers@.len()
                && self.subscribers@[r.unwrap() as int].id == id,
    {
        let mut i: usize = 0;
        while i < self.subscribers.len()
            invariant
                i <= self.subscribers@.len(),
                forall|j: int| 0 <= j < i ==> #[trigger] self.subscribers@[j].id != id,
            decreases self.subscribers@.len() - i,
        {
            if self.subscribers[i].id == id {
                return Some(i);
            }
            i = i + 1;
        }
        None
    }

    /// The events of `mask` that are satisfied now. When `subscriber` is
    /// given, the poller it names is registered for `mask` in the same step,
    /// so no edge between reading the events and waiting can be lost. A
    /// poller registered before keeps one subscription, now for `mask`.
    pub fn poll_by(&mut self, mask: Events, subscriber: Option<(u64, W)>) -> (r: Events)
        requires
            old(self).wf(),
        ensures
            final(self).wf(),
            r.bits == old(self).events.bits & mask.bits,
            final(self).events == old(self).events,
            subscriber.is_none() ==> final(self).subscribers@ == old(self).subscribers@,
            subscriber.is_some() ==> ({
                let (id, w) = subscriber.unwrap();
                &&& final(self).subscribers@.contains(Subscriber { id, mask, waiter: w })
                &&& forall|s: Subscriber<W>|
                    s.id != id ==> (final(self).subscribers@.contains(s)
                        <==> old(self).subscribers@.contains(s))
            }),
    {
        let ready = self.events.intersection(mask);
        match subscriber {
            None => {},
            Some((id, w)) => {
                let ghost before = self.subscribers@;
                let entry = Subscriber { id, mask, waiter: w };
                match self.position(id) {
                    Some(k) => {
                        self.subscribers.set(k, entry);
                        let ghost after = self.subscribers@;
                        assert(after[k as int].id == id);
                        assert forall|s: Subscriber<W>| s.id != id implies (after.contains(s)
                            <==> before.contains(s)) by {
                            if after.contains(s) {
                                let j = choose|j: int| 0 <= j < after.len() && after[j] == s;
                                assert(before[j] == s);
                            }
                            if before.contains(s) {
                                let j = choose|j: int| 0 <= j < before.len() && before[j] == s;
                                assert(j != k);
                                assert(after[j] == s);
                            }
                        }
                    },
                    None => {
                        self.subscribers.push(entry);
                        let ghost after = self.subscribers@;
                        assert(after[before.len() as int].id == id);
                        assert forall|s: Subscriber<W>| s.id != id implies (after.contains(s)
                            <==> before.contains(s)) by {
                            if after.contains(s) {
                                let j = choose|j: int| 0 <= j < after.len() && after[j] == s;
                                assert(j != before.len());
                                assert(before[j] == s);
                            }
                            if before.contains(s) {
                                let j = choose|j: int| 0 <= j < before.len() && before[j] == s;
                                assert(after[j] == s);
                            }
                        }
                    },
                }
            },
        }
        ready
    }

    /// The positions of the subscriptions whose interest meets `delta`, in
    /// increasing order.
    fn wake_positions(&self, delta: Events) -> (r: Vec<usize>)
        ensures
            r@ == self.woken_by(delta),
    {
        let mut r: Vec<usize> = Vec::new();
        let mut i: usize = 0;
        while i < self.subscribers.len()
            invariant
                i <= self.subscribers@.len(),
                r@ == wake_list(self.subscribers@, delta, i as nat),
            decreases self.subscribers@.len() - i,
        {
            if self.subscribers[i].mask.intersects(delta) {
                r.push(i);
            }
            i = i + 1;
        }
        r
    }

    /// Adds `delta` to the events. Returns the positions of the
    /// subscriptions to wake: those whose interest meets `delta`. The
    /// subscriptions stay.
    pub fn add_events(&mut self, delta: Events) -> (r: Vec<usize>)
        requires
            old(self).wf(),
        ensures
            final(self).wf(),
            final(self).events.bits == old(self).events.bits | delta.bits,
            final(self).subscribers@ == old(self).subscribers@,
            r@ == old(self).woken_by(delta),
    {
        self.events = self.events.union(delta);
        self.wake_positions(delta)
    }

    /// Removes `delta` from the events. Nobody is woken.
    pub fn del_events(&mut self, delta: Events)
        requires
            old(self).wf(),
        ensures
            final(self).wf(),
            final(self).events.bits == old(self).events.bits & !delta.bits,
            final(self).subscribers@ == old(self).subscribers@,
    {
        self.events = self.events.difference(delta);
    }

    /// Replaces the events by `new_events`. Returns the positions of the
    /// subscriptions to wake: those whose interest meets the events that
    /// were not set before.
    pub fn reset_events(&mut self, new_events: Events) -> (r: Vec<usize>)
        requires
            old(self).wf(),
        ensures
            final(self).wf(),
            final(self).events == new_events,
            final(self).subscribers@ == old(self).subscribers@,
            r@ == old(self).woken_by(Events { bits: new_events.bits & !old(self).events.bits }),
    {
        let added = new_events.difference(self.events);
        self.events = new_events;
        self.wake_positions(added)
    }

    /// Removes the subscription of poller `id`. Returns whether it had one.
    pub fn unsubscribe(&mut self, id: u64) -> (r: bool)
        requires
            old(self).wf(),
        ensures
            final(self).wf(),
            r == old(self).has_id(id),
            !final(self).has_id(id),
            final(self).events == old(self).events,
            forall|s: Subscriber<W>|
                s.id != id ==> (final(self).subscribers@.contains(s)
                    <==> old(self).subscribers@.contains(s)),
    {
        match self.position(id) {
            None => false,
            Some(k) => {
                let ghost before = self.subscribers@;
                let _gone = self.subscribers.remove(k);
                let ghost after = self.subscribers@;
                assert forall|i: int| 0 <= i < after.len() implies #[trigger] after[i].id
                    != id by {
                    if i < k {
                        assert(after[i] == before[i]);
                    } else {
                        assert(after[i] == before[i + 1]);
                    }
                }
                assert forall|s: Subscriber<W>| s.id != id implies (after.contains(s)
                    <==> before.contains(s)) by {
                    if after.contains(s) {
                        let j = choose|j: int| 0 <= j < after.len() && after[j] == s;
                        if j < k {
                            assert(before[j] == s);
                        } else {
                            assert(before[j + 1] == s);
                        }
                    }
                    if before.contains(s) {
                        let j = choose|j: int| 0 <= j < before.len() && before[j] == s;
                        assert(j != k);
                        if j < k {
                            assert(after[j] == s);
                        } else {
                            assert(after[j - 1] == s);
                        }
                    }
                }
                true
            },
        }
    }
}

/// An edge that carries an event a poller subscribed for wakes that
/// poller: if the poller `id` is subscribed with interest `mask` and wake
/// handle `w`, and `b` is an event bit of both `mask` and `delta`, then
/// adding `delta` wakes that very subscription.
pub proof fn edge_wakes_subscriber<W>(
    p: Pollee<W>,
    id: u64,
    mask: Events,
    w: W,
    delta: Events,
    b: u32,
)
    requires
        p.subscribers@.contains(Subscriber { id, mask, waiter: w }),
        b != 0,
        mask.bits & b == b,
        delta.bits & b == b,
    ensures
        exists|k: usize|
            #[trigger] p.woken_by(delta).contains(k) && k < p.subscribers@.len()
                && p.subscribers@[k as int] == (Subscriber { id, mask, waiter: w }),
{
    let i = choose|i: int|
        0 <= i < p.subscribers@.len() && p.subscribers@[i] == (Subscriber { id, mask, waiter: w });
    let (m, d) = (mask.bits, delta.bits);
    assert(m & b == b && d & b == b && b != 0 ==> m & d != 0) by (bit_vector);
    assert(p.subscribers.len() == p.subscribers@.len());
    lemma_wake_list_members(p.subscribers@, delta, p.subscribers@.len());
    assert(p.woken_by(delta).contains(i as usize));
}

/// Once the poller `id` has no subscription in a pollee, no edge of any
/// events wakes anything of it there.
pub proof fn no_wake_after_unsubscribe<W>(p: Pollee<W>, id: u64, delta: Events)
    requires
        !p.has_id(id),
    ensures
        forall|k: usize|
            #[trigger] p.woken_by(delta).contains(k) ==> k < p.subscribers@.len()
                && p.subscribers@[k as int].id != id,
{
    assert(p.subscribers.len() == p.subscribers@.len());
    lemma_wake_list_members(p.subscribers@, delta, p.subscribers@.len());
}

} // verus!
