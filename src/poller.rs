use vstd::prelude::*;

verus! {

/// The bookkeeping of a poller: the id under which its waiter subscribes,
/// and the pollees, by id, that hold a subscription of it. Dropping the
/// poller removes its subscription from each of them.
pub struct PollerCore {
    pub id: u64,
    pub pollees: Vec<u64>,
}

impl PollerCore {
    pub open spec fn wf(self) -> bool {
        self.pollees@.no_duplicates()
    }

    pub fn new(id: u64) -> (r: PollerCore)
        ensures
            r.wf(),
            r.id == id,
            r.pollees@.len() == 0,
    {
        PollerCore { id, pollees: Vec::new() }
    }

    pub fn id(&self) -> (r: u64)
        ensures
            r == self.id,
    {
        self.id
    }

    /// Whether the pollee `pollee` is recorded.
    pub fn is_recorded(&self, pollee: u64) -> (r: bool)
        ensures
            r == self.pollees@.contains(pollee),
    {
        let mut i: usize = 0;
        while i < self.pollees.len()
            invariant
                i <= self.pollees@.len(),
                forall|j: int| 0 <= j < i ==> self.pollees@[j] != pollee,
            decreases self.pollees@.len() - i,
        {
            if self.pollees[i] == pollee {
                return true;
            }
            i = i + 1;
        }
        false
    }

    /// Records that the pollee `pollee` holds a subscription of this poller.
    /// Returns whether it was new; each pollee is recorded once.
    pub fn record(&mut self, pollee: u64) -> (r: bool)
        requires
            old(self).wf(),
        ensures
            final(self).wf(),
            final(self).id == old(self).id,
            r == !old(self).pollees@.contains(pollee),
            final(self).pollees@.to_set() == old(self).pollees@.to_set().insert(pollee),
            final(self).pollees@ == (if r {
                old(self).pollees@.push(pollee)
            } else {
                old(self).pollees@
            }),
    {
        if self.is_recorded(pollee) {
            proof {
                assert(self.pollees@.to_set() =~= self.pollees@.to_set().insert(pollee));
            }
            false
        } else {
            let ghost before = self.pollees@;
            self.pollees.push(pollee);
            proof {
                assert(self.pollees@.to_set() =~= before.to_set().insert(pollee)) by {
                    assert forall|x: u64| self.pollees@.contains(x) <==> (before.contains(x)
                        || x == pollee) by {
                        if self.pollees@.contains(x) && x != pollee {
                            let j = choose|j: int|
                                0 <= j < self.pollees@.len() && self.pollees@[j] == x;
                            assert(before[j] == x);
                        }
                        if before.contains(x) {
                            let j = choose|j: int| 0 <= j < before.len() && before[j] == x;
                            assert(self.pollees@[j] == x);
                        }
                        if x == pollee {
                            assert(self.pollees@[before.len() as int] == x);
                        }
                    }
                }
            }
            true
        }
    }

    /// The recorded pollees, in the order they were recorded.
    pub fn pollees(&self) -> (r: &Vec<u64>)
        ensures
            r@ == self.pollees@,
    {
        &self.pollees
    }
}

} // verus!
