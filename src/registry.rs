use vstd::prelude::*;

verus! {

broadcast use vstd::seq_lib::lemma_seq_contains_after_push;

/// The set of connections currently subscribed to broadcasts, each named by
/// its session id.
#[derive(Debug)]
pub struct ConnectionRegistry {
    members: Vec<u64>,
}

impl View for ConnectionRegistry {
    type V = Set<u64>;

    closed spec fn view(&self) -> Set<u64> {
        self.members@.to_set()
    }
}

impl ConnectionRegistry {
    pub closed spec fn wf(&self) -> bool {
        self.members@.no_duplicates()
    }

    /// An empty registry.
    pub fn new() -> (r: Self)
        ensures
            r.wf(),
            r@ == Set::<u64>::empty(),
    {
        let r = ConnectionRegistry { members: Vec::new() };
        assert(r@ =~= Set::<u64>::empty());
        r
    }

    /// Whether `conn` is subscribed.
    pub fn contains(&self, conn: u64) -> (r: bool)
        ensures
            r == self@.contains(conn),
    {
        let mut k: usize = 0;
        while k < self.members.len()
            invariant
                k <= self.members@.len(),
                forall|j: int| 0 <= j < k ==> self.members@[j] != conn,
            decreases self.members@.len() - k,
        {
            if self.members[k] == conn {
                assert(self.members@.contains(conn));
                return true;
            }
            k = k + 1;
        }
        false
    }

    /// The number of subscribed connections.
    pub fn len(&self) -> (r: usize)
        requires
            self.wf(),
        ensures
            r == self@.len(),
    {
        proof {
            self.members@.unique_seq_to_set();
        }
        self.members.len()
    }

    /// Subscribes `conn`; subscribing it again changes nothing.
    pub fn insert(&mut self, conn: u64)
        requires
            old(self).wf(),
        ensures
            final(self).wf(),
            final(self)@ == old(self)@.insert(conn),
    {
        if !self.contains(conn) {
            let ghost before = self.members@;
            self.members.push(conn);
            assert(self.members@ == before.push(conn));
            assert forall|i: int, j: int|
                0 <= i < j < self.members@.len() implies self.members@[i] != self.members@[j] by {
                if j == before.len() {
                    assert(before.contains(before[i]));
                }
            }
            assert(self.members@.to_set() =~= before.to_set().insert(conn));
        } else {
            assert(self@ =~= old(self)@.insert(conn));
        }
    }

    /// Unsubscribes `conn`; unsubscribing one that is absent changes nothing.
    pub fn remove(&mut self, conn: u64)
        requires
            old(self).wf(),
        ensures
            final(self).wf(),
            final(self)@ == old(self)@.remove(conn),
    {
        let mut kept: Vec<u64> = Vec::new();
        let mut k: usize = 0;
        while k < self.members.len()
            invariant
                k <= self.members@.len(),
                self.members@.no_duplicates(),
                kept@.no_duplicates(),
                forall|x: u64| kept@.contains(x) <==> (self.members@.take(k as int).contains(x) && x != conn),
            decreases self.members@.len() - k,
        {
            let m = self.members[k];
            proof {
                assert(self.members@.take(k + 1) =~= self.members@.take(k as int).push(m));
                assert(!self.members@.take(k as int).contains(m));
            }
            if m != conn {
                proof {
                    assert(!kept@.contains(m));
                }
                let ghost before = kept@;
                kept.push(m);
                proof {
                    assert forall|i: int, j: int|
                        0 <= i < j < kept@.len() implies kept@[i] != kept@[j] by {
                        if j == before.len() {
                            assert(before.contains(before[i]));
                        }
                    }
                }
            }
            k = k + 1;
        }
        assert(self.members@.take(k as int) =~= self.members@);
        self.members = kept;
        assert(self@ =~= old(self)@.remove(conn));
    }

    /// Unsubscribes every connection in `failed`, as after deliveries to
    /// them failed.
    pub fn evict(&mut self, failed: &Vec<u64>)
        requires
            old(self).wf(),
        ensures
            final(self).wf(),
            final(self)@ == old(self)@.difference(failed@.to_set()),
    {
        let mut k: usize = 0;
        while k < failed.len()
            invariant
                k <= failed@.len(),
                self.wf(),
                self@ == old(self)@.difference(failed@.take(k as int).to_set()),
            decreases failed@.len() - k,
        {
            self.remove(failed[k]);
            proof {
                assert(failed@.take(k + 1) =~= failed@.take(k as int).push(failed@[k as int]));
            }
            k = k + 1;
            assert(self@ =~= old(self)@.difference(failed@.take(k as int).to_set()));
        }
        assert(failed@.take(k as int) =~= failed@);
    }

    /// The subscribed connections, each once: the recipients of a broadcast.
    pub fn members(&self) -> (r: Vec<u64>)
        requires
            self.wf(),
        ensures
            r@.no_duplicates(),
            r@.to_set() == self@,
    {
        let mut r: Vec<u64> = Vec::new();
        let mut k: usize = 0;
        while k < self.members.len()
            invariant
                k <= self.members@.len(),
                r@ == self.members@.take(k as int),
            decreases self.members@.len() - k,
        {
            r.push(self.members[k]);
            assert(self.members@.take(k + 1) =~= self.members@.take(k as int).push(self.members@[k as int]));
            k = k + 1;
        }
        assert(self.members@.take(k as int) =~= self.members@);
        r
    }
}

} // verus!
