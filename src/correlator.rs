use vstd::prelude::*;

verus! {

/// The identifiers `1, 2, ..., n`, in this order.
pub open spec fn ids_up_to(n: nat) -> Seq<u64> {
    Seq::new(n, |i: int| (i + 1) as u64)
}

/// Allocates request identifiers: strictly increasing, starting at one,
/// never reused. The allocation takes `&mut self`, so two allocations can
/// never race, whatever lock the owner holds it under.
pub struct RequestCorrelator {
    next: u64,
    issued: Ghost<Seq<u64>>,
}

impl RequestCorrelator {
    /// The identifier that the next allocation hands out.
    pub closed spec fn next_id(&self) -> nat {
        self.next as nat
    }

    /// Every identifier handed out so far, in the order of allocation.
    pub closed spec fn issued(&self) -> Seq<u64> {
        self.issued@
    }

    pub closed spec fn wf(&self) -> bool {
        &&& 1 <= self.next
        &&& self.issued@ =~= ids_up_to((self.next - 1) as nat)
    }

    pub fn new() -> (c: Self)
        ensures
            c.wf(),
            c.next_id() == 1,
            c.issued() == Seq::<u64>::empty(),
    {
        RequestCorrelator { next: 1, issued: Ghost(Seq::empty()) }
    }

    /// Hands out the next identifier, or `None` once every `u64` has been
    /// handed out.
    pub fn allocate(&mut self) -> (r: Option<u64>)
        requires
            old(self).wf(),
        ensures
            final(self).wf(),
            old(self).next_id() < u64::MAX ==> {
                &&& r == Some(old(self).next_id() as u64)
                &&& final(self).next_id() == old(self).next_id() + 1
                &&& final(self).issued() == old(self).issued().push(old(self).next_id() as u64)
            },
            old(self).next_id() >= u64::MAX ==> r is None && *final(self) == *old(self),
    {
        if self.next == u64::MAX {
            return None;
        }
        let id = self.next;
        self.next = self.next + 1;
        self.issued = Ghost(self.issued@.push(id));
        assert(self.issued@ =~= ids_up_to((self.next - 1) as nat));
        Some(id)
    }

    /// The identifiers handed out by a correlator are exactly `1` up to the
    /// last one, each once.
    pub proof fn lemma_ids_dense(&self)
        requires
            self.wf(),
        ensures
            self.issued() == ids_up_to((self.next_id() - 1) as nat),
            self.issued().no_duplicates(),
            self.issued().to_set() =~= Set::new(|i: u64| 1 <= i < self.next_id()),
    {
        let s = self.issued@;
        assert forall|i: int, j: int| 0 <= i < s.len() && 0 <= j < s.len() && i != j implies s[i]
            != s[j] by {}
        assert forall|x: u64| #[trigger] s.to_set().contains(x) <==> 1 <= x < self.next_id() by {
            if 1 <= x < self.next_id() {
                assert(s[x - 1] == x);
            }
        }
    }
}

} // verus!
