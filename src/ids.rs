//! Monotonic identifier sequences for orders and requests.
use vstd::prelude::*;

verus! {

/// Whether `ids` rise strictly.
pub open spec fn strictly_rising(ids: Seq<i64>) -> bool {
    forall|i: int, j: int| 0 <= i < j < ids.len() ==> #[trigger] ids[i] < #[trigger] ids[j]
}

/// An endless, strictly increasing sequence of identifiers.
pub struct IdSequence {
    next: i64,
    issued: Ghost<Seq<i64>>,
}

impl IdSequence {
    /// What every sequence keeps true: what it handed out rises strictly, and stays below
    /// what it hands out next.
    #[verifier::type_invariant]
    spec fn rising(&self) -> bool {
        &&& strictly_rising(self.issued@)
        &&& forall|i: int| 0 <= i < self.issued@.len() ==> #[trigger] self.issued@[i] < self.next
    }

    /// The identifier that the next allocation hands out.
    pub closed spec fn upcoming(&self) -> i64 {
        self.next
    }

    /// Every identifier handed out so far, in order.
    pub closed spec fn issued(&self) -> Seq<i64> {
        self.issued@
    }

    /// A sequence whose first identifier is `start`.
    pub fn starting_at(start: i64) -> (r: IdSequence)
        ensures
            r.upcoming() == start,
            r.issued() == Seq::<i64>::empty(),
    {
        IdSequence { next: start, issued: Ghost(Seq::empty()) }
    }

    /// The identifier that the next allocation hands out.
    pub fn peek(&self) -> (r: i64)
        ensures
            r == self.upcoming(),
    {
        self.next
    }

    /// Whether another identifier can be handed out within the range of `i64`.
    pub fn can_allocate(&self) -> (r: bool)
        ensures
            r == (self.upcoming() < i64::MAX),
    {
        self.next < i64::MAX
    }

    /// Hands out the next identifier and moves past it. Every identifier handed out
    /// exceeds all those before it, so none repeats.
    pub fn allocate(&mut self) -> (r: i64)
        requires
            old(self).upcoming() < i64::MAX,
        ensures
            r == old(self).upcoming(),
            final(self).upcoming() == r + 1,
            final(self).issued() == old(self).issued().push(r),
            forall|i: int| 0 <= i < old(self).issued().len() ==> #[trigger] old(self).issued()[i] < r,
            strictly_rising(final(self).issued()),
    {
        proof {
            use_type_invariant(&*self);
        }
        let r = self.next;
        let ghost before = self.issued@;
        self.next = r + 1;
        self.issued = Ghost(before.push(r));
        assert(strictly_rising(before.push(r))) by {
            assert forall|i: int, j: int| 0 <= i < j < before.len() + 1 implies #[trigger] before.push(r)[i] < #[trigger] before.push(r)[j] by {
                if j < before.len() {
                    assert(before[i] < before[j]);
                } else {
                    assert(before[i] < r);
                }
            }
        }
        r
    }
}

} // verus!
