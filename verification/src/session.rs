//! Session identifiers: every invocation that streams events gets one, and no
//! two invocations ever get the same.

use vstd::prelude::*;

verus! {

/// The identifier of the first session of a process.
pub const FIRST_SESSION_ID: u64 = 1;

/// Hands out session identifiers in increasing order, each one once.
///
/// One allocator serves the whole process; it is the only state that
/// invocations share, and whoever owns it decides how they take turns.
pub struct SessionIds {
    first: u64,
    next: u64,
}

impl SessionIds {
    #[verifier::type_invariant]
    spec fn inv(&self) -> bool {
        self.first <= self.next
    }

    /// The identifier that the allocator started from.
    pub closed spec fn first_id(&self) -> u64 {
        self.first
    }

    /// The identifier that the next allocation hands out, if any is left.
    pub closed spec fn next_id(&self) -> u64 {
        self.next
    }

    /// The identifier that the allocation after `k` further ones hands out, as
    /// long as the identifiers last.
    pub open spec fn upcoming(&self, k: nat) -> int {
        self.next_id() + k
    }

    /// The identifiers handed out so far.
    pub open spec fn issued(&self) -> Set<u64> {
        Set::new(|id: u64| self.first_id() <= id < self.next_id())
    }

    /// Whether no identifier is left. The largest `u64` is never handed out.
    pub open spec fn exhausted(&self) -> bool {
        self.next_id() == u64::MAX
    }

    /// Identifiers never repeat: two different allocations, however far apart,
    /// hand out different identifiers, and none of them was handed out before.
    pub proof fn lemma_ids_never_repeat(&self, i: nat, j: nat)
        requires
            i != j,
        ensures
            self.upcoming(i) != self.upcoming(j),
            forall|id: u64| self.issued().contains(id) ==> id != self.upcoming(i),
    {
    }

    /// An allocator that has handed out nothing; its first identifier is
    /// [`FIRST_SESSION_ID`].
    pub fn new() -> (ids: Self)
        ensures
            ids.first_id() == FIRST_SESSION_ID,
            ids.next_id() == FIRST_SESSION_ID,
            ids.issued() == Set::<u64>::empty(),
    {
        SessionIds::starting_at(FIRST_SESSION_ID)
    }

    /// An allocator that has handed out nothing and starts from `first`.
    pub fn starting_at(first: u64) -> (ids: Self)
        ensures
            ids.first_id() == first,
            ids.next_id() == first,
            ids.issued() == Set::<u64>::empty(),
    {
        let ids = SessionIds { first, next: first };
        proof {
            assert(ids.issued() =~= Set::<u64>::empty());
        }
        ids
    }

    /// The number of identifiers handed out so far.
    pub fn issued_count(&self) -> (count: u64)
        ensures
            count == self.next_id() - self.first_id(),
    {
        proof {
            use_type_invariant(self);
        }
        self.next - self.first
    }

    /// Hands out the next identifier, one that was never handed out before.
    /// Returns `None`, and changes nothing, exactly when the identifiers are
    /// exhausted.
    pub fn allocate(&mut self) -> (id: Option<u64>)
        ensures
            final(self).first_id() == old(self).first_id(),
            match id {
                Some(id) => {
                    &&& !old(self).exhausted()
                    &&& id == old(self).next_id()
                    &&& final(self).next_id() == id + 1
                    &&& !old(self).issued().contains(id)
                    &&& final(self).issued() == old(self).issued().insert(id)
                },
                None => {
                    &&& old(self).exhausted()
                    &&& final(self).next_id() == old(self).next_id()
                },
            },
    {
        proof {
            use_type_invariant(&*self);
        }
        if self.next == u64::MAX {
            return None;
        }
        let id: u64 = self.next;
        self.next = id + 1;
        proof {
            assert(final(self).issued() =~= old(self).issued().insert(id));
        }
        Some(id)
    }
}

} // verus!
