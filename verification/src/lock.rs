//! The indices for which a quick paste is under way.

use vstd::prelude::*;

verus! {

/// The indices for which a quick paste is under way, in the order in which they were taken.
pub struct QuickPasteLock {
    held: Vec<u32>,
}

/// The right to run the quick paste of one index.
#[derive(Debug, PartialEq, Eq)]
pub struct QuickPasteLockGuard {
    index: u32,
}

impl View for QuickPasteLock {
    type V = Seq<u32>;

    closed spec fn view(&self) -> Seq<u32> {
        self.held@
    }
}

impl View for QuickPasteLockGuard {
    type V = u32;

    closed spec fn view(&self) -> u32 {
        self.index
    }
}

/// All indices but one.
pub open spec fn other_than(index: u32) -> spec_fn(u32) -> bool {
    |i: u32| i != index
}

/// The indices that are held once `index` has been released.
pub open spec fn released(held: Seq<u32>, index: u32) -> Seq<u32> {
    held.filter(other_than(index))
}

impl QuickPasteLockGuard {
    /// The right to run the quick paste of `index`.
    pub fn new(index: u32) -> (r: Self)
        ensures
            r@ == index,
    {
        QuickPasteLockGuard { index }
    }

    /// The index whose quick paste may run.
    pub fn index(&self) -> (r: u32)
        ensures
            r == self@,
    {
        self.index
    }
}

impl QuickPasteLock {
    /// No index is held twice.
    #[verifier::type_invariant]
    spec fn held_once(self) -> bool {
        self.held@.no_duplicates()
    }

    /// A lock with no index held.
    pub fn new() -> (r: Self)
        ensures
            r@ == Seq::<u32>::empty(),
    {
        QuickPasteLock { held: Vec::new() }
    }

    /// Whether `index` is held.
    pub fn is_held(&self, index: u32) -> (r: bool)
        ensures
            r == self@.contains(index),
    {
        let mut i: usize = 0;
        while i < self.held.len()
            invariant
                i <= self.held@.len(),
                forall|j: int| 0 <= j < i ==> self.held@[j] != index,
            decreases self.held@.len() - i,
        {
            if self.held[i] == index {
                assert(self@[i as int] == index);
                return true;
            }
            i = i + 1;
        }
        false
    }

    /// Takes `index`, unless it is held already.
    pub fn try_acquire(&mut self, index: u32) -> (r: Option<QuickPasteLockGuard>)
        ensures
            final(self)@.no_duplicates(),
            if old(self)@.contains(index) {
                &&& r is None
                &&& final(self)@ == old(self)@
            } else {
                &&& r matches Some(guard) && guard@ == index
                &&& final(self)@ == old(self)@.push(index)
            },
    {
        proof {
            use_type_invariant(&*self);
        }
        if self.is_held(index) {
            None
        } else {
            let mut held: Vec<u32> = Vec::new();
            std::mem::swap(&mut held, &mut self.held);
            held.push(index);
            self.held = held;
            Some(QuickPasteLockGuard::new(index))
        }
    }

    /// Gives `index` back, whether or not it is held.
    pub fn release(&mut self, index: u32)
        ensures
            final(self)@ == released(old(self)@, index),
            final(self)@.no_duplicates(),
    {
        proof {
            use_type_invariant(&*self);
        }
        let mut kept: Vec<u32> = Vec::new();
        let ghost pred = other_than(index);
        let mut i: usize = 0;
        proof {
            reveal(Seq::filter);
            assert(self.held@.take(0).filter(pred) =~= Seq::<u32>::empty());
        }
        while i < self.held.len()
            invariant
                i <= self.held@.len(),
                self@ == old(self)@,
                self.held@ == self@,
                pred == other_than(index),
                kept@ == self.held@.take(i as int).filter(pred),
            decreases self.held@.len() - i,
        {
            proof {
                reveal(Seq::filter);
                assert(self.held@.take(i + 1).drop_last() =~= self.held@.take(i as int));
            }
            if self.held[i] != index {
                kept.push(self.held[i]);
            }
            i = i + 1;
        }
        proof {
            assert(self.held@.take(i as int) =~= self.held@);
            lemma_released(self@, index);
        }
        self.held = kept;
    }
}

/// Releasing an index leaves no index held twice, takes that index out, and keeps every other.
proof fn lemma_released(held: Seq<u32>, index: u32)
    ensures
        held.no_duplicates() ==> released(held, index).no_duplicates(),
        !released(held, index).contains(index),
        forall|other: u32|
            other != index ==> #[trigger] released(held, index).contains(other) == held.contains(
                other,
            ),
    decreases held.len(),
{
    reveal(Seq::filter);
    if held.len() > 0 {
        let rest = held.drop_last();
        lemma_released(rest, index);
        let kept = released(rest, index);
        assert(held =~= rest.push(held.last()));
        assert forall|other: u32| other != index implies #[trigger] released(held, index).contains(
            other,
        ) == held.contains(other) by {
            assert(held.contains(other) == (rest.contains(other) || held.last() == other)) by {
                if rest.contains(other) {
                    let k = choose|k: int| 0 <= k < rest.len() && rest[k] == other;
                    assert(held[k] == other);
                }
                if held.last() == other {
                    assert(held[held.len() - 1] == other);
                }
            }
            assert(kept.push(held.last()).contains(other) == (kept.contains(other) || held.last()
                == other)) by {
                if kept.contains(other) {
                    let k = choose|k: int| 0 <= k < kept.len() && kept[k] == other;
                    assert(kept.push(held.last())[k] == other);
                }
                if held.last() == other {
                    assert(kept.push(held.last())[kept.len() as int] == other);
                }
            }
        }
        if held.no_duplicates() && held.last() != index {
            assert(!rest.contains(held.last()));
            assert(!kept.contains(held.last()));
        }
    }
}

/// An index that was taken and given back leaves the lock as it was.
pub proof fn law_release_undoes_acquire(held: Seq<u32>, index: u32)
    requires
        !held.contains(index),
    ensures
        released(held.push(index), index) == held,
{
    reveal(Seq::filter);
    assert(held.push(index).drop_last() =~= held);
    lemma_release_of_free_index(held, index);
}

/// Releasing an index that is not held changes nothing.
proof fn lemma_release_of_free_index(held: Seq<u32>, index: u32)
    requires
        !held.contains(index),
    ensures
        released(held, index) == held,
    decreases held.len(),
{
    reveal(Seq::filter);
    if held.len() > 0 {
        let rest = held.drop_last();
        assert forall|i: int| 0 <= i < rest.len() implies rest[i] != index by {
            assert(held[i] == rest[i]);
        }
        lemma_release_of_free_index(rest, index);
        assert(held[held.len() - 1] != index);
        assert(rest.push(held.last()) =~= held);
    }
}

/// Releasing one index frees it and touches no other.
pub proof fn law_release_frees_one_index(held: Seq<u32>, index: u32, other: u32)
    requires
        other != index,
    ensures
        !released(held, index).contains(index),
        released(held, index).contains(other) == held.contains(other),
{
    lemma_released(held, index);
}

/// Releasing an index goes through the held ones in their order and leaves that index out.
pub proof fn law_release_keeps_the_order(held: Seq<u32>, last: u32, index: u32)
    ensures
        released(Seq::empty(), index) == Seq::<u32>::empty(),
        released(held.push(last), index) == if last == index {
            released(held, index)
        } else {
            released(held, index).push(last)
        },
{
    reveal(Seq::filter);
    assert(held.push(last).drop_last() =~= held);
}

} // verus!
