//! The bounded stack of state snapshots used to step back (Backspace).

use vstd::prelude::*;

verus! {

/// A stack of snapshots holding at most `max_size`; pushing onto a full stack
/// discards the oldest snapshot.
pub struct SnapshotStack<T> {
    snapshots: Vec<T>,
    max_size: usize,
}

impl<T> View for SnapshotStack<T> {
    type V = Seq<T>;

    /// The snapshots, oldest first.
    closed spec fn view(&self) -> Seq<T> {
        self.snapshots@
    }
}

/// The snapshots after pushing `x` onto `s` with the given capacity.
pub open spec fn after_push<T>(s: Seq<T>, capacity: nat, x: T) -> Seq<T> {
    if s.len() >= capacity {
        s.drop_first().push(x)
    } else {
        s.push(x)
    }
}

impl<T> SnapshotStack<T> {
    /// The capacity given at construction.
    pub closed spec fn capacity(&self) -> nat {
        self.max_size as nat
    }

    /// The stack never holds more than its capacity.
    pub closed spec fn wf(&self) -> bool {
        self.snapshots@.len() <= self.max_size
    }

    /// An empty stack of the given capacity.
    pub fn new(max_size: usize) -> (r: Self)
        ensures
            r.wf(),
            r@ == Seq::<T>::empty(),
            r.capacity() == max_size,
    {
        SnapshotStack { snapshots: Vec::new(), max_size }
    }

    /// Pushes a snapshot, first discarding the oldest one when the stack is full.
    pub fn push(&mut self, snapshot: T)
        requires
            old(self).wf(),
            old(self).capacity() > 0,
        ensures
            final(self).wf(),
            final(self).capacity() == old(self).capacity(),
            final(self)@ == after_push(old(self)@, old(self).capacity(), snapshot),
    {
        if self.snapshots.len() >= self.max_size {
            self.snapshots.remove(0);
        }
        self.snapshots.push(snapshot);
    }

    /// Removes and returns the newest snapshot.
    pub fn pop(&mut self) -> (r: Option<T>)
        requires
            old(self).wf(),
        ensures
            final(self).wf(),
            final(self).capacity() == old(self).capacity(),
            old(self)@.len() == 0 ==> r is None && final(self)@ == old(self)@,
            old(self)@.len() > 0 ==> r == Some(old(self)@.last()) && final(self)@
                == old(self)@.drop_last(),
    {
        self.snapshots.pop()
    }

    /// The newest snapshot.
    pub fn last(&self) -> (r: Option<&T>)
        ensures
            self@.len() == 0 ==> r is None,
            self@.len() > 0 ==> r == Some(&self@.last()),
    {
        if self.snapshots.len() == 0 {
            None
        } else {
            Some(&self.snapshots[self.snapshots.len() - 1])
        }
    }

    /// Discards every snapshot.
    pub fn clear(&mut self)
        requires
            old(self).wf(),
        ensures
            final(self).wf(),
            final(self).capacity() == old(self).capacity(),
            final(self)@ == Seq::<T>::empty(),
    {
        self.snapshots.clear();
    }

    /// The number of snapshots held.
    pub fn len(&self) -> (r: usize)
        ensures
            r == self@.len(),
    {
        self.snapshots.len()
    }
}

/// Stepping back right after a push returns what was pushed; when nothing was
/// discarded, the stack is as it was before the push; the capacity is never
/// exceeded.
pub proof fn lemma_push_then_pop<T>(before: Seq<T>, capacity: nat, x: T)
    requires
        capacity > 0,
        before.len() <= capacity,
    ensures
        after_push(before, capacity, x).last() == x,
        after_push(before, capacity, x).len() <= capacity,
        before.len() < capacity ==> after_push(before, capacity, x).drop_last() == before,
        before.len() >= capacity ==> after_push(before, capacity, x).drop_last()
            == before.drop_first(),
{
    let after = after_push(before, capacity, x);
    if before.len() >= capacity {
        assert(after.drop_last() =~= before.drop_first());
    } else {
        assert(after.drop_last() =~= before);
    }
}

} // verus!
