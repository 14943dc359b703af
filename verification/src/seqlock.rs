//! A sequence lock: a writer-priority synchronization primitive.
//!
//! A seqlock pairs a payload with a sequence counter. A writer increments
//! the counter once on entering its critical section (making it odd) and
//! once on leaving (returning it to even); readers never block a writer and
//! validate after the fact, by the counter's value and parity, that their
//! snapshot did not overlap a write. The counter therefore always equals
//! twice the number of completed writes, plus one exactly while a write is
//! in progress.
//!
//! Exclusive ownership stands in for the unsynchronized sharing of a
//! multiprocessor build: the payload is checked out of the lock for the
//! duration of a write, so the type system serializes writers the way the
//! underlying mutual-exclusion primitive would, and a reader that runs
//! while the counter is odd finds no payload to look at — the case in which
//! the validation protocol obliges it to discard its attempt. The fence
//! discipline of the protocol is kept at each point where a weakly ordered
//! machine needs it.

use vstd::prelude::*;

verus! {

use crate::arch::read_fence;
use crate::arch::write_fence;

/// A sequence lock wrapping a payload of type `T`.
///
/// The counter is even exactly while no writer holds the guard; see
/// [`SeqLock::wf`]. Readers go through [`SeqLock::read`] or
/// [`SeqLock::try_read`]; writers acquire a [`SeqLockGuard`] through
/// [`SeqLock::write`] and give it back through [`SeqLock::release`].
///
/// The protocol cannot protect a payload holding raw pointers: a writer
/// could invalidate a pointer a reader has already followed, and the
/// after-the-fact validation would come too late.
pub struct SeqLock<T> {
    seq: usize,
    data: Option<T>,
}

/// A write-mode handle: it owns the payload for the duration of the
/// critical section, so a second writer cannot reach it. It is created
/// only by [`SeqLock::write`], after the counter has been made odd, and
/// must be given back exactly once through [`SeqLock::release`], which
/// returns the counter to even.
pub struct SeqLockGuard<T> {
    seq: usize,
    data: T,
}

impl<T> SeqLock<T> {
    /// The current value of the sequence counter.
    pub closed spec fn sequence(&self) -> nat {
        self.seq as nat
    }

    /// A writer holds the guard exactly while the counter is odd.
    pub open spec fn writer_active(&self) -> bool {
        self.sequence() % 2 == 1
    }

    /// The protected value; meaningful only while no writer is active.
    pub closed spec fn value(&self) -> T {
        self.data->Some_0
    }

    /// Well-formedness: the payload is in place exactly while the counter
    /// is even, and an in-progress write leaves room for the release
    /// increment.
    pub closed spec fn wf(&self) -> bool {
        &&& (self.data is Some <==> self.sequence() % 2 == 0)
        &&& (self.writer_active() ==> self.sequence() < usize::MAX)
    }

    /// The number of completed writes: the counter advances twice per
    /// write, so it is the counter's half.
    pub open spec fn completed_writes(&self) -> nat {
        self.sequence() / 2
    }

    /// Write-acquisition is permitted while no writer is active and the
    /// two increments of one more write cannot overflow the counter.
    pub open spec fn can_write(&self) -> bool {
        &&& self.wf()
        &&& !self.writer_active()
        &&& self.sequence() + 2 <= usize::MAX
    }

    /// Creates a new [`SeqLock`] wrapping the supplied data, with the
    /// counter at zero: no write has completed and none is in progress.
    pub fn new(data: T) -> (r: Self)
        ensures
            r.wf(),
            r.sequence() == 0,
            !r.writer_active(),
            r.value() == data,
    {
        Self { seq: 0, data: Some(data) }
    }

    /// Consumes this [`SeqLock`] and unwraps the underlying data.
    ///
    /// Ownership by value rules out an outstanding guard or reader, so no
    /// locking is needed; the counter is discarded.
    pub fn into_inner(self) -> (r: T)
        requires
            self.wf(),
            !self.writer_active(),
        ensures
            r == self.value(),
    {
        let SeqLock { seq: _, data } = self;
        data.unwrap()
    }

    /// The sequence counter's current value, as readers load it.
    pub fn sequence_value(&self) -> (n: usize)
        ensures
            n == self.sequence(),
    {
        self.seq
    }

    /// Reads the data with its immutable reference, applying `f` to the
    /// payload under the validation protocol: load the counter, wait out
    /// an odd value, fence, read, fence, and confirm the counter is
    /// unchanged. Here the payload is borrowed shared for the whole call,
    /// so no writer can intervene: the waiting phase of the protocol is
    /// ruled out by the precondition and the validating reload is bound to
    /// agree, collapsing the retry loop to its single successful pass.
    pub fn read<F, I>(&self, f: F) -> (r: I) where F: Fn(&T) -> I
        requires
            self.wf(),
            !self.writer_active(),
            call_requires(f, (&self.value(),)),
        ensures
            call_ensures(f, (&self.value(),), r),
    {
        let start: usize = self.seq;
        read_fence();

        // Critical section: the snapshot `f` observes.
        let ret = f(self.data.as_ref().unwrap());

        read_fence();
        let end: usize = self.seq;
        // Validation: an unchanged counter means the snapshot did not
        // overlap a write.
        if start == end {
            ret
        } else {
            // The payload is borrowed shared for the whole call, so the
            // counter cannot have moved.
            vstd::pervasive::unreached()
        }
    }

    /// Tries to read the data with its immutable reference, in a single
    /// opportunistic load-validate pass: unlike [`SeqLock::read`], it does
    /// not wait out an in-progress writer first. The result is `Some` only
    /// if the counter is even and unchanged at both ends of the pass; a
    /// writer holding the guard therefore yields `None`, and the payload —
    /// checked out to that writer — is not touched at all.
    pub fn try_read<F, I>(&self, f: F) -> (r: Option<I>) where F: Fn(&T) -> I
        requires
            self.wf(),
            !self.writer_active() ==> call_requires(f, (&self.value(),)),
        ensures
            r is Some <==> !self.writer_active(),
            r is Some ==> call_ensures(f, (&self.value(),), r->Some_0),
    {
        let start: usize = self.seq;
        if start % 2 == 1 {
            // A writer is inside its critical section: the single
            // validation pass cannot see an even, unchanged counter.
            return None;
        }
        read_fence();

        // Critical section: the snapshot `f` observes.
        let ret = f(self.data.as_ref().unwrap());

        read_fence();
        let end: usize = self.seq;
        if start == end {
            Some(ret)
        } else {
            None
        }
    }

    /// Locks the [`SeqLock`] and returns a guard that permits mutable
    /// access to the inner data. The payload is checked out — at most one
    /// writer at a time — then the counter is incremented to odd, the
    /// signal to concurrent readers that a write is in progress, and a
    /// write fence publishes the increment before any payload mutation
    /// that follows.
    pub fn write(&mut self) -> (g: SeqLockGuard<T>)
        requires
            old(self).can_write(),
        ensures
            final(self).wf(),
            final(self).writer_active(),
            final(self).sequence() == old(self).sequence() + 1,
            final(self).sequence() > old(self).sequence(),
            final(self).completed_writes() == old(self).completed_writes(),
            g.sequence() == final(self).sequence(),
            g.value() == old(self).value(),
    {
        // Mutual exclusion: the payload leaves the lock, so a second
        // write-acquire cannot be permitted until it is given back.
        let data = self.data.take().unwrap();

        // Increase sequence number.
        self.seq = self.seq + 1;
        write_fence();

        SeqLockGuard { seq: self.seq, data }
    }

    /// Releases a guard acquired from this lock: a write fence publishes
    /// the payload mutations, the counter is incremented back to even —
    /// one more write completed — and only then is the payload put back,
    /// so exclusion is given up no earlier than the counter advance.
    pub fn release(&mut self, guard: SeqLockGuard<T>)
        requires
            old(self).wf(),
            old(self).writer_active(),
            guard.sequence() == old(self).sequence(),
        ensures
            final(self).wf(),
            !final(self).writer_active(),
            final(self).sequence() == old(self).sequence() + 1,
            final(self).sequence() > old(self).sequence(),
            final(self).completed_writes() == old(self).completed_writes() + 1,
            final(self).value() == guard.value(),
    {
        write_fence();
        self.seq = self.seq + 1;

        // Exclusion ends last: the payload returns after the increment.
        let SeqLockGuard { seq: _, data } = guard;
        self.data = Some(data);
    }

    /// The tag that debug formatting appends: a consistent snapshot was
    /// printed ("Real result"), or a writer was active and the value is
    /// indeterminate ("Uncertain result"). Decided the way a single
    /// [`SeqLock::try_read`] pass decides, so it never waits on a writer.
    pub fn debug_label(&self) -> (s: &'static str)
        ensures
            self.writer_active() ==> s@ == "Uncertain result"@,
            !self.writer_active() ==> s@ == "Real result"@,
    {
        if self.seq % 2 == 1 {
            "Uncertain result"
        } else {
            "Real result"
        }
    }
}

impl<T> SeqLockGuard<T> {
    /// The (odd) counter value published when this guard was created.
    pub closed spec fn sequence(&self) -> nat {
        self.seq as nat
    }

    /// The payload as the writer currently sees it.
    pub closed spec fn value(&self) -> T {
        self.data
    }

    /// Shared access to the payload through the guard.
    pub fn get(&self) -> (r: &T)
        ensures
            r == self.value(),
    {
        &self.data
    }

    /// Mutable access to the payload through the guard, with no further
    /// synchronization cost: the guard already holds exclusion.
    pub fn get_mut(&mut self) -> (r: &mut T)
        ensures
            *r == old(self).value(),
            final(self).value() == *final(r),
            final(self).sequence() == old(self).sequence(),
    {
        &mut self.data
    }
}

impl<T: Default> Default for SeqLock<T> {
    /// A lock wrapping a default-constructed value; no special semantics
    /// beyond [`SeqLock::new`].
    fn default() -> (r: Self)
        ensures
            r.wf(),
            r.sequence() == 0,
            !r.writer_active(),
    {
        Self::new(T::default())
    }
}

impl<T> From<T> for SeqLock<T> {
    /// A lock wrapping the given value; no special semantics beyond
    /// [`SeqLock::new`].
    fn from(data: T) -> (r: Self)
        ensures
            r.wf(),
            r.sequence() == 0,
            !r.writer_active(),
            r.value() == data,
    {
        Self::new(data)
    }
}

impl<T> vstd::std_specs::convert::FromSpecImpl<T> for SeqLock<T> {
    open spec fn obeys_from_spec() -> bool {
        true
    }

    closed spec fn from_spec(data: T) -> Self {
        SeqLock { seq: 0, data: Some(data) }
    }
}

/// Parity invariant: on any lock the counter is even exactly while no
/// writer is active, and it always equals twice the number of completed
/// writes, plus one exactly while a write is in progress.
pub proof fn lemma_parity_invariant<T>(l: SeqLock<T>)
    ensures
        !l.writer_active() <==> l.sequence() % 2 == 0,
        !l.writer_active() ==> l.sequence() == 2 * l.completed_writes(),
        l.writer_active() ==> l.sequence() == 2 * l.completed_writes() + 1,
{
}

/// Mutual exclusion: while a writer holds the guard, no second
/// write-acquisition is permitted.
pub proof fn lemma_mutual_exclusion<T>(l: SeqLock<T>)
    ensures
        l.writer_active() ==> !l.can_write(),
{
}

} // verus!
