//! Fixed-capacity circular byte queue with reject-on-full / reject-on-empty
//! semantics.
//!
//! This is the storage that the streaming bridge splits into a producer side
//! and a consumer side: the producer only ever writes the head, the consumer
//! only ever reads the tail, a full buffer rejects writes and an empty buffer
//! rejects reads. Nothing blocks and nothing is overwritten.

use vstd::prelude::*;

verus! {

/// A circular queue of bytes whose capacity is fixed when it is created.
///
/// The abstract state (`self@`) is the sequence of queued bytes, oldest first.
pub struct RingBuffer {
    /// Backing storage; its length is the capacity and never changes.
    storage: Vec<u8>,
    /// Index of the oldest queued byte.
    start: usize,
    /// Number of queued bytes.
    len: usize,
}

/// The sequence a push leaves behind: the byte is appended when there is room,
/// and the queue is unchanged when it is full.
pub open spec fn push_result(s: Seq<u8>, capacity: nat, byte: u8) -> Seq<u8> {
    if s.len() < capacity {
        s.push(byte)
    } else {
        s
    }
}

/// The sequence left after pushing `items` one by one, in order.
pub open spec fn fill(s: Seq<u8>, capacity: nat, items: Seq<u8>) -> Seq<u8>
    decreases items.len(),
{
    if items.len() == 0 {
        s
    } else {
        fill(push_result(s, capacity, items[0]), capacity, items.skip(1))
    }
}

impl RingBuffer {
    #[verifier::type_invariant]
    spec fn wf(self) -> bool {
        &&& self.len <= self.storage.len()
        &&& (self.storage.len() == 0 ==> self.start == 0)
        &&& (self.storage.len() > 0 ==> self.start < self.storage.len())
    }

    /// Number of bytes the queue can hold at once.
    pub closed spec fn capacity_spec(self) -> nat {
        self.storage.len() as nat
    }

    /// Creates an empty queue that can hold `capacity` bytes.
    pub fn with_capacity(capacity: usize) -> (r: Self)
        ensures
            r@ == Seq::<u8>::empty(),
            r.capacity_spec() == capacity,
    {
        let mut storage: Vec<u8> = Vec::new();
        while storage.len() < capacity
            invariant
                storage.len() <= capacity,
            decreases capacity - storage.len(),
        {
            storage.push(0);
        }
        RingBuffer { storage, start: 0, len: 0 }
    }

    /// Number of queued bytes.
    pub fn len(&self) -> (r: usize)
        ensures
            r == self@.len(),
    {
        proof {
            use_type_invariant(self);
        }
        self.len
    }

    /// Number of bytes the queue can hold at once.
    pub fn capacity(&self) -> (r: usize)
        ensures
            r == self.capacity_spec(),
    {
        self.storage.len()
    }

    /// True when nothing is queued; a pop would be rejected.
    pub fn is_empty(&self) -> (r: bool)
        ensures
            r == (self@.len() == 0),
    {
        proof {
            use_type_invariant(self);
        }
        self.len == 0
    }

    /// True when the queue is at capacity; a push would be rejected.
    pub fn is_full(&self) -> (r: bool)
        ensures
            r == (self@.len() == self.capacity_spec()),
    {
        proof {
            use_type_invariant(self);
        }
        self.len == self.storage.len()
    }

    /// Appends `byte` at the head, or rejects it (returning it back) when the
    /// queue is full. The queue is never overwritten and the call never blocks.
    pub fn push(&mut self, byte: u8) -> (r: Result<(), u8>)
        ensures
            old(self)@.len() <= old(self).capacity_spec(),
            final(self).capacity_spec() == old(self).capacity_spec(),
            final(self)@ == push_result(old(self)@, old(self).capacity_spec(), byte),
            old(self)@.len() < old(self).capacity_spec() ==> r == Ok::<(), u8>(()),
            old(self)@.len() == old(self).capacity_spec() ==> r == Err::<(), u8>(byte),
    {
        proof {
            use_type_invariant(&*self);
        }
        if self.len == self.storage.len() {
            return Err(byte);
        }
        let cap: usize = self.storage.len();
        let idx: usize = if self.len < cap - self.start {
            self.start + self.len
        } else {
            self.len - (cap - self.start)
        };
        self.storage[idx] = byte;
        self.len = self.len + 1;
        proof {
            assert(self@ =~= old(self)@.push(byte)) by {
                let rot_old = old(self).storage@.skip(old(self).start as int) + old(
                    self,
                ).storage@.take(old(self).start as int);
                let rot_new = self.storage@.skip(self.start as int) + self.storage@.take(
                    self.start as int,
                );
                assert forall|i: int| 0 <= i < self.len implies rot_new[i] == old(self)@.push(
                    byte,
                )[i] by {
                    if i < cap - self.start {
                        assert(rot_new[i] == self.storage@[self.start + i]);
                    } else {
                        assert(rot_new[i] == self.storage@[i - (cap - self.start)]);
                    }
                }
            }
        }
        Ok(())
    }

    /// Removes and returns the oldest queued byte, or rejects the read
    /// (returning `None`) when the queue is empty. Never blocks.
    pub fn pop(&mut self) -> (r: Option<u8>)
        ensures
            final(self).capacity_spec() == old(self).capacity_spec(),
            old(self)@.len() == 0 ==> r is None && final(self)@ == old(self)@,
            old(self)@.len() > 0 ==> r == Some(old(self)@[0]) && final(self)@ == old(self)@.skip(1),
    {
        proof {
            use_type_invariant(&*self);
        }
        if self.len == 0 {
            return None;
        }
        let byte: u8 = self.storage[self.start];
        self.start = if self.start + 1 == self.storage.len() {
            0
        } else {
            self.start + 1
        };
        self.len = self.len - 1;
        proof {
            assert(self@ =~= old(self)@.skip(1)) by {
                let cap = old(self).storage.len() as int;
                assert forall|i: int| 0 <= i < self.len implies self@[i] == old(self)@.skip(1)[i] by {
                    if i < cap - self.start {
                        assert(self@[i] == self.storage@[self.start + i]);
                    } else {
                        assert(self@[i] == self.storage@[i - (cap - self.start)]);
                    }
                    if i + 1 < cap - old(self).start {
                        assert(old(self)@[i + 1] == old(self).storage@[old(self).start + i + 1]);
                    } else {
                        assert(old(self)@[i + 1] == old(self).storage@[i + 1 - (cap - old(
                            self,
                        ).start)]);
                    }
                }
            }
        }
        Some(byte)
    }

    /// Law: starting from any queue with room for all of them, a run of pushes
    /// is accepted in full and appends the items in order. In particular a
    /// queue of capacity `n` accepts `n` pushes from empty.
    pub proof fn lemma_fill_succeeds(s: Seq<u8>, capacity: nat, items: Seq<u8>)
        requires
            s.len() + items.len() <= capacity,
        ensures
            fill(s, capacity, items) == s + items,
        decreases items.len(),
    {
        if items.len() == 0 {
            assert(s + items =~= s);
        } else {
            Self::lemma_fill_succeeds(s.push(items[0]), capacity, items.skip(1));
            assert(s.push(items[0]) + items.skip(1) =~= s + items);
        }
    }

    /// Law: a full queue rejects a further push and is left unchanged, and
    /// after draining a single byte the next push is accepted.
    pub proof fn lemma_drain_then_push(s: Seq<u8>, capacity: nat, byte: u8)
        requires
            s.len() == capacity,
            capacity > 0,
        ensures
            push_result(s, capacity, byte) == s,
            push_result(s.skip(1), capacity, byte) == s.skip(1).push(byte),
    {
    }
}

impl View for RingBuffer {
    type V = Seq<u8>;

    /// The queued bytes, oldest first.
    closed spec fn view(&self) -> Seq<u8> {
        (self.storage@.skip(self.start as int) + self.storage@.take(self.start as int)).take(
            self.len as int,
        )
    }
}

} // verus!
