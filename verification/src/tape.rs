//! The growable storage medium: a sequence of boolean cells, a high-water
//! mark of visited cells, and an explicit allocated capacity that grows by
//! exact doubling.

use vstd::prelude::*;

verus! {

/// The mathematical content of a tape: its cells, its high-water mark, and
/// its allocated capacity.
pub ghost struct TapeView {
    pub data: Seq<bool>,
    pub count: nat,
    pub capacity: nat,
}

impl TapeView {
    /// Tape well-formedness: the capacity bookkeeping matches the allocated
    /// cells, the high-water mark never exceeds the capacity, and the
    /// capacity is positive (so that doubling makes progress).
    pub open spec fn wf(self) -> bool {
        &&& self.capacity == self.data.len()
        &&& self.count <= self.capacity
        &&& self.capacity >= 1
    }
}

/// A tape whose capacity has just been doubled: the new cells are a
/// deterministic `false`, never random, so that runs stay reproducible.
pub open spec fn doubled(t: TapeView) -> TapeView {
    TapeView {
        data: t.data + Seq::new(t.capacity, |i: int| false),
        count: t.count,
        capacity: t.capacity * 2,
    }
}

/// The tape deterministically seeded from a string of bytes: one cell per
/// byte, `true` exactly for the byte `'1'`, with the high-water mark and the
/// capacity both set to the seed's length.
pub open spec fn seed_tape(seed: Seq<u8>) -> TapeView {
    TapeView {
        data: Seq::new(seed.len(), |i: int| seed[i] == 49u8),
        count: seed.len(),
        capacity: seed.len(),
    }
}

/// The growable cell storage and its size bookkeeping.
pub struct Tape {
    pub data: Vec<bool>,
    pub count: usize,
    pub capacity: usize,
}

impl View for Tape {
    type V = TapeView;

    open spec fn view(&self) -> TapeView {
        TapeView { data: self.data@, count: self.count as nat, capacity: self.capacity as nat }
    }
}

/// Relies on `rand::random::<bool>()`: draws one boolean from the thread-local
/// generator. Nothing is promised of its value.
#[verifier::external_body]
fn draw_random_bool() -> bool {
    rand::random()
}

impl Tape {
    /// A fresh all-`false` tape of the given capacity, with the high-water
    /// mark covering the whole initial allocation.
    pub fn with_capacity(capacity: usize) -> (t: Tape)
        requires
            capacity >= 1,
        ensures
            t@ == (TapeView {
                data: Seq::new(capacity as nat, |i: int| false),
                count: capacity as nat,
                capacity: capacity as nat,
            }),
            t@.wf(),
    {
        let mut data: Vec<bool> = Vec::new();
        while data.len() < capacity
            invariant
                data@.len() <= capacity,
                forall|i: int| 0 <= i < data@.len() ==> data@[i] == false,
            decreases capacity - data@.len(),
        {
            data.push(false);
        }
        let t = Tape { data, count: capacity, capacity };
        proof {
            assert(t@.data =~= Seq::new(capacity as nat, |i: int| false));
        }
        t
    }

    /// A tape deterministically seeded from a byte string: capacity and
    /// high-water mark equal the seed's length, and each cell is `true`
    /// exactly where the seed holds the byte `'1'`.
    pub fn from_seed(seed: &Vec<u8>) -> (t: Tape)
        requires
            seed@.len() >= 1,
        ensures
            t@ == seed_tape(seed@),
            t@.wf(),
    {
        let mut data: Vec<bool> = Vec::new();
        let mut i: usize = 0;
        while i < seed.len()
            invariant
                i <= seed@.len(),
                data@.len() == i,
                forall|j: int| 0 <= j < i ==> data@[j] == (seed@[j] == 49u8),
            decreases seed@.len() - i,
        {
            data.push(seed[i] == 49u8);
            i = i + 1;
        }
        let t = Tape { data, count: seed.len(), capacity: seed.len() };
        proof {
            assert(t@.data =~= seed_tape(seed@).data);
        }
        t
    }

    /// Exact doubling: extend the cells to twice the current capacity, the
    /// new cells all `false`, and update the capacity bookkeeping to match.
    pub(crate) fn grow(&mut self)
        requires
            old(self)@.wf(),
            old(self).capacity <= usize::MAX / 2,
        ensures
            final(self)@ == doubled(old(self)@),
            final(self)@.wf(),
    {
        let new_capacity = self.capacity * 2;
        while self.data.len() < new_capacity
            invariant
                old(self)@.capacity <= self.data@.len() <= new_capacity,
                new_capacity == old(self)@.capacity * 2,
                self.data@.subrange(0, old(self)@.capacity as int) == old(self)@.data,
                forall|i: int|
                    old(self)@.capacity <= i < self.data@.len() ==> self.data@[i] == false,
                self.count == old(self).count,
                self.capacity == old(self).capacity,
            decreases new_capacity - self.data@.len(),
        {
            proof {
                assert(self.data@.push(false).subrange(0, old(self)@.capacity as int)
                    =~= self.data@.subrange(0, old(self)@.capacity as int));
            }
            self.data.push(false);
        }
        self.capacity = new_capacity;
        proof {
            assert(self@.data =~= doubled(old(self)@).data);
        }
    }

    /// Fill every cell with an independently drawn boolean. Only the cell
    /// values change; the size bookkeeping is untouched. Used only at
    /// initialization, never during execution.
    pub fn tape_randomize(&mut self)
        ensures
            final(self)@.data.len() == old(self)@.data.len(),
            final(self).count == old(self).count,
            final(self).capacity == old(self).capacity,
    {
        let mut i: usize = 0;
        while i < self.data.len()
            invariant
                self.data@.len() == old(self)@.data.len(),
                self.count == old(self).count,
                self.capacity == old(self).capacity,
            decreases self.data@.len() - i,
        {
            let b = draw_random_bool();
            self.data.set(i, b);
            i = i + 1;
        }
    }
}

} // verus!
