//! Setting the instance rows of a draw: vertex buffer slots and the instance count.

use vstd::prelude::*;

verus! {

/// The smaller of two numbers.
pub open spec fn min_u32(a: u32, b: u32) -> u32 {
    if a <= b {
        a
    } else {
        b
    }
}

/// Assigns vertex buffer slots to the rows of an instance and tracks the number of
/// instances: the length of its shortest row.
pub struct Setter {
    len: Option<u32>,
    slot: u32,
}

impl Setter {
    pub closed spec fn rows_len(&self) -> Option<u32> {
        self.len
    }

    pub closed spec fn next_free_slot(&self) -> u32 {
        self.slot
    }

    /// A setter whose first row takes the given slot.
    pub fn new(slot: u32) -> (s: Self)
        ensures
            s.rows_len() is None,
            s.next_free_slot() == slot,
    {
        Setter { len: None, slot }
    }

    /// The number of instances: the length of the shortest row, zero when there is none.
    pub fn len(&self) -> (n: u32)
        ensures
            n == match self.rows_len() {
                Some(l) => l,
                None => 0,
            },
    {
        match self.len {
            Some(l) => l,
            None => 0,
        }
    }

    /// Takes the next slot.
    pub fn next_slot(&mut self) -> (s: u32)
        requires
            old(self).next_free_slot() < u32::MAX,
        ensures
            s == old(self).next_free_slot(),
            final(self).next_free_slot() == old(self).next_free_slot() + 1,
            final(self).rows_len() == old(self).rows_len(),
    {
        let next = self.slot;
        self.slot = self.slot + 1;
        next
    }

    /// Records a row of the given length.
    pub fn update_len(&mut self, len: u32)
        ensures
            final(self).rows_len() == Some(
                match old(self).rows_len() {
                    Some(l) => min_u32(l, len),
                    None => len,
                },
            ),
            final(self).next_free_slot() == old(self).next_free_slot(),
    {
        let current = match self.len {
            Some(l) => l,
            None => len,
        };
        self.len = Some(if current <= len {
            current
        } else {
            len
        });
    }

    /// Sets a row of the given length: records its length and returns its slot.
    pub fn set_member(&mut self, row_len: u32) -> (slot: u32)
        requires
            old(self).next_free_slot() < u32::MAX,
        ensures
            slot == old(self).next_free_slot(),
            final(self).next_free_slot() == old(self).next_free_slot() + 1,
            final(self).rows_len() == Some(
                match old(self).rows_len() {
                    Some(l) => min_u32(l, row_len),
                    None => row_len,
                },
            ),
    {
        self.update_len(row_len);
        self.next_slot()
    }
}

/// The number of instances of rows of the given lengths: the shortest, or zero.
pub open spec fn instances_of(lens: Seq<u32>) -> u32
    decreases lens.len(),
{
    if lens.len() == 0 {
        0
    } else if lens.len() == 1 {
        lens[0]
    } else {
        min_u32(instances_of(lens.drop_last()), lens.last())
    }
}

/// Sets rows of the given lengths from the slot `slot` on; returns the number of
/// instances, which is the length of the shortest row.
pub fn set(slot: u32, lens: &[u32]) -> (r: (u32, u32))
    requires
        slot + lens@.len() <= u32::MAX,
    ensures
        r.0 == instances_of(lens@),
        r.1 == slot + lens@.len(),
{
    let mut setter = Setter::new(slot);
    let mut i: usize = 0;
    while i < lens.len()
        invariant
            slot + lens@.len() <= u32::MAX,
            i <= lens@.len(),
            setter.next_free_slot() == slot + i,
            i == 0 ==> setter.rows_len() is None,
            i > 0 ==> setter.rows_len() == Some(instances_of(lens@.take(i as int))),
        decreases lens@.len() - i,
    {
        assert(lens@.take(i + 1).drop_last() =~= lens@.take(i as int));
        setter.set_member(lens[i]);
        i = i + 1;
    }
    assert(lens@.take(i as int) =~= lens@);
    (setter.len(), setter.next_free_slot_exec())
}

impl Setter {
    /// The next free slot.
    pub fn next_free_slot_exec(&self) -> (s: u32)
        ensures
            s == self.next_free_slot(),
    {
        self.slot
    }
}

} // verus!
