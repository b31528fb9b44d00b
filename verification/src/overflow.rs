//! Fixed-capacity buffers: every access stays inside the buffer, and a copy
//! never writes more than the destination can hold.

use vstd::prelude::*;

verus! {

/// What a destination holds after the first `count` elements of `source`
/// were copied over its front: those elements, then its own from `count` on.
pub open spec fn copied_front<T>(source: Seq<T>, dest: Seq<T>, count: int) -> Seq<T>
    recommends
        0 <= count <= source.len(),
        count <= dest.len(),
{
    source.subrange(0, count) + dest.subrange(count, dest.len() as int)
}

/// The number of elements a bounded copy moves: the shorter of the two
/// lengths.
pub open spec fn bounded_count(source_len: nat, dest_len: nat) -> nat {
    if source_len <= dest_len {
        source_len
    } else {
        dest_len
    }
}

/// Copies as many elements from the front of `source` into the front of
/// `dest` as both can supply and hold, and returns how many were copied.
///
/// Elements of `dest` beyond the returned count keep their values, and the
/// length of `dest` never changes.
pub fn copy_bounded<T: Copy>(source: &[T], dest: &mut [T]) -> (count: usize)
    ensures
        count == bounded_count(source@.len(), old(dest)@.len()),
        final(dest)@.len() == old(dest)@.len(),
        final(dest)@ == copied_front(source@, old(dest)@, count as int),
        forall|i: int| 0 <= i < count ==> final(dest)@[i] == source@[i],
        forall|i: int| count <= i < old(dest)@.len() ==> final(dest)@[i] == old(dest)@[i],
{
    let to_copy: usize = if source.len() <= dest.len() {
        source.len()
    } else {
        dest.len()
    };
    let mut i: usize = 0;
    while i < to_copy
        invariant
            i <= to_copy,
            to_copy <= source@.len(),
            to_copy <= dest@.len(),
            dest@.len() == old(dest)@.len(),
            dest@ == copied_front(source@, old(dest)@, i as int),
        decreases to_copy - i,
    {
        dest[i] = source[i];
        i = i + 1;
    }
    to_copy
}

/// A buffer of exactly `N` bytes. Its slots are numbered from `0` to `N - 1`,
/// and no operation reaches any other slot.
pub struct FixedBuffer<const N: usize> {
    slots: [u8; N],
}

impl<const N: usize> View for FixedBuffer<N> {
    type V = Seq<u8>;

    closed spec fn view(&self) -> Seq<u8> {
        self.slots@
    }
}

impl<const N: usize> FixedBuffer<N> {
    /// A buffer whose `N` slots all hold zero.
    pub fn new() -> (buffer: Self)
        ensures
            buffer@ == Seq::new(N as nat, |i: int| 0u8),
    {
        let buffer = FixedBuffer { slots: [0u8; N] };
        assert(buffer.slots@ =~= Seq::new(N as nat, |i: int| 0u8));
        buffer
    }

    /// The number of slots, which never changes.
    pub fn capacity(&self) -> (capacity: usize)
        ensures
            capacity == N,
            capacity == self@.len(),
    {
        N
    }

    /// Reads the slot at `index`.
    pub fn get(&self, index: usize) -> (value: u8)
        requires
            index < N,
        ensures
            value == self@[index as int],
    {
        self.slots[index]
    }

    /// Writes `value` into the slot at `index` and leaves every other slot
    /// as it was.
    pub fn set(&mut self, index: usize, value: u8)
        requires
            index < N,
        ensures
            final(self)@ == old(self)@.update(index as int, value),
            final(self)@.len() == N,
            final(self)@[index as int] == value,
            forall|i: int| 0 <= i < N && i != index ==> final(self)@[i] == old(self)@[i],
    {
        self.slots[index] = value;
    }

    /// The buffer's bytes, in slot order.
    pub fn as_array(&self) -> (slots: &[u8; N])
        ensures
            slots@ == self@,
    {
        &self.slots
    }

    /// Every buffer holds exactly `N` bytes.
    pub proof fn lemma_len(self)
        ensures
            self@.len() == N,
    {
    }
}

} // verus!
