//! The slot buffer: storage for a number of slots, each holding a value or nothing.
//!
//! The buffer knows how many slots it has and nothing about which of them hold a
//! value. It grows on request and never shrinks.

use vstd::pervasive::runtime_assert;
use vstd::prelude::*;

verus! {

/// The capacity that a buffer of element type with nonzero size takes when it first
/// grows from empty, unless more is asked for.
pub const MIN_NON_ZERO_CAP: usize = 4;

/// True when values of `T` occupy no storage.
pub open spec fn is_zero_sized<T>() -> bool {
    vstd::layout::size_of::<T>() == 0
}

/// True when `n` slots of `T` can be addressed: their size in bytes is at most
/// `isize::MAX`.
pub open spec fn fits<T>(n: int) -> bool {
    n * vstd::layout::size_of::<T>() <= isize::MAX
}

/// The capacity that a buffer of capacity `cap` grows to when `required` slots are
/// needed and `cap` is too few: the larger of twice `cap` and `required`, and at
/// least `MIN_NON_ZERO_CAP` when the buffer was empty.
pub open spec fn grown_capacity(cap: int, required: int) -> int {
    let amortized = if 2 * cap >= required { 2 * cap } else { required };
    if cap == 0 && amortized < MIN_NON_ZERO_CAP { MIN_NON_ZERO_CAP as int } else { amortized }
}

/// The capacity of a buffer after `reserve(len, additional)`, given its capacity
/// `cap` before: unchanged when `cap` suffices, grown otherwise.
pub open spec fn capacity_after_reserve(cap: int, len: int, additional: int) -> int {
    if len + additional <= cap { cap } else { grown_capacity(cap, len + additional) }
}

/// True when `reserve(len, additional)` can be met on a buffer of capacity `cap`:
/// either `cap` suffices, or the elements have a size and the grown capacity can be
/// addressed. A buffer of zero-sized elements has every slot there is, so it can
/// never grow.
pub open spec fn can_reserve<T>(cap: int, len: int, additional: int) -> bool {
    len + additional <= cap || (!is_zero_sized::<T>() && fits::<T>(
        grown_capacity(cap, len + additional),
    ))
}

/// `n` slots that hold nothing.
pub open spec fn empty_slots<T>(n: int) -> Seq<Option<T>> {
    Seq::new(n as nat, |i: int| None::<T>)
}

/// A buffer of `capacity()` slots. A slot holds a value of `T` or nothing; the buffer
/// keeps no count of the slots that hold a value.
pub struct RawVec<T> {
    /// The slots that have been written so far, in order from slot 0. Every slot
    /// after them holds nothing.
    slots: std::vec::Vec<Option<T>>,
    cap: usize,
}

impl<T> View for RawVec<T> {
    type V = Seq<Option<T>>;

    /// The slots, one entry for each of the `capacity()` slots.
    closed spec fn view(&self) -> Seq<Option<T>> {
        Seq::new(
            self.cap as nat,
            |i: int| if i < self.slots@.len() { self.slots@[i] } else { None },
        )
    }
}

impl<T> RawVec<T> {
    /// The number of slots, as `capacity()` returns it.
    pub closed spec fn spec_capacity(&self) -> usize {
        self.cap
    }

    /// The representation holds no more slots than the capacity.
    pub closed spec fn inv(&self) -> bool {
        self.slots@.len() <= self.cap
    }

    /// Well-formedness: there is one slot for each unit of capacity; a buffer of
    /// zero-sized elements has capacity `usize::MAX`; any other has a capacity that
    /// can be addressed.
    pub open spec fn wf(&self) -> bool {
        &&& self.inv()
        &&& self@.len() == self.capacity()
        &&& is_zero_sized::<T>() ==> self.capacity() == usize::MAX
        &&& !is_zero_sized::<T>() ==> fits::<T>(self.capacity() as int)
    }

    /// The number of slots. For a zero-sized `T` this is `usize::MAX`, whatever was
    /// asked for.
    #[verifier::when_used_as_spec(spec_capacity)]
    pub fn capacity(&self) -> (cap: usize)
        ensures
            cap == self.spec_capacity(),
    {
        self.cap
    }

    /// A buffer that has allocated nothing: capacity 0, or `usize::MAX` for a
    /// zero-sized `T`.
    pub fn new() -> (buf: Self)
        ensures
            buf.wf(),
            buf.capacity() == (if is_zero_sized::<T>() { usize::MAX } else { 0 }),
            buf@ == empty_slots::<T>(buf.capacity() as int),
    {
        let cap: usize = if core::mem::size_of::<T>() == 0 { usize::MAX } else { 0 };
        let buf = RawVec { slots: std::vec::Vec::new(), cap };
        assert(buf@ =~= empty_slots::<T>(buf.capacity() as int));
        buf
    }

    /// A buffer with room for exactly `capacity` elements, none of its slots holding
    /// a value. For a zero-sized `T` nothing is allocated and the capacity is
    /// `usize::MAX`.
    ///
    /// The bound is also checked at run time, so that a caller that was not verified
    /// stops here.
    pub fn with_capacity(capacity: usize) -> (buf: Self)
        requires
            fits::<T>(capacity as int),
        ensures
            buf.wf(),
            buf.capacity() == (if is_zero_sized::<T>() { usize::MAX } else { capacity }),
            buf@ == empty_slots::<T>(buf.capacity() as int),
    {
        runtime_assert(slots_fit::<T>(capacity));
        if core::mem::size_of::<T>() == 0 {
            RawVec { slots: std::vec::Vec::new(), cap: usize::MAX }
        } else {
            RawVec { slots: std::vec::Vec::with_capacity(capacity), cap: capacity }
        }
    }

    /// As `with_capacity`. A slot of this buffer holds a value or nothing, never raw
    /// memory, so there are no bytes to clear: every slot starts out holding nothing.
    pub fn with_capacity_zeroed(capacity: usize) -> (buf: Self)
        requires
            fits::<T>(capacity as int),
        ensures
            buf.wf(),
            buf.capacity() == (if is_zero_sized::<T>() { usize::MAX } else { capacity }),
            buf@ == empty_slots::<T>(buf.capacity() as int),
    {
        Self::with_capacity(capacity)
    }

    /// Makes room for `len + additional` slots. Nothing happens when the capacity
    /// suffices. Otherwise the capacity grows to `grown_capacity`; the slots that
    /// were there keep what they hold and the new ones hold nothing.
    ///
    /// A request that cannot be met is left out by `requires`; it is also checked at
    /// run time, before anything changes.
    pub fn reserve(&mut self, len: usize, additional: usize)
        requires
            old(self).wf(),
            can_reserve::<T>(old(self).capacity() as int, len as int, additional as int),
        ensures
            final(self).wf(),
            final(self).capacity() == capacity_after_reserve(
                old(self).capacity() as int,
                len as int,
                additional as int,
            ),
            final(self).capacity() >= len + additional,
            final(self).capacity() >= old(self).capacity(),
            final(self)@ == old(self)@ + empty_slots::<T>(
                final(self).capacity() - old(self).capacity(),
            ),
    {
        proof {
            lemma_fits_bounds::<T>(self.cap as int);
            lemma_fits_bounds::<T>(grown_capacity(self.cap as int, len + additional));
        }
        runtime_assert(additional <= usize::MAX - len);
        let required: usize = len + additional;
        if required <= self.cap {
            return ;
        }
        let doubled: usize = self.cap * 2;
        let mut new_cap: usize = if doubled >= required { doubled } else { required };
        if self.cap == 0 && new_cap < MIN_NON_ZERO_CAP {
            new_cap = MIN_NON_ZERO_CAP;
        }
        runtime_assert(slots_fit::<T>(new_cap));
        self.slots.reserve(new_cap - self.slots.len());
        self.cap = new_cap;
    }

    /// Makes room for one slot more than `len`.
    pub fn reserve_for_push(&mut self, len: usize)
        requires
            old(self).wf(),
            can_reserve::<T>(old(self).capacity() as int, len as int, 1),
        ensures
            final(self).wf(),
            final(self).capacity() == capacity_after_reserve(
                old(self).capacity() as int,
                len as int,
                1,
            ),
            final(self).capacity() > len,
            final(self).capacity() >= old(self).capacity(),
            final(self)@ == old(self)@ + empty_slots::<T>(
                final(self).capacity() - old(self).capacity(),
            ),
    {
        self.reserve(len, 1);
    }

    /// Puts `value` into slot `index`. What the slot held before is dropped.
    pub fn write(&mut self, index: usize, value: T)
        requires
            old(self).wf(),
            index < old(self).capacity(),
        ensures
            final(self).wf(),
            final(self).capacity() == old(self).capacity(),
            final(self)@ == old(self)@.update(index as int, Some(value)),
    {
        while self.slots.len() < index
            invariant
                self.cap == old(self).cap,
                self.slots@.len() <= index || self.slots@.len() == old(self).slots@.len(),
                index < self.cap,
                self.slots@.len() <= self.cap,
                self@ == old(self)@,
            decreases index - self.slots@.len(),
        {
            self.slots.push(None);
        }
        if index == self.slots.len() {
            self.slots.push(Some(value));
        } else {
            self.slots.set(index, Some(value));
        }
    }

    /// Takes out what slot `index` holds and leaves the slot holding nothing.
    pub fn take(&mut self, index: usize) -> (value: Option<T>)
        requires
            old(self).wf(),
            index < old(self).capacity(),
        ensures
            final(self).wf(),
            final(self).capacity() == old(self).capacity(),
            value == old(self)@[index as int],
            final(self)@ == old(self)@.update(index as int, None),
    {
        if index < self.slots.len() {
            self.slots[index].take()
        } else {
            None
        }
    }

    /// A reference to the value in slot `index`, if it holds one.
    pub fn slot(&self, index: usize) -> (value: Option<&T>)
        requires
            self.wf(),
            index < self.capacity(),
        ensures
            value is Some <==> self@[index as int] is Some,
            value is Some ==> *value->0 == self@[index as int]->0,
    {
        if index < self.slots.len() {
            self.slots[index].as_ref()
        } else {
            None
        }
    }

    /// A mutable reference to the value in slot `index`, if it holds one. The slot
    /// holds in the end what the reference is left with; a slot that holds nothing
    /// stays so.
    pub fn slot_mut(&mut self, index: usize) -> (value: Option<&mut T>)
        requires
            old(self).wf(),
            index < old(self).capacity(),
        ensures
            final(self).wf(),
            final(self).capacity() == old(self).capacity(),
            (match old(self)@[index as int] {
                Some(held) => {
                    &&& value is Some
                    &&& *value.unwrap() == held
                    &&& final(self)@ == old(self)@.update(
                        index as int,
                        Some(*final(value.unwrap())),
                    )
                },
                None => value is None && final(self)@ == old(self)@,
            }),
    {
        if index < self.slots.len() {
            self.slots[index].as_mut()
        } else {
            None
        }
    }
}

/// Whether `n` slots of `T` can be addressed.
fn slots_fit<T>(n: usize) -> (ok: bool)
    ensures
        ok == fits::<T>(n as int),
{
    match n.checked_mul(core::mem::size_of::<T>()) {
        Some(bytes) => bytes <= isize::MAX as usize,
        None => false,
    }
}

/// A count of slots that can be addressed is at most `isize::MAX` when the element
/// has a size.
proof fn lemma_fits_bounds<T>(n: int)
    requires
        0 <= n,
    ensures
        !is_zero_sized::<T>() && fits::<T>(n) ==> n <= isize::MAX,
{
    if !is_zero_sized::<T>() {
        assert(n <= n * vstd::layout::size_of::<T>()) by (nonlinear_arith)
            requires
                0 <= n,
                vstd::layout::size_of::<T>() >= 1,
        ;
    }
}

} // verus!
