//! The growable array: a slot buffer and the count of its live elements.
//!
//! The first `len()` slots of the buffer hold the elements, in order. The array asks
//! the buffer for more capacity only when a new element finds no free slot.

use crate::raw_vec::{
    can_reserve, capacity_after_reserve, empty_slots, fits, is_zero_sized, RawVec,
};
use vstd::pervasive::runtime_assert;
use vstd::prelude::*;

verus! {

/// A growable array of `T`. Its view is the sequence of its live elements.
pub struct Vec<T> {
    buf: RawVec<T>,
    len: usize,
}

impl<T> View for Vec<T> {
    type V = Seq<T>;

    /// The live elements: what the first `len()` slots hold.
    open spec fn view(&self) -> Seq<T> {
        Seq::new(self.len() as nat, |i: int| self.slots()[i].unwrap())
    }
}

impl<T> Vec<T> {
    /// The buffer behind the array.
    pub closed spec fn buffer(&self) -> RawVec<T> {
        self.buf
    }

    /// All slots of the buffer, the live ones and those past them.
    pub open spec fn slots(&self) -> Seq<Option<T>> {
        self.buffer()@
    }

    /// The number of live elements, as `len()` returns it.
    pub closed spec fn spec_len(&self) -> usize {
        self.len
    }

    /// The number of slots of the buffer, as `capacity()` returns it.
    pub open spec fn spec_capacity(&self) -> usize {
        self.buffer().capacity()
    }

    /// Well-formedness: the buffer is well-formed, the length is within the capacity,
    /// and each of the first `len()` slots holds a value.
    pub open spec fn wf(&self) -> bool {
        &&& self.buffer().wf()
        &&& self.len() <= self.capacity()
        &&& forall|i: int| 0 <= i < self.len() ==> (#[trigger] self.slots()[i]) is Some
    }

    /// True when one more element can be taken in: a slot is free, or the buffer can
    /// grow by the rule of `reserve`.
    pub open spec fn can_push(&self) -> bool {
        can_reserve::<T>(self.capacity() as int, self.len() as int, 1)
    }

    /// An empty array that has allocated nothing.
    pub fn new() -> (v: Self)
        ensures
            v.wf(),
            v@ == Seq::<T>::empty(),
            v.len() == 0,
            v.capacity() == (if is_zero_sized::<T>() { usize::MAX } else { 0 }),
            v.slots() == empty_slots::<T>(v.capacity() as int),
    {
        Vec { buf: RawVec::new(), len: 0 }
    }

    /// An empty array with room for exactly `capacity` elements.
    pub fn with_capacity(capacity: usize) -> (v: Self)
        requires
            fits::<T>(capacity as int),
        ensures
            v.wf(),
            v@ == Seq::<T>::empty(),
            v.len() == 0,
            v.capacity() == (if is_zero_sized::<T>() { usize::MAX } else { capacity }),
            v.slots() == empty_slots::<T>(v.capacity() as int),
    {
        Vec { buf: RawVec::with_capacity(capacity), len: 0 }
    }

    /// As `with_capacity`: the slots of the new array hold nothing.
    pub fn with_capacity_zeroed(capacity: usize) -> (v: Self)
        requires
            fits::<T>(capacity as int),
        ensures
            v.wf(),
            v@ == Seq::<T>::empty(),
            v.len() == 0,
            v.capacity() == (if is_zero_sized::<T>() { usize::MAX } else { capacity }),
            v.slots() == empty_slots::<T>(v.capacity() as int),
    {
        Vec { buf: RawVec::with_capacity_zeroed(capacity), len: 0 }
    }

    /// The number of live elements.
    #[verifier::when_used_as_spec(spec_len)]
    pub fn len(&self) -> (len: usize)
        ensures
            len == self.spec_len(),
            len == self@.len(),
    {
        self.len
    }

    /// The number of slots of the buffer.
    #[verifier::when_used_as_spec(spec_capacity)]
    pub fn capacity(&self) -> (cap: usize)
        ensures
            cap == self.spec_capacity(),
    {
        self.buf.capacity()
    }

    /// The buffer of the array, to read its slots through.
    pub fn as_ptr(&self) -> (buf: &RawVec<T>)
        ensures
            *buf == self.buffer(),
    {
        &self.buf
    }

    /// The buffer of the array, to change its slots through. The array has in the
    /// end the buffer that the reference is left with, and the length it had. It is
    /// well-formed then only if each of its first `len()` slots still holds a value
    /// and the capacity still covers them: that is the caller's to see to.
    pub fn as_mut_ptr(&mut self) -> (buf: &mut RawVec<T>)
        ensures
            *buf == old(self).buffer(),
            final(self).buffer() == *final(buf),
            final(self).len() == old(self).len(),
    {
        &mut self.buf
    }

    /// Sets the length to `len` and touches no slot. The array is well-formed
    /// afterwards only if each of the first `len` slots holds a value: that is the
    /// caller's to see to.
    ///
    /// The bound is also checked at run time.
    pub fn set_len(&mut self, len: usize)
        requires
            len <= old(self).capacity(),
        ensures
            final(self).len() == len,
            final(self).buffer() == old(self).buffer(),
    {
        runtime_assert(len <= self.capacity());
        self.len = len;
    }

    /// Appends `value`. The buffer grows first if no slot is free.
    pub fn push(&mut self, value: T)
        requires
            old(self).wf(),
            old(self).can_push(),
        ensures
            final(self).wf(),
            final(self)@ == old(self)@.push(value),
            final(self).len() == old(self).len() + 1,
            final(self).capacity() == capacity_after_reserve(
                old(self).capacity() as int,
                old(self).len() as int,
                1,
            ),
            final(self).slots() == (old(self).slots() + empty_slots::<T>(
                final(self).capacity() - old(self).capacity(),
            )).update(old(self).len() as int, Some(value)),
    {
        if self.len == self.capacity() {
            self.buf.reserve_for_push(self.len);
        }
        self.buf.write(self.len, value);
        self.len += 1;
    }

    /// Takes the last element out, if there is one.
    pub fn pop(&mut self) -> (value: Option<T>)
        requires
            old(self).wf(),
        ensures
            final(self).wf(),
            final(self).capacity() == old(self).capacity(),
            old(self).len() == 0 ==> ({
                &&& value is None
                &&& final(self)@ == old(self)@
                &&& final(self).len() == 0
                &&& final(self).slots() == old(self).slots()
            }),
            old(self).len() > 0 ==> ({
                &&& value == Some(old(self)@.last())
                &&& final(self)@ == old(self)@.drop_last()
                &&& final(self).len() == old(self).len() - 1
                &&& final(self).slots() == old(self).slots().update(old(self).len() - 1, None)
            }),
    {
        if self.len == 0 {
            return None;
        }
        self.len -= 1;
        self.buf.take(self.len)
    }

    /// Puts `element` at `index` and moves each element from `index` on one place
    /// to the right. The buffer grows first if no slot is free.
    ///
    /// The bound on `index` is also checked at run time, before anything changes.
    pub fn insert(&mut self, index: usize, element: T)
        requires
            old(self).wf(),
            index <= old(self).len(),
            old(self).can_push(),
        ensures
            final(self).wf(),
            final(self)@ == old(self)@.insert(index as int, element),
            final(self).len() == old(self).len() + 1,
            final(self).capacity() == capacity_after_reserve(
                old(self).capacity() as int,
                old(self).len() as int,
                1,
            ),
            final(self).slots() == (old(self).slots() + empty_slots::<T>(
                final(self).capacity() - old(self).capacity(),
            )).remove(old(self).len() as int).insert(index as int, Some(element)),
    {
        let len: usize = self.len();
        runtime_assert(index <= len);
        if len == self.capacity() {
            self.buf.reserve(len, 1);
        }
        let ghost grown = self.buf@;
        let mut i: usize = len;
        while i > index
            invariant
                index <= i <= len,
                self.len == len,
                len < self.buf.capacity(),
                self.buf.wf(),
                self.buf@.len() == grown.len(),
                forall|j: int| 0 <= j < i ==> self.buf@[j] == grown[j],
                forall|j: int| i < j <= len ==> self.buf@[j] == grown[j - 1],
                forall|j: int| len < j < grown.len() ==> self.buf@[j] == grown[j],
                forall|j: int| 0 <= j < len ==> (#[trigger] grown[j]) is Some,
            decreases i,
        {
            assert(grown[i - 1] is Some);
            let moved = self.buf.take(i - 1);
            self.buf.write(i, moved.unwrap());
            i -= 1;
        }
        self.buf.write(index, element);
        self.set_len(len + 1);
        assert(self.slots() =~= grown.remove(len as int).insert(index as int, Some(element)));
    }

    /// Takes the element at `index` out and moves each element after it one place
    /// to the left, so that the others keep their order.
    ///
    /// The bound on `index` is also checked at run time, before anything changes.
    pub fn remove(&mut self, index: usize) -> (value: T)
        requires
            old(self).wf(),
            index < old(self).len(),
        ensures
            final(self).wf(),
            value == old(self)@[index as int],
            final(self)@ == old(self)@.remove(index as int),
            final(self).len() == old(self).len() - 1,
            final(self).capacity() == old(self).capacity(),
            final(self).slots() == old(self).slots().remove(index as int).insert(
                old(self).len() - 1,
                None,
            ),
    {
        let len: usize = self.len();
        runtime_assert(index < len);
        let value = self.buf.take(index).unwrap();
        let mut i: usize = index;
        while i + 1 < len
            invariant
                index <= i < len,
                self.len == len,
                len <= self.buf.capacity(),
                self.buf.wf(),
                self.buf@.len() == old(self).slots().len(),
                forall|j: int| 0 <= j < index ==> self.buf@[j] == old(self).slots()[j],
                forall|j: int| index <= j < i ==> self.buf@[j] == old(self).slots()[j + 1],
                self.buf@[i as int] is None,
                forall|j: int|
                    i < j < self.buf@.len() ==> self.buf@[j] == old(self).slots()[j],
                forall|j: int| 0 <= j < len ==> (#[trigger] old(self).slots()[j]) is Some,
            decreases len - i,
        {
            assert(old(self).slots()[i + 1] is Some);
            let moved = self.buf.take(i + 1);
            self.buf.write(i, moved.unwrap());
            i += 1;
        }
        self.set_len(len - 1);
        assert(self.slots() =~= old(self).slots().remove(index as int).insert(len - 1, None));
        value
    }

    /// Takes the element at `index` out and puts the last element in its place,
    /// unless it was the last itself. The order of the others is not kept.
    ///
    /// The bound on `index` is also checked at run time, before anything changes.
    pub fn swap_remove(&mut self, index: usize) -> (value: T)
        requires
            old(self).wf(),
            index < old(self).len(),
        ensures
            final(self).wf(),
            value == old(self)@[index as int],
            final(self)@ == old(self)@.update(index as int, old(self)@.last()).drop_last(),
            final(self).len() == old(self).len() - 1,
            final(self).capacity() == old(self).capacity(),
            final(self).slots() == old(self).slots().update(
                index as int,
                old(self).slots()[old(self).len() - 1],
            ).update(old(self).len() - 1, None),
    {
        let len: usize = self.len();
        runtime_assert(index < len);
        let value = self.buf.take(index).unwrap();
        if index != len - 1 {
            let last = self.buf.take(len - 1);
            self.buf.write(index, last.unwrap());
        }
        self.set_len(len - 1);
        value
    }

    /// A reference to the element at `index`, or nothing when `index` is not below
    /// the length.
    pub fn get(&self, index: usize) -> (element: Option<&T>)
        requires
            self.wf(),
        ensures
            index < self.len() ==> element == Some(&self@[index as int]),
            index >= self.len() ==> element is None,
    {
        if index < self.len {
            self.as_ptr().slot(index)
        } else {
            None
        }
    }

    /// A mutable reference to the element at `index`, or nothing when `index` is
    /// not below the length. The element is in the end what the reference is left
    /// with; nothing else changes.
    pub fn get_mut(&mut self, index: usize) -> (element: Option<&mut T>)
        requires
            old(self).wf(),
        ensures
            final(self).wf(),
            final(self).len() == old(self).len(),
            final(self).capacity() == old(self).capacity(),
            index < old(self).len() ==> ({
                &&& element is Some
                &&& *element.unwrap() == old(self)@[index as int]
                &&& final(self)@ == old(self)@.update(index as int, *final(element.unwrap()))
                &&& final(self).slots() == old(self).slots().update(
                    index as int,
                    Some(*final(element.unwrap())),
                )
            }),
            index >= old(self).len() ==> ({
                &&& element is None
                &&& final(self)@ == old(self)@
                &&& final(self).slots() == old(self).slots()
            }),
    {
        if index < self.len {
            self.as_mut_ptr().slot_mut(index)
        } else {
            None
        }
    }
}

} // verus!
