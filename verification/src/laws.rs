//! What holds of the array across calls, stated over the views and the spec
//! functions that the contracts of its operations use.

use crate::raw_vec::{can_reserve, capacity_after_reserve, is_zero_sized, MIN_NON_ZERO_CAP};
use crate::vec::Vec;
use vstd::prelude::*;

verus! {

/// The elements after each of `values` is pushed in turn onto an array that holds `s`.
pub open spec fn push_all<T>(s: Seq<T>, values: Seq<T>) -> Seq<T>
    decreases values.len(),
{
    if values.len() == 0 {
        s
    } else {
        push_all(s.push(values.first()), values.drop_first())
    }
}

/// The elements left after `n` pops from an array that holds `s`.
pub open spec fn after_pops<T>(s: Seq<T>, n: nat) -> Seq<T>
    decreases n,
{
    if n == 0 || s.len() == 0 {
        s
    } else {
        after_pops(s.drop_last(), (n - 1) as nat)
    }
}

/// What `n` pops from an array that holds `s` return, the first pop first. A pop
/// from an empty array returns nothing and is not listed.
pub open spec fn popped<T>(s: Seq<T>, n: nat) -> Seq<T>
    decreases n,
{
    if n == 0 || s.len() == 0 {
        Seq::empty()
    } else {
        seq![s.last()] + popped(s.drop_last(), (n - 1) as nat)
    }
}

/// The capacity after `n` pushes onto an array of capacity `cap` and length `len`.
pub open spec fn capacity_after_pushes(cap: int, len: int, n: nat) -> int
    decreases n,
{
    if n == 0 {
        cap
    } else {
        capacity_after_pushes(capacity_after_reserve(cap, len, 1), len + 1, (n - 1) as nat)
    }
}

/// True of `MIN_NON_ZERO_CAP` and of what comes of doubling it any number of times.
pub open spec fn is_doubled_min_cap(cap: int) -> bool
    decreases cap,
{
    cap == MIN_NON_ZERO_CAP || (cap > MIN_NON_ZERO_CAP && cap % 2 == 0 && is_doubled_min_cap(
        cap / 2,
    ))
}

/// Pushing `values` one by one onto `s` gives `s` followed by `values`: the length
/// grows by their number, and each value is read back at its place, in the order
/// pushed.
pub proof fn lemma_push_all<T>(s: Seq<T>, values: Seq<T>)
    ensures
        push_all(s, values) == s + values,
        push_all(s, values).len() == s.len() + values.len(),
        forall|i: int|
            0 <= i < values.len() ==> (#[trigger] push_all(s, values)[s.len() + i]) == values[i],
    decreases values.len(),
{
    if values.len() > 0 {
        lemma_push_all(s.push(values.first()), values.drop_first());
    }
}

/// After any number of pushes the capacity is at least the length, and no less than
/// it was.
pub proof fn lemma_capacity_after_pushes(cap: int, len: int, n: nat)
    requires
        0 <= len <= cap,
    ensures
        capacity_after_pushes(cap, len, n) >= len + n,
        capacity_after_pushes(cap, len, n) >= cap,
    decreases n,
{
    if n > 0 {
        lemma_capacity_after_pushes(capacity_after_reserve(cap, len, 1), len + 1, (n - 1) as nat);
    }
}

/// A reserve never lowers the capacity and always makes the room asked for. The
/// capacity stays as it is, doubles, becomes exactly what was asked for, or, from
/// empty, becomes `MIN_NON_ZERO_CAP`.
pub proof fn lemma_reserve_steps(cap: int, len: int, additional: int)
    requires
        0 <= cap,
    ensures
        ({
            let after = capacity_after_reserve(cap, len, additional);
            &&& after >= cap
            &&& after >= len + additional
            &&& (after == cap || after == 2 * cap || after == len + additional || (cap == 0
                && after == MIN_NON_ZERO_CAP))
        }),
{
}

/// The first push onto an empty array without capacity, of elements that have a
/// size, gives the capacity `MIN_NON_ZERO_CAP`.
pub proof fn lemma_first_push_capacity()
    ensures
        capacity_after_pushes(0, 0, 1) == MIN_NON_ZERO_CAP,
{
    reveal_with_fuel(capacity_after_pushes, 2);
}

/// After `n` pushes onto an empty array without capacity, with `n` at least 1, the
/// capacity is the least of `MIN_NON_ZERO_CAP`, its double, the double of that and
/// so on, that is no less than `n`.
pub proof fn lemma_capacity_after_pushes_from_empty(n: nat)
    requires
        n >= 1,
    ensures
        ({
            let cap = capacity_after_pushes(0, 0, n);
            &&& cap >= n
            &&& is_doubled_min_cap(cap)
            &&& (cap == MIN_NON_ZERO_CAP || cap < 2 * n)
        }),
{
    reveal_with_fuel(capacity_after_pushes, 2);
    lemma_pushes_keep_doubling(MIN_NON_ZERO_CAP as int, 1, (n - 1) as nat);
}

/// Pushes onto an array whose capacity is `MIN_NON_ZERO_CAP` doubled some number of
/// times, and less than twice its length unless it is `MIN_NON_ZERO_CAP` itself, keep
/// the capacity so.
proof fn lemma_pushes_keep_doubling(cap: int, len: int, n: nat)
    requires
        1 <= len <= cap,
        is_doubled_min_cap(cap),
        cap == MIN_NON_ZERO_CAP || cap < 2 * len,
    ensures
        ({
            let after = capacity_after_pushes(cap, len, n);
            &&& after >= len + n
            &&& is_doubled_min_cap(after)
            &&& (after == MIN_NON_ZERO_CAP || after < 2 * (len + n))
        }),
    decreases n,
{
    if n > 0 {
        lemma_pushes_keep_doubling(capacity_after_reserve(cap, len, 1), len + 1, (n - 1) as nat);
    }
}

/// An array of zero-sized elements reports the capacity `usize::MAX`, and can take
/// one more element exactly when its length is below that.
pub proof fn lemma_zero_sized_capacity<T>(v: Vec<T>)
    requires
        v.buffer().wf(),
        is_zero_sized::<T>(),
    ensures
        v.capacity() == usize::MAX,
        v.can_push() <==> v.len() < usize::MAX,
{
}

/// Pushes onto an array of zero-sized elements leave the capacity at `usize::MAX`.
pub proof fn lemma_zero_sized_pushes(len: int, n: nat)
    requires
        0 <= len,
        len + n <= usize::MAX,
    ensures
        capacity_after_pushes(usize::MAX as int, len, n) == usize::MAX,
    decreases n,
{
    if n > 0 {
        lemma_zero_sized_pushes(len + 1, (n - 1) as nat);
    }
}

/// An array of zero-sized elements whose length is `usize::MAX` cannot take one
/// more, whatever its slots hold: the count would overflow.
pub proof fn lemma_zero_sized_full<T>(v: Vec<T>)
    requires
        is_zero_sized::<T>(),
        v.len() == usize::MAX,
    ensures
        !v.can_push(),
        !can_reserve::<T>(v.capacity() as int, v.len() as int, 1),
{
}

/// Pushing `values` and then popping as many times gives the elements that were
/// there before, and the pops return `values` last pushed first.
pub proof fn lemma_push_then_pop<T>(s: Seq<T>, values: Seq<T>)
    ensures
        after_pops(push_all(s, values), values.len()) == s,
        after_pops(push_all(s, values), values.len()).len() == s.len(),
        popped(push_all(s, values), values.len()) == values.reverse(),
        popped(push_all(s, values), values.len()).len() == values.len(),
        forall|k: int|
            0 <= k < values.len() ==> (#[trigger] popped(push_all(s, values), values.len())[k])
                == values[values.len() - 1 - k],
{
    lemma_push_all(s, values);
    lemma_pops_of_concat(s, values);
}

/// Popping as many elements as `values` holds from `s + values` leaves `s` and
/// returns `values` from the last to the first.
proof fn lemma_pops_of_concat<T>(s: Seq<T>, values: Seq<T>)
    ensures
        after_pops(s + values, values.len()) == s,
        popped(s + values, values.len()) == values.reverse(),
    decreases values.len(),
{
    if values.len() > 0 {
        let shorter = values.drop_last();
        lemma_pops_of_concat(s, shorter);
        assert((s + values).drop_last() =~= s + shorter);
    }
}

/// Inserting `element` at `index` and removing at `index` right after gives back
/// `element` and leaves the elements as they were, so the length too.
pub proof fn lemma_insert_then_remove<T>(s: Seq<T>, index: int, element: T)
    requires
        0 <= index <= s.len(),
    ensures
        s.insert(index, element)[index] == element,
        s.insert(index, element).remove(index) == s,
        s.insert(index, element).remove(index).len() == s.len(),
{
}

/// Removing at `index` takes one element away and keeps the others in their order:
/// those before `index` stay in place and those after it move one place down.
pub proof fn lemma_remove_keeps_order<T>(s: Seq<T>, index: int)
    requires
        0 <= index < s.len(),
    ensures
        s.remove(index).len() == s.len() - 1,
        forall|j: int| 0 <= j < index ==> (#[trigger] s.remove(index)[j]) == s[j],
        forall|j: int| index <= j < s.len() - 1 ==> (#[trigger] s.remove(index)[j]) == s[j + 1],
{
}

/// Removing by swap at `index` takes one element away, puts the last element at
/// `index` unless `index` was the last place, and leaves every other element where
/// it was.
pub proof fn lemma_swap_remove_fills_with_last<T>(s: Seq<T>, index: int)
    requires
        0 <= index < s.len(),
    ensures
        s.update(index, s.last()).drop_last().len() == s.len() - 1,
        index < s.len() - 1 ==> s.update(index, s.last()).drop_last()[index] == s.last(),
        forall|j: int|
            0 <= j < s.len() - 1 && j != index ==> (#[trigger] s.update(
                index,
                s.last(),
            ).drop_last()[j]) == s[j],
{
}

/// Neither way of removing touches a slot from the old length on: with `len` live
/// elements in `slots`, the slots at `len` and after hold what they held.
pub proof fn lemma_removal_spares_tail<T>(slots: Seq<Option<T>>, len: int, index: int)
    requires
        0 <= index < len <= slots.len(),
    ensures
        slots.remove(index).insert(len - 1, None).len() == slots.len(),
        slots.update(index, slots[len - 1]).update(len - 1, None).len() == slots.len(),
        forall|j: int|
            len <= j < slots.len() ==> (#[trigger] slots.remove(index).insert(len - 1, None)[j])
                == slots[j],
        forall|j: int|
            len <= j < slots.len() ==> (#[trigger] slots.update(index, slots[len - 1]).update(
                len - 1,
                None,
            )[j]) == slots[j],
{
}

} // verus!
