//! Properties that relate several operations of [`crate::ArrayVec`], stated
//! over the sequences that the operations' contracts speak of.
use vstd::prelude::*;

verus! {

/// The view after pushing each of `xs`, in order, onto a vector whose view is
/// `s`, as [`crate::ArrayVec::push`] describes each step.
pub open spec fn pushed_all<T>(s: Seq<T>, xs: Seq<T>) -> Seq<T>
    decreases xs.len(),
{
    if xs.len() == 0 {
        s
    } else {
        pushed_all(s, xs.drop_last()).push(xs.last())
    }
}

/// Pushing the items `xs` one by one onto an empty vector of capacity `N`
/// leaves exactly those items, so its length is the number of pushes, and it
/// is full exactly when `N` items were pushed. Each push is allowed: before
/// each one fewer than `N` items are held.
pub proof fn lemma_push_count<T, const N: usize>(xs: Seq<T>)
    requires
        xs.len() <= N,
    ensures
        pushed_all(Seq::<T>::empty(), xs) == xs,
        pushed_all(Seq::<T>::empty(), xs).len() == xs.len(),
        (pushed_all(Seq::<T>::empty(), xs).len() >= N) == (xs.len() == N),
        forall|k: int| 0 <= k < xs.len() ==> #[trigger] pushed_all(Seq::<T>::empty(), xs.take(k)).len() < N,
    decreases xs.len(),
{
    if xs.len() > 0 {
        lemma_push_count::<T, N>(xs.drop_last());
        assert(xs.drop_last().push(xs.last()) =~= xs);
    }
    assert forall|k: int| 0 <= k < xs.len() implies #[trigger] pushed_all(Seq::<T>::empty(), xs.take(k)).len() < N by {
        lemma_push_count::<T, N>(xs.take(k));
    }
}

/// Inserting an item at a valid index and then removing at that same index
/// gives back the item and the original sequence.
pub proof fn lemma_insert_then_remove<T>(s: Seq<T>, index: int, item: T)
    requires
        0 <= index <= s.len(),
    ensures
        s.insert(index, item)[index] == item,
        s.insert(index, item).remove(index) == s,
{
    assert(s.insert(index, item).remove(index) =~= s);
}

/// Removing by swapping in the last item keeps every other item: the items
/// left, together with the one removed, are the items held before.
pub proof fn lemma_swap_remove_keeps_items<T>(s: Seq<T>, index: int)
    requires
        0 <= index < s.len(),
    ensures
        s.update(index, s.last()).drop_last().len() == s.len() - 1,
        s.update(index, s.last()).drop_last().to_multiset().insert(s[index]) == s.to_multiset(),
{
    broadcast use vstd::multiset::group_multiset_axioms;

    let u = s.update(index, s.last());
    assert(u.len() == s.len());
    let rest = u.drop_last();
    assert(rest.push(s.last()) =~= u);
    vstd::seq_lib::to_multiset_build(rest, s.last());
    vstd::seq_lib::to_multiset_update(s, index, s.last());
    vstd::seq_lib::to_multiset_contains(s, s[index]);
    assert(s.to_multiset().count(s[index]) > 0);
    assert(rest.to_multiset().insert(s.last()) == s.to_multiset().insert(s.last()).remove(
        s[index],
    ));
    assert forall|x: T| #[trigger] rest.to_multiset().insert(s[index]).count(x)
        == s.to_multiset().count(x) by {
        assert(rest.to_multiset().insert(s.last()).count(x) == s.to_multiset().insert(
            s.last(),
        ).remove(s[index]).count(x));
    }
    assert(rest.to_multiset().insert(s[index]) =~= s.to_multiset());
}

/// Removing with shifting keeps the order of the other items: those before
/// the index, then those after it.
pub proof fn lemma_remove_keeps_order<T>(s: Seq<T>, index: int)
    requires
        0 <= index < s.len(),
    ensures
        s.remove(index) == s.subrange(0, index) + s.subrange(index + 1, s.len() as int),
{
    assert(s.remove(index) =~= s.subrange(0, index) + s.subrange(index + 1, s.len() as int));
}

/// Forcing an item into a full vector of capacity `N` keeps it full, with the
/// item at the requested index and the items before it unmoved.
pub proof fn lemma_force_insert_full<T, const N: usize>(s: Seq<T>, index: int, item: T)
    requires
        s.len() == N,
        0 <= index < N,
    ensures
        s.drop_last().insert(index, item).len() == N,
        s.drop_last().insert(index, item)[index] == item,
        s.drop_last().insert(index, item).subrange(0, index) == s.subrange(0, index),
        s.drop_last().insert(index, item).subrange(index + 1, N as int) == s.subrange(index, N - 1),
{
    assert(s.drop_last().insert(index, item).subrange(0, index) =~= s.subrange(0, index));
    assert(s.drop_last().insert(index, item).subrange(index + 1, N as int) =~= s.subrange(index, N - 1));
}

} // verus!
