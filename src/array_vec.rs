use vstd::prelude::*;

use std::ops::Range;

use crate::capacity_error::CapacityError;
use crate::drain::Drain;

verus! {

/// A vector type holding at most `N` items.
///
/// The items live in a buffer that is given room for `N` items when the
/// vector is made and never grows past them. Its view is the sequence of
/// live items, in index order; no operation makes it longer than `N`.
pub struct ArrayVec<T, const N: usize> {
    items: Vec<T>,
}

impl<T, const N: usize> View for ArrayVec<T, N> {
    type V = Seq<T>;

    /// The live elements, in index order.
    closed spec fn view(&self) -> Seq<T> {
        self.items@
    }
}

impl<T, const N: usize> ArrayVec<T, N> {
    /// Every vector holds at most `N` items.
    #[verifier::type_invariant]
    spec fn within_capacity(&self) -> bool {
        self.items@.len() <= N
    }

    /// Move the items out, leaving the vector empty for the moment.
    fn take_items(&mut self) -> (r: Vec<T>)
        ensures
            r@ == old(self)@,
            r@.len() <= N,
            final(self)@ == Seq::<T>::empty(),
    {
        proof { use_type_invariant(&*self); }
        let mut items = Vec::new();
        std::mem::swap(&mut items, &mut self.items);
        items
    }

    /// Create a new, empty [`ArrayVec`].
    pub fn new() -> (r: Self)
        ensures
            r@ == Seq::<T>::empty(),
    {
        ArrayVec { items: Vec::with_capacity(N) }
    }

    /// The number of items held.
    pub fn len(&self) -> (r: usize)
        ensures
            r == self@.len(),
            r <= N,
    {
        proof { use_type_invariant(self); }
        self.items.len()
    }

    /// Whether no item is held.
    pub fn is_empty(&self) -> (r: bool)
        ensures
            r == (self@.len() == 0),
    {
        self.len() == 0
    }

    /// The most items the vector can hold, `N`.
    pub fn capacity(&self) -> (r: usize)
        ensures
            r == N,
    {
        N
    }

    /// How many more items fit.
    pub fn remaining_capacity(&self) -> (r: usize)
        ensures
            r == N - self@.len(),
    {
        self.capacity() - self.len()
    }

    /// Whether the vector holds `N` items, so that nothing more fits.
    pub fn is_full(&self) -> (r: bool)
        ensures
            r == (self@.len() >= N),
            r == (self@.len() == N),
    {
        self.len() >= self.capacity()
    }

    /// Add an item to the end of the vector. The vector must not be full.
    pub fn push(&mut self, item: T)
        requires
            old(self)@.len() < N,
        ensures
            final(self)@ == old(self)@.push(item),
    {
        self.push_unchecked(item);
    }

    /// Try to add an item to the end of the vector, handing the item
    /// back if there wasn't enough room.
    pub fn try_push(&mut self, item: T) -> (r: Result<(), CapacityError<T>>)
        ensures
            old(self)@.len() < N ==> r is Ok && final(self)@ == old(self)@.push(item),
            old(self)@.len() >= N ==> r == Err::<(), _>(CapacityError(item)) && final(self)@
                == old(self)@,
    {
        if self.is_full() {
            Err(CapacityError(item))
        } else {
            self.push_unchecked(item);
            Ok(())
        }
    }

    /// Add an item to the end of the vector; the caller has checked that the
    /// vector is not full.
    pub fn push_unchecked(&mut self, item: T)
        requires
            old(self)@.len() < N,
        ensures
            final(self)@ == old(self)@.push(item),
    {
        let mut items = self.take_items();
        items.push(item);
        self.items = items;
    }

    /// Remove an item from the end of the vector.
    pub fn pop(&mut self) -> (r: Option<T>)
        ensures
            old(self)@.len() == 0 ==> r is None && final(self)@ == old(self)@,
            old(self)@.len() > 0 ==> r == Some(old(self)@.last()) && final(self)@ == old(
                self,
            )@.drop_last(),
    {
        let mut items = self.take_items();
        let r = items.pop();
        self.items = items;
        r
    }

    /// Shorten the vector, keeping the first `new_length` elements and
    /// dropping the rest in index order. Does nothing when `new_length` is
    /// not below the current length.
    pub fn truncate(&mut self, new_length: usize)
        ensures
            new_length < old(self)@.len() ==> final(self)@ == old(self)@.subrange(
                0,
                new_length as int,
            ),
            new_length >= old(self)@.len() ==> final(self)@ == old(self)@,
    {
        let mut items = self.take_items();
        if new_length < items.len() {
            items.truncate(new_length);
        }
        self.items = items;
    }

    /// Remove all items from the vector.
    pub fn clear(&mut self)
        ensures
            final(self)@ == Seq::<T>::empty(),
    {
        self.truncate(0);
    }

    /// Insert an item at `index`, shifting the items from `index` on one place
    /// to the right.
    ///
    /// The vector must have room for the item, and `index` may not exceed
    /// its length.
    pub fn insert(&mut self, index: usize, item: T)
        requires
            index <= old(self)@.len(),
            old(self)@.len() < N,
        ensures
            final(self)@ == old(self)@.insert(index as int, item),
    {
        self.insert_unchecked(index, item);
    }

    /// Try to insert an item at `index`, returning the item if the
    /// vector is full. The index may not exceed the vector's length.
    pub fn try_insert(&mut self, index: usize, item: T) -> (r: Result<(), CapacityError<T>>)
        requires
            index <= old(self)@.len(),
        ensures
            old(self)@.len() < N ==> r is Ok && final(self)@ == old(self)@.insert(
                index as int,
                item,
            ),
            old(self)@.len() >= N ==> r == Err::<(), _>(CapacityError(item)) && final(self)@
                == old(self)@,
    {
        if self.is_full() {
            return Err(CapacityError(item));
        }
        self.insert_unchecked(index, item);
        Ok(())
    }

    /// Insert an item into the vector, removing and returning its last item
    /// if it is already full.
    ///
    /// The index may not exceed the vector's length, nor reach the
    /// capacity `N`, even when the vector is not full.
    pub fn force_insert(&mut self, index: usize, item: T) -> (r: Option<T>)
        requires
            index <= old(self)@.len(),
            index < N,
        ensures
            old(self)@.len() == N ==> r == Some(old(self)@.last()) && final(self)@
                == old(self)@.drop_last().insert(index as int, item),
            old(self)@.len() < N ==> r is None && final(self)@ == old(self)@.insert(
                index as int,
                item,
            ),
    {
        let mut items = self.take_items();
        let result;
        if items.len() == N {
            // The last item leaves to make room for the new one.
            result = items.pop();
            items.insert(index, item);
        } else {
            items.insert(index, item);
            result = None;
        }
        self.items = items;
        result
    }

    /// Insert an item at `index`; the caller has checked that `index` is in
    /// bounds and that the vector is not full.
    pub fn insert_unchecked(&mut self, index: usize, item: T)
        requires
            index <= old(self)@.len(),
            old(self)@.len() < N,
        ensures
            final(self)@ == old(self)@.insert(index as int, item),
    {
        let mut items = self.take_items();
        items.insert(index, item);
        self.items = items;
    }

    /// Remove the item at `index` and return it, shifting the items after it
    /// one place to the left. The index must be in bounds.
    pub fn remove(&mut self, index: usize) -> (r: T)
        requires
            index < old(self)@.len(),
        ensures
            r == old(self)@[index as int],
            final(self)@ == old(self)@.remove(index as int),
    {
        self.remove_unchecked(index)
    }

    /// If `index` is in bounds, remove the item there and return it, keeping
    /// the order of the others; otherwise leave the vector as it is.
    pub fn try_remove(&mut self, index: usize) -> (r: Option<T>)
        ensures
            index < old(self)@.len() ==> r == Some(old(self)@[index as int]) && final(self)@
                == old(self)@.remove(index as int),
            index >= old(self)@.len() ==> r is None && final(self)@ == old(self)@,
    {
        if index < self.len() {
            Some(self.remove_unchecked(index))
        } else {
            None
        }
    }

    /// Remove the item at `index` and return it; the caller has checked that
    /// the index is in bounds.
    pub fn remove_unchecked(&mut self, index: usize) -> (r: T)
        requires
            index < old(self)@.len(),
        ensures
            r == old(self)@[index as int],
            final(self)@ == old(self)@.remove(index as int),
    {
        let mut items = self.take_items();
        let item = items.remove(index);
        self.items = items;
        item
    }

    /// Remove the item at `index` and return it, putting the last item in its
    /// place. The index must be in bounds.
    pub fn swap_remove(&mut self, index: usize) -> (r: T)
        requires
            index < old(self)@.len(),
        ensures
            r == old(self)@[index as int],
            final(self)@ == old(self)@.update(index as int, old(self)@.last()).drop_last(),
    {
        self.swap_remove_unchecked(index)
    }

    /// If `index` is in bounds, remove the item there and return it, putting
    /// the last item in its place; otherwise leave the vector as it is.
    pub fn try_swap_remove(&mut self, index: usize) -> (r: Option<T>)
        ensures
            index < old(self)@.len() ==> r == Some(old(self)@[index as int]) && final(self)@
                == old(self)@.update(index as int, old(self)@.last()).drop_last(),
            index >= old(self)@.len() ==> r is None && final(self)@ == old(self)@,
    {
        if index < self.len() {
            Some(self.swap_remove_unchecked(index))
        } else {
            None
        }
    }

    /// Remove the item at `index` and return it, putting the last item in its
    /// place; the caller has checked that the index is in bounds.
    pub fn swap_remove_unchecked(&mut self, index: usize) -> (r: T)
        requires
            index < old(self)@.len(),
        ensures
            r == old(self)@[index as int],
            final(self)@ == old(self)@.update(index as int, old(self)@.last()).drop_last(),
    {
        let mut items = self.take_items();
        let item = items.swap_remove(index);
        self.items = items;
        item
    }

    /// A view of the live items.
    pub fn as_slice(&self) -> (r: &[T])
        ensures
            r@ == self@,
    {
        self.items.as_slice()
    }

    /// The item at `index`, which must be in bounds.
    pub fn get(&self, index: usize) -> (r: &T)
        requires
            index < self@.len(),
        ensures
            *r == self@[index as int],
    {
        &self.items[index]
    }

    /// Put `item` at `index`, which must be in bounds, and return the item
    /// that was there.
    pub fn replace(&mut self, index: usize, item: T) -> (r: T)
        requires
            index < old(self)@.len(),
        ensures
            r == old(self)@[index as int],
            final(self)@ == old(self)@.update(index as int, item),
    {
        let mut items = self.take_items();
        items.push(item);
        let r = items.swap_remove(index);
        self.items = items;
        r
    }

    /// Append a copy of every item of `other`, or nothing at all when they do
    /// not all fit.
    pub fn try_extend_from_slice(&mut self, other: &[T]) -> (r: Result<(), CapacityError<()>>)
        where
            T: Copy,
        ensures
            old(self)@.len() + other@.len() <= N ==> r is Ok && final(self)@ == old(self)@
                + other@,
            old(self)@.len() + other@.len() > N ==> r == Err::<(), _>(CapacityError(()))
                && final(self)@ == old(self)@,
    {
        if self.remaining_capacity() < other.len() {
            return Err(CapacityError(()));
        }
        let mut items = self.take_items();
        let ghost start = items@;
        let mut i: usize = 0;
        while i < other.len()
            invariant
                i <= other@.len(),
                start.len() + other@.len() <= N,
                items@ == start + other@.subrange(0, i as int),
            decreases other@.len() - i,
        {
            items.push(other[i]);
            i += 1;
            proof {
                assert(other@.subrange(0, i as int) == other@.subrange(0, i - 1) + seq![
                    other@[i - 1],
                ]);
            }
        }
        proof {
            assert(other@.subrange(0, other@.len() as int) == other@);
        }
        self.items = items;
        Ok(())
    }

    /// Remove the items at `range` and hand them out, in index order, through
    /// the returned [`Drain`]. The items after the range move down to close
    /// the gap. The range must lie within the vector.
    pub fn drain(&mut self, range: Range<usize>) -> (r: Drain<T>)
        requires
            range.start <= range.end,
            range.end <= old(self)@.len(),
        ensures
            r@ == old(self)@.subrange(range.start as int, range.end as int),
            final(self)@ == old(self)@.subrange(0, range.start as int) + old(self)@.subrange(
                range.end as int,
                old(self)@.len() as int,
            ),
    {
        let mut items = self.take_items();
        let r = Drain::with_range(&mut items, range);
        self.items = items;
        r
    }
}

impl<T, const N: usize> Default for ArrayVec<T, N> {
    /// An empty vector.
    fn default() -> (r: Self)
        ensures
            r@ == Seq::<T>::empty(),
    {
        ArrayVec::new()
    }
}

impl<T: Clone, const N: usize> Clone for ArrayVec<T, N> {
    /// A vector holding a clone of each item, in the same order.
    fn clone(&self) -> (r: Self)
        ensures
            r@.len() == self@.len(),
            forall|i: int| 0 <= i < self@.len() ==> cloned(#[trigger] self@[i], r@[i]),
    {
        proof { use_type_invariant(self); }
        ArrayVec { items: self.items.clone() }
    }
}

/// Relies on `Vec::from` for arrays: it moves the array's items into a vector,
/// in order.
#[verifier::external_body]
fn vec_from_array<T, const N: usize>(items: [T; N]) -> (r: Vec<T>)
    ensures
        r@ == items@,
{
    Vec::from(items)
}

impl<T, const N: usize> From<[T; N]> for ArrayVec<T, N> {
    /// A full vector holding the array's items, in order.
    fn from(items: [T; N]) -> (r: Self)
        ensures
            r@ == items@,
    {
        let items = vec_from_array(items);
        ArrayVec { items }
    }
}

impl<T, const N: usize> vstd::std_specs::convert::FromSpecImpl<[T; N]> for ArrayVec<T, N> {
    open spec fn obeys_from_spec() -> bool {
        false
    }

    open spec fn from_spec(items: [T; N]) -> Self {
        arbitrary()
    }
}

} // verus!
