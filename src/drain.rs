use vstd::prelude::*;

use std::collections::VecDeque;
use std::ops::Range;

verus! {

/// The items removed from a sub-range of an [`crate::ArrayVec`], handed out
/// one at a time in index order.
///
/// The vector is compacted as soon as the drain is made, so the drain may be
/// consumed in full, in part or not at all: the items it still holds are
/// dropped with it, in index order.
pub struct Drain<T> {
    /// The items not yet handed out, the next one first.
    pending: VecDeque<T>,
}

impl<T> View for Drain<T> {
    type V = Seq<T>;

    /// The items not yet handed out, in index order.
    closed spec fn view(&self) -> Seq<T> {
        self.pending@
    }
}

impl<T> Drain<T> {
    /// Move the items at `range` out of `items`, closing the gap they leave.
    pub(crate) fn with_range(items: &mut Vec<T>, range: Range<usize>) -> (r: Self)
        requires
            range.start <= range.end,
            range.end <= old(items)@.len(),
        ensures
            r@ == old(items)@.subrange(range.start as int, range.end as int),
            final(items)@ == old(items)@.subrange(0, range.start as int) + old(items)@.subrange(
                range.end as int,
                old(items)@.len() as int,
            ),
    {
        let ghost whole = items@;
        let mut tail = items.split_off(range.end);
        let mut middle = items.split_off(range.start);
        let mut pending: VecDeque<T> = VecDeque::new();
        while middle.len() > 0
            invariant
                middle@ + pending@ == whole.subrange(range.start as int, range.end as int),
            decreases middle@.len(),
        {
            let ghost before = middle@;
            let ghost queued = pending@;
            match middle.pop() {
                Some(item) => {
                    pending.push_front(item);
                    proof {
                        assert(before == middle@.push(item));
                        assert(middle@ + pending@ =~= before + queued);
                    }
                },
                None => {},
            }
        }
        proof {
            assert(middle@ + pending@ =~= pending@);
        }
        items.append(&mut tail);
        Drain { pending }
    }

    /// The number of items not yet handed out.
    pub fn len(&self) -> (r: usize)
        ensures
            r == self@.len(),
    {
        self.pending.len()
    }

    /// Hand out the next item, or `None` once all have been handed out.
    pub fn next(&mut self) -> (r: Option<T>)
        ensures
            old(self)@.len() == 0 ==> r is None && final(self)@ == old(self)@,
            old(self)@.len() > 0 ==> r == Some(old(self)@[0]) && final(self)@ == old(
                self,
            )@.subrange(1, old(self)@.len() as int),
    {
        let r = self.pending.pop_front();
        proof {
            if old(self)@.len() > 0 {
                assert(self@ =~= old(self)@.subrange(1, old(self)@.len() as int));
            }
        }
        r
    }
}

} // verus!
