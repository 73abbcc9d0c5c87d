//! The stream of results of one query. It hands its items out one at a
//! time, in the order the server sent them, and belongs to the transaction
//! that ran the query.

use crate::model::TransactionId;
use vstd::prelude::*;

verus! {

/// The items in the opposite order.
pub fn reversed<T>(items: Vec<T>) -> (r: Vec<T>)
    ensures
        r@ == items@.reverse(),
{
    let ghost all = items@;
    let mut items = items;
    let mut r: Vec<T> = Vec::new();
    while items.len() > 0
        invariant
            items@.len() + r@.len() == all.len(),
            items@ == all.subrange(0, items@.len() as int),
            forall|j: int| 0 <= j < r@.len() ==> r@[j] == all[all.len() - 1 - j],
        decreases items.len(),
    {
        let item = items.pop().unwrap();
        r.push(item);
    }
    assert(r@ =~= all.reverse());
    r
}

#[derive(Debug, PartialEq, Eq)]
pub struct ResultStream<T> {
    owner: TransactionId,
    /// What is left to hand out, the next item last.
    pending: Vec<T>,
}

impl<T> ResultStream<T> {
    /// The items not handed out yet, the next one first.
    pub closed spec fn remaining(&self) -> Seq<T> {
        self.pending@.reverse()
    }

    /// The transaction that ran the query.
    pub closed spec fn owner_of(&self) -> TransactionId {
        self.owner
    }

    /// A stream over `items`, owned by `owner`.
    pub fn new(owner: TransactionId, items: Vec<T>) -> (r: Self)
        ensures
            r.remaining() == items@,
            r.owner_of() == owner,
    {
        let pending = reversed(items);
        assert(pending@.reverse() =~= items@);
        ResultStream { owner, pending }
    }

    pub fn owner(&self) -> (r: TransactionId)
        ensures
            r == self.owner_of(),
    {
        self.owner
    }

    /// How many items are left.
    pub fn len(&self) -> (r: usize)
        ensures
            r == self.remaining().len(),
    {
        self.pending.len()
    }

    pub fn is_exhausted(&self) -> (r: bool)
        ensures
            r == (self.remaining().len() == 0),
    {
        self.pending.len() == 0
    }

    /// Gives the stream up before its end: nothing is left to hand out.
    pub fn cancel(&mut self)
        ensures
            final(self).remaining() == Seq::<T>::empty(),
            final(self).owner_of() == old(self).owner_of(),
    {
        self.pending.clear();
    }

    /// Takes the next item off the stream, whatever the state of its owner.
    pub(crate) fn take_next(&mut self) -> (r: Option<T>)
        ensures
            final(self).owner_of() == old(self).owner_of(),
            old(self).remaining().len() == 0 ==> r is None && final(self).remaining() == old(
                self,
            ).remaining(),
            old(self).remaining().len() > 0 ==> r == Some(old(self).remaining()[0])
                && final(self).remaining() == old(self).remaining().drop_first(),
    {
        let r = self.pending.pop();
        proof {
            if old(self).pending@.len() > 0 {
                assert(self.pending@.reverse() =~= old(self).pending@.reverse().drop_first());
            }
        }
        r
    }
}

} // verus!
