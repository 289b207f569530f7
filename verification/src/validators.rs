//! The validator sequence: an owned, ordered list of validators behind a
//! forward-only, single-pass iteration protocol.

use vstd::prelude::*;

verus! {

/// A single-pass sequence of validators. It is consumed from the front, is
/// exhausted once every item has been handed out, and cannot be restarted.
pub struct ValidatorIterator<T> {
    /// The items not yet handed out, the next one last.
    pending: Vec<T>,
}

impl<T> View for ValidatorIterator<T> {
    type V = Seq<T>;

    /// The items not yet handed out, the next one first.
    closed spec fn view(&self) -> Seq<T> {
        self.pending@.reverse()
    }
}

/// One step of the iteration protocol on the items that remain: the item
/// handed out, if any, and the items that remain afterwards.
pub open spec fn step<T>(remaining: Seq<T>) -> (Option<T>, Seq<T>) {
    if remaining.len() == 0 {
        (None, remaining)
    } else {
        (Some(remaining.first()), remaining.drop_first())
    }
}

/// The items that remain after `count` steps.
pub open spec fn after_steps<T>(remaining: Seq<T>, count: nat) -> Seq<T>
    decreases count,
{
    if count == 0 {
        remaining
    } else {
        after_steps(step(remaining).1, (count - 1) as nat)
    }
}

/// A sequence of `items.len()` items hands out exactly these items in
/// insertion order: step `count` yields `items[count]`. From then on it is
/// exhausted: every further step yields nothing and changes nothing.
pub proof fn lemma_yields_every_item_in_order<T>(items: Seq<T>, count: nat)
    ensures
        count < items.len() ==> step(after_steps(items, count)).0 == Some(items[count as int]),
        count >= items.len() ==> step(after_steps(items, count)).0 == None::<T>
            && after_steps(items, count).len() == 0,
        count <= items.len() ==> after_steps(items, count) == items.skip(count as int),
    decreases count,
{
    if count == 0 {
        assert(items.skip(0) =~= items);
    } else {
        if items.len() > 0 {
            lemma_yields_every_item_in_order(items.drop_first(), (count - 1) as nat);
            if count <= items.len() {
                assert(items.drop_first().skip(count - 1) =~= items.skip(count as int));
            }
        } else {
            lemma_yields_every_item_in_order(items, (count - 1) as nat);
        }
    }
}

impl<T> ValidatorIterator<T> {
    /// Wraps an already materialized list of validators. The first item of
    /// the list is the first to be handed out.
    pub fn new(schema_validators: Vec<T>) -> (iter: Self)
        ensures
            iter@ == schema_validators@,
    {
        let ghost items = schema_validators@;
        let mut rest = schema_validators;
        let mut pending: Vec<T> = Vec::new();
        while rest.len() > 0
            invariant
                rest@.len() <= items.len(),
                rest@ == items.take(rest@.len() as int),
                pending@.reverse() == items.skip(rest@.len() as int),
            decreases rest.len(),
        {
            let ghost before = pending@;
            let ghost kept = rest@.len();
            match rest.pop() {
                Some(item) => {
                    pending.push(item);
                    assert(pending@.reverse() =~= seq![item] + before.reverse());
                    assert(seq![item] + items.skip(kept as int) =~= items.skip(kept - 1));
                    assert(rest@ =~= items.take(kept - 1));
                },
                None => {},
            }
        }
        assert(items.skip(0) =~= items);
        ValidatorIterator { pending }
    }

    /// The iteration handle of a validator sequence is the sequence itself.
    pub fn __iter__(self) -> (same: Self)
        ensures
            same == self,
    {
        self
    }

    /// Hands out the next item, or nothing once the sequence is exhausted.
    pub fn __next__(&mut self) -> (item: Option<T>)
        ensures
            (item, final(self)@) == step(old(self)@),
    {
        let ghost before = self.pending@;
        let item = self.pending.pop();
        proof {
            if before.len() > 0 {
                assert(self.pending@.reverse() =~= before.reverse().drop_first());
            } else {
                assert(before.reverse() =~= before);
            }
        }
        item
    }
}

} // verus!
