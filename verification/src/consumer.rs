//! The consumer side of a work queue: it takes items until it has taken a
//! fixed number of them, and waits whenever the queue is empty.

use vstd::prelude::*;

verus! {

/// What the consumer does with the result of one pop from the queue.
#[derive(Debug, PartialEq, Eq)]
pub enum ConsumerStep<T> {
    /// Process this item and pop again.
    Take(T),
    /// Process this item; it was the last one wanted, so stop afterwards.
    TakeLast(T),
    /// The queue was empty: wait to be woken, then pop again.
    Wait,
}

/// How many items the consumer has taken, out of how many it wants.
#[derive(Debug)]
pub struct QueueConsumer {
    count: u32,
    limit: u32,
}

impl QueueConsumer {
    pub closed spec fn taken(&self) -> u32 {
        self.count
    }

    pub closed spec fn wanted(&self) -> u32 {
        self.limit
    }

    /// Whether the consumer has taken all the items it wants.
    pub open spec fn is_done(&self) -> bool {
        self.taken() >= self.wanted()
    }

    /// A consumer that wants `limit` items and has taken none.
    pub fn new(limit: u32) -> (r: Self)
        ensures
            r.taken() == 0,
            r.wanted() == limit,
    {
        QueueConsumer { count: 0, limit }
    }

    /// Whether the consumer has taken all the items it wants.
    pub fn done(&self) -> (r: bool)
        ensures
            r == self.is_done(),
            r == (self.taken() >= self.wanted()),
    {
        self.count >= self.limit
    }

    /// The number of items taken so far.
    pub fn count(&self) -> (r: u32)
        ensures
            r == self.taken(),
    {
        self.count
    }

    /// Handles the result of one pop. An item is counted and handed back,
    /// marked as the last when it brings the count to the limit; an empty
    /// queue changes nothing and asks to wait.
    pub fn on_pop<T>(&mut self, item: Option<T>) -> (r: ConsumerStep<T>)
        requires
            !old(self).is_done(),
        ensures
            final(self).wanted() == old(self).wanted(),
            final(self).taken() == count_after_pop(old(self).taken() as nat, item is Some),
            item is None ==> final(self).taken() == old(self).taken(),
            item is Some ==> final(self).taken() == old(self).taken() + 1,
            item is Some ==> (r is TakeLast <==> old(self).taken() + 1 >= old(self).wanted()),
            item is Some ==> (r is Take <==> old(self).taken() + 1 < old(self).wanted()),
            match item {
                None => r == ConsumerStep::<T>::Wait,
                Some(x) => if final(self).is_done() {
                    r == ConsumerStep::TakeLast(x)
                } else {
                    r == ConsumerStep::Take(x)
                },
            },
    {
        match item {
            None => ConsumerStep::Wait,
            Some(x) => {
                self.count = self.count + 1;
                if self.count >= self.limit {
                    ConsumerStep::TakeLast(x)
                } else {
                    ConsumerStep::Take(x)
                }
            },
        }
    }
}

/// Limit law: a consumer is done exactly when it has taken at least as many
/// items as it wants, whatever those numbers are; one that wants `n` items
/// and has taken fewer is not done.
pub proof fn lemma_done_at_limit(c: QueueConsumer)
    ensures
        c.is_done() <==> c.taken() >= c.wanted(),
        c.taken() < c.wanted() ==> !c.is_done(),
{
}

/// What the consumer has taken after one pop, from what it had taken
/// before and whether the pop found an item.
pub open spec fn count_after_pop(taken: nat, found: bool) -> nat {
    if found {
        taken + 1
    } else {
        taken
    }
}

/// What the consumer has taken after a run of pops, each step as `on_pop`
/// takes it; `found[i]` tells whether the `i`-th pop found an item.
pub open spec fn count_after_pops(taken: nat, found: Seq<bool>) -> nat
    decreases found.len(),
{
    if found.len() == 0 {
        taken
    } else {
        count_after_pops(count_after_pop(taken, found[0]), found.drop_first())
    }
}

/// The number of pops in a run that found an item.
pub open spec fn items_in(found: Seq<bool>) -> nat
    decreases found.len(),
{
    if found.len() == 0 {
        0
    } else {
        (if found[0] { 1nat } else { 0nat }) + items_in(found.drop_first())
    }
}

/// Counting law: over any run of pops, a consumer that had taken `taken`
/// items has taken `taken` plus the number of pops that found an item;
/// empty pops never count. It is therefore done after the run exactly when
/// `taken` plus those items reaches what it wants.
pub proof fn lemma_consumer_counts_items(taken: nat, found: Seq<bool>)
    ensures
        count_after_pops(taken, found) == taken + items_in(found),
    decreases found.len(),
{
    if found.len() > 0 {
        lemma_consumer_counts_items(count_after_pop(taken, found[0]), found.drop_first());
    }
}

} // verus!
