//! The registry of subscriptions.

use vstd::prelude::*;

verus! {

/// Holds the data of each subscription, in the order they were added. A
/// subscription is known by its position in that order.
pub struct SubscriptionManager<TData> {
    subscriptions: Vec<TData>,
}

impl<TData> View for SubscriptionManager<TData> {
    type V = Seq<TData>;

    closed spec fn view(&self) -> Seq<TData> {
        self.subscriptions@
    }
}

/// Whether a sequence of positions rises strictly.
pub open spec fn rising(ids: Seq<usize>) -> bool {
    forall|a: int, b: int| 0 <= a < b < ids.len() ==> ids[a] < ids[b]
}

impl<TData> SubscriptionManager<TData> {
    /// A registry without subscriptions.
    pub fn new() -> (r: SubscriptionManager<TData>)
        ensures
            r@ == Seq::<TData>::empty(),
    {
        SubscriptionManager { subscriptions: Vec::new() }
    }

    /// Adds a subscription after those already there, and returns its position.
    pub fn add_subscription(&mut self, callback_data: TData) -> (id: usize)
        ensures
            final(self)@ == old(self)@.push(callback_data),
            id == old(self)@.len(),
    {
        let id = self.subscriptions.len();
        self.subscriptions.push(callback_data);
        id
    }

    /// The number of subscriptions.
    pub fn len(&self) -> (r: usize)
        ensures
            r == self@.len(),
    {
        self.subscriptions.len()
    }

    /// The data of the subscription at a position.
    pub fn data(&self, id: usize) -> (r: &TData)
        requires
            id < self@.len(),
        ensures
            *r == self@[id as int],
    {
        &self.subscriptions[id]
    }

    /// The subscriptions to call: the positions of those whose data passes
    /// the filter, in the order they were added. The answer is for the
    /// subscriptions held now; one added later is in none of it.
    pub fn call_subscriptions<F: Fn(&TData) -> bool>(&self, call_filter: F) -> (r: Vec<usize>)
        requires
            forall|i: int| 0 <= i < self@.len() ==> call_filter.requires((&#[trigger] self@[i],)),
        ensures
            rising(r@),
            forall|k: int|
                0 <= k < r@.len() ==> r@[k] < self@.len() && call_filter.ensures(
                    (&self@[#[trigger] r@[k] as int],),
                    true,
                ),
            forall|i: int|
                0 <= i < self@.len() && !r@.contains(i as usize) ==> call_filter.ensures(
                    (&#[trigger] self@[i],),
                    false,
                ),
    {
        let mut selected: Vec<usize> = Vec::new();
        let mut i: usize = 0;
        while i < self.subscriptions.len()
            invariant
                i <= self@.len(),
                self@ == self.subscriptions@,
                forall|j: int| 0 <= j < self@.len() ==> call_filter.requires((&#[trigger] self@[j],)),
                rising(selected@),
                forall|k: int| 0 <= k < selected@.len() ==> #[trigger] selected@[k] < i,
                forall|k: int|
                    0 <= k < selected@.len() ==> call_filter.ensures(
                        (&self@[#[trigger] selected@[k] as int],),
                        true,
                    ),
                forall|j: int|
                    0 <= j < i && !selected@.contains(j as usize) ==> call_filter.ensures(
                        (&#[trigger] self@[j],),
                        false,
                    ),
            decreases self@.len() - i,
        {
            let ghost before = selected@;
            let wanted = call_filter(&self.subscriptions[i]);
            if wanted {
                selected.push(i);
                assert forall|j: int| 0 <= j < i + 1 && !selected@.contains(j as usize) implies call_filter.ensures(
                (&#[trigger] self@[j],), false) by {
                    if j < i {
                        if before.contains(j as usize) {
                            let k = choose|k: int| 0 <= k < before.len() && before[k] == j as usize;
                            assert(selected@[k] == j as usize);
                        }
                    } else {
                        assert(selected@[selected@.len() - 1] == i);
                    }
                }
            } else {
                assert forall|j: int| 0 <= j < i + 1 && !selected@.contains(j as usize) implies call_filter.ensures(
                (&#[trigger] self@[j],), false) by {}
            }
            i += 1;
        }
        selected
    }
}

} // verus!
