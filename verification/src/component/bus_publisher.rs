//! A bus that queues changes and dispatches them in batches.

use vstd::prelude::*;
use crate::tree::address::TreeAddress;
use crate::tree::change::TreeChange;
use crate::tree::edit::ChangeModel;
use crate::tree::extent::TreeExtent;
use super::dispatch::{
    batch_deliveries, delivery_models, dispatch, registrations, ConsumerRegistration, Delivery,
    DeliveryModel, RegistrationModel,
};
use super::subscriptionmanager::SubscriptionManager;

verus! {

/// Queues the changes published to it until it is pumped.
///
/// A change published while the deliveries of a pump are being made waits
/// for the next pump: this is what keeps a subscriber that answers a change
/// with a change of its own from being told of it in the same round.
pub struct TreeChangeBus {
    waiting: Vec<TreeChange>,
    subscriptions: SubscriptionManager<ConsumerRegistration>,
}

/// The content of a sequence of changes.
pub open spec fn change_models(changes: Seq<TreeChange>) -> Seq<ChangeModel> {
    changes.map_values(|c: TreeChange| c@)
}

impl TreeChangeBus {
    /// The changes that wait for the next pump, in the order they came.
    pub closed spec fn waiting(&self) -> Seq<ChangeModel> {
        change_models(self.waiting@)
    }

    /// The registrations, in the order they were made.
    pub closed spec fn subscribers(&self) -> Seq<RegistrationModel> {
        registrations(self.subscriptions@)
    }

    /// A bus with nothing waiting and no subscribers.
    pub fn new() -> (r: TreeChangeBus)
        ensures
            r.waiting() == Seq::<ChangeModel>::empty(),
            r.subscribers() == Seq::<RegistrationModel>::empty(),
    {
        let r = TreeChangeBus { waiting: Vec::new(), subscriptions: SubscriptionManager::new() };
        assert(r.waiting() =~= Seq::<ChangeModel>::empty());
        assert(r.subscribers() =~= Seq::<RegistrationModel>::empty());
        r
    }

    /// Puts a change at the end of the queue.
    pub fn publish(&mut self, change: TreeChange)
        ensures
            final(self).waiting() == old(self).waiting().push(change@),
            final(self).subscribers() == old(self).subscribers(),
    {
        self.waiting.push(change);
        assert(self.waiting() =~= old(self).waiting().push(change@));
    }

    /// Registers an interest in the changes that touch `extent` at `address`.
    /// Returns the number by which its deliveries are marked.
    pub fn subscribe(&mut self, address: TreeAddress, extent: TreeExtent) -> (id: usize)
        ensures
            final(self).subscribers() == old(self).subscribers().push(
                RegistrationModel { address: address@, extent },
            ),
            final(self).waiting() == old(self).waiting(),
            id == old(self).subscribers().len(),
    {
        let id = self.subscriptions.add_subscription(ConsumerRegistration { address, extent });
        assert(self.subscribers() =~= old(self).subscribers().push(
            RegistrationModel { address: address@, extent },
        ));
        id
    }

    /// Whether no change waits.
    pub fn is_idle(&self) -> (r: bool)
        ensures
            r == (self.waiting().len() == 0),
    {
        self.waiting.len() == 0
    }

    /// Takes the changes that wait off the queue and returns the deliveries
    /// they lead to: change by change in the order they were published, and
    /// for each change subscriber by subscriber in the order of subscription.
    pub fn pump(&mut self) -> (r: Vec<Delivery>)
        ensures
            final(self).waiting() == Seq::<ChangeModel>::empty(),
            final(self).subscribers() == old(self).subscribers(),
            delivery_models(r@) == batch_deliveries(old(self).waiting(), old(self).subscribers()),
    {
        let mut to_send: Vec<TreeChange> = Vec::new();
        std::mem::swap(&mut self.waiting, &mut to_send);
        assert(self.waiting() =~= Seq::<ChangeModel>::empty());
        let ghost batch = change_models(to_send@);
        let ghost regs = self.subscribers();
        let mut out: Vec<Delivery> = Vec::new();
        let mut i: usize = 0;
        assert(delivery_models(out@) =~= Seq::<DeliveryModel>::empty());
        assert(batch.take(0) =~= Seq::<ChangeModel>::empty());
        while i < to_send.len()
            invariant
                i <= to_send@.len(),
                batch == change_models(to_send@),
                regs == registrations(self.subscriptions@),
                delivery_models(out@) == batch_deliveries(batch.take(i as int), regs),
            decreases to_send@.len() - i,
        {
            proof {
                let upto = batch.take(i as int + 1);
                assert(upto.drop_last() =~= batch.take(i as int));
                assert(upto.last() == to_send@[i as int]@);
            }
            dispatch(&self.subscriptions, &to_send[i], &mut out);
            i += 1;
        }
        assert(batch.take(i as int) =~= batch);
        out
    }
}

} // verus!
