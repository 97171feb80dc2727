//! A publisher whose changes reach its subscribers at once.

use vstd::prelude::*;
use crate::tree::address::TreeAddress;
use crate::tree::change::TreeChange;
use crate::tree::extent::TreeExtent;
use super::dispatch::{
    deliveries, delivery_models, dispatch, registrations, ConsumerRegistration, Delivery,
    RegistrationModel,
};
use super::subscriptionmanager::SubscriptionManager;

verus! {

/// Publishes each change to the subscribers it concerns as soon as it is made.
pub struct ImmediatePublisher {
    subscriptions: SubscriptionManager<ConsumerRegistration>,
}

impl View for ImmediatePublisher {
    type V = Seq<RegistrationModel>;

    /// The registrations, in the order they were made.
    closed spec fn view(&self) -> Seq<RegistrationModel> {
        registrations(self.subscriptions@)
    }
}

impl ImmediatePublisher {
    /// A publisher without subscribers.
    pub fn new() -> (r: ImmediatePublisher)
        ensures
            r@ == Seq::<RegistrationModel>::empty(),
    {
        let r = ImmediatePublisher { subscriptions: SubscriptionManager::new() };
        assert(r@ =~= Seq::<RegistrationModel>::empty());
        r
    }

    /// Registers an interest in the changes that touch `extent` at `address`.
    /// Returns the number by which its deliveries are marked.
    pub fn subscribe(&mut self, address: TreeAddress, extent: TreeExtent) -> (id: usize)
        ensures
            final(self)@ == old(self)@.push(RegistrationModel { address: address@, extent }),
            id == old(self)@.len(),
    {
        let id = self.subscriptions.add_subscription(ConsumerRegistration { address, extent });
        assert(self@ =~= old(self)@.push(RegistrationModel { address: address@, extent }));
        id
    }

    /// The deliveries that publishing `change` leads to, in the order to make them.
    pub fn publish(&self, change: &TreeChange) -> (r: Vec<Delivery>)
        ensures
            delivery_models(r@) == deliveries(change@, self@),
    {
        let mut out: Vec<Delivery> = Vec::new();
        assert(delivery_models(out@) =~= Seq::empty());
        dispatch(&self.subscriptions, change, &mut out);
        assert(Seq::empty() + deliveries(change@, self@) =~= deliveries(change@, self@));
        out
    }
}

} // verus!
