//! Who is told of a change, and what each is told.

use vstd::prelude::*;
use crate::tree::address::TreeAddress;
use crate::tree::change::TreeChange;
use crate::tree::edit::{change_applies, change_relative, ChangeModel};
use crate::tree::extent::TreeExtent;
use crate::tree::forest::Step;
use super::subscriptionmanager::SubscriptionManager;

verus! {

/// What a subscriber asked for: the changes that touch an extent at an address.
pub struct ConsumerRegistration {
    pub address: TreeAddress,
    pub extent: TreeExtent,
}

/// Mathematical content of a registration.
pub ghost struct RegistrationModel {
    pub address: Seq<Step>,
    pub extent: TreeExtent,
}

impl View for ConsumerRegistration {
    type V = RegistrationModel;

    open spec fn view(&self) -> RegistrationModel {
        RegistrationModel { address: self.address@, extent: self.extent }
    }
}

impl Clone for ConsumerRegistration {
    fn clone(&self) -> (r: ConsumerRegistration)
        ensures
            r@ == self@,
    {
        ConsumerRegistration { address: self.address.clone(), extent: self.extent }
    }
}

/// A change to hand to a subscriber, as seen from the address it subscribed at.
pub struct Delivery {
    /// The position of the subscription in its registry.
    pub subscription: usize,
    /// The change, relative to the address of the subscription.
    pub change: TreeChange,
}

/// Mathematical content of a delivery.
pub ghost struct DeliveryModel {
    pub subscription: nat,
    pub change: ChangeModel,
}

impl View for Delivery {
    type V = DeliveryModel;

    open spec fn view(&self) -> DeliveryModel {
        DeliveryModel { subscription: self.subscription as nat, change: self.change@ }
    }
}

/// The registrations a registry holds.
pub open spec fn registrations(data: Seq<ConsumerRegistration>) -> Seq<RegistrationModel> {
    data.map_values(|r: ConsumerRegistration| r@)
}

/// The content of a sequence of deliveries.
pub open spec fn delivery_models(ds: Seq<Delivery>) -> Seq<DeliveryModel> {
    ds.map_values(|d: Delivery| d@)
}

/// What a subscriber is told of a change: the change as seen from its
/// address, if the change touches the extent it asked for and can be seen
/// from there. A question that the addresses leave open counts as no.
pub open spec fn delivery_for(c: ChangeModel, reg: RegistrationModel) -> Option<ChangeModel> {
    if change_applies(c, reg.address, reg.extent) == Some(true) {
        change_relative(c, reg.address)
    } else {
        None
    }
}

/// The deliveries one change leads to: one for each subscriber that is told
/// of it, in the order of subscription.
pub open spec fn deliveries(c: ChangeModel, regs: Seq<RegistrationModel>) -> Seq<DeliveryModel>
    decreases regs.len(),
{
    if regs.len() == 0 {
        Seq::empty()
    } else {
        let before = deliveries(c, regs.drop_last());
        match delivery_for(c, regs.last()) {
            Some(seen) => before.push(
                DeliveryModel { subscription: (regs.len() - 1) as nat, change: seen },
            ),
            None => before,
        }
    }
}

/// The deliveries a batch of changes leads to: those of the first change,
/// then those of the second, and so on.
pub open spec fn batch_deliveries(changes: Seq<ChangeModel>, regs: Seq<RegistrationModel>) -> Seq<
    DeliveryModel,
>
    decreases changes.len(),
{
    if changes.len() == 0 {
        Seq::empty()
    } else {
        batch_deliveries(changes.drop_last(), regs) + deliveries(changes.last(), regs)
    }
}

/// Of two changes that wait, every delivery of the first comes before every
/// delivery of the second.
pub proof fn lemma_batch_of_two(first: ChangeModel, second: ChangeModel, regs: Seq<RegistrationModel>)
    ensures
        batch_deliveries(seq![first, second], regs) == deliveries(first, regs) + deliveries(
            second,
            regs,
        ),
{
    let both = seq![first, second];
    assert(both.drop_last() =~= seq![first]);
    assert(seq![first].drop_last() =~= Seq::<ChangeModel>::empty());
    assert(batch_deliveries(seq![first], regs) == batch_deliveries(Seq::empty(), regs)
        + deliveries(first, regs));
    assert(Seq::<DeliveryModel>::empty() + deliveries(first, regs) =~= deliveries(first, regs));
}

/// Appends to `out` the deliveries that `change` leads to.
pub fn dispatch(
    subscriptions: &SubscriptionManager<ConsumerRegistration>,
    change: &TreeChange,
    out: &mut Vec<Delivery>,
)
    ensures
        delivery_models(final(out)@) == delivery_models(old(out)@) + deliveries(
            change@,
            registrations(subscriptions@),
        ),
{
    let ghost regs = registrations(subscriptions@);
    let ghost start = delivery_models(out@);
    let mut i: usize = 0;
    assert(regs.take(0) =~= Seq::<RegistrationModel>::empty());
    assert(start + Seq::<DeliveryModel>::empty() =~= start);
    while i < subscriptions.len()
        invariant
            i <= subscriptions@.len(),
            regs == registrations(subscriptions@),
            delivery_models(out@) == start + deliveries(change@, regs.take(i as int)),
        decreases subscriptions@.len() - i,
    {
        let registration = subscriptions.data(i);
        let ghost before = out@;
        let ghost upto = regs.take(i as int + 1);
        proof {
            assert(upto.drop_last() =~= regs.take(i as int));
            assert(upto.last() == registration@);
        }
        if change.applies_to(&registration.address, &registration.extent) == Some(true) {
            match change.relative_to(&registration.address) {
                Some(relative_change) => {
                    out.push(Delivery { subscription: i, change: relative_change });
                    proof {
                        assert(delivery_models(out@) =~= delivery_models(before).push(
                            out@.last()@,
                        ));
                        assert(start + deliveries(change@, upto) =~= (start + deliveries(
                            change@,
                            regs.take(i as int),
                        )).push(out@.last()@));
                    }
                },
                None => {},
            }
        }
        i += 1;
    }
    assert(regs.take(i as int) =~= regs);
}

} // verus!
