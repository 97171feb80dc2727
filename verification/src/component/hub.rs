//! A bus whose readers and writers are mounted at addresses of one tree.

use vstd::prelude::*;
use crate::tree::address::ToTreeAddress;
use crate::tree::change::TreeChange;
use crate::tree::edit::ChangeModel;
use crate::tree::extent::TreeExtent;
use super::bus_publisher::TreeChangeBus;
use super::dispatch::{batch_deliveries, delivery_models, Delivery, RegistrationModel};

verus! {

/// Routes changes between components mounted at addresses of one tree.
pub struct Hub {
    bus: TreeChangeBus,
}

impl Hub {
    /// The changes that wait for the next pump, addressed from the root.
    pub closed spec fn waiting(&self) -> Seq<ChangeModel> {
        self.bus.waiting()
    }

    /// The readers, in the order they were mounted.
    pub closed spec fn readers(&self) -> Seq<RegistrationModel> {
        self.bus.subscribers()
    }

    /// A hub with nothing waiting and no readers.
    pub fn new() -> (r: Hub)
        ensures
            r.waiting() == Seq::<ChangeModel>::empty(),
            r.readers() == Seq::<RegistrationModel>::empty(),
    {
        Hub { bus: TreeChangeBus::new() }
    }

    /// Mounts a reader at an address: it is told of every change that touches
    /// the subtree there, as seen from that address. Returns the number by
    /// which its deliveries are marked.
    pub fn read_from<T: ToTreeAddress>(&mut self, address: &T) -> (id: usize)
        ensures
            final(self).readers() == old(self).readers().push(
                RegistrationModel { address: address.path(), extent: TreeExtent::SubTree },
            ),
            final(self).waiting() == old(self).waiting(),
            id == old(self).readers().len(),
    {
        let target_address = address.to_tree_address();
        self.bus.subscribe(target_address, TreeExtent::SubTree)
    }

    /// Publishes a change made by a writer mounted at an address: the change
    /// is given as seen from there, and queued as seen from the root.
    pub fn publish_to<T: ToTreeAddress>(&mut self, address: &T, change: &TreeChange)
        ensures
            final(self).waiting() == old(self).waiting().push(
                ChangeModel {
                    address: address.path() + change@.address,
                    replacement: change@.replacement,
                },
            ),
            final(self).readers() == old(self).readers(),
    {
        let target_address = address.to_tree_address();
        self.bus.publish(change.within(&target_address));
    }

    /// Whether no change waits.
    pub fn is_idle(&self) -> (r: bool)
        ensures
            r == (self.waiting().len() == 0),
    {
        self.bus.is_idle()
    }

    /// Takes the changes that wait off the queue and returns the deliveries
    /// they lead to, in the order to make them.
    #[inline]
    pub fn pump(&mut self) -> (r: Vec<Delivery>)
        ensures
            final(self).waiting() == Seq::<ChangeModel>::empty(),
            final(self).readers() == old(self).readers(),
            delivery_models(r@) == batch_deliveries(old(self).waiting(), old(self).readers()),
    {
        self.bus.pump()
    }
}

} // verus!
