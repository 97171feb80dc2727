//! Software components that communicate using trees.
//!
//! The types here decide who is told of a change and in what order. They
//! hold no callbacks: a subscriber is known by the number its subscription
//! was given, and a dispatch returns the deliveries to make, in order.

pub mod subscriptionmanager;
pub mod dispatch;
pub mod immediate_publisher;
pub mod bus_publisher;
pub mod hub;
pub mod output_tree_publisher;
