//! A library for synchronising trees and reacting to change.
//!
//! Components exchange data as trees and as edits to those trees. The `tree`
//! module holds the persistent tree, the address algebra and the edits;
//! `component` holds the subscription registry and the dispatchers that
//! decide which subscriber sees which edit, and in what order.

pub mod tree;
pub mod component;
pub mod util;
