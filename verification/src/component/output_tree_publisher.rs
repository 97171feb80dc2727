//! A publisher that keeps the tree its changes add up to.

use vstd::prelude::*;
use crate::tree::basictree::{share, TreeRef};
use crate::tree::change::TreeChange;
use crate::tree::edit::edit_tree;
use crate::tree::forest::Forest;
use crate::tree::treenode::ToTreeNode;
use crate::tree::values::ValueModel;

verus! {

/// Applies every change published to it to the tree it holds.
pub struct OutputTreePublisher {
    tree: TreeRef,
}

impl View for OutputTreePublisher {
    type V = Forest;

    /// The tree held.
    closed spec fn view(&self) -> Forest {
        self.tree@
    }
}

impl OutputTreePublisher {
    /// A publisher that holds a node tagged `empty`.
    pub fn new() -> (r: OutputTreePublisher)
        ensures
            r@ == Forest::node("empty"@, ValueModel::Nothing, Forest::Nil, Forest::Nil),
    {
        OutputTreePublisher { tree: "empty".to_tree_node() }
    }

    /// Applies a change to the tree held.
    pub fn publish(&mut self, change: TreeChange)
        ensures
            final(self)@ == edit_tree(old(self)@, change@),
    {
        self.tree = change.apply(&self.tree);
    }

    /// The tree held.
    pub fn get_tree(&self) -> (r: TreeRef)
        ensures
            r@ == self@,
    {
        share(&self.tree)
    }
}

} // verus!
