//! Shorthand for giving a node another sibling.

use vstd::prelude::*;
use super::basictree::TreeRef;
use super::forest::Forest;
use super::treenode::ToTreeNode;

verus! {

/// Copies of a node with another sibling, for anything that converts into a node.
pub trait ToTreeRefSugar {
    /// The node that the copies are made of.
    spec fn sugar_model(&self) -> Forest;

    /// A copy of this node followed by `new_sibling`.
    fn with_sibling<TSibling: ToTreeNode>(&self, new_sibling: TSibling) -> (r: TreeRef)
        ensures
            r@ == self.sugar_model().with_tail(new_sibling.node_model()),
    ;

    /// A copy of this node with nothing after it.
    fn with_no_sibling(&self) -> (r: TreeRef)
        ensures
            r@ == self.sugar_model().alone(),
    ;
}

impl<TNode: ToTreeNode> ToTreeRefSugar for TNode {
    open spec fn sugar_model(&self) -> Forest {
        self.node_model()
    }

    fn with_sibling<TSibling: ToTreeNode>(&self, new_sibling: TSibling) -> (r: TreeRef) {
        let sibling_node = new_sibling.to_tree_node();
        self.to_tree_node().with_sibling_node(Some(&sibling_node))
    }

    fn with_no_sibling(&self) -> (r: TreeRef) {
        proof {
            self.lemma_node_model();
        }
        self.to_tree_node().with_sibling_node(None)
    }
}

} // verus!
