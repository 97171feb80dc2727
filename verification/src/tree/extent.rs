//! How far from a node an interest reaches.

use vstd::prelude::*;
use super::address::{lemma_here_is_empty, TreeAddress};
use super::forest::Step;
use super::path::lemma_cons;

verus! {

/// A series of nodes starting at a specified node.
#[derive(Clone, Copy, PartialEq, Eq, Structural, Debug)]
pub enum TreeExtent {
    /// Just the initial node
    ThisNode,
    /// The children of this node
    ///
    /// This does not extend beyond the immediate children of the current node.
    Children,
    /// The entire subtree (all children, and their children, and so on)
    ///
    /// Unlike Children, this covers the current node and its entire subtree
    SubTree,
}

/// Whether an extent reaches a path that starts where the extent starts.
pub open spec fn extent_covers(extent: TreeExtent, path: Seq<Step>) -> bool {
    match extent {
        TreeExtent::ThisNode => path.len() == 0,
        TreeExtent::Children => path.len() == 1,
        TreeExtent::SubTree => true,
    }
}

impl TreeExtent {
    /// True if this extent covers the address, which is relative to where the extent starts.
    pub fn covers(&self, address: &TreeAddress) -> (r: bool)
        ensures
            r == extent_covers(*self, address@),
    {
        match self {
            TreeExtent::ThisNode => {
                proof {
                    lemma_here_is_empty(*address);
                }
                match address {
                    TreeAddress::Here => true,
                    _ => false,
                }
            },
            TreeExtent::Children => {
                match address {
                    TreeAddress::ChildAtIndex(index, child_address) => {
                        proof {
                            lemma_cons(Step::Index(*index as nat), child_address@);
                            lemma_here_is_empty(**child_address);
                        }
                        match **child_address {
                            TreeAddress::Here => true,
                            _ => false,
                        }
                    },
                    TreeAddress::ChildWithTag(tag, child_address) => {
                        proof {
                            lemma_cons(Step::Tag(tag@), child_address@);
                            lemma_here_is_empty(**child_address);
                        }
                        match **child_address {
                            TreeAddress::Here => true,
                            _ => false,
                        }
                    },
                    TreeAddress::Here => false,
                }
            },
            TreeExtent::SubTree => true,
        }
    }
}

} // verus!
