//! The in-memory tree node.

use vstd::prelude::*;
use std::rc::Rc;
use super::forest::Forest;
use super::treenode::ToTreeNode;
use super::values::{ToTreeValue, TreeValue};

verus! {

/// A basic in-memory tree node: immutable once built, and shared by
/// reference between every tree that contains it.
pub struct BasicTree {
    tag: String,
    value: TreeValue,
    child: Option<Rc<BasicTree>>,
    sibling: Option<Rc<BasicTree>>,
}

/// Reference to a tree node.
pub type TreeRef = Rc<BasicTree>;

/// The forest an optional reference stands for.
pub open spec fn forest_of(o: Option<TreeRef>) -> Forest
    decreases o, 0nat,
{
    match o {
        Some(n) => (*n).view(),
        None => Forest::Nil,
    }
}

impl BasicTree {
    /// The tag of the node.
    pub closed spec fn spec_tag(&self) -> Seq<char> {
        self.tag@
    }

    /// The value of the node.
    pub closed spec fn spec_value(&self) -> TreeValue {
        self.value
    }

    /// The reference to the first child.
    pub closed spec fn spec_child(&self) -> Option<TreeRef> {
        self.child
    }

    /// The reference to the next sibling.
    pub closed spec fn spec_sibling(&self) -> Option<TreeRef> {
        self.sibling
    }
}

impl View for BasicTree {
    type V = Forest;

    /// The node with its children, followed by its siblings.
    open spec fn view(&self) -> Forest
        decreases self, 1nat,
    {
        Forest::node(
            self.spec_tag(),
            self.spec_value()@,
            forest_of(self.spec_child()),
            forest_of(self.spec_sibling()),
        )
    }
}

/// Another reference to the same node.
///
/// Wraps `Rc::clone`, which hands back a pointer to the same allocation, so
/// the node referred to is the one given.
#[verifier::external_body]
pub(crate) fn share(node: &TreeRef) -> (r: TreeRef)
    ensures
        r == *node,
{
    Rc::clone(node)
}

/// A copy of an optional reference, to the same node.
pub(crate) fn share_opt(node: &Option<TreeRef>) -> (r: Option<TreeRef>)
    ensures
        r == *node,
{
    match node {
        Some(n) => Some(share(n)),
        None => None,
    }
}

impl BasicTree {
    /// Creates a new tree node with a particular tag, value, first child and next sibling.
    pub fn new<TValue: ToTreeValue>(
        tag: &str,
        value: TValue,
        child: Option<TreeRef>,
        sibling: Option<TreeRef>,
    ) -> (r: BasicTree)
        ensures
            r@ == Forest::node(tag@, value.value_model(), forest_of(child), forest_of(sibling)),
    {
        BasicTree { tag: tag.to_owned(), value: value.to_tree_value(), child, sibling }
    }

    /// Copies a node into a new basic node.
    pub fn from<TNode: ToTreeNode>(node: TNode) -> (r: BasicTree)
        ensures
            r@ == node.node_model(),
    {
        let as_tree_node = node.to_tree_node();
        let child = as_tree_node.get_child_ref();
        let sibling = as_tree_node.get_sibling_ref();
        BasicTree {
            tag: as_tree_node.tag.clone(),
            value: as_tree_node.value.clone(),
            child,
            sibling,
        }
    }

    /// Copies a node into a new basic node and replaces the references.
    pub fn from_with_references<TNode: ToTreeNode>(
        node: TNode,
        new_child: Option<&TreeRef>,
        new_sibling: Option<&TreeRef>,
    ) -> (r: BasicTree)
        ensures
            r@ == Forest::node(
                node.node_model().head_tag(),
                node.node_model().head_value(),
                match new_child {
                    Some(c) => c@,
                    None => Forest::Nil,
                },
                match new_sibling {
                    Some(s) => s@,
                    None => Forest::Nil,
                },
            ),
    {
        let as_tree_node = node.to_tree_node();
        let child = match new_child {
            Some(c) => Some(share(c)),
            None => None,
        };
        let sibling = match new_sibling {
            Some(s) => Some(share(s)),
            None => None,
        };
        BasicTree {
            tag: as_tree_node.tag.clone(),
            value: as_tree_node.value.clone(),
            child,
            sibling,
        }
    }

    /// Copies a node into a new basic node and replaces the child (the sibling is preserved).
    pub fn from_with_child<TNode: ToTreeNode>(node: TNode, new_child: TreeRef) -> (r: BasicTree)
        ensures
            r@ == node.node_model().with_kids(new_child@),
    {
        let as_tree_node = node.to_tree_node();
        let sibling = as_tree_node.get_sibling_ref();
        BasicTree {
            tag: as_tree_node.tag.clone(),
            value: as_tree_node.value.clone(),
            child: Some(new_child),
            sibling,
        }
    }

    /// Copies a node into a new basic node and replaces the sibling (the child is preserved).
    pub fn from_with_sibling<TNode: ToTreeNode>(node: TNode, new_sibling: TreeRef) -> (r: BasicTree)
        ensures
            r@ == node.node_model().with_tail(new_sibling@),
    {
        let as_tree_node = node.to_tree_node();
        let child = as_tree_node.get_child_ref();
        BasicTree {
            tag: as_tree_node.tag.clone(),
            value: as_tree_node.value.clone(),
            child,
            sibling: Some(new_sibling),
        }
    }

    /// The first child of this node, if it has one.
    pub fn get_child_ref(&self) -> (r: Option<TreeRef>)
        ensures
            forest_of(r) == self@.kids(),
    {
        share_opt(&self.child)
    }

    /// The next sibling of this node, if it has one.
    pub fn get_sibling_ref(&self) -> (r: Option<TreeRef>)
        ensures
            forest_of(r) == self@.tail(),
    {
        share_opt(&self.sibling)
    }

    /// The tag attached to this node.
    pub fn get_tag(&self) -> (r: &str)
        ensures
            r@ == self@.head_tag(),
    {
        self.tag.as_str()
    }

    /// The value attached to this node.
    pub fn get_value(&self) -> (r: &TreeValue)
        ensures
            r@ == self@.head_value(),
    {
        &self.value
    }

    /// A copy of this node with other references.
    pub fn with_references(&self, new_child: Option<&TreeRef>, new_sibling: Option<&TreeRef>) -> (r: TreeRef)
        ensures
            r@ == Forest::node(
                self@.head_tag(),
                self@.head_value(),
                match new_child {
                    Some(c) => c@,
                    None => Forest::Nil,
                },
                match new_sibling {
                    Some(s) => s@,
                    None => Forest::Nil,
                },
            ),
    {
        let child = match new_child {
            Some(c) => Some(share(c)),
            None => None,
        };
        let sibling = match new_sibling {
            Some(s) => Some(share(s)),
            None => None,
        };
        Rc::new(BasicTree { tag: self.tag.clone(), value: self.value.clone(), child, sibling })
    }
}

impl Clone for BasicTree {
    fn clone(&self) -> (r: BasicTree)
        ensures
            r@ == self@,
    {
        BasicTree {
            tag: self.tag.clone(),
            value: self.value.clone(),
            child: share_opt(&self.child),
            sibling: share_opt(&self.sibling),
        }
    }
}

} // verus!
