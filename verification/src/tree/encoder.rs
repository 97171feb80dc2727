//! Building a tree node out of the parts of a structured value.

use vstd::prelude::*;
use std::rc::Rc;
use super::basictree::{forest_of, share_opt, BasicTree, TreeRef};
use super::forest::Forest;
use super::values::TreeValue;

verus! {

/// Why a value could not be written as a tree node.
#[derive(Debug)]
pub enum TreeNodeCodingError {
    UnsupportedType,
}

/// Collects the tag, the value and the fields of the node being written.
pub struct TreeNodeEncoder {
    tag: String,
    value: TreeValue,
    child: Option<TreeRef>,
}

impl View for TreeNodeEncoder {
    type V = Forest;

    /// The node written so far, alone.
    closed spec fn view(&self) -> Forest {
        Forest::node(self.tag@, self.value@, forest_of(self.child), Forest::Nil)
    }
}

impl TreeNodeEncoder {
    /// An encoder for a node without tag, value or fields.
    pub fn new() -> (r: TreeNodeEncoder)
        ensures
            r@ == Forest::placeholder(),
    {
        let r = TreeNodeEncoder { tag: String::new(), value: TreeValue::Nothing, child: None };
        assert(r@.head_tag() =~= Seq::<char>::empty());
        r
    }

    /// Sets the value of the node.
    pub fn emit_value(&mut self, value: TreeValue)
        ensures
            final(self)@ == Forest::node(
                old(self)@.head_tag(),
                value@,
                old(self)@.kids(),
                Forest::Nil,
            ),
    {
        self.value = value;
    }

    /// Adds a field: the node that `field` has written, under the name of the
    /// field, in front of the fields already there.
    pub fn emit_field(&mut self, f_name: &str, field: TreeNodeEncoder)
        ensures
            final(self)@ == old(self)@.with_kids(
                Forest::node(f_name@, field@.head_value(), field@.kids(), old(self)@.kids()),
            ),
    {
        let mut node_encoder = field;
        node_encoder.tag = f_name.to_owned();
        let new_node = node_encoder.to_basic_tree_node_with_sibling(share_opt(&self.child));
        self.child = Some(Rc::new(new_node));
    }

    /// The node written, followed by the sibling given.
    pub fn to_basic_tree_node_with_sibling(&self, new_sibling: Option<TreeRef>) -> (r: BasicTree)
        ensures
            r@ == self@.with_tail(forest_of(new_sibling)),
    {
        BasicTree::new(self.tag.as_str(), self.value.clone(), share_opt(&self.child), new_sibling)
    }
}

} // verus!
