//! Operations every tree node offers, and conversion into tree nodes.

use vstd::prelude::*;
use std::rc::Rc;
use super::basictree::{forest_of, share, BasicTree, TreeRef};
use super::forest::{lemma_link_step, lemma_skip_tail, link, Forest};
use super::values::{ToTreeValue, ValueModel};

verus! {

/// Whether two string slices hold the same text.
pub(crate) fn same_text(a: &str, b: &str) -> (r: bool)
    ensures
        r == (a@ == b@),
{
    let x: String = a.to_owned();
    let y: String = b.to_owned();
    x == y
}

/// The forests that a vector of references stands for.
pub open spec fn forests(nodes: Seq<TreeRef>) -> Seq<Forest> {
    nodes.map_values(|n: TreeRef| n@)
}

impl BasicTree {
    /// A copy of this node with another first child.
    pub fn with_child_node(&self, new_child: Option<&TreeRef>) -> (r: TreeRef)
        ensures
            r@ == self@.with_kids(
                match new_child {
                    Some(c) => c@,
                    None => Forest::Nil,
                },
            ),
    {
        let sibling = self.get_sibling_ref();
        self.with_references(new_child, sibling.as_ref())
    }

    /// A copy of this node with another next sibling.
    pub fn with_sibling_node(&self, new_sibling: Option<&TreeRef>) -> (r: TreeRef)
        ensures
            r@ == self@.with_tail(
                match new_sibling {
                    Some(s) => s@,
                    None => Forest::Nil,
                },
            ),
    {
        let child = self.get_child_ref();
        self.with_references(child.as_ref(), new_sibling)
    }

    /// A copy of this node whose children are the given nodes, in order.
    /// Each is taken alone: whatever siblings it had are left behind.
    pub fn with_children(&self, new_children: &Vec<TreeRef>) -> (r: TreeRef)
        ensures
            r@ == self@.with_kids(link(forests(new_children@))),
    {
        let mut new_child: Option<TreeRef> = None;
        let mut i: usize = new_children.len();
        let ghost items = forests(new_children@);
        while i > 0
            invariant
                i <= new_children.len(),
                items == forests(new_children@),
                forest_of(new_child) == link(items.subrange(i as int, items.len() as int)),
            decreases i,
        {
            i -= 1;
            proof {
                lemma_link_step(items, i as int);
            }
            new_child = Some(new_children[i].with_sibling_node(new_child.as_ref()));
        }
        assert(items.subrange(0, items.len() as int) =~= items);
        self.with_child_node(new_child.as_ref())
    }

    /// The child at a position, counted from zero along the chain of children.
    pub fn lookup_child_at_index(&self, index: usize) -> (r: Option<TreeRef>)
        ensures
            forest_of(r) == self@.kids().skip(index as nat),
    {
        let mut result = self.get_child_ref();
        let mut k: usize = 0;
        while k < index
            invariant
                k <= index,
                forest_of(result) == self@.kids().skip(k as nat),
            decreases index - k,
        {
            proof {
                lemma_skip_tail(self@.kids(), k as nat);
            }
            result = match result {
                Some(x) => x.get_sibling_ref(),
                None => None,
            };
            k += 1;
        }
        result
    }

    /// The first child that carries the tag.
    pub fn lookup_child_with_tag(&self, tag: &str) -> (r: Option<TreeRef>)
        ensures
            forest_of(r) == self@.kids().from_tag(tag@),
    {
        let mut current = self.get_child_ref();
        loop
            invariant
                forest_of(current).from_tag(tag@) == self@.kids().from_tag(tag@),
            decreases forest_of(current).len(),
        {
            match current {
                None => {
                    return None;
                },
                Some(node) => {
                    if same_text(node.get_tag(), tag) {
                        return Some(node);
                    } else {
                        current = node.get_sibling_ref();
                    }
                },
            }
        }
    }
}

/// Types that can be converted into a tree node.
pub trait ToTreeNode {
    /// The node this object stands for, with the siblings that follow it.
    spec fn node_model(&self) -> Forest;

    /// The model is that of a node: never the empty forest.
    proof fn lemma_node_model(&self)
        ensures
            self.node_model() is Cons,
    ;

    fn to_tree_node(&self) -> (r: TreeRef)
        ensures
            r@ == self.node_model(),
    ;
}

impl ToTreeNode for TreeRef {
    open spec fn node_model(&self) -> Forest {
        self@
    }

    proof fn lemma_node_model(&self) {
    }

    fn to_tree_node(&self) -> (r: TreeRef) {
        share(self)
    }
}

impl<'a> ToTreeNode for &'a TreeRef {
    open spec fn node_model(&self) -> Forest {
        (**self)@
    }

    proof fn lemma_node_model(&self) {
    }

    fn to_tree_node(&self) -> (r: TreeRef) {
        share(*self)
    }
}

impl<'a> ToTreeNode for &'a str {
    open spec fn node_model(&self) -> Forest {
        Forest::node((*self)@, ValueModel::Nothing, Forest::Nil, Forest::Nil)
    }

    proof fn lemma_node_model(&self) {
    }

    fn to_tree_node(&self) -> (r: TreeRef) {
        Rc::new(BasicTree::new(*self, (), None, None))
    }
}

impl<'a, TValue: ToTreeValue> ToTreeNode for (&'a str, TValue) {
    open spec fn node_model(&self) -> Forest {
        Forest::node(self.0@, self.1.value_model(), Forest::Nil, Forest::Nil)
    }

    proof fn lemma_node_model(&self) {
    }

    fn to_tree_node(&self) -> (r: TreeRef) {
        Rc::new(BasicTree::new(self.0, self.1.to_tree_value(), None, None))
    }
}

/// Builds a tree from a root and the nodes that become its children, in order.
pub fn tree<TRoot: ToTreeNode>(root: &TRoot, children: &Vec<TreeRef>) -> (r: TreeRef)
    ensures
        r@ == root.node_model().with_kids(link(forests(children@))),
{
    let root_node = root.to_tree_node();
    root_node.with_children(children)
}

} // verus!
