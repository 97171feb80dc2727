//! Looking a node up from another by position, by tag or by address.

use vstd::prelude::*;
use super::basictree::{forest_of, TreeRef};
use super::forest::{Forest, Step};

verus! {

/// Types that can work as a tree node index.
pub trait TreeNodeIndex {
    /// The path this index takes from the node it is applied to.
    spec fn index_path(&self) -> Seq<Step>;

    /// Finds the node this index selects, starting from `parent_node`.
    fn lookup_index(&self, parent_node: &TreeRef) -> (r: Option<TreeRef>)
        ensures
            forest_of(r) == parent_node@.at(self.index_path()),
    ;
}

/// The path of a single step.
pub proof fn lemma_at_one(f: Forest, s: Step)
    ensures
        f.at(seq![s]) == f.step(s),
{
    let p = seq![s];
    assert(p.drop_first() =~= Seq::<Step>::empty());
    assert(f.step(s).at(p.drop_first()) == f.step(s));
}

impl TreeNodeIndex for usize {
    open spec fn index_path(&self) -> Seq<Step> {
        seq![Step::Index(*self as nat)]
    }

    fn lookup_index(&self, parent_node: &TreeRef) -> (r: Option<TreeRef>) {
        proof {
            lemma_at_one(parent_node@, Step::Index(*self as nat));
        }
        parent_node.lookup_child_at_index(*self)
    }
}

impl<'b> TreeNodeIndex for &'b str {
    open spec fn index_path(&self) -> Seq<Step> {
        seq![Step::Tag((*self)@)]
    }

    /// When searching by tag, only the first node found is matched.
    fn lookup_index(&self, parent_node: &TreeRef) -> (r: Option<TreeRef>) {
        proof {
            lemma_at_one(parent_node@, Step::Tag((*self)@));
        }
        parent_node.lookup_child_with_tag(*self)
    }
}

impl TreeNodeIndex for String {
    open spec fn index_path(&self) -> Seq<Step> {
        seq![Step::Tag(self@)]
    }

    /// When searching by tag, only the first node found is matched.
    fn lookup_index(&self, parent_node: &TreeRef) -> (r: Option<TreeRef>) {
        proof {
            lemma_at_one(parent_node@, Step::Tag(self@));
        }
        parent_node.lookup_child_with_tag(self.as_str())
    }
}

/// Reaching the nodes below a node through an index.
pub trait TreeNodeLookup {
    /// The forest of the node the lookup starts from.
    spec fn lookup_root(&self) -> Forest;

    /// The node an index selects; the node must exist.
    fn get_child_at<TIndex: TreeNodeIndex>(&self, index: TIndex) -> (r: TreeRef)
        requires
            self.lookup_root().at(index.index_path()) is Cons,
        ensures
            r@ == self.lookup_root().at(index.index_path()),
    ;

    /// The node an index selects, if there is one.
    fn get_child_ref_at<TIndex: TreeNodeIndex>(&self, index: TIndex) -> (r: Option<TreeRef>)
        ensures
            forest_of(r) == self.lookup_root().at(index.index_path()),
    ;
}

impl TreeNodeLookup for TreeRef {
    open spec fn lookup_root(&self) -> Forest {
        self@
    }

    fn get_child_at<TIndex: TreeNodeIndex>(&self, index: TIndex) -> (r: TreeRef) {
        let opt_node = index.lookup_index(self);
        opt_node.unwrap()
    }

    fn get_child_ref_at<TIndex: TreeNodeIndex>(&self, index: TIndex) -> (r: Option<TreeRef>) {
        index.lookup_index(self)
    }
}

} // verus!
