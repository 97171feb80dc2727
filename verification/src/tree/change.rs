//! Changes to a tree: what they replace, where, and whom they concern.

use vstd::prelude::*;
use std::rc::Rc;
use super::address::{ToTreeAddress, TreeAddress};
use super::basictree::{forest_of, share, BasicTree, TreeRef};
use super::edit::{
    address_applies, applies_to_children, applies_to_node, change_applies, change_relative, edit,
    edit_tree,
    lemma_alone_concat, lemma_concat_assoc, lemma_concat_nil, lemma_link_push,
    lemma_padded_prefix_step, ChangeModel, ReplacementModel,
};
use super::extent::TreeExtent;
use super::forest::{lemma_skip_tail, link, Forest, Step};
use super::path::{lemma_cons, lemma_parent_of_prefix};
use super::treenode::{forests, same_text, ToTreeNode};
use super::treenode_index::TreeNodeIndex;
use super::values::TreeValue;

verus! {

/// The replacement action to perform on a particular tree node.
pub enum TreeReplacement {
    /// Removes this node
    Remove,
    /// Replaces the node with a new node
    NewNode(TreeRef),
    /// Changes the value of the node but leaves its children intact
    NewValue(String, TreeValue),
}

impl View for TreeReplacement {
    type V = ReplacementModel;

    /// A new node stands for its own tree: the siblings it may have are no part of it.
    open spec fn view(&self) -> ReplacementModel {
        match self {
            TreeReplacement::Remove => ReplacementModel::Remove,
            TreeReplacement::NewNode(node) => ReplacementModel::NewNode(node@.alone()),
            TreeReplacement::NewValue(tag, value) => ReplacementModel::NewValue(tag@, value@),
        }
    }
}

impl Clone for TreeReplacement {
    fn clone(&self) -> (r: TreeReplacement)
        ensures
            r@ == self@,
    {
        match self {
            TreeReplacement::Remove => TreeReplacement::Remove,
            TreeReplacement::NewNode(node) => TreeReplacement::NewNode(share(node)),
            TreeReplacement::NewValue(tag, value) => TreeReplacement::NewValue(
                tag.clone(),
                value.clone(),
            ),
        }
    }
}

/// Types that can be converted to a tree replacement.
pub trait ToTreeReplacement {
    /// The replacement this object stands for.
    spec fn replacement_model(&self) -> ReplacementModel;

    /// Creates a representation of this object as a tree replacement.
    fn to_tree_replacement(&self) -> (r: TreeReplacement)
        ensures
            r@ == self.replacement_model(),
    ;
}

impl<T: ToTreeNode> ToTreeReplacement for T {
    open spec fn replacement_model(&self) -> ReplacementModel {
        ReplacementModel::NewNode(self.node_model().alone())
    }

    #[inline]
    fn to_tree_replacement(&self) -> (r: TreeReplacement) {
        TreeReplacement::NewNode(self.to_tree_node())
    }
}

impl ToTreeReplacement for () {
    open spec fn replacement_model(&self) -> ReplacementModel {
        ReplacementModel::Remove
    }

    #[inline]
    fn to_tree_replacement(&self) -> (r: TreeReplacement) {
        TreeReplacement::Remove
    }
}

impl<T: ToTreeNode> ToTreeReplacement for Option<T> {
    open spec fn replacement_model(&self) -> ReplacementModel {
        match self {
            Some(node) => ReplacementModel::NewNode(node.node_model().alone()),
            None => ReplacementModel::Remove,
        }
    }

    #[inline]
    fn to_tree_replacement(&self) -> (r: TreeReplacement) {
        match self {
            Some(tree_node) => TreeReplacement::NewNode(tree_node.to_tree_node()),
            None => TreeReplacement::Remove,
        }
    }
}

impl ToTreeReplacement for TreeReplacement {
    open spec fn replacement_model(&self) -> ReplacementModel {
        self@
    }

    #[inline]
    fn to_tree_replacement(&self) -> (r: TreeReplacement) {
        self.clone()
    }
}

/// A change represents an alteration to the tree.
pub struct TreeChange {
    /// The address of the node that should be changed (can be the address of a non-existent child to add a
    /// new child, or the address of the item after the last sibling to add a new sibling)
    address: TreeAddress,
    /// What takes the place of the node at that address.
    replacement: TreeReplacement,
}

impl View for TreeChange {
    type V = ChangeModel;

    closed spec fn view(&self) -> ChangeModel {
        ChangeModel { address: self.address@, replacement: self.replacement@ }
    }
}

impl Clone for TreeChange {
    fn clone(&self) -> (r: TreeChange)
        ensures
            r@ == self@,
    {
        TreeChange { address: self.address.clone(), replacement: self.replacement.clone() }
    }
}

/// The forest a borrowed optional reference stands for.
pub open spec fn forest_of_ref(o: Option<&TreeRef>) -> Forest {
    match o {
        Some(n) => n@,
        None => Forest::Nil,
    }
}

/// The node with nothing in it that fills an empty position.
fn placeholder_node() -> (r: TreeRef)
    ensures
        r@ == Forest::placeholder(),
{
    proof {
        reveal_strlit("");
    }
    let r = Rc::new(BasicTree::new("", (), None, None));
    assert(r@.head_tag() =~= Seq::<char>::empty());
    r
}

/// Puts the nodes of `siblings`, each taken alone and in order, in front of `tail`.
fn restitch(siblings: Vec<TreeRef>, tail: Option<TreeRef>) -> (r: Option<TreeRef>)
    ensures
        forest_of(r) == link(forests(siblings@)).concat(forest_of(tail)),
{
    let mut siblings = siblings;
    let mut current = tail;
    let ghost target = link(forests(siblings@)).concat(forest_of(tail));
    while siblings.len() > 0
        invariant
            link(forests(siblings@)).concat(forest_of(current)) == target,
        decreases siblings.len(),
    {
        let ghost before = siblings@;
        let sibling = siblings.pop().unwrap();
        proof {
            assert(forests(before) =~= forests(siblings@).push(sibling@));
            lemma_link_push(forests(siblings@), sibling@);
            lemma_concat_assoc(link(forests(siblings@)), sibling@.alone(), forest_of(current));
            lemma_alone_concat(sibling@, forest_of(current));
        }
        current = Some(sibling.with_sibling_node(current.as_ref()));
    }
    assert(forests(siblings@) =~= Seq::<Forest>::empty());
    current
}

impl TreeChange {
    /// Creates a new tree change.
    #[inline]
    pub fn new<TAddress: ToTreeAddress, TReplacement: ToTreeReplacement>(
        root: &TAddress,
        replacement: &TReplacement,
    ) -> (r: TreeChange)
        ensures
            r@ == (ChangeModel {
                address: root.path(),
                replacement: replacement.replacement_model(),
            }),
    {
        TreeChange {
            address: root.to_tree_address(),
            replacement: replacement.to_tree_replacement(),
        }
    }

    /// How a replacement is applied to a particular tree node (or to nothing).
    fn perform_replacement(original: Option<&TreeRef>, replacement: &TreeReplacement) -> (r: Option<TreeRef>)
        ensures
            forest_of(r) == super::edit::edit_here(forest_of_ref(original), replacement@),
    {
        let original_sibling = match original {
            Some(x) => x.get_sibling_ref(),
            None => None,
        };
        match replacement {
            TreeReplacement::Remove => original_sibling,
            TreeReplacement::NewNode(new_node) => Some(
                new_node.with_sibling_node(original_sibling.as_ref()),
            ),
            TreeReplacement::NewValue(tag, value) => {
                let original_child = match original {
                    Some(x) => x.get_child_ref(),
                    None => None,
                };
                Some(
                    Rc::new(
                        BasicTree::new(tag.as_str(), value, original_child, original_sibling),
                    ),
                )
            },
        }
    }

    /// Walks the children of a node up to the position with the given index.
    /// Returns the nodes passed on the way, with placeholders for positions
    /// past the end, and what is found at the position.
    fn walk_to_index(first_child: Option<TreeRef>, child_index: usize) -> (r: (
        Vec<TreeRef>,
        Option<TreeRef>,
    ))
        ensures
            link(forests(r.0@)) == forest_of(first_child).padded_prefix(child_index as nat),
            forest_of(r.1) == forest_of(first_child).skip(child_index as nat),
    {
        let ghost kids = forest_of(first_child);
        let mut siblings: Vec<TreeRef> = Vec::new();
        let mut current = first_child;
        let mut k: usize = 0;
        assert(forests(siblings@) =~= Seq::<Forest>::empty());
        while k < child_index
            invariant
                k <= child_index,
                link(forests(siblings@)) == kids.padded_prefix(k as nat),
                forest_of(current) == kids.skip(k as nat),
            decreases child_index - k,
        {
            let ghost before = siblings@;
            proof {
                lemma_padded_prefix_step(kids, k as nat);
                lemma_skip_tail(kids, k as nat);
            }
            match current {
                Some(node) => {
                    current = node.get_sibling_ref();
                    siblings.push(node);
                },
                None => {
                    siblings.push(placeholder_node());
                },
            }
            proof {
                assert(forests(siblings@) =~= forests(before).push(siblings@.last()@));
                lemma_link_push(forests(before), siblings@.last()@);
            }
            k += 1;
        }
        (siblings, current)
    }

    /// Walks the children of a node up to the first one with the given tag.
    /// Returns the nodes passed on the way and the node found, if any.
    fn walk_to_tag(first_child: Option<TreeRef>, child_tag: &str) -> (r: (
        Vec<TreeRef>,
        Option<TreeRef>,
    ))
        ensures
            link(forests(r.0@)) == forest_of(first_child).before_tag(child_tag@),
            forest_of(r.1) == forest_of(first_child).from_tag(child_tag@),
    {
        let ghost kids = forest_of(first_child);
        let mut siblings: Vec<TreeRef> = Vec::new();
        let mut current = first_child;
        assert(forests(siblings@) =~= Seq::<Forest>::empty());
        loop
            invariant
                kids == forest_of(first_child),
                link(forests(siblings@)).concat(forest_of(current).before_tag(child_tag@))
                    == kids.before_tag(child_tag@),
                forest_of(current).from_tag(child_tag@) == kids.from_tag(child_tag@),
            decreases forest_of(current).len(),
        {
            let ghost before = siblings@;
            match current {
                None => {
                    proof {
                        lemma_concat_nil(link(forests(siblings@)));
                    }
                    return (siblings, None);
                },
                Some(node) => {
                    if same_text(node.get_tag(), child_tag) {
                        proof {
                            lemma_concat_nil(link(forests(siblings@)));
                        }
                        return (siblings, Some(node));
                    }
                    current = node.get_sibling_ref();
                    proof {
                        lemma_link_push(forests(before), node@);
                        lemma_concat_assoc(
                            link(forests(before)),
                            node@.alone(),
                            forest_of(current).before_tag(child_tag@),
                        );
                        lemma_alone_concat(node@, forest_of(current).before_tag(child_tag@));
                    }
                    siblings.push(node);
                    proof {
                        assert(forests(siblings@) =~= forests(before).push(node@));
                    }
                },
            }
        }
    }

    /// Performs the apply operation on a node (or on nothing).
    fn perform_apply(
        original: Option<&TreeRef>,
        address: &TreeAddress,
        replacement: &TreeReplacement,
    ) -> (r: Option<TreeRef>)
        ensures
            forest_of(r) == edit(forest_of_ref(original), address@, replacement@),
        decreases address,
    {
        match address {
            TreeAddress::Here => Self::perform_replacement(original, replacement),
            TreeAddress::ChildAtIndex(child_index, child_address) => {
                proof {
                    lemma_cons(Step::Index(*child_index as nat), child_address@);
                }
                match original {
                    None => None,
                    Some(node) => {
                        let (siblings, current) = Self::walk_to_index(
                            node.get_child_ref(),
                            *child_index,
                        );
                        let new_child = Self::perform_apply(
                            current.as_ref(),
                            child_address,
                            replacement,
                        );
                        let children = restitch(siblings, new_child);
                        Some(node.with_child_node(children.as_ref()))
                    },
                }
            },
            TreeAddress::ChildWithTag(child_tag, child_address) => {
                proof {
                    lemma_cons(Step::Tag(child_tag@), child_address@);
                }
                match original {
                    None => None,
                    Some(node) => {
                        let (siblings, current) = Self::walk_to_tag(
                            node.get_child_ref(),
                            child_tag.as_str(),
                        );
                        let new_child = Self::perform_apply(
                            current.as_ref(),
                            child_address,
                            replacement,
                        );
                        let children = restitch(siblings, new_child);
                        Some(node.with_child_node(children.as_ref()))
                    },
                }
            },
        }
    }

    /// The result of applying this change to an existing tree.
    ///
    /// The tree given is not touched: the result shares with it every node
    /// that the change leaves as it was. Where the change leaves nothing, the
    /// result is an empty node.
    #[inline]
    pub fn apply(&self, original_tree: &TreeRef) -> (r: TreeRef)
        ensures
            r@ == edit_tree(original_tree@, self@),
    {
        match Self::perform_apply(Some(original_tree), &self.address, &self.replacement) {
            Some(result) => result,
            None => placeholder_node(),
        }
    }

    /// Whether this change covers the address or anything below it.
    ///
    /// Corresponds to testing for an extent of `TreeExtent::SubTree`.
    pub fn applies_to_subtree(&self, address: &TreeAddress) -> (r: Option<bool>)
        ensures
            r == address_applies(self@.address, address@),
    {
        let is_parent_of_changing = self.address.is_parent_of(address);
        match is_parent_of_changing {
            Some(true) => is_parent_of_changing,
            _ => address.is_parent_of(&self.address),
        }
    }

    /// Whether this change affects the children of a particular address.
    ///
    /// Corresponds to testing for an extent of `TreeExtent::Children`.
    pub fn applies_to_child_of(&self, address: &TreeAddress) -> (r: Option<bool>)
        ensures
            r == applies_to_children(self@, address@),
    {
        self.address.parent().is_parent_of(address)
    }

    /// Whether this change affects the node at this address.
    ///
    /// Corresponds to testing for an extent of `TreeExtent::ThisNode`.
    pub fn applies_to_only(&self, address: &TreeAddress) -> (r: Option<bool>)
        ensures
            r == applies_to_node(self@, address@),
    {
        match self.replacement {
            TreeReplacement::NewValue(_, _) => Some(self.address == *address),
            _ => self.address.is_parent_of(address),
        }
    }

    /// Whether this change affects a node covered by an extent relative to an address.
    pub fn applies_to(&self, address: &TreeAddress, extent: &TreeExtent) -> (r: Option<bool>)
        ensures
            r == change_applies(self@, address@, *extent),
    {
        match extent {
            TreeExtent::ThisNode => self.applies_to_only(address),
            TreeExtent::Children => self.applies_to_child_of(address),
            TreeExtent::SubTree => self.applies_to_subtree(address),
        }
    }

    /// This change as made from the root of a tree in which the tree it is
    /// for is mounted at `address`.
    pub fn within(&self, address: &TreeAddress) -> (r: TreeChange)
        ensures
            r@ == (ChangeModel {
                address: address@ + self@.address,
                replacement: self@.replacement,
            }),
    {
        TreeChange {
            address: address.to_tree_address_then(self.address.clone()),
            replacement: self.replacement.clone(),
        }
    }

    /// The change a new tree makes at an address inside it: the node found
    /// there, or a removal where the tree has none.
    fn relative_to_tree(tree: &TreeRef, address: &TreeAddress) -> (r: TreeChange)
        ensures
            r@ == (ChangeModel {
                address: Seq::empty(),
                replacement: if tree@.at(address@) is Nil {
                    ReplacementModel::Remove
                } else {
                    ReplacementModel::NewNode(tree@.at(address@).alone())
                },
            }),
    {
        match address.lookup_index(tree) {
            Some(new_tree) => TreeChange {
                address: TreeAddress::Here,
                replacement: TreeReplacement::NewNode(new_tree),
            },
            None => TreeChange { address: TreeAddress::Here, replacement: TreeReplacement::Remove },
        }
    }

    /// Creates a new tree change that's relative to a subtree of the tree this change is for.
    ///
    /// Ie, this reduces the scope of the change. If this change is for `.1.2.`, then asking for
    /// `relative_to(&1.to_tree_address())` will return a change for `.2.`.
    pub fn relative_to(&self, address: &TreeAddress) -> (r: Option<TreeChange>)
        ensures
            r is Some == change_relative(self@, address@) is Some,
            r matches Some(c) ==> Some(c@) == change_relative(self@, address@),
    {
        proof {
            lemma_parent_of_prefix(address@, self.address@);
            lemma_parent_of_prefix(self.address@, address@);
        }
        if address.is_parent_of(&self.address) == Some(true) {
            // The change is further down the tree: only its address changes
            match self.address.relative_to(address) {
                Some(new_address) => Some(
                    TreeChange { address: new_address, replacement: self.replacement.clone() },
                ),
                None => None,
            }
        } else {
            // The address is within the tree this change brings
            match &self.replacement {
                TreeReplacement::NewNode(tree) => {
                    match address.relative_to(&self.address) {
                        Some(inside) => {
                            proof {
                                lemma_at_alone(tree@, inside@);
                            }
                            Some(Self::relative_to_tree(tree, &inside))
                        },
                        None => None,
                    }
                },
                _ => None,
            }
        }
    }
}

/// Below its first tree a forest holds what the first tree alone holds.
pub proof fn lemma_at_alone(f: Forest, path: Seq<Step>)
    requires
        path.len() > 0,
    ensures
        f.alone().at(path) == f.at(path),
{
}

} // verus!
