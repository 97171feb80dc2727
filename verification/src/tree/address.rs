//! Addresses of nodes relative to other nodes.

use vstd::prelude::*;
use vstd::std_specs::cmp::PartialEqSpecImpl;
use super::basictree::{share, TreeRef};
use super::forest::Step;
use super::path::{
    lemma_at_cons, lemma_at_nil, lemma_cons, lemma_cons_eq, lemma_cons_parent, lemma_cons_prefix,
    parent_of, parent_path, relative,
};
use super::treenode_index::TreeNodeIndex;

verus! {

/// The address of a node relative to another node.
pub enum TreeAddress {
    /// Selects this node
    Here,
    /// Selects a child of this node by index, then selects a new address from there
    ChildAtIndex(usize, Box<TreeAddress>),
    /// Selects a child of this node by tag name, then selects a new address from there
    ChildWithTag(String, Box<TreeAddress>),
}

impl View for TreeAddress {
    type V = Seq<Step>;

    /// The steps of the address, outermost first.
    open spec fn view(&self) -> Seq<Step>
        decreases self,
    {
        match self {
            TreeAddress::Here => Seq::empty(),
            TreeAddress::ChildAtIndex(index, rest) => seq![Step::Index(*index as nat)] + (**rest).view(),
            TreeAddress::ChildWithTag(tag, rest) => seq![Step::Tag(tag@)] + (**rest).view(),
        }
    }
}

impl Clone for TreeAddress {
    fn clone(&self) -> (r: TreeAddress)
        ensures
            r@ == self@,
        decreases self,
    {
        match self {
            TreeAddress::Here => TreeAddress::Here,
            TreeAddress::ChildAtIndex(index, rest) => TreeAddress::ChildAtIndex(
                *index,
                Box::new((**rest).clone()),
            ),
            TreeAddress::ChildWithTag(tag, rest) => TreeAddress::ChildWithTag(
                tag.clone(),
                Box::new((**rest).clone()),
            ),
        }
    }
}

impl PartialEq for TreeAddress {
    fn eq(&self, other: &TreeAddress) -> (r: bool)
        decreases self,
    {
        match self {
            TreeAddress::Here => {
                match other {
                    TreeAddress::Here => true,
                    TreeAddress::ChildAtIndex(rhs_index, rhs_child) => {
                        proof {
                            lemma_cons(Step::Index(*rhs_index as nat), rhs_child@);
                        }
                        false
                    },
                    TreeAddress::ChildWithTag(rhs_tag, rhs_child) => {
                        proof {
                            lemma_cons(Step::Tag(rhs_tag@), rhs_child@);
                        }
                        false
                    },
                }
            },
            TreeAddress::ChildAtIndex(self_index, self_child) => {
                proof {
                    lemma_cons(Step::Index(*self_index as nat), self_child@);
                }
                match other {
                    TreeAddress::ChildAtIndex(rhs_index, rhs_child) => {
                        proof {
                            lemma_cons_eq(
                                Step::Index(*self_index as nat),
                                self_child@,
                                Step::Index(*rhs_index as nat),
                                rhs_child@,
                            );
                        }
                        *self_index == *rhs_index && (**self_child).eq(&**rhs_child)
                    },
                    TreeAddress::ChildWithTag(rhs_tag, rhs_child) => {
                        proof {
                            lemma_cons(Step::Tag(rhs_tag@), rhs_child@);
                        }
                        false
                    },
                    TreeAddress::Here => false,
                }
            },
            TreeAddress::ChildWithTag(self_tag, self_child) => {
                proof {
                    lemma_cons(Step::Tag(self_tag@), self_child@);
                }
                match other {
                    TreeAddress::ChildWithTag(rhs_tag, rhs_child) => {
                        proof {
                            lemma_cons_eq(
                                Step::Tag(self_tag@),
                                self_child@,
                                Step::Tag(rhs_tag@),
                                rhs_child@,
                            );
                        }
                        *self_tag == *rhs_tag && (**self_child).eq(&**rhs_child)
                    },
                    TreeAddress::ChildAtIndex(rhs_index, rhs_child) => {
                        proof {
                            lemma_cons(Step::Index(*rhs_index as nat), rhs_child@);
                        }
                        false
                    },
                    TreeAddress::Here => false,
                }
            },
        }
    }
}

impl PartialEqSpecImpl for TreeAddress {
    open spec fn obeys_eq_spec() -> bool {
        true
    }

    /// Two addresses are equal when they take the same steps.
    open spec fn eq_spec(&self, other: &TreeAddress) -> bool {
        self@ == other@
    }
}

impl Eq for TreeAddress {

}

/// `Here` is the one address without steps.
pub proof fn lemma_here_is_empty(a: TreeAddress)
    ensures
        (a is Here) == (a@.len() == 0),
{
    match a {
        TreeAddress::Here => {},
        TreeAddress::ChildAtIndex(index, rest) => {
            lemma_cons(Step::Index(index as nat), rest@);
        },
        TreeAddress::ChildWithTag(tag, rest) => {
            lemma_cons(Step::Tag(tag@), rest@);
        },
    }
}

impl TreeAddress {
    /// Whether this address is a parent of `address`, or the same address.
    ///
    /// `None` if the two addresses are in incompatible formats (a tag that
    /// would have to be matched against an index).
    pub fn is_parent_of(&self, address: &TreeAddress) -> (r: Option<bool>)
        ensures
            r == parent_of(self@, address@),
        decreases self,
    {
        match self {
            TreeAddress::Here => Some(true),
            TreeAddress::ChildAtIndex(self_index, self_child) => {
                proof {
                    lemma_cons(Step::Index(*self_index as nat), self_child@);
                }
                match address {
                    TreeAddress::ChildAtIndex(address_index, address_child) => {
                        proof {
                            lemma_cons(Step::Index(*address_index as nat), address_child@);
                        }
                        if *self_index == *address_index {
                            self_child.is_parent_of(address_child)
                        } else {
                            Some(false)
                        }
                    },
                    TreeAddress::Here => Some(false),
                    TreeAddress::ChildWithTag(address_tag, address_child) => {
                        proof {
                            lemma_cons(Step::Tag(address_tag@), address_child@);
                        }
                        None
                    },
                }
            },
            TreeAddress::ChildWithTag(self_tag, self_child) => {
                proof {
                    lemma_cons(Step::Tag(self_tag@), self_child@);
                }
                match address {
                    TreeAddress::ChildWithTag(address_tag, address_child) => {
                        proof {
                            lemma_cons(Step::Tag(address_tag@), address_child@);
                        }
                        if *self_tag == *address_tag {
                            self_child.is_parent_of(address_child)
                        } else {
                            Some(false)
                        }
                    },
                    TreeAddress::Here => Some(false),
                    TreeAddress::ChildAtIndex(address_index, address_child) => {
                        proof {
                            lemma_cons(Step::Index(*address_index as nat), address_child@);
                        }
                        None
                    },
                }
            },
        }
    }

    /// Whether this address is a child of `address`, or the same address.
    #[inline]
    pub fn is_child_of(&self, address: &TreeAddress) -> (r: Option<bool>)
        ensures
            r == parent_of(address@, self@),
    {
        address.is_parent_of(self)
    }

    /// This address as seen from `parent_address`: the steps that are left
    /// after it. `None` unless `parent_address` is a prefix of this address.
    pub fn relative_to(&self, parent_address: &TreeAddress) -> (r: Option<TreeAddress>)
        ensures
            r is Some == relative(self@, parent_address@) is Some,
            r matches Some(suffix) ==> Some(suffix@) == relative(self@, parent_address@),
        decreases self,
    {
        match parent_address {
            TreeAddress::Here => {
                assert(self@.skip(0) =~= self@);
                Some(self.clone())
            },
            TreeAddress::ChildAtIndex(parent_index, parent_child) => {
                match self {
                    TreeAddress::ChildAtIndex(self_index, self_child) => {
                        proof {
                            lemma_cons_prefix(
                                Step::Index(*parent_index as nat),
                                parent_child@,
                                Step::Index(*self_index as nat),
                                self_child@,
                            );
                            lemma_cons(Step::Index(*parent_index as nat), parent_child@);
                        }
                        if *self_index == *parent_index {
                            self_child.relative_to(parent_child)
                        } else {
                            None
                        }
                    },
                    TreeAddress::ChildWithTag(self_tag, self_child) => {
                        proof {
                            lemma_cons_prefix(
                                Step::Index(*parent_index as nat),
                                parent_child@,
                                Step::Tag(self_tag@),
                                self_child@,
                            );
                        }
                        None
                    },
                    TreeAddress::Here => {
                        proof {
                            lemma_cons(Step::Index(*parent_index as nat), parent_child@);
                        }
                        None
                    },
                }
            },
            TreeAddress::ChildWithTag(parent_tag, parent_child) => {
                match self {
                    TreeAddress::ChildWithTag(self_tag, self_child) => {
                        proof {
                            lemma_cons_prefix(
                                Step::Tag(parent_tag@),
                                parent_child@,
                                Step::Tag(self_tag@),
                                self_child@,
                            );
                            lemma_cons(Step::Tag(parent_tag@), parent_child@);
                        }
                        if *self_tag == *parent_tag {
                            self_child.relative_to(parent_child)
                        } else {
                            None
                        }
                    },
                    TreeAddress::ChildAtIndex(self_index, self_child) => {
                        proof {
                            lemma_cons_prefix(
                                Step::Tag(parent_tag@),
                                parent_child@,
                                Step::Index(*self_index as nat),
                                self_child@,
                            );
                        }
                        None
                    },
                    TreeAddress::Here => {
                        proof {
                            lemma_cons(Step::Tag(parent_tag@), parent_child@);
                        }
                        None
                    },
                }
            },
        }
    }

    /// The parent of this address: the address without its last step.
    /// `Here` has no parent other than itself.
    pub fn parent(&self) -> (r: TreeAddress)
        ensures
            r@ == parent_path(self@),
        decreases self,
    {
        match self {
            TreeAddress::Here => TreeAddress::Here,
            TreeAddress::ChildAtIndex(index, child) => {
                proof {
                    lemma_cons_parent(Step::Index(*index as nat), child@);
                    lemma_here_is_empty(**child);
                }
                match **child {
                    TreeAddress::Here => TreeAddress::Here,
                    _ => TreeAddress::ChildAtIndex(*index, Box::new(child.parent())),
                }
            },
            TreeAddress::ChildWithTag(tag, child) => {
                proof {
                    lemma_cons_parent(Step::Tag(tag@), child@);
                    lemma_here_is_empty(**child);
                }
                match **child {
                    TreeAddress::Here => TreeAddress::Here,
                    _ => TreeAddress::ChildWithTag(tag.clone(), Box::new(child.parent())),
                }
            },
        }
    }
}

impl TreeNodeIndex for TreeAddress {
    open spec fn index_path(&self) -> Seq<Step> {
        self@
    }

    fn lookup_index(&self, parent_node: &TreeRef) -> (r: Option<TreeRef>)
        decreases self,
    {
        match self {
            TreeAddress::Here => Some(share(parent_node)),
            TreeAddress::ChildAtIndex(pos, next) => {
                proof {
                    lemma_at_cons(parent_node@, Step::Index(*pos as nat), next@);
                    lemma_at_nil(next@);
                }
                match parent_node.lookup_child_at_index(*pos) {
                    Some(new_parent) => next.lookup_index(&new_parent),
                    None => None,
                }
            },
            TreeAddress::ChildWithTag(name, next) => {
                proof {
                    lemma_at_cons(parent_node@, Step::Tag(name@), next@);
                    lemma_at_nil(next@);
                }
                match parent_node.lookup_child_with_tag(name.as_str()) {
                    Some(new_parent) => next.lookup_index(&new_parent),
                    None => None,
                }
            },
        }
    }
}

/// Types that can be converted to tree addresses.
pub trait ToTreeAddress {
    /// The steps of the address this object stands for.
    spec fn path(&self) -> Seq<Step>;

    /// The address this object stands for.
    fn to_tree_address(&self) -> (r: TreeAddress)
        ensures
            r@ == self.path(),
    ;

    /// The address this object stands for, followed by `then`.
    fn to_tree_address_then(&self, then: TreeAddress) -> (r: TreeAddress)
        ensures
            r@ == self.path() + then@,
    ;
}

impl ToTreeAddress for () {
    open spec fn path(&self) -> Seq<Step> {
        Seq::empty()
    }

    #[inline]
    fn to_tree_address(&self) -> (r: TreeAddress) {
        TreeAddress::Here
    }

    #[inline]
    fn to_tree_address_then(&self, then: TreeAddress) -> (r: TreeAddress) {
        assert(Seq::<Step>::empty() + then@ =~= then@);
        then
    }
}

impl ToTreeAddress for usize {
    open spec fn path(&self) -> Seq<Step> {
        seq![Step::Index(*self as nat)]
    }

    #[inline]
    fn to_tree_address(&self) -> (r: TreeAddress) {
        let r = TreeAddress::ChildAtIndex(*self, Box::new(TreeAddress::Here));
        assert(r@ =~= seq![Step::Index(*self as nat)]) by {
            lemma_here_is_empty(TreeAddress::Here);
        }
        r
    }

    #[inline]
    fn to_tree_address_then(&self, then: TreeAddress) -> (r: TreeAddress) {
        TreeAddress::ChildAtIndex(*self, Box::new(then))
    }
}

impl<'a> ToTreeAddress for &'a str {
    open spec fn path(&self) -> Seq<Step> {
        seq![Step::Tag((*self)@)]
    }

    #[inline]
    fn to_tree_address(&self) -> (r: TreeAddress) {
        let tag: String = (*self).to_owned();
        let r = TreeAddress::ChildWithTag(tag, Box::new(TreeAddress::Here));
        assert(r@ =~= seq![Step::Tag((*self)@)]) by {
            lemma_here_is_empty(TreeAddress::Here);
        }
        r
    }

    #[inline]
    fn to_tree_address_then(&self, then: TreeAddress) -> (r: TreeAddress) {
        let tag: String = (*self).to_owned();
        TreeAddress::ChildWithTag(tag, Box::new(then))
    }
}

impl ToTreeAddress for TreeAddress {
    open spec fn path(&self) -> Seq<Step> {
        self@
    }

    #[inline]
    fn to_tree_address(&self) -> (r: TreeAddress) {
        self.clone()
    }

    fn to_tree_address_then(&self, then: TreeAddress) -> (r: TreeAddress)
        decreases self,
    {
        match self {
            TreeAddress::Here => {
                assert(Seq::<Step>::empty() + then@ =~= then@);
                then
            },
            TreeAddress::ChildAtIndex(index, old_then) => {
                assert((seq![Step::Index(*index as nat)] + old_then@) + then@ =~= seq![
                    Step::Index(*index as nat),
                ] + (old_then@ + then@));
                TreeAddress::ChildAtIndex(*index, Box::new(old_then.to_tree_address_then(then)))
            },
            TreeAddress::ChildWithTag(tag, old_then) => {
                assert((seq![Step::Tag(tag@)] + old_then@) + then@ =~= seq![Step::Tag(tag@)] + (
                old_then@ + then@));
                TreeAddress::ChildWithTag(
                    tag.clone(),
                    Box::new(old_then.to_tree_address_then(then)),
                )
            },
        }
    }
}

impl<TFirst: ToTreeAddress, TSecond: ToTreeAddress> ToTreeAddress for (TFirst, TSecond) {
    open spec fn path(&self) -> Seq<Step> {
        self.0.path() + self.1.path()
    }

    #[inline]
    fn to_tree_address(&self) -> (r: TreeAddress) {
        self.0.to_tree_address_then(self.1.to_tree_address())
    }

    #[inline]
    fn to_tree_address_then(&self, then: TreeAddress) -> (r: TreeAddress) {
        self.to_tree_address().to_tree_address_then(then)
    }
}

/// A shorthand address: the first part, then the second.
///
/// This also works as a tree node index, so a node can be looked up with
/// `Addr(0, ())`.
pub struct Addr<TFirst: ToTreeAddress, TSecond: ToTreeAddress>(pub TFirst, pub TSecond);

impl<TFirst: ToTreeAddress, TSecond: ToTreeAddress> ToTreeAddress for Addr<TFirst, TSecond> {
    open spec fn path(&self) -> Seq<Step> {
        self.0.path() + self.1.path()
    }

    #[inline]
    fn to_tree_address(&self) -> (r: TreeAddress) {
        self.0.to_tree_address_then(self.1.to_tree_address())
    }

    #[inline]
    fn to_tree_address_then(&self, then: TreeAddress) -> (r: TreeAddress) {
        self.to_tree_address().to_tree_address_then(then)
    }
}

impl<TFirst: ToTreeAddress, TSecond: ToTreeAddress> TreeNodeIndex for Addr<TFirst, TSecond> {
    open spec fn index_path(&self) -> Seq<Step> {
        self.0.path() + self.1.path()
    }

    #[inline]
    fn lookup_index(&self, parent_node: &TreeRef) -> (r: Option<TreeRef>) {
        self.0.to_tree_address_then(self.1.to_tree_address()).lookup_index(parent_node)
    }
}

} // verus!
