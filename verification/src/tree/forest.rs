//! The mathematical model of a tree node and of a chain of siblings.
//!
//! A node is stored with a reference to its first child and one to its next
//! sibling. Read as mathematics this is an ordered forest: a list of trees,
//! each tree a tag, a value and the forest of its children. A node reference
//! stands for the non-empty forest that starts at the node and runs through
//! the siblings that follow it; an absent reference stands for the empty one.

use vstd::prelude::*;
use super::values::ValueModel;

verus! {

/// An ordered forest: `Nil`, or a first tree followed by the rest.
pub ghost enum Forest {
    Nil,
    Cons { tag: Seq<char>, value: ValueModel, children: Box<Forest>, rest: Box<Forest> },
}

/// One step of a path through a tree: to a child by position, or by tag.
pub ghost enum Step {
    Index(nat),
    Tag(Seq<char>),
}

impl Forest {
    /// The forest of one tree with the given tag, value and children.
    pub open spec fn node(tag: Seq<char>, value: ValueModel, children: Forest, rest: Forest) -> Forest {
        Forest::Cons { tag, value, children: Box::new(children), rest: Box::new(rest) }
    }

    /// The placeholder that fills a position nothing was stored at.
    pub open spec fn placeholder() -> Forest {
        Forest::node(Seq::empty(), ValueModel::Nothing, Forest::Nil, Forest::Nil)
    }

    /// Tag of the first tree (empty for the empty forest).
    pub open spec fn head_tag(self) -> Seq<char> {
        match self {
            Forest::Nil => Seq::empty(),
            Forest::Cons { tag, .. } => tag,
        }
    }

    /// Value of the first tree (`Nothing` for the empty forest).
    pub open spec fn head_value(self) -> ValueModel {
        match self {
            Forest::Nil => ValueModel::Nothing,
            Forest::Cons { value, .. } => value,
        }
    }

    /// Children of the first tree.
    pub open spec fn kids(self) -> Forest {
        match self {
            Forest::Nil => Forest::Nil,
            Forest::Cons { children, .. } => *children,
        }
    }

    /// Everything after the first tree.
    pub open spec fn tail(self) -> Forest {
        match self {
            Forest::Nil => Forest::Nil,
            Forest::Cons { rest, .. } => *rest,
        }
    }

    /// The first tree with other trees put after it.
    pub open spec fn with_tail(self, rest: Forest) -> Forest {
        match self {
            Forest::Nil => rest,
            Forest::Cons { tag, value, children, .. } => Forest::node(tag, value, *children, rest),
        }
    }

    /// The first tree with other children.
    pub open spec fn with_kids(self, children: Forest) -> Forest {
        match self {
            Forest::Nil => Forest::Nil,
            Forest::Cons { tag, value, rest, .. } => Forest::node(tag, value, children, *rest),
        }
    }

    /// Number of trees in the forest.
    pub open spec fn len(self) -> nat
        decreases self,
    {
        match self {
            Forest::Nil => 0,
            Forest::Cons { rest, .. } => 1 + rest.len(),
        }
    }

    /// The forest without its first `n` trees.
    pub open spec fn skip(self, n: nat) -> Forest
        decreases n,
    {
        if n == 0 {
            self
        } else {
            self.tail().skip((n - 1) as nat)
        }
    }

    /// The forest from the first tree tagged `tag` on (empty if there is none).
    pub open spec fn from_tag(self, tag: Seq<char>) -> Forest
        decreases self,
    {
        match self {
            Forest::Nil => Forest::Nil,
            Forest::Cons { tag: t, rest, .. } => if t == tag {
                self
            } else {
                rest.from_tag(tag)
            },
        }
    }

    /// This forest followed by `other`.
    pub open spec fn concat(self, other: Forest) -> Forest
        decreases self,
    {
        match self {
            Forest::Nil => other,
            Forest::Cons { tag, value, children, rest } => Forest::node(
                tag,
                value,
                *children,
                rest.concat(other),
            ),
        }
    }

    /// The forest from the position a step selects on.
    pub open spec fn from_step(self, s: Step) -> Forest {
        match s {
            Step::Index(i) => self.skip(i),
            Step::Tag(t) => self.from_tag(t),
        }
    }

    /// What one step reaches among the children of the first tree.
    pub open spec fn step(self, s: Step) -> Forest {
        self.kids().from_step(s)
    }

    /// What a path reaches, starting at the first tree: the node found
    /// together with the siblings after it, or `Nil` where the path leaves
    /// the tree.
    pub open spec fn at(self, path: Seq<Step>) -> Forest
        decreases path.len(),
    {
        if path.len() == 0 {
            self
        } else {
            self.step(path[0]).at(path.drop_first())
        }
    }
}

} // verus!

verus! {

/// The forest made of the first tree of each item, in order.
pub open spec fn link(items: Seq<Forest>) -> Forest
    decreases items.len(),
{
    if items.len() == 0 {
        Forest::Nil
    } else {
        items[0].with_tail(link(items.drop_first()))
    }
}

/// Dropping one more tree is dropping the first tree of what is left.
pub proof fn lemma_skip_tail(f: Forest, n: nat)
    ensures
        f.skip(n).tail() == f.skip(n + 1),
        f.skip(n + 1) == f.tail().skip(n),
    decreases n,
{
    if n > 0 {
        lemma_skip_tail(f.tail(), (n - 1) as nat);
    }
}

/// Linking a suffix of a sequence: the item before it goes in front.
pub proof fn lemma_link_step(items: Seq<Forest>, i: int)
    requires
        0 <= i < items.len(),
    ensures
        link(items.subrange(i, items.len() as int)) == items[i].with_tail(
            link(items.subrange(i + 1, items.len() as int)),
        ),
{
    let s = items.subrange(i, items.len() as int);
    assert(s.drop_first() =~= items.subrange(i + 1, items.len() as int));
}

} // verus!
