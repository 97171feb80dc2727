//! The nodes of a tree, in order.

use vstd::prelude::*;
use super::basictree::{forest_of, share, TreeRef};
use super::extent::TreeExtent;
use super::forest::Forest;
use super::treenode::forests;

verus! {

/// The nodes of a chain of siblings, in order: each as the forest that starts at it.
pub open spec fn siblings_from(f: Forest) -> Seq<Forest>
    decreases f,
{
    match f {
        Forest::Nil => Seq::empty(),
        Forest::Cons { rest, .. } => seq![f] + siblings_from(*rest),
    }
}

/// The nodes of a forest depth first: each node, then what is below it, then
/// what follows it.
pub open spec fn depth_first(f: Forest) -> Seq<Forest>
    decreases f,
{
    match f {
        Forest::Nil => Seq::empty(),
        Forest::Cons { children, rest, .. } => seq![f] + depth_first(*children) + depth_first(
            *rest,
        ),
    }
}

/// The nodes an extent covers at a node, in the order they are visited. The
/// whole subtree is the node and what is below it, not what follows it.
pub open spec fn extent_nodes(f: Forest, extent: TreeExtent) -> Seq<Forest> {
    match extent {
        TreeExtent::ThisNode => seq![f],
        TreeExtent::Children => siblings_from(f.kids()),
        TreeExtent::SubTree => seq![f] + depth_first(f.kids()),
    }
}

/// The nodes still to visit: those of the forest on top of the stack first.
pub open spec fn stack_order(stack: Seq<Forest>) -> Seq<Forest>
    decreases stack.len(),
{
    if stack.len() == 0 {
        Seq::empty()
    } else {
        depth_first(stack.last()) + stack_order(stack.drop_last())
    }
}

/// What one more forest on the stack adds to the nodes to visit.
proof fn lemma_stack_push(stack: Seq<Forest>, f: Forest)
    ensures
        stack_order(stack.push(f)) == depth_first(f) + stack_order(stack),
{
    assert(stack.push(f).drop_last() =~= stack);
}

/// Something that hands out the nodes of a tree one by one.
pub trait TreeIterator {
    /// The nodes still to come, in order.
    spec fn remaining(&self) -> Seq<Forest>;

    /// The next node, or `None` when all have been handed out.
    fn next_in_tree(&mut self) -> (r: Option<TreeRef>)
        ensures
            match r {
                Some(node) => {
                    &&& old(self).remaining().len() > 0
                    &&& node@ == old(self).remaining()[0]
                    &&& final(self).remaining() == old(self).remaining().drop_first()
                },
                None => {
                    &&& old(self).remaining().len() == 0
                    &&& final(self).remaining().len() == 0
                },
            },
    ;
}

/// Iterator representing no tree nodes.
pub struct NoIterator;

impl NoIterator {
    pub fn new() -> (r: NoIterator)
        ensures
            r.remaining() == Seq::<Forest>::empty(),
    {
        NoIterator
    }
}

impl TreeIterator for NoIterator {
    open spec fn remaining(&self) -> Seq<Forest> {
        Seq::empty()
    }

    fn next_in_tree(&mut self) -> (r: Option<TreeRef>) {
        None
    }
}

/// Iterates through a node and the siblings after it.
pub struct SiblingIterator {
    current: Option<TreeRef>,
}

impl SiblingIterator {
    pub fn new(start: TreeRef) -> (r: SiblingIterator)
        ensures
            r.remaining() == siblings_from(start@),
    {
        SiblingIterator { current: Some(start) }
    }
}

impl TreeIterator for SiblingIterator {
    closed spec fn remaining(&self) -> Seq<Forest> {
        siblings_from(forest_of(self.current))
    }

    fn next_in_tree(&mut self) -> (r: Option<TreeRef>) {
        let next = match &self.current {
            Some(node) => {
                proof {
                    assert((seq![node@] + siblings_from(node@.tail())).drop_first()
                        =~= siblings_from(node@.tail()));
                }
                node.get_sibling_ref()
            },
            None => None,
        };
        let mut result = next;
        std::mem::swap(&mut self.current, &mut result);
        result
    }
}

/// Iterates across a single tree node.
pub struct HereIterator {
    current: Option<TreeRef>,
}

impl HereIterator {
    #[inline]
    pub fn new(here: TreeRef) -> (r: HereIterator)
        ensures
            r.remaining() == seq![here@],
    {
        HereIterator { current: Some(here) }
    }
}

impl TreeIterator for HereIterator {
    closed spec fn remaining(&self) -> Seq<Forest> {
        match self.current {
            Some(node) => seq![node@],
            None => Seq::empty(),
        }
    }

    fn next_in_tree(&mut self) -> (r: Option<TreeRef>) {
        let mut result: Option<TreeRef> = None;
        std::mem::swap(&mut self.current, &mut result);
        proof {
            assert(seq![forest_of(result)].drop_first() =~= Seq::<Forest>::empty());
        }
        result
    }
}

/// Iterates across a whole forest using a depth-first search.
pub struct DepthSearchIterator {
    stack: Vec<TreeRef>,
}

impl DepthSearchIterator {
    #[inline]
    pub fn new(start: TreeRef) -> (r: DepthSearchIterator)
        ensures
            r.remaining() == depth_first(start@),
    {
        let mut stack: Vec<TreeRef> = Vec::new();
        proof {
            assert(forests(stack@) =~= Seq::<Forest>::empty());
            lemma_stack_push(forests(stack@), start@);
        }
        let ghost before = stack@;
        stack.push(start);
        assert(forests(stack@) =~= forests(before).push(stack@.last()@));
        assert(depth_first(stack@.last()@) + Seq::<Forest>::empty() =~= depth_first(
            stack@.last()@,
        ));
        DepthSearchIterator { stack }
    }
}

impl TreeIterator for DepthSearchIterator {
    closed spec fn remaining(&self) -> Seq<Forest> {
        stack_order(forests(self.stack@))
    }

    fn next_in_tree(&mut self) -> (r: Option<TreeRef>) {
        let ghost old_stack = forests(self.stack@);
        match self.stack.pop() {
            Some(node) => {
                let ghost rest = forests(self.stack@);
                proof {
                    assert(rest =~= old_stack.drop_last());
                    assert(old_stack.last() == node@);
                }
                // Iterate the children then the siblings of this node
                let child = node.get_child_ref();
                let sibling = node.get_sibling_ref();
                match sibling {
                    Some(s) => {
                        let ghost before = self.stack@;
                        proof {
                            lemma_stack_push(forests(self.stack@), s@);
                        }
                        self.stack.push(s);
                        assert(forests(self.stack@) =~= forests(before).push(
                            self.stack@.last()@,
                        ));
                    },
                    None => {
                        assert(Seq::<Forest>::empty() + stack_order(rest) =~= stack_order(rest));
                    },
                }
                let ghost middle = forests(self.stack@);
                assert(stack_order(middle) == depth_first(node@.tail()) + stack_order(rest));
                match child {
                    Some(c) => {
                        let ghost before = self.stack@;
                        proof {
                            lemma_stack_push(forests(self.stack@), c@);
                        }
                        self.stack.push(c);
                        assert(forests(self.stack@) =~= forests(before).push(
                            self.stack@.last()@,
                        ));
                    },
                    None => {
                        assert(Seq::<Forest>::empty() + stack_order(middle) =~= stack_order(
                            middle,
                        ));
                    },
                }
                proof {
                    let now = stack_order(forests(self.stack@));
                    assert(now == depth_first(node@.kids()) + stack_order(middle));
                    assert((seq![node@] + depth_first(node@.kids()) + depth_first(node@.tail())
                        + stack_order(rest)).drop_first() =~= now);
                }
                // Result is the current node
                Some(node)
            },
            None => {
                assert(old_stack =~= Seq::<Forest>::empty());
                None
            },
        }
    }
}

/// Chains two tree iterators.
pub struct ChainedIterator<TFirst: TreeIterator, TSecond: TreeIterator> {
    first: TFirst,
    second: TSecond,
}

impl<TFirst: TreeIterator, TSecond: TreeIterator> ChainedIterator<TFirst, TSecond> {
    pub fn new(first: TFirst, second: TSecond) -> (r: ChainedIterator<TFirst, TSecond>)
        ensures
            r.remaining() == first.remaining() + second.remaining(),
    {
        ChainedIterator { first, second }
    }
}

impl<TFirst: TreeIterator, TSecond: TreeIterator> TreeIterator for ChainedIterator<
    TFirst,
    TSecond,
> {
    closed spec fn remaining(&self) -> Seq<Forest> {
        self.first.remaining() + self.second.remaining()
    }

    fn next_in_tree(&mut self) -> (r: Option<TreeRef>) {
        let ghost before_first = self.first.remaining();
        let ghost before_second = self.second.remaining();
        let result = self.first.next_in_tree();
        match result {
            Some(node) => {
                assert((before_first + before_second).drop_first() =~= before_first.drop_first()
                    + before_second);
                Some(node)
            },
            None => {
                assert(before_first + before_second =~= before_second);
                assert(self.first.remaining() =~= Seq::<Forest>::empty());
                let second_result = self.second.next_in_tree();
                assert(self.first.remaining() + self.second.remaining()
                    =~= self.second.remaining());
                second_result
            },
        }
    }
}

/// The iterator over the nodes that an extent covers.
pub enum ExtentIterator {
    Nothing(NoIterator),
    Here(HereIterator),
    Siblings(SiblingIterator),
    SubTree(ChainedIterator<HereIterator, DepthSearchIterator>),
}

impl TreeIterator for ExtentIterator {
    open spec fn remaining(&self) -> Seq<Forest> {
        match self {
            ExtentIterator::Nothing(it) => it.remaining(),
            ExtentIterator::Here(it) => it.remaining(),
            ExtentIterator::Siblings(it) => it.remaining(),
            ExtentIterator::SubTree(it) => it.remaining(),
        }
    }

    fn next_in_tree(&mut self) -> (r: Option<TreeRef>) {
        match self {
            ExtentIterator::Nothing(it) => it.next_in_tree(),
            ExtentIterator::Here(it) => it.next_in_tree(),
            ExtentIterator::Siblings(it) => it.next_in_tree(),
            ExtentIterator::SubTree(it) => it.next_in_tree(),
        }
    }
}

/// All the nodes that an iterator still has to hand out, in order.
pub fn collect_nodes<TIterator: TreeIterator>(iterator: TIterator) -> (r: Vec<TreeRef>)
    ensures
        forests(r@) == iterator.remaining(),
{
    let ghost target = iterator.remaining();
    let mut walk = iterator;
    let mut out: Vec<TreeRef> = Vec::new();
    assert(forests(out@) =~= Seq::<Forest>::empty());
    assert(Seq::<Forest>::empty() + target =~= target);
    loop
        invariant
            target == iterator.remaining(),
            forests(out@) + walk.remaining() == target,
        decreases walk.remaining().len(),
    {
        let ghost before = out@;
        let ghost left = walk.remaining();
        match walk.next_in_tree() {
            Some(node) => {
                out.push(node);
                proof {
                    assert(forests(out@) =~= forests(before).push(node@));
                    assert(forests(before).push(left[0]) + left.drop_first() =~= forests(before)
                        + left);
                }
            },
            None => {
                assert(forests(out@) + left =~= forests(out@));
                return out;
            },
        }
    }
}

/// Iterating over the nodes of a tree.
pub trait TreeNodeIteration {
    /// The forest of the node the iteration starts from.
    spec fn iteration_root(&self) -> Forest;

    /// An iterator for the nodes that an extent covers.
    fn iter_extent(&self, extent: TreeExtent) -> (r: ExtentIterator)
        ensures
            r.remaining() == extent_nodes(self.iteration_root(), extent),
    ;

    /// An iterator that covers the child nodes of this node.
    fn iter_children(&self) -> (r: ExtentIterator)
        ensures
            r.remaining() == siblings_from(self.iteration_root().kids()),
    ;
}

impl TreeNodeIteration for TreeRef {
    open spec fn iteration_root(&self) -> Forest {
        self@
    }

    fn iter_extent(&self, extent: TreeExtent) -> (r: ExtentIterator) {
        match extent {
            TreeExtent::ThisNode => ExtentIterator::Here(HereIterator::new(share(self))),
            TreeExtent::Children => self.iter_children(),
            TreeExtent::SubTree => {
                // Don't search the siblings of this node: its subtree is the node and what is below it
                let here = HereIterator::new(share(self));
                match self.get_child_ref() {
                    Some(child) => ExtentIterator::SubTree(
                        ChainedIterator::new(here, DepthSearchIterator::new(child)),
                    ),
                    None => {
                        assert(seq![self@] + Seq::<Forest>::empty() =~= seq![self@]);
                        ExtentIterator::Here(here)
                    },
                }
            },
        }
    }

    fn iter_children(&self) -> (r: ExtentIterator) {
        match self.get_child_ref() {
            Some(child) => ExtentIterator::Siblings(SiblingIterator::new(child)),
            None => ExtentIterator::Nothing(NoIterator::new()),
        }
    }
}

} // verus!
