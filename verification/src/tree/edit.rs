//! What an edit makes of a tree, stated on the model.

use vstd::prelude::*;
use super::extent::TreeExtent;
use super::forest::{lemma_skip_tail, link, Forest, Step};
use super::path::{lemma_at_nil, lemma_cons, lemma_skip_nil, parent_of, parent_path};
use super::treenode_index::lemma_at_one;
use super::values::ValueModel;

verus! {

/// What an edit puts in the place it addresses.
pub ghost enum ReplacementModel {
    /// The node goes; what followed it moves up.
    Remove,
    /// A tree takes the place: a forest of exactly one tree.
    NewNode(Forest),
    /// The node keeps its children and gets another tag and value.
    NewValue(Seq<char>, ValueModel),
}

/// An edit: where, and what.
pub ghost struct ChangeModel {
    pub address: Seq<Step>,
    pub replacement: ReplacementModel,
}

impl Forest {
    /// The first tree alone, without what follows it.
    pub open spec fn alone(self) -> Forest {
        match self {
            Forest::Nil => Forest::Nil,
            Forest::Cons { tag, value, children, .. } => Forest::node(
                tag,
                value,
                *children,
                Forest::Nil,
            ),
        }
    }

    /// The first `n` trees; positions past the end are filled with placeholders.
    pub open spec fn padded_prefix(self, n: nat) -> Forest
        decreases n,
    {
        if n == 0 {
            Forest::Nil
        } else {
            (if self is Nil {
                Forest::placeholder()
            } else {
                self
            }).with_tail(self.tail().padded_prefix((n - 1) as nat))
        }
    }

    /// The trees before the first one tagged `tag` (all of them if there is none).
    pub open spec fn before_tag(self, tag: Seq<char>) -> Forest
        decreases self,
    {
        match self {
            Forest::Nil => Forest::Nil,
            Forest::Cons { tag: t, rest, .. } => if t == tag {
                Forest::Nil
            } else {
                self.with_tail(rest.before_tag(tag))
            },
        }
    }

    /// The trees that stay in front of the position a step selects.
    pub open spec fn kept_before(self, s: Step) -> Forest {
        match s {
            Step::Index(i) => self.padded_prefix(i),
            Step::Tag(t) => self.before_tag(t),
        }
    }
}

/// The replacement applied to the first tree of `f`; what follows it stays.
/// Where `f` is empty the replacement is applied to a node that is not there.
pub open spec fn edit_here(f: Forest, r: ReplacementModel) -> Forest {
    match r {
        ReplacementModel::Remove => f.tail(),
        ReplacementModel::NewNode(n) => n.with_tail(f.tail()),
        ReplacementModel::NewValue(tag, value) => Forest::node(tag, value, f.kids(), f.tail()),
    }
}

/// The forest `f` after the edit at `path`, counted from the first tree of `f`.
///
/// At the end of the path the replacement is applied. Before that each step
/// selects a position among the children of the node reached so far: the
/// trees in front of it stay as they are (with placeholders where a position
/// is counted past the end), the edit goes on from that position, and the
/// node is rebuilt around the result. A node that is not there has no
/// children to edit.
pub open spec fn edit(f: Forest, path: Seq<Step>, r: ReplacementModel) -> Forest
    decreases path.len(),
{
    if path.len() == 0 {
        edit_here(f, r)
    } else if f is Nil {
        Forest::Nil
    } else {
        f.with_kids(
            f.kids().kept_before(path[0]).concat(
                edit(f.kids().from_step(path[0]), path.drop_first(), r),
            ),
        )
    }
}

/// The tree that an edit of a whole tree leaves: the edited forest, or the
/// placeholder where nothing is left.
pub open spec fn edit_tree(f: Forest, c: ChangeModel) -> Forest {
    let e = edit(f, c.address, c.replacement);
    if e is Nil {
        Forest::placeholder()
    } else {
        e
    }
}

/// Whether a change at `changing` touches what lies at `testing` or below:
/// one of the two is an ancestor of the other.
pub open spec fn address_applies(changing: Seq<Step>, testing: Seq<Step>) -> Option<bool> {
    match parent_of(changing, testing) {
        Some(true) => Some(true),
        _ => parent_of(testing, changing),
    }
}

/// Whether a change touches the children of the node at `a`.
pub open spec fn applies_to_children(c: ChangeModel, a: Seq<Step>) -> Option<bool> {
    parent_of(parent_path(c.address), a)
}

/// Whether a change touches the node at `a` itself. A change of tag and value
/// touches the one node it addresses; any other touches what lies below, too.
pub open spec fn applies_to_node(c: ChangeModel, a: Seq<Step>) -> Option<bool> {
    if c.replacement is NewValue {
        Some(c.address == a)
    } else {
        parent_of(c.address, a)
    }
}

/// Whether a change touches what an extent covers at the address `a`.
/// `None` where the addresses cannot be compared.
pub open spec fn change_applies(c: ChangeModel, a: Seq<Step>, extent: TreeExtent) -> Option<bool> {
    match extent {
        TreeExtent::ThisNode => applies_to_node(c, a),
        TreeExtent::Children => applies_to_children(c, a),
        TreeExtent::SubTree => address_applies(c.address, a),
    }
}

/// The change as seen from the node at `a`.
///
/// A change at or below `a` keeps its replacement and loses the prefix `a`
/// from its address. A change above `a` that brings a new tree becomes, at
/// `a` itself, the node which that tree holds there, or a removal where it
/// holds none. Any other change is not seen from `a`.
pub open spec fn change_relative(c: ChangeModel, a: Seq<Step>) -> Option<ChangeModel> {
    if a.is_prefix_of(c.address) {
        Some(ChangeModel { address: c.address.skip(a.len() as int), replacement: c.replacement })
    } else if c.address.is_prefix_of(a) {
        match c.replacement {
            ReplacementModel::NewNode(tree) => {
                let found = tree.at(a.skip(c.address.len() as int));
                Some(
                    ChangeModel {
                        address: Seq::empty(),
                        replacement: if found is Nil {
                            ReplacementModel::Remove
                        } else {
                            ReplacementModel::NewNode(found.alone())
                        },
                    },
                )
            },
            _ => None,
        }
    } else {
        None
    }
}

/// Putting forests one after another does not depend on the grouping.
pub proof fn lemma_concat_assoc(a: Forest, b: Forest, c: Forest)
    ensures
        a.concat(b).concat(c) == a.concat(b.concat(c)),
    decreases a,
{
    match a {
        Forest::Nil => {},
        Forest::Cons { rest, .. } => {
            lemma_concat_assoc(*rest, b, c);
        },
    }
}

/// Nothing put after a forest leaves the forest.
pub proof fn lemma_concat_nil(a: Forest)
    ensures
        a.concat(Forest::Nil) == a,
    decreases a,
{
    match a {
        Forest::Nil => {},
        Forest::Cons { rest, .. } => {
            lemma_concat_nil(*rest);
        },
    }
}

/// Linking one more item puts its first tree at the end.
pub proof fn lemma_link_push(items: Seq<Forest>, x: Forest)
    ensures
        link(items.push(x)) == link(items).concat(x.alone()),
    decreases items.len(),
{
    let longer = items.push(x);
    if items.len() == 0 {
        assert(longer.drop_first() =~= Seq::<Forest>::empty());
        assert(link(longer.drop_first()) == Forest::Nil);
    } else {
        assert(longer.drop_first() =~= items.drop_first().push(x));
        lemma_link_push(items.drop_first(), x);
    }
}

/// One more position kept in front: the tree found there, or a placeholder.
pub proof fn lemma_padded_prefix_step(c: Forest, k: nat)
    ensures
        c.padded_prefix(k + 1) == c.padded_prefix(k).concat(
            (if c.skip(k) is Nil {
                Forest::placeholder()
            } else {
                c.skip(k)
            }).alone(),
        ),
    decreases k,
{
    let padded = if c is Nil {
        Forest::placeholder()
    } else {
        c
    };
    if k == 0 {
        assert(c.padded_prefix(1) == padded.with_tail(c.tail().padded_prefix(0)));
        assert(c.tail().padded_prefix(0) == Forest::Nil);
        assert(c.padded_prefix(0) == Forest::Nil);
    } else {
        lemma_padded_prefix_step(c.tail(), (k - 1) as nat);
        assert(c.skip(k) == c.tail().skip((k - 1) as nat));
        assert(c.padded_prefix(k + 1) == padded.with_tail(c.tail().padded_prefix(k)));
        assert(c.padded_prefix(k) == padded.with_tail(
            c.tail().padded_prefix((k - 1) as nat),
        ));
    }
}

/// A tree alone with a forest put after it is the tree followed by that forest.
pub proof fn lemma_alone_concat(x: Forest, c: Forest)
    requires
        x is Cons,
    ensures
        x.alone().concat(c) == x.with_tail(c),
{
    assert(Forest::Nil.concat(c) == c);
}

/// The kept prefix has as many trees as positions were counted.
pub proof fn lemma_padded_prefix_len(c: Forest, n: nat)
    ensures
        c.padded_prefix(n).len() == n,
    decreases n,
{
    if n > 0 {
        lemma_padded_prefix_len(c.tail(), (n - 1) as nat);
    }
}

/// The kept prefix of a forest that is long enough pads nothing, and is kept again.
pub proof fn lemma_concat_at_index(a: Forest, e: Forest)
    ensures
        a.concat(e).skip(a.len()) == e,
        a.concat(e).padded_prefix(a.len()) == a,
    decreases a,
{
    match a {
        Forest::Nil => {},
        Forest::Cons { rest, .. } => {
            lemma_concat_at_index(*rest, e);
            assert(a.concat(e).tail() == rest.concat(e));
            assert(a.len() == rest.len() + 1);
            assert(a.concat(e).skip(a.len()) == a.concat(e).tail().skip(rest.len()));
            assert(a.concat(e).padded_prefix(a.len()) == a.concat(e).with_tail(
                a.concat(e).tail().padded_prefix(rest.len()),
            ));
        },
    }
}

/// No tree in front of the first one tagged `tag` carries that tag.
pub proof fn lemma_before_tag_lacks(c: Forest, tag: Seq<char>)
    ensures
        c.before_tag(tag).from_tag(tag) is Nil,
    decreases c,
{
    match c {
        Forest::Nil => {},
        Forest::Cons { tag: t, rest, .. } => {
            if t != tag {
                lemma_before_tag_lacks(*rest, tag);
            }
        },
    }
}

/// What starts at the first tree tagged `tag` is empty or starts with that tag.
pub proof fn lemma_from_tag_head(c: Forest, tag: Seq<char>)
    ensures
        c.from_tag(tag) is Nil || c.from_tag(tag).head_tag() == tag,
    decreases c,
{
    match c {
        Forest::Nil => {},
        Forest::Cons { tag: t, rest, .. } => {
            if t != tag {
                lemma_from_tag_head(*rest, tag);
            }
        },
    }
}

/// Trees without the tag, followed by a forest that starts with it: the
/// first are what stands before the tag, the second what starts at it.
pub proof fn lemma_concat_at_tag(a: Forest, e: Forest, tag: Seq<char>)
    requires
        a.from_tag(tag) is Nil,
        e is Nil || e.head_tag() == tag,
    ensures
        a.concat(e).before_tag(tag) == a,
        a.concat(e).from_tag(tag) == e,
    decreases a,
{
    match a {
        Forest::Nil => {},
        Forest::Cons { tag: t, rest, .. } => {
            assert(t != tag);
            lemma_concat_at_tag(*rest, e, tag);
        },
    }
}

/// An edit below a node leaves the node in place, under its tag.
pub proof fn lemma_edit_below_keeps_head(f: Forest, path: Seq<Step>, r: ReplacementModel)
    requires
        path.len() > 0,
    ensures
        (f is Nil) == (edit(f, path, r) is Nil),
        edit(f, path, r).head_tag() == f.head_tag(),
        edit(f, path, r).head_value() == f.head_value(),
        edit(f, path, r).tail() == f.tail(),
{
}

/// Whether giving the node at `path` the tag `tag` leaves it findable at `path`:
/// a last step by tag must name the new tag.
pub open spec fn keeps_address(path: Seq<Step>, tag: Seq<char>) -> bool {
    path.len() > 0 && path.last() is Tag ==> path.last() == Step::Tag(tag)
}

/// Setting tag and value of the node at an address twice gives what setting
/// them once gives, wherever the node is still found at that address.
pub proof fn lemma_new_value_twice(f: Forest, path: Seq<Step>, tag: Seq<char>, value: ValueModel)
    requires
        keeps_address(path, tag),
    ensures
        ({
            let r = ReplacementModel::NewValue(tag, value);
            edit(edit(f, path, r), path, r) == edit(f, path, r)
        }),
    decreases path.len(),
{
    let r = ReplacementModel::NewValue(tag, value);
    if path.len() > 0 && f is Cons {
        let s = path[0];
        let rest = path.drop_first();
        let kids = f.kids();
        let kept = kids.kept_before(s);
        let inner = edit(kids.from_step(s), rest, r);
        let once = edit(f, path, r);
        assert(once == f.with_kids(kept.concat(inner)));
        if rest.len() > 0 {
            assert(rest.last() == path.last());
            lemma_edit_below_keeps_head(kids.from_step(s), rest, r);
        }
        lemma_new_value_twice(kids.from_step(s), rest, tag, value);
        match s {
            Step::Index(i) => {
                lemma_padded_prefix_len(kids, i);
                lemma_concat_at_index(kept, inner);
            },
            Step::Tag(t) => {
                lemma_before_tag_lacks(kids, t);
                lemma_from_tag_head(kids, t);
                lemma_concat_at_tag(kept, inner, t);
            },
        }
        assert(once.kids().kept_before(s) == kept);
        assert(once.kids().from_step(s) == inner);
    }
}

/// Applying the same change of tag and value to a tree twice in a row gives
/// the tree that applying it once gives, wherever the node is still found at
/// the address of the change.
pub proof fn lemma_apply_new_value_twice(f: Forest, c: ChangeModel)
    requires
        f is Cons,
        c.replacement matches ReplacementModel::NewValue(tag, _) && keeps_address(c.address, tag),
    ensures
        edit_tree(edit_tree(f, c), c) == edit_tree(f, c),
{
    match c.replacement {
        ReplacementModel::NewValue(tag, value) => {
            lemma_new_value_twice(f, c.address, tag, value);
        },
        _ => {},
    }
}

/// A change made from a mount point and then seen from it again is the change itself.
pub proof fn lemma_relative_of_within(c: ChangeModel, mount: Seq<Step>)
    ensures
        change_relative(
            ChangeModel { address: mount + c.address, replacement: c.replacement },
            mount,
        ) == Some(c),
{
    let outer = mount + c.address;
    assert(mount =~= outer.subrange(0, mount.len() as int));
    assert(outer.skip(mount.len() as int) =~= c.address);
}

/// The tree found at a position, or the placeholder where there is none.
pub open spec fn or_placeholder(f: Forest) -> Forest {
    if f is Nil {
        Forest::placeholder()
    } else {
        f
    }
}

/// A tree in a forest is the same tree when more trees are put after the forest.
pub proof fn lemma_concat_keeps_nth(a: Forest, e: Forest, j: nat)
    requires
        j < a.len(),
    ensures
        a.concat(e).skip(j).alone() == a.skip(j).alone(),
    decreases j,
{
    if j > 0 {
        lemma_concat_keeps_nth(a.tail(), e, (j - 1) as nat);
    }
}

/// The kept prefix holds, position by position, the trees of the forest it
/// was taken from, and placeholders past its end.
pub proof fn lemma_padded_prefix_nth(c: Forest, n: nat, j: nat)
    requires
        j < n,
    ensures
        c.padded_prefix(n).skip(j).alone() == or_placeholder(c.skip(j)).alone(),
    decreases j,
{
    if j > 0 {
        lemma_padded_prefix_nth(c.tail(), (n - 1) as nat, (j - 1) as nat);
    }
}

/// The trees before the first one with a tag are, position by position, the
/// trees of the forest they were taken from.
pub proof fn lemma_before_tag_nth(c: Forest, tag: Seq<char>, j: nat)
    requires
        j < c.before_tag(tag).len(),
    ensures
        c.skip(j) is Cons,
        c.before_tag(tag).skip(j).alone() == c.skip(j).alone(),
    decreases j,
{
    if j > 0 {
        lemma_before_tag_nth(c.tail(), tag, (j - 1) as nat);
    }
}

impl Forest {
    /// The position a step selects in this chain of children: the index it
    /// names, or the number of trees before the first with the tag it names.
    pub open spec fn position(self, s: Step) -> nat {
        self.kept_before(s).len()
    }
}

/// What a step selects is what is left after the trees before its position.
pub proof fn lemma_from_step_is_skip(c: Forest, s: Step)
    ensures
        c.from_step(s) == c.skip(c.position(s)),
        s matches Step::Index(i) ==> c.position(s) == i,
    decreases c,
{
    match s {
        Step::Index(i) => {
            lemma_padded_prefix_len(c, i);
        },
        Step::Tag(t) => {
            match c {
                Forest::Nil => {},
                Forest::Cons { tag, rest, .. } => {
                    if tag != t {
                        lemma_from_step_is_skip(*rest, s);
                        assert(c.before_tag(t).len() == rest.before_tag(t).len() + 1);
                        assert(c.skip(c.position(s)) == c.tail().skip(rest.position(s)));
                    }
                },
            }
        },
    }
}

/// The trees kept in front of a position are, one by one, the trees that
/// stood there, or placeholders where none stood.
pub proof fn lemma_kept_before_nth(c: Forest, s: Step, j: nat)
    requires
        j < c.position(s),
    ensures
        c.kept_before(s).skip(j).alone() == or_placeholder(c.skip(j)).alone(),
{
    match s {
        Step::Index(i) => {
            lemma_padded_prefix_len(c, i);
            lemma_padded_prefix_nth(c, i, j);
        },
        Step::Tag(t) => {
            lemma_before_tag_nth(c, t, j);
        },
    }
}

/// The position a step selects holds, after an edit that went through it,
/// what the edit made of the forest found there.
pub proof fn lemma_edited_step(f: Forest, path: Seq<Step>, r: ReplacementModel)
    requires
        path.len() > 1,
        f is Cons,
    ensures
        edit(f, path, r).step(path[0]) == edit(f.step(path[0]), path.drop_first(), r),
{
    let kids = f.kids();
    let kept = kids.kept_before(path[0]);
    let inner = edit(kids.from_step(path[0]), path.drop_first(), r);
    lemma_edit_below_keeps_head(kids.from_step(path[0]), path.drop_first(), r);
    match path[0] {
        Step::Index(i) => {
            lemma_padded_prefix_len(kids, i);
            lemma_concat_at_index(kept, inner);
        },
        Step::Tag(t) => {
            lemma_before_tag_lacks(kids, t);
            lemma_from_tag_head(kids, t);
            lemma_concat_at_tag(kept, inner, t);
        },
    }
}

/// An edit leaves what stands before its path as it was.
///
/// Take a node on the path of the edit, and the step `s` that the path takes
/// from it. Each child of that node at a position `j` before the one that `s`
/// selects is after the edit the tree it was before, with everything below
/// it; a position that held nothing holds a placeholder.
pub proof fn lemma_edit_keeps_earlier(
    f: Forest,
    above: Seq<Step>,
    s: Step,
    below: Seq<Step>,
    r: ReplacementModel,
    j: nat,
)
    requires
        f.at(above) is Cons,
        j < f.at(above).kids().position(s),
    ensures
        edit(f, above + seq![s] + below, r).at(above.push(Step::Index(j))).alone()
            == or_placeholder(f.at(above.push(Step::Index(j)))).alone(),
    decreases above.len(),
{
    let path = above + seq![s] + below;
    let earlier = above.push(Step::Index(j));
    if above.len() == 0 {
        assert(path =~= seq![s] + below);
        lemma_cons(s, below);
        assert(earlier =~= seq![Step::Index(j)]);
        lemma_at_one(f, Step::Index(j));
        lemma_at_one(edit(f, path, r), Step::Index(j));
        let kids = f.kids();
        let inner = edit(kids.from_step(s), below, r);
        lemma_concat_keeps_nth(kids.kept_before(s), inner, j);
        lemma_kept_before_nth(kids, s, j);
    } else {
        let first = above[0];
        let rest = above.drop_first();
        lemma_at_nil(above);
        assert(path[0] == first);
        assert(path.drop_first() =~= rest + seq![s] + below);
        assert(earlier[0] == first);
        assert(earlier.drop_first() =~= rest.push(Step::Index(j)));
        lemma_edited_step(f, path, r);
        lemma_edit_keeps_earlier(f.step(first), rest, s, below, r, j);
    }
}

/// Dropping trees in two goes is dropping them in one.
pub proof fn lemma_skip_skip(f: Forest, a: nat, b: nat)
    ensures
        f.skip(a).skip(b) == f.skip(a + b),
    decreases a,
{
    if a > 0 {
        lemma_skip_skip(f.tail(), (a - 1) as nat, b);
    }
}

/// Dropping a whole forest and more from what it was put in front of.
pub proof fn lemma_concat_skip_past(a: Forest, e: Forest, m: nat)
    ensures
        a.concat(e).skip(a.len() + m) == e.skip(m),
    decreases a,
{
    match a {
        Forest::Nil => {},
        Forest::Cons { rest, .. } => {
            lemma_concat_skip_past(*rest, e, m);
            assert(a.concat(e).tail() == rest.concat(e));
            assert(a.concat(e).skip(a.len() + m) == a.concat(e).tail().skip(rest.len() + m));
        },
    }
}

/// Whether an edit takes a node out of the chain it stands in, so that what
/// follows moves up: a removal at the very end of the path.
pub open spec fn closes_gap(below: Seq<Step>, r: ReplacementModel) -> bool {
    below.len() == 0 && r is Remove
}

/// What follows the position of `s` among the children after an edit that goes
/// through it: what followed it before, or after a removal there what
/// followed the node removed.
proof fn lemma_edited_kids_later(kids: Forest, s: Step, below: Seq<Step>, r: ReplacementModel, m: nat)
    requires
        r matches ReplacementModel::NewNode(n) ==> n is Cons,
    ensures
        !closes_gap(below, r) && m > 0 ==> kids.kept_before(s).concat(
            edit(kids.from_step(s), below, r),
        ).skip(kids.position(s) + m) == kids.skip(kids.position(s) + m),
        closes_gap(below, r) ==> kids.kept_before(s).concat(
            edit(kids.from_step(s), below, r),
        ).skip(kids.position(s) + m) == kids.skip(kids.position(s) + m + 1),
{
    let i = kids.position(s);
    let inner = edit(kids.from_step(s), below, r);
    lemma_from_step_is_skip(kids, s);
    lemma_concat_skip_past(kids.kept_before(s), inner, m);
    if closes_gap(below, r) {
        assert(inner == kids.skip(i).tail());
        lemma_skip_tail(kids, i);
        lemma_skip_skip(kids, i + 1, m);
    } else if m > 0 {
        assert(inner.tail() == kids.skip(i).tail());
        assert(inner.skip(m) == inner.tail().skip((m - 1) as nat)) by {
            if inner is Nil {
                lemma_skip_nil(m);
                lemma_skip_nil((m - 1) as nat);
            }
        }
        lemma_skip_tail(kids, i);
        lemma_skip_skip(kids, i + 1, (m - 1) as nat);
    }
}

/// An edit leaves what stands after its path as it was.
///
/// Take a node on the path of the edit, and the step `s` that the path takes
/// from it. The children at the positions after the one that `s` selects are
/// after the edit what they were before, unless the edit removes the child at
/// that position itself.
pub proof fn lemma_edit_keeps_later(
    f: Forest,
    above: Seq<Step>,
    s: Step,
    below: Seq<Step>,
    r: ReplacementModel,
    j: nat,
)
    requires
        f.at(above) is Cons,
        j > f.at(above).kids().position(s),
        !closes_gap(below, r),
        r matches ReplacementModel::NewNode(n) ==> n is Cons,
    ensures
        edit(f, above + seq![s] + below, r).at(above.push(Step::Index(j))) == f.at(
            above.push(Step::Index(j)),
        ),
    decreases above.len(),
{
    let path = above + seq![s] + below;
    let later = above.push(Step::Index(j));
    if above.len() == 0 {
        assert(path =~= seq![s] + below);
        lemma_cons(s, below);
        assert(later =~= seq![Step::Index(j)]);
        lemma_at_one(f, Step::Index(j));
        lemma_at_one(edit(f, path, r), Step::Index(j));
        lemma_edited_kids_later(f.kids(), s, below, r, (j - f.kids().position(s)) as nat);
    } else {
        let first = above[0];
        let rest = above.drop_first();
        lemma_at_nil(above);
        assert(path[0] == first);
        assert(path.drop_first() =~= rest + seq![s] + below);
        assert(later[0] == first);
        assert(later.drop_first() =~= rest.push(Step::Index(j)));
        lemma_edited_step(f, path, r);
        lemma_edit_keeps_later(f.step(first), rest, s, below, r, j);
    }
}

/// A removal closes the gap it makes.
///
/// After the removal of the child that the step `s` selects among the
/// children of a node, each position from that one on holds what the
/// position after it held before.
pub proof fn lemma_remove_moves_up(f: Forest, above: Seq<Step>, s: Step, j: nat)
    requires
        f.at(above) is Cons,
        j >= f.at(above).kids().position(s),
    ensures
        edit(f, above.push(s), ReplacementModel::Remove).at(above.push(Step::Index(j))) == f.at(
            above.push(Step::Index(j + 1)),
        ),
    decreases above.len(),
{
    let r = ReplacementModel::Remove;
    let path = above.push(s);
    let here = above.push(Step::Index(j));
    let next = above.push(Step::Index(j + 1));
    if above.len() == 0 {
        assert(path =~= seq![s] + Seq::<Step>::empty());
        lemma_cons(s, Seq::<Step>::empty());
        assert(here =~= seq![Step::Index(j)]);
        assert(next =~= seq![Step::Index(j + 1)]);
        lemma_at_one(f, Step::Index(j + 1));
        lemma_at_one(edit(f, path, r), Step::Index(j));
        lemma_edited_kids_later(
            f.kids(),
            s,
            Seq::<Step>::empty(),
            r,
            (j - f.kids().position(s)) as nat,
        );
    } else {
        let first = above[0];
        let rest = above.drop_first();
        lemma_at_nil(above);
        assert(path[0] == first);
        assert(path.drop_first() =~= rest.push(s));
        assert(here[0] == first);
        assert(here.drop_first() =~= rest.push(Step::Index(j)));
        assert(next[0] == first);
        assert(next.drop_first() =~= rest.push(Step::Index(j + 1)));
        lemma_edited_step(f, path, r);
        lemma_remove_moves_up(f.step(first), rest, s, j);
    }
}

} // verus!
