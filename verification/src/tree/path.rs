//! The algebra of paths: what can be said of two addresses from their shape alone.

use vstd::prelude::*;
use super::forest::{Forest, Step};

verus! {

/// Whether two steps select in the same way: both by position, or both by tag.
pub open spec fn same_kind(a: Step, b: Step) -> bool {
    (a is Index) == (b is Index)
}

/// Whether `p` is an ancestor of `a`, or `a` itself.
///
/// `Some(true)` when `p` is a prefix of `a`. Otherwise the two are compared
/// at the first step where they part: `None` when the steps there are of
/// different kinds (a position cannot be told from a tag without the tree),
/// `Some(false)` when they are of one kind, or when `a` ends first.
pub open spec fn parent_of(p: Seq<Step>, a: Seq<Step>) -> Option<bool>
    decreases p.len(),
{
    if p.len() == 0 {
        Some(true)
    } else if a.len() == 0 {
        Some(false)
    } else if !same_kind(p[0], a[0]) {
        None
    } else if p[0] != a[0] {
        Some(false)
    } else {
        parent_of(p.drop_first(), a.drop_first())
    }
}

/// `a` as seen from `p`: what is left of `a` after the prefix `p`.
pub open spec fn relative(a: Seq<Step>, p: Seq<Step>) -> Option<Seq<Step>> {
    if p.is_prefix_of(a) {
        Some(a.skip(p.len() as int))
    } else {
        None
    }
}

/// The path without its last step; the empty path is its own parent.
pub open spec fn parent_path(a: Seq<Step>) -> Seq<Step> {
    if a.len() == 0 {
        a
    } else {
        a.drop_last()
    }
}

/// A path that starts with a step: its length, its first step and its rest.
pub proof fn lemma_cons(s: Step, rest: Seq<Step>)
    ensures
        (seq![s] + rest).len() == rest.len() + 1,
        (seq![s] + rest)[0] == s,
        (seq![s] + rest).drop_first() == rest,
{
    assert((seq![s] + rest).drop_first() =~= rest);
}

/// Two paths that start with a step are equal exactly when the steps and the rests are.
pub proof fn lemma_cons_eq(s: Step, rest: Seq<Step>, t: Step, other: Seq<Step>)
    ensures
        (seq![s] + rest == seq![t] + other) <==> (s == t && rest == other),
{
    lemma_cons(s, rest);
    lemma_cons(t, other);
}

/// A path that starts with a step is a prefix of another such path exactly
/// when the steps agree and the rest is a prefix of the other rest.
pub proof fn lemma_cons_prefix(s: Step, rest: Seq<Step>, t: Step, other: Seq<Step>)
    ensures
        (seq![s] + rest).is_prefix_of(seq![t] + other) <==> (s == t && rest.is_prefix_of(other)),
        !(seq![s] + rest).is_prefix_of(Seq::<Step>::empty()),
        rest.len() <= other.len() ==> (seq![t] + other).skip(rest.len() as int + 1) == other.skip(
            rest.len() as int,
        ),
{
    let p = seq![s] + rest;
    let a = seq![t] + other;
    lemma_cons(s, rest);
    lemma_cons(t, other);
    if p.is_prefix_of(a) {
        assert(p[0] == a.subrange(0, p.len() as int)[0]);
        assert(rest =~= other.subrange(0, rest.len() as int)) by {
            assert forall|i: int| 0 <= i < rest.len() implies rest[i] == other[i] by {
                assert(p[i + 1] == a.subrange(0, p.len() as int)[i + 1]);
            }
        }
    }
    if s == t && rest.is_prefix_of(other) {
        assert(p =~= a.subrange(0, p.len() as int)) by {
            assert forall|i: int| 0 <= i < p.len() implies p[i] == a[i] by {
                if i > 0 {
                    assert(rest[i - 1] == other.subrange(0, rest.len() as int)[i - 1]);
                }
            }
        }
    }
    if rest.len() <= other.len() {
        assert(a.skip(rest.len() as int + 1) =~= other.skip(rest.len() as int));
    }
}

/// The parent of a path that starts with a step and goes on.
pub proof fn lemma_cons_parent(s: Step, rest: Seq<Step>)
    ensures
        parent_path(seq![s] + rest) == if rest.len() == 0 {
            Seq::<Step>::empty()
        } else {
            seq![s] + parent_path(rest)
        },
{
    let a = seq![s] + rest;
    if rest.len() == 0 {
        assert(a.drop_last() =~= Seq::<Step>::empty());
    } else {
        assert(a.drop_last() =~= seq![s] + rest.drop_last());
    }
}

/// Nothing is found below a node that is not there.
pub proof fn lemma_at_nil(path: Seq<Step>)
    ensures
        Forest::Nil.at(path) == Forest::Nil,
    decreases path.len(),
{
    if path.len() > 0 {
        match path[0] {
            Step::Index(i) => {
                lemma_skip_nil(i);
            },
            Step::Tag(_) => {},
        }
        lemma_at_nil(path.drop_first());
    }
}

/// Dropping trees from the empty forest leaves it empty.
pub proof fn lemma_skip_nil(n: nat)
    ensures
        Forest::Nil.skip(n) == Forest::Nil,
    decreases n,
{
    if n > 0 {
        lemma_skip_nil((n - 1) as nat);
    }
}

/// Following a path that starts with a step: take the step, then follow the rest.
pub proof fn lemma_at_cons(f: Forest, s: Step, rest: Seq<Step>)
    ensures
        f.at(seq![s] + rest) == f.step(s).at(rest),
{
    lemma_cons(s, rest);
}

} // verus!

verus! {

/// An address is an ancestor of another, or the same, exactly when its steps
/// are the first steps of the other.
pub proof fn lemma_parent_of_prefix(p: Seq<Step>, a: Seq<Step>)
    ensures
        parent_of(p, a) == Some(true) <==> p.is_prefix_of(a),
    decreases p.len(),
{
    if p.len() == 0 {
        assert(p =~= a.subrange(0, 0));
    } else if a.len() == 0 {
    } else {
        assert(p =~= seq![p[0]] + p.drop_first());
        assert(a =~= seq![a[0]] + a.drop_first());
        lemma_cons_prefix(p[0], p.drop_first(), a[0], a.drop_first());
        lemma_parent_of_prefix(p.drop_first(), a.drop_first());
    }
}

} // verus!

verus! {

/// Every address is a parent of itself.
pub proof fn lemma_parent_of_self(a: Seq<Step>)
    ensures
        parent_of(a, a) == Some(true),
    decreases a.len(),
{
    if a.len() > 0 {
        lemma_parent_of_self(a.drop_first());
    }
}

/// The address without steps is a parent of every address, and no address
/// with a step is a parent of it.
pub proof fn lemma_parent_of_here(x: Seq<Step>)
    ensures
        parent_of(Seq::empty(), x) == Some(true),
        x.len() > 0 ==> parent_of(x, Seq::empty()) == Some(false),
{
}

/// Two addresses that agree on their first `k` steps and then take steps of
/// different kinds cannot be compared.
pub proof fn lemma_parent_of_mixed_kinds(p: Seq<Step>, a: Seq<Step>, k: int)
    requires
        0 <= k < p.len(),
        k < a.len(),
        p.subrange(0, k) == a.subrange(0, k),
        !same_kind(p[k], a[k]),
    ensures
        parent_of(p, a) is None,
    decreases k,
{
    if k > 0 {
        assert(p[0] == p.subrange(0, k)[0]);
        assert(a[0] == a.subrange(0, k)[0]);
        assert(p.drop_first().subrange(0, k - 1) =~= a.drop_first().subrange(0, k - 1)) by {
            assert forall|i: int| 0 <= i < k - 1 implies p.drop_first()[i] == a.drop_first()[i] by {
                assert(p[i + 1] == p.subrange(0, k)[i + 1]);
                assert(a[i + 1] == a.subrange(0, k)[i + 1]);
            }
        }
        lemma_parent_of_mixed_kinds(p.drop_first(), a.drop_first(), k - 1);
    }
}

/// For a parent `p` of `a`, the address of `a` relative to `p`, taken again
/// from `p`, is `a`.
pub proof fn lemma_relative_rebuilds(a: Seq<Step>, p: Seq<Step>)
    requires
        parent_of(p, a) == Some(true),
    ensures
        relative(a, p) is Some,
        p + relative(a, p).unwrap() == a,
{
    lemma_parent_of_prefix(p, a);
    assert(p + a.skip(p.len() as int) =~= a);
}

} // verus!
