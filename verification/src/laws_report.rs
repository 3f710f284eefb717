//! What is proved of the assumptions report.

use crate::list::List;
use crate::text::chars_less;
use crate::ir::Decl;
use crate::report::{
    AssumedFn, spec_assumed_fn, spec_assumed_fns, spec_comes_before, spec_insert_sorted,
};
use crate::laws_merge::bag;
use std::rc::Rc;
use vstd::multiset::Multiset;
use vstd::prelude::*;

verus! {

/// The order of texts is transitive.
proof fn lemma_chars_less_trans(a: Seq<char>, b: Seq<char>, c: Seq<char>)
    requires
        chars_less(a, b),
        chars_less(b, c),
    ensures
        chars_less(a, c),
    decreases a.len(),
{
    if a.len() > 0 && a[0] == b[0] && b[0] == c[0] {
        lemma_chars_less_trans(a.skip(1), b.skip(1), c.skip(1));
    }
}

/// No two texts come before each other.
proof fn lemma_chars_less_asym(a: Seq<char>, b: Seq<char>)
    requires
        chars_less(a, b),
    ensures
        !chars_less(b, a),
    decreases a.len(),
{
    if a.len() > 0 && a[0] == b[0] {
        lemma_chars_less_asym(a.skip(1), b.skip(1));
    }
}

/// The order of entries is transitive, and no two entries come before each other.
proof fn lemma_comes_before(a: Rc<AssumedFn>, b: Rc<AssumedFn>, c: Rc<AssumedFn>)
    ensures
        spec_comes_before(a, b) && spec_comes_before(b, c) ==> spec_comes_before(a, c),
        spec_comes_before(a, b) ==> !spec_comes_before(b, a),
{
    reveal(spec_comes_before);
    if spec_comes_before(a, b) {
        if chars_less(a.name.chars(), b.name.chars()) {
            lemma_chars_less_asym(a.name.chars(), b.name.chars());
        }
        if chars_less(a.name.chars(), b.name.chars()) && chars_less(b.name.chars(), c.name.chars()) {
            lemma_chars_less_trans(a.name.chars(), b.name.chars(), c.name.chars());
        }
    }
}

/// Whether no entry stands behind one that it comes before.
pub open spec fn sorted(l: Rc<List<AssumedFn>>) -> bool
    decreases l,
{
    match *l {
        List::Nil => true,
        List::Cons(h, t) => none_before(t, h) && sorted(t),
    }
}

/// Whether no entry of the list comes before `x`.
pub open spec fn none_before(l: Rc<List<AssumedFn>>, x: Rc<AssumedFn>) -> bool
    decreases l,
{
    match *l {
        List::Nil => true,
        List::Cons(h, t) => !spec_comes_before(h, x) && none_before(t, x),
    }
}

/// What comes before the first of a sorted list has nothing of the list before it.
proof fn lemma_none_before(l: Rc<List<AssumedFn>>, h: Rc<AssumedFn>, x: Rc<AssumedFn>)
    requires
        none_before(l, h),
        spec_comes_before(x, h),
    ensures
        none_before(l, x),
    decreases l,
{
    match *l {
        List::Nil => {},
        List::Cons(g, t) => {
            lemma_comes_before(g, x, h);
            lemma_none_before(t, h, x);
        },
    }
}

/// Nothing of a list comes before `y`, also after an insertion that does not.
proof fn lemma_none_before_insert(l: Rc<List<AssumedFn>>, x: Rc<AssumedFn>, y: Rc<AssumedFn>)
    requires
        none_before(l, y),
        !spec_comes_before(x, y),
    ensures
        none_before(spec_insert_sorted(l, x), y),
    decreases l,
{
    match *l {
        List::Nil => {},
        List::Cons(h, t) => {
            lemma_none_before_insert(t, x, y);
        },
    }
}

/// An insertion keeps a list sorted, and adds just the entry.
proof fn lemma_insert_sorted(l: Rc<List<AssumedFn>>, x: Rc<AssumedFn>)
    requires
        sorted(l),
    ensures
        sorted(spec_insert_sorted(l, x)),
        bag(spec_insert_sorted(l, x)) =~= bag(l).insert(x),
    decreases l,
{
    match *l {
        List::Nil => {},
        List::Cons(h, t) => {
            if spec_comes_before(x, h) {
                lemma_comes_before(x, h, h);
                lemma_none_before(t, h, x);
            } else {
                lemma_insert_sorted(t, x);
                lemma_none_before_insert(t, x, h);
            }
        },
    }
}

/// The entries of declarations.
pub open spec fn entries(all: Rc<List<Decl>>, l: Rc<List<Decl>>) -> Multiset<Rc<AssumedFn>>
    decreases l,
{
    match *l {
        List::Nil => Multiset::empty(),
        List::Cons(h, t) => match spec_assumed_fn(all, h) {
            Some(a) => entries(all, t).insert(a),
            None => entries(all, t),
        },
    }
}

/// The report lists each assumed function once, those that need action first: functions without a
/// specification come before those with one, then those with more calls, then by name.
pub proof fn law_assumptions_are_sorted(all: Rc<List<Decl>>, l: Rc<List<Decl>>, acc: Rc<List<AssumedFn>>)
    requires
        sorted(acc),
    ensures
        sorted(spec_assumed_fns(all, l, acc)),
        bag(spec_assumed_fns(all, l, acc)) =~= bag(acc).add(entries(all, l)),
    decreases l,
{
    match *l {
        List::Nil => {},
        List::Cons(h, t) => match spec_assumed_fn(all, h) {
            Some(a) => {
                lemma_insert_sorted(acc, a);
                law_assumptions_are_sorted(all, t, spec_insert_sorted(acc, a));
            },
            None => {
                law_assumptions_are_sorted(all, t, acc);
            },
        },
    }
}

} // verus!
