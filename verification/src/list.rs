//! Persistent lists.
//!
//! Syntax trees, environments and documents are shared freely between passes, so
//! their sequences are immutable linked lists whose tails are reference counted.

use std::rc::Rc;
use vstd::prelude::*;

verus! {

/// An immutable list of shared items.
pub enum List<X> {
    Nil,
    Cons(Rc<X>, Rc<List<X>>),
}

/// The list of the given items.
pub open spec fn list_of<X>(s: Seq<Rc<X>>) -> Rc<List<X>>
    decreases s.len(),
{
    if s.len() == 0 {
        Rc::new(List::Nil)
    } else {
        Rc::new(List::Cons(s[0], list_of(s.skip(1))))
    }
}

/// The list of given items has those items.
pub proof fn law_lists_keep_their_items<X>(s: Seq<Rc<X>>)
    ensures
        list_of(s).items() == s,
    decreases s.len(),
{
    if s.len() == 0 {
        assert(list_of(s).items() =~= s);
    } else {
        law_lists_keep_their_items(s.skip(1));
        assert(seq![s[0]] + s.skip(1) =~= s);
    }
}

/// A list is the list of its items.
pub proof fn lemma_items_list_of<X>(l: Rc<List<X>>)
    ensures
        list_of(l.items()) == l,
    decreases l,
{
    match *l {
        List::Nil => {},
        List::Cons(h, t) => {
            lemma_items_list_of(t);
            assert(l.items().skip(1) =~= t.items());
        },
    }
}

impl<X> List<X> {
    /// The items, in order.
    pub open spec fn items(&self) -> Seq<Rc<X>>
        decreases self,
    {
        match *self {
            List::Nil => Seq::empty(),
            List::Cons(h, t) => seq![h] + t.items(),
        }
    }

    /// The list of the items of a vector.
    pub fn from_vec(v: &Vec<Rc<X>>) -> (r: Rc<List<X>>)
        ensures
            r == list_of(v@),
    {
        let mut r: Rc<List<X>> = Rc::new(List::Nil);
        let mut i: usize = v.len();
        proof {
            assert(v@.skip(i as int) =~= Seq::<Rc<X>>::empty());
        }
        while i > 0
            invariant
                i <= v.len(),
                r == list_of(v@.skip(i as int)),
            decreases i,
        {
            i -= 1;
            proof {
                assert(v@.skip(i as int).skip(1) =~= v@.skip(i as int + 1));
            }
            r = Rc::new(List::Cons(v[i].clone(), r));
        }
        proof {
            assert(v@.skip(0) =~= v@);
        }
        r
    }

    /// The items as a vector.
    pub fn to_vec(l: &Rc<List<X>>) -> (r: Vec<Rc<X>>)
        ensures
            r@ == l.items(),
    {
        let mut r: Vec<Rc<X>> = Vec::new();
        List::extend_vec(l, &mut r);
        proof {
            assert(Seq::<Rc<X>>::empty() + l.items() =~= l.items());
        }
        r
    }

    /// Appends the items to a vector.
    pub fn extend_vec(l: &Rc<List<X>>, out: &mut Vec<Rc<X>>)
        ensures
            final(out)@ == old(out)@ + l.items(),
        decreases l,
    {
        let ghost start = out@;
        match &**l {
            List::Nil => {
                proof {
                    assert(start + l.items() =~= start);
                }
            },
            List::Cons(h, t) => {
                out.push(h.clone());
                List::extend_vec(t, out);
                proof {
                    assert(start.push(*h) + t.items() =~= start + (seq![*h] + t.items()));
                }
            },
        }
    }
}

/// The empty list.
pub open spec fn spec_nil<X>() -> Rc<List<X>>
{
    Rc::new(List::Nil)
}

/// The empty list.
pub fn nil<X>() -> (out: Rc<List<X>>)
    ensures
        out == spec_nil::<X>(),
{
    Rc::new(List::Nil)
}

/// `h` in front of `t`.
pub open spec fn spec_cons<X>(h: Rc<X>, t: Rc<List<X>>) -> Rc<List<X>>
{
    Rc::new(List::Cons(h, t))
}

/// `h` in front of `t`.
pub fn cons<X>(h: Rc<X>, t: Rc<List<X>>) -> (out: Rc<List<X>>)
    ensures
        out == spec_cons::<X>(h, t),
{
    Rc::new(List::Cons(h, t))
}

/// A list of one item.
pub open spec fn spec_l1<X>(a: Rc<X>) -> Rc<List<X>>
{
    spec_cons(a, spec_nil())
}

/// A list of one item.
pub fn l1<X>(a: Rc<X>) -> (out: Rc<List<X>>)
    ensures
        out == spec_l1::<X>(a),
{
    cons(a, nil())
}

/// A list of two items.
pub open spec fn spec_l2<X>(a: Rc<X>, b: Rc<X>) -> Rc<List<X>>
{
    spec_cons(a, spec_l1(b))
}

/// A list of two items.
pub fn l2<X>(a: Rc<X>, b: Rc<X>) -> (out: Rc<List<X>>)
    ensures
        out == spec_l2::<X>(a, b),
{
    cons(a, l1(b))
}

/// A list of three items.
pub open spec fn spec_l3<X>(a: Rc<X>, b: Rc<X>, c: Rc<X>) -> Rc<List<X>>
{
    spec_cons(a, spec_l2(b, c))
}

/// A list of three items.
pub fn l3<X>(a: Rc<X>, b: Rc<X>, c: Rc<X>) -> (out: Rc<List<X>>)
    ensures
        out == spec_l3::<X>(a, b, c),
{
    cons(a, l2(b, c))
}

/// A list of four items.
pub open spec fn spec_l4<X>(a: Rc<X>, b: Rc<X>, c: Rc<X>, d: Rc<X>) -> Rc<List<X>>
{
    spec_cons(a, spec_l3(b, c, d))
}

/// A list of four items.
pub fn l4<X>(a: Rc<X>, b: Rc<X>, c: Rc<X>, d: Rc<X>) -> (out: Rc<List<X>>)
    ensures
        out == spec_l4::<X>(a, b, c, d),
{
    cons(a, l3(b, c, d))
}

/// A list of five items.
pub open spec fn spec_l5<X>(a: Rc<X>, b: Rc<X>, c: Rc<X>, d: Rc<X>, e: Rc<X>) -> Rc<List<X>>
{
    spec_cons(a, spec_l4(b, c, d, e))
}

/// A list of five items.
pub fn l5<X>(a: Rc<X>, b: Rc<X>, c: Rc<X>, d: Rc<X>, e: Rc<X>) -> (out: Rc<List<X>>)
    ensures
        out == spec_l5::<X>(a, b, c, d, e),
{
    cons(a, l4(b, c, d, e))
}

/// A list of six items.
pub open spec fn spec_l6<X>(
    a: Rc<X>,
    b: Rc<X>,
    c: Rc<X>,
    d: Rc<X>,
    e: Rc<X>,
    f: Rc<X>,
) -> Rc<List<X>>
{
    spec_cons(a, spec_l5(b, c, d, e, f))
}

/// A list of six items.
pub fn l6<X>(a: Rc<X>, b: Rc<X>, c: Rc<X>, d: Rc<X>, e: Rc<X>, f: Rc<X>) -> (out: Rc<List<X>>)
    ensures
        out == spec_l6::<X>(a, b, c, d, e, f),
{
    cons(a, l5(b, c, d, e, f))
}

/// A list of seven items.
pub open spec fn spec_l7<X>(
    a: Rc<X>,
    b: Rc<X>,
    c: Rc<X>,
    d: Rc<X>,
    e: Rc<X>,
    f: Rc<X>,
    g: Rc<X>,
) -> Rc<List<X>>
{
    spec_cons(a, spec_l6(b, c, d, e, f, g))
}

/// A list of seven items.
pub fn l7<X>(a: Rc<X>, b: Rc<X>, c: Rc<X>, d: Rc<X>, e: Rc<X>, f: Rc<X>, g: Rc<X>) -> (out: Rc<List<X>>)
    ensures
        out == spec_l7::<X>(a, b, c, d, e, f, g),
{
    cons(a, l6(b, c, d, e, f, g))
}

/// Whether the list has no item.
pub open spec fn spec_list_is_empty<X>(l: Rc<List<X>>) -> bool
{
    matches!(*l, List::Nil)
}

/// Whether the list has no item.
pub fn list_is_empty<X>(l: &Rc<List<X>>) -> (out: bool)
    ensures
        out == spec_list_is_empty::<X>(*l),
{
    matches!(&**l, List::Nil)
}

/// The items of `a`, followed by those of `b`.
pub open spec fn spec_list_append<X>(a: Rc<List<X>>, b: Rc<List<X>>) -> Rc<List<X>>
    decreases a,
{
    match *a {
        List::Nil => b,
        List::Cons(h, t) => spec_cons(h, spec_list_append(t, b)),
    }
}

/// The items of `a`, followed by those of `b`.
pub fn list_append<X>(a: &Rc<List<X>>, b: Rc<List<X>>) -> (out: Rc<List<X>>)
    ensures
        out == spec_list_append::<X>(*a, b),
    decreases a,
{
    match &**a {
        List::Nil => b,
        List::Cons(h, t) => cons(h.clone(), list_append(t, b)),
    }
}

/// The items of `a`, followed by `x`.
pub open spec fn spec_list_push<X>(a: Rc<List<X>>, x: Rc<X>) -> Rc<List<X>>
{
    spec_list_append(a, spec_l1(x))
}

/// The items of `a`, followed by `x`.
pub fn list_push<X>(a: &Rc<List<X>>, x: Rc<X>) -> (out: Rc<List<X>>)
    ensures
        out == spec_list_push::<X>(*a, x),
{
    list_append(a, l1(x))
}

/// `n + 1`, or `n` where that has no representation.
pub open spec fn spec_bump(n: u64) -> u64
{
    if n < u64::MAX {
        (n + 1) as u64
    } else {
        n
    }
}

/// `n + 1`, or `n` where that has no representation.
pub fn bump(n: u64) -> (out: u64)
    ensures
        out == spec_bump(n),
{
    if n < u64::MAX { (n + 1) as u64 } else { n }
}

/// `n - 1`, or 0.
pub open spec fn spec_drop_one(n: u64) -> u64
{
    if n > 0 {
        (n - 1) as u64
    } else {
        0
    }
}

/// `n - 1`, or 0.
pub fn drop_one(n: u64) -> (out: u64)
    ensures
        out == spec_drop_one(n),
{
    if n > 0 { (n - 1) as u64 } else { 0 }
}

/// The number of items.
pub open spec fn spec_list_len<X>(l: Rc<List<X>>) -> u64
    decreases l,
{
    match *l {
        List::Nil => 0,
        List::Cons(_, t) => spec_bump(spec_list_len(t)),
    }
}

/// The number of items.
pub fn list_len<X>(l: &Rc<List<X>>) -> (out: u64)
    ensures
        out == spec_list_len::<X>(*l),
    decreases l,
{
    match &**l {
        List::Nil => 0,
        List::Cons(_, t) => bump(list_len(t)),
    }
}

} // verus!
