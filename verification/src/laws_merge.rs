//! What is proved of merging.

use crate::list::{List, spec_drop_one, spec_list_len, spec_nil};
use crate::ir::Decl;
use crate::emit_base::spec_decl_text;
use crate::type_deps::{
    Node, spec_any_left, spec_first_ready, spec_is_left, spec_next_node, spec_node_decls,
    spec_nodes_from, spec_place_nodes, spec_remove_node, spec_reorder_type_deps,
};
use crate::merge::{
    DeclKind, spec_add_decl, spec_combine, spec_decl_kind, spec_dedup, spec_dedup_onto,
    spec_merge_globals, spec_same_decl_key,
};
use crate::laws_names::lemma_list_len;
use std::rc::Rc;
use vstd::multiset::Multiset;
use vstd::prelude::*;

verus! {

/// What a declaration declares, and in which way.
pub open spec fn decl_key(d: Rc<Decl>) -> (DeclKind, Seq<char>) {
    (spec_decl_kind(d), spec_decl_text(d).chars())
}

/// What declarations declare, in order.
pub open spec fn decl_keys(l: Rc<List<Decl>>) -> Seq<(DeclKind, Seq<char>)>
    decreases l,
{
    match *l {
        List::Nil => Seq::empty(),
        List::Cons(h, t) => seq![decl_key(h)] + decl_keys(t),
    }
}

/// Two declarations of the same thing together declare it too.
proof fn lemma_combine_key(a: Rc<Decl>, b: Rc<Decl>)
    requires
        decl_key(a) == decl_key(b),
    ensures
        decl_key(spec_combine(a, b)) == decl_key(a),
{
    reveal(spec_combine);
    reveal(spec_merge_globals);
    reveal(spec_decl_kind);
    reveal(spec_decl_text);
}

/// A declaration of something new comes last, and one of something known changes no key.
pub proof fn law_a_declaration_is_kept_once(l: Rc<List<Decl>>, d: Rc<Decl>)
    ensures
        decl_keys(spec_add_decl(l, d)) == (if decl_keys(l).contains(decl_key(d)) {
            decl_keys(l)
        } else {
            decl_keys(l).push(decl_key(d))
        }),
    decreases l,
{
    reveal(spec_same_decl_key);
    match *l {
        List::Nil => {
            assert(decl_keys(spec_add_decl(l, d)) =~= decl_keys(l).push(decl_key(d)));
        },
        List::Cons(h, t) => {
            assert(decl_keys(l)[0] == decl_key(h));
            if spec_same_decl_key(h, d) {
                lemma_combine_key(h, d);
            } else {
                law_a_declaration_is_kept_once(t, d);
                if decl_keys(t).contains(decl_key(d)) {
                    let i = choose|i: int| 0 <= i < decl_keys(t).len() && decl_keys(t)[i] == decl_key(d);
                    assert(decl_keys(l)[i + 1] == decl_key(d));
                } else {
                    assert(!decl_keys(l).contains(decl_key(d))) by {
                        if decl_keys(l).contains(decl_key(d)) {
                            let i = choose|i: int| 0 <= i < decl_keys(l).len() && decl_keys(l)[i] == decl_key(d);
                            assert(decl_keys(t)[i - 1] == decl_key(d));
                        }
                    }
                    assert(decl_keys(spec_add_decl(l, d)) =~= decl_keys(l).push(decl_key(d)));
                }
            }
        },
    }
}

/// Adding declarations one by one keeps every key, and keeps keys apart.
proof fn lemma_dedup_onto(done: Rc<List<Decl>>, l: Rc<List<Decl>>)
    requires
        decl_keys(done).no_duplicates(),
    ensures
        decl_keys(spec_dedup_onto(done, l)).no_duplicates(),
        forall|k: (DeclKind, Seq<char>)| #[trigger]
            decl_keys(spec_dedup_onto(done, l)).contains(k) <==> decl_keys(done).contains(k) || decl_keys(l).contains(k),
    decreases l,
{
    match *l {
        List::Nil => {},
        List::Cons(h, t) => {
            law_a_declaration_is_kept_once(done, h);
            let next = spec_add_decl(done, h);
            assert forall|k: (DeclKind, Seq<char>)| #[trigger] decl_keys(next).contains(k) <==> decl_keys(done).contains(k) || k == decl_key(h) by {
                if !decl_keys(done).contains(decl_key(h)) {
                    if decl_keys(done).contains(k) {
                        let i = choose|i: int| 0 <= i < decl_keys(done).len() && decl_keys(done)[i] == k;
                        assert(decl_keys(next)[i] == k);
                    }
                    if k == decl_key(h) {
                        assert(decl_keys(next)[decl_keys(done).len() as int] == k);
                    }
                }
            }
            lemma_dedup_onto(next, t);
            assert forall|k: (DeclKind, Seq<char>)| #[trigger]
                decl_keys(spec_dedup_onto(done, l)).contains(k) <==> decl_keys(done).contains(k) || decl_keys(l).contains(k) by {
                if decl_keys(t).contains(k) {
                    let i = choose|i: int| 0 <= i < decl_keys(t).len() && decl_keys(t)[i] == k;
                    assert(decl_keys(l)[i + 1] == k);
                }
                if k == decl_key(h) {
                    assert(decl_keys(l)[0] == k);
                }
                if decl_keys(l).contains(k) {
                    let i = choose|i: int| 0 <= i < decl_keys(l).len() && decl_keys(l)[i] == k;
                    if i > 0 {
                        assert(decl_keys(t)[i - 1] == k);
                    }
                }
            }
        },
    }
}

/// After duplicates are joined nothing is declared twice in the same way, and nothing that was
/// declared is lost.
pub proof fn law_duplicates_are_joined(l: Rc<List<Decl>>)
    ensures
        decl_keys(spec_dedup(l)).no_duplicates(),
        forall|k: (DeclKind, Seq<char>)| #[trigger] decl_keys(spec_dedup(l)).contains(k) <==> decl_keys(l).contains(k),
{
    reveal(spec_dedup);
    let none: Rc<List<Decl>> = spec_nil();
    assert(decl_keys(none) =~= Seq::empty());
    lemma_dedup_onto(none, l);
}

/// How often each item occurs in a list.
pub open spec fn bag<X>(l: Rc<List<X>>) -> Multiset<Rc<X>>
    decreases l,
{
    match *l {
        List::Nil => Multiset::empty(),
        List::Cons(h, t) => bag(t).insert(h),
    }
}

/// Whether the node is one of the list.
pub open spec fn is_node_of(l: Rc<List<Node>>, n: Rc<Node>) -> bool
    decreases l,
{
    match *l {
        List::Nil => false,
        List::Cons(h, t) => h == n || is_node_of(t, n),
    }
}

/// Whether no two nodes have the same position.
pub open spec fn positions_apart(l: Rc<List<Node>>) -> bool
    decreases l,
{
    match *l {
        List::Nil => true,
        List::Cons(h, t) => !spec_is_left(t, h.index) && positions_apart(t),
    }
}

/// A node of the list is still to be placed.
pub proof fn lemma_node_is_left(l: Rc<List<Node>>, n: Rc<Node>)
    requires
        is_node_of(l, n),
    ensures
        spec_is_left(l, n.index),
    decreases l,
{
    match *l {
        List::Nil => {},
        List::Cons(h, t) => {
            if h != n {
                lemma_node_is_left(t, n);
            }
        },
    }
}

/// A position still to be placed is that of a node.
proof fn lemma_left_is_node(l: Rc<List<Node>>, j: u64) -> (n: Rc<Node>)
    requires
        spec_is_left(l, j),
    ensures
        is_node_of(l, n),
        n.index == j,
    decreases l,
{
    match *l {
        List::Nil => arbitrary(),
        List::Cons(h, t) => if h.index == j {
            h
        } else {
            lemma_left_is_node(t, j)
        },
    }
}

/// A ready node is one of those searched.
proof fn lemma_first_ready(left: Rc<List<Node>>, l: Rc<List<Node>>)
    ensures
        spec_first_ready(left, l) matches Some(n) ==> is_node_of(l, n) && !spec_any_left(left, n.prereqs),
        spec_first_ready(left, l) is None ==> forall|n: Rc<Node>| #[trigger] is_node_of(l, n) ==> spec_any_left(left, n.prereqs),
    decreases l,
{
    match *l {
        List::Nil => {},
        List::Cons(h, t) => {
            lemma_first_ready(left, t);
            if spec_first_ready(left, l) is None {
                assert forall|n: Rc<Node>| #[trigger] is_node_of(l, n) implies spec_any_left(left, n.prereqs) by {
                    assert(h == n || is_node_of(t, n));
                }
            }
        },
    }
}

/// The next node is one of those still to be placed.
pub proof fn lemma_next_node(left: Rc<List<Node>>)
    ensures
        spec_next_node(left) matches Some(n) ==> is_node_of(left, n),
        spec_next_node(left) is None ==> *left is Nil,
{
    reveal(spec_next_node);
    lemma_first_ready(left, left);
}

/// Removing a node takes its declaration out, and leaves the others.
pub proof fn lemma_remove_node(left: Rc<List<Node>>, n: Rc<Node>)
    requires
        is_node_of(left, n),
        positions_apart(left),
    ensures
        bag(spec_node_decls(left)) =~= bag(spec_node_decls(spec_remove_node(left, n.index))).insert(n.decl),
        positions_apart(spec_remove_node(left, n.index)),
        spec_remove_node(left, n.index).items().len() + 1 == left.items().len(),
        forall|j: u64| #[trigger] spec_is_left(spec_remove_node(left, n.index), j) ==> spec_is_left(left, j),
        forall|m: Rc<Node>| #[trigger] is_node_of(spec_remove_node(left, n.index), m) ==> is_node_of(left, m),
    decreases left,
{
    match *left {
        List::Nil => {},
        List::Cons(h, t) => {
            if h.index == n.index {
                if h != n {
                    lemma_node_is_left(t, n);
                }
            } else {
                lemma_remove_node(t, n);
            }
            let rest = spec_remove_node(left, n.index);
            assert forall|j: u64| #[trigger] spec_is_left(rest, j) implies spec_is_left(left, j) by {
                assert(spec_is_left(t, j) || (h.index == j || spec_is_left(spec_remove_node(t, n.index), j)));
            }
            assert forall|m: Rc<Node>| #[trigger] is_node_of(rest, m) implies is_node_of(left, m) by {
                assert(is_node_of(t, m) || (h == m || is_node_of(spec_remove_node(t, n.index), m)));
            }
        },
    }
}

/// Placing all nodes places each declaration once.
proof fn lemma_place_nodes_bag(left: Rc<List<Node>>, count: u64)
    requires
        positions_apart(left),
        count == left.items().len(),
    ensures
        bag(spec_node_decls(spec_place_nodes(left, count))) =~= bag(spec_node_decls(left)),
    decreases count,
{
    if count == 0 {
        assert(left.items().len() == 0);
        match *left {
            List::Nil => {},
            List::Cons(h, t) => {
                assert(left.items()[0] == h);
            },
        }
    } else {
        lemma_next_node(left);
        match spec_next_node(left) {
            Some(n) => {
                lemma_remove_node(left, n);
                lemma_place_nodes_bag(spec_remove_node(left, n.index), spec_drop_one(count));
            },
            None => {},
        }
    }
}

/// The nodes of declarations have consecutive positions.
pub proof fn lemma_nodes_from(all: Rc<List<Decl>>, l: Rc<List<Decl>>, i: u64)
    requires
        i + l.items().len() < u64::MAX,
    ensures
        spec_node_decls(spec_nodes_from(all, l, i)) == l,
        spec_nodes_from(all, l, i).items().len() == l.items().len(),
        positions_apart(spec_nodes_from(all, l, i)),
        forall|j: u64| j < i ==> !(#[trigger] spec_is_left(spec_nodes_from(all, l, i), j)),
    decreases l,
{
    match *l {
        List::Nil => {},
        List::Cons(h, t) => {
            lemma_nodes_from(all, t, (i + 1) as u64);
            let rest = spec_nodes_from(all, t, (i + 1) as u64);
            assert(!spec_is_left(rest, i));
            assert forall|j: u64| j < i implies !(#[trigger] spec_is_left(spec_nodes_from(all, l, i), j)) by {
                assert(!spec_is_left(rest, j));
            }
        },
    }
}

/// Ordering type definitions loses, adds and repeats no declaration.
pub proof fn law_reordering_is_a_permutation(l: Rc<List<Decl>>)
    requires
        l.items().len() < u64::MAX,
    ensures
        bag(spec_reorder_type_deps(l)) == bag(l),
{
    reveal(spec_reorder_type_deps);
    lemma_nodes_from(l, l, 0);
    let nodes = spec_nodes_from(l, l, 0);
    lemma_list_len(nodes);
    lemma_place_nodes_bag(nodes, spec_list_len(nodes));
}

/// The positions that have to precede a node.
pub open spec fn prereqs_of(n: Rc<Node>) -> Rc<List<u64>> {
    n.prereqs
}

/// Whether what has to precede a node has a lower rank than the node, for each node of the list.
pub open spec fn ranked(l: Rc<List<Node>>, rank: spec_fn(u64) -> nat) -> bool {
    forall|n: Rc<Node>| #[trigger] is_node_of(l, n) ==> all_below(n.prereqs, rank, rank(n.index))
}

/// Whether all positions have a rank below `r`.
pub open spec fn all_below(js: Rc<List<u64>>, rank: spec_fn(u64) -> nat, r: nat) -> bool
    decreases js,
{
    match *js {
        List::Nil => true,
        List::Cons(h, t) => rank(*h) < r && all_below(t, rank, r),
    }
}

/// Whether nothing that has to precede a node comes after it.
pub open spec fn orderly(p: Rc<List<Node>>) -> bool
    decreases p,
{
    match *p {
        List::Nil => true,
        List::Cons(n, rest) => !spec_any_left(rest, n.prereqs) && orderly(rest),
    }
}

/// If one of the positions is still to be placed, a node of a lower rank is.
proof fn lemma_any_left(left: Rc<List<Node>>, js: Rc<List<u64>>, rank: spec_fn(u64) -> nat, r: nat) -> (n: Rc<Node>)
    requires
        spec_any_left(left, js),
        all_below(js, rank, r),
    ensures
        is_node_of(left, n),
        rank(n.index) < r,
    decreases js,
{
    match *js {
        List::Nil => arbitrary(),
        List::Cons(h, t) => if spec_is_left(left, *h) {
            lemma_left_is_node(left, *h)
        } else {
            lemma_any_left(left, t, rank, r)
        },
    }
}

/// Without a cycle some node is ready.
proof fn lemma_some_node_is_ready(left: Rc<List<Node>>, n: Rc<Node>, rank: spec_fn(u64) -> nat)
    requires
        is_node_of(left, n),
        ranked(left, rank),
    ensures
        spec_first_ready(left, left) is Some,
    decreases rank(n.index),
{
    lemma_first_ready(left, left);
    if spec_first_ready(left, left) is None {
        let m = lemma_any_left(left, prereqs_of(n), rank, rank(n.index));
        lemma_some_node_is_ready(left, m, rank);
    }
}

/// What is not left of more nodes is not left of fewer.
proof fn lemma_any_left_mono(a: Rc<List<Node>>, b: Rc<List<Node>>, js: Rc<List<u64>>)
    requires
        forall|j: u64| #[trigger] spec_is_left(a, j) ==> spec_is_left(b, j),
        !spec_any_left(b, js),
    ensures
        !spec_any_left(a, js),
    decreases js,
{
    match *js {
        List::Nil => {},
        List::Cons(h, t) => {
            lemma_any_left_mono(a, b, t);
        },
    }
}

/// Nodes that are placed were to be placed.
pub proof fn lemma_placed_were_left(left: Rc<List<Node>>, count: u64)
    requires
        positions_apart(left),
    ensures
        forall|j: u64| #[trigger] spec_is_left(spec_place_nodes(left, count), j) ==> spec_is_left(left, j),
    decreases count,
{
    if count > 0 {
        lemma_next_node(left);
        match spec_next_node(left) {
            Some(n) => {
                lemma_remove_node(left, n);
                lemma_node_is_left(left, n);
                let rest = spec_remove_node(left, n.index);
                lemma_placed_were_left(rest, spec_drop_one(count));
                assert forall|j: u64| #[trigger] spec_is_left(spec_place_nodes(left, count), j) implies spec_is_left(left, j) by {
                    assert(n.index == j || spec_is_left(spec_place_nodes(rest, spec_drop_one(count)), j));
                }
            },
            None => {},
        }
    }
}

/// Without a cycle nodes are placed in order.
pub proof fn lemma_place_nodes_orderly(left: Rc<List<Node>>, count: u64, rank: spec_fn(u64) -> nat)
    requires
        positions_apart(left),
        ranked(left, rank),
    ensures
        orderly(spec_place_nodes(left, count)),
    decreases count,
{
    if count > 0 {
        lemma_next_node(left);
        match spec_next_node(left) {
            Some(n) => {
                reveal(spec_next_node);
                lemma_some_node_is_ready(left, n, rank);
                lemma_first_ready(left, left);
                lemma_remove_node(left, n);
                let rest = spec_remove_node(left, n.index);
                assert(ranked(rest, rank));
                lemma_place_nodes_orderly(rest, spec_drop_one(count), rank);
                lemma_placed_were_left(rest, spec_drop_one(count));
                lemma_any_left_mono(spec_place_nodes(rest, spec_drop_one(count)), left, prereqs_of(n));
            },
            None => {},
        }
    }
}

/// Where type definitions do not refer to each other in a cycle, which is when they can be ranked,
/// every definition comes before what refers to it.
pub proof fn law_definitions_come_first(l: Rc<List<Decl>>, rank: spec_fn(u64) -> nat)
    requires
        l.items().len() < u64::MAX,
        ranked(spec_nodes_from(l, l, 0), rank),
    ensures
        ({
            let nodes = spec_nodes_from(l, l, 0);
            let placed = spec_place_nodes(nodes, spec_list_len(nodes));
            orderly(placed) && spec_reorder_type_deps(l) == spec_node_decls(placed)
        }),
{
    reveal(spec_reorder_type_deps);
    lemma_nodes_from(l, l, 0);
    let nodes = spec_nodes_from(l, l, 0);
    lemma_place_nodes_orderly(nodes, spec_list_len(nodes), rank);
}

} // verus!
