//! What is proved of merging what was merged already.

use crate::list::{
    List, spec_bump, spec_drop_one, spec_l1, spec_list_append, spec_list_len, spec_list_push,
    spec_nil,
};
use crate::ir::{Decl, DeclT, FnDecl, FnDefn, StructDefn};
use crate::diag::{Diagnostic, extends, lemma_cons_is_new};
use crate::env::Env;
use crate::emit_base::spec_decl_text;
use crate::type_deps::{
    Node, TypeKey, spec_any_left, spec_decl_refs, spec_defined_key, spec_defines,
    spec_definition_index, spec_first_ready, spec_is_left, spec_next_node, spec_node_decls,
    spec_nodes_from, spec_place_nodes, spec_prereq_indices, spec_remove_node,
    spec_reorder_type_deps, spec_same_key,
};
use crate::merge::{
    DeclKind, Match, spec_add_decl, spec_check_match, spec_check_matches,
    spec_check_redeclarations, spec_check_redeclared, spec_decl_kind, spec_dedup, spec_dedup_onto,
    spec_find_defn, spec_find_defn_decl, spec_first_same, spec_match_fn, spec_merge_decls,
    spec_merge_diags, spec_same_decl_key, spec_settle_decl, spec_settle_decls,
    spec_settle_fn_decl, spec_settle_fn_defn,
};
use crate::laws_names::lemma_list_len;
use crate::laws_goto::{ident_text, lemma_append_assoc};
use crate::laws_merge::{
    all_below, decl_key, decl_keys, is_node_of, law_definitions_come_first,
    law_duplicates_are_joined, law_reordering_is_a_permutation, lemma_next_node,
    lemma_node_is_left, lemma_nodes_from, lemma_placed_were_left, lemma_remove_node, orderly,
    positions_apart, prereqs_of, ranked,
};
use crate::laws_syntax::decl_name_text;
use crate::laws_passes::{
    declares, defn_name_text, law_merging_declares_everything_once, lemma_bag, lemma_decl_found,
    lemma_dedup_len, lemma_defn_found, lemma_has_append, lemma_has_cons, lemma_items_cons,
    lemma_keys_items, lemma_same_bag, lemma_settle_behind, lemma_settle_len, lemma_struct_found,
    lemma_unique_item, merge_env, merged, merges, remains, struct_name_text,
};
use std::rc::Rc;
use vstd::prelude::*;

verus! {

/// Whether a number is one of the list.
pub open spec fn is_among(js: Rc<List<u64>>, j: u64) -> bool
    decreases js,
{
    match *js {
        List::Nil => false,
        List::Cons(h, t) => *h == j || is_among(t, j),
    }
}

/// Whether all numbers of the list are below another.
pub open spec fn are_below(js: Rc<List<u64>>, i: u64) -> bool
    decreases js,
{
    match *js {
        List::Nil => true,
        List::Cons(h, t) => *h < i && are_below(t, i),
    }
}

/// Whether nodes are numbered from `i` on, and each has only lower numbers to precede it.
pub open spec fn in_order_from(l: Rc<List<Node>>, i: u64) -> bool
    decreases l,
{
    match *l {
        List::Nil => true,
        List::Cons(h, t) => h.index == i && are_below(h.prereqs, i) && in_order_from(t, spec_bump(i)),
    }
}

/// No number below the first is left.
proof fn lemma_lower_is_not_left(l: Rc<List<Node>>, i: u64, j: u64)
    requires
        in_order_from(l, i),
        i + l.items().len() < u64::MAX,
        j < i,
    ensures
        !spec_is_left(l, j),
    decreases l,
{
    match *l {
        List::Nil => {},
        List::Cons(_, t) => lemma_lower_is_not_left(t, spec_bump(i), j),
    }
}

/// None of the lower numbers is left.
proof fn lemma_none_left(l: Rc<List<Node>>, i: u64, js: Rc<List<u64>>)
    requires
        in_order_from(l, i),
        i + l.items().len() < u64::MAX,
        are_below(js, i),
    ensures
        !spec_any_left(l, js),
    decreases js,
{
    match *js {
        List::Nil => {},
        List::Cons(h, t) => {
            lemma_lower_is_not_left(l, i, *h);
            lemma_none_left(l, i, t);
        },
    }
}

/// Nodes that are in order are placed in that order.
proof fn lemma_order_stays(l: Rc<List<Node>>, i: u64, count: u64)
    requires
        in_order_from(l, i),
        i + l.items().len() < u64::MAX,
        count == l.items().len(),
    ensures
        spec_place_nodes(l, count) == l,
    decreases l,
{
    match *l {
        List::Nil => {},
        List::Cons(h, t) => {
            lemma_none_left(l, i, prereqs_of(h));
            assert(spec_first_ready(l, l) == Some(h));
            reveal(spec_next_node);
            assert(spec_next_node(l) == Some(h));
            assert(spec_remove_node(l, h.index) == t);
            lemma_order_stays(t, spec_bump(i), spec_drop_one(count));
        },
    }
}

/// Where a definition is found.
proof fn lemma_definition_index(l: Rc<List<Decl>>, key: Rc<TypeKey>, i: u64, found: Option<u64>)
    requires
        i + l.items().len() < u64::MAX,
    ensures
        spec_definition_index(l, key, i, found) matches Some(q) ==> found == Some(q) || (i <= q < i + l.items().len() && spec_defines(
            l.items()[q - i],
            key,
        )),
        found is Some ==> spec_definition_index(l, key, i, found) is Some,
        (exists|k: int| 0 <= k < l.items().len() && spec_defines(#[trigger] l.items()[k], key)) ==> spec_definition_index(l, key, i, found) is Some,
    decreases l,
{
    match *l {
        List::Nil => {},
        List::Cons(h, t) => {
            let next = if spec_defines(h, key) {
                Some(i)
            } else {
                found
            };
            lemma_definition_index(t, key, spec_bump(i), next);
            assert(l.items() == seq![h] + t.items());
            assert(l.items()[0] == h);
            match spec_definition_index(l, key, i, found) {
                Some(q) => {
                    if next != Some(q) {
                        assert(l.items()[q - i] == t.items()[q - i - 1]);
                    }
                },
                None => {},
            }
            if exists|k: int| 0 <= k < l.items().len() && spec_defines(#[trigger] l.items()[k], key) {
                let k = choose|k: int| 0 <= k < l.items().len() && spec_defines(#[trigger] l.items()[k], key);
                if k > 0 {
                    assert(t.items()[k - 1] == l.items()[k]);
                }
            }
        },
    }
}

/// Two definitions of a type declare the same.
proof fn lemma_definers(a: Rc<Decl>, b: Rc<Decl>, key: Rc<TypeKey>)
    requires
        spec_defines(a, key),
        spec_defines(b, key),
    ensures
        decl_key(a) == decl_key(b),
{
    reveal(spec_defines);
    reveal(spec_defined_key);
    reveal(spec_same_key);
    reveal(spec_decl_kind);
    reveal(spec_decl_text);
}

/// The definition of what is referred to has to precede.
proof fn lemma_prereq_is_among(all: Rc<List<Decl>>, refs: Rc<List<TypeKey>>, i: u64, key: Rc<TypeKey>, j: u64)
    requires
        refs.items().contains(key),
        spec_definition_index(all, key, 0, None) == Some(j),
        j != i,
    ensures
        is_among(spec_prereq_indices(all, refs, i), j),
    decreases refs,
{
    match *refs {
        List::Nil => {},
        List::Cons(h, t) => {
            assert(refs.items() == seq![h] + t.items());
            if h != key {
                let k = choose|k: int| 0 <= k < refs.items().len() && refs.items()[k] == key;
                assert(t.items()[k - 1] == key);
                lemma_prereq_is_among(all, t, i, key, j);
            }
        },
    }
}

/// Where no definition of what is referred to comes later, only lower numbers have to precede.
proof fn lemma_prereqs_are_below(all: Rc<List<Decl>>, refs: Rc<List<TypeKey>>, i: u64)
    requires
        forall|k: int| 0 <= k < refs.items().len() ==> (spec_definition_index(all, #[trigger] refs.items()[k], 0, None) matches Some(q) ==> q <= i),
    ensures
        are_below(spec_prereq_indices(all, refs, i), i),
    decreases refs,
{
    match *refs {
        List::Nil => {},
        List::Cons(h, t) => {
            assert(refs.items() == seq![h] + t.items());
            assert(refs.items()[0] == h);
            assert forall|k: int| 0 <= k < t.items().len() implies (spec_definition_index(all, #[trigger] t.items()[k], 0, None) matches Some(q) ==> q
                <= i) by {
                assert(refs.items()[k + 1] == t.items()[k]);
            }
            lemma_prereqs_are_below(all, t, i);
        },
    }
}

/// What is among the positions and is left is one of those left.
proof fn lemma_any_left_among(left: Rc<List<Node>>, js: Rc<List<u64>>, j: u64)
    requires
        is_among(js, j),
        spec_is_left(left, j),
    ensures
        spec_any_left(left, js),
    decreases js,
{
    match *js {
        List::Nil => {},
        List::Cons(h, t) => {
            if *h != j {
                lemma_any_left_among(left, t, j);
            }
        },
    }
}

/// The items of a list of nodes are nodes of it.
proof fn lemma_item_is_node(l: Rc<List<Node>>, i: int)
    requires
        0 <= i < l.items().len(),
    ensures
        is_node_of(l, l.items()[i]),
    decreases l,
{
    match *l {
        List::Nil => {},
        List::Cons(h, t) => {
            assert(l.items() == seq![h] + t.items());
            if i > 0 {
                lemma_item_is_node(t, i - 1);
                assert(l.items()[i] == t.items()[i - 1]);
            }
        },
    }
}

/// In an orderly list nothing has to precede a node that comes before it.
proof fn lemma_orderly_at(p: Rc<List<Node>>, i: int, q: int)
    requires
        orderly(p),
        0 <= i < q < p.items().len(),
    ensures
        !is_among(p.items()[i].prereqs, p.items()[q].index),
    decreases p,
{
    match *p {
        List::Nil => {},
        List::Cons(n, rest) => {
            assert(p.items() == seq![n] + rest.items());
            assert(p.items()[q] == rest.items()[q - 1]);
            if i == 0 {
                lemma_item_is_node(rest, q - 1);
                lemma_node_is_left(rest, rest.items()[q - 1]);
                if is_among(prereqs_of(n), rest.items()[q - 1].index) {
                    lemma_any_left_among(rest, prereqs_of(n), rest.items()[q - 1].index);
                }
            } else {
                lemma_orderly_at(rest, i - 1, q - 1);
                assert(p.items()[i] == rest.items()[i - 1]);
            }
        },
    }
}

/// What the nodes of declarations hold.
proof fn lemma_node_at(all: Rc<List<Decl>>, l: Rc<List<Decl>>, i: u64, n: Rc<Node>)
    requires
        is_node_of(spec_nodes_from(all, l, i), n),
        i + l.items().len() < u64::MAX,
    ensures
        i <= n.index < i + l.items().len(),
        n.decl == l.items()[n.index - i],
        n.prereqs == spec_prereq_indices(all, spec_decl_refs(n.decl), n.index),
    decreases l,
{
    match *l {
        List::Nil => {},
        List::Cons(h, t) => {
            assert(l.items() == seq![h] + t.items());
            let rest = spec_nodes_from(all, t, spec_bump(i));
            if is_node_of(rest, n) {
                lemma_node_at(all, t, spec_bump(i), n);
                assert(l.items()[n.index - i] == t.items()[n.index - i - 1]);
            } else {
                assert(l.items()[0] == h);
            }
        },
    }
}

/// A removed node is not left.
proof fn lemma_removed_is_not_left(left: Rc<List<Node>>, j: u64)
    requires
        positions_apart(left),
    ensures
        !spec_is_left(spec_remove_node(left, j), j),
    decreases left,
{
    match *left {
        List::Nil => {},
        List::Cons(_, t) => lemma_removed_is_not_left(t, j),
    }
}

/// Nodes that are placed are nodes that were left, each once.
proof fn lemma_placed(left: Rc<List<Node>>, count: u64)
    requires
        positions_apart(left),
    ensures
        positions_apart(spec_place_nodes(left, count)),
        forall|m: Rc<Node>| #[trigger] is_node_of(spec_place_nodes(left, count), m) ==> is_node_of(left, m),
    decreases count,
{
    if count > 0 {
        lemma_next_node(left);
        match spec_next_node(left) {
            Some(n) => {
                lemma_remove_node(left, n);
                let rest = spec_remove_node(left, n.index);
                let less = spec_drop_one(count);
                lemma_placed(rest, less);
                lemma_placed_were_left(rest, less);
                lemma_removed_is_not_left(left, n.index);
                assert forall|m: Rc<Node>| #[trigger] is_node_of(spec_place_nodes(left, count), m) implies is_node_of(left, m) by {
                    assert(m == n || is_node_of(spec_place_nodes(rest, less), m));
                }
            },
            None => {},
        }
    }
}

/// Nodes at different places have different positions.
proof fn lemma_positions_differ(p: Rc<List<Node>>, i: int, q: int)
    requires
        positions_apart(p),
        0 <= i < q < p.items().len(),
    ensures
        p.items()[i].index != p.items()[q].index,
    decreases p,
{
    match *p {
        List::Nil => {},
        List::Cons(n, rest) => {
            assert(p.items() == seq![n] + rest.items());
            assert(p.items()[q] == rest.items()[q - 1]);
            if i == 0 {
                lemma_item_is_node(rest, q - 1);
                lemma_node_is_left(rest, rest.items()[q - 1]);
            } else {
                lemma_positions_differ(rest, i - 1, q - 1);
                assert(p.items()[i] == rest.items()[i - 1]);
            }
        },
    }
}

/// The declarations of nodes, one by one.
proof fn lemma_node_decls(p: Rc<List<Node>>)
    ensures
        spec_node_decls(p).items().len() == p.items().len(),
        forall|i: int| 0 <= i < p.items().len() ==> #[trigger] spec_node_decls(p).items()[i] == p.items()[i].decl,
    decreases p,
{
    match *p {
        List::Nil => {},
        List::Cons(n, rest) => {
            lemma_node_decls(rest);
            assert(p.items() == seq![n] + rest.items());
            assert(spec_node_decls(p).items() == seq![node_decl(n)] + spec_node_decls(rest).items());
            assert forall|i: int| 0 <= i < p.items().len() implies #[trigger] spec_node_decls(p).items()[i] == p.items()[i].decl by {
                if i > 0 {
                    assert(spec_node_decls(p).items()[i] == spec_node_decls(rest).items()[i - 1]);
                }
            }
        },
    }
}

/// The declaration of a node.
pub open spec fn node_decl(n: Rc<Node>) -> Rc<Decl> {
    n.decl
}

/// After reordering without cycles no definition of what is referred to comes later.
proof fn lemma_no_later_definition(kept: Rc<List<Decl>>, rank: spec_fn(u64) -> nat, i: int, key: Rc<TypeKey>)
    requires
        kept.items().len() < u64::MAX,
        decl_keys(kept).no_duplicates(),
        ranked(spec_nodes_from(kept, kept, 0), rank),
        0 <= i < spec_reorder_type_deps(kept).items().len(),
        spec_decl_refs(spec_reorder_type_deps(kept).items()[i]).items().contains(key),
        spec_reorder_type_deps(kept).items().len() < u64::MAX,
    ensures
        spec_definition_index(spec_reorder_type_deps(kept), key, 0, None) matches Some(q) ==> q <= i,
{
    let nodes = spec_nodes_from(kept, kept, 0);
    let p = spec_place_nodes(nodes, spec_list_len(nodes));
    let m = spec_reorder_type_deps(kept);
    law_definitions_come_first(kept, rank);
    lemma_nodes_from(kept, kept, 0);
    lemma_placed(nodes, spec_list_len(nodes));
    lemma_node_decls(p);
    lemma_definition_index(m, key, 0, None);
    match spec_definition_index(m, key, 0, None) {
        Some(q) => {
            if q > i {
                let n = p.items()[i];
                let r = p.items()[q as int];
                lemma_item_is_node(p, i);
                lemma_item_is_node(p, q as int);
                lemma_node_at(kept, kept, 0, n);
                lemma_node_at(kept, kept, 0, r);
                lemma_positions_differ(p, i, q as int);
                lemma_definition_index(kept, key, 0, None);
                assert(kept.items()[r.index as int] == m.items()[q as int]);
                assert(spec_defines(kept.items()[r.index as int], key));
                let j = spec_definition_index(kept, key, 0, None)->Some_0;
                lemma_definers(kept.items()[j as int], kept.items()[r.index as int], key);
                lemma_keys_items(kept);
                assert(decl_keys(kept)[j as int] == decl_keys(kept)[r.index as int]);
                assert(j == r.index);
                lemma_prereq_is_among(kept, spec_decl_refs(node_decl(n)), n.index, key, j);
                lemma_orderly_at(p, i, q as int);
            }
        },
        None => {},
    }
}

/// The nodes of declarations that are in order are in order.
proof fn lemma_nodes_in_order(m: Rc<List<Decl>>, l: Rc<List<Decl>>, i: u64)
    requires
        i + l.items().len() < u64::MAX,
        forall|k: int, key: Rc<TypeKey>|
            0 <= k < l.items().len() && spec_decl_refs(#[trigger] l.items()[k]).items().contains(key) ==> (#[trigger] spec_definition_index(
                m,
                key,
                0,
                None,
            ) matches Some(q) ==> q <= i + k),
    ensures
        in_order_from(spec_nodes_from(m, l, i), i),
    decreases l,
{
    match *l {
        List::Nil => {},
        List::Cons(h, t) => {
            assert(l.items() == seq![h] + t.items());
            assert(l.items()[0] == h);
            let refs = spec_decl_refs(h);
            assert forall|k: int| 0 <= k < refs.items().len() implies (spec_definition_index(m, #[trigger] refs.items()[k], 0, None) matches Some(q) ==> q
                <= i) by {
                assert(refs.items().contains(refs.items()[k]));
            }
            lemma_prereqs_are_below(m, refs, i);
            assert forall|k: int, key: Rc<TypeKey>|
                0 <= k < t.items().len() && spec_decl_refs(#[trigger] t.items()[k]).items().contains(key) implies (#[trigger] spec_definition_index(
                m,
                key,
                0,
                None,
            ) matches Some(q) ==> q <= spec_bump(i) + k) by {
                assert(l.items()[k + 1] == t.items()[k]);
            }
            lemma_nodes_in_order(m, t, spec_bump(i));
        },
    }
}

/// Without cycles, what was reordered stays as it is: reordering a second time changes nothing.
pub proof fn law_reordering_twice_is_reordering_once(kept: Rc<List<Decl>>, rank: spec_fn(u64) -> nat)
    requires
        kept.items().len() < u64::MAX,
        decl_keys(kept).no_duplicates(),
        ranked(spec_nodes_from(kept, kept, 0), rank),
    ensures
        spec_reorder_type_deps(spec_reorder_type_deps(kept)) == spec_reorder_type_deps(kept),
{
    let m = spec_reorder_type_deps(kept);
    law_reordering_is_a_permutation(kept);
    lemma_same_bag(kept, m);
    lemma_bag(kept);
    lemma_bag(m);
    kept.items().to_multiset_ensures();
    m.items().to_multiset_ensures();
    assert(m.items().len() == kept.items().len());
    assert forall|k: int, key: Rc<TypeKey>|
        0 <= k < m.items().len() && spec_decl_refs(#[trigger] m.items()[k]).items().contains(key) implies (#[trigger] spec_definition_index(m, key, 0, None) matches Some(
        q,
    ) ==> q <= 0 + k) by {
        lemma_no_later_definition(kept, rank, k, key);
    }
    lemma_nodes_in_order(m, m, 0);
    lemma_nodes_from(m, m, 0);
    let nodes = spec_nodes_from(m, m, 0);
    lemma_list_len(nodes);
    lemma_order_stays(nodes, 0, spec_list_len(nodes));
    assert(spec_reorder_type_deps(m) == m) by {
        reveal(spec_reorder_type_deps);
    }
}

/// A declaration of something new comes last.
proof fn lemma_add_new(l: Rc<List<Decl>>, d: Rc<Decl>)
    requires
        !declares(l, decl_key(d)),
    ensures
        spec_add_decl(l, d) == spec_list_append(l, spec_l1(d)),
    decreases l,
{
    reveal(spec_same_decl_key);
    match *l {
        List::Nil => {},
        List::Cons(h, t) => {
            lemma_has_cons(l, h, t);
            lemma_add_new(t, d);
        },
    }
}

/// Where nothing is declared twice, nothing is joined.
proof fn lemma_nothing_to_join(done: Rc<List<Decl>>, l: Rc<List<Decl>>)
    requires
        decl_keys(spec_list_append(done, l)).no_duplicates(),
    ensures
        spec_dedup_onto(done, l) == spec_list_append(done, l),
    decreases l,
{
    match *l {
        List::Nil => {
            lemma_append_nil(done, l);
        },
        List::Cons(h, t) => {
            lemma_has_append(done, l);
            lemma_has_cons(l, h, t);
            assert(declares(l, decl_key(h)));
            lemma_add_new(done, h);
            lemma_append_assoc(done, spec_l1(h), t);
            assert(spec_list_append(spec_l1(h), t) == l) by {
                reveal_with_fuel(spec_list_append, 3);
            }
            lemma_nothing_to_join(spec_list_append(done, spec_l1(h)), t);
        },
    }
}

/// Appending nothing changes nothing.
proof fn lemma_append_nil(a: Rc<List<Decl>>, b: Rc<List<Decl>>)
    requires
        *b is Nil,
    ensures
        spec_list_append(a, b) == a,
    decreases a,
{
    match *a {
        List::Nil => {},
        List::Cons(_, t) => lemma_append_nil(t, b),
    }
}

/// Whether nothing is declared beside its definition.
pub open spec fn nothing_beside(l: Rc<List<Decl>>) -> bool {
    &&& forall|c: Seq<char>| !(#[trigger] declares(l, (DeclKind::FnDecl, c)) && declares(l, (DeclKind::FnDefn, c)))
    &&& forall|c: Seq<char>| !(#[trigger] declares(l, (DeclKind::StructDecl, c)) && declares(l, (DeclKind::StructDefn, c)))
}

/// Where nothing is declared beside its definition, everything stays where it is.
proof fn lemma_nothing_to_settle(env: Env, all: Rc<List<Decl>>, l: Rc<List<Decl>>)
    requires
        nothing_beside(all),
        forall|x: Rc<Decl>| #[trigger] l.items().contains(x) ==> all.items().contains(x),
    ensures
        spec_settle_decls(env, all, l) == l,
    decreases l,
{
    match *l {
        List::Nil => {},
        List::Cons(h, t) => {
            lemma_items_cons(l, h, t);
            assert(l.items().contains(h));
            lemma_unique_item(all, h, h);
            reveal(spec_decl_kind);
            reveal(spec_decl_text);
            reveal(spec_settle_decl);
            reveal(spec_settle_fn_decl);
            reveal(spec_settle_fn_defn);
            match h.val {
                DeclT::FnDecl(a) => lemma_defn_found(all, decl_name_text(a)),
                DeclT::FnDefn(f) => lemma_decl_found(all, defn_name_text(f)),
                DeclT::StructDecl(n) => lemma_struct_found(all, ident_text(n)),
                DeclT::StructDefn(s) => lemma_struct_found(all, struct_name_text(s)),
                _ => {},
            }
            assert(spec_settle_decl(env, all, h, t) == Some(h));
            assert forall|x: Rc<Decl>| #[trigger] t.items().contains(x) implies all.items().contains(x) by {
                assert(l.items().contains(x));
            }
            lemma_nothing_to_settle(env, all, t);
        },
    }
}

/// Checking what is declared again only adds messages.
proof fn lemma_redeclarations_extend(d: Rc<List<Diagnostic>>, seen: Rc<List<Decl>>, l: Rc<List<Decl>>)
    ensures
        extends(spec_check_redeclarations(d, seen, l), d),
    decreases l,
{
    match *l {
        List::Nil => {},
        List::Cons(h, t) => match spec_first_same(seen, h) {
            Some(f) => {
                reveal(spec_check_redeclared);
                reveal_with_fuel(extends, 2);
                let next = spec_check_redeclared(d, f, h);
                assert(extends(next, d));
                lemma_redeclarations_extend(next, seen, t);
                crate::diag::lemma_extends_trans(spec_check_redeclarations(next, seen, t), next, d);
            },
            None => lemma_redeclarations_extend(d, spec_list_push(seen, h), t),
        },
    }
}

/// Matching a declaration with its definition only adds messages, and none only where they agree.
proof fn lemma_match_extends(d: Rc<List<Diagnostic>>, env: Env, a: Rc<FnDecl>, b: Rc<FnDecl>)
    ensures
        extends(spec_check_match(d, env, a, b), d),
        spec_check_match(d, env, a, b) == d ==> spec_match_fn(env, a, b) == Match::Merged,
{
    reveal(spec_check_match);
    reveal_with_fuel(extends, 2);
    lemma_cons_is_new(d);
}

/// Matching declarations with their definitions only adds messages, and none only where they agree.
proof fn lemma_matches_extend(d: Rc<List<Diagnostic>>, env: Env, all: Rc<List<Decl>>, l: Rc<List<Decl>>)
    ensures
        extends(spec_check_matches(d, env, all, l), d),
        spec_check_matches(d, env, all, l) == d ==> forall|x: Rc<Decl>| #[trigger] l.items().contains(x) ==> agrees(env, all, x),
    decreases l,
{
    match *l {
        List::Nil => {},
        List::Cons(h, t) => {
            assert(l.items() == seq![h] + t.items());
            let next = after_match(d, env, all, h);
            assert(extends(next, d) && (next == d ==> agrees(env, all, h))) by {
                match h.val {
                    DeclT::FnDecl(a) => match spec_find_defn(all, decl_name_text(a)) {
                        Some(f) => lemma_match_extends(d, env, a, defn_signature(f)),
                        None => {},
                    },
                    _ => {},
                }
            }
            let end = spec_check_matches(next, env, all, t);
            assert(spec_check_matches(d, env, all, l) == end);
            lemma_matches_extend(next, env, all, t);
            crate::diag::lemma_extends_trans(end, next, d);
            if end == d {
                crate::diag::lemma_extends_antisym(end, next);
                assert forall|x: Rc<Decl>| #[trigger] l.items().contains(x) implies agrees(env, all, x) by {
                    let k = choose|k: int| 0 <= k < l.items().len() && l.items()[k] == x;
                    if k > 0 {
                        assert(t.items()[k - 1] == x);
                        assert(t.items().contains(x));
                    }
                }
            }
        },
    }
}

/// The signature of a definition.
pub open spec fn defn_signature(f: Rc<FnDefn>) -> Rc<FnDecl> {
    f.decl
}

/// The messages after one declaration was matched with its definition.
spec fn after_match(d: Rc<List<Diagnostic>>, env: Env, all: Rc<List<Decl>>, h: Rc<Decl>) -> Rc<List<Diagnostic>> {
    match h.val {
        DeclT::FnDecl(a) => match spec_find_defn(all, a.name.val) {
            Some(f) => spec_check_match(d, env, a, f.decl),
            None => d,
        },
        _ => d,
    }
}

/// Whether a declaration agrees with its definition, if it is one of a function that is defined.
pub open spec fn agrees(env: Env, all: Rc<List<Decl>>, d: Rc<Decl>) -> bool {
    d.val matches DeclT::FnDecl(a) ==> (spec_find_defn(all, a.name.val) matches Some(f) ==> spec_match_fn(env, a, f.decl) == Match::Merged)
}

/// Where merging has nothing to report, nothing is declared beside its definition afterwards.
proof fn lemma_silent_merge(d: Rc<List<Diagnostic>>, l: Rc<List<Decl>>)
    requires
        l.items().len() < u64::MAX,
        spec_merge_diags(d, l) == d,
    ensures
        nothing_beside(spec_merge_decls(l)),
{
    law_merging_declares_everything_once(l);
    let once = spec_dedup(l);
    let env = merge_env(l);
    let m = spec_merge_decls(l);
    reveal(spec_merge_diags);
    let mid = spec_check_redeclarations(d, spec_nil(), l);
    lemma_redeclarations_extend(d, spec_nil(), l);
    lemma_matches_extend(mid, env, once, once);
    crate::diag::lemma_extends_antisym(mid, d);
    assert forall|c: Seq<char>| !(#[trigger] declares(m, (DeclKind::FnDecl, c)) && declares(m, (DeclKind::FnDefn, c))) by {
        if declares(m, (DeclKind::FnDecl, c)) && declares(m, (DeclKind::FnDefn, c)) {
            assert(remains(env, once, (DeclKind::FnDecl, c)));
            assert(remains(env, once, (DeclKind::FnDefn, c)));
            lemma_keys_items(once);
            let i = choose|i: int| 0 <= i < decl_keys(once).len() && decl_keys(once)[i] == (DeclKind::FnDecl, c);
            let x = once.items()[i];
            assert(once.items().contains(x));
            assert(agrees(env, once, x));
            reveal(spec_decl_kind);
            reveal(spec_decl_text);
            match x.val {
                DeclT::FnDecl(a) => {
                    lemma_defn_found(once, decl_name_text(a));
                    let y = spec_find_defn_decl(once, decl_name_text(a))->Some_0;
                    assert(merges(env, x, y));
                    assert(merged(env, once, c));
                },
                _ => {},
            }
        }
    }
    assert forall|c: Seq<char>| !(#[trigger] declares(m, (DeclKind::StructDecl, c)) && declares(m, (DeclKind::StructDefn, c))) by {
        if declares(m, (DeclKind::StructDecl, c)) && declares(m, (DeclKind::StructDefn, c)) {
            assert(remains(env, once, (DeclKind::StructDecl, c)));
            assert(remains(env, once, (DeclKind::StructDefn, c)));
        }
    }
}

/// Nothing that is declared once is declared again.
proof fn lemma_none_declared_again(d: Rc<List<Diagnostic>>, seen: Rc<List<Decl>>, l: Rc<List<Decl>>)
    requires
        decl_keys(spec_list_append(seen, l)).no_duplicates(),
    ensures
        spec_check_redeclarations(d, seen, l) == d,
    decreases l,
{
    match *l {
        List::Nil => {},
        List::Cons(h, t) => {
            lemma_has_append(seen, l);
            lemma_has_cons(l, h, t);
            assert(declares(l, decl_key(h)));
            lemma_first_same(seen, h);
            lemma_append_assoc(seen, spec_l1(h), t);
            assert(spec_list_append(spec_l1(h), t) == l) by {
                reveal_with_fuel(spec_list_append, 3);
            }
            lemma_none_declared_again(d, spec_list_push(seen, h), t);
        },
    }
}

/// A declaration of the same thing is found only where it is declared.
proof fn lemma_first_same(l: Rc<List<Decl>>, d: Rc<Decl>)
    ensures
        spec_first_same(l, d) is Some ==> declares(l, decl_key(d)),
    decreases l,
{
    reveal(spec_same_decl_key);
    match *l {
        List::Nil => {},
        List::Cons(h, t) => {
            lemma_has_cons(l, h, t);
            lemma_first_same(t, d);
        },
    }
}

/// Where nothing is declared beside its definition, there is nothing to match.
proof fn lemma_nothing_to_match(d: Rc<List<Diagnostic>>, env: Env, all: Rc<List<Decl>>, l: Rc<List<Decl>>)
    requires
        nothing_beside(all),
        forall|x: Rc<Decl>| #[trigger] l.items().contains(x) ==> all.items().contains(x),
    ensures
        spec_check_matches(d, env, all, l) == d,
    decreases l,
{
    match *l {
        List::Nil => {},
        List::Cons(h, t) => {
            lemma_items_cons(l, h, t);
            assert(l.items().contains(h));
            lemma_unique_item(all, h, h);
            reveal(spec_decl_kind);
            reveal(spec_decl_text);
            match h.val {
                DeclT::FnDecl(a) => lemma_defn_found(all, decl_name_text(a)),
                _ => {},
            }
            assert forall|x: Rc<Decl>| #[trigger] t.items().contains(x) implies all.items().contains(x) by {
                assert(l.items().contains(x));
            }
            lemma_nothing_to_match(d, env, all, t);
        },
    }
}

/// Whether declarations have ranks in which every definition is below what refers to it.
pub open spec fn ranks(l: Rc<List<Decl>>, rank: spec_fn(Rc<Decl>) -> nat) -> bool {
    forall|d: Rc<Decl>, e: Rc<Decl>, k: Rc<TypeKey>|
        l.items().contains(d) && l.items().contains(e) && d != e && #[trigger] spec_decl_refs(d).items().contains(k) && #[trigger] spec_defines(e, k)
            ==> rank(e) < rank(d)
}

/// Whether declarations do not refer to each other in a cycle of definitions.
pub open spec fn acyclic(l: Rc<List<Decl>>) -> bool {
    exists|rank: spec_fn(Rc<Decl>) -> nat| #[trigger] ranks(l, rank)
}

/// Whether no definition comes after something that refers to it.
pub open spec fn definitions_first(l: Rc<List<Decl>>) -> bool {
    forall|i: int, j: int, k: Rc<TypeKey>|
        0 <= i < j < l.items().len() && #[trigger] spec_decl_refs(l.items()[i]).items().contains(k) ==> !#[trigger] spec_defines(l.items()[j], k)
}

/// Positions are ranked as what stands there.
proof fn lemma_positions_ranked(l: Rc<List<Decl>>, rank: spec_fn(Rc<Decl>) -> nat)
    requires
        l.items().len() < u64::MAX,
        decl_keys(l).no_duplicates(),
        ranks(l, rank),
    ensures
        ranked(spec_nodes_from(l, l, 0), position_rank(l, rank)),
{
    let nodes = spec_nodes_from(l, l, 0);
    let by_position = position_rank(l, rank);
    assert forall|n: Rc<Node>| #[trigger] is_node_of(nodes, n) implies all_below(n.prereqs, by_position, by_position(n.index)) by {
        lemma_node_at(l, l, 0, n);
        lemma_prereqs_ranked(l, rank, spec_decl_refs(node_decl(n)), n.index);
    }
}

/// The rank of a position: that of what stands there.
pub open spec fn position_rank(l: Rc<List<Decl>>, rank: spec_fn(Rc<Decl>) -> nat) -> spec_fn(u64) -> nat {
    |i: u64| rank(l.items()[i as int])
}

/// What has to precede is ranked below.
proof fn lemma_prereqs_ranked(l: Rc<List<Decl>>, rank: spec_fn(Rc<Decl>) -> nat, refs: Rc<List<TypeKey>>, i: u64)
    requires
        l.items().len() < u64::MAX,
        decl_keys(l).no_duplicates(),
        ranks(l, rank),
        i < l.items().len(),
        forall|k: Rc<TypeKey>| #[trigger] refs.items().contains(k) ==> spec_decl_refs(l.items()[i as int]).items().contains(k),
    ensures
        all_below(spec_prereq_indices(l, refs, i), position_rank(l, rank), rank(l.items()[i as int])),
    decreases refs,
{
    match *refs {
        List::Nil => {},
        List::Cons(h, t) => {
            assert(refs.items() == seq![h] + t.items());
            assert(refs.items()[0] == h);
            assert(refs.items().contains(h));
            assert forall|k: Rc<TypeKey>| #[trigger] t.items().contains(k) implies spec_decl_refs(l.items()[i as int]).items().contains(k) by {
                let j = choose|j: int| 0 <= j < t.items().len() && t.items()[j] == k;
                assert(refs.items()[j + 1] == k);
                assert(refs.items().contains(k));
            }
            lemma_prereqs_ranked(l, rank, t, i);
            lemma_definition_index(l, h, 0, None);
            match spec_definition_index(l, h, 0, None) {
                Some(j) => {
                    if j != i {
                        let d = l.items()[i as int];
                        let e = l.items()[j as int];
                        assert(l.items().contains(d));
                        assert(l.items().contains(e));
                        lemma_keys_items(l);
                        assert(decl_keys(l)[i as int] != decl_keys(l)[j as int]);
                        assert(spec_decl_refs(d).items().contains(h));
                        assert(spec_defines(e, h));
                    }
                },
                None => {},
            }
        },
    }
}

/// Ranks are for declarations in any order.
proof fn lemma_ranks_of_others(l: Rc<List<Decl>>, m: Rc<List<Decl>>, rank: spec_fn(Rc<Decl>) -> nat)
    requires
        ranks(l, rank),
        forall|d: Rc<Decl>| #[trigger] m.items().contains(d) ==> l.items().contains(d),
    ensures
        ranks(m, rank),
{
    assert forall|d: Rc<Decl>, e: Rc<Decl>, k: Rc<TypeKey>|
        m.items().contains(d) && m.items().contains(e) && d != e && #[trigger] spec_decl_refs(d).items().contains(k) && #[trigger] spec_defines(
            e,
            k,
        ) implies rank(e) < rank(d) by {
        assert(l.items().contains(d));
        assert(l.items().contains(e));
    }
}

/// Where declarations do not refer to each other in a cycle, reordering puts every definition in
/// front of all that refers to it.
pub proof fn law_definitions_precede_references(l: Rc<List<Decl>>)
    requires
        l.items().len() < u64::MAX,
        decl_keys(l).no_duplicates(),
        acyclic(l),
    ensures
        definitions_first(spec_reorder_type_deps(l)),
{
    let rank = choose|rank: spec_fn(Rc<Decl>) -> nat| #[trigger] ranks(l, rank);
    lemma_positions_ranked(l, rank);
    let m = spec_reorder_type_deps(l);
    law_reordering_is_a_permutation(l);
    lemma_same_bag(l, m);
    lemma_bag(l);
    lemma_bag(m);
    l.items().to_multiset_ensures();
    m.items().to_multiset_ensures();
    assert(m.items().len() == l.items().len());
    assert forall|i: int, j: int, k: Rc<TypeKey>|
        0 <= i < j < m.items().len() && #[trigger] spec_decl_refs(m.items()[i]).items().contains(k) implies !#[trigger] spec_defines(m.items()[j], k) by {
        lemma_no_later_definition(l, position_rank(l, rank), i, k);
        lemma_definition_index(m, k, 0, None);
        if spec_defines(m.items()[j], k) {
            let q = spec_definition_index(m, k, 0, None)->Some_0;
            lemma_definers(m.items()[q as int], m.items()[j], k);
            lemma_keys_items(m);
            assert(decl_keys(m)[q as int] == decl_keys(m)[j]);
        }
    }
}

/// After merging every definition comes before all that refers to it, unless declarations refer to
/// each other in a cycle.
pub proof fn law_merged_definitions_come_first(l: Rc<List<Decl>>)
    requires
        l.items().len() < u64::MAX,
        acyclic(spec_merge_decls(l)),
    ensures
        definitions_first(spec_merge_decls(l)),
{
    let m = spec_merge_decls(l);
    let kept = settled_decls(l);
    lemma_settled_keys(l);
    assert(m == spec_reorder_type_deps(kept)) by {
        reveal(spec_merge_decls);
    }
    law_reordering_is_a_permutation(kept);
    lemma_same_bag(kept, m);
    let rank = choose|rank: spec_fn(Rc<Decl>) -> nat| #[trigger] ranks(m, rank);
    lemma_ranks_of_others(m, kept, rank);
    law_definitions_precede_references(kept);
}

/// The declarations that merging puts in order.
pub open spec fn settled_decls(l: Rc<List<Decl>>) -> Rc<List<Decl>> {
    spec_settle_decls(merge_env(l), spec_dedup(l), spec_dedup(l))
}

/// Merging what was merged without a message changes nothing and reports nothing, where the result
/// does not refer to itself in a cycle.
pub proof fn law_merging_twice_is_merging_once(d: Rc<List<Diagnostic>>, l: Rc<List<Decl>>, again: Rc<List<Diagnostic>>)
    requires
        l.items().len() < u64::MAX,
        spec_merge_diags(d, l) == d,
        acyclic(spec_merge_decls(l)),
    ensures
        spec_merge_decls(spec_merge_decls(l)) == spec_merge_decls(l),
        spec_merge_diags(again, spec_merge_decls(l)) == again,
{
    let m = spec_merge_decls(l);
    let kept = settled_decls(l);
    let none: Rc<List<Decl>> = spec_nil();
    law_merging_declares_everything_once(l);
    lemma_silent_merge(d, l);
    lemma_settled_keys(l);
    assert(m == spec_reorder_type_deps(kept)) by {
        reveal(spec_merge_decls);
    }
    law_reordering_is_a_permutation(kept);
    lemma_same_bag(kept, m);
    let rank = choose|rank: spec_fn(Rc<Decl>) -> nat| #[trigger] ranks(m, rank);
    lemma_ranks_of_others(m, kept, rank);
    lemma_positions_ranked(kept, rank);
    law_reordering_twice_is_reordering_once(kept, position_rank(kept, rank));
    assert(spec_list_append(none, m) == m);
    lemma_nothing_to_join(none, m);
    assert(spec_dedup(m) == m) by {
        reveal(spec_dedup);
    }
    lemma_nothing_to_settle(merge_env(m), m, m);
    assert(spec_merge_decls(m) == m) by {
        reveal(spec_merge_decls);
    }
    lemma_none_declared_again(again, none, m);
    lemma_nothing_to_match(again, merge_env(m), m, m);
    assert(spec_merge_diags(again, m) == again) by {
        reveal(spec_merge_diags);
    }
}

/// What merging puts in order is declared once, and is no more than there was.
proof fn lemma_settled_keys(l: Rc<List<Decl>>)
    requires
        l.items().len() < u64::MAX,
    ensures
        decl_keys(settled_decls(l)).no_duplicates(),
        settled_decls(l).items().len() < u64::MAX,
{
    let once = spec_dedup(l);
    law_duplicates_are_joined(l);
    assert(once.items().len() <= l.items().len()) by {
        reveal(spec_dedup);
        lemma_dedup_len(spec_nil(), l);
    }
    lemma_settle_len(merge_env(l), once, once);
    let none: Rc<List<Decl>> = spec_nil();
    assert(spec_list_append(none, once) == once);
    lemma_settle_behind(merge_env(l), once, none, once);
}

} // verus!
