//! What is proved of passes over a whole translation unit.

use crate::list::{List, spec_l1, spec_l2, spec_list_append, spec_nil};
use crate::text::{Text, spec_same_text};
use crate::ir::{Decl, DeclT, FnDecl, FnDefn, GlobalVar, Loc, Stmt, StructDefn};
use crate::diag::Diagnostic;
use crate::env::{Env, spec_empty_env, spec_push_decls};
use crate::emit_base::spec_decl_text;
use crate::restructure_goto::{
    spec_check_gotos_decl, spec_check_gotos_decls, spec_nested_size, spec_restructure_decl,
    spec_restructure_decls, spec_restructure_stmts,
};
use crate::merge::{
    DeclKind, Match, spec_add_decl, spec_combine, spec_decl_kind, spec_dedup, spec_dedup_onto,
    spec_find_defn, spec_find_defn_decl, spec_find_fn_decl, spec_find_struct_defn,
    spec_has_struct_decl, spec_match_fn, spec_matched_defn, spec_matched_signature,
    spec_merge_decls, spec_merge_globals, spec_same_decl_key, spec_settle_decl, spec_settle_decls,
    spec_settle_fn_decl, spec_settle_fn_defn, spec_with_own_names, spec_with_specs,
};
use crate::laws_goto::{
    bad_jumps, ident_text, law_bad_jumps_are_reported, law_no_jump_is_missed,
    law_restructuring_keeps_statements, law_settled_statements_stay, lemma_append_assoc, settled,
    stmt_count, unblock,
};
use crate::laws_merge::{
    bag, decl_key, decl_keys, law_duplicates_are_joined, law_reordering_is_a_permutation,
};
use crate::laws_syntax::{
    decl_name_text, law_nothing_is_declared_beside_its_definition, stands_alone,
};
use std::rc::Rc;
use vstd::prelude::*;

verus! {

/// Whether a declaration is what restructuring makes of another: the statements of a function are
/// grouped into blocks, with no jump missed, and all else stays.
pub open spec fn is_restructured(after: Rc<Decl>, before: Rc<Decl>) -> bool {
    match before.val {
        DeclT::FnDefn(f) => {
            &&& after.loc == before.loc
            &&& after.val matches DeclT::FnDefn(g) && {
                &&& g.decl == f.decl
                &&& unblock(g.body) == unblock(f.body)
                &&& stmt_count(f.body) <= u64::MAX ==> settled(g.body)
            }
        },
        _ => after == before,
    }
}

/// The statements of a function.
pub open spec fn fn_body(f: Rc<FnDefn>) -> Rc<List<Stmt>> {
    f.body
}

/// Restructuring a unit restructures each declaration, and keeps their order.
pub proof fn law_every_declaration_is_restructured(l: Rc<List<Decl>>)
    ensures
        spec_restructure_decls(l).items().len() == l.items().len(),
        forall|i: int| 0 <= i < l.items().len() ==> is_restructured(#[trigger] spec_restructure_decls(l).items()[i], l.items()[i]),
    decreases l,
{
    match *l {
        List::Nil => {},
        List::Cons(h, t) => {
            law_every_declaration_is_restructured(t);
            reveal(spec_restructure_decl);
            match h.val {
                DeclT::FnDefn(f) => {
                    law_restructuring_keeps_statements(fn_body(f), spec_nested_size(fn_body(f)));
                    if stmt_count(fn_body(f)) <= u64::MAX {
                        law_no_jump_is_missed(fn_body(f));
                    }
                },
                _ => {},
            }
            let r = spec_restructure_decls(l);
            assert(r.items() == seq![spec_restructure_decl(h)] + spec_restructure_decls(t).items());
            assert(l.items() == seq![h] + t.items());
            assert forall|i: int| 0 <= i < l.items().len() implies is_restructured(#[trigger] r.items()[i], l.items()[i]) by {
                if i > 0 {
                    assert(r.items()[i] == spec_restructure_decls(t).items()[i - 1]);
                }
            }
        },
    }
}

/// Whether the statements of every function can be counted.
pub open spec fn countable(l: Rc<List<Decl>>) -> bool
    decreases l,
{
    match *l {
        List::Nil => true,
        List::Cons(h, t) => (h.val matches DeclT::FnDefn(f) ==> stmt_count(f.body) <= u64::MAX) && countable(t),
    }
}

/// Restructuring once is enough: a second time it changes nothing.
pub proof fn law_restructuring_twice_is_restructuring_once(l: Rc<List<Decl>>)
    requires
        countable(l),
    ensures
        spec_restructure_decls(spec_restructure_decls(l)) == spec_restructure_decls(l),
    decreases l,
{
    match *l {
        List::Nil => {},
        List::Cons(h, t) => {
            law_restructuring_twice_is_restructuring_once(t);
            reveal(spec_restructure_decl);
            match h.val {
                DeclT::FnDefn(f) => {
                    law_no_jump_is_missed(fn_body(f));
                    let once = spec_restructure_stmts(fn_body(f), spec_nested_size(fn_body(f)));
                    law_settled_statements_stay(once, spec_nested_size(once));
                },
                _ => {},
            }
        },
    }
}

/// How many jumps of the functions do not leave their innermost block.
pub open spec fn unit_bad_jumps(l: Rc<List<Decl>>) -> nat
    decreases l,
{
    match *l {
        List::Nil => 0,
        List::Cons(h, t) => (match h.val {
            DeclT::FnDefn(f) => bad_jumps(f.body, None),
            _ => 0,
        }) + unit_bad_jumps(t),
    }
}

/// Each jump of a unit that does not leave its innermost block is reported once, and nothing else
/// is.
pub proof fn law_bad_jumps_of_a_unit_are_reported(d: Rc<List<Diagnostic>>, l: Rc<List<Decl>>)
    ensures
        spec_check_gotos_decls(d, l).items().len() == d.items().len() + unit_bad_jumps(l),
        unit_bad_jumps(l) == 0 ==> spec_check_gotos_decls(d, l) == d,
    decreases l,
{
    match *l {
        List::Nil => {},
        List::Cons(h, t) => {
            reveal(spec_check_gotos_decl);
            match h.val {
                DeclT::FnDefn(f) => law_bad_jumps_are_reported(d, fn_body(f), None),
                _ => {},
            }
            law_bad_jumps_of_a_unit_are_reported(spec_check_gotos_decl(d, h), t);
        },
    }
}

/// Whether something is declared in a way.
pub open spec fn declares(l: Rc<List<Decl>>, k: (DeclKind, Seq<char>)) -> bool {
    decl_keys(l).contains(k)
}

/// Whether `x` declares the function that `y` defines, and the two agree.
pub open spec fn merges(env: Env, x: Rc<Decl>, y: Rc<Decl>) -> bool {
    match (x.val, y.val) {
        (DeclT::FnDecl(a), DeclT::FnDefn(f)) => a.name.val.chars() == f.decl.name.val.chars() && spec_match_fn(env, a, f.decl) == Match::Merged,
        _ => false,
    }
}

/// Whether a function is both declared and defined, and the two agree.
pub open spec fn merged(env: Env, all: Rc<List<Decl>>, c: Seq<char>) -> bool {
    exists|x: Rc<Decl>, y: Rc<Decl>| #[trigger] merges(env, x, y) && all.items().contains(x) && all.items().contains(y) && decl_key(x).1 == c
}

/// What is still declared after merging: all that was, but for the functions that became part of
/// their definitions, and the structs that are defined.
pub open spec fn remains(env: Env, all: Rc<List<Decl>>, k: (DeclKind, Seq<char>)) -> bool {
    match k.0 {
        DeclKind::FnDecl => declares(all, k) && !merged(env, all, k.1),
        DeclKind::StructDecl => declares(all, k) && !declares(all, (DeclKind::StructDefn, k.1)),
        _ => declares(all, k),
    }
}

/// The same, for the declarations `l` behind the declarations `pre`. A definition has moved to a
/// declaration in `pre`.
pub open spec fn remains_behind(env: Env, all: Rc<List<Decl>>, pre: Rc<List<Decl>>, l: Rc<List<Decl>>, k: (DeclKind, Seq<char>)) -> bool {
    match k.0 {
        DeclKind::FnDecl => declares(l, k) && !merged(env, all, k.1),
        DeclKind::FnDefn => declares(l, k) && !(merged(env, all, k.1) && declares(pre, (DeclKind::FnDecl, k.1))),
        DeclKind::StructDecl => declares(l, k) && !declares(all, (DeclKind::StructDefn, k.1)),
        DeclKind::StructDefn => declares(l, k) && !declares(pre, (DeclKind::StructDecl, k.1)),
        _ => declares(l, k),
    }
}

/// The keys of a list are those of its items.
pub proof fn lemma_keys_items(l: Rc<List<Decl>>)
    ensures
        decl_keys(l).len() == l.items().len(),
        forall|i: int| 0 <= i < l.items().len() ==> #[trigger] decl_keys(l)[i] == decl_key(l.items()[i]),
    decreases l,
{
    match *l {
        List::Nil => {},
        List::Cons(h, t) => {
            lemma_keys_items(t);
            assert(l.items() == seq![h] + t.items());
            assert forall|i: int| 0 <= i < l.items().len() implies #[trigger] decl_keys(l)[i] == decl_key(l.items()[i]) by {
                if i > 0 {
                    assert(decl_keys(l)[i] == decl_keys(t)[i - 1]);
                }
            }
        },
    }
}

/// The keys of a list with a head.
pub proof fn lemma_has_cons(l: Rc<List<Decl>>, h: Rc<Decl>, t: Rc<List<Decl>>)
    requires
        *l == List::Cons(h, t),
    ensures
        forall|k: (DeclKind, Seq<char>)| #[trigger] declares(l, k) <==> k == decl_key(h) || declares(t, k),
        decl_keys(l).no_duplicates() <==> !declares(t, decl_key(h)) && decl_keys(t).no_duplicates(),
{
    let s = decl_keys(l);
    let r = decl_keys(t);
    assert(s == seq![decl_key(h)] + r);
    assert(s[0] == decl_key(h));
    assert forall|i: int| 0 <= i < r.len() implies #[trigger] r[i] == s[i + 1] by {}
    assert forall|k: (DeclKind, Seq<char>)| #[trigger] declares(l, k) <==> k == decl_key(h) || declares(t, k) by {
        if declares(l, k) && k != decl_key(h) {
            let i = choose|i: int| 0 <= i < s.len() && s[i] == k;
            assert(r[i - 1] == k);
        }
        if declares(t, k) {
            let i = choose|i: int| 0 <= i < r.len() && r[i] == k;
            assert(s[i + 1] == k);
        }
    }
    if s.no_duplicates() {
        assert forall|i: int, j: int| 0 <= i < r.len() && 0 <= j < r.len() && i != j implies r[i] != r[j] by {
            assert(s[i + 1] != s[j + 1]);
        }
        if declares(t, decl_key(h)) {
            let i = choose|i: int| 0 <= i < r.len() && r[i] == decl_key(h);
            assert(s[i + 1] == s[0]);
        }
    }
    if !declares(t, decl_key(h)) && r.no_duplicates() {
        assert forall|i: int, j: int| 0 <= i < s.len() && 0 <= j < s.len() && i != j implies s[i] != s[j] by {
            if i > 0 && j > 0 {
                assert(r[i - 1] != r[j - 1]);
            } else if i > 0 {
                assert(r[i - 1] == s[i]);
                assert(r.contains(r[i - 1]));
            } else {
                assert(r[j - 1] == s[j]);
                assert(r.contains(r[j - 1]));
            }
        }
    }
}

/// The keys of two lists are those of both, and no key is in both where none occurs twice.
pub proof fn lemma_has_append(a: Rc<List<Decl>>, b: Rc<List<Decl>>)
    ensures
        forall|k: (DeclKind, Seq<char>)| #[trigger] declares(spec_list_append(a, b), k) <==> declares(a, k) || declares(b, k),
        decl_keys(spec_list_append(a, b)).no_duplicates() ==> decl_keys(b).no_duplicates()
            && forall|k: (DeclKind, Seq<char>)| !(#[trigger] declares(a, k) && declares(b, k)),
    decreases a,
{
    match *a {
        List::Nil => {
            assert(decl_keys(a).len() == 0);
        },
        List::Cons(h, t) => {
            lemma_has_append(t, b);
            lemma_has_cons(a, h, t);
            let whole = spec_list_append(a, b);
            lemma_has_cons(whole, h, spec_list_append(t, b));
        },
    }
}

/// An item's key is one of the keys, and no other item has it where none occurs twice.
pub proof fn lemma_unique_item(all: Rc<List<Decl>>, x: Rc<Decl>, y: Rc<Decl>)
    requires
        all.items().contains(x),
        all.items().contains(y),
    ensures
        declares(all, decl_key(x)),
        decl_keys(all).no_duplicates() && decl_key(x) == decl_key(y) ==> x == y,
{
    lemma_keys_items(all);
    let i = choose|i: int| 0 <= i < all.items().len() && all.items()[i] == x;
    let j = choose|j: int| 0 <= j < all.items().len() && all.items()[j] == y;
    assert(decl_keys(all)[i] == decl_key(x));
    assert(decl_keys(all)[j] == decl_key(y));
}

/// The head is an item, and so are the items of the tail.
pub proof fn lemma_items_cons(l: Rc<List<Decl>>, h: Rc<Decl>, t: Rc<List<Decl>>)
    requires
        *l == List::Cons(h, t),
    ensures
        l.items().contains(h),
        forall|x: Rc<Decl>| #[trigger] t.items().contains(x) ==> l.items().contains(x),
{
    assert(l.items() == seq![h] + t.items());
    assert(l.items()[0] == h);
    assert forall|x: Rc<Decl>| #[trigger] t.items().contains(x) implies l.items().contains(x) by {
        let i = choose|i: int| 0 <= i < t.items().len() && t.items()[i] == x;
        assert(l.items()[i + 1] == x);
    }
}

/// The items of two lists are items of both together.
pub proof fn lemma_items_append(a: Rc<List<Decl>>, b: Rc<List<Decl>>)
    ensures
        forall|x: Rc<Decl>| #[trigger] b.items().contains(x) ==> spec_list_append(a, b).items().contains(x),
    decreases a,
{
    match *a {
        List::Nil => {},
        List::Cons(h, t) => {
            lemma_items_append(t, b);
            lemma_items_cons(spec_list_append(a, b), h, spec_list_append(t, b));
        },
    }
}

/// A function's definition is found where there is one.
pub proof fn lemma_defn_found(l: Rc<List<Decl>>, n: Text)
    ensures
        match spec_find_defn_decl(l, n) {
            Some(d) => {
                &&& declares(l, (DeclKind::FnDefn, n.chars()))
                &&& l.items().contains(d)
                &&& decl_key(d) == (DeclKind::FnDefn, n.chars())
                &&& d.val matches DeclT::FnDefn(f) && spec_find_defn(l, n) == Some(f)
            },
            None => !declares(l, (DeclKind::FnDefn, n.chars())) && spec_find_defn(l, n) is None,
        },
    decreases l,
{
    reveal(spec_decl_kind);
    reveal(spec_decl_text);
    match *l {
        List::Nil => {
            assert(decl_keys(l).len() == 0);
        },
        List::Cons(h, t) => {
            lemma_defn_found(t, n);
            lemma_has_cons(l, h, t);
            lemma_items_cons(l, h, t);
        },
    }
}

/// The declaration that declares a function.
pub open spec fn fn_decl_item(l: Rc<List<Decl>>, n: Text) -> Option<Rc<Decl>>
    decreases l,
{
    match *l {
        List::Nil => None,
        List::Cons(h, t) => match h.val {
            DeclT::FnDecl(f) => if spec_same_text(f.name.val, n) { Some(h) } else { fn_decl_item(t, n) },
            _ => fn_decl_item(t, n),
        },
    }
}

/// A function's declaration is found where there is one.
pub proof fn lemma_decl_found(l: Rc<List<Decl>>, n: Text)
    ensures
        match fn_decl_item(l, n) {
            Some(d) => {
                &&& declares(l, (DeclKind::FnDecl, n.chars()))
                &&& l.items().contains(d)
                &&& decl_key(d) == (DeclKind::FnDecl, n.chars())
                &&& d.val matches DeclT::FnDecl(f) && spec_find_fn_decl(l, n) == Some(f)
            },
            None => !declares(l, (DeclKind::FnDecl, n.chars())) && spec_find_fn_decl(l, n) is None,
        },
    decreases l,
{
    reveal(spec_decl_kind);
    reveal(spec_decl_text);
    match *l {
        List::Nil => {
            assert(decl_keys(l).len() == 0);
        },
        List::Cons(h, t) => {
            lemma_decl_found(t, n);
            lemma_has_cons(l, h, t);
            lemma_items_cons(l, h, t);
        },
    }
}

/// A struct's definition and declaration are found where there are such.
pub proof fn lemma_struct_found(l: Rc<List<Decl>>, n: Text)
    ensures
        match spec_find_struct_defn(l, n) {
            Some(d) => declares(l, (DeclKind::StructDefn, n.chars())) && decl_key(d) == (DeclKind::StructDefn, n.chars()),
            None => !declares(l, (DeclKind::StructDefn, n.chars())),
        },
        spec_has_struct_decl(l, n) == declares(l, (DeclKind::StructDecl, n.chars())),
    decreases l,
{
    reveal(spec_decl_kind);
    reveal(spec_decl_text);
    match *l {
        List::Nil => {
            assert(decl_keys(l).len() == 0);
        },
        List::Cons(h, t) => {
            lemma_struct_found(t, n);
            lemma_has_cons(l, h, t);
        },
    }
}

/// The key of what stands where something was declared.
spec fn settled_key(env: Env, all: Rc<List<Decl>>, h: Rc<Decl>, t: Rc<List<Decl>>) -> Option<(DeclKind, Seq<char>)> {
    let k = decl_key(h);
    let defn = (DeclKind::FnDefn, k.1);
    let struct_defn = (DeclKind::StructDefn, k.1);
    match k.0 {
        DeclKind::FnDecl => if !merged(env, all, k.1) {
            Some(k)
        } else if declares(t, defn) {
            Some(defn)
        } else {
            None
        },
        DeclKind::FnDefn => if merged(env, all, k.1) && !declares(t, (DeclKind::FnDecl, k.1)) { None } else { Some(k) },
        DeclKind::StructDecl => if !declares(all, struct_defn) {
            Some(k)
        } else if declares(t, struct_defn) {
            Some(struct_defn)
        } else {
            None
        },
        DeclKind::StructDefn => if declares(all, (DeclKind::StructDecl, k.1)) && !declares(t, (DeclKind::StructDecl, k.1)) { None } else { Some(k) },
        _ => Some(k),
    }
}

/// Matching a definition with its declaration keeps what it defines.
proof fn lemma_matched_key(env: Env, a: Rc<FnDecl>, d: Rc<Decl>)
    ensures
        decl_key(spec_matched_defn(env, a, d)) == decl_key(d),
{
    reveal(spec_decl_kind);
    reveal(spec_decl_text);
    reveal(spec_matched_defn);
    reveal(spec_matched_signature);
    reveal(spec_with_own_names);
    reveal(spec_with_specs);
}

/// What stands where a function was declared.
proof fn lemma_settled_fn_decl(env: Env, all: Rc<List<Decl>>, d: Rc<Decl>, a: Rc<FnDecl>, t: Rc<List<Decl>>)
    requires
        d.val == DeclT::FnDecl(a),
        all.items().contains(d),
        decl_keys(all).no_duplicates(),
    ensures
        match spec_settle_decl(env, all, d, t) {
            Some(x) => settled_key(env, all, d, t) == Some(decl_key(x)),
            None => settled_key(env, all, d, t) is None,
        },
{
    reveal(spec_decl_kind);
    reveal(spec_decl_text);
    reveal(spec_settle_decl);
    reveal(spec_settle_fn_decl);
    let n = decl_name_text(a);
    lemma_defn_found(all, n);
    lemma_defn_found(t, n);
    assert(decl_key(d) == (DeclKind::FnDecl, n.chars()));
    match spec_find_defn_decl(all, n) {
        Some(defn) => {
            lemma_matched_key(env, a, defn);
            if merges(env, d, defn) {
                assert(merged(env, all, n.chars()));
            }
            if merged(env, all, n.chars()) {
                let (x, y) = choose|x: Rc<Decl>, y: Rc<Decl>| #[trigger]
                    merges(env, x, y) && all.items().contains(x) && all.items().contains(y) && decl_key(x).1 == n.chars();
                lemma_unique_item(all, x, d);
                lemma_unique_item(all, y, defn);
                assert(merges(env, d, defn));
            }
        },
        None => {
            if merged(env, all, n.chars()) {
                let (x, y) = choose|x: Rc<Decl>, y: Rc<Decl>| #[trigger]
                    merges(env, x, y) && all.items().contains(x) && all.items().contains(y) && decl_key(x).1 == n.chars();
                lemma_unique_item(all, y, y);
            }
        },
    }
}

/// What stands where a function was defined.
proof fn lemma_settled_fn_defn(env: Env, all: Rc<List<Decl>>, d: Rc<Decl>, f: Rc<FnDefn>, t: Rc<List<Decl>>)
    requires
        d.val == DeclT::FnDefn(f),
        all.items().contains(d),
        decl_keys(all).no_duplicates(),
    ensures
        match spec_settle_decl(env, all, d, t) {
            Some(x) => settled_key(env, all, d, t) == Some(decl_key(x)),
            None => settled_key(env, all, d, t) is None,
        },
{
    reveal(spec_decl_kind);
    reveal(spec_decl_text);
    reveal(spec_settle_decl);
    reveal(spec_settle_fn_defn);
    let n = defn_name_text(f);
    lemma_decl_found(all, n);
    lemma_decl_found(t, n);
    assert(decl_key(d) == (DeclKind::FnDefn, n.chars()));
    match fn_decl_item(all, n) {
        Some(decl) => {
            lemma_matched_key(env, declared_fn(decl), d);
            if merges(env, decl, d) {
                assert(merged(env, all, n.chars()));
            }
            if merged(env, all, n.chars()) {
                let (x, y) = choose|x: Rc<Decl>, y: Rc<Decl>| #[trigger]
                    merges(env, x, y) && all.items().contains(x) && all.items().contains(y) && decl_key(x).1 == n.chars();
                lemma_unique_item(all, x, decl);
                lemma_unique_item(all, y, d);
                assert(merges(env, decl, d));
            }
        },
        None => {
            if merged(env, all, n.chars()) {
                let (x, y) = choose|x: Rc<Decl>, y: Rc<Decl>| #[trigger]
                    merges(env, x, y) && all.items().contains(x) && all.items().contains(y) && decl_key(x).1 == n.chars();
                lemma_unique_item(all, x, x);
            }
        },
    }
}

/// The name of a defined function.
pub open spec fn defn_name_text(f: Rc<FnDefn>) -> Text {
    f.decl.name.val
}

/// The function that a declaration declares.
pub open spec fn declared_fn(d: Rc<Decl>) -> Rc<FnDecl> {
    match d.val {
        DeclT::FnDecl(a) => a,
        _ => arbitrary(),
    }
}

/// What stands where something was declared.
proof fn lemma_settled_key(env: Env, all: Rc<List<Decl>>, d: Rc<Decl>, t: Rc<List<Decl>>)
    requires
        all.items().contains(d),
        decl_keys(all).no_duplicates(),
    ensures
        match spec_settle_decl(env, all, d, t) {
            Some(x) => settled_key(env, all, d, t) == Some(decl_key(x)),
            None => settled_key(env, all, d, t) is None,
        },
{
    match d.val {
        DeclT::FnDecl(a) => lemma_settled_fn_decl(env, all, d, a, t),
        DeclT::FnDefn(f) => lemma_settled_fn_defn(env, all, d, f, t),
        DeclT::StructDecl(n) => {
            reveal(spec_decl_kind);
            reveal(spec_decl_text);
            reveal(spec_settle_decl);
            lemma_struct_found(all, ident_text(n));
            lemma_struct_found(t, ident_text(n));
        },
        DeclT::StructDefn(s) => {
            reveal(spec_decl_kind);
            reveal(spec_decl_text);
            reveal(spec_settle_decl);
            lemma_struct_found(all, struct_name_text(s));
            lemma_struct_found(t, struct_name_text(s));
        },
        _ => {
            reveal(spec_decl_kind);
            reveal(spec_settle_decl);
        },
    }
}

/// The name of a struct.
pub open spec fn struct_name_text(s: Rc<StructDefn>) -> Text {
    s.name.val
}

/// A function that merges is declared and defined.
proof fn lemma_merged_has(env: Env, all: Rc<List<Decl>>, c: Seq<char>)
    ensures
        merged(env, all, c) ==> declares(all, (DeclKind::FnDecl, c)) && declares(all, (DeclKind::FnDefn, c)),
{
    if merged(env, all, c) {
        reveal(spec_decl_kind);
        reveal(spec_decl_text);
        let (x, y) = choose|x: Rc<Decl>, y: Rc<Decl>| #[trigger]
            merges(env, x, y) && all.items().contains(x) && all.items().contains(y) && decl_key(x).1 == c;
        lemma_unique_item(all, x, x);
        lemma_unique_item(all, y, y);
    }
}

/// The step from a tail to a list: what remains of it.
proof fn lemma_remains_step(env: Env, all: Rc<List<Decl>>, pre: Rc<List<Decl>>, l: Rc<List<Decl>>, h: Rc<Decl>, t: Rc<List<Decl>>, k: (DeclKind, Seq<char>))
    requires
        *l == List::Cons(h, t),
        spec_list_append(pre, l) == all,
        decl_keys(all).no_duplicates(),
    ensures
        ({
            let before = spec_list_append(pre, spec_l1(h));
            &&& remains_behind(env, all, pre, l, k) <==> settled_key(env, all, h, t) == Some(k) || remains_behind(env, all, before, t, k)
            &&& settled_key(env, all, h, t) == Some(k) ==> !remains_behind(env, all, before, t, k)
        }),
{
    let one = spec_l1(h);
    let none: Rc<List<Decl>> = spec_nil();
    assert(decl_keys(none).len() == 0);
    lemma_has_append(pre, l);
    lemma_has_append(pre, one);
    lemma_has_cons(one, h, none);
    lemma_has_cons(l, h, t);
    let c = k.1;
    lemma_merged_has(env, all, c);
    lemma_merged_has(env, all, decl_key(h).1);
    assert(declares(all, (DeclKind::FnDecl, c)) <==> declares(pre, (DeclKind::FnDecl, c)) || declares(l, (DeclKind::FnDecl, c)));
    assert(declares(all, (DeclKind::FnDefn, c)) <==> declares(pre, (DeclKind::FnDefn, c)) || declares(l, (DeclKind::FnDefn, c)));
    assert(declares(all, (DeclKind::StructDecl, c)) <==> declares(pre, (DeclKind::StructDecl, c)) || declares(l, (DeclKind::StructDecl, c)));
    assert(declares(all, (DeclKind::StructDefn, c)) <==> declares(pre, (DeclKind::StructDefn, c)) || declares(l, (DeclKind::StructDefn, c)));
    assert(!(declares(pre, (DeclKind::FnDecl, c)) && declares(l, (DeclKind::FnDecl, c))));
    assert(!(declares(pre, (DeclKind::FnDefn, c)) && declares(l, (DeclKind::FnDefn, c))));
    assert(!(declares(pre, (DeclKind::StructDecl, c)) && declares(l, (DeclKind::StructDecl, c))));
    assert(!(declares(pre, (DeclKind::StructDefn, c)) && declares(l, (DeclKind::StructDefn, c))));
    let before = spec_list_append(pre, one);
    assert(declares(before, (DeclKind::FnDecl, c)) <==> declares(pre, (DeclKind::FnDecl, c)) || decl_key(h) == (DeclKind::FnDecl, c));
    assert(declares(before, (DeclKind::StructDecl, c)) <==> declares(pre, (DeclKind::StructDecl, c)) || decl_key(h) == (DeclKind::StructDecl, c));
    assert(decl_key(h) == (decl_key(h).0, decl_key(h).1));
    assert(k == (k.0, c));
}

/// What remains of the declarations behind others, each once.
pub proof fn lemma_settle_behind(env: Env, all: Rc<List<Decl>>, pre: Rc<List<Decl>>, l: Rc<List<Decl>>)
    requires
        spec_list_append(pre, l) == all,
        decl_keys(all).no_duplicates(),
    ensures
        decl_keys(spec_settle_decls(env, all, l)).no_duplicates(),
        forall|k: (DeclKind, Seq<char>)| #[trigger] declares(spec_settle_decls(env, all, l), k) <==> remains_behind(env, all, pre, l, k),
    decreases l,
{
    match *l {
        List::Nil => {
            assert(decl_keys(l).len() == 0);
            assert(decl_keys(spec_settle_decls(env, all, l)).len() == 0);
        },
        List::Cons(h, t) => {
            let before = spec_list_append(pre, spec_l1(h));
            lemma_append_assoc(pre, spec_l1(h), t);
            assert(spec_list_append(spec_l1(h), t) == l) by {
                reveal_with_fuel(spec_list_append, 3);
            }
            lemma_settle_behind(env, all, before, t);
            lemma_items_append(pre, l);
            lemma_items_cons(l, h, t);
            lemma_settled_key(env, all, h, t);
            let rest = spec_settle_decls(env, all, t);
            let whole = spec_settle_decls(env, all, l);
            match spec_settle_decl(env, all, h, t) {
                Some(x) => {
                    lemma_has_cons(whole, x, rest);
                    lemma_remains_step(env, all, pre, l, h, t, decl_key(x));
                },
                None => {},
            }
            assert forall|k: (DeclKind, Seq<char>)| #[trigger] declares(whole, k) <==> remains_behind(env, all, pre, l, k) by {
                lemma_remains_step(env, all, pre, l, h, t, k);
            }
        },
    }
}

/// Settling makes no list longer.
pub proof fn lemma_settle_len(env: Env, all: Rc<List<Decl>>, l: Rc<List<Decl>>)
    ensures
        spec_settle_decls(env, all, l).items().len() <= l.items().len(),
    decreases l,
{
    match *l {
        List::Nil => {},
        List::Cons(_, t) => lemma_settle_len(env, all, t),
    }
}

/// Adding a declaration makes a list longer by one at most.
proof fn lemma_add_decl_len(l: Rc<List<Decl>>, d: Rc<Decl>)
    ensures
        spec_add_decl(l, d).items().len() <= l.items().len() + 1,
    decreases l,
{
    match *l {
        List::Nil => {
            reveal_with_fuel(List::items, 3);
        },
        List::Cons(_, t) => lemma_add_decl_len(t, d),
    }
}

/// Joining duplicates makes no list longer.
pub proof fn lemma_dedup_len(done: Rc<List<Decl>>, l: Rc<List<Decl>>)
    ensures
        spec_dedup_onto(done, l).items().len() <= done.items().len() + l.items().len(),
    decreases l,
{
    match *l {
        List::Nil => {},
        List::Cons(h, t) => {
            lemma_add_decl_len(done, h);
            lemma_dedup_len(spec_add_decl(done, h), t);
        },
    }
}

/// The bag of a list is the multiset of its items.
pub proof fn lemma_bag(l: Rc<List<Decl>>)
    ensures
        bag(l) =~= l.items().to_multiset(),
    decreases l,
{
    match *l {
        List::Nil => {
            l.items().to_multiset_ensures();
        },
        List::Cons(h, t) => {
            lemma_bag(t);
            let one: Seq<Rc<Decl>> = seq![h];
            vstd::seq_lib::lemma_multiset_commutative(one, t.items());
            assert(l.items() == one + t.items());
            let none: Seq<Rc<Decl>> = Seq::empty();
            none.to_multiset_ensures();
            assert(one =~= none.push(h));
            assert(one.to_multiset() =~= none.to_multiset().insert(h));
        },
    }
}

/// Another order of declarations declares the same things, each once where it was once.
pub proof fn lemma_same_bag(a: Rc<List<Decl>>, b: Rc<List<Decl>>)
    requires
        bag(a) == bag(b),
        decl_keys(a).no_duplicates(),
    ensures
        decl_keys(b).no_duplicates(),
        forall|k: (DeclKind, Seq<char>)| #[trigger] declares(b, k) <==> declares(a, k),
        forall|x: Rc<Decl>| #[trigger] b.items().contains(x) <==> a.items().contains(x),
{
    lemma_bag(a);
    lemma_bag(b);
    lemma_keys_items(a);
    lemma_keys_items(b);
    a.items().to_multiset_ensures();
    b.items().to_multiset_ensures();
    assert forall|x: Rc<Decl>| #[trigger] b.items().contains(x) <==> a.items().contains(x) by {
        assert(a.items().contains(x) <==> a.items().to_multiset().count(x) > 0);
        assert(b.items().contains(x) <==> b.items().to_multiset().count(x) > 0);
    }
    assert(a.items().no_duplicates()) by {
        assert forall|i: int, j: int| 0 <= i < a.items().len() && 0 <= j < a.items().len() && i != j implies a.items()[i] != a.items()[j] by {
            assert(decl_keys(a)[i] != decl_keys(a)[j]);
        }
    }
    a.items().lemma_multiset_has_no_duplicates();
    b.items().lemma_multiset_has_no_duplicates_conv();
    assert forall|i: int, j: int| 0 <= i < decl_keys(b).len() && 0 <= j < decl_keys(b).len() && i != j implies decl_keys(b)[i] != decl_keys(b)[j] by {
        let x = b.items()[i];
        let y = b.items()[j];
        assert(b.items().contains(x));
        assert(b.items().contains(y));
        lemma_unique_item(a, x, y);
    }
    assert forall|k: (DeclKind, Seq<char>)| #[trigger] declares(b, k) <==> declares(a, k) by {
        if declares(a, k) {
            let i = choose|i: int| 0 <= i < decl_keys(a).len() && decl_keys(a)[i] == k;
            assert(a.items().contains(a.items()[i]));
            lemma_unique_item(b, a.items()[i], a.items()[i]);
        }
        if declares(b, k) {
            let i = choose|i: int| 0 <= i < decl_keys(b).len() && decl_keys(b)[i] == k;
            assert(b.items().contains(b.items()[i]));
            lemma_unique_item(a, b.items()[i], b.items()[i]);
        }
    }
}

/// The scope in which declarations are merged.
pub open spec fn merge_env(l: Rc<List<Decl>>) -> Env {
    spec_push_decls(spec_empty_env(), spec_dedup(l))
}

/// Merging declares everything once. Nothing is lost: a function that is no longer declared is
/// defined, by a definition that agrees with the declaration, and a struct that is no longer
/// declared is defined. Nothing is added, and nothing stays beside its definition.
pub proof fn law_merging_declares_everything_once(l: Rc<List<Decl>>)
    requires
        l.items().len() < u64::MAX,
    ensures
        decl_keys(spec_merge_decls(l)).no_duplicates(),
        forall|k: (DeclKind, Seq<char>)| #[trigger] declares(spec_merge_decls(l), k) <==> remains(merge_env(l), spec_dedup(l), k),
        forall|k: (DeclKind, Seq<char>)| #[trigger] declares(spec_dedup(l), k) <==> declares(l, k),
        forall|x: Rc<Decl>| #[trigger] spec_merge_decls(l).items().contains(x) ==> stands_alone(merge_env(l), spec_dedup(l), x),
{
    reveal(spec_merge_decls);
    let once = spec_dedup(l);
    let env = merge_env(l);
    law_duplicates_are_joined(l);
    assert(once.items().len() <= l.items().len()) by {
        reveal(spec_dedup);
        lemma_dedup_len(spec_nil(), l);
    }
    let none: Rc<List<Decl>> = spec_nil();
    assert(decl_keys(none).len() == 0);
    assert(spec_list_append(none, once) == once);
    lemma_settle_behind(env, once, none, once);
    lemma_settle_len(env, once, once);
    let kept = spec_settle_decls(env, once, once);
    law_reordering_is_a_permutation(kept);
    let result = spec_merge_decls(l);
    lemma_same_bag(kept, result);
    law_nothing_is_declared_beside_its_definition(env, once, once);
    assert forall|k: (DeclKind, Seq<char>)| #[trigger] declares(result, k) <==> remains(env, once, k) by {
        assert(declares(kept, k) <==> remains_behind(env, once, none, once, k));
    }
    assert forall|x: Rc<Decl>| #[trigger] result.items().contains(x) implies stands_alone(env, once, x) by {
        assert(kept.items().contains(x));
        let i = choose|i: int| 0 <= i < kept.items().len() && kept.items()[i] == x;
        assert(stands_alone(env, once, kept.items()[i]));
    }
    assert forall|k: (DeclKind, Seq<char>)| #[trigger] declares(spec_dedup(l), k) <==> declares(l, k) by {
        assert(decl_keys(spec_dedup(l)).contains(k) <==> decl_keys(l).contains(k));
    }
}

/// The declarations of a global, as what it is about.
pub open spec fn global_decl(loc: Loc, g: Rc<GlobalVar>) -> Rc<Decl> {
    Rc::new(Decl { loc, val: DeclT::GlobalVar(g) })
}

/// Whether two declarations say the same of a global, wherever they stand.
pub open spec fn same_global(x: Rc<GlobalVar>, y: Rc<GlobalVar>) -> bool {
    &&& x.name.val.chars() == y.name.val.chars()
    &&& x.ty == y.ty
    &&& x.init == y.init
    &&& x.is_pure == y.is_pure
    &&& x.is_external == y.is_external
    &&& x.opaque_to_smt == y.opaque_to_smt
    &&& x.is_enum_constant == y.is_enum_constant
}

/// Two declarations of a global merge into one, and its order does not matter: it is external only
/// if both are, pure if one is, and has the initializer of the one that has it.
pub proof fn law_globals_merge_in_any_order(la: Loc, lb: Loc, a: Rc<GlobalVar>, b: Rc<GlobalVar>)
    requires
        a.name.val.chars() == b.name.val.chars(),
        a.ty == b.ty,
        a.is_enum_constant == b.is_enum_constant,
        a.init is None || b.init is None,
    ensures
        ({
            let ab = spec_merge_decls(spec_l2(global_decl(la, a), global_decl(lb, b)));
            let ba = spec_merge_decls(spec_l2(global_decl(lb, b), global_decl(la, a)));
            let x = spec_merge_globals(a, b);
            let y = spec_merge_globals(b, a);
            &&& ab.items().len() == 1 && ab.items()[0].val == DeclT::GlobalVar(x)
            &&& ba.items().len() == 1 && ba.items()[0].val == DeclT::GlobalVar(y)
            &&& same_global(x, y)
            &&& x.ty == a.ty && x.is_enum_constant == a.is_enum_constant
            &&& x.is_external == (a.is_external && b.is_external)
            &&& x.is_pure == (a.is_pure || b.is_pure)
            &&& x.opaque_to_smt == (a.opaque_to_smt || b.opaque_to_smt)
            &&& x.init == (if a.init is Some {
                a.init
            } else {
                b.init
            })
        }),
{
    reveal(spec_merge_globals);
    lemma_two_globals(global_decl(la, a), global_decl(lb, b), a, b);
    lemma_two_globals(global_decl(lb, b), global_decl(la, a), b, a);
}

/// Two declarations of a global merge into one.
proof fn lemma_two_globals(x: Rc<Decl>, y: Rc<Decl>, a: Rc<GlobalVar>, b: Rc<GlobalVar>)
    requires
        x.val == DeclT::GlobalVar(a),
        y.val == DeclT::GlobalVar(b),
        a.name.val.chars() == b.name.val.chars(),
    ensures
        ({
            let m = spec_merge_decls(spec_l2(x, y));
            m.items().len() == 1 && m.items()[0].val == DeclT::GlobalVar(spec_merge_globals(a, b))
        }),
{
    reveal(spec_merge_decls);
    reveal(spec_dedup);
    reveal(spec_combine);
    reveal(spec_same_decl_key);
    reveal(spec_decl_kind);
    reveal(spec_decl_text);
    reveal(spec_settle_decl);
    reveal_with_fuel(spec_dedup_onto, 4);
    reveal_with_fuel(spec_add_decl, 4);
    reveal_with_fuel(spec_settle_decls, 4);
    reveal_with_fuel(List::items, 4);
    let l = spec_l2(x, y);
    let none: Rc<List<Decl>> = spec_nil();
    let one = spec_l1(spec_combine(x, y));
    assert(spec_add_decl(none, x) == spec_l1(x));
    assert(spec_add_decl(spec_l1(x), y) == one);
    assert(spec_dedup(l) == one);
    assert(spec_settle_decls(merge_env(l), one, one) == one);
    assert(one.items() =~= seq![spec_combine(x, y)]);
    law_reordering_is_a_permutation(one);
    let m = spec_merge_decls(l);
    lemma_bag(one);
    lemma_bag(m);
    m.items().to_multiset_ensures();
    one.items().to_multiset_ensures();
    assert(m.items().len() == one.items().len());
    assert(m.items().contains(m.items()[0]));
    assert(m.items().to_multiset().count(m.items()[0]) > 0);
    assert(one.items().contains(m.items()[0]));
}

} // verus!
