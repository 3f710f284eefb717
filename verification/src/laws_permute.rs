//! What is proved of checking declarations in another order.

use crate::list::{List, spec_cons, spec_list_append, spec_list_len, spec_nil};
use crate::ir::{
    Decl, DeclT, FnDecl, FnDefn, GlobalVar, Ident, LetDecl, OpaqueTypeDecl, StructDefn, TypeDefn,
    UnionDefn, spec_same_name,
};
use crate::diag::Diagnostic;
use crate::env::{
    Env, spec_clone_env, spec_clone_opt_type, spec_empty_env, spec_find_fn, spec_find_global,
    spec_find_struct, spec_find_typedef, spec_find_union, spec_has_opaque, spec_let_signature,
    spec_plus, spec_push_decl, spec_push_decls, spec_push_fn_decl, spec_push_struct,
    spec_push_typedef, spec_push_union, spec_put_typedef, spec_replace_typedef, spec_type_size,
    spec_typedefs_size, spec_with_locals,
};
use crate::emit_base::spec_decl_text;
use crate::check::{Checker, spec_check_decl, spec_check_decls, spec_enter_decl};
use crate::laws_merge::bag;
use crate::laws_passes::lemma_bag;
use crate::laws_scope::{lemma_same_scope, same_scope, same_tables};
use crate::laws_step::{alike, has_added, in_step, s_diags};
use crate::laws_order::step_decl;
use std::rc::Rc;
use vstd::multiset::Multiset;
use vstd::prelude::*;

verus! {

/// The name of a declaration.
pub open spec fn name_of(d: Rc<Decl>) -> Seq<char> {
    spec_decl_text(d).chars()
}

/// Whether no two declarations have the same name.
pub open spec fn names_differ(l: Rc<List<Decl>>) -> bool {
    forall|i: int, j: int| 0 <= i < l.items().len() && 0 <= j < l.items().len() && i != j ==> name_of(#[trigger] l.items()[i]) != name_of(#[trigger] l.items()[j])
}

/// The head is a declaration of the list, and so are those of the tail; their names differ.
proof fn lemma_names_of_tail(l: Rc<List<Decl>>, h: Rc<Decl>, t: Rc<List<Decl>>)
    requires
        *l == List::Cons(h, t),
        names_differ(l),
    ensures
        names_differ(t),
        forall|x: Rc<Decl>| #[trigger] t.items().contains(x) ==> name_of(x) != name_of(h),
        forall|x: Rc<Decl>| #[trigger] l.items().contains(x) <==> x == h || t.items().contains(x),
{
    assert(l.items() == seq![h] + t.items());
    assert(l.items()[0] == h);
    assert forall|i: int| 0 <= i < t.items().len() implies #[trigger] t.items()[i] == l.items()[i + 1] by {}
    assert forall|i: int, j: int| 0 <= i < t.items().len() && 0 <= j < t.items().len() && i != j implies name_of(#[trigger] t.items()[i]) != name_of(
        #[trigger] t.items()[j],
    ) by {
        assert(name_of(l.items()[i + 1]) != name_of(l.items()[j + 1]));
    }
    assert forall|x: Rc<Decl>| #[trigger] t.items().contains(x) implies name_of(x) != name_of(h) by {
        let i = choose|i: int| 0 <= i < t.items().len() && t.items()[i] == x;
        assert(name_of(l.items()[i + 1]) != name_of(l.items()[0]));
    }
    assert forall|x: Rc<Decl>| #[trigger] l.items().contains(x) <==> x == h || t.items().contains(x) by {
        if l.items().contains(x) && x != h {
            let i = choose|i: int| 0 <= i < l.items().len() && l.items()[i] == x;
            assert(t.items()[i - 1] == x);
        }
        if t.items().contains(x) {
            let i = choose|i: int| 0 <= i < t.items().len() && t.items()[i] == x;
            assert(l.items()[i + 1] == x);
        }
    }
}

/// Two declarations of one name are one.
proof fn lemma_one_of_a_name(l: Rc<List<Decl>>, x: Rc<Decl>, y: Rc<Decl>)
    requires
        names_differ(l),
        l.items().contains(x),
        l.items().contains(y),
        name_of(x) == name_of(y),
    ensures
        x == y,
{
    let i = choose|i: int| 0 <= i < l.items().len() && l.items()[i] == x;
    let j = choose|j: int| 0 <= j < l.items().len() && l.items()[j] == y;
    if i != j {
        assert(name_of(l.items()[i]) != name_of(l.items()[j]));
    }
}

/// What is found is found by the characters of the name.
pub open spec fn is_named(n: Rc<Ident>, x: Rc<Ident>) -> bool {
    n.val.chars() == x.val.chars()
}

/// The typedef of a name, after one was put in its place.
proof fn lemma_find_replaced(l: Rc<List<TypeDefn>>, d: Rc<TypeDefn>, x: Rc<Ident>)
    requires
        spec_find_typedef(l, typedef_name(d)) is Some,
    ensures
        spec_find_typedef(spec_replace_typedef(l, d), x) == (if is_named(typedef_name(d), x) {
            Some(d)
        } else {
            spec_find_typedef(l, x)
        }),
        spec_find_typedef(l, typedef_name(d)) == Some(d) ==> spec_replace_typedef(l, d) == l,
    decreases l,
{
    reveal(spec_same_name);
    match *l {
        List::Nil => {},
        List::Cons(h, t) => {
            if !is_named(typedef_name(h), typedef_name(d)) {
                lemma_find_replaced(t, d, x);
            }
        },
    }
}

/// The name of a typedef.
pub open spec fn typedef_name(d: Rc<TypeDefn>) -> Rc<Ident> {
    d.name
}

/// The typedef of a name, after one was put.
proof fn lemma_find_put(l: Rc<List<TypeDefn>>, d: Rc<TypeDefn>, x: Rc<Ident>)
    ensures
        spec_find_typedef(spec_put_typedef(l, d), x) == (if is_named(typedef_name(d), x) {
            Some(d)
        } else {
            spec_find_typedef(l, x)
        }),
        spec_find_typedef(l, typedef_name(d)) == Some(d) ==> spec_put_typedef(l, d) == l,
        spec_find_typedef(l, typedef_name(d)) is None ==> spec_put_typedef(l, d) == spec_cons(d, l),
{
    reveal(spec_put_typedef);
    reveal(spec_same_name);
    if spec_find_typedef(l, typedef_name(d)) is Some {
        lemma_find_replaced(l, d, x);
    }
}

/// The function that a declaration declares.
pub open spec fn given_fn(d: Rc<Decl>) -> Option<Rc<FnDecl>> {
    match d.val {
        DeclT::FnDefn(f) => Some(f.decl),
        DeclT::FnDecl(f) => Some(f),
        DeclT::LetDecl(l) => Some(spec_let_signature(l)),
        _ => None,
    }
}

/// What is found of this kind after a declaration.
proof fn lemma_push_fn(env: Env, d: Rc<Decl>, x: Rc<Ident>)
    ensures
        spec_find_fn(spec_push_decl(env, d).fns, x) == (match given_fn(d) {
            Some(v) => if is_named(v.name, x) {
                Some(v)
            } else {
                spec_find_fn(env.fns, x)
            },
            None => spec_find_fn(env.fns, x),
        }),
        given_fn(d) matches Some(v) ==> v.name.val.chars() == name_of(d),
{
    reveal(spec_push_decl);
    reveal(spec_push_fn_decl);
    reveal(spec_push_typedef);
    reveal(spec_push_struct);
    reveal(spec_push_union);
    reveal(spec_clone_env);
    reveal(spec_with_locals);
    reveal(spec_decl_text);
    reveal(spec_let_signature);
    reveal(spec_same_name);
}

/// What is found of this kind after declarations of different names.
proof fn lemma_push_all_fn(env: Env, l: Rc<List<Decl>>, x: Rc<Ident>)
    requires
        names_differ(l),
    ensures
        forall|d: Rc<Decl>| #[trigger] l.items().contains(d) ==> (given_fn(d) matches Some(v) ==> is_named(v.name, x) ==> spec_find_fn(spec_push_decls(env, l).fns, x) == Some(v)),
        (forall|d: Rc<Decl>| #[trigger] l.items().contains(d) ==> (given_fn(d) matches Some(v) ==> !is_named(v.name, x)))
            ==> spec_find_fn(spec_push_decls(env, l).fns, x) == spec_find_fn(env.fns, x),
    decreases l,
{
    match *l {
        List::Nil => {
            reveal(spec_clone_env);
            reveal(spec_with_locals);
        },
        List::Cons(h, t) => {
            lemma_names_of_tail(l, h, t);
            let env1 = spec_push_decl(env, h);
            lemma_push_fn(env, h, x);
            lemma_push_all_fn(env1, t, x);
            assert forall|d: Rc<Decl>| #[trigger] l.items().contains(d) implies (given_fn(d) matches Some(v) ==> is_named(v.name, x) ==> spec_find_fn(spec_push_decls(env, l).fns, x) == Some(v)) by {
                if d == h {
                    assert forall|y: Rc<Decl>| #[trigger] t.items().contains(y) implies (given_fn(y) matches Some(v) ==> (given_fn(h) matches Some(w) ==> is_named(
                        w.name,
                        x,
                    ) ==> !is_named(v.name, x))) by {
                        lemma_push_fn(env, y, x);
                    }
                } else {
                    assert(t.items().contains(d));
                }
            }
            if forall|d: Rc<Decl>| #[trigger] l.items().contains(d) ==> (given_fn(d) matches Some(v) ==> !is_named(v.name, x)) {
                assert(l.items().contains(h));
                assert forall|d: Rc<Decl>| #[trigger] t.items().contains(d) implies (given_fn(d) matches Some(v) ==> !is_named(v.name, x)) by {
                    assert(l.items().contains(d));
                }
            }
        },
    }
}

/// The same is found of this kind, whatever the order of the declarations.
proof fn lemma_order_of_fn(l: Rc<List<Decl>>, m: Rc<List<Decl>>, x: Rc<Ident>)
    requires
        names_differ(l),
        names_differ(m),
        forall|d: Rc<Decl>| #[trigger] l.items().contains(d) <==> m.items().contains(d),
    ensures
        spec_find_fn(spec_push_decls(spec_empty_env(), l).fns, x) == spec_find_fn(spec_push_decls(spec_empty_env(), m).fns, x),
{
    let none = spec_empty_env();
    lemma_push_all_fn(none, l, x);
    lemma_push_all_fn(none, m, x);
    if exists|d: Rc<Decl>| #[trigger] l.items().contains(d) && (given_fn(d) matches Some(v) && is_named(v.name, x)) {
        let d = choose|d: Rc<Decl>| #[trigger] l.items().contains(d) && (given_fn(d) matches Some(v) && is_named(v.name, x));
        assert(m.items().contains(d));
    } else {
        assert forall|d: Rc<Decl>| #[trigger] m.items().contains(d) implies (given_fn(d) matches Some(v) ==> !is_named(v.name, x)) by {
            assert(l.items().contains(d));
        }
    }
}

/// The typedef that a declaration declares.
pub open spec fn given_typedef(d: Rc<Decl>) -> Option<Rc<TypeDefn>> {
    match d.val {
        DeclT::Typedef(v) => Some(v),
        _ => None,
    }
}

/// What is found of this kind after a declaration.
proof fn lemma_push_typedef(env: Env, d: Rc<Decl>, x: Rc<Ident>)
    ensures
        spec_find_typedef(spec_push_decl(env, d).typedefs, x) == (match given_typedef(d) {
            Some(v) => if is_named(v.name, x) {
                Some(v)
            } else {
                spec_find_typedef(env.typedefs, x)
            },
            None => spec_find_typedef(env.typedefs, x),
        }),
        given_typedef(d) matches Some(v) ==> v.name.val.chars() == name_of(d),
{
    reveal(spec_push_decl);
    reveal(spec_push_fn_decl);
    reveal(spec_push_typedef);
    reveal(spec_push_struct);
    reveal(spec_push_union);
    reveal(spec_clone_env);
    reveal(spec_with_locals);
    reveal(spec_decl_text);
    reveal(spec_let_signature);
    reveal(spec_same_name);
    match given_typedef(d) {
        Some(v) => lemma_find_put(env.typedefs, v, x),
        None => {},
    }
}

/// What is found of this kind after declarations of different names.
proof fn lemma_push_all_typedef(env: Env, l: Rc<List<Decl>>, x: Rc<Ident>)
    requires
        names_differ(l),
    ensures
        forall|d: Rc<Decl>| #[trigger] l.items().contains(d) ==> (given_typedef(d) matches Some(v) ==> is_named(v.name, x) ==> spec_find_typedef(spec_push_decls(env, l).typedefs, x) == Some(v)),
        (forall|d: Rc<Decl>| #[trigger] l.items().contains(d) ==> (given_typedef(d) matches Some(v) ==> !is_named(v.name, x)))
            ==> spec_find_typedef(spec_push_decls(env, l).typedefs, x) == spec_find_typedef(env.typedefs, x),
    decreases l,
{
    match *l {
        List::Nil => {
            reveal(spec_clone_env);
            reveal(spec_with_locals);
        },
        List::Cons(h, t) => {
            lemma_names_of_tail(l, h, t);
            let env1 = spec_push_decl(env, h);
            lemma_push_typedef(env, h, x);
            lemma_push_all_typedef(env1, t, x);
            assert forall|d: Rc<Decl>| #[trigger] l.items().contains(d) implies (given_typedef(d) matches Some(v) ==> is_named(v.name, x) ==> spec_find_typedef(spec_push_decls(env, l).typedefs, x) == Some(v)) by {
                if d == h {
                    assert forall|y: Rc<Decl>| #[trigger] t.items().contains(y) implies (given_typedef(y) matches Some(v) ==> (given_typedef(h) matches Some(w) ==> is_named(
                        w.name,
                        x,
                    ) ==> !is_named(v.name, x))) by {
                        lemma_push_typedef(env, y, x);
                    }
                } else {
                    assert(t.items().contains(d));
                }
            }
            if forall|d: Rc<Decl>| #[trigger] l.items().contains(d) ==> (given_typedef(d) matches Some(v) ==> !is_named(v.name, x)) {
                assert(l.items().contains(h));
                assert forall|d: Rc<Decl>| #[trigger] t.items().contains(d) implies (given_typedef(d) matches Some(v) ==> !is_named(v.name, x)) by {
                    assert(l.items().contains(d));
                }
            }
        },
    }
}

/// The same is found of this kind, whatever the order of the declarations.
proof fn lemma_order_of_typedef(l: Rc<List<Decl>>, m: Rc<List<Decl>>, x: Rc<Ident>)
    requires
        names_differ(l),
        names_differ(m),
        forall|d: Rc<Decl>| #[trigger] l.items().contains(d) <==> m.items().contains(d),
    ensures
        spec_find_typedef(spec_push_decls(spec_empty_env(), l).typedefs, x) == spec_find_typedef(spec_push_decls(spec_empty_env(), m).typedefs, x),
{
    let none = spec_empty_env();
    lemma_push_all_typedef(none, l, x);
    lemma_push_all_typedef(none, m, x);
    if exists|d: Rc<Decl>| #[trigger] l.items().contains(d) && (given_typedef(d) matches Some(v) && is_named(v.name, x)) {
        let d = choose|d: Rc<Decl>| #[trigger] l.items().contains(d) && (given_typedef(d) matches Some(v) && is_named(v.name, x));
        assert(m.items().contains(d));
    } else {
        assert forall|d: Rc<Decl>| #[trigger] m.items().contains(d) implies (given_typedef(d) matches Some(v) ==> !is_named(v.name, x)) by {
            assert(l.items().contains(d));
        }
    }
}

/// The struct that a declaration declares.
pub open spec fn given_struct(d: Rc<Decl>) -> Option<Rc<StructDefn>> {
    match d.val {
        DeclT::StructDefn(v) => Some(v),
        _ => None,
    }
}

/// What is found of this kind after a declaration.
proof fn lemma_push_struct(env: Env, d: Rc<Decl>, x: Rc<Ident>)
    ensures
        spec_find_struct(spec_push_decl(env, d).structs, x) == (match given_struct(d) {
            Some(v) => if is_named(v.name, x) {
                Some(v)
            } else {
                spec_find_struct(env.structs, x)
            },
            None => spec_find_struct(env.structs, x),
        }),
        given_struct(d) matches Some(v) ==> v.name.val.chars() == name_of(d),
{
    reveal(spec_push_decl);
    reveal(spec_push_fn_decl);
    reveal(spec_push_typedef);
    reveal(spec_push_struct);
    reveal(spec_push_union);
    reveal(spec_clone_env);
    reveal(spec_with_locals);
    reveal(spec_decl_text);
    reveal(spec_let_signature);
    reveal(spec_same_name);
}

/// What is found of this kind after declarations of different names.
proof fn lemma_push_all_struct(env: Env, l: Rc<List<Decl>>, x: Rc<Ident>)
    requires
        names_differ(l),
    ensures
        forall|d: Rc<Decl>| #[trigger] l.items().contains(d) ==> (given_struct(d) matches Some(v) ==> is_named(v.name, x) ==> spec_find_struct(spec_push_decls(env, l).structs, x) == Some(v)),
        (forall|d: Rc<Decl>| #[trigger] l.items().contains(d) ==> (given_struct(d) matches Some(v) ==> !is_named(v.name, x)))
            ==> spec_find_struct(spec_push_decls(env, l).structs, x) == spec_find_struct(env.structs, x),
    decreases l,
{
    match *l {
        List::Nil => {
            reveal(spec_clone_env);
            reveal(spec_with_locals);
        },
        List::Cons(h, t) => {
            lemma_names_of_tail(l, h, t);
            let env1 = spec_push_decl(env, h);
            lemma_push_struct(env, h, x);
            lemma_push_all_struct(env1, t, x);
            assert forall|d: Rc<Decl>| #[trigger] l.items().contains(d) implies (given_struct(d) matches Some(v) ==> is_named(v.name, x) ==> spec_find_struct(spec_push_decls(env, l).structs, x) == Some(v)) by {
                if d == h {
                    assert forall|y: Rc<Decl>| #[trigger] t.items().contains(y) implies (given_struct(y) matches Some(v) ==> (given_struct(h) matches Some(w) ==> is_named(
                        w.name,
                        x,
                    ) ==> !is_named(v.name, x))) by {
                        lemma_push_struct(env, y, x);
                    }
                } else {
                    assert(t.items().contains(d));
                }
            }
            if forall|d: Rc<Decl>| #[trigger] l.items().contains(d) ==> (given_struct(d) matches Some(v) ==> !is_named(v.name, x)) {
                assert(l.items().contains(h));
                assert forall|d: Rc<Decl>| #[trigger] t.items().contains(d) implies (given_struct(d) matches Some(v) ==> !is_named(v.name, x)) by {
                    assert(l.items().contains(d));
                }
            }
        },
    }
}

/// The same is found of this kind, whatever the order of the declarations.
proof fn lemma_order_of_struct(l: Rc<List<Decl>>, m: Rc<List<Decl>>, x: Rc<Ident>)
    requires
        names_differ(l),
        names_differ(m),
        forall|d: Rc<Decl>| #[trigger] l.items().contains(d) <==> m.items().contains(d),
    ensures
        spec_find_struct(spec_push_decls(spec_empty_env(), l).structs, x) == spec_find_struct(spec_push_decls(spec_empty_env(), m).structs, x),
{
    let none = spec_empty_env();
    lemma_push_all_struct(none, l, x);
    lemma_push_all_struct(none, m, x);
    if exists|d: Rc<Decl>| #[trigger] l.items().contains(d) && (given_struct(d) matches Some(v) && is_named(v.name, x)) {
        let d = choose|d: Rc<Decl>| #[trigger] l.items().contains(d) && (given_struct(d) matches Some(v) && is_named(v.name, x));
        assert(m.items().contains(d));
    } else {
        assert forall|d: Rc<Decl>| #[trigger] m.items().contains(d) implies (given_struct(d) matches Some(v) ==> !is_named(v.name, x)) by {
            assert(l.items().contains(d));
        }
    }
}

/// The union that a declaration declares.
pub open spec fn given_union(d: Rc<Decl>) -> Option<Rc<UnionDefn>> {
    match d.val {
        DeclT::UnionDefn(v) => Some(v),
        _ => None,
    }
}

/// What is found of this kind after a declaration.
proof fn lemma_push_union(env: Env, d: Rc<Decl>, x: Rc<Ident>)
    ensures
        spec_find_union(spec_push_decl(env, d).unions, x) == (match given_union(d) {
            Some(v) => if is_named(v.name, x) {
                Some(v)
            } else {
                spec_find_union(env.unions, x)
            },
            None => spec_find_union(env.unions, x),
        }),
        given_union(d) matches Some(v) ==> v.name.val.chars() == name_of(d),
{
    reveal(spec_push_decl);
    reveal(spec_push_fn_decl);
    reveal(spec_push_typedef);
    reveal(spec_push_struct);
    reveal(spec_push_union);
    reveal(spec_clone_env);
    reveal(spec_with_locals);
    reveal(spec_decl_text);
    reveal(spec_let_signature);
    reveal(spec_same_name);
}

/// What is found of this kind after declarations of different names.
proof fn lemma_push_all_union(env: Env, l: Rc<List<Decl>>, x: Rc<Ident>)
    requires
        names_differ(l),
    ensures
        forall|d: Rc<Decl>| #[trigger] l.items().contains(d) ==> (given_union(d) matches Some(v) ==> is_named(v.name, x) ==> spec_find_union(spec_push_decls(env, l).unions, x) == Some(v)),
        (forall|d: Rc<Decl>| #[trigger] l.items().contains(d) ==> (given_union(d) matches Some(v) ==> !is_named(v.name, x)))
            ==> spec_find_union(spec_push_decls(env, l).unions, x) == spec_find_union(env.unions, x),
    decreases l,
{
    match *l {
        List::Nil => {
            reveal(spec_clone_env);
            reveal(spec_with_locals);
        },
        List::Cons(h, t) => {
            lemma_names_of_tail(l, h, t);
            let env1 = spec_push_decl(env, h);
            lemma_push_union(env, h, x);
            lemma_push_all_union(env1, t, x);
            assert forall|d: Rc<Decl>| #[trigger] l.items().contains(d) implies (given_union(d) matches Some(v) ==> is_named(v.name, x) ==> spec_find_union(spec_push_decls(env, l).unions, x) == Some(v)) by {
                if d == h {
                    assert forall|y: Rc<Decl>| #[trigger] t.items().contains(y) implies (given_union(y) matches Some(v) ==> (given_union(h) matches Some(w) ==> is_named(
                        w.name,
                        x,
                    ) ==> !is_named(v.name, x))) by {
                        lemma_push_union(env, y, x);
                    }
                } else {
                    assert(t.items().contains(d));
                }
            }
            if forall|d: Rc<Decl>| #[trigger] l.items().contains(d) ==> (given_union(d) matches Some(v) ==> !is_named(v.name, x)) {
                assert(l.items().contains(h));
                assert forall|d: Rc<Decl>| #[trigger] t.items().contains(d) implies (given_union(d) matches Some(v) ==> !is_named(v.name, x)) by {
                    assert(l.items().contains(d));
                }
            }
        },
    }
}

/// The same is found of this kind, whatever the order of the declarations.
proof fn lemma_order_of_union(l: Rc<List<Decl>>, m: Rc<List<Decl>>, x: Rc<Ident>)
    requires
        names_differ(l),
        names_differ(m),
        forall|d: Rc<Decl>| #[trigger] l.items().contains(d) <==> m.items().contains(d),
    ensures
        spec_find_union(spec_push_decls(spec_empty_env(), l).unions, x) == spec_find_union(spec_push_decls(spec_empty_env(), m).unions, x),
{
    let none = spec_empty_env();
    lemma_push_all_union(none, l, x);
    lemma_push_all_union(none, m, x);
    if exists|d: Rc<Decl>| #[trigger] l.items().contains(d) && (given_union(d) matches Some(v) && is_named(v.name, x)) {
        let d = choose|d: Rc<Decl>| #[trigger] l.items().contains(d) && (given_union(d) matches Some(v) && is_named(v.name, x));
        assert(m.items().contains(d));
    } else {
        assert forall|d: Rc<Decl>| #[trigger] m.items().contains(d) implies (given_union(d) matches Some(v) ==> !is_named(v.name, x)) by {
            assert(l.items().contains(d));
        }
    }
}

/// The global that a declaration declares.
pub open spec fn given_global(d: Rc<Decl>) -> Option<Rc<GlobalVar>> {
    match d.val {
        DeclT::GlobalVar(v) => Some(v),
        _ => None,
    }
}

/// What is found of this kind after a declaration.
proof fn lemma_push_global(env: Env, d: Rc<Decl>, x: Rc<Ident>)
    ensures
        spec_find_global(spec_push_decl(env, d).globals, x) == (match given_global(d) {
            Some(v) => if is_named(v.name, x) {
                Some(v)
            } else {
                spec_find_global(env.globals, x)
            },
            None => spec_find_global(env.globals, x),
        }),
        given_global(d) matches Some(v) ==> v.name.val.chars() == name_of(d),
{
    reveal(spec_push_decl);
    reveal(spec_push_fn_decl);
    reveal(spec_push_typedef);
    reveal(spec_push_struct);
    reveal(spec_push_union);
    reveal(spec_clone_env);
    reveal(spec_with_locals);
    reveal(spec_decl_text);
    reveal(spec_let_signature);
    reveal(spec_same_name);
}

/// What is found of this kind after declarations of different names.
proof fn lemma_push_all_global(env: Env, l: Rc<List<Decl>>, x: Rc<Ident>)
    requires
        names_differ(l),
    ensures
        forall|d: Rc<Decl>| #[trigger] l.items().contains(d) ==> (given_global(d) matches Some(v) ==> is_named(v.name, x) ==> spec_find_global(spec_push_decls(env, l).globals, x) == Some(v)),
        (forall|d: Rc<Decl>| #[trigger] l.items().contains(d) ==> (given_global(d) matches Some(v) ==> !is_named(v.name, x)))
            ==> spec_find_global(spec_push_decls(env, l).globals, x) == spec_find_global(env.globals, x),
    decreases l,
{
    match *l {
        List::Nil => {
            reveal(spec_clone_env);
            reveal(spec_with_locals);
        },
        List::Cons(h, t) => {
            lemma_names_of_tail(l, h, t);
            let env1 = spec_push_decl(env, h);
            lemma_push_global(env, h, x);
            lemma_push_all_global(env1, t, x);
            assert forall|d: Rc<Decl>| #[trigger] l.items().contains(d) implies (given_global(d) matches Some(v) ==> is_named(v.name, x) ==> spec_find_global(spec_push_decls(env, l).globals, x) == Some(v)) by {
                if d == h {
                    assert forall|y: Rc<Decl>| #[trigger] t.items().contains(y) implies (given_global(y) matches Some(v) ==> (given_global(h) matches Some(w) ==> is_named(
                        w.name,
                        x,
                    ) ==> !is_named(v.name, x))) by {
                        lemma_push_global(env, y, x);
                    }
                } else {
                    assert(t.items().contains(d));
                }
            }
            if forall|d: Rc<Decl>| #[trigger] l.items().contains(d) ==> (given_global(d) matches Some(v) ==> !is_named(v.name, x)) {
                assert(l.items().contains(h));
                assert forall|d: Rc<Decl>| #[trigger] t.items().contains(d) implies (given_global(d) matches Some(v) ==> !is_named(v.name, x)) by {
                    assert(l.items().contains(d));
                }
            }
        },
    }
}

/// The same is found of this kind, whatever the order of the declarations.
proof fn lemma_order_of_global(l: Rc<List<Decl>>, m: Rc<List<Decl>>, x: Rc<Ident>)
    requires
        names_differ(l),
        names_differ(m),
        forall|d: Rc<Decl>| #[trigger] l.items().contains(d) <==> m.items().contains(d),
    ensures
        spec_find_global(spec_push_decls(spec_empty_env(), l).globals, x) == spec_find_global(spec_push_decls(spec_empty_env(), m).globals, x),
{
    let none = spec_empty_env();
    lemma_push_all_global(none, l, x);
    lemma_push_all_global(none, m, x);
    if exists|d: Rc<Decl>| #[trigger] l.items().contains(d) && (given_global(d) matches Some(v) && is_named(v.name, x)) {
        let d = choose|d: Rc<Decl>| #[trigger] l.items().contains(d) && (given_global(d) matches Some(v) && is_named(v.name, x));
        assert(m.items().contains(d));
    } else {
        assert forall|d: Rc<Decl>| #[trigger] m.items().contains(d) implies (given_global(d) matches Some(v) ==> !is_named(v.name, x)) by {
            assert(l.items().contains(d));
        }
    }
}

/// The opaque type that a declaration declares.
pub open spec fn given_opaque(d: Rc<Decl>) -> Option<Rc<OpaqueTypeDecl>> {
    match d.val {
        DeclT::OpaqueTypeDecl(v) => Some(v),
        _ => None,
    }
}

/// What is found of this kind after a declaration.
proof fn lemma_push_opaque(env: Env, d: Rc<Decl>, x: Rc<Ident>)
    ensures
        spec_has_opaque(spec_push_decl(env, d).opaques, x) == (match given_opaque(d) {
            Some(v) => if is_named(v.name, x) {
                true
            } else {
                spec_has_opaque(env.opaques, x)
            },
            None => spec_has_opaque(env.opaques, x),
        }),
        given_opaque(d) matches Some(v) ==> v.name.val.chars() == name_of(d),
{
    reveal(spec_push_decl);
    reveal(spec_push_fn_decl);
    reveal(spec_push_typedef);
    reveal(spec_push_struct);
    reveal(spec_push_union);
    reveal(spec_clone_env);
    reveal(spec_with_locals);
    reveal(spec_decl_text);
    reveal(spec_let_signature);
    reveal(spec_same_name);
}

/// What is found of this kind after declarations of different names.
proof fn lemma_push_all_opaque(env: Env, l: Rc<List<Decl>>, x: Rc<Ident>)
    requires
        names_differ(l),
    ensures
        forall|d: Rc<Decl>| #[trigger] l.items().contains(d) ==> (given_opaque(d) matches Some(v) ==> is_named(v.name, x) ==> spec_has_opaque(spec_push_decls(env, l).opaques, x) == true),
        (forall|d: Rc<Decl>| #[trigger] l.items().contains(d) ==> (given_opaque(d) matches Some(v) ==> !is_named(v.name, x)))
            ==> spec_has_opaque(spec_push_decls(env, l).opaques, x) == spec_has_opaque(env.opaques, x),
    decreases l,
{
    match *l {
        List::Nil => {
            reveal(spec_clone_env);
            reveal(spec_with_locals);
        },
        List::Cons(h, t) => {
            lemma_names_of_tail(l, h, t);
            let env1 = spec_push_decl(env, h);
            lemma_push_opaque(env, h, x);
            lemma_push_all_opaque(env1, t, x);
            assert forall|d: Rc<Decl>| #[trigger] l.items().contains(d) implies (given_opaque(d) matches Some(v) ==> is_named(v.name, x) ==> spec_has_opaque(spec_push_decls(env, l).opaques, x) == true) by {
                if d == h {
                    assert forall|y: Rc<Decl>| #[trigger] t.items().contains(y) implies (given_opaque(y) matches Some(v) ==> (given_opaque(h) matches Some(w) ==> is_named(
                        w.name,
                        x,
                    ) ==> !is_named(v.name, x))) by {
                        lemma_push_opaque(env, y, x);
                    }
                } else {
                    assert(t.items().contains(d));
                }
            }
            if forall|d: Rc<Decl>| #[trigger] l.items().contains(d) ==> (given_opaque(d) matches Some(v) ==> !is_named(v.name, x)) {
                assert(l.items().contains(h));
                assert forall|d: Rc<Decl>| #[trigger] t.items().contains(d) implies (given_opaque(d) matches Some(v) ==> !is_named(v.name, x)) by {
                    assert(l.items().contains(d));
                }
            }
        },
    }
}

/// The same is found of this kind, whatever the order of the declarations.
proof fn lemma_order_of_opaque(l: Rc<List<Decl>>, m: Rc<List<Decl>>, x: Rc<Ident>)
    requires
        names_differ(l),
        names_differ(m),
        forall|d: Rc<Decl>| #[trigger] l.items().contains(d) <==> m.items().contains(d),
    ensures
        spec_has_opaque(spec_push_decls(spec_empty_env(), l).opaques, x) == spec_has_opaque(spec_push_decls(spec_empty_env(), m).opaques, x),
{
    let none = spec_empty_env();
    lemma_push_all_opaque(none, l, x);
    lemma_push_all_opaque(none, m, x);
    if exists|d: Rc<Decl>| #[trigger] l.items().contains(d) && (given_opaque(d) matches Some(v) && is_named(v.name, x)) {
        let d = choose|d: Rc<Decl>| #[trigger] l.items().contains(d) && (given_opaque(d) matches Some(v) && is_named(v.name, x));
        assert(m.items().contains(d));
    } else {
        assert forall|d: Rc<Decl>| #[trigger] m.items().contains(d) implies (given_opaque(d) matches Some(v) ==> !is_named(v.name, x)) by {
            assert(l.items().contains(d));
        }
    }
}

/// What declarations weigh together.
pub open spec fn total(l: Rc<List<Decl>>, w: spec_fn(Rc<Decl>) -> nat) -> nat
    decreases l,
{
    match *l {
        List::Nil => 0,
        List::Cons(h, t) => w(h) + total(t, w),
    }
}

/// The declarations without the first that is the given one.
spec fn without_first(l: Rc<List<Decl>>, d: Rc<Decl>) -> Rc<List<Decl>>
    decreases l,
{
    match *l {
        List::Nil => l,
        List::Cons(h, t) => if h == d {
            t
        } else {
            Rc::new(List::Cons(h, without_first(t, d)))
        },
    }
}

/// What is taken out is all that is missing.
proof fn lemma_without_first(l: Rc<List<Decl>>, d: Rc<Decl>, w: spec_fn(Rc<Decl>) -> nat)
    requires
        bag(l).count(d) > 0,
    ensures
        bag(l) =~= bag(without_first(l, d)).insert(d),
        total(l, w) == w(d) + total(without_first(l, d), w),
    decreases l,
{
    match *l {
        List::Nil => {},
        List::Cons(h, t) => {
            if h != d {
                lemma_without_first(t, d, w);
            }
        },
    }
}

/// Declarations weigh the same in any order.
proof fn lemma_total(l: Rc<List<Decl>>, m: Rc<List<Decl>>, w: spec_fn(Rc<Decl>) -> nat)
    requires
        bag(l) == bag(m),
    ensures
        total(l, w) == total(m, w),
    decreases l,
{
    match *l {
        List::Nil => match *m {
            List::Nil => {},
            List::Cons(h, _) => {
                assert(bag(m).count(h) > 0);
                assert(bag(l).count(h) == 0);
            },
        },
        List::Cons(h, t) => {
            assert(bag(l).count(h) > 0);
            lemma_without_first(m, h, w);
            let rest = without_first(m, h);
            assert(bag(t) =~= bag(rest)) by {
                assert forall|x: Rc<Decl>| bag(t).count(x) == bag(rest).count(x) by {
                    assert(bag(t).insert(h).count(x) == bag(rest).insert(h).count(x));
                }
            }
            lemma_total(t, rest, w);
        },
    }
}

/// The nodes of typedefs, however many there are.
pub open spec fn typedef_nodes(l: Rc<List<TypeDefn>>) -> nat
    decreases l,
{
    match *l {
        List::Nil => 0,
        List::Cons(h, t) => spec_type_size(h.body) as nat + typedef_nodes(t),
    }
}

/// The number of typedefs and of their nodes, up to the largest number.
proof fn lemma_typedef_sizes(l: Rc<List<TypeDefn>>)
    ensures
        spec_list_len(l) == (if l.items().len() <= u64::MAX {
            l.items().len()
        } else {
            u64::MAX as nat
        }),
        spec_typedefs_size(l) == (if typedef_nodes(l) <= u64::MAX {
            typedef_nodes(l)
        } else {
            u64::MAX as nat
        }),
    decreases l,
{
    reveal(spec_plus);
    match *l {
        List::Nil => {},
        List::Cons(_, t) => lemma_typedef_sizes(t),
    }
}

/// Whether a declaration is a typedef, as a number.
pub open spec fn typedef_weight() -> spec_fn(Rc<Decl>) -> nat {
    |d: Rc<Decl>|
        if given_typedef(d) is Some {
            1nat
        } else {
            0nat
        }
}

/// The nodes of the typedef that a declaration is.
pub open spec fn node_weight() -> spec_fn(Rc<Decl>) -> nat {
    |d: Rc<Decl>|
        match given_typedef(d) {
            Some(v) => spec_type_size(v.body) as nat,
            None => 0,
        }
}

/// The typedefs after declarations of names that are new.
proof fn lemma_typedefs_pushed(env: Env, l: Rc<List<Decl>>)
    requires
        names_differ(l),
        forall|d: Rc<Decl>| #[trigger] l.items().contains(d) ==> (given_typedef(d) matches Some(v) ==> spec_find_typedef(env.typedefs, v.name) is None),
    ensures
        spec_push_decls(env, l).typedefs.items().len() == env.typedefs.items().len() + total(l, typedef_weight()),
        typedef_nodes(spec_push_decls(env, l).typedefs) == typedef_nodes(env.typedefs) + total(l, node_weight()),
    decreases l,
{
    match *l {
        List::Nil => {
            reveal(spec_clone_env);
            reveal(spec_with_locals);
        },
        List::Cons(h, t) => {
            lemma_names_of_tail(l, h, t);
            assert(l.items().contains(h));
            let env1 = spec_push_decl(env, h);
            assert forall|d: Rc<Decl>| #[trigger] t.items().contains(d) implies (given_typedef(d) matches Some(v) ==> spec_find_typedef(
                env1.typedefs,
                v.name,
            ) is None) by {
                assert(l.items().contains(d));
                match given_typedef(d) {
                    Some(v) => {
                        lemma_push_typedef(env, h, typedef_name(v));
                        lemma_push_typedef(env, d, typedef_name(v));
                    },
                    None => {},
                }
            }
            lemma_typedefs_pushed(env1, t);
            reveal(spec_push_decl);
            reveal(spec_push_fn_decl);
            reveal(spec_push_typedef);
            reveal(spec_push_struct);
            reveal(spec_push_union);
            reveal(spec_clone_env);
            reveal(spec_with_locals);
            match given_typedef(h) {
                Some(v) => {
                    lemma_find_put(env.typedefs, v, typedef_name(v));
                    assert(env1.typedefs == spec_cons(v, env.typedefs));
                },
                None => {
                    assert(env1.typedefs == env.typedefs);
                },
            }
        },
    }
}

/// What declarations do not change of a scope.
proof fn lemma_push_keeps(env: Env, l: Rc<List<Decl>>)
    ensures
        ({
            let e = spec_push_decls(env, l);
            e.locals == env.locals && e.return_type == env.return_type && e.in_loop == env.in_loop
        }),
    decreases l,
{
    reveal(spec_clone_env);
    reveal(spec_with_locals);
    reveal(spec_clone_opt_type);
    match *l {
        List::Nil => {},
        List::Cons(h, t) => {
            lemma_push_one_keeps(env, h);
            lemma_push_keeps(spec_push_decl(env, h), t);
        },
    }
}

/// What a declaration does not change of a scope.
proof fn lemma_push_one_keeps(env: Env, d: Rc<Decl>)
    ensures
        ({
            let e = spec_push_decl(env, d);
            e.locals == env.locals && e.return_type == env.return_type && e.in_loop == env.in_loop
        }),
{
    reveal(spec_push_decl);
    reveal(spec_push_fn_decl);
    reveal(spec_push_typedef);
    reveal(spec_push_struct);
    reveal(spec_push_union);
    reveal(spec_clone_env);
    reveal(spec_with_locals);
    reveal(spec_clone_opt_type);
}

/// The scope of all declarations.
pub open spec fn scope_of(l: Rc<List<Decl>>) -> Env {
    spec_push_decls(spec_empty_env(), l)
}

/// Lists with the same bag have the same items, and where the names of one differ those of the
/// other do.
proof fn lemma_same_items(l: Rc<List<Decl>>, m: Rc<List<Decl>>)
    requires
        bag(l) == bag(m),
        names_differ(l),
    ensures
        forall|d: Rc<Decl>| #[trigger] l.items().contains(d) <==> m.items().contains(d),
        names_differ(m),
{
    lemma_bag(l);
    lemma_bag(m);
    l.items().to_multiset_ensures();
    m.items().to_multiset_ensures();
    assert forall|d: Rc<Decl>| #[trigger] l.items().contains(d) <==> m.items().contains(d) by {
        assert(l.items().contains(d) <==> l.items().to_multiset().count(d) > 0);
        assert(m.items().contains(d) <==> m.items().to_multiset().count(d) > 0);
    }
    assert(l.items().no_duplicates()) by {
        assert forall|i: int, j: int| 0 <= i < l.items().len() && 0 <= j < l.items().len() && i != j implies l.items()[i] != l.items()[j] by {
            assert(name_of(l.items()[i]) != name_of(l.items()[j]));
        }
    }
    l.items().lemma_multiset_has_no_duplicates();
    m.items().lemma_multiset_has_no_duplicates_conv();
    assert forall|i: int, j: int| 0 <= i < m.items().len() && 0 <= j < m.items().len() && i != j implies name_of(#[trigger] m.items()[i]) != name_of(
        #[trigger] m.items()[j],
    ) by {
        assert(m.items().contains(m.items()[i]));
        assert(m.items().contains(m.items()[j]));
        if name_of(m.items()[i]) == name_of(m.items()[j]) {
            lemma_one_of_a_name(l, m.items()[i], m.items()[j]);
        }
    }
}

/// Declarations of different names make the same scope in any order.
pub proof fn law_order_makes_no_scope(l: Rc<List<Decl>>, m: Rc<List<Decl>>)
    requires
        bag(l) == bag(m),
        names_differ(l),
    ensures
        same_scope(scope_of(l), scope_of(m)),
{
    lemma_same_items(l, m);
    let none = spec_empty_env();
    lemma_push_keeps(none, l);
    lemma_push_keeps(none, m);
    reveal(spec_empty_env);
    lemma_typedefs_pushed(none, l);
    lemma_typedefs_pushed(none, m);
    lemma_total(l, m, typedef_weight());
    lemma_total(l, m, node_weight());
    let a = scope_of(l);
    let b = scope_of(m);
    lemma_typedef_sizes(a.typedefs);
    lemma_typedef_sizes(b.typedefs);
    assert(same_tables(a, b)) by {
        reveal(same_tables);
        assert forall|x: Rc<Ident>| #[trigger] spec_find_fn(a.fns, x) == spec_find_fn(b.fns, x) by {
            lemma_order_of_fn(l, m, x);
        }
        assert forall|x: Rc<Ident>| #[trigger] spec_find_typedef(a.typedefs, x) == spec_find_typedef(b.typedefs, x) by {
            lemma_order_of_typedef(l, m, x);
        }
        assert forall|x: Rc<Ident>| #[trigger] spec_find_struct(a.structs, x) == spec_find_struct(b.structs, x) by {
            lemma_order_of_struct(l, m, x);
        }
        assert forall|x: Rc<Ident>| #[trigger] spec_find_union(a.unions, x) == spec_find_union(b.unions, x) by {
            lemma_order_of_union(l, m, x);
        }
        assert forall|x: Rc<Ident>| #[trigger] spec_find_global(a.globals, x) == spec_find_global(b.globals, x) by {
            lemma_order_of_global(l, m, x);
        }
        assert forall|x: Rc<Ident>| #[trigger] spec_has_opaque(a.opaques, x) == spec_has_opaque(b.opaques, x) by {
            lemma_order_of_opaque(l, m, x);
        }
    }
}

/// Declaring once more what is declared says nothing new.
proof fn lemma_push_again(env: Env, all: Rc<List<Decl>>, d: Rc<Decl>)
    requires
        names_differ(all),
        all.items().contains(d),
        same_scope(env, scope_of(all)),
    ensures
        same_scope(spec_push_decl(env, d), scope_of(all)),
{
    let base = scope_of(all);
    let next = spec_push_decl(env, d);
    lemma_push_one_keeps(env, d);
    assert(same_tables(next, base)) by {
        reveal(same_tables);
        assert forall|x: Rc<Ident>| #[trigger] spec_find_fn(next.fns, x) == spec_find_fn(base.fns, x) by {
            lemma_push_fn(env, d, x);
            lemma_push_all_fn(spec_empty_env(), all, x);
            assert(spec_find_fn(env.fns, x) == spec_find_fn(base.fns, x));
        }
        assert forall|x: Rc<Ident>| #[trigger] spec_find_typedef(next.typedefs, x) == spec_find_typedef(base.typedefs, x) by {
            lemma_push_typedef(env, d, x);
            lemma_push_all_typedef(spec_empty_env(), all, x);
            assert(spec_find_typedef(env.typedefs, x) == spec_find_typedef(base.typedefs, x));
        }
        assert forall|x: Rc<Ident>| #[trigger] spec_find_struct(next.structs, x) == spec_find_struct(base.structs, x) by {
            lemma_push_struct(env, d, x);
            lemma_push_all_struct(spec_empty_env(), all, x);
            assert(spec_find_struct(env.structs, x) == spec_find_struct(base.structs, x));
        }
        assert forall|x: Rc<Ident>| #[trigger] spec_find_union(next.unions, x) == spec_find_union(base.unions, x) by {
            lemma_push_union(env, d, x);
            lemma_push_all_union(spec_empty_env(), all, x);
            assert(spec_find_union(env.unions, x) == spec_find_union(base.unions, x));
        }
        assert forall|x: Rc<Ident>| #[trigger] spec_find_global(next.globals, x) == spec_find_global(base.globals, x) by {
            lemma_push_global(env, d, x);
            lemma_push_all_global(spec_empty_env(), all, x);
            assert(spec_find_global(env.globals, x) == spec_find_global(base.globals, x));
        }
        assert forall|x: Rc<Ident>| #[trigger] spec_has_opaque(next.opaques, x) == spec_has_opaque(base.opaques, x) by {
            lemma_push_opaque(env, d, x);
            lemma_push_all_opaque(spec_empty_env(), all, x);
            assert(spec_has_opaque(env.opaques, x) == spec_has_opaque(base.opaques, x));
        }
        assert(next.typedefs == env.typedefs) by {
            reveal(spec_push_decl);
            reveal(spec_push_fn_decl);
            reveal(spec_push_typedef);
            reveal(spec_push_struct);
            reveal(spec_push_union);
            reveal(spec_clone_env);
            reveal(spec_with_locals);
            match given_typedef(d) {
                Some(v) => {
                    lemma_push_all_typedef(spec_empty_env(), all, typedef_name(v));
                    assert(spec_find_typedef(env.typedefs, typedef_name(v)) == spec_find_typedef(base.typedefs, typedef_name(v)));
                    lemma_find_put(env.typedefs, v, typedef_name(v));
                },
                None => {},
            }
        }
    }
}

/// A declaration enters no scope but that of all declarations.
proof fn lemma_enter_again(env: Env, all: Rc<List<Decl>>, d: Rc<Decl>)
    requires
        names_differ(all),
        all.items().contains(d),
        same_scope(env, scope_of(all)),
    ensures
        same_scope(spec_enter_decl(env, d), scope_of(all)),
{
    lemma_push_again(env, all, d);
    reveal(spec_enter_decl);
    reveal(spec_push_decl);
    assert(spec_clone_env(env) == env) by {
        reveal(spec_clone_env);
        reveal(spec_with_locals);
        reveal(spec_clone_opt_type);
    }
}

/// A check that has reported nothing yet.
pub open spec fn fresh(c: Checker) -> Checker {
    Checker { diags: spec_nil(), ..c }
}

/// The messages of a declaration, in the scope of all declarations.
pub open spec fn messages_of(c: Checker, all: Rc<List<Decl>>, d: Rc<Decl>) -> Multiset<Rc<Diagnostic>> {
    bag(spec_check_decl(fresh(c), scope_of(all), d).diags)
}

/// How often a message occurs among those of a declaration.
pub open spec fn message_weight(c: Checker, all: Rc<List<Decl>>, x: Rc<Diagnostic>) -> spec_fn(Rc<Decl>) -> nat {
    |d: Rc<Decl>| messages_of(c, all, d).count(x)
}

/// The messages of two lists are those of both.
proof fn lemma_bag_append(a: Rc<List<Diagnostic>>, b: Rc<List<Diagnostic>>)
    ensures
        bag(spec_list_append(a, b)) =~= bag(a).add(bag(b)),
    decreases a,
{
    match *a {
        List::Nil => {},
        List::Cons(_, t) => lemma_bag_append(t, b),
    }
}

/// Nothing added to a list.
proof fn lemma_append_none(a: Rc<List<Diagnostic>>)
    ensures
        spec_list_append(a, spec_nil()) == a,
    decreases a,
{
    match *a {
        List::Nil => {},
        List::Cons(_, t) => lemma_append_none(t),
    }
}

/// A check of a declaration adds the messages of the declaration.
proof fn lemma_decl_messages(c: Checker, env: Env, all: Rc<List<Decl>>, d: Rc<Decl>)
    requires
        same_scope(env, scope_of(all)),
    ensures
        alike(spec_check_decl(c, env, d), c),
        bag(spec_check_decl(c, env, d).diags) == bag(c.diags).add(messages_of(c, all, d)),
{
    let t = fresh(c);
    step_decl(c, t, env, scope_of(all), d);
    let c1 = spec_check_decl(c, env, d);
    let t1 = spec_check_decl(t, scope_of(all), d);
    reveal(in_step);
    let m = choose|m: Rc<List<Diagnostic>>| #[trigger] has_added(m, c1, c) && has_added(m, t1, t);
    lemma_append_none(m);
    lemma_bag_append(m, s_diags(c));
    assert(bag(c1.diags) =~= bag(c.diags).add(messages_of(c, all, d)));
}

/// A check of declarations adds the messages of each of them.
proof fn lemma_all_messages(c: Checker, env: Env, all: Rc<List<Decl>>, l: Rc<List<Decl>>, x: Rc<Diagnostic>)
    requires
        names_differ(all),
        same_scope(env, scope_of(all)),
        forall|d: Rc<Decl>| #[trigger] l.items().contains(d) ==> all.items().contains(d),
    ensures
        bag(spec_check_decls(c, env, l).diags).count(x) == bag(c.diags).count(x) + total(l, message_weight(c, all, x)),
    decreases l,
{
    match *l {
        List::Nil => {},
        List::Cons(h, t) => {
            assert(l.items() == seq![h] + t.items());
            assert(l.items()[0] == h);
            assert(l.items().contains(h));
            assert forall|d: Rc<Decl>| #[trigger] t.items().contains(d) implies all.items().contains(d) by {
                let i = choose|i: int| 0 <= i < t.items().len() && t.items()[i] == d;
                assert(l.items()[i + 1] == d);
                assert(l.items().contains(d));
            }
            lemma_enter_again(env, all, h);
            let env1 = spec_enter_decl(env, h);
            lemma_decl_messages(c, env1, all, h);
            let c1 = spec_check_decl(c, env1, h);
            lemma_push_again(env1, all, h);
            lemma_all_messages(c1, spec_push_decl(env1, h), all, t, x);
            assert(fresh(c1) == fresh(c));
            assert(message_weight(c1, all, x) =~= message_weight(c, all, x));
        },
    }
}

/// A declaration has the same messages in scopes that say the same.
proof fn lemma_messages_of(c: Checker, l: Rc<List<Decl>>, m: Rc<List<Decl>>, d: Rc<Decl>)
    requires
        same_scope(scope_of(l), scope_of(m)),
    ensures
        messages_of(c, l, d) == messages_of(c, m, d),
{
    let t = fresh(c);
    lemma_decl_messages(t, scope_of(l), m, d);
    let none: Rc<List<Diagnostic>> = spec_nil();
    assert(bag(none) =~= Multiset::empty());
    assert(fresh(t) == t);
    assert(messages_of(c, l, d) =~= messages_of(c, m, d));
}

/// The order of declarations does not matter to a check, where their names differ: it adds the same
/// messages, each as often. Something may be used before it is declared.
pub proof fn law_order_does_not_matter_to_a_check(c: Checker, l: Rc<List<Decl>>, m: Rc<List<Decl>>)
    requires
        bag(l) == bag(m),
        names_differ(l),
    ensures
        bag(spec_check_decls(c, scope_of(l), l).diags) == bag(spec_check_decls(c, scope_of(m), m).diags),
{
    lemma_same_items(l, m);
    law_order_makes_no_scope(l, m);
    lemma_same_scope(scope_of(l), scope_of(m), scope_of(m));
    lemma_same_scope(scope_of(m), scope_of(m), scope_of(m));
    let a = bag(spec_check_decls(c, scope_of(l), l).diags);
    let b = bag(spec_check_decls(c, scope_of(m), m).diags);
    assert forall|x: Rc<Diagnostic>| #[trigger] a.count(x) == b.count(x) by {
        lemma_all_messages(c, scope_of(l), l, l, x);
        lemma_all_messages(c, scope_of(m), m, m, x);
        lemma_total(l, m, message_weight(c, l, x));
        assert forall|d: Rc<Decl>| #[trigger] messages_of(c, l, d) == messages_of(c, m, d) by {
            lemma_messages_of(c, l, m, d);
        }
        assert(message_weight(c, l, x) =~= message_weight(c, m, x));
    }
    assert(a =~= b);
}

} // verus!
