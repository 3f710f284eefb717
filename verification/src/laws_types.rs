//! What is proved of types, and of elaboration.

use crate::list::{List, spec_bump, spec_drop_one, spec_list_len};
use crate::ir::{
    Decl, Expr, PointerKind, Stmt, StmtT, Type, TypeDefn, TypeRefKind, TypeT, spec_mk_type,
    spec_same_name, spec_with_inner, spec_with_inner_and_fact,
};
use crate::env::{
    Env, spec_contains_error, spec_empty_env, spec_find_typedef, spec_plus, spec_push_decl,
    spec_push_decls, spec_type_size, spec_typedefs_size, spec_vtype_eq, spec_vtype_eq_within,
    spec_vtype_whnf, spec_vtypes_eq_within, spec_whnf_within,
};
use crate::names::TypeRef;
use crate::emit_base::spec_decl_text;
use crate::merge::{spec_decl_kind, spec_same_decl_key};
use crate::check::{
    Checker, spec_check_has_type, spec_check_lvalue, spec_check_rvalue, spec_enter_decl,
};
use crate::elab::{
    Elaborator, spec_build_pointer_views, spec_elab_all, spec_elab_all_types, spec_elab_decl,
    spec_elab_decl_types, spec_elab_fn_decl, spec_elab_global, spec_elab_let,
    spec_elab_rec_signature, spec_elab_signature, spec_elab_struct, spec_elab_type,
    spec_elab_type_node, spec_elab_typedef, spec_elab_types, spec_elab_union, spec_elab_unit,
    spec_lower_expr, spec_maybe_apply_view, spec_mk_decl, spec_mk_if, spec_mk_stmt,
    spec_settled_kind, spec_with_signature,
};
use std::rc::Rc;
use vstd::prelude::*;

verus! {

/// Whether the type is a refinement, or says that there is no ownership or may be null.
pub open spec fn is_refined(ty: Rc<Type>) -> bool {
    match ty.val {
        TypeT::Refine(_, _) | TypeT::RefineAlways(_, _) | TypeT::RefineUninit(_, _) => true,
        TypeT::RefineValue(_, _, _, _) => true,
        TypeT::Plain(_) | TypeT::Nullable(_) => true,
        _ => false,
    }
}

/// Whether the type is a reference to a typedef.
pub open spec fn is_typedef_ref(ty: Rc<Type>) -> bool {
    ty.val matches TypeT::TypeRef(TypeRefKind::Typedef(_))
}

/// The shape of a type is never refined.
proof fn lemma_whnf_within(env: Env, ty: Rc<Type>, fuel: u64)
    ensures
        !is_refined(spec_whnf_within(env, ty, fuel)),
    decreases fuel, ty,
{
    match ty.val {
        TypeT::Refine(t, _) | TypeT::RefineAlways(t, _) | TypeT::RefineUninit(t, _) => lemma_whnf_within(env, t, fuel),
        TypeT::RefineValue(t, _, _, _) => lemma_whnf_within(env, t, fuel),
        TypeT::Plain(t) | TypeT::Nullable(t) => lemma_whnf_within(env, t, fuel),
        TypeT::TypeRef(TypeRefKind::Typedef(n)) => match spec_find_typedef(env.typedefs, n) {
            Some(d) => {
                if fuel > 0 {
                    lemma_whnf_within(env, typedef_body(d), spec_drop_one(fuel));
                }
            },
            None => {},
        },
        _ => {},
    }
}

/// The body of a typedef.
pub open spec fn typedef_body(d: Rc<TypeDefn>) -> Rc<Type> {
    d.body
}

/// The shape of a type is never refined, and, unless it is the name of a typedef, it is its own
/// shape.
pub proof fn law_shapes_are_plain(env: Env, ty: Rc<Type>)
    ensures
        !is_refined(spec_vtype_whnf(env, ty)),
        !is_typedef_ref(spec_vtype_whnf(env, ty)) ==> spec_vtype_whnf(env, spec_vtype_whnf(env, ty)) == spec_vtype_whnf(env, ty),
{
    reveal(spec_vtype_whnf);
    lemma_whnf_within(env, ty, spec_list_len(env.typedefs));
}

/// Comparing types does not depend on their order.
proof fn lemma_vtype_eq_sym(env: Env, a: Rc<Type>, b: Rc<Type>, fuel: u64)
    ensures
        spec_vtype_eq_within(env, a, b, fuel) == spec_vtype_eq_within(env, b, a, fuel),
    decreases fuel,
{
    if fuel > 0 {
        reveal(spec_same_name);
        match spec_vtype_whnf(env, a).val {
            TypeT::Pointer(s, _) => match spec_vtype_whnf(env, b).val {
                TypeT::Pointer(t, _) => lemma_vtype_eq_sym(env, s, t, spec_drop_one(fuel)),
                _ => {},
            },
            TypeT::FixedArray(s, _) => match spec_vtype_whnf(env, b).val {
                TypeT::FixedArray(t, _) => lemma_vtype_eq_sym(env, s, t, spec_drop_one(fuel)),
                _ => {},
            },
            TypeT::FlexArray(s) => match spec_vtype_whnf(env, b).val {
                TypeT::FlexArray(t) => lemma_vtype_eq_sym(env, s, t, spec_drop_one(fuel)),
                _ => {},
            },
            TypeT::FnPtr { args: l, ret: s } => match spec_vtype_whnf(env, b).val {
                TypeT::FnPtr { args: m, ret: t } => {
                    lemma_vtypes_eq_sym(env, l, m, spec_drop_one(fuel));
                    lemma_vtype_eq_sym(env, s, t, spec_drop_one(fuel));
                },
                _ => {},
            },
            _ => {},
        }
    }
}

/// Comparing types one by one does not depend on their order.
proof fn lemma_vtypes_eq_sym(env: Env, a: Rc<List<Type>>, b: Rc<List<Type>>, fuel: u64)
    ensures
        spec_vtypes_eq_within(env, a, b, fuel) == spec_vtypes_eq_within(env, b, a, fuel),
    decreases fuel, a,
{
    match *a {
        List::Cons(x, s) => match *b {
            List::Cons(y, t) => {
                if fuel > 0 {
                    lemma_vtype_eq_sym(env, x, y, spec_drop_one(fuel));
                }
                lemma_vtypes_eq_sym(env, s, t, fuel);
            },
            _ => {},
        },
        _ => {},
    }
}

/// Whether two types have the same values does not depend on which comes first.
pub proof fn law_type_equality_is_symmetric(env: Env, a: Rc<Type>, b: Rc<Type>)
    ensures
        spec_vtype_eq(env, a, b) == spec_vtype_eq(env, b, a),
{
    reveal(spec_vtype_eq);
    reveal(spec_plus);
    let typedefs = spec_plus(spec_typedefs_size(env.typedefs), spec_typedefs_size(env.typedefs));
    let fuel = spec_bump(spec_plus(spec_plus(spec_type_size(a), spec_type_size(b)), typedefs));
    lemma_vtype_eq_sym(env, a, b, fuel);
}

/// How deep a type is: its layers, also those of what a function pointer takes and gives.
pub open spec fn layers(ty: Rc<Type>) -> nat
    decreases ty, 1nat,
{
    match ty.val {
        TypeT::Pointer(t, _) | TypeT::FixedArray(t, _) | TypeT::FlexArray(t) | TypeT::Plain(t) | TypeT::Nullable(t) => 1 + layers(t),
        TypeT::Refine(t, _) | TypeT::RefineAlways(t, _) | TypeT::RefineUninit(t, _) => 1 + layers(t),
        TypeT::RefineValue(t, _, u, _) => 1 + layers(t) + layers(u),
        TypeT::FnPtr { args, ret } => 1 + layers_of_all(args) + layers(ret),
        _ => 1,
    }
}

/// The layers of types.
pub open spec fn layers_of_all(l: Rc<List<Type>>) -> nat
    decreases l, 0nat,
{
    match *l {
        List::Nil => 0,
        List::Cons(h, t) => layers(h) + layers_of_all(t),
    }
}

/// Whether every pointer among the layers of a type has a kind.
pub open spec fn kinds_are_set(ty: Rc<Type>) -> bool
    decreases ty, 1nat,
{
    match ty.val {
        TypeT::Pointer(t, k) => k != PointerKind::Unknown && kinds_are_set(t),
        TypeT::FixedArray(t, _) | TypeT::FlexArray(t) | TypeT::Plain(t) | TypeT::Nullable(t) => kinds_are_set(t),
        TypeT::Refine(t, _) | TypeT::RefineAlways(t, _) | TypeT::RefineUninit(t, _) => kinds_are_set(t),
        TypeT::RefineValue(t, _, u, _) => kinds_are_set(t) && kinds_are_set(u),
        TypeT::FnPtr { args, ret } => all_kinds_are_set(args) && kinds_are_set(ret),
        _ => true,
    }
}

/// Whether every pointer among the layers of types has a kind.
pub open spec fn all_kinds_are_set(l: Rc<List<Type>>) -> bool
    decreases l, 0nat,
{
    match *l {
        List::Nil => true,
        List::Cons(h, t) => kinds_are_set(h) && all_kinds_are_set(t),
    }
}

/// After elaboration every pointer among the layers of a type has a kind: none is left open.
pub proof fn law_elaborated_pointers_have_a_kind(st: Elaborator, env: Env, ty: Rc<Type>, fuel: u64)
    requires
        layers(ty) <= fuel,
    ensures
        kinds_are_set(spec_elab_type(st, env, ty, fuel).1),
    decreases fuel, 0nat,
{
    reveal(spec_settled_kind);
    reveal(spec_mk_type);
    reveal(spec_with_inner);
    reveal(spec_with_inner_and_fact);
    reveal(spec_maybe_apply_view);
    let (st1, v) = spec_maybe_apply_view(st, env, ty);
    let less = spec_drop_one(fuel);
    assert(spec_elab_type(st, env, ty, fuel) == spec_elab_type_node(st1, env, v, less));
    match v.val {
        TypeT::Pointer(t, _) | TypeT::FixedArray(t, _) | TypeT::FlexArray(t) | TypeT::Nullable(t) => {
            law_elaborated_pointers_have_a_kind(st1, env, t, less);
        },
        TypeT::Plain(t) => law_elaborated_pointers_have_a_kind(Elaborator { suppress_next_view: true, ..st1 }, env, t, less),
        TypeT::FnPtr { args, ret } => {
            lemma_elaborated_types_have_kinds(st1, env, args, less);
            law_elaborated_pointers_have_a_kind(spec_elab_types(st1, env, args, less).0, env, ret, less);
        },
        TypeT::Refine(t, _) | TypeT::RefineAlways(t, _) | TypeT::RefineUninit(t, _) => {
            law_elaborated_pointers_have_a_kind(st1, env, t, less);
        },
        TypeT::RefineValue(t, x, u, p) => {
            law_elaborated_pointers_have_a_kind(st1, env, t, less);
            law_elaborated_pointers_have_a_kind(spec_elab_type(st1, env, t, less).0, env, u, less);
        },
        _ => {},
    }
}

/// After elaboration every pointer among the layers of types has a kind.
proof fn lemma_elaborated_types_have_kinds(st: Elaborator, env: Env, l: Rc<List<Type>>, fuel: u64)
    requires
        layers_of_all(l) <= fuel,
    ensures
        all_kinds_are_set(spec_elab_types(st, env, l, fuel).1),
    decreases fuel, 1nat, l,
{
    match *l {
        List::Nil => {},
        List::Cons(h, t) => {
            law_elaborated_pointers_have_a_kind(st, env, h, fuel);
            lemma_elaborated_types_have_kinds(spec_elab_type(st, env, h, fuel).0, env, t, fuel);
        },
    }
}

/// Whether no layer of a type is a refinement.
pub open spec fn is_unrefined(ty: Rc<Type>) -> bool
    decreases ty, 1nat,
{
    match ty.val {
        TypeT::Pointer(t, _) | TypeT::FixedArray(t, _) | TypeT::FlexArray(t) | TypeT::Plain(t) | TypeT::Nullable(t) => is_unrefined(t),
        TypeT::Refine(_, _) | TypeT::RefineAlways(_, _) | TypeT::RefineUninit(_, _) => false,
        TypeT::RefineValue(_, _, _, _) => false,
        TypeT::FnPtr { args, ret } => all_unrefined(args) && is_unrefined(ret),
        _ => true,
    }
}

/// Whether no layer of types is a refinement.
pub open spec fn all_unrefined(l: Rc<List<Type>>) -> bool
    decreases l, 0nat,
{
    match *l {
        List::Nil => true,
        List::Cons(h, t) => is_unrefined(h) && all_unrefined(t),
    }
}

/// The type with every open kind of pointer set: `void *` is a raw pointer, and any other points
/// to one object.
pub open spec fn with_kinds(ty: Rc<Type>) -> Rc<Type>
    decreases ty, 1nat,
{
    match ty.val {
        TypeT::Pointer(t, k) => Rc::new(Type {
            loc: ty.loc,
            val: TypeT::Pointer(
                with_kinds(t),
                if k != PointerKind::Unknown {
                    k
                } else if t.val is Void {
                    PointerKind::Core
                } else {
                    PointerKind::Ref
                },
            ),
        }),
        TypeT::FixedArray(t, n) => Rc::new(Type { loc: ty.loc, val: TypeT::FixedArray(with_kinds(t), n) }),
        TypeT::FlexArray(t) => Rc::new(Type { loc: ty.loc, val: TypeT::FlexArray(with_kinds(t)) }),
        TypeT::Plain(t) => Rc::new(Type { loc: ty.loc, val: TypeT::Plain(with_kinds(t)) }),
        TypeT::Nullable(t) => Rc::new(Type { loc: ty.loc, val: TypeT::Nullable(with_kinds(t)) }),
        TypeT::FnPtr { args, ret } => Rc::new(Type { loc: ty.loc, val: TypeT::FnPtr { args: all_with_kinds(args), ret: with_kinds(ret) } }),
        _ => ty,
    }
}

/// The types with every open kind of pointer set.
pub open spec fn all_with_kinds(l: Rc<List<Type>>) -> Rc<List<Type>>
    decreases l, 0nat,
{
    match *l {
        List::Nil => l,
        List::Cons(h, t) => Rc::new(List::Cons(with_kinds(h), all_with_kinds(t))),
    }
}

/// Without views, elaborating a type without refinements sets the kinds that are open, and does
/// nothing else: kinds that are set stay, and nothing is reported.
pub proof fn law_elaboration_sets_open_kinds(st: Elaborator, env: Env, ty: Rc<Type>, fuel: u64)
    requires
        is_unrefined(ty),
        *st.pointer_views is Nil,
        layers(ty) <= fuel,
    ensures
        spec_elab_type(st, env, ty, fuel) == (Elaborator { suppress_next_view: false, ..st }, with_kinds(ty)),
    decreases fuel, 0nat,
{
    reveal(spec_settled_kind);
    reveal(spec_mk_type);
    reveal(spec_with_inner);
    reveal(spec_maybe_apply_view);
    let (st1, v) = spec_maybe_apply_view(st, env, ty);
    let less = spec_drop_one(fuel);
    assert(v == ty);
    assert(spec_elab_type(st, env, ty, fuel) == spec_elab_type_node(st1, env, ty, less));
    match ty.val {
        TypeT::Pointer(t, _) | TypeT::FixedArray(t, _) | TypeT::FlexArray(t) | TypeT::Nullable(t) => {
            law_elaboration_sets_open_kinds(st1, env, t, less);
        },
        TypeT::Plain(t) => law_elaboration_sets_open_kinds(Elaborator { suppress_next_view: true, ..st1 }, env, t, less),
        TypeT::FnPtr { args, ret } => {
            lemma_elaboration_sets_all(st1, env, args, less);
            law_elaboration_sets_open_kinds(st1, env, ret, less);
        },
        _ => {},
    }
}

/// The same for types.
proof fn lemma_elaboration_sets_all(st: Elaborator, env: Env, l: Rc<List<Type>>, fuel: u64)
    requires
        all_unrefined(l),
        *st.pointer_views is Nil,
        !st.suppress_next_view,
        layers_of_all(l) <= fuel,
    ensures
        spec_elab_types(st, env, l, fuel) == (st, all_with_kinds(l)),
    decreases fuel, 1nat, l,
{
    match *l {
        List::Nil => {},
        List::Cons(h, t) => {
            law_elaboration_sets_open_kinds(st, env, h, fuel);
            lemma_elaboration_sets_all(st, env, t, fuel);
        },
    }
}

/// A type whose kinds are set has no open ones, so that setting them again changes nothing.
pub proof fn law_setting_kinds_twice_is_setting_them_once(ty: Rc<Type>)
    requires
        is_unrefined(ty),
    ensures
        kinds_are_set(with_kinds(ty)),
        is_unrefined(with_kinds(ty)),
        layers(with_kinds(ty)) == layers(ty),
        with_kinds(with_kinds(ty)) == with_kinds(ty),
    decreases ty, 1nat,
{
    match ty.val {
        TypeT::Pointer(t, _) | TypeT::FixedArray(t, _) | TypeT::FlexArray(t) | TypeT::Plain(t) | TypeT::Nullable(t) => {
            law_setting_kinds_twice_is_setting_them_once(t);
        },
        TypeT::FnPtr { args, ret } => {
            lemma_setting_all_twice(args);
            law_setting_kinds_twice_is_setting_them_once(ret);
        },
        _ => {},
    }
}

/// The same for types.
proof fn lemma_setting_all_twice(l: Rc<List<Type>>)
    requires
        all_unrefined(l),
    ensures
        all_kinds_are_set(all_with_kinds(l)),
        all_unrefined(all_with_kinds(l)),
        layers_of_all(all_with_kinds(l)) == layers_of_all(l),
        all_with_kinds(all_with_kinds(l)) == all_with_kinds(l),
    decreases l, 0nat,
{
    match *l {
        List::Nil => {},
        List::Cons(h, t) => {
            law_setting_kinds_twice_is_setting_them_once(h);
            lemma_setting_all_twice(t);
        },
    }
}

/// Elaborating such a type a second time changes nothing.
pub proof fn law_elaborating_a_type_twice_changes_nothing(st: Elaborator, env: Env, ty: Rc<Type>, fuel: u64)
    requires
        is_unrefined(ty),
        *st.pointer_views is Nil,
        layers(ty) <= fuel,
    ensures
        ({
            let (st1, once) = spec_elab_type(st, env, ty, fuel);
            spec_elab_type(st1, env, once, fuel) == (st1, once)
        }),
{
    law_elaboration_sets_open_kinds(st, env, ty, fuel);
    law_setting_kinds_twice_is_setting_them_once(ty);
    let (st1, once) = spec_elab_type(st, env, ty, fuel);
    law_elaboration_sets_open_kinds(st1, env, once, fuel);
}

/// Whether the expression is a conditional one.
pub open spec fn is_cond(e: Rc<Expr>) -> bool {
    e.val is Cond
}

/// After elaboration no statement assigns, returns or only computes a conditional expression: it
/// is a conditional statement, with the same condition and the two values in its branches.
pub proof fn law_conditional_values_become_statements(s: Rc<Stmt>)
    ensures
        match s.val {
            StmtT::Assign(x, v) => is_cond(v) ==> spec_lower_expr(s).val is If,
            StmtT::Return(Some(v)) => is_cond(v) ==> spec_lower_expr(s).val is If,
            StmtT::Call(v) => is_cond(v) ==> spec_lower_expr(s).val is If,
            _ => spec_lower_expr(s) == s,
        },
        match spec_lower_expr(s).val {
            StmtT::Assign(x, v) => !is_cond(v),
            StmtT::Return(Some(v)) => !is_cond(v),
            StmtT::Call(v) => !is_cond(v),
            _ => true,
        },
{
    reveal(spec_lower_expr);
    reveal(spec_mk_if);
    reveal(spec_mk_stmt);
}

/// What holds the residue of an error is not checked: the error was reported already.
pub proof fn law_residues_are_not_reported_again(st: Checker, env: Env, e: Rc<Expr>, expected: Rc<Type>)
    requires
        spec_contains_error(e),
    ensures
        spec_check_rvalue(st, env, e) == st,
        spec_check_lvalue(st, env, e) == st,
        spec_check_has_type(st, env, e, expected) == st,
{
    reveal(spec_check_has_type);
}

/// Elaborating the types of a declaration keeps what it declares.
proof fn lemma_elab_decl_types(st: Elaborator, env: Env, d: Rc<Decl>)
    ensures
        spec_same_decl_key(spec_elab_decl_types(st, env, d).1, d),
{
    reveal(spec_same_decl_key);
    reveal(spec_decl_kind);
    reveal(spec_decl_text);
    reveal(spec_mk_decl);
    reveal(spec_elab_decl_types);
    reveal(spec_elab_signature);
    reveal(spec_with_signature);
    reveal(spec_elab_typedef);
    reveal(spec_elab_struct);
    reveal(spec_elab_union);
    reveal(spec_elab_global);
}

/// Elaborating a declaration keeps what it declares.
proof fn lemma_elab_decl(st: Elaborator, env: Env, d: Rc<Decl>)
    ensures
        spec_same_decl_key(spec_elab_decl(st, env, d).1, d),
        spec_same_decl_key(spec_elab_rec_signature(st, env, d).1, d),
{
    reveal(spec_same_decl_key);
    reveal(spec_decl_kind);
    reveal(spec_decl_text);
    reveal(spec_mk_decl);
    reveal(spec_elab_decl);
    reveal(spec_elab_rec_signature);
    reveal(spec_elab_fn_decl);
    reveal(spec_elab_typedef);
    reveal(spec_elab_struct);
    reveal(spec_elab_union);
    reveal(spec_elab_let);
    reveal(spec_elab_global);
}

/// Whether two lists declare the same things in the same order.
pub open spec fn same_decls(a: Rc<List<Decl>>, b: Rc<List<Decl>>) -> bool {
    &&& a.items().len() == b.items().len()
    &&& forall|i: int| 0 <= i < a.items().len() ==> spec_same_decl_key(#[trigger] a.items()[i], b.items()[i])
}

/// Lists declare the same things where their heads and tails do.
proof fn lemma_same_decls(a: Rc<List<Decl>>, b: Rc<List<Decl>>, h: Rc<Decl>, k: Rc<Decl>, s: Rc<List<Decl>>, t: Rc<List<Decl>>)
    requires
        *a == List::Cons(h, s),
        *b == List::Cons(k, t),
        spec_same_decl_key(h, k),
        same_decls(s, t),
    ensures
        same_decls(a, b),
{
    assert(a.items() == seq![h] + s.items());
    assert(b.items() == seq![k] + t.items());
    assert forall|i: int| 0 <= i < a.items().len() implies spec_same_decl_key(#[trigger] a.items()[i], b.items()[i]) by {
        if i > 0 {
            assert(a.items()[i] == s.items()[i - 1]);
        }
    }
}

/// Elaborating all types keeps what is declared.
proof fn lemma_elab_all_types(st: Elaborator, env: Env, l: Rc<List<Decl>>)
    ensures
        same_decls(spec_elab_all_types(st, env, l).1, l),
    decreases l,
{
    match *l {
        List::Nil => {},
        List::Cons(h, t) => {
            lemma_elab_decl_types(st, env, h);
            let (st1, d) = spec_elab_decl_types(st, env, h);
            let env1 = spec_push_decl(env, d);
            lemma_elab_all_types(st1, env1, t);
            lemma_same_decls(spec_elab_all_types(st, env, l).1, l, d, h, spec_elab_all_types(st1, env1, t).1, t);
        },
    }
}

/// Elaborating all declarations keeps what is declared.
proof fn lemma_elab_all(st: Elaborator, env: Env, l: Rc<List<Decl>>)
    ensures
        same_decls(spec_elab_all(st, env, l).1, l),
    decreases l,
{
    reveal(spec_same_decl_key);
    match *l {
        List::Nil => {},
        List::Cons(h, t) => {
            lemma_elab_decl(st, env, h);
            let (st1, d) = spec_elab_rec_signature(st, env, h);
            let env1 = spec_enter_decl(env, d);
            lemma_elab_decl(st1, env1, d);
            let (st2, r) = spec_elab_decl(st1, env1, d);
            let env2 = spec_push_decl(env1, r);
            lemma_elab_all(st2, env2, t);
            lemma_same_decls(spec_elab_all(st, env, l).1, l, r, h, spec_elab_all(st2, env2, t).1, t);
        },
    }
}

/// Elaboration keeps what is declared, and in which order.
pub proof fn law_elaboration_keeps_declarations(st: Elaborator, l: Rc<List<Decl>>)
    ensures
        same_decls(spec_elab_unit(st, l).1, l),
{
    reveal(spec_elab_unit);
    reveal(spec_same_decl_key);
    let env = spec_push_decls(spec_empty_env(), l);
    let st1 = spec_build_pointer_views(st, env, l);
    lemma_elab_all_types(st1, env, l);
    let (st2, typed) = spec_elab_all_types(st1, env, l);
    lemma_elab_all(st2, spec_push_decls(env, typed), typed);
    let r = spec_elab_unit(st, l).1;
    assert forall|i: int| 0 <= i < r.items().len() implies spec_same_decl_key(#[trigger] r.items()[i], l.items()[i]) by {
        assert(spec_same_decl_key(typed.items()[i], l.items()[i]));
    }
}

} // verus!
