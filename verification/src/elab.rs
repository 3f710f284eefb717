//! Elaboration: pointer kinds are settled, conversions are made explicit, and notation of
//! specifications is resolved.

use crate::list::{
    List, cons, drop_one, l1, lemma_items_list_of, list_append, list_len, list_of, nil, spec_cons,
    spec_drop_one, spec_l1, spec_list_append, spec_list_len, spec_nil,
};
use crate::text::{
    IntValue, Text, cat, cat3, cat4, cat5, lit, spec_cat, spec_cat3, spec_cat4, spec_cat5,
    spec_lit, spec_text_is, spec_text_starts_with, text_is, text_starts_with,
};
use crate::ir::{
    BinOp, Branch, Decl, DeclT, Expr, ExprT, Field, FieldInit, FieldT, FnArg, FnDecl, FnDefn,
    GhostArg, GlobalVar, Ident, IncludeDecl, InlinePulseCode, InlinePulseToken, LetDecl, Loc,
    OpaqueTypeDecl, PointerKind, Stmt, StmtT, StructDefn, TranslationUnit, Type, TypeDefn,
    TypeRefKind, TypeT, UnOp, UnionDefn, VAttr, clone_kind, field_name, field_type, find_field,
    mk_expr, mk_type, same_name, show_binop, show_expr, show_type, spec_clone_kind,
    spec_field_name, spec_field_type, spec_find_field, spec_mk_expr, spec_mk_type, spec_same_name,
    spec_show_binop, spec_show_expr, spec_show_type, spec_with_child, spec_with_child_and_type,
    spec_with_children, spec_with_inner, spec_with_inner_and_fact, spec_with_list,
    spec_with_three, spec_with_type_only, with_child, with_child_and_type, with_children,
    with_inner, with_inner_and_fact, with_list, with_three, with_type_only,
};
use crate::diag::{Diagnostic, Diagnostics, extends, mk_error, spec_mk_error};
use crate::env::{
    Env, LocalDeclKind, arg_types, array_elem, empty_env, find_typedef, infer_error, infer_expr,
    infer_whnf, is_addressable, is_bool, is_lvalue, is_slprop, lookup_fn, lookup_struct,
    lookup_union, meet_type, plus, push_arg, push_args, push_decl, push_declared, push_decls,
    push_fn_decl_args_for_body, push_ghost_args, push_return, push_stmt, push_this, push_var_decl,
    show_env, spec_arg_types, spec_array_elem, spec_empty_env, spec_find_typedef,
    spec_infer_error, spec_infer_expr, spec_infer_whnf, spec_is_addressable, spec_is_bool,
    spec_is_lvalue, spec_is_slprop, spec_lookup_fn, spec_lookup_struct, spec_lookup_union,
    spec_meet_type, spec_plus, spec_push_arg, spec_push_args, spec_push_decl, spec_push_declared,
    spec_push_decls, spec_push_fn_decl_args_for_body, spec_push_ghost_args, spec_push_return,
    spec_push_stmt, spec_push_this, spec_push_var_decl, spec_show_env,
    spec_type_has_flex_array_member, spec_vtype_eq, spec_vtype_whnf, type_has_flex_array_member,
    vtype_eq, vtype_whnf,
};
use crate::names::{TypeRef, same_type_ref, spec_same_type_ref, spec_type_ref, type_ref};
use crate::emit_exprs::{
    is_array_pointer, is_pointer, is_zero_literal, pointer_kind, spec_is_array_pointer,
    spec_is_pointer, spec_is_zero_literal, spec_pointer_kind, spec_union_of, union_of,
};
use crate::rename::{clone_opt_ident, spec_clone_opt_ident};
use crate::merge::{Match, clone_opt_expr, spec_clone_opt_expr};
use crate::check::{enter_decl, field_env, spec_enter_decl, spec_field_env};
use crate::laws_types::{law_elaboration_keeps_declarations, same_decls};
use std::rc::Rc;
use vstd::prelude::*;

verus! {

broadcast use crate::diag::lemma_extends_trans;

/// The typedef that pointers to a type are taken as by default.
pub struct PointerView {
    pub key: TypeRef,
    pub name: Rc<Ident>,
}

/// What elaboration carries along.
pub struct Elaborator {
    pub diags: Rc<List<Diagnostic>>,
    pub pointer_views: Rc<List<PointerView>>,
    /// Inside inline code pointers stay as they are.
    pub in_inline_pulse: bool,
    /// Inside the body of a view its own pointer stays as it is.
    pub in_view_body: bool,
    /// Right behind `_plain` a pointer stays as it is.
    pub suppress_next_view: bool,
}

/// An expression that is elaborated, or one to be elaborated once more.
pub enum Step {
    Done(Rc<Expr>),
    Redo(Rc<Expr>),
}

/// A named type with its typedefs resolved to the struct or union behind them, following `fuel`
/// typedefs at most.
pub open spec fn spec_canon_within(env: Env, k: TypeRefKind, fuel: u64) -> TypeRef
    decreases fuel,
{
    match k {
        TypeRefKind::Typedef(n) => {
            if fuel == 0 {
                spec_type_ref(k)
            } else {
                match spec_find_typedef(env.typedefs, n) {
                    Some(d) => {
                        match d.body.val {
                            TypeT::TypeRef(inner) => spec_canon_within(env, inner, spec_drop_one(fuel)),
                            _ => spec_type_ref(k),
                        }
                    },
                    None => spec_type_ref(k),
                }
            }
        },
        _ => spec_type_ref(k),
    }
}

/// A named type with its typedefs resolved to the struct or union behind them, following `fuel`
/// typedefs at most.
pub fn canon_within(env: &Env, k: &TypeRefKind, fuel: u64) -> (out: TypeRef)
    ensures
        out == spec_canon_within(*env, *k, fuel),
    decreases fuel,
{
    match k {
        TypeRefKind::Typedef(n) => if fuel == 0 {
            type_ref(k)
        } else {
            match find_typedef(&env.typedefs, n) {
                Some(d) => match &d.body.val {
                    TypeT::TypeRef(inner) => canon_within(env, inner, drop_one(fuel)),
                    _ => type_ref(k),
                },
                None => type_ref(k),
            }
        },
        _ => type_ref(k),
    }
}

/// A named type with its typedefs resolved, so that `node *` and `struct node *` have the same
/// view.
#[verifier::opaque]
pub open spec fn spec_canon(env: Env, k: TypeRefKind) -> TypeRef
{
    spec_canon_within(env, k, spec_list_len(env.typedefs))
}

/// A named type with its typedefs resolved, so that `node *` and `struct node *` have the same
/// view.
pub fn canon(env: &Env, k: &TypeRefKind) -> (out: TypeRef)
    ensures
        out == spec_canon(*env, *k),
{
    proof {
        reveal(spec_canon);
    }
    canon_within(env, k, list_len(&env.typedefs))
}

/// The view of a type.
pub open spec fn spec_find_view(l: Rc<List<PointerView>>, key: TypeRef) -> Option<Rc<Ident>>
    decreases l,
{
    match *l {
        List::Nil => None,
        List::Cons(h, t) => {
            if spec_same_type_ref(h.key, key) {
                Some(h.name)
            } else {
                spec_find_view(t, key)
            }
        },
    }
}

/// The view of a type.
pub fn find_view(l: &Rc<List<PointerView>>, key: &TypeRef) -> (out: Option<Rc<Ident>>)
    ensures
        out == spec_find_view(*l, *key),
    decreases l,
{
    match &**l {
        List::Nil => None,
        List::Cons(h, t) => if same_type_ref(&h.key, key) { Some(h.name.clone()) } else { find_view(t, key) },
    }
}

/// A cast.
#[verifier::opaque]
pub open spec fn spec_cast_expr(e: Rc<Expr>, ty: Rc<Type>) -> Rc<Expr>
{
    spec_mk_expr(e.loc, ExprT::Cast(e, ty))
}

/// A cast.
pub fn cast_expr(e: &Rc<Expr>, ty: Rc<Type>) -> (out: Rc<Expr>)
    ensures
        out == spec_cast_expr(*e, ty),
{
    proof {
        reveal(spec_cast_expr);
    }
    mk_expr(&e.loc, ExprT::Cast(e.clone(), ty))
}

/// The expression at the given type, cast where it has another.
#[verifier::opaque]
pub open spec fn spec_cast_if_needed(env: Env, e: Rc<Expr>, ty: Rc<Type>) -> Rc<Expr>
{
    match spec_infer_expr(env, e) {
        Some(t) => {
            if spec_vtype_eq(env, t, ty) {
                e
            } else {
                spec_cast_expr(e, ty)
            }
        },
        None => e,
    }
}

/// The expression at the given type, cast where it has another.
pub fn cast_if_needed(env: &Env, e: &Rc<Expr>, ty: &Rc<Type>) -> (out: Rc<Expr>)
    ensures
        out == spec_cast_if_needed(*env, *e, *ty),
{
    proof {
        reveal(spec_cast_if_needed);
    }
    match infer_expr(env, e) {
        Some(t) => if vtype_eq(env, &t, ty) { e.clone() } else { cast_expr(e, ty.clone()) },
        None => e.clone(),
    }
}

/// The expression as a `size_t`, cast where it has another type.
#[verifier::opaque]
pub open spec fn spec_as_size(env: Env, e: Rc<Expr>) -> Rc<Expr>
{
    match spec_infer_whnf(env, e) {
        Some(t) => {
            if matches!(t.val, TypeT::SizeT) {
                e
            } else {
                spec_cast_expr(e, spec_mk_type(e.loc, TypeT::SizeT))
            }
        },
        None => e,
    }
}

/// The expression as a `size_t`, cast where it has another type.
pub fn as_size(env: &Env, e: &Rc<Expr>) -> (out: Rc<Expr>)
    ensures
        out == spec_as_size(*env, *e),
{
    proof {
        reveal(spec_as_size);
    }
    match infer_whnf(env, e) {
        Some(t) => if matches!(&t.val, TypeT::SizeT) { e.clone() } else { cast_expr(e, mk_type(&e.loc, TypeT::SizeT)) },
        None => e.clone(),
    }
}

/// The expression as a proposition, cast unless it is one.
#[verifier::opaque]
pub open spec fn spec_as_slprop(env: Env, e: Rc<Expr>) -> Rc<Expr>
{
    match spec_infer_expr(env, e) {
        Some(t) => {
            if spec_is_slprop(env, t) {
                e
            } else {
                spec_cast_expr(e, spec_mk_type(e.loc, TypeT::SLProp))
            }
        },
        None => spec_cast_expr(e, spec_mk_type(e.loc, TypeT::SLProp)),
    }
}

/// The expression as a proposition, cast unless it is one.
pub fn as_slprop(env: &Env, e: &Rc<Expr>) -> (out: Rc<Expr>)
    ensures
        out == spec_as_slprop(*env, *e),
{
    proof {
        reveal(spec_as_slprop);
    }
    match infer_expr(env, e) {
        Some(t) => if is_slprop(env, &t) { e.clone() } else { cast_expr(e, mk_type(&e.loc, TypeT::SLProp)) },
        None => cast_expr(e, mk_type(&e.loc, TypeT::SLProp)),
    }
}

/// The expression as a truth value, cast unless it is one.
#[verifier::opaque]
pub open spec fn spec_as_bool(env: Env, e: Rc<Expr>) -> Rc<Expr>
{
    match spec_infer_expr(env, e) {
        Some(t) => {
            if spec_is_bool(env, t) {
                e
            } else {
                spec_cast_expr(e, spec_mk_type(e.loc, TypeT::Bool))
            }
        },
        None => spec_cast_expr(e, spec_mk_type(e.loc, TypeT::Bool)),
    }
}

/// The expression as a truth value, cast unless it is one.
pub fn as_bool(env: &Env, e: &Rc<Expr>) -> (out: Rc<Expr>)
    ensures
        out == spec_as_bool(*env, *e),
{
    proof {
        reveal(spec_as_bool);
    }
    match infer_expr(env, e) {
        Some(t) => if is_bool(env, &t) { e.clone() } else { cast_expr(e, mk_type(&e.loc, TypeT::Bool)) },
        None => cast_expr(e, mk_type(&e.loc, TypeT::Bool)),
    }
}

/// A measure as a mathematical integer: machine integers are not well-founded.
#[verifier::opaque]
pub open spec fn spec_as_measure(env: Env, e: Rc<Expr>) -> Rc<Expr>
{
    match spec_infer_whnf(env, e) {
        Some(t) => {
            match t.val {
                TypeT::Int { .. } => spec_cast_expr(e, spec_mk_type(e.loc, TypeT::SpecInt)),
                TypeT::SizeT => spec_cast_expr(e, spec_mk_type(e.loc, TypeT::SpecInt)),
                TypeT::PtrdiffT => spec_cast_expr(e, spec_mk_type(e.loc, TypeT::SpecInt)),
                _ => e,
            }
        },
        None => e,
    }
}

/// A measure as a mathematical integer: machine integers are not well-founded.
pub fn as_measure(env: &Env, e: &Rc<Expr>) -> (out: Rc<Expr>)
    ensures
        out == spec_as_measure(*env, *e),
{
    proof {
        reveal(spec_as_measure);
    }
    match infer_whnf(env, e) {
        Some(t) => match &t.val {
            TypeT::Int { .. } => cast_expr(e, mk_type(&e.loc, TypeT::SpecInt)),
            TypeT::SizeT => cast_expr(e, mk_type(&e.loc, TypeT::SpecInt)),
            TypeT::PtrdiffT => cast_expr(e, mk_type(&e.loc, TypeT::SpecInt)),
            _ => e.clone(),
        },
        None => e.clone(),
    }
}

/// The fields of a record type.
#[verifier::opaque]
pub open spec fn spec_record_fields(env: Env, k: TypeRefKind) -> Option<Rc<List<Field>>>
{
    match k {
        TypeRefKind::Struct(n) => {
            match spec_lookup_struct(env, n) {
                Some(d) => Some(d.fields),
                None => None,
            }
        },
        TypeRefKind::Union(n) => {
            match spec_lookup_union(env, n) {
                Some(d) => Some(d.fields),
                None => None,
            }
        },
        TypeRefKind::Typedef(_) => None,
    }
}

/// The fields of a record type.
pub fn record_fields(env: &Env, k: &TypeRefKind) -> (out: Option<Rc<List<Field>>>)
    ensures
        out == spec_record_fields(*env, *k),
{
    proof {
        reveal(spec_record_fields);
    }
    match k {
        TypeRefKind::Struct(n) => match lookup_struct(env, n) {
            Some(d) => Some(d.fields.clone()),
            None => None,
        },
        TypeRefKind::Union(n) => match lookup_union(env, n) {
            Some(d) => Some(d.fields.clone()),
            None => None,
        },
        TypeRefKind::Typedef(_) => None,
    }
}

/// The way to a field through anonymous members of a record: the members on it, or none where
/// the record has the field itself. Each step enters a record, so it takes no more than `fuel`
/// of them.
///
/// A specification writes such an access as if the field were a direct one.
pub open spec fn spec_indirect_field_path(
    env: Env,
    k: TypeRefKind,
    target: Rc<Ident>,
    fuel: u64,
) -> Option<Rc<List<Ident>>>
    decreases fuel, 1nat,
{
    match spec_record_fields(env, k) {
        Some(fields) => {
            if spec_find_field(fields, target).is_some() {
                Some(spec_nil())
            } else {
                if fuel == 0 {
                    None
                } else {
                    spec_path_through(env, fields, target, spec_drop_one(fuel))
                }
            }
        },
        None => None,
    }
}

/// The way to a field through anonymous members of a record: the members on it, or none where
/// the record has the field itself. Each step enters a record, so it takes no more than `fuel`
/// of them.
///
/// A specification writes such an access as if the field were a direct one.
pub fn indirect_field_path(env: &Env, k: &TypeRefKind, target: &Rc<Ident>, fuel: u64) -> (out: Option<Rc<List<Ident>>>)
    ensures
        out == spec_indirect_field_path(*env, *k, *target, fuel),
    decreases fuel, 1nat,
{
    match record_fields(env, k) {
        Some(fields) => if find_field(&fields, target).is_some() {
            Some(nil())
        } else if fuel == 0 {
            None
        } else {
            path_through(env, &fields, target, drop_one(fuel))
        },
        None => None,
    }
}

/// The record that a field is a value of.
#[verifier::opaque]
pub open spec fn spec_field_record(env: Env, f: Rc<Field>) -> Option<TypeRefKind>
{
    match spec_vtype_whnf(env, spec_field_type(f)).val {
        TypeT::TypeRef(k) => Some(spec_clone_kind(k)),
        _ => None,
    }
}

/// The record that a field is a value of.
pub fn field_record(env: &Env, f: &Rc<Field>) -> (out: Option<TypeRefKind>)
    ensures
        out == spec_field_record(*env, *f),
{
    proof {
        reveal(spec_field_record);
    }
    match &vtype_whnf(env, &field_type(f)).val {
        TypeT::TypeRef(k) => Some(clone_kind(k)),
        _ => None,
    }
}

/// The way to a field through one of the given members.
pub open spec fn spec_path_through(
    env: Env,
    fields: Rc<List<Field>>,
    target: Rc<Ident>,
    fuel: u64,
) -> Option<Rc<List<Ident>>>
    decreases fuel, 2nat, fields,
{
    match *fields {
        List::Nil => None,
        List::Cons(f, t) => {
            if spec_text_starts_with(spec_field_name(f).val, spec_lit("_unnamed")) {
                match spec_field_record(env, f) {
                    Some(k) => {
                        match spec_indirect_field_path(env, k, target, fuel) {
                            Some(path) => Some(spec_cons(spec_field_name(f), path)),
                            None => spec_path_through(env, t, target, fuel),
                        }
                    },
                    None => spec_path_through(env, t, target, fuel),
                }
            } else {
                spec_path_through(env, t, target, fuel)
            }
        },
    }
}

/// The way to a field through one of the given members.
pub fn path_through(env: &Env, fields: &Rc<List<Field>>, target: &Rc<Ident>, fuel: u64) -> (out: Option<Rc<List<Ident>>>)
    ensures
        out == spec_path_through(*env, *fields, *target, fuel),
    decreases fuel, 2nat, fields,
{
    match &**fields {
        List::Nil => None,
        List::Cons(f, t) => if text_starts_with(&field_name(f).val, &lit("_unnamed")) {
            match field_record(env, f) {
                Some(k) => match indirect_field_path(env, &k, target, fuel) {
                    Some(path) => Some(cons(field_name(f), path)),
                    None => path_through(env, t, target, fuel),
                },
                None => path_through(env, t, target, fuel),
            }
        } else {
            path_through(env, t, target, fuel)
        },
    }
}

/// Members selected one after the other.
pub open spec fn spec_select_all(base: Rc<Expr>, path: Rc<List<Ident>>, loc: Loc) -> Rc<Expr>
    decreases path,
{
    match *path {
        List::Nil => base,
        List::Cons(h, t) => spec_select_all(spec_mk_expr(loc, ExprT::Member(base, h)), t, loc),
    }
}

/// Members selected one after the other.
pub fn select_all(base: Rc<Expr>, path: &Rc<List<Ident>>, loc: &Loc) -> (out: Rc<Expr>)
    ensures
        out == spec_select_all(base, *path, *loc),
    decreases path,
{
    match &**path {
        List::Nil => base,
        List::Cons(h, t) => select_all(mk_expr(loc, ExprT::Member(base, h.clone())), t, loc),
    }
}

/// `n` zeros of a type.
pub open spec fn spec_zeros(loc: Loc, ty: Rc<Type>, n: u64) -> Rc<List<Expr>>
    decreases n,
{
    if n == 0 {
        spec_nil()
    } else {
        spec_cons(spec_mk_expr(loc, ExprT::IntLit(Rc::new(IntValue::Small(0)), ty)), spec_zeros(loc, ty, spec_drop_one(n)))
    }
}

/// `n` zeros of a type.
pub fn zeros(loc: &Loc, ty: &Rc<Type>, n: u64) -> (out: Rc<List<Expr>>)
    ensures
        out == spec_zeros(*loc, *ty, n),
    decreases n,
{
    if n == 0 {
        nil()
    } else {
        cons(mk_expr(loc, ExprT::IntLit(Rc::new(IntValue::Small(0)), ty.clone())), zeros(loc, ty, drop_one(n)))
    }
}

/// How many zeros a string literal of length `n` lacks to fill an array of the expected type. C
/// fills the rest of the array with zeros.
#[verifier::opaque]
pub open spec fn spec_missing_zeros(env: Env, expected: Option<Rc<Type>>, n: u64) -> u64
{
    match expected {
        Some(t) => {
            match spec_vtype_whnf(env, t).val {
                TypeT::FixedArray(_, len) => {
                    if len > n {
                        (len - n) as u64
                    } else {
                        0
                    }
                },
                _ => 0,
            }
        },
        None => 0,
    }
}

/// How many zeros a string literal of length `n` lacks to fill an array of the expected type. C
/// fills the rest of the array with zeros.
pub fn missing_zeros(env: &Env, expected: &Option<Rc<Type>>, n: u64) -> (out: u64)
    ensures
        out == spec_missing_zeros(*env, *expected, n),
{
    proof {
        reveal(spec_missing_zeros);
    }
    match expected {
        Some(t) => match &vtype_whnf(env, t).val {
            TypeT::FixedArray(_, len) => if *len > n { (*len - n) as u64 } else { 0 },
            _ => 0,
        },
        None => 0,
    }
}

/// Whether the expression is zero cast to a pointer.
#[verifier::opaque]
pub open spec fn spec_is_null_cast(env: Env, e: Rc<Expr>, fnptr_too: bool) -> bool
{
    match e.val {
        ExprT::Cast(inner, ty) => {
            spec_is_zero_literal(inner) && (match spec_vtype_whnf(env, ty).val {
                    TypeT::Pointer(_, _) => true,
                    TypeT::FnPtr { .. } => fnptr_too,
                    _ => false,
            })
        },
        _ => false,
    }
}

/// Whether the expression is zero cast to a pointer.
pub fn is_null_cast(env: &Env, e: &Rc<Expr>, fnptr_too: bool) -> (out: bool)
    ensures
        out == spec_is_null_cast(*env, *e, fnptr_too),
{
    proof {
        reveal(spec_is_null_cast);
    }
    match &e.val {
        ExprT::Cast(inner, ty) => is_zero_literal(inner) && (match &vtype_whnf(env, ty).val {
            TypeT::Pointer(_, _) => true,
            TypeT::FnPtr { .. } => fnptr_too,
            _ => false,
        }),
        _ => false,
    }
}

/// The literal or cast `e` at another type.
#[verifier::opaque]
pub open spec fn spec_retyped(e: Rc<Expr>, ty: Rc<Type>) -> Rc<Expr>
{
    match e.val {
        ExprT::IntLit(n, _) => spec_mk_expr(e.loc, ExprT::IntLit(n, ty)),
        ExprT::Cast(a, _) => spec_mk_expr(e.loc, ExprT::Cast(a, ty)),
        _ => e,
    }
}

/// The literal or cast `e` at another type.
pub fn retyped(e: &Rc<Expr>, ty: Rc<Type>) -> (out: Rc<Expr>)
    ensures
        out == spec_retyped(*e, ty),
{
    proof {
        reveal(spec_retyped);
    }
    match &e.val {
        ExprT::IntLit(n, _) => mk_expr(&e.loc, ExprT::IntLit(n.clone(), ty)),
        ExprT::Cast(a, _) => mk_expr(&e.loc, ExprT::Cast(a.clone(), ty)),
        _ => e.clone(),
    }
}

/// A comparison of a pointer with null, if it is one: the null gets the pointer's type.
#[verifier::opaque]
pub open spec fn spec_null_comparison(
    env: Env,
    e: Rc<Expr>,
    a: Rc<Expr>,
    b: Rc<Expr>,
    a_ty: Rc<Type>,
) -> Option<Rc<Expr>>
{
    let t = spec_vtype_whnf(env, a_ty);
    match t.val {
        TypeT::Pointer(_, _) => {
            if spec_is_zero_literal(b) || spec_is_null_cast(env, b, false) {
                Some(spec_with_children(e, a, spec_retyped(b, t)))
            } else {
                None
            }
        },
        TypeT::FnPtr { .. } => {
            if spec_is_zero_literal(b) || spec_is_null_cast(env, b, true) {
                Some(spec_with_children(e, a, spec_mk_expr(b.loc, ExprT::IntLit(Rc::new(IntValue::Small(0)), t))))
            } else {
                None
            }
        },
        _ => None,
    }
}

/// A comparison of a pointer with null, if it is one: the null gets the pointer's type.
pub fn null_comparison(
    env: &Env,
    e: &Rc<Expr>,
    a: &Rc<Expr>,
    b: &Rc<Expr>,
    a_ty: &Rc<Type>,
) -> (out: Option<Rc<Expr>>)
    ensures
        out == spec_null_comparison(*env, *e, *a, *b, *a_ty),
{
    proof {
        reveal(spec_null_comparison);
    }
    let t = vtype_whnf(env, a_ty);
    match &t.val {
        TypeT::Pointer(_, _) => if is_zero_literal(b) || is_null_cast(env, b, false) {
            Some(with_children(e, a.clone(), retyped(b, t.clone())))
        } else {
            None
        },
        TypeT::FnPtr { .. } => if is_zero_literal(b) || is_null_cast(env, b, true) {
            Some(with_children(e, a.clone(), mk_expr(&b.loc, ExprT::IntLit(Rc::new(IntValue::Small(0)), t.clone()))))
        } else {
            None
        },
        _ => None,
    }
}

/// A comparison of pointers of different kinds to the same type, if it is one: both are compared
/// as raw addresses.
#[verifier::opaque]
pub open spec fn spec_mixed_comparison(
    env: Env,
    e: Rc<Expr>,
    a: Rc<Expr>,
    b: Rc<Expr>,
    a_ty: Rc<Type>,
    b_ty: Rc<Type>,
) -> Option<Rc<Expr>>
{
    match (spec_vtype_whnf(env, a_ty).val, spec_vtype_whnf(env, b_ty).val) {
        (TypeT::Pointer(s, j), TypeT::Pointer(t, k)) => {
            if j != k && j != PointerKind::Core && k != PointerKind::Core && spec_vtype_eq(env, s, t) {
                Some(spec_with_children(e, spec_cast_expr(a, spec_mk_type(a.loc, TypeT::Pointer(s, PointerKind::Core))), spec_cast_expr(b, spec_mk_type(b.loc, TypeT::Pointer(t, PointerKind::Core)))))
            } else {
                None
            }
        },
        _ => None,
    }
}

/// A comparison of pointers of different kinds to the same type, if it is one: both are compared
/// as raw addresses.
pub fn mixed_comparison(
    env: &Env,
    e: &Rc<Expr>,
    a: &Rc<Expr>,
    b: &Rc<Expr>,
    a_ty: &Rc<Type>,
    b_ty: &Rc<Type>,
) -> (out: Option<Rc<Expr>>)
    ensures
        out == spec_mixed_comparison(*env, *e, *a, *b, *a_ty, *b_ty),
{
    proof {
        reveal(spec_mixed_comparison);
    }
    match (&vtype_whnf(env, a_ty).val, &vtype_whnf(env, b_ty).val) {
        (TypeT::Pointer(s, j), TypeT::Pointer(t, k)) => if *j != *k && *j != PointerKind::Core && *k != PointerKind::Core && vtype_eq(env, s, t) {
            Some(with_children(e, cast_expr(a, mk_type(&a.loc, TypeT::Pointer(s.clone(), PointerKind::Core))),
                cast_expr(b, mk_type(&b.loc, TypeT::Pointer(t.clone(), PointerKind::Core)))))
        } else {
            None
        },
        _ => None,
    }
}

/// An equality of a special kind, if it is one.
#[verifier::opaque]
pub open spec fn spec_special_equality(
    env: Env,
    e: Rc<Expr>,
    op: BinOp,
    a: Rc<Expr>,
    b: Rc<Expr>,
    a_ty: Rc<Type>,
    b_ty: Rc<Type>,
) -> Option<Rc<Expr>>
{
    if op == BinOp::Eq {
        match spec_null_comparison(env, e, a, b, a_ty) {
            Some(r) => Some(r),
            None => spec_mixed_comparison(env, e, a, b, a_ty, b_ty),
        }
    } else {
        None
    }
}

/// An equality of a special kind, if it is one.
pub fn special_equality(
    env: &Env,
    e: &Rc<Expr>,
    op: BinOp,
    a: &Rc<Expr>,
    b: &Rc<Expr>,
    a_ty: &Rc<Type>,
    b_ty: &Rc<Type>,
) -> (out: Option<Rc<Expr>>)
    ensures
        out == spec_special_equality(*env, *e, op, *a, *b, *a_ty, *b_ty),
{
    proof {
        reveal(spec_special_equality);
    }
    if op == BinOp::Eq {
        match null_comparison(env, e, a, b, a_ty) {
            Some(r) => Some(r),
            None => mixed_comparison(env, e, a, b, a_ty, b_ty),
        }
    } else {
        None
    }
}

/// The expression at a type, given the type that it has.
#[verifier::opaque]
pub open spec fn spec_convert(env: Env, e: Rc<Expr>, has: Rc<Type>, ty: Rc<Type>) -> Rc<Expr>
{
    if spec_vtype_eq(env, has, ty) {
        e
    } else {
        spec_cast_expr(e, ty)
    }
}

/// The expression at a type, given the type that it has.
pub fn convert(env: &Env, e: &Rc<Expr>, has: &Rc<Type>, ty: &Rc<Type>) -> (out: Rc<Expr>)
    ensures
        out == spec_convert(*env, *e, *has, *ty),
{
    proof {
        reveal(spec_convert);
    }
    if vtype_eq(env, has, ty) { e.clone() } else { cast_expr(e, ty.clone()) }
}

/// Both operands at a type.
#[verifier::opaque]
pub open spec fn spec_convert_both(
    env: Env,
    e: Rc<Expr>,
    a: Rc<Expr>,
    b: Rc<Expr>,
    a_ty: Rc<Type>,
    b_ty: Rc<Type>,
    ty: Rc<Type>,
) -> Rc<Expr>
{
    spec_with_children(e, spec_convert(env, a, a_ty, ty), spec_convert(env, b, b_ty, ty))
}

/// Both operands at a type.
pub fn convert_both(
    env: &Env,
    e: &Rc<Expr>,
    a: &Rc<Expr>,
    b: &Rc<Expr>,
    a_ty: &Rc<Type>,
    b_ty: &Rc<Type>,
    ty: &Rc<Type>,
) -> (out: Rc<Expr>)
    ensures
        out == spec_convert_both(*env, *e, *a, *b, *a_ty, *b_ty, *ty),
{
    proof {
        reveal(spec_convert_both);
    }
    with_children(e, convert(env, a, a_ty, ty), convert(env, b, b_ty, ty))
}

/// Whether the operator computes with numbers, so that C promotes truth values for it.
#[verifier::opaque]
pub open spec fn spec_promotes_bool(op: BinOp) -> bool
{
    match op {
        BinOp::Add | BinOp::Sub | BinOp::Mul | BinOp::Div | BinOp::Mod => true,
        BinOp::BitAnd | BinOp::BitOr | BinOp::BitXor => true,
        _ => false,
    }
}

/// Whether the operator computes with numbers, so that C promotes truth values for it.
pub fn promotes_bool(op: BinOp) -> (out: bool)
    ensures
        out == spec_promotes_bool(op),
{
    proof {
        reveal(spec_promotes_bool);
    }
    match op {
        BinOp::Add | BinOp::Sub | BinOp::Mul | BinOp::Div | BinOp::Mod => true,
        BinOp::BitAnd | BinOp::BitOr | BinOp::BitXor => true,
        _ => false,
    }
}

/// The type that the operands of an operator are converted to, given their common type.
#[verifier::opaque]
pub open spec fn spec_promoted(env: Env, op: BinOp, a: Rc<Expr>, meet: Rc<Type>) -> Rc<Type>
{
    if spec_is_bool(env, meet) && spec_promotes_bool(op) {
        spec_mk_type(a.loc, TypeT::Int { signed: true, width: 32 })
    } else {
        meet
    }
}

/// The type that the operands of an operator are converted to, given their common type.
pub fn promoted(env: &Env, op: BinOp, a: &Rc<Expr>, meet: &Rc<Type>) -> (out: Rc<Type>)
    ensures
        out == spec_promoted(*env, op, *a, *meet),
{
    proof {
        reveal(spec_promoted);
    }
    if is_bool(env, meet) && promotes_bool(op) { mk_type(&a.loc, TypeT::Int { signed: true, width: 32 }) } else { meet.clone() }
}

/// Whether an assignment only settles what kind of pointer its target is.
#[verifier::opaque]
pub open spec fn spec_is_kind_refinement(env: Env, x_ty: Rc<Type>, v_ty: Rc<Type>) -> bool
{
    match (spec_vtype_whnf(env, x_ty).val, spec_vtype_whnf(env, v_ty).val) {
        (TypeT::Pointer(_, PointerKind::Unknown), TypeT::Pointer(_, PointerKind::Array)) => true,
        (TypeT::Pointer(_, PointerKind::Ref), TypeT::Pointer(_, PointerKind::Array)) => true,
        _ => false,
    }
}

/// Whether an assignment only settles what kind of pointer its target is.
pub fn is_kind_refinement(env: &Env, x_ty: &Rc<Type>, v_ty: &Rc<Type>) -> (out: bool)
    ensures
        out == spec_is_kind_refinement(*env, *x_ty, *v_ty),
{
    proof {
        reveal(spec_is_kind_refinement);
    }
    match (&vtype_whnf(env, x_ty).val, &vtype_whnf(env, v_ty).val) {
        (TypeT::Pointer(_, PointerKind::Unknown), TypeT::Pointer(_, PointerKind::Array)) => true,
        (TypeT::Pointer(_, PointerKind::Ref), TypeT::Pointer(_, PointerKind::Array)) => true,
        _ => false,
    }
}

/// The value of an assignment at the type of its target.
#[verifier::opaque]
pub open spec fn spec_cast_assigned(env: Env, x: Rc<Expr>, v: Rc<Expr>) -> Rc<Expr>
{
    match (spec_infer_expr(env, x), spec_infer_expr(env, v)) {
        (Some(x_ty), Some(v_ty)) => {
            if spec_vtype_eq(env, x_ty, v_ty) || spec_is_kind_refinement(env, x_ty, v_ty) {
                v
            } else {
                spec_cast_expr(v, x_ty)
            }
        },
        _ => v,
    }
}

/// The value of an assignment at the type of its target.
pub fn cast_assigned(env: &Env, x: &Rc<Expr>, v: &Rc<Expr>) -> (out: Rc<Expr>)
    ensures
        out == spec_cast_assigned(*env, *x, *v),
{
    proof {
        reveal(spec_cast_assigned);
    }
    match (infer_expr(env, x), infer_expr(env, v)) {
        (Some(x_ty), Some(v_ty)) => if vtype_eq(env, &x_ty, &v_ty) || is_kind_refinement(env, &x_ty, &v_ty) {
            v.clone()
        } else {
            cast_expr(v, x_ty)
        },
        _ => v.clone(),
    }
}

/// The branches of a conditional expression at their common type.
#[verifier::opaque]
pub open spec fn spec_unify_branches(
    env: Env,
    e: Rc<Expr>,
    c: Rc<Expr>,
    a: Rc<Expr>,
    b: Rc<Expr>,
) -> Rc<Expr>
{
    match (spec_infer_expr(env, a), spec_infer_expr(env, b)) {
        (Some(s), Some(t)) => {
            match spec_meet_type(env, s, t) {
                Some(m) => spec_with_three(e, c, spec_convert(env, a, s, m), spec_convert(env, b, t, m)),
                None => spec_with_three(e, c, a, b),
            }
        },
        _ => spec_with_three(e, c, a, b),
    }
}

/// The branches of a conditional expression at their common type.
pub fn unify_branches(env: &Env, e: &Rc<Expr>, c: Rc<Expr>, a: &Rc<Expr>, b: &Rc<Expr>) -> (out: Rc<Expr>)
    ensures
        out == spec_unify_branches(*env, *e, c, *a, *b),
{
    proof {
        reveal(spec_unify_branches);
    }
    match (infer_expr(env, a), infer_expr(env, b)) {
        (Some(s), Some(t)) => match meet_type(env, &s, &t) {
            Some(m) => with_three(e, c, convert(env, a, &s, &m), convert(env, b, &t, &m)),
            None => with_three(e, c, a.clone(), b.clone()),
        },
        _ => with_three(e, c, a.clone(), b.clone()),
    }
}

/// What kind of pointer the first assignment to a variable settles it to be, if any. A raw
/// pointer does not retype a variable, and neither does a place in an array: the cast at the
/// assignment recovers the type, or borrows the cell.
pub open spec fn spec_assigned_kind(
    env: Env,
    x: Rc<Ident>,
    l: Rc<List<Stmt>>,
) -> Option<PointerKind>
    decreases l,
{
    match *l {
        List::Nil => None,
        List::Cons(s, t) => {
            match s.val {
                StmtT::Assign(a, v) => {
                    if spec_is_var_named(a, x) {
                        match spec_pointer_kind(env, v) {
                            Some(k) => {
                                match k {
                                    PointerKind::Ref | PointerKind::Array => Some(k),
                                    _ => None,
                                }
                            },
                            None => None,
                        }
                    } else {
                        spec_assigned_kind(env, x, t)
                    }
                },
                _ => spec_assigned_kind(env, x, t),
            }
        },
    }
}

/// What kind of pointer the first assignment to a variable settles it to be, if any. A raw
/// pointer does not retype a variable, and neither does a place in an array: the cast at the
/// assignment recovers the type, or borrows the cell.
pub fn assigned_kind(env: &Env, x: &Rc<Ident>, l: &Rc<List<Stmt>>) -> (out: Option<PointerKind>)
    ensures
        out == spec_assigned_kind(*env, *x, *l),
    decreases l,
{
    match &**l {
        List::Nil => None,
        List::Cons(s, t) => match &s.val {
            StmtT::Assign(a, v) => if is_var_named(a, x) {
                match pointer_kind(env, v) {
                    Some(k) => match k {
                        PointerKind::Ref | PointerKind::Array => Some(k),
                        _ => None,
                    },
                    None => None,
                }
            } else {
                assigned_kind(env, x, t)
            },
            _ => assigned_kind(env, x, t),
        },
    }
}

/// Whether the expression is the variable.
#[verifier::opaque]
pub open spec fn spec_is_var_named(e: Rc<Expr>, x: Rc<Ident>) -> bool
{
    match e.val {
        ExprT::Var(y) => spec_same_name(y, x),
        _ => false,
    }
}

/// Whether the expression is the variable.
pub fn is_var_named(e: &Rc<Expr>, x: &Rc<Ident>) -> (out: bool)
    ensures
        out == spec_is_var_named(*e, *x),
{
    proof {
        reveal(spec_is_var_named);
    }
    match &e.val {
        ExprT::Var(y) => same_name(y, x),
        _ => false,
    }
}

/// The type of a declared variable, with the kind of pointer that the assignments after it
/// settle. A `void *` has no pointee type to settle, and stays a raw pointer.
#[verifier::opaque]
pub open spec fn spec_settled_type(
    env: Env,
    x: Rc<Ident>,
    ty: Rc<Type>,
    later: Rc<List<Stmt>>,
) -> Rc<Type>
{
    match ty.val {
        TypeT::Pointer(to, k) => {
            if matches!(to.val, TypeT::Void) || (k != PointerKind::Unknown && k != PointerKind::Ref) {
                ty
            } else {
                match spec_assigned_kind(env, x, later) {
                    Some(kind) => spec_mk_type(ty.loc, TypeT::Pointer(to, kind)),
                    None => ty,
                }
            }
        },
        _ => ty,
    }
}

/// The type of a declared variable, with the kind of pointer that the assignments after it
/// settle. A `void *` has no pointee type to settle, and stays a raw pointer.
pub fn settled_type(env: &Env, x: &Rc<Ident>, ty: &Rc<Type>, later: &Rc<List<Stmt>>) -> (out: Rc<Type>)
    ensures
        out == spec_settled_type(*env, *x, *ty, *later),
{
    proof {
        reveal(spec_settled_type);
    }
    match &ty.val {
        TypeT::Pointer(to, k) => if matches!(&to.val, TypeT::Void) || (*k != PointerKind::Unknown && *k != PointerKind::Ref) {
            ty.clone()
        } else {
            match assigned_kind(env, x, later) {
                Some(kind) => mk_type(&ty.loc, TypeT::Pointer(to.clone(), kind)),
                None => ty.clone(),
            }
        },
        _ => ty.clone(),
    }
}

/// A statement.
#[verifier::opaque]
pub open spec fn spec_mk_stmt(loc: Loc, val: StmtT) -> Rc<Stmt>
{
    Rc::new(Stmt { loc, val })
}

/// A statement.
pub fn mk_stmt(loc: &Loc, val: StmtT) -> (out: Rc<Stmt>)
    ensures
        out == spec_mk_stmt(*loc, val),
{
    proof {
        reveal(spec_mk_stmt);
    }
    Rc::new(Stmt { loc: loc.clone(), val })
}

/// A conditional statement without a postcondition.
#[verifier::opaque]
pub open spec fn spec_mk_if(loc: Loc, c: Rc<Expr>, a: StmtT, b: StmtT) -> Rc<Stmt>
{
    spec_mk_stmt(loc, StmtT::If { cond: c, then_branch: spec_l1(spec_mk_stmt(loc, a)), else_branch: spec_l1(spec_mk_stmt(loc, b)), ensures_: spec_nil() })
}

/// A conditional statement without a postcondition.
pub fn mk_if(loc: &Loc, c: &Rc<Expr>, a: StmtT, b: StmtT) -> (out: Rc<Stmt>)
    ensures
        out == spec_mk_if(*loc, *c, a, b),
{
    proof {
        reveal(spec_mk_if);
    }
    mk_stmt(loc, StmtT::If { cond: c.clone(), then_branch: l1(mk_stmt(loc, a)), else_branch: l1(mk_stmt(loc, b)), ensures_: nil() })
}

/// The statement with a conditional expression at its top turned into a conditional statement.
#[verifier::opaque]
pub open spec fn spec_lower_expr(s: Rc<Stmt>) -> Rc<Stmt>
{
    match s.val {
        StmtT::Assign(x, v) => {
            match v.val {
                ExprT::Cond(c, a, b) => spec_mk_if(s.loc, c, StmtT::Assign(x, a), StmtT::Assign(x, b)),
                _ => s,
            }
        },
        StmtT::Return(Some(v)) => {
            match v.val {
                ExprT::Cond(c, a, b) => spec_mk_if(s.loc, c, StmtT::Return(Some(a)), StmtT::Return(Some(b))),
                _ => s,
            }
        },
        StmtT::Call(v) => {
            match v.val {
                ExprT::Cond(c, a, b) => spec_mk_if(s.loc, c, StmtT::Call(a), StmtT::Call(b)),
                _ => s,
            }
        },
        _ => s,
    }
}

/// The statement with a conditional expression at its top turned into a conditional statement.
pub fn lower_expr(s: &Rc<Stmt>) -> (out: Rc<Stmt>)
    ensures
        out == spec_lower_expr(*s),
{
    proof {
        reveal(spec_lower_expr);
    }
    match &s.val {
        StmtT::Assign(x, v) => match &v.val {
            ExprT::Cond(c, a, b) => mk_if(&s.loc, c, StmtT::Assign(x.clone(), a.clone()), StmtT::Assign(x.clone(), b.clone())),
            _ => s.clone(),
        },
        StmtT::Return(Some(v)) => match &v.val {
            ExprT::Cond(c, a, b) => mk_if(&s.loc, c, StmtT::Return(Some(a.clone())), StmtT::Return(Some(b.clone()))),
            _ => s.clone(),
        },
        StmtT::Call(v) => match &v.val {
            ExprT::Cond(c, a, b) => mk_if(&s.loc, c, StmtT::Call(a.clone()), StmtT::Call(b.clone())),
            _ => s.clone(),
        },
        _ => s.clone(),
    }
}

/// The type of a record's field.
#[verifier::opaque]
pub open spec fn spec_struct_field_type(env: Env, s: Rc<Ident>, f: Rc<Ident>) -> Option<Rc<Type>>
{
    match spec_lookup_struct(env, s) {
        Some(d) => {
            match spec_find_field(d.fields, f) {
                Some(x) => Some(spec_field_type(x)),
                None => None,
            }
        },
        None => None,
    }
}

/// The type of a record's field.
pub fn struct_field_type(env: &Env, s: &Rc<Ident>, f: &Rc<Ident>) -> (out: Option<Rc<Type>>)
    ensures
        out == spec_struct_field_type(*env, *s, *f),
{
    proof {
        reveal(spec_struct_field_type);
    }
    match lookup_struct(env, s) {
        Some(d) => match find_field(&d.fields, f) {
            Some(x) => Some(field_type(&x)),
            None => None,
        },
        None => None,
    }
}

/// The struct that a record literal is of: its name may be that of a typedef.
#[verifier::opaque]
pub open spec fn spec_literal_struct(env: Env, name: Rc<Ident>) -> Rc<Ident>
{
    if spec_find_typedef(env.typedefs, name).is_some() {
        match spec_vtype_whnf(env, spec_mk_type(name.loc, TypeT::TypeRef(TypeRefKind::Typedef(name)))).val {
            TypeT::TypeRef(TypeRefKind::Struct(s)) => s,
            _ => name,
        }
    } else {
        name
    }
}

/// The struct that a record literal is of: its name may be that of a typedef.
pub fn literal_struct(env: &Env, name: &Rc<Ident>) -> (out: Rc<Ident>)
    ensures
        out == spec_literal_struct(*env, *name),
{
    proof {
        reveal(spec_literal_struct);
    }
    if find_typedef(&env.typedefs, name).is_some() {
        match &vtype_whnf(env, &mk_type(&name.loc, TypeT::TypeRef(TypeRefKind::Typedef(name.clone())))).val {
            TypeT::TypeRef(TypeRefKind::Struct(s)) => s.clone(),
            _ => name.clone(),
        }
    } else {
        name.clone()
    }
}

/// The parameter types of the function that an expression points to.
#[verifier::opaque]
pub open spec fn spec_pointed_params(env: Env, f: Rc<Expr>) -> Rc<List<Type>>
{
    match spec_infer_whnf(env, f) {
        Some(t) => {
            match t.val {
                TypeT::FnPtr { args, .. } => args,
                _ => spec_nil(),
            }
        },
        None => spec_nil(),
    }
}

/// The parameter types of the function that an expression points to.
pub fn pointed_params(env: &Env, f: &Rc<Expr>) -> (out: Rc<List<Type>>)
    ensures
        out == spec_pointed_params(*env, *f),
{
    proof {
        reveal(spec_pointed_params);
    }
    match infer_whnf(env, f) {
        Some(t) => match &t.val {
            TypeT::FnPtr { args, .. } => args.clone(),
            _ => nil(),
        },
        None => nil(),
    }
}

/// The parameter types of a function.
#[verifier::opaque]
pub open spec fn spec_called_params(env: Env, f: Rc<Ident>) -> Rc<List<Type>>
{
    match spec_lookup_fn(env, f) {
        Some(d) => spec_arg_types(d.args),
        None => spec_nil(),
    }
}

/// The parameter types of a function.
pub fn called_params(env: &Env, f: &Rc<Ident>) -> (out: Rc<List<Type>>)
    ensures
        out == spec_called_params(*env, *f),
{
    proof {
        reveal(spec_called_params);
    }
    match lookup_fn(env, f) {
        Some(d) => arg_types(&d.args),
        None => nil(),
    }
}

/// The first type.
#[verifier::opaque]
pub open spec fn spec_first_type(l: Rc<List<Type>>) -> Option<Rc<Type>>
{
    match *l {
        List::Nil => None,
        List::Cons(h, _) => Some(h),
    }
}

/// The first type.
pub fn first_type(l: &Rc<List<Type>>) -> (out: Option<Rc<Type>>)
    ensures
        out == spec_first_type(*l),
{
    proof {
        reveal(spec_first_type);
    }
    match &**l {
        List::Nil => None,
        List::Cons(h, _) => Some(h.clone()),
    }
}

/// The types but the first.
#[verifier::opaque]
pub open spec fn spec_later_types(l: Rc<List<Type>>) -> Rc<List<Type>>
{
    match *l {
        List::Nil => spec_nil(),
        List::Cons(_, t) => t,
    }
}

/// The types but the first.
pub fn later_types(l: &Rc<List<Type>>) -> (out: Rc<List<Type>>)
    ensures
        out == spec_later_types(*l),
{
    proof {
        reveal(spec_later_types);
    }
    match &**l {
        List::Nil => nil(),
        List::Cons(_, t) => t.clone(),
    }
}

/// An argument at the type of its parameter, if there is one.
#[verifier::opaque]
pub open spec fn spec_cast_arg(env: Env, e: Rc<Expr>, param: Option<Rc<Type>>) -> Rc<Expr>
{
    match param {
        Some(t) => spec_cast_if_needed(env, e, spec_vtype_whnf(env, t)),
        None => e,
    }
}

/// An argument at the type of its parameter, if there is one.
pub fn cast_arg(env: &Env, e: &Rc<Expr>, param: &Option<Rc<Type>>) -> (out: Rc<Expr>)
    ensures
        out == spec_cast_arg(*env, *e, *param),
{
    proof {
        reveal(spec_cast_arg);
    }
    match param {
        Some(t) => cast_if_needed(env, e, &vtype_whnf(env, t)),
        None => e.clone(),
    }
}

/// An expression at a type, if one is given.
#[verifier::opaque]
pub open spec fn spec_cast_to_opt(env: Env, e: Rc<Expr>, ty: Option<Rc<Type>>) -> Rc<Expr>
{
    match ty {
        Some(t) => spec_cast_if_needed(env, e, t),
        None => e,
    }
}

/// An expression at a type, if one is given.
pub fn cast_to_opt(env: &Env, e: &Rc<Expr>, ty: &Option<Rc<Type>>) -> (out: Rc<Expr>)
    ensures
        out == spec_cast_to_opt(*env, *e, *ty),
{
    proof {
        reveal(spec_cast_to_opt);
    }
    match ty {
        Some(t) => cast_if_needed(env, e, t),
        None => e.clone(),
    }
}

/// The address of an array cell as a sum, unless a pointer to one object is expected from a
/// whole array: then the cell is borrowed. C defines `&a[i]` as `a + i`.
#[verifier::opaque]
pub open spec fn spec_cell_sum(
    env: Env,
    e: Rc<Expr>,
    v: Rc<Expr>,
    expected: Option<Rc<Type>>,
) -> Option<Rc<Expr>>
{
    match v.val {
        ExprT::Index(arr, idx) => {
            if spec_is_array_pointer(env, arr) && !(spec_expects_ref(env, expected) && spec_is_pointer(env, arr, PointerKind::Array)) {
                Some(spec_mk_expr(e.loc, ExprT::BinOp(BinOp::Add, arr, idx)))
            } else {
                None
            }
        },
        _ => None,
    }
}

/// The address of an array cell as a sum, unless a pointer to one object is expected from a
/// whole array: then the cell is borrowed. C defines `&a[i]` as `a + i`.
pub fn cell_sum(env: &Env, e: &Rc<Expr>, v: &Rc<Expr>, expected: &Option<Rc<Type>>) -> (out: Option<Rc<Expr>>)
    ensures
        out == spec_cell_sum(*env, *e, *v, *expected),
{
    proof {
        reveal(spec_cell_sum);
    }
    match &v.val {
        ExprT::Index(arr, idx) => if is_array_pointer(env, arr) && !(expects_ref(env, expected) && is_pointer(env, arr, PointerKind::Array)) {
            Some(mk_expr(&e.loc, ExprT::BinOp(BinOp::Add, arr.clone(), idx.clone())))
        } else {
            None
        },
        _ => None,
    }
}

/// Whether a pointer to one object is expected.
#[verifier::opaque]
pub open spec fn spec_expects_ref(env: Env, expected: Option<Rc<Type>>) -> bool
{
    match expected {
        Some(t) => matches!(spec_vtype_whnf(env, t).val, TypeT::Pointer(_, PointerKind::Ref)),
        None => false,
    }
}

/// Whether a pointer to one object is expected.
pub fn expects_ref(env: &Env, expected: &Option<Rc<Type>>) -> (out: bool)
    ensures
        out == spec_expects_ref(*env, *expected),
{
    proof {
        reveal(spec_expects_ref);
    }
    match expected {
        Some(t) => matches!(&vtype_whnf(env, t).val, TypeT::Pointer(_, PointerKind::Ref)),
        None => false,
    }
}

/// The kind that a pointer has after elaboration: `void *` is a raw pointer, since it has no
/// pointee type, and any other points to one object unless it says otherwise.
#[verifier::opaque]
pub open spec fn spec_settled_kind(to: Rc<Type>, kind: PointerKind) -> PointerKind
{
    if kind == PointerKind::Unknown {
        if matches!(to.val, TypeT::Void) {
            PointerKind::Core
        } else {
            PointerKind::Ref
        }
    } else {
        kind
    }
}

/// The kind that a pointer has after elaboration: `void *` is a raw pointer, since it has no
/// pointee type, and any other points to one object unless it says otherwise.
pub fn settled_kind(to: &Rc<Type>, kind: PointerKind) -> (out: PointerKind)
    ensures
        out == spec_settled_kind(*to, kind),
{
    proof {
        reveal(spec_settled_kind);
    }
    if kind == PointerKind::Unknown {
        if matches!(&to.val, TypeT::Void) { PointerKind::Core } else { PointerKind::Ref }
    } else {
        kind
    }
}

/// The named pointee of a pointer, under refinements.
pub open spec fn spec_view_pointee(body: Rc<Type>) -> Option<TypeRefKind>
    decreases body,
{
    match body.val {
        TypeT::Refine(t, _) | TypeT::RefineAlways(t, _) | TypeT::RefineUninit(t, _) => spec_view_pointee(t),
        TypeT::RefineValue(t, _, _, _) => spec_view_pointee(t),
        TypeT::Plain(t) | TypeT::Nullable(t) => spec_view_pointee(t),
        TypeT::Pointer(to, _) => {
            match to.val {
                TypeT::TypeRef(k) => Some(spec_clone_kind(k)),
                _ => None,
            }
        },
        _ => None,
    }
}

/// The named pointee of a pointer, under refinements.
pub fn view_pointee(body: &Rc<Type>) -> (out: Option<TypeRefKind>)
    ensures
        out == spec_view_pointee(*body),
    decreases body,
{
    match &body.val {
        TypeT::Refine(t, _) | TypeT::RefineAlways(t, _) | TypeT::RefineUninit(t, _) => view_pointee(t),
        TypeT::RefineValue(t, _, _, _) => view_pointee(t),
        TypeT::Plain(t) | TypeT::Nullable(t) => view_pointee(t),
        TypeT::Pointer(to, _) => match &to.val {
            TypeT::TypeRef(k) => Some(clone_kind(k)),
            _ => None,
        },
        _ => None,
    }
}

/// A field with another type.
#[verifier::opaque]
pub open spec fn spec_with_field_type(f: Rc<Field>, t: Rc<Type>) -> Rc<Field>
{
    match f.val {
        FieldT::Plain { name, .. } => Rc::new(Field { loc: f.loc, val: FieldT::Plain { name, ty: t } }),
        FieldT::BitField { name, width, .. } => Rc::new(Field { loc: f.loc, val: FieldT::BitField { name, ty: t, width } }),
    }
}

/// A field with another type.
pub fn with_field_type(f: &Rc<Field>, t: Rc<Type>) -> (out: Rc<Field>)
    ensures
        out == spec_with_field_type(*f, t),
{
    proof {
        reveal(spec_with_field_type);
    }
    match &f.val {
        FieldT::Plain { name, .. } => Rc::new(Field { loc: f.loc.clone(), val: FieldT::Plain { name: name.clone(), ty: t } }),
        FieldT::BitField { name, width, .. } => Rc::new(Field { loc: f.loc.clone(), val: FieldT::BitField { name: name.clone(), ty: t, width: *width } }),
    }
}

/// A signature with other types.
#[verifier::opaque]
pub open spec fn spec_with_signature(
    d: Rc<FnDecl>,
    ghost_args: Rc<List<GhostArg>>,
    args: Rc<List<FnArg>>,
    ret_type: Rc<Type>,
) -> Rc<FnDecl>
{
    Rc::new(FnDecl { name: d.name, ret_type, args, ghost_args, requires_: d.requires_, ensures_: d.ensures_, is_pure: d.is_pure, is_rec: d.is_rec, is_total: d.is_total, decreases_: spec_clone_opt_expr(d.decreases_) })
}

/// A signature with other types.
pub fn with_signature(
    d: &Rc<FnDecl>,
    ghost_args: Rc<List<GhostArg>>,
    args: Rc<List<FnArg>>,
    ret_type: Rc<Type>,
) -> (out: Rc<FnDecl>)
    ensures
        out == spec_with_signature(*d, ghost_args, args, ret_type),
{
    proof {
        reveal(spec_with_signature);
    }
    Rc::new(FnDecl {
        name: d.name.clone(),
        ret_type,
        args,
        ghost_args,
        requires_: d.requires_.clone(),
        ensures_: d.ensures_.clone(),
        is_pure: d.is_pure,
        is_rec: d.is_rec,
        is_total: d.is_total,
        decreases_: clone_opt_expr(&d.decreases_),
    })
}

/// A declaration.
#[verifier::opaque]
pub open spec fn spec_mk_decl(loc: Loc, val: DeclT) -> Rc<Decl>
{
    Rc::new(Decl { loc, val })
}

/// A declaration.
pub fn mk_decl(loc: &Loc, val: DeclT) -> (out: Rc<Decl>)
    ensures
        out == spec_mk_decl(*loc, val),
{
    proof {
        reveal(spec_mk_decl);
    }
    Rc::new(Decl { loc: loc.clone(), val })
}

/// The deepest nesting that elaboration follows. No input is nested as deeply.
#[verifier::opaque]
pub open spec fn spec_any_depth() -> u64
{
    u64::MAX
}

/// The deepest nesting that elaboration follows. No input is nested as deeply.
pub fn any_depth() -> (out: u64)
    ensures
        out == spec_any_depth(),
{
    proof {
        reveal(spec_any_depth);
    }
    u64::MAX
}

/// Reports an error.
///
/// As the state that [`Elaborator::report`] leaves.
#[verifier::opaque]
pub open spec fn spec_report(st: Elaborator, msg: Text, loc: Loc) -> Elaborator
{
    let st = Elaborator { diags: spec_cons(spec_mk_error(loc, msg), st.diags), ..st };
    st
}

/// Reports an error, and leaves an expression as it is.
///
/// As the state that [`Elaborator::rejected`] leaves, with its result.
#[verifier::opaque]
pub open spec fn spec_rejected(
    st: Elaborator,
    msg: Text,
    loc: Loc,
    e: Rc<Expr>,
) -> (Elaborator, Rc<Expr>)
{
    let st = spec_report(st, msg, loc);
    (st, e)
}

/// The type of an expression. That there is none is reported.
///
/// As the state that [`Elaborator::infer_or_report`] leaves, with its result.
#[verifier::opaque]
pub open spec fn spec_infer_or_report(
    st: Elaborator,
    env: Env,
    e: Rc<Expr>,
) -> (Elaborator, Option<Rc<Type>>)
{
    match spec_infer_expr(env, e) {
        Some(t) => (st, Some(t)),
        None => {
            let st = spec_report(st, spec_cat(spec_cat4(spec_lit("cannot infer type of "), spec_show_expr(e), spec_lit(": "), spec_infer_error(env, e)), spec_cat(spec_lit("\n"), spec_show_env(env))), e.loc);
            (st, None)
        },
    }
}

/// Reports an assignment to a whole struct with a flexible array member. C copies only its fixed
/// part.
///
/// As the state that [`Elaborator::check_flex_array_assign`] leaves.
#[verifier::opaque]
pub open spec fn spec_check_flex_array_assign(st: Elaborator, env: Env, lhs: Rc<Expr>) -> Elaborator
{
    match spec_infer_expr(env, lhs) {
        Some(t) => {
            if spec_type_has_flex_array_member(env, t) {
                let st = spec_report(st, spec_lit("assignment of a struct with a flexible array member is not supported: the flexible array contents are not copied by assignment in C; zero-initialize the struct (e.g. via calloc) and set its fixed fields individually instead"), lhs.loc);
                st
            } else {
                st
            }
        },
        None => st,
    }
}

/// The type with the default view of a pointer, where it has one and the place allows it.
///
/// As the state that [`Elaborator::maybe_apply_view`] leaves, with its result.
#[verifier::opaque]
pub open spec fn spec_maybe_apply_view(
    st: Elaborator,
    env: Env,
    ty: Rc<Type>,
) -> (Elaborator, Rc<Type>)
{
    let suppressed = st.suppress_next_view || st.in_inline_pulse || st.in_view_body;
    let st = Elaborator { suppress_next_view: false, ..st };
    if suppressed {
        (st, ty)
    } else {
        match ty.val {
            TypeT::Pointer(to, kind) => {
                match (to.val, kind) {
                    (TypeT::TypeRef(k), PointerKind::Ref) | (TypeT::TypeRef(k), PointerKind::Unknown) => {
                        match spec_find_view(st.pointer_views, spec_canon(env, k)) {
                            Some(n) => (st, spec_mk_type(ty.loc, TypeT::TypeRef(TypeRefKind::Typedef(n)))),
                            None => (st, ty),
                        }
                    },
                    _ => (st, ty),
                }
            },
            _ => (st, ty),
        }
    }
}

/// The elaborated type.
///
/// As the state that [`Elaborator::elab_type`] leaves, with its result.
pub open spec fn spec_elab_type(
    st: Elaborator,
    env: Env,
    ty: Rc<Type>,
    fuel: u64,
) -> (Elaborator, Rc<Type>)
    decreases fuel, 0nat,
{
    if fuel == 0 {
        (st, ty)
    } else {
        let (st, t) = spec_maybe_apply_view(st, env, ty);
        spec_elab_type_node(st, env, t, spec_drop_one(fuel))
    }
}

/// The elaborated types.
///
/// As the state that [`Elaborator::elab_types`] leaves, with its result.
pub open spec fn spec_elab_types(
    st: Elaborator,
    env: Env,
    l: Rc<List<Type>>,
    fuel: u64,
) -> (Elaborator, Rc<List<Type>>)
    decreases fuel, 1nat, l,
{
    match *l {
        List::Nil => (st, spec_nil()),
        List::Cons(h, t) => {
            let (st, d) = spec_elab_type(st, env, h, fuel);
            let (st, v2) = spec_elab_types(st, env, t, fuel);
            (st, spec_cons(d, v2))
        },
    }
}

/// The elaborated type, after views.
///
/// As the state that [`Elaborator::elab_type_node`] leaves, with its result.
pub open spec fn spec_elab_type_node(
    st: Elaborator,
    env: Env,
    ty: Rc<Type>,
    fuel: u64,
) -> (Elaborator, Rc<Type>)
    decreases fuel, 9nat,
{
    match ty.val {
        TypeT::Pointer(to, kind) => {
            let (st, t) = spec_elab_type(st, env, to, fuel);
            let k = spec_settled_kind(t, kind);
            (st, spec_mk_type(ty.loc, TypeT::Pointer(t, k)))
        },
        TypeT::FixedArray(t, _) | TypeT::FlexArray(t) | TypeT::Nullable(t) => {
            let (st, v2) = spec_elab_type(st, env, t, fuel);
            (st, spec_with_inner(ty, v2))
        },
        TypeT::Plain(t) => {
            let st = Elaborator { suppress_next_view: true, ..st };
            let (st, v3) = spec_elab_type(st, env, t, fuel);
            (st, spec_with_inner(ty, v3))
        },
        TypeT::FnPtr { args, ret } => {
            let (st, a) = spec_elab_types(st, env, args, fuel);
            let (st, r) = spec_elab_type(st, env, ret, fuel);
            (st, spec_mk_type(ty.loc, TypeT::FnPtr { args: a, ret: r }))
        },
        TypeT::Refine(t, p) | TypeT::RefineAlways(t, p) | TypeT::RefineUninit(t, p) => {
            let (st, t2) = spec_elab_type(st, env, t, fuel);
            let (st, p2) = spec_elab_slprop(st, spec_push_this(env, t2), p, fuel);
            (st, spec_with_inner_and_fact(ty, t2, p2))
        },
        TypeT::RefineValue(t, x, u, p) => {
            let (st, t2) = spec_elab_type(st, env, t, fuel);
            let (st, u2) = spec_elab_type(st, env, u, fuel);
            let env2 = spec_push_var_decl(spec_push_this(env, t2), x, u2, LocalDeclKind::RValue);
            let (st, p2) = spec_elab_slprop(st, env2, p, fuel);
            (st, spec_mk_type(ty.loc, TypeT::RefineValue(t2, x, u2, p2)))
        },
        _ => (st, ty),
    }
}

/// The elaborated proposition.
///
/// As the state that [`Elaborator::elab_slprop`] leaves, with its result.
pub open spec fn spec_elab_slprop(
    st: Elaborator,
    env: Env,
    p: Rc<Expr>,
    fuel: u64,
) -> (Elaborator, Rc<Expr>)
    decreases fuel, 2nat,
{
    let (st, r) = spec_elab_rvalue(st, env, p, Some(spec_mk_type(p.loc, TypeT::SLProp)), fuel);
    (st, spec_as_slprop(env, r))
}

/// The elaborated condition.
///
/// As the state that [`Elaborator::elab_bool`] leaves, with its result.
pub open spec fn spec_elab_bool(
    st: Elaborator,
    env: Env,
    p: Rc<Expr>,
    fuel: u64,
) -> (Elaborator, Rc<Expr>)
    decreases fuel, 2nat,
{
    let (st, r) = spec_elab_rvalue(st, env, p, Some(spec_mk_type(p.loc, TypeT::Bool)), fuel);
    (st, spec_as_bool(env, r))
}

/// The elaborated place.
///
/// As the state that [`Elaborator::elab_lvalue`] leaves, with its result.
pub open spec fn spec_elab_lvalue(
    st: Elaborator,
    env: Env,
    e: Rc<Expr>,
    fuel: u64,
) -> (Elaborator, Rc<Expr>)
    decreases fuel, 2nat,
{
    let (st, r) = spec_elab_rvalue(st, env, e, None, fuel);
    let st = if !spec_is_lvalue(env, r) {
        let st = spec_report(st, spec_cat(spec_lit("expected lvalue, got "), spec_show_expr(r)), r.loc);
        st
    } else {
        st
    };
    (st, r)
}

/// The elaborated count, as a `size_t`.
///
/// As the state that [`Elaborator::elab_size`] leaves, with its result.
pub open spec fn spec_elab_size(
    st: Elaborator,
    env: Env,
    e: Rc<Expr>,
    fuel: u64,
) -> (Elaborator, Rc<Expr>)
    decreases fuel, 2nat,
{
    let (st, r) = spec_elab_rvalue(st, env, e, None, fuel);
    (st, spec_as_size(env, r))
}

/// The elaborated value, at a type.
///
/// As the state that [`Elaborator::elab_at`] leaves, with its result.
pub open spec fn spec_elab_at(
    st: Elaborator,
    env: Env,
    e: Rc<Expr>,
    ty: Rc<Type>,
    fuel: u64,
) -> (Elaborator, Rc<Expr>)
    decreases fuel, 2nat,
{
    let (st, r) = spec_elab_rvalue(st, env, e, Some(ty), fuel);
    (st, spec_cast_if_needed(env, r, ty))
}

/// The elaborated expressions.
///
/// As the state that [`Elaborator::elab_rvalues`] leaves, with its result.
pub open spec fn spec_elab_rvalues(
    st: Elaborator,
    env: Env,
    l: Rc<List<Expr>>,
    expected: Option<Rc<Type>>,
    fuel: u64,
) -> (Elaborator, Rc<List<Expr>>)
    decreases fuel, 1nat, l,
{
    match *l {
        List::Nil => (st, spec_nil()),
        List::Cons(h, t) => {
            let (st, d) = spec_elab_rvalue(st, env, h, expected, fuel);
            let (st, v2) = spec_elab_rvalues(st, env, t, expected, fuel);
            (st, spec_cons(d, v2))
        },
    }
}

/// The elaborated arguments, each at the type of its parameter.
///
/// As the state that [`Elaborator::elab_args_at`] leaves, with its result.
pub open spec fn spec_elab_args_at(
    st: Elaborator,
    env: Env,
    params: Rc<List<Type>>,
    l: Rc<List<Expr>>,
    fuel: u64,
) -> (Elaborator, Rc<List<Expr>>)
    decreases fuel, 1nat, l,
{
    match *l {
        List::Nil => (st, spec_nil()),
        List::Cons(h, t) => {
            let p = spec_first_type(params);
            let (st, d) = spec_elab_rvalue(st, env, h, p, fuel);
            let (st, v2) = spec_elab_args_at(st, env, spec_later_types(params), t, fuel);
            (st, spec_cons(spec_cast_arg(env, d, p), v2))
        },
    }
}

/// The elaborated values of a struct's fields.
///
/// As the state that [`Elaborator::elab_inits`] leaves, with its result.
pub open spec fn spec_elab_inits(
    st: Elaborator,
    env: Env,
    s: Rc<Ident>,
    l: Rc<List<FieldInit>>,
    fuel: u64,
) -> (Elaborator, Rc<List<FieldInit>>)
    decreases fuel, 1nat, l,
{
    match *l {
        List::Nil => (st, spec_nil()),
        List::Cons(h, t) => {
            let ty = spec_struct_field_type(env, s, h.name);
            let (st, d) = spec_elab_rvalue(st, env, h.value, ty, fuel);
            let i = Rc::new(FieldInit { name: h.name, value: spec_cast_to_opt(env, d, ty) });
            let (st, v2) = spec_elab_inits(st, env, s, t, fuel);
            (st, spec_cons(i, v2))
        },
    }
}

/// The elaborated expression, where a type may be expected.
///
/// As the state that [`Elaborator::elab_rvalue`] leaves, with its result.
pub open spec fn spec_elab_rvalue(
    st: Elaborator,
    env: Env,
    e: Rc<Expr>,
    expected: Option<Rc<Type>>,
    fuel: u64,
) -> (Elaborator, Rc<Expr>)
    decreases fuel, 0nat,
{
    if fuel == 0 {
        (st, e)
    } else {
        spec_elab_node(st, env, e, expected, spec_drop_one(fuel))
    }
}

/// The elaborated expression, one level down.
///
/// As the state that [`Elaborator::elab_node`] leaves, with its result.
pub open spec fn spec_elab_node(
    st: Elaborator,
    env: Env,
    e: Rc<Expr>,
    expected: Option<Rc<Type>>,
    fuel: u64,
) -> (Elaborator, Rc<Expr>)
    decreases fuel, 9nat,
{
    match e.val {
        ExprT::Var(_) => (st, e),
        ExprT::BoolLit(_) => (st, e),
        ExprT::FnRef(_) => (st, e),
        ExprT::Deref(a) | ExprT::VAttr(_, a) | ExprT::Free(a) | ExprT::Live(a) | ExprT::Old(a) | ExprT::UnionInit(_, _, a) => {
            let (st, v1) = spec_elab_rvalue(st, env, a, None, fuel);
            (st, spec_with_child(e, v1))
        },
        ExprT::PreIncr(a) | ExprT::PostIncr(a) | ExprT::PreDecr(a) | ExprT::PostDecr(a) => {
            let (st, v2) = spec_elab_lvalue(st, env, a, fuel);
            (st, spec_with_child(e, v2))
        },
        ExprT::Member(x, a) => spec_elab_member(st, env, e, x, a, expected, fuel),
        ExprT::Ref(a) => spec_elab_ref(st, env, e, a, expected, fuel),
        ExprT::UnOp(op, a) => {
            let (st, r) = spec_elab_rvalue(st, env, a, None, fuel);
            (
                st,
                spec_with_child(e, if op == UnOp::Not {
                        spec_as_bool(env, r)
                    } else {
                        r
                }),
            )
        },
        ExprT::BinOp(op, a, b) => {
            let (st, x) = spec_elab_rvalue(st, env, a, None, fuel);
            let (st, y) = spec_elab_rvalue(st, env, b, None, fuel);
            spec_elab_operation(st, env, e, op, x, y)
        },
        ExprT::Forall(x, ty, body) | ExprT::Exists(x, ty, body) => {
            let (st, v6) = spec_elab_rvalue(st, spec_push_var_decl(env, x, ty, LocalDeclKind::RValue), body, None, fuel);
            (st, spec_with_child(e, v6))
        },
        _ => spec_elab_compound(st, env, e, expected, fuel),
    }
}

/// The elaborated expression, where it has several operands.
///
/// As the state that [`Elaborator::elab_compound`] leaves, with its result.
pub open spec fn spec_elab_compound(
    st: Elaborator,
    env: Env,
    e: Rc<Expr>,
    expected: Option<Rc<Type>>,
    fuel: u64,
) -> (Elaborator, Rc<Expr>)
    decreases fuel, 8nat,
{
    match e.val {
        ExprT::Index(arr, idx) => {
            let (st, a) = spec_elab_rvalue(st, env, arr, None, fuel);
            let (st, i) = spec_elab_size(st, env, idx, fuel);
            (st, spec_with_children(e, a, i))
        },
        ExprT::FnCall(f, args) => {
            let (st, v3) = spec_elab_args_at(st, env, spec_called_params(env, f), args, fuel);
            (st, spec_with_list(e, v3))
        },
        ExprT::FnPtrCall(f, args) => {
            let (st, g) = spec_elab_rvalue(st, env, f, None, fuel);
            let (st, a) = spec_elab_args_at(st, env, spec_pointed_params(env, g), args, fuel);
            (st, spec_mk_expr(e.loc, ExprT::FnPtrCall(g, a)))
        },
        ExprT::Cond(c, a, b) => {
            let (st, c1) = spec_elab_rvalue(st, env, c, None, fuel);
            let c2 = spec_as_bool(env, c1);
            let (st, x) = spec_elab_rvalue(st, env, a, expected, fuel);
            let (st, y) = spec_elab_rvalue(st, env, b, expected, fuel);
            (st, spec_unify_branches(env, e, c2, x, y))
        },
        ExprT::AssignExpr(a, b) => {
            let (st, x) = spec_elab_lvalue(st, env, a, fuel);
            let (st, v) = spec_elab_rvalue(st, env, b, spec_infer_expr(env, x), fuel);
            let st = spec_check_flex_array_assign(st, env, x);
            let w = match spec_infer_expr(env, x) {
                Some(t) => spec_cast_if_needed(env, v, t),
                None => v,
            };
            (st, spec_with_children(e, x, w))
        },
        ExprT::StructInit(name, inits) => {
            let s = spec_literal_struct(env, name);
            let (st, fs) = spec_elab_inits(st, env, s, inits, fuel);
            (st, spec_mk_expr(e.loc, ExprT::StructInit(s, fs)))
        },
        ExprT::ArrayInit { elem_ty, elems, is_static } => {
            let (st, l) = spec_elab_rvalues(st, env, elems, None, fuel);
            let n = if is_static {
                spec_missing_zeros(env, expected, spec_list_len(l))
            } else {
                0
            };
            (st, spec_with_list(e, spec_list_append(l, spec_zeros(e.loc, elem_ty, n))))
        },
        _ => spec_elab_typed(st, env, e, expected, fuel),
    }
}

/// The elaborated expression, where it has a type.
///
/// As the state that [`Elaborator::elab_typed`] leaves, with its result.
pub open spec fn spec_elab_typed(
    st: Elaborator,
    env: Env,
    e: Rc<Expr>,
    expected: Option<Rc<Type>>,
    fuel: u64,
) -> (Elaborator, Rc<Expr>)
    decreases fuel, 7nat,
{
    match e.val {
        ExprT::IntLit(_, t) | ExprT::FloatLit(_, t) | ExprT::Error(t) | ExprT::SizeOf(t) => {
            let (st, v1) = spec_elab_type(st, env, t, fuel);
            (st, spec_with_type_only(e, v1))
        },
        ExprT::AlignOf(t) | ExprT::Malloc(t) | ExprT::Calloc(t) => {
            let (st, v2) = spec_elab_type(st, env, t, fuel);
            (st, spec_with_type_only(e, v2))
        },
        ExprT::Cast(a, t) => {
            let (st, t2) = spec_elab_type(st, env, t, fuel);
            let (st, r) = spec_elab_rvalue(st, env, a, Some(t2), fuel);
            (st, spec_with_child_and_type(e, r, t2))
        },
        ExprT::MallocArray(t, n) | ExprT::CallocArray(t, n) | ExprT::MallocFlex(t, n) | ExprT::CallocFlex(t, n) => {
            let (st, t2) = spec_elab_type(st, env, t, fuel);
            let (st, r) = spec_elab_size(st, env, n, fuel);
            (st, spec_with_child_and_type(e, r, t2))
        },
        ExprT::MemsetZero(t, p) => {
            let (st, t2) = spec_elab_type(st, env, t, fuel);
            let (st, r) = spec_elab_rvalue(st, env, p, None, fuel);
            (st, spec_with_child_and_type(e, r, t2))
        },
        ExprT::ContainerOf(p, t, _) => {
            let (st, r) = spec_elab_rvalue(st, env, p, None, fuel);
            let (st, t2) = spec_elab_type(st, env, t, fuel);
            (st, spec_with_child_and_type(e, r, t2))
        },
        ExprT::Memset(t, p, v, n) => {
            let (st, t2) = spec_elab_type(st, env, t, fuel);
            let (st, p2) = spec_elab_rvalue(st, env, p, None, fuel);
            let (st, v2) = spec_elab_at(st, env, v, t2, fuel);
            let (st, n2) = spec_elab_size(st, env, n, fuel);
            (st, spec_mk_expr(e.loc, ExprT::Memset(t2, p2, v2, n2)))
        },
        ExprT::InlinePulse(code, t) => {
            let (st, t1) = spec_inline_type(st, t, expected, e.loc);
            let (st, t2) = spec_elab_type(st, env, t1, fuel);
            let (st, c) = spec_elab_code(st, env, code, fuel);
            (st, spec_mk_expr(e.loc, ExprT::InlinePulse(c, t2)))
        },
        _ => (st, e),
    }
}

/// The type of inline code: the one that is expected, where none is given.
///
/// As the state that [`Elaborator::inline_type`] leaves, with its result.
#[verifier::opaque]
pub open spec fn spec_inline_type(
    st: Elaborator,
    t: Rc<Type>,
    expected: Option<Rc<Type>>,
    loc: Loc,
) -> (Elaborator, Rc<Type>)
{
    match (t.val, expected) {
        (TypeT::Unknown, Some(x)) => (st, x),
        (TypeT::Unknown, None) => {
            let st = spec_report(st, spec_lit("cannot infer type of _inline_pulse; add an explicit type cast"), loc);
            (st, t)
        },
        _ => (st, t),
    }
}

/// The elaborated inline code. Pointers in it stay as they are.
///
/// As the state that [`Elaborator::elab_code`] leaves, with its result.
pub open spec fn spec_elab_code(
    st: Elaborator,
    env: Env,
    code: Rc<InlinePulseCode>,
    fuel: u64,
) -> (Elaborator, Rc<InlinePulseCode>)
    decreases fuel, 5nat,
{
    let before = st.in_inline_pulse;
    let st = Elaborator { in_inline_pulse: true, ..st };
    let (st, toks) = spec_elab_tokens(st, env, code.tokens, fuel);
    let st = Elaborator { in_inline_pulse: before, ..st };
    (st, Rc::new(InlinePulseCode { tokens: toks }))
}

/// The elaborated token.
///
/// As the state that [`Elaborator::elab_token`] leaves, with its result.
pub open spec fn spec_elab_token(
    st: Elaborator,
    env: Env,
    tok: Rc<InlinePulseToken>,
    fuel: u64,
) -> (Elaborator, Rc<InlinePulseToken>)
    decreases fuel, 3nat,
{
    match *tok {
        InlinePulseToken::RValueAntiquot { before, expr } => {
            let (st, r) = spec_elab_rvalue(st, env, expr, None, fuel);
            (st, Rc::new(InlinePulseToken::RValueAntiquot { before, expr: r }))
        },
        InlinePulseToken::LValueAntiquot { before, expr } => {
            let (st, r) = spec_elab_rvalue(st, env, expr, None, fuel);
            (st, Rc::new(InlinePulseToken::LValueAntiquot { before, expr: r }))
        },
        InlinePulseToken::TypeAntiquot { before, ty } => {
            let (st, t) = spec_elab_type(st, env, ty, fuel);
            (st, Rc::new(InlinePulseToken::TypeAntiquot { before, ty: t }))
        },
        InlinePulseToken::Declare { ident, ty } => {
            let (st, t) = spec_elab_type(st, env, ty, fuel);
            (st, Rc::new(InlinePulseToken::Declare { ident, ty: t }))
        },
        InlinePulseToken::AuxFnAntiquot { before, ty, arm, kind } => {
            let (st, t) = spec_elab_type(st, env, ty, fuel);
            (st, Rc::new(InlinePulseToken::AuxFnAntiquot { before, ty: t, arm: spec_clone_opt_ident(arm), kind }))
        },
        _ => (st, tok),
    }
}

/// The elaborated tokens. A declared name is in scope from there on.
///
/// As the state that [`Elaborator::elab_tokens`] leaves, with its result.
pub open spec fn spec_elab_tokens(
    st: Elaborator,
    env: Env,
    l: Rc<List<InlinePulseToken>>,
    fuel: u64,
) -> (Elaborator, Rc<List<InlinePulseToken>>)
    decreases fuel, 4nat, l,
{
    match *l {
        List::Nil => (st, spec_nil()),
        List::Cons(h, t) => {
            let (st, d) = spec_elab_token(st, env, h, fuel);
            let env2 = spec_push_declared(env, spec_l1(d));
            let (st, v2) = spec_elab_tokens(st, env2, t, fuel);
            (st, spec_cons(d, v2))
        },
    }
}

/// A member access after its record was elaborated.
///
/// As the state that [`Elaborator::resolve_member`] leaves, with its result.
#[verifier::opaque]
pub open spec fn spec_resolve_member(
    st: Elaborator,
    env: Env,
    e: Rc<Expr>,
    x: Rc<Expr>,
    a: Rc<Ident>,
) -> (Elaborator, Step)
{
    match spec_active_arm(env, x, a) {
        Some(arm) => {
            let (st, v1) = spec_resolve_active(st, env, e, x, arm);
            (st, Step::Done(v1))
        },
        None => {
            match spec_infer_whnf(env, x) {
                None => (st, Step::Done(spec_with_child(e, x))),
                Some(t) => {
                    match t.val {
                        TypeT::Pointer(_, PointerKind::Array) if spec_text_is(a.val, "_length") => (st, Step::Done(spec_mk_expr(e.loc, ExprT::VAttr(VAttr::Length, x)))),
                        TypeT::FixedArray(_, _) if spec_text_is(a.val, "_length") => (st, Step::Done(spec_mk_expr(e.loc, ExprT::VAttr(VAttr::Length, x)))),
                        TypeT::FlexArray(_) if spec_text_is(a.val, "_length") => (st, Step::Done(spec_mk_expr(e.loc, ExprT::VAttr(VAttr::Length, x)))),
                        TypeT::TypeRef(k) => spec_resolve_field(st, env, e, x, a, k),
                        _ => {
                            let (st, v2) = spec_rejected(st, spec_cat(spec_lit("not a structure type: "), spec_show_type(t)), e.loc, spec_with_child(e, x));
                            (st, Step::Done(v2))
                        },
                    }
                },
            }
        },
    }
}

/// The test whether an arm of a union is active.
///
/// As the state that [`Elaborator::resolve_active`] leaves, with its result.
#[verifier::opaque]
pub open spec fn spec_resolve_active(
    st: Elaborator,
    env: Env,
    e: Rc<Expr>,
    x: Rc<Expr>,
    arm: Arm,
) -> (Elaborator, Rc<Expr>)
{
    match spec_lookup_union(env, arm.union_name) {
        None => spec_rejected(st, spec_cat(spec_lit("unknown union "), arm.union_name.val), e.loc, spec_with_child(e, x)),
        Some(u) => {
            if spec_find_field(u.fields, arm.field).is_none() {
                spec_rejected(st, spec_cat4(spec_lit("no field "), arm.field.val, spec_lit(" in union "), arm.union_name.val), e.loc, spec_with_child(e, x))
            } else {
                (st, spec_mk_expr(e.loc, ExprT::VAttr(VAttr::Active(arm.field), arm.base)))
            }
        },
    }
}

/// The access to a field of a record, directly or through anonymous members.
///
/// As the state that [`Elaborator::resolve_field`] leaves, with its result.
#[verifier::opaque]
pub open spec fn spec_resolve_field(
    st: Elaborator,
    env: Env,
    e: Rc<Expr>,
    x: Rc<Expr>,
    a: Rc<Ident>,
    k: TypeRefKind,
) -> (Elaborator, Step)
{
    let kept = spec_with_child(e, x);
    match spec_record_fields(env, k) {
        None => {
            match k {
                TypeRefKind::Struct(n) => {
                    let (st, v1) = spec_rejected(st, spec_cat(spec_lit("unknown structure "), n.val), e.loc, kept);
                    (st, Step::Done(v1))
                },
                TypeRefKind::Union(n) => {
                    let (st, v2) = spec_rejected(st, spec_cat(spec_lit("unknown union "), n.val), e.loc, kept);
                    (st, Step::Done(v2))
                },
                TypeRefKind::Typedef(n) => {
                    let (st, v3) = spec_rejected(st, spec_cat(spec_lit("not a structure type: "), n.val), e.loc, kept);
                    (st, Step::Done(v3))
                },
            }
        },
        Some(fields) => {
            if spec_find_field(fields, a).is_some() {
                (st, Step::Done(kept))
            } else {
                match spec_indirect_field_path(env, k, a, spec_plus(spec_list_len(env.structs), spec_list_len(env.unions))) {
                    Some(path) => (st, Step::Redo(spec_mk_expr(e.loc, ExprT::Member(spec_select_all(x, path, e.loc), a)))),
                    None => {
                        match k {
                            TypeRefKind::Union(n) => {
                                let (st, v4) = spec_rejected(st, spec_cat4(spec_lit("no field "), a.val, spec_lit(" in union "), n.val), e.loc, kept);
                                (st, Step::Done(v4))
                            },
                            TypeRefKind::Struct(n) => {
                                let (st, v5) = spec_rejected(st, spec_cat4(spec_lit("no field "), a.val, spec_lit(" in structure "), n.val), e.loc, kept);
                                (st, Step::Done(v5))
                            },
                            TypeRefKind::Typedef(n) => {
                                let (st, v6) = spec_rejected(st, spec_cat4(spec_lit("no field "), a.val, spec_lit(" in structure "), n.val), e.loc, kept);
                                (st, Step::Done(v6))
                            },
                        }
                    },
                }
            }
        },
    }
}

/// The elaborated member access: `_active` on a union's arm and `_length` on an array are
/// attributes of the value.
///
/// As the state that [`Elaborator::elab_member`] leaves, with its result.
pub open spec fn spec_elab_member(
    st: Elaborator,
    env: Env,
    e: Rc<Expr>,
    x: Rc<Expr>,
    a: Rc<Ident>,
    expected: Option<Rc<Type>>,
    fuel: u64,
) -> (Elaborator, Rc<Expr>)
    decreases fuel, 6nat,
{
    let (st, r) = spec_elab_rvalue(st, env, x, None, fuel);
    let (st, v2) = spec_resolve_member(st, env, e, r, a);
    match v2 {
        Step::Done(d) => (st, d),
        Step::Redo(d) => spec_elab_rvalue(st, env, d, expected, fuel),
    }
}

/// The elaborated address.
///
/// As the state that [`Elaborator::elab_ref`] leaves, with its result.
pub open spec fn spec_elab_ref(
    st: Elaborator,
    env: Env,
    e: Rc<Expr>,
    a: Rc<Expr>,
    expected: Option<Rc<Type>>,
    fuel: u64,
) -> (Elaborator, Rc<Expr>)
    decreases fuel, 6nat,
{
    let (st, v) = spec_elab_rvalue(st, env, a, None, fuel);
    match spec_cell_sum(env, e, v, expected) {
        Some(sum) => spec_elab_rvalue(st, env, sum, expected, fuel),
        None => {
            let st = if !spec_is_addressable(env, v) {
                let st = spec_report(st, spec_cat(spec_lit("expected lvalue for &, got "), spec_show_expr(v)), e.loc);
                st
            } else {
                st
            };
            (st, spec_with_child(e, v))
        },
    }
}

/// An operation after its operands were elaborated: they are converted to a common type.
///
/// As the state that [`Elaborator::elab_operation`] leaves, with its result.
#[verifier::opaque]
pub open spec fn spec_elab_operation(
    st: Elaborator,
    env: Env,
    e: Rc<Expr>,
    op: BinOp,
    a: Rc<Expr>,
    b: Rc<Expr>,
) -> (Elaborator, Rc<Expr>)
{
    let (st, v1) = spec_infer_or_report(st, env, a);
    match v1 {
        None => (st, spec_with_children(e, a, b)),
        Some(s) => {
            let (st, v2) = spec_infer_or_report(st, env, b);
            match v2 {
                None => (st, spec_with_children(e, a, b)),
                Some(t) => {
                    match spec_special_equality(env, e, op, a, b, s, t) {
                        Some(r) => (st, r),
                        None => spec_elab_typed_operation(st, env, e, op, a, b, s, t),
                    }
                },
            }
        },
    }
}

/// The operands of an operation at the type that they have in common, or a report that there is
/// none.
///
/// As the state that [`Elaborator::elab_meet`] leaves, with its result.
#[verifier::opaque]
pub open spec fn spec_elab_meet(
    st: Elaborator,
    env: Env,
    e: Rc<Expr>,
    op: BinOp,
    a: Rc<Expr>,
    b: Rc<Expr>,
    s: Rc<Type>,
    t: Rc<Type>,
) -> (Elaborator, Rc<Expr>)
{
    match spec_meet_type(env, s, t) {
        Some(m) => (st, spec_convert_both(env, e, a, b, s, t, spec_promoted(env, op, a, m))),
        None => spec_rejected(st, spec_cat(spec_cat4(spec_lit("cannot apply "), spec_show_binop(op), spec_lit(" to arguments of type "), spec_show_type(s)), spec_cat(spec_lit(" and "), spec_show_type(t))), e.loc, spec_with_children(e, a, b)),
    }
}

/// An operation, given the types of its operands.
///
/// As the state that [`Elaborator::elab_typed_operation`] leaves, with its result.
#[verifier::opaque]
pub open spec fn spec_elab_typed_operation(
    st: Elaborator,
    env: Env,
    e: Rc<Expr>,
    op: BinOp,
    a: Rc<Expr>,
    b: Rc<Expr>,
    s: Rc<Type>,
    t: Rc<Type>,
) -> (Elaborator, Rc<Expr>)
{
    let left_ptr = spec_array_elem(env, s).is_some();
    let right_ptr = spec_array_elem(env, t).is_some();
    match op {
        BinOp::Elvis => {
            match spec_meet_type(env, s, t) {
                Some(m) => (st, spec_convert_both(env, e, a, b, s, t, m)),
                None => spec_rejected(st, spec_cat4(spec_lit("cannot apply ?: to arguments of type "), spec_show_type(s), spec_lit(" and "), spec_show_type(t)), e.loc, spec_with_children(e, a, b)),
            }
        },
        BinOp::LogAnd | BinOp::LogOr | BinOp::Implies => {
            match spec_meet_type(env, s, t) {
                Some(m) => {
                    if spec_is_slprop(env, m) {
                        (st, spec_convert_both(env, e, a, b, s, t, m))
                    } else {
                        (st, spec_with_children(e, spec_as_bool(env, a), spec_as_bool(env, b)))
                    }
                },
                None => (st, spec_with_children(e, spec_as_bool(env, a), spec_as_bool(env, b))),
            }
        },
        BinOp::Shl | BinOp::Shr => (st, spec_with_children(e, a, spec_convert(env, b, t, spec_mk_type(b.loc, TypeT::Int { signed: false, width: 32 })))),
        BinOp::Add => {
            if left_ptr && !right_ptr {
                (st, spec_with_children(e, a, spec_as_size(env, b)))
            } else {
                if right_ptr && !left_ptr {
                    (st, spec_with_children(e, spec_as_size(env, a), b))
                } else {
                    spec_elab_meet(st, env, e, op, a, b, s, t)
                }
            }
        },
        BinOp::Sub => {
            if left_ptr && !right_ptr {
                (st, spec_with_children(e, a, spec_as_size(env, b)))
            } else {
                spec_elab_meet(st, env, e, op, a, b, s, t)
            }
        },
        _ => spec_elab_meet(st, env, e, op, a, b, s, t),
    }
}

/// The elaborated propositions.
///
/// As the state that [`Elaborator::elab_slprops`] leaves, with its result.
pub open spec fn spec_elab_slprops(
    st: Elaborator,
    env: Env,
    l: Rc<List<Expr>>,
) -> (Elaborator, Rc<List<Expr>>)
    decreases l,
{
    match *l {
        List::Nil => (st, spec_nil()),
        List::Cons(h, t) => {
            let (st, d) = spec_elab_slprop(st, env, h, spec_any_depth());
            let (st, v2) = spec_elab_slprops(st, env, t);
            (st, spec_cons(d, v2))
        },
    }
}

/// The elaborated conditions.
///
/// As the state that [`Elaborator::elab_bools`] leaves, with its result.
pub open spec fn spec_elab_bools(
    st: Elaborator,
    env: Env,
    l: Rc<List<Expr>>,
) -> (Elaborator, Rc<List<Expr>>)
    decreases l,
{
    match *l {
        List::Nil => (st, spec_nil()),
        List::Cons(h, t) => {
            let (st, d) = spec_elab_bool(st, env, h, spec_any_depth());
            let (st, v2) = spec_elab_bools(st, env, t);
            (st, spec_cons(d, v2))
        },
    }
}

/// An elaborated assignment.
///
/// As the state that [`Elaborator::elab_assign`] leaves, with its result.
#[verifier::opaque]
pub open spec fn spec_elab_assign(
    st: Elaborator,
    env: Env,
    s: Rc<Stmt>,
    x: Rc<Expr>,
    v: Rc<Expr>,
) -> (Elaborator, Rc<Stmt>)
{
    let (st, x2) = spec_elab_lvalue(st, env, x, spec_any_depth());
    let (st, v2) = spec_elab_rvalue(st, env, v, spec_infer_expr(env, x2), spec_any_depth());
    let st = spec_check_flex_array_assign(st, env, x2);
    let v3 = spec_cast_assigned(env, x2, v2);
    (st, spec_mk_stmt(s.loc, StmtT::Assign(x2, v3)))
}

/// An elaborated statement that holds no others.
///
/// As the state that [`Elaborator::elab_simple_stmt`] leaves, with its result.
#[verifier::opaque]
pub open spec fn spec_elab_simple_stmt(
    st: Elaborator,
    env: Env,
    s: Rc<Stmt>,
) -> (Elaborator, Rc<Stmt>)
{
    match s.val {
        StmtT::Call(e) => {
            let (st, r) = spec_elab_rvalue(st, env, e, None, spec_any_depth());
            (st, spec_mk_stmt(s.loc, StmtT::Call(r)))
        },
        StmtT::Decl(x, ty) => {
            let (st, t) = spec_elab_type(st, env, ty, spec_any_depth());
            (st, spec_mk_stmt(s.loc, StmtT::Decl(x, t)))
        },
        StmtT::Let(x, ty, e) => {
            let (st, t) = spec_elab_type(st, env, ty, spec_any_depth());
            let (st, r) = spec_elab_at(st, env, e, t, spec_any_depth());
            (st, spec_mk_stmt(s.loc, StmtT::Let(x, t, r)))
        },
        StmtT::DeclStackArray { name, elem_type, size } => {
            let (st, t) = spec_elab_type(st, env, elem_type, spec_any_depth());
            let (st, n) = spec_elab_size(st, env, size, spec_any_depth());
            (st, spec_mk_stmt(s.loc, StmtT::DeclStackArray { name, elem_type: t, size: n }))
        },
        StmtT::Assign(x, v) => spec_elab_assign(st, env, s, x, v),
        StmtT::Return(Some(e)) => {
            let (st, r) = spec_elab_rvalue(st, env, e, env.return_type, spec_any_depth());
            (st, spec_mk_stmt(s.loc, StmtT::Return(Some(spec_cast_to_opt(env, r, env.return_type)))))
        },
        StmtT::Assert(e) => {
            let (st, r) = spec_elab_slprop(st, env, e, spec_any_depth());
            (st, spec_mk_stmt(s.loc, StmtT::Assert(r)))
        },
        StmtT::GhostStmt(code) => {
            let (st, c) = spec_elab_code(st, env, code, spec_any_depth());
            (st, spec_mk_stmt(s.loc, StmtT::GhostStmt(c)))
        },
        StmtT::Label { name, ensures_ } => {
            let (st, l) = spec_elab_slprops(st, env, ensures_);
            (st, spec_mk_stmt(s.loc, StmtT::Label { name, ensures_: l }))
        },
        _ => (st, s),
    }
}

/// An elaborated declaration of a variable, where `later` are the statements after it.
///
/// As the state that [`Elaborator::elab_decl_stmt`] leaves, with its result.
#[verifier::opaque]
pub open spec fn spec_elab_decl_stmt(
    st: Elaborator,
    env: Env,
    s: Rc<Stmt>,
    x: Rc<Ident>,
    ty: Rc<Type>,
    later: Rc<List<Stmt>>,
) -> (Elaborator, Rc<Stmt>)
{
    let (st, t) = spec_elab_type(st, env, spec_settled_type(env, x, ty, later), spec_any_depth());
    (st, spec_mk_stmt(s.loc, StmtT::Decl(x, t)))
}

/// An elaborated statement.
///
/// As the state that [`Elaborator::elab_stmt`] leaves, with its result.
pub open spec fn spec_elab_stmt(st: Elaborator, env: Env, s: Rc<Stmt>) -> (Elaborator, Rc<Stmt>)
    decreases s, 1nat,
{
    match s.val {
        StmtT::If { cond, then_branch, else_branch, ensures_ } => {
            let (st, c) = spec_elab_bool(st, env, cond, spec_any_depth());
            let (st, e) = spec_elab_slprops(st, env, ensures_);
            let (st, a) = spec_elab_stmts(st, env, then_branch);
            let (st, b) = spec_elab_stmts(st, env, else_branch);
            (st, spec_mk_stmt(s.loc, StmtT::If { cond: c, then_branch: a, else_branch: b, ensures_: e }))
        },
        StmtT::Match { scrutinee, branches, default_branch, ensures_ } => {
            let (st, x) = spec_elab_rvalue(st, env, scrutinee, None, spec_any_depth());
            let (st, bs) = spec_elab_branches(st, env, spec_infer_expr(env, x), branches);
            let (st, d) = spec_elab_stmts(st, env, default_branch);
            let (st, e) = spec_elab_slprops(st, env, ensures_);
            (st, spec_mk_stmt(s.loc, StmtT::Match { scrutinee: x, branches: bs, default_branch: d, ensures_: e }))
        },
        StmtT::While { cond, inv, requires_, ensures_, body } => {
            let (st, c) = spec_elab_bool(st, env, cond, spec_any_depth());
            let (st, i) = spec_elab_slprops(st, env, inv);
            let (st, r) = spec_elab_bools(st, env, requires_);
            let (st, e) = spec_elab_bools(st, env, ensures_);
            let (st, b) = spec_elab_stmts(st, env, body);
            (st, spec_mk_stmt(s.loc, StmtT::While { cond: c, inv: i, requires_: r, ensures_: e, body: b }))
        },
        StmtT::GotoBlock { body, label, ensures_ } => {
            let (st, b) = spec_elab_stmts(st, env, body);
            let (st, e) = spec_elab_slprops(st, env, ensures_);
            (st, spec_mk_stmt(s.loc, StmtT::GotoBlock { body: b, label, ensures_: e }))
        },
        _ => spec_elab_simple_stmt(st, env, s),
    }
}

/// An elaborated branch.
///
/// As the state that [`Elaborator::elab_branch`] leaves, with its result.
pub open spec fn spec_elab_branch(
    st: Elaborator,
    env: Env,
    subject: Option<Rc<Type>>,
    b: Rc<Branch>,
) -> (Elaborator, Rc<Branch>)
    decreases b, 0nat,
{
    let (st, ps) = spec_elab_rvalues(st, env, b.patterns, subject, spec_any_depth());
    let (st, body) = spec_elab_stmts(st, env, b.body);
    (st, Rc::new(Branch { patterns: ps, body }))
}

/// The elaborated branches.
///
/// As the state that [`Elaborator::elab_branches`] leaves, with its result.
pub open spec fn spec_elab_branches(
    st: Elaborator,
    env: Env,
    subject: Option<Rc<Type>>,
    l: Rc<List<Branch>>,
) -> (Elaborator, Rc<List<Branch>>)
    decreases l, 0nat,
{
    match *l {
        List::Nil => (st, spec_nil()),
        List::Cons(h, t) => {
            let (st, b) = spec_elab_branch(st, env, subject, h);
            let (st, v2) = spec_elab_branches(st, env, subject, t);
            (st, spec_cons(b, v2))
        },
    }
}

/// The elaborated statements, each in the scope that those before it leave.
///
/// As the state that [`Elaborator::elab_stmts`] leaves, with its result.
pub open spec fn spec_elab_stmts(
    st: Elaborator,
    env: Env,
    l: Rc<List<Stmt>>,
) -> (Elaborator, Rc<List<Stmt>>)
    decreases l, 2nat,
{
    match *l {
        List::Nil => (st, spec_nil()),
        List::Cons(h, t) => {
            let (st, s) = match h.val {
                StmtT::Decl(x, ty) => spec_elab_decl_stmt(st, env, h, x, ty, t),
                _ => spec_elab_stmt(st, env, h),
            };
            let r = spec_lower_expr(s);
            let (st, v2) = spec_elab_stmts(st, spec_push_stmt(env, r), t);
            (st, spec_cons(r, v2))
        },
    }
}

/// The elaborated ghost parameters, each in the scope of those before it.
///
/// As the state that [`Elaborator::elab_ghost_args`] leaves, with its result.
pub open spec fn spec_elab_ghost_args(
    st: Elaborator,
    env: Env,
    l: Rc<List<GhostArg>>,
) -> (Elaborator, Rc<List<GhostArg>>)
    decreases l,
{
    match *l {
        List::Nil => (st, spec_nil()),
        List::Cons(h, t) => {
            let (st, ty) = spec_elab_type(st, env, h.ty, spec_any_depth());
            let g = Rc::new(GhostArg { name: h.name, ty });
            let (st, v2) = spec_elab_ghost_args(st, spec_push_var_decl(env, h.name, ty, LocalDeclKind::RValue), t);
            (st, spec_cons(g, v2))
        },
    }
}

/// The elaborated parameters, each in the scope of those before it: a refinement may speak of an
/// earlier parameter.
///
/// As the state that [`Elaborator::elab_args`] leaves, with its result.
pub open spec fn spec_elab_args(
    st: Elaborator,
    env: Env,
    l: Rc<List<FnArg>>,
) -> (Elaborator, Rc<List<FnArg>>)
    decreases l,
{
    match *l {
        List::Nil => (st, spec_nil()),
        List::Cons(h, t) => {
            let (st, ty) = spec_elab_type(st, env, h.ty, spec_any_depth());
            let a = Rc::new(FnArg { name: spec_clone_opt_ident(h.name), ty, mode: h.mode });
            let (st, v2) = spec_elab_args(st, spec_push_arg(env, a, LocalDeclKind::RValue), t);
            (st, spec_cons(a, v2))
        },
    }
}

/// The elaborated parameters of a specification function, all in the same scope.
///
/// As the state that [`Elaborator::elab_params`] leaves, with its result.
pub open spec fn spec_elab_params(
    st: Elaborator,
    env: Env,
    l: Rc<List<FnArg>>,
) -> (Elaborator, Rc<List<FnArg>>)
    decreases l,
{
    match *l {
        List::Nil => (st, spec_nil()),
        List::Cons(h, t) => {
            let (st, ty) = spec_elab_type(st, env, h.ty, spec_any_depth());
            let a = Rc::new(FnArg { name: spec_clone_opt_ident(h.name), ty, mode: h.mode });
            let (st, v2) = spec_elab_params(st, env, t);
            (st, spec_cons(a, v2))
        },
    }
}

/// The elaborated measure.
///
/// As the state that [`Elaborator::elab_measure`] leaves, with its result.
#[verifier::opaque]
pub open spec fn spec_elab_measure(
    st: Elaborator,
    env: Env,
    m: Option<Rc<Expr>>,
) -> (Elaborator, Option<Rc<Expr>>)
{
    match m {
        Some(e) => {
            let (st, r) = spec_elab_rvalue(st, env, e, None, spec_any_depth());
            (st, Some(spec_as_measure(env, r)))
        },
        None => (st, None),
    }
}

/// The elaborated signature and contract.
///
/// As the state that [`Elaborator::elab_fn_decl`] leaves, with its result.
#[verifier::opaque]
pub open spec fn spec_elab_fn_decl(
    st: Elaborator,
    env: Env,
    d: Rc<FnDecl>,
) -> (Elaborator, Rc<FnDecl>)
{
    let (st, ghost_args) = spec_elab_ghost_args(st, env, d.ghost_args);
    let env1 = spec_push_ghost_args(env, ghost_args);
    let (st, args) = spec_elab_args(st, env1, d.args);
    let env2 = spec_push_args(env1, args, LocalDeclKind::RValue);
    let (st, requires_) = spec_elab_slprops(st, env2, d.requires_);
    let (st, ret_type) = spec_elab_type(st, env2, d.ret_type, spec_any_depth());
    let env3 = spec_push_return(env2, ret_type);
    let (st, ensures_) = spec_elab_slprops(st, env3, d.ensures_);
    let (st, decreases_) = spec_elab_measure(st, env3, d.decreases_);
    (st, Rc::new(FnDecl { name: d.name, ret_type, args, ghost_args, requires_, ensures_, is_pure: d.is_pure, is_rec: d.is_rec, is_total: d.is_total, decreases_ }))
}

/// The elaborated types of a signature.
///
/// As the state that [`Elaborator::elab_signature`] leaves, with its result.
#[verifier::opaque]
pub open spec fn spec_elab_signature(
    st: Elaborator,
    env: Env,
    d: Rc<FnDecl>,
) -> (Elaborator, Rc<FnDecl>)
{
    let (st, ghost_args) = spec_elab_ghost_args(st, env, d.ghost_args);
    let env1 = spec_push_ghost_args(env, ghost_args);
    let (st, args) = spec_elab_args(st, env1, d.args);
    let env2 = spec_push_args(env1, args, LocalDeclKind::RValue);
    let (st, ret_type) = spec_elab_type(st, env2, d.ret_type, spec_any_depth());
    (st, spec_with_signature(d, ghost_args, args, ret_type))
}

/// The elaborated fields. The refinement of a flexible array member may speak of the others.
///
/// As the state that [`Elaborator::elab_fields`] leaves, with its result.
pub open spec fn spec_elab_fields(
    st: Elaborator,
    env: Env,
    l: Rc<List<Field>>,
    siblings: Rc<List<Field>>,
) -> (Elaborator, Rc<List<Field>>)
    decreases l,
{
    match *l {
        List::Nil => (st, spec_nil()),
        List::Cons(h, t) => {
            let (st, ty) = spec_elab_type(st, spec_field_env(env, h, siblings), spec_field_type(h), spec_any_depth());
            let (st, v2) = spec_elab_fields(st, env, t, siblings);
            (st, spec_cons(spec_with_field_type(h, ty), v2))
        },
    }
}

/// An elaborated typedef.
///
/// As the state that [`Elaborator::elab_typedef`] leaves, with its result.
#[verifier::opaque]
pub open spec fn spec_elab_typedef(
    st: Elaborator,
    env: Env,
    t: Rc<TypeDefn>,
) -> (Elaborator, Rc<TypeDefn>)
{
    let st = Elaborator { in_view_body: t.is_pointer_view, ..st };
    let (st, body) = spec_elab_type(st, env, t.body, spec_any_depth());
    let st = Elaborator { in_view_body: false, ..st };
    (st, Rc::new(TypeDefn { name: t.name, body, is_pointer_view: t.is_pointer_view }))
}

/// An elaborated struct.
///
/// As the state that [`Elaborator::elab_struct`] leaves, with its result.
#[verifier::opaque]
pub open spec fn spec_elab_struct(
    st: Elaborator,
    env: Env,
    s: Rc<StructDefn>,
) -> (Elaborator, Rc<StructDefn>)
{
    let (st, refines) = spec_elab_type(st, env, s.refines, spec_any_depth());
    let (st, fields) = spec_elab_fields(st, env, s.fields, s.fields);
    (st, Rc::new(StructDefn { name: s.name, refines, fields, eager_unfold_pred: s.eager_unfold_pred }))
}

/// An elaborated union.
///
/// As the state that [`Elaborator::elab_union`] leaves, with its result.
#[verifier::opaque]
pub open spec fn spec_elab_union(
    st: Elaborator,
    env: Env,
    u: Rc<UnionDefn>,
) -> (Elaborator, Rc<UnionDefn>)
{
    let (st, fields) = spec_elab_fields(st, env, u.fields, u.fields);
    (st, Rc::new(UnionDefn { name: u.name, fields }))
}

/// An elaborated specification function.
///
/// As the state that [`Elaborator::elab_let`] leaves, with its result.
#[verifier::opaque]
pub open spec fn spec_elab_let(
    st: Elaborator,
    env: Env,
    l: Rc<LetDecl>,
) -> (Elaborator, Rc<LetDecl>)
{
    let (st, ret_type) = spec_elab_type(st, env, l.ret_type, spec_any_depth());
    let (st, params) = spec_elab_params(st, env, l.params);
    let env2 = spec_push_args(env, params, LocalDeclKind::LValue);
    let (st, requires_) = spec_elab_rvalues(st, env2, l.requires_, None, spec_any_depth());
    let (st, ensures_) = spec_elab_rvalues(st, env2, l.ensures_, None, spec_any_depth());
    let (st, body1) = spec_elab_rvalue(st, env2, l.body, Some(ret_type), spec_any_depth());
    let body = if matches!(ret_type.val, TypeT::SLProp) {
        spec_as_slprop(env2, body1)
    } else {
        spec_cast_if_needed(env2, body1, ret_type)
    };
    (st, Rc::new(LetDecl { name: l.name, is_rec: l.is_rec, is_impure: l.is_impure, ret_type, params, requires_, ensures_, body }))
}

/// A global with an elaborated type, and its value if that is to be elaborated.
///
/// As the state that [`Elaborator::elab_global`] leaves, with its result.
#[verifier::opaque]
pub open spec fn spec_elab_global(
    st: Elaborator,
    env: Env,
    g: Rc<GlobalVar>,
    with_init: bool,
) -> (Elaborator, Rc<GlobalVar>)
{
    let (st, ty) = spec_elab_type(st, env, g.ty, spec_any_depth());
    let (st, init) = match g.init {
        Some(e) => {
            if with_init {
                let (st, v3) = spec_elab_rvalue(st, env, e, Some(ty), spec_any_depth());
                (st, Some(v3))
            } else {
                (st, Some(e))
            }
        },
        None => (st, None),
    };
    (st, Rc::new(GlobalVar { name: g.name, ty, init, is_pure: g.is_pure, is_external: g.is_external, opaque_to_smt: g.opaque_to_smt, is_enum_constant: g.is_enum_constant }))
}

/// The declaration with the types of its signature, fields or body elaborated, so that others
/// see them settled whatever their order.
///
/// As the state that [`Elaborator::elab_decl_types`] leaves, with its result.
#[verifier::opaque]
pub open spec fn spec_elab_decl_types(
    st: Elaborator,
    env: Env,
    d: Rc<Decl>,
) -> (Elaborator, Rc<Decl>)
{
    match d.val {
        DeclT::FnDefn(f) => {
            let (st, s) = spec_elab_signature(st, env, f.decl);
            (st, spec_mk_decl(d.loc, DeclT::FnDefn(Rc::new(FnDefn { decl: s, body: f.body }))))
        },
        DeclT::FnDecl(f) => {
            let (st, s) = spec_elab_signature(st, env, f);
            (st, spec_mk_decl(d.loc, DeclT::FnDecl(s)))
        },
        DeclT::Typedef(t) => {
            let (st, r) = spec_elab_typedef(st, env, t);
            (st, spec_mk_decl(d.loc, DeclT::Typedef(r)))
        },
        DeclT::StructDefn(t) => {
            let (st, r) = spec_elab_struct(st, env, t);
            (st, spec_mk_decl(d.loc, DeclT::StructDefn(r)))
        },
        DeclT::UnionDefn(t) => {
            let (st, r) = spec_elab_union(st, env, t);
            (st, spec_mk_decl(d.loc, DeclT::UnionDefn(r)))
        },
        DeclT::LetDecl(l) => {
            let (st, params) = spec_elab_params(st, env, l.params);
            let (st, ret_type) = spec_elab_type(st, env, l.ret_type, spec_any_depth());
            (st, spec_mk_decl(d.loc, DeclT::LetDecl(Rc::new(LetDecl { name: l.name, is_rec: l.is_rec, is_impure: l.is_impure, ret_type, params, requires_: l.requires_, ensures_: l.ensures_, body: l.body }))))
        },
        DeclT::GlobalVar(g) => {
            let (st, r) = spec_elab_global(st, env, g, false);
            (st, spec_mk_decl(d.loc, DeclT::GlobalVar(r)))
        },
        _ => (st, d),
    }
}

/// The elaborated declaration.
///
/// As the state that [`Elaborator::elab_decl`] leaves, with its result.
#[verifier::opaque]
pub open spec fn spec_elab_decl(st: Elaborator, env: Env, d: Rc<Decl>) -> (Elaborator, Rc<Decl>)
{
    match d.val {
        DeclT::FnDefn(f) => {
            let (st, s) = spec_elab_fn_decl(st, env, f.decl);
            let (st, body) = spec_elab_stmts(st, spec_push_fn_decl_args_for_body(env, s), f.body);
            (st, spec_mk_decl(d.loc, DeclT::FnDefn(Rc::new(FnDefn { decl: s, body }))))
        },
        DeclT::FnDecl(f) => {
            let (st, s) = spec_elab_fn_decl(st, env, f);
            (st, spec_mk_decl(d.loc, DeclT::FnDecl(s)))
        },
        DeclT::Typedef(t) => {
            let (st, r) = spec_elab_typedef(st, env, t);
            (st, spec_mk_decl(d.loc, DeclT::Typedef(r)))
        },
        DeclT::StructDefn(t) => {
            let (st, r) = spec_elab_struct(st, env, t);
            (st, spec_mk_decl(d.loc, DeclT::StructDefn(r)))
        },
        DeclT::UnionDefn(t) => {
            let (st, r) = spec_elab_union(st, env, t);
            (st, spec_mk_decl(d.loc, DeclT::UnionDefn(r)))
        },
        DeclT::StructDecl(_) => (st, d),
        DeclT::IncludeDecl(i) => {
            let (st, code) = spec_elab_code(st, env, i.code, spec_any_depth());
            (st, spec_mk_decl(d.loc, DeclT::IncludeDecl(Rc::new(IncludeDecl { module_name: i.module_name, code }))))
        },
        DeclT::OpaqueTypeDecl(o) => {
            let (st, code) = spec_elab_code(st, env, o.code, spec_any_depth());
            (st, spec_mk_decl(d.loc, DeclT::OpaqueTypeDecl(Rc::new(OpaqueTypeDecl { name: o.name, code }))))
        },
        DeclT::LetDecl(l) => {
            let (st, r) = spec_elab_let(st, env, l);
            (st, spec_mk_decl(d.loc, DeclT::LetDecl(r)))
        },
        DeclT::GlobalVar(g) => {
            let (st, r) = spec_elab_global(st, env, g, true);
            (st, spec_mk_decl(d.loc, DeclT::GlobalVar(r)))
        },
    }
}

/// The declaration with its signature elaborated in advance, where it is a recursive function:
/// its own calls have to see it settled.
///
/// As the state that [`Elaborator::elab_rec_signature`] leaves, with its result.
#[verifier::opaque]
pub open spec fn spec_elab_rec_signature(
    st: Elaborator,
    env: Env,
    d: Rc<Decl>,
) -> (Elaborator, Rc<Decl>)
{
    match d.val {
        DeclT::FnDefn(f) => {
            if f.decl.is_rec {
                let (st, s) = spec_elab_fn_decl(st, env, f.decl);
                (st, spec_mk_decl(d.loc, DeclT::FnDefn(Rc::new(FnDefn { decl: s, body: f.body }))))
            } else {
                (st, d)
            }
        },
        _ => (st, d),
    }
}

/// The declarations with their types elaborated, and the scope that they leave.
///
/// As the state that [`Elaborator::elab_all_types`] leaves, with its result.
pub open spec fn spec_elab_all_types(
    st: Elaborator,
    env: Env,
    l: Rc<List<Decl>>,
) -> (Elaborator, Rc<List<Decl>>)
    decreases l,
{
    match *l {
        List::Nil => (st, spec_nil()),
        List::Cons(h, t) => {
            let (st, d) = spec_elab_decl_types(st, env, h);
            let (st, v2) = spec_elab_all_types(st, spec_push_decl(env, d), t);
            (st, spec_cons(d, v2))
        },
    }
}

/// The elaborated declarations, each in the scope that those before it leave.
///
/// As the state that [`Elaborator::elab_all`] leaves, with its result.
pub open spec fn spec_elab_all(
    st: Elaborator,
    env: Env,
    l: Rc<List<Decl>>,
) -> (Elaborator, Rc<List<Decl>>)
    decreases l,
{
    match *l {
        List::Nil => (st, spec_nil()),
        List::Cons(h, t) => {
            let (st, d) = spec_elab_rec_signature(st, env, h);
            let env1 = spec_enter_decl(env, d);
            let (st, r) = spec_elab_decl(st, env1, d);
            let (st, v3) = spec_elab_all(st, spec_push_decl(env1, r), t);
            (st, spec_cons(r, v3))
        },
    }
}

/// The views that typedefs register, after those known already. One whose body is no pointer to
/// a named type is reported, and so is a second one for a type.
///
/// As the state that [`Elaborator::build_pointer_views`] leaves.
pub open spec fn spec_build_pointer_views(st: Elaborator, env: Env, l: Rc<List<Decl>>) -> Elaborator
    decreases l,
{
    match *l {
        List::Nil => st,
        List::Cons(h, t) => {
            let st = match h.val {
                DeclT::Typedef(td) => {
                    if td.is_pointer_view {
                        let st = spec_register_view(st, env, td);
                        st
                    } else {
                        st
                    }
                },
                _ => st,
            };
            let st = spec_build_pointer_views(st, env, t);
            st
        },
    }
}

/// Registers the view that a typedef is.
///
/// As the state that [`Elaborator::register_view`] leaves.
#[verifier::opaque]
pub open spec fn spec_register_view(st: Elaborator, env: Env, td: Rc<TypeDefn>) -> Elaborator
{
    match spec_view_pointee(td.body) {
        None => spec_report(st, spec_cat3(spec_lit("_pointer_view typedef `"), td.name.val, spec_lit("` must be a pointer to a named type")), td.name.loc),
        Some(k) => {
            match spec_find_view(st.pointer_views, spec_canon(env, k)) {
                Some(other) => spec_report(st, spec_cat5(spec_lit("duplicate _pointer_view for the same pointee: `"), td.name.val, spec_lit("` conflicts with `"), other.val, spec_lit("`")), td.name.loc),
                None => {
                    let st = Elaborator { pointer_views: spec_cons(Rc::new(PointerView { key: spec_canon(env, k), name: td.name }), st.pointer_views), ..st };
                    st
                },
            }
        },
    }
}

/// The elaborated declarations of a translation unit. First every type is elaborated, and then
/// everything else, so that the order of declarations does not matter.
///
/// As the state that [`Elaborator::elab_unit`] leaves, with its result.
#[verifier::opaque]
pub open spec fn spec_elab_unit(st: Elaborator, l: Rc<List<Decl>>) -> (Elaborator, Rc<List<Decl>>)
{
    let env = spec_push_decls(spec_empty_env(), l);
    let st = spec_build_pointer_views(st, env, l);
    let (st, typed) = spec_elab_all_types(st, env, l);
    spec_elab_all(st, spec_push_decls(env, typed), typed)
}

impl Elaborator {
    /// Reports an error.
    pub fn report(&mut self, msg: Text, loc: &Loc)
        ensures
            *final(self) == spec_report(*old(self), msg, *loc),
            extends(final(self).diags, old(self).diags),
            final(self).in_inline_pulse == old(self).in_inline_pulse,
            final(self).pointer_views == old(self).pointer_views,
    {
        proof {
            reveal(spec_report);
            reveal_with_fuel(extends, 2);
        }
        self.diags = cons(mk_error(loc, msg), self.diags.clone());
    }

    /// Reports an error, and leaves an expression as it is.
    pub fn rejected(&mut self, msg: Text, loc: &Loc, e: Rc<Expr>) -> (out: Rc<Expr>)
        ensures
            (*final(self), out) == spec_rejected(*old(self), msg, *loc, e),
            extends(final(self).diags, old(self).diags),
            final(self).in_inline_pulse == old(self).in_inline_pulse,
            final(self).pointer_views == old(self).pointer_views,
    {
        proof {
            reveal(spec_rejected);
        }
        self.report(msg, loc);
        e
    }

    /// The type of an expression. That there is none is reported.
    pub fn infer_or_report(&mut self, env: &Env, e: &Rc<Expr>) -> (out: Option<Rc<Type>>)
        ensures
            (*final(self), out) == spec_infer_or_report(*old(self), *env, *e),
            extends(final(self).diags, old(self).diags),
            final(self).in_inline_pulse == old(self).in_inline_pulse,
            final(self).pointer_views == old(self).pointer_views,
    {
        proof {
            reveal(spec_infer_or_report);
        }
        match infer_expr(env, e) {
            Some(t) => Some(t),
            None => {
                self.report(cat(cat4(lit("cannot infer type of "), show_expr(e), lit(": "), infer_error(env, e)), cat(lit("\n"), show_env(env))), &e.loc);
                None
            }
        }
    }

    /// Reports an assignment to a whole struct with a flexible array member. C copies only its fixed
    /// part.
    pub fn check_flex_array_assign(&mut self, env: &Env, lhs: &Rc<Expr>)
        ensures
            *final(self) == spec_check_flex_array_assign(*old(self), *env, *lhs),
            extends(final(self).diags, old(self).diags),
            final(self).in_inline_pulse == old(self).in_inline_pulse,
            final(self).pointer_views == old(self).pointer_views,
    {
        proof {
            reveal(spec_check_flex_array_assign);
        }
        match infer_expr(env, lhs) {
            Some(t) => if type_has_flex_array_member(env, &t) {
                self.report(lit("assignment of a struct with a flexible array member is not supported: the flexible array contents are not copied by assignment in C; zero-initialize the struct (e.g. via calloc) and set its fixed fields individually instead"), &lhs.loc);
            },
            None => (),
        }
    }

    /// The type with the default view of a pointer, where it has one and the place allows it.
    pub fn maybe_apply_view(&mut self, env: &Env, ty: &Rc<Type>) -> (out: Rc<Type>)
        ensures
            (*final(self), out) == spec_maybe_apply_view(*old(self), *env, *ty),
            extends(final(self).diags, old(self).diags),
            final(self).in_inline_pulse == old(self).in_inline_pulse,
            final(self).pointer_views == old(self).pointer_views,
    {
        proof {
            reveal(spec_maybe_apply_view);
        }
        let suppressed = self.suppress_next_view || self.in_inline_pulse || self.in_view_body;
        self.suppress_next_view = false;
        if suppressed {
            ty.clone()
        } else {
            match &ty.val {
                TypeT::Pointer(to, kind) => match (&to.val, kind) {
                    (TypeT::TypeRef(k), PointerKind::Ref) | (TypeT::TypeRef(k), PointerKind::Unknown) => match find_view(&self.pointer_views, &canon(env, k)) {
                        Some(n) => mk_type(&ty.loc, TypeT::TypeRef(TypeRefKind::Typedef(n))),
                        None => ty.clone(),
                    },
                    _ => ty.clone(),
                },
                _ => ty.clone(),
            }
        }
    }

    /// The elaborated type.
    pub fn elab_type(&mut self, env: &Env, ty: &Rc<Type>, fuel: u64) -> (out: Rc<Type>)
        ensures
            (*final(self), out) == spec_elab_type(*old(self), *env, *ty, fuel),
            extends(final(self).diags, old(self).diags),
            final(self).in_inline_pulse == old(self).in_inline_pulse,
            final(self).pointer_views == old(self).pointer_views,
        decreases fuel, 0nat,
    {
        if fuel == 0 {
            ty.clone()
        } else {
            let t = self.maybe_apply_view(env, ty);
            self.elab_type_node(env, &t, drop_one(fuel))
        }
    }

    /// The elaborated types.
    pub fn elab_types(&mut self, env: &Env, l: &Rc<List<Type>>, fuel: u64) -> (out: Rc<List<Type>>)
        ensures
            (*final(self), out) == spec_elab_types(*old(self), *env, *l, fuel),
            extends(final(self).diags, old(self).diags),
            final(self).in_inline_pulse == old(self).in_inline_pulse,
            final(self).pointer_views == old(self).pointer_views,
        decreases fuel, 1nat, l,
    {
        match &**l {
            List::Nil => nil(),
            List::Cons(h, t) => {
                let d = self.elab_type(env, h, fuel);
                cons(d, self.elab_types(env, t, fuel))
            }
        }
    }

    /// The elaborated type, after views.
    pub fn elab_type_node(&mut self, env: &Env, ty: &Rc<Type>, fuel: u64) -> (out: Rc<Type>)
        ensures
            (*final(self), out) == spec_elab_type_node(*old(self), *env, *ty, fuel),
            extends(final(self).diags, old(self).diags),
            final(self).in_inline_pulse == old(self).in_inline_pulse,
            final(self).pointer_views == old(self).pointer_views,
        decreases fuel, 9nat,
    {
        match &ty.val {
            TypeT::Pointer(to, kind) => {
                let t = self.elab_type(env, to, fuel);
                let k = settled_kind(&t, *kind);
                mk_type(&ty.loc, TypeT::Pointer(t, k))
            }
            TypeT::FixedArray(t, _) | TypeT::FlexArray(t) | TypeT::Nullable(t) => with_inner(ty, self.elab_type(env, t, fuel)),
            TypeT::Plain(t) => {
                self.suppress_next_view = true;
                with_inner(ty, self.elab_type(env, t, fuel))
            }
            TypeT::FnPtr { args, ret } => {
                let a = self.elab_types(env, args, fuel);
                let r = self.elab_type(env, ret, fuel);
                mk_type(&ty.loc, TypeT::FnPtr { args: a, ret: r })
            }
            TypeT::Refine(t, p) | TypeT::RefineAlways(t, p) | TypeT::RefineUninit(t, p) => {
                let t2 = self.elab_type(env, t, fuel);
                let p2 = self.elab_slprop(&push_this(env, t2.clone()), p, fuel);
                with_inner_and_fact(ty, t2, p2)
            }
            TypeT::RefineValue(t, x, u, p) => {
                let t2 = self.elab_type(env, t, fuel);
                let u2 = self.elab_type(env, u, fuel);
                let env2 = push_var_decl(&push_this(env, t2.clone()), x, u2.clone(), LocalDeclKind::RValue);
                let p2 = self.elab_slprop(&env2, p, fuel);
                mk_type(&ty.loc, TypeT::RefineValue(t2, x.clone(), u2, p2))
            }
            _ => ty.clone(),
        }
    }

    /// The elaborated proposition.
    pub fn elab_slprop(&mut self, env: &Env, p: &Rc<Expr>, fuel: u64) -> (out: Rc<Expr>)
        ensures
            (*final(self), out) == spec_elab_slprop(*old(self), *env, *p, fuel),
            extends(final(self).diags, old(self).diags),
            final(self).in_inline_pulse == old(self).in_inline_pulse,
            final(self).pointer_views == old(self).pointer_views,
        decreases fuel, 2nat,
    {
        let r = self.elab_rvalue(env, p, &Some(mk_type(&p.loc, TypeT::SLProp)), fuel);
        as_slprop(env, &r)
    }

    /// The elaborated condition.
    pub fn elab_bool(&mut self, env: &Env, p: &Rc<Expr>, fuel: u64) -> (out: Rc<Expr>)
        ensures
            (*final(self), out) == spec_elab_bool(*old(self), *env, *p, fuel),
            extends(final(self).diags, old(self).diags),
            final(self).in_inline_pulse == old(self).in_inline_pulse,
            final(self).pointer_views == old(self).pointer_views,
        decreases fuel, 2nat,
    {
        let r = self.elab_rvalue(env, p, &Some(mk_type(&p.loc, TypeT::Bool)), fuel);
        as_bool(env, &r)
    }

    /// The elaborated place.
    pub fn elab_lvalue(&mut self, env: &Env, e: &Rc<Expr>, fuel: u64) -> (out: Rc<Expr>)
        ensures
            (*final(self), out) == spec_elab_lvalue(*old(self), *env, *e, fuel),
            extends(final(self).diags, old(self).diags),
            final(self).in_inline_pulse == old(self).in_inline_pulse,
            final(self).pointer_views == old(self).pointer_views,
        decreases fuel, 2nat,
    {
        let r = self.elab_rvalue(env, e, &None, fuel);
        if !is_lvalue(env, &r) {
            self.report(cat(lit("expected lvalue, got "), show_expr(&r)), &r.loc);
        }
        r
    }

    /// The elaborated count, as a `size_t`.
    pub fn elab_size(&mut self, env: &Env, e: &Rc<Expr>, fuel: u64) -> (out: Rc<Expr>)
        ensures
            (*final(self), out) == spec_elab_size(*old(self), *env, *e, fuel),
            extends(final(self).diags, old(self).diags),
            final(self).in_inline_pulse == old(self).in_inline_pulse,
            final(self).pointer_views == old(self).pointer_views,
        decreases fuel, 2nat,
    {
        let r = self.elab_rvalue(env, e, &None, fuel);
        as_size(env, &r)
    }

    /// The elaborated value, at a type.
    pub fn elab_at(&mut self, env: &Env, e: &Rc<Expr>, ty: &Rc<Type>, fuel: u64) -> (out: Rc<Expr>)
        ensures
            (*final(self), out) == spec_elab_at(*old(self), *env, *e, *ty, fuel),
            extends(final(self).diags, old(self).diags),
            final(self).in_inline_pulse == old(self).in_inline_pulse,
            final(self).pointer_views == old(self).pointer_views,
        decreases fuel, 2nat,
    {
        let r = self.elab_rvalue(env, e, &Some(ty.clone()), fuel);
        cast_if_needed(env, &r, ty)
    }

    /// The elaborated expressions.
    pub fn elab_rvalues(
        &mut self,
        env: &Env,
        l: &Rc<List<Expr>>,
        expected: &Option<Rc<Type>>,
        fuel: u64,
    ) -> (out: Rc<List<Expr>>)
        ensures
            (*final(self), out) == spec_elab_rvalues(*old(self), *env, *l, *expected, fuel),
            extends(final(self).diags, old(self).diags),
            final(self).in_inline_pulse == old(self).in_inline_pulse,
            final(self).pointer_views == old(self).pointer_views,
        decreases fuel, 1nat, l,
    {
        match &**l {
            List::Nil => nil(),
            List::Cons(h, t) => {
                let d = self.elab_rvalue(env, h, expected, fuel);
                cons(d, self.elab_rvalues(env, t, expected, fuel))
            }
        }
    }

    /// The elaborated arguments, each at the type of its parameter.
    pub fn elab_args_at(
        &mut self,
        env: &Env,
        params: &Rc<List<Type>>,
        l: &Rc<List<Expr>>,
        fuel: u64,
    ) -> (out: Rc<List<Expr>>)
        ensures
            (*final(self), out) == spec_elab_args_at(*old(self), *env, *params, *l, fuel),
            extends(final(self).diags, old(self).diags),
            final(self).in_inline_pulse == old(self).in_inline_pulse,
            final(self).pointer_views == old(self).pointer_views,
        decreases fuel, 1nat, l,
    {
        match &**l {
            List::Nil => nil(),
            List::Cons(h, t) => {
                let p = first_type(params);
                let d = self.elab_rvalue(env, h, &p, fuel);
                cons(cast_arg(env, &d, &p), self.elab_args_at(env, &later_types(params), t, fuel))
            }
        }
    }

    /// The elaborated values of a struct's fields.
    pub fn elab_inits(&mut self, env: &Env, s: &Rc<Ident>, l: &Rc<List<FieldInit>>, fuel: u64) -> (out: Rc<List<FieldInit>>)
        ensures
            (*final(self), out) == spec_elab_inits(*old(self), *env, *s, *l, fuel),
            extends(final(self).diags, old(self).diags),
            final(self).in_inline_pulse == old(self).in_inline_pulse,
            final(self).pointer_views == old(self).pointer_views,
        decreases fuel, 1nat, l,
    {
        match &**l {
            List::Nil => nil(),
            List::Cons(h, t) => {
                let ty = struct_field_type(env, s, &h.name);
                let d = self.elab_rvalue(env, &h.value, &ty, fuel);
                let i = Rc::new(FieldInit { name: h.name.clone(), value: cast_to_opt(env, &d, &ty) });
                cons(i, self.elab_inits(env, s, t, fuel))
            }
        }
    }

    /// The elaborated expression, where a type may be expected.
    pub fn elab_rvalue(
        &mut self,
        env: &Env,
        e: &Rc<Expr>,
        expected: &Option<Rc<Type>>,
        fuel: u64,
    ) -> (out: Rc<Expr>)
        ensures
            (*final(self), out) == spec_elab_rvalue(*old(self), *env, *e, *expected, fuel),
            extends(final(self).diags, old(self).diags),
            final(self).in_inline_pulse == old(self).in_inline_pulse,
            final(self).pointer_views == old(self).pointer_views,
        decreases fuel, 0nat,
    {
        if fuel == 0 { e.clone() } else { self.elab_node(env, e, expected, drop_one(fuel)) }
    }

    /// The elaborated expression, one level down.
    pub fn elab_node(
        &mut self,
        env: &Env,
        e: &Rc<Expr>,
        expected: &Option<Rc<Type>>,
        fuel: u64,
    ) -> (out: Rc<Expr>)
        ensures
            (*final(self), out) == spec_elab_node(*old(self), *env, *e, *expected, fuel),
            extends(final(self).diags, old(self).diags),
            final(self).in_inline_pulse == old(self).in_inline_pulse,
            final(self).pointer_views == old(self).pointer_views,
        decreases fuel, 9nat,
    {
        match &e.val {
            ExprT::Var(_) => e.clone(),
            ExprT::BoolLit(_) => e.clone(),
            ExprT::FnRef(_) => e.clone(),
            ExprT::Deref(a) | ExprT::VAttr(_, a) | ExprT::Free(a) | ExprT::Live(a) | ExprT::Old(a) | ExprT::UnionInit(_, _, a) =>
                with_child(e, self.elab_rvalue(env, a, &None, fuel)),
            ExprT::PreIncr(a) | ExprT::PostIncr(a) | ExprT::PreDecr(a) | ExprT::PostDecr(a) => with_child(e, self.elab_lvalue(env, a, fuel)),
            ExprT::Member(x, a) => self.elab_member(env, e, x, a, expected, fuel),
            ExprT::Ref(a) => self.elab_ref(env, e, a, expected, fuel),
            ExprT::UnOp(op, a) => {
                let r = self.elab_rvalue(env, a, &None, fuel);
                with_child(e, if *op == UnOp::Not { as_bool(env, &r) } else { r })
            }
            ExprT::BinOp(op, a, b) => {
                let x = self.elab_rvalue(env, a, &None, fuel);
                let y = self.elab_rvalue(env, b, &None, fuel);
                self.elab_operation(env, e, *op, &x, &y)
            }
            ExprT::Forall(x, ty, body) | ExprT::Exists(x, ty, body) =>
                with_child(e, self.elab_rvalue(&push_var_decl(env, x, ty.clone(), LocalDeclKind::RValue), body, &None, fuel)),
            _ => self.elab_compound(env, e, expected, fuel),
        }
    }

    /// The elaborated expression, where it has several operands.
    pub fn elab_compound(
        &mut self,
        env: &Env,
        e: &Rc<Expr>,
        expected: &Option<Rc<Type>>,
        fuel: u64,
    ) -> (out: Rc<Expr>)
        ensures
            (*final(self), out) == spec_elab_compound(*old(self), *env, *e, *expected, fuel),
            extends(final(self).diags, old(self).diags),
            final(self).in_inline_pulse == old(self).in_inline_pulse,
            final(self).pointer_views == old(self).pointer_views,
        decreases fuel, 8nat,
    {
        match &e.val {
            ExprT::Index(arr, idx) => {
                let a = self.elab_rvalue(env, arr, &None, fuel);
                let i = self.elab_size(env, idx, fuel);
                with_children(e, a, i)
            }
            ExprT::FnCall(f, args) => with_list(e, self.elab_args_at(env, &called_params(env, f), args, fuel)),
            ExprT::FnPtrCall(f, args) => {
                let g = self.elab_rvalue(env, f, &None, fuel);
                let a = self.elab_args_at(env, &pointed_params(env, &g), args, fuel);
                mk_expr(&e.loc, ExprT::FnPtrCall(g, a))
            }
            ExprT::Cond(c, a, b) => {
                let c1 = self.elab_rvalue(env, c, &None, fuel);
                let c2 = as_bool(env, &c1);
                let x = self.elab_rvalue(env, a, expected, fuel);
                let y = self.elab_rvalue(env, b, expected, fuel);
                unify_branches(env, e, c2, &x, &y)
            }
            ExprT::AssignExpr(a, b) => {
                let x = self.elab_lvalue(env, a, fuel);
                let v = self.elab_rvalue(env, b, &infer_expr(env, &x), fuel);
                self.check_flex_array_assign(env, &x);
                let w = match infer_expr(env, &x) {
                    Some(t) => cast_if_needed(env, &v, &t),
                    None => v,
                };
                with_children(e, x, w)
            }
            ExprT::StructInit(name, inits) => {
                let s = literal_struct(env, name);
                let fs = self.elab_inits(env, &s, inits, fuel);
                mk_expr(&e.loc, ExprT::StructInit(s, fs))
            }
            ExprT::ArrayInit { elem_ty, elems, is_static } => {
                let l = self.elab_rvalues(env, elems, &None, fuel);
                let n = if *is_static { missing_zeros(env, expected, list_len(&l)) } else { 0 };
                with_list(e, list_append(&l, zeros(&e.loc, elem_ty, n)))
            }
            _ => self.elab_typed(env, e, expected, fuel),
        }
    }

    /// The elaborated expression, where it has a type.
    pub fn elab_typed(
        &mut self,
        env: &Env,
        e: &Rc<Expr>,
        expected: &Option<Rc<Type>>,
        fuel: u64,
    ) -> (out: Rc<Expr>)
        ensures
            (*final(self), out) == spec_elab_typed(*old(self), *env, *e, *expected, fuel),
            extends(final(self).diags, old(self).diags),
            final(self).in_inline_pulse == old(self).in_inline_pulse,
            final(self).pointer_views == old(self).pointer_views,
        decreases fuel, 7nat,
    {
        match &e.val {
            ExprT::IntLit(_, t) | ExprT::FloatLit(_, t) | ExprT::Error(t) | ExprT::SizeOf(t) => with_type_only(e, self.elab_type(env, t, fuel)),
            ExprT::AlignOf(t) | ExprT::Malloc(t) | ExprT::Calloc(t) => with_type_only(e, self.elab_type(env, t, fuel)),
            ExprT::Cast(a, t) => {
                let t2 = self.elab_type(env, t, fuel);
                let r = self.elab_rvalue(env, a, &Some(t2.clone()), fuel);
                with_child_and_type(e, r, t2)
            }
            ExprT::MallocArray(t, n) | ExprT::CallocArray(t, n) | ExprT::MallocFlex(t, n) | ExprT::CallocFlex(t, n) => {
                let t2 = self.elab_type(env, t, fuel);
                let r = self.elab_size(env, n, fuel);
                with_child_and_type(e, r, t2)
            }
            ExprT::MemsetZero(t, p) => {
                let t2 = self.elab_type(env, t, fuel);
                let r = self.elab_rvalue(env, p, &None, fuel);
                with_child_and_type(e, r, t2)
            }
            ExprT::ContainerOf(p, t, _) => {
                let r = self.elab_rvalue(env, p, &None, fuel);
                let t2 = self.elab_type(env, t, fuel);
                with_child_and_type(e, r, t2)
            }
            ExprT::Memset(t, p, v, n) => {
                let t2 = self.elab_type(env, t, fuel);
                let p2 = self.elab_rvalue(env, p, &None, fuel);
                let v2 = self.elab_at(env, v, &t2, fuel);
                let n2 = self.elab_size(env, n, fuel);
                mk_expr(&e.loc, ExprT::Memset(t2, p2, v2, n2))
            }
            ExprT::InlinePulse(code, t) => {
                let t1 = self.inline_type(t, expected, &e.loc);
                let t2 = self.elab_type(env, &t1, fuel);
                let c = self.elab_code(env, code, fuel);
                mk_expr(&e.loc, ExprT::InlinePulse(c, t2))
            }
            _ => e.clone(),
        }
    }

    /// The type of inline code: the one that is expected, where none is given.
    pub fn inline_type(&mut self, t: &Rc<Type>, expected: &Option<Rc<Type>>, loc: &Loc) -> (out: Rc<Type>)
        ensures
            (*final(self), out) == spec_inline_type(*old(self), *t, *expected, *loc),
            extends(final(self).diags, old(self).diags),
            final(self).in_inline_pulse == old(self).in_inline_pulse,
            final(self).pointer_views == old(self).pointer_views,
    {
        proof {
            reveal(spec_inline_type);
        }
        match (&t.val, expected) {
            (TypeT::Unknown, Some(x)) => x.clone(),
            (TypeT::Unknown, None) => {
                self.report(lit("cannot infer type of _inline_pulse; add an explicit type cast"), loc);
                t.clone()
            }
            _ => t.clone(),
        }
    }

    /// The elaborated inline code. Pointers in it stay as they are.
    pub fn elab_code(&mut self, env: &Env, code: &Rc<InlinePulseCode>, fuel: u64) -> (out: Rc<InlinePulseCode>)
        ensures
            (*final(self), out) == spec_elab_code(*old(self), *env, *code, fuel),
            extends(final(self).diags, old(self).diags),
            final(self).in_inline_pulse == old(self).in_inline_pulse,
            final(self).pointer_views == old(self).pointer_views,
        decreases fuel, 5nat,
    {
        let before = self.in_inline_pulse;
        self.in_inline_pulse = true;
        let toks = self.elab_tokens(env, &code.tokens, fuel);
        self.in_inline_pulse = before;
        Rc::new(InlinePulseCode { tokens: toks })
    }

    /// The elaborated token.
    pub fn elab_token(&mut self, env: &Env, tok: &Rc<InlinePulseToken>, fuel: u64) -> (out: Rc<InlinePulseToken>)
        ensures
            (*final(self), out) == spec_elab_token(*old(self), *env, *tok, fuel),
            extends(final(self).diags, old(self).diags),
            final(self).in_inline_pulse == old(self).in_inline_pulse,
            final(self).pointer_views == old(self).pointer_views,
        decreases fuel, 3nat,
    {
        match &**tok {
            InlinePulseToken::RValueAntiquot { before, expr } => {
                let r = self.elab_rvalue(env, expr, &None, fuel);
                Rc::new(InlinePulseToken::RValueAntiquot { before: before.clone(), expr: r })
            }
            InlinePulseToken::LValueAntiquot { before, expr } => {
                let r = self.elab_rvalue(env, expr, &None, fuel);
                Rc::new(InlinePulseToken::LValueAntiquot { before: before.clone(), expr: r })
            }
            InlinePulseToken::TypeAntiquot { before, ty } => {
                let t = self.elab_type(env, ty, fuel);
                Rc::new(InlinePulseToken::TypeAntiquot { before: before.clone(), ty: t })
            }
            InlinePulseToken::Declare { ident, ty } => {
                let t = self.elab_type(env, ty, fuel);
                Rc::new(InlinePulseToken::Declare { ident: ident.clone(), ty: t })
            }
            InlinePulseToken::AuxFnAntiquot { before, ty, arm, kind } => {
                let t = self.elab_type(env, ty, fuel);
                Rc::new(InlinePulseToken::AuxFnAntiquot { before: before.clone(), ty: t, arm: clone_opt_ident(arm), kind: *kind })
            }
            _ => tok.clone(),
        }
    }

    /// The elaborated tokens. A declared name is in scope from there on.
    pub fn elab_tokens(&mut self, env: &Env, l: &Rc<List<InlinePulseToken>>, fuel: u64) -> (out: Rc<List<InlinePulseToken>>)
        ensures
            (*final(self), out) == spec_elab_tokens(*old(self), *env, *l, fuel),
            extends(final(self).diags, old(self).diags),
            final(self).in_inline_pulse == old(self).in_inline_pulse,
            final(self).pointer_views == old(self).pointer_views,
        decreases fuel, 4nat, l,
    {
        match &**l {
            List::Nil => nil(),
            List::Cons(h, t) => {
                let d = self.elab_token(env, h, fuel);
                let env2 = push_declared(env, &l1(d.clone()));
                cons(d, self.elab_tokens(&env2, t, fuel))
            }
        }
    }

    /// A member access after its record was elaborated.
    pub fn resolve_member(&mut self, env: &Env, e: &Rc<Expr>, x: &Rc<Expr>, a: &Rc<Ident>) -> (out: Step)
        ensures
            (*final(self), out) == spec_resolve_member(*old(self), *env, *e, *x, *a),
            extends(final(self).diags, old(self).diags),
            final(self).in_inline_pulse == old(self).in_inline_pulse,
            final(self).pointer_views == old(self).pointer_views,
    {
        proof {
            reveal(spec_resolve_member);
        }
        match active_arm(env, x, a) {
            Some(arm) => Step::Done(self.resolve_active(env, e, x, &arm)),
            None => match infer_whnf(env, x) {
                None => Step::Done(with_child(e, x.clone())),
                Some(t) => match &t.val {
                    TypeT::Pointer(_, PointerKind::Array) if text_is(&a.val, "_length") => Step::Done(mk_expr(&e.loc, ExprT::VAttr(VAttr::Length, x.clone()))),
                    TypeT::FixedArray(_, _) if text_is(&a.val, "_length") => Step::Done(mk_expr(&e.loc, ExprT::VAttr(VAttr::Length, x.clone()))),
                    TypeT::FlexArray(_) if text_is(&a.val, "_length") => Step::Done(mk_expr(&e.loc, ExprT::VAttr(VAttr::Length, x.clone()))),
                    TypeT::TypeRef(k) => self.resolve_field(env, e, x, a, k),
                    _ => Step::Done(self.rejected(cat(lit("not a structure type: "), show_type(&t)), &e.loc, with_child(e, x.clone()))),
                },
            },
        }
    }

    /// The test whether an arm of a union is active.
    pub fn resolve_active(&mut self, env: &Env, e: &Rc<Expr>, x: &Rc<Expr>, arm: &Arm) -> (out: Rc<Expr>)
        ensures
            (*final(self), out) == spec_resolve_active(*old(self), *env, *e, *x, *arm),
            extends(final(self).diags, old(self).diags),
            final(self).in_inline_pulse == old(self).in_inline_pulse,
            final(self).pointer_views == old(self).pointer_views,
    {
        proof {
            reveal(spec_resolve_active);
        }
        match lookup_union(env, &arm.union_name) {
            None => self.rejected(cat(lit("unknown union "), arm.union_name.val.clone()), &e.loc, with_child(e, x.clone())),
            Some(u) => if find_field(&u.fields, &arm.field).is_none() {
                self.rejected(cat4(lit("no field "), arm.field.val.clone(), lit(" in union "), arm.union_name.val.clone()), &e.loc, with_child(e, x.clone()))
            } else {
                mk_expr(&e.loc, ExprT::VAttr(VAttr::Active(arm.field.clone()), arm.base.clone()))
            },
        }
    }

    /// The access to a field of a record, directly or through anonymous members.
    pub fn resolve_field(
        &mut self,
        env: &Env,
        e: &Rc<Expr>,
        x: &Rc<Expr>,
        a: &Rc<Ident>,
        k: &TypeRefKind,
    ) -> (out: Step)
        ensures
            (*final(self), out) == spec_resolve_field(*old(self), *env, *e, *x, *a, *k),
            extends(final(self).diags, old(self).diags),
            final(self).in_inline_pulse == old(self).in_inline_pulse,
            final(self).pointer_views == old(self).pointer_views,
    {
        proof {
            reveal(spec_resolve_field);
        }
        let kept = with_child(e, x.clone());
        match record_fields(env, k) {
            None => match k {
                TypeRefKind::Struct(n) => Step::Done(self.rejected(cat(lit("unknown structure "), n.val.clone()), &e.loc, kept)),
                TypeRefKind::Union(n) => Step::Done(self.rejected(cat(lit("unknown union "), n.val.clone()), &e.loc, kept)),
                TypeRefKind::Typedef(n) => Step::Done(self.rejected(cat(lit("not a structure type: "), n.val.clone()), &e.loc, kept)),
            },
            Some(fields) => if find_field(&fields, a).is_some() {
                Step::Done(kept)
            } else {
                match indirect_field_path(env, k, a, plus(list_len(&env.structs), list_len(&env.unions))) {
                    Some(path) => Step::Redo(mk_expr(&e.loc, ExprT::Member(select_all(x.clone(), &path, &e.loc), a.clone()))),
                    None => match k {
                        TypeRefKind::Union(n) => Step::Done(self.rejected(cat4(lit("no field "), a.val.clone(), lit(" in union "), n.val.clone()), &e.loc, kept)),
                        TypeRefKind::Struct(n) => Step::Done(self.rejected(cat4(lit("no field "), a.val.clone(), lit(" in structure "), n.val.clone()), &e.loc, kept)),
                        TypeRefKind::Typedef(n) => Step::Done(self.rejected(cat4(lit("no field "), a.val.clone(), lit(" in structure "), n.val.clone()), &e.loc, kept)),
                    },
                }
            },
        }
    }

    /// The elaborated member access: `_active` on a union's arm and `_length` on an array are
    /// attributes of the value.
    pub fn elab_member(
        &mut self,
        env: &Env,
        e: &Rc<Expr>,
        x: &Rc<Expr>,
        a: &Rc<Ident>,
        expected: &Option<Rc<Type>>,
        fuel: u64,
    ) -> (out: Rc<Expr>)
        ensures
            (*final(self), out) == spec_elab_member(*old(self), *env, *e, *x, *a, *expected, fuel),
            extends(final(self).diags, old(self).diags),
            final(self).in_inline_pulse == old(self).in_inline_pulse,
            final(self).pointer_views == old(self).pointer_views,
        decreases fuel, 6nat,
    {
        let r = self.elab_rvalue(env, x, &None, fuel);
        match self.resolve_member(env, e, &r, a) {
            Step::Done(d) => d,
            Step::Redo(d) => self.elab_rvalue(env, &d, expected, fuel),
        }
    }

    /// The elaborated address.
    pub fn elab_ref(
        &mut self,
        env: &Env,
        e: &Rc<Expr>,
        a: &Rc<Expr>,
        expected: &Option<Rc<Type>>,
        fuel: u64,
    ) -> (out: Rc<Expr>)
        ensures
            (*final(self), out) == spec_elab_ref(*old(self), *env, *e, *a, *expected, fuel),
            extends(final(self).diags, old(self).diags),
            final(self).in_inline_pulse == old(self).in_inline_pulse,
            final(self).pointer_views == old(self).pointer_views,
        decreases fuel, 6nat,
    {
        let v = self.elab_rvalue(env, a, &None, fuel);
        match cell_sum(env, e, &v, expected) {
            Some(sum) => self.elab_rvalue(env, &sum, expected, fuel),
            None => {
                if !is_addressable(env, &v) {
                    self.report(cat(lit("expected lvalue for &, got "), show_expr(&v)), &e.loc);
                }
                with_child(e, v)
            }
        }
    }

    /// An operation after its operands were elaborated: they are converted to a common type.
    pub fn elab_operation(
        &mut self,
        env: &Env,
        e: &Rc<Expr>,
        op: BinOp,
        a: &Rc<Expr>,
        b: &Rc<Expr>,
    ) -> (out: Rc<Expr>)
        ensures
            (*final(self), out) == spec_elab_operation(*old(self), *env, *e, op, *a, *b),
            extends(final(self).diags, old(self).diags),
            final(self).in_inline_pulse == old(self).in_inline_pulse,
            final(self).pointer_views == old(self).pointer_views,
    {
        proof {
            reveal(spec_elab_operation);
        }
        match self.infer_or_report(env, a) {
            None => with_children(e, a.clone(), b.clone()),
            Some(s) => match self.infer_or_report(env, b) {
                None => with_children(e, a.clone(), b.clone()),
                Some(t) => match special_equality(env, e, op, a, b, &s, &t) {
                    Some(r) => r,
                    None => self.elab_typed_operation(env, e, op, a, b, &s, &t),
                },
            },
        }
    }

    /// The operands of an operation at the type that they have in common, or a report that there is
    /// none.
    pub fn elab_meet(
        &mut self,
        env: &Env,
        e: &Rc<Expr>,
        op: BinOp,
        a: &Rc<Expr>,
        b: &Rc<Expr>,
        s: &Rc<Type>,
        t: &Rc<Type>,
    ) -> (out: Rc<Expr>)
        ensures
            (*final(self), out) == spec_elab_meet(*old(self), *env, *e, op, *a, *b, *s, *t),
            extends(final(self).diags, old(self).diags),
            final(self).in_inline_pulse == old(self).in_inline_pulse,
            final(self).pointer_views == old(self).pointer_views,
    {
        proof {
            reveal(spec_elab_meet);
        }
        match meet_type(env, s, t) {
            Some(m) => convert_both(env, e, a, b, s, t, &promoted(env, op, a, &m)),
            None => self.rejected(cat(cat4(lit("cannot apply "), show_binop(op), lit(" to arguments of type "), show_type(s)),
                cat(lit(" and "), show_type(t))), &e.loc, with_children(e, a.clone(), b.clone())),
        }
    }

    /// An operation, given the types of its operands.
    pub fn elab_typed_operation(
        &mut self,
        env: &Env,
        e: &Rc<Expr>,
        op: BinOp,
        a: &Rc<Expr>,
        b: &Rc<Expr>,
        s: &Rc<Type>,
        t: &Rc<Type>,
    ) -> (out: Rc<Expr>)
        ensures
            (*final(self), out) == spec_elab_typed_operation(*old(self), *env, *e, op, *a, *b, *s, *t),
            extends(final(self).diags, old(self).diags),
            final(self).in_inline_pulse == old(self).in_inline_pulse,
            final(self).pointer_views == old(self).pointer_views,
    {
        proof {
            reveal(spec_elab_typed_operation);
        }
        let left_ptr = array_elem(env, s).is_some();
        let right_ptr = array_elem(env, t).is_some();
        match op {
            BinOp::Elvis => match meet_type(env, s, t) {
                Some(m) => convert_both(env, e, a, b, s, t, &m),
                None => self.rejected(cat4(lit("cannot apply ?: to arguments of type "), show_type(s), lit(" and "), show_type(t)), &e.loc,
                    with_children(e, a.clone(), b.clone())),
            },
            BinOp::LogAnd | BinOp::LogOr | BinOp::Implies => match meet_type(env, s, t) {
                Some(m) => if is_slprop(env, &m) {
                    convert_both(env, e, a, b, s, t, &m)
                } else {
                    with_children(e, as_bool(env, a), as_bool(env, b))
                },
                None => with_children(e, as_bool(env, a), as_bool(env, b)),
            },
            BinOp::Shl | BinOp::Shr => with_children(e, a.clone(), convert(env, b, t, &mk_type(&b.loc, TypeT::Int { signed: false, width: 32 }))),
            BinOp::Add => if left_ptr && !right_ptr {
                with_children(e, a.clone(), as_size(env, b))
            } else if right_ptr && !left_ptr {
                with_children(e, as_size(env, a), b.clone())
            } else {
                self.elab_meet(env, e, op, a, b, s, t)
            },
            BinOp::Sub => if left_ptr && !right_ptr { with_children(e, a.clone(), as_size(env, b)) } else { self.elab_meet(env, e, op, a, b, s, t) },
            _ => self.elab_meet(env, e, op, a, b, s, t),
        }
    }

    /// The elaborated propositions.
    pub fn elab_slprops(&mut self, env: &Env, l: &Rc<List<Expr>>) -> (out: Rc<List<Expr>>)
        ensures
            (*final(self), out) == spec_elab_slprops(*old(self), *env, *l),
            extends(final(self).diags, old(self).diags),
            final(self).in_inline_pulse == old(self).in_inline_pulse,
            final(self).pointer_views == old(self).pointer_views,
        decreases l,
    {
        match &**l {
            List::Nil => nil(),
            List::Cons(h, t) => {
                let d = self.elab_slprop(env, h, any_depth());
                cons(d, self.elab_slprops(env, t))
            }
        }
    }

    /// The elaborated conditions.
    pub fn elab_bools(&mut self, env: &Env, l: &Rc<List<Expr>>) -> (out: Rc<List<Expr>>)
        ensures
            (*final(self), out) == spec_elab_bools(*old(self), *env, *l),
            extends(final(self).diags, old(self).diags),
            final(self).in_inline_pulse == old(self).in_inline_pulse,
            final(self).pointer_views == old(self).pointer_views,
        decreases l,
    {
        match &**l {
            List::Nil => nil(),
            List::Cons(h, t) => {
                let d = self.elab_bool(env, h, any_depth());
                cons(d, self.elab_bools(env, t))
            }
        }
    }

    /// An elaborated assignment.
    pub fn elab_assign(&mut self, env: &Env, s: &Rc<Stmt>, x: &Rc<Expr>, v: &Rc<Expr>) -> (out: Rc<Stmt>)
        ensures
            (*final(self), out) == spec_elab_assign(*old(self), *env, *s, *x, *v),
            extends(final(self).diags, old(self).diags),
            final(self).in_inline_pulse == old(self).in_inline_pulse,
            final(self).pointer_views == old(self).pointer_views,
    {
        proof {
            reveal(spec_elab_assign);
        }
        let x2 = self.elab_lvalue(env, x, any_depth());
        let v2 = self.elab_rvalue(env, v, &infer_expr(env, &x2), any_depth());
        self.check_flex_array_assign(env, &x2);
        let v3 = cast_assigned(env, &x2, &v2);
        mk_stmt(&s.loc, StmtT::Assign(x2, v3))
    }

    /// An elaborated statement that holds no others.
    pub fn elab_simple_stmt(&mut self, env: &Env, s: &Rc<Stmt>) -> (out: Rc<Stmt>)
        ensures
            (*final(self), out) == spec_elab_simple_stmt(*old(self), *env, *s),
            extends(final(self).diags, old(self).diags),
            final(self).in_inline_pulse == old(self).in_inline_pulse,
            final(self).pointer_views == old(self).pointer_views,
    {
        proof {
            reveal(spec_elab_simple_stmt);
        }
        match &s.val {
            StmtT::Call(e) => {
                let r = self.elab_rvalue(env, e, &None, any_depth());
                mk_stmt(&s.loc, StmtT::Call(r))
            }
            StmtT::Decl(x, ty) => {
                let t = self.elab_type(env, ty, any_depth());
                mk_stmt(&s.loc, StmtT::Decl(x.clone(), t))
            }
            StmtT::Let(x, ty, e) => {
                let t = self.elab_type(env, ty, any_depth());
                let r = self.elab_at(env, e, &t, any_depth());
                mk_stmt(&s.loc, StmtT::Let(x.clone(), t, r))
            }
            StmtT::DeclStackArray { name, elem_type, size } => {
                let t = self.elab_type(env, elem_type, any_depth());
                let n = self.elab_size(env, size, any_depth());
                mk_stmt(&s.loc, StmtT::DeclStackArray { name: name.clone(), elem_type: t, size: n })
            }
            StmtT::Assign(x, v) => self.elab_assign(env, s, x, v),
            StmtT::Return(Some(e)) => {
                let r = self.elab_rvalue(env, e, &env.return_type, any_depth());
                mk_stmt(&s.loc, StmtT::Return(Some(cast_to_opt(env, &r, &env.return_type))))
            }
            StmtT::Assert(e) => {
                let r = self.elab_slprop(env, e, any_depth());
                mk_stmt(&s.loc, StmtT::Assert(r))
            }
            StmtT::GhostStmt(code) => {
                let c = self.elab_code(env, code, any_depth());
                mk_stmt(&s.loc, StmtT::GhostStmt(c))
            }
            StmtT::Label { name, ensures_ } => {
                let l = self.elab_slprops(env, ensures_);
                mk_stmt(&s.loc, StmtT::Label { name: name.clone(), ensures_: l })
            }
            _ => s.clone(),
        }
    }

    /// An elaborated declaration of a variable, where `later` are the statements after it.
    pub fn elab_decl_stmt(
        &mut self,
        env: &Env,
        s: &Rc<Stmt>,
        x: &Rc<Ident>,
        ty: &Rc<Type>,
        later: &Rc<List<Stmt>>,
    ) -> (out: Rc<Stmt>)
        ensures
            (*final(self), out) == spec_elab_decl_stmt(*old(self), *env, *s, *x, *ty, *later),
            extends(final(self).diags, old(self).diags),
            final(self).in_inline_pulse == old(self).in_inline_pulse,
            final(self).pointer_views == old(self).pointer_views,
    {
        proof {
            reveal(spec_elab_decl_stmt);
        }
        let t = self.elab_type(env, &settled_type(env, x, ty, later), any_depth());
        mk_stmt(&s.loc, StmtT::Decl(x.clone(), t))
    }

    /// An elaborated statement.
    pub fn elab_stmt(&mut self, env: &Env, s: &Rc<Stmt>) -> (out: Rc<Stmt>)
        ensures
            (*final(self), out) == spec_elab_stmt(*old(self), *env, *s),
            extends(final(self).diags, old(self).diags),
            final(self).in_inline_pulse == old(self).in_inline_pulse,
            final(self).pointer_views == old(self).pointer_views,
        decreases s, 1nat,
    {
        match &s.val {
            StmtT::If { cond, then_branch, else_branch, ensures_ } => {
                let c = self.elab_bool(env, cond, any_depth());
                let e = self.elab_slprops(env, ensures_);
                let a = self.elab_stmts(env, then_branch);
                let b = self.elab_stmts(env, else_branch);
                mk_stmt(&s.loc, StmtT::If { cond: c, then_branch: a, else_branch: b, ensures_: e })
            }
            StmtT::Match { scrutinee, branches, default_branch, ensures_ } => {
                let x = self.elab_rvalue(env, scrutinee, &None, any_depth());
                let bs = self.elab_branches(env, &infer_expr(env, &x), branches);
                let d = self.elab_stmts(env, default_branch);
                let e = self.elab_slprops(env, ensures_);
                mk_stmt(&s.loc, StmtT::Match { scrutinee: x, branches: bs, default_branch: d, ensures_: e })
            }
            StmtT::While { cond, inv, requires_, ensures_, body } => {
                let c = self.elab_bool(env, cond, any_depth());
                let i = self.elab_slprops(env, inv);
                let r = self.elab_bools(env, requires_);
                let e = self.elab_bools(env, ensures_);
                let b = self.elab_stmts(env, body);
                mk_stmt(&s.loc, StmtT::While { cond: c, inv: i, requires_: r, ensures_: e, body: b })
            }
            StmtT::GotoBlock { body, label, ensures_ } => {
                let b = self.elab_stmts(env, body);
                let e = self.elab_slprops(env, ensures_);
                mk_stmt(&s.loc, StmtT::GotoBlock { body: b, label: label.clone(), ensures_: e })
            }
            _ => self.elab_simple_stmt(env, s),
        }
    }

    /// An elaborated branch.
    pub fn elab_branch(&mut self, env: &Env, subject: &Option<Rc<Type>>, b: &Rc<Branch>) -> (out: Rc<Branch>)
        ensures
            (*final(self), out) == spec_elab_branch(*old(self), *env, *subject, *b),
            extends(final(self).diags, old(self).diags),
            final(self).in_inline_pulse == old(self).in_inline_pulse,
            final(self).pointer_views == old(self).pointer_views,
        decreases b, 0nat,
    {
        let ps = self.elab_rvalues(env, &b.patterns, subject, any_depth());
        let body = self.elab_stmts(env, &b.body);
        Rc::new(Branch { patterns: ps, body })
    }

    /// The elaborated branches.
    pub fn elab_branches(
        &mut self,
        env: &Env,
        subject: &Option<Rc<Type>>,
        l: &Rc<List<Branch>>,
    ) -> (out: Rc<List<Branch>>)
        ensures
            (*final(self), out) == spec_elab_branches(*old(self), *env, *subject, *l),
            extends(final(self).diags, old(self).diags),
            final(self).in_inline_pulse == old(self).in_inline_pulse,
            final(self).pointer_views == old(self).pointer_views,
        decreases l, 0nat,
    {
        match &**l {
            List::Nil => nil(),
            List::Cons(h, t) => {
                let b = self.elab_branch(env, subject, h);
                cons(b, self.elab_branches(env, subject, t))
            }
        }
    }

    /// The elaborated statements, each in the scope that those before it leave.
    pub fn elab_stmts(&mut self, env: &Env, l: &Rc<List<Stmt>>) -> (out: Rc<List<Stmt>>)
        ensures
            (*final(self), out) == spec_elab_stmts(*old(self), *env, *l),
            extends(final(self).diags, old(self).diags),
            final(self).in_inline_pulse == old(self).in_inline_pulse,
            final(self).pointer_views == old(self).pointer_views,
        decreases l, 2nat,
    {
        match &**l {
            List::Nil => nil(),
            List::Cons(h, t) => {
                let s = match &h.val {
                    StmtT::Decl(x, ty) => self.elab_decl_stmt(env, h, x, ty, t),
                    _ => self.elab_stmt(env, h),
                };
                let r = lower_expr(&s);
                cons(r.clone(), self.elab_stmts(&push_stmt(env, &r), t))
            }
        }
    }

    /// The elaborated ghost parameters, each in the scope of those before it.
    pub fn elab_ghost_args(&mut self, env: &Env, l: &Rc<List<GhostArg>>) -> (out: Rc<List<GhostArg>>)
        ensures
            (*final(self), out) == spec_elab_ghost_args(*old(self), *env, *l),
            extends(final(self).diags, old(self).diags),
            final(self).in_inline_pulse == old(self).in_inline_pulse,
            final(self).pointer_views == old(self).pointer_views,
        decreases l,
    {
        match &**l {
            List::Nil => nil(),
            List::Cons(h, t) => {
                let ty = self.elab_type(env, &h.ty, any_depth());
                let g = Rc::new(GhostArg { name: h.name.clone(), ty: ty.clone() });
                cons(g, self.elab_ghost_args(&push_var_decl(env, &h.name, ty, LocalDeclKind::RValue), t))
            }
        }
    }

    /// The elaborated parameters, each in the scope of those before it: a refinement may speak of an
    /// earlier parameter.
    pub fn elab_args(&mut self, env: &Env, l: &Rc<List<FnArg>>) -> (out: Rc<List<FnArg>>)
        ensures
            (*final(self), out) == spec_elab_args(*old(self), *env, *l),
            extends(final(self).diags, old(self).diags),
            final(self).in_inline_pulse == old(self).in_inline_pulse,
            final(self).pointer_views == old(self).pointer_views,
        decreases l,
    {
        match &**l {
            List::Nil => nil(),
            List::Cons(h, t) => {
                let ty = self.elab_type(env, &h.ty, any_depth());
                let a = Rc::new(FnArg { name: clone_opt_ident(&h.name), ty, mode: h.mode });
                cons(a.clone(), self.elab_args(&push_arg(env, &a, LocalDeclKind::RValue), t))
            }
        }
    }

    /// The elaborated parameters of a specification function, all in the same scope.
    pub fn elab_params(&mut self, env: &Env, l: &Rc<List<FnArg>>) -> (out: Rc<List<FnArg>>)
        ensures
            (*final(self), out) == spec_elab_params(*old(self), *env, *l),
            extends(final(self).diags, old(self).diags),
            final(self).in_inline_pulse == old(self).in_inline_pulse,
            final(self).pointer_views == old(self).pointer_views,
        decreases l,
    {
        match &**l {
            List::Nil => nil(),
            List::Cons(h, t) => {
                let ty = self.elab_type(env, &h.ty, any_depth());
                let a = Rc::new(FnArg { name: clone_opt_ident(&h.name), ty, mode: h.mode });
                cons(a, self.elab_params(env, t))
            }
        }
    }

    /// The elaborated measure.
    pub fn elab_measure(&mut self, env: &Env, m: &Option<Rc<Expr>>) -> (out: Option<Rc<Expr>>)
        ensures
            (*final(self), out) == spec_elab_measure(*old(self), *env, *m),
            extends(final(self).diags, old(self).diags),
            final(self).in_inline_pulse == old(self).in_inline_pulse,
            final(self).pointer_views == old(self).pointer_views,
    {
        proof {
            reveal(spec_elab_measure);
        }
        match m {
            Some(e) => {
                let r = self.elab_rvalue(env, e, &None, any_depth());
                Some(as_measure(env, &r))
            }
            None => None,
        }
    }

    /// The elaborated signature and contract.
    pub fn elab_fn_decl(&mut self, env: &Env, d: &Rc<FnDecl>) -> (out: Rc<FnDecl>)
        ensures
            (*final(self), out) == spec_elab_fn_decl(*old(self), *env, *d),
            extends(final(self).diags, old(self).diags),
            final(self).in_inline_pulse == old(self).in_inline_pulse,
            final(self).pointer_views == old(self).pointer_views,
    {
        proof {
            reveal(spec_elab_fn_decl);
        }
        let ghost_args = self.elab_ghost_args(env, &d.ghost_args);
        let env1 = push_ghost_args(env, &ghost_args);
        let args = self.elab_args(&env1, &d.args);
        let env2 = push_args(&env1, &args, LocalDeclKind::RValue);
        let requires_ = self.elab_slprops(&env2, &d.requires_);
        let ret_type = self.elab_type(&env2, &d.ret_type, any_depth());
        let env3 = push_return(&env2, ret_type.clone());
        let ensures_ = self.elab_slprops(&env3, &d.ensures_);
        let decreases_ = self.elab_measure(&env3, &d.decreases_);
        Rc::new(FnDecl {
            name: d.name.clone(),
            ret_type,
            args,
            ghost_args,
            requires_,
            ensures_,
            is_pure: d.is_pure,
            is_rec: d.is_rec,
            is_total: d.is_total,
            decreases_,
        })
    }

    /// The elaborated types of a signature.
    pub fn elab_signature(&mut self, env: &Env, d: &Rc<FnDecl>) -> (out: Rc<FnDecl>)
        ensures
            (*final(self), out) == spec_elab_signature(*old(self), *env, *d),
            extends(final(self).diags, old(self).diags),
            final(self).in_inline_pulse == old(self).in_inline_pulse,
            final(self).pointer_views == old(self).pointer_views,
    {
        proof {
            reveal(spec_elab_signature);
        }
        let ghost_args = self.elab_ghost_args(env, &d.ghost_args);
        let env1 = push_ghost_args(env, &ghost_args);
        let args = self.elab_args(&env1, &d.args);
        let env2 = push_args(&env1, &args, LocalDeclKind::RValue);
        let ret_type = self.elab_type(&env2, &d.ret_type, any_depth());
        with_signature(d, ghost_args, args, ret_type)
    }

    /// The elaborated fields. The refinement of a flexible array member may speak of the others.
    pub fn elab_fields(&mut self, env: &Env, l: &Rc<List<Field>>, siblings: &Rc<List<Field>>) -> (out: Rc<List<Field>>)
        ensures
            (*final(self), out) == spec_elab_fields(*old(self), *env, *l, *siblings),
            extends(final(self).diags, old(self).diags),
            final(self).in_inline_pulse == old(self).in_inline_pulse,
            final(self).pointer_views == old(self).pointer_views,
        decreases l,
    {
        match &**l {
            List::Nil => nil(),
            List::Cons(h, t) => {
                let ty = self.elab_type(&field_env(env, h, siblings), &field_type(h), any_depth());
                cons(with_field_type(h, ty), self.elab_fields(env, t, siblings))
            }
        }
    }

    /// An elaborated typedef.
    pub fn elab_typedef(&mut self, env: &Env, t: &Rc<TypeDefn>) -> (out: Rc<TypeDefn>)
        ensures
            (*final(self), out) == spec_elab_typedef(*old(self), *env, *t),
            extends(final(self).diags, old(self).diags),
            final(self).in_inline_pulse == old(self).in_inline_pulse,
            final(self).pointer_views == old(self).pointer_views,
    {
        proof {
            reveal(spec_elab_typedef);
        }
        self.in_view_body = t.is_pointer_view;
        let body = self.elab_type(env, &t.body, any_depth());
        self.in_view_body = false;
        Rc::new(TypeDefn { name: t.name.clone(), body, is_pointer_view: t.is_pointer_view })
    }

    /// An elaborated struct.
    pub fn elab_struct(&mut self, env: &Env, s: &Rc<StructDefn>) -> (out: Rc<StructDefn>)
        ensures
            (*final(self), out) == spec_elab_struct(*old(self), *env, *s),
            extends(final(self).diags, old(self).diags),
            final(self).in_inline_pulse == old(self).in_inline_pulse,
            final(self).pointer_views == old(self).pointer_views,
    {
        proof {
            reveal(spec_elab_struct);
        }
        let refines = self.elab_type(env, &s.refines, any_depth());
        let fields = self.elab_fields(env, &s.fields, &s.fields);
        Rc::new(StructDefn { name: s.name.clone(), refines, fields, eager_unfold_pred: s.eager_unfold_pred })
    }

    /// An elaborated union.
    pub fn elab_union(&mut self, env: &Env, u: &Rc<UnionDefn>) -> (out: Rc<UnionDefn>)
        ensures
            (*final(self), out) == spec_elab_union(*old(self), *env, *u),
            extends(final(self).diags, old(self).diags),
            final(self).in_inline_pulse == old(self).in_inline_pulse,
            final(self).pointer_views == old(self).pointer_views,
    {
        proof {
            reveal(spec_elab_union);
        }
        let fields = self.elab_fields(env, &u.fields, &u.fields);
        Rc::new(UnionDefn { name: u.name.clone(), fields })
    }

    /// An elaborated specification function.
    pub fn elab_let(&mut self, env: &Env, l: &Rc<LetDecl>) -> (out: Rc<LetDecl>)
        ensures
            (*final(self), out) == spec_elab_let(*old(self), *env, *l),
            extends(final(self).diags, old(self).diags),
            final(self).in_inline_pulse == old(self).in_inline_pulse,
            final(self).pointer_views == old(self).pointer_views,
    {
        proof {
            reveal(spec_elab_let);
        }
        let ret_type = self.elab_type(env, &l.ret_type, any_depth());
        let params = self.elab_params(env, &l.params);
        let env2 = push_args(env, &params, LocalDeclKind::LValue);
        let requires_ = self.elab_rvalues(&env2, &l.requires_, &None, any_depth());
        let ensures_ = self.elab_rvalues(&env2, &l.ensures_, &None, any_depth());
        let body1 = self.elab_rvalue(&env2, &l.body, &Some(ret_type.clone()), any_depth());
        let body = if matches!(&ret_type.val, TypeT::SLProp) { as_slprop(&env2, &body1) } else { cast_if_needed(&env2, &body1, &ret_type) };
        Rc::new(LetDecl { name: l.name.clone(), is_rec: l.is_rec, is_impure: l.is_impure, ret_type, params, requires_, ensures_, body })
    }

    /// A global with an elaborated type, and its value if that is to be elaborated.
    pub fn elab_global(&mut self, env: &Env, g: &Rc<GlobalVar>, with_init: bool) -> (out: Rc<GlobalVar>)
        ensures
            (*final(self), out) == spec_elab_global(*old(self), *env, *g, with_init),
            extends(final(self).diags, old(self).diags),
            final(self).in_inline_pulse == old(self).in_inline_pulse,
            final(self).pointer_views == old(self).pointer_views,
    {
        proof {
            reveal(spec_elab_global);
        }
        let ty = self.elab_type(env, &g.ty, any_depth());
        let init = match &g.init {
            Some(e) => if with_init { Some(self.elab_rvalue(env, e, &Some(ty.clone()), any_depth())) } else { Some(e.clone()) },
            None => None,
        };
        Rc::new(GlobalVar {
            name: g.name.clone(),
            ty,
            init,
            is_pure: g.is_pure,
            is_external: g.is_external,
            opaque_to_smt: g.opaque_to_smt,
            is_enum_constant: g.is_enum_constant,
        })
    }

    /// The declaration with the types of its signature, fields or body elaborated, so that others
    /// see them settled whatever their order.
    pub fn elab_decl_types(&mut self, env: &Env, d: &Rc<Decl>) -> (out: Rc<Decl>)
        ensures
            (*final(self), out) == spec_elab_decl_types(*old(self), *env, *d),
            extends(final(self).diags, old(self).diags),
            final(self).in_inline_pulse == old(self).in_inline_pulse,
            final(self).pointer_views == old(self).pointer_views,
    {
        proof {
            reveal(spec_elab_decl_types);
        }
        match &d.val {
            DeclT::FnDefn(f) => {
                let s = self.elab_signature(env, &f.decl);
                mk_decl(&d.loc, DeclT::FnDefn(Rc::new(FnDefn { decl: s, body: f.body.clone() })))
            }
            DeclT::FnDecl(f) => {
                let s = self.elab_signature(env, f);
                mk_decl(&d.loc, DeclT::FnDecl(s))
            }
            DeclT::Typedef(t) => {
                let r = self.elab_typedef(env, t);
                mk_decl(&d.loc, DeclT::Typedef(r))
            }
            DeclT::StructDefn(t) => {
                let r = self.elab_struct(env, t);
                mk_decl(&d.loc, DeclT::StructDefn(r))
            }
            DeclT::UnionDefn(t) => {
                let r = self.elab_union(env, t);
                mk_decl(&d.loc, DeclT::UnionDefn(r))
            }
            DeclT::LetDecl(l) => {
                let params = self.elab_params(env, &l.params);
                let ret_type = self.elab_type(env, &l.ret_type, any_depth());
                mk_decl(&d.loc, DeclT::LetDecl(Rc::new(LetDecl {
                    name: l.name.clone(), is_rec: l.is_rec, is_impure: l.is_impure, ret_type, params,
                    requires_: l.requires_.clone(), ensures_: l.ensures_.clone(), body: l.body.clone() })))
            }
            DeclT::GlobalVar(g) => {
                let r = self.elab_global(env, g, false);
                mk_decl(&d.loc, DeclT::GlobalVar(r))
            }
            _ => d.clone(),
        }
    }

    /// The elaborated declaration.
    pub fn elab_decl(&mut self, env: &Env, d: &Rc<Decl>) -> (out: Rc<Decl>)
        ensures
            (*final(self), out) == spec_elab_decl(*old(self), *env, *d),
            extends(final(self).diags, old(self).diags),
            final(self).in_inline_pulse == old(self).in_inline_pulse,
            final(self).pointer_views == old(self).pointer_views,
    {
        proof {
            reveal(spec_elab_decl);
        }
        match &d.val {
            DeclT::FnDefn(f) => {
                let s = self.elab_fn_decl(env, &f.decl);
                let body = self.elab_stmts(&push_fn_decl_args_for_body(env, &s), &f.body);
                mk_decl(&d.loc, DeclT::FnDefn(Rc::new(FnDefn { decl: s, body })))
            }
            DeclT::FnDecl(f) => {
                let s = self.elab_fn_decl(env, f);
                mk_decl(&d.loc, DeclT::FnDecl(s))
            }
            DeclT::Typedef(t) => {
                let r = self.elab_typedef(env, t);
                mk_decl(&d.loc, DeclT::Typedef(r))
            }
            DeclT::StructDefn(t) => {
                let r = self.elab_struct(env, t);
                mk_decl(&d.loc, DeclT::StructDefn(r))
            }
            DeclT::UnionDefn(t) => {
                let r = self.elab_union(env, t);
                mk_decl(&d.loc, DeclT::UnionDefn(r))
            }
            DeclT::StructDecl(_) => d.clone(),
            DeclT::IncludeDecl(i) => {
                let code = self.elab_code(env, &i.code, any_depth());
                mk_decl(&d.loc, DeclT::IncludeDecl(Rc::new(IncludeDecl { module_name: i.module_name.clone(), code })))
            }
            DeclT::OpaqueTypeDecl(o) => {
                let code = self.elab_code(env, &o.code, any_depth());
                mk_decl(&d.loc, DeclT::OpaqueTypeDecl(Rc::new(OpaqueTypeDecl { name: o.name.clone(), code })))
            }
            DeclT::LetDecl(l) => {
                let r = self.elab_let(env, l);
                mk_decl(&d.loc, DeclT::LetDecl(r))
            }
            DeclT::GlobalVar(g) => {
                let r = self.elab_global(env, g, true);
                mk_decl(&d.loc, DeclT::GlobalVar(r))
            }
        }
    }

    /// The declaration with its signature elaborated in advance, where it is a recursive function:
    /// its own calls have to see it settled.
    pub fn elab_rec_signature(&mut self, env: &Env, d: &Rc<Decl>) -> (out: Rc<Decl>)
        ensures
            (*final(self), out) == spec_elab_rec_signature(*old(self), *env, *d),
            extends(final(self).diags, old(self).diags),
            final(self).in_inline_pulse == old(self).in_inline_pulse,
            final(self).pointer_views == old(self).pointer_views,
    {
        proof {
            reveal(spec_elab_rec_signature);
        }
        match &d.val {
            DeclT::FnDefn(f) => if f.decl.is_rec {
                let s = self.elab_fn_decl(env, &f.decl);
                mk_decl(&d.loc, DeclT::FnDefn(Rc::new(FnDefn { decl: s, body: f.body.clone() })))
            } else {
                d.clone()
            },
            _ => d.clone(),
        }
    }

    /// The declarations with their types elaborated, and the scope that they leave.
    pub fn elab_all_types(&mut self, env: &Env, l: &Rc<List<Decl>>) -> (out: Rc<List<Decl>>)
        ensures
            (*final(self), out) == spec_elab_all_types(*old(self), *env, *l),
            extends(final(self).diags, old(self).diags),
            final(self).in_inline_pulse == old(self).in_inline_pulse,
            final(self).pointer_views == old(self).pointer_views,
        decreases l,
    {
        match &**l {
            List::Nil => nil(),
            List::Cons(h, t) => {
                let d = self.elab_decl_types(env, h);
                cons(d.clone(), self.elab_all_types(&push_decl(env, &d), t))
            }
        }
    }

    /// The elaborated declarations, each in the scope that those before it leave.
    pub fn elab_all(&mut self, env: &Env, l: &Rc<List<Decl>>) -> (out: Rc<List<Decl>>)
        ensures
            (*final(self), out) == spec_elab_all(*old(self), *env, *l),
            extends(final(self).diags, old(self).diags),
            final(self).in_inline_pulse == old(self).in_inline_pulse,
            final(self).pointer_views == old(self).pointer_views,
        decreases l,
    {
        match &**l {
            List::Nil => nil(),
            List::Cons(h, t) => {
                let d = self.elab_rec_signature(env, h);
                let env1 = enter_decl(env, &d);
                let r = self.elab_decl(&env1, &d);
                cons(r.clone(), self.elab_all(&push_decl(&env1, &r), t))
            }
        }
    }

    /// The views that typedefs register, after those known already. One whose body is no pointer to
    /// a named type is reported, and so is a second one for a type.
    pub fn build_pointer_views(&mut self, env: &Env, l: &Rc<List<Decl>>)
        ensures
            *final(self) == spec_build_pointer_views(*old(self), *env, *l),
            extends(final(self).diags, old(self).diags),
            final(self).in_inline_pulse == old(self).in_inline_pulse,
        decreases l,
    {
        match &**l {
            List::Nil => (),
            List::Cons(h, t) => {
                match &h.val {
                    DeclT::Typedef(td) => if td.is_pointer_view {
                        self.register_view(env, td);
                    },
                    _ => (),
                }
                self.build_pointer_views(env, t);
            }
        }
    }

    /// Registers the view that a typedef is.
    pub fn register_view(&mut self, env: &Env, td: &Rc<TypeDefn>)
        ensures
            *final(self) == spec_register_view(*old(self), *env, *td),
            extends(final(self).diags, old(self).diags),
            final(self).in_inline_pulse == old(self).in_inline_pulse,
    {
        proof {
            reveal(spec_register_view);
        }
        match view_pointee(&td.body) {
            None => self.report(cat3(lit("_pointer_view typedef `"), td.name.val.clone(), lit("` must be a pointer to a named type")), &td.name.loc),
            Some(k) => match find_view(&self.pointer_views, &canon(env, &k)) {
                Some(other) => self.report(cat5(lit("duplicate _pointer_view for the same pointee: `"), td.name.val.clone(), lit("` conflicts with `"),
                    other.val.clone(), lit("`")), &td.name.loc),
                None => {
                    self.pointer_views = cons(Rc::new(PointerView { key: canon(env, &k), name: td.name.clone() }), self.pointer_views.clone());
                }
            },
        }
    }

    /// The elaborated declarations of a translation unit. First every type is elaborated, and then
    /// everything else, so that the order of declarations does not matter.
    pub fn elab_unit(&mut self, l: &Rc<List<Decl>>) -> (out: Rc<List<Decl>>)
        ensures
            (*final(self), out) == spec_elab_unit(*old(self), *l),
            extends(final(self).diags, old(self).diags),
            final(self).in_inline_pulse == old(self).in_inline_pulse,
    {
        proof {
            reveal(spec_elab_unit);
        }
        let env = push_decls(&empty_env(), l);
        self.build_pointer_views(&env, l);
        let typed = self.elab_all_types(&env, l);
        self.elab_all(&push_decls(&env, &typed), &typed)
    }
}

/// An arm of a union whose activity is asked for.
pub struct Arm {
    pub union_name: Rc<Ident>,
    pub base: Rc<Expr>,
    pub field: Rc<Ident>,
}

/// The arm that `x._active` asks for, where `x` selects one of a union.
#[verifier::opaque]
pub open spec fn spec_active_arm(env: Env, x: Rc<Expr>, a: Rc<Ident>) -> Option<Arm>
{
    if spec_text_is(a.val, "_active") {
        match x.val {
            ExprT::Member(base, fld) => {
                match spec_union_of(env, base) {
                    Some(u) => Some(Arm { union_name: u, base, field: fld }),
                    None => None,
                }
            },
            _ => None,
        }
    } else {
        None
    }
}

/// The arm that `x._active` asks for, where `x` selects one of a union.
pub fn active_arm(env: &Env, x: &Rc<Expr>, a: &Rc<Ident>) -> (out: Option<Arm>)
    ensures
        out == spec_active_arm(*env, *x, *a),
{
    proof {
        reveal(spec_active_arm);
    }
    if text_is(&a.val, "_active") {
        match &x.val {
            ExprT::Member(base, fld) => match union_of(env, base) {
                Some(u) => Some(Arm { union_name: u, base: base.clone(), field: fld.clone() }),
                None => None,
            },
            _ => None,
        }
    } else {
        None
    }
}

/// The elaborator at the start, with the messages so far.
#[verifier::opaque]
pub open spec fn spec_new_elaborator(diags: Rc<List<Diagnostic>>) -> Elaborator
{
    Elaborator { diags, pointer_views: spec_nil(), in_inline_pulse: false, in_view_body: false, suppress_next_view: false }
}

/// The elaborator at the start, with the messages so far.
pub fn new_elaborator(diags: Rc<List<Diagnostic>>) -> (out: Elaborator)
    ensures
        out == spec_new_elaborator(diags),
{
    proof {
        reveal(spec_new_elaborator);
    }
    Elaborator { diags, pointer_views: nil(), in_inline_pulse: false, in_view_body: false, suppress_next_view: false }
}

/// Elaborates a translation unit.
pub fn elab(diags: &mut Diagnostics, tu: &mut TranslationUnit)
    ensures
        ({
            let e = spec_elab_unit(spec_new_elaborator(old(diags).list), list_of(old(tu).decls@));
            &&& final(diags).list == e.0.diags
            &&& list_of(final(tu).decls@) == e.1
        }),
        extends(final(diags).list, old(diags).list),
        same_decls(list_of(final(tu).decls@), list_of(old(tu).decls@)),
{
    let mut e = new_elaborator(diags.list.clone());
    let l = e.elab_unit(&List::from_vec(&tu.decls));
    diags.list = e.diags.clone();
    tu.decls = List::to_vec(&l);
    proof {
        law_elaboration_keeps_declarations(spec_new_elaborator(old(diags).list), list_of(old(tu).decls@));
        reveal(spec_new_elaborator);
        lemma_items_list_of(l);
    }
}

} // verus!
