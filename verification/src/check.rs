//! Checking a translation unit: that names are declared, and that types agree.

use crate::list::{List, cons, list_len, list_of, spec_cons, spec_list_len};
use crate::text::{
    Text, cat, cat3, cat4, lit, num, spec_cat, spec_cat3, spec_cat4, spec_lit, spec_num,
};
use crate::ir::{
    BinOp, Branch, Decl, DeclT, Expr, ExprT, Field, FieldInit, FnArg, FnDecl, FnDefn, GhostArg,
    GlobalVar, Ident, IncludeDecl, InlinePulseToken, LetDecl, Loc, OpaqueTypeDecl, PointerKind,
    Stmt, StmtT, StructDefn, TranslationUnit, Type, TypeRefKind, TypeT, UnOp, UnionDefn, VAttr,
    field_name, field_type, find_field, flex_info, mk_type, same_name, show_binop, show_expr,
    show_type, spec_field_name, spec_field_type, spec_find_field, spec_flex_info, spec_mk_type,
    spec_same_name, spec_show_binop, spec_show_expr, spec_show_type,
};
use crate::diag::{Diagnostic, DiagnosticLevel, Diagnostics, extends, lemma_cons_is_new};
use crate::env::{
    Env, LocalDeclKind, array_elem, clone_env, contains_error, empty_env, enter_loop, infer_error,
    infer_expr, is_addressable, is_known_type, is_lvalue, lookup_fn, lookup_global_var,
    lookup_struct, lookup_union, lookup_var, push_arg, push_args, push_decl, push_decls,
    push_fn_decl, push_fn_decl_args_for_body, push_ghost_args, push_return, push_stmt,
    push_struct, push_this, push_var_decl, show_env, spec_array_elem, spec_clone_env,
    spec_contains_error, spec_empty_env, spec_enter_loop, spec_infer_error, spec_infer_expr,
    spec_is_addressable, spec_is_known_type, spec_is_lvalue, spec_lookup_fn,
    spec_lookup_global_var, spec_lookup_struct, spec_lookup_union, spec_lookup_var, spec_push_arg,
    spec_push_args, spec_push_decl, spec_push_decls, spec_push_fn_decl,
    spec_push_fn_decl_args_for_body, spec_push_ghost_args, spec_push_return, spec_push_stmt,
    spec_push_struct, spec_push_this, spec_push_var_decl, spec_show_env, spec_vtype_eq,
    spec_vtype_whnf, vtype_eq, vtype_whnf,
};
use crate::names::TypeRef;
use crate::merge::Match;
use std::rc::Rc;
use vstd::prelude::*;

verus! {

broadcast use {crate::diag::lemma_extends_antisym, crate::diag::lemma_extends_trans};

/// What a check carries along: the pass that it is made after, whether types are to agree
/// already, and the messages so far.
pub struct Checker {
    pub pass: Text,
    pub check_types: bool,
    pub diags: Rc<List<Diagnostic>>,
}

/// Whether an integer literal can have the type: zero is also a null pointer, and zero and one
/// are truth values.
#[verifier::opaque]
pub open spec fn spec_is_valid_int_type(env: Env, ty: Rc<Type>) -> bool
{
    match spec_vtype_whnf(env, ty).val {
        TypeT::Bool | TypeT::SizeT | TypeT::PtrdiffT | TypeT::SpecInt | TypeT::SpecNat | TypeT::SLProp => true,
        TypeT::Int { .. } => true,
        TypeT::Float { .. } => true,
        TypeT::Pointer(_, _) => true,
        TypeT::FnPtr { .. } => true,
        TypeT::Unknown | TypeT::Error => true,
        _ => false,
    }
}

/// Whether an integer literal can have the type: zero is also a null pointer, and zero and one
/// are truth values.
pub fn is_valid_int_type(env: &Env, ty: &Rc<Type>) -> (out: bool)
    ensures
        out == spec_is_valid_int_type(*env, *ty),
{
    proof {
        reveal(spec_is_valid_int_type);
    }
    match &vtype_whnf(env, ty).val {
        TypeT::Bool | TypeT::SizeT | TypeT::PtrdiffT | TypeT::SpecInt | TypeT::SpecNat | TypeT::SLProp => true,
        TypeT::Int { .. } => true,
        TypeT::Float { .. } => true,
        TypeT::Pointer(_, _) => true,
        TypeT::FnPtr { .. } => true,
        TypeT::Unknown | TypeT::Error => true,
        _ => false,
    }
}

/// Whether a floating-point literal can have the type.
#[verifier::opaque]
pub open spec fn spec_is_valid_float_type(env: Env, ty: Rc<Type>) -> bool
{
    match spec_vtype_whnf(env, ty).val {
        TypeT::Float { .. } => true,
        TypeT::Error => true,
        _ => false,
    }
}

/// Whether a floating-point literal can have the type.
pub fn is_valid_float_type(env: &Env, ty: &Rc<Type>) -> (out: bool)
    ensures
        out == spec_is_valid_float_type(*env, *ty),
{
    proof {
        reveal(spec_is_valid_float_type);
    }
    match &vtype_whnf(env, ty).val {
        TypeT::Float { .. } => true,
        TypeT::Error => true,
        _ => false,
    }
}

/// Whether values of the type can be dereferenced.
#[verifier::opaque]
pub open spec fn spec_is_pointer_type(env: Env, ty: Rc<Type>) -> bool
{
    match spec_vtype_whnf(env, ty).val {
        TypeT::Pointer(_, _) => true,
        TypeT::Error => true,
        _ => false,
    }
}

/// Whether values of the type can be dereferenced.
pub fn is_pointer_type(env: &Env, ty: &Rc<Type>) -> (out: bool)
    ensures
        out == spec_is_pointer_type(*env, *ty),
{
    proof {
        reveal(spec_is_pointer_type);
    }
    match &vtype_whnf(env, ty).val {
        TypeT::Pointer(_, _) => true,
        TypeT::Error => true,
        _ => false,
    }
}

/// Whether values of the type can be indexed.
#[verifier::opaque]
pub open spec fn spec_is_indexable(env: Env, ty: Rc<Type>) -> bool
{
    match spec_vtype_whnf(env, ty).val {
        TypeT::Pointer(_, PointerKind::Array) | TypeT::Pointer(_, PointerKind::ArrayPtr) => true,
        TypeT::FixedArray(_, _) => true,
        TypeT::FlexArray(_) => true,
        TypeT::Error => true,
        _ => false,
    }
}

/// Whether values of the type can be indexed.
pub fn is_indexable(env: &Env, ty: &Rc<Type>) -> (out: bool)
    ensures
        out == spec_is_indexable(*env, *ty),
{
    proof {
        reveal(spec_is_indexable);
    }
    match &vtype_whnf(env, ty).val {
        TypeT::Pointer(_, PointerKind::Array) | TypeT::Pointer(_, PointerKind::ArrayPtr) => true,
        TypeT::FixedArray(_, _) => true,
        TypeT::FlexArray(_) => true,
        TypeT::Error => true,
        _ => false,
    }
}

/// Whether values of the type can be indices.
#[verifier::opaque]
pub open spec fn spec_is_index_type(env: Env, ty: Rc<Type>) -> bool
{
    matches!(spec_vtype_whnf(env, ty).val, TypeT::SizeT | TypeT::Error)
}

/// Whether values of the type can be indices.
pub fn is_index_type(env: &Env, ty: &Rc<Type>) -> (out: bool)
    ensures
        out == spec_is_index_type(*env, *ty),
{
    proof {
        reveal(spec_is_index_type);
    }
    matches!(&vtype_whnf(env, ty).val, TypeT::SizeT | TypeT::Error)
}

/// Whether values of the type can be negated logically.
#[verifier::opaque]
pub open spec fn spec_is_not_type(env: Env, ty: Rc<Type>) -> bool
{
    matches!(spec_vtype_whnf(env, ty).val, TypeT::Bool | TypeT::Error)
}

/// Whether values of the type can be negated logically.
pub fn is_not_type(env: &Env, ty: &Rc<Type>) -> (out: bool)
    ensures
        out == spec_is_not_type(*env, *ty),
{
    proof {
        reveal(spec_is_not_type);
    }
    matches!(&vtype_whnf(env, ty).val, TypeT::Bool | TypeT::Error)
}

/// Whether values of the type can be connected logically.
#[verifier::opaque]
pub open spec fn spec_is_logical_type(env: Env, ty: Rc<Type>) -> bool
{
    matches!(spec_vtype_whnf(env, ty).val, TypeT::Bool | TypeT::SLProp | TypeT::Error)
}

/// Whether values of the type can be connected logically.
pub fn is_logical_type(env: &Env, ty: &Rc<Type>) -> (out: bool)
    ensures
        out == spec_is_logical_type(*env, *ty),
{
    proof {
        reveal(spec_is_logical_type);
    }
    matches!(&vtype_whnf(env, ty).val, TypeT::Bool | TypeT::SLProp | TypeT::Error)
}

/// Whether a sum or a difference is one of pointers into arrays.
#[verifier::opaque]
pub open spec fn spec_is_pointer_arithmetic(env: Env, op: BinOp, a: Rc<Type>, b: Rc<Type>) -> bool
{
    (op == BinOp::Add || op == BinOp::Sub) && (spec_array_elem(env, a).is_some() || spec_array_elem(env, b).is_some())
}

/// Whether a sum or a difference is one of pointers into arrays.
pub fn is_pointer_arithmetic(env: &Env, op: BinOp, a: &Rc<Type>, b: &Rc<Type>) -> (out: bool)
    ensures
        out == spec_is_pointer_arithmetic(*env, op, *a, *b),
{
    proof {
        reveal(spec_is_pointer_arithmetic);
    }
    (op == BinOp::Add || op == BinOp::Sub) && (array_elem(env, a).is_some() || array_elem(env, b).is_some())
}

/// The scope with the other fields of a record, by name.
pub open spec fn spec_push_siblings(env: Env, name: Rc<Ident>, fields: Rc<List<Field>>) -> Env
    decreases fields,
{
    match *fields {
        List::Nil => spec_clone_env(env),
        List::Cons(f, t) => {
            if spec_same_name(spec_field_name(f), name) {
                spec_push_siblings(env, name, t)
            } else {
                spec_push_siblings(spec_push_var_decl(env, spec_field_name(f), spec_field_type(f), LocalDeclKind::RValue), name, t)
            }
        },
    }
}

/// The scope with the other fields of a record, by name.
pub fn push_siblings(env: &Env, name: &Rc<Ident>, fields: &Rc<List<Field>>) -> (out: Env)
    ensures
        out == spec_push_siblings(*env, *name, *fields),
    decreases fields,
{
    match &**fields {
        List::Nil => clone_env(env),
        List::Cons(f, t) => if same_name(&field_name(f), name) {
            push_siblings(env, name, t)
        } else {
            push_siblings(&push_var_decl(env, &field_name(f), field_type(f), LocalDeclKind::RValue), name, t)
        },
    }
}

/// Whether the type is a flexible array with a refinement, which may speak of the other fields.
#[verifier::opaque]
pub open spec fn spec_is_refined_flex(ty: Rc<Type>) -> bool
{
    match ty.val {
        TypeT::RefineAlways(inner, _) => spec_flex_info(inner).is_some(),
        _ => false,
    }
}

/// Whether the type is a flexible array with a refinement, which may speak of the other fields.
pub fn is_refined_flex(ty: &Rc<Type>) -> (out: bool)
    ensures
        out == spec_is_refined_flex(*ty),
{
    proof {
        reveal(spec_is_refined_flex);
    }
    match &ty.val {
        TypeT::RefineAlways(inner, _) => flex_info(inner).is_some(),
        _ => false,
    }
}

/// The scope in which the type of a field is checked.
#[verifier::opaque]
pub open spec fn spec_field_env(env: Env, f: Rc<Field>, siblings: Rc<List<Field>>) -> Env
{
    if spec_is_refined_flex(spec_field_type(f)) {
        spec_push_siblings(env, spec_field_name(f), siblings)
    } else {
        spec_clone_env(env)
    }
}

/// The scope in which the type of a field is checked.
pub fn field_env(env: &Env, f: &Rc<Field>, siblings: &Rc<List<Field>>) -> (out: Env)
    ensures
        out == spec_field_env(*env, *f, *siblings),
{
    proof {
        reveal(spec_field_env);
    }
    if is_refined_flex(&field_type(f)) { push_siblings(env, &field_name(f), siblings) } else { clone_env(env) }
}

/// Whether an expression has a type, or none because of an error that was reported already.
pub open spec fn is_inferred(env: Env, e: Rc<Expr>) -> bool {
    spec_infer_expr(env, e) is Some || spec_contains_error(e)
}

/// Reports an error, with what the check knew.
///
/// As the state that [`Checker::report_with_detail`] leaves.
#[verifier::opaque]
pub open spec fn spec_report_with_detail(
    st: Checker,
    msg: Text,
    detail: Option<Text>,
    loc: Loc,
) -> Checker
{
    let st = Checker { diags: spec_cons(Rc::new(Diagnostic { loc, level: DiagnosticLevel::Error, msg, pass: Some(st.pass), detail }), st.diags), ..st };
    st
}

/// Reports an error.
///
/// As the state that [`Checker::report`] leaves.
#[verifier::opaque]
pub open spec fn spec_report(st: Checker, msg: Text, loc: Loc) -> Checker
{
    let st = spec_report_with_detail(st, msg, None, loc);
    st
}

/// The type of an expression. That there is none is reported, unless it follows from an error
/// that was reported already.
///
/// As the state that [`Checker::infer_or_report`] leaves, with its result.
#[verifier::opaque]
pub open spec fn spec_infer_or_report(
    st: Checker,
    env: Env,
    e: Rc<Expr>,
) -> (Checker, Option<Rc<Type>>)
{
    match spec_infer_expr(env, e) {
        Some(t) => (st, Some(t)),
        None => {
            let st = if !spec_contains_error(e) {
                let st = spec_report_with_detail(st, spec_cat4(spec_lit("cannot infer type of "), spec_show_expr(e), spec_lit(": "), spec_infer_error(env, e)), Some(spec_show_env(env)), e.loc);
                st
            } else {
                st
            };
            (st, None)
        },
    }
}

/// Reports that two types differ, where they have to agree.
///
/// As the state that [`Checker::check_type_eq`] leaves.
#[verifier::opaque]
pub open spec fn spec_check_type_eq(
    st: Checker,
    env: Env,
    actual: Rc<Type>,
    expected: Rc<Type>,
) -> Checker
{
    if !matches!(actual.val, TypeT::Error) && !matches!(expected.val, TypeT::Error) && st.check_types && !spec_vtype_eq(env, actual, expected) {
        let st = spec_report(st, spec_cat4(spec_lit("expected type "), spec_show_type(expected), spec_lit(" got "), spec_show_type(actual)), actual.loc);
        st
    } else {
        st
    }
}

/// Whether [`Checker::check_type_eq`] has nothing to report.
pub open spec fn well_formed_type_eq(
    types: bool,
    env: Env,
    actual: Rc<Type>,
    expected: Rc<Type>,
) -> bool
{
    !(!matches!(actual.val, TypeT::Error) && !matches!(expected.val, TypeT::Error) && types && !spec_vtype_eq(env, actual, expected))
}

/// Reports that an expression has another type than it has to have.
///
/// As the state that [`Checker::check_has_type`] leaves.
#[verifier::opaque]
pub open spec fn spec_check_has_type(
    st: Checker,
    env: Env,
    e: Rc<Expr>,
    expected: Rc<Type>,
) -> Checker
{
    if st.check_types && !spec_contains_error(e) {
        let (st, v1) = spec_infer_or_report(st, env, e);
        match v1 {
            Some(t) => {
                if !spec_vtype_eq(env, t, expected) {
                    let st = spec_report(st, spec_cat(spec_cat4(spec_lit("expected type "), spec_show_type(expected), spec_lit(", but got "), spec_show_expr(e)), spec_cat(spec_lit(" with type "), spec_show_type(t))), e.loc);
                    st
                } else {
                    st
                }
            },
            None => st,
        }
    } else {
        st
    }
}

/// Whether [`Checker::check_has_type`] has nothing to report.
pub open spec fn well_formed_has_type(
    types: bool,
    env: Env,
    e: Rc<Expr>,
    expected: Rc<Type>,
) -> bool
{
    if types && !spec_contains_error(e) {
        &&& is_inferred(env, e)
        &&& (match spec_infer_expr(env, e) {
                Some(t) => spec_vtype_eq(env, t, expected),
                None => true,
        })
    } else {
        true
    }
}

/// Reports that the types of two expressions differ.
///
/// As the state that [`Checker::check_same_type`] leaves.
#[verifier::opaque]
pub open spec fn spec_check_same_type(
    st: Checker,
    env: Env,
    e: Rc<Expr>,
    expected: Rc<Expr>,
) -> Checker
{
    if st.check_types {
        let (st, x) = spec_infer_or_report(st, env, expected);
        let (st, v) = spec_infer_or_report(st, env, e);
        match (x, v) {
            (Some(a), Some(b)) => spec_check_type_eq(st, env, b, a),
            _ => st,
        }
    } else {
        st
    }
}

/// Whether [`Checker::check_same_type`] has nothing to report.
pub open spec fn well_formed_same_type(
    types: bool,
    env: Env,
    e: Rc<Expr>,
    expected: Rc<Expr>,
) -> bool
{
    if types {
        let x = spec_infer_expr(env, expected);
        let v = spec_infer_expr(env, e);
        &&& is_inferred(env, expected)
        &&& is_inferred(env, e)
        &&& (match (x, v) {
                (Some(a), Some(b)) => well_formed_type_eq(types, env, b, a),
                _ => true,
        })
    } else {
        true
    }
}

/// Checks a name.
///
/// As the state that [`Checker::check_var`] leaves.
#[verifier::opaque]
pub open spec fn spec_check_var(st: Checker, env: Env, n: Rc<Ident>) -> Checker
{
    if spec_lookup_var(env, n).is_none() && spec_lookup_global_var(env, n).is_none() {
        let st = spec_report(st, spec_cat(spec_lit("unknown local variable "), n.val), n.loc);
        st
    } else {
        st
    }
}

/// Whether [`Checker::check_var`] has nothing to report.
pub open spec fn well_formed_var(types: bool, env: Env, n: Rc<Ident>) -> bool
{
    !(spec_lookup_var(env, n).is_none() && spec_lookup_global_var(env, n).is_none())
}

/// Reports that a record type has no such field.
///
/// As the state that [`Checker::check_member_of`] leaves.
#[verifier::opaque]
pub open spec fn spec_check_member_of(
    st: Checker,
    env: Env,
    t: Rc<Type>,
    a: Rc<Ident>,
    loc: Loc,
) -> Checker
{
    match spec_vtype_whnf(env, t).val {
        TypeT::TypeRef(TypeRefKind::Struct(n)) => {
            match spec_lookup_struct(env, n) {
                Some(s) => {
                    if spec_find_field(s.fields, a).is_none() {
                        let st = spec_report(st, spec_cat4(spec_lit("no field "), a.val, spec_lit(" in structure "), n.val), loc);
                        st
                    } else {
                        st
                    }
                },
                None => spec_report(st, spec_cat(spec_lit("unknown structure "), n.val), loc),
            }
        },
        TypeT::TypeRef(TypeRefKind::Union(n)) => {
            match spec_lookup_union(env, n) {
                Some(u) => {
                    if spec_find_field(u.fields, a).is_none() {
                        let st = spec_report(st, spec_cat4(spec_lit("no field "), a.val, spec_lit(" in union "), n.val), loc);
                        st
                    } else {
                        st
                    }
                },
                None => spec_report(st, spec_cat(spec_lit("unknown union "), n.val), loc),
            }
        },
        _ => spec_report(st, spec_cat(spec_lit("not a structure type: "), spec_show_type(spec_vtype_whnf(env, t))), loc),
    }
}

/// Whether [`Checker::check_member_of`] has nothing to report.
pub open spec fn well_formed_member_of(types: bool, env: Env, t: Rc<Type>, a: Rc<Ident>) -> bool
{
    match spec_vtype_whnf(env, t).val {
        TypeT::TypeRef(TypeRefKind::Struct(n)) => {
            match spec_lookup_struct(env, n) {
                Some(s) => spec_find_field(s.fields, a).is_some(),
                None => false,
            }
        },
        TypeT::TypeRef(TypeRefKind::Union(n)) => {
            match spec_lookup_union(env, n) {
                Some(u) => spec_find_field(u.fields, a).is_some(),
                None => false,
            }
        },
        _ => false,
    }
}

/// Reports that a type is none of a struct with such a field.
///
/// As the state that [`Checker::check_container`] leaves.
#[verifier::opaque]
pub open spec fn spec_check_container(
    st: Checker,
    env: Env,
    ty: Rc<Type>,
    field: Rc<Ident>,
    loc: Loc,
) -> Checker
{
    match spec_vtype_whnf(env, ty).val {
        TypeT::TypeRef(TypeRefKind::Struct(n)) => {
            match spec_lookup_struct(env, n) {
                Some(s) => {
                    if spec_find_field(s.fields, field).is_none() {
                        let st = spec_report(st, spec_cat4(spec_lit("no field "), field.val, spec_lit(" in structure "), n.val), loc);
                        st
                    } else {
                        st
                    }
                },
                None => spec_report(st, spec_cat(spec_lit("unknown structure "), n.val), loc),
            }
        },
        _ => spec_report(st, spec_cat(spec_lit("_container_of expects a struct type, got "), spec_show_type(spec_vtype_whnf(env, ty))), ty.loc),
    }
}

/// Whether [`Checker::check_container`] has nothing to report.
pub open spec fn well_formed_container(
    types: bool,
    env: Env,
    ty: Rc<Type>,
    field: Rc<Ident>,
) -> bool
{
    match spec_vtype_whnf(env, ty).val {
        TypeT::TypeRef(TypeRefKind::Struct(n)) => {
            match spec_lookup_struct(env, n) {
                Some(s) => spec_find_field(s.fields, field).is_some(),
                None => false,
            }
        },
        _ => false,
    }
}

/// Reports operands of different types.
///
/// As the state that [`Checker::check_operands_agree`] leaves.
#[verifier::opaque]
pub open spec fn spec_check_operands_agree(
    st: Checker,
    env: Env,
    a: Rc<Type>,
    b: Rc<Type>,
    loc: Loc,
) -> Checker
{
    if !spec_vtype_eq(env, a, b) {
        let st = spec_report(st, spec_cat4(spec_lit("binop applied to mismatching types "), spec_show_type(a), spec_lit(" and "), spec_show_type(b)), loc);
        st
    } else {
        st
    }
}

/// Whether [`Checker::check_operands_agree`] has nothing to report.
pub open spec fn well_formed_operands_agree(types: bool, env: Env, a: Rc<Type>, b: Rc<Type>) -> bool
{
    spec_vtype_eq(env, a, b)
}

/// Checks the types of two operands.
///
/// As the state that [`Checker::check_operand_types`] leaves.
#[verifier::opaque]
pub open spec fn spec_check_operand_types(
    st: Checker,
    env: Env,
    op: BinOp,
    a: Rc<Type>,
    b: Rc<Type>,
    loc: Loc,
) -> Checker
{
    match op {
        BinOp::Eq | BinOp::Elvis => spec_check_operands_agree(st, env, a, b, loc),
        BinOp::LogAnd | BinOp::LogOr | BinOp::Implies => {
            let st = spec_check_operands_agree(st, env, a, b, loc);
            if !spec_is_logical_type(env, a) {
                let st = spec_report(st, spec_cat3(spec_show_binop(op), spec_lit(" needs to be applied to bool/slprop, not "), spec_show_type(a)), loc);
                st
            } else {
                st
            }
        },
        BinOp::Shl | BinOp::Shr => {
            if !spec_vtype_eq(env, b, spec_mk_type(b.loc, TypeT::Int { signed: false, width: 32 })) {
                let st = spec_report(st, spec_cat(spec_lit("shift amount must be uint32_t, not "), spec_show_type(b)), loc);
                st
            } else {
                st
            }
        },
        _ => {
            if !spec_is_pointer_arithmetic(env, op, a, b) {
                let st = spec_check_operands_agree(st, env, a, b, loc);
                st
            } else {
                st
            }
        },
    }
}

/// Whether [`Checker::check_operand_types`] has nothing to report.
pub open spec fn well_formed_operand_types(
    types: bool,
    env: Env,
    op: BinOp,
    a: Rc<Type>,
    b: Rc<Type>,
) -> bool
{
    match op {
        BinOp::Eq | BinOp::Elvis => well_formed_operands_agree(types, env, a, b),
        BinOp::LogAnd | BinOp::LogOr | BinOp::Implies => {
            &&& well_formed_operands_agree(types, env, a, b)
            &&& spec_is_logical_type(env, a)
        },
        BinOp::Shl | BinOp::Shr => spec_vtype_eq(env, b, spec_mk_type(b.loc, TypeT::Int { signed: false, width: 32 })),
        _ => (!spec_is_pointer_arithmetic(env, op, a, b) ==> well_formed_operands_agree(types, env, a, b)),
    }
}

/// Checks an array that is indexed, and the index.
///
/// As the state that [`Checker::check_index_types`] leaves.
#[verifier::opaque]
pub open spec fn spec_check_index_types(
    st: Checker,
    env: Env,
    arr: Rc<Expr>,
    idx: Rc<Expr>,
    loc: Loc,
) -> Checker
{
    let (st, v1) = spec_infer_or_report(st, env, arr);
    let st = match v1 {
        Some(t) => {
            if !spec_is_indexable(env, t) {
                let st = spec_report(st, spec_cat(spec_lit("not an array type: "), spec_show_type(spec_vtype_whnf(env, t))), loc);
                st
            } else {
                st
            }
        },
        None => st,
    };
    let (st, v2) = spec_infer_or_report(st, env, idx);
    match v2 {
        Some(t) => {
            if !spec_is_index_type(env, t) {
                let st = spec_report(st, spec_cat(spec_lit("array index must have type SizeT, got: "), spec_show_type(spec_vtype_whnf(env, t))), idx.loc);
                st
            } else {
                st
            }
        },
        None => st,
    }
}

/// Whether [`Checker::check_index_types`] has nothing to report.
pub open spec fn well_formed_index_types(
    types: bool,
    env: Env,
    arr: Rc<Expr>,
    idx: Rc<Expr>,
) -> bool
{
    &&& is_inferred(env, arr)
    &&& (match spec_infer_expr(env, arr) {
            Some(t) => spec_is_indexable(env, t),
            None => true,
    })
    &&& is_inferred(env, idx)
    &&& (match spec_infer_expr(env, idx) {
            Some(t) => spec_is_index_type(env, t),
            None => true,
    })
}

/// Checks the types of arguments against those of parameters, as far as there are both.
///
/// As the state that [`Checker::check_arg_types`] leaves.
pub open spec fn spec_check_arg_types(
    st: Checker,
    env: Env,
    params: Rc<List<FnArg>>,
    args: Rc<List<Expr>>,
) -> Checker
    decreases args,
{
    match (*params, *args) {
        (List::Cons(p, s), List::Cons(a, t)) => {
            let st = spec_check_has_type(st, env, a, p.ty);
            let st = spec_check_arg_types(st, env, s, t);
            st
        },
        _ => st,
    }
}

/// Whether [`Checker::check_arg_types`] has nothing to report.
pub open spec fn well_formed_arg_types(
    types: bool,
    env: Env,
    params: Rc<List<FnArg>>,
    args: Rc<List<Expr>>,
) -> bool
    decreases args,
{
    match (*params, *args) {
        (List::Cons(p, s), List::Cons(a, t)) => {
            &&& well_formed_has_type(types, env, a, p.ty)
            &&& well_formed_arg_types(types, env, s, t)
        },
        _ => true,
    }
}

/// Checks a call, but for its arguments themselves.
///
/// As the state that [`Checker::check_call`] leaves.
#[verifier::opaque]
pub open spec fn spec_check_call(
    st: Checker,
    env: Env,
    f: Rc<Ident>,
    args: Rc<List<Expr>>,
    loc: Loc,
) -> Checker
{
    match spec_lookup_fn(env, f) {
        None => spec_report(st, spec_cat(spec_lit("unknown function "), f.val), loc),
        Some(d) => {
            let st = if spec_list_len(d.args) != spec_list_len(args) {
                let st = spec_report(st, spec_cat4(spec_lit("incorrect number of arguments, expected "), spec_num(spec_list_len(d.args)), spec_lit(", got "), spec_num(spec_list_len(args))), loc);
                st
            } else {
                st
            };
            let st = spec_check_arg_types(st, env, d.args, args);
            st
        },
    }
}

/// Whether [`Checker::check_call`] has nothing to report.
pub open spec fn well_formed_call(types: bool, env: Env, f: Rc<Ident>, args: Rc<List<Expr>>) -> bool
{
    match spec_lookup_fn(env, f) {
        None => false,
        Some(d) => {
            &&& !(spec_list_len(d.args) != spec_list_len(args))
            &&& well_formed_arg_types(types, env, d.args, args)
        },
    }
}

/// Checks the name of a type.
///
/// As the state that [`Checker::check_type_ref`] leaves.
#[verifier::opaque]
pub open spec fn spec_check_type_ref(st: Checker, env: Env, k: TypeRefKind, loc: Loc) -> Checker
{
    match k {
        TypeRefKind::Typedef(n) => {
            if !spec_is_known_type(env, n) {
                let st = spec_report(st, spec_cat(spec_lit("unknown type "), n.val), loc);
                st
            } else {
                st
            }
        },
        TypeRefKind::Struct(n) => {
            if spec_lookup_struct(env, n).is_none() {
                let st = spec_report(st, spec_cat(spec_lit("unknown struct "), n.val), loc);
                st
            } else {
                st
            }
        },
        TypeRefKind::Union(n) => {
            if spec_lookup_union(env, n).is_none() {
                let st = spec_report(st, spec_cat(spec_lit("unknown union "), n.val), loc);
                st
            } else {
                st
            }
        },
    }
}

/// Whether [`Checker::check_type_ref`] has nothing to report.
pub open spec fn well_formed_type_ref(types: bool, env: Env, k: TypeRefKind) -> bool
{
    match k {
        TypeRefKind::Typedef(n) => spec_is_known_type(env, n),
        TypeRefKind::Struct(n) => spec_lookup_struct(env, n).is_some(),
        TypeRefKind::Union(n) => spec_lookup_union(env, n).is_some(),
    }
}

/// Checks a type: that what it names is declared, and that its refinements are propositions.
///
/// As the state that [`Checker::check_type`] leaves.
pub open spec fn spec_check_type(st: Checker, env: Env, ty: Rc<Type>) -> Checker
    decreases ty, 0nat,
{
    match ty.val {
        TypeT::Pointer(t, _) | TypeT::FixedArray(t, _) | TypeT::FlexArray(t) => spec_check_type(st, env, t),
        TypeT::Plain(t) | TypeT::Nullable(t) => spec_check_type(st, env, t),
        TypeT::FnPtr { args, ret } => {
            let st = spec_check_types_of(st, env, args);
            let st = spec_check_type(st, env, ret);
            st
        },
        TypeT::TypeRef(k) => spec_check_type_ref(st, env, k, ty.loc),
        TypeT::Refine(t, p) | TypeT::RefineAlways(t, p) | TypeT::RefineUninit(t, p) => {
            let st = spec_check_type(st, env, t);
            let st = spec_check_slprop(st, spec_push_this(env, t), p);
            st
        },
        TypeT::RefineValue(t, x, u, p) => {
            let st = spec_check_type(st, env, t);
            let st = spec_check_type(st, env, u);
            let st = spec_check_slprop(st, spec_push_var_decl(spec_push_this(env, t), x, u, LocalDeclKind::RValue), p);
            st
        },
        _ => st,
    }
}

/// Whether [`Checker::check_type`] has nothing to report.
pub open spec fn well_formed_type(types: bool, env: Env, ty: Rc<Type>) -> bool
    decreases ty, 0nat,
{
    match ty.val {
        TypeT::Pointer(t, _) | TypeT::FixedArray(t, _) | TypeT::FlexArray(t) => well_formed_type(types, env, t),
        TypeT::Plain(t) | TypeT::Nullable(t) => well_formed_type(types, env, t),
        TypeT::FnPtr { args, ret } => {
            &&& well_formed_types_of(types, env, args)
            &&& well_formed_type(types, env, ret)
        },
        TypeT::TypeRef(k) => well_formed_type_ref(types, env, k),
        TypeT::Refine(t, p) | TypeT::RefineAlways(t, p) | TypeT::RefineUninit(t, p) => {
            &&& well_formed_type(types, env, t)
            &&& well_formed_slprop(types, spec_push_this(env, t), p)
        },
        TypeT::RefineValue(t, x, u, p) => {
            &&& well_formed_type(types, env, t)
            &&& well_formed_type(types, env, u)
            &&& well_formed_slprop(types, spec_push_var_decl(spec_push_this(env, t), x, u, LocalDeclKind::RValue), p)
        },
        _ => true,
    }
}

/// Checks types.
///
/// As the state that [`Checker::check_types_of`] leaves.
pub open spec fn spec_check_types_of(st: Checker, env: Env, l: Rc<List<Type>>) -> Checker
    decreases l, 0nat,
{
    match *l {
        List::Nil => st,
        List::Cons(h, t) => {
            let st = spec_check_type(st, env, h);
            let st = spec_check_types_of(st, env, t);
            st
        },
    }
}

/// Whether [`Checker::check_types_of`] has nothing to report.
pub open spec fn well_formed_types_of(types: bool, env: Env, l: Rc<List<Type>>) -> bool
    decreases l, 0nat,
{
    match *l {
        List::Nil => true,
        List::Cons(h, t) => {
            &&& well_formed_type(types, env, h)
            &&& well_formed_types_of(types, env, t)
        },
    }
}

/// Checks a proposition.
///
/// As the state that [`Checker::check_slprop`] leaves.
pub open spec fn spec_check_slprop(st: Checker, env: Env, p: Rc<Expr>) -> Checker
    decreases p, 9nat,
{
    let st = spec_check_rvalue(st, env, p);
    let st = spec_check_has_type(st, env, p, spec_mk_type(p.loc, TypeT::SLProp));
    st
}

/// Whether [`Checker::check_slprop`] has nothing to report.
pub open spec fn well_formed_slprop(types: bool, env: Env, p: Rc<Expr>) -> bool
    decreases p, 9nat,
{
    &&& well_formed_rvalue(types, env, p)
    &&& well_formed_has_type(types, env, p, spec_mk_type(p.loc, TypeT::SLProp))
}

/// Checks a condition.
///
/// As the state that [`Checker::check_bool`] leaves.
pub open spec fn spec_check_bool(st: Checker, env: Env, p: Rc<Expr>) -> Checker
    decreases p, 9nat,
{
    let st = spec_check_rvalue(st, env, p);
    let st = spec_check_has_type(st, env, p, spec_mk_type(p.loc, TypeT::Bool));
    st
}

/// Whether [`Checker::check_bool`] has nothing to report.
pub open spec fn well_formed_bool(types: bool, env: Env, p: Rc<Expr>) -> bool
    decreases p, 9nat,
{
    &&& well_formed_rvalue(types, env, p)
    &&& well_formed_has_type(types, env, p, spec_mk_type(p.loc, TypeT::Bool))
}

/// Checks a place that is written to.
///
/// As the state that [`Checker::check_lvalue`] leaves.
pub open spec fn spec_check_lvalue(st: Checker, env: Env, e: Rc<Expr>) -> Checker
    decreases e, 9nat,
{
    if !spec_contains_error(e) {
        let st = spec_check_rvalue(st, env, e);
        if !spec_is_lvalue(env, e) {
            let st = spec_report(st, spec_cat(spec_lit("expected lvalue, got "), spec_show_expr(e)), e.loc);
            st
        } else {
            st
        }
    } else {
        st
    }
}

/// Whether [`Checker::check_lvalue`] has nothing to report.
pub open spec fn well_formed_lvalue(types: bool, env: Env, e: Rc<Expr>) -> bool
    decreases e, 9nat,
{
    if !spec_contains_error(e) {
        &&& well_formed_rvalue(types, env, e)
        &&& spec_is_lvalue(env, e)
    } else {
        true
    }
}

/// Checks an expression. What holds the residue of an error is not checked, since that would
/// only report the error again.
///
/// As the state that [`Checker::check_rvalue`] leaves.
pub open spec fn spec_check_rvalue(st: Checker, env: Env, e: Rc<Expr>) -> Checker
    decreases e, 8nat,
{
    if !spec_contains_error(e) {
        let st = spec_check_node(st, env, e);
        st
    } else {
        st
    }
}

/// Whether [`Checker::check_rvalue`] has nothing to report.
pub open spec fn well_formed_rvalue(types: bool, env: Env, e: Rc<Expr>) -> bool
    decreases e, 8nat,
{
    (!spec_contains_error(e) ==> well_formed_node(types, env, e))
}

/// Checks expressions.
///
/// As the state that [`Checker::check_rvalues`] leaves.
pub open spec fn spec_check_rvalues(st: Checker, env: Env, l: Rc<List<Expr>>) -> Checker
    decreases l, 0nat,
{
    match *l {
        List::Nil => st,
        List::Cons(h, t) => {
            let st = spec_check_rvalue(st, env, h);
            let st = spec_check_rvalues(st, env, t);
            st
        },
    }
}

/// Whether [`Checker::check_rvalues`] has nothing to report.
pub open spec fn well_formed_rvalues(types: bool, env: Env, l: Rc<List<Expr>>) -> bool
    decreases l, 0nat,
{
    match *l {
        List::Nil => true,
        List::Cons(h, t) => {
            &&& well_formed_rvalue(types, env, h)
            &&& well_formed_rvalues(types, env, t)
        },
    }
}

/// Checks an expression that holds no residue of an error.
///
/// As the state that [`Checker::check_node`] leaves.
pub open spec fn spec_check_node(st: Checker, env: Env, e: Rc<Expr>) -> Checker
    decreases e, 7nat,
{
    match e.val {
        ExprT::BoolLit(_) => st,
        ExprT::Var(n) => spec_check_var(st, env, n),
        ExprT::FnRef(f) => {
            if spec_lookup_fn(env, f).is_none() {
                let st = spec_report(st, spec_cat(spec_lit("unknown function "), f.val), e.loc);
                st
            } else {
                st
            }
        },
        ExprT::VAttr(_, a) | ExprT::Live(a) | ExprT::Old(a) | ExprT::Free(a) => spec_check_rvalue(st, env, a),
        ExprT::PreIncr(a) | ExprT::PostIncr(a) | ExprT::PreDecr(a) | ExprT::PostDecr(a) => spec_check_lvalue(st, env, a),
        ExprT::Deref(a) => spec_check_deref(st, env, a),
        ExprT::Member(x, a) => {
            let st = spec_check_rvalue(st, env, x);
            if st.check_types {
                let (st, v1) = spec_infer_or_report(st, env, x);
                match v1 {
                    Some(t) => spec_check_member_of(st, env, t, a, e.loc),
                    None => st,
                }
            } else {
                st
            }
        },
        ExprT::Ref(a) => {
            let st = spec_check_rvalue(st, env, a);
            if !spec_is_addressable(env, a) {
                let st = spec_report(st, spec_cat(spec_lit("expected lvalue for &, got "), spec_show_expr(a)), e.loc);
                st
            } else {
                st
            }
        },
        ExprT::UnOp(op, a) => spec_check_unop(st, env, op, a, e.loc),
        _ => spec_check_compound(st, env, e),
    }
}

/// Whether [`Checker::check_node`] has nothing to report.
pub open spec fn well_formed_node(types: bool, env: Env, e: Rc<Expr>) -> bool
    decreases e, 7nat,
{
    match e.val {
        ExprT::BoolLit(_) => true,
        ExprT::Var(n) => well_formed_var(types, env, n),
        ExprT::FnRef(f) => spec_lookup_fn(env, f).is_some(),
        ExprT::VAttr(_, a) | ExprT::Live(a) | ExprT::Old(a) | ExprT::Free(a) => well_formed_rvalue(types, env, a),
        ExprT::PreIncr(a) | ExprT::PostIncr(a) | ExprT::PreDecr(a) | ExprT::PostDecr(a) => well_formed_lvalue(types, env, a),
        ExprT::Deref(a) => well_formed_deref(types, env, a),
        ExprT::Member(x, a) => {
            &&& well_formed_rvalue(types, env, x)
            &&& (if types {
                    &&& is_inferred(env, x)
                    &&& (match spec_infer_expr(env, x) {
                            Some(t) => well_formed_member_of(types, env, t, a),
                            None => true,
                    })
                } else {
                    true
            })
        },
        ExprT::Ref(a) => {
            &&& well_formed_rvalue(types, env, a)
            &&& spec_is_addressable(env, a)
        },
        ExprT::UnOp(op, a) => well_formed_unop(types, env, op, a),
        _ => well_formed_compound(types, env, e),
    }
}

/// Checks what a pointer points to.
///
/// As the state that [`Checker::check_deref`] leaves.
pub open spec fn spec_check_deref(st: Checker, env: Env, a: Rc<Expr>) -> Checker
    decreases a, 9nat,
{
    let st = spec_check_rvalue(st, env, a);
    if st.check_types {
        let (st, v1) = spec_infer_or_report(st, env, a);
        match v1 {
            Some(t) => {
                if !spec_is_pointer_type(env, t) {
                    let st = spec_report(st, spec_cat(spec_lit("not a pointer type: "), spec_show_type(t)), a.loc);
                    st
                } else {
                    st
                }
            },
            None => st,
        }
    } else {
        st
    }
}

/// Whether [`Checker::check_deref`] has nothing to report.
pub open spec fn well_formed_deref(types: bool, env: Env, a: Rc<Expr>) -> bool
    decreases a, 9nat,
{
    &&& well_formed_rvalue(types, env, a)
    &&& (if types {
            &&& is_inferred(env, a)
            &&& (match spec_infer_expr(env, a) {
                    Some(t) => spec_is_pointer_type(env, t),
                    None => true,
            })
        } else {
            true
    })
}

/// Checks a unary operation.
///
/// As the state that [`Checker::check_unop`] leaves.
pub open spec fn spec_check_unop(st: Checker, env: Env, op: UnOp, a: Rc<Expr>, loc: Loc) -> Checker
    decreases a, 9nat,
{
    let st = spec_check_rvalue(st, env, a);
    if st.check_types {
        let (st, v1) = spec_infer_or_report(st, env, a);
        match v1 {
            Some(t) => {
                if op == UnOp::Not && !spec_is_not_type(env, t) {
                    let st = spec_report(st, spec_cat(spec_lit("! needs to be applied to bool, not "), spec_show_type(t)), loc);
                    st
                } else {
                    st
                }
            },
            None => st,
        }
    } else {
        st
    }
}

/// Whether [`Checker::check_unop`] has nothing to report.
pub open spec fn well_formed_unop(types: bool, env: Env, op: UnOp, a: Rc<Expr>) -> bool
    decreases a, 9nat,
{
    &&& well_formed_rvalue(types, env, a)
    &&& (if types {
            &&& is_inferred(env, a)
            &&& (match spec_infer_expr(env, a) {
                    Some(t) => !(op == UnOp::Not && !spec_is_not_type(env, t)),
                    None => true,
            })
        } else {
            true
    })
}

/// Checks an expression with several operands.
///
/// As the state that [`Checker::check_compound`] leaves.
pub open spec fn spec_check_compound(st: Checker, env: Env, e: Rc<Expr>) -> Checker
    decreases e, 6nat,
{
    match e.val {
        ExprT::Index(arr, idx) => {
            let st = spec_check_rvalue(st, env, arr);
            let st = spec_check_rvalue(st, env, idx);
            if st.check_types {
                let st = spec_check_index_types(st, env, arr, idx, e.loc);
                st
            } else {
                st
            }
        },
        ExprT::BinOp(op, a, b) => {
            let st = spec_check_rvalue(st, env, a);
            let st = spec_check_rvalue(st, env, b);
            if st.check_types {
                let (st, x) = spec_infer_or_report(st, env, a);
                let (st, y) = spec_infer_or_report(st, env, b);
                match (x, y) {
                    (Some(s), Some(t)) => spec_check_operand_types(st, env, op, s, t, e.loc),
                    _ => st,
                }
            } else {
                st
            }
        },
        ExprT::AssignExpr(a, b) => {
            let st = spec_check_rvalue(st, env, a);
            let st = spec_check_rvalue(st, env, b);
            let st = spec_check_same_type(st, env, b, a);
            st
        },
        ExprT::Cond(a, b, c) => {
            let st = spec_check_rvalue(st, env, a);
            let st = spec_check_rvalue(st, env, b);
            let st = spec_check_rvalue(st, env, c);
            st
        },
        ExprT::FnCall(f, args) => {
            let st = spec_check_rvalues(st, env, args);
            let st = spec_check_call(st, env, f, args, e.loc);
            st
        },
        ExprT::FnPtrCall(f, args) => {
            let st = spec_check_rvalue(st, env, f);
            let st = spec_check_rvalues(st, env, args);
            st
        },
        _ => spec_check_typed(st, env, e),
    }
}

/// Whether [`Checker::check_compound`] has nothing to report.
pub open spec fn well_formed_compound(types: bool, env: Env, e: Rc<Expr>) -> bool
    decreases e, 6nat,
{
    match e.val {
        ExprT::Index(arr, idx) => {
            &&& well_formed_rvalue(types, env, arr)
            &&& well_formed_rvalue(types, env, idx)
            &&& (types ==> well_formed_index_types(types, env, arr, idx))
        },
        ExprT::BinOp(op, a, b) => {
            &&& well_formed_rvalue(types, env, a)
            &&& well_formed_rvalue(types, env, b)
            &&& (if types {
                    let x = spec_infer_expr(env, a);
                    let y = spec_infer_expr(env, b);
                    &&& is_inferred(env, a)
                    &&& is_inferred(env, b)
                    &&& (match (x, y) {
                            (Some(s), Some(t)) => well_formed_operand_types(types, env, op, s, t),
                            _ => true,
                    })
                } else {
                    true
            })
        },
        ExprT::AssignExpr(a, b) => {
            &&& well_formed_rvalue(types, env, a)
            &&& well_formed_rvalue(types, env, b)
            &&& well_formed_same_type(types, env, b, a)
        },
        ExprT::Cond(a, b, c) => {
            &&& well_formed_rvalue(types, env, a)
            &&& well_formed_rvalue(types, env, b)
            &&& well_formed_rvalue(types, env, c)
        },
        ExprT::FnCall(f, args) => {
            &&& well_formed_rvalues(types, env, args)
            &&& well_formed_call(types, env, f, args)
        },
        ExprT::FnPtrCall(f, args) => {
            &&& well_formed_rvalue(types, env, f)
            &&& well_formed_rvalues(types, env, args)
        },
        _ => well_formed_typed(types, env, e),
    }
}

/// Checks an expression with a type.
///
/// As the state that [`Checker::check_typed`] leaves.
pub open spec fn spec_check_typed(st: Checker, env: Env, e: Rc<Expr>) -> Checker
    decreases e, 5nat,
{
    match e.val {
        ExprT::IntLit(_, ty) => {
            let st = spec_check_type(st, env, ty);
            if st.check_types && !spec_is_valid_int_type(env, ty) {
                let st = spec_report(st, spec_cat(spec_lit("invalid integer type: "), spec_show_type(ty)), e.loc);
                st
            } else {
                st
            }
        },
        ExprT::FloatLit(_, ty) => {
            let st = spec_check_type(st, env, ty);
            if st.check_types && !spec_is_valid_float_type(env, ty) {
                let st = spec_report(st, spec_cat(spec_lit("invalid floating literal type: "), spec_show_type(ty)), e.loc);
                st
            } else {
                st
            }
        },
        ExprT::Malloc(ty) | ExprT::Calloc(ty) | ExprT::SizeOf(ty) | ExprT::AlignOf(ty) | ExprT::Error(ty) => spec_check_type(st, env, ty),
        ExprT::Cast(a, ty) => {
            let st = spec_check_rvalue(st, env, a);
            let st = spec_check_type(st, env, ty);
            st
        },
        ExprT::MallocArray(ty, n) | ExprT::CallocArray(ty, n) | ExprT::MallocFlex(ty, n) | ExprT::CallocFlex(ty, n) | ExprT::MemsetZero(ty, n) => {
            let st = spec_check_type(st, env, ty);
            let st = spec_check_rvalue(st, env, n);
            st
        },
        ExprT::Forall(x, ty, body) | ExprT::Exists(x, ty, body) => {
            let st = spec_check_type(st, env, ty);
            let st = spec_check_rvalue(st, spec_push_var_decl(env, x, ty, LocalDeclKind::RValue), body);
            st
        },
        _ => spec_check_mixed(st, env, e),
    }
}

/// Whether [`Checker::check_typed`] has nothing to report.
pub open spec fn well_formed_typed(types: bool, env: Env, e: Rc<Expr>) -> bool
    decreases e, 5nat,
{
    match e.val {
        ExprT::IntLit(_, ty) => {
            &&& well_formed_type(types, env, ty)
            &&& !(types && !spec_is_valid_int_type(env, ty))
        },
        ExprT::FloatLit(_, ty) => {
            &&& well_formed_type(types, env, ty)
            &&& !(types && !spec_is_valid_float_type(env, ty))
        },
        ExprT::Malloc(ty) | ExprT::Calloc(ty) | ExprT::SizeOf(ty) | ExprT::AlignOf(ty) | ExprT::Error(ty) => well_formed_type(types, env, ty),
        ExprT::Cast(a, ty) => {
            &&& well_formed_rvalue(types, env, a)
            &&& well_formed_type(types, env, ty)
        },
        ExprT::MallocArray(ty, n) | ExprT::CallocArray(ty, n) | ExprT::MallocFlex(ty, n) | ExprT::CallocFlex(ty, n) | ExprT::MemsetZero(ty, n) => {
            &&& well_formed_type(types, env, ty)
            &&& well_formed_rvalue(types, env, n)
        },
        ExprT::Forall(x, ty, body) | ExprT::Exists(x, ty, body) => {
            &&& well_formed_type(types, env, ty)
            &&& well_formed_rvalue(types, spec_push_var_decl(env, x, ty, LocalDeclKind::RValue), body)
        },
        _ => well_formed_mixed(types, env, e),
    }
}

/// Checks an initializer, an access to memory, or inline code.
///
/// As the state that [`Checker::check_mixed`] leaves.
pub open spec fn spec_check_mixed(st: Checker, env: Env, e: Rc<Expr>) -> Checker
    decreases e, 4nat,
{
    match e.val {
        ExprT::Memset(ty, p, v, n) => {
            let st = spec_check_type(st, env, ty);
            let st = spec_check_rvalue(st, env, p);
            let st = spec_check_rvalue(st, env, v);
            let st = spec_check_rvalue(st, env, n);
            st
        },
        ExprT::ContainerOf(p, ty, field) => {
            let st = spec_check_rvalue(st, env, p);
            let st = spec_check_type(st, env, ty);
            if st.check_types {
                let st = spec_check_container(st, env, ty, field, e.loc);
                st
            } else {
                st
            }
        },
        ExprT::InlinePulse(code, ty) => {
            let st = spec_check_type(st, env, ty);
            let st = spec_check_tokens(st, env, code.tokens);
            st
        },
        ExprT::ArrayInit { elem_ty, elems, .. } => {
            let st = spec_check_type(st, env, elem_ty);
            let st = spec_check_rvalues(st, env, elems);
            st
        },
        ExprT::StructInit(_, _) => spec_check_struct_init(st, env, e),
        ExprT::UnionInit(_, _, _) => spec_check_union_init(st, env, e),
        _ => st,
    }
}

/// Whether [`Checker::check_mixed`] has nothing to report.
pub open spec fn well_formed_mixed(types: bool, env: Env, e: Rc<Expr>) -> bool
    decreases e, 4nat,
{
    match e.val {
        ExprT::Memset(ty, p, v, n) => {
            &&& well_formed_type(types, env, ty)
            &&& well_formed_rvalue(types, env, p)
            &&& well_formed_rvalue(types, env, v)
            &&& well_formed_rvalue(types, env, n)
        },
        ExprT::ContainerOf(p, ty, field) => {
            &&& well_formed_rvalue(types, env, p)
            &&& well_formed_type(types, env, ty)
            &&& (types ==> well_formed_container(types, env, ty, field))
        },
        ExprT::InlinePulse(code, ty) => {
            &&& well_formed_type(types, env, ty)
            &&& well_formed_tokens(types, env, code.tokens)
        },
        ExprT::ArrayInit { elem_ty, elems, .. } => {
            &&& well_formed_type(types, env, elem_ty)
            &&& well_formed_rvalues(types, env, elems)
        },
        ExprT::StructInit(_, _) => well_formed_struct_init(types, env, e),
        ExprT::UnionInit(_, _, _) => well_formed_union_init(types, env, e),
        _ => true,
    }
}

/// Checks a struct literal.
///
/// As the state that [`Checker::check_struct_init`] leaves.
pub open spec fn spec_check_struct_init(st: Checker, env: Env, e: Rc<Expr>) -> Checker
    decreases e, 3nat,
{
    match e.val {
        ExprT::StructInit(name, inits) => {
            match spec_lookup_struct(env, name) {
                None => spec_report(st, spec_cat(spec_lit("unknown struct "), name.val), e.loc),
                Some(s) => {
                    if st.check_types {
                        let st = if spec_list_len(inits) > spec_list_len(s.fields) {
                            let st = spec_report(st, spec_cat(spec_cat4(spec_lit("struct "), name.val, spec_lit(" has "), spec_num(spec_list_len(s.fields))), spec_cat3(spec_lit(" fields, but "), spec_num(spec_list_len(inits)), spec_lit(" were given"))), e.loc);
                            st
                        } else {
                            st
                        };
                        let st = spec_check_inits(st, env, s, inits, e.loc);
                        st
                    } else {
                        st
                    }
                },
            }
        },
        _ => st,
    }
}

/// Whether [`Checker::check_struct_init`] has nothing to report.
pub open spec fn well_formed_struct_init(types: bool, env: Env, e: Rc<Expr>) -> bool
    decreases e, 3nat,
{
    match e.val {
        ExprT::StructInit(name, inits) => {
            match spec_lookup_struct(env, name) {
                None => false,
                Some(s) => {
                    if types {
                        &&& !(spec_list_len(inits) > spec_list_len(s.fields))
                        &&& well_formed_inits(types, env, s, inits)
                    } else {
                        true
                    }
                },
            }
        },
        _ => true,
    }
}

/// Checks a union literal.
///
/// As the state that [`Checker::check_union_init`] leaves.
pub open spec fn spec_check_union_init(st: Checker, env: Env, e: Rc<Expr>) -> Checker
    decreases e, 3nat,
{
    match e.val {
        ExprT::UnionInit(name, fld, v) => {
            match spec_lookup_union(env, name) {
                None => spec_report(st, spec_cat(spec_lit("unknown union "), name.val), e.loc),
                Some(u) => {
                    if st.check_types {
                        let st = spec_check_rvalue(st, env, v);
                        match spec_find_field(u.fields, fld) {
                            Some(f) => spec_check_has_type(st, env, v, spec_field_type(f)),
                            None => spec_report(st, spec_cat4(spec_lit("no field "), fld.val, spec_lit(" in union "), name.val), e.loc),
                        }
                    } else {
                        st
                    }
                },
            }
        },
        _ => st,
    }
}

/// Whether [`Checker::check_union_init`] has nothing to report.
pub open spec fn well_formed_union_init(types: bool, env: Env, e: Rc<Expr>) -> bool
    decreases e, 3nat,
{
    match e.val {
        ExprT::UnionInit(name, fld, v) => {
            match spec_lookup_union(env, name) {
                None => false,
                Some(u) => {
                    if types {
                        &&& well_formed_rvalue(types, env, v)
                        &&& (match spec_find_field(u.fields, fld) {
                                Some(f) => well_formed_has_type(types, env, v, spec_field_type(f)),
                                None => false,
                        })
                    } else {
                        true
                    }
                },
            }
        },
        _ => true,
    }
}

/// Checks the value of a struct's field.
///
/// As the state that [`Checker::check_init`] leaves.
pub open spec fn spec_check_init(
    st: Checker,
    env: Env,
    s: Rc<StructDefn>,
    i: Rc<FieldInit>,
    loc: Loc,
) -> Checker
    decreases i, 0nat,
{
    let st = spec_check_rvalue(st, env, i.value);
    match spec_find_field(s.fields, i.name) {
        Some(f) => spec_check_has_type(st, env, i.value, spec_field_type(f)),
        None => spec_report(st, spec_cat4(spec_lit("no field "), i.name.val, spec_lit(" in struct "), s.name.val), loc),
    }
}

/// Whether [`Checker::check_init`] has nothing to report.
pub open spec fn well_formed_init(
    types: bool,
    env: Env,
    s: Rc<StructDefn>,
    i: Rc<FieldInit>,
) -> bool
    decreases i, 0nat,
{
    &&& well_formed_rvalue(types, env, i.value)
    &&& (match spec_find_field(s.fields, i.name) {
            Some(f) => well_formed_has_type(types, env, i.value, spec_field_type(f)),
            None => false,
    })
}

/// Checks the values of a struct's fields.
///
/// As the state that [`Checker::check_inits`] leaves.
pub open spec fn spec_check_inits(
    st: Checker,
    env: Env,
    s: Rc<StructDefn>,
    l: Rc<List<FieldInit>>,
    loc: Loc,
) -> Checker
    decreases l, 0nat,
{
    match *l {
        List::Nil => st,
        List::Cons(h, t) => {
            let st = spec_check_init(st, env, s, h, loc);
            let st = spec_check_inits(st, env, s, t, loc);
            st
        },
    }
}

/// Whether [`Checker::check_inits`] has nothing to report.
pub open spec fn well_formed_inits(
    types: bool,
    env: Env,
    s: Rc<StructDefn>,
    l: Rc<List<FieldInit>>,
) -> bool
    decreases l, 0nat,
{
    match *l {
        List::Nil => true,
        List::Cons(h, t) => {
            &&& well_formed_init(types, env, s, h)
            &&& well_formed_inits(types, env, s, t)
        },
    }
}

/// Checks a token of inline code.
///
/// As the state that [`Checker::check_token`] leaves.
pub open spec fn spec_check_token(st: Checker, env: Env, tok: Rc<InlinePulseToken>) -> Checker
    decreases tok, 0nat,
{
    match *tok {
        InlinePulseToken::RValueAntiquot { expr, .. } => spec_check_rvalue(st, env, expr),
        InlinePulseToken::LValueAntiquot { expr, .. } => spec_check_rvalue(st, env, expr),
        InlinePulseToken::TypeAntiquot { ty, .. } => spec_check_type(st, env, ty),
        InlinePulseToken::Declare { ty, .. } => spec_check_type(st, env, ty),
        _ => st,
    }
}

/// Whether [`Checker::check_token`] has nothing to report.
pub open spec fn well_formed_token(types: bool, env: Env, tok: Rc<InlinePulseToken>) -> bool
    decreases tok, 0nat,
{
    match *tok {
        InlinePulseToken::RValueAntiquot { expr, .. } => well_formed_rvalue(types, env, expr),
        InlinePulseToken::LValueAntiquot { expr, .. } => well_formed_rvalue(types, env, expr),
        InlinePulseToken::TypeAntiquot { ty, .. } => well_formed_type(types, env, ty),
        InlinePulseToken::Declare { ty, .. } => well_formed_type(types, env, ty),
        _ => true,
    }
}

/// Checks inline code. A declared name is in scope from there on.
///
/// As the state that [`Checker::check_tokens`] leaves.
pub open spec fn spec_check_tokens(st: Checker, env: Env, l: Rc<List<InlinePulseToken>>) -> Checker
    decreases l, 0nat,
{
    match *l {
        List::Nil => st,
        List::Cons(h, t) => {
            let st = spec_check_token(st, env, h);
            match *h {
                InlinePulseToken::Declare { ident, ty } => spec_check_tokens(st, spec_push_var_decl(env, ident, ty, LocalDeclKind::RValue), t),
                _ => spec_check_tokens(st, env, t),
            }
        },
    }
}

/// Whether [`Checker::check_tokens`] has nothing to report.
pub open spec fn well_formed_tokens(types: bool, env: Env, l: Rc<List<InlinePulseToken>>) -> bool
    decreases l, 0nat,
{
    match *l {
        List::Nil => true,
        List::Cons(h, t) => {
            &&& well_formed_token(types, env, h)
            &&& (match *h {
                    InlinePulseToken::Declare { ident, ty } => well_formed_tokens(types, spec_push_var_decl(env, ident, ty, LocalDeclKind::RValue), t),
                    _ => well_formed_tokens(types, env, t),
            })
        },
    }
}

/// Checks propositions.
///
/// As the state that [`Checker::check_slprops`] leaves.
pub open spec fn spec_check_slprops(st: Checker, env: Env, l: Rc<List<Expr>>) -> Checker
    decreases l,
{
    match *l {
        List::Nil => st,
        List::Cons(h, t) => {
            let st = spec_check_slprop(st, env, h);
            let st = spec_check_slprops(st, env, t);
            st
        },
    }
}

/// Whether [`Checker::check_slprops`] has nothing to report.
pub open spec fn well_formed_slprops(types: bool, env: Env, l: Rc<List<Expr>>) -> bool
    decreases l,
{
    match *l {
        List::Nil => true,
        List::Cons(h, t) => {
            &&& well_formed_slprop(types, env, h)
            &&& well_formed_slprops(types, env, t)
        },
    }
}

/// Checks conditions.
///
/// As the state that [`Checker::check_bools`] leaves.
pub open spec fn spec_check_bools(st: Checker, env: Env, l: Rc<List<Expr>>) -> Checker
    decreases l,
{
    match *l {
        List::Nil => st,
        List::Cons(h, t) => {
            let st = spec_check_bool(st, env, h);
            let st = spec_check_bools(st, env, t);
            st
        },
    }
}

/// Whether [`Checker::check_bools`] has nothing to report.
pub open spec fn well_formed_bools(types: bool, env: Env, l: Rc<List<Expr>>) -> bool
    decreases l,
{
    match *l {
        List::Nil => true,
        List::Cons(h, t) => {
            &&& well_formed_bool(types, env, h)
            &&& well_formed_bools(types, env, t)
        },
    }
}

/// Checks patterns against the type of what they are matched with.
///
/// As the state that [`Checker::check_patterns`] leaves.
pub open spec fn spec_check_patterns(
    st: Checker,
    env: Env,
    subject: Option<Rc<Type>>,
    l: Rc<List<Expr>>,
) -> Checker
    decreases l,
{
    match *l {
        List::Nil => st,
        List::Cons(h, t) => {
            let st = spec_check_rvalue(st, env, h);
            let st = if st.check_types {
                let (st, v1) = spec_infer_or_report(st, env, h);
                match (subject, v1) {
                    (Some(s), Some(p)) => spec_check_type_eq(st, env, p, s),
                    _ => st,
                }
            } else {
                st
            };
            let st = spec_check_patterns(st, env, subject, t);
            st
        },
    }
}

/// Whether [`Checker::check_patterns`] has nothing to report.
pub open spec fn well_formed_patterns(
    types: bool,
    env: Env,
    subject: Option<Rc<Type>>,
    l: Rc<List<Expr>>,
) -> bool
    decreases l,
{
    match *l {
        List::Nil => true,
        List::Cons(h, t) => {
            &&& well_formed_rvalue(types, env, h)
            &&& (if types {
                    &&& is_inferred(env, h)
                    &&& (match (subject, spec_infer_expr(env, h)) {
                            (Some(s), Some(p)) => well_formed_type_eq(types, env, p, s),
                            _ => true,
                    })
                } else {
                    true
            })
            &&& well_formed_patterns(types, env, subject, t)
        },
    }
}

/// Checks a branch.
///
/// As the state that [`Checker::check_branch`] leaves.
pub open spec fn spec_check_branch(
    st: Checker,
    env: Env,
    subject: Option<Rc<Type>>,
    b: Rc<Branch>,
) -> Checker
    decreases b, 0nat,
{
    let st = spec_check_patterns(st, env, subject, b.patterns);
    let st = spec_check_stmts(st, env, b.body);
    st
}

/// Whether [`Checker::check_branch`] has nothing to report.
pub open spec fn well_formed_branch(
    types: bool,
    env: Env,
    subject: Option<Rc<Type>>,
    b: Rc<Branch>,
) -> bool
    decreases b, 0nat,
{
    &&& well_formed_patterns(types, env, subject, b.patterns)
    &&& well_formed_stmts(types, env, b.body)
}

/// Checks branches.
///
/// As the state that [`Checker::check_branches`] leaves.
pub open spec fn spec_check_branches(
    st: Checker,
    env: Env,
    subject: Option<Rc<Type>>,
    l: Rc<List<Branch>>,
) -> Checker
    decreases l, 0nat,
{
    match *l {
        List::Nil => st,
        List::Cons(h, t) => {
            let st = spec_check_branch(st, env, subject, h);
            let st = spec_check_branches(st, env, subject, t);
            st
        },
    }
}

/// Whether [`Checker::check_branches`] has nothing to report.
pub open spec fn well_formed_branches(
    types: bool,
    env: Env,
    subject: Option<Rc<Type>>,
    l: Rc<List<Branch>>,
) -> bool
    decreases l, 0nat,
{
    match *l {
        List::Nil => true,
        List::Cons(h, t) => {
            &&& well_formed_branch(types, env, subject, h)
            &&& well_formed_branches(types, env, subject, t)
        },
    }
}

/// Checks a statement.
///
/// As the state that [`Checker::check_stmt`] leaves.
pub open spec fn spec_check_stmt(st: Checker, env: Env, s: Rc<Stmt>) -> Checker
    decreases s, 2nat,
{
    match s.val {
        StmtT::Call(e) => spec_check_rvalue(st, env, e),
        StmtT::Decl(_, ty) => spec_check_type(st, env, ty),
        StmtT::Let(_, ty, value) => {
            let st = spec_check_type(st, env, ty);
            let st = spec_check_rvalue(st, env, value);
            if st.check_types {
                let (st, v1) = spec_infer_or_report(st, env, value);
                match v1 {
                    Some(t) => spec_check_type_eq(st, env, t, ty),
                    None => st,
                }
            } else {
                st
            }
        },
        StmtT::DeclStackArray { elem_type, size, .. } => {
            let st = spec_check_type(st, env, elem_type);
            let st = spec_check_rvalue(st, env, size);
            st
        },
        StmtT::Assign(x, v) => {
            let st = spec_check_lvalue(st, env, x);
            let st = spec_check_rvalue(st, env, v);
            let st = spec_check_same_type(st, env, v, x);
            st
        },
        StmtT::Break => {
            if !env.in_loop {
                let st = spec_report(st, spec_lit("break outside of loop"), s.loc);
                st
            } else {
                st
            }
        },
        StmtT::Continue => {
            if !env.in_loop {
                let st = spec_report(st, spec_lit("continue outside of loop"), s.loc);
                st
            } else {
                st
            }
        },
        StmtT::Return(Some(v)) => {
            let st = spec_check_rvalue(st, env, v);
            match env.return_type {
                Some(t) => spec_check_has_type(st, env, v, t),
                None => st,
            }
        },
        StmtT::Return(None) => st,
        StmtT::Assert(v) => spec_check_slprop(st, env, v),
        StmtT::GhostStmt(code) => spec_check_tokens(st, env, code.tokens),
        StmtT::Goto(_) => st,
        StmtT::Label { ensures_, .. } => spec_check_slprops(st, env, ensures_),
        StmtT::Error => st,
        _ => spec_check_block_stmt(st, env, s),
    }
}

/// Whether [`Checker::check_stmt`] has nothing to report.
pub open spec fn well_formed_stmt(types: bool, env: Env, s: Rc<Stmt>) -> bool
    decreases s, 2nat,
{
    match s.val {
        StmtT::Call(e) => well_formed_rvalue(types, env, e),
        StmtT::Decl(_, ty) => well_formed_type(types, env, ty),
        StmtT::Let(_, ty, value) => {
            &&& well_formed_type(types, env, ty)
            &&& well_formed_rvalue(types, env, value)
            &&& (if types {
                    &&& is_inferred(env, value)
                    &&& (match spec_infer_expr(env, value) {
                            Some(t) => well_formed_type_eq(types, env, t, ty),
                            None => true,
                    })
                } else {
                    true
            })
        },
        StmtT::DeclStackArray { elem_type, size, .. } => {
            &&& well_formed_type(types, env, elem_type)
            &&& well_formed_rvalue(types, env, size)
        },
        StmtT::Assign(x, v) => {
            &&& well_formed_lvalue(types, env, x)
            &&& well_formed_rvalue(types, env, v)
            &&& well_formed_same_type(types, env, v, x)
        },
        StmtT::Break => !(!env.in_loop),
        StmtT::Continue => !(!env.in_loop),
        StmtT::Return(Some(v)) => {
            &&& well_formed_rvalue(types, env, v)
            &&& (match env.return_type {
                    Some(t) => well_formed_has_type(types, env, v, t),
                    None => true,
            })
        },
        StmtT::Return(None) => true,
        StmtT::Assert(v) => well_formed_slprop(types, env, v),
        StmtT::GhostStmt(code) => well_formed_tokens(types, env, code.tokens),
        StmtT::Goto(_) => true,
        StmtT::Label { ensures_, .. } => well_formed_slprops(types, env, ensures_),
        StmtT::Error => true,
        _ => well_formed_block_stmt(types, env, s),
    }
}

/// Checks a statement that holds others.
///
/// As the state that [`Checker::check_block_stmt`] leaves.
pub open spec fn spec_check_block_stmt(st: Checker, env: Env, s: Rc<Stmt>) -> Checker
    decreases s, 1nat,
{
    match s.val {
        StmtT::If { cond, then_branch, else_branch, ensures_ } => {
            let st = spec_check_bool(st, env, cond);
            let st = spec_check_slprops(st, env, ensures_);
            let st = spec_check_stmts(st, env, then_branch);
            let st = spec_check_stmts(st, env, else_branch);
            st
        },
        StmtT::Match { scrutinee, branches, default_branch, ensures_ } => {
            let st = spec_check_rvalue(st, env, scrutinee);
            let (st, subject) = spec_infer_or_report(st, env, scrutinee);
            let st = spec_check_branches(st, env, subject, branches);
            let st = spec_check_stmts(st, env, default_branch);
            let st = spec_check_slprops(st, env, ensures_);
            st
        },
        StmtT::While { cond, inv, requires_, ensures_, body } => {
            let st = spec_check_bool(st, env, cond);
            let st = spec_check_slprops(st, env, inv);
            let st = spec_check_bools(st, env, requires_);
            let st = spec_check_bools(st, env, ensures_);
            let st = spec_check_stmts(st, spec_enter_loop(env), body);
            st
        },
        StmtT::GotoBlock { body, ensures_, .. } => {
            let st = spec_check_stmts(st, env, body);
            let st = spec_check_slprops(st, env, ensures_);
            st
        },
        _ => st,
    }
}

/// Whether [`Checker::check_block_stmt`] has nothing to report.
pub open spec fn well_formed_block_stmt(types: bool, env: Env, s: Rc<Stmt>) -> bool
    decreases s, 1nat,
{
    match s.val {
        StmtT::If { cond, then_branch, else_branch, ensures_ } => {
            &&& well_formed_bool(types, env, cond)
            &&& well_formed_slprops(types, env, ensures_)
            &&& well_formed_stmts(types, env, then_branch)
            &&& well_formed_stmts(types, env, else_branch)
        },
        StmtT::Match { scrutinee, branches, default_branch, ensures_ } => {
            let subject = spec_infer_expr(env, scrutinee);
            &&& well_formed_rvalue(types, env, scrutinee)
            &&& is_inferred(env, scrutinee)
            &&& well_formed_branches(types, env, subject, branches)
            &&& well_formed_stmts(types, env, default_branch)
            &&& well_formed_slprops(types, env, ensures_)
        },
        StmtT::While { cond, inv, requires_, ensures_, body } => {
            &&& well_formed_bool(types, env, cond)
            &&& well_formed_slprops(types, env, inv)
            &&& well_formed_bools(types, env, requires_)
            &&& well_formed_bools(types, env, ensures_)
            &&& well_formed_stmts(types, spec_enter_loop(env), body)
        },
        StmtT::GotoBlock { body, ensures_, .. } => {
            &&& well_formed_stmts(types, env, body)
            &&& well_formed_slprops(types, env, ensures_)
        },
        _ => true,
    }
}

/// Checks statements, each in the scope that those before it leave.
///
/// As the state that [`Checker::check_stmts`] leaves.
pub open spec fn spec_check_stmts(st: Checker, env: Env, l: Rc<List<Stmt>>) -> Checker
    decreases l, 3nat,
{
    match *l {
        List::Nil => st,
        List::Cons(h, t) => {
            let st = spec_check_stmt(st, env, h);
            let st = spec_check_stmts(st, spec_push_stmt(env, h), t);
            st
        },
    }
}

/// Whether [`Checker::check_stmts`] has nothing to report.
pub open spec fn well_formed_stmts(types: bool, env: Env, l: Rc<List<Stmt>>) -> bool
    decreases l, 3nat,
{
    match *l {
        List::Nil => true,
        List::Cons(h, t) => {
            &&& well_formed_stmt(types, env, h)
            &&& well_formed_stmts(types, spec_push_stmt(env, h), t)
        },
    }
}

/// Checks the types of ghost parameters, each in the scope of those before it.
///
/// As the state that [`Checker::check_ghost_args`] leaves.
pub open spec fn spec_check_ghost_args(st: Checker, env: Env, l: Rc<List<GhostArg>>) -> Checker
    decreases l,
{
    match *l {
        List::Nil => st,
        List::Cons(h, t) => {
            let st = spec_check_type(st, env, h.ty);
            let st = spec_check_ghost_args(st, spec_push_var_decl(env, h.name, h.ty, LocalDeclKind::RValue), t);
            st
        },
    }
}

/// Whether [`Checker::check_ghost_args`] has nothing to report.
pub open spec fn well_formed_ghost_args(types: bool, env: Env, l: Rc<List<GhostArg>>) -> bool
    decreases l,
{
    match *l {
        List::Nil => true,
        List::Cons(h, t) => {
            &&& well_formed_type(types, env, h.ty)
            &&& well_formed_ghost_args(types, spec_push_var_decl(env, h.name, h.ty, LocalDeclKind::RValue), t)
        },
    }
}

/// Checks the types of parameters, each in the scope of those before it.
///
/// As the state that [`Checker::check_args`] leaves.
pub open spec fn spec_check_args(st: Checker, env: Env, l: Rc<List<FnArg>>) -> Checker
    decreases l,
{
    match *l {
        List::Nil => st,
        List::Cons(h, t) => {
            let st = spec_check_type(st, env, h.ty);
            let st = spec_check_args(st, spec_push_arg(env, h, LocalDeclKind::RValue), t);
            st
        },
    }
}

/// Whether [`Checker::check_args`] has nothing to report.
pub open spec fn well_formed_args(types: bool, env: Env, l: Rc<List<FnArg>>) -> bool
    decreases l,
{
    match *l {
        List::Nil => true,
        List::Cons(h, t) => {
            &&& well_formed_type(types, env, h.ty)
            &&& well_formed_args(types, spec_push_arg(env, h, LocalDeclKind::RValue), t)
        },
    }
}

/// Checks the types of parameters, all in the same scope.
///
/// As the state that [`Checker::check_param_types`] leaves.
pub open spec fn spec_check_param_types(st: Checker, env: Env, l: Rc<List<FnArg>>) -> Checker
    decreases l,
{
    match *l {
        List::Nil => st,
        List::Cons(h, t) => {
            let st = spec_check_type(st, env, h.ty);
            let st = spec_check_param_types(st, env, t);
            st
        },
    }
}

/// Whether [`Checker::check_param_types`] has nothing to report.
pub open spec fn well_formed_param_types(types: bool, env: Env, l: Rc<List<FnArg>>) -> bool
    decreases l,
{
    match *l {
        List::Nil => true,
        List::Cons(h, t) => {
            &&& well_formed_type(types, env, h.ty)
            &&& well_formed_param_types(types, env, t)
        },
    }
}

/// Checks a signature and its contract.
///
/// As the state that [`Checker::check_fn_decl`] leaves.
#[verifier::opaque]
pub open spec fn spec_check_fn_decl(st: Checker, env: Env, d: Rc<FnDecl>) -> Checker
{
    let st = spec_check_ghost_args(st, env, d.ghost_args);
    let env1 = spec_push_ghost_args(env, d.ghost_args);
    let st = spec_check_args(st, env1, d.args);
    let env2 = spec_push_args(env1, d.args, LocalDeclKind::RValue);
    let st = spec_check_slprops(st, env2, d.requires_);
    let st = spec_check_type(st, env2, d.ret_type);
    let env3 = spec_push_return(env2, d.ret_type);
    let st = spec_check_slprops(st, env3, d.ensures_);
    match d.decreases_ {
        Some(e) => spec_check_rvalue(st, env3, e),
        None => st,
    }
}

/// Whether [`Checker::check_fn_decl`] has nothing to report.
pub open spec fn well_formed_fn_decl(types: bool, env: Env, d: Rc<FnDecl>) -> bool
{
    let env1 = spec_push_ghost_args(env, d.ghost_args);
    let env2 = spec_push_args(env1, d.args, LocalDeclKind::RValue);
    let env3 = spec_push_return(env2, d.ret_type);
    &&& well_formed_ghost_args(types, env, d.ghost_args)
    &&& well_formed_args(types, env1, d.args)
    &&& well_formed_slprops(types, env2, d.requires_)
    &&& well_formed_type(types, env2, d.ret_type)
    &&& well_formed_slprops(types, env3, d.ensures_)
    &&& (match d.decreases_ {
            Some(e) => well_formed_rvalue(types, env3, e),
            None => true,
    })
}

/// Checks the types of fields.
///
/// As the state that [`Checker::check_fields`] leaves.
pub open spec fn spec_check_fields(
    st: Checker,
    env: Env,
    l: Rc<List<Field>>,
    siblings: Rc<List<Field>>,
) -> Checker
    decreases l,
{
    match *l {
        List::Nil => st,
        List::Cons(h, t) => {
            let st = spec_check_type(st, spec_field_env(env, h, siblings), spec_field_type(h));
            let st = spec_check_fields(st, env, t, siblings);
            st
        },
    }
}

/// Whether [`Checker::check_fields`] has nothing to report.
pub open spec fn well_formed_fields(
    types: bool,
    env: Env,
    l: Rc<List<Field>>,
    siblings: Rc<List<Field>>,
) -> bool
    decreases l,
{
    match *l {
        List::Nil => true,
        List::Cons(h, t) => {
            &&& well_formed_type(types, spec_field_env(env, h, siblings), spec_field_type(h))
            &&& well_formed_fields(types, env, t, siblings)
        },
    }
}

/// Checks a declaration.
///
/// As the state that [`Checker::check_decl`] leaves.
#[verifier::opaque]
pub open spec fn spec_check_decl(st: Checker, env: Env, d: Rc<Decl>) -> Checker
{
    match d.val {
        DeclT::FnDefn(f) => {
            let st = spec_check_fn_decl(st, env, f.decl);
            let st = spec_check_stmts(st, spec_push_fn_decl_args_for_body(env, f.decl), f.body);
            st
        },
        DeclT::FnDecl(f) => spec_check_fn_decl(st, env, f),
        DeclT::Typedef(t) => spec_check_type(st, env, t.body),
        DeclT::StructDefn(s) => {
            let st = spec_check_type(st, env, s.refines);
            let st = spec_check_fields(st, env, s.fields, s.fields);
            st
        },
        DeclT::UnionDefn(u) => spec_check_fields(st, env, u.fields, u.fields),
        DeclT::StructDecl(_) => st,
        DeclT::IncludeDecl(_) => st,
        DeclT::OpaqueTypeDecl(o) => spec_check_tokens(st, env, o.code.tokens),
        DeclT::LetDecl(l) => {
            let st = spec_check_type(st, env, l.ret_type);
            let st = spec_check_param_types(st, env, l.params);
            let env2 = spec_push_args(env, l.params, LocalDeclKind::LValue);
            let st = spec_check_rvalues(st, env2, l.requires_);
            let st = spec_check_rvalues(st, env2, l.ensures_);
            let st = spec_check_rvalue(st, env2, l.body);
            st
        },
        DeclT::GlobalVar(g) => {
            let st = spec_check_type(st, env, g.ty);
            match g.init {
                Some(e) => spec_check_rvalue(st, env, e),
                None => st,
            }
        },
    }
}

/// Whether [`Checker::check_decl`] has nothing to report.
pub open spec fn well_formed_decl(types: bool, env: Env, d: Rc<Decl>) -> bool
{
    match d.val {
        DeclT::FnDefn(f) => {
            &&& well_formed_fn_decl(types, env, f.decl)
            &&& well_formed_stmts(types, spec_push_fn_decl_args_for_body(env, f.decl), f.body)
        },
        DeclT::FnDecl(f) => well_formed_fn_decl(types, env, f),
        DeclT::Typedef(t) => well_formed_type(types, env, t.body),
        DeclT::StructDefn(s) => {
            &&& well_formed_type(types, env, s.refines)
            &&& well_formed_fields(types, env, s.fields, s.fields)
        },
        DeclT::UnionDefn(u) => well_formed_fields(types, env, u.fields, u.fields),
        DeclT::StructDecl(_) => true,
        DeclT::IncludeDecl(_) => true,
        DeclT::OpaqueTypeDecl(o) => well_formed_tokens(types, env, o.code.tokens),
        DeclT::LetDecl(l) => {
            let env2 = spec_push_args(env, l.params, LocalDeclKind::LValue);
            &&& well_formed_type(types, env, l.ret_type)
            &&& well_formed_param_types(types, env, l.params)
            &&& well_formed_rvalues(types, env2, l.requires_)
            &&& well_formed_rvalues(types, env2, l.ensures_)
            &&& well_formed_rvalue(types, env2, l.body)
        },
        DeclT::GlobalVar(g) => {
            &&& well_formed_type(types, env, g.ty)
            &&& (match g.init {
                    Some(e) => well_formed_rvalue(types, env, e),
                    None => true,
            })
        },
    }
}

/// Checks declarations.
///
/// As the state that [`Checker::check_decls`] leaves.
pub open spec fn spec_check_decls(st: Checker, env: Env, l: Rc<List<Decl>>) -> Checker
    decreases l,
{
    match *l {
        List::Nil => st,
        List::Cons(h, t) => {
            let env1 = spec_enter_decl(env, h);
            let st = spec_check_decl(st, env1, h);
            let st = spec_check_decls(st, spec_push_decl(env1, h), t);
            st
        },
    }
}

/// Whether [`Checker::check_decls`] has nothing to report.
pub open spec fn well_formed_decls(types: bool, env: Env, l: Rc<List<Decl>>) -> bool
    decreases l,
{
    match *l {
        List::Nil => true,
        List::Cons(h, t) => {
            let env1 = spec_enter_decl(env, h);
            &&& well_formed_decl(types, env1, h)
            &&& well_formed_decls(types, spec_push_decl(env1, h), t)
        },
    }
}

impl Checker {
    /// Reports an error, with what the check knew.
    pub fn report_with_detail(&mut self, msg: Text, detail: Option<Text>, loc: &Loc)
        ensures
            *final(self) == spec_report_with_detail(*old(self), msg, detail, *loc),
            extends(final(self).diags, old(self).diags),
            final(self).check_types == old(self).check_types,
            final(self).diags != old(self).diags,
    {
        proof {
            reveal(spec_report_with_detail);
            reveal_with_fuel(extends, 2);
            lemma_cons_is_new(self.diags);
        }
        self.diags = cons(Rc::new(Diagnostic {
            loc: loc.clone(),
            level: DiagnosticLevel::Error,
            msg,
            pass: Some(self.pass.clone()),
            detail,
        }), self.diags.clone());
    }

    /// Reports an error.
    pub fn report(&mut self, msg: Text, loc: &Loc)
        ensures
            *final(self) == spec_report(*old(self), msg, *loc),
            extends(final(self).diags, old(self).diags),
            final(self).check_types == old(self).check_types,
            final(self).diags != old(self).diags,
    {
        proof {
            reveal(spec_report);
        }
        self.report_with_detail(msg, None, loc);
    }

    /// The type of an expression. That there is none is reported, unless it follows from an error
    /// that was reported already.
    pub fn infer_or_report(&mut self, env: &Env, e: &Rc<Expr>) -> (out: Option<Rc<Type>>)
        ensures
            (*final(self), out) == spec_infer_or_report(*old(self), *env, *e),
            extends(final(self).diags, old(self).diags),
            final(self).check_types == old(self).check_types,
            out == spec_infer_expr(*env, *e),
            final(self).diags == old(self).diags <==> is_inferred(*env, *e),
    {
        proof {
            reveal(spec_infer_or_report);
        }
        match infer_expr(env, e) {
            Some(t) => Some(t),
            None => {
                if !contains_error(e) {
                    self.report_with_detail(cat4(lit("cannot infer type of "), show_expr(e), lit(": "), infer_error(env, e)), Some(show_env(env)), &e.loc);
                }
                None
            }
        }
    }

    /// Reports that two types differ, where they have to agree.
    pub fn check_type_eq(&mut self, env: &Env, actual: &Rc<Type>, expected: &Rc<Type>)
        ensures
            *final(self) == spec_check_type_eq(*old(self), *env, *actual, *expected),
            extends(final(self).diags, old(self).diags),
            final(self).check_types == old(self).check_types,
            final(self).diags == old(self).diags <==> well_formed_type_eq(old(self).check_types, *env, *actual, *expected),
            well_formed_type_eq(true, *env, *actual, *expected) ==> well_formed_type_eq(false, *env, *actual, *expected),
    {
        proof {
            reveal(spec_check_type_eq);
        }
        if !matches!(&actual.val, TypeT::Error) && !matches!(&expected.val, TypeT::Error) && self.check_types && !vtype_eq(env, actual, expected) {
            self.report(cat4(lit("expected type "), show_type(expected), lit(" got "), show_type(actual)), &actual.loc);
        }
    }

    /// Reports that an expression has another type than it has to have.
    pub fn check_has_type(&mut self, env: &Env, e: &Rc<Expr>, expected: &Rc<Type>)
        ensures
            *final(self) == spec_check_has_type(*old(self), *env, *e, *expected),
            extends(final(self).diags, old(self).diags),
            final(self).check_types == old(self).check_types,
            final(self).diags == old(self).diags <==> well_formed_has_type(old(self).check_types, *env, *e, *expected),
            well_formed_has_type(true, *env, *e, *expected) ==> well_formed_has_type(false, *env, *e, *expected),
    {
        proof {
            reveal(spec_check_has_type);
        }
        if self.check_types && !contains_error(e) {
            match self.infer_or_report(env, e) {
                Some(t) => if !vtype_eq(env, &t, expected) {
                    self.report(cat(cat4(lit("expected type "), show_type(expected), lit(", but got "), show_expr(e)),
                        cat(lit(" with type "), show_type(&t))), &e.loc);
                },
                None => (),
            }
        }
    }

    /// Reports that the types of two expressions differ.
    pub fn check_same_type(&mut self, env: &Env, e: &Rc<Expr>, expected: &Rc<Expr>)
        ensures
            *final(self) == spec_check_same_type(*old(self), *env, *e, *expected),
            extends(final(self).diags, old(self).diags),
            final(self).check_types == old(self).check_types,
            final(self).diags == old(self).diags <==> well_formed_same_type(old(self).check_types, *env, *e, *expected),
            well_formed_same_type(true, *env, *e, *expected) ==> well_formed_same_type(false, *env, *e, *expected),
    {
        proof {
            reveal(spec_check_same_type);
        }
        if self.check_types {
            let x = self.infer_or_report(env, expected);
            let v = self.infer_or_report(env, e);
            match (&x, &v) {
                (Some(a), Some(b)) => self.check_type_eq(env, b, a),
                _ => (),
            }
        }
    }

    /// Checks a name.
    pub fn check_var(&mut self, env: &Env, n: &Rc<Ident>)
        ensures
            *final(self) == spec_check_var(*old(self), *env, *n),
            extends(final(self).diags, old(self).diags),
            final(self).check_types == old(self).check_types,
            final(self).diags == old(self).diags <==> well_formed_var(old(self).check_types, *env, *n),
            well_formed_var(true, *env, *n) ==> well_formed_var(false, *env, *n),
    {
        proof {
            reveal(spec_check_var);
        }
        if lookup_var(env, n).is_none() && lookup_global_var(env, n).is_none() {
            self.report(cat(lit("unknown local variable "), n.val.clone()), &n.loc);
        }
    }

    /// Reports that a record type has no such field.
    pub fn check_member_of(&mut self, env: &Env, t: &Rc<Type>, a: &Rc<Ident>, loc: &Loc)
        ensures
            *final(self) == spec_check_member_of(*old(self), *env, *t, *a, *loc),
            extends(final(self).diags, old(self).diags),
            final(self).check_types == old(self).check_types,
            final(self).diags == old(self).diags <==> well_formed_member_of(old(self).check_types, *env, *t, *a),
            well_formed_member_of(true, *env, *t, *a) ==> well_formed_member_of(false, *env, *t, *a),
    {
        proof {
            reveal(spec_check_member_of);
        }
        match &vtype_whnf(env, t).val {
            TypeT::TypeRef(TypeRefKind::Struct(n)) => match lookup_struct(env, n) {
                Some(s) => if find_field(&s.fields, a).is_none() {
                    self.report(cat4(lit("no field "), a.val.clone(), lit(" in structure "), n.val.clone()), loc);
                },
                None => self.report(cat(lit("unknown structure "), n.val.clone()), loc),
            },
            TypeT::TypeRef(TypeRefKind::Union(n)) => match lookup_union(env, n) {
                Some(u) => if find_field(&u.fields, a).is_none() {
                    self.report(cat4(lit("no field "), a.val.clone(), lit(" in union "), n.val.clone()), loc);
                },
                None => self.report(cat(lit("unknown union "), n.val.clone()), loc),
            },
            _ => self.report(cat(lit("not a structure type: "), show_type(&vtype_whnf(env, t))), loc),
        }
    }

    /// Reports that a type is none of a struct with such a field.
    pub fn check_container(&mut self, env: &Env, ty: &Rc<Type>, field: &Rc<Ident>, loc: &Loc)
        ensures
            *final(self) == spec_check_container(*old(self), *env, *ty, *field, *loc),
            extends(final(self).diags, old(self).diags),
            final(self).check_types == old(self).check_types,
            final(self).diags == old(self).diags <==> well_formed_container(old(self).check_types, *env, *ty, *field),
            well_formed_container(true, *env, *ty, *field) ==> well_formed_container(false, *env, *ty, *field),
    {
        proof {
            reveal(spec_check_container);
        }
        match &vtype_whnf(env, ty).val {
            TypeT::TypeRef(TypeRefKind::Struct(n)) => match lookup_struct(env, n) {
                Some(s) => if find_field(&s.fields, field).is_none() {
                    self.report(cat4(lit("no field "), field.val.clone(), lit(" in structure "), n.val.clone()), loc);
                },
                None => self.report(cat(lit("unknown structure "), n.val.clone()), loc),
            },
            _ => self.report(cat(lit("_container_of expects a struct type, got "), show_type(&vtype_whnf(env, ty))), &ty.loc),
        }
    }

    /// Reports operands of different types.
    pub fn check_operands_agree(&mut self, env: &Env, a: &Rc<Type>, b: &Rc<Type>, loc: &Loc)
        ensures
            *final(self) == spec_check_operands_agree(*old(self), *env, *a, *b, *loc),
            extends(final(self).diags, old(self).diags),
            final(self).check_types == old(self).check_types,
            final(self).diags == old(self).diags <==> well_formed_operands_agree(old(self).check_types, *env, *a, *b),
            well_formed_operands_agree(true, *env, *a, *b) ==> well_formed_operands_agree(false, *env, *a, *b),
    {
        proof {
            reveal(spec_check_operands_agree);
        }
        if !vtype_eq(env, a, b) {
            self.report(cat4(lit("binop applied to mismatching types "), show_type(a), lit(" and "), show_type(b)), loc);
        }
    }

    /// Checks the types of two operands.
    pub fn check_operand_types(
        &mut self,
        env: &Env,
        op: BinOp,
        a: &Rc<Type>,
        b: &Rc<Type>,
        loc: &Loc,
    )
        ensures
            *final(self) == spec_check_operand_types(*old(self), *env, op, *a, *b, *loc),
            extends(final(self).diags, old(self).diags),
            final(self).check_types == old(self).check_types,
            final(self).diags == old(self).diags <==> well_formed_operand_types(old(self).check_types, *env, op, *a, *b),
            well_formed_operand_types(true, *env, op, *a, *b) ==> well_formed_operand_types(false, *env, op, *a, *b),
    {
        proof {
            reveal(spec_check_operand_types);
        }
        match op {
            BinOp::Eq | BinOp::Elvis => self.check_operands_agree(env, a, b, loc),
            BinOp::LogAnd | BinOp::LogOr | BinOp::Implies => {
                self.check_operands_agree(env, a, b, loc);
                if !is_logical_type(env, a) {
                    self.report(cat3(show_binop(op), lit(" needs to be applied to bool/slprop, not "), show_type(a)), loc);
                }
            }
            BinOp::Shl | BinOp::Shr => if !vtype_eq(env, b, &mk_type(&b.loc, TypeT::Int { signed: false, width: 32 })) {
                self.report(cat(lit("shift amount must be uint32_t, not "), show_type(b)), loc);
            },
            _ => if !is_pointer_arithmetic(env, op, a, b) {
                self.check_operands_agree(env, a, b, loc);
            },
        }
    }

    /// Checks an array that is indexed, and the index.
    pub fn check_index_types(&mut self, env: &Env, arr: &Rc<Expr>, idx: &Rc<Expr>, loc: &Loc)
        ensures
            *final(self) == spec_check_index_types(*old(self), *env, *arr, *idx, *loc),
            extends(final(self).diags, old(self).diags),
            final(self).check_types == old(self).check_types,
            final(self).diags == old(self).diags <==> well_formed_index_types(old(self).check_types, *env, *arr, *idx),
            well_formed_index_types(true, *env, *arr, *idx) ==> well_formed_index_types(false, *env, *arr, *idx),
    {
        proof {
            reveal(spec_check_index_types);
        }
        match self.infer_or_report(env, arr) {
            Some(t) => if !is_indexable(env, &t) {
                self.report(cat(lit("not an array type: "), show_type(&vtype_whnf(env, &t))), loc);
            },
            None => (),
        }
        match self.infer_or_report(env, idx) {
            Some(t) => if !is_index_type(env, &t) {
                self.report(cat(lit("array index must have type SizeT, got: "), show_type(&vtype_whnf(env, &t))), &idx.loc);
            },
            None => (),
        }
    }

    /// Checks the types of arguments against those of parameters, as far as there are both.
    pub fn check_arg_types(
        &mut self,
        env: &Env,
        params: &Rc<List<FnArg>>,
        args: &Rc<List<Expr>>,
    )
        ensures
            *final(self) == spec_check_arg_types(*old(self), *env, *params, *args),
            extends(final(self).diags, old(self).diags),
            final(self).check_types == old(self).check_types,
            final(self).diags == old(self).diags <==> well_formed_arg_types(old(self).check_types, *env, *params, *args),
            well_formed_arg_types(true, *env, *params, *args) ==> well_formed_arg_types(false, *env, *params, *args),
        decreases args,
    {
        match (&**params, &**args) {
            (List::Cons(p, s), List::Cons(a, t)) => {
                self.check_has_type(env, a, &p.ty);
                self.check_arg_types(env, s, t);
            }
            _ => (),
        }
    }

    /// Checks a call, but for its arguments themselves.
    pub fn check_call(&mut self, env: &Env, f: &Rc<Ident>, args: &Rc<List<Expr>>, loc: &Loc)
        ensures
            *final(self) == spec_check_call(*old(self), *env, *f, *args, *loc),
            extends(final(self).diags, old(self).diags),
            final(self).check_types == old(self).check_types,
            final(self).diags == old(self).diags <==> well_formed_call(old(self).check_types, *env, *f, *args),
            well_formed_call(true, *env, *f, *args) ==> well_formed_call(false, *env, *f, *args),
    {
        proof {
            reveal(spec_check_call);
        }
        match lookup_fn(env, f) {
            None => self.report(cat(lit("unknown function "), f.val.clone()), loc),
            Some(d) => {
                if list_len(&d.args) != list_len(args) {
                    self.report(cat4(lit("incorrect number of arguments, expected "), num(list_len(&d.args)), lit(", got "), num(list_len(args))), loc);
                }
                self.check_arg_types(env, &d.args, args);
            }
        }
    }

    /// Checks the name of a type.
    pub fn check_type_ref(&mut self, env: &Env, k: &TypeRefKind, loc: &Loc)
        ensures
            *final(self) == spec_check_type_ref(*old(self), *env, *k, *loc),
            extends(final(self).diags, old(self).diags),
            final(self).check_types == old(self).check_types,
            final(self).diags == old(self).diags <==> well_formed_type_ref(old(self).check_types, *env, *k),
            well_formed_type_ref(true, *env, *k) ==> well_formed_type_ref(false, *env, *k),
    {
        proof {
            reveal(spec_check_type_ref);
        }
        match k {
            TypeRefKind::Typedef(n) => if !is_known_type(env, n) {
                self.report(cat(lit("unknown type "), n.val.clone()), loc);
            },
            TypeRefKind::Struct(n) => if lookup_struct(env, n).is_none() {
                self.report(cat(lit("unknown struct "), n.val.clone()), loc);
            },
            TypeRefKind::Union(n) => if lookup_union(env, n).is_none() {
                self.report(cat(lit("unknown union "), n.val.clone()), loc);
            },
        }
    }

    /// Checks a type: that what it names is declared, and that its refinements are propositions.
    pub fn check_type(&mut self, env: &Env, ty: &Rc<Type>)
        ensures
            *final(self) == spec_check_type(*old(self), *env, *ty),
            extends(final(self).diags, old(self).diags),
            final(self).check_types == old(self).check_types,
            final(self).diags == old(self).diags <==> well_formed_type(old(self).check_types, *env, *ty),
            well_formed_type(true, *env, *ty) ==> well_formed_type(false, *env, *ty),
        decreases ty, 0nat,
    {
        match &ty.val {
            TypeT::Pointer(t, _) | TypeT::FixedArray(t, _) | TypeT::FlexArray(t) => self.check_type(env, t),
            TypeT::Plain(t) | TypeT::Nullable(t) => self.check_type(env, t),
            TypeT::FnPtr { args, ret } => {
                self.check_types_of(env, args);
                self.check_type(env, ret);
            }
            TypeT::TypeRef(k) => self.check_type_ref(env, k, &ty.loc),
            TypeT::Refine(t, p) | TypeT::RefineAlways(t, p) | TypeT::RefineUninit(t, p) => {
                self.check_type(env, t);
                self.check_slprop(&push_this(env, t.clone()), p);
            }
            TypeT::RefineValue(t, x, u, p) => {
                self.check_type(env, t);
                self.check_type(env, u);
                self.check_slprop(&push_var_decl(&push_this(env, t.clone()), x, u.clone(), LocalDeclKind::RValue), p);
            }
            _ => (),
        }
    }

    /// Checks types.
    pub fn check_types_of(&mut self, env: &Env, l: &Rc<List<Type>>)
        ensures
            *final(self) == spec_check_types_of(*old(self), *env, *l),
            extends(final(self).diags, old(self).diags),
            final(self).check_types == old(self).check_types,
            final(self).diags == old(self).diags <==> well_formed_types_of(old(self).check_types, *env, *l),
            well_formed_types_of(true, *env, *l) ==> well_formed_types_of(false, *env, *l),
        decreases l, 0nat,
    {
        match &**l {
            List::Nil => (),
            List::Cons(h, t) => {
                self.check_type(env, h);
                self.check_types_of(env, t);
            }
        }
    }

    /// Checks a proposition.
    pub fn check_slprop(&mut self, env: &Env, p: &Rc<Expr>)
        ensures
            *final(self) == spec_check_slprop(*old(self), *env, *p),
            extends(final(self).diags, old(self).diags),
            final(self).check_types == old(self).check_types,
            final(self).diags == old(self).diags <==> well_formed_slprop(old(self).check_types, *env, *p),
            well_formed_slprop(true, *env, *p) ==> well_formed_slprop(false, *env, *p),
        decreases p, 9nat,
    {
        self.check_rvalue(env, p);
        self.check_has_type(env, p, &mk_type(&p.loc, TypeT::SLProp));
    }

    /// Checks a condition.
    pub fn check_bool(&mut self, env: &Env, p: &Rc<Expr>)
        ensures
            *final(self) == spec_check_bool(*old(self), *env, *p),
            extends(final(self).diags, old(self).diags),
            final(self).check_types == old(self).check_types,
            final(self).diags == old(self).diags <==> well_formed_bool(old(self).check_types, *env, *p),
            well_formed_bool(true, *env, *p) ==> well_formed_bool(false, *env, *p),
        decreases p, 9nat,
    {
        self.check_rvalue(env, p);
        self.check_has_type(env, p, &mk_type(&p.loc, TypeT::Bool));
    }

    /// Checks a place that is written to.
    pub fn check_lvalue(&mut self, env: &Env, e: &Rc<Expr>)
        ensures
            *final(self) == spec_check_lvalue(*old(self), *env, *e),
            extends(final(self).diags, old(self).diags),
            final(self).check_types == old(self).check_types,
            final(self).diags == old(self).diags <==> well_formed_lvalue(old(self).check_types, *env, *e),
            well_formed_lvalue(true, *env, *e) ==> well_formed_lvalue(false, *env, *e),
        decreases e, 9nat,
    {
        if !contains_error(e) {
            self.check_rvalue(env, e);
            if !is_lvalue(env, e) {
                self.report(cat(lit("expected lvalue, got "), show_expr(e)), &e.loc);
            }
        }
    }

    /// Checks an expression. What holds the residue of an error is not checked, since that would
    /// only report the error again.
    pub fn check_rvalue(&mut self, env: &Env, e: &Rc<Expr>)
        ensures
            *final(self) == spec_check_rvalue(*old(self), *env, *e),
            extends(final(self).diags, old(self).diags),
            final(self).check_types == old(self).check_types,
            final(self).diags == old(self).diags <==> well_formed_rvalue(old(self).check_types, *env, *e),
            well_formed_rvalue(true, *env, *e) ==> well_formed_rvalue(false, *env, *e),
        decreases e, 8nat,
    {
        if !contains_error(e) {
            self.check_node(env, e);
        }
    }

    /// Checks expressions.
    pub fn check_rvalues(&mut self, env: &Env, l: &Rc<List<Expr>>)
        ensures
            *final(self) == spec_check_rvalues(*old(self), *env, *l),
            extends(final(self).diags, old(self).diags),
            final(self).check_types == old(self).check_types,
            final(self).diags == old(self).diags <==> well_formed_rvalues(old(self).check_types, *env, *l),
            well_formed_rvalues(true, *env, *l) ==> well_formed_rvalues(false, *env, *l),
        decreases l, 0nat,
    {
        match &**l {
            List::Nil => (),
            List::Cons(h, t) => {
                self.check_rvalue(env, h);
                self.check_rvalues(env, t);
            }
        }
    }

    /// Checks an expression that holds no residue of an error.
    pub fn check_node(&mut self, env: &Env, e: &Rc<Expr>)
        ensures
            *final(self) == spec_check_node(*old(self), *env, *e),
            extends(final(self).diags, old(self).diags),
            final(self).check_types == old(self).check_types,
            final(self).diags == old(self).diags <==> well_formed_node(old(self).check_types, *env, *e),
            well_formed_node(true, *env, *e) ==> well_formed_node(false, *env, *e),
        decreases e, 7nat,
    {
        match &e.val {
            ExprT::BoolLit(_) => (),
            ExprT::Var(n) => self.check_var(env, n),
            ExprT::FnRef(f) => if lookup_fn(env, f).is_none() {
                self.report(cat(lit("unknown function "), f.val.clone()), &e.loc);
            },
            ExprT::VAttr(_, a) | ExprT::Live(a) | ExprT::Old(a) | ExprT::Free(a) => self.check_rvalue(env, a),
            ExprT::PreIncr(a) | ExprT::PostIncr(a) | ExprT::PreDecr(a) | ExprT::PostDecr(a) => self.check_lvalue(env, a),
            ExprT::Deref(a) => self.check_deref(env, a),
            ExprT::Member(x, a) => {
                self.check_rvalue(env, x);
                if self.check_types {
                    match self.infer_or_report(env, x) {
                        Some(t) => self.check_member_of(env, &t, a, &e.loc),
                        None => (),
                    }
                }
            }
            ExprT::Ref(a) => {
                self.check_rvalue(env, a);
                if !is_addressable(env, a) {
                    self.report(cat(lit("expected lvalue for &, got "), show_expr(a)), &e.loc);
                }
            }
            ExprT::UnOp(op, a) => self.check_unop(env, *op, a, &e.loc),
            _ => self.check_compound(env, e),
        }
    }

    /// Checks what a pointer points to.
    pub fn check_deref(&mut self, env: &Env, a: &Rc<Expr>)
        ensures
            *final(self) == spec_check_deref(*old(self), *env, *a),
            extends(final(self).diags, old(self).diags),
            final(self).check_types == old(self).check_types,
            final(self).diags == old(self).diags <==> well_formed_deref(old(self).check_types, *env, *a),
            well_formed_deref(true, *env, *a) ==> well_formed_deref(false, *env, *a),
        decreases a, 9nat,
    {
        self.check_rvalue(env, a);
        if self.check_types {
            match self.infer_or_report(env, a) {
                Some(t) => if !is_pointer_type(env, &t) {
                    self.report(cat(lit("not a pointer type: "), show_type(&t)), &a.loc);
                },
                None => (),
            }
        }
    }

    /// Checks a unary operation.
    pub fn check_unop(&mut self, env: &Env, op: UnOp, a: &Rc<Expr>, loc: &Loc)
        ensures
            *final(self) == spec_check_unop(*old(self), *env, op, *a, *loc),
            extends(final(self).diags, old(self).diags),
            final(self).check_types == old(self).check_types,
            final(self).diags == old(self).diags <==> well_formed_unop(old(self).check_types, *env, op, *a),
            well_formed_unop(true, *env, op, *a) ==> well_formed_unop(false, *env, op, *a),
        decreases a, 9nat,
    {
        self.check_rvalue(env, a);
        if self.check_types {
            match self.infer_or_report(env, a) {
                Some(t) => if op == UnOp::Not && !is_not_type(env, &t) {
                    self.report(cat(lit("! needs to be applied to bool, not "), show_type(&t)), loc);
                },
                None => (),
            }
        }
    }

    /// Checks an expression with several operands.
    pub fn check_compound(&mut self, env: &Env, e: &Rc<Expr>)
        ensures
            *final(self) == spec_check_compound(*old(self), *env, *e),
            extends(final(self).diags, old(self).diags),
            final(self).check_types == old(self).check_types,
            final(self).diags == old(self).diags <==> well_formed_compound(old(self).check_types, *env, *e),
            well_formed_compound(true, *env, *e) ==> well_formed_compound(false, *env, *e),
        decreases e, 6nat,
    {
        match &e.val {
            ExprT::Index(arr, idx) => {
                self.check_rvalue(env, arr);
                self.check_rvalue(env, idx);
                if self.check_types {
                    self.check_index_types(env, arr, idx, &e.loc);
                }
            }
            ExprT::BinOp(op, a, b) => {
                self.check_rvalue(env, a);
                self.check_rvalue(env, b);
                if self.check_types {
                    let x = self.infer_or_report(env, a);
                    let y = self.infer_or_report(env, b);
                    match (&x, &y) {
                        (Some(s), Some(t)) => self.check_operand_types(env, *op, s, t, &e.loc),
                        _ => (),
                    }
                }
            }
            ExprT::AssignExpr(a, b) => {
                self.check_rvalue(env, a);
                self.check_rvalue(env, b);
                self.check_same_type(env, b, a);
            }
            ExprT::Cond(a, b, c) => {
                self.check_rvalue(env, a);
                self.check_rvalue(env, b);
                self.check_rvalue(env, c);
            }
            ExprT::FnCall(f, args) => {
                self.check_rvalues(env, args);
                self.check_call(env, f, args, &e.loc);
            }
            ExprT::FnPtrCall(f, args) => {
                self.check_rvalue(env, f);
                self.check_rvalues(env, args);
            }
            _ => self.check_typed(env, e),
        }
    }

    /// Checks an expression with a type.
    pub fn check_typed(&mut self, env: &Env, e: &Rc<Expr>)
        ensures
            *final(self) == spec_check_typed(*old(self), *env, *e),
            extends(final(self).diags, old(self).diags),
            final(self).check_types == old(self).check_types,
            final(self).diags == old(self).diags <==> well_formed_typed(old(self).check_types, *env, *e),
            well_formed_typed(true, *env, *e) ==> well_formed_typed(false, *env, *e),
        decreases e, 5nat,
    {
        match &e.val {
            ExprT::IntLit(_, ty) => {
                self.check_type(env, ty);
                if self.check_types && !is_valid_int_type(env, ty) {
                    self.report(cat(lit("invalid integer type: "), show_type(ty)), &e.loc);
                }
            }
            ExprT::FloatLit(_, ty) => {
                self.check_type(env, ty);
                if self.check_types && !is_valid_float_type(env, ty) {
                    self.report(cat(lit("invalid floating literal type: "), show_type(ty)), &e.loc);
                }
            }
            ExprT::Malloc(ty) | ExprT::Calloc(ty) | ExprT::SizeOf(ty) | ExprT::AlignOf(ty) | ExprT::Error(ty) => self.check_type(env, ty),
            ExprT::Cast(a, ty) => {
                self.check_rvalue(env, a);
                self.check_type(env, ty);
            }
            ExprT::MallocArray(ty, n) | ExprT::CallocArray(ty, n) | ExprT::MallocFlex(ty, n) | ExprT::CallocFlex(ty, n) | ExprT::MemsetZero(ty, n) => {
                self.check_type(env, ty);
                self.check_rvalue(env, n);
            }
            ExprT::Forall(x, ty, body) | ExprT::Exists(x, ty, body) => {
                self.check_type(env, ty);
                self.check_rvalue(&push_var_decl(env, x, ty.clone(), LocalDeclKind::RValue), body);
            }
            _ => self.check_mixed(env, e),
        }
    }

    /// Checks an initializer, an access to memory, or inline code.
    pub fn check_mixed(&mut self, env: &Env, e: &Rc<Expr>)
        ensures
            *final(self) == spec_check_mixed(*old(self), *env, *e),
            extends(final(self).diags, old(self).diags),
            final(self).check_types == old(self).check_types,
            final(self).diags == old(self).diags <==> well_formed_mixed(old(self).check_types, *env, *e),
            well_formed_mixed(true, *env, *e) ==> well_formed_mixed(false, *env, *e),
        decreases e, 4nat,
    {
        match &e.val {
            ExprT::Memset(ty, p, v, n) => {
                self.check_type(env, ty);
                self.check_rvalue(env, p);
                self.check_rvalue(env, v);
                self.check_rvalue(env, n);
            }
            ExprT::ContainerOf(p, ty, field) => {
                self.check_rvalue(env, p);
                self.check_type(env, ty);
                if self.check_types {
                    self.check_container(env, ty, field, &e.loc);
                }
            }
            ExprT::InlinePulse(code, ty) => {
                self.check_type(env, ty);
                self.check_tokens(env, &code.tokens);
            }
            ExprT::ArrayInit { elem_ty, elems, .. } => {
                self.check_type(env, elem_ty);
                self.check_rvalues(env, elems);
            }
            ExprT::StructInit(_, _) => self.check_struct_init(env, e),
            ExprT::UnionInit(_, _, _) => self.check_union_init(env, e),
            _ => (),
        }
    }

    /// Checks a struct literal.
    pub fn check_struct_init(&mut self, env: &Env, e: &Rc<Expr>)
        ensures
            *final(self) == spec_check_struct_init(*old(self), *env, *e),
            extends(final(self).diags, old(self).diags),
            final(self).check_types == old(self).check_types,
            final(self).diags == old(self).diags <==> well_formed_struct_init(old(self).check_types, *env, *e),
            well_formed_struct_init(true, *env, *e) ==> well_formed_struct_init(false, *env, *e),
        decreases e, 3nat,
    {
        match &e.val {
            ExprT::StructInit(name, inits) => match lookup_struct(env, name) {
                None => self.report(cat(lit("unknown struct "), name.val.clone()), &e.loc),
                Some(s) => if self.check_types {
                    // Fields may be left out: they get their zero value.
                    if list_len(inits) > list_len(&s.fields) {
                        self.report(cat(cat4(lit("struct "), name.val.clone(), lit(" has "), num(list_len(&s.fields))),
                            cat3(lit(" fields, but "), num(list_len(inits)), lit(" were given"))), &e.loc);
                    }
                    self.check_inits(env, &s, inits, &e.loc);
                },
            },
            _ => (),
        }
    }

    /// Checks a union literal.
    pub fn check_union_init(&mut self, env: &Env, e: &Rc<Expr>)
        ensures
            *final(self) == spec_check_union_init(*old(self), *env, *e),
            extends(final(self).diags, old(self).diags),
            final(self).check_types == old(self).check_types,
            final(self).diags == old(self).diags <==> well_formed_union_init(old(self).check_types, *env, *e),
            well_formed_union_init(true, *env, *e) ==> well_formed_union_init(false, *env, *e),
        decreases e, 3nat,
    {
        match &e.val {
            ExprT::UnionInit(name, fld, v) => match lookup_union(env, name) {
                None => self.report(cat(lit("unknown union "), name.val.clone()), &e.loc),
                Some(u) => if self.check_types {
                    self.check_rvalue(env, v);
                    match find_field(&u.fields, fld) {
                        Some(f) => self.check_has_type(env, v, &field_type(&f)),
                        None => self.report(cat4(lit("no field "), fld.val.clone(), lit(" in union "), name.val.clone()), &e.loc),
                    }
                },
            },
            _ => (),
        }
    }

    /// Checks the value of a struct's field.
    pub fn check_init(&mut self, env: &Env, s: &Rc<StructDefn>, i: &Rc<FieldInit>, loc: &Loc)
        ensures
            *final(self) == spec_check_init(*old(self), *env, *s, *i, *loc),
            extends(final(self).diags, old(self).diags),
            final(self).check_types == old(self).check_types,
            final(self).diags == old(self).diags <==> well_formed_init(old(self).check_types, *env, *s, *i),
            well_formed_init(true, *env, *s, *i) ==> well_formed_init(false, *env, *s, *i),
        decreases i, 0nat,
    {
        self.check_rvalue(env, &i.value);
        match find_field(&s.fields, &i.name) {
            Some(f) => self.check_has_type(env, &i.value, &field_type(&f)),
            None => self.report(cat4(lit("no field "), i.name.val.clone(), lit(" in struct "), s.name.val.clone()), loc),
        }
    }

    /// Checks the values of a struct's fields.
    pub fn check_inits(
        &mut self,
        env: &Env,
        s: &Rc<StructDefn>,
        l: &Rc<List<FieldInit>>,
        loc: &Loc,
    )
        ensures
            *final(self) == spec_check_inits(*old(self), *env, *s, *l, *loc),
            extends(final(self).diags, old(self).diags),
            final(self).check_types == old(self).check_types,
            final(self).diags == old(self).diags <==> well_formed_inits(old(self).check_types, *env, *s, *l),
            well_formed_inits(true, *env, *s, *l) ==> well_formed_inits(false, *env, *s, *l),
        decreases l, 0nat,
    {
        match &**l {
            List::Nil => (),
            List::Cons(h, t) => {
                self.check_init(env, s, h, loc);
                self.check_inits(env, s, t, loc);
            }
        }
    }

    /// Checks a token of inline code.
    pub fn check_token(&mut self, env: &Env, tok: &Rc<InlinePulseToken>)
        ensures
            *final(self) == spec_check_token(*old(self), *env, *tok),
            extends(final(self).diags, old(self).diags),
            final(self).check_types == old(self).check_types,
            final(self).diags == old(self).diags <==> well_formed_token(old(self).check_types, *env, *tok),
            well_formed_token(true, *env, *tok) ==> well_formed_token(false, *env, *tok),
        decreases tok, 0nat,
    {
        match &**tok {
            InlinePulseToken::RValueAntiquot { expr, .. } => self.check_rvalue(env, expr),
            InlinePulseToken::LValueAntiquot { expr, .. } => self.check_rvalue(env, expr),
            InlinePulseToken::TypeAntiquot { ty, .. } => self.check_type(env, ty),
            InlinePulseToken::Declare { ty, .. } => self.check_type(env, ty),
            _ => (),
        }
    }

    /// Checks inline code. A declared name is in scope from there on.
    pub fn check_tokens(&mut self, env: &Env, l: &Rc<List<InlinePulseToken>>)
        ensures
            *final(self) == spec_check_tokens(*old(self), *env, *l),
            extends(final(self).diags, old(self).diags),
            final(self).check_types == old(self).check_types,
            final(self).diags == old(self).diags <==> well_formed_tokens(old(self).check_types, *env, *l),
            well_formed_tokens(true, *env, *l) ==> well_formed_tokens(false, *env, *l),
        decreases l, 0nat,
    {
        match &**l {
            List::Nil => (),
            List::Cons(h, t) => {
                self.check_token(env, h);
                match &**h {
                    InlinePulseToken::Declare { ident, ty } => self.check_tokens(&push_var_decl(env, ident, ty.clone(), LocalDeclKind::RValue), t),
                    _ => self.check_tokens(env, t),
                }
            }
        }
    }

    /// Checks propositions.
    pub fn check_slprops(&mut self, env: &Env, l: &Rc<List<Expr>>)
        ensures
            *final(self) == spec_check_slprops(*old(self), *env, *l),
            extends(final(self).diags, old(self).diags),
            final(self).check_types == old(self).check_types,
            final(self).diags == old(self).diags <==> well_formed_slprops(old(self).check_types, *env, *l),
            well_formed_slprops(true, *env, *l) ==> well_formed_slprops(false, *env, *l),
        decreases l,
    {
        match &**l {
            List::Nil => (),
            List::Cons(h, t) => {
                self.check_slprop(env, h);
                self.check_slprops(env, t);
            }
        }
    }

    /// Checks conditions.
    pub fn check_bools(&mut self, env: &Env, l: &Rc<List<Expr>>)
        ensures
            *final(self) == spec_check_bools(*old(self), *env, *l),
            extends(final(self).diags, old(self).diags),
            final(self).check_types == old(self).check_types,
            final(self).diags == old(self).diags <==> well_formed_bools(old(self).check_types, *env, *l),
            well_formed_bools(true, *env, *l) ==> well_formed_bools(false, *env, *l),
        decreases l,
    {
        match &**l {
            List::Nil => (),
            List::Cons(h, t) => {
                self.check_bool(env, h);
                self.check_bools(env, t);
            }
        }
    }

    /// Checks patterns against the type of what they are matched with.
    pub fn check_patterns(
        &mut self,
        env: &Env,
        subject: &Option<Rc<Type>>,
        l: &Rc<List<Expr>>,
    )
        ensures
            *final(self) == spec_check_patterns(*old(self), *env, *subject, *l),
            extends(final(self).diags, old(self).diags),
            final(self).check_types == old(self).check_types,
            final(self).diags == old(self).diags <==> well_formed_patterns(old(self).check_types, *env, *subject, *l),
            well_formed_patterns(true, *env, *subject, *l) ==> well_formed_patterns(false, *env, *subject, *l),
        decreases l,
    {
        match &**l {
            List::Nil => (),
            List::Cons(h, t) => {
                self.check_rvalue(env, h);
                if self.check_types {
                    match (subject, &self.infer_or_report(env, h)) {
                        (Some(s), Some(p)) => self.check_type_eq(env, p, s),
                        _ => (),
                    }
                }
                self.check_patterns(env, subject, t);
            }
        }
    }

    /// Checks a branch.
    pub fn check_branch(&mut self, env: &Env, subject: &Option<Rc<Type>>, b: &Rc<Branch>)
        ensures
            *final(self) == spec_check_branch(*old(self), *env, *subject, *b),
            extends(final(self).diags, old(self).diags),
            final(self).check_types == old(self).check_types,
            final(self).diags == old(self).diags <==> well_formed_branch(old(self).check_types, *env, *subject, *b),
            well_formed_branch(true, *env, *subject, *b) ==> well_formed_branch(false, *env, *subject, *b),
        decreases b, 0nat,
    {
        self.check_patterns(env, subject, &b.patterns);
        self.check_stmts(env, &b.body);
    }

    /// Checks branches.
    pub fn check_branches(
        &mut self,
        env: &Env,
        subject: &Option<Rc<Type>>,
        l: &Rc<List<Branch>>,
    )
        ensures
            *final(self) == spec_check_branches(*old(self), *env, *subject, *l),
            extends(final(self).diags, old(self).diags),
            final(self).check_types == old(self).check_types,
            final(self).diags == old(self).diags <==> well_formed_branches(old(self).check_types, *env, *subject, *l),
            well_formed_branches(true, *env, *subject, *l) ==> well_formed_branches(false, *env, *subject, *l),
        decreases l, 0nat,
    {
        match &**l {
            List::Nil => (),
            List::Cons(h, t) => {
                self.check_branch(env, subject, h);
                self.check_branches(env, subject, t);
            }
        }
    }

    /// Checks a statement.
    pub fn check_stmt(&mut self, env: &Env, s: &Rc<Stmt>)
        ensures
            *final(self) == spec_check_stmt(*old(self), *env, *s),
            extends(final(self).diags, old(self).diags),
            final(self).check_types == old(self).check_types,
            final(self).diags == old(self).diags <==> well_formed_stmt(old(self).check_types, *env, *s),
            well_formed_stmt(true, *env, *s) ==> well_formed_stmt(false, *env, *s),
        decreases s, 2nat,
    {
        match &s.val {
            StmtT::Call(e) => self.check_rvalue(env, e),
            StmtT::Decl(_, ty) => self.check_type(env, ty),
            StmtT::Let(_, ty, value) => {
                self.check_type(env, ty);
                self.check_rvalue(env, value);
                if self.check_types {
                    match self.infer_or_report(env, value) {
                        Some(t) => self.check_type_eq(env, &t, ty),
                        None => (),
                    }
                }
            }
            StmtT::DeclStackArray { elem_type, size, .. } => {
                self.check_type(env, elem_type);
                self.check_rvalue(env, size);
            }
            StmtT::Assign(x, v) => {
                self.check_lvalue(env, x);
                self.check_rvalue(env, v);
                self.check_same_type(env, v, x);
            }
            StmtT::Break => if !env.in_loop {
                self.report(lit("break outside of loop"), &s.loc);
            },
            StmtT::Continue => if !env.in_loop {
                self.report(lit("continue outside of loop"), &s.loc);
            },
            StmtT::Return(Some(v)) => {
                self.check_rvalue(env, v);
                match &env.return_type {
                    Some(t) => self.check_has_type(env, v, t),
                    None => (),
                }
            }
            StmtT::Return(None) => (),
            StmtT::Assert(v) => self.check_slprop(env, v),
            StmtT::GhostStmt(code) => self.check_tokens(env, &code.tokens),
            StmtT::Goto(_) => (),
            StmtT::Label { ensures_, .. } => self.check_slprops(env, ensures_),
            StmtT::Error => (),
            _ => self.check_block_stmt(env, s),
        }
    }

    /// Checks a statement that holds others.
    pub fn check_block_stmt(&mut self, env: &Env, s: &Rc<Stmt>)
        ensures
            *final(self) == spec_check_block_stmt(*old(self), *env, *s),
            extends(final(self).diags, old(self).diags),
            final(self).check_types == old(self).check_types,
            final(self).diags == old(self).diags <==> well_formed_block_stmt(old(self).check_types, *env, *s),
            well_formed_block_stmt(true, *env, *s) ==> well_formed_block_stmt(false, *env, *s),
        decreases s, 1nat,
    {
        match &s.val {
            StmtT::If { cond, then_branch, else_branch, ensures_ } => {
                self.check_bool(env, cond);
                self.check_slprops(env, ensures_);
                self.check_stmts(env, then_branch);
                self.check_stmts(env, else_branch);
            }
            StmtT::Match { scrutinee, branches, default_branch, ensures_ } => {
                self.check_rvalue(env, scrutinee);
                let subject = self.infer_or_report(env, scrutinee);
                self.check_branches(env, &subject, branches);
                self.check_stmts(env, default_branch);
                self.check_slprops(env, ensures_);
            }
            StmtT::While { cond, inv, requires_, ensures_, body } => {
                self.check_bool(env, cond);
                self.check_slprops(env, inv);
                self.check_bools(env, requires_);
                self.check_bools(env, ensures_);
                self.check_stmts(&enter_loop(env), body);
            }
            StmtT::GotoBlock { body, ensures_, .. } => {
                self.check_stmts(env, body);
                self.check_slprops(env, ensures_);
            }
            _ => (),
        }
    }

    /// Checks statements, each in the scope that those before it leave.
    pub fn check_stmts(&mut self, env: &Env, l: &Rc<List<Stmt>>)
        ensures
            *final(self) == spec_check_stmts(*old(self), *env, *l),
            extends(final(self).diags, old(self).diags),
            final(self).check_types == old(self).check_types,
            final(self).diags == old(self).diags <==> well_formed_stmts(old(self).check_types, *env, *l),
            well_formed_stmts(true, *env, *l) ==> well_formed_stmts(false, *env, *l),
        decreases l, 3nat,
    {
        match &**l {
            List::Nil => (),
            List::Cons(h, t) => {
                self.check_stmt(env, h);
                self.check_stmts(&push_stmt(env, h), t);
            }
        }
    }

    /// Checks the types of ghost parameters, each in the scope of those before it.
    pub fn check_ghost_args(&mut self, env: &Env, l: &Rc<List<GhostArg>>)
        ensures
            *final(self) == spec_check_ghost_args(*old(self), *env, *l),
            extends(final(self).diags, old(self).diags),
            final(self).check_types == old(self).check_types,
            final(self).diags == old(self).diags <==> well_formed_ghost_args(old(self).check_types, *env, *l),
            well_formed_ghost_args(true, *env, *l) ==> well_formed_ghost_args(false, *env, *l),
        decreases l,
    {
        match &**l {
            List::Nil => (),
            List::Cons(h, t) => {
                self.check_type(env, &h.ty);
                self.check_ghost_args(&push_var_decl(env, &h.name, h.ty.clone(), LocalDeclKind::RValue), t);
            }
        }
    }

    /// Checks the types of parameters, each in the scope of those before it.
    pub fn check_args(&mut self, env: &Env, l: &Rc<List<FnArg>>)
        ensures
            *final(self) == spec_check_args(*old(self), *env, *l),
            extends(final(self).diags, old(self).diags),
            final(self).check_types == old(self).check_types,
            final(self).diags == old(self).diags <==> well_formed_args(old(self).check_types, *env, *l),
            well_formed_args(true, *env, *l) ==> well_formed_args(false, *env, *l),
        decreases l,
    {
        match &**l {
            List::Nil => (),
            List::Cons(h, t) => {
                self.check_type(env, &h.ty);
                self.check_args(&push_arg(env, h, LocalDeclKind::RValue), t);
            }
        }
    }

    /// Checks the types of parameters, all in the same scope.
    pub fn check_param_types(&mut self, env: &Env, l: &Rc<List<FnArg>>)
        ensures
            *final(self) == spec_check_param_types(*old(self), *env, *l),
            extends(final(self).diags, old(self).diags),
            final(self).check_types == old(self).check_types,
            final(self).diags == old(self).diags <==> well_formed_param_types(old(self).check_types, *env, *l),
            well_formed_param_types(true, *env, *l) ==> well_formed_param_types(false, *env, *l),
        decreases l,
    {
        match &**l {
            List::Nil => (),
            List::Cons(h, t) => {
                self.check_type(env, &h.ty);
                self.check_param_types(env, t);
            }
        }
    }

    /// Checks a signature and its contract.
    pub fn check_fn_decl(&mut self, env: &Env, d: &Rc<FnDecl>)
        ensures
            *final(self) == spec_check_fn_decl(*old(self), *env, *d),
            extends(final(self).diags, old(self).diags),
            final(self).check_types == old(self).check_types,
            final(self).diags == old(self).diags <==> well_formed_fn_decl(old(self).check_types, *env, *d),
            well_formed_fn_decl(true, *env, *d) ==> well_formed_fn_decl(false, *env, *d),
    {
        proof {
            reveal(spec_check_fn_decl);
        }
        self.check_ghost_args(env, &d.ghost_args);
        let env1 = push_ghost_args(env, &d.ghost_args);
        self.check_args(&env1, &d.args);
        let env2 = push_args(&env1, &d.args, LocalDeclKind::RValue);
        self.check_slprops(&env2, &d.requires_);
        self.check_type(&env2, &d.ret_type);
        let env3 = push_return(&env2, d.ret_type.clone());
        self.check_slprops(&env3, &d.ensures_);
        match &d.decreases_ {
            Some(e) => self.check_rvalue(&env3, e),
            None => (),
        }
    }

    /// Checks the types of fields.
    pub fn check_fields(&mut self, env: &Env, l: &Rc<List<Field>>, siblings: &Rc<List<Field>>)
        ensures
            *final(self) == spec_check_fields(*old(self), *env, *l, *siblings),
            extends(final(self).diags, old(self).diags),
            final(self).check_types == old(self).check_types,
            final(self).diags == old(self).diags <==> well_formed_fields(old(self).check_types, *env, *l, *siblings),
            well_formed_fields(true, *env, *l, *siblings) ==> well_formed_fields(false, *env, *l, *siblings),
        decreases l,
    {
        match &**l {
            List::Nil => (),
            List::Cons(h, t) => {
                self.check_type(&field_env(env, h, siblings), &field_type(h));
                self.check_fields(env, t, siblings);
            }
        }
    }

    /// Checks a declaration.
    pub fn check_decl(&mut self, env: &Env, d: &Rc<Decl>)
        ensures
            *final(self) == spec_check_decl(*old(self), *env, *d),
            extends(final(self).diags, old(self).diags),
            final(self).check_types == old(self).check_types,
            final(self).diags == old(self).diags <==> well_formed_decl(old(self).check_types, *env, *d),
            well_formed_decl(true, *env, *d) ==> well_formed_decl(false, *env, *d),
    {
        proof {
            reveal(spec_check_decl);
        }
        match &d.val {
            DeclT::FnDefn(f) => {
                self.check_fn_decl(env, &f.decl);
                self.check_stmts(&push_fn_decl_args_for_body(env, &f.decl), &f.body);
            }
            DeclT::FnDecl(f) => self.check_fn_decl(env, f),
            DeclT::Typedef(t) => self.check_type(env, &t.body),
            DeclT::StructDefn(s) => {
                self.check_type(env, &s.refines);
                self.check_fields(env, &s.fields, &s.fields);
            }
            DeclT::UnionDefn(u) => self.check_fields(env, &u.fields, &u.fields),
            DeclT::StructDecl(_) => (),
            DeclT::IncludeDecl(_) => (),
            DeclT::OpaqueTypeDecl(o) => self.check_tokens(env, &o.code.tokens),
            DeclT::LetDecl(l) => {
                self.check_type(env, &l.ret_type);
                self.check_param_types(env, &l.params);
                let env2 = push_args(env, &l.params, LocalDeclKind::LValue);
                self.check_rvalues(&env2, &l.requires_);
                self.check_rvalues(&env2, &l.ensures_);
                self.check_rvalue(&env2, &l.body);
            }
            DeclT::GlobalVar(g) => {
                self.check_type(env, &g.ty);
                match &g.init {
                    Some(e) => self.check_rvalue(env, e),
                    None => (),
                }
            }
        }
    }

    /// Checks declarations.
    pub fn check_decls(&mut self, env: &Env, l: &Rc<List<Decl>>)
        ensures
            *final(self) == spec_check_decls(*old(self), *env, *l),
            extends(final(self).diags, old(self).diags),
            final(self).check_types == old(self).check_types,
            final(self).diags == old(self).diags <==> well_formed_decls(old(self).check_types, *env, *l),
            well_formed_decls(true, *env, *l) ==> well_formed_decls(false, *env, *l),
        decreases l,
    {
        match &**l {
            List::Nil => (),
            List::Cons(h, t) => {
                let env1 = enter_decl(env, h);
                self.check_decl(&env1, h);
                self.check_decls(&push_decl(&env1, h), t);
            }
        }
    }
}

/// The scope in which a declaration is checked: a recursive function and a struct are in scope
/// of themselves.
#[verifier::opaque]
pub open spec fn spec_enter_decl(env: Env, d: Rc<Decl>) -> Env
{
    match d.val {
        DeclT::FnDefn(f) => {
            if f.decl.is_rec {
                spec_push_fn_decl(env, f.decl)
            } else {
                spec_clone_env(env)
            }
        },
        DeclT::StructDefn(s) => spec_push_struct(env, s),
        _ => spec_clone_env(env),
    }
}

/// The scope in which a declaration is checked: a recursive function and a struct are in scope
/// of themselves.
pub fn enter_decl(env: &Env, d: &Rc<Decl>) -> (out: Env)
    ensures
        out == spec_enter_decl(*env, *d),
{
    proof {
        reveal(spec_enter_decl);
    }
    match &d.val {
        DeclT::FnDefn(f) => if f.decl.is_rec { push_fn_decl(env, f.decl.clone()) } else { clone_env(env) },
        DeclT::StructDefn(s) => push_struct(env, s.clone()),
        _ => clone_env(env),
    }
}

/// Checks a translation unit after a pass: every error found is reported under the pass's name.
/// Where types need not agree yet, only names are checked. Every declaration is in scope of every
/// other, whatever their order. Where a check of types has nothing to report, a check of names has
/// nothing to report either.
pub fn check(diags: &mut Diagnostics, tu: &TranslationUnit, pass: &Text, check_types: bool)
    ensures
        final(diags).list == spec_check_decls(
            Checker { pass: *pass, check_types, diags: old(diags).list },
            spec_push_decls(spec_empty_env(), list_of(tu.decls@)),
            list_of(tu.decls@),
        ).diags,
        extends(final(diags).list, old(diags).list),
        final(diags).list == old(diags).list <==> well_formed_decls(
            check_types,
            spec_push_decls(spec_empty_env(), list_of(tu.decls@)),
            list_of(tu.decls@),
        ),
        well_formed_decls(true, spec_push_decls(spec_empty_env(), list_of(tu.decls@)), list_of(tu.decls@))
            ==> well_formed_decls(false, spec_push_decls(spec_empty_env(), list_of(tu.decls@)), list_of(tu.decls@)),
{
    let decls = List::from_vec(&tu.decls);
    let env = push_decls(&empty_env(), &decls);
    let mut c = Checker { pass: pass.clone(), check_types, diags: diags.list.clone() };
    c.check_decls(&env, &decls);
    diags.list = c.diags;
}

} // verus!
