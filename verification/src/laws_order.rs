//! What is proved of checks in scopes that say the same: they add the same messages.

use crate::list::{List, spec_list_len};
use crate::text::{Text, spec_cat, spec_cat3, spec_cat4, spec_lit, spec_num};
use crate::ir::{
    BinOp, Branch, Decl, DeclT, Expr, ExprT, Field, FieldInit, FnArg, FnDecl, FnDefn, GhostArg,
    GlobalVar, Ident, InlinePulseToken, LetDecl, Loc, OpaqueTypeDecl, Stmt, StmtT, StructDefn,
    Type, TypeRefKind, TypeT, UnOp, UnionDefn, VAttr, spec_field_type, spec_show_expr,
};
use crate::env::{
    Env, LocalDeclKind, spec_enter_loop, spec_infer_error, spec_infer_expr, spec_lookup_fn,
    spec_lookup_struct, spec_push_arg, spec_push_args, spec_push_fn_decl_args_for_body,
    spec_push_ghost_args, spec_push_return, spec_push_stmt, spec_push_this, spec_push_var_decl,
    spec_show_env,
};
use crate::merge::Match;
use crate::check::{
    Checker, spec_check_arg_types, spec_check_args, spec_check_block_stmt, spec_check_bool,
    spec_check_bools, spec_check_branch, spec_check_branches, spec_check_call,
    spec_check_compound, spec_check_container, spec_check_decl, spec_check_deref,
    spec_check_fields, spec_check_fn_decl, spec_check_ghost_args, spec_check_has_type,
    spec_check_index_types, spec_check_init, spec_check_inits, spec_check_lvalue,
    spec_check_member_of, spec_check_mixed, spec_check_node, spec_check_operand_types,
    spec_check_operands_agree, spec_check_param_types, spec_check_patterns, spec_check_rvalue,
    spec_check_rvalues, spec_check_same_type, spec_check_slprop, spec_check_slprops,
    spec_check_stmt, spec_check_stmts, spec_check_struct_init, spec_check_token,
    spec_check_tokens, spec_check_type, spec_check_type_eq, spec_check_type_ref, spec_check_typed,
    spec_check_types_of, spec_check_union_init, spec_check_unop, spec_check_var, spec_field_env,
};
use crate::laws_goto::{branch_body, ident_text};
use crate::laws_rename::{code_tokens, init_value};
use crate::laws_types::typedef_body;
use crate::laws_syntax::{fn_args, fn_ensures, fn_ghost_args, fn_requires};
use crate::laws_passes::fn_body;
use crate::laws_twice::defn_signature;
use crate::laws_check::{
    arg_type, branch_patterns, fn_measure, fn_result, ghost_name, ghost_type, global_init,
    global_type, let_body, let_ensures, let_params, let_requires, let_type, loc_of, opaque_tokens,
    struct_fields, struct_refinement, union_fields,
};
use crate::laws_scope::{
    lemma_same_eq, lemma_same_fitness, lemma_same_lookups, lemma_same_places, lemma_same_types_of,
    lemma_same_whnf, same_scope, scope_enter_loop, scope_field_env, scope_push_arg,
    scope_push_args, scope_push_fn_decl_args_for_body, scope_push_ghost_args, scope_push_return,
    scope_push_stmt, scope_push_this, scope_push_var_decl,
};
use crate::laws_step::{alike, in_step, lemma_same_report};
use std::rc::Rc;
use vstd::prelude::*;

verus! {

broadcast use {
    crate::laws_step::lemma_in_step_alike,
    crate::laws_step::lemma_in_step_at_first,
    crate::laws_step::lemma_in_step_trans,
};

/// Reports add the same.
proof fn lemma_step_reports(a: Env, b: Env)
    requires
        same_scope(a, b),
    ensures
        forall|s: Checker, t: Checker, msg: Text, loc: Loc|
            alike(s, t) ==> in_step(#[trigger] crate::check::spec_report(s, msg, loc), s, #[trigger] crate::check::spec_report(t, msg, loc), t),
        forall|s: Checker, t: Checker, e: Rc<Expr>|
            alike(s, t) ==> in_step((#[trigger] crate::check::spec_infer_or_report(s, a, e)).0, s, (#[trigger] crate::check::spec_infer_or_report(t, b, e)).0, t),
        forall|t: Checker, e: Rc<Expr>| (#[trigger] crate::check::spec_infer_or_report(t, a, e)).1 == spec_infer_expr(a, e),
        forall|t: Checker, e: Rc<Expr>| (#[trigger] crate::check::spec_infer_or_report(t, b, e)).1 == spec_infer_expr(a, e),
{
    lemma_same_types_of(a, b);
    lemma_same_lookups(a, b);
    assert forall|s: Checker, t: Checker, msg: Text, loc: Loc| alike(s, t) implies in_step(
        #[trigger] crate::check::spec_report(s, msg, loc),
        s,
        #[trigger] crate::check::spec_report(t, msg, loc),
        t,
    ) by {
        reveal(crate::check::spec_report);
        lemma_same_report(s, t, msg, None, loc);
    }
    assert forall|s: Checker, t: Checker, e: Rc<Expr>| alike(s, t) implies in_step(
        (#[trigger] crate::check::spec_infer_or_report(s, a, e)).0,
        s,
        (#[trigger] crate::check::spec_infer_or_report(t, b, e)).0,
        t,
    ) by {
        reveal(crate::check::spec_infer_or_report);
        assert(spec_infer_expr(a, e) == spec_infer_expr(b, e));
        assert(spec_infer_error(a, e) == spec_infer_error(b, e));
        let msg = spec_cat4(spec_lit("cannot infer type of "), spec_show_expr(e), spec_lit(": "), spec_infer_error(a, e));
        lemma_same_report(s, t, msg, Some(spec_show_env(a)), loc_of(e));
    }
    reveal(crate::check::spec_infer_or_report);
    assert forall|t: Checker, e: Rc<Expr>| (#[trigger] crate::check::spec_infer_or_report(t, b, e)).1 == spec_infer_expr(a, e) by {
        assert(spec_infer_expr(a, e) == spec_infer_expr(b, e));
    }
}

/// The checks of single facts add the same.
proof fn lemma_step_facts(a: Env, b: Env)
    requires
        same_scope(a, b),
    ensures
        forall|s: Checker, t: Checker, x: Rc<Type>, y: Rc<Type>|
            alike(s, t) ==> in_step(#[trigger] spec_check_type_eq(s, a, x, y), s, #[trigger] spec_check_type_eq(t, b, x, y), t),
        forall|s: Checker, t: Checker, e: Rc<Expr>, ty: Rc<Type>|
            alike(s, t) ==> in_step(#[trigger] spec_check_has_type(s, a, e, ty), s, #[trigger] spec_check_has_type(t, b, e, ty), t),
        forall|s: Checker, t: Checker, e: Rc<Expr>, x: Rc<Expr>|
            alike(s, t) ==> in_step(#[trigger] spec_check_same_type(s, a, e, x), s, #[trigger] spec_check_same_type(t, b, e, x), t),
        forall|s: Checker, t: Checker, n: Rc<Ident>|
            alike(s, t) ==> in_step(#[trigger] spec_check_var(s, a, n), s, #[trigger] spec_check_var(t, b, n), t),
        forall|s: Checker, t: Checker, ty: Rc<Type>, x: Rc<Ident>, loc: Loc|
            alike(s, t) ==> in_step(#[trigger] spec_check_member_of(s, a, ty, x, loc), s, #[trigger] spec_check_member_of(t, b, ty, x, loc), t),
        forall|s: Checker, t: Checker, ty: Rc<Type>, f: Rc<Ident>, loc: Loc|
            alike(s, t) ==> in_step(#[trigger] spec_check_container(s, a, ty, f, loc), s, #[trigger] spec_check_container(t, b, ty, f, loc), t),
        forall|s: Checker, t: Checker, x: Rc<Type>, y: Rc<Type>, loc: Loc|
            alike(s, t) ==> in_step(#[trigger] spec_check_operands_agree(s, a, x, y, loc), s, #[trigger] spec_check_operands_agree(t, b, x, y, loc), t),
        forall|s: Checker, t: Checker, op: BinOp, x: Rc<Type>, y: Rc<Type>, loc: Loc|
            alike(s, t) ==> in_step(#[trigger] spec_check_operand_types(s, a, op, x, y, loc), s, #[trigger] spec_check_operand_types(t, b, op, x, y, loc), t),
        forall|s: Checker, t: Checker, x: Rc<Expr>, i: Rc<Expr>, loc: Loc|
            alike(s, t) ==> in_step(#[trigger] spec_check_index_types(s, a, x, i, loc), s, #[trigger] spec_check_index_types(t, b, x, i, loc), t),
        forall|s: Checker, t: Checker, k: TypeRefKind, loc: Loc|
            alike(s, t) ==> in_step(#[trigger] spec_check_type_ref(s, a, k, loc), s, #[trigger] spec_check_type_ref(t, b, k, loc), t),
{
    lemma_step_reports(a, b);
    lemma_same_whnf(a, b);
    lemma_same_eq(a, b);
    lemma_same_lookups(a, b);
    lemma_same_fitness(a, b);
    assert forall|s: Checker, t: Checker, x: Rc<Type>, y: Rc<Type>| alike(s, t) implies in_step(#[trigger] spec_check_type_eq(s, a, x, y), s, #[trigger] spec_check_type_eq(t, b, x, y), t) by {
        reveal(spec_check_type_eq);
    }
    assert forall|s: Checker, t: Checker, e: Rc<Expr>, ty: Rc<Type>| alike(s, t) implies in_step(#[trigger] spec_check_has_type(s, a, e, ty), s, #[trigger] spec_check_has_type(t, b, e, ty), t) by {
        reveal(spec_check_has_type);
    }
    assert forall|s: Checker, t: Checker, e: Rc<Expr>, x: Rc<Expr>| alike(s, t) implies in_step(#[trigger] spec_check_same_type(s, a, e, x), s, #[trigger] spec_check_same_type(t, b, e, x), t) by {
        reveal(spec_check_same_type);
    }
    assert forall|s: Checker, t: Checker, n: Rc<Ident>| alike(s, t) implies in_step(#[trigger] spec_check_var(s, a, n), s, #[trigger] spec_check_var(t, b, n), t) by {
        reveal(spec_check_var);
    }
    assert forall|s: Checker, t: Checker, ty: Rc<Type>, x: Rc<Ident>, loc: Loc| alike(s, t) implies in_step(#[trigger] spec_check_member_of(s, a, ty, x, loc), s, #[trigger] spec_check_member_of(t, b, ty, x, loc), t) by {
        reveal(spec_check_member_of);
    }
    assert forall|s: Checker, t: Checker, ty: Rc<Type>, f: Rc<Ident>, loc: Loc| alike(s, t) implies in_step(#[trigger] spec_check_container(s, a, ty, f, loc), s, #[trigger] spec_check_container(t, b, ty, f, loc), t) by {
        reveal(spec_check_container);
    }
    assert forall|s: Checker, t: Checker, x: Rc<Type>, y: Rc<Type>, loc: Loc| alike(s, t) implies in_step(#[trigger] spec_check_operands_agree(s, a, x, y, loc), s, #[trigger] spec_check_operands_agree(t, b, x, y, loc), t) by {
        reveal(spec_check_operands_agree);
    }
    assert forall|s: Checker, t: Checker, op: BinOp, x: Rc<Type>, y: Rc<Type>, loc: Loc| alike(s, t) implies in_step(#[trigger] spec_check_operand_types(s, a, op, x, y, loc), s, #[trigger] spec_check_operand_types(t, b, op, x, y, loc), t) by {
        reveal(spec_check_operand_types);
    }
    assert forall|s: Checker, t: Checker, x: Rc<Expr>, i: Rc<Expr>, loc: Loc| alike(s, t) implies in_step(#[trigger] spec_check_index_types(s, a, x, i, loc), s, #[trigger] spec_check_index_types(t, b, x, i, loc), t) by {
        reveal(spec_check_index_types);
    }
    assert forall|s: Checker, t: Checker, k: TypeRefKind, loc: Loc| alike(s, t) implies in_step(#[trigger] spec_check_type_ref(s, a, k, loc), s, #[trigger] spec_check_type_ref(t, b, k, loc), t) by {
        reveal(spec_check_type_ref);
    }
}

/// Checking a type adds the same.
proof fn step_type(s: Checker, t: Checker, env: Env, other: Env, ty: Rc<Type>)
    requires
        alike(s, t),
        same_scope(env, other),
    ensures
        in_step(spec_check_type(s, env, ty), s, spec_check_type(t, other, ty), t),
    decreases ty, 0nat,
{
    lemma_step_facts(env, other);
    match ty.val {
        TypeT::Pointer(a, _) | TypeT::FixedArray(a, _) | TypeT::FlexArray(a) => {
            step_type(s, t, env, other, a);
            let s1 = spec_check_type(s, env, a);
            let t1 = spec_check_type(t, other, a);
        },
        TypeT::Plain(a) | TypeT::Nullable(a) => {
            step_type(s, t, env, other, a);
            let s1 = spec_check_type(s, env, a);
            let t1 = spec_check_type(t, other, a);
        },
        TypeT::FnPtr { args, ret } => {
            step_types_of(s, t, env, other, args);
            let s1 = spec_check_types_of(s, env, args);
            let t1 = spec_check_types_of(t, other, args);
            step_type(s1, t1, env, other, ret);
            let s2 = spec_check_type(s1, env, ret);
            let t2 = spec_check_type(t1, other, ret);
        },
        TypeT::Refine(a, p) | TypeT::RefineAlways(a, p) | TypeT::RefineUninit(a, p) => {
            step_type(s, t, env, other, a);
            let s1 = spec_check_type(s, env, a);
            let t1 = spec_check_type(t, other, a);
            scope_push_this(env, other, a);
            step_slprop(s1, t1, spec_push_this(env, a), spec_push_this(other, a), p);
            let s2 = spec_check_slprop(s1, spec_push_this(env, a), p);
            let t2 = spec_check_slprop(t1, spec_push_this(other, a), p);
        },
        TypeT::RefineValue(a, x, u, p) => {
            step_type(s, t, env, other, a);
            let s1 = spec_check_type(s, env, a);
            let t1 = spec_check_type(t, other, a);
            step_type(s1, t1, env, other, u);
            let s2 = spec_check_type(s1, env, u);
            let t2 = spec_check_type(t1, other, u);
            scope_push_this(env, other, a);
            scope_push_var_decl(spec_push_this(env, a), spec_push_this(other, a), x, u, LocalDeclKind::RValue);
            step_slprop(s2, t2, spec_push_var_decl(spec_push_this(env, a), x, u, LocalDeclKind::RValue), spec_push_var_decl(spec_push_this(other, a), x, u, LocalDeclKind::RValue), p);
            let s3 = spec_check_slprop(s2, spec_push_var_decl(spec_push_this(env, a), x, u, LocalDeclKind::RValue), p);
            let t3 = spec_check_slprop(t2, spec_push_var_decl(spec_push_this(other, a), x, u, LocalDeclKind::RValue), p);
        },
        _ => {},
    }
}

/// Checking types adds the same.
proof fn step_types_of(s: Checker, t: Checker, env: Env, other: Env, l: Rc<List<Type>>)
    requires
        alike(s, t),
        same_scope(env, other),
    ensures
        in_step(spec_check_types_of(s, env, l), s, spec_check_types_of(t, other, l), t),
    decreases l, 0nat,
{
    match *l {
        List::Cons(h, r) => {
            step_type(s, t, env, other, h);
            let s1 = spec_check_type(s, env, h);
            let t1 = spec_check_type(t, other, h);
            step_types_of(s1, t1, env, other, r);
            let s2 = spec_check_types_of(s1, env, r);
            let t2 = spec_check_types_of(t1, other, r);
        },
        _ => {},
    }
}

/// Checking a proposition adds the same.
proof fn step_slprop(s: Checker, t: Checker, env: Env, other: Env, p: Rc<Expr>)
    requires
        alike(s, t),
        same_scope(env, other),
    ensures
        in_step(spec_check_slprop(s, env, p), s, spec_check_slprop(t, other, p), t),
    decreases p, 9nat,
{
    lemma_step_facts(env, other);
    step_rvalue(s, t, env, other, p);
    let s1 = spec_check_rvalue(s, env, p);
    let t1 = spec_check_rvalue(t, other, p);
}

/// Checking a condition adds the same.
proof fn step_bool(s: Checker, t: Checker, env: Env, other: Env, p: Rc<Expr>)
    requires
        alike(s, t),
        same_scope(env, other),
    ensures
        in_step(spec_check_bool(s, env, p), s, spec_check_bool(t, other, p), t),
    decreases p, 9nat,
{
    lemma_step_facts(env, other);
    step_rvalue(s, t, env, other, p);
    let s1 = spec_check_rvalue(s, env, p);
    let t1 = spec_check_rvalue(t, other, p);
}

/// Checking a place adds the same.
proof fn step_lvalue(s: Checker, t: Checker, env: Env, other: Env, e: Rc<Expr>)
    requires
        alike(s, t),
        same_scope(env, other),
    ensures
        in_step(spec_check_lvalue(s, env, e), s, spec_check_lvalue(t, other, e), t),
    decreases e, 9nat,
{
    lemma_step_reports(env, other);
    lemma_same_places(env, other);
    step_rvalue(s, t, env, other, e);
    let s1 = spec_check_rvalue(s, env, e);
    let t1 = spec_check_rvalue(t, other, e);
}

/// Checking an expression adds the same.
proof fn step_rvalue(s: Checker, t: Checker, env: Env, other: Env, e: Rc<Expr>)
    requires
        alike(s, t),
        same_scope(env, other),
    ensures
        in_step(spec_check_rvalue(s, env, e), s, spec_check_rvalue(t, other, e), t),
    decreases e, 8nat,
{
    step_node(s, t, env, other, e);
    let s1 = spec_check_node(s, env, e);
    let t1 = spec_check_node(t, other, e);
}

/// Checking expressions adds the same.
proof fn step_rvalues(s: Checker, t: Checker, env: Env, other: Env, l: Rc<List<Expr>>)
    requires
        alike(s, t),
        same_scope(env, other),
    ensures
        in_step(spec_check_rvalues(s, env, l), s, spec_check_rvalues(t, other, l), t),
    decreases l, 0nat,
{
    match *l {
        List::Cons(h, r) => {
            step_rvalue(s, t, env, other, h);
            let s1 = spec_check_rvalue(s, env, h);
            let t1 = spec_check_rvalue(t, other, h);
            step_rvalues(s1, t1, env, other, r);
            let s2 = spec_check_rvalues(s1, env, r);
            let t2 = spec_check_rvalues(t1, other, r);
        },
        _ => {},
    }
}

/// Checking an expression without residues of errors adds the same.
proof fn step_node(s: Checker, t: Checker, env: Env, other: Env, e: Rc<Expr>)
    requires
        alike(s, t),
        same_scope(env, other),
    ensures
        in_step(spec_check_node(s, env, e), s, spec_check_node(t, other, e), t),
    decreases e, 7nat,
{
    lemma_step_reports(env, other);
    lemma_step_facts(env, other);
    lemma_same_lookups(env, other);
    lemma_same_places(env, other);
    match e.val {
        ExprT::VAttr(_, a) | ExprT::Live(a) | ExprT::Old(a) | ExprT::Free(a) => {
            step_rvalue(s, t, env, other, a);
            let s1 = spec_check_rvalue(s, env, a);
            let t1 = spec_check_rvalue(t, other, a);
        },
        ExprT::PreIncr(a) | ExprT::PostIncr(a) | ExprT::PreDecr(a) | ExprT::PostDecr(a) => {
            step_lvalue(s, t, env, other, a);
            let s1 = spec_check_lvalue(s, env, a);
            let t1 = spec_check_lvalue(t, other, a);
        },
        ExprT::Deref(a) => {
            step_deref(s, t, env, other, a);
            let s1 = spec_check_deref(s, env, a);
            let t1 = spec_check_deref(t, other, a);
        },
        ExprT::Member(x, _) => {
            step_rvalue(s, t, env, other, x);
            let s1 = spec_check_rvalue(s, env, x);
            let t1 = spec_check_rvalue(t, other, x);
        },
        ExprT::Ref(a) => {
            step_rvalue(s, t, env, other, a);
            let s1 = spec_check_rvalue(s, env, a);
            let t1 = spec_check_rvalue(t, other, a);
        },
        ExprT::UnOp(op, a) => {
            step_unop(s, t, env, other, op, a, loc_of(e));
            let s1 = spec_check_unop(s, env, op, a, loc_of(e));
            let t1 = spec_check_unop(t, other, op, a, loc_of(e));
        },
        ExprT::BoolLit(_) | ExprT::Var(_) | ExprT::FnRef(_) => {
        },
        _ => step_compound(s, t, env, other, e),
    }
}

/// Checking a dereference adds the same.
proof fn step_deref(s: Checker, t: Checker, env: Env, other: Env, a: Rc<Expr>)
    requires
        alike(s, t),
        same_scope(env, other),
    ensures
        in_step(spec_check_deref(s, env, a), s, spec_check_deref(t, other, a), t),
    decreases a, 9nat,
{
    lemma_step_reports(env, other);
    lemma_same_fitness(env, other);
    step_rvalue(s, t, env, other, a);
    let s1 = spec_check_rvalue(s, env, a);
    let t1 = spec_check_rvalue(t, other, a);
}

/// Checking a unary operation adds the same.
proof fn step_unop(s: Checker, t: Checker, env: Env, other: Env, op: UnOp, a: Rc<Expr>, loc: Loc)
    requires
        alike(s, t),
        same_scope(env, other),
    ensures
        in_step(spec_check_unop(s, env, op, a, loc), s, spec_check_unop(t, other, op, a, loc), t),
    decreases a, 9nat,
{
    lemma_step_reports(env, other);
    lemma_same_fitness(env, other);
    step_rvalue(s, t, env, other, a);
    let s1 = spec_check_rvalue(s, env, a);
    let t1 = spec_check_rvalue(t, other, a);
}

/// Checking an expression with several operands adds the same.
proof fn step_compound(s: Checker, t: Checker, env: Env, other: Env, e: Rc<Expr>)
    requires
        alike(s, t),
        same_scope(env, other),
    ensures
        in_step(spec_check_compound(s, env, e), s, spec_check_compound(t, other, e), t),
    decreases e, 6nat,
{
    lemma_step_reports(env, other);
    lemma_step_facts(env, other);
    match e.val {
        ExprT::Index(a, b) | ExprT::BinOp(_, a, b) | ExprT::AssignExpr(a, b) => {
            step_rvalue(s, t, env, other, a);
            let s1 = spec_check_rvalue(s, env, a);
            let t1 = spec_check_rvalue(t, other, a);
            step_rvalue(s1, t1, env, other, b);
            let s2 = spec_check_rvalue(s1, env, b);
            let t2 = spec_check_rvalue(t1, other, b);
        },
        ExprT::Cond(a, b, c) => {
            step_rvalue(s, t, env, other, a);
            let s1 = spec_check_rvalue(s, env, a);
            let t1 = spec_check_rvalue(t, other, a);
            step_rvalue(s1, t1, env, other, b);
            let s2 = spec_check_rvalue(s1, env, b);
            let t2 = spec_check_rvalue(t1, other, b);
            step_rvalue(s2, t2, env, other, c);
            let s3 = spec_check_rvalue(s2, env, c);
            let t3 = spec_check_rvalue(t2, other, c);
        },
        ExprT::FnCall(f, args) => {
            step_rvalues(s, t, env, other, args);
            let s1 = spec_check_rvalues(s, env, args);
            let t1 = spec_check_rvalues(t, other, args);
            step_call(s1, t1, env, other, f, args, loc_of(e));
            let s2 = spec_check_call(s1, env, f, args, loc_of(e));
            let t2 = spec_check_call(t1, other, f, args, loc_of(e));
        },
        ExprT::FnPtrCall(f, args) => {
            step_rvalue(s, t, env, other, f);
            let s1 = spec_check_rvalue(s, env, f);
            let t1 = spec_check_rvalue(t, other, f);
            step_rvalues(s1, t1, env, other, args);
            let s2 = spec_check_rvalues(s1, env, args);
            let t2 = spec_check_rvalues(t1, other, args);
        },
        _ => step_typed(s, t, env, other, e),
    }
}

/// Checking an expression with a type adds the same.
proof fn step_typed(s: Checker, t: Checker, env: Env, other: Env, e: Rc<Expr>)
    requires
        alike(s, t),
        same_scope(env, other),
    ensures
        in_step(spec_check_typed(s, env, e), s, spec_check_typed(t, other, e), t),
    decreases e, 5nat,
{
    lemma_step_reports(env, other);
    lemma_same_fitness(env, other);
    match e.val {
        ExprT::IntLit(_, ty) | ExprT::FloatLit(_, ty) => {
            step_type(s, t, env, other, ty);
            let s1 = spec_check_type(s, env, ty);
            let t1 = spec_check_type(t, other, ty);
        },
        ExprT::Malloc(ty) | ExprT::Calloc(ty) | ExprT::SizeOf(ty) | ExprT::AlignOf(ty) | ExprT::Error(ty) => {
            step_type(s, t, env, other, ty);
            let s1 = spec_check_type(s, env, ty);
            let t1 = spec_check_type(t, other, ty);
        },
        ExprT::Cast(a, ty) => {
            step_rvalue(s, t, env, other, a);
            let s1 = spec_check_rvalue(s, env, a);
            let t1 = spec_check_rvalue(t, other, a);
            step_type(s1, t1, env, other, ty);
            let s2 = spec_check_type(s1, env, ty);
            let t2 = spec_check_type(t1, other, ty);
        },
        ExprT::MallocArray(ty, n) | ExprT::CallocArray(ty, n) | ExprT::MallocFlex(ty, n) => {
            step_type(s, t, env, other, ty);
            let s1 = spec_check_type(s, env, ty);
            let t1 = spec_check_type(t, other, ty);
            step_rvalue(s1, t1, env, other, n);
            let s2 = spec_check_rvalue(s1, env, n);
            let t2 = spec_check_rvalue(t1, other, n);
        },
        ExprT::CallocFlex(ty, n) | ExprT::MemsetZero(ty, n) => {
            step_type(s, t, env, other, ty);
            let s1 = spec_check_type(s, env, ty);
            let t1 = spec_check_type(t, other, ty);
            step_rvalue(s1, t1, env, other, n);
            let s2 = spec_check_rvalue(s1, env, n);
            let t2 = spec_check_rvalue(t1, other, n);
        },
        ExprT::Forall(x, ty, b) | ExprT::Exists(x, ty, b) => {
            step_type(s, t, env, other, ty);
            let s1 = spec_check_type(s, env, ty);
            let t1 = spec_check_type(t, other, ty);
            scope_push_var_decl(env, other, x, ty, LocalDeclKind::RValue);
            step_rvalue(s1, t1, spec_push_var_decl(env, x, ty, LocalDeclKind::RValue), spec_push_var_decl(other, x, ty, LocalDeclKind::RValue), b);
            let s2 = spec_check_rvalue(s1, spec_push_var_decl(env, x, ty, LocalDeclKind::RValue), b);
            let t2 = spec_check_rvalue(t1, spec_push_var_decl(other, x, ty, LocalDeclKind::RValue), b);
        },
        _ => step_mixed(s, t, env, other, e),
    }
}

/// Checking an initializer, an access to memory or inline code adds the same.
proof fn step_mixed(s: Checker, t: Checker, env: Env, other: Env, e: Rc<Expr>)
    requires
        alike(s, t),
        same_scope(env, other),
    ensures
        in_step(spec_check_mixed(s, env, e), s, spec_check_mixed(t, other, e), t),
    decreases e, 4nat,
{
    lemma_step_facts(env, other);
    match e.val {
        ExprT::Memset(ty, p, v, n) => {
            step_type(s, t, env, other, ty);
            let s1 = spec_check_type(s, env, ty);
            let t1 = spec_check_type(t, other, ty);
            step_rvalue(s1, t1, env, other, p);
            let s2 = spec_check_rvalue(s1, env, p);
            let t2 = spec_check_rvalue(t1, other, p);
            step_rvalue(s2, t2, env, other, v);
            let s3 = spec_check_rvalue(s2, env, v);
            let t3 = spec_check_rvalue(t2, other, v);
            step_rvalue(s3, t3, env, other, n);
            let s4 = spec_check_rvalue(s3, env, n);
            let t4 = spec_check_rvalue(t3, other, n);
        },
        ExprT::ContainerOf(p, ty, _) => {
            step_rvalue(s, t, env, other, p);
            let s1 = spec_check_rvalue(s, env, p);
            let t1 = spec_check_rvalue(t, other, p);
            step_type(s1, t1, env, other, ty);
            let s2 = spec_check_type(s1, env, ty);
            let t2 = spec_check_type(t1, other, ty);
        },
        ExprT::InlinePulse(code, ty) => {
            step_type(s, t, env, other, ty);
            let s1 = spec_check_type(s, env, ty);
            let t1 = spec_check_type(t, other, ty);
            step_tokens(s1, t1, env, other, code_tokens(code));
            let s2 = spec_check_tokens(s1, env, code_tokens(code));
            let t2 = spec_check_tokens(t1, other, code_tokens(code));
        },
        ExprT::ArrayInit { elem_ty, elems, .. } => {
            step_type(s, t, env, other, elem_ty);
            let s1 = spec_check_type(s, env, elem_ty);
            let t1 = spec_check_type(t, other, elem_ty);
            step_rvalues(s1, t1, env, other, elems);
            let s2 = spec_check_rvalues(s1, env, elems);
            let t2 = spec_check_rvalues(t1, other, elems);
        },
        ExprT::StructInit(_, _) => {
            step_struct_init(s, t, env, other, e);
            let s1 = spec_check_struct_init(s, env, e);
            let t1 = spec_check_struct_init(t, other, e);
        },
        ExprT::UnionInit(_, _, _) => {
            step_union_init(s, t, env, other, e);
            let s1 = spec_check_union_init(s, env, e);
            let t1 = spec_check_union_init(t, other, e);
        },
        _ => {},
    }
}

/// Checking a struct literal adds the same.
proof fn step_struct_init(s: Checker, t: Checker, env: Env, other: Env, e: Rc<Expr>)
    requires
        alike(s, t),
        same_scope(env, other),
    ensures
        in_step(spec_check_struct_init(s, env, e), s, spec_check_struct_init(t, other, e), t),
    decreases e, 3nat,
{
    lemma_step_reports(env, other);
    lemma_same_lookups(env, other);
    match e.val {
        ExprT::StructInit(name, inits) => match spec_lookup_struct(env, name) {
            Some(d) => {
                step_inits(s, t, env, other, d, inits, loc_of(e));
                let count = spec_cat(
                    spec_cat4(spec_lit("struct "), ident_text(name), spec_lit(" has "), spec_num(spec_list_len(struct_fields(d)))),
                    spec_cat3(spec_lit(" fields, but "), spec_num(spec_list_len(inits)), spec_lit(" were given")),
                );
                let s1 = crate::check::spec_report(s, count, loc_of(e));
                let t1 = crate::check::spec_report(t, count, loc_of(e));
                step_inits(s1, t1, env, other, d, inits, loc_of(e));
            },
            None => {},
        },
        _ => {},
    }
}

/// Checking a union literal adds the same.
proof fn step_union_init(s: Checker, t: Checker, env: Env, other: Env, e: Rc<Expr>)
    requires
        alike(s, t),
        same_scope(env, other),
    ensures
        in_step(spec_check_union_init(s, env, e), s, spec_check_union_init(t, other, e), t),
    decreases e, 3nat,
{
    lemma_step_reports(env, other);
    lemma_step_facts(env, other);
    lemma_same_lookups(env, other);
    match e.val {
        ExprT::UnionInit(_, _, v) => step_rvalue(s, t, env, other, v),
        _ => {},
    }
}

/// Checking the value of a field adds the same.
proof fn step_init(s: Checker, t: Checker, env: Env, other: Env, d: Rc<StructDefn>, i: Rc<FieldInit>, loc: Loc)
    requires
        alike(s, t),
        same_scope(env, other),
    ensures
        in_step(spec_check_init(s, env, d, i, loc), s, spec_check_init(t, other, d, i, loc), t),
    decreases i, 0nat,
{
    lemma_step_reports(env, other);
    lemma_step_facts(env, other);
    step_rvalue(s, t, env, other, init_value(i));
    let s1 = spec_check_rvalue(s, env, init_value(i));
    let t1 = spec_check_rvalue(t, other, init_value(i));
}

/// Checking the values of fields adds the same.
proof fn step_inits(s: Checker, t: Checker, env: Env, other: Env, d: Rc<StructDefn>, l: Rc<List<FieldInit>>, loc: Loc)
    requires
        alike(s, t),
        same_scope(env, other),
    ensures
        in_step(spec_check_inits(s, env, d, l, loc), s, spec_check_inits(t, other, d, l, loc), t),
    decreases l, 0nat,
{
    match *l {
        List::Cons(h, r) => {
            step_init(s, t, env, other, d, h, loc);
            let s1 = spec_check_init(s, env, d, h, loc);
            let t1 = spec_check_init(t, other, d, h, loc);
            step_inits(s1, t1, env, other, d, r, loc);
            let s2 = spec_check_inits(s1, env, d, r, loc);
            let t2 = spec_check_inits(t1, other, d, r, loc);
        },
        _ => {},
    }
}

/// Checking a token of inline code adds the same.
proof fn step_token(s: Checker, t: Checker, env: Env, other: Env, tok: Rc<InlinePulseToken>)
    requires
        alike(s, t),
        same_scope(env, other),
    ensures
        in_step(spec_check_token(s, env, tok), s, spec_check_token(t, other, tok), t),
    decreases tok, 0nat,
{
    match *tok {
        InlinePulseToken::RValueAntiquot { expr, .. } | InlinePulseToken::LValueAntiquot { expr, .. } => {
            step_rvalue(s, t, env, other, expr);
            let s1 = spec_check_rvalue(s, env, expr);
            let t1 = spec_check_rvalue(t, other, expr);
        },
        InlinePulseToken::TypeAntiquot { ty, .. } | InlinePulseToken::Declare { ty, .. } => {
            step_type(s, t, env, other, ty);
            let s1 = spec_check_type(s, env, ty);
            let t1 = spec_check_type(t, other, ty);
        },
        _ => {},
    }
}

/// Checking inline code adds the same.
proof fn step_tokens(s: Checker, t: Checker, env: Env, other: Env, l: Rc<List<InlinePulseToken>>)
    requires
        alike(s, t),
        same_scope(env, other),
    ensures
        in_step(spec_check_tokens(s, env, l), s, spec_check_tokens(t, other, l), t),
    decreases l, 0nat,
{
    match *l {
        List::Cons(h, r) => {
            step_token(s, t, env, other, h);
            let s1 = spec_check_token(s, env, h);
            let t1 = spec_check_token(t, other, h);
            match *h {
                InlinePulseToken::Declare { ident, ty } => {
                    let k = LocalDeclKind::RValue;
                    scope_push_var_decl(env, other, ident, ty, k);
                    step_tokens(s1, t1, spec_push_var_decl(env, ident, ty, k), spec_push_var_decl(other, ident, ty, k), r);
                },
                _ => step_tokens(s1, t1, env, other, r),
            }
        },
        _ => {},
    }
}

/// Checking the types of arguments adds the same.
proof fn step_arg_types(s: Checker, t: Checker, env: Env, other: Env, ps: Rc<List<FnArg>>, l: Rc<List<Expr>>)
    requires
        alike(s, t),
        same_scope(env, other),
    ensures
        in_step(spec_check_arg_types(s, env, ps, l), s, spec_check_arg_types(t, other, ps, l), t),
    decreases l,
{
    lemma_step_facts(env, other);
    match *ps {
        List::Cons(p, q) => match *l {
            List::Cons(a, r) => {
                let s1 = spec_check_has_type(s, env, a, arg_type(p));
                let t1 = spec_check_has_type(t, other, a, arg_type(p));
                assert(in_step(s1, s, t1, t));
                step_arg_types(s1, t1, env, other, q, r);
            },
            _ => {},
        },
        _ => {},
    }
}

/// Checking a call adds the same.
proof fn step_call(s: Checker, t: Checker, env: Env, other: Env, f: Rc<Ident>, args: Rc<List<Expr>>, loc: Loc)
    requires
        alike(s, t),
        same_scope(env, other),
    ensures
        in_step(spec_check_call(s, env, f, args, loc), s, spec_check_call(t, other, f, args, loc), t),
    decreases args, 0nat,
{
    lemma_step_reports(env, other);
    lemma_same_lookups(env, other);
    reveal(spec_check_call);
    match spec_lookup_fn(env, f) {
        Some(d) => {
            step_arg_types(s, t, env, other, fn_args(d), args);
            let count = spec_cat4(
                spec_lit("incorrect number of arguments, expected "),
                spec_num(spec_list_len(fn_args(d))),
                spec_lit(", got "),
                spec_num(spec_list_len(args)),
            );
            let s1 = crate::check::spec_report(s, count, loc);
            let t1 = crate::check::spec_report(t, count, loc);
            assert(in_step(s1, s, t1, t));
            step_arg_types(s1, t1, env, other, fn_args(d), args);
        },
        None => {},
    }
}

/// Checking propositions adds the same.
proof fn step_slprops(s: Checker, t: Checker, env: Env, other: Env, l: Rc<List<Expr>>)
    requires
        alike(s, t),
        same_scope(env, other),
    ensures
        in_step(spec_check_slprops(s, env, l), s, spec_check_slprops(t, other, l), t),
    decreases l,
{
    match *l {
        List::Cons(h, r) => {
            step_slprop(s, t, env, other, h);
            let s1 = spec_check_slprop(s, env, h);
            let t1 = spec_check_slprop(t, other, h);
            step_slprops(s1, t1, env, other, r);
            let s2 = spec_check_slprops(s1, env, r);
            let t2 = spec_check_slprops(t1, other, r);
        },
        _ => {},
    }
}

/// Checking conditions adds the same.
proof fn step_bools(s: Checker, t: Checker, env: Env, other: Env, l: Rc<List<Expr>>)
    requires
        alike(s, t),
        same_scope(env, other),
    ensures
        in_step(spec_check_bools(s, env, l), s, spec_check_bools(t, other, l), t),
    decreases l,
{
    match *l {
        List::Cons(h, r) => {
            step_bool(s, t, env, other, h);
            let s1 = spec_check_bool(s, env, h);
            let t1 = spec_check_bool(t, other, h);
            step_bools(s1, t1, env, other, r);
            let s2 = spec_check_bools(s1, env, r);
            let t2 = spec_check_bools(t1, other, r);
        },
        _ => {},
    }
}

/// Checking patterns adds the same.
proof fn step_patterns(s: Checker, t: Checker, env: Env, other: Env, x: Option<Rc<Type>>, l: Rc<List<Expr>>)
    requires
        alike(s, t),
        same_scope(env, other),
    ensures
        in_step(spec_check_patterns(s, env, x, l), s, spec_check_patterns(t, other, x, l), t),
    decreases l,
{
    lemma_step_reports(env, other);
    lemma_step_facts(env, other);
    match *l {
        List::Cons(h, r) => {
            step_rvalue(s, t, env, other, h);
            let s1 = spec_check_rvalue(s, env, h);
            let t1 = spec_check_rvalue(t, other, h);
            step_patterns(s1, t1, env, other, x, r);
            let s2 = crate::check::spec_infer_or_report(s1, env, h).0;
            let t2 = crate::check::spec_infer_or_report(t1, other, h).0;
            assert(in_step(s2, s1, t2, t1));
            step_patterns(s2, t2, env, other, x, r);
            match x {
                Some(a) => match spec_infer_expr(env, h) {
                    Some(b) => {
                        let s3 = spec_check_type_eq(s2, env, b, a);
                        let t3 = spec_check_type_eq(t2, other, b, a);
                        assert(in_step(s3, s2, t3, t2));
                        step_patterns(s3, t3, env, other, x, r);
                    },
                    None => {},
                },
                None => {},
            }
        },
        _ => {},
    }
}

/// Checking a branch adds the same.
proof fn step_branch(s: Checker, t: Checker, env: Env, other: Env, x: Option<Rc<Type>>, b: Rc<Branch>)
    requires
        alike(s, t),
        same_scope(env, other),
    ensures
        in_step(spec_check_branch(s, env, x, b), s, spec_check_branch(t, other, x, b), t),
    decreases b, 0nat,
{
    step_patterns(s, t, env, other, x, branch_patterns(b));
    let s1 = spec_check_patterns(s, env, x, branch_patterns(b));
    let t1 = spec_check_patterns(t, other, x, branch_patterns(b));
    step_stmts(s1, t1, env, other, branch_body(b));
    let s2 = spec_check_stmts(s1, env, branch_body(b));
    let t2 = spec_check_stmts(t1, other, branch_body(b));
}

/// Checking branches adds the same.
proof fn step_branches(s: Checker, t: Checker, env: Env, other: Env, x: Option<Rc<Type>>, l: Rc<List<Branch>>)
    requires
        alike(s, t),
        same_scope(env, other),
    ensures
        in_step(spec_check_branches(s, env, x, l), s, spec_check_branches(t, other, x, l), t),
    decreases l, 0nat,
{
    match *l {
        List::Cons(h, r) => {
            step_branch(s, t, env, other, x, h);
            let s1 = spec_check_branch(s, env, x, h);
            let t1 = spec_check_branch(t, other, x, h);
            step_branches(s1, t1, env, other, x, r);
            let s2 = spec_check_branches(s1, env, x, r);
            let t2 = spec_check_branches(t1, other, x, r);
        },
        _ => {},
    }
}

/// Checking a statement adds the same.
proof fn step_stmt(s: Checker, t: Checker, env: Env, other: Env, m: Rc<Stmt>)
    requires
        alike(s, t),
        same_scope(env, other),
    ensures
        in_step(spec_check_stmt(s, env, m), s, spec_check_stmt(t, other, m), t),
    decreases m, 2nat,
{
    lemma_step_reports(env, other);
    lemma_step_facts(env, other);
    match m.val {
        StmtT::Call(e) => {
            step_rvalue(s, t, env, other, e);
            let s1 = spec_check_rvalue(s, env, e);
            let t1 = spec_check_rvalue(t, other, e);
        },
        StmtT::Decl(_, ty) => {
            step_type(s, t, env, other, ty);
            let s1 = spec_check_type(s, env, ty);
            let t1 = spec_check_type(t, other, ty);
        },
        StmtT::Let(_, ty, e) => {
            step_type(s, t, env, other, ty);
            let s1 = spec_check_type(s, env, ty);
            let t1 = spec_check_type(t, other, ty);
            step_rvalue(s1, t1, env, other, e);
            let s2 = spec_check_rvalue(s1, env, e);
            let t2 = spec_check_rvalue(t1, other, e);
        },
        StmtT::DeclStackArray { elem_type, size, .. } => {
            step_type(s, t, env, other, elem_type);
            let s1 = spec_check_type(s, env, elem_type);
            let t1 = spec_check_type(t, other, elem_type);
            step_rvalue(s1, t1, env, other, size);
            let s2 = spec_check_rvalue(s1, env, size);
            let t2 = spec_check_rvalue(t1, other, size);
        },
        StmtT::Assign(x, v) => {
            step_lvalue(s, t, env, other, x);
            let s1 = spec_check_lvalue(s, env, x);
            let t1 = spec_check_lvalue(t, other, x);
            step_rvalue(s1, t1, env, other, v);
            let s2 = spec_check_rvalue(s1, env, v);
            let t2 = spec_check_rvalue(t1, other, v);
        },
        StmtT::Return(Some(v)) => {
            step_rvalue(s, t, env, other, v);
            let s1 = spec_check_rvalue(s, env, v);
            let t1 = spec_check_rvalue(t, other, v);
        },
        StmtT::Assert(v) => {
            step_slprop(s, t, env, other, v);
            let s1 = spec_check_slprop(s, env, v);
            let t1 = spec_check_slprop(t, other, v);
        },
        StmtT::GhostStmt(code) => {
            step_tokens(s, t, env, other, code_tokens(code));
            let s1 = spec_check_tokens(s, env, code_tokens(code));
            let t1 = spec_check_tokens(t, other, code_tokens(code));
        },
        StmtT::Label { ensures_, .. } => {
            step_slprops(s, t, env, other, ensures_);
            let s1 = spec_check_slprops(s, env, ensures_);
            let t1 = spec_check_slprops(t, other, ensures_);
        },
        StmtT::Break | StmtT::Continue | StmtT::Return(None) | StmtT::Goto(_) | StmtT::Error => {
        },
        _ => step_block_stmt(s, t, env, other, m),
    }
}

/// Checking a statement that holds others adds the same.
proof fn step_block_stmt(s: Checker, t: Checker, env: Env, other: Env, m: Rc<Stmt>)
    requires
        alike(s, t),
        same_scope(env, other),
    ensures
        in_step(spec_check_block_stmt(s, env, m), s, spec_check_block_stmt(t, other, m), t),
    decreases m, 1nat,
{
    lemma_step_reports(env, other);
    match m.val {
        StmtT::If { cond, then_branch, else_branch, ensures_ } => {
            step_bool(s, t, env, other, cond);
            let s1 = spec_check_bool(s, env, cond);
            let t1 = spec_check_bool(t, other, cond);
            step_slprops(s1, t1, env, other, ensures_);
            let s2 = spec_check_slprops(s1, env, ensures_);
            let t2 = spec_check_slprops(t1, other, ensures_);
            step_stmts(s2, t2, env, other, then_branch);
            let s3 = spec_check_stmts(s2, env, then_branch);
            let t3 = spec_check_stmts(t2, other, then_branch);
            step_stmts(s3, t3, env, other, else_branch);
            let s4 = spec_check_stmts(s3, env, else_branch);
            let t4 = spec_check_stmts(t3, other, else_branch);
        },
        StmtT::Match { scrutinee, branches, default_branch, ensures_ } => {
            step_rvalue(s, t, env, other, scrutinee);
            let s1 = spec_check_rvalue(s, env, scrutinee);
            let t1 = spec_check_rvalue(t, other, scrutinee);
            let x = spec_infer_expr(env, scrutinee);
            let s2 = crate::check::spec_infer_or_report(s1, env, scrutinee).0;
            let t2 = crate::check::spec_infer_or_report(t1, other, scrutinee).0;
            assert(in_step(s2, s1, t2, t1));
            step_branches(s2, t2, env, other, x, branches);
            let s3 = spec_check_branches(s2, env, x, branches);
            let t3 = spec_check_branches(t2, other, x, branches);
            step_stmts(s3, t3, env, other, default_branch);
            let s4 = spec_check_stmts(s3, env, default_branch);
            let t4 = spec_check_stmts(t3, other, default_branch);
            step_slprops(s4, t4, env, other, ensures_);
        },
        StmtT::While { cond, inv, requires_, ensures_, body } => {
            step_bool(s, t, env, other, cond);
            let s1 = spec_check_bool(s, env, cond);
            let t1 = spec_check_bool(t, other, cond);
            step_slprops(s1, t1, env, other, inv);
            let s2 = spec_check_slprops(s1, env, inv);
            let t2 = spec_check_slprops(t1, other, inv);
            step_bools(s2, t2, env, other, requires_);
            let s3 = spec_check_bools(s2, env, requires_);
            let t3 = spec_check_bools(t2, other, requires_);
            step_bools(s3, t3, env, other, ensures_);
            let s4 = spec_check_bools(s3, env, ensures_);
            let t4 = spec_check_bools(t3, other, ensures_);
            scope_enter_loop(env, other);
            step_stmts(s4, t4, spec_enter_loop(env), spec_enter_loop(other), body);
            let s5 = spec_check_stmts(s4, spec_enter_loop(env), body);
            let t5 = spec_check_stmts(t4, spec_enter_loop(other), body);
        },
        StmtT::GotoBlock { body, ensures_, .. } => {
            step_stmts(s, t, env, other, body);
            let s1 = spec_check_stmts(s, env, body);
            let t1 = spec_check_stmts(t, other, body);
            step_slprops(s1, t1, env, other, ensures_);
            let s2 = spec_check_slprops(s1, env, ensures_);
            let t2 = spec_check_slprops(t1, other, ensures_);
        },
        _ => {},
    }
}

/// Checking statements adds the same.
proof fn step_stmts(s: Checker, t: Checker, env: Env, other: Env, l: Rc<List<Stmt>>)
    requires
        alike(s, t),
        same_scope(env, other),
    ensures
        in_step(spec_check_stmts(s, env, l), s, spec_check_stmts(t, other, l), t),
    decreases l, 3nat,
{
    match *l {
        List::Cons(h, r) => {
            step_stmt(s, t, env, other, h);
            let s1 = spec_check_stmt(s, env, h);
            let t1 = spec_check_stmt(t, other, h);
            scope_push_stmt(env, other, h);
            step_stmts(s1, t1, spec_push_stmt(env, h), spec_push_stmt(other, h), r);
            let s2 = spec_check_stmts(s1, spec_push_stmt(env, h), r);
            let t2 = spec_check_stmts(t1, spec_push_stmt(other, h), r);
        },
        _ => {},
    }
}

/// Checking ghost parameters adds the same.
proof fn step_ghost_args(s: Checker, t: Checker, env: Env, other: Env, l: Rc<List<GhostArg>>)
    requires
        alike(s, t),
        same_scope(env, other),
    ensures
        in_step(spec_check_ghost_args(s, env, l), s, spec_check_ghost_args(t, other, l), t),
    decreases l,
{
    match *l {
        List::Cons(h, r) => {
            step_type(s, t, env, other, ghost_type(h));
            let s1 = spec_check_type(s, env, ghost_type(h));
            let t1 = spec_check_type(t, other, ghost_type(h));
            scope_push_var_decl(env, other, ghost_name(h), ghost_type(h), LocalDeclKind::RValue);
            step_ghost_args(s1, t1, spec_push_var_decl(env, ghost_name(h), ghost_type(h), LocalDeclKind::RValue), spec_push_var_decl(other, ghost_name(h), ghost_type(h), LocalDeclKind::RValue), r);
            let s2 = spec_check_ghost_args(s1, spec_push_var_decl(env, ghost_name(h), ghost_type(h), LocalDeclKind::RValue), r);
            let t2 = spec_check_ghost_args(t1, spec_push_var_decl(other, ghost_name(h), ghost_type(h), LocalDeclKind::RValue), r);
        },
        _ => {},
    }
}

/// Checking parameters adds the same.
proof fn step_args(s: Checker, t: Checker, env: Env, other: Env, l: Rc<List<FnArg>>)
    requires
        alike(s, t),
        same_scope(env, other),
    ensures
        in_step(spec_check_args(s, env, l), s, spec_check_args(t, other, l), t),
    decreases l,
{
    match *l {
        List::Cons(h, r) => {
            step_type(s, t, env, other, arg_type(h));
            let s1 = spec_check_type(s, env, arg_type(h));
            let t1 = spec_check_type(t, other, arg_type(h));
            scope_push_arg(env, other, h, LocalDeclKind::RValue);
            step_args(s1, t1, spec_push_arg(env, h, LocalDeclKind::RValue), spec_push_arg(other, h, LocalDeclKind::RValue), r);
            let s2 = spec_check_args(s1, spec_push_arg(env, h, LocalDeclKind::RValue), r);
            let t2 = spec_check_args(t1, spec_push_arg(other, h, LocalDeclKind::RValue), r);
        },
        _ => {},
    }
}

/// Checking the types of parameters adds the same.
proof fn step_param_types(s: Checker, t: Checker, env: Env, other: Env, l: Rc<List<FnArg>>)
    requires
        alike(s, t),
        same_scope(env, other),
    ensures
        in_step(spec_check_param_types(s, env, l), s, spec_check_param_types(t, other, l), t),
    decreases l,
{
    match *l {
        List::Cons(h, r) => {
            step_type(s, t, env, other, arg_type(h));
            let s1 = spec_check_type(s, env, arg_type(h));
            let t1 = spec_check_type(t, other, arg_type(h));
            step_param_types(s1, t1, env, other, r);
            let s2 = spec_check_param_types(s1, env, r);
            let t2 = spec_check_param_types(t1, other, r);
        },
        _ => {},
    }
}

/// Checking a signature and its contract adds the same.
proof fn step_fn_decl(s: Checker, t: Checker, env: Env, other: Env, d: Rc<FnDecl>)
    requires
        alike(s, t),
        same_scope(env, other),
    ensures
        in_step(spec_check_fn_decl(s, env, d), s, spec_check_fn_decl(t, other, d), t),
{
    reveal(spec_check_fn_decl);
    scope_push_ghost_args(env, other, fn_ghost_args(d));
    let env1 = spec_push_ghost_args(env, fn_ghost_args(d));
    let other1 = spec_push_ghost_args(other, fn_ghost_args(d));
    scope_push_args(env1, other1, fn_args(d), LocalDeclKind::RValue);
    let env2 = spec_push_args(env1, fn_args(d), LocalDeclKind::RValue);
    let other2 = spec_push_args(other1, fn_args(d), LocalDeclKind::RValue);
    scope_push_return(env2, other2, fn_result(d));
    let env3 = spec_push_return(env2, fn_result(d));
    let other3 = spec_push_return(other2, fn_result(d));
    step_ghost_args(s, t, env, other, fn_ghost_args(d));
    let s1 = spec_check_ghost_args(s, env, fn_ghost_args(d));
    let t1 = spec_check_ghost_args(t, other, fn_ghost_args(d));
    step_args(s1, t1, env1, other1, fn_args(d));
    let s2 = spec_check_args(s1, env1, fn_args(d));
    let t2 = spec_check_args(t1, other1, fn_args(d));
    step_slprops(s2, t2, env2, other2, fn_requires(d));
    let s3 = spec_check_slprops(s2, env2, fn_requires(d));
    let t3 = spec_check_slprops(t2, other2, fn_requires(d));
    step_type(s3, t3, env2, other2, fn_result(d));
    let s4 = spec_check_type(s3, env2, fn_result(d));
    let t4 = spec_check_type(t3, other2, fn_result(d));
    step_slprops(s4, t4, env3, other3, fn_ensures(d));
    let s5 = spec_check_slprops(s4, env3, fn_ensures(d));
    let t5 = spec_check_slprops(t4, other3, fn_ensures(d));
    match fn_measure(d) {
        Some(e) => step_rvalue(s5, t5, env3, other3, e),
        None => {},
    }
}

/// Checking fields adds the same.
proof fn step_fields(s: Checker, t: Checker, env: Env, other: Env, l: Rc<List<Field>>, all: Rc<List<Field>>)
    requires
        alike(s, t),
        same_scope(env, other),
    ensures
        in_step(spec_check_fields(s, env, l, all), s, spec_check_fields(t, other, l, all), t),
    decreases l,
{
    match *l {
        List::Cons(h, r) => {
            scope_field_env(env, other, h, all);
            step_type(s, t, spec_field_env(env, h, all), spec_field_env(other, h, all), spec_field_type(h));
            let s1 = spec_check_type(s, spec_field_env(env, h, all), spec_field_type(h));
            let t1 = spec_check_type(t, spec_field_env(other, h, all), spec_field_type(h));
            step_fields(s1, t1, env, other, r, all);
            let s2 = spec_check_fields(s1, env, r, all);
            let t2 = spec_check_fields(t1, other, r, all);
        },
        _ => {},
    }
}

/// Checking a declaration adds the same.
pub proof fn step_decl(s: Checker, t: Checker, env: Env, other: Env, d: Rc<Decl>)
    requires
        alike(s, t),
        same_scope(env, other),
    ensures
        in_step(spec_check_decl(s, env, d), s, spec_check_decl(t, other, d), t),
{
    reveal(spec_check_decl);
    match d.val {
        DeclT::FnDefn(f) => {
            step_fn_decl(s, t, env, other, defn_signature(f));
            let s1 = spec_check_fn_decl(s, env, defn_signature(f));
            let t1 = spec_check_fn_decl(t, other, defn_signature(f));
            scope_push_fn_decl_args_for_body(env, other, defn_signature(f));
            step_stmts(s1, t1, spec_push_fn_decl_args_for_body(env, defn_signature(f)), spec_push_fn_decl_args_for_body(other, defn_signature(f)), fn_body(f));
            let s2 = spec_check_stmts(s1, spec_push_fn_decl_args_for_body(env, defn_signature(f)), fn_body(f));
            let t2 = spec_check_stmts(t1, spec_push_fn_decl_args_for_body(other, defn_signature(f)), fn_body(f));
        },
        DeclT::FnDecl(f) => {
            step_fn_decl(s, t, env, other, f);
            let s1 = spec_check_fn_decl(s, env, f);
            let t1 = spec_check_fn_decl(t, other, f);
        },
        DeclT::Typedef(a) => {
            step_type(s, t, env, other, typedef_body(a));
            let s1 = spec_check_type(s, env, typedef_body(a));
            let t1 = spec_check_type(t, other, typedef_body(a));
        },
        DeclT::StructDefn(a) => {
            step_type(s, t, env, other, struct_refinement(a));
            let s1 = spec_check_type(s, env, struct_refinement(a));
            let t1 = spec_check_type(t, other, struct_refinement(a));
            step_fields(s1, t1, env, other, struct_fields(a), struct_fields(a));
            let s2 = spec_check_fields(s1, env, struct_fields(a), struct_fields(a));
            let t2 = spec_check_fields(t1, other, struct_fields(a), struct_fields(a));
        },
        DeclT::UnionDefn(a) => {
            step_fields(s, t, env, other, union_fields(a), union_fields(a));
            let s1 = spec_check_fields(s, env, union_fields(a), union_fields(a));
            let t1 = spec_check_fields(t, other, union_fields(a), union_fields(a));
        },
        DeclT::OpaqueTypeDecl(a) => {
            step_tokens(s, t, env, other, opaque_tokens(a));
            let s1 = spec_check_tokens(s, env, opaque_tokens(a));
            let t1 = spec_check_tokens(t, other, opaque_tokens(a));
        },
        DeclT::LetDecl(a) => {
            scope_push_args(env, other, let_params(a), LocalDeclKind::LValue);
            let env2 = spec_push_args(env, let_params(a), LocalDeclKind::LValue);
            let other2 = spec_push_args(other, let_params(a), LocalDeclKind::LValue);
            step_type(s, t, env, other, let_type(a));
            let s1 = spec_check_type(s, env, let_type(a));
            let t1 = spec_check_type(t, other, let_type(a));
            step_param_types(s1, t1, env, other, let_params(a));
            let s2 = spec_check_param_types(s1, env, let_params(a));
            let t2 = spec_check_param_types(t1, other, let_params(a));
            step_rvalues(s2, t2, env2, other2, let_requires(a));
            let s3 = spec_check_rvalues(s2, env2, let_requires(a));
            let t3 = spec_check_rvalues(t2, other2, let_requires(a));
            step_rvalues(s3, t3, env2, other2, let_ensures(a));
            let s4 = spec_check_rvalues(s3, env2, let_ensures(a));
            let t4 = spec_check_rvalues(t3, other2, let_ensures(a));
            step_rvalue(s4, t4, env2, other2, let_body(a));
            let s5 = spec_check_rvalue(s4, env2, let_body(a));
            let t5 = spec_check_rvalue(t4, other2, let_body(a));
        },
        DeclT::GlobalVar(g) => {
            step_type(s, t, env, other, global_type(g));
            let s1 = spec_check_type(s, env, global_type(g));
            let t1 = spec_check_type(t, other, global_type(g));
            match global_init(g) {
                Some(e) => step_rvalue(s1, t1, env, other, e),
                None => {},
            }
        },
        _ => {},
    }
}

} // verus!
