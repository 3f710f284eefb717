//! What is proved of checking types besides names.

use crate::list::{List, spec_list_len};
use crate::text::{Text, spec_cat, spec_cat3, spec_cat4, spec_lit, spec_num};
use crate::ir::{
    BinOp, Branch, Decl, DeclT, Expr, ExprT, Field, FieldInit, FnArg, FnDecl, FnDefn, GhostArg,
    GlobalVar, Ident, InlinePulseToken, LetDecl, Loc, OpaqueTypeDecl, Stmt, StmtT, StructDefn,
    Type, TypeRefKind, TypeT, UnOp, UnionDefn, VAttr, spec_field_type, spec_find_field,
    spec_show_expr, spec_show_type,
};
use crate::diag::{Diagnostic, lemma_subsequence_of_itself, subsequence};
use crate::env::{
    Env, LocalDeclKind, spec_enter_loop, spec_infer_error, spec_infer_expr, spec_lookup_fn,
    spec_lookup_struct, spec_lookup_union, spec_push_arg, spec_push_args, spec_push_decl,
    spec_push_fn_decl_args_for_body, spec_push_ghost_args, spec_push_return, spec_push_stmt,
    spec_push_this, spec_push_var_decl, spec_show_env,
};
use crate::merge::Match;
use crate::check::{
    Checker, spec_check_arg_types, spec_check_args, spec_check_block_stmt, spec_check_bool,
    spec_check_bools, spec_check_branch, spec_check_branches, spec_check_call,
    spec_check_compound, spec_check_container, spec_check_decl, spec_check_decls,
    spec_check_deref, spec_check_fields, spec_check_fn_decl, spec_check_ghost_args,
    spec_check_has_type, spec_check_index_types, spec_check_init, spec_check_inits,
    spec_check_lvalue, spec_check_member_of, spec_check_mixed, spec_check_node,
    spec_check_operand_types, spec_check_operands_agree, spec_check_param_types,
    spec_check_patterns, spec_check_rvalue, spec_check_rvalues, spec_check_same_type,
    spec_check_slprop, spec_check_slprops, spec_check_stmt, spec_check_stmts,
    spec_check_struct_init, spec_check_token, spec_check_tokens, spec_check_type,
    spec_check_type_eq, spec_check_type_ref, spec_check_typed, spec_check_types_of,
    spec_check_union_init, spec_check_unop, spec_check_var, spec_enter_decl, spec_field_env,
};
use crate::laws_goto::{branch_body, ident_text};
use crate::laws_rename::{code_tokens, init_value};
use crate::laws_types::typedef_body;
use crate::laws_syntax::{fn_args, fn_ensures, fn_ghost_args, fn_requires};
use crate::laws_passes::fn_body;
use crate::laws_twice::defn_signature;
use crate::laws_step::{keeps_up, lemma_keeps_up_alone, lemma_keeps_up_report, names_beside_types};
use std::rc::Rc;
use vstd::prelude::*;

verus! {

broadcast use {
    crate::laws_step::lemma_keeps_up_modes,
    crate::laws_step::lemma_keeps_up_at_first,
    crate::laws_step::lemma_keeps_up_trans,
};

/// Reports keep up.
proof fn lemma_reports(env: Env)
    ensures
        forall|s: Checker, t: Checker, msg: Text, loc: Loc|
            names_beside_types(s, t) ==> keeps_up(#[trigger] crate::check::spec_report(s, msg, loc), s, #[trigger] crate::check::spec_report(t, msg, loc), t),
        forall|s: Checker, t: Checker, e: Rc<Expr>|
            names_beside_types(s, t) ==> keeps_up((#[trigger] crate::check::spec_infer_or_report(s, env, e)).0, s, (#[trigger] crate::check::spec_infer_or_report(t, env, e)).0, t),
        forall|t: Checker, e: Rc<Expr>| (#[trigger] crate::check::spec_infer_or_report(t, env, e)).1 == spec_infer_expr(env, e),
{
    assert forall|s: Checker, t: Checker, msg: Text, loc: Loc| names_beside_types(s, t) implies keeps_up(
        #[trigger] crate::check::spec_report(s, msg, loc),
        s,
        #[trigger] crate::check::spec_report(t, msg, loc),
        t,
    ) by {
        reveal(crate::check::spec_report);
        lemma_keeps_up_report(s, t, msg, None, loc);
    }
    assert forall|s: Checker, t: Checker, e: Rc<Expr>| names_beside_types(s, t) implies keeps_up(
        (#[trigger] crate::check::spec_infer_or_report(s, env, e)).0,
        s,
        (#[trigger] crate::check::spec_infer_or_report(t, env, e)).0,
        t,
    ) by {
        reveal(crate::check::spec_infer_or_report);
        let msg = spec_cat4(spec_lit("cannot infer type of "), spec_show_expr(e), spec_lit(": "), spec_infer_error(env, e));
        lemma_keeps_up_report(s, t, msg, Some(spec_show_env(env)), loc_of(e));
    }
    reveal(crate::check::spec_infer_or_report);
}

/// Reports of the check of types keep up.
proof fn lemma_reports_alone(env: Env)
    ensures
        forall|s: Checker, t: Checker, msg: Text, loc: Loc|
            #![trigger names_beside_types(s, t), crate::check::spec_report(t, msg, loc)]
            names_beside_types(s, t) ==> keeps_up(s, s, crate::check::spec_report(t, msg, loc), t),
        forall|s: Checker, t: Checker, e: Rc<Expr>|
            #![trigger names_beside_types(s, t), crate::check::spec_infer_or_report(t, env, e)]
            names_beside_types(s, t) ==> keeps_up(s, s, crate::check::spec_infer_or_report(t, env, e).0, t),
{
    lemma_reports(env);
    assert forall|s: Checker, t: Checker, msg: Text, loc: Loc|
        #![trigger names_beside_types(s, t), crate::check::spec_report(t, msg, loc)]
        names_beside_types(s, t) implies keeps_up(s, s, crate::check::spec_report(t, msg, loc), t) by {
        lemma_keeps_up_alone(crate::check::spec_report(s, msg, loc), s, crate::check::spec_report(t, msg, loc), t);
    }
    assert forall|s: Checker, t: Checker, e: Rc<Expr>|
        #![trigger names_beside_types(s, t), crate::check::spec_infer_or_report(t, env, e)]
        names_beside_types(s, t) implies keeps_up(s, s, crate::check::spec_infer_or_report(t, env, e).0, t) by {
        lemma_keeps_up_alone(crate::check::spec_infer_or_report(s, env, e).0, s, crate::check::spec_infer_or_report(t, env, e).0, t);
    }
}

/// An inference of the check of types keeps up.
proof fn infer_alone(s: Checker, t: Checker, env: Env, e: Rc<Expr>)
    requires
        names_beside_types(s, t),
    ensures
        keeps_up(s, s, crate::check::spec_infer_or_report(t, env, e).0, t),
        crate::check::spec_infer_or_report(t, env, e).1 == spec_infer_expr(env, e),
{
    lemma_reports(env);
    lemma_keeps_up_alone(crate::check::spec_infer_or_report(s, env, e).0, s, crate::check::spec_infer_or_report(t, env, e).0, t);
}

/// The checks of single facts keep up.
proof fn lemma_facts(env: Env)
    ensures
        forall|s: Checker, t: Checker, x: Rc<Type>, y: Rc<Type>|
            names_beside_types(s, t) ==> keeps_up(#[trigger] spec_check_type_eq(s, env, x, y), s, #[trigger] spec_check_type_eq(t, env, x, y), t),
        forall|s: Checker, t: Checker, e: Rc<Expr>, ty: Rc<Type>|
            names_beside_types(s, t) ==> keeps_up(#[trigger] spec_check_has_type(s, env, e, ty), s, #[trigger] spec_check_has_type(t, env, e, ty), t),
        forall|s: Checker, t: Checker, e: Rc<Expr>, x: Rc<Expr>|
            names_beside_types(s, t) ==> keeps_up(#[trigger] spec_check_same_type(s, env, e, x), s, #[trigger] spec_check_same_type(t, env, e, x), t),
        forall|s: Checker, t: Checker, n: Rc<Ident>|
            names_beside_types(s, t) ==> keeps_up(#[trigger] spec_check_var(s, env, n), s, #[trigger] spec_check_var(t, env, n), t),
        forall|s: Checker, t: Checker, ty: Rc<Type>, x: Rc<Ident>, loc: Loc|
            names_beside_types(s, t) ==> keeps_up(#[trigger] spec_check_member_of(s, env, ty, x, loc), s, #[trigger] spec_check_member_of(t, env, ty, x, loc), t),
        forall|s: Checker, t: Checker, ty: Rc<Type>, f: Rc<Ident>, loc: Loc|
            names_beside_types(s, t) ==> keeps_up(#[trigger] spec_check_container(s, env, ty, f, loc), s, #[trigger] spec_check_container(t, env, ty, f, loc), t),
        forall|s: Checker, t: Checker, x: Rc<Type>, y: Rc<Type>, loc: Loc|
            names_beside_types(s, t) ==> keeps_up(#[trigger] spec_check_operands_agree(s, env, x, y, loc), s, #[trigger] spec_check_operands_agree(t, env, x, y, loc), t),
        forall|s: Checker, t: Checker, op: BinOp, x: Rc<Type>, y: Rc<Type>, loc: Loc|
            names_beside_types(s, t) ==> keeps_up(#[trigger] spec_check_operand_types(s, env, op, x, y, loc), s, #[trigger] spec_check_operand_types(t, env, op, x, y, loc), t),
        forall|s: Checker, t: Checker, x: Rc<Expr>, i: Rc<Expr>, loc: Loc|
            names_beside_types(s, t) ==> keeps_up(#[trigger] spec_check_index_types(s, env, x, i, loc), s, #[trigger] spec_check_index_types(t, env, x, i, loc), t),
        forall|s: Checker, t: Checker, k: TypeRefKind, loc: Loc|
            names_beside_types(s, t) ==> keeps_up(#[trigger] spec_check_type_ref(s, env, k, loc), s, #[trigger] spec_check_type_ref(t, env, k, loc), t),
{
    lemma_reports(env);
    lemma_reports_alone(env);
    assert forall|s: Checker, t: Checker, x: Rc<Type>, y: Rc<Type>| names_beside_types(s, t) implies keeps_up(#[trigger] spec_check_type_eq(s, env, x, y), s, #[trigger] spec_check_type_eq(t, env, x, y), t) by {
        reveal(spec_check_type_eq);
    }
    assert forall|s: Checker, t: Checker, e: Rc<Expr>, ty: Rc<Type>| names_beside_types(s, t) implies keeps_up(#[trigger] spec_check_has_type(s, env, e, ty), s, #[trigger] spec_check_has_type(t, env, e, ty), t) by {
        reveal(spec_check_has_type);
    }
    assert forall|s: Checker, t: Checker, e: Rc<Expr>, x: Rc<Expr>| names_beside_types(s, t) implies keeps_up(#[trigger] spec_check_same_type(s, env, e, x), s, #[trigger] spec_check_same_type(t, env, e, x), t) by {
        reveal(spec_check_same_type);
        let t1 = crate::check::spec_infer_or_report(t, env, x).0;
        let t2 = crate::check::spec_infer_or_report(t1, env, e).0;
        assert(keeps_up(s, s, t1, t));
        assert(keeps_up(s, s, t2, t1));
        match spec_infer_expr(env, x) {
            Some(a) => match spec_infer_expr(env, e) {
                Some(b) => {
                    assert(keeps_up(spec_check_type_eq(s, env, b, a), s, spec_check_type_eq(t2, env, b, a), t2));
                    lemma_keeps_up_alone(spec_check_type_eq(s, env, b, a), s, spec_check_type_eq(t2, env, b, a), t2);
                },
                None => {},
            },
            None => {},
        }
    }
    assert forall|s: Checker, t: Checker, n: Rc<Ident>| names_beside_types(s, t) implies keeps_up(#[trigger] spec_check_var(s, env, n), s, #[trigger] spec_check_var(t, env, n), t) by {
        reveal(spec_check_var);
    }
    assert forall|s: Checker, t: Checker, ty: Rc<Type>, x: Rc<Ident>, loc: Loc| names_beside_types(s, t) implies keeps_up(#[trigger] spec_check_member_of(s, env, ty, x, loc), s, #[trigger] spec_check_member_of(t, env, ty, x, loc), t) by {
        reveal(spec_check_member_of);
    }
    assert forall|s: Checker, t: Checker, ty: Rc<Type>, f: Rc<Ident>, loc: Loc| names_beside_types(s, t) implies keeps_up(#[trigger] spec_check_container(s, env, ty, f, loc), s, #[trigger] spec_check_container(t, env, ty, f, loc), t) by {
        reveal(spec_check_container);
    }
    assert forall|s: Checker, t: Checker, x: Rc<Type>, y: Rc<Type>, loc: Loc| names_beside_types(s, t) implies keeps_up(#[trigger] spec_check_operands_agree(s, env, x, y, loc), s, #[trigger] spec_check_operands_agree(t, env, x, y, loc), t) by {
        reveal(spec_check_operands_agree);
    }
    assert forall|s: Checker, t: Checker, op: BinOp, x: Rc<Type>, y: Rc<Type>, loc: Loc| names_beside_types(s, t) implies keeps_up(#[trigger] spec_check_operand_types(s, env, op, x, y, loc), s, #[trigger] spec_check_operand_types(t, env, op, x, y, loc), t) by {
        reveal(spec_check_operand_types);
    }
    assert forall|s: Checker, t: Checker, x: Rc<Expr>, i: Rc<Expr>, loc: Loc| names_beside_types(s, t) implies keeps_up(#[trigger] spec_check_index_types(s, env, x, i, loc), s, #[trigger] spec_check_index_types(t, env, x, i, loc), t) by {
        reveal(spec_check_index_types);
    }
    assert forall|s: Checker, t: Checker, k: TypeRefKind, loc: Loc| names_beside_types(s, t) implies keeps_up(#[trigger] spec_check_type_ref(s, env, k, loc), s, #[trigger] spec_check_type_ref(t, env, k, loc), t) by {
        reveal(spec_check_type_ref);
    }
}

/// Such a check of types keeps up.
proof fn type_eq_alone(s: Checker, t: Checker, env: Env, x: Rc<Type>, y: Rc<Type>)
    requires
        names_beside_types(s, t),
    ensures
        keeps_up(s, s, spec_check_type_eq(t, env, x, y), t),
{
    lemma_facts(env);
    lemma_keeps_up_alone(spec_check_type_eq(s, env, x, y), s, spec_check_type_eq(t, env, x, y), t);
}

/// Such a check of types keeps up.
proof fn has_type_alone(s: Checker, t: Checker, env: Env, e: Rc<Expr>, ty: Rc<Type>)
    requires
        names_beside_types(s, t),
    ensures
        keeps_up(s, s, spec_check_has_type(t, env, e, ty), t),
{
    lemma_facts(env);
    lemma_keeps_up_alone(spec_check_has_type(s, env, e, ty), s, spec_check_has_type(t, env, e, ty), t);
}

/// Such a check of types keeps up.
proof fn member_of_alone(s: Checker, t: Checker, env: Env, ty: Rc<Type>, x: Rc<Ident>, loc: Loc)
    requires
        names_beside_types(s, t),
    ensures
        keeps_up(s, s, spec_check_member_of(t, env, ty, x, loc), t),
{
    lemma_facts(env);
    lemma_keeps_up_alone(spec_check_member_of(s, env, ty, x, loc), s, spec_check_member_of(t, env, ty, x, loc), t);
}

/// Such a check of types keeps up.
proof fn container_alone(s: Checker, t: Checker, env: Env, ty: Rc<Type>, f: Rc<Ident>, loc: Loc)
    requires
        names_beside_types(s, t),
    ensures
        keeps_up(s, s, spec_check_container(t, env, ty, f, loc), t),
{
    lemma_facts(env);
    lemma_keeps_up_alone(spec_check_container(s, env, ty, f, loc), s, spec_check_container(t, env, ty, f, loc), t);
}

/// Such a check of types keeps up.
proof fn operand_types_alone(s: Checker, t: Checker, env: Env, op: BinOp, x: Rc<Type>, y: Rc<Type>, loc: Loc)
    requires
        names_beside_types(s, t),
    ensures
        keeps_up(s, s, spec_check_operand_types(t, env, op, x, y, loc), t),
{
    lemma_facts(env);
    lemma_keeps_up_alone(spec_check_operand_types(s, env, op, x, y, loc), s, spec_check_operand_types(t, env, op, x, y, loc), t);
}

/// Such a check of types keeps up.
proof fn index_types_alone(s: Checker, t: Checker, env: Env, x: Rc<Expr>, i: Rc<Expr>, loc: Loc)
    requires
        names_beside_types(s, t),
    ensures
        keeps_up(s, s, spec_check_index_types(t, env, x, i, loc), t),
{
    lemma_facts(env);
    lemma_keeps_up_alone(spec_check_index_types(s, env, x, i, loc), s, spec_check_index_types(t, env, x, i, loc), t);
}

/// A report of the check of types keeps up.
proof fn lemma_report_alone(s: Checker, t: Checker, msg: Text, loc: Loc)
    requires
        names_beside_types(s, t),
    ensures
        keeps_up(s, s, crate::check::spec_report(t, msg, loc), t),
{
    reveal(crate::check::spec_report);
    lemma_keeps_up_report(s, t, msg, None, loc);
    lemma_keeps_up_alone(crate::check::spec_report(s, msg, loc), s, crate::check::spec_report(t, msg, loc), t);
}

/// Checking a type keeps up.
proof fn beside_type(s: Checker, t: Checker, env: Env, ty: Rc<Type>)
    requires
        names_beside_types(s, t),
    ensures
        keeps_up(spec_check_type(s, env, ty), s, spec_check_type(t, env, ty), t),
    decreases ty, 0nat,
{
    lemma_facts(env);
    match ty.val {
        TypeT::Pointer(a, _) | TypeT::FixedArray(a, _) | TypeT::FlexArray(a) => {
            beside_type(s, t, env, a);
            let s1 = spec_check_type(s, env, a);
            let t1 = spec_check_type(t, env, a);
        },
        TypeT::Plain(a) | TypeT::Nullable(a) => {
            beside_type(s, t, env, a);
            let s1 = spec_check_type(s, env, a);
            let t1 = spec_check_type(t, env, a);
        },
        TypeT::FnPtr { args, ret } => {
            beside_types_of(s, t, env, args);
            let s1 = spec_check_types_of(s, env, args);
            let t1 = spec_check_types_of(t, env, args);
            beside_type(s1, t1, env, ret);
            let s2 = spec_check_type(s1, env, ret);
            let t2 = spec_check_type(t1, env, ret);
        },
        TypeT::Refine(a, p) | TypeT::RefineAlways(a, p) | TypeT::RefineUninit(a, p) => {
            beside_type(s, t, env, a);
            let s1 = spec_check_type(s, env, a);
            let t1 = spec_check_type(t, env, a);
            beside_slprop(s1, t1, spec_push_this(env, a), p);
            let s2 = spec_check_slprop(s1, spec_push_this(env, a), p);
            let t2 = spec_check_slprop(t1, spec_push_this(env, a), p);
        },
        TypeT::RefineValue(a, x, u, p) => {
            beside_type(s, t, env, a);
            let s1 = spec_check_type(s, env, a);
            let t1 = spec_check_type(t, env, a);
            beside_type(s1, t1, env, u);
            let s2 = spec_check_type(s1, env, u);
            let t2 = spec_check_type(t1, env, u);
            beside_slprop(s2, t2, spec_push_var_decl(spec_push_this(env, a), x, u, LocalDeclKind::RValue), p);
            let s3 = spec_check_slprop(s2, spec_push_var_decl(spec_push_this(env, a), x, u, LocalDeclKind::RValue), p);
            let t3 = spec_check_slprop(t2, spec_push_var_decl(spec_push_this(env, a), x, u, LocalDeclKind::RValue), p);
        },
        _ => {},
    }
}

/// Checking types keeps up.
proof fn beside_types_of(s: Checker, t: Checker, env: Env, l: Rc<List<Type>>)
    requires
        names_beside_types(s, t),
    ensures
        keeps_up(spec_check_types_of(s, env, l), s, spec_check_types_of(t, env, l), t),
    decreases l, 0nat,
{
    match *l {
        List::Cons(h, r) => {
            beside_type(s, t, env, h);
            let s1 = spec_check_type(s, env, h);
            let t1 = spec_check_type(t, env, h);
            beside_types_of(s1, t1, env, r);
            let s2 = spec_check_types_of(s1, env, r);
            let t2 = spec_check_types_of(t1, env, r);
        },
        _ => {},
    }
}

/// Checking a proposition keeps up.
proof fn beside_slprop(s: Checker, t: Checker, env: Env, p: Rc<Expr>)
    requires
        names_beside_types(s, t),
    ensures
        keeps_up(spec_check_slprop(s, env, p), s, spec_check_slprop(t, env, p), t),
    decreases p, 9nat,
{
    lemma_facts(env);
    beside_rvalue(s, t, env, p);
    let s1 = spec_check_rvalue(s, env, p);
    let t1 = spec_check_rvalue(t, env, p);
}

/// Checking a condition keeps up.
proof fn beside_bool(s: Checker, t: Checker, env: Env, p: Rc<Expr>)
    requires
        names_beside_types(s, t),
    ensures
        keeps_up(spec_check_bool(s, env, p), s, spec_check_bool(t, env, p), t),
    decreases p, 9nat,
{
    lemma_facts(env);
    beside_rvalue(s, t, env, p);
    let s1 = spec_check_rvalue(s, env, p);
    let t1 = spec_check_rvalue(t, env, p);
}

/// Checking a place keeps up.
proof fn beside_lvalue(s: Checker, t: Checker, env: Env, e: Rc<Expr>)
    requires
        names_beside_types(s, t),
    ensures
        keeps_up(spec_check_lvalue(s, env, e), s, spec_check_lvalue(t, env, e), t),
    decreases e, 9nat,
{
    lemma_reports(env);
    beside_rvalue(s, t, env, e);
    let s1 = spec_check_rvalue(s, env, e);
    let t1 = spec_check_rvalue(t, env, e);
}

/// Checking an expression keeps up.
proof fn beside_rvalue(s: Checker, t: Checker, env: Env, e: Rc<Expr>)
    requires
        names_beside_types(s, t),
    ensures
        keeps_up(spec_check_rvalue(s, env, e), s, spec_check_rvalue(t, env, e), t),
    decreases e, 8nat,
{
    beside_node(s, t, env, e);
    let s1 = spec_check_node(s, env, e);
    let t1 = spec_check_node(t, env, e);
}

/// Checking expressions keeps up.
proof fn beside_rvalues(s: Checker, t: Checker, env: Env, l: Rc<List<Expr>>)
    requires
        names_beside_types(s, t),
    ensures
        keeps_up(spec_check_rvalues(s, env, l), s, spec_check_rvalues(t, env, l), t),
    decreases l, 0nat,
{
    match *l {
        List::Cons(h, r) => {
            beside_rvalue(s, t, env, h);
            let s1 = spec_check_rvalue(s, env, h);
            let t1 = spec_check_rvalue(t, env, h);
            beside_rvalues(s1, t1, env, r);
            let s2 = spec_check_rvalues(s1, env, r);
            let t2 = spec_check_rvalues(t1, env, r);
        },
        _ => {},
    }
}

/// Checking an expression without residues of errors keeps up.
proof fn beside_node(s: Checker, t: Checker, env: Env, e: Rc<Expr>)
    requires
        names_beside_types(s, t),
    ensures
        keeps_up(spec_check_node(s, env, e), s, spec_check_node(t, env, e), t),
    decreases e, 7nat,
{
    lemma_reports(env);
    lemma_facts(env);
    match e.val {
        ExprT::VAttr(_, a) | ExprT::Live(a) | ExprT::Old(a) | ExprT::Free(a) => {
            beside_rvalue(s, t, env, a);
            let s1 = spec_check_rvalue(s, env, a);
            let t1 = spec_check_rvalue(t, env, a);
        },
        ExprT::PreIncr(a) | ExprT::PostIncr(a) | ExprT::PreDecr(a) | ExprT::PostDecr(a) => {
            beside_lvalue(s, t, env, a);
            let s1 = spec_check_lvalue(s, env, a);
            let t1 = spec_check_lvalue(t, env, a);
        },
        ExprT::Deref(a) => {
            beside_deref(s, t, env, a);
            let s1 = spec_check_deref(s, env, a);
            let t1 = spec_check_deref(t, env, a);
        },
        ExprT::Member(x, a) => {
            beside_rvalue(s, t, env, x);
            let s1 = spec_check_rvalue(s, env, x);
            let t1 = spec_check_rvalue(t, env, x);
            infer_alone(s1, t1, env, x);
            let t2 = crate::check::spec_infer_or_report(t1, env, x).0;
            match spec_infer_expr(env, x) {
                Some(ty) => member_of_alone(s1, t2, env, ty, a, loc_of(e)),
                None => {},
            }
        },
        ExprT::Ref(a) => {
            beside_rvalue(s, t, env, a);
            let s1 = spec_check_rvalue(s, env, a);
            let t1 = spec_check_rvalue(t, env, a);
        },
        ExprT::UnOp(op, a) => {
            beside_unop(s, t, env, op, a, loc_of(e));
            let s1 = spec_check_unop(s, env, op, a, loc_of(e));
            let t1 = spec_check_unop(t, env, op, a, loc_of(e));
        },
        ExprT::BoolLit(_) | ExprT::Var(_) | ExprT::FnRef(_) => {
        },
        _ => beside_compound(s, t, env, e),
    }
}

/// Checking a dereference keeps up.
proof fn beside_deref(s: Checker, t: Checker, env: Env, a: Rc<Expr>)
    requires
        names_beside_types(s, t),
    ensures
        keeps_up(spec_check_deref(s, env, a), s, spec_check_deref(t, env, a), t),
    decreases a, 9nat,
{
    beside_rvalue(s, t, env, a);
    let s1 = spec_check_rvalue(s, env, a);
    let t1 = spec_check_rvalue(t, env, a);
    infer_alone(s1, t1, env, a);
    let t2 = crate::check::spec_infer_or_report(t1, env, a).0;
    match spec_infer_expr(env, a) {
        Some(ty) => lemma_report_alone(s1, t2, spec_cat(spec_lit("not a pointer type: "), spec_show_type(ty)), loc_of(a)),
        None => {},
    }
}

/// Checking a unary operation keeps up.
proof fn beside_unop(s: Checker, t: Checker, env: Env, op: UnOp, a: Rc<Expr>, loc: Loc)
    requires
        names_beside_types(s, t),
    ensures
        keeps_up(spec_check_unop(s, env, op, a, loc), s, spec_check_unop(t, env, op, a, loc), t),
    decreases a, 9nat,
{
    beside_rvalue(s, t, env, a);
    let s1 = spec_check_rvalue(s, env, a);
    let t1 = spec_check_rvalue(t, env, a);
    infer_alone(s1, t1, env, a);
    let t2 = crate::check::spec_infer_or_report(t1, env, a).0;
    match spec_infer_expr(env, a) {
        Some(ty) => lemma_report_alone(s1, t2, spec_cat(spec_lit("! needs to be applied to bool, not "), spec_show_type(ty)), loc),
        None => {},
    }
}

/// Checking an expression with several operands keeps up.
proof fn beside_compound(s: Checker, t: Checker, env: Env, e: Rc<Expr>)
    requires
        names_beside_types(s, t),
    ensures
        keeps_up(spec_check_compound(s, env, e), s, spec_check_compound(t, env, e), t),
    decreases e, 6nat,
{
    lemma_facts(env);
    match e.val {
        ExprT::AssignExpr(a, b) => {
            beside_rvalue(s, t, env, a);
            let s1 = spec_check_rvalue(s, env, a);
            let t1 = spec_check_rvalue(t, env, a);
            beside_rvalue(s1, t1, env, b);
            let s2 = spec_check_rvalue(s1, env, b);
            let t2 = spec_check_rvalue(t1, env, b);
        },
        ExprT::Index(a, b) => {
            beside_rvalue(s, t, env, a);
            let s1 = spec_check_rvalue(s, env, a);
            let t1 = spec_check_rvalue(t, env, a);
            beside_rvalue(s1, t1, env, b);
            let s2 = spec_check_rvalue(s1, env, b);
            let t2 = spec_check_rvalue(t1, env, b);
            index_types_alone(s2, t2, env, a, b, loc_of(e));
        },
        ExprT::BinOp(op, a, b) => {
            beside_rvalue(s, t, env, a);
            let s1 = spec_check_rvalue(s, env, a);
            let t1 = spec_check_rvalue(t, env, a);
            beside_rvalue(s1, t1, env, b);
            let s2 = spec_check_rvalue(s1, env, b);
            let t2 = spec_check_rvalue(t1, env, b);
            infer_alone(s2, t2, env, a);
            let t3 = crate::check::spec_infer_or_report(t2, env, a).0;
            infer_alone(s2, t3, env, b);
            let t4 = crate::check::spec_infer_or_report(t3, env, b).0;
            match spec_infer_expr(env, a) {
                Some(x) => match spec_infer_expr(env, b) {
                    Some(y) => operand_types_alone(s2, t4, env, op, x, y, loc_of(e)),
                    None => {},
                },
                None => {},
            }
        },
        ExprT::Cond(a, b, c) => {
            beside_rvalue(s, t, env, a);
            let s1 = spec_check_rvalue(s, env, a);
            let t1 = spec_check_rvalue(t, env, a);
            beside_rvalue(s1, t1, env, b);
            let s2 = spec_check_rvalue(s1, env, b);
            let t2 = spec_check_rvalue(t1, env, b);
            beside_rvalue(s2, t2, env, c);
            let s3 = spec_check_rvalue(s2, env, c);
            let t3 = spec_check_rvalue(t2, env, c);
        },
        ExprT::FnCall(f, args) => {
            beside_rvalues(s, t, env, args);
            let s1 = spec_check_rvalues(s, env, args);
            let t1 = spec_check_rvalues(t, env, args);
            beside_call(s1, t1, env, f, args, loc_of(e));
            let s2 = spec_check_call(s1, env, f, args, loc_of(e));
            let t2 = spec_check_call(t1, env, f, args, loc_of(e));
        },
        ExprT::FnPtrCall(f, args) => {
            beside_rvalue(s, t, env, f);
            let s1 = spec_check_rvalue(s, env, f);
            let t1 = spec_check_rvalue(t, env, f);
            beside_rvalues(s1, t1, env, args);
            let s2 = spec_check_rvalues(s1, env, args);
            let t2 = spec_check_rvalues(t1, env, args);
        },
        _ => beside_typed(s, t, env, e),
    }
}

/// Checking a literal keeps up.
proof fn beside_typed_literal(s: Checker, t: Checker, env: Env, e: Rc<Expr>)
    requires
        names_beside_types(s, t),
        e.val is IntLit || e.val is FloatLit,
    ensures
        keeps_up(spec_check_typed(s, env, e), s, spec_check_typed(t, env, e), t),
    decreases e, 4nat,
{
    match e.val {
        ExprT::IntLit(_, ty) => {
            beside_type(s, t, env, ty);
            let s1 = spec_check_type(s, env, ty);
            let t1 = spec_check_type(t, env, ty);
            lemma_report_alone(s1, t1, spec_cat(spec_lit("invalid integer type: "), spec_show_type(ty)), loc_of(e));
        },
        ExprT::FloatLit(_, ty) => {
            beside_type(s, t, env, ty);
            let s1 = spec_check_type(s, env, ty);
            let t1 = spec_check_type(t, env, ty);
            lemma_report_alone(s1, t1, spec_cat(spec_lit("invalid floating literal type: "), spec_show_type(ty)), loc_of(e));
        },
        _ => {},
    }
}

/// Checking an expression that only names a type keeps up.
proof fn beside_typed_named(s: Checker, t: Checker, env: Env, e: Rc<Expr>)
    requires
        names_beside_types(s, t),
        e.val is Malloc || e.val is Calloc || e.val is SizeOf || e.val is AlignOf || e.val is Error,
    ensures
        keeps_up(spec_check_typed(s, env, e), s, spec_check_typed(t, env, e), t),
    decreases e, 4nat,
{
    match e.val {
        ExprT::Malloc(ty) | ExprT::Calloc(ty) | ExprT::SizeOf(ty) | ExprT::AlignOf(ty) | ExprT::Error(ty) => {
            beside_type(s, t, env, ty);
            let s1 = spec_check_type(s, env, ty);
            let t1 = spec_check_type(t, env, ty);
        },
        _ => {},
    }
}

/// Checking a cast keeps up.
proof fn beside_typed_cast(s: Checker, t: Checker, env: Env, e: Rc<Expr>)
    requires
        names_beside_types(s, t),
        e.val is Cast,
    ensures
        keeps_up(spec_check_typed(s, env, e), s, spec_check_typed(t, env, e), t),
    decreases e, 4nat,
{
    match e.val {
        ExprT::Cast(a, ty) => {
            beside_rvalue(s, t, env, a);
            let s1 = spec_check_rvalue(s, env, a);
            let t1 = spec_check_rvalue(t, env, a);
            beside_type(s1, t1, env, ty);
            let s2 = spec_check_type(s1, env, ty);
            let t2 = spec_check_type(t1, env, ty);
        },
        _ => {},
    }
}

/// Checking an allocation with a size keeps up.
proof fn beside_typed_sized(s: Checker, t: Checker, env: Env, e: Rc<Expr>)
    requires
        names_beside_types(s, t),
        e.val is MallocArray || e.val is CallocArray || e.val is MallocFlex || e.val is CallocFlex || e.val is MemsetZero,
    ensures
        keeps_up(spec_check_typed(s, env, e), s, spec_check_typed(t, env, e), t),
    decreases e, 4nat,
{
    match e.val {
        ExprT::MallocArray(ty, n) | ExprT::CallocArray(ty, n) | ExprT::MallocFlex(ty, n) => {
            beside_type(s, t, env, ty);
            let s1 = spec_check_type(s, env, ty);
            let t1 = spec_check_type(t, env, ty);
            beside_rvalue(s1, t1, env, n);
            let s2 = spec_check_rvalue(s1, env, n);
            let t2 = spec_check_rvalue(t1, env, n);
        },
        ExprT::CallocFlex(ty, n) | ExprT::MemsetZero(ty, n) => {
            beside_type(s, t, env, ty);
            let s1 = spec_check_type(s, env, ty);
            let t1 = spec_check_type(t, env, ty);
            beside_rvalue(s1, t1, env, n);
            let s2 = spec_check_rvalue(s1, env, n);
            let t2 = spec_check_rvalue(t1, env, n);
        },
        _ => {},
    }
}

/// Checking a quantifier keeps up.
proof fn beside_typed_bound(s: Checker, t: Checker, env: Env, e: Rc<Expr>)
    requires
        names_beside_types(s, t),
        e.val is Forall || e.val is Exists,
    ensures
        keeps_up(spec_check_typed(s, env, e), s, spec_check_typed(t, env, e), t),
    decreases e, 4nat,
{
    match e.val {
        ExprT::Forall(x, ty, b) | ExprT::Exists(x, ty, b) => {
            beside_type(s, t, env, ty);
            let s1 = spec_check_type(s, env, ty);
            let t1 = spec_check_type(t, env, ty);
            beside_rvalue(s1, t1, spec_push_var_decl(env, x, ty, LocalDeclKind::RValue), b);
            let s2 = spec_check_rvalue(s1, spec_push_var_decl(env, x, ty, LocalDeclKind::RValue), b);
            let t2 = spec_check_rvalue(t1, spec_push_var_decl(env, x, ty, LocalDeclKind::RValue), b);
        },
        _ => {},
    }
}

/// Checking an expression with a type keeps up.
proof fn beside_typed(s: Checker, t: Checker, env: Env, e: Rc<Expr>)
    requires
        names_beside_types(s, t),
    ensures
        keeps_up(spec_check_typed(s, env, e), s, spec_check_typed(t, env, e), t),
    decreases e, 5nat,
{
    match e.val {
        ExprT::IntLit(..) | ExprT::FloatLit(..) => beside_typed_literal(s, t, env, e),
        ExprT::Malloc(..) | ExprT::Calloc(..) | ExprT::SizeOf(..) | ExprT::AlignOf(..) | ExprT::Error(..) => beside_typed_named(s, t, env, e),
        ExprT::Cast(..) => beside_typed_cast(s, t, env, e),
        ExprT::MallocArray(..) | ExprT::CallocArray(..) | ExprT::MallocFlex(..) | ExprT::CallocFlex(..) | ExprT::MemsetZero(..) => beside_typed_sized(s, t, env, e),
        ExprT::Forall(..) | ExprT::Exists(..) => beside_typed_bound(s, t, env, e),
        _ => beside_mixed(s, t, env, e),
    }
}

/// Checking an initializer, an access to memory or inline code keeps up.
proof fn beside_mixed(s: Checker, t: Checker, env: Env, e: Rc<Expr>)
    requires
        names_beside_types(s, t),
    ensures
        keeps_up(spec_check_mixed(s, env, e), s, spec_check_mixed(t, env, e), t),
    decreases e, 4nat,
{
    lemma_facts(env);
    match e.val {
        ExprT::Memset(ty, p, v, n) => {
            beside_type(s, t, env, ty);
            let s1 = spec_check_type(s, env, ty);
            let t1 = spec_check_type(t, env, ty);
            beside_rvalue(s1, t1, env, p);
            let s2 = spec_check_rvalue(s1, env, p);
            let t2 = spec_check_rvalue(t1, env, p);
            beside_rvalue(s2, t2, env, v);
            let s3 = spec_check_rvalue(s2, env, v);
            let t3 = spec_check_rvalue(t2, env, v);
            beside_rvalue(s3, t3, env, n);
            let s4 = spec_check_rvalue(s3, env, n);
            let t4 = spec_check_rvalue(t3, env, n);
        },
        ExprT::ContainerOf(p, ty, f) => {
            beside_rvalue(s, t, env, p);
            let s1 = spec_check_rvalue(s, env, p);
            let t1 = spec_check_rvalue(t, env, p);
            beside_type(s1, t1, env, ty);
            let s2 = spec_check_type(s1, env, ty);
            let t2 = spec_check_type(t1, env, ty);
            container_alone(s2, t2, env, ty, f, loc_of(e));
        },
        ExprT::InlinePulse(code, ty) => {
            beside_type(s, t, env, ty);
            let s1 = spec_check_type(s, env, ty);
            let t1 = spec_check_type(t, env, ty);
            beside_tokens(s1, t1, env, code_tokens(code));
            let s2 = spec_check_tokens(s1, env, code_tokens(code));
            let t2 = spec_check_tokens(t1, env, code_tokens(code));
        },
        ExprT::ArrayInit { elem_ty, elems, .. } => {
            beside_type(s, t, env, elem_ty);
            let s1 = spec_check_type(s, env, elem_ty);
            let t1 = spec_check_type(t, env, elem_ty);
            beside_rvalues(s1, t1, env, elems);
            let s2 = spec_check_rvalues(s1, env, elems);
            let t2 = spec_check_rvalues(t1, env, elems);
        },
        ExprT::StructInit(_, _) => {
            beside_struct_init(s, t, env, e);
            let s1 = spec_check_struct_init(s, env, e);
            let t1 = spec_check_struct_init(t, env, e);
        },
        ExprT::UnionInit(_, _, _) => {
            beside_union_init(s, t, env, e);
            let s1 = spec_check_union_init(s, env, e);
            let t1 = spec_check_union_init(t, env, e);
        },
        _ => {},
    }
}

/// Checking a struct literal keeps up.
proof fn beside_struct_init(s: Checker, t: Checker, env: Env, e: Rc<Expr>)
    requires
        names_beside_types(s, t),
    ensures
        keeps_up(spec_check_struct_init(s, env, e), s, spec_check_struct_init(t, env, e), t),
    decreases e, 3nat,
{
    lemma_reports(env);
    match e.val {
        ExprT::StructInit(name, inits) => match spec_lookup_struct(env, name) {
            Some(d) => {
                beside_inits(s, t, env, d, inits, loc_of(e));
                lemma_keeps_up_alone(
                    spec_check_inits(s, env, d, inits, loc_of(e)),
                    s,
                    spec_check_inits(t, env, d, inits, loc_of(e)),
                    t,
                );
                let count = spec_cat(
                    spec_cat4(spec_lit("struct "), ident_text(name), spec_lit(" has "), spec_num(spec_list_len(struct_fields(d)))),
                    spec_cat3(spec_lit(" fields, but "), spec_num(spec_list_len(inits)), spec_lit(" were given")),
                );
                let t1 = crate::check::spec_report(t, count, loc_of(e));
                lemma_report_alone(s, t, count, loc_of(e));
                beside_inits(s, t1, env, d, inits, loc_of(e));
                lemma_keeps_up_alone(
                    spec_check_inits(s, env, d, inits, loc_of(e)),
                    s,
                    spec_check_inits(t1, env, d, inits, loc_of(e)),
                    t1,
                );
            },
            None => {},
        },
        _ => {},
    }
}

/// Checking a union literal keeps up.
proof fn beside_union_init(s: Checker, t: Checker, env: Env, e: Rc<Expr>)
    requires
        names_beside_types(s, t),
    ensures
        keeps_up(spec_check_union_init(s, env, e), s, spec_check_union_init(t, env, e), t),
    decreases e, 3nat,
{
    lemma_reports(env);
    match e.val {
        ExprT::UnionInit(name, fld, v) => {
            beside_rvalue(s, t, env, v);
            lemma_keeps_up_alone(spec_check_rvalue(s, env, v), s, spec_check_rvalue(t, env, v), t);
            let t1 = spec_check_rvalue(t, env, v);
            match spec_lookup_union(env, name) {
                Some(u) => match spec_find_field(union_fields(u), fld) {
                    Some(f) => has_type_alone(s, t1, env, v, spec_field_type(f)),
                    None => lemma_report_alone(
                        s,
                        t1,
                        spec_cat4(spec_lit("no field "), ident_text(fld), spec_lit(" in union "), ident_text(name)),
                        loc_of(e),
                    ),
                },
                None => {},
            }
        },
        _ => {},
    }
}

/// Checking the value of a field keeps up.
proof fn beside_init(s: Checker, t: Checker, env: Env, d: Rc<StructDefn>, i: Rc<FieldInit>, loc: Loc)
    requires
        names_beside_types(s, t),
    ensures
        keeps_up(spec_check_init(s, env, d, i, loc), s, spec_check_init(t, env, d, i, loc), t),
    decreases i, 0nat,
{
    lemma_reports(env);
    lemma_facts(env);
    beside_rvalue(s, t, env, init_value(i));
    let s1 = spec_check_rvalue(s, env, init_value(i));
    let t1 = spec_check_rvalue(t, env, init_value(i));
}

/// Checking the values of fields keeps up.
proof fn beside_inits(s: Checker, t: Checker, env: Env, d: Rc<StructDefn>, l: Rc<List<FieldInit>>, loc: Loc)
    requires
        names_beside_types(s, t),
    ensures
        keeps_up(spec_check_inits(s, env, d, l, loc), s, spec_check_inits(t, env, d, l, loc), t),
    decreases l, 0nat,
{
    match *l {
        List::Cons(h, r) => {
            beside_init(s, t, env, d, h, loc);
            let s1 = spec_check_init(s, env, d, h, loc);
            let t1 = spec_check_init(t, env, d, h, loc);
            beside_inits(s1, t1, env, d, r, loc);
            let s2 = spec_check_inits(s1, env, d, r, loc);
            let t2 = spec_check_inits(t1, env, d, r, loc);
        },
        _ => {},
    }
}

/// Checking a token of inline code keeps up.
proof fn beside_token(s: Checker, t: Checker, env: Env, tok: Rc<InlinePulseToken>)
    requires
        names_beside_types(s, t),
    ensures
        keeps_up(spec_check_token(s, env, tok), s, spec_check_token(t, env, tok), t),
    decreases tok, 0nat,
{
    match *tok {
        InlinePulseToken::RValueAntiquot { expr, .. } | InlinePulseToken::LValueAntiquot { expr, .. } => {
            beside_rvalue(s, t, env, expr);
            let s1 = spec_check_rvalue(s, env, expr);
            let t1 = spec_check_rvalue(t, env, expr);
        },
        InlinePulseToken::TypeAntiquot { ty, .. } | InlinePulseToken::Declare { ty, .. } => {
            beside_type(s, t, env, ty);
            let s1 = spec_check_type(s, env, ty);
            let t1 = spec_check_type(t, env, ty);
        },
        _ => {},
    }
}

/// Checking inline code keeps up.
proof fn beside_tokens(s: Checker, t: Checker, env: Env, l: Rc<List<InlinePulseToken>>)
    requires
        names_beside_types(s, t),
    ensures
        keeps_up(spec_check_tokens(s, env, l), s, spec_check_tokens(t, env, l), t),
    decreases l, 0nat,
{
    match *l {
        List::Cons(h, r) => {
            beside_token(s, t, env, h);
            let s1 = spec_check_token(s, env, h);
            let t1 = spec_check_token(t, env, h);
            match *h {
                InlinePulseToken::Declare { ident, ty } => {
                    let k = LocalDeclKind::RValue;
                    beside_tokens(s1, t1, spec_push_var_decl(env, ident, ty, k), r);
                },
                _ => beside_tokens(s1, t1, env, r),
            }
        },
        _ => {},
    }
}

/// Checking the types of arguments keeps up.
proof fn beside_arg_types(s: Checker, t: Checker, env: Env, ps: Rc<List<FnArg>>, l: Rc<List<Expr>>)
    requires
        names_beside_types(s, t),
    ensures
        keeps_up(spec_check_arg_types(s, env, ps, l), s, spec_check_arg_types(t, env, ps, l), t),
    decreases l,
{
    lemma_facts(env);
    match *ps {
        List::Cons(p, q) => match *l {
            List::Cons(a, r) => {
                let s1 = spec_check_has_type(s, env, a, arg_type(p));
                let t1 = spec_check_has_type(t, env, a, arg_type(p));
                assert(keeps_up(s1, s, t1, t));
                beside_arg_types(s1, t1, env, q, r);
            },
            _ => {},
        },
        _ => {},
    }
}

/// Checking a call keeps up.
proof fn beside_call(s: Checker, t: Checker, env: Env, f: Rc<Ident>, args: Rc<List<Expr>>, loc: Loc)
    requires
        names_beside_types(s, t),
    ensures
        keeps_up(spec_check_call(s, env, f, args, loc), s, spec_check_call(t, env, f, args, loc), t),
    decreases args, 0nat,
{
    lemma_reports(env);
    reveal(spec_check_call);
    match spec_lookup_fn(env, f) {
        Some(d) => {
            beside_arg_types(s, t, env, fn_args(d), args);
            let count = spec_cat4(
                spec_lit("incorrect number of arguments, expected "),
                spec_num(spec_list_len(fn_args(d))),
                spec_lit(", got "),
                spec_num(spec_list_len(args)),
            );
            let s1 = crate::check::spec_report(s, count, loc);
            let t1 = crate::check::spec_report(t, count, loc);
            assert(keeps_up(s1, s, t1, t));
            beside_arg_types(s1, t1, env, fn_args(d), args);
        },
        None => {},
    }
}

/// Checking propositions keeps up.
proof fn beside_slprops(s: Checker, t: Checker, env: Env, l: Rc<List<Expr>>)
    requires
        names_beside_types(s, t),
    ensures
        keeps_up(spec_check_slprops(s, env, l), s, spec_check_slprops(t, env, l), t),
    decreases l,
{
    match *l {
        List::Cons(h, r) => {
            beside_slprop(s, t, env, h);
            let s1 = spec_check_slprop(s, env, h);
            let t1 = spec_check_slprop(t, env, h);
            beside_slprops(s1, t1, env, r);
            let s2 = spec_check_slprops(s1, env, r);
            let t2 = spec_check_slprops(t1, env, r);
        },
        _ => {},
    }
}

/// Checking conditions keeps up.
proof fn beside_bools(s: Checker, t: Checker, env: Env, l: Rc<List<Expr>>)
    requires
        names_beside_types(s, t),
    ensures
        keeps_up(spec_check_bools(s, env, l), s, spec_check_bools(t, env, l), t),
    decreases l,
{
    match *l {
        List::Cons(h, r) => {
            beside_bool(s, t, env, h);
            let s1 = spec_check_bool(s, env, h);
            let t1 = spec_check_bool(t, env, h);
            beside_bools(s1, t1, env, r);
            let s2 = spec_check_bools(s1, env, r);
            let t2 = spec_check_bools(t1, env, r);
        },
        _ => {},
    }
}

/// Checking patterns keeps up.
proof fn beside_patterns(s: Checker, t: Checker, env: Env, x: Option<Rc<Type>>, l: Rc<List<Expr>>)
    requires
        names_beside_types(s, t),
    ensures
        keeps_up(spec_check_patterns(s, env, x, l), s, spec_check_patterns(t, env, x, l), t),
    decreases l,
{
    match *l {
        List::Cons(h, r) => {
            beside_rvalue(s, t, env, h);
            let s1 = spec_check_rvalue(s, env, h);
            let t1 = spec_check_rvalue(t, env, h);
            beside_patterns(s1, t1, env, x, r);
            let t2 = crate::check::spec_infer_or_report(t1, env, h).0;
            infer_alone(s1, t1, env, h);
            beside_patterns(s1, t2, env, x, r);
            match x {
                Some(a) => match spec_infer_expr(env, h) {
                    Some(b) => {
                        let t3 = spec_check_type_eq(t2, env, b, a);
                        type_eq_alone(s1, t2, env, b, a);
                        beside_patterns(s1, t3, env, x, r);
                    },
                    None => {},
                },
                None => {},
            }
        },
        _ => {},
    }
}

/// Checking a branch keeps up.
proof fn beside_branch(s: Checker, t: Checker, env: Env, x: Option<Rc<Type>>, b: Rc<Branch>)
    requires
        names_beside_types(s, t),
    ensures
        keeps_up(spec_check_branch(s, env, x, b), s, spec_check_branch(t, env, x, b), t),
    decreases b, 0nat,
{
    beside_patterns(s, t, env, x, branch_patterns(b));
    let s1 = spec_check_patterns(s, env, x, branch_patterns(b));
    let t1 = spec_check_patterns(t, env, x, branch_patterns(b));
    beside_stmts(s1, t1, env, branch_body(b));
    let s2 = spec_check_stmts(s1, env, branch_body(b));
    let t2 = spec_check_stmts(t1, env, branch_body(b));
}

/// Checking branches keeps up.
proof fn beside_branches(s: Checker, t: Checker, env: Env, x: Option<Rc<Type>>, l: Rc<List<Branch>>)
    requires
        names_beside_types(s, t),
    ensures
        keeps_up(spec_check_branches(s, env, x, l), s, spec_check_branches(t, env, x, l), t),
    decreases l, 0nat,
{
    match *l {
        List::Cons(h, r) => {
            beside_branch(s, t, env, x, h);
            let s1 = spec_check_branch(s, env, x, h);
            let t1 = spec_check_branch(t, env, x, h);
            beside_branches(s1, t1, env, x, r);
            let s2 = spec_check_branches(s1, env, x, r);
            let t2 = spec_check_branches(t1, env, x, r);
        },
        _ => {},
    }
}

/// Checking a statement keeps up.
proof fn beside_stmt(s: Checker, t: Checker, env: Env, m: Rc<Stmt>)
    requires
        names_beside_types(s, t),
    ensures
        keeps_up(spec_check_stmt(s, env, m), s, spec_check_stmt(t, env, m), t),
    decreases m, 2nat,
{
    lemma_reports(env);
    lemma_facts(env);
    match m.val {
        StmtT::Call(e) => {
            beside_rvalue(s, t, env, e);
            let s1 = spec_check_rvalue(s, env, e);
            let t1 = spec_check_rvalue(t, env, e);
        },
        StmtT::Decl(_, ty) => {
            beside_type(s, t, env, ty);
            let s1 = spec_check_type(s, env, ty);
            let t1 = spec_check_type(t, env, ty);
        },
        StmtT::Let(_, ty, e) => {
            beside_type(s, t, env, ty);
            let s1 = spec_check_type(s, env, ty);
            let t1 = spec_check_type(t, env, ty);
            beside_rvalue(s1, t1, env, e);
            let s2 = spec_check_rvalue(s1, env, e);
            let t2 = spec_check_rvalue(t1, env, e);
            infer_alone(s2, t2, env, e);
            let t3 = crate::check::spec_infer_or_report(t2, env, e).0;
            match spec_infer_expr(env, e) {
                Some(x) => type_eq_alone(s2, t3, env, x, ty),
                None => {},
            }
        },
        StmtT::DeclStackArray { elem_type, size, .. } => {
            beside_type(s, t, env, elem_type);
            let s1 = spec_check_type(s, env, elem_type);
            let t1 = spec_check_type(t, env, elem_type);
            beside_rvalue(s1, t1, env, size);
            let s2 = spec_check_rvalue(s1, env, size);
            let t2 = spec_check_rvalue(t1, env, size);
        },
        StmtT::Assign(x, v) => {
            beside_lvalue(s, t, env, x);
            let s1 = spec_check_lvalue(s, env, x);
            let t1 = spec_check_lvalue(t, env, x);
            beside_rvalue(s1, t1, env, v);
            let s2 = spec_check_rvalue(s1, env, v);
            let t2 = spec_check_rvalue(t1, env, v);
        },
        StmtT::Return(Some(v)) => {
            beside_rvalue(s, t, env, v);
            let s1 = spec_check_rvalue(s, env, v);
            let t1 = spec_check_rvalue(t, env, v);
        },
        StmtT::Assert(v) => {
            beside_slprop(s, t, env, v);
            let s1 = spec_check_slprop(s, env, v);
            let t1 = spec_check_slprop(t, env, v);
        },
        StmtT::GhostStmt(code) => {
            beside_tokens(s, t, env, code_tokens(code));
            let s1 = spec_check_tokens(s, env, code_tokens(code));
            let t1 = spec_check_tokens(t, env, code_tokens(code));
        },
        StmtT::Label { ensures_, .. } => {
            beside_slprops(s, t, env, ensures_);
            let s1 = spec_check_slprops(s, env, ensures_);
            let t1 = spec_check_slprops(t, env, ensures_);
        },
        StmtT::Break | StmtT::Continue | StmtT::Return(None) | StmtT::Goto(_) | StmtT::Error => {
        },
        _ => beside_block_stmt(s, t, env, m),
    }
}

/// Checking a statement that holds others keeps up.
proof fn beside_block_stmt(s: Checker, t: Checker, env: Env, m: Rc<Stmt>)
    requires
        names_beside_types(s, t),
    ensures
        keeps_up(spec_check_block_stmt(s, env, m), s, spec_check_block_stmt(t, env, m), t),
    decreases m, 1nat,
{
    lemma_reports(env);
    match m.val {
        StmtT::If { cond, then_branch, else_branch, ensures_ } => {
            beside_bool(s, t, env, cond);
            let s1 = spec_check_bool(s, env, cond);
            let t1 = spec_check_bool(t, env, cond);
            beside_slprops(s1, t1, env, ensures_);
            let s2 = spec_check_slprops(s1, env, ensures_);
            let t2 = spec_check_slprops(t1, env, ensures_);
            beside_stmts(s2, t2, env, then_branch);
            let s3 = spec_check_stmts(s2, env, then_branch);
            let t3 = spec_check_stmts(t2, env, then_branch);
            beside_stmts(s3, t3, env, else_branch);
            let s4 = spec_check_stmts(s3, env, else_branch);
            let t4 = spec_check_stmts(t3, env, else_branch);
        },
        StmtT::Match { scrutinee, branches, default_branch, ensures_ } => {
            beside_rvalue(s, t, env, scrutinee);
            let s1 = spec_check_rvalue(s, env, scrutinee);
            let t1 = spec_check_rvalue(t, env, scrutinee);
            let x = spec_infer_expr(env, scrutinee);
            let s2 = crate::check::spec_infer_or_report(s1, env, scrutinee).0;
            let t2 = crate::check::spec_infer_or_report(t1, env, scrutinee).0;
            assert(keeps_up(s2, s1, t2, t1));
            beside_branches(s2, t2, env, x, branches);
            let s3 = spec_check_branches(s2, env, x, branches);
            let t3 = spec_check_branches(t2, env, x, branches);
            beside_stmts(s3, t3, env, default_branch);
            let s4 = spec_check_stmts(s3, env, default_branch);
            let t4 = spec_check_stmts(t3, env, default_branch);
            beside_slprops(s4, t4, env, ensures_);
        },
        StmtT::While { cond, inv, requires_, ensures_, body } => {
            beside_bool(s, t, env, cond);
            let s1 = spec_check_bool(s, env, cond);
            let t1 = spec_check_bool(t, env, cond);
            beside_slprops(s1, t1, env, inv);
            let s2 = spec_check_slprops(s1, env, inv);
            let t2 = spec_check_slprops(t1, env, inv);
            beside_bools(s2, t2, env, requires_);
            let s3 = spec_check_bools(s2, env, requires_);
            let t3 = spec_check_bools(t2, env, requires_);
            beside_bools(s3, t3, env, ensures_);
            let s4 = spec_check_bools(s3, env, ensures_);
            let t4 = spec_check_bools(t3, env, ensures_);
            beside_stmts(s4, t4, spec_enter_loop(env), body);
            let s5 = spec_check_stmts(s4, spec_enter_loop(env), body);
            let t5 = spec_check_stmts(t4, spec_enter_loop(env), body);
        },
        StmtT::GotoBlock { body, ensures_, .. } => {
            beside_stmts(s, t, env, body);
            let s1 = spec_check_stmts(s, env, body);
            let t1 = spec_check_stmts(t, env, body);
            beside_slprops(s1, t1, env, ensures_);
            let s2 = spec_check_slprops(s1, env, ensures_);
            let t2 = spec_check_slprops(t1, env, ensures_);
        },
        _ => {},
    }
}

/// Checking statements keeps up.
proof fn beside_stmts(s: Checker, t: Checker, env: Env, l: Rc<List<Stmt>>)
    requires
        names_beside_types(s, t),
    ensures
        keeps_up(spec_check_stmts(s, env, l), s, spec_check_stmts(t, env, l), t),
    decreases l, 3nat,
{
    match *l {
        List::Cons(h, r) => {
            beside_stmt(s, t, env, h);
            let s1 = spec_check_stmt(s, env, h);
            let t1 = spec_check_stmt(t, env, h);
            beside_stmts(s1, t1, spec_push_stmt(env, h), r);
            let s2 = spec_check_stmts(s1, spec_push_stmt(env, h), r);
            let t2 = spec_check_stmts(t1, spec_push_stmt(env, h), r);
        },
        _ => {},
    }
}

/// Checking ghost parameters keeps up.
proof fn beside_ghost_args(s: Checker, t: Checker, env: Env, l: Rc<List<GhostArg>>)
    requires
        names_beside_types(s, t),
    ensures
        keeps_up(spec_check_ghost_args(s, env, l), s, spec_check_ghost_args(t, env, l), t),
    decreases l,
{
    match *l {
        List::Cons(h, r) => {
            beside_type(s, t, env, ghost_type(h));
            let s1 = spec_check_type(s, env, ghost_type(h));
            let t1 = spec_check_type(t, env, ghost_type(h));
            beside_ghost_args(s1, t1, spec_push_var_decl(env, ghost_name(h), ghost_type(h), LocalDeclKind::RValue), r);
            let s2 = spec_check_ghost_args(s1, spec_push_var_decl(env, ghost_name(h), ghost_type(h), LocalDeclKind::RValue), r);
            let t2 = spec_check_ghost_args(t1, spec_push_var_decl(env, ghost_name(h), ghost_type(h), LocalDeclKind::RValue), r);
        },
        _ => {},
    }
}

/// Checking parameters keeps up.
proof fn beside_args(s: Checker, t: Checker, env: Env, l: Rc<List<FnArg>>)
    requires
        names_beside_types(s, t),
    ensures
        keeps_up(spec_check_args(s, env, l), s, spec_check_args(t, env, l), t),
    decreases l,
{
    match *l {
        List::Cons(h, r) => {
            beside_type(s, t, env, arg_type(h));
            let s1 = spec_check_type(s, env, arg_type(h));
            let t1 = spec_check_type(t, env, arg_type(h));
            beside_args(s1, t1, spec_push_arg(env, h, LocalDeclKind::RValue), r);
            let s2 = spec_check_args(s1, spec_push_arg(env, h, LocalDeclKind::RValue), r);
            let t2 = spec_check_args(t1, spec_push_arg(env, h, LocalDeclKind::RValue), r);
        },
        _ => {},
    }
}

/// Checking the types of parameters keeps up.
proof fn beside_param_types(s: Checker, t: Checker, env: Env, l: Rc<List<FnArg>>)
    requires
        names_beside_types(s, t),
    ensures
        keeps_up(spec_check_param_types(s, env, l), s, spec_check_param_types(t, env, l), t),
    decreases l,
{
    match *l {
        List::Cons(h, r) => {
            beside_type(s, t, env, arg_type(h));
            let s1 = spec_check_type(s, env, arg_type(h));
            let t1 = spec_check_type(t, env, arg_type(h));
            beside_param_types(s1, t1, env, r);
            let s2 = spec_check_param_types(s1, env, r);
            let t2 = spec_check_param_types(t1, env, r);
        },
        _ => {},
    }
}

/// Checking a signature and its contract keeps up.
proof fn beside_fn_decl(s: Checker, t: Checker, env: Env, d: Rc<FnDecl>)
    requires
        names_beside_types(s, t),
    ensures
        keeps_up(spec_check_fn_decl(s, env, d), s, spec_check_fn_decl(t, env, d), t),
{
    reveal(spec_check_fn_decl);
    let env1 = spec_push_ghost_args(env, fn_ghost_args(d));
    let env2 = spec_push_args(env1, fn_args(d), LocalDeclKind::RValue);
    let env3 = spec_push_return(env2, fn_result(d));
    beside_ghost_args(s, t, env, fn_ghost_args(d));
    let s1 = spec_check_ghost_args(s, env, fn_ghost_args(d));
    let t1 = spec_check_ghost_args(t, env, fn_ghost_args(d));
    beside_args(s1, t1, env1, fn_args(d));
    let s2 = spec_check_args(s1, env1, fn_args(d));
    let t2 = spec_check_args(t1, env1, fn_args(d));
    beside_slprops(s2, t2, env2, fn_requires(d));
    let s3 = spec_check_slprops(s2, env2, fn_requires(d));
    let t3 = spec_check_slprops(t2, env2, fn_requires(d));
    beside_type(s3, t3, env2, fn_result(d));
    let s4 = spec_check_type(s3, env2, fn_result(d));
    let t4 = spec_check_type(t3, env2, fn_result(d));
    beside_slprops(s4, t4, env3, fn_ensures(d));
    let s5 = spec_check_slprops(s4, env3, fn_ensures(d));
    let t5 = spec_check_slprops(t4, env3, fn_ensures(d));
    match fn_measure(d) {
        Some(e) => beside_rvalue(s5, t5, env3, e),
        None => {},
    }
}

/// Checking fields keeps up.
proof fn beside_fields(s: Checker, t: Checker, env: Env, l: Rc<List<Field>>, all: Rc<List<Field>>)
    requires
        names_beside_types(s, t),
    ensures
        keeps_up(spec_check_fields(s, env, l, all), s, spec_check_fields(t, env, l, all), t),
    decreases l,
{
    match *l {
        List::Cons(h, r) => {
            beside_type(s, t, spec_field_env(env, h, all), spec_field_type(h));
            let s1 = spec_check_type(s, spec_field_env(env, h, all), spec_field_type(h));
            let t1 = spec_check_type(t, spec_field_env(env, h, all), spec_field_type(h));
            beside_fields(s1, t1, env, r, all);
            let s2 = spec_check_fields(s1, env, r, all);
            let t2 = spec_check_fields(t1, env, r, all);
        },
        _ => {},
    }
}

/// Checking a declaration keeps up.
proof fn beside_decl(s: Checker, t: Checker, env: Env, d: Rc<Decl>)
    requires
        names_beside_types(s, t),
    ensures
        keeps_up(spec_check_decl(s, env, d), s, spec_check_decl(t, env, d), t),
{
    reveal(spec_check_decl);
    match d.val {
        DeclT::FnDefn(f) => {
            beside_fn_decl(s, t, env, defn_signature(f));
            let s1 = spec_check_fn_decl(s, env, defn_signature(f));
            let t1 = spec_check_fn_decl(t, env, defn_signature(f));
            beside_stmts(s1, t1, spec_push_fn_decl_args_for_body(env, defn_signature(f)), fn_body(f));
            let s2 = spec_check_stmts(s1, spec_push_fn_decl_args_for_body(env, defn_signature(f)), fn_body(f));
            let t2 = spec_check_stmts(t1, spec_push_fn_decl_args_for_body(env, defn_signature(f)), fn_body(f));
        },
        DeclT::FnDecl(f) => {
            beside_fn_decl(s, t, env, f);
            let s1 = spec_check_fn_decl(s, env, f);
            let t1 = spec_check_fn_decl(t, env, f);
        },
        DeclT::Typedef(a) => {
            beside_type(s, t, env, typedef_body(a));
            let s1 = spec_check_type(s, env, typedef_body(a));
            let t1 = spec_check_type(t, env, typedef_body(a));
        },
        DeclT::StructDefn(a) => {
            beside_type(s, t, env, struct_refinement(a));
            let s1 = spec_check_type(s, env, struct_refinement(a));
            let t1 = spec_check_type(t, env, struct_refinement(a));
            beside_fields(s1, t1, env, struct_fields(a), struct_fields(a));
            let s2 = spec_check_fields(s1, env, struct_fields(a), struct_fields(a));
            let t2 = spec_check_fields(t1, env, struct_fields(a), struct_fields(a));
        },
        DeclT::UnionDefn(a) => {
            beside_fields(s, t, env, union_fields(a), union_fields(a));
            let s1 = spec_check_fields(s, env, union_fields(a), union_fields(a));
            let t1 = spec_check_fields(t, env, union_fields(a), union_fields(a));
        },
        DeclT::OpaqueTypeDecl(a) => {
            beside_tokens(s, t, env, opaque_tokens(a));
            let s1 = spec_check_tokens(s, env, opaque_tokens(a));
            let t1 = spec_check_tokens(t, env, opaque_tokens(a));
        },
        DeclT::LetDecl(a) => {
            let env2 = spec_push_args(env, let_params(a), LocalDeclKind::LValue);
            beside_type(s, t, env, let_type(a));
            let s1 = spec_check_type(s, env, let_type(a));
            let t1 = spec_check_type(t, env, let_type(a));
            beside_param_types(s1, t1, env, let_params(a));
            let s2 = spec_check_param_types(s1, env, let_params(a));
            let t2 = spec_check_param_types(t1, env, let_params(a));
            beside_rvalues(s2, t2, env2, let_requires(a));
            let s3 = spec_check_rvalues(s2, env2, let_requires(a));
            let t3 = spec_check_rvalues(t2, env2, let_requires(a));
            beside_rvalues(s3, t3, env2, let_ensures(a));
            let s4 = spec_check_rvalues(s3, env2, let_ensures(a));
            let t4 = spec_check_rvalues(t3, env2, let_ensures(a));
            beside_rvalue(s4, t4, env2, let_body(a));
            let s5 = spec_check_rvalue(s4, env2, let_body(a));
            let t5 = spec_check_rvalue(t4, env2, let_body(a));
        },
        DeclT::GlobalVar(g) => {
            beside_type(s, t, env, global_type(g));
            let s1 = spec_check_type(s, env, global_type(g));
            let t1 = spec_check_type(t, env, global_type(g));
            match global_init(g) {
                Some(e) => beside_rvalue(s1, t1, env, e),
                None => {},
            }
        },
        _ => {},
    }
}

/// Checking declarations keeps up.
proof fn beside_decls(s: Checker, t: Checker, env: Env, l: Rc<List<Decl>>)
    requires
        names_beside_types(s, t),
    ensures
        keeps_up(spec_check_decls(s, env, l), s, spec_check_decls(t, env, l), t),
    decreases l,
{
    match *l {
        List::Cons(h, r) => {
            let env1 = spec_enter_decl(env, h);
            beside_decl(s, t, env1, h);
            let s1 = spec_check_decl(s, env1, h);
            let t1 = spec_check_decl(t, env1, h);
            beside_decls(s1, t1, spec_push_decl(env1, h), r);
            let s2 = spec_check_decls(s1, spec_push_decl(env1, h), r);
            let t2 = spec_check_decls(t1, spec_push_decl(env1, h), r);
        },
        _ => {},
    }
}

/// The place of an expression.
pub open spec fn loc_of(e: Rc<Expr>) -> Loc {
    e.loc
}

/// The fields of a struct.
pub open spec fn struct_fields(d: Rc<StructDefn>) -> Rc<List<Field>> {
    d.fields
}

/// The refinement of a struct.
pub open spec fn struct_refinement(d: Rc<StructDefn>) -> Rc<Type> {
    d.refines
}

/// The fields of a union.
pub open spec fn union_fields(d: Rc<UnionDefn>) -> Rc<List<Field>> {
    d.fields
}

/// The type of a parameter.
pub open spec fn arg_type(a: Rc<FnArg>) -> Rc<Type> {
    a.ty
}

/// The type of a ghost parameter.
pub open spec fn ghost_type(a: Rc<GhostArg>) -> Rc<Type> {
    a.ty
}

/// The name of a ghost parameter.
pub open spec fn ghost_name(a: Rc<GhostArg>) -> Rc<Ident> {
    a.name
}

/// The patterns of a branch.
pub open spec fn branch_patterns(b: Rc<Branch>) -> Rc<List<Expr>> {
    b.patterns
}

/// The type of a function's result.
pub open spec fn fn_result(f: Rc<FnDecl>) -> Rc<Type> {
    f.ret_type
}

/// The measure of a function.
pub open spec fn fn_measure(f: Rc<FnDecl>) -> Option<Rc<Expr>> {
    f.decreases_
}

/// The code of an opaque type.
pub open spec fn opaque_tokens(o: Rc<OpaqueTypeDecl>) -> Rc<List<InlinePulseToken>> {
    o.code.tokens
}

/// The parameters of a specification function.
pub open spec fn let_params(l: Rc<LetDecl>) -> Rc<List<FnArg>> {
    l.params
}

/// The type of a specification function's result.
pub open spec fn let_type(l: Rc<LetDecl>) -> Rc<Type> {
    l.ret_type
}

/// The precondition of a specification function.
pub open spec fn let_requires(l: Rc<LetDecl>) -> Rc<List<Expr>> {
    l.requires_
}

/// The postcondition of a specification function.
pub open spec fn let_ensures(l: Rc<LetDecl>) -> Rc<List<Expr>> {
    l.ensures_
}

/// The body of a specification function.
pub open spec fn let_body(l: Rc<LetDecl>) -> Rc<Expr> {
    l.body
}

/// The type of a global.
pub open spec fn global_type(g: Rc<GlobalVar>) -> Rc<Type> {
    g.ty
}

/// The value of a global.
pub open spec fn global_init(g: Rc<GlobalVar>) -> Option<Rc<Expr>> {
    g.init
}

/// Checking types too hides no message: what a check of names reports, a check of types reports as
/// well, in the same order.
pub proof fn law_checking_types_hides_no_message(pass: Text, diags: Rc<List<Diagnostic>>, env: Env, l: Rc<List<Decl>>)
    ensures
        subsequence(
            spec_check_decls(Checker { pass, check_types: false, diags }, env, l).diags,
            spec_check_decls(Checker { pass, check_types: true, diags }, env, l).diags,
        ),
{
    beside_decls(Checker { pass, check_types: false, diags }, Checker { pass, check_types: true, diags }, env, l);
    reveal(keeps_up);
    lemma_subsequence_of_itself(diags);
}

} // verus!
