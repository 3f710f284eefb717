//! Emission of statements.

use crate::list::{
    List, bump, cons, drop_one, l2, l3, l4, l5, list_append, list_is_empty, list_len, list_push,
    nil, spec_bump, spec_cons, spec_drop_one, spec_l2, spec_l3, spec_l4, spec_l5,
    spec_list_append, spec_list_is_empty, spec_list_len, spec_list_push, spec_nil,
};
use crate::text::{cat, lit, num, spec_cat, spec_lit, spec_num, spec_width_text, width_text};
use crate::ir::{
    Branch, Decl, Expr, ExprT, FnArg, Ident, PointerKind, Stmt, StmtT, Type, TypeT, mk_type,
    same_name, show_stmt, spec_mk_type, spec_same_name, spec_show_stmt,
};
use crate::diag::extends;
use crate::doc::{
    Doc, DocT, annotated, block, concat, d2, d3, d4, d5, d6, d7, d9, group, hardline, line,
    lines_before, naryfn, nest, nil_doc, parens, spec_annotated, spec_block, spec_concat, spec_d2,
    spec_d3, spec_d4, spec_d5, spec_d6, spec_d7, spec_d9, spec_group, spec_hardline, spec_line,
    spec_lines_before, spec_naryfn, spec_nest, spec_nil_doc, spec_parens, spec_text_doc, spec_txt,
    spec_unaryfn, text_doc, txt, unaryfn,
};
use crate::env::{
    Env, LocalDeclKind, infer_whnf, lookup_fn, plus, push_declared, push_stmt, push_stmts,
    push_var_decl, spec_infer_whnf, spec_lookup_fn, spec_plus, spec_push_declared, spec_push_stmt,
    spec_push_stmts, spec_push_var_decl, spec_vtype_whnf, vtype_whnf,
};
use crate::names::Name;
use crate::emit_base::{
    Emitter, append_rest, array_literal_init, spec_append_rest, spec_array_literal_init,
    spec_emit_name, spec_emit_var_name, spec_fresh_tmp, spec_to_rvalue_decayed, to_rvalue_decayed,
};
use crate::emit_types::spec_emit_type;
use crate::emit_exprs::{
    bitfield_member_mask, fixed_array_len, if_then_else, is_array_pointer, is_pointer,
    spec_admit_at, spec_bitfield_member_mask, spec_emit_expr, spec_emit_lvalue, spec_emit_pattern,
    spec_emit_rvalue, spec_emit_rvalues, spec_emit_tokens, spec_fixed_array_len,
    spec_if_then_else, spec_is_array_pointer, spec_is_pointer, spec_struct_of, spec_union_of,
    struct_of, union_of,
};
use crate::merge::Match;
use std::rc::Rc;
use vstd::prelude::*;

verus! {

broadcast use crate::diag::lemma_extends_trans;

/// What the arguments of a call need before it, and the arguments.
pub struct CallArgs {
    pub prelude: Rc<List<DocT>>,
    pub args: Rc<List<DocT>>,
}

/// Whether the statement is ghost code.
#[verifier::opaque]
pub open spec fn spec_is_ghost(s: Rc<Stmt>) -> bool
{
    matches!(s.val, StmtT::GhostStmt(_))
}

/// Whether the statement is ghost code.
pub fn is_ghost(s: &Rc<Stmt>) -> (out: bool)
    ensures
        out == spec_is_ghost(*s),
{
    proof {
        reveal(spec_is_ghost);
    }
    matches!(&s.val, StmtT::GhostStmt(_))
}

/// Whether ghost code comes first.
#[verifier::opaque]
pub open spec fn spec_starts_with_ghost(l: Rc<List<Stmt>>) -> bool
{
    match *l {
        List::Nil => false,
        List::Cons(s, _) => spec_is_ghost(s),
    }
}

/// Whether ghost code comes first.
pub fn starts_with_ghost(l: &Rc<List<Stmt>>) -> (out: bool)
    ensures
        out == spec_starts_with_ghost(*l),
{
    proof {
        reveal(spec_starts_with_ghost);
    }
    match &**l {
        List::Nil => false,
        List::Cons(s, _) => is_ghost(s),
    }
}

/// Whether the value of a call has to be discarded: Pulse wants a statement of type `unit`.
#[verifier::opaque]
pub open spec fn spec_must_discard(env: Env, v: Rc<Expr>) -> bool
{
    match spec_infer_whnf(env, v) {
        Some(t) => !matches!(t.val, TypeT::Void),
        None => false,
    }
}

/// Whether the value of a call has to be discarded: Pulse wants a statement of type `unit`.
pub fn must_discard(env: &Env, v: &Rc<Expr>) -> (out: bool)
    ensures
        out == spec_must_discard(*env, *v),
{
    proof {
        reveal(spec_must_discard);
    }
    match infer_whnf(env, v) {
        Some(t) => !matches!(&t.val, TypeT::Void),
        None => false,
    }
}

/// Whether the first parameter is a pointer of the given kind.
#[verifier::opaque]
pub open spec fn spec_param_is(env: Env, params: Rc<List<FnArg>>, kind: PointerKind) -> bool
{
    match *params {
        List::Nil => false,
        List::Cons(p, _) => {
            match spec_vtype_whnf(env, p.ty).val {
                TypeT::Pointer(_, k) => k == kind,
                _ => false,
            }
        },
    }
}

/// Whether the first parameter is a pointer of the given kind.
pub fn param_is(env: &Env, params: &Rc<List<FnArg>>, kind: PointerKind) -> (out: bool)
    ensures
        out == spec_param_is(*env, *params, kind),
{
    proof {
        reveal(spec_param_is);
    }
    match &**params {
        List::Nil => false,
        List::Cons(p, _) => match &vtype_whnf(env, &p.ty).val {
            TypeT::Pointer(_, k) => *k == kind,
            _ => false,
        },
    }
}

/// The parameters but the first.
#[verifier::opaque]
pub open spec fn spec_later_params(params: Rc<List<FnArg>>) -> Rc<List<FnArg>>
{
    match *params {
        List::Nil => spec_nil(),
        List::Cons(_, t) => t,
    }
}

/// The parameters but the first.
pub fn later_params(params: &Rc<List<FnArg>>) -> (out: Rc<List<FnArg>>)
    ensures
        out == spec_later_params(*params),
{
    proof {
        reveal(spec_later_params);
    }
    match &**params {
        List::Nil => nil(),
        List::Cons(_, t) => t.clone(),
    }
}

/// An array and an index into it.
pub struct Cell {
    pub arr: Rc<Expr>,
    pub idx: Rc<Expr>,
}

/// The array cell whose address an expression is, if the array is a whole one.
#[verifier::opaque]
pub open spec fn spec_cell_address(env: Env, e: Rc<Expr>) -> Option<Cell>
{
    match e.val {
        ExprT::Ref(inner) => {
            match inner.val {
                ExprT::Index(arr, idx) => {
                    if spec_is_pointer(env, arr, PointerKind::Array) {
                        Some(Cell { arr, idx })
                    } else {
                        None
                    }
                },
                _ => None,
            }
        },
        _ => None,
    }
}

/// The array cell whose address an expression is, if the array is a whole one.
pub fn cell_address(env: &Env, e: &Rc<Expr>) -> (out: Option<Cell>)
    ensures
        out == spec_cell_address(*env, *e),
{
    proof {
        reveal(spec_cell_address);
    }
    match &e.val {
        ExprT::Ref(inner) => match &inner.val {
            ExprT::Index(arr, idx) => if is_pointer(env, arr, PointerKind::Array) {
                Some(Cell { arr: arr.clone(), idx: idx.clone() })
            } else {
                None
            },
            _ => None,
        },
        _ => None,
    }
}

/// The element type of an array literal.
#[verifier::opaque]
pub open spec fn spec_literal_elem(e: Rc<Expr>) -> Rc<Type>
{
    match e.val {
        ExprT::ArrayInit { elem_ty, .. } => elem_ty,
        _ => spec_mk_type(e.loc, TypeT::Unknown),
    }
}

/// The element type of an array literal.
pub fn literal_elem(e: &Rc<Expr>) -> (out: Rc<Type>)
    ensures
        out == spec_literal_elem(*e),
{
    proof {
        reveal(spec_literal_elem);
    }
    match &e.val {
        ExprT::ArrayInit { elem_ty, .. } => elem_ty.clone(),
        _ => mk_type(&e.loc, TypeT::Unknown),
    }
}

/// Whether the array literal lives as long as the program.
#[verifier::opaque]
pub open spec fn spec_literal_is_static(e: Rc<Expr>) -> bool
{
    matches!(e.val, ExprT::ArrayInit { is_static: true, .. })
}

/// Whether the array literal lives as long as the program.
pub fn literal_is_static(e: &Rc<Expr>) -> (out: bool)
    ensures
        out == spec_literal_is_static(*e),
{
    proof {
        reveal(spec_literal_is_static);
    }
    matches!(&e.val, ExprT::ArrayInit { is_static: true, .. })
}

/// The length of the array that a literal fills completely, if it is assigned to one.
#[verifier::opaque]
pub open spec fn spec_filled_len(env: Env, x: Rc<Expr>, init: Rc<Expr>) -> Option<u64>
{
    match (spec_fixed_array_len(env, x), init.val) {
        (Some(n), ExprT::ArrayInit { elems, .. }) => {
            if spec_list_len(elems) == n {
                Some(n)
            } else {
                None
            }
        },
        _ => None,
    }
}

/// The length of the array that a literal fills completely, if it is assigned to one.
pub fn filled_len(env: &Env, x: &Rc<Expr>, init: &Rc<Expr>) -> (out: Option<u64>)
    ensures
        out == spec_filled_len(*env, *x, *init),
{
    proof {
        reveal(spec_filled_len);
    }
    match (fixed_array_len(env, x), &init.val) {
        (Some(n), ExprT::ArrayInit { elems, .. }) => if list_len(elems) == n { Some(n) } else { None },
        _ => None,
    }
}

/// `let x = v;`
#[verifier::opaque]
pub open spec fn spec_let_stmt(x: Doc, v: Doc) -> Doc
{
    spec_group(spec_nest(spec_d6(spec_txt("let "), x, spec_txt(" ="), spec_line(), v, spec_txt(";"))))
}

/// `let x = v;`
pub fn let_stmt(x: Doc, v: Doc) -> (out: Doc)
    ensures
        out == spec_let_stmt(x, v),
{
    proof {
        reveal(spec_let_stmt);
    }
    group(nest(d6(txt("let "), x, txt(" ="), line(), v, txt(";"))))
}

/// A clean-up that runs when the scope is left.
#[verifier::opaque]
pub open spec fn spec_defer_stmt(owned: Doc, cleanup: &'static str) -> Doc
{
    spec_group(spec_nest(spec_d4(spec_group(spec_nest(spec_d2(spec_txt("defer "), owned))), spec_line(), spec_txt(cleanup), spec_txt(";"))))
}

/// A clean-up that runs when the scope is left.
pub fn defer_stmt(owned: Doc, cleanup: &'static str) -> (out: Doc)
    ensures
        out == spec_defer_stmt(owned, cleanup),
{
    proof {
        reveal(spec_defer_stmt);
    }
    group(nest(d4(group(nest(d2(txt("defer "), owned))), line(), txt(cleanup), txt(";"))))
}

/// A call as a statement.
#[verifier::opaque]
pub open spec fn spec_call_stmt(d: Doc) -> Doc
{
    spec_group(spec_nest(spec_d2(d, spec_txt(";"))))
}

/// A call as a statement.
pub fn call_stmt(d: Doc) -> (out: Doc)
    ensures
        out == spec_call_stmt(d),
{
    proof {
        reveal(spec_call_stmt);
    }
    group(nest(d2(d, txt(";"))))
}

/// `lhs := rhs;`
#[verifier::opaque]
pub open spec fn spec_store_stmt(lhs: Doc, rhs: Doc) -> Doc
{
    spec_nest(spec_group(spec_d4(spec_group(spec_d3(lhs, spec_line(), spec_txt(":="))), spec_line(), rhs, spec_txt(";"))))
}

/// `lhs := rhs;`
pub fn store_stmt(lhs: Doc, rhs: Doc) -> (out: Doc)
    ensures
        out == spec_store_stmt(lhs, rhs),
{
    proof {
        reveal(spec_store_stmt);
    }
    nest(group(d4(group(d3(lhs, line(), txt(":="))), line(), rhs, txt(";"))))
}

/// The declaration of an array on the stack, in the three steps that it takes.
#[verifier::opaque]
pub open spec fn spec_stack_array(x: Doc, elem: Doc, size: Doc) -> Doc
{
    let alloc = spec_let_stmt(x, spec_naryfn(spec_l3(spec_txt("stack_alloc_array"), spec_d2(spec_txt("#"), elem), size)));
    let defer = spec_defer_stmt(spec_unaryfn(spec_txt("array_pts_to_uninit'"), x), "{ stack_free_array _ }");
    let redecl = spec_group(spec_nest(spec_d6(spec_txt("let mut "), x, spec_txt(" ="), spec_line(), x, spec_txt(";"))));
    spec_d5(alloc, spec_hardline(), defer, spec_hardline(), redecl)
}

/// The declaration of an array on the stack, in the three steps that it takes.
pub fn stack_array(x: Doc, elem: Doc, size: Doc) -> (out: Doc)
    ensures
        out == spec_stack_array(x, elem, size),
{
    proof {
        reveal(spec_stack_array);
    }
    let alloc = let_stmt(x.clone(), naryfn(&l3(txt("stack_alloc_array"), d2(txt("#"), elem), size)));
    let defer = defer_stmt(unaryfn(txt("array_pts_to_uninit'"), x.clone()), "{ stack_free_array _ }");
    let redecl = group(nest(d6(txt("let mut "), x.clone(), txt(" ="), line(), x, txt(";"))));
    d5(alloc, hardline(), defer, hardline(), redecl)
}

/// Each document on a line of its own.
pub open spec fn spec_with_hardlines(l: Rc<List<DocT>>) -> Rc<List<DocT>>
    decreases l,
{
    match *l {
        List::Nil => spec_nil(),
        List::Cons(h, t) => spec_cons(spec_d2(h, spec_hardline()), spec_with_hardlines(t)),
    }
}

/// Each document on a line of its own.
pub fn with_hardlines(l: &Rc<List<DocT>>) -> (out: Rc<List<DocT>>)
    ensures
        out == spec_with_hardlines(*l),
    decreases l,
{
    match &**l {
        List::Nil => nil(),
        List::Cons(h, t) => cons(d2(h.clone(), hardline()), with_hardlines(t)),
    }
}

/// The call of an array's function with a receiver of the given kind.
#[verifier::opaque]
pub open spec fn spec_array_fn(
    env: Env,
    arr: Rc<Expr>,
    on_arrayptr: &'static str,
    on_array: &'static str,
) -> &'static str
{
    if spec_is_pointer(env, arr, PointerKind::ArrayPtr) {
        on_arrayptr
    } else {
        on_array
    }
}

/// The call of an array's function with a receiver of the given kind.
pub fn array_fn(
    env: &Env,
    arr: &Rc<Expr>,
    on_arrayptr: &'static str,
    on_array: &'static str,
) -> (out: &'static str)
    ensures
        out == spec_array_fn(*env, *arr, on_arrayptr, on_array),
{
    proof {
        reveal(spec_array_fn);
    }
    if is_pointer(env, arr, PointerKind::ArrayPtr) { on_arrayptr } else { on_array }
}

/// Ensures clauses of a join, each on a line of its own.
pub open spec fn spec_join_clauses(acc: Doc, l: Rc<List<DocT>>) -> Doc
    decreases l,
{
    match *l {
        List::Nil => acc,
        List::Cons(h, t) => spec_join_clauses(spec_d4(acc, spec_hardline(), spec_txt("ensures "), h), t),
    }
}

/// Ensures clauses of a join, each on a line of its own.
pub fn join_clauses(acc: Doc, l: &Rc<List<DocT>>) -> (out: Doc)
    ensures
        out == spec_join_clauses(acc, *l),
    decreases l,
{
    match &**l {
        List::Nil => acc,
        List::Cons(h, t) => join_clauses(d4(acc, hardline(), txt("ensures "), h.clone()), t),
    }
}

/// Clauses of a loop, each behind its keyword.
pub open spec fn spec_loop_clauses(acc: Doc, kw: &'static str, l: Rc<List<DocT>>) -> Doc
    decreases l,
{
    match *l {
        List::Nil => acc,
        List::Cons(h, t) => spec_loop_clauses(spec_d2(acc, spec_d2(spec_nest(spec_group(spec_d2(spec_txt(kw), h))), spec_line())), kw, t),
    }
}

/// Clauses of a loop, each behind its keyword.
pub fn loop_clauses(acc: Doc, kw: &'static str, l: &Rc<List<DocT>>) -> (out: Doc)
    ensures
        out == spec_loop_clauses(acc, kw, *l),
    decreases l,
{
    match &**l {
        List::Nil => acc,
        List::Cons(h, t) => loop_clauses(d2(acc, d2(nest(group(d2(txt(kw), h.clone()))), line())), kw, t),
    }
}

/// Ensures clauses of a conditional.
pub open spec fn spec_if_clauses(acc: Doc, l: Rc<List<DocT>>) -> Doc
    decreases l,
{
    match *l {
        List::Nil => acc,
        List::Cons(h, t) => spec_if_clauses(spec_d2(acc, spec_nest(spec_group(spec_d3(spec_line(), spec_txt("ensures "), h)))), t),
    }
}

/// Ensures clauses of a conditional.
pub fn if_clauses(acc: Doc, l: &Rc<List<DocT>>) -> (out: Doc)
    ensures
        out == spec_if_clauses(acc, *l),
    decreases l,
{
    match &**l {
        List::Nil => acc,
        List::Cons(h, t) => if_clauses(d2(acc, nest(group(d3(line(), txt("ensures "), h.clone())))), t),
    }
}

/// `(let x : t = v in rest)`.
#[verifier::opaque]
pub open spec fn spec_pure_let(x: Doc, ty: Doc, v: Doc, rest: Doc) -> Doc
{
    spec_parens(spec_d5(spec_nest(spec_group(spec_d9(spec_txt("let"), spec_line(), x, spec_line(), spec_txt(":"), spec_line(), ty, spec_line(), spec_txt("=")))), spec_nest(spec_d2(spec_line(), v)), spec_line(), spec_txt("in"), spec_nest(spec_d2(spec_line(), rest))))
}

/// `(let x : t = v in rest)`.
pub fn pure_let(x: Doc, ty: Doc, v: Doc, rest: Doc) -> (out: Doc)
    ensures
        out == spec_pure_let(x, ty, v, rest),
{
    proof {
        reveal(spec_pure_let);
    }
    parens(d5(
        nest(group(d9(txt("let"), line(), x, line(), txt(":"), line(), ty, line(), txt("=")))),
        nest(d2(line(), v)), line(), txt("in"), nest(d2(line(), rest))))
}

/// How many statements there are, also within others.
pub open spec fn spec_stmts_size(l: Rc<List<Stmt>>) -> u64
    decreases l,
{
    match *l {
        List::Nil => 0,
        List::Cons(h, t) => spec_plus(spec_stmt_size(h), spec_stmts_size(t)),
    }
}

/// How many statements there are, also within others.
pub fn stmts_size(l: &Rc<List<Stmt>>) -> (out: u64)
    ensures
        out == spec_stmts_size(*l),
    decreases l,
{
    match &**l {
        List::Nil => 0,
        List::Cons(h, t) => plus(stmt_size(h), stmts_size(t)),
    }
}

/// How many statements a branch holds.
pub open spec fn spec_branch_size(b: Rc<Branch>) -> u64
    decreases b,
{
    spec_stmts_size(b.body)
}

/// How many statements a branch holds.
pub fn branch_size(b: &Rc<Branch>) -> (out: u64)
    ensures
        out == spec_branch_size(*b),
    decreases b,
{
    stmts_size(&b.body)
}

/// How many statements branches hold.
pub open spec fn spec_branches_size(l: Rc<List<Branch>>) -> u64
    decreases l,
{
    match *l {
        List::Nil => 0,
        List::Cons(h, t) => spec_plus(spec_branch_size(h), spec_branches_size(t)),
    }
}

/// How many statements branches hold.
pub fn branches_size(l: &Rc<List<Branch>>) -> (out: u64)
    ensures
        out == spec_branches_size(*l),
    decreases l,
{
    match &**l {
        List::Nil => 0,
        List::Cons(h, t) => plus(branch_size(h), branches_size(t)),
    }
}

/// How many statements a statement is made of.
pub open spec fn spec_stmt_size(s: Rc<Stmt>) -> u64
    decreases s,
{
    match s.val {
        StmtT::If { then_branch, else_branch, .. } => spec_bump(spec_plus(spec_stmts_size(then_branch), spec_stmts_size(else_branch))),
        StmtT::Match { branches, default_branch, .. } => spec_bump(spec_plus(spec_branches_size(branches), spec_stmts_size(default_branch))),
        _ => 1,
    }
}

/// How many statements a statement is made of.
pub fn stmt_size(s: &Rc<Stmt>) -> (out: u64)
    ensures
        out == spec_stmt_size(*s),
    decreases s,
{
    match &s.val {
        StmtT::If { then_branch, else_branch, .. } => bump(plus(stmts_size(then_branch), stmts_size(else_branch))),
        StmtT::Match { branches, default_branch, .. } => bump(plus(branches_size(branches), stmts_size(default_branch))),
        _ => 1,
    }
}

/// The value assigned to `x` by the first statement, if it is such an assignment and others
/// follow.
#[verifier::opaque]
pub open spec fn spec_assigned_first(l: Rc<List<Stmt>>, x: Rc<Ident>) -> Option<Rc<Expr>>
{
    match *l {
        List::Nil => None,
        List::Cons(s, t) => {
            if spec_list_is_empty(t) {
                None
            } else {
                match s.val {
                    StmtT::Assign(lhs, rhs) => {
                        match lhs.val {
                            ExprT::Var(v) => {
                                if spec_same_name(v, x) {
                                    Some(rhs)
                                } else {
                                    None
                                }
                            },
                            _ => None,
                        }
                    },
                    _ => None,
                }
            }
        },
    }
}

/// The value assigned to `x` by the first statement, if it is such an assignment and others
/// follow.
pub fn assigned_first(l: &Rc<List<Stmt>>, x: &Rc<Ident>) -> (out: Option<Rc<Expr>>)
    ensures
        out == spec_assigned_first(*l, *x),
{
    proof {
        reveal(spec_assigned_first);
    }
    match &**l {
        List::Nil => None,
        List::Cons(s, t) => if list_is_empty(t) {
            None
        } else {
            match &s.val {
                StmtT::Assign(lhs, rhs) => match &lhs.val {
                    ExprT::Var(v) => if same_name(v, x) { Some(rhs.clone()) } else { None },
                    _ => None,
                },
                _ => None,
            }
        },
    }
}

/// The statements but the first.
#[verifier::opaque]
pub open spec fn spec_later_stmts(l: Rc<List<Stmt>>) -> Rc<List<Stmt>>
{
    match *l {
        List::Nil => spec_nil(),
        List::Cons(_, t) => t,
    }
}

/// The statements but the first.
pub fn later_stmts(l: &Rc<List<Stmt>>) -> (out: Rc<List<Stmt>>)
    ensures
        out == spec_later_stmts(*l),
{
    proof {
        reveal(spec_later_stmts);
    }
    match &**l {
        List::Nil => nil(),
        List::Cons(_, t) => t.clone(),
    }
}

/// An array literal that is passed to a function: it is put on the stack for the call.
///
/// As the state that [`Emitter::emit_literal_arg`] leaves, with its result.
#[verifier::opaque]
pub open spec fn spec_emit_literal_arg(
    st: Emitter,
    env: Env,
    lit_expr: Rc<Expr>,
    whole_array: bool,
    rest: CallArgs,
) -> (Emitter, CallArgs)
{
    let (st, tmp) = spec_fresh_tmp(st, "arraylit");
    let (st, elem) = spec_emit_type(st, env, spec_literal_elem(lit_expr));
    let (st, contents) = spec_emit_rvalue(st, env, lit_expr);
    let alloc = spec_let_stmt(tmp, spec_naryfn(spec_l3(spec_txt("stack_alloc_array_full"), spec_d2(spec_txt("#"), elem), contents)));
    let defer = spec_defer_stmt(spec_naryfn(spec_l4(spec_txt("array_pts_to_full"), tmp, spec_txt("1.0R"), contents)), "{ stack_free_array_full _ }");
    let arg = if whole_array {
        tmp
    } else {
        spec_unaryfn(spec_txt("Pulse.Lib.C.Array.array_to_ref"), tmp)
    };
    (st, CallArgs { prelude: spec_list_append(rest.prelude, spec_l2(alloc, defer)), args: spec_list_push(rest.args, arg) })
}

/// The address of an array cell that is passed to a function: the cell is borrowed.
///
/// As the state that [`Emitter::emit_cell_arg`] leaves, with its result.
#[verifier::opaque]
pub open spec fn spec_emit_cell_arg(
    st: Emitter,
    env: Env,
    cell: Cell,
    rest: CallArgs,
) -> (Emitter, CallArgs)
{
    let (st, tmp) = spec_fresh_tmp(st, "borrow");
    let (st, arr) = spec_emit_rvalue(st, env, cell.arr);
    let (st, idx) = spec_emit_rvalue(st, env, cell.idx);
    let borrow = spec_let_stmt(tmp, spec_naryfn(spec_l3(spec_txt("array_borrow_cell"), arr, idx)));
    (st, CallArgs { prelude: spec_list_push(rest.prelude, borrow), args: spec_list_push(rest.args, tmp) })
}

/// An argument of a call, where `params` start with its parameter.
///
/// As the state that [`Emitter::emit_call_arg`] leaves, with its result.
#[verifier::opaque]
pub open spec fn spec_emit_call_arg(
    st: Emitter,
    env: Env,
    params: Rc<List<FnArg>>,
    arg: Rc<Expr>,
    rest: CallArgs,
) -> (Emitter, CallArgs)
{
    match (spec_cell_address(env, arg), spec_param_is(env, params, PointerKind::Ref)) {
        (Some(cell), true) => spec_emit_cell_arg(st, env, cell, rest),
        _ => {
            match spec_array_literal_init(arg) {
                Some(l) => {
                    if spec_param_is(env, params, PointerKind::Array) || !spec_literal_is_static(l) {
                        spec_emit_literal_arg(st, env, l, spec_param_is(env, params, PointerKind::Array), rest)
                    } else {
                        let (st, d) = spec_emit_rvalue(st, env, arg);
                        (st, CallArgs { prelude: rest.prelude, args: spec_list_push(rest.args, d) })
                    }
                },
                None => {
                    let (st, d) = spec_emit_rvalue(st, env, arg);
                    (st, CallArgs { prelude: rest.prelude, args: spec_list_push(rest.args, d) })
                },
            }
        },
    }
}

/// The arguments of a call.
///
/// As the state that [`Emitter::emit_call_args`] leaves, with its result.
pub open spec fn spec_emit_call_args(
    st: Emitter,
    env: Env,
    params: Rc<List<FnArg>>,
    args: Rc<List<Expr>>,
    done: CallArgs,
) -> (Emitter, CallArgs)
    decreases args,
{
    match *args {
        List::Nil => (st, done),
        List::Cons(h, t) => {
            let (st, next) = spec_emit_call_arg(st, env, params, h, done);
            spec_emit_call_args(st, env, spec_later_params(params), t, next)
        },
    }
}

/// A call as a statement, without anything before it.
///
/// As the state that [`Emitter::emit_plain_call`] leaves, with its result.
#[verifier::opaque]
pub open spec fn spec_emit_plain_call(
    st: Emitter,
    env: Env,
    v: Rc<Expr>,
    lead: Doc,
) -> (Emitter, Doc)
{
    let (st, d) = spec_emit_rvalue(st, env, v);
    (st, spec_group(spec_nest(spec_d3(lead, d, spec_txt(";")))))
}

/// A call as a statement.
///
/// As the state that [`Emitter::emit_call_stmt`] leaves, with its result.
#[verifier::opaque]
pub open spec fn spec_emit_call_stmt(st: Emitter, env: Env, v: Rc<Expr>) -> (Emitter, Doc)
{
    let lead = if spec_must_discard(env, v) {
        spec_txt("let _ = ")
    } else {
        spec_nil_doc()
    };
    match v.val {
        ExprT::FnCall(f, args) => {
            match spec_lookup_fn(env, f) {
                Some(fn_decl) => {
                    let (st, c) = spec_emit_call_args(st, env, fn_decl.args, args, CallArgs { prelude: spec_nil(), args: spec_nil() });
                    if spec_list_is_empty(c.prelude) {
                        spec_emit_plain_call(st, env, v, lead)
                    } else {
                        let (st, name) = spec_emit_name(st, Name::Fn(f.val));
                        let call = spec_parens(spec_nest(spec_d2(name, spec_lines_before(c.args))));
                        (st, spec_d2(spec_concat(spec_with_hardlines(c.prelude)), spec_group(spec_nest(spec_d3(lead, call, spec_txt(";"))))))
                    }
                },
                None => spec_emit_plain_call(st, env, v, lead),
            }
        },
        _ => spec_emit_plain_call(st, env, v, lead),
    }
}

/// The declaration of a variable.
///
/// As the state that [`Emitter::emit_decl_stmt`] leaves, with its result.
#[verifier::opaque]
pub open spec fn spec_emit_decl_stmt(
    st: Emitter,
    env: Env,
    x: Rc<Ident>,
    ty: Rc<Type>,
) -> (Emitter, Doc)
{
    match ty.val {
        TypeT::FixedArray(elem_ty, length) => {
            let (st, name) = spec_emit_var_name(st, x.val);
            let (st, elem) = spec_emit_type(st, env, elem_ty);
            (st, spec_stack_array(name, elem, spec_text_doc(spec_cat(spec_num(length), spec_lit("sz")))))
        },
        _ => {
            let (st, name) = spec_emit_var_name(st, x.val);
            let (st, t) = spec_emit_type(st, env, ty);
            (st, spec_group(spec_nest(spec_d6(spec_txt("let mut "), name, spec_txt(" :"), spec_line(), t, spec_txt(";")))))
        },
    }
}

/// The declaration of a constant.
///
/// As the state that [`Emitter::emit_let_stmt`] leaves, with its result.
#[verifier::opaque]
pub open spec fn spec_emit_let_stmt(
    st: Emitter,
    env: Env,
    x: Rc<Ident>,
    ty: Rc<Type>,
    value: Rc<Expr>,
) -> (Emitter, Doc)
{
    let (st, name) = spec_emit_var_name(st, x.val);
    let (st, t) = spec_emit_type(st, env, ty);
    let (st, v) = spec_emit_rvalue(st, env, value);
    (st, spec_group(spec_nest(spec_d3(spec_group(spec_d7(spec_txt("let "), name, spec_txt(" :"), spec_line(), t, spec_line(), spec_txt("="))), spec_nest(spec_d2(spec_line(), v)), spec_txt(";")))))
}

/// A store to the place `x`.
///
/// As the state that [`Emitter::emit_store`] leaves, with its result.
#[verifier::opaque]
pub open spec fn spec_emit_store(st: Emitter, env: Env, x: Rc<Expr>, t: Rc<Expr>) -> (Emitter, Doc)
{
    let (st, lhs) = spec_emit_lvalue(st, env, x);
    let (st, rhs) = spec_emit_rvalue(st, env, t);
    (st, spec_store_stmt(lhs, rhs))
}

/// A store to a field of a record. The arm of a union is stored with its constructor, and a
/// bit-field truncated to its width.
///
/// As the state that [`Emitter::emit_member_store`] leaves, with its result.
#[verifier::opaque]
pub open spec fn spec_emit_member_store(
    st: Emitter,
    env: Env,
    x: Rc<Expr>,
    base: Rc<Expr>,
    fld: Rc<Ident>,
    t: Rc<Expr>,
) -> (Emitter, Doc)
{
    match spec_union_of(env, base) {
        Some(u) => {
            let (st, ctor) = spec_emit_name(st, Name::UnionFieldConstructor(u.val, fld.val));
            let (st, lhs) = spec_emit_lvalue(st, env, base);
            let (st, rhs) = spec_emit_rvalue(st, env, t);
            (st, spec_store_stmt(lhs, spec_unaryfn(ctor, rhs)))
        },
        None => {
            let (st, value) = spec_emit_rvalue(st, env, t);
            let rhs = match spec_bitfield_member_mask(env, base, fld) {
                Some(m) => spec_naryfn(spec_l3(spec_txt(m.mask_fn), spec_text_doc(spec_width_text(m.width)), value)),
                None => value,
            };
            let (st, lhs) = spec_emit_lvalue(st, env, x);
            (st, spec_store_stmt(lhs, rhs))
        },
    }
}

/// A store to a field of a struct that an array holds: `a[i].f = t`, or `p->f = t` where `p`
/// is an array or a place in one.
///
/// As the state that [`Emitter::emit_element_update`] leaves, with its result.
#[verifier::opaque]
pub open spec fn spec_emit_element_update(
    st: Emitter,
    env: Env,
    arr: Rc<Expr>,
    idx: Option<Rc<Expr>>,
    s: Rc<Ident>,
    fld: Rc<Ident>,
    t: Rc<Expr>,
) -> (Emitter, Doc)
{
    let (st, v1) = spec_emit_expr(st, env, arr);
    let a = spec_to_rvalue_decayed(v1);
    let (st, i) = match idx {
        Some(e) => spec_emit_rvalue(st, env, e),
        None => (st, spec_txt("0sz")),
    };
    let (st, field) = spec_emit_name(st, Name::StructDirectFieldName(s.val, fld.val));
    let update = spec_d3(spec_txt("(fun __v __y -> { __v with "), field, spec_txt(" = __y })"));
    let (st, value) = spec_emit_rvalue(st, env, t);
    (st, spec_call_stmt(spec_naryfn(spec_l5(spec_txt(spec_array_fn(env, arr, "arrayptr_update", "array_update")), a, i, update, value))))
}

/// A store to a field.
///
/// As the state that [`Emitter::emit_field_assign`] leaves, with its result.
#[verifier::opaque]
pub open spec fn spec_emit_field_assign(
    st: Emitter,
    env: Env,
    x: Rc<Expr>,
    base: Rc<Expr>,
    fld: Rc<Ident>,
    t: Rc<Expr>,
) -> (Emitter, Doc)
{
    match spec_struct_of(env, base) {
        Some(s) => {
            match base.val {
                ExprT::Index(arr, idx) => spec_emit_element_update(st, env, arr, Some(idx), s, fld, t),
                ExprT::Deref(ptr) => {
                    if spec_is_array_pointer(env, ptr) {
                        spec_emit_element_update(st, env, ptr, None, s, fld, t)
                    } else {
                        spec_emit_member_store(st, env, x, base, fld, t)
                    }
                },
                _ => spec_emit_member_store(st, env, x, base, fld, t),
            }
        },
        None => spec_emit_member_store(st, env, x, base, fld, t),
    }
}

/// A write to an array.
///
/// As the state that [`Emitter::emit_array_write`] leaves, with its result.
#[verifier::opaque]
pub open spec fn spec_emit_array_write(
    st: Emitter,
    env: Env,
    f: &'static str,
    arr: Doc,
    idx: Doc,
    t: Rc<Expr>,
) -> (Emitter, Doc)
{
    let (st, v) = spec_emit_rvalue(st, env, t);
    (st, spec_call_stmt(spec_naryfn(spec_l4(spec_txt(f), arr, idx, v))))
}

/// An assignment, by the shape of the place.
///
/// As the state that [`Emitter::emit_place_assign`] leaves, with its result.
#[verifier::opaque]
pub open spec fn spec_emit_place_assign(
    st: Emitter,
    env: Env,
    x: Rc<Expr>,
    t: Rc<Expr>,
) -> (Emitter, Doc)
{
    match x.val {
        ExprT::Member(base, fld) => spec_emit_field_assign(st, env, x, base, fld, t),
        ExprT::Index(arr, idx) => {
            let (st, v1) = spec_emit_expr(st, env, arr);
            let a = spec_to_rvalue_decayed(v1);
            let (st, i) = spec_emit_rvalue(st, env, idx);
            spec_emit_array_write(st, env, spec_array_fn(env, arr, "arrayptr_write", "array_write"), a, i, t)
        },
        ExprT::Deref(inner) => {
            if spec_is_array_pointer(env, inner) {
                let (st, a) = spec_emit_rvalue(st, env, inner);
                spec_emit_array_write(st, env, spec_array_fn(env, inner, "arrayptr_write", "array_write"), a, spec_txt("0sz"), t)
            } else {
                spec_emit_store(st, env, x, t)
            }
        },
        _ => spec_emit_store(st, env, x, t),
    }
}

/// An assignment to a pointer to one object. The cell of an array that it comes to point to
/// is borrowed.
///
/// As the state that [`Emitter::emit_borrowing_assign`] leaves, with its result.
#[verifier::opaque]
pub open spec fn spec_emit_borrowing_assign(
    st: Emitter,
    env: Env,
    x: Rc<Expr>,
    t: Rc<Expr>,
) -> (Emitter, Doc)
{
    match spec_cell_address(env, t) {
        Some(cell) => {
            let (st, arr) = spec_emit_rvalue(st, env, cell.arr);
            let (st, idx) = spec_emit_rvalue(st, env, cell.idx);
            let (st, lhs) = spec_emit_lvalue(st, env, x);
            (st, spec_store_stmt(lhs, spec_naryfn(spec_l3(spec_txt("array_borrow_cell"), arr, idx))))
        },
        None => {
            match t.val {
                ExprT::Cast(inner, _) => {
                    if spec_is_pointer(env, inner, PointerKind::ArrayPtr) {
                        let (st, ap) = spec_emit_rvalue(st, env, inner);
                        let (st, lhs) = spec_emit_lvalue(st, env, x);
                        (st, spec_store_stmt(lhs, spec_naryfn(spec_l2(spec_txt("arrayptr_borrow_cell"), ap))))
                    } else {
                        spec_emit_place_assign(st, env, x, t)
                    }
                },
                _ => spec_emit_place_assign(st, env, x, t),
            }
        },
    }
}

/// An assignment that is no initialization of a whole array.
///
/// As the state that [`Emitter::emit_ordinary_assign`] leaves, with its result.
#[verifier::opaque]
pub open spec fn spec_emit_ordinary_assign(
    st: Emitter,
    env: Env,
    x: Rc<Expr>,
    t: Rc<Expr>,
) -> (Emitter, Doc)
{
    if spec_is_pointer(env, x, PointerKind::Ref) {
        spec_emit_borrowing_assign(st, env, x, t)
    } else {
        spec_emit_place_assign(st, env, x, t)
    }
}

/// An assignment. An array literal that fills an array is written element by element: C
/// arrays are not assignable, so this comes from the initializer of a declaration.
///
/// As the state that [`Emitter::emit_assign`] leaves, with its result.
#[verifier::opaque]
pub open spec fn spec_emit_assign(st: Emitter, env: Env, x: Rc<Expr>, t: Rc<Expr>) -> (Emitter, Doc)
{
    match spec_array_literal_init(t) {
        Some(init) => {
            match spec_filled_len(env, x, init) {
                Some(n) => {
                    let (st, v1) = spec_emit_expr(st, env, x);
                    let arr = spec_to_rvalue_decayed(v1);
                    let (st, contents) = spec_emit_rvalue(st, env, init);
                    (st, spec_call_stmt(spec_naryfn(spec_l4(spec_txt("array_multiple_writes"), arr, spec_text_doc(spec_cat(spec_num(n), spec_lit("sz"))), contents))))
                },
                None => spec_emit_ordinary_assign(st, env, x, t),
            }
        },
        None => spec_emit_ordinary_assign(st, env, x, t),
    }
}

/// The cases of a branch, one for each pattern.
///
/// As the state that [`Emitter::emit_branch_cases`] leaves, with its result.
pub open spec fn spec_emit_branch_cases(
    st: Emitter,
    env: Env,
    patterns: Rc<List<Expr>>,
    body: Rc<List<Stmt>>,
) -> (Emitter, Rc<List<DocT>>)
    decreases body, 10nat, patterns,
{
    match *patterns {
        List::Nil => (st, spec_nil()),
        List::Cons(p, t) => {
            let (st, pat) = spec_emit_pattern(st, env, p);
            let (st, b) = spec_emit_block(st, env, body);
            let (st, v3) = spec_emit_branch_cases(st, env, t, body);
            (st, spec_cons(spec_nest(spec_d4(spec_line(), pat, spec_txt(" -> "), b)), v3))
        },
    }
}

/// The cases of a branch.
///
/// As the state that [`Emitter::emit_branch`] leaves, with its result.
pub open spec fn spec_emit_branch(st: Emitter, env: Env, b: Rc<Branch>) -> (Emitter, Rc<List<DocT>>)
    decreases b, 0nat,
{
    spec_emit_branch_cases(st, env, b.patterns, b.body)
}

/// The cases of branches.
///
/// As the state that [`Emitter::emit_branches`] leaves, with its result.
pub open spec fn spec_emit_branches(
    st: Emitter,
    env: Env,
    l: Rc<List<Branch>>,
) -> (Emitter, Rc<List<DocT>>)
    decreases l, 0nat,
{
    match *l {
        List::Nil => (st, spec_nil()),
        List::Cons(b, t) => {
            let (st, cases) = spec_emit_branch(st, env, b);
            let (st, v2) = spec_emit_branches(st, env, t);
            (st, spec_list_append(cases, v2))
        },
    }
}

/// A conditional.
///
/// As the state that [`Emitter::emit_if`] leaves, with its result.
pub open spec fn spec_emit_if(st: Emitter, env: Env, stmt: Rc<Stmt>) -> (Emitter, Doc)
    decreases stmt, 3nat,
{
    match stmt.val {
        StmtT::If { cond, then_branch, else_branch, ensures_ } => {
            let (st, v1) = spec_emit_rvalue(st, env, cond);
            let c = spec_parens(v1);
            let (st, v2) = spec_emit_rvalues(st, env, ensures_);
            let e = spec_if_clauses(spec_nil_doc(), v2);
            let (st, a) = spec_emit_block(st, env, then_branch);
            let (st, b) = spec_emit_block(st, env, else_branch);
            (st, spec_group(spec_d7(spec_nest(spec_d2(spec_txt("if "), c)), e, spec_txt(" "), a, spec_txt(" else "), b, spec_txt(";"))))
        },
        _ => (st, spec_nil_doc()),
    }
}

/// A case distinction. Where it has a postcondition, a label after it fixes that of the join.
///
/// As the state that [`Emitter::emit_match`] leaves, with its result.
pub open spec fn spec_emit_match(st: Emitter, env: Env, stmt: Rc<Stmt>) -> (Emitter, Doc)
    decreases stmt, 3nat,
{
    match stmt.val {
        StmtT::Match { scrutinee, branches, default_branch, ensures_ } => {
            let (st, cases) = spec_emit_branches(st, env, branches);
            let (st, v2) = spec_emit_rvalue(st, env, scrutinee);
            let subject = spec_parens(v2);
            let (st, default) = spec_emit_block(st, env, default_branch);
            let m = spec_group(spec_d3(spec_nest(spec_d7(spec_txt("match "), subject, spec_txt(" {"), spec_concat(cases), spec_line(), spec_txt("_ -> "), default)), spec_line(), spec_txt("};")));
            if spec_list_is_empty(ensures_) {
                (st, m)
            } else {
                let (st, v4) = spec_emit_rvalues(st, env, ensures_);
                let d = spec_join_clauses(spec_block(spec_d2(spec_hardline(), m)), v4);
                let (st, label) = spec_fresh_tmp(st, "match_join");
                (st, spec_d5(d, spec_hardline(), spec_txt("label "), label, spec_txt(":;")))
            }
        },
        _ => (st, spec_nil_doc()),
    }
}

/// A loop.
///
/// As the state that [`Emitter::emit_while`] leaves, with its result.
pub open spec fn spec_emit_while(st: Emitter, env: Env, stmt: Rc<Stmt>) -> (Emitter, Doc)
    decreases stmt, 3nat,
{
    match stmt.val {
        StmtT::While { cond, inv, requires_, ensures_, body } => {
            let (st, v1) = spec_emit_rvalue(st, env, cond);
            let c = spec_parens(v1);
            let (st, v2) = spec_emit_rvalues(st, env, inv);
            let i = spec_loop_clauses(spec_nil_doc(), "invariant ", v2);
            let (st, v3) = spec_emit_rvalues(st, env, requires_);
            let r = spec_loop_clauses(spec_nil_doc(), "requires ", v3);
            let (st, v4) = spec_emit_rvalues(st, env, ensures_);
            let e = spec_loop_clauses(spec_nil_doc(), "ensures ", v4);
            let (st, b) = spec_emit_block(st, env, body);
            (st, spec_group(spec_d3(spec_nest(spec_d6(spec_txt("while "), c, spec_line(), i, r, e)), b, spec_txt(";"))))
        },
        _ => (st, spec_nil_doc()),
    }
}

/// A block that gotos leave.
///
/// As the state that [`Emitter::emit_goto_block`] leaves, with its result.
pub open spec fn spec_emit_goto_block(st: Emitter, env: Env, stmt: Rc<Stmt>) -> (Emitter, Doc)
    decreases stmt, 3nat,
{
    match stmt.val {
        StmtT::GotoBlock { body, label, ensures_ } => {
            let (st, v1) = spec_emit_stmts(st, env, body);
            let b = spec_block(v1);
            let (st, v2) = spec_emit_rvalues(st, env, ensures_);
            let d = spec_join_clauses(b, v2);
            let (st, name) = spec_emit_name(st, Name::Label(label.val));
            (st, spec_d5(d, spec_hardline(), spec_txt("label "), name, spec_txt(":;")))
        },
        _ => (st, spec_nil_doc()),
    }
}

/// A statement.
///
/// As the state that [`Emitter::emit_stmt`] leaves, with its result.
pub open spec fn spec_emit_stmt(st: Emitter, env: Env, stmt: Rc<Stmt>) -> (Emitter, Doc)
    decreases stmt, 5nat,
{
    let (st, d) = match stmt.val {
        StmtT::Call(v) => spec_emit_call_stmt(st, env, v),
        StmtT::Decl(x, ty) => spec_emit_decl_stmt(st, env, x, ty),
        StmtT::Let(x, ty, value) => spec_emit_let_stmt(st, env, x, ty, value),
        StmtT::DeclStackArray { name, elem_type, size } => {
            let (st, x) = spec_emit_var_name(st, name.val);
            let (st, n) = spec_emit_rvalue(st, env, size);
            let (st, elem) = spec_emit_type(st, env, elem_type);
            (st, spec_stack_array(x, elem, n))
        },
        StmtT::Assign(x, t) => spec_emit_assign(st, env, x, t),
        StmtT::If { .. } => spec_emit_if(st, env, stmt),
        StmtT::Match { .. } => spec_emit_match(st, env, stmt),
        StmtT::While { .. } => spec_emit_while(st, env, stmt),
        StmtT::Break => (st, spec_txt("break;")),
        StmtT::Continue => (st, spec_txt("continue;")),
        StmtT::Return(Some(t)) => {
            let (st, v5) = spec_emit_rvalue(st, env, t);
            (st, spec_nest(spec_group(spec_d4(spec_txt("return"), spec_line(), v5, spec_txt(";")))))
        },
        StmtT::Return(None) => (st, spec_txt("return;")),
        StmtT::Assert(v) => {
            let (st, v6) = spec_emit_rvalue(st, env, v);
            (st, spec_nest(spec_group(spec_d4(spec_txt("assert"), spec_line(), v6, spec_txt(";")))))
        },
        StmtT::GhostStmt(code) => {
            let (st, v7) = spec_emit_tokens(st, env, code.tokens);
            (st, spec_d2(spec_concat(v7), spec_txt(";")))
        },
        StmtT::Goto(label) => {
            let (st, v8) = spec_emit_name(st, Name::Label(label.val));
            (st, spec_d3(spec_txt("goto "), v8, spec_txt(";")))
        },
        StmtT::Label { .. } => (st, spec_txt("(* unrestructured label *)")),
        StmtT::GotoBlock { .. } => spec_emit_goto_block(st, env, stmt),
        StmtT::Error => (st, spec_txt("(admit());")),
    };
    (st, spec_annotated(stmt.loc, d))
}

/// The ghost code at the front, and then the return of a value that it may speak of.
///
/// As the state that [`Emitter::emit_ghosts_onto`] leaves, with its result.
pub open spec fn spec_emit_ghosts_onto(
    st: Emitter,
    env: Env,
    acc: Doc,
    stmts: Rc<List<Stmt>>,
    ret_name: Doc,
) -> (Emitter, Doc)
    decreases stmts, 7nat,
{
    match *stmts {
        List::Cons(s, t) => {
            if spec_is_ghost(s) {
                let (st, d) = spec_emit_stmt(st, env, s);
                spec_emit_ghosts_onto(st, spec_push_stmt(env, s), spec_d2(acc, spec_d2(spec_line(), d)), t, ret_name)
            } else {
                (st, spec_d2(acc, spec_d2(spec_line(), spec_nest(spec_group(spec_d4(spec_txt("return"), spec_line(), ret_name, spec_txt(";")))))))
            }
        },
        List::Nil => (st, spec_d2(acc, spec_d2(spec_line(), spec_nest(spec_group(spec_d4(spec_txt("return"), spec_line(), ret_name, spec_txt(";"))))))),
    }
}

/// The statements after `acc`. A `return` with ghost code behind it is split, so that the
/// ghost code runs before it, with access to the value; what follows is not reached.
///
/// As the state that [`Emitter::emit_stmts_onto`] leaves, with its result.
pub open spec fn spec_emit_stmts_onto(
    st: Emitter,
    env: Env,
    acc: Doc,
    stmts: Rc<List<Stmt>>,
) -> (Emitter, Doc)
    decreases stmts, 8nat,
{
    match *stmts {
        List::Nil => (st, acc),
        List::Cons(s, t) => {
            match (s.val, spec_starts_with_ghost(t)) {
                (StmtT::Return(Some(e)), true) => {
                    let (st, value) = spec_emit_rvalue(st, env, e);
                    let (st, name) = spec_emit_var_name(st, spec_lit("return"));
                    let bound = spec_group(spec_d5(spec_txt("let "), name, spec_txt(" = "), value, spec_txt(";")));
                    spec_emit_ghosts_onto(st, env, spec_d2(acc, spec_d2(spec_line(), bound)), t, name)
                },
                _ => {
                    let (st, d) = spec_emit_stmt(st, env, s);
                    spec_emit_stmts_onto(st, spec_push_stmt(env, s), spec_d2(acc, spec_d2(spec_line(), d)), t)
                },
            }
        },
    }
}

/// Statements.
///
/// As the state that [`Emitter::emit_stmts`] leaves, with its result.
pub open spec fn spec_emit_stmts(st: Emitter, env: Env, stmts: Rc<List<Stmt>>) -> (Emitter, Doc)
    decreases stmts, 9nat,
{
    spec_emit_stmts_onto(st, env, spec_nil_doc(), stmts)
}

/// Statements in braces.
///
/// As the state that [`Emitter::emit_block`] leaves, with its result.
pub open spec fn spec_emit_block(st: Emitter, env: Env, stmts: Rc<List<Stmt>>) -> (Emitter, Doc)
    decreases stmts, 9nat,
{
    if spec_list_is_empty(stmts) {
        (st, spec_txt("{}"))
    } else {
        let (st, v1) = spec_emit_stmts_onto(st, env, spec_nil_doc(), stmts);
        (st, spec_block(v1))
    }
}

/// The cases of a branch in a pure function, one for each pattern.
///
/// As the state that [`Emitter::emit_pure_cases`] leaves, with its result.
pub open spec fn spec_emit_pure_cases(
    st: Emitter,
    env: Env,
    patterns: Rc<List<Expr>>,
    body: Rc<List<Stmt>>,
    fuel: u64,
) -> (Emitter, Rc<List<DocT>>)
    decreases fuel, 2nat, patterns,
{
    match *patterns {
        List::Nil => (st, spec_nil()),
        List::Cons(p, t) => {
            let (st, pat) = spec_emit_pattern(st, env, p);
            let (st, b) = spec_emit_pure_body(st, env, body, fuel);
            let (st, v3) = spec_emit_pure_cases(st, env, t, body, fuel);
            (st, spec_cons(spec_d5(spec_line(), spec_txt("| "), pat, spec_txt(" ->"), spec_nest(spec_d2(spec_line(), b))), v3))
        },
    }
}

/// The cases of branches in a pure function, each followed by the rest of the function.
///
/// As the state that [`Emitter::emit_pure_branches`] leaves, with its result.
pub open spec fn spec_emit_pure_branches(
    st: Emitter,
    env: Env,
    l: Rc<List<Branch>>,
    rest: Rc<List<Stmt>>,
    fuel: u64,
) -> (Emitter, Rc<List<DocT>>)
    decreases fuel, 3nat, l,
{
    match *l {
        List::Nil => (st, spec_nil()),
        List::Cons(b, t) => {
            let (st, cases) = spec_emit_pure_cases(st, env, b.patterns, spec_append_rest(b.body, rest), fuel);
            let (st, v2) = spec_emit_pure_branches(st, env, t, rest, fuel);
            (st, spec_list_append(cases, v2))
        },
    }
}

/// The value that the statements of a pure function compute. Each step takes a statement off,
/// so `fuel` steps are enough where there are no more statements than that.
///
/// As the state that [`Emitter::emit_pure_body`] leaves, with its result.
pub open spec fn spec_emit_pure_body(
    st: Emitter,
    env: Env,
    stmts: Rc<List<Stmt>>,
    fuel: u64,
) -> (Emitter, Doc)
    decreases fuel, 0nat, stmts,
{
    match *stmts {
        List::Nil => (st, spec_txt("()")),
        List::Cons(s, rest) => {
            if fuel == 0 {
                (st, spec_txt("(admit())"))
            } else {
                spec_emit_pure_stmt(st, env, s, rest, spec_drop_one(fuel))
            }
        },
    }
}

/// The value that a statement of a pure function computes with those after it.
///
/// As the state that [`Emitter::emit_pure_stmt`] leaves, with its result.
pub open spec fn spec_emit_pure_stmt(
    st: Emitter,
    env: Env,
    s: Rc<Stmt>,
    rest: Rc<List<Stmt>>,
    fuel: u64,
) -> (Emitter, Doc)
    decreases fuel, 5nat, rest,
{
    match s.val {
        StmtT::Return(Some(e)) if spec_list_is_empty(rest) => spec_emit_rvalue(st, env, e),
        StmtT::Return(None) if spec_list_is_empty(rest) => (st, spec_txt("()")),
        StmtT::If { cond, then_branch, else_branch, .. } => {
            let (st, c) = spec_emit_rvalue(st, env, cond);
            let (st, a) = spec_emit_pure_body(st, spec_push_stmts(env, then_branch), spec_append_rest(then_branch, rest), fuel);
            let (st, b) = spec_emit_pure_body(st, spec_push_stmts(env, else_branch), spec_append_rest(else_branch, rest), fuel);
            (st, spec_if_then_else(c, a, b))
        },
        StmtT::GhostStmt(code) => {
            let (st, v4) = spec_emit_tokens(st, env, code.tokens);
            let ghost_doc = spec_concat(v4);
            let (st, r) = spec_emit_pure_body(st, spec_push_declared(env, code.tokens), rest, fuel);
            (st, spec_parens(spec_d5(spec_nest(spec_group(spec_d5(spec_txt("let"), spec_line(), spec_txt("_"), spec_line(), spec_txt("=")))), spec_nest(spec_d2(spec_line(), ghost_doc)), spec_line(), spec_txt("in"), spec_nest(spec_d2(spec_line(), r)))))
        },
        StmtT::Match { scrutinee, branches, default_branch, .. } => {
            let (st, cases) = spec_emit_pure_branches(st, env, branches, rest, fuel);
            let (st, subject) = spec_emit_rvalue(st, env, scrutinee);
            let (st, default) = spec_emit_pure_body(st, env, spec_append_rest(default_branch, rest), fuel);
            (st, spec_parens(spec_d9(spec_txt("match"), spec_line(), subject, spec_line(), spec_txt("with"), spec_concat(cases), spec_line(), spec_txt("| _ ->"), spec_nest(spec_d2(spec_line(), default)))))
        },
        StmtT::Let(x, ty, value) => {
            let (st, v) = spec_emit_rvalue(st, env, value);
            let (st, t) = spec_emit_type(st, env, ty);
            let (st, r) = spec_emit_pure_body(st, spec_push_var_decl(env, x, ty, LocalDeclKind::RValue), rest, fuel);
            let (st, name) = spec_emit_var_name(st, x.val);
            (st, spec_pure_let(name, t, v, r))
        },
        StmtT::Decl(x, ty) => {
            match spec_assigned_first(rest, x) {
                Some(rhs) => {
                    let env2 = spec_push_var_decl(env, x, ty, LocalDeclKind::RValue);
                    let (st, r) = spec_emit_pure_body(st, env2, spec_later_stmts(rest), fuel);
                    let (st, name) = spec_emit_var_name(st, x.val);
                    let (st, t) = spec_emit_type(st, env2, ty);
                    let (st, v) = spec_emit_rvalue(st, env2, rhs);
                    (st, spec_pure_let(name, t, v, r))
                },
                None => spec_admit_at(st, spec_lit("unsupported declaration without assignment in pure function"), s.loc),
            }
        },
        _ => spec_admit_at(st, spec_cat(spec_lit("unsupported statement in pure function: "), spec_show_stmt(s)), s.loc),
    }
}

impl Emitter {
    /// An array literal that is passed to a function: it is put on the stack for the call.
    pub fn emit_literal_arg(
        &mut self,
        env: &Env,
        lit_expr: &Rc<Expr>,
        whole_array: bool,
        rest: CallArgs,
    ) -> (out: CallArgs)
        ensures
            (*final(self), out) == spec_emit_literal_arg(*old(self), *env, *lit_expr, whole_array, rest),
            extends(final(self).diags, old(self).diags),
            final(self).fn_module_map == old(self).fn_module_map,
            final(self).typedef_override_map == old(self).typedef_override_map,
    {
        proof {
            reveal(spec_emit_literal_arg);
        }
        let tmp = self.fresh_tmp("arraylit");
        let elem = self.emit_type(env, &literal_elem(lit_expr));
        let contents = self.emit_rvalue(env, lit_expr);
        let alloc = let_stmt(tmp.clone(), naryfn(&l3(txt("stack_alloc_array_full"), d2(txt("#"), elem), contents.clone())));
        let defer = defer_stmt(naryfn(&l4(txt("array_pts_to_full"), tmp.clone(), txt("1.0R"), contents)), "{ stack_free_array_full _ }");
        let arg = if whole_array { tmp } else { unaryfn(txt("Pulse.Lib.C.Array.array_to_ref"), tmp) };
        CallArgs { prelude: list_append(&rest.prelude, l2(alloc, defer)), args: list_push(&rest.args, arg) }
    }

    /// The address of an array cell that is passed to a function: the cell is borrowed.
    pub fn emit_cell_arg(&mut self, env: &Env, cell: &Cell, rest: CallArgs) -> (out: CallArgs)
        ensures
            (*final(self), out) == spec_emit_cell_arg(*old(self), *env, *cell, rest),
            extends(final(self).diags, old(self).diags),
            final(self).fn_module_map == old(self).fn_module_map,
            final(self).typedef_override_map == old(self).typedef_override_map,
    {
        proof {
            reveal(spec_emit_cell_arg);
        }
        let tmp = self.fresh_tmp("borrow");
        let arr = self.emit_rvalue(env, &cell.arr);
        let idx = self.emit_rvalue(env, &cell.idx);
        let borrow = let_stmt(tmp.clone(), naryfn(&l3(txt("array_borrow_cell"), arr, idx)));
        CallArgs { prelude: list_push(&rest.prelude, borrow), args: list_push(&rest.args, tmp) }
    }

    /// An argument of a call, where `params` start with its parameter.
    pub fn emit_call_arg(
        &mut self,
        env: &Env,
        params: &Rc<List<FnArg>>,
        arg: &Rc<Expr>,
        rest: CallArgs,
    ) -> (out: CallArgs)
        ensures
            (*final(self), out) == spec_emit_call_arg(*old(self), *env, *params, *arg, rest),
            extends(final(self).diags, old(self).diags),
            final(self).fn_module_map == old(self).fn_module_map,
            final(self).typedef_override_map == old(self).typedef_override_map,
    {
        proof {
            reveal(spec_emit_call_arg);
        }
        match (cell_address(env, arg), param_is(env, params, PointerKind::Ref)) {
            (Some(cell), true) => self.emit_cell_arg(env, &cell, rest),
            _ => match array_literal_init(arg) {
                Some(l) => if param_is(env, params, PointerKind::Array) || !literal_is_static(&l) {
                    self.emit_literal_arg(env, &l, param_is(env, params, PointerKind::Array), rest)
                } else {
                    let d = self.emit_rvalue(env, arg);
                    CallArgs { prelude: rest.prelude, args: list_push(&rest.args, d) }
                },
                None => {
                    let d = self.emit_rvalue(env, arg);
                    CallArgs { prelude: rest.prelude, args: list_push(&rest.args, d) }
                }
            },
        }
    }

    /// The arguments of a call.
    pub fn emit_call_args(
        &mut self,
        env: &Env,
        params: &Rc<List<FnArg>>,
        args: &Rc<List<Expr>>,
        done: CallArgs,
    ) -> (out: CallArgs)
        ensures
            (*final(self), out) == spec_emit_call_args(*old(self), *env, *params, *args, done),
            extends(final(self).diags, old(self).diags),
            final(self).fn_module_map == old(self).fn_module_map,
            final(self).typedef_override_map == old(self).typedef_override_map,
        decreases args,
    {
        match &**args {
            List::Nil => done,
            List::Cons(h, t) => {
                let next = self.emit_call_arg(env, params, h, done);
                self.emit_call_args(env, &later_params(params), t, next)
            }
        }
    }

    /// A call as a statement, without anything before it.
    pub fn emit_plain_call(&mut self, env: &Env, v: &Rc<Expr>, lead: Doc) -> (out: Doc)
        ensures
            (*final(self), out) == spec_emit_plain_call(*old(self), *env, *v, lead),
            extends(final(self).diags, old(self).diags),
            final(self).fn_module_map == old(self).fn_module_map,
            final(self).typedef_override_map == old(self).typedef_override_map,
    {
        proof {
            reveal(spec_emit_plain_call);
        }
        let d = self.emit_rvalue(env, v);
        group(nest(d3(lead, d, txt(";"))))
    }

    /// A call as a statement.
    pub fn emit_call_stmt(&mut self, env: &Env, v: &Rc<Expr>) -> (out: Doc)
        ensures
            (*final(self), out) == spec_emit_call_stmt(*old(self), *env, *v),
            extends(final(self).diags, old(self).diags),
            final(self).fn_module_map == old(self).fn_module_map,
            final(self).typedef_override_map == old(self).typedef_override_map,
    {
        proof {
            reveal(spec_emit_call_stmt);
        }
        let lead = if must_discard(env, v) { txt("let _ = ") } else { nil_doc() };
        match &v.val {
            ExprT::FnCall(f, args) => match lookup_fn(env, f) {
                Some(fn_decl) => {
                    let c = self.emit_call_args(env, &fn_decl.args, args, CallArgs { prelude: nil(), args: nil() });
                    if list_is_empty(&c.prelude) {
                        self.emit_plain_call(env, v, lead)
                    } else {
                        let name = self.emit_name(Name::Fn(f.val.clone()));
                        let call = parens(nest(d2(name, lines_before(&c.args))));
                        d2(concat(&with_hardlines(&c.prelude)), group(nest(d3(lead, call, txt(";")))))
                    }
                }
                None => self.emit_plain_call(env, v, lead),
            },
            _ => self.emit_plain_call(env, v, lead),
        }
    }

    /// The declaration of a variable.
    pub fn emit_decl_stmt(&mut self, env: &Env, x: &Rc<Ident>, ty: &Rc<Type>) -> (out: Doc)
        ensures
            (*final(self), out) == spec_emit_decl_stmt(*old(self), *env, *x, *ty),
            extends(final(self).diags, old(self).diags),
            final(self).fn_module_map == old(self).fn_module_map,
            final(self).typedef_override_map == old(self).typedef_override_map,
    {
        proof {
            reveal(spec_emit_decl_stmt);
        }
        match &ty.val {
            TypeT::FixedArray(elem_ty, length) => {
                let name = self.emit_var_name(&x.val);
                let elem = self.emit_type(env, elem_ty);
                stack_array(name, elem, text_doc(cat(num(*length), lit("sz"))))
            }
            _ => {
                let name = self.emit_var_name(&x.val);
                let t = self.emit_type(env, ty);
                group(nest(d6(txt("let mut "), name, txt(" :"), line(), t, txt(";"))))
            }
        }
    }

    /// The declaration of a constant.
    pub fn emit_let_stmt(&mut self, env: &Env, x: &Rc<Ident>, ty: &Rc<Type>, value: &Rc<Expr>) -> (out: Doc)
        ensures
            (*final(self), out) == spec_emit_let_stmt(*old(self), *env, *x, *ty, *value),
            extends(final(self).diags, old(self).diags),
            final(self).fn_module_map == old(self).fn_module_map,
            final(self).typedef_override_map == old(self).typedef_override_map,
    {
        proof {
            reveal(spec_emit_let_stmt);
        }
        let name = self.emit_var_name(&x.val);
        let t = self.emit_type(env, ty);
        let v = self.emit_rvalue(env, value);
        group(nest(d3(group(d7(txt("let "), name, txt(" :"), line(), t, line(), txt("="))), nest(d2(line(), v)), txt(";"))))
    }

    /// A store to the place `x`.
    pub fn emit_store(&mut self, env: &Env, x: &Rc<Expr>, t: &Rc<Expr>) -> (out: Doc)
        ensures
            (*final(self), out) == spec_emit_store(*old(self), *env, *x, *t),
            extends(final(self).diags, old(self).diags),
            final(self).fn_module_map == old(self).fn_module_map,
            final(self).typedef_override_map == old(self).typedef_override_map,
    {
        proof {
            reveal(spec_emit_store);
        }
        let lhs = self.emit_lvalue(env, x);
        let rhs = self.emit_rvalue(env, t);
        store_stmt(lhs, rhs)
    }

    /// A store to a field of a record. The arm of a union is stored with its constructor, and a
    /// bit-field truncated to its width.
    pub fn emit_member_store(
        &mut self,
        env: &Env,
        x: &Rc<Expr>,
        base: &Rc<Expr>,
        fld: &Rc<Ident>,
        t: &Rc<Expr>,
    ) -> (out: Doc)
        ensures
            (*final(self), out) == spec_emit_member_store(*old(self), *env, *x, *base, *fld, *t),
            extends(final(self).diags, old(self).diags),
            final(self).fn_module_map == old(self).fn_module_map,
            final(self).typedef_override_map == old(self).typedef_override_map,
    {
        proof {
            reveal(spec_emit_member_store);
        }
        match union_of(env, base) {
            Some(u) => {
                let ctor = self.emit_name(Name::UnionFieldConstructor(u.val.clone(), fld.val.clone()));
                let lhs = self.emit_lvalue(env, base);
                let rhs = self.emit_rvalue(env, t);
                store_stmt(lhs, unaryfn(ctor, rhs))
            }
            None => {
                let value = self.emit_rvalue(env, t);
                let rhs = match bitfield_member_mask(env, base, fld) {
                    Some(m) => naryfn(&l3(txt(m.mask_fn), text_doc(width_text(m.width)), value)),
                    None => value,
                };
                let lhs = self.emit_lvalue(env, x);
                store_stmt(lhs, rhs)
            }
        }
    }

    /// A store to a field of a struct that an array holds: `a[i].f = t`, or `p->f = t` where `p`
    /// is an array or a place in one.
    pub fn emit_element_update(
        &mut self,
        env: &Env,
        arr: &Rc<Expr>,
        idx: &Option<Rc<Expr>>,
        s: &Rc<Ident>,
        fld: &Rc<Ident>,
        t: &Rc<Expr>,
    ) -> (out: Doc)
        ensures
            (*final(self), out) == spec_emit_element_update(*old(self), *env, *arr, *idx, *s, *fld, *t),
            extends(final(self).diags, old(self).diags),
            final(self).fn_module_map == old(self).fn_module_map,
            final(self).typedef_override_map == old(self).typedef_override_map,
    {
        proof {
            reveal(spec_emit_element_update);
        }
        let a = to_rvalue_decayed(self.emit_expr(env, arr));
        let i = match idx {
            Some(e) => self.emit_rvalue(env, e),
            None => txt("0sz"),
        };
        let field = self.emit_name(Name::StructDirectFieldName(s.val.clone(), fld.val.clone()));
        let update = d3(txt("(fun __v __y -> { __v with "), field, txt(" = __y })"));
        let value = self.emit_rvalue(env, t);
        call_stmt(naryfn(&l5(txt(array_fn(env, arr, "arrayptr_update", "array_update")), a, i, update, value)))
    }

    /// A store to a field.
    pub fn emit_field_assign(
        &mut self,
        env: &Env,
        x: &Rc<Expr>,
        base: &Rc<Expr>,
        fld: &Rc<Ident>,
        t: &Rc<Expr>,
    ) -> (out: Doc)
        ensures
            (*final(self), out) == spec_emit_field_assign(*old(self), *env, *x, *base, *fld, *t),
            extends(final(self).diags, old(self).diags),
            final(self).fn_module_map == old(self).fn_module_map,
            final(self).typedef_override_map == old(self).typedef_override_map,
    {
        proof {
            reveal(spec_emit_field_assign);
        }
        match struct_of(env, base) {
            Some(s) => match &base.val {
                ExprT::Index(arr, idx) => self.emit_element_update(env, arr, &Some(idx.clone()), &s, fld, t),
                ExprT::Deref(ptr) => if is_array_pointer(env, ptr) {
                    self.emit_element_update(env, ptr, &None, &s, fld, t)
                } else {
                    self.emit_member_store(env, x, base, fld, t)
                },
                _ => self.emit_member_store(env, x, base, fld, t),
            },
            None => self.emit_member_store(env, x, base, fld, t),
        }
    }

    /// A write to an array.
    pub fn emit_array_write(
        &mut self,
        env: &Env,
        f: &'static str,
        arr: Doc,
        idx: Doc,
        t: &Rc<Expr>,
    ) -> (out: Doc)
        ensures
            (*final(self), out) == spec_emit_array_write(*old(self), *env, f, arr, idx, *t),
            extends(final(self).diags, old(self).diags),
            final(self).fn_module_map == old(self).fn_module_map,
            final(self).typedef_override_map == old(self).typedef_override_map,
    {
        proof {
            reveal(spec_emit_array_write);
        }
        let v = self.emit_rvalue(env, t);
        call_stmt(naryfn(&l4(txt(f), arr, idx, v)))
    }

    /// An assignment, by the shape of the place.
    pub fn emit_place_assign(&mut self, env: &Env, x: &Rc<Expr>, t: &Rc<Expr>) -> (out: Doc)
        ensures
            (*final(self), out) == spec_emit_place_assign(*old(self), *env, *x, *t),
            extends(final(self).diags, old(self).diags),
            final(self).fn_module_map == old(self).fn_module_map,
            final(self).typedef_override_map == old(self).typedef_override_map,
    {
        proof {
            reveal(spec_emit_place_assign);
        }
        match &x.val {
            ExprT::Member(base, fld) => self.emit_field_assign(env, x, base, fld, t),
            ExprT::Index(arr, idx) => {
                let a = to_rvalue_decayed(self.emit_expr(env, arr));
                let i = self.emit_rvalue(env, idx);
                self.emit_array_write(env, array_fn(env, arr, "arrayptr_write", "array_write"), a, i, t)
            }
            ExprT::Deref(inner) => if is_array_pointer(env, inner) {
                let a = self.emit_rvalue(env, inner);
                self.emit_array_write(env, array_fn(env, inner, "arrayptr_write", "array_write"), a, txt("0sz"), t)
            } else {
                self.emit_store(env, x, t)
            },
            _ => self.emit_store(env, x, t),
        }
    }

    /// An assignment to a pointer to one object. The cell of an array that it comes to point to
    /// is borrowed.
    pub fn emit_borrowing_assign(&mut self, env: &Env, x: &Rc<Expr>, t: &Rc<Expr>) -> (out: Doc)
        ensures
            (*final(self), out) == spec_emit_borrowing_assign(*old(self), *env, *x, *t),
            extends(final(self).diags, old(self).diags),
            final(self).fn_module_map == old(self).fn_module_map,
            final(self).typedef_override_map == old(self).typedef_override_map,
    {
        proof {
            reveal(spec_emit_borrowing_assign);
        }
        match cell_address(env, t) {
            Some(cell) => {
                let arr = self.emit_rvalue(env, &cell.arr);
                let idx = self.emit_rvalue(env, &cell.idx);
                let lhs = self.emit_lvalue(env, x);
                store_stmt(lhs, naryfn(&l3(txt("array_borrow_cell"), arr, idx)))
            }
            None => match &t.val {
                ExprT::Cast(inner, _) => if is_pointer(env, inner, PointerKind::ArrayPtr) {
                    let ap = self.emit_rvalue(env, inner);
                    let lhs = self.emit_lvalue(env, x);
                    store_stmt(lhs, naryfn(&l2(txt("arrayptr_borrow_cell"), ap)))
                } else {
                    self.emit_place_assign(env, x, t)
                },
                _ => self.emit_place_assign(env, x, t),
            },
        }
    }

    /// An assignment that is no initialization of a whole array.
    pub fn emit_ordinary_assign(&mut self, env: &Env, x: &Rc<Expr>, t: &Rc<Expr>) -> (out: Doc)
        ensures
            (*final(self), out) == spec_emit_ordinary_assign(*old(self), *env, *x, *t),
            extends(final(self).diags, old(self).diags),
            final(self).fn_module_map == old(self).fn_module_map,
            final(self).typedef_override_map == old(self).typedef_override_map,
    {
        proof {
            reveal(spec_emit_ordinary_assign);
        }
        if is_pointer(env, x, PointerKind::Ref) { self.emit_borrowing_assign(env, x, t) } else { self.emit_place_assign(env, x, t) }
    }

    /// An assignment. An array literal that fills an array is written element by element: C
    /// arrays are not assignable, so this comes from the initializer of a declaration.
    pub fn emit_assign(&mut self, env: &Env, x: &Rc<Expr>, t: &Rc<Expr>) -> (out: Doc)
        ensures
            (*final(self), out) == spec_emit_assign(*old(self), *env, *x, *t),
            extends(final(self).diags, old(self).diags),
            final(self).fn_module_map == old(self).fn_module_map,
            final(self).typedef_override_map == old(self).typedef_override_map,
    {
        proof {
            reveal(spec_emit_assign);
        }
        match array_literal_init(t) {
            Some(init) => match filled_len(env, x, &init) {
                Some(n) => {
                    let arr = to_rvalue_decayed(self.emit_expr(env, x));
                    let contents = self.emit_rvalue(env, &init);
                    call_stmt(naryfn(&l4(txt("array_multiple_writes"), arr, text_doc(cat(num(n), lit("sz"))), contents)))
                }
                None => self.emit_ordinary_assign(env, x, t),
            },
            None => self.emit_ordinary_assign(env, x, t),
        }
    }

    /// The cases of a branch, one for each pattern.
    pub fn emit_branch_cases(
        &mut self,
        env: &Env,
        patterns: &Rc<List<Expr>>,
        body: &Rc<List<Stmt>>,
    ) -> (out: Rc<List<DocT>>)
        ensures
            (*final(self), out) == spec_emit_branch_cases(*old(self), *env, *patterns, *body),
            extends(final(self).diags, old(self).diags),
            final(self).fn_module_map == old(self).fn_module_map,
            final(self).typedef_override_map == old(self).typedef_override_map,
        decreases body, 10nat, patterns,
    {
        match &**patterns {
            List::Nil => nil(),
            List::Cons(p, t) => {
                let pat = self.emit_pattern(env, p);
                let b = self.emit_block(env, body);
                cons(nest(d4(line(), pat, txt(" -> "), b)), self.emit_branch_cases(env, t, body))
            }
        }
    }

    /// The cases of a branch.
    pub fn emit_branch(&mut self, env: &Env, b: &Rc<Branch>) -> (out: Rc<List<DocT>>)
        ensures
            (*final(self), out) == spec_emit_branch(*old(self), *env, *b),
            extends(final(self).diags, old(self).diags),
            final(self).fn_module_map == old(self).fn_module_map,
            final(self).typedef_override_map == old(self).typedef_override_map,
        decreases b, 0nat,
    {
        self.emit_branch_cases(env, &b.patterns, &b.body)
    }

    /// The cases of branches.
    pub fn emit_branches(&mut self, env: &Env, l: &Rc<List<Branch>>) -> (out: Rc<List<DocT>>)
        ensures
            (*final(self), out) == spec_emit_branches(*old(self), *env, *l),
            extends(final(self).diags, old(self).diags),
            final(self).fn_module_map == old(self).fn_module_map,
            final(self).typedef_override_map == old(self).typedef_override_map,
        decreases l, 0nat,
    {
        match &**l {
            List::Nil => nil(),
            List::Cons(b, t) => {
                let cases = self.emit_branch(env, b);
                list_append(&cases, self.emit_branches(env, t))
            }
        }
    }

    /// A conditional.
    pub fn emit_if(&mut self, env: &Env, stmt: &Rc<Stmt>) -> (out: Doc)
        ensures
            (*final(self), out) == spec_emit_if(*old(self), *env, *stmt),
            extends(final(self).diags, old(self).diags),
            final(self).fn_module_map == old(self).fn_module_map,
            final(self).typedef_override_map == old(self).typedef_override_map,
        decreases stmt, 3nat,
    {
        match &stmt.val {
            StmtT::If { cond, then_branch, else_branch, ensures_ } => {
                let c = parens(self.emit_rvalue(env, cond));
                let e = if_clauses(nil_doc(), &self.emit_rvalues(env, ensures_));
                let a = self.emit_block(env, then_branch);
                let b = self.emit_block(env, else_branch);
                group(d7(nest(d2(txt("if "), c)), e, txt(" "), a, txt(" else "), b, txt(";")))
            }
            _ => nil_doc(),
        }
    }

    /// A case distinction. Where it has a postcondition, a label after it fixes that of the join.
    pub fn emit_match(&mut self, env: &Env, stmt: &Rc<Stmt>) -> (out: Doc)
        ensures
            (*final(self), out) == spec_emit_match(*old(self), *env, *stmt),
            extends(final(self).diags, old(self).diags),
            final(self).fn_module_map == old(self).fn_module_map,
            final(self).typedef_override_map == old(self).typedef_override_map,
        decreases stmt, 3nat,
    {
        match &stmt.val {
            StmtT::Match { scrutinee, branches, default_branch, ensures_ } => {
                let cases = self.emit_branches(env, branches);
                let subject = parens(self.emit_rvalue(env, scrutinee));
                let default = self.emit_block(env, default_branch);
                let m = group(d3(
                    nest(d7(txt("match "), subject, txt(" {"), concat(&cases), line(), txt("_ -> "), default)),
                    line(), txt("};")));
                if list_is_empty(ensures_) {
                    m
                } else {
                    let d = join_clauses(block(d2(hardline(), m)), &self.emit_rvalues(env, ensures_));
                    let label = self.fresh_tmp("match_join");
                    d5(d, hardline(), txt("label "), label, txt(":;"))
                }
            }
            _ => nil_doc(),
        }
    }

    /// A loop.
    pub fn emit_while(&mut self, env: &Env, stmt: &Rc<Stmt>) -> (out: Doc)
        ensures
            (*final(self), out) == spec_emit_while(*old(self), *env, *stmt),
            extends(final(self).diags, old(self).diags),
            final(self).fn_module_map == old(self).fn_module_map,
            final(self).typedef_override_map == old(self).typedef_override_map,
        decreases stmt, 3nat,
    {
        match &stmt.val {
            StmtT::While { cond, inv, requires_, ensures_, body } => {
                let c = parens(self.emit_rvalue(env, cond));
                let i = loop_clauses(nil_doc(), "invariant ", &self.emit_rvalues(env, inv));
                let r = loop_clauses(nil_doc(), "requires ", &self.emit_rvalues(env, requires_));
                let e = loop_clauses(nil_doc(), "ensures ", &self.emit_rvalues(env, ensures_));
                let b = self.emit_block(env, body);
                group(d3(nest(d6(txt("while "), c, line(), i, r, e)), b, txt(";")))
            }
            _ => nil_doc(),
        }
    }

    /// A block that gotos leave.
    pub fn emit_goto_block(&mut self, env: &Env, stmt: &Rc<Stmt>) -> (out: Doc)
        ensures
            (*final(self), out) == spec_emit_goto_block(*old(self), *env, *stmt),
            extends(final(self).diags, old(self).diags),
            final(self).fn_module_map == old(self).fn_module_map,
            final(self).typedef_override_map == old(self).typedef_override_map,
        decreases stmt, 3nat,
    {
        match &stmt.val {
            StmtT::GotoBlock { body, label, ensures_ } => {
                let b = block(self.emit_stmts(env, body));
                let d = join_clauses(b, &self.emit_rvalues(env, ensures_));
                let name = self.emit_name(Name::Label(label.val.clone()));
                d5(d, hardline(), txt("label "), name, txt(":;"))
            }
            _ => nil_doc(),
        }
    }

    /// A statement.
    pub fn emit_stmt(&mut self, env: &Env, stmt: &Rc<Stmt>) -> (out: Doc)
        ensures
            (*final(self), out) == spec_emit_stmt(*old(self), *env, *stmt),
            extends(final(self).diags, old(self).diags),
            final(self).fn_module_map == old(self).fn_module_map,
            final(self).typedef_override_map == old(self).typedef_override_map,
        decreases stmt, 5nat,
    {
        let d = match &stmt.val {
            StmtT::Call(v) => self.emit_call_stmt(env, v),
            StmtT::Decl(x, ty) => self.emit_decl_stmt(env, x, ty),
            StmtT::Let(x, ty, value) => self.emit_let_stmt(env, x, ty, value),
            StmtT::DeclStackArray { name, elem_type, size } => {
                let x = self.emit_var_name(&name.val);
                let n = self.emit_rvalue(env, size);
                let elem = self.emit_type(env, elem_type);
                stack_array(x, elem, n)
            }
            StmtT::Assign(x, t) => self.emit_assign(env, x, t),
            StmtT::If { .. } => self.emit_if(env, stmt),
            StmtT::Match { .. } => self.emit_match(env, stmt),
            StmtT::While { .. } => self.emit_while(env, stmt),
            StmtT::Break => txt("break;"),
            StmtT::Continue => txt("continue;"),
            StmtT::Return(Some(t)) => nest(group(d4(txt("return"), line(), self.emit_rvalue(env, t), txt(";")))),
            StmtT::Return(None) => txt("return;"),
            StmtT::Assert(v) => nest(group(d4(txt("assert"), line(), self.emit_rvalue(env, v), txt(";")))),
            StmtT::GhostStmt(code) => d2(concat(&self.emit_tokens(env, &code.tokens)), txt(";")),
            StmtT::Goto(label) => d3(txt("goto "), self.emit_name(Name::Label(label.val.clone())), txt(";")),
            StmtT::Label { .. } => txt("(* unrestructured label *)"),
            StmtT::GotoBlock { .. } => self.emit_goto_block(env, stmt),
            StmtT::Error => txt("(admit());"),
        };
        annotated(&stmt.loc, d)
    }

    /// The ghost code at the front, and then the return of a value that it may speak of.
    pub fn emit_ghosts_onto(
        &mut self,
        env: &Env,
        acc: Doc,
        stmts: &Rc<List<Stmt>>,
        ret_name: &Doc,
    ) -> (out: Doc)
        ensures
            (*final(self), out) == spec_emit_ghosts_onto(*old(self), *env, acc, *stmts, *ret_name),
            extends(final(self).diags, old(self).diags),
            final(self).fn_module_map == old(self).fn_module_map,
            final(self).typedef_override_map == old(self).typedef_override_map,
        decreases stmts, 7nat,
    {
        match &**stmts {
            List::Cons(s, t) => if is_ghost(s) {
                let d = self.emit_stmt(env, s);
                self.emit_ghosts_onto(&push_stmt(env, s), d2(acc, d2(line(), d)), t, ret_name)
            } else {
                d2(acc, d2(line(), nest(group(d4(txt("return"), line(), ret_name.clone(), txt(";"))))))
            },
            List::Nil => d2(acc, d2(line(), nest(group(d4(txt("return"), line(), ret_name.clone(), txt(";")))))),
        }
    }

    /// The statements after `acc`. A `return` with ghost code behind it is split, so that the
    /// ghost code runs before it, with access to the value; what follows is not reached.
    pub fn emit_stmts_onto(&mut self, env: &Env, acc: Doc, stmts: &Rc<List<Stmt>>) -> (out: Doc)
        ensures
            (*final(self), out) == spec_emit_stmts_onto(*old(self), *env, acc, *stmts),
            extends(final(self).diags, old(self).diags),
            final(self).fn_module_map == old(self).fn_module_map,
            final(self).typedef_override_map == old(self).typedef_override_map,
        decreases stmts, 8nat,
    {
        match &**stmts {
            List::Nil => acc,
            List::Cons(s, t) => match (&s.val, starts_with_ghost(t)) {
                (StmtT::Return(Some(e)), true) => {
                    let value = self.emit_rvalue(env, e);
                    let name = self.emit_var_name(&lit("return"));
                    let bound = group(d5(txt("let "), name.clone(), txt(" = "), value, txt(";")));
                    self.emit_ghosts_onto(env, d2(acc, d2(line(), bound)), t, &name)
                }
                _ => {
                    let d = self.emit_stmt(env, s);
                    self.emit_stmts_onto(&push_stmt(env, s), d2(acc, d2(line(), d)), t)
                }
            },
        }
    }

    /// Statements.
    pub fn emit_stmts(&mut self, env: &Env, stmts: &Rc<List<Stmt>>) -> (out: Doc)
        ensures
            (*final(self), out) == spec_emit_stmts(*old(self), *env, *stmts),
            extends(final(self).diags, old(self).diags),
            final(self).fn_module_map == old(self).fn_module_map,
            final(self).typedef_override_map == old(self).typedef_override_map,
        decreases stmts, 9nat,
    {
        self.emit_stmts_onto(env, nil_doc(), stmts)
    }

    /// Statements in braces.
    pub fn emit_block(&mut self, env: &Env, stmts: &Rc<List<Stmt>>) -> (out: Doc)
        ensures
            (*final(self), out) == spec_emit_block(*old(self), *env, *stmts),
            extends(final(self).diags, old(self).diags),
            final(self).fn_module_map == old(self).fn_module_map,
            final(self).typedef_override_map == old(self).typedef_override_map,
        decreases stmts, 9nat,
    {
        if list_is_empty(stmts) { txt("{}") } else { block(self.emit_stmts_onto(env, nil_doc(), stmts)) }
    }

    /// The cases of a branch in a pure function, one for each pattern.
    pub fn emit_pure_cases(
        &mut self,
        env: &Env,
        patterns: &Rc<List<Expr>>,
        body: &Rc<List<Stmt>>,
        fuel: u64,
    ) -> (out: Rc<List<DocT>>)
        ensures
            (*final(self), out) == spec_emit_pure_cases(*old(self), *env, *patterns, *body, fuel),
            extends(final(self).diags, old(self).diags),
            final(self).fn_module_map == old(self).fn_module_map,
            final(self).typedef_override_map == old(self).typedef_override_map,
        decreases fuel, 2nat, patterns,
    {
        match &**patterns {
            List::Nil => nil(),
            List::Cons(p, t) => {
                let pat = self.emit_pattern(env, p);
                let b = self.emit_pure_body(env, body, fuel);
                cons(d5(line(), txt("| "), pat, txt(" ->"), nest(d2(line(), b))), self.emit_pure_cases(env, t, body, fuel))
            }
        }
    }

    /// The cases of branches in a pure function, each followed by the rest of the function.
    pub fn emit_pure_branches(
        &mut self,
        env: &Env,
        l: &Rc<List<Branch>>,
        rest: &Rc<List<Stmt>>,
        fuel: u64,
    ) -> (out: Rc<List<DocT>>)
        ensures
            (*final(self), out) == spec_emit_pure_branches(*old(self), *env, *l, *rest, fuel),
            extends(final(self).diags, old(self).diags),
            final(self).fn_module_map == old(self).fn_module_map,
            final(self).typedef_override_map == old(self).typedef_override_map,
        decreases fuel, 3nat, l,
    {
        match &**l {
            List::Nil => nil(),
            List::Cons(b, t) => {
                let cases = self.emit_pure_cases(env, &b.patterns, &append_rest(&b.body, rest), fuel);
                list_append(&cases, self.emit_pure_branches(env, t, rest, fuel))
            }
        }
    }

    /// The value that the statements of a pure function compute. Each step takes a statement off,
    /// so `fuel` steps are enough where there are no more statements than that.
    pub fn emit_pure_body(&mut self, env: &Env, stmts: &Rc<List<Stmt>>, fuel: u64) -> (out: Doc)
        ensures
            (*final(self), out) == spec_emit_pure_body(*old(self), *env, *stmts, fuel),
            extends(final(self).diags, old(self).diags),
            final(self).fn_module_map == old(self).fn_module_map,
            final(self).typedef_override_map == old(self).typedef_override_map,
        decreases fuel, 0nat, stmts,
    {
        match &**stmts {
            List::Nil => txt("()"),
            List::Cons(s, rest) => if fuel == 0 { txt("(admit())") } else { self.emit_pure_stmt(env, s, rest, drop_one(fuel)) },
        }
    }

    /// The value that a statement of a pure function computes with those after it.
    pub fn emit_pure_stmt(
        &mut self,
        env: &Env,
        s: &Rc<Stmt>,
        rest: &Rc<List<Stmt>>,
        fuel: u64,
    ) -> (out: Doc)
        ensures
            (*final(self), out) == spec_emit_pure_stmt(*old(self), *env, *s, *rest, fuel),
            extends(final(self).diags, old(self).diags),
            final(self).fn_module_map == old(self).fn_module_map,
            final(self).typedef_override_map == old(self).typedef_override_map,
        decreases fuel, 5nat, rest,
    {
        match &s.val {
            StmtT::Return(Some(e)) if list_is_empty(rest) => self.emit_rvalue(env, e),
            StmtT::Return(None) if list_is_empty(rest) => txt("()"),
            StmtT::If { cond, then_branch, else_branch, .. } => {
                let c = self.emit_rvalue(env, cond);
                let a = self.emit_pure_body(&push_stmts(env, then_branch), &append_rest(then_branch, rest), fuel);
                let b = self.emit_pure_body(&push_stmts(env, else_branch), &append_rest(else_branch, rest), fuel);
                if_then_else(c, a, b)
            }
            StmtT::GhostStmt(code) => {
                let ghost_doc = concat(&self.emit_tokens(env, &code.tokens));
                let r = self.emit_pure_body(&push_declared(env, &code.tokens), rest, fuel);
                parens(d5(nest(group(d5(txt("let"), line(), txt("_"), line(), txt("=")))), nest(d2(line(), ghost_doc)),
                    line(), txt("in"), nest(d2(line(), r))))
            }
            StmtT::Match { scrutinee, branches, default_branch, .. } => {
                let cases = self.emit_pure_branches(env, branches, rest, fuel);
                let subject = self.emit_rvalue(env, scrutinee);
                let default = self.emit_pure_body(env, &append_rest(default_branch, rest), fuel);
                parens(d9(txt("match"), line(), subject, line(), txt("with"), concat(&cases), line(), txt("| _ ->"), nest(d2(line(), default))))
            }
            StmtT::Let(x, ty, value) => {
                let v = self.emit_rvalue(env, value);
                let t = self.emit_type(env, ty);
                let r = self.emit_pure_body(&push_var_decl(env, x, ty.clone(), LocalDeclKind::RValue), rest, fuel);
                let name = self.emit_var_name(&x.val);
                pure_let(name, t, v, r)
            }
            StmtT::Decl(x, ty) => match assigned_first(rest, x) {
                Some(rhs) => {
                    let env2 = push_var_decl(env, x, ty.clone(), LocalDeclKind::RValue);
                    let r = self.emit_pure_body(&env2, &later_stmts(rest), fuel);
                    let name = self.emit_var_name(&x.val);
                    let t = self.emit_type(&env2, ty);
                    let v = self.emit_rvalue(&env2, &rhs);
                    pure_let(name, t, v, r)
                }
                None => self.admit_at(lit("unsupported declaration without assignment in pure function"), &s.loc),
            },
            _ => self.admit_at(cat(lit("unsupported statement in pure function: "), show_stmt(s)), &s.loc),
        }
    }
}

} // verus!
