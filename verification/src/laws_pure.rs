//! What is proved of the bodies of pure functions.

use crate::list::{List, spec_drop_one};
use crate::ir::{Branch, Decl, Expr, Stmt, StmtT};
use crate::env::{
    Env, LocalDeclKind, spec_plus, spec_push_declared, spec_push_stmts, spec_push_var_decl,
};
use crate::emit_base::{Emitter, spec_append_rest};
use crate::emit_types::spec_emit_type;
use crate::emit_exprs::{spec_emit_pattern, spec_emit_rvalue, spec_emit_tokens};
use crate::emit_stmts::{
    spec_branch_size, spec_branches_size, spec_emit_pure_body, spec_emit_pure_branches,
    spec_emit_pure_cases, spec_emit_pure_stmt, spec_later_stmts, spec_stmt_size, spec_stmts_size,
};
use crate::merge::Match;
use crate::laws_goto::branch_body;
use crate::laws_rename::code_tokens;
use crate::laws_check::branch_patterns;
use std::rc::Rc;
use vstd::prelude::*;

verus! {

/// How many statements there are, also within conditionals and case distinctions.
pub open spec fn pure_count(l: Rc<List<Stmt>>) -> nat
    decreases l,
{
    match *l {
        List::Nil => 0,
        List::Cons(h, t) => pure_count_in(h) + pure_count(t),
    }
}

/// How many statements a statement is made of.
pub open spec fn pure_count_in(s: Rc<Stmt>) -> nat
    decreases s,
{
    match s.val {
        StmtT::If { then_branch, else_branch, .. } => 1 + pure_count(then_branch) + pure_count(else_branch),
        StmtT::Match { branches, default_branch, .. } => 1 + pure_count_in_branches(branches) + pure_count(default_branch),
        _ => 1,
    }
}

/// How many statements a branch is made of.
pub open spec fn pure_count_in_branch(b: Rc<Branch>) -> nat
    decreases b,
{
    pure_count(b.body)
}

/// How many statements branches are made of.
pub open spec fn pure_count_in_branches(l: Rc<List<Branch>>) -> nat
    decreases l,
{
    match *l {
        List::Nil => 0,
        List::Cons(h, t) => pure_count_in_branch(h) + pure_count_in_branches(t),
    }
}

/// The statements of two lists are those of both.
proof fn lemma_pure_count_append(a: Rc<List<Stmt>>, b: Rc<List<Stmt>>)
    ensures
        pure_count(spec_append_rest(a, b)) == pure_count(a) + pure_count(b),
    decreases a,
{
    reveal(spec_append_rest);
    match *a {
        List::Nil => {},
        List::Cons(_, t) => lemma_pure_count_append(t, b),
    }
}

/// Every statement counts.
proof fn lemma_pure_count_tail(l: Rc<List<Stmt>>)
    ensures
        match *l {
            List::Nil => pure_count(l) == 0,
            List::Cons(h, t) => pure_count_in(h) >= 1 && pure_count(l) == pure_count_in(h) + pure_count(t),
        },
{
    match *l {
        List::Nil => {},
        List::Cons(h, _) => {
            assert(pure_count_in(h) >= 1);
        },
    }
}

/// The statements are counted exactly, up to the largest number.
proof fn lemma_stmts_size(l: Rc<List<Stmt>>)
    requires
        pure_count(l) <= u64::MAX,
    ensures
        spec_stmts_size(l) == pure_count(l),
    decreases l,
{
    reveal(spec_plus);
    match *l {
        List::Nil => {},
        List::Cons(h, t) => {
            lemma_stmt_size(h);
            lemma_stmts_size(t);
        },
    }
}

/// The statements of one are counted exactly, up to the largest number.
proof fn lemma_stmt_size(s: Rc<Stmt>)
    requires
        pure_count_in(s) <= u64::MAX,
    ensures
        spec_stmt_size(s) == pure_count_in(s),
    decreases s,
{
    reveal(spec_plus);
    match s.val {
        StmtT::If { then_branch, else_branch, .. } => {
            lemma_stmts_size(then_branch);
            lemma_stmts_size(else_branch);
        },
        StmtT::Match { branches, default_branch, .. } => {
            lemma_branches_size(branches);
            lemma_stmts_size(default_branch);
        },
        _ => {},
    }
}

/// The statements of a branch are counted exactly, up to the largest number.
proof fn lemma_branch_size(b: Rc<Branch>)
    requires
        pure_count_in_branch(b) <= u64::MAX,
    ensures
        spec_branch_size(b) == pure_count_in_branch(b),
    decreases b,
{
    lemma_stmts_size(branch_body(b));
}

/// The statements of branches are counted exactly, up to the largest number.
proof fn lemma_branches_size(l: Rc<List<Branch>>)
    requires
        pure_count_in_branches(l) <= u64::MAX,
    ensures
        spec_branches_size(l) == pure_count_in_branches(l),
    decreases l,
{
    reveal(spec_plus);
    match *l {
        List::Nil => {},
        List::Cons(h, t) => {
            lemma_branch_size(h);
            lemma_branches_size(t);
        },
    }
}

/// The cases of a branch do not depend on the steps, where there are enough.
proof fn lemma_cases_same(st: Emitter, env: Env, patterns: Rc<List<Expr>>, body: Rc<List<Stmt>>, f: u64, g: u64)
    requires
        pure_count(body) <= f,
        pure_count(body) <= g,
    ensures
        spec_emit_pure_cases(st, env, patterns, body, f) == spec_emit_pure_cases(st, env, patterns, body, g),
    decreases f, 2nat, patterns,
{
    match *patterns {
        List::Nil => {},
        List::Cons(p, t) => {
            let st1 = spec_emit_pattern(st, env, p).0;
            law_more_steps_change_nothing(st1, env, body, f, g);
            let st2 = spec_emit_pure_body(st1, env, body, f).0;
            lemma_cases_same(st2, env, t, body, f, g);
        },
    }
}

/// The cases of branches do not depend on the steps, where there are enough.
proof fn lemma_branches_same(st: Emitter, env: Env, l: Rc<List<Branch>>, rest: Rc<List<Stmt>>, f: u64, g: u64)
    requires
        pure_count_in_branches(l) + pure_count(rest) <= f,
        pure_count_in_branches(l) + pure_count(rest) <= g,
    ensures
        spec_emit_pure_branches(st, env, l, rest, f) == spec_emit_pure_branches(st, env, l, rest, g),
    decreases f, 3nat, l,
{
    match *l {
        List::Nil => {},
        List::Cons(b, t) => {
            let body = spec_append_rest(branch_body(b), rest);
            lemma_pure_count_append(branch_body(b), rest);
            assert(pure_count_in_branch(b) == pure_count(branch_body(b)));
            lemma_cases_same(st, env, branch_patterns(b), body, f, g);
            let st1 = spec_emit_pure_cases(st, env, branch_patterns(b), body, f).0;
            lemma_branches_same(st1, env, t, rest, f, g);
        },
    }
}

/// A statement with those after it does not depend on the steps, where there are enough.
proof fn lemma_pure_stmt_same(st: Emitter, env: Env, s: Rc<Stmt>, rest: Rc<List<Stmt>>, f: u64, g: u64)
    requires
        pure_count_in(s) + pure_count(rest) <= f + 1,
        pure_count_in(s) + pure_count(rest) <= g + 1,
    ensures
        spec_emit_pure_stmt(st, env, s, rest, f) == spec_emit_pure_stmt(st, env, s, rest, g),
    decreases f, 5nat, rest,
{
    match s.val {
        StmtT::If { cond, then_branch, else_branch, .. } => {
            lemma_pure_count_append(then_branch, rest);
            lemma_pure_count_append(else_branch, rest);
            let st1 = spec_emit_rvalue(st, env, cond).0;
            let a = spec_append_rest(then_branch, rest);
            let b = spec_append_rest(else_branch, rest);
            law_more_steps_change_nothing(st1, spec_push_stmts(env, then_branch), a, f, g);
            let st2 = spec_emit_pure_body(st1, spec_push_stmts(env, then_branch), a, f).0;
            law_more_steps_change_nothing(st2, spec_push_stmts(env, else_branch), b, f, g);
        },
        StmtT::GhostStmt(code) => {
            let st1 = spec_emit_tokens(st, env, code_tokens(code)).0;
            law_more_steps_change_nothing(st1, spec_push_declared(env, code_tokens(code)), rest, f, g);
        },
        StmtT::Match { scrutinee, branches, default_branch, .. } => {
            lemma_pure_count_append(default_branch, rest);
            lemma_branches_same(st, env, branches, rest, f, g);
            let st1 = spec_emit_pure_branches(st, env, branches, rest, f).0;
            let st2 = spec_emit_rvalue(st1, env, scrutinee).0;
            law_more_steps_change_nothing(st2, env, spec_append_rest(default_branch, rest), f, g);
        },
        StmtT::Let(x, ty, value) => {
            let st1 = spec_emit_rvalue(st, env, value).0;
            let st2 = spec_emit_type(st1, env, ty).0;
            law_more_steps_change_nothing(st2, spec_push_var_decl(env, x, ty, LocalDeclKind::RValue), rest, f, g);
        },
        StmtT::Decl(x, ty) => {
            reveal(spec_later_stmts);
            lemma_pure_count_tail(rest);
            law_more_steps_change_nothing(st, spec_push_var_decl(env, x, ty, LocalDeclKind::RValue), spec_later_stmts(rest), f, g);
        },
        _ => {},
    }
}

/// The value of a pure function's body does not depend on the steps that may be taken, where there
/// are as many as statements: more steps change nothing, and the bound on them is never reached.
pub proof fn law_more_steps_change_nothing(st: Emitter, env: Env, stmts: Rc<List<Stmt>>, f: u64, g: u64)
    requires
        pure_count(stmts) <= f,
        pure_count(stmts) <= g,
    ensures
        spec_emit_pure_body(st, env, stmts, f) == spec_emit_pure_body(st, env, stmts, g),
    decreases f, 0nat, stmts,
{
    lemma_pure_count_tail(stmts);
    match *stmts {
        List::Nil => {},
        List::Cons(s, rest) => lemma_pure_stmt_same(st, env, s, rest, spec_drop_one(f), spec_drop_one(g)),
    }
}

/// As many steps as a pure function has statements are enough for its body, unless there are more
/// statements than numbers.
pub proof fn law_as_many_steps_as_statements_are_enough(st: Emitter, env: Env, stmts: Rc<List<Stmt>>, steps: u64)
    requires
        pure_count(stmts) <= steps,
    ensures
        spec_emit_pure_body(st, env, stmts, spec_stmts_size(stmts)) == spec_emit_pure_body(st, env, stmts, steps),
{
    lemma_stmts_size(stmts);
    law_more_steps_change_nothing(st, env, stmts, spec_stmts_size(stmts), steps);
}

} // verus!
