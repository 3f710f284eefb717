//! Post-translation assumptions report.
//!
//! A function that is declared and never defined is emitted as an *assumed* Pulse `fn`: its
//! contract is trusted, and its body is never reached. A struct that is declared and never
//! defined becomes an abstract `assume val` type. Verification silently rests on these
//! assumptions; this pass collects them, so that the user gets an explicit list of the
//! definitions and specifications that are still to be provided.

use crate::list::{
    List, bump, cons, l1, lemma_items_list_of, list_is_empty, list_len, list_of, nil, spec_bump,
    spec_cons, spec_l1, spec_list_is_empty, spec_list_len, spec_nil,
};
use crate::text::{
    Rope, Text, cat, cat3, cat4, cat5, lit, num, rope_string, same_text, spec_cat, spec_cat3,
    spec_cat4, spec_cat5, spec_lit, spec_num, spec_same_text, spec_text_less,
    spec_text_starts_with, spec_width_text, text_less, text_starts_with, width_text,
};
use crate::ir::{
    BinOp, Branch, Decl, DeclT, Expr, ExprT, FieldInit, FnDecl, FnDefn, InlinePulseToken, Loc,
    Stmt, StmtT, TranslationUnit, UnOp, VAttr,
};
use crate::env::{plus, spec_plus};
use crate::merge::Match;
use crate::laws_merge::bag;
use crate::laws_report::{entries, law_assumptions_are_sorted, sorted};
use std::rc::Rc;
use vstd::prelude::*;

verus! {

/// A function whose contract is trusted.
pub struct AssumedFn {
    pub name: Text,
    pub loc: Loc,
    pub has_spec: bool,
    pub is_pure: bool,
    pub call_sites: u64,
}

/// A type whose layout is unknown.
pub struct OpaqueType {
    pub name: Text,
    pub loc: Loc,
}

pub struct AssumptionsReport {
    pub assumed_fns: Vec<Rc<AssumedFn>>,
    pub opaque_types: Vec<Rc<OpaqueType>>,
}

/// How often the expression calls the function. A reference to a function is no call, and calls
/// inside types do not count.
pub open spec fn spec_calls_in_expr(e: Rc<Expr>, f: Text) -> u64
    decreases e,
{
    match e.val {
        ExprT::FnCall(g, args) => {
            if spec_same_text(g.val, f) {
                spec_bump(spec_calls_in_exprs(args, f))
            } else {
                spec_calls_in_exprs(args, f)
            }
        },
        ExprT::FnPtrCall(callee, args) => spec_plus(spec_calls_in_expr(callee, f), spec_calls_in_exprs(args, f)),
        ExprT::Deref(a) | ExprT::Member(a, _) | ExprT::VAttr(_, a) | ExprT::Ref(a) => spec_calls_in_expr(a, f),
        ExprT::Cast(a, _) | ExprT::Free(a) | ExprT::ContainerOf(a, _, _) | ExprT::PreIncr(a) => spec_calls_in_expr(a, f),
        ExprT::PostIncr(a) | ExprT::PreDecr(a) | ExprT::PostDecr(a) | ExprT::UnOp(_, a) => spec_calls_in_expr(a, f),
        ExprT::Live(a) | ExprT::Old(a) | ExprT::MallocArray(_, a) | ExprT::CallocArray(_, a) => spec_calls_in_expr(a, f),
        ExprT::MallocFlex(_, a) | ExprT::CallocFlex(_, a) | ExprT::MemsetZero(_, a) => spec_calls_in_expr(a, f),
        ExprT::Forall(_, _, a) | ExprT::Exists(_, _, a) | ExprT::UnionInit(_, _, a) => spec_calls_in_expr(a, f),
        ExprT::Index(a, b) | ExprT::BinOp(_, a, b) | ExprT::AssignExpr(a, b) => spec_plus(spec_calls_in_expr(a, f), spec_calls_in_expr(b, f)),
        ExprT::Memset(_, a, b, c) | ExprT::Cond(a, b, c) => spec_plus(spec_calls_in_expr(a, f), spec_plus(spec_calls_in_expr(b, f), spec_calls_in_expr(c, f))),
        ExprT::StructInit(_, inits) => spec_calls_in_inits(inits, f),
        ExprT::ArrayInit { elems, .. } => spec_calls_in_exprs(elems, f),
        ExprT::InlinePulse(code, _) => spec_calls_in_tokens(code.tokens, f),
        _ => 0,
    }
}

/// How often the expression calls the function. A reference to a function is no call, and calls
/// inside types do not count.
pub fn calls_in_expr(e: &Rc<Expr>, f: &Text) -> (out: u64)
    ensures
        out == spec_calls_in_expr(*e, *f),
    decreases e,
{
    match &e.val {
        ExprT::FnCall(g, args) => if same_text(&g.val, f) { bump(calls_in_exprs(args, f)) } else { calls_in_exprs(args, f) },
        ExprT::FnPtrCall(callee, args) => plus(calls_in_expr(callee, f), calls_in_exprs(args, f)),
        ExprT::Deref(a) | ExprT::Member(a, _) | ExprT::VAttr(_, a) | ExprT::Ref(a) => calls_in_expr(a, f),
        ExprT::Cast(a, _) | ExprT::Free(a) | ExprT::ContainerOf(a, _, _) | ExprT::PreIncr(a) => calls_in_expr(a, f),
        ExprT::PostIncr(a) | ExprT::PreDecr(a) | ExprT::PostDecr(a) | ExprT::UnOp(_, a) => calls_in_expr(a, f),
        ExprT::Live(a) | ExprT::Old(a) | ExprT::MallocArray(_, a) | ExprT::CallocArray(_, a) => calls_in_expr(a, f),
        ExprT::MallocFlex(_, a) | ExprT::CallocFlex(_, a) | ExprT::MemsetZero(_, a) => calls_in_expr(a, f),
        ExprT::Forall(_, _, a) | ExprT::Exists(_, _, a) | ExprT::UnionInit(_, _, a) => calls_in_expr(a, f),
        ExprT::Index(a, b) | ExprT::BinOp(_, a, b) | ExprT::AssignExpr(a, b) => plus(calls_in_expr(a, f), calls_in_expr(b, f)),
        ExprT::Memset(_, a, b, c) | ExprT::Cond(a, b, c) => plus(calls_in_expr(a, f), plus(calls_in_expr(b, f), calls_in_expr(c, f))),
        ExprT::StructInit(_, inits) => calls_in_inits(inits, f),
        ExprT::ArrayInit { elems, .. } => calls_in_exprs(elems, f),
        ExprT::InlinePulse(code, _) => calls_in_tokens(&code.tokens, f),
        _ => 0,
    }
}

/// How often the expressions call the function.
pub open spec fn spec_calls_in_exprs(l: Rc<List<Expr>>, f: Text) -> u64
    decreases l,
{
    match *l {
        List::Nil => 0,
        List::Cons(h, t) => spec_plus(spec_calls_in_expr(h, f), spec_calls_in_exprs(t, f)),
    }
}

/// How often the expressions call the function.
pub fn calls_in_exprs(l: &Rc<List<Expr>>, f: &Text) -> (out: u64)
    ensures
        out == spec_calls_in_exprs(*l, *f),
    decreases l,
{
    match &**l {
        List::Nil => 0,
        List::Cons(h, t) => plus(calls_in_expr(h, f), calls_in_exprs(t, f)),
    }
}

/// How often the value of a field calls the function.
pub open spec fn spec_calls_in_init(i: Rc<FieldInit>, f: Text) -> u64
    decreases i,
{
    spec_calls_in_expr(i.value, f)
}

/// How often the value of a field calls the function.
pub fn calls_in_init(i: &Rc<FieldInit>, f: &Text) -> (out: u64)
    ensures
        out == spec_calls_in_init(*i, *f),
    decreases i,
{
    calls_in_expr(&i.value, f)
}

/// How often the values of fields call the function.
pub open spec fn spec_calls_in_inits(l: Rc<List<FieldInit>>, f: Text) -> u64
    decreases l,
{
    match *l {
        List::Nil => 0,
        List::Cons(h, t) => spec_plus(spec_calls_in_init(h, f), spec_calls_in_inits(t, f)),
    }
}

/// How often the values of fields call the function.
pub fn calls_in_inits(l: &Rc<List<FieldInit>>, f: &Text) -> (out: u64)
    ensures
        out == spec_calls_in_inits(*l, *f),
    decreases l,
{
    match &**l {
        List::Nil => 0,
        List::Cons(h, t) => plus(calls_in_init(h, f), calls_in_inits(t, f)),
    }
}

/// How often a token of inline code calls the function.
pub open spec fn spec_calls_in_token(tok: Rc<InlinePulseToken>, f: Text) -> u64
    decreases tok,
{
    match *tok {
        InlinePulseToken::RValueAntiquot { expr, .. } => spec_calls_in_expr(expr, f),
        InlinePulseToken::LValueAntiquot { expr, .. } => spec_calls_in_expr(expr, f),
        _ => 0,
    }
}

/// How often a token of inline code calls the function.
pub fn calls_in_token(tok: &Rc<InlinePulseToken>, f: &Text) -> (out: u64)
    ensures
        out == spec_calls_in_token(*tok, *f),
    decreases tok,
{
    match &**tok {
        InlinePulseToken::RValueAntiquot { expr, .. } => calls_in_expr(expr, f),
        InlinePulseToken::LValueAntiquot { expr, .. } => calls_in_expr(expr, f),
        _ => 0,
    }
}

/// How often inline code calls the function.
pub open spec fn spec_calls_in_tokens(l: Rc<List<InlinePulseToken>>, f: Text) -> u64
    decreases l,
{
    match *l {
        List::Nil => 0,
        List::Cons(h, t) => spec_plus(spec_calls_in_token(h, f), spec_calls_in_tokens(t, f)),
    }
}

/// How often inline code calls the function.
pub fn calls_in_tokens(l: &Rc<List<InlinePulseToken>>, f: &Text) -> (out: u64)
    ensures
        out == spec_calls_in_tokens(*l, *f),
    decreases l,
{
    match &**l {
        List::Nil => 0,
        List::Cons(h, t) => plus(calls_in_token(h, f), calls_in_tokens(t, f)),
    }
}

/// How often the statement calls the function.
pub open spec fn spec_calls_in_stmt(s: Rc<Stmt>, f: Text) -> u64
    decreases s,
{
    match s.val {
        StmtT::Call(e) | StmtT::Assert(e) | StmtT::Let(_, _, e) | StmtT::Return(Some(e)) => spec_calls_in_expr(e, f),
        StmtT::DeclStackArray { size, .. } => spec_calls_in_expr(size, f),
        StmtT::Assign(a, b) => spec_plus(spec_calls_in_expr(a, f), spec_calls_in_expr(b, f)),
        StmtT::If { cond, then_branch, else_branch, ensures_ } => spec_plus(spec_calls_in_expr(cond, f), spec_plus(spec_calls_in_exprs(ensures_, f), spec_plus(spec_calls_in_stmts(then_branch, f), spec_calls_in_stmts(else_branch, f)))),
        StmtT::Match { scrutinee, branches, default_branch, ensures_ } => spec_plus(spec_calls_in_expr(scrutinee, f), spec_plus(spec_calls_in_exprs(ensures_, f), spec_plus(spec_calls_in_branches(branches, f), spec_calls_in_stmts(default_branch, f)))),
        StmtT::While { cond, inv, requires_, ensures_, body } => spec_plus(spec_calls_in_expr(cond, f), spec_plus(spec_calls_in_exprs(inv, f), spec_plus(spec_calls_in_exprs(requires_, f), spec_plus(spec_calls_in_exprs(ensures_, f), spec_calls_in_stmts(body, f))))),
        StmtT::GhostStmt(code) => spec_calls_in_tokens(code.tokens, f),
        StmtT::Label { ensures_, .. } => spec_calls_in_exprs(ensures_, f),
        StmtT::GotoBlock { body, ensures_, .. } => spec_plus(spec_calls_in_stmts(body, f), spec_calls_in_exprs(ensures_, f)),
        _ => 0,
    }
}

/// How often the statement calls the function.
pub fn calls_in_stmt(s: &Rc<Stmt>, f: &Text) -> (out: u64)
    ensures
        out == spec_calls_in_stmt(*s, *f),
    decreases s,
{
    match &s.val {
        StmtT::Call(e) | StmtT::Assert(e) | StmtT::Let(_, _, e) | StmtT::Return(Some(e)) => calls_in_expr(e, f),
        StmtT::DeclStackArray { size, .. } => calls_in_expr(size, f),
        StmtT::Assign(a, b) => plus(calls_in_expr(a, f), calls_in_expr(b, f)),
        StmtT::If { cond, then_branch, else_branch, ensures_ } => plus(calls_in_expr(cond, f), plus(calls_in_exprs(ensures_, f),
            plus(calls_in_stmts(then_branch, f), calls_in_stmts(else_branch, f)))),
        StmtT::Match { scrutinee, branches, default_branch, ensures_ } => plus(calls_in_expr(scrutinee, f), plus(calls_in_exprs(ensures_, f),
            plus(calls_in_branches(branches, f), calls_in_stmts(default_branch, f)))),
        StmtT::While { cond, inv, requires_, ensures_, body } => plus(calls_in_expr(cond, f), plus(calls_in_exprs(inv, f),
            plus(calls_in_exprs(requires_, f), plus(calls_in_exprs(ensures_, f), calls_in_stmts(body, f))))),
        StmtT::GhostStmt(code) => calls_in_tokens(&code.tokens, f),
        StmtT::Label { ensures_, .. } => calls_in_exprs(ensures_, f),
        StmtT::GotoBlock { body, ensures_, .. } => plus(calls_in_stmts(body, f), calls_in_exprs(ensures_, f)),
        _ => 0,
    }
}

/// How often the statements call the function.
pub open spec fn spec_calls_in_stmts(l: Rc<List<Stmt>>, f: Text) -> u64
    decreases l,
{
    match *l {
        List::Nil => 0,
        List::Cons(h, t) => spec_plus(spec_calls_in_stmt(h, f), spec_calls_in_stmts(t, f)),
    }
}

/// How often the statements call the function.
pub fn calls_in_stmts(l: &Rc<List<Stmt>>, f: &Text) -> (out: u64)
    ensures
        out == spec_calls_in_stmts(*l, *f),
    decreases l,
{
    match &**l {
        List::Nil => 0,
        List::Cons(h, t) => plus(calls_in_stmt(h, f), calls_in_stmts(t, f)),
    }
}

/// How often a branch calls the function.
pub open spec fn spec_calls_in_branch(b: Rc<Branch>, f: Text) -> u64
    decreases b,
{
    spec_plus(spec_calls_in_exprs(b.patterns, f), spec_calls_in_stmts(b.body, f))
}

/// How often a branch calls the function.
pub fn calls_in_branch(b: &Rc<Branch>, f: &Text) -> (out: u64)
    ensures
        out == spec_calls_in_branch(*b, *f),
    decreases b,
{
    plus(calls_in_exprs(&b.patterns, f), calls_in_stmts(&b.body, f))
}

/// How often branches call the function.
pub open spec fn spec_calls_in_branches(l: Rc<List<Branch>>, f: Text) -> u64
    decreases l,
{
    match *l {
        List::Nil => 0,
        List::Cons(h, t) => spec_plus(spec_calls_in_branch(h, f), spec_calls_in_branches(t, f)),
    }
}

/// How often branches call the function.
pub fn calls_in_branches(l: &Rc<List<Branch>>, f: &Text) -> (out: u64)
    ensures
        out == spec_calls_in_branches(*l, *f),
    decreases l,
{
    match &**l {
        List::Nil => 0,
        List::Cons(h, t) => plus(calls_in_branch(h, f), calls_in_branches(t, f)),
    }
}

/// How often a declaration calls the function: in a body, or in a contract.
#[verifier::opaque]
pub open spec fn spec_calls_in_decl(d: Rc<Decl>, f: Text) -> u64
{
    match d.val {
        DeclT::FnDefn(g) => spec_plus(spec_calls_in_exprs(g.decl.requires_, f), spec_plus(spec_calls_in_exprs(g.decl.ensures_, f), spec_calls_in_stmts(g.body, f))),
        DeclT::FnDecl(g) => spec_plus(spec_calls_in_exprs(g.requires_, f), spec_calls_in_exprs(g.ensures_, f)),
        _ => 0,
    }
}

/// How often a declaration calls the function: in a body, or in a contract.
pub fn calls_in_decl(d: &Rc<Decl>, f: &Text) -> (out: u64)
    ensures
        out == spec_calls_in_decl(*d, *f),
{
    proof {
        reveal(spec_calls_in_decl);
    }
    match &d.val {
        DeclT::FnDefn(g) => plus(calls_in_exprs(&g.decl.requires_, f), plus(calls_in_exprs(&g.decl.ensures_, f), calls_in_stmts(&g.body, f))),
        DeclT::FnDecl(g) => plus(calls_in_exprs(&g.requires_, f), calls_in_exprs(&g.ensures_, f)),
        _ => 0,
    }
}

/// How often declarations call the function.
pub open spec fn spec_calls_in_decls(l: Rc<List<Decl>>, f: Text) -> u64
    decreases l,
{
    match *l {
        List::Nil => 0,
        List::Cons(h, t) => spec_plus(spec_calls_in_decl(h, f), spec_calls_in_decls(t, f)),
    }
}

/// How often declarations call the function.
pub fn calls_in_decls(l: &Rc<List<Decl>>, f: &Text) -> (out: u64)
    ensures
        out == spec_calls_in_decls(*l, *f),
    decreases l,
{
    match &**l {
        List::Nil => 0,
        List::Cons(h, t) => plus(calls_in_decl(h, f), calls_in_decls(t, f)),
    }
}

/// Whether one entry comes before another: functions without a specification come first, since
/// they need action; then those with more calls; then by name.
#[verifier::opaque]
pub open spec fn spec_comes_before(a: Rc<AssumedFn>, b: Rc<AssumedFn>) -> bool
{
    if a.has_spec != b.has_spec {
        b.has_spec
    } else {
        if a.call_sites != b.call_sites {
            a.call_sites > b.call_sites
        } else {
            spec_text_less(a.name, b.name)
        }
    }
}

/// Whether one entry comes before another: functions without a specification come first, since
/// they need action; then those with more calls; then by name.
pub fn comes_before(a: &Rc<AssumedFn>, b: &Rc<AssumedFn>) -> (out: bool)
    ensures
        out == spec_comes_before(*a, *b),
{
    proof {
        reveal(spec_comes_before);
    }
    if a.has_spec != b.has_spec {
        b.has_spec
    } else if a.call_sites != b.call_sites {
        a.call_sites > b.call_sites
    } else {
        text_less(&a.name, &b.name)
    }
}

/// The sorted entries with one more, behind those that it does not come before.
pub open spec fn spec_insert_sorted(l: Rc<List<AssumedFn>>, x: Rc<AssumedFn>) -> Rc<List<AssumedFn>>
    decreases l,
{
    match *l {
        List::Nil => spec_l1(x),
        List::Cons(h, t) => {
            if spec_comes_before(x, h) {
                spec_cons(x, l)
            } else {
                spec_cons(h, spec_insert_sorted(t, x))
            }
        },
    }
}

/// The sorted entries with one more, behind those that it does not come before.
pub fn insert_sorted(l: &Rc<List<AssumedFn>>, x: Rc<AssumedFn>) -> (out: Rc<List<AssumedFn>>)
    ensures
        out == spec_insert_sorted(*l, x),
    decreases l,
{
    match &**l {
        List::Nil => l1(x),
        List::Cons(h, t) => if comes_before(&x, h) { cons(x, l.clone()) } else { cons(h.clone(), insert_sorted(t, x)) },
    }
}

/// The entry for a declaration, if it is that of a function. Anchors that macros generate are no
/// assumptions of the user.
#[verifier::opaque]
pub open spec fn spec_assumed_fn(all: Rc<List<Decl>>, d: Rc<Decl>) -> Option<Rc<AssumedFn>>
{
    match d.val {
        DeclT::FnDecl(f) => {
            if spec_text_starts_with(f.name.val, spec_lit("__pal")) {
                None
            } else {
                Some(Rc::new(AssumedFn { name: f.name.val, loc: f.name.loc, has_spec: !spec_list_is_empty(f.requires_) || !spec_list_is_empty(f.ensures_), is_pure: f.is_pure, call_sites: spec_calls_in_decls(all, f.name.val) }))
            }
        },
        _ => None,
    }
}

/// The entry for a declaration, if it is that of a function. Anchors that macros generate are no
/// assumptions of the user.
pub fn assumed_fn(all: &Rc<List<Decl>>, d: &Rc<Decl>) -> (out: Option<Rc<AssumedFn>>)
    ensures
        out == spec_assumed_fn(*all, *d),
{
    proof {
        reveal(spec_assumed_fn);
    }
    match &d.val {
        DeclT::FnDecl(f) => if text_starts_with(&f.name.val, &lit("__pal")) {
            None
        } else {
            Some(Rc::new(AssumedFn {
                name: f.name.val.clone(),
                loc: f.name.loc.clone(),
                has_spec: !list_is_empty(&f.requires_) || !list_is_empty(&f.ensures_),
                is_pure: f.is_pure,
                call_sites: calls_in_decls(all, &f.name.val),
            }))
        },
        _ => None,
    }
}

/// The entries for declarations, sorted, with those in `acc`.
pub open spec fn spec_assumed_fns(
    all: Rc<List<Decl>>,
    l: Rc<List<Decl>>,
    acc: Rc<List<AssumedFn>>,
) -> Rc<List<AssumedFn>>
    decreases l,
{
    match *l {
        List::Nil => acc,
        List::Cons(h, t) => {
            match spec_assumed_fn(all, h) {
                Some(a) => spec_assumed_fns(all, t, spec_insert_sorted(acc, a)),
                None => spec_assumed_fns(all, t, acc),
            }
        },
    }
}

/// The entries for declarations, sorted, with those in `acc`.
pub fn assumed_fns(all: &Rc<List<Decl>>, l: &Rc<List<Decl>>, acc: Rc<List<AssumedFn>>) -> (out: Rc<List<AssumedFn>>)
    ensures
        out == spec_assumed_fns(*all, *l, acc),
    decreases l,
{
    match &**l {
        List::Nil => acc,
        List::Cons(h, t) => match assumed_fn(all, h) {
            Some(a) => assumed_fns(all, t, insert_sorted(&acc, a)),
            None => assumed_fns(all, t, acc),
        },
    }
}

/// The structs that are only declared, in order.
pub open spec fn spec_opaque_types(l: Rc<List<Decl>>) -> Rc<List<OpaqueType>>
    decreases l,
{
    match *l {
        List::Nil => spec_nil(),
        List::Cons(h, t) => {
            match h.val {
                DeclT::StructDecl(n) => spec_cons(Rc::new(OpaqueType { name: n.val, loc: n.loc }), spec_opaque_types(t)),
                _ => spec_opaque_types(t),
            }
        },
    }
}

/// The structs that are only declared, in order.
pub fn opaque_types(l: &Rc<List<Decl>>) -> (out: Rc<List<OpaqueType>>)
    ensures
        out == spec_opaque_types(*l),
    decreases l,
{
    match &**l {
        List::Nil => nil(),
        List::Cons(h, t) => match &h.val {
            DeclT::StructDecl(n) => cons(Rc::new(OpaqueType { name: n.val.clone(), loc: n.loc.clone() }), opaque_types(t)),
            _ => opaque_types(t),
        },
    }
}

/// A place as `file:line`, with the file's path relative to the working directory where it is
/// below it.
#[verifier::opaque]
pub open spec fn spec_fmt_loc(cwd: Option<Text>, loc: Loc) -> Text
{
    let file = Rc::new(Rope::Sym(loc.location.file_name));
    let shown = match cwd {
        Some(dir) => Rc::new(Rope::Below(file, dir)),
        None => file,
    };
    spec_cat3(shown, spec_lit(":"), spec_width_text(loc.location.range.start.line))
}

/// A place as `file:line`, with the file's path relative to the working directory where it is
/// below it.
pub fn fmt_loc(cwd: &Option<Text>, loc: &Loc) -> (out: Text)
    ensures
        out == spec_fmt_loc(*cwd, *loc),
{
    proof {
        reveal(spec_fmt_loc);
    }
    let file = Rc::new(Rope::Sym(loc.location.file_name.clone()));
    let shown = match cwd {
        Some(dir) => Rc::new(Rope::Below(file, dir.clone())),
        None => file,
    };
    cat3(shown, lit(":"), width_text(loc.location.range.start.line))
}

/// The entries with a specification, or those without.
pub open spec fn spec_fns_with(l: Rc<List<AssumedFn>>, has_spec: bool) -> Rc<List<AssumedFn>>
    decreases l,
{
    match *l {
        List::Nil => spec_nil(),
        List::Cons(h, t) => {
            if h.has_spec == has_spec {
                spec_cons(h, spec_fns_with(t, has_spec))
            } else {
                spec_fns_with(t, has_spec)
            }
        },
    }
}

/// The entries with a specification, or those without.
pub fn fns_with(l: &Rc<List<AssumedFn>>, has_spec: bool) -> (out: Rc<List<AssumedFn>>)
    ensures
        out == spec_fns_with(*l, has_spec),
    decreases l,
{
    match &**l {
        List::Nil => nil(),
        List::Cons(h, t) => if h.has_spec == has_spec { cons(h.clone(), fns_with(t, has_spec)) } else { fns_with(t, has_spec) },
    }
}

/// The summary's line for a function.
#[verifier::opaque]
pub open spec fn spec_summary_fn(cwd: Option<Text>, f: Rc<AssumedFn>) -> Text
{
    spec_cat(spec_cat4(spec_lit("        "), f.name, spec_lit(" ("), spec_fmt_loc(cwd, f.loc)), spec_cat5(spec_lit(", "), spec_num(f.call_sites), spec_lit(" call site"), spec_lit(if f.call_sites == 1 {
                    ""
                } else {
                    "s"
            }), spec_lit(")\n")))
}

/// The summary's line for a function.
pub fn summary_fn(cwd: &Option<Text>, f: &Rc<AssumedFn>) -> (out: Text)
    ensures
        out == spec_summary_fn(*cwd, *f),
{
    proof {
        reveal(spec_summary_fn);
    }
    cat(cat4(lit("        "), f.name.clone(), lit(" ("), fmt_loc(cwd, &f.loc)),
        cat5(lit(", "), num(f.call_sites), lit(" call site"), lit(if f.call_sites == 1 { "" } else { "s" }), lit(")\n")))
}

/// The summary's lines for functions.
pub open spec fn spec_summary_fns(cwd: Option<Text>, l: Rc<List<AssumedFn>>) -> Text
    decreases l,
{
    match *l {
        List::Nil => spec_lit(""),
        List::Cons(h, t) => spec_cat(spec_summary_fn(cwd, h), spec_summary_fns(cwd, t)),
    }
}

/// The summary's lines for functions.
pub fn summary_fns(cwd: &Option<Text>, l: &Rc<List<AssumedFn>>) -> (out: Text)
    ensures
        out == spec_summary_fns(*cwd, *l),
    decreases l,
{
    match &**l {
        List::Nil => lit(""),
        List::Cons(h, t) => cat(summary_fn(cwd, h), summary_fns(cwd, t)),
    }
}

/// The summary's line for a type.
#[verifier::opaque]
pub open spec fn spec_summary_type(cwd: Option<Text>, t: Rc<OpaqueType>) -> Text
{
    spec_cat5(spec_lit("        struct "), t.name, spec_lit(" ("), spec_fmt_loc(cwd, t.loc), spec_lit(")\n"))
}

/// The summary's line for a type.
pub fn summary_type(cwd: &Option<Text>, t: &Rc<OpaqueType>) -> (out: Text)
    ensures
        out == spec_summary_type(*cwd, *t),
{
    proof {
        reveal(spec_summary_type);
    }
    cat5(lit("        struct "), t.name.clone(), lit(" ("), fmt_loc(cwd, &t.loc), lit(")\n"))
}

/// The summary's lines for types.
pub open spec fn spec_summary_types(cwd: Option<Text>, l: Rc<List<OpaqueType>>) -> Text
    decreases l,
{
    match *l {
        List::Nil => spec_lit(""),
        List::Cons(h, t) => spec_cat(spec_summary_type(cwd, h), spec_summary_types(cwd, t)),
    }
}

/// The summary's lines for types.
pub fn summary_types(cwd: &Option<Text>, l: &Rc<List<OpaqueType>>) -> (out: Text)
    ensures
        out == spec_summary_types(*cwd, *l),
    decreases l,
{
    match &**l {
        List::Nil => lit(""),
        List::Cons(h, t) => cat(summary_type(cwd, h), summary_types(cwd, t)),
    }
}

/// The summary of a report.
#[verifier::opaque]
pub open spec fn spec_summary_text(
    cwd: Option<Text>,
    fns: Rc<List<AssumedFn>>,
    types: Rc<List<OpaqueType>>,
) -> Text
{
    let bare = spec_fns_with(fns, false);
    let trusted = spec_fns_with(fns, true);
    let head = spec_cat3(spec_lit("note: "), spec_num(spec_list_len(fns)), spec_lit(" function(s) have no body and are assumed"));
    let axioms = if spec_list_is_empty(trusted) {
        spec_lit("\n")
    } else {
        spec_cat3(spec_lit(" ("), spec_num(spec_list_len(trusted)), spec_lit(" with a user spec, trusted as axioms)\n"))
    };
    let bare_part = if spec_list_is_empty(bare) {
        spec_lit("")
    } else {
        spec_cat4(spec_lit("note: "), spec_num(spec_list_len(bare)), spec_lit(" of them have NO specification — callers learn nothing about their result beyond default ownership:\n"), spec_summary_fns(cwd, bare))
    };
    let type_part = if spec_list_is_empty(types) {
        spec_lit("")
    } else {
        spec_cat4(spec_lit("note: "), spec_num(spec_list_len(types)), spec_lit(" opaque type(s) with unknown layout (ownership predicate assumed):\n"), spec_summary_types(cwd, types))
    };
    spec_cat4(head, axioms, bare_part, type_part)
}

/// The summary of a report.
pub fn summary_text(
    cwd: &Option<Text>,
    fns: &Rc<List<AssumedFn>>,
    types: &Rc<List<OpaqueType>>,
) -> (out: Text)
    ensures
        out == spec_summary_text(*cwd, *fns, *types),
{
    proof {
        reveal(spec_summary_text);
    }
    let bare = fns_with(fns, false);
    let trusted = fns_with(fns, true);
    let head = cat3(lit("note: "), num(list_len(fns)), lit(" function(s) have no body and are assumed"));
    let axioms = if list_is_empty(&trusted) {
        lit("\n")
    } else {
        cat3(lit(" ("), num(list_len(&trusted)), lit(" with a user spec, trusted as axioms)\n"))
    };
    let bare_part = if list_is_empty(&bare) {
        lit("")
    } else {
        cat4(lit("note: "), num(list_len(&bare)),
            lit(" of them have NO specification — callers learn nothing about their result beyond default ownership:\n"),
            summary_fns(cwd, &bare))
    };
    let type_part = if list_is_empty(types) {
        lit("")
    } else {
        cat4(lit("note: "), num(list_len(types)), lit(" opaque type(s) with unknown layout (ownership predicate assumed):\n"),
            summary_types(cwd, types))
    };
    cat4(head, axioms, bare_part, type_part)
}

/// The table's row for a function.
#[verifier::opaque]
pub open spec fn spec_row_fn(cwd: Option<Text>, f: Rc<AssumedFn>) -> Text
{
    spec_cat(spec_cat4(spec_lit("| `"), f.name, spec_lit("` | "), spec_fmt_loc(cwd, f.loc)), spec_cat5(spec_lit(" | "), spec_num(f.call_sites), spec_lit(" | "), spec_lit(if f.is_pure {
                    "yes"
                } else {
                    ""
            }), spec_lit(" |\n")))
}

/// The table's row for a function.
pub fn row_fn(cwd: &Option<Text>, f: &Rc<AssumedFn>) -> (out: Text)
    ensures
        out == spec_row_fn(*cwd, *f),
{
    proof {
        reveal(spec_row_fn);
    }
    cat(cat4(lit("| `"), f.name.clone(), lit("` | "), fmt_loc(cwd, &f.loc)),
        cat5(lit(" | "), num(f.call_sites), lit(" | "), lit(if f.is_pure { "yes" } else { "" }), lit(" |\n")))
}

/// The table's rows for functions.
pub open spec fn spec_rows_fns(cwd: Option<Text>, l: Rc<List<AssumedFn>>) -> Text
    decreases l,
{
    match *l {
        List::Nil => spec_lit(""),
        List::Cons(h, t) => spec_cat(spec_row_fn(cwd, h), spec_rows_fns(cwd, t)),
    }
}

/// The table's rows for functions.
pub fn rows_fns(cwd: &Option<Text>, l: &Rc<List<AssumedFn>>) -> (out: Text)
    ensures
        out == spec_rows_fns(*cwd, *l),
    decreases l,
{
    match &**l {
        List::Nil => lit(""),
        List::Cons(h, t) => cat(row_fn(cwd, h), rows_fns(cwd, t)),
    }
}

/// The table's row for a type.
#[verifier::opaque]
pub open spec fn spec_row_type(cwd: Option<Text>, t: Rc<OpaqueType>) -> Text
{
    spec_cat5(spec_lit("| `struct "), t.name, spec_lit("` | "), spec_fmt_loc(cwd, t.loc), spec_lit(" |\n"))
}

/// The table's row for a type.
pub fn row_type(cwd: &Option<Text>, t: &Rc<OpaqueType>) -> (out: Text)
    ensures
        out == spec_row_type(*cwd, *t),
{
    proof {
        reveal(spec_row_type);
    }
    cat5(lit("| `struct "), t.name.clone(), lit("` | "), fmt_loc(cwd, &t.loc), lit(" |\n"))
}

/// The table's rows for types.
pub open spec fn spec_rows_types(cwd: Option<Text>, l: Rc<List<OpaqueType>>) -> Text
    decreases l,
{
    match *l {
        List::Nil => spec_lit(""),
        List::Cons(h, t) => spec_cat(spec_row_type(cwd, h), spec_rows_types(cwd, t)),
    }
}

/// The table's rows for types.
pub fn rows_types(cwd: &Option<Text>, l: &Rc<List<OpaqueType>>) -> (out: Text)
    ensures
        out == spec_rows_types(*cwd, *l),
    decreases l,
{
    match &**l {
        List::Nil => lit(""),
        List::Cons(h, t) => cat(row_type(cwd, h), rows_types(cwd, t)),
    }
}

/// A section of functions, if there is any.
#[verifier::opaque]
pub open spec fn spec_fn_section(
    cwd: Option<Text>,
    title: &'static str,
    text: &'static str,
    l: Rc<List<AssumedFn>>,
) -> Text
{
    if spec_list_is_empty(l) {
        spec_lit("")
    } else {
        spec_cat(spec_cat4(spec_lit(title), spec_num(spec_list_len(l)), spec_lit(")\n\n"), spec_lit(text)), spec_cat(spec_lit("| function | declared at | call sites | pure |\n|---|---|---|---|\n"), spec_rows_fns(cwd, l)))
    }
}

/// A section of functions, if there is any.
pub fn fn_section(
    cwd: &Option<Text>,
    title: &'static str,
    text: &'static str,
    l: &Rc<List<AssumedFn>>,
) -> (out: Text)
    ensures
        out == spec_fn_section(*cwd, title, text, *l),
{
    proof {
        reveal(spec_fn_section);
    }
    if list_is_empty(l) {
        lit("")
    } else {
        cat(cat4(lit(title), num(list_len(l)), lit(")\n\n"), lit(text)),
            cat(lit("| function | declared at | call sites | pure |\n|---|---|---|---|\n"), rows_fns(cwd, l)))
    }
}

/// The detailed form of a report.
#[verifier::opaque]
pub open spec fn spec_markdown_text(
    cwd: Option<Text>,
    fns: Rc<List<AssumedFn>>,
    types: Rc<List<OpaqueType>>,
) -> Text
{
    let head = spec_lit("# Translation assumptions\n\nDeclarations without a definition are emitted as *assumed* Pulse modules: their contract is taken on faith and their body is never checked. This file lists everything the verification will silently trust, so each entry is a pointer to work that remains.\n");
    let bare = spec_fn_section(cwd, "\n## Functions assumed with NO specification (", "Only the default ownership contract is emitted; results are otherwise unconstrained. Add `_requires`/`_ensures` to the declaration (or provide a definition) to make calls meaningful.\n\n", spec_fns_with(fns, false));
    let trusted = spec_fn_section(cwd, "\n## Functions assumed with a user specification (", "Trusted as axioms — the spec is used by callers but never checked against an implementation.\n\n", spec_fns_with(fns, true));
    let type_part = if spec_list_is_empty(types) {
        spec_lit("")
    } else {
        spec_cat4(spec_lit("\n## Opaque types ("), spec_num(spec_list_len(types)), spec_lit(")\n\nForward-declared but never defined: the layout is unknown and the ownership predicate is an abstract `assume val`. Field accesses on these types cannot be translated.\n\n| type | declared at |\n|---|---|\n"), spec_rows_types(cwd, types))
    };
    spec_cat4(head, bare, trusted, type_part)
}

/// The detailed form of a report.
pub fn markdown_text(
    cwd: &Option<Text>,
    fns: &Rc<List<AssumedFn>>,
    types: &Rc<List<OpaqueType>>,
) -> (out: Text)
    ensures
        out == spec_markdown_text(*cwd, *fns, *types),
{
    proof {
        reveal(spec_markdown_text);
    }
    let head = lit("# Translation assumptions\n\nDeclarations without a definition are emitted as *assumed* Pulse modules: their contract is taken on faith and their body is never checked. This file lists everything the verification will silently trust, so each entry is a pointer to work that remains.\n");
    let bare = fn_section(cwd, "\n## Functions assumed with NO specification (",
        "Only the default ownership contract is emitted; results are otherwise unconstrained. Add `_requires`/`_ensures` to the declaration (or provide a definition) to make calls meaningful.\n\n",
        &fns_with(fns, false));
    let trusted = fn_section(cwd, "\n## Functions assumed with a user specification (",
        "Trusted as axioms — the spec is used by callers but never checked against an implementation.\n\n",
        &fns_with(fns, true));
    let type_part = if list_is_empty(types) {
        lit("")
    } else {
        cat4(lit("\n## Opaque types ("), num(list_len(types)),
            lit(")\n\nForward-declared but never defined: the layout is unknown and the ownership predicate is an abstract `assume val`. Field accesses on these types cannot be translated.\n\n| type | declared at |\n|---|---|\n"),
            rows_types(cwd, types))
    };
    cat4(head, bare, trusted, type_part)
}

/// Collects what is assumed.
pub fn collect(tu: &TranslationUnit) -> (r: AssumptionsReport)
    ensures
        r.assumed_fns@ == spec_assumed_fns(list_of(tu.decls@), list_of(tu.decls@), spec_nil()).items(),
        r.opaque_types@ == spec_opaque_types(list_of(tu.decls@)).items(),
        sorted(list_of(r.assumed_fns@)),
        bag(list_of(r.assumed_fns@)) == entries(list_of(tu.decls@), list_of(tu.decls@)),
{
    let decls = List::from_vec(&tu.decls);
    proof {
        let none: Rc<List<AssumedFn>> = spec_nil();
        law_assumptions_are_sorted(decls, decls, none);
        lemma_items_list_of(spec_assumed_fns(decls, decls, none));
        assert(bag(none).add(entries(decls, decls)) =~= entries(decls, decls));
    }
    AssumptionsReport {
        assumed_fns: List::to_vec(&assumed_fns(&decls, &decls, nil())),
        opaque_types: List::to_vec(&opaque_types(&decls)),
    }
}

impl AssumptionsReport {
    /// Whether nothing is assumed.
    pub fn is_empty(&self) -> (r: bool)
        ensures
            r == (self.assumed_fns@.len() == 0 && self.opaque_types@.len() == 0),
    {
        self.assumed_fns.len() == 0 && self.opaque_types.len() == 0
    }

    /// Compact summary, to be printed after translation. Paths below `cwd` are shown relative to
    /// it.
    pub fn to_stderr_summary(&self, cwd: &Option<Text>) -> (r: String)
        ensures
            r@ == spec_summary_text(*cwd, list_of(self.assumed_fns@), list_of(self.opaque_types@)).chars(),
    {
        rope_string(&summary_text(cwd, &List::from_vec(&self.assumed_fns), &List::from_vec(&self.opaque_types)))
    }

    /// Detailed markdown, to be written next to the generated modules. Paths below `cwd` are shown
    /// relative to it.
    pub fn to_markdown(&self, cwd: &Option<Text>) -> (r: String)
        ensures
            r@ == spec_markdown_text(*cwd, list_of(self.assumed_fns@), list_of(self.opaque_types@)).chars(),
    {
        rope_string(&markdown_text(cwd, &List::from_vec(&self.assumed_fns), &List::from_vec(&self.opaque_types)))
    }
}

} // verus!
