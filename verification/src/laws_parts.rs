//! What is proved of the parts of expressions and declarations: that calls, residues of errors and names of types are found in
//! every one of them.

use crate::list::{List, spec_bump, spec_cons, spec_nil};
use crate::text::Text;
use crate::ir::{
    BinOp, Branch, Decl, DeclT, Expr, ExprT, Field, FieldInit, FnArg, FnDecl, FnDefn, GlobalVar,
    InlinePulseToken, LetDecl, PointerKind, Stmt, StmtT, StructDefn, Type, TypeRefKind, TypeT,
    UnOp, UnionDefn, VAttr, spec_field_type,
};
use crate::env::{
    spec_any_contains_error, spec_contains_error, spec_init_contains_error,
    spec_inits_contain_error, spec_plus, spec_several_contain_error, spec_token_contains_error,
    spec_tokens_contain_error,
};
use crate::names::TypeRef;
use crate::report::{
    spec_calls_in_branches, spec_calls_in_expr, spec_calls_in_exprs, spec_calls_in_init,
    spec_calls_in_inits, spec_calls_in_stmt, spec_calls_in_stmts, spec_calls_in_token,
    spec_calls_in_tokens,
};
use crate::type_deps::{
    Namespace, TypeKey, spec_collect_refs_args, spec_collect_refs_branch,
    spec_collect_refs_branches, spec_collect_refs_expr, spec_collect_refs_exprs,
    spec_collect_refs_fields, spec_collect_refs_init, spec_collect_refs_inits,
    spec_collect_refs_inline, spec_collect_refs_several, spec_collect_refs_stmt,
    spec_collect_refs_stmts, spec_collect_refs_token, spec_collect_refs_typed,
    spec_collect_type_refs, spec_decl_refs, spec_defined_key, spec_defines, spec_key_of_ref,
    spec_same_key, spec_signature_refs,
};
use crate::merge::Match;
use crate::laws_goto::branch_body;
use crate::laws_rename::{code_tokens, init_value};
use crate::laws_types::typedef_body;
use crate::laws_syntax::{fn_args, fn_ensures, fn_requires};
use crate::laws_passes::fn_body;
use crate::laws_twice::defn_signature;
use crate::laws_check::{
    arg_type, branch_patterns, fn_result, global_type, let_body, let_ensures, let_params,
    let_requires, let_type, struct_fields, struct_refinement, union_fields,
};
use std::rc::Rc;
use vstd::prelude::*;

verus! {

/// The expressions that an expression is directly made of, in order. Those in types are not among them.
#[verifier::opaque]
pub open spec fn parts(e: Rc<Expr>) -> Seq<Rc<Expr>> {
    match e.val {
        ExprT::Deref(a) => seq![a],
        ExprT::Ref(a) => seq![a],
        ExprT::Member(a, _) => seq![a],
        ExprT::VAttr(_, a) => seq![a],
        ExprT::UnOp(_, a) => seq![a],
        ExprT::Cast(a, _) => seq![a],
        ExprT::Live(a) => seq![a],
        ExprT::Old(a) => seq![a],
        ExprT::Forall(_, _, a) => seq![a],
        ExprT::Exists(_, _, a) => seq![a],
        ExprT::UnionInit(_, _, a) => seq![a],
        ExprT::MallocArray(_, a) => seq![a],
        ExprT::CallocArray(_, a) => seq![a],
        ExprT::MallocFlex(_, a) => seq![a],
        ExprT::CallocFlex(_, a) => seq![a],
        ExprT::MemsetZero(_, a) => seq![a],
        ExprT::Free(a) => seq![a],
        ExprT::ContainerOf(a, _, _) => seq![a],
        ExprT::PreIncr(a) => seq![a],
        ExprT::PostIncr(a) => seq![a],
        ExprT::PreDecr(a) => seq![a],
        ExprT::PostDecr(a) => seq![a],
        ExprT::Index(a, b) => seq![a, b],
        ExprT::BinOp(_, a, b) => seq![a, b],
        ExprT::AssignExpr(a, b) => seq![a, b],
        ExprT::Cond(a, b, c) => seq![a, b, c],
        ExprT::Memset(_, a, b, c) => seq![a, b, c],
        ExprT::FnCall(_, l) => l.items(),
        ExprT::ArrayInit { elem_ty: _, elems, is_static: _ } => elems.items(),
        ExprT::FnPtrCall(f, l) => seq![f] + l.items(),
        ExprT::StructInit(_, inits) => init_parts(inits),
        ExprT::InlinePulse(code, _) => token_parts(code.tokens),
        _ => Seq::empty(),
    }
}

/// The values that fields are given, in order.
pub open spec fn init_parts(l: Rc<List<FieldInit>>) -> Seq<Rc<Expr>>
    decreases l,
{
    match *l {
        List::Nil => Seq::empty(),
        List::Cons(h, t) => seq![h.value] + init_parts(t),
    }
}

/// The expressions in inline code, in order.
pub open spec fn token_parts(l: Rc<List<InlinePulseToken>>) -> Seq<Rc<Expr>>
    decreases l,
{
    match *l {
        List::Nil => Seq::empty(),
        List::Cons(h, t) => match *h {
            InlinePulseToken::RValueAntiquot { before: _, expr } => seq![expr] + token_parts(t),
            InlinePulseToken::LValueAntiquot { before: _, expr } => seq![expr] + token_parts(t),
            _ => token_parts(t),
        },
    }
}

/// Whether one of the expressions holds the residue of an error.
pub open spec fn some_error(s: Seq<Rc<Expr>>) -> bool {
    exists|i: int| 0 <= i < s.len() && spec_contains_error(#[trigger] s[i])
}

/// A residue among the first, or among the others.
proof fn lemma_some_error(h: Rc<Expr>, t: Seq<Rc<Expr>>)
    ensures
        some_error(seq![h] + t) == (spec_contains_error(h) || some_error(t)),
{
    let s = seq![h] + t;
    if spec_contains_error(h) {
        assert(s[0] == h);
    }
    if some_error(t) {
        let i = choose|i: int| 0 <= i < t.len() && spec_contains_error(#[trigger] t[i]);
        assert(s[i + 1] == t[i]);
    }
    if some_error(s) {
        let i = choose|i: int| 0 <= i < s.len() && spec_contains_error(#[trigger] s[i]);
        if i > 0 {
            assert(t[i - 1] == s[i]);
        }
    }
}

/// Residues in expressions.
proof fn lemma_errors_in_all(l: Rc<List<Expr>>)
    ensures
        spec_any_contains_error(l) == some_error(l.items()),
    decreases l,
{
    match *l {
        List::Nil => {},
        List::Cons(h, t) => {
            lemma_errors_in_all(t);
            lemma_some_error(h, t.items());
        },
    }
}

/// Residues in the values of fields.
proof fn lemma_errors_in_inits(l: Rc<List<FieldInit>>)
    ensures
        spec_inits_contain_error(l) == some_error(init_parts(l)),
    decreases l,
{
    match *l {
        List::Nil => {},
        List::Cons(h, t) => {
            lemma_errors_in_inits(t);
            lemma_some_error(init_value(h), init_parts(t));
            assert(spec_init_contains_error(h) == spec_contains_error(init_value(h)));
        },
    }
}

/// Residues in inline code.
proof fn lemma_errors_in_tokens(l: Rc<List<InlinePulseToken>>)
    ensures
        spec_tokens_contain_error(l) == some_error(token_parts(l)),
    decreases l,
{
    match *l {
        List::Nil => {},
        List::Cons(h, t) => {
            lemma_errors_in_tokens(t);
            let x = spec_token_contains_error(h);
            match *h {
                InlinePulseToken::RValueAntiquot { before: _, expr } => lemma_some_error(expr, token_parts(t)),
                InlinePulseToken::LValueAntiquot { before: _, expr } => lemma_some_error(expr, token_parts(t)),
                _ => {},
            }
        },
    }
}

/// Residues in one, two or three expressions.
proof fn lemma_errors_in_few(a: Rc<Expr>, b: Rc<Expr>, c: Rc<Expr>)
    ensures
        some_error(seq![a]) == spec_contains_error(a),
        some_error(seq![a, b]) == (spec_contains_error(a) || spec_contains_error(b)),
        some_error(seq![a, b, c]) == (spec_contains_error(a) || spec_contains_error(b) || spec_contains_error(c)),
{
    let none = Seq::<Rc<Expr>>::empty();
    assert(!some_error(none));
    lemma_some_error(a, none);
    assert(seq![a] =~= seq![a] + none);
    lemma_some_error(c, none);
    assert(seq![c] =~= seq![c] + none);
    lemma_some_error(b, none);
    assert(seq![b] =~= seq![b] + none);
    lemma_some_error(a, seq![b]);
    assert(seq![a, b] =~= seq![a] + seq![b]);
    lemma_some_error(b, seq![c]);
    assert(seq![b, c] =~= seq![b] + seq![c]);
    lemma_some_error(a, seq![b, c]);
    assert(seq![a, b, c] =~= seq![a] + seq![b, c]);
}

/// An expression holds the residue of an error exactly if it is one, or one of its parts holds one.
pub proof fn law_residues_are_found(e: Rc<Expr>)
    ensures
        spec_contains_error(e) == (e.val is Error || some_error(parts(e))),
{
    reveal(parts);
    let x = spec_several_contain_error(e);
    match e.val {
        ExprT::Deref(a) => lemma_errors_in_few(a, a, a),
        ExprT::Ref(a) => lemma_errors_in_few(a, a, a),
        ExprT::Member(a, _) => lemma_errors_in_few(a, a, a),
        ExprT::VAttr(_, a) => lemma_errors_in_few(a, a, a),
        ExprT::UnOp(_, a) => lemma_errors_in_few(a, a, a),
        ExprT::Cast(a, _) => lemma_errors_in_few(a, a, a),
        ExprT::Live(a) => lemma_errors_in_few(a, a, a),
        ExprT::Old(a) => lemma_errors_in_few(a, a, a),
        ExprT::Forall(_, _, a) => lemma_errors_in_few(a, a, a),
        ExprT::Exists(_, _, a) => lemma_errors_in_few(a, a, a),
        ExprT::UnionInit(_, _, a) => lemma_errors_in_few(a, a, a),
        ExprT::MallocArray(_, a) => lemma_errors_in_few(a, a, a),
        ExprT::CallocArray(_, a) => lemma_errors_in_few(a, a, a),
        ExprT::MallocFlex(_, a) => lemma_errors_in_few(a, a, a),
        ExprT::CallocFlex(_, a) => lemma_errors_in_few(a, a, a),
        ExprT::MemsetZero(_, a) => lemma_errors_in_few(a, a, a),
        ExprT::Free(a) => lemma_errors_in_few(a, a, a),
        ExprT::ContainerOf(a, _, _) => lemma_errors_in_few(a, a, a),
        ExprT::PreIncr(a) => lemma_errors_in_few(a, a, a),
        ExprT::PostIncr(a) => lemma_errors_in_few(a, a, a),
        ExprT::PreDecr(a) => lemma_errors_in_few(a, a, a),
        ExprT::PostDecr(a) => lemma_errors_in_few(a, a, a),
        ExprT::Index(a, b) => lemma_errors_in_few(a, b, a),
        ExprT::BinOp(_, a, b) => lemma_errors_in_few(a, b, a),
        ExprT::AssignExpr(a, b) => lemma_errors_in_few(a, b, a),
        ExprT::Cond(a, b, c) => lemma_errors_in_few(a, b, c),
        ExprT::Memset(_, a, b, c) => lemma_errors_in_few(a, b, c),
        ExprT::FnCall(_, l) => lemma_errors_in_all(l),
        ExprT::ArrayInit { elem_ty: _, elems, is_static: _ } => lemma_errors_in_all(elems),
        ExprT::FnPtrCall(f, l) => {
            lemma_errors_in_all(l);
            lemma_some_error(f, l.items());
        },
        ExprT::StructInit(_, inits) => lemma_errors_in_inits(inits),
        ExprT::InlinePulse(code, _) => lemma_errors_in_tokens(code_tokens(code)),
        _ => {},
    }
}

/// A number as it can be counted: the largest number where it is larger.
pub open spec fn counted(n: nat) -> nat {
    if n <= u64::MAX {
        n
    } else {
        u64::MAX as nat
    }
}

/// How often expressions call a function, all together.
pub open spec fn calls_of(s: Seq<Rc<Expr>>, f: Text) -> nat
    decreases s.len(),
{
    if s.len() == 0 {
        0
    } else {
        spec_calls_in_expr(s[0], f) as nat + calls_of(s.skip(1), f)
    }
}

/// Calls in the first, and in the others.
proof fn lemma_calls_of(h: Rc<Expr>, t: Seq<Rc<Expr>>, f: Text)
    ensures
        calls_of(seq![h] + t, f) == spec_calls_in_expr(h, f) + calls_of(t, f),
{
    assert((seq![h] + t).skip(1) =~= t);
}

/// Calls in one, two or three expressions.
proof fn lemma_calls_in_few(a: Rc<Expr>, b: Rc<Expr>, c: Rc<Expr>, f: Text)
    ensures
        calls_of(Seq::empty(), f) == 0,
        calls_of(seq![a], f) == spec_calls_in_expr(a, f),
        calls_of(seq![a, b], f) == spec_calls_in_expr(a, f) + spec_calls_in_expr(b, f),
        calls_of(seq![a, b, c], f) == spec_calls_in_expr(a, f) + spec_calls_in_expr(b, f) + spec_calls_in_expr(c, f),
{
    let none = Seq::<Rc<Expr>>::empty();
    lemma_calls_of(a, none, f);
    assert(seq![a] =~= seq![a] + none);
    lemma_calls_of(b, none, f);
    assert(seq![b] =~= seq![b] + none);
    lemma_calls_of(c, none, f);
    assert(seq![c] =~= seq![c] + none);
    lemma_calls_of(a, seq![b], f);
    assert(seq![a, b] =~= seq![a] + seq![b]);
    lemma_calls_of(b, seq![c], f);
    assert(seq![b, c] =~= seq![b] + seq![c]);
    lemma_calls_of(a, seq![b, c], f);
    assert(seq![a, b, c] =~= seq![a] + seq![b, c]);
}

/// Calls in expressions.
proof fn lemma_calls_in_all(l: Rc<List<Expr>>, f: Text)
    ensures
        spec_calls_in_exprs(l, f) == counted(calls_of(l.items(), f)),
    decreases l,
{
    reveal(spec_plus);
    match *l {
        List::Nil => {},
        List::Cons(h, t) => {
            lemma_calls_in_all(t, f);
            lemma_calls_of(h, t.items(), f);
        },
    }
}

/// Calls in the values of fields.
proof fn lemma_calls_in_inits(l: Rc<List<FieldInit>>, f: Text)
    ensures
        spec_calls_in_inits(l, f) == counted(calls_of(init_parts(l), f)),
    decreases l,
{
    reveal(spec_plus);
    match *l {
        List::Nil => {},
        List::Cons(h, t) => {
            lemma_calls_in_inits(t, f);
            lemma_calls_of(init_value(h), init_parts(t), f);
            assert(spec_calls_in_init(h, f) == spec_calls_in_expr(init_value(h), f));
        },
    }
}

/// Calls in inline code.
proof fn lemma_calls_in_tokens(l: Rc<List<InlinePulseToken>>, f: Text)
    ensures
        spec_calls_in_tokens(l, f) == counted(calls_of(token_parts(l), f)),
    decreases l,
{
    reveal(spec_plus);
    match *l {
        List::Nil => {},
        List::Cons(h, t) => {
            lemma_calls_in_tokens(t, f);
            let x = spec_calls_in_token(h, f);
            match *h {
                InlinePulseToken::RValueAntiquot { before: _, expr } => lemma_calls_of(expr, token_parts(t), f),
                InlinePulseToken::LValueAntiquot { before: _, expr } => lemma_calls_of(expr, token_parts(t), f),
                _ => {},
            }
        },
    }
}

/// An expression calls a function as often as its parts do, and once more if it is a call of it.
pub proof fn law_calls_are_counted(e: Rc<Expr>, f: Text)
    ensures
        spec_calls_in_expr(e, f) == counted(calls_of(parts(e), f) + (if e.val matches ExprT::FnCall(g, _) && g.val.chars() == f.chars() {
            1nat
        } else {
            0nat
        })),
{
    reveal(parts);
    reveal(spec_plus);
    reveal(spec_bump);
    match e.val {
        ExprT::Deref(a) => lemma_calls_in_few(a, a, a, f),
        ExprT::Ref(a) => lemma_calls_in_few(a, a, a, f),
        ExprT::Member(a, _) => lemma_calls_in_few(a, a, a, f),
        ExprT::VAttr(_, a) => lemma_calls_in_few(a, a, a, f),
        ExprT::UnOp(_, a) => lemma_calls_in_few(a, a, a, f),
        ExprT::Cast(a, _) => lemma_calls_in_few(a, a, a, f),
        ExprT::Live(a) => lemma_calls_in_few(a, a, a, f),
        ExprT::Old(a) => lemma_calls_in_few(a, a, a, f),
        ExprT::Forall(_, _, a) => lemma_calls_in_few(a, a, a, f),
        ExprT::Exists(_, _, a) => lemma_calls_in_few(a, a, a, f),
        ExprT::UnionInit(_, _, a) => lemma_calls_in_few(a, a, a, f),
        ExprT::MallocArray(_, a) => lemma_calls_in_few(a, a, a, f),
        ExprT::CallocArray(_, a) => lemma_calls_in_few(a, a, a, f),
        ExprT::MallocFlex(_, a) => lemma_calls_in_few(a, a, a, f),
        ExprT::CallocFlex(_, a) => lemma_calls_in_few(a, a, a, f),
        ExprT::MemsetZero(_, a) => lemma_calls_in_few(a, a, a, f),
        ExprT::Free(a) => lemma_calls_in_few(a, a, a, f),
        ExprT::ContainerOf(a, _, _) => lemma_calls_in_few(a, a, a, f),
        ExprT::PreIncr(a) => lemma_calls_in_few(a, a, a, f),
        ExprT::PostIncr(a) => lemma_calls_in_few(a, a, a, f),
        ExprT::PreDecr(a) => lemma_calls_in_few(a, a, a, f),
        ExprT::PostDecr(a) => lemma_calls_in_few(a, a, a, f),
        ExprT::Index(a, b) => lemma_calls_in_few(a, b, a, f),
        ExprT::BinOp(_, a, b) => lemma_calls_in_few(a, b, a, f),
        ExprT::AssignExpr(a, b) => lemma_calls_in_few(a, b, a, f),
        ExprT::Cond(a, b, c) => lemma_calls_in_few(a, b, c, f),
        ExprT::Memset(_, a, b, c) => lemma_calls_in_few(a, b, c, f),
        ExprT::FnCall(_, l) => lemma_calls_in_all(l, f),
        ExprT::ArrayInit { elem_ty: _, elems, is_static: _ } => lemma_calls_in_all(elems, f),
        ExprT::FnPtrCall(g, l) => {
            lemma_calls_in_all(l, f);
            lemma_calls_of(g, l.items(), f);
        },
        ExprT::StructInit(_, inits) => lemma_calls_in_inits(inits, f),
        ExprT::InlinePulse(code, _) => lemma_calls_in_tokens(code_tokens(code), f),
        _ => {},
    }
}

/// Expressions call a function as often as all of them together.
pub proof fn law_calls_in_clauses_are_counted(l: Rc<List<Expr>>, f: Text)
    ensures
        spec_calls_in_exprs(l, f) == counted(calls_of(l.items(), f)),
{
    lemma_calls_in_all(l, f);
}

/// The expressions that a statement is directly made of, in order, its contract among them.
pub open spec fn stmt_parts(s: Rc<Stmt>) -> Seq<Rc<Expr>> {
    match s.val {
        StmtT::Call(e) => seq![e],
        StmtT::Assert(e) => seq![e],
        StmtT::Let(_, _, e) => seq![e],
        StmtT::Return(Some(e)) => seq![e],
        StmtT::DeclStackArray { name: _, elem_type: _, size } => seq![size],
        StmtT::Assign(a, b) => seq![a, b],
        StmtT::If { cond, then_branch: _, else_branch: _, ensures_ } => seq![cond] + ensures_.items(),
        StmtT::Match { scrutinee, branches: _, default_branch: _, ensures_ } => seq![scrutinee] + ensures_.items(),
        StmtT::While { cond, inv, requires_, ensures_, body: _ } => seq![cond] + inv.items() + requires_.items() + ensures_.items(),
        StmtT::GhostStmt(code) => token_parts(code.tokens),
        StmtT::Label { name: _, ensures_ } => ensures_.items(),
        StmtT::GotoBlock { body: _, label: _, ensures_ } => ensures_.items(),
        _ => Seq::empty(),
    }
}

/// How often the blocks of a statement call a function, all together.
pub open spec fn block_calls(s: Rc<Stmt>, f: Text) -> nat {
    match s.val {
        StmtT::If { cond: _, then_branch, else_branch, ensures_: _ } => spec_calls_in_stmts(then_branch, f) as nat + spec_calls_in_stmts(else_branch, f) as nat,
        StmtT::Match { scrutinee: _, branches, default_branch, ensures_: _ } => spec_calls_in_branches(branches, f) as nat + spec_calls_in_stmts(default_branch, f) as nat,
        StmtT::While { cond: _, inv: _, requires_: _, ensures_: _, body } => spec_calls_in_stmts(body, f) as nat,
        StmtT::GotoBlock { body, label: _, ensures_: _ } => spec_calls_in_stmts(body, f) as nat,
        _ => 0,
    }
}

/// Calls in sequences of expressions one after the other.
proof fn lemma_calls_append(a: Seq<Rc<Expr>>, b: Seq<Rc<Expr>>, f: Text)
    ensures
        calls_of(a + b, f) == calls_of(a, f) + calls_of(b, f),
    decreases a.len(),
{
    if a.len() == 0 {
        assert(a + b =~= b);
    } else {
        lemma_calls_append(a.skip(1), b, f);
        assert((a + b).skip(1) =~= a.skip(1) + b);
    }
}

/// A statement calls a function as often as its expressions and its blocks do.
pub proof fn law_calls_in_statements_are_counted(s: Rc<Stmt>, f: Text)
    ensures
        spec_calls_in_stmt(s, f) == counted(calls_of(stmt_parts(s), f) + block_calls(s, f)),
{
    reveal(spec_plus);
    match s.val {
        StmtT::Call(e) | StmtT::Assert(e) | StmtT::Let(_, _, e) | StmtT::Return(Some(e)) => lemma_calls_in_few(e, e, e, f),
        StmtT::DeclStackArray { name: _, elem_type: _, size } => lemma_calls_in_few(size, size, size, f),
        StmtT::Assign(a, b) => lemma_calls_in_few(a, b, b, f),
        StmtT::If { cond, then_branch: _, else_branch: _, ensures_ } => {
            lemma_calls_in_all(ensures_, f);
            lemma_calls_of(cond, ensures_.items(), f);
        },
        StmtT::Match { scrutinee, branches: _, default_branch: _, ensures_ } => {
            lemma_calls_in_all(ensures_, f);
            lemma_calls_of(scrutinee, ensures_.items(), f);
        },
        StmtT::While { cond, inv, requires_, ensures_, body: _ } => {
            lemma_calls_in_all(inv, f);
            lemma_calls_in_all(requires_, f);
            lemma_calls_in_all(ensures_, f);
            lemma_calls_of(cond, inv.items(), f);
            lemma_calls_append(seq![cond] + inv.items(), requires_.items(), f);
            lemma_calls_append(seq![cond] + inv.items() + requires_.items(), ensures_.items(), f);
        },
        StmtT::GhostStmt(code) => lemma_calls_in_tokens(code_tokens(code), f),
        StmtT::Label { name: _, ensures_ } => lemma_calls_in_all(ensures_, f),
        StmtT::GotoBlock { body: _, label: _, ensures_ } => lemma_calls_in_all(ensures_, f),
        _ => {},
    }
}

/// Whether a list of keys has one.
pub open spec fn has_key(l: Rc<List<TypeKey>>, k: Rc<TypeKey>) -> bool {
    l.items().contains(k)
}

/// Whether a key is that of a named type.
pub open spec fn is_key_of(r: TypeRefKind, k: Rc<TypeKey>) -> bool {
    match r {
        TypeRefKind::Typedef(n) => k.ns == Namespace::Typedef && k.name == n.val,
        TypeRefKind::Struct(n) => k.ns == Namespace::Struct && k.name == n.val,
        TypeRefKind::Union(n) => k.ns == Namespace::Union && k.name == n.val,
    }
}

/// Whether a type names another: itself, or through arrays, refinements and pointers that are not raw.
pub open spec fn type_names(ty: Rc<Type>, k: Rc<TypeKey>) -> bool
    decreases ty,
{
    match ty.val {
        TypeT::Pointer(t, kind) => kind != PointerKind::Core && type_names(t, k),
        TypeT::FixedArray(t, _) | TypeT::FlexArray(t) | TypeT::Plain(t) | TypeT::Nullable(t) => type_names(t, k),
        TypeT::Refine(t, _) | TypeT::RefineAlways(t, _) | TypeT::RefineUninit(t, _) => type_names(t, k),
        TypeT::RefineValue(t, _, _, _) => type_names(t, k),
        TypeT::TypeRef(r) => is_key_of(r, k),
        _ => false,
    }
}

/// Whether an expression names a type: in a type that it has, or in one of its parts.
pub open spec fn expr_names(e: Rc<Expr>, k: Rc<TypeKey>) -> bool
    decreases e, 1nat,
{
    match e.val {
        ExprT::Deref(a) | ExprT::Ref(a) | ExprT::UnOp(_, a) | ExprT::Live(a) | ExprT::Old(a) | ExprT::PreIncr(a) | ExprT::PostIncr(a) | ExprT::PreDecr(a) | ExprT::PostDecr(a) | ExprT::Free(a) | ExprT::Member(a, _) | ExprT::VAttr(_, a) | ExprT::UnionInit(_, _, a) => expr_names(a, k),
        ExprT::Index(a, b) | ExprT::BinOp(_, a, b) | ExprT::AssignExpr(a, b) => expr_names(a, k) || expr_names(b, k),
        ExprT::IntLit(_, t) | ExprT::FloatLit(_, t) | ExprT::Error(t) | ExprT::Malloc(t) | ExprT::Calloc(t) | ExprT::SizeOf(t) | ExprT::AlignOf(t) => type_names(t, k),
        ExprT::Cast(a, t) | ExprT::ContainerOf(a, t, _) | ExprT::Forall(_, t, a) | ExprT::Exists(_, t, a) | ExprT::MallocArray(t, a) | ExprT::CallocArray(t, a) | ExprT::MallocFlex(t, a) | ExprT::CallocFlex(t, a) | ExprT::MemsetZero(t, a) => type_names(t, k) || expr_names(a, k),
        ExprT::Cond(a, b, c) => expr_names(a, k) || expr_names(b, k) || expr_names(c, k),
        ExprT::Memset(t, a, b, c) => type_names(t, k) || expr_names(a, k) || expr_names(b, k) || expr_names(c, k),
        ExprT::FnCall(_, l) => exprs_name(l, k),
        ExprT::FnPtrCall(f, l) => expr_names(f, k) || exprs_name(l, k),
        ExprT::InlinePulse(code, t) => tokens_name(code.tokens, k) || type_names(t, k),
        ExprT::StructInit(_, l) => inits_name(l, k),
        ExprT::ArrayInit { elem_ty, elems, is_static: _ } => type_names(elem_ty, k) || exprs_name(elems, k),
        _ => false,
    }
}

/// Whether one of the expressions does.
pub open spec fn exprs_name(l: Rc<List<Expr>>, k: Rc<TypeKey>) -> bool
    decreases l, 0nat,
{
    match *l {
        List::Nil => false,
        List::Cons(h, t) => expr_names(h, k) || exprs_name(t, k),
    }
}

/// Whether the value of one of the fields does.
pub open spec fn inits_name(l: Rc<List<FieldInit>>, k: Rc<TypeKey>) -> bool
    decreases l, 0nat,
{
    match *l {
        List::Nil => false,
        List::Cons(h, t) => init_names(h, k) || inits_name(t, k),
    }
}

/// Whether the value of a field does.
pub open spec fn init_names(i: Rc<FieldInit>, k: Rc<TypeKey>) -> bool
    decreases i, 0nat,
{
    expr_names(i.value, k)
}

/// Whether a token of inline code does.
pub open spec fn token_names(tok: Rc<InlinePulseToken>, k: Rc<TypeKey>) -> bool
    decreases tok, 0nat,
{
    match *tok {
        InlinePulseToken::Verbatim { before: _, text: _ } => false,
        InlinePulseToken::RValueAntiquot { before: _, expr } => expr_names(expr, k),
        InlinePulseToken::LValueAntiquot { before: _, expr } => expr_names(expr, k),
        InlinePulseToken::TypeAntiquot { before: _, ty } => type_names(ty, k),
        InlinePulseToken::FieldAntiquot { before: _, ty, field_name: _ } => type_names(ty, k),
        InlinePulseToken::AuxFnAntiquot { before: _, ty, arm: _, kind: _ } => type_names(ty, k),
        InlinePulseToken::Declare { ident: _, ty } => type_names(ty, k),
    }
}

/// Whether one of the tokens does.
pub open spec fn tokens_name(l: Rc<List<InlinePulseToken>>, k: Rc<TypeKey>) -> bool
    decreases l, 0nat,
{
    match *l {
        List::Nil => false,
        List::Cons(h, t) => token_names(h, k) || tokens_name(t, k),
    }
}

/// Whether a statement names a type.
pub open spec fn stmt_names(s: Rc<Stmt>, k: Rc<TypeKey>) -> bool
    decreases s,
{
    match s.val {
        StmtT::Call(e) | StmtT::Assert(e) | StmtT::Return(Some(e)) => expr_names(e, k),
        StmtT::Decl(_, ty) => type_names(ty, k),
        StmtT::Let(_, ty, e) => type_names(ty, k) || expr_names(e, k),
        StmtT::DeclStackArray { name: _, elem_type, size } => type_names(elem_type, k) || expr_names(size, k),
        StmtT::Assign(a, b) => expr_names(a, k) || expr_names(b, k),
        StmtT::If { cond, then_branch, else_branch, ensures_ } => expr_names(cond, k) || stmts_name(then_branch, k) || stmts_name(else_branch, k) || exprs_name(ensures_, k),
        StmtT::Match { scrutinee, branches, default_branch, ensures_ } => expr_names(scrutinee, k) || branches_name(branches, k) || stmts_name(default_branch, k) || exprs_name(
            ensures_,
            k,
        ),
        StmtT::While { cond, inv, requires_, ensures_, body } => expr_names(cond, k) || exprs_name(inv, k) || exprs_name(requires_, k) || exprs_name(ensures_, k) || stmts_name(body, k),
        StmtT::GhostStmt(code) => tokens_name(code.tokens, k),
        StmtT::Label { name: _, ensures_ } => exprs_name(ensures_, k),
        StmtT::GotoBlock { body, label: _, ensures_ } => stmts_name(body, k) || exprs_name(ensures_, k),
        _ => false,
    }
}

/// Whether one of the statements does.
pub open spec fn stmts_name(l: Rc<List<Stmt>>, k: Rc<TypeKey>) -> bool
    decreases l,
{
    match *l {
        List::Nil => false,
        List::Cons(h, t) => stmt_names(h, k) || stmts_name(t, k),
    }
}

/// Whether a branch does.
pub open spec fn branch_names(b: Rc<Branch>, k: Rc<TypeKey>) -> bool
    decreases b,
{
    exprs_name(b.patterns, k) || stmts_name(b.body, k)
}

/// Whether one of the branches does.
pub open spec fn branches_name(l: Rc<List<Branch>>, k: Rc<TypeKey>) -> bool
    decreases l,
{
    match *l {
        List::Nil => false,
        List::Cons(h, t) => branch_names(h, k) || branches_name(t, k),
    }
}

/// Whether the type of one of the fields does.
pub open spec fn fields_name(l: Rc<List<Field>>, k: Rc<TypeKey>) -> bool
    decreases l,
{
    match *l {
        List::Nil => false,
        List::Cons(h, t) => type_names(spec_field_type(h), k) || fields_name(t, k),
    }
}

/// Whether the type of one of the parameters does.
pub open spec fn args_name(l: Rc<List<FnArg>>, k: Rc<TypeKey>) -> bool
    decreases l,
{
    match *l {
        List::Nil => false,
        List::Cons(h, t) => type_names(h.ty, k) || args_name(t, k),
    }
}

/// A key in front of others.
proof fn lemma_first_key(h: Rc<TypeKey>, t: Rc<List<TypeKey>>, k: Rc<TypeKey>)
    ensures
        has_key(spec_cons(h, t), k) == (h == k || has_key(t, k)),
{
    let l = spec_cons(h, t);
    assert(l.items() =~= seq![h] + t.items());
    if h == k {
        assert(l.items()[0] == k);
    }
    if has_key(t, k) {
        let i = choose|i: int| 0 <= i < t.items().len() && t.items()[i] == k;
        assert(l.items()[i + 1] == k);
    }
    if has_key(l, k) {
        let i = choose|i: int| 0 <= i < l.items().len() && l.items()[i] == k;
        if i > 0 {
            assert(t.items()[i - 1] == k);
        }
    }
}

/// The types that a type names are found.
proof fn found_in_type(ty: Rc<Type>, acc: Rc<List<TypeKey>>, k: Rc<TypeKey>)
    ensures
        has_key(spec_collect_type_refs(ty, acc), k) == (has_key(acc, k) || type_names(ty, k)),
    decreases ty,
{
    match ty.val {
        TypeT::Pointer(t, _) => found_in_type(t, acc, k),
        TypeT::FixedArray(t, _) | TypeT::FlexArray(t) | TypeT::Plain(t) | TypeT::Nullable(t) => found_in_type(t, acc, k),
        TypeT::Refine(t, _) | TypeT::RefineAlways(t, _) | TypeT::RefineUninit(t, _) => found_in_type(t, acc, k),
        TypeT::RefineValue(t, _, _, _) => found_in_type(t, acc, k),
        TypeT::TypeRef(r) => {
            reveal(spec_key_of_ref);
            lemma_first_key(spec_key_of_ref(r), acc, k);
        },
        _ => {},
    }
}

/// The types that an expression names are found.
proof fn found_in_expr(e: Rc<Expr>, acc: Rc<List<TypeKey>>, k: Rc<TypeKey>)
    ensures
        has_key(spec_collect_refs_expr(e, acc), k) == (has_key(acc, k) || expr_names(e, k)),
    decreases e, 3nat,
{
    match e.val {
        ExprT::Deref(a) | ExprT::Ref(a) | ExprT::UnOp(_, a) | ExprT::Live(a) | ExprT::Old(a) | ExprT::PreIncr(a) | ExprT::PostIncr(a) | ExprT::PreDecr(a) | ExprT::PostDecr(a) | ExprT::Free(a) | ExprT::Member(a, _) | ExprT::VAttr(_, a) | ExprT::UnionInit(_, _, a) => found_in_expr(a, acc, k),
        ExprT::Index(a, b) | ExprT::BinOp(_, a, b) | ExprT::AssignExpr(a, b) => {
            found_in_expr(a, acc, k);
            found_in_expr(b, spec_collect_refs_expr(a, acc), k);
        },
        _ => found_in_typed(e, acc, k),
    }
}

/// The same for expressions with a type.
proof fn found_in_typed(e: Rc<Expr>, acc: Rc<List<TypeKey>>, k: Rc<TypeKey>)
    requires
        !has_plain_parts(e),
    ensures
        has_key(spec_collect_refs_typed(e, acc), k) == (has_key(acc, k) || expr_names(e, k)),
    decreases e, 2nat,
{
    match e.val {
        ExprT::IntLit(_, t) | ExprT::FloatLit(_, t) | ExprT::Error(t) | ExprT::Malloc(t) | ExprT::Calloc(t) | ExprT::SizeOf(t) | ExprT::AlignOf(t) => found_in_type(t, acc, k),
        ExprT::Cast(a, t) | ExprT::ContainerOf(a, t, _) | ExprT::Forall(_, t, a) | ExprT::Exists(_, t, a) | ExprT::MallocArray(t, a) | ExprT::CallocArray(t, a) | ExprT::MallocFlex(t, a) | ExprT::CallocFlex(t, a) | ExprT::MemsetZero(t, a) => {
            found_in_type(t, acc, k);
            found_in_expr(a, spec_collect_type_refs(t, acc), k);
        },
        _ => found_in_several(e, acc, k),
    }
}

/// The same for expressions with several operands.
proof fn found_in_several(e: Rc<Expr>, acc: Rc<List<TypeKey>>, k: Rc<TypeKey>)
    requires
        !has_plain_parts(e),
        !has_a_type(e),
    ensures
        has_key(spec_collect_refs_several(e, acc), k) == (has_key(acc, k) || expr_names(e, k)),
    decreases e, 1nat,
{
    match e.val {
        ExprT::Cond(a, b, c) => {
            found_in_expr(a, acc, k);
            let r = spec_collect_refs_expr(a, acc);
            found_in_expr(b, r, k);
            found_in_expr(c, spec_collect_refs_expr(b, r), k);
        },
        ExprT::Memset(t, a, b, c) => {
            found_in_type(t, acc, k);
            let q = spec_collect_type_refs(t, acc);
            found_in_expr(a, q, k);
            let r = spec_collect_refs_expr(a, q);
            found_in_expr(b, r, k);
            found_in_expr(c, spec_collect_refs_expr(b, r), k);
        },
        ExprT::FnCall(_, l) => found_in_exprs(l, acc, k),
        ExprT::FnPtrCall(f, l) => {
            found_in_expr(f, acc, k);
            found_in_exprs(l, spec_collect_refs_expr(f, acc), k);
        },
        ExprT::InlinePulse(code, t) => {
            found_in_tokens(code_tokens(code), acc, k);
            found_in_type(t, spec_collect_refs_inline(code_tokens(code), acc), k);
        },
        ExprT::StructInit(_, l) => found_in_inits(l, acc, k),
        ExprT::ArrayInit { elem_ty, elems, is_static: _ } => {
            found_in_type(elem_ty, acc, k);
            found_in_exprs(elems, spec_collect_type_refs(elem_ty, acc), k);
        },
        _ => {},
    }
}

/// Whether an expression has one or two parts and no type.
pub open spec fn has_plain_parts(e: Rc<Expr>) -> bool {
    match e.val {
        ExprT::Deref(_) | ExprT::Ref(_) | ExprT::UnOp(_, _) | ExprT::Live(_) | ExprT::Old(_) | ExprT::PreIncr(_) | ExprT::PostIncr(_) | ExprT::PreDecr(_) | ExprT::PostDecr(_) | ExprT::Free(_) | ExprT::Member(_, _) | ExprT::VAttr(_, _) | ExprT::UnionInit(_, _, _) => true,
        ExprT::Index(_, _) | ExprT::BinOp(_, _, _) | ExprT::AssignExpr(_, _) => true,
        _ => false,
    }
}

/// Whether an expression has a type and at most one part.
pub open spec fn has_a_type(e: Rc<Expr>) -> bool {
    match e.val {
        ExprT::IntLit(_, _) | ExprT::FloatLit(_, _) | ExprT::Error(_) | ExprT::Malloc(_) | ExprT::Calloc(_) | ExprT::SizeOf(_) | ExprT::AlignOf(_) => true,
        ExprT::Cast(_, _) | ExprT::ContainerOf(_, _, _) | ExprT::Forall(_, _, _) | ExprT::Exists(_, _, _) | ExprT::MallocArray(_, _) | ExprT::CallocArray(_, _) | ExprT::MallocFlex(_, _) | ExprT::CallocFlex(_, _) | ExprT::MemsetZero(_, _) => true,
        _ => false,
    }
}

/// The same for expressions.
proof fn found_in_exprs(l: Rc<List<Expr>>, acc: Rc<List<TypeKey>>, k: Rc<TypeKey>)
    ensures
        has_key(spec_collect_refs_exprs(l, acc), k) == (has_key(acc, k) || exprs_name(l, k)),
    decreases l, 0nat,
{
    match *l {
        List::Nil => {},
        List::Cons(h, t) => {
            found_in_expr(h, acc, k);
            found_in_exprs(t, spec_collect_refs_expr(h, acc), k);
        },
    }
}

/// The same for the value of a field.
proof fn found_in_init(i: Rc<FieldInit>, acc: Rc<List<TypeKey>>, k: Rc<TypeKey>)
    ensures
        has_key(spec_collect_refs_init(i, acc), k) == (has_key(acc, k) || init_names(i, k)),
    decreases i, 0nat,
{
    found_in_expr(init_value(i), acc, k);
}

/// The same for the values of fields.
proof fn found_in_inits(l: Rc<List<FieldInit>>, acc: Rc<List<TypeKey>>, k: Rc<TypeKey>)
    ensures
        has_key(spec_collect_refs_inits(l, acc), k) == (has_key(acc, k) || inits_name(l, k)),
    decreases l, 0nat,
{
    match *l {
        List::Nil => {},
        List::Cons(h, t) => {
            found_in_init(h, acc, k);
            found_in_inits(t, spec_collect_refs_init(h, acc), k);
        },
    }
}

/// The same for a token.
proof fn found_in_token(tok: Rc<InlinePulseToken>, acc: Rc<List<TypeKey>>, k: Rc<TypeKey>)
    ensures
        has_key(spec_collect_refs_token(tok, acc), k) == (has_key(acc, k) || token_names(tok, k)),
    decreases tok, 0nat,
{
    match *tok {
        InlinePulseToken::Verbatim { before: _, text: _ } => {},
        InlinePulseToken::RValueAntiquot { before: _, expr } => found_in_expr(expr, acc, k),
        InlinePulseToken::LValueAntiquot { before: _, expr } => found_in_expr(expr, acc, k),
        InlinePulseToken::TypeAntiquot { before: _, ty } => found_in_type(ty, acc, k),
        InlinePulseToken::FieldAntiquot { before: _, ty, field_name: _ } => found_in_type(ty, acc, k),
        InlinePulseToken::AuxFnAntiquot { before: _, ty, arm: _, kind: _ } => found_in_type(ty, acc, k),
        InlinePulseToken::Declare { ident: _, ty } => found_in_type(ty, acc, k),
    }
}

/// The same for inline code.
proof fn found_in_tokens(l: Rc<List<InlinePulseToken>>, acc: Rc<List<TypeKey>>, k: Rc<TypeKey>)
    ensures
        has_key(spec_collect_refs_inline(l, acc), k) == (has_key(acc, k) || tokens_name(l, k)),
    decreases l, 0nat,
{
    match *l {
        List::Nil => {},
        List::Cons(h, t) => {
            found_in_token(h, acc, k);
            found_in_tokens(t, spec_collect_refs_token(h, acc), k);
        },
    }
}

/// The types that a statement names are found.
proof fn found_in_stmt(s: Rc<Stmt>, acc: Rc<List<TypeKey>>, k: Rc<TypeKey>)
    ensures
        has_key(spec_collect_refs_stmt(s, acc), k) == (has_key(acc, k) || stmt_names(s, k)),
    decreases s,
{
    match s.val {
        StmtT::Call(e) | StmtT::Assert(e) | StmtT::Return(Some(e)) => found_in_expr(e, acc, k),
        StmtT::Decl(_, ty) => found_in_type(ty, acc, k),
        StmtT::Let(_, ty, e) => {
            found_in_type(ty, acc, k);
            found_in_expr(e, spec_collect_type_refs(ty, acc), k);
        },
        StmtT::DeclStackArray { name: _, elem_type, size } => {
            found_in_type(elem_type, acc, k);
            found_in_expr(size, spec_collect_type_refs(elem_type, acc), k);
        },
        StmtT::Assign(a, b) => {
            found_in_expr(a, acc, k);
            found_in_expr(b, spec_collect_refs_expr(a, acc), k);
        },
        StmtT::If { cond, then_branch, else_branch, ensures_ } => {
            found_in_expr(cond, acc, k);
            let r1 = spec_collect_refs_expr(cond, acc);
            found_in_stmts(then_branch, r1, k);
            let r2 = spec_collect_refs_stmts(then_branch, r1);
            found_in_stmts(else_branch, r2, k);
            found_in_exprs(ensures_, spec_collect_refs_stmts(else_branch, r2), k);
        },
        StmtT::Match { scrutinee, branches, default_branch, ensures_ } => {
            found_in_expr(scrutinee, acc, k);
            let r1 = spec_collect_refs_expr(scrutinee, acc);
            found_in_branches(branches, r1, k);
            let r2 = spec_collect_refs_branches(branches, r1);
            found_in_stmts(default_branch, r2, k);
            found_in_exprs(ensures_, spec_collect_refs_stmts(default_branch, r2), k);
        },
        StmtT::While { cond, inv, requires_, ensures_, body } => {
            found_in_expr(cond, acc, k);
            let r1 = spec_collect_refs_expr(cond, acc);
            found_in_exprs(inv, r1, k);
            let r2 = spec_collect_refs_exprs(inv, r1);
            found_in_exprs(requires_, r2, k);
            let r3 = spec_collect_refs_exprs(requires_, r2);
            found_in_exprs(ensures_, r3, k);
            found_in_stmts(body, spec_collect_refs_exprs(ensures_, r3), k);
        },
        StmtT::GhostStmt(code) => found_in_tokens(code_tokens(code), acc, k),
        StmtT::Label { name: _, ensures_ } => found_in_exprs(ensures_, acc, k),
        StmtT::GotoBlock { body, label: _, ensures_ } => {
            found_in_stmts(body, acc, k);
            found_in_exprs(ensures_, spec_collect_refs_stmts(body, acc), k);
        },
        _ => {},
    }
}

/// The same for statements.
proof fn found_in_stmts(l: Rc<List<Stmt>>, acc: Rc<List<TypeKey>>, k: Rc<TypeKey>)
    ensures
        has_key(spec_collect_refs_stmts(l, acc), k) == (has_key(acc, k) || stmts_name(l, k)),
    decreases l,
{
    match *l {
        List::Nil => {},
        List::Cons(h, t) => {
            found_in_stmt(h, acc, k);
            found_in_stmts(t, spec_collect_refs_stmt(h, acc), k);
        },
    }
}

/// The same for a branch.
proof fn found_in_branch(b: Rc<Branch>, acc: Rc<List<TypeKey>>, k: Rc<TypeKey>)
    ensures
        has_key(spec_collect_refs_branch(b, acc), k) == (has_key(acc, k) || branch_names(b, k)),
    decreases b,
{
    found_in_exprs(branch_patterns(b), acc, k);
    found_in_stmts(branch_body(b), spec_collect_refs_exprs(branch_patterns(b), acc), k);
}

/// The same for branches.
proof fn found_in_branches(l: Rc<List<Branch>>, acc: Rc<List<TypeKey>>, k: Rc<TypeKey>)
    ensures
        has_key(spec_collect_refs_branches(l, acc), k) == (has_key(acc, k) || branches_name(l, k)),
    decreases l,
{
    match *l {
        List::Nil => {},
        List::Cons(h, t) => {
            found_in_branch(h, acc, k);
            found_in_branches(t, spec_collect_refs_branch(h, acc), k);
        },
    }
}

/// The same for fields.
proof fn found_in_fields(l: Rc<List<Field>>, acc: Rc<List<TypeKey>>, k: Rc<TypeKey>)
    ensures
        has_key(spec_collect_refs_fields(l, acc), k) == (has_key(acc, k) || fields_name(l, k)),
    decreases l,
{
    match *l {
        List::Nil => {},
        List::Cons(h, t) => {
            found_in_type(spec_field_type(h), acc, k);
            found_in_fields(t, spec_collect_type_refs(spec_field_type(h), acc), k);
        },
    }
}

/// The same for parameters.
proof fn found_in_args(l: Rc<List<FnArg>>, acc: Rc<List<TypeKey>>, k: Rc<TypeKey>)
    ensures
        has_key(spec_collect_refs_args(l, acc), k) == (has_key(acc, k) || args_name(l, k)),
    decreases l,
{
    match *l {
        List::Nil => {},
        List::Cons(h, t) => {
            found_in_type(arg_type(h), acc, k);
            found_in_args(t, spec_collect_type_refs(arg_type(h), acc), k);
        },
    }
}

/// Whether a signature or its contract names a type.
pub open spec fn signature_names(f: Rc<FnDecl>, k: Rc<TypeKey>) -> bool {
    type_names(f.ret_type, k) || args_name(f.args, k) || exprs_name(f.requires_, k) || exprs_name(f.ensures_, k)
}

/// The types that a signature names are found.
proof fn found_in_signature(f: Rc<FnDecl>, k: Rc<TypeKey>)
    ensures
        has_key(spec_signature_refs(f), k) == signature_names(f, k),
{
    reveal(spec_signature_refs);
    let none: Rc<List<TypeKey>> = spec_nil();
    assert(!has_key(none, k));
    found_in_type(fn_result(f), none, k);
    let r1 = spec_collect_type_refs(fn_result(f), none);
    found_in_args(fn_args(f), r1, k);
    let r2 = spec_collect_refs_args(fn_args(f), r1);
    found_in_exprs(fn_requires(f), r2, k);
    found_in_exprs(fn_ensures(f), spec_collect_refs_exprs(fn_requires(f), r2), k);
}

/// A declaration refers to a type exactly if it names it: in the type of a field, a parameter, a result or a variable, in
/// a contract, or in a body.
pub proof fn law_references_are_found(d: Rc<Decl>, k: Rc<TypeKey>)
    ensures
        has_key(spec_decl_refs(d), k) == (match d.val {
            DeclT::Typedef(t) => type_names(t.body, k),
            DeclT::StructDefn(s) => type_names(s.refines, k) || fields_name(s.fields, k),
            DeclT::UnionDefn(u) => fields_name(u.fields, k),
            DeclT::FnDecl(f) => signature_names(f, k),
            DeclT::FnDefn(f) => signature_names(f.decl, k) || stmts_name(f.body, k),
            DeclT::LetDecl(l) => type_names(l.ret_type, k) || args_name(l.params, k) || exprs_name(l.requires_, k) || exprs_name(l.ensures_, k) || expr_names(l.body, k),
            DeclT::GlobalVar(g) => type_names(g.ty, k),
            _ => false,
        }),
{
    reveal(spec_decl_refs);
    let none: Rc<List<TypeKey>> = spec_nil();
    assert(!has_key(none, k));
    match d.val {
        DeclT::Typedef(t) => found_in_type(typedef_body(t), none, k),
        DeclT::StructDefn(s) => {
            found_in_type(struct_refinement(s), none, k);
            found_in_fields(struct_fields(s), spec_collect_type_refs(struct_refinement(s), none), k);
        },
        DeclT::UnionDefn(u) => found_in_fields(union_fields(u), none, k),
        DeclT::FnDecl(f) => found_in_signature(f, k),
        DeclT::FnDefn(f) => {
            found_in_signature(defn_signature(f), k);
            found_in_stmts(fn_body(f), spec_signature_refs(defn_signature(f)), k);
        },
        DeclT::LetDecl(l) => {
            found_in_type(let_type(l), none, k);
            let r1 = spec_collect_type_refs(let_type(l), none);
            found_in_args(let_params(l), r1, k);
            let r2 = spec_collect_refs_args(let_params(l), r1);
            found_in_exprs(let_requires(l), r2, k);
            let r3 = spec_collect_refs_exprs(let_requires(l), r2);
            found_in_exprs(let_ensures(l), r3, k);
            found_in_expr(let_body(l), spec_collect_refs_exprs(let_ensures(l), r3), k);
        },
        DeclT::GlobalVar(g) => found_in_type(global_type(g), none, k),
        _ => {},
    }
}

/// A declaration defines the type of its name, in its own name space.
pub proof fn law_defined_types(d: Rc<Decl>, k: Rc<TypeKey>)
    ensures
        spec_defines(d, k) == (match d.val {
            DeclT::Typedef(t) => k.ns == Namespace::Typedef && k.name.chars() == t.name.val.chars(),
            DeclT::StructDefn(s) => k.ns == Namespace::Struct && k.name.chars() == s.name.val.chars(),
            DeclT::UnionDefn(u) => k.ns == Namespace::Union && k.name.chars() == u.name.val.chars(),
            _ => false,
        }),
{
    reveal(spec_defines);
    reveal(spec_defined_key);
    reveal(spec_same_key);
}

} // verus!
