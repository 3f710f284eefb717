//! Which type definitions a declaration needs in front of it.

use crate::list::{
    List, bump, cons, drop_one, list_len, nil, spec_bump, spec_cons, spec_drop_one, spec_list_len,
    spec_nil,
};
use crate::text::{Text, same_text, spec_same_text};
use crate::ir::{
    BinOp, Branch, Decl, DeclT, Expr, ExprT, Field, FieldInit, FnArg, FnDecl, FnDefn, GlobalVar,
    IncludeDecl, InlinePulseToken, LetDecl, OpaqueTypeDecl, PointerKind, Stmt, StmtT, StructDefn,
    Type, TypeRefKind, TypeT, UnOp, UnionDefn, VAttr, field_type, spec_field_type,
};
use crate::names::TypeRef;
use crate::merge::Match;
use std::rc::Rc;
use vstd::prelude::*;

verus! {

/// The namespace of a named type: a typedef and a struct may share a name.
#[derive(Clone, Copy, Debug, PartialEq, Eq, Structural)]
pub enum Namespace {
    Typedef,
    Struct,
    Union,
}

/// The key of a type definition.
pub struct TypeKey {
    pub ns: Namespace,
    pub name: Text,
}

/// Whether two keys are the same.
#[verifier::opaque]
pub open spec fn spec_same_key(a: Rc<TypeKey>, b: Rc<TypeKey>) -> bool
{
    a.ns == b.ns && spec_same_text(a.name, b.name)
}

/// Whether two keys are the same.
pub fn same_key(a: &Rc<TypeKey>, b: &Rc<TypeKey>) -> (out: bool)
    ensures
        out == spec_same_key(*a, *b),
{
    proof {
        reveal(spec_same_key);
    }
    a.ns == b.ns && same_text(&a.name, &b.name)
}

/// The key that a reference names.
#[verifier::opaque]
pub open spec fn spec_key_of_ref(k: TypeRefKind) -> Rc<TypeKey>
{
    match k {
        TypeRefKind::Typedef(n) => Rc::new(TypeKey { ns: Namespace::Typedef, name: n.val }),
        TypeRefKind::Struct(n) => Rc::new(TypeKey { ns: Namespace::Struct, name: n.val }),
        TypeRefKind::Union(n) => Rc::new(TypeKey { ns: Namespace::Union, name: n.val }),
    }
}

/// The key that a reference names.
pub fn key_of_ref(k: &TypeRefKind) -> (out: Rc<TypeKey>)
    ensures
        out == spec_key_of_ref(*k),
{
    proof {
        reveal(spec_key_of_ref);
    }
    match k {
        TypeRefKind::Typedef(n) => Rc::new(TypeKey { ns: Namespace::Typedef, name: n.val.clone() }),
        TypeRefKind::Struct(n) => Rc::new(TypeKey { ns: Namespace::Struct, name: n.val.clone() }),
        TypeRefKind::Union(n) => Rc::new(TypeKey { ns: Namespace::Union, name: n.val.clone() }),
    }
}

/// The types that a type refers to, in front of `acc`: through pointers, arrays and
/// refinements, but not into the definitions of what it refers to. The predicate of a type
/// mentions those of the types that it refers to, so they have to be emitted first. A raw
/// pointer mentions none.
pub open spec fn spec_collect_type_refs(ty: Rc<Type>, acc: Rc<List<TypeKey>>) -> Rc<List<TypeKey>>
    decreases ty,
{
    match ty.val {
        TypeT::Pointer(t, k) => {
            if k == PointerKind::Core {
                acc
            } else {
                spec_collect_type_refs(t, acc)
            }
        },
        TypeT::FixedArray(t, _) | TypeT::FlexArray(t) | TypeT::Plain(t) | TypeT::Nullable(t) => spec_collect_type_refs(t, acc),
        TypeT::Refine(t, _) | TypeT::RefineAlways(t, _) | TypeT::RefineUninit(t, _) => spec_collect_type_refs(t, acc),
        TypeT::RefineValue(t, _, _, _) => spec_collect_type_refs(t, acc),
        TypeT::TypeRef(k) => spec_cons(spec_key_of_ref(k), acc),
        _ => acc,
    }
}

/// The types that a type refers to, in front of `acc`: through pointers, arrays and
/// refinements, but not into the definitions of what it refers to. The predicate of a type
/// mentions those of the types that it refers to, so they have to be emitted first. A raw
/// pointer mentions none.
pub fn collect_type_refs(ty: &Rc<Type>, acc: Rc<List<TypeKey>>) -> (out: Rc<List<TypeKey>>)
    ensures
        out == spec_collect_type_refs(*ty, acc),
    decreases ty,
{
    match &ty.val {
        TypeT::Pointer(t, k) => if *k == PointerKind::Core { acc } else { collect_type_refs(t, acc) },
        TypeT::FixedArray(t, _) | TypeT::FlexArray(t) | TypeT::Plain(t) | TypeT::Nullable(t) => collect_type_refs(t, acc),
        TypeT::Refine(t, _) | TypeT::RefineAlways(t, _) | TypeT::RefineUninit(t, _) => collect_type_refs(t, acc),
        TypeT::RefineValue(t, _, _, _) => collect_type_refs(t, acc),
        TypeT::TypeRef(k) => cons(key_of_ref(k), acc),
        _ => acc,
    }
}

/// The types that an expression refers to, in front of `acc`.
pub open spec fn spec_collect_refs_expr(e: Rc<Expr>, acc: Rc<List<TypeKey>>) -> Rc<List<TypeKey>>
    decreases e, 3nat,
{
    match e.val {
        ExprT::Deref(a) | ExprT::Ref(a) | ExprT::UnOp(_, a) | ExprT::Live(a) | ExprT::Old(a) => spec_collect_refs_expr(a, acc),
        ExprT::PreIncr(a) | ExprT::PostIncr(a) | ExprT::PreDecr(a) | ExprT::PostDecr(a) => spec_collect_refs_expr(a, acc),
        ExprT::Free(a) | ExprT::Member(a, _) | ExprT::VAttr(_, a) | ExprT::UnionInit(_, _, a) => spec_collect_refs_expr(a, acc),
        ExprT::Index(a, b) | ExprT::BinOp(_, a, b) | ExprT::AssignExpr(a, b) => spec_collect_refs_expr(b, spec_collect_refs_expr(a, acc)),
        _ => spec_collect_refs_typed(e, acc),
    }
}

/// The types that an expression refers to, in front of `acc`.
pub fn collect_refs_expr(e: &Rc<Expr>, acc: Rc<List<TypeKey>>) -> (out: Rc<List<TypeKey>>)
    ensures
        out == spec_collect_refs_expr(*e, acc),
    decreases e, 3nat,
{
    match &e.val {
        ExprT::Deref(a) | ExprT::Ref(a) | ExprT::UnOp(_, a) | ExprT::Live(a) | ExprT::Old(a) => collect_refs_expr(a, acc),
        ExprT::PreIncr(a) | ExprT::PostIncr(a) | ExprT::PreDecr(a) | ExprT::PostDecr(a) => collect_refs_expr(a, acc),
        ExprT::Free(a) | ExprT::Member(a, _) | ExprT::VAttr(_, a) | ExprT::UnionInit(_, _, a) => collect_refs_expr(a, acc),
        ExprT::Index(a, b) | ExprT::BinOp(_, a, b) | ExprT::AssignExpr(a, b) => collect_refs_expr(b, collect_refs_expr(a, acc)),
        _ => collect_refs_typed(e, acc),
    }
}

/// The types that an expression with a type refers to, in front of `acc`.
pub open spec fn spec_collect_refs_typed(e: Rc<Expr>, acc: Rc<List<TypeKey>>) -> Rc<List<TypeKey>>
    decreases e, 2nat,
{
    match e.val {
        ExprT::IntLit(_, t) | ExprT::FloatLit(_, t) | ExprT::Error(t) | ExprT::Malloc(t) => spec_collect_type_refs(t, acc),
        ExprT::Calloc(t) | ExprT::SizeOf(t) | ExprT::AlignOf(t) => spec_collect_type_refs(t, acc),
        ExprT::Cast(a, t) | ExprT::ContainerOf(a, t, _) | ExprT::Forall(_, t, a) | ExprT::Exists(_, t, a) => spec_collect_refs_expr(a, spec_collect_type_refs(t, acc)),
        ExprT::MallocArray(t, a) | ExprT::CallocArray(t, a) | ExprT::MallocFlex(t, a) => spec_collect_refs_expr(a, spec_collect_type_refs(t, acc)),
        ExprT::CallocFlex(t, a) | ExprT::MemsetZero(t, a) => spec_collect_refs_expr(a, spec_collect_type_refs(t, acc)),
        _ => spec_collect_refs_several(e, acc),
    }
}

/// The types that an expression with a type refers to, in front of `acc`.
pub fn collect_refs_typed(e: &Rc<Expr>, acc: Rc<List<TypeKey>>) -> (out: Rc<List<TypeKey>>)
    ensures
        out == spec_collect_refs_typed(*e, acc),
    decreases e, 2nat,
{
    match &e.val {
        ExprT::IntLit(_, t) | ExprT::FloatLit(_, t) | ExprT::Error(t) | ExprT::Malloc(t) => collect_type_refs(t, acc),
        ExprT::Calloc(t) | ExprT::SizeOf(t) | ExprT::AlignOf(t) => collect_type_refs(t, acc),
        ExprT::Cast(a, t) | ExprT::ContainerOf(a, t, _) | ExprT::Forall(_, t, a) | ExprT::Exists(_, t, a) => collect_refs_expr(a, collect_type_refs(t, acc)),
        ExprT::MallocArray(t, a) | ExprT::CallocArray(t, a) | ExprT::MallocFlex(t, a) => collect_refs_expr(a, collect_type_refs(t, acc)),
        ExprT::CallocFlex(t, a) | ExprT::MemsetZero(t, a) => collect_refs_expr(a, collect_type_refs(t, acc)),
        _ => collect_refs_several(e, acc),
    }
}

/// The types that an expression with several operands refers to, in front of `acc`.
pub open spec fn spec_collect_refs_several(e: Rc<Expr>, acc: Rc<List<TypeKey>>) -> Rc<List<TypeKey>>
    decreases e, 1nat,
{
    match e.val {
        ExprT::Cond(a, b, c) => spec_collect_refs_expr(c, spec_collect_refs_expr(b, spec_collect_refs_expr(a, acc))),
        ExprT::Memset(t, a, b, c) => spec_collect_refs_expr(c, spec_collect_refs_expr(b, spec_collect_refs_expr(a, spec_collect_type_refs(t, acc)))),
        ExprT::FnCall(_, args) => spec_collect_refs_exprs(args, acc),
        ExprT::FnPtrCall(f, args) => spec_collect_refs_exprs(args, spec_collect_refs_expr(f, acc)),
        ExprT::InlinePulse(code, t) => spec_collect_type_refs(t, spec_collect_refs_inline(code.tokens, acc)),
        ExprT::StructInit(_, inits) => spec_collect_refs_inits(inits, acc),
        ExprT::ArrayInit { elem_ty, elems, .. } => spec_collect_refs_exprs(elems, spec_collect_type_refs(elem_ty, acc)),
        _ => acc,
    }
}

/// The types that an expression with several operands refers to, in front of `acc`.
pub fn collect_refs_several(e: &Rc<Expr>, acc: Rc<List<TypeKey>>) -> (out: Rc<List<TypeKey>>)
    ensures
        out == spec_collect_refs_several(*e, acc),
    decreases e, 1nat,
{
    match &e.val {
        ExprT::Cond(a, b, c) => collect_refs_expr(c, collect_refs_expr(b, collect_refs_expr(a, acc))),
        ExprT::Memset(t, a, b, c) => collect_refs_expr(c, collect_refs_expr(b, collect_refs_expr(a, collect_type_refs(t, acc)))),
        ExprT::FnCall(_, args) => collect_refs_exprs(args, acc),
        ExprT::FnPtrCall(f, args) => collect_refs_exprs(args, collect_refs_expr(f, acc)),
        ExprT::InlinePulse(code, t) => collect_type_refs(t, collect_refs_inline(&code.tokens, acc)),
        ExprT::StructInit(_, inits) => collect_refs_inits(inits, acc),
        ExprT::ArrayInit { elem_ty, elems, .. } => collect_refs_exprs(elems, collect_type_refs(elem_ty, acc)),
        _ => acc,
    }
}

/// The types that expressions refer to, in front of `acc`.
pub open spec fn spec_collect_refs_exprs(
    l: Rc<List<Expr>>,
    acc: Rc<List<TypeKey>>,
) -> Rc<List<TypeKey>>
    decreases l, 0nat,
{
    match *l {
        List::Nil => acc,
        List::Cons(h, t) => spec_collect_refs_exprs(t, spec_collect_refs_expr(h, acc)),
    }
}

/// The types that expressions refer to, in front of `acc`.
pub fn collect_refs_exprs(l: &Rc<List<Expr>>, acc: Rc<List<TypeKey>>) -> (out: Rc<List<TypeKey>>)
    ensures
        out == spec_collect_refs_exprs(*l, acc),
    decreases l, 0nat,
{
    match &**l {
        List::Nil => acc,
        List::Cons(h, t) => collect_refs_exprs(t, collect_refs_expr(h, acc)),
    }
}

/// The types that the value of a field refers to, in front of `acc`.
pub open spec fn spec_collect_refs_init(
    i: Rc<FieldInit>,
    acc: Rc<List<TypeKey>>,
) -> Rc<List<TypeKey>>
    decreases i, 0nat,
{
    spec_collect_refs_expr(i.value, acc)
}

/// The types that the value of a field refers to, in front of `acc`.
pub fn collect_refs_init(i: &Rc<FieldInit>, acc: Rc<List<TypeKey>>) -> (out: Rc<List<TypeKey>>)
    ensures
        out == spec_collect_refs_init(*i, acc),
    decreases i, 0nat,
{
    collect_refs_expr(&i.value, acc)
}

/// The types that the values of fields refer to, in front of `acc`.
pub open spec fn spec_collect_refs_inits(
    l: Rc<List<FieldInit>>,
    acc: Rc<List<TypeKey>>,
) -> Rc<List<TypeKey>>
    decreases l, 0nat,
{
    match *l {
        List::Nil => acc,
        List::Cons(h, t) => spec_collect_refs_inits(t, spec_collect_refs_init(h, acc)),
    }
}

/// The types that the values of fields refer to, in front of `acc`.
pub fn collect_refs_inits(l: &Rc<List<FieldInit>>, acc: Rc<List<TypeKey>>) -> (out: Rc<List<TypeKey>>)
    ensures
        out == spec_collect_refs_inits(*l, acc),
    decreases l, 0nat,
{
    match &**l {
        List::Nil => acc,
        List::Cons(h, t) => collect_refs_inits(t, collect_refs_init(h, acc)),
    }
}

/// The types that a token refers to, in front of `acc`.
pub open spec fn spec_collect_refs_token(
    tok: Rc<InlinePulseToken>,
    acc: Rc<List<TypeKey>>,
) -> Rc<List<TypeKey>>
    decreases tok, 0nat,
{
    match *tok {
        InlinePulseToken::Verbatim { .. } => acc,
        InlinePulseToken::RValueAntiquot { expr, .. } => spec_collect_refs_expr(expr, acc),
        InlinePulseToken::LValueAntiquot { expr, .. } => spec_collect_refs_expr(expr, acc),
        InlinePulseToken::TypeAntiquot { ty, .. } => spec_collect_type_refs(ty, acc),
        InlinePulseToken::FieldAntiquot { ty, .. } => spec_collect_type_refs(ty, acc),
        InlinePulseToken::AuxFnAntiquot { ty, .. } => spec_collect_type_refs(ty, acc),
        InlinePulseToken::Declare { ty, .. } => spec_collect_type_refs(ty, acc),
    }
}

/// The types that a token refers to, in front of `acc`.
pub fn collect_refs_token(tok: &Rc<InlinePulseToken>, acc: Rc<List<TypeKey>>) -> (out: Rc<List<TypeKey>>)
    ensures
        out == spec_collect_refs_token(*tok, acc),
    decreases tok, 0nat,
{
    match &**tok {
        InlinePulseToken::Verbatim { .. } => acc,
        InlinePulseToken::RValueAntiquot { expr, .. } => collect_refs_expr(expr, acc),
        InlinePulseToken::LValueAntiquot { expr, .. } => collect_refs_expr(expr, acc),
        InlinePulseToken::TypeAntiquot { ty, .. } => collect_type_refs(ty, acc),
        InlinePulseToken::FieldAntiquot { ty, .. } => collect_type_refs(ty, acc),
        InlinePulseToken::AuxFnAntiquot { ty, .. } => collect_type_refs(ty, acc),
        InlinePulseToken::Declare { ty, .. } => collect_type_refs(ty, acc),
    }
}

/// The types that inline code refers to, in front of `acc`.
pub open spec fn spec_collect_refs_inline(
    l: Rc<List<InlinePulseToken>>,
    acc: Rc<List<TypeKey>>,
) -> Rc<List<TypeKey>>
    decreases l, 0nat,
{
    match *l {
        List::Nil => acc,
        List::Cons(h, t) => spec_collect_refs_inline(t, spec_collect_refs_token(h, acc)),
    }
}

/// The types that inline code refers to, in front of `acc`.
pub fn collect_refs_inline(l: &Rc<List<InlinePulseToken>>, acc: Rc<List<TypeKey>>) -> (out: Rc<List<TypeKey>>)
    ensures
        out == spec_collect_refs_inline(*l, acc),
    decreases l, 0nat,
{
    match &**l {
        List::Nil => acc,
        List::Cons(h, t) => collect_refs_inline(t, collect_refs_token(h, acc)),
    }
}

/// The types that a statement refers to, in front of `acc`.
pub open spec fn spec_collect_refs_stmt(s: Rc<Stmt>, acc: Rc<List<TypeKey>>) -> Rc<List<TypeKey>>
    decreases s,
{
    match s.val {
        StmtT::Call(e) | StmtT::Assert(e) | StmtT::Return(Some(e)) => spec_collect_refs_expr(e, acc),
        StmtT::Decl(_, ty) => spec_collect_type_refs(ty, acc),
        StmtT::Let(_, ty, e) => spec_collect_refs_expr(e, spec_collect_type_refs(ty, acc)),
        StmtT::DeclStackArray { elem_type, size, .. } => spec_collect_refs_expr(size, spec_collect_type_refs(elem_type, acc)),
        StmtT::Assign(a, b) => spec_collect_refs_expr(b, spec_collect_refs_expr(a, acc)),
        StmtT::If { cond, then_branch, else_branch, ensures_ } => spec_collect_refs_exprs(ensures_, spec_collect_refs_stmts(else_branch, spec_collect_refs_stmts(then_branch, spec_collect_refs_expr(cond, acc)))),
        StmtT::Match { scrutinee, branches, default_branch, ensures_ } => spec_collect_refs_exprs(ensures_, spec_collect_refs_stmts(default_branch, spec_collect_refs_branches(branches, spec_collect_refs_expr(scrutinee, acc)))),
        StmtT::While { cond, inv, requires_, ensures_, body } => spec_collect_refs_stmts(body, spec_collect_refs_exprs(ensures_, spec_collect_refs_exprs(requires_, spec_collect_refs_exprs(inv, spec_collect_refs_expr(cond, acc))))),
        StmtT::GhostStmt(code) => spec_collect_refs_inline(code.tokens, acc),
        StmtT::Label { ensures_, .. } => spec_collect_refs_exprs(ensures_, acc),
        StmtT::GotoBlock { body, ensures_, .. } => spec_collect_refs_exprs(ensures_, spec_collect_refs_stmts(body, acc)),
        _ => acc,
    }
}

/// The types that a statement refers to, in front of `acc`.
pub fn collect_refs_stmt(s: &Rc<Stmt>, acc: Rc<List<TypeKey>>) -> (out: Rc<List<TypeKey>>)
    ensures
        out == spec_collect_refs_stmt(*s, acc),
    decreases s,
{
    match &s.val {
        StmtT::Call(e) | StmtT::Assert(e) | StmtT::Return(Some(e)) => collect_refs_expr(e, acc),
        StmtT::Decl(_, ty) => collect_type_refs(ty, acc),
        StmtT::Let(_, ty, e) => collect_refs_expr(e, collect_type_refs(ty, acc)),
        StmtT::DeclStackArray { elem_type, size, .. } => collect_refs_expr(size, collect_type_refs(elem_type, acc)),
        StmtT::Assign(a, b) => collect_refs_expr(b, collect_refs_expr(a, acc)),
        StmtT::If { cond, then_branch, else_branch, ensures_ } =>
            collect_refs_exprs(ensures_, collect_refs_stmts(else_branch, collect_refs_stmts(then_branch, collect_refs_expr(cond, acc)))),
        StmtT::Match { scrutinee, branches, default_branch, ensures_ } =>
            collect_refs_exprs(ensures_, collect_refs_stmts(default_branch, collect_refs_branches(branches, collect_refs_expr(scrutinee, acc)))),
        StmtT::While { cond, inv, requires_, ensures_, body } =>
            collect_refs_stmts(body, collect_refs_exprs(ensures_, collect_refs_exprs(requires_, collect_refs_exprs(inv, collect_refs_expr(cond, acc))))),
        StmtT::GhostStmt(code) => collect_refs_inline(&code.tokens, acc),
        StmtT::Label { ensures_, .. } => collect_refs_exprs(ensures_, acc),
        StmtT::GotoBlock { body, ensures_, .. } => collect_refs_exprs(ensures_, collect_refs_stmts(body, acc)),
        _ => acc,
    }
}

/// The types that statements refer to, in front of `acc`.
pub open spec fn spec_collect_refs_stmts(
    l: Rc<List<Stmt>>,
    acc: Rc<List<TypeKey>>,
) -> Rc<List<TypeKey>>
    decreases l,
{
    match *l {
        List::Nil => acc,
        List::Cons(h, t) => spec_collect_refs_stmts(t, spec_collect_refs_stmt(h, acc)),
    }
}

/// The types that statements refer to, in front of `acc`.
pub fn collect_refs_stmts(l: &Rc<List<Stmt>>, acc: Rc<List<TypeKey>>) -> (out: Rc<List<TypeKey>>)
    ensures
        out == spec_collect_refs_stmts(*l, acc),
    decreases l,
{
    match &**l {
        List::Nil => acc,
        List::Cons(h, t) => collect_refs_stmts(t, collect_refs_stmt(h, acc)),
    }
}

/// The types that a branch refers to, in front of `acc`.
pub open spec fn spec_collect_refs_branch(
    b: Rc<Branch>,
    acc: Rc<List<TypeKey>>,
) -> Rc<List<TypeKey>>
    decreases b,
{
    spec_collect_refs_stmts(b.body, spec_collect_refs_exprs(b.patterns, acc))
}

/// The types that a branch refers to, in front of `acc`.
pub fn collect_refs_branch(b: &Rc<Branch>, acc: Rc<List<TypeKey>>) -> (out: Rc<List<TypeKey>>)
    ensures
        out == spec_collect_refs_branch(*b, acc),
    decreases b,
{
    collect_refs_stmts(&b.body, collect_refs_exprs(&b.patterns, acc))
}

/// The types that branches refer to, in front of `acc`.
pub open spec fn spec_collect_refs_branches(
    l: Rc<List<Branch>>,
    acc: Rc<List<TypeKey>>,
) -> Rc<List<TypeKey>>
    decreases l,
{
    match *l {
        List::Nil => acc,
        List::Cons(h, t) => spec_collect_refs_branches(t, spec_collect_refs_branch(h, acc)),
    }
}

/// The types that branches refer to, in front of `acc`.
pub fn collect_refs_branches(l: &Rc<List<Branch>>, acc: Rc<List<TypeKey>>) -> (out: Rc<List<TypeKey>>)
    ensures
        out == spec_collect_refs_branches(*l, acc),
    decreases l,
{
    match &**l {
        List::Nil => acc,
        List::Cons(h, t) => collect_refs_branches(t, collect_refs_branch(h, acc)),
    }
}

/// The types that fields refer to, in front of `acc`.
pub open spec fn spec_collect_refs_fields(
    l: Rc<List<Field>>,
    acc: Rc<List<TypeKey>>,
) -> Rc<List<TypeKey>>
    decreases l,
{
    match *l {
        List::Nil => acc,
        List::Cons(h, t) => spec_collect_refs_fields(t, spec_collect_type_refs(spec_field_type(h), acc)),
    }
}

/// The types that fields refer to, in front of `acc`.
pub fn collect_refs_fields(l: &Rc<List<Field>>, acc: Rc<List<TypeKey>>) -> (out: Rc<List<TypeKey>>)
    ensures
        out == spec_collect_refs_fields(*l, acc),
    decreases l,
{
    match &**l {
        List::Nil => acc,
        List::Cons(h, t) => collect_refs_fields(t, collect_type_refs(&field_type(h), acc)),
    }
}

/// The types that parameters refer to, in front of `acc`.
pub open spec fn spec_collect_refs_args(
    l: Rc<List<FnArg>>,
    acc: Rc<List<TypeKey>>,
) -> Rc<List<TypeKey>>
    decreases l,
{
    match *l {
        List::Nil => acc,
        List::Cons(h, t) => spec_collect_refs_args(t, spec_collect_type_refs(h.ty, acc)),
    }
}

/// The types that parameters refer to, in front of `acc`.
pub fn collect_refs_args(l: &Rc<List<FnArg>>, acc: Rc<List<TypeKey>>) -> (out: Rc<List<TypeKey>>)
    ensures
        out == spec_collect_refs_args(*l, acc),
    decreases l,
{
    match &**l {
        List::Nil => acc,
        List::Cons(h, t) => collect_refs_args(t, collect_type_refs(&h.ty, acc)),
    }
}

/// The types that a signature and its contract refer to.
#[verifier::opaque]
pub open spec fn spec_signature_refs(f: Rc<FnDecl>) -> Rc<List<TypeKey>>
{
    let sig = spec_collect_refs_args(f.args, spec_collect_type_refs(f.ret_type, spec_nil()));
    spec_collect_refs_exprs(f.ensures_, spec_collect_refs_exprs(f.requires_, sig))
}

/// The types that a signature and its contract refer to.
pub fn signature_refs(f: &Rc<FnDecl>) -> (out: Rc<List<TypeKey>>)
    ensures
        out == spec_signature_refs(*f),
{
    proof {
        reveal(spec_signature_refs);
    }
    let sig = collect_refs_args(&f.args, collect_type_refs(&f.ret_type, nil()));
    collect_refs_exprs(&f.ensures_, collect_refs_exprs(&f.requires_, sig))
}

/// The types that a declaration refers to.
#[verifier::opaque]
pub open spec fn spec_decl_refs(d: Rc<Decl>) -> Rc<List<TypeKey>>
{
    match d.val {
        DeclT::Typedef(t) => spec_collect_type_refs(t.body, spec_nil()),
        DeclT::StructDefn(s) => spec_collect_refs_fields(s.fields, spec_collect_type_refs(s.refines, spec_nil())),
        DeclT::UnionDefn(u) => spec_collect_refs_fields(u.fields, spec_nil()),
        DeclT::FnDecl(f) => spec_signature_refs(f),
        DeclT::FnDefn(f) => spec_collect_refs_stmts(f.body, spec_signature_refs(f.decl)),
        DeclT::LetDecl(l) => spec_collect_refs_expr(l.body, spec_collect_refs_exprs(l.ensures_, spec_collect_refs_exprs(l.requires_, spec_collect_refs_args(l.params, spec_collect_type_refs(l.ret_type, spec_nil()))))),
        DeclT::GlobalVar(g) => spec_collect_type_refs(g.ty, spec_nil()),
        DeclT::StructDecl(_) | DeclT::IncludeDecl(_) | DeclT::OpaqueTypeDecl(_) => spec_nil(),
    }
}

/// The types that a declaration refers to.
pub fn decl_refs(d: &Rc<Decl>) -> (out: Rc<List<TypeKey>>)
    ensures
        out == spec_decl_refs(*d),
{
    proof {
        reveal(spec_decl_refs);
    }
    match &d.val {
        DeclT::Typedef(t) => collect_type_refs(&t.body, nil()),
        DeclT::StructDefn(s) => collect_refs_fields(&s.fields, collect_type_refs(&s.refines, nil())),
        DeclT::UnionDefn(u) => collect_refs_fields(&u.fields, nil()),
        DeclT::FnDecl(f) => signature_refs(f),
        DeclT::FnDefn(f) => collect_refs_stmts(&f.body, signature_refs(&f.decl)),
        DeclT::LetDecl(l) => collect_refs_expr(&l.body, collect_refs_exprs(&l.ensures_, collect_refs_exprs(&l.requires_,
            collect_refs_args(&l.params, collect_type_refs(&l.ret_type, nil()))))),
        DeclT::GlobalVar(g) => collect_type_refs(&g.ty, nil()),
        DeclT::StructDecl(_) | DeclT::IncludeDecl(_) | DeclT::OpaqueTypeDecl(_) => nil(),
    }
}

/// The key of the type that a declaration defines.
#[verifier::opaque]
pub open spec fn spec_defined_key(d: Rc<Decl>) -> Option<Rc<TypeKey>>
{
    match d.val {
        DeclT::Typedef(t) => Some(Rc::new(TypeKey { ns: Namespace::Typedef, name: t.name.val })),
        DeclT::StructDefn(s) => Some(Rc::new(TypeKey { ns: Namespace::Struct, name: s.name.val })),
        DeclT::UnionDefn(u) => Some(Rc::new(TypeKey { ns: Namespace::Union, name: u.name.val })),
        _ => None,
    }
}

/// The key of the type that a declaration defines.
pub fn defined_key(d: &Rc<Decl>) -> (out: Option<Rc<TypeKey>>)
    ensures
        out == spec_defined_key(*d),
{
    proof {
        reveal(spec_defined_key);
    }
    match &d.val {
        DeclT::Typedef(t) => Some(Rc::new(TypeKey { ns: Namespace::Typedef, name: t.name.val.clone() })),
        DeclT::StructDefn(s) => Some(Rc::new(TypeKey { ns: Namespace::Struct, name: s.name.val.clone() })),
        DeclT::UnionDefn(u) => Some(Rc::new(TypeKey { ns: Namespace::Union, name: u.name.val.clone() })),
        _ => None,
    }
}

/// Whether the declaration defines the type.
#[verifier::opaque]
pub open spec fn spec_defines(d: Rc<Decl>, key: Rc<TypeKey>) -> bool
{
    match spec_defined_key(d) {
        Some(k) => spec_same_key(k, key),
        None => false,
    }
}

/// Whether the declaration defines the type.
pub fn defines(d: &Rc<Decl>, key: &Rc<TypeKey>) -> (out: bool)
    ensures
        out == spec_defines(*d, *key),
{
    proof {
        reveal(spec_defines);
    }
    match defined_key(d) {
        Some(k) => same_key(&k, key),
        None => false,
    }
}

/// The position of the last declaration that defines the type, counted from `i`, or `found`
/// where none does.
pub open spec fn spec_definition_index(
    l: Rc<List<Decl>>,
    key: Rc<TypeKey>,
    i: u64,
    found: Option<u64>,
) -> Option<u64>
    decreases l,
{
    match *l {
        List::Nil => found,
        List::Cons(h, t) => {
            spec_definition_index(t, key, spec_bump(i), if spec_defines(h, key) {
                    Some(i)
                } else {
                    found
            })
        },
    }
}

/// The position of the last declaration that defines the type, counted from `i`, or `found`
/// where none does.
pub fn definition_index(l: &Rc<List<Decl>>, key: &Rc<TypeKey>, i: u64, found: Option<u64>) -> (out: Option<u64>)
    ensures
        out == spec_definition_index(*l, *key, i, found),
    decreases l,
{
    match &**l {
        List::Nil => found,
        List::Cons(h, t) => definition_index(t, key, bump(i), if defines(h, key) { Some(i) } else { found }),
    }
}

/// The positions of the definitions of types, but for position `i` itself.
pub open spec fn spec_prereq_indices(
    all: Rc<List<Decl>>,
    refs: Rc<List<TypeKey>>,
    i: u64,
) -> Rc<List<u64>>
    decreases refs,
{
    match *refs {
        List::Nil => spec_nil(),
        List::Cons(h, t) => {
            match spec_definition_index(all, h, 0, None) {
                Some(j) => {
                    if j == i {
                        spec_prereq_indices(all, t, i)
                    } else {
                        spec_cons(Rc::new(j), spec_prereq_indices(all, t, i))
                    }
                },
                None => spec_prereq_indices(all, t, i),
            }
        },
    }
}

/// The positions of the definitions of types, but for position `i` itself.
pub fn prereq_indices(all: &Rc<List<Decl>>, refs: &Rc<List<TypeKey>>, i: u64) -> (out: Rc<List<u64>>)
    ensures
        out == spec_prereq_indices(*all, *refs, i),
    decreases refs,
{
    match &**refs {
        List::Nil => nil(),
        List::Cons(h, t) => match definition_index(all, h, 0, None) {
            Some(j) => if j == i { prereq_indices(all, t, i) } else { cons(Rc::new(j), prereq_indices(all, t, i)) },
            None => prereq_indices(all, t, i),
        },
    }
}

/// A declaration with its position, and the positions of those that have to come first.
pub struct Node {
    pub index: u64,
    pub decl: Rc<Decl>,
    pub prereqs: Rc<List<u64>>,
}

/// The declarations from position `i` on, with what has to come first.
pub open spec fn spec_nodes_from(all: Rc<List<Decl>>, l: Rc<List<Decl>>, i: u64) -> Rc<List<Node>>
    decreases l,
{
    match *l {
        List::Nil => spec_nil(),
        List::Cons(h, t) => spec_cons(Rc::new(Node { index: i, decl: h, prereqs: spec_prereq_indices(all, spec_decl_refs(h), i) }), spec_nodes_from(all, t, spec_bump(i))),
    }
}

/// The declarations from position `i` on, with what has to come first.
pub fn nodes_from(all: &Rc<List<Decl>>, l: &Rc<List<Decl>>, i: u64) -> (out: Rc<List<Node>>)
    ensures
        out == spec_nodes_from(*all, *l, i),
    decreases l,
{
    match &**l {
        List::Nil => nil(),
        List::Cons(h, t) => cons(Rc::new(Node { index: i, decl: h.clone(), prereqs: prereq_indices(all, &decl_refs(h), i) }), nodes_from(all, t, bump(i))),
    }
}

/// Whether the declaration at a position is still to be placed.
pub open spec fn spec_is_left(left: Rc<List<Node>>, j: u64) -> bool
    decreases left,
{
    match *left {
        List::Nil => false,
        List::Cons(h, t) => h.index == j || spec_is_left(t, j),
    }
}

/// Whether the declaration at a position is still to be placed.
pub fn is_left(left: &Rc<List<Node>>, j: u64) -> (out: bool)
    ensures
        out == spec_is_left(*left, j),
    decreases left,
{
    match &**left {
        List::Nil => false,
        List::Cons(h, t) => h.index == j || is_left(t, j),
    }
}

/// Whether one of the positions is still to be placed.
pub open spec fn spec_any_left(left: Rc<List<Node>>, js: Rc<List<u64>>) -> bool
    decreases js,
{
    match *js {
        List::Nil => false,
        List::Cons(h, t) => spec_is_left(left, *h) || spec_any_left(left, t),
    }
}

/// Whether one of the positions is still to be placed.
pub fn any_left(left: &Rc<List<Node>>, js: &Rc<List<u64>>) -> (out: bool)
    ensures
        out == spec_any_left(*left, *js),
    decreases js,
{
    match &**js {
        List::Nil => false,
        List::Cons(h, t) => is_left(left, **h) || any_left(left, t),
    }
}

/// The first of `l` that nothing still to be placed has to precede.
pub open spec fn spec_first_ready(left: Rc<List<Node>>, l: Rc<List<Node>>) -> Option<Rc<Node>>
    decreases l,
{
    match *l {
        List::Nil => None,
        List::Cons(h, t) => {
            if spec_any_left(left, h.prereqs) {
                spec_first_ready(left, t)
            } else {
                Some(h)
            }
        },
    }
}

/// The first of `l` that nothing still to be placed has to precede.
pub fn first_ready(left: &Rc<List<Node>>, l: &Rc<List<Node>>) -> (out: Option<Rc<Node>>)
    ensures
        out == spec_first_ready(*left, *l),
    decreases l,
{
    match &**l {
        List::Nil => None,
        List::Cons(h, t) => if any_left(left, &h.prereqs) { first_ready(left, t) } else { Some(h.clone()) },
    }
}

/// The next declaration to place: the first that is ready or, on a cycle, the first.
#[verifier::opaque]
pub open spec fn spec_next_node(left: Rc<List<Node>>) -> Option<Rc<Node>>
{
    match spec_first_ready(left, left) {
        Some(n) => Some(n),
        None => {
            match *left {
                List::Nil => None,
                List::Cons(h, _) => Some(h),
            }
        },
    }
}

/// The next declaration to place: the first that is ready or, on a cycle, the first.
pub fn next_node(left: &Rc<List<Node>>) -> (out: Option<Rc<Node>>)
    ensures
        out == spec_next_node(*left),
{
    proof {
        reveal(spec_next_node);
    }
    match first_ready(left, left) {
        Some(n) => Some(n),
        None => match &**left {
            List::Nil => None,
            List::Cons(h, _) => Some(h.clone()),
        },
    }
}

/// The declarations still to be placed, without the first at a position.
pub open spec fn spec_remove_node(left: Rc<List<Node>>, j: u64) -> Rc<List<Node>>
    decreases left,
{
    match *left {
        List::Nil => spec_nil(),
        List::Cons(h, t) => {
            if h.index == j {
                t
            } else {
                spec_cons(h, spec_remove_node(t, j))
            }
        },
    }
}

/// The declarations still to be placed, without the first at a position.
pub fn remove_node(left: &Rc<List<Node>>, j: u64) -> (out: Rc<List<Node>>)
    ensures
        out == spec_remove_node(*left, j),
    decreases left,
{
    match &**left {
        List::Nil => nil(),
        List::Cons(h, t) => if h.index == j { t.clone() } else { cons(h.clone(), remove_node(t, j)) },
    }
}

/// The declarations in an order in which definitions come first, `count` of them at most.
pub open spec fn spec_place_nodes(left: Rc<List<Node>>, count: u64) -> Rc<List<Node>>
    decreases count,
{
    if count == 0 {
        spec_nil()
    } else {
        match spec_next_node(left) {
            Some(n) => spec_cons(n, spec_place_nodes(spec_remove_node(left, n.index), spec_drop_one(count))),
            None => spec_nil(),
        }
    }
}

/// The declarations in an order in which definitions come first, `count` of them at most.
pub fn place_nodes(left: &Rc<List<Node>>, count: u64) -> (out: Rc<List<Node>>)
    ensures
        out == spec_place_nodes(*left, count),
    decreases count,
{
    if count == 0 {
        nil()
    } else {
        match next_node(left) {
            Some(n) => cons(n.clone(), place_nodes(&remove_node(left, n.index), drop_one(count))),
            None => nil(),
        }
    }
}

/// The declarations of nodes.
pub open spec fn spec_node_decls(l: Rc<List<Node>>) -> Rc<List<Decl>>
    decreases l,
{
    match *l {
        List::Nil => spec_nil(),
        List::Cons(h, t) => spec_cons(h.decl, spec_node_decls(t)),
    }
}

/// The declarations of nodes.
pub fn node_decls(l: &Rc<List<Node>>) -> (out: Rc<List<Decl>>)
    ensures
        out == spec_node_decls(*l),
    decreases l,
{
    match &**l {
        List::Nil => nil(),
        List::Cons(h, t) => cons(h.decl.clone(), node_decls(t)),
    }
}

/// The declarations, with every type definition in front of what refers to it. Apart from that
/// their order stays, and on a cycle of definitions the original order decides.
#[verifier::opaque]
pub open spec fn spec_reorder_type_deps(l: Rc<List<Decl>>) -> Rc<List<Decl>>
{
    let nodes = spec_nodes_from(l, l, 0);
    spec_node_decls(spec_place_nodes(nodes, spec_list_len(nodes)))
}

/// The declarations, with every type definition in front of what refers to it. Apart from that
/// their order stays, and on a cycle of definitions the original order decides.
pub fn reorder_type_deps(l: &Rc<List<Decl>>) -> (out: Rc<List<Decl>>)
    ensures
        out == spec_reorder_type_deps(*l),
{
    proof {
        reveal(spec_reorder_type_deps);
    }
    let nodes = nodes_from(l, l, 0);
    node_decls(&place_nodes(&nodes, list_len(&nodes)))
}

} // verus!
