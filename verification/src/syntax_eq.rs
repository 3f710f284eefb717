//! Whether two pieces of syntax are the same, wherever they were written.

use crate::list::List;
use crate::text::{IntValue, Rope, same_text, spec_same_text};
use crate::ir::{
    BinOp, Expr, ExprT, FieldInit, Ident, InlinePulseToken, Type, TypeRefKind, TypeT, UnOp, VAttr,
    same_name, spec_same_name,
};
use crate::names::{TypeRef, same_type_ref, spec_same_type_ref, spec_type_ref, type_ref};
use std::rc::Rc;
use vstd::prelude::*;

verus! {

/// Whether two integer literals have the same value.
#[verifier::opaque]
pub open spec fn spec_same_int(a: Rc<IntValue>, b: Rc<IntValue>) -> bool
{
    spec_same_text(Rc::new(Rope::Int(a)), Rc::new(Rope::Int(b)))
}

/// Whether two integer literals have the same value.
pub fn same_int(a: &Rc<IntValue>, b: &Rc<IntValue>) -> (out: bool)
    ensures
        out == spec_same_int(*a, *b),
{
    proof {
        reveal(spec_same_int);
    }
    same_text(&Rc::new(Rope::Int(a.clone())), &Rc::new(Rope::Int(b.clone())))
}

/// Whether two references name the same type.
#[verifier::opaque]
pub open spec fn spec_same_kind(a: TypeRefKind, b: TypeRefKind) -> bool
{
    spec_same_type_ref(spec_type_ref(a), spec_type_ref(b))
}

/// Whether two references name the same type.
pub fn same_kind(a: &TypeRefKind, b: &TypeRefKind) -> (out: bool)
    ensures
        out == spec_same_kind(*a, *b),
{
    proof {
        reveal(spec_same_kind);
    }
    same_type_ref(&type_ref(a), &type_ref(b))
}

/// Whether two attributes are the same.
#[verifier::opaque]
pub open spec fn spec_same_vattr(a: VAttr, b: VAttr) -> bool
{
    match (a, b) {
        (VAttr::Length, VAttr::Length) => true,
        (VAttr::Active(x), VAttr::Active(y)) => spec_same_name(x, y),
        _ => false,
    }
}

/// Whether two attributes are the same.
pub fn same_vattr(a: &VAttr, b: &VAttr) -> (out: bool)
    ensures
        out == spec_same_vattr(*a, *b),
{
    proof {
        reveal(spec_same_vattr);
    }
    match (a, b) {
        (VAttr::Length, VAttr::Length) => true,
        (VAttr::Active(x), VAttr::Active(y)) => same_name(x, y),
        _ => false,
    }
}

/// Whether two optional names are the same.
#[verifier::opaque]
pub open spec fn spec_same_opt_name(a: Option<Rc<Ident>>, b: Option<Rc<Ident>>) -> bool
{
    match (a, b) {
        (Some(x), Some(y)) => spec_same_name(x, y),
        (None, None) => true,
        _ => false,
    }
}

/// Whether two optional names are the same.
pub fn same_opt_name(a: &Option<Rc<Ident>>, b: &Option<Rc<Ident>>) -> (out: bool)
    ensures
        out == spec_same_opt_name(*a, *b),
{
    proof {
        reveal(spec_same_opt_name);
    }
    match (a, b) {
        (Some(x), Some(y)) => same_name(x, y),
        (None, None) => true,
        _ => false,
    }
}

/// Whether two expressions agree in all but their operands and types.
#[verifier::opaque]
pub open spec fn spec_same_head(a: Rc<Expr>, b: Rc<Expr>) -> bool
{
    match (a.val, b.val) {
        (ExprT::Var(x), ExprT::Var(y)) => spec_same_name(x, y),
        (ExprT::BoolLit(x), ExprT::BoolLit(y)) => x == y,
        (ExprT::IntLit(x, _), ExprT::IntLit(y, _)) => spec_same_int(x, y),
        (ExprT::FloatLit(x, _), ExprT::FloatLit(y, _)) => spec_same_text(x, y),
        (ExprT::Member(_, x), ExprT::Member(_, y)) => spec_same_name(x, y),
        (ExprT::VAttr(x, _), ExprT::VAttr(y, _)) => spec_same_vattr(x, y),
        (ExprT::UnOp(x, _), ExprT::UnOp(y, _)) => x == y,
        (ExprT::BinOp(x, _, _), ExprT::BinOp(y, _, _)) => x == y,
        (ExprT::FnCall(x, _), ExprT::FnCall(y, _)) => spec_same_name(x, y),
        (ExprT::FnRef(x), ExprT::FnRef(y)) => spec_same_name(x, y),
        (ExprT::Forall(x, _, _), ExprT::Forall(y, _, _)) => spec_same_name(x, y),
        (ExprT::Exists(x, _, _), ExprT::Exists(y, _, _)) => spec_same_name(x, y),
        (ExprT::StructInit(x, _), ExprT::StructInit(y, _)) => spec_same_name(x, y),
        (ExprT::UnionInit(x, f, _), ExprT::UnionInit(y, g, _)) => spec_same_name(x, y) && spec_same_name(f, g),
        (ExprT::ArrayInit { is_static: x, .. }, ExprT::ArrayInit { is_static: y, .. }) => x == y,
        (ExprT::ContainerOf(_, _, x), ExprT::ContainerOf(_, _, y)) => spec_same_name(x, y),
        _ => true,
    }
}

/// Whether two expressions agree in all but their operands and types.
pub fn same_head(a: &Rc<Expr>, b: &Rc<Expr>) -> (out: bool)
    ensures
        out == spec_same_head(*a, *b),
{
    proof {
        reveal(spec_same_head);
    }
    match (&a.val, &b.val) {
        (ExprT::Var(x), ExprT::Var(y)) => same_name(x, y),
        (ExprT::BoolLit(x), ExprT::BoolLit(y)) => *x == *y,
        (ExprT::IntLit(x, _), ExprT::IntLit(y, _)) => same_int(x, y),
        (ExprT::FloatLit(x, _), ExprT::FloatLit(y, _)) => same_text(x, y),
        (ExprT::Member(_, x), ExprT::Member(_, y)) => same_name(x, y),
        (ExprT::VAttr(x, _), ExprT::VAttr(y, _)) => same_vattr(x, y),
        (ExprT::UnOp(x, _), ExprT::UnOp(y, _)) => *x == *y,
        (ExprT::BinOp(x, _, _), ExprT::BinOp(y, _, _)) => *x == *y,
        (ExprT::FnCall(x, _), ExprT::FnCall(y, _)) => same_name(x, y),
        (ExprT::FnRef(x), ExprT::FnRef(y)) => same_name(x, y),
        (ExprT::Forall(x, _, _), ExprT::Forall(y, _, _)) => same_name(x, y),
        (ExprT::Exists(x, _, _), ExprT::Exists(y, _, _)) => same_name(x, y),
        (ExprT::StructInit(x, _), ExprT::StructInit(y, _)) => same_name(x, y),
        (ExprT::UnionInit(x, f, _), ExprT::UnionInit(y, g, _)) => same_name(x, y) && same_name(f, g),
        (ExprT::ArrayInit { is_static: x, .. }, ExprT::ArrayInit { is_static: y, .. }) => *x == *y,
        (ExprT::ContainerOf(_, _, x), ExprT::ContainerOf(_, _, y)) => same_name(x, y),
        _ => true,
    }
}

/// Whether two expressions are the same.
pub open spec fn spec_same_expr(a: Rc<Expr>, b: Rc<Expr>) -> bool
    decreases a, 3nat,
{
    spec_same_head(a, b) && spec_same_operands(a, b)
}

/// Whether two expressions are the same.
pub fn same_expr(a: &Rc<Expr>, b: &Rc<Expr>) -> (out: bool)
    ensures
        out == spec_same_expr(*a, *b),
    decreases a, 3nat,
{
    same_head(a, b) && same_operands(a, b)
}

/// Whether two expressions are of the same kind, with the same operands and types.
pub open spec fn spec_same_operands(a: Rc<Expr>, b: Rc<Expr>) -> bool
    decreases a, 2nat,
{
    match (a.val, b.val) {
        (ExprT::Var(_), ExprT::Var(_)) => true,
        (ExprT::BoolLit(_), ExprT::BoolLit(_)) => true,
        (ExprT::FnRef(_), ExprT::FnRef(_)) => true,
        (ExprT::Deref(x), ExprT::Deref(y)) | (ExprT::Ref(x), ExprT::Ref(y)) => spec_same_expr(x, y),
        (ExprT::Member(x, _), ExprT::Member(y, _)) | (ExprT::VAttr(_, x), ExprT::VAttr(_, y)) => spec_same_expr(x, y),
        (ExprT::UnOp(_, x), ExprT::UnOp(_, y)) | (ExprT::Live(x), ExprT::Live(y)) | (ExprT::Old(x), ExprT::Old(y)) => spec_same_expr(x, y),
        (ExprT::UnionInit(_, _, x), ExprT::UnionInit(_, _, y)) | (ExprT::Free(x), ExprT::Free(y)) => spec_same_expr(x, y),
        (ExprT::PreIncr(x), ExprT::PreIncr(y)) | (ExprT::PostIncr(x), ExprT::PostIncr(y)) => spec_same_expr(x, y),
        (ExprT::PreDecr(x), ExprT::PreDecr(y)) | (ExprT::PostDecr(x), ExprT::PostDecr(y)) => spec_same_expr(x, y),
        _ => spec_same_typed(a, b),
    }
}

/// Whether two expressions are of the same kind, with the same operands and types.
pub fn same_operands(a: &Rc<Expr>, b: &Rc<Expr>) -> (out: bool)
    ensures
        out == spec_same_operands(*a, *b),
    decreases a, 2nat,
{
    match (&a.val, &b.val) {
        (ExprT::Var(_), ExprT::Var(_)) => true,
        (ExprT::BoolLit(_), ExprT::BoolLit(_)) => true,
        (ExprT::FnRef(_), ExprT::FnRef(_)) => true,
        (ExprT::Deref(x), ExprT::Deref(y)) | (ExprT::Ref(x), ExprT::Ref(y)) => same_expr(x, y),
        (ExprT::Member(x, _), ExprT::Member(y, _)) | (ExprT::VAttr(_, x), ExprT::VAttr(_, y)) => same_expr(x, y),
        (ExprT::UnOp(_, x), ExprT::UnOp(_, y)) | (ExprT::Live(x), ExprT::Live(y)) | (ExprT::Old(x), ExprT::Old(y)) => same_expr(x, y),
        (ExprT::UnionInit(_, _, x), ExprT::UnionInit(_, _, y)) | (ExprT::Free(x), ExprT::Free(y)) => same_expr(x, y),
        (ExprT::PreIncr(x), ExprT::PreIncr(y)) | (ExprT::PostIncr(x), ExprT::PostIncr(y)) => same_expr(x, y),
        (ExprT::PreDecr(x), ExprT::PreDecr(y)) | (ExprT::PostDecr(x), ExprT::PostDecr(y)) => same_expr(x, y),
        _ => same_typed(a, b),
    }
}

/// Whether two expressions with a type, or with several operands, are of the same kind, with
/// the same operands and types.
pub open spec fn spec_same_typed(a: Rc<Expr>, b: Rc<Expr>) -> bool
    decreases a, 1nat,
{
    match (a.val, b.val) {
        (ExprT::IntLit(_, s), ExprT::IntLit(_, t)) | (ExprT::FloatLit(_, s), ExprT::FloatLit(_, t)) => spec_same_type(s, t),
        (ExprT::Malloc(s), ExprT::Malloc(t)) | (ExprT::Calloc(s), ExprT::Calloc(t)) => spec_same_type(s, t),
        (ExprT::SizeOf(s), ExprT::SizeOf(t)) | (ExprT::AlignOf(s), ExprT::AlignOf(t)) | (ExprT::Error(s), ExprT::Error(t)) => spec_same_type(s, t),
        (ExprT::Cast(x, s), ExprT::Cast(y, t)) | (ExprT::ContainerOf(x, s, _), ExprT::ContainerOf(y, t, _)) => spec_same_expr(x, y) && spec_same_type(s, t),
        (ExprT::Forall(_, s, x), ExprT::Forall(_, t, y)) | (ExprT::Exists(_, s, x), ExprT::Exists(_, t, y)) => spec_same_expr(x, y) && spec_same_type(s, t),
        (ExprT::MallocArray(s, x), ExprT::MallocArray(t, y)) | (ExprT::CallocArray(s, x), ExprT::CallocArray(t, y)) => spec_same_expr(x, y) && spec_same_type(s, t),
        (ExprT::MallocFlex(s, x), ExprT::MallocFlex(t, y)) | (ExprT::CallocFlex(s, x), ExprT::CallocFlex(t, y)) => spec_same_expr(x, y) && spec_same_type(s, t),
        (ExprT::MemsetZero(s, x), ExprT::MemsetZero(t, y)) => spec_same_expr(x, y) && spec_same_type(s, t),
        _ => spec_same_several(a, b),
    }
}

/// Whether two expressions with a type, or with several operands, are of the same kind, with
/// the same operands and types.
pub fn same_typed(a: &Rc<Expr>, b: &Rc<Expr>) -> (out: bool)
    ensures
        out == spec_same_typed(*a, *b),
    decreases a, 1nat,
{
    match (&a.val, &b.val) {
        (ExprT::IntLit(_, s), ExprT::IntLit(_, t)) | (ExprT::FloatLit(_, s), ExprT::FloatLit(_, t)) => same_type(s, t),
        (ExprT::Malloc(s), ExprT::Malloc(t)) | (ExprT::Calloc(s), ExprT::Calloc(t)) => same_type(s, t),
        (ExprT::SizeOf(s), ExprT::SizeOf(t)) | (ExprT::AlignOf(s), ExprT::AlignOf(t)) | (ExprT::Error(s), ExprT::Error(t)) => same_type(s, t),
        (ExprT::Cast(x, s), ExprT::Cast(y, t)) | (ExprT::ContainerOf(x, s, _), ExprT::ContainerOf(y, t, _)) => same_expr(x, y) && same_type(s, t),
        (ExprT::Forall(_, s, x), ExprT::Forall(_, t, y)) | (ExprT::Exists(_, s, x), ExprT::Exists(_, t, y)) => same_expr(x, y) && same_type(s, t),
        (ExprT::MallocArray(s, x), ExprT::MallocArray(t, y)) | (ExprT::CallocArray(s, x), ExprT::CallocArray(t, y)) => same_expr(x, y) && same_type(s, t),
        (ExprT::MallocFlex(s, x), ExprT::MallocFlex(t, y)) | (ExprT::CallocFlex(s, x), ExprT::CallocFlex(t, y)) => same_expr(x, y) && same_type(s, t),
        (ExprT::MemsetZero(s, x), ExprT::MemsetZero(t, y)) => same_expr(x, y) && same_type(s, t),
        _ => same_several(a, b),
    }
}

/// Whether two expressions with several operands are of the same kind, with the same operands
/// and types.
pub open spec fn spec_same_several(a: Rc<Expr>, b: Rc<Expr>) -> bool
    decreases a, 0nat,
{
    match (a.val, b.val) {
        (ExprT::Index(x, u), ExprT::Index(y, v)) | (ExprT::BinOp(_, x, u), ExprT::BinOp(_, y, v)) => spec_same_expr(x, y) && spec_same_expr(u, v),
        (ExprT::AssignExpr(x, u), ExprT::AssignExpr(y, v)) => spec_same_expr(x, y) && spec_same_expr(u, v),
        (ExprT::Cond(x, u, p), ExprT::Cond(y, v, q)) => spec_same_expr(x, y) && spec_same_expr(u, v) && spec_same_expr(p, q),
        (ExprT::Memset(s, x, u, p), ExprT::Memset(t, y, v, q)) => spec_same_type(s, t) && spec_same_expr(x, y) && spec_same_expr(u, v) && spec_same_expr(p, q),
        (ExprT::FnCall(_, l), ExprT::FnCall(_, m)) => spec_same_exprs(l, m),
        (ExprT::FnPtrCall(x, l), ExprT::FnPtrCall(y, m)) => spec_same_expr(x, y) && spec_same_exprs(l, m),
        (ExprT::InlinePulse(c, s), ExprT::InlinePulse(d, t)) => spec_same_tokens(c.tokens, d.tokens) && spec_same_type(s, t),
        (ExprT::StructInit(_, l), ExprT::StructInit(_, m)) => spec_same_inits(l, m),
        (ExprT::ArrayInit { elem_ty: s, elems: l, .. }, ExprT::ArrayInit { elem_ty: t, elems: m, .. }) => spec_same_type(s, t) && spec_same_exprs(l, m),
        _ => false,
    }
}

/// Whether two expressions with several operands are of the same kind, with the same operands
/// and types.
pub fn same_several(a: &Rc<Expr>, b: &Rc<Expr>) -> (out: bool)
    ensures
        out == spec_same_several(*a, *b),
    decreases a, 0nat,
{
    match (&a.val, &b.val) {
        (ExprT::Index(x, u), ExprT::Index(y, v)) | (ExprT::BinOp(_, x, u), ExprT::BinOp(_, y, v)) => same_expr(x, y) && same_expr(u, v),
        (ExprT::AssignExpr(x, u), ExprT::AssignExpr(y, v)) => same_expr(x, y) && same_expr(u, v),
        (ExprT::Cond(x, u, p), ExprT::Cond(y, v, q)) => same_expr(x, y) && same_expr(u, v) && same_expr(p, q),
        (ExprT::Memset(s, x, u, p), ExprT::Memset(t, y, v, q)) => same_type(s, t) && same_expr(x, y) && same_expr(u, v) && same_expr(p, q),
        (ExprT::FnCall(_, l), ExprT::FnCall(_, m)) => same_exprs(l, m),
        (ExprT::FnPtrCall(x, l), ExprT::FnPtrCall(y, m)) => same_expr(x, y) && same_exprs(l, m),
        (ExprT::InlinePulse(c, s), ExprT::InlinePulse(d, t)) => same_tokens(&c.tokens, &d.tokens) && same_type(s, t),
        (ExprT::StructInit(_, l), ExprT::StructInit(_, m)) => same_inits(l, m),
        (ExprT::ArrayInit { elem_ty: s, elems: l, .. }, ExprT::ArrayInit { elem_ty: t, elems: m, .. }) => same_type(s, t) && same_exprs(l, m),
        _ => false,
    }
}

/// Whether expressions are the same one by one.
pub open spec fn spec_same_exprs(a: Rc<List<Expr>>, b: Rc<List<Expr>>) -> bool
    decreases a, 0nat,
{
    match (*a, *b) {
        (List::Nil, List::Nil) => true,
        (List::Cons(x, s), List::Cons(y, t)) => spec_same_expr(x, y) && spec_same_exprs(s, t),
        _ => false,
    }
}

/// Whether expressions are the same one by one.
pub fn same_exprs(a: &Rc<List<Expr>>, b: &Rc<List<Expr>>) -> (out: bool)
    ensures
        out == spec_same_exprs(*a, *b),
    decreases a, 0nat,
{
    match (&**a, &**b) {
        (List::Nil, List::Nil) => true,
        (List::Cons(x, s), List::Cons(y, t)) => same_expr(x, y) && same_exprs(s, t),
        _ => false,
    }
}

/// Whether two field values are the same.
pub open spec fn spec_same_init(a: Rc<FieldInit>, b: Rc<FieldInit>) -> bool
    decreases a, 0nat,
{
    spec_same_name(a.name, b.name) && spec_same_expr(a.value, b.value)
}

/// Whether two field values are the same.
pub fn same_init(a: &Rc<FieldInit>, b: &Rc<FieldInit>) -> (out: bool)
    ensures
        out == spec_same_init(*a, *b),
    decreases a, 0nat,
{
    same_name(&a.name, &b.name) && same_expr(&a.value, &b.value)
}

/// Whether field values are the same one by one.
pub open spec fn spec_same_inits(a: Rc<List<FieldInit>>, b: Rc<List<FieldInit>>) -> bool
    decreases a, 0nat,
{
    match (*a, *b) {
        (List::Nil, List::Nil) => true,
        (List::Cons(x, s), List::Cons(y, t)) => spec_same_init(x, y) && spec_same_inits(s, t),
        _ => false,
    }
}

/// Whether field values are the same one by one.
pub fn same_inits(a: &Rc<List<FieldInit>>, b: &Rc<List<FieldInit>>) -> (out: bool)
    ensures
        out == spec_same_inits(*a, *b),
    decreases a, 0nat,
{
    match (&**a, &**b) {
        (List::Nil, List::Nil) => true,
        (List::Cons(x, s), List::Cons(y, t)) => same_init(x, y) && same_inits(s, t),
        _ => false,
    }
}

/// Whether two tokens are the same.
pub open spec fn spec_same_token(a: Rc<InlinePulseToken>, b: Rc<InlinePulseToken>) -> bool
    decreases a, 0nat,
{
    match (*a, *b) {
        (InlinePulseToken::Verbatim { before: p, text: x }, InlinePulseToken::Verbatim { before: q, text: y }) => spec_same_text(p, q) && spec_same_name(x, y),
        (InlinePulseToken::RValueAntiquot { before: p, expr: x }, InlinePulseToken::RValueAntiquot { before: q, expr: y }) => spec_same_text(p, q) && spec_same_expr(x, y),
        (InlinePulseToken::LValueAntiquot { before: p, expr: x }, InlinePulseToken::LValueAntiquot { before: q, expr: y }) => spec_same_text(p, q) && spec_same_expr(x, y),
        (InlinePulseToken::TypeAntiquot { before: p, ty: s }, InlinePulseToken::TypeAntiquot { before: q, ty: t }) => spec_same_text(p, q) && spec_same_type(s, t),
        (InlinePulseToken::FieldAntiquot { before: p, ty: s, field_name: x }, InlinePulseToken::FieldAntiquot { before: q, ty: t, field_name: y }) => spec_same_text(p, q) && spec_same_type(s, t) && spec_same_name(x, y),
        (InlinePulseToken::AuxFnAntiquot { before: p, ty: s, arm: x, kind: k }, InlinePulseToken::AuxFnAntiquot { before: q, ty: t, arm: y, kind: m }) => spec_same_text(p, q) && spec_same_type(s, t) && spec_same_opt_name(x, y) && k == m,
        (InlinePulseToken::Declare { ident: x, ty: s }, InlinePulseToken::Declare { ident: y, ty: t }) => spec_same_name(x, y) && spec_same_type(s, t),
        _ => false,
    }
}

/// Whether two tokens are the same.
pub fn same_token(a: &Rc<InlinePulseToken>, b: &Rc<InlinePulseToken>) -> (out: bool)
    ensures
        out == spec_same_token(*a, *b),
    decreases a, 0nat,
{
    match (&**a, &**b) {
        (InlinePulseToken::Verbatim { before: p, text: x }, InlinePulseToken::Verbatim { before: q, text: y }) => same_text(p, q) && same_name(x, y),
        (InlinePulseToken::RValueAntiquot { before: p, expr: x }, InlinePulseToken::RValueAntiquot { before: q, expr: y }) => same_text(p, q) && same_expr(x, y),
        (InlinePulseToken::LValueAntiquot { before: p, expr: x }, InlinePulseToken::LValueAntiquot { before: q, expr: y }) => same_text(p, q) && same_expr(x, y),
        (InlinePulseToken::TypeAntiquot { before: p, ty: s }, InlinePulseToken::TypeAntiquot { before: q, ty: t }) => same_text(p, q) && same_type(s, t),
        (InlinePulseToken::FieldAntiquot { before: p, ty: s, field_name: x }, InlinePulseToken::FieldAntiquot { before: q, ty: t, field_name: y }) =>
            same_text(p, q) && same_type(s, t) && same_name(x, y),
        (InlinePulseToken::AuxFnAntiquot { before: p, ty: s, arm: x, kind: k }, InlinePulseToken::AuxFnAntiquot { before: q, ty: t, arm: y, kind: m }) =>
            same_text(p, q) && same_type(s, t) && same_opt_name(x, y) && *k == *m,
        (InlinePulseToken::Declare { ident: x, ty: s }, InlinePulseToken::Declare { ident: y, ty: t }) => same_name(x, y) && same_type(s, t),
        _ => false,
    }
}

/// Whether tokens are the same one by one.
pub open spec fn spec_same_tokens(
    a: Rc<List<InlinePulseToken>>,
    b: Rc<List<InlinePulseToken>>,
) -> bool
    decreases a, 0nat,
{
    match (*a, *b) {
        (List::Nil, List::Nil) => true,
        (List::Cons(x, s), List::Cons(y, t)) => spec_same_token(x, y) && spec_same_tokens(s, t),
        _ => false,
    }
}

/// Whether tokens are the same one by one.
pub fn same_tokens(a: &Rc<List<InlinePulseToken>>, b: &Rc<List<InlinePulseToken>>) -> (out: bool)
    ensures
        out == spec_same_tokens(*a, *b),
    decreases a, 0nat,
{
    match (&**a, &**b) {
        (List::Nil, List::Nil) => true,
        (List::Cons(x, s), List::Cons(y, t)) => same_token(x, y) && same_tokens(s, t),
        _ => false,
    }
}

/// Whether two types are the same.
pub open spec fn spec_same_type(a: Rc<Type>, b: Rc<Type>) -> bool
    decreases a, 0nat,
{
    match (a.val, b.val) {
        (TypeT::Void, TypeT::Void) | (TypeT::Bool, TypeT::Bool) | (TypeT::SizeT, TypeT::SizeT) | (TypeT::PtrdiffT, TypeT::PtrdiffT) => true,
        (TypeT::SpecInt, TypeT::SpecInt) | (TypeT::SpecNat, TypeT::SpecNat) | (TypeT::SLProp, TypeT::SLProp) => true,
        (TypeT::Unknown, TypeT::Unknown) | (TypeT::Error, TypeT::Error) => true,
        (TypeT::Int { signed: s1, width: w1 }, TypeT::Int { signed: s2, width: w2 }) => s1 == s2 && w1 == w2,
        (TypeT::Float { width: w1 }, TypeT::Float { width: w2 }) => w1 == w2,
        (TypeT::Pointer(s, j), TypeT::Pointer(t, k)) => j == k && spec_same_type(s, t),
        (TypeT::FixedArray(s, m), TypeT::FixedArray(t, n)) => m == n && spec_same_type(s, t),
        (TypeT::FlexArray(s), TypeT::FlexArray(t)) => spec_same_type(s, t),
        (TypeT::FnPtr { args: l, ret: s }, TypeT::FnPtr { args: m, ret: t }) => spec_same_types(l, m) && spec_same_type(s, t),
        (TypeT::TypeRef(j), TypeT::TypeRef(k)) => spec_same_kind(j, k),
        (TypeT::Refine(s, x), TypeT::Refine(t, y)) | (TypeT::RefineAlways(s, x), TypeT::RefineAlways(t, y)) => spec_same_type(s, t) && spec_same_expr(x, y),
        (TypeT::RefineUninit(s, x), TypeT::RefineUninit(t, y)) => spec_same_type(s, t) && spec_same_expr(x, y),
        (TypeT::RefineValue(s, m, u, x), TypeT::RefineValue(t, n, v, y)) => spec_same_type(s, t) && spec_same_name(m, n) && spec_same_type(u, v) && spec_same_expr(x, y),
        (TypeT::Plain(s), TypeT::Plain(t)) | (TypeT::Nullable(s), TypeT::Nullable(t)) => spec_same_type(s, t),
        _ => false,
    }
}

/// Whether two types are the same.
pub fn same_type(a: &Rc<Type>, b: &Rc<Type>) -> (out: bool)
    ensures
        out == spec_same_type(*a, *b),
    decreases a, 0nat,
{
    match (&a.val, &b.val) {
        (TypeT::Void, TypeT::Void) | (TypeT::Bool, TypeT::Bool) | (TypeT::SizeT, TypeT::SizeT) | (TypeT::PtrdiffT, TypeT::PtrdiffT) => true,
        (TypeT::SpecInt, TypeT::SpecInt) | (TypeT::SpecNat, TypeT::SpecNat) | (TypeT::SLProp, TypeT::SLProp) => true,
        (TypeT::Unknown, TypeT::Unknown) | (TypeT::Error, TypeT::Error) => true,
        (TypeT::Int { signed: s1, width: w1 }, TypeT::Int { signed: s2, width: w2 }) => *s1 == *s2 && *w1 == *w2,
        (TypeT::Float { width: w1 }, TypeT::Float { width: w2 }) => *w1 == *w2,
        (TypeT::Pointer(s, j), TypeT::Pointer(t, k)) => *j == *k && same_type(s, t),
        (TypeT::FixedArray(s, m), TypeT::FixedArray(t, n)) => *m == *n && same_type(s, t),
        (TypeT::FlexArray(s), TypeT::FlexArray(t)) => same_type(s, t),
        (TypeT::FnPtr { args: l, ret: s }, TypeT::FnPtr { args: m, ret: t }) => same_types(l, m) && same_type(s, t),
        (TypeT::TypeRef(j), TypeT::TypeRef(k)) => same_kind(j, k),
        (TypeT::Refine(s, x), TypeT::Refine(t, y)) | (TypeT::RefineAlways(s, x), TypeT::RefineAlways(t, y)) => same_type(s, t) && same_expr(x, y),
        (TypeT::RefineUninit(s, x), TypeT::RefineUninit(t, y)) => same_type(s, t) && same_expr(x, y),
        (TypeT::RefineValue(s, m, u, x), TypeT::RefineValue(t, n, v, y)) => same_type(s, t) && same_name(m, n) && same_type(u, v) && same_expr(x, y),
        (TypeT::Plain(s), TypeT::Plain(t)) | (TypeT::Nullable(s), TypeT::Nullable(t)) => same_type(s, t),
        _ => false,
    }
}

/// Whether types are the same one by one.
pub open spec fn spec_same_types(a: Rc<List<Type>>, b: Rc<List<Type>>) -> bool
    decreases a, 0nat,
{
    match (*a, *b) {
        (List::Nil, List::Nil) => true,
        (List::Cons(x, s), List::Cons(y, t)) => spec_same_type(x, y) && spec_same_types(s, t),
        _ => false,
    }
}

/// Whether types are the same one by one.
pub fn same_types(a: &Rc<List<Type>>, b: &Rc<List<Type>>) -> (out: bool)
    ensures
        out == spec_same_types(*a, *b),
    decreases a, 0nat,
{
    match (&**a, &**b) {
        (List::Nil, List::Nil) => true,
        (List::Cons(x, s), List::Cons(y, t)) => same_type(x, y) && same_types(s, t),
        _ => false,
    }
}

} // verus!
