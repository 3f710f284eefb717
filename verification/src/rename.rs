//! Giving the variables of a contract other names.

use crate::list::{List, cons, nil, spec_cons, spec_nil};
use crate::text::{Text, same_text, spec_same_text};
use crate::ir::{
    BinOp, Expr, ExprT, FieldInit, Ident, InlinePulseCode, InlinePulseToken, Type, TypeT, UnOp,
    VAttr, mk_expr, mk_type, spec_mk_expr, spec_mk_type, spec_with_child,
    spec_with_child_and_type, spec_with_children, spec_with_inner, spec_with_inner_and_fact,
    spec_with_list, spec_with_three, spec_with_type_only, with_child, with_child_and_type,
    with_children, with_inner, with_inner_and_fact, with_list, with_three, with_type_only,
};
use std::rc::Rc;
use vstd::prelude::*;

verus! {

/// A name, and the one that takes its place.
pub struct Rename {
    pub from: Text,
    pub to: Rc<Ident>,
}

/// The name that takes the place of `x`.
pub open spec fn spec_find_rename(l: Rc<List<Rename>>, x: Text) -> Option<Rc<Ident>>
    decreases l,
{
    match *l {
        List::Nil => None,
        List::Cons(h, t) => {
            if spec_same_text(h.from, x) {
                Some(h.to)
            } else {
                spec_find_rename(t, x)
            }
        },
    }
}

/// The name that takes the place of `x`.
pub fn find_rename(l: &Rc<List<Rename>>, x: &Text) -> (out: Option<Rc<Ident>>)
    ensures
        out == spec_find_rename(*l, *x),
    decreases l,
{
    match &**l {
        List::Nil => None,
        List::Cons(h, t) => if same_text(&h.from, x) { Some(h.to.clone()) } else { find_rename(t, x) },
    }
}

/// The renames without those of `x`, where a binder hides it.
pub open spec fn spec_without(l: Rc<List<Rename>>, x: Text) -> Rc<List<Rename>>
    decreases l,
{
    match *l {
        List::Nil => spec_nil(),
        List::Cons(h, t) => {
            if spec_same_text(h.from, x) {
                spec_without(t, x)
            } else {
                spec_cons(h, spec_without(t, x))
            }
        },
    }
}

/// The renames without those of `x`, where a binder hides it.
pub fn without(l: &Rc<List<Rename>>, x: &Text) -> (out: Rc<List<Rename>>)
    ensures
        out == spec_without(*l, *x),
    decreases l,
{
    match &**l {
        List::Nil => nil(),
        List::Cons(h, t) => if same_text(&h.from, x) { without(t, x) } else { cons(h.clone(), without(t, x)) },
    }
}

/// The expression with other names for its variables.
pub open spec fn spec_rename_expr(e: Rc<Expr>, r: Rc<List<Rename>>) -> Rc<Expr>
    decreases e, 4nat,
{
    match e.val {
        ExprT::Var(x) => {
            match spec_find_rename(r, x.val) {
                Some(n) => spec_mk_expr(e.loc, ExprT::Var(n)),
                None => e,
            }
        },
        ExprT::Deref(a) | ExprT::Ref(a) | ExprT::UnOp(_, a) | ExprT::Live(a) | ExprT::Old(a) => spec_with_child(e, spec_rename_expr(a, r)),
        ExprT::PreIncr(a) | ExprT::PostIncr(a) | ExprT::PreDecr(a) | ExprT::PostDecr(a) => spec_with_child(e, spec_rename_expr(a, r)),
        ExprT::Free(a) | ExprT::Member(a, _) | ExprT::VAttr(_, a) | ExprT::UnionInit(_, _, a) => spec_with_child(e, spec_rename_expr(a, r)),
        _ => spec_rename_operands(e, r),
    }
}

/// The expression with other names for its variables.
pub fn rename_expr(e: &Rc<Expr>, r: &Rc<List<Rename>>) -> (out: Rc<Expr>)
    ensures
        out == spec_rename_expr(*e, *r),
    decreases e, 4nat,
{
    match &e.val {
        ExprT::Var(x) => match find_rename(r, &x.val) {
            Some(n) => mk_expr(&e.loc, ExprT::Var(n)),
            None => e.clone(),
        },
        ExprT::Deref(a) | ExprT::Ref(a) | ExprT::UnOp(_, a) | ExprT::Live(a) | ExprT::Old(a) => with_child(e, rename_expr(a, r)),
        ExprT::PreIncr(a) | ExprT::PostIncr(a) | ExprT::PreDecr(a) | ExprT::PostDecr(a) => with_child(e, rename_expr(a, r)),
        ExprT::Free(a) | ExprT::Member(a, _) | ExprT::VAttr(_, a) | ExprT::UnionInit(_, _, a) => with_child(e, rename_expr(a, r)),
        _ => rename_operands(e, r),
    }
}

/// The expression with other names for its variables, where it has several operands.
pub open spec fn spec_rename_operands(e: Rc<Expr>, r: Rc<List<Rename>>) -> Rc<Expr>
    decreases e, 3nat,
{
    match e.val {
        ExprT::Index(a, b) | ExprT::BinOp(_, a, b) | ExprT::AssignExpr(a, b) => spec_with_children(e, spec_rename_expr(a, r), spec_rename_expr(b, r)),
        ExprT::Cond(a, b, c) => spec_with_three(e, spec_rename_expr(a, r), spec_rename_expr(b, r), spec_rename_expr(c, r)),
        ExprT::FnCall(_, l) => spec_with_list(e, spec_rename_exprs(l, r)),
        ExprT::FnPtrCall(f, l) => spec_mk_expr(e.loc, ExprT::FnPtrCall(spec_rename_expr(f, r), spec_rename_exprs(l, r))),
        ExprT::StructInit(n, inits) => spec_mk_expr(e.loc, ExprT::StructInit(n, spec_rename_inits(inits, r))),
        _ => spec_rename_typed(e, r),
    }
}

/// The expression with other names for its variables, where it has several operands.
pub fn rename_operands(e: &Rc<Expr>, r: &Rc<List<Rename>>) -> (out: Rc<Expr>)
    ensures
        out == spec_rename_operands(*e, *r),
    decreases e, 3nat,
{
    match &e.val {
        ExprT::Index(a, b) | ExprT::BinOp(_, a, b) | ExprT::AssignExpr(a, b) => with_children(e, rename_expr(a, r), rename_expr(b, r)),
        ExprT::Cond(a, b, c) => with_three(e, rename_expr(a, r), rename_expr(b, r), rename_expr(c, r)),
        ExprT::FnCall(_, l) => with_list(e, rename_exprs(l, r)),
        ExprT::FnPtrCall(f, l) => mk_expr(&e.loc, ExprT::FnPtrCall(rename_expr(f, r), rename_exprs(l, r))),
        ExprT::StructInit(n, inits) => mk_expr(&e.loc, ExprT::StructInit(n.clone(), rename_inits(inits, r))),
        _ => rename_typed(e, r),
    }
}

/// The expression with other names for its variables, where it has a type.
pub open spec fn spec_rename_typed(e: Rc<Expr>, r: Rc<List<Rename>>) -> Rc<Expr>
    decreases e, 2nat,
{
    match e.val {
        ExprT::Cast(a, t) | ExprT::ContainerOf(a, t, _) => spec_with_child_and_type(e, spec_rename_expr(a, r), spec_rename_type(t, r)),
        ExprT::MallocArray(t, a) | ExprT::CallocArray(t, a) => spec_with_child_and_type(e, spec_rename_expr(a, r), spec_rename_type(t, r)),
        ExprT::MallocFlex(t, a) | ExprT::CallocFlex(t, a) | ExprT::MemsetZero(t, a) => spec_with_child_and_type(e, spec_rename_expr(a, r), spec_rename_type(t, r)),
        ExprT::Forall(x, t, b) | ExprT::Exists(x, t, b) => spec_with_child_and_type(e, spec_rename_expr(b, spec_without(r, x.val)), spec_rename_type(t, r)),
        ExprT::IntLit(_, t) | ExprT::FloatLit(_, t) | ExprT::Malloc(t) | ExprT::Calloc(t) => spec_with_type_only(e, spec_rename_type(t, r)),
        ExprT::SizeOf(t) | ExprT::AlignOf(t) | ExprT::Error(t) => spec_with_type_only(e, spec_rename_type(t, r)),
        _ => spec_rename_mixed(e, r),
    }
}

/// The expression with other names for its variables, where it has a type.
pub fn rename_typed(e: &Rc<Expr>, r: &Rc<List<Rename>>) -> (out: Rc<Expr>)
    ensures
        out == spec_rename_typed(*e, *r),
    decreases e, 2nat,
{
    match &e.val {
        ExprT::Cast(a, t) | ExprT::ContainerOf(a, t, _) => with_child_and_type(e, rename_expr(a, r), rename_type(t, r)),
        ExprT::MallocArray(t, a) | ExprT::CallocArray(t, a) => with_child_and_type(e, rename_expr(a, r), rename_type(t, r)),
        ExprT::MallocFlex(t, a) | ExprT::CallocFlex(t, a) | ExprT::MemsetZero(t, a) => with_child_and_type(e, rename_expr(a, r), rename_type(t, r)),
        ExprT::Forall(x, t, b) | ExprT::Exists(x, t, b) => with_child_and_type(e, rename_expr(b, &without(r, &x.val)), rename_type(t, r)),
        ExprT::IntLit(_, t) | ExprT::FloatLit(_, t) | ExprT::Malloc(t) | ExprT::Calloc(t) => with_type_only(e, rename_type(t, r)),
        ExprT::SizeOf(t) | ExprT::AlignOf(t) | ExprT::Error(t) => with_type_only(e, rename_type(t, r)),
        _ => rename_mixed(e, r),
    }
}

/// The expression with other names for its variables, where it has a type and several operands.
pub open spec fn spec_rename_mixed(e: Rc<Expr>, r: Rc<List<Rename>>) -> Rc<Expr>
    decreases e, 1nat,
{
    match e.val {
        ExprT::InlinePulse(code, t) => spec_mk_expr(e.loc, ExprT::InlinePulse(Rc::new(InlinePulseCode { tokens: spec_rename_tokens(code.tokens, r) }), spec_rename_type(t, r))),
        ExprT::ArrayInit { elem_ty, elems, is_static } => spec_mk_expr(e.loc, ExprT::ArrayInit { elem_ty: spec_rename_type(elem_ty, r), elems: spec_rename_exprs(elems, r), is_static }),
        ExprT::Memset(t, p, v, n) => spec_mk_expr(e.loc, ExprT::Memset(spec_rename_type(t, r), spec_rename_expr(p, r), spec_rename_expr(v, r), spec_rename_expr(n, r))),
        _ => e,
    }
}

/// The expression with other names for its variables, where it has a type and several operands.
pub fn rename_mixed(e: &Rc<Expr>, r: &Rc<List<Rename>>) -> (out: Rc<Expr>)
    ensures
        out == spec_rename_mixed(*e, *r),
    decreases e, 1nat,
{
    match &e.val {
        ExprT::InlinePulse(code, t) => mk_expr(&e.loc, ExprT::InlinePulse(
            Rc::new(InlinePulseCode { tokens: rename_tokens(&code.tokens, r) }), rename_type(t, r))),
        ExprT::ArrayInit { elem_ty, elems, is_static } => mk_expr(&e.loc, ExprT::ArrayInit {
            elem_ty: rename_type(elem_ty, r), elems: rename_exprs(elems, r), is_static: *is_static }),
        ExprT::Memset(t, p, v, n) => mk_expr(&e.loc, ExprT::Memset(rename_type(t, r), rename_expr(p, r), rename_expr(v, r), rename_expr(n, r))),
        _ => e.clone(),
    }
}

/// The expressions with other names for their variables.
pub open spec fn spec_rename_exprs(l: Rc<List<Expr>>, r: Rc<List<Rename>>) -> Rc<List<Expr>>
    decreases l, 0nat,
{
    match *l {
        List::Nil => spec_nil(),
        List::Cons(h, t) => spec_cons(spec_rename_expr(h, r), spec_rename_exprs(t, r)),
    }
}

/// The expressions with other names for their variables.
pub fn rename_exprs(l: &Rc<List<Expr>>, r: &Rc<List<Rename>>) -> (out: Rc<List<Expr>>)
    ensures
        out == spec_rename_exprs(*l, *r),
    decreases l, 0nat,
{
    match &**l {
        List::Nil => nil(),
        List::Cons(h, t) => cons(rename_expr(h, r), rename_exprs(t, r)),
    }
}

/// The field's value with other names for its variables.
pub open spec fn spec_rename_init(i: Rc<FieldInit>, r: Rc<List<Rename>>) -> Rc<FieldInit>
    decreases i, 0nat,
{
    Rc::new(FieldInit { name: i.name, value: spec_rename_expr(i.value, r) })
}

/// The field's value with other names for its variables.
pub fn rename_init(i: &Rc<FieldInit>, r: &Rc<List<Rename>>) -> (out: Rc<FieldInit>)
    ensures
        out == spec_rename_init(*i, *r),
    decreases i, 0nat,
{
    Rc::new(FieldInit { name: i.name.clone(), value: rename_expr(&i.value, r) })
}

/// The fields' values with other names for their variables.
pub open spec fn spec_rename_inits(
    l: Rc<List<FieldInit>>,
    r: Rc<List<Rename>>,
) -> Rc<List<FieldInit>>
    decreases l, 0nat,
{
    match *l {
        List::Nil => spec_nil(),
        List::Cons(h, t) => spec_cons(spec_rename_init(h, r), spec_rename_inits(t, r)),
    }
}

/// The fields' values with other names for their variables.
pub fn rename_inits(l: &Rc<List<FieldInit>>, r: &Rc<List<Rename>>) -> (out: Rc<List<FieldInit>>)
    ensures
        out == spec_rename_inits(*l, *r),
    decreases l, 0nat,
{
    match &**l {
        List::Nil => nil(),
        List::Cons(h, t) => cons(rename_init(h, r), rename_inits(t, r)),
    }
}

/// The token with other names for its variables.
pub open spec fn spec_rename_token(
    tok: Rc<InlinePulseToken>,
    r: Rc<List<Rename>>,
) -> Rc<InlinePulseToken>
    decreases tok, 0nat,
{
    match *tok {
        InlinePulseToken::Verbatim { .. } => tok,
        InlinePulseToken::RValueAntiquot { before, expr } => Rc::new(InlinePulseToken::RValueAntiquot { before, expr: spec_rename_expr(expr, r) }),
        InlinePulseToken::LValueAntiquot { before, expr } => Rc::new(InlinePulseToken::LValueAntiquot { before, expr: spec_rename_expr(expr, r) }),
        InlinePulseToken::TypeAntiquot { before, ty } => Rc::new(InlinePulseToken::TypeAntiquot { before, ty: spec_rename_type(ty, r) }),
        InlinePulseToken::FieldAntiquot { before, ty, field_name } => Rc::new(InlinePulseToken::FieldAntiquot { before, ty: spec_rename_type(ty, r), field_name }),
        InlinePulseToken::AuxFnAntiquot { before, ty, arm, kind } => Rc::new(InlinePulseToken::AuxFnAntiquot { before, ty: spec_rename_type(ty, r), arm: spec_clone_opt_ident(arm), kind }),
        InlinePulseToken::Declare { ident, ty } => Rc::new(InlinePulseToken::Declare { ident, ty: spec_rename_type(ty, r) }),
    }
}

/// The token with other names for its variables.
pub fn rename_token(tok: &Rc<InlinePulseToken>, r: &Rc<List<Rename>>) -> (out: Rc<InlinePulseToken>)
    ensures
        out == spec_rename_token(*tok, *r),
    decreases tok, 0nat,
{
    match &**tok {
        InlinePulseToken::Verbatim { .. } => tok.clone(),
        InlinePulseToken::RValueAntiquot { before, expr } => Rc::new(InlinePulseToken::RValueAntiquot { before: before.clone(), expr: rename_expr(expr, r) }),
        InlinePulseToken::LValueAntiquot { before, expr } => Rc::new(InlinePulseToken::LValueAntiquot { before: before.clone(), expr: rename_expr(expr, r) }),
        InlinePulseToken::TypeAntiquot { before, ty } => Rc::new(InlinePulseToken::TypeAntiquot { before: before.clone(), ty: rename_type(ty, r) }),
        InlinePulseToken::FieldAntiquot { before, ty, field_name } => Rc::new(InlinePulseToken::FieldAntiquot {
            before: before.clone(), ty: rename_type(ty, r), field_name: field_name.clone() }),
        InlinePulseToken::AuxFnAntiquot { before, ty, arm, kind } => Rc::new(InlinePulseToken::AuxFnAntiquot {
            before: before.clone(), ty: rename_type(ty, r), arm: clone_opt_ident(arm), kind: *kind }),
        InlinePulseToken::Declare { ident, ty } => Rc::new(InlinePulseToken::Declare { ident: ident.clone(), ty: rename_type(ty, r) }),
    }
}

/// The tokens with other names for their variables.
pub open spec fn spec_rename_tokens(
    l: Rc<List<InlinePulseToken>>,
    r: Rc<List<Rename>>,
) -> Rc<List<InlinePulseToken>>
    decreases l, 0nat,
{
    match *l {
        List::Nil => spec_nil(),
        List::Cons(h, t) => spec_cons(spec_rename_token(h, r), spec_rename_tokens(t, r)),
    }
}

/// The tokens with other names for their variables.
pub fn rename_tokens(l: &Rc<List<InlinePulseToken>>, r: &Rc<List<Rename>>) -> (out: Rc<List<InlinePulseToken>>)
    ensures
        out == spec_rename_tokens(*l, *r),
    decreases l, 0nat,
{
    match &**l {
        List::Nil => nil(),
        List::Cons(h, t) => cons(rename_token(h, r), rename_tokens(t, r)),
    }
}

/// The type with other names for the variables of its refinements.
pub open spec fn spec_rename_type(ty: Rc<Type>, r: Rc<List<Rename>>) -> Rc<Type>
    decreases ty, 1nat,
{
    match ty.val {
        TypeT::Pointer(t, _) | TypeT::FixedArray(t, _) | TypeT::FlexArray(t) => spec_with_inner(ty, spec_rename_type(t, r)),
        TypeT::Plain(t) | TypeT::Nullable(t) => spec_with_inner(ty, spec_rename_type(t, r)),
        TypeT::Refine(t, p) | TypeT::RefineAlways(t, p) | TypeT::RefineUninit(t, p) => spec_with_inner_and_fact(ty, spec_rename_type(t, r), spec_rename_expr(p, r)),
        TypeT::RefineValue(t, x, u, p) => spec_mk_type(ty.loc, TypeT::RefineValue(spec_rename_type(t, r), x, spec_rename_type(u, r), spec_rename_expr(p, spec_without(r, x.val)))),
        TypeT::FnPtr { args, ret } => spec_mk_type(ty.loc, TypeT::FnPtr { args: spec_rename_types(args, r), ret: spec_rename_type(ret, r) }),
        _ => ty,
    }
}

/// The type with other names for the variables of its refinements.
pub fn rename_type(ty: &Rc<Type>, r: &Rc<List<Rename>>) -> (out: Rc<Type>)
    ensures
        out == spec_rename_type(*ty, *r),
    decreases ty, 1nat,
{
    match &ty.val {
        TypeT::Pointer(t, _) | TypeT::FixedArray(t, _) | TypeT::FlexArray(t) => with_inner(ty, rename_type(t, r)),
        TypeT::Plain(t) | TypeT::Nullable(t) => with_inner(ty, rename_type(t, r)),
        TypeT::Refine(t, p) | TypeT::RefineAlways(t, p) | TypeT::RefineUninit(t, p) => with_inner_and_fact(ty, rename_type(t, r), rename_expr(p, r)),
        TypeT::RefineValue(t, x, u, p) => mk_type(&ty.loc, TypeT::RefineValue(rename_type(t, r), x.clone(), rename_type(u, r), rename_expr(p, &without(r, &x.val)))),
        TypeT::FnPtr { args, ret } => mk_type(&ty.loc, TypeT::FnPtr { args: rename_types(args, r), ret: rename_type(ret, r) }),
        _ => ty.clone(),
    }
}

/// The types with other names for the variables of their refinements.
pub open spec fn spec_rename_types(l: Rc<List<Type>>, r: Rc<List<Rename>>) -> Rc<List<Type>>
    decreases l, 0nat,
{
    match *l {
        List::Nil => spec_nil(),
        List::Cons(h, t) => spec_cons(spec_rename_type(h, r), spec_rename_types(t, r)),
    }
}

/// The types with other names for the variables of their refinements.
pub fn rename_types(l: &Rc<List<Type>>, r: &Rc<List<Rename>>) -> (out: Rc<List<Type>>)
    ensures
        out == spec_rename_types(*l, *r),
    decreases l, 0nat,
{
    match &**l {
        List::Nil => nil(),
        List::Cons(h, t) => cons(rename_type(h, r), rename_types(t, r)),
    }
}

/// A copy of an optional name.
#[verifier::opaque]
pub open spec fn spec_clone_opt_ident(n: Option<Rc<Ident>>) -> Option<Rc<Ident>>
{
    match n {
        Some(x) => Some(x),
        None => None,
    }
}

/// A copy of an optional name.
pub fn clone_opt_ident(n: &Option<Rc<Ident>>) -> (out: Option<Rc<Ident>>)
    ensures
        out == spec_clone_opt_ident(*n),
{
    proof {
        reveal(spec_clone_opt_ident);
    }
    match n {
        Some(x) => Some(x.clone()),
        None => None,
    }
}

} // verus!
