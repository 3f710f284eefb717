//! What is proved of renaming.

use crate::list::{List, spec_nil};
use crate::ir::{
    BinOp, Expr, ExprT, FieldInit, InlinePulseCode, InlinePulseToken, Type, TypeT, UnOp, VAttr,
    spec_clone_vattr, spec_mk_expr, spec_mk_type, spec_with_child, spec_with_child_and_type,
    spec_with_children, spec_with_inner, spec_with_inner_and_fact, spec_with_list,
    spec_with_three, spec_with_type_only,
};
use crate::rename::{
    Rename, spec_clone_opt_ident, spec_rename_expr, spec_rename_exprs, spec_rename_init,
    spec_rename_inits, spec_rename_mixed, spec_rename_operands, spec_rename_token,
    spec_rename_tokens, spec_rename_type, spec_rename_typed, spec_rename_types,
};
use std::rc::Rc;
use vstd::prelude::*;

verus! {

/// No renames.
pub open spec fn no_renames() -> Rc<List<Rename>> {
    spec_nil()
}

/// Without renames an expression stays as it is.
pub proof fn law_renaming_nothing_changes_nothing(e: Rc<Expr>)
    ensures
        spec_rename_expr(e, no_renames()) == e,
    decreases e, 4nat,
{
    match e.val {
        ExprT::Deref(a) | ExprT::Ref(a) | ExprT::UnOp(_, a) | ExprT::Live(a) | ExprT::Old(a) => {
            law_renaming_nothing_changes_nothing(a);
            lemma_with_child(e);
        },
        ExprT::PreIncr(a) | ExprT::PostIncr(a) | ExprT::PreDecr(a) | ExprT::PostDecr(a) => {
            law_renaming_nothing_changes_nothing(a);
            lemma_with_child(e);
        },
        ExprT::Free(a) | ExprT::Member(a, _) | ExprT::VAttr(_, a) | ExprT::UnionInit(_, _, a) => {
            law_renaming_nothing_changes_nothing(a);
            lemma_with_child(e);
        },
        ExprT::Var(_) => {},
        _ => {
            lemma_rename_operands(e);
        },
    }
}

/// The operand of an expression that has one.
pub open spec fn operand(e: Rc<Expr>) -> Rc<Expr> {
    match e.val {
        ExprT::Deref(a) | ExprT::Ref(a) | ExprT::UnOp(_, a) | ExprT::Live(a) | ExprT::Old(a) => a,
        ExprT::PreIncr(a) | ExprT::PostIncr(a) | ExprT::PreDecr(a) | ExprT::PostDecr(a) => a,
        ExprT::Free(a) | ExprT::Member(a, _) | ExprT::VAttr(_, a) | ExprT::UnionInit(_, _, a) => a,
        ExprT::Cast(a, _) | ExprT::ContainerOf(a, _, _) | ExprT::MallocArray(_, a) | ExprT::CallocArray(_, a) => a,
        ExprT::MallocFlex(_, a) | ExprT::CallocFlex(_, a) | ExprT::MemsetZero(_, a) => a,
        ExprT::Forall(_, _, a) | ExprT::Exists(_, _, a) => a,
        _ => e,
    }
}

/// The type of an expression that has one.
pub open spec fn operand_type(e: Rc<Expr>) -> Rc<Type> {
    match e.val {
        ExprT::Cast(_, t) | ExprT::ContainerOf(_, t, _) | ExprT::MallocArray(t, _) | ExprT::CallocArray(t, _) => t,
        ExprT::MallocFlex(t, _) | ExprT::CallocFlex(t, _) | ExprT::MemsetZero(t, _) => t,
        ExprT::Forall(_, t, _) | ExprT::Exists(_, t, _) => t,
        ExprT::IntLit(_, t) | ExprT::FloatLit(_, t) | ExprT::Malloc(t) | ExprT::Calloc(t) => t,
        ExprT::SizeOf(t) | ExprT::AlignOf(t) | ExprT::Error(t) => t,
        _ => arbitrary(),
    }
}

/// An expression with its own operand is itself.
proof fn lemma_with_child(e: Rc<Expr>)
    ensures
        spec_with_child(e, operand(e)) == e,
{
    reveal(spec_with_child);
    reveal(spec_mk_expr);
    reveal(spec_clone_vattr);
}

/// An expression with its own operand and type is itself.
proof fn lemma_with_child_and_type(e: Rc<Expr>)
    ensures
        spec_with_child_and_type(e, operand(e), operand_type(e)) == e,
        spec_with_type_only(e, operand_type(e)) == e,
{
    reveal(spec_with_child_and_type);
    reveal(spec_with_type_only);
    reveal(spec_mk_expr);
}

/// Without renames an expression with several operands stays as it is.
proof fn lemma_rename_operands(e: Rc<Expr>)
    ensures
        spec_rename_operands(e, no_renames()) == e,
    decreases e, 3nat,
{
    match e.val {
        ExprT::Index(a, b) | ExprT::BinOp(_, a, b) | ExprT::AssignExpr(a, b) => {
            law_renaming_nothing_changes_nothing(a);
            law_renaming_nothing_changes_nothing(b);
            reveal(spec_with_children);
            reveal(spec_mk_expr);
        },
        ExprT::Cond(a, b, c) => {
            law_renaming_nothing_changes_nothing(a);
            law_renaming_nothing_changes_nothing(b);
            law_renaming_nothing_changes_nothing(c);
            reveal(spec_with_three);
            reveal(spec_mk_expr);
        },
        ExprT::FnCall(_, l) => {
            lemma_rename_exprs(l);
            reveal(spec_with_list);
            reveal(spec_mk_expr);
        },
        ExprT::FnPtrCall(f, l) => {
            law_renaming_nothing_changes_nothing(f);
            lemma_rename_exprs(l);
            reveal(spec_mk_expr);
        },
        ExprT::StructInit(_, l) => {
            lemma_rename_inits(l);
            reveal(spec_mk_expr);
        },
        _ => {
            lemma_rename_typed(e);
        },
    }
}

/// Without renames an expression with a type stays as it is.
proof fn lemma_rename_typed(e: Rc<Expr>)
    ensures
        spec_rename_typed(e, no_renames()) == e,
    decreases e, 2nat,
{
    lemma_with_child_and_type(e);
    match e.val {
        ExprT::Cast(a, t) | ExprT::ContainerOf(a, t, _) | ExprT::MallocArray(t, a) | ExprT::CallocArray(t, a) => {
            law_renaming_nothing_changes_nothing(a);
            lemma_rename_type(t);
        },
        ExprT::MallocFlex(t, a) | ExprT::CallocFlex(t, a) | ExprT::MemsetZero(t, a) => {
            law_renaming_nothing_changes_nothing(a);
            lemma_rename_type(t);
        },
        ExprT::Forall(x, t, a) | ExprT::Exists(x, t, a) => {
            law_renaming_nothing_changes_nothing(a);
            lemma_rename_type(t);
        },
        ExprT::IntLit(_, t) | ExprT::FloatLit(_, t) | ExprT::Malloc(t) | ExprT::Calloc(t) => {
            lemma_rename_type(t);
        },
        ExprT::SizeOf(t) | ExprT::AlignOf(t) | ExprT::Error(t) => {
            lemma_rename_type(t);
        },
        _ => {
            lemma_rename_mixed(e);
        },
    }
}

/// Without renames an expression with a type and several operands stays as it is.
proof fn lemma_rename_mixed(e: Rc<Expr>)
    ensures
        spec_rename_mixed(e, no_renames()) == e,
    decreases e, 1nat,
{
    reveal(spec_mk_expr);
    match e.val {
        ExprT::InlinePulse(code, t) => {
            lemma_rename_code(code);
            lemma_rename_type(t);
        },
        ExprT::ArrayInit { elem_ty, elems, is_static } => {
            lemma_rename_type(elem_ty);
            lemma_rename_exprs(elems);
        },
        ExprT::Memset(t, p, v, n) => {
            lemma_rename_type(t);
            law_renaming_nothing_changes_nothing(p);
            law_renaming_nothing_changes_nothing(v);
            law_renaming_nothing_changes_nothing(n);
        },
        _ => {},
    }
}

/// The tokens of inline code.
pub open spec fn code_tokens(c: Rc<InlinePulseCode>) -> Rc<List<InlinePulseToken>> {
    c.tokens
}

/// The value of a field.
pub open spec fn init_value(i: Rc<FieldInit>) -> Rc<Expr> {
    i.value
}

/// Without renames inline code stays as it is.
proof fn lemma_rename_code(c: Rc<InlinePulseCode>)
    ensures
        spec_rename_tokens(c.tokens, no_renames()) == c.tokens,
    decreases c, 1nat,
{
    lemma_rename_tokens(code_tokens(c));
}

/// Without renames expressions stay as they are.
pub proof fn lemma_rename_exprs(l: Rc<List<Expr>>)
    ensures
        spec_rename_exprs(l, no_renames()) == l,
    decreases l, 0nat,
{
    match *l {
        List::Nil => {},
        List::Cons(h, t) => {
            law_renaming_nothing_changes_nothing(h);
            lemma_rename_exprs(t);
        },
    }
}

/// Without renames the value of a field stays as it is.
proof fn lemma_rename_init(i: Rc<FieldInit>)
    ensures
        spec_rename_init(i, no_renames()) == i,
    decreases i, 0nat,
{
    law_renaming_nothing_changes_nothing(init_value(i));
}

/// Without renames the values of fields stay as they are.
proof fn lemma_rename_inits(l: Rc<List<FieldInit>>)
    ensures
        spec_rename_inits(l, no_renames()) == l,
    decreases l, 0nat,
{
    match *l {
        List::Nil => {},
        List::Cons(h, t) => {
            lemma_rename_init(h);
            lemma_rename_inits(t);
        },
    }
}

/// Without renames a token stays as it is.
proof fn lemma_rename_token(tok: Rc<InlinePulseToken>)
    ensures
        spec_rename_token(tok, no_renames()) == tok,
    decreases tok, 0nat,
{
    reveal(spec_clone_opt_ident);
    match *tok {
        InlinePulseToken::RValueAntiquot { before, expr } => law_renaming_nothing_changes_nothing(expr),
        InlinePulseToken::LValueAntiquot { before, expr } => law_renaming_nothing_changes_nothing(expr),
        InlinePulseToken::TypeAntiquot { before, ty } => lemma_rename_type(ty),
        InlinePulseToken::FieldAntiquot { before, ty, field_name } => lemma_rename_type(ty),
        InlinePulseToken::AuxFnAntiquot { before, ty, arm, kind } => lemma_rename_type(ty),
        InlinePulseToken::Declare { ident, ty } => lemma_rename_type(ty),
        InlinePulseToken::Verbatim { before, text } => {},
    }
}

/// Without renames tokens stay as they are.
proof fn lemma_rename_tokens(l: Rc<List<InlinePulseToken>>)
    ensures
        spec_rename_tokens(l, no_renames()) == l,
    decreases l, 0nat,
{
    match *l {
        List::Nil => {},
        List::Cons(h, t) => {
            lemma_rename_token(h);
            lemma_rename_tokens(t);
        },
    }
}

/// Without renames a type stays as it is.
proof fn lemma_rename_type(ty: Rc<Type>)
    ensures
        spec_rename_type(ty, no_renames()) == ty,
    decreases ty, 1nat,
{
    reveal(spec_with_inner);
    reveal(spec_with_inner_and_fact);
    reveal(spec_mk_type);
    match ty.val {
        TypeT::Pointer(t, _) | TypeT::FixedArray(t, _) | TypeT::FlexArray(t) | TypeT::Plain(t) | TypeT::Nullable(t) => lemma_rename_type(t),
        TypeT::Refine(t, p) | TypeT::RefineAlways(t, p) | TypeT::RefineUninit(t, p) => {
            lemma_rename_type(t);
            law_renaming_nothing_changes_nothing(p);
        },
        TypeT::RefineValue(t, x, u, p) => {
            lemma_rename_type(t);
            lemma_rename_type(u);
            law_renaming_nothing_changes_nothing(p);
        },
        TypeT::FnPtr { args, ret } => {
            lemma_rename_types(args);
            lemma_rename_type(ret);
        },
        _ => {},
    }
}

/// Without renames types stay as they are.
proof fn lemma_rename_types(l: Rc<List<Type>>)
    ensures
        spec_rename_types(l, no_renames()) == l,
    decreases l, 0nat,
{
    match *l {
        List::Nil => {},
        List::Cons(h, t) => {
            lemma_rename_type(h);
            lemma_rename_types(t);
        },
    }
}

} // verus!
