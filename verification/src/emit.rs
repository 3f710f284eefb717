//! Emission of a translation unit, one module for each declaration.

use crate::list::{
    List, cons, l1, law_lists_keep_their_items, list_of, nil, spec_cons, spec_l1, spec_nil,
};
use crate::text::{
    Rope, Text, cat3, lit, rope_string, same_text, spec_cat3, spec_lit, spec_same_text,
};
use crate::ir::{
    BinOp, Branch, Decl, DeclT, Expr, ExprT, Field, FieldInit, FnArg, FnDecl, FnDefn, GhostArg,
    GlobalVar, IncludeDecl, InlinePulseToken, LetDecl, OpaqueTypeDecl, Range, Stmt, StmtT,
    StructDefn, TranslationUnit, Type, TypeT, UnOp, UnionDefn, VAttr, field_type, spec_field_type,
};
use crate::diag::{Diagnostic, Diagnostics, extends};
use crate::doc::Doc;
use crate::env::{Env, empty_env, push_decls, spec_empty_env, spec_push_decls};
use crate::names::{new_mangling, spec_new_mangling, spec_text_in, text_in};
use crate::emit_base::{
    Emitter, ModuleEntry, add_decl_modules, add_override, decl_text, funcptr_module_name,
    module_text, spec_add_decl_modules, spec_add_override, spec_decl_text,
    spec_funcptr_module_name, spec_module_text,
};
use crate::emit_fns::{spec_emit_decl, spec_emit_fn_sig_inner, spec_emit_fnptr_triple};
use crate::render::{SourceRangeMap, render, rendered};
use crate::merge::Match;
use crate::laws_emit::{
    law_emitted_modules_have_different_names, lemma_mod_names, mod_names, needs_wrapper,
    wrapper_module,
};
use crate::laws_syntax::decl_name_text;
use std::rc::Rc;
use vstd::prelude::*;

verus! {

broadcast use crate::diag::lemma_extends_trans;

/// A module before it is laid out.
pub struct PendingModule {
    pub mod_name: Text,
    pub body: Doc,
    pub fsti: Option<Doc>,
    pub source_file: Rc<String>,
    pub decl_name: Text,
    pub decl_range: Range,
}

/// Emitted output for a single module.
pub struct EmittedModule {
    pub module_name: String,
    pub code: String,
    pub fsti_code: Option<String>,
    pub range_map: SourceRangeMap,
    pub source_file: Rc<String>,
    pub decl_name: String,
    pub decl_range: Range,
}

/// Whether the name is one of the list.
pub open spec fn mentions(l: Rc<List<Rope>>, c: Seq<char>) -> bool
    decreases l,
{
    match *l {
        List::Nil => false,
        List::Cons(h, t) => h.chars() == c || mentions(t, c),
    }
}

/// A text is looked up in a list by its characters.
proof fn lemma_mentions(l: Rc<List<Rope>>, t: Text)
    ensures
        spec_text_in(l, t) == mentions(l, t.chars()),
    decreases l,
{
    match *l {
        List::Nil => {},
        List::Cons(_, r) => lemma_mentions(r, t),
    }
}

/// The functions whose address an expression takes, in front of `acc`: those of every
/// sub-expression, also in the types that it names and in inline code.
pub open spec fn spec_walk_expr_tree(e: Rc<Expr>, acc: Rc<List<Rope>>) -> Rc<List<Rope>>
    decreases e, 2nat,
{
    match e.val {
        ExprT::FnRef(f) => spec_cons(f.val, acc),
        ExprT::Deref(a) | ExprT::Member(a, _) | ExprT::VAttr(_, a) | ExprT::Ref(a) => spec_walk_expr_tree(a, acc),
        ExprT::UnOp(_, a) | ExprT::Live(a) | ExprT::Old(a) | ExprT::UnionInit(_, _, a) | ExprT::Free(a) => spec_walk_expr_tree(a, acc),
        ExprT::PreIncr(a) | ExprT::PostIncr(a) | ExprT::PreDecr(a) | ExprT::PostDecr(a) => spec_walk_expr_tree(a, acc),
        ExprT::Index(a, b) | ExprT::BinOp(_, a, b) | ExprT::AssignExpr(a, b) => spec_walk_expr_tree(b, spec_walk_expr_tree(a, acc)),
        ExprT::Cond(a, b, c) => spec_walk_expr_tree(c, spec_walk_expr_tree(b, spec_walk_expr_tree(a, acc))),
        ExprT::FnCall(_, args) => spec_walk_exprs(args, acc),
        ExprT::FnPtrCall(callee, args) => spec_walk_exprs(args, spec_walk_expr_tree(callee, acc)),
        ExprT::StructInit(_, inits) => spec_walk_inits(inits, acc),
        _ => spec_walk_typed_expr(e, acc),
    }
}

/// Whether [`walk_expr_tree`] finds the function of the given name.
pub open spec fn takes_in_expr_tree(e: Rc<Expr>, name: Seq<char>) -> bool
    decreases e, 2nat,
{
    match e.val {
        ExprT::FnRef(f) => f.val.chars() == name,
        ExprT::Deref(a) | ExprT::Member(a, _) | ExprT::VAttr(_, a) | ExprT::Ref(a) => takes_in_expr_tree(a, name),
        ExprT::UnOp(_, a) | ExprT::Live(a) | ExprT::Old(a) | ExprT::UnionInit(_, _, a) | ExprT::Free(a) => takes_in_expr_tree(a, name),
        ExprT::PreIncr(a) | ExprT::PostIncr(a) | ExprT::PreDecr(a) | ExprT::PostDecr(a) => takes_in_expr_tree(a, name),
        ExprT::Index(a, b) | ExprT::BinOp(_, a, b) | ExprT::AssignExpr(a, b) => takes_in_expr_tree(a, name) || takes_in_expr_tree(b, name),
        ExprT::Cond(a, b, c) => takes_in_expr_tree(a, name) || takes_in_expr_tree(b, name) || takes_in_expr_tree(c, name),
        ExprT::FnCall(_, args) => takes_in_exprs(args, name),
        ExprT::FnPtrCall(callee, args) => takes_in_expr_tree(callee, name) || takes_in_exprs(args, name),
        ExprT::StructInit(_, inits) => takes_in_inits(inits, name),
        _ => takes_in_typed_expr(e, name),
    }
}

/// The functions whose address an expression takes, in front of `acc`: those of every
/// sub-expression, also in the types that it names and in inline code.
pub fn walk_expr_tree(e: &Rc<Expr>, acc: Rc<List<Rope>>) -> (out: Rc<List<Rope>>)
    ensures
        out == spec_walk_expr_tree(*e, acc),
        forall|c: Seq<char>| #[trigger] mentions(out, c) <==> takes_in_expr_tree(*e, c) || mentions(acc, c),
    decreases e, 2nat,
{
    match &e.val {
        ExprT::FnRef(f) => cons(f.val.clone(), acc),
        ExprT::Deref(a) | ExprT::Member(a, _) | ExprT::VAttr(_, a) | ExprT::Ref(a) => walk_expr_tree(a, acc),
        ExprT::UnOp(_, a) | ExprT::Live(a) | ExprT::Old(a) | ExprT::UnionInit(_, _, a) | ExprT::Free(a) => walk_expr_tree(a, acc),
        ExprT::PreIncr(a) | ExprT::PostIncr(a) | ExprT::PreDecr(a) | ExprT::PostDecr(a) => walk_expr_tree(a, acc),
        ExprT::Index(a, b) | ExprT::BinOp(_, a, b) | ExprT::AssignExpr(a, b) => walk_expr_tree(b, walk_expr_tree(a, acc)),
        ExprT::Cond(a, b, c) => walk_expr_tree(c, walk_expr_tree(b, walk_expr_tree(a, acc))),
        ExprT::FnCall(_, args) => walk_exprs(args, acc),
        ExprT::FnPtrCall(callee, args) => walk_exprs(args, walk_expr_tree(callee, acc)),
        ExprT::StructInit(_, inits) => walk_inits(inits, acc),
        _ => walk_typed_expr(e, acc),
    }
}

/// The same for an expression that names a type.
pub open spec fn spec_walk_typed_expr(e: Rc<Expr>, acc: Rc<List<Rope>>) -> Rc<List<Rope>>
    decreases e, 1nat,
{
    match e.val {
        ExprT::Cast(a, t) | ExprT::ContainerOf(a, t, _) | ExprT::Forall(_, t, a) | ExprT::Exists(_, t, a) => spec_walk_type(t, spec_walk_expr_tree(a, acc)),
        ExprT::MallocArray(t, a) | ExprT::CallocArray(t, a) | ExprT::MallocFlex(t, a) => spec_walk_type(t, spec_walk_expr_tree(a, acc)),
        ExprT::CallocFlex(t, a) | ExprT::MemsetZero(t, a) => spec_walk_type(t, spec_walk_expr_tree(a, acc)),
        ExprT::Memset(t, a, b, c) => spec_walk_type(t, spec_walk_expr_tree(c, spec_walk_expr_tree(b, spec_walk_expr_tree(a, acc)))),
        ExprT::ArrayInit { elem_ty, elems, .. } => spec_walk_type(elem_ty, spec_walk_exprs(elems, acc)),
        ExprT::IntLit(_, t) | ExprT::FloatLit(_, t) | ExprT::Malloc(t) | ExprT::Calloc(t) => spec_walk_type(t, acc),
        ExprT::SizeOf(t) | ExprT::AlignOf(t) | ExprT::Error(t) => spec_walk_type(t, acc),
        ExprT::InlinePulse(code, t) => spec_walk_type(t, spec_walk_tokens(code.tokens, acc)),
        _ => acc,
    }
}

/// Whether [`walk_typed_expr`] finds the function of the given name.
pub open spec fn takes_in_typed_expr(e: Rc<Expr>, name: Seq<char>) -> bool
    decreases e, 1nat,
{
    match e.val {
        ExprT::Cast(a, t) | ExprT::ContainerOf(a, t, _) | ExprT::Forall(_, t, a) | ExprT::Exists(_, t, a) => takes_in_expr_tree(a, name) || takes_in_type(t, name),
        ExprT::MallocArray(t, a) | ExprT::CallocArray(t, a) | ExprT::MallocFlex(t, a) => takes_in_expr_tree(a, name) || takes_in_type(t, name),
        ExprT::CallocFlex(t, a) | ExprT::MemsetZero(t, a) => takes_in_expr_tree(a, name) || takes_in_type(t, name),
        ExprT::Memset(t, a, b, c) => takes_in_expr_tree(a, name) || takes_in_expr_tree(b, name) || takes_in_expr_tree(c, name) || takes_in_type(t, name),
        ExprT::ArrayInit { elem_ty, elems, .. } => takes_in_exprs(elems, name) || takes_in_type(elem_ty, name),
        ExprT::IntLit(_, t) | ExprT::FloatLit(_, t) | ExprT::Malloc(t) | ExprT::Calloc(t) => takes_in_type(t, name),
        ExprT::SizeOf(t) | ExprT::AlignOf(t) | ExprT::Error(t) => takes_in_type(t, name),
        ExprT::InlinePulse(code, t) => takes_in_tokens(code.tokens, name) || takes_in_type(t, name),
        _ => false,
    }
}

/// The same for an expression that names a type.
pub fn walk_typed_expr(e: &Rc<Expr>, acc: Rc<List<Rope>>) -> (out: Rc<List<Rope>>)
    ensures
        out == spec_walk_typed_expr(*e, acc),
        forall|c: Seq<char>| #[trigger] mentions(out, c) <==> takes_in_typed_expr(*e, c) || mentions(acc, c),
    decreases e, 1nat,
{
    match &e.val {
        ExprT::Cast(a, t) | ExprT::ContainerOf(a, t, _) | ExprT::Forall(_, t, a) | ExprT::Exists(_, t, a) => walk_type(t, walk_expr_tree(a, acc)),
        ExprT::MallocArray(t, a) | ExprT::CallocArray(t, a) | ExprT::MallocFlex(t, a) => walk_type(t, walk_expr_tree(a, acc)),
        ExprT::CallocFlex(t, a) | ExprT::MemsetZero(t, a) => walk_type(t, walk_expr_tree(a, acc)),
        ExprT::Memset(t, a, b, c) => walk_type(t, walk_expr_tree(c, walk_expr_tree(b, walk_expr_tree(a, acc)))),
        ExprT::ArrayInit { elem_ty, elems, .. } => walk_type(elem_ty, walk_exprs(elems, acc)),
        ExprT::IntLit(_, t) | ExprT::FloatLit(_, t) | ExprT::Malloc(t) | ExprT::Calloc(t) => walk_type(t, acc),
        ExprT::SizeOf(t) | ExprT::AlignOf(t) | ExprT::Error(t) => walk_type(t, acc),
        ExprT::InlinePulse(code, t) => walk_type(t, walk_tokens(&code.tokens, acc)),
        _ => acc,
    }
}

/// The functions whose address expressions take, in front of `acc`.
pub open spec fn spec_walk_exprs(l: Rc<List<Expr>>, acc: Rc<List<Rope>>) -> Rc<List<Rope>>
    decreases l, 0nat,
{
    match *l {
        List::Nil => acc,
        List::Cons(h, t) => spec_walk_exprs(t, spec_walk_expr_tree(h, acc)),
    }
}

/// Whether [`walk_exprs`] finds the function of the given name.
pub open spec fn takes_in_exprs(l: Rc<List<Expr>>, name: Seq<char>) -> bool
    decreases l, 0nat,
{
    match *l {
        List::Nil => false,
        List::Cons(h, t) => takes_in_expr_tree(h, name) || takes_in_exprs(t, name),
    }
}

/// The functions whose address expressions take, in front of `acc`.
pub fn walk_exprs(l: &Rc<List<Expr>>, acc: Rc<List<Rope>>) -> (out: Rc<List<Rope>>)
    ensures
        out == spec_walk_exprs(*l, acc),
        forall|c: Seq<char>| #[trigger] mentions(out, c) <==> takes_in_exprs(*l, c) || mentions(acc, c),
    decreases l, 0nat,
{
    match &**l {
        List::Nil => acc,
        List::Cons(h, t) => walk_exprs(t, walk_expr_tree(h, acc)),
    }
}

/// The functions whose address a field's value takes, in front of `acc`.
pub open spec fn spec_walk_init(i: Rc<FieldInit>, acc: Rc<List<Rope>>) -> Rc<List<Rope>>
    decreases i, 0nat,
{
    spec_walk_expr_tree(i.value, acc)
}

/// Whether [`walk_init`] finds the function of the given name.
pub open spec fn takes_in_init(i: Rc<FieldInit>, name: Seq<char>) -> bool
    decreases i, 0nat,
{
    takes_in_expr_tree(i.value, name)
}

/// The functions whose address a field's value takes, in front of `acc`.
pub fn walk_init(i: &Rc<FieldInit>, acc: Rc<List<Rope>>) -> (out: Rc<List<Rope>>)
    ensures
        out == spec_walk_init(*i, acc),
        forall|c: Seq<char>| #[trigger] mentions(out, c) <==> takes_in_init(*i, c) || mentions(acc, c),
    decreases i, 0nat,
{
    walk_expr_tree(&i.value, acc)
}

/// The functions whose address the values of fields take, in front of `acc`.
pub open spec fn spec_walk_inits(l: Rc<List<FieldInit>>, acc: Rc<List<Rope>>) -> Rc<List<Rope>>
    decreases l, 0nat,
{
    match *l {
        List::Nil => acc,
        List::Cons(h, t) => spec_walk_inits(t, spec_walk_init(h, acc)),
    }
}

/// Whether [`walk_inits`] finds the function of the given name.
pub open spec fn takes_in_inits(l: Rc<List<FieldInit>>, name: Seq<char>) -> bool
    decreases l, 0nat,
{
    match *l {
        List::Nil => false,
        List::Cons(h, t) => takes_in_init(h, name) || takes_in_inits(t, name),
    }
}

/// The functions whose address the values of fields take, in front of `acc`.
pub fn walk_inits(l: &Rc<List<FieldInit>>, acc: Rc<List<Rope>>) -> (out: Rc<List<Rope>>)
    ensures
        out == spec_walk_inits(*l, acc),
        forall|c: Seq<char>| #[trigger] mentions(out, c) <==> takes_in_inits(*l, c) || mentions(acc, c),
    decreases l, 0nat,
{
    match &**l {
        List::Nil => acc,
        List::Cons(h, t) => walk_inits(t, walk_init(h, acc)),
    }
}

/// The functions whose address a token of inline code takes, in front of `acc`.
pub open spec fn spec_walk_token(tok: Rc<InlinePulseToken>, acc: Rc<List<Rope>>) -> Rc<List<Rope>>
    decreases tok, 0nat,
{
    match *tok {
        InlinePulseToken::RValueAntiquot { expr, .. } => spec_walk_expr_tree(expr, acc),
        InlinePulseToken::LValueAntiquot { expr, .. } => spec_walk_expr_tree(expr, acc),
        InlinePulseToken::TypeAntiquot { ty, .. } => spec_walk_type(ty, acc),
        InlinePulseToken::FieldAntiquot { ty, .. } => spec_walk_type(ty, acc),
        InlinePulseToken::AuxFnAntiquot { ty, .. } => spec_walk_type(ty, acc),
        InlinePulseToken::Declare { ty, .. } => spec_walk_type(ty, acc),
        InlinePulseToken::Verbatim { .. } => acc,
    }
}

/// Whether [`walk_token`] finds the function of the given name.
pub open spec fn takes_in_token(tok: Rc<InlinePulseToken>, name: Seq<char>) -> bool
    decreases tok, 0nat,
{
    match *tok {
        InlinePulseToken::RValueAntiquot { expr, .. } => takes_in_expr_tree(expr, name),
        InlinePulseToken::LValueAntiquot { expr, .. } => takes_in_expr_tree(expr, name),
        InlinePulseToken::TypeAntiquot { ty, .. } => takes_in_type(ty, name),
        InlinePulseToken::FieldAntiquot { ty, .. } => takes_in_type(ty, name),
        InlinePulseToken::AuxFnAntiquot { ty, .. } => takes_in_type(ty, name),
        InlinePulseToken::Declare { ty, .. } => takes_in_type(ty, name),
        InlinePulseToken::Verbatim { .. } => false,
    }
}

/// The functions whose address a token of inline code takes, in front of `acc`.
pub fn walk_token(tok: &Rc<InlinePulseToken>, acc: Rc<List<Rope>>) -> (out: Rc<List<Rope>>)
    ensures
        out == spec_walk_token(*tok, acc),
        forall|c: Seq<char>| #[trigger] mentions(out, c) <==> takes_in_token(*tok, c) || mentions(acc, c),
    decreases tok, 0nat,
{
    match &**tok {
        InlinePulseToken::RValueAntiquot { expr, .. } => walk_expr_tree(expr, acc),
        InlinePulseToken::LValueAntiquot { expr, .. } => walk_expr_tree(expr, acc),
        InlinePulseToken::TypeAntiquot { ty, .. } => walk_type(ty, acc),
        InlinePulseToken::FieldAntiquot { ty, .. } => walk_type(ty, acc),
        InlinePulseToken::AuxFnAntiquot { ty, .. } => walk_type(ty, acc),
        InlinePulseToken::Declare { ty, .. } => walk_type(ty, acc),
        InlinePulseToken::Verbatim { .. } => acc,
    }
}

/// The functions whose address inline code takes, in front of `acc`.
pub open spec fn spec_walk_tokens(
    l: Rc<List<InlinePulseToken>>,
    acc: Rc<List<Rope>>,
) -> Rc<List<Rope>>
    decreases l, 0nat,
{
    match *l {
        List::Nil => acc,
        List::Cons(h, t) => spec_walk_tokens(t, spec_walk_token(h, acc)),
    }
}

/// Whether [`walk_tokens`] finds the function of the given name.
pub open spec fn takes_in_tokens(l: Rc<List<InlinePulseToken>>, name: Seq<char>) -> bool
    decreases l, 0nat,
{
    match *l {
        List::Nil => false,
        List::Cons(h, t) => takes_in_token(h, name) || takes_in_tokens(t, name),
    }
}

/// The functions whose address inline code takes, in front of `acc`.
pub fn walk_tokens(l: &Rc<List<InlinePulseToken>>, acc: Rc<List<Rope>>) -> (out: Rc<List<Rope>>)
    ensures
        out == spec_walk_tokens(*l, acc),
        forall|c: Seq<char>| #[trigger] mentions(out, c) <==> takes_in_tokens(*l, c) || mentions(acc, c),
    decreases l, 0nat,
{
    match &**l {
        List::Nil => acc,
        List::Cons(h, t) => walk_tokens(t, walk_token(h, acc)),
    }
}

/// The functions whose address the refinements of a type take, in front of `acc`.
pub open spec fn spec_walk_type(ty: Rc<Type>, acc: Rc<List<Rope>>) -> Rc<List<Rope>>
    decreases ty, 0nat,
{
    match ty.val {
        TypeT::Pointer(t, _) | TypeT::FixedArray(t, _) | TypeT::FlexArray(t) | TypeT::Plain(t) | TypeT::Nullable(t) => spec_walk_type(t, acc),
        TypeT::Refine(t, p) | TypeT::RefineAlways(t, p) | TypeT::RefineUninit(t, p) => spec_walk_expr_tree(p, spec_walk_type(t, acc)),
        TypeT::RefineValue(t, _, u, p) => spec_walk_expr_tree(p, spec_walk_type(u, spec_walk_type(t, acc))),
        TypeT::FnPtr { args, ret } => spec_walk_type(ret, spec_walk_types(args, acc)),
        _ => acc,
    }
}

/// Whether [`walk_type`] finds the function of the given name.
pub open spec fn takes_in_type(ty: Rc<Type>, name: Seq<char>) -> bool
    decreases ty, 0nat,
{
    match ty.val {
        TypeT::Pointer(t, _) | TypeT::FixedArray(t, _) | TypeT::FlexArray(t) | TypeT::Plain(t) | TypeT::Nullable(t) => takes_in_type(t, name),
        TypeT::Refine(t, p) | TypeT::RefineAlways(t, p) | TypeT::RefineUninit(t, p) => takes_in_type(t, name) || takes_in_expr_tree(p, name),
        TypeT::RefineValue(t, _, u, p) => takes_in_type(t, name) || takes_in_type(u, name) || takes_in_expr_tree(p, name),
        TypeT::FnPtr { args, ret } => takes_in_types(args, name) || takes_in_type(ret, name),
        _ => false,
    }
}

/// The functions whose address the refinements of a type take, in front of `acc`.
pub fn walk_type(ty: &Rc<Type>, acc: Rc<List<Rope>>) -> (out: Rc<List<Rope>>)
    ensures
        out == spec_walk_type(*ty, acc),
        forall|c: Seq<char>| #[trigger] mentions(out, c) <==> takes_in_type(*ty, c) || mentions(acc, c),
    decreases ty, 0nat,
{
    match &ty.val {
        TypeT::Pointer(t, _) | TypeT::FixedArray(t, _) | TypeT::FlexArray(t) | TypeT::Plain(t) | TypeT::Nullable(t) => walk_type(t, acc),
        TypeT::Refine(t, p) | TypeT::RefineAlways(t, p) | TypeT::RefineUninit(t, p) => walk_expr_tree(p, walk_type(t, acc)),
        TypeT::RefineValue(t, _, u, p) => walk_expr_tree(p, walk_type(u, walk_type(t, acc))),
        TypeT::FnPtr { args, ret } => walk_type(ret, walk_types(args, acc)),
        _ => acc,
    }
}

/// The functions whose address the refinements of types take, in front of `acc`.
pub open spec fn spec_walk_types(l: Rc<List<Type>>, acc: Rc<List<Rope>>) -> Rc<List<Rope>>
    decreases l, 0nat,
{
    match *l {
        List::Nil => acc,
        List::Cons(h, t) => spec_walk_types(t, spec_walk_type(h, acc)),
    }
}

/// Whether [`walk_types`] finds the function of the given name.
pub open spec fn takes_in_types(l: Rc<List<Type>>, name: Seq<char>) -> bool
    decreases l, 0nat,
{
    match *l {
        List::Nil => false,
        List::Cons(h, t) => takes_in_type(h, name) || takes_in_types(t, name),
    }
}

/// The functions whose address the refinements of types take, in front of `acc`.
pub fn walk_types(l: &Rc<List<Type>>, acc: Rc<List<Rope>>) -> (out: Rc<List<Rope>>)
    ensures
        out == spec_walk_types(*l, acc),
        forall|c: Seq<char>| #[trigger] mentions(out, c) <==> takes_in_types(*l, c) || mentions(acc, c),
    decreases l, 0nat,
{
    match &**l {
        List::Nil => acc,
        List::Cons(h, t) => walk_types(t, walk_type(h, acc)),
    }
}

/// The functions whose address a statement takes, in front of `acc`: those of every
/// sub-expression, also in nested statements and in what is said about the program.
pub open spec fn spec_walk_stmt_tree(s: Rc<Stmt>, acc: Rc<List<Rope>>) -> Rc<List<Rope>>
    decreases s,
{
    match s.val {
        StmtT::Call(e) | StmtT::Assert(e) | StmtT::Return(Some(e)) => spec_walk_expr_tree(e, acc),
        StmtT::Decl(_, ty) => spec_walk_type(ty, acc),
        StmtT::Let(_, ty, e) => spec_walk_expr_tree(e, spec_walk_type(ty, acc)),
        StmtT::DeclStackArray { elem_type, size, .. } => spec_walk_expr_tree(size, spec_walk_type(elem_type, acc)),
        StmtT::Assign(a, b) => spec_walk_expr_tree(b, spec_walk_expr_tree(a, acc)),
        StmtT::GhostStmt(code) => spec_walk_tokens(code.tokens, acc),
        StmtT::Label { ensures_, .. } => spec_walk_exprs(ensures_, acc),
        StmtT::If { cond, then_branch, else_branch, ensures_ } => spec_walk_exprs(ensures_, spec_walk_stmts(else_branch, spec_walk_stmts(then_branch, spec_walk_expr_tree(cond, acc)))),
        StmtT::Match { scrutinee, branches, default_branch, ensures_ } => spec_walk_exprs(ensures_, spec_walk_stmts(default_branch, spec_walk_branches(branches, spec_walk_expr_tree(scrutinee, acc)))),
        StmtT::While { cond, inv, requires_, ensures_, body } => spec_walk_stmts(body, spec_walk_exprs(ensures_, spec_walk_exprs(requires_, spec_walk_exprs(inv, spec_walk_expr_tree(cond, acc))))),
        StmtT::GotoBlock { body, ensures_, .. } => spec_walk_exprs(ensures_, spec_walk_stmts(body, acc)),
        _ => acc,
    }
}

/// Whether [`walk_stmt_tree`] finds the function of the given name.
pub open spec fn takes_in_stmt_tree(s: Rc<Stmt>, name: Seq<char>) -> bool
    decreases s,
{
    match s.val {
        StmtT::Call(e) | StmtT::Assert(e) | StmtT::Return(Some(e)) => takes_in_expr_tree(e, name),
        StmtT::Decl(_, ty) => takes_in_type(ty, name),
        StmtT::Let(_, ty, e) => takes_in_type(ty, name) || takes_in_expr_tree(e, name),
        StmtT::DeclStackArray { elem_type, size, .. } => takes_in_type(elem_type, name) || takes_in_expr_tree(size, name),
        StmtT::Assign(a, b) => takes_in_expr_tree(a, name) || takes_in_expr_tree(b, name),
        StmtT::GhostStmt(code) => takes_in_tokens(code.tokens, name),
        StmtT::Label { ensures_, .. } => takes_in_exprs(ensures_, name),
        StmtT::If { cond, then_branch, else_branch, ensures_ } => takes_in_expr_tree(cond, name) || takes_in_stmts(then_branch, name) || takes_in_stmts(else_branch, name) || takes_in_exprs(ensures_, name),
        StmtT::Match { scrutinee, branches, default_branch, ensures_ } => takes_in_expr_tree(scrutinee, name) || takes_in_branches(branches, name) || takes_in_stmts(default_branch, name) || takes_in_exprs(ensures_, name),
        StmtT::While { cond, inv, requires_, ensures_, body } => takes_in_expr_tree(cond, name) || takes_in_exprs(inv, name) || takes_in_exprs(requires_, name) || takes_in_exprs(ensures_, name) || takes_in_stmts(body, name),
        StmtT::GotoBlock { body, ensures_, .. } => takes_in_stmts(body, name) || takes_in_exprs(ensures_, name),
        _ => false,
    }
}

/// The functions whose address a statement takes, in front of `acc`: those of every
/// sub-expression, also in nested statements and in what is said about the program.
pub fn walk_stmt_tree(s: &Rc<Stmt>, acc: Rc<List<Rope>>) -> (out: Rc<List<Rope>>)
    ensures
        out == spec_walk_stmt_tree(*s, acc),
        forall|c: Seq<char>| #[trigger] mentions(out, c) <==> takes_in_stmt_tree(*s, c) || mentions(acc, c),
    decreases s,
{
    match &s.val {
        StmtT::Call(e) | StmtT::Assert(e) | StmtT::Return(Some(e)) => walk_expr_tree(e, acc),
        StmtT::Decl(_, ty) => walk_type(ty, acc),
        StmtT::Let(_, ty, e) => walk_expr_tree(e, walk_type(ty, acc)),
        StmtT::DeclStackArray { elem_type, size, .. } => walk_expr_tree(size, walk_type(elem_type, acc)),
        StmtT::Assign(a, b) => walk_expr_tree(b, walk_expr_tree(a, acc)),
        StmtT::GhostStmt(code) => walk_tokens(&code.tokens, acc),
        StmtT::Label { ensures_, .. } => walk_exprs(ensures_, acc),
        StmtT::If { cond, then_branch, else_branch, ensures_ } =>
            walk_exprs(ensures_, walk_stmts(else_branch, walk_stmts(then_branch, walk_expr_tree(cond, acc)))),
        StmtT::Match { scrutinee, branches, default_branch, ensures_ } =>
            walk_exprs(ensures_, walk_stmts(default_branch, walk_branches(branches, walk_expr_tree(scrutinee, acc)))),
        StmtT::While { cond, inv, requires_, ensures_, body } =>
            walk_stmts(body, walk_exprs(ensures_, walk_exprs(requires_, walk_exprs(inv, walk_expr_tree(cond, acc))))),
        StmtT::GotoBlock { body, ensures_, .. } => walk_exprs(ensures_, walk_stmts(body, acc)),
        _ => acc,
    }
}

/// The functions whose address statements take, in front of `acc`.
pub open spec fn spec_walk_stmts(l: Rc<List<Stmt>>, acc: Rc<List<Rope>>) -> Rc<List<Rope>>
    decreases l,
{
    match *l {
        List::Nil => acc,
        List::Cons(h, t) => spec_walk_stmts(t, spec_walk_stmt_tree(h, acc)),
    }
}

/// Whether [`walk_stmts`] finds the function of the given name.
pub open spec fn takes_in_stmts(l: Rc<List<Stmt>>, name: Seq<char>) -> bool
    decreases l,
{
    match *l {
        List::Nil => false,
        List::Cons(h, t) => takes_in_stmt_tree(h, name) || takes_in_stmts(t, name),
    }
}

/// The functions whose address statements take, in front of `acc`.
pub fn walk_stmts(l: &Rc<List<Stmt>>, acc: Rc<List<Rope>>) -> (out: Rc<List<Rope>>)
    ensures
        out == spec_walk_stmts(*l, acc),
        forall|c: Seq<char>| #[trigger] mentions(out, c) <==> takes_in_stmts(*l, c) || mentions(acc, c),
    decreases l,
{
    match &**l {
        List::Nil => acc,
        List::Cons(h, t) => walk_stmts(t, walk_stmt_tree(h, acc)),
    }
}

/// The functions whose address a branch takes, in front of `acc`.
pub open spec fn spec_walk_branch(b: Rc<Branch>, acc: Rc<List<Rope>>) -> Rc<List<Rope>>
    decreases b,
{
    spec_walk_stmts(b.body, spec_walk_exprs(b.patterns, acc))
}

/// Whether [`walk_branch`] finds the function of the given name.
pub open spec fn takes_in_branch(b: Rc<Branch>, name: Seq<char>) -> bool
    decreases b,
{
    takes_in_exprs(b.patterns, name) || takes_in_stmts(b.body, name)
}

/// The functions whose address a branch takes, in front of `acc`.
pub fn walk_branch(b: &Rc<Branch>, acc: Rc<List<Rope>>) -> (out: Rc<List<Rope>>)
    ensures
        out == spec_walk_branch(*b, acc),
        forall|c: Seq<char>| #[trigger] mentions(out, c) <==> takes_in_branch(*b, c) || mentions(acc, c),
    decreases b,
{
    walk_stmts(&b.body, walk_exprs(&b.patterns, acc))
}

/// The functions whose address branches take, in front of `acc`.
pub open spec fn spec_walk_branches(l: Rc<List<Branch>>, acc: Rc<List<Rope>>) -> Rc<List<Rope>>
    decreases l,
{
    match *l {
        List::Nil => acc,
        List::Cons(h, t) => spec_walk_branches(t, spec_walk_branch(h, acc)),
    }
}

/// Whether [`walk_branches`] finds the function of the given name.
pub open spec fn takes_in_branches(l: Rc<List<Branch>>, name: Seq<char>) -> bool
    decreases l,
{
    match *l {
        List::Nil => false,
        List::Cons(h, t) => takes_in_branch(h, name) || takes_in_branches(t, name),
    }
}

/// The functions whose address branches take, in front of `acc`.
pub fn walk_branches(l: &Rc<List<Branch>>, acc: Rc<List<Rope>>) -> (out: Rc<List<Rope>>)
    ensures
        out == spec_walk_branches(*l, acc),
        forall|c: Seq<char>| #[trigger] mentions(out, c) <==> takes_in_branches(*l, c) || mentions(acc, c),
    decreases l,
{
    match &**l {
        List::Nil => acc,
        List::Cons(h, t) => walk_branches(t, walk_branch(h, acc)),
    }
}

/// The functions whose address the types of parameters take, in front of `acc`.
pub open spec fn spec_walk_args(l: Rc<List<FnArg>>, acc: Rc<List<Rope>>) -> Rc<List<Rope>>
    decreases l,
{
    match *l {
        List::Nil => acc,
        List::Cons(h, t) => spec_walk_args(t, spec_walk_type(h.ty, acc)),
    }
}

/// Whether [`walk_args`] finds the function of the given name.
pub open spec fn takes_in_args(l: Rc<List<FnArg>>, name: Seq<char>) -> bool
    decreases l,
{
    match *l {
        List::Nil => false,
        List::Cons(h, t) => takes_in_type(h.ty, name) || takes_in_args(t, name),
    }
}

/// The functions whose address the types of parameters take, in front of `acc`.
pub fn walk_args(l: &Rc<List<FnArg>>, acc: Rc<List<Rope>>) -> (out: Rc<List<Rope>>)
    ensures
        out == spec_walk_args(*l, acc),
        forall|c: Seq<char>| #[trigger] mentions(out, c) <==> takes_in_args(*l, c) || mentions(acc, c),
    decreases l,
{
    match &**l {
        List::Nil => acc,
        List::Cons(h, t) => walk_args(t, walk_type(&h.ty, acc)),
    }
}

/// The functions whose address the types of ghost parameters take, in front of `acc`.
pub open spec fn spec_walk_ghost_args(l: Rc<List<GhostArg>>, acc: Rc<List<Rope>>) -> Rc<List<Rope>>
    decreases l,
{
    match *l {
        List::Nil => acc,
        List::Cons(h, t) => spec_walk_ghost_args(t, spec_walk_type(h.ty, acc)),
    }
}

/// Whether [`walk_ghost_args`] finds the function of the given name.
pub open spec fn takes_in_ghost_args(l: Rc<List<GhostArg>>, name: Seq<char>) -> bool
    decreases l,
{
    match *l {
        List::Nil => false,
        List::Cons(h, t) => takes_in_type(h.ty, name) || takes_in_ghost_args(t, name),
    }
}

/// The functions whose address the types of ghost parameters take, in front of `acc`.
pub fn walk_ghost_args(l: &Rc<List<GhostArg>>, acc: Rc<List<Rope>>) -> (out: Rc<List<Rope>>)
    ensures
        out == spec_walk_ghost_args(*l, acc),
        forall|c: Seq<char>| #[trigger] mentions(out, c) <==> takes_in_ghost_args(*l, c) || mentions(acc, c),
    decreases l,
{
    match &**l {
        List::Nil => acc,
        List::Cons(h, t) => walk_ghost_args(t, walk_type(&h.ty, acc)),
    }
}

/// The functions whose address the types of fields take, in front of `acc`.
pub open spec fn spec_walk_fields(l: Rc<List<Field>>, acc: Rc<List<Rope>>) -> Rc<List<Rope>>
    decreases l,
{
    match *l {
        List::Nil => acc,
        List::Cons(h, t) => spec_walk_fields(t, spec_walk_type(spec_field_type(h), acc)),
    }
}

/// Whether [`walk_fields`] finds the function of the given name.
pub open spec fn takes_in_fields(l: Rc<List<Field>>, name: Seq<char>) -> bool
    decreases l,
{
    match *l {
        List::Nil => false,
        List::Cons(h, t) => takes_in_type(spec_field_type(h), name) || takes_in_fields(t, name),
    }
}

/// The functions whose address the types of fields take, in front of `acc`.
pub fn walk_fields(l: &Rc<List<Field>>, acc: Rc<List<Rope>>) -> (out: Rc<List<Rope>>)
    ensures
        out == spec_walk_fields(*l, acc),
        forall|c: Seq<char>| #[trigger] mentions(out, c) <==> takes_in_fields(*l, c) || mentions(acc, c),
    decreases l,
{
    match &**l {
        List::Nil => acc,
        List::Cons(h, t) => walk_fields(t, walk_type(&field_type(h), acc)),
    }
}

/// The functions whose address an expression takes, if there is one, in front of `acc`.
#[verifier::opaque]
pub open spec fn spec_walk_opt(e: Option<Rc<Expr>>, acc: Rc<List<Rope>>) -> Rc<List<Rope>>
{
    match e {
        Some(x) => spec_walk_expr_tree(x, acc),
        None => acc,
    }
}

/// Whether [`walk_opt`] finds the function of the given name.
pub open spec fn takes_in_opt(e: Option<Rc<Expr>>, name: Seq<char>) -> bool
{
    match e {
        Some(x) => takes_in_expr_tree(x, name),
        None => false,
    }
}

/// The functions whose address an expression takes, if there is one, in front of `acc`.
pub fn walk_opt(e: &Option<Rc<Expr>>, acc: Rc<List<Rope>>) -> (out: Rc<List<Rope>>)
    ensures
        out == spec_walk_opt(*e, acc),
        forall|c: Seq<char>| #[trigger] mentions(out, c) <==> takes_in_opt(*e, c) || mentions(acc, c),
{
    proof {
        reveal(spec_walk_opt);
    }
    match e {
        Some(x) => walk_expr_tree(x, acc),
        None => acc,
    }
}

/// The functions whose address a signature with its contract takes, in front of `acc`.
#[verifier::opaque]
pub open spec fn spec_walk_signature(d: Rc<FnDecl>, acc: Rc<List<Rope>>) -> Rc<List<Rope>>
{
    let types = spec_walk_type(d.ret_type, spec_walk_args(d.args, spec_walk_ghost_args(d.ghost_args, acc)));
    spec_walk_opt(d.decreases_, spec_walk_exprs(d.ensures_, spec_walk_exprs(d.requires_, types)))
}

/// Whether [`walk_signature`] finds the function of the given name.
pub open spec fn takes_in_signature(d: Rc<FnDecl>, name: Seq<char>) -> bool
{
    takes_in_ghost_args(d.ghost_args, name) || takes_in_args(d.args, name) || takes_in_type(d.ret_type, name) || takes_in_exprs(d.requires_, name) || takes_in_exprs(d.ensures_, name) || takes_in_opt(d.decreases_, name)
}

/// The functions whose address a signature with its contract takes, in front of `acc`.
pub fn walk_signature(d: &Rc<FnDecl>, acc: Rc<List<Rope>>) -> (out: Rc<List<Rope>>)
    ensures
        out == spec_walk_signature(*d, acc),
        forall|c: Seq<char>| #[trigger] mentions(out, c) <==> takes_in_signature(*d, c) || mentions(acc, c),
{
    proof {
        reveal(spec_walk_signature);
    }
    let types = walk_type(&d.ret_type, walk_args(&d.args, walk_ghost_args(&d.ghost_args, acc)));
    walk_opt(&d.decreases_, walk_exprs(&d.ensures_, walk_exprs(&d.requires_, types)))
}

/// The functions whose address a declaration takes, in front of `acc`.
#[verifier::opaque]
pub open spec fn spec_walk_decl(d: Rc<Decl>, acc: Rc<List<Rope>>) -> Rc<List<Rope>>
{
    match d.val {
        DeclT::FnDefn(f) => spec_walk_stmts(f.body, spec_walk_signature(f.decl, acc)),
        DeclT::FnDecl(f) => spec_walk_signature(f, acc),
        DeclT::GlobalVar(g) => spec_walk_opt(g.init, spec_walk_type(g.ty, acc)),
        DeclT::LetDecl(l) => spec_walk_expr_tree(l.body, spec_walk_exprs(l.ensures_, spec_walk_exprs(l.requires_, spec_walk_type(l.ret_type, spec_walk_args(l.params, acc))))),
        DeclT::Typedef(t) => spec_walk_type(t.body, acc),
        DeclT::StructDefn(s) => spec_walk_fields(s.fields, spec_walk_type(s.refines, acc)),
        DeclT::UnionDefn(u) => spec_walk_fields(u.fields, acc),
        DeclT::IncludeDecl(i) => spec_walk_tokens(i.code.tokens, acc),
        DeclT::OpaqueTypeDecl(o) => spec_walk_tokens(o.code.tokens, acc),
        DeclT::StructDecl(_) => acc,
    }
}

/// Whether [`walk_decl`] finds the function of the given name.
pub open spec fn takes_in_decl(d: Rc<Decl>, name: Seq<char>) -> bool
{
    match d.val {
        DeclT::FnDefn(f) => takes_in_signature(f.decl, name) || takes_in_stmts(f.body, name),
        DeclT::FnDecl(f) => takes_in_signature(f, name),
        DeclT::GlobalVar(g) => takes_in_type(g.ty, name) || takes_in_opt(g.init, name),
        DeclT::LetDecl(l) => takes_in_args(l.params, name) || takes_in_type(l.ret_type, name) || takes_in_exprs(l.requires_, name) || takes_in_exprs(l.ensures_, name) || takes_in_expr_tree(l.body, name),
        DeclT::Typedef(t) => takes_in_type(t.body, name),
        DeclT::StructDefn(s) => takes_in_type(s.refines, name) || takes_in_fields(s.fields, name),
        DeclT::UnionDefn(u) => takes_in_fields(u.fields, name),
        DeclT::IncludeDecl(i) => takes_in_tokens(i.code.tokens, name),
        DeclT::OpaqueTypeDecl(o) => takes_in_tokens(o.code.tokens, name),
        DeclT::StructDecl(_) => false,
    }
}

/// The functions whose address a declaration takes, in front of `acc`.
pub fn walk_decl(d: &Rc<Decl>, acc: Rc<List<Rope>>) -> (out: Rc<List<Rope>>)
    ensures
        out == spec_walk_decl(*d, acc),
        forall|c: Seq<char>| #[trigger] mentions(out, c) <==> takes_in_decl(*d, c) || mentions(acc, c),
{
    proof {
        reveal(spec_walk_decl);
    }
    match &d.val {
        DeclT::FnDefn(f) => walk_stmts(&f.body, walk_signature(&f.decl, acc)),
        DeclT::FnDecl(f) => walk_signature(f, acc),
        DeclT::GlobalVar(g) => walk_opt(&g.init, walk_type(&g.ty, acc)),
        DeclT::LetDecl(l) => walk_expr_tree(&l.body, walk_exprs(&l.ensures_, walk_exprs(&l.requires_, walk_type(&l.ret_type, walk_args(&l.params, acc))))),
        DeclT::Typedef(t) => walk_type(&t.body, acc),
        DeclT::StructDefn(s) => walk_fields(&s.fields, walk_type(&s.refines, acc)),
        DeclT::UnionDefn(u) => walk_fields(&u.fields, acc),
        DeclT::IncludeDecl(i) => walk_tokens(&i.code.tokens, acc),
        DeclT::OpaqueTypeDecl(o) => walk_tokens(&o.code.tokens, acc),
        DeclT::StructDecl(_) => acc,
    }
}

/// The functions whose address is taken anywhere in declarations, in front of `acc`. Each of
/// them needs its wrapper, so none may be missed.
pub open spec fn spec_collect_addr_taken(l: Rc<List<Decl>>, acc: Rc<List<Rope>>) -> Rc<List<Rope>>
    decreases l,
{
    match *l {
        List::Nil => acc,
        List::Cons(d, t) => spec_collect_addr_taken(t, spec_walk_decl(d, acc)),
    }
}

/// Whether [`collect_addr_taken`] finds the function of the given name.
pub open spec fn takes_in_decls(l: Rc<List<Decl>>, name: Seq<char>) -> bool
    decreases l,
{
    match *l {
        List::Nil => false,
        List::Cons(d, t) => takes_in_decl(d, name) || takes_in_decls(t, name),
    }
}

/// The functions whose address is taken anywhere in declarations, in front of `acc`. Each of
/// them needs its wrapper, so none may be missed.
pub fn collect_addr_taken(l: &Rc<List<Decl>>, acc: Rc<List<Rope>>) -> (out: Rc<List<Rope>>)
    ensures
        out == spec_collect_addr_taken(*l, acc),
        forall|c: Seq<char>| #[trigger] mentions(out, c) <==> takes_in_decls(*l, c) || mentions(acc, c),
    decreases l,
{
    match &**l {
        List::Nil => acc,
        List::Cons(d, t) => collect_addr_taken(t, walk_decl(d, acc)),
    }
}

/// The map from functions, specification functions, globals and opaque types to the modules
/// that own them. They are all called the same way, and live in modules of different names.
pub open spec fn spec_build_fn_module_map(
    map: Rc<List<ModuleEntry>>,
    l: Rc<List<Decl>>,
) -> Rc<List<ModuleEntry>>
    decreases l,
{
    match *l {
        List::Nil => map,
        List::Cons(d, t) => spec_build_fn_module_map(spec_add_decl_modules(map, d), t),
    }
}

/// The map from functions, specification functions, globals and opaque types to the modules
/// that own them. They are all called the same way, and live in modules of different names.
pub fn build_fn_module_map(map: Rc<List<ModuleEntry>>, l: &Rc<List<Decl>>) -> (out: Rc<List<ModuleEntry>>)
    ensures
        out == spec_build_fn_module_map(map, *l),
    decreases l,
{
    match &**l {
        List::Nil => map,
        List::Cons(d, t) => build_fn_module_map(add_decl_modules(map, d), t),
    }
}

/// The map from opaque types to the modules that own them: they are referred to as typedefs,
/// and live elsewhere.
pub open spec fn spec_build_typedef_override_map(
    map: Rc<List<ModuleEntry>>,
    l: Rc<List<Decl>>,
) -> Rc<List<ModuleEntry>>
    decreases l,
{
    match *l {
        List::Nil => map,
        List::Cons(d, t) => spec_build_typedef_override_map(spec_add_override(map, d), t),
    }
}

/// The map from opaque types to the modules that own them: they are referred to as typedefs,
/// and live elsewhere.
pub fn build_typedef_override_map(map: Rc<List<ModuleEntry>>, l: &Rc<List<Decl>>) -> (out: Rc<List<ModuleEntry>>)
    ensures
        out == spec_build_typedef_override_map(map, *l),
    decreases l,
{
    match &**l {
        List::Nil => map,
        List::Cons(d, t) => build_typedef_override_map(add_override(map, d), t),
    }
}

/// The modules with one more. It takes the place of an earlier one of the same name: the last
/// declaration of a name is the most complete.
pub open spec fn spec_add_pending(
    l: Rc<List<PendingModule>>,
    p: Rc<PendingModule>,
) -> Rc<List<PendingModule>>
    decreases l,
{
    match *l {
        List::Nil => spec_l1(p),
        List::Cons(h, t) => {
            if spec_same_text(h.mod_name, p.mod_name) {
                spec_cons(p, t)
            } else {
                spec_cons(h, spec_add_pending(t, p))
            }
        },
    }
}

/// The modules with one more. It takes the place of an earlier one of the same name: the last
/// declaration of a name is the most complete.
pub fn add_pending(l: &Rc<List<PendingModule>>, p: Rc<PendingModule>) -> (out: Rc<List<PendingModule>>)
    ensures
        out == spec_add_pending(*l, p),
    decreases l,
{
    match &**l {
        List::Nil => l1(p),
        List::Cons(h, t) => if same_text(&h.mod_name, &p.mod_name) { cons(p, t.clone()) } else { cons(h.clone(), add_pending(t, p)) },
    }
}

/// The function that a declaration is about.
#[verifier::opaque]
pub open spec fn spec_fn_of_decl(d: Rc<Decl>) -> Option<Rc<FnDecl>>
{
    match d.val {
        DeclT::FnDefn(f) => Some(f.decl),
        DeclT::FnDecl(f) => Some(f),
        _ => None,
    }
}

/// The function that a declaration is about.
pub fn fn_of_decl(d: &Rc<Decl>) -> (out: Option<Rc<FnDecl>>)
    ensures
        out == spec_fn_of_decl(*d),
{
    proof {
        reveal(spec_fn_of_decl);
    }
    match &d.val {
        DeclT::FnDefn(f) => Some(f.decl.clone()),
        DeclT::FnDecl(f) => Some(f.clone()),
        _ => None,
    }
}

/// The function that a declaration gives an interface: one that is defined, and not pure.
#[verifier::opaque]
pub open spec fn spec_interface_fn(d: Rc<Decl>) -> Option<Rc<FnDecl>>
{
    match d.val {
        DeclT::FnDefn(f) => {
            if f.decl.is_pure {
                None
            } else {
                Some(f.decl)
            }
        },
        _ => None,
    }
}

/// The function that a declaration gives an interface: one that is defined, and not pure.
pub fn interface_fn(d: &Rc<Decl>) -> (out: Option<Rc<FnDecl>>)
    ensures
        out == spec_interface_fn(*d),
{
    proof {
        reveal(spec_interface_fn);
    }
    match &d.val {
        DeclT::FnDefn(f) => if f.decl.is_pure { None } else { Some(f.decl.clone()) },
        _ => None,
    }
}

/// The lines in front of a module's code.
#[verifier::opaque]
pub open spec fn spec_preamble(mod_name: Text) -> Text
{
    spec_cat3(spec_lit("module "), mod_name, spec_lit("\nopen Pulse\nopen Pulse.Lib.C\n#lang-pulse\n\n"))
}

/// The lines in front of a module's code.
pub fn preamble(mod_name: &Text) -> (out: Text)
    ensures
        out == spec_preamble(*mod_name),
{
    proof {
        reveal(spec_preamble);
    }
    cat3(lit("module "), mod_name.clone(), lit("\nopen Pulse\nopen Pulse.Lib.C\n#lang-pulse\n\n"))
}

/// The module of a declaration. A function that is defined also gets an interface, which
/// holds its signature; a pure one does not, since it is a plain definition.
///
/// As the state that [`Emitter::emit_module`] leaves, with its result.
#[verifier::opaque]
pub open spec fn spec_emit_module(
    st: Emitter,
    env: Env,
    d: Rc<Decl>,
) -> (Emitter, Rc<PendingModule>)
{
    let mod_name = spec_module_text(d);
    let st = Emitter { current_module: mod_name, ..st };
    let (st, body) = spec_emit_decl(st, env, d);
    let (st, fsti) = match spec_interface_fn(d) {
        Some(f) => {
            let (st, v3) = spec_emit_fn_sig_inner(st, env, f, true);
            (st, Some(v3))
        },
        None => (st, None),
    };
    (st, Rc::new(PendingModule { mod_name, body, fsti, source_file: d.loc.location.file_name, decl_name: spec_decl_text(d), decl_range: d.loc.location.range }))
}

/// The module of a function's wrapper, for a function whose address is taken.
///
/// As the state that [`Emitter::emit_wrapper_module`] leaves, with its result.
#[verifier::opaque]
pub open spec fn spec_emit_wrapper_module(
    st: Emitter,
    env: Env,
    d: Rc<Decl>,
    f: Rc<FnDecl>,
) -> (Emitter, Rc<PendingModule>)
{
    let mod_name = spec_funcptr_module_name(f.name.val);
    let st = Emitter { current_module: mod_name, ..st };
    let (st, m) = spec_emit_fnptr_triple(st, env, f);
    (st, Rc::new(PendingModule { mod_name, body: m.fst, fsti: Some(m.fsti), source_file: d.loc.location.file_name, decl_name: spec_decl_text(d), decl_range: d.loc.location.range }))
}

/// The modules of declarations, after those in `done`.
///
/// As the state that [`Emitter::emit_modules`] leaves, with its result.
pub open spec fn spec_emit_modules(
    st: Emitter,
    env: Env,
    addr_taken: Rc<List<Rope>>,
    l: Rc<List<Decl>>,
    done: Rc<List<PendingModule>>,
) -> (Emitter, Rc<List<PendingModule>>)
    decreases l,
{
    match *l {
        List::Nil => (st, done),
        List::Cons(d, t) => {
            let (st, m) = spec_emit_module(st, env, d);
            let done1 = spec_add_pending(done, m);
            let (st, done2) = match spec_fn_of_decl(d) {
                Some(f) => {
                    if !f.is_pure && spec_text_in(addr_taken, f.name.val) {
                        let (st, w) = spec_emit_wrapper_module(st, env, d, f);
                        (st, spec_add_pending(done1, w))
                    } else {
                        (st, done1)
                    }
                },
                None => (st, done1),
            };
            spec_emit_modules(st, env, addr_taken, t, done2)
        },
    }
}

impl Emitter {
    /// The module of a declaration. A function that is defined also gets an interface, which
    /// holds its signature; a pure one does not, since it is a plain definition.
    pub fn emit_module(&mut self, env: &Env, d: &Rc<Decl>) -> (out: Rc<PendingModule>)
        ensures
            (*final(self), out) == spec_emit_module(*old(self), *env, *d),
            extends(final(self).diags, old(self).diags),
            final(self).fn_module_map == old(self).fn_module_map,
            final(self).typedef_override_map == old(self).typedef_override_map,
    {
        proof {
            reveal(spec_emit_module);
        }
        let mod_name = module_text(d);
        self.current_module = mod_name.clone();
        let body = self.emit_decl(env, d);
        let fsti = match interface_fn(d) {
            Some(f) => Some(self.emit_fn_sig_inner(env, &f, true)),
            None => None,
        };
        Rc::new(PendingModule {
            mod_name,
            body,
            fsti,
            source_file: d.loc.location.file_name.clone(),
            decl_name: decl_text(d),
            decl_range: d.loc.location.range,
        })
    }

    /// The module of a function's wrapper, for a function whose address is taken.
    pub fn emit_wrapper_module(&mut self, env: &Env, d: &Rc<Decl>, f: &Rc<FnDecl>) -> (out: Rc<PendingModule>)
        ensures
            (*final(self), out) == spec_emit_wrapper_module(*old(self), *env, *d, *f),
            extends(final(self).diags, old(self).diags),
            final(self).fn_module_map == old(self).fn_module_map,
            final(self).typedef_override_map == old(self).typedef_override_map,
    {
        proof {
            reveal(spec_emit_wrapper_module);
        }
        let mod_name = funcptr_module_name(&f.name.val);
        self.current_module = mod_name.clone();
        let m = self.emit_fnptr_triple(env, f);
        Rc::new(PendingModule {
            mod_name,
            body: m.fst,
            fsti: Some(m.fsti),
            source_file: d.loc.location.file_name.clone(),
            decl_name: decl_text(d),
            decl_range: d.loc.location.range,
        })
    }

    /// The modules of declarations, after those in `done`.
    pub fn emit_modules(
        &mut self,
        env: &Env,
        addr_taken: &Rc<List<Rope>>,
        l: &Rc<List<Decl>>,
        done: Rc<List<PendingModule>>,
    ) -> (out: Rc<List<PendingModule>>)
        ensures
            (*final(self), out) == spec_emit_modules(*old(self), *env, *addr_taken, *l, done),
            extends(final(self).diags, old(self).diags),
            final(self).fn_module_map == old(self).fn_module_map,
            final(self).typedef_override_map == old(self).typedef_override_map,
        decreases l,
    {
        match &**l {
            List::Nil => done,
            List::Cons(d, t) => {
                let m = self.emit_module(env, d);
                let done1 = add_pending(&done, m);
                let done2 = match fn_of_decl(d) {
                    Some(f) => if !f.is_pure && text_in(addr_taken, &f.name.val) {
                        let w = self.emit_wrapper_module(env, d, &f);
                        add_pending(&done1, w)
                    } else {
                        done1
                    },
                    None => done1,
                };
                self.emit_modules(env, addr_taken, t, done2)
            }
        }
    }
}

/// The emitter for a translation unit, with the messages so far.
#[verifier::opaque]
pub open spec fn spec_new_emitter(diags: Rc<List<Diagnostic>>, decls: Rc<List<Decl>>) -> Emitter
{
    Emitter { nm: spec_new_mangling(), diags, type_val_params: spec_nil(), type_uninit_val_params: spec_nil(), defining_struct: None, current_module: spec_lit(""), fn_module_map: spec_build_fn_module_map(spec_nil(), decls), typedef_override_map: spec_build_typedef_override_map(spec_nil(), decls), current_fn_total: false, tmp_counter: 0 }
}

/// The emitter for a translation unit, with the messages so far.
pub fn new_emitter(diags: Rc<List<Diagnostic>>, decls: &Rc<List<Decl>>) -> (out: Emitter)
    ensures
        out == spec_new_emitter(diags, *decls),
{
    proof {
        reveal(spec_new_emitter);
    }
    Emitter {
        nm: new_mangling(),
        diags,
        type_val_params: nil(),
        type_uninit_val_params: nil(),
        defining_struct: None,
        current_module: lit(""),
        fn_module_map: build_fn_module_map(nil(), decls),
        typedef_override_map: build_typedef_override_map(nil(), decls),
        current_fn_total: false,
        tmp_counter: 0,
    }
}

/// The state of emission after a whole translation unit, and its modules. Every declaration is
/// in scope of every other, whatever their order.
pub open spec fn emitted(diags: Rc<List<Diagnostic>>, decls: Rc<List<Decl>>) -> (Emitter, Rc<List<PendingModule>>) {
    spec_emit_modules(
        spec_new_emitter(diags, decls),
        spec_push_decls(spec_empty_env(), decls),
        spec_collect_addr_taken(decls, spec_nil()),
        decls,
        spec_nil(),
    )
}

/// Whether `m` is the module `p`, laid out: its code is the layout of the document behind the
/// preamble, and its ranges are those of the document's parts, counted without the preamble.
pub open spec fn lays_out(m: EmittedModule, p: PendingModule) -> bool {
    &&& m.module_name@ == p.mod_name.chars()
    &&& m.code@ == spec_preamble(p.mod_name).chars() + rendered(p.body).text
    &&& match p.fsti {
        Some(d) => m.fsti_code matches Some(c) && c@ == spec_preamble(p.mod_name).chars() + rendered(d).text,
        None => m.fsti_code is None,
    }
    &&& m.range_map@ == rendered(p.body).ranges
    &&& m.source_file == p.source_file
    &&& m.decl_name@ == p.decl_name.chars()
    &&& m.decl_range == p.decl_range
}

/// Determines the output module name for a given top-level declaration.
pub fn module_name_for_decl(decl: &Rc<Decl>) -> (r: String)
    ensures
        r@ == spec_module_text(*decl).chars(),
{
    rope_string(&module_text(decl))
}

/// Extracts the C name from a declaration.
pub fn decl_name(decl: &Rc<Decl>) -> (r: String)
    ensures
        r@ == spec_decl_text(*decl).chars(),
{
    rope_string(&decl_text(decl))
}

/// Lays a module out.
pub fn finish_module(p: &Rc<PendingModule>) -> (r: EmittedModule)
    ensures
        lays_out(r, **p),
{
    let head = rope_string(&preamble(&p.mod_name));
    let body = render(&p.body);
    let mut code = head.clone();
    code.append(body.buffer.as_str());
    let fsti_code = match &p.fsti {
        Some(d) => {
            let mut c = head;
            let w = render(d);
            c.append(w.buffer.as_str());
            Some(c)
        },
        None => None,
    };
    EmittedModule {
        module_name: rope_string(&p.mod_name),
        code,
        fsti_code,
        range_map: body.source_range_map,
        source_file: p.source_file.clone(),
        decl_name: rope_string(&p.decl_name),
        decl_range: p.decl_range,
    }
}

/// The names of emitted modules, in order.
pub open spec fn module_names(s: Seq<EmittedModule>) -> Seq<Seq<char>> {
    Seq::new(s.len(), |i: int| s[i].module_name@)
}

/// Whether a declaration is of a function that is not pure, and whose address is taken anywhere in
/// declarations.
pub open spec fn address_is_taken(all: Rc<List<Decl>>, d: Rc<Decl>) -> bool {
    spec_fn_of_decl(d) matches Some(f) && !f.is_pure && takes_in_decls(all, f.name.val.chars())
}

/// Emits each declaration as its own module. No two modules have the same name, every
/// declaration has its module, and every function whose address is taken has that of its wrapper.
pub fn emit_multifile(diags: &mut Diagnostics, tu: &TranslationUnit) -> (r: Vec<EmittedModule>)
    ensures
        ({
            let e = emitted(old(diags).list, list_of(tu.decls@));
            &&& final(diags).list == e.0.diags
            &&& r@.len() == e.1.items().len()
            &&& forall|i: int| 0 <= i < r@.len() ==> lays_out(#[trigger] r@[i], *e.1.items()[i])
        }),
        extends(final(diags).list, old(diags).list),
        module_names(r@).no_duplicates(),
        forall|i: int| 0 <= i < tu.decls@.len() ==> module_names(r@).contains(spec_module_text(#[trigger] tu.decls@[i]).chars()),
        forall|i: int|
            0 <= i < tu.decls@.len() && address_is_taken(list_of(tu.decls@), #[trigger] tu.decls@[i])
                ==> module_names(r@).contains(wrapper_module(tu.decls@[i])),
{
    proof {
        reveal(spec_new_emitter);
    }
    let decls = List::from_vec(&tu.decls);
    let env = push_decls(&empty_env(), &decls);
    let mut emitter = new_emitter(diags.list.clone(), &decls);
    let addr_taken = collect_addr_taken(&decls, nil());
    let pending = emitter.emit_modules(&env, &addr_taken, &decls, nil());
    diags.list = emitter.diags.clone();
    let modules = List::to_vec(&pending);
    let mut r: Vec<EmittedModule> = Vec::new();
    let mut j: usize = 0;
    while j < modules.len()
        invariant
            j <= modules.len(),
            r@.len() == j,
            forall|k: int| 0 <= k < j ==> lays_out(#[trigger] r@[k], *modules@[k]),
        decreases modules.len() - j,
    {
        r.push(finish_module(&modules[j]));
        j += 1;
    }
    proof {
        law_lists_keep_their_items(tu.decls@);
        law_emitted_modules_have_different_names(old(diags).list, list_of(tu.decls@));
        assert forall|i: int| 0 <= i < tu.decls@.len() && address_is_taken(list_of(tu.decls@), #[trigger] tu.decls@[i]) implies needs_wrapper(
            addr_taken,
            tu.decls@[i],
        ) by {
            match spec_fn_of_decl(tu.decls@[i]) {
                Some(f) => lemma_mentions(addr_taken, decl_name_text(f)),
                None => {},
            }
        }
        lemma_mod_names(pending);
        assert(module_names(r@) =~= mod_names(pending));
    }
    r
}

} // verus!
