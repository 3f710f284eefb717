//! What is proved of comparing syntax, and of repeated declarations.

use crate::list::{List, spec_nil};
use crate::text::Text;
use crate::ir::{
    BinOp, Decl, DeclT, Expr, ExprT, FieldInit, FnArg, FnDecl, FnDefn, GhostArg, InlinePulseToken,
    StructDefn, Type, TypeT, UnOp, VAttr, spec_same_name,
};
use crate::diag::Diagnostic;
use crate::env::Env;
use crate::names::{spec_same_type_ref, spec_type_ref};
use crate::syntax_eq::{
    spec_same_expr, spec_same_exprs, spec_same_head, spec_same_init, spec_same_inits,
    spec_same_int, spec_same_kind, spec_same_operands, spec_same_opt_name, spec_same_several,
    spec_same_token, spec_same_tokens, spec_same_type, spec_same_typed, spec_same_types,
    spec_same_vattr,
};
use crate::rename::Rename;
use crate::merge::{
    Match, spec_arg_renames, spec_check_redeclared, spec_combine, spec_earlier_says_more,
    spec_find_defn, spec_find_defn_decl, spec_find_struct_defn, spec_ghost_renames, spec_match_fn,
    spec_matched_defn, spec_merge_globals, spec_param_renames, spec_settle_decl,
    spec_settle_decls, spec_settle_fn_decl, spec_settle_fn_defn, spec_specs_agree,
};
use crate::laws_goto::ident_text;
use crate::laws_rename::{code_tokens, init_value, lemma_rename_exprs};
use std::rc::Rc;
use vstd::prelude::*;

verus! {

/// Every expression is the same as itself.
pub proof fn law_expressions_equal_themselves(e: Rc<Expr>)
    ensures
        spec_same_expr(e, e),
    decreases e, 3nat,
{
    reveal(spec_same_head);
    reveal(spec_same_int);
    reveal(spec_same_name);
    reveal(spec_same_vattr);
    lemma_same_operands(e);
}

/// Every expression has the same operands as itself.
proof fn lemma_same_operands(e: Rc<Expr>)
    ensures
        spec_same_operands(e, e),
    decreases e, 2nat,
{
    match e.val {
        ExprT::Deref(a) | ExprT::Ref(a) | ExprT::UnOp(_, a) | ExprT::Live(a) | ExprT::Old(a) => law_expressions_equal_themselves(a),
        ExprT::PreIncr(a) | ExprT::PostIncr(a) | ExprT::PreDecr(a) | ExprT::PostDecr(a) => law_expressions_equal_themselves(a),
        ExprT::Free(a) | ExprT::Member(a, _) | ExprT::VAttr(_, a) | ExprT::UnionInit(_, _, a) => law_expressions_equal_themselves(a),
        ExprT::Var(_) | ExprT::BoolLit(_) | ExprT::FnRef(_) => {},
        _ => lemma_same_typed(e),
    }
}

/// Every expression with a type has the same operands as itself.
proof fn lemma_same_typed(e: Rc<Expr>)
    requires
        !(e.val is Deref || e.val is Ref || e.val is UnOp || e.val is Live || e.val is Old),
        !(e.val is PreIncr || e.val is PostIncr || e.val is PreDecr || e.val is PostDecr),
        !(e.val is Free || e.val is Member || e.val is VAttr || e.val is UnionInit),
        !(e.val is Var || e.val is BoolLit || e.val is FnRef),
    ensures
        spec_same_typed(e, e),
    decreases e, 1nat,
{
    match e.val {
        ExprT::Cast(a, t) | ExprT::ContainerOf(a, t, _) | ExprT::MallocArray(t, a) | ExprT::CallocArray(t, a) => {
            law_expressions_equal_themselves(a);
            law_types_equal_themselves(t);
        },
        ExprT::MallocFlex(t, a) | ExprT::CallocFlex(t, a) | ExprT::MemsetZero(t, a) => {
            law_expressions_equal_themselves(a);
            law_types_equal_themselves(t);
        },
        ExprT::Forall(_, t, a) | ExprT::Exists(_, t, a) => {
            law_expressions_equal_themselves(a);
            law_types_equal_themselves(t);
        },
        ExprT::IntLit(_, t) | ExprT::FloatLit(_, t) | ExprT::Malloc(t) | ExprT::Calloc(t) => law_types_equal_themselves(t),
        ExprT::SizeOf(t) | ExprT::AlignOf(t) | ExprT::Error(t) => law_types_equal_themselves(t),
        _ => lemma_same_several(e),
    }
}

/// Every expression with several operands has the same operands as itself.
proof fn lemma_same_several(e: Rc<Expr>)
    requires
        e.val is Index || e.val is BinOp || e.val is AssignExpr || e.val is Cond || e.val is Memset || e.val is FnCall
            || e.val is FnPtrCall || e.val is InlinePulse || e.val is StructInit || e.val is ArrayInit,
    ensures
        spec_same_several(e, e),
    decreases e, 0nat,
{
    match e.val {
        ExprT::Index(a, b) | ExprT::BinOp(_, a, b) | ExprT::AssignExpr(a, b) => {
            law_expressions_equal_themselves(a);
            law_expressions_equal_themselves(b);
        },
        ExprT::Cond(a, b, c) => {
            law_expressions_equal_themselves(a);
            law_expressions_equal_themselves(b);
            law_expressions_equal_themselves(c);
        },
        ExprT::Memset(t, p, v, n) => {
            law_types_equal_themselves(t);
            law_expressions_equal_themselves(p);
            law_expressions_equal_themselves(v);
            law_expressions_equal_themselves(n);
        },
        ExprT::FnCall(_, l) => lemma_same_exprs(l),
        ExprT::FnPtrCall(f, l) => {
            law_expressions_equal_themselves(f);
            lemma_same_exprs(l);
        },
        ExprT::InlinePulse(code, t) => {
            lemma_same_tokens(code_tokens(code));
            law_types_equal_themselves(t);
        },
        ExprT::StructInit(_, l) => lemma_same_inits(l),
        ExprT::ArrayInit { elem_ty, elems, is_static } => {
            law_types_equal_themselves(elem_ty);
            lemma_same_exprs(elems);
        },
        _ => {},
    }
}

/// Expressions are the same as themselves.
proof fn lemma_same_exprs(l: Rc<List<Expr>>)
    ensures
        spec_same_exprs(l, l),
    decreases l, 0nat,
{
    match *l {
        List::Nil => {},
        List::Cons(h, t) => {
            law_expressions_equal_themselves(h);
            lemma_same_exprs(t);
        },
    }
}

/// The value of a field is the same as itself.
proof fn lemma_same_init(i: Rc<FieldInit>)
    ensures
        spec_same_init(i, i),
    decreases i, 0nat,
{
    reveal(spec_same_name);
    law_expressions_equal_themselves(init_value(i));
}

/// The values of fields are the same as themselves.
proof fn lemma_same_inits(l: Rc<List<FieldInit>>)
    ensures
        spec_same_inits(l, l),
    decreases l, 0nat,
{
    match *l {
        List::Nil => {},
        List::Cons(h, t) => {
            lemma_same_init(h);
            lemma_same_inits(t);
        },
    }
}

/// A token is the same as itself.
proof fn lemma_same_token(tok: Rc<InlinePulseToken>)
    ensures
        spec_same_token(tok, tok),
    decreases tok, 0nat,
{
    reveal(spec_same_name);
    reveal(spec_same_opt_name);
    match *tok {
        InlinePulseToken::RValueAntiquot { before, expr } => law_expressions_equal_themselves(expr),
        InlinePulseToken::LValueAntiquot { before, expr } => law_expressions_equal_themselves(expr),
        InlinePulseToken::TypeAntiquot { before, ty } => law_types_equal_themselves(ty),
        InlinePulseToken::FieldAntiquot { before, ty, field_name } => law_types_equal_themselves(ty),
        InlinePulseToken::AuxFnAntiquot { before, ty, arm, kind } => law_types_equal_themselves(ty),
        InlinePulseToken::Declare { ident, ty } => law_types_equal_themselves(ty),
        InlinePulseToken::Verbatim { before, text } => {},
    }
}

/// Tokens are the same as themselves.
proof fn lemma_same_tokens(l: Rc<List<InlinePulseToken>>)
    ensures
        spec_same_tokens(l, l),
    decreases l, 0nat,
{
    match *l {
        List::Nil => {},
        List::Cons(h, t) => {
            lemma_same_token(h);
            lemma_same_tokens(t);
        },
    }
}

/// Every type is the same as itself.
pub proof fn law_types_equal_themselves(ty: Rc<Type>)
    ensures
        spec_same_type(ty, ty),
    decreases ty, 0nat,
{
    reveal(spec_same_name);
    reveal(spec_same_kind);
    reveal(spec_type_ref);
    reveal(spec_same_type_ref);
    match ty.val {
        TypeT::Pointer(t, _) | TypeT::FixedArray(t, _) | TypeT::FlexArray(t) | TypeT::Plain(t) | TypeT::Nullable(t) => law_types_equal_themselves(t),
        TypeT::Refine(t, p) | TypeT::RefineAlways(t, p) | TypeT::RefineUninit(t, p) => {
            law_types_equal_themselves(t);
            law_expressions_equal_themselves(p);
        },
        TypeT::RefineValue(t, x, u, p) => {
            law_types_equal_themselves(t);
            law_types_equal_themselves(u);
            law_expressions_equal_themselves(p);
        },
        TypeT::FnPtr { args, ret } => {
            lemma_same_types(args);
            law_types_equal_themselves(ret);
        },
        _ => {},
    }
}

/// Types are the same as themselves.
proof fn lemma_same_types(l: Rc<List<Type>>)
    ensures
        spec_same_types(l, l),
    decreases l, 0nat,
{
    match *l {
        List::Nil => {},
        List::Cons(h, t) => {
            law_types_equal_themselves(h);
            lemma_same_types(t);
        },
    }
}

/// Nothing is renamed between a list of parameters and itself.
proof fn lemma_no_arg_renames(l: Rc<List<FnArg>>, acc: Rc<List<Rename>>)
    ensures
        spec_arg_renames(l, l, acc) == acc,
    decreases l,
{
    reveal(spec_same_name);
    match *l {
        List::Nil => {},
        List::Cons(_, t) => lemma_no_arg_renames(t, acc),
    }
}

/// Nothing is renamed between a list of ghost parameters and itself.
proof fn lemma_no_ghost_renames(l: Rc<List<GhostArg>>, acc: Rc<List<Rename>>)
    ensures
        spec_ghost_renames(l, l, acc) == acc,
    decreases l,
{
    reveal(spec_same_name);
    match *l {
        List::Nil => {},
        List::Cons(_, t) => lemma_no_ghost_renames(t, acc),
    }
}

/// Every contract agrees with itself.
proof fn lemma_specs_agree(f: Rc<FnDecl>)
    ensures
        spec_specs_agree(f, f),
{
    reveal(spec_specs_agree);
    reveal(spec_param_renames);
    lemma_no_arg_renames(fn_args(f), spec_nil());
    lemma_no_ghost_renames(fn_ghost_args(f), spec_nil());
    lemma_rename_exprs(fn_requires(f));
    lemma_rename_exprs(fn_ensures(f));
    lemma_same_exprs(fn_requires(f));
    lemma_same_exprs(fn_ensures(f));
}

/// The parameters of a function.
pub open spec fn fn_args(f: Rc<FnDecl>) -> Rc<List<FnArg>> {
    f.args
}

/// The ghost parameters of a function.
pub open spec fn fn_ghost_args(f: Rc<FnDecl>) -> Rc<List<GhostArg>> {
    f.ghost_args
}

/// The precondition of a function.
pub open spec fn fn_requires(f: Rc<FnDecl>) -> Rc<List<Expr>> {
    f.requires_
}

/// The postcondition of a function.
pub open spec fn fn_ensures(f: Rc<FnDecl>) -> Rc<List<Expr>> {
    f.ensures_
}

/// A declaration that is repeated, as one of a header that several files share, changes nothing
/// and is no error.
pub proof fn law_repeating_a_declaration_changes_nothing(diags: Rc<List<Diagnostic>>, d: Rc<Decl>)
    ensures
        spec_combine(d, d) == d,
        spec_check_redeclared(diags, d, d) == diags,
{
    reveal(spec_combine);
    reveal(spec_merge_globals);
    reveal(spec_earlier_says_more);
    reveal(spec_check_redeclared);
    match d.val {
        DeclT::FnDecl(f) => lemma_specs_agree(f),
        _ => {},
    }
}

/// Whether a declaration has no definition beside it that it was to become part of.
pub open spec fn stands_alone(env: Env, all: Rc<List<Decl>>, d: Rc<Decl>) -> bool {
    match d.val {
        DeclT::FnDecl(a) => match spec_find_defn(all, a.name.val) {
            Some(f) => spec_match_fn(env, a, f.decl) != Match::Merged,
            None => true,
        },
        DeclT::StructDecl(n) => spec_find_struct_defn(all, n.val) is None,
        _ => true,
    }
}

/// The definition of a struct that is found is one.
proof fn lemma_find_struct_defn(l: Rc<List<Decl>>, name: Text)
    ensures
        spec_find_struct_defn(l, name) matches Some(d) ==> d.val is StructDefn,
    decreases l,
{
    match *l {
        List::Nil => {},
        List::Cons(_, t) => lemma_find_struct_defn(t, name),
    }
}

/// The definition of a function that is found is one.
proof fn lemma_find_defn(l: Rc<List<Decl>>, name: Text)
    ensures
        match spec_find_defn_decl(l, name) {
            Some(d) => d.val matches DeclT::FnDefn(f) && spec_find_defn(l, name) == Some(f),
            None => spec_find_defn(l, name) is None,
        },
    decreases l,
{
    match *l {
        List::Nil => {},
        List::Cons(_, t) => lemma_find_defn(t, name),
    }
}

/// After merging, nothing is declared beside its definition: a function that is only declared is
/// defined nowhere, or the two contradict each other, and a struct that is only declared is
/// defined nowhere.
pub proof fn law_nothing_is_declared_beside_its_definition(env: Env, all: Rc<List<Decl>>, l: Rc<List<Decl>>)
    ensures
        forall|i: int| 0 <= i < spec_settle_decls(env, all, l).items().len()
            ==> stands_alone(env, all, #[trigger] spec_settle_decls(env, all, l).items()[i]),
    decreases l,
{
    match *l {
        List::Nil => {},
        List::Cons(h, t) => {
            law_nothing_is_declared_beside_its_definition(env, all, t);
            lemma_settled_stands_alone(env, all, h, t);
            let rest = spec_settle_decls(env, all, t);
            let whole = spec_settle_decls(env, all, l);
            match spec_settle_decl(env, all, h, t) {
                Some(d) => {
                    assert(whole.items() == seq![d] + rest.items());
                    assert forall|i: int| 0 <= i < whole.items().len() implies stands_alone(env, all, #[trigger] whole.items()[i]) by {
                        if i > 0 {
                            assert(whole.items()[i] == rest.items()[i - 1]);
                        }
                    }
                },
                None => {},
            }
        },
    }
}

/// What stands where something was declared stands alone.
proof fn lemma_settled_stands_alone(env: Env, all: Rc<List<Decl>>, d: Rc<Decl>, later: Rc<List<Decl>>)
    ensures
        spec_settle_decl(env, all, d, later) matches Some(x) ==> stands_alone(env, all, x),
{
    reveal(spec_settle_decl);
    reveal(spec_settle_fn_decl);
    reveal(spec_settle_fn_defn);
    reveal(spec_matched_defn);
    match d.val {
        DeclT::FnDecl(a) => lemma_find_defn(all, decl_name_text(a)),
        DeclT::StructDecl(n) => lemma_find_struct_defn(later, ident_text(n)),
        _ => {},
    }
}

/// The name of a function.
pub open spec fn decl_name_text(f: Rc<FnDecl>) -> Text {
    f.name.val
}

} // verus!
