//! Emission of functions, specification functions and globals.

use crate::list::{
    List, bump, cons, l1, l4, l7, list_append, list_is_empty, list_len, list_push, nil, spec_bump,
    spec_cons, spec_l1, spec_l4, spec_l7, spec_list_append, spec_list_is_empty, spec_list_len,
    spec_list_push, spec_nil,
};
use crate::text::{cat, lit, num, spec_cat, spec_lit, spec_num};
use crate::ir::{
    Decl, DeclT, Expr, ExprT, FnArg, FnDecl, FnDefn, GhostArg, GlobalVar, Ident, IncludeDecl,
    LetDecl, OpaqueTypeDecl, ParamMode, Stmt, StructDefn, Type, TypeT, UnionDefn,
    global_var_is_array, mk_ident, mk_rvar, spec_global_var_is_array, spec_mk_ident, spec_mk_rvar,
};
use crate::diag::extends;
use crate::doc::{
    Doc, DocT, annotated, block, clauses, concat, d2, d3, d4, d5, d6, d7, d8, d9, group, hardline,
    intersperse, line, lines_before, naryfn, nest, nil_doc, parens, spec_annotated, spec_block,
    spec_clauses, spec_concat, spec_d2, spec_d3, spec_d4, spec_d5, spec_d6, spec_d7, spec_d8,
    spec_d9, spec_group, spec_hardline, spec_intersperse, spec_line, spec_lines_before,
    spec_naryfn, spec_nest, spec_nil_doc, spec_parens, spec_txt, spec_unaryfn, txt, unaryfn,
};
use crate::env::{
    Env, LocalDeclKind, clone_env, push_arg, push_fn_decl_args_for_body, push_return,
    push_var_decl, spec_clone_env, spec_push_arg, spec_push_fn_decl_args_for_body,
    spec_push_return, spec_push_var_decl,
};
use crate::names::{Name, TypeRef};
use crate::emit_base::{
    Emitter, ExBinding, binder, binding_names, binding_types, conj, eta_expand_doc,
    extract_base_ident, fnptr_domain_doc, mk_assume_val, mk_let, mk_let_rec, mk_star, mk_thunk,
    nary_tuple_proj, nested_pair_doc, nested_pair_pat, nested_pair_proj, spec_binder,
    spec_binding_names, spec_binding_types, spec_conj, spec_emit_name, spec_emit_var_name,
    spec_eta_expand_doc, spec_extract_base_ident, spec_fnptr_domain_doc, spec_local_name,
    spec_mk_assume_val, spec_mk_let, spec_mk_let_rec, spec_mk_star, spec_mk_thunk,
    spec_nary_tuple_proj, spec_nested_pair_doc, spec_nested_pair_pat, spec_nested_pair_proj,
    spec_report, spec_wrap_exists, wrap_exists,
};
use crate::emit_types::{spec_emit_type, spec_emit_type_default};
use crate::emit_exprs::{
    spec_emit_rvalue, spec_emit_rvalues, spec_emit_tokens, spec_fnptr_wrap_name,
};
use crate::emit_slprop::{
    Owned, SLPropVariant, owned_standard, spec_emit_type_slprop, spec_owned_standard,
};
use crate::emit_stmts::{spec_emit_pure_body, spec_emit_stmts, spec_stmts_size, stmts_size};
use crate::emit_records::{
    spec_emit_struct_decl, spec_emit_structdefn, spec_emit_typedef, spec_emit_uniondefn,
};
use std::rc::Rc;
use vstd::prelude::*;

verus! {

broadcast use crate::diag::lemma_extends_trans;

/// A signature while its parameters are gone through: the scope so far, and the clauses.
pub struct SigParts {
    pub env: Env,
    pub params: Rc<List<DocT>>,
    pub pre: Rc<List<DocT>>,
    pub post: Rc<List<DocT>>,
    pub kept: Rc<List<DocT>>,
}

/// A group of propositions with the ghost values that they speak of.
pub struct WitnessGroup {
    pub bindings: Rc<List<ExBinding>>,
    pub props: Rc<List<DocT>>,
}

/// The clauses of a function-pointer contract while the parameters are gone through.
pub struct CoreParts {
    pub post: Rc<List<DocT>>,
    pub kept: Rc<List<DocT>>,
    pub groups: Rc<List<WitnessGroup>>,
}

/// The parts of a wrapper for use through pointers.
pub struct FnPtrSpecCore {
    pub pre_expr: Doc,
    pub post_expr: Doc,
    pub wrap_name: Doc,
    pub callee: Doc,
    pub domain: Doc,
    /// The type of the wrapper's explicit witness: `unit` where no parameter needs one.
    pub witness_domain: Doc,
    /// A statement that takes the witness apart at the top of the body.
    pub witness_rewrite: Doc,
    pub ret_name: Doc,
    pub ret_ty: Doc,
    pub projs: Rc<List<DocT>>,
}

/// A wrapper: what its implementation holds, and what its interface holds.
pub struct FnPtrModule {
    pub fst: Doc,
    pub fsti: Doc,
}

/// Parameters with their scope.
pub struct Params {
    pub env: Env,
    pub docs: Rc<List<DocT>>,
}

/// Ghost parameters with their scope.
pub struct GhostParts {
    pub env: Env,
    pub types: Rc<List<DocT>>,
    pub names: Rc<List<DocT>>,
}

/// The name of the parameter at position `i`.
#[verifier::opaque]
pub open spec fn spec_arg_ident(arg: Rc<FnArg>, i: u64) -> Rc<Ident>
{
    match arg.name {
        Some(n) => n,
        None => spec_mk_ident(arg.ty.loc, spec_cat(spec_lit("_unnamed"), spec_num(i))),
    }
}

/// The name of the parameter at position `i`.
pub fn arg_ident(arg: &Rc<FnArg>, i: u64) -> (out: Rc<Ident>)
    ensures
        out == spec_arg_ident(*arg, i),
{
    proof {
        reveal(spec_arg_ident);
    }
    match &arg.name {
        Some(n) => n.clone(),
        None => mk_ident(&arg.ty.loc, cat(lit("_unnamed"), num(i))),
    }
}

/// Ownership at full permission.
#[verifier::opaque]
pub open spec fn spec_full() -> SLPropVariant
{
    SLPropVariant::Init { perm: spec_txt("1.0R") }
}

/// Ownership at full permission.
pub fn full() -> (out: SLPropVariant)
    ensures
        out == spec_full(),
{
    proof {
        reveal(spec_full);
    }
    SLPropVariant::Init { perm: txt("1.0R") }
}

/// The types of the ghost values of groups.
pub open spec fn spec_group_types(l: Rc<List<WitnessGroup>>) -> Rc<List<DocT>>
    decreases l,
{
    match *l {
        List::Nil => spec_nil(),
        List::Cons(h, t) => spec_list_append(spec_binding_types(h.bindings), spec_group_types(t)),
    }
}

/// The types of the ghost values of groups.
pub fn group_types(l: &Rc<List<WitnessGroup>>) -> (out: Rc<List<DocT>>)
    ensures
        out == spec_group_types(*l),
    decreases l,
{
    match &**l {
        List::Nil => nil(),
        List::Cons(h, t) => list_append(&binding_types(&h.bindings), group_types(t)),
    }
}

/// The names of the ghost values of groups.
pub open spec fn spec_group_names(l: Rc<List<WitnessGroup>>) -> Rc<List<DocT>>
    decreases l,
{
    match *l {
        List::Nil => spec_nil(),
        List::Cons(h, t) => spec_list_append(spec_binding_names(h.bindings), spec_group_names(t)),
    }
}

/// The names of the ghost values of groups.
pub fn group_names(l: &Rc<List<WitnessGroup>>) -> (out: Rc<List<DocT>>)
    ensures
        out == spec_group_names(*l),
    decreases l,
{
    match &**l {
        List::Nil => nil(),
        List::Cons(h, t) => list_append(&binding_names(&h.bindings), group_names(t)),
    }
}

/// The conjunctions of groups.
pub open spec fn spec_group_stars(l: Rc<List<WitnessGroup>>) -> Rc<List<DocT>>
    decreases l,
{
    match *l {
        List::Nil => spec_nil(),
        List::Cons(h, t) => spec_cons(spec_mk_star(h.props), spec_group_stars(t)),
    }
}

/// The conjunctions of groups.
pub fn group_stars(l: &Rc<List<WitnessGroup>>) -> (out: Rc<List<DocT>>)
    ensures
        out == spec_group_stars(*l),
    decreases l,
{
    match &**l {
        List::Nil => nil(),
        List::Cons(h, t) => cons(mk_star(&h.props), group_stars(t)),
    }
}

/// The projections of an `n`-ary tuple from component `i` on.
pub open spec fn spec_tuple_projs(i: u64, l: Rc<List<DocT>>, n: u64) -> Rc<List<DocT>>
    decreases l,
{
    match *l {
        List::Nil => spec_nil(),
        List::Cons(_, t) => spec_cons(spec_nary_tuple_proj(spec_txt("x_fp"), i, n), spec_tuple_projs(spec_bump(i), t, n)),
    }
}

/// The projections of an `n`-ary tuple from component `i` on.
pub fn tuple_projs(i: u64, l: &Rc<List<DocT>>, n: u64) -> (out: Rc<List<DocT>>)
    ensures
        out == spec_tuple_projs(i, *l, n),
    decreases l,
{
    match &**l {
        List::Nil => nil(),
        List::Cons(_, t) => cons(nary_tuple_proj(txt("x_fp"), i, n), tuple_projs(bump(i), t, n)),
    }
}

/// `let name = v in`, with a line break.
#[verifier::opaque]
pub open spec fn spec_let_in(name: Doc, v: Doc) -> Doc
{
    spec_d6(spec_txt("let "), name, spec_txt(" = "), v, spec_txt(" in"), spec_hardline())
}

/// `let name = v in`, with a line break.
pub fn let_in(name: Doc, v: Doc) -> (out: Doc)
    ensures
        out == spec_let_in(name, v),
{
    proof {
        reveal(spec_let_in);
    }
    d6(txt("let "), name, txt(" = "), v, txt(" in"), hardline())
}

/// `let a = <proj> in ...` for each name.
pub open spec fn spec_bind_prefix(acc: Doc, names: Rc<List<DocT>>, projs: Rc<List<DocT>>) -> Doc
    decreases names,
{
    match (*names, *projs) {
        (List::Cons(n, s), List::Cons(p, t)) => spec_bind_prefix(spec_d2(acc, spec_let_in(n, p)), s, t),
        _ => acc,
    }
}

/// `let a = <proj> in ...` for each name.
pub fn bind_prefix(acc: Doc, names: &Rc<List<DocT>>, projs: &Rc<List<DocT>>) -> (out: Doc)
    ensures
        out == spec_bind_prefix(acc, *names, *projs),
    decreases names,
{
    match (&**names, &**projs) {
        (List::Cons(n, s), List::Cons(p, t)) => bind_prefix(d2(acc, let_in(n.clone(), p.clone())), s, t),
        _ => acc,
    }
}

/// `let g = <proj> in ...` for each ghost argument, out of the second half of the witness.
pub open spec fn spec_ghost_prefix(
    acc: Doc,
    base: Doc,
    names: Rc<List<DocT>>,
    i: u64,
    n: u64,
) -> Doc
    decreases names,
{
    match *names {
        List::Nil => acc,
        List::Cons(h, t) => spec_ghost_prefix(spec_d2(acc, spec_let_in(h, spec_nested_pair_proj(base, i, n))), base, t, spec_bump(i), n),
    }
}

/// `let g = <proj> in ...` for each ghost argument, out of the second half of the witness.
pub fn ghost_prefix(acc: Doc, base: &Doc, names: &Rc<List<DocT>>, i: u64, n: u64) -> (out: Doc)
    ensures
        out == spec_ghost_prefix(acc, *base, *names, i, n),
    decreases names,
{
    match &**names {
        List::Nil => acc,
        List::Cons(h, t) => ghost_prefix(d2(acc, let_in(h.clone(), nested_pair_proj(base.clone(), i, n))), base, t, bump(i), n),
    }
}

/// Whether a clause is a truth value turned into a proposition: only those may stand inside
/// `pure`.
#[verifier::opaque]
pub open spec fn spec_is_pure_prop(e: Rc<Expr>) -> bool
{
    match e.val {
        ExprT::Cast(_, ty) => matches!(ty.val, TypeT::SLProp),
        _ => false,
    }
}

/// Whether a clause is a truth value turned into a proposition: only those may stand inside
/// `pure`.
pub fn is_pure_prop(e: &Rc<Expr>) -> (out: bool)
    ensures
        out == spec_is_pure_prop(*e),
{
    proof {
        reveal(spec_is_pure_prop);
    }
    match &e.val {
        ExprT::Cast(_, ty) => matches!(&ty.val, TypeT::SLProp),
        _ => false,
    }
}

/// The truth value that a clause was made of.
#[verifier::opaque]
pub open spec fn spec_pure_part(e: Rc<Expr>) -> Rc<Expr>
{
    match e.val {
        ExprT::Cast(inner, ty) => {
            if matches!(ty.val, TypeT::SLProp) {
                inner
            } else {
                e
            }
        },
        _ => e,
    }
}

/// The truth value that a clause was made of.
pub fn pure_part(e: &Rc<Expr>) -> (out: Rc<Expr>)
    ensures
        out == spec_pure_part(*e),
{
    proof {
        reveal(spec_pure_part);
    }
    match &e.val {
        ExprT::Cast(inner, ty) => if matches!(&ty.val, TypeT::SLProp) { inner.clone() } else { e.clone() },
        _ => e.clone(),
    }
}

/// The clauses that are truth values, or those that are not.
pub open spec fn spec_clauses_that(l: Rc<List<Expr>>, pure_ones: bool) -> Rc<List<Expr>>
    decreases l,
{
    match *l {
        List::Nil => spec_nil(),
        List::Cons(h, t) => {
            if spec_is_pure_prop(h) == pure_ones {
                spec_cons(h, spec_clauses_that(t, pure_ones))
            } else {
                spec_clauses_that(t, pure_ones)
            }
        },
    }
}

/// The clauses that are truth values, or those that are not.
pub fn clauses_that(l: &Rc<List<Expr>>, pure_ones: bool) -> (out: Rc<List<Expr>>)
    ensures
        out == spec_clauses_that(*l, pure_ones),
    decreases l,
{
    match &**l {
        List::Nil => nil(),
        List::Cons(h, t) => if is_pure_prop(h) == pure_ones { cons(h.clone(), clauses_that(t, pure_ones)) } else { clauses_that(t, pure_ones) },
    }
}

/// The conjunction in a pure function's specification.
#[verifier::opaque]
pub open spec fn spec_plain_conj(l: Rc<List<DocT>>) -> Doc
{
    if spec_list_is_empty(l) {
        spec_txt("True")
    } else {
        spec_intersperse(l, spec_txt(" /\\ "))
    }
}

/// The conjunction in a pure function's specification.
pub fn plain_conj(l: &Rc<List<DocT>>) -> (out: Doc)
    ensures
        out == spec_plain_conj(*l),
{
    proof {
        reveal(spec_plain_conj);
    }
    if list_is_empty(l) { txt("True") } else { intersperse(l, &txt(" /\\ ")) }
}

/// The specification of a pure function's result.
#[verifier::opaque]
pub open spec fn spec_pure_spec(
    effect: &'static str,
    ret: Doc,
    pre: Doc,
    result: Doc,
    post: Doc,
) -> Rc<List<DocT>>
{
    let f = spec_parens(spec_d3(spec_nest(spec_group(spec_d5(spec_txt("fun"), spec_line(), result, spec_line(), spec_txt("->")))), spec_line(), post));
    spec_l4(spec_txt(effect), ret, spec_parens(spec_d3(spec_txt("requires"), spec_line(), pre)), spec_parens(spec_d3(spec_txt("ensures"), spec_line(), f)))
}

/// The specification of a pure function's result.
pub fn pure_spec(effect: &'static str, ret: Doc, pre: Doc, result: Doc, post: Doc) -> (out: Rc<List<DocT>>)
    ensures
        out == spec_pure_spec(effect, ret, pre, result, post),
{
    proof {
        reveal(spec_pure_spec);
    }
    let f = parens(d3(nest(group(d5(txt("fun"), line(), result, line(), txt("->")))), line(), post));
    l4(txt(effect), ret, parens(d3(txt("requires"), line(), pre)), parens(d3(txt("ensures"), line(), f)))
}

/// The parameters, or `()` where there is none.
#[verifier::opaque]
pub open spec fn spec_or_unit(params: Rc<List<DocT>>) -> Rc<List<DocT>>
{
    if spec_list_is_empty(params) {
        spec_l1(spec_txt("()"))
    } else {
        params
    }
}

/// The parameters, or `()` where there is none.
pub fn or_unit(params: &Rc<List<DocT>>) -> (out: Rc<List<DocT>>)
    ensures
        out == spec_or_unit(*params),
{
    proof {
        reveal(spec_or_unit);
    }
    if list_is_empty(params) { l1(txt("()")) } else { params.clone() }
}

/// `returns name : ty`.
#[verifier::opaque]
pub open spec fn spec_returns_clause(name: Doc, ty: Doc) -> Doc
{
    spec_group(spec_d3(spec_group(spec_d5(spec_txt("returns"), spec_line(), name, spec_line(), spec_txt(":"))), spec_line(), ty))
}

/// `returns name : ty`.
pub fn returns_clause(name: Doc, ty: Doc) -> (out: Doc)
    ensures
        out == spec_returns_clause(name, ty),
{
    proof {
        reveal(spec_returns_clause);
    }
    group(d3(group(d5(txt("returns"), line(), name, line(), txt(":"))), line(), ty))
}

/// The ownership of an argument at full permission.
///
/// As the state that [`Emitter::full_ownership`] leaves, with its result.
#[verifier::opaque]
pub open spec fn spec_full_ownership(
    st: Emitter,
    env: Env,
    ty: Rc<Type>,
    n: Rc<Ident>,
) -> (Emitter, Owned)
{
    spec_emit_type_slprop(st, env, ty, spec_full(), spec_owned_standard(false), spec_mk_rvar(n))
}

/// The ownership of an argument at a permission that the caller keeps.
///
/// As the state that [`Emitter::shared_ownership`] leaves, with its result.
#[verifier::opaque]
pub open spec fn spec_shared_ownership(
    st: Emitter,
    env: Env,
    ty: Rc<Type>,
    n: Rc<Ident>,
) -> (Emitter, Owned)
{
    let (st, v1) = spec_local_name(st, Name::Perm(spec_extract_base_ident(spec_mk_rvar(n)), 0));
    let perm = spec_d2(spec_txt("'"), v1);
    spec_emit_type_slprop(st, env, ty, SLPropVariant::Init { perm }, spec_owned_standard(true), spec_mk_rvar(n))
}

/// The ownership of an argument whose memory is not initialized.
///
/// As the state that [`Emitter::uninit_ownership`] leaves, with its result.
#[verifier::opaque]
pub open spec fn spec_uninit_ownership(
    st: Emitter,
    env: Env,
    ty: Rc<Type>,
    n: Rc<Ident>,
) -> (Emitter, Owned)
{
    spec_emit_type_slprop(st, env, ty, SLPropVariant::Uninit, spec_owned_standard(true), spec_mk_rvar(n))
}

/// A ghost parameter.
///
/// As the state that [`Emitter::emit_ghost_param`] leaves, with its result.
#[verifier::opaque]
pub open spec fn spec_emit_ghost_param(st: Emitter, env: Env, ga: Rc<GhostArg>) -> (Emitter, Doc)
{
    let (st, v1) = spec_emit_var_name(st, ga.name.val);
    let name = spec_annotated(ga.name.loc, v1);
    let (st, ty) = spec_emit_type(st, env, ga.ty);
    (st, spec_parens(spec_d7(spec_txt("#"), name, spec_txt(":"), spec_line(), spec_txt("erased"), spec_line(), ty)))
}

/// The ghost parameters, each in scope of those after it.
///
/// As the state that [`Emitter::emit_ghost_params`] leaves, with its result.
pub open spec fn spec_emit_ghost_params(
    st: Emitter,
    p: Params,
    l: Rc<List<GhostArg>>,
) -> (Emitter, Params)
    decreases l,
{
    match *l {
        List::Nil => (st, p),
        List::Cons(ga, t) => {
            let (st, d) = spec_emit_ghost_param(st, p.env, ga);
            let env = spec_push_var_decl(p.env, ga.name, ga.ty, LocalDeclKind::RValue);
            spec_emit_ghost_params(st, Params { env, docs: spec_list_push(p.docs, d) }, t)
        },
    }
}

/// A parameter.
///
/// As the state that [`Emitter::emit_param`] leaves, with its result.
#[verifier::opaque]
pub open spec fn spec_emit_param(st: Emitter, env: Env, arg: Rc<FnArg>, i: u64) -> (Emitter, Doc)
{
    let n = spec_arg_ident(arg, i);
    let (st, v1) = spec_emit_var_name(st, n.val);
    let name = spec_annotated(n.loc, v1);
    let (st, ty) = spec_emit_type(st, env, arg.ty);
    (st, spec_binder(name, ty))
}

/// The parameters from position `i` on, each in scope of those after it.
///
/// As the state that [`Emitter::emit_params`] leaves, with its result.
pub open spec fn spec_emit_params(
    st: Emitter,
    p: Params,
    i: u64,
    l: Rc<List<FnArg>>,
) -> (Emitter, Params)
    decreases l,
{
    match *l {
        List::Nil => (st, p),
        List::Cons(arg, t) => {
            let (st, d) = spec_emit_param(st, p.env, arg, i);
            let env = spec_push_arg(p.env, arg, LocalDeclKind::RValue);
            spec_emit_params(st, Params { env, docs: spec_list_push(p.docs, d) }, spec_bump(i), t)
        },
    }
}

/// A parameter of a signature, with the clauses that its mode asks for.
///
/// As the state that [`Emitter::sig_arg`] leaves, with its result.
#[verifier::opaque]
pub open spec fn spec_sig_arg(
    st: Emitter,
    p: SigParts,
    arg: Rc<FnArg>,
    i: u64,
) -> (Emitter, SigParts)
{
    let n = spec_arg_ident(arg, i);
    let (st, d) = spec_emit_param(st, p.env, arg, i);
    let env = spec_push_arg(p.env, arg, LocalDeclKind::RValue);
    let params = spec_list_push(p.params, d);
    match arg.mode {
        ParamMode::Regular | ParamMode::Consumed => {
            let (st, o) = spec_full_ownership(st, env, arg.ty, n);
            if spec_list_is_empty(o.props) {
                (st, SigParts { env, params, pre: p.pre, post: p.post, kept: p.kept })
            } else {
                let w = spec_wrap_exists(o.naming.bindings, o.props);
                let post = if arg.mode == ParamMode::Regular {
                    spec_list_push(p.post, w)
                } else {
                    p.post
                };
                (st, SigParts { env, params, pre: spec_list_push(p.pre, w), post, kept: p.kept })
            }
        },
        ParamMode::Const => {
            let (st, o) = spec_shared_ownership(st, env, arg.ty, n);
            (st, SigParts { env, params, pre: p.pre, post: p.post, kept: spec_list_append(p.kept, o.props) })
        },
        ParamMode::Out => {
            let (st, u) = spec_uninit_ownership(st, env, arg.ty, n);
            let (st, o) = spec_full_ownership(st, env, arg.ty, n);
            (
                st,
                SigParts { env, params, pre: if spec_list_is_empty(u.props) {
                        p.pre
                    } else {
                        spec_list_push(p.pre, spec_wrap_exists(u.naming.bindings, u.props))
                    }, post: if spec_list_is_empty(o.props) {
                        p.post
                    } else {
                        spec_list_push(p.post, spec_wrap_exists(o.naming.bindings, o.props))
                    }, kept: p.kept },
            )
        },
    }
}

/// The parameters of a signature from position `i` on.
///
/// As the state that [`Emitter::sig_args`] leaves, with its result.
pub open spec fn spec_sig_args(
    st: Emitter,
    p: SigParts,
    i: u64,
    l: Rc<List<FnArg>>,
) -> (Emitter, SigParts)
    decreases l,
{
    match *l {
        List::Nil => (st, p),
        List::Cons(arg, t) => {
            let (st, p2) = spec_sig_arg(st, p, arg, i);
            spec_sig_args(st, p2, spec_bump(i), t)
        },
    }
}

/// A signature. An interface has no measure. C functions need not terminate, so a function is
/// `divergent` unless it is `_total`.
///
/// As the state that [`Emitter::emit_fn_sig_inner`] leaves, with its result.
#[verifier::opaque]
pub open spec fn spec_emit_fn_sig_inner(
    st: Emitter,
    env: Env,
    decl: Rc<FnDecl>,
    for_interface: bool,
) -> (Emitter, Doc)
{
    let (st, g) = spec_emit_ghost_params(st, Params { env: spec_clone_env(env), docs: spec_nil() }, decl.ghost_args);
    let (st, p) = spec_sig_args(st, SigParts { env: g.env, params: g.docs, pre: spec_nil(), post: spec_nil(), kept: spec_nil() }, 0, decl.args);
    let (st, requires_docs) = spec_emit_rvalues(st, p.env, decl.requires_);
    let pre = spec_list_append(p.pre, requires_docs);
    let env2 = spec_push_return(p.env, decl.ret_type);
    let return_id = spec_mk_ident(decl.ret_type.loc, spec_lit("return"));
    let (st, o) = spec_full_ownership(st, env2, decl.ret_type, return_id);
    let post1 = if spec_list_is_empty(o.props) {
        p.post
    } else {
        spec_list_push(p.post, spec_wrap_exists(o.naming.bindings, o.props))
    };
    let (st, ret_ty) = spec_emit_type(st, env2, decl.ret_type);
    let (st, ensures_docs) = spec_emit_rvalues(st, env2, decl.ensures_);
    let post = spec_list_append(post1, ensures_docs);
    let divergent = if decl.is_total {
        spec_nil_doc()
    } else {
        spec_txt("divergent ")
    };
    let keyword = spec_d2(divergent, if decl.is_rec {
            spec_txt("fn rec")
        } else {
            spec_txt("fn")
    });
    let (st, name) = spec_emit_name(st, Name::Fn(decl.name.val));
    let hdr = spec_group(spec_d2(spec_group(spec_d3(keyword, spec_line(), name)), spec_nest(spec_lines_before(spec_or_unit(p.params)))));
    let (st, ret_name) = spec_emit_var_name(st, spec_lit("return"));
    let (st, measure) = match (decl.decreases_, for_interface) {
        (Some(dec), false) => {
            let (st, v10) = spec_emit_rvalue(st, env2, dec);
            (st, spec_d2(spec_hardline(), spec_group(spec_nest(spec_d3(spec_txt("decreases"), spec_line(), v10)))))
        },
        _ => (st, spec_nil_doc()),
    };
    (st, spec_group(spec_d7(hdr, spec_clauses("requires", pre), spec_clauses("preserves", p.kept), spec_hardline(), spec_returns_clause(ret_name, ret_ty), spec_clauses("ensures", post), measure)))
}

/// A parameter's contribution to the contract of a function pointer.
///
/// As the state that [`Emitter::core_arg`] leaves, with its result.
#[verifier::opaque]
pub open spec fn spec_core_arg(
    st: Emitter,
    env: Env,
    p: CoreParts,
    arg: Rc<FnArg>,
    n: Rc<Ident>,
) -> (Emitter, CoreParts)
{
    match arg.mode {
        ParamMode::Regular | ParamMode::Consumed => {
            let (st, o) = spec_full_ownership(st, env, arg.ty, n);
            if spec_list_is_empty(o.props) {
                (st, p)
            } else {
                let post = if arg.mode == ParamMode::Regular {
                    spec_list_push(p.post, spec_wrap_exists(o.naming.bindings, o.props))
                } else {
                    p.post
                };
                let g = Rc::new(WitnessGroup { bindings: o.naming.bindings, props: o.props });
                (st, CoreParts { post, kept: p.kept, groups: spec_list_push(p.groups, g) })
            }
        },
        ParamMode::Const => {
            let (st, o) = spec_shared_ownership(st, env, arg.ty, n);
            (st, CoreParts { post: p.post, kept: spec_list_append(p.kept, o.props), groups: p.groups })
        },
        ParamMode::Out => {
            let (st, u) = spec_uninit_ownership(st, env, arg.ty, n);
            let groups = if spec_list_is_empty(u.props) {
                p.groups
            } else {
                spec_list_push(p.groups, Rc::new(WitnessGroup { bindings: u.naming.bindings, props: u.props }))
            };
            let (st, o) = spec_full_ownership(st, env, arg.ty, n);
            let post = if spec_list_is_empty(o.props) {
                p.post
            } else {
                spec_list_push(p.post, spec_wrap_exists(o.naming.bindings, o.props))
            };
            (st, CoreParts { post, kept: p.kept, groups })
        },
    }
}

/// The parameters' contributions, from position `i` on.
///
/// As the state that [`Emitter::core_args`] leaves, with its result.
pub open spec fn spec_core_args(
    st: Emitter,
    env: Env,
    p: CoreParts,
    i: u64,
    l: Rc<List<FnArg>>,
) -> (Emitter, CoreParts)
    decreases l,
{
    match *l {
        List::Nil => (st, p),
        List::Cons(arg, t) => {
            let (st, p2) = spec_core_arg(st, env, p, arg, spec_arg_ident(arg, i));
            spec_core_args(st, env, p2, spec_bump(i), t)
        },
    }
}

/// The types of the parameters, each in scope of those after it.
///
/// As the state that [`Emitter::core_arg_types`] leaves, with its result.
pub open spec fn spec_core_arg_types(
    st: Emitter,
    p: Params,
    l: Rc<List<FnArg>>,
) -> (Emitter, Params)
    decreases l,
{
    match *l {
        List::Nil => (st, p),
        List::Cons(arg, t) => {
            let (st, d) = spec_emit_type(st, p.env, arg.ty);
            let env = spec_push_arg(p.env, arg, LocalDeclKind::RValue);
            spec_core_arg_types(st, Params { env, docs: spec_list_push(p.docs, d) }, t)
        },
    }
}

/// The names of the parameters from position `i` on.
///
/// As the state that [`Emitter::core_arg_names`] leaves, with its result.
pub open spec fn spec_core_arg_names(
    st: Emitter,
    i: u64,
    l: Rc<List<FnArg>>,
) -> (Emitter, Rc<List<DocT>>)
    decreases l,
{
    match *l {
        List::Nil => (st, spec_nil()),
        List::Cons(arg, t) => {
            let (st, d) = spec_emit_var_name(st, spec_arg_ident(arg, i).val);
            let (st, v2) = spec_core_arg_names(st, spec_bump(i), t);
            (st, spec_cons(d, v2))
        },
    }
}

/// The types and names of the ghost parameters, each in scope of those after it.
///
/// As the state that [`Emitter::core_ghosts`] leaves, with its result.
pub open spec fn spec_core_ghosts(
    st: Emitter,
    p: GhostParts,
    l: Rc<List<GhostArg>>,
) -> (Emitter, GhostParts)
    decreases l,
{
    match *l {
        List::Nil => (st, p),
        List::Cons(ga, t) => {
            let (st, ty) = spec_emit_type(st, p.env, ga.ty);
            let (st, name) = spec_emit_var_name(st, ga.name.val);
            let env = spec_push_var_decl(p.env, ga.name, ga.ty, LocalDeclKind::RValue);
            spec_core_ghosts(st, GhostParts { env, types: spec_list_push(p.types, ty), names: spec_list_push(p.names, name) }, t)
        },
    }
}

/// The truth values of clauses, in a pure position.
///
/// As the state that [`Emitter::emit_pure_props`] leaves, with its result.
pub open spec fn spec_emit_pure_props(
    st: Emitter,
    env: Env,
    l: Rc<List<Expr>>,
) -> (Emitter, Rc<List<DocT>>)
    decreases l,
{
    match *l {
        List::Nil => (st, spec_nil()),
        List::Cons(h, t) => {
            let (st, d) = spec_emit_pure_prop(st, env, h);
            let (st, v2) = spec_emit_pure_props(st, env, t);
            (st, spec_cons(d, v2))
        },
    }
}

/// The truth value of a clause, in a pure position.
///
/// As the state that [`Emitter::emit_pure_prop`] leaves, with its result.
#[verifier::opaque]
pub open spec fn spec_emit_pure_prop(st: Emitter, env: Env, e: Rc<Expr>) -> (Emitter, Doc)
{
    spec_emit_rvalue(st, env, spec_pure_part(e))
}

/// An expression as a term of type `slprop`, where a truth value is lifted by `pure`.
///
/// As the state that [`Emitter::emit_slprop_term`] leaves, with its result.
#[verifier::opaque]
pub open spec fn spec_emit_slprop_term(st: Emitter, env: Env, e: Rc<Expr>) -> (Emitter, Doc)
{
    if spec_is_pure_prop(e) {
        let (st, v1) = spec_emit_rvalue(st, env, spec_pure_part(e));
        (st, spec_unaryfn(spec_txt("pure"), v1))
    } else {
        spec_emit_rvalue(st, env, e)
    }
}

/// The contract of a function as its wrapper for use through pointers states it: over one
/// tuple of arguments and one witness, which pairs the ghost values of the arguments'
/// ownership with the ghost arguments.
///
/// The precondition binds the witness by a pattern, since that is how a caller's witness is
/// solved for; the postcondition binds the ghost arguments by projections. The postcondition's
/// truth values hold under the precondition's.
///
/// As the state that [`Emitter::emit_fnptr_spec_core`] leaves, with its result.
#[verifier::opaque]
pub open spec fn spec_emit_fnptr_spec_core(
    st: Emitter,
    env: Env,
    decl: Rc<FnDecl>,
) -> (Emitter, FnPtrSpecCore)
{
    let (st, a) = spec_core_arg_types(st, Params { env: spec_clone_env(env), docs: spec_nil() }, decl.args);
    let (st, g) = spec_core_ghosts(st, GhostParts { env: a.env, types: spec_nil(), names: spec_nil() }, decl.ghost_args);
    let ghost_names = g.names;
    let domain = spec_fnptr_domain_doc(a.docs);
    let (st, names) = spec_core_arg_names(st, 0, decl.args);
    let projs = spec_tuple_projs(0, names, spec_list_len(names));
    let (st, p) = spec_core_args(st, g.env, CoreParts { post: spec_nil(), kept: spec_nil(), groups: spec_nil() }, 0, decl.args);
    let elim_names = spec_group_names(p.groups);
    let has_witness = !spec_list_is_empty(elim_names) || !spec_list_is_empty(ghost_names);
    let witness_domain = if has_witness {
        spec_parens(spec_d3(spec_nested_pair_doc(spec_group_types(p.groups)), spec_txt(" & "), spec_nested_pair_doc(g.types)))
    } else {
        spec_txt("unit")
    };
    let reveal_y = spec_parens(spec_txt("reveal y_fp"));
    let ghost_base = spec_parens(spec_d2(spec_txt("snd "), reveal_y));
    let post_prefix = spec_ghost_prefix(spec_nil_doc(), ghost_base, ghost_names, 0, spec_list_len(ghost_names));
    let pre_prefix = if has_witness {
        let pat = spec_parens(spec_d3(spec_nested_pair_pat(elim_names), spec_txt(", "), spec_nested_pair_pat(ghost_names)));
        spec_d4(spec_txt("let "), pat, spec_txt(" = reveal y_fp in"), spec_hardline())
    } else {
        spec_nil_doc()
    };
    let witness_rewrite = if has_witness {
        let first = spec_eta_expand_doc(spec_parens(spec_d2(spec_txt("fst "), reveal_y)), spec_list_len(elim_names));
        let second = spec_eta_expand_doc(ghost_base, spec_list_len(ghost_names));
        spec_d6(spec_txt("rewrite each "), reveal_y, spec_txt(" as "), spec_parens(spec_d4(spec_txt("Mktuple2 "), first, spec_txt(" "), second)), spec_txt(";"), spec_hardline())
    } else {
        spec_nil_doc()
    };
    let pre1 = spec_list_append(spec_group_stars(p.groups), p.kept);
    let post1 = spec_list_append(p.post, p.kept);
    let (st, req_slprops) = spec_emit_rvalues(st, g.env, spec_clauses_that(decl.requires_, false));
    let (st, req_pure) = spec_emit_pure_props(st, g.env, spec_clauses_that(decl.requires_, true));
    let has_req = !spec_list_is_empty(req_pure);
    let req_conj = spec_conj(req_pure);
    let pre2 = spec_list_append(pre1, req_slprops);
    let pre = if has_req {
        spec_list_push(pre2, spec_unaryfn(spec_txt("pure"), req_conj))
    } else {
        pre2
    };
    let env2 = spec_push_return(g.env, decl.ret_type);
    let return_id = spec_mk_ident(decl.ret_type.loc, spec_lit("return"));
    let (st, ret_name) = spec_emit_var_name(st, return_id.val);
    let (st, ret_ty) = spec_emit_type(st, env2, decl.ret_type);
    let (st, o) = spec_full_ownership(st, env2, decl.ret_type, return_id);
    let post2 = if spec_list_is_empty(o.props) {
        post1
    } else {
        spec_list_push(post1, spec_wrap_exists(o.naming.bindings, o.props))
    };
    let (st, ens_slprops) = spec_emit_rvalues(st, env2, spec_clauses_that(decl.ensures_, false));
    let (st, ens_pure) = spec_emit_pure_props(st, env2, spec_clauses_that(decl.ensures_, true));
    let post3 = spec_list_append(post2, ens_slprops);
    let post = if spec_list_is_empty(ens_pure) {
        post3
    } else {
        let ens_conj = spec_conj(ens_pure);
        let implied = if has_req {
            spec_parens(spec_d3(req_conj, spec_txt(" ==> "), ens_conj))
        } else {
            ens_conj
        };
        spec_list_push(post3, spec_unaryfn(spec_txt("pure"), implied))
    };
    let (st, wrap_name) = spec_fnptr_wrap_name(st, decl.name.val);
    let (st, callee) = spec_emit_name(st, Name::Fn(decl.name.val));
    let prefix = spec_bind_prefix(spec_nil_doc(), names, projs);
    (st, FnPtrSpecCore { pre_expr: spec_parens(spec_unaryfn(spec_txt("Pulse.Lib.C.FuncPtr.prevent_lifting"), spec_parens(spec_d3(prefix, pre_prefix, spec_mk_star(pre))))), post_expr: spec_parens(spec_d3(prefix, post_prefix, spec_mk_star(post))), wrap_name, callee, domain, witness_domain, witness_rewrite, ret_name, ret_ty, projs })
}

/// The wrapper of a function whose address is taken: it calls the function with the
/// components of its argument.
///
/// As the state that [`Emitter::emit_fnptr_triple`] leaves, with its result.
#[verifier::opaque]
pub open spec fn spec_emit_fnptr_triple(
    st: Emitter,
    env: Env,
    decl: Rc<FnDecl>,
) -> (Emitter, FnPtrModule)
{
    let (st, c) = spec_emit_fnptr_spec_core(st, env, decl);
    let head = spec_d7(spec_txt(if decl.is_total {
                "fn "
            } else {
                "divergent fn "
        }), c.wrap_name, spec_txt(" (x_fp: "), c.domain, spec_txt(") (y_fp: erased "), c.witness_domain, spec_txt(")"));
    let sig = spec_d8(spec_d4(head, spec_hardline(), spec_txt("  requires "), spec_nest(c.pre_expr)), spec_hardline(), spec_txt("  returns "), c.ret_name, spec_txt(" : "), c.ret_ty, spec_d2(spec_hardline(), spec_txt("  ensures ")), spec_nest(c.post_expr));
    let fsti = spec_d3(spec_hardline(), spec_hardline(), sig);
    let call = if spec_list_is_empty(c.projs) {
        spec_d2(c.callee, spec_txt(" ()"))
    } else {
        spec_d3(c.callee, spec_txt(" "), spec_intersperse(c.projs, spec_txt(" ")))
    };
    let fst = spec_d9(spec_hardline(), spec_hardline(), sig, spec_hardline(), spec_txt("{"), spec_hardline(), spec_nest(spec_d3(spec_txt("  "), c.witness_rewrite, call)), spec_hardline(), spec_txt("}"));
    (st, FnPtrModule { fst, fsti })
}

/// A declaration: the signature, with a body that is never reached.
///
/// As the state that [`Emitter::emit_fn_decl`] leaves, with its result.
#[verifier::opaque]
pub open spec fn spec_emit_fn_decl(st: Emitter, env: Env, decl: Rc<FnDecl>) -> (Emitter, Doc)
{
    let (st, sig) = spec_emit_fn_sig_inner(st, env, decl, false);
    (st, spec_d3(spec_nest(sig), spec_hardline(), spec_txt("{ assume pure False; unreachable () }")))
}

/// The parameters as variables of the body.
///
/// As the state that [`Emitter::emit_arg_redecls`] leaves, with its result.
pub open spec fn spec_emit_arg_redecls(st: Emitter, acc: Doc, l: Rc<List<FnArg>>) -> (Emitter, Doc)
    decreases l,
{
    match *l {
        List::Nil => (st, acc),
        List::Cons(arg, t) => {
            match arg.name {
                Some(n) => {
                    let (st, name) = spec_emit_var_name(st, n.val);
                    let d = spec_annotated(n.loc, spec_group(spec_d5(spec_txt("let mut "), name, spec_txt(" = "), name, spec_txt(";"))));
                    spec_emit_arg_redecls(st, spec_d2(acc, spec_d2(spec_line(), d)), t)
                },
                None => spec_emit_arg_redecls(st, acc, t),
            }
        },
    }
}

/// A function.
///
/// As the state that [`Emitter::emit_fn_defn`] leaves, with its result.
#[verifier::opaque]
pub open spec fn spec_emit_fn_defn(st: Emitter, env: Env, f: Rc<FnDefn>) -> (Emitter, Doc)
{
    if f.decl.is_pure {
        spec_emit_pure_fn(st, env, f.decl, f.body)
    } else {
        let st = Emitter { current_fn_total: f.decl.is_total, ..st };
        let (st, sig) = spec_emit_fn_sig_inner(st, env, f.decl, false);
        let (st, redecls) = spec_emit_arg_redecls(st, spec_nil_doc(), f.decl.args);
        let (st, body) = spec_emit_stmts(st, spec_push_fn_decl_args_for_body(env, f.decl), f.body);
        (st, spec_d3(spec_nest(sig), spec_hardline(), spec_group(spec_block(spec_d2(redecls, body)))))
    }
}

/// Reports a parameter type that a pure function cannot have.
///
/// As the state that [`Emitter::check_pure_type`] leaves.
pub open spec fn spec_check_pure_type(st: Emitter, ty: Rc<Type>) -> Emitter
    decreases ty,
{
    match ty.val {
        TypeT::Pointer(_, _) => spec_report(st, spec_lit("pointer parameters are not supported in pure functions"), ty.loc),
        TypeT::FixedArray(_, _) => spec_report(st, spec_lit("array parameters are not supported in pure functions"), ty.loc),
        TypeT::FlexArray(_) => spec_report(st, spec_lit("flexible array members are not supported in pure functions"), ty.loc),
        TypeT::FnPtr { .. } => spec_report(st, spec_lit("function-pointer parameters are not supported in pure functions"), ty.loc),
        TypeT::Refine(t, _) | TypeT::RefineAlways(t, _) | TypeT::RefineUninit(t, _) => spec_check_pure_type(st, t),
        TypeT::RefineValue(t, _, _, _) => spec_check_pure_type(st, t),
        TypeT::Plain(t) | TypeT::Nullable(t) => spec_check_pure_type(st, t),
        _ => st,
    }
}

/// Reports the parameter types that a pure function cannot have.
///
/// As the state that [`Emitter::check_pure_types`] leaves.
pub open spec fn spec_check_pure_types(st: Emitter, l: Rc<List<FnArg>>) -> Emitter
    decreases l,
{
    match *l {
        List::Nil => st,
        List::Cons(arg, t) => {
            let st = spec_check_pure_type(st, arg.ty);
            let st = spec_check_pure_types(st, t);
            st
        },
    }
}

/// A pure function: a definition whose body is an expression.
///
/// As the state that [`Emitter::emit_pure_fn`] leaves, with its result.
#[verifier::opaque]
pub open spec fn spec_emit_pure_fn(
    st: Emitter,
    env: Env,
    decl: Rc<FnDecl>,
    body: Rc<List<Stmt>>,
) -> (Emitter, Doc)
{
    let (st, g) = spec_emit_ghost_params(st, Params { env: spec_clone_env(env), docs: spec_nil() }, decl.ghost_args);
    let (st, p) = spec_emit_params(st, g, 0, decl.args);
    let (st, pre) = spec_emit_pure_props(st, p.env, decl.requires_);
    let st = spec_check_pure_types(st, decl.args);
    let (st, ret_ty) = spec_emit_type(st, p.env, decl.ret_type);
    let env2 = spec_push_return(p.env, decl.ret_type);
    let (st, post) = spec_emit_pure_props(st, env2, decl.ensures_);
    let (st, body_doc) = spec_emit_pure_body(st, env2, body, spec_stmts_size(body));
    let has_specs = !spec_list_is_empty(pre) || !spec_list_is_empty(post);
    let (st, ty) = if has_specs || (decl.is_rec && decl.decreases_.is_some()) {
        let (st, result) = spec_emit_var_name(st, spec_lit("return"));
        let args = spec_pure_spec("Pure", ret_ty, spec_plain_conj(pre), result, spec_plain_conj(post));
        match decl.decreases_ {
            Some(dec) => {
                let (st, v9) = spec_emit_rvalue(st, env2, dec);
                let m = spec_parens(spec_d3(spec_txt("decreases"), spec_line(), v9));
                (st, spec_naryfn(spec_list_push(args, m)))
            },
            None => (st, spec_naryfn(args)),
        }
    } else {
        (st, ret_ty)
    };
    let (st, name) = spec_emit_name(st, Name::Fn(decl.name.val));
    (st, spec_mk_let_rec(decl.is_rec, name, spec_or_unit(p.docs), ty, body_doc))
}

/// A specification function.
///
/// As the state that [`Emitter::emit_let_decl`] leaves, with its result.
#[verifier::opaque]
pub open spec fn spec_emit_let_decl(st: Emitter, env: Env, d: Rc<LetDecl>) -> (Emitter, Doc)
{
    if d.is_impure {
        spec_emit_letimpure_decl(st, env, d)
    } else {
        let (st, p) = spec_emit_params(st, Params { env: spec_clone_env(env), docs: spec_nil() }, 0, d.params);
        let (st, pre) = spec_emit_pure_props(st, p.env, d.requires_);
        let (st, ret_ty) = spec_emit_type(st, p.env, d.ret_type);
        let env2 = spec_push_return(p.env, d.ret_type);
        let (st, post) = spec_emit_pure_props(st, env2, d.ensures_);
        let (st, ty) = if !spec_list_is_empty(pre) || !spec_list_is_empty(post) {
            let (st, result) = spec_emit_var_name(st, spec_lit("return"));
            (st, spec_naryfn(spec_pure_spec("Ghost", ret_ty, spec_plain_conj(pre), result, spec_plain_conj(post))))
        } else {
            (st, spec_unaryfn(spec_txt("GTot"), ret_ty))
        };
        let (st, body) = if matches!(d.ret_type.val, TypeT::SLProp) {
            spec_emit_slprop_term(st, env2, d.body)
        } else {
            spec_emit_rvalue(st, env2, d.body)
        };
        let (st, name) = spec_emit_name(st, Name::Fn(d.name.val));
        (st, spec_mk_let_rec(d.is_rec, name, spec_or_unit(p.docs), ty, body))
    }
}

/// A parameter of a specification function that reads memory, with its ownership.
///
/// As the state that [`Emitter::impure_arg`] leaves, with its result.
#[verifier::opaque]
pub open spec fn spec_impure_arg(
    st: Emitter,
    p: SigParts,
    arg: Rc<FnArg>,
    i: u64,
) -> (Emitter, SigParts)
{
    let n = spec_arg_ident(arg, i);
    let (st, v1) = spec_local_name(st, Name::Var(n.val));
    let name = spec_annotated(n.loc, v1);
    let (st, ty) = spec_emit_type(st, p.env, arg.ty);
    let env = spec_push_arg(p.env, arg, LocalDeclKind::RValue);
    let params = spec_list_push(p.params, spec_binder(name, ty));
    let (st, pre) = if arg.mode == ParamMode::Const {
        let (st, o) = spec_shared_ownership(st, env, arg.ty, n);
        (st, spec_list_append(p.pre, o.props))
    } else {
        let (st, o) = spec_full_ownership(st, env, arg.ty, n);
        if spec_list_is_empty(o.props) {
            (st, p.pre)
        } else {
            (st, spec_list_push(p.pre, spec_wrap_exists(o.naming.bindings, o.props)))
        }
    };
    (st, SigParts { env, params, pre, post: p.post, kept: p.kept })
}

/// The parameters of a specification function that reads memory, from position `i` on.
///
/// As the state that [`Emitter::impure_args`] leaves, with its result.
pub open spec fn spec_impure_args(
    st: Emitter,
    p: SigParts,
    i: u64,
    l: Rc<List<FnArg>>,
) -> (Emitter, SigParts)
    decreases l,
{
    match *l {
        List::Nil => (st, p),
        List::Cons(arg, t) => {
            let (st, p2) = spec_impure_arg(st, p, arg, i);
            spec_impure_args(st, p2, spec_bump(i), t)
        },
    }
}

/// A specification function that reads memory: it stands for its body in specifications, and
/// cannot be run.
///
/// As the state that [`Emitter::emit_letimpure_decl`] leaves, with its result.
#[verifier::opaque]
pub open spec fn spec_emit_letimpure_decl(st: Emitter, env: Env, d: Rc<LetDecl>) -> (Emitter, Doc)
{
    let (st, p) = spec_impure_args(st, SigParts { env: spec_clone_env(env), params: spec_nil(), pre: spec_nil(), post: spec_nil(), kept: spec_nil() }, 0, d.params);
    let (st, ret_ty) = spec_emit_type(st, p.env, d.ret_type);
    let env2 = spec_push_return(p.env, d.ret_type);
    let (st, body) = spec_emit_rvalue(st, env2, d.body);
    let (st, result) = spec_local_name(st, Name::Var(spec_lit("return")));
    let rewrites = spec_d5(spec_txt("rewrites_to"), spec_line(), result, spec_line(), spec_parens(spec_d3(spec_txt("old"), spec_line(), body)));
    let (st, name) = spec_local_name(st, Name::Fn(d.name.val));
    let hdr = spec_group(spec_d2(spec_group(spec_d3(spec_txt("ghost fn"), spec_line(), name)), spec_nest(spec_lines_before(spec_or_unit(p.params)))));
    let pre = spec_list_push(p.pre, spec_txt("pure False"));
    let sig = spec_group(spec_d5(hdr, spec_clauses("requires", pre), spec_hardline(), spec_returns_clause(result, ret_ty), spec_clauses("ensures", spec_l1(rewrites))));
    (st, spec_d3(spec_nest(sig), spec_hardline(), spec_txt("{ unreachable () }")))
}

/// A global's address: an assumed `ref`, one per global, and that it is not null. A `_pure`
/// global also gets the acquire that hands out *read-only* ownership of its storage, at a
/// permission that stays existential: acquired often enough, any fixed one would add up to
/// more than there is. A mutable global has no value to speak of, and no acquire.
///
/// As the state that [`Emitter::emit_global_addr`] leaves, with its result.
#[verifier::opaque]
pub open spec fn spec_emit_global_addr(
    st: Emitter,
    env: Env,
    gv: Rc<GlobalVar>,
) -> (Emitter, Option<Doc>)
{
    if spec_global_var_is_array(gv) || gv.is_enum_constant {
        (st, None)
    } else {
        let (st, addr) = spec_emit_name(st, Name::GlobalAddr(gv.name.val));
        let (st, ty) = spec_emit_type(st, env, gv.ty);
        let ref_ty = spec_parens(spec_nest(spec_d3(spec_txt("ref"), spec_line(), ty)));
        let addr_val = spec_d4(spec_txt("assume val "), addr, spec_txt(" : "), ref_ty);
        let (st, not_null_name) = spec_emit_name(st, Name::GlobalAddrNotNull(gv.name.val));
        let not_null = spec_d5(spec_txt("assume val "), not_null_name, spec_txt(" : squash (~(Pulse.Lib.Reference.is_null "), addr, spec_txt("))"));
        if !gv.is_pure {
            (st, Some(spec_d3(addr_val, spec_hardline(), not_null)))
        } else {
            let (st, var) = spec_emit_var_name(st, gv.name.val);
            let pts_to = spec_naryfn(spec_l4(spec_txt("Pulse.Lib.Reference.pts_to"), addr, spec_d2(spec_txt("#"), spec_txt("p")), var));
            let (st, acquire) = spec_emit_name(st, Name::GlobalAcquire(gv.name.val));
            let owned = spec_wrap_exists(spec_l1(Rc::new(ExBinding { name: spec_txt("p"), ty: spec_txt("perm") })), spec_l1(pts_to));
            let decl = spec_mk_assume_val(spec_nil(), acquire, spec_nil(), spec_naryfn(spec_l7(spec_txt("unit"), spec_txt("->"), spec_txt("stt_ghost"), spec_txt("unit"), spec_txt("emp_inames"), spec_txt("emp"), spec_mk_thunk(owned))));
            (st, Some(spec_d5(addr_val, spec_hardline(), not_null, spec_hardline(), decl)))
        }
    }
}

/// A global. One of another translation unit has an assumed value, since only a tentative
/// definition is sure to be zero.
///
/// As the state that [`Emitter::emit_global_var`] leaves, with its result.
#[verifier::opaque]
pub open spec fn spec_emit_global_var(st: Emitter, env: Env, gv: Rc<GlobalVar>) -> (Emitter, Doc)
{
    if !gv.is_pure {
        let (st, v1) = spec_emit_global_addr(st, env, gv);
        match v1 {
            Some(addr) => (st, addr),
            None => {
                let st = spec_report(st, spec_lit("non-pure array globals are not yet supported"), gv.name.loc);
                (st, spec_nil_doc())
            },
        }
    } else {
        let (st, name) = spec_emit_var_name(st, gv.name.val);
        let (st, ty) = spec_emit_type(st, env, gv.ty);
        let (st, def) = if gv.is_external {
            (st, spec_mk_assume_val(spec_nil(), name, spec_nil(), ty))
        } else {
            let (st, body) = match gv.init {
                Some(init) => spec_emit_rvalue(st, env, init),
                None => spec_emit_type_default(st, env, gv.ty),
            };
            (st, spec_mk_let(name, spec_nil(), ty, body))
        };
        let full_def = if gv.opaque_to_smt {
            spec_d3(spec_txt("[@@\"opaque_to_smt\"]"), spec_hardline(), def)
        } else {
            def
        };
        let (st, v6) = spec_emit_global_addr(st, env, gv);
        match v6 {
            Some(addr) => (st, spec_d3(full_def, spec_hardline(), addr)),
            None => (st, full_def),
        }
    }
}

/// An opaque type.
///
/// As the state that [`Emitter::emit_opaque_type`] leaves, with its result.
#[verifier::opaque]
pub open spec fn spec_emit_opaque_type(
    st: Emitter,
    env: Env,
    d: Rc<OpaqueTypeDecl>,
) -> (Emitter, Doc)
{
    let (st, t) = spec_emit_name(st, Name::TypeRef(TypeRef::Typedef(d.name.val)));
    let (st, v2) = spec_emit_tokens(st, env, d.code.tokens);
    let body = spec_concat(v2);
    (st, spec_d3(spec_txt("unfold"), spec_line(), spec_mk_let(t, spec_nil(), spec_txt("Type"), body)))
}

/// A declaration.
///
/// As the state that [`Emitter::emit_decl`] leaves, with its result.
#[verifier::opaque]
pub open spec fn spec_emit_decl(st: Emitter, env: Env, decl: Rc<Decl>) -> (Emitter, Doc)
{
    let (st, d) = match decl.val {
        DeclT::FnDefn(f) => spec_emit_fn_defn(st, env, f),
        DeclT::FnDecl(f) => spec_emit_fn_decl(st, env, f),
        DeclT::Typedef(t) => spec_emit_typedef(st, env, t),
        DeclT::StructDefn(s) => spec_emit_structdefn(st, env, s),
        DeclT::StructDecl(n) => spec_emit_struct_decl(st, n),
        DeclT::UnionDefn(u) => spec_emit_uniondefn(st, env, u),
        DeclT::IncludeDecl(i) => {
            let (st, v2) = spec_emit_tokens(st, env, i.code.tokens);
            (st, spec_concat(v2))
        },
        DeclT::LetDecl(l) => spec_emit_let_decl(st, env, l),
        DeclT::OpaqueTypeDecl(o) => spec_emit_opaque_type(st, env, o),
        DeclT::GlobalVar(g) => spec_emit_global_var(st, env, g),
    };
    (st, spec_annotated(decl.loc, d))
}

impl Emitter {
    /// The ownership of an argument at full permission.
    pub fn full_ownership(&mut self, env: &Env, ty: &Rc<Type>, n: &Rc<Ident>) -> (out: Owned)
        ensures
            (*final(self), out) == spec_full_ownership(*old(self), *env, *ty, *n),
            extends(final(self).diags, old(self).diags),
            final(self).fn_module_map == old(self).fn_module_map,
            final(self).typedef_override_map == old(self).typedef_override_map,
    {
        proof {
            reveal(spec_full_ownership);
        }
        self.emit_type_slprop(env, ty, &full(), owned_standard(false), &mk_rvar(n))
    }

    /// The ownership of an argument at a permission that the caller keeps.
    pub fn shared_ownership(&mut self, env: &Env, ty: &Rc<Type>, n: &Rc<Ident>) -> (out: Owned)
        ensures
            (*final(self), out) == spec_shared_ownership(*old(self), *env, *ty, *n),
            extends(final(self).diags, old(self).diags),
            final(self).fn_module_map == old(self).fn_module_map,
            final(self).typedef_override_map == old(self).typedef_override_map,
    {
        proof {
            reveal(spec_shared_ownership);
        }
        let perm = d2(txt("'"), self.local_name(Name::Perm(extract_base_ident(&mk_rvar(n)), 0)));
        self.emit_type_slprop(env, ty, &SLPropVariant::Init { perm }, owned_standard(true), &mk_rvar(n))
    }

    /// The ownership of an argument whose memory is not initialized.
    pub fn uninit_ownership(&mut self, env: &Env, ty: &Rc<Type>, n: &Rc<Ident>) -> (out: Owned)
        ensures
            (*final(self), out) == spec_uninit_ownership(*old(self), *env, *ty, *n),
            extends(final(self).diags, old(self).diags),
            final(self).fn_module_map == old(self).fn_module_map,
            final(self).typedef_override_map == old(self).typedef_override_map,
    {
        proof {
            reveal(spec_uninit_ownership);
        }
        self.emit_type_slprop(env, ty, &SLPropVariant::Uninit, owned_standard(true), &mk_rvar(n))
    }

    /// A ghost parameter.
    pub fn emit_ghost_param(&mut self, env: &Env, ga: &Rc<GhostArg>) -> (out: Doc)
        ensures
            (*final(self), out) == spec_emit_ghost_param(*old(self), *env, *ga),
            extends(final(self).diags, old(self).diags),
            final(self).fn_module_map == old(self).fn_module_map,
            final(self).typedef_override_map == old(self).typedef_override_map,
    {
        proof {
            reveal(spec_emit_ghost_param);
        }
        let name = annotated(&ga.name.loc, self.emit_var_name(&ga.name.val));
        let ty = self.emit_type(env, &ga.ty);
        parens(d7(txt("#"), name, txt(":"), line(), txt("erased"), line(), ty))
    }

    /// The ghost parameters, each in scope of those after it.
    pub fn emit_ghost_params(&mut self, p: Params, l: &Rc<List<GhostArg>>) -> (out: Params)
        ensures
            (*final(self), out) == spec_emit_ghost_params(*old(self), p, *l),
            extends(final(self).diags, old(self).diags),
            final(self).fn_module_map == old(self).fn_module_map,
            final(self).typedef_override_map == old(self).typedef_override_map,
        decreases l,
    {
        match &**l {
            List::Nil => p,
            List::Cons(ga, t) => {
                let d = self.emit_ghost_param(&p.env, ga);
                let env = push_var_decl(&p.env, &ga.name, ga.ty.clone(), LocalDeclKind::RValue);
                self.emit_ghost_params(Params { env, docs: list_push(&p.docs, d) }, t)
            }
        }
    }

    /// A parameter.
    pub fn emit_param(&mut self, env: &Env, arg: &Rc<FnArg>, i: u64) -> (out: Doc)
        ensures
            (*final(self), out) == spec_emit_param(*old(self), *env, *arg, i),
            extends(final(self).diags, old(self).diags),
            final(self).fn_module_map == old(self).fn_module_map,
            final(self).typedef_override_map == old(self).typedef_override_map,
    {
        proof {
            reveal(spec_emit_param);
        }
        let n = arg_ident(arg, i);
        let name = annotated(&n.loc, self.emit_var_name(&n.val));
        let ty = self.emit_type(env, &arg.ty);
        binder(name, ty)
    }

    /// The parameters from position `i` on, each in scope of those after it.
    pub fn emit_params(&mut self, p: Params, i: u64, l: &Rc<List<FnArg>>) -> (out: Params)
        ensures
            (*final(self), out) == spec_emit_params(*old(self), p, i, *l),
            extends(final(self).diags, old(self).diags),
            final(self).fn_module_map == old(self).fn_module_map,
            final(self).typedef_override_map == old(self).typedef_override_map,
        decreases l,
    {
        match &**l {
            List::Nil => p,
            List::Cons(arg, t) => {
                let d = self.emit_param(&p.env, arg, i);
                let env = push_arg(&p.env, arg, LocalDeclKind::RValue);
                self.emit_params(Params { env, docs: list_push(&p.docs, d) }, bump(i), t)
            }
        }
    }

    /// A parameter of a signature, with the clauses that its mode asks for.
    pub fn sig_arg(&mut self, p: SigParts, arg: &Rc<FnArg>, i: u64) -> (out: SigParts)
        ensures
            (*final(self), out) == spec_sig_arg(*old(self), p, *arg, i),
            extends(final(self).diags, old(self).diags),
            final(self).fn_module_map == old(self).fn_module_map,
            final(self).typedef_override_map == old(self).typedef_override_map,
    {
        proof {
            reveal(spec_sig_arg);
        }
        let n = arg_ident(arg, i);
        let d = self.emit_param(&p.env, arg, i);
        let env = push_arg(&p.env, arg, LocalDeclKind::RValue);
        let params = list_push(&p.params, d);
        match arg.mode {
            ParamMode::Regular | ParamMode::Consumed => {
                let o = self.full_ownership(&env, &arg.ty, &n);
                if list_is_empty(&o.props) {
                    SigParts { env, params, pre: p.pre, post: p.post, kept: p.kept }
                } else {
                    let w = wrap_exists(&o.naming.bindings, &o.props);
                    let post = if arg.mode == ParamMode::Regular { list_push(&p.post, w.clone()) } else { p.post };
                    SigParts { env, params, pre: list_push(&p.pre, w), post, kept: p.kept }
                }
            }
            ParamMode::Const => {
                let o = self.shared_ownership(&env, &arg.ty, &n);
                SigParts { env, params, pre: p.pre, post: p.post, kept: list_append(&p.kept, o.props) }
            }
            ParamMode::Out => {
                let u = self.uninit_ownership(&env, &arg.ty, &n);
                let o = self.full_ownership(&env, &arg.ty, &n);
                SigParts {
                    env,
                    params,
                    pre: if list_is_empty(&u.props) { p.pre } else { list_push(&p.pre, wrap_exists(&u.naming.bindings, &u.props)) },
                    post: if list_is_empty(&o.props) { p.post } else { list_push(&p.post, wrap_exists(&o.naming.bindings, &o.props)) },
                    kept: p.kept,
                }
            }
        }
    }

    /// The parameters of a signature from position `i` on.
    pub fn sig_args(&mut self, p: SigParts, i: u64, l: &Rc<List<FnArg>>) -> (out: SigParts)
        ensures
            (*final(self), out) == spec_sig_args(*old(self), p, i, *l),
            extends(final(self).diags, old(self).diags),
            final(self).fn_module_map == old(self).fn_module_map,
            final(self).typedef_override_map == old(self).typedef_override_map,
        decreases l,
    {
        match &**l {
            List::Nil => p,
            List::Cons(arg, t) => {
                let p2 = self.sig_arg(p, arg, i);
                self.sig_args(p2, bump(i), t)
            }
        }
    }

    /// A signature. An interface has no measure. C functions need not terminate, so a function is
    /// `divergent` unless it is `_total`.
    pub fn emit_fn_sig_inner(&mut self, env: &Env, decl: &Rc<FnDecl>, for_interface: bool) -> (out: Doc)
        ensures
            (*final(self), out) == spec_emit_fn_sig_inner(*old(self), *env, *decl, for_interface),
            extends(final(self).diags, old(self).diags),
            final(self).fn_module_map == old(self).fn_module_map,
            final(self).typedef_override_map == old(self).typedef_override_map,
    {
        proof {
            reveal(spec_emit_fn_sig_inner);
        }
        let g = self.emit_ghost_params(Params { env: clone_env(env), docs: nil() }, &decl.ghost_args);
        let p = self.sig_args(SigParts { env: g.env, params: g.docs, pre: nil(), post: nil(), kept: nil() }, 0, &decl.args);
        let requires_docs = self.emit_rvalues(&p.env, &decl.requires_);
        let pre = list_append(&p.pre, requires_docs);
        let env2 = push_return(&p.env, decl.ret_type.clone());
        let return_id = mk_ident(&decl.ret_type.loc, lit("return"));
        let o = self.full_ownership(&env2, &decl.ret_type, &return_id);
        let post1 = if list_is_empty(&o.props) { p.post } else { list_push(&p.post, wrap_exists(&o.naming.bindings, &o.props)) };
        let ret_ty = self.emit_type(&env2, &decl.ret_type);
        let ensures_docs = self.emit_rvalues(&env2, &decl.ensures_);
        let post = list_append(&post1, ensures_docs);
        let divergent = if decl.is_total { nil_doc() } else { txt("divergent ") };
        let keyword = d2(divergent, if decl.is_rec { txt("fn rec") } else { txt("fn") });
        let name = self.emit_name(Name::Fn(decl.name.val.clone()));
        let hdr = group(d2(group(d3(keyword, line(), name)), nest(lines_before(&or_unit(&p.params)))));
        let ret_name = self.emit_var_name(&lit("return"));
        let measure = match (&decl.decreases_, for_interface) {
            (Some(dec), false) => d2(hardline(), group(nest(d3(txt("decreases"), line(), self.emit_rvalue(&env2, dec))))),
            _ => nil_doc(),
        };
        group(d7(hdr, clauses("requires", &pre), clauses("preserves", &p.kept), hardline(), returns_clause(ret_name, ret_ty),
            clauses("ensures", &post), measure))
    }

    /// A parameter's contribution to the contract of a function pointer.
    pub fn core_arg(&mut self, env: &Env, p: CoreParts, arg: &Rc<FnArg>, n: &Rc<Ident>) -> (out: CoreParts)
        ensures
            (*final(self), out) == spec_core_arg(*old(self), *env, p, *arg, *n),
            extends(final(self).diags, old(self).diags),
            final(self).fn_module_map == old(self).fn_module_map,
            final(self).typedef_override_map == old(self).typedef_override_map,
    {
        proof {
            reveal(spec_core_arg);
        }
        match arg.mode {
            ParamMode::Regular | ParamMode::Consumed => {
                let o = self.full_ownership(env, &arg.ty, n);
                if list_is_empty(&o.props) {
                    p
                } else {
                    let post = if arg.mode == ParamMode::Regular { list_push(&p.post, wrap_exists(&o.naming.bindings, &o.props)) } else { p.post };
                    let g = Rc::new(WitnessGroup { bindings: o.naming.bindings, props: o.props });
                    CoreParts { post, kept: p.kept, groups: list_push(&p.groups, g) }
                }
            }
            ParamMode::Const => {
                let o = self.shared_ownership(env, &arg.ty, n);
                CoreParts { post: p.post, kept: list_append(&p.kept, o.props), groups: p.groups }
            }
            ParamMode::Out => {
                let u = self.uninit_ownership(env, &arg.ty, n);
                let groups = if list_is_empty(&u.props) {
                    p.groups
                } else {
                    list_push(&p.groups, Rc::new(WitnessGroup { bindings: u.naming.bindings, props: u.props }))
                };
                let o = self.full_ownership(env, &arg.ty, n);
                let post = if list_is_empty(&o.props) { p.post } else { list_push(&p.post, wrap_exists(&o.naming.bindings, &o.props)) };
                CoreParts { post, kept: p.kept, groups }
            }
        }
    }

    /// The parameters' contributions, from position `i` on.
    pub fn core_args(&mut self, env: &Env, p: CoreParts, i: u64, l: &Rc<List<FnArg>>) -> (out: CoreParts)
        ensures
            (*final(self), out) == spec_core_args(*old(self), *env, p, i, *l),
            extends(final(self).diags, old(self).diags),
            final(self).fn_module_map == old(self).fn_module_map,
            final(self).typedef_override_map == old(self).typedef_override_map,
        decreases l,
    {
        match &**l {
            List::Nil => p,
            List::Cons(arg, t) => {
                let p2 = self.core_arg(env, p, arg, &arg_ident(arg, i));
                self.core_args(env, p2, bump(i), t)
            }
        }
    }

    /// The types of the parameters, each in scope of those after it.
    pub fn core_arg_types(&mut self, p: Params, l: &Rc<List<FnArg>>) -> (out: Params)
        ensures
            (*final(self), out) == spec_core_arg_types(*old(self), p, *l),
            extends(final(self).diags, old(self).diags),
            final(self).fn_module_map == old(self).fn_module_map,
            final(self).typedef_override_map == old(self).typedef_override_map,
        decreases l,
    {
        match &**l {
            List::Nil => p,
            List::Cons(arg, t) => {
                let d = self.emit_type(&p.env, &arg.ty);
                let env = push_arg(&p.env, arg, LocalDeclKind::RValue);
                self.core_arg_types(Params { env, docs: list_push(&p.docs, d) }, t)
            }
        }
    }

    /// The names of the parameters from position `i` on.
    pub fn core_arg_names(&mut self, i: u64, l: &Rc<List<FnArg>>) -> (out: Rc<List<DocT>>)
        ensures
            (*final(self), out) == spec_core_arg_names(*old(self), i, *l),
            extends(final(self).diags, old(self).diags),
            final(self).fn_module_map == old(self).fn_module_map,
            final(self).typedef_override_map == old(self).typedef_override_map,
        decreases l,
    {
        match &**l {
            List::Nil => nil(),
            List::Cons(arg, t) => {
                let d = self.emit_var_name(&arg_ident(arg, i).val);
                cons(d, self.core_arg_names(bump(i), t))
            }
        }
    }

    /// The types and names of the ghost parameters, each in scope of those after it.
    pub fn core_ghosts(&mut self, p: GhostParts, l: &Rc<List<GhostArg>>) -> (out: GhostParts)
        ensures
            (*final(self), out) == spec_core_ghosts(*old(self), p, *l),
            extends(final(self).diags, old(self).diags),
            final(self).fn_module_map == old(self).fn_module_map,
            final(self).typedef_override_map == old(self).typedef_override_map,
        decreases l,
    {
        match &**l {
            List::Nil => p,
            List::Cons(ga, t) => {
                let ty = self.emit_type(&p.env, &ga.ty);
                let name = self.emit_var_name(&ga.name.val);
                let env = push_var_decl(&p.env, &ga.name, ga.ty.clone(), LocalDeclKind::RValue);
                self.core_ghosts(GhostParts { env, types: list_push(&p.types, ty), names: list_push(&p.names, name) }, t)
            }
        }
    }

    /// The truth values of clauses, in a pure position.
    pub fn emit_pure_props(&mut self, env: &Env, l: &Rc<List<Expr>>) -> (out: Rc<List<DocT>>)
        ensures
            (*final(self), out) == spec_emit_pure_props(*old(self), *env, *l),
            extends(final(self).diags, old(self).diags),
            final(self).fn_module_map == old(self).fn_module_map,
            final(self).typedef_override_map == old(self).typedef_override_map,
        decreases l,
    {
        match &**l {
            List::Nil => nil(),
            List::Cons(h, t) => {
                let d = self.emit_pure_prop(env, h);
                cons(d, self.emit_pure_props(env, t))
            }
        }
    }

    /// The truth value of a clause, in a pure position.
    pub fn emit_pure_prop(&mut self, env: &Env, e: &Rc<Expr>) -> (out: Doc)
        ensures
            (*final(self), out) == spec_emit_pure_prop(*old(self), *env, *e),
            extends(final(self).diags, old(self).diags),
            final(self).fn_module_map == old(self).fn_module_map,
            final(self).typedef_override_map == old(self).typedef_override_map,
    {
        proof {
            reveal(spec_emit_pure_prop);
        }
        self.emit_rvalue(env, &pure_part(e))
    }

    /// An expression as a term of type `slprop`, where a truth value is lifted by `pure`.
    pub fn emit_slprop_term(&mut self, env: &Env, e: &Rc<Expr>) -> (out: Doc)
        ensures
            (*final(self), out) == spec_emit_slprop_term(*old(self), *env, *e),
            extends(final(self).diags, old(self).diags),
            final(self).fn_module_map == old(self).fn_module_map,
            final(self).typedef_override_map == old(self).typedef_override_map,
    {
        proof {
            reveal(spec_emit_slprop_term);
        }
        if is_pure_prop(e) { unaryfn(txt("pure"), self.emit_rvalue(env, &pure_part(e))) } else { self.emit_rvalue(env, e) }
    }

    /// The contract of a function as its wrapper for use through pointers states it: over one
    /// tuple of arguments and one witness, which pairs the ghost values of the arguments'
    /// ownership with the ghost arguments.
    ///
    /// The precondition binds the witness by a pattern, since that is how a caller's witness is
    /// solved for; the postcondition binds the ghost arguments by projections. The postcondition's
    /// truth values hold under the precondition's.
    pub fn emit_fnptr_spec_core(&mut self, env: &Env, decl: &Rc<FnDecl>) -> (out: FnPtrSpecCore)
        ensures
            (*final(self), out) == spec_emit_fnptr_spec_core(*old(self), *env, *decl),
            extends(final(self).diags, old(self).diags),
            final(self).fn_module_map == old(self).fn_module_map,
            final(self).typedef_override_map == old(self).typedef_override_map,
    {
        proof {
            reveal(spec_emit_fnptr_spec_core);
        }
        let a = self.core_arg_types(Params { env: clone_env(env), docs: nil() }, &decl.args);
        let g = self.core_ghosts(GhostParts { env: a.env, types: nil(), names: nil() }, &decl.ghost_args);
        let ghost_names = g.names.clone();
        let domain = fnptr_domain_doc(&a.docs);
        let names = self.core_arg_names(0, &decl.args);
        let projs = tuple_projs(0, &names, list_len(&names));
        let p = self.core_args(&g.env, CoreParts { post: nil(), kept: nil(), groups: nil() }, 0, &decl.args);
        let elim_names = group_names(&p.groups);
        let has_witness = !list_is_empty(&elim_names) || !list_is_empty(&ghost_names);
        let witness_domain = if has_witness {
            parens(d3(nested_pair_doc(&group_types(&p.groups)), txt(" & "), nested_pair_doc(&g.types)))
        } else {
            txt("unit")
        };
        let reveal_y = parens(txt("reveal y_fp"));
        let ghost_base = parens(d2(txt("snd "), reveal_y.clone()));
        let post_prefix = ghost_prefix(nil_doc(), &ghost_base, &ghost_names, 0, list_len(&ghost_names));
        let pre_prefix = if has_witness {
            let pat = parens(d3(nested_pair_pat(&elim_names), txt(", "), nested_pair_pat(&ghost_names)));
            d4(txt("let "), pat, txt(" = reveal y_fp in"), hardline())
        } else {
            nil_doc()
        };
        let witness_rewrite = if has_witness {
            let first = eta_expand_doc(parens(d2(txt("fst "), reveal_y.clone())), list_len(&elim_names));
            let second = eta_expand_doc(ghost_base, list_len(&ghost_names));
            d6(txt("rewrite each "), reveal_y, txt(" as "), parens(d4(txt("Mktuple2 "), first, txt(" "), second)), txt(";"), hardline())
        } else {
            nil_doc()
        };
        let pre1 = list_append(&group_stars(&p.groups), p.kept.clone());
        let post1 = list_append(&p.post, p.kept);
        let req_slprops = self.emit_rvalues(&g.env, &clauses_that(&decl.requires_, false));
        let req_pure = self.emit_pure_props(&g.env, &clauses_that(&decl.requires_, true));
        let has_req = !list_is_empty(&req_pure);
        let req_conj = conj(&req_pure);
        let pre2 = list_append(&pre1, req_slprops);
        let pre = if has_req { list_push(&pre2, unaryfn(txt("pure"), req_conj.clone())) } else { pre2 };
        let env2 = push_return(&g.env, decl.ret_type.clone());
        let return_id = mk_ident(&decl.ret_type.loc, lit("return"));
        let ret_name = self.emit_var_name(&return_id.val);
        let ret_ty = self.emit_type(&env2, &decl.ret_type);
        let o = self.full_ownership(&env2, &decl.ret_type, &return_id);
        let post2 = if list_is_empty(&o.props) { post1 } else { list_push(&post1, wrap_exists(&o.naming.bindings, &o.props)) };
        let ens_slprops = self.emit_rvalues(&env2, &clauses_that(&decl.ensures_, false));
        let ens_pure = self.emit_pure_props(&env2, &clauses_that(&decl.ensures_, true));
        let post3 = list_append(&post2, ens_slprops);
        let post = if list_is_empty(&ens_pure) {
            post3
        } else {
            let ens_conj = conj(&ens_pure);
            let implied = if has_req { parens(d3(req_conj, txt(" ==> "), ens_conj)) } else { ens_conj };
            list_push(&post3, unaryfn(txt("pure"), implied))
        };
        let wrap_name = self.fnptr_wrap_name(&decl.name.val);
        let callee = self.emit_name(Name::Fn(decl.name.val.clone()));
        let prefix = bind_prefix(nil_doc(), &names, &projs);
        FnPtrSpecCore {
            // The identity `prevent_lifting` keeps a pure conjunct from becoming a parameter.
            pre_expr: parens(unaryfn(txt("Pulse.Lib.C.FuncPtr.prevent_lifting"), parens(d3(prefix.clone(), pre_prefix, mk_star(&pre))))),
            post_expr: parens(d3(prefix, post_prefix, mk_star(&post))),
            wrap_name,
            callee,
            domain,
            witness_domain,
            witness_rewrite,
            ret_name,
            ret_ty,
            projs,
        }
    }

    /// The wrapper of a function whose address is taken: it calls the function with the
    /// components of its argument.
    pub fn emit_fnptr_triple(&mut self, env: &Env, decl: &Rc<FnDecl>) -> (out: FnPtrModule)
        ensures
            (*final(self), out) == spec_emit_fnptr_triple(*old(self), *env, *decl),
            extends(final(self).diags, old(self).diags),
            final(self).fn_module_map == old(self).fn_module_map,
            final(self).typedef_override_map == old(self).typedef_override_map,
    {
        proof {
            reveal(spec_emit_fnptr_triple);
        }
        let c = self.emit_fnptr_spec_core(env, decl);
        let head = d7(txt(if decl.is_total { "fn " } else { "divergent fn " }), c.wrap_name, txt(" (x_fp: "), c.domain,
            txt(") (y_fp: erased "), c.witness_domain, txt(")"));
        let sig = d8(d4(head, hardline(), txt("  requires "), nest(c.pre_expr)), hardline(), txt("  returns "), c.ret_name, txt(" : "), c.ret_ty,
            d2(hardline(), txt("  ensures ")), nest(c.post_expr));
        let fsti = d3(hardline(), hardline(), sig.clone());
        let call = if list_is_empty(&c.projs) {
            d2(c.callee, txt(" ()"))
        } else {
            d3(c.callee, txt(" "), intersperse(&c.projs, &txt(" ")))
        };
        let fst = d9(hardline(), hardline(), sig, hardline(), txt("{"), hardline(), nest(d3(txt("  "), c.witness_rewrite, call)), hardline(), txt("}"));
        FnPtrModule { fst, fsti }
    }

    /// A declaration: the signature, with a body that is never reached.
    pub fn emit_fn_decl(&mut self, env: &Env, decl: &Rc<FnDecl>) -> (out: Doc)
        ensures
            (*final(self), out) == spec_emit_fn_decl(*old(self), *env, *decl),
            extends(final(self).diags, old(self).diags),
            final(self).fn_module_map == old(self).fn_module_map,
            final(self).typedef_override_map == old(self).typedef_override_map,
    {
        proof {
            reveal(spec_emit_fn_decl);
        }
        let sig = self.emit_fn_sig_inner(env, decl, false);
        d3(nest(sig), hardline(), txt("{ assume pure False; unreachable () }"))
    }

    /// The parameters as variables of the body.
    pub fn emit_arg_redecls(&mut self, acc: Doc, l: &Rc<List<FnArg>>) -> (out: Doc)
        ensures
            (*final(self), out) == spec_emit_arg_redecls(*old(self), acc, *l),
            extends(final(self).diags, old(self).diags),
            final(self).fn_module_map == old(self).fn_module_map,
            final(self).typedef_override_map == old(self).typedef_override_map,
        decreases l,
    {
        match &**l {
            List::Nil => acc,
            List::Cons(arg, t) => match &arg.name {
                Some(n) => {
                    let name = self.emit_var_name(&n.val);
                    let d = annotated(&n.loc, group(d5(txt("let mut "), name.clone(), txt(" = "), name, txt(";"))));
                    self.emit_arg_redecls(d2(acc, d2(line(), d)), t)
                }
                None => self.emit_arg_redecls(acc, t),
            },
        }
    }

    /// A function.
    pub fn emit_fn_defn(&mut self, env: &Env, f: &Rc<FnDefn>) -> (out: Doc)
        ensures
            (*final(self), out) == spec_emit_fn_defn(*old(self), *env, *f),
            extends(final(self).diags, old(self).diags),
            final(self).fn_module_map == old(self).fn_module_map,
            final(self).typedef_override_map == old(self).typedef_override_map,
    {
        proof {
            reveal(spec_emit_fn_defn);
        }
        if f.decl.is_pure {
            self.emit_pure_fn(env, &f.decl, &f.body)
        } else {
            self.current_fn_total = f.decl.is_total;
            let sig = self.emit_fn_sig_inner(env, &f.decl, false);
            let redecls = self.emit_arg_redecls(nil_doc(), &f.decl.args);
            let body = self.emit_stmts(&push_fn_decl_args_for_body(env, &f.decl), &f.body);
            d3(nest(sig), hardline(), group(block(d2(redecls, body))))
        }
    }

    /// Reports a parameter type that a pure function cannot have.
    pub fn check_pure_type(&mut self, ty: &Rc<Type>)
        ensures
            *final(self) == spec_check_pure_type(*old(self), *ty),
            extends(final(self).diags, old(self).diags),
            final(self).fn_module_map == old(self).fn_module_map,
            final(self).typedef_override_map == old(self).typedef_override_map,
        decreases ty,
    {
        match &ty.val {
            TypeT::Pointer(_, _) => self.report(lit("pointer parameters are not supported in pure functions"), &ty.loc),
            TypeT::FixedArray(_, _) => self.report(lit("array parameters are not supported in pure functions"), &ty.loc),
            TypeT::FlexArray(_) => self.report(lit("flexible array members are not supported in pure functions"), &ty.loc),
            TypeT::FnPtr { .. } => self.report(lit("function-pointer parameters are not supported in pure functions"), &ty.loc),
            TypeT::Refine(t, _) | TypeT::RefineAlways(t, _) | TypeT::RefineUninit(t, _) => self.check_pure_type(t),
            TypeT::RefineValue(t, _, _, _) => self.check_pure_type(t),
            TypeT::Plain(t) | TypeT::Nullable(t) => self.check_pure_type(t),
            _ => (),
        }
    }

    /// Reports the parameter types that a pure function cannot have.
    pub fn check_pure_types(&mut self, l: &Rc<List<FnArg>>)
        ensures
            *final(self) == spec_check_pure_types(*old(self), *l),
            extends(final(self).diags, old(self).diags),
            final(self).fn_module_map == old(self).fn_module_map,
            final(self).typedef_override_map == old(self).typedef_override_map,
        decreases l,
    {
        match &**l {
            List::Nil => (),
            List::Cons(arg, t) => {
                self.check_pure_type(&arg.ty);
                self.check_pure_types(t);
            }
        }
    }

    /// A pure function: a definition whose body is an expression.
    pub fn emit_pure_fn(&mut self, env: &Env, decl: &Rc<FnDecl>, body: &Rc<List<Stmt>>) -> (out: Doc)
        ensures
            (*final(self), out) == spec_emit_pure_fn(*old(self), *env, *decl, *body),
            extends(final(self).diags, old(self).diags),
            final(self).fn_module_map == old(self).fn_module_map,
            final(self).typedef_override_map == old(self).typedef_override_map,
    {
        proof {
            reveal(spec_emit_pure_fn);
        }
        let g = self.emit_ghost_params(Params { env: clone_env(env), docs: nil() }, &decl.ghost_args);
        let p = self.emit_params(g, 0, &decl.args);
        let pre = self.emit_pure_props(&p.env, &decl.requires_);
        self.check_pure_types(&decl.args);
        let ret_ty = self.emit_type(&p.env, &decl.ret_type);
        let env2 = push_return(&p.env, decl.ret_type.clone());
        let post = self.emit_pure_props(&env2, &decl.ensures_);
        let body_doc = self.emit_pure_body(&env2, body, stmts_size(body));
        let has_specs = !list_is_empty(&pre) || !list_is_empty(&post);
        let ty = if has_specs || (decl.is_rec && decl.decreases_.is_some()) {
            let result = self.emit_var_name(&lit("return"));
            let args = pure_spec("Pure", ret_ty, plain_conj(&pre), result, plain_conj(&post));
            match &decl.decreases_ {
                Some(dec) => {
                    let m = parens(d3(txt("decreases"), line(), self.emit_rvalue(&env2, dec)));
                    naryfn(&list_push(&args, m))
                }
                None => naryfn(&args),
            }
        } else {
            ret_ty
        };
        let name = self.emit_name(Name::Fn(decl.name.val.clone()));
        mk_let_rec(decl.is_rec, name, &or_unit(&p.docs), ty, body_doc)
    }

    /// A specification function.
    pub fn emit_let_decl(&mut self, env: &Env, d: &Rc<LetDecl>) -> (out: Doc)
        ensures
            (*final(self), out) == spec_emit_let_decl(*old(self), *env, *d),
            extends(final(self).diags, old(self).diags),
            final(self).fn_module_map == old(self).fn_module_map,
            final(self).typedef_override_map == old(self).typedef_override_map,
    {
        proof {
            reveal(spec_emit_let_decl);
        }
        if d.is_impure {
            self.emit_letimpure_decl(env, d)
        } else {
            let p = self.emit_params(Params { env: clone_env(env), docs: nil() }, 0, &d.params);
            let pre = self.emit_pure_props(&p.env, &d.requires_);
            let ret_ty = self.emit_type(&p.env, &d.ret_type);
            let env2 = push_return(&p.env, d.ret_type.clone());
            let post = self.emit_pure_props(&env2, &d.ensures_);
            let ty = if !list_is_empty(&pre) || !list_is_empty(&post) {
                let result = self.emit_var_name(&lit("return"));
                naryfn(&pure_spec("Ghost", ret_ty, plain_conj(&pre), result, plain_conj(&post)))
            } else {
                unaryfn(txt("GTot"), ret_ty)
            };
            let body = if matches!(&d.ret_type.val, TypeT::SLProp) {
                self.emit_slprop_term(&env2, &d.body)
            } else {
                self.emit_rvalue(&env2, &d.body)
            };
            let name = self.emit_name(Name::Fn(d.name.val.clone()));
            mk_let_rec(d.is_rec, name, &or_unit(&p.docs), ty, body)
        }
    }

    /// A parameter of a specification function that reads memory, with its ownership.
    pub fn impure_arg(&mut self, p: SigParts, arg: &Rc<FnArg>, i: u64) -> (out: SigParts)
        ensures
            (*final(self), out) == spec_impure_arg(*old(self), p, *arg, i),
            extends(final(self).diags, old(self).diags),
            final(self).fn_module_map == old(self).fn_module_map,
            final(self).typedef_override_map == old(self).typedef_override_map,
    {
        proof {
            reveal(spec_impure_arg);
        }
        let n = arg_ident(arg, i);
        let name = annotated(&n.loc, self.local_name(Name::Var(n.val.clone())));
        let ty = self.emit_type(&p.env, &arg.ty);
        let env = push_arg(&p.env, arg, LocalDeclKind::RValue);
        let params = list_push(&p.params, binder(name, ty));
        let pre = if arg.mode == ParamMode::Const {
            let o = self.shared_ownership(&env, &arg.ty, &n);
            list_append(&p.pre, o.props)
        } else {
            let o = self.full_ownership(&env, &arg.ty, &n);
            if list_is_empty(&o.props) { p.pre } else { list_push(&p.pre, wrap_exists(&o.naming.bindings, &o.props)) }
        };
        SigParts { env, params, pre, post: p.post, kept: p.kept }
    }

    /// The parameters of a specification function that reads memory, from position `i` on.
    pub fn impure_args(&mut self, p: SigParts, i: u64, l: &Rc<List<FnArg>>) -> (out: SigParts)
        ensures
            (*final(self), out) == spec_impure_args(*old(self), p, i, *l),
            extends(final(self).diags, old(self).diags),
            final(self).fn_module_map == old(self).fn_module_map,
            final(self).typedef_override_map == old(self).typedef_override_map,
        decreases l,
    {
        match &**l {
            List::Nil => p,
            List::Cons(arg, t) => {
                let p2 = self.impure_arg(p, arg, i);
                self.impure_args(p2, bump(i), t)
            }
        }
    }

    /// A specification function that reads memory: it stands for its body in specifications, and
    /// cannot be run.
    pub fn emit_letimpure_decl(&mut self, env: &Env, d: &Rc<LetDecl>) -> (out: Doc)
        ensures
            (*final(self), out) == spec_emit_letimpure_decl(*old(self), *env, *d),
            extends(final(self).diags, old(self).diags),
            final(self).fn_module_map == old(self).fn_module_map,
            final(self).typedef_override_map == old(self).typedef_override_map,
    {
        proof {
            reveal(spec_emit_letimpure_decl);
        }
        let p = self.impure_args(SigParts { env: clone_env(env), params: nil(), pre: nil(), post: nil(), kept: nil() }, 0, &d.params);
        let ret_ty = self.emit_type(&p.env, &d.ret_type);
        let env2 = push_return(&p.env, d.ret_type.clone());
        let body = self.emit_rvalue(&env2, &d.body);
        let result = self.local_name(Name::Var(lit("return")));
        let rewrites = d5(txt("rewrites_to"), line(), result.clone(), line(), parens(d3(txt("old"), line(), body)));
        let name = self.local_name(Name::Fn(d.name.val.clone()));
        let hdr = group(d2(group(d3(txt("ghost fn"), line(), name)), nest(lines_before(&or_unit(&p.params)))));
        let pre = list_push(&p.pre, txt("pure False"));
        let sig = group(d5(hdr, clauses("requires", &pre), hardline(), returns_clause(result, ret_ty), clauses("ensures", &l1(rewrites))));
        d3(nest(sig), hardline(), txt("{ unreachable () }"))
    }

    /// A global's address: an assumed `ref`, one per global, and that it is not null. A `_pure`
    /// global also gets the acquire that hands out *read-only* ownership of its storage, at a
    /// permission that stays existential: acquired often enough, any fixed one would add up to
    /// more than there is. A mutable global has no value to speak of, and no acquire.
    pub fn emit_global_addr(&mut self, env: &Env, gv: &Rc<GlobalVar>) -> (out: Option<Doc>)
        ensures
            (*final(self), out) == spec_emit_global_addr(*old(self), *env, *gv),
            extends(final(self).diags, old(self).diags),
            final(self).fn_module_map == old(self).fn_module_map,
            final(self).typedef_override_map == old(self).typedef_override_map,
    {
        proof {
            reveal(spec_emit_global_addr);
        }
        if global_var_is_array(gv) || gv.is_enum_constant {
            None
        } else {
            let addr = self.emit_name(Name::GlobalAddr(gv.name.val.clone()));
            let ty = self.emit_type(env, &gv.ty);
            let ref_ty = parens(nest(d3(txt("ref"), line(), ty)));
            let addr_val = d4(txt("assume val "), addr.clone(), txt(" : "), ref_ty);
            let not_null_name = self.emit_name(Name::GlobalAddrNotNull(gv.name.val.clone()));
            let not_null = d5(txt("assume val "), not_null_name, txt(" : squash (~(Pulse.Lib.Reference.is_null "), addr.clone(), txt("))"));
            if !gv.is_pure {
                Some(d3(addr_val, hardline(), not_null))
            } else {
                let var = self.emit_var_name(&gv.name.val);
                let pts_to = naryfn(&l4(txt("Pulse.Lib.Reference.pts_to"), addr, d2(txt("#"), txt("p")), var));
                let acquire = self.emit_name(Name::GlobalAcquire(gv.name.val.clone()));
                let owned = wrap_exists(&l1(Rc::new(ExBinding { name: txt("p"), ty: txt("perm") })), &l1(pts_to));
                let decl = mk_assume_val(&nil(), acquire, &nil(), naryfn(&l7(txt("unit"), txt("->"), txt("stt_ghost"), txt("unit"),
                    txt("emp_inames"), txt("emp"), mk_thunk(owned))));
                Some(d5(addr_val, hardline(), not_null, hardline(), decl))
            }
        }
    }

    /// A global. One of another translation unit has an assumed value, since only a tentative
    /// definition is sure to be zero.
    pub fn emit_global_var(&mut self, env: &Env, gv: &Rc<GlobalVar>) -> (out: Doc)
        ensures
            (*final(self), out) == spec_emit_global_var(*old(self), *env, *gv),
            extends(final(self).diags, old(self).diags),
            final(self).fn_module_map == old(self).fn_module_map,
            final(self).typedef_override_map == old(self).typedef_override_map,
    {
        proof {
            reveal(spec_emit_global_var);
        }
        if !gv.is_pure {
            match self.emit_global_addr(env, gv) {
                Some(addr) => addr,
                None => {
                    self.report(lit("non-pure array globals are not yet supported"), &gv.name.loc);
                    nil_doc()
                }
            }
        } else {
            let name = self.emit_var_name(&gv.name.val);
            let ty = self.emit_type(env, &gv.ty);
            let def = if gv.is_external {
                mk_assume_val(&nil(), name, &nil(), ty)
            } else {
                let body = match &gv.init {
                    Some(init) => self.emit_rvalue(env, init),
                    None => self.emit_type_default(env, &gv.ty),
                };
                mk_let(name, &nil(), ty, body)
            };
            let full_def = if gv.opaque_to_smt { d3(txt("[@@\"opaque_to_smt\"]"), hardline(), def) } else { def };
            match self.emit_global_addr(env, gv) {
                Some(addr) => d3(full_def, hardline(), addr),
                None => full_def,
            }
        }
    }

    /// An opaque type.
    pub fn emit_opaque_type(&mut self, env: &Env, d: &Rc<OpaqueTypeDecl>) -> (out: Doc)
        ensures
            (*final(self), out) == spec_emit_opaque_type(*old(self), *env, *d),
            extends(final(self).diags, old(self).diags),
            final(self).fn_module_map == old(self).fn_module_map,
            final(self).typedef_override_map == old(self).typedef_override_map,
    {
        proof {
            reveal(spec_emit_opaque_type);
        }
        let t = self.emit_name(Name::TypeRef(TypeRef::Typedef(d.name.val.clone())));
        let body = concat(&self.emit_tokens(env, &d.code.tokens));
        d3(txt("unfold"), line(), mk_let(t, &nil(), txt("Type"), body))
    }

    /// A declaration.
    pub fn emit_decl(&mut self, env: &Env, decl: &Rc<Decl>) -> (out: Doc)
        ensures
            (*final(self), out) == spec_emit_decl(*old(self), *env, *decl),
            extends(final(self).diags, old(self).diags),
            final(self).fn_module_map == old(self).fn_module_map,
            final(self).typedef_override_map == old(self).typedef_override_map,
    {
        proof {
            reveal(spec_emit_decl);
        }
        let d = match &decl.val {
            DeclT::FnDefn(f) => self.emit_fn_defn(env, f),
            DeclT::FnDecl(f) => self.emit_fn_decl(env, f),
            DeclT::Typedef(t) => self.emit_typedef(env, t),
            DeclT::StructDefn(s) => self.emit_structdefn(env, s),
            DeclT::StructDecl(n) => self.emit_struct_decl(n),
            DeclT::UnionDefn(u) => self.emit_uniondefn(env, u),
            DeclT::IncludeDecl(i) => concat(&self.emit_tokens(env, &i.code.tokens)),
            DeclT::LetDecl(l) => self.emit_let_decl(env, l),
            DeclT::OpaqueTypeDecl(o) => self.emit_opaque_type(env, o),
            DeclT::GlobalVar(g) => self.emit_global_var(env, g),
        };
        annotated(&decl.loc, d)
    }
}

} // verus!
