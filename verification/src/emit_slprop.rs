//! Ownership: the separation-logic propositions that come with types.

use crate::list::{
    List, cons, drop_one, l2, l3, l4, list_append, list_len, list_push, nil, spec_cons,
    spec_drop_one, spec_l2, spec_l3, spec_l4, spec_list_append, spec_list_len, spec_list_push,
    spec_nil,
};
use crate::text::{
    Rope, Text, cat3, lit, num, same_text, spec_cat3, spec_lit, spec_num, spec_same_text,
    spec_text_is, text_is,
};
use crate::ir::{
    BinOp, Expr, ExprT, Field, FieldInit, Ident, InlinePulseCode, InlinePulseToken, PointerKind,
    Type, TypeRefKind, TypeT, UnOp, VAttr, field_is_array, field_name, field_type, mk_expr,
    mk_rvar, spec_field_is_array, spec_field_name, spec_field_type, spec_mk_expr, spec_mk_rvar,
    spec_with_child, spec_with_child_and_type, spec_with_children, spec_with_list,
    spec_with_three, with_child, with_child_and_type, with_children, with_list, with_three,
};
use crate::diag::extends;
use crate::doc::{
    Doc, DocT, annotated, d2, d3, naryfn, parens, spec_annotated, spec_d2, spec_d3, spec_naryfn,
    spec_parens, spec_text_doc, spec_txt, spec_unaryfn, text_doc, txt, unaryfn,
};
use crate::env::{
    Env, LocalDeclKind, lookup_struct, push_var_decl, spec_lookup_struct, spec_push_var_decl,
};
use crate::names::{
    Name, TypeRef, bind, clone_type_ref, find_mangled, spec_bind, spec_clone_type_ref,
    spec_find_mangled, spec_text_in, spec_type_ref, text_in, type_ref,
};
use crate::emit_base::{
    Emitter, ExBinding, ValParams, binder_args, binding_types, extract_base_ident,
    find_val_params, mk_eager_unfold_slprop, mk_star, spec_binder_args, spec_binding_types,
    spec_emit_name, spec_extract_base_ident, spec_find_val_params, spec_local_name,
    spec_mk_eager_unfold_slprop, spec_mk_star,
};
use crate::emit_types::spec_emit_type;
use crate::emit_exprs::spec_emit_rvalue;
use std::rc::Rc;
use vstd::prelude::*;

verus! {

broadcast use crate::diag::lemma_extends_trans;

/// The spec record that a struct's predicate takes its ghost values from.
pub struct SpecCtx {
    pub spec_param: Doc,
    pub type_ref: TypeRef,
    pub field_name: Text,
}

/// How ghost values are named: on their own, or as fields of a spec record; and those named
/// so far.
pub struct Naming {
    pub spec: Option<Rc<SpecCtx>>,
    pub quote: bool,
    pub bindings: Rc<List<ExBinding>>,
}

/// Whether the ownership is of initialized memory, at some permission.
pub enum SLPropVariant {
    Init { perm: Doc },
    Uninit,
}

/// The propositions of a type, and the ghost values that they speak of.
pub struct Owned {
    pub naming: Naming,
    pub props: Rc<List<DocT>>,
}

/// No proposition yet, with ghost values that have names of their own.
#[verifier::opaque]
pub open spec fn spec_owned_standard(quote: bool) -> Owned
{
    Owned { naming: Naming { spec: None, quote, bindings: spec_nil() }, props: spec_nil() }
}

/// No proposition yet, with ghost values that have names of their own.
pub fn owned_standard(quote: bool) -> (out: Owned)
    ensures
        out == spec_owned_standard(quote),
{
    proof {
        reveal(spec_owned_standard);
    }
    Owned { naming: Naming { spec: None, quote, bindings: nil() }, props: nil() }
}

/// One more proposition.
#[verifier::opaque]
pub open spec fn spec_push_prop(o: Owned, d: Doc) -> Owned
{
    Owned { naming: o.naming, props: spec_list_push(o.props, d) }
}

/// One more proposition.
pub fn push_prop(o: Owned, d: Doc) -> (out: Owned)
    ensures
        out == spec_push_prop(o, d),
{
    proof {
        reveal(spec_push_prop);
    }
    Owned { naming: o.naming, props: list_push(&o.props, d) }
}

/// One more ghost value.
#[verifier::opaque]
pub open spec fn spec_push_binding(o: Owned, name: Doc, ty: Doc) -> Owned
{
    Owned { naming: Naming { spec: o.naming.spec, quote: o.naming.quote, bindings: spec_list_push(o.naming.bindings, Rc::new(ExBinding { name, ty })) }, props: o.props }
}

/// One more ghost value.
pub fn push_binding(o: Owned, name: Doc, ty: Doc) -> (out: Owned)
    ensures
        out == spec_push_binding(o, name, ty),
{
    proof {
        reveal(spec_push_binding);
    }
    Owned {
        naming: Naming {
            spec: o.naming.spec,
            quote: o.naming.quote,
            bindings: list_push(&o.naming.bindings, Rc::new(ExBinding { name, ty })),
        },
        props: o.props,
    }
}

/// `this` replaced in the expression.
pub open spec fn spec_subst_this(e: Rc<Expr>, this: Rc<Expr>) -> Rc<Expr>
    decreases e, 0nat,
{
    match e.val {
        ExprT::Var(x) => {
            if spec_text_is(x.val, "this") {
                this
            } else {
                e
            }
        },
        ExprT::Deref(a) | ExprT::Ref(a) | ExprT::Member(a, _) | ExprT::VAttr(_, a) => spec_with_child(e, spec_subst_this(a, this)),
        ExprT::UnOp(_, a) | ExprT::Cast(a, _) | ExprT::Live(a) | ExprT::Old(a) => spec_with_child(e, spec_subst_this(a, this)),
        ExprT::Forall(_, _, a) | ExprT::Exists(_, _, a) | ExprT::UnionInit(_, _, a) => spec_with_child(e, spec_subst_this(a, this)),
        ExprT::MallocArray(_, a) | ExprT::CallocArray(_, a) | ExprT::MallocFlex(_, a) => spec_with_child(e, spec_subst_this(a, this)),
        ExprT::CallocFlex(_, a) | ExprT::MemsetZero(_, a) | ExprT::Free(a) => spec_with_child(e, spec_subst_this(a, this)),
        ExprT::ContainerOf(a, _, _) | ExprT::PreIncr(a) | ExprT::PostIncr(a) => spec_with_child(e, spec_subst_this(a, this)),
        ExprT::PreDecr(a) | ExprT::PostDecr(a) => spec_with_child(e, spec_subst_this(a, this)),
        ExprT::Index(a, b) | ExprT::BinOp(_, a, b) | ExprT::AssignExpr(a, b) => spec_with_children(e, spec_subst_this(a, this), spec_subst_this(b, this)),
        ExprT::Cond(a, b, c) | ExprT::Memset(_, a, b, c) => spec_with_three(e, spec_subst_this(a, this), spec_subst_this(b, this), spec_subst_this(c, this)),
        ExprT::FnCall(_, l) | ExprT::ArrayInit { elems: l, .. } => spec_with_list(e, spec_subst_this_all(l, this)),
        ExprT::FnPtrCall(f, args) => spec_mk_expr(e.loc, ExprT::FnPtrCall(spec_subst_this(f, this), spec_subst_this_all(args, this))),
        ExprT::InlinePulse(code, t) => spec_mk_expr(e.loc, ExprT::InlinePulse(Rc::new(InlinePulseCode { tokens: spec_subst_this_tokens(code.tokens, this) }), t)),
        ExprT::StructInit(n, inits) => spec_mk_expr(e.loc, ExprT::StructInit(n, spec_subst_this_inits(inits, this))),
        _ => e,
    }
}

/// `this` replaced in the expression.
pub fn subst_this(e: &Rc<Expr>, this: &Rc<Expr>) -> (out: Rc<Expr>)
    ensures
        out == spec_subst_this(*e, *this),
    decreases e, 0nat,
{
    match &e.val {
        ExprT::Var(x) => if text_is(&x.val, "this") { this.clone() } else { e.clone() },
        ExprT::Deref(a) | ExprT::Ref(a) | ExprT::Member(a, _) | ExprT::VAttr(_, a) => with_child(e, subst_this(a, this)),
        ExprT::UnOp(_, a) | ExprT::Cast(a, _) | ExprT::Live(a) | ExprT::Old(a) => with_child(e, subst_this(a, this)),
        ExprT::Forall(_, _, a) | ExprT::Exists(_, _, a) | ExprT::UnionInit(_, _, a) => with_child(e, subst_this(a, this)),
        ExprT::MallocArray(_, a) | ExprT::CallocArray(_, a) | ExprT::MallocFlex(_, a) => with_child(e, subst_this(a, this)),
        ExprT::CallocFlex(_, a) | ExprT::MemsetZero(_, a) | ExprT::Free(a) => with_child(e, subst_this(a, this)),
        ExprT::ContainerOf(a, _, _) | ExprT::PreIncr(a) | ExprT::PostIncr(a) => with_child(e, subst_this(a, this)),
        ExprT::PreDecr(a) | ExprT::PostDecr(a) => with_child(e, subst_this(a, this)),
        ExprT::Index(a, b) | ExprT::BinOp(_, a, b) | ExprT::AssignExpr(a, b) => with_children(e, subst_this(a, this), subst_this(b, this)),
        ExprT::Cond(a, b, c) | ExprT::Memset(_, a, b, c) => with_three(e, subst_this(a, this), subst_this(b, this), subst_this(c, this)),
        ExprT::FnCall(_, l) | ExprT::ArrayInit { elems: l, .. } => with_list(e, subst_this_all(l, this)),
        ExprT::FnPtrCall(f, args) => mk_expr(&e.loc, ExprT::FnPtrCall(subst_this(f, this), subst_this_all(args, this))),
        ExprT::InlinePulse(code, t) => mk_expr(&e.loc, ExprT::InlinePulse(
            Rc::new(InlinePulseCode { tokens: subst_this_tokens(&code.tokens, this) }), t.clone())),
        ExprT::StructInit(n, inits) => mk_expr(&e.loc, ExprT::StructInit(n.clone(), subst_this_inits(inits, this))),
        _ => e.clone(),
    }
}

/// `this` replaced in expressions.
pub open spec fn spec_subst_this_all(l: Rc<List<Expr>>, this: Rc<Expr>) -> Rc<List<Expr>>
    decreases l, 0nat,
{
    match *l {
        List::Nil => spec_nil(),
        List::Cons(h, t) => spec_cons(spec_subst_this(h, this), spec_subst_this_all(t, this)),
    }
}

/// `this` replaced in expressions.
pub fn subst_this_all(l: &Rc<List<Expr>>, this: &Rc<Expr>) -> (out: Rc<List<Expr>>)
    ensures
        out == spec_subst_this_all(*l, *this),
    decreases l, 0nat,
{
    match &**l {
        List::Nil => nil(),
        List::Cons(h, t) => cons(subst_this(h, this), subst_this_all(t, this)),
    }
}

/// `this` replaced in a field's value.
pub open spec fn spec_subst_this_init(i: Rc<FieldInit>, this: Rc<Expr>) -> Rc<FieldInit>
    decreases i, 0nat,
{
    Rc::new(FieldInit { name: i.name, value: spec_subst_this(i.value, this) })
}

/// `this` replaced in a field's value.
pub fn subst_this_init(i: &Rc<FieldInit>, this: &Rc<Expr>) -> (out: Rc<FieldInit>)
    ensures
        out == spec_subst_this_init(*i, *this),
    decreases i, 0nat,
{
    Rc::new(FieldInit { name: i.name.clone(), value: subst_this(&i.value, this) })
}

/// `this` replaced in the values of fields.
pub open spec fn spec_subst_this_inits(
    l: Rc<List<FieldInit>>,
    this: Rc<Expr>,
) -> Rc<List<FieldInit>>
    decreases l, 0nat,
{
    match *l {
        List::Nil => spec_nil(),
        List::Cons(h, t) => spec_cons(spec_subst_this_init(h, this), spec_subst_this_inits(t, this)),
    }
}

/// `this` replaced in the values of fields.
pub fn subst_this_inits(l: &Rc<List<FieldInit>>, this: &Rc<Expr>) -> (out: Rc<List<FieldInit>>)
    ensures
        out == spec_subst_this_inits(*l, *this),
    decreases l, 0nat,
{
    match &**l {
        List::Nil => nil(),
        List::Cons(h, t) => cons(subst_this_init(h, this), subst_this_inits(t, this)),
    }
}

/// `this` replaced in a token.
pub open spec fn spec_subst_this_token(
    tok: Rc<InlinePulseToken>,
    this: Rc<Expr>,
) -> Rc<InlinePulseToken>
    decreases tok, 0nat,
{
    match *tok {
        InlinePulseToken::RValueAntiquot { before, expr } => Rc::new(InlinePulseToken::RValueAntiquot { before, expr: spec_subst_this(expr, this) }),
        InlinePulseToken::LValueAntiquot { before, expr } => Rc::new(InlinePulseToken::LValueAntiquot { before, expr: spec_subst_this(expr, this) }),
        _ => tok,
    }
}

/// `this` replaced in a token.
pub fn subst_this_token(tok: &Rc<InlinePulseToken>, this: &Rc<Expr>) -> (out: Rc<InlinePulseToken>)
    ensures
        out == spec_subst_this_token(*tok, *this),
    decreases tok, 0nat,
{
    match &**tok {
        InlinePulseToken::RValueAntiquot { before, expr } => Rc::new(InlinePulseToken::RValueAntiquot { before: before.clone(), expr: subst_this(expr, this) }),
        InlinePulseToken::LValueAntiquot { before, expr } => Rc::new(InlinePulseToken::LValueAntiquot { before: before.clone(), expr: subst_this(expr, this) }),
        _ => tok.clone(),
    }
}

/// `this` replaced in tokens.
pub open spec fn spec_subst_this_tokens(
    l: Rc<List<InlinePulseToken>>,
    this: Rc<Expr>,
) -> Rc<List<InlinePulseToken>>
    decreases l, 0nat,
{
    match *l {
        List::Nil => spec_nil(),
        List::Cons(h, t) => spec_cons(spec_subst_this_token(h, this), spec_subst_this_tokens(t, this)),
    }
}

/// `this` replaced in tokens.
pub fn subst_this_tokens(l: &Rc<List<InlinePulseToken>>, this: &Rc<Expr>) -> (out: Rc<List<InlinePulseToken>>)
    ensures
        out == spec_subst_this_tokens(*l, *this),
    decreases l, 0nat,
{
    match &**l {
        List::Nil => nil(),
        List::Cons(h, t) => cons(subst_this_token(h, this), subst_this_tokens(t, this)),
    }
}

/// The refinement of a flexible array member, as a fact about the struct `this`: the array,
/// which the refinement calls `this`, becomes its field `this.<fam_field>`, and every other
/// name `f` the field `this.<f>`.
#[verifier::opaque]
pub open spec fn spec_subst_flex_refine_pred(
    e: Rc<Expr>,
    fam_field: Rc<Ident>,
    this: Rc<Ident>,
) -> Rc<Expr>
{
    spec_subst_flex_expr(e, FlexSubst { fam_field, this, bound: spec_nil() })
}

/// The refinement of a flexible array member, as a fact about the struct `this`: the array,
/// which the refinement calls `this`, becomes its field `this.<fam_field>`, and every other
/// name `f` the field `this.<f>`.
pub fn subst_flex_refine_pred(e: &Rc<Expr>, fam_field: &Rc<Ident>, this: &Rc<Ident>) -> (out: Rc<Expr>)
    ensures
        out == spec_subst_flex_refine_pred(*e, *fam_field, *this),
{
    proof {
        reveal(spec_subst_flex_refine_pred);
    }
    subst_flex_expr(e, &FlexSubst { fam_field: fam_field.clone(), this: this.clone(), bound: nil() })
}

/// What the names of a refinement stand for, but for those that are bound within it.
pub struct FlexSubst {
    pub fam_field: Rc<Ident>,
    pub this: Rc<Ident>,
    pub bound: Rc<List<Rope>>,
}

/// The same where one more name is bound.
#[verifier::opaque]
pub open spec fn spec_under_binder(s: FlexSubst, x: Rc<Ident>) -> FlexSubst
{
    FlexSubst { fam_field: s.fam_field, this: s.this, bound: spec_cons(x.val, s.bound) }
}

/// The same where one more name is bound.
pub fn under_binder(s: &FlexSubst, x: &Rc<Ident>) -> (out: FlexSubst)
    ensures
        out == spec_under_binder(*s, *x),
{
    proof {
        reveal(spec_under_binder);
    }
    FlexSubst { fam_field: s.fam_field.clone(), this: s.this.clone(), bound: cons(x.val.clone(), s.bound.clone()) }
}

/// What a name of a refinement stands for.
#[verifier::opaque]
pub open spec fn spec_subst_flex_var(e: Rc<Expr>, x: Rc<Ident>, s: FlexSubst) -> Rc<Expr>
{
    if spec_text_in(s.bound, x.val) {
        e
    } else {
        let field = if spec_text_is(x.val, "this") {
            s.fam_field
        } else {
            x
        };
        spec_mk_expr(e.loc, ExprT::Member(spec_mk_rvar(s.this), field))
    }
}

/// What a name of a refinement stands for.
pub fn subst_flex_var(e: &Rc<Expr>, x: &Rc<Ident>, s: &FlexSubst) -> (out: Rc<Expr>)
    ensures
        out == spec_subst_flex_var(*e, *x, *s),
{
    proof {
        reveal(spec_subst_flex_var);
    }
    if text_in(&s.bound, &x.val) {
        e.clone()
    } else {
        let field = if text_is(&x.val, "this") { s.fam_field.clone() } else { x.clone() };
        mk_expr(&e.loc, ExprT::Member(mk_rvar(&s.this), field))
    }
}

/// The expression with its names replaced by what they stand for. Types stay as they are: what
/// they say is about values of their own.
pub open spec fn spec_subst_flex_expr(e: Rc<Expr>, s: FlexSubst) -> Rc<Expr>
    decreases e, 3nat,
{
    match e.val {
        ExprT::Var(x) => spec_subst_flex_var(e, x, s),
        ExprT::Deref(a) | ExprT::Ref(a) | ExprT::UnOp(_, a) | ExprT::Live(a) | ExprT::Old(a) => spec_with_child(e, spec_subst_flex_expr(a, s)),
        ExprT::PreIncr(a) | ExprT::PostIncr(a) | ExprT::PreDecr(a) | ExprT::PostDecr(a) => spec_with_child(e, spec_subst_flex_expr(a, s)),
        ExprT::Free(a) | ExprT::Member(a, _) | ExprT::VAttr(_, a) | ExprT::UnionInit(_, _, a) => spec_with_child(e, spec_subst_flex_expr(a, s)),
        ExprT::Index(a, b) | ExprT::BinOp(_, a, b) | ExprT::AssignExpr(a, b) => spec_with_children(e, spec_subst_flex_expr(a, s), spec_subst_flex_expr(b, s)),
        ExprT::Cond(a, b, c) => spec_with_three(e, spec_subst_flex_expr(a, s), spec_subst_flex_expr(b, s), spec_subst_flex_expr(c, s)),
        _ => spec_subst_flex_typed(e, s),
    }
}

/// The expression with its names replaced by what they stand for. Types stay as they are: what
/// they say is about values of their own.
pub fn subst_flex_expr(e: &Rc<Expr>, s: &FlexSubst) -> (out: Rc<Expr>)
    ensures
        out == spec_subst_flex_expr(*e, *s),
    decreases e, 3nat,
{
    match &e.val {
        ExprT::Var(x) => subst_flex_var(e, x, s),
        ExprT::Deref(a) | ExprT::Ref(a) | ExprT::UnOp(_, a) | ExprT::Live(a) | ExprT::Old(a) => with_child(e, subst_flex_expr(a, s)),
        ExprT::PreIncr(a) | ExprT::PostIncr(a) | ExprT::PreDecr(a) | ExprT::PostDecr(a) => with_child(e, subst_flex_expr(a, s)),
        ExprT::Free(a) | ExprT::Member(a, _) | ExprT::VAttr(_, a) | ExprT::UnionInit(_, _, a) => with_child(e, subst_flex_expr(a, s)),
        ExprT::Index(a, b) | ExprT::BinOp(_, a, b) | ExprT::AssignExpr(a, b) => with_children(e, subst_flex_expr(a, s), subst_flex_expr(b, s)),
        ExprT::Cond(a, b, c) => with_three(e, subst_flex_expr(a, s), subst_flex_expr(b, s), subst_flex_expr(c, s)),
        _ => subst_flex_typed(e, s),
    }
}

/// The same for an expression with a type.
pub open spec fn spec_subst_flex_typed(e: Rc<Expr>, s: FlexSubst) -> Rc<Expr>
    decreases e, 2nat,
{
    match e.val {
        ExprT::Cast(a, t) | ExprT::ContainerOf(a, t, _) => spec_with_child_and_type(e, spec_subst_flex_expr(a, s), t),
        ExprT::MallocArray(t, a) | ExprT::CallocArray(t, a) => spec_with_child_and_type(e, spec_subst_flex_expr(a, s), t),
        ExprT::MallocFlex(t, a) | ExprT::CallocFlex(t, a) | ExprT::MemsetZero(t, a) => spec_with_child_and_type(e, spec_subst_flex_expr(a, s), t),
        ExprT::Forall(x, t, b) | ExprT::Exists(x, t, b) => spec_with_child_and_type(e, spec_subst_flex_expr(b, spec_under_binder(s, x)), t),
        _ => spec_subst_flex_several(e, s),
    }
}

/// The same for an expression with a type.
pub fn subst_flex_typed(e: &Rc<Expr>, s: &FlexSubst) -> (out: Rc<Expr>)
    ensures
        out == spec_subst_flex_typed(*e, *s),
    decreases e, 2nat,
{
    match &e.val {
        ExprT::Cast(a, t) | ExprT::ContainerOf(a, t, _) => with_child_and_type(e, subst_flex_expr(a, s), t.clone()),
        ExprT::MallocArray(t, a) | ExprT::CallocArray(t, a) => with_child_and_type(e, subst_flex_expr(a, s), t.clone()),
        ExprT::MallocFlex(t, a) | ExprT::CallocFlex(t, a) | ExprT::MemsetZero(t, a) => with_child_and_type(e, subst_flex_expr(a, s), t.clone()),
        ExprT::Forall(x, t, b) | ExprT::Exists(x, t, b) => with_child_and_type(e, subst_flex_expr(b, &under_binder(s, x)), t.clone()),
        _ => subst_flex_several(e, s),
    }
}

/// The same for an expression with any number of operands.
pub open spec fn spec_subst_flex_several(e: Rc<Expr>, s: FlexSubst) -> Rc<Expr>
    decreases e, 1nat,
{
    match e.val {
        ExprT::FnCall(_, l) => spec_with_list(e, spec_subst_flex_exprs(l, s)),
        ExprT::ArrayInit { elems, .. } => spec_with_list(e, spec_subst_flex_exprs(elems, s)),
        ExprT::FnPtrCall(f, l) => spec_mk_expr(e.loc, ExprT::FnPtrCall(spec_subst_flex_expr(f, s), spec_subst_flex_exprs(l, s))),
        ExprT::StructInit(n, inits) => spec_mk_expr(e.loc, ExprT::StructInit(n, spec_subst_flex_inits(inits, s))),
        ExprT::Memset(t, p, v, n) => spec_mk_expr(e.loc, ExprT::Memset(t, spec_subst_flex_expr(p, s), spec_subst_flex_expr(v, s), spec_subst_flex_expr(n, s))),
        ExprT::InlinePulse(code, t) => spec_mk_expr(e.loc, ExprT::InlinePulse(Rc::new(InlinePulseCode { tokens: spec_subst_flex_tokens(code.tokens, s) }), t)),
        _ => e,
    }
}

/// The same for an expression with any number of operands.
pub fn subst_flex_several(e: &Rc<Expr>, s: &FlexSubst) -> (out: Rc<Expr>)
    ensures
        out == spec_subst_flex_several(*e, *s),
    decreases e, 1nat,
{
    match &e.val {
        ExprT::FnCall(_, l) => with_list(e, subst_flex_exprs(l, s)),
        ExprT::ArrayInit { elems, .. } => with_list(e, subst_flex_exprs(elems, s)),
        ExprT::FnPtrCall(f, l) => mk_expr(&e.loc, ExprT::FnPtrCall(subst_flex_expr(f, s), subst_flex_exprs(l, s))),
        ExprT::StructInit(n, inits) => mk_expr(&e.loc, ExprT::StructInit(n.clone(), subst_flex_inits(inits, s))),
        ExprT::Memset(t, p, v, n) => mk_expr(&e.loc, ExprT::Memset(t.clone(), subst_flex_expr(p, s), subst_flex_expr(v, s), subst_flex_expr(n, s))),
        ExprT::InlinePulse(code, t) => mk_expr(&e.loc, ExprT::InlinePulse(
            Rc::new(InlinePulseCode { tokens: subst_flex_tokens(&code.tokens, s) }), t.clone())),
        _ => e.clone(),
    }
}

/// The same for expressions.
pub open spec fn spec_subst_flex_exprs(l: Rc<List<Expr>>, s: FlexSubst) -> Rc<List<Expr>>
    decreases l, 0nat,
{
    match *l {
        List::Nil => spec_nil(),
        List::Cons(h, t) => spec_cons(spec_subst_flex_expr(h, s), spec_subst_flex_exprs(t, s)),
    }
}

/// The same for expressions.
pub fn subst_flex_exprs(l: &Rc<List<Expr>>, s: &FlexSubst) -> (out: Rc<List<Expr>>)
    ensures
        out == spec_subst_flex_exprs(*l, *s),
    decreases l, 0nat,
{
    match &**l {
        List::Nil => nil(),
        List::Cons(h, t) => cons(subst_flex_expr(h, s), subst_flex_exprs(t, s)),
    }
}

/// The same for the value of a field.
pub open spec fn spec_subst_flex_init(i: Rc<FieldInit>, s: FlexSubst) -> Rc<FieldInit>
    decreases i, 0nat,
{
    Rc::new(FieldInit { name: i.name, value: spec_subst_flex_expr(i.value, s) })
}

/// The same for the value of a field.
pub fn subst_flex_init(i: &Rc<FieldInit>, s: &FlexSubst) -> (out: Rc<FieldInit>)
    ensures
        out == spec_subst_flex_init(*i, *s),
    decreases i, 0nat,
{
    Rc::new(FieldInit { name: i.name.clone(), value: subst_flex_expr(&i.value, s) })
}

/// The same for the values of fields.
pub open spec fn spec_subst_flex_inits(l: Rc<List<FieldInit>>, s: FlexSubst) -> Rc<List<FieldInit>>
    decreases l, 0nat,
{
    match *l {
        List::Nil => spec_nil(),
        List::Cons(h, t) => spec_cons(spec_subst_flex_init(h, s), spec_subst_flex_inits(t, s)),
    }
}

/// The same for the values of fields.
pub fn subst_flex_inits(l: &Rc<List<FieldInit>>, s: &FlexSubst) -> (out: Rc<List<FieldInit>>)
    ensures
        out == spec_subst_flex_inits(*l, *s),
    decreases l, 0nat,
{
    match &**l {
        List::Nil => nil(),
        List::Cons(h, t) => cons(subst_flex_init(h, s), subst_flex_inits(t, s)),
    }
}

/// The same for a token of inline code.
pub open spec fn spec_subst_flex_token(
    tok: Rc<InlinePulseToken>,
    s: FlexSubst,
) -> Rc<InlinePulseToken>
    decreases tok, 0nat,
{
    match *tok {
        InlinePulseToken::RValueAntiquot { before, expr } => Rc::new(InlinePulseToken::RValueAntiquot { before, expr: spec_subst_flex_expr(expr, s) }),
        InlinePulseToken::LValueAntiquot { before, expr } => Rc::new(InlinePulseToken::LValueAntiquot { before, expr: spec_subst_flex_expr(expr, s) }),
        _ => tok,
    }
}

/// The same for a token of inline code.
pub fn subst_flex_token(tok: &Rc<InlinePulseToken>, s: &FlexSubst) -> (out: Rc<InlinePulseToken>)
    ensures
        out == spec_subst_flex_token(*tok, *s),
    decreases tok, 0nat,
{
    match &**tok {
        InlinePulseToken::RValueAntiquot { before, expr } => Rc::new(InlinePulseToken::RValueAntiquot { before: before.clone(), expr: subst_flex_expr(expr, s) }),
        InlinePulseToken::LValueAntiquot { before, expr } => Rc::new(InlinePulseToken::LValueAntiquot { before: before.clone(), expr: subst_flex_expr(expr, s) }),
        _ => tok.clone(),
    }
}

/// The same for inline code. A name that it declares is bound from there on.
pub open spec fn spec_subst_flex_tokens(
    l: Rc<List<InlinePulseToken>>,
    s: FlexSubst,
) -> Rc<List<InlinePulseToken>>
    decreases l, 0nat,
{
    match *l {
        List::Nil => spec_nil(),
        List::Cons(h, t) => {
            match *h {
                InlinePulseToken::Declare { ident, .. } => spec_cons(h, spec_subst_flex_tokens(t, spec_under_binder(s, ident))),
                _ => spec_cons(spec_subst_flex_token(h, s), spec_subst_flex_tokens(t, s)),
            }
        },
    }
}

/// The same for inline code. A name that it declares is bound from there on.
pub fn subst_flex_tokens(l: &Rc<List<InlinePulseToken>>, s: &FlexSubst) -> (out: Rc<List<InlinePulseToken>>)
    ensures
        out == spec_subst_flex_tokens(*l, *s),
    decreases l, 0nat,
{
    match &**l {
        List::Nil => nil(),
        List::Cons(h, t) => match &**h {
            InlinePulseToken::Declare { ident, .. } => cons(h.clone(), subst_flex_tokens(t, &under_binder(s, ident))),
            _ => cons(subst_flex_token(h, s), subst_flex_tokens(t, s)),
        },
    }
}

/// Whether the type is the given struct.
#[verifier::opaque]
pub open spec fn spec_is_struct_named(ty: Rc<Type>, name: Option<Text>) -> bool
{
    match (ty.val, name) {
        (TypeT::TypeRef(TypeRefKind::Struct(s)), Some(n)) => spec_same_text(s.val, n),
        _ => false,
    }
}

/// Whether the type is the given struct.
pub fn is_struct_named(ty: &Rc<Type>, name: &Option<Text>) -> (out: bool)
    ensures
        out == spec_is_struct_named(*ty, *name),
{
    proof {
        reveal(spec_is_struct_named);
    }
    match (&ty.val, name) {
        (TypeT::TypeRef(TypeRefKind::Struct(s)), Some(n)) => same_text(&s.val, n),
        _ => false,
    }
}

/// Whether the text is the given one, if there is one.
#[verifier::opaque]
pub open spec fn spec_is_text(a: Option<Text>, b: Text) -> bool
{
    match a {
        Some(t) => spec_same_text(t, b),
        None => false,
    }
}

/// Whether the text is the given one, if there is one.
pub fn is_text(a: &Option<Text>, b: &Text) -> (out: bool)
    ensures
        out == spec_is_text(*a, *b),
{
    proof {
        reveal(spec_is_text);
    }
    match a {
        Some(t) => same_text(t, b),
        None => false,
    }
}

/// A ghost value for what `this` holds.
///
/// As the state that [`Emitter::push_val_binding`] leaves, with its result.
#[verifier::opaque]
pub open spec fn spec_push_val_binding(
    st: Emitter,
    o: Owned,
    this: Rc<Expr>,
    ty: Doc,
) -> (Emitter, (Owned, Doc))
{
    let idx = spec_list_len(o.naming.bindings);
    match o.naming.spec {
        None => {
            let (st, raw) = spec_local_name(st, Name::Val(spec_extract_base_ident(this), idx));
            let name = if o.naming.quote {
                spec_d2(spec_txt("'"), raw)
            } else {
                raw
            };
            (st, (spec_push_binding(o, name, ty), name))
        },
        Some(ctx) => {
            let fname = spec_cat3(ctx.field_name, spec_lit("_"), spec_num(idx));
            let (st, field) = spec_local_name(st, Name::TypeRefSpecField(spec_clone_type_ref(ctx.type_ref), fname));
            let access = spec_d3(ctx.spec_param, spec_txt("."), field);
            (st, (spec_push_binding(o, field, ty), access))
        },
    }
}

/// A ghost value that the user named.
///
/// As the state that [`Emitter::push_val_binding_explicit`] leaves, with its result.
#[verifier::opaque]
pub open spec fn spec_push_val_binding_explicit(
    st: Emitter,
    o: Owned,
    raw_name: Text,
    ty: Doc,
) -> (Emitter, Owned)
{
    match o.naming.spec {
        None => {
            let name = if o.naming.quote {
                spec_d2(spec_txt("'"), spec_text_doc(raw_name))
            } else {
                spec_text_doc(raw_name)
            };
            (st, spec_push_binding(o, name, ty))
        },
        Some(ctx) => {
            let (st, field) = spec_local_name(st, Name::TypeRefSpecField(spec_clone_type_ref(ctx.type_ref), raw_name));
            (st, spec_push_binding(o, field, ty))
        },
    }
}

/// Ghost values of the given types.
///
/// As the state that [`Emitter::push_val_bindings`] leaves, with its result.
pub open spec fn spec_push_val_bindings(
    st: Emitter,
    o: Owned,
    this: Rc<Expr>,
    types: Rc<List<DocT>>,
    vals: Rc<List<DocT>>,
) -> (Emitter, (Owned, Rc<List<DocT>>))
    decreases types,
{
    match *types {
        List::Nil => (st, (o, vals)),
        List::Cons(h, t) => {
            let (st, (o2, name)) = spec_push_val_binding(st, o, this, h);
            spec_push_val_bindings(st, o2, this, t, spec_list_push(vals, name))
        },
    }
}

/// The named predicate of a type.
///
/// As the state that [`Emitter::named_pred`] leaves, with its result.
#[verifier::opaque]
pub open spec fn spec_named_pred(
    st: Emitter,
    env: Env,
    n: TypeRefKind,
    variant: SLPropVariant,
    o: Owned,
    this: Rc<Expr>,
) -> (Emitter, Owned)
{
    let (st, this_doc) = spec_emit_rvalue(st, env, this);
    match variant {
        SLPropVariant::Init { perm } => {
            let types = spec_find_val_params(st.type_val_params, spec_type_ref(n));
            let (st, pred) = spec_emit_name(st, Name::TypeRefPred(spec_type_ref(n)));
            let (st, (o2, vals)) = spec_push_val_bindings(st, o, this, types, spec_nil());
            (st, spec_push_prop(o2, spec_naryfn(spec_list_append(spec_l3(pred, this_doc, perm), vals))))
        },
        SLPropVariant::Uninit => {
            let types = spec_find_val_params(st.type_uninit_val_params, spec_type_ref(n));
            let (st, pred) = spec_emit_name(st, Name::TypeRefUninitPred(spec_type_ref(n)));
            let (st, (o2, vals)) = spec_push_val_bindings(st, o, this, types, spec_nil());
            (st, spec_push_prop(o2, spec_naryfn(spec_list_append(spec_l2(pred, this_doc), vals))))
        },
    }
}

/// The ownership of a whole array.
///
/// As the state that [`Emitter::array_pts_to`] leaves, with its result.
#[verifier::opaque]
pub open spec fn spec_array_pts_to(
    st: Emitter,
    env: Env,
    ty: Rc<Type>,
    pointee: Rc<Type>,
    variant: SLPropVariant,
    o: Owned,
    this: Rc<Expr>,
    this_doc: Doc,
) -> (Emitter, Owned)
{
    let (st, elem) = spec_emit_type(st, env, pointee);
    match variant {
        SLPropVariant::Init { perm } => {
            let (st, (o2, name)) = spec_push_val_binding(st, o, this, spec_unaryfn(spec_txt("full_array_spec"), elem));
            (st, spec_push_prop(o2, spec_annotated(ty.loc, spec_naryfn(spec_l4(spec_txt("array_pts_to_full"), this_doc, perm, name)))))
        },
        SLPropVariant::Uninit => {
            let (st, (o2, name)) = spec_push_val_binding(st, o, this, spec_unaryfn(spec_txt("array_spec"), elem));
            (st, spec_push_prop(o2, spec_annotated(ty.loc, spec_naryfn(spec_l3(spec_txt("array_pts_to_uninit"), this_doc, name)))))
        },
    }
}

/// The fact of a refinement, for `this`.
///
/// As the state that [`Emitter::refinement`] leaves, with its result.
#[verifier::opaque]
pub open spec fn spec_refinement(
    st: Emitter,
    env: Env,
    p: Rc<Expr>,
    o: Owned,
    this: Rc<Expr>,
) -> (Emitter, Owned)
{
    let (st, d) = spec_emit_rvalue(st, env, spec_subst_this(p, this));
    (st, spec_push_prop(o, d))
}

/// The fact of a refinement over a ghost value that the user named. The name stands in the
/// fact as it was written.
///
/// As the state that [`Emitter::value_refinement`] leaves, with its result.
#[verifier::opaque]
pub open spec fn spec_value_refinement(
    st: Emitter,
    env: Env,
    name: Rc<Ident>,
    ty: Rc<Type>,
    p: Rc<Expr>,
    o: Owned,
    this: Rc<Expr>,
) -> (Emitter, Owned)
{
    let (st, ty_doc) = spec_emit_type(st, env, ty);
    let (st, o2) = spec_push_val_binding_explicit(st, o, name.val, ty_doc);
    let env2 = spec_push_var_decl(env, name, ty, LocalDeclKind::RValue);
    let key = Rc::new(Name::Var(name.val));
    let st = if spec_find_mangled(st.nm.map, key).is_none() {
        let st = Emitter { nm: spec_bind(st.nm, key, name.val), ..st };
        st
    } else {
        st
    };
    spec_refinement(st, env2, p, o2, this)
}

/// The ownership of one object, and then that of what it holds.
///
/// As the state that [`Emitter::ref_pts_to`] leaves, with its result.
pub open spec fn spec_ref_pts_to(
    st: Emitter,
    env: Env,
    ty: Rc<Type>,
    variant: SLPropVariant,
    o: Owned,
    this: Rc<Expr>,
    this_doc: Doc,
    pointee: Rc<Type>,
    resolving: Option<Text>,
    fuel: u64,
) -> (Emitter, Owned)
    decreases fuel, pointee, 1nat,
{
    match variant {
        SLPropVariant::Init { perm } => {
            let (st, t) = spec_emit_type(st, env, pointee);
            let (st, (o2, name)) = spec_push_val_binding(st, o, this, t);
            let prop = spec_annotated(ty.loc, spec_naryfn(spec_l4(spec_txt("Pulse.Lib.Reference.pts_to"), this_doc, spec_d2(spec_txt("#"), perm), name)));
            let o3 = spec_push_prop(o2, prop);
            if spec_is_struct_named(pointee, st.defining_struct) {
                (st, o3)
            } else {
                spec_emit_type_slprop_inner(st, env, pointee, variant, o3, spec_mk_expr(this.loc, ExprT::Deref(this)), resolving, fuel)
            }
        },
        SLPropVariant::Uninit => (st, spec_push_prop(o, spec_annotated(ty.loc, spec_unaryfn(spec_txt("Pulse.Lib.Reference.pts_to_uninit"), this_doc)))),
    }
}

/// The ownership that comes with a value `this` of a type. A struct's attributes are looked
/// up once for each struct on the way, so at most `fuel` times.
///
/// As the state that [`Emitter::emit_type_slprop_inner`] leaves, with its result.
pub open spec fn spec_emit_type_slprop_inner(
    st: Emitter,
    env: Env,
    ty: Rc<Type>,
    variant: SLPropVariant,
    o: Owned,
    this: Rc<Expr>,
    resolving: Option<Text>,
    fuel: u64,
) -> (Emitter, Owned)
    decreases fuel, ty, 0nat,
{
    match ty.val {
        TypeT::Pointer(pointee, kind) => {
            let (st, this_doc) = spec_emit_rvalue(st, env, this);
            match kind {
                PointerKind::Ref | PointerKind::Unknown => spec_ref_pts_to(st, env, ty, variant, o, this, this_doc, pointee, resolving, fuel),
                PointerKind::Array => spec_array_pts_to(st, env, ty, pointee, variant, o, this, this_doc),
                PointerKind::ArrayPtr | PointerKind::Core => (st, o),
            }
        },
        TypeT::TypeRef(n) => {
            match n {
                TypeRefKind::Struct(name) => {
                    match spec_lookup_struct(env, name) {
                        Some(d) => {
                            if fuel > 0 && !spec_is_text(resolving, name.val) {
                                spec_emit_type_slprop_inner(st, env, d.refines, variant, o, this, Some(name.val), spec_drop_one(fuel))
                            } else {
                                spec_named_pred(st, env, n, variant, o, this)
                            }
                        },
                        None => spec_named_pred(st, env, n, variant, o, this),
                    }
                },
                _ => spec_named_pred(st, env, n, variant, o, this),
            }
        },
        TypeT::Refine(t, p) => {
            let (st, o2) = spec_emit_type_slprop_inner(st, env, t, variant, o, this, resolving, fuel);
            match variant {
                SLPropVariant::Init { .. } => spec_refinement(st, env, p, o2, this),
                SLPropVariant::Uninit => (st, o2),
            }
        },
        TypeT::RefineAlways(t, p) => {
            let (st, o2) = spec_emit_type_slprop_inner(st, env, t, variant, o, this, resolving, fuel);
            spec_refinement(st, env, p, o2, this)
        },
        TypeT::RefineUninit(t, p) => {
            let (st, o2) = spec_emit_type_slprop_inner(st, env, t, variant, o, this, resolving, fuel);
            match variant {
                SLPropVariant::Init { .. } => (st, o2),
                SLPropVariant::Uninit => spec_refinement(st, env, p, o2, this),
            }
        },
        TypeT::RefineValue(t, name, vty, p) => {
            let (st, o2) = spec_emit_type_slprop_inner(st, env, t, variant, o, this, resolving, fuel);
            match variant {
                SLPropVariant::Init { .. } => spec_value_refinement(st, env, name, vty, p, o2, this),
                SLPropVariant::Uninit => (st, o2),
            }
        },
        TypeT::Nullable(t) => {
            let (st, this_doc) = spec_emit_rvalue(st, env, this);
            let outer = o.props;
            let (st, i) = spec_emit_type_slprop_inner(st, env, t, variant, Owned { naming: o.naming, props: spec_nil() }, this, resolving, fuel);
            let prop = spec_annotated(ty.loc, spec_naryfn(spec_l3(spec_txt("unless_null"), this_doc, spec_mk_star(i.props))));
            (st, Owned { naming: i.naming, props: spec_list_push(outer, prop) })
        },
        _ => (st, o),
    }
}

/// The ownership that comes with a value `this` of a type.
///
/// As the state that [`Emitter::emit_type_slprop`] leaves, with its result.
#[verifier::opaque]
pub open spec fn spec_emit_type_slprop(
    st: Emitter,
    env: Env,
    ty: Rc<Type>,
    variant: SLPropVariant,
    o: Owned,
    this: Rc<Expr>,
) -> (Emitter, Owned)
{
    spec_emit_type_slprop_inner(st, env, ty, variant, o, this, None, spec_list_len(env.structs))
}

/// The ownership of the fields of a struct, but for arrays stored in place: their contents
/// belong to the record.
///
/// As the state that [`Emitter::emit_fields_slprop`] leaves, with its result.
pub open spec fn spec_emit_fields_slprop(
    st: Emitter,
    env: Env,
    fields: Rc<List<Field>>,
    variant: SLPropVariant,
    o: Owned,
    this: Rc<Ident>,
) -> (Emitter, Owned)
    decreases fields,
{
    match *fields {
        List::Nil => (st, o),
        List::Cons(f, t) => {
            if spec_field_is_array(f) {
                spec_emit_fields_slprop(st, env, t, variant, o, this)
            } else {
                let name = spec_field_name(f);
                let (st, o2) = spec_emit_type_slprop(st, env, spec_field_type(f), variant, o, spec_mk_expr(name.loc, ExprT::Member(spec_mk_rvar(this), name)));
                spec_emit_fields_slprop(st, env, t, variant, o2, this)
            }
        },
    }
}

/// A predicate over `this`, given its propositions and ghost values, which are recorded for
/// the type.
///
/// As the state that [`Emitter::finish_pred_decl`] leaves, with its result.
#[verifier::opaque]
pub open spec fn spec_finish_pred_decl(
    st: Emitter,
    k: TypeRefKind,
    is_init: bool,
    pred_name: Doc,
    base_arg: Doc,
    o: Owned,
) -> (Emitter, Doc)
{
    let entry = Rc::new(ValParams { key: spec_type_ref(k), types: spec_binding_types(o.naming.bindings) });
    let binders = spec_binder_args(o.naming.bindings);
    let args = if is_init {
        spec_cons(base_arg, spec_cons(spec_parens(spec_txt("p: perm")), binders))
    } else {
        spec_cons(base_arg, binders)
    };
    let st = if is_init {
        let st = Emitter { type_val_params: spec_cons(entry, st.type_val_params), ..st };
        st
    } else {
        let st = Emitter { type_uninit_val_params: spec_cons(entry, st.type_uninit_val_params), ..st };
        st
    };
    (st, spec_mk_eager_unfold_slprop(pred_name, args, spec_mk_star(o.props)))
}

/// The predicate of a typedef.
///
/// As the state that [`Emitter::emit_typedef_pred`] leaves, with its result.
#[verifier::opaque]
pub open spec fn spec_emit_typedef_pred(
    st: Emitter,
    env: Env,
    k: TypeRefKind,
    body: Rc<Type>,
    is_init: bool,
    this_arg: Doc,
    this: Rc<Ident>,
) -> (Emitter, Doc)
{
    let (st, pred_name) = spec_emit_name(st, if is_init {
            Name::TypeRefPred(spec_type_ref(k))
        } else {
            Name::TypeRefUninitPred(spec_type_ref(k))
    });
    let variant = if is_init {
        SLPropVariant::Init { perm: spec_txt("p") }
    } else {
        SLPropVariant::Uninit
    };
    let (st, o) = spec_emit_type_slprop(st, env, body, variant, spec_owned_standard(false), spec_mk_rvar(this));
    spec_finish_pred_decl(st, k, is_init, pred_name, this_arg, o)
}

/// The predicate of a struct's memory that is not initialized.
///
/// As the state that [`Emitter::emit_struct_uninit_pred`] leaves, with its result.
#[verifier::opaque]
pub open spec fn spec_emit_struct_uninit_pred(
    st: Emitter,
    env: Env,
    k: TypeRefKind,
    fields: Rc<List<Field>>,
    this_arg: Doc,
    this: Rc<Ident>,
) -> (Emitter, Doc)
{
    let (st, pred_name) = spec_emit_name(st, Name::TypeRefUninitPred(spec_type_ref(k)));
    let (st, o) = spec_emit_fields_slprop(st, env, fields, SLPropVariant::Uninit, spec_owned_standard(false), this);
    spec_finish_pred_decl(st, k, false, pred_name, this_arg, o)
}

impl Emitter {
    /// A ghost value for what `this` holds.
    pub fn push_val_binding(&mut self, o: Owned, this: &Rc<Expr>, ty: Doc) -> (out: (Owned, Doc))
        ensures
            (*final(self), out) == spec_push_val_binding(*old(self), o, *this, ty),
            extends(final(self).diags, old(self).diags),
            final(self).fn_module_map == old(self).fn_module_map,
            final(self).typedef_override_map == old(self).typedef_override_map,
    {
        proof {
            reveal(spec_push_val_binding);
        }
        let idx = list_len(&o.naming.bindings);
        match &o.naming.spec {
            None => {
                let raw = self.local_name(Name::Val(extract_base_ident(this), idx));
                let name = if o.naming.quote { d2(txt("'"), raw) } else { raw };
                (push_binding(o, name.clone(), ty), name)
            }
            Some(ctx) => {
                let fname = cat3(ctx.field_name.clone(), lit("_"), num(idx));
                let field = self.local_name(Name::TypeRefSpecField(clone_type_ref(&ctx.type_ref), fname));
                let access = d3(ctx.spec_param.clone(), txt("."), field.clone());
                (push_binding(o, field, ty), access)
            }
        }
    }

    /// A ghost value that the user named.
    pub fn push_val_binding_explicit(&mut self, o: Owned, raw_name: &Text, ty: Doc) -> (out: Owned)
        ensures
            (*final(self), out) == spec_push_val_binding_explicit(*old(self), o, *raw_name, ty),
            extends(final(self).diags, old(self).diags),
            final(self).fn_module_map == old(self).fn_module_map,
            final(self).typedef_override_map == old(self).typedef_override_map,
    {
        proof {
            reveal(spec_push_val_binding_explicit);
        }
        match &o.naming.spec {
            None => {
                let name = if o.naming.quote { d2(txt("'"), text_doc(raw_name.clone())) } else { text_doc(raw_name.clone()) };
                push_binding(o, name, ty)
            }
            Some(ctx) => {
                let field = self.local_name(Name::TypeRefSpecField(clone_type_ref(&ctx.type_ref), raw_name.clone()));
                push_binding(o, field, ty)
            }
        }
    }

    /// Ghost values of the given types.
    pub fn push_val_bindings(
        &mut self,
        o: Owned,
        this: &Rc<Expr>,
        types: &Rc<List<DocT>>,
        vals: Rc<List<DocT>>,
    ) -> (out: (Owned, Rc<List<DocT>>))
        ensures
            (*final(self), out) == spec_push_val_bindings(*old(self), o, *this, *types, vals),
            extends(final(self).diags, old(self).diags),
            final(self).fn_module_map == old(self).fn_module_map,
            final(self).typedef_override_map == old(self).typedef_override_map,
        decreases types,
    {
        match &**types {
            List::Nil => (o, vals),
            List::Cons(h, t) => {
                let (o2, name) = self.push_val_binding(o, this, h.clone());
                self.push_val_bindings(o2, this, t, list_push(&vals, name))
            }
        }
    }

    /// The named predicate of a type.
    pub fn named_pred(
        &mut self,
        env: &Env,
        n: &TypeRefKind,
        variant: &SLPropVariant,
        o: Owned,
        this: &Rc<Expr>,
    ) -> (out: Owned)
        ensures
            (*final(self), out) == spec_named_pred(*old(self), *env, *n, *variant, o, *this),
            extends(final(self).diags, old(self).diags),
            final(self).fn_module_map == old(self).fn_module_map,
            final(self).typedef_override_map == old(self).typedef_override_map,
    {
        proof {
            reveal(spec_named_pred);
        }
        let this_doc = self.emit_rvalue(env, this);
        match variant {
            SLPropVariant::Init { perm } => {
                let types = find_val_params(&self.type_val_params, &type_ref(n));
                let pred = self.emit_name(Name::TypeRefPred(type_ref(n)));
                let (o2, vals) = self.push_val_bindings(o, this, &types, nil());
                push_prop(o2, naryfn(&list_append(&l3(pred, this_doc, perm.clone()), vals)))
            }
            SLPropVariant::Uninit => {
                let types = find_val_params(&self.type_uninit_val_params, &type_ref(n));
                let pred = self.emit_name(Name::TypeRefUninitPred(type_ref(n)));
                let (o2, vals) = self.push_val_bindings(o, this, &types, nil());
                push_prop(o2, naryfn(&list_append(&l2(pred, this_doc), vals)))
            }
        }
    }

    /// The ownership of a whole array.
    pub fn array_pts_to(
        &mut self,
        env: &Env,
        ty: &Rc<Type>,
        pointee: &Rc<Type>,
        variant: &SLPropVariant,
        o: Owned,
        this: &Rc<Expr>,
        this_doc: Doc,
    ) -> (out: Owned)
        ensures
            (*final(self), out) == spec_array_pts_to(*old(self), *env, *ty, *pointee, *variant, o, *this, this_doc),
            extends(final(self).diags, old(self).diags),
            final(self).fn_module_map == old(self).fn_module_map,
            final(self).typedef_override_map == old(self).typedef_override_map,
    {
        proof {
            reveal(spec_array_pts_to);
        }
        let elem = self.emit_type(env, pointee);
        match variant {
            SLPropVariant::Init { perm } => {
                let (o2, name) = self.push_val_binding(o, this, unaryfn(txt("full_array_spec"), elem));
                push_prop(o2, annotated(&ty.loc, naryfn(&l4(txt("array_pts_to_full"), this_doc, perm.clone(), name))))
            }
            // Memory that is not initialized has no full description.
            SLPropVariant::Uninit => {
                let (o2, name) = self.push_val_binding(o, this, unaryfn(txt("array_spec"), elem));
                push_prop(o2, annotated(&ty.loc, naryfn(&l3(txt("array_pts_to_uninit"), this_doc, name))))
            }
        }
    }

    /// The fact of a refinement, for `this`.
    pub fn refinement(&mut self, env: &Env, p: &Rc<Expr>, o: Owned, this: &Rc<Expr>) -> (out: Owned)
        ensures
            (*final(self), out) == spec_refinement(*old(self), *env, *p, o, *this),
            extends(final(self).diags, old(self).diags),
            final(self).fn_module_map == old(self).fn_module_map,
            final(self).typedef_override_map == old(self).typedef_override_map,
    {
        proof {
            reveal(spec_refinement);
        }
        let d = self.emit_rvalue(env, &subst_this(p, this));
        push_prop(o, d)
    }

    /// The fact of a refinement over a ghost value that the user named. The name stands in the
    /// fact as it was written.
    pub fn value_refinement(
        &mut self,
        env: &Env,
        name: &Rc<Ident>,
        ty: &Rc<Type>,
        p: &Rc<Expr>,
        o: Owned,
        this: &Rc<Expr>,
    ) -> (out: Owned)
        ensures
            (*final(self), out) == spec_value_refinement(*old(self), *env, *name, *ty, *p, o, *this),
            extends(final(self).diags, old(self).diags),
            final(self).fn_module_map == old(self).fn_module_map,
            final(self).typedef_override_map == old(self).typedef_override_map,
    {
        proof {
            reveal(spec_value_refinement);
        }
        let ty_doc = self.emit_type(env, ty);
        let o2 = self.push_val_binding_explicit(o, &name.val, ty_doc);
        let env2 = push_var_decl(env, name, ty.clone(), LocalDeclKind::RValue);
        let key = Rc::new(Name::Var(name.val.clone()));
        if find_mangled(&self.nm.map, &key).is_none() {
            self.nm = bind(&self.nm, key, name.val.clone());
        }
        self.refinement(&env2, p, o2, this)
    }

    /// The ownership of one object, and then that of what it holds.
    pub fn ref_pts_to(
        &mut self,
        env: &Env,
        ty: &Rc<Type>,
        variant: &SLPropVariant,
        o: Owned,
        this: &Rc<Expr>,
        this_doc: Doc,
        pointee: &Rc<Type>,
        resolving: &Option<Text>,
        fuel: u64,
    ) -> (out: Owned)
        ensures
            (*final(self), out) == spec_ref_pts_to(*old(self), *env, *ty, *variant, o, *this, this_doc, *pointee, *resolving, fuel),
            extends(final(self).diags, old(self).diags),
            final(self).fn_module_map == old(self).fn_module_map,
            final(self).typedef_override_map == old(self).typedef_override_map,
        decreases fuel, pointee, 1nat,
    {
        match variant {
            SLPropVariant::Init { perm } => {
                let t = self.emit_type(env, pointee);
                let (o2, name) = self.push_val_binding(o, this, t);
                let prop = annotated(&ty.loc, naryfn(&l4(txt("Pulse.Lib.Reference.pts_to"), this_doc, d2(txt("#"), perm.clone()), name)));
                let o3 = push_prop(o2, prop);
                if is_struct_named(pointee, &self.defining_struct) {
                    o3
                } else {
                    self.emit_type_slprop_inner(env, pointee, variant, o3, &mk_expr(&this.loc, ExprT::Deref(this.clone())), resolving, fuel)
                }
            }
            SLPropVariant::Uninit => push_prop(o, annotated(&ty.loc, unaryfn(txt("Pulse.Lib.Reference.pts_to_uninit"), this_doc))),
        }
    }

    /// The ownership that comes with a value `this` of a type. A struct's attributes are looked
    /// up once for each struct on the way, so at most `fuel` times.
    pub fn emit_type_slprop_inner(
        &mut self,
        env: &Env,
        ty: &Rc<Type>,
        variant: &SLPropVariant,
        o: Owned,
        this: &Rc<Expr>,
        resolving: &Option<Text>,
        fuel: u64,
    ) -> (out: Owned)
        ensures
            (*final(self), out) == spec_emit_type_slprop_inner(*old(self), *env, *ty, *variant, o, *this, *resolving, fuel),
            extends(final(self).diags, old(self).diags),
            final(self).fn_module_map == old(self).fn_module_map,
            final(self).typedef_override_map == old(self).typedef_override_map,
        decreases fuel, ty, 0nat,
    {
        match &ty.val {
            TypeT::Pointer(pointee, kind) => {
                let this_doc = self.emit_rvalue(env, this);
                match kind {
                    PointerKind::Ref | PointerKind::Unknown => self.ref_pts_to(env, ty, variant, o, this, this_doc, pointee, resolving, fuel),
                    PointerKind::Array => self.array_pts_to(env, ty, pointee, variant, o, this, this_doc),
                    // No ownership comes with a place in an array or with a raw pointer.
                    PointerKind::ArrayPtr | PointerKind::Core => o,
                }
            }
            TypeT::TypeRef(n) => match n {
                TypeRefKind::Struct(name) => match lookup_struct(env, name) {
                    // The struct's attributes mention the struct itself: there the plain
                    // predicate is meant.
                    Some(d) => if fuel > 0 && !is_text(resolving, &name.val) {
                        self.emit_type_slprop_inner(env, &d.refines, variant, o, this, &Some(name.val.clone()), drop_one(fuel))
                    } else {
                        self.named_pred(env, n, variant, o, this)
                    },
                    None => self.named_pred(env, n, variant, o, this),
                },
                _ => self.named_pred(env, n, variant, o, this),
            },
            TypeT::Refine(t, p) => {
                let o2 = self.emit_type_slprop_inner(env, t, variant, o, this, resolving, fuel);
                match variant {
                    SLPropVariant::Init { .. } => self.refinement(env, p, o2, this),
                    SLPropVariant::Uninit => o2,
                }
            }
            TypeT::RefineAlways(t, p) => {
                let o2 = self.emit_type_slprop_inner(env, t, variant, o, this, resolving, fuel);
                self.refinement(env, p, o2, this)
            }
            TypeT::RefineUninit(t, p) => {
                let o2 = self.emit_type_slprop_inner(env, t, variant, o, this, resolving, fuel);
                match variant {
                    SLPropVariant::Init { .. } => o2,
                    SLPropVariant::Uninit => self.refinement(env, p, o2, this),
                }
            }
            TypeT::RefineValue(t, name, vty, p) => {
                let o2 = self.emit_type_slprop_inner(env, t, variant, o, this, resolving, fuel);
                match variant {
                    SLPropVariant::Init { .. } => self.value_refinement(env, name, vty, p, o2, this),
                    SLPropVariant::Uninit => o2,
                }
            }
            TypeT::Nullable(t) => {
                let this_doc = self.emit_rvalue(env, this);
                let outer = o.props.clone();
                let i = self.emit_type_slprop_inner(env, t, variant, Owned { naming: o.naming, props: nil() }, this, resolving, fuel);
                let prop = annotated(&ty.loc, naryfn(&l3(txt("unless_null"), this_doc, mk_star(&i.props))));
                Owned { naming: i.naming, props: list_push(&outer, prop) }
            }
            _ => o,
        }
    }

    /// The ownership that comes with a value `this` of a type.
    pub fn emit_type_slprop(
        &mut self,
        env: &Env,
        ty: &Rc<Type>,
        variant: &SLPropVariant,
        o: Owned,
        this: &Rc<Expr>,
    ) -> (out: Owned)
        ensures
            (*final(self), out) == spec_emit_type_slprop(*old(self), *env, *ty, *variant, o, *this),
            extends(final(self).diags, old(self).diags),
            final(self).fn_module_map == old(self).fn_module_map,
            final(self).typedef_override_map == old(self).typedef_override_map,
    {
        proof {
            reveal(spec_emit_type_slprop);
        }
        self.emit_type_slprop_inner(env, ty, variant, o, this, &None, list_len(&env.structs))
    }

    /// The ownership of the fields of a struct, but for arrays stored in place: their contents
    /// belong to the record.
    pub fn emit_fields_slprop(
        &mut self,
        env: &Env,
        fields: &Rc<List<Field>>,
        variant: &SLPropVariant,
        o: Owned,
        this: &Rc<Ident>,
    ) -> (out: Owned)
        ensures
            (*final(self), out) == spec_emit_fields_slprop(*old(self), *env, *fields, *variant, o, *this),
            extends(final(self).diags, old(self).diags),
            final(self).fn_module_map == old(self).fn_module_map,
            final(self).typedef_override_map == old(self).typedef_override_map,
        decreases fields,
    {
        match &**fields {
            List::Nil => o,
            List::Cons(f, t) => if field_is_array(f) {
                self.emit_fields_slprop(env, t, variant, o, this)
            } else {
                let name = field_name(f);
                let o2 = self.emit_type_slprop(env, &field_type(f), variant, o, &mk_expr(&name.loc, ExprT::Member(mk_rvar(this), name.clone())));
                self.emit_fields_slprop(env, t, variant, o2, this)
            },
        }
    }

    /// A predicate over `this`, given its propositions and ghost values, which are recorded for
    /// the type.
    pub fn finish_pred_decl(
        &mut self,
        k: &TypeRefKind,
        is_init: bool,
        pred_name: Doc,
        base_arg: Doc,
        o: Owned,
    ) -> (out: Doc)
        ensures
            (*final(self), out) == spec_finish_pred_decl(*old(self), *k, is_init, pred_name, base_arg, o),
            extends(final(self).diags, old(self).diags),
            final(self).fn_module_map == old(self).fn_module_map,
            final(self).typedef_override_map == old(self).typedef_override_map,
    {
        proof {
            reveal(spec_finish_pred_decl);
        }
        let entry = Rc::new(ValParams { key: type_ref(k), types: binding_types(&o.naming.bindings) });
        let binders = binder_args(&o.naming.bindings);
        let args = if is_init { cons(base_arg, cons(parens(txt("p: perm")), binders)) } else { cons(base_arg, binders) };
        if is_init {
            self.type_val_params = cons(entry, self.type_val_params.clone());
        } else {
            self.type_uninit_val_params = cons(entry, self.type_uninit_val_params.clone());
        }
        mk_eager_unfold_slprop(pred_name, &args, mk_star(&o.props))
    }

    /// The predicate of a typedef.
    pub fn emit_typedef_pred(
        &mut self,
        env: &Env,
        k: &TypeRefKind,
        body: &Rc<Type>,
        is_init: bool,
        this_arg: Doc,
        this: &Rc<Ident>,
    ) -> (out: Doc)
        ensures
            (*final(self), out) == spec_emit_typedef_pred(*old(self), *env, *k, *body, is_init, this_arg, *this),
            extends(final(self).diags, old(self).diags),
            final(self).fn_module_map == old(self).fn_module_map,
            final(self).typedef_override_map == old(self).typedef_override_map,
    {
        proof {
            reveal(spec_emit_typedef_pred);
        }
        let pred_name = self.emit_name(if is_init { Name::TypeRefPred(type_ref(k)) } else { Name::TypeRefUninitPred(type_ref(k)) });
        let variant = if is_init { SLPropVariant::Init { perm: txt("p") } } else { SLPropVariant::Uninit };
        let o = self.emit_type_slprop(env, body, &variant, owned_standard(false), &mk_rvar(this));
        self.finish_pred_decl(k, is_init, pred_name, this_arg, o)
    }

    /// The predicate of a struct's memory that is not initialized.
    pub fn emit_struct_uninit_pred(
        &mut self,
        env: &Env,
        k: &TypeRefKind,
        fields: &Rc<List<Field>>,
        this_arg: Doc,
        this: &Rc<Ident>,
    ) -> (out: Doc)
        ensures
            (*final(self), out) == spec_emit_struct_uninit_pred(*old(self), *env, *k, *fields, this_arg, *this),
            extends(final(self).diags, old(self).diags),
            final(self).fn_module_map == old(self).fn_module_map,
            final(self).typedef_override_map == old(self).typedef_override_map,
    {
        proof {
            reveal(spec_emit_struct_uninit_pred);
        }
        let pred_name = self.emit_name(Name::TypeRefUninitPred(type_ref(k)));
        let o = self.emit_fields_slprop(env, fields, &SLPropVariant::Uninit, owned_standard(false), this);
        self.finish_pred_decl(k, false, pred_name, this_arg, o)
    }
}

} // verus!
