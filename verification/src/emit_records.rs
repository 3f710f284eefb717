//! Emission of typedefs, structs and unions.

use crate::list::{
    List, bump, cons, l1, l2, l3, l4, l5, l6, list_append, list_is_empty, list_push, nil,
    spec_bump, spec_cons, spec_l1, spec_l2, spec_l3, spec_l4, spec_l5, spec_l6, spec_list_append,
    spec_list_is_empty, spec_list_push, spec_nil,
};
use crate::text::{Text, cat, cat3, lit, spec_cat, spec_cat3, spec_lit};
use crate::ir::{
    ExprT, Field, FieldT, Ident, Loc, StructDefn, TypeDefn, TypeRefKind, UnionDefn,
    field_flex_info, field_is_array, field_name, field_type, has_flex_field, mk_expr, mk_ident,
    mk_rvar, mk_type_ref, spec_field_flex_info, spec_field_is_array, spec_field_name,
    spec_field_type, spec_has_flex_field, spec_mk_expr, spec_mk_ident, spec_mk_rvar,
    spec_mk_type_ref,
};
use crate::diag::extends;
use crate::doc::{
    Doc, DocT, concat, d2, d3, d4, d5, d6, d7, d8, d9, group, group_all, hardline, intersperse,
    line, nary_no_parens, naryfn, nest, nil_doc, parens, spec_concat, spec_d2, spec_d3, spec_d4,
    spec_d5, spec_d6, spec_d7, spec_d8, spec_d9, spec_group, spec_group_all, spec_hardline,
    spec_intersperse, spec_line, spec_nary_no_parens, spec_naryfn, spec_nest, spec_nil_doc,
    spec_parens, spec_text_doc, spec_txt, spec_unaryfn, text_doc, txt, unaryfn,
};
use crate::env::{
    Env, occupies_space, push_struct, push_this, push_typedef, push_union, spec_occupies_space,
    spec_push_struct, spec_push_this, spec_push_typedef, spec_push_union,
};
use crate::names::{Name, TypeRef, spec_type_ref, spec_type_ref_module, type_ref, type_ref_module};
use crate::emit_base::{
    Emitter, ExBinding, ValParams, binder, mk_assume_val, mk_eager_unfold_slprop,
    mk_folded_slprop, mk_fun, mk_instance, mk_let, mk_sizeof_pos_axiom, mk_star, mk_thunk,
    spec_binder, spec_emit_name, spec_emit_var_name, spec_local_name, spec_mangle_name,
    spec_mk_assume_val, spec_mk_eager_unfold_slprop, spec_mk_folded_slprop, spec_mk_fun,
    spec_mk_instance, spec_mk_let, spec_mk_sizeof_pos_axiom, spec_mk_star, spec_mk_thunk,
    spec_wrap_exists, wrap_exists,
};
use crate::emit_types::{
    spec_emit_field_default, spec_emit_field_projection_type, spec_emit_field_record_type,
    spec_emit_type, spec_emit_type_default,
};
use crate::emit_exprs::{
    record_entry, record_literal, spec_emit_rvalue, spec_record_entry, spec_record_literal,
};
use crate::emit_slprop::{
    Naming, Owned, SLPropVariant, SpecCtx, owned_standard, spec_emit_struct_uninit_pred,
    spec_emit_type_slprop, spec_emit_typedef_pred, spec_owned_standard,
    spec_subst_flex_refine_pred, subst_flex_refine_pred,
};
use std::rc::Rc;
use vstd::prelude::*;

verus! {

broadcast use crate::diag::lemma_extends_trans;

/// What a struct's field contributes to the struct's predicate.
pub struct FieldSpecInfo {
    pub field_ident: Text,
    pub bindings: Rc<List<ExBinding>>,
    pub init_props: Rc<List<DocT>>,
}

/// The names that the parts of a struct's or union's declarations share.
pub struct RecordNames {
    /// The C name.
    pub name: Text,
    /// The F* type.
    pub ty: Doc,
    /// `ref` of the F* type.
    pub ref_ty: Doc,
}

/// What the fields of a record are tied to.
#[derive(Clone, Copy, Debug, PartialEq, Eq, Structural)]
pub enum FieldValue {
    /// The fields of the record value `vx`.
    Record,
    /// Values named after the fields.
    Args,
    /// Nothing: the memory is not initialized.
    Uninit,
}

/// `(x: ty)`, with the name and colon given together.
#[verifier::opaque]
pub open spec fn spec_typed(name: &'static str, ty: Doc) -> Doc
{
    spec_parens(spec_d3(spec_txt(name), spec_line(), ty))
}

/// `(x: ty)`, with the name and colon given together.
pub fn typed(name: &'static str, ty: Doc) -> (out: Doc)
    ensures
        out == spec_typed(name, ty),
{
    proof {
        reveal(spec_typed);
    }
    parens(d3(txt(name), line(), ty))
}

/// The name of a field's value.
#[verifier::opaque]
pub open spec fn spec_fold_arg(fld: Rc<Ident>) -> Doc
{
    spec_text_doc(spec_cat(spec_lit("v_"), fld.val))
}

/// The name of a field's value.
pub fn fold_arg(fld: &Rc<Ident>) -> (out: Doc)
    ensures
        out == spec_fold_arg(*fld),
{
    proof {
        reveal(spec_fold_arg);
    }
    text_doc(cat(lit("v_"), fld.val.clone()))
}

/// A ghost function's type.
#[verifier::opaque]
pub open spec fn spec_stt_ghost(pre: Doc, post: Doc) -> Doc
{
    spec_naryfn(spec_l5(spec_txt("stt_ghost"), spec_txt("unit"), spec_txt("emp_inames"), pre, post))
}

/// A ghost function's type.
pub fn stt_ghost(pre: Doc, post: Doc) -> (out: Doc)
    ensures
        out == spec_stt_ghost(pre, post),
{
    proof {
        reveal(spec_stt_ghost);
    }
    naryfn(&l5(txt("stt_ghost"), txt("unit"), txt("emp_inames"), pre, post))
}

/// The record predicate's spec bindings, of all fields.
pub open spec fn spec_all_bindings(l: Rc<List<FieldSpecInfo>>) -> Rc<List<ExBinding>>
    decreases l,
{
    match *l {
        List::Nil => spec_nil(),
        List::Cons(h, t) => spec_list_append(h.bindings, spec_all_bindings(t)),
    }
}

/// The record predicate's spec bindings, of all fields.
pub fn all_bindings(l: &Rc<List<FieldSpecInfo>>) -> (out: Rc<List<ExBinding>>)
    ensures
        out == spec_all_bindings(*l),
    decreases l,
{
    match &**l {
        List::Nil => nil(),
        List::Cons(h, t) => list_append(&h.bindings, all_bindings(t)),
    }
}

/// The record predicate's propositions, of all fields.
pub open spec fn spec_all_props(l: Rc<List<FieldSpecInfo>>) -> Rc<List<DocT>>
    decreases l,
{
    match *l {
        List::Nil => spec_nil(),
        List::Cons(h, t) => spec_list_append(h.init_props, spec_all_props(t)),
    }
}

/// The record predicate's propositions, of all fields.
pub fn all_props(l: &Rc<List<FieldSpecInfo>>) -> (out: Rc<List<DocT>>)
    ensures
        out == spec_all_props(*l),
    decreases l,
{
    match &**l {
        List::Nil => nil(),
        List::Cons(h, t) => list_append(&h.init_props, all_props(t)),
    }
}

/// `name: ty;` on a line of its own.
#[verifier::opaque]
pub open spec fn spec_record_field_line(name: Doc, ty: Doc) -> Doc
{
    spec_d2(spec_hardline(), spec_nest(spec_group(spec_d5(name, spec_txt(":"), spec_line(), ty, spec_txt(";")))))
}

/// `name: ty;` on a line of its own.
pub fn record_field_line(name: Doc, ty: Doc) -> (out: Doc)
    ensures
        out == spec_record_field_line(name, ty),
{
    proof {
        reveal(spec_record_field_line);
    }
    d2(hardline(), nest(group(d5(name, txt(":"), line(), ty, txt(";")))))
}

/// The fields of a spec record type.
pub open spec fn spec_spec_record_lines(l: Rc<List<ExBinding>>) -> Rc<List<DocT>>
    decreases l,
{
    match *l {
        List::Nil => spec_nil(),
        List::Cons(b, t) => spec_cons(spec_record_field_line(b.name, b.ty), spec_spec_record_lines(t)),
    }
}

/// The fields of a spec record type.
pub fn spec_record_lines(l: &Rc<List<ExBinding>>) -> (out: Rc<List<DocT>>)
    ensures
        out == spec_spec_record_lines(*l),
    decreases l,
{
    match &**l {
        List::Nil => nil(),
        List::Cons(b, t) => cons(record_field_line(b.name.clone(), b.ty.clone()), spec_record_lines(t)),
    }
}

/// A record type.
#[verifier::opaque]
pub open spec fn spec_record_type(
    keyword: &'static str,
    name: Doc,
    field_lines: Rc<List<DocT>>,
) -> Doc
{
    let head = spec_group(spec_d7(spec_txt(keyword), spec_line(), name, spec_line(), spec_txt("="), spec_line(), spec_txt("{")));
    spec_group(spec_d3(spec_nest(spec_d2(head, spec_concat(field_lines))), spec_line(), spec_txt("}")))
}

/// A record type.
pub fn record_type(keyword: &'static str, name: Doc, field_lines: &Rc<List<DocT>>) -> (out: Doc)
    ensures
        out == spec_record_type(keyword, name, *field_lines),
{
    proof {
        reveal(spec_record_type);
    }
    let head = group(d7(txt(keyword), line(), name, line(), txt("="), line(), txt("{")));
    group(d3(nest(d2(head, concat(field_lines))), line(), txt("}")))
}

/// The documents, each on a line of its own behind a text.
pub open spec fn spec_hard_clauses(acc: Doc, kw: &'static str, l: Rc<List<DocT>>) -> Doc
    decreases l,
{
    match *l {
        List::Nil => acc,
        List::Cons(h, t) => spec_hard_clauses(spec_d2(acc, spec_d3(spec_hardline(), spec_txt(kw), h)), kw, t),
    }
}

/// The documents, each on a line of its own behind a text.
pub fn hard_clauses(acc: Doc, kw: &'static str, l: &Rc<List<DocT>>) -> (out: Doc)
    ensures
        out == spec_hard_clauses(acc, kw, *l),
    decreases l,
{
    match &**l {
        List::Nil => acc,
        List::Cons(h, t) => hard_clauses(d2(acc, d3(hardline(), txt(kw), h.clone())), kw, t),
    }
}

/// A ghost function that opens or closes a struct's predicate.
#[verifier::opaque]
pub open spec fn spec_pred_ghost_fn(
    name: Doc,
    this_param: Doc,
    params: Doc,
    requires_doc: Doc,
    ensures_doc: Doc,
    body: Doc,
) -> Doc
{
    let head = spec_group(spec_d3(spec_txt("[@@pulse_intro]"), spec_hardline(), spec_d3(spec_txt("ghost fn"), spec_line(), name)));
    spec_d9(head, this_param, spec_d2(spec_hardline(), spec_txt("    (p: perm)")), params, requires_doc, ensures_doc, spec_d2(spec_hardline(), spec_txt("{")), body, spec_d2(spec_hardline(), spec_txt("}")))
}

/// A ghost function that opens or closes a struct's predicate.
pub fn pred_ghost_fn(
    name: Doc,
    this_param: Doc,
    params: Doc,
    requires_doc: Doc,
    ensures_doc: Doc,
    body: Doc,
) -> (out: Doc)
    ensures
        out == spec_pred_ghost_fn(name, this_param, params, requires_doc, ensures_doc, body),
{
    proof {
        reveal(spec_pred_ghost_fn);
    }
    let head = group(d3(txt("[@@pulse_intro]"), hardline(), d3(txt("ghost fn"), line(), name)));
    d9(head, this_param, d2(hardline(), txt("    (p: perm)")), params, requires_doc, ensures_doc,
        d2(hardline(), txt("{")), body, d2(hardline(), txt("}")))
}

/// `    (name: ty)` on a line of its own.
#[verifier::opaque]
pub open spec fn spec_param_line(name: Doc, ty: Doc) -> Doc
{
    spec_d6(spec_hardline(), spec_txt("    ("), name, spec_txt(": "), ty, spec_txt(")"))
}

/// `    (name: ty)` on a line of its own.
pub fn param_line(name: Doc, ty: Doc) -> (out: Doc)
    ensures
        out == spec_param_line(name, ty),
{
    proof {
        reveal(spec_param_line);
    }
    d6(hardline(), txt("    ("), name, txt(": "), ty, txt(")"))
}

/// An application of a struct's predicate at permission `p`.
#[verifier::opaque]
pub open spec fn spec_pred_app(pred: Doc, this: Doc, val: Doc) -> Doc
{
    spec_nary_no_parens(spec_l4(pred, this, spec_txt("p"), val))
}

/// An application of a struct's predicate at permission `p`.
pub fn pred_app(pred: &Doc, this: &Doc, val: Doc) -> (out: Doc)
    ensures
        out == spec_pred_app(*pred, *this, val),
{
    proof {
        reveal(spec_pred_app);
    }
    nary_no_parens(&l4(pred.clone(), this.clone(), txt("p"), val))
}

/// The documents in groups, each on a line of its own.
#[verifier::opaque]
pub open spec fn spec_declarations(l: Rc<List<DocT>>) -> Doc
{
    spec_intersperse(spec_group_all(l), spec_hardline())
}

/// The documents in groups, each on a line of its own.
pub fn declarations(l: &Rc<List<DocT>>) -> (out: Doc)
    ensures
        out == spec_declarations(*l),
{
    proof {
        reveal(spec_declarations);
    }
    intersperse(&group_all(l), &hardline())
}

/// A lemma with a trigger.
#[verifier::opaque]
pub open spec fn spec_lemma_type(fact: Doc, trigger: Doc) -> Doc
{
    spec_group(spec_nest(spec_d3(spec_txt("Lemma"), spec_d2(spec_line(), spec_parens(spec_d3(spec_txt("ensures"), spec_line(), fact))), spec_d2(spec_line(), spec_d3(spec_txt("[SMTPat "), trigger, spec_txt("]"))))))
}

/// A lemma with a trigger.
pub fn lemma_type(fact: Doc, trigger: Doc) -> (out: Doc)
    ensures
        out == spec_lemma_type(fact, trigger),
{
    proof {
        reveal(spec_lemma_type);
    }
    group(nest(d3(txt("Lemma"), d2(line(), parens(d3(txt("ensures"), line(), fact))), d2(line(), d3(txt("[SMTPat "), trigger, txt("]"))))))
}

/// The instance that gives a type its zero value.
#[verifier::opaque]
pub open spec fn spec_zero_instance(name: Doc, ty: Doc, body: Doc) -> Doc
{
    spec_mk_instance(name, spec_nil(), spec_unaryfn(spec_txt("has_zero_default"), ty), body)
}

/// The instance that gives a type its zero value.
pub fn zero_instance(name: Doc, ty: Doc, body: Doc) -> (out: Doc)
    ensures
        out == spec_zero_instance(name, ty, body),
{
    proof {
        reveal(spec_zero_instance);
    }
    mk_instance(name, &nil(), unaryfn(txt("has_zero_default"), ty), body)
}

/// `{ zero_default = v }`, laid out over lines.
#[verifier::opaque]
pub open spec fn spec_zero_body(v: Doc) -> Doc
{
    spec_group(spec_d3(spec_nest(spec_d3(spec_txt("{"), spec_line(), spec_group(spec_d3(spec_txt("zero_default ="), spec_line(), v)))), spec_line(), spec_txt("}")))
}

/// `{ zero_default = v }`, laid out over lines.
pub fn zero_body(v: Doc) -> (out: Doc)
    ensures
        out == spec_zero_body(v),
{
    proof {
        reveal(spec_zero_body);
    }
    group(d3(nest(d3(txt("{"), line(), group(d3(txt("zero_default ="), line(), v)))), line(), txt("}")))
}

/// An assumed type.
#[verifier::opaque]
pub open spec fn spec_assumed(name: Doc, ty: Doc) -> Doc
{
    spec_group(spec_d6(spec_txt("assume val"), spec_line(), name, spec_line(), spec_txt(":"), spec_d2(spec_line(), ty)))
}

/// An assumed type.
pub fn assumed(name: Doc, ty: Doc) -> (out: Doc)
    ensures
        out == spec_assumed(name, ty),
{
    proof {
        reveal(spec_assumed);
    }
    group(d6(txt("assume val"), line(), name, line(), txt(":"), d2(line(), ty)))
}

/// A typedef: the type, its predicates and its zero value.
///
/// As the state that [`Emitter::emit_typedef`] leaves, with its result.
#[verifier::opaque]
pub open spec fn spec_emit_typedef(st: Emitter, env: Env, d: Rc<TypeDefn>) -> (Emitter, Doc)
{
    let env1 = spec_push_typedef(env, d);
    let k = TypeRefKind::Typedef(d.name);
    let (st, t) = spec_emit_name(st, Name::TypeRef(spec_type_ref(k)));
    let (st, v2) = spec_emit_type(st, env1, d.body);
    let ty_decl = spec_d3(spec_txt("unfold"), spec_line(), spec_mk_let(t, spec_nil(), spec_txt("Type"), v2));
    let env2 = spec_push_this(env1, spec_mk_type_ref(d.name.loc, k));
    let this = spec_mk_ident(d.name.loc, spec_lit("this"));
    let (st, v3) = spec_emit_var_name(st, this.val);
    let this_arg = spec_parens(spec_d5(spec_txt("[@@@mkey] "), v3, spec_txt(":"), spec_line(), t));
    let (st, pred) = spec_emit_typedef_pred(st, env2, k, d.body, true, this_arg, this);
    let (st, uninit_pred) = spec_emit_typedef_pred(st, env2, k, d.body, false, this_arg, this);
    let (st, default_name) = spec_emit_name(st, Name::TypeRefDefault(spec_type_ref(k)));
    let (st, named) = spec_emit_name(st, Name::TypeRef(spec_type_ref(k)));
    let (st, v8) = spec_emit_type_default(st, env2, d.body);
    let default = spec_zero_instance(default_name, named, spec_zero_body(v8));
    (st, spec_intersperse(spec_l4(ty_decl, pred, uninit_pred, default), spec_line()))
}

/// A struct that is only declared: everything about it is assumed.
///
/// As the state that [`Emitter::emit_struct_decl`] leaves, with its result.
#[verifier::opaque]
pub open spec fn spec_emit_struct_decl(st: Emitter, name: Rc<Ident>) -> (Emitter, Doc)
{
    let k = TypeRefKind::Struct(name);
    let (st, ty) = spec_emit_name(st, Name::TypeRef(spec_type_ref(k)));
    let (st, pred) = spec_emit_name(st, Name::TypeRefPred(spec_type_ref(k)));
    let (st, uninit_pred) = spec_emit_name(st, Name::TypeRefUninitPred(spec_type_ref(k)));
    let (st, default_name) = spec_emit_name(st, Name::TypeRefDefault(spec_type_ref(k)));
    let (st, default_value) = spec_emit_name(st, Name::StructAuxFn(name.val, "zero_default"));
    (st, spec_intersperse(spec_l5(spec_group(spec_d5(spec_txt("assume val"), spec_line(), ty, spec_line(), spec_txt(": Type0"))), spec_assumed(pred, spec_d9(ty, spec_line(), spec_txt("->"), spec_line(), spec_txt("perm"), spec_line(), spec_txt("->"), spec_line(), spec_txt("slprop"))), spec_assumed(uninit_pred, spec_d5(ty, spec_line(), spec_txt("->"), spec_line(), spec_txt("slprop"))), spec_assumed(default_value, ty), spec_zero_instance(default_name, ty, spec_group(spec_d3(spec_txt("{ zero_default = "), default_value, spec_txt(" }"))))), spec_hardline()))
}

/// The fields of a struct's record type.
///
/// As the state that [`Emitter::emit_record_lines`] leaves, with its result.
pub open spec fn spec_emit_record_lines(
    st: Emitter,
    env: Env,
    s: Text,
    fields: Rc<List<Field>>,
) -> (Emitter, Rc<List<DocT>>)
    decreases fields,
{
    match *fields {
        List::Nil => (st, spec_nil()),
        List::Cons(f, t) => {
            let (st, name) = spec_emit_name(st, Name::StructDirectFieldName(s, spec_field_name(f).val));
            let (st, ty) = spec_emit_field_record_type(st, env, f);
            let (st, v3) = spec_emit_record_lines(st, env, s, t);
            (st, spec_cons(spec_record_field_line(name, ty), v3))
        },
    }
}

/// The axiom that a record has a size above zero, where that is sure.
///
/// As the state that [`Emitter::emit_sizeof_axiom`] leaves, with its result.
#[verifier::opaque]
pub open spec fn spec_emit_sizeof_axiom(
    st: Emitter,
    env: Env,
    k: TypeRefKind,
    loc: Loc,
    ty: Doc,
) -> (Emitter, Rc<List<DocT>>)
{
    if spec_occupies_space(env, spec_mk_type_ref(loc, k)) {
        let (st, name) = spec_emit_name(st, Name::TypeRefSizeofPos(spec_type_ref(k)));
        (st, spec_l1(spec_mk_sizeof_pos_axiom(name, ty)))
    } else {
        (st, spec_nil())
    }
}

/// What the fields contribute to the struct's predicate. Arrays stored in place contribute
/// nothing: their contents belong to the record.
///
/// As the state that [`Emitter::emit_field_specs`] leaves, with its result.
pub open spec fn spec_emit_field_specs(
    st: Emitter,
    env: Env,
    k: TypeRefKind,
    spec_param: Doc,
    this: Rc<Ident>,
    fields: Rc<List<Field>>,
) -> (Emitter, Rc<List<FieldSpecInfo>>)
    decreases fields,
{
    match *fields {
        List::Nil => (st, spec_nil()),
        List::Cons(f, t) => {
            if spec_field_is_array(f) {
                spec_emit_field_specs(st, env, k, spec_param, this, t)
            } else {
                let name = spec_field_name(f);
                let ctx = Rc::new(SpecCtx { spec_param, type_ref: spec_type_ref(k), field_name: name.val });
                let (st, o) = spec_emit_type_slprop(st, env, spec_field_type(f), SLPropVariant::Init { perm: spec_txt("p") }, Owned { naming: Naming { spec: Some(ctx), quote: false, bindings: spec_nil() }, props: spec_nil() }, spec_mk_expr(name.loc, ExprT::Member(spec_mk_rvar(this), name)));
                let info = Rc::new(FieldSpecInfo { field_ident: name.val, bindings: o.naming.bindings, init_props: o.props });
                let (st, v2) = spec_emit_field_specs(st, env, k, spec_param, this, t);
                (st, spec_cons(info, v2))
            }
        },
    }
}

/// The facts that the refinements of flexible array members contribute.
///
/// As the state that [`Emitter::emit_flex_props`] leaves, with its result.
pub open spec fn spec_emit_flex_props(
    st: Emitter,
    env: Env,
    this: Rc<Ident>,
    fields: Rc<List<Field>>,
) -> (Emitter, Rc<List<DocT>>)
    decreases fields,
{
    match *fields {
        List::Nil => (st, spec_nil()),
        List::Cons(f, t) => {
            match spec_field_flex_info(f) {
                Some(flex) => {
                    match flex.pred {
                        Some(p) => {
                            let (st, d) = spec_emit_rvalue(st, env, spec_subst_flex_refine_pred(p, spec_field_name(f), this));
                            let (st, v2) = spec_emit_flex_props(st, env, this, t);
                            (st, spec_cons(d, v2))
                        },
                        None => spec_emit_flex_props(st, env, this, t),
                    }
                },
                None => spec_emit_flex_props(st, env, this, t),
            }
        },
    }
}

/// The parameters of the function that closes a struct's predicate, for one field: one for
/// each ghost value, numbered from `i`.
///
/// As the state that [`Emitter::fold_params`] leaves, with its result.
pub open spec fn spec_fold_params(
    st: Emitter,
    field: Text,
    i: u64,
    l: Rc<List<ExBinding>>,
) -> (Emitter, Rc<List<DocT>>)
    decreases l,
{
    match *l {
        List::Nil => (st, spec_nil()),
        List::Cons(b, t) => {
            let (st, name) = spec_local_name(st, Name::Val(field, i));
            let (st, v2) = spec_fold_params(st, field, spec_bump(i), t);
            (st, spec_cons(spec_param_line(name, b.ty), v2))
        },
    }
}

/// The fields of the spec record that the function builds, for one field of the struct.
///
/// As the state that [`Emitter::fold_fields`] leaves, with its result.
pub open spec fn spec_fold_fields(
    st: Emitter,
    field: Text,
    i: u64,
    l: Rc<List<ExBinding>>,
) -> (Emitter, Rc<List<DocT>>)
    decreases l,
{
    match *l {
        List::Nil => (st, spec_nil()),
        List::Cons(b, t) => {
            let (st, name) = spec_local_name(st, Name::Val(field, i));
            let (st, v2) = spec_fold_fields(st, field, spec_bump(i), t);
            (st, spec_cons(spec_d6(spec_hardline(), spec_txt("    "), b.name, spec_txt(" = "), name, spec_txt(";")), v2))
        },
    }
}

/// The parameters, for all fields.
///
/// As the state that [`Emitter::all_fold_params`] leaves, with its result.
pub open spec fn spec_all_fold_params(
    st: Emitter,
    l: Rc<List<FieldSpecInfo>>,
) -> (Emitter, Rc<List<DocT>>)
    decreases l,
{
    match *l {
        List::Nil => (st, spec_nil()),
        List::Cons(h, t) => {
            let (st, ps) = spec_fold_params(st, h.field_ident, 0, h.bindings);
            let (st, v2) = spec_all_fold_params(st, t);
            (st, spec_list_append(ps, v2))
        },
    }
}

/// The fields of the spec record, for all fields of the struct.
///
/// As the state that [`Emitter::all_fold_fields`] leaves, with its result.
pub open spec fn spec_all_fold_fields(
    st: Emitter,
    l: Rc<List<FieldSpecInfo>>,
) -> (Emitter, Rc<List<DocT>>)
    decreases l,
{
    match *l {
        List::Nil => (st, spec_nil()),
        List::Cons(h, t) => {
            let (st, fs) = spec_fold_fields(st, h.field_ident, 0, h.bindings);
            let (st, v2) = spec_all_fold_fields(st, t);
            (st, spec_list_append(fs, v2))
        },
    }
}

/// The propositions that the function takes, with ghost values of their own for each field.
///
/// As the state that [`Emitter::emit_fold_requires`] leaves, with its result.
pub open spec fn spec_emit_fold_requires(
    st: Emitter,
    env: Env,
    this: Rc<Ident>,
    fields: Rc<List<Field>>,
) -> (Emitter, Rc<List<DocT>>)
    decreases fields,
{
    match *fields {
        List::Nil => (st, spec_nil()),
        List::Cons(f, t) => {
            if spec_field_is_array(f) {
                spec_emit_fold_requires(st, env, this, t)
            } else {
                let name = spec_field_name(f);
                let (st, o) = spec_emit_type_slprop(st, env, spec_field_type(f), SLPropVariant::Init { perm: spec_txt("p") }, spec_owned_standard(false), spec_mk_expr(name.loc, ExprT::Member(spec_mk_rvar(this), name)));
                let (st, v2) = spec_emit_fold_requires(st, env, this, t);
                (st, spec_list_append(o.props, v2))
            }
        },
    }
}

/// The functions that open and close a struct's predicate.
///
/// As the state that [`Emitter::emit_pred_fns`] leaves, with its result.
#[verifier::opaque]
pub open spec fn spec_emit_pred_fns(
    st: Emitter,
    env: Env,
    d: Rc<StructDefn>,
    k: TypeRefKind,
    this: Rc<Ident>,
    this_doc: Doc,
    pred: Doc,
    spec_param: Doc,
    spec_ty: Doc,
    struct_ty: Doc,
    specs: Rc<List<FieldSpecInfo>>,
    init_props: Rc<List<DocT>>,
) -> (Emitter, Rc<List<DocT>>)
{
    let (st, unfold_name) = spec_local_name(st, Name::TypeRefPredUnfold(spec_type_ref(k)));
    let this_param = spec_param_line(this_doc, struct_ty);
    let app = spec_pred_app(pred, this_doc, spec_param);
    let unfold_fn = spec_pred_ghost_fn(unfold_name, this_param, spec_param_line(spec_param, spec_ty), spec_d3(spec_hardline(), spec_txt("  requires "), app), spec_hard_clauses(spec_nil_doc(), "  ensures ", init_props), spec_d3(spec_hardline(), spec_txt("  unfold "), app));
    let (st, fold_name) = spec_local_name(st, Name::TypeRefPredFold(spec_type_ref(k)));
    let (st, params) = spec_all_fold_params(st, specs);
    let (st, spec_fields) = spec_all_fold_fields(st, specs);
    let (st, fold_requires) = spec_emit_fold_requires(st, env, this, d.fields);
    let literal = spec_parens(spec_d4(spec_txt("{"), spec_concat(spec_fields), spec_hardline(), spec_txt("  }")));
    let fold_app = spec_pred_app(pred, this_doc, literal);
    let fold_fn = spec_pred_ghost_fn(fold_name, this_param, spec_concat(params), spec_hard_clauses(spec_nil_doc(), "  requires ", fold_requires), spec_d3(spec_hardline(), spec_txt("  ensures "), fold_app), spec_d3(spec_hardline(), spec_txt("  fold "), fold_app));
    (st, spec_l2(unfold_fn, fold_fn))
}

/// A struct's spec record type and predicates, and the functions that open and close them.
///
/// As the state that [`Emitter::emit_struct_preds`] leaves, with its result.
#[verifier::opaque]
pub open spec fn spec_emit_struct_preds(
    st: Emitter,
    env: Env,
    d: Rc<StructDefn>,
    k: TypeRefKind,
    struct_ty: Doc,
) -> (Emitter, Rc<List<DocT>>)
{
    let this = spec_mk_ident(d.name.loc, spec_lit("this"));
    let (st, this_doc) = spec_local_name(st, Name::Var(this.val));
    let this_arg = spec_parens(spec_d5(spec_txt("[@@@mkey] "), this_doc, spec_txt(":"), spec_line(), struct_ty));
    let (st, spec_param) = spec_local_name(st, Name::Val(d.name.val, 0));
    let (st, specs) = spec_emit_field_specs(st, env, k, spec_param, this, d.fields);
    let bindings = spec_all_bindings(specs);
    let has_spec = !spec_list_is_empty(bindings);
    let (st, spec_text) = spec_mangle_name(st, Rc::new(Name::TypeRefSpec(spec_type_ref(k))));
    let spec_ty = spec_text_doc(spec_text);
    let qualified_spec_ty = spec_text_doc(spec_cat3(spec_type_ref_module(spec_type_ref(k)), spec_lit("."), spec_text));
    let spec_decl = if has_spec {
        spec_l1(spec_record_type("[@@erasable] noeq type", spec_ty, spec_spec_record_lines(bindings)))
    } else {
        spec_nil()
    };
    let st = Emitter { type_val_params: spec_cons(Rc::new(ValParams { key: spec_type_ref(k), types: if has_spec {
                        spec_l1(qualified_spec_ty)
                    } else {
                        spec_nil()
                    } }), st.type_val_params), ..st };
    let (st, flex_props) = spec_emit_flex_props(st, env, this, d.fields);
    let init_props = spec_list_append(spec_all_props(specs), flex_props);
    let (st, pred) = spec_local_name(st, Name::TypeRefPred(spec_type_ref(k)));
    let perm_arg = spec_parens(spec_txt("p: perm"));
    let pred_decl = if has_spec {
        let args = spec_l3(this_arg, perm_arg, spec_binder(spec_param, spec_ty));
        if d.eager_unfold_pred {
            spec_mk_eager_unfold_slprop(pred, args, spec_mk_star(init_props))
        } else {
            spec_mk_folded_slprop(pred, args, spec_mk_star(init_props))
        }
    } else {
        spec_mk_eager_unfold_slprop(pred, spec_l2(this_arg, perm_arg), spec_mk_star(init_props))
    };
    let (st, uninit_decl) = spec_emit_struct_uninit_pred(st, env, k, d.fields, this_arg, this);
    let (st, fns) = if has_spec && !d.eager_unfold_pred {
        spec_emit_pred_fns(st, env, d, k, this, this_doc, pred, spec_param, spec_ty, struct_ty, specs, init_props)
    } else {
        (st, spec_nil())
    };
    (st, spec_list_append(spec_decl, spec_cons(pred_decl, spec_cons(uninit_decl, fns))))
}

/// The ghost projection of a struct's field, applied.
///
/// As the state that [`Emitter::struct_proj`] leaves, with its result.
#[verifier::opaque]
pub open spec fn spec_struct_proj(st: Emitter, s: Text, fld: Rc<Ident>, arg: Doc) -> (Emitter, Doc)
{
    let (st, v1) = spec_emit_name(st, Name::StructGhostFieldProj(s, fld.val));
    (st, spec_unaryfn(v1, arg))
}

/// The ghost projections of fields.
///
/// As the state that [`Emitter::emit_struct_projs`] leaves, with its result.
pub open spec fn spec_emit_struct_projs(
    st: Emitter,
    env: Env,
    r: RecordNames,
    fields: Rc<List<Field>>,
) -> (Emitter, Rc<List<DocT>>)
    decreases fields,
{
    match *fields {
        List::Nil => (st, spec_nil()),
        List::Cons(f, t) => {
            let (st, ty) = spec_emit_field_projection_type(st, env, f);
            let (st, name) = spec_emit_name(st, Name::StructGhostFieldProj(r.name, spec_field_name(f).val));
            let decl = spec_mk_assume_val(spec_nil(), name, spec_l1(spec_typed("x:", r.ref_ty)), spec_group(spec_d3(spec_txt("GTot"), spec_line(), ty)));
            let (st, v3) = spec_emit_struct_projs(st, env, r, t);
            (st, spec_cons(decl, v3))
        },
    }
}

/// The way back from a field's address to the struct's, with the two lemmas that tie it to
/// the projection.
///
/// As the state that [`Emitter::emit_container`] leaves, with its result.
#[verifier::opaque]
pub open spec fn spec_emit_container(
    st: Emitter,
    env: Env,
    r: RecordNames,
    f: Rc<Field>,
) -> (Emitter, Rc<List<DocT>>)
{
    let fld = spec_field_name(f);
    let (st, ty) = spec_emit_field_projection_type(st, env, f);
    let (st, container) = spec_emit_name(st, Name::StructContainerFn(r.name, fld.val));
    let decl = spec_mk_assume_val(spec_nil(), container, spec_l1(spec_typed("r:", ty)), r.ref_ty);
    let (st, proj) = spec_emit_name(st, Name::StructGhostFieldProj(r.name, fld.val));
    let (st, inv_name) = spec_emit_name(st, Name::StructContainerInv(r.name, fld.val));
    let round = spec_unaryfn(container, spec_unaryfn(proj, spec_txt("p")));
    let inv = spec_mk_assume_val(spec_nil(), inv_name, spec_l1(spec_typed("p:", r.ref_ty)), spec_lemma_type(spec_d2(round, spec_txt(" == p")), round));
    let (st, dual_ty) = spec_emit_field_projection_type(st, env, f);
    let (st, dual_name) = spec_emit_name(st, Name::StructProjContainerInv(r.name, fld.val));
    let dual_round = spec_unaryfn(proj, spec_unaryfn(container, spec_txt("r")));
    let dual = spec_mk_assume_val(spec_nil(), dual_name, spec_l1(spec_typed("r:", dual_ty)), spec_lemma_type(spec_d2(dual_round, spec_txt(" == r")), dual_round));
    (st, spec_l3(decl, inv, dual))
}

/// The ways back from the fields' addresses.
///
/// As the state that [`Emitter::emit_containers`] leaves, with its result.
pub open spec fn spec_emit_containers(
    st: Emitter,
    env: Env,
    r: RecordNames,
    fields: Rc<List<Field>>,
) -> (Emitter, Rc<List<DocT>>)
    decreases fields,
{
    match *fields {
        List::Nil => (st, spec_nil()),
        List::Cons(f, t) => {
            let (st, ds) = spec_emit_container(st, env, r, f);
            let (st, v2) = spec_emit_containers(st, env, r, t);
            (st, spec_list_append(ds, v2))
        },
    }
}

/// That the first field of the null struct is null: it is at offset 0, where the way back is
/// the identity. It holds of a plain field only, whose projection is a `ref`.
///
/// As the state that [`Emitter::emit_proj_null`] leaves, with its result.
#[verifier::opaque]
pub open spec fn spec_emit_proj_null(
    st: Emitter,
    env: Env,
    r: RecordNames,
    fields: Rc<List<Field>>,
) -> (Emitter, Rc<List<DocT>>)
{
    match *fields {
        List::Nil => (st, spec_nil()),
        List::Cons(f, _) => {
            if spec_field_is_array(f) {
                (st, spec_nil())
            } else {
                match f.val {
                    FieldT::BitField { .. } => (st, spec_nil()),
                    FieldT::Plain { name, ty } => {
                        let (st, inner_ty) = spec_emit_type(st, env, ty);
                        let null_inner = spec_parens(spec_d2(spec_txt("Pulse.Lib.Reference.null #"), spec_parens(inner_ty)));
                        let null_outer = spec_parens(spec_d2(spec_txt("Pulse.Lib.Reference.null #"), spec_parens(r.ty)));
                        let (st, app) = spec_struct_proj(st, r.name, name, null_outer);
                        let fact = spec_parens(spec_d4(app, spec_txt(" =="), spec_line(), null_inner));
                        let (st, n) = spec_emit_name(st, Name::StructProjNull(r.name, name.val));
                        (st, spec_l1(spec_mk_assume_val(spec_nil(), n, spec_nil(), spec_unaryfn(spec_txt("squash"), fact))))
                    },
                }
            }
        },
    }
}

/// What a struct's field is tied to.
///
/// As the state that [`Emitter::emit_field_value`] leaves, with its result.
#[verifier::opaque]
pub open spec fn spec_emit_field_value(
    st: Emitter,
    s: Text,
    fld: Rc<Ident>,
    value: FieldValue,
) -> (Emitter, Doc)
{
    match value {
        FieldValue::Record => {
            let (st, v1) = spec_emit_name(st, Name::StructDirectFieldName(s, fld.val));
            (st, spec_d2(spec_txt("vx."), v1))
        },
        FieldValue::Args => (st, spec_fold_arg(fld)),
        FieldValue::Uninit => (st, spec_nil_doc()),
    }
}

/// The ownership of each field of the struct at `x`.
///
/// As the state that [`Emitter::emit_fields_pts_to`] leaves, with its result.
pub open spec fn spec_emit_fields_pts_to(
    st: Emitter,
    s: Text,
    fields: Rc<List<Field>>,
    value: FieldValue,
) -> (Emitter, Rc<List<DocT>>)
    decreases fields,
{
    match *fields {
        List::Nil => (st, spec_nil()),
        List::Cons(f, t) => {
            let fld = spec_field_name(f);
            let (st, proj) = spec_struct_proj(st, s, fld, spec_txt("x"));
            let (st, v) = spec_emit_field_value(st, s, fld, value);
            let d = match (value, spec_field_is_array(f)) {
                (FieldValue::Uninit, true) => spec_naryfn(spec_l2(spec_txt("array_pts_to_uninit'"), proj)),
                (FieldValue::Uninit, false) => spec_naryfn(spec_l2(spec_txt("Pulse.Lib.Reference.pts_to_uninit"), proj)),
                (_, true) => spec_naryfn(spec_l4(spec_txt("array_pts_to"), proj, spec_txt("p"), v)),
                (_, false) => spec_naryfn(spec_l4(spec_txt("Pulse.Lib.Reference.pts_to"), proj, spec_txt("#p"), v)),
            };
            let (st, v3) = spec_emit_fields_pts_to(st, s, t, value);
            (st, spec_cons(d, v3))
        },
    }
}

/// The arguments of the function that folds a struct: a value for each field, at its type
/// where the field is an array.
///
/// As the state that [`Emitter::emit_fold_args`] leaves, with its result.
pub open spec fn spec_emit_fold_args(
    st: Emitter,
    env: Env,
    fields: Rc<List<Field>>,
) -> (Emitter, Rc<List<DocT>>)
    decreases fields,
{
    match *fields {
        List::Nil => (st, spec_nil()),
        List::Cons(f, t) => {
            let fld = spec_field_name(f);
            let (st, d) = if spec_field_is_array(f) {
                let (st, v2) = spec_emit_field_record_type(st, env, f);
                (st, spec_binder(spec_fold_arg(fld), v2))
            } else {
                (st, spec_fold_arg(fld))
            };
            let (st, v3) = spec_emit_fold_args(st, env, t);
            (st, spec_cons(d, v3))
        },
    }
}

/// The record made of the values of the fields.
///
/// As the state that [`Emitter::emit_fold_entries`] leaves, with its result.
pub open spec fn spec_emit_fold_entries(
    st: Emitter,
    s: Text,
    fields: Rc<List<Field>>,
) -> (Emitter, Rc<List<DocT>>)
    decreases fields,
{
    match *fields {
        List::Nil => (st, spec_nil()),
        List::Cons(f, t) => {
            let fld = spec_field_name(f);
            let (st, name) = spec_emit_name(st, Name::StructDirectFieldName(s, fld.val));
            let (st, v2) = spec_emit_fold_entries(st, s, t);
            (st, spec_cons(spec_record_entry(name, spec_fold_arg(fld)), v2))
        },
    }
}

/// The ghost functions that split a struct's memory into its fields and put it together,
/// initialized and not.
///
/// As the state that [`Emitter::emit_raw_folds`] leaves, with its result.
#[verifier::opaque]
pub open spec fn spec_emit_raw_folds(
    st: Emitter,
    env: Env,
    r: RecordNames,
    unfolded: Doc,
    fields: Rc<List<Field>>,
) -> (Emitter, Rc<List<DocT>>)
{
    let x_arg = spec_typed("x:", r.ref_ty);
    let perm_arg = spec_parens(spec_txt("#p: perm"));
    let whole = spec_naryfn(spec_l4(spec_txt("Pulse.Lib.Reference.pts_to"), spec_txt("x"), spec_txt("#p"), spec_txt("vx")));
    let token = spec_naryfn(spec_l3(unfolded, spec_txt("x"), spec_txt("p")));
    let (st, unfold_name) = spec_emit_name(st, Name::StructAuxFn(r.name, "raw_unfold"));
    let (st, unfold_post) = spec_emit_fields_pts_to(st, r.name, fields, FieldValue::Record);
    let unfold = spec_mk_assume_val(spec_l1(spec_txt("pulse_intro")), unfold_name, spec_l3(x_arg, perm_arg, spec_typed("vx:", r.ty)), spec_stt_ghost(whole, spec_mk_thunk(spec_mk_star(spec_cons(token, unfold_post)))));
    let (st, fold_name) = spec_emit_name(st, Name::StructAuxFn(r.name, "raw_fold"));
    let (st, fold_args) = spec_emit_fold_args(st, env, fields);
    let (st, fold_pre) = spec_emit_fields_pts_to(st, r.name, fields, FieldValue::Args);
    let (st, v6) = spec_emit_fold_entries(st, r.name, fields);
    let record = spec_record_literal(v6);
    let fold = spec_mk_assume_val(spec_l1(spec_txt("pulse_intro")), fold_name, spec_cons(x_arg, spec_cons(perm_arg, fold_args)), spec_stt_ghost(spec_mk_star(spec_cons(token, fold_pre)), spec_mk_thunk(spec_naryfn(spec_l4(spec_txt("Pulse.Lib.Reference.pts_to"), spec_txt("x"), spec_txt("#p"), record)))));
    let uninit_token = spec_naryfn(spec_l3(unfolded, spec_txt("x"), spec_txt("1.0R")));
    let uninit_whole = spec_naryfn(spec_l2(spec_txt("Pulse.Lib.Reference.pts_to_uninit"), spec_txt("x")));
    let (st, fold_uninit_name) = spec_emit_name(st, Name::StructAuxFn(r.name, "raw_fold_uninit"));
    let (st, fold_uninit_pre) = spec_emit_fields_pts_to(st, r.name, fields, FieldValue::Uninit);
    let fold_uninit = spec_mk_assume_val(spec_l1(spec_txt("pulse_intro")), fold_uninit_name, spec_l1(x_arg), spec_stt_ghost(spec_mk_star(spec_cons(uninit_token, fold_uninit_pre)), spec_mk_thunk(uninit_whole)));
    let (st, unfold_uninit_name) = spec_emit_name(st, Name::StructAuxFn(r.name, "raw_unfold_uninit"));
    let (st, unfold_uninit_post) = spec_emit_fields_pts_to(st, r.name, fields, FieldValue::Uninit);
    let unfold_uninit = spec_mk_assume_val(spec_nil(), unfold_uninit_name, spec_l1(x_arg), spec_stt_ghost(uninit_whole, spec_mk_thunk(spec_mk_star(spec_cons(uninit_token, unfold_uninit_post)))));
    (st, spec_l4(unfold, fold, fold_uninit, unfold_uninit))
}

/// What an allocation with a flexible tail of length `n` gives for each field.
///
/// As the state that [`Emitter::emit_flex_posts`] leaves, with its result.
pub open spec fn spec_emit_flex_posts(
    st: Emitter,
    env: Env,
    s: Text,
    fields: Rc<List<Field>>,
    zeroed: bool,
) -> (Emitter, Rc<List<DocT>>)
    decreases fields,
{
    match *fields {
        List::Nil => (st, spec_nil()),
        List::Cons(f, t) => {
            let fld = spec_field_name(f);
            let (st, d) = match spec_field_flex_info(f) {
                Some(flex) => {
                    let (st, elem) = spec_emit_type(st, env, flex.elem);
                    let n = spec_parens(spec_txt("FStar.SizeT.v n"));
                    let contents = if zeroed {
                        spec_naryfn(spec_l4(spec_txt("array_spec_zeroed"), elem, n, spec_txt("zero_default")))
                    } else {
                        spec_naryfn(spec_l3(spec_txt("array_spec_uninit"), elem, n))
                    };
                    let (st, proj) = spec_struct_proj(st, s, fld, spec_txt("r"));
                    (st, spec_naryfn(spec_l4(spec_txt("array_pts_to"), proj, spec_txt("1.0R"), contents)))
                },
                None => {
                    let uninit = if spec_field_is_array(f) {
                        "array_pts_to_uninit'"
                    } else {
                        "Pulse.Lib.Reference.pts_to_uninit"
                    };
                    let (st, v4) = spec_struct_proj(st, s, fld, spec_txt("r"));
                    (st, spec_naryfn(spec_l2(spec_txt(uninit), v4)))
                },
            };
            let (st, v5) = spec_emit_flex_posts(st, env, s, t, zeroed);
            (st, spec_cons(d, v5))
        },
    }
}

/// An allocator of a struct with a flexible array member. The struct comes in parts: the
/// token, every other field without a value, and the tail with the given length.
///
/// As the state that [`Emitter::emit_flex_allocator`] leaves, with its result.
#[verifier::opaque]
pub open spec fn spec_emit_flex_allocator(
    st: Emitter,
    env: Env,
    r: RecordNames,
    unfolded: Doc,
    fields: Rc<List<Field>>,
    kind: &'static str,
    zeroed: bool,
) -> (Emitter, Doc)
{
    let token = spec_naryfn(spec_l3(unfolded, spec_txt("r"), spec_txt("1.0R")));
    let (st, posts) = spec_emit_flex_posts(st, env, r.name, fields, zeroed);
    let post = spec_cons(token, spec_list_push(posts, spec_naryfn(spec_l2(spec_txt("Pulse.Lib.C.Ref.freeable"), spec_txt("r")))));
    let (st, name) = spec_emit_name(st, Name::StructAuxFn(r.name, kind));
    (st, spec_mk_assume_val(spec_nil(), name, spec_l1(spec_parens(spec_txt("n: FStar.SizeT.t"))), spec_naryfn(spec_l4(spec_txt("stt"), r.ref_ty, spec_txt("emp"), spec_mk_fun(spec_txt("r"), spec_mk_star(post))))))
}

/// The allocators of a struct, if it has a flexible array member.
///
/// As the state that [`Emitter::emit_flex_allocators`] leaves, with its result.
#[verifier::opaque]
pub open spec fn spec_emit_flex_allocators(
    st: Emitter,
    env: Env,
    r: RecordNames,
    unfolded: Doc,
    fields: Rc<List<Field>>,
) -> (Emitter, Rc<List<DocT>>)
{
    if spec_has_flex_field(fields) {
        let (st, m) = spec_emit_flex_allocator(st, env, r, unfolded, fields, "malloc_flex", false);
        let (st, c) = spec_emit_flex_allocator(st, env, r, unfolded, fields, "calloc_flex", true);
        (st, spec_l2(m, c))
    } else {
        (st, spec_nil())
    }
}

/// The function that gives a field's address at run time.
///
/// As the state that [`Emitter::getter`] leaves, with its result.
#[verifier::opaque]
pub open spec fn spec_getter(
    st: Emitter,
    name: Doc,
    ref_ty: Doc,
    ret_type: Doc,
    unfolded: Doc,
    proj: Doc,
) -> (Emitter, Doc)
{
    let post = spec_mk_star(spec_l2(unfolded, spec_naryfn(spec_l3(spec_txt("rewrites_to"), spec_txt("vx'"), proj))));
    (st, spec_mk_assume_val(spec_l1(spec_txt("pulse_impure_spec_no_proof_required")), name, spec_l2(spec_typed("x:", ref_ty), spec_parens(spec_txt("#p: perm"))), spec_naryfn(spec_l6(spec_txt("stt_atomic"), ret_type, spec_txt("#PulseCore.Observability.Neutral"), spec_txt("emp_inames"), unfolded, spec_mk_fun(spec_txt("vx'"), post)))))
}

/// The functions that give the fields' addresses at run time.
///
/// As the state that [`Emitter::emit_struct_getters`] leaves, with its result.
pub open spec fn spec_emit_struct_getters(
    st: Emitter,
    env: Env,
    r: RecordNames,
    unfolded: Doc,
    fields: Rc<List<Field>>,
) -> (Emitter, Rc<List<DocT>>)
    decreases fields,
{
    match *fields {
        List::Nil => (st, spec_nil()),
        List::Cons(f, t) => {
            let fld = spec_field_name(f);
            let (st, ret) = spec_emit_field_projection_type(st, env, f);
            let (st, name) = spec_emit_name(st, Name::StructFieldProj(r.name, fld.val));
            let (st, proj) = spec_struct_proj(st, r.name, fld, spec_txt("x"));
            let (st, d) = spec_getter(st, name, r.ref_ty, ret, spec_naryfn(spec_l3(unfolded, spec_txt("x"), spec_txt("p"))), proj);
            let (st, v5) = spec_emit_struct_getters(st, env, r, unfolded, t);
            (st, spec_cons(d, v5))
        },
    }
}

/// The zero values of a struct's fields.
///
/// As the state that [`Emitter::emit_default_entries`] leaves, with its result.
pub open spec fn spec_emit_default_entries(
    st: Emitter,
    env: Env,
    s: Text,
    fields: Rc<List<Field>>,
) -> (Emitter, Rc<List<DocT>>)
    decreases fields,
{
    match *fields {
        List::Nil => (st, spec_nil()),
        List::Cons(f, t) => {
            let (st, name) = spec_emit_name(st, Name::StructDirectFieldName(s, spec_field_name(f).val));
            let (st, v) = spec_emit_field_default(st, env, f);
            let (st, v3) = spec_emit_default_entries(st, env, s, t);
            (st, spec_cons(spec_nest(spec_group(spec_d6(spec_line(), name, spec_txt(" ="), spec_line(), v, spec_txt(";")))), v3))
        },
    }
}

/// A struct: its record type, its predicates, its projections with their inverses, the ghost
/// functions that take its memory apart, its allocators, its getters and its zero value.
///
/// As the state that [`Emitter::emit_structdefn`] leaves, with its result.
#[verifier::opaque]
pub open spec fn spec_emit_structdefn(st: Emitter, env: Env, d: Rc<StructDefn>) -> (Emitter, Doc)
{
    let env1 = spec_push_struct(env, d);
    let st = Emitter { defining_struct: Some(d.name.val), ..st };
    let k = TypeRefKind::Struct(d.name);
    let (st, ty) = spec_emit_name(st, Name::TypeRef(spec_type_ref(k)));
    let r = RecordNames { name: d.name.val, ty, ref_ty: spec_unaryfn(spec_txt("ref"), ty) };
    let (st, field_lines) = spec_emit_record_lines(st, env1, r.name, d.fields);
    let record = spec_l1(spec_record_type("noeq type", ty, field_lines));
    let (st, sizeof) = spec_emit_sizeof_axiom(st, env1, k, d.name.loc, ty);
    let env2 = spec_push_this(env1, spec_mk_type_ref(d.name.loc, k));
    let (st, preds) = spec_emit_struct_preds(st, env2, d, k, ty);
    let (st, unfolded) = spec_emit_name(st, Name::StructAuxFn(r.name, "raw_unfolded"));
    let token = spec_l1(spec_mk_assume_val(spec_nil(), unfolded, spec_l2(spec_typed("[@@@mkey] x:", r.ref_ty), spec_parens(spec_txt("p: perm"))), spec_txt("slprop")));
    let (st, projs) = spec_emit_struct_projs(st, env2, r, d.fields);
    let (st, containers) = spec_emit_containers(st, env2, r, d.fields);
    let (st, proj_null) = spec_emit_proj_null(st, env2, r, d.fields);
    let (st, folds) = spec_emit_raw_folds(st, env2, r, unfolded, d.fields);
    let (st, allocators) = spec_emit_flex_allocators(st, env2, r, unfolded, d.fields);
    let (st, getters) = spec_emit_struct_getters(st, env2, r, unfolded, d.fields);
    let (st, default_name) = spec_emit_name(st, Name::TypeRefDefault(spec_type_ref(k)));
    let (st, entries) = spec_emit_default_entries(st, env2, r.name, d.fields);
    let default = spec_l1(spec_zero_instance(default_name, ty, spec_group(spec_d5(spec_nest(spec_d4(spec_txt("{"), spec_line(), spec_txt("zero_default = {"), spec_concat(entries))), spec_line(), spec_txt("}"), spec_line(), spec_txt("}")))));
    let st = Emitter { defining_struct: None, ..st };
    (st, spec_declarations(spec_list_append(record, spec_list_append(sizeof, spec_list_append(preds, spec_list_append(token, spec_list_append(projs, spec_list_append(containers, spec_list_append(proj_null, spec_list_append(folds, spec_list_append(allocators, spec_list_append(getters, default))))))))))))
}

/// The constructors of a union, one for each arm.
///
/// As the state that [`Emitter::emit_union_arms`] leaves, with its result.
pub open spec fn spec_emit_union_arms(
    st: Emitter,
    env: Env,
    r: RecordNames,
    fields: Rc<List<Field>>,
) -> (Emitter, Rc<List<DocT>>)
    decreases fields,
{
    match *fields {
        List::Nil => (st, spec_nil()),
        List::Cons(f, t) => {
            let (st, ctor) = spec_emit_name(st, Name::UnionFieldConstructor(r.name, spec_field_name(f).val));
            let (st, ty) = spec_emit_field_record_type(st, env, f);
            let (st, v3) = spec_emit_union_arms(st, env, r, t);
            (st, spec_cons(spec_d2(spec_hardline(), spec_nest(spec_group(spec_d8(spec_txt("| "), ctor, spec_txt(" :"), spec_line(), ty, spec_txt(" ->"), spec_line(), r.ty)))), v3))
        },
    }
}

/// The token of an arm's memory that was taken apart.
///
/// As the state that [`Emitter::union_token`] leaves, with its result.
#[verifier::opaque]
pub open spec fn spec_union_token(st: Emitter, u: Text, fld: Rc<Ident>) -> (Emitter, Doc)
{
    spec_emit_name(st, Name::UnionAuxFn(u, "raw_unfolded", fld.val))
}

/// The ghost projection of a union's arm, applied to `x`.
///
/// As the state that [`Emitter::union_proj`] leaves, with its result.
#[verifier::opaque]
pub open spec fn spec_union_proj(st: Emitter, u: Text, fld: Rc<Ident>) -> (Emitter, Doc)
{
    let (st, v1) = spec_emit_name(st, Name::UnionGhostFieldProj(u, fld.val));
    (st, spec_unaryfn(v1, spec_txt("x")))
}

/// The tokens of the arms.
///
/// As the state that [`Emitter::emit_union_tokens`] leaves, with its result.
pub open spec fn spec_emit_union_tokens(
    st: Emitter,
    r: RecordNames,
    fields: Rc<List<Field>>,
) -> (Emitter, Rc<List<DocT>>)
    decreases fields,
{
    match *fields {
        List::Nil => (st, spec_nil()),
        List::Cons(f, t) => {
            let (st, name) = spec_union_token(st, r.name, spec_field_name(f));
            let d = spec_mk_assume_val(spec_nil(), name, spec_l2(spec_typed("[@@@mkey] x:", r.ref_ty), spec_parens(spec_txt("p: perm"))), spec_txt("slprop"));
            let (st, v2) = spec_emit_union_tokens(st, r, t);
            (st, spec_cons(d, v2))
        },
    }
}

/// The ghost projections of the arms.
///
/// As the state that [`Emitter::emit_union_projs`] leaves, with its result.
pub open spec fn spec_emit_union_projs(
    st: Emitter,
    env: Env,
    r: RecordNames,
    fields: Rc<List<Field>>,
) -> (Emitter, Rc<List<DocT>>)
    decreases fields,
{
    match *fields {
        List::Nil => (st, spec_nil()),
        List::Cons(f, t) => {
            let (st, ty) = spec_emit_field_projection_type(st, env, f);
            let (st, name) = spec_emit_name(st, Name::UnionGhostFieldProj(r.name, spec_field_name(f).val));
            let d = spec_mk_assume_val(spec_nil(), name, spec_l1(spec_typed("x:", r.ref_ty)), spec_group(spec_d3(spec_txt("GTot"), spec_line(), ty)));
            let (st, v3) = spec_emit_union_projs(st, env, r, t);
            (st, spec_cons(d, v3))
        },
    }
}

/// The ownership of an arm, tied to a value.
///
/// As the state that [`Emitter::emit_arm_pts_to`] leaves, with its result.
#[verifier::opaque]
pub open spec fn spec_emit_arm_pts_to(
    st: Emitter,
    u: Text,
    f: Rc<Field>,
    value: Doc,
) -> (Emitter, Rc<List<DocT>>)
{
    let fld = spec_field_name(f);
    let (st, v1) = spec_union_token(st, u, fld);
    let token = spec_naryfn(spec_l3(v1, spec_txt("x"), spec_txt("p")));
    let (st, proj) = spec_union_proj(st, u, fld);
    let d = if spec_field_is_array(f) {
        spec_naryfn(spec_l4(spec_txt("array_pts_to"), proj, spec_txt("p"), value))
    } else {
        spec_naryfn(spec_l4(spec_txt("Pulse.Lib.Reference.pts_to"), proj, spec_txt("#p"), value))
    };
    (st, spec_l2(token, d))
}

/// The ghost functions that open and close an arm of a union.
///
/// As the state that [`Emitter::emit_arm_folds`] leaves, with its result.
#[verifier::opaque]
pub open spec fn spec_emit_arm_folds(
    st: Emitter,
    env: Env,
    r: RecordNames,
    f: Rc<Field>,
) -> (Emitter, Rc<List<DocT>>)
{
    let fld = spec_field_name(f);
    let x_arg = spec_typed("x:", r.ref_ty);
    let perm_arg = spec_parens(spec_txt("#p: perm"));
    let (st, ctor) = spec_emit_name(st, Name::UnionFieldConstructor(r.name, fld.val));
    let vx_arg = spec_typed("vx:", spec_group(spec_d6(r.ty, spec_txt("{"), ctor, spec_txt("?"), spec_line(), spec_txt("vx}"))));
    let payload = spec_parens(spec_group(spec_d4(ctor, spec_txt("?._0"), spec_line(), spec_txt("vx"))));
    let (st, post) = spec_emit_arm_pts_to(st, r.name, f, payload);
    let (st, unfold_name) = spec_emit_name(st, Name::UnionAuxFn(r.name, "raw_unfold", fld.val));
    let unfold = spec_mk_assume_val(spec_l1(spec_txt("pulse_intro")), unfold_name, spec_l3(x_arg, perm_arg, vx_arg), spec_stt_ghost(spec_naryfn(spec_l4(spec_txt("Pulse.Lib.Reference.pts_to"), spec_txt("x"), spec_txt("#p"), spec_txt("vx"))), spec_mk_thunk(spec_mk_star(post))));
    let (st, ty) = spec_emit_field_record_type(st, env, f);
    let (st, pre) = spec_emit_arm_pts_to(st, r.name, f, spec_fold_arg(fld));
    let (st, fold_name) = spec_emit_name(st, Name::UnionAuxFn(r.name, "raw_fold", fld.val));
    let v_arg = spec_parens(spec_d3(spec_text_doc(spec_cat3(spec_lit("v_"), fld.val, spec_lit(":"))), spec_line(), ty));
    let fold = spec_mk_assume_val(spec_l1(spec_txt("pulse_intro")), fold_name, spec_l3(x_arg, perm_arg, v_arg), spec_stt_ghost(spec_mk_star(pre), spec_mk_thunk(spec_naryfn(spec_l4(spec_txt("Pulse.Lib.Reference.pts_to"), spec_txt("x"), spec_txt("#p"), spec_unaryfn(ctor, spec_fold_arg(fld)))))));
    (st, spec_l2(unfold, fold))
}

/// The ghost functions that open and close the arms.
///
/// As the state that [`Emitter::emit_union_folds`] leaves, with its result.
pub open spec fn spec_emit_union_folds(
    st: Emitter,
    env: Env,
    r: RecordNames,
    fields: Rc<List<Field>>,
) -> (Emitter, Rc<List<DocT>>)
    decreases fields,
{
    match *fields {
        List::Nil => (st, spec_nil()),
        List::Cons(f, t) => {
            let (st, ds) = spec_emit_arm_folds(st, env, r, f);
            let (st, v2) = spec_emit_union_folds(st, env, r, t);
            (st, spec_list_append(ds, v2))
        },
    }
}

/// The functions that give the arms' addresses at run time.
///
/// As the state that [`Emitter::emit_union_getters`] leaves, with its result.
pub open spec fn spec_emit_union_getters(
    st: Emitter,
    env: Env,
    r: RecordNames,
    fields: Rc<List<Field>>,
) -> (Emitter, Rc<List<DocT>>)
    decreases fields,
{
    match *fields {
        List::Nil => (st, spec_nil()),
        List::Cons(f, t) => {
            let fld = spec_field_name(f);
            let (st, ret) = spec_emit_field_projection_type(st, env, f);
            let (st, v2) = spec_union_token(st, r.name, fld);
            let unfolded = spec_naryfn(spec_l3(v2, spec_txt("x"), spec_txt("p")));
            let (st, name) = spec_emit_name(st, Name::UnionFieldProj(r.name, fld.val));
            let (st, proj) = spec_union_proj(st, r.name, fld);
            let (st, d) = spec_getter(st, name, r.ref_ty, ret, unfolded, proj);
            let (st, v6) = spec_emit_union_getters(st, env, r, t);
            (st, spec_cons(d, v6))
        },
    }
}

/// The ghost axiom that makes an arm active. It takes memory without a value and gives the
/// arm's memory without a value: a write to the arm is what gives it one. An array keeps its
/// static length, so that its elements can be written.
///
/// As the state that [`Emitter::emit_arm_activation`] leaves, with its result.
#[verifier::opaque]
pub open spec fn spec_emit_arm_activation(
    st: Emitter,
    env: Env,
    r: RecordNames,
    f: Rc<Field>,
) -> (Emitter, Doc)
{
    let fld = spec_field_name(f);
    let (st, v1) = spec_union_token(st, r.name, fld);
    let token = spec_naryfn(spec_l3(v1, spec_txt("x"), spec_txt("1.0R")));
    let (st, proj) = spec_union_proj(st, r.name, fld);
    let (st, arm) = if spec_field_is_array(f) {
        let v = spec_fold_arg(fld);
        let (st, ty) = spec_emit_field_record_type(st, env, f);
        (st, spec_wrap_exists(spec_l1(Rc::new(ExBinding { name: v, ty })), spec_l1(spec_naryfn(spec_l4(spec_txt("array_pts_to"), proj, spec_txt("1.0R"), v)))))
    } else {
        (st, spec_naryfn(spec_l2(spec_txt("Pulse.Lib.Reference.pts_to_uninit"), proj)))
    };
    let (st, name) = spec_emit_name(st, Name::UnionActivateFn(r.name, fld.val));
    (st, spec_mk_assume_val(spec_nil(), name, spec_l1(spec_typed("x:", r.ref_ty)), spec_stt_ghost(spec_naryfn(spec_l2(spec_txt("Pulse.Lib.Reference.pts_to_uninit"), spec_txt("x"))), spec_mk_thunk(spec_mk_star(spec_l2(token, arm))))))
}

/// The activations of the arms, but for bit-fields.
///
/// As the state that [`Emitter::emit_activations`] leaves, with its result.
pub open spec fn spec_emit_activations(
    st: Emitter,
    env: Env,
    r: RecordNames,
    fields: Rc<List<Field>>,
) -> (Emitter, Rc<List<DocT>>)
    decreases fields,
{
    match *fields {
        List::Nil => (st, spec_nil()),
        List::Cons(f, t) => {
            match f.val {
                FieldT::BitField { .. } => spec_emit_activations(st, env, r, t),
                FieldT::Plain { .. } => {
                    let (st, d) = spec_emit_arm_activation(st, env, r, f);
                    let (st, v2) = spec_emit_activations(st, env, r, t);
                    (st, spec_cons(d, v2))
                },
            }
        },
    }
}

/// The zero value of a union: that of its first arm.
///
/// As the state that [`Emitter::emit_union_default`] leaves, with its result.
#[verifier::opaque]
pub open spec fn spec_emit_union_default(
    st: Emitter,
    env: Env,
    k: TypeRefKind,
    r: RecordNames,
    fields: Rc<List<Field>>,
) -> (Emitter, Rc<List<DocT>>)
{
    match *fields {
        List::Nil => (st, spec_nil()),
        List::Cons(f, _) => {
            let (st, name) = spec_emit_name(st, Name::TypeRefDefault(spec_type_ref(k)));
            let (st, ctor) = spec_emit_name(st, Name::UnionFieldConstructor(r.name, spec_field_name(f).val));
            let (st, v) = spec_emit_field_default(st, env, f);
            (st, spec_l1(spec_zero_instance(name, r.ty, spec_zero_body(spec_unaryfn(ctor, v)))))
        },
    }
}

/// A union: its type with a constructor for each arm, its predicates, and for each arm the
/// projection, the ghost functions, the getter and the activation; and its zero value.
///
/// As the state that [`Emitter::emit_uniondefn`] leaves, with its result.
#[verifier::opaque]
pub open spec fn spec_emit_uniondefn(st: Emitter, env: Env, d: Rc<UnionDefn>) -> (Emitter, Doc)
{
    let env1 = spec_push_union(env, d);
    let k = TypeRefKind::Union(d.name);
    let (st, ty) = spec_emit_name(st, Name::TypeRef(spec_type_ref(k)));
    let (st, pred) = spec_emit_name(st, Name::TypeRefPred(spec_type_ref(k)));
    let r = RecordNames { name: d.name.val, ty, ref_ty: spec_unaryfn(spec_txt("ref"), ty) };
    let (st, arms) = spec_emit_union_arms(st, env1, r, d.fields);
    let inductive = spec_l1(spec_group(spec_d6(spec_txt("noeq type"), spec_line(), ty, spec_line(), spec_txt("="), spec_concat(arms))));
    let (st, sizeof) = spec_emit_sizeof_axiom(st, env1, k, d.name.loc, ty);
    let env2 = spec_push_this(env1, spec_mk_type_ref(d.name.loc, k));
    let (st, v5) = spec_emit_var_name(st, spec_lit("this"));
    let this_arg = spec_parens(spec_d5(spec_txt("[@@@mkey] "), v5, spec_txt(":"), spec_line(), ty));
    let no_params = Rc::new(ValParams { key: spec_type_ref(k), types: spec_nil() });
    let st = Emitter { type_val_params: spec_cons(no_params, st.type_val_params), ..st };
    let st = Emitter { type_uninit_val_params: spec_cons(no_params, st.type_uninit_val_params), ..st };
    let pred_decl = spec_mk_eager_unfold_slprop(pred, spec_l2(this_arg, spec_parens(spec_txt("p: perm"))), spec_txt("emp"));
    let (st, uninit_pred) = spec_emit_name(st, Name::TypeRefUninitPred(spec_type_ref(k)));
    let uninit_decl = spec_mk_eager_unfold_slprop(uninit_pred, spec_l1(this_arg), spec_txt("emp"));
    let (st, tokens) = spec_emit_union_tokens(st, r, d.fields);
    let (st, projs) = spec_emit_union_projs(st, env2, r, d.fields);
    let (st, folds) = spec_emit_union_folds(st, env2, r, d.fields);
    let (st, getters) = spec_emit_union_getters(st, env2, r, d.fields);
    let (st, activations) = spec_emit_activations(st, env2, r, d.fields);
    let (st, default) = spec_emit_union_default(st, env2, k, r, d.fields);
    (st, spec_declarations(spec_list_append(inductive, spec_list_append(sizeof, spec_cons(pred_decl, spec_cons(uninit_decl, spec_list_append(tokens, spec_list_append(projs, spec_list_append(folds, spec_list_append(getters, spec_list_append(activations, default)))))))))))
}

impl Emitter {
    /// A typedef: the type, its predicates and its zero value.
    pub fn emit_typedef(&mut self, env: &Env, d: &Rc<TypeDefn>) -> (out: Doc)
        ensures
            (*final(self), out) == spec_emit_typedef(*old(self), *env, *d),
            extends(final(self).diags, old(self).diags),
            final(self).fn_module_map == old(self).fn_module_map,
            final(self).typedef_override_map == old(self).typedef_override_map,
    {
        proof {
            reveal(spec_emit_typedef);
        }
        let env1 = push_typedef(env, d.clone());
        let k = TypeRefKind::Typedef(d.name.clone());
        let t = self.emit_name(Name::TypeRef(type_ref(&k)));
        // The prover's loop detection relies on the `unfold`.
        let ty_decl = d3(txt("unfold"), line(), mk_let(t.clone(), &nil(), txt("Type"), self.emit_type(&env1, &d.body)));
        let env2 = push_this(&env1, mk_type_ref(&d.name.loc, &k));
        let this = mk_ident(&d.name.loc, lit("this"));
        let this_arg = parens(d5(txt("[@@@mkey] "), self.emit_var_name(&this.val), txt(":"), line(), t));
        let pred = self.emit_typedef_pred(&env2, &k, &d.body, true, this_arg.clone(), &this);
        let uninit_pred = self.emit_typedef_pred(&env2, &k, &d.body, false, this_arg, &this);
        let default_name = self.emit_name(Name::TypeRefDefault(type_ref(&k)));
        let named = self.emit_name(Name::TypeRef(type_ref(&k)));
        let default = zero_instance(default_name, named, zero_body(self.emit_type_default(&env2, &d.body)));
        intersperse(&l4(ty_decl, pred, uninit_pred, default), &line())
    }

    /// A struct that is only declared: everything about it is assumed.
    pub fn emit_struct_decl(&mut self, name: &Rc<Ident>) -> (out: Doc)
        ensures
            (*final(self), out) == spec_emit_struct_decl(*old(self), *name),
            extends(final(self).diags, old(self).diags),
            final(self).fn_module_map == old(self).fn_module_map,
            final(self).typedef_override_map == old(self).typedef_override_map,
    {
        proof {
            reveal(spec_emit_struct_decl);
        }
        let k = TypeRefKind::Struct(name.clone());
        let ty = self.emit_name(Name::TypeRef(type_ref(&k)));
        let pred = self.emit_name(Name::TypeRefPred(type_ref(&k)));
        let uninit_pred = self.emit_name(Name::TypeRefUninitPred(type_ref(&k)));
        let default_name = self.emit_name(Name::TypeRefDefault(type_ref(&k)));
        let default_value = self.emit_name(Name::StructAuxFn(name.val.clone(), "zero_default"));
        intersperse(&l5(
            group(d5(txt("assume val"), line(), ty.clone(), line(), txt(": Type0"))),
            assumed(pred, d9(ty.clone(), line(), txt("->"), line(), txt("perm"), line(), txt("->"), line(), txt("slprop"))),
            assumed(uninit_pred, d5(ty.clone(), line(), txt("->"), line(), txt("slprop"))),
            assumed(default_value.clone(), ty.clone()),
            zero_instance(default_name, ty, group(d3(txt("{ zero_default = "), default_value, txt(" }"))))
        ), &hardline())
    }

    /// The fields of a struct's record type.
    pub fn emit_record_lines(&mut self, env: &Env, s: &Text, fields: &Rc<List<Field>>) -> (out: Rc<List<DocT>>)
        ensures
            (*final(self), out) == spec_emit_record_lines(*old(self), *env, *s, *fields),
            extends(final(self).diags, old(self).diags),
            final(self).fn_module_map == old(self).fn_module_map,
            final(self).typedef_override_map == old(self).typedef_override_map,
        decreases fields,
    {
        match &**fields {
            List::Nil => nil(),
            List::Cons(f, t) => {
                let name = self.emit_name(Name::StructDirectFieldName(s.clone(), field_name(f).val.clone()));
                let ty = self.emit_field_record_type(env, f);
                cons(record_field_line(name, ty), self.emit_record_lines(env, s, t))
            }
        }
    }

    /// The axiom that a record has a size above zero, where that is sure.
    pub fn emit_sizeof_axiom(&mut self, env: &Env, k: &TypeRefKind, loc: &Loc, ty: &Doc) -> (out: Rc<List<DocT>>)
        ensures
            (*final(self), out) == spec_emit_sizeof_axiom(*old(self), *env, *k, *loc, *ty),
            extends(final(self).diags, old(self).diags),
            final(self).fn_module_map == old(self).fn_module_map,
            final(self).typedef_override_map == old(self).typedef_override_map,
    {
        proof {
            reveal(spec_emit_sizeof_axiom);
        }
        if occupies_space(env, &mk_type_ref(loc, k)) {
            let name = self.emit_name(Name::TypeRefSizeofPos(type_ref(k)));
            l1(mk_sizeof_pos_axiom(name, ty.clone()))
        } else {
            nil()
        }
    }

    /// What the fields contribute to the struct's predicate. Arrays stored in place contribute
    /// nothing: their contents belong to the record.
    pub fn emit_field_specs(
        &mut self,
        env: &Env,
        k: &TypeRefKind,
        spec_param: &Doc,
        this: &Rc<Ident>,
        fields: &Rc<List<Field>>,
    ) -> (out: Rc<List<FieldSpecInfo>>)
        ensures
            (*final(self), out) == spec_emit_field_specs(*old(self), *env, *k, *spec_param, *this, *fields),
            extends(final(self).diags, old(self).diags),
            final(self).fn_module_map == old(self).fn_module_map,
            final(self).typedef_override_map == old(self).typedef_override_map,
        decreases fields,
    {
        match &**fields {
            List::Nil => nil(),
            List::Cons(f, t) => if field_is_array(f) {
                self.emit_field_specs(env, k, spec_param, this, t)
            } else {
                let name = field_name(f);
                let ctx = Rc::new(SpecCtx { spec_param: spec_param.clone(), type_ref: type_ref(k), field_name: name.val.clone() });
                let o = self.emit_type_slprop(env, &field_type(f), &SLPropVariant::Init { perm: txt("p") },
                    Owned { naming: Naming { spec: Some(ctx), quote: false, bindings: nil() }, props: nil() },
                    &mk_expr(&name.loc, ExprT::Member(mk_rvar(this), name.clone())));
                let info = Rc::new(FieldSpecInfo { field_ident: name.val.clone(), bindings: o.naming.bindings, init_props: o.props });
                cons(info, self.emit_field_specs(env, k, spec_param, this, t))
            },
        }
    }

    /// The facts that the refinements of flexible array members contribute.
    pub fn emit_flex_props(&mut self, env: &Env, this: &Rc<Ident>, fields: &Rc<List<Field>>) -> (out: Rc<List<DocT>>)
        ensures
            (*final(self), out) == spec_emit_flex_props(*old(self), *env, *this, *fields),
            extends(final(self).diags, old(self).diags),
            final(self).fn_module_map == old(self).fn_module_map,
            final(self).typedef_override_map == old(self).typedef_override_map,
        decreases fields,
    {
        match &**fields {
            List::Nil => nil(),
            List::Cons(f, t) => match field_flex_info(f) {
                Some(flex) => match &flex.pred {
                    Some(p) => {
                        let d = self.emit_rvalue(env, &subst_flex_refine_pred(p, &field_name(f), this));
                        cons(d, self.emit_flex_props(env, this, t))
                    }
                    None => self.emit_flex_props(env, this, t),
                },
                None => self.emit_flex_props(env, this, t),
            },
        }
    }

    /// The parameters of the function that closes a struct's predicate, for one field: one for
    /// each ghost value, numbered from `i`.
    pub fn fold_params(&mut self, field: &Text, i: u64, l: &Rc<List<ExBinding>>) -> (out: Rc<List<DocT>>)
        ensures
            (*final(self), out) == spec_fold_params(*old(self), *field, i, *l),
            extends(final(self).diags, old(self).diags),
            final(self).fn_module_map == old(self).fn_module_map,
            final(self).typedef_override_map == old(self).typedef_override_map,
        decreases l,
    {
        match &**l {
            List::Nil => nil(),
            List::Cons(b, t) => {
                let name = self.local_name(Name::Val(field.clone(), i));
                cons(param_line(name, b.ty.clone()), self.fold_params(field, bump(i), t))
            }
        }
    }

    /// The fields of the spec record that the function builds, for one field of the struct.
    pub fn fold_fields(&mut self, field: &Text, i: u64, l: &Rc<List<ExBinding>>) -> (out: Rc<List<DocT>>)
        ensures
            (*final(self), out) == spec_fold_fields(*old(self), *field, i, *l),
            extends(final(self).diags, old(self).diags),
            final(self).fn_module_map == old(self).fn_module_map,
            final(self).typedef_override_map == old(self).typedef_override_map,
        decreases l,
    {
        match &**l {
            List::Nil => nil(),
            List::Cons(b, t) => {
                let name = self.local_name(Name::Val(field.clone(), i));
                cons(d6(hardline(), txt("    "), b.name.clone(), txt(" = "), name, txt(";")), self.fold_fields(field, bump(i), t))
            }
        }
    }

    /// The parameters, for all fields.
    pub fn all_fold_params(&mut self, l: &Rc<List<FieldSpecInfo>>) -> (out: Rc<List<DocT>>)
        ensures
            (*final(self), out) == spec_all_fold_params(*old(self), *l),
            extends(final(self).diags, old(self).diags),
            final(self).fn_module_map == old(self).fn_module_map,
            final(self).typedef_override_map == old(self).typedef_override_map,
        decreases l,
    {
        match &**l {
            List::Nil => nil(),
            List::Cons(h, t) => {
                let ps = self.fold_params(&h.field_ident, 0, &h.bindings);
                list_append(&ps, self.all_fold_params(t))
            }
        }
    }

    /// The fields of the spec record, for all fields of the struct.
    pub fn all_fold_fields(&mut self, l: &Rc<List<FieldSpecInfo>>) -> (out: Rc<List<DocT>>)
        ensures
            (*final(self), out) == spec_all_fold_fields(*old(self), *l),
            extends(final(self).diags, old(self).diags),
            final(self).fn_module_map == old(self).fn_module_map,
            final(self).typedef_override_map == old(self).typedef_override_map,
        decreases l,
    {
        match &**l {
            List::Nil => nil(),
            List::Cons(h, t) => {
                let fs = self.fold_fields(&h.field_ident, 0, &h.bindings);
                list_append(&fs, self.all_fold_fields(t))
            }
        }
    }

    /// The propositions that the function takes, with ghost values of their own for each field.
    pub fn emit_fold_requires(
        &mut self,
        env: &Env,
        this: &Rc<Ident>,
        fields: &Rc<List<Field>>,
    ) -> (out: Rc<List<DocT>>)
        ensures
            (*final(self), out) == spec_emit_fold_requires(*old(self), *env, *this, *fields),
            extends(final(self).diags, old(self).diags),
            final(self).fn_module_map == old(self).fn_module_map,
            final(self).typedef_override_map == old(self).typedef_override_map,
        decreases fields,
    {
        match &**fields {
            List::Nil => nil(),
            List::Cons(f, t) => if field_is_array(f) {
                self.emit_fold_requires(env, this, t)
            } else {
                let name = field_name(f);
                let o = self.emit_type_slprop(env, &field_type(f), &SLPropVariant::Init { perm: txt("p") }, owned_standard(false),
                    &mk_expr(&name.loc, ExprT::Member(mk_rvar(this), name.clone())));
                list_append(&o.props, self.emit_fold_requires(env, this, t))
            },
        }
    }

    /// The functions that open and close a struct's predicate.
    pub fn emit_pred_fns(
        &mut self,
        env: &Env,
        d: &Rc<StructDefn>,
        k: &TypeRefKind,
        this: &Rc<Ident>,
        this_doc: &Doc,
        pred: &Doc,
        spec_param: &Doc,
        spec_ty: &Doc,
        struct_ty: &Doc,
        specs: &Rc<List<FieldSpecInfo>>,
        init_props: &Rc<List<DocT>>,
    ) -> (out: Rc<List<DocT>>)
        ensures
            (*final(self), out) == spec_emit_pred_fns(*old(self), *env, *d, *k, *this, *this_doc, *pred, *spec_param, *spec_ty, *struct_ty, *specs, *init_props),
            extends(final(self).diags, old(self).diags),
            final(self).fn_module_map == old(self).fn_module_map,
            final(self).typedef_override_map == old(self).typedef_override_map,
    {
        proof {
            reveal(spec_emit_pred_fns);
        }
        let unfold_name = self.local_name(Name::TypeRefPredUnfold(type_ref(k)));
        let this_param = param_line(this_doc.clone(), struct_ty.clone());
        let app = pred_app(pred, this_doc, spec_param.clone());
        let unfold_fn = pred_ghost_fn(unfold_name, this_param.clone(), param_line(spec_param.clone(), spec_ty.clone()),
            d3(hardline(), txt("  requires "), app.clone()), hard_clauses(nil_doc(), "  ensures ", init_props),
            d3(hardline(), txt("  unfold "), app));
        let fold_name = self.local_name(Name::TypeRefPredFold(type_ref(k)));
        let params = self.all_fold_params(specs);
        let spec_fields = self.all_fold_fields(specs);
        let fold_requires = self.emit_fold_requires(env, this, &d.fields);
        let literal = parens(d4(txt("{"), concat(&spec_fields), hardline(), txt("  }")));
        let fold_app = pred_app(pred, this_doc, literal);
        let fold_fn = pred_ghost_fn(fold_name, this_param, concat(&params),
            hard_clauses(nil_doc(), "  requires ", &fold_requires), d3(hardline(), txt("  ensures "), fold_app.clone()),
            d3(hardline(), txt("  fold "), fold_app));
        l2(unfold_fn, fold_fn)
    }

    /// A struct's spec record type and predicates, and the functions that open and close them.
    pub fn emit_struct_preds(
        &mut self,
        env: &Env,
        d: &Rc<StructDefn>,
        k: &TypeRefKind,
        struct_ty: &Doc,
    ) -> (out: Rc<List<DocT>>)
        ensures
            (*final(self), out) == spec_emit_struct_preds(*old(self), *env, *d, *k, *struct_ty),
            extends(final(self).diags, old(self).diags),
            final(self).fn_module_map == old(self).fn_module_map,
            final(self).typedef_override_map == old(self).typedef_override_map,
    {
        proof {
            reveal(spec_emit_struct_preds);
        }
        let this = mk_ident(&d.name.loc, lit("this"));
        let this_doc = self.local_name(Name::Var(this.val.clone()));
        let this_arg = parens(d5(txt("[@@@mkey] "), this_doc.clone(), txt(":"), line(), struct_ty.clone()));
        let spec_param = self.local_name(Name::Val(d.name.val.clone(), 0));
        let specs = self.emit_field_specs(env, k, &spec_param, &this, &d.fields);
        let bindings = all_bindings(&specs);
        let has_spec = !list_is_empty(&bindings);
        let spec_text = self.mangle_name(&Rc::new(Name::TypeRefSpec(type_ref(k))));
        let spec_ty = text_doc(spec_text.clone());
        let qualified_spec_ty = text_doc(cat3(type_ref_module(&type_ref(k)), lit("."), spec_text));
        let spec_decl = if has_spec { l1(record_type("[@@erasable] noeq type", spec_ty.clone(), &spec_record_lines(&bindings))) } else { nil() };
        self.type_val_params = cons(Rc::new(ValParams {
            key: type_ref(k),
            types: if has_spec { l1(qualified_spec_ty) } else { nil() },
        }), self.type_val_params.clone());
        let flex_props = self.emit_flex_props(env, &this, &d.fields);
        let init_props = list_append(&all_props(&specs), flex_props);
        let pred = self.local_name(Name::TypeRefPred(type_ref(k)));
        let perm_arg = parens(txt("p: perm"));
        let pred_decl = if has_spec {
            let args = l3(this_arg.clone(), perm_arg, binder(spec_param.clone(), spec_ty.clone()));
            if d.eager_unfold_pred {
                mk_eager_unfold_slprop(pred.clone(), &args, mk_star(&init_props))
            } else {
                mk_folded_slprop(pred.clone(), &args, mk_star(&init_props))
            }
        } else {
            mk_eager_unfold_slprop(pred.clone(), &l2(this_arg.clone(), perm_arg), mk_star(&init_props))
        };
        let uninit_decl = self.emit_struct_uninit_pred(env, k, &d.fields, this_arg, &this);
        let fns = if has_spec && !d.eager_unfold_pred {
            self.emit_pred_fns(env, d, k, &this, &this_doc, &pred, &spec_param, &spec_ty, struct_ty, &specs, &init_props)
        } else {
            nil()
        };
        list_append(&spec_decl, cons(pred_decl, cons(uninit_decl, fns)))
    }

    /// The ghost projection of a struct's field, applied.
    pub fn struct_proj(&mut self, s: &Text, fld: &Rc<Ident>, arg: Doc) -> (out: Doc)
        ensures
            (*final(self), out) == spec_struct_proj(*old(self), *s, *fld, arg),
            extends(final(self).diags, old(self).diags),
            final(self).fn_module_map == old(self).fn_module_map,
            final(self).typedef_override_map == old(self).typedef_override_map,
    {
        proof {
            reveal(spec_struct_proj);
        }
        unaryfn(self.emit_name(Name::StructGhostFieldProj(s.clone(), fld.val.clone())), arg)
    }

    /// The ghost projections of fields.
    pub fn emit_struct_projs(&mut self, env: &Env, r: &RecordNames, fields: &Rc<List<Field>>) -> (out: Rc<List<DocT>>)
        ensures
            (*final(self), out) == spec_emit_struct_projs(*old(self), *env, *r, *fields),
            extends(final(self).diags, old(self).diags),
            final(self).fn_module_map == old(self).fn_module_map,
            final(self).typedef_override_map == old(self).typedef_override_map,
        decreases fields,
    {
        match &**fields {
            List::Nil => nil(),
            List::Cons(f, t) => {
                let ty = self.emit_field_projection_type(env, f);
                let name = self.emit_name(Name::StructGhostFieldProj(r.name.clone(), field_name(f).val.clone()));
                let decl = mk_assume_val(&nil(), name, &l1(typed("x:", r.ref_ty.clone())), group(d3(txt("GTot"), line(), ty)));
                cons(decl, self.emit_struct_projs(env, r, t))
            }
        }
    }

    /// The way back from a field's address to the struct's, with the two lemmas that tie it to
    /// the projection.
    pub fn emit_container(&mut self, env: &Env, r: &RecordNames, f: &Rc<Field>) -> (out: Rc<List<DocT>>)
        ensures
            (*final(self), out) == spec_emit_container(*old(self), *env, *r, *f),
            extends(final(self).diags, old(self).diags),
            final(self).fn_module_map == old(self).fn_module_map,
            final(self).typedef_override_map == old(self).typedef_override_map,
    {
        proof {
            reveal(spec_emit_container);
        }
        let fld = field_name(f);
        let ty = self.emit_field_projection_type(env, f);
        let container = self.emit_name(Name::StructContainerFn(r.name.clone(), fld.val.clone()));
        let decl = mk_assume_val(&nil(), container.clone(), &l1(typed("r:", ty)), r.ref_ty.clone());
        let proj = self.emit_name(Name::StructGhostFieldProj(r.name.clone(), fld.val.clone()));
        let inv_name = self.emit_name(Name::StructContainerInv(r.name.clone(), fld.val.clone()));
        let round = unaryfn(container.clone(), unaryfn(proj.clone(), txt("p")));
        let inv = mk_assume_val(&nil(), inv_name, &l1(typed("p:", r.ref_ty.clone())),
            lemma_type(d2(round.clone(), txt(" == p")), round));
        let dual_ty = self.emit_field_projection_type(env, f);
        let dual_name = self.emit_name(Name::StructProjContainerInv(r.name.clone(), fld.val.clone()));
        let dual_round = unaryfn(proj, unaryfn(container, txt("r")));
        let dual = mk_assume_val(&nil(), dual_name, &l1(typed("r:", dual_ty)),
            lemma_type(d2(dual_round.clone(), txt(" == r")), dual_round));
        l3(decl, inv, dual)
    }

    /// The ways back from the fields' addresses.
    pub fn emit_containers(&mut self, env: &Env, r: &RecordNames, fields: &Rc<List<Field>>) -> (out: Rc<List<DocT>>)
        ensures
            (*final(self), out) == spec_emit_containers(*old(self), *env, *r, *fields),
            extends(final(self).diags, old(self).diags),
            final(self).fn_module_map == old(self).fn_module_map,
            final(self).typedef_override_map == old(self).typedef_override_map,
        decreases fields,
    {
        match &**fields {
            List::Nil => nil(),
            List::Cons(f, t) => {
                let ds = self.emit_container(env, r, f);
                list_append(&ds, self.emit_containers(env, r, t))
            }
        }
    }

    /// That the first field of the null struct is null: it is at offset 0, where the way back is
    /// the identity. It holds of a plain field only, whose projection is a `ref`.
    pub fn emit_proj_null(&mut self, env: &Env, r: &RecordNames, fields: &Rc<List<Field>>) -> (out: Rc<List<DocT>>)
        ensures
            (*final(self), out) == spec_emit_proj_null(*old(self), *env, *r, *fields),
            extends(final(self).diags, old(self).diags),
            final(self).fn_module_map == old(self).fn_module_map,
            final(self).typedef_override_map == old(self).typedef_override_map,
    {
        proof {
            reveal(spec_emit_proj_null);
        }
        match &**fields {
            List::Nil => nil(),
            List::Cons(f, _) => if field_is_array(f) {
                nil()
            } else {
                match &f.val {
                    FieldT::BitField { .. } => nil(),
                    FieldT::Plain { name, ty } => {
                        let inner_ty = self.emit_type(env, ty);
                        let null_inner = parens(d2(txt("Pulse.Lib.Reference.null #"), parens(inner_ty)));
                        let null_outer = parens(d2(txt("Pulse.Lib.Reference.null #"), parens(r.ty.clone())));
                        let app = self.struct_proj(&r.name, name, null_outer);
                        let fact = parens(d4(app, txt(" =="), line(), null_inner));
                        let n = self.emit_name(Name::StructProjNull(r.name.clone(), name.val.clone()));
                        l1(mk_assume_val(&nil(), n, &nil(), unaryfn(txt("squash"), fact)))
                    }
                }
            },
        }
    }

    /// What a struct's field is tied to.
    pub fn emit_field_value(&mut self, s: &Text, fld: &Rc<Ident>, value: FieldValue) -> (out: Doc)
        ensures
            (*final(self), out) == spec_emit_field_value(*old(self), *s, *fld, value),
            extends(final(self).diags, old(self).diags),
            final(self).fn_module_map == old(self).fn_module_map,
            final(self).typedef_override_map == old(self).typedef_override_map,
    {
        proof {
            reveal(spec_emit_field_value);
        }
        match value {
            FieldValue::Record => d2(txt("vx."), self.emit_name(Name::StructDirectFieldName(s.clone(), fld.val.clone()))),
            FieldValue::Args => fold_arg(fld),
            FieldValue::Uninit => nil_doc(),
        }
    }

    /// The ownership of each field of the struct at `x`.
    pub fn emit_fields_pts_to(
        &mut self,
        s: &Text,
        fields: &Rc<List<Field>>,
        value: FieldValue,
    ) -> (out: Rc<List<DocT>>)
        ensures
            (*final(self), out) == spec_emit_fields_pts_to(*old(self), *s, *fields, value),
            extends(final(self).diags, old(self).diags),
            final(self).fn_module_map == old(self).fn_module_map,
            final(self).typedef_override_map == old(self).typedef_override_map,
        decreases fields,
    {
        match &**fields {
            List::Nil => nil(),
            List::Cons(f, t) => {
                let fld = field_name(f);
                let proj = self.struct_proj(s, &fld, txt("x"));
                let v = self.emit_field_value(s, &fld, value);
                let d = match (value, field_is_array(f)) {
                    (FieldValue::Uninit, true) => naryfn(&l2(txt("array_pts_to_uninit'"), proj)),
                    (FieldValue::Uninit, false) => naryfn(&l2(txt("Pulse.Lib.Reference.pts_to_uninit"), proj)),
                    (_, true) => naryfn(&l4(txt("array_pts_to"), proj, txt("p"), v)),
                    (_, false) => naryfn(&l4(txt("Pulse.Lib.Reference.pts_to"), proj, txt("#p"), v)),
                };
                cons(d, self.emit_fields_pts_to(s, t, value))
            }
        }
    }

    /// The arguments of the function that folds a struct: a value for each field, at its type
    /// where the field is an array.
    pub fn emit_fold_args(&mut self, env: &Env, fields: &Rc<List<Field>>) -> (out: Rc<List<DocT>>)
        ensures
            (*final(self), out) == spec_emit_fold_args(*old(self), *env, *fields),
            extends(final(self).diags, old(self).diags),
            final(self).fn_module_map == old(self).fn_module_map,
            final(self).typedef_override_map == old(self).typedef_override_map,
        decreases fields,
    {
        match &**fields {
            List::Nil => nil(),
            List::Cons(f, t) => {
                let fld = field_name(f);
                let d = if field_is_array(f) { binder(fold_arg(&fld), self.emit_field_record_type(env, f)) } else { fold_arg(&fld) };
                cons(d, self.emit_fold_args(env, t))
            }
        }
    }

    /// The record made of the values of the fields.
    pub fn emit_fold_entries(&mut self, s: &Text, fields: &Rc<List<Field>>) -> (out: Rc<List<DocT>>)
        ensures
            (*final(self), out) == spec_emit_fold_entries(*old(self), *s, *fields),
            extends(final(self).diags, old(self).diags),
            final(self).fn_module_map == old(self).fn_module_map,
            final(self).typedef_override_map == old(self).typedef_override_map,
        decreases fields,
    {
        match &**fields {
            List::Nil => nil(),
            List::Cons(f, t) => {
                let fld = field_name(f);
                let name = self.emit_name(Name::StructDirectFieldName(s.clone(), fld.val.clone()));
                cons(record_entry(name, fold_arg(&fld)), self.emit_fold_entries(s, t))
            }
        }
    }

    /// The ghost functions that split a struct's memory into its fields and put it together,
    /// initialized and not.
    pub fn emit_raw_folds(
        &mut self,
        env: &Env,
        r: &RecordNames,
        unfolded: &Doc,
        fields: &Rc<List<Field>>,
    ) -> (out: Rc<List<DocT>>)
        ensures
            (*final(self), out) == spec_emit_raw_folds(*old(self), *env, *r, *unfolded, *fields),
            extends(final(self).diags, old(self).diags),
            final(self).fn_module_map == old(self).fn_module_map,
            final(self).typedef_override_map == old(self).typedef_override_map,
    {
        proof {
            reveal(spec_emit_raw_folds);
        }
        let x_arg = typed("x:", r.ref_ty.clone());
        let perm_arg = parens(txt("#p: perm"));
        let whole = naryfn(&l4(txt("Pulse.Lib.Reference.pts_to"), txt("x"), txt("#p"), txt("vx")));
        let token = naryfn(&l3(unfolded.clone(), txt("x"), txt("p")));
        let unfold_name = self.emit_name(Name::StructAuxFn(r.name.clone(), "raw_unfold"));
        let unfold_post = self.emit_fields_pts_to(&r.name, fields, FieldValue::Record);
        let unfold = mk_assume_val(&l1(txt("pulse_intro")), unfold_name,
            &l3(x_arg.clone(), perm_arg.clone(), typed("vx:", r.ty.clone())),
            stt_ghost(whole, mk_thunk(mk_star(&cons(token.clone(), unfold_post)))));
        let fold_name = self.emit_name(Name::StructAuxFn(r.name.clone(), "raw_fold"));
        let fold_args = self.emit_fold_args(env, fields);
        let fold_pre = self.emit_fields_pts_to(&r.name, fields, FieldValue::Args);
        let record = record_literal(&self.emit_fold_entries(&r.name, fields));
        let fold = mk_assume_val(&l1(txt("pulse_intro")), fold_name, &cons(x_arg.clone(), cons(perm_arg, fold_args)),
            stt_ghost(mk_star(&cons(token, fold_pre)),
                mk_thunk(naryfn(&l4(txt("Pulse.Lib.Reference.pts_to"), txt("x"), txt("#p"), record)))));
        let uninit_token = naryfn(&l3(unfolded.clone(), txt("x"), txt("1.0R")));
        let uninit_whole = naryfn(&l2(txt("Pulse.Lib.Reference.pts_to_uninit"), txt("x")));
        let fold_uninit_name = self.emit_name(Name::StructAuxFn(r.name.clone(), "raw_fold_uninit"));
        let fold_uninit_pre = self.emit_fields_pts_to(&r.name, fields, FieldValue::Uninit);
        let fold_uninit = mk_assume_val(&l1(txt("pulse_intro")), fold_uninit_name, &l1(x_arg.clone()),
            stt_ghost(mk_star(&cons(uninit_token.clone(), fold_uninit_pre)), mk_thunk(uninit_whole.clone())));
        let unfold_uninit_name = self.emit_name(Name::StructAuxFn(r.name.clone(), "raw_unfold_uninit"));
        let unfold_uninit_post = self.emit_fields_pts_to(&r.name, fields, FieldValue::Uninit);
        let unfold_uninit = mk_assume_val(&nil(), unfold_uninit_name, &l1(x_arg),
            stt_ghost(uninit_whole, mk_thunk(mk_star(&cons(uninit_token, unfold_uninit_post)))));
        l4(unfold, fold, fold_uninit, unfold_uninit)
    }

    /// What an allocation with a flexible tail of length `n` gives for each field.
    pub fn emit_flex_posts(
        &mut self,
        env: &Env,
        s: &Text,
        fields: &Rc<List<Field>>,
        zeroed: bool,
    ) -> (out: Rc<List<DocT>>)
        ensures
            (*final(self), out) == spec_emit_flex_posts(*old(self), *env, *s, *fields, zeroed),
            extends(final(self).diags, old(self).diags),
            final(self).fn_module_map == old(self).fn_module_map,
            final(self).typedef_override_map == old(self).typedef_override_map,
        decreases fields,
    {
        match &**fields {
            List::Nil => nil(),
            List::Cons(f, t) => {
                let fld = field_name(f);
                let d = match field_flex_info(f) {
                    Some(flex) => {
                        let elem = self.emit_type(env, &flex.elem);
                        let n = parens(txt("FStar.SizeT.v n"));
                        let contents = if zeroed {
                            naryfn(&l4(txt("array_spec_zeroed"), elem, n, txt("zero_default")))
                        } else {
                            naryfn(&l3(txt("array_spec_uninit"), elem, n))
                        };
                        let proj = self.struct_proj(s, &fld, txt("r"));
                        naryfn(&l4(txt("array_pts_to"), proj, txt("1.0R"), contents))
                    }
                    None => {
                        let uninit = if field_is_array(f) { "array_pts_to_uninit'" } else { "Pulse.Lib.Reference.pts_to_uninit" };
                        naryfn(&l2(txt(uninit), self.struct_proj(s, &fld, txt("r"))))
                    }
                };
                cons(d, self.emit_flex_posts(env, s, t, zeroed))
            }
        }
    }

    /// An allocator of a struct with a flexible array member. The struct comes in parts: the
    /// token, every other field without a value, and the tail with the given length.
    pub fn emit_flex_allocator(
        &mut self,
        env: &Env,
        r: &RecordNames,
        unfolded: &Doc,
        fields: &Rc<List<Field>>,
        kind: &'static str,
        zeroed: bool,
    ) -> (out: Doc)
        ensures
            (*final(self), out) == spec_emit_flex_allocator(*old(self), *env, *r, *unfolded, *fields, kind, zeroed),
            extends(final(self).diags, old(self).diags),
            final(self).fn_module_map == old(self).fn_module_map,
            final(self).typedef_override_map == old(self).typedef_override_map,
    {
        proof {
            reveal(spec_emit_flex_allocator);
        }
        let token = naryfn(&l3(unfolded.clone(), txt("r"), txt("1.0R")));
        let posts = self.emit_flex_posts(env, &r.name, fields, zeroed);
        let post = cons(token, list_push(&posts, naryfn(&l2(txt("Pulse.Lib.C.Ref.freeable"), txt("r")))));
        let name = self.emit_name(Name::StructAuxFn(r.name.clone(), kind));
        mk_assume_val(&nil(), name, &l1(parens(txt("n: FStar.SizeT.t"))),
            naryfn(&l4(txt("stt"), r.ref_ty.clone(), txt("emp"), mk_fun(txt("r"), mk_star(&post)))))
    }

    /// The allocators of a struct, if it has a flexible array member.
    pub fn emit_flex_allocators(
        &mut self,
        env: &Env,
        r: &RecordNames,
        unfolded: &Doc,
        fields: &Rc<List<Field>>,
    ) -> (out: Rc<List<DocT>>)
        ensures
            (*final(self), out) == spec_emit_flex_allocators(*old(self), *env, *r, *unfolded, *fields),
            extends(final(self).diags, old(self).diags),
            final(self).fn_module_map == old(self).fn_module_map,
            final(self).typedef_override_map == old(self).typedef_override_map,
    {
        proof {
            reveal(spec_emit_flex_allocators);
        }
        if has_flex_field(fields) {
            let m = self.emit_flex_allocator(env, r, unfolded, fields, "malloc_flex", false);
            let c = self.emit_flex_allocator(env, r, unfolded, fields, "calloc_flex", true);
            l2(m, c)
        } else {
            nil()
        }
    }

    /// The function that gives a field's address at run time.
    pub fn getter(&mut self, name: Doc, ref_ty: &Doc, ret_type: Doc, unfolded: Doc, proj: Doc) -> (out: Doc)
        ensures
            (*final(self), out) == spec_getter(*old(self), name, *ref_ty, ret_type, unfolded, proj),
            extends(final(self).diags, old(self).diags),
            final(self).fn_module_map == old(self).fn_module_map,
            final(self).typedef_override_map == old(self).typedef_override_map,
    {
        proof {
            reveal(spec_getter);
        }
        let post = mk_star(&l2(unfolded.clone(), naryfn(&l3(txt("rewrites_to"), txt("vx'"), proj))));
        mk_assume_val(&l1(txt("pulse_impure_spec_no_proof_required")), name,
            &l2(typed("x:", ref_ty.clone()), parens(txt("#p: perm"))),
            naryfn(&l6(txt("stt_atomic"), ret_type, txt("#PulseCore.Observability.Neutral"), txt("emp_inames"), unfolded,
                mk_fun(txt("vx'"), post))))
    }

    /// The functions that give the fields' addresses at run time.
    pub fn emit_struct_getters(
        &mut self,
        env: &Env,
        r: &RecordNames,
        unfolded: &Doc,
        fields: &Rc<List<Field>>,
    ) -> (out: Rc<List<DocT>>)
        ensures
            (*final(self), out) == spec_emit_struct_getters(*old(self), *env, *r, *unfolded, *fields),
            extends(final(self).diags, old(self).diags),
            final(self).fn_module_map == old(self).fn_module_map,
            final(self).typedef_override_map == old(self).typedef_override_map,
        decreases fields,
    {
        match &**fields {
            List::Nil => nil(),
            List::Cons(f, t) => {
                let fld = field_name(f);
                let ret = self.emit_field_projection_type(env, f);
                let name = self.emit_name(Name::StructFieldProj(r.name.clone(), fld.val.clone()));
                let proj = self.struct_proj(&r.name, &fld, txt("x"));
                let d = self.getter(name, &r.ref_ty, ret, naryfn(&l3(unfolded.clone(), txt("x"), txt("p"))), proj);
                cons(d, self.emit_struct_getters(env, r, unfolded, t))
            }
        }
    }

    /// The zero values of a struct's fields.
    pub fn emit_default_entries(&mut self, env: &Env, s: &Text, fields: &Rc<List<Field>>) -> (out: Rc<List<DocT>>)
        ensures
            (*final(self), out) == spec_emit_default_entries(*old(self), *env, *s, *fields),
            extends(final(self).diags, old(self).diags),
            final(self).fn_module_map == old(self).fn_module_map,
            final(self).typedef_override_map == old(self).typedef_override_map,
        decreases fields,
    {
        match &**fields {
            List::Nil => nil(),
            List::Cons(f, t) => {
                let name = self.emit_name(Name::StructDirectFieldName(s.clone(), field_name(f).val.clone()));
                let v = self.emit_field_default(env, f);
                cons(nest(group(d6(line(), name, txt(" ="), line(), v, txt(";")))), self.emit_default_entries(env, s, t))
            }
        }
    }

    /// A struct: its record type, its predicates, its projections with their inverses, the ghost
    /// functions that take its memory apart, its allocators, its getters and its zero value.
    pub fn emit_structdefn(&mut self, env: &Env, d: &Rc<StructDefn>) -> (out: Doc)
        ensures
            (*final(self), out) == spec_emit_structdefn(*old(self), *env, *d),
            extends(final(self).diags, old(self).diags),
            final(self).fn_module_map == old(self).fn_module_map,
            final(self).typedef_override_map == old(self).typedef_override_map,
    {
        proof {
            reveal(spec_emit_structdefn);
        }
        let env1 = push_struct(env, d.clone());
        self.defining_struct = Some(d.name.val.clone());
        let k = TypeRefKind::Struct(d.name.clone());
        let ty = self.emit_name(Name::TypeRef(type_ref(&k)));
        let r = RecordNames { name: d.name.val.clone(), ty: ty.clone(), ref_ty: unaryfn(txt("ref"), ty.clone()) };
        let field_lines = self.emit_record_lines(&env1, &r.name, &d.fields);
        let record = l1(record_type("noeq type", ty.clone(), &field_lines));
        let sizeof = self.emit_sizeof_axiom(&env1, &k, &d.name.loc, &ty);
        let env2 = push_this(&env1, mk_type_ref(&d.name.loc, &k));
        let preds = self.emit_struct_preds(&env2, d, &k, &ty);
        let unfolded = self.emit_name(Name::StructAuxFn(r.name.clone(), "raw_unfolded"));
        let token = l1(mk_assume_val(&nil(), unfolded.clone(),
            &l2(typed("[@@@mkey] x:", r.ref_ty.clone()), parens(txt("p: perm"))), txt("slprop")));
        let projs = self.emit_struct_projs(&env2, &r, &d.fields);
        let containers = self.emit_containers(&env2, &r, &d.fields);
        let proj_null = self.emit_proj_null(&env2, &r, &d.fields);
        let folds = self.emit_raw_folds(&env2, &r, &unfolded, &d.fields);
        let allocators = self.emit_flex_allocators(&env2, &r, &unfolded, &d.fields);
        let getters = self.emit_struct_getters(&env2, &r, &unfolded, &d.fields);
        let default_name = self.emit_name(Name::TypeRefDefault(type_ref(&k)));
        let entries = self.emit_default_entries(&env2, &r.name, &d.fields);
        let default = l1(zero_instance(default_name, ty, group(d5(
            nest(d4(txt("{"), line(), txt("zero_default = {"), concat(&entries))), line(), txt("}"), line(), txt("}")))));
        self.defining_struct = None;
        declarations(&list_append(&record, list_append(&sizeof, list_append(&preds, list_append(&token, list_append(&projs,
            list_append(&containers, list_append(&proj_null, list_append(&folds, list_append(&allocators, list_append(&getters, default)))))))))))
    }

    /// The constructors of a union, one for each arm.
    pub fn emit_union_arms(&mut self, env: &Env, r: &RecordNames, fields: &Rc<List<Field>>) -> (out: Rc<List<DocT>>)
        ensures
            (*final(self), out) == spec_emit_union_arms(*old(self), *env, *r, *fields),
            extends(final(self).diags, old(self).diags),
            final(self).fn_module_map == old(self).fn_module_map,
            final(self).typedef_override_map == old(self).typedef_override_map,
        decreases fields,
    {
        match &**fields {
            List::Nil => nil(),
            List::Cons(f, t) => {
                let ctor = self.emit_name(Name::UnionFieldConstructor(r.name.clone(), field_name(f).val.clone()));
                let ty = self.emit_field_record_type(env, f);
                cons(d2(hardline(), nest(group(d8(txt("| "), ctor, txt(" :"), line(), ty, txt(" ->"), line(), r.ty.clone())))),
                    self.emit_union_arms(env, r, t))
            }
        }
    }

    /// The token of an arm's memory that was taken apart.
    pub fn union_token(&mut self, u: &Text, fld: &Rc<Ident>) -> (out: Doc)
        ensures
            (*final(self), out) == spec_union_token(*old(self), *u, *fld),
            extends(final(self).diags, old(self).diags),
            final(self).fn_module_map == old(self).fn_module_map,
            final(self).typedef_override_map == old(self).typedef_override_map,
    {
        proof {
            reveal(spec_union_token);
        }
        self.emit_name(Name::UnionAuxFn(u.clone(), "raw_unfolded", fld.val.clone()))
    }

    /// The ghost projection of a union's arm, applied to `x`.
    pub fn union_proj(&mut self, u: &Text, fld: &Rc<Ident>) -> (out: Doc)
        ensures
            (*final(self), out) == spec_union_proj(*old(self), *u, *fld),
            extends(final(self).diags, old(self).diags),
            final(self).fn_module_map == old(self).fn_module_map,
            final(self).typedef_override_map == old(self).typedef_override_map,
    {
        proof {
            reveal(spec_union_proj);
        }
        unaryfn(self.emit_name(Name::UnionGhostFieldProj(u.clone(), fld.val.clone())), txt("x"))
    }

    /// The tokens of the arms.
    pub fn emit_union_tokens(&mut self, r: &RecordNames, fields: &Rc<List<Field>>) -> (out: Rc<List<DocT>>)
        ensures
            (*final(self), out) == spec_emit_union_tokens(*old(self), *r, *fields),
            extends(final(self).diags, old(self).diags),
            final(self).fn_module_map == old(self).fn_module_map,
            final(self).typedef_override_map == old(self).typedef_override_map,
        decreases fields,
    {
        match &**fields {
            List::Nil => nil(),
            List::Cons(f, t) => {
                let name = self.union_token(&r.name, &field_name(f));
                let d = mk_assume_val(&nil(), name, &l2(typed("[@@@mkey] x:", r.ref_ty.clone()), parens(txt("p: perm"))), txt("slprop"));
                cons(d, self.emit_union_tokens(r, t))
            }
        }
    }

    /// The ghost projections of the arms.
    pub fn emit_union_projs(&mut self, env: &Env, r: &RecordNames, fields: &Rc<List<Field>>) -> (out: Rc<List<DocT>>)
        ensures
            (*final(self), out) == spec_emit_union_projs(*old(self), *env, *r, *fields),
            extends(final(self).diags, old(self).diags),
            final(self).fn_module_map == old(self).fn_module_map,
            final(self).typedef_override_map == old(self).typedef_override_map,
        decreases fields,
    {
        match &**fields {
            List::Nil => nil(),
            List::Cons(f, t) => {
                let ty = self.emit_field_projection_type(env, f);
                let name = self.emit_name(Name::UnionGhostFieldProj(r.name.clone(), field_name(f).val.clone()));
                let d = mk_assume_val(&nil(), name, &l1(typed("x:", r.ref_ty.clone())), group(d3(txt("GTot"), line(), ty)));
                cons(d, self.emit_union_projs(env, r, t))
            }
        }
    }

    /// The ownership of an arm, tied to a value.
    pub fn emit_arm_pts_to(&mut self, u: &Text, f: &Rc<Field>, value: Doc) -> (out: Rc<List<DocT>>)
        ensures
            (*final(self), out) == spec_emit_arm_pts_to(*old(self), *u, *f, value),
            extends(final(self).diags, old(self).diags),
            final(self).fn_module_map == old(self).fn_module_map,
            final(self).typedef_override_map == old(self).typedef_override_map,
    {
        proof {
            reveal(spec_emit_arm_pts_to);
        }
        let fld = field_name(f);
        let token = naryfn(&l3(self.union_token(u, &fld), txt("x"), txt("p")));
        let proj = self.union_proj(u, &fld);
        let d = if field_is_array(f) {
            naryfn(&l4(txt("array_pts_to"), proj, txt("p"), value))
        } else {
            naryfn(&l4(txt("Pulse.Lib.Reference.pts_to"), proj, txt("#p"), value))
        };
        l2(token, d)
    }

    /// The ghost functions that open and close an arm of a union.
    pub fn emit_arm_folds(&mut self, env: &Env, r: &RecordNames, f: &Rc<Field>) -> (out: Rc<List<DocT>>)
        ensures
            (*final(self), out) == spec_emit_arm_folds(*old(self), *env, *r, *f),
            extends(final(self).diags, old(self).diags),
            final(self).fn_module_map == old(self).fn_module_map,
            final(self).typedef_override_map == old(self).typedef_override_map,
    {
        proof {
            reveal(spec_emit_arm_folds);
        }
        let fld = field_name(f);
        let x_arg = typed("x:", r.ref_ty.clone());
        let perm_arg = parens(txt("#p: perm"));
        let ctor = self.emit_name(Name::UnionFieldConstructor(r.name.clone(), fld.val.clone()));
        let vx_arg = typed("vx:", group(d6(r.ty.clone(), txt("{"), ctor.clone(), txt("?"), line(), txt("vx}"))));
        let payload = parens(group(d4(ctor.clone(), txt("?._0"), line(), txt("vx"))));
        let post = self.emit_arm_pts_to(&r.name, f, payload);
        let unfold_name = self.emit_name(Name::UnionAuxFn(r.name.clone(), "raw_unfold", fld.val.clone()));
        let unfold = mk_assume_val(&l1(txt("pulse_intro")), unfold_name, &l3(x_arg.clone(), perm_arg.clone(), vx_arg),
            stt_ghost(naryfn(&l4(txt("Pulse.Lib.Reference.pts_to"), txt("x"), txt("#p"), txt("vx"))), mk_thunk(mk_star(&post))));
        let ty = self.emit_field_record_type(env, f);
        let pre = self.emit_arm_pts_to(&r.name, f, fold_arg(&fld));
        let fold_name = self.emit_name(Name::UnionAuxFn(r.name.clone(), "raw_fold", fld.val.clone()));
        let v_arg = parens(d3(text_doc(cat3(lit("v_"), fld.val.clone(), lit(":"))), line(), ty));
        let fold = mk_assume_val(&l1(txt("pulse_intro")), fold_name, &l3(x_arg, perm_arg, v_arg),
            stt_ghost(mk_star(&pre), mk_thunk(naryfn(&l4(txt("Pulse.Lib.Reference.pts_to"), txt("x"), txt("#p"),
                unaryfn(ctor, fold_arg(&fld)))))));
        l2(unfold, fold)
    }

    /// The ghost functions that open and close the arms.
    pub fn emit_union_folds(&mut self, env: &Env, r: &RecordNames, fields: &Rc<List<Field>>) -> (out: Rc<List<DocT>>)
        ensures
            (*final(self), out) == spec_emit_union_folds(*old(self), *env, *r, *fields),
            extends(final(self).diags, old(self).diags),
            final(self).fn_module_map == old(self).fn_module_map,
            final(self).typedef_override_map == old(self).typedef_override_map,
        decreases fields,
    {
        match &**fields {
            List::Nil => nil(),
            List::Cons(f, t) => {
                let ds = self.emit_arm_folds(env, r, f);
                list_append(&ds, self.emit_union_folds(env, r, t))
            }
        }
    }

    /// The functions that give the arms' addresses at run time.
    pub fn emit_union_getters(&mut self, env: &Env, r: &RecordNames, fields: &Rc<List<Field>>) -> (out: Rc<List<DocT>>)
        ensures
            (*final(self), out) == spec_emit_union_getters(*old(self), *env, *r, *fields),
            extends(final(self).diags, old(self).diags),
            final(self).fn_module_map == old(self).fn_module_map,
            final(self).typedef_override_map == old(self).typedef_override_map,
        decreases fields,
    {
        match &**fields {
            List::Nil => nil(),
            List::Cons(f, t) => {
                let fld = field_name(f);
                let ret = self.emit_field_projection_type(env, f);
                let unfolded = naryfn(&l3(self.union_token(&r.name, &fld), txt("x"), txt("p")));
                let name = self.emit_name(Name::UnionFieldProj(r.name.clone(), fld.val.clone()));
                let proj = self.union_proj(&r.name, &fld);
                let d = self.getter(name, &r.ref_ty, ret, unfolded, proj);
                cons(d, self.emit_union_getters(env, r, t))
            }
        }
    }

    /// The ghost axiom that makes an arm active. It takes memory without a value and gives the
    /// arm's memory without a value: a write to the arm is what gives it one. An array keeps its
    /// static length, so that its elements can be written.
    pub fn emit_arm_activation(&mut self, env: &Env, r: &RecordNames, f: &Rc<Field>) -> (out: Doc)
        ensures
            (*final(self), out) == spec_emit_arm_activation(*old(self), *env, *r, *f),
            extends(final(self).diags, old(self).diags),
            final(self).fn_module_map == old(self).fn_module_map,
            final(self).typedef_override_map == old(self).typedef_override_map,
    {
        proof {
            reveal(spec_emit_arm_activation);
        }
        let fld = field_name(f);
        let token = naryfn(&l3(self.union_token(&r.name, &fld), txt("x"), txt("1.0R")));
        let proj = self.union_proj(&r.name, &fld);
        let arm = if field_is_array(f) {
            let v = fold_arg(&fld);
            let ty = self.emit_field_record_type(env, f);
            wrap_exists(&l1(Rc::new(ExBinding { name: v.clone(), ty })), &l1(naryfn(&l4(txt("array_pts_to"), proj, txt("1.0R"), v))))
        } else {
            naryfn(&l2(txt("Pulse.Lib.Reference.pts_to_uninit"), proj))
        };
        let name = self.emit_name(Name::UnionActivateFn(r.name.clone(), fld.val.clone()));
        mk_assume_val(&nil(), name, &l1(typed("x:", r.ref_ty.clone())),
            stt_ghost(naryfn(&l2(txt("Pulse.Lib.Reference.pts_to_uninit"), txt("x"))), mk_thunk(mk_star(&l2(token, arm)))))
    }

    /// The activations of the arms, but for bit-fields.
    pub fn emit_activations(&mut self, env: &Env, r: &RecordNames, fields: &Rc<List<Field>>) -> (out: Rc<List<DocT>>)
        ensures
            (*final(self), out) == spec_emit_activations(*old(self), *env, *r, *fields),
            extends(final(self).diags, old(self).diags),
            final(self).fn_module_map == old(self).fn_module_map,
            final(self).typedef_override_map == old(self).typedef_override_map,
        decreases fields,
    {
        match &**fields {
            List::Nil => nil(),
            List::Cons(f, t) => match &f.val {
                FieldT::BitField { .. } => self.emit_activations(env, r, t),
                FieldT::Plain { .. } => {
                    let d = self.emit_arm_activation(env, r, f);
                    cons(d, self.emit_activations(env, r, t))
                }
            },
        }
    }

    /// The zero value of a union: that of its first arm.
    pub fn emit_union_default(
        &mut self,
        env: &Env,
        k: &TypeRefKind,
        r: &RecordNames,
        fields: &Rc<List<Field>>,
    ) -> (out: Rc<List<DocT>>)
        ensures
            (*final(self), out) == spec_emit_union_default(*old(self), *env, *k, *r, *fields),
            extends(final(self).diags, old(self).diags),
            final(self).fn_module_map == old(self).fn_module_map,
            final(self).typedef_override_map == old(self).typedef_override_map,
    {
        proof {
            reveal(spec_emit_union_default);
        }
        match &**fields {
            List::Nil => nil(),
            List::Cons(f, _) => {
                let name = self.emit_name(Name::TypeRefDefault(type_ref(k)));
                let ctor = self.emit_name(Name::UnionFieldConstructor(r.name.clone(), field_name(f).val.clone()));
                let v = self.emit_field_default(env, f);
                l1(zero_instance(name, r.ty.clone(), zero_body(unaryfn(ctor, v))))
            }
        }
    }

    /// A union: its type with a constructor for each arm, its predicates, and for each arm the
    /// projection, the ghost functions, the getter and the activation; and its zero value.
    pub fn emit_uniondefn(&mut self, env: &Env, d: &Rc<UnionDefn>) -> (out: Doc)
        ensures
            (*final(self), out) == spec_emit_uniondefn(*old(self), *env, *d),
            extends(final(self).diags, old(self).diags),
            final(self).fn_module_map == old(self).fn_module_map,
            final(self).typedef_override_map == old(self).typedef_override_map,
    {
        proof {
            reveal(spec_emit_uniondefn);
        }
        let env1 = push_union(env, d.clone());
        let k = TypeRefKind::Union(d.name.clone());
        let ty = self.emit_name(Name::TypeRef(type_ref(&k)));
        let pred = self.emit_name(Name::TypeRefPred(type_ref(&k)));
        let r = RecordNames { name: d.name.val.clone(), ty: ty.clone(), ref_ty: unaryfn(txt("ref"), ty.clone()) };
        let arms = self.emit_union_arms(&env1, &r, &d.fields);
        let inductive = l1(group(d6(txt("noeq type"), line(), ty.clone(), line(), txt("="), concat(&arms))));
        let sizeof = self.emit_sizeof_axiom(&env1, &k, &d.name.loc, &ty);
        let env2 = push_this(&env1, mk_type_ref(&d.name.loc, &k));
        let this_arg = parens(d5(txt("[@@@mkey] "), self.emit_var_name(&lit("this")), txt(":"), line(), ty.clone()));
        let no_params = Rc::new(ValParams { key: type_ref(&k), types: nil() });
        self.type_val_params = cons(no_params.clone(), self.type_val_params.clone());
        self.type_uninit_val_params = cons(no_params, self.type_uninit_val_params.clone());
        let pred_decl = mk_eager_unfold_slprop(pred, &l2(this_arg.clone(), parens(txt("p: perm"))), txt("emp"));
        let uninit_pred = self.emit_name(Name::TypeRefUninitPred(type_ref(&k)));
        let uninit_decl = mk_eager_unfold_slprop(uninit_pred, &l1(this_arg), txt("emp"));
        let tokens = self.emit_union_tokens(&r, &d.fields);
        let projs = self.emit_union_projs(&env2, &r, &d.fields);
        let folds = self.emit_union_folds(&env2, &r, &d.fields);
        let getters = self.emit_union_getters(&env2, &r, &d.fields);
        let activations = self.emit_activations(&env2, &r, &d.fields);
        let default = self.emit_union_default(&env2, &k, &r, &d.fields);
        declarations(&list_append(&inductive, list_append(&sizeof, cons(pred_decl, cons(uninit_decl, list_append(&tokens,
            list_append(&projs, list_append(&folds, list_append(&getters, list_append(&activations, default))))))))))
    }
}

} // verus!
