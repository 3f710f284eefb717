//! Emission of expressions.

use crate::list::{
    List, cons, l2, l3, l4, l6, list_is_empty, list_len, list_push, nil, spec_cons, spec_l2,
    spec_l3, spec_l4, spec_l6, spec_list_is_empty, spec_list_len, spec_list_push, spec_nil,
};
use crate::text::{
    IntValue, Rope, Text, cat, cat3, cat4, cat5, int_is_zero, lit, num, spec_cat, spec_cat3,
    spec_cat4, spec_cat5, spec_int_is_zero, spec_lit, spec_num,
};
use crate::ir::{
    AuxFnKind, BinOp, Expr, ExprT, Field, FieldInit, Ident, InlinePulseToken, Loc, PointerKind,
    Type, TypeRefKind, TypeT, UnOp, VAttr, field_bit_width, field_is_array, field_name,
    field_type, find_field, global_var_is_array, same_name, show_expr, show_type,
    spec_field_bit_width, spec_field_is_array, spec_field_name, spec_field_type, spec_find_field,
    spec_global_var_is_array, spec_same_name, spec_show_expr, spec_show_type,
};
use crate::diag::extends;
use crate::doc::{
    Doc, DocT, annotated, binop, concat, d2, d3, d4, d5, d6, d7, d8, group, intersperse, line,
    naryfn, nest, nil_doc, parens, space, spec_annotated, spec_binop, spec_concat, spec_d2,
    spec_d3, spec_d4, spec_d5, spec_d6, spec_d7, spec_d8, spec_group, spec_intersperse, spec_line,
    spec_naryfn, spec_nest, spec_nil_doc, spec_parens, spec_space, spec_text_doc, spec_txt,
    spec_unaryfn, spec_unaryfn_with_type, spec_with_type, text_doc, txt, unaryfn,
    unaryfn_with_type, with_type,
};
use crate::env::{
    Env, LocalDeclKind, addressable_global, infer_error, infer_expr, infer_whnf, is_slprop,
    lookup_fn, lookup_global_var, lookup_struct, lookup_union, lookup_var, push_var_decl,
    show_env, spec_addressable_global, spec_infer_error, spec_infer_expr, spec_infer_whnf,
    spec_is_slprop, spec_lookup_fn, spec_lookup_global_var, spec_lookup_struct, spec_lookup_union,
    spec_lookup_var, spec_push_var_decl, spec_show_env, spec_vtype_eq, spec_vtype_whnf, vtype_eq,
    vtype_whnf,
};
use crate::names::{Name, TypeRef};
use crate::emit_base::{
    Emitter, ExprKind, abbrev, emit_binop, emit_machine_int_literal, emit_unop, find_module,
    get_bitfield_mask_fn, get_float_mod, get_int_mod, get_int_mod_lower, into_doc, spec_abbrev,
    spec_emit_binop, spec_emit_machine_int_literal, spec_emit_name, spec_emit_unop,
    spec_emit_var_name, spec_find_module, spec_get_bitfield_mask_fn, spec_get_float_mod,
    spec_get_int_mod, spec_get_int_mod_lower, spec_into_doc, spec_mangle_name, spec_qualified,
    spec_report, spec_to_rvalue, spec_to_rvalue_decayed, to_rvalue, to_rvalue_decayed,
};
use crate::emit_types::{
    aux_keyword, int_type, null_fnptr, null_of, spec_aux_keyword, spec_emit_field_default,
    spec_emit_type, spec_int_type, spec_null_fnptr, spec_null_of, spec_struct_aux_name,
    spec_union_aux_name, spec_unsigned_width, struct_aux_name, union_aux_name, unsigned_width,
};
use std::rc::Rc;
use vstd::prelude::*;

verus! {

broadcast use crate::diag::lemma_extends_trans;

/// The kind of pointer that an expression is.
#[verifier::opaque]
pub open spec fn spec_pointer_kind(env: Env, e: Rc<Expr>) -> Option<PointerKind>
{
    match spec_infer_whnf(env, e) {
        Some(t) => {
            match t.val {
                TypeT::Pointer(_, k) => Some(k),
                _ => None,
            }
        },
        None => None,
    }
}

/// The kind of pointer that an expression is.
pub fn pointer_kind(env: &Env, e: &Rc<Expr>) -> (out: Option<PointerKind>)
    ensures
        out == spec_pointer_kind(*env, *e),
{
    proof {
        reveal(spec_pointer_kind);
    }
    match infer_whnf(env, e) {
        Some(t) => match &t.val {
            TypeT::Pointer(_, k) => Some(*k),
            _ => None,
        },
        None => None,
    }
}

/// Whether an expression is a pointer of the given kind.
#[verifier::opaque]
pub open spec fn spec_is_pointer(env: Env, e: Rc<Expr>, kind: PointerKind) -> bool
{
    match spec_pointer_kind(env, e) {
        Some(k) => k == kind,
        None => false,
    }
}

/// Whether an expression is a pointer of the given kind.
pub fn is_pointer(env: &Env, e: &Rc<Expr>, kind: PointerKind) -> (out: bool)
    ensures
        out == spec_is_pointer(*env, *e, kind),
{
    proof {
        reveal(spec_is_pointer);
    }
    match pointer_kind(env, e) {
        Some(k) => k == kind,
        None => false,
    }
}

/// Whether an expression is an array or a place in one.
#[verifier::opaque]
pub open spec fn spec_is_array_pointer(env: Env, e: Rc<Expr>) -> bool
{
    spec_is_pointer(env, e, PointerKind::Array) || spec_is_pointer(env, e, PointerKind::ArrayPtr)
}

/// Whether an expression is an array or a place in one.
pub fn is_array_pointer(env: &Env, e: &Rc<Expr>) -> (out: bool)
    ensures
        out == spec_is_array_pointer(*env, *e),
{
    proof {
        reveal(spec_is_array_pointer);
    }
    is_pointer(env, e, PointerKind::Array) || is_pointer(env, e, PointerKind::ArrayPtr)
}

/// The length of the fixed array that an expression is.
#[verifier::opaque]
pub open spec fn spec_fixed_array_len(env: Env, e: Rc<Expr>) -> Option<u64>
{
    match spec_infer_whnf(env, e) {
        Some(t) => {
            match t.val {
                TypeT::FixedArray(_, n) => Some(n),
                _ => None,
            }
        },
        None => None,
    }
}

/// The length of the fixed array that an expression is.
pub fn fixed_array_len(env: &Env, e: &Rc<Expr>) -> (out: Option<u64>)
    ensures
        out == spec_fixed_array_len(*env, *e),
{
    proof {
        reveal(spec_fixed_array_len);
    }
    match infer_whnf(env, e) {
        Some(t) => match &t.val {
            TypeT::FixedArray(_, n) => Some(*n),
            _ => None,
        },
        None => None,
    }
}

/// Whether an expression is a flexible array.
#[verifier::opaque]
pub open spec fn spec_is_flex_array(env: Env, e: Rc<Expr>) -> bool
{
    match spec_infer_whnf(env, e) {
        Some(t) => matches!(t.val, TypeT::FlexArray(_)),
        None => false,
    }
}

/// Whether an expression is a flexible array.
pub fn is_flex_array(env: &Env, e: &Rc<Expr>) -> (out: bool)
    ensures
        out == spec_is_flex_array(*env, *e),
{
    proof {
        reveal(spec_is_flex_array);
    }
    match infer_whnf(env, e) {
        Some(t) => matches!(&t.val, TypeT::FlexArray(_)),
        None => false,
    }
}

/// The struct that an expression is a value of.
#[verifier::opaque]
pub open spec fn spec_struct_of(env: Env, e: Rc<Expr>) -> Option<Rc<Ident>>
{
    match spec_infer_whnf(env, e) {
        Some(t) => {
            match t.val {
                TypeT::TypeRef(TypeRefKind::Struct(n)) => Some(n),
                _ => None,
            }
        },
        None => None,
    }
}

/// The struct that an expression is a value of.
pub fn struct_of(env: &Env, e: &Rc<Expr>) -> (out: Option<Rc<Ident>>)
    ensures
        out == spec_struct_of(*env, *e),
{
    proof {
        reveal(spec_struct_of);
    }
    match infer_whnf(env, e) {
        Some(t) => match &t.val {
            TypeT::TypeRef(TypeRefKind::Struct(n)) => Some(n.clone()),
            _ => None,
        },
        None => None,
    }
}

/// The union that an expression is a value of.
#[verifier::opaque]
pub open spec fn spec_union_of(env: Env, e: Rc<Expr>) -> Option<Rc<Ident>>
{
    match spec_infer_whnf(env, e) {
        Some(t) => {
            match t.val {
                TypeT::TypeRef(TypeRefKind::Union(n)) => Some(n),
                _ => None,
            }
        },
        None => None,
    }
}

/// The union that an expression is a value of.
pub fn union_of(env: &Env, e: &Rc<Expr>) -> (out: Option<Rc<Ident>>)
    ensures
        out == spec_union_of(*env, *e),
{
    proof {
        reveal(spec_union_of);
    }
    match infer_whnf(env, e) {
        Some(t) => match &t.val {
            TypeT::TypeRef(TypeRefKind::Union(n)) => Some(n.clone()),
            _ => None,
        },
        None => None,
    }
}

/// Whether the struct's field is an array stored in place.
#[verifier::opaque]
pub open spec fn spec_struct_field_is_array(env: Env, s: Rc<Ident>, a: Rc<Ident>) -> bool
{
    match spec_lookup_struct(env, s) {
        Some(d) => {
            match spec_find_field(d.fields, a) {
                Some(f) => spec_field_is_array(f),
                None => false,
            }
        },
        None => false,
    }
}

/// Whether the struct's field is an array stored in place.
pub fn struct_field_is_array(env: &Env, s: &Rc<Ident>, a: &Rc<Ident>) -> (out: bool)
    ensures
        out == spec_struct_field_is_array(*env, *s, *a),
{
    proof {
        reveal(spec_struct_field_is_array);
    }
    match lookup_struct(env, s) {
        Some(d) => match find_field(&d.fields, a) {
            Some(f) => field_is_array(&f),
            None => false,
        },
        None => false,
    }
}

/// Whether the union's field is an array stored in place.
#[verifier::opaque]
pub open spec fn spec_union_field_is_array(env: Env, u: Rc<Ident>, a: Rc<Ident>) -> bool
{
    match spec_lookup_union(env, u) {
        Some(d) => {
            match spec_find_field(d.fields, a) {
                Some(f) => spec_field_is_array(f),
                None => false,
            }
        },
        None => false,
    }
}

/// Whether the union's field is an array stored in place.
pub fn union_field_is_array(env: &Env, u: &Rc<Ident>, a: &Rc<Ident>) -> (out: bool)
    ensures
        out == spec_union_field_is_array(*env, *u, *a),
{
    proof {
        reveal(spec_union_field_is_array);
    }
    match lookup_union(env, u) {
        Some(d) => match find_field(&d.fields, a) {
            Some(f) => field_is_array(&f),
            None => false,
        },
        None => false,
    }
}

/// The width of a bit-field that an expression selects, and the function that truncates to
/// it. A write to a bit-field stores the truncated value, as C does for unsigned ones.
pub struct BitFieldMask {
    pub width: u32,
    pub mask_fn: &'static str,
}

/// The truncation of a field.
#[verifier::opaque]
pub open spec fn spec_field_mask(env: Env, f: Rc<Field>) -> Option<BitFieldMask>
{
    match spec_field_bit_width(f) {
        Some(width) => {
            match spec_unsigned_width(env, spec_field_type(f)) {
                Some(mw) => {
                    match spec_get_bitfield_mask_fn(mw) {
                        Some(mask_fn) => Some(BitFieldMask { width, mask_fn }),
                        None => None,
                    }
                },
                None => None,
            }
        },
        None => None,
    }
}

/// The truncation of a field.
pub fn field_mask(env: &Env, f: &Rc<Field>) -> (out: Option<BitFieldMask>)
    ensures
        out == spec_field_mask(*env, *f),
{
    proof {
        reveal(spec_field_mask);
    }
    match field_bit_width(f) {
        Some(width) => match unsigned_width(env, &field_type(f)) {
            Some(mw) => match get_bitfield_mask_fn(mw) {
                Some(mask_fn) => Some(BitFieldMask { width, mask_fn }),
                None => None,
            },
            None => None,
        },
        None => None,
    }
}

/// The truncation that a write to a member access needs.
#[verifier::opaque]
pub open spec fn spec_bitfield_member_mask(
    env: Env,
    base: Rc<Expr>,
    fld: Rc<Ident>,
) -> Option<BitFieldMask>
{
    match spec_struct_of(env, base) {
        Some(s) => {
            match spec_lookup_struct(env, s) {
                Some(d) => {
                    match spec_find_field(d.fields, fld) {
                        Some(f) => spec_field_mask(env, f),
                        None => None,
                    }
                },
                None => None,
            }
        },
        None => None,
    }
}

/// The truncation that a write to a member access needs.
pub fn bitfield_member_mask(env: &Env, base: &Rc<Expr>, fld: &Rc<Ident>) -> (out: Option<BitFieldMask>)
    ensures
        out == spec_bitfield_member_mask(*env, *base, *fld),
{
    proof {
        reveal(spec_bitfield_member_mask);
    }
    match struct_of(env, base) {
        Some(s) => match lookup_struct(env, &s) {
            Some(d) => match find_field(&d.fields, fld) {
                Some(f) => field_mask(env, &f),
                None => None,
            },
            None => None,
        },
        None => None,
    }
}

/// Whether the expression is the literal zero.
#[verifier::opaque]
pub open spec fn spec_is_zero_literal(e: Rc<Expr>) -> bool
{
    match e.val {
        ExprT::IntLit(n, _) => spec_int_is_zero(n),
        _ => false,
    }
}

/// Whether the expression is the literal zero.
pub fn is_zero_literal(e: &Rc<Expr>) -> (out: bool)
    ensures
        out == spec_is_zero_literal(*e),
{
    proof {
        reveal(spec_is_zero_literal);
    }
    match &e.val {
        ExprT::IntLit(n, _) => int_is_zero(n),
        _ => false,
    }
}

/// A function whose name opens a bracket, applied to an argument that closes it.
#[verifier::opaque]
pub open spec fn spec_unary_closing(f: Text, arg: Doc) -> Doc
{
    spec_unaryfn(spec_text_doc(f), spec_d2(arg, spec_txt(")")))
}

/// A function whose name opens a bracket, applied to an argument that closes it.
pub fn unary_closing(f: Text, arg: Doc) -> (out: Doc)
    ensures
        out == spec_unary_closing(f, arg),
{
    proof {
        reveal(spec_unary_closing);
    }
    unaryfn(text_doc(f), d2(arg, txt(")")))
}

/// `if c then 1sz else 0sz`, with the given condition and branches.
#[verifier::opaque]
pub open spec fn spec_if_then_else(c: Doc, a: Doc, b: Doc) -> Doc
{
    spec_parens(spec_d8(spec_group(spec_d3(spec_txt("if"), spec_line(), c)), spec_line(), spec_txt("then"), spec_nest(spec_d2(spec_line(), a)), spec_line(), spec_txt("else"), spec_nest(spec_d2(spec_line(), b)), spec_nil_doc()))
}

/// `if c then 1sz else 0sz`, with the given condition and branches.
pub fn if_then_else(c: Doc, a: Doc, b: Doc) -> (out: Doc)
    ensures
        out == spec_if_then_else(c, a, b),
{
    proof {
        reveal(spec_if_then_else);
    }
    parens(d8(group(d3(txt("if"), line(), c)), line(), txt("then"), nest(d2(line(), a)),
        line(), txt("else"), nest(d2(line(), b)), nil_doc()))
}

/// `v <> 0`.
#[verifier::opaque]
pub open spec fn spec_nonzero(v: Doc) -> Doc
{
    spec_parens(spec_d5(v, spec_line(), spec_txt("<>"), spec_line(), spec_txt("0")))
}

/// `v <> 0`.
pub fn nonzero(v: Doc) -> (out: Doc)
    ensures
        out == spec_nonzero(v),
{
    proof {
        reveal(spec_nonzero);
    }
    parens(d5(v, line(), txt("<>"), line(), txt("0")))
}

/// A value turned into a truth value.
#[verifier::opaque]
pub open spec fn spec_cast_to_bool(from: Rc<Type>, v: Doc) -> Option<Doc>
{
    match from.val {
        TypeT::SpecInt | TypeT::SpecNat => Some(spec_nonzero(v)),
        TypeT::Int { signed, width } => Some(spec_unaryfn(spec_text_doc(spec_cat(spec_abbrev(signed, width), spec_lit("_to_bool"))), v)),
        TypeT::Float { width } => {
            match spec_get_float_mod(width) {
                Some(m) => Some(spec_unaryfn(spec_text_doc(spec_cat(spec_lit(m), spec_lit("_to_bool"))), v)),
                None => None,
            }
        },
        TypeT::SizeT => Some(spec_binop(spec_unaryfn(spec_txt("SizeT.v"), v), spec_txt("<>"), spec_txt("0"))),
        TypeT::Pointer(_, kind) => {
            Some(spec_unaryfn(spec_txt("not"), spec_unaryfn(spec_txt(match kind {
                                PointerKind::Array | PointerKind::ArrayPtr => "array_is_null",
                                PointerKind::Core => "Pulse.Lib.C.CoreRef.core_is_null",
                                PointerKind::Ref | PointerKind::Unknown => "Pulse.Lib.Reference.is_null",
                        }), v)))
        },
        TypeT::FnPtr { .. } => Some(spec_unaryfn(spec_txt("not"), spec_unaryfn(spec_txt("Pulse.Lib.C.FuncPtr.is_null"), v))),
        _ => None,
    }
}

/// A value turned into a truth value.
pub fn cast_to_bool(from: &Rc<Type>, v: Doc) -> (out: Option<Doc>)
    ensures
        out == spec_cast_to_bool(*from, v),
{
    proof {
        reveal(spec_cast_to_bool);
    }
    match &from.val {
        TypeT::SpecInt | TypeT::SpecNat => Some(nonzero(v)),
        TypeT::Int { signed, width } => Some(unaryfn(text_doc(cat(abbrev(*signed, *width), lit("_to_bool"))), v)),
        TypeT::Float { width } => match get_float_mod(*width) {
            Some(m) => Some(unaryfn(text_doc(cat(lit(m), lit("_to_bool"))), v)),
            None => None,
        },
        TypeT::SizeT => Some(binop(unaryfn(txt("SizeT.v"), v), txt("<>"), txt("0"))),
        TypeT::Pointer(_, kind) => Some(unaryfn(txt("not"), unaryfn(txt(match kind {
            PointerKind::Array | PointerKind::ArrayPtr => "array_is_null",
            PointerKind::Core => "Pulse.Lib.C.CoreRef.core_is_null",
            PointerKind::Ref | PointerKind::Unknown => "Pulse.Lib.Reference.is_null",
        }), v))),
        TypeT::FnPtr { .. } => Some(unaryfn(txt("not"), unaryfn(txt("Pulse.Lib.C.FuncPtr.is_null"), v))),
        _ => None,
    }
}

/// The conversion from a mathematical integer.
#[verifier::opaque]
pub open spec fn spec_of_int(signed: bool) -> &'static str
{
    if signed {
        ".int_to_t"
    } else {
        ".uint_to_t"
    }
}

/// The conversion from a mathematical integer.
pub fn of_int(signed: bool) -> (out: &'static str)
    ensures
        out == spec_of_int(signed),
{
    proof {
        reveal(spec_of_int);
    }
    if signed { ".int_to_t" } else { ".uint_to_t" }
}

/// A value turned into a machine integer. A `size_t` is reduced modulo the width, as C
/// converts to unsigned types.
#[verifier::opaque]
pub open spec fn spec_cast_to_int(
    from: Rc<Type>,
    to: Rc<Type>,
    signed: bool,
    width: u32,
    v: Doc,
) -> Option<Doc>
{
    match from.val {
        TypeT::Bool => Some(spec_unaryfn(spec_text_doc(spec_cat(spec_lit("bool_to_"), spec_abbrev(signed, width))), v)),
        TypeT::Int { signed: s1, width: w1 } => {
            if s1 == signed && w1 == width {
                Some(v)
            } else {
                Some(spec_unaryfn_with_type(spec_text_doc(spec_cat4(spec_lit("Int.Cast."), spec_abbrev(s1, w1), spec_lit("_to_"), spec_abbrev(signed, width))), v, spec_annotated(to.loc, spec_int_type(signed, width))))
            }
        },
        TypeT::Float { width: fw } => {
            match (spec_get_float_mod(fw), spec_get_int_mod(signed, width)) {
                (Some(fm), Some(im)) => Some(spec_unary_closing(spec_cat5(spec_lit(im), spec_lit(spec_of_int(signed)), spec_lit(" ("), spec_lit(fm), spec_lit("_to_int")), v)),
                _ => None,
            }
        },
        TypeT::SizeT => {
            if !signed && width == 64 {
                Some(spec_unaryfn(spec_txt("SizeT.sizet_to_uint64"), v))
            } else {
                if !signed && width == 32 {
                    Some(spec_unaryfn(spec_txt("SizeT.sizet_to_uint32"), v))
                } else {
                    match spec_get_int_mod(signed, width) {
                        Some(_) => Some(spec_unaryfn_with_type(spec_text_doc(spec_cat(spec_lit("Int.Cast.uint64_to_"), spec_abbrev(signed, width))), spec_unaryfn(spec_txt("SizeT.sizet_to_uint64"), v), spec_annotated(to.loc, spec_int_type(signed, width)))),
                        None => None,
                    }
                }
            }
        },
        TypeT::SpecInt | TypeT::SpecNat => {
            match spec_get_int_mod(signed, width) {
                Some(m) => Some(spec_unaryfn(spec_text_doc(spec_cat(spec_lit(m), spec_lit(spec_of_int(signed)))), v)),
                None => None,
            }
        },
        TypeT::PtrdiffT => {
            match spec_get_int_mod(signed, width) {
                Some(m) => Some(spec_unary_closing(spec_cat3(spec_lit(m), spec_lit(spec_of_int(signed)), spec_lit(" (Pulse.Lib.C.PtrdiffT.v")), v)),
                None => None,
            }
        },
        _ => None,
    }
}

/// A value turned into a machine integer. A `size_t` is reduced modulo the width, as C
/// converts to unsigned types.
pub fn cast_to_int(from: &Rc<Type>, to: &Rc<Type>, signed: bool, width: u32, v: Doc) -> (out: Option<Doc>)
    ensures
        out == spec_cast_to_int(*from, *to, signed, width, v),
{
    proof {
        reveal(spec_cast_to_int);
    }
    match &from.val {
        TypeT::Bool => Some(unaryfn(text_doc(cat(lit("bool_to_"), abbrev(signed, width))), v)),
        TypeT::Int { signed: s1, width: w1 } => if *s1 == signed && *w1 == width {
            Some(v)
        } else {
            Some(unaryfn_with_type(text_doc(cat4(lit("Int.Cast."), abbrev(*s1, *w1), lit("_to_"), abbrev(signed, width))), v,
                annotated(&to.loc, int_type(signed, width))))
        },
        TypeT::Float { width: fw } => match (get_float_mod(*fw), get_int_mod(signed, width)) {
            (Some(fm), Some(im)) => Some(unary_closing(cat5(lit(im), lit(of_int(signed)), lit(" ("), lit(fm), lit("_to_int")), v)),
            _ => None,
        },
        TypeT::SizeT => if !signed && width == 64 {
            Some(unaryfn(txt("SizeT.sizet_to_uint64"), v))
        } else if !signed && width == 32 {
            Some(unaryfn(txt("SizeT.sizet_to_uint32"), v))
        } else {
            match get_int_mod(signed, width) {
                Some(_) => Some(unaryfn_with_type(text_doc(cat(lit("Int.Cast.uint64_to_"), abbrev(signed, width))),
                    unaryfn(txt("SizeT.sizet_to_uint64"), v), annotated(&to.loc, int_type(signed, width)))),
                None => None,
            }
        },
        TypeT::SpecInt | TypeT::SpecNat => match get_int_mod(signed, width) {
            Some(m) => Some(unaryfn(text_doc(cat(lit(m), lit(of_int(signed)))), v)),
            None => None,
        },
        TypeT::PtrdiffT => match get_int_mod(signed, width) {
            Some(m) => Some(unary_closing(cat3(lit(m), lit(of_int(signed)), lit(" (Pulse.Lib.C.PtrdiffT.v")), v)),
            None => None,
        },
        _ => None,
    }
}

/// A value turned into a mathematical integer.
#[verifier::opaque]
pub open spec fn spec_cast_to_math(from: Rc<Type>, to_nat: bool, v: Doc) -> Option<Doc>
{
    match from.val {
        TypeT::Bool => Some(spec_unaryfn(spec_txt("bool_to_int"), v)),
        TypeT::SpecNat => {
            if to_nat {
                None
            } else {
                Some(spec_with_type(v, spec_txt("int")))
            }
        },
        TypeT::SpecInt => {
            if to_nat {
                Some(spec_with_type(v, spec_txt("nat")))
            } else {
                None
            }
        },
        TypeT::Int { signed, width } => {
            match spec_get_int_mod(signed, width) {
                Some(m) => Some(spec_unaryfn_with_type(spec_text_doc(spec_cat(spec_lit(m), spec_lit(".v"))), v, spec_txt("int"))),
                None => None,
            }
        },
        TypeT::SizeT => Some(spec_unaryfn(spec_txt("SizeT.v"), v)),
        _ => None,
    }
}

/// A value turned into a mathematical integer.
pub fn cast_to_math(from: &Rc<Type>, to_nat: bool, v: Doc) -> (out: Option<Doc>)
    ensures
        out == spec_cast_to_math(*from, to_nat, v),
{
    proof {
        reveal(spec_cast_to_math);
    }
    match &from.val {
        TypeT::Bool => Some(unaryfn(txt("bool_to_int"), v)),
        TypeT::SpecNat => if to_nat { None } else { Some(with_type(v, txt("int"))) },
        TypeT::SpecInt => if to_nat { Some(with_type(v, txt("nat"))) } else { None },
        TypeT::Int { signed, width } => match get_int_mod(*signed, *width) {
            Some(m) => Some(unaryfn_with_type(text_doc(cat(lit(m), lit(".v"))), v, txt("int"))),
            None => None,
        },
        TypeT::SizeT => Some(unaryfn(txt("SizeT.v"), v)),
        _ => None,
    }
}

/// A value turned into a separation-logic proposition. An integer there holds when it is not
/// zero, as in C.
#[verifier::opaque]
pub open spec fn spec_cast_to_slprop(from: Rc<Type>, v: Doc) -> Option<Doc>
{
    match from.val {
        TypeT::SpecInt | TypeT::SpecNat => Some(spec_unaryfn(spec_txt("with_pure"), spec_nonzero(v))),
        TypeT::Bool => Some(spec_unaryfn(spec_txt("with_pure"), v)),
        _ => None,
    }
}

/// A value turned into a separation-logic proposition. An integer there holds when it is not
/// zero, as in C.
pub fn cast_to_slprop(from: &Rc<Type>, v: Doc) -> (out: Option<Doc>)
    ensures
        out == spec_cast_to_slprop(*from, v),
{
    proof {
        reveal(spec_cast_to_slprop);
    }
    match &from.val {
        TypeT::SpecInt | TypeT::SpecNat => Some(unaryfn(txt("with_pure"), nonzero(v))),
        TypeT::Bool => Some(unaryfn(txt("with_pure"), v)),
        _ => None,
    }
}

/// A value turned into a `size_t`.
#[verifier::opaque]
pub open spec fn spec_cast_to_size(from: Rc<Type>, v: Doc) -> Option<Doc>
{
    match from.val {
        TypeT::Bool => Some(spec_if_then_else(v, spec_txt("1sz"), spec_txt("0sz"))),
        TypeT::Int { signed, width } => {
            match spec_get_int_mod(signed, width) {
                Some(m) => Some(spec_unary_closing(spec_cat3(spec_lit("SizeT.uint_to_t ("), spec_lit(m), spec_lit(".v")), v)),
                None => None,
            }
        },
        TypeT::SpecInt | TypeT::SpecNat => Some(spec_unaryfn(spec_txt("SizeT.uint_to_t"), v)),
        TypeT::PtrdiffT => Some(spec_unary_closing(spec_lit("SizeT.uint_to_t (Pulse.Lib.C.PtrdiffT.v"), v)),
        TypeT::Float { width } => {
            match spec_get_float_mod(width) {
                Some(m) => Some(spec_unary_closing(spec_cat3(spec_lit("SizeT.uint_to_t ("), spec_lit(m), spec_lit("_to_int")), v)),
                None => None,
            }
        },
        _ => None,
    }
}

/// A value turned into a `size_t`.
pub fn cast_to_size(from: &Rc<Type>, v: Doc) -> (out: Option<Doc>)
    ensures
        out == spec_cast_to_size(*from, v),
{
    proof {
        reveal(spec_cast_to_size);
    }
    match &from.val {
        TypeT::Bool => Some(if_then_else(v, txt("1sz"), txt("0sz"))),
        TypeT::Int { signed, width } => match get_int_mod(*signed, *width) {
            Some(m) => Some(unary_closing(cat3(lit("SizeT.uint_to_t ("), lit(m), lit(".v")), v)),
            None => None,
        },
        TypeT::SpecInt | TypeT::SpecNat => Some(unaryfn(txt("SizeT.uint_to_t"), v)),
        TypeT::PtrdiffT => Some(unary_closing(lit("SizeT.uint_to_t (Pulse.Lib.C.PtrdiffT.v"), v)),
        TypeT::Float { width } => match get_float_mod(*width) {
            Some(m) => Some(unary_closing(cat3(lit("SizeT.uint_to_t ("), lit(m), lit("_to_int")), v)),
            None => None,
        },
        _ => None,
    }
}

/// A value turned into a floating-point number.
#[verifier::opaque]
pub open spec fn spec_cast_to_float(from: Rc<Type>, to_width: u32, v: Doc) -> Option<Doc>
{
    let to_mod = spec_get_float_mod(to_width);
    match (from.val, to_mod) {
        (TypeT::Bool, Some(m)) => Some(spec_unaryfn(spec_text_doc(spec_cat(spec_lit(m), spec_lit("_of_bool"))), v)),
        (TypeT::Float { width: w }, _) => {
            if w == 32 && to_width == 64 {
                Some(spec_unary_closing(spec_lit("Pulse.Lib.C.float64_of_int (Pulse.Lib.C.float32_to_int"), v))
            } else {
                if w == 64 && to_width == 32 {
                    Some(spec_unary_closing(spec_lit("Pulse.Lib.C.float32_of_int (Pulse.Lib.C.float64_to_int"), v))
                } else {
                    if w == to_width {
                        Some(v)
                    } else {
                        None
                    }
                }
            }
        },
        (TypeT::Int { signed, width }, Some(m)) => {
            match spec_get_int_mod(signed, width) {
                Some(im) => Some(spec_unary_closing(spec_cat4(spec_lit(m), spec_lit("_of_int ("), spec_lit(im), spec_lit(".v")), v)),
                None => None,
            }
        },
        (TypeT::SizeT, Some(m)) => Some(spec_unary_closing(spec_cat(spec_lit(m), spec_lit("_of_int (SizeT.v")), v)),
        (TypeT::PtrdiffT, Some(m)) => Some(spec_unary_closing(spec_cat(spec_lit(m), spec_lit("_of_int (Pulse.Lib.C.PtrdiffT.v")), v)),
        _ => None,
    }
}

/// A value turned into a floating-point number.
pub fn cast_to_float(from: &Rc<Type>, to_width: u32, v: Doc) -> (out: Option<Doc>)
    ensures
        out == spec_cast_to_float(*from, to_width, v),
{
    proof {
        reveal(spec_cast_to_float);
    }
    let to_mod = get_float_mod(to_width);
    match (&from.val, to_mod) {
        (TypeT::Bool, Some(m)) => Some(unaryfn(text_doc(cat(lit(m), lit("_of_bool"))), v)),
        (TypeT::Float { width: w }, _) => if *w == 32 && to_width == 64 {
            Some(unary_closing(lit("Pulse.Lib.C.float64_of_int (Pulse.Lib.C.float32_to_int"), v))
        } else if *w == 64 && to_width == 32 {
            Some(unary_closing(lit("Pulse.Lib.C.float32_of_int (Pulse.Lib.C.float64_to_int"), v))
        } else if *w == to_width {
            Some(v)
        } else {
            None
        },
        (TypeT::Int { signed, width }, Some(m)) => match get_int_mod(*signed, *width) {
            Some(im) => Some(unary_closing(cat4(lit(m), lit("_of_int ("), lit(im), lit(".v")), v)),
            None => None,
        },
        (TypeT::SizeT, Some(m)) => Some(unary_closing(cat(lit(m), lit("_of_int (SizeT.v")), v)),
        (TypeT::PtrdiffT, Some(m)) => Some(unary_closing(cat(lit(m), lit("_of_int (Pulse.Lib.C.PtrdiffT.v")), v)),
        _ => None,
    }
}

/// A value turned into a `ptrdiff_t`.
#[verifier::opaque]
pub open spec fn spec_cast_to_ptrdiff(from: Rc<Type>, v: Doc) -> Option<Doc>
{
    match from.val {
        TypeT::SizeT => Some(spec_unary_closing(spec_lit("Pulse.Lib.C.PtrdiffT.of_int (SizeT.v"), v)),
        TypeT::Int { signed, width } => {
            match spec_get_int_mod(signed, width) {
                Some(m) => Some(spec_unary_closing(spec_cat3(spec_lit("Pulse.Lib.C.PtrdiffT.of_int ("), spec_lit(m), spec_lit(".v")), v)),
                None => None,
            }
        },
        TypeT::PtrdiffT => Some(v),
        TypeT::Float { width } => {
            match spec_get_float_mod(width) {
                Some(m) => Some(spec_unary_closing(spec_cat3(spec_lit("Pulse.Lib.C.PtrdiffT.of_int ("), spec_lit(m), spec_lit("_to_int")), v)),
                None => None,
            }
        },
        _ => None,
    }
}

/// A value turned into a `ptrdiff_t`.
pub fn cast_to_ptrdiff(from: &Rc<Type>, v: Doc) -> (out: Option<Doc>)
    ensures
        out == spec_cast_to_ptrdiff(*from, v),
{
    proof {
        reveal(spec_cast_to_ptrdiff);
    }
    match &from.val {
        TypeT::SizeT => Some(unary_closing(lit("Pulse.Lib.C.PtrdiffT.of_int (SizeT.v"), v)),
        TypeT::Int { signed, width } => match get_int_mod(*signed, *width) {
            Some(m) => Some(unary_closing(cat3(lit("Pulse.Lib.C.PtrdiffT.of_int ("), lit(m), lit(".v")), v)),
            None => None,
        },
        TypeT::PtrdiffT => Some(v),
        TypeT::Float { width } => match get_float_mod(*width) {
            Some(m) => Some(unary_closing(cat3(lit("Pulse.Lib.C.PtrdiffT.of_int ("), lit(m), lit("_to_int")), v)),
            None => None,
        },
        _ => None,
    }
}

/// Whether nothing is known of the type.
#[verifier::opaque]
pub open spec fn spec_is_broken(t: Rc<Type>) -> bool
{
    matches!(t.val, TypeT::Error | TypeT::Unknown)
}

/// Whether nothing is known of the type.
pub fn is_broken(t: &Rc<Type>) -> (out: bool)
    ensures
        out == spec_is_broken(*t),
{
    proof {
        reveal(spec_is_broken);
    }
    matches!(&t.val, TypeT::Error | TypeT::Unknown)
}

/// The conversion of a value, where it needs no name.
#[verifier::opaque]
pub open spec fn spec_cast_plain(from: Rc<Type>, to: Rc<Type>, v: Doc) -> Option<Doc>
{
    match to.val {
        TypeT::Bool => spec_cast_to_bool(from, v),
        TypeT::Int { signed, width } => spec_cast_to_int(from, to, signed, width, v),
        TypeT::SpecInt => spec_cast_to_math(from, false, v),
        TypeT::SpecNat => spec_cast_to_math(from, true, v),
        TypeT::SLProp => spec_cast_to_slprop(from, v),
        TypeT::SizeT => spec_cast_to_size(from, v),
        TypeT::Float { width } => spec_cast_to_float(from, width, v),
        TypeT::PtrdiffT => spec_cast_to_ptrdiff(from, v),
        _ => None,
    }
}

/// The conversion of a value, where it needs no name.
pub fn cast_plain(from: &Rc<Type>, to: &Rc<Type>, v: Doc) -> (out: Option<Doc>)
    ensures
        out == spec_cast_plain(*from, *to, v),
{
    proof {
        reveal(spec_cast_plain);
    }
    match &to.val {
        TypeT::Bool => cast_to_bool(from, v),
        TypeT::Int { signed, width } => cast_to_int(from, to, *signed, *width, v),
        TypeT::SpecInt => cast_to_math(from, false, v),
        TypeT::SpecNat => cast_to_math(from, true, v),
        TypeT::SLProp => cast_to_slprop(from, v),
        TypeT::SizeT => cast_to_size(from, v),
        TypeT::Float { width } => cast_to_float(from, *width, v),
        TypeT::PtrdiffT => cast_to_ptrdiff(from, v),
        _ => None,
    }
}

/// The name of a null test for a kind of pointer.
#[verifier::opaque]
pub open spec fn spec_null_test(kind: PointerKind) -> &'static str
{
    match kind {
        PointerKind::Ref | PointerKind::Unknown => "Pulse.Lib.Reference.is_null",
        PointerKind::Array | PointerKind::ArrayPtr => "array_is_null",
        PointerKind::Core => "Pulse.Lib.C.CoreRef.core_is_null",
    }
}

/// The name of a null test for a kind of pointer.
pub fn null_test(kind: PointerKind) -> (out: &'static str)
    ensures
        out == spec_null_test(kind),
{
    proof {
        reveal(spec_null_test);
    }
    match kind {
        PointerKind::Ref | PointerKind::Unknown => "Pulse.Lib.Reference.is_null",
        PointerKind::Array | PointerKind::ArrayPtr => "array_is_null",
        PointerKind::Core => "Pulse.Lib.C.CoreRef.core_is_null",
    }
}

/// The name of the null test for an expression that is compared with zero.
#[verifier::opaque]
pub open spec fn spec_null_test_of(env: Env, lhs: Rc<Expr>, rhs: Rc<Expr>) -> Option<&'static str>
{
    if spec_is_zero_literal(rhs) {
        match spec_infer_whnf(env, lhs) {
            Some(t) => {
                match t.val {
                    TypeT::Pointer(_, k) => Some(spec_null_test(k)),
                    TypeT::FnPtr { .. } => Some("Pulse.Lib.C.FuncPtr.is_null"),
                    _ => None,
                }
            },
            None => None,
        }
    } else {
        None
    }
}

/// The name of the null test for an expression that is compared with zero.
pub fn null_test_of(env: &Env, lhs: &Rc<Expr>, rhs: &Rc<Expr>) -> (out: Option<&'static str>)
    ensures
        out == spec_null_test_of(*env, *lhs, *rhs),
{
    proof {
        reveal(spec_null_test_of);
    }
    if is_zero_literal(rhs) {
        match infer_whnf(env, lhs) {
            Some(t) => match &t.val {
                TypeT::Pointer(_, k) => Some(null_test(*k)),
                TypeT::FnPtr { .. } => Some("Pulse.Lib.C.FuncPtr.is_null"),
                _ => None,
            },
            None => None,
        }
    } else {
        None
    }
}

/// The operator between two expressions, by the type of the first.
#[verifier::opaque]
pub open spec fn spec_operator_of(env: Env, op: BinOp, lhs: Rc<Expr>) -> Option<Doc>
{
    match spec_infer_expr(env, lhs) {
        Some(t) => spec_emit_binop(env, op, t),
        None => None,
    }
}

/// The operator between two expressions, by the type of the first.
pub fn operator_of(env: &Env, op: BinOp, lhs: &Rc<Expr>) -> (out: Option<Doc>)
    ensures
        out == spec_operator_of(*env, op, *lhs),
{
    proof {
        reveal(spec_operator_of);
    }
    match infer_expr(env, lhs) {
        Some(t) => emit_binop(env, op, &t),
        None => None,
    }
}

/// The unary operator on an expression.
#[verifier::opaque]
pub open spec fn spec_unary_operator_of(env: Env, op: UnOp, arg: Rc<Expr>) -> Option<Doc>
{
    match spec_infer_expr(env, arg) {
        Some(t) => spec_emit_unop(env, op, t),
        None => None,
    }
}

/// The unary operator on an expression.
pub fn unary_operator_of(env: &Env, op: UnOp, arg: &Rc<Expr>) -> (out: Option<Doc>)
    ensures
        out == spec_unary_operator_of(*env, op, *arg),
{
    proof {
        reveal(spec_unary_operator_of);
    }
    match infer_expr(env, arg) {
        Some(t) => emit_unop(env, op, &t),
        None => None,
    }
}

/// Whether the expression's type is `_slprop` as it is written.
#[verifier::opaque]
pub open spec fn spec_is_plain_slprop(env: Env, e: Rc<Expr>) -> bool
{
    match spec_infer_expr(env, e) {
        Some(t) => matches!(t.val, TypeT::SLProp),
        None => false,
    }
}

/// Whether the expression's type is `_slprop` as it is written.
pub fn is_plain_slprop(env: &Env, e: &Rc<Expr>) -> (out: bool)
    ensures
        out == spec_is_plain_slprop(*env, *e),
{
    proof {
        reveal(spec_is_plain_slprop);
    }
    match infer_expr(env, e) {
        Some(t) => matches!(&t.val, TypeT::SLProp),
        None => false,
    }
}

/// Whether the expression is a proposition of separation logic.
#[verifier::opaque]
pub open spec fn spec_is_slprop_expr(env: Env, e: Rc<Expr>) -> bool
{
    match spec_infer_expr(env, e) {
        Some(t) => spec_is_slprop(env, t),
        None => false,
    }
}

/// Whether the expression is a proposition of separation logic.
pub fn is_slprop_expr(env: &Env, e: &Rc<Expr>) -> (out: bool)
    ensures
        out == spec_is_slprop_expr(*env, *e),
{
    proof {
        reveal(spec_is_slprop_expr);
    }
    match infer_expr(env, e) {
        Some(t) => is_slprop(env, &t),
        None => false,
    }
}

/// The function that shifts a pointer to a place in its array.
#[verifier::opaque]
pub open spec fn spec_shift_fn(env: Env, ptr: Rc<Expr>) -> &'static str
{
    if spec_is_pointer(env, ptr, PointerKind::Array) {
        "array_to_arrayptr"
    } else {
        "arrayptr_shift"
    }
}

/// The function that shifts a pointer to a place in its array.
pub fn shift_fn(env: &Env, ptr: &Rc<Expr>) -> (out: &'static str)
    ensures
        out == spec_shift_fn(*env, *ptr),
{
    proof {
        reveal(spec_shift_fn);
    }
    if is_pointer(env, ptr, PointerKind::Array) { "array_to_arrayptr" } else { "arrayptr_shift" }
}

/// The suffix of an increment's library function.
#[verifier::opaque]
pub open spec fn spec_incr_suffix(env: Env, e: Rc<Expr>) -> &'static str
{
    match spec_infer_whnf(env, e) {
        Some(t) => {
            match t.val {
                TypeT::Int { signed, width } => {
                    match spec_get_int_mod_lower(signed, width) {
                        Some(m) => m,
                        None => "unknown",
                    }
                },
                TypeT::Float { width: 32 } => "float32",
                TypeT::Float { width: 64 } => "float64",
                TypeT::SizeT => "sizet",
                TypeT::PtrdiffT => "ptrdifft",
                _ => "unknown",
            }
        },
        None => "unknown",
    }
}

/// The suffix of an increment's library function.
pub fn incr_suffix(env: &Env, e: &Rc<Expr>) -> (out: &'static str)
    ensures
        out == spec_incr_suffix(*env, *e),
{
    proof {
        reveal(spec_incr_suffix);
    }
    match infer_whnf(env, e) {
        Some(t) => match &t.val {
            TypeT::Int { signed, width } => match get_int_mod_lower(*signed, *width) {
                Some(m) => m,
                None => "unknown",
            },
            TypeT::Float { width: 32 } => "float32",
            TypeT::Float { width: 64 } => "float64",
            TypeT::SizeT => "sizet",
            TypeT::PtrdiffT => "ptrdifft",
            _ => "unknown",
        },
        None => "unknown",
    }
}

/// A literal record field, after a possible line break.
#[verifier::opaque]
pub open spec fn spec_record_entry(name: Doc, value: Doc) -> Doc
{
    spec_d5(spec_line(), name, spec_txt("="), value, spec_txt(";"))
}

/// A literal record field, after a possible line break.
pub fn record_entry(name: Doc, value: Doc) -> (out: Doc)
    ensures
        out == spec_record_entry(name, value),
{
    proof {
        reveal(spec_record_entry);
    }
    d5(line(), name, txt("="), value, txt(";"))
}

/// A record literal.
#[verifier::opaque]
pub open spec fn spec_record_literal(entries: Rc<List<DocT>>) -> Doc
{
    spec_group(spec_d3(spec_nest(spec_d2(spec_txt("{"), spec_concat(entries))), spec_line(), spec_txt("}")))
}

/// A record literal.
pub fn record_literal(entries: &Rc<List<DocT>>) -> (out: Doc)
    ensures
        out == spec_record_literal(*entries),
{
    proof {
        reveal(spec_record_literal);
    }
    group(d3(nest(d2(txt("{"), concat(entries))), line(), txt("}")))
}

/// A tuple of arguments.
#[verifier::opaque]
pub open spec fn spec_arg_tuple(comps: Rc<List<DocT>>) -> Doc
{
    match *comps {
        List::Nil => spec_txt("()"),
        List::Cons(h, t) => {
            if spec_list_is_empty(t) {
                h
            } else {
                spec_parens(spec_intersperse(comps, spec_txt(", ")))
            }
        },
    }
}

/// A tuple of arguments.
pub fn arg_tuple(comps: &Rc<List<DocT>>) -> (out: Doc)
    ensures
        out == spec_arg_tuple(*comps),
{
    proof {
        reveal(spec_arg_tuple);
    }
    match &**comps {
        List::Nil => txt("()"),
        List::Cons(h, t) => if list_is_empty(t) { h.clone() } else { parens(intersperse(comps, &txt(", "))) },
    }
}

/// Reports an error, and gives what stands for an expression then.
///
/// As the state that [`Emitter::admit_at`] leaves, with its result.
#[verifier::opaque]
pub open spec fn spec_admit_at(st: Emitter, msg: Text, loc: Loc) -> (Emitter, Doc)
{
    let st = spec_report(st, msg, loc);
    (st, spec_txt("(admit())"))
}

/// The value of an integer literal.
///
/// As the state that [`Emitter::emit_int_literal`] leaves, with its result.
#[verifier::opaque]
pub open spec fn spec_emit_int_literal(
    st: Emitter,
    env: Env,
    v: Rc<Expr>,
    val: Rc<IntValue>,
    ty: Rc<Type>,
) -> (Emitter, Doc)
{
    let value = Rc::new(Rope::Int(val));
    match spec_vtype_whnf(env, ty).val {
        TypeT::Int { signed, width } => (st, spec_emit_machine_int_literal(val, signed, width)),
        TypeT::SizeT => (st, spec_text_doc(spec_cat(value, spec_lit("sz")))),
        TypeT::SpecInt | TypeT::SpecNat => (st, spec_text_doc(value)),
        TypeT::Pointer(_, kind) if spec_int_is_zero(val) => (st, spec_null_of(kind)),
        TypeT::FnPtr { .. } if spec_int_is_zero(val) => (st, spec_null_fnptr()),
        _ => {
            let st = spec_report(st, spec_cat(spec_lit("unsupported integer literal type for "), value), v.loc);
            (st, spec_text_doc(spec_cat3(spec_lit("(admit()) (* "), value, spec_lit(" *)"))))
        },
    }
}

/// The value of a floating-point literal.
///
/// As the state that [`Emitter::emit_float_literal`] leaves, with its result.
#[verifier::opaque]
pub open spec fn spec_emit_float_literal(
    st: Emitter,
    env: Env,
    v: Rc<Expr>,
    val: Text,
    ty: Rc<Type>,
) -> (Emitter, Doc)
{
    let quoted = spec_text_doc(Rc::new(Rope::Quoted(val)));
    match spec_vtype_whnf(env, ty).val {
        TypeT::Float { width: 32 } => (st, spec_unaryfn(spec_txt("Pulse.Lib.C.float32_of_string"), quoted)),
        TypeT::Float { width: 64 } => (st, spec_unaryfn(spec_txt("Pulse.Lib.C.float64_of_string"), quoted)),
        _ => spec_admit_at(st, spec_cat(spec_lit("unsupported floating literal type for "), val), v.loc),
    }
}

/// Reports that there is no such conversion.
///
/// As the state that [`Emitter::unsupported_cast`] leaves, with its result.
#[verifier::opaque]
pub open spec fn spec_unsupported_cast(
    st: Emitter,
    from: Rc<Type>,
    to: Rc<Type>,
    loc: Loc,
) -> (Emitter, Doc)
{
    spec_admit_at(st, spec_cat4(spec_lit("unsupported cast from "), spec_show_type(from), spec_lit(" to "), spec_show_type(to)), loc)
}

/// The conversion of a value to a kind of pointer.
///
/// As the state that [`Emitter::cast_to_pointer`] leaves, with its result.
#[verifier::opaque]
pub open spec fn spec_cast_to_pointer(
    st: Emitter,
    env: Env,
    loc: Loc,
    val: Rc<Expr>,
    d: Doc,
    from: Rc<Type>,
    to: Rc<Type>,
    pointee: Rc<Type>,
    kind: PointerKind,
) -> (Emitter, Doc)
{
    if spec_is_zero_literal(val) {
        (st, spec_null_of(kind))
    } else {
        match (from.val, kind) {
            (TypeT::FixedArray(_, _), PointerKind::Array) => (st, d),
            (TypeT::FixedArray(_, _), PointerKind::ArrayPtr) => (st, d),
            (TypeT::FixedArray(_, _), PointerKind::Core) => spec_unsupported_cast(st, from, to, loc),
            (TypeT::FixedArray(_, _), _) => {
                if matches!(val.val, ExprT::ArrayInit { is_static: true, .. }) {
                    (st, spec_unaryfn(spec_txt("Pulse.Lib.C.Array.array_literal_to_ref"), d))
                } else {
                    (st, spec_unaryfn(spec_txt("Pulse.Lib.C.Array.array_to_ref"), d))
                }
            },
            (TypeT::Pointer(_, PointerKind::Core), PointerKind::Ref) | (TypeT::Pointer(_, PointerKind::Core), PointerKind::Unknown) => {
                let (st, v1) = spec_emit_type(st, env, pointee);
                (st, spec_parens(spec_naryfn(spec_l3(spec_txt("Pulse.Lib.C.CoreRef.core_to_ref"), v1, d))))
            },
            (TypeT::Pointer(_, PointerKind::Ref), PointerKind::Core) => (st, spec_unaryfn(spec_txt("Pulse.Lib.C.CoreRef.ref_to_core"), d)),
            (TypeT::Pointer(_, PointerKind::Unknown), PointerKind::Core) => (st, spec_unaryfn(spec_txt("Pulse.Lib.C.CoreRef.ref_to_core"), d)),
            (TypeT::Pointer(_, PointerKind::Array), PointerKind::Core) | (TypeT::Pointer(_, PointerKind::ArrayPtr), PointerKind::Core) => (st, spec_unaryfn(spec_txt("Pulse.Lib.C.CoreRef.ref_to_core"), spec_unaryfn(spec_txt("Pulse.Lib.C.Array.array_to_ref"), d))),
            (TypeT::Pointer(_, _), PointerKind::ArrayPtr) => (st, spec_parens(spec_naryfn(spec_l3(spec_txt("array_to_arrayptr"), d, spec_txt("0sz"))))),
            (TypeT::Pointer(_, _), _) => (st, d),
            (TypeT::Error, _) => (st, d),
            (TypeT::Unknown, _) => (st, d),
            _ => spec_unsupported_cast(st, from, to, loc),
        }
    }
}

/// The conversion of a value, given as `d`, from one shape of type to another.
///
/// As the state that [`Emitter::cast_doc`] leaves, with its result.
#[verifier::opaque]
pub open spec fn spec_cast_doc(
    st: Emitter,
    env: Env,
    loc: Loc,
    val: Rc<Expr>,
    d: Doc,
    from: Rc<Type>,
    to: Rc<Type>,
) -> (Emitter, Doc)
{
    if spec_vtype_eq(env, from, to) {
        (st, d)
    } else {
        match to.val {
            TypeT::Pointer(pointee, kind) => spec_cast_to_pointer(st, env, loc, val, d, from, to, pointee, kind),
            TypeT::FnPtr { .. } if spec_is_zero_literal(val) => (st, spec_null_fnptr()),
            _ => {
                match spec_cast_plain(from, to, d) {
                    Some(r) => (st, r),
                    None => {
                        if spec_is_broken(from) || spec_is_broken(to) {
                            (st, d)
                        } else {
                            spec_unsupported_cast(st, from, to, loc)
                        }
                    },
                }
            },
        }
    }
}

/// A cast.
///
/// As the state that [`Emitter::emit_cast`] leaves, with its result.
pub open spec fn spec_emit_cast(
    st: Emitter,
    env: Env,
    loc: Loc,
    val: Rc<Expr>,
    to_ty: Rc<Type>,
) -> (Emitter, Doc)
    decreases val, 12nat,
{
    let (st, d) = spec_emit_rvalue(st, env, val);
    match spec_infer_whnf(env, val) {
        None => (st, d),
        Some(from) => {
            let to = spec_vtype_whnf(env, to_ty);
            match (to.val, val.val) {
                (TypeT::SizeT, ExprT::IntLit(n, _)) => (st, spec_text_doc(spec_cat(Rc::new(Rope::Int(n)), spec_lit("sz")))),
                _ => spec_cast_doc(st, env, loc, val, d, from, to),
            }
        },
    }
}

/// A variable.
///
/// As the state that [`Emitter::emit_variable`] leaves, with its result.
#[verifier::opaque]
pub open spec fn spec_emit_variable(
    st: Emitter,
    env: Env,
    v: Rc<Expr>,
    x: Rc<Ident>,
) -> (Emitter, ExprKind)
{
    match spec_lookup_global_var(env, x) {
        Some(gv) => {
            if !gv.is_pure && !spec_global_var_is_array(gv) {
                let st = spec_report(st, spec_cat3(spec_lit("cannot read the mutable global "), x.val, spec_lit("; its address may be taken, but its value is not available")), x.loc);
                (st, ExprKind::RValue(spec_txt("(admit())")))
            } else {
                let (st, t) = spec_mangle_name(st, Rc::new(Name::Var(x.val)));
                (st, ExprKind::RValue(spec_annotated(v.loc, spec_qualified(st, spec_find_module(st.fn_module_map, x.val), t))))
            }
        },
        None => {
            let (st, v2) = spec_emit_var_name(st, x.val);
            let d = spec_annotated(v.loc, spec_annotated(x.loc, v2));
            match spec_lookup_var(env, x) {
                Some(l) => {
                    if l.kind == LocalDeclKind::RValue {
                        (st, ExprKind::RValue(d))
                    } else {
                        (st, ExprKind::LValue(d))
                    }
                },
                None => (st, ExprKind::LValue(d)),
            }
        },
    }
}

/// What a pointer points to.
///
/// As the state that [`Emitter::emit_deref`] leaves, with its result.
pub open spec fn spec_emit_deref(
    st: Emitter,
    env: Env,
    v: Rc<Expr>,
    inner: Rc<Expr>,
) -> (Emitter, ExprKind)
    decreases inner, 12nat,
{
    match spec_pointer_kind(env, inner) {
        Some(PointerKind::Array) => {
            let (st, d) = spec_emit_rvalue(st, env, inner);
            (st, ExprKind::RValue(spec_annotated(v.loc, spec_parens(spec_naryfn(spec_l3(spec_txt("array_read"), d, spec_txt("0sz")))))))
        },
        Some(PointerKind::ArrayPtr) => {
            let (st, d) = spec_emit_rvalue(st, env, inner);
            (st, ExprKind::RValue(spec_annotated(v.loc, spec_parens(spec_naryfn(spec_l3(spec_txt("arrayptr_read"), d, spec_txt("0sz")))))))
        },
        Some(PointerKind::Core) => {
            match spec_infer_expr(env, v) {
                Some(pointee_ty) => {
                    let (st, v3) = spec_emit_expr(st, env, inner);
                    let d = spec_to_rvalue(v3);
                    let (st, ty) = spec_emit_type(st, env, pointee_ty);
                    (st, ExprKind::LValue(spec_annotated(v.loc, spec_parens(spec_naryfn(spec_l3(spec_txt("Pulse.Lib.C.CoreRef.core_to_ref"), ty, d))))))
                },
                None => {
                    let (st, v5) = spec_admit_at(st, spec_cat(spec_lit("cannot infer pointee type of "), spec_show_expr(v)), v.loc);
                    (st, ExprKind::LValue(v5))
                },
            }
        },
        _ => {
            let (st, v6) = spec_emit_expr(st, env, inner);
            (st, ExprKind::LValue(spec_annotated(v.loc, spec_to_rvalue(v6))))
        },
    }
}

/// A field of a record.
///
/// As the state that [`Emitter::emit_member`] leaves, with its result.
pub open spec fn spec_emit_member(
    st: Emitter,
    env: Env,
    v: Rc<Expr>,
    x: Rc<Expr>,
    a: Rc<Ident>,
) -> (Emitter, ExprKind)
    decreases x, 12nat,
{
    match spec_infer_expr(env, x) {
        Some(ty) => {
            match spec_vtype_whnf(env, ty).val {
                TypeT::TypeRef(TypeRefKind::Struct(s)) => {
                    let (st, v1) = spec_emit_expr(st, env, x);
                    match v1 {
                        ExprKind::LValue(d) => {
                            let (st, v2) = spec_emit_name(st, Name::StructFieldProj(s.val, a.val));
                            let p = spec_annotated(v.loc, spec_unaryfn(v2, d));
                            if spec_struct_field_is_array(env, s, a) {
                                (st, ExprKind::ArrayLValue(p))
                            } else {
                                (st, ExprKind::LValue(p))
                            }
                        },
                        ExprKind::RValue(d) | ExprKind::ArrayLValue(d) => {
                            let (st, f) = spec_emit_name(st, Name::StructDirectFieldName(s.val, a.val));
                            (st, ExprKind::RValue(spec_annotated(v.loc, spec_d3(spec_parens(d), spec_txt("."), f))))
                        },
                    }
                },
                TypeT::TypeRef(TypeRefKind::Union(u)) => {
                    let (st, v4) = spec_emit_expr(st, env, x);
                    match v4 {
                        ExprKind::LValue(d) => {
                            let (st, v5) = spec_emit_name(st, Name::UnionFieldProj(u.val, a.val));
                            let p = spec_unaryfn(v5, d);
                            if spec_union_field_is_array(env, u, a) {
                                (st, ExprKind::ArrayLValue(spec_annotated(v.loc, p)))
                            } else {
                                (st, ExprKind::LValue(p))
                            }
                        },
                        ExprKind::RValue(d) | ExprKind::ArrayLValue(d) => {
                            let (st, c) = spec_emit_name(st, Name::UnionFieldConstructor(u.val, a.val));
                            (st, ExprKind::RValue(spec_annotated(v.loc, spec_parens(spec_group(spec_d4(c, spec_txt("?._0"), spec_line(), d))))))
                        },
                    }
                },
                _ => {
                    let (st, v7) = spec_admit_at(st, spec_cat(spec_lit("unsupported struct field access on "), spec_show_type(spec_vtype_whnf(env, ty))), v.loc);
                    (st, ExprKind::RValue(spec_annotated(v.loc, v7)))
                },
            }
        },
        None => {
            let (st, v8) = spec_admit_at(st, spec_cat(spec_cat4(spec_lit("cannot infer type of "), spec_show_expr(x), spec_lit(": "), spec_infer_error(env, x)), spec_cat(spec_lit("\n"), spec_show_env(env))), x.loc);
            (st, ExprKind::RValue(spec_annotated(v.loc, v8)))
        },
    }
}

/// The length of an array.
///
/// As the state that [`Emitter::emit_length`] leaves, with its result.
pub open spec fn spec_emit_length(st: Emitter, env: Env, x: Rc<Expr>) -> (Emitter, Doc)
    decreases x, 12nat,
{
    match spec_fixed_array_len(env, x) {
        Some(n) => (st, spec_text_doc(spec_num(n))),
        None => {
            if spec_is_flex_array(env, x) {
                let (st, v1) = spec_emit_rvalue(st, env, x);
                (st, spec_parens(spec_d3(spec_txt("array_spec_len"), spec_line(), v1)))
            } else {
                let (st, v2) = spec_emit_rvalue(st, env, x);
                (st, spec_unaryfn(spec_txt("reveal"), spec_unaryfn(spec_txt("length_of"), v2)))
            }
        },
    }
}

/// Whether a union's arm is active.
///
/// As the state that [`Emitter::emit_active`] leaves, with its result.
pub open spec fn spec_emit_active(
    st: Emitter,
    env: Env,
    v: Rc<Expr>,
    fld: Rc<Ident>,
    base: Rc<Expr>,
) -> (Emitter, Doc)
    decreases base, 12nat,
{
    match spec_union_of(env, base) {
        Some(u) => {
            let (st, d) = spec_emit_rvalue(st, env, base);
            let (st, c) = spec_emit_name(st, Name::UnionFieldConstructor(u.val, fld.val));
            (st, spec_annotated(v.loc, spec_parens(spec_group(spec_d4(c, spec_txt("?"), spec_line(), d)))))
        },
        None => spec_admit_at(st, spec_cat(spec_lit("expected a union: "), spec_show_expr(base)), v.loc),
    }
}

/// An element of an array. A fixed array that is a value is indexed as a description of its
/// contents; any other array is read.
///
/// As the state that [`Emitter::emit_index`] leaves, with its result.
pub open spec fn spec_emit_index(st: Emitter, env: Env, v: Rc<Expr>) -> (Emitter, ExprKind)
    decreases v, 5nat,
{
    match v.val {
        ExprT::Index(arr, idx) => {
            let (st, k) = spec_emit_expr(st, env, arr);
            let pure_value = spec_fixed_array_len(env, arr).is_some() && matches!(k, ExprKind::RValue(_));
            let arr_doc = spec_to_rvalue_decayed(k);
            let (st, idx_doc) = spec_emit_rvalue(st, env, idx);
            if pure_value {
                (st, ExprKind::RValue(spec_annotated(v.loc, spec_parens(spec_naryfn(spec_l3(spec_txt("array_spec_idx"), arr_doc, spec_parens(spec_d3(spec_txt("SizeT.v"), spec_line(), idx_doc))))))))
            } else {
                let read = if spec_is_pointer(env, arr, PointerKind::ArrayPtr) {
                    "arrayptr_read"
                } else {
                    "array_read"
                };
                (st, ExprKind::RValue(spec_annotated(v.loc, spec_parens(spec_naryfn(spec_l3(spec_txt(read), arr_doc, idx_doc))))))
            }
        },
        _ => (st, ExprKind::RValue(spec_nil_doc())),
    }
}

/// An expression, as a place or as a value.
///
/// As the state that [`Emitter::emit_expr`] leaves, with its result.
pub open spec fn spec_emit_expr(st: Emitter, env: Env, v: Rc<Expr>) -> (Emitter, ExprKind)
    decreases v, 8nat,
{
    match v.val {
        ExprT::Var(x) => spec_emit_variable(st, env, v, x),
        ExprT::Deref(inner) => spec_emit_deref(st, env, v, inner),
        ExprT::Member(x, a) => spec_emit_member(st, env, v, x, a),
        ExprT::VAttr(VAttr::Length, x) => {
            let (st, v1) = spec_emit_length(st, env, x);
            (st, ExprKind::RValue(spec_annotated(v.loc, v1)))
        },
        ExprT::VAttr(VAttr::Active(fld), base) => {
            let (st, v2) = spec_emit_active(st, env, v, fld, base);
            (st, ExprKind::RValue(v2))
        },
        ExprT::Index(_, _) => spec_emit_index(st, env, v),
        _ => {
            let (st, v3) = spec_emit_rvalue_inner(st, env, v);
            (st, ExprKind::RValue(v3))
        },
    }
}

/// The place that an expression is.
///
/// As the state that [`Emitter::emit_lvalue`] leaves, with its result.
pub open spec fn spec_emit_lvalue(st: Emitter, env: Env, v: Rc<Expr>) -> (Emitter, Doc)
    decreases v, 9nat,
{
    let (st, v1) = spec_emit_expr(st, env, v);
    match v1 {
        ExprKind::LValue(d) => (st, d),
        _ => spec_admit_at(st, spec_cat(spec_lit("cannot produce lvalue for "), spec_show_expr(v)), v.loc),
    }
}

/// The value of an expression.
///
/// As the state that [`Emitter::emit_rvalue`] leaves, with its result.
pub open spec fn spec_emit_rvalue(st: Emitter, env: Env, v: Rc<Expr>) -> (Emitter, Doc)
    decreases v, 9nat,
{
    let (st, v1) = spec_emit_expr(st, env, v);
    (st, spec_to_rvalue_decayed(v1))
}

/// The values of expressions.
///
/// As the state that [`Emitter::emit_rvalues`] leaves, with its result.
pub open spec fn spec_emit_rvalues(
    st: Emitter,
    env: Env,
    l: Rc<List<Expr>>,
) -> (Emitter, Rc<List<DocT>>)
    decreases l, 0nat,
{
    match *l {
        List::Nil => (st, spec_nil()),
        List::Cons(h, t) => {
            let (st, d) = spec_emit_rvalue(st, env, h);
            let (st, v2) = spec_emit_rvalues(st, env, t);
            (st, spec_cons(d, v2))
        },
    }
}

/// A pattern of a `match`.
///
/// As the state that [`Emitter::emit_pattern`] leaves, with its result.
#[verifier::opaque]
pub open spec fn spec_emit_pattern(st: Emitter, env: Env, p: Rc<Expr>) -> (Emitter, Doc)
{
    match p.val {
        ExprT::IntLit(val, ty) => {
            match spec_vtype_whnf(env, ty).val {
                TypeT::Int { signed, width } => (st, spec_emit_machine_int_literal(val, signed, width)),
                TypeT::SizeT => (st, spec_text_doc(spec_cat(Rc::new(Rope::Int(val)), spec_lit("sz")))),
                _ => spec_emit_rvalue(st, env, p),
            }
        },
        _ => spec_emit_rvalue(st, env, p),
    }
}

/// Two operands with an operator between them.
///
/// As the state that [`Emitter::emit_operands`] leaves, with its result.
pub open spec fn spec_emit_operands(st: Emitter, env: Env, v: Rc<Expr>, op: Doc) -> (Emitter, Doc)
    decreases v, 2nat,
{
    match v.val {
        ExprT::BinOp(_, lhs, rhs) => {
            let (st, a) = spec_emit_rvalue(st, env, lhs);
            let (st, b) = spec_emit_rvalue(st, env, rhs);
            (st, spec_binop(a, op, b))
        },
        _ => (st, spec_nil_doc()),
    }
}

/// A function of two operands, in their order or swapped.
///
/// As the state that [`Emitter::emit_operand_call`] leaves, with its result.
pub open spec fn spec_emit_operand_call(
    st: Emitter,
    env: Env,
    v: Rc<Expr>,
    f: &'static str,
    swapped: bool,
) -> (Emitter, Doc)
    decreases v, 2nat,
{
    match v.val {
        ExprT::BinOp(_, lhs, rhs) => {
            if swapped {
                let (st, b) = spec_emit_rvalue(st, env, rhs);
                let (st, a) = spec_emit_rvalue(st, env, lhs);
                (st, spec_parens(spec_naryfn(spec_l3(spec_txt(f), b, a))))
            } else {
                let (st, a) = spec_emit_rvalue(st, env, lhs);
                let (st, b) = spec_emit_rvalue(st, env, rhs);
                (st, spec_parens(spec_naryfn(spec_l3(spec_txt(f), a, b))))
            }
        },
        _ => (st, spec_nil_doc()),
    }
}

/// An operation by the operator of its first operand's type.
///
/// As the state that [`Emitter::emit_typed_operation`] leaves, with its result.
pub open spec fn spec_emit_typed_operation(
    st: Emitter,
    env: Env,
    v: Rc<Expr>,
    op: BinOp,
    lhs: Rc<Expr>,
) -> (Emitter, Doc)
    decreases v, 3nat,
{
    match spec_operator_of(env, op, lhs) {
        Some(d) => spec_emit_operands(st, env, v, d),
        None => spec_admit_at(st, spec_cat(spec_lit("unsupported binary operator on "), spec_show_expr(lhs)), v.loc),
    }
}

/// An equality. A comparison with zero is a null test on pointers.
///
/// As the state that [`Emitter::emit_equality`] leaves, with its result.
pub open spec fn spec_emit_equality(st: Emitter, env: Env, v: Rc<Expr>) -> (Emitter, Doc)
    decreases v, 4nat,
{
    match v.val {
        ExprT::BinOp(_, lhs, rhs) => {
            match spec_null_test_of(env, lhs, rhs) {
                Some(test) => {
                    let (st, v1) = spec_emit_rvalue(st, env, lhs);
                    (st, spec_unaryfn(spec_txt(test), v1))
                },
                None => {
                    match spec_operator_of(env, BinOp::Eq, lhs) {
                        Some(op) => spec_emit_operands(st, env, v, op),
                        None => spec_emit_operands(st, env, v, spec_txt("=")),
                    }
                },
            }
        },
        _ => (st, spec_nil_doc()),
    }
}

/// An operation.
///
/// As the state that [`Emitter::emit_operation`] leaves, with its result.
pub open spec fn spec_emit_operation(st: Emitter, env: Env, v: Rc<Expr>) -> (Emitter, Doc)
    decreases v, 5nat,
{
    match v.val {
        ExprT::BinOp(op, lhs, rhs) => {
            match op {
                BinOp::LogAnd => {
                    spec_emit_operands(st, env, v, if spec_is_plain_slprop(env, lhs) {
                            spec_txt("**")
                        } else {
                            spec_txt("&&")
                    })
                },
                BinOp::LogOr => spec_emit_operands(st, env, v, spec_txt("||")),
                BinOp::Eq => spec_emit_equality(st, env, v),
                BinOp::Add => {
                    if spec_is_array_pointer(env, lhs) {
                        spec_emit_operand_call(st, env, v, spec_shift_fn(env, lhs), false)
                    } else {
                        if spec_is_array_pointer(env, rhs) {
                            spec_emit_operand_call(st, env, v, spec_shift_fn(env, rhs), true)
                        } else {
                            spec_emit_typed_operation(st, env, v, op, lhs)
                        }
                    }
                },
                BinOp::Sub => {
                    if spec_is_array_pointer(env, lhs) && spec_is_array_pointer(env, rhs) {
                        spec_emit_operand_call(st, env, v, "arrayptr_diff", false)
                    } else {
                        spec_emit_typed_operation(st, env, v, op, lhs)
                    }
                },
                _ => spec_emit_typed_operation(st, env, v, op, lhs),
            }
        },
        _ => (st, spec_nil_doc()),
    }
}

/// An address.
///
/// As the state that [`Emitter::emit_address`] leaves, with its result.
pub open spec fn spec_emit_address(st: Emitter, env: Env, a: Rc<Expr>) -> (Emitter, Doc)
    decreases a, 12nat,
{
    match a.val {
        ExprT::Var(x) => {
            match spec_addressable_global(env, x) {
                Some(_) => spec_emit_name(st, Name::GlobalAddr(x.val)),
                None => spec_emit_lvalue(st, env, a),
            }
        },
        _ => spec_emit_lvalue(st, env, a),
    }
}

/// A call.
///
/// As the state that [`Emitter::emit_call`] leaves, with its result.
pub open spec fn spec_emit_call(
    st: Emitter,
    env: Env,
    f: Rc<Ident>,
    args: Rc<List<Expr>>,
) -> (Emitter, Doc)
    decreases args, 12nat,
{
    let (st, arg_docs) = if spec_list_is_empty(args) {
        (st, spec_txt("()"))
    } else {
        let (st, v2) = spec_emit_rvalues(st, env, args);
        (st, spec_intersperse(v2, spec_line()))
    };
    let (st, v3) = spec_emit_name(st, Name::Fn(f.val));
    (st, spec_parens(spec_d3(v3, spec_line(), arg_docs)))
}

/// The wrapper of a function for use through pointers.
///
/// As the state that [`Emitter::fnptr_wrap_name`] leaves, with its result.
#[verifier::opaque]
pub open spec fn spec_fnptr_wrap_name(st: Emitter, g: Text) -> (Emitter, Doc)
{
    spec_emit_name(st, Name::Fn(spec_cat(g, spec_lit("__fp"))))
}

/// The value of a pointer to a function: the specification is recovered from the type of the
/// function's wrapper.
///
/// As the state that [`Emitter::emit_of_fn`] leaves, with its result.
#[verifier::opaque]
pub open spec fn spec_emit_of_fn(st: Emitter, env: Env, g: Rc<Ident>) -> (Emitter, Doc)
{
    let is_total = match spec_lookup_fn(env, g) {
        Some(d) => d.is_total,
        None => false,
    };
    let (st, v1) = spec_fnptr_wrap_name(st, g.val);
    let pre = spec_parens(spec_d2(spec_txt(if is_total {
                    "Pulse.Lib.C.FuncPtr.pre_of_tot "
                } else {
                    "Pulse.Lib.C.FuncPtr.pre_of "
            }), v1));
    let (st, v2) = spec_fnptr_wrap_name(st, g.val);
    let post = spec_parens(spec_d2(spec_txt(if is_total {
                    "Pulse.Lib.C.FuncPtr.post_of_tot "
                } else {
                    "Pulse.Lib.C.FuncPtr.post_of "
            }), v2));
    let (st, wrap) = spec_fnptr_wrap_name(st, g.val);
    (
        st,
        spec_parens(spec_naryfn(spec_l4(spec_txt(if is_total {
                            "Pulse.Lib.C.FuncPtr.of_fn"
                        } else {
                            "Pulse.Lib.C.FuncPtr.of_fn_div"
                    }), pre, post, wrap))),
    )
}

/// A call through a pointer. The specification and the witness are left for F* to infer.
///
/// As the state that [`Emitter::emit_fnptr_call`] leaves, with its result.
pub open spec fn spec_emit_fnptr_call(st: Emitter, env: Env, v: Rc<Expr>) -> (Emitter, Doc)
    decreases v, 5nat,
{
    match v.val {
        ExprT::FnPtrCall(f, args) => {
            let (st, v1) = spec_emit_rvalues(st, env, args);
            let tuple = spec_arg_tuple(v1);
            let (st, callee) = spec_emit_rvalue(st, env, f);
            let prim = if st.current_fn_total {
                "Pulse.Lib.C.FuncPtr.call"
            } else {
                "Pulse.Lib.C.FuncPtr.call_div"
            };
            (st, spec_parens(spec_naryfn(spec_l6(spec_txt(prim), spec_txt("_"), spec_txt("_"), callee, tuple, spec_txt("_")))))
        },
        _ => (st, spec_nil_doc()),
    }
}

/// That a place is allocated.
///
/// As the state that [`Emitter::emit_live`] leaves, with its result.
pub open spec fn spec_emit_live(st: Emitter, env: Env, a: Rc<Expr>) -> (Emitter, Doc)
    decreases a, 12nat,
{
    match a.val {
        ExprT::Deref(inner) => {
            if spec_is_pointer(env, inner, PointerKind::ArrayPtr) {
                (st, spec_txt("emp"))
            } else {
                if spec_is_pointer(env, inner, PointerKind::Array) {
                    let (st, v1) = spec_emit_rvalue(st, env, inner);
                    (st, spec_unaryfn(spec_txt("Pulse.Lib.C.Array.live_array"), v1))
                } else {
                    let (st, v2) = spec_emit_lvalue(st, env, a);
                    (st, spec_unaryfn(spec_txt("live"), v2))
                }
            }
        },
        _ => {
            let (st, v3) = spec_emit_lvalue(st, env, a);
            (st, spec_unaryfn(spec_txt("live"), v3))
        },
    }
}

/// A quantified proposition.
///
/// As the state that [`Emitter::emit_quantifier`] leaves, with its result.
pub open spec fn spec_emit_quantifier(
    st: Emitter,
    env: Env,
    is_forall: bool,
    x: Rc<Ident>,
    ty: Rc<Type>,
    body: Rc<Expr>,
) -> (Emitter, Doc)
    decreases body, 12nat,
{
    let env2 = spec_push_var_decl(env, x, ty, LocalDeclKind::RValue);
    let slprop = spec_is_slprop_expr(env2, body);
    let keyword = if is_forall {
        if slprop {
            "forall*"
        } else {
            "forall"
        }
    } else {
        if slprop {
            "exists*"
        } else {
            "exists"
        }
    };
    let (st, name) = spec_emit_var_name(st, x.val);
    let (st, ty_doc) = spec_emit_type(st, env2, ty);
    let (st, body_doc) = spec_emit_rvalue(st, env2, body);
    (st, spec_parens(spec_d6(spec_txt(keyword), spec_line(), spec_parens(spec_d4(name, spec_txt(":"), spec_space(), ty_doc)), spec_txt("."), spec_line(), body_doc)))
}

/// The value given to a field, if there is one.
///
/// As the state that [`Emitter::emit_init_of`] leaves, with its result.
pub open spec fn spec_emit_init_of(
    st: Emitter,
    env: Env,
    inits: Rc<List<FieldInit>>,
    fname: Rc<Ident>,
) -> (Emitter, Option<Doc>)
    decreases inits, 3nat,
{
    match *inits {
        List::Nil => (st, None),
        List::Cons(i, t) => {
            if spec_same_name(i.name, fname) {
                let (st, v1) = spec_emit_field_init(st, env, i);
                (st, Some(v1))
            } else {
                spec_emit_init_of(st, env, t, fname)
            }
        },
    }
}

/// The value given to a field.
///
/// As the state that [`Emitter::emit_field_init`] leaves, with its result.
pub open spec fn spec_emit_field_init(st: Emitter, env: Env, i: Rc<FieldInit>) -> (Emitter, Doc)
    decreases i, 0nat,
{
    spec_emit_rvalue(st, env, i.value)
}

/// The entries of a record literal: every field of the struct in order, with its initializer
/// or else its zero value.
///
/// As the state that [`Emitter::emit_struct_entries`] leaves, with its result.
pub open spec fn spec_emit_struct_entries(
    st: Emitter,
    env: Env,
    s: Rc<Ident>,
    inits: Rc<List<FieldInit>>,
    fields: Rc<List<Field>>,
) -> (Emitter, Rc<List<DocT>>)
    decreases inits, 4nat, fields,
{
    match *fields {
        List::Nil => (st, spec_nil()),
        List::Cons(f, t) => {
            let fname = spec_field_name(f);
            let (st, v2) = spec_emit_init_of(st, env, inits, fname);
            let (st, value) = match v2 {
                Some(d) => (st, d),
                None => spec_emit_field_default(st, env, f),
            };
            let (st, name) = spec_emit_name(st, Name::StructDirectFieldName(s.val, fname.val));
            let (st, v4) = spec_emit_struct_entries(st, env, s, inits, t);
            (st, spec_cons(spec_record_entry(name, value), v4))
        },
    }
}

/// The entries of a record literal of an unknown struct: those that are given.
///
/// As the state that [`Emitter::emit_given_entries`] leaves, with its result.
pub open spec fn spec_emit_given_entries(
    st: Emitter,
    env: Env,
    s: Rc<Ident>,
    inits: Rc<List<FieldInit>>,
) -> (Emitter, Rc<List<DocT>>)
    decreases inits, 3nat,
{
    match *inits {
        List::Nil => (st, spec_nil()),
        List::Cons(i, t) => {
            let (st, name) = spec_emit_name(st, Name::StructDirectFieldName(s.val, i.name.val));
            let (st, value) = spec_emit_field_init(st, env, i);
            let (st, v3) = spec_emit_given_entries(st, env, s, t);
            (st, spec_cons(spec_record_entry(name, value), v3))
        },
    }
}

/// A record literal.
///
/// As the state that [`Emitter::emit_struct_init`] leaves, with its result.
pub open spec fn spec_emit_struct_init(
    st: Emitter,
    env: Env,
    s: Rc<Ident>,
    inits: Rc<List<FieldInit>>,
) -> (Emitter, Doc)
    decreases inits, 5nat,
{
    match spec_lookup_struct(env, s) {
        Some(d) => {
            let (st, v1) = spec_emit_struct_entries(st, env, s, inits, d.fields);
            (st, spec_record_literal(v1))
        },
        None => {
            let (st, v2) = spec_emit_given_entries(st, env, s, inits);
            (st, spec_record_literal(v2))
        },
    }
}

/// The elements of an array literal, as an F* list.
///
/// As the state that [`Emitter::emit_cons_cells`] leaves, with its result.
pub open spec fn spec_emit_cons_cells(
    st: Emitter,
    env: Env,
    elem_ty: Doc,
    elems: Rc<List<Expr>>,
) -> (Emitter, Doc)
    decreases elems, 0nat,
{
    match *elems {
        List::Nil => (st, spec_unaryfn(spec_txt("Nil"), elem_ty)),
        List::Cons(h, t) => {
            let (st, rest) = spec_emit_cons_cells(st, env, elem_ty, t);
            let (st, d) = spec_emit_rvalue(st, env, h);
            (st, spec_d4(spec_nest(spec_group(spec_d3(spec_group(spec_d3(spec_txt("(Cons"), spec_line(), elem_ty)), spec_line(), d))), spec_line(), rest, spec_txt(")")))
        },
    }
}

/// An array literal.
///
/// As the state that [`Emitter::emit_array_init`] leaves, with its result.
pub open spec fn spec_emit_array_init(
    st: Emitter,
    env: Env,
    elem_ty: Rc<Type>,
    elems: Rc<List<Expr>>,
) -> (Emitter, Doc)
    decreases elems, 12nat,
{
    let (st, v1) = spec_emit_type(st, env, elem_ty);
    let ty_arg = spec_d2(spec_txt("#"), v1);
    let (st, cells) = spec_emit_cons_cells(st, env, ty_arg, elems);
    (st, spec_naryfn(spec_l4(spec_txt("array_spec_of_list_with_len"), ty_arg, cells, spec_text_doc(spec_num(spec_list_len(elems))))))
}

/// An allocation of a struct with a flexible array member.
///
/// As the state that [`Emitter::emit_flex_alloc`] leaves, with its result.
pub open spec fn spec_emit_flex_alloc(
    st: Emitter,
    env: Env,
    kind: &'static str,
    ty: Rc<Type>,
    count: Rc<Expr>,
) -> (Emitter, Doc)
    decreases count, 12nat,
{
    match spec_vtype_whnf(env, ty).val {
        TypeT::TypeRef(TypeRefKind::Struct(s)) => {
            let (st, f) = spec_emit_name(st, Name::StructAuxFn(s.val, kind));
            let (st, v2) = spec_emit_rvalue(st, env, count);
            (st, spec_parens(spec_d3(f, spec_line(), v2)))
        },
        _ => {
            let st = spec_report(st, spec_lit("flexible-array-member allocation of a non-struct type"), ty.loc);
            (st, spec_txt("()"))
        },
    }
}

/// An allocation of one object.
///
/// As the state that [`Emitter::emit_alloc`] leaves, with its result.
#[verifier::opaque]
pub open spec fn spec_emit_alloc(
    st: Emitter,
    env: Env,
    f: &'static str,
    ty: Rc<Type>,
) -> (Emitter, Doc)
{
    let (st, v1) = spec_emit_type(st, env, ty);
    (st, spec_parens(spec_d6(spec_txt(f), spec_line(), spec_txt("#"), v1, spec_line(), spec_txt("()"))))
}

/// An allocation of an array.
///
/// As the state that [`Emitter::emit_array_alloc`] leaves, with its result.
pub open spec fn spec_emit_array_alloc(
    st: Emitter,
    env: Env,
    f: &'static str,
    ty: Rc<Type>,
    count: Rc<Expr>,
) -> (Emitter, Doc)
    decreases count, 12nat,
{
    let (st, t) = spec_emit_type(st, env, ty);
    let (st, n) = spec_emit_rvalue(st, env, count);
    (st, spec_parens(spec_d6(spec_txt(f), spec_line(), spec_txt("#"), t, spec_line(), n)))
}

/// An allocation, or an operation on allocated memory.
///
/// As the state that [`Emitter::emit_memory`] leaves, with its result.
pub open spec fn spec_emit_memory(st: Emitter, env: Env, v: Rc<Expr>) -> (Emitter, Doc)
    decreases v, 5nat,
{
    match v.val {
        ExprT::Malloc(ty) => spec_emit_alloc(st, env, "Pulse.Lib.C.Ref.alloc_ref", ty),
        ExprT::Calloc(ty) => spec_emit_alloc(st, env, "Pulse.Lib.C.Ref.calloc_ref", ty),
        ExprT::MallocArray(ty, count) => spec_emit_array_alloc(st, env, "Pulse.Lib.C.Array.alloc_array", ty, count),
        ExprT::CallocArray(ty, count) => spec_emit_array_alloc(st, env, "Pulse.Lib.C.Array.calloc_array", ty, count),
        ExprT::MallocFlex(ty, count) => spec_emit_flex_alloc(st, env, "malloc_flex", ty, count),
        ExprT::CallocFlex(ty, count) => spec_emit_flex_alloc(st, env, "calloc_flex", ty, count),
        ExprT::Memset(_, ptr, value, count) => {
            let (st, p) = spec_emit_rvalue(st, env, ptr);
            let (st, x) = spec_emit_rvalue(st, env, value);
            let (st, n) = spec_emit_rvalue(st, env, count);
            (st, spec_parens(spec_nest(spec_group(spec_d7(spec_txt("Pulse.Lib.C.Array.memset"), spec_line(), p, spec_line(), x, spec_line(), n)))))
        },
        ExprT::MemsetZero(_, ptr) => {
            let (st, p) = spec_emit_rvalue(st, env, ptr);
            (st, spec_parens(spec_nest(spec_group(spec_d5(p, spec_line(), spec_txt(":="), spec_line(), spec_txt("zero_default"))))))
        },
        ExprT::Free(val) => {
            let f = if spec_is_pointer(env, val, PointerKind::Array) {
                "Pulse.Lib.C.Array.free_array"
            } else {
                "Pulse.Lib.C.Ref.free_ref"
            };
            let (st, v5) = spec_emit_rvalue(st, env, val);
            (st, spec_parens(spec_d3(spec_txt(f), spec_line(), v5)))
        },
        ExprT::ContainerOf(ptr, struct_ty, field) => {
            match spec_vtype_whnf(env, struct_ty).val {
                TypeT::TypeRef(TypeRefKind::Struct(s)) => {
                    let (st, container) = spec_emit_name(st, Name::StructContainerFn(s.val, field.val));
                    let (st, v7) = spec_emit_rvalue(st, env, ptr);
                    (st, spec_parens(spec_unaryfn(container, v7)))
                },
                _ => spec_admit_at(st, spec_cat(spec_lit("_container_of expects a struct type, got "), spec_show_type(struct_ty)), struct_ty.loc),
            }
        },
        _ => (st, spec_nil_doc()),
    }
}

/// An increment or a decrement.
///
/// As the state that [`Emitter::emit_incr`] leaves, with its result.
pub open spec fn spec_emit_incr(
    st: Emitter,
    env: Env,
    val: Rc<Expr>,
    on_pointer: &'static str,
    on_number: &'static str,
) -> (Emitter, Doc)
    decreases val, 12nat,
{
    if spec_is_array_pointer(env, val) {
        let (st, v1) = spec_emit_lvalue(st, env, val);
        (st, spec_parens(spec_d3(spec_text_doc(spec_cat(spec_lit("Pulse.Lib.C.Array.arrayptr_"), spec_lit(on_pointer))), spec_line(), v1)))
    } else {
        let f = spec_text_doc(spec_cat4(spec_lit("Pulse.Lib.C.UnaryOps."), spec_lit(on_number), spec_lit("_"), spec_lit(spec_incr_suffix(env, val))));
        let (st, v2) = spec_emit_lvalue(st, env, val);
        (st, spec_parens(spec_d3(f, spec_line(), v2)))
    }
}

/// An assignment that is used as a value.
///
/// As the state that [`Emitter::emit_assign_expr`] leaves, with its result.
pub open spec fn spec_emit_assign_expr(st: Emitter, env: Env, v: Rc<Expr>) -> (Emitter, Doc)
    decreases v, 5nat,
{
    match v.val {
        ExprT::AssignExpr(lhs, rhs) => {
            let (st, target) = spec_emit_assign_target(st, env, lhs);
            let (st, r) = spec_emit_rvalue(st, env, rhs);
            (st, spec_naryfn(spec_list_push(target, r)))
        },
        _ => (st, spec_nil_doc()),
    }
}

/// The function that assigns to an expression, and what it takes in front of the new value.
///
/// As the state that [`Emitter::emit_assign_target`] leaves, with its result.
pub open spec fn spec_emit_assign_target(
    st: Emitter,
    env: Env,
    lhs: Rc<Expr>,
) -> (Emitter, Rc<List<DocT>>)
    decreases lhs, 12nat,
{
    match lhs.val {
        ExprT::Index(arr, idx) => {
            let f = if spec_is_pointer(env, arr, PointerKind::ArrayPtr) {
                "arrayptr_assign_ret"
            } else {
                "array_assign_ret"
            };
            let (st, v1) = spec_emit_expr(st, env, arr);
            let a = spec_to_rvalue_decayed(v1);
            let (st, i) = spec_emit_rvalue(st, env, idx);
            (st, spec_l3(spec_txt(f), a, i))
        },
        ExprT::Deref(inner) => {
            match spec_pointer_kind(env, inner) {
                Some(PointerKind::Array) => {
                    let (st, v3) = spec_emit_rvalue(st, env, inner);
                    (st, spec_l3(spec_txt("array_assign_ret"), v3, spec_txt("0sz")))
                },
                Some(PointerKind::ArrayPtr) => {
                    let (st, v4) = spec_emit_rvalue(st, env, inner);
                    (st, spec_l3(spec_txt("arrayptr_assign_ret"), v4, spec_txt("0sz")))
                },
                _ => {
                    let (st, v5) = spec_emit_lvalue(st, env, lhs);
                    (st, spec_l2(spec_txt("assign_ret"), v5))
                },
            }
        },
        _ => {
            let (st, v6) = spec_emit_lvalue(st, env, lhs);
            (st, spec_l2(spec_txt("assign_ret"), v6))
        },
    }
}

/// A conditional expression.
///
/// As the state that [`Emitter::emit_cond`] leaves, with its result.
pub open spec fn spec_emit_cond(st: Emitter, env: Env, v: Rc<Expr>) -> (Emitter, Doc)
    decreases v, 5nat,
{
    match v.val {
        ExprT::Cond(c, a, b) => {
            let (st, cond) = spec_emit_rvalue(st, env, c);
            let (st, x) = spec_emit_rvalue(st, env, a);
            let (st, y) = spec_emit_rvalue(st, env, b);
            (st, spec_if_then_else(cond, x, y))
        },
        _ => (st, spec_nil_doc()),
    }
}

/// The alignment of a type. An array is aligned as its handle.
///
/// As the state that [`Emitter::emit_alignof`] leaves, with its result.
#[verifier::opaque]
pub open spec fn spec_emit_alignof(st: Emitter, env: Env, ty: Rc<Type>) -> (Emitter, Doc)
{
    let (st, d) = match ty.val {
        TypeT::FixedArray(elem, _) => {
            let (st, v2) = spec_emit_type(st, env, elem);
            (st, spec_unaryfn(spec_txt("array"), v2))
        },
        _ => spec_emit_type(st, env, ty),
    };
    (st, spec_unaryfn(spec_txt("Pulse.Lib.C.Sizeof.c_alignof"), d))
}

/// A value that is no place.
///
/// As the state that [`Emitter::emit_rvalue_inner`] leaves, with its result.
pub open spec fn spec_emit_rvalue_inner(st: Emitter, env: Env, v: Rc<Expr>) -> (Emitter, Doc)
    decreases v, 7nat,
{
    let (st, d) = match v.val {
        ExprT::BoolLit(b) => {
            (
                st,
                spec_txt(if b {
                        "true"
                    } else {
                        "false"
                }),
            )
        },
        ExprT::IntLit(val, ty) => spec_emit_int_literal(st, env, v, val, ty),
        ExprT::FloatLit(val, ty) => spec_emit_float_literal(st, env, v, val, ty),
        ExprT::Ref(a) => spec_emit_address(st, env, a),
        ExprT::Cast(val, to_ty) => spec_emit_cast(st, env, v.loc, val, to_ty),
        ExprT::Error(_) => (st, spec_txt("(admit())")),
        ExprT::InlinePulse(code, _) => {
            let (st, v2) = spec_emit_tokens(st, env, code.tokens);
            (st, spec_parens(spec_concat(v2)))
        },
        ExprT::BinOp(_, _, _) => spec_emit_operation(st, env, v),
        ExprT::UnOp(op, arg) => {
            match spec_unary_operator_of(env, op, arg) {
                Some(f) => {
                    let (st, v3) = spec_emit_rvalue(st, env, arg);
                    (st, spec_unaryfn(f, v3))
                },
                None => spec_admit_at(st, spec_cat(spec_lit("unsupported unary operator on "), spec_show_expr(arg)), v.loc),
            }
        },
        ExprT::FnCall(f, args) => spec_emit_call(st, env, f, args),
        ExprT::FnRef(g) => spec_emit_of_fn(st, env, g),
        ExprT::FnPtrCall(_, _) => spec_emit_fnptr_call(st, env, v),
        ExprT::Live(a) => spec_emit_live(st, env, a),
        ExprT::Old(a) => {
            let (st, v4) = spec_emit_rvalue(st, env, a);
            (st, spec_unaryfn(spec_txt("old"), v4))
        },
        ExprT::Forall(x, ty, body) => spec_emit_quantifier(st, env, true, x, ty, body),
        ExprT::Exists(x, ty, body) => spec_emit_quantifier(st, env, false, x, ty, body),
        ExprT::StructInit(s, inits) => spec_emit_struct_init(st, env, s, inits),
        ExprT::UnionInit(u, fld, val) => {
            let (st, c) = spec_emit_name(st, Name::UnionFieldConstructor(u.val, fld.val));
            let (st, v6) = spec_emit_rvalue(st, env, val);
            (st, spec_unaryfn(c, v6))
        },
        ExprT::ArrayInit { elem_ty, elems, .. } => spec_emit_array_init(st, env, elem_ty, elems),
        ExprT::PreIncr(a) => spec_emit_incr(st, env, a, "pre_incr", "pluspluspre"),
        ExprT::PostIncr(a) => spec_emit_incr(st, env, a, "post_incr", "pluspluspost"),
        ExprT::PreDecr(a) => spec_emit_incr(st, env, a, "pre_decr", "minusminuspre"),
        ExprT::PostDecr(a) => spec_emit_incr(st, env, a, "post_decr", "minusminuspost"),
        ExprT::Cond(_, _, _) => spec_emit_cond(st, env, v),
        ExprT::AssignExpr(_, _) => spec_emit_assign_expr(st, env, v),
        ExprT::SizeOf(ty) => {
            let (st, v7) = spec_emit_type(st, env, ty);
            (st, spec_unaryfn(spec_txt("Pulse.Lib.C.Sizeof.c_sizeof"), v7))
        },
        ExprT::AlignOf(ty) => spec_emit_alignof(st, env, ty),
        _ => spec_emit_memory(st, env, v),
    };
    (st, spec_annotated(v.loc, d))
}

/// A field that inline code names.
///
/// As the state that [`Emitter::emit_field_token`] leaves, with its result.
#[verifier::opaque]
pub open spec fn spec_emit_field_token(
    st: Emitter,
    env: Env,
    ty: Rc<Type>,
    fld: Rc<Ident>,
) -> (Emitter, Doc)
{
    match spec_vtype_whnf(env, ty).val {
        TypeT::TypeRef(TypeRefKind::Struct(s)) => spec_emit_name(st, Name::StructDirectFieldName(s.val, fld.val)),
        TypeT::TypeRef(TypeRefKind::Union(u)) => spec_emit_name(st, Name::UnionFieldConstructor(u.val, fld.val)),
        _ => {
            let st = spec_report(st, spec_cat(spec_lit("$field: expected struct or union type, got "), spec_show_type(ty)), ty.loc);
            (st, spec_txt("(* $field: not a struct or union type *)"))
        },
    }
}

/// Reports that a helper is not there, and gives a comment that says so.
///
/// As the state that [`Emitter::missing_aux`] leaves, with its result.
#[verifier::opaque]
pub open spec fn spec_missing_aux(
    st: Emitter,
    kind: AuxFnKind,
    msg: &'static str,
    comment: &'static str,
    loc: Loc,
) -> (Emitter, Doc)
{
    let st = spec_report(st, spec_cat3(spec_lit("$"), spec_lit(spec_aux_keyword(kind)), spec_lit(msg)), loc);
    (st, spec_text_doc(spec_cat4(spec_lit("(* $"), spec_lit(spec_aux_keyword(kind)), spec_lit(comment), spec_lit(" *)"))))
}

/// A helper of a struct that inline code names.
///
/// As the state that [`Emitter::emit_struct_aux_token`] leaves, with its result.
#[verifier::opaque]
pub open spec fn spec_emit_struct_aux_token(
    st: Emitter,
    s: Rc<Ident>,
    arm: Option<Rc<Ident>>,
    kind: AuxFnKind,
    loc: Loc,
) -> (Emitter, Doc)
{
    match spec_struct_aux_name(kind) {
        None => spec_missing_aux(st, kind, ": not supported for struct types", ": not supported for structs", loc),
        Some(aux) => {
            let st = if arm.is_some() {
                let st = spec_report(st, spec_cat3(spec_lit("$"), spec_lit(spec_aux_keyword(kind)), spec_lit(": struct type does not take a field name")), loc);
                st
            } else {
                st
            };
            spec_emit_name(st, Name::StructAuxFn(s.val, aux))
        },
    }
}

/// A helper of a union that inline code names.
///
/// As the state that [`Emitter::emit_union_aux_token`] leaves, with its result.
#[verifier::opaque]
pub open spec fn spec_emit_union_aux_token(
    st: Emitter,
    u: Rc<Ident>,
    arm: Option<Rc<Ident>>,
    kind: AuxFnKind,
    loc: Loc,
) -> (Emitter, Doc)
{
    if kind == AuxFnKind::Activate {
        match arm {
            Some(fld) => spec_emit_name(st, Name::UnionActivateFn(u.val, fld.val)),
            None => {
                let st = spec_report(st, spec_lit("$activate: union type requires an arm name (use type::arm syntax)"), loc);
                (st, spec_txt("(* $activate: missing arm name *)"))
            },
        }
    } else {
        match (spec_union_aux_name(kind), arm) {
            (Some(aux), Some(fld)) => spec_emit_name(st, Name::UnionAuxFn(u.val, aux, fld.val)),
            (None, _) => spec_missing_aux(st, kind, ": not supported for union types", ": not supported for unions", loc),
            (_, None) => spec_missing_aux(st, kind, ": union type requires a field name (use type::field syntax)", ": missing field name", loc),
        }
    }
}

/// A helper that inline code names.
///
/// As the state that [`Emitter::emit_aux_token`] leaves, with its result.
#[verifier::opaque]
pub open spec fn spec_emit_aux_token(
    st: Emitter,
    env: Env,
    ty: Rc<Type>,
    arm: Option<Rc<Ident>>,
    kind: AuxFnKind,
) -> (Emitter, Doc)
{
    match spec_vtype_whnf(env, ty).val {
        TypeT::TypeRef(TypeRefKind::Struct(s)) => spec_emit_struct_aux_token(st, s, arm, kind, ty.loc),
        TypeT::TypeRef(TypeRefKind::Union(u)) => spec_emit_union_aux_token(st, u, arm, kind, ty.loc),
        _ => {
            let st = spec_report(st, spec_cat4(spec_lit("$"), spec_lit(spec_aux_keyword(kind)), spec_lit(": expected struct or union type, got "), spec_show_type(ty)), ty.loc);
            (st, spec_text_doc(spec_cat3(spec_lit("(* $"), spec_lit(spec_aux_keyword(kind)), spec_lit(": not a struct or union type *)"))))
        },
    }
}

/// A token of inline code.
///
/// As the state that [`Emitter::emit_token`] leaves, with its result.
pub open spec fn spec_emit_token(st: Emitter, env: Env, tok: Rc<InlinePulseToken>) -> (Emitter, Doc)
    decreases tok, 0nat,
{
    match *tok {
        InlinePulseToken::Verbatim { before, text } => (st, spec_d2(spec_text_doc(before), spec_annotated(text.loc, spec_text_doc(text.val)))),
        InlinePulseToken::RValueAntiquot { before, expr } => {
            let (st, v1) = spec_emit_rvalue(st, env, expr);
            (st, spec_d2(spec_text_doc(before), v1))
        },
        InlinePulseToken::LValueAntiquot { before, expr } => {
            let (st, v2) = spec_emit_expr(st, env, expr);
            (st, spec_d2(spec_text_doc(before), spec_into_doc(v2)))
        },
        InlinePulseToken::TypeAntiquot { before, ty } => {
            let (st, v3) = spec_emit_type(st, env, ty);
            (st, spec_d2(spec_text_doc(before), v3))
        },
        InlinePulseToken::FieldAntiquot { before, ty, field_name } => {
            let (st, v4) = spec_emit_field_token(st, env, ty, field_name);
            (st, spec_d2(spec_text_doc(before), v4))
        },
        InlinePulseToken::AuxFnAntiquot { before, ty, arm, kind } => {
            let (st, v5) = spec_emit_aux_token(st, env, ty, arm, kind);
            (st, spec_d2(spec_text_doc(before), v5))
        },
        InlinePulseToken::Declare { .. } => (st, spec_nil_doc()),
    }
}

/// The tokens of inline code. A declared name is in scope from there on.
///
/// As the state that [`Emitter::emit_tokens`] leaves, with its result.
pub open spec fn spec_emit_tokens(
    st: Emitter,
    env: Env,
    toks: Rc<List<InlinePulseToken>>,
) -> (Emitter, Rc<List<DocT>>)
    decreases toks, 0nat,
{
    match *toks {
        List::Nil => (st, spec_nil()),
        List::Cons(tok, t) => {
            let (st, d) = spec_emit_token(st, env, tok);
            match *tok {
                InlinePulseToken::Declare { ident, ty } => {
                    let env2 = spec_push_var_decl(env, ident, ty, LocalDeclKind::RValue);
                    let (st, v2) = spec_emit_tokens(st, env2, t);
                    (st, spec_cons(d, v2))
                },
                _ => {
                    let (st, v3) = spec_emit_tokens(st, env, t);
                    (st, spec_cons(d, v3))
                },
            }
        },
    }
}

impl Emitter {
    /// Reports an error, and gives what stands for an expression then.
    pub fn admit_at(&mut self, msg: Text, loc: &Loc) -> (out: Doc)
        ensures
            (*final(self), out) == spec_admit_at(*old(self), msg, *loc),
            extends(final(self).diags, old(self).diags),
            final(self).fn_module_map == old(self).fn_module_map,
            final(self).typedef_override_map == old(self).typedef_override_map,
    {
        proof {
            reveal(spec_admit_at);
        }
        self.report(msg, loc);
        txt("(admit())")
    }

    /// The value of an integer literal.
    pub fn emit_int_literal(
        &mut self,
        env: &Env,
        v: &Rc<Expr>,
        val: &Rc<IntValue>,
        ty: &Rc<Type>,
    ) -> (out: Doc)
        ensures
            (*final(self), out) == spec_emit_int_literal(*old(self), *env, *v, *val, *ty),
            extends(final(self).diags, old(self).diags),
            final(self).fn_module_map == old(self).fn_module_map,
            final(self).typedef_override_map == old(self).typedef_override_map,
    {
        proof {
            reveal(spec_emit_int_literal);
        }
        let value = Rc::new(Rope::Int(val.clone()));
        match &vtype_whnf(env, ty).val {
            TypeT::Int { signed, width } => emit_machine_int_literal(val, *signed, *width),
            TypeT::SizeT => text_doc(cat(value, lit("sz"))),
            TypeT::SpecInt | TypeT::SpecNat => text_doc(value),
            TypeT::Pointer(_, kind) if int_is_zero(val) => null_of(*kind),
            TypeT::FnPtr { .. } if int_is_zero(val) => null_fnptr(),
            _ => {
                self.report(cat(lit("unsupported integer literal type for "), value.clone()), &v.loc);
                text_doc(cat3(lit("(admit()) (* "), value, lit(" *)")))
            }
        }
    }

    /// The value of a floating-point literal.
    pub fn emit_float_literal(&mut self, env: &Env, v: &Rc<Expr>, val: &Text, ty: &Rc<Type>) -> (out: Doc)
        ensures
            (*final(self), out) == spec_emit_float_literal(*old(self), *env, *v, *val, *ty),
            extends(final(self).diags, old(self).diags),
            final(self).fn_module_map == old(self).fn_module_map,
            final(self).typedef_override_map == old(self).typedef_override_map,
    {
        proof {
            reveal(spec_emit_float_literal);
        }
        let quoted = text_doc(Rc::new(Rope::Quoted(val.clone())));
        match &vtype_whnf(env, ty).val {
            TypeT::Float { width: 32 } => unaryfn(txt("Pulse.Lib.C.float32_of_string"), quoted),
            TypeT::Float { width: 64 } => unaryfn(txt("Pulse.Lib.C.float64_of_string"), quoted),
            _ => self.admit_at(cat(lit("unsupported floating literal type for "), val.clone()), &v.loc),
        }
    }

    /// Reports that there is no such conversion.
    pub fn unsupported_cast(&mut self, from: &Rc<Type>, to: &Rc<Type>, loc: &Loc) -> (out: Doc)
        ensures
            (*final(self), out) == spec_unsupported_cast(*old(self), *from, *to, *loc),
            extends(final(self).diags, old(self).diags),
            final(self).fn_module_map == old(self).fn_module_map,
            final(self).typedef_override_map == old(self).typedef_override_map,
    {
        proof {
            reveal(spec_unsupported_cast);
        }
        self.admit_at(cat4(lit("unsupported cast from "), show_type(from), lit(" to "), show_type(to)), loc)
    }

    /// The conversion of a value to a kind of pointer.
    pub fn cast_to_pointer(
        &mut self,
        env: &Env,
        loc: &Loc,
        val: &Rc<Expr>,
        d: Doc,
        from: &Rc<Type>,
        to: &Rc<Type>,
        pointee: &Rc<Type>,
        kind: PointerKind,
    ) -> (out: Doc)
        ensures
            (*final(self), out) == spec_cast_to_pointer(*old(self), *env, *loc, *val, d, *from, *to, *pointee, kind),
            extends(final(self).diags, old(self).diags),
            final(self).fn_module_map == old(self).fn_module_map,
            final(self).typedef_override_map == old(self).typedef_override_map,
    {
        proof {
            reveal(spec_cast_to_pointer);
        }
        if is_zero_literal(val) {
            null_of(kind)
        } else {
            match (&from.val, kind) {
                (TypeT::FixedArray(_, _), PointerKind::Array) => d,
                (TypeT::FixedArray(_, _), PointerKind::ArrayPtr) => d,
                (TypeT::FixedArray(_, _), PointerKind::Core) => self.unsupported_cast(from, to, loc),
                (TypeT::FixedArray(_, _), _) => if matches!(&val.val, ExprT::ArrayInit { is_static: true, .. }) {
                    // A string literal lives as long as the program does.
                    unaryfn(txt("Pulse.Lib.C.Array.array_literal_to_ref"), d)
                } else {
                    unaryfn(txt("Pulse.Lib.C.Array.array_to_ref"), d)
                },
                (TypeT::Pointer(_, PointerKind::Core), PointerKind::Ref) | (TypeT::Pointer(_, PointerKind::Core), PointerKind::Unknown) =>
                    parens(naryfn(&l3(txt("Pulse.Lib.C.CoreRef.core_to_ref"), self.emit_type(env, pointee), d))),
                (TypeT::Pointer(_, PointerKind::Ref), PointerKind::Core) => unaryfn(txt("Pulse.Lib.C.CoreRef.ref_to_core"), d),
                (TypeT::Pointer(_, PointerKind::Unknown), PointerKind::Core) => unaryfn(txt("Pulse.Lib.C.CoreRef.ref_to_core"), d),
                (TypeT::Pointer(_, PointerKind::Array), PointerKind::Core) | (TypeT::Pointer(_, PointerKind::ArrayPtr), PointerKind::Core) =>
                    unaryfn(txt("Pulse.Lib.C.CoreRef.ref_to_core"), unaryfn(txt("Pulse.Lib.C.Array.array_to_ref"), d)),
                (TypeT::Pointer(_, _), PointerKind::ArrayPtr) => parens(naryfn(&l3(txt("array_to_arrayptr"), d, txt("0sz")))),
                (TypeT::Pointer(_, _), _) => d,
                (TypeT::Error, _) => d,
                (TypeT::Unknown, _) => d,
                _ => self.unsupported_cast(from, to, loc),
            }
        }
    }

    /// The conversion of a value, given as `d`, from one shape of type to another.
    pub fn cast_doc(
        &mut self,
        env: &Env,
        loc: &Loc,
        val: &Rc<Expr>,
        d: Doc,
        from: &Rc<Type>,
        to: &Rc<Type>,
    ) -> (out: Doc)
        ensures
            (*final(self), out) == spec_cast_doc(*old(self), *env, *loc, *val, d, *from, *to),
            extends(final(self).diags, old(self).diags),
            final(self).fn_module_map == old(self).fn_module_map,
            final(self).typedef_override_map == old(self).typedef_override_map,
    {
        proof {
            reveal(spec_cast_doc);
        }
        if vtype_eq(env, from, to) {
            d
        } else {
            match &to.val {
                TypeT::Pointer(pointee, kind) => self.cast_to_pointer(env, loc, val, d, from, to, pointee, *kind),
                TypeT::FnPtr { .. } if is_zero_literal(val) => null_fnptr(),
                _ => match cast_plain(from, to, d.clone()) {
                    Some(r) => r,
                    None => if is_broken(from) || is_broken(to) { d } else { self.unsupported_cast(from, to, loc) },
                },
            }
        }
    }

    /// A cast.
    pub fn emit_cast(&mut self, env: &Env, loc: &Loc, val: &Rc<Expr>, to_ty: &Rc<Type>) -> (out: Doc)
        ensures
            (*final(self), out) == spec_emit_cast(*old(self), *env, *loc, *val, *to_ty),
            extends(final(self).diags, old(self).diags),
            final(self).fn_module_map == old(self).fn_module_map,
            final(self).typedef_override_map == old(self).typedef_override_map,
        decreases val, 12nat,
    {
        let d = self.emit_rvalue(env, val);
        match infer_whnf(env, val) {
            // Where the type cannot be inferred, the error was reported elsewhere.
            None => d,
            Some(from) => {
                let to = vtype_whnf(env, to_ty);
                match (&to.val, &val.val) {
                    (TypeT::SizeT, ExprT::IntLit(n, _)) => text_doc(cat(Rc::new(Rope::Int(n.clone())), lit("sz"))),
                    _ => self.cast_doc(env, loc, val, d, &from, &to),
                }
            }
        }
    }

    /// A variable.
    pub fn emit_variable(&mut self, env: &Env, v: &Rc<Expr>, x: &Rc<Ident>) -> (out: ExprKind)
        ensures
            (*final(self), out) == spec_emit_variable(*old(self), *env, *v, *x),
            extends(final(self).diags, old(self).diags),
            final(self).fn_module_map == old(self).fn_module_map,
            final(self).typedef_override_map == old(self).typedef_override_map,
    {
        proof {
            reveal(spec_emit_variable);
        }
        match lookup_global_var(env, x) {
            Some(gv) => if !gv.is_pure && !global_var_is_array(&gv) {
                // A mutable global emits no value, so there is no name to refer to.
                self.report(cat3(lit("cannot read the mutable global "), x.val.clone(),
                    lit("; its address may be taken, but its value is not available")), &x.loc);
                ExprKind::RValue(txt("(admit())"))
            } else {
                let t = self.mangle_name(&Rc::new(Name::Var(x.val.clone())));
                ExprKind::RValue(annotated(&v.loc, self.qualified(&find_module(&self.fn_module_map, &x.val), t)))
            },
            None => {
                let d = annotated(&v.loc, annotated(&x.loc, self.emit_var_name(&x.val)));
                match lookup_var(env, x) {
                    Some(l) => if l.kind == LocalDeclKind::RValue { ExprKind::RValue(d) } else { ExprKind::LValue(d) },
                    None => ExprKind::LValue(d),
                }
            }
        }
    }

    /// What a pointer points to.
    pub fn emit_deref(&mut self, env: &Env, v: &Rc<Expr>, inner: &Rc<Expr>) -> (out: ExprKind)
        ensures
            (*final(self), out) == spec_emit_deref(*old(self), *env, *v, *inner),
            extends(final(self).diags, old(self).diags),
            final(self).fn_module_map == old(self).fn_module_map,
            final(self).typedef_override_map == old(self).typedef_override_map,
        decreases inner, 12nat,
    {
        match pointer_kind(env, inner) {
            Some(PointerKind::Array) => {
                let d = self.emit_rvalue(env, inner);
                ExprKind::RValue(annotated(&v.loc, parens(naryfn(&l3(txt("array_read"), d, txt("0sz"))))))
            }
            Some(PointerKind::ArrayPtr) => {
                let d = self.emit_rvalue(env, inner);
                ExprKind::RValue(annotated(&v.loc, parens(naryfn(&l3(txt("arrayptr_read"), d, txt("0sz"))))))
            }
            // A raw pointer is typed before it is used further.
            Some(PointerKind::Core) => match infer_expr(env, v) {
                Some(pointee_ty) => {
                    let d = to_rvalue(self.emit_expr(env, inner));
                    let ty = self.emit_type(env, &pointee_ty);
                    ExprKind::LValue(annotated(&v.loc, parens(naryfn(&l3(txt("Pulse.Lib.C.CoreRef.core_to_ref"), ty, d)))))
                }
                None => ExprKind::LValue(self.admit_at(cat(lit("cannot infer pointee type of "), show_expr(v)), &v.loc)),
            },
            _ => ExprKind::LValue(annotated(&v.loc, to_rvalue(self.emit_expr(env, inner)))),
        }
    }

    /// A field of a record.
    pub fn emit_member(&mut self, env: &Env, v: &Rc<Expr>, x: &Rc<Expr>, a: &Rc<Ident>) -> (out: ExprKind)
        ensures
            (*final(self), out) == spec_emit_member(*old(self), *env, *v, *x, *a),
            extends(final(self).diags, old(self).diags),
            final(self).fn_module_map == old(self).fn_module_map,
            final(self).typedef_override_map == old(self).typedef_override_map,
        decreases x, 12nat,
    {
        match infer_expr(env, x) {
            Some(ty) => match &vtype_whnf(env, &ty).val {
                TypeT::TypeRef(TypeRefKind::Struct(s)) => match self.emit_expr(env, x) {
                    ExprKind::LValue(d) => {
                        let p = annotated(&v.loc, unaryfn(self.emit_name(Name::StructFieldProj(s.val.clone(), a.val.clone())), d));
                        if struct_field_is_array(env, s, a) { ExprKind::ArrayLValue(p) } else { ExprKind::LValue(p) }
                    }
                    // The value may be a record literal, which has to stand in parentheses.
                    ExprKind::RValue(d) | ExprKind::ArrayLValue(d) => {
                        let f = self.emit_name(Name::StructDirectFieldName(s.val.clone(), a.val.clone()));
                        ExprKind::RValue(annotated(&v.loc, d3(parens(d), txt("."), f)))
                    }
                },
                TypeT::TypeRef(TypeRefKind::Union(u)) => match self.emit_expr(env, x) {
                    ExprKind::LValue(d) => {
                        let p = unaryfn(self.emit_name(Name::UnionFieldProj(u.val.clone(), a.val.clone())), d);
                        if union_field_is_array(env, u, a) { ExprKind::ArrayLValue(annotated(&v.loc, p)) } else { ExprKind::LValue(p) }
                    }
                    ExprKind::RValue(d) | ExprKind::ArrayLValue(d) => {
                        let c = self.emit_name(Name::UnionFieldConstructor(u.val.clone(), a.val.clone()));
                        ExprKind::RValue(annotated(&v.loc, parens(group(d4(c, txt("?._0"), line(), d)))))
                    }
                },
                _ => ExprKind::RValue(annotated(&v.loc, self.admit_at(cat(lit("unsupported struct field access on "), show_type(&vtype_whnf(env, &ty))), &v.loc))),
            },
            None => ExprKind::RValue(annotated(&v.loc, self.admit_at(cat(cat4(lit("cannot infer type of "), show_expr(x), lit(": "), infer_error(env, x)), cat(lit("\n"), show_env(env))), &x.loc))),
        }
    }

    /// The length of an array.
    pub fn emit_length(&mut self, env: &Env, x: &Rc<Expr>) -> (out: Doc)
        ensures
            (*final(self), out) == spec_emit_length(*old(self), *env, *x),
            extends(final(self).diags, old(self).diags),
            final(self).fn_module_map == old(self).fn_module_map,
            final(self).typedef_override_map == old(self).typedef_override_map,
        decreases x, 12nat,
    {
        match fixed_array_len(env, x) {
            Some(n) => text_doc(num(n)),
            None => if is_flex_array(env, x) {
                parens(d3(txt("array_spec_len"), line(), self.emit_rvalue(env, x)))
            } else {
                unaryfn(txt("reveal"), unaryfn(txt("length_of"), self.emit_rvalue(env, x)))
            },
        }
    }

    /// Whether a union's arm is active.
    pub fn emit_active(&mut self, env: &Env, v: &Rc<Expr>, fld: &Rc<Ident>, base: &Rc<Expr>) -> (out: Doc)
        ensures
            (*final(self), out) == spec_emit_active(*old(self), *env, *v, *fld, *base),
            extends(final(self).diags, old(self).diags),
            final(self).fn_module_map == old(self).fn_module_map,
            final(self).typedef_override_map == old(self).typedef_override_map,
        decreases base, 12nat,
    {
        match union_of(env, base) {
            Some(u) => {
                let d = self.emit_rvalue(env, base);
                let c = self.emit_name(Name::UnionFieldConstructor(u.val.clone(), fld.val.clone()));
                annotated(&v.loc, parens(group(d4(c, txt("?"), line(), d))))
            }
            None => self.admit_at(cat(lit("expected a union: "), show_expr(base)), &v.loc),
        }
    }

    /// An element of an array. A fixed array that is a value is indexed as a description of its
    /// contents; any other array is read.
    pub fn emit_index(&mut self, env: &Env, v: &Rc<Expr>) -> (out: ExprKind)
        ensures
            (*final(self), out) == spec_emit_index(*old(self), *env, *v),
            extends(final(self).diags, old(self).diags),
            final(self).fn_module_map == old(self).fn_module_map,
            final(self).typedef_override_map == old(self).typedef_override_map,
        decreases v, 5nat,
    {
        match &v.val {
            ExprT::Index(arr, idx) => {
                let k = self.emit_expr(env, arr);
                let pure_value = fixed_array_len(env, arr).is_some() && matches!(&k, ExprKind::RValue(_));
                let arr_doc = to_rvalue_decayed(k);
                let idx_doc = self.emit_rvalue(env, idx);
                if pure_value {
                    ExprKind::RValue(annotated(&v.loc, parens(naryfn(&l3(txt("array_spec_idx"), arr_doc,
                        parens(d3(txt("SizeT.v"), line(), idx_doc)))))))
                } else {
                    let read = if is_pointer(env, arr, PointerKind::ArrayPtr) { "arrayptr_read" } else { "array_read" };
                    ExprKind::RValue(annotated(&v.loc, parens(naryfn(&l3(txt(read), arr_doc, idx_doc)))))
                }
            }
            _ => ExprKind::RValue(nil_doc()),
        }
    }

    /// An expression, as a place or as a value.
    pub fn emit_expr(&mut self, env: &Env, v: &Rc<Expr>) -> (out: ExprKind)
        ensures
            (*final(self), out) == spec_emit_expr(*old(self), *env, *v),
            extends(final(self).diags, old(self).diags),
            final(self).fn_module_map == old(self).fn_module_map,
            final(self).typedef_override_map == old(self).typedef_override_map,
        decreases v, 8nat,
    {
        match &v.val {
            ExprT::Var(x) => self.emit_variable(env, v, x),
            ExprT::Deref(inner) => self.emit_deref(env, v, inner),
            ExprT::Member(x, a) => self.emit_member(env, v, x, a),
            ExprT::VAttr(VAttr::Length, x) => ExprKind::RValue(annotated(&v.loc, self.emit_length(env, x))),
            ExprT::VAttr(VAttr::Active(fld), base) => ExprKind::RValue(self.emit_active(env, v, fld, base)),
            ExprT::Index(_, _) => self.emit_index(env, v),
            _ => ExprKind::RValue(self.emit_rvalue_inner(env, v)),
        }
    }

    /// The place that an expression is.
    pub fn emit_lvalue(&mut self, env: &Env, v: &Rc<Expr>) -> (out: Doc)
        ensures
            (*final(self), out) == spec_emit_lvalue(*old(self), *env, *v),
            extends(final(self).diags, old(self).diags),
            final(self).fn_module_map == old(self).fn_module_map,
            final(self).typedef_override_map == old(self).typedef_override_map,
        decreases v, 9nat,
    {
        match self.emit_expr(env, v) {
            ExprKind::LValue(d) => d,
            _ => self.admit_at(cat(lit("cannot produce lvalue for "), show_expr(v)), &v.loc),
        }
    }

    /// The value of an expression.
    pub fn emit_rvalue(&mut self, env: &Env, v: &Rc<Expr>) -> (out: Doc)
        ensures
            (*final(self), out) == spec_emit_rvalue(*old(self), *env, *v),
            extends(final(self).diags, old(self).diags),
            final(self).fn_module_map == old(self).fn_module_map,
            final(self).typedef_override_map == old(self).typedef_override_map,
        decreases v, 9nat,
    {
        to_rvalue_decayed(self.emit_expr(env, v))
    }

    /// The values of expressions.
    pub fn emit_rvalues(&mut self, env: &Env, l: &Rc<List<Expr>>) -> (out: Rc<List<DocT>>)
        ensures
            (*final(self), out) == spec_emit_rvalues(*old(self), *env, *l),
            extends(final(self).diags, old(self).diags),
            final(self).fn_module_map == old(self).fn_module_map,
            final(self).typedef_override_map == old(self).typedef_override_map,
        decreases l, 0nat,
    {
        match &**l {
            List::Nil => nil(),
            List::Cons(h, t) => {
                let d = self.emit_rvalue(env, h);
                cons(d, self.emit_rvalues(env, t))
            }
        }
    }

    /// A pattern of a `match`.
    pub fn emit_pattern(&mut self, env: &Env, p: &Rc<Expr>) -> (out: Doc)
        ensures
            (*final(self), out) == spec_emit_pattern(*old(self), *env, *p),
            extends(final(self).diags, old(self).diags),
            final(self).fn_module_map == old(self).fn_module_map,
            final(self).typedef_override_map == old(self).typedef_override_map,
    {
        proof {
            reveal(spec_emit_pattern);
        }
        match &p.val {
            ExprT::IntLit(val, ty) => match &vtype_whnf(env, ty).val {
                TypeT::Int { signed, width } => emit_machine_int_literal(val, *signed, *width),
                TypeT::SizeT => text_doc(cat(Rc::new(Rope::Int(val.clone())), lit("sz"))),
                _ => self.emit_rvalue(env, p),
            },
            _ => self.emit_rvalue(env, p),
        }
    }

    /// Two operands with an operator between them.
    pub fn emit_operands(&mut self, env: &Env, v: &Rc<Expr>, op: Doc) -> (out: Doc)
        ensures
            (*final(self), out) == spec_emit_operands(*old(self), *env, *v, op),
            extends(final(self).diags, old(self).diags),
            final(self).fn_module_map == old(self).fn_module_map,
            final(self).typedef_override_map == old(self).typedef_override_map,
        decreases v, 2nat,
    {
        match &v.val {
            ExprT::BinOp(_, lhs, rhs) => {
                let a = self.emit_rvalue(env, lhs);
                let b = self.emit_rvalue(env, rhs);
                binop(a, op, b)
            }
            _ => nil_doc(),
        }
    }

    /// A function of two operands, in their order or swapped.
    pub fn emit_operand_call(
        &mut self,
        env: &Env,
        v: &Rc<Expr>,
        f: &'static str,
        swapped: bool,
    ) -> (out: Doc)
        ensures
            (*final(self), out) == spec_emit_operand_call(*old(self), *env, *v, f, swapped),
            extends(final(self).diags, old(self).diags),
            final(self).fn_module_map == old(self).fn_module_map,
            final(self).typedef_override_map == old(self).typedef_override_map,
        decreases v, 2nat,
    {
        match &v.val {
            ExprT::BinOp(_, lhs, rhs) => if swapped {
                let b = self.emit_rvalue(env, rhs);
                let a = self.emit_rvalue(env, lhs);
                parens(naryfn(&l3(txt(f), b, a)))
            } else {
                let a = self.emit_rvalue(env, lhs);
                let b = self.emit_rvalue(env, rhs);
                parens(naryfn(&l3(txt(f), a, b)))
            },
            _ => nil_doc(),
        }
    }

    /// An operation by the operator of its first operand's type.
    pub fn emit_typed_operation(&mut self, env: &Env, v: &Rc<Expr>, op: BinOp, lhs: &Rc<Expr>) -> (out: Doc)
        ensures
            (*final(self), out) == spec_emit_typed_operation(*old(self), *env, *v, op, *lhs),
            extends(final(self).diags, old(self).diags),
            final(self).fn_module_map == old(self).fn_module_map,
            final(self).typedef_override_map == old(self).typedef_override_map,
        decreases v, 3nat,
    {
        match operator_of(env, op, lhs) {
            Some(d) => self.emit_operands(env, v, d),
            None => self.admit_at(cat(lit("unsupported binary operator on "), show_expr(lhs)), &v.loc),
        }
    }

    /// An equality. A comparison with zero is a null test on pointers.
    pub fn emit_equality(&mut self, env: &Env, v: &Rc<Expr>) -> (out: Doc)
        ensures
            (*final(self), out) == spec_emit_equality(*old(self), *env, *v),
            extends(final(self).diags, old(self).diags),
            final(self).fn_module_map == old(self).fn_module_map,
            final(self).typedef_override_map == old(self).typedef_override_map,
        decreases v, 4nat,
    {
        match &v.val {
            ExprT::BinOp(_, lhs, rhs) => match null_test_of(env, lhs, rhs) {
                Some(test) => unaryfn(txt(test), self.emit_rvalue(env, lhs)),
                None => match operator_of(env, BinOp::Eq, lhs) {
                    Some(op) => self.emit_operands(env, v, op),
                    None => self.emit_operands(env, v, txt("=")),
                },
            },
            _ => nil_doc(),
        }
    }

    /// An operation.
    pub fn emit_operation(&mut self, env: &Env, v: &Rc<Expr>) -> (out: Doc)
        ensures
            (*final(self), out) == spec_emit_operation(*old(self), *env, *v),
            extends(final(self).diags, old(self).diags),
            final(self).fn_module_map == old(self).fn_module_map,
            final(self).typedef_override_map == old(self).typedef_override_map,
        decreases v, 5nat,
    {
        match &v.val {
            ExprT::BinOp(op, lhs, rhs) => match op {
                BinOp::LogAnd => self.emit_operands(env, v, if is_plain_slprop(env, lhs) { txt("**") } else { txt("&&") }),
                BinOp::LogOr => self.emit_operands(env, v, txt("||")),
                BinOp::Eq => self.emit_equality(env, v),
                BinOp::Add => if is_array_pointer(env, lhs) {
                    self.emit_operand_call(env, v, shift_fn(env, lhs), false)
                } else if is_array_pointer(env, rhs) {
                    self.emit_operand_call(env, v, shift_fn(env, rhs), true)
                } else {
                    self.emit_typed_operation(env, v, *op, lhs)
                },
                BinOp::Sub => if is_array_pointer(env, lhs) && is_array_pointer(env, rhs) {
                    self.emit_operand_call(env, v, "arrayptr_diff", false)
                } else {
                    self.emit_typed_operation(env, v, *op, lhs)
                },
                _ => self.emit_typed_operation(env, v, *op, lhs),
            },
            _ => nil_doc(),
        }
    }

    /// An address.
    pub fn emit_address(&mut self, env: &Env, a: &Rc<Expr>) -> (out: Doc)
        ensures
            (*final(self), out) == spec_emit_address(*old(self), *env, *a),
            extends(final(self).diags, old(self).diags),
            final(self).fn_module_map == old(self).fn_module_map,
            final(self).typedef_override_map == old(self).typedef_override_map,
        decreases a, 12nat,
    {
        match &a.val {
            // A global is a plain value, and its address an assumed one.
            ExprT::Var(x) => match addressable_global(env, x) {
                Some(_) => self.emit_name(Name::GlobalAddr(x.val.clone())),
                None => self.emit_lvalue(env, a),
            },
            _ => self.emit_lvalue(env, a),
        }
    }

    /// A call.
    pub fn emit_call(&mut self, env: &Env, f: &Rc<Ident>, args: &Rc<List<Expr>>) -> (out: Doc)
        ensures
            (*final(self), out) == spec_emit_call(*old(self), *env, *f, *args),
            extends(final(self).diags, old(self).diags),
            final(self).fn_module_map == old(self).fn_module_map,
            final(self).typedef_override_map == old(self).typedef_override_map,
        decreases args, 12nat,
    {
        let arg_docs = if list_is_empty(args) { txt("()") } else { intersperse(&self.emit_rvalues(env, args), &line()) };
        parens(d3(self.emit_name(Name::Fn(f.val.clone())), line(), arg_docs))
    }

    /// The wrapper of a function for use through pointers.
    pub fn fnptr_wrap_name(&mut self, g: &Text) -> (out: Doc)
        ensures
            (*final(self), out) == spec_fnptr_wrap_name(*old(self), *g),
            extends(final(self).diags, old(self).diags),
            final(self).fn_module_map == old(self).fn_module_map,
            final(self).typedef_override_map == old(self).typedef_override_map,
    {
        proof {
            reveal(spec_fnptr_wrap_name);
        }
        self.emit_name(Name::Fn(cat(g.clone(), lit("__fp"))))
    }

    /// The value of a pointer to a function: the specification is recovered from the type of the
    /// function's wrapper.
    pub fn emit_of_fn(&mut self, env: &Env, g: &Rc<Ident>) -> (out: Doc)
        ensures
            (*final(self), out) == spec_emit_of_fn(*old(self), *env, *g),
            extends(final(self).diags, old(self).diags),
            final(self).fn_module_map == old(self).fn_module_map,
            final(self).typedef_override_map == old(self).typedef_override_map,
    {
        proof {
            reveal(spec_emit_of_fn);
        }
        let is_total = match lookup_fn(env, g) {
            Some(d) => d.is_total,
            None => false,
        };
        let pre = parens(d2(txt(if is_total { "Pulse.Lib.C.FuncPtr.pre_of_tot " } else { "Pulse.Lib.C.FuncPtr.pre_of " }), self.fnptr_wrap_name(&g.val)));
        let post = parens(d2(txt(if is_total { "Pulse.Lib.C.FuncPtr.post_of_tot " } else { "Pulse.Lib.C.FuncPtr.post_of " }), self.fnptr_wrap_name(&g.val)));
        let wrap = self.fnptr_wrap_name(&g.val);
        parens(naryfn(&l4(txt(if is_total { "Pulse.Lib.C.FuncPtr.of_fn" } else { "Pulse.Lib.C.FuncPtr.of_fn_div" }), pre, post, wrap)))
    }

    /// A call through a pointer. The specification and the witness are left for F* to infer.
    pub fn emit_fnptr_call(&mut self, env: &Env, v: &Rc<Expr>) -> (out: Doc)
        ensures
            (*final(self), out) == spec_emit_fnptr_call(*old(self), *env, *v),
            extends(final(self).diags, old(self).diags),
            final(self).fn_module_map == old(self).fn_module_map,
            final(self).typedef_override_map == old(self).typedef_override_map,
        decreases v, 5nat,
    {
        match &v.val {
            ExprT::FnPtrCall(f, args) => {
                let tuple = arg_tuple(&self.emit_rvalues(env, args));
                let callee = self.emit_rvalue(env, f);
                let prim = if self.current_fn_total { "Pulse.Lib.C.FuncPtr.call" } else { "Pulse.Lib.C.FuncPtr.call_div" };
                parens(naryfn(&l6(txt(prim), txt("_"), txt("_"), callee, tuple, txt("_"))))
            }
            _ => nil_doc(),
        }
    }

    /// That a place is allocated.
    pub fn emit_live(&mut self, env: &Env, a: &Rc<Expr>) -> (out: Doc)
        ensures
            (*final(self), out) == spec_emit_live(*old(self), *env, *a),
            extends(final(self).diags, old(self).diags),
            final(self).fn_module_map == old(self).fn_module_map,
            final(self).typedef_override_map == old(self).typedef_override_map,
        decreases a, 12nat,
    {
        match &a.val {
            ExprT::Deref(inner) => if is_pointer(env, inner, PointerKind::ArrayPtr) {
                // A place in an array carries no permission.
                txt("emp")
            } else if is_pointer(env, inner, PointerKind::Array) {
                unaryfn(txt("Pulse.Lib.C.Array.live_array"), self.emit_rvalue(env, inner))
            } else {
                unaryfn(txt("live"), self.emit_lvalue(env, a))
            },
            _ => unaryfn(txt("live"), self.emit_lvalue(env, a)),
        }
    }

    /// A quantified proposition.
    pub fn emit_quantifier(
        &mut self,
        env: &Env,
        is_forall: bool,
        x: &Rc<Ident>,
        ty: &Rc<Type>,
        body: &Rc<Expr>,
    ) -> (out: Doc)
        ensures
            (*final(self), out) == spec_emit_quantifier(*old(self), *env, is_forall, *x, *ty, *body),
            extends(final(self).diags, old(self).diags),
            final(self).fn_module_map == old(self).fn_module_map,
            final(self).typedef_override_map == old(self).typedef_override_map,
        decreases body, 12nat,
    {
        let env2 = push_var_decl(env, x, ty.clone(), LocalDeclKind::RValue);
        let slprop = is_slprop_expr(&env2, body);
        let keyword = if is_forall {
            if slprop { "forall*" } else { "forall" }
        } else {
            if slprop { "exists*" } else { "exists" }
        };
        let name = self.emit_var_name(&x.val);
        let ty_doc = self.emit_type(&env2, ty);
        let body_doc = self.emit_rvalue(&env2, body);
        parens(d6(txt(keyword), line(), parens(d4(name, txt(":"), space(), ty_doc)), txt("."), line(), body_doc))
    }

    /// The value given to a field, if there is one.
    pub fn emit_init_of(&mut self, env: &Env, inits: &Rc<List<FieldInit>>, fname: &Rc<Ident>) -> (out: Option<Doc>)
        ensures
            (*final(self), out) == spec_emit_init_of(*old(self), *env, *inits, *fname),
            extends(final(self).diags, old(self).diags),
            final(self).fn_module_map == old(self).fn_module_map,
            final(self).typedef_override_map == old(self).typedef_override_map,
        decreases inits, 3nat,
    {
        match &**inits {
            List::Nil => None,
            List::Cons(i, t) => if same_name(&i.name, fname) {
                Some(self.emit_field_init(env, i))
            } else {
                self.emit_init_of(env, t, fname)
            },
        }
    }

    /// The value given to a field.
    pub fn emit_field_init(&mut self, env: &Env, i: &Rc<FieldInit>) -> (out: Doc)
        ensures
            (*final(self), out) == spec_emit_field_init(*old(self), *env, *i),
            extends(final(self).diags, old(self).diags),
            final(self).fn_module_map == old(self).fn_module_map,
            final(self).typedef_override_map == old(self).typedef_override_map,
        decreases i, 0nat,
    {
        self.emit_rvalue(env, &i.value)
    }

    /// The entries of a record literal: every field of the struct in order, with its initializer
    /// or else its zero value.
    pub fn emit_struct_entries(
        &mut self,
        env: &Env,
        s: &Rc<Ident>,
        inits: &Rc<List<FieldInit>>,
        fields: &Rc<List<Field>>,
    ) -> (out: Rc<List<DocT>>)
        ensures
            (*final(self), out) == spec_emit_struct_entries(*old(self), *env, *s, *inits, *fields),
            extends(final(self).diags, old(self).diags),
            final(self).fn_module_map == old(self).fn_module_map,
            final(self).typedef_override_map == old(self).typedef_override_map,
        decreases inits, 4nat, fields,
    {
        match &**fields {
            List::Nil => nil(),
            List::Cons(f, t) => {
                let fname = field_name(f);
                let value = match self.emit_init_of(env, inits, &fname) {
                    Some(d) => d,
                    None => self.emit_field_default(env, f),
                };
                let name = self.emit_name(Name::StructDirectFieldName(s.val.clone(), fname.val.clone()));
                cons(record_entry(name, value), self.emit_struct_entries(env, s, inits, t))
            }
        }
    }

    /// The entries of a record literal of an unknown struct: those that are given.
    pub fn emit_given_entries(
        &mut self,
        env: &Env,
        s: &Rc<Ident>,
        inits: &Rc<List<FieldInit>>,
    ) -> (out: Rc<List<DocT>>)
        ensures
            (*final(self), out) == spec_emit_given_entries(*old(self), *env, *s, *inits),
            extends(final(self).diags, old(self).diags),
            final(self).fn_module_map == old(self).fn_module_map,
            final(self).typedef_override_map == old(self).typedef_override_map,
        decreases inits, 3nat,
    {
        match &**inits {
            List::Nil => nil(),
            List::Cons(i, t) => {
                let name = self.emit_name(Name::StructDirectFieldName(s.val.clone(), i.name.val.clone()));
                let value = self.emit_field_init(env, i);
                cons(record_entry(name, value), self.emit_given_entries(env, s, t))
            }
        }
    }

    /// A record literal.
    pub fn emit_struct_init(&mut self, env: &Env, s: &Rc<Ident>, inits: &Rc<List<FieldInit>>) -> (out: Doc)
        ensures
            (*final(self), out) == spec_emit_struct_init(*old(self), *env, *s, *inits),
            extends(final(self).diags, old(self).diags),
            final(self).fn_module_map == old(self).fn_module_map,
            final(self).typedef_override_map == old(self).typedef_override_map,
        decreases inits, 5nat,
    {
        match lookup_struct(env, s) {
            Some(d) => record_literal(&self.emit_struct_entries(env, s, inits, &d.fields)),
            None => record_literal(&self.emit_given_entries(env, s, inits)),
        }
    }

    /// The elements of an array literal, as an F* list.
    pub fn emit_cons_cells(&mut self, env: &Env, elem_ty: &Doc, elems: &Rc<List<Expr>>) -> (out: Doc)
        ensures
            (*final(self), out) == spec_emit_cons_cells(*old(self), *env, *elem_ty, *elems),
            extends(final(self).diags, old(self).diags),
            final(self).fn_module_map == old(self).fn_module_map,
            final(self).typedef_override_map == old(self).typedef_override_map,
        decreases elems, 0nat,
    {
        match &**elems {
            List::Nil => unaryfn(txt("Nil"), elem_ty.clone()),
            List::Cons(h, t) => {
                let rest = self.emit_cons_cells(env, elem_ty, t);
                let d = self.emit_rvalue(env, h);
                d4(nest(group(d3(group(d3(txt("(Cons"), line(), elem_ty.clone())), line(), d))), line(), rest, txt(")"))
            }
        }
    }

    /// An array literal.
    pub fn emit_array_init(&mut self, env: &Env, elem_ty: &Rc<Type>, elems: &Rc<List<Expr>>) -> (out: Doc)
        ensures
            (*final(self), out) == spec_emit_array_init(*old(self), *env, *elem_ty, *elems),
            extends(final(self).diags, old(self).diags),
            final(self).fn_module_map == old(self).fn_module_map,
            final(self).typedef_override_map == old(self).typedef_override_map,
        decreases elems, 12nat,
    {
        let ty_arg = d2(txt("#"), self.emit_type(env, elem_ty));
        let cells = self.emit_cons_cells(env, &ty_arg, elems);
        naryfn(&l4(txt("array_spec_of_list_with_len"), ty_arg, cells, text_doc(num(list_len(elems)))))
    }

    /// An allocation of a struct with a flexible array member.
    pub fn emit_flex_alloc(
        &mut self,
        env: &Env,
        kind: &'static str,
        ty: &Rc<Type>,
        count: &Rc<Expr>,
    ) -> (out: Doc)
        ensures
            (*final(self), out) == spec_emit_flex_alloc(*old(self), *env, kind, *ty, *count),
            extends(final(self).diags, old(self).diags),
            final(self).fn_module_map == old(self).fn_module_map,
            final(self).typedef_override_map == old(self).typedef_override_map,
        decreases count, 12nat,
    {
        match &vtype_whnf(env, ty).val {
            TypeT::TypeRef(TypeRefKind::Struct(s)) => {
                let f = self.emit_name(Name::StructAuxFn(s.val.clone(), kind));
                parens(d3(f, line(), self.emit_rvalue(env, count)))
            }
            _ => {
                self.report(lit("flexible-array-member allocation of a non-struct type"), &ty.loc);
                txt("()")
            }
        }
    }

    /// An allocation of one object.
    pub fn emit_alloc(&mut self, env: &Env, f: &'static str, ty: &Rc<Type>) -> (out: Doc)
        ensures
            (*final(self), out) == spec_emit_alloc(*old(self), *env, f, *ty),
            extends(final(self).diags, old(self).diags),
            final(self).fn_module_map == old(self).fn_module_map,
            final(self).typedef_override_map == old(self).typedef_override_map,
    {
        proof {
            reveal(spec_emit_alloc);
        }
        parens(d6(txt(f), line(), txt("#"), self.emit_type(env, ty), line(), txt("()")))
    }

    /// An allocation of an array.
    pub fn emit_array_alloc(
        &mut self,
        env: &Env,
        f: &'static str,
        ty: &Rc<Type>,
        count: &Rc<Expr>,
    ) -> (out: Doc)
        ensures
            (*final(self), out) == spec_emit_array_alloc(*old(self), *env, f, *ty, *count),
            extends(final(self).diags, old(self).diags),
            final(self).fn_module_map == old(self).fn_module_map,
            final(self).typedef_override_map == old(self).typedef_override_map,
        decreases count, 12nat,
    {
        let t = self.emit_type(env, ty);
        let n = self.emit_rvalue(env, count);
        parens(d6(txt(f), line(), txt("#"), t, line(), n))
    }

    /// An allocation, or an operation on allocated memory.
    pub fn emit_memory(&mut self, env: &Env, v: &Rc<Expr>) -> (out: Doc)
        ensures
            (*final(self), out) == spec_emit_memory(*old(self), *env, *v),
            extends(final(self).diags, old(self).diags),
            final(self).fn_module_map == old(self).fn_module_map,
            final(self).typedef_override_map == old(self).typedef_override_map,
        decreases v, 5nat,
    {
        match &v.val {
            ExprT::Malloc(ty) => self.emit_alloc(env, "Pulse.Lib.C.Ref.alloc_ref", ty),
            ExprT::Calloc(ty) => self.emit_alloc(env, "Pulse.Lib.C.Ref.calloc_ref", ty),
            ExprT::MallocArray(ty, count) => self.emit_array_alloc(env, "Pulse.Lib.C.Array.alloc_array", ty, count),
            ExprT::CallocArray(ty, count) => self.emit_array_alloc(env, "Pulse.Lib.C.Array.calloc_array", ty, count),
            ExprT::MallocFlex(ty, count) => self.emit_flex_alloc(env, "malloc_flex", ty, count),
            ExprT::CallocFlex(ty, count) => self.emit_flex_alloc(env, "calloc_flex", ty, count),
            ExprT::Memset(_, ptr, value, count) => {
                let p = self.emit_rvalue(env, ptr);
                let x = self.emit_rvalue(env, value);
                let n = self.emit_rvalue(env, count);
                parens(nest(group(d7(txt("Pulse.Lib.C.Array.memset"), line(), p, line(), x, line(), n))))
            }
            ExprT::MemsetZero(_, ptr) => {
                let p = self.emit_rvalue(env, ptr);
                parens(nest(group(d5(p, line(), txt(":="), line(), txt("zero_default")))))
            }
            ExprT::Free(val) => {
                let f = if is_pointer(env, val, PointerKind::Array) { "Pulse.Lib.C.Array.free_array" } else { "Pulse.Lib.C.Ref.free_ref" };
                parens(d3(txt(f), line(), self.emit_rvalue(env, val)))
            }
            ExprT::ContainerOf(ptr, struct_ty, field) => match &vtype_whnf(env, struct_ty).val {
                TypeT::TypeRef(TypeRefKind::Struct(s)) => {
                    let container = self.emit_name(Name::StructContainerFn(s.val.clone(), field.val.clone()));
                    parens(unaryfn(container, self.emit_rvalue(env, ptr)))
                }
                _ => self.admit_at(cat(lit("_container_of expects a struct type, got "), show_type(struct_ty)), &struct_ty.loc),
            },
            _ => nil_doc(),
        }
    }

    /// An increment or a decrement.
    pub fn emit_incr(
        &mut self,
        env: &Env,
        val: &Rc<Expr>,
        on_pointer: &'static str,
        on_number: &'static str,
    ) -> (out: Doc)
        ensures
            (*final(self), out) == spec_emit_incr(*old(self), *env, *val, on_pointer, on_number),
            extends(final(self).diags, old(self).diags),
            final(self).fn_module_map == old(self).fn_module_map,
            final(self).typedef_override_map == old(self).typedef_override_map,
        decreases val, 12nat,
    {
        if is_array_pointer(env, val) {
            parens(d3(text_doc(cat(lit("Pulse.Lib.C.Array.arrayptr_"), lit(on_pointer))), line(), self.emit_lvalue(env, val)))
        } else {
            let f = text_doc(cat4(lit("Pulse.Lib.C.UnaryOps."), lit(on_number), lit("_"), lit(incr_suffix(env, val))));
            parens(d3(f, line(), self.emit_lvalue(env, val)))
        }
    }

    /// An assignment that is used as a value.
    pub fn emit_assign_expr(&mut self, env: &Env, v: &Rc<Expr>) -> (out: Doc)
        ensures
            (*final(self), out) == spec_emit_assign_expr(*old(self), *env, *v),
            extends(final(self).diags, old(self).diags),
            final(self).fn_module_map == old(self).fn_module_map,
            final(self).typedef_override_map == old(self).typedef_override_map,
        decreases v, 5nat,
    {
        match &v.val {
            ExprT::AssignExpr(lhs, rhs) => {
                let target = self.emit_assign_target(env, lhs);
                let r = self.emit_rvalue(env, rhs);
                naryfn(&list_push(&target, r))
            }
            _ => nil_doc(),
        }
    }

    /// The function that assigns to an expression, and what it takes in front of the new value.
    pub fn emit_assign_target(&mut self, env: &Env, lhs: &Rc<Expr>) -> (out: Rc<List<DocT>>)
        ensures
            (*final(self), out) == spec_emit_assign_target(*old(self), *env, *lhs),
            extends(final(self).diags, old(self).diags),
            final(self).fn_module_map == old(self).fn_module_map,
            final(self).typedef_override_map == old(self).typedef_override_map,
        decreases lhs, 12nat,
    {
        match &lhs.val {
            ExprT::Index(arr, idx) => {
                let f = if is_pointer(env, arr, PointerKind::ArrayPtr) { "arrayptr_assign_ret" } else { "array_assign_ret" };
                let a = to_rvalue_decayed(self.emit_expr(env, arr));
                let i = self.emit_rvalue(env, idx);
                l3(txt(f), a, i)
            }
            ExprT::Deref(inner) => match pointer_kind(env, inner) {
                Some(PointerKind::Array) => l3(txt("array_assign_ret"), self.emit_rvalue(env, inner), txt("0sz")),
                Some(PointerKind::ArrayPtr) => l3(txt("arrayptr_assign_ret"), self.emit_rvalue(env, inner), txt("0sz")),
                _ => l2(txt("assign_ret"), self.emit_lvalue(env, lhs)),
            },
            _ => l2(txt("assign_ret"), self.emit_lvalue(env, lhs)),
        }
    }

    /// A conditional expression.
    pub fn emit_cond(&mut self, env: &Env, v: &Rc<Expr>) -> (out: Doc)
        ensures
            (*final(self), out) == spec_emit_cond(*old(self), *env, *v),
            extends(final(self).diags, old(self).diags),
            final(self).fn_module_map == old(self).fn_module_map,
            final(self).typedef_override_map == old(self).typedef_override_map,
        decreases v, 5nat,
    {
        match &v.val {
            ExprT::Cond(c, a, b) => {
                let cond = self.emit_rvalue(env, c);
                let x = self.emit_rvalue(env, a);
                let y = self.emit_rvalue(env, b);
                if_then_else(cond, x, y)
            }
            _ => nil_doc(),
        }
    }

    /// The alignment of a type. An array is aligned as its handle.
    pub fn emit_alignof(&mut self, env: &Env, ty: &Rc<Type>) -> (out: Doc)
        ensures
            (*final(self), out) == spec_emit_alignof(*old(self), *env, *ty),
            extends(final(self).diags, old(self).diags),
            final(self).fn_module_map == old(self).fn_module_map,
            final(self).typedef_override_map == old(self).typedef_override_map,
    {
        proof {
            reveal(spec_emit_alignof);
        }
        let d = match &ty.val {
            TypeT::FixedArray(elem, _) => unaryfn(txt("array"), self.emit_type(env, elem)),
            _ => self.emit_type(env, ty),
        };
        unaryfn(txt("Pulse.Lib.C.Sizeof.c_alignof"), d)
    }

    /// A value that is no place.
    pub fn emit_rvalue_inner(&mut self, env: &Env, v: &Rc<Expr>) -> (out: Doc)
        ensures
            (*final(self), out) == spec_emit_rvalue_inner(*old(self), *env, *v),
            extends(final(self).diags, old(self).diags),
            final(self).fn_module_map == old(self).fn_module_map,
            final(self).typedef_override_map == old(self).typedef_override_map,
        decreases v, 7nat,
    {
        let d = match &v.val {
            ExprT::BoolLit(b) => txt(if *b { "true" } else { "false" }),
            ExprT::IntLit(val, ty) => self.emit_int_literal(env, v, val, ty),
            ExprT::FloatLit(val, ty) => self.emit_float_literal(env, v, val, ty),
            ExprT::Ref(a) => self.emit_address(env, a),
            ExprT::Cast(val, to_ty) => self.emit_cast(env, &v.loc, val, to_ty),
            ExprT::Error(_) => txt("(admit())"),
            ExprT::InlinePulse(code, _) => parens(concat(&self.emit_tokens(env, &code.tokens))),
            ExprT::BinOp(_, _, _) => self.emit_operation(env, v),
            ExprT::UnOp(op, arg) => match unary_operator_of(env, *op, arg) {
                Some(f) => unaryfn(f, self.emit_rvalue(env, arg)),
                None => self.admit_at(cat(lit("unsupported unary operator on "), show_expr(arg)), &v.loc),
            },
            ExprT::FnCall(f, args) => self.emit_call(env, f, args),
            ExprT::FnRef(g) => self.emit_of_fn(env, g),
            ExprT::FnPtrCall(_, _) => self.emit_fnptr_call(env, v),
            ExprT::Live(a) => self.emit_live(env, a),
            ExprT::Old(a) => unaryfn(txt("old"), self.emit_rvalue(env, a)),
            ExprT::Forall(x, ty, body) => self.emit_quantifier(env, true, x, ty, body),
            ExprT::Exists(x, ty, body) => self.emit_quantifier(env, false, x, ty, body),
            ExprT::StructInit(s, inits) => self.emit_struct_init(env, s, inits),
            ExprT::UnionInit(u, fld, val) => {
                let c = self.emit_name(Name::UnionFieldConstructor(u.val.clone(), fld.val.clone()));
                unaryfn(c, self.emit_rvalue(env, val))
            }
            ExprT::ArrayInit { elem_ty, elems, .. } => self.emit_array_init(env, elem_ty, elems),
            ExprT::PreIncr(a) => self.emit_incr(env, a, "pre_incr", "pluspluspre"),
            ExprT::PostIncr(a) => self.emit_incr(env, a, "post_incr", "pluspluspost"),
            ExprT::PreDecr(a) => self.emit_incr(env, a, "pre_decr", "minusminuspre"),
            ExprT::PostDecr(a) => self.emit_incr(env, a, "post_decr", "minusminuspost"),
            ExprT::Cond(_, _, _) => self.emit_cond(env, v),
            ExprT::AssignExpr(_, _) => self.emit_assign_expr(env, v),
            ExprT::SizeOf(ty) => unaryfn(txt("Pulse.Lib.C.Sizeof.c_sizeof"), self.emit_type(env, ty)),
            ExprT::AlignOf(ty) => self.emit_alignof(env, ty),
            _ => self.emit_memory(env, v),
        };
        annotated(&v.loc, d)
    }

    /// A field that inline code names.
    pub fn emit_field_token(&mut self, env: &Env, ty: &Rc<Type>, fld: &Rc<Ident>) -> (out: Doc)
        ensures
            (*final(self), out) == spec_emit_field_token(*old(self), *env, *ty, *fld),
            extends(final(self).diags, old(self).diags),
            final(self).fn_module_map == old(self).fn_module_map,
            final(self).typedef_override_map == old(self).typedef_override_map,
    {
        proof {
            reveal(spec_emit_field_token);
        }
        match &vtype_whnf(env, ty).val {
            TypeT::TypeRef(TypeRefKind::Struct(s)) => self.emit_name(Name::StructDirectFieldName(s.val.clone(), fld.val.clone())),
            TypeT::TypeRef(TypeRefKind::Union(u)) => self.emit_name(Name::UnionFieldConstructor(u.val.clone(), fld.val.clone())),
            _ => {
                self.report(cat(lit("$field: expected struct or union type, got "), show_type(ty)), &ty.loc);
                txt("(* $field: not a struct or union type *)")
            }
        }
    }

    /// Reports that a helper is not there, and gives a comment that says so.
    pub fn missing_aux(
        &mut self,
        kind: AuxFnKind,
        msg: &'static str,
        comment: &'static str,
        loc: &Loc,
    ) -> (out: Doc)
        ensures
            (*final(self), out) == spec_missing_aux(*old(self), kind, msg, comment, *loc),
            extends(final(self).diags, old(self).diags),
            final(self).fn_module_map == old(self).fn_module_map,
            final(self).typedef_override_map == old(self).typedef_override_map,
    {
        proof {
            reveal(spec_missing_aux);
        }
        self.report(cat3(lit("$"), lit(aux_keyword(kind)), lit(msg)), loc);
        text_doc(cat4(lit("(* $"), lit(aux_keyword(kind)), lit(comment), lit(" *)")))
    }

    /// A helper of a struct that inline code names.
    pub fn emit_struct_aux_token(
        &mut self,
        s: &Rc<Ident>,
        arm: &Option<Rc<Ident>>,
        kind: AuxFnKind,
        loc: &Loc,
    ) -> (out: Doc)
        ensures
            (*final(self), out) == spec_emit_struct_aux_token(*old(self), *s, *arm, kind, *loc),
            extends(final(self).diags, old(self).diags),
            final(self).fn_module_map == old(self).fn_module_map,
            final(self).typedef_override_map == old(self).typedef_override_map,
    {
        proof {
            reveal(spec_emit_struct_aux_token);
        }
        match struct_aux_name(kind) {
            None => self.missing_aux(kind, ": not supported for struct types", ": not supported for structs", loc),
            Some(aux) => {
                if arm.is_some() {
                    self.report(cat3(lit("$"), lit(aux_keyword(kind)), lit(": struct type does not take a field name")), loc);
                }
                self.emit_name(Name::StructAuxFn(s.val.clone(), aux))
            }
        }
    }

    /// A helper of a union that inline code names.
    pub fn emit_union_aux_token(
        &mut self,
        u: &Rc<Ident>,
        arm: &Option<Rc<Ident>>,
        kind: AuxFnKind,
        loc: &Loc,
    ) -> (out: Doc)
        ensures
            (*final(self), out) == spec_emit_union_aux_token(*old(self), *u, *arm, kind, *loc),
            extends(final(self).diags, old(self).diags),
            final(self).fn_module_map == old(self).fn_module_map,
            final(self).typedef_override_map == old(self).typedef_override_map,
    {
        proof {
            reveal(spec_emit_union_aux_token);
        }
        if kind == AuxFnKind::Activate {
            match arm {
                Some(fld) => self.emit_name(Name::UnionActivateFn(u.val.clone(), fld.val.clone())),
                None => {
                    self.report(lit("$activate: union type requires an arm name (use type::arm syntax)"), loc);
                    txt("(* $activate: missing arm name *)")
                }
            }
        } else {
            match (union_aux_name(kind), arm) {
                (Some(aux), Some(fld)) => self.emit_name(Name::UnionAuxFn(u.val.clone(), aux, fld.val.clone())),
                (None, _) => self.missing_aux(kind, ": not supported for union types", ": not supported for unions", loc),
                (_, None) => self.missing_aux(kind, ": union type requires a field name (use type::field syntax)", ": missing field name", loc),
            }
        }
    }

    /// A helper that inline code names.
    pub fn emit_aux_token(
        &mut self,
        env: &Env,
        ty: &Rc<Type>,
        arm: &Option<Rc<Ident>>,
        kind: AuxFnKind,
    ) -> (out: Doc)
        ensures
            (*final(self), out) == spec_emit_aux_token(*old(self), *env, *ty, *arm, kind),
            extends(final(self).diags, old(self).diags),
            final(self).fn_module_map == old(self).fn_module_map,
            final(self).typedef_override_map == old(self).typedef_override_map,
    {
        proof {
            reveal(spec_emit_aux_token);
        }
        match &vtype_whnf(env, ty).val {
            TypeT::TypeRef(TypeRefKind::Struct(s)) => self.emit_struct_aux_token(s, arm, kind, &ty.loc),
            TypeT::TypeRef(TypeRefKind::Union(u)) => self.emit_union_aux_token(u, arm, kind, &ty.loc),
            _ => {
                self.report(cat4(lit("$"), lit(aux_keyword(kind)), lit(": expected struct or union type, got "), show_type(ty)), &ty.loc);
                text_doc(cat3(lit("(* $"), lit(aux_keyword(kind)), lit(": not a struct or union type *)")))
            }
        }
    }

    /// A token of inline code.
    pub fn emit_token(&mut self, env: &Env, tok: &Rc<InlinePulseToken>) -> (out: Doc)
        ensures
            (*final(self), out) == spec_emit_token(*old(self), *env, *tok),
            extends(final(self).diags, old(self).diags),
            final(self).fn_module_map == old(self).fn_module_map,
            final(self).typedef_override_map == old(self).typedef_override_map,
        decreases tok, 0nat,
    {
        match &**tok {
            InlinePulseToken::Verbatim { before, text } => d2(text_doc(before.clone()), annotated(&text.loc, text_doc(text.val.clone()))),
            InlinePulseToken::RValueAntiquot { before, expr } => d2(text_doc(before.clone()), self.emit_rvalue(env, expr)),
            InlinePulseToken::LValueAntiquot { before, expr } => d2(text_doc(before.clone()), into_doc(self.emit_expr(env, expr))),
            InlinePulseToken::TypeAntiquot { before, ty } => d2(text_doc(before.clone()), self.emit_type(env, ty)),
            InlinePulseToken::FieldAntiquot { before, ty, field_name } => d2(text_doc(before.clone()), self.emit_field_token(env, ty, field_name)),
            InlinePulseToken::AuxFnAntiquot { before, ty, arm, kind } => d2(text_doc(before.clone()), self.emit_aux_token(env, ty, arm, *kind)),
            InlinePulseToken::Declare { .. } => nil_doc(),
        }
    }

    /// The tokens of inline code. A declared name is in scope from there on.
    pub fn emit_tokens(&mut self, env: &Env, toks: &Rc<List<InlinePulseToken>>) -> (out: Rc<List<DocT>>)
        ensures
            (*final(self), out) == spec_emit_tokens(*old(self), *env, *toks),
            extends(final(self).diags, old(self).diags),
            final(self).fn_module_map == old(self).fn_module_map,
            final(self).typedef_override_map == old(self).typedef_override_map,
        decreases toks, 0nat,
    {
        match &**toks {
            List::Nil => nil(),
            List::Cons(tok, t) => {
                let d = self.emit_token(env, tok);
                match &**tok {
                    InlinePulseToken::Declare { ident, ty } => {
                        let env2 = push_var_decl(env, ident, ty.clone(), LocalDeclKind::RValue);
                        cons(d, self.emit_tokens(&env2, t))
                    }
                    _ => cons(d, self.emit_tokens(env, t)),
                }
            }
        }
    }
}

} // verus!
