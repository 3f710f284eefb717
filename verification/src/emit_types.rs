//! Emission of types and of their zero values.

use crate::list::{List, cons, l3, l4, nil, spec_cons, spec_l3, spec_l4, spec_nil};
use crate::text::{
    cat, cat3, cat5, lit, num, spec_cat, spec_cat3, spec_cat5, spec_lit, spec_num,
    spec_width_text, width_text,
};
use crate::ir::{
    AuxFnKind, Field, FieldT, PointerKind, Type, TypeT, field_fixed_info, field_flex_info,
    show_type, spec_field_fixed_info, spec_field_flex_info, spec_show_type,
};
use crate::diag::extends;
use crate::doc::{
    Doc, DocT, annotated, d5, line, naryfn, parens, spec_annotated, spec_d5, spec_line,
    spec_naryfn, spec_parens, spec_text_doc, spec_txt, spec_unaryfn, text_doc, txt, unaryfn,
};
use crate::env::{Env, spec_vtype_whnf, vtype_whnf};
use crate::names::{Name, TypeRef, spec_type_ref, type_ref};
use crate::emit_base::{
    Emitter, fnptr_domain_doc, get_int_mod, spec_emit_name, spec_fnptr_domain_doc,
    spec_get_int_mod, spec_report,
};
use std::rc::Rc;
use vstd::prelude::*;

verus! {

broadcast use crate::diag::lemma_extends_trans;

/// A machine integer type.
#[verifier::opaque]
pub open spec fn spec_int_type(signed: bool, width: u32) -> Doc
{
    spec_text_doc(spec_cat3(if signed {
                spec_lit("Int")
            } else {
                spec_lit("UInt")
            }, spec_width_text(width), spec_lit(".t")))
}

/// A machine integer type.
pub fn int_type(signed: bool, width: u32) -> (out: Doc)
    ensures
        out == spec_int_type(signed, width),
{
    proof {
        reveal(spec_int_type);
    }
    text_doc(cat3(if signed { lit("Int") } else { lit("UInt") }, width_text(width), lit(".t")))
}

/// The zero of a machine integer type.
#[verifier::opaque]
pub open spec fn spec_int_zero(signed: bool, width: u32) -> Doc
{
    if signed {
        spec_parens(spec_text_doc(spec_cat3(spec_lit("Int"), spec_width_text(width), spec_lit(".int_to_t 0"))))
    } else {
        spec_parens(spec_text_doc(spec_cat3(spec_lit("UInt"), spec_width_text(width), spec_lit(".uint_to_t 0"))))
    }
}

/// The zero of a machine integer type.
pub fn int_zero(signed: bool, width: u32) -> (out: Doc)
    ensures
        out == spec_int_zero(signed, width),
{
    proof {
        reveal(spec_int_zero);
    }
    if signed {
        parens(text_doc(cat3(lit("Int"), width_text(width), lit(".int_to_t 0"))))
    } else {
        parens(text_doc(cat3(lit("UInt"), width_text(width), lit(".uint_to_t 0"))))
    }
}

/// The null pointer of a kind.
#[verifier::opaque]
pub open spec fn spec_null_of(kind: PointerKind) -> Doc
{
    match kind {
        PointerKind::Ref | PointerKind::Unknown => spec_txt("null"),
        PointerKind::Array | PointerKind::ArrayPtr => spec_txt("array_null"),
        PointerKind::Core => spec_txt("core_null"),
    }
}

/// The null pointer of a kind.
pub fn null_of(kind: PointerKind) -> (out: Doc)
    ensures
        out == spec_null_of(kind),
{
    proof {
        reveal(spec_null_of);
    }
    match kind {
        PointerKind::Ref | PointerKind::Unknown => txt("null"),
        PointerKind::Array | PointerKind::ArrayPtr => txt("array_null"),
        PointerKind::Core => txt("core_null"),
    }
}

/// The null function pointer of any type.
#[verifier::opaque]
pub open spec fn spec_null_fnptr() -> Doc
{
    spec_naryfn(spec_l3(spec_txt("Pulse.Lib.C.FuncPtr.null"), spec_txt("_"), spec_txt("_")))
}

/// The null function pointer of any type.
pub fn null_fnptr() -> (out: Doc)
    ensures
        out == spec_null_fnptr(),
{
    proof {
        reveal(spec_null_fnptr);
    }
    naryfn(&l3(txt("Pulse.Lib.C.FuncPtr.null"), txt("_"), txt("_")))
}

/// The machine width of an unsigned type, if it is one.
#[verifier::opaque]
pub open spec fn spec_unsigned_width(env: Env, ty: Rc<Type>) -> Option<u32>
{
    match spec_vtype_whnf(env, ty).val {
        TypeT::Int { signed: false, width } => Some(width),
        _ => None,
    }
}

/// The machine width of an unsigned type, if it is one.
pub fn unsigned_width(env: &Env, ty: &Rc<Type>) -> (out: Option<u32>)
    ensures
        out == spec_unsigned_width(*env, *ty),
{
    proof {
        reveal(spec_unsigned_width);
    }
    match &vtype_whnf(env, ty).val {
        TypeT::Int { signed: false, width } => Some(*width),
        _ => None,
    }
}

/// The keyword of a helper in inline code.
#[verifier::opaque]
pub open spec fn spec_aux_keyword(kind: AuxFnKind) -> &'static str
{
    match kind {
        AuxFnKind::Unfolded => "unfolded",
        AuxFnKind::Unfold => "unfold",
        AuxFnKind::Fold => "fold",
        AuxFnKind::UnfoldUninit => "unfold_uninit",
        AuxFnKind::FoldUninit => "fold_uninit",
        AuxFnKind::Activate => "activate",
    }
}

/// The keyword of a helper in inline code.
pub fn aux_keyword(kind: AuxFnKind) -> (out: &'static str)
    ensures
        out == spec_aux_keyword(kind),
{
    proof {
        reveal(spec_aux_keyword);
    }
    match kind {
        AuxFnKind::Unfolded => "unfolded",
        AuxFnKind::Unfold => "unfold",
        AuxFnKind::Fold => "fold",
        AuxFnKind::UnfoldUninit => "unfold_uninit",
        AuxFnKind::FoldUninit => "fold_uninit",
        AuxFnKind::Activate => "activate",
    }
}

/// The helper of a struct that a keyword names.
#[verifier::opaque]
pub open spec fn spec_struct_aux_name(kind: AuxFnKind) -> Option<&'static str>
{
    match kind {
        AuxFnKind::Unfolded => Some("raw_unfolded"),
        AuxFnKind::Unfold => Some("raw_unfold"),
        AuxFnKind::Fold => Some("raw_fold"),
        AuxFnKind::UnfoldUninit => Some("raw_unfold_uninit"),
        AuxFnKind::FoldUninit => Some("raw_fold_uninit"),
        AuxFnKind::Activate => None,
    }
}

/// The helper of a struct that a keyword names.
pub fn struct_aux_name(kind: AuxFnKind) -> (out: Option<&'static str>)
    ensures
        out == spec_struct_aux_name(kind),
{
    proof {
        reveal(spec_struct_aux_name);
    }
    match kind {
        AuxFnKind::Unfolded => Some("raw_unfolded"),
        AuxFnKind::Unfold => Some("raw_unfold"),
        AuxFnKind::Fold => Some("raw_fold"),
        AuxFnKind::UnfoldUninit => Some("raw_unfold_uninit"),
        AuxFnKind::FoldUninit => Some("raw_fold_uninit"),
        AuxFnKind::Activate => None,
    }
}

/// The helper of a union's arm that a keyword names.
#[verifier::opaque]
pub open spec fn spec_union_aux_name(kind: AuxFnKind) -> Option<&'static str>
{
    match kind {
        AuxFnKind::Unfolded => Some("raw_unfolded"),
        AuxFnKind::Unfold => Some("raw_unfold"),
        AuxFnKind::Fold => Some("raw_fold"),
        AuxFnKind::UnfoldUninit | AuxFnKind::FoldUninit | AuxFnKind::Activate => None,
    }
}

/// The helper of a union's arm that a keyword names.
pub fn union_aux_name(kind: AuxFnKind) -> (out: Option<&'static str>)
    ensures
        out == spec_union_aux_name(kind),
{
    proof {
        reveal(spec_union_aux_name);
    }
    match kind {
        AuxFnKind::Unfolded => Some("raw_unfolded"),
        AuxFnKind::Unfold => Some("raw_unfold"),
        AuxFnKind::Fold => Some("raw_fold"),
        AuxFnKind::UnfoldUninit | AuxFnKind::FoldUninit | AuxFnKind::Activate => None,
    }
}

/// The F* type of a C type.
///
/// As the state that [`Emitter::emit_type`] leaves, with its result.
pub open spec fn spec_emit_type(st: Emitter, env: Env, ty: Rc<Type>) -> (Emitter, Doc)
    decreases ty, 1nat,
{
    let (st, d) = match ty.val {
        TypeT::Void => (st, spec_txt("unit")),
        TypeT::Int { signed, width } => (st, spec_int_type(signed, width)),
        TypeT::Float { width } => {
            if width == 32 {
                (st, spec_txt("Pulse.Lib.C.float32"))
            } else {
                if width == 64 {
                    (st, spec_txt("Pulse.Lib.C.float64"))
                } else {
                    let st = spec_report(st, spec_cat(spec_lit("unsupported floating-point width "), spec_width_text(width)), ty.loc);
                    (st, spec_txt("unit"))
                }
            }
        },
        TypeT::Bool => (st, spec_txt("bool")),
        TypeT::SizeT => (st, spec_txt("SizeT.t")),
        TypeT::PtrdiffT => (st, spec_txt("Pulse.Lib.C.PtrdiffT.t")),
        TypeT::Pointer(to, kind) => {
            match kind {
                PointerKind::Array | PointerKind::ArrayPtr => {
                    let (st, v2) = spec_emit_type(st, env, to);
                    (st, spec_unaryfn(spec_txt("array"), v2))
                },
                PointerKind::Ref | PointerKind::Unknown => {
                    let (st, v3) = spec_emit_type(st, env, to);
                    (st, spec_unaryfn(spec_txt("ref"), v3))
                },
                PointerKind::Core => (st, spec_txt("core_ref")),
            }
        },
        TypeT::FixedArray(elem_ty, len) => {
            let (st, v4) = spec_emit_type(st, env, elem_ty);
            (st, spec_naryfn(spec_l3(spec_txt("full_array_lspec"), v4, spec_text_doc(spec_num(len)))))
        },
        TypeT::FlexArray(elem_ty) => {
            let (st, v5) = spec_emit_type(st, env, elem_ty);
            (st, spec_unaryfn(spec_txt("full_array_spec"), v5))
        },
        TypeT::Unknown => (st, spec_txt("unit")),
        TypeT::Error => (st, spec_txt("unit")),
        TypeT::FnPtr { args, ret } => {
            let (st, domain) = spec_fnptr_domain(st, env, args);
            let (st, range) = spec_emit_type(st, env, ret);
            (st, spec_naryfn(spec_l3(spec_txt("Pulse.Lib.C.FuncPtr.func_ptr"), domain, range)))
        },
        TypeT::TypeRef(n) => spec_emit_name(st, Name::TypeRef(spec_type_ref(n))),
        TypeT::SLProp => (st, spec_txt("slprop")),
        TypeT::SpecInt => (st, spec_txt("int")),
        TypeT::SpecNat => (st, spec_txt("nat")),
        TypeT::Refine(t, _) | TypeT::RefineAlways(t, _) | TypeT::RefineUninit(t, _) => spec_emit_type(st, env, t),
        TypeT::RefineValue(t, _, _, _) => spec_emit_type(st, env, t),
        TypeT::Plain(t) | TypeT::Nullable(t) => spec_emit_type(st, env, t),
    };
    (st, spec_annotated(ty.loc, d))
}

/// The F* types of C types.
///
/// As the state that [`Emitter::emit_types`] leaves, with its result.
pub open spec fn spec_emit_types(
    st: Emitter,
    env: Env,
    l: Rc<List<Type>>,
) -> (Emitter, Rc<List<DocT>>)
    decreases l, 0nat,
{
    match *l {
        List::Nil => (st, spec_nil()),
        List::Cons(h, t) => {
            let (st, d) = spec_emit_type(st, env, h);
            let (st, v2) = spec_emit_types(st, env, t);
            (st, spec_cons(d, v2))
        },
    }
}

/// The domain of a function pointer with the given argument types.
///
/// As the state that [`Emitter::fnptr_domain`] leaves, with its result.
pub open spec fn spec_fnptr_domain(st: Emitter, env: Env, args: Rc<List<Type>>) -> (Emitter, Doc)
    decreases args, 1nat,
{
    let (st, v1) = spec_emit_types(st, env, args);
    (st, spec_fnptr_domain_doc(v1))
}

/// The value of a C type whose bits are all zero.
///
/// As the state that [`Emitter::emit_type_default`] leaves, with its result.
pub open spec fn spec_emit_type_default(st: Emitter, env: Env, ty: Rc<Type>) -> (Emitter, Doc)
    decreases ty,
{
    match ty.val {
        TypeT::Int { signed, width } => (st, spec_int_zero(signed, width)),
        TypeT::Float { width: 32 } => (st, spec_txt("Pulse.Lib.C.float32_zero")),
        TypeT::Float { width: 64 } => (st, spec_txt("Pulse.Lib.C.float64_zero")),
        TypeT::Bool => (st, spec_txt("false")),
        TypeT::SizeT => (st, spec_txt("0sz")),
        TypeT::Pointer(_, kind) => {
            match kind {
                PointerKind::Ref | PointerKind::Unknown => (st, spec_txt("null")),
                PointerKind::Core => (st, spec_txt("core_null")),
                PointerKind::Array | PointerKind::ArrayPtr => (st, spec_txt("zero_default")),
            }
        },
        TypeT::FixedArray(elem_ty, length) => {
            let (st, elem) = spec_emit_type(st, env, elem_ty);
            let (st, zero) = spec_emit_type_default(st, env, elem_ty);
            (st, spec_parens(spec_naryfn(spec_l4(spec_txt("array_spec_zeroed"), elem, spec_parens(spec_text_doc(spec_cat3(spec_lit("SizeT.v "), spec_num(length), spec_lit("sz")))), zero))))
        },
        TypeT::FlexArray(elem_ty) => {
            let (st, elem) = spec_emit_type(st, env, elem_ty);
            let (st, zero) = spec_emit_type_default(st, env, elem_ty);
            (st, spec_parens(spec_naryfn(spec_l4(spec_txt("array_spec_zeroed"), elem, spec_txt("0"), zero))))
        },
        TypeT::Void => (st, spec_txt("()")),
        TypeT::TypeRef(_) => (st, spec_txt("zero_default")),
        TypeT::FnPtr { args, ret } => {
            let (st, domain) = spec_fnptr_domain(st, env, args);
            let (st, range) = spec_emit_type(st, env, ret);
            (st, spec_naryfn(spec_l3(spec_txt("Pulse.Lib.C.FuncPtr.null"), domain, range)))
        },
        TypeT::Refine(t, _) | TypeT::RefineAlways(t, _) | TypeT::RefineUninit(t, _) => spec_emit_type_default(st, env, t),
        TypeT::RefineValue(t, _, _, _) => spec_emit_type_default(st, env, t),
        TypeT::Plain(t) | TypeT::Nullable(t) => spec_emit_type_default(st, env, t),
        _ => {
            let st = spec_report(st, spec_cat(spec_lit("no zero default for type "), spec_show_type(ty)), ty.loc);
            (st, spec_txt("(admit())"))
        },
    }
}

/// The zero value of a field. A bit-field's cell has a refined machine type, so its zero is
/// that of the machine type.
///
/// As the state that [`Emitter::emit_field_default`] leaves, with its result.
#[verifier::opaque]
pub open spec fn spec_emit_field_default(st: Emitter, env: Env, f: Rc<Field>) -> (Emitter, Doc)
{
    match f.val {
        FieldT::Plain { ty, .. } => spec_emit_type_default(st, env, ty),
        FieldT::BitField { ty, .. } => spec_emit_type_default(st, env, spec_vtype_whnf(env, ty)),
    }
}

/// The refined machine type of an unsigned bit-field: `(v:UIntW.t{UIntW.v v < pow2 N})`.
///
/// As the state that [`Emitter::emit_bitfield_value_type`] leaves, with its result.
#[verifier::opaque]
pub open spec fn spec_emit_bitfield_value_type(
    st: Emitter,
    env: Env,
    ty: Rc<Type>,
    width: u32,
) -> (Emitter, Doc)
{
    let (st, base) = spec_emit_type(st, env, ty);
    let modu = match spec_unsigned_width(env, ty) {
        Some(w) => spec_get_int_mod(false, w),
        None => None,
    };
    match modu {
        Some(m) => (st, spec_parens(spec_d5(spec_txt("v:"), spec_line(), base, spec_line(), spec_text_doc(spec_cat5(spec_lit("{"), spec_lit(m), spec_lit(".v v < pow2 "), spec_width_text(width), spec_lit("}")))))),
        None => (st, base),
    }
}

/// The type of a field in a record.
///
/// As the state that [`Emitter::emit_field_record_type`] leaves, with its result.
#[verifier::opaque]
pub open spec fn spec_emit_field_record_type(st: Emitter, env: Env, f: Rc<Field>) -> (Emitter, Doc)
{
    match f.val {
        FieldT::Plain { ty, .. } => spec_emit_type(st, env, ty),
        FieldT::BitField { ty, width, .. } => spec_emit_bitfield_value_type(st, env, ty, width),
    }
}

/// The type of the projection of a field: the handle of an array stored in place, with its
/// length where that is known, and a `ref` for any other field.
///
/// As the state that [`Emitter::emit_field_projection_type`] leaves, with its result.
#[verifier::opaque]
pub open spec fn spec_emit_field_projection_type(
    st: Emitter,
    env: Env,
    f: Rc<Field>,
) -> (Emitter, Doc)
{
    match spec_field_flex_info(f) {
        Some(flex) => {
            let (st, v1) = spec_emit_type(st, env, flex.elem);
            (st, spec_unaryfn(spec_txt("array"), v1))
        },
        None => {
            match spec_field_fixed_info(f) {
                Some(fixed) => {
                    let (st, v2) = spec_emit_type(st, env, fixed.elem);
                    let handle = spec_unaryfn(spec_txt("array"), v2);
                    (st, spec_parens(spec_d5(spec_txt("a:"), spec_line(), handle, spec_line(), spec_text_doc(spec_cat3(spec_lit("{ length a == "), spec_num(fixed.len), spec_lit(" }"))))))
                },
                None => {
                    let (st, v3) = spec_emit_field_record_type(st, env, f);
                    (st, spec_unaryfn(spec_txt("ref"), v3))
                },
            }
        },
    }
}

impl Emitter {
    /// The F* type of a C type.
    pub fn emit_type(&mut self, env: &Env, ty: &Rc<Type>) -> (out: Doc)
        ensures
            (*final(self), out) == spec_emit_type(*old(self), *env, *ty),
            extends(final(self).diags, old(self).diags),
            final(self).fn_module_map == old(self).fn_module_map,
            final(self).typedef_override_map == old(self).typedef_override_map,
        decreases ty, 1nat,
    {
        let d = match &ty.val {
            TypeT::Void => txt("unit"),
            TypeT::Int { signed, width } => int_type(*signed, *width),
            TypeT::Float { width } => if *width == 32 {
                txt("Pulse.Lib.C.float32")
            } else if *width == 64 {
                txt("Pulse.Lib.C.float64")
            } else {
                self.report(cat(lit("unsupported floating-point width "), width_text(*width)), &ty.loc);
                txt("unit")
            },
            TypeT::Bool => txt("bool"),
            TypeT::SizeT => txt("SizeT.t"),
            TypeT::PtrdiffT => txt("Pulse.Lib.C.PtrdiffT.t"),
            TypeT::Pointer(to, kind) => match kind {
                PointerKind::Array | PointerKind::ArrayPtr => unaryfn(txt("array"), self.emit_type(env, to)),
                PointerKind::Ref | PointerKind::Unknown => unaryfn(txt("ref"), self.emit_type(env, to)),
                // A raw pointer drops the pointee type, so that its type depends on no other.
                PointerKind::Core => txt("core_ref"),
            },
            TypeT::FixedArray(elem_ty, len) => naryfn(&l3(txt("full_array_lspec"), self.emit_type(env, elem_ty), text_doc(num(*len)))),
            TypeT::FlexArray(elem_ty) => unaryfn(txt("full_array_spec"), self.emit_type(env, elem_ty)),
            TypeT::Unknown => txt("unit"),
            TypeT::Error => txt("unit"),
            TypeT::FnPtr { args, ret } => {
                let domain = self.fnptr_domain(env, args);
                let range = self.emit_type(env, ret);
                naryfn(&l3(txt("Pulse.Lib.C.FuncPtr.func_ptr"), domain, range))
            }
            TypeT::TypeRef(n) => self.emit_name(Name::TypeRef(type_ref(n))),
            TypeT::SLProp => txt("slprop"),
            TypeT::SpecInt => txt("int"),
            TypeT::SpecNat => txt("nat"),
            TypeT::Refine(t, _) | TypeT::RefineAlways(t, _) | TypeT::RefineUninit(t, _) => self.emit_type(env, t),
            TypeT::RefineValue(t, _, _, _) => self.emit_type(env, t),
            TypeT::Plain(t) | TypeT::Nullable(t) => self.emit_type(env, t),
        };
        annotated(&ty.loc, d)
    }

    /// The F* types of C types.
    pub fn emit_types(&mut self, env: &Env, l: &Rc<List<Type>>) -> (out: Rc<List<DocT>>)
        ensures
            (*final(self), out) == spec_emit_types(*old(self), *env, *l),
            extends(final(self).diags, old(self).diags),
            final(self).fn_module_map == old(self).fn_module_map,
            final(self).typedef_override_map == old(self).typedef_override_map,
        decreases l, 0nat,
    {
        match &**l {
            List::Nil => nil(),
            List::Cons(h, t) => {
                let d = self.emit_type(env, h);
                cons(d, self.emit_types(env, t))
            }
        }
    }

    /// The domain of a function pointer with the given argument types.
    pub fn fnptr_domain(&mut self, env: &Env, args: &Rc<List<Type>>) -> (out: Doc)
        ensures
            (*final(self), out) == spec_fnptr_domain(*old(self), *env, *args),
            extends(final(self).diags, old(self).diags),
            final(self).fn_module_map == old(self).fn_module_map,
            final(self).typedef_override_map == old(self).typedef_override_map,
        decreases args, 1nat,
    {
        fnptr_domain_doc(&self.emit_types(env, args))
    }

    /// The value of a C type whose bits are all zero.
    pub fn emit_type_default(&mut self, env: &Env, ty: &Rc<Type>) -> (out: Doc)
        ensures
            (*final(self), out) == spec_emit_type_default(*old(self), *env, *ty),
            extends(final(self).diags, old(self).diags),
            final(self).fn_module_map == old(self).fn_module_map,
            final(self).typedef_override_map == old(self).typedef_override_map,
        decreases ty,
    {
        match &ty.val {
            TypeT::Int { signed, width } => int_zero(*signed, *width),
            TypeT::Float { width: 32 } => txt("Pulse.Lib.C.float32_zero"),
            TypeT::Float { width: 64 } => txt("Pulse.Lib.C.float64_zero"),
            TypeT::Bool => txt("false"),
            TypeT::SizeT => txt("0sz"),
            TypeT::Pointer(_, kind) => match kind {
                PointerKind::Ref | PointerKind::Unknown => txt("null"),
                PointerKind::Core => txt("core_null"),
                PointerKind::Array | PointerKind::ArrayPtr => txt("zero_default"),
            },
            TypeT::FixedArray(elem_ty, length) => {
                let elem = self.emit_type(env, elem_ty);
                let zero = self.emit_type_default(env, elem_ty);
                parens(naryfn(&l4(txt("array_spec_zeroed"), elem, parens(text_doc(cat3(lit("SizeT.v "), num(*length), lit("sz")))), zero)))
            }
            // A flexible array member is zeroed to length 0.
            TypeT::FlexArray(elem_ty) => {
                let elem = self.emit_type(env, elem_ty);
                let zero = self.emit_type_default(env, elem_ty);
                parens(naryfn(&l4(txt("array_spec_zeroed"), elem, txt("0"), zero)))
            }
            TypeT::Void => txt("()"),
            TypeT::TypeRef(_) => txt("zero_default"),
            TypeT::FnPtr { args, ret } => {
                let domain = self.fnptr_domain(env, args);
                let range = self.emit_type(env, ret);
                naryfn(&l3(txt("Pulse.Lib.C.FuncPtr.null"), domain, range))
            }
            TypeT::Refine(t, _) | TypeT::RefineAlways(t, _) | TypeT::RefineUninit(t, _) => self.emit_type_default(env, t),
            TypeT::RefineValue(t, _, _, _) => self.emit_type_default(env, t),
            TypeT::Plain(t) | TypeT::Nullable(t) => self.emit_type_default(env, t),
            _ => {
                self.report(cat(lit("no zero default for type "), show_type(ty)), &ty.loc);
                txt("(admit())")
            }
        }
    }

    /// The zero value of a field. A bit-field's cell has a refined machine type, so its zero is
    /// that of the machine type.
    pub fn emit_field_default(&mut self, env: &Env, f: &Rc<Field>) -> (out: Doc)
        ensures
            (*final(self), out) == spec_emit_field_default(*old(self), *env, *f),
            extends(final(self).diags, old(self).diags),
            final(self).fn_module_map == old(self).fn_module_map,
            final(self).typedef_override_map == old(self).typedef_override_map,
    {
        proof {
            reveal(spec_emit_field_default);
        }
        match &f.val {
            FieldT::Plain { ty, .. } => self.emit_type_default(env, ty),
            FieldT::BitField { ty, .. } => self.emit_type_default(env, &vtype_whnf(env, ty)),
        }
    }

    /// The refined machine type of an unsigned bit-field: `(v:UIntW.t{UIntW.v v < pow2 N})`.
    pub fn emit_bitfield_value_type(&mut self, env: &Env, ty: &Rc<Type>, width: u32) -> (out: Doc)
        ensures
            (*final(self), out) == spec_emit_bitfield_value_type(*old(self), *env, *ty, width),
            extends(final(self).diags, old(self).diags),
            final(self).fn_module_map == old(self).fn_module_map,
            final(self).typedef_override_map == old(self).typedef_override_map,
    {
        proof {
            reveal(spec_emit_bitfield_value_type);
        }
        let base = self.emit_type(env, ty);
        let modu = match unsigned_width(env, ty) {
            Some(w) => get_int_mod(false, w),
            None => None,
        };
        match modu {
            Some(m) => parens(d5(txt("v:"), line(), base, line(), text_doc(cat5(lit("{"), lit(m), lit(".v v < pow2 "), width_text(width), lit("}"))))),
            None => base,
        }
    }

    /// The type of a field in a record.
    pub fn emit_field_record_type(&mut self, env: &Env, f: &Rc<Field>) -> (out: Doc)
        ensures
            (*final(self), out) == spec_emit_field_record_type(*old(self), *env, *f),
            extends(final(self).diags, old(self).diags),
            final(self).fn_module_map == old(self).fn_module_map,
            final(self).typedef_override_map == old(self).typedef_override_map,
    {
        proof {
            reveal(spec_emit_field_record_type);
        }
        match &f.val {
            FieldT::Plain { ty, .. } => self.emit_type(env, ty),
            FieldT::BitField { ty, width, .. } => self.emit_bitfield_value_type(env, ty, *width),
        }
    }

    /// The type of the projection of a field: the handle of an array stored in place, with its
    /// length where that is known, and a `ref` for any other field.
    pub fn emit_field_projection_type(&mut self, env: &Env, f: &Rc<Field>) -> (out: Doc)
        ensures
            (*final(self), out) == spec_emit_field_projection_type(*old(self), *env, *f),
            extends(final(self).diags, old(self).diags),
            final(self).fn_module_map == old(self).fn_module_map,
            final(self).typedef_override_map == old(self).typedef_override_map,
    {
        proof {
            reveal(spec_emit_field_projection_type);
        }
        match field_flex_info(f) {
            Some(flex) => unaryfn(txt("array"), self.emit_type(env, &flex.elem)),
            None => match field_fixed_info(f) {
                Some(fixed) => {
                    let handle = unaryfn(txt("array"), self.emit_type(env, &fixed.elem));
                    parens(d5(txt("a:"), line(), handle, line(), text_doc(cat3(lit("{ length a == "), num(fixed.len), lit(" }")))))
                }
                None => unaryfn(txt("ref"), self.emit_field_record_type(env, f)),
            },
        }
    }
}

} // verus!
