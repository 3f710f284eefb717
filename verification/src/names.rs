//! Names of the generated code, and the texts that stand for them.

use crate::list::{
    List, bump, cons, drop_one, l2, l3, l7, list_append, list_len, nil, spec_bump, spec_cons,
    spec_drop_one, spec_l2, spec_l3, spec_l7, spec_list_append, spec_list_len, spec_nil,
};
use crate::text::{
    Rope, Text, cat, cat3, cat4, lit, num, same_text, spec_cat, spec_cat3, spec_cat4, spec_lit,
    spec_num, spec_same_text, spec_text_is, text_is,
};
use crate::ir::TypeRefKind;
use std::rc::Rc;
use vstd::prelude::*;

verus! {

/// A named C type.
pub enum TypeRef {
    Typedef(Text),
    Struct(Text),
    Union(Text),
}

/// What a generated identifier names.
pub enum Name {
    Var(Text),
    /// C labels occupy a separate namespace from ordinary identifiers.
    Label(Text),
    /// The address of a `_pure` global: an assumed `ref` naming its storage,
    /// one per global, so distinct globals get distinct addresses.
    GlobalAddr(Text),
    /// Proof that a global's address is non-NULL.
    GlobalAddrNotNull(Text),
    /// Acquires *read-only* ownership of a global's storage.
    GlobalAcquire(Text),
    Val(Text, u64),
    Perm(Text, u64),
    Fn(Text),
    TypeRef(TypeRef),
    TypeRefPred(TypeRef),
    TypeRefUninitPred(TypeRef),
    TypeRefSpec(TypeRef),
    TypeRefSpecField(TypeRef, Text),
    TypeRefPredUnfold(TypeRef),
    TypeRefPredFold(TypeRef),
    TypeRefSizeofPos(TypeRef),
    StructFieldProj(Text, Text),
    StructDirectFieldName(Text, Text),
    StructGhostFieldProj(Text, Text),
    StructAuxFn(Text, &'static str),
    /// Inverse of the field-address projection.
    StructContainerFn(Text, Text),
    /// Left-inverse lemma tying `StructContainerFn` to `StructGhostFieldProj`.
    StructContainerInv(Text, Text),
    /// Right-inverse lemma: `proj (container r) == r`.
    StructProjContainerInv(Text, Text),
    /// `proj (null #outer) == null #inner` for the member at offset 0.
    StructProjNull(Text, Text),
    UnionFieldConstructor(Text, Text),
    UnionGhostFieldProj(Text, Text),
    UnionFieldProj(Text, Text),
    UnionAuxFn(Text, &'static str, Text),
    /// Ghost axiom that activates a union arm.
    UnionActivateFn(Text, Text),
    TypeRefDefault(TypeRef),
}

/// A name with the text that was picked for it.
pub struct Mangled {
    pub name: Rc<Name>,
    pub text: Text,
}

/// The texts picked so far.
pub struct NameMangling {
    pub map: Rc<List<Mangled>>,
    pub used: Rc<List<Rope>>,
}

/// The type that a reference names.
#[verifier::opaque]
pub open spec fn spec_type_ref(k: TypeRefKind) -> TypeRef
{
    match k {
        TypeRefKind::Typedef(t) => TypeRef::Typedef(t.val),
        TypeRefKind::Struct(s) => TypeRef::Struct(s.val),
        TypeRefKind::Union(u) => TypeRef::Union(u.val),
    }
}

/// The type that a reference names.
pub fn type_ref(k: &TypeRefKind) -> (out: TypeRef)
    ensures
        out == spec_type_ref(*k),
{
    proof {
        reveal(spec_type_ref);
    }
    match k {
        TypeRefKind::Typedef(t) => TypeRef::Typedef(t.val.clone()),
        TypeRefKind::Struct(s) => TypeRef::Struct(s.val.clone()),
        TypeRefKind::Union(u) => TypeRef::Union(u.val.clone()),
    }
}

/// A copy of the reference.
#[verifier::opaque]
pub open spec fn spec_clone_type_ref(t: TypeRef) -> TypeRef
{
    match t {
        TypeRef::Typedef(n) => TypeRef::Typedef(n),
        TypeRef::Struct(n) => TypeRef::Struct(n),
        TypeRef::Union(n) => TypeRef::Union(n),
    }
}

/// A copy of the reference.
pub fn clone_type_ref(t: &TypeRef) -> (out: TypeRef)
    ensures
        out == spec_clone_type_ref(*t),
{
    proof {
        reveal(spec_clone_type_ref);
    }
    match t {
        TypeRef::Typedef(n) => TypeRef::Typedef(n.clone()),
        TypeRef::Struct(n) => TypeRef::Struct(n.clone()),
        TypeRef::Union(n) => TypeRef::Union(n.clone()),
    }
}

/// Whether both name the same type.
#[verifier::opaque]
pub open spec fn spec_same_type_ref(a: TypeRef, b: TypeRef) -> bool
{
    match (a, b) {
        (TypeRef::Typedef(x), TypeRef::Typedef(y)) => spec_same_text(x, y),
        (TypeRef::Struct(x), TypeRef::Struct(y)) => spec_same_text(x, y),
        (TypeRef::Union(x), TypeRef::Union(y)) => spec_same_text(x, y),
        _ => false,
    }
}

/// Whether both name the same type.
pub fn same_type_ref(a: &TypeRef, b: &TypeRef) -> (out: bool)
    ensures
        out == spec_same_type_ref(*a, *b),
{
    proof {
        reveal(spec_same_type_ref);
    }
    match (a, b) {
        (TypeRef::Typedef(x), TypeRef::Typedef(y)) => same_text(x, y),
        (TypeRef::Struct(x), TypeRef::Struct(y)) => same_text(x, y),
        (TypeRef::Union(x), TypeRef::Union(y)) => same_text(x, y),
        _ => false,
    }
}

/// Whether two pairs of texts agree.
#[verifier::opaque]
pub open spec fn spec_same_texts(a: Text, b: Text, c: Text, d: Text) -> bool
{
    spec_same_text(a, b) && spec_same_text(c, d)
}

/// Whether two pairs of texts agree.
pub fn same_texts(a: &Text, b: &Text, c: &Text, d: &Text) -> (out: bool)
    ensures
        out == spec_same_texts(*a, *b, *c, *d),
{
    proof {
        reveal(spec_same_texts);
    }
    same_text(a, b) && same_text(c, d)
}

/// Whether both are the same name.
#[verifier::opaque]
pub open spec fn spec_same_gen_name(a: Rc<Name>, b: Rc<Name>) -> bool
{
    match (*a, *b) {
        (Name::Var(x), Name::Var(y)) => spec_same_text(x, y),
        (Name::Label(x), Name::Label(y)) => spec_same_text(x, y),
        (Name::GlobalAddr(x), Name::GlobalAddr(y)) => spec_same_text(x, y),
        (Name::GlobalAddrNotNull(x), Name::GlobalAddrNotNull(y)) => spec_same_text(x, y),
        (Name::GlobalAcquire(x), Name::GlobalAcquire(y)) => spec_same_text(x, y),
        (Name::Val(x, i), Name::Val(y, j)) => spec_same_text(x, y) && i == j,
        (Name::Perm(x, i), Name::Perm(y, j)) => spec_same_text(x, y) && i == j,
        (Name::Fn(x), Name::Fn(y)) => spec_same_text(x, y),
        (Name::TypeRef(x), Name::TypeRef(y)) => spec_same_type_ref(x, y),
        (Name::TypeRefPred(x), Name::TypeRefPred(y)) => spec_same_type_ref(x, y),
        (Name::TypeRefUninitPred(x), Name::TypeRefUninitPred(y)) => spec_same_type_ref(x, y),
        (Name::TypeRefSpec(x), Name::TypeRefSpec(y)) => spec_same_type_ref(x, y),
        (Name::TypeRefSpecField(x, f), Name::TypeRefSpecField(y, g)) => spec_same_type_ref(x, y) && spec_same_text(f, g),
        (Name::TypeRefPredUnfold(x), Name::TypeRefPredUnfold(y)) => spec_same_type_ref(x, y),
        (Name::TypeRefPredFold(x), Name::TypeRefPredFold(y)) => spec_same_type_ref(x, y),
        (Name::TypeRefSizeofPos(x), Name::TypeRefSizeofPos(y)) => spec_same_type_ref(x, y),
        (Name::StructFieldProj(x, f), Name::StructFieldProj(y, g)) => spec_same_texts(x, y, f, g),
        (Name::StructDirectFieldName(x, f), Name::StructDirectFieldName(y, g)) => spec_same_texts(x, y, f, g),
        (Name::StructGhostFieldProj(x, f), Name::StructGhostFieldProj(y, g)) => spec_same_texts(x, y, f, g),
        (Name::StructAuxFn(x, f), Name::StructAuxFn(y, g)) => spec_same_texts(x, y, spec_lit(f), spec_lit(g)),
        (Name::StructContainerFn(x, f), Name::StructContainerFn(y, g)) => spec_same_texts(x, y, f, g),
        (Name::StructContainerInv(x, f), Name::StructContainerInv(y, g)) => spec_same_texts(x, y, f, g),
        (Name::StructProjContainerInv(x, f), Name::StructProjContainerInv(y, g)) => spec_same_texts(x, y, f, g),
        (Name::StructProjNull(x, f), Name::StructProjNull(y, g)) => spec_same_texts(x, y, f, g),
        (Name::UnionFieldConstructor(x, f), Name::UnionFieldConstructor(y, g)) => spec_same_texts(x, y, f, g),
        (Name::UnionGhostFieldProj(x, f), Name::UnionGhostFieldProj(y, g)) => spec_same_texts(x, y, f, g),
        (Name::UnionFieldProj(x, f), Name::UnionFieldProj(y, g)) => spec_same_texts(x, y, f, g),
        (Name::UnionAuxFn(x, p, f), Name::UnionAuxFn(y, q, g)) => spec_same_texts(x, y, f, g) && spec_same_text(spec_lit(p), spec_lit(q)),
        (Name::UnionActivateFn(x, f), Name::UnionActivateFn(y, g)) => spec_same_texts(x, y, f, g),
        (Name::TypeRefDefault(x), Name::TypeRefDefault(y)) => spec_same_type_ref(x, y),
        _ => false,
    }
}

/// Whether both are the same name.
pub fn same_gen_name(a: &Rc<Name>, b: &Rc<Name>) -> (out: bool)
    ensures
        out == spec_same_gen_name(*a, *b),
{
    proof {
        reveal(spec_same_gen_name);
    }
    match (&**a, &**b) {
        (Name::Var(x), Name::Var(y)) => same_text(x, y),
        (Name::Label(x), Name::Label(y)) => same_text(x, y),
        (Name::GlobalAddr(x), Name::GlobalAddr(y)) => same_text(x, y),
        (Name::GlobalAddrNotNull(x), Name::GlobalAddrNotNull(y)) => same_text(x, y),
        (Name::GlobalAcquire(x), Name::GlobalAcquire(y)) => same_text(x, y),
        (Name::Val(x, i), Name::Val(y, j)) => same_text(x, y) && *i == *j,
        (Name::Perm(x, i), Name::Perm(y, j)) => same_text(x, y) && *i == *j,
        (Name::Fn(x), Name::Fn(y)) => same_text(x, y),
        (Name::TypeRef(x), Name::TypeRef(y)) => same_type_ref(x, y),
        (Name::TypeRefPred(x), Name::TypeRefPred(y)) => same_type_ref(x, y),
        (Name::TypeRefUninitPred(x), Name::TypeRefUninitPred(y)) => same_type_ref(x, y),
        (Name::TypeRefSpec(x), Name::TypeRefSpec(y)) => same_type_ref(x, y),
        (Name::TypeRefSpecField(x, f), Name::TypeRefSpecField(y, g)) => same_type_ref(x, y) && same_text(f, g),
        (Name::TypeRefPredUnfold(x), Name::TypeRefPredUnfold(y)) => same_type_ref(x, y),
        (Name::TypeRefPredFold(x), Name::TypeRefPredFold(y)) => same_type_ref(x, y),
        (Name::TypeRefSizeofPos(x), Name::TypeRefSizeofPos(y)) => same_type_ref(x, y),
        (Name::StructFieldProj(x, f), Name::StructFieldProj(y, g)) => same_texts(x, y, f, g),
        (Name::StructDirectFieldName(x, f), Name::StructDirectFieldName(y, g)) => same_texts(x, y, f, g),
        (Name::StructGhostFieldProj(x, f), Name::StructGhostFieldProj(y, g)) => same_texts(x, y, f, g),
        (Name::StructAuxFn(x, f), Name::StructAuxFn(y, g)) => same_texts(x, y, &lit(f), &lit(g)),
        (Name::StructContainerFn(x, f), Name::StructContainerFn(y, g)) => same_texts(x, y, f, g),
        (Name::StructContainerInv(x, f), Name::StructContainerInv(y, g)) => same_texts(x, y, f, g),
        (Name::StructProjContainerInv(x, f), Name::StructProjContainerInv(y, g)) => same_texts(x, y, f, g),
        (Name::StructProjNull(x, f), Name::StructProjNull(y, g)) => same_texts(x, y, f, g),
        (Name::UnionFieldConstructor(x, f), Name::UnionFieldConstructor(y, g)) => same_texts(x, y, f, g),
        (Name::UnionGhostFieldProj(x, f), Name::UnionGhostFieldProj(y, g)) => same_texts(x, y, f, g),
        (Name::UnionFieldProj(x, f), Name::UnionFieldProj(y, g)) => same_texts(x, y, f, g),
        (Name::UnionAuxFn(x, p, f), Name::UnionAuxFn(y, q, g)) => same_texts(x, y, f, g) && same_text(&lit(p), &lit(q)),
        (Name::UnionActivateFn(x, f), Name::UnionActivateFn(y, g)) => same_texts(x, y, f, g),
        (Name::TypeRefDefault(x), Name::TypeRefDefault(y)) => same_type_ref(x, y),
        _ => false,
    }
}

/// The text of a type's name.
#[verifier::opaque]
pub open spec fn spec_type_ref_text(t: TypeRef) -> Text
{
    match t {
        TypeRef::Struct(n) => spec_cat(spec_lit("struct_"), n),
        TypeRef::Union(n) => spec_cat(spec_lit("union_"), n),
        TypeRef::Typedef(n) => spec_cat(spec_lit("ty_"), n),
    }
}

/// The text of a type's name.
pub fn type_ref_text(t: &TypeRef) -> (out: Text)
    ensures
        out == spec_type_ref_text(*t),
{
    proof {
        reveal(spec_type_ref_text);
    }
    match t {
        TypeRef::Struct(n) => cat(lit("struct_"), n.clone()),
        TypeRef::Union(n) => cat(lit("union_"), n.clone()),
        TypeRef::Typedef(n) => cat(lit("ty_"), n.clone()),
    }
}

/// `struct_`, the struct's name, `infix` and a field's name.
#[verifier::opaque]
pub open spec fn spec_struct_text(s: Text, infix: &'static str, f: Text) -> Text
{
    spec_cat4(spec_lit("struct_"), s, spec_lit(infix), f)
}

/// `struct_`, the struct's name, `infix` and a field's name.
pub fn struct_text(s: &Text, infix: &'static str, f: &Text) -> (out: Text)
    ensures
        out == spec_struct_text(*s, infix, *f),
{
    proof {
        reveal(spec_struct_text);
    }
    cat4(lit("struct_"), s.clone(), lit(infix), f.clone())
}

/// `union_`, the union's name, `infix` and a field's name.
#[verifier::opaque]
pub open spec fn spec_union_text(u: Text, infix: &'static str, f: Text) -> Text
{
    spec_cat4(spec_lit("union_"), u, spec_lit(infix), f)
}

/// `union_`, the union's name, `infix` and a field's name.
pub fn union_text(u: &Text, infix: &'static str, f: &Text) -> (out: Text)
    ensures
        out == spec_union_text(*u, infix, *f),
{
    proof {
        reveal(spec_union_text);
    }
    cat4(lit("union_"), u.clone(), lit(infix), f.clone())
}

/// The text that a name suggests.
#[verifier::opaque]
pub open spec fn spec_name_text(n: Rc<Name>) -> Text
{
    match *n {
        Name::Var(v) => {
            if spec_text_is(v, "this") || spec_text_is(v, "return") {
                v
            } else {
                spec_cat(spec_lit("var_"), v)
            }
        },
        Name::Label(v) => spec_cat(spec_lit("label_"), v),
        Name::GlobalAddr(v) => spec_cat(spec_lit("addr_var_"), v),
        Name::GlobalAddrNotNull(v) => spec_cat3(spec_lit("addr_var_"), v, spec_lit("_not_null")),
        Name::GlobalAcquire(v) => spec_cat(spec_lit("acquire_var_"), v),
        Name::Val(v, idx) => spec_cat4(spec_lit("val_"), v, spec_lit("_"), spec_num(idx)),
        Name::Perm(v, idx) => spec_cat4(spec_lit("p_"), v, spec_lit("_"), spec_num(idx)),
        Name::Fn(v) => spec_cat(spec_lit("func_"), v),
        Name::TypeRef(t) => spec_type_ref_text(t),
        Name::TypeRefPred(t) => spec_cat(spec_type_ref_text(t), spec_lit("__pred")),
        Name::TypeRefPredUnfold(t) => spec_cat(spec_type_ref_text(t), spec_lit("__pred_unfold")),
        Name::TypeRefPredFold(t) => spec_cat(spec_type_ref_text(t), spec_lit("__pred_fold")),
        Name::TypeRefSizeofPos(t) => spec_cat(spec_type_ref_text(t), spec_lit("__sizeof_pos")),
        Name::TypeRefSpec(t) => spec_cat(spec_type_ref_text(t), spec_lit("__spec")),
        Name::TypeRefSpecField(t, fld) => spec_cat3(spec_type_ref_text(t), spec_lit("__spec__"), fld),
        Name::TypeRefUninitPred(t) => spec_cat(spec_type_ref_text(t), spec_lit("__uninit_pred")),
        Name::StructFieldProj(s, fld) => spec_struct_text(s, "__get_", fld),
        Name::StructDirectFieldName(s, fld) => spec_struct_text(s, "__", fld),
        Name::StructGhostFieldProj(s, fld) => spec_struct_text(s, "__", fld),
        Name::StructAuxFn(s, f) => spec_struct_text(s, "__aux_", spec_lit(f)),
        Name::StructContainerFn(s, fld) => spec_cat(spec_struct_text(s, "__", fld), spec_lit("_container")),
        Name::StructContainerInv(s, fld) => spec_cat(spec_struct_text(s, "__", fld), spec_lit("_container_inv")),
        Name::StructProjContainerInv(s, fld) => spec_cat(spec_struct_text(s, "__", fld), spec_lit("_proj_container_inv")),
        Name::StructProjNull(s, fld) => spec_cat(spec_struct_text(s, "__", fld), spec_lit("_proj_null")),
        Name::UnionFieldConstructor(u, fld) => spec_cat4(spec_lit("Field_"), u, spec_lit("__"), fld),
        Name::UnionGhostFieldProj(u, fld) => spec_union_text(u, "__", fld),
        Name::UnionFieldProj(u, fld) => spec_union_text(u, "__get_", fld),
        Name::UnionAuxFn(u, f, fld) => spec_cat3(spec_union_text(u, "__aux_", spec_lit(f)), spec_lit("_"), fld),
        Name::UnionActivateFn(u, fld) => spec_union_text(u, "__activate_", fld),
        Name::TypeRefDefault(t) => spec_cat(spec_lit("has_zero_default_"), spec_type_ref_text(t)),
    }
}

/// The text that a name suggests.
pub fn name_text(n: &Rc<Name>) -> (out: Text)
    ensures
        out == spec_name_text(*n),
{
    proof {
        reveal(spec_name_text);
    }
    match &**n {
        Name::Var(v) => if text_is(v, "this") || text_is(v, "return") { v.clone() } else { cat(lit("var_"), v.clone()) },
        Name::Label(v) => cat(lit("label_"), v.clone()),
        Name::GlobalAddr(v) => cat(lit("addr_var_"), v.clone()),
        Name::GlobalAddrNotNull(v) => cat3(lit("addr_var_"), v.clone(), lit("_not_null")),
        Name::GlobalAcquire(v) => cat(lit("acquire_var_"), v.clone()),
        Name::Val(v, idx) => cat4(lit("val_"), v.clone(), lit("_"), num(*idx)),
        Name::Perm(v, idx) => cat4(lit("p_"), v.clone(), lit("_"), num(*idx)),
        Name::Fn(v) => cat(lit("func_"), v.clone()),
        Name::TypeRef(t) => type_ref_text(t),
        Name::TypeRefPred(t) => cat(type_ref_text(t), lit("__pred")),
        Name::TypeRefPredUnfold(t) => cat(type_ref_text(t), lit("__pred_unfold")),
        Name::TypeRefPredFold(t) => cat(type_ref_text(t), lit("__pred_fold")),
        Name::TypeRefSizeofPos(t) => cat(type_ref_text(t), lit("__sizeof_pos")),
        Name::TypeRefSpec(t) => cat(type_ref_text(t), lit("__spec")),
        Name::TypeRefSpecField(t, fld) => cat3(type_ref_text(t), lit("__spec__"), fld.clone()),
        Name::TypeRefUninitPred(t) => cat(type_ref_text(t), lit("__uninit_pred")),
        Name::StructFieldProj(s, fld) => struct_text(s, "__get_", fld),
        Name::StructDirectFieldName(s, fld) => struct_text(s, "__", fld),
        Name::StructGhostFieldProj(s, fld) => struct_text(s, "__", fld),
        Name::StructAuxFn(s, f) => struct_text(s, "__aux_", &lit(f)),
        Name::StructContainerFn(s, fld) => cat(struct_text(s, "__", fld), lit("_container")),
        Name::StructContainerInv(s, fld) => cat(struct_text(s, "__", fld), lit("_container_inv")),
        Name::StructProjContainerInv(s, fld) => cat(struct_text(s, "__", fld), lit("_proj_container_inv")),
        Name::StructProjNull(s, fld) => cat(struct_text(s, "__", fld), lit("_proj_null")),
        Name::UnionFieldConstructor(u, fld) => cat4(lit("Field_"), u.clone(), lit("__"), fld.clone()),
        Name::UnionGhostFieldProj(u, fld) => union_text(u, "__", fld),
        Name::UnionFieldProj(u, fld) => union_text(u, "__get_", fld),
        Name::UnionAuxFn(u, f, fld) => cat3(union_text(u, "__aux_", &lit(f)), lit("_"), fld.clone()),
        Name::UnionActivateFn(u, fld) => union_text(u, "__activate_", fld),
        Name::TypeRefDefault(t) => cat(lit("has_zero_default_"), type_ref_text(t)),
    }
}

/// The module that defines a named type.
#[verifier::opaque]
pub open spec fn spec_type_ref_module(t: TypeRef) -> Text
{
    match t {
        TypeRef::Struct(n) => spec_cat(spec_lit("Struct_"), n),
        TypeRef::Union(n) => spec_cat(spec_lit("Union_"), n),
        TypeRef::Typedef(n) => spec_cat(spec_lit("Typedef_"), n),
    }
}

/// The module that defines a named type.
pub fn type_ref_module(t: &TypeRef) -> (out: Text)
    ensures
        out == spec_type_ref_module(*t),
{
    proof {
        reveal(spec_type_ref_module);
    }
    match t {
        TypeRef::Struct(n) => cat(lit("Struct_"), n.clone()),
        TypeRef::Union(n) => cat(lit("Union_"), n.clone()),
        TypeRef::Typedef(n) => cat(lit("Typedef_"), n.clone()),
    }
}

/// The module that a name belongs to. Functions are looked up in the declarations instead,
/// and local names belong to no module.
#[verifier::opaque]
pub open spec fn spec_module_for_name(n: Rc<Name>) -> Option<Text>
{
    match *n {
        Name::Fn(_) => None,
        Name::TypeRef(t) | Name::TypeRefPred(t) | Name::TypeRefUninitPred(t) => Some(spec_type_ref_module(t)),
        Name::TypeRefDefault(t) | Name::TypeRefSpec(t) | Name::TypeRefPredUnfold(t) => Some(spec_type_ref_module(t)),
        Name::TypeRefSpecField(t, _) => Some(spec_type_ref_module(t)),
        Name::TypeRefPredFold(t) | Name::TypeRefSizeofPos(t) => Some(spec_type_ref_module(t)),
        Name::StructFieldProj(s, _) | Name::StructDirectFieldName(s, _) => Some(spec_cat(spec_lit("Struct_"), s)),
        Name::StructGhostFieldProj(s, _) => Some(spec_cat(spec_lit("Struct_"), s)),
        Name::StructAuxFn(s, _) => Some(spec_cat(spec_lit("Struct_"), s)),
        Name::StructContainerFn(s, _) | Name::StructContainerInv(s, _) => Some(spec_cat(spec_lit("Struct_"), s)),
        Name::StructProjContainerInv(s, _) | Name::StructProjNull(s, _) => Some(spec_cat(spec_lit("Struct_"), s)),
        Name::UnionFieldConstructor(u, _) | Name::UnionGhostFieldProj(u, _) => Some(spec_cat(spec_lit("Union_"), u)),
        Name::UnionFieldProj(u, _) | Name::UnionActivateFn(u, _) => Some(spec_cat(spec_lit("Union_"), u)),
        Name::UnionAuxFn(u, _, _) => Some(spec_cat(spec_lit("Union_"), u)),
        Name::GlobalAddr(v) | Name::GlobalAddrNotNull(v) | Name::GlobalAcquire(v) => Some(spec_cat(spec_lit("Global_"), v)),
        Name::Var(_) | Name::Label(_) => None,
        Name::Val(_, _) | Name::Perm(_, _) => None,
    }
}

/// The module that a name belongs to. Functions are looked up in the declarations instead,
/// and local names belong to no module.
pub fn module_for_name(n: &Rc<Name>) -> (out: Option<Text>)
    ensures
        out == spec_module_for_name(*n),
{
    proof {
        reveal(spec_module_for_name);
    }
    match &**n {
        Name::Fn(_) => None,
        Name::TypeRef(t) | Name::TypeRefPred(t) | Name::TypeRefUninitPred(t) => Some(type_ref_module(t)),
        Name::TypeRefDefault(t) | Name::TypeRefSpec(t) | Name::TypeRefPredUnfold(t) => Some(type_ref_module(t)),
        Name::TypeRefSpecField(t, _) => Some(type_ref_module(t)),
        Name::TypeRefPredFold(t) | Name::TypeRefSizeofPos(t) => Some(type_ref_module(t)),
        Name::StructFieldProj(s, _) | Name::StructDirectFieldName(s, _) => Some(cat(lit("Struct_"), s.clone())),
        Name::StructGhostFieldProj(s, _) => Some(cat(lit("Struct_"), s.clone())),
        Name::StructAuxFn(s, _) => Some(cat(lit("Struct_"), s.clone())),
        Name::StructContainerFn(s, _) | Name::StructContainerInv(s, _) => Some(cat(lit("Struct_"), s.clone())),
        Name::StructProjContainerInv(s, _) | Name::StructProjNull(s, _) => Some(cat(lit("Struct_"), s.clone())),
        Name::UnionFieldConstructor(u, _) | Name::UnionGhostFieldProj(u, _) => Some(cat(lit("Union_"), u.clone())),
        Name::UnionFieldProj(u, _) | Name::UnionActivateFn(u, _) => Some(cat(lit("Union_"), u.clone())),
        Name::UnionAuxFn(u, _, _) => Some(cat(lit("Union_"), u.clone())),
        Name::GlobalAddr(v) | Name::GlobalAddrNotNull(v) | Name::GlobalAcquire(v) => Some(cat(lit("Global_"), v.clone())),
        Name::Var(_) | Name::Label(_) => None,
        Name::Val(_, _) | Name::Perm(_, _) => None,
    }
}

/// Keywords and library names that no generated identifier may take.
#[verifier::opaque]
pub open spec fn spec_reserved() -> Rc<List<Rope>>
{
    let keywords = spec_list_append(spec_l7(spec_lit("fn"), spec_lit("assume"), spec_lit("requires"), spec_lit("ensures"), spec_lit("preserves"), spec_lit("continue"), spec_lit("break")), spec_l3(spec_lit("label"), spec_lit("goto"), spec_lit("return")));
    let effects = spec_l7(spec_lit("stt"), spec_lit("stt_ghost"), spec_lit("stt_atomic"), spec_lit("ref"), spec_lit("array"), spec_lit("admit"), spec_lit("bool"));
    let types = spec_list_append(spec_l7(spec_lit("unit"), spec_lit("slprop"), spec_lit("emp"), spec_lit("emp_inames"), spec_lit("int"), spec_lit("nat"), spec_lit("not")), spec_l2(spec_lit("pulse_eager_unfold"), spec_lit("pulse_intro")));
    spec_list_append(keywords, spec_list_append(effects, types))
}

/// Keywords and library names that no generated identifier may take.
pub fn reserved() -> (out: Rc<List<Rope>>)
    ensures
        out == spec_reserved(),
{
    proof {
        reveal(spec_reserved);
    }
    let keywords = list_append(
        &l7(lit("fn"), lit("assume"), lit("requires"), lit("ensures"), lit("preserves"), lit("continue"), lit("break")),
        l3(lit("label"), lit("goto"), lit("return")));
    let effects = l7(lit("stt"), lit("stt_ghost"), lit("stt_atomic"), lit("ref"), lit("array"), lit("admit"), lit("bool"));
    let types = list_append(
        &l7(lit("unit"), lit("slprop"), lit("emp"), lit("emp_inames"), lit("int"), lit("nat"), lit("not")),
        l2(lit("pulse_eager_unfold"), lit("pulse_intro")));
    list_append(&keywords, list_append(&effects, types))
}

/// Whether the text is one of the list.
pub open spec fn spec_text_in(l: Rc<List<Rope>>, t: Text) -> bool
    decreases l,
{
    match *l {
        List::Nil => false,
        List::Cons(h, r) => spec_same_text(h, t) || spec_text_in(r, t),
    }
}

/// Whether the text is one of the list.
pub fn text_in(l: &Rc<List<Rope>>, t: &Text) -> (out: bool)
    ensures
        out == spec_text_in(*l, *t),
    decreases l,
{
    match &**l {
        List::Nil => false,
        List::Cons(h, r) => same_text(h, t) || text_in(r, t),
    }
}

/// `base` with the suffix `i`.
#[verifier::opaque]
pub open spec fn spec_numbered(base: Text, i: u64) -> Text
{
    spec_cat3(base, spec_lit("_"), spec_num(i))
}

/// `base` with the suffix `i`.
pub fn numbered(base: &Text, i: u64) -> (out: Text)
    ensures
        out == spec_numbered(*base, i),
{
    proof {
        reveal(spec_numbered);
    }
    cat3(base.clone(), lit("_"), num(i))
}

/// The first of `base_i`, `base_(i+1)`, ... that is not in use; after `fuel` of them that are,
/// the next one.
pub open spec fn spec_pick_numbered(used: Rc<List<Rope>>, base: Text, i: u64, fuel: u64) -> Text
    decreases fuel,
{
    if fuel == 0 || !spec_text_in(used, spec_numbered(base, i)) {
        spec_numbered(base, i)
    } else {
        spec_pick_numbered(used, base, spec_bump(i), spec_drop_one(fuel))
    }
}

/// The first of `base_i`, `base_(i+1)`, ... that is not in use; after `fuel` of them that are,
/// the next one.
pub fn pick_numbered(used: &Rc<List<Rope>>, base: &Text, i: u64, fuel: u64) -> (out: Text)
    ensures
        out == spec_pick_numbered(*used, *base, i, fuel),
    decreases fuel,
{
    if fuel == 0 || !text_in(used, &numbered(base, i)) {
        numbered(base, i)
    } else {
        pick_numbered(used, base, bump(i), drop_one(fuel))
    }
}

/// A text that is not in use: `base` itself, or `base` with the first suffix from 1 on that
/// makes it new.
#[verifier::opaque]
pub open spec fn spec_pick_new(used: Rc<List<Rope>>, base: Text) -> Text
{
    if !spec_text_in(used, base) {
        base
    } else {
        spec_pick_numbered(used, base, 1, spec_list_len(used))
    }
}

/// A text that is not in use: `base` itself, or `base` with the first suffix from 1 on that
/// makes it new.
pub fn pick_new(used: &Rc<List<Rope>>, base: &Text) -> (out: Text)
    ensures
        out == spec_pick_new(*used, *base),
{
    proof {
        reveal(spec_pick_new);
    }
    if !text_in(used, base) {
        base.clone()
    } else {
        pick_numbered(used, base, 1, list_len(used))
    }
}

/// The text picked for a name.
pub open spec fn spec_find_mangled(l: Rc<List<Mangled>>, n: Rc<Name>) -> Option<Text>
    decreases l,
{
    match *l {
        List::Nil => None,
        List::Cons(h, t) => {
            if spec_same_gen_name(h.name, n) {
                Some(h.text)
            } else {
                spec_find_mangled(t, n)
            }
        },
    }
}

/// The text picked for a name.
pub fn find_mangled(l: &Rc<List<Mangled>>, n: &Rc<Name>) -> (out: Option<Text>)
    ensures
        out == spec_find_mangled(*l, *n),
    decreases l,
{
    match &**l {
        List::Nil => None,
        List::Cons(h, t) => if same_gen_name(&h.name, n) { Some(h.text.clone()) } else { find_mangled(t, n) },
    }
}

/// The text that a name would like to have. Constructors of a union's arms start with a
/// capital; every other identifier is in lower case.
#[verifier::opaque]
pub open spec fn spec_wanted_text(n: Rc<Name>) -> Text
{
    match *n {
        Name::UnionFieldConstructor(_, _) => spec_name_text(n),
        _ => Rc::new(Rope::Lower(spec_name_text(n))),
    }
}

/// The text that a name would like to have. Constructors of a union's arms start with a
/// capital; every other identifier is in lower case.
pub fn wanted_text(n: &Rc<Name>) -> (out: Text)
    ensures
        out == spec_wanted_text(*n),
{
    proof {
        reveal(spec_wanted_text);
    }
    match &**n {
        Name::UnionFieldConstructor(_, _) => name_text(n),
        _ => Rc::new(Rope::Lower(name_text(n))),
    }
}

/// The texts picked, with `t` for a name besides.
#[verifier::opaque]
pub open spec fn spec_bind(nm: NameMangling, n: Rc<Name>, t: Text) -> NameMangling
{
    NameMangling { used: spec_cons(t, nm.used), map: spec_cons(Rc::new(Mangled { name: n, text: t }), nm.map) }
}

/// The texts picked, with `t` for a name besides.
pub fn bind(nm: &NameMangling, n: Rc<Name>, t: Text) -> (out: NameMangling)
    ensures
        out == spec_bind(*nm, n, t),
{
    proof {
        reveal(spec_bind);
    }
    NameMangling {
        used: cons(t.clone(), nm.used.clone()),
        map: cons(Rc::new(Mangled { name: n, text: t }), nm.map.clone()),
    }
}

/// The text of a name: the one that it got before, or a new one, which is then taken.
#[verifier::opaque]
pub open spec fn spec_mangle(nm: NameMangling, n: Rc<Name>) -> (NameMangling, Text)
{
    match spec_find_mangled(nm.map, n) {
        Some(t) => (NameMangling { map: nm.map, used: nm.used }, t),
        None => {
            let t = spec_pick_new(nm.used, spec_wanted_text(n));
            (spec_bind(nm, n, t), t)
        },
    }
}

/// The text of a name: the one that it got before, or a new one, which is then taken.
pub fn mangle(nm: &NameMangling, n: &Rc<Name>) -> (out: (NameMangling, Text))
    ensures
        out == spec_mangle(*nm, *n),
{
    proof {
        reveal(spec_mangle);
    }
    match find_mangled(&nm.map, n) {
        Some(t) => (NameMangling { map: nm.map.clone(), used: nm.used.clone() }, t),
        None => {
            let t = pick_new(&nm.used, &wanted_text(n));
            (bind(nm, n.clone(), t.clone()), t)
        }
    }
}

/// No text picked yet.
#[verifier::opaque]
pub open spec fn spec_new_mangling() -> NameMangling
{
    NameMangling { map: spec_nil(), used: spec_reserved() }
}

/// No text picked yet.
pub fn new_mangling() -> (out: NameMangling)
    ensures
        out == spec_new_mangling(),
{
    proof {
        reveal(spec_new_mangling);
    }
    NameMangling { map: nil(), used: reserved() }
}

} // verus!
