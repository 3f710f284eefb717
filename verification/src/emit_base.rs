//! The state of the emitter, and the shapes that generated code is made of.

use crate::list::{
    List, bump, cons, drop_one, l1, list_append, list_is_empty, nil, spec_bump, spec_cons,
    spec_drop_one, spec_l1, spec_list_append, spec_list_is_empty, spec_nil,
};
use crate::text::{
    IntValue, Rope, Text, cat, cat3, cat4, cat5, int_is_negative, lit, num, same_text, spec_cat,
    spec_cat3, spec_cat4, spec_cat5, spec_int_is_negative, spec_lit, spec_num, spec_same_text,
    spec_width_text, width_text,
};
use crate::ir::{
    BinOp, Decl, DeclT, Expr, ExprT, FnDecl, FnDefn, GlobalVar, IncludeDecl, LetDecl, Loc,
    OpaqueTypeDecl, PointerKind, Stmt, StructDefn, Type, TypeT, UnOp, UnionDefn,
};
use crate::diag::{Diagnostic, extends, mk_error, spec_mk_error};
use crate::doc::{
    Doc, DocT, d2, d3, d4, d5, group, intersperse, line, lines_before, nest, nil_doc, parens,
    parens_all, space, spec_d2, spec_d3, spec_d4, spec_d5, spec_group, spec_intersperse,
    spec_line, spec_lines_before, spec_nest, spec_nil_doc, spec_parens, spec_parens_all,
    spec_space, spec_text_doc, spec_txt, spec_unaryfn, text_doc, txt, unaryfn,
};
use crate::env::{Env, spec_vtype_whnf, vtype_whnf};
use crate::names::{
    Name, NameMangling, TypeRef, mangle, module_for_name, same_type_ref, spec_mangle,
    spec_module_for_name, spec_same_type_ref, spec_type_ref_module, type_ref_module,
};
use std::rc::Rc;
use vstd::prelude::*;

verus! {

broadcast use crate::diag::lemma_extends_trans;

/// The module that a name of the translation unit belongs to.
pub struct ModuleEntry {
    pub name: Text,
    pub module: Text,
}

/// The types of the ghost values that a named type's predicate takes.
pub struct ValParams {
    pub key: TypeRef,
    pub types: Rc<List<DocT>>,
}

/// What emission carries from one declaration to the next.
pub struct Emitter {
    pub nm: NameMangling,
    pub diags: Rc<List<Diagnostic>>,
    pub type_val_params: Rc<List<ValParams>>,
    pub type_uninit_val_params: Rc<List<ValParams>>,
    /// The struct whose predicate is being emitted: its pointers to itself are not followed.
    pub defining_struct: Option<Text>,
    /// The module being emitted: names of other modules are qualified.
    pub current_module: Text,
    pub fn_module_map: Rc<List<ModuleEntry>>,
    pub typedef_override_map: Rc<List<ModuleEntry>>,
    /// Whether the function being emitted is `_total`.
    pub current_fn_total: bool,
    pub tmp_counter: u64,
}

/// A ghost value that a predicate speaks of.
pub struct ExBinding {
    pub name: Doc,
    pub ty: Doc,
}

/// The module that holds a function's wrapper for use through pointers.
#[verifier::opaque]
pub open spec fn spec_funcptr_module_name(g: Text) -> Text
{
    spec_cat(spec_lit("Funcptr_"), g)
}

/// The module that holds a function's wrapper for use through pointers.
pub fn funcptr_module_name(g: &Text) -> (out: Text)
    ensures
        out == spec_funcptr_module_name(*g),
{
    proof {
        reveal(spec_funcptr_module_name);
    }
    cat(lit("Funcptr_"), g.clone())
}

/// The suffix of a machine integer's literals.
#[verifier::opaque]
pub open spec fn spec_machine_int_suffix(signed: bool, width: u32) -> Option<&'static str>
{
    match (signed, width) {
        (true, 8) => Some("y"),
        (false, 8) => Some("uy"),
        (true, 16) => Some("s"),
        (false, 16) => Some("us"),
        (true, 32) => Some("l"),
        (false, 32) => Some("ul"),
        (true, 64) => Some("L"),
        (false, 64) => Some("UL"),
        _ => None,
    }
}

/// The suffix of a machine integer's literals.
pub fn machine_int_suffix(signed: bool, width: u32) -> (out: Option<&'static str>)
    ensures
        out == spec_machine_int_suffix(signed, width),
{
    proof {
        reveal(spec_machine_int_suffix);
    }
    match (signed, width) {
        (true, 8) => Some("y"),
        (false, 8) => Some("uy"),
        (true, 16) => Some("s"),
        (false, 16) => Some("us"),
        (true, 32) => Some("l"),
        (false, 32) => Some("ul"),
        (true, 64) => Some("L"),
        (false, 64) => Some("UL"),
        _ => None,
    }
}

/// A literal of a machine integer type. An unsigned one is reduced to its width.
#[verifier::opaque]
pub open spec fn spec_emit_machine_int_literal(val: Rc<IntValue>, signed: bool, width: u32) -> Doc
{
    let value = if signed {
        Rc::new(Rope::Int(val))
    } else {
        Rc::new(Rope::IntMod(val, width))
    };
    match spec_machine_int_suffix(signed, width) {
        None => {
            if signed {
                spec_text_doc(spec_cat5(spec_lit("(Int"), spec_width_text(width), spec_lit(".int_to_t "), value, spec_lit(")")))
            } else {
                spec_text_doc(spec_cat5(spec_lit("(UInt"), spec_width_text(width), spec_lit(".uint_to_t "), value, spec_lit(")")))
            }
        },
        Some(suffix) => {
            let literal = spec_text_doc(spec_cat(value, spec_lit(suffix)));
            if signed && spec_int_is_negative(val) {
                spec_parens(literal)
            } else {
                literal
            }
        },
    }
}

/// A literal of a machine integer type. An unsigned one is reduced to its width.
pub fn emit_machine_int_literal(val: &Rc<IntValue>, signed: bool, width: u32) -> (out: Doc)
    ensures
        out == spec_emit_machine_int_literal(*val, signed, width),
{
    proof {
        reveal(spec_emit_machine_int_literal);
    }
    let value = if signed { Rc::new(Rope::Int(val.clone())) } else { Rc::new(Rope::IntMod(val.clone(), width)) };
    match machine_int_suffix(signed, width) {
        None => if signed {
            text_doc(cat5(lit("(Int"), width_text(width), lit(".int_to_t "), value, lit(")")))
        } else {
            text_doc(cat5(lit("(UInt"), width_text(width), lit(".uint_to_t "), value, lit(")")))
        },
        Some(suffix) => {
            let literal = text_doc(cat(value, lit(suffix)));
            if signed && int_is_negative(val) { parens(literal) } else { literal }
        }
    }
}

/// The module for a declaration.
#[verifier::opaque]
pub open spec fn spec_module_text(decl: Rc<Decl>) -> Text
{
    match decl.val {
        DeclT::FnDefn(d) => spec_cat(spec_lit("Func_"), d.decl.name.val),
        DeclT::FnDecl(d) => spec_cat(spec_lit("Func_"), d.name.val),
        DeclT::Typedef(d) => spec_cat(spec_lit("Typedef_"), d.name.val),
        DeclT::StructDefn(d) => spec_cat(spec_lit("Struct_"), d.name.val),
        DeclT::StructDecl(n) => spec_cat(spec_lit("Struct_"), n.val),
        DeclT::UnionDefn(d) => spec_cat(spec_lit("Union_"), d.name.val),
        DeclT::IncludeDecl(d) => d.module_name,
        DeclT::LetDecl(d) => spec_cat(spec_lit("Let_"), d.name.val),
        DeclT::OpaqueTypeDecl(d) => spec_cat(spec_lit("Type_"), d.name.val),
        DeclT::GlobalVar(d) => spec_cat(spec_lit("Global_"), d.name.val),
    }
}

/// The module for a declaration.
pub fn module_text(decl: &Rc<Decl>) -> (out: Text)
    ensures
        out == spec_module_text(*decl),
{
    proof {
        reveal(spec_module_text);
    }
    match &decl.val {
        DeclT::FnDefn(d) => cat(lit("Func_"), d.decl.name.val.clone()),
        DeclT::FnDecl(d) => cat(lit("Func_"), d.name.val.clone()),
        DeclT::Typedef(d) => cat(lit("Typedef_"), d.name.val.clone()),
        DeclT::StructDefn(d) => cat(lit("Struct_"), d.name.val.clone()),
        DeclT::StructDecl(n) => cat(lit("Struct_"), n.val.clone()),
        DeclT::UnionDefn(d) => cat(lit("Union_"), d.name.val.clone()),
        DeclT::IncludeDecl(d) => d.module_name.clone(),
        DeclT::LetDecl(d) => cat(lit("Let_"), d.name.val.clone()),
        DeclT::OpaqueTypeDecl(d) => cat(lit("Type_"), d.name.val.clone()),
        DeclT::GlobalVar(d) => cat(lit("Global_"), d.name.val.clone()),
    }
}

/// The C name of a declaration.
#[verifier::opaque]
pub open spec fn spec_decl_text(decl: Rc<Decl>) -> Text
{
    match decl.val {
        DeclT::FnDefn(d) => d.decl.name.val,
        DeclT::FnDecl(d) => d.name.val,
        DeclT::Typedef(d) => d.name.val,
        DeclT::StructDefn(d) => d.name.val,
        DeclT::StructDecl(n) => n.val,
        DeclT::UnionDefn(d) => d.name.val,
        DeclT::IncludeDecl(d) => d.module_name,
        DeclT::LetDecl(d) => d.name.val,
        DeclT::OpaqueTypeDecl(d) => d.name.val,
        DeclT::GlobalVar(d) => d.name.val,
    }
}

/// The C name of a declaration.
pub fn decl_text(decl: &Rc<Decl>) -> (out: Text)
    ensures
        out == spec_decl_text(*decl),
{
    proof {
        reveal(spec_decl_text);
    }
    match &decl.val {
        DeclT::FnDefn(d) => d.decl.name.val.clone(),
        DeclT::FnDecl(d) => d.name.val.clone(),
        DeclT::Typedef(d) => d.name.val.clone(),
        DeclT::StructDefn(d) => d.name.val.clone(),
        DeclT::StructDecl(n) => n.val.clone(),
        DeclT::UnionDefn(d) => d.name.val.clone(),
        DeclT::IncludeDecl(d) => d.module_name.clone(),
        DeclT::LetDecl(d) => d.name.val.clone(),
        DeclT::OpaqueTypeDecl(d) => d.name.val.clone(),
        DeclT::GlobalVar(d) => d.name.val.clone(),
    }
}

/// The map with one more entry, which hides an earlier one of the same name.
#[verifier::opaque]
pub open spec fn spec_add_module(
    map: Rc<List<ModuleEntry>>,
    name: Text,
    module: Text,
) -> Rc<List<ModuleEntry>>
{
    spec_cons(Rc::new(ModuleEntry { name, module }), map)
}

/// The map with one more entry, which hides an earlier one of the same name.
pub fn add_module(map: Rc<List<ModuleEntry>>, name: Text, module: Text) -> (out: Rc<List<ModuleEntry>>)
    ensures
        out == spec_add_module(map, name, module),
{
    proof {
        reveal(spec_add_module);
    }
    cons(Rc::new(ModuleEntry { name, module }), map)
}

/// The module of a name.
pub open spec fn spec_find_module(l: Rc<List<ModuleEntry>>, name: Text) -> Option<Text>
    decreases l,
{
    match *l {
        List::Nil => None,
        List::Cons(h, t) => {
            if spec_same_text(h.name, name) {
                Some(h.module)
            } else {
                spec_find_module(t, name)
            }
        },
    }
}

/// The module of a name.
pub fn find_module(l: &Rc<List<ModuleEntry>>, name: &Text) -> (out: Option<Text>)
    ensures
        out == spec_find_module(*l, *name),
    decreases l,
{
    match &**l {
        List::Nil => None,
        List::Cons(h, t) => if same_text(&h.name, name) { Some(h.module.clone()) } else { find_module(t, name) },
    }
}

/// The map with a function and its wrapper. The wrapper lives in a module of its own, which
/// is only emitted when the function's address is taken.
#[verifier::opaque]
pub open spec fn spec_add_fn_modules(
    map: Rc<List<ModuleEntry>>,
    name: Text,
) -> Rc<List<ModuleEntry>>
{
    let m = spec_add_module(map, spec_cat(name, spec_lit("__fp")), spec_funcptr_module_name(name));
    spec_add_module(m, name, spec_cat(spec_lit("Func_"), name))
}

/// The map with a function and its wrapper. The wrapper lives in a module of its own, which
/// is only emitted when the function's address is taken.
pub fn add_fn_modules(map: Rc<List<ModuleEntry>>, name: &Text) -> (out: Rc<List<ModuleEntry>>)
    ensures
        out == spec_add_fn_modules(map, *name),
{
    proof {
        reveal(spec_add_fn_modules);
    }
    let m = add_module(map, cat(name.clone(), lit("__fp")), funcptr_module_name(name));
    add_module(m, name.clone(), cat(lit("Func_"), name.clone()))
}

/// The map with the functions, specification functions, globals and opaque types that a
/// declaration names.
#[verifier::opaque]
pub open spec fn spec_add_decl_modules(
    map: Rc<List<ModuleEntry>>,
    decl: Rc<Decl>,
) -> Rc<List<ModuleEntry>>
{
    match decl.val {
        DeclT::FnDefn(d) => spec_add_fn_modules(map, d.decl.name.val),
        DeclT::FnDecl(d) => spec_add_fn_modules(map, d.name.val),
        DeclT::LetDecl(d) => spec_add_module(map, d.name.val, spec_cat(spec_lit("Let_"), d.name.val)),
        DeclT::OpaqueTypeDecl(d) => spec_add_module(map, d.name.val, spec_cat(spec_lit("Type_"), d.name.val)),
        DeclT::GlobalVar(d) => spec_add_module(map, d.name.val, spec_cat(spec_lit("Global_"), d.name.val)),
        _ => map,
    }
}

/// The map with the functions, specification functions, globals and opaque types that a
/// declaration names.
pub fn add_decl_modules(map: Rc<List<ModuleEntry>>, decl: &Rc<Decl>) -> (out: Rc<List<ModuleEntry>>)
    ensures
        out == spec_add_decl_modules(map, *decl),
{
    proof {
        reveal(spec_add_decl_modules);
    }
    match &decl.val {
        DeclT::FnDefn(d) => add_fn_modules(map, &d.decl.name.val),
        DeclT::FnDecl(d) => add_fn_modules(map, &d.name.val),
        DeclT::LetDecl(d) => add_module(map, d.name.val.clone(), cat(lit("Let_"), d.name.val.clone())),
        DeclT::OpaqueTypeDecl(d) => add_module(map, d.name.val.clone(), cat(lit("Type_"), d.name.val.clone())),
        DeclT::GlobalVar(d) => add_module(map, d.name.val.clone(), cat(lit("Global_"), d.name.val.clone())),
        _ => map,
    }
}

/// The map with the opaque type that a declaration is, if it is one.
#[verifier::opaque]
pub open spec fn spec_add_override(
    map: Rc<List<ModuleEntry>>,
    decl: Rc<Decl>,
) -> Rc<List<ModuleEntry>>
{
    match decl.val {
        DeclT::OpaqueTypeDecl(d) => spec_add_module(map, d.name.val, spec_cat(spec_lit("Type_"), d.name.val)),
        _ => map,
    }
}

/// The map with the opaque type that a declaration is, if it is one.
pub fn add_override(map: Rc<List<ModuleEntry>>, decl: &Rc<Decl>) -> (out: Rc<List<ModuleEntry>>)
    ensures
        out == spec_add_override(map, *decl),
{
    proof {
        reveal(spec_add_override);
    }
    match &decl.val {
        DeclT::OpaqueTypeDecl(d) => add_module(map, d.name.val.clone(), cat(lit("Type_"), d.name.val.clone())),
        _ => map,
    }
}

/// Whether an emitted expression is an F* place or a value.
pub enum ExprKind {
    /// A `ref a`.
    LValue(Doc),
    /// An `array elem`, where the value is an `array_spec elem`.
    ArrayLValue(Doc),
    /// An `a`.
    RValue(Doc),
}

/// The value of an expression: a place is read.
#[verifier::opaque]
pub open spec fn spec_to_rvalue(k: ExprKind) -> Doc
{
    match k {
        ExprKind::LValue(d) => spec_parens(spec_d2(spec_txt("!"), d)),
        ExprKind::ArrayLValue(d) => spec_unaryfn(spec_txt("array_read_all"), d),
        ExprKind::RValue(d) => d,
    }
}

/// The value of an expression: a place is read.
pub fn to_rvalue(k: ExprKind) -> (out: Doc)
    ensures
        out == spec_to_rvalue(k),
{
    proof {
        reveal(spec_to_rvalue);
    }
    match k {
        ExprKind::LValue(d) => parens(d2(txt("!"), d)),
        ExprKind::ArrayLValue(d) => unaryfn(txt("array_read_all"), d),
        ExprKind::RValue(d) => d,
    }
}

/// The value of an expression, with C's decay of an array to its handle.
#[verifier::opaque]
pub open spec fn spec_to_rvalue_decayed(k: ExprKind) -> Doc
{
    match k {
        ExprKind::LValue(d) => spec_parens(spec_d2(spec_txt("!"), d)),
        ExprKind::ArrayLValue(d) => d,
        ExprKind::RValue(d) => d,
    }
}

/// The value of an expression, with C's decay of an array to its handle.
pub fn to_rvalue_decayed(k: ExprKind) -> (out: Doc)
    ensures
        out == spec_to_rvalue_decayed(k),
{
    proof {
        reveal(spec_to_rvalue_decayed);
    }
    match k {
        ExprKind::LValue(d) => parens(d2(txt("!"), d)),
        ExprKind::ArrayLValue(d) => d,
        ExprKind::RValue(d) => d,
    }
}

/// The bare document, whatever it stands for.
#[verifier::opaque]
pub open spec fn spec_into_doc(k: ExprKind) -> Doc
{
    match k {
        ExprKind::LValue(d) => d,
        ExprKind::ArrayLValue(d) => d,
        ExprKind::RValue(d) => d,
    }
}

/// The bare document, whatever it stands for.
pub fn into_doc(k: ExprKind) -> (out: Doc)
    ensures
        out == spec_into_doc(k),
{
    proof {
        reveal(spec_into_doc);
    }
    match k {
        ExprKind::LValue(d) => d,
        ExprKind::ArrayLValue(d) => d,
        ExprKind::RValue(d) => d,
    }
}

/// The array literal inside `e`, looking through a cast if there is one.
#[verifier::opaque]
pub open spec fn spec_array_literal_init(e: Rc<Expr>) -> Option<Rc<Expr>>
{
    match e.val {
        ExprT::ArrayInit { .. } => Some(e),
        ExprT::Cast(inner, _) => {
            if matches!(inner.val, ExprT::ArrayInit { .. }) {
                Some(inner)
            } else {
                None
            }
        },
        _ => None,
    }
}

/// The array literal inside `e`, looking through a cast if there is one.
pub fn array_literal_init(e: &Rc<Expr>) -> (out: Option<Rc<Expr>>)
    ensures
        out == spec_array_literal_init(*e),
{
    proof {
        reveal(spec_array_literal_init);
    }
    match &e.val {
        ExprT::ArrayInit { .. } => Some(e.clone()),
        ExprT::Cast(inner, _) => if matches!(&inner.val, ExprT::ArrayInit { .. }) { Some(inner.clone()) } else { None },
        _ => None,
    }
}

/// The name that the ghost value of an expression's ownership is called after.
pub open spec fn spec_extract_base_ident(this: Rc<Expr>) -> Text
    decreases this,
{
    match this.val {
        ExprT::Var(x) => x.val,
        ExprT::Deref(inner) => spec_extract_base_ident(inner),
        ExprT::Member(_, field) => field.val,
        _ => spec_lit("v"),
    }
}

/// The name that the ghost value of an expression's ownership is called after.
pub fn extract_base_ident(this: &Rc<Expr>) -> (out: Text)
    ensures
        out == spec_extract_base_ident(*this),
    decreases this,
{
    match &this.val {
        ExprT::Var(x) => x.val.clone(),
        ExprT::Deref(inner) => extract_base_ident(inner),
        ExprT::Member(_, field) => field.val.clone(),
        _ => lit("v"),
    }
}

/// `(name: ty)`.
#[verifier::opaque]
pub open spec fn spec_binder(name: Doc, ty: Doc) -> Doc
{
    spec_parens(spec_d4(name, spec_txt(":"), spec_line(), ty))
}

/// `(name: ty)`.
pub fn binder(name: Doc, ty: Doc) -> (out: Doc)
    ensures
        out == spec_binder(name, ty),
{
    proof {
        reveal(spec_binder);
    }
    parens(d4(name, txt(":"), line(), ty))
}

/// Binders, each after a possible line break.
#[verifier::opaque]
pub open spec fn spec_binders_before(l: Rc<List<ExBinding>>) -> Doc
{
    spec_binders_onto(spec_nil_doc(), l)
}

/// Binders, each after a possible line break.
pub fn binders_before(l: &Rc<List<ExBinding>>) -> (out: Doc)
    ensures
        out == spec_binders_before(*l),
{
    proof {
        reveal(spec_binders_before);
    }
    binders_onto(nil_doc(), l)
}

/// Binders after `acc`, each after a possible line break.
pub open spec fn spec_binders_onto(acc: Doc, l: Rc<List<ExBinding>>) -> Doc
    decreases l,
{
    match *l {
        List::Nil => acc,
        List::Cons(b, t) => spec_binders_onto(spec_d2(acc, spec_d2(spec_line(), spec_binder(b.name, b.ty))), t),
    }
}

/// Binders after `acc`, each after a possible line break.
pub fn binders_onto(acc: Doc, l: &Rc<List<ExBinding>>) -> (out: Doc)
    ensures
        out == spec_binders_onto(acc, *l),
    decreases l,
{
    match &**l {
        List::Nil => acc,
        List::Cons(b, t) => binders_onto(d2(acc, d2(line(), binder(b.name.clone(), b.ty.clone()))), t),
    }
}

/// Binders as arguments.
pub open spec fn spec_binder_args(l: Rc<List<ExBinding>>) -> Rc<List<DocT>>
    decreases l,
{
    match *l {
        List::Nil => spec_nil(),
        List::Cons(b, t) => spec_cons(spec_binder(b.name, b.ty), spec_binder_args(t)),
    }
}

/// Binders as arguments.
pub fn binder_args(l: &Rc<List<ExBinding>>) -> (out: Rc<List<DocT>>)
    ensures
        out == spec_binder_args(*l),
    decreases l,
{
    match &**l {
        List::Nil => nil(),
        List::Cons(b, t) => cons(binder(b.name.clone(), b.ty.clone()), binder_args(t)),
    }
}

/// The types of ghost values.
pub open spec fn spec_binding_types(l: Rc<List<ExBinding>>) -> Rc<List<DocT>>
    decreases l,
{
    match *l {
        List::Nil => spec_nil(),
        List::Cons(b, t) => spec_cons(b.ty, spec_binding_types(t)),
    }
}

/// The types of ghost values.
pub fn binding_types(l: &Rc<List<ExBinding>>) -> (out: Rc<List<DocT>>)
    ensures
        out == spec_binding_types(*l),
    decreases l,
{
    match &**l {
        List::Nil => nil(),
        List::Cons(b, t) => cons(b.ty.clone(), binding_types(t)),
    }
}

/// The names of ghost values.
pub open spec fn spec_binding_names(l: Rc<List<ExBinding>>) -> Rc<List<DocT>>
    decreases l,
{
    match *l {
        List::Nil => spec_nil(),
        List::Cons(b, t) => spec_cons(b.name, spec_binding_names(t)),
    }
}

/// The names of ghost values.
pub fn binding_names(l: &Rc<List<ExBinding>>) -> (out: Rc<List<DocT>>)
    ensures
        out == spec_binding_names(*l),
    decreases l,
{
    match &**l {
        List::Nil => nil(),
        List::Cons(b, t) => cons(b.name.clone(), binding_names(t)),
    }
}

/// The conjuncts after `acc`.
pub open spec fn spec_star_onto(acc: Doc, l: Rc<List<DocT>>) -> Doc
    decreases l,
{
    match *l {
        List::Nil => acc,
        List::Cons(h, t) => spec_star_onto(spec_d5(acc, spec_space(), spec_txt("**"), spec_line(), h), t),
    }
}

/// The conjuncts after `acc`.
pub fn star_onto(acc: Doc, l: &Rc<List<DocT>>) -> (out: Doc)
    ensures
        out == spec_star_onto(acc, *l),
    decreases l,
{
    match &**l {
        List::Nil => acc,
        List::Cons(h, t) => star_onto(d5(acc, space(), txt("**"), line(), h.clone()), t),
    }
}

/// The separating conjunction.
#[verifier::opaque]
pub open spec fn spec_mk_star(ps: Rc<List<DocT>>) -> Doc
{
    match *ps {
        List::Nil => spec_txt("emp"),
        List::Cons(h, t) => spec_parens(spec_star_onto(h, t)),
    }
}

/// The separating conjunction.
pub fn mk_star(ps: &Rc<List<DocT>>) -> (out: Doc)
    ensures
        out == spec_mk_star(*ps),
{
    proof {
        reveal(spec_mk_star);
    }
    match &**ps {
        List::Nil => txt("emp"),
        List::Cons(h, t) => parens(star_onto(h.clone(), t)),
    }
}

/// The separating conjunction, under existential quantifiers for the ghost values.
#[verifier::opaque]
pub open spec fn spec_wrap_exists(bindings: Rc<List<ExBinding>>, props: Rc<List<DocT>>) -> Doc
{
    let star = spec_mk_star(props);
    if spec_list_is_empty(bindings) {
        star
    } else {
        spec_d3(spec_group(spec_d3(spec_txt("exists*"), spec_binders_before(bindings), spec_txt("."))), spec_line(), star)
    }
}

/// The separating conjunction, under existential quantifiers for the ghost values.
pub fn wrap_exists(bindings: &Rc<List<ExBinding>>, props: &Rc<List<DocT>>) -> (out: Doc)
    ensures
        out == spec_wrap_exists(*bindings, *props),
{
    proof {
        reveal(spec_wrap_exists);
    }
    let star = mk_star(props);
    if list_is_empty(bindings) {
        star
    } else {
        d3(group(d3(txt("exists*"), binders_before(bindings), txt("."))), line(), star)
    }
}

/// The argument domain of a function pointer: `unit` for arity 0, the single type for arity
/// 1, and a flat tuple `(a & b & ..)` from arity 2 on.
#[verifier::opaque]
pub open spec fn spec_fnptr_domain_doc(args: Rc<List<DocT>>) -> Doc
{
    match *args {
        List::Nil => spec_txt("unit"),
        List::Cons(h, t) => {
            if spec_list_is_empty(t) {
                h
            } else {
                spec_parens(spec_intersperse(args, spec_txt(" & ")))
            }
        },
    }
}

/// The argument domain of a function pointer: `unit` for arity 0, the single type for arity
/// 1, and a flat tuple `(a & b & ..)` from arity 2 on.
pub fn fnptr_domain_doc(args: &Rc<List<DocT>>) -> (out: Doc)
    ensures
        out == spec_fnptr_domain_doc(*args),
{
    proof {
        reveal(spec_fnptr_domain_doc);
    }
    match &**args {
        List::Nil => txt("unit"),
        List::Cons(h, t) => if list_is_empty(t) { h.clone() } else { parens(intersperse(args, &txt(" & "))) },
    }
}

/// `snd` applied `i` times.
pub open spec fn spec_snd_times(base: Doc, i: u64) -> Doc
    decreases i,
{
    if i == 0 {
        base
    } else {
        spec_snd_times(spec_parens(spec_d2(spec_txt("snd "), base)), spec_drop_one(i))
    }
}

/// `snd` applied `i` times.
pub fn snd_times(base: Doc, i: u64) -> (out: Doc)
    ensures
        out == spec_snd_times(base, i),
    decreases i,
{
    if i == 0 { base } else { snd_times(parens(d2(txt("snd "), base)), drop_one(i)) }
}

/// The component `i` of an `n`-ary flat tuple: the value itself at arity 1, `fst` and `snd` at
/// arity 2, and the field projectors `MktupleN?._i` from arity 3 on.
#[verifier::opaque]
pub open spec fn spec_nary_tuple_proj(base: Doc, i: u64, n: u64) -> Doc
{
    if n <= 1 {
        base
    } else {
        if n == 2 {
            spec_nested_pair_proj(base, i, n)
        } else {
            spec_parens(spec_d2(spec_text_doc(spec_cat5(spec_lit("Mktuple"), spec_num(n), spec_lit("?._"), spec_num(spec_bump(i)), spec_lit(" "))), base))
        }
    }
}

/// The component `i` of an `n`-ary flat tuple: the value itself at arity 1, `fst` and `snd` at
/// arity 2, and the field projectors `MktupleN?._i` from arity 3 on.
pub fn nary_tuple_proj(base: Doc, i: u64, n: u64) -> (out: Doc)
    ensures
        out == spec_nary_tuple_proj(base, i, n),
{
    proof {
        reveal(spec_nary_tuple_proj);
    }
    if n <= 1 {
        base
    } else if n == 2 {
        nested_pair_proj(base, i, n)
    } else {
        parens(d2(text_doc(cat5(lit("Mktuple"), num(n), lit("?._"), num(bump(i)), lit(" "))), base))
    }
}

/// A right-nested tuple of binary pairs: `unit` for arity 0, the bare type for arity 1, and
/// `(a & (b & c))` from arity 2 on.
pub open spec fn spec_nested_pair_doc(docs: Rc<List<DocT>>) -> Doc
    decreases docs,
{
    match *docs {
        List::Nil => spec_txt("unit"),
        List::Cons(h, t) => {
            if spec_list_is_empty(t) {
                h
            } else {
                spec_parens(spec_d3(h, spec_txt(" & "), spec_nested_pair_doc(t)))
            }
        },
    }
}

/// A right-nested tuple of binary pairs: `unit` for arity 0, the bare type for arity 1, and
/// `(a & (b & c))` from arity 2 on.
pub fn nested_pair_doc(docs: &Rc<List<DocT>>) -> (out: Doc)
    ensures
        out == spec_nested_pair_doc(*docs),
    decreases docs,
{
    match &**docs {
        List::Nil => txt("unit"),
        List::Cons(h, t) => if list_is_empty(t) { h.clone() } else { parens(d3(h.clone(), txt(" & "), nested_pair_doc(t))) },
    }
}

/// The irrefutable pattern that takes a nested pair apart: `_` for arity 0, the bare name for
/// arity 1, and `(a, (b, c))` from arity 2 on.
pub open spec fn spec_nested_pair_pat(names: Rc<List<DocT>>) -> Doc
    decreases names,
{
    match *names {
        List::Nil => spec_txt("_"),
        List::Cons(h, t) => {
            if spec_list_is_empty(t) {
                h
            } else {
                spec_parens(spec_d3(h, spec_txt(", "), spec_nested_pair_pat(t)))
            }
        },
    }
}

/// The irrefutable pattern that takes a nested pair apart: `_` for arity 0, the bare name for
/// arity 1, and `(a, (b, c))` from arity 2 on.
pub fn nested_pair_pat(names: &Rc<List<DocT>>) -> (out: Doc)
    ensures
        out == spec_nested_pair_pat(*names),
    decreases names,
{
    match &**names {
        List::Nil => txt("_"),
        List::Cons(h, t) => if list_is_empty(t) { h.clone() } else { parens(d3(h.clone(), txt(", "), nested_pair_pat(t))) },
    }
}

/// The component `i` of `n` of a nested pair: `fst p`, `fst (snd p)`, `snd (snd p)`, ...
#[verifier::opaque]
pub open spec fn spec_nested_pair_proj(base: Doc, i: u64, n: u64) -> Doc
{
    if n <= 1 {
        base
    } else {
        let e = spec_snd_times(base, i);
        if i < n - 1 {
            spec_parens(spec_d2(spec_txt("fst "), e))
        } else {
            e
        }
    }
}

/// The component `i` of `n` of a nested pair: `fst p`, `fst (snd p)`, `snd (snd p)`, ...
pub fn nested_pair_proj(base: Doc, i: u64, n: u64) -> (out: Doc)
    ensures
        out == spec_nested_pair_proj(base, i, n),
{
    proof {
        reveal(spec_nested_pair_proj);
    }
    if n <= 1 {
        base
    } else {
        let e = snd_times(base, i);
        if i < n - 1 { parens(d2(txt("fst "), e)) } else { e }
    }
}

/// The eta-expanded form of the nested pair at `path`, as an explicit `Mktuple2` spine.
/// Rewriting the witness to this form unsticks the `match` that a pattern `let` introduces.
pub open spec fn spec_eta_expand_doc(path: Doc, n: u64) -> Doc
    decreases n,
{
    if n <= 1 {
        path
    } else {
        spec_parens(spec_d4(spec_txt("Mktuple2 "), spec_parens(spec_d2(spec_txt("fst "), path)), spec_txt(" "), spec_eta_expand_doc(spec_parens(spec_d2(spec_txt("snd "), path)), spec_drop_one(n))))
    }
}

/// The eta-expanded form of the nested pair at `path`, as an explicit `Mktuple2` spine.
/// Rewriting the witness to this form unsticks the `match` that a pattern `let` introduces.
pub fn eta_expand_doc(path: Doc, n: u64) -> (out: Doc)
    ensures
        out == spec_eta_expand_doc(path, n),
    decreases n,
{
    if n <= 1 {
        path
    } else {
        parens(d4(txt("Mktuple2 "), parens(d2(txt("fst "), path.clone())), txt(" "),
            eta_expand_doc(parens(d2(txt("snd "), path)), drop_one(n))))
    }
}

/// The head of a definition up to its `=`, and the body.
#[verifier::opaque]
pub open spec fn spec_mk_definition(
    keyword: Doc,
    n: Doc,
    args: Rc<List<DocT>>,
    ty: Doc,
    body: Doc,
) -> Doc
{
    let head = spec_group(spec_d2(spec_d3(keyword, spec_line(), n), spec_nest(spec_d2(spec_lines_before(args), spec_d2(spec_line(), spec_txt(":"))))));
    let sig = spec_group(spec_nest(spec_d3(head, spec_d2(spec_line(), ty), spec_d2(spec_line(), spec_txt("=")))));
    spec_nest(spec_group(spec_d2(sig, spec_d2(spec_line(), body))))
}

/// The head of a definition up to its `=`, and the body.
pub fn mk_definition(keyword: Doc, n: Doc, args: &Rc<List<DocT>>, ty: Doc, body: Doc) -> (out: Doc)
    ensures
        out == spec_mk_definition(keyword, n, *args, ty, body),
{
    proof {
        reveal(spec_mk_definition);
    }
    let head = group(d2(d3(keyword, line(), n), nest(d2(lines_before(args), d2(line(), txt(":"))))));
    let sig = group(nest(d3(head, d2(line(), ty), d2(line(), txt("=")))));
    nest(group(d2(sig, d2(line(), body))))
}

/// A definition, recursive or not.
#[verifier::opaque]
pub open spec fn spec_mk_let_rec(
    is_rec: bool,
    n: Doc,
    args: Rc<List<DocT>>,
    ty: Doc,
    body: Doc,
) -> Doc
{
    spec_mk_definition(if is_rec {
            spec_txt("let rec")
        } else {
            spec_txt("let")
        }, n, args, ty, body)
}

/// A definition, recursive or not.
pub fn mk_let_rec(is_rec: bool, n: Doc, args: &Rc<List<DocT>>, ty: Doc, body: Doc) -> (out: Doc)
    ensures
        out == spec_mk_let_rec(is_rec, n, *args, ty, body),
{
    proof {
        reveal(spec_mk_let_rec);
    }
    mk_definition(if is_rec { txt("let rec") } else { txt("let") }, n, args, ty, body)
}

/// A definition.
#[verifier::opaque]
pub open spec fn spec_mk_let(n: Doc, args: Rc<List<DocT>>, ty: Doc, body: Doc) -> Doc
{
    spec_mk_let_rec(false, n, args, ty, body)
}

/// A definition.
pub fn mk_let(n: Doc, args: &Rc<List<DocT>>, ty: Doc, body: Doc) -> (out: Doc)
    ensures
        out == spec_mk_let(n, *args, ty, body),
{
    proof {
        reveal(spec_mk_let);
    }
    mk_let_rec(false, n, args, ty, body)
}

/// A type-class instance.
#[verifier::opaque]
pub open spec fn spec_mk_instance(n: Doc, args: Rc<List<DocT>>, ty: Doc, body: Doc) -> Doc
{
    spec_mk_definition(spec_txt("instance"), n, args, ty, body)
}

/// A type-class instance.
pub fn mk_instance(n: Doc, args: &Rc<List<DocT>>, ty: Doc, body: Doc) -> (out: Doc)
    ensures
        out == spec_mk_instance(n, *args, ty, body),
{
    proof {
        reveal(spec_mk_instance);
    }
    mk_definition(txt("instance"), n, args, ty, body)
}

/// The arguments and the `=` of a predicate, and its body.
#[verifier::opaque]
pub open spec fn spec_mk_predicate_tail(head: Doc, args: Rc<List<DocT>>, body: Doc) -> Doc
{
    let sig = spec_group(spec_nest(spec_group(spec_d2(head, spec_d2(spec_nest(spec_lines_before(args)), spec_group(spec_d2(spec_line(), spec_txt("="))))))));
    spec_nest(spec_group(spec_d2(sig, spec_d2(spec_line(), body))))
}

/// The arguments and the `=` of a predicate, and its body.
pub fn mk_predicate_tail(head: Doc, args: &Rc<List<DocT>>, body: Doc) -> (out: Doc)
    ensures
        out == spec_mk_predicate_tail(head, *args, body),
{
    proof {
        reveal(spec_mk_predicate_tail);
    }
    let sig = group(nest(group(d2(head, d2(nest(lines_before(args)), group(d2(line(), txt("="))))))));
    nest(group(d2(sig, d2(line(), body))))
}

/// A predicate that the prover unfolds on its own.
#[verifier::opaque]
pub open spec fn spec_mk_eager_unfold_slprop(n: Doc, args: Rc<List<DocT>>, body: Doc) -> Doc
{
    let kw = spec_group(spec_d5(spec_txt("[@@pulse_eager_unfold]"), spec_line(), spec_txt("let"), spec_line(), spec_txt("predicate")));
    spec_mk_predicate_tail(spec_group(spec_d3(kw, spec_line(), n)), args, body)
}

/// A predicate that the prover unfolds on its own.
pub fn mk_eager_unfold_slprop(n: Doc, args: &Rc<List<DocT>>, body: Doc) -> (out: Doc)
    ensures
        out == spec_mk_eager_unfold_slprop(n, *args, body),
{
    proof {
        reveal(spec_mk_eager_unfold_slprop);
    }
    let kw = group(d5(txt("[@@pulse_eager_unfold]"), line(), txt("let"), line(), txt("predicate")));
    mk_predicate_tail(group(d3(kw, line(), n)), args, body)
}

/// A predicate that stays folded.
#[verifier::opaque]
pub open spec fn spec_mk_folded_slprop(n: Doc, args: Rc<List<DocT>>, body: Doc) -> Doc
{
    spec_mk_predicate_tail(spec_group(spec_d5(spec_txt("let"), spec_line(), spec_txt("predicate"), spec_line(), n)), args, body)
}

/// A predicate that stays folded.
pub fn mk_folded_slprop(n: Doc, args: &Rc<List<DocT>>, body: Doc) -> (out: Doc)
    ensures
        out == spec_mk_folded_slprop(n, *args, body),
{
    proof {
        reveal(spec_mk_folded_slprop);
    }
    mk_predicate_tail(group(d5(txt("let"), line(), txt("predicate"), line(), n)), args, body)
}

/// Attributes in front of a declaration.
#[verifier::opaque]
pub open spec fn spec_mk_attrs(attrs: Rc<List<DocT>>) -> Doc
{
    if spec_list_is_empty(attrs) {
        spec_nil_doc()
    } else {
        spec_d2(spec_nest(spec_group(spec_d3(spec_txt("[@@"), spec_intersperse(attrs, spec_d2(spec_txt(";"), spec_line())), spec_txt("]")))), spec_line())
    }
}

/// Attributes in front of a declaration.
pub fn mk_attrs(attrs: &Rc<List<DocT>>) -> (out: Doc)
    ensures
        out == spec_mk_attrs(*attrs),
{
    proof {
        reveal(spec_mk_attrs);
    }
    if list_is_empty(attrs) {
        nil_doc()
    } else {
        d2(nest(group(d3(txt("[@@"), intersperse(attrs, &d2(txt(";"), line())), txt("]")))), line())
    }
}

/// An assumed value.
#[verifier::opaque]
pub open spec fn spec_mk_assume_val(
    attrs: Rc<List<DocT>>,
    n: Doc,
    args: Rc<List<DocT>>,
    ty: Doc,
) -> Doc
{
    let head = spec_group(spec_d2(spec_group(spec_d3(spec_txt("assume val"), spec_line(), n)), spec_group(spec_d2(spec_lines_before(args), spec_d2(spec_line(), spec_txt(":"))))));
    spec_group(spec_d2(spec_mk_attrs(attrs), spec_group(spec_nest(spec_d2(head, spec_nest(spec_d2(spec_line(), ty)))))))
}

/// An assumed value.
pub fn mk_assume_val(attrs: &Rc<List<DocT>>, n: Doc, args: &Rc<List<DocT>>, ty: Doc) -> (out: Doc)
    ensures
        out == spec_mk_assume_val(*attrs, n, *args, ty),
{
    proof {
        reveal(spec_mk_assume_val);
    }
    let head = group(d2(group(d3(txt("assume val"), line(), n)), group(d2(lines_before(args), d2(line(), txt(":"))))));
    group(d2(mk_attrs(attrs), group(nest(d2(head, nest(d2(line(), ty)))))))
}

/// The assumption that objects of a type have a size above zero.
#[verifier::opaque]
pub open spec fn spec_mk_sizeof_pos_axiom(name: Doc, ty: Doc) -> Doc
{
    let ty_arg = spec_parens(spec_group(spec_d5(spec_txt("a: Type0 { a =="), spec_line(), ty, spec_line(), spec_txt("}"))));
    let sizeof = spec_unaryfn(spec_txt("Pulse.Lib.C.Sizeof.c_sizeof"), spec_txt("a"));
    let value = spec_unaryfn(spec_txt("FStar.SizeT.v"), sizeof);
    spec_mk_assume_val(spec_nil(), name, spec_l1(ty_arg), spec_d5(spec_txt("Lemma"), spec_line(), spec_parens(spec_d2(value, spec_txt(" > 0"))), spec_line(), spec_d3(spec_txt("[SMTPat "), value, spec_txt("]"))))
}

/// The assumption that objects of a type have a size above zero.
pub fn mk_sizeof_pos_axiom(name: Doc, ty: Doc) -> (out: Doc)
    ensures
        out == spec_mk_sizeof_pos_axiom(name, ty),
{
    proof {
        reveal(spec_mk_sizeof_pos_axiom);
    }
    let ty_arg = parens(group(d5(txt("a: Type0 { a =="), line(), ty, line(), txt("}"))));
    let sizeof = unaryfn(txt("Pulse.Lib.C.Sizeof.c_sizeof"), txt("a"));
    let value = unaryfn(txt("FStar.SizeT.v"), sizeof);
    mk_assume_val(&nil(), name, &l1(ty_arg), d5(
        txt("Lemma"), line(), parens(d2(value.clone(), txt(" > 0"))), line(),
        d3(txt("[SMTPat "), value, txt("]"))))
}

/// A function literal.
#[verifier::opaque]
pub open spec fn spec_mk_fun(arg: Doc, body: Doc) -> Doc
{
    spec_parens(spec_d3(spec_nest(spec_group(spec_d5(spec_txt("fun"), spec_line(), arg, spec_line(), spec_txt("->")))), spec_line(), body))
}

/// A function literal.
pub fn mk_fun(arg: Doc, body: Doc) -> (out: Doc)
    ensures
        out == spec_mk_fun(arg, body),
{
    proof {
        reveal(spec_mk_fun);
    }
    parens(d3(nest(group(d5(txt("fun"), line(), arg, line(), txt("->")))), line(), body))
}

/// A function literal that ignores its argument.
#[verifier::opaque]
pub open spec fn spec_mk_thunk(body: Doc) -> Doc
{
    spec_mk_fun(spec_txt("_"), body)
}

/// A function literal that ignores its argument.
pub fn mk_thunk(body: Doc) -> (out: Doc)
    ensures
        out == spec_mk_thunk(body),
{
    proof {
        reveal(spec_mk_thunk);
    }
    mk_fun(txt("_"), body)
}

/// The conjunction of propositions.
#[verifier::opaque]
pub open spec fn spec_conj(props: Rc<List<DocT>>) -> Doc
{
    if spec_list_is_empty(props) {
        spec_txt("True")
    } else {
        spec_parens(spec_intersperse(spec_parens_all(props), spec_txt(" /\\ ")))
    }
}

/// The conjunction of propositions.
pub fn conj(props: &Rc<List<DocT>>) -> (out: Doc)
    ensures
        out == spec_conj(*props),
{
    proof {
        reveal(spec_conj);
    }
    if list_is_empty(props) {
        txt("True")
    } else {
        parens(intersperse(&parens_all(props), &txt(" /\\ ")))
    }
}

/// The F* module of a machine integer type.
#[verifier::opaque]
pub open spec fn spec_get_int_mod(signed: bool, width: u32) -> Option<&'static str>
{
    match (signed, width) {
        (false, 8) => Some("UInt8"),
        (false, 16) => Some("UInt16"),
        (false, 32) => Some("UInt32"),
        (false, 64) => Some("UInt64"),
        (true, 8) => Some("Int8"),
        (true, 16) => Some("Int16"),
        (true, 32) => Some("Int32"),
        (true, 64) => Some("Int64"),
        _ => None,
    }
}

/// The F* module of a machine integer type.
pub fn get_int_mod(signed: bool, width: u32) -> (out: Option<&'static str>)
    ensures
        out == spec_get_int_mod(signed, width),
{
    proof {
        reveal(spec_get_int_mod);
    }
    match (signed, width) {
        (false, 8) => Some("UInt8"),
        (false, 16) => Some("UInt16"),
        (false, 32) => Some("UInt32"),
        (false, 64) => Some("UInt64"),
        (true, 8) => Some("Int8"),
        (true, 16) => Some("Int16"),
        (true, 32) => Some("Int32"),
        (true, 64) => Some("Int64"),
        _ => None,
    }
}

/// The F* module of a machine integer type, in lower case.
#[verifier::opaque]
pub open spec fn spec_get_int_mod_lower(signed: bool, width: u32) -> Option<&'static str>
{
    match (signed, width) {
        (false, 8) => Some("uint8"),
        (false, 16) => Some("uint16"),
        (false, 32) => Some("uint32"),
        (false, 64) => Some("uint64"),
        (true, 8) => Some("int8"),
        (true, 16) => Some("int16"),
        (true, 32) => Some("int32"),
        (true, 64) => Some("int64"),
        _ => None,
    }
}

/// The F* module of a machine integer type, in lower case.
pub fn get_int_mod_lower(signed: bool, width: u32) -> (out: Option<&'static str>)
    ensures
        out == spec_get_int_mod_lower(signed, width),
{
    proof {
        reveal(spec_get_int_mod_lower);
    }
    match (signed, width) {
        (false, 8) => Some("uint8"),
        (false, 16) => Some("uint16"),
        (false, 32) => Some("uint32"),
        (false, 64) => Some("uint64"),
        (true, 8) => Some("int8"),
        (true, 16) => Some("int16"),
        (true, 32) => Some("int32"),
        (true, 64) => Some("int64"),
        _ => None,
    }
}

/// The module of wrapping arithmetic for an unsigned width.
#[verifier::opaque]
pub open spec fn spec_get_uint_wrap_mod(width: u32) -> Option<&'static str>
{
    match width {
        8 => Some("Pulse.Lib.C.UInt8"),
        16 => Some("Pulse.Lib.C.UInt16"),
        32 => Some("Pulse.Lib.C.UInt32"),
        64 => Some("Pulse.Lib.C.UInt64"),
        _ => None,
    }
}

/// The module of wrapping arithmetic for an unsigned width.
pub fn get_uint_wrap_mod(width: u32) -> (out: Option<&'static str>)
    ensures
        out == spec_get_uint_wrap_mod(width),
{
    proof {
        reveal(spec_get_uint_wrap_mod);
    }
    match width {
        8 => Some("Pulse.Lib.C.UInt8"),
        16 => Some("Pulse.Lib.C.UInt16"),
        32 => Some("Pulse.Lib.C.UInt32"),
        64 => Some("Pulse.Lib.C.UInt64"),
        _ => None,
    }
}

/// The function that truncates to a bit-field of a machine type.
#[verifier::opaque]
pub open spec fn spec_get_bitfield_mask_fn(machine_width: u32) -> Option<&'static str>
{
    match machine_width {
        8 => Some("Pulse.Lib.C.BitField.mask_u8"),
        16 => Some("Pulse.Lib.C.BitField.mask_u16"),
        32 => Some("Pulse.Lib.C.BitField.mask_u32"),
        64 => Some("Pulse.Lib.C.BitField.mask_u64"),
        _ => None,
    }
}

/// The function that truncates to a bit-field of a machine type.
pub fn get_bitfield_mask_fn(machine_width: u32) -> (out: Option<&'static str>)
    ensures
        out == spec_get_bitfield_mask_fn(machine_width),
{
    proof {
        reveal(spec_get_bitfield_mask_fn);
    }
    match machine_width {
        8 => Some("Pulse.Lib.C.BitField.mask_u8"),
        16 => Some("Pulse.Lib.C.BitField.mask_u16"),
        32 => Some("Pulse.Lib.C.BitField.mask_u32"),
        64 => Some("Pulse.Lib.C.BitField.mask_u64"),
        _ => None,
    }
}

/// The library prefix of a floating-point type.
#[verifier::opaque]
pub open spec fn spec_get_float_mod(width: u32) -> Option<&'static str>
{
    match width {
        32 => Some("Pulse.Lib.C.float32"),
        64 => Some("Pulse.Lib.C.float64"),
        _ => None,
    }
}

/// The library prefix of a floating-point type.
pub fn get_float_mod(width: u32) -> (out: Option<&'static str>)
    ensures
        out == spec_get_float_mod(width),
{
    proof {
        reveal(spec_get_float_mod);
    }
    match width {
        32 => Some("Pulse.Lib.C.float32"),
        64 => Some("Pulse.Lib.C.float64"),
        _ => None,
    }
}

/// The `int32`-like abbreviation of a machine integer type.
#[verifier::opaque]
pub open spec fn spec_abbrev(signed: bool, width: u32) -> Text
{
    spec_cat(if signed {
            spec_lit("int")
        } else {
            spec_lit("uint")
        }, spec_width_text(width))
}

/// The `int32`-like abbreviation of a machine integer type.
pub fn abbrev(signed: bool, width: u32) -> (out: Text)
    ensures
        out == spec_abbrev(signed, width),
{
    proof {
        reveal(spec_abbrev);
    }
    cat(if signed { lit("int") } else { lit("uint") }, width_text(width))
}

/// An infix operator made of a prefix and a name.
#[verifier::opaque]
pub open spec fn spec_tick(prefix: Option<&'static str>, op: &'static str) -> Option<Doc>
{
    match prefix {
        Some(p) => Some(spec_text_doc(spec_cat4(spec_lit("`"), spec_lit(p), spec_lit(op), spec_lit("`")))),
        None => None,
    }
}

/// An infix operator made of a prefix and a name.
pub fn tick(prefix: Option<&'static str>, op: &'static str) -> (out: Option<Doc>)
    ensures
        out == spec_tick(prefix, op),
{
    proof {
        reveal(spec_tick);
    }
    match prefix {
        Some(p) => Some(text_doc(cat4(lit("`"), lit(p), lit(op), lit("`")))),
        None => None,
    }
}

/// The F* function for a unary operator on a type.
#[verifier::opaque]
pub open spec fn spec_emit_unop(env: Env, op: UnOp, ty: Rc<Type>) -> Option<Doc>
{
    match (op, spec_vtype_whnf(env, ty).val) {
        (UnOp::Not, _) => Some(spec_txt("not")),
        (UnOp::Neg, TypeT::Int { signed, width }) => {
            match spec_get_int_mod(signed, width) {
                Some(m) => {
                    Some(if signed {
                            spec_text_doc(spec_cat4(spec_lit(m), spec_lit(".sub "), spec_lit(m), spec_lit(".zero")))
                        } else {
                            spec_text_doc(spec_cat(spec_lit(m), spec_lit(".minus")))
                    })
                },
                None => None,
            }
        },
        (UnOp::Neg, TypeT::SpecInt) => Some(spec_txt("op_Tilde_Minus")),
        (UnOp::Neg, TypeT::SpecNat) => Some(spec_txt("op_Tilde_Minus")),
        (UnOp::Neg, TypeT::Float { width }) => {
            match spec_get_float_mod(width) {
                Some(m) => Some(spec_text_doc(spec_cat(spec_lit(m), spec_lit("_neg")))),
                None => None,
            }
        },
        (UnOp::BitNot, TypeT::Int { signed, width }) => {
            match spec_get_int_mod(signed, width) {
                Some(m) => Some(spec_text_doc(spec_cat(spec_lit(m), spec_lit(".lognot")))),
                None => None,
            }
        },
        _ => None,
    }
}

/// The F* function for a unary operator on a type.
pub fn emit_unop(env: &Env, op: UnOp, ty: &Rc<Type>) -> (out: Option<Doc>)
    ensures
        out == spec_emit_unop(*env, op, *ty),
{
    proof {
        reveal(spec_emit_unop);
    }
    match (op, &vtype_whnf(env, ty).val) {
        (UnOp::Not, _) => Some(txt("not")),
        (UnOp::Neg, TypeT::Int { signed, width }) => match get_int_mod(*signed, *width) {
            Some(m) => Some(if *signed {
                text_doc(cat4(lit(m), lit(".sub "), lit(m), lit(".zero")))
            } else {
                text_doc(cat(lit(m), lit(".minus")))
            }),
            None => None,
        },
        (UnOp::Neg, TypeT::SpecInt) => Some(txt("op_Tilde_Minus")),
        (UnOp::Neg, TypeT::SpecNat) => Some(txt("op_Tilde_Minus")),
        (UnOp::Neg, TypeT::Float { width }) => match get_float_mod(*width) {
            Some(m) => Some(text_doc(cat(lit(m), lit("_neg")))),
            None => None,
        },
        (UnOp::BitNot, TypeT::Int { signed, width }) => match get_int_mod(*signed, *width) {
            Some(m) => Some(text_doc(cat(lit(m), lit(".lognot")))),
            None => None,
        },
        _ => None,
    }
}

/// The F* operator on a machine integer type. Unsigned C arithmetic wraps, so its sums,
/// differences and products use total wrapping operations.
#[verifier::opaque]
pub open spec fn spec_int_binop(op: BinOp, signed: bool, width: u32) -> Option<Doc>
{
    let m = spec_get_int_mod(signed, width);
    match op {
        BinOp::Eq => Some(spec_txt("=")),
        BinOp::LEq => spec_tick(m, ".lte"),
        BinOp::Lt => spec_tick(m, ".lt"),
        BinOp::Add => {
            if signed {
                spec_tick(m, ".add")
            } else {
                spec_tick(spec_get_uint_wrap_mod(width), ".add_wrap")
            }
        },
        BinOp::Sub => {
            if signed {
                spec_tick(m, ".sub")
            } else {
                spec_tick(spec_get_uint_wrap_mod(width), ".sub_wrap")
            }
        },
        BinOp::Mul => {
            if signed {
                spec_tick(m, ".mul")
            } else {
                spec_tick(spec_get_uint_wrap_mod(width), ".mul_wrap")
            }
        },
        BinOp::Div => spec_tick(m, ".div"),
        BinOp::Mod => spec_tick(m, ".rem"),
        BinOp::Elvis => Some(spec_text_doc(spec_cat3(spec_lit("`Pulse.Lib.C.Elvis.elvis_"), spec_abbrev(signed, width), spec_lit("`")))),
        BinOp::BitAnd => spec_tick(m, ".logand"),
        BinOp::BitOr => spec_tick(m, ".logor"),
        BinOp::BitXor => spec_tick(m, ".logxor"),
        BinOp::Shl => spec_tick(m, ".shift_left"),
        BinOp::Shr => spec_tick(m, ".shift_right"),
        BinOp::LogAnd | BinOp::LogOr | BinOp::Implies => None,
    }
}

/// The F* operator on a machine integer type. Unsigned C arithmetic wraps, so its sums,
/// differences and products use total wrapping operations.
pub fn int_binop(op: BinOp, signed: bool, width: u32) -> (out: Option<Doc>)
    ensures
        out == spec_int_binop(op, signed, width),
{
    proof {
        reveal(spec_int_binop);
    }
    let m = get_int_mod(signed, width);
    match op {
        BinOp::Eq => Some(txt("=")),
        BinOp::LEq => tick(m, ".lte"),
        BinOp::Lt => tick(m, ".lt"),
        BinOp::Add => if signed { tick(m, ".add") } else { tick(get_uint_wrap_mod(width), ".add_wrap") },
        BinOp::Sub => if signed { tick(m, ".sub") } else { tick(get_uint_wrap_mod(width), ".sub_wrap") },
        BinOp::Mul => if signed { tick(m, ".mul") } else { tick(get_uint_wrap_mod(width), ".mul_wrap") },
        BinOp::Div => tick(m, ".div"),
        BinOp::Mod => tick(m, ".rem"),
        BinOp::Elvis => Some(text_doc(cat3(lit("`Pulse.Lib.C.Elvis.elvis_"), abbrev(signed, width), lit("`")))),
        BinOp::BitAnd => tick(m, ".logand"),
        BinOp::BitOr => tick(m, ".logor"),
        BinOp::BitXor => tick(m, ".logxor"),
        BinOp::Shl => tick(m, ".shift_left"),
        BinOp::Shr => tick(m, ".shift_right"),
        BinOp::LogAnd | BinOp::LogOr | BinOp::Implies => None,
    }
}

/// The F* operator on `size_t`.
#[verifier::opaque]
pub open spec fn spec_size_binop(op: BinOp) -> Option<Doc>
{
    match op {
        BinOp::Eq => Some(spec_txt("=")),
        BinOp::LEq => Some(spec_txt("`SizeT.lte`")),
        BinOp::Lt => Some(spec_txt("`SizeT.lt`")),
        BinOp::Mul => Some(spec_txt("`SizeT.mul`")),
        BinOp::Div => Some(spec_txt("`SizeT.div`")),
        BinOp::Mod => Some(spec_txt("`SizeT.rem`")),
        BinOp::Add => Some(spec_txt("`SizeT.add`")),
        BinOp::Sub => Some(spec_txt("`SizeT.sub`")),
        BinOp::Elvis => Some(spec_txt("`Pulse.Lib.C.Elvis.elvis_size_t`")),
        _ => None,
    }
}

/// The F* operator on `size_t`.
pub fn size_binop(op: BinOp) -> (out: Option<Doc>)
    ensures
        out == spec_size_binop(op),
{
    proof {
        reveal(spec_size_binop);
    }
    match op {
        BinOp::Eq => Some(txt("=")),
        BinOp::LEq => Some(txt("`SizeT.lte`")),
        BinOp::Lt => Some(txt("`SizeT.lt`")),
        BinOp::Mul => Some(txt("`SizeT.mul`")),
        BinOp::Div => Some(txt("`SizeT.div`")),
        BinOp::Mod => Some(txt("`SizeT.rem`")),
        BinOp::Add => Some(txt("`SizeT.add`")),
        BinOp::Sub => Some(txt("`SizeT.sub`")),
        BinOp::Elvis => Some(txt("`Pulse.Lib.C.Elvis.elvis_size_t`")),
        _ => None,
    }
}

/// The F* operator on `ptrdiff_t`.
#[verifier::opaque]
pub open spec fn spec_ptrdiff_binop(op: BinOp) -> Option<Doc>
{
    match op {
        BinOp::Eq => Some(spec_txt("=")),
        BinOp::LEq => Some(spec_txt("`Pulse.Lib.C.PtrdiffT.lte`")),
        BinOp::Lt => Some(spec_txt("`Pulse.Lib.C.PtrdiffT.lt`")),
        BinOp::Add => Some(spec_txt("`Pulse.Lib.C.PtrdiffT.add`")),
        BinOp::Sub => Some(spec_txt("`Pulse.Lib.C.PtrdiffT.sub`")),
        BinOp::Mul => Some(spec_txt("`Pulse.Lib.C.PtrdiffT.mul`")),
        BinOp::Div => Some(spec_txt("`Pulse.Lib.C.PtrdiffT.div`")),
        BinOp::Mod => Some(spec_txt("`Pulse.Lib.C.PtrdiffT.rem`")),
        _ => None,
    }
}

/// The F* operator on `ptrdiff_t`.
pub fn ptrdiff_binop(op: BinOp) -> (out: Option<Doc>)
    ensures
        out == spec_ptrdiff_binop(op),
{
    proof {
        reveal(spec_ptrdiff_binop);
    }
    match op {
        BinOp::Eq => Some(txt("=")),
        BinOp::LEq => Some(txt("`Pulse.Lib.C.PtrdiffT.lte`")),
        BinOp::Lt => Some(txt("`Pulse.Lib.C.PtrdiffT.lt`")),
        BinOp::Add => Some(txt("`Pulse.Lib.C.PtrdiffT.add`")),
        BinOp::Sub => Some(txt("`Pulse.Lib.C.PtrdiffT.sub`")),
        BinOp::Mul => Some(txt("`Pulse.Lib.C.PtrdiffT.mul`")),
        BinOp::Div => Some(txt("`Pulse.Lib.C.PtrdiffT.div`")),
        BinOp::Mod => Some(txt("`Pulse.Lib.C.PtrdiffT.rem`")),
        _ => None,
    }
}

/// The F* operator on a floating-point type.
#[verifier::opaque]
pub open spec fn spec_float_binop(op: BinOp, width: u32) -> Option<Doc>
{
    let m = spec_get_float_mod(width);
    match op {
        BinOp::Eq => spec_tick(m, "_eq"),
        BinOp::LEq => spec_tick(m, "_lte"),
        BinOp::Lt => spec_tick(m, "_lt"),
        BinOp::Mul => spec_tick(m, "_mul"),
        BinOp::Div => spec_tick(m, "_div"),
        BinOp::Add => spec_tick(m, "_add"),
        BinOp::Sub => spec_tick(m, "_sub"),
        _ => None,
    }
}

/// The F* operator on a floating-point type.
pub fn float_binop(op: BinOp, width: u32) -> (out: Option<Doc>)
    ensures
        out == spec_float_binop(op, width),
{
    proof {
        reveal(spec_float_binop);
    }
    let m = get_float_mod(width);
    match op {
        BinOp::Eq => tick(m, "_eq"),
        BinOp::LEq => tick(m, "_lte"),
        BinOp::Lt => tick(m, "_lt"),
        BinOp::Mul => tick(m, "_mul"),
        BinOp::Div => tick(m, "_div"),
        BinOp::Add => tick(m, "_add"),
        BinOp::Sub => tick(m, "_sub"),
        _ => None,
    }
}

/// The F* operator on mathematical integers.
#[verifier::opaque]
pub open spec fn spec_math_binop(op: BinOp) -> Option<Doc>
{
    match op {
        BinOp::Eq => Some(spec_txt("=")),
        BinOp::LEq => Some(spec_txt("<=")),
        BinOp::Lt => Some(spec_txt("<")),
        BinOp::Mul => Some(spec_txt("*")),
        BinOp::Div => Some(spec_txt("/")),
        BinOp::Mod => Some(spec_txt("%")),
        BinOp::Add => Some(spec_txt("+")),
        BinOp::Sub => Some(spec_txt("-")),
        _ => None,
    }
}

/// The F* operator on mathematical integers.
pub fn math_binop(op: BinOp) -> (out: Option<Doc>)
    ensures
        out == spec_math_binop(op),
{
    proof {
        reveal(spec_math_binop);
    }
    match op {
        BinOp::Eq => Some(txt("=")),
        BinOp::LEq => Some(txt("<=")),
        BinOp::Lt => Some(txt("<")),
        BinOp::Mul => Some(txt("*")),
        BinOp::Div => Some(txt("/")),
        BinOp::Mod => Some(txt("%")),
        BinOp::Add => Some(txt("+")),
        BinOp::Sub => Some(txt("-")),
        _ => None,
    }
}

/// The F* operator on a pointer. Without a library function for an operator on the kind of
/// pointer there is none.
#[verifier::opaque]
pub open spec fn spec_pointer_binop(op: BinOp, kind: PointerKind) -> Option<Doc>
{
    match (op, kind) {
        (BinOp::Eq, PointerKind::ArrayPtr) => Some(spec_txt("`Pulse.Lib.C.Array.arrayptr_eq`")),
        (BinOp::Eq, PointerKind::Ref) | (BinOp::Eq, PointerKind::Unknown) => Some(spec_txt("`Pulse.Lib.C.Ref.ref_eq`")),
        (BinOp::Eq, PointerKind::Core) => Some(spec_txt("`Pulse.Lib.C.CoreRef.core_ref_eq`")),
        (BinOp::Eq, PointerKind::Array) => Some(spec_txt("=")),
        (BinOp::LEq, PointerKind::ArrayPtr) => Some(spec_txt("`Pulse.Lib.C.Array.arrayptr_lte`")),
        (BinOp::Lt, PointerKind::ArrayPtr) => Some(spec_txt("`Pulse.Lib.C.Array.arrayptr_lt`")),
        (BinOp::Elvis, PointerKind::Ref) | (BinOp::Elvis, PointerKind::Unknown) => Some(spec_txt("`Pulse.Lib.C.Elvis.elvis_ref`")),
        _ => None,
    }
}

/// The F* operator on a pointer. Without a library function for an operator on the kind of
/// pointer there is none.
pub fn pointer_binop(op: BinOp, kind: PointerKind) -> (out: Option<Doc>)
    ensures
        out == spec_pointer_binop(op, kind),
{
    proof {
        reveal(spec_pointer_binop);
    }
    match (op, kind) {
        (BinOp::Eq, PointerKind::ArrayPtr) => Some(txt("`Pulse.Lib.C.Array.arrayptr_eq`")),
        (BinOp::Eq, PointerKind::Ref) | (BinOp::Eq, PointerKind::Unknown) => Some(txt("`Pulse.Lib.C.Ref.ref_eq`")),
        (BinOp::Eq, PointerKind::Core) => Some(txt("`Pulse.Lib.C.CoreRef.core_ref_eq`")),
        (BinOp::Eq, PointerKind::Array) => Some(txt("=")),
        (BinOp::LEq, PointerKind::ArrayPtr) => Some(txt("`Pulse.Lib.C.Array.arrayptr_lte`")),
        (BinOp::Lt, PointerKind::ArrayPtr) => Some(txt("`Pulse.Lib.C.Array.arrayptr_lt`")),
        (BinOp::Elvis, PointerKind::Ref) | (BinOp::Elvis, PointerKind::Unknown) => Some(txt("`Pulse.Lib.C.Elvis.elvis_ref`")),
        _ => None,
    }
}

/// The F* operator on truth values.
#[verifier::opaque]
pub open spec fn spec_bool_binop(op: BinOp) -> Option<Doc>
{
    match op {
        BinOp::Eq => Some(spec_txt("=")),
        BinOp::LogAnd => Some(spec_txt("&&")),
        BinOp::LogOr => Some(spec_txt("||")),
        BinOp::Implies => Some(spec_txt("==>")),
        BinOp::Mul => Some(spec_txt("&&")),
        BinOp::Elvis => Some(spec_txt("||")),
        _ => None,
    }
}

/// The F* operator on truth values.
pub fn bool_binop(op: BinOp) -> (out: Option<Doc>)
    ensures
        out == spec_bool_binop(op),
{
    proof {
        reveal(spec_bool_binop);
    }
    match op {
        BinOp::Eq => Some(txt("=")),
        BinOp::LogAnd => Some(txt("&&")),
        BinOp::LogOr => Some(txt("||")),
        BinOp::Implies => Some(txt("==>")),
        BinOp::Mul => Some(txt("&&")),
        BinOp::Elvis => Some(txt("||")),
        _ => None,
    }
}

/// The F* operator on separation-logic propositions.
#[verifier::opaque]
pub open spec fn spec_slprop_binop(op: BinOp) -> Option<Doc>
{
    match op {
        BinOp::Eq => Some(spec_txt("==")),
        BinOp::LogAnd => Some(spec_txt("**")),
        BinOp::Implies => Some(spec_txt("`Pulse.Lib.Trade.trade`")),
        _ => None,
    }
}

/// The F* operator on separation-logic propositions.
pub fn slprop_binop(op: BinOp) -> (out: Option<Doc>)
    ensures
        out == spec_slprop_binop(op),
{
    proof {
        reveal(spec_slprop_binop);
    }
    match op {
        BinOp::Eq => Some(txt("==")),
        BinOp::LogAnd => Some(txt("**")),
        BinOp::Implies => Some(txt("`Pulse.Lib.Trade.trade`")),
        _ => None,
    }
}

/// The F* operator for a binary operator on a type.
#[verifier::opaque]
pub open spec fn spec_emit_binop(env: Env, op: BinOp, ty: Rc<Type>) -> Option<Doc>
{
    match spec_vtype_whnf(env, ty).val {
        TypeT::Void => {
            if op == BinOp::Eq {
                Some(spec_txt("=="))
            } else {
                None
            }
        },
        TypeT::SLProp => spec_slprop_binop(op),
        TypeT::Bool => spec_bool_binop(op),
        TypeT::Int { signed, width } => spec_int_binop(op, signed, width),
        TypeT::SizeT => spec_size_binop(op),
        TypeT::PtrdiffT => spec_ptrdiff_binop(op),
        TypeT::Float { width } => spec_float_binop(op, width),
        TypeT::SpecInt => spec_math_binop(op),
        TypeT::SpecNat => spec_math_binop(op),
        TypeT::Pointer(_, kind) => spec_pointer_binop(op, kind),
        _ => None,
    }
}

/// The F* operator for a binary operator on a type.
pub fn emit_binop(env: &Env, op: BinOp, ty: &Rc<Type>) -> (out: Option<Doc>)
    ensures
        out == spec_emit_binop(*env, op, *ty),
{
    proof {
        reveal(spec_emit_binop);
    }
    match &vtype_whnf(env, ty).val {
        TypeT::Void => if op == BinOp::Eq { Some(txt("==")) } else { None },
        TypeT::SLProp => slprop_binop(op),
        TypeT::Bool => bool_binop(op),
        TypeT::Int { signed, width } => int_binop(op, *signed, *width),
        TypeT::SizeT => size_binop(op),
        TypeT::PtrdiffT => ptrdiff_binop(op),
        TypeT::Float { width } => float_binop(op, *width),
        TypeT::SpecInt => math_binop(op),
        TypeT::SpecNat => math_binop(op),
        TypeT::Pointer(_, kind) => pointer_binop(op, *kind),
        _ => None,
    }
}

/// The types recorded for a named type.
pub open spec fn spec_find_val_params(l: Rc<List<ValParams>>, k: TypeRef) -> Rc<List<DocT>>
    decreases l,
{
    match *l {
        List::Nil => spec_nil(),
        List::Cons(h, t) => {
            if spec_same_type_ref(h.key, k) {
                h.types
            } else {
                spec_find_val_params(t, k)
            }
        },
    }
}

/// The types recorded for a named type.
pub fn find_val_params(l: &Rc<List<ValParams>>, k: &TypeRef) -> (out: Rc<List<DocT>>)
    ensures
        out == spec_find_val_params(*l, *k),
    decreases l,
{
    match &**l {
        List::Nil => nil(),
        List::Cons(h, t) => if same_type_ref(&h.key, k) { h.types.clone() } else { find_val_params(t, k) },
    }
}

/// The statements of a block, followed by the rest.
#[verifier::opaque]
pub open spec fn spec_append_rest(
    block_stmts: Rc<List<Stmt>>,
    rest: Rc<List<Stmt>>,
) -> Rc<List<Stmt>>
{
    spec_list_append(block_stmts, rest)
}

/// The statements of a block, followed by the rest.
pub fn append_rest(block_stmts: &Rc<List<Stmt>>, rest: &Rc<List<Stmt>>) -> (out: Rc<List<Stmt>>)
    ensures
        out == spec_append_rest(*block_stmts, *rest),
{
    proof {
        reveal(spec_append_rest);
    }
    list_append(block_stmts, rest.clone())
}

/// Reports an error at a place.
///
/// As the state that [`Emitter::report`] leaves.
#[verifier::opaque]
pub open spec fn spec_report(st: Emitter, msg: Text, loc: Loc) -> Emitter
{
    let st = Emitter { diags: spec_cons(spec_mk_error(loc, msg), st.diags), ..st };
    st
}

/// A name for a temporary that no other has.
///
/// As the state that [`Emitter::fresh_tmp`] leaves, with its result.
#[verifier::opaque]
pub open spec fn spec_fresh_tmp(st: Emitter, prefix: &'static str) -> (Emitter, Doc)
{
    let tmp = spec_text_doc(spec_cat4(spec_lit("__pal_"), spec_lit(prefix), spec_lit("_"), spec_num(st.tmp_counter)));
    let st = Emitter { tmp_counter: spec_bump(st.tmp_counter), ..st };
    (st, tmp)
}

/// The text of a name, without its module.
///
/// As the state that [`Emitter::mangle_name`] leaves, with its result.
#[verifier::opaque]
pub open spec fn spec_mangle_name(st: Emitter, n: Rc<Name>) -> (Emitter, Text)
{
    let (nm, t) = spec_mangle(st.nm, n);
    let st = Emitter { nm: nm, ..st };
    (st, t)
}

/// A text of a module, qualified where that module is another one.
#[verifier::opaque]
pub open spec fn spec_qualified(st: Emitter, owner: Option<Text>, text: Text) -> Doc
{
    match owner {
        Some(m) => {
            if spec_same_text(m, st.current_module) {
                spec_text_doc(text)
            } else {
                spec_text_doc(spec_cat3(m, spec_lit("."), text))
            }
        },
        None => spec_text_doc(text),
    }
}

/// The module of a typedef's name: opaque types have another than typedefs.
#[verifier::opaque]
pub open spec fn spec_typedef_module(st: Emitter, t: TypeRef) -> Option<Text>
{
    match t {
        TypeRef::Typedef(n) => {
            match spec_find_module(st.typedef_override_map, n) {
                Some(m) => Some(m),
                None => Some(spec_type_ref_module(t)),
            }
        },
        _ => Some(spec_type_ref_module(t)),
    }
}

/// The module that defines a name.
#[verifier::opaque]
pub open spec fn spec_owner_module(st: Emitter, n: Rc<Name>) -> Option<Text>
{
    match *n {
        Name::Fn(v) => spec_find_module(st.fn_module_map, v),
        Name::TypeRef(t) | Name::TypeRefPred(t) => spec_typedef_module(st, t),
        Name::TypeRefUninitPred(t) | Name::TypeRefDefault(t) => spec_typedef_module(st, t),
        _ => spec_module_for_name(n),
    }
}

/// A name, qualified where it belongs to another module.
///
/// As the state that [`Emitter::emit_name`] leaves, with its result.
#[verifier::opaque]
pub open spec fn spec_emit_name(st: Emitter, name: Name) -> (Emitter, Doc)
{
    let n = Rc::new(name);
    let (st, mangled) = spec_mangle_name(st, n);
    (st, spec_qualified(st, spec_owner_module(st, n), mangled))
}

/// A variable.
///
/// As the state that [`Emitter::emit_var_name`] leaves, with its result.
#[verifier::opaque]
pub open spec fn spec_emit_var_name(st: Emitter, v: Text) -> (Emitter, Doc)
{
    spec_emit_name(st, Name::Var(v))
}

/// A local name, never qualified.
///
/// As the state that [`Emitter::local_name`] leaves, with its result.
#[verifier::opaque]
pub open spec fn spec_local_name(st: Emitter, name: Name) -> (Emitter, Doc)
{
    let (st, t) = spec_mangle_name(st, Rc::new(name));
    (st, spec_text_doc(t))
}

impl Emitter {
    /// Reports an error at a place.
    pub fn report(&mut self, msg: Text, loc: &Loc)
        ensures
            *final(self) == spec_report(*old(self), msg, *loc),
            extends(final(self).diags, old(self).diags),
            final(self).fn_module_map == old(self).fn_module_map,
            final(self).typedef_override_map == old(self).typedef_override_map,
    {
        proof {
            reveal(spec_report);
            reveal_with_fuel(extends, 2);
        }
        self.diags = cons(mk_error(loc, msg), self.diags.clone());
    }

    /// A name for a temporary that no other has.
    pub fn fresh_tmp(&mut self, prefix: &'static str) -> (out: Doc)
        ensures
            (*final(self), out) == spec_fresh_tmp(*old(self), prefix),
            extends(final(self).diags, old(self).diags),
            final(self).fn_module_map == old(self).fn_module_map,
            final(self).typedef_override_map == old(self).typedef_override_map,
    {
        proof {
            reveal(spec_fresh_tmp);
        }
        let tmp = text_doc(cat4(lit("__pal_"), lit(prefix), lit("_"), num(self.tmp_counter)));
        self.tmp_counter = bump(self.tmp_counter);
        tmp
    }

    /// The text of a name, without its module.
    pub fn mangle_name(&mut self, n: &Rc<Name>) -> (out: Text)
        ensures
            (*final(self), out) == spec_mangle_name(*old(self), *n),
            extends(final(self).diags, old(self).diags),
            final(self).fn_module_map == old(self).fn_module_map,
            final(self).typedef_override_map == old(self).typedef_override_map,
    {
        proof {
            reveal(spec_mangle_name);
        }
        let (nm, t) = mangle(&self.nm, n);
        self.nm = nm;
        t
    }

    /// A text of a module, qualified where that module is another one.
    pub fn qualified(&self, owner: &Option<Text>, text: Text) -> (out: Doc)
        ensures
            out == spec_qualified(*self, *owner, text),
    {
        proof {
            reveal(spec_qualified);
        }
        match owner {
            Some(m) => if same_text(m, &self.current_module) { text_doc(text) } else { text_doc(cat3(m.clone(), lit("."), text)) },
            None => text_doc(text),
        }
    }

    /// The module of a typedef's name: opaque types have another than typedefs.
    pub fn typedef_module(&self, t: &TypeRef) -> (out: Option<Text>)
        ensures
            out == spec_typedef_module(*self, *t),
    {
        proof {
            reveal(spec_typedef_module);
        }
        match t {
            TypeRef::Typedef(n) => match find_module(&self.typedef_override_map, n) {
                Some(m) => Some(m),
                None => Some(type_ref_module(t)),
            },
            _ => Some(type_ref_module(t)),
        }
    }

    /// The module that defines a name.
    pub fn owner_module(&self, n: &Rc<Name>) -> (out: Option<Text>)
        ensures
            out == spec_owner_module(*self, *n),
    {
        proof {
            reveal(spec_owner_module);
        }
        match &**n {
            Name::Fn(v) => find_module(&self.fn_module_map, v),
            Name::TypeRef(t) | Name::TypeRefPred(t) => self.typedef_module(t),
            Name::TypeRefUninitPred(t) | Name::TypeRefDefault(t) => self.typedef_module(t),
            _ => module_for_name(n),
        }
    }

    /// A name, qualified where it belongs to another module.
    pub fn emit_name(&mut self, name: Name) -> (out: Doc)
        ensures
            (*final(self), out) == spec_emit_name(*old(self), name),
            extends(final(self).diags, old(self).diags),
            final(self).fn_module_map == old(self).fn_module_map,
            final(self).typedef_override_map == old(self).typedef_override_map,
    {
        proof {
            reveal(spec_emit_name);
        }
        let n = Rc::new(name);
        let mangled = self.mangle_name(&n);
        self.qualified(&self.owner_module(&n), mangled)
    }

    /// A variable.
    pub fn emit_var_name(&mut self, v: &Text) -> (out: Doc)
        ensures
            (*final(self), out) == spec_emit_var_name(*old(self), *v),
            extends(final(self).diags, old(self).diags),
            final(self).fn_module_map == old(self).fn_module_map,
            final(self).typedef_override_map == old(self).typedef_override_map,
    {
        proof {
            reveal(spec_emit_var_name);
        }
        self.emit_name(Name::Var(v.clone()))
    }

    /// A local name, never qualified.
    pub fn local_name(&mut self, name: Name) -> (out: Doc)
        ensures
            (*final(self), out) == spec_local_name(*old(self), name),
            extends(final(self).diags, old(self).diags),
            final(self).fn_module_map == old(self).fn_module_map,
            final(self).typedef_override_map == old(self).typedef_override_map,
    {
        proof {
            reveal(spec_local_name);
        }
        let t = self.mangle_name(&Rc::new(name));
        text_doc(t)
    }
}

} // verus!
