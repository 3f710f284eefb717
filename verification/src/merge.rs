//! Merging the declarations of several files.

use crate::list::{
    List, cons, l1, law_lists_keep_their_items, lemma_items_list_of, list_is_empty, list_len,
    list_of, list_push, nil, spec_cons, spec_l1, spec_list_is_empty, spec_list_len,
    spec_list_push, spec_nil,
};
use crate::text::{
    Text, cat, cat3, cat4, lit, num, same_text, spec_cat, spec_cat3, spec_cat4, spec_lit,
    spec_num, spec_same_text,
};
use crate::ir::{
    Decl, DeclT, Expr, FnArg, FnDecl, FnDefn, GhostArg, GlobalVar, IncludeDecl, LetDecl,
    OpaqueTypeDecl, StructDefn, TranslationUnit, UnionDefn, same_name, spec_same_name,
};
use crate::diag::{Diagnostic, Diagnostics, extends, mk_error, spec_mk_error};
use crate::env::{
    Env, empty_env, push_decls, spec_empty_env, spec_push_decls, spec_vtype_eq, vtype_eq,
};
use crate::emit_base::{decl_text, spec_decl_text};
use crate::syntax_eq::{same_exprs, spec_same_exprs};
use crate::rename::{
    Rename, clone_opt_ident, rename_exprs, rename_type, spec_clone_opt_ident, spec_rename_exprs,
    spec_rename_type,
};
use crate::type_deps::{reorder_type_deps, spec_reorder_type_deps};
use crate::laws_merge::decl_keys;
use crate::laws_passes::{declares, law_merging_declares_everything_once, merge_env, remains};
use crate::laws_twice::{acyclic, definitions_first, law_merged_definitions_come_first};
use std::rc::Rc;
use vstd::prelude::*;

verus! {

broadcast use crate::diag::lemma_extends_trans;

/// The kinds of declarations.
#[derive(Clone, Copy, Debug, PartialEq, Eq, Structural)]
pub enum DeclKind {
    Typedef,
    StructDefn,
    StructDecl,
    UnionDefn,
    FnDefn,
    FnDecl,
    GlobalVar,
    IncludeDecl,
    LetDecl,
    OpaqueTypeDecl,
}

/// The kind of a declaration.
#[verifier::opaque]
pub open spec fn spec_decl_kind(d: Rc<Decl>) -> DeclKind
{
    match d.val {
        DeclT::Typedef(_) => DeclKind::Typedef,
        DeclT::StructDefn(_) => DeclKind::StructDefn,
        DeclT::StructDecl(_) => DeclKind::StructDecl,
        DeclT::UnionDefn(_) => DeclKind::UnionDefn,
        DeclT::FnDefn(_) => DeclKind::FnDefn,
        DeclT::FnDecl(_) => DeclKind::FnDecl,
        DeclT::GlobalVar(_) => DeclKind::GlobalVar,
        DeclT::IncludeDecl(_) => DeclKind::IncludeDecl,
        DeclT::LetDecl(_) => DeclKind::LetDecl,
        DeclT::OpaqueTypeDecl(_) => DeclKind::OpaqueTypeDecl,
    }
}

/// The kind of a declaration.
pub fn decl_kind(d: &Rc<Decl>) -> (out: DeclKind)
    ensures
        out == spec_decl_kind(*d),
{
    proof {
        reveal(spec_decl_kind);
    }
    match &d.val {
        DeclT::Typedef(_) => DeclKind::Typedef,
        DeclT::StructDefn(_) => DeclKind::StructDefn,
        DeclT::StructDecl(_) => DeclKind::StructDecl,
        DeclT::UnionDefn(_) => DeclKind::UnionDefn,
        DeclT::FnDefn(_) => DeclKind::FnDefn,
        DeclT::FnDecl(_) => DeclKind::FnDecl,
        DeclT::GlobalVar(_) => DeclKind::GlobalVar,
        DeclT::IncludeDecl(_) => DeclKind::IncludeDecl,
        DeclT::LetDecl(_) => DeclKind::LetDecl,
        DeclT::OpaqueTypeDecl(_) => DeclKind::OpaqueTypeDecl,
    }
}

/// Whether two declarations declare the same thing in the same way.
#[verifier::opaque]
pub open spec fn spec_same_decl_key(a: Rc<Decl>, b: Rc<Decl>) -> bool
{
    spec_decl_kind(a) == spec_decl_kind(b) && spec_same_text(spec_decl_text(a), spec_decl_text(b))
}

/// Whether two declarations declare the same thing in the same way.
pub fn same_decl_key(a: &Rc<Decl>, b: &Rc<Decl>) -> (out: bool)
    ensures
        out == spec_same_decl_key(*a, *b),
{
    proof {
        reveal(spec_same_decl_key);
    }
    decl_kind(a) == decl_kind(b) && same_text(&decl_text(a), &decl_text(b))
}

/// Whether all types of two signatures agree, one by one.
pub open spec fn spec_arg_types_match(env: Env, a: Rc<List<FnArg>>, b: Rc<List<FnArg>>) -> bool
    decreases a,
{
    match (*a, *b) {
        (List::Nil, List::Nil) => true,
        (List::Cons(x, s), List::Cons(y, t)) => spec_vtype_eq(env, x.ty, y.ty) && spec_arg_types_match(env, s, t),
        _ => false,
    }
}

/// Whether all types of two signatures agree, one by one.
pub fn arg_types_match(env: &Env, a: &Rc<List<FnArg>>, b: &Rc<List<FnArg>>) -> (out: bool)
    ensures
        out == spec_arg_types_match(*env, *a, *b),
    decreases a,
{
    match (&**a, &**b) {
        (List::Nil, List::Nil) => true,
        (List::Cons(x, s), List::Cons(y, t)) => vtype_eq(env, &x.ty, &y.ty) && arg_types_match(env, s, t),
        _ => false,
    }
}

/// Whether a declaration and a definition have the same types.
#[verifier::opaque]
pub open spec fn spec_types_match(env: Env, a: Rc<FnDecl>, b: Rc<FnDecl>) -> bool
{
    spec_arg_types_match(env, a.args, b.args) && spec_vtype_eq(env, a.ret_type, b.ret_type)
}

/// Whether a declaration and a definition have the same types.
pub fn types_match(env: &Env, a: &Rc<FnDecl>, b: &Rc<FnDecl>) -> (out: bool)
    ensures
        out == spec_types_match(*env, *a, *b),
{
    proof {
        reveal(spec_types_match);
    }
    arg_types_match(env, &a.args, &b.args) && vtype_eq(env, &a.ret_type, &b.ret_type)
}

/// The renames of one signature's parameters to another's, in front of `acc`.
pub open spec fn spec_arg_renames(
    a: Rc<List<FnArg>>,
    b: Rc<List<FnArg>>,
    acc: Rc<List<Rename>>,
) -> Rc<List<Rename>>
    decreases a,
{
    match (*a, *b) {
        (List::Cons(x, s), List::Cons(y, t)) => {
            match (x.name, y.name) {
                (Some(m), Some(n)) => {
                    if spec_same_name(m, n) {
                        spec_arg_renames(s, t, acc)
                    } else {
                        spec_arg_renames(s, t, spec_cons(Rc::new(Rename { from: m.val, to: n }), acc))
                    }
                },
                _ => spec_arg_renames(s, t, acc),
            }
        },
        _ => acc,
    }
}

/// The renames of one signature's parameters to another's, in front of `acc`.
pub fn arg_renames(a: &Rc<List<FnArg>>, b: &Rc<List<FnArg>>, acc: Rc<List<Rename>>) -> (out: Rc<List<Rename>>)
    ensures
        out == spec_arg_renames(*a, *b, acc),
    decreases a,
{
    match (&**a, &**b) {
        (List::Cons(x, s), List::Cons(y, t)) => match (&x.name, &y.name) {
            (Some(m), Some(n)) => if same_name(m, n) {
                arg_renames(s, t, acc)
            } else {
                arg_renames(s, t, cons(Rc::new(Rename { from: m.val.clone(), to: n.clone() }), acc))
            },
            _ => arg_renames(s, t, acc),
        },
        _ => acc,
    }
}

/// The renames of one signature's ghost parameters to another's, in front of `acc`.
pub open spec fn spec_ghost_renames(
    a: Rc<List<GhostArg>>,
    b: Rc<List<GhostArg>>,
    acc: Rc<List<Rename>>,
) -> Rc<List<Rename>>
    decreases a,
{
    match (*a, *b) {
        (List::Cons(x, s), List::Cons(y, t)) => {
            if spec_same_name(x.name, y.name) {
                spec_ghost_renames(s, t, acc)
            } else {
                spec_ghost_renames(s, t, spec_cons(Rc::new(Rename { from: x.name.val, to: y.name }), acc))
            }
        },
        _ => acc,
    }
}

/// The renames of one signature's ghost parameters to another's, in front of `acc`.
pub fn ghost_renames(
    a: &Rc<List<GhostArg>>,
    b: &Rc<List<GhostArg>>,
    acc: Rc<List<Rename>>,
) -> (out: Rc<List<Rename>>)
    ensures
        out == spec_ghost_renames(*a, *b, acc),
    decreases a,
{
    match (&**a, &**b) {
        (List::Cons(x, s), List::Cons(y, t)) => if same_name(&x.name, &y.name) {
            ghost_renames(s, t, acc)
        } else {
            ghost_renames(s, t, cons(Rc::new(Rename { from: x.name.val.clone(), to: y.name.clone() }), acc))
        },
        _ => acc,
    }
}

/// The renames of one signature's parameters to another's.
#[verifier::opaque]
pub open spec fn spec_param_renames(a: Rc<FnDecl>, b: Rc<FnDecl>) -> Rc<List<Rename>>
{
    spec_ghost_renames(a.ghost_args, b.ghost_args, spec_arg_renames(a.args, b.args, spec_nil()))
}

/// The renames of one signature's parameters to another's.
pub fn param_renames(a: &Rc<FnDecl>, b: &Rc<FnDecl>) -> (out: Rc<List<Rename>>)
    ensures
        out == spec_param_renames(*a, *b),
{
    proof {
        reveal(spec_param_renames);
    }
    ghost_renames(&a.ghost_args, &b.ghost_args, arg_renames(&a.args, &b.args, nil()))
}

/// Whether a function has a contract.
#[verifier::opaque]
pub open spec fn spec_has_specs(f: Rc<FnDecl>) -> bool
{
    !spec_list_is_empty(f.requires_) || !spec_list_is_empty(f.ensures_)
}

/// Whether a function has a contract.
pub fn has_specs(f: &Rc<FnDecl>) -> (out: bool)
    ensures
        out == spec_has_specs(*f),
{
    proof {
        reveal(spec_has_specs);
    }
    !list_is_empty(&f.requires_) || !list_is_empty(&f.ensures_)
}

/// Whether two functions have the same contract, up to the names of their parameters.
#[verifier::opaque]
pub open spec fn spec_specs_agree(a: Rc<FnDecl>, b: Rc<FnDecl>) -> bool
{
    let r = spec_param_renames(a, b);
    spec_same_exprs(spec_rename_exprs(a.requires_, r), b.requires_) && spec_same_exprs(spec_rename_exprs(a.ensures_, r), b.ensures_)
}

/// Whether two functions have the same contract, up to the names of their parameters.
pub fn specs_agree(a: &Rc<FnDecl>, b: &Rc<FnDecl>) -> (out: bool)
    ensures
        out == spec_specs_agree(*a, *b),
{
    proof {
        reveal(spec_specs_agree);
    }
    let r = param_renames(a, b);
    same_exprs(&rename_exprs(&a.requires_, &r), &b.requires_) && same_exprs(&rename_exprs(&a.ensures_, &r), &b.ensures_)
}

/// Two declarations of a global as one. Its value, purity and externness belong to the object
/// and not to any one declaration, so what either says is kept: it is external only if no
/// declaration defines it.
#[verifier::opaque]
pub open spec fn spec_merge_globals(a: Rc<GlobalVar>, b: Rc<GlobalVar>) -> Rc<GlobalVar>
{
    Rc::new(GlobalVar { name: b.name, ty: b.ty, init: match b.init {
                Some(e) => Some(e),
                None => {
                    match a.init {
                        Some(e) => Some(e),
                        None => None,
                    }
                },
            }, is_pure: a.is_pure || b.is_pure, is_external: a.is_external && b.is_external, opaque_to_smt: a.opaque_to_smt || b.opaque_to_smt, is_enum_constant: b.is_enum_constant })
}

/// Two declarations of a global as one. Its value, purity and externness belong to the object
/// and not to any one declaration, so what either says is kept: it is external only if no
/// declaration defines it.
pub fn merge_globals(a: &Rc<GlobalVar>, b: &Rc<GlobalVar>) -> (out: Rc<GlobalVar>)
    ensures
        out == spec_merge_globals(*a, *b),
{
    proof {
        reveal(spec_merge_globals);
    }
    Rc::new(GlobalVar {
        name: b.name.clone(),
        ty: b.ty.clone(),
        init: match &b.init {
            Some(e) => Some(e.clone()),
            None => match &a.init {
                Some(e) => Some(e.clone()),
                None => None,
            },
        },
        is_pure: a.is_pure || b.is_pure,
        is_external: a.is_external && b.is_external,
        opaque_to_smt: a.opaque_to_smt || b.opaque_to_smt,
        is_enum_constant: b.is_enum_constant,
    })
}

/// Whether the earlier of two declarations of a global says more about the object: it has the
/// initializer, or it defines the object and the later one does not.
#[verifier::opaque]
pub open spec fn spec_earlier_says_more(a: Rc<GlobalVar>, b: Rc<GlobalVar>) -> bool
{
    b.init.is_none() && (a.init.is_some() || (b.is_external && !a.is_external))
}

/// Whether the earlier of two declarations of a global says more about the object: it has the
/// initializer, or it defines the object and the later one does not.
pub fn earlier_says_more(a: &Rc<GlobalVar>, b: &Rc<GlobalVar>) -> (out: bool)
    ensures
        out == spec_earlier_says_more(*a, *b),
{
    proof {
        reveal(spec_earlier_says_more);
    }
    b.init.is_none() && (a.init.is_some() || (b.is_external && !a.is_external))
}

/// Two declarations of the same thing as one: the later, but for globals.
#[verifier::opaque]
pub open spec fn spec_combine(a: Rc<Decl>, b: Rc<Decl>) -> Rc<Decl>
{
    match (a.val, b.val) {
        (DeclT::GlobalVar(x), DeclT::GlobalVar(y)) => {
            Rc::new(Decl { loc: if spec_earlier_says_more(x, y) {
                        a.loc
                    } else {
                        b.loc
                    }, val: DeclT::GlobalVar(spec_merge_globals(x, y)) })
        },
        _ => b,
    }
}

/// Two declarations of the same thing as one: the later, but for globals.
pub fn combine(a: &Rc<Decl>, b: &Rc<Decl>) -> (out: Rc<Decl>)
    ensures
        out == spec_combine(*a, *b),
{
    proof {
        reveal(spec_combine);
    }
    match (&a.val, &b.val) {
        (DeclT::GlobalVar(x), DeclT::GlobalVar(y)) => Rc::new(Decl {
            loc: if earlier_says_more(x, y) { a.loc.clone() } else { b.loc.clone() },
            val: DeclT::GlobalVar(merge_globals(x, y)),
        }),
        _ => b.clone(),
    }
}

/// The declarations with one more, which joins an earlier one of the same thing.
pub open spec fn spec_add_decl(l: Rc<List<Decl>>, d: Rc<Decl>) -> Rc<List<Decl>>
    decreases l,
{
    match *l {
        List::Nil => spec_l1(d),
        List::Cons(h, t) => {
            if spec_same_decl_key(h, d) {
                spec_cons(spec_combine(h, d), t)
            } else {
                spec_cons(h, spec_add_decl(t, d))
            }
        },
    }
}

/// The declarations with one more, which joins an earlier one of the same thing.
pub fn add_decl(l: &Rc<List<Decl>>, d: &Rc<Decl>) -> (out: Rc<List<Decl>>)
    ensures
        out == spec_add_decl(*l, *d),
    decreases l,
{
    match &**l {
        List::Nil => l1(d.clone()),
        List::Cons(h, t) => if same_decl_key(h, d) { cons(combine(h, d), t.clone()) } else { cons(h.clone(), add_decl(t, d)) },
    }
}

/// The declarations after those in `done`, each thing once, where it was first declared.
pub open spec fn spec_dedup_onto(done: Rc<List<Decl>>, l: Rc<List<Decl>>) -> Rc<List<Decl>>
    decreases l,
{
    match *l {
        List::Nil => done,
        List::Cons(h, t) => spec_dedup_onto(spec_add_decl(done, h), t),
    }
}

/// The declarations after those in `done`, each thing once, where it was first declared.
pub fn dedup_onto(done: Rc<List<Decl>>, l: &Rc<List<Decl>>) -> (out: Rc<List<Decl>>)
    ensures
        out == spec_dedup_onto(done, *l),
    decreases l,
{
    match &**l {
        List::Nil => done,
        List::Cons(h, t) => dedup_onto(add_decl(&done, h), t),
    }
}

/// The first declaration of the same thing.
pub open spec fn spec_first_same(l: Rc<List<Decl>>, d: Rc<Decl>) -> Option<Rc<Decl>>
    decreases l,
{
    match *l {
        List::Nil => None,
        List::Cons(h, t) => {
            if spec_same_decl_key(h, d) {
                Some(h)
            } else {
                spec_first_same(t, d)
            }
        },
    }
}

/// The first declaration of the same thing.
pub fn first_same(l: &Rc<List<Decl>>, d: &Rc<Decl>) -> (out: Option<Rc<Decl>>)
    ensures
        out == spec_first_same(*l, *d),
    decreases l,
{
    match &**l {
        List::Nil => None,
        List::Cons(h, t) => if same_decl_key(h, d) { Some(h.clone()) } else { first_same(t, d) },
    }
}

/// What is said of a second declaration of a function, given the first: contracts that disagree
/// are an error, instead of one of them being dropped.
#[verifier::opaque]
pub open spec fn spec_check_redeclared(
    diags: Rc<List<Diagnostic>>,
    first: Rc<Decl>,
    d: Rc<Decl>,
) -> Rc<List<Diagnostic>>
{
    match (first.val, d.val) {
        (DeclT::FnDecl(a), DeclT::FnDecl(b)) => {
            if spec_has_specs(a) && spec_has_specs(b) && !spec_specs_agree(a, b) {
                spec_cons(spec_mk_error(b.name.loc, spec_cat3(spec_lit("multiple declarations of "), b.name.val, spec_lit(" have differing specifications"))), diags)
            } else {
                diags
            }
        },
        _ => diags,
    }
}

/// What is said of a second declaration of a function, given the first: contracts that disagree
/// are an error, instead of one of them being dropped.
pub fn check_redeclared(diags: Rc<List<Diagnostic>>, first: &Rc<Decl>, d: &Rc<Decl>) -> (out: Rc<List<Diagnostic>>)
    ensures
        out == spec_check_redeclared(diags, *first, *d),
        extends(out, diags),
{
    proof {
        reveal(spec_check_redeclared);
        reveal_with_fuel(extends, 2);
    }
    match (&first.val, &d.val) {
        (DeclT::FnDecl(a), DeclT::FnDecl(b)) => if has_specs(a) && has_specs(b) && !specs_agree(a, b) {
            cons(mk_error(&b.name.loc, cat3(lit("multiple declarations of "), b.name.val.clone(), lit(" have differing specifications"))), diags)
        } else {
            diags
        },
        _ => diags,
    }
}

/// The messages about functions declared again, where `seen` are the declarations before.
pub open spec fn spec_check_redeclarations(
    diags: Rc<List<Diagnostic>>,
    seen: Rc<List<Decl>>,
    l: Rc<List<Decl>>,
) -> Rc<List<Diagnostic>>
    decreases l,
{
    match *l {
        List::Nil => diags,
        List::Cons(h, t) => {
            match spec_first_same(seen, h) {
                Some(f) => spec_check_redeclarations(spec_check_redeclared(diags, f, h), seen, t),
                None => spec_check_redeclarations(diags, spec_list_push(seen, h), t),
            }
        },
    }
}

/// The messages about functions declared again, where `seen` are the declarations before.
pub fn check_redeclarations(
    diags: Rc<List<Diagnostic>>,
    seen: Rc<List<Decl>>,
    l: &Rc<List<Decl>>,
) -> (out: Rc<List<Diagnostic>>)
    ensures
        out == spec_check_redeclarations(diags, seen, *l),
        extends(out, diags),
    decreases l,
{
    match &**l {
        List::Nil => diags,
        List::Cons(h, t) => match first_same(&seen, h) {
            Some(f) => check_redeclarations(check_redeclared(diags, &f, h), seen, t),
            None => check_redeclarations(diags, list_push(&seen, h.clone()), t),
        },
    }
}

/// The definition of a function.
pub open spec fn spec_find_defn(l: Rc<List<Decl>>, name: Text) -> Option<Rc<FnDefn>>
    decreases l,
{
    match *l {
        List::Nil => None,
        List::Cons(h, t) => {
            match h.val {
                DeclT::FnDefn(f) => {
                    if spec_same_text(f.decl.name.val, name) {
                        Some(f)
                    } else {
                        spec_find_defn(t, name)
                    }
                },
                _ => spec_find_defn(t, name),
            }
        },
    }
}

/// The definition of a function.
pub fn find_defn(l: &Rc<List<Decl>>, name: &Text) -> (out: Option<Rc<FnDefn>>)
    ensures
        out == spec_find_defn(*l, *name),
    decreases l,
{
    match &**l {
        List::Nil => None,
        List::Cons(h, t) => match &h.val {
            DeclT::FnDefn(f) => if same_text(&f.decl.name.val, name) { Some(f.clone()) } else { find_defn(t, name) },
            _ => find_defn(t, name),
        },
    }
}

/// The whole declaration that defines a function.
pub open spec fn spec_find_defn_decl(l: Rc<List<Decl>>, name: Text) -> Option<Rc<Decl>>
    decreases l,
{
    match *l {
        List::Nil => None,
        List::Cons(h, t) => {
            match h.val {
                DeclT::FnDefn(f) => {
                    if spec_same_text(f.decl.name.val, name) {
                        Some(h)
                    } else {
                        spec_find_defn_decl(t, name)
                    }
                },
                _ => spec_find_defn_decl(t, name),
            }
        },
    }
}

/// The whole declaration that defines a function.
pub fn find_defn_decl(l: &Rc<List<Decl>>, name: &Text) -> (out: Option<Rc<Decl>>)
    ensures
        out == spec_find_defn_decl(*l, *name),
    decreases l,
{
    match &**l {
        List::Nil => None,
        List::Cons(h, t) => match &h.val {
            DeclT::FnDefn(f) => if same_text(&f.decl.name.val, name) { Some(h.clone()) } else { find_defn_decl(t, name) },
            _ => find_defn_decl(t, name),
        },
    }
}

/// The declaration of a function.
pub open spec fn spec_find_fn_decl(l: Rc<List<Decl>>, name: Text) -> Option<Rc<FnDecl>>
    decreases l,
{
    match *l {
        List::Nil => None,
        List::Cons(h, t) => {
            match h.val {
                DeclT::FnDecl(f) => {
                    if spec_same_text(f.name.val, name) {
                        Some(f)
                    } else {
                        spec_find_fn_decl(t, name)
                    }
                },
                _ => spec_find_fn_decl(t, name),
            }
        },
    }
}

/// The declaration of a function.
pub fn find_fn_decl(l: &Rc<List<Decl>>, name: &Text) -> (out: Option<Rc<FnDecl>>)
    ensures
        out == spec_find_fn_decl(*l, *name),
    decreases l,
{
    match &**l {
        List::Nil => None,
        List::Cons(h, t) => match &h.val {
            DeclT::FnDecl(f) => if same_text(&f.name.val, name) { Some(f.clone()) } else { find_fn_decl(t, name) },
            _ => find_fn_decl(t, name),
        },
    }
}

/// The declaration that defines a struct.
pub open spec fn spec_find_struct_defn(l: Rc<List<Decl>>, name: Text) -> Option<Rc<Decl>>
    decreases l,
{
    match *l {
        List::Nil => None,
        List::Cons(h, t) => {
            match h.val {
                DeclT::StructDefn(s) => {
                    if spec_same_text(s.name.val, name) {
                        Some(h)
                    } else {
                        spec_find_struct_defn(t, name)
                    }
                },
                _ => spec_find_struct_defn(t, name),
            }
        },
    }
}

/// The declaration that defines a struct.
pub fn find_struct_defn(l: &Rc<List<Decl>>, name: &Text) -> (out: Option<Rc<Decl>>)
    ensures
        out == spec_find_struct_defn(*l, *name),
    decreases l,
{
    match &**l {
        List::Nil => None,
        List::Cons(h, t) => match &h.val {
            DeclT::StructDefn(s) => if same_text(&s.name.val, name) { Some(h.clone()) } else { find_struct_defn(t, name) },
            _ => find_struct_defn(t, name),
        },
    }
}

/// Whether a struct is declared without its definition.
pub open spec fn spec_has_struct_decl(l: Rc<List<Decl>>, name: Text) -> bool
    decreases l,
{
    match *l {
        List::Nil => false,
        List::Cons(h, t) => {
            (match h.val {
                    DeclT::StructDecl(n) => spec_same_text(n.val, name),
                    _ => false,
            }) || spec_has_struct_decl(t, name)
        },
    }
}

/// Whether a struct is declared without its definition.
pub fn has_struct_decl(l: &Rc<List<Decl>>, name: &Text) -> (out: bool)
    ensures
        out == spec_has_struct_decl(*l, *name),
    decreases l,
{
    match &**l {
        List::Nil => false,
        List::Cons(h, t) => (match &h.val {
            DeclT::StructDecl(n) => same_text(&n.val, name),
            _ => false,
        }) || has_struct_decl(t, name),
    }
}

/// What becomes of a function that is declared and defined.
#[derive(Clone, Copy, Debug, PartialEq, Eq, Structural)]
pub enum Match {
    /// The types disagree.
    Mistyped,
    /// Only the definition has a contract.
    SpecOnDefn,
    /// Both have a contract, and the contracts disagree.
    Differing,
    /// The declaration becomes part of the definition.
    Merged,
}

/// What becomes of a function that is declared as `a` and defined as `b`.
#[verifier::opaque]
pub open spec fn spec_match_fn(env: Env, a: Rc<FnDecl>, b: Rc<FnDecl>) -> Match
{
    if !spec_types_match(env, a, b) {
        Match::Mistyped
    } else {
        if spec_has_specs(b) && !spec_has_specs(a) {
            Match::SpecOnDefn
        } else {
            if spec_has_specs(b) && !spec_specs_agree(a, b) {
                Match::Differing
            } else {
                Match::Merged
            }
        }
    }
}

/// What becomes of a function that is declared as `a` and defined as `b`.
pub fn match_fn(env: &Env, a: &Rc<FnDecl>, b: &Rc<FnDecl>) -> (out: Match)
    ensures
        out == spec_match_fn(*env, *a, *b),
{
    proof {
        reveal(spec_match_fn);
    }
    if !types_match(env, a, b) {
        Match::Mistyped
    } else if has_specs(b) && !has_specs(a) {
        Match::SpecOnDefn
    } else if has_specs(b) && !specs_agree(a, b) {
        Match::Differing
    } else {
        Match::Merged
    }
}

/// The messages about a function that is declared as `a` and defined as `b`.
#[verifier::opaque]
pub open spec fn spec_check_match(
    diags: Rc<List<Diagnostic>>,
    env: Env,
    a: Rc<FnDecl>,
    b: Rc<FnDecl>,
) -> Rc<List<Diagnostic>>
{
    match spec_match_fn(env, a, b) {
        Match::Mistyped => spec_cons(spec_mk_error(a.name.loc, spec_cat3(spec_lit("declaration of "), a.name.val, spec_lit(" has different types than its definition"))), diags),
        Match::SpecOnDefn => spec_cons(spec_mk_error(b.name.loc, spec_cat3(spec_lit("definition of "), a.name.val, spec_lit(" has specifications, but its declaration does not; specifications should be on the declaration"))), diags),
        Match::Differing => spec_cons(spec_mk_error(a.name.loc, spec_cat3(spec_lit("declaration and definition of "), a.name.val, spec_lit(" have differing specifications"))), diags),
        Match::Merged => {
            if spec_has_specs(a) && !spec_has_specs(b) && !spec_list_is_empty(b.ghost_args) && spec_list_len(a.ghost_args) != spec_list_len(b.ghost_args) {
                spec_cons(spec_mk_error(a.name.loc, spec_cat(spec_cat4(spec_lit("declaration of "), a.name.val, spec_lit(" lists "), spec_num(spec_list_len(a.ghost_args))), spec_cat3(spec_lit(" ghost argument(s) but its definition lists "), spec_num(spec_list_len(b.ghost_args)), spec_lit("; they must match (or the definition may omit them entirely to inherit the declaration's)")))), diags)
            } else {
                diags
            }
        },
    }
}

/// The messages about a function that is declared as `a` and defined as `b`.
pub fn check_match(diags: Rc<List<Diagnostic>>, env: &Env, a: &Rc<FnDecl>, b: &Rc<FnDecl>) -> (out: Rc<List<Diagnostic>>)
    ensures
        out == spec_check_match(diags, *env, *a, *b),
        extends(out, diags),
{
    proof {
        reveal(spec_check_match);
        reveal_with_fuel(extends, 2);
    }
    match match_fn(env, a, b) {
        Match::Mistyped => cons(mk_error(&a.name.loc, cat3(lit("declaration of "), a.name.val.clone(),
            lit(" has different types than its definition"))), diags),
        Match::SpecOnDefn => cons(mk_error(&b.name.loc, cat3(lit("definition of "), a.name.val.clone(),
            lit(" has specifications, but its declaration does not; specifications should be on the declaration"))), diags),
        Match::Differing => cons(mk_error(&a.name.loc, cat3(lit("declaration and definition of "), a.name.val.clone(),
            lit(" have differing specifications"))), diags),
        Match::Merged => if has_specs(a) && !has_specs(b) && !list_is_empty(&b.ghost_args)
            && list_len(&a.ghost_args) != list_len(&b.ghost_args) {
            cons(mk_error(&a.name.loc, cat(cat4(lit("declaration of "), a.name.val.clone(), lit(" lists "), num(list_len(&a.ghost_args))),
                cat3(lit(" ghost argument(s) but its definition lists "), num(list_len(&b.ghost_args)),
                    lit("; they must match (or the definition may omit them entirely to inherit the declaration's)")))), diags)
        } else {
            diags
        },
    }
}

/// The messages about functions that are declared in `l` and defined in `all`.
pub open spec fn spec_check_matches(
    diags: Rc<List<Diagnostic>>,
    env: Env,
    all: Rc<List<Decl>>,
    l: Rc<List<Decl>>,
) -> Rc<List<Diagnostic>>
    decreases l,
{
    match *l {
        List::Nil => diags,
        List::Cons(h, t) => {
            match h.val {
                DeclT::FnDecl(a) => {
                    match spec_find_defn(all, a.name.val) {
                        Some(f) => spec_check_matches(spec_check_match(diags, env, a, f.decl), env, all, t),
                        None => spec_check_matches(diags, env, all, t),
                    }
                },
                _ => spec_check_matches(diags, env, all, t),
            }
        },
    }
}

/// The messages about functions that are declared in `l` and defined in `all`.
pub fn check_matches(
    diags: Rc<List<Diagnostic>>,
    env: &Env,
    all: &Rc<List<Decl>>,
    l: &Rc<List<Decl>>,
) -> (out: Rc<List<Diagnostic>>)
    ensures
        out == spec_check_matches(diags, *env, *all, *l),
        extends(out, diags),
    decreases l,
{
    match &**l {
        List::Nil => diags,
        List::Cons(h, t) => match &h.val {
            DeclT::FnDecl(a) => match find_defn(all, &a.name.val) {
                Some(f) => check_matches(check_match(diags, env, a, &f.decl), env, all, t),
                None => check_matches(diags, env, all, t),
            },
            _ => check_matches(diags, env, all, t),
        },
    }
}

/// The parameters with other names in the refinements of their types.
pub open spec fn spec_rename_args(l: Rc<List<FnArg>>, r: Rc<List<Rename>>) -> Rc<List<FnArg>>
    decreases l,
{
    match *l {
        List::Nil => spec_nil(),
        List::Cons(h, t) => spec_cons(Rc::new(FnArg { name: spec_clone_opt_ident(h.name), ty: spec_rename_type(h.ty, r), mode: h.mode }), spec_rename_args(t, r)),
    }
}

/// The parameters with other names in the refinements of their types.
pub fn rename_args(l: &Rc<List<FnArg>>, r: &Rc<List<Rename>>) -> (out: Rc<List<FnArg>>)
    ensures
        out == spec_rename_args(*l, *r),
    decreases l,
{
    match &**l {
        List::Nil => nil(),
        List::Cons(h, t) => cons(Rc::new(FnArg { name: clone_opt_ident(&h.name), ty: rename_type(&h.ty, r), mode: h.mode }), rename_args(t, r)),
    }
}

/// A copy of an optional expression.
#[verifier::opaque]
pub open spec fn spec_clone_opt_expr(e: Option<Rc<Expr>>) -> Option<Rc<Expr>>
{
    match e {
        Some(x) => Some(x),
        None => None,
    }
}

/// A copy of an optional expression.
pub fn clone_opt_expr(e: &Option<Rc<Expr>>) -> (out: Option<Rc<Expr>>)
    ensures
        out == spec_clone_opt_expr(*e),
{
    proof {
        reveal(spec_clone_opt_expr);
    }
    match e {
        Some(x) => Some(x.clone()),
        None => None,
    }
}

/// The signature of a definition, with the names of a declaration's parameters in its types
/// replaced by its own. It may have inherited its types from the declaration, where a
/// refinement names the declaration's parameters.
#[verifier::opaque]
pub open spec fn spec_with_own_names(a: Rc<FnDecl>, b: Rc<FnDecl>) -> Rc<FnDecl>
{
    Rc::new(FnDecl { name: b.name, ret_type: b.ret_type, args: spec_rename_args(b.args, spec_param_renames(a, b)), ghost_args: b.ghost_args, requires_: b.requires_, ensures_: b.ensures_, is_pure: b.is_pure, is_rec: b.is_rec, is_total: b.is_total, decreases_: spec_clone_opt_expr(b.decreases_) })
}

/// The signature of a definition, with the names of a declaration's parameters in its types
/// replaced by its own. It may have inherited its types from the declaration, where a
/// refinement names the declaration's parameters.
pub fn with_own_names(a: &Rc<FnDecl>, b: &Rc<FnDecl>) -> (out: Rc<FnDecl>)
    ensures
        out == spec_with_own_names(*a, *b),
{
    proof {
        reveal(spec_with_own_names);
    }
    Rc::new(FnDecl {
        name: b.name.clone(),
        ret_type: b.ret_type.clone(),
        args: rename_args(&b.args, &param_renames(a, b)),
        ghost_args: b.ghost_args.clone(),
        requires_: b.requires_.clone(),
        ensures_: b.ensures_.clone(),
        is_pure: b.is_pure,
        is_rec: b.is_rec,
        is_total: b.is_total,
        decreases_: clone_opt_expr(&b.decreases_),
    })
}

/// The signature of a definition with the contract of its declaration, and with the
/// declaration's ghost arguments where it lists none: the contract speaks of them.
#[verifier::opaque]
pub open spec fn spec_with_specs(a: Rc<FnDecl>, b: Rc<FnDecl>) -> Rc<FnDecl>
{
    let r = spec_param_renames(a, b);
    Rc::new(FnDecl { name: b.name, ret_type: b.ret_type, args: spec_rename_args(b.args, r), ghost_args: if spec_list_is_empty(b.ghost_args) {
                a.ghost_args
            } else {
                b.ghost_args
            }, requires_: spec_rename_exprs(a.requires_, r), ensures_: spec_rename_exprs(a.ensures_, r), is_pure: b.is_pure, is_rec: b.is_rec, is_total: b.is_total, decreases_: spec_clone_opt_expr(b.decreases_) })
}

/// The signature of a definition with the contract of its declaration, and with the
/// declaration's ghost arguments where it lists none: the contract speaks of them.
pub fn with_specs(a: &Rc<FnDecl>, b: &Rc<FnDecl>) -> (out: Rc<FnDecl>)
    ensures
        out == spec_with_specs(*a, *b),
{
    proof {
        reveal(spec_with_specs);
    }
    let r = param_renames(a, b);
    Rc::new(FnDecl {
        name: b.name.clone(),
        ret_type: b.ret_type.clone(),
        args: rename_args(&b.args, &r),
        ghost_args: if list_is_empty(&b.ghost_args) { a.ghost_args.clone() } else { b.ghost_args.clone() },
        requires_: rename_exprs(&a.requires_, &r),
        ensures_: rename_exprs(&a.ensures_, &r),
        is_pure: b.is_pure,
        is_rec: b.is_rec,
        is_total: b.is_total,
        decreases_: clone_opt_expr(&b.decreases_),
    })
}

/// The signature that a definition `b` has after it met its declaration `a`.
#[verifier::opaque]
pub open spec fn spec_matched_signature(env: Env, a: Rc<FnDecl>, b: Rc<FnDecl>) -> Rc<FnDecl>
{
    match spec_match_fn(env, a, b) {
        Match::Mistyped => b,
        Match::SpecOnDefn | Match::Differing => spec_with_own_names(a, b),
        Match::Merged => {
            if spec_has_specs(a) && !spec_has_specs(b) {
                spec_with_specs(a, b)
            } else {
                spec_with_own_names(a, b)
            }
        },
    }
}

/// The signature that a definition `b` has after it met its declaration `a`.
pub fn matched_signature(env: &Env, a: &Rc<FnDecl>, b: &Rc<FnDecl>) -> (out: Rc<FnDecl>)
    ensures
        out == spec_matched_signature(*env, *a, *b),
{
    proof {
        reveal(spec_matched_signature);
    }
    match match_fn(env, a, b) {
        Match::Mistyped => b.clone(),
        Match::SpecOnDefn | Match::Differing => with_own_names(a, b),
        Match::Merged => if has_specs(a) && !has_specs(b) { with_specs(a, b) } else { with_own_names(a, b) },
    }
}

/// A definition after it met its declaration.
#[verifier::opaque]
pub open spec fn spec_matched_defn(env: Env, a: Rc<FnDecl>, d: Rc<Decl>) -> Rc<Decl>
{
    match d.val {
        DeclT::FnDefn(f) => Rc::new(Decl { loc: d.loc, val: DeclT::FnDefn(Rc::new(FnDefn { decl: spec_matched_signature(env, a, f.decl), body: f.body })) }),
        _ => d,
    }
}

/// A definition after it met its declaration.
pub fn matched_defn(env: &Env, a: &Rc<FnDecl>, d: &Rc<Decl>) -> (out: Rc<Decl>)
    ensures
        out == spec_matched_defn(*env, *a, *d),
{
    proof {
        reveal(spec_matched_defn);
    }
    match &d.val {
        DeclT::FnDefn(f) => Rc::new(Decl { loc: d.loc.clone(), val: DeclT::FnDefn(Rc::new(FnDefn {
            decl: matched_signature(env, a, &f.decl),
            body: f.body.clone(),
        })) }),
        _ => d.clone(),
    }
}

/// What stands where a function was declared: its definition, where that came later and the
/// two were merged; nothing, where it came earlier.
#[verifier::opaque]
pub open spec fn spec_settle_fn_decl(
    env: Env,
    all: Rc<List<Decl>>,
    d: Rc<Decl>,
    a: Rc<FnDecl>,
    later: Rc<List<Decl>>,
) -> Option<Rc<Decl>>
{
    match (spec_find_defn_decl(all, a.name.val), spec_find_defn(all, a.name.val)) {
        (Some(defn), Some(f)) => {
            if spec_match_fn(env, a, f.decl) == Match::Merged {
                match spec_find_defn(later, a.name.val) {
                    Some(_) => Some(spec_matched_defn(env, a, defn)),
                    None => None,
                }
            } else {
                Some(d)
            }
        },
        _ => Some(d),
    }
}

/// What stands where a function was declared: its definition, where that came later and the
/// two were merged; nothing, where it came earlier.
pub fn settle_fn_decl(
    env: &Env,
    all: &Rc<List<Decl>>,
    d: &Rc<Decl>,
    a: &Rc<FnDecl>,
    later: &Rc<List<Decl>>,
) -> (out: Option<Rc<Decl>>)
    ensures
        out == spec_settle_fn_decl(*env, *all, *d, *a, *later),
{
    proof {
        reveal(spec_settle_fn_decl);
    }
    match (find_defn_decl(all, &a.name.val), find_defn(all, &a.name.val)) {
        (Some(defn), Some(f)) => if match_fn(env, a, &f.decl) == Match::Merged {
            match find_defn(later, &a.name.val) {
                Some(_) => Some(matched_defn(env, a, &defn)),
                None => None,
            }
        } else {
            Some(d.clone())
        },
        _ => Some(d.clone()),
    }
}

/// What stands where a function was defined: the definition, unless it moved to where the
/// function was declared.
#[verifier::opaque]
pub open spec fn spec_settle_fn_defn(
    env: Env,
    all: Rc<List<Decl>>,
    d: Rc<Decl>,
    f: Rc<FnDefn>,
    later: Rc<List<Decl>>,
) -> Option<Rc<Decl>>
{
    match spec_find_fn_decl(all, f.decl.name.val) {
        Some(a) => {
            if spec_match_fn(env, a, f.decl) == Match::Merged {
                match spec_find_fn_decl(later, f.decl.name.val) {
                    Some(_) => Some(spec_matched_defn(env, a, d)),
                    None => None,
                }
            } else {
                Some(spec_matched_defn(env, a, d))
            }
        },
        None => Some(d),
    }
}

/// What stands where a function was defined: the definition, unless it moved to where the
/// function was declared.
pub fn settle_fn_defn(
    env: &Env,
    all: &Rc<List<Decl>>,
    d: &Rc<Decl>,
    f: &Rc<FnDefn>,
    later: &Rc<List<Decl>>,
) -> (out: Option<Rc<Decl>>)
    ensures
        out == spec_settle_fn_defn(*env, *all, *d, *f, *later),
{
    proof {
        reveal(spec_settle_fn_defn);
    }
    match find_fn_decl(all, &f.decl.name.val) {
        Some(a) => if match_fn(env, &a, &f.decl) == Match::Merged {
            match find_fn_decl(later, &f.decl.name.val) {
                Some(_) => Some(matched_defn(env, &a, d)),
                None => None,
            }
        } else {
            Some(matched_defn(env, &a, d))
        },
        None => Some(d.clone()),
    }
}

/// What stands where something was declared, where `later` is declared after it. A struct's
/// definition moves to where the struct was declared, if that came earlier.
#[verifier::opaque]
pub open spec fn spec_settle_decl(
    env: Env,
    all: Rc<List<Decl>>,
    d: Rc<Decl>,
    later: Rc<List<Decl>>,
) -> Option<Rc<Decl>>
{
    match d.val {
        DeclT::FnDecl(a) => spec_settle_fn_decl(env, all, d, a, later),
        DeclT::FnDefn(f) => spec_settle_fn_defn(env, all, d, f, later),
        DeclT::StructDecl(n) => {
            match spec_find_struct_defn(all, n.val) {
                Some(_) => spec_find_struct_defn(later, n.val),
                None => Some(d),
            }
        },
        DeclT::StructDefn(s) => {
            if spec_has_struct_decl(all, s.name.val) && !spec_has_struct_decl(later, s.name.val) {
                None
            } else {
                Some(d)
            }
        },
        _ => Some(d),
    }
}

/// What stands where something was declared, where `later` is declared after it. A struct's
/// definition moves to where the struct was declared, if that came earlier.
pub fn settle_decl(env: &Env, all: &Rc<List<Decl>>, d: &Rc<Decl>, later: &Rc<List<Decl>>) -> (out: Option<Rc<Decl>>)
    ensures
        out == spec_settle_decl(*env, *all, *d, *later),
{
    proof {
        reveal(spec_settle_decl);
    }
    match &d.val {
        DeclT::FnDecl(a) => settle_fn_decl(env, all, d, a, later),
        DeclT::FnDefn(f) => settle_fn_defn(env, all, d, f, later),
        DeclT::StructDecl(n) => match find_struct_defn(all, &n.val) {
            Some(_) => find_struct_defn(later, &n.val),
            None => Some(d.clone()),
        },
        DeclT::StructDefn(s) => if has_struct_decl(all, &s.name.val) && !has_struct_decl(later, &s.name.val) { None } else { Some(d.clone()) },
        _ => Some(d.clone()),
    }
}

/// The declarations after functions and structs met their definitions.
pub open spec fn spec_settle_decls(
    env: Env,
    all: Rc<List<Decl>>,
    l: Rc<List<Decl>>,
) -> Rc<List<Decl>>
    decreases l,
{
    match *l {
        List::Nil => spec_nil(),
        List::Cons(h, t) => {
            match spec_settle_decl(env, all, h, t) {
                Some(d) => spec_cons(d, spec_settle_decls(env, all, t)),
                None => spec_settle_decls(env, all, t),
            }
        },
    }
}

/// The declarations after functions and structs met their definitions.
pub fn settle_decls(env: &Env, all: &Rc<List<Decl>>, l: &Rc<List<Decl>>) -> (out: Rc<List<Decl>>)
    ensures
        out == spec_settle_decls(*env, *all, *l),
    decreases l,
{
    match &**l {
        List::Nil => nil(),
        List::Cons(h, t) => match settle_decl(env, all, h, t) {
            Some(d) => cons(d, settle_decls(env, all, t)),
            None => settle_decls(env, all, t),
        },
    }
}

/// The declarations, each thing once.
#[verifier::opaque]
pub open spec fn spec_dedup(l: Rc<List<Decl>>) -> Rc<List<Decl>>
{
    spec_dedup_onto(spec_nil(), l)
}

/// The declarations, each thing once.
pub fn dedup(l: &Rc<List<Decl>>) -> (out: Rc<List<Decl>>)
    ensures
        out == spec_dedup(*l),
{
    proof {
        reveal(spec_dedup);
    }
    dedup_onto(nil(), l)
}

/// The merged declarations.
#[verifier::opaque]
pub open spec fn spec_merge_decls(l: Rc<List<Decl>>) -> Rc<List<Decl>>
{
    let once = spec_dedup(l);
    spec_reorder_type_deps(spec_settle_decls(spec_push_decls(spec_empty_env(), once), once, once))
}

/// The merged declarations.
pub fn merge_decls(l: &Rc<List<Decl>>) -> (out: Rc<List<Decl>>)
    ensures
        out == spec_merge_decls(*l),
{
    proof {
        reveal(spec_merge_decls);
    }
    let once = dedup(l);
    reorder_type_deps(&settle_decls(&push_decls(&empty_env(), &once), &once, &once))
}

/// The messages about the declarations to be merged.
#[verifier::opaque]
pub open spec fn spec_merge_diags(
    diags: Rc<List<Diagnostic>>,
    l: Rc<List<Decl>>,
) -> Rc<List<Diagnostic>>
{
    let once = spec_dedup(l);
    spec_check_matches(spec_check_redeclarations(diags, spec_nil(), l), spec_push_decls(spec_empty_env(), once), once, once)
}

/// The messages about the declarations to be merged.
pub fn merge_diags(diags: Rc<List<Diagnostic>>, l: &Rc<List<Decl>>) -> (out: Rc<List<Diagnostic>>)
    ensures
        out == spec_merge_diags(diags, *l),
        extends(out, diags),
{
    proof {
        reveal(spec_merge_diags);
    }
    let once = dedup(l);
    check_matches(check_redeclarations(diags, nil(), l), &push_decls(&empty_env(), &once), &once, &once)
}

/// Merges the declarations of several files: each thing is declared once, functions and structs
/// that are defined are no longer declared besides, and type definitions come in front of what
/// refers to them. Declarations that contradict each other are reported.
pub fn merge(diags: &mut Diagnostics, tu: &mut TranslationUnit)
    ensures
        list_of(final(tu).decls@) == spec_merge_decls(list_of(old(tu).decls@)),
        final(diags).list == spec_merge_diags(old(diags).list, list_of(old(tu).decls@)),
        extends(final(diags).list, old(diags).list),
        old(tu).decls@.len() < u64::MAX ==> {
            let l = list_of(old(tu).decls@);
            let m = list_of(final(tu).decls@);
            &&& decl_keys(m).no_duplicates()
            &&& forall|k: (DeclKind, Seq<char>)| #[trigger] declares(m, k) <==> remains(merge_env(l), spec_dedup(l), k)
            &&& acyclic(m) ==> definitions_first(m)
        },
{
    proof {
        law_lists_keep_their_items(tu.decls@);
        if tu.decls@.len() < u64::MAX {
            law_merging_declares_everything_once(list_of(tu.decls@));
            if acyclic(spec_merge_decls(list_of(tu.decls@))) {
                law_merged_definitions_come_first(list_of(tu.decls@));
            }
        }
    }
    let l = List::from_vec(&tu.decls);
    diags.list = merge_diags(diags.list.clone(), &l);
    let m = merge_decls(&l);
    tu.decls = List::to_vec(&m);
    proof {
        lemma_items_list_of(m);
    }
}

} // verus!
