//! What is in scope, and the types that follow from it.

use crate::list::{
    List, bump, cons, drop_one, list_len, nil, spec_bump, spec_cons, spec_drop_one, spec_list_len,
    spec_nil,
};
use crate::text::{
    Text, cat, cat4, cat5, lit, same_text, spec_cat, spec_cat4, spec_cat5, spec_lit,
    spec_same_text,
};
use crate::ir::{
    BinOp, Decl, DeclT, Expr, ExprT, Field, FieldInit, FieldT, FnArg, FnDecl, FnDefn, GhostArg,
    GlobalVar, Ident, IncludeDecl, InlinePulseToken, LetDecl, Loc, OpaqueTypeDecl, PointerKind,
    Stmt, StmtT, StructDefn, Type, TypeDefn, TypeRefKind, TypeT, UnOp, UnionDefn, VAttr,
    field_type, find_field, global_var_is_array, has_flex_field, mk_type, same_name, show_type,
    spec_field_type, spec_find_field, spec_global_var_is_array, spec_has_flex_field, spec_mk_type,
    spec_same_name, spec_show_type,
};
use crate::names::TypeRef;
use std::rc::Rc;
use vstd::prelude::*;

verus! {

/// Whether a local name stands for a place or for a value.
#[derive(Clone, Copy, Debug, PartialEq, Eq, Structural)]
pub enum LocalDeclKind {
    LValue,
    RValue,
}

/// A local name.
pub struct LocalDecl {
    pub name: Text,
    pub ty: Rc<Type>,
    pub kind: LocalDeclKind,
}

/// The declarations in scope, innermost and latest first.
pub struct Env {
    pub locals: Rc<List<LocalDecl>>,
    pub fns: Rc<List<FnDecl>>,
    pub typedefs: Rc<List<TypeDefn>>,
    pub opaques: Rc<List<OpaqueTypeDecl>>,
    pub structs: Rc<List<StructDefn>>,
    pub struct_decls: Rc<List<Ident>>,
    pub unions: Rc<List<UnionDefn>>,
    pub globals: Rc<List<GlobalVar>>,
    pub return_type: Option<Rc<Type>>,
    pub in_loop: bool,
}

/// Nothing in scope.
#[verifier::opaque]
pub open spec fn spec_empty_env() -> Env
{
    Env { locals: spec_nil(), fns: spec_nil(), typedefs: spec_nil(), opaques: spec_nil(), structs: spec_nil(), struct_decls: spec_nil(), unions: spec_nil(), globals: spec_nil(), return_type: None, in_loop: false }
}

/// Nothing in scope.
pub fn empty_env() -> (out: Env)
    ensures
        out == spec_empty_env(),
{
    proof {
        reveal(spec_empty_env);
    }
    Env {
        locals: nil(),
        fns: nil(),
        typedefs: nil(),
        opaques: nil(),
        structs: nil(),
        struct_decls: nil(),
        unions: nil(),
        globals: nil(),
        return_type: None,
        in_loop: false,
    }
}

/// A copy of an optional type.
#[verifier::opaque]
pub open spec fn spec_clone_opt_type(t: Option<Rc<Type>>) -> Option<Rc<Type>>
{
    match t {
        Some(t) => Some(t),
        None => None,
    }
}

/// A copy of an optional type.
pub fn clone_opt_type(t: &Option<Rc<Type>>) -> (out: Option<Rc<Type>>)
    ensures
        out == spec_clone_opt_type(*t),
{
    proof {
        reveal(spec_clone_opt_type);
    }
    match t {
        Some(t) => Some(t.clone()),
        None => None,
    }
}

/// The scope with other local names.
#[verifier::opaque]
pub open spec fn spec_with_locals(env: Env, locals: Rc<List<LocalDecl>>) -> Env
{
    Env { locals, fns: env.fns, typedefs: env.typedefs, opaques: env.opaques, structs: env.structs, struct_decls: env.struct_decls, unions: env.unions, globals: env.globals, return_type: spec_clone_opt_type(env.return_type), in_loop: env.in_loop }
}

/// The scope with other local names.
pub fn with_locals(env: &Env, locals: Rc<List<LocalDecl>>) -> (out: Env)
    ensures
        out == spec_with_locals(*env, locals),
{
    proof {
        reveal(spec_with_locals);
    }
    Env {
        locals,
        fns: env.fns.clone(),
        typedefs: env.typedefs.clone(),
        opaques: env.opaques.clone(),
        structs: env.structs.clone(),
        struct_decls: env.struct_decls.clone(),
        unions: env.unions.clone(),
        globals: env.globals.clone(),
        return_type: clone_opt_type(&env.return_type),
        in_loop: env.in_loop,
    }
}

/// A copy of the scope.
#[verifier::opaque]
pub open spec fn spec_clone_env(env: Env) -> Env
{
    spec_with_locals(env, env.locals)
}

/// A copy of the scope.
pub fn clone_env(env: &Env) -> (out: Env)
    ensures
        out == spec_clone_env(*env),
{
    proof {
        reveal(spec_clone_env);
    }
    with_locals(env, env.locals.clone())
}

/// The scope with one more local name.
#[verifier::opaque]
pub open spec fn spec_push_var_decl(
    env: Env,
    name: Rc<Ident>,
    ty: Rc<Type>,
    kind: LocalDeclKind,
) -> Env
{
    spec_push_local(env, name.val, ty, kind)
}

/// The scope with one more local name.
pub fn push_var_decl(env: &Env, name: &Rc<Ident>, ty: Rc<Type>, kind: LocalDeclKind) -> (out: Env)
    ensures
        out == spec_push_var_decl(*env, *name, ty, kind),
{
    proof {
        reveal(spec_push_var_decl);
    }
    push_local(env, name.val.clone(), ty, kind)
}

/// The scope with one more local name.
#[verifier::opaque]
pub open spec fn spec_push_local(env: Env, name: Text, ty: Rc<Type>, kind: LocalDeclKind) -> Env
{
    spec_with_locals(env, spec_cons(Rc::new(LocalDecl { name, ty, kind }), env.locals))
}

/// The scope with one more local name.
pub fn push_local(env: &Env, name: Text, ty: Rc<Type>, kind: LocalDeclKind) -> (out: Env)
    ensures
        out == spec_push_local(*env, name, ty, kind),
{
    proof {
        reveal(spec_push_local);
    }
    with_locals(env, cons(Rc::new(LocalDecl { name, ty, kind }), env.locals.clone()))
}

/// The scope with a parameter, if it has a name.
#[verifier::opaque]
pub open spec fn spec_push_arg(env: Env, arg: Rc<FnArg>, kind: LocalDeclKind) -> Env
{
    match arg.name {
        Some(n) => spec_push_var_decl(env, n, arg.ty, kind),
        None => spec_clone_env(env),
    }
}

/// The scope with a parameter, if it has a name.
pub fn push_arg(env: &Env, arg: &Rc<FnArg>, kind: LocalDeclKind) -> (out: Env)
    ensures
        out == spec_push_arg(*env, *arg, kind),
{
    proof {
        reveal(spec_push_arg);
    }
    match &arg.name {
        Some(n) => push_var_decl(env, n, arg.ty.clone(), kind),
        None => clone_env(env),
    }
}

/// The scope with parameters.
pub open spec fn spec_push_args(env: Env, args: Rc<List<FnArg>>, kind: LocalDeclKind) -> Env
    decreases args,
{
    match *args {
        List::Nil => spec_clone_env(env),
        List::Cons(a, t) => spec_push_args(spec_push_arg(env, a, kind), t, kind),
    }
}

/// The scope with parameters.
pub fn push_args(env: &Env, args: &Rc<List<FnArg>>, kind: LocalDeclKind) -> (out: Env)
    ensures
        out == spec_push_args(*env, *args, kind),
    decreases args,
{
    match &**args {
        List::Nil => clone_env(env),
        List::Cons(a, t) => push_args(&push_arg(env, a, kind), t, kind),
    }
}

/// The scope with ghost parameters.
pub open spec fn spec_push_ghost_args(env: Env, args: Rc<List<GhostArg>>) -> Env
    decreases args,
{
    match *args {
        List::Nil => spec_clone_env(env),
        List::Cons(a, t) => spec_push_ghost_args(spec_push_var_decl(env, a.name, a.ty, LocalDeclKind::RValue), t),
    }
}

/// The scope with ghost parameters.
pub fn push_ghost_args(env: &Env, args: &Rc<List<GhostArg>>) -> (out: Env)
    ensures
        out == spec_push_ghost_args(*env, *args),
    decreases args,
{
    match &**args {
        List::Nil => clone_env(env),
        List::Cons(a, t) => push_ghost_args(&push_var_decl(env, &a.name, a.ty.clone(), LocalDeclKind::RValue), t),
    }
}

/// The scope with `this` of the given type.
#[verifier::opaque]
pub open spec fn spec_push_this(env: Env, ty: Rc<Type>) -> Env
{
    spec_push_local(env, spec_lit("this"), ty, LocalDeclKind::RValue)
}

/// The scope with `this` of the given type.
pub fn push_this(env: &Env, ty: Rc<Type>) -> (out: Env)
    ensures
        out == spec_push_this(*env, ty),
{
    proof {
        reveal(spec_push_this);
    }
    push_local(env, lit("this"), ty, LocalDeclKind::RValue)
}

/// The scope with the value that a function returns.
#[verifier::opaque]
pub open spec fn spec_push_return(env: Env, ty: Rc<Type>) -> Env
{
    spec_push_local(env, spec_lit("return"), ty, LocalDeclKind::RValue)
}

/// The scope with the value that a function returns.
pub fn push_return(env: &Env, ty: Rc<Type>) -> (out: Env)
    ensures
        out == spec_push_return(*env, ty),
{
    proof {
        reveal(spec_push_return);
    }
    push_local(env, lit("return"), ty, LocalDeclKind::RValue)
}

/// The scope of a function that returns the given type.
#[verifier::opaque]
pub open spec fn spec_with_return_type(env: Env, ty: Rc<Type>) -> Env
{
    let e = spec_clone_env(env);
    Env { locals: e.locals, fns: e.fns, typedefs: e.typedefs, opaques: e.opaques, structs: e.structs, struct_decls: e.struct_decls, unions: e.unions, globals: e.globals, return_type: Some(ty), in_loop: false }
}

/// The scope of a function that returns the given type.
pub fn with_return_type(env: &Env, ty: Rc<Type>) -> (out: Env)
    ensures
        out == spec_with_return_type(*env, ty),
{
    proof {
        reveal(spec_with_return_type);
    }
    let e = clone_env(env);
    Env {
        locals: e.locals,
        fns: e.fns,
        typedefs: e.typedefs,
        opaques: e.opaques,
        structs: e.structs,
        struct_decls: e.struct_decls,
        unions: e.unions,
        globals: e.globals,
        return_type: Some(ty),
        in_loop: false,
    }
}

/// The scope of a loop's body.
#[verifier::opaque]
pub open spec fn spec_enter_loop(env: Env) -> Env
{
    let e = spec_clone_env(env);
    Env { locals: e.locals, fns: e.fns, typedefs: e.typedefs, opaques: e.opaques, structs: e.structs, struct_decls: e.struct_decls, unions: e.unions, globals: e.globals, return_type: e.return_type, in_loop: true }
}

/// The scope of a loop's body.
pub fn enter_loop(env: &Env) -> (out: Env)
    ensures
        out == spec_enter_loop(*env),
{
    proof {
        reveal(spec_enter_loop);
    }
    let e = clone_env(env);
    Env {
        locals: e.locals,
        fns: e.fns,
        typedefs: e.typedefs,
        opaques: e.opaques,
        structs: e.structs,
        struct_decls: e.struct_decls,
        unions: e.unions,
        globals: e.globals,
        return_type: e.return_type,
        in_loop: true,
    }
}

/// The scope of a function's body: its ghost parameters are values, its parameters places.
#[verifier::opaque]
pub open spec fn spec_push_fn_decl_args_for_body(env: Env, decl: Rc<FnDecl>) -> Env
{
    let e = spec_push_ghost_args(env, decl.ghost_args);
    let e = spec_push_args(e, decl.args, LocalDeclKind::LValue);
    spec_with_return_type(e, decl.ret_type)
}

/// The scope of a function's body: its ghost parameters are values, its parameters places.
pub fn push_fn_decl_args_for_body(env: &Env, decl: &Rc<FnDecl>) -> (out: Env)
    ensures
        out == spec_push_fn_decl_args_for_body(*env, *decl),
{
    proof {
        reveal(spec_push_fn_decl_args_for_body);
    }
    let e = push_ghost_args(env, &decl.ghost_args);
    let e = push_args(&e, &decl.args, LocalDeclKind::LValue);
    with_return_type(&e, decl.ret_type.clone())
}

/// The scope with the names that inline code declares.
pub open spec fn spec_push_declared(env: Env, toks: Rc<List<InlinePulseToken>>) -> Env
    decreases toks,
{
    match *toks {
        List::Nil => spec_clone_env(env),
        List::Cons(tok, t) => {
            match *tok {
                InlinePulseToken::Declare { ident, ty } => spec_push_declared(spec_push_var_decl(env, ident, ty, LocalDeclKind::RValue), t),
                _ => spec_push_declared(env, t),
            }
        },
    }
}

/// The scope with the names that inline code declares.
pub fn push_declared(env: &Env, toks: &Rc<List<InlinePulseToken>>) -> (out: Env)
    ensures
        out == spec_push_declared(*env, *toks),
    decreases toks,
{
    match &**toks {
        List::Nil => clone_env(env),
        List::Cons(tok, t) => match &**tok {
            InlinePulseToken::Declare { ident, ty } => push_declared(&push_var_decl(env, ident, ty.clone(), LocalDeclKind::RValue), t),
            _ => push_declared(env, t),
        },
    }
}

/// The scope after a statement.
#[verifier::opaque]
pub open spec fn spec_push_stmt(env: Env, stmt: Rc<Stmt>) -> Env
{
    match stmt.val {
        StmtT::Decl(x, ty) => spec_push_var_decl(env, x, ty, LocalDeclKind::LValue),
        StmtT::Let(x, ty, _) => spec_push_var_decl(env, x, ty, LocalDeclKind::RValue),
        StmtT::DeclStackArray { name, elem_type, .. } => spec_push_var_decl(env, name, spec_mk_type(name.loc, TypeT::Pointer(elem_type, PointerKind::Array)), LocalDeclKind::LValue),
        StmtT::GhostStmt(code) => spec_push_declared(env, code.tokens),
        _ => spec_clone_env(env),
    }
}

/// The scope after a statement.
pub fn push_stmt(env: &Env, stmt: &Rc<Stmt>) -> (out: Env)
    ensures
        out == spec_push_stmt(*env, *stmt),
{
    proof {
        reveal(spec_push_stmt);
    }
    match &stmt.val {
        StmtT::Decl(x, ty) => push_var_decl(env, x, ty.clone(), LocalDeclKind::LValue),
        StmtT::Let(x, ty, _) => push_var_decl(env, x, ty.clone(), LocalDeclKind::RValue),
        StmtT::DeclStackArray { name, elem_type, .. } => push_var_decl(
            env, name, mk_type(&name.loc, TypeT::Pointer(elem_type.clone(), PointerKind::Array)), LocalDeclKind::LValue),
        StmtT::GhostStmt(code) => push_declared(env, &code.tokens),
        _ => clone_env(env),
    }
}

/// The scope after statements.
pub open spec fn spec_push_stmts(env: Env, stmts: Rc<List<Stmt>>) -> Env
    decreases stmts,
{
    match *stmts {
        List::Nil => spec_clone_env(env),
        List::Cons(s, t) => spec_push_stmts(spec_push_stmt(env, s), t),
    }
}

/// The scope after statements.
pub fn push_stmts(env: &Env, stmts: &Rc<List<Stmt>>) -> (out: Env)
    ensures
        out == spec_push_stmts(*env, *stmts),
    decreases stmts,
{
    match &**stmts {
        List::Nil => clone_env(env),
        List::Cons(s, t) => push_stmts(&push_stmt(env, s), t),
    }
}

/// The scope with one more function.
#[verifier::opaque]
pub open spec fn spec_push_fn_decl(env: Env, d: Rc<FnDecl>) -> Env
{
    let e = spec_clone_env(env);
    Env { locals: e.locals, fns: spec_cons(d, e.fns), typedefs: e.typedefs, opaques: e.opaques, structs: e.structs, struct_decls: e.struct_decls, unions: e.unions, globals: e.globals, return_type: e.return_type, in_loop: e.in_loop }
}

/// The scope with one more function.
pub fn push_fn_decl(env: &Env, d: Rc<FnDecl>) -> (out: Env)
    ensures
        out == spec_push_fn_decl(*env, d),
{
    proof {
        reveal(spec_push_fn_decl);
    }
    let e = clone_env(env);
    Env {
        locals: e.locals,
        fns: cons(d, e.fns),
        typedefs: e.typedefs,
        opaques: e.opaques,
        structs: e.structs,
        struct_decls: e.struct_decls,
        unions: e.unions,
        globals: e.globals,
        return_type: e.return_type,
        in_loop: e.in_loop,
    }
}

/// The typedefs with another one in the place of that of its name.
pub open spec fn spec_replace_typedef(l: Rc<List<TypeDefn>>, d: Rc<TypeDefn>) -> Rc<List<TypeDefn>>
    decreases l,
{
    match *l {
        List::Nil => spec_nil(),
        List::Cons(h, t) => {
            if spec_same_name(h.name, d.name) {
                spec_cons(d, t)
            } else {
                spec_cons(h, spec_replace_typedef(t, d))
            }
        },
    }
}

/// The typedefs with another one in the place of that of its name.
pub fn replace_typedef(l: &Rc<List<TypeDefn>>, d: Rc<TypeDefn>) -> (out: Rc<List<TypeDefn>>)
    ensures
        out == spec_replace_typedef(*l, d),
    decreases l,
{
    match &**l {
        List::Nil => nil(),
        List::Cons(h, t) => if same_name(&h.name, &d.name) { cons(d, t.clone()) } else { cons(h.clone(), replace_typedef(t, d)) },
    }
}

/// The typedefs with one more, which takes the place of one of its name.
#[verifier::opaque]
pub open spec fn spec_put_typedef(l: Rc<List<TypeDefn>>, d: Rc<TypeDefn>) -> Rc<List<TypeDefn>>
{
    if spec_find_typedef(l, d.name).is_some() {
        spec_replace_typedef(l, d)
    } else {
        spec_cons(d, l)
    }
}

/// The typedefs with one more, which takes the place of one of its name.
pub fn put_typedef(l: &Rc<List<TypeDefn>>, d: Rc<TypeDefn>) -> (out: Rc<List<TypeDefn>>)
    ensures
        out == spec_put_typedef(*l, d),
{
    proof {
        reveal(spec_put_typedef);
    }
    if find_typedef(l, &d.name).is_some() { replace_typedef(l, d) } else { cons(d, l.clone()) }
}

/// The scope with one more typedef.
#[verifier::opaque]
pub open spec fn spec_push_typedef(env: Env, d: Rc<TypeDefn>) -> Env
{
    let e = spec_clone_env(env);
    Env { locals: e.locals, fns: e.fns, typedefs: spec_put_typedef(e.typedefs, d), opaques: e.opaques, structs: e.structs, struct_decls: e.struct_decls, unions: e.unions, globals: e.globals, return_type: e.return_type, in_loop: e.in_loop }
}

/// The scope with one more typedef.
pub fn push_typedef(env: &Env, d: Rc<TypeDefn>) -> (out: Env)
    ensures
        out == spec_push_typedef(*env, d),
{
    proof {
        reveal(spec_push_typedef);
    }
    let e = clone_env(env);
    Env {
        locals: e.locals,
        fns: e.fns,
        typedefs: put_typedef(&e.typedefs, d),
        opaques: e.opaques,
        structs: e.structs,
        struct_decls: e.struct_decls,
        unions: e.unions,
        globals: e.globals,
        return_type: e.return_type,
        in_loop: e.in_loop,
    }
}

/// The scope with one more struct.
#[verifier::opaque]
pub open spec fn spec_push_struct(env: Env, d: Rc<StructDefn>) -> Env
{
    let e = spec_clone_env(env);
    Env { locals: e.locals, fns: e.fns, typedefs: e.typedefs, opaques: e.opaques, structs: spec_cons(d, e.structs), struct_decls: e.struct_decls, unions: e.unions, globals: e.globals, return_type: e.return_type, in_loop: e.in_loop }
}

/// The scope with one more struct.
pub fn push_struct(env: &Env, d: Rc<StructDefn>) -> (out: Env)
    ensures
        out == spec_push_struct(*env, d),
{
    proof {
        reveal(spec_push_struct);
    }
    let e = clone_env(env);
    Env {
        locals: e.locals,
        fns: e.fns,
        typedefs: e.typedefs,
        opaques: e.opaques,
        structs: cons(d, e.structs),
        struct_decls: e.struct_decls,
        unions: e.unions,
        globals: e.globals,
        return_type: e.return_type,
        in_loop: e.in_loop,
    }
}

/// The scope with one more union.
#[verifier::opaque]
pub open spec fn spec_push_union(env: Env, d: Rc<UnionDefn>) -> Env
{
    let e = spec_clone_env(env);
    Env { locals: e.locals, fns: e.fns, typedefs: e.typedefs, opaques: e.opaques, structs: e.structs, struct_decls: e.struct_decls, unions: spec_cons(d, e.unions), globals: e.globals, return_type: e.return_type, in_loop: e.in_loop }
}

/// The scope with one more union.
pub fn push_union(env: &Env, d: Rc<UnionDefn>) -> (out: Env)
    ensures
        out == spec_push_union(*env, d),
{
    proof {
        reveal(spec_push_union);
    }
    let e = clone_env(env);
    Env {
        locals: e.locals,
        fns: e.fns,
        typedefs: e.typedefs,
        opaques: e.opaques,
        structs: e.structs,
        struct_decls: e.struct_decls,
        unions: cons(d, e.unions),
        globals: e.globals,
        return_type: e.return_type,
        in_loop: e.in_loop,
    }
}

/// The signature of a specification function.
#[verifier::opaque]
pub open spec fn spec_let_signature(l: Rc<LetDecl>) -> Rc<FnDecl>
{
    Rc::new(FnDecl { name: l.name, ret_type: l.ret_type, args: l.params, ghost_args: spec_nil(), requires_: l.requires_, ensures_: l.ensures_, is_pure: true, is_rec: l.is_rec, is_total: false, decreases_: None })
}

/// The signature of a specification function.
pub fn let_signature(l: &Rc<LetDecl>) -> (out: Rc<FnDecl>)
    ensures
        out == spec_let_signature(*l),
{
    proof {
        reveal(spec_let_signature);
    }
    Rc::new(FnDecl {
        name: l.name.clone(),
        ret_type: l.ret_type.clone(),
        args: l.params.clone(),
        ghost_args: nil(),
        requires_: l.requires_.clone(),
        ensures_: l.ensures_.clone(),
        is_pure: true,
        is_rec: l.is_rec,
        is_total: false,
        decreases_: None,
    })
}

/// The scope with one more declaration.
#[verifier::opaque]
pub open spec fn spec_push_decl(env: Env, d: Rc<Decl>) -> Env
{
    match d.val {
        DeclT::FnDefn(f) => spec_push_fn_decl(env, f.decl),
        DeclT::FnDecl(f) => spec_push_fn_decl(env, f),
        DeclT::Typedef(t) => spec_push_typedef(env, t),
        DeclT::StructDefn(t) => spec_push_struct(env, t),
        DeclT::UnionDefn(t) => spec_push_union(env, t),
        DeclT::IncludeDecl(_) => spec_clone_env(env),
        DeclT::StructDecl(n) => {
            let e = spec_clone_env(env);
            Env { locals: e.locals, fns: e.fns, typedefs: e.typedefs, opaques: e.opaques, structs: e.structs, struct_decls: spec_cons(n, e.struct_decls), unions: e.unions, globals: e.globals, return_type: e.return_type, in_loop: e.in_loop }
        },
        DeclT::LetDecl(l) => spec_push_fn_decl(env, spec_let_signature(l)),
        DeclT::OpaqueTypeDecl(o) => {
            let e = spec_clone_env(env);
            Env { locals: e.locals, fns: e.fns, typedefs: e.typedefs, opaques: spec_cons(o, e.opaques), structs: e.structs, struct_decls: e.struct_decls, unions: e.unions, globals: e.globals, return_type: e.return_type, in_loop: e.in_loop }
        },
        DeclT::GlobalVar(g) => {
            let e = spec_clone_env(env);
            Env { locals: e.locals, fns: e.fns, typedefs: e.typedefs, opaques: e.opaques, structs: e.structs, struct_decls: e.struct_decls, unions: e.unions, globals: spec_cons(g, e.globals), return_type: e.return_type, in_loop: e.in_loop }
        },
    }
}

/// The scope with one more declaration.
pub fn push_decl(env: &Env, d: &Rc<Decl>) -> (out: Env)
    ensures
        out == spec_push_decl(*env, *d),
{
    proof {
        reveal(spec_push_decl);
    }
    match &d.val {
        DeclT::FnDefn(f) => push_fn_decl(env, f.decl.clone()),
        DeclT::FnDecl(f) => push_fn_decl(env, f.clone()),
        DeclT::Typedef(t) => push_typedef(env, t.clone()),
        DeclT::StructDefn(t) => push_struct(env, t.clone()),
        DeclT::UnionDefn(t) => push_union(env, t.clone()),
        DeclT::IncludeDecl(_) => clone_env(env),
        DeclT::StructDecl(n) => {
            let e = clone_env(env);
            Env {
                locals: e.locals,
                fns: e.fns,
                typedefs: e.typedefs,
                opaques: e.opaques,
                structs: e.structs,
                struct_decls: cons(n.clone(), e.struct_decls),
                unions: e.unions,
                globals: e.globals,
                return_type: e.return_type,
                in_loop: e.in_loop,
            }
        }
        DeclT::LetDecl(l) => push_fn_decl(env, let_signature(l)),
        DeclT::OpaqueTypeDecl(o) => {
            let e = clone_env(env);
            Env {
                locals: e.locals,
                fns: e.fns,
                typedefs: e.typedefs,
                opaques: cons(o.clone(), e.opaques),
                structs: e.structs,
                struct_decls: e.struct_decls,
                unions: e.unions,
                globals: e.globals,
                return_type: e.return_type,
                in_loop: e.in_loop,
            }
        }
        DeclT::GlobalVar(g) => {
            let e = clone_env(env);
            Env {
                locals: e.locals,
                fns: e.fns,
                typedefs: e.typedefs,
                opaques: e.opaques,
                structs: e.structs,
                struct_decls: e.struct_decls,
                unions: e.unions,
                globals: cons(g.clone(), e.globals),
                return_type: e.return_type,
                in_loop: e.in_loop,
            }
        }
    }
}

/// The scope with all declarations.
pub open spec fn spec_push_decls(env: Env, l: Rc<List<Decl>>) -> Env
    decreases l,
{
    match *l {
        List::Nil => spec_clone_env(env),
        List::Cons(d, t) => spec_push_decls(spec_push_decl(env, d), t),
    }
}

/// The scope with all declarations.
pub fn push_decls(env: &Env, l: &Rc<List<Decl>>) -> (out: Env)
    ensures
        out == spec_push_decls(*env, *l),
    decreases l,
{
    match &**l {
        List::Nil => clone_env(env),
        List::Cons(d, t) => push_decls(&push_decl(env, d), t),
    }
}

/// The innermost local of the given name.
pub open spec fn spec_find_local(l: Rc<List<LocalDecl>>, x: Rc<Ident>) -> Option<Rc<LocalDecl>>
    decreases l,
{
    match *l {
        List::Nil => None,
        List::Cons(h, t) => {
            if spec_same_text(h.name, x.val) {
                Some(h)
            } else {
                spec_find_local(t, x)
            }
        },
    }
}

/// The innermost local of the given name.
pub fn find_local(l: &Rc<List<LocalDecl>>, x: &Rc<Ident>) -> (out: Option<Rc<LocalDecl>>)
    ensures
        out == spec_find_local(*l, *x),
    decreases l,
{
    match &**l {
        List::Nil => None,
        List::Cons(h, t) => if same_text(&h.name, &x.val) { Some(h.clone()) } else { find_local(t, x) },
    }
}

/// The local of the given name.
#[verifier::opaque]
pub open spec fn spec_lookup_var(env: Env, x: Rc<Ident>) -> Option<Rc<LocalDecl>>
{
    spec_find_local(env.locals, x)
}

/// The local of the given name.
pub fn lookup_var(env: &Env, x: &Rc<Ident>) -> (out: Option<Rc<LocalDecl>>)
    ensures
        out == spec_lookup_var(*env, *x),
{
    proof {
        reveal(spec_lookup_var);
    }
    find_local(&env.locals, x)
}

/// The latest global of the given name.
pub open spec fn spec_find_global(l: Rc<List<GlobalVar>>, x: Rc<Ident>) -> Option<Rc<GlobalVar>>
    decreases l,
{
    match *l {
        List::Nil => None,
        List::Cons(h, t) => {
            if spec_same_name(h.name, x) {
                Some(h)
            } else {
                spec_find_global(t, x)
            }
        },
    }
}

/// The latest global of the given name.
pub fn find_global(l: &Rc<List<GlobalVar>>, x: &Rc<Ident>) -> (out: Option<Rc<GlobalVar>>)
    ensures
        out == spec_find_global(*l, *x),
    decreases l,
{
    match &**l {
        List::Nil => None,
        List::Cons(h, t) => if same_name(&h.name, x) { Some(h.clone()) } else { find_global(t, x) },
    }
}

/// The global that a name stands for: one that no local name hides.
#[verifier::opaque]
pub open spec fn spec_lookup_global_var(env: Env, x: Rc<Ident>) -> Option<Rc<GlobalVar>>
{
    match spec_lookup_var(env, x) {
        Some(_) => None,
        None => spec_find_global(env.globals, x),
    }
}

/// The global that a name stands for: one that no local name hides.
pub fn lookup_global_var(env: &Env, x: &Rc<Ident>) -> (out: Option<Rc<GlobalVar>>)
    ensures
        out == spec_lookup_global_var(*env, *x),
{
    proof {
        reveal(spec_lookup_global_var);
    }
    match lookup_var(env, x) {
        Some(_) => None,
        None => find_global(&env.globals, x),
    }
}

/// The global that a name stands for, if its address may be taken: an array's contents are
/// described by a value, and an enumerator is no object.
#[verifier::opaque]
pub open spec fn spec_addressable_global(env: Env, x: Rc<Ident>) -> Option<Rc<GlobalVar>>
{
    match spec_lookup_global_var(env, x) {
        Some(gv) => {
            if spec_global_var_is_array(gv) || gv.is_enum_constant {
                None
            } else {
                Some(gv)
            }
        },
        None => None,
    }
}

/// The global that a name stands for, if its address may be taken: an array's contents are
/// described by a value, and an enumerator is no object.
pub fn addressable_global(env: &Env, x: &Rc<Ident>) -> (out: Option<Rc<GlobalVar>>)
    ensures
        out == spec_addressable_global(*env, *x),
{
    proof {
        reveal(spec_addressable_global);
    }
    match lookup_global_var(env, x) {
        Some(gv) => if global_var_is_array(&gv) || gv.is_enum_constant { None } else { Some(gv) },
        None => None,
    }
}

/// The latest function of the given name.
pub open spec fn spec_find_fn(l: Rc<List<FnDecl>>, x: Rc<Ident>) -> Option<Rc<FnDecl>>
    decreases l,
{
    match *l {
        List::Nil => None,
        List::Cons(h, t) => {
            if spec_same_name(h.name, x) {
                Some(h)
            } else {
                spec_find_fn(t, x)
            }
        },
    }
}

/// The latest function of the given name.
pub fn find_fn(l: &Rc<List<FnDecl>>, x: &Rc<Ident>) -> (out: Option<Rc<FnDecl>>)
    ensures
        out == spec_find_fn(*l, *x),
    decreases l,
{
    match &**l {
        List::Nil => None,
        List::Cons(h, t) => if same_name(&h.name, x) { Some(h.clone()) } else { find_fn(t, x) },
    }
}

/// The function of the given name.
#[verifier::opaque]
pub open spec fn spec_lookup_fn(env: Env, x: Rc<Ident>) -> Option<Rc<FnDecl>>
{
    spec_find_fn(env.fns, x)
}

/// The function of the given name.
pub fn lookup_fn(env: &Env, x: &Rc<Ident>) -> (out: Option<Rc<FnDecl>>)
    ensures
        out == spec_lookup_fn(*env, *x),
{
    proof {
        reveal(spec_lookup_fn);
    }
    find_fn(&env.fns, x)
}

/// The latest typedef of the given name.
pub open spec fn spec_find_typedef(l: Rc<List<TypeDefn>>, x: Rc<Ident>) -> Option<Rc<TypeDefn>>
    decreases l,
{
    match *l {
        List::Nil => None,
        List::Cons(h, t) => {
            if spec_same_name(h.name, x) {
                Some(h)
            } else {
                spec_find_typedef(t, x)
            }
        },
    }
}

/// The latest typedef of the given name.
pub fn find_typedef(l: &Rc<List<TypeDefn>>, x: &Rc<Ident>) -> (out: Option<Rc<TypeDefn>>)
    ensures
        out == spec_find_typedef(*l, *x),
    decreases l,
{
    match &**l {
        List::Nil => None,
        List::Cons(h, t) => if same_name(&h.name, x) { Some(h.clone()) } else { find_typedef(t, x) },
    }
}

/// The latest struct of the given name.
pub open spec fn spec_find_struct(l: Rc<List<StructDefn>>, x: Rc<Ident>) -> Option<Rc<StructDefn>>
    decreases l,
{
    match *l {
        List::Nil => None,
        List::Cons(h, t) => {
            if spec_same_name(h.name, x) {
                Some(h)
            } else {
                spec_find_struct(t, x)
            }
        },
    }
}

/// The latest struct of the given name.
pub fn find_struct(l: &Rc<List<StructDefn>>, x: &Rc<Ident>) -> (out: Option<Rc<StructDefn>>)
    ensures
        out == spec_find_struct(*l, *x),
    decreases l,
{
    match &**l {
        List::Nil => None,
        List::Cons(h, t) => if same_name(&h.name, x) { Some(h.clone()) } else { find_struct(t, x) },
    }
}

/// The struct of the given name.
#[verifier::opaque]
pub open spec fn spec_lookup_struct(env: Env, x: Rc<Ident>) -> Option<Rc<StructDefn>>
{
    spec_find_struct(env.structs, x)
}

/// The struct of the given name.
pub fn lookup_struct(env: &Env, x: &Rc<Ident>) -> (out: Option<Rc<StructDefn>>)
    ensures
        out == spec_lookup_struct(*env, *x),
{
    proof {
        reveal(spec_lookup_struct);
    }
    find_struct(&env.structs, x)
}

/// The latest union of the given name.
pub open spec fn spec_find_union(l: Rc<List<UnionDefn>>, x: Rc<Ident>) -> Option<Rc<UnionDefn>>
    decreases l,
{
    match *l {
        List::Nil => None,
        List::Cons(h, t) => {
            if spec_same_name(h.name, x) {
                Some(h)
            } else {
                spec_find_union(t, x)
            }
        },
    }
}

/// The latest union of the given name.
pub fn find_union(l: &Rc<List<UnionDefn>>, x: &Rc<Ident>) -> (out: Option<Rc<UnionDefn>>)
    ensures
        out == spec_find_union(*l, *x),
    decreases l,
{
    match &**l {
        List::Nil => None,
        List::Cons(h, t) => if same_name(&h.name, x) { Some(h.clone()) } else { find_union(t, x) },
    }
}

/// The union of the given name.
#[verifier::opaque]
pub open spec fn spec_lookup_union(env: Env, x: Rc<Ident>) -> Option<Rc<UnionDefn>>
{
    spec_find_union(env.unions, x)
}

/// The union of the given name.
pub fn lookup_union(env: &Env, x: &Rc<Ident>) -> (out: Option<Rc<UnionDefn>>)
    ensures
        out == spec_lookup_union(*env, *x),
{
    proof {
        reveal(spec_lookup_union);
    }
    find_union(&env.unions, x)
}

/// The type without refinements and with typedefs unfolded, `fuel` of them at most.
pub open spec fn spec_whnf_within(env: Env, ty: Rc<Type>, fuel: u64) -> Rc<Type>
    decreases fuel, ty,
{
    match ty.val {
        TypeT::Refine(t, _) | TypeT::RefineAlways(t, _) | TypeT::RefineUninit(t, _) => spec_whnf_within(env, t, fuel),
        TypeT::RefineValue(t, _, _, _) => spec_whnf_within(env, t, fuel),
        TypeT::Plain(t) | TypeT::Nullable(t) => spec_whnf_within(env, t, fuel),
        TypeT::TypeRef(TypeRefKind::Typedef(n)) => {
            match spec_find_typedef(env.typedefs, n) {
                Some(d) => {
                    if fuel == 0 {
                        ty
                    } else {
                        spec_whnf_within(env, d.body, spec_drop_one(fuel))
                    }
                },
                None => ty,
            }
        },
        _ => ty,
    }
}

/// The type without refinements and with typedefs unfolded, `fuel` of them at most.
pub fn whnf_within(env: &Env, ty: &Rc<Type>, fuel: u64) -> (out: Rc<Type>)
    ensures
        out == spec_whnf_within(*env, *ty, fuel),
    decreases fuel, ty,
{
    match &ty.val {
        TypeT::Refine(t, _) | TypeT::RefineAlways(t, _) | TypeT::RefineUninit(t, _) => whnf_within(env, t, fuel),
        TypeT::RefineValue(t, _, _, _) => whnf_within(env, t, fuel),
        TypeT::Plain(t) | TypeT::Nullable(t) => whnf_within(env, t, fuel),
        TypeT::TypeRef(TypeRefKind::Typedef(n)) => match find_typedef(&env.typedefs, n) {
            Some(d) => if fuel == 0 { ty.clone() } else { whnf_within(env, &d.body, drop_one(fuel)) },
            None => ty.clone(),
        },
        _ => ty.clone(),
    }
}

/// The shape of a type's values: refinements are stripped and typedefs unfolded. Each typedef
/// is unfolded at most once on the way, so a cycle of them stays as it is.
#[verifier::opaque]
pub open spec fn spec_vtype_whnf(env: Env, ty: Rc<Type>) -> Rc<Type>
{
    spec_whnf_within(env, ty, spec_list_len(env.typedefs))
}

/// The shape of a type's values: refinements are stripped and typedefs unfolded. Each typedef
/// is unfolded at most once on the way, so a cycle of them stays as it is.
pub fn vtype_whnf(env: &Env, ty: &Rc<Type>) -> (out: Rc<Type>)
    ensures
        out == spec_vtype_whnf(*env, *ty),
{
    proof {
        reveal(spec_vtype_whnf);
    }
    whnf_within(env, ty, list_len(&env.typedefs))
}

/// The nodes of a type.
pub open spec fn spec_type_size(ty: Rc<Type>) -> u64
    decreases ty,
{
    match ty.val {
        TypeT::Pointer(t, _) | TypeT::FixedArray(t, _) | TypeT::FlexArray(t) => spec_bump(spec_type_size(t)),
        TypeT::Refine(t, _) | TypeT::RefineAlways(t, _) | TypeT::RefineUninit(t, _) => spec_bump(spec_type_size(t)),
        TypeT::RefineValue(t, _, _, _) => spec_bump(spec_type_size(t)),
        TypeT::Plain(t) | TypeT::Nullable(t) => spec_bump(spec_type_size(t)),
        TypeT::FnPtr { args, ret } => spec_bump(spec_plus(spec_types_size(args), spec_type_size(ret))),
        _ => 1,
    }
}

/// The nodes of a type.
pub fn type_size(ty: &Rc<Type>) -> (out: u64)
    ensures
        out == spec_type_size(*ty),
    decreases ty,
{
    match &ty.val {
        TypeT::Pointer(t, _) | TypeT::FixedArray(t, _) | TypeT::FlexArray(t) => bump(type_size(t)),
        TypeT::Refine(t, _) | TypeT::RefineAlways(t, _) | TypeT::RefineUninit(t, _) => bump(type_size(t)),
        TypeT::RefineValue(t, _, _, _) => bump(type_size(t)),
        TypeT::Plain(t) | TypeT::Nullable(t) => bump(type_size(t)),
        TypeT::FnPtr { args, ret } => bump(plus(types_size(args), type_size(ret))),
        _ => 1,
    }
}

/// The nodes of types.
pub open spec fn spec_types_size(l: Rc<List<Type>>) -> u64
    decreases l,
{
    match *l {
        List::Nil => 0,
        List::Cons(h, t) => spec_plus(spec_type_size(h), spec_types_size(t)),
    }
}

/// The nodes of types.
pub fn types_size(l: &Rc<List<Type>>) -> (out: u64)
    ensures
        out == spec_types_size(*l),
    decreases l,
{
    match &**l {
        List::Nil => 0,
        List::Cons(h, t) => plus(type_size(h), types_size(t)),
    }
}

/// The nodes of typedefs.
pub open spec fn spec_typedefs_size(l: Rc<List<TypeDefn>>) -> u64
    decreases l,
{
    match *l {
        List::Nil => 0,
        List::Cons(h, t) => spec_plus(spec_type_size(h.body), spec_typedefs_size(t)),
    }
}

/// The nodes of typedefs.
pub fn typedefs_size(l: &Rc<List<TypeDefn>>) -> (out: u64)
    ensures
        out == spec_typedefs_size(*l),
    decreases l,
{
    match &**l {
        List::Nil => 0,
        List::Cons(h, t) => plus(type_size(&h.body), typedefs_size(t)),
    }
}

/// The sum, or the largest number where the sum has no representation.
#[verifier::opaque]
pub open spec fn spec_plus(a: u64, b: u64) -> u64
{
    if a <= u64::MAX - b {
        (a + b) as u64
    } else {
        u64::MAX
    }
}

/// The sum, or the largest number where the sum has no representation.
pub fn plus(a: u64, b: u64) -> (out: u64)
    ensures
        out == spec_plus(a, b),
{
    proof {
        reveal(spec_plus);
    }
    if a <= u64::MAX - b { (a + b) as u64 } else { u64::MAX }
}

/// Whether two types have the same values, looking `fuel` levels deep at most.
pub open spec fn spec_vtype_eq_within(env: Env, a: Rc<Type>, b: Rc<Type>, fuel: u64) -> bool
    decreases fuel,
{
    if fuel == 0 {
        false
    } else {
        let x = spec_vtype_whnf(env, a);
        let y = spec_vtype_whnf(env, b);
        match (x.val, y.val) {
            (TypeT::Void, TypeT::Void) => true,
            (TypeT::Bool, TypeT::Bool) => true,
            (TypeT::Int { signed: s1, width: w1 }, TypeT::Int { signed: s2, width: w2 }) => s1 == s2 && w1 == w2,
            (TypeT::Float { width: w1 }, TypeT::Float { width: w2 }) => w1 == w2,
            (TypeT::SizeT, TypeT::SizeT) => true,
            (TypeT::PtrdiffT, TypeT::PtrdiffT) => true,
            (TypeT::Pointer(t1, k1), TypeT::Pointer(t2, k2)) => k1 == k2 && spec_vtype_eq_within(env, t1, t2, spec_drop_one(fuel)),
            (TypeT::FixedArray(t1, n1), TypeT::FixedArray(t2, n2)) => n1 == n2 && spec_vtype_eq_within(env, t1, t2, spec_drop_one(fuel)),
            (TypeT::FlexArray(t1), TypeT::FlexArray(t2)) => spec_vtype_eq_within(env, t1, t2, spec_drop_one(fuel)),
            (TypeT::FnPtr { args: a1, ret: r1 }, TypeT::FnPtr { args: a2, ret: r2 }) => spec_vtypes_eq_within(env, a1, a2, spec_drop_one(fuel)) && spec_vtype_eq_within(env, r1, r2, spec_drop_one(fuel)),
            (TypeT::SpecInt, TypeT::SpecInt) => true,
            (TypeT::SpecNat, TypeT::SpecNat) => true,
            (TypeT::SLProp, TypeT::SLProp) => true,
            (TypeT::TypeRef(TypeRefKind::Typedef(n1)), TypeT::TypeRef(TypeRefKind::Typedef(n2))) => spec_same_name(n1, n2),
            (TypeT::TypeRef(TypeRefKind::Struct(n1)), TypeT::TypeRef(TypeRefKind::Struct(n2))) => spec_same_name(n1, n2),
            (TypeT::TypeRef(TypeRefKind::Union(n1)), TypeT::TypeRef(TypeRefKind::Union(n2))) => spec_same_name(n1, n2),
            (TypeT::Unknown, TypeT::Unknown) => true,
            (TypeT::Error, TypeT::Error) => true,
            _ => false,
        }
    }
}

/// Whether two types have the same values, looking `fuel` levels deep at most.
pub fn vtype_eq_within(env: &Env, a: &Rc<Type>, b: &Rc<Type>, fuel: u64) -> (out: bool)
    ensures
        out == spec_vtype_eq_within(*env, *a, *b, fuel),
    decreases fuel,
{
    if fuel == 0 {
        false
    } else {
        let x = vtype_whnf(env, a);
        let y = vtype_whnf(env, b);
        match (&x.val, &y.val) {
            (TypeT::Void, TypeT::Void) => true,
            (TypeT::Bool, TypeT::Bool) => true,
            (TypeT::Int { signed: s1, width: w1 }, TypeT::Int { signed: s2, width: w2 }) => *s1 == *s2 && *w1 == *w2,
            (TypeT::Float { width: w1 }, TypeT::Float { width: w2 }) => *w1 == *w2,
            (TypeT::SizeT, TypeT::SizeT) => true,
            (TypeT::PtrdiffT, TypeT::PtrdiffT) => true,
            (TypeT::Pointer(t1, k1), TypeT::Pointer(t2, k2)) => *k1 == *k2 && vtype_eq_within(env, t1, t2, drop_one(fuel)),
            (TypeT::FixedArray(t1, n1), TypeT::FixedArray(t2, n2)) => *n1 == *n2 && vtype_eq_within(env, t1, t2, drop_one(fuel)),
            (TypeT::FlexArray(t1), TypeT::FlexArray(t2)) => vtype_eq_within(env, t1, t2, drop_one(fuel)),
            (TypeT::FnPtr { args: a1, ret: r1 }, TypeT::FnPtr { args: a2, ret: r2 }) =>
                vtypes_eq_within(env, a1, a2, drop_one(fuel)) && vtype_eq_within(env, r1, r2, drop_one(fuel)),
            (TypeT::SpecInt, TypeT::SpecInt) => true,
            (TypeT::SpecNat, TypeT::SpecNat) => true,
            (TypeT::SLProp, TypeT::SLProp) => true,
            (TypeT::TypeRef(TypeRefKind::Typedef(n1)), TypeT::TypeRef(TypeRefKind::Typedef(n2))) => same_name(n1, n2),
            (TypeT::TypeRef(TypeRefKind::Struct(n1)), TypeT::TypeRef(TypeRefKind::Struct(n2))) => same_name(n1, n2),
            (TypeT::TypeRef(TypeRefKind::Union(n1)), TypeT::TypeRef(TypeRefKind::Union(n2))) => same_name(n1, n2),
            (TypeT::Unknown, TypeT::Unknown) => true,
            (TypeT::Error, TypeT::Error) => true,
            _ => false,
        }
    }
}

/// Whether types have the same values pairwise.
pub open spec fn spec_vtypes_eq_within(
    env: Env,
    a: Rc<List<Type>>,
    b: Rc<List<Type>>,
    fuel: u64,
) -> bool
    decreases fuel, a,
{
    match (*a, *b) {
        (List::Nil, List::Nil) => true,
        (List::Cons(x, s), List::Cons(y, t)) => fuel > 0 && spec_vtype_eq_within(env, x, y, spec_drop_one(fuel)) && spec_vtypes_eq_within(env, s, t, fuel),
        _ => false,
    }
}

/// Whether types have the same values pairwise.
pub fn vtypes_eq_within(env: &Env, a: &Rc<List<Type>>, b: &Rc<List<Type>>, fuel: u64) -> (out: bool)
    ensures
        out == spec_vtypes_eq_within(*env, *a, *b, fuel),
    decreases fuel, a,
{
    match (&**a, &**b) {
        (List::Nil, List::Nil) => true,
        (List::Cons(x, s), List::Cons(y, t)) => fuel > 0 && vtype_eq_within(env, x, y, drop_one(fuel)) && vtypes_eq_within(env, s, t, fuel),
        _ => false,
    }
}

/// Whether two types have the same values. Without a cycle of typedefs the bound on the depth
/// is never reached.
#[verifier::opaque]
pub open spec fn spec_vtype_eq(env: Env, a: Rc<Type>, b: Rc<Type>) -> bool
{
    spec_vtype_eq_within(env, a, b, spec_bump(spec_plus(spec_plus(spec_type_size(a), spec_type_size(b)), spec_plus(spec_typedefs_size(env.typedefs), spec_typedefs_size(env.typedefs)))))
}

/// Whether two types have the same values. Without a cycle of typedefs the bound on the depth
/// is never reached.
pub fn vtype_eq(env: &Env, a: &Rc<Type>, b: &Rc<Type>) -> (out: bool)
    ensures
        out == spec_vtype_eq(*env, *a, *b),
{
    proof {
        reveal(spec_vtype_eq);
    }
    vtype_eq_within(env, a, b, bump(plus(plus(type_size(a), type_size(b)), plus(typedefs_size(&env.typedefs), typedefs_size(&env.typedefs)))))
}

/// Whether the type is that of separation-logic propositions.
#[verifier::opaque]
pub open spec fn spec_is_slprop(env: Env, ty: Rc<Type>) -> bool
{
    matches!(spec_vtype_whnf(env, ty).val, TypeT::SLProp)
}

/// Whether the type is that of separation-logic propositions.
pub fn is_slprop(env: &Env, ty: &Rc<Type>) -> (out: bool)
    ensures
        out == spec_is_slprop(*env, *ty),
{
    proof {
        reveal(spec_is_slprop);
    }
    matches!(&vtype_whnf(env, ty).val, TypeT::SLProp)
}

/// Whether the type is `_Bool`.
#[verifier::opaque]
pub open spec fn spec_is_bool(env: Env, ty: Rc<Type>) -> bool
{
    matches!(spec_vtype_whnf(env, ty).val, TypeT::Bool)
}

/// Whether the type is `_Bool`.
pub fn is_bool(env: &Env, ty: &Rc<Type>) -> (out: bool)
    ensures
        out == spec_is_bool(*env, *ty),
{
    proof {
        reveal(spec_is_bool);
    }
    matches!(&vtype_whnf(env, ty).val, TypeT::Bool)
}

/// Whether an object of the type surely has a size above zero, with at most `fuel` typedefs,
/// records and fields looked into on the way.
pub open spec fn spec_occupies_within(env: Env, ty: Rc<Type>, fuel: u64) -> bool
    decreases fuel, ty, 0nat,
{
    match ty.val {
        TypeT::Void | TypeT::SpecInt | TypeT::SpecNat | TypeT::SLProp | TypeT::Unknown | TypeT::Error => false,
        TypeT::Bool | TypeT::SizeT | TypeT::PtrdiffT => true,
        TypeT::Int { .. } => true,
        TypeT::Float { .. } => true,
        TypeT::FnPtr { .. } => true,
        TypeT::Pointer(_, _) => true,
        TypeT::FixedArray(t, n) => n > 0 && spec_occupies_within(env, t, fuel),
        TypeT::FlexArray(_) => false,
        TypeT::Refine(t, _) | TypeT::RefineAlways(t, _) | TypeT::RefineUninit(t, _) => spec_occupies_within(env, t, fuel),
        TypeT::RefineValue(t, _, _, _) => spec_occupies_within(env, t, fuel),
        TypeT::Plain(t) | TypeT::Nullable(t) => spec_occupies_within(env, t, fuel),
        TypeT::TypeRef(TypeRefKind::Typedef(n)) => {
            match spec_find_typedef(env.typedefs, n) {
                Some(d) => fuel > 0 && spec_occupies_within(env, d.body, spec_drop_one(fuel)),
                None => false,
            }
        },
        TypeT::TypeRef(TypeRefKind::Struct(n)) => {
            match spec_lookup_struct(env, n) {
                Some(d) => fuel > 0 && spec_any_occupies(env, d.fields, spec_drop_one(fuel)),
                None => false,
            }
        },
        TypeT::TypeRef(TypeRefKind::Union(n)) => {
            match spec_lookup_union(env, n) {
                Some(d) => fuel > 0 && spec_any_occupies(env, d.fields, spec_drop_one(fuel)),
                None => false,
            }
        },
    }
}

/// Whether an object of the type surely has a size above zero, with at most `fuel` typedefs,
/// records and fields looked into on the way.
pub fn occupies_within(env: &Env, ty: &Rc<Type>, fuel: u64) -> (out: bool)
    ensures
        out == spec_occupies_within(*env, *ty, fuel),
    decreases fuel, ty, 0nat,
{
    match &ty.val {
        TypeT::Void | TypeT::SpecInt | TypeT::SpecNat | TypeT::SLProp | TypeT::Unknown | TypeT::Error => false,
        TypeT::Bool | TypeT::SizeT | TypeT::PtrdiffT => true,
        TypeT::Int { .. } => true,
        TypeT::Float { .. } => true,
        TypeT::FnPtr { .. } => true,
        TypeT::Pointer(_, _) => true,
        TypeT::FixedArray(t, n) => *n > 0 && occupies_within(env, t, fuel),
        TypeT::FlexArray(_) => false,
        TypeT::Refine(t, _) | TypeT::RefineAlways(t, _) | TypeT::RefineUninit(t, _) => occupies_within(env, t, fuel),
        TypeT::RefineValue(t, _, _, _) => occupies_within(env, t, fuel),
        TypeT::Plain(t) | TypeT::Nullable(t) => occupies_within(env, t, fuel),
        TypeT::TypeRef(TypeRefKind::Typedef(n)) => match find_typedef(&env.typedefs, n) {
            Some(d) => fuel > 0 && occupies_within(env, &d.body, drop_one(fuel)),
            None => false,
        },
        TypeT::TypeRef(TypeRefKind::Struct(n)) => match lookup_struct(env, n) {
            Some(d) => fuel > 0 && any_occupies(env, &d.fields, drop_one(fuel)),
            None => false,
        },
        TypeT::TypeRef(TypeRefKind::Union(n)) => match lookup_union(env, n) {
            Some(d) => fuel > 0 && any_occupies(env, &d.fields, drop_one(fuel)),
            None => false,
        },
    }
}

/// Whether one of the fields surely has a size above zero.
pub open spec fn spec_any_occupies(env: Env, fields: Rc<List<Field>>, fuel: u64) -> bool
    decreases fuel, fields, 1nat,
{
    match *fields {
        List::Nil => false,
        List::Cons(f, t) => spec_field_occupies(env, f, fuel) || spec_any_occupies(env, t, fuel),
    }
}

/// Whether one of the fields surely has a size above zero.
pub fn any_occupies(env: &Env, fields: &Rc<List<Field>>, fuel: u64) -> (out: bool)
    ensures
        out == spec_any_occupies(*env, *fields, fuel),
    decreases fuel, fields, 1nat,
{
    match &**fields {
        List::Nil => false,
        List::Cons(f, t) => field_occupies(env, f, fuel) || any_occupies(env, t, fuel),
    }
}

/// Whether the field surely has a size above zero.
pub open spec fn spec_field_occupies(env: Env, f: Rc<Field>, fuel: u64) -> bool
    decreases fuel, f, 0nat,
{
    match f.val {
        FieldT::Plain { ty, .. } => fuel > 0 && spec_occupies_within(env, ty, spec_drop_one(fuel)),
        FieldT::BitField { width, .. } => width > 0,
    }
}

/// Whether the field surely has a size above zero.
pub fn field_occupies(env: &Env, f: &Rc<Field>, fuel: u64) -> (out: bool)
    ensures
        out == spec_field_occupies(*env, *f, fuel),
    decreases fuel, f, 0nat,
{
    match &f.val {
        FieldT::Plain { ty, .. } => fuel > 0 && occupies_within(env, ty, drop_one(fuel)),
        FieldT::BitField { width, .. } => *width > 0,
    }
}

/// Whether an object of the type surely has a size above zero.
#[verifier::opaque]
pub open spec fn spec_occupies_space(env: Env, ty: Rc<Type>) -> bool
{
    let records = spec_plus(spec_list_len(env.structs), spec_list_len(env.unions));
    spec_occupies_within(env, ty, spec_plus(spec_list_len(env.typedefs), spec_plus(records, records)))
}

/// Whether an object of the type surely has a size above zero.
pub fn occupies_space(env: &Env, ty: &Rc<Type>) -> (out: bool)
    ensures
        out == spec_occupies_space(*env, *ty),
{
    proof {
        reveal(spec_occupies_space);
    }
    let records = plus(list_len(&env.structs), list_len(&env.unions));
    occupies_within(env, ty, plus(list_len(&env.typedefs), plus(records, records)))
}

/// The types of parameters.
pub open spec fn spec_arg_types(l: Rc<List<FnArg>>) -> Rc<List<Type>>
    decreases l,
{
    match *l {
        List::Nil => spec_nil(),
        List::Cons(h, t) => spec_cons(h.ty, spec_arg_types(t)),
    }
}

/// The types of parameters.
pub fn arg_types(l: &Rc<List<FnArg>>) -> (out: Rc<List<Type>>)
    ensures
        out == spec_arg_types(*l),
    decreases l,
{
    match &**l {
        List::Nil => nil(),
        List::Cons(h, t) => cons(h.ty.clone(), arg_types(t)),
    }
}

/// What a pointer or an array of the type points to.
#[verifier::opaque]
pub open spec fn spec_pointee(env: Env, ty: Rc<Type>) -> Option<Rc<Type>>
{
    match spec_vtype_whnf(env, ty).val {
        TypeT::Pointer(to, _) => Some(to),
        TypeT::FixedArray(elem, _) => Some(elem),
        TypeT::FlexArray(elem) => Some(elem),
        _ => None,
    }
}

/// What a pointer or an array of the type points to.
pub fn pointee(env: &Env, ty: &Rc<Type>) -> (out: Option<Rc<Type>>)
    ensures
        out == spec_pointee(*env, *ty),
{
    proof {
        reveal(spec_pointee);
    }
    match &vtype_whnf(env, ty).val {
        TypeT::Pointer(to, _) => Some(to.clone()),
        TypeT::FixedArray(elem, _) => Some(elem.clone()),
        TypeT::FlexArray(elem) => Some(elem.clone()),
        _ => None,
    }
}

/// The type of a field of a record of the type.
#[verifier::opaque]
pub open spec fn spec_member_type(env: Env, ty: Rc<Type>, name: Rc<Ident>) -> Option<Rc<Type>>
{
    let field = match spec_vtype_whnf(env, ty).val {
        TypeT::TypeRef(TypeRefKind::Struct(n)) => {
            match spec_lookup_struct(env, n) {
                Some(d) => spec_find_field(d.fields, name),
                None => None,
            }
        },
        TypeT::TypeRef(TypeRefKind::Union(n)) => {
            match spec_lookup_union(env, n) {
                Some(d) => spec_find_field(d.fields, name),
                None => None,
            }
        },
        _ => None,
    };
    match field {
        Some(f) => Some(spec_field_type(f)),
        None => None,
    }
}

/// The type of a field of a record of the type.
pub fn member_type(env: &Env, ty: &Rc<Type>, name: &Rc<Ident>) -> (out: Option<Rc<Type>>)
    ensures
        out == spec_member_type(*env, *ty, *name),
{
    proof {
        reveal(spec_member_type);
    }
    let field = match &vtype_whnf(env, ty).val {
        TypeT::TypeRef(TypeRefKind::Struct(n)) => match lookup_struct(env, n) {
            Some(d) => find_field(&d.fields, name),
            None => None,
        },
        TypeT::TypeRef(TypeRefKind::Union(n)) => match lookup_union(env, n) {
            Some(d) => find_field(&d.fields, name),
            None => None,
        },
        _ => None,
    };
    match &field {
        Some(f) => Some(field_type(f)),
        None => None,
    }
}

/// What an array or a place in an array of the type holds.
#[verifier::opaque]
pub open spec fn spec_array_elem(env: Env, ty: Rc<Type>) -> Option<Rc<Type>>
{
    match spec_vtype_whnf(env, ty).val {
        TypeT::Pointer(to, PointerKind::Array) => Some(to),
        TypeT::Pointer(to, PointerKind::ArrayPtr) => Some(to),
        _ => None,
    }
}

/// What an array or a place in an array of the type holds.
pub fn array_elem(env: &Env, ty: &Rc<Type>) -> (out: Option<Rc<Type>>)
    ensures
        out == spec_array_elem(*env, *ty),
{
    proof {
        reveal(spec_array_elem);
    }
    match &vtype_whnf(env, ty).val {
        TypeT::Pointer(to, PointerKind::Array) => Some(to.clone()),
        TypeT::Pointer(to, PointerKind::ArrayPtr) => Some(to.clone()),
        _ => None,
    }
}

/// The type of an operator's result.
#[verifier::opaque]
pub open spec fn spec_binop_type(
    env: Env,
    op: BinOp,
    a: Option<Rc<Type>>,
    b: Option<Rc<Type>>,
    loc: Loc,
) -> Option<Rc<Type>>
{
    match op {
        BinOp::Eq | BinOp::LEq | BinOp::Lt => Some(spec_mk_type(loc, TypeT::Bool)),
        BinOp::Add => {
            match a {
                Some(x) => {
                    match spec_array_elem(env, x) {
                        Some(to) => Some(spec_mk_type(loc, TypeT::Pointer(to, PointerKind::ArrayPtr))),
                        None => {
                            match b {
                                Some(y) => {
                                    match spec_array_elem(env, y) {
                                        Some(to) => Some(spec_mk_type(loc, TypeT::Pointer(to, PointerKind::ArrayPtr))),
                                        None => Some(x),
                                    }
                                },
                                None => Some(x),
                            }
                        },
                    }
                },
                None => None,
            }
        },
        BinOp::Sub => {
            match a {
                Some(x) => {
                    match spec_array_elem(env, x) {
                        Some(to) => {
                            match b {
                                Some(y) => {
                                    match spec_array_elem(env, y) {
                                        Some(_) => Some(spec_mk_type(loc, TypeT::PtrdiffT)),
                                        None => Some(spec_mk_type(loc, TypeT::Pointer(to, PointerKind::ArrayPtr))),
                                    }
                                },
                                None => Some(spec_mk_type(loc, TypeT::Pointer(to, PointerKind::ArrayPtr))),
                            }
                        },
                        None => Some(x),
                    }
                },
                None => None,
            }
        },
        _ => spec_clone_opt_type(a),
    }
}

/// The type of an operator's result.
pub fn binop_type(
    env: &Env,
    op: BinOp,
    a: &Option<Rc<Type>>,
    b: &Option<Rc<Type>>,
    loc: &Loc,
) -> (out: Option<Rc<Type>>)
    ensures
        out == spec_binop_type(*env, op, *a, *b, *loc),
{
    proof {
        reveal(spec_binop_type);
    }
    match op {
        BinOp::Eq | BinOp::LEq | BinOp::Lt => Some(mk_type(loc, TypeT::Bool)),
        BinOp::Add => match a {
            Some(x) => match array_elem(env, x) {
                Some(to) => Some(mk_type(loc, TypeT::Pointer(to, PointerKind::ArrayPtr))),
                None => match b {
                    Some(y) => match array_elem(env, y) {
                        Some(to) => Some(mk_type(loc, TypeT::Pointer(to, PointerKind::ArrayPtr))),
                        None => Some(x.clone()),
                    },
                    None => Some(x.clone()),
                },
            },
            None => None,
        },
        BinOp::Sub => match a {
            Some(x) => match array_elem(env, x) {
                Some(to) => match b {
                    Some(y) => match array_elem(env, y) {
                        Some(_) => Some(mk_type(loc, TypeT::PtrdiffT)),
                        None => Some(mk_type(loc, TypeT::Pointer(to, PointerKind::ArrayPtr))),
                    },
                    None => Some(mk_type(loc, TypeT::Pointer(to, PointerKind::ArrayPtr))),
                },
                None => Some(x.clone()),
            },
            None => None,
        },
        _ => clone_opt_type(a),
    }
}

/// The type of a call's result.
#[verifier::opaque]
pub open spec fn spec_call_type(env: Env, f: Rc<Ident>) -> Option<Rc<Type>>
{
    match spec_lookup_fn(env, f) {
        Some(d) => Some(d.ret_type),
        None => None,
    }
}

/// The type of a call's result.
pub fn call_type(env: &Env, f: &Rc<Ident>) -> (out: Option<Rc<Type>>)
    ensures
        out == spec_call_type(*env, *f),
{
    proof {
        reveal(spec_call_type);
    }
    match lookup_fn(env, f) {
        Some(d) => Some(d.ret_type.clone()),
        None => None,
    }
}

/// The type of an expression, if it has one in the scope.
pub open spec fn spec_infer_expr(env: Env, e: Rc<Expr>) -> Option<Rc<Type>>
    decreases e,
{
    match e.val {
        ExprT::Var(x) => {
            match spec_lookup_var(env, x) {
                Some(d) => Some(d.ty),
                None => {
                    match spec_lookup_global_var(env, x) {
                        Some(g) => Some(g.ty),
                        None => None,
                    }
                },
            }
        },
        ExprT::BoolLit(_) => Some(spec_mk_type(e.loc, TypeT::Bool)),
        ExprT::IntLit(_, t) => Some(t),
        ExprT::FloatLit(_, t) => Some(t),
        ExprT::Deref(a) => {
            match spec_infer_expr(env, a) {
                Some(t) => spec_pointee(env, t),
                None => None,
            }
        },
        ExprT::Ref(a) => {
            match spec_infer_expr(env, a) {
                Some(t) => Some(spec_mk_type(e.loc, TypeT::Pointer(t, PointerKind::Ref))),
                None => None,
            }
        },
        ExprT::Member(a, f) => {
            match spec_infer_expr(env, a) {
                Some(t) => spec_member_type(env, t, f),
                None => None,
            }
        },
        ExprT::Index(a, _) => {
            match spec_infer_expr(env, a) {
                Some(t) => spec_pointee(env, t),
                None => None,
            }
        },
        ExprT::VAttr(VAttr::Length, _) => Some(spec_mk_type(e.loc, TypeT::SpecNat)),
        ExprT::VAttr(VAttr::Active(_), _) => Some(spec_mk_type(e.loc, TypeT::Bool)),
        ExprT::UnOp(UnOp::Not, _) => Some(spec_mk_type(e.loc, TypeT::Bool)),
        ExprT::UnOp(UnOp::Neg, a) | ExprT::UnOp(UnOp::BitNot, a) => spec_infer_expr(env, a),
        ExprT::BinOp(op, a, b) => spec_binop_type(env, op, spec_infer_expr(env, a), spec_infer_expr(env, b), e.loc),
        ExprT::AssignExpr(a, _) => spec_infer_expr(env, a),
        ExprT::Cond(_, a, _) => spec_infer_expr(env, a),
        ExprT::FnCall(f, _) => spec_call_type(env, f),
        ExprT::FnRef(f) => {
            match spec_lookup_fn(env, f) {
                Some(d) => Some(spec_mk_type(e.loc, TypeT::FnPtr { args: spec_arg_types(d.args), ret: d.ret_type })),
                None => None,
            }
        },
        ExprT::FnPtrCall(f, _) => {
            match spec_infer_expr(env, f) {
                Some(t) => {
                    match spec_vtype_whnf(env, t).val {
                        TypeT::FnPtr { ret, .. } => Some(ret),
                        _ => None,
                    }
                },
                None => None,
            }
        },
        ExprT::Cast(_, t) => Some(t),
        ExprT::InlinePulse(_, t) => Some(t),
        ExprT::Live(_) => Some(spec_mk_type(e.loc, TypeT::SLProp)),
        ExprT::Old(a) => spec_infer_expr(env, a),
        ExprT::Forall(x, t, b) | ExprT::Exists(x, t, b) => spec_infer_expr(spec_push_var_decl(env, x, t, LocalDeclKind::RValue), b),
        ExprT::StructInit(n, _) => Some(spec_mk_type(e.loc, TypeT::TypeRef(TypeRefKind::Struct(n)))),
        ExprT::UnionInit(n, _, _) => Some(spec_mk_type(e.loc, TypeT::TypeRef(TypeRefKind::Union(n)))),
        ExprT::ArrayInit { elem_ty, elems, .. } => Some(spec_mk_type(e.loc, TypeT::FixedArray(elem_ty, spec_list_len(elems)))),
        ExprT::Malloc(t) | ExprT::Calloc(t) => Some(spec_mk_type(e.loc, TypeT::Pointer(t, PointerKind::Ref))),
        ExprT::MallocArray(t, _) | ExprT::CallocArray(t, _) => Some(spec_mk_type(e.loc, TypeT::Pointer(t, PointerKind::Array))),
        ExprT::MallocFlex(t, _) | ExprT::CallocFlex(t, _) => Some(spec_mk_type(e.loc, TypeT::Pointer(t, PointerKind::Ref))),
        ExprT::Memset(_, _, _, _) => Some(spec_mk_type(e.loc, TypeT::Void)),
        ExprT::MemsetZero(_, _) => Some(spec_mk_type(e.loc, TypeT::Void)),
        ExprT::Free(_) => Some(spec_mk_type(e.loc, TypeT::Void)),
        ExprT::ContainerOf(_, t, _) => Some(spec_mk_type(e.loc, TypeT::Pointer(t, PointerKind::Ref))),
        ExprT::PreIncr(a) | ExprT::PostIncr(a) | ExprT::PreDecr(a) | ExprT::PostDecr(a) => spec_infer_expr(env, a),
        ExprT::SizeOf(_) => Some(spec_mk_type(e.loc, TypeT::SizeT)),
        ExprT::AlignOf(_) => Some(spec_mk_type(e.loc, TypeT::SizeT)),
        ExprT::Error(t) => Some(t),
    }
}

/// The type of an expression, if it has one in the scope.
pub fn infer_expr(env: &Env, e: &Rc<Expr>) -> (out: Option<Rc<Type>>)
    ensures
        out == spec_infer_expr(*env, *e),
    decreases e,
{
    match &e.val {
        ExprT::Var(x) => match lookup_var(env, x) {
            Some(d) => Some(d.ty.clone()),
            None => match lookup_global_var(env, x) {
                Some(g) => Some(g.ty.clone()),
                None => None,
            },
        },
        ExprT::BoolLit(_) => Some(mk_type(&e.loc, TypeT::Bool)),
        ExprT::IntLit(_, t) => Some(t.clone()),
        ExprT::FloatLit(_, t) => Some(t.clone()),
        ExprT::Deref(a) => match infer_expr(env, a) {
            Some(t) => pointee(env, &t),
            None => None,
        },
        ExprT::Ref(a) => match infer_expr(env, a) {
            Some(t) => Some(mk_type(&e.loc, TypeT::Pointer(t, PointerKind::Ref))),
            None => None,
        },
        ExprT::Member(a, f) => match infer_expr(env, a) {
            Some(t) => member_type(env, &t, f),
            None => None,
        },
        ExprT::Index(a, _) => match infer_expr(env, a) {
            Some(t) => pointee(env, &t),
            None => None,
        },
        ExprT::VAttr(VAttr::Length, _) => Some(mk_type(&e.loc, TypeT::SpecNat)),
        ExprT::VAttr(VAttr::Active(_), _) => Some(mk_type(&e.loc, TypeT::Bool)),
        ExprT::UnOp(UnOp::Not, _) => Some(mk_type(&e.loc, TypeT::Bool)),
        ExprT::UnOp(UnOp::Neg, a) | ExprT::UnOp(UnOp::BitNot, a) => infer_expr(env, a),
        ExprT::BinOp(op, a, b) => binop_type(env, *op, &infer_expr(env, a), &infer_expr(env, b), &e.loc),
        ExprT::AssignExpr(a, _) => infer_expr(env, a),
        ExprT::Cond(_, a, _) => infer_expr(env, a),
        ExprT::FnCall(f, _) => call_type(env, f),
        ExprT::FnRef(f) => match lookup_fn(env, f) {
            Some(d) => Some(mk_type(&e.loc, TypeT::FnPtr { args: arg_types(&d.args), ret: d.ret_type.clone() })),
            None => None,
        },
        ExprT::FnPtrCall(f, _) => match infer_expr(env, f) {
            Some(t) => match &vtype_whnf(env, &t).val {
                TypeT::FnPtr { ret, .. } => Some(ret.clone()),
                _ => None,
            },
            None => None,
        },
        ExprT::Cast(_, t) => Some(t.clone()),
        ExprT::InlinePulse(_, t) => Some(t.clone()),
        ExprT::Live(_) => Some(mk_type(&e.loc, TypeT::SLProp)),
        ExprT::Old(a) => infer_expr(env, a),
        ExprT::Forall(x, t, b) | ExprT::Exists(x, t, b) => infer_expr(&push_var_decl(env, x, t.clone(), LocalDeclKind::RValue), b),
        ExprT::StructInit(n, _) => Some(mk_type(&e.loc, TypeT::TypeRef(TypeRefKind::Struct(n.clone())))),
        ExprT::UnionInit(n, _, _) => Some(mk_type(&e.loc, TypeT::TypeRef(TypeRefKind::Union(n.clone())))),
        ExprT::ArrayInit { elem_ty, elems, .. } => Some(mk_type(&e.loc, TypeT::FixedArray(elem_ty.clone(), list_len(elems)))),
        ExprT::Malloc(t) | ExprT::Calloc(t) => Some(mk_type(&e.loc, TypeT::Pointer(t.clone(), PointerKind::Ref))),
        ExprT::MallocArray(t, _) | ExprT::CallocArray(t, _) => Some(mk_type(&e.loc, TypeT::Pointer(t.clone(), PointerKind::Array))),
        ExprT::MallocFlex(t, _) | ExprT::CallocFlex(t, _) => Some(mk_type(&e.loc, TypeT::Pointer(t.clone(), PointerKind::Ref))),
        ExprT::Memset(_, _, _, _) => Some(mk_type(&e.loc, TypeT::Void)),
        ExprT::MemsetZero(_, _) => Some(mk_type(&e.loc, TypeT::Void)),
        ExprT::Free(_) => Some(mk_type(&e.loc, TypeT::Void)),
        ExprT::ContainerOf(_, t, _) => Some(mk_type(&e.loc, TypeT::Pointer(t.clone(), PointerKind::Ref))),
        ExprT::PreIncr(a) | ExprT::PostIncr(a) | ExprT::PreDecr(a) | ExprT::PostDecr(a) => infer_expr(env, a),
        ExprT::SizeOf(_) => Some(mk_type(&e.loc, TypeT::SizeT)),
        ExprT::AlignOf(_) => Some(mk_type(&e.loc, TypeT::SizeT)),
        ExprT::Error(t) => Some(t.clone()),
    }
}

/// Why an expression has no type in the scope: what is wrong with the innermost part of it that
/// has none.
pub open spec fn spec_infer_error(env: Env, e: Rc<Expr>) -> Text
    decreases e,
{
    match e.val {
        ExprT::Var(x) => spec_cat(spec_lit("unknown variable "), x.val),
        ExprT::FnCall(f, _) => spec_cat(spec_lit("unknown function "), f.val),
        ExprT::FnRef(f) => spec_cat(spec_lit("unknown function "), f.val),
        ExprT::Deref(a) | ExprT::Index(a, _) => {
            match spec_infer_expr(env, a) {
                Some(t) => spec_cat(spec_lit("not a pointer type: "), spec_show_type(t)),
                None => spec_infer_error(env, a),
            }
        },
        ExprT::Member(a, f) => {
            match spec_infer_expr(env, a) {
                Some(t) => spec_cat4(spec_lit("no field "), f.val, spec_lit(" in "), spec_show_type(t)),
                None => spec_infer_error(env, a),
            }
        },
        ExprT::FnPtrCall(f, _) => {
            match spec_infer_expr(env, f) {
                Some(t) => spec_cat(spec_lit("not a function pointer type: "), spec_show_type(t)),
                None => spec_infer_error(env, f),
            }
        },
        ExprT::Ref(a) | ExprT::UnOp(_, a) | ExprT::BinOp(_, a, _) | ExprT::AssignExpr(a, _) => spec_infer_error(env, a),
        ExprT::Cond(_, a, _) | ExprT::Old(a) => spec_infer_error(env, a),
        ExprT::PreIncr(a) | ExprT::PostIncr(a) | ExprT::PreDecr(a) | ExprT::PostDecr(a) => spec_infer_error(env, a),
        ExprT::Forall(x, t, b) | ExprT::Exists(x, t, b) => spec_infer_error(spec_push_var_decl(env, x, t, LocalDeclKind::RValue), b),
        _ => spec_lit("no type"),
    }
}

/// Why an expression has no type in the scope: what is wrong with the innermost part of it that
/// has none.
pub fn infer_error(env: &Env, e: &Rc<Expr>) -> (out: Text)
    ensures
        out == spec_infer_error(*env, *e),
    decreases e,
{
    match &e.val {
        ExprT::Var(x) => cat(lit("unknown variable "), x.val.clone()),
        ExprT::FnCall(f, _) => cat(lit("unknown function "), f.val.clone()),
        ExprT::FnRef(f) => cat(lit("unknown function "), f.val.clone()),
        ExprT::Deref(a) | ExprT::Index(a, _) => match infer_expr(env, a) {
            Some(t) => cat(lit("not a pointer type: "), show_type(&t)),
            None => infer_error(env, a),
        },
        ExprT::Member(a, f) => match infer_expr(env, a) {
            Some(t) => cat4(lit("no field "), f.val.clone(), lit(" in "), show_type(&t)),
            None => infer_error(env, a),
        },
        ExprT::FnPtrCall(f, _) => match infer_expr(env, f) {
            Some(t) => cat(lit("not a function pointer type: "), show_type(&t)),
            None => infer_error(env, f),
        },
        ExprT::Ref(a) | ExprT::UnOp(_, a) | ExprT::BinOp(_, a, _) | ExprT::AssignExpr(a, _) => infer_error(env, a),
        ExprT::Cond(_, a, _) | ExprT::Old(a) => infer_error(env, a),
        ExprT::PreIncr(a) | ExprT::PostIncr(a) | ExprT::PreDecr(a) | ExprT::PostDecr(a) => infer_error(env, a),
        ExprT::Forall(x, t, b) | ExprT::Exists(x, t, b) => infer_error(&push_var_decl(env, x, t.clone(), LocalDeclKind::RValue), b),
        _ => lit("no type"),
    }
}

/// The shape of an expression's values, if the expression has a type in the scope.
#[verifier::opaque]
pub open spec fn spec_infer_whnf(env: Env, e: Rc<Expr>) -> Option<Rc<Type>>
{
    match spec_infer_expr(env, e) {
        Some(t) => Some(spec_vtype_whnf(env, t)),
        None => None,
    }
}

/// The shape of an expression's values, if the expression has a type in the scope.
pub fn infer_whnf(env: &Env, e: &Rc<Expr>) -> (out: Option<Rc<Type>>)
    ensures
        out == spec_infer_whnf(*env, *e),
{
    proof {
        reveal(spec_infer_whnf);
    }
    match infer_expr(env, e) {
        Some(t) => Some(vtype_whnf(env, &t)),
        None => None,
    }
}

/// Whether the name is that of a typedef or of an opaque type.
#[verifier::opaque]
pub open spec fn spec_is_known_type(env: Env, x: Rc<Ident>) -> bool
{
    spec_find_typedef(env.typedefs, x).is_some() || spec_has_opaque(env.opaques, x)
}

/// Whether the name is that of a typedef or of an opaque type.
pub fn is_known_type(env: &Env, x: &Rc<Ident>) -> (out: bool)
    ensures
        out == spec_is_known_type(*env, *x),
{
    proof {
        reveal(spec_is_known_type);
    }
    find_typedef(&env.typedefs, x).is_some() || has_opaque(&env.opaques, x)
}

/// Whether one of the opaque types has the name.
pub open spec fn spec_has_opaque(l: Rc<List<OpaqueTypeDecl>>, x: Rc<Ident>) -> bool
    decreases l,
{
    match *l {
        List::Nil => false,
        List::Cons(h, t) => spec_same_name(h.name, x) || spec_has_opaque(t, x),
    }
}

/// Whether one of the opaque types has the name.
pub fn has_opaque(l: &Rc<List<OpaqueTypeDecl>>, x: &Rc<Ident>) -> (out: bool)
    ensures
        out == spec_has_opaque(*l, *x),
    decreases l,
{
    match &**l {
        List::Nil => false,
        List::Cons(h, t) => same_name(&h.name, x) || has_opaque(t, x),
    }
}

/// Whether the expression is a place that can be written to.
pub open spec fn spec_is_lvalue(env: Env, e: Rc<Expr>) -> bool
    decreases e,
{
    match e.val {
        ExprT::Var(x) => {
            match spec_lookup_var(env, x) {
                Some(d) => d.kind == LocalDeclKind::LValue,
                None => false,
            }
        },
        ExprT::Deref(_) => true,
        ExprT::Index(_, _) => true,
        ExprT::Member(a, _) => spec_is_lvalue(env, a),
        _ => false,
    }
}

/// Whether the expression is a place that can be written to.
pub fn is_lvalue(env: &Env, e: &Rc<Expr>) -> (out: bool)
    ensures
        out == spec_is_lvalue(*env, *e),
    decreases e,
{
    match &e.val {
        ExprT::Var(x) => match lookup_var(env, x) {
            Some(d) => d.kind == LocalDeclKind::LValue,
            None => false,
        },
        ExprT::Deref(_) => true,
        ExprT::Index(_, _) => true,
        ExprT::Member(a, _) => is_lvalue(env, a),
        _ => false,
    }
}

/// Whether the address of the expression can be taken: it is a place that can be written to, or
/// a global with an address.
#[verifier::opaque]
pub open spec fn spec_is_addressable(env: Env, e: Rc<Expr>) -> bool
{
    match e.val {
        ExprT::Var(x) => spec_is_lvalue(env, e) || spec_addressable_global(env, x).is_some(),
        _ => spec_is_lvalue(env, e),
    }
}

/// Whether the address of the expression can be taken: it is a place that can be written to, or
/// a global with an address.
pub fn is_addressable(env: &Env, e: &Rc<Expr>) -> (out: bool)
    ensures
        out == spec_is_addressable(*env, *e),
{
    proof {
        reveal(spec_is_addressable);
    }
    match &e.val {
        ExprT::Var(x) => is_lvalue(env, e) || addressable_global(env, x).is_some(),
        _ => is_lvalue(env, e),
    }
}

/// The local names in scope with their types, one to a line.
pub open spec fn spec_show_locals(l: Rc<List<LocalDecl>>) -> Text
    decreases l,
{
    match *l {
        List::Nil => spec_lit(""),
        List::Cons(h, t) => spec_cat5(h.name, spec_lit(": "), spec_show_type(h.ty), spec_lit("\n"), spec_show_locals(t)),
    }
}

/// The local names in scope with their types, one to a line.
pub fn show_locals(l: &Rc<List<LocalDecl>>) -> (out: Text)
    ensures
        out == spec_show_locals(*l),
    decreases l,
{
    match &**l {
        List::Nil => lit(""),
        List::Cons(h, t) => cat5(h.name.clone(), lit(": "), show_type(&h.ty), lit("\n"), show_locals(t)),
    }
}

/// What is in scope, for a reader.
#[verifier::opaque]
pub open spec fn spec_show_env(env: Env) -> Text
{
    spec_show_locals(env.locals)
}

/// What is in scope, for a reader.
pub fn show_env(env: &Env) -> (out: Text)
    ensures
        out == spec_show_env(*env),
{
    proof {
        reveal(spec_show_env);
    }
    show_locals(&env.locals)
}

/// Whether the expression holds the residue of an error that was reported already.
pub open spec fn spec_contains_error(e: Rc<Expr>) -> bool
    decreases e, 1nat,
{
    match e.val {
        ExprT::Error(_) => true,
        ExprT::Deref(a) | ExprT::Ref(a) | ExprT::Member(a, _) | ExprT::VAttr(_, a) => spec_contains_error(a),
        ExprT::UnOp(_, a) | ExprT::Cast(a, _) | ExprT::Live(a) | ExprT::Old(a) => spec_contains_error(a),
        ExprT::Forall(_, _, a) | ExprT::Exists(_, _, a) | ExprT::UnionInit(_, _, a) => spec_contains_error(a),
        ExprT::MallocArray(_, a) | ExprT::CallocArray(_, a) | ExprT::MallocFlex(_, a) => spec_contains_error(a),
        ExprT::CallocFlex(_, a) | ExprT::MemsetZero(_, a) | ExprT::Free(a) => spec_contains_error(a),
        ExprT::ContainerOf(a, _, _) | ExprT::PreIncr(a) | ExprT::PostIncr(a) => spec_contains_error(a),
        ExprT::PreDecr(a) | ExprT::PostDecr(a) => spec_contains_error(a),
        _ => spec_several_contain_error(e),
    }
}

/// Whether the expression holds the residue of an error that was reported already.
pub fn contains_error(e: &Rc<Expr>) -> (out: bool)
    ensures
        out == spec_contains_error(*e),
    decreases e, 1nat,
{
    match &e.val {
        ExprT::Error(_) => true,
        ExprT::Deref(a) | ExprT::Ref(a) | ExprT::Member(a, _) | ExprT::VAttr(_, a) => contains_error(a),
        ExprT::UnOp(_, a) | ExprT::Cast(a, _) | ExprT::Live(a) | ExprT::Old(a) => contains_error(a),
        ExprT::Forall(_, _, a) | ExprT::Exists(_, _, a) | ExprT::UnionInit(_, _, a) => contains_error(a),
        ExprT::MallocArray(_, a) | ExprT::CallocArray(_, a) | ExprT::MallocFlex(_, a) => contains_error(a),
        ExprT::CallocFlex(_, a) | ExprT::MemsetZero(_, a) | ExprT::Free(a) => contains_error(a),
        ExprT::ContainerOf(a, _, _) | ExprT::PreIncr(a) | ExprT::PostIncr(a) => contains_error(a),
        ExprT::PreDecr(a) | ExprT::PostDecr(a) => contains_error(a),
        _ => several_contain_error(e),
    }
}

/// The same for an expression with several operands.
pub open spec fn spec_several_contain_error(e: Rc<Expr>) -> bool
    decreases e, 0nat,
{
    match e.val {
        ExprT::Index(a, b) | ExprT::BinOp(_, a, b) | ExprT::AssignExpr(a, b) => spec_contains_error(a) || spec_contains_error(b),
        ExprT::Cond(a, b, c) | ExprT::Memset(_, a, b, c) => spec_contains_error(a) || spec_contains_error(b) || spec_contains_error(c),
        ExprT::FnCall(_, l) => spec_any_contains_error(l),
        ExprT::ArrayInit { elems, .. } => spec_any_contains_error(elems),
        ExprT::FnPtrCall(f, l) => spec_contains_error(f) || spec_any_contains_error(l),
        ExprT::StructInit(_, l) => spec_inits_contain_error(l),
        ExprT::InlinePulse(code, _) => spec_tokens_contain_error(code.tokens),
        _ => false,
    }
}

/// The same for an expression with several operands.
pub fn several_contain_error(e: &Rc<Expr>) -> (out: bool)
    ensures
        out == spec_several_contain_error(*e),
    decreases e, 0nat,
{
    match &e.val {
        ExprT::Index(a, b) | ExprT::BinOp(_, a, b) | ExprT::AssignExpr(a, b) => contains_error(a) || contains_error(b),
        ExprT::Cond(a, b, c) | ExprT::Memset(_, a, b, c) => contains_error(a) || contains_error(b) || contains_error(c),
        ExprT::FnCall(_, l) => any_contains_error(l),
        ExprT::ArrayInit { elems, .. } => any_contains_error(elems),
        ExprT::FnPtrCall(f, l) => contains_error(f) || any_contains_error(l),
        ExprT::StructInit(_, l) => inits_contain_error(l),
        ExprT::InlinePulse(code, _) => tokens_contain_error(&code.tokens),
        _ => false,
    }
}

/// Whether one of the expressions holds the residue of an error.
pub open spec fn spec_any_contains_error(l: Rc<List<Expr>>) -> bool
    decreases l, 0nat,
{
    match *l {
        List::Nil => false,
        List::Cons(h, t) => spec_contains_error(h) || spec_any_contains_error(t),
    }
}

/// Whether one of the expressions holds the residue of an error.
pub fn any_contains_error(l: &Rc<List<Expr>>) -> (out: bool)
    ensures
        out == spec_any_contains_error(*l),
    decreases l, 0nat,
{
    match &**l {
        List::Nil => false,
        List::Cons(h, t) => contains_error(h) || any_contains_error(t),
    }
}

/// Whether the value of a field holds the residue of an error.
pub open spec fn spec_init_contains_error(i: Rc<FieldInit>) -> bool
    decreases i, 0nat,
{
    spec_contains_error(i.value)
}

/// Whether the value of a field holds the residue of an error.
pub fn init_contains_error(i: &Rc<FieldInit>) -> (out: bool)
    ensures
        out == spec_init_contains_error(*i),
    decreases i, 0nat,
{
    contains_error(&i.value)
}

/// Whether one of the values of fields holds the residue of an error.
pub open spec fn spec_inits_contain_error(l: Rc<List<FieldInit>>) -> bool
    decreases l, 0nat,
{
    match *l {
        List::Nil => false,
        List::Cons(h, t) => spec_init_contains_error(h) || spec_inits_contain_error(t),
    }
}

/// Whether one of the values of fields holds the residue of an error.
pub fn inits_contain_error(l: &Rc<List<FieldInit>>) -> (out: bool)
    ensures
        out == spec_inits_contain_error(*l),
    decreases l, 0nat,
{
    match &**l {
        List::Nil => false,
        List::Cons(h, t) => init_contains_error(h) || inits_contain_error(t),
    }
}

/// Whether a token holds the residue of an error.
pub open spec fn spec_token_contains_error(tok: Rc<InlinePulseToken>) -> bool
    decreases tok, 0nat,
{
    match *tok {
        InlinePulseToken::RValueAntiquot { expr, .. } => spec_contains_error(expr),
        InlinePulseToken::LValueAntiquot { expr, .. } => spec_contains_error(expr),
        _ => false,
    }
}

/// Whether a token holds the residue of an error.
pub fn token_contains_error(tok: &Rc<InlinePulseToken>) -> (out: bool)
    ensures
        out == spec_token_contains_error(*tok),
    decreases tok, 0nat,
{
    match &**tok {
        InlinePulseToken::RValueAntiquot { expr, .. } => contains_error(expr),
        InlinePulseToken::LValueAntiquot { expr, .. } => contains_error(expr),
        _ => false,
    }
}

/// Whether inline code holds the residue of an error.
pub open spec fn spec_tokens_contain_error(l: Rc<List<InlinePulseToken>>) -> bool
    decreases l, 0nat,
{
    match *l {
        List::Nil => false,
        List::Cons(h, t) => spec_token_contains_error(h) || spec_tokens_contain_error(t),
    }
}

/// Whether inline code holds the residue of an error.
pub fn tokens_contain_error(l: &Rc<List<InlinePulseToken>>) -> (out: bool)
    ensures
        out == spec_tokens_contain_error(*l),
    decreases l, 0nat,
{
    match &**l {
        List::Nil => false,
        List::Cons(h, t) => token_contains_error(h) || tokens_contain_error(t),
    }
}

/// Whether the type is a record that ends in a flexible array member.
#[verifier::opaque]
pub open spec fn spec_type_has_flex_array_member(env: Env, ty: Rc<Type>) -> bool
{
    match spec_vtype_whnf(env, ty).val {
        TypeT::TypeRef(TypeRefKind::Struct(n)) => {
            match spec_lookup_struct(env, n) {
                Some(d) => spec_has_flex_field(d.fields),
                None => false,
            }
        },
        _ => false,
    }
}

/// Whether the type is a record that ends in a flexible array member.
pub fn type_has_flex_array_member(env: &Env, ty: &Rc<Type>) -> (out: bool)
    ensures
        out == spec_type_has_flex_array_member(*env, *ty),
{
    proof {
        reveal(spec_type_has_flex_array_member);
    }
    match &vtype_whnf(env, ty).val {
        TypeT::TypeRef(TypeRefKind::Struct(n)) => match lookup_struct(env, n) {
            Some(d) => has_flex_field(&d.fields),
            None => false,
        },
        _ => false,
    }
}

/// The common type of two machine integers: the wider one or, of the same width, the unsigned
/// one.
#[verifier::opaque]
pub open spec fn spec_meet_ints(loc: Loc, s1: bool, w1: u32, s2: bool, w2: u32) -> Rc<Type>
{
    if w1 > w2 {
        spec_mk_type(loc, TypeT::Int { signed: s1, width: w1 })
    } else {
        if w2 > w1 {
            spec_mk_type(loc, TypeT::Int { signed: s2, width: w2 })
        } else {
            spec_mk_type(loc, TypeT::Int { signed: s1 && s2, width: w1 })
        }
    }
}

/// The common type of two machine integers: the wider one or, of the same width, the unsigned
/// one.
pub fn meet_ints(loc: &Loc, s1: bool, w1: u32, s2: bool, w2: u32) -> (out: Rc<Type>)
    ensures
        out == spec_meet_ints(*loc, s1, w1, s2, w2),
{
    proof {
        reveal(spec_meet_ints);
    }
    if w1 > w2 {
        mk_type(loc, TypeT::Int { signed: s1, width: w1 })
    } else if w2 > w1 {
        mk_type(loc, TypeT::Int { signed: s2, width: w2 })
    } else {
        mk_type(loc, TypeT::Int { signed: s1 && s2, width: w1 })
    }
}

/// The kind of pointer that two kinds have in common.
#[verifier::opaque]
pub open spec fn spec_meet_pointer_kinds(a: PointerKind, b: PointerKind) -> Option<PointerKind>
{
    match (a, b) {
        (PointerKind::Unknown, k) => Some(k),
        (k, PointerKind::Unknown) => Some(k),
        (PointerKind::Array, PointerKind::ArrayPtr) | (PointerKind::ArrayPtr, PointerKind::Array) => Some(PointerKind::ArrayPtr),
        _ => {
            if a == b {
                Some(a)
            } else {
                None
            }
        },
    }
}

/// The kind of pointer that two kinds have in common.
pub fn meet_pointer_kinds(a: PointerKind, b: PointerKind) -> (out: Option<PointerKind>)
    ensures
        out == spec_meet_pointer_kinds(a, b),
{
    proof {
        reveal(spec_meet_pointer_kinds);
    }
    match (a, b) {
        (PointerKind::Unknown, k) => Some(k),
        (k, PointerKind::Unknown) => Some(k),
        (PointerKind::Array, PointerKind::ArrayPtr) | (PointerKind::ArrayPtr, PointerKind::Array) => Some(PointerKind::ArrayPtr),
        _ => if a == b { Some(a) } else { None },
    }
}

/// How far arithmetic reaches from a type: a value of a type converts to any type of a higher
/// rank.
#[verifier::opaque]
pub open spec fn spec_arith_rank(ty: Rc<Type>) -> u32
{
    match ty.val {
        TypeT::Bool => 1,
        TypeT::Int { .. } => 2,
        TypeT::SizeT => 3,
        TypeT::PtrdiffT => 4,
        TypeT::Float { .. } => 5,
        TypeT::SpecNat => 6,
        TypeT::SpecInt => 7,
        TypeT::SLProp => 8,
        _ => 0,
    }
}

/// How far arithmetic reaches from a type: a value of a type converts to any type of a higher
/// rank.
pub fn arith_rank(ty: &Rc<Type>) -> (out: u32)
    ensures
        out == spec_arith_rank(*ty),
{
    proof {
        reveal(spec_arith_rank);
    }
    match &ty.val {
        TypeT::Bool => 1,
        TypeT::Int { .. } => 2,
        TypeT::SizeT => 3,
        TypeT::PtrdiffT => 4,
        TypeT::Float { .. } => 5,
        TypeT::SpecNat => 6,
        TypeT::SpecInt => 7,
        TypeT::SLProp => 8,
        _ => 0,
    }
}

/// The type that operands of two types are converted to, if there is one: the usual arithmetic
/// conversions, with mathematical integers above all machine types.
#[verifier::opaque]
pub open spec fn spec_meet_type(env: Env, a: Rc<Type>, b: Rc<Type>) -> Option<Rc<Type>>
{
    let x = spec_vtype_whnf(env, a);
    let y = spec_vtype_whnf(env, b);
    if spec_vtype_eq(env, a, b) {
        Some(a)
    } else {
        match (x.val, y.val) {
            (TypeT::Error, _) => Some(b),
            (TypeT::Unknown, _) => Some(b),
            (_, TypeT::Error) => Some(a),
            (_, TypeT::Unknown) => Some(a),
            (TypeT::Int { signed: s1, width: w1 }, TypeT::Int { signed: s2, width: w2 }) => Some(spec_meet_ints(x.loc, s1, w1, s2, w2)),
            (TypeT::Float { width: w1 }, TypeT::Float { width: w2 }) => {
                Some(if w1 > w2 {
                        a
                    } else {
                        b
                })
            },
            (TypeT::Pointer(t1, k1), TypeT::Pointer(t2, k2)) => {
                if spec_vtype_eq(env, t1, t2) {
                    match spec_meet_pointer_kinds(k1, k2) {
                        Some(k) => Some(spec_mk_type(x.loc, TypeT::Pointer(t1, k))),
                        None => None,
                    }
                } else {
                    None
                }
            },
            _ => {
                if spec_arith_rank(x) == 0 || spec_arith_rank(y) == 0 {
                    None
                } else {
                    if spec_arith_rank(x) > spec_arith_rank(y) {
                        Some(a)
                    } else {
                        Some(b)
                    }
                }
            },
        }
    }
}

/// The type that operands of two types are converted to, if there is one: the usual arithmetic
/// conversions, with mathematical integers above all machine types.
pub fn meet_type(env: &Env, a: &Rc<Type>, b: &Rc<Type>) -> (out: Option<Rc<Type>>)
    ensures
        out == spec_meet_type(*env, *a, *b),
{
    proof {
        reveal(spec_meet_type);
    }
    let x = vtype_whnf(env, a);
    let y = vtype_whnf(env, b);
    if vtype_eq(env, a, b) {
        Some(a.clone())
    } else {
        match (&x.val, &y.val) {
            (TypeT::Error, _) => Some(b.clone()),
            (TypeT::Unknown, _) => Some(b.clone()),
            (_, TypeT::Error) => Some(a.clone()),
            (_, TypeT::Unknown) => Some(a.clone()),
            (TypeT::Int { signed: s1, width: w1 }, TypeT::Int { signed: s2, width: w2 }) => Some(meet_ints(&x.loc, *s1, *w1, *s2, *w2)),
            (TypeT::Float { width: w1 }, TypeT::Float { width: w2 }) => Some(if *w1 > *w2 { a.clone() } else { b.clone() }),
            (TypeT::Pointer(t1, k1), TypeT::Pointer(t2, k2)) => if vtype_eq(env, t1, t2) {
                match meet_pointer_kinds(*k1, *k2) {
                    Some(k) => Some(mk_type(&x.loc, TypeT::Pointer(t1.clone(), k))),
                    None => None,
                }
            } else {
                None
            },
            _ => if arith_rank(&x) == 0 || arith_rank(&y) == 0 {
                None
            } else if arith_rank(&x) > arith_rank(&y) {
                Some(a.clone())
            } else {
                Some(b.clone())
            },
        }
    }
}

} // verus!
