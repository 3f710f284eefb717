//! What is proved of scopes that say the same.

use crate::list::{List, spec_bump, spec_drop_one, spec_list_len};
use crate::text::{Text, spec_lit};
use crate::ir::{
    BinOp, Decl, Expr, ExprT, Field, FnArg, FnDecl, GhostArg, Ident, InlinePulseToken, Loc,
    PointerKind, Stmt, StmtT, Type, TypeRefKind, TypeT, UnOp, spec_field_name, spec_field_type,
    spec_mk_type,
};
use crate::env::{
    Env, LocalDeclKind, spec_addressable_global, spec_array_elem, spec_binop_type, spec_call_type,
    spec_clone_env, spec_clone_opt_type, spec_enter_loop, spec_find_fn, spec_find_global,
    spec_find_struct, spec_find_typedef, spec_find_union, spec_has_opaque, spec_infer_error,
    spec_infer_expr, spec_is_addressable, spec_is_known_type, spec_is_lvalue, spec_lookup_fn,
    spec_lookup_global_var, spec_lookup_struct, spec_lookup_union, spec_lookup_var,
    spec_member_type, spec_plus, spec_pointee, spec_push_arg, spec_push_args, spec_push_declared,
    spec_push_fn_decl_args_for_body, spec_push_ghost_args, spec_push_local, spec_push_return,
    spec_push_stmt, spec_push_this, spec_push_var_decl, spec_show_env, spec_type_size,
    spec_typedefs_size, spec_vtype_eq, spec_vtype_eq_within, spec_vtype_whnf,
    spec_vtypes_eq_within, spec_whnf_within, spec_with_locals, spec_with_return_type,
};
use crate::names::TypeRef;
use crate::check::{
    spec_field_env, spec_is_index_type, spec_is_indexable, spec_is_logical_type, spec_is_not_type,
    spec_is_pointer_arithmetic, spec_is_pointer_type, spec_is_valid_float_type,
    spec_is_valid_int_type, spec_push_siblings,
};
use crate::laws_goto::ident_text;
use crate::laws_rename::code_tokens;
use crate::laws_types::typedef_body;
use crate::laws_syntax::{fn_args, fn_ghost_args};
use crate::laws_check::{arg_type, ghost_name, ghost_type};
use std::rc::Rc;
use vstd::prelude::*;

verus! {

/// Whether two scopes declare the same: by each name the same is found, and as much of typedefs is
/// unfolded.
#[verifier::opaque]
pub open spec fn same_tables(a: Env, b: Env) -> bool {
    &&& forall|x: Rc<Ident>| #[trigger] spec_find_fn(a.fns, x) == spec_find_fn(b.fns, x)
    &&& forall|x: Rc<Ident>| #[trigger] spec_find_typedef(a.typedefs, x) == spec_find_typedef(b.typedefs, x)
    &&& forall|x: Rc<Ident>| #[trigger] spec_find_struct(a.structs, x) == spec_find_struct(b.structs, x)
    &&& forall|x: Rc<Ident>| #[trigger] spec_find_union(a.unions, x) == spec_find_union(b.unions, x)
    &&& forall|x: Rc<Ident>| #[trigger] spec_find_global(a.globals, x) == spec_find_global(b.globals, x)
    &&& forall|x: Rc<Ident>| #[trigger] spec_has_opaque(a.opaques, x) == spec_has_opaque(b.opaques, x)
    &&& spec_list_len(a.typedefs) == spec_list_len(b.typedefs)
    &&& spec_typedefs_size(a.typedefs) == spec_typedefs_size(b.typedefs)
}

/// Whether two scopes say the same: they declare the same, and are inside of the same.
pub open spec fn same_scope(a: Env, b: Env) -> bool {
    &&& a.locals == b.locals
    &&& a.return_type == b.return_type
    &&& a.in_loop == b.in_loop
    &&& same_tables(a, b)
}

/// Whether a scope has the tables of another.
pub open spec fn has_tables_of(a: Env, b: Env) -> bool {
    &&& a.fns == b.fns
    &&& a.typedefs == b.typedefs
    &&& a.structs == b.structs
    &&& a.unions == b.unions
    &&& a.globals == b.globals
    &&& a.opaques == b.opaques
}

/// Declaring the same depends on the tables alone.
proof fn lemma_same_tables(a: Env, b: Env, c: Env, d: Env)
    requires
        same_tables(a, b),
        has_tables_of(c, a),
        has_tables_of(d, b),
    ensures
        same_tables(c, d),
{
    reveal(same_tables);
}

/// A scope says the same as itself, and it does not matter which of two comes first.
pub proof fn lemma_same_scope(a: Env, b: Env, c: Env)
    ensures
        same_scope(a, a),
        same_scope(a, b) ==> same_scope(b, a),
        same_scope(a, b) && same_scope(b, c) ==> same_scope(a, c),
{
    reveal(same_tables);
}

/// The same is unfolded in scopes that say the same.
proof fn lemma_same_whnf_within(a: Env, b: Env, ty: Rc<Type>, fuel: u64)
    requires
        same_tables(a, b),
    ensures
        spec_whnf_within(a, ty, fuel) == spec_whnf_within(b, ty, fuel),
    decreases fuel, ty,
{
    match ty.val {
        TypeT::Refine(t, _) | TypeT::RefineAlways(t, _) | TypeT::RefineUninit(t, _) => lemma_same_whnf_within(a, b, t, fuel),
        TypeT::RefineValue(t, _, _, _) => lemma_same_whnf_within(a, b, t, fuel),
        TypeT::Plain(t) | TypeT::Nullable(t) => lemma_same_whnf_within(a, b, t, fuel),
        TypeT::TypeRef(TypeRefKind::Typedef(n)) => {
            reveal(same_tables);
            assert(spec_find_typedef(a.typedefs, n) == spec_find_typedef(b.typedefs, n));
            match spec_find_typedef(a.typedefs, n) {
                Some(d) => {
                    if fuel > 0 {
                        lemma_same_whnf_within(a, b, typedef_body(d), spec_drop_one(fuel));
                    }
                },
                None => {},
            }
        },
        _ => {},
    }
}

/// The shape of a type is the same in scopes that say the same.
pub proof fn lemma_same_whnf(a: Env, b: Env)
    requires
        same_tables(a, b),
    ensures
        forall|ty: Rc<Type>| #[trigger] spec_vtype_whnf(a, ty) == spec_vtype_whnf(b, ty),
{
    assert forall|ty: Rc<Type>| #[trigger] spec_vtype_whnf(a, ty) == spec_vtype_whnf(b, ty) by {
        reveal(spec_vtype_whnf);
        lemma_same_whnf_within(a, b, ty, spec_list_len(a.typedefs));
        reveal(same_tables);
    }
}

/// The same types are equal in scopes that say the same.
proof fn lemma_same_eq_within(a: Env, b: Env, x: Rc<Type>, y: Rc<Type>, fuel: u64)
    requires
        same_tables(a, b),
    ensures
        spec_vtype_eq_within(a, x, y, fuel) == spec_vtype_eq_within(b, x, y, fuel),
    decreases fuel,
{
    if fuel > 0 {
        lemma_same_whnf(a, b);
        let less = spec_drop_one(fuel);
        match spec_vtype_whnf(a, x).val {
            TypeT::Pointer(s, _) => match spec_vtype_whnf(a, y).val {
                TypeT::Pointer(t, _) => lemma_same_eq_within(a, b, s, t, less),
                _ => {},
            },
            TypeT::FixedArray(s, _) => match spec_vtype_whnf(a, y).val {
                TypeT::FixedArray(t, _) => lemma_same_eq_within(a, b, s, t, less),
                _ => {},
            },
            TypeT::FlexArray(s) => match spec_vtype_whnf(a, y).val {
                TypeT::FlexArray(t) => lemma_same_eq_within(a, b, s, t, less),
                _ => {},
            },
            TypeT::FnPtr { args: l, ret: s } => match spec_vtype_whnf(a, y).val {
                TypeT::FnPtr { args: m, ret: t } => {
                    lemma_same_eqs_within(a, b, l, m, less);
                    lemma_same_eq_within(a, b, s, t, less);
                },
                _ => {},
            },
            _ => {},
        }
    }
}

/// The same types are equal one by one in scopes that say the same.
proof fn lemma_same_eqs_within(a: Env, b: Env, x: Rc<List<Type>>, y: Rc<List<Type>>, fuel: u64)
    requires
        same_tables(a, b),
    ensures
        spec_vtypes_eq_within(a, x, y, fuel) == spec_vtypes_eq_within(b, x, y, fuel),
    decreases fuel, x,
{
    match *x {
        List::Cons(g, s) => match *y {
            List::Cons(h, t) => {
                if fuel > 0 {
                    lemma_same_eq_within(a, b, g, h, spec_drop_one(fuel));
                }
                lemma_same_eqs_within(a, b, s, t, fuel);
            },
            _ => {},
        },
        _ => {},
    }
}

/// The same types are equal in scopes that say the same.
pub proof fn lemma_same_eq(a: Env, b: Env)
    requires
        same_tables(a, b),
    ensures
        forall|x: Rc<Type>, y: Rc<Type>| #[trigger] spec_vtype_eq(a, x, y) == spec_vtype_eq(b, x, y),
{
    assert forall|x: Rc<Type>, y: Rc<Type>| #[trigger] spec_vtype_eq(a, x, y) == spec_vtype_eq(b, x, y) by {
        reveal(spec_vtype_eq);
        let typedefs = spec_plus(spec_typedefs_size(a.typedefs), spec_typedefs_size(a.typedefs));
        lemma_same_eq_within(a, b, x, y, spec_bump(spec_plus(spec_plus(spec_type_size(x), spec_type_size(y)), typedefs)));
        reveal(same_tables);
    }
}

/// The same is found in scopes that say the same.
pub proof fn lemma_same_lookups(a: Env, b: Env)
    requires
        same_scope(a, b),
    ensures
        forall|x: Rc<Ident>| #[trigger] spec_lookup_var(a, x) == spec_lookup_var(b, x),
        forall|x: Rc<Ident>| #[trigger] spec_lookup_global_var(a, x) == spec_lookup_global_var(b, x),
        forall|x: Rc<Ident>| #[trigger] spec_lookup_fn(a, x) == spec_lookup_fn(b, x),
        forall|x: Rc<Ident>| #[trigger] spec_lookup_struct(a, x) == spec_lookup_struct(b, x),
        forall|x: Rc<Ident>| #[trigger] spec_lookup_union(a, x) == spec_lookup_union(b, x),
        forall|x: Rc<Ident>| #[trigger] spec_addressable_global(a, x) == spec_addressable_global(b, x),
        forall|x: Rc<Ident>| #[trigger] spec_is_known_type(a, x) == spec_is_known_type(b, x),
        spec_show_env(a) == spec_show_env(b),
{
    reveal(same_tables);
    reveal(spec_lookup_var);
    reveal(spec_lookup_global_var);
    reveal(spec_lookup_fn);
    reveal(spec_lookup_struct);
    reveal(spec_lookup_union);
    reveal(spec_addressable_global);
    reveal(spec_is_known_type);
    reveal(spec_show_env);
}

/// A copy of a scope is the scope.
proof fn lemma_clone_env(a: Env)
    ensures
        spec_clone_env(a) == a,
{
    reveal(spec_clone_env);
    reveal(spec_with_locals);
    reveal(spec_clone_opt_type);
}

/// Scopes that say the same do so with one more local name.
pub proof fn scope_push_var_decl(a: Env, b: Env, x: Rc<Ident>, ty: Rc<Type>, k: LocalDeclKind)
    requires
        same_scope(a, b),
    ensures
        same_scope(spec_push_var_decl(a, x, ty, k), spec_push_var_decl(b, x, ty, k)),
{
    reveal(spec_push_var_decl);
    scope_push_local(a, b, ident_text(x), ty, k);
}

/// Scopes that say the same do so with one more local name.
proof fn scope_push_local(a: Env, b: Env, x: Text, ty: Rc<Type>, k: LocalDeclKind)
    requires
        same_scope(a, b),
    ensures
        same_scope(spec_push_local(a, x, ty, k), spec_push_local(b, x, ty, k)),
{
    reveal(spec_push_local);
    reveal(spec_with_locals);
    reveal(spec_clone_opt_type);
    lemma_same_tables(a, b, spec_push_local(a, x, ty, k), spec_push_local(b, x, ty, k));
}

/// Scopes that say the same do so with `this`.
pub proof fn scope_push_this(a: Env, b: Env, ty: Rc<Type>)
    requires
        same_scope(a, b),
    ensures
        same_scope(spec_push_this(a, ty), spec_push_this(b, ty)),
{
    reveal(spec_push_this);
    scope_push_local(a, b, spec_lit("this"), ty, LocalDeclKind::RValue);
}

/// Scopes that say the same do so with a returned value.
pub proof fn scope_push_return(a: Env, b: Env, ty: Rc<Type>)
    requires
        same_scope(a, b),
    ensures
        same_scope(spec_push_return(a, ty), spec_push_return(b, ty)),
{
    reveal(spec_push_return);
    scope_push_local(a, b, spec_lit("return"), ty, LocalDeclKind::RValue);
}

/// Scopes that say the same do so with a parameter.
pub proof fn scope_push_arg(a: Env, b: Env, arg: Rc<FnArg>, k: LocalDeclKind)
    requires
        same_scope(a, b),
    ensures
        same_scope(spec_push_arg(a, arg, k), spec_push_arg(b, arg, k)),
{
    reveal(spec_push_arg);
    lemma_clone_env(a);
    lemma_clone_env(b);
    match arg_name(arg) {
        Some(n) => scope_push_var_decl(a, b, n, arg_type(arg), k),
        None => {},
    }
}

/// The name of a parameter.
pub open spec fn arg_name(a: Rc<FnArg>) -> Option<Rc<Ident>> {
    a.name
}

/// Scopes that say the same do so with parameters.
pub proof fn scope_push_args(a: Env, b: Env, l: Rc<List<FnArg>>, k: LocalDeclKind)
    requires
        same_scope(a, b),
    ensures
        same_scope(spec_push_args(a, l, k), spec_push_args(b, l, k)),
    decreases l,
{
    lemma_clone_env(a);
    lemma_clone_env(b);
    match *l {
        List::Nil => {},
        List::Cons(h, t) => {
            scope_push_arg(a, b, h, k);
            scope_push_args(spec_push_arg(a, h, k), spec_push_arg(b, h, k), t, k);
        },
    }
}

/// Scopes that say the same do so with ghost parameters.
pub proof fn scope_push_ghost_args(a: Env, b: Env, l: Rc<List<GhostArg>>)
    requires
        same_scope(a, b),
    ensures
        same_scope(spec_push_ghost_args(a, l), spec_push_ghost_args(b, l)),
    decreases l,
{
    lemma_clone_env(a);
    lemma_clone_env(b);
    match *l {
        List::Nil => {},
        List::Cons(h, t) => {
            let k = LocalDeclKind::RValue;
            scope_push_var_decl(a, b, ghost_name(h), ghost_type(h), k);
            scope_push_ghost_args(
                spec_push_var_decl(a, ghost_name(h), ghost_type(h), k),
                spec_push_var_decl(b, ghost_name(h), ghost_type(h), k),
                t,
            );
        },
    }
}

/// Scopes that say the same do so with the names that inline code declares.
proof fn scope_push_declared(a: Env, b: Env, l: Rc<List<InlinePulseToken>>)
    requires
        same_scope(a, b),
    ensures
        same_scope(spec_push_declared(a, l), spec_push_declared(b, l)),
    decreases l,
{
    lemma_clone_env(a);
    lemma_clone_env(b);
    match *l {
        List::Nil => {},
        List::Cons(h, t) => match *h {
            InlinePulseToken::Declare { ident, ty } => {
                let k = LocalDeclKind::RValue;
                scope_push_var_decl(a, b, ident, ty, k);
                scope_push_declared(spec_push_var_decl(a, ident, ty, k), spec_push_var_decl(b, ident, ty, k), t);
            },
            _ => scope_push_declared(a, b, t),
        },
    }
}

/// Scopes that say the same do so after a statement.
pub proof fn scope_push_stmt(a: Env, b: Env, s: Rc<Stmt>)
    requires
        same_scope(a, b),
    ensures
        same_scope(spec_push_stmt(a, s), spec_push_stmt(b, s)),
{
    reveal(spec_push_stmt);
    lemma_clone_env(a);
    lemma_clone_env(b);
    match s.val {
        StmtT::Decl(x, ty) => scope_push_var_decl(a, b, x, ty, LocalDeclKind::LValue),
        StmtT::Let(x, ty, _) => scope_push_var_decl(a, b, x, ty, LocalDeclKind::RValue),
        StmtT::DeclStackArray { name, elem_type, .. } => scope_push_var_decl(
            a,
            b,
            name,
            spec_mk_type(ident_loc(name), TypeT::Pointer(elem_type, PointerKind::Array)),
            LocalDeclKind::LValue,
        ),
        StmtT::GhostStmt(code) => scope_push_declared(a, b, code_tokens(code)),
        _ => {},
    }
}

/// The place of a name.
pub open spec fn ident_loc(n: Rc<Ident>) -> Loc {
    n.loc
}

/// Scopes that say the same do so inside of a loop.
pub proof fn scope_enter_loop(a: Env, b: Env)
    requires
        same_scope(a, b),
    ensures
        same_scope(spec_enter_loop(a), spec_enter_loop(b)),
{
    reveal(spec_enter_loop);
    lemma_clone_env(a);
    lemma_clone_env(b);
    lemma_same_tables(a, b, spec_enter_loop(a), spec_enter_loop(b));
}

/// Scopes that say the same do so inside of a function.
pub proof fn scope_push_fn_decl_args_for_body(a: Env, b: Env, d: Rc<FnDecl>)
    requires
        same_scope(a, b),
    ensures
        same_scope(spec_push_fn_decl_args_for_body(a, d), spec_push_fn_decl_args_for_body(b, d)),
{
    reveal(spec_push_fn_decl_args_for_body);
    reveal(spec_with_return_type);
    scope_push_ghost_args(a, b, fn_ghost_args(d));
    let a1 = spec_push_ghost_args(a, fn_ghost_args(d));
    let b1 = spec_push_ghost_args(b, fn_ghost_args(d));
    scope_push_args(a1, b1, fn_args(d), LocalDeclKind::LValue);
    let a2 = spec_push_args(a1, fn_args(d), LocalDeclKind::LValue);
    let b2 = spec_push_args(b1, fn_args(d), LocalDeclKind::LValue);
    lemma_clone_env(a2);
    lemma_clone_env(b2);
    lemma_same_tables(a2, b2, spec_push_fn_decl_args_for_body(a, d), spec_push_fn_decl_args_for_body(b, d));
}

/// Scopes that say the same do so with the other fields of a record.
proof fn scope_push_siblings(a: Env, b: Env, n: Rc<Ident>, l: Rc<List<Field>>)
    requires
        same_scope(a, b),
    ensures
        same_scope(spec_push_siblings(a, n, l), spec_push_siblings(b, n, l)),
    decreases l,
{
    lemma_clone_env(a);
    lemma_clone_env(b);
    match *l {
        List::Nil => {},
        List::Cons(f, t) => {
            scope_push_siblings(a, b, n, t);
            let k = LocalDeclKind::RValue;
            scope_push_var_decl(a, b, spec_field_name(f), spec_field_type(f), k);
            scope_push_siblings(
                spec_push_var_decl(a, spec_field_name(f), spec_field_type(f), k),
                spec_push_var_decl(b, spec_field_name(f), spec_field_type(f), k),
                n,
                t,
            );
        },
    }
}

/// Scopes that say the same do so for a field.
pub proof fn scope_field_env(a: Env, b: Env, f: Rc<Field>, l: Rc<List<Field>>)
    requires
        same_scope(a, b),
    ensures
        same_scope(spec_field_env(a, f, l), spec_field_env(b, f, l)),
{
    reveal(spec_field_env);
    lemma_clone_env(a);
    lemma_clone_env(b);
    scope_push_siblings(a, b, spec_field_name(f), l);
}

/// An expression has the same type in scopes that say the same.
proof fn lemma_same_type_of(a: Env, b: Env, e: Rc<Expr>)
    requires
        same_scope(a, b),
    ensures
        spec_infer_expr(a, e) == spec_infer_expr(b, e),
    decreases e,
{
    lemma_same_whnf(a, b);
    lemma_same_lookups(a, b);
    match e.val {
        ExprT::Deref(x) | ExprT::Index(x, _) => {
            reveal(spec_pointee);
            lemma_same_type_of(a, b, x);
        },
        ExprT::Member(x, _) => {
            reveal(spec_member_type);
            lemma_same_type_of(a, b, x);
        },
        ExprT::Ref(x) | ExprT::UnOp(_, x) | ExprT::AssignExpr(x, _) | ExprT::Cond(_, x, _) | ExprT::Old(x) => lemma_same_type_of(a, b, x),
        ExprT::PreIncr(x) | ExprT::PostIncr(x) | ExprT::PreDecr(x) | ExprT::PostDecr(x) => lemma_same_type_of(a, b, x),
        ExprT::FnPtrCall(x, _) => lemma_same_type_of(a, b, x),
        ExprT::BinOp(_, x, y) => {
            reveal(spec_binop_type);
            reveal(spec_array_elem);
            lemma_same_type_of(a, b, x);
            lemma_same_type_of(a, b, y);
        },
        ExprT::FnCall(f, _) => {
            reveal(spec_call_type);
        },
        ExprT::Forall(x, ty, y) | ExprT::Exists(x, ty, y) => {
            let k = LocalDeclKind::RValue;
            scope_push_var_decl(a, b, x, ty, k);
            lemma_same_type_of(spec_push_var_decl(a, x, ty, k), spec_push_var_decl(b, x, ty, k), y);
        },
        _ => {},
    }
}

/// An expression has no type for the same reason in scopes that say the same.
proof fn lemma_same_reason(a: Env, b: Env, e: Rc<Expr>)
    requires
        same_scope(a, b),
    ensures
        spec_infer_error(a, e) == spec_infer_error(b, e),
    decreases e,
{
    match e.val {
        ExprT::Deref(x) | ExprT::Index(x, _) | ExprT::Member(x, _) | ExprT::FnPtrCall(x, _) => {
            lemma_same_type_of(a, b, x);
            lemma_same_reason(a, b, x);
        },
        ExprT::Ref(x) | ExprT::UnOp(_, x) | ExprT::BinOp(_, x, _) | ExprT::AssignExpr(x, _) => lemma_same_reason(a, b, x),
        ExprT::Cond(_, x, _) | ExprT::Old(x) => lemma_same_reason(a, b, x),
        ExprT::PreIncr(x) | ExprT::PostIncr(x) | ExprT::PreDecr(x) | ExprT::PostDecr(x) => lemma_same_reason(a, b, x),
        ExprT::Forall(x, ty, y) | ExprT::Exists(x, ty, y) => {
            let k = LocalDeclKind::RValue;
            scope_push_var_decl(a, b, x, ty, k);
            lemma_same_reason(spec_push_var_decl(a, x, ty, k), spec_push_var_decl(b, x, ty, k), y);
        },
        _ => {},
    }
}

/// Expressions have the same types, or none for the same reason, in scopes that say the same.
pub proof fn lemma_same_types_of(a: Env, b: Env)
    requires
        same_scope(a, b),
    ensures
        forall|e: Rc<Expr>| #[trigger] spec_infer_expr(a, e) == spec_infer_expr(b, e),
        forall|e: Rc<Expr>| #[trigger] spec_infer_error(a, e) == spec_infer_error(b, e),
{
    assert forall|e: Rc<Expr>| #[trigger] spec_infer_expr(a, e) == spec_infer_expr(b, e) by {
        lemma_same_type_of(a, b, e);
    }
    assert forall|e: Rc<Expr>| #[trigger] spec_infer_error(a, e) == spec_infer_error(b, e) by {
        lemma_same_reason(a, b, e);
    }
}

/// An expression is a place in scopes that say the same.
proof fn lemma_same_lvalue(a: Env, b: Env, e: Rc<Expr>)
    requires
        same_scope(a, b),
    ensures
        spec_is_lvalue(a, e) == spec_is_lvalue(b, e),
    decreases e,
{
    lemma_same_lookups(a, b);
    match e.val {
        ExprT::Member(x, _) => lemma_same_lvalue(a, b, x),
        _ => {},
    }
}

/// The same expressions are places in scopes that say the same.
pub proof fn lemma_same_places(a: Env, b: Env)
    requires
        same_scope(a, b),
    ensures
        forall|e: Rc<Expr>| #[trigger] spec_is_lvalue(a, e) == spec_is_lvalue(b, e),
        forall|e: Rc<Expr>| #[trigger] spec_is_addressable(a, e) == spec_is_addressable(b, e),
{
    assert forall|e: Rc<Expr>| #[trigger] spec_is_lvalue(a, e) == spec_is_lvalue(b, e) by {
        lemma_same_lvalue(a, b, e);
    }
    lemma_same_lookups(a, b);
    reveal(spec_is_addressable);
}

/// Types are fit for the same in scopes that say the same.
pub proof fn lemma_same_fitness(a: Env, b: Env)
    requires
        same_scope(a, b),
    ensures
        forall|ty: Rc<Type>| #[trigger] spec_is_valid_int_type(a, ty) == spec_is_valid_int_type(b, ty),
        forall|ty: Rc<Type>| #[trigger] spec_is_valid_float_type(a, ty) == spec_is_valid_float_type(b, ty),
        forall|ty: Rc<Type>| #[trigger] spec_is_pointer_type(a, ty) == spec_is_pointer_type(b, ty),
        forall|ty: Rc<Type>| #[trigger] spec_is_indexable(a, ty) == spec_is_indexable(b, ty),
        forall|ty: Rc<Type>| #[trigger] spec_is_index_type(a, ty) == spec_is_index_type(b, ty),
        forall|ty: Rc<Type>| #[trigger] spec_is_not_type(a, ty) == spec_is_not_type(b, ty),
        forall|ty: Rc<Type>| #[trigger] spec_is_logical_type(a, ty) == spec_is_logical_type(b, ty),
        forall|op: BinOp, x: Rc<Type>, y: Rc<Type>| #[trigger] spec_is_pointer_arithmetic(a, op, x, y) == spec_is_pointer_arithmetic(b, op, x, y),
{
    lemma_same_whnf(a, b);
    reveal(spec_is_valid_int_type);
    reveal(spec_is_valid_float_type);
    reveal(spec_is_pointer_type);
    reveal(spec_is_indexable);
    reveal(spec_is_index_type);
    reveal(spec_is_not_type);
    reveal(spec_is_logical_type);
    reveal(spec_is_pointer_arithmetic);
    reveal(spec_array_elem);
}

} // verus!
