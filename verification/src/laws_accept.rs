//! What a check accepts: that it is silent exactly where names are declared and types agree; and what a report of assumptions
//! says.

use crate::list::{List, spec_list_is_empty, spec_list_len};
use crate::text::{
    Rope, Text, chars_less, nat_chars, spec_cat, spec_cat3, spec_cat4, spec_lit, spec_num,
    spec_text_starts_with, stripped_path,
};
use crate::ir::{
    BinOp, Branch, Decl, DeclT, Expr, ExprT, Field, FieldInit, FnArg, FnDecl, FnDefn, GhostArg,
    GlobalVar, Ident, InlinePulseToken, LetDecl, Loc, OpaqueTypeDecl, PointerKind, Stmt, StmtT,
    StructDefn, Type, TypeRefKind, TypeT, UnOp, UnionDefn, VAttr, spec_field_type,
    spec_find_field, spec_mk_type,
};
use crate::env::{
    Env, LocalDeclKind, spec_array_elem, spec_contains_error, spec_enter_loop, spec_infer_expr,
    spec_is_addressable, spec_is_known_type, spec_is_lvalue, spec_lookup_fn,
    spec_lookup_global_var, spec_lookup_struct, spec_lookup_union, spec_lookup_var, spec_plus,
    spec_push_arg, spec_push_args, spec_push_fn_decl_args_for_body, spec_push_ghost_args,
    spec_push_return, spec_push_stmt, spec_push_this, spec_push_var_decl, spec_vtype_eq,
    spec_vtype_whnf,
};
use crate::names::TypeRef;
use crate::report::{
    AssumedFn, OpaqueType, spec_assumed_fn, spec_calls_in_decl, spec_calls_in_decls,
    spec_calls_in_stmts, spec_comes_before, spec_fmt_loc, spec_fns_with, spec_opaque_types,
    spec_row_fn, spec_row_type, spec_summary_fn, spec_summary_type,
};
use crate::merge::Match;
use crate::check::{
    Checker, is_inferred, spec_check_arg_types, spec_check_args, spec_check_block_stmt,
    spec_check_bool, spec_check_bools, spec_check_branch, spec_check_branches, spec_check_call,
    spec_check_compound, spec_check_container, spec_check_decl, spec_check_deref,
    spec_check_fields, spec_check_fn_decl, spec_check_ghost_args, spec_check_has_type,
    spec_check_index_types, spec_check_init, spec_check_inits, spec_check_lvalue,
    spec_check_member_of, spec_check_mixed, spec_check_node, spec_check_operand_types,
    spec_check_operands_agree, spec_check_param_types, spec_check_patterns, spec_check_rvalue,
    spec_check_rvalues, spec_check_same_type, spec_check_slprop, spec_check_slprops,
    spec_check_stmt, spec_check_stmts, spec_check_struct_init, spec_check_token,
    spec_check_tokens, spec_check_type, spec_check_type_eq, spec_check_type_ref, spec_check_typed,
    spec_check_types_of, spec_check_union_init, spec_check_unop, spec_check_var, spec_field_env,
    spec_is_index_type, spec_is_indexable, spec_is_logical_type, spec_is_not_type,
    spec_is_pointer_arithmetic, spec_is_pointer_type, spec_is_valid_float_type,
    spec_is_valid_int_type,
};
use crate::laws_goto::{branch_body, ident_text};
use crate::laws_rename::{code_tokens, init_value};
use crate::laws_types::typedef_body;
use crate::laws_syntax::{fn_args, fn_ensures, fn_ghost_args, fn_requires};
use crate::laws_passes::fn_body;
use crate::laws_twice::defn_signature;
use crate::laws_check::{
    arg_type, branch_patterns, fn_measure, fn_result, ghost_name, ghost_type, loc_of,
    opaque_tokens, struct_fields, struct_refinement, union_fields,
};
use crate::laws_parts::{calls_of, counted, law_calls_in_clauses_are_counted};
use crate::laws_written::type_loc;
use crate::laws_defined::has_contract;
use crate::laws_typing::{
    law_integer_types_are_told_apart, law_simple_types_are_equal_iff_they_agree,
};
use std::rc::Rc;
use vstd::prelude::*;

verus! {

/// How many messages a check holds.
#[verifier::opaque]
pub open spec fn message_count(s: Checker) -> nat {
    s.diags.items().len()
}

/// Whether a step of a check leaves the messages as they are if something holds, and adds to them
/// otherwise.
pub open spec fn silent_iff(s: Checker, t: Checker, holds: bool) -> bool {
    &&& t.pass == s.pass
    &&& t.check_types == s.check_types
    &&& holds ==> t == s
    &&& !holds ==> message_count(t) > message_count(s)
}

/// Whether the shape of an expression's type is one of those that a place allows. Where there is no
/// type because of an error that was reported already, there is nothing more to ask.
pub open spec fn shape_fits(env: Env, e: Rc<Expr>, allowed: spec_fn(TypeT) -> bool) -> bool {
    match spec_infer_expr(env, e) {
        Some(t) => allowed(spec_vtype_whnf(env, t).val),
        None => spec_contains_error(e),
    }
}

/// Whether an expression has a type with the values of the given one.
pub open spec fn is_typed(typed: bool, env: Env, e: Rc<Expr>, ty: Rc<Type>) -> bool {
    typed && !spec_contains_error(e) ==> (spec_infer_expr(env, e) matches Some(t) && spec_vtype_eq(env, t, ty))
}

/// Whether two types have the same values, or one of them is the residue of an error.
pub open spec fn types_agree(env: Env, a: Rc<Type>, b: Rc<Type>) -> bool {
    a.val is Error || b.val is Error || spec_vtype_eq(env, a, b)
}

/// Whether two expressions have types with the same values.
pub open spec fn values_agree(typed: bool, env: Env, e: Rc<Expr>, x: Rc<Expr>) -> bool {
    typed ==> {
        &&& is_inferred(env, e)
        &&& is_inferred(env, x)
        &&& match (spec_infer_expr(env, e), spec_infer_expr(env, x)) {
            (Some(a), Some(b)) => types_agree(env, a, b),
            _ => true,
        }
    }
}

/// Whether a type is that of truth values, of propositions, or the residue of an error.
pub open spec fn is_logical_shape(x: TypeT) -> bool {
    x is Bool || x is SLProp || x is Error
}

/// Whether a shape is a pointer into an array.
pub open spec fn is_array_shape(x: TypeT) -> bool {
    x matches TypeT::Pointer(_, k) && (k == PointerKind::Array || k == PointerKind::ArrayPtr)
}

/// Whether operands of two types can have an operator between them.
pub open spec fn operands_fit(env: Env, op: BinOp, a: Rc<Type>, b: Rc<Type>) -> bool {
    match op {
        BinOp::LogAnd | BinOp::LogOr | BinOp::Implies => spec_vtype_eq(env, a, b) && is_logical_shape(spec_vtype_whnf(env, a).val),
        BinOp::Shl | BinOp::Shr => spec_vtype_whnf(env, b).val == (TypeT::Int { signed: false, width: 32 }),
        BinOp::Add | BinOp::Sub => is_array_shape(spec_vtype_whnf(env, a).val) || is_array_shape(spec_vtype_whnf(env, b).val) || spec_vtype_eq(env, a, b),
        _ => spec_vtype_eq(env, a, b),
    }
}

/// The fields of the record that a shape names.
pub open spec fn fields_of_shape(env: Env, x: TypeT) -> Option<Rc<List<Field>>> {
    match x {
        TypeT::TypeRef(TypeRefKind::Struct(n)) => match spec_lookup_struct(env, n) {
            Some(d) => Some(d.fields),
            None => None,
        },
        TypeT::TypeRef(TypeRefKind::Union(n)) => match spec_lookup_union(env, n) {
            Some(d) => Some(d.fields),
            None => None,
        },
        _ => None,
    }
}

/// Whether a shape is a struct.
pub open spec fn is_struct_shape(x: TypeT) -> bool {
    x matches TypeT::TypeRef(TypeRefKind::Struct(_))
}

/// Whether a shape is a record with the field.
pub open spec fn has_field(env: Env, x: TypeT, a: Rc<Ident>) -> bool {
    fields_of_shape(env, x) matches Some(fields) && spec_find_field(fields, a) is Some
}

/// Whether an integer literal can have the shape.
pub open spec fn holds_integers(x: TypeT) -> bool {
    !(x is Void || x is FixedArray || x is FlexArray || x is TypeRef || x is Refine || x is RefineAlways || x is RefineUninit || x is RefineValue || x is Plain
        || x is Nullable)
}

/// Whether a type that is named is declared.
pub open spec fn is_declared(env: Env, k: TypeRefKind) -> bool {
    match k {
        TypeRefKind::Typedef(n) => spec_is_known_type(env, n),
        TypeRefKind::Struct(n) => spec_lookup_struct(env, n) is Some,
        TypeRefKind::Union(n) => spec_lookup_union(env, n) is Some,
    }
}

/// Whether the arguments have the types of the parameters, as far as there are both.
pub open spec fn arguments_typed(typed: bool, env: Env, params: Rc<List<FnArg>>, args: Rc<List<Expr>>) -> bool
    decreases args,
{
    match (*params, *args) {
        (List::Cons(p, s), List::Cons(a, t)) => is_typed(typed, env, a, p.ty) && arguments_typed(typed, env, s, t),
        _ => true,
    }
}

/// Whether a function is declared and called with as many arguments as it has parameters, of their
/// types.
pub open spec fn call_fits(typed: bool, env: Env, f: Rc<Ident>, args: Rc<List<Expr>>) -> bool {
    spec_lookup_fn(env, f) matches Some(d) && spec_list_len(d.args) == spec_list_len(args) && arguments_typed(typed, env, d.args, args)
}

/// Whether everything that a type names is declared, and its refinements are propositions.
pub open spec fn type_ok(typed: bool, env: Env, ty: Rc<Type>) -> bool
    decreases ty, 0nat,
{
    match ty.val {
        TypeT::Pointer(t, _) | TypeT::FixedArray(t, _) | TypeT::FlexArray(t) => type_ok(typed, env, t),
        TypeT::Plain(t) | TypeT::Nullable(t) => type_ok(typed, env, t),
        TypeT::FnPtr { args, ret } => types_ok(typed, env, args) && type_ok(typed, env, ret),
        TypeT::TypeRef(k) => is_declared(env, k),
        TypeT::Refine(t, p) | TypeT::RefineAlways(t, p) | TypeT::RefineUninit(t, p) => type_ok(typed, env, t) && clause_ok(typed, spec_push_this(env, t), p),
        TypeT::RefineValue(t, x, u, p) => {
            &&& type_ok(typed, env, t)
            &&& type_ok(typed, env, u)
            &&& clause_ok(typed, spec_push_var_decl(spec_push_this(env, t), x, u, LocalDeclKind::RValue), p)
        },
        _ => true,
    }
}

/// The same for types.
pub open spec fn types_ok(typed: bool, env: Env, l: Rc<List<Type>>) -> bool
    decreases l, 0nat,
{
    match *l {
        List::Nil => true,
        List::Cons(h, t) => type_ok(typed, env, h) && types_ok(typed, env, t),
    }
}

/// Whether an expression is a proposition.
pub open spec fn clause_ok(typed: bool, env: Env, p: Rc<Expr>) -> bool
    decreases p, 9nat,
{
    value_ok(typed, env, p) && is_typed(typed, env, p, spec_mk_type(p.loc, TypeT::SLProp))
}

/// Whether an expression is a condition.
pub open spec fn condition_ok(typed: bool, env: Env, p: Rc<Expr>) -> bool
    decreases p, 9nat,
{
    value_ok(typed, env, p) && is_typed(typed, env, p, spec_mk_type(p.loc, TypeT::Bool))
}

/// Whether an expression is a place that can be written to.
pub open spec fn place_ok(typed: bool, env: Env, e: Rc<Expr>) -> bool
    decreases e, 9nat,
{
    spec_contains_error(e) || value_ok(typed, env, e) && spec_is_lvalue(env, e)
}

/// Whether an expression is well formed. What holds the residue of an error is not looked at again.
pub open spec fn value_ok(typed: bool, env: Env, e: Rc<Expr>) -> bool
    decreases e, 8nat,
{
    spec_contains_error(e) || node_ok(typed, env, e)
}

/// The same for expressions.
pub open spec fn values_ok(typed: bool, env: Env, l: Rc<List<Expr>>) -> bool
    decreases l, 0nat,
{
    match *l {
        List::Nil => true,
        List::Cons(h, t) => value_ok(typed, env, h) && values_ok(typed, env, t),
    }
}

/// The rules of expressions: names are declared, records have the fields that are selected, places
/// are places, and, where types are checked, operands and arguments have the types that they need.
pub open spec fn node_ok(typed: bool, env: Env, e: Rc<Expr>) -> bool
    decreases e, 7nat,
{
    match e.val {
        ExprT::BoolLit(_) => true,
        ExprT::Var(n) => spec_lookup_var(env, n) is Some || spec_lookup_global_var(env, n) is Some,
        ExprT::FnRef(f) => spec_lookup_fn(env, f) is Some,
        ExprT::VAttr(_, a) | ExprT::Live(a) | ExprT::Old(a) | ExprT::Free(a) => value_ok(typed, env, a),
        ExprT::PreIncr(a) | ExprT::PostIncr(a) | ExprT::PreDecr(a) | ExprT::PostDecr(a) => place_ok(typed, env, a),
        ExprT::Deref(a) => value_ok(typed, env, a) && (typed ==> shape_fits(env, a, |x: TypeT| x is Pointer || x is Error)),
        ExprT::Member(x, a) => value_ok(typed, env, x) && (typed ==> shape_fits(env, x, |s: TypeT| has_field(env, s, a))),
        ExprT::Ref(a) => value_ok(typed, env, a) && spec_is_addressable(env, a),
        ExprT::UnOp(op, a) => value_ok(typed, env, a) && (typed ==> shape_fits(env, a, |x: TypeT| op is Not ==> x is Bool || x is Error)),
        _ => compound_ok(typed, env, e),
    }
}

/// The rules of expressions with several operands.
pub open spec fn compound_ok(typed: bool, env: Env, e: Rc<Expr>) -> bool
    decreases e, 6nat,
{
    match e.val {
        ExprT::Index(arr, idx) => {
            &&& value_ok(typed, env, arr)
            &&& value_ok(typed, env, idx)
            &&& typed ==> shape_fits(env, arr, |x: TypeT| is_array_shape(x) || x is FixedArray || x is FlexArray || x is Error)
            &&& typed ==> shape_fits(env, idx, |x: TypeT| x is SizeT || x is Error)
        },
        ExprT::BinOp(op, a, b) => {
            &&& value_ok(typed, env, a)
            &&& value_ok(typed, env, b)
            &&& typed ==> is_inferred(env, a) && is_inferred(env, b) && (match (spec_infer_expr(env, a), spec_infer_expr(env, b)) {
                (Some(s), Some(t)) => operands_fit(env, op, s, t),
                _ => true,
            })
        },
        ExprT::AssignExpr(a, b) => value_ok(typed, env, a) && value_ok(typed, env, b) && values_agree(typed, env, b, a),
        ExprT::Cond(a, b, c) => value_ok(typed, env, a) && value_ok(typed, env, b) && value_ok(typed, env, c),
        ExprT::FnCall(f, args) => values_ok(typed, env, args) && call_fits(typed, env, f, args),
        ExprT::FnPtrCall(f, args) => value_ok(typed, env, f) && values_ok(typed, env, args),
        _ => typed_ok(typed, env, e),
    }
}

/// The rules of expressions with a type.
pub open spec fn typed_ok(typed: bool, env: Env, e: Rc<Expr>) -> bool
    decreases e, 5nat,
{
    match e.val {
        ExprT::IntLit(_, ty) => type_ok(typed, env, ty) && (typed ==> holds_integers(spec_vtype_whnf(env, ty).val)),
        ExprT::FloatLit(_, ty) => type_ok(typed, env, ty) && (typed ==> spec_vtype_whnf(env, ty).val is Float || spec_vtype_whnf(env, ty).val is Error),
        ExprT::Malloc(ty) | ExprT::Calloc(ty) | ExprT::SizeOf(ty) | ExprT::AlignOf(ty) | ExprT::Error(ty) => type_ok(typed, env, ty),
        ExprT::Cast(a, ty) => value_ok(typed, env, a) && type_ok(typed, env, ty),
        ExprT::MallocArray(ty, n) | ExprT::CallocArray(ty, n) | ExprT::MallocFlex(ty, n) | ExprT::CallocFlex(ty, n) | ExprT::MemsetZero(ty, n) => type_ok(
            typed,
            env,
            ty,
        ) && value_ok(typed, env, n),
        ExprT::Forall(x, ty, body) | ExprT::Exists(x, ty, body) => type_ok(typed, env, ty) && value_ok(
            typed,
            spec_push_var_decl(env, x, ty, LocalDeclKind::RValue),
            body,
        ),
        _ => mixed_ok(typed, env, e),
    }
}

/// The rules of initializers, accesses to memory and inline code.
pub open spec fn mixed_ok(typed: bool, env: Env, e: Rc<Expr>) -> bool
    decreases e, 4nat,
{
    match e.val {
        ExprT::Memset(ty, p, v, n) => type_ok(typed, env, ty) && value_ok(typed, env, p) && value_ok(typed, env, v) && value_ok(typed, env, n),
        ExprT::ContainerOf(p, ty, field) => {
            &&& value_ok(typed, env, p)
            &&& type_ok(typed, env, ty)
            &&& typed ==> is_struct_shape(spec_vtype_whnf(env, ty).val) && has_field(env, spec_vtype_whnf(env, ty).val, field)
        },
        ExprT::InlinePulse(code, ty) => type_ok(typed, env, ty) && tokens_ok(typed, env, code.tokens),
        ExprT::ArrayInit { elem_ty, elems, is_static: _ } => type_ok(typed, env, elem_ty) && values_ok(typed, env, elems),
        ExprT::StructInit(name, inits) => match spec_lookup_struct(env, name) {
            Some(s) => typed ==> spec_list_len(inits) <= spec_list_len(s.fields) && inits_ok(typed, env, s, inits),
            None => false,
        },
        ExprT::UnionInit(name, fld, v) => match spec_lookup_union(env, name) {
            Some(u) => typed ==> value_ok(typed, env, v) && (spec_find_field(u.fields, fld) matches Some(f) && is_typed(typed, env, v, spec_field_type(f))),
            None => false,
        },
        _ => true,
    }
}

/// Whether a field is given a value of its type.
pub open spec fn init_ok(typed: bool, env: Env, s: Rc<StructDefn>, i: Rc<FieldInit>) -> bool
    decreases i, 0nat,
{
    value_ok(typed, env, i.value) && (spec_find_field(s.fields, i.name) matches Some(f) && is_typed(typed, env, i.value, spec_field_type(f)))
}

/// The same for fields.
pub open spec fn inits_ok(typed: bool, env: Env, s: Rc<StructDefn>, l: Rc<List<FieldInit>>) -> bool
    decreases l, 0nat,
{
    match *l {
        List::Nil => true,
        List::Cons(h, t) => init_ok(typed, env, s, h) && inits_ok(typed, env, s, t),
    }
}

/// Whether a token of inline code is well formed.
pub open spec fn token_ok(typed: bool, env: Env, tok: Rc<InlinePulseToken>) -> bool
    decreases tok, 0nat,
{
    match *tok {
        InlinePulseToken::RValueAntiquot { before: _, expr } => value_ok(typed, env, expr),
        InlinePulseToken::LValueAntiquot { before: _, expr } => value_ok(typed, env, expr),
        InlinePulseToken::TypeAntiquot { before: _, ty } => type_ok(typed, env, ty),
        InlinePulseToken::Declare { ident: _, ty } => type_ok(typed, env, ty),
        _ => true,
    }
}

/// The same for inline code, where a declared name is in scope from there on.
pub open spec fn tokens_ok(typed: bool, env: Env, l: Rc<List<InlinePulseToken>>) -> bool
    decreases l, 0nat,
{
    match *l {
        List::Nil => true,
        List::Cons(h, t) => token_ok(typed, env, h) && (match *h {
            InlinePulseToken::Declare { ident, ty } => tokens_ok(typed, spec_push_var_decl(env, ident, ty, LocalDeclKind::RValue), t),
            _ => tokens_ok(typed, env, t),
        }),
    }
}

/// Whether clauses are propositions.
pub open spec fn clauses_ok(typed: bool, env: Env, l: Rc<List<Expr>>) -> bool
    decreases l,
{
    match *l {
        List::Nil => true,
        List::Cons(h, t) => clause_ok(typed, env, h) && clauses_ok(typed, env, t),
    }
}

/// Whether expressions are conditions.
pub open spec fn conditions_ok(typed: bool, env: Env, l: Rc<List<Expr>>) -> bool
    decreases l,
{
    match *l {
        List::Nil => true,
        List::Cons(h, t) => condition_ok(typed, env, h) && conditions_ok(typed, env, t),
    }
}

/// Whether patterns have the type of what they are matched with.
pub open spec fn patterns_ok(typed: bool, env: Env, subject: Option<Rc<Type>>, l: Rc<List<Expr>>) -> bool
    decreases l,
{
    match *l {
        List::Nil => true,
        List::Cons(h, t) => {
            &&& value_ok(typed, env, h)
            &&& typed ==> is_inferred(env, h) && (match (subject, spec_infer_expr(env, h)) {
                (Some(s), Some(p)) => types_agree(env, p, s),
                _ => true,
            })
            &&& patterns_ok(typed, env, subject, t)
        },
    }
}

/// Whether a branch is well formed.
pub open spec fn branch_ok(typed: bool, env: Env, subject: Option<Rc<Type>>, b: Rc<Branch>) -> bool
    decreases b, 0nat,
{
    patterns_ok(typed, env, subject, b.patterns) && stmts_ok(typed, env, b.body)
}

/// The same for branches.
pub open spec fn branches_ok(typed: bool, env: Env, subject: Option<Rc<Type>>, l: Rc<List<Branch>>) -> bool
    decreases l, 0nat,
{
    match *l {
        List::Nil => true,
        List::Cons(h, t) => branch_ok(typed, env, subject, h) && branches_ok(typed, env, subject, t),
    }
}

/// The rules of statements: jumps out of loops stand in loops, values that are stored, defined or
/// returned have the types that they need, and every clause is a proposition.
pub open spec fn stmt_ok(typed: bool, env: Env, s: Rc<Stmt>) -> bool
    decreases s, 2nat,
{
    match s.val {
        StmtT::Call(e) => value_ok(typed, env, e),
        StmtT::Decl(_, ty) => type_ok(typed, env, ty),
        StmtT::Let(_, ty, value) => {
            &&& type_ok(typed, env, ty)
            &&& value_ok(typed, env, value)
            &&& typed ==> is_inferred(env, value) && (spec_infer_expr(env, value) matches Some(t) ==> types_agree(env, t, ty))
        },
        StmtT::DeclStackArray { name: _, elem_type, size } => type_ok(typed, env, elem_type) && value_ok(typed, env, size),
        StmtT::Assign(x, v) => place_ok(typed, env, x) && value_ok(typed, env, v) && values_agree(typed, env, v, x),
        StmtT::Break => env.in_loop,
        StmtT::Continue => env.in_loop,
        StmtT::Return(Some(v)) => value_ok(typed, env, v) && (env.return_type matches Some(t) ==> is_typed(typed, env, v, t)),
        StmtT::Return(None) => true,
        StmtT::Assert(v) => clause_ok(typed, env, v),
        StmtT::GhostStmt(code) => tokens_ok(typed, env, code.tokens),
        StmtT::Goto(_) => true,
        StmtT::Label { name: _, ensures_ } => clauses_ok(typed, env, ensures_),
        StmtT::Error => true,
        StmtT::If { cond, then_branch, else_branch, ensures_ } => {
            &&& condition_ok(typed, env, cond)
            &&& clauses_ok(typed, env, ensures_)
            &&& stmts_ok(typed, env, then_branch)
            &&& stmts_ok(typed, env, else_branch)
        },
        StmtT::Match { scrutinee, branches, default_branch, ensures_ } => {
            &&& value_ok(typed, env, scrutinee)
            &&& is_inferred(env, scrutinee)
            &&& branches_ok(typed, env, spec_infer_expr(env, scrutinee), branches)
            &&& stmts_ok(typed, env, default_branch)
            &&& clauses_ok(typed, env, ensures_)
        },
        StmtT::While { cond, inv, requires_, ensures_, body } => {
            &&& condition_ok(typed, env, cond)
            &&& clauses_ok(typed, env, inv)
            &&& conditions_ok(typed, env, requires_)
            &&& conditions_ok(typed, env, ensures_)
            &&& stmts_ok(typed, spec_enter_loop(env), body)
        },
        StmtT::GotoBlock { body, label: _, ensures_ } => stmts_ok(typed, env, body) && clauses_ok(typed, env, ensures_),
    }
}

/// The same for statements, each in the scope that those before it leave.
pub open spec fn stmts_ok(typed: bool, env: Env, l: Rc<List<Stmt>>) -> bool
    decreases l, 3nat,
{
    match *l {
        List::Nil => true,
        List::Cons(h, t) => stmt_ok(typed, env, h) && stmts_ok(typed, spec_push_stmt(env, h), t),
    }
}

/// A report adds a message.
proof fn fact_report(s: Checker, msg: Text, loc: Loc)
    ensures
        silent_iff(s, crate::check::spec_report(s, msg, loc), false),
{
    reveal(message_count);
    reveal(crate::check::spec_report);
    reveal(crate::check::spec_report_with_detail);
}

/// Every report adds a message.
proof fn fact_reports()
    ensures
        forall|s: Checker, msg: Text, loc: Loc| silent_iff(s, #[trigger] crate::check::spec_report(s, msg, loc), false),
{
    assert forall|s: Checker, msg: Text, loc: Loc| silent_iff(s, #[trigger] crate::check::spec_report(s, msg, loc), false) by {
        fact_report(s, msg, loc);
    }
}

/// That an expression has no type is reported.
proof fn fact_infer(s: Checker, env: Env, e: Rc<Expr>)
    ensures
        silent_iff(s, crate::check::spec_infer_or_report(s, env, e).0, is_inferred(env, e)),
        crate::check::spec_infer_or_report(s, env, e).1 == spec_infer_expr(env, e),
{
    reveal(message_count);
    reveal(crate::check::spec_infer_or_report);
    reveal(crate::check::spec_report_with_detail);
}

/// Types that do not agree are reported.
proof fn fact_type_eq(s: Checker, env: Env, a: Rc<Type>, b: Rc<Type>)
    ensures
        silent_iff(s, spec_check_type_eq(s, env, a, b), s.check_types ==> types_agree(env, a, b)),
{
    reveal(spec_check_type_eq);
    fact_reports();
}

/// An expression of another type is reported.
proof fn fact_has_type(s: Checker, env: Env, e: Rc<Expr>, ty: Rc<Type>)
    ensures
        silent_iff(s, spec_check_has_type(s, env, e, ty), is_typed(s.check_types, env, e, ty)),
{
    reveal(spec_check_has_type);
    fact_reports();
    fact_infer(s, env, e);
}

/// Expressions of different types are reported.
proof fn fact_same_type(s: Checker, env: Env, e: Rc<Expr>, x: Rc<Expr>)
    ensures
        silent_iff(s, spec_check_same_type(s, env, e, x), values_agree(s.check_types, env, e, x)),
{
    reveal(spec_check_same_type);
    fact_infer(s, env, x);
    let s1 = crate::check::spec_infer_or_report(s, env, x).0;
    fact_infer(s1, env, e);
    let s2 = crate::check::spec_infer_or_report(s1, env, e).0;
    match spec_infer_expr(env, x) {
        Some(a) => match spec_infer_expr(env, e) {
            Some(b) => fact_type_eq(s2, env, b, a),
            None => {},
        },
        None => {},
    }
}

/// A missing field is reported.
proof fn fact_member(s: Checker, env: Env, t: Rc<Type>, a: Rc<Ident>, loc: Loc)
    ensures
        silent_iff(s, spec_check_member_of(s, env, t, a, loc), has_field(env, spec_vtype_whnf(env, t).val, a)),
{
    reveal(spec_check_member_of);
    fact_reports();
}

/// A container that is no struct with the field is reported.
proof fn fact_container(s: Checker, env: Env, t: Rc<Type>, a: Rc<Ident>, loc: Loc)
    ensures
        silent_iff(s, spec_check_container(s, env, t, a, loc), is_struct_shape(spec_vtype_whnf(env, t).val) && has_field(env, spec_vtype_whnf(env, t).val, a)),
{
    reveal(spec_check_container);
    fact_reports();
}

/// Operands that an operator cannot stand between are reported.
proof fn fact_operands(s: Checker, env: Env, op: BinOp, a: Rc<Type>, b: Rc<Type>, loc: Loc)
    ensures
        silent_iff(s, spec_check_operand_types(s, env, op, a, b, loc), operands_fit(env, op, a, b)),
{
    reveal(spec_check_operand_types);
    reveal(spec_check_operands_agree);
    reveal(spec_is_logical_type);
    reveal(spec_is_pointer_arithmetic);
    reveal(spec_array_elem);
    reveal(spec_mk_type);
    reveal(spec_vtype_whnf);
    fact_reports();
    let amount = spec_mk_type(type_loc(b), TypeT::Int { signed: false, width: 32 });
    assert(spec_vtype_whnf(env, amount).val == (TypeT::Int { signed: false, width: 32 }));
    crate::laws_types::law_type_equality_is_symmetric(env, b, amount);
    law_simple_types_are_equal_iff_they_agree(env, amount, b);
}

/// What cannot be indexed, or is no index, is reported.
proof fn fact_index(s: Checker, env: Env, arr: Rc<Expr>, idx: Rc<Expr>, loc: Loc)
    ensures
        silent_iff(s, spec_check_index_types(s, env, arr, idx, loc), shape_fits(env, arr, |x: TypeT| is_array_shape(x) || x is FixedArray || x is FlexArray || x is Error) && shape_fits(env, idx, |x: TypeT| x is SizeT || x is Error)),
{
    reveal(spec_check_index_types);
    reveal(spec_is_indexable);
    reveal(spec_is_index_type);
    fact_reports();
    fact_infer(s, env, arr);
    assert forall|t: Checker| silent_iff(t, (#[trigger] crate::check::spec_infer_or_report(t, env, idx)).0, is_inferred(env, idx)) && crate::check::spec_infer_or_report(
        t,
        env,
        idx,
    ).1 == spec_infer_expr(env, idx) by {
        fact_infer(t, env, idx);
    }
}

/// Arguments of other types are reported.
proof fn fact_args(s: Checker, env: Env, params: Rc<List<FnArg>>, args: Rc<List<Expr>>)
    ensures
        silent_iff(s, spec_check_arg_types(s, env, params, args), arguments_typed(s.check_types, env, params, args)),
    decreases args,
{
    match *params {
        List::Cons(p, ps) => match *args {
            List::Cons(a, t) => {
                let ty = arg_type(p);
                fact_has_type(s, env, a, ty);
                fact_args(spec_check_has_type(s, env, a, ty), env, ps, t);
            },
            List::Nil => {},
        },
        List::Nil => {},
    }
}

/// A call that does not fit is reported.
proof fn fact_call(s: Checker, env: Env, f: Rc<Ident>, args: Rc<List<Expr>>, loc: Loc)
    ensures
        silent_iff(s, spec_check_call(s, env, f, args, loc), call_fits(s.check_types, env, f, args)),
{
    reveal(spec_check_call);
    fact_reports();
    match spec_lookup_fn(env, f) {
        Some(d) => {
            let s1 = spec_check_arg_types(s, env, fn_args(d), args);
            fact_args(s, env, fn_args(d), args);
            assert forall|t: Checker| silent_iff(t, #[trigger] spec_check_arg_types(t, env, fn_args(d), args), arguments_typed(t.check_types, env, fn_args(d), args)) by {
                fact_args(t, env, fn_args(d), args);
            }
        },
        None => {},
    }
}

/// A type that is not declared is reported.
proof fn fact_type_ref(s: Checker, env: Env, k: TypeRefKind, loc: Loc)
    ensures
        silent_iff(s, spec_check_type_ref(s, env, k, loc), is_declared(env, k)),
{
    reveal(spec_check_type_ref);
    fact_reports();
}

/// A check of a type is silent exactly if the type is well formed.
proof fn accepts_type(s: Checker, env: Env, ty: Rc<Type>)
    ensures
        silent_iff(s, spec_check_type(s, env, ty), type_ok(s.check_types, env, ty)),
    decreases ty, 0nat,
{
    match ty.val {
        TypeT::Pointer(t, _) | TypeT::FixedArray(t, _) | TypeT::FlexArray(t) => accepts_type(s, env, t),
        TypeT::Plain(t) | TypeT::Nullable(t) => accepts_type(s, env, t),
        TypeT::FnPtr { args, ret } => {
            accepts_types(s, env, args);
            accepts_type(spec_check_types_of(s, env, args), env, ret);
        },
        TypeT::TypeRef(k) => fact_type_ref(s, env, k, type_loc(ty)),
        TypeT::Refine(t, p) | TypeT::RefineAlways(t, p) | TypeT::RefineUninit(t, p) => {
            accepts_type(s, env, t);
            accepts_clause(spec_check_type(s, env, t), spec_push_this(env, t), p);
        },
        TypeT::RefineValue(t, x, u, p) => {
            accepts_type(s, env, t);
            let s1 = spec_check_type(s, env, t);
            accepts_type(s1, env, u);
            accepts_clause(spec_check_type(s1, env, u), spec_push_var_decl(spec_push_this(env, t), x, u, LocalDeclKind::RValue), p);
        },
        _ => {},
    }
}

/// The same for types.
proof fn accepts_types(s: Checker, env: Env, l: Rc<List<Type>>)
    ensures
        silent_iff(s, spec_check_types_of(s, env, l), types_ok(s.check_types, env, l)),
    decreases l, 0nat,
{
    match *l {
        List::Nil => {},
        List::Cons(h, t) => {
            accepts_type(s, env, h);
            accepts_types(spec_check_type(s, env, h), env, t);
        },
    }
}

/// A check of a proposition is silent exactly if it is one.
proof fn accepts_clause(s: Checker, env: Env, p: Rc<Expr>)
    ensures
        silent_iff(s, spec_check_slprop(s, env, p), clause_ok(s.check_types, env, p)),
    decreases p, 9nat,
{
    accepts_value(s, env, p);
    fact_has_type(spec_check_rvalue(s, env, p), env, p, spec_mk_type(loc_of(p), TypeT::SLProp));
}

/// A check of a condition is silent exactly if it is one.
proof fn accepts_condition(s: Checker, env: Env, p: Rc<Expr>)
    ensures
        silent_iff(s, spec_check_bool(s, env, p), condition_ok(s.check_types, env, p)),
    decreases p, 9nat,
{
    accepts_value(s, env, p);
    fact_has_type(spec_check_rvalue(s, env, p), env, p, spec_mk_type(loc_of(p), TypeT::Bool));
}

/// A check of a place is silent exactly if it is one.
proof fn accepts_place(s: Checker, env: Env, e: Rc<Expr>)
    ensures
        silent_iff(s, spec_check_lvalue(s, env, e), place_ok(s.check_types, env, e)),
    decreases e, 9nat,
{
    accepts_value(s, env, e);
    fact_reports();
}

/// A check of an expression is silent exactly if the expression is well formed.
proof fn accepts_value(s: Checker, env: Env, e: Rc<Expr>)
    ensures
        silent_iff(s, spec_check_rvalue(s, env, e), value_ok(s.check_types, env, e)),
    decreases e, 8nat,
{
    if !spec_contains_error(e) {
        accepts_node(s, env, e);
    }
}

/// The same for expressions.
proof fn accepts_values(s: Checker, env: Env, l: Rc<List<Expr>>)
    ensures
        silent_iff(s, spec_check_rvalues(s, env, l), values_ok(s.check_types, env, l)),
    decreases l, 0nat,
{
    match *l {
        List::Nil => {},
        List::Cons(h, t) => {
            accepts_value(s, env, h);
            accepts_values(spec_check_rvalue(s, env, h), env, t);
        },
    }
}

/// The same one level down.
proof fn accepts_node(s: Checker, env: Env, e: Rc<Expr>)
    ensures
        silent_iff(s, spec_check_node(s, env, e), node_ok(s.check_types, env, e)),
    decreases e, 7nat,
{
    fact_reports();
    match e.val {
        ExprT::Var(n) => {
            reveal(spec_check_var);
        },
        ExprT::VAttr(_, a) | ExprT::Live(a) | ExprT::Old(a) | ExprT::Free(a) => accepts_value(s, env, a),
        ExprT::PreIncr(a) | ExprT::PostIncr(a) | ExprT::PreDecr(a) | ExprT::PostDecr(a) => accepts_place(s, env, a),
        ExprT::Deref(a) => {
            reveal(spec_is_pointer_type);
            accepts_value(s, env, a);
            fact_infer(spec_check_rvalue(s, env, a), env, a);
            assert(spec_check_node(s, env, e) == spec_check_deref(s, env, a));
        },
        ExprT::Member(x, a) => {
            accepts_value(s, env, x);
            let s1 = spec_check_rvalue(s, env, x);
            fact_infer(s1, env, x);
            match spec_infer_expr(env, x) {
                Some(t) => fact_member(crate::check::spec_infer_or_report(s1, env, x).0, env, t, a, loc_of(e)),
                None => {},
            }
        },
        ExprT::Ref(a) => accepts_value(s, env, a),
        ExprT::UnOp(op, a) => {
            reveal(spec_is_not_type);
            accepts_value(s, env, a);
            fact_infer(spec_check_rvalue(s, env, a), env, a);
            assert(spec_check_node(s, env, e) == spec_check_unop(s, env, op, a, loc_of(e)));
        },
        ExprT::BoolLit(_) => {},
        ExprT::FnRef(_) => {},
        _ => accepts_compound(s, env, e),
    }
}

/// The same for expressions with several operands.
proof fn accepts_compound(s: Checker, env: Env, e: Rc<Expr>)
    ensures
        silent_iff(s, spec_check_compound(s, env, e), compound_ok(s.check_types, env, e)),
    decreases e, 6nat,
{
    match e.val {
        ExprT::Index(arr, idx) => {
            accepts_value(s, env, arr);
            let s1 = spec_check_rvalue(s, env, arr);
            accepts_value(s1, env, idx);
            fact_index(spec_check_rvalue(s1, env, idx), env, arr, idx, loc_of(e));
        },
        ExprT::BinOp(op, a, b) => {
            accepts_value(s, env, a);
            let s1 = spec_check_rvalue(s, env, a);
            accepts_value(s1, env, b);
            let s2 = spec_check_rvalue(s1, env, b);
            fact_infer(s2, env, a);
            let s3 = crate::check::spec_infer_or_report(s2, env, a).0;
            fact_infer(s3, env, b);
            match spec_infer_expr(env, a) {
                Some(x) => match spec_infer_expr(env, b) {
                    Some(y) => fact_operands(crate::check::spec_infer_or_report(s3, env, b).0, env, op, x, y, loc_of(e)),
                    None => {},
                },
                None => {},
            }
        },
        ExprT::AssignExpr(a, b) => {
            accepts_value(s, env, a);
            let s1 = spec_check_rvalue(s, env, a);
            accepts_value(s1, env, b);
            fact_same_type(spec_check_rvalue(s1, env, b), env, b, a);
        },
        ExprT::Cond(a, b, c) => {
            accepts_value(s, env, a);
            let s1 = spec_check_rvalue(s, env, a);
            accepts_value(s1, env, b);
            accepts_value(spec_check_rvalue(s1, env, b), env, c);
        },
        ExprT::FnCall(f, args) => {
            accepts_values(s, env, args);
            fact_call(spec_check_rvalues(s, env, args), env, f, args, loc_of(e));
        },
        ExprT::FnPtrCall(f, args) => {
            accepts_value(s, env, f);
            accepts_values(spec_check_rvalue(s, env, f), env, args);
        },
        _ => accepts_typed(s, env, e),
    }
}

/// The same for expressions with a type.
proof fn accepts_typed(s: Checker, env: Env, e: Rc<Expr>)
    ensures
        silent_iff(s, spec_check_typed(s, env, e), typed_ok(s.check_types, env, e)),
    decreases e, 5nat,
{
    fact_reports();
    match e.val {
        ExprT::IntLit(_, ty) => {
            reveal(spec_is_valid_int_type);
            accepts_type(s, env, ty);
        },
        ExprT::FloatLit(_, ty) => {
            reveal(spec_is_valid_float_type);
            accepts_type(s, env, ty);
        },
        ExprT::Malloc(ty) | ExprT::Calloc(ty) | ExprT::SizeOf(ty) | ExprT::AlignOf(ty) | ExprT::Error(ty) => accepts_type(s, env, ty),
        ExprT::Cast(a, ty) => {
            accepts_value(s, env, a);
            accepts_type(spec_check_rvalue(s, env, a), env, ty);
        },
        ExprT::MallocArray(ty, n) | ExprT::CallocArray(ty, n) | ExprT::MallocFlex(ty, n) | ExprT::CallocFlex(ty, n) | ExprT::MemsetZero(ty, n) => {
            accepts_type(s, env, ty);
            accepts_value(spec_check_type(s, env, ty), env, n);
        },
        ExprT::Forall(x, ty, body) | ExprT::Exists(x, ty, body) => {
            accepts_type(s, env, ty);
            accepts_value(spec_check_type(s, env, ty), spec_push_var_decl(env, x, ty, LocalDeclKind::RValue), body);
        },
        _ => accepts_mixed(s, env, e),
    }
}

/// The same for initializers, accesses to memory and inline code.
proof fn accepts_mixed(s: Checker, env: Env, e: Rc<Expr>)
    ensures
        silent_iff(s, spec_check_mixed(s, env, e), mixed_ok(s.check_types, env, e)),
    decreases e, 4nat,
{
    fact_reports();
    match e.val {
        ExprT::Memset(ty, p, v, n) => {
            accepts_type(s, env, ty);
            let s1 = spec_check_type(s, env, ty);
            accepts_value(s1, env, p);
            let s2 = spec_check_rvalue(s1, env, p);
            accepts_value(s2, env, v);
            accepts_value(spec_check_rvalue(s2, env, v), env, n);
        },
        ExprT::ContainerOf(p, ty, field) => {
            accepts_value(s, env, p);
            let s1 = spec_check_rvalue(s, env, p);
            accepts_type(s1, env, ty);
            fact_container(spec_check_type(s1, env, ty), env, ty, field, loc_of(e));
        },
        ExprT::InlinePulse(code, ty) => {
            accepts_type(s, env, ty);
            accepts_tokens(spec_check_type(s, env, ty), env, code_tokens(code));
        },
        ExprT::ArrayInit { elem_ty, elems, is_static: _ } => {
            accepts_type(s, env, elem_ty);
            accepts_values(spec_check_type(s, env, elem_ty), env, elems);
        },
        ExprT::StructInit(name, inits) => accepts_struct_init(s, env, e, name, inits),
        ExprT::UnionInit(name, fld, v) => accepts_union_init(s, env, e, name, fld, v),
        _ => {},
    }
}

/// The same for struct literals.
proof fn accepts_struct_init(s: Checker, env: Env, e: Rc<Expr>, name: Rc<Ident>, inits: Rc<List<FieldInit>>)
    requires
        e.val == ExprT::StructInit(name, inits),
    ensures
        silent_iff(s, spec_check_struct_init(s, env, e), mixed_ok(s.check_types, env, e)),
    decreases e, 3nat,
{
    fact_reports();
    match spec_lookup_struct(env, name) {
        Some(d) => {
            let had = spec_num(spec_list_len(struct_fields(d)));
            let got = spec_num(spec_list_len(inits));
            let msg = spec_cat(
                spec_cat4(spec_lit("struct "), ident_text(name), spec_lit(" has "), had),
                spec_cat3(spec_lit(" fields, but "), got, spec_lit(" were given")),
            );
            let s1 = if spec_list_len(inits) > spec_list_len(struct_fields(d)) {
                crate::check::spec_report(s, msg, loc_of(e))
            } else {
                s
            };
            accepts_inits(s1, env, d, inits, loc_of(e));
            if s.check_types {
                assert(spec_check_struct_init(s, env, e) == spec_check_inits(s1, env, d, inits, loc_of(e)));
            }
        },
        None => {},
    }
}

/// The same for union literals.
proof fn accepts_union_init(s: Checker, env: Env, e: Rc<Expr>, name: Rc<Ident>, fld: Rc<Ident>, v: Rc<Expr>)
    requires
        e.val == ExprT::UnionInit(name, fld, v),
    ensures
        silent_iff(s, spec_check_union_init(s, env, e), mixed_ok(s.check_types, env, e)),
    decreases e, 3nat,
{
    fact_reports();
    accepts_value(s, env, v);
    match spec_lookup_union(env, name) {
        Some(u) => match spec_find_field(union_fields(u), fld) {
            Some(f) => fact_has_type(spec_check_rvalue(s, env, v), env, v, spec_field_type(f)),
            None => {},
        },
        None => {},
    }
}

/// A check of a value for a field is silent exactly if it fits.
proof fn accepts_init(s: Checker, env: Env, d: Rc<StructDefn>, i: Rc<FieldInit>, loc: Loc)
    ensures
        silent_iff(s, spec_check_init(s, env, d, i, loc), init_ok(s.check_types, env, d, i)),
    decreases i, 0nat,
{
    fact_reports();
    accepts_value(s, env, init_value(i));
    match spec_find_field(struct_fields(d), init_name(i)) {
        Some(f) => fact_has_type(spec_check_rvalue(s, env, init_value(i)), env, init_value(i), spec_field_type(f)),
        None => {},
    }
}

/// The same for fields.
proof fn accepts_inits(s: Checker, env: Env, d: Rc<StructDefn>, l: Rc<List<FieldInit>>, loc: Loc)
    ensures
        silent_iff(s, spec_check_inits(s, env, d, l, loc), inits_ok(s.check_types, env, d, l)),
    decreases l, 0nat,
{
    match *l {
        List::Nil => {},
        List::Cons(h, t) => {
            accepts_init(s, env, d, h, loc);
            accepts_inits(spec_check_init(s, env, d, h, loc), env, d, t, loc);
        },
    }
}

/// A check of a token is silent exactly if it is well formed.
proof fn accepts_token(s: Checker, env: Env, tok: Rc<InlinePulseToken>)
    ensures
        silent_iff(s, spec_check_token(s, env, tok), token_ok(s.check_types, env, tok)),
    decreases tok, 0nat,
{
    match *tok {
        InlinePulseToken::RValueAntiquot { before: _, expr } => accepts_value(s, env, expr),
        InlinePulseToken::LValueAntiquot { before: _, expr } => accepts_value(s, env, expr),
        InlinePulseToken::TypeAntiquot { before: _, ty } => accepts_type(s, env, ty),
        InlinePulseToken::Declare { ident: _, ty } => accepts_type(s, env, ty),
        _ => {},
    }
}

/// The same for inline code.
proof fn accepts_tokens(s: Checker, env: Env, l: Rc<List<InlinePulseToken>>)
    ensures
        silent_iff(s, spec_check_tokens(s, env, l), tokens_ok(s.check_types, env, l)),
    decreases l, 0nat,
{
    match *l {
        List::Nil => {},
        List::Cons(h, t) => {
            accepts_token(s, env, h);
            let s1 = spec_check_token(s, env, h);
            match *h {
                InlinePulseToken::Declare { ident, ty } => accepts_tokens(s1, spec_push_var_decl(env, ident, ty, LocalDeclKind::RValue), t),
                _ => accepts_tokens(s1, env, t),
            }
        },
    }
}

/// The name of the field that is given a value.
pub open spec fn init_name(i: Rc<FieldInit>) -> Rc<Ident> {
    i.name
}

/// A check of an expression is silent exactly if the expression is well formed; otherwise it adds a
/// message.
pub proof fn law_check_accepts_well_formed_expressions(s: Checker, env: Env, e: Rc<Expr>)
    ensures
        silent_iff(s, spec_check_rvalue(s, env, e), value_ok(s.check_types, env, e)),
{
    accepts_value(s, env, e);
}

/// A check of a type is silent exactly if the type is well formed; otherwise it adds a message.
pub proof fn law_check_accepts_well_formed_types(s: Checker, env: Env, ty: Rc<Type>)
    ensures
        silent_iff(s, spec_check_type(s, env, ty), type_ok(s.check_types, env, ty)),
{
    accepts_type(s, env, ty);
}

/// A check of clauses is silent exactly if they are propositions.
proof fn accepts_clauses(s: Checker, env: Env, l: Rc<List<Expr>>)
    ensures
        silent_iff(s, spec_check_slprops(s, env, l), clauses_ok(s.check_types, env, l)),
    decreases l,
{
    match *l {
        List::Nil => {},
        List::Cons(h, t) => {
            accepts_clause(s, env, h);
            accepts_clauses(spec_check_slprop(s, env, h), env, t);
        },
    }
}

/// A check of conditions is silent exactly if they are truth values.
proof fn accepts_conditions(s: Checker, env: Env, l: Rc<List<Expr>>)
    ensures
        silent_iff(s, spec_check_bools(s, env, l), conditions_ok(s.check_types, env, l)),
    decreases l,
{
    match *l {
        List::Nil => {},
        List::Cons(h, t) => {
            accepts_condition(s, env, h);
            accepts_conditions(spec_check_bool(s, env, h), env, t);
        },
    }
}

/// A check of patterns is silent exactly if they have the type of what they are matched with.
proof fn accepts_patterns(s: Checker, env: Env, subject: Option<Rc<Type>>, l: Rc<List<Expr>>)
    ensures
        silent_iff(s, spec_check_patterns(s, env, subject, l), patterns_ok(s.check_types, env, subject, l)),
    decreases l,
{
    match *l {
        List::Nil => {},
        List::Cons(h, t) => {
            accepts_value(s, env, h);
            let s1 = spec_check_rvalue(s, env, h);
            fact_infer(s1, env, h);
            let s2 = crate::check::spec_infer_or_report(s1, env, h).0;
            let s3 = match subject {
                Some(x) => match spec_infer_expr(env, h) {
                    Some(p) => spec_check_type_eq(s2, env, p, x),
                    None => s2,
                },
                None => s2,
            };
            match subject {
                Some(x) => match spec_infer_expr(env, h) {
                    Some(p) => fact_type_eq(s2, env, p, x),
                    None => {},
                },
                None => {},
            }
            if s.check_types {
                accepts_patterns(s3, env, subject, t);
            } else {
                accepts_patterns(s1, env, subject, t);
            }
        },
    }
}

/// A check of a branch is silent exactly if it is well formed.
proof fn accepts_branch(s: Checker, env: Env, subject: Option<Rc<Type>>, b: Rc<Branch>)
    ensures
        silent_iff(s, spec_check_branch(s, env, subject, b), branch_ok(s.check_types, env, subject, b)),
    decreases b, 0nat,
{
    accepts_patterns(s, env, subject, branch_patterns(b));
    accepts_stmts(spec_check_patterns(s, env, subject, branch_patterns(b)), env, branch_body(b));
}

/// The same for branches.
proof fn accepts_branches(s: Checker, env: Env, subject: Option<Rc<Type>>, l: Rc<List<Branch>>)
    ensures
        silent_iff(s, spec_check_branches(s, env, subject, l), branches_ok(s.check_types, env, subject, l)),
    decreases l, 0nat,
{
    match *l {
        List::Nil => {},
        List::Cons(h, t) => {
            accepts_branch(s, env, subject, h);
            accepts_branches(spec_check_branch(s, env, subject, h), env, subject, t);
        },
    }
}

/// A check of a statement is silent exactly if the statement is well formed.
proof fn accepts_stmt(s: Checker, env: Env, x: Rc<Stmt>)
    ensures
        silent_iff(s, spec_check_stmt(s, env, x), stmt_ok(s.check_types, env, x)),
    decreases x, 2nat,
{
    fact_reports();
    match x.val {
        StmtT::Call(e) => accepts_value(s, env, e),
        StmtT::Decl(_, ty) => accepts_type(s, env, ty),
        StmtT::Let(_, ty, value) => {
            accepts_type(s, env, ty);
            let s1 = spec_check_type(s, env, ty);
            accepts_value(s1, env, value);
            let s2 = spec_check_rvalue(s1, env, value);
            fact_infer(s2, env, value);
            match spec_infer_expr(env, value) {
                Some(t) => fact_type_eq(crate::check::spec_infer_or_report(s2, env, value).0, env, t, ty),
                None => {},
            }
        },
        StmtT::DeclStackArray { name: _, elem_type, size } => {
            accepts_type(s, env, elem_type);
            accepts_value(spec_check_type(s, env, elem_type), env, size);
        },
        StmtT::Assign(a, v) => {
            accepts_place(s, env, a);
            let s1 = spec_check_lvalue(s, env, a);
            accepts_value(s1, env, v);
            fact_same_type(spec_check_rvalue(s1, env, v), env, v, a);
        },
        StmtT::Return(Some(v)) => {
            accepts_value(s, env, v);
            match return_type_of(env) {
                Some(t) => fact_has_type(spec_check_rvalue(s, env, v), env, v, t),
                None => {},
            }
        },
        StmtT::Assert(v) => accepts_clause(s, env, v),
        StmtT::GhostStmt(code) => accepts_tokens(s, env, code_tokens(code)),
        StmtT::Label { name: _, ensures_ } => accepts_clauses(s, env, ensures_),
        StmtT::Break => {},
        StmtT::Continue => {},
        StmtT::Return(None) => {},
        StmtT::Goto(_) => {},
        StmtT::Error => {},
        _ => accepts_block(s, env, x),
    }
}

/// The same for statements that hold others.
proof fn accepts_block(s: Checker, env: Env, x: Rc<Stmt>)
    requires
        x.val is If || x.val is Match || x.val is While || x.val is GotoBlock,
    ensures
        silent_iff(s, spec_check_block_stmt(s, env, x), stmt_ok(s.check_types, env, x)),
    decreases x, 1nat,
{
    match x.val {
        StmtT::If { cond, then_branch, else_branch, ensures_ } => {
            accepts_condition(s, env, cond);
            let s1 = spec_check_bool(s, env, cond);
            accepts_clauses(s1, env, ensures_);
            let s2 = spec_check_slprops(s1, env, ensures_);
            accepts_stmts(s2, env, then_branch);
            accepts_stmts(spec_check_stmts(s2, env, then_branch), env, else_branch);
        },
        StmtT::Match { scrutinee, branches, default_branch, ensures_ } => {
            accepts_value(s, env, scrutinee);
            let s1 = spec_check_rvalue(s, env, scrutinee);
            fact_infer(s1, env, scrutinee);
            let (s2, subject) = crate::check::spec_infer_or_report(s1, env, scrutinee);
            accepts_branches(s2, env, subject, branches);
            let s3 = spec_check_branches(s2, env, subject, branches);
            accepts_stmts(s3, env, default_branch);
            accepts_clauses(spec_check_stmts(s3, env, default_branch), env, ensures_);
        },
        StmtT::While { cond, inv, requires_, ensures_, body } => {
            accepts_condition(s, env, cond);
            let s1 = spec_check_bool(s, env, cond);
            accepts_clauses(s1, env, inv);
            let s2 = spec_check_slprops(s1, env, inv);
            accepts_conditions(s2, env, requires_);
            let s3 = spec_check_bools(s2, env, requires_);
            accepts_conditions(s3, env, ensures_);
            accepts_stmts(spec_check_bools(s3, env, ensures_), spec_enter_loop(env), body);
        },
        StmtT::GotoBlock { body, label: _, ensures_ } => {
            accepts_stmts(s, env, body);
            accepts_clauses(spec_check_stmts(s, env, body), env, ensures_);
        },
        _ => {},
    }
}

/// The same for statements.
proof fn accepts_stmts(s: Checker, env: Env, l: Rc<List<Stmt>>)
    ensures
        silent_iff(s, spec_check_stmts(s, env, l), stmts_ok(s.check_types, env, l)),
    decreases l, 3nat,
{
    match *l {
        List::Nil => {},
        List::Cons(h, t) => {
            accepts_stmt(s, env, h);
            accepts_stmts(spec_check_stmt(s, env, h), spec_push_stmt(env, h), t);
        },
    }
}

/// What a function in whose scope a statement stands returns.
pub open spec fn return_type_of(env: Env) -> Option<Rc<Type>> {
    env.return_type
}

/// A check of statements is silent exactly if they are well formed, each in the scope that those
/// before it leave; otherwise it adds a message.
pub proof fn law_check_accepts_well_formed_statements(s: Checker, env: Env, l: Rc<List<Stmt>>)
    ensures
        silent_iff(s, spec_check_stmts(s, env, l), stmts_ok(s.check_types, env, l)),
{
    accepts_stmts(s, env, l);
}

/// A check of clauses is silent exactly if they are propositions; otherwise it adds a message.
pub proof fn law_check_accepts_clauses(s: Checker, env: Env, l: Rc<List<Expr>>)
    ensures
        silent_iff(s, spec_check_slprops(s, env, l), clauses_ok(s.check_types, env, l)),
{
    accepts_clauses(s, env, l);
}

/// A check of inline code is silent exactly if it is well formed, each name that it declares being in scope from there
/// on.
pub proof fn law_check_accepts_inline_code(s: Checker, env: Env, l: Rc<List<InlinePulseToken>>)
    ensures
        silent_iff(s, spec_check_tokens(s, env, l), tokens_ok(s.check_types, env, l)),
{
    accepts_tokens(s, env, l);
}

/// A returned integer of another width or signedness than the return type is reported.
pub proof fn law_returned_integers_of_another_width_are_reported(
    s: Checker,
    env: Env,
    x: Rc<Stmt>,
    v: Rc<Expr>,
    ty: Rc<Type>,
    has: Rc<Type>,
    s1: bool,
    w1: u32,
    s2: bool,
    w2: u32,
)
    requires
        s.check_types,
        x.val == StmtT::Return(Some(v)),
        env.return_type == Some(ty),
        spec_infer_expr(env, v) == Some(has),
        !spec_contains_error(v),
        spec_vtype_whnf(env, has).val == (TypeT::Int { signed: s1, width: w1 }),
        spec_vtype_whnf(env, ty).val == (TypeT::Int { signed: s2, width: w2 }),
        s1 != s2 || w1 != w2,
    ensures
        message_count(spec_check_stmt(s, env, x)) > message_count(s),
{
    accepts_stmt(s, env, x);
    law_integer_types_are_told_apart(env, has, ty, s1, w1, s2, w2);
}

/// Whether the types of ghost parameters are well formed, each in the scope of those before it.
pub open spec fn ghosts_ok(typed: bool, env: Env, l: Rc<List<GhostArg>>) -> bool
    decreases l,
{
    match *l {
        List::Nil => true,
        List::Cons(h, t) => type_ok(typed, env, h.ty) && ghosts_ok(typed, spec_push_var_decl(env, h.name, h.ty, LocalDeclKind::RValue), t),
    }
}

/// Whether the types of parameters are well formed, each in the scope of those before it.
pub open spec fn args_ok(typed: bool, env: Env, l: Rc<List<FnArg>>) -> bool
    decreases l,
{
    match *l {
        List::Nil => true,
        List::Cons(h, t) => type_ok(typed, env, h.ty) && args_ok(typed, spec_push_arg(env, h, LocalDeclKind::RValue), t),
    }
}

/// Whether the types of parameters are well formed, all in the same scope.
pub open spec fn params_ok(typed: bool, env: Env, l: Rc<List<FnArg>>) -> bool
    decreases l,
{
    match *l {
        List::Nil => true,
        List::Cons(h, t) => type_ok(typed, env, h.ty) && params_ok(typed, env, t),
    }
}

/// Whether a signature and its contract are well formed: preconditions are propositions in the scope of the
/// parameters, postconditions and the measure in that of the result as well.
pub open spec fn signature_ok(typed: bool, env: Env, d: Rc<FnDecl>) -> bool {
    let env1 = spec_push_ghost_args(env, d.ghost_args);
    let env2 = spec_push_args(env1, d.args, LocalDeclKind::RValue);
    let env3 = spec_push_return(env2, d.ret_type);
    &&& ghosts_ok(typed, env, d.ghost_args)
    &&& args_ok(typed, env1, d.args)
    &&& clauses_ok(typed, env2, d.requires_)
    &&& type_ok(typed, env2, d.ret_type)
    &&& clauses_ok(typed, env3, d.ensures_)
    &&& d.decreases_ matches Some(m) ==> value_ok(typed, env3, m)
}

/// Whether the types of fields are well formed.
pub open spec fn fields_ok(typed: bool, env: Env, l: Rc<List<Field>>, siblings: Rc<List<Field>>) -> bool
    decreases l,
{
    match *l {
        List::Nil => true,
        List::Cons(h, t) => type_ok(typed, spec_field_env(env, h, siblings), spec_field_type(h)) && fields_ok(typed, env, t, siblings),
    }
}

/// A check of ghost parameters is silent exactly if they are well formed.
proof fn accepts_ghosts(s: Checker, env: Env, l: Rc<List<GhostArg>>)
    ensures
        silent_iff(s, spec_check_ghost_args(s, env, l), ghosts_ok(s.check_types, env, l)),
    decreases l,
{
    match *l {
        List::Nil => {},
        List::Cons(h, t) => {
            law_check_accepts_well_formed_types(s, env, ghost_type(h));
            accepts_ghosts(spec_check_type(s, env, ghost_type(h)), spec_push_var_decl(env, ghost_name(h), ghost_type(h), LocalDeclKind::RValue), t);
        },
    }
}

/// The same for parameters.
proof fn accepts_args(s: Checker, env: Env, l: Rc<List<FnArg>>)
    ensures
        silent_iff(s, spec_check_args(s, env, l), args_ok(s.check_types, env, l)),
    decreases l,
{
    match *l {
        List::Nil => {},
        List::Cons(h, t) => {
            law_check_accepts_well_formed_types(s, env, arg_type(h));
            accepts_args(spec_check_type(s, env, arg_type(h)), spec_push_arg(env, h, LocalDeclKind::RValue), t);
        },
    }
}

/// The same for parameters in one scope.
proof fn accepts_params(s: Checker, env: Env, l: Rc<List<FnArg>>)
    ensures
        silent_iff(s, spec_check_param_types(s, env, l), params_ok(s.check_types, env, l)),
    decreases l,
{
    match *l {
        List::Nil => {},
        List::Cons(h, t) => {
            law_check_accepts_well_formed_types(s, env, arg_type(h));
            accepts_params(spec_check_type(s, env, arg_type(h)), env, t);
        },
    }
}

/// The same for fields.
proof fn accepts_fields(s: Checker, env: Env, l: Rc<List<Field>>, siblings: Rc<List<Field>>)
    ensures
        silent_iff(s, spec_check_fields(s, env, l, siblings), fields_ok(s.check_types, env, l, siblings)),
    decreases l,
{
    match *l {
        List::Nil => {},
        List::Cons(h, t) => {
            let env2 = spec_field_env(env, h, siblings);
            law_check_accepts_well_formed_types(s, env2, spec_field_type(h));
            accepts_fields(spec_check_type(s, env2, spec_field_type(h)), env, t, siblings);
        },
    }
}

/// A check of a signature is silent exactly if the signature and its contract are well formed.
pub proof fn law_check_accepts_well_formed_signatures(s: Checker, env: Env, d: Rc<FnDecl>)
    ensures
        silent_iff(s, spec_check_fn_decl(s, env, d), signature_ok(s.check_types, env, d)),
{
    reveal(spec_check_fn_decl);
    let env1 = spec_push_ghost_args(env, fn_ghost_args(d));
    let env2 = spec_push_args(env1, fn_args(d), LocalDeclKind::RValue);
    let env3 = spec_push_return(env2, fn_result(d));
    accepts_ghosts(s, env, fn_ghost_args(d));
    let s1 = spec_check_ghost_args(s, env, fn_ghost_args(d));
    accepts_args(s1, env1, fn_args(d));
    let s2 = spec_check_args(s1, env1, fn_args(d));
    law_check_accepts_clauses(s2, env2, fn_requires(d));
    let s3 = spec_check_slprops(s2, env2, fn_requires(d));
    law_check_accepts_well_formed_types(s3, env2, fn_result(d));
    let s4 = spec_check_type(s3, env2, fn_result(d));
    law_check_accepts_clauses(s4, env3, fn_ensures(d));
    match fn_measure(d) {
        Some(m) => law_check_accepts_well_formed_expressions(spec_check_slprops(s4, env3, fn_ensures(d)), env3, m),
        None => {},
    }
}

/// A check of a function is silent exactly if its signature is well formed and its statements are, in the scope of
/// its parameters; and a check of a type, struct or union exactly if the types in it are.
pub proof fn law_check_accepts_well_formed_declarations(s: Checker, env: Env, d: Rc<Decl>)
    requires
        !(d.val is LetDecl || d.val is GlobalVar),
    ensures
        silent_iff(
            s,
            spec_check_decl(s, env, d),
            match d.val {
                DeclT::FnDefn(f) => signature_ok(s.check_types, env, f.decl) && stmts_ok(s.check_types, spec_push_fn_decl_args_for_body(env, f.decl), f.body),
                DeclT::FnDecl(f) => signature_ok(s.check_types, env, f),
                DeclT::Typedef(t) => type_ok(s.check_types, env, t.body),
                DeclT::StructDefn(t) => type_ok(s.check_types, env, t.refines) && fields_ok(s.check_types, env, t.fields, t.fields),
                DeclT::UnionDefn(u) => fields_ok(s.check_types, env, u.fields, u.fields),
                DeclT::OpaqueTypeDecl(o) => tokens_ok(s.check_types, env, o.code.tokens),
                _ => true,
            },
        ),
{
    reveal(spec_check_decl);
    match d.val {
        DeclT::FnDefn(f) => {
            law_check_accepts_well_formed_signatures(s, env, defn_signature(f));
            law_check_accepts_well_formed_statements(
                spec_check_fn_decl(s, env, defn_signature(f)),
                spec_push_fn_decl_args_for_body(env, defn_signature(f)),
                fn_body(f),
            );
        },
        DeclT::FnDecl(f) => law_check_accepts_well_formed_signatures(s, env, f),
        DeclT::Typedef(t) => law_check_accepts_well_formed_types(s, env, typedef_body(t)),
        DeclT::StructDefn(t) => {
            law_check_accepts_well_formed_types(s, env, struct_refinement(t));
            accepts_fields(spec_check_type(s, env, struct_refinement(t)), env, struct_fields(t), struct_fields(t));
        },
        DeclT::UnionDefn(u) => accepts_fields(s, env, union_fields(u), union_fields(u)),
        DeclT::OpaqueTypeDecl(o) => law_check_accepts_inline_code(s, env, opaque_tokens(o)),
        _ => {},
    }
}

/// Whether a function is one that a report lists: it is declared and not made by a macro.
pub open spec fn is_listed(d: Rc<Decl>) -> bool {
    d.val matches DeclT::FnDecl(f) && !spec_text_starts_with(f.name.val, spec_lit("__pal"))
}

/// A function that is only declared is listed with its name and place, whether it has a contract and is pure, and how
/// often it is called; nothing else is listed.
pub proof fn law_listed_functions(all: Rc<List<Decl>>, d: Rc<Decl>)
    ensures
        (spec_assumed_fn(all, d) is Some) == is_listed(d),
        spec_assumed_fn(all, d) matches Some(a) ==> (d.val matches DeclT::FnDecl(f) && {
            &&& a.name == f.name.val
            &&& a.loc == f.name.loc
            &&& a.has_spec == has_contract(f)
            &&& a.is_pure == f.is_pure
            &&& a.call_sites == spec_calls_in_decls(all, f.name.val)
        }),
{
    reveal(spec_assumed_fn);
    match d.val {
        DeclT::FnDecl(f) => {
            lemma_clauses_empty(fn_requires(f));
            lemma_clauses_empty(fn_ensures(f));
        },
        _ => {},
    }
}

/// An empty list has no items.
proof fn lemma_clauses_empty(l: Rc<List<Expr>>)
    ensures
        spec_list_is_empty(l) == (l.items().len() == 0),
{
    match *l {
        List::Nil => {},
        List::Cons(h, t) => {},
    }
}

/// Functions without a contract are listed before those with one, then those that are called more often come first,
/// then those whose name is smaller.
pub proof fn law_order_of_the_list(a: Rc<AssumedFn>, b: Rc<AssumedFn>)
    ensures
        spec_comes_before(a, b) <==> (!a.has_spec && b.has_spec) || (a.has_spec == b.has_spec && (a.call_sites > b.call_sites || (a.call_sites == b.call_sites && chars_less(
            a.name.chars(),
            b.name.chars(),
        )))),
{
    reveal(spec_comes_before);
}

/// The calls in a function are those of its contract and of its body, and those in a declaration those of its
/// contract.
pub proof fn law_calls_in_functions(d: Rc<Decl>, f: Text)
    ensures
        spec_calls_in_decl(d, f) == (match d.val {
            DeclT::FnDefn(g) => counted(
                calls_of(g.decl.requires_.items(), f) + calls_of(g.decl.ensures_.items(), f) + spec_calls_in_stmts(g.body, f) as nat,
            ),
            DeclT::FnDecl(g) => counted(calls_of(g.requires_.items(), f) + calls_of(g.ensures_.items(), f)),
            _ => 0,
        }),
{
    reveal(spec_calls_in_decl);
    reveal(spec_plus);
    match d.val {
        DeclT::FnDefn(g) => {
            law_calls_in_clauses_are_counted(fn_requires(defn_signature(g)), f);
            law_calls_in_clauses_are_counted(fn_ensures(defn_signature(g)), f);
        },
        DeclT::FnDecl(g) => {
            law_calls_in_clauses_are_counted(fn_requires(g), f);
            law_calls_in_clauses_are_counted(fn_ensures(g), f);
        },
        _ => {},
    }
}

/// The place of a thing as a report shows it.
pub open spec fn place_text(cwd: Option<Text>, loc: Loc) -> Seq<char> {
    (match cwd {
        Some(dir) => match stripped_path(loc.location.file_name@, dir.chars()) {
            Some(rest) => rest,
            None => loc.location.file_name@,
        },
        None => loc.location.file_name@,
    }) + ":"@ + nat_chars(loc.location.range.start.line as nat)
}

/// A place is shown by its file, relative to the working directory where it is below it, and by its line.
pub proof fn law_shown_places(cwd: Option<Text>, loc: Loc)
    ensures
        spec_fmt_loc(cwd, loc).chars() == place_text(cwd, loc),
{
    broadcast use crate::laws_text::group_flat;
    reveal(spec_fmt_loc);
    reveal_with_fuel(Rope::chars, 3);
}

/// The summary has a line for each function, with its name, its place and the number of its calls.
pub proof fn law_summary_lines(cwd: Option<Text>, f: Rc<AssumedFn>, t: Rc<OpaqueType>)
    ensures
        spec_summary_fn(cwd, f).chars() == "        "@ + f.name.chars() + " ("@ + place_text(cwd, f.loc) + ", "@ + nat_chars(f.call_sites as nat) + " call site"@ + (if f.call_sites == 1 {
            ""@
        } else {
            "s"@
        }) + ")\n"@,
        spec_summary_type(cwd, t).chars() == "        struct "@ + t.name.chars() + " ("@ + place_text(cwd, t.loc) + ")\n"@,
        spec_row_fn(cwd, f).chars() == "| `"@ + f.name.chars() + "` | "@ + place_text(cwd, f.loc) + " | "@ + nat_chars(f.call_sites as nat) + " | "@ + (if f.is_pure {
            "yes"@
        } else {
            ""@
        }) + " |\n"@,
        spec_row_type(cwd, t).chars() == "| `struct "@ + t.name.chars() + "` | "@ + place_text(cwd, t.loc) + " |\n"@,
{
    broadcast use crate::laws_text::group_flat;
    reveal(spec_summary_fn);
    reveal(spec_summary_type);
    reveal(spec_row_fn);
    reveal(spec_row_type);
    law_shown_places(cwd, listed_place(f));
    law_shown_places(cwd, opaque_place(t));
}

/// Where a listed function stands.
pub open spec fn listed_place(f: Rc<AssumedFn>) -> Loc {
    f.loc
}

/// Where a listed type stands.
pub open spec fn opaque_place(t: Rc<OpaqueType>) -> Loc {
    t.loc
}

/// The functions with a contract, or those without, are picked from the list in order.
pub proof fn law_picked_functions(l: Rc<List<AssumedFn>>, has_spec: bool)
    ensures
        spec_fns_with(l, has_spec).items() == l.items().filter(|a: Rc<AssumedFn>| a.has_spec == has_spec),
    decreases l,
{
    let p = |a: Rc<AssumedFn>| a.has_spec == has_spec;
    match *l {
        List::Nil => {
            reveal(Seq::filter);
        },
        List::Cons(h, t) => {
            law_picked_functions(t, has_spec);
            lemma_filter_first(h, t.items(), p);
        },
    }
}

/// What is picked from a sequence with one more item in front.
proof fn lemma_filter_first(h: Rc<AssumedFn>, t: Seq<Rc<AssumedFn>>, p: spec_fn(Rc<AssumedFn>) -> bool)
    ensures
        (seq![h] + t).filter(p) == (if p(h) {
            seq![h] + t.filter(p)
        } else {
            t.filter(p)
        }),
    decreases t.len(),
{
    reveal(Seq::filter);
    if t.len() == 0 {
        let s = seq![h];
        assert(seq![h] + t =~= s);
        assert(s.drop_last() =~= t);
        assert(t.filter(p) =~= Seq::empty());
        assert(seq![h] + t.filter(p) =~= Seq::<Rc<AssumedFn>>::empty().push(h));
    } else {
        let s = seq![h] + t;
        assert(s.drop_last() =~= seq![h] + t.drop_last());
        lemma_filter_first(h, t.drop_last(), p);
        assert(s.last() == t.last());
        if p(t.last()) {
            assert((seq![h] + t.drop_last().filter(p)).push(t.last()) =~= seq![h] + t.drop_last().filter(p).push(t.last()));
        }
    }
}

/// A thing that is only declared is listed as a type without a layout, in order.
pub proof fn law_listed_types(d: Rc<Decl>, t: Rc<List<Decl>>)
    ensures
        spec_opaque_types(Rc::new(List::Nil)).items().len() == 0,
        match d.val {
            DeclT::StructDecl(n) => spec_opaque_types(Rc::new(List::Cons(d, t))).items() == seq![Rc::new(OpaqueType { name: n.val, loc: n.loc })] + spec_opaque_types(t).items(),
            _ => spec_opaque_types(Rc::new(List::Cons(d, t))) == spec_opaque_types(t),
        },
{
}

} // verus!
