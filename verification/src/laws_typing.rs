//! What is proved of scopes, of the types that follow from them, of their comparison, and of the conversions that elaboration
//! makes explicit.

use crate::list::{List, spec_bump, spec_drop_one, spec_list_len};
use crate::text::{IntValue, Text, spec_int_is_zero, spec_lit, spec_text_is};
use crate::ir::{
    BinOp, Decl, DeclT, Expr, ExprT, Field, FieldInit, FnArg, FnDecl, FnDefn, GhostArg, GlobalVar,
    Ident, InlinePulseToken, LetDecl, Loc, PointerKind, Stmt, StmtT, StructDefn, Type, TypeDefn,
    TypeRefKind, TypeT, UnOp, UnionDefn, VAttr, spec_field_type, spec_find_field,
    spec_global_var_is_array, spec_mk_expr, spec_mk_type, spec_same_name, spec_with_child,
    spec_with_children, spec_with_three,
};
use crate::env::{
    Env, LocalDeclKind, spec_addressable_global, spec_arg_types, spec_arith_rank, spec_array_elem,
    spec_binop_type, spec_call_type, spec_clone_env, spec_clone_opt_type, spec_enter_loop,
    spec_find_global, spec_find_typedef, spec_infer_expr, spec_infer_whnf, spec_is_addressable,
    spec_is_bool, spec_is_lvalue, spec_is_slprop, spec_let_signature, spec_lookup_fn,
    spec_lookup_global_var, spec_lookup_struct, spec_lookup_union, spec_lookup_var,
    spec_meet_ints, spec_meet_pointer_kinds, spec_meet_type, spec_member_type, spec_plus,
    spec_pointee, spec_push_arg, spec_push_args, spec_push_decl, spec_push_declared,
    spec_push_fn_decl, spec_push_fn_decl_args_for_body, spec_push_ghost_args, spec_push_local,
    spec_push_return, spec_push_stmt, spec_push_struct, spec_push_this, spec_push_typedef,
    spec_push_union, spec_push_var_decl, spec_put_typedef, spec_replace_typedef, spec_type_size,
    spec_typedefs_size, spec_types_size, spec_vtype_eq, spec_vtype_eq_within, spec_vtype_whnf,
    spec_vtypes_eq_within, spec_whnf_within, spec_with_locals, spec_with_return_type,
};
use crate::names::TypeRef;
use crate::emit_exprs::{
    spec_is_array_pointer, spec_is_pointer, spec_is_zero_literal, spec_pointer_kind,
};
use crate::rename::spec_clone_opt_ident;
use crate::elab::{
    Elaborator, Step, spec_active_arm, spec_any_depth, spec_as_bool, spec_as_measure,
    spec_as_size, spec_as_slprop, spec_assigned_kind, spec_canon, spec_cast_arg,
    spec_cast_assigned, spec_cast_expr, spec_cast_if_needed, spec_cast_to_opt, spec_cell_sum,
    spec_convert, spec_convert_both, spec_elab_args, spec_elab_args_at, spec_elab_assign,
    spec_elab_at, spec_elab_bool, spec_elab_compound, spec_elab_fn_decl, spec_elab_ghost_args,
    spec_elab_inits, spec_elab_lvalue, spec_elab_measure, spec_elab_meet, spec_elab_node,
    spec_elab_rvalue, spec_elab_simple_stmt, spec_elab_size, spec_elab_slprop, spec_elab_slprops,
    spec_elab_stmt, spec_elab_type, spec_elab_typed_operation, spec_expects_ref, spec_find_view,
    spec_first_type, spec_indirect_field_path, spec_inline_type, spec_is_kind_refinement,
    spec_is_var_named, spec_later_types, spec_maybe_apply_view, spec_missing_zeros,
    spec_mixed_comparison, spec_mk_stmt, spec_null_comparison, spec_promoted, spec_promotes_bool,
    spec_record_fields, spec_rejected, spec_resolve_field, spec_resolve_member, spec_retyped,
    spec_select_all, spec_settled_kind, spec_settled_type, spec_struct_field_type,
    spec_unify_branches, spec_zeros,
};
use crate::laws_goto::ident_text;
use crate::laws_rename::init_value;
use crate::laws_types::{is_refined, is_typedef_ref};
use crate::laws_syntax::{fn_args, fn_ensures, fn_ghost_args, fn_requires};
use crate::laws_check::{arg_type, fn_result, loc_of};
use crate::laws_accept::{fields_of_shape, init_name};
use crate::laws_written::{has_kind, param_ident, points_into_array};
use std::rc::Rc;
use vstd::prelude::*;

verus! {

/// Whether two names are the same.
pub open spec fn named_alike(a: Rc<Ident>, b: Rc<Ident>) -> bool {
    ident_text(a).chars() == ident_text(b).chars()
}

/// Whether two shapes agree at their top: in the kind of type and in everything that is part of it
/// but other types.
pub open spec fn heads_agree(x: TypeT, y: TypeT) -> bool {
    match x {
        TypeT::Void => y is Void,
        TypeT::Bool => y is Bool,
        TypeT::Int { signed: s1, width: w1 } => y matches TypeT::Int { signed: s2, width: w2 } && s1 == s2 && w1 == w2,
        TypeT::Float { width: w1 } => y matches TypeT::Float { width: w2 } && w1 == w2,
        TypeT::SizeT => y is SizeT,
        TypeT::PtrdiffT => y is PtrdiffT,
        TypeT::Pointer(_, k1) => y matches TypeT::Pointer(_, k2) && k1 == k2,
        TypeT::FixedArray(_, n1) => y matches TypeT::FixedArray(_, n2) && n1 == n2,
        TypeT::FlexArray(_) => y is FlexArray,
        TypeT::FnPtr { args: a1, ret: _ } => y matches TypeT::FnPtr { args: a2, ret: _ } && a1.items().len() == a2.items().len(),
        TypeT::SpecInt => y is SpecInt,
        TypeT::SpecNat => y is SpecNat,
        TypeT::SLProp => y is SLProp,
        TypeT::TypeRef(TypeRefKind::Typedef(n1)) => y matches TypeT::TypeRef(TypeRefKind::Typedef(n2)) && named_alike(n1, n2),
        TypeT::TypeRef(TypeRefKind::Struct(n1)) => y matches TypeT::TypeRef(TypeRefKind::Struct(n2)) && named_alike(n1, n2),
        TypeT::TypeRef(TypeRefKind::Union(n1)) => y matches TypeT::TypeRef(TypeRefKind::Union(n2)) && named_alike(n1, n2),
        TypeT::Unknown => y is Unknown,
        TypeT::Error => y is Error,
        _ => false,
    }
}

/// Whether a shape holds no other types.
pub open spec fn is_simple(x: TypeT) -> bool {
    !(x is Pointer || x is FixedArray || x is FlexArray || x is FnPtr)
}

/// Whether two types agree `depth` layers deep, once refinements are stripped and typedefs unfolded
/// in every layer.
pub open spec fn agree_to(env: Env, a: Rc<Type>, b: Rc<Type>, depth: nat) -> bool
    decreases depth,
{
    depth == 0 || {
        let x = spec_vtype_whnf(env, a).val;
        let y = spec_vtype_whnf(env, b).val;
        &&& heads_agree(x, y)
        &&& match (x, y) {
            (TypeT::Pointer(s, _), TypeT::Pointer(t, _)) => agree_to(env, s, t, (depth - 1) as nat),
            (TypeT::FixedArray(s, _), TypeT::FixedArray(t, _)) => agree_to(env, s, t, (depth - 1) as nat),
            (TypeT::FlexArray(s), TypeT::FlexArray(t)) => agree_to(env, s, t, (depth - 1) as nat),
            (TypeT::FnPtr { args: l, ret: s }, TypeT::FnPtr { args: m, ret: t }) => {
                &&& agree_to(env, s, t, (depth - 1) as nat)
                &&& forall|i: int| 0 <= i < l.items().len() && i < m.items().len() ==> agree_to(env, #[trigger] l.items()[i], #[trigger] m.items()[i], (depth - 1) as nat)
            },
            _ => true,
        }
    }
}

/// The shapes of two types.
spec fn shapes_of(env: Env, a: Rc<Type>, b: Rc<Type>) -> (TypeT, TypeT) {
    (spec_vtype_whnf(env, a).val, spec_vtype_whnf(env, b).val)
}

/// The tops of two lists.
spec fn both_lists(l: Rc<List<Type>>, m: Rc<List<Type>>) -> (List<Type>, List<Type>) {
    (*l, *m)
}

/// A comparison that finds two types equal has seen them agree in every layer.
proof fn lemma_equal_agree(env: Env, a: Rc<Type>, b: Rc<Type>, fuel: u64, depth: nat)
    requires
        spec_vtype_eq_within(env, a, b, fuel),
    ensures
        agree_to(env, a, b, depth),
    decreases depth, 1nat,
{
    if depth > 0 {
        reveal(spec_same_name);
        let less = (depth - 1) as nat;
        match shapes_of(env, a, b) {
            (TypeT::Pointer(s, _), TypeT::Pointer(t, _)) => lemma_equal_agree(env, s, t, spec_drop_one(fuel), less),
            (TypeT::FixedArray(s, _), TypeT::FixedArray(t, _)) => lemma_equal_agree(env, s, t, spec_drop_one(fuel), less),
            (TypeT::FlexArray(s), TypeT::FlexArray(t)) => lemma_equal_agree(env, s, t, spec_drop_one(fuel), less),
            (TypeT::FnPtr { args: l, ret: s }, TypeT::FnPtr { args: m, ret: t }) => {
                lemma_equal_agree(env, s, t, spec_drop_one(fuel), less);
                lemma_all_equal_agree(env, l, m, spec_drop_one(fuel), less);
            },
            _ => {},
        }
    }
}

/// The same for types one by one.
proof fn lemma_all_equal_agree(env: Env, l: Rc<List<Type>>, m: Rc<List<Type>>, fuel: u64, depth: nat)
    requires
        spec_vtypes_eq_within(env, l, m, fuel),
    ensures
        l.items().len() == m.items().len(),
        forall|i: int| 0 <= i < l.items().len() ==> agree_to(env, #[trigger] l.items()[i], #[trigger] m.items()[i], depth),
    decreases depth, 2nat, l,
{
    match both_lists(l, m) {
        (List::Cons(x, s), List::Cons(y, t)) => {
            lemma_equal_agree(env, x, y, spec_drop_one(fuel), depth);
            lemma_all_equal_agree(env, s, t, fuel, depth);
            assert forall|i: int| 0 <= i < l.items().len() implies agree_to(env, #[trigger] l.items()[i], #[trigger] m.items()[i], depth) by {
                if i > 0 {
                    assert(l.items()[i] == s.items()[i - 1]);
                    assert(m.items()[i] == t.items()[i - 1]);
                }
            }
        },
        _ => {},
    }
}

/// Types with the same values agree in every layer: integers in signedness and width, floating-point
/// numbers in width, pointers in kind, arrays in length, records and opaque types in name, and
/// functions in the number of parameters.
pub proof fn law_equal_types_agree(env: Env, a: Rc<Type>, b: Rc<Type>, depth: nat)
    requires
        spec_vtype_eq(env, a, b),
    ensures
        agree_to(env, a, b, depth),
{
    reveal(spec_vtype_eq);
    let typedefs = spec_plus(spec_typedefs_size(env.typedefs), spec_typedefs_size(env.typedefs));
    lemma_equal_agree(env, a, b, spec_bump(spec_plus(spec_plus(spec_type_size(a), spec_type_size(b)), typedefs)), depth);
}

/// The comparison goes at least one layer deep.
proof fn lemma_bump_is_positive(n: u64)
    ensures
        spec_bump(n) > 0,
{
    reveal(spec_bump);
}

/// Types whose shapes hold no other types are equal exactly if their shapes agree. In particular two
/// integer types are equal exactly if both their signedness and their width are.
pub proof fn law_simple_types_are_equal_iff_they_agree(env: Env, a: Rc<Type>, b: Rc<Type>)
    requires
        is_simple(spec_vtype_whnf(env, a).val),
    ensures
        spec_vtype_eq(env, a, b) == heads_agree(spec_vtype_whnf(env, a).val, spec_vtype_whnf(env, b).val),
{
    reveal(spec_vtype_eq);
    reveal(spec_same_name);
    let typedefs = spec_plus(spec_typedefs_size(env.typedefs), spec_typedefs_size(env.typedefs));
    let n = spec_plus(spec_plus(spec_type_size(a), spec_type_size(b)), typedefs);
    lemma_bump_is_positive(n);
    crate::laws_types::law_shapes_are_plain(env, a);
    assert(spec_vtype_eq(env, a, b) == spec_vtype_eq_within(env, a, b, spec_bump(n)));
}

/// Two integer types have the same values only if both their signedness and their widths are equal.
pub proof fn law_integer_types_are_told_apart(env: Env, a: Rc<Type>, b: Rc<Type>, s1: bool, w1: u32, s2: bool, w2: u32)
    requires
        spec_vtype_whnf(env, a).val == (TypeT::Int { signed: s1, width: w1 }),
        spec_vtype_whnf(env, b).val == (TypeT::Int { signed: s2, width: w2 }),
    ensures
        spec_vtype_eq(env, a, b) <==> s1 == s2 && w1 == w2,
{
    law_simple_types_are_equal_iff_they_agree(env, a, b);
}

/// Whether no layer of a type is the name of a typedef.
pub open spec fn without_typedefs(ty: Rc<Type>) -> bool
    decreases ty, 1nat,
{
    match ty.val {
        TypeT::Pointer(t, _) | TypeT::FixedArray(t, _) | TypeT::FlexArray(t) | TypeT::Plain(t) | TypeT::Nullable(t) => without_typedefs(t),
        TypeT::Refine(t, _) | TypeT::RefineAlways(t, _) | TypeT::RefineUninit(t, _) => without_typedefs(t),
        TypeT::RefineValue(t, _, _, _) => without_typedefs(t),
        TypeT::FnPtr { args, ret } => all_without_typedefs(args) && without_typedefs(ret),
        TypeT::TypeRef(TypeRefKind::Typedef(_)) => false,
        _ => true,
    }
}

/// Whether no layer of the types is the name of a typedef.
pub open spec fn all_without_typedefs(l: Rc<List<Type>>) -> bool
    decreases l, 0nat,
{
    match *l {
        List::Nil => true,
        List::Cons(h, t) => without_typedefs(h) && all_without_typedefs(t),
    }
}

/// How many layers of a type hold values.
pub open spec fn value_layers(ty: Rc<Type>) -> nat
    decreases ty, 1nat,
{
    match ty.val {
        TypeT::Pointer(t, _) | TypeT::FixedArray(t, _) | TypeT::FlexArray(t) | TypeT::Plain(t) | TypeT::Nullable(t) => 1 + value_layers(t),
        TypeT::Refine(t, _) | TypeT::RefineAlways(t, _) | TypeT::RefineUninit(t, _) => 1 + value_layers(t),
        TypeT::RefineValue(t, _, _, _) => 1 + value_layers(t),
        TypeT::FnPtr { args, ret } => 1 + value_layers_of_all(args) + value_layers(ret),
        _ => 1,
    }
}

/// How many layers of the types hold values.
pub open spec fn value_layers_of_all(l: Rc<List<Type>>) -> nat
    decreases l, 0nat,
{
    match *l {
        List::Nil => 0,
        List::Cons(h, t) => value_layers(h) + value_layers_of_all(t),
    }
}

/// The counted size of a type is that of its layers, as far as it can be counted.
proof fn lemma_size_counts_layers(ty: Rc<Type>)
    ensures
        spec_type_size(ty) == value_layers(ty) || spec_type_size(ty) == u64::MAX && value_layers(ty) >= u64::MAX,
    decreases ty, 1nat,
{
    reveal(spec_bump);
    reveal(spec_plus);
    match ty.val {
        TypeT::Pointer(t, _) | TypeT::FixedArray(t, _) | TypeT::FlexArray(t) | TypeT::Plain(t) | TypeT::Nullable(t) => lemma_size_counts_layers(t),
        TypeT::Refine(t, _) | TypeT::RefineAlways(t, _) | TypeT::RefineUninit(t, _) => lemma_size_counts_layers(t),
        TypeT::RefineValue(t, _, _, _) => lemma_size_counts_layers(t),
        TypeT::FnPtr { args, ret } => {
            lemma_sizes_count_layers(args);
            lemma_size_counts_layers(ret);
        },
        _ => {},
    }
}

/// The same for types.
proof fn lemma_sizes_count_layers(l: Rc<List<Type>>)
    ensures
        spec_types_size(l) == value_layers_of_all(l) || spec_types_size(l) == u64::MAX && value_layers_of_all(l) >= u64::MAX,
    decreases l, 0nat,
{
    reveal(spec_plus);
    match *l {
        List::Nil => {},
        List::Cons(h, t) => {
            lemma_size_counts_layers(h);
            lemma_sizes_count_layers(t);
        },
    }
}

/// The shape of a type without typedefs is one of its layers.
proof fn lemma_shape_is_a_layer(env: Env, ty: Rc<Type>, fuel: u64)
    requires
        without_typedefs(ty),
    ensures
        without_typedefs(spec_whnf_within(env, ty, fuel)),
        value_layers(spec_whnf_within(env, ty, fuel)) <= value_layers(ty),
        !(spec_whnf_within(env, ty, fuel).val is Refine),
    decreases ty,
{
    match ty.val {
        TypeT::Refine(t, _) | TypeT::RefineAlways(t, _) | TypeT::RefineUninit(t, _) => lemma_shape_is_a_layer(env, t, fuel),
        TypeT::RefineValue(t, _, _, _) => lemma_shape_is_a_layer(env, t, fuel),
        TypeT::Plain(t) | TypeT::Nullable(t) => lemma_shape_is_a_layer(env, t, fuel),
        _ => {},
    }
}

/// A type without typedefs equals itself where the comparison goes as deep as its layers.
proof fn lemma_equals_itself(env: Env, ty: Rc<Type>, fuel: u64)
    requires
        without_typedefs(ty),
        value_layers(ty) <= fuel,
    ensures
        spec_vtype_eq_within(env, ty, ty, fuel),
    decreases fuel, 0nat,
{
    reveal(spec_vtype_whnf);
    reveal(spec_same_name);
    lemma_shape_is_a_layer(env, ty, spec_list_len(env.typedefs));
    crate::laws_types::law_shapes_are_plain(env, ty);
    let x = spec_vtype_whnf(env, ty);
    let less = spec_drop_one(fuel);
    match x.val {
        TypeT::Pointer(t, _) | TypeT::FixedArray(t, _) | TypeT::FlexArray(t) => lemma_equals_itself(env, t, less),
        TypeT::FnPtr { args, ret } => {
            assert(value_layers(ret) >= 1);
            lemma_equals_itself(env, ret, less);
            lemma_equal_themselves(env, args, less);
        },
        _ => {},
    }
}

/// The same for types.
proof fn lemma_equal_themselves(env: Env, l: Rc<List<Type>>, fuel: u64)
    requires
        all_without_typedefs(l),
        value_layers_of_all(l) < fuel,
    ensures
        spec_vtypes_eq_within(env, l, l, fuel),
    decreases fuel, 1nat, l,
{
    match *l {
        List::Nil => {},
        List::Cons(h, t) => {
            lemma_equals_itself(env, h, spec_drop_one(fuel));
            lemma_equal_themselves(env, t, fuel);
        },
    }
}

/// A type has the same values as itself.
pub proof fn law_types_have_their_own_values(env: Env, ty: Rc<Type>)
    requires
        without_typedefs(ty),
        value_layers(ty) < u64::MAX,
    ensures
        spec_vtype_eq(env, ty, ty),
{
    reveal(spec_vtype_eq);
    reveal(spec_bump);
    reveal(spec_plus);
    lemma_size_counts_layers(ty);
    let typedefs = spec_plus(spec_typedefs_size(env.typedefs), spec_typedefs_size(env.typedefs));
    lemma_equals_itself(env, ty, spec_bump(spec_plus(spec_plus(spec_type_size(ty), spec_type_size(ty)), typedefs)));
}

/// Whether an expression has the values of a type: its type is that type, or one with the same
/// values.
pub open spec fn is_at(env: Env, e: Rc<Expr>, ty: Rc<Type>) -> bool {
    spec_infer_expr(env, e) matches Some(t) && (t == ty || spec_vtype_eq(env, t, ty))
}

/// Whether an expression has values of a shape.
pub open spec fn has_shape(env: Env, e: Rc<Expr>, shape: TypeT) -> bool {
    spec_infer_expr(env, e) matches Some(t) && spec_vtype_whnf(env, t).val == shape
}

/// Whether an expression is another one, or that one cast to a type.
pub open spec fn is_cast_of(r: Rc<Expr>, e: Rc<Expr>, ty: TypeT) -> bool {
    r == e || (r.val matches ExprT::Cast(inner, t) && inner == e && t.val == ty && loc_of(r) == loc_of(e))
}

/// Whether an expression is another one, or that one cast to the given type.
pub open spec fn is_cast_to(r: Rc<Expr>, e: Rc<Expr>, ty: Rc<Type>) -> bool {
    r == e || (r.val matches ExprT::Cast(inner, t) && inner == e && t == ty && loc_of(r) == loc_of(e))
}

/// Whether a pointer to one object, or one of open kind, is given an array.
pub open spec fn gives_array(env: Env, target: Rc<Type>, value: Rc<Type>) -> bool {
    &&& spec_vtype_whnf(env, value).val matches TypeT::Pointer(_, k) && k == PointerKind::Array
    &&& spec_vtype_whnf(env, target).val matches TypeT::Pointer(_, j) && (j == PointerKind::Unknown || j == PointerKind::Ref)
}

/// A cast has the type that it is to.
proof fn lemma_cast_type(env: Env, e: Rc<Expr>, ty: Rc<Type>)
    ensures
        spec_infer_expr(env, spec_cast_expr(e, ty)) == Some(ty),
        is_cast_to(spec_cast_expr(e, ty), e, ty),
        spec_cast_expr(e, ty).val == ExprT::Cast(e, ty),
{
    reveal(spec_cast_expr);
    reveal(spec_mk_expr);
}

/// The shape of a type that is no refinement and no name is the type itself.
proof fn lemma_plain_shape(env: Env, loc: Loc, val: TypeT)
    requires
        val is SizeT || val is Bool || val is SLProp || val is SpecInt || val is Int,
    ensures
        spec_vtype_whnf(env, spec_mk_type(loc, val)).val == val,
        spec_mk_type(loc, val).val == val,
{
    reveal(spec_vtype_whnf);
    reveal(spec_mk_type);
}

/// The value of an assignment is converted to the type of its target: afterwards the two types have
/// the same values, unless the assignment makes an array of a pointer. Nothing but a cast to the type
/// of the target is put around the value.
pub proof fn law_assigned_values_have_the_type_of_their_target(env: Env, x: Rc<Expr>, v: Rc<Expr>, x_ty: Rc<Type>, v_ty: Rc<Type>)
    requires
        spec_infer_expr(env, x) == Some(x_ty),
        spec_infer_expr(env, v) == Some(v_ty),
    ensures
        is_cast_to(spec_cast_assigned(env, x, v), v, x_ty),
        gives_array(env, x_ty, v_ty) || is_at(env, spec_cast_assigned(env, x, v), x_ty),
        spec_vtype_eq(env, x_ty, x_ty) && !gives_array(env, x_ty, v_ty) ==> (spec_infer_expr(env, spec_cast_assigned(env, x, v)) matches Some(t) && spec_vtype_eq(env, t, x_ty)),
        gives_array(env, x_ty, v_ty) || spec_vtype_eq(env, v_ty, x_ty) ==> spec_cast_assigned(env, x, v) == v,
{
    reveal(spec_cast_assigned);
    reveal(spec_is_kind_refinement);
    lemma_cast_type(env, v, x_ty);
    crate::laws_types::law_type_equality_is_symmetric(env, x_ty, v_ty);
}

/// The target and the value of an assignment statement.
pub open spec fn assigned_parts(s: Rc<Stmt>) -> (Rc<Expr>, Rc<Expr>) {
    (s.val->Assign_0, s.val->Assign_1)
}

/// After elaboration the two sides of an assignment have types with the same values, wherever both
/// have a type and the assignment does not make an array of a pointer. The target is the elaborated
/// place, and the value is the elaborated value, elaborated where the target's type is expected.
pub proof fn law_elaborated_assignments_agree(st: Elaborator, env: Env, s: Rc<Stmt>, x: Rc<Expr>, v: Rc<Expr>)
    requires
        s.val == StmtT::Assign(x, v),
    ensures
        ({
            let (at_x, x2) = spec_elab_lvalue(st, env, x, u64::MAX);
            let (_, v2) = spec_elab_rvalue(at_x, env, v, spec_infer_expr(env, x2), u64::MAX);
            let r = spec_elab_stmt(st, env, s).1;
            let (y, w) = assigned_parts(r);
            &&& r.val is Assign
            &&& r.loc == s.loc
            &&& y == x2
            &&& match (spec_infer_expr(env, x2), spec_infer_expr(env, v2)) {
                (Some(x_ty), Some(v_ty)) => is_cast_to(w, v2, x_ty) && (gives_array(env, x_ty, v_ty) || is_at(env, w, x_ty)),
                _ => w == v2,
            }
        }),
{
    reveal(spec_elab_assign);
    reveal(spec_elab_simple_stmt);
    reveal(spec_mk_stmt);
    reveal(spec_any_depth);
    let (at_x, x2) = spec_elab_lvalue(st, env, x, u64::MAX);
    let (_, v2) = spec_elab_rvalue(at_x, env, v, spec_infer_expr(env, x2), u64::MAX);
    match (spec_infer_expr(env, x2), spec_infer_expr(env, v2)) {
        (Some(x_ty), Some(v_ty)) => law_assigned_values_have_the_type_of_their_target(env, x2, v2, x_ty, v_ty),
        _ => {
            reveal(spec_cast_assigned);
        },
    }
    assert(spec_elab_stmt(st, env, s) == spec_elab_simple_stmt(st, env, s));
}

/// A value at a type has that type, and is cast only where it has another.
pub proof fn law_values_are_cast_to_the_type_they_need(env: Env, e: Rc<Expr>, ty: Rc<Type>)
    ensures
        is_cast_to(spec_cast_if_needed(env, e, ty), e, ty),
        spec_infer_expr(env, e) is Some ==> is_at(env, spec_cast_if_needed(env, e, ty), ty),
        spec_infer_expr(env, e) matches Some(t) && spec_vtype_eq(env, t, ty) ==> spec_cast_if_needed(env, e, ty) == e,
        spec_infer_expr(env, e) is None ==> spec_cast_if_needed(env, e, ty) == e,
{
    reveal(spec_cast_if_needed);
    lemma_cast_type(env, e, ty);
}

/// A size is a `size_t`, and is cast only where it is none.
pub proof fn law_sizes_are_sizes(env: Env, e: Rc<Expr>)
    ensures
        is_cast_of(spec_as_size(env, e), e, TypeT::SizeT),
        spec_infer_expr(env, e) is Some ==> has_shape(env, spec_as_size(env, e), TypeT::SizeT),
        has_shape(env, e, TypeT::SizeT) ==> spec_as_size(env, e) == e,
{
    reveal(spec_as_size);
    reveal(spec_infer_whnf);
    lemma_cast_type(env, e, spec_mk_type(loc_of(e), TypeT::SizeT));
    lemma_plain_shape(env, loc_of(e), TypeT::SizeT);
}

/// A condition is a truth value, and is cast only where it is none.
pub proof fn law_conditions_are_truth_values(env: Env, e: Rc<Expr>)
    ensures
        is_cast_of(spec_as_bool(env, e), e, TypeT::Bool),
        has_shape(env, spec_as_bool(env, e), TypeT::Bool),
        has_shape(env, e, TypeT::Bool) ==> spec_as_bool(env, e) == e,
{
    reveal(spec_as_bool);
    reveal(spec_is_bool);
    lemma_cast_type(env, e, spec_mk_type(loc_of(e), TypeT::Bool));
    lemma_plain_shape(env, loc_of(e), TypeT::Bool);
}

/// A clause is a proposition, and is cast only where it is none.
pub proof fn law_clauses_are_propositions(env: Env, e: Rc<Expr>)
    ensures
        is_cast_of(spec_as_slprop(env, e), e, TypeT::SLProp),
        has_shape(env, spec_as_slprop(env, e), TypeT::SLProp),
        has_shape(env, e, TypeT::SLProp) ==> spec_as_slprop(env, e) == e,
{
    reveal(spec_as_slprop);
    reveal(spec_is_slprop);
    lemma_cast_type(env, e, spec_mk_type(loc_of(e), TypeT::SLProp));
    lemma_plain_shape(env, loc_of(e), TypeT::SLProp);
}

/// A measure is never a machine integer: one is cast to a mathematical integer, and nothing else is
/// changed.
pub proof fn law_measures_are_mathematical(env: Env, e: Rc<Expr>)
    ensures
        is_cast_of(spec_as_measure(env, e), e, TypeT::SpecInt),
        spec_infer_expr(env, spec_as_measure(env, e)) matches Some(t) ==> ({
            let shape = spec_vtype_whnf(env, t).val;
            !(shape is Int || shape is SizeT || shape is PtrdiffT)
        }),
        (spec_as_measure(env, e) == e) == (spec_infer_expr(env, e) matches Some(t) ==> ({
            let shape = spec_vtype_whnf(env, t).val;
            !(shape is Int || shape is SizeT || shape is PtrdiffT)
        })),
{
    reveal(spec_as_measure);
    reveal(spec_infer_whnf);
    lemma_cast_type(env, e, spec_mk_type(loc_of(e), TypeT::SpecInt));
    lemma_plain_shape(env, loc_of(e), TypeT::SpecInt);
    lemma_casts_are_larger(e, spec_mk_type(loc_of(e), TypeT::SpecInt));
}

/// An expression is never its own cast.
proof fn lemma_casts_are_larger(e: Rc<Expr>, ty: Rc<Type>)
    ensures
        spec_cast_expr(e, ty) != e,
{
    reveal(spec_cast_expr);
    reveal(spec_mk_expr);
    let c = spec_cast_expr(e, ty);
    if c == e {
        match e.val {
            ExprT::Cast(inner, _) => {
                assert(decreases_to!(e => inner));
                assert(inner == e);
            },
            _ => {},
        }
    }
}

/// The operands of an operation, or the branches of a choice, become values of one type.
pub proof fn law_operands_are_converted_to_one_type(env: Env, e: Rc<Expr>, op: BinOp, a: Rc<Expr>, b: Rc<Expr>, s: Rc<Type>, t: Rc<Type>, ty: Rc<Type>)
    requires
        e.val matches ExprT::BinOp(o, _, _) && o == op,
        spec_infer_expr(env, a) == Some(s),
        spec_infer_expr(env, b) == Some(t),
    ensures
        spec_convert_both(env, e, a, b, s, t, ty).val matches ExprT::BinOp(o, x, y) && {
            &&& o == op
            &&& is_at(env, x, ty)
            &&& is_at(env, y, ty)
            &&& is_cast_to(x, a, ty)
            &&& is_cast_to(y, b, ty)
        },
{
    reveal(spec_convert_both);
    reveal(spec_convert);
    reveal(spec_with_children);
    reveal(spec_mk_expr);
    lemma_cast_type(env, a, ty);
    lemma_cast_type(env, b, ty);
}

/// The branches of a conditional expression become values of their common type, wherever they have
/// one; without one they stay as they are.
pub proof fn law_branches_have_one_type(env: Env, e: Rc<Expr>, c: Rc<Expr>, a: Rc<Expr>, b: Rc<Expr>)
    requires
        e.val is Cond,
    ensures
        spec_unify_branches(env, e, c, a, b).val matches ExprT::Cond(c2, x, y) && c2 == c && (match (spec_infer_expr(env, a), spec_infer_expr(env, b)) {
            (Some(s), Some(t)) => match spec_meet_type(env, s, t) {
                Some(m) => is_at(env, x, m) && is_at(env, y, m) && is_cast_to(x, a, m) && is_cast_to(y, b, m),
                None => x == a && y == b,
            },
            _ => x == a && y == b,
        }),
{
    reveal(spec_unify_branches);
    reveal(spec_convert);
    reveal(spec_with_three);
    reveal(spec_mk_expr);
    match (spec_infer_expr(env, a), spec_infer_expr(env, b)) {
        (Some(s), Some(t)) => match spec_meet_type(env, s, t) {
            Some(m) => {
                lemma_cast_type(env, a, m);
                lemma_cast_type(env, b, m);
            },
            None => {},
        },
        _ => {},
    }
}

/// An argument has the shape of its parameter.
pub proof fn law_arguments_have_the_shape_of_their_parameter(env: Env, e: Rc<Expr>, param: Rc<Type>)
    ensures
        is_cast_to(spec_cast_arg(env, e, Some(param)), e, spec_vtype_whnf(env, param)),
        spec_infer_expr(env, e) is Some ==> is_at(env, spec_cast_arg(env, e, Some(param)), spec_vtype_whnf(env, param)),
        spec_cast_arg(env, e, None) == e,
{
    reveal(spec_cast_arg);
    law_values_are_cast_to_the_type_they_need(env, e, spec_vtype_whnf(env, param));
}

/// The value that a statement returns, if it returns one.
pub open spec fn returned_value(s: Rc<Stmt>) -> Rc<Expr> {
    s.val->Return_0->Some_0
}

/// A returned value has the type that its function returns.
pub proof fn law_returned_values_have_the_return_type(st: Elaborator, env: Env, s: Rc<Stmt>, e: Rc<Expr>, ty: Rc<Type>)
    requires
        s.val == StmtT::Return(Some(e)),
        env.return_type == Some(ty),
    ensures
        ({
            let v = spec_elab_rvalue(st, env, e, Some(ty), u64::MAX).1;
            let r = spec_elab_stmt(st, env, s).1;
            &&& r.val matches StmtT::Return(Some(_))
            &&& is_cast_to(returned_value(r), v, ty)
            &&& spec_infer_expr(env, v) is Some ==> is_at(env, returned_value(r), ty)
        }),
{
    reveal(spec_elab_simple_stmt);
    reveal(spec_mk_stmt);
    reveal(spec_any_depth);
    reveal(spec_cast_to_opt);
    let v = spec_elab_rvalue(st, env, e, Some(ty), u64::MAX).1;
    law_values_are_cast_to_the_type_they_need(env, v, ty);
    assert(spec_elab_stmt(st, env, s) == spec_elab_simple_stmt(st, env, s));
}

/// The type and the value of a definition.
pub open spec fn defined_parts(s: Rc<Stmt>) -> (Rc<Ident>, Rc<Type>, Rc<Expr>) {
    (s.val->Let_0, s.val->Let_1, s.val->Let_2)
}

/// A defined value has the type of its definition.
pub proof fn law_defined_values_have_their_type(st: Elaborator, env: Env, s: Rc<Stmt>, x: Rc<Ident>, ty: Rc<Type>, e: Rc<Expr>)
    requires
        s.val == StmtT::Let(x, ty, e),
    ensures
        ({
            let (at_e, t) = spec_elab_type(st, env, ty, u64::MAX);
            let v = spec_elab_rvalue(at_e, env, e, Some(t), u64::MAX).1;
            let r = spec_elab_stmt(st, env, s).1;
            let (y, u, w) = defined_parts(r);
            &&& r.val is Let
            &&& y == x
            &&& u == t
            &&& is_cast_to(w, v, t)
            &&& spec_infer_expr(env, v) is Some ==> is_at(env, w, t)
        }),
{
    reveal(spec_elab_simple_stmt);
    reveal(spec_mk_stmt);
    reveal(spec_any_depth);
    let (at_e, t) = spec_elab_type(st, env, ty, u64::MAX);
    let v = spec_elab_rvalue(at_e, env, e, Some(t), u64::MAX).1;
    law_values_are_cast_to_the_type_they_need(env, v, t);
    assert(spec_elab_stmt(st, env, s) == spec_elab_simple_stmt(st, env, s));
    assert(spec_elab_at(at_e, env, e, t, u64::MAX).1 == spec_cast_if_needed(env, v, t));
}

/// Every clause of a list becomes a proposition: one clause for each, in order, each the elaboration
/// of its own.
pub proof fn law_every_clause_becomes_a_proposition(st: Elaborator, env: Env, l: Rc<List<Expr>>)
    ensures
        ({
            let r = spec_elab_slprops(st, env, l).1.items();
            &&& r.len() == l.items().len()
            &&& forall|i: int| 0 <= i < r.len() ==> has_shape(env, #[trigger] r[i], TypeT::SLProp) && elaborates(env, l.items()[i], r[i])
        }),
    decreases l,
{
    match *l {
        List::Nil => {},
        List::Cons(h, t) => {
            reveal(spec_any_depth);
            let (at_t, d) = spec_elab_slprop(st, env, h, u64::MAX);
            law_every_clause_becomes_a_proposition(at_t, env, t);
            lemma_elab_slprop(st, env, h, u64::MAX);
            let r = spec_elab_slprops(st, env, l).1.items();
            let rest = spec_elab_slprops(at_t, env, t).1.items();
            assert(r =~= seq![d] + rest);
            assert forall|i: int| 0 <= i < r.len() implies has_shape(env, #[trigger] r[i], TypeT::SLProp) && elaborates(env, l.items()[i], r[i]) by {
                if i > 0 {
                    assert(r[i] == rest[i - 1]);
                    assert(l.items()[i] == t.items()[i - 1]);
                }
            }
        },
    }
}

/// Whether a clause is what elaboration makes of another one where a proposition is expected, cast to
/// a proposition at most.
pub open spec fn elaborates(env: Env, e: Rc<Expr>, r: Rc<Expr>) -> bool {
    exists|st: Elaborator, ty: Rc<Type>|
        ty.val == TypeT::SLProp && is_cast_of(r, (#[trigger] spec_elab_rvalue(st, env, e, Some(ty), u64::MAX)).1, TypeT::SLProp)
}

/// The elaborated proposition is one.
proof fn lemma_elab_slprop(st: Elaborator, env: Env, p: Rc<Expr>, fuel: u64)
    requires
        fuel == u64::MAX,
    ensures
        has_shape(env, spec_elab_slprop(st, env, p, fuel).1, TypeT::SLProp),
        elaborates(env, p, spec_elab_slprop(st, env, p, fuel).1),
{
    reveal(spec_mk_type);
    let ty = spec_mk_type(loc_of(p), TypeT::SLProp);
    let r = spec_elab_rvalue(st, env, p, Some(ty), fuel).1;
    law_clauses_are_propositions(env, r);
    assert(spec_elab_slprop(st, env, p, fuel).1 == spec_as_slprop(env, r));
    assert(ty.val == TypeT::SLProp);
}

/// The parts of a conditional statement.
pub open spec fn branch_parts(s: Rc<Stmt>) -> (Rc<Expr>, Rc<List<Stmt>>, Rc<List<Stmt>>, Rc<List<Expr>>) {
    (s.val->If_cond, s.val->If_then_branch, s.val->If_else_branch, s.val->If_ensures_)
}

/// The parts of a loop.
pub open spec fn loop_parts(s: Rc<Stmt>) -> (Rc<Expr>, Rc<List<Expr>>, Rc<List<Expr>>, Rc<List<Expr>>, Rc<List<Stmt>>) {
    (s.val->While_cond, s.val->While_inv, s.val->While_requires_, s.val->While_ensures_, s.val->While_body)
}

/// The condition of a conditional statement and of a loop is a truth value after elaboration.
pub proof fn law_branch_and_loop_conditions_are_truth_values(st: Elaborator, env: Env, s: Rc<Stmt>)
    requires
        s.val is If || s.val is While,
    ensures
        s.val is If ==> spec_elab_stmt(st, env, s).1.val is If && has_shape(env, branch_parts(spec_elab_stmt(st, env, s).1).0, TypeT::Bool),
        s.val is While ==> spec_elab_stmt(st, env, s).1.val is While && has_shape(env, loop_parts(spec_elab_stmt(st, env, s).1).0, TypeT::Bool),
{
    reveal(spec_mk_stmt);
    reveal(spec_any_depth);
    match s.val {
        StmtT::If { cond, then_branch, else_branch, ensures_ } => {
            let ty = spec_mk_type(loc_of(cond), TypeT::Bool);
            let r = spec_elab_rvalue(st, env, cond, Some(ty), u64::MAX).1;
            law_conditions_are_truth_values(env, r);
            assert(spec_elab_bool(st, env, cond, u64::MAX).1 == spec_as_bool(env, r));
        },
        StmtT::While { cond, inv, requires_, ensures_, body } => {
            let ty = spec_mk_type(loc_of(cond), TypeT::Bool);
            let r = spec_elab_rvalue(st, env, cond, Some(ty), u64::MAX).1;
            law_conditions_are_truth_values(env, r);
            assert(spec_elab_bool(st, env, cond, u64::MAX).1 == spec_as_bool(env, r));
        },
        _ => {},
    }
}

/// The index of an array is a `size_t` after elaboration, and the arguments of a call have the shapes
/// of the parameters.
pub proof fn law_indices_are_sizes(st: Elaborator, env: Env, e: Rc<Expr>, arr: Rc<Expr>, idx: Rc<Expr>, expected: Option<Rc<Type>>, fuel: u64)
    requires
        e.val == ExprT::Index(arr, idx),
        fuel > 0,
    ensures
        ({
            let less = (fuel - 1) as u64;
            let (at_idx, a) = spec_elab_rvalue(st, env, arr, None, less);
            let i = spec_elab_rvalue(at_idx, env, idx, None, less).1;
            spec_elab_rvalue(st, env, e, expected, fuel).1.val matches ExprT::Index(b, j) && {
                &&& b == a
                &&& is_cast_of(j, i, TypeT::SizeT)
                &&& spec_infer_expr(env, i) is Some ==> has_shape(env, j, TypeT::SizeT)
            }
        }),
{
    reveal(spec_with_children);
    reveal(spec_mk_expr);
    let less = spec_drop_one(fuel);
    let (at_idx, a) = spec_elab_rvalue(st, env, arr, None, less);
    let i = spec_elab_rvalue(at_idx, env, idx, None, less).1;
    law_sizes_are_sizes(env, i);
    assert(spec_elab_rvalue(st, env, e, expected, fuel) == spec_elab_node(st, env, e, expected, less));
    assert(spec_elab_node(st, env, e, expected, less) == spec_elab_compound(st, env, e, expected, less));
    assert(spec_elab_size(at_idx, env, idx, less).1 == spec_as_size(env, i));
}

/// The value that an expression assigns has the type of its target.
pub proof fn law_assigning_expressions_agree(st: Elaborator, env: Env, e: Rc<Expr>, x: Rc<Expr>, v: Rc<Expr>, expected: Option<Rc<Type>>, fuel: u64)
    requires
        e.val == ExprT::AssignExpr(x, v),
        fuel > 0,
    ensures
        ({
            let less = (fuel - 1) as u64;
            let (at_v, x2) = spec_elab_lvalue(st, env, x, less);
            let v2 = spec_elab_rvalue(at_v, env, v, spec_infer_expr(env, x2), less).1;
            spec_elab_rvalue(st, env, e, expected, fuel).1.val matches ExprT::AssignExpr(y, w) && y == x2 && (match spec_infer_expr(env, x2) {
                Some(t) => is_cast_to(w, v2, t) && (spec_infer_expr(env, v2) is Some ==> is_at(env, w, t)),
                None => w == v2,
            })
        }),
{
    reveal(spec_with_children);
    reveal(spec_mk_expr);
    let less = spec_drop_one(fuel);
    let (at_v, x2) = spec_elab_lvalue(st, env, x, less);
    let v2 = spec_elab_rvalue(at_v, env, v, spec_infer_expr(env, x2), less).1;
    match spec_infer_expr(env, x2) {
        Some(t) => law_values_are_cast_to_the_type_they_need(env, v2, t),
        None => {},
    }
    assert(spec_elab_rvalue(st, env, e, expected, fuel) == spec_elab_node(st, env, e, expected, less));
    assert(spec_elab_node(st, env, e, expected, less) == spec_elab_compound(st, env, e, expected, less));
}

/// Whether an argument has the shape of its parameter, if it has a type.
pub open spec fn argument_fits(env: Env, param: Rc<Type>, arg: Rc<Expr>) -> bool {
    spec_infer_expr(env, arg) is Some ==> is_at(env, arg, spec_vtype_whnf(env, param))
}

/// Whether the arguments of a call have the shapes of the parameters, as far as there are parameters.
pub open spec fn arguments_fit(env: Env, params: Seq<Rc<Type>>, args: Seq<Rc<Expr>>) -> bool {
    forall|i: int|
        0 <= i < args.len() && i < params.len() ==> argument_fits(env, params[i], #[trigger] args[i])
}

/// Elaborated arguments have the shapes of their parameters, and there are as many as before.
pub proof fn law_elaborated_arguments_fit(st: Elaborator, env: Env, params: Rc<List<Type>>, l: Rc<List<Expr>>, fuel: u64)
    ensures
        spec_elab_args_at(st, env, params, l, fuel).1.items().len() == l.items().len(),
        arguments_fit(env, params.items(), spec_elab_args_at(st, env, params, l, fuel).1.items()),
    decreases l,
{
    match *l {
        List::Nil => {},
        List::Cons(h, t) => {
            reveal(spec_first_type);
            reveal(spec_later_types);
            let p = spec_first_type(params);
            let (at_t, d) = spec_elab_rvalue(st, env, h, p, fuel);
            let c = spec_cast_arg(env, d, p);
            let rest = spec_elab_args_at(at_t, env, spec_later_types(params), t, fuel).1;
            law_elaborated_arguments_fit(at_t, env, spec_later_types(params), t, fuel);
            let r = spec_elab_args_at(st, env, params, l, fuel).1.items();
            assert(r =~= seq![c] + rest.items());
            match *params {
                List::Nil => {},
                List::Cons(q, qs) => {
                    law_arguments_have_the_shape_of_their_parameter(env, d, q);
                    assert(params.items() =~= seq![q] + qs.items());
                    reveal(spec_cast_arg);
                    reveal(spec_cast_if_needed);
                    assert forall|i: int| 0 <= i < r.len() && i < params.items().len() implies argument_fits(env, params.items()[i], #[trigger] r[i]) by {
                        if i > 0 {
                            assert(r[i] == rest.items()[i - 1]);
                            assert(params.items()[i] == qs.items()[i - 1]);
                        }
                    }
                },
            }
        },
    }
}

/// A declared name is found with its type and kind, and hides what was declared by its name before;
/// every other name stays what it was. Nothing else of the scope changes.
pub proof fn law_declared_names_are_found(env: Env, name: Text, ty: Rc<Type>, kind: LocalDeclKind, x: Rc<Ident>)
    ensures
        ({
            let env2 = spec_push_local(env, name, ty, kind);
            &&& ident_text(x).chars() == name.chars() ==> (spec_lookup_var(env2, x) matches Some(d) && d.ty == ty && d.kind == kind && d.name == name)
            &&& ident_text(x).chars() != name.chars() ==> spec_lookup_var(env2, x) == spec_lookup_var(env, x)
            &&& env2 == (Env { locals: env2.locals, ..env })
        }),
{
    reveal(spec_push_local);
    reveal(spec_with_locals);
    reveal(spec_clone_opt_type);
    reveal(spec_lookup_var);
}

/// A variable, `this` and the returned value are names of the scope.
pub proof fn law_names_of_the_scope(env: Env, n: Rc<Ident>, ty: Rc<Type>, kind: LocalDeclKind)
    ensures
        spec_push_var_decl(env, n, ty, kind) == spec_push_local(env, ident_text(n), ty, kind),
        spec_push_this(env, ty) == spec_push_local(env, spec_lit("this"), ty, LocalDeclKind::RValue),
        spec_push_return(env, ty) == spec_push_local(env, spec_lit("return"), ty, LocalDeclKind::RValue),
{
    reveal(spec_push_var_decl);
    reveal(spec_push_this);
    reveal(spec_push_return);
}

/// A parameter is in scope by its name, if it has one.
pub proof fn law_parameters_are_in_scope(env: Env, arg: Rc<FnArg>, kind: LocalDeclKind)
    ensures
        spec_push_arg(env, arg, kind) == (match arg.name {
            Some(n) => spec_push_local(env, n.val, arg.ty, kind),
            None => env,
        }),
{
    reveal(spec_push_arg);
    reveal(spec_push_var_decl);
    reveal(spec_clone_env);
    reveal(spec_with_locals);
    reveal(spec_clone_opt_type);
}

/// A copy of a scope is the scope.
pub proof fn law_copies_of_scopes(env: Env)
    ensures
        spec_clone_env(env) == env,
{
    reveal(spec_clone_env);
    reveal(spec_with_locals);
    reveal(spec_clone_opt_type);
}

/// A loop is entered, and a function's body is one that returns the function's type and stands in no
/// loop. Nothing else of the scope changes.
pub proof fn law_loops_and_bodies(env: Env, ty: Rc<Type>)
    ensures
        spec_enter_loop(env) == (Env { in_loop: true, ..env }),
        spec_with_return_type(env, ty) == (Env { return_type: Some(ty), in_loop: false, ..env }),
{
    reveal(spec_enter_loop);
    reveal(spec_with_return_type);
    law_copies_of_scopes(env);
}

/// The body of a function is in the scope of its ghost parameters, which are values, and of its
/// parameters, which are places.
pub proof fn law_scopes_of_bodies(env: Env, decl: Rc<FnDecl>)
    ensures
        spec_push_fn_decl_args_for_body(env, decl) == (Env {
            return_type: Some(decl.ret_type),
            in_loop: false,
            ..spec_push_args(spec_push_ghost_args(env, decl.ghost_args), decl.args, LocalDeclKind::LValue)
        }),
{
    reveal(spec_push_fn_decl_args_for_body);
    law_loops_and_bodies(spec_push_args(spec_push_ghost_args(env, fn_ghost_args(decl)), fn_args(decl), LocalDeclKind::LValue), fn_result(decl));
}

/// Parameters are in scope one after the other, in order.
pub proof fn law_parameters_in_order(env: Env, a: Rc<FnArg>, t: Rc<List<FnArg>>, g: Rc<GhostArg>, u: Rc<List<GhostArg>>, kind: LocalDeclKind)
    ensures
        spec_push_args(env, Rc::new(List::Cons(a, t)), kind) == spec_push_args(spec_push_arg(env, a, kind), t, kind),
        spec_push_args(env, Rc::new(List::Nil), kind) == env,
        spec_push_ghost_args(env, Rc::new(List::Cons(g, u))) == spec_push_ghost_args(spec_push_local(env, g.name.val, g.ty, LocalDeclKind::RValue), u),
        spec_push_ghost_args(env, Rc::new(List::Nil)) == env,
{
    law_copies_of_scopes(env);
    reveal(spec_push_var_decl);
}

/// After a statement the variables that it declares are in scope: a variable as a place, a constant as
/// a value, an array on the stack as an array, and what inline code declares.
pub proof fn law_scopes_after_statements(env: Env, s: Rc<Stmt>)
    ensures
        match s.val {
            StmtT::Decl(x, ty) => spec_push_stmt(env, s) == spec_push_local(env, x.val, ty, LocalDeclKind::LValue),
            StmtT::Let(x, ty, _) => spec_push_stmt(env, s) == spec_push_local(env, x.val, ty, LocalDeclKind::RValue),
            StmtT::DeclStackArray { name, elem_type, size: _ } => exists|ty: Rc<Type>|
                ty.val == TypeT::Pointer(elem_type, PointerKind::Array) && spec_push_stmt(env, s) == #[trigger] spec_push_local(env, name.val, ty, LocalDeclKind::LValue),
            StmtT::GhostStmt(code) => spec_push_stmt(env, s) == spec_push_declared(env, code.tokens),
            _ => spec_push_stmt(env, s) == env,
        },
{
    reveal(spec_push_stmt);
    reveal(spec_push_var_decl);
    reveal(spec_mk_type);
    law_copies_of_scopes(env);
}

/// What inline code declares is in scope as a value, in order.
pub proof fn law_scopes_after_inline_code(env: Env, tok: Rc<InlinePulseToken>, t: Rc<List<InlinePulseToken>>)
    ensures
        spec_push_declared(env, Rc::new(List::Nil)) == env,
        spec_push_declared(env, Rc::new(List::Cons(tok, t))) == (match *tok {
            InlinePulseToken::Declare { ident, ty } => spec_push_declared(spec_push_local(env, ident.val, ty, LocalDeclKind::RValue), t),
            _ => spec_push_declared(env, t),
        }),
{
    law_copies_of_scopes(env);
    reveal(spec_push_var_decl);
}

/// A declaration is found by its name, and hides what was declared by that name before; every other
/// name stays what it was.
pub proof fn law_declarations_are_found(env: Env, d: Rc<Decl>, x: Rc<Ident>)
    ensures
        ({
            let env2 = spec_push_decl(env, d);
            &&& spec_lookup_fn(env2, x) == (match d.val {
                DeclT::FnDefn(f) if named_alike(f.decl.name, x) => Some(f.decl),
                DeclT::FnDecl(f) if named_alike(f.name, x) => Some(f),
                DeclT::LetDecl(l) if named_alike(l.name, x) => Some(spec_let_signature(l)),
                _ => spec_lookup_fn(env, x),
            })
            &&& spec_lookup_struct(env2, x) == (match d.val {
                DeclT::StructDefn(s) if named_alike(s.name, x) => Some(s),
                _ => spec_lookup_struct(env, x),
            })
            &&& spec_lookup_union(env2, x) == (match d.val {
                DeclT::UnionDefn(u) if named_alike(u.name, x) => Some(u),
                _ => spec_lookup_union(env, x),
            })
            &&& spec_find_global(env2.globals, x) == (match d.val {
                DeclT::GlobalVar(g) if named_alike(g.name, x) => Some(g),
                _ => spec_find_global(env.globals, x),
            })
            &&& spec_find_typedef(env2.typedefs, x) == (match d.val {
                DeclT::Typedef(t) if named_alike(t.name, x) => Some(t),
                _ => spec_find_typedef(env.typedefs, x),
            })
            &&& env2.locals == env.locals
            &&& env2.return_type == env.return_type
            &&& env2.in_loop == env.in_loop
        }),
{
    reveal(spec_push_decl);
    reveal(spec_push_fn_decl);
    reveal(spec_push_typedef);
    reveal(spec_push_struct);
    reveal(spec_push_union);
    reveal(spec_lookup_fn);
    reveal(spec_lookup_struct);
    reveal(spec_lookup_union);
    reveal(spec_let_signature);
    reveal(spec_same_name);
    law_copies_of_scopes(env);
    match d.val {
        DeclT::Typedef(t) => lemma_put_typedef(typedefs_of(env), t, x),
        _ => {},
    }
}

/// The typedefs of a scope.
pub open spec fn typedefs_of(env: Env) -> Rc<List<TypeDefn>> {
    env.typedefs
}

/// The name of a typedef.
pub open spec fn typedef_ident(d: Rc<TypeDefn>) -> Rc<Ident> {
    d.name
}

/// A typedef is found by its name, and takes the place of one of its name.
proof fn lemma_put_typedef(l: Rc<List<TypeDefn>>, d: Rc<TypeDefn>, x: Rc<Ident>)
    ensures
        spec_find_typedef(spec_put_typedef(l, d), x) == (if named_alike(d.name, x) {
            Some(d)
        } else {
            spec_find_typedef(l, x)
        }),
{
    reveal(spec_put_typedef);
    reveal(spec_same_name);
    lemma_replace_typedef(l, d, x);
}

/// A typedef that takes the place of one of its name.
proof fn lemma_replace_typedef(l: Rc<List<TypeDefn>>, d: Rc<TypeDefn>, x: Rc<Ident>)
    ensures
        spec_find_typedef(l, d.name) is Some && named_alike(d.name, x) ==> spec_find_typedef(spec_replace_typedef(l, d), x) == Some(d),
        !named_alike(d.name, x) ==> spec_find_typedef(spec_replace_typedef(l, d), x) == spec_find_typedef(l, x),
    decreases l,
{
    reveal(spec_same_name);
    match *l {
        List::Nil => {},
        List::Cons(h, t) => lemma_replace_typedef(t, d, x),
    }
}

/// A specification function is called as a function with its parameters, contract and result.
pub proof fn law_specification_functions_can_be_called(l: Rc<LetDecl>)
    ensures
        ({
            let f = spec_let_signature(l);
            &&& f.name == l.name
            &&& f.args == l.params
            &&& f.ret_type == l.ret_type
            &&& f.requires_ == l.requires_
            &&& f.ensures_ == l.ensures_
            &&& f.ghost_args.items().len() == 0
            &&& f.is_pure
            &&& f.is_rec == l.is_rec
            &&& f.decreases_ is None
        }),
{
    reveal(spec_let_signature);
}

/// The type of an expression.
pub open spec fn type_of(env: Env, e: Rc<Expr>) -> Option<Rc<Type>> {
    spec_infer_expr(env, e)
}

/// The shape of an expression's type.
pub open spec fn shape_of(env: Env, e: Rc<Expr>) -> Option<TypeT> {
    match spec_infer_expr(env, e) {
        Some(t) => Some(spec_vtype_whnf(env, t).val),
        None => None,
    }
}

/// Whether an expression has a type of exactly the given form.
pub open spec fn typed_as(env: Env, e: Rc<Expr>, form: TypeT) -> bool {
    spec_infer_expr(env, e) matches Some(t) && t.val == form
}

/// What a pointer or an array holds.
pub open spec fn held_by(shape: TypeT) -> Option<Rc<Type>> {
    match shape {
        TypeT::Pointer(to, _) => Some(to),
        TypeT::FixedArray(elem, _) => Some(elem),
        TypeT::FlexArray(elem) => Some(elem),
        _ => None,
    }
}

/// The type of a variable is that of its declaration: of a local name before a global one.
pub proof fn law_types_of_variables(env: Env, e: Rc<Expr>, x: Rc<Ident>)
    requires
        e.val == ExprT::Var(x),
    ensures
        type_of(env, e) == (match spec_lookup_var(env, x) {
            Some(d) => Some(d.ty),
            None => match spec_find_global(env.globals, x) {
                Some(g) => Some(g.ty),
                None => None,
            },
        }),
{
    reveal(spec_lookup_global_var);
}

/// What is read through an address has the type that it has in its place.
pub proof fn law_addresses_lead_back(env: Env, e: Rc<Expr>, r: Rc<Expr>, a: Rc<Expr>)
    requires
        e.val == ExprT::Deref(r),
        r.val == ExprT::Ref(a),
    ensures
        type_of(env, e) == type_of(env, a),
        type_of(env, a) matches Some(t) ==> typed_as(env, r, TypeT::Pointer(t, PointerKind::Ref)),
{
    reveal(spec_pointee);
    reveal(spec_mk_type);
    reveal(spec_vtype_whnf);
    let t = spec_infer_expr(env, r);
}

/// What a pointer points to, and an element of an array, have the type that the pointer or array holds.
pub proof fn law_types_of_elements(env: Env, e: Rc<Expr>, a: Rc<Expr>)
    requires
        e.val == ExprT::Deref(a) || (e.val matches ExprT::Index(b, _) && b == a),
    ensures
        type_of(env, e) == (match shape_of(env, a) {
            Some(x) => held_by(x),
            None => None,
        }),
{
    reveal(spec_pointee);
}

/// A field has the type that its record declares it with.
pub proof fn law_types_of_fields(env: Env, e: Rc<Expr>, a: Rc<Expr>, f: Rc<Ident>)
    requires
        e.val == ExprT::Member(a, f),
    ensures
        type_of(env, e) == (match shape_of(env, a) {
            Some(x) => match fields_of_shape(env, x) {
                Some(fields) => match spec_find_field(fields, f) {
                    Some(d) => Some(spec_field_type(d)),
                    None => None,
                },
                None => None,
            },
            None => None,
        }),
{
    reveal(spec_member_type);
}

/// Literals, casts and inline code have the type that they are given.
pub proof fn law_given_types(env: Env, e: Rc<Expr>)
    ensures
        match e.val {
            ExprT::IntLit(_, t) => type_of(env, e) == Some(t),
            ExprT::FloatLit(_, t) => type_of(env, e) == Some(t),
            ExprT::Cast(_, t) => type_of(env, e) == Some(t),
            ExprT::InlinePulse(_, t) => type_of(env, e) == Some(t),
            ExprT::Error(t) => type_of(env, e) == Some(t),
            ExprT::BoolLit(_) => typed_as(env, e, TypeT::Bool),
            ExprT::SizeOf(_) => typed_as(env, e, TypeT::SizeT),
            ExprT::AlignOf(_) => typed_as(env, e, TypeT::SizeT),
            ExprT::Live(_) => typed_as(env, e, TypeT::SLProp),
            ExprT::VAttr(VAttr::Length, _) => typed_as(env, e, TypeT::SpecNat),
            ExprT::VAttr(VAttr::Active(_), _) => typed_as(env, e, TypeT::Bool),
            ExprT::UnOp(UnOp::Not, _) => typed_as(env, e, TypeT::Bool),
            ExprT::Malloc(t) => typed_as(env, e, TypeT::Pointer(t, PointerKind::Ref)),
            ExprT::Calloc(t) => typed_as(env, e, TypeT::Pointer(t, PointerKind::Ref)),
            ExprT::MallocFlex(t, _) => typed_as(env, e, TypeT::Pointer(t, PointerKind::Ref)),
            ExprT::CallocFlex(t, _) => typed_as(env, e, TypeT::Pointer(t, PointerKind::Ref)),
            ExprT::MallocArray(t, _) => typed_as(env, e, TypeT::Pointer(t, PointerKind::Array)),
            ExprT::CallocArray(t, _) => typed_as(env, e, TypeT::Pointer(t, PointerKind::Array)),
            ExprT::ContainerOf(_, t, _) => typed_as(env, e, TypeT::Pointer(t, PointerKind::Ref)),
            ExprT::Memset(_, _, _, _) => typed_as(env, e, TypeT::Void),
            ExprT::MemsetZero(_, _) => typed_as(env, e, TypeT::Void),
            ExprT::Free(_) => typed_as(env, e, TypeT::Void),
            ExprT::StructInit(n, _) => typed_as(env, e, TypeT::TypeRef(TypeRefKind::Struct(n))),
            ExprT::UnionInit(n, _, _) => typed_as(env, e, TypeT::TypeRef(TypeRefKind::Union(n))),
            ExprT::ArrayInit { elem_ty, elems, is_static: _ } => typed_as(env, e, TypeT::FixedArray(elem_ty, spec_list_len(elems))),
            _ => true,
        },
{
    reveal(spec_mk_type);
}

/// What keeps the type of an operand: a negation, an old value, an increment, and an assignment and a
/// choice, which have the type of their first value.
pub proof fn law_kept_types(env: Env, e: Rc<Expr>)
    ensures
        match e.val {
            ExprT::UnOp(UnOp::Neg, a) => type_of(env, e) == type_of(env, a),
            ExprT::UnOp(UnOp::BitNot, a) => type_of(env, e) == type_of(env, a),
            ExprT::Old(a) => type_of(env, e) == type_of(env, a),
            ExprT::PreIncr(a) => type_of(env, e) == type_of(env, a),
            ExprT::PostIncr(a) => type_of(env, e) == type_of(env, a),
            ExprT::PreDecr(a) => type_of(env, e) == type_of(env, a),
            ExprT::PostDecr(a) => type_of(env, e) == type_of(env, a),
            ExprT::AssignExpr(a, _) => type_of(env, e) == type_of(env, a),
            ExprT::Cond(_, a, _) => type_of(env, e) == type_of(env, a),
            ExprT::Forall(x, t, b) => type_of(env, e) == type_of(spec_push_var_decl(env, x, t, LocalDeclKind::RValue), b),
            ExprT::Exists(x, t, b) => type_of(env, e) == type_of(spec_push_var_decl(env, x, t, LocalDeclKind::RValue), b),
            _ => true,
        },
{
}

/// A call has the type that its function returns, and a function the type of pointers to it.
pub proof fn law_types_of_calls(env: Env, e: Rc<Expr>)
    ensures
        e.val matches ExprT::FnCall(f, _) ==> type_of(env, e) == (match spec_lookup_fn(env, f) {
            Some(d) => Some(d.ret_type),
            None => None,
        }),
        e.val matches ExprT::FnRef(f) ==> (match spec_lookup_fn(env, f) {
            Some(d) => typed_as(env, e, (TypeT::FnPtr { args: spec_arg_types(d.args), ret: d.ret_type })),
            None => type_of(env, e) is None,
        }),
        e.val matches ExprT::FnPtrCall(f, _) ==> type_of(env, e) == (match shape_of(env, f) {
            Some(TypeT::FnPtr { args: _, ret }) => Some(ret),
            _ => None,
        }),
{
    reveal(spec_call_type);
    reveal(spec_mk_type);
}

/// The parameter types of a function are those of its parameters, in order.
pub proof fn law_types_of_parameters(l: Rc<List<FnArg>>)
    ensures
        spec_arg_types(l).items().len() == l.items().len(),
        forall|i: int| 0 <= i < l.items().len() ==> spec_arg_types(l).items()[i] == (#[trigger] l.items()[i]).ty,
    decreases l,
{
    match *l {
        List::Nil => {},
        List::Cons(h, t) => {
            law_types_of_parameters(t);
            assert forall|i: int| 0 <= i < l.items().len() implies spec_arg_types(l).items()[i] == (#[trigger] l.items()[i]).ty by {
                if i > 0 {
                    assert(l.items()[i] == t.items()[i - 1]);
                    assert(spec_arg_types(l).items()[i] == spec_arg_types(t).items()[i - 1]);
                }
            }
        },
    }
}

/// What a pointer into an array points to.
pub open spec fn cell_of(shape: TypeT) -> Option<Rc<Type>> {
    match shape {
        TypeT::Pointer(to, PointerKind::Array) => Some(to),
        TypeT::Pointer(to, PointerKind::ArrayPtr) => Some(to),
        _ => None,
    }
}

/// Comparisons are truth values; a pointer into an array and a number give a place in the array, two
/// such pointers their distance; any other operation has the type of its first operand.
pub proof fn law_types_of_operations(env: Env, e: Rc<Expr>, op: BinOp, a: Rc<Expr>, b: Rc<Expr>, s: Rc<Type>, t: Rc<Type>)
    requires
        e.val == ExprT::BinOp(op, a, b),
        type_of(env, a) == Some(s),
        type_of(env, b) == Some(t),
    ensures
        ({
            let left = cell_of(spec_vtype_whnf(env, s).val);
            let right = cell_of(spec_vtype_whnf(env, t).val);
            match op {
                BinOp::Eq | BinOp::LEq | BinOp::Lt => typed_as(env, e, TypeT::Bool),
                BinOp::Add => match (left, right) {
                    (Some(to), _) => typed_as(env, e, TypeT::Pointer(to, PointerKind::ArrayPtr)),
                    (None, Some(to)) => typed_as(env, e, TypeT::Pointer(to, PointerKind::ArrayPtr)),
                    (None, None) => type_of(env, e) == Some(s),
                },
                BinOp::Sub => match (left, right) {
                    (Some(_), Some(_)) => typed_as(env, e, TypeT::PtrdiffT),
                    (Some(to), None) => typed_as(env, e, TypeT::Pointer(to, PointerKind::ArrayPtr)),
                    (None, _) => type_of(env, e) == Some(s),
                },
                _ => type_of(env, e) == Some(s),
            }
        }),
{
    reveal(spec_binop_type);
    reveal(spec_array_elem);
    reveal(spec_mk_type);
    reveal(spec_clone_opt_type);
}

/// How far arithmetic reaches from a shape.
pub open spec fn reach(x: TypeT) -> nat {
    match x {
        TypeT::Bool => 1,
        TypeT::Int { .. } => 2,
        TypeT::SizeT => 3,
        TypeT::PtrdiffT => 4,
        TypeT::Float { .. } => 5,
        TypeT::SpecNat => 6,
        TypeT::SpecInt => 7,
        TypeT::SLProp => 8,
        _ => 0,
    }
}

/// The common type of two arithmetic types of different reach is the one that reaches further, from
/// either side.
pub proof fn law_common_types_reach_furthest(env: Env, a: Rc<Type>, b: Rc<Type>)
    requires
        reach(spec_vtype_whnf(env, a).val) > reach(spec_vtype_whnf(env, b).val),
        reach(spec_vtype_whnf(env, b).val) > 0,
    ensures
        spec_meet_type(env, a, b) == Some(a),
        spec_meet_type(env, b, a) == Some(a),
{
    reveal(spec_meet_type);
    reveal(spec_arith_rank);
    law_simple_types_are_equal_iff_they_agree(env, a, b);
    law_simple_types_are_equal_iff_they_agree(env, b, a);
}

/// The common type of two machine integers is as wide as the wider one, and unsigned if one of that
/// width is.
pub proof fn law_common_integers(env: Env, a: Rc<Type>, b: Rc<Type>, s1: bool, w1: u32, s2: bool, w2: u32)
    requires
        spec_vtype_whnf(env, a).val == (TypeT::Int { signed: s1, width: w1 }),
        spec_vtype_whnf(env, b).val == (TypeT::Int { signed: s2, width: w2 }),
    ensures
        spec_meet_type(env, a, b) matches Some(t) && (spec_vtype_whnf(env, t).val matches TypeT::Int { signed, width } && {
            &&& width == (if w1 > w2 { w1 } else { w2 })
            &&& signed == ((w1 < w2 || s1) && (w2 < w1 || s2))
        }),
{
    reveal(spec_meet_type);
    reveal(spec_meet_ints);
    reveal(spec_mk_type);
    reveal(spec_vtype_whnf);
    law_integer_types_are_told_apart(env, a, b, s1, w1, s2, w2);
}

/// The common type of two floating-point types is the wider one.
pub proof fn law_common_floats(env: Env, a: Rc<Type>, b: Rc<Type>, w1: u32, w2: u32)
    requires
        spec_vtype_whnf(env, a).val == (TypeT::Float { width: w1 }),
        spec_vtype_whnf(env, b).val == (TypeT::Float { width: w2 }),
    ensures
        spec_meet_type(env, a, b) == Some(if w1 >= w2 {
            a
        } else {
            b
        }),
{
    reveal(spec_meet_type);
    law_simple_types_are_equal_iff_they_agree(env, a, b);
}

/// Types with the same values have the first as their common type; an open or broken type gives way to
/// the other one.
pub proof fn law_common_types_of_equals(env: Env, a: Rc<Type>, b: Rc<Type>)
    ensures
        spec_vtype_eq(env, a, b) ==> spec_meet_type(env, a, b) == Some(a),
        !spec_vtype_eq(env, a, b) && (spec_vtype_whnf(env, a).val is Error || spec_vtype_whnf(env, a).val is Unknown) ==> spec_meet_type(env, a, b) == Some(b),
        !(spec_vtype_whnf(env, a).val is Error || spec_vtype_whnf(env, a).val is Unknown) && (spec_vtype_whnf(env, b).val is Error || spec_vtype_whnf(
            env,
            b,
        ).val is Unknown) ==> spec_meet_type(env, a, b) == Some(a),
{
    reveal(spec_meet_type);
    if spec_vtype_eq(env, a, b) {
        law_equal_types_agree(env, a, b, 1);
    }
}

/// Pointers to the same type have a common type if their kinds have one: an open kind gives way, and an
/// array and a place in one have the place in common. Different kinds have none otherwise, and neither
/// have pointers to different types.
pub proof fn law_common_pointers(env: Env, a: Rc<Type>, b: Rc<Type>, s: Rc<Type>, t: Rc<Type>, j: PointerKind, k: PointerKind)
    requires
        spec_vtype_whnf(env, a).val == TypeT::Pointer(s, j),
        spec_vtype_whnf(env, b).val == TypeT::Pointer(t, k),
        !spec_vtype_eq(env, a, b),
    ensures
        !spec_vtype_eq(env, s, t) ==> spec_meet_type(env, a, b) is None,
        spec_vtype_eq(env, s, t) ==> ({
            let kind = if j == PointerKind::Unknown {
                Some(k)
            } else if k == PointerKind::Unknown {
                Some(j)
            } else if j == k {
                Some(j)
            } else if (j == PointerKind::Array || j == PointerKind::ArrayPtr) && (k == PointerKind::Array || k == PointerKind::ArrayPtr) {
                Some(PointerKind::ArrayPtr)
            } else {
                None
            };
            match kind {
                Some(c) => spec_meet_type(env, a, b) matches Some(m) && m.val == TypeT::Pointer(s, c),
                None => spec_meet_type(env, a, b) is None,
            }
        }),
{
    reveal(spec_meet_type);
    reveal(spec_meet_pointer_kinds);
    reveal(spec_mk_type);
}

/// A type is stripped of its refinements, and a typedef stands for its body.
pub proof fn law_shapes(env: Env, ty: Rc<Type>, inner: Rc<Type>)
    ensures
        (match ty.val {
            TypeT::Refine(t, _) => t == inner,
            TypeT::RefineAlways(t, _) => t == inner,
            TypeT::RefineUninit(t, _) => t == inner,
            TypeT::RefineValue(t, _, _, _) => t == inner,
            TypeT::Plain(t) => t == inner,
            TypeT::Nullable(t) => t == inner,
            _ => false,
        }) ==> spec_vtype_whnf(env, ty) == spec_vtype_whnf(env, inner),
        !is_refined(ty) && !is_typedef_ref(ty) ==> spec_vtype_whnf(env, ty) == ty,
{
    reveal(spec_vtype_whnf);
}

/// A place can be written to if it is a local variable, is pointed to, is an element, or is a field of
/// such a place.
pub proof fn law_places(env: Env, e: Rc<Expr>)
    ensures
        spec_is_lvalue(env, e) == (match e.val {
            ExprT::Var(x) => spec_lookup_var(env, x) matches Some(d) && d.kind == LocalDeclKind::LValue,
            ExprT::Deref(_) => true,
            ExprT::Index(_, _) => true,
            ExprT::Member(a, _) => spec_is_lvalue(env, a),
            _ => false,
        }),
        spec_is_addressable(env, e) == (spec_is_lvalue(env, e) || (e.val matches ExprT::Var(x) && spec_lookup_var(env, x) is None && (spec_find_global(env.globals, x) matches Some(g)
            && !spec_global_var_is_array(g) && !g.is_enum_constant))),
{
    reveal(spec_is_addressable);
    reveal(spec_addressable_global);
    reveal(spec_lookup_global_var);
}

/// Whether an expression is an operation with the given operator and operands.
pub open spec fn is_operation(r: Rc<Expr>, op: BinOp, x: Rc<Expr>, y: Rc<Expr>) -> bool {
    r.val == ExprT::BinOp(op, x, y)
}

/// The operands of an operation.
pub open spec fn operands(r: Rc<Expr>) -> (Rc<Expr>, Rc<Expr>) {
    (r.val->BinOp_1, r.val->BinOp_2)
}

/// How many messages an elaboration holds.
pub open spec fn remarks(st: Elaborator) -> nat {
    st.diags.items().len()
}

/// The operands of an operation, replaced.
proof fn lemma_operands(e: Rc<Expr>, op: BinOp, x: Rc<Expr>, y: Rc<Expr>)
    requires
        e.val matches ExprT::BinOp(o, _, _) && o == op,
    ensures
        is_operation(spec_with_children(e, x, y), op, x, y),
        spec_with_children(e, x, y).loc == e.loc,
{
    reveal(spec_with_children);
    reveal(spec_mk_expr);
}

/// An expression at a type that it is given the type for.
proof fn lemma_converted(env: Env, e: Rc<Expr>, has: Rc<Type>, ty: Rc<Type>)
    requires
        spec_infer_expr(env, e) == Some(has),
    ensures
        is_at(env, spec_convert(env, e, has, ty), ty),
        is_cast_to(spec_convert(env, e, has, ty), e, ty),
{
    reveal(spec_convert);
    reveal(spec_cast_expr);
    reveal(spec_mk_expr);
}

/// Whether an operator computes with numbers.
pub open spec fn is_arithmetic(op: BinOp) -> bool {
    op is Add || op is Sub || op is Mul || op is Div || op is Mod || op is BitAnd || op is BitOr || op is BitXor
}

/// The type that operands are computed at: their common type, or `int` for truth values that are computed
/// with.
pub open spec fn computed_at(env: Env, op: BinOp, common: Rc<Type>, ty: Rc<Type>) -> bool {
    if spec_vtype_whnf(env, common).val is Bool && is_arithmetic(op) {
        ty.val == (TypeT::Int { signed: true, width: 32 })
    } else {
        ty == common
    }
}

/// The operands of an arithmetic operation or a comparison are converted to their common type; truth values
/// that are computed with become numbers. Where there is no common type that is reported, and the operands
/// stay.
pub proof fn law_operands_meet(st: Elaborator, env: Env, e: Rc<Expr>, op: BinOp, a: Rc<Expr>, b: Rc<Expr>, s: Rc<Type>, t: Rc<Type>)
    requires
        e.val matches ExprT::BinOp(o, _, _) && o == op,
        spec_infer_expr(env, a) == Some(s),
        spec_infer_expr(env, b) == Some(t),
        !(op is Elvis || op is LogAnd || op is LogOr || op is Implies || op is Shl || op is Shr),
        op is Add ==> cell_of(spec_vtype_whnf(env, s).val) is None && cell_of(spec_vtype_whnf(env, t).val) is None,
        op is Sub ==> !(cell_of(spec_vtype_whnf(env, s).val) is Some && cell_of(spec_vtype_whnf(env, t).val) is None),
    ensures
        ({
            let (st1, r) = spec_elab_typed_operation(st, env, e, op, a, b, s, t);
            let (x, y) = operands(r);
            &&& is_operation(r, op, x, y)
            &&& match spec_meet_type(env, s, t) {
                Some(m) => st1 == st && exists|ty: Rc<Type>|
                    computed_at(env, op, m, ty) && #[trigger] is_at(env, x, ty) && is_at(env, y, ty) && is_cast_to(x, a, ty) && is_cast_to(y, b, ty),
                None => remarks(st1) == remarks(st) + 1 && x == a && y == b,
            }
        }),
{
    reveal(spec_elab_typed_operation);
    reveal(spec_elab_meet);
    reveal(spec_array_elem);
    reveal(spec_convert_both);
    reveal(spec_promoted);
    reveal(spec_promotes_bool);
    reveal(spec_is_bool);
    reveal(spec_mk_type);
    reveal(spec_rejected);
    reveal(crate::elab::spec_report);
    lemma_operands(e, op, a, b);
    match spec_meet_type(env, s, t) {
        Some(m) => {
            let ty = spec_promoted(env, op, a, m);
            lemma_converted(env, a, s, ty);
            lemma_converted(env, b, t, ty);
            let x = spec_convert(env, a, s, ty);
            let y = spec_convert(env, b, t, ty);
            lemma_operands(e, op, x, y);
            assert(computed_at(env, op, m, ty) && is_at(env, x, ty));
        },
        None => {},
    }
}

/// A shift keeps its value, and its amount becomes an unsigned integer of 32 bits.
pub proof fn law_shift_amounts(st: Elaborator, env: Env, e: Rc<Expr>, op: BinOp, a: Rc<Expr>, b: Rc<Expr>, s: Rc<Type>, t: Rc<Type>)
    requires
        e.val matches ExprT::BinOp(o, _, _) && o == op,
        spec_infer_expr(env, a) == Some(s),
        spec_infer_expr(env, b) == Some(t),
        op is Shl || op is Shr,
    ensures
        ({
            let (st1, r) = spec_elab_typed_operation(st, env, e, op, a, b, s, t);
            let (x, y) = operands(r);
            &&& st1 == st
            &&& is_operation(r, op, x, y)
            &&& x == a
            &&& is_cast_of(y, b, TypeT::Int { signed: false, width: 32 })
            &&& has_shape(env, y, TypeT::Int { signed: false, width: 32 })
        }),
{
    reveal(spec_elab_typed_operation);
    reveal(spec_convert);
    reveal(spec_cast_expr);
    reveal(spec_mk_expr);
    reveal(spec_mk_type);
    reveal(spec_vtype_whnf);
    let ty = spec_mk_type(loc_of(b), TypeT::Int { signed: false, width: 32 });
    assert(spec_vtype_whnf(env, ty).val == (TypeT::Int { signed: false, width: 32 }));
    lemma_operands(e, op, a, spec_convert(env, b, t, ty));
    crate::laws_types::law_type_equality_is_symmetric(env, t, ty);
    law_simple_types_are_equal_iff_they_agree(env, ty, t);
}

/// A number that a pointer into an array is moved by is a `size_t`, and the pointer stays.
pub proof fn law_pointer_arithmetic(st: Elaborator, env: Env, e: Rc<Expr>, op: BinOp, a: Rc<Expr>, b: Rc<Expr>, s: Rc<Type>, t: Rc<Type>)
    requires
        e.val matches ExprT::BinOp(o, _, _) && o == op,
        spec_infer_expr(env, a) == Some(s),
        spec_infer_expr(env, b) == Some(t),
        op is Add || op is Sub,
    ensures
        ({
            let (st1, r) = spec_elab_typed_operation(st, env, e, op, a, b, s, t);
            let (x, y) = operands(r);
            let left = cell_of(spec_vtype_whnf(env, s).val) is Some;
            let right = cell_of(spec_vtype_whnf(env, t).val) is Some;
            &&& left && !right ==> st1 == st && is_operation(r, op, a, y) && is_cast_of(y, b, TypeT::SizeT) && has_shape(env, y, TypeT::SizeT)
            &&& op is Add && right && !left ==> st1 == st && is_operation(r, op, x, b) && is_cast_of(x, a, TypeT::SizeT) && has_shape(env, x, TypeT::SizeT)
        }),
{
    reveal(spec_elab_typed_operation);
    reveal(spec_array_elem);
    law_sizes_are_sizes(env, a);
    law_sizes_are_sizes(env, b);
    lemma_operands(e, op, a, spec_as_size(env, b));
    lemma_operands(e, op, spec_as_size(env, a), b);
}

/// The operands of a logical connective are propositions where their common type is that of propositions, and
/// truth values otherwise.
pub proof fn law_logical_operands(st: Elaborator, env: Env, e: Rc<Expr>, op: BinOp, a: Rc<Expr>, b: Rc<Expr>, s: Rc<Type>, t: Rc<Type>)
    requires
        e.val matches ExprT::BinOp(o, _, _) && o == op,
        spec_infer_expr(env, a) == Some(s),
        spec_infer_expr(env, b) == Some(t),
        op is LogAnd || op is LogOr || op is Implies,
    ensures
        ({
            let (st1, r) = spec_elab_typed_operation(st, env, e, op, a, b, s, t);
            let (x, y) = operands(r);
            &&& st1 == st
            &&& is_operation(r, op, x, y)
            &&& match spec_meet_type(env, s, t) {
                Some(m) if spec_vtype_whnf(env, m).val is SLProp => is_at(env, x, m) && is_at(env, y, m) && is_cast_to(x, a, m) && is_cast_to(y, b, m),
                _ => has_shape(env, x, TypeT::Bool) && has_shape(env, y, TypeT::Bool) && is_cast_of(x, a, TypeT::Bool) && is_cast_of(y, b, TypeT::Bool),
            }
        }),
{
    reveal(spec_elab_typed_operation);
    reveal(spec_is_slprop);
    reveal(spec_convert_both);
    law_conditions_are_truth_values(env, a);
    law_conditions_are_truth_values(env, b);
    lemma_operands(e, op, spec_as_bool(env, a), spec_as_bool(env, b));
    match spec_meet_type(env, s, t) {
        Some(m) => {
            lemma_converted(env, a, s, m);
            lemma_converted(env, b, t, m);
            lemma_operands(e, op, spec_convert(env, a, s, m), spec_convert(env, b, t, m));
        },
        None => {},
    }
}

/// A pointer that is compared with zero is compared with the null of its own type.
pub proof fn law_null_has_the_type_of_the_pointer(env: Env, e: Rc<Expr>, a: Rc<Expr>, b: Rc<Expr>, n: Rc<IntValue>, t: Rc<Type>, s: Rc<Type>)
    requires
        e.val matches ExprT::BinOp(o, _, _) && o == BinOp::Eq,
        b.val == ExprT::IntLit(n, t),
        n.value() == 0,
        spec_vtype_whnf(env, s).val is Pointer || spec_vtype_whnf(env, s).val is FnPtr,
    ensures
        spec_null_comparison(env, e, a, b, s) matches Some(r) && ({
            let (x, y) = operands(r);
            &&& is_operation(r, BinOp::Eq, x, y)
            &&& x == a
            &&& y.val matches ExprT::IntLit(m, u) && m.value() == 0 && u == spec_vtype_whnf(env, s)
        }),
{
    reveal(spec_null_comparison);
    reveal(spec_is_zero_literal);
    reveal(spec_int_is_zero);
    reveal(spec_retyped);
    reveal(spec_mk_expr);
    reveal(spec_with_children);
}

/// Whether an expression is another one cast to a type.
pub open spec fn is_cast(r: Rc<Expr>, e: Rc<Expr>, ty: TypeT) -> bool {
    r.val matches ExprT::Cast(inner, t) && inner == e && t.val == ty
}

/// Pointers of different kinds to the same type are compared as raw pointers, and no others are.
pub proof fn law_mixed_pointers_are_compared_raw(env: Env, e: Rc<Expr>, a: Rc<Expr>, b: Rc<Expr>, s: Rc<Type>, t: Rc<Type>, p: Rc<Type>, q: Rc<Type>, j: PointerKind, k: PointerKind)
    requires
        e.val matches ExprT::BinOp(o, _, _) && o == BinOp::Eq,
        spec_vtype_whnf(env, s).val == TypeT::Pointer(p, j),
        spec_vtype_whnf(env, t).val == TypeT::Pointer(q, k),
    ensures
        (spec_mixed_comparison(env, e, a, b, s, t) is Some) == (j != k && j != PointerKind::Core && k != PointerKind::Core && spec_vtype_eq(env, p, q)),
        spec_mixed_comparison(env, e, a, b, s, t) matches Some(r) ==> ({
            let (x, y) = operands(r);
            &&& is_operation(r, BinOp::Eq, x, y)
            &&& is_cast(x, a, TypeT::Pointer(p, PointerKind::Core))
            &&& is_cast(y, b, TypeT::Pointer(q, PointerKind::Core))
        }),
{
    reveal(spec_mixed_comparison);
    reveal(spec_cast_expr);
    reveal(spec_mk_expr);
    reveal(spec_mk_type);
    reveal(spec_with_children);
}

/// The kind of pointer that the first assignment to a variable settles.
pub open spec fn first_assigned_kind(env: Env, x: Rc<Ident>, l: Seq<Rc<Stmt>>) -> Option<PointerKind>
    decreases l.len(),
{
    if l.len() == 0 {
        None
    } else {
        match l[0].val {
            StmtT::Assign(a, v) if (a.val matches ExprT::Var(y) && named_alike(y, x)) => match spec_infer_expr(env, v) {
                Some(t) => match spec_vtype_whnf(env, t).val {
                    TypeT::Pointer(_, k) if k == PointerKind::Ref || k == PointerKind::Array => Some(k),
                    _ => None,
                },
                None => None,
            },
            _ => first_assigned_kind(env, x, l.skip(1)),
        }
    }
}

/// A pointer variable whose kind is open, or that points to one object, gets the kind that the first
/// assignment to it settles; any other variable keeps its type, and so does a `void *`.
pub proof fn law_variables_settle(env: Env, x: Rc<Ident>, ty: Rc<Type>, later: Rc<List<Stmt>>)
    ensures
        ({
            let r = spec_settled_type(env, x, ty, later);
            match ty.val {
                TypeT::Pointer(to, k) if !(to.val is Void) && (k == PointerKind::Unknown || k == PointerKind::Ref) => match first_assigned_kind(env, x, later.items()) {
                    Some(kind) => r.val == TypeT::Pointer(to, kind) && r.loc == ty.loc,
                    None => r == ty,
                },
                _ => r == ty,
            }
        }),
{
    reveal(spec_settled_type);
    reveal(spec_mk_type);
    lemma_assigned_kind(env, x, later);
}

/// The kind that the first assignment settles.
proof fn lemma_assigned_kind(env: Env, x: Rc<Ident>, l: Rc<List<Stmt>>)
    ensures
        spec_assigned_kind(env, x, l) == first_assigned_kind(env, x, l.items()),
    decreases l,
{
    match *l {
        List::Nil => {},
        List::Cons(h, t) => {
            reveal(spec_is_var_named);
            reveal(spec_same_name);
            reveal(spec_pointer_kind);
            reveal(spec_infer_whnf);
            lemma_assigned_kind(env, x, t);
            assert(l.items().skip(1) =~= t.items());
            assert(l.items()[0] == h);
        },
    }
}

/// The values of a struct's fields have the types of the fields, wherever they have a type; their names and
/// their order stay.
pub proof fn law_field_values_fit(st: Elaborator, env: Env, s: Rc<Ident>, l: Rc<List<FieldInit>>, fuel: u64)
    ensures
        ({
            let r = spec_elab_inits(st, env, s, l, fuel).1.items();
            &&& r.len() == l.items().len()
            &&& forall|i: int| 0 <= i < r.len() ==> (#[trigger] r[i]).name == l.items()[i].name && field_value_fits(env, s, r[i])
        }),
    decreases l,
{
    match *l {
        List::Nil => {},
        List::Cons(h, t) => {
            reveal(spec_struct_field_type);
            reveal(spec_cast_to_opt);
            reveal(spec_cast_if_needed);
            let ty = spec_struct_field_type(env, s, init_name(h));
            let (st1, d) = spec_elab_rvalue(st, env, init_value(h), ty, fuel);
            match ty {
                Some(x) => law_values_are_cast_to_the_type_they_need(env, d, x),
                None => {},
            }
            law_field_values_fit(st1, env, s, t, fuel);
            let r = spec_elab_inits(st, env, s, l, fuel).1.items();
            let rest = spec_elab_inits(st1, env, s, t, fuel).1.items();
            assert forall|i: int| 0 <= i < r.len() implies (#[trigger] r[i]).name == l.items()[i].name && field_value_fits(env, s, r[i]) by {
                if i > 0 {
                    assert(r[i] == rest[i - 1]);
                    assert(l.items()[i] == t.items()[i - 1]);
                }
            }
        },
    }
}

/// Whether the value of a struct's field has the type of the field, if it has a type.
pub open spec fn field_value_fits(env: Env, s: Rc<Ident>, i: Rc<FieldInit>) -> bool {
    match spec_lookup_struct(env, s) {
        Some(d) => match spec_find_field(d.fields, i.name) {
            Some(f) => spec_infer_expr(env, i.value) is Some ==> is_at(env, i.value, spec_field_type(f)),
            None => true,
        },
        None => true,
    }
}

/// A string literal that is given to a longer array is filled up with zeros, to the length of the array.
pub proof fn law_literals_fill_their_array(env: Env, ty: Rc<Type>, elem: Rc<Type>, len: u64, n: u64)
    requires
        spec_vtype_whnf(env, ty).val == TypeT::FixedArray(elem, len),
    ensures
        n + spec_missing_zeros(env, Some(ty), n) == (if len > n {
            len
        } else {
            n
        }),
        spec_missing_zeros(env, None, n) == 0,
{
    reveal(spec_missing_zeros);
}

/// As many zeros as are asked for, each of the type.
pub proof fn law_zeros(loc: Loc, ty: Rc<Type>, n: u64)
    ensures
        spec_zeros(loc, ty, n).items().len() == n,
        forall|i: int| 0 <= i < n ==> ((#[trigger] spec_zeros(loc, ty, n).items()[i]).val matches ExprT::IntLit(z, t) && z.value() == 0 && t == ty),
    decreases n,
{
    reveal(spec_mk_expr);
    if n > 0 {
        law_zeros(loc, ty, spec_drop_one(n));
        let l = spec_zeros(loc, ty, n).items();
        let t = spec_zeros(loc, ty, spec_drop_one(n)).items();
        assert forall|i: int| 0 <= i < n implies ((#[trigger] l[i]).val matches ExprT::IntLit(z, u) && z.value() == 0 && u == ty) by {
            if i > 0 {
                assert(l[i] == t[i - 1]);
            }
        }
    }
}

/// Inline code has the type that it is given, or else the one that is expected; without either that is
/// reported.
pub proof fn law_types_of_inline_code(st: Elaborator, t: Rc<Type>, expected: Option<Rc<Type>>, loc: Loc)
    ensures
        ({
            let (st1, r) = spec_inline_type(st, t, expected, loc);
            &&& !(t.val is Unknown) ==> st1 == st && r == t
            &&& t.val is Unknown ==> (match expected {
                Some(x) => st1 == st && r == x,
                None => remarks(st1) == remarks(st) + 1 && r == t,
            })
        }),
{
    reveal(spec_inline_type);
    reveal(crate::elab::spec_report);
}

/// The scope of the parameters of an elaborated function.
pub open spec fn param_scope(env: Env, d: Rc<FnDecl>) -> Env {
    spec_push_args(spec_push_ghost_args(env, d.ghost_args), d.args, LocalDeclKind::RValue)
}

/// An elaborated function keeps its name and attributes. Its preconditions are propositions in the scope of its
/// parameters, its postconditions in that of the result as well: one for each, in order.
pub proof fn law_elaborated_contracts(st: Elaborator, env: Env, d: Rc<FnDecl>)
    ensures
        ({
            let r = spec_elab_fn_decl(st, env, d).1;
            let env2 = param_scope(env, r);
            let env3 = spec_push_return(env2, r.ret_type);
            &&& r.name == d.name
            &&& r.is_pure == d.is_pure
            &&& r.is_rec == d.is_rec
            &&& r.is_total == d.is_total
            &&& (r.decreases_ is Some) == (d.decreases_ is Some)
            &&& r.requires_.items().len() == d.requires_.items().len()
            &&& r.ensures_.items().len() == d.ensures_.items().len()
            &&& forall|i: int|
                0 <= i < d.requires_.items().len() ==> has_shape(env2, #[trigger] r.requires_.items()[i], TypeT::SLProp) && elaborates(
                    env2,
                    d.requires_.items()[i],
                    r.requires_.items()[i],
                )
            &&& forall|i: int|
                0 <= i < d.ensures_.items().len() ==> has_shape(env3, #[trigger] r.ensures_.items()[i], TypeT::SLProp) && elaborates(
                    env3,
                    d.ensures_.items()[i],
                    r.ensures_.items()[i],
                )
        }),
{
    reveal(spec_elab_fn_decl);
    reveal(spec_elab_measure);
    reveal(spec_any_depth);
    let (st1, ghost_args) = spec_elab_ghost_args(st, env, fn_ghost_args(d));
    let env1 = spec_push_ghost_args(env, ghost_args);
    let (st2, args) = spec_elab_args(st1, env1, fn_args(d));
    let env2 = spec_push_args(env1, args, LocalDeclKind::RValue);
    law_every_clause_becomes_a_proposition(st2, env2, fn_requires(d));
    let (st3, _) = spec_elab_slprops(st2, env2, fn_requires(d));
    let (st4, ret) = spec_elab_type(st3, env2, fn_result(d), u64::MAX);
    let env3 = spec_push_return(env2, ret);
    law_every_clause_becomes_a_proposition(st4, env3, fn_ensures(d));
}

/// Elaborated parameters keep their names and modes, and there are as many as before.
pub proof fn law_elaborated_parameters(st: Elaborator, env: Env, l: Rc<List<FnArg>>)
    ensures
        ({
            let r = spec_elab_args(st, env, l).1.items();
            &&& r.len() == l.items().len()
            &&& forall|i: int| 0 <= i < r.len() ==> (#[trigger] r[i]).name == l.items()[i].name && r[i].mode == l.items()[i].mode
        }),
    decreases l,
{
    match *l {
        List::Nil => {},
        List::Cons(h, t) => {
            reveal(spec_clone_opt_ident);
            reveal(spec_any_depth);
            let (st1, ty) = spec_elab_type(st, env, arg_type(h), u64::MAX);
            let a = Rc::new(FnArg { name: param_ident(h), ty, mode: h.mode });
            let env2 = spec_push_arg(env, a, LocalDeclKind::RValue);
            law_elaborated_parameters(st1, env2, t);
            let r = spec_elab_args(st, env, l).1.items();
            let rest = spec_elab_args(st1, env2, t).1.items();
            assert(r =~= seq![a] + rest);
            assert forall|i: int| 0 <= i < r.len() implies (#[trigger] r[i]).name == l.items()[i].name && r[i].mode == l.items()[i].mode by {
                if i > 0 {
                    assert(r[i] == rest[i - 1]);
                    assert(l.items()[i] == t.items()[i - 1]);
                }
            }
        },
    }
}

/// The address of an array cell is a sum of the array and the index, unless a pointer to one object is expected
/// from a whole array.
pub proof fn law_cell_addresses(env: Env, e: Rc<Expr>, v: Rc<Expr>, arr: Rc<Expr>, idx: Rc<Expr>, expected: Option<Rc<Type>>)
    requires
        v.val == ExprT::Index(arr, idx),
    ensures
        ({
            let wants_object = expected matches Some(t) && (spec_vtype_whnf(env, t).val matches TypeT::Pointer(_, k) && k == PointerKind::Ref);
            match spec_cell_sum(env, e, v, expected) {
                Some(r) => r.val == ExprT::BinOp(BinOp::Add, arr, idx) && points_into_array(env, arr) && !(wants_object && has_kind(env, arr, PointerKind::Array)),
                None => !points_into_array(env, arr) || (wants_object && has_kind(env, arr, PointerKind::Array)),
            }
        }),
{
    reveal(spec_cell_sum);
    reveal(spec_expects_ref);
    reveal(spec_is_pointer);
    reveal(spec_pointer_kind);
    reveal(spec_infer_whnf);
    reveal(spec_is_array_pointer);
    reveal(spec_mk_expr);
}

/// `_length` of an array is its length.
pub proof fn law_length_of_arrays(st: Elaborator, env: Env, e: Rc<Expr>, x: Rc<Expr>, a: Rc<Ident>, t: Rc<Type>)
    requires
        spec_active_arm(env, x, a) is None,
        spec_infer_expr(env, x) == Some(t),
        a.val.chars() == "_length"@,
        spec_vtype_whnf(env, t).val is FixedArray || spec_vtype_whnf(env, t).val is FlexArray || (spec_vtype_whnf(env, t).val matches TypeT::Pointer(_, k) && k
            == PointerKind::Array),
    ensures
        spec_resolve_member(st, env, e, x, a) matches (s, Step::Done(r)) && s == st && r.val == ExprT::VAttr(VAttr::Length, x),
{
    broadcast use crate::laws_text::group_flat;
    reveal(spec_resolve_member);
    reveal(spec_infer_whnf);
    reveal(spec_text_is);
    reveal(spec_mk_expr);
}

/// A field that a record has is kept as it is selected; one that it has not is looked for in its anonymous
/// members, and reported where it is in none.
pub proof fn law_selected_fields(st: Elaborator, env: Env, e: Rc<Expr>, x: Rc<Expr>, a: Rc<Ident>, k: TypeRefKind, fields: Rc<List<Field>>)
    requires
        spec_record_fields(env, k) == Some(fields),
    ensures
        ({
            let (st1, r) = spec_resolve_field(st, env, e, x, a, k);
            let kept = spec_with_child(e, x);
            if spec_find_field(fields, a) is Some {
                st1 == st && r == Step::Done(kept)
            } else {
                match spec_indirect_field_path(env, k, a, spec_plus(spec_list_len(env.structs), spec_list_len(env.unions))) {
                    Some(path) => st1 == st && (r matches Step::Redo(d) && d.val == ExprT::Member(spec_select_all(x, path, e.loc), a)),
                    None => remarks(st1) == remarks(st) + 1 && r == Step::Done(kept),
                }
            }
        }),
{
    reveal(spec_resolve_field);
    reveal(spec_rejected);
    reveal(crate::elab::spec_report);
    reveal(spec_mk_expr);
}

/// A pointer to a named type that has a view is taken as the view, where the place allows it; any other type stays.
pub proof fn law_views(st: Elaborator, env: Env, ty: Rc<Type>)
    ensures
        ({
            let (st1, r) = spec_maybe_apply_view(st, env, ty);
            &&& st1 == (Elaborator { suppress_next_view: false, ..st })
            &&& st.suppress_next_view || st.in_inline_pulse || st.in_view_body ==> r == ty
            &&& !(st.suppress_next_view || st.in_inline_pulse || st.in_view_body) ==> (match ty.val {
                TypeT::Pointer(to, kind) if kind == PointerKind::Ref || kind == PointerKind::Unknown => match to.val {
                    TypeT::TypeRef(k) => match spec_find_view(st.pointer_views, spec_canon(env, k)) {
                        Some(n) => r.val == TypeT::TypeRef(TypeRefKind::Typedef(n)) && r.loc == ty.loc,
                        None => r == ty,
                    },
                    _ => r == ty,
                },
                _ => r == ty,
            })
        }),
{
    reveal(spec_maybe_apply_view);
    reveal(spec_mk_type);
}

/// A pointer whose kind is open points to one object, but for a `void *`, which is a raw pointer; any other keeps its kind.
pub proof fn law_settled_kinds(to: Rc<Type>, kind: PointerKind)
    ensures
        spec_settled_kind(to, kind) == (if kind != PointerKind::Unknown {
            kind
        } else if to.val is Void {
            PointerKind::Core
        } else {
            PointerKind::Ref
        }),
{
    reveal(spec_settled_kind);
}

} // verus!
