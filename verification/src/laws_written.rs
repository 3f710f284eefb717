//! What is proved of the texts of expressions, types, statements and signatures.

use crate::list::{
    List, spec_bump, spec_drop_one, spec_l2, spec_l3, spec_l4, spec_list_append, spec_list_push,
};
use crate::text::{
    IntValue, Rope, Text, int_chars, nat_chars, quoted_chars, spec_cat, spec_int_is_zero,
    spec_lit, spec_num,
};
use crate::ir::{
    BinOp, Branch, Decl, Expr, ExprT, FnArg, FnDecl, FnDefn, Ident, InlinePulseCode, LetDecl, Loc,
    OpaqueTypeDecl, PointerKind, Stmt, StmtT, Type, TypeRefKind, TypeT, UnOp, VAttr,
    spec_mk_ident, spec_mk_rvar, spec_same_name,
};
use crate::doc::{
    Doc, DocT, spec_annotated, spec_block, spec_d2, spec_d3, spec_d4, spec_d5, spec_group,
    spec_hardline, spec_line, spec_naryfn, spec_nest, spec_nil_doc, spec_text_doc, spec_txt,
    spec_unaryfn,
};
use crate::env::{
    Env, LocalDecl, LocalDeclKind, spec_addressable_global, spec_clone_env, spec_clone_opt_type,
    spec_infer_expr, spec_infer_whnf, spec_is_slprop, spec_lookup_fn, spec_lookup_global_var,
    spec_lookup_var, spec_push_arg, spec_push_fn_decl_args_for_body, spec_push_return,
    spec_push_stmt, spec_push_stmts, spec_push_var_decl, spec_vtype_eq, spec_vtype_whnf,
    spec_with_locals,
};
use crate::names::{Name, TypeRef, spec_type_ref};
use crate::emit_base::{
    Emitter, ExprKind, spec_append_rest, spec_array_literal_init, spec_emit_binop,
    spec_emit_machine_int_literal, spec_emit_name, spec_emit_var_name, spec_extract_base_ident,
    spec_fresh_tmp, spec_get_int_mod_lower, spec_local_name, spec_mk_let, spec_to_rvalue,
    spec_to_rvalue_decayed, spec_wrap_exists,
};
use crate::emit_types::{
    spec_emit_type, spec_emit_type_default, spec_fnptr_domain, spec_int_type, spec_int_zero,
    spec_null_fnptr, spec_null_of,
};
use crate::emit_exprs::{
    spec_arg_tuple, spec_bitfield_member_mask, spec_cast_doc, spec_cast_to_pointer,
    spec_emit_active, spec_emit_address, spec_emit_alignof, spec_emit_alloc,
    spec_emit_array_alloc, spec_emit_assign_expr, spec_emit_assign_target, spec_emit_call,
    spec_emit_cast, spec_emit_cond, spec_emit_deref, spec_emit_equality, spec_emit_expr,
    spec_emit_flex_alloc, spec_emit_float_literal, spec_emit_fnptr_call, spec_emit_incr,
    spec_emit_index, spec_emit_int_literal, spec_emit_length, spec_emit_live, spec_emit_lvalue,
    spec_emit_member, spec_emit_memory, spec_emit_of_fn, spec_emit_operand_call,
    spec_emit_operands, spec_emit_operation, spec_emit_pattern, spec_emit_quantifier,
    spec_emit_rvalue, spec_emit_rvalue_inner, spec_emit_rvalues, spec_emit_tokens,
    spec_emit_typed_operation, spec_emit_variable, spec_fixed_array_len, spec_fnptr_wrap_name,
    spec_incr_suffix, spec_is_array_pointer, spec_is_flex_array, spec_is_plain_slprop,
    spec_is_pointer, spec_is_slprop_expr, spec_is_zero_literal, spec_null_test, spec_null_test_of,
    spec_operator_of, spec_pointer_kind, spec_shift_fn, spec_struct_field_is_array,
    spec_struct_of, spec_unary_operator_of, spec_union_field_is_array, spec_union_of,
};
use crate::emit_slprop::{Owned, SLPropVariant, spec_emit_type_slprop, spec_owned_standard};
use crate::emit_stmts::{
    CallArgs, Cell, spec_array_fn, spec_assigned_first, spec_cell_address, spec_defer_stmt,
    spec_emit_array_write, spec_emit_assign, spec_emit_block, spec_emit_borrowing_assign,
    spec_emit_branch, spec_emit_branch_cases, spec_emit_branches, spec_emit_call_args,
    spec_emit_call_stmt, spec_emit_cell_arg, spec_emit_decl_stmt, spec_emit_element_update,
    spec_emit_field_assign, spec_emit_ghosts_onto, spec_emit_goto_block, spec_emit_if,
    spec_emit_let_stmt, spec_emit_literal_arg, spec_emit_match, spec_emit_member_store,
    spec_emit_ordinary_assign, spec_emit_place_assign, spec_emit_plain_call, spec_emit_pure_body,
    spec_emit_pure_branches, spec_emit_pure_stmt, spec_emit_stmt, spec_emit_stmts,
    spec_emit_stmts_onto, spec_emit_store, spec_emit_while, spec_if_clauses, spec_is_ghost,
    spec_join_clauses, spec_later_stmts, spec_let_stmt, spec_literal_elem, spec_loop_clauses,
    spec_must_discard, spec_stack_array, spec_starts_with_ghost,
};
use crate::emit_fns::{
    Params, SigParts, spec_arg_ident, spec_emit_arg_redecls, spec_emit_fn_decl, spec_emit_fn_defn,
    spec_emit_fn_sig_inner, spec_emit_ghost_params, spec_emit_let_decl, spec_emit_letimpure_decl,
    spec_emit_opaque_type, spec_emit_param, spec_full, spec_full_ownership, spec_impure_args,
    spec_or_unit, spec_shared_ownership, spec_sig_arg, spec_sig_args, spec_uninit_ownership,
};
use crate::merge::Match;
use crate::laws_goto::ident_text;
use crate::laws_syntax::{fn_args, fn_ensures, fn_requires};
use crate::laws_twice::defn_signature;
use crate::laws_check::{arg_type, fn_result, let_params, loc_of};
use crate::laws_scope::ident_loc;
use crate::laws_text::{each_behind, flat, separated};
use crate::laws_operators::{
    converted, int_module, law_conversions, law_operators_follow_shapes,
    law_unary_operators_follow_shapes, operator_on, unary_operator_on,
};
use crate::laws_typing::named_alike;
use std::rc::Rc;
use vstd::prelude::*;

verus! {

broadcast use {crate::laws_text::group_flat, crate::laws_text::group_lists};

/// The texts of documents, in order.
pub open spec fn texts(l: Rc<List<DocT>>) -> Seq<Seq<char>>
    decreases l,
{
    match *l {
        List::Nil => Seq::empty(),
        List::Cons(h, t) => seq![flat(h)] + texts(t),
    }
}

/// Texts one after the other, each behind the same text.
pub open spec fn joined(sep: Seq<char>, s: Seq<Seq<char>>) -> Seq<char>
    decreases s.len(),
{
    if s.len() == 0 {
        Seq::empty()
    } else {
        sep + s[0] + joined(sep, s.skip(1))
    }
}

/// The texts of expressions, one for each, in order.
pub open spec fn clause_texts(st: Emitter, env: Env, l: Rc<List<Expr>>) -> Seq<Seq<char>>
    decreases l,
{
    match *l {
        List::Nil => Seq::empty(),
        List::Cons(h, t) => {
            let (st2, d) = spec_emit_rvalue(st, env, h);
            seq![flat(d)] + clause_texts(st2, env, t)
        },
    }
}

/// The names in use once expressions were emitted, in order.
pub open spec fn after_clauses(st: Emitter, env: Env, l: Rc<List<Expr>>) -> Emitter
    decreases l,
{
    match *l {
        List::Nil => st,
        List::Cons(h, t) => after_clauses(spec_emit_rvalue(st, env, h).0, env, t),
    }
}

/// Documents behind a text are their texts behind it.
pub proof fn lemma_joined(sep: Seq<char>, l: Rc<List<DocT>>)
    ensures
        each_behind(sep, l) == joined(sep, texts(l)),
    decreases l,
{
    match *l {
        List::Nil => {},
        List::Cons(h, t) => {
            lemma_joined(sep, t);
            assert(texts(l).skip(1) =~= texts(t));
        },
    }
}

/// The texts of lists in a row.
pub proof fn lemma_texts_append(a: Rc<List<DocT>>, b: Rc<List<DocT>>)
    ensures
        texts(spec_list_append(a, b)) == texts(a) + texts(b),
    decreases a,
{
    match *a {
        List::Nil => {
            assert(texts(a) + texts(b) =~= texts(b));
        },
        List::Cons(h, t) => {
            lemma_texts_append(t, b);
            assert(seq![flat(h)] + (texts(t) + texts(b)) =~= (seq![flat(h)] + texts(t)) + texts(b));
        },
    }
}

/// The texts of a list with one more document.
pub proof fn lemma_texts_push(a: Rc<List<DocT>>, d: Doc)
    ensures
        texts(spec_list_push(a, d)) == texts(a) + seq![flat(d)],
    decreases a,
{
    match *a {
        List::Nil => {
            assert(texts(a) + seq![flat(d)] =~= seq![flat(d)]);
            assert(texts(spec_list_push(a, d)) =~= seq![flat(d)]);
        },
        List::Cons(h, t) => {
            lemma_texts_push(t, d);
            assert(seq![flat(h)] + (texts(t) + seq![flat(d)]) =~= (seq![flat(h)] + texts(t)) + seq![flat(d)]);
        },
    }
}

/// Emitted expressions have one text each, in order.
pub proof fn lemma_emitted(st: Emitter, env: Env, l: Rc<List<Expr>>)
    ensures
        texts(spec_emit_rvalues(st, env, l).1) == clause_texts(st, env, l),
        spec_emit_rvalues(st, env, l).0 == after_clauses(st, env, l),
    decreases l,
{
    match *l {
        List::Nil => {},
        List::Cons(h, t) => {
            let (st2, d) = spec_emit_rvalue(st, env, h);
            lemma_emitted(st2, env, t);
        },
    }
}

/// The clause that claims ownership, if there is anything to own.
pub open spec fn ownership(o: Owned) -> Seq<Seq<char>> {
    match *o.props {
        List::Nil => Seq::empty(),
        _ => seq![flat(spec_wrap_exists(o.naming.bindings, o.props))],
    }
}

/// A parameter contributes to a signature as its mode says: a regular one is owned before and after,
/// a consumed one before, a constant one is kept, and an output is owned uninitialized before and
/// initialized after.
pub proof fn law_parameter_modes(st: Emitter, p: SigParts, arg: Rc<FnArg>, i: u64)
    ensures
        ({
            let (st1, d) = spec_emit_param(st, p.env, arg, i);
            let env = spec_push_arg(p.env, arg, LocalDeclKind::RValue);
            let n = spec_arg_ident(arg, i);
            let r = spec_sig_arg(st, p, arg, i).1;
            &&& r.env == env
            &&& texts(r.params) == texts(p.params) + seq![flat(d)]
            &&& arg.mode is Regular ==> {
                let own = ownership(spec_full_ownership(st1, env, arg.ty, n).1);
                texts(r.pre) == texts(p.pre) + own && texts(r.post) == texts(p.post) + own && r.kept == p.kept
            }
            &&& arg.mode is Consumed ==> {
                let own = ownership(spec_full_ownership(st1, env, arg.ty, n).1);
                texts(r.pre) == texts(p.pre) + own && r.post == p.post && r.kept == p.kept
            }
            &&& arg.mode is Const ==> {
                let shared = spec_shared_ownership(st1, env, arg.ty, n).1;
                r.pre == p.pre && r.post == p.post && texts(r.kept) == texts(p.kept) + texts(shared.props)
            }
            &&& arg.mode is Out ==> {
                let (st2, empty) = spec_uninit_ownership(st1, env, arg.ty, n);
                let full = spec_full_ownership(st2, env, arg.ty, n).1;
                texts(r.pre) == texts(p.pre) + ownership(empty) && texts(r.post) == texts(p.post) + ownership(full) && r.kept == p.kept
            }
        }),
{
    reveal(spec_sig_arg);
    let (st1, d) = spec_emit_param(st, p.env, arg, i);
    let env = spec_push_arg(p.env, arg, LocalDeclKind::RValue);
    let n = spec_arg_ident(arg, i);
    let ty = arg_type(arg);
    let full = spec_full_ownership(st1, env, ty, n).1;
    let shared = spec_shared_ownership(st1, env, ty, n).1;
    let (st2, empty) = spec_uninit_ownership(st1, env, ty, n);
    let last = spec_full_ownership(st2, env, ty, n).1;
    lemma_texts_push(p.params, d);
    lemma_texts_push(p.pre, spec_wrap_exists(full.naming.bindings, full.props));
    lemma_texts_push(p.post, spec_wrap_exists(full.naming.bindings, full.props));
    lemma_texts_append(p.kept, shared.props);
    lemma_texts_push(p.pre, spec_wrap_exists(empty.naming.bindings, empty.props));
    lemma_texts_push(p.post, spec_wrap_exists(last.naming.bindings, last.props));
    assert(texts(p.pre) + Seq::<Seq<char>>::empty() =~= texts(p.pre));
    assert(texts(p.post) + Seq::<Seq<char>>::empty() =~= texts(p.post));
}

/// Ownership is claimed of the parameter itself: all of it for one that may be written, a share that
/// has a name for one that may only be read, and none of its contents for one that is not
/// initialized.
pub proof fn law_shares_of_ownership(st: Emitter, env: Env, ty: Rc<Type>, n: Rc<Ident>)
    ensures
        exists|perm: Doc| flat(perm) == "1.0R"@ && spec_full_ownership(st, env, ty, n) == #[trigger] spec_emit_type_slprop(
            st,
            env,
            ty,
            SLPropVariant::Init { perm },
            spec_owned_standard(false),
            spec_mk_rvar(n),
        ),
        spec_uninit_ownership(st, env, ty, n) == spec_emit_type_slprop(st, env, ty, SLPropVariant::Uninit, spec_owned_standard(true), spec_mk_rvar(n)),
        ({
            let (st1, name) = spec_local_name(st, Name::Perm(spec_extract_base_ident(spec_mk_rvar(n)), 0));
            exists|perm: Doc| flat(perm) == "'"@ + flat(name) && spec_shared_ownership(st, env, ty, n) == #[trigger] spec_emit_type_slprop(
                st1,
                env,
                ty,
                SLPropVariant::Init { perm },
                spec_owned_standard(true),
                spec_mk_rvar(n),
            )
        }),
{
    reveal(spec_full_ownership);
    reveal(spec_uninit_ownership);
    reveal(spec_shared_ownership);
    reveal(spec_full);
    let perm = spec_txt("1.0R");
    assert(flat(perm) == "1.0R"@);
    let (st1, name) = spec_local_name(st, Name::Perm(spec_extract_base_ident(spec_mk_rvar(n)), 0));
    let share = spec_d2(spec_txt("'"), name);
    assert(flat(share) == "'"@ + flat(name));
    assert(spec_full_ownership(st, env, ty, n) == spec_emit_type_slprop(st, env, ty, SLPropVariant::Init { perm }, spec_owned_standard(false), spec_mk_rvar(n)));
    assert(spec_shared_ownership(st, env, ty, n) == spec_emit_type_slprop(st1, env, ty, SLPropVariant::Init { perm: share }, spec_owned_standard(true), spec_mk_rvar(n)));
}

/// What the parameters of a signature contribute, with the names in use after them.
pub open spec fn sig_params(st: Emitter, env: Env, decl: Rc<FnDecl>) -> (Emitter, SigParts) {
    let (st1, g) = spec_emit_ghost_params(st, (Params { env, docs: Rc::new(List::Nil) }), decl.ghost_args);
    spec_sig_args(
        st1,
        (SigParts { env: g.env, params: g.docs, pre: Rc::new(List::Nil), post: Rc::new(List::Nil), kept: Rc::new(List::Nil) }),
        0,
        decl.args,
    )
}

/// The parameters contribute one after the other, in order.
pub proof fn law_parameters_contribute_in_order(st: Emitter, p: SigParts, i: u64, arg: Rc<FnArg>, t: Rc<List<FnArg>>)
    ensures
        spec_sig_args(st, p, i, Rc::new(List::Cons(arg, t))) == spec_sig_args(spec_sig_arg(st, p, arg, i).0, spec_sig_arg(st, p, arg, i).1, spec_bump(i), t),
        spec_sig_args(st, p, i, Rc::new(List::Nil)) == (st, p),
{
}

/// The parameters of a signature as they are written: `()` where there is none.
pub open spec fn written_params(params: Seq<Seq<char>>) -> Seq<Seq<char>> {
    if params.len() == 0 {
        seq!["()"@]
    } else {
        params
    }
}

/// Parameters are written one after the other, and `()` stands where there is none.
pub proof fn law_written_params(params: Rc<List<DocT>>)
    ensures
        texts(spec_or_unit(params)) == written_params(texts(params)),
{
    reveal(spec_or_unit);
    reveal_with_fuel(texts, 2);
    match *params {
        List::Nil => {
            assert(texts(spec_or_unit(params)) =~= seq!["()"@]);
        },
        List::Cons(h, t) => {},
    }
}

/// A signature states its contract: the `requires` clauses are the ownership of the parameters
/// followed by the preconditions, the `ensures` clauses are the ownership of the parameters and of
/// the result followed by the postconditions. There is one clause for each condition, in order, and
/// its text is that of the condition, in the scope of the parameters and, for a postcondition, of
/// the result. What a function only reads stands in between, under `preserves`. A measure follows
/// where there is one, but not in an interface.
pub proof fn law_signatures_state_their_contract(st: Emitter, env: Env, decl: Rc<FnDecl>, for_interface: bool)
    ensures
        ({
            let (st1, p) = sig_params(st, env, decl);
            let st2 = after_clauses(st1, p.env, decl.requires_);
            let env2 = spec_push_return(p.env, decl.ret_type);
            let return_id = spec_mk_ident(decl.ret_type.loc, spec_lit("return"));
            let (st3, result) = spec_full_ownership(st2, env2, decl.ret_type, return_id);
            let (st4, ret_ty) = spec_emit_type(st3, env2, decl.ret_type);
            let st5 = after_clauses(st4, env2, decl.ensures_);
            let (st6, name) = spec_emit_name(st5, Name::Fn(decl.name.val));
            let (st7, ret_name) = spec_emit_var_name(st6, spec_lit("return"));
            let pre = texts(p.pre) + clause_texts(st1, p.env, decl.requires_);
            let post = texts(p.post) + ownership(result) + clause_texts(st4, env2, decl.ensures_);
            let keyword = (if decl.is_total { Seq::<char>::empty() } else { "divergent "@ }) + (if decl.is_rec { "fn rec"@ } else { "fn"@ });
            let measure = match decl.decreases_ {
                Some(m) if !for_interface => "\n"@ + "decreases"@ + " "@ + flat(spec_emit_rvalue(st7, env2, m).1),
                _ => Seq::<char>::empty(),
            };
            flat(spec_emit_fn_sig_inner(st, env, decl, for_interface).1) == keyword + " "@ + flat(name) + joined(" "@, written_params(texts(p.params)))
                + joined("\n"@ + "requires"@ + " "@, pre) + joined("\n"@ + "preserves"@ + " "@, texts(p.kept)) + "\n"@ + "returns"@ + " "@ + flat(ret_name)
                + " "@ + ":"@ + " "@ + flat(ret_ty) + joined("\n"@ + "ensures"@ + " "@, post) + measure
        }),
{
    reveal(spec_emit_fn_sig_inner);
    reveal(spec_clone_env);
    reveal(spec_with_locals);
    reveal(spec_clone_opt_type);
    let (st1, p) = sig_params(st, env, decl);
    let st2 = after_clauses(st1, p.env, fn_requires(decl));
    let env2 = spec_push_return(p.env, fn_result(decl));
    let return_id = spec_mk_ident(type_loc(fn_result(decl)), spec_lit("return"));
    let (st3, result) = spec_full_ownership(st2, env2, fn_result(decl), return_id);
    let (st4, ret_ty) = spec_emit_type(st3, env2, fn_result(decl));
    lemma_emitted(st1, p.env, fn_requires(decl));
    lemma_emitted(st4, env2, fn_ensures(decl));
    let own = spec_wrap_exists(result.naming.bindings, result.props);
    let req = spec_emit_rvalues(st1, p.env, fn_requires(decl)).1;
    let ens = spec_emit_rvalues(st4, env2, fn_ensures(decl)).1;
    lemma_texts_append(p.pre, req);
    lemma_texts_push(p.post, own);
    lemma_texts_append(p.post, ens);
    lemma_texts_append(spec_list_push(p.post, own), ens);
    assert(texts(p.post) + Seq::<Seq<char>>::empty() =~= texts(p.post));
    law_written_params(p.params);
    lemma_joined(" "@, spec_or_unit(p.params));
    lemma_joined("\n"@ + "requires"@ + " "@, spec_list_append(p.pre, req));
    lemma_joined("\n"@ + "preserves"@ + " "@, p.kept);
    lemma_joined("\n"@ + "ensures"@ + " "@, spec_list_append(p.post, ens));
    lemma_joined("\n"@ + "ensures"@ + " "@, spec_list_append(spec_list_push(p.post, own), ens));
}

/// Where a type stands.
pub open spec fn type_loc(ty: Rc<Type>) -> Loc {
    ty.loc
}

/// A declaration without a body is its signature, with a body that is never reached.
pub proof fn law_declarations_are_their_signature(st: Emitter, env: Env, decl: Rc<FnDecl>)
    ensures
        flat(spec_emit_fn_decl(st, env, decl).1) == flat(spec_emit_fn_sig_inner(st, env, decl, false).1) + "\n"@ + "{ assume pure False; unreachable () }"@,
{
    reveal(spec_emit_fn_decl);
}

/// The parameters with names, each as a variable of the body that starts with the parameter's value.
pub open spec fn parameter_variables(st: Emitter, l: Rc<List<FnArg>>) -> Seq<char>
    decreases l,
{
    match *l {
        List::Nil => Seq::empty(),
        List::Cons(arg, t) => match arg.name {
            Some(n) => {
                let (st2, name) = spec_emit_var_name(st, n.val);
                " "@ + "let mut "@ + flat(name) + " = "@ + flat(name) + ";"@ + parameter_variables(st2, t)
            },
            None => parameter_variables(st, t),
        },
    }
}

/// The name of a parameter.
pub open spec fn param_ident(a: Rc<FnArg>) -> Option<Rc<Ident>> {
    a.name
}

/// The parameters become variables.
proof fn lemma_parameter_variables(st: Emitter, acc: Doc, l: Rc<List<FnArg>>)
    ensures
        flat(spec_emit_arg_redecls(st, acc, l).1) == flat(acc) + parameter_variables(st, l),
    decreases l,
{
    match *l {
        List::Nil => {},
        List::Cons(arg, t) => match param_ident(arg) {
            Some(n) => {
                let (st2, name) = spec_emit_var_name(st, ident_text(n));
                let d = spec_annotated(ident_loc(n), spec_group(spec_d5(spec_txt("let mut "), name, spec_txt(" = "), name, spec_txt(";"))));
                let acc2 = spec_d2(acc, spec_d2(spec_line(), d));
                lemma_parameter_variables(st2, acc2, t);
                assert(spec_emit_arg_redecls(st, acc, l) == spec_emit_arg_redecls(st2, acc2, t));
            },
            None => lemma_parameter_variables(st, acc, t),
        },
    }
}

/// A function that is not pure is its signature, with a block that holds its parameters as variables
/// and then its statements, in the scope of the parameters.
pub proof fn law_functions_are_their_signature_and_body(st: Emitter, env: Env, f: Rc<FnDefn>)
    requires
        !f.decl.is_pure,
    ensures
        ({
            let st0 = (Emitter { current_fn_total: f.decl.is_total, ..st });
            let (st1, sig) = spec_emit_fn_sig_inner(st0, env, f.decl, false);
            let st2 = spec_emit_arg_redecls(st1, spec_nil_doc(), f.decl.args).0;
            let body = spec_emit_stmts(st2, spec_push_fn_decl_args_for_body(env, f.decl), f.body).1;
            flat(spec_emit_fn_defn(st, env, f).1) == flat(sig) + "\n"@ + "{"@ + parameter_variables(st1, f.decl.args) + flat(body) + "\n"@ + "}"@
        }),
{
    reveal(spec_emit_fn_defn);
    let st0 = Emitter { current_fn_total: is_total(defn_signature(f)), ..st };
    let (st1, sig) = spec_emit_fn_sig_inner(st0, env, defn_signature(f), false);
    lemma_parameter_variables(st1, spec_nil_doc(), fn_args(defn_signature(f)));
}

/// Whether a function always terminates.
pub open spec fn is_total(f: Rc<FnDecl>) -> bool {
    f.is_total
}

/// The text of an expression's value.
pub open spec fn value_text(st: Emitter, env: Env, e: Rc<Expr>) -> Seq<char> {
    flat(spec_emit_rvalue(st, env, e).1)
}

/// The names in use once an expression was emitted as a value.
pub open spec fn after(st: Emitter, env: Env, e: Rc<Expr>) -> Emitter {
    spec_emit_rvalue(st, env, e).0
}

/// The text of an expression as a place.
pub open spec fn place(st: Emitter, env: Env, e: Rc<Expr>) -> Seq<char> {
    flat(spec_emit_lvalue(st, env, e).1)
}

/// The text of a type.
pub open spec fn type_text(st: Emitter, env: Env, ty: Rc<Type>) -> Seq<char> {
    flat(spec_emit_type(st, env, ty).1)
}

/// The text of a name.
pub open spec fn written_name(st: Emitter, n: Name) -> Seq<char> {
    flat(spec_emit_name(st, n).1)
}

/// Whether an expression stands for a place, or for an attribute of one.
pub open spec fn may_be_place(e: Rc<Expr>) -> bool {
    e.val is Var || e.val is Deref || e.val is Member || e.val is VAttr || e.val is Index
}

/// What is no place is emitted as it is.
pub proof fn lemma_inner(st: Emitter, env: Env, v: Rc<Expr>)
    requires
        !may_be_place(v),
    ensures
        spec_emit_rvalue(st, env, v) == spec_emit_rvalue_inner(st, env, v),
{
    reveal(spec_to_rvalue_decayed);
    let (st2, k) = spec_emit_expr(st, env, v);
    assert(spec_emit_rvalue(st, env, v) == (st2, spec_to_rvalue_decayed(k)));
}

/// A truth value is written as its name.
pub proof fn law_truth_values(st: Emitter, env: Env, v: Rc<Expr>, b: bool)
    requires
        v.val == ExprT::BoolLit(b),
    ensures
        value_text(st, env, v) == (if b { "true"@ } else { "false"@ }),
{
    lemma_inner(st, env, v);
}

/// The null pointer of a kind.
pub open spec fn null_text(kind: PointerKind) -> Seq<char> {
    match kind {
        PointerKind::Ref => "null"@,
        PointerKind::Unknown => "null"@,
        PointerKind::Array => "array_null"@,
        PointerKind::ArrayPtr => "array_null"@,
        PointerKind::Core => "core_null"@,
    }
}

/// The value of an integer literal of a shape, where there is one.
pub open spec fn literal_text(n: Rc<IntValue>, shape: TypeT) -> Option<Seq<char>> {
    match shape {
        TypeT::Int { signed, width } => Some(flat(spec_emit_machine_int_literal(n, signed, width))),
        TypeT::SizeT => Some(int_chars(n.value()) + "sz"@),
        TypeT::SpecInt => Some(int_chars(n.value())),
        TypeT::SpecNat => Some(int_chars(n.value())),
        TypeT::Pointer(_, kind) if n.value() == 0 => Some(null_text(kind)),
        TypeT::FnPtr { .. } if n.value() == 0 => Some("("@ + "Pulse.Lib.C.FuncPtr.null"@ + " "@ + "_"@ + " "@ + "_"@ + ")"@),
        _ => None,
    }
}

/// The texts of null pointers.
proof fn lemma_nulls(kind: PointerKind)
    ensures
        flat(spec_null_of(kind)) == null_text(kind),
        flat(spec_null_fnptr()) == "("@ + "Pulse.Lib.C.FuncPtr.null"@ + " "@ + "_"@ + " "@ + "_"@ + ")"@,
{
    reveal(spec_null_of);
    reveal(spec_null_fnptr);
}

/// An integer literal is written in the notation of its type; zero at a pointer type is the null pointer.
pub proof fn law_integers(st: Emitter, env: Env, v: Rc<Expr>, n: Rc<IntValue>, ty: Rc<Type>)
    requires
        v.val == ExprT::IntLit(n, ty),
        literal_text(n, spec_vtype_whnf(env, ty).val) is Some,
    ensures
        Some(value_text(st, env, v)) == literal_text(n, spec_vtype_whnf(env, ty).val),
{
    lemma_inner(st, env, v);
    reveal(spec_emit_int_literal);
    reveal(spec_int_is_zero);
    reveal_with_fuel(Rope::chars, 2);
    match spec_vtype_whnf(env, ty).val {
        TypeT::Pointer(_, kind) => lemma_nulls(kind),
        _ => lemma_nulls(PointerKind::Ref),
    }
}

/// A floating-point literal is converted from its text.
pub proof fn law_floats(st: Emitter, env: Env, v: Rc<Expr>, n: Text, ty: Rc<Type>, w: u32)
    requires
        v.val == ExprT::FloatLit(n, ty),
        spec_vtype_whnf(env, ty).val == (TypeT::Float { width: w }),
        w == 32 || w == 64,
    ensures
        value_text(st, env, v) == "("@ + (if w == 32 { "Pulse.Lib.C.float32_of_string"@ } else { "Pulse.Lib.C.float64_of_string"@ }) + " "@ + quoted_chars(n.chars()) + ")"@,
{
    lemma_inner(st, env, v);
    reveal(spec_emit_float_literal);
    reveal_with_fuel(Rope::chars, 2);
}

/// The residue of an error is admitted.
pub proof fn law_errors(st: Emitter, env: Env, v: Rc<Expr>, ty: Rc<Type>)
    requires
        v.val == ExprT::Error(ty),
    ensures
        value_text(st, env, v) == "(admit())"@,
{
    lemma_inner(st, env, v);
}

/// Whether an expression is an array or a place in one.
pub open spec fn points_into_array(env: Env, e: Rc<Expr>) -> bool {
    has_kind(env, e, PointerKind::Array) || has_kind(env, e, PointerKind::ArrayPtr)
}

/// Whether an expression is a pointer of the given kind.
pub open spec fn has_kind(env: Env, e: Rc<Expr>, kind: PointerKind) -> bool {
    spec_infer_expr(env, e) matches Some(t) && (spec_vtype_whnf(env, t).val matches TypeT::Pointer(_, k) && k == kind)
}

/// The kinds of pointers.
proof fn lemma_kinds(env: Env, e: Rc<Expr>)
    ensures
        forall|k: PointerKind| #[trigger] spec_is_pointer(env, e, k) == has_kind(env, e, k),
        spec_is_array_pointer(env, e) == points_into_array(env, e),
        spec_pointer_kind(env, e) == (match spec_infer_expr(env, e) {
            Some(t) => match spec_vtype_whnf(env, t).val {
                TypeT::Pointer(_, k) => Some(k),
                _ => None,
            },
            None => None,
        }),
{
    reveal(spec_is_pointer);
    reveal(spec_pointer_kind);
    reveal(spec_infer_whnf);
    reveal(spec_is_array_pointer);
}

/// The null test of a shape, if it is one of pointers.
pub open spec fn null_test_text(shape: TypeT) -> Option<Seq<char>> {
    match shape {
        TypeT::Pointer(_, PointerKind::Array) => Some("array_is_null"@),
        TypeT::Pointer(_, PointerKind::ArrayPtr) => Some("array_is_null"@),
        TypeT::Pointer(_, PointerKind::Core) => Some("Pulse.Lib.C.CoreRef.core_is_null"@),
        TypeT::Pointer(_, _) => Some("Pulse.Lib.Reference.is_null"@),
        TypeT::FnPtr { .. } => Some("Pulse.Lib.C.FuncPtr.is_null"@),
        _ => None,
    }
}

/// Whether an expression is the literal zero.
pub open spec fn is_zero(e: Rc<Expr>) -> bool {
    e.val matches ExprT::IntLit(n, _) && n.value() == 0
}

/// The null test of a comparison.
proof fn lemma_null_test(env: Env, a: Rc<Expr>, b: Rc<Expr>)
    ensures
        (match spec_null_test_of(env, a, b) {
            Some(f) => Some(f@),
            None => None,
        }) == (match spec_infer_expr(env, a) {
            Some(t) if is_zero(b) => null_test_text(spec_vtype_whnf(env, t).val),
            _ => None,
        }),
{
    reveal(spec_null_test_of);
    reveal(spec_null_test);
    reveal(spec_is_zero_literal);
    reveal(spec_int_is_zero);
    reveal(spec_infer_whnf);
}

/// A conjunction stands between its operands: the separating one where they are propositions.
pub proof fn law_and(st: Emitter, env: Env, v: Rc<Expr>, a: Rc<Expr>, b: Rc<Expr>)
    requires
        v.val == ExprT::BinOp(BinOp::LogAnd, a, b),
    ensures
        value_text(st, env, v) == "("@ + value_text(st, env, a) + " "@ + (if spec_infer_expr(env, a) matches Some(t) && t.val is SLProp { "**"@ } else { "&&"@ }) + " "@ + value_text(after(st, env, a), env, b) + ")"@,
{
    lemma_inner(st, env, v);
    lemma_kinds(env, a);
    lemma_kinds(env, b);
    lemma_null_test(env, a, b);
    let o = spec_emit_operation(st, env, v);
    reveal(spec_is_plain_slprop);
    let x = spec_emit_operands(st, env, v, spec_txt("**"));
    let y = spec_emit_operands(st, env, v, spec_txt("&&"));
    assert(o == x || o == y);
}

/// A disjunction stands between its operands.
pub proof fn law_or(st: Emitter, env: Env, v: Rc<Expr>, a: Rc<Expr>, b: Rc<Expr>)
    requires
        v.val == ExprT::BinOp(BinOp::LogOr, a, b),
    ensures
        value_text(st, env, v) == "("@ + value_text(st, env, a) + " "@ + "||"@ + " "@ + value_text(after(st, env, a), env, b) + ")"@,
{
    lemma_inner(st, env, v);
    lemma_kinds(env, a);
    lemma_kinds(env, b);
    lemma_null_test(env, a, b);
    let o = spec_emit_operation(st, env, v);
    let x = spec_emit_operands(st, env, v, spec_txt("||"));
    assert(o == x);
}

/// A comparison of a pointer with zero is the null test of its kind.
pub proof fn law_null_tests(st: Emitter, env: Env, v: Rc<Expr>, a: Rc<Expr>, b: Rc<Expr>, t: Rc<Type>)
    requires
        v.val == ExprT::BinOp(BinOp::Eq, a, b),
        is_zero(b),
        spec_infer_expr(env, a) == Some(t),
        null_test_text(spec_vtype_whnf(env, t).val) is Some,
    ensures
        value_text(st, env, v) == "("@ + null_test_text(spec_vtype_whnf(env, t).val)->Some_0 + " "@ + value_text(st, env, a) + ")"@,
{
    lemma_inner(st, env, v);
    lemma_kinds(env, a);
    lemma_kinds(env, b);
    lemma_null_test(env, a, b);
    let o = spec_emit_operation(st, env, v);
    let x = spec_emit_equality(st, env, v);
    assert(o == x);
}

/// Any other comparison has the equality of the type of its operands between them.
pub proof fn law_equalities(st: Emitter, env: Env, v: Rc<Expr>, a: Rc<Expr>, b: Rc<Expr>, t: Rc<Type>)
    requires
        v.val == ExprT::BinOp(BinOp::Eq, a, b),
        !is_zero(b) || null_test_text(spec_vtype_whnf(env, t).val) is None,
        spec_infer_expr(env, a) == Some(t),
    ensures
        value_text(st, env, v) == "("@ + value_text(st, env, a) + " "@ + (match operator_on(BinOp::Eq, spec_vtype_whnf(env, t).val) { Some(o) => o, None => "="@ }) + " "@ + value_text(after(st, env, a), env, b) + ")"@,
{
    lemma_inner(st, env, v);
    lemma_kinds(env, a);
    lemma_kinds(env, b);
    lemma_null_test(env, a, b);
    let o = spec_emit_operation(st, env, v);
    reveal(spec_operator_of);
    law_operators_follow_shapes(env, BinOp::Eq, t);
    let x = spec_emit_equality(st, env, v);
    assert(o == x);
    match spec_emit_binop(env, BinOp::Eq, t) {
        Some(d) => {
            assert(x == spec_emit_operands(st, env, v, d));
        },
        None => {
            assert(x == spec_emit_operands(st, env, v, spec_txt("=")));
        },
    }
}

/// Any other operation has the operator of the type of its first operand between its operands.
pub proof fn law_operations(st: Emitter, env: Env, v: Rc<Expr>, op: BinOp, a: Rc<Expr>, b: Rc<Expr>, t: Rc<Type>)
    requires
        v.val == ExprT::BinOp(op, a, b),
        !(op is LogAnd || op is LogOr || op is Eq),
        op is Add ==> !points_into_array(env, a) && !points_into_array(env, b),
        op is Sub ==> !(points_into_array(env, a) && points_into_array(env, b)),
        spec_infer_expr(env, a) == Some(t),
        operator_on(op, spec_vtype_whnf(env, t).val) is Some,
    ensures
        value_text(st, env, v) == "("@ + value_text(st, env, a) + " "@ + operator_on(op, spec_vtype_whnf(env, t).val)->Some_0 + " "@ + value_text(after(st, env, a), env, b) + ")"@,
{
    lemma_inner(st, env, v);
    lemma_kinds(env, a);
    lemma_kinds(env, b);
    lemma_null_test(env, a, b);
    let o = spec_emit_operation(st, env, v);
    reveal(spec_operator_of);
    law_operators_follow_shapes(env, op, t);
    let x = spec_emit_typed_operation(st, env, v, op, a);
    assert(o == x);
    match spec_emit_binop(env, op, t) {
        Some(d) => {
            assert(x == spec_emit_operands(st, env, v, d));
        },
        None => {},
    }
}

/// A sum of a pointer into an array and a number is a place in the array: the pointer is shifted by the number.
pub proof fn law_sums_of_pointers(st: Emitter, env: Env, v: Rc<Expr>, a: Rc<Expr>, b: Rc<Expr>)
    requires
        v.val == ExprT::BinOp(BinOp::Add, a, b),
        points_into_array(env, a) || points_into_array(env, b),
    ensures
        value_text(st, env, v) == (if points_into_array(env, a) {
                "("@ + "("@ + (if has_kind(env, a, PointerKind::Array) { "array_to_arrayptr"@ } else { "arrayptr_shift"@ }) + " "@ + value_text(st, env, a) + " "@ + value_text(after(st, env, a), env, b) + ")"@ + ")"@
            } else {
                "("@ + "("@ + (if has_kind(env, b, PointerKind::Array) { "array_to_arrayptr"@ } else { "arrayptr_shift"@ }) + " "@ + value_text(st, env, b) + " "@ + value_text(after(st, env, b), env, a) + ")"@ + ")"@
            }),
{
    lemma_inner(st, env, v);
    lemma_kinds(env, a);
    lemma_kinds(env, b);
    lemma_null_test(env, a, b);
    let o = spec_emit_operation(st, env, v);
    reveal(spec_shift_fn);
    if points_into_array(env, a) {
        assert(o == spec_emit_operand_call(st, env, v, spec_shift_fn(env, a), false));
    } else {
        assert(o == spec_emit_operand_call(st, env, v, spec_shift_fn(env, b), true));
    }
}

/// A difference of two pointers into an array is their distance.
pub proof fn law_differences_of_pointers(st: Emitter, env: Env, v: Rc<Expr>, a: Rc<Expr>, b: Rc<Expr>)
    requires
        v.val == ExprT::BinOp(BinOp::Sub, a, b),
        points_into_array(env, a) && points_into_array(env, b),
    ensures
        value_text(st, env, v) == "("@ + "("@ + "arrayptr_diff"@ + " "@ + value_text(st, env, a) + " "@ + value_text(after(st, env, a), env, b) + ")"@ + ")"@,
{
    lemma_inner(st, env, v);
    lemma_kinds(env, a);
    lemma_kinds(env, b);
    lemma_null_test(env, a, b);
    let o = spec_emit_operation(st, env, v);
    assert(o == spec_emit_operand_call(st, env, v, "arrayptr_diff", false));
}

/// A unary operation is the operator of its operand's type, applied to the operand.
pub proof fn law_unary_operations(st: Emitter, env: Env, v: Rc<Expr>, op: UnOp, a: Rc<Expr>, t: Rc<Type>)
    requires
        v.val == ExprT::UnOp(op, a),
        spec_infer_expr(env, a) == Some(t),
        unary_operator_on(op, spec_vtype_whnf(env, t).val) is Some,
    ensures
        value_text(st, env, v) == "("@ + unary_operator_on(op, spec_vtype_whnf(env, t).val)->Some_0 + " "@ + value_text(st, env, a) + ")"@,
{
    lemma_inner(st, env, v);
    reveal(spec_unary_operator_of);
    law_unary_operators_follow_shapes(env, op, t);
}

/// A call is the function's name, followed by the arguments in order, or by `()` where there is none.
pub proof fn law_calls(st: Emitter, env: Env, v: Rc<Expr>, f: Rc<Ident>, args: Rc<List<Expr>>)
    requires
        v.val == ExprT::FnCall(f, args),
    ensures
        value_text(st, env, v) == "("@ + written_name(after_clauses(st, env, args), Name::Fn(f.val)) + (if args.items().len() == 0 { " "@ + "()"@ } else { joined(" "@, clause_texts(st, env, args)) }) + ")"@,
{
    lemma_inner(st, env, v);
    let c = spec_emit_call(st, env, f, args);
    lemma_emitted(st, env, args);
    let l = spec_emit_rvalues(st, env, args).1;
    lemma_joined(" "@, l);
    match *args {
        List::Nil => {},
        List::Cons(h, t) => {
            assert(separated(" "@, l) == flat(spec_emit_rvalue(st, env, h).1) + each_behind(" "@, spec_emit_rvalues(after(st, env, h), env, t).1));
        },
    }
}

/// A call through a pointer hands the pointer the tuple of its arguments; it may diverge unless the function that it stands in terminates.
pub proof fn law_calls_through_pointers(st: Emitter, env: Env, v: Rc<Expr>, f: Rc<Expr>, args: Rc<List<Expr>>)
    requires
        v.val == ExprT::FnPtrCall(f, args),
    ensures
        ({
            let st1 = after_clauses(st, env, args);
            let  st2 = after(st1, env, f);
            value_text(st, env, v) == "("@ + "("@ + (if st2.current_fn_total { "Pulse.Lib.C.FuncPtr.call"@ } else { "Pulse.Lib.C.FuncPtr.call_div"@ }) + " "@ + "_"@ + " "@ + "_"@ + " "@ + value_text(st1, env, f) + " "@ + flat(spec_arg_tuple(spec_emit_rvalues(st, env, args).1)) + " "@ + "_"@ + ")"@ + ")"@
        }),
{
    lemma_inner(st, env, v);
    let c = spec_emit_fnptr_call(st, env, v);
    lemma_emitted(st, env, args);
}

/// An old value is marked as one.
pub proof fn law_old_values(st: Emitter, env: Env, v: Rc<Expr>, a: Rc<Expr>)
    requires
        v.val == ExprT::Old(a),
    ensures
        value_text(st, env, v) == "("@ + "old"@ + " "@ + value_text(st, env, a) + ")"@,
{
    lemma_inner(st, env, v);
}

/// A quantifier binds its name with its type; it is the one of separation logic where the body is a proposition.
pub proof fn law_forall(st: Emitter, env: Env, v: Rc<Expr>, x: Rc<Ident>, ty: Rc<Type>, body: Rc<Expr>)
    requires
        v.val == ExprT::Forall(x, ty, body),
    ensures
        ({
            let env2 = spec_push_var_decl(env, x, ty, LocalDeclKind::RValue);
            let  (st1, name) = spec_emit_var_name(st, x.val);
            let  (st2, ty_doc) = spec_emit_type(st1, env2, ty);
            value_text(st, env, v) == "("@ + (if spec_infer_expr(env2, body) matches Some(t) && spec_vtype_whnf(env2, t).val is SLProp { "forall*"@ } else { "forall"@ }) + " "@ + "("@ + flat(name) + ":"@ + " "@ + flat(ty_doc) + ")"@ + "."@ + " "@ + value_text(st2, env2, body) + ")"@
        }),
{
    lemma_inner(st, env, v);
    reveal(spec_is_slprop_expr);
    reveal(spec_is_slprop);
    let q = spec_emit_quantifier(st, env, true, x, ty, body);
}

/// A quantifier binds its name with its type; it is the one of separation logic where the body is a proposition.
pub proof fn law_exists(st: Emitter, env: Env, v: Rc<Expr>, x: Rc<Ident>, ty: Rc<Type>, body: Rc<Expr>)
    requires
        v.val == ExprT::Exists(x, ty, body),
    ensures
        ({
            let env2 = spec_push_var_decl(env, x, ty, LocalDeclKind::RValue);
            let  (st1, name) = spec_emit_var_name(st, x.val);
            let  (st2, ty_doc) = spec_emit_type(st1, env2, ty);
            value_text(st, env, v) == "("@ + (if spec_infer_expr(env2, body) matches Some(t) && spec_vtype_whnf(env2, t).val is SLProp { "exists*"@ } else { "exists"@ }) + " "@ + "("@ + flat(name) + ":"@ + " "@ + flat(ty_doc) + ")"@ + "."@ + " "@ + value_text(st2, env2, body) + ")"@
        }),
{
    lemma_inner(st, env, v);
    reveal(spec_is_slprop_expr);
    reveal(spec_is_slprop);
    let q = spec_emit_quantifier(st, env, false, x, ty, body);
}

/// A union literal is the constructor of its arm, applied to the value.
pub proof fn law_union_literals(st: Emitter, env: Env, v: Rc<Expr>, u: Rc<Ident>, f: Rc<Ident>, a: Rc<Expr>)
    requires
        v.val == ExprT::UnionInit(u, f, a),
    ensures
        ({
            let (st1, c) = spec_emit_name(st, Name::UnionFieldConstructor(u.val, f.val));
            value_text(st, env, v) == "("@ + flat(c) + " "@ + value_text(st1, env, a) + ")"@
        }),
{
    lemma_inner(st, env, v);
}

/// A conditional expression has its condition and its two branches in their places.
pub proof fn law_conditionals(st: Emitter, env: Env, v: Rc<Expr>, c: Rc<Expr>, a: Rc<Expr>, b: Rc<Expr>)
    requires
        v.val == ExprT::Cond(c, a, b),
    ensures
        ({
            let st1 = after(st, env, c);
            value_text(st, env, v) == "("@ + "if"@ + " "@ + value_text(st, env, c) + " "@ + "then"@ + " "@ + value_text(st1, env, a) + " "@ + "else"@ + " "@ + value_text(after(st1, env, a), env, b) + ")"@
        }),
{
    lemma_inner(st, env, v);
    let o = spec_emit_cond(st, env, v);
}

/// The size of a type is asked for by the type.
pub proof fn law_sizes(st: Emitter, env: Env, v: Rc<Expr>, ty: Rc<Type>)
    requires
        v.val == ExprT::SizeOf(ty),
    ensures
        value_text(st, env, v) == "("@ + "Pulse.Lib.C.Sizeof.c_sizeof"@ + " "@ + type_text(st, env, ty) + ")"@,
{
    lemma_inner(st, env, v);
}

/// The alignment of a type is asked for by the type, and that of an array by its handle.
pub proof fn law_alignments(st: Emitter, env: Env, v: Rc<Expr>, ty: Rc<Type>)
    requires
        v.val == ExprT::AlignOf(ty),
    ensures
        value_text(st, env, v) == "("@ + "Pulse.Lib.C.Sizeof.c_alignof"@ + " "@ + (match ty.val { TypeT::FixedArray(elem, _) => "("@ + "array"@ + " "@ + type_text(st, env, elem) + ")"@, _ => type_text(st, env, ty) }) + ")"@,
{
    lemma_inner(st, env, v);
    reveal(spec_emit_alignof);
}

/// An object is allocated by its type.
pub proof fn law_malloc(st: Emitter, env: Env, v: Rc<Expr>, ty: Rc<Type>)
    requires
        v.val == ExprT::Malloc(ty),
    ensures
        value_text(st, env, v) == "("@ + "Pulse.Lib.C.Ref.alloc_ref"@ + " "@ + "#"@ + type_text(st, env, ty) + " "@ + "()"@ + ")"@,
{
    lemma_inner(st, env, v);
    let o = spec_emit_memory(st, env, v);
    reveal(spec_emit_alloc);
}

/// An object is allocated by its type.
pub proof fn law_calloc(st: Emitter, env: Env, v: Rc<Expr>, ty: Rc<Type>)
    requires
        v.val == ExprT::Calloc(ty),
    ensures
        value_text(st, env, v) == "("@ + "Pulse.Lib.C.Ref.calloc_ref"@ + " "@ + "#"@ + type_text(st, env, ty) + " "@ + "()"@ + ")"@,
{
    lemma_inner(st, env, v);
    let o = spec_emit_memory(st, env, v);
    reveal(spec_emit_alloc);
}

/// An array is allocated by the type of its elements and their number.
pub proof fn law_malloc_array(st: Emitter, env: Env, v: Rc<Expr>, ty: Rc<Type>, n: Rc<Expr>)
    requires
        v.val == ExprT::MallocArray(ty, n),
    ensures
        value_text(st, env, v) == "("@ + "Pulse.Lib.C.Array.alloc_array"@ + " "@ + "#"@ + type_text(st, env, ty) + " "@ + value_text(spec_emit_type(st, env, ty).0, env, n) + ")"@,
{
    lemma_inner(st, env, v);
    let o = spec_emit_memory(st, env, v);
    assert(o == spec_emit_array_alloc(st, env, "Pulse.Lib.C.Array.alloc_array", ty, n));
}

/// An array is allocated by the type of its elements and their number.
pub proof fn law_calloc_array(st: Emitter, env: Env, v: Rc<Expr>, ty: Rc<Type>, n: Rc<Expr>)
    requires
        v.val == ExprT::CallocArray(ty, n),
    ensures
        value_text(st, env, v) == "("@ + "Pulse.Lib.C.Array.calloc_array"@ + " "@ + "#"@ + type_text(st, env, ty) + " "@ + value_text(spec_emit_type(st, env, ty).0, env, n) + ")"@,
{
    lemma_inner(st, env, v);
    let o = spec_emit_memory(st, env, v);
    assert(o == spec_emit_array_alloc(st, env, "Pulse.Lib.C.Array.calloc_array", ty, n));
}

/// A struct with a flexible array member is allocated by its own allocator.
pub proof fn law_malloc_flex(st: Emitter, env: Env, v: Rc<Expr>, ty: Rc<Type>, n: Rc<Expr>, s: Rc<Ident>)
    requires
        v.val == ExprT::MallocFlex(ty, n),
        spec_vtype_whnf(env, ty).val == TypeT::TypeRef(TypeRefKind::Struct(s)),
    ensures
        ({
            let (st1, f) = spec_emit_name(st, Name::StructAuxFn(s.val, "malloc_flex"));
            value_text(st, env, v) == "("@ + flat(f) + " "@ + value_text(st1, env, n) + ")"@
        }),
{
    lemma_inner(st, env, v);
    let o = spec_emit_memory(st, env, v);
    assert(o == spec_emit_flex_alloc(st, env, "malloc_flex", ty, n));
}

/// A struct with a flexible array member is allocated by its own allocator.
pub proof fn law_calloc_flex(st: Emitter, env: Env, v: Rc<Expr>, ty: Rc<Type>, n: Rc<Expr>, s: Rc<Ident>)
    requires
        v.val == ExprT::CallocFlex(ty, n),
        spec_vtype_whnf(env, ty).val == TypeT::TypeRef(TypeRefKind::Struct(s)),
    ensures
        ({
            let (st1, f) = spec_emit_name(st, Name::StructAuxFn(s.val, "calloc_flex"));
            value_text(st, env, v) == "("@ + flat(f) + " "@ + value_text(st1, env, n) + ")"@
        }),
{
    lemma_inner(st, env, v);
    let o = spec_emit_memory(st, env, v);
    assert(o == spec_emit_flex_alloc(st, env, "calloc_flex", ty, n));
}

/// Memory is filled by the pointer, the value and the number.
pub proof fn law_memset(st: Emitter, env: Env, v: Rc<Expr>, ty: Rc<Type>, a: Rc<Expr>, x: Rc<Expr>, n: Rc<Expr>)
    requires
        v.val == ExprT::Memset(ty, a, x, n),
    ensures
        ({
            let st1 = after(st, env, a);
            value_text(st, env, v) == "("@ + "Pulse.Lib.C.Array.memset"@ + " "@ + value_text(st, env, a) + " "@ + value_text(st1, env, x) + " "@ + value_text(after(st1, env, x), env, n) + ")"@
        }),
{
    lemma_inner(st, env, v);
    let o = spec_emit_memory(st, env, v);
}

/// Memory is zeroed by a store of the zero value.
pub proof fn law_memset_zero(st: Emitter, env: Env, v: Rc<Expr>, ty: Rc<Type>, a: Rc<Expr>)
    requires
        v.val == ExprT::MemsetZero(ty, a),
    ensures
        value_text(st, env, v) == "("@ + value_text(st, env, a) + " "@ + ":="@ + " "@ + "zero_default"@ + ")"@,
{
    lemma_inner(st, env, v);
    let o = spec_emit_memory(st, env, v);
}

/// Memory is freed as what it was allocated as.
pub proof fn law_free(st: Emitter, env: Env, v: Rc<Expr>, a: Rc<Expr>)
    requires
        v.val == ExprT::Free(a),
    ensures
        value_text(st, env, v) == "("@ + (if has_kind(env, a, PointerKind::Array) { "Pulse.Lib.C.Array.free_array"@ } else { "Pulse.Lib.C.Ref.free_ref"@ }) + " "@ + value_text(st, env, a) + ")"@,
{
    lemma_inner(st, env, v);
    let o = spec_emit_memory(st, env, v);
    lemma_kinds(env, a);
}

/// The container of a field is found by the function of its struct and field.
pub proof fn law_containers(st: Emitter, env: Env, v: Rc<Expr>, a: Rc<Expr>, ty: Rc<Type>, f: Rc<Ident>, s: Rc<Ident>)
    requires
        v.val == ExprT::ContainerOf(a, ty, f),
        spec_vtype_whnf(env, ty).val == TypeT::TypeRef(TypeRefKind::Struct(s)),
    ensures
        ({
            let (st1, c) = spec_emit_name(st, Name::StructContainerFn(s.val, f.val));
            value_text(st, env, v) == "("@ + "("@ + flat(c) + " "@ + value_text(st1, env, a) + ")"@ + ")"@
        }),
{
    lemma_inner(st, env, v);
    let o = spec_emit_memory(st, env, v);
}

/// The name of a type of numbers in the library of increments.
pub open spec fn number_name(shape: TypeT) -> Seq<char> {
    match shape {
        TypeT::Int { signed, width } => if int_module(signed, width) is Some {
            match (signed, width) {
                (true, 8) => "int8"@,
                (true, 16) => "int16"@,
                (true, 32) => "int32"@,
                (true, 64) => "int64"@,
                (false, 8) => "uint8"@,
                (false, 16) => "uint16"@,
                (false, 32) => "uint32"@,
                _ => "uint64"@,
            }
        } else {
            "unknown"@
        },
        TypeT::Float { width } => if width == 32 {
            "float32"@
        } else if width == 64 {
            "float64"@
        } else {
            "unknown"@
        },
        TypeT::SizeT => "sizet"@,
        TypeT::PtrdiffT => "ptrdifft"@,
        _ => "unknown"@,
    }
}

/// The suffix of an increment.
proof fn lemma_incr_suffix(env: Env, e: Rc<Expr>, t: Rc<Type>)
    requires
        spec_infer_expr(env, e) == Some(t),
    ensures
        spec_incr_suffix(env, e)@ == number_name(spec_vtype_whnf(env, t).val),
{
    reveal(spec_incr_suffix);
    reveal(spec_infer_whnf);
    reveal(spec_get_int_mod_lower);
}

/// A pointer into an array is moved in its array; a number is counted in its type.
pub proof fn law_pre_incr(st: Emitter, env: Env, v: Rc<Expr>, a: Rc<Expr>, t: Rc<Type>)
    requires
        v.val == ExprT::PreIncr(a),
        spec_infer_expr(env, a) == Some(t),
    ensures
        value_text(st, env, v) == "("@ + (if points_into_array(env, a) { "Pulse.Lib.C.Array.arrayptr_"@ + "pre_incr"@ } else { "Pulse.Lib.C.UnaryOps."@ + "pluspluspre"@ + "_"@ + number_name(spec_vtype_whnf(env, t).val) }) + " "@ + place(st, env, a) + ")"@,
{
    lemma_inner(st, env, v);
    lemma_kinds(env, a);
    lemma_incr_suffix(env, a, t);
    let o = spec_emit_incr(st, env, a, "pre_incr", "pluspluspre");
}

/// A pointer into an array is moved in its array; a number is counted in its type.
pub proof fn law_post_incr(st: Emitter, env: Env, v: Rc<Expr>, a: Rc<Expr>, t: Rc<Type>)
    requires
        v.val == ExprT::PostIncr(a),
        spec_infer_expr(env, a) == Some(t),
    ensures
        value_text(st, env, v) == "("@ + (if points_into_array(env, a) { "Pulse.Lib.C.Array.arrayptr_"@ + "post_incr"@ } else { "Pulse.Lib.C.UnaryOps."@ + "pluspluspost"@ + "_"@ + number_name(spec_vtype_whnf(env, t).val) }) + " "@ + place(st, env, a) + ")"@,
{
    lemma_inner(st, env, v);
    lemma_kinds(env, a);
    lemma_incr_suffix(env, a, t);
    let o = spec_emit_incr(st, env, a, "post_incr", "pluspluspost");
}

/// A pointer into an array is moved in its array; a number is counted in its type.
pub proof fn law_pre_decr(st: Emitter, env: Env, v: Rc<Expr>, a: Rc<Expr>, t: Rc<Type>)
    requires
        v.val == ExprT::PreDecr(a),
        spec_infer_expr(env, a) == Some(t),
    ensures
        value_text(st, env, v) == "("@ + (if points_into_array(env, a) { "Pulse.Lib.C.Array.arrayptr_"@ + "pre_decr"@ } else { "Pulse.Lib.C.UnaryOps."@ + "minusminuspre"@ + "_"@ + number_name(spec_vtype_whnf(env, t).val) }) + " "@ + place(st, env, a) + ")"@,
{
    lemma_inner(st, env, v);
    lemma_kinds(env, a);
    lemma_incr_suffix(env, a, t);
    let o = spec_emit_incr(st, env, a, "pre_decr", "minusminuspre");
}

/// A pointer into an array is moved in its array; a number is counted in its type.
pub proof fn law_post_decr(st: Emitter, env: Env, v: Rc<Expr>, a: Rc<Expr>, t: Rc<Type>)
    requires
        v.val == ExprT::PostDecr(a),
        spec_infer_expr(env, a) == Some(t),
    ensures
        value_text(st, env, v) == "("@ + (if points_into_array(env, a) { "Pulse.Lib.C.Array.arrayptr_"@ + "post_decr"@ } else { "Pulse.Lib.C.UnaryOps."@ + "minusminuspost"@ + "_"@ + number_name(spec_vtype_whnf(env, t).val) }) + " "@ + place(st, env, a) + ")"@,
{
    lemma_inner(st, env, v);
    lemma_kinds(env, a);
    lemma_incr_suffix(env, a, t);
    let o = spec_emit_incr(st, env, a, "post_decr", "minusminuspost");
}

/// That a place is allocated is said of the place; of an array of the array.
pub proof fn law_live(st: Emitter, env: Env, v: Rc<Expr>, a: Rc<Expr>)
    requires
        v.val == ExprT::Live(a),
    ensures
        value_text(st, env, v) == (match a.val {
            ExprT::Deref(inner) if has_kind(env, inner, PointerKind::ArrayPtr) => "emp"@,
            ExprT::Deref(inner) if has_kind(env, inner, PointerKind::Array) => "("@ + "Pulse.Lib.C.Array.live_array"@ + " "@ + value_text(st, env, inner) + ")"@,
            _ => "("@ + "live"@ + " "@ + place(st, env, a) + ")"@,
        }),
{
    lemma_inner(st, env, v);
    let o = spec_emit_live(st, env, a);
    match a.val {
        ExprT::Deref(inner) => lemma_kinds(env, inner),
        _ => {},
    }
}

/// The address of a place is the place; that of a global has a name of its own.
pub proof fn law_addresses(st: Emitter, env: Env, v: Rc<Expr>, a: Rc<Expr>)
    requires
        v.val == ExprT::Ref(a),
    ensures
        value_text(st, env, v) == (match a.val {
            ExprT::Var(x) if spec_addressable_global(env, x) is Some => written_name(st, Name::GlobalAddr(x.val)),
            _ => place(st, env, a),
        }),
{
    lemma_inner(st, env, v);
    let o = spec_emit_address(st, env, a);
}

/// Inline code stands in parentheses, token by token.
pub proof fn law_inline_code(st: Emitter, env: Env, v: Rc<Expr>, code: Rc<InlinePulseCode>, ty: Rc<Type>)
    requires
        v.val == ExprT::InlinePulse(code, ty),
    ensures
        value_text(st, env, v) == "("@ + each_behind(Seq::empty(), spec_emit_tokens(st, env, code.tokens).1) + ")"@,
{
    lemma_inner(st, env, v);
}

/// A pointer to a function is made of its wrapper, by whether the function terminates.
pub proof fn law_function_values(st: Emitter, env: Env, v: Rc<Expr>, g: Rc<Ident>)
    requires
        v.val == ExprT::FnRef(g),
    ensures
        ({
            let total = spec_lookup_fn(env, g) matches Some(d) && d.is_total;
            let  (st1, w1) = spec_fnptr_wrap_name(st, g.val);
            let  (st2, w2) = spec_fnptr_wrap_name(st1, g.val);
            let  (st3, w3) = spec_fnptr_wrap_name(st2, g.val);
            value_text(st, env, v) == "("@ + "("@ + (if total { "Pulse.Lib.C.FuncPtr.of_fn"@ } else { "Pulse.Lib.C.FuncPtr.of_fn_div"@ }) + " "@ + "("@ + (if total { "Pulse.Lib.C.FuncPtr.pre_of_tot "@ } else { "Pulse.Lib.C.FuncPtr.pre_of "@ }) + flat(w1) + ")"@ + " "@ + "("@ + (if total { "Pulse.Lib.C.FuncPtr.post_of_tot "@ } else { "Pulse.Lib.C.FuncPtr.post_of "@ }) + flat(w2) + ")"@ + " "@ + flat(w3) + ")"@ + ")"@
        }),
{
    lemma_inner(st, env, v);
    reveal(spec_emit_of_fn);
}

/// A cast converts its operand as the two shapes demand, where they differ.
pub proof fn law_casts(st: Emitter, env: Env, v: Rc<Expr>, a: Rc<Expr>, ty: Rc<Type>, from: Rc<Type>)
    requires
        v.val == ExprT::Cast(a, ty),
        spec_infer_expr(env, a) == Some(from),
        !(spec_vtype_whnf(env, ty).val is Pointer || spec_vtype_whnf(env, ty).val is FnPtr),
        !spec_vtype_eq(env, spec_vtype_whnf(env, from), spec_vtype_whnf(env, ty)),
        !(spec_vtype_whnf(env, ty).val is SizeT && a.val is IntLit),
        converted(spec_vtype_whnf(env, from).val, spec_vtype_whnf(env, ty).val, value_text(st, env, a)) is Some,
    ensures
        converted(spec_vtype_whnf(env, from).val, spec_vtype_whnf(env, ty).val, value_text(st, env, a)) == Some(value_text(st, env, v)),
{
    lemma_inner(st, env, v);
    reveal(spec_infer_whnf);
    reveal(spec_cast_doc);
    law_conversions(spec_vtype_whnf(env, from), spec_vtype_whnf(env, ty), spec_emit_rvalue(st, env, a).1);
    let o = spec_emit_cast(st, env, loc_of(v), a, ty);
}

/// A cast to a type with the same values changes nothing.
pub proof fn law_casts_that_change_nothing(st: Emitter, env: Env, v: Rc<Expr>, a: Rc<Expr>, ty: Rc<Type>, from: Rc<Type>)
    requires
        v.val == ExprT::Cast(a, ty),
        spec_infer_expr(env, a) == Some(from),
        spec_vtype_eq(env, spec_vtype_whnf(env, from), spec_vtype_whnf(env, ty)),
        !(spec_vtype_whnf(env, ty).val is SizeT && a.val is IntLit),
    ensures
        value_text(st, env, v) == value_text(st, env, a),
{
    lemma_inner(st, env, v);
    reveal(spec_infer_whnf);
    reveal(spec_cast_doc);
    let o = spec_emit_cast(st, env, loc_of(v), a, ty);
}

/// An integer literal that is cast to `size_t` is a literal of that type.
pub proof fn law_size_literals(st: Emitter, env: Env, v: Rc<Expr>, a: Rc<Expr>, ty: Rc<Type>, from: Rc<Type>, n: Rc<IntValue>, t: Rc<Type>)
    requires
        v.val == ExprT::Cast(a, ty),
        spec_infer_expr(env, a) == Some(from),
        spec_vtype_whnf(env, ty).val is SizeT,
        a.val == ExprT::IntLit(n, t),
    ensures
        value_text(st, env, v) == int_chars(n.value()) + "sz"@,
{
    lemma_inner(st, env, v);
    reveal(spec_infer_whnf);
    reveal_with_fuel(Rope::chars, 2);
    let o = spec_emit_cast(st, env, loc_of(v), a, ty);
}

/// A pointer with the given text as a pointer of another kind, where no type has to be named.
pub open spec fn pointer_of_kind(from: TypeT, is_literal: bool, kind: PointerKind, d: Seq<char>) -> Option<Seq<char>> {
    match (from, kind) {
        (TypeT::FixedArray(_, _), PointerKind::Array) => Some(d),
        (TypeT::FixedArray(_, _), PointerKind::ArrayPtr) => Some(d),
        (TypeT::FixedArray(_, _), PointerKind::Core) => None,
        (TypeT::FixedArray(_, _), _) => Some(
            "("@ + (if is_literal { "Pulse.Lib.C.Array.array_literal_to_ref"@ } else { "Pulse.Lib.C.Array.array_to_ref"@ }) + " "@ + d + ")"@,
        ),
        (TypeT::Pointer(_, PointerKind::Core), PointerKind::Ref) => None,
        (TypeT::Pointer(_, PointerKind::Core), PointerKind::Unknown) => None,
        (TypeT::Pointer(_, PointerKind::Ref), PointerKind::Core) => Some("("@ + "Pulse.Lib.C.CoreRef.ref_to_core"@ + " "@ + d + ")"@),
        (TypeT::Pointer(_, PointerKind::Unknown), PointerKind::Core) => Some("("@ + "Pulse.Lib.C.CoreRef.ref_to_core"@ + " "@ + d + ")"@),
        (TypeT::Pointer(_, PointerKind::Core), PointerKind::Core) => Some(d),
        (TypeT::Pointer(_, _), PointerKind::Core) => Some(
            "("@ + "Pulse.Lib.C.CoreRef.ref_to_core"@ + " "@ + "("@ + "Pulse.Lib.C.Array.array_to_ref"@ + " "@ + d + ")"@ + ")"@,
        ),
        (TypeT::Pointer(_, _), PointerKind::ArrayPtr) => Some("("@ + "("@ + "array_to_arrayptr"@ + " "@ + d + " "@ + "0sz"@ + ")"@ + ")"@),
        (TypeT::Pointer(_, _), _) => Some(d),
        (TypeT::Error, _) => Some(d),
        (TypeT::Unknown, _) => Some(d),
        _ => None,
    }
}

/// Whether an expression is a string literal.
pub open spec fn is_static_literal(e: Rc<Expr>) -> bool {
    e.val matches ExprT::ArrayInit { elem_ty: _, elems: _, is_static } && is_static
}

/// A cast to a pointer changes its kind: zero becomes null, a raw pointer gets the type that it points to, and an array a handle.
pub proof fn law_casts_to_pointers(st: Emitter, env: Env, v: Rc<Expr>, a: Rc<Expr>, ty: Rc<Type>, from: Rc<Type>, to: Rc<Type>, kind: PointerKind)
    requires
        v.val == ExprT::Cast(a, ty),
        spec_infer_expr(env, a) == Some(from),
        spec_vtype_whnf(env, ty).val == TypeT::Pointer(to, kind),
        !spec_vtype_eq(env, spec_vtype_whnf(env, from), spec_vtype_whnf(env, ty)),
        is_zero(a) || raw_to_typed(spec_vtype_whnf(env, from).val, kind) || pointer_of_kind(spec_vtype_whnf(env, from).val, is_static_literal(a), kind, value_text(st, env, a)) is Some,
    ensures
        Some(value_text(st, env, v)) == (if is_zero(a) {
            Some(null_text(kind))
        } else if raw_to_typed(spec_vtype_whnf(env, from).val, kind) {
            Some("("@ + "("@ + "Pulse.Lib.C.CoreRef.core_to_ref"@ + " "@ + type_text(after(st, env, a), env, to) + " "@ + value_text(st, env, a) + ")"@ + ")"@)
        } else {
            pointer_of_kind(spec_vtype_whnf(env, from).val, is_static_literal(a), kind, value_text(st, env, a))
        }),
{
    lemma_inner(st, env, v);
    reveal(spec_infer_whnf);
    reveal(spec_cast_doc);
    reveal(spec_cast_to_pointer);
    reveal(spec_is_zero_literal);
    reveal(spec_int_is_zero);
    lemma_nulls(kind);
    let o = spec_emit_cast(st, env, loc_of(v), a, ty);
}

/// Whether a raw pointer becomes a pointer to one object.
pub open spec fn raw_to_typed(from: TypeT, kind: PointerKind) -> bool {
    (kind == PointerKind::Ref || kind == PointerKind::Unknown) && (from matches TypeT::Pointer(_, k) && k == PointerKind::Core)
}

/// A local variable is its name: a place that is read by `!`, or a value where it cannot be written.
pub proof fn law_local_variables(st: Emitter, env: Env, v: Rc<Expr>, x: Rc<Ident>, d: Rc<LocalDecl>)
    requires
        v.val == ExprT::Var(x),
        spec_lookup_global_var(env, x) is None,
        spec_lookup_var(env, x) == Some(d),
    ensures
        d.kind is RValue ==> value_text(st, env, v) == flat(spec_emit_var_name(st, x.val).1),
        d.kind is LValue ==> place(st, env, v) == flat(spec_emit_var_name(st, x.val).1) && value_text(st, env, v) == "("@ + "!"@ + place(st, env, v) + ")"@,
{
    reveal(spec_emit_variable);
    reveal(spec_to_rvalue_decayed);
    let k = spec_emit_expr(st, env, v);
    let l = spec_emit_lvalue(st, env, v);
}

/// What a pointer points to: an array is read at its start, and any other pointer is a place.
pub proof fn law_dereferences(st: Emitter, env: Env, v: Rc<Expr>, a: Rc<Expr>)
    requires
        v.val == ExprT::Deref(a),
        !has_kind(env, a, PointerKind::Core),
    ensures
        has_kind(env, a, PointerKind::Array) ==> value_text(st, env, v) == "("@ + "("@ + "array_read"@ + " "@ + value_text(st, env, a) + " "@ + "0sz"@ + ")"@ + ")"@,
        has_kind(env, a, PointerKind::ArrayPtr) ==> value_text(st, env, v) == "("@ + "("@ + "arrayptr_read"@ + " "@ + value_text(st, env, a) + " "@ + "0sz"@ + ")"@ + ")"@,
        !points_into_array(env, a) ==> place(st, env, v) == flat(spec_to_rvalue(spec_emit_expr(st, env, a).1)) && value_text(st, env, v) == "("@ + "!"@ + place(st, env, v)
            + ")"@,
{
    reveal(spec_to_rvalue_decayed);
    lemma_kinds(env, a);
    let d = spec_emit_deref(st, env, v, a);
    let k = spec_emit_expr(st, env, v);
    let l = spec_emit_lvalue(st, env, v);
    assert(k == d);
}

/// A raw pointer is given its type before what it points to is used.
pub proof fn law_raw_dereferences(st: Emitter, env: Env, v: Rc<Expr>, a: Rc<Expr>, ty: Rc<Type>)
    requires
        v.val == ExprT::Deref(a),
        has_kind(env, a, PointerKind::Core),
        spec_infer_expr(env, v) == Some(ty),
    ensures
        ({
            let (st1, k) = spec_emit_expr(st, env, a);
            place(st, env, v) == "("@ + "("@ + "Pulse.Lib.C.CoreRef.core_to_ref"@ + " "@ + type_text(st1, env, ty) + " "@ + flat(spec_to_rvalue(k)) + ")"@ + ")"@
        }),
{
    lemma_kinds(env, a);
    let d = spec_emit_deref(st, env, v, a);
    let k = spec_emit_expr(st, env, v);
    let l = spec_emit_lvalue(st, env, v);
    assert(k == d);
}

/// A place is read by `!`, an array stored in place as a whole, and a value is itself.
pub proof fn law_reading(d: Doc)
    ensures
        flat(spec_to_rvalue(ExprKind::LValue(d))) == "("@ + "!"@ + flat(d) + ")"@,
        flat(spec_to_rvalue(ExprKind::ArrayLValue(d))) == "("@ + "array_read_all"@ + " "@ + flat(d) + ")"@,
        spec_to_rvalue(ExprKind::RValue(d)) == d,
        flat(spec_to_rvalue_decayed(ExprKind::LValue(d))) == "("@ + "!"@ + flat(d) + ")"@,
        spec_to_rvalue_decayed(ExprKind::ArrayLValue(d)) == d,
        spec_to_rvalue_decayed(ExprKind::RValue(d)) == d,
{
    reveal(spec_to_rvalue);
    reveal(spec_to_rvalue_decayed);
}

/// A field of a struct: the projection of the place, which is the handle of an array that is stored
/// in place; or the field of the value.
pub proof fn law_struct_fields(st: Emitter, env: Env, v: Rc<Expr>, x: Rc<Expr>, a: Rc<Ident>, ty: Rc<Type>, s: Rc<Ident>)
    requires
        v.val == ExprT::Member(x, a),
        spec_infer_expr(env, x) == Some(ty),
        spec_vtype_whnf(env, ty).val == TypeT::TypeRef(TypeRefKind::Struct(s)),
    ensures
        ({
            let (st1, k) = spec_emit_expr(st, env, x);
            let r = spec_emit_expr(st, env, v).1;
            match k {
                ExprKind::LValue(d) => {
                    let t = "("@ + written_name(st1, Name::StructFieldProj(s.val, a.val)) + " "@ + flat(d) + ")"@;
                    if spec_struct_field_is_array(env, s, a) {
                        r matches ExprKind::ArrayLValue(p) && flat(p) == t
                    } else {
                        r matches ExprKind::LValue(p) && flat(p) == t
                    }
                },
                ExprKind::RValue(d) => r matches ExprKind::RValue(p) && flat(p) == "("@ + flat(d) + ")"@ + "."@ + written_name(st1, Name::StructDirectFieldName(s.val, a.val)),
                ExprKind::ArrayLValue(d) => r matches ExprKind::RValue(p) && flat(p) == "("@ + flat(d) + ")"@ + "."@ + written_name(
                    st1,
                    Name::StructDirectFieldName(s.val, a.val),
                ),
            }
        }),
{
    let m = spec_emit_member(st, env, v, x, a);
    let k = spec_emit_expr(st, env, v);
    assert(k == m);
    let kx = spec_emit_expr(st, env, x);
}

/// An arm of a union: the projection of the place, or what the constructor of the arm was applied to.
pub proof fn law_union_arms(st: Emitter, env: Env, v: Rc<Expr>, x: Rc<Expr>, a: Rc<Ident>, ty: Rc<Type>, u: Rc<Ident>)
    requires
        v.val == ExprT::Member(x, a),
        spec_infer_expr(env, x) == Some(ty),
        spec_vtype_whnf(env, ty).val == TypeT::TypeRef(TypeRefKind::Union(u)),
    ensures
        ({
            let (st1, k) = spec_emit_expr(st, env, x);
            let r = spec_emit_expr(st, env, v).1;
            match k {
                ExprKind::LValue(d) => {
                    let t = "("@ + written_name(st1, Name::UnionFieldProj(u.val, a.val)) + " "@ + flat(d) + ")"@;
                    if spec_union_field_is_array(env, u, a) {
                        r matches ExprKind::ArrayLValue(p) && flat(p) == t
                    } else {
                        r matches ExprKind::LValue(p) && flat(p) == t
                    }
                },
                ExprKind::RValue(d) => r matches ExprKind::RValue(p) && flat(p) == "("@ + written_name(st1, Name::UnionFieldConstructor(u.val, a.val)) + "?._0"@ + " "@ + flat(d)
                    + ")"@,
                ExprKind::ArrayLValue(d) => r matches ExprKind::RValue(p) && flat(p) == "("@ + written_name(st1, Name::UnionFieldConstructor(u.val, a.val)) + "?._0"@ + " "@
                    + flat(d) + ")"@,
            }
        }),
{
    let m = spec_emit_member(st, env, v, x, a);
    let k = spec_emit_expr(st, env, v);
    assert(k == m);
    let kx = spec_emit_expr(st, env, x);
}

/// An element of an array is read by its index; one of an array that is a value is an element of the
/// description of its contents.
pub proof fn law_elements(st: Emitter, env: Env, v: Rc<Expr>, a: Rc<Expr>, i: Rc<Expr>)
    requires
        v.val == ExprT::Index(a, i),
    ensures
        ({
            let (st1, k) = spec_emit_expr(st, env, a);
            let is_value = k is RValue && (spec_infer_expr(env, a) matches Some(t) && spec_vtype_whnf(env, t).val is FixedArray);
            value_text(st, env, v) == (if is_value {
                "("@ + "("@ + "array_spec_idx"@ + " "@ + value_text(st, env, a) + " "@ + "("@ + "SizeT.v"@ + " "@ + value_text(st1, env, i) + ")"@ + ")"@ + ")"@
            } else {
                "("@ + "("@ + (if has_kind(env, a, PointerKind::ArrayPtr) { "arrayptr_read"@ } else { "array_read"@ }) + " "@ + value_text(st, env, a) + " "@ + value_text(st1, env, i) + ")"@
                    + ")"@
            })
        }),
{
    reveal(spec_fixed_array_len);
    reveal(spec_infer_whnf);
    reveal(spec_to_rvalue_decayed);
    lemma_kinds(env, a);
    let r = spec_emit_index(st, env, v);
    let k = spec_emit_expr(st, env, v);
    assert(k == r);
    let ra = spec_emit_rvalue(st, env, a);
}

/// The length of an array: the number where it is fixed, and otherwise asked of the array.
pub proof fn law_lengths(st: Emitter, env: Env, v: Rc<Expr>, a: Rc<Expr>, ty: Rc<Type>)
    requires
        v.val == ExprT::VAttr(VAttr::Length, a),
        spec_infer_expr(env, a) == Some(ty),
    ensures
        value_text(st, env, v) == (match spec_vtype_whnf(env, ty).val {
            TypeT::FixedArray(_, n) => nat_chars(n as nat),
            TypeT::FlexArray(_) => "("@ + "array_spec_len"@ + " "@ + value_text(st, env, a) + ")"@,
            _ => "("@ + "reveal"@ + " "@ + "("@ + "length_of"@ + " "@ + value_text(st, env, a) + ")"@ + ")"@,
        }),
{
    reveal(spec_fixed_array_len);
    reveal(spec_is_flex_array);
    reveal(spec_infer_whnf);
    reveal(spec_to_rvalue_decayed);
    let l = spec_emit_length(st, env, a);
    let k = spec_emit_expr(st, env, v);
}

/// Whether an arm is active is asked of the union by the constructor of the arm.
pub proof fn law_active_arms(st: Emitter, env: Env, v: Rc<Expr>, f: Rc<Ident>, a: Rc<Expr>, ty: Rc<Type>, u: Rc<Ident>)
    requires
        v.val == ExprT::VAttr(VAttr::Active(f), a),
        spec_infer_expr(env, a) == Some(ty),
        spec_vtype_whnf(env, ty).val == TypeT::TypeRef(TypeRefKind::Union(u)),
    ensures
        value_text(st, env, v) == "("@ + written_name(after(st, env, a), Name::UnionFieldConstructor(u.val, f.val)) + "?"@ + " "@ + value_text(st, env, a) + ")"@,
{
    reveal(spec_union_of);
    reveal(spec_infer_whnf);
    reveal(spec_to_rvalue_decayed);
    let l = spec_emit_active(st, env, v, f, a);
    let k = spec_emit_expr(st, env, v);
}

/// An assignment that is used as a value stores into its place, array cell by array cell.
pub proof fn law_assignments_as_values(st: Emitter, env: Env, v: Rc<Expr>, x: Rc<Expr>, b: Rc<Expr>)
    requires
        v.val == ExprT::AssignExpr(x, b),
    ensures
        x.val matches ExprT::Index(a, i) ==> ({
            let (st1, k) = spec_emit_expr(st, env, a);
            value_text(st, env, v) == "("@ + (if has_kind(env, a, PointerKind::ArrayPtr) { "arrayptr_assign_ret"@ } else { "array_assign_ret"@ }) + " "@ + value_text(st, env, a) + " "@
                + value_text(st1, env, i) + " "@ + value_text(after(st1, env, i), env, b) + ")"@
        }),
        !(x.val is Index || x.val is Deref) ==> value_text(st, env, v) == "("@ + "assign_ret"@ + " "@ + place(st, env, x) + " "@ + value_text(
            spec_emit_lvalue(st, env, x).0,
            env,
            b,
        ) + ")"@,
{
    lemma_inner(st, env, v);
    reveal_with_fuel(spec_list_append, 5);
    let o = spec_emit_assign_expr(st, env, v);
    let t = spec_emit_assign_target(st, env, x);
    match x.val {
        ExprT::Index(a, i) => {
            lemma_kinds(env, a);
            let ra = spec_emit_rvalue(st, env, a);
        },
        _ => {},
    }
}

/// A C type becomes the F* type of its values: integers and numbers those of their widths, pointers
/// by their kind, arrays by their elements and length, records and typedefs by their name. A
/// refinement does not change the type.
pub proof fn law_types(st: Emitter, env: Env, ty: Rc<Type>)
    ensures
        type_text(st, env, ty) == (match ty.val {
            TypeT::Void => "unit"@,
            TypeT::Bool => "bool"@,
            TypeT::Int { signed, width } => (if signed { "Int"@ } else { "UInt"@ }) + nat_chars(width as nat) + ".t"@,
            TypeT::Float { width } => if width == 32 {
                "Pulse.Lib.C.float32"@
            } else if width == 64 {
                "Pulse.Lib.C.float64"@
            } else {
                "unit"@
            },
            TypeT::SizeT => "SizeT.t"@,
            TypeT::PtrdiffT => "Pulse.Lib.C.PtrdiffT.t"@,
            TypeT::Pointer(to, PointerKind::Array) => "("@ + "array"@ + " "@ + type_text(st, env, to) + ")"@,
            TypeT::Pointer(to, PointerKind::ArrayPtr) => "("@ + "array"@ + " "@ + type_text(st, env, to) + ")"@,
            TypeT::Pointer(_, PointerKind::Core) => "core_ref"@,
            TypeT::Pointer(to, _) => "("@ + "ref"@ + " "@ + type_text(st, env, to) + ")"@,
            TypeT::FixedArray(elem, len) => "("@ + "full_array_lspec"@ + " "@ + type_text(st, env, elem) + " "@ + nat_chars(len as nat) + ")"@,
            TypeT::FlexArray(elem) => "("@ + "full_array_spec"@ + " "@ + type_text(st, env, elem) + ")"@,
            TypeT::Unknown => "unit"@,
            TypeT::Error => "unit"@,
            TypeT::FnPtr { args, ret } => {
                let (st1, domain) = spec_fnptr_domain(st, env, args);
                "("@ + "Pulse.Lib.C.FuncPtr.func_ptr"@ + " "@ + flat(domain) + " "@ + type_text(st1, env, ret) + ")"@
            },
            TypeT::TypeRef(n) => written_name(st, Name::TypeRef(spec_type_ref(n))),
            TypeT::SLProp => "slprop"@,
            TypeT::SpecInt => "int"@,
            TypeT::SpecNat => "nat"@,
            TypeT::Refine(t, _) => type_text(st, env, t),
            TypeT::RefineAlways(t, _) => type_text(st, env, t),
            TypeT::RefineUninit(t, _) => type_text(st, env, t),
            TypeT::RefineValue(t, _, _, _) => type_text(st, env, t),
            TypeT::Plain(t) => type_text(st, env, t),
            TypeT::Nullable(t) => type_text(st, env, t),
        }),
{
    reveal(spec_int_type);
}

/// The text of a type's zero value.
pub open spec fn zero_text(st: Emitter, env: Env, ty: Rc<Type>) -> Seq<char> {
    flat(spec_emit_type_default(st, env, ty).1)
}

/// The zero value of a type, as C initializes what is not given a value.
pub proof fn law_zero_values(st: Emitter, env: Env, ty: Rc<Type>)
    ensures
        zero_text(st, env, ty) == (match ty.val {
            TypeT::Int { signed, width } => if signed {
                "("@ + "Int"@ + nat_chars(width as nat) + ".int_to_t 0"@ + ")"@
            } else {
                "("@ + "UInt"@ + nat_chars(width as nat) + ".uint_to_t 0"@ + ")"@
            },
            TypeT::Float { width } => if width == 32 {
                "Pulse.Lib.C.float32_zero"@
            } else if width == 64 {
                "Pulse.Lib.C.float64_zero"@
            } else {
                "(admit())"@
            },
            TypeT::Bool => "false"@,
            TypeT::SizeT => "0sz"@,
            TypeT::Pointer(_, PointerKind::Core) => "core_null"@,
            TypeT::Pointer(_, PointerKind::Array) => "zero_default"@,
            TypeT::Pointer(_, PointerKind::ArrayPtr) => "zero_default"@,
            TypeT::Pointer(_, _) => "null"@,
            TypeT::FixedArray(elem, len) => "("@ + "("@ + "array_spec_zeroed"@ + " "@ + type_text(st, env, elem) + " "@ + "("@ + "SizeT.v "@ + nat_chars(len as nat) + "sz"@
                + ")"@ + " "@ + zero_text(spec_emit_type(st, env, elem).0, env, elem) + ")"@ + ")"@,
            TypeT::FlexArray(elem) => "("@ + "("@ + "array_spec_zeroed"@ + " "@ + type_text(st, env, elem) + " "@ + "0"@ + " "@ + zero_text(
                spec_emit_type(st, env, elem).0,
                env,
                elem,
            ) + ")"@ + ")"@,
            TypeT::Void => "()"@,
            TypeT::TypeRef(_) => "zero_default"@,
            TypeT::FnPtr { args, ret } => {
                let (st1, domain) = spec_fnptr_domain(st, env, args);
                "("@ + "Pulse.Lib.C.FuncPtr.null"@ + " "@ + flat(domain) + " "@ + type_text(st1, env, ret) + ")"@
            },
            TypeT::Refine(t, _) => zero_text(st, env, t),
            TypeT::RefineAlways(t, _) => zero_text(st, env, t),
            TypeT::RefineUninit(t, _) => zero_text(st, env, t),
            TypeT::RefineValue(t, _, _, _) => zero_text(st, env, t),
            TypeT::Plain(t) => zero_text(st, env, t),
            TypeT::Nullable(t) => zero_text(st, env, t),
            _ => "(admit())"@,
        }),
{
    reveal(spec_int_zero);
    reveal(crate::emit_exprs::spec_admit_at);
}

/// The text of a statement.
pub open spec fn stmt_text(st: Emitter, env: Env, s: Rc<Stmt>) -> Seq<char> {
    flat(spec_emit_stmt(st, env, s).1)
}

/// The text of statements in braces.
pub open spec fn block_text(st: Emitter, env: Env, l: Rc<List<Stmt>>) -> Seq<char> {
    flat(spec_emit_block(st, env, l).1)
}

/// A returned value follows its keyword.
pub proof fn law_returns(st: Emitter, env: Env, s: Rc<Stmt>, e: Rc<Expr>)
    requires
        s.val == StmtT::Return(Some(e)),
    ensures
        stmt_text(st, env, s) == "return"@ + " "@ + value_text(st, env, e) + ";"@,
{
    let r = spec_emit_stmt(st, env, s);
}

/// A return without a value is the keyword.
pub proof fn law_empty_returns(st: Emitter, env: Env, s: Rc<Stmt>)
    requires
        s.val == StmtT::Return(None),
    ensures
        stmt_text(st, env, s) == "return;"@,
{
    let r = spec_emit_stmt(st, env, s);
}

/// A break is the keyword.
pub proof fn law_breaks(st: Emitter, env: Env, s: Rc<Stmt>)
    requires
        s.val == StmtT::Break,
    ensures
        stmt_text(st, env, s) == "break;"@,
{
    let r = spec_emit_stmt(st, env, s);
}

/// A continue is the keyword.
pub proof fn law_continues(st: Emitter, env: Env, s: Rc<Stmt>)
    requires
        s.val == StmtT::Continue,
    ensures
        stmt_text(st, env, s) == "continue;"@,
{
    let r = spec_emit_stmt(st, env, s);
}

/// The residue of an error is admitted.
pub proof fn law_error_statements(st: Emitter, env: Env, s: Rc<Stmt>)
    requires
        s.val == StmtT::Error,
    ensures
        stmt_text(st, env, s) == "(admit());"@,
{
    let r = spec_emit_stmt(st, env, s);
}

/// An asserted proposition follows its keyword.
pub proof fn law_assertions(st: Emitter, env: Env, s: Rc<Stmt>, e: Rc<Expr>)
    requires
        s.val == StmtT::Assert(e),
    ensures
        stmt_text(st, env, s) == "assert"@ + " "@ + value_text(st, env, e) + ";"@,
{
    let r = spec_emit_stmt(st, env, s);
}

/// A jump names its label.
pub proof fn law_gotos(st: Emitter, env: Env, s: Rc<Stmt>, l: Rc<Ident>)
    requires
        s.val == StmtT::Goto(l),
    ensures
        stmt_text(st, env, s) == "goto "@ + written_name(st, Name::Label(l.val)) + ";"@,
{
    let r = spec_emit_stmt(st, env, s);
}

/// Ghost code is its tokens.
pub proof fn law_ghost_code(st: Emitter, env: Env, s: Rc<Stmt>, code: Rc<InlinePulseCode>)
    requires
        s.val == StmtT::GhostStmt(code),
    ensures
        stmt_text(st, env, s) == each_behind(Seq::empty(), spec_emit_tokens(st, env, code.tokens).1) + ";"@,
{
    let r = spec_emit_stmt(st, env, s);
}

/// A declared variable has its type.
pub proof fn law_declared_variables(st: Emitter, env: Env, s: Rc<Stmt>, x: Rc<Ident>, ty: Rc<Type>)
    requires
        s.val == StmtT::Decl(x, ty),
        !(ty.val is FixedArray),
    ensures
        ({
            let (st1, name) = spec_emit_var_name(st, x.val);
            stmt_text(st, env, s) == "let mut "@ + flat(name) + " :"@ + " "@ + type_text(st1, env, ty) + ";"@
        }),
{
    reveal(spec_emit_decl_stmt);
    let r = spec_emit_stmt(st, env, s);
}

/// An array on the stack: it is allocated, freed when its scope is left, and then bound to its name.
pub open spec fn stack_array_text(name: Seq<char>, elem: Seq<char>, len: Seq<char>) -> Seq<char> {
    "let "@ + name + " ="@ + " "@ + "("@ + "stack_alloc_array"@ + " "@ + "#"@ + elem + " "@ + len + ")"@ + ";"@ + "\n"@ + "defer "@ + "("@ + "array_pts_to_uninit'"@ + " "@
        + name + ")"@ + " "@ + "{ stack_free_array _ }"@ + ";"@ + "\n"@ + "let mut "@ + name + " ="@ + " "@ + name + ";"@
}

/// The text of an array on the stack.
proof fn lemma_stack_array(x: Doc, elem: Doc, len: Doc)
    ensures
        flat(spec_stack_array(x, elem, len)) == stack_array_text(flat(x), flat(elem), flat(len)),
{
    reveal(spec_stack_array);
}

/// A declared array of fixed length stands on the stack.
pub proof fn law_declared_arrays(st: Emitter, env: Env, s: Rc<Stmt>, x: Rc<Ident>, ty: Rc<Type>, elem: Rc<Type>, len: u64)
    requires
        s.val == StmtT::Decl(x, ty),
        ty.val == TypeT::FixedArray(elem, len),
    ensures
        ({
            let (st1, name) = spec_emit_var_name(st, x.val);
            stmt_text(st, env, s) == stack_array_text(flat(name), type_text(st1, env, elem), nat_chars(len as nat) + "sz"@)
        }),
{
    reveal(spec_emit_decl_stmt);
    let (st1, name) = spec_emit_var_name(st, ident_text(x));
    let (st2, d) = spec_emit_type(st1, env, elem);
    lemma_stack_array(name, d, spec_text_doc(spec_cat(spec_num(len), spec_lit("sz"))));
    let r = spec_emit_stmt(st, env, s);
}

/// An array whose length is computed stands on the stack.
pub proof fn law_stack_arrays(st: Emitter, env: Env, s: Rc<Stmt>, name: Rc<Ident>, elem_type: Rc<Type>, size: Rc<Expr>)
    requires
        s.val == (StmtT::DeclStackArray { name, elem_type, size }),
    ensures
        ({
            let (st1, x) = spec_emit_var_name(st, name.val);
            stmt_text(st, env, s) == stack_array_text(flat(x), type_text(after(st1, env, size), env, elem_type), value_text(st1, env, size))
        }),
{
    let (st1, x) = spec_emit_var_name(st, ident_text(name));
    let (st2, n) = spec_emit_rvalue(st1, env, size);
    let (st3, d) = spec_emit_type(st2, env, elem_type);
    lemma_stack_array(x, d, n);
    let r = spec_emit_stmt(st, env, s);
}

/// A defined constant has its type and its value.
pub proof fn law_definitions(st: Emitter, env: Env, s: Rc<Stmt>, x: Rc<Ident>, ty: Rc<Type>, e: Rc<Expr>)
    requires
        s.val == StmtT::Let(x, ty, e),
    ensures
        ({
            let (st1, name) = spec_emit_var_name(st, x.val);
            let (st2, t) = spec_emit_type(st1, env, ty);
            stmt_text(st, env, s) == "let "@ + flat(name) + " :"@ + " "@ + flat(t) + " "@ + "="@ + " "@ + value_text(st2, env, e) + ";"@
        }),
{
    reveal(spec_emit_let_stmt);
    let r = spec_emit_stmt(st, env, s);
}

/// A conditional statement has its condition, its postconditions and its two branches in their places.
pub proof fn law_branches(st: Emitter, env: Env, s: Rc<Stmt>, cond: Rc<Expr>, then_branch: Rc<List<Stmt>>, else_branch: Rc<List<Stmt>>, ensures_: Rc<List<Expr>>)
    requires
        s.val == (StmtT::If { cond, then_branch, else_branch, ensures_ }),
    ensures
        ({
            let st1 = after(st, env, cond);
            let st2 = after_clauses(st1, env, ensures_);
            stmt_text(st, env, s) == "if "@ + "("@ + value_text(st, env, cond) + ")"@ + joined(" "@ + "ensures "@, clause_texts(st1, env, ensures_)) + " "@ + block_text(st2, env, then_branch) + " else "@ + block_text(spec_emit_block(st2, env, then_branch).0, env, else_branch) + ";"@
        }),
{
    let st1 = after(st, env, cond);
    lemma_emitted(st1, env, ensures_);
    lemma_if_clauses(spec_nil_doc(), spec_emit_rvalues(st1, env, ensures_).1);
    let o = spec_emit_if(st, env, s);
    let r = spec_emit_stmt(st, env, s);
}

/// A loop has its condition, then its invariants, preconditions and postconditions, each behind its keyword, and its body.
pub proof fn law_loops(st: Emitter, env: Env, s: Rc<Stmt>, cond: Rc<Expr>, inv: Rc<List<Expr>>, requires_: Rc<List<Expr>>, ensures_: Rc<List<Expr>>, body: Rc<List<Stmt>>)
    requires
        s.val == (StmtT::While { cond, inv, requires_, ensures_, body }),
    ensures
        ({
            let st1 = after(st, env, cond);
            let st2 = after_clauses(st1, env, inv);
            let st3 = after_clauses(st2, env, requires_);
            let st4 = after_clauses(st3, env, ensures_);
            stmt_text(st, env, s) == "while "@ + "("@ + value_text(st, env, cond) + ")"@ + " "@ + each_between("invariant "@, " "@, clause_texts(st1, env, inv)) + each_between("requires "@, " "@, clause_texts(st2, env, requires_)) + each_between("ensures "@, " "@, clause_texts(st3, env, ensures_)) + block_text(st4, env, body) + ";"@
        }),
{
    let st1 = after(st, env, cond);
    lemma_emitted(st1, env, inv);
    let st2 = after_clauses(st1, env, inv);
    lemma_emitted(st2, env, requires_);
    let st3 = after_clauses(st2, env, requires_);
    lemma_emitted(st3, env, ensures_);
    lemma_loop_clauses(spec_nil_doc(), "invariant ", spec_emit_rvalues(st1, env, inv).1);
    lemma_loop_clauses(spec_nil_doc(), "requires ", spec_emit_rvalues(st2, env, requires_).1);
    lemma_loop_clauses(spec_nil_doc(), "ensures ", spec_emit_rvalues(st3, env, ensures_).1);
    let o = spec_emit_while(st, env, s);
    let r = spec_emit_stmt(st, env, s);
}

/// A block that jumps leave ends at its label, with its postconditions.
pub proof fn law_goto_blocks(st: Emitter, env: Env, s: Rc<Stmt>, body: Rc<List<Stmt>>, label: Rc<Ident>, ensures_: Rc<List<Expr>>)
    requires
        s.val == (StmtT::GotoBlock { body, label, ensures_ }),
    ensures
        ({
            let (st1, b) = spec_emit_stmts(st, env, body);
            stmt_text(st, env, s) == "{"@ + flat(b) + "\n"@ + "}"@ + joined("\n"@ + "ensures "@, clause_texts(st1, env, ensures_)) + "\n"@ + "label "@ + written_name(after_clauses(st1, env, ensures_), Name::Label(label.val)) + ":;"@
        }),
{
    let (st1, b) = spec_emit_stmts(st, env, body);
    lemma_emitted(st1, env, ensures_);
    lemma_join_clauses(spec_block(b), spec_emit_rvalues(st1, env, ensures_).1);
    let o = spec_emit_goto_block(st, env, s);
    let r = spec_emit_stmt(st, env, s);
}

/// Texts one after the other, each between the same two texts.
pub open spec fn each_between(before: Seq<char>, behind: Seq<char>, s: Seq<Seq<char>>) -> Seq<char>
    decreases s.len(),
{
    if s.len() == 0 {
        Seq::empty()
    } else {
        before + s[0] + behind + each_between(before, behind, s.skip(1))
    }
}

/// The clauses of a conditional.
proof fn lemma_if_clauses(acc: Doc, l: Rc<List<DocT>>)
    ensures
        flat(spec_if_clauses(acc, l)) == flat(acc) + joined(" "@ + "ensures "@, texts(l)),
    decreases l,
{
    match *l {
        List::Nil => {},
        List::Cons(h, t) => {
            lemma_if_clauses(spec_d2(acc, spec_nest(spec_group(spec_d3(spec_line(), spec_txt("ensures "), h)))), t);
            assert(texts(l).skip(1) =~= texts(t));
        },
    }
}

/// The clauses of a join.
proof fn lemma_join_clauses(acc: Doc, l: Rc<List<DocT>>)
    ensures
        flat(spec_join_clauses(acc, l)) == flat(acc) + joined("\n"@ + "ensures "@, texts(l)),
    decreases l,
{
    match *l {
        List::Nil => {},
        List::Cons(h, t) => {
            lemma_join_clauses(spec_d4(acc, spec_hardline(), spec_txt("ensures "), h), t);
            assert(texts(l).skip(1) =~= texts(t));
        },
    }
}

/// The clauses of a loop.
proof fn lemma_loop_clauses(acc: Doc, kw: &'static str, l: Rc<List<DocT>>)
    ensures
        flat(spec_loop_clauses(acc, kw, l)) == flat(acc) + each_between(kw@, " "@, texts(l)),
    decreases l,
{
    match *l {
        List::Nil => {},
        List::Cons(h, t) => {
            lemma_loop_clauses(spec_d2(acc, spec_d2(spec_nest(spec_group(spec_d2(spec_txt(kw), h))), spec_line())), kw, t);
            assert(texts(l).skip(1) =~= texts(t));
        },
    }
}

/// Statements, each behind a space, in order: each stands in the scope that those before it leave,
/// and a return is put behind the ghost code that follows it.
pub proof fn law_statements_in_order(st: Emitter, env: Env, acc: Doc, s: Rc<Stmt>, t: Rc<List<Stmt>>)
    requires
        !(s.val is Return) || !spec_starts_with_ghost(t),
    ensures
        ({
            let (st1, d) = spec_emit_stmt(st, env, s);
            let acc2 = spec_d2(acc, spec_d2(spec_line(), d));
            &&& flat(acc2) == flat(acc) + " "@ + stmt_text(st, env, s)
            &&& spec_emit_stmts_onto(st, env, acc, Rc::new(List::Cons(s, t))) == spec_emit_stmts_onto(st1, spec_push_stmt(env, s), acc2, t)
            &&& spec_emit_stmts_onto(st, env, acc, Rc::new(List::Nil)) == (st, acc)
        }),
{
    reveal(spec_starts_with_ghost);
}

/// The statements of a sequence, as texts.
pub open spec fn sequence_text(st: Emitter, env: Env, l: Rc<List<Stmt>>) -> Seq<char>
    decreases l,
{
    match *l {
        List::Nil => Seq::empty(),
        List::Cons(s, t) => " "@ + stmt_text(st, env, s) + sequence_text(spec_emit_stmt(st, env, s).0, spec_push_stmt(env, s), t),
    }
}

/// Whether no return has ghost code right behind it.
pub open spec fn returns_come_last(l: Rc<List<Stmt>>) -> bool
    decreases l,
{
    match *l {
        List::Nil => true,
        List::Cons(s, t) => (!(s.val is Return) || !spec_starts_with_ghost(t)) && returns_come_last(t),
    }
}

/// Statements are emitted in order, behind what was there.
proof fn lemma_sequence(st: Emitter, env: Env, acc: Doc, l: Rc<List<Stmt>>)
    requires
        returns_come_last(l),
    ensures
        flat(spec_emit_stmts_onto(st, env, acc, l).1) == flat(acc) + sequence_text(st, env, l),
    decreases l,
{
    match *l {
        List::Nil => {},
        List::Cons(s, t) => {
            let (st1, d) = spec_emit_stmt(st, env, s);
            let acc2 = spec_d2(acc, spec_d2(spec_line(), d));
            law_statements_in_order(st, env, acc, s, t);
            lemma_sequence(st1, spec_push_stmt(env, s), acc2, t);
        },
    }
}

/// Statements are emitted one after the other, in order, each in the scope that those before it
/// leave; in braces where they form a block.
pub proof fn law_sequences(st: Emitter, env: Env, l: Rc<List<Stmt>>)
    requires
        returns_come_last(l),
    ensures
        flat(spec_emit_stmts(st, env, l).1) == sequence_text(st, env, l),
        block_text(st, env, l) == (match *l {
            List::Nil => "{}"@,
            _ => "{"@ + sequence_text(st, env, l) + "\n"@ + "}"@,
        }),
{
    lemma_sequence(st, env, spec_nil_doc(), l);
    let b = spec_emit_block(st, env, l);
}

/// A return in front of ghost code binds the value first, runs the ghost code, and returns the value.
pub proof fn law_returns_wait_for_ghost_code(st: Emitter, env: Env, acc: Doc, s: Rc<Stmt>, e: Rc<Expr>, t: Rc<List<Stmt>>)
    requires
        s.val == StmtT::Return(Some(e)),
        spec_starts_with_ghost(t),
    ensures
        ({
            let st1 = after(st, env, e);
            let (st2, name) = spec_emit_var_name(st1, spec_lit("return"));
            flat(spec_emit_stmts_onto(st, env, acc, Rc::new(List::Cons(s, t))).1) == flat(acc) + " "@ + "let "@ + flat(name) + " = "@ + value_text(st, env, e) + ";"@
                + ghosts_text(st2, env, t) + " "@ + "return"@ + " "@ + flat(name) + ";"@
        }),
{
    let st1 = after(st, env, e);
    let (st2, name) = spec_emit_var_name(st1, spec_lit("return"));
    let value = spec_emit_rvalue(st, env, e).1;
    let bound = spec_group(spec_d5(spec_txt("let "), name, spec_txt(" = "), value, spec_txt(";")));
    lemma_ghosts(st2, env, spec_d2(acc, spec_d2(spec_line(), bound)), t, name);
    let l: Rc<List<Stmt>> = Rc::new(List::Cons(s, t));
    assert(spec_emit_stmts_onto(st, env, acc, l) == spec_emit_ghosts_onto(st2, env, spec_d2(acc, spec_d2(spec_line(), bound)), t, name));
}

/// The ghost code at the front of statements.
pub open spec fn ghosts_text(st: Emitter, env: Env, l: Rc<List<Stmt>>) -> Seq<char>
    decreases l,
{
    match *l {
        List::Nil => Seq::empty(),
        List::Cons(s, t) => if s.val is GhostStmt {
            " "@ + stmt_text(st, env, s) + ghosts_text(spec_emit_stmt(st, env, s).0, spec_push_stmt(env, s), t)
        } else {
            Seq::empty()
        },
    }
}

/// Whether a statement is ghost code.
pub open spec fn is_ghost_code(s: Rc<Stmt>) -> bool {
    s.val is GhostStmt
}

/// The ghost code at the front, and then the return.
proof fn lemma_ghosts(st: Emitter, env: Env, acc: Doc, l: Rc<List<Stmt>>, name: Doc)
    ensures
        flat(spec_emit_ghosts_onto(st, env, acc, l, name).1) == flat(acc) + ghosts_text(st, env, l) + " "@ + "return"@ + " "@ + flat(name) + ";"@,
    decreases l,
{
    reveal(spec_is_ghost);
    match *l {
        List::Nil => {},
        List::Cons(s, t) => {
            if is_ghost_code(s) {
                let (st1, d) = spec_emit_stmt(st, env, s);
                lemma_ghosts(st1, spec_push_stmt(env, s), spec_d2(acc, spec_d2(spec_line(), d)), t, name);
            }
        },
    }
}

/// A call that is no function by name is a statement, with its value discarded unless it has none.
pub proof fn law_calls_as_statements(st: Emitter, env: Env, s: Rc<Stmt>, e: Rc<Expr>)
    requires
        s.val == StmtT::Call(e),
        !(e.val is FnCall),
    ensures
        stmt_text(st, env, s) == (if spec_infer_expr(env, e) matches Some(t) && !(spec_vtype_whnf(env, t).val is Void) { "let _ = "@ } else { Seq::<char>::empty() }) + value_text(st, env, e) + ";"@,
{
    reveal(spec_emit_call_stmt);
    reveal(spec_emit_plain_call);
    reveal(spec_must_discard);
    reveal(spec_infer_whnf);
    let r = spec_emit_stmt(st, env, s);
}

/// Whether a place is a pointer to one object.
pub open spec fn is_ref(env: Env, x: Rc<Expr>) -> bool {
    has_kind(env, x, PointerKind::Ref)
}

/// The kinds of pointers.
proof fn lemma_pointer_kinds(env: Env, e: Rc<Expr>)
    ensures
        forall|k: PointerKind| #[trigger] spec_is_pointer(env, e, k) == has_kind(env, e, k),
        spec_is_array_pointer(env, e) == points_into_array(env, e),
{
    reveal(spec_is_pointer);
    reveal(spec_pointer_kind);
    reveal(spec_infer_whnf);
    reveal(spec_is_array_pointer);
}

/// A variable is stored into: the place, and then the value.
pub proof fn law_stores(st: Emitter, env: Env, s: Rc<Stmt>, x: Rc<Expr>, e: Rc<Expr>)
    requires
        s.val == StmtT::Assign(x, e),
        x.val is Var,
        !is_ref(env, x),
        spec_array_literal_init(e) is None,
    ensures
        stmt_text(st, env, s) == place(st, env, x) + " "@ + ":="@ + " "@ + value_text(spec_emit_lvalue(st, env, x).0, env, e) + ";"@,
{
    reveal(spec_emit_assign);
    reveal(spec_array_literal_init);
    reveal(spec_emit_ordinary_assign);
    reveal(spec_emit_place_assign);
    reveal(spec_emit_store);
    reveal(spec_emit_array_write);
    reveal(spec_array_fn);
    reveal(spec_to_rvalue_decayed);
    lemma_pointer_kinds(env, x);
    let r = spec_emit_stmt(st, env, s);
}

/// What a pointer points to is stored into; an array is written at its start.
pub proof fn law_stores_through_pointers(st: Emitter, env: Env, s: Rc<Stmt>, x: Rc<Expr>, a: Rc<Expr>, e: Rc<Expr>)
    requires
        s.val == StmtT::Assign(x, e),
        x.val == ExprT::Deref(a),
        !is_ref(env, x),
        spec_array_literal_init(e) is None,
    ensures
        stmt_text(st, env, s) == (if points_into_array(env, a) {
            "("@ + (if has_kind(env, a, PointerKind::ArrayPtr) { "arrayptr_write"@ } else { "array_write"@ }) + " "@ + value_text(st, env, a) + " "@ + "0sz"@ + " "@ + value_text(after(st, env, a), env, e) + ")"@ + ";"@
        } else {
            place(st, env, x) + " "@ + ":="@ + " "@ + value_text(spec_emit_lvalue(st, env, x).0, env, e) + ";"@
        }),
{
    reveal(spec_emit_assign);
    reveal(spec_array_literal_init);
    reveal(spec_emit_ordinary_assign);
    reveal(spec_emit_place_assign);
    reveal(spec_emit_store);
    reveal(spec_emit_array_write);
    reveal(spec_array_fn);
    reveal(spec_to_rvalue_decayed);
    lemma_pointer_kinds(env, x);
    lemma_pointer_kinds(env, a);
    let r = spec_emit_stmt(st, env, s);
}

/// An element of an array is written by the array, the index and the value.
pub proof fn law_stores_into_arrays(st: Emitter, env: Env, s: Rc<Stmt>, x: Rc<Expr>, a: Rc<Expr>, i: Rc<Expr>, e: Rc<Expr>)
    requires
        s.val == StmtT::Assign(x, e),
        x.val == ExprT::Index(a, i),
        !is_ref(env, x),
        spec_array_literal_init(e) is None,
    ensures
        stmt_text(st, env, s) == "("@ + (if has_kind(env, a, PointerKind::ArrayPtr) { "arrayptr_write"@ } else { "array_write"@ }) + " "@ + value_text(st, env, a) + " "@ + value_text(after(st, env, a), env, i) + " "@ + value_text(after(after(st, env, a), env, i), env, e) + ")"@ + ";"@,
{
    reveal(spec_emit_assign);
    reveal(spec_array_literal_init);
    reveal(spec_emit_ordinary_assign);
    reveal(spec_emit_place_assign);
    reveal(spec_emit_store);
    reveal(spec_emit_array_write);
    reveal(spec_array_fn);
    reveal(spec_to_rvalue_decayed);
    lemma_pointer_kinds(env, x);
    lemma_pointer_kinds(env, a);
    let ra = spec_emit_rvalue(st, env, a);
    let r = spec_emit_stmt(st, env, s);
}

/// An arm of a union is stored with its constructor into the union.
pub proof fn law_stores_into_unions(st: Emitter, env: Env, s: Rc<Stmt>, x: Rc<Expr>, b: Rc<Expr>, f: Rc<Ident>, e: Rc<Expr>, t: Rc<Type>, u: Rc<Ident>)
    requires
        s.val == StmtT::Assign(x, e),
        x.val == ExprT::Member(b, f),
        spec_infer_expr(env, b) == Some(t),
        spec_vtype_whnf(env, t).val == TypeT::TypeRef(TypeRefKind::Union(u)),
        !is_ref(env, x),
        spec_array_literal_init(e) is None,
    ensures
        ({
            let (st1, c) = spec_emit_name(st, Name::UnionFieldConstructor(u.val, f.val));
            stmt_text(st, env, s) == place(st1, env, b) + " "@ + ":="@ + " "@ + "("@ + flat(c) + " "@ + value_text(spec_emit_lvalue(st1, env, b).0, env, e) + ")"@ + ";"@
        }),
{
    reveal(spec_emit_assign);
    reveal(spec_array_literal_init);
    reveal(spec_emit_ordinary_assign);
    reveal(spec_emit_place_assign);
    reveal(spec_emit_store);
    reveal(spec_emit_array_write);
    reveal(spec_array_fn);
    reveal(spec_to_rvalue_decayed);
    reveal(spec_emit_field_assign);
    reveal(spec_emit_member_store);
    reveal(spec_struct_of);
    reveal(spec_union_of);
    reveal(spec_infer_whnf);
    lemma_pointer_kinds(env, x);
    let r = spec_emit_stmt(st, env, s);
}

/// A field of a struct is stored into; the value is truncated where the field is a bit-field.
pub proof fn law_stores_into_structs(st: Emitter, env: Env, s: Rc<Stmt>, x: Rc<Expr>, b: Rc<Expr>, f: Rc<Ident>, e: Rc<Expr>, t: Rc<Type>, n: Rc<Ident>)
    requires
        s.val == StmtT::Assign(x, e),
        x.val == ExprT::Member(b, f),
        spec_infer_expr(env, b) == Some(t),
        spec_vtype_whnf(env, t).val == TypeT::TypeRef(TypeRefKind::Struct(n)),
        !(b.val is Index || b.val is Deref),
        !is_ref(env, x),
        spec_array_literal_init(e) is None,
    ensures
        stmt_text(st, env, s) == place(after(st, env, e), env, x) + " "@ + ":="@ + " "@ + (match spec_bitfield_member_mask(env, b, f) {
                Some(m) => "("@ + m.mask_fn@ + " "@ + nat_chars(m.width as nat) + " "@ + value_text(st, env, e) + ")"@,
                None => value_text(st, env, e),
            }) + ";"@,
{
    reveal(spec_emit_assign);
    reveal(spec_array_literal_init);
    reveal(spec_emit_ordinary_assign);
    reveal(spec_emit_place_assign);
    reveal(spec_emit_store);
    reveal(spec_emit_array_write);
    reveal(spec_array_fn);
    reveal(spec_to_rvalue_decayed);
    reveal(spec_emit_field_assign);
    reveal(spec_emit_member_store);
    reveal(spec_struct_of);
    reveal(spec_union_of);
    reveal(spec_infer_whnf);
    lemma_pointer_kinds(env, x);
    let r = spec_emit_stmt(st, env, s);
}

/// A field of a struct in an array is stored by an update of the element.
pub proof fn law_stores_into_elements(st: Emitter, env: Env, s: Rc<Stmt>, x: Rc<Expr>, b: Rc<Expr>, a: Rc<Expr>, i: Rc<Expr>, f: Rc<Ident>, e: Rc<Expr>, t: Rc<Type>, n: Rc<Ident>)
    requires
        s.val == StmtT::Assign(x, e),
        x.val == ExprT::Member(b, f),
        b.val == ExprT::Index(a, i),
        spec_infer_expr(env, b) == Some(t),
        spec_vtype_whnf(env, t).val == TypeT::TypeRef(TypeRefKind::Struct(n)),
        !is_ref(env, x),
        spec_array_literal_init(e) is None,
    ensures
        ({
            let st1 = after(st, env, a);
            let st2 = after(st1, env, i);
            let (st3, field) = spec_emit_name(st2, Name::StructDirectFieldName(n.val, f.val));
            stmt_text(st, env, s) == "("@ + (if has_kind(env, a, PointerKind::ArrayPtr) { "arrayptr_update"@ } else { "array_update"@ }) + " "@ + value_text(st, env, a) + " "@ + value_text(st1, env, i) + " "@ + "(fun __v __y -> { __v with "@ + flat(field) + " = __y })"@ + " "@ + value_text(st3, env, e) + ")"@ + ";"@
        }),
{
    reveal(spec_emit_assign);
    reveal(spec_array_literal_init);
    reveal(spec_emit_ordinary_assign);
    reveal(spec_emit_place_assign);
    reveal(spec_emit_store);
    reveal(spec_emit_array_write);
    reveal(spec_array_fn);
    reveal(spec_to_rvalue_decayed);
    reveal(spec_emit_field_assign);
    reveal(spec_emit_element_update);
    reveal(spec_struct_of);
    reveal(spec_infer_whnf);
    lemma_pointer_kinds(env, x);
    lemma_pointer_kinds(env, a);
    let ra = spec_emit_rvalue(st, env, a);
    let r = spec_emit_stmt(st, env, s);
}

/// The text of what statements of a pure function compute.
pub open spec fn body_text(st: Emitter, env: Env, l: Rc<List<Stmt>>, fuel: u64) -> Seq<char> {
    flat(spec_emit_pure_body(st, env, l, fuel).1)
}

/// A pure body that returns a value at its end is that value, and one that returns none, or has no statement left, is
/// `()`.
pub proof fn law_returned_bodies(st: Emitter, env: Env, s: Rc<Stmt>, rest: Rc<List<Stmt>>, fuel: u64)
    requires
        fuel > 0,
        s.val is Return,
        rest.items().len() == 0,
    ensures
        body_text(st, env, Rc::new(List::Cons(s, rest)), fuel) == (match s.val {
            StmtT::Return(Some(e)) => value_text(st, env, e),
            _ => "()"@,
        }),
        body_text(st, env, Rc::new(List::Nil), fuel) == "()"@,
{
    let l: Rc<List<Stmt>> = Rc::new(List::Cons(s, rest));
    let less = spec_drop_one(fuel);
    assert(spec_emit_pure_body(st, env, l, fuel) == spec_emit_pure_stmt(st, env, s, rest, less));
    match *rest {
        List::Nil => {},
        List::Cons(_, _) => {},
    }
    let none: Rc<List<Stmt>> = Rc::new(List::Nil);
    let b = spec_emit_pure_body(st, env, none, fuel);
}

/// A conditional of a pure body is a conditional value: each branch is followed by the rest of the body.
pub proof fn law_conditional_bodies(st: Emitter, env: Env, s: Rc<Stmt>, rest: Rc<List<Stmt>>, fuel: u64, cond: Rc<Expr>, then_branch: Rc<List<Stmt>>, else_branch: Rc<List<Stmt>>, ensures_: Rc<List<Expr>>)
    requires
        fuel > 0,
        s.val == (StmtT::If { cond, then_branch, else_branch, ensures_ }),
    ensures
        ({
            let less = (fuel - 1) as u64;
            let st1 = after(st, env, cond);
            let (st2, a) = spec_emit_pure_body(st1, spec_push_stmts(env, then_branch), spec_append_rest(then_branch, rest), less);
            body_text(st, env, Rc::new(List::Cons(s, rest)), fuel) == "("@ + "if"@ + " "@ + value_text(st, env, cond) + " "@ + "then"@ + " "@ + flat(a) + " "@ + "else"@ + " "@ + body_text(
                st2,
                spec_push_stmts(env, else_branch),
                spec_append_rest(else_branch, rest),
                less,
            ) + ")"@
        }),
{
    let l: Rc<List<Stmt>> = Rc::new(List::Cons(s, rest));
    let less = spec_drop_one(fuel);
    assert(spec_emit_pure_body(st, env, l, fuel) == spec_emit_pure_stmt(st, env, s, rest, less));
}

/// A definition of a pure body binds its value in the rest of the body.
pub proof fn law_defining_bodies(st: Emitter, env: Env, s: Rc<Stmt>, rest: Rc<List<Stmt>>, fuel: u64, x: Rc<Ident>, ty: Rc<Type>, e: Rc<Expr>)
    requires
        fuel > 0,
        s.val == StmtT::Let(x, ty, e),
    ensures
        ({
            let less = (fuel - 1) as u64;
            let (st1, v) = spec_emit_rvalue(st, env, e);
            let (st2, t) = spec_emit_type(st1, env, ty);
            let (st3, r) = spec_emit_pure_body(st2, spec_push_var_decl(env, x, ty, LocalDeclKind::RValue), rest, less);
            let name = spec_emit_var_name(st3, x.val).1;
            body_text(st, env, Rc::new(List::Cons(s, rest)), fuel) == "("@ + "let"@ + " "@ + flat(name) + " "@ + ":"@ + " "@ + flat(t) + " "@ + "="@ + " "@ + flat(v) + " "@ + "in"@
                + " "@ + flat(r) + ")"@
        }),
{
    let l: Rc<List<Stmt>> = Rc::new(List::Cons(s, rest));
    let less = spec_drop_one(fuel);
    assert(spec_emit_pure_body(st, env, l, fuel) == spec_emit_pure_stmt(st, env, s, rest, less));
}

/// A variable of a pure body that is assigned right away is bound to that value in what follows.
pub proof fn law_assigning_bodies(st: Emitter, env: Env, s: Rc<Stmt>, next: Rc<Stmt>, more: Rc<List<Stmt>>, fuel: u64, x: Rc<Ident>, ty: Rc<Type>, target: Rc<Expr>, y: Rc<Ident>, e: Rc<Expr>)
    requires
        fuel > 0,
        s.val == StmtT::Decl(x, ty),
        next.val == StmtT::Assign(target, e),
        target.val == ExprT::Var(y),
        named_alike(y, x),
        more.items().len() > 0,
    ensures
        ({
            let less = (fuel - 1) as u64;
            let env2 = spec_push_var_decl(env, x, ty, LocalDeclKind::RValue);
            let (st1, r) = spec_emit_pure_body(st, env2, more, less);
            let (st2, name) = spec_emit_var_name(st1, x.val);
            let (st3, t) = spec_emit_type(st2, env2, ty);
            body_text(st, env, Rc::new(List::Cons(s, Rc::new(List::Cons(next, more)))), fuel) == "("@ + "let"@ + " "@ + flat(name) + " "@ + ":"@ + " "@ + flat(t) + " "@ + "="@ + " "@
                + value_text(st3, env2, e) + " "@ + "in"@ + " "@ + flat(r) + ")"@
        }),
{
    reveal(spec_assigned_first);
    reveal(spec_later_stmts);
    reveal(spec_same_name);
    let rest: Rc<List<Stmt>> = Rc::new(List::Cons(next, more));
    let l: Rc<List<Stmt>> = Rc::new(List::Cons(s, rest));
    let less = spec_drop_one(fuel);
    match *more {
        List::Nil => {},
        List::Cons(_, _) => {},
    }
    assert(spec_assigned_first(rest, x) == Some(e));
    assert(spec_emit_pure_body(st, env, l, fuel) == spec_emit_pure_stmt(st, env, s, rest, less));
}

/// A case distinction of a pure body is a `match`, whose cases each compute the rest of the body too.
pub proof fn law_matching_bodies(st: Emitter, env: Env, s: Rc<Stmt>, rest: Rc<List<Stmt>>, fuel: u64, scrutinee: Rc<Expr>, branches: Rc<List<Branch>>, default_branch: Rc<List<Stmt>>, ensures_: Rc<List<Expr>>)
    requires
        fuel > 0,
        s.val == (StmtT::Match { scrutinee, branches, default_branch, ensures_ }),
    ensures
        ({
            let less = (fuel - 1) as u64;
            let (st1, cases) = spec_emit_pure_branches(st, env, branches, rest, less);
            body_text(st, env, Rc::new(List::Cons(s, rest)), fuel) == "("@ + "match"@ + " "@ + value_text(st1, env, scrutinee) + " "@ + "with"@ + each_behind(Seq::empty(), cases) + " "@
                + "| _ ->"@ + " "@ + body_text(after(st1, env, scrutinee), env, spec_append_rest(default_branch, rest), less) + ")"@
        }),
{
    let l: Rc<List<Stmt>> = Rc::new(List::Cons(s, rest));
    let less = spec_drop_one(fuel);
    assert(spec_emit_pure_body(st, env, l, fuel) == spec_emit_pure_stmt(st, env, s, rest, less));
}

/// What follows a branch is its statements and then the rest.
pub proof fn law_branches_go_on(a: Rc<List<Stmt>>, b: Rc<List<Stmt>>)
    ensures
        spec_append_rest(a, b).items() == a.items() + b.items(),
    decreases a,
{
    reveal(spec_append_rest);
    match *a {
        List::Nil => {
            assert(a.items() + b.items() =~= b.items());
        },
        List::Cons(h, t) => {
            law_branches_go_on(t, b);
            assert(seq![h] + (t.items() + b.items()) =~= (seq![h] + t.items()) + b.items());
        },
    }
}

/// A case distinction without a postcondition has a case for each pattern, in order, and then the default; with one it
/// ends at a label that has the postcondition.
pub proof fn law_case_distinctions(st: Emitter, env: Env, s: Rc<Stmt>, scrutinee: Rc<Expr>, branches: Rc<List<Branch>>, default_branch: Rc<List<Stmt>>, ensures_: Rc<List<Expr>>)
    requires
        s.val == (StmtT::Match { scrutinee, branches, default_branch, ensures_ }),
        ensures_.items().len() == 0,
    ensures
        ({
            let (st1, cases) = spec_emit_branches(st, env, branches);
            stmt_text(st, env, s) == "match "@ + "("@ + value_text(st1, env, scrutinee) + ")"@ + " {"@ + each_behind(Seq::empty(), cases) + " "@ + "_ -> "@ + block_text(
                after(st1, env, scrutinee),
                env,
                default_branch,
            ) + " "@ + "};"@
        }),
{
    match *ensures_ {
        List::Nil => {},
        List::Cons(_, _) => {},
    }
    let o = spec_emit_match(st, env, s);
    let r = spec_emit_stmt(st, env, s);
}

/// A branch has a case for each of its patterns, in order, with the same statements.
pub proof fn law_cases(st: Emitter, env: Env, p: Rc<Expr>, t: Rc<List<Expr>>, body: Rc<List<Stmt>>)
    ensures
        ({
            let (st1, pat) = spec_emit_pattern(st, env, p);
            let (st2, b) = spec_emit_block(st1, env, body);
            let rest = spec_emit_branch_cases(st2, env, t, body);
            let all = spec_emit_branch_cases(st, env, Rc::new(List::Cons(p, t)), body);
            &&& all.0 == rest.0
            &&& texts(all.1) == seq![" "@ + flat(pat) + " -> "@ + flat(b)] + texts(rest.1)
            &&& spec_emit_branch_cases(st, env, Rc::new(List::Nil), body).1.items().len() == 0
        }),
{
    let l: Rc<List<Expr>> = Rc::new(List::Cons(p, t));
    let all = spec_emit_branch_cases(st, env, l, body);
    let none: Rc<List<Expr>> = Rc::new(List::Nil);
    let n = spec_emit_branch_cases(st, env, none, body);
}

/// The cases of branches follow one another, in order.
pub proof fn law_cases_of_branches(st: Emitter, env: Env, b: Rc<Branch>, t: Rc<List<Branch>>)
    ensures
        ({
            let (st1, cases) = spec_emit_branch_cases(st, env, b.patterns, b.body);
            let rest = spec_emit_branches(st1, env, t);
            let all = spec_emit_branches(st, env, Rc::new(List::Cons(b, t)));
            &&& all.0 == rest.0
            &&& texts(all.1) == texts(cases) + texts(rest.1)
            &&& spec_emit_branches(st, env, Rc::new(List::Nil)).1.items().len() == 0
        }),
{
    let l: Rc<List<Branch>> = Rc::new(List::Cons(b, t));
    let all = spec_emit_branches(st, env, l);
    let one = spec_emit_branch(st, env, b);
    let rest = spec_emit_branches(one.0, env, t);
    lemma_texts_append(one.1, rest.1);
    let none: Rc<List<Branch>> = Rc::new(List::Nil);
    let n = spec_emit_branches(st, env, none);
}

/// A pattern that is a number is written as a literal of its type.
pub proof fn law_patterns(st: Emitter, env: Env, p: Rc<Expr>)
    ensures
        flat(spec_emit_pattern(st, env, p).1) == (match p.val {
            ExprT::IntLit(n, ty) => match spec_vtype_whnf(env, ty).val {
                TypeT::Int { signed, width } => flat(spec_emit_machine_int_literal(n, signed, width)),
                TypeT::SizeT => int_chars(n.value()) + "sz"@,
                _ => value_text(st, env, p),
            },
            _ => value_text(st, env, p),
        }),
{
    reveal(spec_emit_pattern);
    reveal_with_fuel(Rope::chars, 2);
}

/// The address of a cell of a whole array that a pointer to one object is assigned is borrowed from the array.
pub proof fn law_borrowed_cells(st: Emitter, env: Env, s: Rc<Stmt>, x: Rc<Expr>, e: Rc<Expr>, c: Rc<Expr>, a: Rc<Expr>, i: Rc<Expr>)
    requires
        s.val == StmtT::Assign(x, e),
        is_ref(env, x),
        e.val == ExprT::Ref(c),
        c.val == ExprT::Index(a, i),
        has_kind(env, a, PointerKind::Array),
    ensures
        ({
            let st1 = after(st, env, a);
            let st2 = after(st1, env, i);
            stmt_text(st, env, s) == place(st2, env, x) + " "@ + ":="@ + " "@ + "("@ + "array_borrow_cell"@ + " "@ + value_text(st, env, a) + " "@ + value_text(st1, env, i) + ")"@ + ";"@
        }),
{
    reveal(spec_emit_assign);
    reveal(spec_array_literal_init);
    reveal(spec_emit_ordinary_assign);
    reveal(spec_emit_borrowing_assign);
    reveal(spec_cell_address);
    reveal(spec_is_pointer);
    reveal(spec_pointer_kind);
    reveal(spec_infer_whnf);
    let r = spec_emit_stmt(st, env, s);
}

/// A call whose arguments need nothing before it is a statement with its value discarded unless it has none.
pub proof fn law_plain_calls(st: Emitter, env: Env, s: Rc<Stmt>, e: Rc<Expr>, f: Rc<Ident>, args: Rc<List<Expr>>, d: Rc<FnDecl>)
    requires
        s.val == StmtT::Call(e),
        e.val == ExprT::FnCall(f, args),
        spec_lookup_fn(env, f) == Some(d),
        spec_emit_call_args(st, env, d.args, args, (CallArgs { prelude: Rc::new(List::Nil), args: Rc::new(List::Nil) })).1.prelude.items().len() == 0,
    ensures
        ({
            let st1 = spec_emit_call_args(st, env, d.args, args, (CallArgs { prelude: Rc::new(List::Nil), args: Rc::new(List::Nil) })).0;
            stmt_text(st, env, s) == (if spec_infer_expr(env, e) matches Some(t) && !(spec_vtype_whnf(env, t).val is Void) { "let _ = "@ } else { Seq::<char>::empty() })
                + value_text(st1, env, e) + ";"@
        }),
{
    reveal(spec_emit_call_stmt);
    reveal(spec_emit_plain_call);
    reveal(spec_must_discard);
    reveal(spec_infer_whnf);
    let c = spec_emit_call_args(st, env, fn_args(d), args, CallArgs { prelude: Rc::new(List::Nil), args: Rc::new(List::Nil) }).1;
    match *c.prelude {
        List::Nil => {},
        List::Cons(_, _) => {},
    }
    let r = spec_emit_stmt(st, env, s);
}

/// An array literal that is passed to a function is put on the stack for the call, and freed when the scope is left; it
/// is passed as an array, or as a pointer to its first element.
pub proof fn law_literal_arguments(st: Emitter, env: Env, e: Rc<Expr>, whole: bool, done: CallArgs)
    ensures
        ({
            let (st1, tmp) = spec_fresh_tmp(st, "arraylit");
            let (st2, elem) = spec_emit_type(st1, env, spec_literal_elem(e));
            let v = value_text(st2, env, e);
            let r = spec_emit_literal_arg(st, env, e, whole, done).1;
            &&& texts(r.prelude) == texts(done.prelude) + seq![
                "let "@ + flat(tmp) + " ="@ + " "@ + "("@ + "stack_alloc_array_full"@ + " "@ + "#"@ + flat(elem) + " "@ + v + ")"@ + ";"@,
                "defer "@ + "("@ + "array_pts_to_full"@ + " "@ + flat(tmp) + " "@ + "1.0R"@ + " "@ + v + ")"@ + " "@ + "{ stack_free_array_full _ }"@ + ";"@,
            ]
            &&& texts(r.args) == texts(done.args) + seq![
                if whole {
                    flat(tmp)
                } else {
                    "("@ + "Pulse.Lib.C.Array.array_to_ref"@ + " "@ + flat(tmp) + ")"@
                },
            ]
        }),
{
    reveal(spec_emit_literal_arg);
    let (st1, tmp) = spec_fresh_tmp(st, "arraylit");
    let (st2, elem) = spec_emit_type(st1, env, spec_literal_elem(e));
    let v = spec_emit_rvalue(st2, env, e).1;
    let alloc = spec_let_stmt(tmp, spec_naryfn(spec_l3(spec_txt("stack_alloc_array_full"), spec_d2(spec_txt("#"), elem), v)));
    let defer = spec_defer_stmt(spec_naryfn(spec_l4(spec_txt("array_pts_to_full"), tmp, spec_txt("1.0R"), v)), "{ stack_free_array_full _ }");
    lemma_texts_append(done.prelude, spec_l2(alloc, defer));
    reveal_with_fuel(texts, 3);
    assert(texts(spec_l2(alloc, defer)) =~= seq![flat(alloc), flat(defer)]);
    lemma_texts_push(done.args, tmp);
    lemma_texts_push(done.args, spec_unaryfn(spec_txt("Pulse.Lib.C.Array.array_to_ref"), tmp));
}

/// The address of an array cell that is passed to a function is borrowed before the call.
pub proof fn law_borrowed_arguments(st: Emitter, env: Env, cell: Cell, done: CallArgs)
    ensures
        ({
            let (st1, tmp) = spec_fresh_tmp(st, "borrow");
            let st2 = after(st1, env, cell.arr);
            let r = spec_emit_cell_arg(st, env, cell, done).1;
            &&& texts(r.prelude) == texts(done.prelude) + seq![
                "let "@ + flat(tmp) + " ="@ + " "@ + "("@ + "array_borrow_cell"@ + " "@ + value_text(st1, env, cell.arr) + " "@ + value_text(st2, env, cell.idx) + ")"@ + ";"@,
            ]
            &&& texts(r.args) == texts(done.args) + seq![flat(tmp)]
        }),
{
    reveal(spec_emit_cell_arg);
    let (st1, tmp) = spec_fresh_tmp(st, "borrow");
    let (st2, a) = spec_emit_rvalue(st1, env, cell.arr);
    let i = spec_emit_rvalue(st2, env, cell.idx).1;
    lemma_texts_push(done.prelude, spec_let_stmt(tmp, spec_naryfn(spec_l3(spec_txt("array_borrow_cell"), a, i))));
    lemma_texts_push(done.args, tmp);
}

/// A specification function that reads memory stands for the old value of its body, and cannot be run.
pub proof fn law_memory_reading_functions(st: Emitter, env: Env, d: Rc<LetDecl>)
    requires
        d.is_impure,
    ensures
        ({
            let (st1, p) = spec_impure_args(
                st,
                (SigParts { env, params: Rc::new(List::Nil), pre: Rc::new(List::Nil), post: Rc::new(List::Nil), kept: Rc::new(List::Nil) }),
                0,
                d.params,
            );
            let (st2, ret) = spec_emit_type(st1, p.env, d.ret_type);
            let env2 = spec_push_return(p.env, d.ret_type);
            let (st3, body) = spec_emit_rvalue(st2, env2, d.body);
            let (st4, result) = spec_local_name(st3, Name::Var(spec_lit("return")));
            let name = spec_local_name(st4, Name::Fn(d.name.val)).1;
            flat(spec_emit_let_decl(st, env, d).1) == "ghost fn"@ + " "@ + flat(name) + joined(" "@, written_params(texts(p.params))) + joined(
                "\n"@ + "requires"@ + " "@,
                texts(p.pre) + seq!["pure False"@],
            ) + "\n"@ + "returns"@ + " "@ + flat(result) + " "@ + ":"@ + " "@ + flat(ret) + "\n"@ + "ensures"@ + " "@ + "rewrites_to"@ + " "@ + flat(result) + " "@ + "("@ + "old"@ + " "@
                + flat(body) + ")"@ + "\n"@ + "{ unreachable () }"@
        }),
{
    reveal(spec_emit_let_decl);
    reveal(spec_emit_letimpure_decl);
    reveal(spec_clone_env);
    reveal(spec_with_locals);
    reveal(spec_clone_opt_type);
    let (st1, p) = spec_impure_args(
        st,
        SigParts { env, params: Rc::new(List::Nil), pre: Rc::new(List::Nil), post: Rc::new(List::Nil), kept: Rc::new(List::Nil) },
        0,
        let_params(d),
    );
    lemma_texts_push(p.pre, spec_txt("pure False"));
    lemma_joined("\n"@ + "requires"@ + " "@, spec_list_push(p.pre, spec_txt("pure False")));
    lemma_joined(" "@, spec_or_unit(p.params));
    law_written_params(p.params);
}

/// An opaque type is the code that it is given.
pub proof fn law_opaque_types(st: Emitter, env: Env, d: Rc<OpaqueTypeDecl>)
    ensures
        ({
            let (st1, t) = spec_emit_name(st, Name::TypeRef(TypeRef::Typedef(d.name.val)));
            flat(spec_emit_opaque_type(st, env, d).1) == "unfold"@ + " "@ + "let"@ + " "@ + flat(t) + " "@ + ":"@ + " "@ + "Type"@ + " "@ + "="@ + " "@ + each_behind(
                Seq::empty(),
                spec_emit_tokens(st1, env, d.code.tokens).1,
            )
        }),
{
    reveal(spec_emit_opaque_type);
    reveal(spec_mk_let);
}

} // verus!
