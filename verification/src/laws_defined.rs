//! What is proved of the texts of definitions, records, wrappers and modules, of the ownership that comes with types, of names,
//! and of things that are declared more than once.

use crate::list::{
    List, spec_bump, spec_cons, spec_l1, spec_l2, spec_l3, spec_l4, spec_l7, spec_list_append,
    spec_list_is_empty, spec_list_len, spec_list_push, spec_nil,
};
use crate::text::{Rope, Text, lower_chars, nat_chars, spec_cat3, spec_lit, spec_num, spec_text_is};
use crate::ir::{
    AuxFnKind, Decl, DeclT, Expr, ExprT, Field, FieldInit, FieldT, FnArg, FnDecl, FnDefn,
    GhostArg, GlobalVar, Ident, IncludeDecl, InlinePulseToken, LetDecl, OpaqueTypeDecl,
    PointerKind, Stmt, StructDefn, Type, TypeDefn, TypeRefKind, TypeT, UnionDefn,
    spec_field_fixed_info, spec_field_flex_info, spec_field_is_array, spec_field_name,
    spec_global_var_is_array, spec_mk_expr, spec_mk_ident, spec_mk_rvar, spec_mk_type_ref,
    spec_same_name,
};
use crate::diag::{Diagnostic, DiagnosticLevel, spec_mk_error};
use crate::doc::{
    Doc, DocT, spec_annotated, spec_d2, spec_d3, spec_d4, spec_d5, spec_group, spec_hardline,
    spec_line, spec_naryfn, spec_nest, spec_nil_doc, spec_parens, spec_parens_all, spec_txt,
    spec_unaryfn,
};
use crate::env::{
    Env, spec_clone_env, spec_clone_opt_type, spec_lookup_struct, spec_push_return,
    spec_push_this, spec_push_typedef, spec_vtype_eq, spec_vtype_whnf, spec_with_locals,
};
use crate::names::{
    Name, TypeRef, spec_clone_type_ref, spec_mangle, spec_module_for_name, spec_name_text,
    spec_reserved, spec_same_type_ref, spec_struct_text, spec_text_in, spec_type_ref,
    spec_type_ref_module, spec_type_ref_text, spec_union_text, spec_wanted_text,
};
use crate::emit_base::{
    Emitter, ExBinding, ExprKind, spec_binder, spec_binder_args, spec_binders_before,
    spec_binders_onto, spec_binding_types, spec_conj, spec_decl_text, spec_emit_name,
    spec_emit_var_name, spec_extract_base_ident, spec_find_module, spec_find_val_params,
    spec_fnptr_domain_doc, spec_fresh_tmp, spec_into_doc, spec_local_name, spec_mangle_name,
    spec_mk_assume_val, spec_mk_attrs, spec_mk_eager_unfold_slprop, spec_mk_instance, spec_mk_let,
    spec_mk_let_rec, spec_mk_star, spec_mk_thunk, spec_module_text, spec_nested_pair_pat,
    spec_owner_module, spec_qualified, spec_typedef_module, spec_wrap_exists,
};
use crate::emit_types::{
    spec_emit_bitfield_value_type, spec_emit_field_default, spec_emit_field_projection_type,
    spec_emit_field_record_type, spec_emit_type, spec_emit_type_default, spec_struct_aux_name,
    spec_union_aux_name, spec_unsigned_width,
};
use crate::emit_exprs::{
    spec_arg_tuple, spec_emit_array_init, spec_emit_aux_token, spec_emit_cons_cells,
    spec_emit_expr, spec_emit_field_init, spec_emit_field_token, spec_emit_init_of,
    spec_emit_rvalue, spec_emit_rvalues, spec_emit_struct_aux_token, spec_emit_struct_entries,
    spec_emit_struct_init, spec_emit_token, spec_emit_tokens, spec_emit_union_aux_token,
};
use crate::emit_slprop::{
    Owned, SLPropVariant, SpecCtx, spec_array_pts_to, spec_emit_type_slprop,
    spec_emit_type_slprop_inner, spec_emit_typedef_pred, spec_finish_pred_decl,
    spec_is_struct_named, spec_named_pred, spec_owned_standard, spec_push_binding, spec_push_prop,
    spec_push_val_binding, spec_push_val_bindings, spec_ref_pts_to, spec_refinement,
    spec_subst_this,
};
use crate::emit_stmts::{spec_emit_pure_body, spec_stmts_size};
use crate::emit_records::{
    FieldValue, RecordNames, spec_assumed, spec_emit_container, spec_emit_default_entries,
    spec_emit_field_value, spec_emit_fields_pts_to, spec_emit_flex_posts, spec_emit_record_lines,
    spec_emit_struct_decl, spec_emit_struct_projs, spec_emit_structdefn, spec_emit_typedef,
    spec_emit_union_arms, spec_emit_uniondefn, spec_fold_arg, spec_getter, spec_lemma_type,
    spec_record_field_line, spec_struct_proj, spec_typed, spec_zero_body, spec_zero_instance,
};
use crate::emit_fns::{
    CoreParts, GhostParts, Params, WitnessGroup, spec_arg_ident, spec_bind_prefix,
    spec_check_pure_types, spec_clauses_that, spec_core_arg, spec_core_arg_names,
    spec_core_arg_types, spec_core_args, spec_core_ghosts, spec_emit_decl, spec_emit_fn_decl,
    spec_emit_fn_defn, spec_emit_fn_sig_inner, spec_emit_fnptr_spec_core, spec_emit_fnptr_triple,
    spec_emit_ghost_param, spec_emit_ghost_params, spec_emit_global_addr, spec_emit_global_var,
    spec_emit_let_decl, spec_emit_opaque_type, spec_emit_param, spec_emit_params,
    spec_emit_pure_fn, spec_emit_pure_prop, spec_emit_pure_props, spec_emit_slprop_term,
    spec_full_ownership, spec_ghost_prefix, spec_group_names, spec_group_stars, spec_is_pure_prop,
    spec_or_unit, spec_plain_conj, spec_pure_part, spec_pure_spec, spec_shared_ownership,
    spec_tuple_projs, spec_uninit_ownership,
};
use crate::emit::{spec_emit_module, spec_interface_fn, spec_preamble};
use crate::rename::{Rename, spec_clone_opt_ident, spec_rename_exprs, spec_rename_type};
use crate::merge::{
    Match, spec_arg_renames, spec_arg_types_match, spec_check_match, spec_check_redeclared,
    spec_clone_opt_expr, spec_combine, spec_earlier_says_more, spec_has_specs, spec_match_fn,
    spec_matched_signature, spec_merge_globals, spec_param_renames, spec_rename_args,
    spec_specs_agree, spec_types_match, spec_with_own_names, spec_with_specs,
};
use crate::laws_syntax::{decl_name_text, fn_args, fn_ensures, fn_ghost_args, fn_requires};
use crate::laws_check::{
    arg_type, fn_measure, fn_result, global_type, let_body, let_ensures, let_params, let_requires,
    let_type, loc_of, struct_fields,
};
use crate::laws_text::{each_behind, flat, law_one_more_than_four, separated, starred};
use crate::laws_operators::{int_module, law_modules_follow_widths};
use crate::laws_written::{
    after, after_clauses, clause_texts, joined, lemma_emitted, lemma_inner, lemma_joined,
    lemma_texts_append, lemma_texts_push, ownership, texts, type_loc, type_text, value_text,
    written_name, written_params, zero_text,
};
use crate::laws_typing::named_alike;
use std::rc::Rc;
use vstd::prelude::*;

verus! {

broadcast use {crate::laws_text::group_flat, crate::laws_text::group_lists};

/// Texts with another one between them.
pub open spec fn between(sep: Seq<char>, s: Seq<Seq<char>>) -> Seq<char> {
    if s.len() == 0 {
        Seq::empty()
    } else {
        s[0] + joined(sep, s.skip(1))
    }
}

/// Documents with a text between them are their texts with it between them.
pub proof fn law_separated_texts(sep: Seq<char>, l: Rc<List<DocT>>)
    ensures
        separated(sep, l) == between(sep, texts(l)),
{
    match *l {
        List::Nil => {},
        List::Cons(h, t) => {
            lemma_joined(sep, t);
            assert(texts(l).skip(1) =~= texts(t));
        },
    }
}

/// The truth value that a clause states: what was turned into a proposition, or the clause.
pub open spec fn truth_of(e: Rc<Expr>) -> Rc<Expr> {
    match e.val {
        ExprT::Cast(inner, ty) if ty.val is SLProp => inner,
        _ => e,
    }
}

/// The texts of the truth values of clauses, one for each, in order.
pub open spec fn truth_texts(st: Emitter, env: Env, l: Rc<List<Expr>>) -> Seq<Seq<char>>
    decreases l,
{
    match *l {
        List::Nil => Seq::empty(),
        List::Cons(h, t) => seq![value_text(st, env, truth_of(h))] + truth_texts(after(st, env, truth_of(h)), env, t),
    }
}

/// The names in use once the truth values of clauses were emitted.
pub open spec fn after_truths(st: Emitter, env: Env, l: Rc<List<Expr>>) -> Emitter
    decreases l,
{
    match *l {
        List::Nil => st,
        List::Cons(h, t) => after_truths(after(st, env, truth_of(h)), env, t),
    }
}

/// The truth values of clauses are emitted one for each, in order.
pub proof fn law_truths_in_order(st: Emitter, env: Env, l: Rc<List<Expr>>)
    ensures
        texts(spec_emit_pure_props(st, env, l).1) == truth_texts(st, env, l),
        spec_emit_pure_props(st, env, l).0 == after_truths(st, env, l),
    decreases l,
{
    match *l {
        List::Nil => {},
        List::Cons(h, t) => {
            reveal(spec_emit_pure_prop);
            reveal(spec_pure_part);
            law_truths_in_order(after(st, env, truth_of(h)), env, t);
        },
    }
}

/// The conjunction of texts: `True` where there is none.
pub open spec fn conjunction(s: Seq<Seq<char>>) -> Seq<char> {
    if s.len() == 0 {
        "True"@
    } else {
        between(" /\\ "@, s)
    }
}

/// A conjunction in the specification of a pure function.
proof fn lemma_plain_conj(l: Rc<List<DocT>>)
    ensures
        flat(spec_plain_conj(l)) == conjunction(texts(l)),
{
    reveal(spec_plain_conj);
    law_separated_texts(" /\\ "@, l);
    match *l {
        List::Nil => {},
        List::Cons(h, t) => {},
    }
}

/// The type of a function with a contract: its effect, its result, its precondition and its
/// postcondition, which speaks of the result by name.
pub open spec fn contract_text(effect: Seq<char>, ret: Seq<char>, pre: Seq<Seq<char>>, result: Seq<char>, post: Seq<Seq<char>>) -> Seq<char> {
    effect + " "@ + ret + " "@ + "("@ + "requires"@ + " "@ + conjunction(pre) + ")"@ + " "@ + "("@ + "ensures"@ + " "@ + "("@ + "fun"@ + " "@ + result + " "@ + "->"@ + " "@
        + conjunction(post) + ")"@ + ")"@
}

/// The specification of a pure function's result.
proof fn lemma_pure_spec(effect: &'static str, ret: Doc, pre: Rc<List<DocT>>, result: Doc, post: Rc<List<DocT>>)
    ensures
        flat(spec_naryfn(spec_pure_spec(effect, ret, spec_plain_conj(pre), result, spec_plain_conj(post)))) == "("@ + contract_text(
            effect@,
            flat(ret),
            texts(pre),
            flat(result),
            texts(post),
        ) + ")"@,
{
    reveal(spec_pure_spec);
    lemma_plain_conj(pre);
    lemma_plain_conj(post);
}

/// The same with a measure.
proof fn lemma_measured_spec(effect: &'static str, ret: Doc, pre: Rc<List<DocT>>, result: Doc, post: Rc<List<DocT>>, m: Doc)
    ensures
        flat(spec_naryfn(spec_list_push(spec_pure_spec(effect, ret, spec_plain_conj(pre), result, spec_plain_conj(post)), m))) == "("@ + contract_text(
            effect@,
            flat(ret),
            texts(pre),
            flat(result),
            texts(post),
        ) + " "@ + flat(m) + ")"@,
{
    reveal(spec_pure_spec);
    lemma_plain_conj(pre);
    lemma_plain_conj(post);
    let f = spec_parens(
        spec_d3(
            spec_nest(spec_group(spec_d5(spec_txt("fun"), spec_line(), result, spec_line(), spec_txt("->")))),
            spec_line(),
            spec_plain_conj(post),
        ),
    );
    let r = spec_parens(spec_d3(spec_txt("requires"), spec_line(), spec_plain_conj(pre)));
    let e = spec_parens(spec_d3(spec_txt("ensures"), spec_line(), f));
    law_one_more_than_four(spec_txt(effect), ret, r, e, m);
}

/// A function or a specification function as it is defined: its name, its parameters, its type and
/// its body.
pub open spec fn definition_text(is_rec: bool, name: Seq<char>, params: Seq<Seq<char>>, ty: Seq<char>, body: Seq<char>) -> Seq<char> {
    (if is_rec { "let rec"@ } else { "let"@ }) + " "@ + name + joined(" "@, written_params(params)) + " "@ + ":"@ + " "@ + ty + " "@ + "="@ + " "@ + body
}

/// The text of a definition.
proof fn lemma_definition(is_rec: bool, name: Doc, params: Rc<List<DocT>>, ty: Doc, body: Doc)
    ensures
        flat(spec_mk_let_rec(is_rec, name, spec_or_unit(params), ty, body)) == definition_text(is_rec, flat(name), texts(params), flat(ty), flat(body)),
{
    lemma_joined(" "@, spec_or_unit(params));
    reveal(spec_or_unit);
    reveal_with_fuel(texts, 2);
    match *params {
        List::Nil => {
            assert(texts(spec_or_unit(params)) =~= seq!["()"@]);
        },
        List::Cons(h, t) => {},
    }
}

/// A pure function is a definition whose type states its contract, where it has one: one conjunct for
/// each precondition and for each postcondition, in order, and its measure.
pub proof fn law_pure_functions(st: Emitter, env: Env, decl: Rc<FnDecl>, body: Rc<List<Stmt>>)
    ensures
        ({
            let (st1, g) = spec_emit_ghost_params(st, (Params { env, docs: Rc::new(List::Nil) }), decl.ghost_args);
            let (st2, p) = spec_emit_params(st1, g, 0, decl.args);
            let pre = truth_texts(st2, p.env, decl.requires_);
            let st4 = spec_check_pure_types(after_truths(st2, p.env, decl.requires_), decl.args);
            let (st5, ret) = spec_emit_type(st4, p.env, decl.ret_type);
            let env2 = spec_push_return(p.env, decl.ret_type);
            let post = truth_texts(st5, env2, decl.ensures_);
            let (st7, b) = spec_emit_pure_body(after_truths(st5, env2, decl.ensures_), env2, body, spec_stmts_size(body));
            let (st8, result) = spec_emit_var_name(st7, spec_lit("return"));
            let contract = contract_text("Pure"@, flat(ret), pre, flat(result), post);
            let r = flat(spec_emit_pure_fn(st, env, decl, body).1);
            if decl.requires_.items().len() == 0 && decl.ensures_.items().len() == 0 && !(decl.is_rec && decl.decreases_ is Some) {
                r == definition_text(decl.is_rec, written_name(st7, Name::Fn(decl.name.val)), texts(p.docs), flat(ret), flat(b))
            } else {
                match decl.decreases_ {
                    Some(m) => r == definition_text(
                        decl.is_rec,
                        written_name(after(st8, env2, m), Name::Fn(decl.name.val)),
                        texts(p.docs),
                        "("@ + contract + " "@ + "("@ + "decreases"@ + " "@ + value_text(st8, env2, m) + ")"@ + ")"@,
                        flat(b),
                    ),
                    None => r == definition_text(
                        decl.is_rec,
                        written_name(st8, Name::Fn(decl.name.val)),
                        texts(p.docs),
                        "("@ + contract + ")"@,
                        flat(b),
                    ),
                }
            }
        }),
{
    reveal(spec_emit_pure_fn);
    lemma_clone_env(env);
    let (st1, g) = spec_emit_ghost_params(st, Params { env, docs: Rc::new(List::Nil) }, fn_ghost_args(decl));
    let (st2, p) = spec_emit_params(st1, g, 0, fn_args(decl));
    law_truths_in_order(st2, p.env, fn_requires(decl));
    let (st3, pre) = spec_emit_pure_props(st2, p.env, fn_requires(decl));
    let st4 = spec_check_pure_types(st3, fn_args(decl));
    let (st5, ret) = spec_emit_type(st4, p.env, fn_result(decl));
    let env2 = spec_push_return(p.env, fn_result(decl));
    law_truths_in_order(st5, env2, fn_ensures(decl));
    let (st6, post) = spec_emit_pure_props(st5, env2, fn_ensures(decl));
    let (st7, b) = spec_emit_pure_body(st6, env2, body, spec_stmts_size(body));
    let (st8, result) = spec_emit_var_name(st7, spec_lit("return"));
    lemma_props_are_as_many(st2, p.env, fn_requires(decl));
    lemma_props_are_as_many(st5, env2, fn_ensures(decl));
    let args = spec_pure_spec("Pure", ret, spec_plain_conj(pre), result, spec_plain_conj(post));
    let plain = spec_emit_name(st7, Name::Fn(decl_name_text(decl))).1;
    lemma_definition(is_recursive(decl), plain, p.docs, ret, b);
    match fn_measure(decl) {
        Some(m) => {
            let (st9, dm) = spec_emit_rvalue(st8, env2, m);
            let md = spec_parens(spec_d3(spec_txt("decreases"), spec_line(), dm));
            lemma_measured_spec("Pure", ret, pre, result, post, md);
            let name = spec_emit_name(st9, Name::Fn(decl_name_text(decl))).1;
            lemma_definition(is_recursive(decl), name, p.docs, spec_naryfn(spec_list_push(args, md)), b);
        },
        None => {
            lemma_pure_spec("Pure", ret, pre, result, post);
            let name = spec_emit_name(st8, Name::Fn(decl_name_text(decl))).1;
            lemma_definition(is_recursive(decl), name, p.docs, spec_naryfn(args), b);
        },
    }
}

/// Whether a function calls itself.
pub open spec fn is_recursive(f: Rc<FnDecl>) -> bool {
    f.is_rec
}

/// A copy of a scope is the scope.
proof fn lemma_clone_env(env: Env)
    ensures
        spec_clone_env(env) == env,
{
    reveal(spec_clone_env);
    reveal(spec_with_locals);
    reveal(spec_clone_opt_type);
}

/// There is a truth value for each clause.
proof fn lemma_props_are_as_many(st: Emitter, env: Env, l: Rc<List<Expr>>)
    ensures
        spec_list_is_empty(spec_emit_pure_props(st, env, l).1) == (l.items().len() == 0),
{
    match *l {
        List::Nil => {},
        List::Cons(h, t) => {},
    }
}

/// A specification function is a definition whose type states its contract, where it has one, and
/// whose body is the term that it stands for.
pub proof fn law_specification_functions(st: Emitter, env: Env, d: Rc<LetDecl>)
    requires
        !d.is_impure,
    ensures
        ({
            let (st1, p) = spec_emit_params(st, (Params { env, docs: Rc::new(List::Nil) }), 0, d.params);
            let pre = truth_texts(st1, p.env, d.requires_);
            let (st3, ret) = spec_emit_type(after_truths(st1, p.env, d.requires_), p.env, d.ret_type);
            let env2 = spec_push_return(p.env, d.ret_type);
            let post = truth_texts(st3, env2, d.ensures_);
            let st4 = after_truths(st3, env2, d.ensures_);
            let (st5, result) = spec_emit_var_name(st4, spec_lit("return"));
            let stated = !(d.requires_.items().len() == 0 && d.ensures_.items().len() == 0);
            let st6 = if stated { st5 } else { st4 };
            let (st7, body) = if d.ret_type.val is SLProp { spec_emit_slprop_term(st6, env2, d.body) } else { spec_emit_rvalue(st6, env2, d.body) };
            let ty = if stated {
                "("@ + contract_text("Ghost"@, flat(ret), pre, flat(result), post) + ")"@
            } else {
                "("@ + "GTot"@ + " "@ + flat(ret) + ")"@
            };
            flat(spec_emit_let_decl(st, env, d).1) == definition_text(d.is_rec, written_name(st7, Name::Fn(d.name.val)), texts(p.docs), ty, flat(body))
        }),
{
    reveal(spec_emit_let_decl);
    lemma_clone_env(env);
    let (st1, p) = spec_emit_params(st, Params { env, docs: Rc::new(List::Nil) }, 0, let_params(d));
    law_truths_in_order(st1, p.env, let_requires(d));
    let (st2, pre) = spec_emit_pure_props(st1, p.env, let_requires(d));
    let (st3, ret) = spec_emit_type(st2, p.env, let_type(d));
    let env2 = spec_push_return(p.env, let_type(d));
    law_truths_in_order(st3, env2, let_ensures(d));
    let (st4, post) = spec_emit_pure_props(st3, env2, let_ensures(d));
    let (st5, result) = spec_emit_var_name(st4, spec_lit("return"));
    lemma_props_are_as_many(st1, p.env, let_requires(d));
    lemma_props_are_as_many(st3, env2, let_ensures(d));
    lemma_pure_spec("Ghost", ret, pre, result, post);
    let args = spec_pure_spec("Ghost", ret, spec_plain_conj(pre), result, spec_plain_conj(post));
    let stated = !(let_requires(d).items().len() == 0 && let_ensures(d).items().len() == 0);
    let st6 = if stated {
        st5
    } else {
        st4
    };
    let (st7, body) = if is_proposition(let_type(d)) {
        spec_emit_slprop_term(st6, env2, let_body(d))
    } else {
        spec_emit_rvalue(st6, env2, let_body(d))
    };
    let ty = if stated {
        spec_naryfn(args)
    } else {
        spec_unaryfn(spec_txt("GTot"), ret)
    };
    let name = spec_emit_name(st7, Name::Fn(let_name_text(d))).1;
    lemma_definition(let_is_rec(d), name, p.docs, ty, body);
}

/// Whether a type is that of propositions.
pub open spec fn is_proposition(ty: Rc<Type>) -> bool {
    ty.val is SLProp
}

/// The name of a specification function.
pub open spec fn let_name_text(d: Rc<LetDecl>) -> Text {
    d.name.val
}

/// Whether a specification function calls itself.
pub open spec fn let_is_rec(d: Rc<LetDecl>) -> bool {
    d.is_rec
}

/// A clause that is a truth value is lifted by `pure` where a term of type `slprop` is needed, and any
/// other clause is such a term.
pub proof fn law_clauses_as_terms(st: Emitter, env: Env, e: Rc<Expr>)
    ensures
        flat(spec_emit_slprop_term(st, env, e).1) == (if truth_of(e) != e {
            "("@ + "pure"@ + " "@ + value_text(st, env, truth_of(e)) + ")"@
        } else {
            value_text(st, env, e)
        }),
{
    reveal(spec_emit_slprop_term);
    reveal(spec_is_pure_prop);
    reveal(spec_pure_part);
    match e.val {
        ExprT::Cast(inner, ty) => {
            assert(decreases_to!(e => inner));
        },
        _ => {},
    }
}

/// The clauses of a contract are split into truth values and others: each clause is on the side where
/// it belongs, and nothing else is.
pub proof fn law_clauses_are_split(l: Rc<List<Expr>>, e: Rc<Expr>)
    ensures
        spec_clauses_that(l, true).items().contains(e) <==> l.items().contains(e) && truth_of(e) != e,
        spec_clauses_that(l, false).items().contains(e) <==> l.items().contains(e) && truth_of(e) == e,
        spec_clauses_that(l, true).items().len() + spec_clauses_that(l, false).items().len() == l.items().len(),
    decreases l,
{
    reveal(spec_is_pure_prop);
    match *l {
        List::Nil => {},
        List::Cons(h, t) => {
            law_clauses_are_split(t, e);
            match h.val {
                ExprT::Cast(inner, ty) => {
                    assert(decreases_to!(h => inner));
                },
                _ => {},
            }
            lemma_contains(h, t, e);
            lemma_contains(h, spec_clauses_that(t, true), e);
            lemma_contains(h, spec_clauses_that(t, false), e);
        },
    }
}

/// What a list with one more item holds.
proof fn lemma_contains(h: Rc<Expr>, t: Rc<List<Expr>>, e: Rc<Expr>)
    ensures
        (seq![h] + t.items()).contains(e) <==> e == h || t.items().contains(e),
{
    let s = seq![h] + t.items();
    if e == h {
        assert(s[0] == e);
    }
    if t.items().contains(e) {
        let i = choose|i: int| 0 <= i < t.items().len() && t.items()[i] == e;
        assert(s[i + 1] == e);
    }
    if s.contains(e) {
        let i = choose|i: int| 0 <= i < s.len() && s[i] == e;
        if i > 0 {
            assert(t.items()[i - 1] == e);
        }
    }
}

/// What a function pointer takes: nothing, the one argument, or a tuple of them in order.
pub proof fn law_domains(l: Rc<List<DocT>>)
    ensures
        flat(spec_fnptr_domain_doc(l)) == (if texts(l).len() == 0 {
            "unit"@
        } else if texts(l).len() == 1 {
            texts(l)[0]
        } else {
            "("@ + between(" & "@, texts(l)) + ")"@
        }),
        flat(spec_arg_tuple(l)) == (if texts(l).len() == 0 {
            "()"@
        } else if texts(l).len() == 1 {
            texts(l)[0]
        } else {
            "("@ + between(", "@, texts(l)) + ")"@
        }),
{
    reveal(spec_fnptr_domain_doc);
    reveal(spec_arg_tuple);
    reveal_with_fuel(texts, 3);
    law_separated_texts(" & "@, l);
    law_separated_texts(", "@, l);
    match *l {
        List::Nil => {},
        List::Cons(h, t) => match *t {
            List::Nil => {},
            List::Cons(_, _) => {},
        },
    }
}

/// Ownership with ghost values is existential in them.
pub proof fn law_witnesses_are_bound(bindings: Rc<List<ExBinding>>, props: Rc<List<DocT>>)
    ensures
        flat(spec_wrap_exists(bindings, props)) == (match *bindings {
            List::Nil => starred(props),
            _ => "exists*"@ + binders_text(bindings) + "."@ + " "@ + starred(props),
        }),
{
    reveal(spec_wrap_exists);
    lemma_binders(bindings);
}

/// Bound names with their types.
pub open spec fn binders_text(l: Rc<List<ExBinding>>) -> Seq<char>
    decreases l,
{
    match *l {
        List::Nil => Seq::empty(),
        List::Cons(h, t) => " "@ + "("@ + flat(h.name) + ":"@ + " "@ + flat(h.ty) + ")"@ + binders_text(t),
    }
}

/// The text of binders behind what was there.
proof fn lemma_binders_onto(acc: Doc, l: Rc<List<ExBinding>>)
    ensures
        flat(spec_binders_onto(acc, l)) == flat(acc) + binders_text(l),
    decreases l,
{
    match *l {
        List::Nil => {},
        List::Cons(h, t) => {
            lemma_binders_onto(spec_d2(acc, spec_d2(spec_line(), spec_binder(bound_name(h), bound_type(h)))), t);
        },
    }
}

/// A bound name.
pub open spec fn bound_name(b: Rc<ExBinding>) -> Doc {
    b.name
}

/// The type of a bound name.
pub open spec fn bound_type(b: Rc<ExBinding>) -> Doc {
    b.ty
}

/// The text of binders.
proof fn lemma_binders(l: Rc<List<ExBinding>>)
    ensures
        flat(spec_binders_before(l)) == binders_text(l),
{
    reveal(spec_binders_before);
    lemma_binders_onto(spec_nil_doc(), l);
}

/// A struct literal gives every field of the struct, in order, the value that it is given, or else its
/// zero value.
pub proof fn law_struct_entries(st: Emitter, env: Env, s: Rc<Ident>, inits: Rc<List<FieldInit>>, f: Rc<Field>, t: Rc<List<Field>>)
    ensures
        ({
            let fname = spec_field_name(f);
            let (st1, given) = spec_emit_init_of(st, env, inits, fname);
            let (st2, d) = match given {
                Some(d) => (st1, d),
                None => spec_emit_field_default(st1, env, f),
            };
            let (st3, name) = spec_emit_name(st2, Name::StructDirectFieldName(s.val, fname.val));
            let (st4, rest) = spec_emit_struct_entries(st3, env, s, inits, t);
            let (st5, all) = spec_emit_struct_entries(st, env, s, inits, Rc::new(List::Cons(f, t)));
            &&& st5 == st4
            &&& texts(all) == seq![" "@ + flat(name) + "="@ + flat(d) + ";"@] + texts(rest)
            &&& spec_emit_struct_entries(st, env, s, inits, Rc::new(List::Nil)).1.items().len() == 0
        }),
{
    let l: Rc<List<Field>> = Rc::new(List::Cons(f, t));
    let all = spec_emit_struct_entries(st, env, s, inits, l);
}

/// The value that a field is given is that of the first initializer with its name.
pub proof fn law_given_values(st: Emitter, env: Env, i: Rc<FieldInit>, t: Rc<List<FieldInit>>, fname: Rc<Ident>)
    ensures
        spec_emit_init_of(st, env, Rc::new(List::Nil), fname) == (st, None::<Doc>),
        spec_emit_init_of(st, env, Rc::new(List::Cons(i, t)), fname) == (if named_alike(i.name, fname) {
            (spec_emit_rvalue(st, env, i.value).0, Some(spec_emit_rvalue(st, env, i.value).1))
        } else {
            spec_emit_init_of(st, env, t, fname)
        }),
{
    reveal(spec_same_name);
    let l: Rc<List<FieldInit>> = Rc::new(List::Cons(i, t));
    let n: Rc<List<FieldInit>> = Rc::new(List::Nil);
    let a = spec_emit_init_of(st, env, l, fname);
    let b = spec_emit_field_init(st, env, i);
    let c = spec_emit_init_of(st, env, n, fname);
}

/// A struct literal is the record of its entries.
pub proof fn law_struct_literals(st: Emitter, env: Env, v: Rc<Expr>, s: Rc<Ident>, inits: Rc<List<FieldInit>>, d: Rc<StructDefn>)
    requires
        v.val == ExprT::StructInit(s, inits),
        spec_lookup_struct(env, s) == Some(d),
    ensures
        value_text(st, env, v) == "{"@ + joined(Seq::empty(), texts(spec_emit_struct_entries(st, env, s, inits, d.fields).1)) + " "@ + "}"@,
{
    lemma_inner(st, env, v);
    let e = spec_emit_struct_init(st, env, s, inits);
    lemma_joined(Seq::empty(), spec_emit_struct_entries(st, env, s, inits, struct_fields(d)).1);
}

/// The cells of an array literal, from the last to the first.
#[verifier::opaque]
pub open spec fn cells_text(st: Emitter, env: Env, ty: Seq<char>, l: Rc<List<Expr>>) -> (Emitter, Seq<char>)
    decreases l,
{
    match *l {
        List::Nil => (st, "("@ + "Nil"@ + " "@ + ty + ")"@),
        List::Cons(h, t) => {
            let (st1, rest) = cells_text(st, env, ty, t);
            (after(st1, env, h), "(Cons"@ + " "@ + ty + " "@ + value_text(st1, env, h) + " "@ + rest + ")"@)
        },
    }
}

/// The cells of an array literal hold its elements, in order.
pub proof fn law_cells_hold_the_elements(st: Emitter, env: Env, ty: Doc, l: Rc<List<Expr>>)
    ensures
        spec_emit_cons_cells(st, env, ty, l).0 == cells_text(st, env, flat(ty), l).0,
        flat(spec_emit_cons_cells(st, env, ty, l).1) == cells_text(st, env, flat(ty), l).1,
    decreases l,
{
    reveal_with_fuel(cells_text, 2);
    match *l {
        List::Nil => {},
        List::Cons(h, t) => law_cells_hold_the_elements(st, env, ty, t),
    }
}

/// An array literal is the list of its elements with its length.
pub proof fn law_array_literals(st: Emitter, env: Env, v: Rc<Expr>, elem_ty: Rc<Type>, elems: Rc<List<Expr>>, is_static: bool)
    requires
        v.val == (ExprT::ArrayInit { elem_ty, elems, is_static }),
    ensures
        ({
            let (st1, ty) = spec_emit_type(st, env, elem_ty);
            let t = spec_d2(spec_txt("#"), ty);
            value_text(st, env, v) == "("@ + "array_spec_of_list_with_len"@ + " "@ + flat(t) + " "@ + flat(spec_emit_cons_cells(st1, env, t, elems).1) + " "@ + nat_chars(
                spec_list_len(elems) as nat,
            ) + ")"@
        }),
{
    lemma_inner(st, env, v);
    let e = spec_emit_array_init(st, env, elem_ty, elems);
}

/// A parameter is its name with its type; a parameter without a name is named by its position.
pub proof fn law_parameters(st: Emitter, env: Env, arg: Rc<FnArg>, i: u64)
    ensures
        ({
            let n = spec_arg_ident(arg, i);
            let (st1, name) = spec_emit_var_name(st, n.val);
            &&& flat(spec_emit_param(st, env, arg, i).1) == "("@ + flat(name) + ":"@ + " "@ + type_text(st1, env, arg.ty) + ")"@
            &&& match arg.name {
                Some(x) => n == x,
                None => n.val.chars() == "_unnamed"@ + nat_chars(i as nat),
            }
        }),
{
    reveal(spec_emit_param);
    reveal(spec_arg_ident);
    reveal(spec_mk_ident);
}

/// A ghost parameter is implicit and erased.
pub proof fn law_ghost_parameters(st: Emitter, env: Env, g: Rc<GhostArg>)
    ensures
        ({
            let (st1, name) = spec_emit_var_name(st, g.name.val);
            flat(spec_emit_ghost_param(st, env, g).1) == "("@ + "#"@ + flat(name) + ":"@ + " "@ + "erased"@ + " "@ + type_text(st1, env, g.ty) + ")"@
        }),
{
    reveal(spec_emit_ghost_param);
}

/// A global that is a constant is a definition of its value: the one that it is given, or else zero;
/// one of another translation unit is assumed. Its address follows.
pub proof fn law_constant_globals(st: Emitter, env: Env, gv: Rc<GlobalVar>)
    requires
        gv.is_pure,
        !gv.is_external,
        !gv.opaque_to_smt,
    ensures
        ({
            let (st1, name) = spec_emit_var_name(st, gv.name.val);
            let (st2, ty) = spec_emit_type(st1, env, gv.ty);
            let (st3, body) = match gv.init {
                Some(init) => spec_emit_rvalue(st2, env, init),
                None => spec_emit_type_default(st2, env, gv.ty),
            };
            let def = "let"@ + " "@ + flat(name) + " "@ + ":"@ + " "@ + flat(ty) + " "@ + "="@ + " "@ + flat(body);
            flat(spec_emit_global_var(st, env, gv).1) == (match spec_emit_global_addr(st3, env, gv).1 {
                Some(addr) => def + "\n"@ + flat(addr),
                None => def,
            })
        }),
{
    reveal(spec_emit_global_var);
    reveal(spec_mk_let);
}

/// A global of another translation unit that is a constant is an assumed value.
pub proof fn law_external_globals(st: Emitter, env: Env, gv: Rc<GlobalVar>)
    requires
        gv.is_pure,
        gv.is_external,
        !gv.opaque_to_smt,
    ensures
        ({
            let (st1, name) = spec_emit_var_name(st, gv.name.val);
            let (st2, ty) = spec_emit_type(st1, env, gv.ty);
            let def = "assume val"@ + " "@ + flat(name) + " "@ + ":"@ + " "@ + flat(ty);
            flat(spec_emit_global_var(st, env, gv).1) == (match spec_emit_global_addr(st2, env, gv).1 {
                Some(addr) => def + "\n"@ + flat(addr),
                None => def,
            })
        }),
{
    reveal(spec_emit_global_var);
    reveal(spec_mk_attrs);
}

/// The address of a global, and that it is not null.
pub open spec fn address_text(addr: Seq<char>, ty: Seq<char>, not_null: Seq<char>) -> Seq<char> {
    "assume val "@ + addr + " : "@ + "("@ + "ref"@ + " "@ + ty + ")"@ + "\n"@ + "assume val "@ + not_null + " : squash (~(Pulse.Lib.Reference.is_null "@ + addr + "))"@
}

/// The function that hands out a share of a global's storage.
pub open spec fn acquire_text(acquire: Seq<char>, addr: Seq<char>, var: Seq<char>) -> Seq<char> {
    "assume val"@ + " "@ + acquire + " "@ + ":"@ + " "@ + "("@ + "unit"@ + " "@ + "->"@ + " "@ + "stt_ghost"@ + " "@ + "unit"@ + " "@ + "emp_inames"@ + " "@ + "emp"@ + " "@ + "("@
        + "fun"@ + " "@ + "_"@ + " "@ + "->"@ + " "@ + "exists*"@ + " "@ + "("@ + "p"@ + ":"@ + " "@ + "perm"@ + ")"@ + "."@ + " "@ + "("@ + "("@ + "Pulse.Lib.Reference.pts_to"@
        + " "@ + addr + " "@ + "#"@ + "p"@ + " "@ + var + ")"@ + ")"@ + ")"@ + ")"@
}

/// A share of a global's storage.
proof fn lemma_share(addr: Doc, var: Doc)
    ensures
        ({
            let pts_to = spec_naryfn(spec_l4(spec_txt("Pulse.Lib.Reference.pts_to"), addr, spec_d2(spec_txt("#"), spec_txt("p")), var));
            let b: Rc<List<ExBinding>> = spec_l1(Rc::new(ExBinding { name: spec_txt("p"), ty: spec_txt("perm") }));
            flat(spec_wrap_exists(b, spec_l1(pts_to))) == "exists*"@ + " "@ + "("@ + "p"@ + ":"@ + " "@ + "perm"@ + ")"@ + "."@ + " "@ + "("@ + "("@
                + "Pulse.Lib.Reference.pts_to"@ + " "@ + flat(addr) + " "@ + "#"@ + "p"@ + " "@ + flat(var) + ")"@ + ")"@
        }),
{
    let pts_to = spec_naryfn(spec_l4(spec_txt("Pulse.Lib.Reference.pts_to"), addr, spec_d2(spec_txt("#"), spec_txt("p")), var));
    let b: Rc<List<ExBinding>> = spec_l1(Rc::new(ExBinding { name: spec_txt("p"), ty: spec_txt("perm") }));
    reveal_with_fuel(binders_text, 3);
    reveal_with_fuel(each_behind, 2);
    law_witnesses_are_bound(b, spec_l1(pts_to));
    assert(starred(spec_l1(pts_to)) == "("@ + flat(pts_to) + ")"@);
    assert(binders_text(b) == " "@ + "("@ + "p"@ + ":"@ + " "@ + "perm"@ + ")"@);
}

/// The acquire of a global.
proof fn lemma_acquire(acquire: Doc, owned: Doc)
    ensures
        flat(
            spec_mk_assume_val(
                spec_nil(),
                acquire,
                spec_nil(),
                spec_naryfn(
                    spec_l7(
                        spec_txt("unit"),
                        spec_txt("->"),
                        spec_txt("stt_ghost"),
                        spec_txt("unit"),
                        spec_txt("emp_inames"),
                        spec_txt("emp"),
                        spec_mk_thunk(owned),
                    ),
                ),
            ),
        ) == "assume val"@ + " "@ + flat(acquire) + " "@ + ":"@ + " "@ + "("@ + "unit"@ + " "@ + "->"@ + " "@ + "stt_ghost"@ + " "@ + "unit"@ + " "@ + "emp_inames"@ + " "@ + "emp"@
            + " "@ + "("@ + "fun"@ + " "@ + "_"@ + " "@ + "->"@ + " "@ + flat(owned) + ")"@ + ")"@,
{
    reveal(spec_mk_attrs);
}

/// The address of a global is an assumed reference to its type that is not null. Arrays and
/// constants of enumerations have none.
pub proof fn law_addresses_of_globals(st: Emitter, env: Env, gv: Rc<GlobalVar>)
    ensures
        (spec_emit_global_addr(st, env, gv).1 is None) == (spec_global_var_is_array(gv) || gv.is_enum_constant),
        !spec_global_var_is_array(gv) && !gv.is_enum_constant && !gv.is_pure ==> ({
            let (st1, addr) = spec_emit_name(st, Name::GlobalAddr(gv.name.val));
            let (st2, ty) = spec_emit_type(st1, env, gv.ty);
            let not_null = spec_emit_name(st2, Name::GlobalAddrNotNull(gv.name.val)).1;
            spec_emit_global_addr(st, env, gv).1 matches Some(d) && flat(d) == address_text(flat(addr), flat(ty), flat(not_null))
        }),
{
    reveal(spec_emit_global_addr);
}

/// A constant global may also be read through its address, by a share of its storage.
pub proof fn law_constant_globals_may_be_read(st: Emitter, env: Env, gv: Rc<GlobalVar>)
    requires
        gv.is_pure,
        !spec_global_var_is_array(gv),
        !gv.is_enum_constant,
    ensures
        ({
            let (st1, addr) = spec_emit_name(st, Name::GlobalAddr(gv.name.val));
            let (st2, ty) = spec_emit_type(st1, env, gv.ty);
            let (st3, not_null) = spec_emit_name(st2, Name::GlobalAddrNotNull(gv.name.val));
            let (st4, var) = spec_emit_var_name(st3, gv.name.val);
            let acquire = spec_emit_name(st4, Name::GlobalAcquire(gv.name.val)).1;
            spec_emit_global_addr(st, env, gv).1 matches Some(d) && flat(d) == address_text(flat(addr), flat(ty), flat(not_null)) + "\n"@ + acquire_text(
                flat(acquire),
                flat(addr),
                flat(var),
            )
        }),
{
    reveal(spec_emit_global_addr);
    let name = global_name(gv);
    let (st1, addr) = spec_emit_name(st, Name::GlobalAddr(name));
    let (st2, ty) = spec_emit_type(st1, env, global_type(gv));
    let (st3, not_null) = spec_emit_name(st2, Name::GlobalAddrNotNull(name));
    let (st4, var) = spec_emit_var_name(st3, name);
    let acquire = spec_emit_name(st4, Name::GlobalAcquire(name)).1;
    let pts_to = spec_naryfn(spec_l4(spec_txt("Pulse.Lib.Reference.pts_to"), addr, spec_d2(spec_txt("#"), spec_txt("p")), var));
    let b: Rc<List<ExBinding>> = spec_l1(Rc::new(ExBinding { name: spec_txt("p"), ty: spec_txt("perm") }));
    let owned = spec_wrap_exists(b, spec_l1(pts_to));
    lemma_share(addr, var);
    lemma_acquire(acquire, owned);
}

/// The name of a global.
pub open spec fn global_name(g: Rc<GlobalVar>) -> Text {
    g.name.val
}

/// Whether ownership is that of `o` with one more proposition, of the given text.
pub open spec fn says_more(r: Owned, o: Owned, t: Seq<char>) -> bool {
    r.naming == o.naming && texts(r.props) == texts(o.props) + seq![t]
}

/// One more proposition.
proof fn lemma_push_prop(o: Owned, d: Doc)
    ensures
        says_more(spec_push_prop(o, d), o, flat(d)),
{
    reveal(spec_push_prop);
    lemma_texts_push(o.props, d);
}

/// No ownership comes with a place in an array, with a raw pointer, or with a number.
pub proof fn law_what_owns_nothing(st: Emitter, env: Env, ty: Rc<Type>, variant: SLPropVariant, o: Owned, this: Rc<Expr>, resolving: Option<Text>, fuel: u64)
    requires
        (ty.val matches TypeT::Pointer(_, k) && (k == PointerKind::ArrayPtr || k == PointerKind::Core)) || ty.val is Int || ty.val is Bool || ty.val is Float || ty.val is SizeT
            || ty.val is PtrdiffT || ty.val is FnPtr || ty.val is Void || ty.val is Plain,
    ensures
        spec_emit_type_slprop_inner(st, env, ty, variant, o, this, resolving, fuel).1 == o,
{
    let r = spec_emit_type_slprop_inner(st, env, ty, variant, o, this, resolving, fuel);
}

/// An array is owned as a whole, with a ghost value for what it holds: of all its elements where it is
/// initialized, and otherwise of those that are.
pub proof fn law_arrays_are_owned(st: Emitter, env: Env, ty: Rc<Type>, to: Rc<Type>, variant: SLPropVariant, o: Owned, this: Rc<Expr>, resolving: Option<Text>, fuel: u64)
    requires
        ty.val == TypeT::Pointer(to, PointerKind::Array),
    ensures
        ({
            let (st1, x) = spec_emit_rvalue(st, env, this);
            let (st2, elem) = spec_emit_type(st1, env, to);
            let r = spec_emit_type_slprop_inner(st, env, ty, variant, o, this, resolving, fuel).1;
            match variant {
                SLPropVariant::Init { perm } => {
                    let (o2, v) = spec_push_val_binding(st2, o, this, spec_unaryfn(spec_txt("full_array_spec"), elem)).1;
                    says_more(r, o2, "("@ + "array_pts_to_full"@ + " "@ + flat(x) + " "@ + flat(perm) + " "@ + flat(v) + ")"@)
                },
                SLPropVariant::Uninit => {
                    let (o2, v) = spec_push_val_binding(st2, o, this, spec_unaryfn(spec_txt("array_spec"), elem)).1;
                    says_more(r, o2, "("@ + "array_pts_to_uninit"@ + " "@ + flat(x) + " "@ + flat(v) + ")"@)
                },
            }
        }),
{
    reveal(spec_array_pts_to);
    let (st1, x) = spec_emit_rvalue(st, env, this);
    let (st2, elem) = spec_emit_type(st1, env, to);
    let r = spec_emit_type_slprop_inner(st, env, ty, variant, o, this, resolving, fuel);
    match variant {
        SLPropVariant::Init { perm } => {
            let (o2, v) = spec_push_val_binding(st2, o, this, spec_unaryfn(spec_txt("full_array_spec"), elem)).1;
            lemma_push_prop(o2, spec_annotated(type_loc(ty), spec_naryfn(spec_l4(spec_txt("array_pts_to_full"), x, perm, v))));
        },
        SLPropVariant::Uninit => {
            let (o2, v) = spec_push_val_binding(st2, o, this, spec_unaryfn(spec_txt("array_spec"), elem)).1;
            lemma_push_prop(o2, spec_annotated(type_loc(ty), spec_naryfn(spec_l3(spec_txt("array_pts_to_uninit"), x, v))));
        },
    }
}

/// One object is owned with a ghost value for what it holds, and then what it holds is owned in turn, where
/// it is initialized.
pub proof fn law_objects_are_owned(st: Emitter, env: Env, ty: Rc<Type>, to: Rc<Type>, kind: PointerKind, variant: SLPropVariant, o: Owned, this: Rc<Expr>, resolving: Option<Text>, fuel: u64)
    requires
        ty.val == TypeT::Pointer(to, kind),
        kind == PointerKind::Ref || kind == PointerKind::Unknown,
    ensures
        ({
            let (st1, x) = spec_emit_rvalue(st, env, this);
            let (st4, r) = spec_emit_type_slprop_inner(st, env, ty, variant, o, this, resolving, fuel);
            match variant {
                SLPropVariant::Init { perm } => {
                    let (st2, t) = spec_emit_type(st1, env, to);
                    let (st3, b) = spec_push_val_binding(st2, o, this, t);
                    let (o2, v) = b;
                    exists|o3: Owned, inner: Rc<Expr>|
                        says_more(o3, o2, "("@ + "Pulse.Lib.Reference.pts_to"@ + " "@ + flat(x) + " "@ + "#"@ + flat(perm) + " "@ + flat(v) + ")"@) && inner.val == ExprT::Deref(this) && (
                        (st4, r) == (if spec_is_struct_named(to, st3.defining_struct) {
                            (st3, o3)
                        } else {
                            #[trigger] spec_emit_type_slprop_inner(st3, env, to, variant, o3, inner, resolving, fuel)
                        }))
                },
                SLPropVariant::Uninit => says_more(r, o, "("@ + "Pulse.Lib.Reference.pts_to_uninit"@ + " "@ + flat(x) + ")"@),
            }
        }),
{
    reveal(spec_mk_expr);
    let (st1, x) = spec_emit_rvalue(st, env, this);
    let r = spec_emit_type_slprop_inner(st, env, ty, variant, o, this, resolving, fuel);
    let q = spec_ref_pts_to(st1, env, ty, variant, o, this, x, to, resolving, fuel);
    assert(r == q);
    match variant {
        SLPropVariant::Init { perm } => {
            let (st2, t) = spec_emit_type(st1, env, to);
            let (st3, b) = spec_push_val_binding(st2, o, this, t);
            let (o2, v) = b;
            let d = spec_annotated(type_loc(ty), spec_naryfn(spec_l4(spec_txt("Pulse.Lib.Reference.pts_to"), x, spec_d2(spec_txt("#"), perm), v)));
            lemma_push_prop(o2, d);
            let o3 = spec_push_prop(o2, d);
            let inner = spec_mk_expr(loc_of(this), ExprT::Deref(this));
            let next = spec_emit_type_slprop_inner(st3, env, to, variant, o3, inner, resolving, fuel);
            assert(inner.val == ExprT::Deref(this));
        },
        SLPropVariant::Uninit => lemma_push_prop(o, spec_annotated(type_loc(ty), spec_unaryfn(spec_txt("Pulse.Lib.Reference.pts_to_uninit"), x))),
    }
}

/// A refinement states its fact of the value itself: one for initialized memory only there, one for
/// uninitialized memory only there, and one that always holds in both.
pub proof fn law_refinements_are_stated(st: Emitter, env: Env, ty: Rc<Type>, t: Rc<Type>, p: Rc<Expr>, variant: SLPropVariant, o: Owned, this: Rc<Expr>, resolving: Option<Text>, fuel: u64)
    requires
        ty.val == TypeT::Refine(t, p) || ty.val == TypeT::RefineAlways(t, p) || ty.val == TypeT::RefineUninit(t, p),
    ensures
        ({
            let (st1, o2) = spec_emit_type_slprop_inner(st, env, t, variant, o, this, resolving, fuel);
            let r = spec_emit_type_slprop_inner(st, env, ty, variant, o, this, resolving, fuel).1;
            if ty.val is RefineAlways || (ty.val is Refine) == (variant is Init) {
                says_more(r, o2, value_text(st1, env, spec_subst_this(p, this)))
            } else {
                r == o2
            }
        }),
{
    reveal(spec_refinement);
    let (st1, o2) = spec_emit_type_slprop_inner(st, env, t, variant, o, this, resolving, fuel);
    let r = spec_emit_type_slprop_inner(st, env, ty, variant, o, this, resolving, fuel);
    lemma_push_prop(o2, spec_emit_rvalue(st1, env, spec_subst_this(p, this)).1);
}

/// What may be null is owned unless it is.
pub proof fn law_nullable_ownership(st: Emitter, env: Env, ty: Rc<Type>, t: Rc<Type>, variant: SLPropVariant, o: Owned, this: Rc<Expr>, resolving: Option<Text>, fuel: u64)
    requires
        ty.val == TypeT::Nullable(t),
    ensures
        ({
            let (st1, x) = spec_emit_rvalue(st, env, this);
            let i = spec_emit_type_slprop_inner(st1, env, t, variant, (Owned { naming: o.naming, props: Rc::new(List::Nil) }), this, resolving, fuel).1;
            let r = spec_emit_type_slprop_inner(st, env, ty, variant, o, this, resolving, fuel).1;
            &&& r.naming == i.naming
            &&& texts(r.props) == texts(o.props) + seq!["("@ + "unless_null"@ + " "@ + flat(x) + " "@ + starred(i.props) + ")"@]
        }),
{
    let (st1, x) = spec_emit_rvalue(st, env, this);
    let i = spec_emit_type_slprop_inner(st1, env, t, variant, Owned { naming: o.naming, props: Rc::new(List::Nil) }, this, resolving, fuel).1;
    let r = spec_emit_type_slprop_inner(st, env, ty, variant, o, this, resolving, fuel);
    lemma_texts_push(o.props, spec_annotated(type_loc(ty), spec_naryfn(spec_l3(spec_txt("unless_null"), x, spec_mk_star(i.props)))));
}

/// A ghost value is named after what it is the value of and by how many there are, with a quote where it is
/// implicit; in the predicate of a struct it is a field of the struct's description.
pub proof fn law_ghost_values(st: Emitter, o: Owned, this: Rc<Expr>, ty: Doc)
    ensures
        ({
            let (o2, v) = spec_push_val_binding(st, o, this, ty).1;
            let n = spec_list_len(o.naming.bindings);
            &&& o2.props == o.props
            &&& o2.naming.spec == o.naming.spec
            &&& o2.naming.quote == o.naming.quote
            &&& match o.naming.spec {
                None => {
                    let name = flat(spec_local_name(st, Name::Val(spec_extract_base_ident(this), n)).1);
                    &&& flat(v) == (if o.naming.quote { "'"@ } else { Seq::<char>::empty() }) + name
                    &&& exists|b: Rc<ExBinding>| flat(b.name) == flat(v) && b.ty == ty && o2.naming.bindings == #[trigger] spec_list_push(o.naming.bindings, b)
                },
                Some(ctx) => exists|b: Rc<ExBinding>|
                    flat(v) == flat(ctx.spec_param) + "."@ + flat(b.name) && b.ty == ty && o2.naming.bindings == #[trigger] spec_list_push(o.naming.bindings, b),
            }
        }),
{
    reveal(spec_push_val_binding);
    reveal(spec_push_binding);
    let (o2, v) = spec_push_val_binding(st, o, this, ty).1;
    match naming_spec(o) {
        None => {
            let b = Rc::new(ExBinding { name: v, ty });
            let l = spec_list_push(o.naming.bindings, b);
        },
        Some(ctx) => {
            let fname = spec_cat3(ctx_field(ctx), spec_lit("_"), spec_num(spec_list_len(o.naming.bindings)));
            let field = spec_local_name(st, Name::TypeRefSpecField(spec_clone_type_ref(ctx_type(ctx)), fname)).1;
            let b = Rc::new(ExBinding { name: field, ty });
            let l = spec_list_push(o.naming.bindings, b);
        },
    }
}

/// The description that ghost values are fields of.
pub open spec fn naming_spec(o: Owned) -> Option<Rc<SpecCtx>> {
    o.naming.spec
}

/// The field that a description is about.
pub open spec fn ctx_field(c: Rc<SpecCtx>) -> Text {
    c.field_name
}

/// The type that a description is of.
pub open spec fn ctx_type(c: Rc<SpecCtx>) -> TypeRef {
    c.type_ref
}

/// The named predicate of a type is applied to the value, to the permission where memory is initialized, and
/// to a ghost value for each that it takes.
pub proof fn law_named_predicates(st: Emitter, env: Env, n: TypeRefKind, variant: SLPropVariant, o: Owned, this: Rc<Expr>)
    ensures
        ({
            let (st1, x) = spec_emit_rvalue(st, env, this);
            let r = spec_named_pred(st, env, n, variant, o, this).1;
            match variant {
                SLPropVariant::Init { perm } => {
                    let types = spec_find_val_params(st1.type_val_params, spec_type_ref(n));
                    let (st2, pred) = spec_emit_name(st1, Name::TypeRefPred(spec_type_ref(n)));
                    let (o2, vals) = spec_push_val_bindings(st2, o, this, types, Rc::new(List::Nil)).1;
                    says_more(r, o2, "("@ + flat(pred) + " "@ + flat(x) + " "@ + flat(perm) + each_behind(" "@, vals) + ")"@)
                },
                SLPropVariant::Uninit => {
                    let types = spec_find_val_params(st1.type_uninit_val_params, spec_type_ref(n));
                    let (st2, pred) = spec_emit_name(st1, Name::TypeRefUninitPred(spec_type_ref(n)));
                    let (o2, vals) = spec_push_val_bindings(st2, o, this, types, Rc::new(List::Nil)).1;
                    says_more(r, o2, "("@ + flat(pred) + " "@ + flat(x) + each_behind(" "@, vals) + ")"@)
                },
            }
        }),
{
    reveal(spec_named_pred);
    reveal_with_fuel(spec_list_append, 5);
    reveal_with_fuel(each_behind, 4);
    let (st1, x) = spec_emit_rvalue(st, env, this);
    match variant {
        SLPropVariant::Init { perm } => {
            let types = spec_find_val_params(st1.type_val_params, spec_type_ref(n));
            let (st2, pred) = spec_emit_name(st1, Name::TypeRefPred(spec_type_ref(n)));
            let (o2, vals) = spec_push_val_bindings(st2, o, this, types, Rc::new(List::Nil)).1;
            lemma_push_prop(o2, spec_naryfn(spec_list_append(spec_l3(pred, x, perm), vals)));
        },
        SLPropVariant::Uninit => {
            let types = spec_find_val_params(st1.type_uninit_val_params, spec_type_ref(n));
            let (st2, pred) = spec_emit_name(st1, Name::TypeRefUninitPred(spec_type_ref(n)));
            let (o2, vals) = spec_push_val_bindings(st2, o, this, types, Rc::new(List::Nil)).1;
            lemma_push_prop(o2, spec_naryfn(spec_list_append(spec_l2(pred, x), vals)));
        },
    }
}

/// A token of inline code is what stood before it, followed by its text, or by what it quotes: a value, a
/// place or a type.
pub proof fn law_tokens(st: Emitter, env: Env, tok: Rc<InlinePulseToken>)
    ensures
        match *tok {
            InlinePulseToken::Verbatim { before, text } => flat(spec_emit_token(st, env, tok).1) == before.chars() + text.val.chars(),
            InlinePulseToken::RValueAntiquot { before, expr } => flat(spec_emit_token(st, env, tok).1) == before.chars() + value_text(st, env, expr),
            InlinePulseToken::LValueAntiquot { before, expr } => flat(spec_emit_token(st, env, tok).1) == before.chars() + flat(spec_into_doc(spec_emit_expr(st, env, expr).1)),
            InlinePulseToken::TypeAntiquot { before, ty } => flat(spec_emit_token(st, env, tok).1) == before.chars() + type_text(st, env, ty),
            InlinePulseToken::FieldAntiquot { before, ty, field_name } => flat(spec_emit_token(st, env, tok).1) == before.chars() + (match spec_vtype_whnf(env, ty).val {
                TypeT::TypeRef(TypeRefKind::Struct(s)) => written_name(st, Name::StructDirectFieldName(s.val, field_name.val)),
                TypeT::TypeRef(TypeRefKind::Union(u)) => written_name(st, Name::UnionFieldConstructor(u.val, field_name.val)),
                _ => "(* $field: not a struct or union type *)"@,
            }),
            InlinePulseToken::Declare { ident: _, ty: _ } => flat(spec_emit_token(st, env, tok).1) == Seq::<char>::empty(),
            _ => true,
        },
{
    reveal(spec_emit_field_token);
    let d = spec_emit_token(st, env, tok);
}

/// A place that is quoted is written without being read.
pub proof fn law_quoted_places(d: Doc)
    ensures
        spec_into_doc(ExprKind::LValue(d)) == d,
        spec_into_doc(ExprKind::ArrayLValue(d)) == d,
        spec_into_doc(ExprKind::RValue(d)) == d,
{
    reveal(spec_into_doc);
}

/// A helper that inline code asks for by a keyword is the one of that name, of the struct or of the union's
/// arm.
pub proof fn law_helpers(st: Emitter, env: Env, tok: Rc<InlinePulseToken>, before: Text, ty: Rc<Type>, arm: Option<Rc<Ident>>, kind: AuxFnKind, n: Rc<Ident>)
    requires
        *tok == (InlinePulseToken::AuxFnAntiquot { before, ty, arm, kind }),
    ensures
        spec_vtype_whnf(env, ty).val == TypeT::TypeRef(TypeRefKind::Struct(n)) && arm is None && !(kind is Activate) ==> flat(spec_emit_token(st, env, tok).1) == before.chars()
            + written_name(
            st,
            Name::StructAuxFn(
                n.val,
                match kind {
                    AuxFnKind::Unfolded => "raw_unfolded",
                    AuxFnKind::Unfold => "raw_unfold",
                    AuxFnKind::Fold => "raw_fold",
                    AuxFnKind::UnfoldUninit => "raw_unfold_uninit",
                    _ => "raw_fold_uninit",
                },
            ),
        ),
        spec_vtype_whnf(env, ty).val == TypeT::TypeRef(TypeRefKind::Union(n)) && kind is Activate ==> (arm matches Some(f) ==> flat(spec_emit_token(st, env, tok).1)
            == before.chars() + written_name(st, Name::UnionActivateFn(n.val, f.val))),
        spec_vtype_whnf(env, ty).val == TypeT::TypeRef(TypeRefKind::Union(n)) && (kind is Unfolded || kind is Unfold || kind is Fold) ==> (arm matches Some(f) ==> flat(
            spec_emit_token(st, env, tok).1,
        ) == before.chars() + written_name(
            st,
            Name::UnionAuxFn(
                n.val,
                match kind {
                    AuxFnKind::Unfolded => "raw_unfolded",
                    AuxFnKind::Unfold => "raw_unfold",
                    _ => "raw_fold",
                },
                f.val,
            ),
        )),
{
    reveal(spec_emit_aux_token);
    reveal(spec_emit_struct_aux_token);
    reveal(spec_emit_union_aux_token);
    reveal(spec_struct_aux_name);
    reveal(spec_union_aux_name);
    let d = spec_emit_token(st, env, tok);
}

/// The text of a declaration.
pub open spec fn decl_body(st: Emitter, env: Env, d: Rc<Decl>) -> Seq<char> {
    flat(spec_emit_decl(st, env, d).1)
}

/// A module holds the text of its declaration, written where it is the current one. A function that is
/// defined and not pure also has an interface, which is its signature without a measure.
pub proof fn law_modules_hold_their_declaration(st: Emitter, env: Env, d: Rc<Decl>)
    ensures
        ({
            let st0 = (Emitter { current_module: spec_module_text(d), ..st });
            let (st1, body) = spec_emit_decl(st0, env, d);
            let m = spec_emit_module(st, env, d).1;
            &&& m.mod_name == spec_module_text(d)
            &&& flat(m.body) == flat(body)
            &&& m.decl_name == spec_decl_text(d)
            &&& m.decl_range == d.loc.location.range
            &&& m.source_file == d.loc.location.file_name
            &&& match d.val {
                DeclT::FnDefn(f) if !f.decl.is_pure => m.fsti matches Some(i) && flat(i) == flat(spec_emit_fn_sig_inner(st1, env, f.decl, true).1),
                _ => m.fsti is None,
            }
        }),
{
    reveal(spec_emit_module);
    reveal(spec_interface_fn);
}

/// A declaration is emitted as what it declares.
pub proof fn law_declarations_by_kind(st: Emitter, env: Env, d: Rc<Decl>)
    ensures
        decl_body(st, env, d) == (match d.val {
            DeclT::FnDefn(f) => flat(spec_emit_fn_defn(st, env, f).1),
            DeclT::FnDecl(f) => flat(spec_emit_fn_decl(st, env, f).1),
            DeclT::Typedef(t) => flat(spec_emit_typedef(st, env, t).1),
            DeclT::StructDefn(s) => flat(spec_emit_structdefn(st, env, s).1),
            DeclT::StructDecl(n) => flat(spec_emit_struct_decl(st, n).1),
            DeclT::UnionDefn(u) => flat(spec_emit_uniondefn(st, env, u).1),
            DeclT::IncludeDecl(i) => each_behind(Seq::empty(), spec_emit_tokens(st, env, i.code.tokens).1),
            DeclT::LetDecl(l) => flat(spec_emit_let_decl(st, env, l).1),
            DeclT::OpaqueTypeDecl(o) => flat(spec_emit_opaque_type(st, env, o).1),
            DeclT::GlobalVar(g) => flat(spec_emit_global_var(st, env, g).1),
        }),
{
    reveal(spec_emit_decl);
}

/// A module starts by its name and opens the library.
pub proof fn law_preambles(name: Text)
    ensures
        spec_preamble(name).chars() == "module "@ + name.chars() + "\nopen Pulse\nopen Pulse.Lib.C\n#lang-pulse\n\n"@,
{
    reveal(spec_preamble);
}

/// A wrapper states the contract of its function over one tuple of arguments and one witness, calls the
/// function with the components of the tuple, and has the same statement as its interface.
pub proof fn law_wrappers(st: Emitter, env: Env, decl: Rc<FnDecl>)
    ensures
        ({
            let c = spec_emit_fnptr_spec_core(st, env, decl).1;
            let m = spec_emit_fnptr_triple(st, env, decl).1;
            let sig = (if decl.is_total { "fn "@ } else { "divergent fn "@ }) + flat(c.wrap_name) + " (x_fp: "@ + flat(c.domain) + ") (y_fp: erased "@ + flat(c.witness_domain)
                + ")"@ + "\n"@ + "  requires "@ + flat(c.pre_expr) + "\n"@ + "  returns "@ + flat(c.ret_name) + " : "@ + flat(c.ret_ty) + "\n"@ + "  ensures "@ + flat(c.post_expr);
            let call = flat(c.callee) + " "@ + (match *c.projs {
                List::Nil => "()"@,
                _ => separated(" "@, c.projs),
            });
            &&& flat(m.fsti) == "\n"@ + "\n"@ + sig
            &&& flat(m.fst) == "\n"@ + "\n"@ + sig + "\n"@ + "{"@ + "\n"@ + "  "@ + flat(c.witness_rewrite) + call + "\n"@ + "}"@
        }),
{
    reveal(spec_emit_fnptr_triple);
    reveal_strlit(" ()");
    reveal_strlit(" ");
    reveal_strlit("()");
    assert(" ()"@ =~= " "@ + "()"@);
}

/// What a parameter contributes to a wrapper's contract: regular and consumed ones a group of propositions
/// with ghost values, regular ones the same after the call; constant ones what is kept; outputs a group
/// without contents before, and full ownership after.
pub proof fn law_wrapper_parameters(st: Emitter, env: Env, p: CoreParts, arg: Rc<FnArg>, n: Rc<Ident>)
    ensures
        ({
            let r = spec_core_arg(st, env, p, arg, n).1;
            let full = spec_full_ownership(st, env, arg.ty, n).1;
            &&& arg.mode is Regular ==> texts(r.post) == texts(p.post) + ownership(full) && r.kept == p.kept && groups_of(r.groups) == groups_of(p.groups) + group_of(full)
            &&& arg.mode is Consumed ==> r.post == p.post && r.kept == p.kept && groups_of(r.groups) == groups_of(p.groups) + group_of(full)
            &&& arg.mode is Const ==> r.post == p.post && r.groups == p.groups && texts(r.kept) == texts(p.kept) + texts(spec_shared_ownership(st, env, arg.ty, n).1.props)
            &&& arg.mode is Out ==> ({
                let (st1, empty) = spec_uninit_ownership(st, env, arg.ty, n);
                let last = spec_full_ownership(st1, env, arg.ty, n).1;
                texts(r.post) == texts(p.post) + ownership(last) && r.kept == p.kept && groups_of(r.groups) == groups_of(p.groups) + group_of(empty)
            })
        }),
{
    reveal(spec_core_arg);
    let ty = arg_type(arg);
    let full = spec_full_ownership(st, env, ty, n).1;
    let (st1, empty) = spec_uninit_ownership(st, env, ty, n);
    let last = spec_full_ownership(st1, env, ty, n).1;
    lemma_texts_push(p.post, spec_wrap_exists(full.naming.bindings, full.props));
    lemma_texts_push(p.post, spec_wrap_exists(last.naming.bindings, last.props));
    lemma_texts_append(p.kept, spec_shared_ownership(st, env, ty, n).1.props);
    lemma_groups_push(p.groups, full);
    lemma_groups_push(p.groups, empty);
    assert(texts(p.post) + Seq::<Seq<char>>::empty() =~= texts(p.post));
    assert(groups_of(p.groups) + Seq::<(Rc<List<ExBinding>>, Rc<List<DocT>>)>::empty() =~= groups_of(p.groups));
}

/// Groups of propositions with their ghost values.
pub open spec fn groups_of(l: Rc<List<WitnessGroup>>) -> Seq<(Rc<List<ExBinding>>, Rc<List<DocT>>)>
    decreases l,
{
    match *l {
        List::Nil => Seq::empty(),
        List::Cons(h, t) => seq![(h.bindings, h.props)] + groups_of(t),
    }
}

/// The group of ownership, if there is anything to own.
pub open spec fn group_of(o: Owned) -> Seq<(Rc<List<ExBinding>>, Rc<List<DocT>>)> {
    match *o.props {
        List::Nil => Seq::empty(),
        _ => seq![(o.naming.bindings, o.props)],
    }
}

/// One more group.
proof fn lemma_groups_push(l: Rc<List<WitnessGroup>>, o: Owned)
    ensures
        groups_of(spec_list_push(l, Rc::new(WitnessGroup { bindings: o.naming.bindings, props: o.props }))) == groups_of(l) + seq![(o.naming.bindings, o.props)],
    decreases l,
{
    reveal_with_fuel(groups_of, 3);
    match *l {
        List::Nil => {
            assert(groups_of(spec_list_push(l, Rc::new(WitnessGroup { bindings: o.naming.bindings, props: o.props }))) =~= groups_of(l) + seq![(o.naming.bindings, o.props)]);
        },
        List::Cons(h, t) => {
            lemma_groups_push(t, o);
            assert(groups_of(spec_list_push(l, Rc::new(WitnessGroup { bindings: o.naming.bindings, props: o.props }))) =~= groups_of(l) + seq![(o.naming.bindings, o.props)]);
        },
    }
}

/// The name of a field.
pub open spec fn field_text(f: Rc<Field>) -> Text {
    spec_field_name(f).val
}

/// The type of a field in the record: that of the field, with the bound of its width where it is an unsigned
/// bit-field.
pub proof fn law_field_types(st: Emitter, env: Env, f: Rc<Field>)
    ensures
        flat(spec_emit_field_record_type(st, env, f).1) == (match f.val {
            FieldT::Plain { name: _, ty } => type_text(st, env, ty),
            FieldT::BitField { name: _, ty, width } => match spec_vtype_whnf(env, ty).val {
                TypeT::Int { signed: false, width: w } => match int_module(false, w) {
                    Some(m) => "("@ + "v:"@ + " "@ + type_text(st, env, ty) + " "@ + "{"@ + m + ".v v < pow2 "@ + nat_chars(width as nat) + "}"@ + ")"@,
                    None => type_text(st, env, ty),
                },
                _ => type_text(st, env, ty),
            },
        }),
{
    reveal(spec_emit_field_record_type);
    reveal(spec_emit_bitfield_value_type);
    reveal(spec_unsigned_width);
    match f.val {
        FieldT::BitField { name: _, ty, width: _ } => match spec_vtype_whnf(env, ty).val {
            TypeT::Int { signed, width: w } => law_modules_follow_widths(false, w),
            _ => {},
        },
        _ => {},
    }
}

/// The record of a struct has a line for each field, in order: its name and its type.
pub proof fn law_record_lines(st: Emitter, env: Env, s: Text, f: Rc<Field>, t: Rc<List<Field>>)
    ensures
        ({
            let (st1, name) = spec_emit_name(st, Name::StructDirectFieldName(s, field_text(f)));
            let (st2, ty) = spec_emit_field_record_type(st1, env, f);
            let rest = spec_emit_record_lines(st2, env, s, t);
            let all = spec_emit_record_lines(st, env, s, Rc::new(List::Cons(f, t)));
            &&& all.0 == rest.0
            &&& texts(all.1) == seq!["\n"@ + flat(name) + ":"@ + " "@ + flat(ty) + ";"@] + texts(rest.1)
            &&& spec_emit_record_lines(st, env, s, Rc::new(List::Nil)).1.items().len() == 0
        }),
{
    reveal(spec_record_field_line);
    let l: Rc<List<Field>> = Rc::new(List::Cons(f, t));
    let all = spec_emit_record_lines(st, env, s, l);
}

/// The zero value of a struct has an entry for each field, in order: its name and its zero value.
pub proof fn law_zero_entries(st: Emitter, env: Env, s: Text, f: Rc<Field>, t: Rc<List<Field>>)
    ensures
        ({
            let (st1, name) = spec_emit_name(st, Name::StructDirectFieldName(s, field_text(f)));
            let (st2, v) = spec_emit_field_default(st1, env, f);
            let rest = spec_emit_default_entries(st2, env, s, t);
            let all = spec_emit_default_entries(st, env, s, Rc::new(List::Cons(f, t)));
            &&& all.0 == rest.0
            &&& texts(all.1) == seq![" "@ + flat(name) + " ="@ + " "@ + flat(v) + ";"@] + texts(rest.1)
            &&& spec_emit_default_entries(st, env, s, Rc::new(List::Nil)).1.items().len() == 0
        }),
{
    let l: Rc<List<Field>> = Rc::new(List::Cons(f, t));
    let all = spec_emit_default_entries(st, env, s, l);
}

/// The zero value of a field is that of its type.
pub proof fn law_zero_fields(st: Emitter, env: Env, f: Rc<Field>)
    ensures
        flat(spec_emit_field_default(st, env, f).1) == (match f.val {
            FieldT::Plain { name: _, ty } => zero_text(st, env, ty),
            FieldT::BitField { name: _, ty, width: _ } => zero_text(st, env, spec_vtype_whnf(env, ty)),
        }),
{
    reveal(spec_emit_field_default);
}

/// An assumed value with one parameter.
pub open spec fn assumed_text(name: Seq<char>, param: Seq<char>, ty: Seq<char>) -> Seq<char> {
    "assume val"@ + " "@ + name + " "@ + param + " "@ + ":"@ + " "@ + ty
}

/// The text of an assumed value with one parameter.
proof fn lemma_assumed(name: Doc, param: Doc, ty: Doc)
    ensures
        flat(spec_mk_assume_val(spec_nil(), name, spec_l1(param), ty)) == assumed_text(flat(name), flat(param), flat(ty)),
{
    reveal(spec_mk_attrs);
}

/// A parameter by its name, with a colon, and its type.
proof fn lemma_typed(name: &'static str, ty: Doc)
    ensures
        flat(spec_typed(name, ty)) == "("@ + name@ + " "@ + flat(ty) + ")"@,
{
    reveal(spec_typed);
}

/// Every field of a struct has a ghost projection from the struct's address to the field's.
pub proof fn law_projections(st: Emitter, env: Env, r: RecordNames, f: Rc<Field>, t: Rc<List<Field>>)
    ensures
        ({
            let (st1, ty) = spec_emit_field_projection_type(st, env, f);
            let (st2, name) = spec_emit_name(st1, Name::StructGhostFieldProj(r.name, field_text(f)));
            let rest = spec_emit_struct_projs(st2, env, r, t);
            let all = spec_emit_struct_projs(st, env, r, Rc::new(List::Cons(f, t)));
            &&& all.0 == rest.0
            &&& texts(all.1) == seq![assumed_text(flat(name), "("@ + "x:"@ + " "@ + flat(r.ref_ty) + ")"@, "GTot"@ + " "@ + flat(ty))] + texts(rest.1)
        }),
{
    let l: Rc<List<Field>> = Rc::new(List::Cons(f, t));
    let all = spec_emit_struct_projs(st, env, r, l);
    let (st1, ty) = spec_emit_field_projection_type(st, env, f);
    let (st2, name) = spec_emit_name(st1, Name::StructGhostFieldProj(r.name, field_text(f)));
    lemma_typed("x:", r.ref_ty);
    lemma_assumed(name, spec_typed("x:", r.ref_ty), spec_group(spec_d3(spec_txt("GTot"), spec_line(), ty)));
}

/// The address of a field is a handle where the field is an array stored in place, with its length where that is
/// known, and a reference to the field's type otherwise.
pub proof fn law_addresses_of_fields(st: Emitter, env: Env, f: Rc<Field>)
    ensures
        flat(spec_emit_field_projection_type(st, env, f).1) == (match spec_field_flex_info(f) {
            Some(flex) => "("@ + "array"@ + " "@ + type_text(st, env, flex.elem) + ")"@,
            None => match spec_field_fixed_info(f) {
                Some(fixed) => "("@ + "a:"@ + " "@ + "("@ + "array"@ + " "@ + type_text(st, env, fixed.elem) + ")"@ + " "@ + "{ length a == "@ + nat_chars(fixed.len as nat) + " }"@ + ")"@,
                None => "("@ + "ref"@ + " "@ + flat(spec_emit_field_record_type(st, env, f).1) + ")"@,
            },
        }),
{
    reveal(spec_emit_field_projection_type);
}

/// What a struct's field is tied to: the field of the record value, or a value by the field's name.
pub open spec fn tied_text(st: Emitter, s: Text, f: Rc<Field>, value: FieldValue) -> Seq<char> {
    match value {
        FieldValue::Record => "vx."@ + written_name(st, Name::StructDirectFieldName(s, field_text(f))),
        FieldValue::Args => "v_"@ + field_text(f).chars(),
        FieldValue::Uninit => Seq::empty(),
    }
}

/// A struct's memory is that of its fields, one for each, in order: an array stored in place, or one object; with its
/// value, or not initialized.
pub proof fn law_memory_of_fields(st: Emitter, s: Text, f: Rc<Field>, t: Rc<List<Field>>, value: FieldValue)
    ensures
        ({
            let (st1, proj) = spec_emit_name(st, Name::StructGhostFieldProj(s, field_text(f)));
            let p = "("@ + flat(proj) + " "@ + "x"@ + ")"@;
            let v = tied_text(st1, s, f, value);
            let (st2, _) = spec_emit_field_value(st1, s, spec_field_name(f), value);
            let rest = spec_emit_fields_pts_to(st2, s, t, value);
            let all = spec_emit_fields_pts_to(st, s, Rc::new(List::Cons(f, t)), value);
            let d = if value == FieldValue::Uninit {
                if spec_field_is_array(f) {
                    "("@ + "array_pts_to_uninit'"@ + " "@ + p + ")"@
                } else {
                    "("@ + "Pulse.Lib.Reference.pts_to_uninit"@ + " "@ + p + ")"@
                }
            } else {
                if spec_field_is_array(f) {
                    "("@ + "array_pts_to"@ + " "@ + p + " "@ + "p"@ + " "@ + v + ")"@
                } else {
                    "("@ + "Pulse.Lib.Reference.pts_to"@ + " "@ + p + " "@ + "#p"@ + " "@ + v + ")"@
                }
            };
            &&& all.0 == rest.0
            &&& texts(all.1) == seq![d] + texts(rest.1)
            &&& spec_emit_fields_pts_to(st, s, Rc::new(List::Nil), value).1.items().len() == 0
        }),
{
    reveal(spec_struct_proj);
    reveal(spec_emit_field_value);
    reveal(spec_fold_arg);
    let l: Rc<List<Field>> = Rc::new(List::Cons(f, t));
    let all = spec_emit_fields_pts_to(st, s, l, value);
}

/// The way back from a field's address to the struct's is the inverse of the projection, from either side.
pub proof fn law_ways_back(st: Emitter, env: Env, r: RecordNames, f: Rc<Field>)
    ensures
        ({
            let n = field_text(f);
            let (st1, ty) = spec_emit_field_projection_type(st, env, f);
            let (st2, container) = spec_emit_name(st1, Name::StructContainerFn(r.name, n));
            let (st3, proj) = spec_emit_name(st2, Name::StructGhostFieldProj(r.name, n));
            let (st4, inv_name) = spec_emit_name(st3, Name::StructContainerInv(r.name, n));
            let (st5, dual_ty) = spec_emit_field_projection_type(st4, env, f);
            let (st6, dual_name) = spec_emit_name(st5, Name::StructProjContainerInv(r.name, n));
            let there = "("@ + flat(container) + " "@ + "("@ + flat(proj) + " "@ + "p"@ + ")"@ + ")"@;
            let back = "("@ + flat(proj) + " "@ + "("@ + flat(container) + " "@ + "r"@ + ")"@ + ")"@;
            texts(spec_emit_container(st, env, r, f).1) == seq![
                assumed_text(flat(container), "("@ + "r:"@ + " "@ + flat(ty) + ")"@, flat(r.ref_ty)),
                assumed_text(
                    flat(inv_name),
                    "("@ + "p:"@ + " "@ + flat(r.ref_ty) + ")"@,
                    "Lemma"@ + " "@ + "("@ + "ensures"@ + " "@ + there + " == p"@ + ")"@ + " "@ + "[SMTPat "@ + there + "]"@,
                ),
                assumed_text(
                    flat(dual_name),
                    "("@ + "r:"@ + " "@ + flat(dual_ty) + ")"@,
                    "Lemma"@ + " "@ + "("@ + "ensures"@ + " "@ + back + " == r"@ + ")"@ + " "@ + "[SMTPat "@ + back + "]"@,
                ),
            ]
        }),
{
    reveal(spec_emit_container);
    let n = field_text(f);
    let (st1, ty) = spec_emit_field_projection_type(st, env, f);
    let (st2, container) = spec_emit_name(st1, Name::StructContainerFn(r.name, n));
    let (st3, proj) = spec_emit_name(st2, Name::StructGhostFieldProj(r.name, n));
    let (st4, inv_name) = spec_emit_name(st3, Name::StructContainerInv(r.name, n));
    let (st5, dual_ty) = spec_emit_field_projection_type(st4, env, f);
    let (st6, dual_name) = spec_emit_name(st5, Name::StructProjContainerInv(r.name, n));
    let there = spec_unaryfn(container, spec_unaryfn(proj, spec_txt("p")));
    let back = spec_unaryfn(proj, spec_unaryfn(container, spec_txt("r")));
    lemma_typed("r:", ty);
    lemma_typed("p:", r.ref_ty);
    lemma_typed("r:", dual_ty);
    lemma_fact(there, " == p");
    lemma_fact(back, " == r");
    lemma_assumed(container, spec_typed("r:", ty), r.ref_ty);
    lemma_assumed(inv_name, spec_typed("p:", r.ref_ty), spec_lemma_type(spec_d2(there, spec_txt(" == p")), there));
    lemma_assumed(dual_name, spec_typed("r:", dual_ty), spec_lemma_type(spec_d2(back, spec_txt(" == r")), back));
    lemma_three(
        spec_mk_assume_val(spec_nil(), container, spec_l1(spec_typed("r:", ty)), r.ref_ty),
        spec_mk_assume_val(spec_nil(), inv_name, spec_l1(spec_typed("p:", r.ref_ty)), spec_lemma_type(spec_d2(there, spec_txt(" == p")), there)),
        spec_mk_assume_val(spec_nil(), dual_name, spec_l1(spec_typed("r:", dual_ty)), spec_lemma_type(spec_d2(back, spec_txt(" == r")), back)),
    );
}

/// A lemma that a term has a value, found by the term.
proof fn lemma_fact(round: Doc, says: &'static str)
    ensures
        flat(spec_lemma_type(spec_d2(round, spec_txt(says)), round)) == "Lemma"@ + " "@ + "("@ + "ensures"@ + " "@ + flat(round) + says@ + ")"@ + " "@ + "[SMTPat "@ + flat(round) + "]"@,
{
    reveal(spec_lemma_type);
}

/// The texts of three documents.
proof fn lemma_three(a: Doc, b: Doc, c: Doc)
    ensures
        texts(spec_l3(a, b, c)) == seq![flat(a), flat(b), flat(c)],
{
    reveal_with_fuel(texts, 4);
    assert(texts(spec_l3(a, b, c)) =~= seq![flat(a), flat(b), flat(c)]);
}

/// What an allocation with a flexible tail gives for each field: the tail with its length, zeroed or not, and every
/// other field without a value.
pub proof fn law_allocated_fields(st: Emitter, env: Env, s: Text, f: Rc<Field>, t: Rc<List<Field>>, zeroed: bool)
    ensures
        ({
            let all = spec_emit_flex_posts(st, env, s, Rc::new(List::Cons(f, t)), zeroed);
            match spec_field_flex_info(f) {
                Some(flex) => {
                    let (st1, elem) = spec_emit_type(st, env, flex.elem);
                    let (st2, proj) = spec_emit_name(st1, Name::StructGhostFieldProj(s, field_text(f)));
                    let n = "("@ + "FStar.SizeT.v n"@ + ")"@;
                    let contents = if zeroed {
                        "("@ + "array_spec_zeroed"@ + " "@ + flat(elem) + " "@ + n + " "@ + "zero_default"@ + ")"@
                    } else {
                        "("@ + "array_spec_uninit"@ + " "@ + flat(elem) + " "@ + n + ")"@
                    };
                    let rest = spec_emit_flex_posts(st2, env, s, t, zeroed);
                    texts(all.1) == seq!["("@ + "array_pts_to"@ + " "@ + "("@ + flat(proj) + " "@ + "r"@ + ")"@ + " "@ + "1.0R"@ + " "@ + contents + ")"@] + texts(rest.1)
                },
                None => {
                    let (st1, proj) = spec_emit_name(st, Name::StructGhostFieldProj(s, field_text(f)));
                    let rest = spec_emit_flex_posts(st1, env, s, t, zeroed);
                    texts(all.1) == seq![
                        "("@ + (if spec_field_is_array(f) { "array_pts_to_uninit'"@ } else { "Pulse.Lib.Reference.pts_to_uninit"@ }) + " "@ + "("@ + flat(proj) + " "@ + "r"@ + ")"@
                            + ")"@,
                    ] + texts(rest.1)
                },
            }
        }),
{
    reveal(spec_struct_proj);
    let l: Rc<List<Field>> = Rc::new(List::Cons(f, t));
    let all = spec_emit_flex_posts(st, env, s, l, zeroed);
}

/// The constructors of a union, one for each arm, in order: each takes the type of its arm.
pub proof fn law_constructors(st: Emitter, env: Env, r: RecordNames, f: Rc<Field>, t: Rc<List<Field>>)
    ensures
        ({
            let (st1, ctor) = spec_emit_name(st, Name::UnionFieldConstructor(r.name, field_text(f)));
            let (st2, ty) = spec_emit_field_record_type(st1, env, f);
            let rest = spec_emit_union_arms(st2, env, r, t);
            let all = spec_emit_union_arms(st, env, r, Rc::new(List::Cons(f, t)));
            &&& all.0 == rest.0
            &&& texts(all.1) == seq!["\n"@ + "| "@ + flat(ctor) + " :"@ + " "@ + flat(ty) + " ->"@ + " "@ + flat(r.ty)] + texts(rest.1)
            &&& spec_emit_union_arms(st, env, r, Rc::new(List::Nil)).1.items().len() == 0
        }),
{
    let l: Rc<List<Field>> = Rc::new(List::Cons(f, t));
    let all = spec_emit_union_arms(st, env, r, l);
}

/// The predicate of a typedef is that of its body, over the value and the permission or over the value alone.
pub proof fn law_typedef_predicates(st: Emitter, env: Env, k: TypeRefKind, body: Rc<Type>, is_init: bool, this_arg: Doc, this: Rc<Ident>)
    ensures
        ({
            let name = if is_init {
                Name::TypeRefPred(spec_type_ref(k))
            } else {
                Name::TypeRefUninitPred(spec_type_ref(k))
            };
            let (st1, pred) = spec_emit_name(st, name);
            let variant = if is_init {
                SLPropVariant::Init { perm: spec_txt("p") }
            } else {
                SLPropVariant::Uninit
            };
            let (st2, o) = spec_emit_type_slprop(st1, env, body, variant, spec_owned_standard(false), spec_mk_rvar(this));
            spec_emit_typedef_pred(st, env, k, body, is_init, this_arg, this) == spec_finish_pred_decl(st2, k, is_init, pred, this_arg, o)
        }),
{
    reveal(spec_emit_typedef_pred);
}

/// A predicate is over its value, the permission where memory is initialized, and its ghost values; it is the
/// conjunction of its propositions. The types of its ghost values are remembered for its uses.
pub proof fn law_predicates(st: Emitter, k: TypeRefKind, is_init: bool, pred: Doc, arg: Doc, o: Owned)
    ensures
        ({
            let (st1, d) = spec_finish_pred_decl(st, k, is_init, pred, arg, o);
            let binders = spec_binder_args(o.naming.bindings);
            &&& d == spec_mk_eager_unfold_slprop(
                pred,
                (if is_init {
                    spec_cons(arg, spec_cons(spec_parens(spec_txt("p: perm")), binders))
                } else {
                    spec_cons(arg, binders)
                }),
                spec_mk_star(o.props),
            )
            &&& is_init ==> st1.type_uninit_val_params == st.type_uninit_val_params && spec_find_val_params(st1.type_val_params, spec_type_ref(k)) == spec_binding_types(o.naming.bindings)
            &&& !is_init ==> st1.type_val_params == st.type_val_params && spec_find_val_params(st1.type_uninit_val_params, spec_type_ref(k)) == spec_binding_types(
                o.naming.bindings,
            )
        }),
{
    reveal(spec_finish_pred_decl);
    reveal(spec_same_type_ref);
    reveal(spec_type_ref);
}

/// A typedef is the type that it stands for, with its two predicates and its zero value.
pub proof fn law_typedefs(st: Emitter, env: Env, d: Rc<TypeDefn>)
    ensures
        ({
            let env1 = spec_push_typedef(env, d);
            let k = TypeRefKind::Typedef(d.name);
            let (st1, t) = spec_emit_name(st, Name::TypeRef(spec_type_ref(k)));
            let (st2, body) = spec_emit_type(st1, env1, d.body);
            let env2 = spec_push_this(env1, spec_mk_type_ref(d.name.loc, k));
            let this = spec_mk_ident(d.name.loc, spec_lit("this"));
            let (st3, x) = spec_emit_var_name(st2, this.val);
            let arg = spec_parens(spec_d5(spec_txt("[@@@mkey] "), x, spec_txt(":"), spec_line(), t));
            let (st4, pred) = spec_emit_typedef_pred(st3, env2, k, d.body, true, arg, this);
            let (st5, uninit) = spec_emit_typedef_pred(st4, env2, k, d.body, false, arg, this);
            let (st6, instance) = spec_emit_name(st5, Name::TypeRefDefault(spec_type_ref(k)));
            let (st7, named) = spec_emit_name(st6, Name::TypeRef(spec_type_ref(k)));
            flat(spec_emit_typedef(st, env, d).1) == "unfold"@ + " "@ + "let"@ + " "@ + flat(t) + " "@ + ":"@ + " "@ + "Type"@ + " "@ + "="@ + " "@ + flat(body) + " "@ + flat(pred) + " "@
                + flat(uninit) + " "@ + "instance"@ + " "@ + flat(instance) + " "@ + ":"@ + " "@ + "("@ + "has_zero_default"@ + " "@ + flat(named) + ")"@ + " "@ + "="@ + " "@ + "{"@ + " "@
                + "zero_default ="@ + " "@ + zero_text(st7, env2, d.body) + " "@ + "}"@
        }),
{
    reveal(spec_emit_typedef);
    reveal(spec_mk_let);
    reveal(spec_mk_instance);
    reveal(spec_zero_instance);
    reveal(spec_zero_body);
}

/// A struct that is only declared is assumed: its type, its two predicates and its zero value.
pub proof fn law_declared_structs(st: Emitter, name: Rc<Ident>)
    ensures
        ({
            let k = spec_type_ref(TypeRefKind::Struct(name));
            let (st1, ty) = spec_emit_name(st, Name::TypeRef(k));
            let (st2, pred) = spec_emit_name(st1, Name::TypeRefPred(k));
            let (st3, uninit) = spec_emit_name(st2, Name::TypeRefUninitPred(k));
            let (st4, instance) = spec_emit_name(st3, Name::TypeRefDefault(k));
            let zero = spec_emit_name(st4, Name::StructAuxFn(name.val, "zero_default")).1;
            flat(spec_emit_struct_decl(st, name).1) == "assume val"@ + " "@ + flat(ty) + " "@ + ": Type0"@ + "\n"@ + "assume val"@ + " "@ + flat(pred) + " "@ + ":"@ + " "@ + flat(ty) + " "@
                + "->"@ + " "@ + "perm"@ + " "@ + "->"@ + " "@ + "slprop"@ + "\n"@ + "assume val"@ + " "@ + flat(uninit) + " "@ + ":"@ + " "@ + flat(ty) + " "@ + "->"@ + " "@ + "slprop"@
                + "\n"@ + "assume val"@ + " "@ + flat(zero) + " "@ + ":"@ + " "@ + flat(ty) + "\n"@ + "instance"@ + " "@ + flat(instance) + " "@ + ":"@ + " "@ + "("@
                + "has_zero_default"@ + " "@ + flat(ty) + ")"@ + " "@ + "="@ + " "@ + "{ zero_default = "@ + flat(zero) + " }"@
        }),
{
    reveal(spec_emit_struct_decl);
    reveal(spec_assumed);
    reveal(spec_zero_instance);
    reveal(spec_mk_instance);
}

/// The function that gives a field's address at run time needs the struct taken apart, and gives what the projection
/// gives.
pub proof fn law_getters(st: Emitter, name: Doc, ref_ty: Doc, ret: Doc, unfolded: Doc, proj: Doc)
    ensures
        flat(spec_getter(st, name, ref_ty, ret, unfolded, proj).1) == flat(spec_mk_attrs(spec_l1(spec_txt("pulse_impure_spec_no_proof_required")))) + "assume val"@ + " "@ + flat(name) + " "@
            + "("@ + "x:"@ + " "@ + flat(ref_ty) + ")"@ + " "@ + "("@ + "#p: perm"@ + ")"@ + " "@ + ":"@ + " "@ + "("@ + "stt_atomic"@ + " "@ + flat(ret) + " "@
            + "#PulseCore.Observability.Neutral"@ + " "@ + "emp_inames"@ + " "@ + flat(unfolded) + " "@ + "("@ + "fun"@ + " "@ + "vx'"@ + " "@ + "->"@ + " "@ + "("@ + flat(unfolded) + " "@
            + "**"@ + " "@ + "("@ + "rewrites_to"@ + " "@ + "vx'"@ + " "@ + flat(proj) + ")"@ + ")"@ + ")"@ + ")"@,
{
    reveal(spec_getter);
    lemma_typed("x:", ref_ty);
    let fact = spec_naryfn(spec_l3(spec_txt("rewrites_to"), spec_txt("vx'"), proj));
    reveal_with_fuel(each_behind, 3);
    assert(starred(spec_l2(unfolded, fact)) == "("@ + flat(unfolded) + " "@ + "**"@ + " "@ + flat(fact) + ")"@);
}

/// Texts, each in parentheses.
pub open spec fn in_parens(s: Seq<Seq<char>>) -> Seq<Seq<char>>
    decreases s.len(),
{
    if s.len() == 0 {
        Seq::empty()
    } else {
        seq!["("@ + s[0] + ")"@] + in_parens(s.skip(1))
    }
}

/// The conjunction of truth values: `True` where there is none.
pub open spec fn conj_text(s: Seq<Seq<char>>) -> Seq<char> {
    if s.len() == 0 {
        "True"@
    } else {
        "("@ + between(" /\\ "@, in_parens(s)) + ")"@
    }
}

/// Documents, each in parentheses.
proof fn lemma_in_parens(l: Rc<List<DocT>>)
    ensures
        texts(spec_parens_all(l)) == in_parens(texts(l)),
    decreases l,
{
    match *l {
        List::Nil => {},
        List::Cons(h, t) => {
            lemma_in_parens(t);
            assert(texts(l).skip(1) =~= texts(t));
        },
    }
}

/// The text of a conjunction.
proof fn lemma_conj(l: Rc<List<DocT>>)
    ensures
        flat(spec_conj(l)) == conj_text(texts(l)),
{
    reveal(spec_conj);
    lemma_in_parens(l);
    law_separated_texts(" /\\ "@, spec_parens_all(l));
    match *l {
        List::Nil => {},
        List::Cons(h, t) => {},
    }
}

/// The conjunctions of groups of propositions, in order.
pub open spec fn star_texts(l: Rc<List<WitnessGroup>>) -> Seq<Seq<char>>
    decreases l,
{
    match *l {
        List::Nil => Seq::empty(),
        List::Cons(h, t) => seq![starred(h.props)] + star_texts(t),
    }
}

/// The conjunctions of groups.
proof fn lemma_stars(l: Rc<List<WitnessGroup>>)
    ensures
        texts(spec_group_stars(l)) == star_texts(l),
    decreases l,
{
    match *l {
        List::Nil => {},
        List::Cons(h, t) => lemma_stars(t),
    }
}

/// The clause that a truth value is, if there is one.
pub open spec fn pure_clause(s: Seq<Seq<char>>, t: Seq<char>) -> Seq<Seq<char>> {
    if s.len() == 0 {
        Seq::empty()
    } else {
        seq!["("@ + "pure"@ + " "@ + t + ")"@]
    }
}

/// The names that the parts of a wrapper's contract are in scope of, with the names in use.
pub open spec fn wrapper_scope(st: Emitter, env: Env, decl: Rc<FnDecl>) -> (Emitter, Env) {
    let (st1, a) = spec_core_arg_types(st, (Params { env, docs: Rc::new(List::Nil) }), decl.args);
    let (st2, g) = spec_core_ghosts(st1, (GhostParts { env: a.env, types: Rc::new(List::Nil), names: Rc::new(List::Nil) }), decl.ghost_args);
    (spec_core_arg_names(st2, 0, decl.args).0, g.env)
}

/// A wrapper's precondition is the ownership of the parameters, what is kept, the preconditions that are propositions,
/// and the conjunction of those that are truth values. Its postcondition is the ownership after the call, what is kept,
/// the ownership of the result, the postconditions that are propositions, and the conjunction of those that are truth
/// values, under the truth values of the precondition.
pub proof fn law_wrappers_state_the_contract(st: Emitter, env: Env, decl: Rc<FnDecl>)
    ensures
        ({
            let c = spec_emit_fnptr_spec_core(st, env, decl).1;
            let (st3, scope) = wrapper_scope(st, env, decl);
            let (st4, p) = spec_core_args(st3, scope, (CoreParts { post: Rc::new(List::Nil), kept: Rc::new(List::Nil), groups: Rc::new(List::Nil) }), 0, decl.args);
            let req = spec_clauses_that(decl.requires_, false);
            let req_truths = spec_clauses_that(decl.requires_, true);
            let st5 = after_clauses(st4, scope, req);
            let given = truth_texts(st5, scope, req_truths);
            let st6 = after_truths(st5, scope, req_truths);
            let env2 = spec_push_return(scope, decl.ret_type);
            let st7 = spec_emit_var_name(st6, spec_lit("return")).0;
            let st8 = spec_emit_type(st7, env2, decl.ret_type).0;
            let (st9, result) = spec_full_ownership(st8, env2, decl.ret_type, spec_mk_ident(decl.ret_type.loc, spec_lit("return")));
            let ens = spec_clauses_that(decl.ensures_, false);
            let ens_truths = spec_clauses_that(decl.ensures_, true);
            let st10 = after_clauses(st9, env2, ens);
            let shown = truth_texts(st10, env2, ens_truths);
            let implied = if given.len() == 0 {
                conj_text(shown)
            } else {
                "("@ + conj_text(given) + " ==> "@ + conj_text(shown) + ")"@
            };
            let pre = star_texts(p.groups) + texts(p.kept) + clause_texts(st4, scope, req) + pure_clause(given, conj_text(given));
            let post = texts(p.post) + texts(p.kept) + ownership(result) + clause_texts(st9, env2, ens) + pure_clause(shown, implied);
            &&& exists|head: Seq<char>, l: Rc<List<DocT>>| texts(l) == pre && flat(c.pre_expr) == head + #[trigger] starred(l) + ")"@ + ")"@ + ")"@ && #[trigger] is_head(head)
            &&& exists|head: Seq<char>, l: Rc<List<DocT>>| texts(l) == post && flat(c.post_expr) == head + #[trigger] starred(l) + ")"@ && #[trigger] is_head(head)
        }),
{
    reveal(spec_emit_fnptr_spec_core);
    reveal(spec_clone_env);
    reveal(spec_with_locals);
    reveal(spec_clone_opt_type);
    reveal(spec_mk_ident);
    let (st1, a) = spec_core_arg_types(st, Params { env, docs: Rc::new(List::Nil) }, fn_args(decl));
    let (st2, g) = spec_core_ghosts(st1, GhostParts { env: a.env, types: Rc::new(List::Nil), names: Rc::new(List::Nil) }, fn_ghost_args(decl));
    let (st3, names) = spec_core_arg_names(st2, 0, fn_args(decl));
    let (st4, p) = spec_core_args(st3, g.env, CoreParts { post: Rc::new(List::Nil), kept: Rc::new(List::Nil), groups: Rc::new(List::Nil) }, 0, fn_args(decl));
    let req = spec_clauses_that(fn_requires(decl), false);
    let req_truths = spec_clauses_that(fn_requires(decl), true);
    lemma_emitted(st4, g.env, req);
    let (st5, rs) = spec_emit_rvalues(st4, g.env, req);
    law_truths_in_order(st5, g.env, req_truths);
    let (st6, rt) = spec_emit_pure_props(st5, g.env, req_truths);
    let env2 = spec_push_return(g.env, fn_result(decl));
    let return_id = spec_mk_ident(type_loc(fn_result(decl)), spec_lit("return"));
    let (st7, ret_name) = spec_emit_var_name(st6, spec_lit("return"));
    let (st8, ret_ty) = spec_emit_type(st7, env2, fn_result(decl));
    let (st9, result) = spec_full_ownership(st8, env2, fn_result(decl), return_id);
    let ens = spec_clauses_that(fn_ensures(decl), false);
    let ens_truths = spec_clauses_that(fn_ensures(decl), true);
    lemma_emitted(st9, env2, ens);
    let (st10, es) = spec_emit_rvalues(st9, env2, ens);
    law_truths_in_order(st10, env2, ens_truths);
    let (st11, et) = spec_emit_pure_props(st10, env2, ens_truths);
    lemma_conj(rt);
    lemma_conj(et);
    lemma_stars(p.groups);
    let pre1 = spec_list_append(spec_group_stars(p.groups), p.kept);
    lemma_texts_append(spec_group_stars(p.groups), p.kept);
    let pre2 = spec_list_append(pre1, rs);
    lemma_texts_append(pre1, rs);
    let rp = spec_unaryfn(spec_txt("pure"), spec_conj(rt));
    lemma_texts_push(pre2, rp);
    lemma_is_empty(rt);
    lemma_is_empty(et);
    let pre = if texts(rt).len() == 0 {
        pre2
    } else {
        spec_list_push(pre2, rp)
    };
    assert(texts(pre2) + Seq::<Seq<char>>::empty() =~= texts(pre2));
    let post1 = spec_list_append(p.post, p.kept);
    lemma_texts_append(p.post, p.kept);
    let own = spec_wrap_exists(result.naming.bindings, result.props);
    lemma_texts_push(post1, own);
    assert(texts(post1) + Seq::<Seq<char>>::empty() =~= texts(post1));
    let post2 = if spec_list_is_empty(result.props) {
        post1
    } else {
        spec_list_push(post1, own)
    };
    let post3 = spec_list_append(post2, es);
    lemma_texts_append(post2, es);
    let implied = if texts(rt).len() == 0 {
        spec_conj(et)
    } else {
        spec_parens(spec_d3(spec_conj(rt), spec_txt(" ==> "), spec_conj(et)))
    };
    let ep = spec_unaryfn(spec_txt("pure"), implied);
    lemma_texts_push(post3, ep);
    assert(texts(post3) + Seq::<Seq<char>>::empty() =~= texts(post3));
    let post = if texts(et).len() == 0 {
        post3
    } else {
        spec_list_push(post3, ep)
    };
    let c = spec_emit_fnptr_spec_core(st, env, decl).1;
    let projs = spec_tuple_projs(0, names, spec_list_len(names));
    let prefix = spec_bind_prefix(spec_nil_doc(), names, projs);
    let elim = spec_group_names(p.groups);
    let witness = !spec_list_is_empty(elim) || !spec_list_is_empty(g.names);
    let pat = spec_parens(spec_d3(spec_nested_pair_pat(elim), spec_txt(", "), spec_nested_pair_pat(g.names)));
    let pre_prefix = if witness {
        spec_d4(spec_txt("let "), pat, spec_txt(" = reveal y_fp in"), spec_hardline())
    } else {
        spec_nil_doc()
    };
    let ghost_base = spec_parens(spec_d2(spec_txt("snd "), spec_parens(spec_txt("reveal y_fp"))));
    let post_prefix = spec_ghost_prefix(spec_nil_doc(), ghost_base, g.names, 0, spec_list_len(g.names));
    assert(c.pre_expr == spec_parens(spec_unaryfn(spec_txt("Pulse.Lib.C.FuncPtr.prevent_lifting"), spec_parens(spec_d3(prefix, pre_prefix, spec_mk_star(pre))))));
    assert(c.post_expr == spec_parens(spec_d3(prefix, post_prefix, spec_mk_star(post))));
    let head = "("@ + "("@ + "Pulse.Lib.C.FuncPtr.prevent_lifting"@ + " "@ + "("@ + flat(prefix) + flat(pre_prefix);
    assert(flat(c.pre_expr) == head + starred(pre) + ")"@ + ")"@ + ")"@);
    assert(is_head(head));
    let head2 = "("@ + flat(prefix) + flat(post_prefix);
    assert(flat(c.post_expr) == head2 + starred(post) + ")"@);
    assert(is_head(head2));
}

/// What stands in front of a conjunction.
pub open spec fn is_head(s: Seq<char>) -> bool {
    true
}

/// An empty list has no texts.
proof fn lemma_is_empty(l: Rc<List<DocT>>)
    ensures
        spec_list_is_empty(l) == (texts(l).len() == 0),
{
    match *l {
        List::Nil => {},
        List::Cons(h, t) => {},
    }
}
/// Whether two signatures have the same number of parameters, and parameters and results with the same
/// values.
pub open spec fn signatures_fit(env: Env, a: Rc<FnDecl>, b: Rc<FnDecl>) -> bool {
    &&& a.args.items().len() == b.args.items().len()
    &&& forall|i: int| 0 <= i < a.args.items().len() ==> spec_vtype_eq(env, (#[trigger] a.args.items()[i]).ty, b.args.items()[i].ty)
    &&& spec_vtype_eq(env, a.ret_type, b.ret_type)
}

/// Whether a function has a precondition or a postcondition.
pub open spec fn has_contract(f: Rc<FnDecl>) -> bool {
    f.requires_.items().len() > 0 || f.ensures_.items().len() > 0
}

/// The tops of two lists of parameters.
spec fn both_args(a: Rc<List<FnArg>>, b: Rc<List<FnArg>>) -> (List<FnArg>, List<FnArg>) {
    (*a, *b)
}

/// Parameters match one by one.
proof fn lemma_args_match(env: Env, a: Rc<List<FnArg>>, b: Rc<List<FnArg>>)
    ensures
        spec_arg_types_match(env, a, b) <==> a.items().len() == b.items().len() && forall|i: int|
            0 <= i < a.items().len() ==> spec_vtype_eq(env, (#[trigger] a.items()[i]).ty, b.items()[i].ty),
    decreases a,
{
    match both_args(a, b) {
        (List::Cons(x, s), List::Cons(y, t)) => {
            lemma_args_match(env, s, t);
            assert(a.items() =~= seq![x] + s.items());
            assert(b.items() =~= seq![y] + t.items());
            if spec_arg_types_match(env, a, b) {
                assert forall|i: int| 0 <= i < a.items().len() implies spec_vtype_eq(env, (#[trigger] a.items()[i]).ty, b.items()[i].ty) by {
                    if i > 0 {
                        assert(a.items()[i] == s.items()[i - 1]);
                        assert(b.items()[i] == t.items()[i - 1]);
                    }
                }
            }
            if a.items().len() == b.items().len() && forall|i: int| 0 <= i < a.items().len() ==> spec_vtype_eq(env, (#[trigger] a.items()[i]).ty, b.items()[i].ty) {
                assert(a.items()[0] == x);
                assert forall|i: int| 0 <= i < s.items().len() implies spec_vtype_eq(env, (#[trigger] s.items()[i]).ty, t.items()[i].ty) by {
                    assert(a.items()[i + 1] == s.items()[i]);
                    assert(b.items()[i + 1] == t.items()[i]);
                }
            }
        },
        _ => {},
    }
}

/// A function that is declared and defined becomes one thing exactly if its types fit and the definition
/// adds no contract of its own: it has none, or the same one as the declaration.
pub proof fn law_declaration_meets_definition(env: Env, a: Rc<FnDecl>, b: Rc<FnDecl>)
    ensures
        spec_match_fn(env, a, b) == (if !signatures_fit(env, a, b) {
            Match::Mistyped
        } else if !has_contract(b) {
            Match::Merged
        } else if !has_contract(a) {
            Match::SpecOnDefn
        } else if !spec_specs_agree(a, b) {
            Match::Differing
        } else {
            Match::Merged
        }),
{
    reveal(spec_match_fn);
    reveal(spec_types_match);
    lemma_args_match(env, fn_args(a), fn_args(b));
    lemma_has_specs(a);
    lemma_has_specs(b);
}

/// Whether there is a contract.
proof fn lemma_has_specs(f: Rc<FnDecl>)
    ensures
        spec_has_specs(f) == has_contract(f),
{
    reveal(spec_has_specs);
    lemma_empty(fn_requires(f));
    lemma_empty(fn_ensures(f));
}

/// An empty list has no items.
proof fn lemma_empty(l: Rc<List<Expr>>)
    ensures
        spec_list_is_empty(l) == (l.items().len() == 0),
{
    match *l {
        List::Nil => {},
        List::Cons(h, t) => {},
    }
}

/// A definition that meets its declaration keeps its name, result, body and attributes. Where only the
/// declaration has a contract, the definition gets that contract in terms of its own parameters, with
/// the declaration's ghost parameters if it lists none; otherwise it keeps its own.
pub proof fn law_definitions_get_the_contract(env: Env, a: Rc<FnDecl>, b: Rc<FnDecl>)
    ensures
        ({
            let m = spec_matched_signature(env, a, b);
            let r = spec_param_renames(a, b);
            &&& m.name == b.name
            &&& m.ret_type == b.ret_type
            &&& m.is_pure == b.is_pure
            &&& m.is_rec == b.is_rec
            &&& m.is_total == b.is_total
            &&& m.decreases_ == b.decreases_
            &&& signatures_fit(env, a, b) && has_contract(a) && !has_contract(b) ==> {
                &&& m.requires_ == spec_rename_exprs(a.requires_, r)
                &&& m.ensures_ == spec_rename_exprs(a.ensures_, r)
                &&& m.ghost_args == (if b.ghost_args.items().len() == 0 {
                    a.ghost_args
                } else {
                    b.ghost_args
                })
            }
            &&& !(signatures_fit(env, a, b) && has_contract(a) && !has_contract(b)) ==> {
                &&& m.requires_ == b.requires_
                &&& m.ensures_ == b.ensures_
                &&& m.ghost_args == b.ghost_args
            }
            &&& m.args == (if signatures_fit(env, a, b) {
                spec_rename_args(b.args, r)
            } else {
                b.args
            })
        }),
{
    reveal(spec_matched_signature);
    reveal(spec_with_specs);
    reveal(spec_with_own_names);
    reveal(spec_clone_opt_expr);
    law_declaration_meets_definition(env, a, b);
    lemma_has_specs(a);
    lemma_has_specs(b);
    match *fn_ghost_args(b) {
        List::Nil => {},
        List::Cons(h, t) => {},
    }
}

/// Parameters keep their names and modes, and there are as many as before; only the names in their types
/// change.
pub proof fn law_renamed_parameters(l: Rc<List<FnArg>>, r: Rc<List<Rename>>)
    ensures
        ({
            let m = spec_rename_args(l, r).items();
            &&& m.len() == l.items().len()
            &&& forall|i: int|
                0 <= i < m.len() ==> (#[trigger] m[i]).name == l.items()[i].name && m[i].mode == l.items()[i].mode && m[i].ty == spec_rename_type(l.items()[i].ty, r)
        }),
    decreases l,
{
    match *l {
        List::Nil => {},
        List::Cons(h, t) => {
            reveal(spec_clone_opt_ident);
            law_renamed_parameters(t, r);
            let m = spec_rename_args(l, r).items();
            let rest = spec_rename_args(t, r).items();
            assert forall|i: int| 0 <= i < m.len() implies (#[trigger] m[i]).name == l.items()[i].name && m[i].mode == l.items()[i].mode && m[i].ty == spec_rename_type(
                l.items()[i].ty,
                r,
            ) by {
                if i > 0 {
                    assert(m[i] == rest[i - 1]);
                    assert(l.items()[i] == t.items()[i - 1]);
                }
            }
        },
    }
}

/// Whether a rename is from a parameter of one signature to the one of another in its place.
pub open spec fn renames_a_parameter(a: Rc<List<FnArg>>, b: Rc<List<FnArg>>, r: Rc<Rename>) -> bool {
    exists|i: int|
        #![trigger a.items()[i]]
        0 <= i < a.items().len() && i < b.items().len() && (a.items()[i].name matches Some(m) && m.val == r.from) && b.items()[i].name == Some(r.to)
}

/// Every rename is from a parameter to the one in its place.
pub proof fn law_renames_are_of_parameters(a: Rc<List<FnArg>>, b: Rc<List<FnArg>>, acc: Rc<List<Rename>>, r: Rc<Rename>)
    requires
        spec_arg_renames(a, b, acc).items().contains(r),
    ensures
        acc.items().contains(r) || renames_a_parameter(a, b, r),
    decreases a,
{
    match both_args(a, b) {
        (List::Cons(x, s), List::Cons(y, t)) => {
            let acc2 = next_renames(x, y, acc);
            assert(spec_arg_renames(a, b, acc) == spec_arg_renames(s, t, acc2));
            law_renames_are_of_parameters(s, t, acc2, r);
            if renames_a_parameter(s, t, r) {
                let i = choose|i: int|
                    #![trigger s.items()[i]]
                    0 <= i < s.items().len() && i < t.items().len() && (s.items()[i].name matches Some(m) && m.val == r.from) && t.items()[i].name == Some(r.to);
                assert(a.items()[i + 1] == s.items()[i]);
                assert(b.items()[i + 1] == t.items()[i]);
            } else if !acc.items().contains(r) {
                assert(acc2.items().contains(r));
                assert(acc2 != acc);
                assert(a.items()[0] == x);
                assert(b.items()[0] == y);
                let j = choose|j: int| 0 <= j < acc2.items().len() && acc2.items()[j] == r;
                assert(acc2.items()[0] == r || acc.items()[j - 1] == r);
            }
        },
        _ => {},
    }
}

/// The renames with that of one more parameter.
pub open spec fn next_renames(x: Rc<FnArg>, y: Rc<FnArg>, acc: Rc<List<Rename>>) -> Rc<List<Rename>> {
    match (x.name, y.name) {
        (Some(m), Some(n)) => if spec_same_name(m, n) {
            acc
        } else {
            Rc::new(List::Cons(Rc::new(Rename { from: m.val, to: n }), acc))
        },
        _ => acc,
    }
}

/// A function that is declared and defined is reported exactly if the two do not become one, or if they
/// list different numbers of ghost parameters where the contract comes from the declaration.
pub proof fn law_contradictions_are_reported(diags: Rc<List<Diagnostic>>, env: Env, a: Rc<FnDecl>, b: Rc<FnDecl>)
    ensures
        ({
            let r = spec_check_match(diags, env, a, b);
            let merged = spec_match_fn(env, a, b) == Match::Merged;
            let ghosts_differ = has_contract(a) && !has_contract(b) && b.ghost_args.items().len() > 0 && spec_list_len(a.ghost_args) != spec_list_len(b.ghost_args);
            &&& merged && !ghosts_differ ==> r == diags
            &&& !(merged && !ghosts_differ) ==> (*r matches List::Cons(d, t) && t == diags && d.level == DiagnosticLevel::Error)
            &&& spec_match_fn(env, a, b) == Match::Mistyped ==> (*r matches List::Cons(d, _) && d.loc == a.name.loc && d.msg.chars() == "declaration of "@ + a.name.val.chars()
                + " has different types than its definition"@)
            &&& spec_match_fn(env, a, b) == Match::SpecOnDefn ==> (*r matches List::Cons(d, _) && d.loc == b.name.loc && d.msg.chars() == "definition of "@ + a.name.val.chars()
                + " has specifications, but its declaration does not; specifications should be on the declaration"@)
            &&& spec_match_fn(env, a, b) == Match::Differing ==> (*r matches List::Cons(d, _) && d.loc == a.name.loc && d.msg.chars() == "declaration and definition of "@
                + a.name.val.chars() + " have differing specifications"@)
        }),
{
    reveal(spec_check_match);
    reveal(spec_mk_error);
    lemma_has_specs(a);
    lemma_has_specs(b);
    match *fn_ghost_args(b) {
        List::Nil => {},
        List::Cons(h, t) => {},
    }
}

/// A function that is declared twice is reported exactly if both declarations have a contract and the
/// contracts differ.
pub proof fn law_differing_declarations_are_reported(diags: Rc<List<Diagnostic>>, first: Rc<Decl>, d: Rc<Decl>, a: Rc<FnDecl>, b: Rc<FnDecl>)
    requires
        first.val == DeclT::FnDecl(a),
        d.val == DeclT::FnDecl(b),
    ensures
        ({
            let r = spec_check_redeclared(diags, first, d);
            if has_contract(a) && has_contract(b) && !spec_specs_agree(a, b) {
                *r matches List::Cons(x, t) && t == diags && x.level == DiagnosticLevel::Error && x.loc == b.name.loc && x.msg.chars() == "multiple declarations of "@
                    + b.name.val.chars() + " have differing specifications"@
            } else {
                r == diags
            }
        }),
{
    reveal(spec_check_redeclared);
    reveal(spec_mk_error);
    lemma_has_specs(a);
    lemma_has_specs(b);
}

/// Two declarations of a global as one: the later type and name, whichever value is given, later first;
/// pure or opaque if one of them is, and external only if both are.
pub proof fn law_globals_join(a: Rc<GlobalVar>, b: Rc<GlobalVar>)
    ensures
        ({
            let m = spec_merge_globals(a, b);
            &&& m.name == b.name
            &&& m.ty == b.ty
            &&& m.init == (if b.init is Some {
                b.init
            } else {
                a.init
            })
            &&& m.is_pure == (a.is_pure || b.is_pure)
            &&& m.is_external == (a.is_external && b.is_external)
            &&& m.opaque_to_smt == (a.opaque_to_smt || b.opaque_to_smt)
            &&& m.is_enum_constant == b.is_enum_constant
        }),
{
    reveal(spec_merge_globals);
}

/// Of two declarations of a thing the later one stays, but for globals, which are joined; what is joined
/// stands where more is said of the object.
pub proof fn law_the_later_declaration_stays(a: Rc<Decl>, b: Rc<Decl>)
    ensures
        match (a.val, b.val) {
            (DeclT::GlobalVar(x), DeclT::GlobalVar(y)) => {
                let m = spec_combine(a, b);
                &&& m.val == DeclT::GlobalVar(spec_merge_globals(x, y))
                &&& m.loc == (if y.init is None && (x.init is Some || (y.is_external && !x.is_external)) {
                    a.loc
                } else {
                    b.loc
                })
            },
            _ => spec_combine(a, b) == b,
        },
{
    reveal(spec_combine);
    reveal(spec_earlier_says_more);
}

/// The text that a name is made of.
pub open spec fn name_chars(n: Name) -> Seq<char> {
    match n {
        Name::Var(v) => if v.chars() == "this"@ || v.chars() == "return"@ {
            v.chars()
        } else {
            "var_"@ + v.chars()
        },
        Name::Label(v) => "label_"@ + v.chars(),
        Name::GlobalAddr(v) => "addr_var_"@ + v.chars(),
        Name::GlobalAddrNotNull(v) => "addr_var_"@ + v.chars() + "_not_null"@,
        Name::GlobalAcquire(v) => "acquire_var_"@ + v.chars(),
        Name::Val(v, i) => "val_"@ + v.chars() + "_"@ + nat_chars(i as nat),
        Name::Perm(v, i) => "p_"@ + v.chars() + "_"@ + nat_chars(i as nat),
        Name::Fn(v) => "func_"@ + v.chars(),
        Name::TypeRef(t) => type_chars(t),
        Name::TypeRefPred(t) => type_chars(t) + "__pred"@,
        Name::TypeRefPredUnfold(t) => type_chars(t) + "__pred_unfold"@,
        Name::TypeRefPredFold(t) => type_chars(t) + "__pred_fold"@,
        Name::TypeRefSizeofPos(t) => type_chars(t) + "__sizeof_pos"@,
        Name::TypeRefSpec(t) => type_chars(t) + "__spec"@,
        Name::TypeRefSpecField(t, f) => type_chars(t) + "__spec__"@ + f.chars(),
        Name::TypeRefUninitPred(t) => type_chars(t) + "__uninit_pred"@,
        Name::StructFieldProj(s, f) => "struct_"@ + s.chars() + "__get_"@ + f.chars(),
        Name::StructDirectFieldName(s, f) => "struct_"@ + s.chars() + "__"@ + f.chars(),
        Name::StructGhostFieldProj(s, f) => "struct_"@ + s.chars() + "__"@ + f.chars(),
        Name::StructAuxFn(s, f) => "struct_"@ + s.chars() + "__aux_"@ + f@,
        Name::StructContainerFn(s, f) => "struct_"@ + s.chars() + "__"@ + f.chars() + "_container"@,
        Name::StructContainerInv(s, f) => "struct_"@ + s.chars() + "__"@ + f.chars() + "_container_inv"@,
        Name::StructProjContainerInv(s, f) => "struct_"@ + s.chars() + "__"@ + f.chars() + "_proj_container_inv"@,
        Name::StructProjNull(s, f) => "struct_"@ + s.chars() + "__"@ + f.chars() + "_proj_null"@,
        Name::UnionFieldConstructor(u, f) => "Field_"@ + u.chars() + "__"@ + f.chars(),
        Name::UnionGhostFieldProj(u, f) => "union_"@ + u.chars() + "__"@ + f.chars(),
        Name::UnionFieldProj(u, f) => "union_"@ + u.chars() + "__get_"@ + f.chars(),
        Name::UnionAuxFn(u, a, f) => "union_"@ + u.chars() + "__aux_"@ + a@ + "_"@ + f.chars(),
        Name::UnionActivateFn(u, f) => "union_"@ + u.chars() + "__activate_"@ + f.chars(),
        Name::TypeRefDefault(t) => "has_zero_default_"@ + type_chars(t),
    }
}

/// The text of a named type.
pub open spec fn type_chars(t: TypeRef) -> Seq<char> {
    match t {
        TypeRef::Struct(n) => "struct_"@ + n.chars(),
        TypeRef::Union(n) => "union_"@ + n.chars(),
        TypeRef::Typedef(n) => "ty_"@ + n.chars(),
    }
}

/// A name asks for the text that it is made of; constructors in capitals, and anything else in lower
/// case.
pub proof fn law_names_ask_for_their_text(n: Rc<Name>)
    ensures
        spec_name_text(n).chars() == name_chars(*n),
        spec_wanted_text(n).chars() == (if *n is UnionFieldConstructor {
            name_chars(*n)
        } else {
            lower_chars(name_chars(*n))
        }),
{
    reveal(spec_name_text);
    reveal(spec_wanted_text);
    reveal(spec_type_ref_text);
    reveal(spec_struct_text);
    reveal(spec_union_text);
    reveal(spec_text_is);
    reveal_with_fuel(Rope::chars, 2);
}

/// The module of a named type.
pub open spec fn type_module_chars(t: TypeRef) -> Seq<char> {
    match t {
        TypeRef::Struct(n) => "Struct_"@ + n.chars(),
        TypeRef::Union(n) => "Union_"@ + n.chars(),
        TypeRef::Typedef(n) => "Typedef_"@ + n.chars(),
    }
}

/// The module that a name belongs to, if it belongs to one.
pub open spec fn module_chars(n: Name) -> Option<Seq<char>> {
    match n {
        Name::TypeRef(t) | Name::TypeRefPred(t) | Name::TypeRefUninitPred(t) => Some(type_module_chars(t)),
        Name::TypeRefDefault(t) | Name::TypeRefSpec(t) | Name::TypeRefPredUnfold(t) => Some(type_module_chars(t)),
        Name::TypeRefSpecField(t, _) => Some(type_module_chars(t)),
        Name::TypeRefPredFold(t) | Name::TypeRefSizeofPos(t) => Some(type_module_chars(t)),
        Name::StructFieldProj(s, _) | Name::StructDirectFieldName(s, _) | Name::StructGhostFieldProj(s, _) => Some("Struct_"@ + s.chars()),
        Name::StructAuxFn(s, _) => Some("Struct_"@ + s.chars()),
        Name::StructContainerFn(s, _) | Name::StructContainerInv(s, _) | Name::StructProjContainerInv(s, _) | Name::StructProjNull(s, _) => Some("Struct_"@ + s.chars()),
        Name::UnionFieldConstructor(u, _) | Name::UnionGhostFieldProj(u, _) | Name::UnionFieldProj(u, _) | Name::UnionActivateFn(u, _) => Some("Union_"@ + u.chars()),
        Name::UnionAuxFn(u, _, _) => Some("Union_"@ + u.chars()),
        Name::GlobalAddr(v) | Name::GlobalAddrNotNull(v) | Name::GlobalAcquire(v) => Some("Global_"@ + v.chars()),
        _ => None,
    }
}

/// A name belongs to the module of what it is about.
pub proof fn law_names_belong_to_modules(n: Rc<Name>)
    ensures
        (match spec_module_for_name(n) {
            Some(m) => Some(m.chars()),
            None => None,
        }) == module_chars(*n),
{
    reveal(spec_module_for_name);
    reveal(spec_type_ref_module);
}

/// A name of another module is qualified by it, and one of the current module or of none is not.
pub proof fn law_qualified_names(st: Emitter, owner: Option<Text>, t: Text)
    ensures
        flat(spec_qualified(st, owner, t)) == (match owner {
            Some(m) if m.chars() != st.current_module.chars() => m.chars() + "."@ + t.chars(),
            _ => t.chars(),
        }),
{
    reveal(spec_qualified);
}

/// The module that a name is defined in, as it is found in a translation unit: functions where they are declared, types
/// where they are defined, and anything else where it belongs.
pub open spec fn home_of(st: Emitter, n: Name) -> Option<Text> {
    match n {
        Name::Fn(v) => spec_find_module(st.fn_module_map, v),
        Name::TypeRef(TypeRef::Typedef(t)) => match spec_find_module(st.typedef_override_map, t) {
            Some(m) => Some(m),
            None => spec_module_for_name(Rc::new(n)),
        },
        Name::TypeRefPred(TypeRef::Typedef(t)) => match spec_find_module(st.typedef_override_map, t) {
            Some(m) => Some(m),
            None => spec_module_for_name(Rc::new(n)),
        },
        Name::TypeRefUninitPred(TypeRef::Typedef(t)) => match spec_find_module(st.typedef_override_map, t) {
            Some(m) => Some(m),
            None => spec_module_for_name(Rc::new(n)),
        },
        Name::TypeRefDefault(TypeRef::Typedef(t)) => match spec_find_module(st.typedef_override_map, t) {
            Some(m) => Some(m),
            None => spec_module_for_name(Rc::new(n)),
        },
        _ => spec_module_for_name(Rc::new(n)),
    }
}

/// A name is written as the text that was picked for it, qualified by its module where that is another one; a local name
/// is never qualified.
pub proof fn law_written_names(st: Emitter, n: Name)
    ensures
        ({
            let (nm, t) = spec_mangle(st.nm, Rc::new(n));
            &&& flat(spec_emit_name(st, n).1) == (match home_of(st, n) {
                Some(m) if m.chars() != st.current_module.chars() => m.chars() + "."@ + t.chars(),
                _ => t.chars(),
            })
            &&& flat(spec_local_name(st, n).1) == t.chars()
            &&& spec_emit_name(st, n).0 == (Emitter { nm, ..st })
            &&& spec_local_name(st, n).0 == (Emitter { nm, ..st })
        }),
{
    reveal(spec_emit_name);
    reveal(spec_local_name);
    reveal(spec_mangle_name);
    reveal(spec_owner_module);
    reveal(spec_typedef_module);
    reveal(spec_module_for_name);
    let (nm, t) = spec_mangle(st.nm, Rc::new(n));
    let st1 = Emitter { nm, ..st };
    law_qualified_names(st1, spec_owner_module(st1, Rc::new(n)), t);
}

/// Temporaries are numbered, so that no two have the same name.
pub proof fn law_temporaries(st: Emitter, prefix: &'static str)
    ensures
        flat(spec_fresh_tmp(st, prefix).1) == "__pal_"@ + prefix@ + "_"@ + nat_chars(st.tmp_counter as nat),
        st.tmp_counter < u64::MAX ==> spec_fresh_tmp(st, prefix).0.tmp_counter == st.tmp_counter + 1,
{
    reveal(spec_fresh_tmp);
    reveal(spec_bump);
}

/// The reserved words of the generated language are never picked for a name.
pub proof fn law_reserved_words()
    ensures
        forall|w: Text| #![auto] is_reserved(w.chars()) ==> spec_text_in(spec_reserved(), w),
{
    reveal(spec_reserved);
    reveal_with_fuel(spec_text_in, 28);
    reveal_with_fuel(spec_list_append, 20);
}

/// The words that the generated language keeps for itself, and names of its library.
pub open spec fn is_reserved(w: Seq<char>) -> bool {
    ||| w == "fn"@
    ||| w == "assume"@
    ||| w == "requires"@
    ||| w == "ensures"@
    ||| w == "preserves"@
    ||| w == "continue"@
    ||| w == "break"@
    ||| w == "label"@
    ||| w == "goto"@
    ||| w == "return"@
    ||| w == "stt"@
    ||| w == "stt_ghost"@
    ||| w == "stt_atomic"@
    ||| w == "ref"@
    ||| w == "array"@
    ||| w == "admit"@
    ||| w == "bool"@
    ||| w == "unit"@
    ||| w == "slprop"@
    ||| w == "emp"@
    ||| w == "emp_inames"@
    ||| w == "int"@
    ||| w == "nat"@
    ||| w == "not"@
    ||| w == "pulse_eager_unfold"@
    ||| w == "pulse_intro"@
}

} // verus!
