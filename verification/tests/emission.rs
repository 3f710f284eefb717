use pal_passes::diag::Diagnostics;
use pal_passes::doc::{annotated, d2, d3, group, hardline, nest, txt};
use pal_passes::emit::{collect_addr_taken, decl_name, emit_multifile, module_name_for_decl, EmittedModule};
use pal_passes::emit_slprop::subst_flex_refine_pred;
use pal_passes::emit_base::{
    emit_machine_int_literal, eta_expand_doc, fnptr_domain_doc, machine_int_suffix, nary_tuple_proj,
    nested_pair_doc,
};
use pal_passes::ir::{
    BinOp, Decl, DeclT, Expr, ExprT, Field, FieldT, FnArg, FnDecl, FnDefn, GlobalVar, Ident, IncludeDecl, InlinePulseCode, Loc, Location, OpaqueTypeDecl, ParamMode, PointerKind, Position, Range, SourceInfo, Stmt, StmtT, StructDefn, TranslationUnit, Type, TypeDefn, TypeRefKind, TypeT, UnOp, UnionDefn, VAttr, show_expr,
};
use pal_passes::list::{nil, List};
use pal_passes::names::{mangle, new_mangling, Name};
use pal_passes::render::render;
use pal_passes::text::{rope_string, sym, IntValue, Rope};
use std::rc::Rc;

fn loc_at(line: u32) -> Loc {
    Rc::new(SourceInfo {
        location: Location {
            file_name: Rc::new("a.c".to_string()),
            range: Range {
                start: Position { line, character: 1 },
                end: Position { line, character: 9 },
            },
        },
    })
}

fn loc() -> Loc {
    loc_at(1)
}

fn id(s: &str) -> Rc<Ident> {
    Rc::new(Ident { val: sym(s), loc: loc() })
}

fn ty(t: TypeT) -> Rc<Type> {
    Rc::new(Type { loc: loc(), val: t })
}

fn int32() -> Rc<Type> {
    ty(TypeT::Int { signed: true, width: 32 })
}

fn ex(e: ExprT) -> Rc<Expr> {
    Rc::new(Expr { loc: loc(), val: e })
}

fn var(n: &str) -> Rc<Expr> {
    ex(ExprT::Var(id(n)))
}

fn st(s: StmtT) -> Rc<Stmt> {
    Rc::new(Stmt { loc: loc(), val: s })
}

fn list<X>(v: Vec<Rc<X>>) -> Rc<List<X>> {
    List::from_vec(&v)
}

fn arg(n: &str, t: Rc<Type>) -> Rc<FnArg> {
    Rc::new(FnArg { name: Some(id(n)), ty: t, mode: ParamMode::Regular })
}

fn fn_decl(name: &str, args: Vec<Rc<FnArg>>, ret: Rc<Type>, is_pure: bool) -> Rc<FnDecl> {
    Rc::new(FnDecl {
        name: id(name),
        ret_type: ret,
        args: list(args),
        ghost_args: list(vec![]),
        requires_: list(vec![]),
        ensures_: list(vec![]),
        is_pure,
        is_rec: false,
        is_total: false,
        decreases_: None,
    })
}

fn decl(d: DeclT) -> Rc<Decl> {
    Rc::new(Decl { loc: loc_at(7), val: d })
}

fn defn(d: Rc<FnDecl>, body: Vec<Rc<Stmt>>) -> Rc<Decl> {
    decl(DeclT::FnDefn(Rc::new(FnDefn { decl: d, body: list(body) })))
}

fn emitted(decls: Vec<Rc<Decl>>) -> (Vec<EmittedModule>, Vec<String>) {
    let mut diags = Diagnostics::new();
    let tu = TranslationUnit { decls };
    let m = emit_multifile(&mut diags, &tu);
    let d = diags.to_vec().iter().map(|m| rope_string(&m.msg)).collect();
    (m, d)
}

fn code(decls: Vec<Rc<Decl>>) -> String {
    let (m, d) = emitted(decls);
    assert_eq!(d, Vec::<String>::new());
    m[m.len() - 1].code.clone()
}

const HEAD: &str = "open Pulse\nopen Pulse.Lib.C\n#lang-pulse\n\n";

#[test]
fn a_function_is_emitted_with_its_interface() {
    let f = defn(
        fn_decl("add", vec![arg("a", int32()), arg("b", int32())], int32(), false),
        vec![st(StmtT::Return(Some(ex(ExprT::BinOp(BinOp::Add, var("a"), var("b"))))))],
    );
    let (m, d) = emitted(vec![f]);
    assert!(d.is_empty());
    assert_eq!(m.len(), 1);
    assert_eq!(m[0].module_name, "Func_add");
    assert_eq!(m[0].decl_name, "add");
    assert_eq!(*m[0].source_file, "a.c");
    assert_eq!(m[0].decl_range.start.line, 7);
    assert_eq!(
        m[0].code,
        format!(
            "module Func_add\n{}divergent fn func_add (var_a: Int32.t) (var_b: Int32.t)\n  returns return_1 : Int32.t\n{{\n  let mut var_a = var_a;\n  let mut var_b = var_b;\n  return ((!var_a) `Int32.add` (!var_b));\n}}",
            HEAD
        )
    );
    assert_eq!(
        m[0].fsti_code.as_ref().unwrap(),
        &format!(
            "module Func_add\n{}divergent fn func_add (var_a: Int32.t) (var_b: Int32.t)\nreturns return_1 : Int32.t",
            HEAD
        )
    );
}

#[test]
fn a_pure_function_is_a_definition() {
    let f = defn(
        fn_decl("id", vec![arg("a", int32())], int32(), true),
        vec![st(StmtT::Return(Some(var("a"))))],
    );
    let (m, _) = emitted(vec![f]);
    assert!(m[0].fsti_code.is_none());
    assert_eq!(m[0].code, format!("module Func_id\n{}let func_id (var_a: Int32.t) : Int32.t = var_a", HEAD));
}

#[test]
fn modules_are_named_after_their_declarations() {
    let cases: Vec<(DeclT, &str, &str)> = vec![
        (DeclT::FnDecl(fn_decl("f", vec![], int32(), false)), "Func_f", "f"),
        (DeclT::StructDecl(id("s")), "Struct_s", "s"),
        (
            DeclT::Typedef(Rc::new(TypeDefn { name: id("t"), body: int32(), is_pointer_view: false })),
            "Typedef_t",
            "t",
        ),
        (DeclT::UnionDefn(Rc::new(UnionDefn { name: id("u"), fields: list(vec![]) })), "Union_u", "u"),
        (
            DeclT::IncludeDecl(Rc::new(IncludeDecl {
                module_name: sym("My.Module"),
                code: Rc::new(InlinePulseCode { tokens: list(vec![]) }),
            })),
            "My.Module",
            "My.Module",
        ),
        (
            DeclT::OpaqueTypeDecl(Rc::new(OpaqueTypeDecl {
                name: id("o"),
                code: Rc::new(InlinePulseCode { tokens: list(vec![]) }),
            })),
            "Type_o",
            "o",
        ),
    ];
    for (d, m, n) in cases {
        let d = decl(d);
        assert_eq!(module_name_for_decl(&d), m);
        assert_eq!(decl_name(&d), n);
    }
}

#[test]
fn later_declarations_replace_earlier_modules() {
    let t = |b: Rc<Type>| decl(DeclT::Typedef(Rc::new(TypeDefn { name: id("t"), body: b, is_pointer_view: false })));
    let (m, _) = emitted(vec![t(int32()), decl(DeclT::StructDecl(id("s"))), t(ty(TypeT::Bool))]);
    let names: Vec<&str> = m.iter().map(|x| x.module_name.as_str()).collect();
    assert_eq!(names, vec!["Typedef_t", "Struct_s"]);
    assert!(m[0].code.contains("bool"));
    assert!(!m[0].code.contains("Int32"));
}

#[test]
fn a_typedef_has_predicates_and_a_zero() {
    let t = decl(DeclT::Typedef(Rc::new(TypeDefn { name: id("T"), body: int32(), is_pointer_view: false })));
    let c = code(vec![t]);
    assert!(c.contains("unfold\nlet ty_t : Type = Int32.t\n"));
    assert!(c.contains("[@@pulse_eager_unfold] let predicate ty_t__pred ([@@@mkey] this: ty_t) (p: perm) = emp"));
    assert!(c.contains("[@@pulse_eager_unfold] let predicate ty_t__uninit_pred ([@@@mkey] this: ty_t) = emp"));
    assert!(c.contains("(Int32.int_to_t 0)"));
}

#[test]
fn a_pointer_parameter_comes_with_its_ownership() {
    let p = arg("p", ty(TypeT::Pointer(int32(), PointerKind::Ref)));
    let c = code(vec![decl(DeclT::FnDecl(fn_decl("f", vec![p], ty(TypeT::Void), false)))]);
    assert!(c.contains("requires exists* (val_p_0: Int32.t). ((Pulse.Lib.Reference.pts_to var_p #1.0R val_p_0))"), "{}", c);
    assert!(c.contains("ensures exists* (val_p_0: Int32.t). "));
    assert!(c.ends_with("{ assume pure False; unreachable () }"));
}

#[test]
fn a_function_whose_address_is_taken_gets_a_wrapper() {
    let g = defn(fn_decl("g", vec![arg("x", int32())], int32(), false), vec![st(StmtT::Return(Some(var("x"))))]);
    let f = defn(
        fn_decl("f", vec![], ty(TypeT::Void), false),
        vec![st(StmtT::Call(ex(ExprT::FnPtrCall(ex(ExprT::FnRef(id("g"))), list(vec![])))))],
    );
    let (m, d) = emitted(vec![g, f]);
    assert!(d.is_empty());
    let names: Vec<&str> = m.iter().map(|x| x.module_name.as_str()).collect();
    assert_eq!(names, vec!["Func_g", "Funcptr_g", "Func_f"]);
    assert!(m[1].code.contains("divergent fn func_g__fp (x_fp: Int32.t) (y_fp: erased unit)"));
    assert!(m[1].code.contains("Func_g.func_g x_fp"));
    assert!(m[1].fsti_code.is_some());
    assert!(m[2].code.contains("(Pulse.Lib.C.FuncPtr.pre_of Funcptr_g.func_g__fp)"));
}

#[test]
fn a_struct_has_projections_and_folds() {
    let s = decl(DeclT::StructDefn(Rc::new(StructDefn {
        name: id("s"),
        refines: ty(TypeT::TypeRef(TypeRefKind::Struct(id("s")))),
        fields: list(vec![
            Rc::new(Field { loc: loc(), val: FieldT::Plain { name: id("x"), ty: int32() } }),
            Rc::new(Field { loc: loc(), val: FieldT::BitField { name: id("b"), ty: ty(TypeT::Int { signed: false, width: 16 }), width: 3 } }),
            Rc::new(Field { loc: loc(), val: FieldT::Plain { name: id("a"), ty: ty(TypeT::FixedArray(int32(), 4)) } }),
        ]),
        eager_unfold_pred: false,
    })));
    let c = code(vec![s]);
    for part in [
        "noeq type struct_s = {",
        "struct_s__x: Int32.t;",
        "struct_s__b: (v: UInt16.t {UInt16.v v < pow2 3});",
        "struct_s__a: (full_array_lspec Int32.t 4);",
        "struct_s__sizeof_pos",
        "struct_s__pred",
        "struct_s__uninit_pred",
        "struct_s__aux_raw_unfolded",
        "struct_s__x_container",
        "struct_s__x_container_inv",
        "struct_s__x_proj_container_inv",
        "struct_s__x_proj_null",
        "struct_s__aux_raw_unfold",
        "struct_s__aux_raw_fold",
        "struct_s__aux_raw_fold_uninit",
        "struct_s__aux_raw_unfold_uninit",
        "struct_s__get_x",
        "has_zero_default_struct_s",
    ] {
        assert!(c.contains(part), "{} in\n{}", part, c);
    }
    assert!(!c.contains("malloc_flex"));
}

#[test]
fn a_union_has_an_arm_for_each_field() {
    let u = decl(DeclT::UnionDefn(Rc::new(UnionDefn {
        name: id("u"),
        fields: list(vec![
            Rc::new(Field { loc: loc(), val: FieldT::Plain { name: id("i"), ty: int32() } }),
            Rc::new(Field { loc: loc(), val: FieldT::Plain { name: id("f"), ty: ty(TypeT::Float { width: 32 }) } }),
        ]),
    })));
    let c = code(vec![u]);
    for part in [
        "| Field_u__i : Int32.t -> union_u",
        "| Field_u__f : Pulse.Lib.C.float32 -> union_u",
        "union_u__aux_raw_unfold_i",
        "union_u__activate_f",
        "union_u__get_i",
        "(Field_u__i (Int32.int_to_t 0))",
    ] {
        assert!(c.contains(part), "{} in\n{}", part, c);
    }
}

#[test]
fn globals_have_a_value_and_an_address() {
    let g = |is_pure: bool| {
        decl(DeclT::GlobalVar(Rc::new(GlobalVar {
            name: id("g"),
            ty: int32(),
            init: Some(ex(ExprT::IntLit(Rc::new(IntValue::Small(5)), int32()))),
            is_pure,
            is_external: false,
            opaque_to_smt: false,
            is_enum_constant: false,
        })))
    };
    let c = code(vec![g(true)]);
    assert!(c.contains("let var_g : Int32.t = 5l\n"));
    assert!(c.contains("assume val addr_var_g : (ref Int32.t)\n"));
    assert!(c.contains("acquire_var_g"));
    let c = code(vec![g(false)]);
    assert!(!c.contains("let var_g"));
    assert!(!c.contains("acquire_var_g"));
    assert!(c.contains("assume val addr_var_g : (ref Int32.t)\n"));
}

#[test]
fn what_cannot_be_emitted_is_reported() {
    let body = |s: Rc<Stmt>| defn(fn_decl("f", vec![arg("p", int32())], ty(TypeT::Void), false), vec![s]);
    let report = |s: Rc<Stmt>| emitted(vec![body(s)]).1;
    let eval = |e: Rc<Expr>| st(StmtT::Call(e));
    assert_eq!(
        report(eval(ex(ExprT::Cast(var("p"), ty(TypeT::FixedArray(int32(), 2)))))),
        vec!["unsupported cast from int32 to int32[2]"]
    );
    assert_eq!(
        report(eval(ex(ExprT::BinOp(BinOp::LogAnd, var("p"), var("p"))))),
        Vec::<String>::new()
    );
    assert_eq!(
        report(eval(ex(ExprT::BinOp(BinOp::Implies, var("p"), var("p"))))),
        vec!["unsupported binary operator on p"]
    );
    assert_eq!(
        report(eval(ex(ExprT::UnOp(UnOp::Neg, ex(ExprT::BoolLit(true)))))),
        vec!["unsupported unary operator on true"]
    );
    assert_eq!(
        report(st(StmtT::Assign(ex(ExprT::BoolLit(true)), ex(ExprT::BoolLit(true))))),
        vec!["cannot produce lvalue for true"]
    );
    assert_eq!(
        report(st(StmtT::Decl(id("x"), ty(TypeT::Float { width: 16 })))),
        vec!["unsupported floating-point width 16"]
    );
    assert_eq!(
        report(eval(ex(ExprT::Member(var("p"), id("m"))))),
        vec!["unsupported struct field access on int32"]
    );
    let m = report(eval(ex(ExprT::Member(var("q"), id("m")))));
    assert_eq!(m.len(), 1);
    assert!(m[0].starts_with("cannot infer type of q: unknown variable q\n"));
}

fn shown(d: &pal_passes::doc::Doc) -> String {
    render(d).buffer
}

#[test]
fn integer_literals_carry_their_type() {
    let small = |n: i64| Rc::new(IntValue::Small(n));
    assert_eq!(shown(&emit_machine_int_literal(&small(7), true, 32)), "7l");
    assert_eq!(shown(&emit_machine_int_literal(&small(-7), true, 8)), "(-7y)");
    assert_eq!(shown(&emit_machine_int_literal(&small(-1), false, 32)), "4294967295ul");
    assert_eq!(shown(&emit_machine_int_literal(&small(300), false, 8)), "44uy");
    assert_eq!(shown(&emit_machine_int_literal(&small(5), true, 128)), "(Int128.int_to_t 5)");
    let big = Rc::new(IntValue::Big { negative: true, digits: vec![0, 0, 1] });
    assert_eq!(shown(&emit_machine_int_literal(&big, true, 64)), "(-18446744073709551616L)");
    assert_eq!(shown(&emit_machine_int_literal(&big, false, 64)), "0UL");
    assert_eq!(machine_int_suffix(false, 16), Some("us"));
    assert_eq!(machine_int_suffix(false, 17), None);
}

#[test]
fn float_literals_are_quoted() {
    let f = defn(
        fn_decl("f", vec![], ty(TypeT::Void), false),
        vec![st(StmtT::Call(ex(ExprT::FloatLit(sym("1.5"), ty(TypeT::Float { width: 64 })))))],
    );
    assert!(code(vec![f]).contains("(Pulse.Lib.C.float64_of_string \"1.5\")"));
}

#[test]
fn mangled_names_differ() {
    let nm = new_mangling();
    let name = |s: &str| Rc::new(Name::Var(sym(s)));
    let (nm, a) = mangle(&nm, &name("Foo"));
    let (nm, b) = mangle(&nm, &name("foo"));
    let (nm, c) = mangle(&nm, &name("FOO"));
    let (nm, again) = mangle(&nm, &name("Foo"));
    assert_eq!(rope_string(&a), "var_foo");
    assert_eq!(rope_string(&b), "var_foo_1");
    assert_eq!(rope_string(&c), "var_foo_2");
    assert_eq!(rope_string(&again), "var_foo");
    let (nm, r) = mangle(&nm, &name("return"));
    assert_eq!(rope_string(&r), "return_1");
    let (_, u) = mangle(&nm, &Rc::new(Name::UnionFieldConstructor(sym("U"), sym("X"))));
    assert_eq!(rope_string(&u), "Field_U__X");
}

#[test]
fn tuples_follow_their_arity() {
    let docs = |n: usize| list((0..n).map(|i| txt(["a", "b", "c"][i])).collect());
    assert_eq!(shown(&fnptr_domain_doc(&docs(0))), "unit");
    assert_eq!(shown(&fnptr_domain_doc(&docs(1))), "a");
    assert_eq!(shown(&fnptr_domain_doc(&docs(3))), "(a & b & c)");
    assert_eq!(shown(&nested_pair_doc(&docs(3))), "(a & (b & c))");
    assert_eq!(shown(&nary_tuple_proj(txt("x"), 0, 1)), "x");
    assert_eq!(shown(&nary_tuple_proj(txt("x"), 0, 2)), "(fst x)");
    assert_eq!(shown(&nary_tuple_proj(txt("x"), 1, 2)), "(snd x)");
    assert_eq!(shown(&nary_tuple_proj(txt("x"), 1, 3)), "(Mktuple3?._2 x)");
    assert_eq!(
        shown(&eta_expand_doc(txt("p"), 3)),
        "(Mktuple2 (fst p) (Mktuple2 (fst (snd p)) (snd (snd p))))"
    );
}

#[test]
fn the_output_remembers_where_it_comes_from() {
    let inner = annotated(&loc_at(3), txt("é"));
    let d = annotated(&loc_at(2), d2(txt("ab"), nest(d2(hardline(), inner))));
    let w = render(&d);
    assert_eq!(w.buffer, "ab\n  é");
    assert_eq!(w.source_range_map.len(), 2);
    let (l, r) = &w.source_range_map[0];
    assert_eq!(l.range.start.line, 3);
    assert_eq!((r.start.line, r.start.character), (2, 3));
    assert_eq!((r.end.line, r.end.character), (2, 5));
    let (l, r) = &w.source_range_map[1];
    assert_eq!(l.range.start.line, 2);
    assert_eq!((r.start.line, r.start.character), (1, 1));
    assert_eq!((r.end.line, r.end.character), (2, 5));
}

#[test]
fn groups_break_only_where_they_must() {
    let long = Rc::new(Rope::Sym(Rc::new("x".repeat(60))));
    let word = |r: &Rc<Rope>| pal_passes::doc::text_doc(r.clone());
    assert_eq!(shown(&group(d3(txt("a"), pal_passes::doc::line(), txt("b")))), "a b");
    assert_eq!(
        shown(&group(d3(word(&long), pal_passes::doc::line(), word(&long)))),
        format!("{}\n{}", "x".repeat(60), "x".repeat(60))
    );
}

#[test]
fn addresses_are_found_in_contracts_too() {
    let g = decl(DeclT::GlobalVar(Rc::new(GlobalVar {
        name: id("g"),
        ty: int32(),
        init: Some(ex(ExprT::StructInit(
            id("ops"),
            list(vec![Rc::new(pal_passes::ir::FieldInit { name: id("op"), value: ex(ExprT::FnRef(id("add"))) })]),
        ))),
        is_pure: true,
        is_external: false,
        opaque_to_smt: false,
        is_enum_constant: false,
    })));
    let mentions = |n: &str| ex(ExprT::BinOp(BinOp::Eq, var("fp"), ex(ExprT::FnRef(id(n)))));
    let contract = |n: &str, requires_: Vec<Rc<Expr>>, ensures_: Vec<Rc<Expr>>, decreases_: Option<Rc<Expr>>| {
        Rc::new(FnDecl {
            name: id(n),
            ret_type: int32(),
            args: list(vec![]),
            ghost_args: list(vec![]),
            requires_: list(requires_),
            ensures_: list(ensures_),
            is_pure: false,
            is_rec: false,
            is_total: false,
            decreases_,
        })
    };
    let found = |decls: Vec<Rc<Decl>>| {
        let mut v: Vec<String> = List::to_vec(&collect_addr_taken(&list(decls), nil())).iter().map(rope_string).collect();
        v.sort();
        v
    };
    assert_eq!(found(vec![g, defn(contract("h", vec![], vec![mentions("cb")], None), vec![])]), vec!["add", "cb"]);
    assert_eq!(
        found(vec![decl(DeclT::FnDecl(contract("k", vec![mentions("a")], vec![], Some(mentions("b")))))]),
        vec!["a", "b"]
    );
    let loop_stmt = st(StmtT::While {
        cond: ex(ExprT::BoolLit(true)),
        inv: list(vec![mentions("i")]),
        requires_: list(vec![mentions("j")]),
        ensures_: list(vec![mentions("k")]),
        body: list(vec![st(StmtT::Label { name: id("l"), ensures_: list(vec![mentions("m")]) })]),
    });
    assert_eq!(found(vec![defn(contract("h", vec![], vec![], None), vec![loop_stmt])]), vec!["i", "j", "k", "m"]);
    let refined = ty(TypeT::Refine(int32(), mentions("r")));
    assert_eq!(
        found(vec![decl(DeclT::Typedef(Rc::new(TypeDefn { name: id("t"), body: refined, is_pointer_view: false })))]),
        vec!["r"]
    );
    let cb = defn(fn_decl("cb", vec![arg("x", int32())], int32(), false), vec![st(StmtT::Return(Some(var("x"))))]);
    let h = defn(contract("h", vec![], vec![mentions("cb")], None), vec![]);
    let (m, _) = emitted(vec![cb, h]);
    assert!(m.iter().any(|x| x.module_name == "Funcptr_cb"));
}

#[test]
fn a_flexible_refinement_speaks_of_the_struct() {
    let member = |f: &str| ex(ExprT::Member(var("s"), id(f)));
    let shown_expr = |e: &Rc<Expr>| rope_string(&show_expr(e));
    let subst = |e: Rc<Expr>| subst_flex_refine_pred(&e, &id("data"), &id("s"));
    let e = ex(ExprT::BinOp(
        BinOp::Eq,
        ex(ExprT::VAttr(VAttr::Length, var("this"))),
        ex(ExprT::Cond(var("c"), var("a"), var("b"))),
    ));
    let r = ex(ExprT::BinOp(
        BinOp::Eq,
        ex(ExprT::VAttr(VAttr::Length, member("data"))),
        ex(ExprT::Cond(member("c"), member("a"), member("b"))),
    ));
    assert_eq!(shown_expr(&subst(e)), shown_expr(&r));
    let q = |body: Rc<Expr>| ex(ExprT::Forall(id("i"), int32(), body));
    let e = q(ex(ExprT::Index(var("this"), ex(ExprT::BinOp(BinOp::Add, var("i"), var("n"))))));
    let r = q(ex(ExprT::Index(member("data"), ex(ExprT::BinOp(BinOp::Add, var("i"), member("n"))))));
    assert_eq!(shown_expr(&subst(e)), shown_expr(&r));
    assert_eq!(shown_expr(&subst(ex(ExprT::Old(ex(ExprT::Deref(var("p"))))))), shown_expr(&ex(ExprT::Old(ex(ExprT::Deref(member("p")))))));
}

#[test]
fn texts_of_a_sequence_stand_for_its_names() {
    let names = vec![
        Rc::new(Name::Var(sym("Ab"))),
        Rc::new(Name::Var(sym("aB"))),
        Rc::new(Name::UnionFieldConstructor(sym("U"), sym("f"))),
        Rc::new(Name::Var(sym("Ab"))),
        Rc::new(Name::Var(sym("return"))),
    ];
    let mut nm = new_mangling();
    let mut texts = vec![];
    for n in &names {
        let (next, t) = mangle(&nm, n);
        nm = next;
        texts.push(rope_string(&t));
    }
    assert_eq!(texts, vec!["var_ab", "var_ab_1", "Field_U__f", "var_ab", "return_1"]);
}

#[test]
fn the_module_map_holds_functions_and_wrappers() {
    let f = decl(DeclT::FnDecl(fn_decl("f", vec![], int32(), false)));
    let o = decl(DeclT::OpaqueTypeDecl(Rc::new(OpaqueTypeDecl {
        name: id("o"),
        code: Rc::new(InlinePulseCode { tokens: list(vec![]) }),
    })));
    let map = pal_passes::emit::build_fn_module_map(nil(), &list(vec![f, o]));
    let module = |n: &str| pal_passes::emit_base::find_module(&map, &sym(n)).map(|t| rope_string(&t));
    assert_eq!(module("f"), Some("Func_f".to_string()));
    assert_eq!(module("f__fp"), Some("Funcptr_f".to_string()));
    assert_eq!(module("o"), Some("Type_o".to_string()));
    assert_eq!(module("o__fp"), None);
}

#[test]
fn records_come_with_the_axioms_that_their_fields_allow() {
    let plain = |n: &str, t: Rc<Type>| Rc::new(Field { loc: loc(), val: FieldT::Plain { name: id(n), ty: t } });
    let bits = |n: &str| {
        Rc::new(Field {
            loc: loc(),
            val: FieldT::BitField { name: id(n), ty: ty(TypeT::Int { signed: false, width: 32 }), width: 3 },
        })
    };
    let record = |fields: Vec<Rc<Field>>| {
        let d = decl(DeclT::StructDefn(Rc::new(StructDefn {
            name: id("s"),
            refines: ty(TypeT::TypeRef(TypeRefKind::Struct(id("s")))),
            fields: list(fields),
            eager_unfold_pred: false,
        })));
        emitted(vec![d]).0[0].code.clone()
    };
    let c = record(vec![plain("x", int32()), plain("y", int32())]);
    assert_eq!(c.matches("_proj_null").count(), 1);
    assert_eq!(c.matches("struct_s__x_proj_null").count(), 1);
    assert_eq!(c.matches("__x_container_inv").count(), 1);
    assert_eq!(c.matches("__x_proj_container_inv").count(), 1);
    assert_eq!(c.matches("__y_container_inv").count(), 1);
    assert_eq!(c.matches("_flex").count(), 0);
    assert_eq!(record(vec![bits("x"), plain("y", int32())]).matches("_proj_null").count(), 0);
    let flexible = record(vec![plain("n", int32()), plain("tail", ty(TypeT::FlexArray(int32())))]);
    assert_eq!(flexible.matches("aux_malloc_flex").count(), 1);
    assert_eq!(flexible.matches("aux_calloc_flex").count(), 1);
    let u = decl(DeclT::UnionDefn(Rc::new(UnionDefn {
        name: id("u"),
        fields: list(vec![plain("a", int32()), bits("b"), plain("c", int32())]),
    })));
    let c = emitted(vec![u]).0[0].code.clone();
    assert_eq!(c.matches("__activate_a").count(), 1);
    assert_eq!(c.matches("__activate_b").count(), 0);
    assert_eq!(c.matches("__activate_c").count(), 1);
}

#[test]
fn a_pure_body_needs_no_more_steps_than_statements() {
    let if_stmt = |a: Vec<Rc<Stmt>>, b: Vec<Rc<Stmt>>| {
        st(StmtT::If { cond: var("c"), then_branch: list(a), else_branch: list(b), ensures_: list(vec![]) })
    };
    let ret = |n: &str| st(StmtT::Return(Some(var(n))));
    let body = list(vec![if_stmt(vec![if_stmt(vec![], vec![])], vec![]), ret("c")]);
    let steps = pal_passes::emit_stmts::stmts_size(&body);
    assert_eq!(steps, 3);
    let at = |n: u64| {
        let mut e = pal_passes::emit::new_emitter(nil(), &nil());
        shown(&e.emit_pure_body(&pal_passes::env::empty_env(), &body, n))
    };
    assert!(!at(steps).contains("admit"));
    assert_eq!(at(steps), at(steps + 1));
    assert_eq!(at(steps), at(u64::MAX));
    assert!(at(steps - 1).contains("admit"));
}
