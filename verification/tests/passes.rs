use pal_passes::check::check;
use pal_passes::diag::Diagnostics;
use pal_passes::elab::{elab, new_elaborator};
use pal_passes::env::{empty_env, push_decls, vtype_eq, vtype_whnf};
use pal_passes::ir::{
    BinOp, Branch, Decl, DeclT, Expr, ExprT, Field, FieldInit, FieldT, FnArg, FnDecl, FnDefn, GhostArg, GlobalVar, Ident, Loc, Location, ParamMode, PointerKind, Position, Range, SourceInfo, Stmt, StmtT, StructDefn, TranslationUnit, Type, TypeDefn, TypeRefKind, TypeT, UnOp, show_expr,
};
use pal_passes::list::{nil, List};
use pal_passes::merge::merge;
use pal_passes::rename::{rename_expr, Rename};
use pal_passes::report::{collect, fmt_loc};
use pal_passes::restructure_goto::{check_gotos_stmt, restructure_goto};
use pal_passes::syntax_eq::{same_expr, same_type};
use pal_passes::text::{rope_string, sym, IntValue, Text};
use std::rc::Rc;

fn loc_at(line: u32) -> Loc {
    Rc::new(SourceInfo {
        location: Location {
            file_name: Rc::new("/work/a.c".to_string()),
            range: Range {
                start: Position { line, character: 1 },
                end: Position { line, character: 9 },
            },
        },
    })
}

fn loc() -> Loc {
    loc_at(1)
}

fn id(s: &str) -> Rc<Ident> {
    Rc::new(Ident { val: sym(s), loc: loc() })
}

fn ty(t: TypeT) -> Rc<Type> {
    Rc::new(Type { loc: loc(), val: t })
}

fn int32() -> Rc<Type> {
    ty(TypeT::Int { signed: true, width: 32 })
}

fn uint32() -> Rc<Type> {
    ty(TypeT::Int { signed: false, width: 32 })
}

fn ptr(t: Rc<Type>, k: PointerKind) -> Rc<Type> {
    ty(TypeT::Pointer(t, k))
}

fn struct_ty(n: &str) -> Rc<Type> {
    ty(TypeT::TypeRef(TypeRefKind::Struct(id(n))))
}

fn typedef_ty(n: &str) -> Rc<Type> {
    ty(TypeT::TypeRef(TypeRefKind::Typedef(id(n))))
}

fn ex(e: ExprT) -> Rc<Expr> {
    Rc::new(Expr { loc: loc(), val: e })
}

fn var(n: &str) -> Rc<Expr> {
    ex(ExprT::Var(id(n)))
}

fn num(n: i64, t: Rc<Type>) -> Rc<Expr> {
    ex(ExprT::IntLit(Rc::new(IntValue::Small(n)), t))
}

fn boolean(b: bool) -> Rc<Expr> {
    ex(ExprT::BoolLit(b))
}

fn call(f: &str, args: Vec<Rc<Expr>>) -> Rc<Expr> {
    ex(ExprT::FnCall(id(f), list(args)))
}

fn add(a: Rc<Expr>, b: Rc<Expr>) -> Rc<Expr> {
    ex(ExprT::BinOp(BinOp::Add, a, b))
}

fn eq(a: Rc<Expr>, b: Rc<Expr>) -> Rc<Expr> {
    ex(ExprT::BinOp(BinOp::Eq, a, b))
}

fn st(s: StmtT) -> Rc<Stmt> {
    Rc::new(Stmt { loc: loc(), val: s })
}

fn goto(l: &str) -> Rc<Stmt> {
    st(StmtT::Goto(id(l)))
}

fn label(l: &str) -> Rc<Stmt> {
    st(StmtT::Label { name: id(l), ensures_: list(vec![]) })
}

fn call_stmt(f: &str) -> Rc<Stmt> {
    st(StmtT::Call(call(f, vec![])))
}

fn list<X>(v: Vec<Rc<X>>) -> Rc<List<X>> {
    List::from_vec(&v)
}

fn arg(n: &str, t: Rc<Type>) -> Rc<FnArg> {
    Rc::new(FnArg { name: Some(id(n)), ty: t, mode: ParamMode::Regular })
}

struct Sig {
    name: &'static str,
    args: Vec<Rc<FnArg>>,
    ret: Rc<Type>,
    requires: Vec<Rc<Expr>>,
    ensures: Vec<Rc<Expr>>,
    ghosts: Vec<Rc<GhostArg>>,
}

fn sig(name: &'static str, args: Vec<Rc<FnArg>>, ret: Rc<Type>) -> Sig {
    Sig { name, args, ret, requires: vec![], ensures: vec![], ghosts: vec![] }
}

fn fn_decl(s: Sig) -> Rc<FnDecl> {
    Rc::new(FnDecl {
        name: id(s.name),
        ret_type: s.ret,
        args: list(s.args),
        ghost_args: list(s.ghosts),
        requires_: list(s.requires),
        ensures_: list(s.ensures),
        is_pure: false,
        is_rec: false,
        is_total: false,
        decreases_: None,
    })
}

fn decl(d: DeclT) -> Rc<Decl> {
    Rc::new(Decl { loc: loc(), val: d })
}

fn defn(s: Sig, body: Vec<Rc<Stmt>>) -> Rc<Decl> {
    decl(DeclT::FnDefn(Rc::new(FnDefn { decl: fn_decl(s), body: list(body) })))
}

fn declared(s: Sig) -> Rc<Decl> {
    decl(DeclT::FnDecl(fn_decl(s)))
}

fn field(n: &str, t: Rc<Type>) -> Rc<Field> {
    Rc::new(Field { loc: loc(), val: FieldT::Plain { name: id(n), ty: t } })
}

fn struct_defn(n: &str, fields: Vec<Rc<Field>>) -> Rc<Decl> {
    decl(DeclT::StructDefn(Rc::new(StructDefn {
        name: id(n),
        refines: struct_ty(n),
        fields: list(fields),
        eager_unfold_pred: false,
    })))
}

fn typedef(n: &str, t: Rc<Type>) -> Rc<Decl> {
    decl(DeclT::Typedef(Rc::new(TypeDefn { name: id(n), body: t, is_pointer_view: false })))
}

fn view(n: &str, t: Rc<Type>) -> Rc<Decl> {
    decl(DeclT::Typedef(Rc::new(TypeDefn { name: id(n), body: t, is_pointer_view: true })))
}

fn global(n: &str, init: Option<Rc<Expr>>, is_pure: bool, is_external: bool) -> Rc<Decl> {
    decl(DeclT::GlobalVar(Rc::new(GlobalVar {
        name: id(n),
        ty: int32(),
        init,
        is_pure,
        is_external,
        opaque_to_smt: false,
        is_enum_constant: false,
    })))
}

fn unit(decls: Vec<Rc<Decl>>) -> TranslationUnit {
    TranslationUnit { decls }
}

fn messages(d: &Diagnostics) -> Vec<String> {
    d.to_vec().iter().map(|m| rope_string(&m.msg)).collect()
}

fn kind_and_name(d: &Rc<Decl>) -> String {
    match &d.val {
        DeclT::FnDefn(f) => format!("defn {}", rope_string(&f.decl.name.val)),
        DeclT::FnDecl(f) => format!("decl {}", rope_string(&f.name.val)),
        DeclT::Typedef(t) => format!("typedef {}", rope_string(&t.name.val)),
        DeclT::StructDefn(s) => format!("struct {}", rope_string(&s.name.val)),
        DeclT::StructDecl(n) => format!("structdecl {}", rope_string(&n.val)),
        DeclT::GlobalVar(g) => format!("global {}", rope_string(&g.name.val)),
        _ => "other".to_string(),
    }
}

fn names(tu: &TranslationUnit) -> Vec<String> {
    tu.decls.iter().map(kind_and_name).collect()
}

fn body_of(tu: &TranslationUnit, i: usize) -> Vec<Rc<Stmt>> {
    match &tu.decls[i].val {
        DeclT::FnDefn(f) => List::to_vec(&f.body),
        _ => panic!("not a definition"),
    }
}

fn shape(s: &Rc<Stmt>) -> String {
    match &s.val {
        StmtT::Goto(l) => format!("goto {}", rope_string(&l.val)),
        StmtT::Label { name, .. } => format!("label {}", rope_string(&name.val)),
        StmtT::Call(_) => "call".to_string(),
        StmtT::If { then_branch, else_branch, .. } => {
            format!("if [{}] [{}]", shapes(&List::to_vec(then_branch)), shapes(&List::to_vec(else_branch)))
        }
        StmtT::While { body, .. } => format!("while [{}]", shapes(&List::to_vec(body))),
        StmtT::GotoBlock { body, label, .. } => {
            format!("block {} [{}]", rope_string(&label.val), shapes(&List::to_vec(body)))
        }
        StmtT::Match { branches, default_branch, .. } => {
            let b: Vec<String> = List::to_vec(branches).iter().map(|b| shapes(&List::to_vec(&b.body))).collect();
            format!("match [{}] [{}]", b.join(" | "), shapes(&List::to_vec(default_branch)))
        }
        StmtT::Return(_) => "return".to_string(),
        StmtT::Assign(_, _) => "assign".to_string(),
        _ => "other".to_string(),
    }
}

fn shapes(l: &[Rc<Stmt>]) -> String {
    l.iter().map(shape).collect::<Vec<String>>().join("; ")
}

fn if_stmt(c: Rc<Expr>, a: Vec<Rc<Stmt>>, b: Vec<Rc<Stmt>>) -> Rc<Stmt> {
    st(StmtT::If { cond: c, then_branch: list(a), else_branch: list(b), ensures_: list(vec![]) })
}

fn while_stmt(c: Rc<Expr>, body: Vec<Rc<Stmt>>) -> Rc<Stmt> {
    st(StmtT::While {
        cond: c,
        inv: list(vec![]),
        requires_: list(vec![]),
        ensures_: list(vec![]),
        body: list(body),
    })
}

fn restructured(body: Vec<Rc<Stmt>>) -> (String, Vec<String>) {
    let mut diags = Diagnostics::new();
    let mut tu = unit(vec![defn(sig("f", vec![], ty(TypeT::Void)), body)]);
    restructure_goto(&mut diags, &mut tu);
    (shapes(&body_of(&tu, 0)), messages(&diags))
}

#[test]
fn a_forward_goto_becomes_a_block_exit() {
    let (s, d) = restructured(vec![
        call_stmt("a"),
        if_stmt(boolean(true), vec![goto("out")], vec![]),
        call_stmt("b"),
        label("out"),
        call_stmt("c"),
    ]);
    assert_eq!(s, "call; block out [if [goto out] []; call]; call");
    assert!(d.is_empty());
}

#[test]
fn labels_nest_from_the_last_to_the_first() {
    let (s, d) = restructured(vec![
        goto("a"),
        call_stmt("x"),
        label("a"),
        goto("b"),
        label("b"),
    ]);
    assert_eq!(s, "block a [goto a; call]; block b [goto b]");
    assert!(d.is_empty());
    let (s, d) = restructured(vec![goto("b"), goto("a"), label("a"), call_stmt("x"), label("b")]);
    assert_eq!(s, "block b [goto b; block a [goto a]; call]");
    assert!(d.is_empty());
}

#[test]
fn a_label_without_a_goto_stays() {
    let (s, d) = restructured(vec![call_stmt("x"), label("l"), call_stmt("y")]);
    assert_eq!(s, "call; label l; call");
    assert!(d.is_empty());
}

#[test]
fn gotos_that_leave_no_innermost_block_are_reported() {
    let (s, d) = restructured(vec![label("top"), goto("top")]);
    assert_eq!(s, "label top; goto top");
    assert_eq!(d, vec!["unsupported goto to `top`: only a jump to the closest following label of the enclosing block is supported"]);
    let (s, d) = restructured(vec![
        while_stmt(boolean(true), vec![goto("b"), goto("a"), call_stmt("x"), label("a")]),
        label("b"),
    ]);
    assert_eq!(s, "block b [while [goto b; block a [goto a; call]]]");
    assert!(d.is_empty());
    let (s, d) = restructured(vec![goto("a"), goto("b"), label("a"), label("b")]);
    assert_eq!(s, "goto a; block b [goto b; label a]");
    assert_eq!(d.len(), 1);
}

#[test]
fn declarations_are_kept_once_where_they_came_first() {
    let mut diags = Diagnostics::new();
    let mut tu = unit(vec![
        typedef("t", int32()),
        typedef("u", int32()),
        typedef("t", uint32()),
        declared(sig("f", vec![], int32())),
        declared(sig("f", vec![], int32())),
    ]);
    merge(&mut diags, &mut tu);
    assert_eq!(names(&tu), vec!["typedef t", "typedef u", "decl f"]);
    match &tu.decls[0].val {
        DeclT::Typedef(t) => assert!(same_type(&t.body, &uint32())),
        _ => panic!("typedef"),
    }
    assert!(messages(&diags).is_empty());
}

#[test]
fn globals_are_merged_field_by_field() {
    let mut diags = Diagnostics::new();
    let mut tu = unit(vec![global("g", Some(num(1, int32())), true, false), global("g", None, false, true)]);
    merge(&mut diags, &mut tu);
    assert_eq!(tu.decls.len(), 1);
    match &tu.decls[0].val {
        DeclT::GlobalVar(g) => {
            assert!(g.init.is_some());
            assert!(g.is_pure);
            assert!(!g.is_external);
        }
        _ => panic!("global"),
    }
}

#[test]
fn a_definition_takes_the_contract_and_the_place_of_its_declaration() {
    let mut diags = Diagnostics::new();
    let mut s = sig("f", vec![arg("n", int32())], int32());
    s.requires = vec![eq(var("n"), num(0, int32()))];
    s.ghosts = vec![Rc::new(GhostArg { name: id("gh"), ty: int32() })];
    let mut tu = unit(vec![
        declared(s),
        declared(sig("g", vec![], int32())),
        defn(sig("f", vec![arg("m", int32())], int32()), vec![]),
    ]);
    merge(&mut diags, &mut tu);
    assert_eq!(names(&tu), vec!["defn f", "decl g"]);
    match &tu.decls[0].val {
        DeclT::FnDefn(f) => {
            let r = List::to_vec(&f.decl.requires_);
            assert_eq!(r.len(), 1);
            assert!(same_expr(&r[0], &eq(var("m"), num(0, int32()))));
            assert_eq!(List::to_vec(&f.decl.ghost_args).len(), 1);
        }
        _ => panic!("definition"),
    }
    assert!(messages(&diags).is_empty());
}

#[test]
fn contradictions_between_declarations_are_reported() {
    let with_spec = |n: i64| {
        let mut s = sig("f", vec![arg("n", int32())], int32());
        s.requires = vec![eq(var("n"), num(n, int32()))];
        s
    };
    let plain = || sig("f", vec![arg("n", int32())], int32());
    let run = |decls: Vec<Rc<Decl>>| {
        let mut diags = Diagnostics::new();
        let mut tu = unit(decls);
        merge(&mut diags, &mut tu);
        (messages(&diags), names(&tu))
    };
    assert_eq!(
        run(vec![declared(with_spec(0)), declared(with_spec(1))]).0,
        vec!["multiple declarations of f have differing specifications"]
    );
    assert_eq!(
        run(vec![declared(sig("f", vec![], int32())), defn(plain(), vec![])]),
        (
            vec!["declaration of f has different types than its definition".to_string()],
            vec!["decl f".to_string(), "defn f".to_string()]
        )
    );
    assert_eq!(
        run(vec![declared(plain()), defn(with_spec(0), vec![])]).0,
        vec!["definition of f has specifications, but its declaration does not; specifications should be on the declaration"]
    );
    assert_eq!(
        run(vec![declared(with_spec(0)), defn(with_spec(1), vec![])]).0,
        vec!["declaration and definition of f have differing specifications"]
    );
    let ghost = |n: &str| Rc::new(GhostArg { name: id(n), ty: int32() });
    let mut a = with_spec(0);
    a.ghosts = vec![ghost("p"), ghost("q")];
    let mut b = plain();
    b.ghosts = vec![ghost("p")];
    assert_eq!(
        run(vec![declared(a), defn(b, vec![])]).0,
        vec!["declaration of f lists 2 ghost argument(s) but its definition lists 1; they must match (or the definition may omit them entirely to inherit the declaration's)"]
    );
}

#[test]
fn type_definitions_come_before_what_refers_to_them() {
    let mut diags = Diagnostics::new();
    let mut tu = unit(vec![
        struct_defn("outer", vec![field("i", struct_ty("inner"))]),
        declared(sig("f", vec![arg("x", typedef_ty("t"))], int32())),
        struct_defn("inner", vec![field("x", int32())]),
        typedef("t", int32()),
    ]);
    merge(&mut diags, &mut tu);
    assert_eq!(names(&tu), vec!["struct inner", "struct outer", "typedef t", "decl f"]);
    // A cycle leaves the order alone, and a raw pointer makes none.
    let mut tu = unit(vec![
        struct_defn("a", vec![field("b", ptr(struct_ty("b"), PointerKind::Ref))]),
        struct_defn("b", vec![field("a", ptr(struct_ty("a"), PointerKind::Ref))]),
    ]);
    merge(&mut diags, &mut tu);
    assert_eq!(names(&tu), vec!["struct a", "struct b"]);
    let mut tu = unit(vec![
        struct_defn("a", vec![field("b", ptr(struct_ty("b"), PointerKind::Core))]),
        struct_defn("b", vec![field("x", int32())]),
    ]);
    merge(&mut diags, &mut tu);
    assert_eq!(names(&tu), vec!["struct a", "struct b"]);
}

#[test]
fn a_struct_definition_moves_to_its_declaration() {
    let mut diags = Diagnostics::new();
    let mut tu = unit(vec![
        decl(DeclT::StructDecl(id("s"))),
        declared(sig("f", vec![], int32())),
        struct_defn("s", vec![field("x", int32())]),
    ]);
    merge(&mut diags, &mut tu);
    assert_eq!(names(&tu), vec!["struct s", "decl f"]);
}

fn assumptions() -> TranslationUnit {
    let mut with_spec = sig("specced", vec![], int32());
    with_spec.ensures = vec![boolean(true)];
    unit(vec![
        declared(with_spec),
        declared(sig("rare", vec![], int32())),
        declared(sig("often", vec![], int32())),
        declared(sig("also", vec![], int32())),
        declared(sig("__pal_anchor", vec![], int32())),
        decl(DeclT::StructDecl(id("hidden"))),
        defn(
            sig("main", vec![], int32()),
            vec![call_stmt("often"), call_stmt("often"), st(StmtT::Call(call("rare", vec![call("specced", vec![])])))],
        ),
    ])
}

#[test]
fn assumptions_are_sorted_by_need() {
    let r = collect(&assumptions());
    let got: Vec<(String, u64, bool)> =
        r.assumed_fns.iter().map(|f| (rope_string(&f.name), f.call_sites, f.has_spec)).collect();
    assert_eq!(
        got,
        vec![
            ("often".to_string(), 2, false),
            ("rare".to_string(), 1, false),
            ("also".to_string(), 0, false),
            ("specced".to_string(), 1, true),
        ]
    );
    assert_eq!(r.opaque_types.len(), 1);
    assert!(!r.is_empty());
    assert!(collect(&unit(vec![])).is_empty());
}

#[test]
fn the_summary_names_every_bare_function() {
    let r = collect(&assumptions());
    let s = r.to_stderr_summary(&Some(sym("/work")));
    assert_eq!(
        s,
        "note: 4 function(s) have no body and are assumed (1 with a user spec, trusted as axioms)\n\
         note: 3 of them have NO specification — callers learn nothing about their result beyond default ownership:\n\
         \x20       often (a.c:1, 2 call sites)\n\
         \x20       rare (a.c:1, 1 call site)\n\
         \x20       also (a.c:1, 0 call sites)\n\
         note: 1 opaque type(s) with unknown layout (ownership predicate assumed):\n\
         \x20       struct hidden (a.c:1)\n"
    );
    let s = collect(&unit(vec![])).to_stderr_summary(&None);
    assert_eq!(s, "note: 0 function(s) have no body and are assumed\n");
}

#[test]
fn the_markdown_has_a_table_for_each_kind() {
    let r = collect(&assumptions());
    let m = r.to_markdown(&None);
    assert!(m.starts_with("# Translation assumptions\n\nDeclarations without a definition"));
    assert!(m.contains("\n## Functions assumed with NO specification (3)\n\nOnly the default"));
    assert!(m.contains("| `often` | /work/a.c:1 | 2 |  |\n"));
    assert!(m.contains("\n## Functions assumed with a user specification (1)\n\nTrusted as axioms — the spec"));
    assert!(m.ends_with("| type | declared at |\n|---|---|\n| `struct hidden` | /work/a.c:1 |\n"));
}

fn checked(decls: Vec<Rc<Decl>>, types: bool) -> Vec<String> {
    let mut diags = Diagnostics::new();
    let tu = unit(decls);
    check(&mut diags, &tu, &sym("elab"), types);
    for d in diags.to_vec() {
        assert_eq!(rope_string(d.pass.as_ref().unwrap()), "elab");
    }
    messages(&diags)
}

fn checked_body(body: Vec<Rc<Stmt>>) -> Vec<String> {
    checked(vec![defn(sig("f", vec![arg("x", int32()), arg("p", ptr(int32(), PointerKind::Ref))], int32()), body)], true)
}

fn ret(e: Rc<Expr>) -> Rc<Stmt> {
    st(StmtT::Return(Some(e)))
}

fn eval(e: Rc<Expr>) -> Rc<Stmt> {
    st(StmtT::Call(e))
}

#[test]
fn a_well_typed_function_passes() {
    assert!(checked_body(vec![
        st(StmtT::Decl(id("y"), int32())),
        st(StmtT::Assign(var("y"), add(var("x"), ex(ExprT::Deref(var("p")))))),
        while_stmt(boolean(true), vec![st(StmtT::Break), st(StmtT::Continue)]),
        ret(var("y")),
    ])
    .is_empty());
}

#[test]
fn unknown_names_are_reported() {
    assert_eq!(checked_body(vec![eval(var("z"))]), vec!["unknown local variable z"]);
    assert_eq!(checked_body(vec![eval(call("g", vec![]))]), vec!["unknown function g"]);
    assert_eq!(checked_body(vec![eval(ex(ExprT::FnRef(id("g"))))]), vec!["unknown function g"]);
    assert_eq!(checked(vec![typedef("t", typedef_ty("u"))], true), vec!["unknown type u"]);
    assert_eq!(checked(vec![typedef("t", struct_ty("s"))], true), vec!["unknown struct s"]);
    assert_eq!(
        checked(vec![typedef("t", ty(TypeT::TypeRef(TypeRefKind::Union(id("s")))))], true),
        vec!["unknown union s"]
    );
}

#[test]
fn mismatching_types_are_reported() {
    assert_eq!(checked_body(vec![ret(boolean(true))]), vec!["expected type int32, but got true with type _Bool"]);
    assert_eq!(
        checked_body(vec![eval(add(var("x"), boolean(true)))]),
        vec!["binop applied to mismatching types int32 and _Bool"]
    );
    assert_eq!(
        checked_body(vec![eval(ex(ExprT::BinOp(BinOp::Shl, var("x"), var("x"))))]),
        vec!["shift amount must be uint32_t, not int32"]
    );
    assert_eq!(
        checked_body(vec![eval(ex(ExprT::UnOp(UnOp::Not, var("x"))))]),
        vec!["! needs to be applied to bool, not int32"]
    );
    assert_eq!(checked_body(vec![eval(ex(ExprT::Deref(var("x"))))]), vec!["not a pointer type: int32"]);
    assert_eq!(
        checked_body(vec![eval(ex(ExprT::Index(var("p"), var("x"))))]),
        vec!["not an array type: int32 *", "array index must have type SizeT, got: int32"]
    );
    assert_eq!(
        checked_body(vec![eval(ex(ExprT::Member(var("x"), id("m"))))]),
        vec!["not a structure type: int32"]
    );
    assert_eq!(
        checked_body(vec![st(StmtT::Assign(var("x"), boolean(false)))]),
        vec!["expected type int32 got _Bool"]
    );
    assert_eq!(
        checked_body(vec![eval(ex(ExprT::BinOp(BinOp::LogAnd, var("x"), var("x"))))]),
        vec!["&& needs to be applied to bool/slprop, not int32"]
    );
    // Before types are settled only names are checked.
    assert!(checked(vec![defn(sig("f", vec![], int32()), vec![ret(boolean(true))])], false).is_empty());
}

#[test]
fn statements_out_of_place_are_reported() {
    assert_eq!(
        checked_body(vec![st(StmtT::Break), st(StmtT::Continue)]),
        vec!["break outside of loop", "continue outside of loop"]
    );
    assert_eq!(
        checked_body(vec![st(StmtT::Assign(num(1, int32()), num(1, int32())))]),
        vec!["expected lvalue, got 1"]
    );
    assert_eq!(
        checked_body(vec![eval(ex(ExprT::Ref(num(1, int32()))))]),
        vec!["expected lvalue for &, got 1"]
    );
}

#[test]
fn calls_and_initializers_are_checked() {
    let s = struct_defn("s", vec![field("a", int32())]);
    let f = declared(sig("g", vec![arg("x", int32())], int32()));
    let body = vec![
        eval(call("g", vec![])),
        eval(call("g", vec![boolean(true)])),
        eval(ex(ExprT::StructInit(
            id("s"),
            list(vec![
                Rc::new(FieldInit { name: id("a"), value: num(1, int32()) }),
                Rc::new(FieldInit { name: id("b"), value: num(1, int32()) }),
            ]),
        ))),
        eval(ex(ExprT::Member(ex(ExprT::Deref(var("q"))), id("b")))),
    ];
    let d = defn(sig("f", vec![arg("q", ptr(struct_ty("s"), PointerKind::Ref))], int32()), body);
    assert_eq!(
        checked(vec![s, f, d], true),
        vec![
            "incorrect number of arguments, expected 1, got 0",
            "expected type int32, but got true with type _Bool",
            "struct s has 1 fields, but 2 were given",
            "no field b in struct s",
            "no field b in structure s",
        ]
    );
}

#[test]
fn an_error_is_not_reported_twice() {
    assert!(checked_body(vec![eval(add(ex(ExprT::Error(int32())), boolean(true)))]).is_empty());
}

fn elaborated(decls: Vec<Rc<Decl>>) -> (TranslationUnit, Vec<String>) {
    let mut diags = Diagnostics::new();
    let mut tu = unit(decls);
    elab(&mut diags, &mut tu);
    let m = messages(&diags);
    (tu, m)
}

fn first_call(tu: &TranslationUnit, i: usize) -> Rc<Expr> {
    for s in body_of(tu, i) {
        if let StmtT::Call(e) = &s.val {
            return e.clone();
        }
    }
    panic!("no call")
}

fn elaborated_expr(args: Vec<Rc<FnArg>>, e: Rc<Expr>) -> (String, Vec<String>) {
    let (tu, m) = elaborated(vec![defn(sig("f", args, ty(TypeT::Void)), vec![eval(e)])]);
    (rope_string(&show_expr(&first_call(&tu, 0))), m)
}

#[test]
fn operands_are_converted_to_their_common_type() {
    let args = || vec![arg("x", int32()), arg("b", ty(TypeT::Bool)), arg("n", ty(TypeT::SizeT))];
    assert_eq!(elaborated_expr(args(), add(var("x"), var("b"))), ("(x + (int32)b)".to_string(), vec![]));
    assert_eq!(
        elaborated_expr(args(), add(var("b"), var("b"))),
        ("((int32)b + (int32)b)".to_string(), vec![])
    );
    assert_eq!(
        elaborated_expr(args(), ex(ExprT::BinOp(BinOp::LogAnd, var("x"), var("b")))),
        ("((_Bool)x && b)".to_string(), vec![])
    );
    assert_eq!(
        elaborated_expr(args(), ex(ExprT::BinOp(BinOp::Shl, var("x"), var("x")))),
        ("(x << (uint32)x)".to_string(), vec![])
    );
    assert_eq!(
        elaborated_expr(args(), ex(ExprT::UnOp(UnOp::Not, var("x")))),
        ("(!(_Bool)x)".to_string(), vec![])
    );
    assert_eq!(elaborated_expr(args(), eq(var("x"), var("n"))), ("((size_t)x == n)".to_string(), vec![]));
}

#[test]
fn the_address_of_a_cell_is_a_sum() {
    let a = || arg("a", ptr(int32(), PointerKind::Array));
    let cell = || ex(ExprT::Ref(ex(ExprT::Index(var("a"), num(3, int32())))));
    assert_eq!(elaborated_expr(vec![a()], cell()), ("(a + (size_t)3)".to_string(), vec![]));
    // Where a pointer to one object is expected, the cell is borrowed instead.
    let g = declared(sig("g", vec![arg("p", ptr(int32(), PointerKind::Unknown))], ty(TypeT::Void)));
    let f = defn(sig("f", vec![a()], ty(TypeT::Void)), vec![eval(call("g", vec![cell()]))]);
    let (tu, m) = elaborated(vec![g, f]);
    assert_eq!(rope_string(&show_expr(&first_call(&tu, 1))), "g((&a[(size_t)3]))");
    assert!(m.is_empty());
}

#[test]
fn null_takes_the_type_of_the_pointer() {
    let p = || arg("p", ptr(int32(), PointerKind::Unknown));
    let (tu, m) = elaborated(vec![defn(
        sig("f", vec![p()], ty(TypeT::Void)),
        vec![eval(eq(var("p"), num(0, ty(TypeT::SpecInt))))],
    )]);
    assert!(m.is_empty());
    match &first_call(&tu, 0).val {
        ExprT::BinOp(BinOp::Eq, _, r) => match &r.val {
            ExprT::IntLit(_, t) => assert!(same_type(t, &ptr(int32(), PointerKind::Ref))),
            _ => panic!("literal"),
        },
        _ => panic!("equality"),
    }
}

#[test]
fn pointer_kinds_are_settled() {
    let (tu, _) = elaborated(vec![
        typedef("p", ptr(int32(), PointerKind::Unknown)),
        typedef("v", ptr(ty(TypeT::Void), PointerKind::Unknown)),
        typedef("a", ptr(int32(), PointerKind::Array)),
    ]);
    let body = |i: usize| match &tu.decls[i].val {
        DeclT::Typedef(t) => t.body.clone(),
        _ => panic!("typedef"),
    };
    assert!(same_type(&body(0), &ptr(int32(), PointerKind::Ref)));
    assert!(same_type(&body(1), &ptr(ty(TypeT::Void), PointerKind::Core)));
    assert!(same_type(&body(2), &ptr(int32(), PointerKind::Array)));
}

#[test]
fn a_declaration_takes_the_kind_of_its_first_assignment() {
    let size = num(10, ty(TypeT::SizeT));
    let (tu, m) = elaborated(vec![defn(
        sig("f", vec![], ty(TypeT::Void)),
        vec![
            st(StmtT::Decl(id("a"), ptr(int32(), PointerKind::Unknown))),
            st(StmtT::Assign(var("a"), ex(ExprT::MallocArray(int32(), size)))),
        ],
    )]);
    assert!(m.is_empty());
    match &body_of(&tu, 0)[0].val {
        StmtT::Decl(_, t) => assert!(same_type(t, &ptr(int32(), PointerKind::Array))),
        _ => panic!("declaration"),
    }
}

#[test]
fn views_replace_plain_pointers() {
    let node = || struct_defn("node", vec![field("x", int32())]);
    let (tu, m) = elaborated(vec![
        node(),
        view("node_view", ptr(struct_ty("node"), PointerKind::Unknown)),
        declared(sig("f", vec![arg("p", ptr(struct_ty("node"), PointerKind::Unknown))], ty(TypeT::Void))),
        declared(sig("g", vec![arg("p", ty(TypeT::Plain(ptr(struct_ty("node"), PointerKind::Unknown))))], ty(TypeT::Void))),
    ]);
    assert!(m.is_empty());
    let arg_ty = |i: usize| match &tu.decls[i].val {
        DeclT::FnDecl(f) => List::to_vec(&f.args)[0].ty.clone(),
        _ => panic!("declaration"),
    };
    assert!(same_type(&arg_ty(2), &typedef_ty("node_view")));
    assert!(same_type(&arg_ty(3), &ty(TypeT::Plain(ptr(struct_ty("node"), PointerKind::Ref)))));
    let (_, m) = elaborated(vec![
        node(),
        view("a", ptr(struct_ty("node"), PointerKind::Unknown)),
        view("b", ptr(struct_ty("node"), PointerKind::Unknown)),
        view("c", int32()),
    ]);
    assert_eq!(
        m,
        vec![
            "duplicate _pointer_view for the same pointee: `b` conflicts with `a`",
            "_pointer_view typedef `c` must be a pointer to a named type",
        ]
    );
}

#[test]
fn fields_are_found_through_anonymous_members() {
    let decls = |e: Rc<Expr>| {
        vec![
            struct_defn("inner", vec![field("x", int32())]),
            struct_defn("outer", vec![field("_unnamed0", struct_ty("inner"))]),
            defn(sig("f", vec![arg("o", struct_ty("outer"))], ty(TypeT::Void)), vec![eval(e)]),
        ]
    };
    let (tu, m) = elaborated(decls(ex(ExprT::Member(var("o"), id("x")))));
    assert!(m.is_empty());
    assert_eq!(rope_string(&show_expr(&first_call(&tu, 2))), "o._unnamed0.x");
    let (_, m) = elaborated(decls(ex(ExprT::Member(var("o"), id("y")))));
    assert_eq!(m, vec!["no field y in structure outer"]);
}

#[test]
fn conditional_expressions_become_statements() {
    let cond = ex(ExprT::Cond(var("x"), num(1, int32()), num(2, int32())));
    let (tu, m) = elaborated(vec![defn(sig("f", vec![arg("x", int32())], int32()), vec![ret(cond)])]);
    assert!(m.is_empty());
    assert_eq!(shapes(&body_of(&tu, 0)), "if [return] [return]");
}

#[test]
fn string_literals_are_padded_with_zeros() {
    let char_ty = || ty(TypeT::Int { signed: true, width: 8 });
    let init = ex(ExprT::ArrayInit { elem_ty: char_ty(), elems: list(vec![num(104, char_ty()), num(0, char_ty())]), is_static: true });
    let (tu, m) = elaborated(vec![defn(
        sig("f", vec![], ty(TypeT::Void)),
        vec![
            st(StmtT::Decl(id("s"), ty(TypeT::FixedArray(char_ty(), 4)))),
            st(StmtT::Assign(var("s"), init)),
        ],
    )]);
    assert!(m.is_empty());
    match &body_of(&tu, 0)[1].val {
        StmtT::Assign(_, v) => assert_eq!(rope_string(&show_expr(v)), "{104, 0, 0, 0}"),
        _ => panic!("assignment"),
    }
}

#[test]
fn whole_structs_with_a_flexible_tail_are_not_assigned() {
    let vec_ty = || struct_ty("vec");
    let (_, m) = elaborated(vec![
        struct_defn("vec", vec![field("len", int32()), field("data", ty(TypeT::FlexArray(int32())))]),
        defn(
            sig("f", vec![arg("a", ptr(vec_ty(), PointerKind::Ref)), arg("b", ptr(vec_ty(), PointerKind::Ref))], ty(TypeT::Void)),
            vec![st(StmtT::Assign(ex(ExprT::Deref(var("a"))), ex(ExprT::Deref(var("b")))))],
        ),
    ]);
    assert_eq!(m.len(), 1);
    assert!(m[0].starts_with("assignment of a struct with a flexible array member is not supported"));
}

#[test]
fn texts_can_be_shared() {
    let t: Text = sym("shared");
    assert_eq!(rope_string(&t), "shared");
}

#[test]
fn every_forward_goto_is_found_however_deep() {
    let (s, d) = restructured(vec![while_stmt(
        boolean(true),
        vec![if_stmt(boolean(true), vec![goto("a"), call_stmt("g"), label("a"), goto("b")], vec![]), label("b"), label("c")],
    )]);
    assert_eq!(s, "while [block b [if [block a [goto a; call]; goto b] []]; label c]");
    assert_eq!(d, Vec::<String>::new());
}

#[test]
fn a_pass_keeps_earlier_messages() {
    let mut diags = Diagnostics::new();
    let mut tu = unit(vec![defn(sig("f", vec![], ty(TypeT::Void)), vec![goto("a"), eval(var("x"))])]);
    restructure_goto(&mut diags, &mut tu);
    check(&mut diags, &tu, &sym("goto"), false);
    assert_eq!(
        messages(&diags),
        vec![
            "unsupported goto to `a`: only a jump to the closest following label of the enclosing block is supported",
            "unknown local variable x",
        ]
    );
    assert!(diags.to_vec()[0].pass.is_none());
    assert_eq!(diags.to_vec()[1].pass.as_ref().map(rope_string), Some("goto".to_string()));
}

#[test]
fn repeated_declarations_are_no_error() {
    let mut s = sig("f", vec![arg("x", int32())], int32());
    s.requires = vec![eq(var("x"), num(1, int32()))];
    let f = declared(s);
    let g = global("g", Some(num(1, int32())), true, false);
    let mut diags = Diagnostics::new();
    let mut tu = unit(vec![f.clone(), g.clone(), f.clone(), g.clone(), f, g]);
    merge(&mut diags, &mut tu);
    assert_eq!(names(&tu), vec!["decl f", "global g"]);
    assert_eq!(messages(&diags), Vec::<String>::new());
}

#[test]
fn nothing_is_declared_beside_its_definition() {
    let structdecl = |n: &str| decl(DeclT::StructDecl(id(n)));
    let mut diags = Diagnostics::new();
    let mut tu = unit(vec![
        declared(sig("f", vec![], int32())),
        structdecl("s"),
        structdecl("opaque"),
        defn(sig("f", vec![], int32()), vec![]),
        struct_defn("s", vec![]),
        declared(sig("g", vec![], int32())),
        defn(sig("h", vec![], int32()), vec![]),
        declared(sig("h", vec![], int32())),
        declared(sig("k", vec![], int32())),
        defn(sig("k", vec![], uint32()), vec![]),
    ]);
    merge(&mut diags, &mut tu);
    assert_eq!(names(&tu), vec!["defn f", "struct s", "structdecl opaque", "decl g", "defn h", "decl k", "defn k"]);
    assert_eq!(messages(&diags), vec!["declaration of k has different types than its definition"]);
}

#[test]
fn elaboration_keeps_declarations() {
    let decls = vec![
        typedef("t", ptr(int32(), PointerKind::Unknown)),
        struct_defn("s", vec![field("x", typedef_ty("t"))]),
        declared(sig("f", vec![arg("p", struct_ty("s"))], int32())),
        global("g", None, false, true),
    ];
    let (tu, m) = elaborated(decls);
    assert_eq!(names(&tu), vec!["typedef t", "struct s", "decl f", "global g"]);
    assert_eq!(m, Vec::<String>::new());
}

#[test]
fn typedefs_and_refinements_are_seen_through() {
    let refined = ty(TypeT::Refine(typedef_ty("u"), boolean(true)));
    let env = push_decls(
        &empty_env(),
        &list(vec![typedef("t", ty(TypeT::Nullable(refined))), typedef("u", int32())]),
    );
    let w = vtype_whnf(&env, &typedef_ty("t"));
    assert!(same_type(&w, &int32()));
    assert!(same_type(&vtype_whnf(&env, &w), &w));
    assert!(vtype_eq(&env, &typedef_ty("t"), &int32()));
    assert!(vtype_eq(&env, &int32(), &typedef_ty("t")));
    assert!(!vtype_eq(&env, &typedef_ty("t"), &uint32()));
    assert!(!vtype_eq(&env, &uint32(), &typedef_ty("t")));
}

#[test]
fn renaming_spares_bound_names() {
    let r = list(vec![Rc::new(Rename { from: sym("x"), to: id("y") })]);
    let e = add(var("x"), var("z"));
    assert!(same_expr(&rename_expr(&e, &r), &add(var("y"), var("z"))));
    assert!(same_expr(&rename_expr(&e, &list(vec![])), &e));
    let bound = ex(ExprT::Forall(id("x"), int32(), eq(var("x"), num(1, int32()))));
    assert!(same_expr(&rename_expr(&bound, &r), &bound));
}

fn match_stmt(branches: Vec<Vec<Rc<Stmt>>>, default: Vec<Rc<Stmt>>) -> Rc<Stmt> {
    let one = |body: Vec<Rc<Stmt>>| Rc::new(Branch { patterns: list(vec![num(1, int32())]), body: list(body) });
    st(StmtT::Match {
        scrutinee: var("x"),
        branches: list(branches.into_iter().map(one).collect()),
        default_branch: list(default),
        ensures_: list(vec![]),
    })
}

#[test]
fn gotos_in_a_match_are_seen() {
    let d = check_gotos_stmt(nil(), &match_stmt(vec![], vec![goto("l")]), &None);
    let d = List::to_vec(&d);
    assert_eq!(d.len(), 1);
    assert_eq!(
        rope_string(&d[0].msg),
        "unsupported goto to `l`: only a jump to the closest following label of the enclosing block is supported"
    );
    let (s, d) = restructured(vec![match_stmt(vec![vec![goto("a")], vec![]], vec![call_stmt("g")]), label("a")]);
    assert_eq!(s, "block a [match [goto a | ] [call]]");
    assert!(d.is_empty());
    let (s, d) = restructured(vec![match_stmt(vec![vec![goto("a"), call_stmt("g"), label("a")]], vec![goto("b"), label("b")])]);
    assert_eq!(s, "match [block a [goto a; call]] [block b [goto b]]");
    assert!(d.is_empty());
    let (_, d) = restructured(vec![match_stmt(vec![vec![goto("nowhere")]], vec![])]);
    assert_eq!(d.len(), 1);
}

#[test]
fn restructuring_twice_is_restructuring_once() {
    let mut diags = Diagnostics::new();
    let body = vec![goto("b"), if_stmt(boolean(true), vec![goto("a")], vec![]), label("a"), goto("a"), label("b")];
    let mut tu = unit(vec![defn(sig("f", vec![], ty(TypeT::Void)), body)]);
    restructure_goto(&mut diags, &mut tu);
    let once = shapes(&body_of(&tu, 0));
    restructure_goto(&mut diags, &mut tu);
    assert_eq!(shapes(&body_of(&tu, 0)), once);
}

#[test]
fn what_a_flexible_array_holds_comes_first() {
    let mut diags = Diagnostics::new();
    let mut tu = unit(vec![
        struct_defn("a", vec![field("len", int32()), field("data", ty(TypeT::FlexArray(struct_ty("b"))))]),
        struct_defn("b", vec![field("x", int32())]),
    ]);
    merge(&mut diags, &mut tu);
    assert_eq!(names(&tu), vec!["struct b", "struct a"]);
    let refs = pal_passes::type_deps::collect_type_refs(&ty(TypeT::FlexArray(struct_ty("b"))), nil());
    assert_eq!(List::to_vec(&refs).iter().map(|k| rope_string(&k.name)).collect::<Vec<String>>(), vec!["b"]);
}

#[test]
fn merging_twice_is_merging_once() {
    let mut diags = Diagnostics::new();
    let mut tu = unit(vec![
        declared(sig("f", vec![arg("p", ptr(struct_ty("s"), PointerKind::Ref))], int32())),
        typedef("t", struct_ty("s")),
        struct_defn("s", vec![field("x", int32())]),
        defn(sig("f", vec![arg("p", ptr(struct_ty("s"), PointerKind::Ref))], int32()), vec![]),
        global("g", None, false, true),
    ]);
    merge(&mut diags, &mut tu);
    let once = names(&tu);
    merge(&mut diags, &mut tu);
    assert_eq!(names(&tu), once);
    assert_eq!(once, vec!["struct s", "defn f", "typedef t", "global g"]);
    assert_eq!(messages(&diags), Vec::<String>::new());
}

#[test]
fn globals_merge_in_any_order() {
    let a = global("g", Some(num(1, int32())), true, false);
    let b = global("g", None, false, true);
    let merged = |l: Vec<Rc<Decl>>| {
        let mut diags = Diagnostics::new();
        let mut tu = unit(l);
        merge(&mut diags, &mut tu);
        assert_eq!(tu.decls.len(), 1);
        match &tu.decls[0].val {
            DeclT::GlobalVar(g) => (g.init.as_ref().map(|e| rope_string(&show_expr(e))), g.is_pure, g.is_external),
            _ => panic!("not a global"),
        }
    };
    assert_eq!(merged(vec![a.clone(), b.clone()]), (Some("1".to_string()), true, false));
    assert_eq!(merged(vec![a.clone(), b.clone()]), merged(vec![b, a]));
}

#[test]
fn paths_are_compared_by_components() {
    let at = |cwd: &str| rope_string(&fmt_loc(&Some(sym(cwd)), &loc_at(7)));
    assert_eq!(at("/"), "work/a.c:7");
    assert_eq!(at("/work"), "a.c:7");
    assert_eq!(at("/work/"), "a.c:7");
    assert_eq!(at("/wor"), "/work/a.c:7");
    assert_eq!(at("/work/a.c"), ":7");
    assert_eq!(rope_string(&fmt_loc(&None, &loc_at(7))), "/work/a.c:7");
}

#[test]
fn a_declared_type_is_elaborated() {
    let mut e = new_elaborator(nil());
    let s = st(StmtT::Decl(id("p"), ptr(int32(), PointerKind::Unknown)));
    match &e.elab_stmt(&empty_env(), &s).val {
        StmtT::Decl(_, t) => assert!(same_type(t, &ptr(int32(), PointerKind::Ref))),
        _ => panic!("not a declaration"),
    }
}

#[test]
fn elaborating_a_type_sets_every_layer() {
    let open = |t| ptr(t, PointerKind::Unknown);
    let t = open(ty(TypeT::FixedArray(open(ty(TypeT::Void)), 3)));
    let mut e = new_elaborator(nil());
    let once = e.elab_type(&empty_env(), &t, 100);
    let set = ptr(ty(TypeT::FixedArray(ptr(ty(TypeT::Void), PointerKind::Core), 3)), PointerKind::Ref);
    assert!(same_type(&once, &set));
    assert!(same_type(&e.elab_type(&empty_env(), &once, 100), &set));
}

#[test]
fn a_failed_inference_has_its_reason() {
    assert_eq!(
        checked_body(vec![eval(ex(ExprT::Deref(ex(ExprT::Member(num(1, int32()), id("m"))))))])
            .iter()
            .filter(|m| m.starts_with("cannot infer type of "))
            .count(),
        1
    );
    let (_, m) = elaborated(vec![defn(sig("f", vec![], int32()), vec![eval(add(var("q"), num(1, int32())))])]);
    assert!(m.iter().any(|m| m.starts_with("cannot infer type of q: unknown variable q\n")));
}

#[test]
fn checking_types_hides_no_message() {
    let decls = || {
        vec![defn(
            sig("f", vec![arg("x", int32())], int32()),
            vec![eval(add(var("x"), boolean(true))), eval(var("unknown")), st(StmtT::Break), ret(boolean(true))],
        )]
    };
    let names_only = checked(decls(), false);
    let both = checked(decls(), true);
    assert_eq!(names_only, vec!["unknown local variable unknown", "break outside of loop"]);
    assert!(both.len() > names_only.len());
    let mut rest = both.iter();
    assert!(names_only.iter().all(|m| rest.any(|n| n == m)));
}

#[test]
fn the_order_of_declarations_does_not_matter_to_a_check() {
    let decls = vec![
        defn(sig("f", vec![arg("x", typedef_ty("t"))], int32()), vec![eval(call("g", vec![])), ret(var("x")), ret(boolean(true))]),
        typedef("t", typedef_ty("u")),
        typedef("u", int32()),
        defn(sig("g", vec![], int32()), vec![eval(var("missing")), eval(call("f", vec![var("global")]))]),
        global("global", None, true, false),
        struct_defn("s", vec![field("next", ptr(struct_ty("s"), PointerKind::Ref)), field("other", struct_ty("nowhere"))]),
    ];
    let sorted = |l: Vec<Rc<Decl>>, types: bool| {
        let mut m = checked(l, types);
        m.sort();
        m
    };
    for types in [false, true] {
        let expected = sorted(decls.clone(), types);
        assert!(expected.contains(&"unknown local variable missing".to_string()));
        assert!(expected.contains(&"unknown struct nowhere".to_string()));
        let mut turned = decls.clone();
        for _ in 0..decls.len() {
            turned.rotate_left(1);
            assert_eq!(sorted(turned.clone(), types), expected);
        }
        turned.reverse();
        assert_eq!(sorted(turned, types), expected);
    }
}
