//! The intermediate representation: C declarations with their annotations.

use crate::list::List;
use crate::text::{
    IntValue, Rope, Text, cat, cat3, cat4, lit, num, same_text, spec_cat, spec_cat3, spec_cat4,
    spec_lit, spec_num, spec_same_text, spec_width_text, width_text,
};
use crate::names::TypeRef;
use crate::merge::Match;
use std::rc::Rc;
use vstd::prelude::*;

verus! {

/// A place in a text, counted from one.
#[derive(Clone, Copy, Debug, PartialEq, Eq, Structural)]
pub struct Position {
    pub line: u32,
    pub character: u32,
}

/// A stretch of a text.
#[derive(Clone, Copy, Debug, PartialEq, Eq, Structural)]
pub struct Range {
    pub start: Position,
    pub end: Position,
}

/// A stretch of a source file.
pub struct Location {
    pub file_name: Rc<String>,
    pub range: Range,
}

/// Where a node of the tree comes from.
pub struct SourceInfo {
    pub location: Location,
}

pub type Loc = Rc<SourceInfo>;

/// A name, where it was written.
pub struct Ident {
    pub val: Text,
    pub loc: Loc,
}

/// What a pointer is known to point to.
#[derive(Clone, Copy, Debug, PartialEq, Eq, Structural)]
pub enum PointerKind {
    Unknown,
    /// One object.
    Ref,
    /// A whole array.
    Array,
    /// A place in an array, without ownership.
    ArrayPtr,
    /// A raw address whose pointee type is erased.
    Core,
}

/// A reference to a named type.
pub enum TypeRefKind {
    Typedef(Rc<Ident>),
    Struct(Rc<Ident>),
    Union(Rc<Ident>),
}

pub struct Type {
    pub loc: Loc,
    pub val: TypeT,
}

pub enum TypeT {
    Void,
    Bool,
    Int { signed: bool, width: u32 },
    Float { width: u32 },
    SizeT,
    PtrdiffT,
    Pointer(Rc<Type>, PointerKind),
    FixedArray(Rc<Type>, u64),
    /// A flexible array member.
    FlexArray(Rc<Type>),
    FnPtr { args: Rc<List<Type>>, ret: Rc<Type> },
    SpecInt,
    SpecNat,
    SLProp,
    TypeRef(TypeRefKind),
    /// A fact that holds of initialized values.
    Refine(Rc<Type>, Rc<Expr>),
    /// A fact that holds of values, initialized or not.
    RefineAlways(Rc<Type>, Rc<Expr>),
    /// A fact that holds of uninitialized values.
    RefineUninit(Rc<Type>, Rc<Expr>),
    /// A fact over a named ghost value.
    RefineValue(Rc<Type>, Rc<Ident>, Rc<Type>, Rc<Expr>),
    /// Without ownership.
    Plain(Rc<Type>),
    Nullable(Rc<Type>),
    Unknown,
    Error,
}

#[derive(Clone, Copy, Debug, PartialEq, Eq, Structural)]
pub enum UnOp {
    Not,
    Neg,
    BitNot,
}

#[derive(Clone, Copy, Debug, PartialEq, Eq, Structural)]
pub enum BinOp {
    Eq,
    LEq,
    Lt,
    LogAnd,
    LogOr,
    Implies,
    Mul,
    Div,
    Mod,
    Add,
    Sub,
    BitAnd,
    BitOr,
    BitXor,
    Shl,
    Shr,
    /// GNU `a ?: b`.
    Elvis,
}

/// A specification attribute of a value.
pub enum VAttr {
    Length,
    Active(Rc<Ident>),
}

pub struct Expr {
    pub loc: Loc,
    pub val: ExprT,
}

/// A field of a record literal.
pub struct FieldInit {
    pub name: Rc<Ident>,
    pub value: Rc<Expr>,
}

pub enum ExprT {
    Var(Rc<Ident>),
    BoolLit(bool),
    IntLit(Rc<IntValue>, Rc<Type>),
    FloatLit(Text, Rc<Type>),
    Deref(Rc<Expr>),
    Ref(Rc<Expr>),
    Member(Rc<Expr>, Rc<Ident>),
    Index(Rc<Expr>, Rc<Expr>),
    VAttr(VAttr, Rc<Expr>),
    UnOp(UnOp, Rc<Expr>),
    BinOp(BinOp, Rc<Expr>, Rc<Expr>),
    AssignExpr(Rc<Expr>, Rc<Expr>),
    Cond(Rc<Expr>, Rc<Expr>, Rc<Expr>),
    FnCall(Rc<Ident>, Rc<List<Expr>>),
    FnRef(Rc<Ident>),
    FnPtrCall(Rc<Expr>, Rc<List<Expr>>),
    Cast(Rc<Expr>, Rc<Type>),
    InlinePulse(Rc<InlinePulseCode>, Rc<Type>),
    Live(Rc<Expr>),
    Old(Rc<Expr>),
    Forall(Rc<Ident>, Rc<Type>, Rc<Expr>),
    Exists(Rc<Ident>, Rc<Type>, Rc<Expr>),
    StructInit(Rc<Ident>, Rc<List<FieldInit>>),
    UnionInit(Rc<Ident>, Rc<Ident>, Rc<Expr>),
    ArrayInit { elem_ty: Rc<Type>, elems: Rc<List<Expr>>, is_static: bool },
    Malloc(Rc<Type>),
    Calloc(Rc<Type>),
    MallocArray(Rc<Type>, Rc<Expr>),
    CallocArray(Rc<Type>, Rc<Expr>),
    MallocFlex(Rc<Type>, Rc<Expr>),
    CallocFlex(Rc<Type>, Rc<Expr>),
    Memset(Rc<Type>, Rc<Expr>, Rc<Expr>, Rc<Expr>),
    MemsetZero(Rc<Type>, Rc<Expr>),
    Free(Rc<Expr>),
    ContainerOf(Rc<Expr>, Rc<Type>, Rc<Ident>),
    PreIncr(Rc<Expr>),
    PostIncr(Rc<Expr>),
    PreDecr(Rc<Expr>),
    PostDecr(Rc<Expr>),
    SizeOf(Rc<Type>),
    AlignOf(Rc<Type>),
    Error(Rc<Type>),
}

/// A generated helper that inline code can name.
#[derive(Clone, Copy, Debug, PartialEq, Eq, Structural)]
pub enum AuxFnKind {
    Unfolded,
    Unfold,
    Fold,
    UnfoldUninit,
    FoldUninit,
    Activate,
}

/// A token of inline Pulse code, with the blank text in front of it.
pub enum InlinePulseToken {
    Verbatim { before: Text, text: Rc<Ident> },
    RValueAntiquot { before: Text, expr: Rc<Expr> },
    LValueAntiquot { before: Text, expr: Rc<Expr> },
    TypeAntiquot { before: Text, ty: Rc<Type> },
    FieldAntiquot { before: Text, ty: Rc<Type>, field_name: Rc<Ident> },
    AuxFnAntiquot { before: Text, ty: Rc<Type>, arm: Option<Rc<Ident>>, kind: AuxFnKind },
    Declare { ident: Rc<Ident>, ty: Rc<Type> },
}

pub struct InlinePulseCode {
    pub tokens: Rc<List<InlinePulseToken>>,
}

pub struct Stmt {
    pub loc: Loc,
    pub val: StmtT,
}

/// The branch of a `switch` that the given patterns select.
pub struct Branch {
    pub patterns: Rc<List<Expr>>,
    pub body: Rc<List<Stmt>>,
}

pub enum StmtT {
    Call(Rc<Expr>),
    Assert(Rc<Expr>),
    Decl(Rc<Ident>, Rc<Type>),
    Let(Rc<Ident>, Rc<Type>, Rc<Expr>),
    DeclStackArray { name: Rc<Ident>, elem_type: Rc<Type>, size: Rc<Expr> },
    Assign(Rc<Expr>, Rc<Expr>),
    If {
        cond: Rc<Expr>,
        then_branch: Rc<List<Stmt>>,
        else_branch: Rc<List<Stmt>>,
        ensures_: Rc<List<Expr>>,
    },
    Match {
        scrutinee: Rc<Expr>,
        branches: Rc<List<Branch>>,
        default_branch: Rc<List<Stmt>>,
        ensures_: Rc<List<Expr>>,
    },
    While {
        cond: Rc<Expr>,
        inv: Rc<List<Expr>>,
        requires_: Rc<List<Expr>>,
        ensures_: Rc<List<Expr>>,
        body: Rc<List<Stmt>>,
    },
    Break,
    Continue,
    Return(Option<Rc<Expr>>),
    GhostStmt(Rc<InlinePulseCode>),
    Label { name: Rc<Ident>, ensures_: Rc<List<Expr>> },
    Goto(Rc<Ident>),
    /// A block that its gotos leave: a jump to `label` goes to its end.
    GotoBlock { body: Rc<List<Stmt>>, label: Rc<Ident>, ensures_: Rc<List<Expr>> },
    Error,
}

/// How a parameter's ownership is passed.
#[derive(Clone, Copy, Debug, PartialEq, Eq, Structural)]
pub enum ParamMode {
    Regular,
    Consumed,
    Const,
    Out,
}

pub struct FnArg {
    pub name: Option<Rc<Ident>>,
    pub ty: Rc<Type>,
    pub mode: ParamMode,
}

pub struct GhostArg {
    pub name: Rc<Ident>,
    pub ty: Rc<Type>,
}

pub struct FnDecl {
    pub name: Rc<Ident>,
    pub ret_type: Rc<Type>,
    pub args: Rc<List<FnArg>>,
    pub ghost_args: Rc<List<GhostArg>>,
    pub requires_: Rc<List<Expr>>,
    pub ensures_: Rc<List<Expr>>,
    pub is_pure: bool,
    pub is_rec: bool,
    pub is_total: bool,
    pub decreases_: Option<Rc<Expr>>,
}

pub struct FnDefn {
    pub decl: Rc<FnDecl>,
    pub body: Rc<List<Stmt>>,
}

pub struct TypeDefn {
    pub name: Rc<Ident>,
    pub body: Rc<Type>,
    pub is_pointer_view: bool,
}

pub struct Field {
    pub loc: Loc,
    pub val: FieldT,
}

pub enum FieldT {
    Plain { name: Rc<Ident>, ty: Rc<Type> },
    BitField { name: Rc<Ident>, ty: Rc<Type>, width: u32 },
}

pub struct StructDefn {
    pub name: Rc<Ident>,
    /// The struct type with the attributes of the record.
    pub refines: Rc<Type>,
    pub fields: Rc<List<Field>>,
    pub eager_unfold_pred: bool,
}

pub struct UnionDefn {
    pub name: Rc<Ident>,
    pub fields: Rc<List<Field>>,
}

/// A block of Pulse code that makes a module of its own.
pub struct IncludeDecl {
    pub module_name: Text,
    pub code: Rc<InlinePulseCode>,
}

pub struct LetDecl {
    pub name: Rc<Ident>,
    pub is_rec: bool,
    pub is_impure: bool,
    pub ret_type: Rc<Type>,
    pub params: Rc<List<FnArg>>,
    pub requires_: Rc<List<Expr>>,
    pub ensures_: Rc<List<Expr>>,
    pub body: Rc<Expr>,
}

pub struct OpaqueTypeDecl {
    pub name: Rc<Ident>,
    pub code: Rc<InlinePulseCode>,
}

pub struct GlobalVar {
    pub name: Rc<Ident>,
    pub ty: Rc<Type>,
    pub init: Option<Rc<Expr>>,
    pub is_pure: bool,
    /// Defined in another translation unit.
    pub is_external: bool,
    pub opaque_to_smt: bool,
    pub is_enum_constant: bool,
}

pub struct Decl {
    pub loc: Loc,
    pub val: DeclT,
}

pub enum DeclT {
    FnDefn(Rc<FnDefn>),
    FnDecl(Rc<FnDecl>),
    Typedef(Rc<TypeDefn>),
    StructDefn(Rc<StructDefn>),
    StructDecl(Rc<Ident>),
    UnionDefn(Rc<UnionDefn>),
    IncludeDecl(Rc<IncludeDecl>),
    LetDecl(Rc<LetDecl>),
    OpaqueTypeDecl(Rc<OpaqueTypeDecl>),
    GlobalVar(Rc<GlobalVar>),
}

pub struct TranslationUnit {
    pub decls: Vec<Rc<Decl>>,
}

/// A node of type.
#[verifier::opaque]
pub open spec fn spec_mk_type(loc: Loc, val: TypeT) -> Rc<Type>
{
    Rc::new(Type { loc, val })
}

/// A node of type.
pub fn mk_type(loc: &Loc, val: TypeT) -> (out: Rc<Type>)
    ensures
        out == spec_mk_type(*loc, val),
{
    proof {
        reveal(spec_mk_type);
    }
    Rc::new(Type { loc: loc.clone(), val })
}

/// A node of expression.
#[verifier::opaque]
pub open spec fn spec_mk_expr(loc: Loc, val: ExprT) -> Rc<Expr>
{
    Rc::new(Expr { loc, val })
}

/// A node of expression.
pub fn mk_expr(loc: &Loc, val: ExprT) -> (out: Rc<Expr>)
    ensures
        out == spec_mk_expr(*loc, val),
{
    proof {
        reveal(spec_mk_expr);
    }
    Rc::new(Expr { loc: loc.clone(), val })
}

/// A name at a place.
#[verifier::opaque]
pub open spec fn spec_mk_ident(loc: Loc, val: Text) -> Rc<Ident>
{
    Rc::new(Ident { loc, val })
}

/// A name at a place.
pub fn mk_ident(loc: &Loc, val: Text) -> (out: Rc<Ident>)
    ensures
        out == spec_mk_ident(*loc, val),
{
    proof {
        reveal(spec_mk_ident);
    }
    Rc::new(Ident { loc: loc.clone(), val })
}

/// Whether two names are the same.
#[verifier::opaque]
pub open spec fn spec_same_name(a: Rc<Ident>, b: Rc<Ident>) -> bool
{
    spec_same_text(a.val, b.val)
}

/// Whether two names are the same.
pub fn same_name(a: &Rc<Ident>, b: &Rc<Ident>) -> (out: bool)
    ensures
        out == spec_same_name(*a, *b),
{
    proof {
        reveal(spec_same_name);
    }
    same_text(&a.val, &b.val)
}

/// A copy of the reference.
#[verifier::opaque]
pub open spec fn spec_clone_kind(k: TypeRefKind) -> TypeRefKind
{
    match k {
        TypeRefKind::Typedef(n) => TypeRefKind::Typedef(n),
        TypeRefKind::Struct(n) => TypeRefKind::Struct(n),
        TypeRefKind::Union(n) => TypeRefKind::Union(n),
    }
}

/// A copy of the reference.
pub fn clone_kind(k: &TypeRefKind) -> (out: TypeRefKind)
    ensures
        out == spec_clone_kind(*k),
{
    proof {
        reveal(spec_clone_kind);
    }
    match k {
        TypeRefKind::Typedef(n) => TypeRefKind::Typedef(n.clone()),
        TypeRefKind::Struct(n) => TypeRefKind::Struct(n.clone()),
        TypeRefKind::Union(n) => TypeRefKind::Union(n.clone()),
    }
}

/// A copy of the attribute.
#[verifier::opaque]
pub open spec fn spec_clone_vattr(a: VAttr) -> VAttr
{
    match a {
        VAttr::Length => VAttr::Length,
        VAttr::Active(n) => VAttr::Active(n),
    }
}

/// A copy of the attribute.
pub fn clone_vattr(a: &VAttr) -> (out: VAttr)
    ensures
        out == spec_clone_vattr(*a),
{
    proof {
        reveal(spec_clone_vattr);
    }
    match a {
        VAttr::Length => VAttr::Length,
        VAttr::Active(n) => VAttr::Active(n.clone()),
    }
}

/// The type named by the reference.
#[verifier::opaque]
pub open spec fn spec_mk_type_ref(loc: Loc, k: TypeRefKind) -> Rc<Type>
{
    spec_mk_type(loc, TypeT::TypeRef(spec_clone_kind(k)))
}

/// The type named by the reference.
pub fn mk_type_ref(loc: &Loc, k: &TypeRefKind) -> (out: Rc<Type>)
    ensures
        out == spec_mk_type_ref(*loc, *k),
{
    proof {
        reveal(spec_mk_type_ref);
    }
    mk_type(loc, TypeT::TypeRef(clone_kind(k)))
}

/// The name of a field.
#[verifier::opaque]
pub open spec fn spec_field_name(f: Rc<Field>) -> Rc<Ident>
{
    match f.val {
        FieldT::Plain { name, .. } => name,
        FieldT::BitField { name, .. } => name,
    }
}

/// The name of a field.
pub fn field_name(f: &Rc<Field>) -> (out: Rc<Ident>)
    ensures
        out == spec_field_name(*f),
{
    proof {
        reveal(spec_field_name);
    }
    match &f.val {
        FieldT::Plain { name, .. } => name.clone(),
        FieldT::BitField { name, .. } => name.clone(),
    }
}

/// The type that a field's values have for a reader.
#[verifier::opaque]
pub open spec fn spec_field_type(f: Rc<Field>) -> Rc<Type>
{
    match f.val {
        FieldT::Plain { ty, .. } => ty,
        FieldT::BitField { ty, .. } => ty,
    }
}

/// The type that a field's values have for a reader.
pub fn field_type(f: &Rc<Field>) -> (out: Rc<Type>)
    ensures
        out == spec_field_type(*f),
{
    proof {
        reveal(spec_field_type);
    }
    match &f.val {
        FieldT::Plain { ty, .. } => ty.clone(),
        FieldT::BitField { ty, .. } => ty.clone(),
    }
}

/// The width of a bit-field.
#[verifier::opaque]
pub open spec fn spec_field_bit_width(f: Rc<Field>) -> Option<u32>
{
    match f.val {
        FieldT::Plain { .. } => None,
        FieldT::BitField { width, .. } => Some(width),
    }
}

/// The width of a bit-field.
pub fn field_bit_width(f: &Rc<Field>) -> (out: Option<u32>)
    ensures
        out == spec_field_bit_width(*f),
{
    proof {
        reveal(spec_field_bit_width);
    }
    match &f.val {
        FieldT::Plain { .. } => None,
        FieldT::BitField { width, .. } => Some(*width),
    }
}

/// A flexible array: its element type, and the refinement around it.
pub struct FlexInfo {
    pub elem: Rc<Type>,
    pub pred: Option<Rc<Expr>>,
}

/// The flexible array that a type is.
pub open spec fn spec_flex_info(ty: Rc<Type>) -> Option<FlexInfo>
    decreases ty,
{
    match ty.val {
        TypeT::FlexArray(elem) => Some(FlexInfo { elem, pred: None }),
        TypeT::Refine(t, p) | TypeT::RefineAlways(t, p) => {
            match spec_flex_info(t) {
                Some(i) => Some(FlexInfo { elem: i.elem, pred: Some(p) }),
                None => None,
            }
        },
        TypeT::Plain(t) => spec_flex_info(t),
        _ => None,
    }
}

/// The flexible array that a type is.
pub fn flex_info(ty: &Rc<Type>) -> (out: Option<FlexInfo>)
    ensures
        out == spec_flex_info(*ty),
    decreases ty,
{
    match &ty.val {
        TypeT::FlexArray(elem) => Some(FlexInfo { elem: elem.clone(), pred: None }),
        TypeT::Refine(t, p) | TypeT::RefineAlways(t, p) => match flex_info(t) {
            Some(i) => Some(FlexInfo { elem: i.elem, pred: Some(p.clone()) }),
            None => None,
        },
        TypeT::Plain(t) => flex_info(t),
        _ => None,
    }
}

/// The flexible array that a field is.
#[verifier::opaque]
pub open spec fn spec_field_flex_info(f: Rc<Field>) -> Option<FlexInfo>
{
    match f.val {
        FieldT::Plain { ty, .. } => spec_flex_info(ty),
        FieldT::BitField { .. } => None,
    }
}

/// The flexible array that a field is.
pub fn field_flex_info(f: &Rc<Field>) -> (out: Option<FlexInfo>)
    ensures
        out == spec_field_flex_info(*f),
{
    proof {
        reveal(spec_field_flex_info);
    }
    match &f.val {
        FieldT::Plain { ty, .. } => flex_info(ty),
        FieldT::BitField { .. } => None,
    }
}

/// A fixed array: its element type and its length.
pub struct FixedInfo {
    pub elem: Rc<Type>,
    pub len: u64,
}

/// The fixed array that a type is.
pub open spec fn spec_fixed_info(ty: Rc<Type>) -> Option<FixedInfo>
    decreases ty,
{
    match ty.val {
        TypeT::FixedArray(elem, len) => Some(FixedInfo { elem, len }),
        TypeT::Refine(t, _) | TypeT::RefineAlways(t, _) | TypeT::RefineUninit(t, _) | TypeT::Plain(t) => spec_fixed_info(t),
        TypeT::RefineValue(t, _, _, _) => spec_fixed_info(t),
        _ => None,
    }
}

/// The fixed array that a type is.
pub fn fixed_info(ty: &Rc<Type>) -> (out: Option<FixedInfo>)
    ensures
        out == spec_fixed_info(*ty),
    decreases ty,
{
    match &ty.val {
        TypeT::FixedArray(elem, len) => Some(FixedInfo { elem: elem.clone(), len: *len }),
        TypeT::Refine(t, _) | TypeT::RefineAlways(t, _) | TypeT::RefineUninit(t, _) | TypeT::Plain(t) => fixed_info(t),
        TypeT::RefineValue(t, _, _, _) => fixed_info(t),
        _ => None,
    }
}

/// The fixed array that a field is.
#[verifier::opaque]
pub open spec fn spec_field_fixed_info(f: Rc<Field>) -> Option<FixedInfo>
{
    match f.val {
        FieldT::Plain { ty, .. } => spec_fixed_info(ty),
        FieldT::BitField { .. } => None,
    }
}

/// The fixed array that a field is.
pub fn field_fixed_info(f: &Rc<Field>) -> (out: Option<FixedInfo>)
    ensures
        out == spec_field_fixed_info(*f),
{
    proof {
        reveal(spec_field_fixed_info);
    }
    match &f.val {
        FieldT::Plain { ty, .. } => fixed_info(ty),
        FieldT::BitField { .. } => None,
    }
}

/// Whether a field is an array stored in place.
#[verifier::opaque]
pub open spec fn spec_field_is_array(f: Rc<Field>) -> bool
{
    spec_field_flex_info(f).is_some() || spec_field_fixed_info(f).is_some()
}

/// Whether a field is an array stored in place.
pub fn field_is_array(f: &Rc<Field>) -> (out: bool)
    ensures
        out == spec_field_is_array(*f),
{
    proof {
        reveal(spec_field_is_array);
    }
    field_flex_info(f).is_some() || field_fixed_info(f).is_some()
}

/// The field of the given name.
pub open spec fn spec_find_field(fields: Rc<List<Field>>, name: Rc<Ident>) -> Option<Rc<Field>>
    decreases fields,
{
    match *fields {
        List::Nil => None,
        List::Cons(f, t) => {
            if spec_same_name(spec_field_name(f), name) {
                Some(f)
            } else {
                spec_find_field(t, name)
            }
        },
    }
}

/// The field of the given name.
pub fn find_field(fields: &Rc<List<Field>>, name: &Rc<Ident>) -> (out: Option<Rc<Field>>)
    ensures
        out == spec_find_field(*fields, *name),
    decreases fields,
{
    match &**fields {
        List::Nil => None,
        List::Cons(f, t) => if same_name(&field_name(f), name) { Some(f.clone()) } else { find_field(t, name) },
    }
}

/// Whether one of the fields is a flexible array member.
pub open spec fn spec_has_flex_field(fields: Rc<List<Field>>) -> bool
    decreases fields,
{
    match *fields {
        List::Nil => false,
        List::Cons(f, t) => spec_field_flex_info(f).is_some() || spec_has_flex_field(t),
    }
}

/// Whether one of the fields is a flexible array member.
pub fn has_flex_field(fields: &Rc<List<Field>>) -> (out: bool)
    ensures
        out == spec_has_flex_field(*fields),
    decreases fields,
{
    match &**fields {
        List::Nil => false,
        List::Cons(f, t) => field_flex_info(f).is_some() || has_flex_field(t),
    }
}

/// Whether the global is an array.
#[verifier::opaque]
pub open spec fn spec_global_var_is_array(gv: Rc<GlobalVar>) -> bool
{
    spec_fixed_info(gv.ty).is_some()
}

/// Whether the global is an array.
pub fn global_var_is_array(gv: &Rc<GlobalVar>) -> (out: bool)
    ensures
        out == spec_global_var_is_array(*gv),
{
    proof {
        reveal(spec_global_var_is_array);
    }
    fixed_info(&gv.ty).is_some()
}

/// A variable as an expression.
#[verifier::opaque]
pub open spec fn spec_mk_rvar(n: Rc<Ident>) -> Rc<Expr>
{
    spec_mk_expr(n.loc, ExprT::Var(n))
}

/// A variable as an expression.
pub fn mk_rvar(n: &Rc<Ident>) -> (out: Rc<Expr>)
    ensures
        out == spec_mk_rvar(*n),
{
    proof {
        reveal(spec_mk_rvar);
    }
    mk_expr(&n.loc, ExprT::Var(n.clone()))
}

/// The expression with another operand, where it has one.
#[verifier::opaque]
pub open spec fn spec_with_child(e: Rc<Expr>, a: Rc<Expr>) -> Rc<Expr>
{
    match e.val {
        ExprT::Deref(_) => spec_mk_expr(e.loc, ExprT::Deref(a)),
        ExprT::Ref(_) => spec_mk_expr(e.loc, ExprT::Ref(a)),
        ExprT::Member(_, f) => spec_mk_expr(e.loc, ExprT::Member(a, f)),
        ExprT::VAttr(at, _) => spec_mk_expr(e.loc, ExprT::VAttr(spec_clone_vattr(at), a)),
        ExprT::UnOp(op, _) => spec_mk_expr(e.loc, ExprT::UnOp(op, a)),
        ExprT::Cast(_, t) => spec_mk_expr(e.loc, ExprT::Cast(a, t)),
        ExprT::Live(_) => spec_mk_expr(e.loc, ExprT::Live(a)),
        ExprT::Old(_) => spec_mk_expr(e.loc, ExprT::Old(a)),
        ExprT::Forall(x, t, _) => spec_mk_expr(e.loc, ExprT::Forall(x, t, a)),
        ExprT::Exists(x, t, _) => spec_mk_expr(e.loc, ExprT::Exists(x, t, a)),
        ExprT::UnionInit(n, f, _) => spec_mk_expr(e.loc, ExprT::UnionInit(n, f, a)),
        ExprT::MallocArray(t, _) => spec_mk_expr(e.loc, ExprT::MallocArray(t, a)),
        ExprT::CallocArray(t, _) => spec_mk_expr(e.loc, ExprT::CallocArray(t, a)),
        ExprT::MallocFlex(t, _) => spec_mk_expr(e.loc, ExprT::MallocFlex(t, a)),
        ExprT::CallocFlex(t, _) => spec_mk_expr(e.loc, ExprT::CallocFlex(t, a)),
        ExprT::MemsetZero(t, _) => spec_mk_expr(e.loc, ExprT::MemsetZero(t, a)),
        ExprT::Free(_) => spec_mk_expr(e.loc, ExprT::Free(a)),
        ExprT::ContainerOf(_, t, f) => spec_mk_expr(e.loc, ExprT::ContainerOf(a, t, f)),
        ExprT::PreIncr(_) => spec_mk_expr(e.loc, ExprT::PreIncr(a)),
        ExprT::PostIncr(_) => spec_mk_expr(e.loc, ExprT::PostIncr(a)),
        ExprT::PreDecr(_) => spec_mk_expr(e.loc, ExprT::PreDecr(a)),
        ExprT::PostDecr(_) => spec_mk_expr(e.loc, ExprT::PostDecr(a)),
        _ => e,
    }
}

/// The expression with another operand, where it has one.
pub fn with_child(e: &Rc<Expr>, a: Rc<Expr>) -> (out: Rc<Expr>)
    ensures
        out == spec_with_child(*e, a),
{
    proof {
        reveal(spec_with_child);
    }
    match &e.val {
        ExprT::Deref(_) => mk_expr(&e.loc, ExprT::Deref(a)),
        ExprT::Ref(_) => mk_expr(&e.loc, ExprT::Ref(a)),
        ExprT::Member(_, f) => mk_expr(&e.loc, ExprT::Member(a, f.clone())),
        ExprT::VAttr(at, _) => mk_expr(&e.loc, ExprT::VAttr(clone_vattr(at), a)),
        ExprT::UnOp(op, _) => mk_expr(&e.loc, ExprT::UnOp(*op, a)),
        ExprT::Cast(_, t) => mk_expr(&e.loc, ExprT::Cast(a, t.clone())),
        ExprT::Live(_) => mk_expr(&e.loc, ExprT::Live(a)),
        ExprT::Old(_) => mk_expr(&e.loc, ExprT::Old(a)),
        ExprT::Forall(x, t, _) => mk_expr(&e.loc, ExprT::Forall(x.clone(), t.clone(), a)),
        ExprT::Exists(x, t, _) => mk_expr(&e.loc, ExprT::Exists(x.clone(), t.clone(), a)),
        ExprT::UnionInit(n, f, _) => mk_expr(&e.loc, ExprT::UnionInit(n.clone(), f.clone(), a)),
        ExprT::MallocArray(t, _) => mk_expr(&e.loc, ExprT::MallocArray(t.clone(), a)),
        ExprT::CallocArray(t, _) => mk_expr(&e.loc, ExprT::CallocArray(t.clone(), a)),
        ExprT::MallocFlex(t, _) => mk_expr(&e.loc, ExprT::MallocFlex(t.clone(), a)),
        ExprT::CallocFlex(t, _) => mk_expr(&e.loc, ExprT::CallocFlex(t.clone(), a)),
        ExprT::MemsetZero(t, _) => mk_expr(&e.loc, ExprT::MemsetZero(t.clone(), a)),
        ExprT::Free(_) => mk_expr(&e.loc, ExprT::Free(a)),
        ExprT::ContainerOf(_, t, f) => mk_expr(&e.loc, ExprT::ContainerOf(a, t.clone(), f.clone())),
        ExprT::PreIncr(_) => mk_expr(&e.loc, ExprT::PreIncr(a)),
        ExprT::PostIncr(_) => mk_expr(&e.loc, ExprT::PostIncr(a)),
        ExprT::PreDecr(_) => mk_expr(&e.loc, ExprT::PreDecr(a)),
        ExprT::PostDecr(_) => mk_expr(&e.loc, ExprT::PostDecr(a)),
        _ => e.clone(),
    }
}

/// The expression with other operands, where it has two.
#[verifier::opaque]
pub open spec fn spec_with_children(e: Rc<Expr>, a: Rc<Expr>, b: Rc<Expr>) -> Rc<Expr>
{
    match e.val {
        ExprT::Index(_, _) => spec_mk_expr(e.loc, ExprT::Index(a, b)),
        ExprT::BinOp(op, _, _) => spec_mk_expr(e.loc, ExprT::BinOp(op, a, b)),
        ExprT::AssignExpr(_, _) => spec_mk_expr(e.loc, ExprT::AssignExpr(a, b)),
        _ => e,
    }
}

/// The expression with other operands, where it has two.
pub fn with_children(e: &Rc<Expr>, a: Rc<Expr>, b: Rc<Expr>) -> (out: Rc<Expr>)
    ensures
        out == spec_with_children(*e, a, b),
{
    proof {
        reveal(spec_with_children);
    }
    match &e.val {
        ExprT::Index(_, _) => mk_expr(&e.loc, ExprT::Index(a, b)),
        ExprT::BinOp(op, _, _) => mk_expr(&e.loc, ExprT::BinOp(*op, a, b)),
        ExprT::AssignExpr(_, _) => mk_expr(&e.loc, ExprT::AssignExpr(a, b)),
        _ => e.clone(),
    }
}

/// The expression with other operands, where it has three.
#[verifier::opaque]
pub open spec fn spec_with_three(e: Rc<Expr>, a: Rc<Expr>, b: Rc<Expr>, c: Rc<Expr>) -> Rc<Expr>
{
    match e.val {
        ExprT::Cond(_, _, _) => spec_mk_expr(e.loc, ExprT::Cond(a, b, c)),
        ExprT::Memset(t, _, _, _) => spec_mk_expr(e.loc, ExprT::Memset(t, a, b, c)),
        _ => e,
    }
}

/// The expression with other operands, where it has three.
pub fn with_three(e: &Rc<Expr>, a: Rc<Expr>, b: Rc<Expr>, c: Rc<Expr>) -> (out: Rc<Expr>)
    ensures
        out == spec_with_three(*e, a, b, c),
{
    proof {
        reveal(spec_with_three);
    }
    match &e.val {
        ExprT::Cond(_, _, _) => mk_expr(&e.loc, ExprT::Cond(a, b, c)),
        ExprT::Memset(t, _, _, _) => mk_expr(&e.loc, ExprT::Memset(t.clone(), a, b, c)),
        _ => e.clone(),
    }
}

/// The expression with another list of operands.
#[verifier::opaque]
pub open spec fn spec_with_list(e: Rc<Expr>, l: Rc<List<Expr>>) -> Rc<Expr>
{
    match e.val {
        ExprT::FnCall(f, _) => spec_mk_expr(e.loc, ExprT::FnCall(f, l)),
        ExprT::ArrayInit { elem_ty, is_static, .. } => spec_mk_expr(e.loc, ExprT::ArrayInit { elem_ty, elems: l, is_static }),
        _ => e,
    }
}

/// The expression with another list of operands.
pub fn with_list(e: &Rc<Expr>, l: Rc<List<Expr>>) -> (out: Rc<Expr>)
    ensures
        out == spec_with_list(*e, l),
{
    proof {
        reveal(spec_with_list);
    }
    match &e.val {
        ExprT::FnCall(f, _) => mk_expr(&e.loc, ExprT::FnCall(f.clone(), l)),
        ExprT::ArrayInit { elem_ty, is_static, .. } => mk_expr(&e.loc, ExprT::ArrayInit { elem_ty: elem_ty.clone(), elems: l, is_static: *is_static }),
        _ => e.clone(),
    }
}

/// The expression with another operand and another type, where it has one of each.
#[verifier::opaque]
pub open spec fn spec_with_child_and_type(e: Rc<Expr>, a: Rc<Expr>, t: Rc<Type>) -> Rc<Expr>
{
    match e.val {
        ExprT::Cast(_, _) => spec_mk_expr(e.loc, ExprT::Cast(a, t)),
        ExprT::ContainerOf(_, _, f) => spec_mk_expr(e.loc, ExprT::ContainerOf(a, t, f)),
        ExprT::Forall(x, _, _) => spec_mk_expr(e.loc, ExprT::Forall(x, t, a)),
        ExprT::Exists(x, _, _) => spec_mk_expr(e.loc, ExprT::Exists(x, t, a)),
        ExprT::MallocArray(_, _) => spec_mk_expr(e.loc, ExprT::MallocArray(t, a)),
        ExprT::CallocArray(_, _) => spec_mk_expr(e.loc, ExprT::CallocArray(t, a)),
        ExprT::MallocFlex(_, _) => spec_mk_expr(e.loc, ExprT::MallocFlex(t, a)),
        ExprT::CallocFlex(_, _) => spec_mk_expr(e.loc, ExprT::CallocFlex(t, a)),
        ExprT::MemsetZero(_, _) => spec_mk_expr(e.loc, ExprT::MemsetZero(t, a)),
        _ => e,
    }
}

/// The expression with another operand and another type, where it has one of each.
pub fn with_child_and_type(e: &Rc<Expr>, a: Rc<Expr>, t: Rc<Type>) -> (out: Rc<Expr>)
    ensures
        out == spec_with_child_and_type(*e, a, t),
{
    proof {
        reveal(spec_with_child_and_type);
    }
    match &e.val {
        ExprT::Cast(_, _) => mk_expr(&e.loc, ExprT::Cast(a, t)),
        ExprT::ContainerOf(_, _, f) => mk_expr(&e.loc, ExprT::ContainerOf(a, t, f.clone())),
        ExprT::Forall(x, _, _) => mk_expr(&e.loc, ExprT::Forall(x.clone(), t, a)),
        ExprT::Exists(x, _, _) => mk_expr(&e.loc, ExprT::Exists(x.clone(), t, a)),
        ExprT::MallocArray(_, _) => mk_expr(&e.loc, ExprT::MallocArray(t, a)),
        ExprT::CallocArray(_, _) => mk_expr(&e.loc, ExprT::CallocArray(t, a)),
        ExprT::MallocFlex(_, _) => mk_expr(&e.loc, ExprT::MallocFlex(t, a)),
        ExprT::CallocFlex(_, _) => mk_expr(&e.loc, ExprT::CallocFlex(t, a)),
        ExprT::MemsetZero(_, _) => mk_expr(&e.loc, ExprT::MemsetZero(t, a)),
        _ => e.clone(),
    }
}

/// The expression with another type, where it has one and no operand.
#[verifier::opaque]
pub open spec fn spec_with_type_only(e: Rc<Expr>, t: Rc<Type>) -> Rc<Expr>
{
    match e.val {
        ExprT::IntLit(n, _) => spec_mk_expr(e.loc, ExprT::IntLit(n, t)),
        ExprT::FloatLit(n, _) => spec_mk_expr(e.loc, ExprT::FloatLit(n, t)),
        ExprT::Malloc(_) => spec_mk_expr(e.loc, ExprT::Malloc(t)),
        ExprT::Calloc(_) => spec_mk_expr(e.loc, ExprT::Calloc(t)),
        ExprT::SizeOf(_) => spec_mk_expr(e.loc, ExprT::SizeOf(t)),
        ExprT::AlignOf(_) => spec_mk_expr(e.loc, ExprT::AlignOf(t)),
        ExprT::Error(_) => spec_mk_expr(e.loc, ExprT::Error(t)),
        _ => e,
    }
}

/// The expression with another type, where it has one and no operand.
pub fn with_type_only(e: &Rc<Expr>, t: Rc<Type>) -> (out: Rc<Expr>)
    ensures
        out == spec_with_type_only(*e, t),
{
    proof {
        reveal(spec_with_type_only);
    }
    match &e.val {
        ExprT::IntLit(n, _) => mk_expr(&e.loc, ExprT::IntLit(n.clone(), t)),
        ExprT::FloatLit(n, _) => mk_expr(&e.loc, ExprT::FloatLit(n.clone(), t)),
        ExprT::Malloc(_) => mk_expr(&e.loc, ExprT::Malloc(t)),
        ExprT::Calloc(_) => mk_expr(&e.loc, ExprT::Calloc(t)),
        ExprT::SizeOf(_) => mk_expr(&e.loc, ExprT::SizeOf(t)),
        ExprT::AlignOf(_) => mk_expr(&e.loc, ExprT::AlignOf(t)),
        ExprT::Error(_) => mk_expr(&e.loc, ExprT::Error(t)),
        _ => e.clone(),
    }
}

/// The type with another type inside, where it has one and no fact.
#[verifier::opaque]
pub open spec fn spec_with_inner(ty: Rc<Type>, t: Rc<Type>) -> Rc<Type>
{
    match ty.val {
        TypeT::Pointer(_, k) => spec_mk_type(ty.loc, TypeT::Pointer(t, k)),
        TypeT::FixedArray(_, n) => spec_mk_type(ty.loc, TypeT::FixedArray(t, n)),
        TypeT::FlexArray(_) => spec_mk_type(ty.loc, TypeT::FlexArray(t)),
        TypeT::Plain(_) => spec_mk_type(ty.loc, TypeT::Plain(t)),
        TypeT::Nullable(_) => spec_mk_type(ty.loc, TypeT::Nullable(t)),
        _ => ty,
    }
}

/// The type with another type inside, where it has one and no fact.
pub fn with_inner(ty: &Rc<Type>, t: Rc<Type>) -> (out: Rc<Type>)
    ensures
        out == spec_with_inner(*ty, t),
{
    proof {
        reveal(spec_with_inner);
    }
    match &ty.val {
        TypeT::Pointer(_, k) => mk_type(&ty.loc, TypeT::Pointer(t, *k)),
        TypeT::FixedArray(_, n) => mk_type(&ty.loc, TypeT::FixedArray(t, *n)),
        TypeT::FlexArray(_) => mk_type(&ty.loc, TypeT::FlexArray(t)),
        TypeT::Plain(_) => mk_type(&ty.loc, TypeT::Plain(t)),
        TypeT::Nullable(_) => mk_type(&ty.loc, TypeT::Nullable(t)),
        _ => ty.clone(),
    }
}

/// The refinement with another type and another fact.
#[verifier::opaque]
pub open spec fn spec_with_inner_and_fact(ty: Rc<Type>, t: Rc<Type>, p: Rc<Expr>) -> Rc<Type>
{
    match ty.val {
        TypeT::Refine(_, _) => spec_mk_type(ty.loc, TypeT::Refine(t, p)),
        TypeT::RefineAlways(_, _) => spec_mk_type(ty.loc, TypeT::RefineAlways(t, p)),
        TypeT::RefineUninit(_, _) => spec_mk_type(ty.loc, TypeT::RefineUninit(t, p)),
        _ => ty,
    }
}

/// The refinement with another type and another fact.
pub fn with_inner_and_fact(ty: &Rc<Type>, t: Rc<Type>, p: Rc<Expr>) -> (out: Rc<Type>)
    ensures
        out == spec_with_inner_and_fact(*ty, t, p),
{
    proof {
        reveal(spec_with_inner_and_fact);
    }
    match &ty.val {
        TypeT::Refine(_, _) => mk_type(&ty.loc, TypeT::Refine(t, p)),
        TypeT::RefineAlways(_, _) => mk_type(&ty.loc, TypeT::RefineAlways(t, p)),
        TypeT::RefineUninit(_, _) => mk_type(&ty.loc, TypeT::RefineUninit(t, p)),
        _ => ty.clone(),
    }
}

/// The type of a reader's message.
pub open spec fn spec_show_type(ty: Rc<Type>) -> Text
    decreases ty,
{
    match ty.val {
        TypeT::Void => spec_lit("void"),
        TypeT::Bool => spec_lit("_Bool"),
        TypeT::Int { signed: true, width } => spec_cat(spec_lit("int"), spec_width_text(width)),
        TypeT::Int { signed: false, width } => spec_cat(spec_lit("uint"), spec_width_text(width)),
        TypeT::Float { width } => spec_cat(spec_lit("float"), spec_width_text(width)),
        TypeT::SizeT => spec_lit("size_t"),
        TypeT::PtrdiffT => spec_lit("ptrdiff_t"),
        TypeT::Pointer(to, _) => spec_cat(spec_show_type(to), spec_lit(" *")),
        TypeT::FixedArray(t, n) => spec_cat4(spec_show_type(t), spec_lit("["), spec_num(n), spec_lit("]")),
        TypeT::FlexArray(t) => spec_cat(spec_show_type(t), spec_lit("[]")),
        TypeT::FnPtr { ret, .. } => spec_cat(spec_show_type(ret), spec_lit(" (*)()")),
        TypeT::SpecInt => spec_lit("_specint"),
        TypeT::SpecNat => spec_lit("_specnat"),
        TypeT::SLProp => spec_lit("_slprop"),
        TypeT::TypeRef(TypeRefKind::Typedef(n)) => n.val,
        TypeT::TypeRef(TypeRefKind::Struct(n)) => spec_cat(spec_lit("struct "), n.val),
        TypeT::TypeRef(TypeRefKind::Union(n)) => spec_cat(spec_lit("union "), n.val),
        TypeT::Refine(t, _) | TypeT::RefineAlways(t, _) | TypeT::RefineUninit(t, _) => spec_show_type(t),
        TypeT::RefineValue(t, _, _, _) => spec_show_type(t),
        TypeT::Plain(t) => spec_cat(spec_lit("_plain "), spec_show_type(t)),
        TypeT::Nullable(t) => spec_cat(spec_lit("_nullable "), spec_show_type(t)),
        TypeT::Unknown => spec_lit("_unknown"),
        TypeT::Error => spec_lit("_error"),
    }
}

/// The type of a reader's message.
pub fn show_type(ty: &Rc<Type>) -> (out: Text)
    ensures
        out == spec_show_type(*ty),
    decreases ty,
{
    match &ty.val {
        TypeT::Void => lit("void"),
        TypeT::Bool => lit("_Bool"),
        TypeT::Int { signed: true, width } => cat(lit("int"), width_text(*width)),
        TypeT::Int { signed: false, width } => cat(lit("uint"), width_text(*width)),
        TypeT::Float { width } => cat(lit("float"), width_text(*width)),
        TypeT::SizeT => lit("size_t"),
        TypeT::PtrdiffT => lit("ptrdiff_t"),
        TypeT::Pointer(to, _) => cat(show_type(to), lit(" *")),
        TypeT::FixedArray(t, n) => cat4(show_type(t), lit("["), num(*n), lit("]")),
        TypeT::FlexArray(t) => cat(show_type(t), lit("[]")),
        TypeT::FnPtr { ret, .. } => cat(show_type(ret), lit(" (*)()")),
        TypeT::SpecInt => lit("_specint"),
        TypeT::SpecNat => lit("_specnat"),
        TypeT::SLProp => lit("_slprop"),
        TypeT::TypeRef(TypeRefKind::Typedef(n)) => n.val.clone(),
        TypeT::TypeRef(TypeRefKind::Struct(n)) => cat(lit("struct "), n.val.clone()),
        TypeT::TypeRef(TypeRefKind::Union(n)) => cat(lit("union "), n.val.clone()),
        TypeT::Refine(t, _) | TypeT::RefineAlways(t, _) | TypeT::RefineUninit(t, _) => show_type(t),
        TypeT::RefineValue(t, _, _, _) => show_type(t),
        TypeT::Plain(t) => cat(lit("_plain "), show_type(t)),
        TypeT::Nullable(t) => cat(lit("_nullable "), show_type(t)),
        TypeT::Unknown => lit("_unknown"),
        TypeT::Error => lit("_error"),
    }
}

/// The spelling of a binary operator.
#[verifier::opaque]
pub open spec fn spec_show_binop(op: BinOp) -> Text
{
    match op {
        BinOp::Eq => spec_lit("=="),
        BinOp::LEq => spec_lit("<="),
        BinOp::Lt => spec_lit("<"),
        BinOp::LogAnd => spec_lit("&&"),
        BinOp::LogOr => spec_lit("||"),
        BinOp::Implies => spec_lit("==>"),
        BinOp::Mul => spec_lit("*"),
        BinOp::Div => spec_lit("/"),
        BinOp::Mod => spec_lit("%"),
        BinOp::Add => spec_lit("+"),
        BinOp::Sub => spec_lit("-"),
        BinOp::BitAnd => spec_lit("&"),
        BinOp::BitOr => spec_lit("|"),
        BinOp::BitXor => spec_lit("^"),
        BinOp::Shl => spec_lit("<<"),
        BinOp::Shr => spec_lit(">>"),
        BinOp::Elvis => spec_lit("?:"),
    }
}

/// The spelling of a binary operator.
pub fn show_binop(op: BinOp) -> (out: Text)
    ensures
        out == spec_show_binop(op),
{
    proof {
        reveal(spec_show_binop);
    }
    match op {
        BinOp::Eq => lit("=="),
        BinOp::LEq => lit("<="),
        BinOp::Lt => lit("<"),
        BinOp::LogAnd => lit("&&"),
        BinOp::LogOr => lit("||"),
        BinOp::Implies => lit("==>"),
        BinOp::Mul => lit("*"),
        BinOp::Div => lit("/"),
        BinOp::Mod => lit("%"),
        BinOp::Add => lit("+"),
        BinOp::Sub => lit("-"),
        BinOp::BitAnd => lit("&"),
        BinOp::BitOr => lit("|"),
        BinOp::BitXor => lit("^"),
        BinOp::Shl => lit("<<"),
        BinOp::Shr => lit(">>"),
        BinOp::Elvis => lit("?:"),
    }
}

/// The spelling of a unary operator.
#[verifier::opaque]
pub open spec fn spec_show_unop(op: UnOp) -> Text
{
    match op {
        UnOp::Not => spec_lit("!"),
        UnOp::Neg => spec_lit("-"),
        UnOp::BitNot => spec_lit("~"),
    }
}

/// The spelling of a unary operator.
pub fn show_unop(op: UnOp) -> (out: Text)
    ensures
        out == spec_show_unop(op),
{
    proof {
        reveal(spec_show_unop);
    }
    match op {
        UnOp::Not => lit("!"),
        UnOp::Neg => lit("-"),
        UnOp::BitNot => lit("~"),
    }
}

/// The expressions of a reader's message, with commas between them.
pub open spec fn spec_show_exprs(l: Rc<List<Expr>>) -> Text
    decreases l,
{
    match *l {
        List::Nil => spec_lit(""),
        List::Cons(h, t) => {
            match *t {
                List::Nil => spec_show_expr(h),
                List::Cons(_, _) => spec_cat3(spec_show_expr(h), spec_lit(", "), spec_show_exprs(t)),
            }
        },
    }
}

/// The expressions of a reader's message, with commas between them.
pub fn show_exprs(l: &Rc<List<Expr>>) -> (out: Text)
    ensures
        out == spec_show_exprs(*l),
    decreases l,
{
    match &**l {
        List::Nil => lit(""),
        List::Cons(h, t) => match &**t {
            List::Nil => show_expr(h),
            List::Cons(_, _) => cat3(show_expr(h), lit(", "), show_exprs(t)),
        },
    }
}

/// The expression of a reader's message.
pub open spec fn spec_show_expr(e: Rc<Expr>) -> Text
    decreases e,
{
    match e.val {
        ExprT::Var(x) => x.val,
        ExprT::BoolLit(b) => {
            if b {
                spec_lit("true")
            } else {
                spec_lit("false")
            }
        },
        ExprT::IntLit(n, _) => Rc::new(Rope::Int(n)),
        ExprT::FloatLit(t, _) => t,
        ExprT::Deref(a) => spec_cat3(spec_lit("(*"), spec_show_expr(a), spec_lit(")")),
        ExprT::Ref(a) => spec_cat3(spec_lit("(&"), spec_show_expr(a), spec_lit(")")),
        ExprT::Member(a, f) => spec_cat3(spec_show_expr(a), spec_lit("."), f.val),
        ExprT::Index(a, i) => spec_cat4(spec_show_expr(a), spec_lit("["), spec_show_expr(i), spec_lit("]")),
        ExprT::VAttr(VAttr::Length, a) => spec_cat(spec_show_expr(a), spec_lit("._length")),
        ExprT::VAttr(VAttr::Active(f), a) => spec_cat4(spec_show_expr(a), spec_lit("._active("), f.val, spec_lit(")")),
        ExprT::UnOp(op, a) => spec_cat4(spec_lit("("), spec_show_unop(op), spec_show_expr(a), spec_lit(")")),
        ExprT::BinOp(op, a, b) => spec_cat(spec_cat3(spec_lit("("), spec_show_expr(a), spec_cat3(spec_lit(" "), spec_show_binop(op), spec_lit(" "))), spec_cat(spec_show_expr(b), spec_lit(")"))),
        ExprT::AssignExpr(a, b) => spec_cat(spec_cat3(spec_lit("("), spec_show_expr(a), spec_lit(" = ")), spec_cat(spec_show_expr(b), spec_lit(")"))),
        ExprT::Cond(a, b, c) => spec_cat(spec_cat4(spec_lit("("), spec_show_expr(a), spec_lit(" ? "), spec_show_expr(b)), spec_cat3(spec_lit(" : "), spec_show_expr(c), spec_lit(")"))),
        ExprT::FnCall(f, args) => spec_cat4(f.val, spec_lit("("), spec_show_exprs(args), spec_lit(")")),
        ExprT::FnRef(f) => f.val,
        ExprT::FnPtrCall(f, args) => spec_cat4(spec_show_expr(f), spec_lit("("), spec_show_exprs(args), spec_lit(")")),
        ExprT::Cast(a, t) => spec_cat4(spec_lit("("), spec_show_type(t), spec_lit(")"), spec_show_expr(a)),
        ExprT::InlinePulse(_, _) => spec_lit("_inline_pulse(...)"),
        ExprT::Live(a) => spec_cat3(spec_lit("_live("), spec_show_expr(a), spec_lit(")")),
        ExprT::Old(a) => spec_cat3(spec_lit("_old("), spec_show_expr(a), spec_lit(")")),
        ExprT::Forall(x, _, b) => spec_cat4(spec_lit("_forall "), x.val, spec_lit(". "), spec_show_expr(b)),
        ExprT::Exists(x, _, b) => spec_cat4(spec_lit("_exists "), x.val, spec_lit(". "), spec_show_expr(b)),
        ExprT::StructInit(n, _) => spec_cat3(spec_lit("(struct "), n.val, spec_lit("){...}")),
        ExprT::UnionInit(n, f, v) => spec_cat(spec_cat4(spec_lit("(union "), n.val, spec_lit("){ ."), f.val), spec_cat3(spec_lit(" = "), spec_show_expr(v), spec_lit(" }"))),
        ExprT::ArrayInit { elems, .. } => spec_cat3(spec_lit("{"), spec_show_exprs(elems), spec_lit("}")),
        ExprT::Malloc(t) => spec_cat3(spec_lit("malloc(sizeof("), spec_show_type(t), spec_lit("))")),
        ExprT::Calloc(t) => spec_cat3(spec_lit("calloc(1, sizeof("), spec_show_type(t), spec_lit("))")),
        ExprT::MallocArray(t, n) => spec_cat(spec_cat3(spec_lit("malloc("), spec_show_expr(n), spec_lit(" * sizeof(")), spec_cat(spec_show_type(t), spec_lit("))"))),
        ExprT::CallocArray(t, n) => spec_cat(spec_cat3(spec_lit("calloc("), spec_show_expr(n), spec_lit(", sizeof(")), spec_cat(spec_show_type(t), spec_lit("))"))),
        ExprT::MallocFlex(t, n) => spec_cat(spec_cat3(spec_lit("malloc_flex("), spec_show_type(t), spec_lit(", ")), spec_cat(spec_show_expr(n), spec_lit(")"))),
        ExprT::CallocFlex(t, n) => spec_cat(spec_cat3(spec_lit("calloc_flex("), spec_show_type(t), spec_lit(", ")), spec_cat(spec_show_expr(n), spec_lit(")"))),
        ExprT::Memset(_, p, v, n) => spec_cat(spec_cat4(spec_lit("memset("), spec_show_expr(p), spec_lit(", "), spec_show_expr(v)), spec_cat3(spec_lit(", "), spec_show_expr(n), spec_lit(")"))),
        ExprT::MemsetZero(_, p) => spec_cat3(spec_lit("memset_zero("), spec_show_expr(p), spec_lit(")")),
        ExprT::Free(a) => spec_cat3(spec_lit("free("), spec_show_expr(a), spec_lit(")")),
        ExprT::ContainerOf(p, t, f) => spec_cat(spec_cat4(spec_lit("_container_of("), spec_show_expr(p), spec_lit(", "), spec_show_type(t)), spec_cat3(spec_lit(", "), f.val, spec_lit(")"))),
        ExprT::PreIncr(a) => spec_cat(spec_lit("++"), spec_show_expr(a)),
        ExprT::PostIncr(a) => spec_cat(spec_show_expr(a), spec_lit("++")),
        ExprT::PreDecr(a) => spec_cat(spec_lit("--"), spec_show_expr(a)),
        ExprT::PostDecr(a) => spec_cat(spec_show_expr(a), spec_lit("--")),
        ExprT::SizeOf(t) => spec_cat3(spec_lit("sizeof("), spec_show_type(t), spec_lit(")")),
        ExprT::AlignOf(t) => spec_cat3(spec_lit("_Alignof("), spec_show_type(t), spec_lit(")")),
        ExprT::Error(_) => spec_lit("_error"),
    }
}

/// The expression of a reader's message.
pub fn show_expr(e: &Rc<Expr>) -> (out: Text)
    ensures
        out == spec_show_expr(*e),
    decreases e,
{
    match &e.val {
        ExprT::Var(x) => x.val.clone(),
        ExprT::BoolLit(b) => if *b { lit("true") } else { lit("false") },
        ExprT::IntLit(n, _) => Rc::new(Rope::Int(n.clone())),
        ExprT::FloatLit(t, _) => t.clone(),
        ExprT::Deref(a) => cat3(lit("(*"), show_expr(a), lit(")")),
        ExprT::Ref(a) => cat3(lit("(&"), show_expr(a), lit(")")),
        ExprT::Member(a, f) => cat3(show_expr(a), lit("."), f.val.clone()),
        ExprT::Index(a, i) => cat4(show_expr(a), lit("["), show_expr(i), lit("]")),
        ExprT::VAttr(VAttr::Length, a) => cat(show_expr(a), lit("._length")),
        ExprT::VAttr(VAttr::Active(f), a) => cat4(show_expr(a), lit("._active("), f.val.clone(), lit(")")),
        ExprT::UnOp(op, a) => cat4(lit("("), show_unop(*op), show_expr(a), lit(")")),
        ExprT::BinOp(op, a, b) => cat(cat3(lit("("), show_expr(a), cat3(lit(" "), show_binop(*op), lit(" "))), cat(show_expr(b), lit(")"))),
        ExprT::AssignExpr(a, b) => cat(cat3(lit("("), show_expr(a), lit(" = ")), cat(show_expr(b), lit(")"))),
        ExprT::Cond(a, b, c) => cat(cat4(lit("("), show_expr(a), lit(" ? "), show_expr(b)), cat3(lit(" : "), show_expr(c), lit(")"))),
        ExprT::FnCall(f, args) => cat4(f.val.clone(), lit("("), show_exprs(args), lit(")")),
        ExprT::FnRef(f) => f.val.clone(),
        ExprT::FnPtrCall(f, args) => cat4(show_expr(f), lit("("), show_exprs(args), lit(")")),
        ExprT::Cast(a, t) => cat4(lit("("), show_type(t), lit(")"), show_expr(a)),
        ExprT::InlinePulse(_, _) => lit("_inline_pulse(...)"),
        ExprT::Live(a) => cat3(lit("_live("), show_expr(a), lit(")")),
        ExprT::Old(a) => cat3(lit("_old("), show_expr(a), lit(")")),
        ExprT::Forall(x, _, b) => cat4(lit("_forall "), x.val.clone(), lit(". "), show_expr(b)),
        ExprT::Exists(x, _, b) => cat4(lit("_exists "), x.val.clone(), lit(". "), show_expr(b)),
        ExprT::StructInit(n, _) => cat3(lit("(struct "), n.val.clone(), lit("){...}")),
        ExprT::UnionInit(n, f, v) => cat(cat4(lit("(union "), n.val.clone(), lit("){ ."), f.val.clone()), cat3(lit(" = "), show_expr(v), lit(" }"))),
        ExprT::ArrayInit { elems, .. } => cat3(lit("{"), show_exprs(elems), lit("}")),
        ExprT::Malloc(t) => cat3(lit("malloc(sizeof("), show_type(t), lit("))")),
        ExprT::Calloc(t) => cat3(lit("calloc(1, sizeof("), show_type(t), lit("))")),
        ExprT::MallocArray(t, n) => cat(cat3(lit("malloc("), show_expr(n), lit(" * sizeof(")), cat(show_type(t), lit("))"))),
        ExprT::CallocArray(t, n) => cat(cat3(lit("calloc("), show_expr(n), lit(", sizeof(")), cat(show_type(t), lit("))"))),
        ExprT::MallocFlex(t, n) => cat(cat3(lit("malloc_flex("), show_type(t), lit(", ")), cat(show_expr(n), lit(")"))),
        ExprT::CallocFlex(t, n) => cat(cat3(lit("calloc_flex("), show_type(t), lit(", ")), cat(show_expr(n), lit(")"))),
        ExprT::Memset(_, p, v, n) => cat(cat4(lit("memset("), show_expr(p), lit(", "), show_expr(v)), cat3(lit(", "), show_expr(n), lit(")"))),
        ExprT::MemsetZero(_, p) => cat3(lit("memset_zero("), show_expr(p), lit(")")),
        ExprT::Free(a) => cat3(lit("free("), show_expr(a), lit(")")),
        ExprT::ContainerOf(p, t, f) => cat(cat4(lit("_container_of("), show_expr(p), lit(", "), show_type(t)), cat3(lit(", "), f.val.clone(), lit(")"))),
        ExprT::PreIncr(a) => cat(lit("++"), show_expr(a)),
        ExprT::PostIncr(a) => cat(show_expr(a), lit("++")),
        ExprT::PreDecr(a) => cat(lit("--"), show_expr(a)),
        ExprT::PostDecr(a) => cat(show_expr(a), lit("--")),
        ExprT::SizeOf(t) => cat3(lit("sizeof("), show_type(t), lit(")")),
        ExprT::AlignOf(t) => cat3(lit("_Alignof("), show_type(t), lit(")")),
        ExprT::Error(_) => lit("_error"),
    }
}

/// What kind of statement it is, for a reader's message.
#[verifier::opaque]
pub open spec fn spec_show_stmt(s: Rc<Stmt>) -> Text
{
    match s.val {
        StmtT::Call(e) => spec_cat(spec_show_expr(e), spec_lit(";")),
        StmtT::Assert(e) => spec_cat3(spec_lit("_assert("), spec_show_expr(e), spec_lit(");")),
        StmtT::Decl(x, ty) => spec_cat4(spec_show_type(ty), spec_lit(" "), x.val, spec_lit(";")),
        StmtT::Let(x, ty, e) => spec_cat(spec_cat4(spec_show_type(ty), spec_lit(" "), x.val, spec_lit(" = ")), spec_cat(spec_show_expr(e), spec_lit(";"))),
        StmtT::DeclStackArray { name, elem_type, size } => spec_cat(spec_cat4(spec_show_type(elem_type), spec_lit(" "), name.val, spec_lit("[")), spec_cat(spec_show_expr(size), spec_lit("];"))),
        StmtT::Assign(a, b) => spec_cat4(spec_show_expr(a), spec_lit(" = "), spec_show_expr(b), spec_lit(";")),
        StmtT::If { cond, .. } => spec_cat3(spec_lit("if ("), spec_show_expr(cond), spec_lit(") ...")),
        StmtT::Match { scrutinee, .. } => spec_cat3(spec_lit("switch ("), spec_show_expr(scrutinee), spec_lit(") ...")),
        StmtT::While { cond, .. } => spec_cat3(spec_lit("while ("), spec_show_expr(cond), spec_lit(") ...")),
        StmtT::Break => spec_lit("break;"),
        StmtT::Continue => spec_lit("continue;"),
        StmtT::Return(Some(e)) => spec_cat3(spec_lit("return "), spec_show_expr(e), spec_lit(";")),
        StmtT::Return(None) => spec_lit("return;"),
        StmtT::GhostStmt(_) => spec_lit("_ghost_stmt(...);"),
        StmtT::Label { name, .. } => spec_cat(name.val, spec_lit(":")),
        StmtT::Goto(name) => spec_cat3(spec_lit("goto "), name.val, spec_lit(";")),
        StmtT::GotoBlock { label, .. } => spec_cat3(spec_lit("{ ... } "), label.val, spec_lit(":")),
        StmtT::Error => spec_lit("_error;"),
    }
}

/// What kind of statement it is, for a reader's message.
pub fn show_stmt(s: &Rc<Stmt>) -> (out: Text)
    ensures
        out == spec_show_stmt(*s),
{
    proof {
        reveal(spec_show_stmt);
    }
    match &s.val {
        StmtT::Call(e) => cat(show_expr(e), lit(";")),
        StmtT::Assert(e) => cat3(lit("_assert("), show_expr(e), lit(");")),
        StmtT::Decl(x, ty) => cat4(show_type(ty), lit(" "), x.val.clone(), lit(";")),
        StmtT::Let(x, ty, e) => cat(cat4(show_type(ty), lit(" "), x.val.clone(), lit(" = ")), cat(show_expr(e), lit(";"))),
        StmtT::DeclStackArray { name, elem_type, size } => cat(cat4(show_type(elem_type), lit(" "), name.val.clone(), lit("[")), cat(show_expr(size), lit("];"))),
        StmtT::Assign(a, b) => cat4(show_expr(a), lit(" = "), show_expr(b), lit(";")),
        StmtT::If { cond, .. } => cat3(lit("if ("), show_expr(cond), lit(") ...")),
        StmtT::Match { scrutinee, .. } => cat3(lit("switch ("), show_expr(scrutinee), lit(") ...")),
        StmtT::While { cond, .. } => cat3(lit("while ("), show_expr(cond), lit(") ...")),
        StmtT::Break => lit("break;"),
        StmtT::Continue => lit("continue;"),
        StmtT::Return(Some(e)) => cat3(lit("return "), show_expr(e), lit(";")),
        StmtT::Return(None) => lit("return;"),
        StmtT::GhostStmt(_) => lit("_ghost_stmt(...);"),
        StmtT::Label { name, .. } => cat(name.val.clone(), lit(":")),
        StmtT::Goto(name) => cat3(lit("goto "), name.val.clone(), lit(";")),
        StmtT::GotoBlock { label, .. } => cat3(lit("{ ... } "), label.val.clone(), lit(":")),
        StmtT::Error => lit("_error;"),
    }
}

} // verus!
