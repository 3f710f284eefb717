//! Documents: text with places where a line may be broken.
//!
//! The tree mirrors what the layout engine is given. [`render`] lays it out.

use crate::list::{List, l3, spec_l3};
use crate::text::{Text, lit, spec_lit};
use crate::ir::Loc;
use std::rc::Rc;
use vstd::prelude::*;

verus! {

/// A document.
pub enum DocT {
    Nil,
    Text(Text),
    /// A space, or a line break where the group does not fit.
    Line,
    /// A line break.
    Hardline,
    Append(Rc<DocT>, Rc<DocT>),
    /// Two more columns of indentation after each line break within.
    Nest(Rc<DocT>),
    /// Laid out on one line where it fits.
    Group(Rc<DocT>),
    /// What a place of the source gave rise to.
    Annotated(Loc, Rc<DocT>),
}

pub type Doc = Rc<DocT>;

/// No text at all.
#[verifier::opaque]
pub open spec fn spec_nil_doc() -> Doc
{
    Rc::new(DocT::Nil)
}

/// No text at all.
pub fn nil_doc() -> (out: Doc)
    ensures
        out == spec_nil_doc(),
{
    proof {
        reveal(spec_nil_doc);
    }
    Rc::new(DocT::Nil)
}

/// A text.
#[verifier::opaque]
pub open spec fn spec_text_doc(t: Text) -> Doc
{
    Rc::new(DocT::Text(t))
}

/// A text.
pub fn text_doc(t: Text) -> (out: Doc)
    ensures
        out == spec_text_doc(t),
{
    proof {
        reveal(spec_text_doc);
    }
    Rc::new(DocT::Text(t))
}

/// A fixed text.
#[verifier::opaque]
pub open spec fn spec_txt(s: &'static str) -> Doc
{
    spec_text_doc(spec_lit(s))
}

/// A fixed text.
pub fn txt(s: &'static str) -> (out: Doc)
    ensures
        out == spec_txt(s),
{
    proof {
        reveal(spec_txt);
    }
    text_doc(lit(s))
}

/// A space, or a line break where the group does not fit.
#[verifier::opaque]
pub open spec fn spec_line() -> Doc
{
    Rc::new(DocT::Line)
}

/// A space, or a line break where the group does not fit.
pub fn line() -> (out: Doc)
    ensures
        out == spec_line(),
{
    proof {
        reveal(spec_line);
    }
    Rc::new(DocT::Line)
}

/// A line break.
#[verifier::opaque]
pub open spec fn spec_hardline() -> Doc
{
    Rc::new(DocT::Hardline)
}

/// A line break.
pub fn hardline() -> (out: Doc)
    ensures
        out == spec_hardline(),
{
    proof {
        reveal(spec_hardline);
    }
    Rc::new(DocT::Hardline)
}

/// A space.
#[verifier::opaque]
pub open spec fn spec_space() -> Doc
{
    spec_txt(" ")
}

/// A space.
pub fn space() -> (out: Doc)
    ensures
        out == spec_space(),
{
    proof {
        reveal(spec_space);
    }
    txt(" ")
}

/// More indentation.
#[verifier::opaque]
pub open spec fn spec_nest(d: Doc) -> Doc
{
    Rc::new(DocT::Nest(d))
}

/// More indentation.
pub fn nest(d: Doc) -> (out: Doc)
    ensures
        out == spec_nest(d),
{
    proof {
        reveal(spec_nest);
    }
    Rc::new(DocT::Nest(d))
}

/// On one line where it fits.
#[verifier::opaque]
pub open spec fn spec_group(d: Doc) -> Doc
{
    Rc::new(DocT::Group(d))
}

/// On one line where it fits.
pub fn group(d: Doc) -> (out: Doc)
    ensures
        out == spec_group(d),
{
    proof {
        reveal(spec_group);
    }
    Rc::new(DocT::Group(d))
}

/// Marked as coming from a place of the source.
#[verifier::opaque]
pub open spec fn spec_annotated(loc: Loc, d: Doc) -> Doc
{
    Rc::new(DocT::Annotated(loc, d))
}

/// Marked as coming from a place of the source.
pub fn annotated(loc: &Loc, d: Doc) -> (out: Doc)
    ensures
        out == spec_annotated(*loc, d),
{
    proof {
        reveal(spec_annotated);
    }
    Rc::new(DocT::Annotated(loc.clone(), d))
}

/// Two documents in a row.
#[verifier::opaque]
pub open spec fn spec_d2(a: Doc, b: Doc) -> Doc
{
    Rc::new(DocT::Append(a, b))
}

/// Two documents in a row.
pub fn d2(a: Doc, b: Doc) -> (out: Doc)
    ensures
        out == spec_d2(a, b),
{
    proof {
        reveal(spec_d2);
    }
    Rc::new(DocT::Append(a, b))
}

/// Three documents in a row.
#[verifier::opaque]
pub open spec fn spec_d3(a: Doc, b: Doc, c: Doc) -> Doc
{
    spec_d2(spec_d2(a, b), c)
}

/// Three documents in a row.
pub fn d3(a: Doc, b: Doc, c: Doc) -> (out: Doc)
    ensures
        out == spec_d3(a, b, c),
{
    proof {
        reveal(spec_d3);
    }
    d2(d2(a, b), c)
}

/// Four documents in a row.
#[verifier::opaque]
pub open spec fn spec_d4(a: Doc, b: Doc, c: Doc, d: Doc) -> Doc
{
    spec_d2(spec_d3(a, b, c), d)
}

/// Four documents in a row.
pub fn d4(a: Doc, b: Doc, c: Doc, d: Doc) -> (out: Doc)
    ensures
        out == spec_d4(a, b, c, d),
{
    proof {
        reveal(spec_d4);
    }
    d2(d3(a, b, c), d)
}

/// Five documents in a row.
#[verifier::opaque]
pub open spec fn spec_d5(a: Doc, b: Doc, c: Doc, d: Doc, e: Doc) -> Doc
{
    spec_d2(spec_d4(a, b, c, d), e)
}

/// Five documents in a row.
pub fn d5(a: Doc, b: Doc, c: Doc, d: Doc, e: Doc) -> (out: Doc)
    ensures
        out == spec_d5(a, b, c, d, e),
{
    proof {
        reveal(spec_d5);
    }
    d2(d4(a, b, c, d), e)
}

/// Six documents in a row.
#[verifier::opaque]
pub open spec fn spec_d6(a: Doc, b: Doc, c: Doc, d: Doc, e: Doc, f: Doc) -> Doc
{
    spec_d2(spec_d5(a, b, c, d, e), f)
}

/// Six documents in a row.
pub fn d6(a: Doc, b: Doc, c: Doc, d: Doc, e: Doc, f: Doc) -> (out: Doc)
    ensures
        out == spec_d6(a, b, c, d, e, f),
{
    proof {
        reveal(spec_d6);
    }
    d2(d5(a, b, c, d, e), f)
}

/// Seven documents in a row.
#[verifier::opaque]
pub open spec fn spec_d7(a: Doc, b: Doc, c: Doc, d: Doc, e: Doc, f: Doc, g: Doc) -> Doc
{
    spec_d2(spec_d6(a, b, c, d, e, f), g)
}

/// Seven documents in a row.
pub fn d7(a: Doc, b: Doc, c: Doc, d: Doc, e: Doc, f: Doc, g: Doc) -> (out: Doc)
    ensures
        out == spec_d7(a, b, c, d, e, f, g),
{
    proof {
        reveal(spec_d7);
    }
    d2(d6(a, b, c, d, e, f), g)
}

/// Eight documents in a row.
#[verifier::opaque]
pub open spec fn spec_d8(a: Doc, b: Doc, c: Doc, d: Doc, e: Doc, f: Doc, g: Doc, h: Doc) -> Doc
{
    spec_d2(spec_d7(a, b, c, d, e, f, g), h)
}

/// Eight documents in a row.
pub fn d8(a: Doc, b: Doc, c: Doc, d: Doc, e: Doc, f: Doc, g: Doc, h: Doc) -> (out: Doc)
    ensures
        out == spec_d8(a, b, c, d, e, f, g, h),
{
    proof {
        reveal(spec_d8);
    }
    d2(d7(a, b, c, d, e, f, g), h)
}

/// Nine documents in a row.
#[verifier::opaque]
pub open spec fn spec_d9(
    a: Doc,
    b: Doc,
    c: Doc,
    d: Doc,
    e: Doc,
    f: Doc,
    g: Doc,
    h: Doc,
    i: Doc,
) -> Doc
{
    spec_d2(spec_d8(a, b, c, d, e, f, g, h), i)
}

/// Nine documents in a row.
pub fn d9(a: Doc, b: Doc, c: Doc, d: Doc, e: Doc, f: Doc, g: Doc, h: Doc, i: Doc) -> (out: Doc)
    ensures
        out == spec_d9(a, b, c, d, e, f, g, h, i),
{
    proof {
        reveal(spec_d9);
    }
    d2(d8(a, b, c, d, e, f, g, h), i)
}

/// The documents after `acc`, with `sep` in front of each.
pub open spec fn spec_join_onto(acc: Doc, l: Rc<List<DocT>>, sep: Doc) -> Doc
    decreases l,
{
    match *l {
        List::Nil => acc,
        List::Cons(h, t) => spec_join_onto(spec_d2(spec_d2(acc, sep), h), t, sep),
    }
}

/// The documents after `acc`, with `sep` in front of each.
pub fn join_onto(acc: Doc, l: &Rc<List<DocT>>, sep: &Doc) -> (out: Doc)
    ensures
        out == spec_join_onto(acc, *l, *sep),
    decreases l,
{
    match &**l {
        List::Nil => acc,
        List::Cons(h, t) => join_onto(d2(d2(acc, sep.clone()), h.clone()), t, sep),
    }
}

/// The documents with `sep` between them.
#[verifier::opaque]
pub open spec fn spec_intersperse(l: Rc<List<DocT>>, sep: Doc) -> Doc
{
    match *l {
        List::Nil => spec_nil_doc(),
        List::Cons(h, t) => spec_join_onto(h, t, sep),
    }
}

/// The documents with `sep` between them.
pub fn intersperse(l: &Rc<List<DocT>>, sep: &Doc) -> (out: Doc)
    ensures
        out == spec_intersperse(*l, *sep),
{
    proof {
        reveal(spec_intersperse);
    }
    match &**l {
        List::Nil => nil_doc(),
        List::Cons(h, t) => join_onto(h.clone(), t, sep),
    }
}

/// The documents after `acc`.
pub open spec fn spec_concat_onto(acc: Doc, l: Rc<List<DocT>>) -> Doc
    decreases l,
{
    match *l {
        List::Nil => acc,
        List::Cons(h, t) => spec_concat_onto(spec_d2(acc, h), t),
    }
}

/// The documents after `acc`.
pub fn concat_onto(acc: Doc, l: &Rc<List<DocT>>) -> (out: Doc)
    ensures
        out == spec_concat_onto(acc, *l),
    decreases l,
{
    match &**l {
        List::Nil => acc,
        List::Cons(h, t) => concat_onto(d2(acc, h.clone()), t),
    }
}

/// The documents in a row.
#[verifier::opaque]
pub open spec fn spec_concat(l: Rc<List<DocT>>) -> Doc
{
    spec_concat_onto(spec_nil_doc(), l)
}

/// The documents in a row.
pub fn concat(l: &Rc<List<DocT>>) -> (out: Doc)
    ensures
        out == spec_concat(*l),
{
    proof {
        reveal(spec_concat);
    }
    concat_onto(nil_doc(), l)
}

/// The documents in a row, each after a possible line break.
#[verifier::opaque]
pub open spec fn spec_lines_before(l: Rc<List<DocT>>) -> Doc
{
    spec_lines_onto(spec_nil_doc(), l)
}

/// The documents in a row, each after a possible line break.
pub fn lines_before(l: &Rc<List<DocT>>) -> (out: Doc)
    ensures
        out == spec_lines_before(*l),
{
    proof {
        reveal(spec_lines_before);
    }
    lines_onto(nil_doc(), l)
}

/// The documents after `acc`, each after a possible line break.
pub open spec fn spec_lines_onto(acc: Doc, l: Rc<List<DocT>>) -> Doc
    decreases l,
{
    match *l {
        List::Nil => acc,
        List::Cons(h, t) => spec_lines_onto(spec_d2(acc, spec_d2(spec_line(), h)), t),
    }
}

/// The documents after `acc`, each after a possible line break.
pub fn lines_onto(acc: Doc, l: &Rc<List<DocT>>) -> (out: Doc)
    ensures
        out == spec_lines_onto(acc, *l),
    decreases l,
{
    match &**l {
        List::Nil => acc,
        List::Cons(h, t) => lines_onto(d2(acc, d2(line(), h.clone())), t),
    }
}

/// The documents, each on a line of its own behind a keyword.
#[verifier::opaque]
pub open spec fn spec_clauses(kw: &'static str, l: Rc<List<DocT>>) -> Doc
{
    spec_clauses_onto(spec_nil_doc(), kw, l)
}

/// The documents, each on a line of its own behind a keyword.
pub fn clauses(kw: &'static str, l: &Rc<List<DocT>>) -> (out: Doc)
    ensures
        out == spec_clauses(kw, *l),
{
    proof {
        reveal(spec_clauses);
    }
    clauses_onto(nil_doc(), kw, l)
}

/// The documents after `acc`, each on a line of its own behind a keyword.
pub open spec fn spec_clauses_onto(acc: Doc, kw: &'static str, l: Rc<List<DocT>>) -> Doc
    decreases l,
{
    match *l {
        List::Nil => acc,
        List::Cons(h, t) => spec_clauses_onto(spec_d2(acc, spec_d2(spec_hardline(), spec_group(spec_nest(spec_d3(spec_txt(kw), spec_line(), h))))), kw, t),
    }
}

/// The documents after `acc`, each on a line of its own behind a keyword.
pub fn clauses_onto(acc: Doc, kw: &'static str, l: &Rc<List<DocT>>) -> (out: Doc)
    ensures
        out == spec_clauses_onto(acc, kw, *l),
    decreases l,
{
    match &**l {
        List::Nil => acc,
        List::Cons(h, t) => clauses_onto(
            d2(acc, d2(hardline(), group(nest(d3(txt(kw), line(), h.clone()))))), kw, t),
    }
}

/// In parentheses.
#[verifier::opaque]
pub open spec fn spec_parens(d: Doc) -> Doc
{
    spec_group(spec_nest(spec_d3(spec_txt("("), d, spec_txt(")"))))
}

/// In parentheses.
pub fn parens(d: Doc) -> (out: Doc)
    ensures
        out == spec_parens(d),
{
    proof {
        reveal(spec_parens);
    }
    group(nest(d3(txt("("), d, txt(")"))))
}

/// Each document in parentheses.
pub open spec fn spec_parens_all(l: Rc<List<DocT>>) -> Rc<List<DocT>>
    decreases l,
{
    match *l {
        List::Nil => Rc::new(List::Nil),
        List::Cons(h, t) => Rc::new(List::Cons(spec_parens(h), spec_parens_all(t))),
    }
}

/// Each document in parentheses.
pub fn parens_all(l: &Rc<List<DocT>>) -> (out: Rc<List<DocT>>)
    ensures
        out == spec_parens_all(*l),
    decreases l,
{
    match &**l {
        List::Nil => Rc::new(List::Nil),
        List::Cons(h, t) => Rc::new(List::Cons(parens(h.clone()), parens_all(t))),
    }
}

/// Each document as a group.
pub open spec fn spec_group_all(l: Rc<List<DocT>>) -> Rc<List<DocT>>
    decreases l,
{
    match *l {
        List::Nil => Rc::new(List::Nil),
        List::Cons(h, t) => Rc::new(List::Cons(spec_group(h), spec_group_all(t))),
    }
}

/// Each document as a group.
pub fn group_all(l: &Rc<List<DocT>>) -> (out: Rc<List<DocT>>)
    ensures
        out == spec_group_all(*l),
    decreases l,
{
    match &**l {
        List::Nil => Rc::new(List::Nil),
        List::Cons(h, t) => Rc::new(List::Cons(group(h.clone()), group_all(t))),
    }
}

/// A function applied to an argument.
#[verifier::opaque]
pub open spec fn spec_unaryfn(f: Doc, arg: Doc) -> Doc
{
    spec_parens(spec_d3(f, spec_line(), arg))
}

/// A function applied to an argument.
pub fn unaryfn(f: Doc, arg: Doc) -> (out: Doc)
    ensures
        out == spec_unaryfn(f, arg),
{
    proof {
        reveal(spec_unaryfn);
    }
    parens(d3(f, line(), arg))
}

/// A function applied to arguments.
#[verifier::opaque]
pub open spec fn spec_naryfn(args: Rc<List<DocT>>) -> Doc
{
    spec_parens(spec_intersperse(args, spec_line()))
}

/// A function applied to arguments.
pub fn naryfn(args: &Rc<List<DocT>>) -> (out: Doc)
    ensures
        out == spec_naryfn(*args),
{
    proof {
        reveal(spec_naryfn);
    }
    parens(intersperse(args, &line()))
}

/// A function applied to arguments, without parentheses around it.
#[verifier::opaque]
pub open spec fn spec_nary_no_parens(args: Rc<List<DocT>>) -> Doc
{
    spec_intersperse(args, spec_space())
}

/// A function applied to arguments, without parentheses around it.
pub fn nary_no_parens(args: &Rc<List<DocT>>) -> (out: Doc)
    ensures
        out == spec_nary_no_parens(*args),
{
    proof {
        reveal(spec_nary_no_parens);
    }
    intersperse(args, &space())
}

/// A term at a given type.
///
/// Many F* functions encode their specifications as refinements in the return type.
/// This breaks type inference, so the term is wrapped in `id #desired_type ...`.
/// `(... <: desired_type)` does not work as well, since it is normalized somewhere.
#[verifier::opaque]
pub open spec fn spec_with_type(t: Doc, ty: Doc) -> Doc
{
    spec_naryfn(spec_l3(spec_txt("id"), spec_d2(spec_txt("#"), ty), t))
}

/// A term at a given type.
///
/// Many F* functions encode their specifications as refinements in the return type.
/// This breaks type inference, so the term is wrapped in `id #desired_type ...`.
/// `(... <: desired_type)` does not work as well, since it is normalized somewhere.
pub fn with_type(t: Doc, ty: Doc) -> (out: Doc)
    ensures
        out == spec_with_type(t, ty),
{
    proof {
        reveal(spec_with_type);
    }
    naryfn(&l3(txt("id"), d2(txt("#"), ty), t))
}

/// A function applied to an argument, at a given type.
#[verifier::opaque]
pub open spec fn spec_unaryfn_with_type(f: Doc, arg: Doc, ty: Doc) -> Doc
{
    spec_with_type(spec_unaryfn(f, arg), ty)
}

/// A function applied to an argument, at a given type.
pub fn unaryfn_with_type(f: Doc, arg: Doc, ty: Doc) -> (out: Doc)
    ensures
        out == spec_unaryfn_with_type(f, arg, ty),
{
    proof {
        reveal(spec_unaryfn_with_type);
    }
    with_type(unaryfn(f, arg), ty)
}

/// An operator between its operands.
#[verifier::opaque]
pub open spec fn spec_binop(a: Doc, op: Doc, b: Doc) -> Doc
{
    spec_parens(spec_d3(spec_group(spec_d3(a, spec_line(), op)), spec_line(), b))
}

/// An operator between its operands.
pub fn binop(a: Doc, op: Doc, b: Doc) -> (out: Doc)
    ensures
        out == spec_binop(a, op, b),
{
    proof {
        reveal(spec_binop);
    }
    parens(d3(group(d3(a, line(), op)), line(), b))
}

/// Statements in braces.
#[verifier::opaque]
pub open spec fn spec_block(stmts: Doc) -> Doc
{
    spec_group(spec_d4(spec_txt("{"), spec_nest(stmts), spec_hardline(), spec_txt("}")))
}

/// Statements in braces.
pub fn block(stmts: Doc) -> (out: Doc)
    ensures
        out == spec_block(stmts),
{
    proof {
        reveal(spec_block);
    }
    group(d4(txt("{"), nest(stmts), hardline(), txt("}")))
}

} // verus!
