//! The texts of documents, and what is proved of the shapes that they are built from.

use crate::list::{
    List, spec_cons, spec_l1, spec_l2, spec_l3, spec_l4, spec_l5, spec_l6, spec_l7,
    spec_list_append, spec_list_push, spec_nil,
};
use crate::text::{
    Rope, Text, nat_chars, spec_cat, spec_cat3, spec_cat4, spec_cat5, spec_lit, spec_num,
    spec_width_text,
};
use crate::ir::Loc;
use crate::doc::{
    Doc, DocT, spec_annotated, spec_binop, spec_block, spec_clauses, spec_clauses_onto,
    spec_concat, spec_concat_onto, spec_d2, spec_d3, spec_d4, spec_d5, spec_d6, spec_d7, spec_d8,
    spec_d9, spec_group, spec_hardline, spec_intersperse, spec_join_onto, spec_line,
    spec_lines_before, spec_lines_onto, spec_nary_no_parens, spec_naryfn, spec_nest, spec_nil_doc,
    spec_parens, spec_space, spec_text_doc, spec_txt, spec_unaryfn, spec_unaryfn_with_type,
    spec_with_type,
};
use crate::emit_base::{
    spec_binder, spec_mk_assume_val, spec_mk_attrs, spec_mk_definition, spec_mk_fun,
    spec_mk_let_rec, spec_mk_predicate_tail, spec_mk_star, spec_mk_thunk, spec_star_onto,
};
use crate::emit_exprs::{
    spec_if_then_else, spec_nonzero, spec_record_entry, spec_record_literal, spec_unary_closing,
};
use crate::emit_stmts::{
    spec_call_stmt, spec_defer_stmt, spec_let_stmt, spec_pure_let, spec_store_stmt,
};
use crate::emit_fns::{spec_let_in, spec_returns_clause};
use std::rc::Rc;
use vstd::prelude::*;

verus! {

/// The text of a document on one line, but for the breaks that it always has.
pub open spec fn flat(d: Doc) -> Seq<char>
    decreases d,
{
    match *d {
        DocT::Nil => Seq::empty(),
        DocT::Text(t) => t.chars(),
        DocT::Line => " "@,
        DocT::Hardline => "\n"@,
        DocT::Append(a, b) => flat(a) + flat(b),
        DocT::Nest(a) => flat(a),
        DocT::Group(a) => flat(a),
        DocT::Annotated(_, a) => flat(a),
    }
}

/// Texts in a row may be put together in any order.
pub broadcast proof fn lemma_texts_assoc(a: Seq<char>, b: Seq<char>, c: Seq<char>)
    ensures
        #[trigger] (a + (b + c)) == (a + b) + c,
{
    assert(a + (b + c) =~= (a + b) + c);
}

/// No text in front changes nothing.
pub broadcast proof fn lemma_no_text_before(a: Seq<char>)
    ensures
        #[trigger] (Seq::<char>::empty() + a) == a,
{
    assert(Seq::<char>::empty() + a =~= a);
}

/// No text behind changes nothing.
pub broadcast proof fn lemma_no_text_behind(a: Seq<char>)
    ensures
        #[trigger] (a + Seq::<char>::empty()) == a,
{
    assert(a + Seq::<char>::empty() =~= a);
}

/// The text of texts in a row.
pub broadcast proof fn lemma_chars_cat(a: Text, b: Text)
    ensures
        (#[trigger] spec_cat(a, b)).chars() == a.chars() + b.chars(),
{
    broadcast use {lemma_texts_assoc, lemma_no_text_behind};
    reveal(spec_cat);
    reveal(spec_cat);
    reveal(spec_cat3);
    reveal(spec_cat4);
    reveal_with_fuel(Rope::chars, 3);
}

/// The text of texts in a row.
pub broadcast proof fn lemma_chars_cat3(a: Text, b: Text, c: Text)
    ensures
        (#[trigger] spec_cat3(a, b, c)).chars() == a.chars() + b.chars() + c.chars(),
{
    broadcast use {lemma_texts_assoc, lemma_no_text_behind};
    reveal(spec_cat3);
    reveal(spec_cat);
    reveal(spec_cat3);
    reveal(spec_cat4);
    reveal_with_fuel(Rope::chars, 4);
}

/// The text of texts in a row.
pub broadcast proof fn lemma_chars_cat4(a: Text, b: Text, c: Text, d: Text)
    ensures
        (#[trigger] spec_cat4(a, b, c, d)).chars() == a.chars() + b.chars() + c.chars() + d.chars(),
{
    broadcast use {lemma_texts_assoc, lemma_no_text_behind};
    reveal(spec_cat4);
    reveal(spec_cat);
    reveal(spec_cat3);
    reveal(spec_cat4);
    reveal_with_fuel(Rope::chars, 5);
}

/// The text of texts in a row.
pub broadcast proof fn lemma_chars_cat5(a: Text, b: Text, c: Text, d: Text, e: Text)
    ensures
        (#[trigger] spec_cat5(a, b, c, d, e)).chars() == a.chars() + b.chars() + c.chars() + d.chars() + e.chars(),
{
    broadcast use {lemma_texts_assoc, lemma_no_text_behind};
    reveal(spec_cat5);
    reveal(spec_cat);
    reveal(spec_cat3);
    reveal(spec_cat4);
    reveal_with_fuel(Rope::chars, 6);
}

/// The text of such a text.
pub broadcast proof fn lemma_chars_lit(s: &'static str)
    ensures
        (#[trigger] spec_lit(s)).chars() == s@,
{
    reveal(spec_lit);
}

/// The text of such a text.
pub broadcast proof fn lemma_chars_num(n: u64)
    ensures
        (#[trigger] spec_num(n)).chars() == nat_chars(n as nat),
{
    reveal(spec_num);
}

/// The text of such a text.
pub broadcast proof fn lemma_chars_width_text(w: u32)
    ensures
        (#[trigger] spec_width_text(w)).chars() == nat_chars(w as nat),
{
    reveal(spec_width_text);
}

/// The text of such a document.
pub broadcast proof fn lemma_flat_nil_doc()
    ensures
        #[trigger] flat(spec_nil_doc()) == Seq::<char>::empty(),
{
    broadcast use {lemma_texts_assoc, lemma_no_text_before, lemma_no_text_behind, lemma_chars_cat, lemma_chars_cat3, lemma_chars_cat4, lemma_chars_cat5, lemma_chars_lit, lemma_chars_num, lemma_chars_width_text};
    reveal(spec_nil_doc);
    reveal_with_fuel(flat, 4);
}

/// The text of such a document.
pub broadcast proof fn lemma_flat_text_doc(t: Text)
    ensures
        #[trigger] flat(spec_text_doc(t)) == t.chars(),
{
    broadcast use {lemma_texts_assoc, lemma_no_text_before, lemma_no_text_behind, lemma_chars_cat, lemma_chars_cat3, lemma_chars_cat4, lemma_chars_cat5, lemma_chars_lit, lemma_chars_num, lemma_chars_width_text, lemma_flat_nil_doc};
    reveal(spec_text_doc);
    reveal_with_fuel(flat, 4);
}

/// The text of such a document.
pub broadcast proof fn lemma_flat_txt(s: &'static str)
    ensures
        #[trigger] flat(spec_txt(s)) == s@,
{
    broadcast use {lemma_texts_assoc, lemma_no_text_before, lemma_no_text_behind, lemma_chars_cat, lemma_chars_cat3, lemma_chars_cat4, lemma_chars_cat5, lemma_chars_lit, lemma_chars_num, lemma_chars_width_text, lemma_flat_nil_doc, lemma_flat_text_doc};
    reveal(spec_txt);
    reveal_with_fuel(flat, 4);
}

/// The text of such a document.
pub broadcast proof fn lemma_flat_line()
    ensures
        #[trigger] flat(spec_line()) == " "@,
{
    broadcast use {lemma_texts_assoc, lemma_no_text_before, lemma_no_text_behind, lemma_chars_cat, lemma_chars_cat3, lemma_chars_cat4, lemma_chars_cat5, lemma_chars_lit, lemma_chars_num, lemma_chars_width_text, lemma_flat_nil_doc, lemma_flat_text_doc, lemma_flat_txt};
    reveal(spec_line);
    reveal_with_fuel(flat, 4);
}

/// The text of such a document.
pub broadcast proof fn lemma_flat_hardline()
    ensures
        #[trigger] flat(spec_hardline()) == "\n"@,
{
    broadcast use {lemma_texts_assoc, lemma_no_text_before, lemma_no_text_behind, lemma_chars_cat, lemma_chars_cat3, lemma_chars_cat4, lemma_chars_cat5, lemma_chars_lit, lemma_chars_num, lemma_chars_width_text, lemma_flat_nil_doc, lemma_flat_text_doc, lemma_flat_txt, lemma_flat_line};
    reveal(spec_hardline);
    reveal_with_fuel(flat, 4);
}

/// The text of such a document.
pub broadcast proof fn lemma_flat_space()
    ensures
        #[trigger] flat(spec_space()) == " "@,
{
    broadcast use {lemma_texts_assoc, lemma_no_text_before, lemma_no_text_behind, lemma_chars_cat, lemma_chars_cat3, lemma_chars_cat4, lemma_chars_cat5, lemma_chars_lit, lemma_chars_num, lemma_chars_width_text, lemma_flat_nil_doc, lemma_flat_text_doc, lemma_flat_txt, lemma_flat_line, lemma_flat_hardline};
    reveal(spec_space);
    reveal_with_fuel(flat, 4);
}

/// The text of such a document.
pub broadcast proof fn lemma_flat_nest(d: Doc)
    ensures
        #[trigger] flat(spec_nest(d)) == flat(d),
{
    broadcast use {lemma_texts_assoc, lemma_no_text_before, lemma_no_text_behind, lemma_chars_cat, lemma_chars_cat3, lemma_chars_cat4, lemma_chars_cat5, lemma_chars_lit, lemma_chars_num, lemma_chars_width_text, lemma_flat_nil_doc, lemma_flat_text_doc, lemma_flat_txt, lemma_flat_line, lemma_flat_hardline, lemma_flat_space};
    reveal(spec_nest);
    reveal_with_fuel(flat, 4);
}

/// The text of such a document.
pub broadcast proof fn lemma_flat_group(d: Doc)
    ensures
        #[trigger] flat(spec_group(d)) == flat(d),
{
    broadcast use {lemma_texts_assoc, lemma_no_text_before, lemma_no_text_behind, lemma_chars_cat, lemma_chars_cat3, lemma_chars_cat4, lemma_chars_cat5, lemma_chars_lit, lemma_chars_num, lemma_chars_width_text, lemma_flat_nil_doc, lemma_flat_text_doc, lemma_flat_txt, lemma_flat_line, lemma_flat_hardline, lemma_flat_space, lemma_flat_nest};
    reveal(spec_group);
    reveal_with_fuel(flat, 4);
}

/// The text of such a document.
pub broadcast proof fn lemma_flat_annotated(loc: Loc, d: Doc)
    ensures
        #[trigger] flat(spec_annotated(loc, d)) == flat(d),
{
    broadcast use {lemma_texts_assoc, lemma_no_text_before, lemma_no_text_behind, lemma_chars_cat, lemma_chars_cat3, lemma_chars_cat4, lemma_chars_cat5, lemma_chars_lit, lemma_chars_num, lemma_chars_width_text, lemma_flat_nil_doc, lemma_flat_text_doc, lemma_flat_txt, lemma_flat_line, lemma_flat_hardline, lemma_flat_space, lemma_flat_nest, lemma_flat_group};
    reveal(spec_annotated);
    reveal_with_fuel(flat, 4);
}

/// The text of such a document.
pub broadcast proof fn lemma_flat_d2(a: Doc, b: Doc)
    ensures
        #[trigger] flat(spec_d2(a, b)) == flat(a) + flat(b),
{
    broadcast use {lemma_texts_assoc, lemma_no_text_before, lemma_no_text_behind, lemma_chars_cat, lemma_chars_cat3, lemma_chars_cat4, lemma_chars_cat5, lemma_chars_lit, lemma_chars_num, lemma_chars_width_text, lemma_flat_nil_doc, lemma_flat_text_doc, lemma_flat_txt, lemma_flat_line, lemma_flat_hardline, lemma_flat_space, lemma_flat_nest, lemma_flat_group, lemma_flat_annotated};
    reveal(spec_d2);
    reveal_with_fuel(flat, 4);
}

/// The text of such a document.
pub broadcast proof fn lemma_flat_d3(a: Doc, b: Doc, c: Doc)
    ensures
        #[trigger] flat(spec_d3(a, b, c)) == flat(a) + flat(b) + flat(c),
{
    broadcast use {lemma_texts_assoc, lemma_no_text_before, lemma_no_text_behind, lemma_chars_cat, lemma_chars_cat3, lemma_chars_cat4, lemma_chars_cat5, lemma_chars_lit, lemma_chars_num, lemma_chars_width_text, lemma_flat_nil_doc, lemma_flat_text_doc, lemma_flat_txt, lemma_flat_line, lemma_flat_hardline, lemma_flat_space, lemma_flat_nest, lemma_flat_group, lemma_flat_annotated, lemma_flat_d2};
    reveal(spec_d3);
    reveal_with_fuel(flat, 2);
}

/// The text of such a document.
pub broadcast proof fn lemma_flat_d4(a: Doc, b: Doc, c: Doc, d: Doc)
    ensures
        #[trigger] flat(spec_d4(a, b, c, d)) == flat(a) + flat(b) + flat(c) + flat(d),
{
    broadcast use {lemma_texts_assoc, lemma_no_text_before, lemma_no_text_behind, lemma_chars_cat, lemma_chars_cat3, lemma_chars_cat4, lemma_chars_cat5, lemma_chars_lit, lemma_chars_num, lemma_chars_width_text, lemma_flat_nil_doc, lemma_flat_text_doc, lemma_flat_txt, lemma_flat_line, lemma_flat_hardline, lemma_flat_space, lemma_flat_nest, lemma_flat_group, lemma_flat_annotated, lemma_flat_d2, lemma_flat_d3};
    reveal(spec_d4);
    reveal_with_fuel(flat, 2);
}

/// The text of such a document.
pub broadcast proof fn lemma_flat_d5(a: Doc, b: Doc, c: Doc, d: Doc, e: Doc)
    ensures
        #[trigger] flat(spec_d5(a, b, c, d, e)) == flat(a) + flat(b) + flat(c) + flat(d) + flat(e),
{
    broadcast use {lemma_texts_assoc, lemma_no_text_before, lemma_no_text_behind, lemma_chars_cat, lemma_chars_cat3, lemma_chars_cat4, lemma_chars_cat5, lemma_chars_lit, lemma_chars_num, lemma_chars_width_text, lemma_flat_nil_doc, lemma_flat_text_doc, lemma_flat_txt, lemma_flat_line, lemma_flat_hardline, lemma_flat_space, lemma_flat_nest, lemma_flat_group, lemma_flat_annotated, lemma_flat_d2, lemma_flat_d3, lemma_flat_d4};
    reveal(spec_d5);
    reveal_with_fuel(flat, 2);
}

/// The text of such a document.
pub broadcast proof fn lemma_flat_d6(a: Doc, b: Doc, c: Doc, d: Doc, e: Doc, f: Doc)
    ensures
        #[trigger] flat(spec_d6(a, b, c, d, e, f)) == flat(a) + flat(b) + flat(c) + flat(d) + flat(e) + flat(f),
{
    broadcast use {lemma_texts_assoc, lemma_no_text_before, lemma_no_text_behind, lemma_chars_cat, lemma_chars_cat3, lemma_chars_cat4, lemma_chars_cat5, lemma_chars_lit, lemma_chars_num, lemma_chars_width_text, lemma_flat_nil_doc, lemma_flat_text_doc, lemma_flat_txt, lemma_flat_line, lemma_flat_hardline, lemma_flat_space, lemma_flat_nest, lemma_flat_group, lemma_flat_annotated, lemma_flat_d2, lemma_flat_d3, lemma_flat_d4, lemma_flat_d5};
    reveal(spec_d6);
    reveal_with_fuel(flat, 2);
}

/// The text of such a document.
pub broadcast proof fn lemma_flat_d7(a: Doc, b: Doc, c: Doc, d: Doc, e: Doc, f: Doc, g: Doc)
    ensures
        #[trigger] flat(spec_d7(a, b, c, d, e, f, g)) == flat(a) + flat(b) + flat(c) + flat(d) + flat(e) + flat(f) + flat(g),
{
    broadcast use {lemma_texts_assoc, lemma_no_text_before, lemma_no_text_behind, lemma_chars_cat, lemma_chars_cat3, lemma_chars_cat4, lemma_chars_cat5, lemma_chars_lit, lemma_chars_num, lemma_chars_width_text, lemma_flat_nil_doc, lemma_flat_text_doc, lemma_flat_txt, lemma_flat_line, lemma_flat_hardline, lemma_flat_space, lemma_flat_nest, lemma_flat_group, lemma_flat_annotated, lemma_flat_d2, lemma_flat_d3, lemma_flat_d4, lemma_flat_d5, lemma_flat_d6};
    reveal(spec_d7);
    reveal_with_fuel(flat, 2);
}

/// The text of such a document.
pub broadcast proof fn lemma_flat_d8(a: Doc, b: Doc, c: Doc, d: Doc, e: Doc, f: Doc, g: Doc, h: Doc)
    ensures
        #[trigger] flat(spec_d8(a, b, c, d, e, f, g, h)) == flat(a) + flat(b) + flat(c) + flat(d) + flat(e) + flat(f) + flat(g) + flat(h),
{
    broadcast use {lemma_texts_assoc, lemma_no_text_before, lemma_no_text_behind, lemma_chars_cat, lemma_chars_cat3, lemma_chars_cat4, lemma_chars_cat5, lemma_chars_lit, lemma_chars_num, lemma_chars_width_text, lemma_flat_nil_doc, lemma_flat_text_doc, lemma_flat_txt, lemma_flat_line, lemma_flat_hardline, lemma_flat_space, lemma_flat_nest, lemma_flat_group, lemma_flat_annotated, lemma_flat_d2, lemma_flat_d3, lemma_flat_d4, lemma_flat_d5, lemma_flat_d6, lemma_flat_d7};
    reveal(spec_d8);
    reveal_with_fuel(flat, 2);
}

/// The text of such a document.
pub broadcast proof fn lemma_flat_d9(a: Doc, b: Doc, c: Doc, d: Doc, e: Doc, f: Doc, g: Doc, h: Doc, i: Doc)
    ensures
        #[trigger] flat(spec_d9(a, b, c, d, e, f, g, h, i)) == flat(a) + flat(b) + flat(c) + flat(d) + flat(e) + flat(f) + flat(g) + flat(h) + flat(i),
{
    broadcast use {lemma_texts_assoc, lemma_no_text_before, lemma_no_text_behind, lemma_chars_cat, lemma_chars_cat3, lemma_chars_cat4, lemma_chars_cat5, lemma_chars_lit, lemma_chars_num, lemma_chars_width_text, lemma_flat_nil_doc, lemma_flat_text_doc, lemma_flat_txt, lemma_flat_line, lemma_flat_hardline, lemma_flat_space, lemma_flat_nest, lemma_flat_group, lemma_flat_annotated, lemma_flat_d2, lemma_flat_d3, lemma_flat_d4, lemma_flat_d5, lemma_flat_d6, lemma_flat_d7, lemma_flat_d8};
    reveal(spec_d9);
    reveal_with_fuel(flat, 2);
}

/// The text of such a document.
pub broadcast proof fn lemma_flat_parens(d: Doc)
    ensures
        #[trigger] flat(spec_parens(d)) == "("@ + flat(d) + ")"@,
{
    broadcast use {lemma_texts_assoc, lemma_no_text_before, lemma_no_text_behind, lemma_chars_cat, lemma_chars_cat3, lemma_chars_cat4, lemma_chars_cat5, lemma_chars_lit, lemma_chars_num, lemma_chars_width_text, lemma_flat_nil_doc, lemma_flat_text_doc, lemma_flat_txt, lemma_flat_line, lemma_flat_hardline, lemma_flat_space, lemma_flat_nest, lemma_flat_group, lemma_flat_annotated, lemma_flat_d2, lemma_flat_d3, lemma_flat_d4, lemma_flat_d5, lemma_flat_d6, lemma_flat_d7, lemma_flat_d8, lemma_flat_d9};
    reveal(spec_parens);
    reveal_with_fuel(flat, 4);
}

/// The text of such a document.
pub broadcast proof fn lemma_flat_unaryfn(f: Doc, arg: Doc)
    ensures
        #[trigger] flat(spec_unaryfn(f, arg)) == "("@ + flat(f) + " "@ + flat(arg) + ")"@,
{
    broadcast use {lemma_texts_assoc, lemma_no_text_before, lemma_no_text_behind, lemma_chars_cat, lemma_chars_cat3, lemma_chars_cat4, lemma_chars_cat5, lemma_chars_lit, lemma_chars_num, lemma_chars_width_text, lemma_flat_nil_doc, lemma_flat_text_doc, lemma_flat_txt, lemma_flat_line, lemma_flat_hardline, lemma_flat_space, lemma_flat_nest, lemma_flat_group, lemma_flat_annotated, lemma_flat_d2, lemma_flat_d3, lemma_flat_d4, lemma_flat_d5, lemma_flat_d6, lemma_flat_d7, lemma_flat_d8, lemma_flat_d9, lemma_flat_parens};
    reveal(spec_unaryfn);
    reveal_with_fuel(flat, 4);
}

/// The texts of documents, each behind a separator.
pub open spec fn each_behind(sep: Seq<char>, l: Rc<List<DocT>>) -> Seq<char>
    decreases l,
{
    match *l {
        List::Nil => Seq::empty(),
        List::Cons(h, t) => sep + flat(h) + each_behind(sep, t),
    }
}

/// The texts of documents, with a separator between them.
pub open spec fn separated(sep: Seq<char>, l: Rc<List<DocT>>) -> Seq<char> {
    match *l {
        List::Nil => Seq::empty(),
        List::Cons(h, t) => flat(h) + each_behind(sep, t),
    }
}

/// Joined documents.
proof fn lemma_join_onto(acc: Doc, l: Rc<List<DocT>>, sep: Doc)
    ensures
        flat(spec_join_onto(acc, l, sep)) == flat(acc) + each_behind(flat(sep), l),
    decreases l,
{
    broadcast use {lemma_texts_assoc, lemma_no_text_before, lemma_no_text_behind, lemma_chars_cat, lemma_chars_cat3, lemma_chars_cat4, lemma_chars_cat5, lemma_chars_lit, lemma_chars_num, lemma_chars_width_text, lemma_flat_nil_doc, lemma_flat_text_doc, lemma_flat_txt, lemma_flat_line, lemma_flat_hardline, lemma_flat_space, lemma_flat_nest, lemma_flat_group, lemma_flat_annotated, lemma_flat_d2, lemma_flat_d3, lemma_flat_d4, lemma_flat_d5, lemma_flat_d6, lemma_flat_d7, lemma_flat_d8, lemma_flat_d9, lemma_flat_parens, lemma_flat_unaryfn};
    match *l {
        List::Nil => {},
        List::Cons(h, t) => lemma_join_onto(spec_d2(spec_d2(acc, sep), h), t, sep),
    }
}

/// Documents with a separator between them.
pub broadcast proof fn lemma_flat_intersperse(l: Rc<List<DocT>>, sep: Doc)
    ensures
        #[trigger] flat(spec_intersperse(l, sep)) == separated(flat(sep), l),
{
    broadcast use {lemma_texts_assoc, lemma_no_text_before, lemma_no_text_behind, lemma_chars_cat, lemma_chars_cat3, lemma_chars_cat4, lemma_chars_cat5, lemma_chars_lit, lemma_chars_num, lemma_chars_width_text, lemma_flat_nil_doc, lemma_flat_text_doc, lemma_flat_txt, lemma_flat_line, lemma_flat_hardline, lemma_flat_space, lemma_flat_nest, lemma_flat_group, lemma_flat_annotated, lemma_flat_d2, lemma_flat_d3, lemma_flat_d4, lemma_flat_d5, lemma_flat_d6, lemma_flat_d7, lemma_flat_d8, lemma_flat_d9, lemma_flat_parens, lemma_flat_unaryfn};
    reveal(spec_intersperse);
    match *l {
        List::Nil => {},
        List::Cons(h, t) => lemma_join_onto(h, t, sep),
    }
}

/// Documents in a row.
proof fn lemma_concat_onto(acc: Doc, l: Rc<List<DocT>>)
    ensures
        flat(spec_concat_onto(acc, l)) == flat(acc) + each_behind(Seq::empty(), l),
    decreases l,
{
    broadcast use {lemma_texts_assoc, lemma_no_text_before, lemma_no_text_behind, lemma_chars_cat, lemma_chars_cat3, lemma_chars_cat4, lemma_chars_cat5, lemma_chars_lit, lemma_chars_num, lemma_chars_width_text, lemma_flat_nil_doc, lemma_flat_text_doc, lemma_flat_txt, lemma_flat_line, lemma_flat_hardline, lemma_flat_space, lemma_flat_nest, lemma_flat_group, lemma_flat_annotated, lemma_flat_d2, lemma_flat_d3, lemma_flat_d4, lemma_flat_d5, lemma_flat_d6, lemma_flat_d7, lemma_flat_d8, lemma_flat_d9, lemma_flat_parens, lemma_flat_unaryfn};
    match *l {
        List::Nil => {},
        List::Cons(h, t) => lemma_concat_onto(spec_d2(acc, h), t),
    }
}

/// Documents in a row.
pub broadcast proof fn lemma_flat_concat(l: Rc<List<DocT>>)
    ensures
        #[trigger] flat(spec_concat(l)) == each_behind(Seq::empty(), l),
{
    broadcast use {lemma_texts_assoc, lemma_no_text_before, lemma_no_text_behind, lemma_chars_cat, lemma_chars_cat3, lemma_chars_cat4, lemma_chars_cat5, lemma_chars_lit, lemma_chars_num, lemma_chars_width_text, lemma_flat_nil_doc, lemma_flat_text_doc, lemma_flat_txt, lemma_flat_line, lemma_flat_hardline, lemma_flat_space, lemma_flat_nest, lemma_flat_group, lemma_flat_annotated, lemma_flat_d2, lemma_flat_d3, lemma_flat_d4, lemma_flat_d5, lemma_flat_d6, lemma_flat_d7, lemma_flat_d8, lemma_flat_d9, lemma_flat_parens, lemma_flat_unaryfn};
    reveal(spec_concat);
    lemma_concat_onto(spec_nil_doc(), l);
}

/// Documents behind spaces.
proof fn lemma_lines_onto(acc: Doc, l: Rc<List<DocT>>)
    ensures
        flat(spec_lines_onto(acc, l)) == flat(acc) + each_behind(" "@, l),
    decreases l,
{
    broadcast use {lemma_texts_assoc, lemma_no_text_before, lemma_no_text_behind, lemma_chars_cat, lemma_chars_cat3, lemma_chars_cat4, lemma_chars_cat5, lemma_chars_lit, lemma_chars_num, lemma_chars_width_text, lemma_flat_nil_doc, lemma_flat_text_doc, lemma_flat_txt, lemma_flat_line, lemma_flat_hardline, lemma_flat_space, lemma_flat_nest, lemma_flat_group, lemma_flat_annotated, lemma_flat_d2, lemma_flat_d3, lemma_flat_d4, lemma_flat_d5, lemma_flat_d6, lemma_flat_d7, lemma_flat_d8, lemma_flat_d9, lemma_flat_parens, lemma_flat_unaryfn};
    match *l {
        List::Nil => {},
        List::Cons(h, t) => lemma_lines_onto(spec_d2(acc, spec_d2(spec_line(), h)), t),
    }
}

/// Documents behind spaces.
pub broadcast proof fn lemma_flat_lines_before(l: Rc<List<DocT>>)
    ensures
        #[trigger] flat(spec_lines_before(l)) == each_behind(" "@, l),
{
    broadcast use {lemma_texts_assoc, lemma_no_text_before, lemma_no_text_behind, lemma_chars_cat, lemma_chars_cat3, lemma_chars_cat4, lemma_chars_cat5, lemma_chars_lit, lemma_chars_num, lemma_chars_width_text, lemma_flat_nil_doc, lemma_flat_text_doc, lemma_flat_txt, lemma_flat_line, lemma_flat_hardline, lemma_flat_space, lemma_flat_nest, lemma_flat_group, lemma_flat_annotated, lemma_flat_d2, lemma_flat_d3, lemma_flat_d4, lemma_flat_d5, lemma_flat_d6, lemma_flat_d7, lemma_flat_d8, lemma_flat_d9, lemma_flat_parens, lemma_flat_unaryfn};
    reveal(spec_lines_before);
    lemma_lines_onto(spec_nil_doc(), l);
}

/// Clauses on lines of their own.
proof fn lemma_clauses_onto(acc: Doc, kw: &'static str, l: Rc<List<DocT>>)
    ensures
        flat(spec_clauses_onto(acc, kw, l)) == flat(acc) + each_behind("\n"@ + kw@ + " "@, l),
    decreases l,
{
    broadcast use {lemma_texts_assoc, lemma_no_text_before, lemma_no_text_behind, lemma_chars_cat, lemma_chars_cat3, lemma_chars_cat4, lemma_chars_cat5, lemma_chars_lit, lemma_chars_num, lemma_chars_width_text, lemma_flat_nil_doc, lemma_flat_text_doc, lemma_flat_txt, lemma_flat_line, lemma_flat_hardline, lemma_flat_space, lemma_flat_nest, lemma_flat_group, lemma_flat_annotated, lemma_flat_d2, lemma_flat_d3, lemma_flat_d4, lemma_flat_d5, lemma_flat_d6, lemma_flat_d7, lemma_flat_d8, lemma_flat_d9, lemma_flat_parens, lemma_flat_unaryfn};
    match *l {
        List::Nil => {},
        List::Cons(h, t) => {
            let c = spec_d2(spec_hardline(), spec_group(spec_nest(spec_d3(spec_txt(kw), spec_line(), h))));
            lemma_clauses_onto(spec_d2(acc, c), kw, t);
        },
    }
}

/// Clauses on lines of their own: each behind its keyword.
pub broadcast proof fn lemma_flat_clauses(kw: &'static str, l: Rc<List<DocT>>)
    ensures
        #[trigger] flat(spec_clauses(kw, l)) == each_behind("\n"@ + kw@ + " "@, l),
{
    broadcast use {lemma_texts_assoc, lemma_no_text_before, lemma_no_text_behind, lemma_chars_cat, lemma_chars_cat3, lemma_chars_cat4, lemma_chars_cat5, lemma_chars_lit, lemma_chars_num, lemma_chars_width_text, lemma_flat_nil_doc, lemma_flat_text_doc, lemma_flat_txt, lemma_flat_line, lemma_flat_hardline, lemma_flat_space, lemma_flat_nest, lemma_flat_group, lemma_flat_annotated, lemma_flat_d2, lemma_flat_d3, lemma_flat_d4, lemma_flat_d5, lemma_flat_d6, lemma_flat_d7, lemma_flat_d8, lemma_flat_d9, lemma_flat_parens, lemma_flat_unaryfn};
    reveal(spec_clauses);
    lemma_clauses_onto(spec_nil_doc(), kw, l);
}

/// Conjuncts behind stars.
proof fn lemma_star_onto(acc: Doc, l: Rc<List<DocT>>)
    ensures
        flat(spec_star_onto(acc, l)) == flat(acc) + each_behind(" "@ + "**"@ + " "@, l),
    decreases l,
{
    broadcast use {lemma_texts_assoc, lemma_no_text_before, lemma_no_text_behind, lemma_chars_cat, lemma_chars_cat3, lemma_chars_cat4, lemma_chars_cat5, lemma_chars_lit, lemma_chars_num, lemma_chars_width_text, lemma_flat_nil_doc, lemma_flat_text_doc, lemma_flat_txt, lemma_flat_line, lemma_flat_hardline, lemma_flat_space, lemma_flat_nest, lemma_flat_group, lemma_flat_annotated, lemma_flat_d2, lemma_flat_d3, lemma_flat_d4, lemma_flat_d5, lemma_flat_d6, lemma_flat_d7, lemma_flat_d8, lemma_flat_d9, lemma_flat_parens, lemma_flat_unaryfn};
    match *l {
        List::Nil => {},
        List::Cons(h, t) => lemma_star_onto(spec_d5(acc, spec_space(), spec_txt("**"), spec_line(), h), t),
    }
}

/// The separating conjunction of documents.
pub open spec fn starred(l: Rc<List<DocT>>) -> Seq<char> {
    match *l {
        List::Nil => "emp"@,
        List::Cons(h, t) => "("@ + flat(h) + each_behind(" "@ + "**"@ + " "@, t) + ")"@,
    }
}

/// The separating conjunction.
pub broadcast proof fn lemma_flat_mk_star(l: Rc<List<DocT>>)
    ensures
        #[trigger] flat(spec_mk_star(l)) == starred(l),
{
    broadcast use {lemma_texts_assoc, lemma_no_text_before, lemma_no_text_behind, lemma_chars_cat, lemma_chars_cat3, lemma_chars_cat4, lemma_chars_cat5, lemma_chars_lit, lemma_chars_num, lemma_chars_width_text, lemma_flat_nil_doc, lemma_flat_text_doc, lemma_flat_txt, lemma_flat_line, lemma_flat_hardline, lemma_flat_space, lemma_flat_nest, lemma_flat_group, lemma_flat_annotated, lemma_flat_d2, lemma_flat_d3, lemma_flat_d4, lemma_flat_d5, lemma_flat_d6, lemma_flat_d7, lemma_flat_d8, lemma_flat_d9, lemma_flat_parens, lemma_flat_unaryfn};
    reveal(spec_mk_star);
    match *l {
        List::Nil => {},
        List::Cons(h, t) => lemma_star_onto(h, t),
    }
}

/// The texts of lists of known length.
pub broadcast proof fn lemma_each_behind_cons(sep: Seq<char>, h: Doc, t: Rc<List<DocT>>)
    ensures
        #[trigger] each_behind(sep, spec_cons(h, t)) == sep + flat(h) + each_behind(sep, t),
{
}

/// The texts of no documents.
pub broadcast proof fn lemma_each_behind_nil(sep: Seq<char>)
    ensures
        #[trigger] each_behind(sep, spec_nil()) == Seq::<char>::empty(),
{
}

/// The texts of lists of known length.
pub broadcast proof fn lemma_separated_cons(sep: Seq<char>, h: Doc, t: Rc<List<DocT>>)
    ensures
        #[trigger] separated(sep, spec_cons(h, t)) == flat(h) + each_behind(sep, t),
{
}

/// The texts of no documents.
pub broadcast proof fn lemma_separated_nil(sep: Seq<char>)
    ensures
        #[trigger] separated(sep, spec_nil()) == Seq::<char>::empty(),
{
}

/// The text of such a document.
pub broadcast proof fn lemma_flat_naryfn(l: Rc<List<DocT>>)
    ensures
        #[trigger] flat(spec_naryfn(l)) == "("@ + separated(" "@, l) + ")"@,
{
    broadcast use {lemma_texts_assoc, lemma_no_text_before, lemma_no_text_behind, lemma_chars_cat, lemma_chars_cat3, lemma_chars_cat4, lemma_chars_cat5, lemma_chars_lit, lemma_chars_num, lemma_chars_width_text, lemma_flat_nil_doc, lemma_flat_text_doc, lemma_flat_txt, lemma_flat_line, lemma_flat_hardline, lemma_flat_space, lemma_flat_nest, lemma_flat_group, lemma_flat_annotated, lemma_flat_d2, lemma_flat_d3, lemma_flat_d4, lemma_flat_d5, lemma_flat_d6, lemma_flat_d7, lemma_flat_d8, lemma_flat_d9, lemma_flat_parens, lemma_flat_unaryfn, lemma_flat_intersperse, lemma_flat_concat, lemma_flat_lines_before, lemma_flat_clauses, lemma_flat_mk_star, lemma_each_behind_cons, lemma_each_behind_nil, lemma_separated_cons, lemma_separated_nil};
    reveal(spec_naryfn);
    reveal_with_fuel(flat, 4);
}

/// The text of such a document.
pub broadcast proof fn lemma_flat_nary_no_parens(l: Rc<List<DocT>>)
    ensures
        #[trigger] flat(spec_nary_no_parens(l)) == separated(" "@, l),
{
    broadcast use {lemma_texts_assoc, lemma_no_text_before, lemma_no_text_behind, lemma_chars_cat, lemma_chars_cat3, lemma_chars_cat4, lemma_chars_cat5, lemma_chars_lit, lemma_chars_num, lemma_chars_width_text, lemma_flat_nil_doc, lemma_flat_text_doc, lemma_flat_txt, lemma_flat_line, lemma_flat_hardline, lemma_flat_space, lemma_flat_nest, lemma_flat_group, lemma_flat_annotated, lemma_flat_d2, lemma_flat_d3, lemma_flat_d4, lemma_flat_d5, lemma_flat_d6, lemma_flat_d7, lemma_flat_d8, lemma_flat_d9, lemma_flat_parens, lemma_flat_unaryfn, lemma_flat_intersperse, lemma_flat_concat, lemma_flat_lines_before, lemma_flat_clauses, lemma_flat_mk_star, lemma_each_behind_cons, lemma_each_behind_nil, lemma_separated_cons, lemma_separated_nil, lemma_flat_naryfn};
    reveal(spec_nary_no_parens);
    reveal_with_fuel(flat, 4);
}

/// The text of such a document.
pub broadcast proof fn lemma_flat_with_type(t: Doc, ty: Doc)
    ensures
        #[trigger] flat(spec_with_type(t, ty)) == "("@ + "id"@ + " "@ + "#"@ + flat(ty) + " "@ + flat(t) + ")"@,
{
    broadcast use {lemma_texts_assoc, lemma_no_text_before, lemma_no_text_behind, lemma_chars_cat, lemma_chars_cat3, lemma_chars_cat4, lemma_chars_cat5, lemma_chars_lit, lemma_chars_num, lemma_chars_width_text, lemma_flat_nil_doc, lemma_flat_text_doc, lemma_flat_txt, lemma_flat_line, lemma_flat_hardline, lemma_flat_space, lemma_flat_nest, lemma_flat_group, lemma_flat_annotated, lemma_flat_d2, lemma_flat_d3, lemma_flat_d4, lemma_flat_d5, lemma_flat_d6, lemma_flat_d7, lemma_flat_d8, lemma_flat_d9, lemma_flat_parens, lemma_flat_unaryfn, lemma_flat_intersperse, lemma_flat_concat, lemma_flat_lines_before, lemma_flat_clauses, lemma_flat_mk_star, lemma_each_behind_cons, lemma_each_behind_nil, lemma_separated_cons, lemma_separated_nil, lemma_flat_naryfn, lemma_flat_nary_no_parens};
    reveal(spec_with_type);
    reveal_with_fuel(flat, 4);
}

/// The text of such a document.
pub broadcast proof fn lemma_flat_unaryfn_with_type(f: Doc, arg: Doc, ty: Doc)
    ensures
        #[trigger] flat(spec_unaryfn_with_type(f, arg, ty)) == "("@ + "id"@ + " "@ + "#"@ + flat(ty) + " "@ + "("@ + flat(f) + " "@ + flat(arg) + ")"@ + ")"@,
{
    broadcast use {lemma_texts_assoc, lemma_no_text_before, lemma_no_text_behind, lemma_chars_cat, lemma_chars_cat3, lemma_chars_cat4, lemma_chars_cat5, lemma_chars_lit, lemma_chars_num, lemma_chars_width_text, lemma_flat_nil_doc, lemma_flat_text_doc, lemma_flat_txt, lemma_flat_line, lemma_flat_hardline, lemma_flat_space, lemma_flat_nest, lemma_flat_group, lemma_flat_annotated, lemma_flat_d2, lemma_flat_d3, lemma_flat_d4, lemma_flat_d5, lemma_flat_d6, lemma_flat_d7, lemma_flat_d8, lemma_flat_d9, lemma_flat_parens, lemma_flat_unaryfn, lemma_flat_intersperse, lemma_flat_concat, lemma_flat_lines_before, lemma_flat_clauses, lemma_flat_mk_star, lemma_each_behind_cons, lemma_each_behind_nil, lemma_separated_cons, lemma_separated_nil, lemma_flat_naryfn, lemma_flat_nary_no_parens, lemma_flat_with_type};
    reveal(spec_unaryfn_with_type);
    reveal_with_fuel(flat, 4);
}

/// The text of such a document.
pub broadcast proof fn lemma_flat_binop(a: Doc, op: Doc, b: Doc)
    ensures
        #[trigger] flat(spec_binop(a, op, b)) == "("@ + flat(a) + " "@ + flat(op) + " "@ + flat(b) + ")"@,
{
    broadcast use {lemma_texts_assoc, lemma_no_text_before, lemma_no_text_behind, lemma_chars_cat, lemma_chars_cat3, lemma_chars_cat4, lemma_chars_cat5, lemma_chars_lit, lemma_chars_num, lemma_chars_width_text, lemma_flat_nil_doc, lemma_flat_text_doc, lemma_flat_txt, lemma_flat_line, lemma_flat_hardline, lemma_flat_space, lemma_flat_nest, lemma_flat_group, lemma_flat_annotated, lemma_flat_d2, lemma_flat_d3, lemma_flat_d4, lemma_flat_d5, lemma_flat_d6, lemma_flat_d7, lemma_flat_d8, lemma_flat_d9, lemma_flat_parens, lemma_flat_unaryfn, lemma_flat_intersperse, lemma_flat_concat, lemma_flat_lines_before, lemma_flat_clauses, lemma_flat_mk_star, lemma_each_behind_cons, lemma_each_behind_nil, lemma_separated_cons, lemma_separated_nil, lemma_flat_naryfn, lemma_flat_nary_no_parens, lemma_flat_with_type, lemma_flat_unaryfn_with_type};
    reveal(spec_binop);
    reveal_with_fuel(flat, 4);
}

/// The text of such a document.
pub broadcast proof fn lemma_flat_block(d: Doc)
    ensures
        #[trigger] flat(spec_block(d)) == "{"@ + flat(d) + "\n"@ + "}"@,
{
    broadcast use {lemma_texts_assoc, lemma_no_text_before, lemma_no_text_behind, lemma_chars_cat, lemma_chars_cat3, lemma_chars_cat4, lemma_chars_cat5, lemma_chars_lit, lemma_chars_num, lemma_chars_width_text, lemma_flat_nil_doc, lemma_flat_text_doc, lemma_flat_txt, lemma_flat_line, lemma_flat_hardline, lemma_flat_space, lemma_flat_nest, lemma_flat_group, lemma_flat_annotated, lemma_flat_d2, lemma_flat_d3, lemma_flat_d4, lemma_flat_d5, lemma_flat_d6, lemma_flat_d7, lemma_flat_d8, lemma_flat_d9, lemma_flat_parens, lemma_flat_unaryfn, lemma_flat_intersperse, lemma_flat_concat, lemma_flat_lines_before, lemma_flat_clauses, lemma_flat_mk_star, lemma_each_behind_cons, lemma_each_behind_nil, lemma_separated_cons, lemma_separated_nil, lemma_flat_naryfn, lemma_flat_nary_no_parens, lemma_flat_with_type, lemma_flat_unaryfn_with_type, lemma_flat_binop};
    reveal(spec_block);
    reveal_with_fuel(flat, 4);
}

/// The text of such a document.
pub broadcast proof fn lemma_flat_binder(name: Doc, ty: Doc)
    ensures
        #[trigger] flat(spec_binder(name, ty)) == "("@ + flat(name) + ":"@ + " "@ + flat(ty) + ")"@,
{
    broadcast use {lemma_texts_assoc, lemma_no_text_before, lemma_no_text_behind, lemma_chars_cat, lemma_chars_cat3, lemma_chars_cat4, lemma_chars_cat5, lemma_chars_lit, lemma_chars_num, lemma_chars_width_text, lemma_flat_nil_doc, lemma_flat_text_doc, lemma_flat_txt, lemma_flat_line, lemma_flat_hardline, lemma_flat_space, lemma_flat_nest, lemma_flat_group, lemma_flat_annotated, lemma_flat_d2, lemma_flat_d3, lemma_flat_d4, lemma_flat_d5, lemma_flat_d6, lemma_flat_d7, lemma_flat_d8, lemma_flat_d9, lemma_flat_parens, lemma_flat_unaryfn, lemma_flat_intersperse, lemma_flat_concat, lemma_flat_lines_before, lemma_flat_clauses, lemma_flat_mk_star, lemma_each_behind_cons, lemma_each_behind_nil, lemma_separated_cons, lemma_separated_nil, lemma_flat_naryfn, lemma_flat_nary_no_parens, lemma_flat_with_type, lemma_flat_unaryfn_with_type, lemma_flat_binop, lemma_flat_block};
    reveal(spec_binder);
    reveal_with_fuel(flat, 4);
}

/// The text of such a document.
pub broadcast proof fn lemma_flat_mk_fun(arg: Doc, body: Doc)
    ensures
        #[trigger] flat(spec_mk_fun(arg, body)) == "("@ + "fun"@ + " "@ + flat(arg) + " "@ + "->"@ + " "@ + flat(body) + ")"@,
{
    broadcast use {lemma_texts_assoc, lemma_no_text_before, lemma_no_text_behind, lemma_chars_cat, lemma_chars_cat3, lemma_chars_cat4, lemma_chars_cat5, lemma_chars_lit, lemma_chars_num, lemma_chars_width_text, lemma_flat_nil_doc, lemma_flat_text_doc, lemma_flat_txt, lemma_flat_line, lemma_flat_hardline, lemma_flat_space, lemma_flat_nest, lemma_flat_group, lemma_flat_annotated, lemma_flat_d2, lemma_flat_d3, lemma_flat_d4, lemma_flat_d5, lemma_flat_d6, lemma_flat_d7, lemma_flat_d8, lemma_flat_d9, lemma_flat_parens, lemma_flat_unaryfn, lemma_flat_intersperse, lemma_flat_concat, lemma_flat_lines_before, lemma_flat_clauses, lemma_flat_mk_star, lemma_each_behind_cons, lemma_each_behind_nil, lemma_separated_cons, lemma_separated_nil, lemma_flat_naryfn, lemma_flat_nary_no_parens, lemma_flat_with_type, lemma_flat_unaryfn_with_type, lemma_flat_binop, lemma_flat_block, lemma_flat_binder};
    reveal(spec_mk_fun);
    reveal_with_fuel(flat, 4);
}

/// The text of such a document.
pub broadcast proof fn lemma_flat_mk_thunk(body: Doc)
    ensures
        #[trigger] flat(spec_mk_thunk(body)) == "("@ + "fun"@ + " "@ + "_"@ + " "@ + "->"@ + " "@ + flat(body) + ")"@,
{
    broadcast use {lemma_texts_assoc, lemma_no_text_before, lemma_no_text_behind, lemma_chars_cat, lemma_chars_cat3, lemma_chars_cat4, lemma_chars_cat5, lemma_chars_lit, lemma_chars_num, lemma_chars_width_text, lemma_flat_nil_doc, lemma_flat_text_doc, lemma_flat_txt, lemma_flat_line, lemma_flat_hardline, lemma_flat_space, lemma_flat_nest, lemma_flat_group, lemma_flat_annotated, lemma_flat_d2, lemma_flat_d3, lemma_flat_d4, lemma_flat_d5, lemma_flat_d6, lemma_flat_d7, lemma_flat_d8, lemma_flat_d9, lemma_flat_parens, lemma_flat_unaryfn, lemma_flat_intersperse, lemma_flat_concat, lemma_flat_lines_before, lemma_flat_clauses, lemma_flat_mk_star, lemma_each_behind_cons, lemma_each_behind_nil, lemma_separated_cons, lemma_separated_nil, lemma_flat_naryfn, lemma_flat_nary_no_parens, lemma_flat_with_type, lemma_flat_unaryfn_with_type, lemma_flat_binop, lemma_flat_block, lemma_flat_binder, lemma_flat_mk_fun};
    reveal(spec_mk_thunk);
    reveal_with_fuel(flat, 4);
}

/// The text of such a document.
pub broadcast proof fn lemma_flat_unary_closing(f: Text, arg: Doc)
    ensures
        #[trigger] flat(spec_unary_closing(f, arg)) == "("@ + f.chars() + " "@ + flat(arg) + ")"@ + ")"@,
{
    broadcast use {lemma_texts_assoc, lemma_no_text_before, lemma_no_text_behind, lemma_chars_cat, lemma_chars_cat3, lemma_chars_cat4, lemma_chars_cat5, lemma_chars_lit, lemma_chars_num, lemma_chars_width_text, lemma_flat_nil_doc, lemma_flat_text_doc, lemma_flat_txt, lemma_flat_line, lemma_flat_hardline, lemma_flat_space, lemma_flat_nest, lemma_flat_group, lemma_flat_annotated, lemma_flat_d2, lemma_flat_d3, lemma_flat_d4, lemma_flat_d5, lemma_flat_d6, lemma_flat_d7, lemma_flat_d8, lemma_flat_d9, lemma_flat_parens, lemma_flat_unaryfn, lemma_flat_intersperse, lemma_flat_concat, lemma_flat_lines_before, lemma_flat_clauses, lemma_flat_mk_star, lemma_each_behind_cons, lemma_each_behind_nil, lemma_separated_cons, lemma_separated_nil, lemma_flat_naryfn, lemma_flat_nary_no_parens, lemma_flat_with_type, lemma_flat_unaryfn_with_type, lemma_flat_binop, lemma_flat_block, lemma_flat_binder, lemma_flat_mk_fun, lemma_flat_mk_thunk};
    reveal(spec_unary_closing);
    reveal_with_fuel(flat, 4);
}

/// The text of such a document.
pub broadcast proof fn lemma_flat_if_then_else(c: Doc, a: Doc, b: Doc)
    ensures
        #[trigger] flat(spec_if_then_else(c, a, b)) == "("@ + "if"@ + " "@ + flat(c) + " "@ + "then"@ + " "@ + flat(a) + " "@ + "else"@ + " "@ + flat(b) + ")"@,
{
    broadcast use {lemma_texts_assoc, lemma_no_text_before, lemma_no_text_behind, lemma_chars_cat, lemma_chars_cat3, lemma_chars_cat4, lemma_chars_cat5, lemma_chars_lit, lemma_chars_num, lemma_chars_width_text, lemma_flat_nil_doc, lemma_flat_text_doc, lemma_flat_txt, lemma_flat_line, lemma_flat_hardline, lemma_flat_space, lemma_flat_nest, lemma_flat_group, lemma_flat_annotated, lemma_flat_d2, lemma_flat_d3, lemma_flat_d4, lemma_flat_d5, lemma_flat_d6, lemma_flat_d7, lemma_flat_d8, lemma_flat_d9, lemma_flat_parens, lemma_flat_unaryfn, lemma_flat_intersperse, lemma_flat_concat, lemma_flat_lines_before, lemma_flat_clauses, lemma_flat_mk_star, lemma_each_behind_cons, lemma_each_behind_nil, lemma_separated_cons, lemma_separated_nil, lemma_flat_naryfn, lemma_flat_nary_no_parens, lemma_flat_with_type, lemma_flat_unaryfn_with_type, lemma_flat_binop, lemma_flat_block, lemma_flat_binder, lemma_flat_mk_fun, lemma_flat_mk_thunk, lemma_flat_unary_closing};
    reveal(spec_if_then_else);
    reveal_with_fuel(flat, 4);
}

/// The text of such a document.
pub broadcast proof fn lemma_flat_nonzero(v: Doc)
    ensures
        #[trigger] flat(spec_nonzero(v)) == "("@ + flat(v) + " "@ + "<>"@ + " "@ + "0"@ + ")"@,
{
    broadcast use {lemma_texts_assoc, lemma_no_text_before, lemma_no_text_behind, lemma_chars_cat, lemma_chars_cat3, lemma_chars_cat4, lemma_chars_cat5, lemma_chars_lit, lemma_chars_num, lemma_chars_width_text, lemma_flat_nil_doc, lemma_flat_text_doc, lemma_flat_txt, lemma_flat_line, lemma_flat_hardline, lemma_flat_space, lemma_flat_nest, lemma_flat_group, lemma_flat_annotated, lemma_flat_d2, lemma_flat_d3, lemma_flat_d4, lemma_flat_d5, lemma_flat_d6, lemma_flat_d7, lemma_flat_d8, lemma_flat_d9, lemma_flat_parens, lemma_flat_unaryfn, lemma_flat_intersperse, lemma_flat_concat, lemma_flat_lines_before, lemma_flat_clauses, lemma_flat_mk_star, lemma_each_behind_cons, lemma_each_behind_nil, lemma_separated_cons, lemma_separated_nil, lemma_flat_naryfn, lemma_flat_nary_no_parens, lemma_flat_with_type, lemma_flat_unaryfn_with_type, lemma_flat_binop, lemma_flat_block, lemma_flat_binder, lemma_flat_mk_fun, lemma_flat_mk_thunk, lemma_flat_unary_closing, lemma_flat_if_then_else};
    reveal(spec_nonzero);
    reveal_with_fuel(flat, 4);
}

/// The text of such a document.
pub broadcast proof fn lemma_flat_record_entry(name: Doc, value: Doc)
    ensures
        #[trigger] flat(spec_record_entry(name, value)) == " "@ + flat(name) + "="@ + flat(value) + ";"@,
{
    broadcast use {lemma_texts_assoc, lemma_no_text_before, lemma_no_text_behind, lemma_chars_cat, lemma_chars_cat3, lemma_chars_cat4, lemma_chars_cat5, lemma_chars_lit, lemma_chars_num, lemma_chars_width_text, lemma_flat_nil_doc, lemma_flat_text_doc, lemma_flat_txt, lemma_flat_line, lemma_flat_hardline, lemma_flat_space, lemma_flat_nest, lemma_flat_group, lemma_flat_annotated, lemma_flat_d2, lemma_flat_d3, lemma_flat_d4, lemma_flat_d5, lemma_flat_d6, lemma_flat_d7, lemma_flat_d8, lemma_flat_d9, lemma_flat_parens, lemma_flat_unaryfn, lemma_flat_intersperse, lemma_flat_concat, lemma_flat_lines_before, lemma_flat_clauses, lemma_flat_mk_star, lemma_each_behind_cons, lemma_each_behind_nil, lemma_separated_cons, lemma_separated_nil, lemma_flat_naryfn, lemma_flat_nary_no_parens, lemma_flat_with_type, lemma_flat_unaryfn_with_type, lemma_flat_binop, lemma_flat_block, lemma_flat_binder, lemma_flat_mk_fun, lemma_flat_mk_thunk, lemma_flat_unary_closing, lemma_flat_if_then_else, lemma_flat_nonzero};
    reveal(spec_record_entry);
    reveal_with_fuel(flat, 4);
}

/// The text of such a document.
pub broadcast proof fn lemma_flat_record_literal(l: Rc<List<DocT>>)
    ensures
        #[trigger] flat(spec_record_literal(l)) == "{"@ + each_behind(Seq::empty(), l) + " "@ + "}"@,
{
    broadcast use {lemma_texts_assoc, lemma_no_text_before, lemma_no_text_behind, lemma_chars_cat, lemma_chars_cat3, lemma_chars_cat4, lemma_chars_cat5, lemma_chars_lit, lemma_chars_num, lemma_chars_width_text, lemma_flat_nil_doc, lemma_flat_text_doc, lemma_flat_txt, lemma_flat_line, lemma_flat_hardline, lemma_flat_space, lemma_flat_nest, lemma_flat_group, lemma_flat_annotated, lemma_flat_d2, lemma_flat_d3, lemma_flat_d4, lemma_flat_d5, lemma_flat_d6, lemma_flat_d7, lemma_flat_d8, lemma_flat_d9, lemma_flat_parens, lemma_flat_unaryfn, lemma_flat_intersperse, lemma_flat_concat, lemma_flat_lines_before, lemma_flat_clauses, lemma_flat_mk_star, lemma_each_behind_cons, lemma_each_behind_nil, lemma_separated_cons, lemma_separated_nil, lemma_flat_naryfn, lemma_flat_nary_no_parens, lemma_flat_with_type, lemma_flat_unaryfn_with_type, lemma_flat_binop, lemma_flat_block, lemma_flat_binder, lemma_flat_mk_fun, lemma_flat_mk_thunk, lemma_flat_unary_closing, lemma_flat_if_then_else, lemma_flat_nonzero, lemma_flat_record_entry};
    reveal(spec_record_literal);
    reveal_with_fuel(flat, 4);
}

/// The text of such a document.
pub broadcast proof fn lemma_flat_let_stmt(x: Doc, v: Doc)
    ensures
        #[trigger] flat(spec_let_stmt(x, v)) == "let "@ + flat(x) + " ="@ + " "@ + flat(v) + ";"@,
{
    broadcast use {lemma_texts_assoc, lemma_no_text_before, lemma_no_text_behind, lemma_chars_cat, lemma_chars_cat3, lemma_chars_cat4, lemma_chars_cat5, lemma_chars_lit, lemma_chars_num, lemma_chars_width_text, lemma_flat_nil_doc, lemma_flat_text_doc, lemma_flat_txt, lemma_flat_line, lemma_flat_hardline, lemma_flat_space, lemma_flat_nest, lemma_flat_group, lemma_flat_annotated, lemma_flat_d2, lemma_flat_d3, lemma_flat_d4, lemma_flat_d5, lemma_flat_d6, lemma_flat_d7, lemma_flat_d8, lemma_flat_d9, lemma_flat_parens, lemma_flat_unaryfn, lemma_flat_intersperse, lemma_flat_concat, lemma_flat_lines_before, lemma_flat_clauses, lemma_flat_mk_star, lemma_each_behind_cons, lemma_each_behind_nil, lemma_separated_cons, lemma_separated_nil, lemma_flat_naryfn, lemma_flat_nary_no_parens, lemma_flat_with_type, lemma_flat_unaryfn_with_type, lemma_flat_binop, lemma_flat_block, lemma_flat_binder, lemma_flat_mk_fun, lemma_flat_mk_thunk, lemma_flat_unary_closing, lemma_flat_if_then_else, lemma_flat_nonzero, lemma_flat_record_entry, lemma_flat_record_literal};
    reveal(spec_let_stmt);
    reveal_with_fuel(flat, 4);
}

/// The text of such a document.
pub broadcast proof fn lemma_flat_defer_stmt(owned: Doc, cleanup: &'static str)
    ensures
        #[trigger] flat(spec_defer_stmt(owned, cleanup)) == "defer "@ + flat(owned) + " "@ + cleanup@ + ";"@,
{
    broadcast use {lemma_texts_assoc, lemma_no_text_before, lemma_no_text_behind, lemma_chars_cat, lemma_chars_cat3, lemma_chars_cat4, lemma_chars_cat5, lemma_chars_lit, lemma_chars_num, lemma_chars_width_text, lemma_flat_nil_doc, lemma_flat_text_doc, lemma_flat_txt, lemma_flat_line, lemma_flat_hardline, lemma_flat_space, lemma_flat_nest, lemma_flat_group, lemma_flat_annotated, lemma_flat_d2, lemma_flat_d3, lemma_flat_d4, lemma_flat_d5, lemma_flat_d6, lemma_flat_d7, lemma_flat_d8, lemma_flat_d9, lemma_flat_parens, lemma_flat_unaryfn, lemma_flat_intersperse, lemma_flat_concat, lemma_flat_lines_before, lemma_flat_clauses, lemma_flat_mk_star, lemma_each_behind_cons, lemma_each_behind_nil, lemma_separated_cons, lemma_separated_nil, lemma_flat_naryfn, lemma_flat_nary_no_parens, lemma_flat_with_type, lemma_flat_unaryfn_with_type, lemma_flat_binop, lemma_flat_block, lemma_flat_binder, lemma_flat_mk_fun, lemma_flat_mk_thunk, lemma_flat_unary_closing, lemma_flat_if_then_else, lemma_flat_nonzero, lemma_flat_record_entry, lemma_flat_record_literal, lemma_flat_let_stmt};
    reveal(spec_defer_stmt);
    reveal_with_fuel(flat, 4);
}

/// The text of such a document.
pub broadcast proof fn lemma_flat_call_stmt(d: Doc)
    ensures
        #[trigger] flat(spec_call_stmt(d)) == flat(d) + ";"@,
{
    broadcast use {lemma_texts_assoc, lemma_no_text_before, lemma_no_text_behind, lemma_chars_cat, lemma_chars_cat3, lemma_chars_cat4, lemma_chars_cat5, lemma_chars_lit, lemma_chars_num, lemma_chars_width_text, lemma_flat_nil_doc, lemma_flat_text_doc, lemma_flat_txt, lemma_flat_line, lemma_flat_hardline, lemma_flat_space, lemma_flat_nest, lemma_flat_group, lemma_flat_annotated, lemma_flat_d2, lemma_flat_d3, lemma_flat_d4, lemma_flat_d5, lemma_flat_d6, lemma_flat_d7, lemma_flat_d8, lemma_flat_d9, lemma_flat_parens, lemma_flat_unaryfn, lemma_flat_intersperse, lemma_flat_concat, lemma_flat_lines_before, lemma_flat_clauses, lemma_flat_mk_star, lemma_each_behind_cons, lemma_each_behind_nil, lemma_separated_cons, lemma_separated_nil, lemma_flat_naryfn, lemma_flat_nary_no_parens, lemma_flat_with_type, lemma_flat_unaryfn_with_type, lemma_flat_binop, lemma_flat_block, lemma_flat_binder, lemma_flat_mk_fun, lemma_flat_mk_thunk, lemma_flat_unary_closing, lemma_flat_if_then_else, lemma_flat_nonzero, lemma_flat_record_entry, lemma_flat_record_literal, lemma_flat_let_stmt, lemma_flat_defer_stmt};
    reveal(spec_call_stmt);
    reveal_with_fuel(flat, 4);
}

/// The text of such a document.
pub broadcast proof fn lemma_flat_store_stmt(l: Doc, r: Doc)
    ensures
        #[trigger] flat(spec_store_stmt(l, r)) == flat(l) + " "@ + ":="@ + " "@ + flat(r) + ";"@,
{
    broadcast use {lemma_texts_assoc, lemma_no_text_before, lemma_no_text_behind, lemma_chars_cat, lemma_chars_cat3, lemma_chars_cat4, lemma_chars_cat5, lemma_chars_lit, lemma_chars_num, lemma_chars_width_text, lemma_flat_nil_doc, lemma_flat_text_doc, lemma_flat_txt, lemma_flat_line, lemma_flat_hardline, lemma_flat_space, lemma_flat_nest, lemma_flat_group, lemma_flat_annotated, lemma_flat_d2, lemma_flat_d3, lemma_flat_d4, lemma_flat_d5, lemma_flat_d6, lemma_flat_d7, lemma_flat_d8, lemma_flat_d9, lemma_flat_parens, lemma_flat_unaryfn, lemma_flat_intersperse, lemma_flat_concat, lemma_flat_lines_before, lemma_flat_clauses, lemma_flat_mk_star, lemma_each_behind_cons, lemma_each_behind_nil, lemma_separated_cons, lemma_separated_nil, lemma_flat_naryfn, lemma_flat_nary_no_parens, lemma_flat_with_type, lemma_flat_unaryfn_with_type, lemma_flat_binop, lemma_flat_block, lemma_flat_binder, lemma_flat_mk_fun, lemma_flat_mk_thunk, lemma_flat_unary_closing, lemma_flat_if_then_else, lemma_flat_nonzero, lemma_flat_record_entry, lemma_flat_record_literal, lemma_flat_let_stmt, lemma_flat_defer_stmt, lemma_flat_call_stmt};
    reveal(spec_store_stmt);
    reveal_with_fuel(flat, 4);
}

/// The text of such a document.
pub broadcast proof fn lemma_flat_pure_let(x: Doc, ty: Doc, v: Doc, rest: Doc)
    ensures
        #[trigger] flat(spec_pure_let(x, ty, v, rest)) == "("@ + "let"@ + " "@ + flat(x) + " "@ + ":"@ + " "@ + flat(ty) + " "@ + "="@ + " "@ + flat(v) + " "@ + "in"@ + " "@ + flat(rest) + ")"@,
{
    broadcast use {lemma_texts_assoc, lemma_no_text_before, lemma_no_text_behind, lemma_chars_cat, lemma_chars_cat3, lemma_chars_cat4, lemma_chars_cat5, lemma_chars_lit, lemma_chars_num, lemma_chars_width_text, lemma_flat_nil_doc, lemma_flat_text_doc, lemma_flat_txt, lemma_flat_line, lemma_flat_hardline, lemma_flat_space, lemma_flat_nest, lemma_flat_group, lemma_flat_annotated, lemma_flat_d2, lemma_flat_d3, lemma_flat_d4, lemma_flat_d5, lemma_flat_d6, lemma_flat_d7, lemma_flat_d8, lemma_flat_d9, lemma_flat_parens, lemma_flat_unaryfn, lemma_flat_intersperse, lemma_flat_concat, lemma_flat_lines_before, lemma_flat_clauses, lemma_flat_mk_star, lemma_each_behind_cons, lemma_each_behind_nil, lemma_separated_cons, lemma_separated_nil, lemma_flat_naryfn, lemma_flat_nary_no_parens, lemma_flat_with_type, lemma_flat_unaryfn_with_type, lemma_flat_binop, lemma_flat_block, lemma_flat_binder, lemma_flat_mk_fun, lemma_flat_mk_thunk, lemma_flat_unary_closing, lemma_flat_if_then_else, lemma_flat_nonzero, lemma_flat_record_entry, lemma_flat_record_literal, lemma_flat_let_stmt, lemma_flat_defer_stmt, lemma_flat_call_stmt, lemma_flat_store_stmt};
    reveal(spec_pure_let);
    reveal_with_fuel(flat, 4);
}

/// The text of such a document.
pub broadcast proof fn lemma_flat_mk_definition(kw: Doc, n: Doc, args: Rc<List<DocT>>, ty: Doc, body: Doc)
    ensures
        #[trigger] flat(spec_mk_definition(kw, n, args, ty, body)) == flat(kw) + " "@ + flat(n) + each_behind(" "@, args) + " "@ + ":"@ + " "@ + flat(ty) + " "@ + "="@ + " "@ + flat(body),
{
    broadcast use {lemma_texts_assoc, lemma_no_text_before, lemma_no_text_behind, lemma_chars_cat, lemma_chars_cat3, lemma_chars_cat4, lemma_chars_cat5, lemma_chars_lit, lemma_chars_num, lemma_chars_width_text, lemma_flat_nil_doc, lemma_flat_text_doc, lemma_flat_txt, lemma_flat_line, lemma_flat_hardline, lemma_flat_space, lemma_flat_nest, lemma_flat_group, lemma_flat_annotated, lemma_flat_d2, lemma_flat_d3, lemma_flat_d4, lemma_flat_d5, lemma_flat_d6, lemma_flat_d7, lemma_flat_d8, lemma_flat_d9, lemma_flat_parens, lemma_flat_unaryfn, lemma_flat_intersperse, lemma_flat_concat, lemma_flat_lines_before, lemma_flat_clauses, lemma_flat_mk_star, lemma_each_behind_cons, lemma_each_behind_nil, lemma_separated_cons, lemma_separated_nil, lemma_flat_naryfn, lemma_flat_nary_no_parens, lemma_flat_with_type, lemma_flat_unaryfn_with_type, lemma_flat_binop, lemma_flat_block, lemma_flat_binder, lemma_flat_mk_fun, lemma_flat_mk_thunk, lemma_flat_unary_closing, lemma_flat_if_then_else, lemma_flat_nonzero, lemma_flat_record_entry, lemma_flat_record_literal, lemma_flat_let_stmt, lemma_flat_defer_stmt, lemma_flat_call_stmt, lemma_flat_store_stmt, lemma_flat_pure_let};
    reveal(spec_mk_definition);
    reveal_with_fuel(flat, 4);
}

/// The text of such a document.
pub broadcast proof fn lemma_flat_mk_assume_val(attrs: Rc<List<DocT>>, n: Doc, args: Rc<List<DocT>>, ty: Doc)
    ensures
        #[trigger] flat(spec_mk_assume_val(attrs, n, args, ty)) == flat(spec_mk_attrs(attrs)) + "assume val"@ + " "@ + flat(n) + each_behind(" "@, args) + " "@ + ":"@ + " "@ + flat(ty),
{
    broadcast use {lemma_texts_assoc, lemma_no_text_before, lemma_no_text_behind, lemma_chars_cat, lemma_chars_cat3, lemma_chars_cat4, lemma_chars_cat5, lemma_chars_lit, lemma_chars_num, lemma_chars_width_text, lemma_flat_nil_doc, lemma_flat_text_doc, lemma_flat_txt, lemma_flat_line, lemma_flat_hardline, lemma_flat_space, lemma_flat_nest, lemma_flat_group, lemma_flat_annotated, lemma_flat_d2, lemma_flat_d3, lemma_flat_d4, lemma_flat_d5, lemma_flat_d6, lemma_flat_d7, lemma_flat_d8, lemma_flat_d9, lemma_flat_parens, lemma_flat_unaryfn, lemma_flat_intersperse, lemma_flat_concat, lemma_flat_lines_before, lemma_flat_clauses, lemma_flat_mk_star, lemma_each_behind_cons, lemma_each_behind_nil, lemma_separated_cons, lemma_separated_nil, lemma_flat_naryfn, lemma_flat_nary_no_parens, lemma_flat_with_type, lemma_flat_unaryfn_with_type, lemma_flat_binop, lemma_flat_block, lemma_flat_binder, lemma_flat_mk_fun, lemma_flat_mk_thunk, lemma_flat_unary_closing, lemma_flat_if_then_else, lemma_flat_nonzero, lemma_flat_record_entry, lemma_flat_record_literal, lemma_flat_let_stmt, lemma_flat_defer_stmt, lemma_flat_call_stmt, lemma_flat_store_stmt, lemma_flat_pure_let, lemma_flat_mk_definition};
    reveal(spec_mk_assume_val);
    reveal_with_fuel(flat, 4);
}

/// The text of such a document.
pub broadcast proof fn lemma_flat_mk_predicate_tail(head: Doc, args: Rc<List<DocT>>, body: Doc)
    ensures
        #[trigger] flat(spec_mk_predicate_tail(head, args, body)) == flat(head) + each_behind(" "@, args) + " "@ + "="@ + " "@ + flat(body),
{
    broadcast use {lemma_texts_assoc, lemma_no_text_before, lemma_no_text_behind, lemma_chars_cat, lemma_chars_cat3, lemma_chars_cat4, lemma_chars_cat5, lemma_chars_lit, lemma_chars_num, lemma_chars_width_text, lemma_flat_nil_doc, lemma_flat_text_doc, lemma_flat_txt, lemma_flat_line, lemma_flat_hardline, lemma_flat_space, lemma_flat_nest, lemma_flat_group, lemma_flat_annotated, lemma_flat_d2, lemma_flat_d3, lemma_flat_d4, lemma_flat_d5, lemma_flat_d6, lemma_flat_d7, lemma_flat_d8, lemma_flat_d9, lemma_flat_parens, lemma_flat_unaryfn, lemma_flat_intersperse, lemma_flat_concat, lemma_flat_lines_before, lemma_flat_clauses, lemma_flat_mk_star, lemma_each_behind_cons, lemma_each_behind_nil, lemma_separated_cons, lemma_separated_nil, lemma_flat_naryfn, lemma_flat_nary_no_parens, lemma_flat_with_type, lemma_flat_unaryfn_with_type, lemma_flat_binop, lemma_flat_block, lemma_flat_binder, lemma_flat_mk_fun, lemma_flat_mk_thunk, lemma_flat_unary_closing, lemma_flat_if_then_else, lemma_flat_nonzero, lemma_flat_record_entry, lemma_flat_record_literal, lemma_flat_let_stmt, lemma_flat_defer_stmt, lemma_flat_call_stmt, lemma_flat_store_stmt, lemma_flat_pure_let, lemma_flat_mk_definition, lemma_flat_mk_assume_val};
    reveal(spec_mk_predicate_tail);
    reveal_with_fuel(flat, 4);
}

/// The text of such a document.
pub broadcast proof fn lemma_flat_returns_clause(name: Doc, ty: Doc)
    ensures
        #[trigger] flat(spec_returns_clause(name, ty)) == "returns"@ + " "@ + flat(name) + " "@ + ":"@ + " "@ + flat(ty),
{
    broadcast use {lemma_texts_assoc, lemma_no_text_before, lemma_no_text_behind, lemma_chars_cat, lemma_chars_cat3, lemma_chars_cat4, lemma_chars_cat5, lemma_chars_lit, lemma_chars_num, lemma_chars_width_text, lemma_flat_nil_doc, lemma_flat_text_doc, lemma_flat_txt, lemma_flat_line, lemma_flat_hardline, lemma_flat_space, lemma_flat_nest, lemma_flat_group, lemma_flat_annotated, lemma_flat_d2, lemma_flat_d3, lemma_flat_d4, lemma_flat_d5, lemma_flat_d6, lemma_flat_d7, lemma_flat_d8, lemma_flat_d9, lemma_flat_parens, lemma_flat_unaryfn, lemma_flat_intersperse, lemma_flat_concat, lemma_flat_lines_before, lemma_flat_clauses, lemma_flat_mk_star, lemma_each_behind_cons, lemma_each_behind_nil, lemma_separated_cons, lemma_separated_nil, lemma_flat_naryfn, lemma_flat_nary_no_parens, lemma_flat_with_type, lemma_flat_unaryfn_with_type, lemma_flat_binop, lemma_flat_block, lemma_flat_binder, lemma_flat_mk_fun, lemma_flat_mk_thunk, lemma_flat_unary_closing, lemma_flat_if_then_else, lemma_flat_nonzero, lemma_flat_record_entry, lemma_flat_record_literal, lemma_flat_let_stmt, lemma_flat_defer_stmt, lemma_flat_call_stmt, lemma_flat_store_stmt, lemma_flat_pure_let, lemma_flat_mk_definition, lemma_flat_mk_assume_val, lemma_flat_mk_predicate_tail};
    reveal(spec_returns_clause);
    reveal_with_fuel(flat, 4);
}

/// The text of such a document.
pub broadcast proof fn lemma_flat_let_in(name: Doc, v: Doc)
    ensures
        #[trigger] flat(spec_let_in(name, v)) == "let "@ + flat(name) + " = "@ + flat(v) + " in"@ + "\n"@,
{
    broadcast use {lemma_texts_assoc, lemma_no_text_before, lemma_no_text_behind, lemma_chars_cat, lemma_chars_cat3, lemma_chars_cat4, lemma_chars_cat5, lemma_chars_lit, lemma_chars_num, lemma_chars_width_text, lemma_flat_nil_doc, lemma_flat_text_doc, lemma_flat_txt, lemma_flat_line, lemma_flat_hardline, lemma_flat_space, lemma_flat_nest, lemma_flat_group, lemma_flat_annotated, lemma_flat_d2, lemma_flat_d3, lemma_flat_d4, lemma_flat_d5, lemma_flat_d6, lemma_flat_d7, lemma_flat_d8, lemma_flat_d9, lemma_flat_parens, lemma_flat_unaryfn, lemma_flat_intersperse, lemma_flat_concat, lemma_flat_lines_before, lemma_flat_clauses, lemma_flat_mk_star, lemma_each_behind_cons, lemma_each_behind_nil, lemma_separated_cons, lemma_separated_nil, lemma_flat_naryfn, lemma_flat_nary_no_parens, lemma_flat_with_type, lemma_flat_unaryfn_with_type, lemma_flat_binop, lemma_flat_block, lemma_flat_binder, lemma_flat_mk_fun, lemma_flat_mk_thunk, lemma_flat_unary_closing, lemma_flat_if_then_else, lemma_flat_nonzero, lemma_flat_record_entry, lemma_flat_record_literal, lemma_flat_let_stmt, lemma_flat_defer_stmt, lemma_flat_call_stmt, lemma_flat_store_stmt, lemma_flat_pure_let, lemma_flat_mk_definition, lemma_flat_mk_assume_val, lemma_flat_mk_predicate_tail, lemma_flat_returns_clause};
    reveal(spec_let_in);
    reveal_with_fuel(flat, 4);
}

/// The text of such a document.
pub broadcast proof fn lemma_flat_mk_let_rec(is_rec: bool, n: Doc, args: Rc<List<DocT>>, ty: Doc, body: Doc)
    ensures
        #[trigger] flat(spec_mk_let_rec(is_rec, n, args, ty, body)) == (if is_rec {
            "let rec"@
        } else {
            "let"@
        }) + " "@ + flat(n) + each_behind(" "@, args) + " "@ + ":"@ + " "@ + flat(ty) + " "@ + "="@ + " "@ + flat(body),
{
    broadcast use {lemma_texts_assoc, lemma_no_text_before, lemma_no_text_behind, lemma_chars_cat, lemma_chars_cat3, lemma_chars_cat4, lemma_chars_cat5, lemma_chars_lit, lemma_chars_num, lemma_chars_width_text, lemma_flat_nil_doc, lemma_flat_text_doc, lemma_flat_txt, lemma_flat_line, lemma_flat_hardline, lemma_flat_space, lemma_flat_nest, lemma_flat_group, lemma_flat_annotated, lemma_flat_d2, lemma_flat_d3, lemma_flat_d4, lemma_flat_d5, lemma_flat_d6, lemma_flat_d7, lemma_flat_d8, lemma_flat_d9, lemma_flat_parens, lemma_flat_unaryfn, lemma_flat_intersperse, lemma_flat_concat, lemma_flat_lines_before, lemma_flat_clauses, lemma_flat_mk_star, lemma_each_behind_cons, lemma_each_behind_nil, lemma_separated_cons, lemma_separated_nil, lemma_flat_naryfn, lemma_flat_nary_no_parens, lemma_flat_with_type, lemma_flat_unaryfn_with_type, lemma_flat_binop, lemma_flat_block, lemma_flat_binder, lemma_flat_mk_fun, lemma_flat_mk_thunk, lemma_flat_unary_closing, lemma_flat_if_then_else, lemma_flat_nonzero, lemma_flat_record_entry, lemma_flat_record_literal, lemma_flat_let_stmt, lemma_flat_defer_stmt, lemma_flat_call_stmt, lemma_flat_store_stmt, lemma_flat_pure_let, lemma_flat_mk_definition, lemma_flat_mk_assume_val, lemma_flat_mk_predicate_tail, lemma_flat_returns_clause, lemma_flat_let_in};
    reveal(spec_mk_let_rec);
    reveal_with_fuel(flat, 4);
}

/// What is known of the texts of documents.
pub broadcast group group_flat {
    lemma_texts_assoc,
    lemma_no_text_before,
    lemma_no_text_behind,
    lemma_chars_cat,
    lemma_chars_cat3,
    lemma_chars_cat4,
    lemma_chars_cat5,
    lemma_chars_lit,
    lemma_chars_num,
    lemma_chars_width_text,
    lemma_flat_nil_doc,
    lemma_flat_text_doc,
    lemma_flat_txt,
    lemma_flat_line,
    lemma_flat_hardline,
    lemma_flat_space,
    lemma_flat_nest,
    lemma_flat_group,
    lemma_flat_annotated,
    lemma_flat_d2,
    lemma_flat_d3,
    lemma_flat_d4,
    lemma_flat_d5,
    lemma_flat_d6,
    lemma_flat_d7,
    lemma_flat_d8,
    lemma_flat_d9,
    lemma_flat_parens,
    lemma_flat_unaryfn,
    lemma_flat_intersperse,
    lemma_flat_concat,
    lemma_flat_lines_before,
    lemma_flat_clauses,
    lemma_flat_mk_star,
    lemma_each_behind_cons,
    lemma_each_behind_nil,
    lemma_separated_cons,
    lemma_separated_nil,
    lemma_flat_naryfn,
    lemma_flat_nary_no_parens,
    lemma_flat_with_type,
    lemma_flat_unaryfn_with_type,
    lemma_flat_binop,
    lemma_flat_block,
    lemma_flat_binder,
    lemma_flat_mk_fun,
    lemma_flat_mk_thunk,
    lemma_flat_unary_closing,
    lemma_flat_if_then_else,
    lemma_flat_nonzero,
    lemma_flat_record_entry,
    lemma_flat_record_literal,
    lemma_flat_let_stmt,
    lemma_flat_defer_stmt,
    lemma_flat_call_stmt,
    lemma_flat_store_stmt,
    lemma_flat_pure_let,
    lemma_flat_mk_definition,
    lemma_flat_mk_assume_val,
    lemma_flat_mk_predicate_tail,
    lemma_flat_returns_clause,
    lemma_flat_let_in,
    lemma_flat_mk_let_rec,
}
/// The text of a list of 1.
pub broadcast proof fn lemma_separated1(sep: Seq<char>, a: Doc)
    ensures
        #[trigger] separated(sep, spec_l1(a)) == flat(a),
{
    broadcast use {lemma_texts_assoc, lemma_no_text_behind};
    reveal_with_fuel(each_behind, 2);
}

/// The text of a list of 2.
pub broadcast proof fn lemma_separated2(sep: Seq<char>, a: Doc, b: Doc)
    ensures
        #[trigger] separated(sep, spec_l2(a, b)) == flat(a) + sep + flat(b),
{
    broadcast use {lemma_texts_assoc, lemma_no_text_behind};
    reveal_with_fuel(each_behind, 3);
}

/// The text of a list of 3.
pub broadcast proof fn lemma_separated3(sep: Seq<char>, a: Doc, b: Doc, c: Doc)
    ensures
        #[trigger] separated(sep, spec_l3(a, b, c)) == flat(a) + sep + flat(b) + sep + flat(c),
{
    broadcast use {lemma_texts_assoc, lemma_no_text_behind};
    reveal_with_fuel(each_behind, 4);
}

/// The text of a list of 4.
pub broadcast proof fn lemma_separated4(sep: Seq<char>, a: Doc, b: Doc, c: Doc, d: Doc)
    ensures
        #[trigger] separated(sep, spec_l4(a, b, c, d)) == flat(a) + sep + flat(b) + sep + flat(c) + sep + flat(d),
{
    broadcast use {lemma_texts_assoc, lemma_no_text_behind};
    reveal_with_fuel(each_behind, 5);
}

/// The text of a list of 5.
pub broadcast proof fn lemma_separated5(sep: Seq<char>, a: Doc, b: Doc, c: Doc, d: Doc, e: Doc)
    ensures
        #[trigger] separated(sep, spec_l5(a, b, c, d, e)) == flat(a) + sep + flat(b) + sep + flat(c) + sep + flat(d) + sep + flat(e),
{
    broadcast use {lemma_texts_assoc, lemma_no_text_behind};
    reveal_with_fuel(each_behind, 6);
}

/// The text of a list of 6.
pub broadcast proof fn lemma_separated6(sep: Seq<char>, a: Doc, b: Doc, c: Doc, d: Doc, e: Doc, f: Doc)
    ensures
        #[trigger] separated(sep, spec_l6(a, b, c, d, e, f)) == flat(a) + sep + flat(b) + sep + flat(c) + sep + flat(d) + sep + flat(e) + sep + flat(f),
{
    broadcast use {lemma_texts_assoc, lemma_no_text_behind};
    reveal_with_fuel(each_behind, 7);
}

/// The text of a list of 7.
pub broadcast proof fn lemma_separated7(sep: Seq<char>, a: Doc, b: Doc, c: Doc, d: Doc, e: Doc, f: Doc, g: Doc)
    ensures
        #[trigger] separated(sep, spec_l7(a, b, c, d, e, f, g)) == flat(a) + sep + flat(b) + sep + flat(c) + sep + flat(d) + sep + flat(e) + sep + flat(f) + sep + flat(g),
{
    broadcast use {lemma_texts_assoc, lemma_no_text_behind};
    reveal_with_fuel(each_behind, 8);
}

/// The texts of a list of 1, each behind a text.
pub broadcast proof fn lemma_behind1(sep: Seq<char>, a: Doc)
    ensures
        #[trigger] each_behind(sep, spec_l1(a)) == sep + flat(a),
{
    broadcast use {lemma_texts_assoc, lemma_no_text_behind};
    reveal_with_fuel(each_behind, 2);
}

/// The texts of a list of 2, each behind a text.
pub broadcast proof fn lemma_behind2(sep: Seq<char>, a: Doc, b: Doc)
    ensures
        #[trigger] each_behind(sep, spec_l2(a, b)) == sep + flat(a) + sep + flat(b),
{
    broadcast use {lemma_texts_assoc, lemma_no_text_behind};
    reveal_with_fuel(each_behind, 3);
}

/// The texts of a list of 3, each behind a text.
pub broadcast proof fn lemma_behind3(sep: Seq<char>, a: Doc, b: Doc, c: Doc)
    ensures
        #[trigger] each_behind(sep, spec_l3(a, b, c)) == sep + flat(a) + sep + flat(b) + sep + flat(c),
{
    broadcast use {lemma_texts_assoc, lemma_no_text_behind};
    reveal_with_fuel(each_behind, 4);
}

/// The texts of a list of 4, each behind a text.
pub broadcast proof fn lemma_behind4(sep: Seq<char>, a: Doc, b: Doc, c: Doc, d: Doc)
    ensures
        #[trigger] each_behind(sep, spec_l4(a, b, c, d)) == sep + flat(a) + sep + flat(b) + sep + flat(c) + sep + flat(d),
{
    broadcast use {lemma_texts_assoc, lemma_no_text_behind};
    reveal_with_fuel(each_behind, 5);
}

/// A list of four with one more item is a list of five.
pub proof fn law_one_more_than_four(a: Doc, b: Doc, c: Doc, d: Doc, m: Doc)
    ensures
        spec_list_push(spec_l4(a, b, c, d), m) == spec_l5(a, b, c, d, m),
{
    broadcast use {lemma_texts_assoc, lemma_no_text_behind};
    reveal_with_fuel(spec_list_append, 6);
}

/// The texts of short lists.
pub broadcast group group_lists {
    lemma_behind1,
    lemma_behind2,
    lemma_behind3,
    lemma_behind4,
    lemma_separated1,
    lemma_separated2,
    lemma_separated3,
    lemma_separated4,
    lemma_separated5,
    lemma_separated6,
    lemma_separated7,
}

} // verus!
