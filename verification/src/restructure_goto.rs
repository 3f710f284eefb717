//! Turning gotos into exits of blocks.
//!
//! Pulse can leave a labelled block early, and knows no other jump. Each label is made the
//! end of a block that starts with the first statement that jumps to it.

use crate::list::{
    List, bump, cons, drop_one, law_lists_keep_their_items, lemma_items_list_of, list_append,
    list_len, list_of, nil, spec_bump, spec_cons, spec_drop_one, spec_list_append, spec_list_len,
    spec_nil,
};
use crate::text::{Rope, Text, cat3, lit, same_text, spec_cat3, spec_lit, spec_same_text};
use crate::ir::{Branch, Decl, DeclT, Expr, FnDefn, Ident, Stmt, StmtT, TranslationUnit};
use crate::diag::{Diagnostic, Diagnostics, extends, mk_error, spec_mk_error};
use crate::env::{plus, spec_plus};
use crate::names::{spec_text_in, text_in};
use crate::merge::Match;
use crate::laws_passes::{
    is_restructured, law_bad_jumps_of_a_unit_are_reported, law_every_declaration_is_restructured,
    unit_bad_jumps,
};
use std::rc::Rc;
use vstd::prelude::*;

verus! {

broadcast use crate::diag::lemma_extends_trans;

/// Whether a jump to the label occurs in the statement.
pub open spec fn spec_stmt_contains_goto(s: Rc<Stmt>, label: Text) -> bool
    decreases s,
{
    match s.val {
        StmtT::Goto(l) => spec_same_text(l.val, label),
        StmtT::If { then_branch, else_branch, .. } => spec_stmts_contain_goto(then_branch, label) || spec_stmts_contain_goto(else_branch, label),
        StmtT::While { body, .. } => spec_stmts_contain_goto(body, label),
        StmtT::GotoBlock { body, .. } => spec_stmts_contain_goto(body, label),
        StmtT::Match { branches, default_branch, .. } => spec_branches_contain_goto(branches, label) || spec_stmts_contain_goto(default_branch, label),
        _ => false,
    }
}

/// Whether a jump to the label occurs in the statement.
pub fn stmt_contains_goto(s: &Rc<Stmt>, label: &Text) -> (out: bool)
    ensures
        out == spec_stmt_contains_goto(*s, *label),
    decreases s,
{
    match &s.val {
        StmtT::Goto(l) => same_text(&l.val, label),
        StmtT::If { then_branch, else_branch, .. } => stmts_contain_goto(then_branch, label) || stmts_contain_goto(else_branch, label),
        StmtT::While { body, .. } => stmts_contain_goto(body, label),
        StmtT::GotoBlock { body, .. } => stmts_contain_goto(body, label),
        StmtT::Match { branches, default_branch, .. } => branches_contain_goto(branches, label) || stmts_contain_goto(default_branch, label),
        _ => false,
    }
}

/// Whether a jump to the label occurs in the branch.
pub open spec fn spec_branch_contains_goto(b: Rc<Branch>, label: Text) -> bool
    decreases b,
{
    spec_stmts_contain_goto(b.body, label)
}

/// Whether a jump to the label occurs in the branch.
pub fn branch_contains_goto(b: &Rc<Branch>, label: &Text) -> (out: bool)
    ensures
        out == spec_branch_contains_goto(*b, *label),
    decreases b,
{
    stmts_contain_goto(&b.body, label)
}

/// Whether a jump to the label occurs in the branches.
pub open spec fn spec_branches_contain_goto(l: Rc<List<Branch>>, label: Text) -> bool
    decreases l,
{
    match *l {
        List::Nil => false,
        List::Cons(h, t) => spec_branch_contains_goto(h, label) || spec_branches_contain_goto(t, label),
    }
}

/// Whether a jump to the label occurs in the branches.
pub fn branches_contain_goto(l: &Rc<List<Branch>>, label: &Text) -> (out: bool)
    ensures
        out == spec_branches_contain_goto(*l, *label),
    decreases l,
{
    match &**l {
        List::Nil => false,
        List::Cons(h, t) => branch_contains_goto(h, label) || branches_contain_goto(t, label),
    }
}

/// Whether a jump to the label occurs in the statements.
pub open spec fn spec_stmts_contain_goto(l: Rc<List<Stmt>>, label: Text) -> bool
    decreases l,
{
    match *l {
        List::Nil => false,
        List::Cons(h, t) => spec_stmt_contains_goto(h, label) || spec_stmts_contain_goto(t, label),
    }
}

/// Whether a jump to the label occurs in the statements.
pub fn stmts_contain_goto(l: &Rc<List<Stmt>>, label: &Text) -> (out: bool)
    ensures
        out == spec_stmts_contain_goto(*l, *label),
    decreases l,
{
    match &**l {
        List::Nil => false,
        List::Cons(h, t) => stmt_contains_goto(h, label) || stmts_contain_goto(t, label),
    }
}

/// The label that a statement is, unless it is one to be skipped.
#[verifier::opaque]
pub open spec fn spec_open_label(s: Rc<Stmt>, skip: Rc<List<Rope>>) -> Option<Rc<Ident>>
{
    match s.val {
        StmtT::Label { name, .. } => {
            if spec_text_in(skip, name.val) {
                None
            } else {
                Some(name)
            }
        },
        _ => None,
    }
}

/// The label that a statement is, unless it is one to be skipped.
pub fn open_label(s: &Rc<Stmt>, skip: &Rc<List<Rope>>) -> (out: Option<Rc<Ident>>)
    ensures
        out == spec_open_label(*s, *skip),
{
    proof {
        reveal(spec_open_label);
    }
    match &s.val {
        StmtT::Label { name, .. } => if text_in(skip, &name.val) { None } else { Some(name.clone()) },
        _ => None,
    }
}

/// A list of statements around a label: those before it, the label, and those after it.
pub struct AtLabel {
    pub before: Rc<List<Stmt>>,
    pub label: Rc<Stmt>,
    pub name: Rc<Ident>,
    pub after: Rc<List<Stmt>>,
}

/// The statements around the last label that is not to be skipped.
pub open spec fn spec_last_label(l: Rc<List<Stmt>>, skip: Rc<List<Rope>>) -> Option<AtLabel>
    decreases l,
{
    match *l {
        List::Nil => None,
        List::Cons(h, t) => {
            match spec_last_label(t, skip) {
                Some(a) => Some(AtLabel { before: spec_cons(h, a.before), label: a.label, name: a.name, after: a.after }),
                None => {
                    match spec_open_label(h, skip) {
                        Some(name) => Some(AtLabel { before: spec_nil(), label: h, name, after: t }),
                        None => None,
                    }
                },
            }
        },
    }
}

/// The statements around the last label that is not to be skipped.
pub fn last_label(l: &Rc<List<Stmt>>, skip: &Rc<List<Rope>>) -> (out: Option<AtLabel>)
    ensures
        out == spec_last_label(*l, *skip),
    decreases l,
{
    match &**l {
        List::Nil => None,
        List::Cons(h, t) => match last_label(t, skip) {
            Some(a) => Some(AtLabel { before: cons(h.clone(), a.before), label: a.label, name: a.name, after: a.after }),
            None => match open_label(h, skip) {
                Some(name) => Some(AtLabel { before: nil(), label: h.clone(), name, after: t.clone() }),
                None => None,
            },
        },
    }
}

/// The statements in front of the first that jumps to the label.
pub open spec fn spec_before_goto(l: Rc<List<Stmt>>, label: Text) -> Rc<List<Stmt>>
    decreases l,
{
    match *l {
        List::Nil => spec_nil(),
        List::Cons(h, t) => {
            if spec_stmt_contains_goto(h, label) {
                spec_nil()
            } else {
                spec_cons(h, spec_before_goto(t, label))
            }
        },
    }
}

/// The statements in front of the first that jumps to the label.
pub fn before_goto(l: &Rc<List<Stmt>>, label: &Text) -> (out: Rc<List<Stmt>>)
    ensures
        out == spec_before_goto(*l, *label),
    decreases l,
{
    match &**l {
        List::Nil => nil(),
        List::Cons(h, t) => if stmt_contains_goto(h, label) { nil() } else { cons(h.clone(), before_goto(t, label)) },
    }
}

/// The statements from the first that jumps to the label on.
pub open spec fn spec_from_goto(l: Rc<List<Stmt>>, label: Text) -> Rc<List<Stmt>>
    decreases l,
{
    match *l {
        List::Nil => spec_nil(),
        List::Cons(h, t) => {
            if spec_stmt_contains_goto(h, label) {
                l
            } else {
                spec_from_goto(t, label)
            }
        },
    }
}

/// The statements from the first that jumps to the label on.
pub fn from_goto(l: &Rc<List<Stmt>>, label: &Text) -> (out: Rc<List<Stmt>>)
    ensures
        out == spec_from_goto(*l, *label),
    decreases l,
{
    match &**l {
        List::Nil => nil(),
        List::Cons(h, t) => if stmt_contains_goto(h, label) { l.clone() } else { from_goto(t, label) },
    }
}

/// The postcondition of a label.
#[verifier::opaque]
pub open spec fn spec_label_ensures(s: Rc<Stmt>) -> Rc<List<Expr>>
{
    match s.val {
        StmtT::Label { ensures_, .. } => ensures_,
        _ => spec_nil(),
    }
}

/// The postcondition of a label.
pub fn label_ensures(s: &Rc<Stmt>) -> (out: Rc<List<Expr>>)
    ensures
        out == spec_label_ensures(*s),
{
    proof {
        reveal(spec_label_ensures);
    }
    match &s.val {
        StmtT::Label { ensures_, .. } => ensures_.clone(),
        _ => nil(),
    }
}

/// The block that ends at a label.
#[verifier::opaque]
pub open spec fn spec_mk_goto_block(
    body: Rc<List<Stmt>>,
    label: Rc<Stmt>,
    name: Rc<Ident>,
) -> Rc<Stmt>
{
    Rc::new(Stmt { loc: label.loc, val: StmtT::GotoBlock { body, label: name, ensures_: spec_label_ensures(label) } })
}

/// The block that ends at a label.
pub fn mk_goto_block(body: Rc<List<Stmt>>, label: &Rc<Stmt>, name: &Rc<Ident>) -> (out: Rc<Stmt>)
    ensures
        out == spec_mk_goto_block(body, *label, *name),
{
    proof {
        reveal(spec_mk_goto_block);
    }
    Rc::new(Stmt { loc: label.loc.clone(), val: StmtT::GotoBlock { body, label: name.clone(), ensures_: label_ensures(label) } })
}

/// The statements with a block for each label that is jumped to, from the last to the first.
/// A label without a jump to it is skipped. Each turn settles a label, so `turns` of them are
/// enough where there are no more labels than that.
pub open spec fn spec_make_blocks(
    l: Rc<List<Stmt>>,
    skip: Rc<List<Rope>>,
    turns: u64,
    fuel: u64,
) -> Rc<List<Stmt>>
    decreases fuel, 1nat, turns, l,
{
    if turns == 0 {
        l
    } else {
        match spec_last_label(l, skip) {
            None => l,
            Some(a) => {
                if spec_stmts_contain_goto(a.before, a.name.val) {
                    let body = if fuel == 0 {
                        spec_from_goto(a.before, a.name.val)
                    } else {
                        spec_restructure_stmts(spec_from_goto(a.before, a.name.val), spec_drop_one(fuel))
                    };
                    let block = spec_mk_goto_block(body, a.label, a.name);
                    spec_make_blocks(spec_list_append(spec_before_goto(a.before, a.name.val), spec_cons(block, a.after)), skip, spec_drop_one(turns), fuel)
                } else {
                    spec_make_blocks(l, spec_cons(a.name.val, skip), spec_drop_one(turns), fuel)
                }
            },
        }
    }
}

/// The statements with a block for each label that is jumped to, from the last to the first.
/// A label without a jump to it is skipped. Each turn settles a label, so `turns` of them are
/// enough where there are no more labels than that.
pub fn make_blocks(l: &Rc<List<Stmt>>, skip: Rc<List<Rope>>, turns: u64, fuel: u64) -> (out: Rc<List<Stmt>>)
    ensures
        out == spec_make_blocks(*l, skip, turns, fuel),
    decreases fuel, 1nat, turns, l,
{
    if turns == 0 {
        l.clone()
    } else {
        match last_label(l, &skip) {
            None => l.clone(),
            Some(a) => if stmts_contain_goto(&a.before, &a.name.val) {
                let body = if fuel == 0 { from_goto(&a.before, &a.name.val) } else { restructure_stmts(&from_goto(&a.before, &a.name.val), drop_one(fuel)) };
                let block = mk_goto_block(body, &a.label, &a.name);
                make_blocks(&list_append(&before_goto(&a.before, &a.name.val), cons(block, a.after)), skip, drop_one(turns), fuel)
            } else {
                make_blocks(l, cons(a.name.val.clone(), skip), drop_one(turns), fuel)
            },
        }
    }
}

/// The statements with a block for each label that is jumped to, also within others. No list
/// of statements is nested deeper than there are statements, so their number is enough fuel.
pub open spec fn spec_restructure_stmts(l: Rc<List<Stmt>>, fuel: u64) -> Rc<List<Stmt>>
    decreases fuel, 3nat, 0nat, l,
{
    let inner = spec_restructure_each(l, fuel);
    spec_make_blocks(inner, spec_nil(), spec_bump(spec_list_len(inner)), fuel)
}

/// The statements with a block for each label that is jumped to, also within others. No list
/// of statements is nested deeper than there are statements, so their number is enough fuel.
pub fn restructure_stmts(l: &Rc<List<Stmt>>, fuel: u64) -> (out: Rc<List<Stmt>>)
    ensures
        out == spec_restructure_stmts(*l, fuel),
    decreases fuel, 3nat, 0nat, l,
{
    let inner = restructure_each(l, fuel);
    make_blocks(&inner, nil(), bump(list_len(&inner)), fuel)
}

/// Each statement with the blocks within it.
pub open spec fn spec_restructure_each(l: Rc<List<Stmt>>, fuel: u64) -> Rc<List<Stmt>>
    decreases fuel, 2nat, 0nat, l,
{
    match *l {
        List::Nil => spec_nil(),
        List::Cons(h, t) => spec_cons(spec_restructure_stmt(h, fuel), spec_restructure_each(t, fuel)),
    }
}

/// Each statement with the blocks within it.
pub fn restructure_each(l: &Rc<List<Stmt>>, fuel: u64) -> (out: Rc<List<Stmt>>)
    ensures
        out == spec_restructure_each(*l, fuel),
    decreases fuel, 2nat, 0nat, l,
{
    match &**l {
        List::Nil => nil(),
        List::Cons(h, t) => cons(restructure_stmt(h, fuel), restructure_each(t, fuel)),
    }
}

/// The statement with the blocks within it.
pub open spec fn spec_restructure_stmt(s: Rc<Stmt>, fuel: u64) -> Rc<Stmt>
    decreases fuel, 1nat, 0nat, s,
{
    if fuel == 0 {
        s
    } else {
        match s.val {
            StmtT::If { cond, then_branch, else_branch, ensures_ } => Rc::new(Stmt { loc: s.loc, val: StmtT::If { cond, then_branch: spec_restructure_stmts(then_branch, spec_drop_one(fuel)), else_branch: spec_restructure_stmts(else_branch, spec_drop_one(fuel)), ensures_ } }),
            StmtT::While { cond, inv, requires_, ensures_, body } => Rc::new(Stmt { loc: s.loc, val: StmtT::While { cond, inv, requires_, ensures_, body: spec_restructure_stmts(body, spec_drop_one(fuel)) } }),
            StmtT::GotoBlock { body, label, ensures_ } => Rc::new(Stmt { loc: s.loc, val: StmtT::GotoBlock { body: spec_restructure_stmts(body, spec_drop_one(fuel)), label, ensures_ } }),
            StmtT::Match { scrutinee, branches, default_branch, ensures_ } => Rc::new(Stmt { loc: s.loc, val: StmtT::Match { scrutinee, branches: spec_restructure_branches(branches, spec_drop_one(fuel)), default_branch: spec_restructure_stmts(default_branch, spec_drop_one(fuel)), ensures_ } }),
            _ => s,
        }
    }
}

/// The statement with the blocks within it.
pub fn restructure_stmt(s: &Rc<Stmt>, fuel: u64) -> (out: Rc<Stmt>)
    ensures
        out == spec_restructure_stmt(*s, fuel),
    decreases fuel, 1nat, 0nat, s,
{
    if fuel == 0 {
        s.clone()
    } else {
        match &s.val {
            StmtT::If { cond, then_branch, else_branch, ensures_ } => Rc::new(Stmt { loc: s.loc.clone(), val: StmtT::If {
                cond: cond.clone(),
                then_branch: restructure_stmts(then_branch, drop_one(fuel)),
                else_branch: restructure_stmts(else_branch, drop_one(fuel)),
                ensures_: ensures_.clone(),
            } }),
            StmtT::While { cond, inv, requires_, ensures_, body } => Rc::new(Stmt { loc: s.loc.clone(), val: StmtT::While {
                cond: cond.clone(),
                inv: inv.clone(),
                requires_: requires_.clone(),
                ensures_: ensures_.clone(),
                body: restructure_stmts(body, drop_one(fuel)),
            } }),
            StmtT::GotoBlock { body, label, ensures_ } => Rc::new(Stmt { loc: s.loc.clone(), val: StmtT::GotoBlock {
                body: restructure_stmts(body, drop_one(fuel)),
                label: label.clone(),
                ensures_: ensures_.clone(),
            } }),
            StmtT::Match { scrutinee, branches, default_branch, ensures_ } => Rc::new(Stmt { loc: s.loc.clone(), val: StmtT::Match {
                scrutinee: scrutinee.clone(),
                branches: restructure_branches(branches, drop_one(fuel)),
                default_branch: restructure_stmts(default_branch, drop_one(fuel)),
                ensures_: ensures_.clone(),
            } }),
            _ => s.clone(),
        }
    }
}

/// The branches with the blocks within them.
pub open spec fn spec_restructure_branches(l: Rc<List<Branch>>, fuel: u64) -> Rc<List<Branch>>
    decreases fuel, 4nat, 0nat, l,
{
    match *l {
        List::Nil => spec_nil(),
        List::Cons(h, t) => spec_cons(Rc::new(Branch { patterns: h.patterns, body: spec_restructure_stmts(h.body, fuel) }), spec_restructure_branches(t, fuel)),
    }
}

/// The branches with the blocks within them.
pub fn restructure_branches(l: &Rc<List<Branch>>, fuel: u64) -> (out: Rc<List<Branch>>)
    ensures
        out == spec_restructure_branches(*l, fuel),
    decreases fuel, 4nat, 0nat, l,
{
    match &**l {
        List::Nil => nil(),
        List::Cons(h, t) => cons(Rc::new(Branch { patterns: h.patterns.clone(), body: restructure_stmts(&h.body, fuel) }), restructure_branches(t, fuel)),
    }
}

/// How many statements there are, also within conditionals, loops and blocks.
pub open spec fn spec_nested_size(l: Rc<List<Stmt>>) -> u64
    decreases l,
{
    match *l {
        List::Nil => 0,
        List::Cons(h, t) => spec_plus(spec_nested_stmt_size(h), spec_nested_size(t)),
    }
}

/// How many statements there are, also within conditionals, loops and blocks.
pub fn nested_size(l: &Rc<List<Stmt>>) -> (out: u64)
    ensures
        out == spec_nested_size(*l),
    decreases l,
{
    match &**l {
        List::Nil => 0,
        List::Cons(h, t) => plus(nested_stmt_size(h), nested_size(t)),
    }
}

/// How many statements a statement is made of.
pub open spec fn spec_nested_stmt_size(s: Rc<Stmt>) -> u64
    decreases s,
{
    match s.val {
        StmtT::If { then_branch, else_branch, .. } => spec_bump(spec_plus(spec_nested_size(then_branch), spec_nested_size(else_branch))),
        StmtT::While { body, .. } => spec_bump(spec_nested_size(body)),
        StmtT::GotoBlock { body, .. } => spec_bump(spec_nested_size(body)),
        StmtT::Match { branches, default_branch, .. } => spec_bump(spec_plus(spec_nested_branches_size(branches), spec_nested_size(default_branch))),
        _ => 1,
    }
}

/// How many statements a statement is made of.
pub fn nested_stmt_size(s: &Rc<Stmt>) -> (out: u64)
    ensures
        out == spec_nested_stmt_size(*s),
    decreases s,
{
    match &s.val {
        StmtT::If { then_branch, else_branch, .. } => bump(plus(nested_size(then_branch), nested_size(else_branch))),
        StmtT::While { body, .. } => bump(nested_size(body)),
        StmtT::GotoBlock { body, .. } => bump(nested_size(body)),
        StmtT::Match { branches, default_branch, .. } => bump(plus(nested_branches_size(branches), nested_size(default_branch))),
        _ => 1,
    }
}

/// How many statements a branch is made of.
pub open spec fn spec_nested_branch_size(b: Rc<Branch>) -> u64
    decreases b,
{
    spec_nested_size(b.body)
}

/// How many statements a branch is made of.
pub fn nested_branch_size(b: &Rc<Branch>) -> (out: u64)
    ensures
        out == spec_nested_branch_size(*b),
    decreases b,
{
    nested_size(&b.body)
}

/// How many statements branches are made of.
pub open spec fn spec_nested_branches_size(l: Rc<List<Branch>>) -> u64
    decreases l,
{
    match *l {
        List::Nil => 0,
        List::Cons(h, t) => spec_plus(spec_nested_branch_size(h), spec_nested_branches_size(t)),
    }
}

/// How many statements branches are made of.
pub fn nested_branches_size(l: &Rc<List<Branch>>) -> (out: u64)
    ensures
        out == spec_nested_branches_size(*l),
    decreases l,
{
    match &**l {
        List::Nil => 0,
        List::Cons(h, t) => plus(nested_branch_size(h), nested_branches_size(t)),
    }
}

/// Whether the innermost label is the given one.
#[verifier::opaque]
pub open spec fn spec_is_innermost(innermost: Option<Text>, label: Text) -> bool
{
    match innermost {
        Some(t) => spec_same_text(t, label),
        None => false,
    }
}

/// Whether the innermost label is the given one.
pub fn is_innermost(innermost: &Option<Text>, label: &Text) -> (out: bool)
    ensures
        out == spec_is_innermost(*innermost, *label),
{
    proof {
        reveal(spec_is_innermost);
    }
    match innermost {
        Some(t) => same_text(t, label),
        None => false,
    }
}

/// What is said of a jump that does not leave the innermost block.
#[verifier::opaque]
pub open spec fn spec_bad_goto(s: Rc<Stmt>, label: Rc<Ident>) -> Rc<Diagnostic>
{
    spec_mk_error(s.loc, spec_cat3(spec_lit("unsupported goto to `"), label.val, spec_lit("`: only a jump to the closest following label of the enclosing block is supported")))
}

/// What is said of a jump that does not leave the innermost block.
pub fn bad_goto(s: &Rc<Stmt>, label: &Rc<Ident>) -> (out: Rc<Diagnostic>)
    ensures
        out == spec_bad_goto(*s, *label),
{
    proof {
        reveal(spec_bad_goto);
    }
    mk_error(&s.loc, cat3(lit("unsupported goto to `"), label.val.clone(),
        lit("`: only a jump to the closest following label of the enclosing block is supported")))
}

/// The messages, with one for every jump in the statement that does not leave the innermost
/// block, given its label. Conditionals, case distinctions and loops are no blocks to be
/// left, so they do not change the innermost label. Any other jump cannot be expressed, and emitted it would refer
/// to a label that is never defined.
pub open spec fn spec_check_gotos_stmt(
    diags: Rc<List<Diagnostic>>,
    s: Rc<Stmt>,
    innermost: Option<Text>,
) -> Rc<List<Diagnostic>>
    decreases s,
{
    match s.val {
        StmtT::Goto(label) => {
            if spec_is_innermost(innermost, label.val) {
                diags
            } else {
                spec_cons(spec_bad_goto(s, label), diags)
            }
        },
        StmtT::If { then_branch, else_branch, .. } => spec_check_gotos_stmts(spec_check_gotos_stmts(diags, then_branch, innermost), else_branch, innermost),
        StmtT::While { body, .. } => spec_check_gotos_stmts(diags, body, innermost),
        StmtT::GotoBlock { body, label, .. } => spec_check_gotos_stmts(diags, body, Some(label.val)),
        StmtT::Match { branches, default_branch, .. } => spec_check_gotos_stmts(spec_check_gotos_branches(diags, branches, innermost), default_branch, innermost),
        _ => diags,
    }
}

/// The messages, with one for every jump in the statement that does not leave the innermost
/// block, given its label. Conditionals, case distinctions and loops are no blocks to be
/// left, so they do not change the innermost label. Any other jump cannot be expressed, and emitted it would refer
/// to a label that is never defined.
pub fn check_gotos_stmt(
    diags: Rc<List<Diagnostic>>,
    s: &Rc<Stmt>,
    innermost: &Option<Text>,
) -> (out: Rc<List<Diagnostic>>)
    ensures
        out == spec_check_gotos_stmt(diags, *s, *innermost),
        extends(out, diags),
    decreases s,
{
    proof {
        reveal_with_fuel(extends, 2);
    }
    match &s.val {
        StmtT::Goto(label) => if is_innermost(innermost, &label.val) { diags } else { cons(bad_goto(s, label), diags) },
        StmtT::If { then_branch, else_branch, .. } => check_gotos_stmts(check_gotos_stmts(diags, then_branch, innermost), else_branch, innermost),
        StmtT::While { body, .. } => check_gotos_stmts(diags, body, innermost),
        StmtT::GotoBlock { body, label, .. } => check_gotos_stmts(diags, body, &Some(label.val.clone())),
        StmtT::Match { branches, default_branch, .. } => check_gotos_stmts(check_gotos_branches(diags, branches, innermost), default_branch, innermost),
        _ => diags,
    }
}

/// The messages, with one for every jump in the branch that does not leave the innermost block.
pub open spec fn spec_check_gotos_branch(
    diags: Rc<List<Diagnostic>>,
    b: Rc<Branch>,
    innermost: Option<Text>,
) -> Rc<List<Diagnostic>>
    decreases b,
{
    spec_check_gotos_stmts(diags, b.body, innermost)
}

/// The messages, with one for every jump in the branch that does not leave the innermost block.
pub fn check_gotos_branch(
    diags: Rc<List<Diagnostic>>,
    b: &Rc<Branch>,
    innermost: &Option<Text>,
) -> (out: Rc<List<Diagnostic>>)
    ensures
        out == spec_check_gotos_branch(diags, *b, *innermost),
        extends(out, diags),
    decreases b,
{
    check_gotos_stmts(diags, &b.body, innermost)
}

/// The messages, with one for every jump in the branches that does not leave the innermost block.
pub open spec fn spec_check_gotos_branches(
    diags: Rc<List<Diagnostic>>,
    l: Rc<List<Branch>>,
    innermost: Option<Text>,
) -> Rc<List<Diagnostic>>
    decreases l,
{
    match *l {
        List::Nil => diags,
        List::Cons(h, t) => spec_check_gotos_branches(spec_check_gotos_branch(diags, h, innermost), t, innermost),
    }
}

/// The messages, with one for every jump in the branches that does not leave the innermost block.
pub fn check_gotos_branches(
    diags: Rc<List<Diagnostic>>,
    l: &Rc<List<Branch>>,
    innermost: &Option<Text>,
) -> (out: Rc<List<Diagnostic>>)
    ensures
        out == spec_check_gotos_branches(diags, *l, *innermost),
        extends(out, diags),
    decreases l,
{
    match &**l {
        List::Nil => diags,
        List::Cons(h, t) => check_gotos_branches(check_gotos_branch(diags, h, innermost), t, innermost),
    }
}

/// The messages, with one for every jump in the statements that does not leave the innermost
/// block.
pub open spec fn spec_check_gotos_stmts(
    diags: Rc<List<Diagnostic>>,
    l: Rc<List<Stmt>>,
    innermost: Option<Text>,
) -> Rc<List<Diagnostic>>
    decreases l,
{
    match *l {
        List::Nil => diags,
        List::Cons(h, t) => spec_check_gotos_stmts(spec_check_gotos_stmt(diags, h, innermost), t, innermost),
    }
}

/// The messages, with one for every jump in the statements that does not leave the innermost
/// block.
pub fn check_gotos_stmts(
    diags: Rc<List<Diagnostic>>,
    l: &Rc<List<Stmt>>,
    innermost: &Option<Text>,
) -> (out: Rc<List<Diagnostic>>)
    ensures
        out == spec_check_gotos_stmts(diags, *l, *innermost),
        extends(out, diags),
    decreases l,
{
    match &**l {
        List::Nil => diags,
        List::Cons(h, t) => check_gotos_stmts(check_gotos_stmt(diags, h, innermost), t, innermost),
    }
}

/// The declaration with blocks for gotos.
#[verifier::opaque]
pub open spec fn spec_restructure_decl(d: Rc<Decl>) -> Rc<Decl>
{
    match d.val {
        DeclT::FnDefn(f) => Rc::new(Decl { loc: d.loc, val: DeclT::FnDefn(Rc::new(FnDefn { decl: f.decl, body: spec_restructure_stmts(f.body, spec_nested_size(f.body)) })) }),
        _ => d,
    }
}

/// The declaration with blocks for gotos.
pub fn restructure_decl(d: &Rc<Decl>) -> (out: Rc<Decl>)
    ensures
        out == spec_restructure_decl(*d),
{
    proof {
        reveal(spec_restructure_decl);
    }
    match &d.val {
        DeclT::FnDefn(f) => Rc::new(Decl { loc: d.loc.clone(), val: DeclT::FnDefn(Rc::new(FnDefn {
            decl: f.decl.clone(),
            body: restructure_stmts(&f.body, nested_size(&f.body)),
        })) }),
        _ => d.clone(),
    }
}

/// The messages about the jumps of a declaration.
#[verifier::opaque]
pub open spec fn spec_check_gotos_decl(
    diags: Rc<List<Diagnostic>>,
    d: Rc<Decl>,
) -> Rc<List<Diagnostic>>
{
    match d.val {
        DeclT::FnDefn(f) => spec_check_gotos_stmts(diags, f.body, None),
        _ => diags,
    }
}

/// The messages about the jumps of a declaration.
pub fn check_gotos_decl(diags: Rc<List<Diagnostic>>, d: &Rc<Decl>) -> (out: Rc<List<Diagnostic>>)
    ensures
        out == spec_check_gotos_decl(diags, *d),
        extends(out, diags),
{
    proof {
        reveal(spec_check_gotos_decl);
    }
    match &d.val {
        DeclT::FnDefn(f) => check_gotos_stmts(diags, &f.body, &None),
        _ => diags,
    }
}

/// The declarations with blocks for gotos.
pub open spec fn spec_restructure_decls(l: Rc<List<Decl>>) -> Rc<List<Decl>>
    decreases l,
{
    match *l {
        List::Nil => spec_nil(),
        List::Cons(h, t) => spec_cons(spec_restructure_decl(h), spec_restructure_decls(t)),
    }
}

/// The declarations with blocks for gotos.
pub fn restructure_decls(l: &Rc<List<Decl>>) -> (out: Rc<List<Decl>>)
    ensures
        out == spec_restructure_decls(*l),
    decreases l,
{
    match &**l {
        List::Nil => nil(),
        List::Cons(h, t) => cons(restructure_decl(h), restructure_decls(t)),
    }
}

/// The messages about the jumps of declarations.
pub open spec fn spec_check_gotos_decls(
    diags: Rc<List<Diagnostic>>,
    l: Rc<List<Decl>>,
) -> Rc<List<Diagnostic>>
    decreases l,
{
    match *l {
        List::Nil => diags,
        List::Cons(h, t) => spec_check_gotos_decls(spec_check_gotos_decl(diags, h), t),
    }
}

/// The messages about the jumps of declarations.
pub fn check_gotos_decls(diags: Rc<List<Diagnostic>>, l: &Rc<List<Decl>>) -> (out: Rc<List<Diagnostic>>)
    ensures
        out == spec_check_gotos_decls(diags, *l),
        extends(out, diags),
    decreases l,
{
    match &**l {
        List::Nil => diags,
        List::Cons(h, t) => check_gotos_decls(check_gotos_decl(diags, h), t),
    }
}

/// Turns gotos into exits of blocks, and reports every goto that is none afterwards.
pub fn restructure_goto(diags: &mut Diagnostics, tu: &mut TranslationUnit)
    ensures
        list_of(final(tu).decls@) == spec_restructure_decls(list_of(old(tu).decls@)),
        final(diags).list == spec_check_gotos_decls(old(diags).list, list_of(final(tu).decls@)),
        extends(final(diags).list, old(diags).list),
        final(tu).decls@.len() == old(tu).decls@.len(),
        forall|i: int| 0 <= i < old(tu).decls@.len() ==> is_restructured(#[trigger] final(tu).decls@[i], old(tu).decls@[i]),
        final(diags).list.items().len() == old(diags).list.items().len() + unit_bad_jumps(list_of(final(tu).decls@)),
{
    proof {
        law_lists_keep_their_items(tu.decls@);
        law_every_declaration_is_restructured(list_of(tu.decls@));
    }
    let l = restructure_decls(&List::from_vec(&tu.decls));
    diags.list = check_gotos_decls(diags.list.clone(), &l);
    tu.decls = List::to_vec(&l);
    proof {
        lemma_items_list_of(l);
        law_bad_jumps_of_a_unit_are_reported(old(diags).list, l);
    }
}

} // verus!
