//! What is proved of the restructuring of gotos.

use crate::list::{
    List, spec_bump, spec_cons, spec_drop_one, spec_l1, spec_list_append, spec_list_len, spec_nil,
};
use crate::text::{Rope, Text, spec_same_text};
use crate::ir::{Branch, Expr, Ident, Stmt, StmtT};
use crate::diag::Diagnostic;
use crate::env::spec_plus;
use crate::names::spec_text_in;
use crate::restructure_goto::{
    AtLabel, spec_before_goto, spec_branch_contains_goto, spec_branches_contain_goto,
    spec_check_gotos_branch, spec_check_gotos_branches, spec_check_gotos_stmt,
    spec_check_gotos_stmts, spec_from_goto, spec_is_innermost, spec_label_ensures,
    spec_last_label, spec_make_blocks, spec_mk_goto_block, spec_nested_branch_size,
    spec_nested_branches_size, spec_nested_size, spec_nested_stmt_size, spec_open_label,
    spec_restructure_branches, spec_restructure_each, spec_restructure_stmt,
    spec_restructure_stmts, spec_stmt_contains_goto, spec_stmts_contain_goto,
};
use crate::merge::Match;
use crate::laws_names::lemma_list_len;
use std::rc::Rc;
use vstd::prelude::*;

verus! {

/// The statements with every block taken apart again: its statements, and then its label.
pub open spec fn unblock(l: Rc<List<Stmt>>) -> Rc<List<Stmt>>
    decreases l,
{
    match *l {
        List::Nil => l,
        List::Cons(h, t) => spec_list_append(unblock_stmt(h), unblock(t)),
    }
}

/// The statement with every block taken apart again.
pub open spec fn unblock_stmt(s: Rc<Stmt>) -> Rc<List<Stmt>>
    decreases s,
{
    match s.val {
        StmtT::If { cond, then_branch, else_branch, ensures_ } => spec_l1(Rc::new(Stmt {
            loc: s.loc,
            val: StmtT::If { cond, then_branch: unblock(then_branch), else_branch: unblock(else_branch), ensures_ },
        })),
        StmtT::While { cond, inv, requires_, ensures_, body } => spec_l1(Rc::new(Stmt {
            loc: s.loc,
            val: StmtT::While { cond, inv, requires_, ensures_, body: unblock(body) },
        })),
        StmtT::GotoBlock { body, label, ensures_ } => spec_list_append(
            unblock(body),
            spec_l1(Rc::new(Stmt { loc: s.loc, val: StmtT::Label { name: label, ensures_ } })),
        ),
        StmtT::Match { scrutinee, branches, default_branch, ensures_ } => spec_l1(Rc::new(Stmt {
            loc: s.loc,
            val: StmtT::Match {
                scrutinee,
                branches: unblock_branches(branches),
                default_branch: unblock(default_branch),
                ensures_,
            },
        })),
        _ => spec_l1(s),
    }
}

/// The branch with every block taken apart again.
pub open spec fn unblock_branch(b: Rc<Branch>) -> Rc<Branch>
    decreases b,
{
    Rc::new(Branch { patterns: b.patterns, body: unblock(b.body) })
}

/// The branches with every block taken apart again.
pub open spec fn unblock_branches(l: Rc<List<Branch>>) -> Rc<List<Branch>>
    decreases l,
{
    match *l {
        List::Nil => l,
        List::Cons(h, t) => Rc::new(List::Cons(unblock_branch(h), unblock_branches(t))),
    }
}

/// The branch with other statements.
pub open spec fn with_body(b: Rc<Branch>, body: Rc<List<Stmt>>) -> Rc<Branch> {
    Rc::new(Branch { patterns: b.patterns, body })
}

/// The statements of a branch.
pub open spec fn branch_body(b: Rc<Branch>) -> Rc<List<Stmt>> {
    b.body
}

/// Appending lists is associative.
pub proof fn lemma_append_assoc<X>(a: Rc<List<X>>, b: Rc<List<X>>, c: Rc<List<X>>)
    ensures
        spec_list_append(spec_list_append(a, b), c) == spec_list_append(a, spec_list_append(b, c)),
    decreases a,
{
    match *a {
        List::Nil => {},
        List::Cons(_, t) => {
            lemma_append_assoc(t, b, c);
        },
    }
}

/// Taking blocks apart works list by list.
proof fn lemma_unblock_append(a: Rc<List<Stmt>>, b: Rc<List<Stmt>>)
    ensures
        unblock(spec_list_append(a, b)) == spec_list_append(unblock(a), unblock(b)),
    decreases a,
{
    match *a {
        List::Nil => {},
        List::Cons(h, t) => {
            lemma_unblock_append(t, b);
            lemma_append_assoc(unblock_stmt(h), unblock(t), unblock(b));
        },
    }
}

/// The last label splits the list.
proof fn lemma_last_label(l: Rc<List<Stmt>>, skip: Rc<List<Rope>>)
    ensures
        spec_last_label(l, skip) matches Some(a) ==> {
            &&& l == spec_list_append(a.before, Rc::new(List::Cons(a.label, a.after)))
            &&& a.label.val matches StmtT::Label { name, ensures_ } && name == a.name
        },
    decreases l,
{
    reveal(spec_open_label);
    match *l {
        List::Nil => {},
        List::Cons(h, t) => {
            lemma_last_label(t, skip);
        },
    }
}

/// The first jump to a label splits the list.
proof fn lemma_split_at_goto(l: Rc<List<Stmt>>, label: Text)
    ensures
        spec_list_append(spec_before_goto(l, label), spec_from_goto(l, label)) == l,
    decreases l,
{
    match *l {
        List::Nil => {},
        List::Cons(h, t) => {
            lemma_split_at_goto(t, label);
        },
    }
}

/// A block taken apart is its body with its label behind it.
proof fn lemma_unblock_block(body: Rc<List<Stmt>>, label: Rc<Stmt>, name: Rc<Ident>)
    requires
        label.val matches StmtT::Label { name: n, ensures_ } && n == name,
    ensures
        unblock_stmt(spec_mk_goto_block(body, label, name)) == spec_list_append(unblock(body), unblock_stmt(label)),
{
    reveal(spec_mk_goto_block);
    reveal(spec_label_ensures);
}

/// The text of a name.
pub open spec fn ident_text(n: Rc<Ident>) -> Text {
    n.val
}

/// Making blocks only groups statements.
proof fn lemma_make_blocks(l: Rc<List<Stmt>>, skip: Rc<List<Rope>>, turns: u64, fuel: u64)
    ensures
        unblock(spec_make_blocks(l, skip, turns, fuel)) == unblock(l),
    decreases fuel, 1nat, turns, l,
{
    if turns > 0 {
        match spec_last_label(l, skip) {
            None => {},
            Some(a) => {
                lemma_last_label(l, skip);
                if spec_stmts_contain_goto(a.before, ident_text(a.name)) {
                    let front = spec_before_goto(a.before, ident_text(a.name));
                    let back = spec_from_goto(a.before, ident_text(a.name));
                    let body = if fuel == 0 { back } else { spec_restructure_stmts(back, spec_drop_one(fuel)) };
                    if fuel > 0 {
                        law_restructuring_keeps_statements(back, spec_drop_one(fuel));
                    }
                    let block = spec_mk_goto_block(body, a.label, a.name);
                    let rest: Rc<List<Stmt>> = Rc::new(List::Cons(block, a.after));
                    let tail: Rc<List<Stmt>> = Rc::new(List::Cons(a.label, a.after));
                    lemma_make_blocks(spec_list_append(front, rest), skip, spec_drop_one(turns), fuel);
                    lemma_unblock_append(front, rest);
                    lemma_unblock_block(body, a.label, a.name);
                    lemma_append_assoc(unblock(back), unblock_stmt(a.label), unblock(a.after));
                    assert(unblock(rest) == spec_list_append(unblock_stmt(block), unblock(a.after)));
                    assert(unblock(rest) == spec_list_append(unblock(back), unblock(tail)));
                    lemma_split_at_goto(a.before, ident_text(a.name));
                    lemma_unblock_append(a.before, tail);
                    lemma_unblock_append(front, back);
                    lemma_append_assoc(unblock(front), unblock(back), unblock(tail));
                } else {
                    lemma_make_blocks(l, spec_cons(ident_text(a.name), skip), spec_drop_one(turns), fuel);
                }
            },
        }
    }
}

/// Restructuring each statement only groups statements.
proof fn lemma_restructure_each(l: Rc<List<Stmt>>, fuel: u64)
    ensures
        unblock(spec_restructure_each(l, fuel)) == unblock(l),
    decreases fuel, 2nat, 0nat, l,
{
    match *l {
        List::Nil => {},
        List::Cons(h, t) => {
            lemma_restructure_stmt(h, fuel);
            lemma_restructure_each(t, fuel);
        },
    }
}

/// Restructuring a statement only groups statements.
proof fn lemma_restructure_stmt(s: Rc<Stmt>, fuel: u64)
    ensures
        unblock_stmt(spec_restructure_stmt(s, fuel)) == unblock_stmt(s),
    decreases fuel, 1nat, 0nat, s,
{
    if fuel > 0 {
        match s.val {
            StmtT::If { cond, then_branch, else_branch, ensures_ } => {
                law_restructuring_keeps_statements(then_branch, spec_drop_one(fuel));
                law_restructuring_keeps_statements(else_branch, spec_drop_one(fuel));
            },
            StmtT::While { cond, inv, requires_, ensures_, body } => {
                law_restructuring_keeps_statements(body, spec_drop_one(fuel));
            },
            StmtT::GotoBlock { body, label, ensures_ } => {
                law_restructuring_keeps_statements(body, spec_drop_one(fuel));
            },
            StmtT::Match { scrutinee, branches, default_branch, ensures_ } => {
                lemma_restructure_branches(branches, spec_drop_one(fuel));
                law_restructuring_keeps_statements(default_branch, spec_drop_one(fuel));
            },
            _ => {},
        }
    }
}

/// Restructuring branches only groups statements.
proof fn lemma_restructure_branches(l: Rc<List<Branch>>, fuel: u64)
    ensures
        unblock_branches(spec_restructure_branches(l, fuel)) == unblock_branches(l),
    decreases fuel, 4nat, 0nat, l,
{
    match *l {
        List::Nil => {},
        List::Cons(h, t) => {
            law_restructuring_keeps_statements(branch_body(h), fuel);
            lemma_restructure_branches(t, fuel);
            let r = with_body(h, spec_restructure_stmts(branch_body(h), fuel));
            assert(unblock_branch(r) == unblock_branch(h));
        },
    }
}

/// Restructuring loses, adds and reorders nothing: with its blocks taken apart again, the result
/// is what it was made of.
pub proof fn law_restructuring_keeps_statements(l: Rc<List<Stmt>>, fuel: u64)
    ensures
        unblock(spec_restructure_stmts(l, fuel)) == unblock(l),
    decreases fuel, 3nat, 0nat, l,
{
    let inner = spec_restructure_each(l, fuel);
    lemma_restructure_each(l, fuel);
    lemma_make_blocks(inner, spec_nil(), spec_bump(spec_list_len(inner)), fuel);
}

/// The text of the label that a statement is.
pub open spec fn label_of(s: Rc<Stmt>) -> Option<Text> {
    match s.val {
        StmtT::Label { name, .. } => Some(name.val),
        _ => None,
    }
}

/// Whether the statement jumps to none of the labels of a list.
pub open spec fn never_ahead(s: Rc<Stmt>, l: Rc<List<Stmt>>) -> bool
    decreases l,
{
    match *l {
        List::Nil => true,
        List::Cons(h, t) => (label_of(h) matches Some(n) ==> !spec_stmt_contains_goto(s, n)) && never_ahead(s, t),
    }
}

/// Whether no statement of the list, or of one within it, jumps to a label that follows it in the
/// same list.
pub open spec fn settled(l: Rc<List<Stmt>>) -> bool
    decreases l,
{
    match *l {
        List::Nil => true,
        List::Cons(h, t) => settled_stmt(h) && never_ahead(h, t) && settled(t),
    }
}

/// Whether the lists within a statement are settled.
pub open spec fn settled_stmt(s: Rc<Stmt>) -> bool
    decreases s,
{
    match s.val {
        StmtT::If { then_branch, else_branch, .. } => settled(then_branch) && settled(else_branch),
        StmtT::While { body, .. } => settled(body),
        StmtT::GotoBlock { body, .. } => settled(body),
        StmtT::Match { branches, default_branch, .. } => settled_branches(branches) && settled(default_branch),
        _ => true,
    }
}

/// Whether the statements of a branch are settled.
pub open spec fn settled_branch(b: Rc<Branch>) -> bool
    decreases b,
{
    settled(b.body)
}

/// Whether the statements of branches are settled.
pub open spec fn settled_branches(l: Rc<List<Branch>>) -> bool
    decreases l,
{
    match *l {
        List::Nil => true,
        List::Cons(h, t) => settled_branch(h) && settled_branches(t),
    }
}

/// Whether the lists within each statement are settled.
pub open spec fn settled_each(l: Rc<List<Stmt>>) -> bool
    decreases l,
{
    match *l {
        List::Nil => true,
        List::Cons(h, t) => settled_stmt(h) && settled_each(t),
    }
}

/// How many statements there are, also within others.
pub open spec fn stmt_count(l: Rc<List<Stmt>>) -> nat
    decreases l,
{
    match *l {
        List::Nil => 0,
        List::Cons(h, t) => count_in_stmt(h) + stmt_count(t),
    }
}

/// How many statements a statement is made of.
pub open spec fn count_in_stmt(s: Rc<Stmt>) -> nat
    decreases s,
{
    match s.val {
        StmtT::If { then_branch, else_branch, .. } => 1 + stmt_count(then_branch) + stmt_count(else_branch),
        StmtT::While { body, .. } => 1 + stmt_count(body),
        StmtT::GotoBlock { body, .. } => 1 + stmt_count(body),
        StmtT::Match { branches, default_branch, .. } => 1 + count_in_branches(branches) + stmt_count(default_branch),
        _ => 1,
    }
}

/// How many statements a branch is made of.
pub open spec fn count_in_branch(b: Rc<Branch>) -> nat
    decreases b,
{
    stmt_count(b.body)
}

/// How many statements branches are made of.
pub open spec fn count_in_branches(l: Rc<List<Branch>>) -> nat
    decreases l,
{
    match *l {
        List::Nil => 0,
        List::Cons(h, t) => count_in_branch(h) + count_in_branches(t),
    }
}

/// The statements of two lists are those of both.
proof fn lemma_count_append(a: Rc<List<Stmt>>, b: Rc<List<Stmt>>)
    ensures
        stmt_count(spec_list_append(a, b)) == stmt_count(a) + stmt_count(b),
    decreases a,
{
    match *a {
        List::Nil => {},
        List::Cons(_, t) => lemma_count_append(t, b),
    }
}

/// Taking blocks apart keeps the number of statements: a block counts as its label.
proof fn lemma_count_unblock(l: Rc<List<Stmt>>)
    ensures
        stmt_count(unblock(l)) == stmt_count(l),
    decreases l,
{
    match *l {
        List::Nil => {},
        List::Cons(h, t) => {
            lemma_count_unblock_stmt(h);
            lemma_count_unblock(t);
            lemma_count_append(unblock_stmt(h), unblock(t));
        },
    }
}

/// Taking a block apart keeps the number of statements.
proof fn lemma_count_unblock_stmt(s: Rc<Stmt>)
    ensures
        stmt_count(unblock_stmt(s)) == count_in_stmt(s),
    decreases s,
{
    reveal(spec_l1);
    reveal_with_fuel(stmt_count, 3);
    match s.val {
        StmtT::If { then_branch, else_branch, .. } => {
            lemma_count_unblock(then_branch);
            lemma_count_unblock(else_branch);
        },
        StmtT::While { body, .. } => lemma_count_unblock(body),
        StmtT::GotoBlock { body, label, ensures_ } => {
            lemma_count_unblock(body);
            let end = unblock_label(s, label, ensures_);
            lemma_count_append(unblock(body), spec_l1(end));
        },
        StmtT::Match { branches, default_branch, .. } => {
            lemma_count_unblock_branches(branches);
            lemma_count_unblock(default_branch);
        },
        _ => {},
    }
}

/// Taking blocks of a branch apart keeps the number of statements.
proof fn lemma_count_unblock_branch(b: Rc<Branch>)
    ensures
        count_in_branch(unblock_branch(b)) == count_in_branch(b),
    decreases b,
{
    lemma_count_unblock(branch_body(b));
}

/// Taking blocks of branches apart keeps the number of statements.
proof fn lemma_count_unblock_branches(l: Rc<List<Branch>>)
    ensures
        count_in_branches(unblock_branches(l)) == count_in_branches(l),
    decreases l,
{
    match *l {
        List::Nil => {},
        List::Cons(h, t) => {
            lemma_count_unblock_branch(h);
            lemma_count_unblock_branches(t);
        },
    }
}

/// The label at the end of a block.
pub open spec fn unblock_label(s: Rc<Stmt>, label: Rc<Ident>, ensures_: Rc<List<Expr>>) -> Rc<Stmt> {
    Rc::new(Stmt { loc: s.loc, val: StmtT::Label { name: label, ensures_ } })
}

/// A jump occurs in two lists where it occurs in one of them.
proof fn lemma_goto_append(a: Rc<List<Stmt>>, b: Rc<List<Stmt>>, n: Text)
    ensures
        spec_stmts_contain_goto(spec_list_append(a, b), n) == (spec_stmts_contain_goto(a, n) || spec_stmts_contain_goto(b, n)),
    decreases a,
{
    match *a {
        List::Nil => {},
        List::Cons(_, t) => lemma_goto_append(t, b, n),
    }
}

/// Taking blocks apart keeps the jumps.
proof fn lemma_goto_unblock(l: Rc<List<Stmt>>, n: Text)
    ensures
        spec_stmts_contain_goto(unblock(l), n) == spec_stmts_contain_goto(l, n),
    decreases l,
{
    match *l {
        List::Nil => {},
        List::Cons(h, t) => {
            lemma_goto_unblock_stmt(h, n);
            lemma_goto_unblock(t, n);
            lemma_goto_append(unblock_stmt(h), unblock(t), n);
        },
    }
}

/// Taking a block apart keeps the jumps.
proof fn lemma_goto_unblock_stmt(s: Rc<Stmt>, n: Text)
    ensures
        spec_stmts_contain_goto(unblock_stmt(s), n) == spec_stmt_contains_goto(s, n),
    decreases s,
{
    reveal(spec_l1);
    reveal_with_fuel(spec_stmts_contain_goto, 3);
    match s.val {
        StmtT::If { then_branch, else_branch, .. } => {
            lemma_goto_unblock(then_branch, n);
            lemma_goto_unblock(else_branch, n);
        },
        StmtT::While { body, .. } => lemma_goto_unblock(body, n),
        StmtT::GotoBlock { body, label, ensures_ } => {
            lemma_goto_unblock(body, n);
            lemma_goto_append(unblock(body), spec_l1(unblock_label(s, label, ensures_)), n);
        },
        StmtT::Match { branches, default_branch, .. } => {
            lemma_goto_unblock_branches(branches, n);
            lemma_goto_unblock(default_branch, n);
        },
        _ => {},
    }
}

/// Taking blocks of a branch apart keeps the jumps.
proof fn lemma_goto_unblock_branch(b: Rc<Branch>, n: Text)
    ensures
        spec_branch_contains_goto(unblock_branch(b), n) == spec_branch_contains_goto(b, n),
    decreases b,
{
    lemma_goto_unblock(branch_body(b), n);
}

/// Taking blocks of branches apart keeps the jumps.
proof fn lemma_goto_unblock_branches(l: Rc<List<Branch>>, n: Text)
    ensures
        spec_branches_contain_goto(unblock_branches(l), n) == spec_branches_contain_goto(l, n),
    decreases l,
{
    match *l {
        List::Nil => {},
        List::Cons(h, t) => {
            lemma_goto_unblock_branch(h, n);
            lemma_goto_unblock_branches(t, n);
        },
    }
}

/// Whether the statement jumps to none of the skipped labels of a list.
spec fn silent(s: Rc<Stmt>, l: Rc<List<Stmt>>, skip: Rc<List<Rope>>) -> bool
    decreases l,
{
    match *l {
        List::Nil => true,
        List::Cons(h, t) => (label_of(h) matches Some(n) ==> spec_text_in(skip, n) ==> !spec_stmt_contains_goto(s, n)) && silent(s, t, skip),
    }
}

/// Whether each statement of `a` jumps to none of the skipped labels of a list.
spec fn silent_each(a: Rc<List<Stmt>>, l: Rc<List<Stmt>>, skip: Rc<List<Rope>>) -> bool
    decreases a,
{
    match *a {
        List::Nil => true,
        List::Cons(h, t) => silent(h, l, skip) && silent_each(t, l, skip),
    }
}

/// Whether no statement of the list jumps to a skipped label that follows it.
spec fn kept(l: Rc<List<Stmt>>, skip: Rc<List<Rope>>) -> bool
    decreases l,
{
    match *l {
        List::Nil => true,
        List::Cons(h, t) => silent(h, t, skip) && kept(t, skip),
    }
}

/// Whether every label of the list is skipped.
spec fn all_skipped(l: Rc<List<Stmt>>, skip: Rc<List<Rope>>) -> bool
    decreases l,
{
    match *l {
        List::Nil => true,
        List::Cons(h, t) => (label_of(h) matches Some(n) ==> spec_text_in(skip, n)) && all_skipped(t, skip),
    }
}

/// How many labels of the list are not skipped.
spec fn open_labels(l: Rc<List<Stmt>>, skip: Rc<List<Rope>>) -> nat
    decreases l,
{
    match *l {
        List::Nil => 0,
        List::Cons(h, t) => (if label_of(h) matches Some(n) && !spec_text_in(skip, n) { 1nat } else { 0nat }) + open_labels(t, skip),
    }
}

/// A statement that is silent towards two lists is silent towards both, one after the other.
proof fn lemma_silent_append(s: Rc<Stmt>, a: Rc<List<Stmt>>, b: Rc<List<Stmt>>, skip: Rc<List<Rope>>)
    ensures
        silent(s, spec_list_append(a, b), skip) == (silent(s, a, skip) && silent(s, b, skip)),
    decreases a,
{
    match *a {
        List::Nil => {},
        List::Cons(_, t) => lemma_silent_append(s, t, b, skip),
    }
}

/// The statements of two lists are silent where those of both are.
proof fn lemma_silent_each_append(a: Rc<List<Stmt>>, b: Rc<List<Stmt>>, l: Rc<List<Stmt>>, skip: Rc<List<Rope>>)
    ensures
        silent_each(spec_list_append(a, b), l, skip) == (silent_each(a, l, skip) && silent_each(b, l, skip)),
    decreases a,
{
    match *a {
        List::Nil => {},
        List::Cons(_, t) => lemma_silent_each_append(t, b, l, skip),
    }
}

/// Two lists one after the other keep what both keep, and what the first says of the second.
proof fn lemma_kept_append(a: Rc<List<Stmt>>, b: Rc<List<Stmt>>, skip: Rc<List<Rope>>)
    ensures
        kept(spec_list_append(a, b), skip) == (kept(a, skip) && kept(b, skip) && silent_each(a, b, skip)),
    decreases a,
{
    match *a {
        List::Nil => {},
        List::Cons(h, t) => {
            lemma_kept_append(t, b, skip);
            lemma_silent_append(h, t, b, skip);
        },
    }
}

/// The open labels of two lists are those of both.
proof fn lemma_open_append(a: Rc<List<Stmt>>, b: Rc<List<Stmt>>, skip: Rc<List<Rope>>)
    ensures
        open_labels(spec_list_append(a, b), skip) == open_labels(a, skip) + open_labels(b, skip),
    decreases a,
{
    match *a {
        List::Nil => {},
        List::Cons(_, t) => lemma_open_append(t, b, skip),
    }
}

/// What holds within each statement of two lists holds in both.
proof fn lemma_each_append(a: Rc<List<Stmt>>, b: Rc<List<Stmt>>)
    ensures
        settled_each(spec_list_append(a, b)) == (settled_each(a) && settled_each(b)),
    decreases a,
{
    match *a {
        List::Nil => {},
        List::Cons(_, t) => lemma_each_append(t, b),
    }
}

/// Behind the last open label every label is skipped.
proof fn lemma_last_label_is_last(l: Rc<List<Stmt>>, skip: Rc<List<Rope>>)
    ensures
        match spec_last_label(l, skip) {
            Some(a) => all_skipped(a.after, skip) && !spec_text_in(skip, ident_text(a.name)),
            None => all_skipped(l, skip),
        },
    decreases l,
{
    reveal(spec_open_label);
    match *l {
        List::Nil => {},
        List::Cons(h, t) => lemma_last_label_is_last(t, skip),
    }
}

/// Where every label is skipped, the list is settled.
proof fn lemma_kept_is_settled(l: Rc<List<Stmt>>, skip: Rc<List<Rope>>)
    requires
        kept(l, skip),
        all_skipped(l, skip),
        settled_each(l),
    ensures
        settled(l),
    decreases l,
{
    match *l {
        List::Nil => {},
        List::Cons(h, t) => {
            lemma_silent_is_never_ahead(h, t, skip);
            lemma_kept_is_settled(t, skip);
        },
    }
}

/// Where every label is skipped, a silent statement jumps to none.
proof fn lemma_silent_is_never_ahead(s: Rc<Stmt>, l: Rc<List<Stmt>>, skip: Rc<List<Rope>>)
    requires
        silent(s, l, skip),
        all_skipped(l, skip),
    ensures
        never_ahead(s, l),
    decreases l,
{
    match *l {
        List::Nil => {},
        List::Cons(_, t) => lemma_silent_is_never_ahead(s, t, skip),
    }
}

/// A list without open labels has none of the given text, where that text is not skipped. So a
/// statement that is silent stays so when that text is skipped too.
proof fn lemma_silent_behind(s: Rc<Stmt>, l: Rc<List<Stmt>>, skip: Rc<List<Rope>>, n: Text)
    requires
        silent(s, l, skip),
        all_skipped(l, skip) && !spec_text_in(skip, n) || !spec_stmt_contains_goto(s, n),
    ensures
        silent(s, l, spec_cons(n, skip)),
    decreases l,
{
    match *l {
        List::Nil => {},
        List::Cons(h, t) => {
            lemma_silent_behind(s, t, skip, n);
            match label_of(h) {
                Some(m) => {
                    lemma_same_goto(s, m, n);
                    lemma_same_text_in(skip, m, n);
                },
                None => {},
            }
        },
    }
}

/// Whether a text is in a list depends on its characters alone.
proof fn lemma_same_text_in(l: Rc<List<Rope>>, m: Text, n: Text)
    ensures
        spec_same_text(m, n) ==> spec_text_in(l, m) == spec_text_in(l, n),
        spec_text_in(spec_cons(n, l), m) == (spec_same_text(n, m) || spec_text_in(l, m)),
    decreases l,
{
    match *l {
        List::Nil => {},
        List::Cons(_, t) => lemma_same_text_in(t, m, n),
    }
}

/// Whether a jump to a label occurs depends on the label's characters alone.
proof fn lemma_same_goto(s: Rc<Stmt>, m: Text, n: Text)
    ensures
        spec_same_text(m, n) ==> spec_stmt_contains_goto(s, m) == spec_stmt_contains_goto(s, n),
    decreases s,
{
    match s.val {
        StmtT::If { then_branch, else_branch, .. } => {
            lemma_same_goto_each(then_branch, m, n);
            lemma_same_goto_each(else_branch, m, n);
        },
        StmtT::While { body, .. } => lemma_same_goto_each(body, m, n),
        StmtT::GotoBlock { body, .. } => lemma_same_goto_each(body, m, n),
        StmtT::Match { branches, default_branch, .. } => {
            lemma_same_goto_branches(branches, m, n);
            lemma_same_goto_each(default_branch, m, n);
        },
        _ => {},
    }
}

/// Whether a jump to a label occurs in a branch depends on the label's characters alone.
proof fn lemma_same_goto_branch(b: Rc<Branch>, m: Text, n: Text)
    ensures
        spec_same_text(m, n) ==> spec_branch_contains_goto(b, m) == spec_branch_contains_goto(b, n),
    decreases b,
{
    lemma_same_goto_each(branch_body(b), m, n);
}

/// Whether a jump to a label occurs in branches depends on the label's characters alone.
proof fn lemma_same_goto_branches(l: Rc<List<Branch>>, m: Text, n: Text)
    ensures
        spec_same_text(m, n) ==> spec_branches_contain_goto(l, m) == spec_branches_contain_goto(l, n),
    decreases l,
{
    match *l {
        List::Nil => {},
        List::Cons(h, t) => {
            lemma_same_goto_branch(h, m, n);
            lemma_same_goto_branches(t, m, n);
        },
    }
}

/// Whether a jump to a label occurs in statements depends on the label's characters alone.
proof fn lemma_same_goto_each(l: Rc<List<Stmt>>, m: Text, n: Text)
    ensures
        spec_same_text(m, n) ==> spec_stmts_contain_goto(l, m) == spec_stmts_contain_goto(l, n),
    decreases l,
{
    match *l {
        List::Nil => {},
        List::Cons(h, t) => {
            lemma_same_goto(h, m, n);
            lemma_same_goto_each(t, m, n);
        },
    }
}

/// Skipping a label that nothing in front of it jumps to: the statements in front of it.
proof fn lemma_kept_in_front(a: Rc<List<Stmt>>, skip: Rc<List<Rope>>, n: Text)
    requires
        kept(a, skip),
        !spec_stmts_contain_goto(a, n),
    ensures
        kept(a, spec_cons(n, skip)),
    decreases a,
{
    match *a {
        List::Nil => {},
        List::Cons(h, t) => {
            lemma_silent_behind(h, t, skip, n);
            lemma_kept_in_front(t, skip, n);
        },
    }
}

/// Skipping a label that nothing in front of it jumps to: the statements in front of it, towards
/// those from it on.
proof fn lemma_silent_in_front(a: Rc<List<Stmt>>, l: Rc<List<Stmt>>, skip: Rc<List<Rope>>, n: Text)
    requires
        silent_each(a, l, skip),
        !spec_stmts_contain_goto(a, n),
    ensures
        silent_each(a, l, spec_cons(n, skip)),
    decreases a,
{
    match *a {
        List::Nil => {},
        List::Cons(h, t) => {
            lemma_silent_behind(h, l, skip, n);
            lemma_silent_in_front(t, l, skip, n);
        },
    }
}

/// Skipping a label: the statements behind the last label.
proof fn lemma_kept_behind(l: Rc<List<Stmt>>, skip: Rc<List<Rope>>, n: Text)
    requires
        kept(l, skip),
        all_skipped(l, skip),
        !spec_text_in(skip, n),
    ensures
        kept(l, spec_cons(n, skip)),
    decreases l,
{
    match *l {
        List::Nil => {},
        List::Cons(h, t) => {
            lemma_silent_behind(h, t, skip, n);
            lemma_kept_behind(t, skip, n);
        },
    }
}

/// Skipping one label more opens none.
proof fn lemma_open_less(l: Rc<List<Stmt>>, skip: Rc<List<Rope>>, n: Text)
    ensures
        open_labels(l, spec_cons(n, skip)) <= open_labels(l, skip),
    decreases l,
{
    match *l {
        List::Nil => {},
        List::Cons(h, t) => {
            lemma_open_less(t, skip, n);
            match label_of(h) {
                Some(m) => lemma_same_text_in(skip, m, n),
                None => {},
            }
        },
    }
}

/// A label is no jump.
proof fn lemma_silent_label(label: Rc<Stmt>, l: Rc<List<Stmt>>, skip: Rc<List<Rope>>)
    requires
        label.val is Label,
    ensures
        silent(label, l, skip),
    decreases l,
{
    match *l {
        List::Nil => {},
        List::Cons(_, t) => lemma_silent_label(label, t, skip),
    }
}

/// Statements that are silent each are silent together.
proof fn lemma_silent_together(a: Rc<List<Stmt>>, l: Rc<List<Stmt>>, skip: Rc<List<Rope>>, s: Rc<Stmt>)
    requires
        silent_each(a, l, skip),
        forall|n: Text| #[trigger] spec_stmt_contains_goto(s, n) == spec_stmts_contain_goto(a, n),
    ensures
        silent(s, l, skip),
    decreases l,
{
    match *l {
        List::Nil => {},
        List::Cons(h, t) => {
            lemma_silent_first(a, h, t, skip);
            lemma_silent_together(a, t, skip, s);
        },
    }
}

/// Statements that are silent each do not jump to the first label.
proof fn lemma_silent_first(a: Rc<List<Stmt>>, h: Rc<Stmt>, t: Rc<List<Stmt>>, skip: Rc<List<Rope>>)
    requires
        silent_each(a, Rc::new(List::Cons(h, t)), skip),
    ensures
        silent_each(a, t, skip),
        label_of(h) matches Some(n) ==> spec_text_in(skip, n) ==> !spec_stmts_contain_goto(a, n),
    decreases a,
{
    match *a {
        List::Nil => {},
        List::Cons(_, r) => lemma_silent_first(r, h, t, skip),
    }
}

/// Skipping the last open label, which nothing in front of it jumps to.
proof fn lemma_skip_label(l: Rc<List<Stmt>>, skip: Rc<List<Rope>>, a: AtLabel)
    requires
        spec_last_label(l, skip) == Some(a),
        kept(l, skip),
        !spec_stmts_contain_goto(a.before, ident_text(a.name)),
    ensures
        kept(l, spec_cons(ident_text(a.name), skip)),
        open_labels(l, spec_cons(ident_text(a.name), skip)) < open_labels(l, skip),
{
    let n = ident_text(a.name);
    let more = spec_cons(n, skip);
    let tail: Rc<List<Stmt>> = Rc::new(List::Cons(a.label, a.after));
    lemma_last_label(l, skip);
    lemma_last_label_is_last(l, skip);
    lemma_kept_append(a.before, tail, skip);
    lemma_kept_in_front(a.before, skip, n);
    lemma_silent_in_front(a.before, tail, skip, n);
    lemma_kept_behind(a.after, skip, n);
    lemma_silent_label(a.label, a.after, more);
    lemma_kept_append(a.before, tail, more);
    lemma_open_append(a.before, tail, skip);
    lemma_open_append(a.before, tail, more);
    lemma_open_less(a.before, skip, n);
    lemma_open_less(a.after, skip, n);
    lemma_same_text_in(skip, n, n);
}

/// Putting the statements from the first jump to a label up to it into a block.
proof fn lemma_block_label(l: Rc<List<Stmt>>, skip: Rc<List<Rope>>, a: AtLabel, body: Rc<List<Stmt>>)
    requires
        spec_last_label(l, skip) == Some(a),
        kept(l, skip),
        settled_each(l),
        settled(body),
        unblock(body) == unblock(spec_from_goto(a.before, ident_text(a.name))),
    ensures
        ({
            let front = spec_before_goto(a.before, ident_text(a.name));
            let block = spec_mk_goto_block(body, a.label, a.name);
            let after = spec_list_append(front, Rc::new(List::Cons(block, a.after)));
            &&& kept(after, skip)
            &&& settled_each(after)
            &&& open_labels(after, skip) < open_labels(l, skip)
            &&& stmt_count(after) == stmt_count(l)
        }),
{
    reveal(spec_mk_goto_block);
    let n = ident_text(a.name);
    let front = spec_before_goto(a.before, n);
    let back = spec_from_goto(a.before, n);
    let block = spec_mk_goto_block(body, a.label, a.name);
    let rest: Rc<List<Stmt>> = Rc::new(List::Cons(block, a.after));
    let tail: Rc<List<Stmt>> = Rc::new(List::Cons(a.label, a.after));
    lemma_last_label(l, skip);
    lemma_last_label_is_last(l, skip);
    lemma_split_at_goto(a.before, n);
    lemma_kept_append(a.before, tail, skip);
    lemma_kept_append(front, back, skip);
    lemma_silent_each_append(front, back, tail, skip);
    lemma_silent_each_tail(front, a.label, a.after, skip);
    lemma_silent_each_tail(back, a.label, a.after, skip);
    assert forall|m: Text| #[trigger] spec_stmt_contains_goto(block, m) == spec_stmts_contain_goto(back, m) by {
        lemma_goto_unblock(body, m);
        lemma_goto_unblock(back, m);
    }
    lemma_silent_together(back, a.after, skip, block);
    lemma_silent_each_head(front, block, a.after, skip);
    lemma_kept_append(front, rest, skip);
    lemma_each_append(a.before, tail);
    lemma_each_append(front, back);
    lemma_each_append(front, rest);
    lemma_open_append(a.before, tail, skip);
    lemma_open_append(front, back, skip);
    lemma_open_append(front, rest, skip);
    lemma_count_append(a.before, tail);
    lemma_count_append(front, back);
    lemma_count_append(front, rest);
    lemma_count_unblock(body);
    lemma_count_unblock(back);
    assert(count_in_stmt(a.label) == 1);
    assert(count_in_stmt(block) == 1 + stmt_count(body));
}

/// Being silent towards a list is being silent towards its tail.
proof fn lemma_silent_each_tail(a: Rc<List<Stmt>>, h: Rc<Stmt>, t: Rc<List<Stmt>>, skip: Rc<List<Rope>>)
    requires
        silent_each(a, Rc::new(List::Cons(h, t)), skip),
    ensures
        silent_each(a, t, skip),
    decreases a,
{
    match *a {
        List::Nil => {},
        List::Cons(_, r) => lemma_silent_each_tail(r, h, t, skip),
    }
}

/// A statement that is no label is nothing to jump to.
proof fn lemma_silent_each_head(a: Rc<List<Stmt>>, h: Rc<Stmt>, t: Rc<List<Stmt>>, skip: Rc<List<Rope>>)
    requires
        label_of(h) is None,
        silent_each(a, t, skip),
    ensures
        silent_each(a, Rc::new(List::Cons(h, t)), skip),
    decreases a,
{
    match *a {
        List::Nil => {},
        List::Cons(_, r) => lemma_silent_each_head(r, h, t, skip),
    }
}

/// Making blocks settles a list.
proof fn lemma_make_blocks_settles(l: Rc<List<Stmt>>, skip: Rc<List<Rope>>, turns: u64, fuel: u64)
    requires
        kept(l, skip),
        settled_each(l),
        open_labels(l, skip) <= turns,
        stmt_count(l) <= fuel,
    ensures
        settled(spec_make_blocks(l, skip, turns, fuel)),
    decreases fuel, 1nat, turns, l,
{
    lemma_last_label_is_last(l, skip);
    match spec_last_label(l, skip) {
        None => {
            lemma_kept_is_settled(l, skip);
        },
        Some(a) => {
            lemma_last_label(l, skip);
            let tail: Rc<List<Stmt>> = Rc::new(List::Cons(a.label, a.after));
            lemma_open_append(a.before, tail, skip);
            assert(turns > 0);
            let n = ident_text(a.name);
            if spec_stmts_contain_goto(a.before, n) {
                let front = spec_before_goto(a.before, n);
                let back = spec_from_goto(a.before, n);
                lemma_count_append(a.before, tail);
                lemma_split_at_goto(a.before, n);
                lemma_count_append(front, back);
                assert(count_in_stmt(a.label) == 1);
                let body = spec_restructure_stmts(back, spec_drop_one(fuel));
                lemma_restructure_settles(back, spec_drop_one(fuel));
                law_restructuring_keeps_statements(back, spec_drop_one(fuel));
                lemma_block_label(l, skip, a, body);
                let block = spec_mk_goto_block(body, a.label, a.name);
                let rest: Rc<List<Stmt>> = Rc::new(List::Cons(block, a.after));
                lemma_make_blocks_settles(spec_list_append(front, rest), skip, spec_drop_one(turns), fuel);
            } else {
                lemma_skip_label(l, skip, a);
                lemma_make_blocks_settles(l, spec_cons(n, skip), spec_drop_one(turns), fuel);
            }
        },
    }
}

/// Restructuring each statement settles the lists within it.
proof fn lemma_restructure_each_settles(l: Rc<List<Stmt>>, fuel: u64)
    requires
        stmt_count(l) <= fuel,
    ensures
        settled_each(spec_restructure_each(l, fuel)),
    decreases fuel, 2nat, 0nat, l,
{
    match *l {
        List::Nil => {},
        List::Cons(h, t) => {
            lemma_restructure_stmt_settles(h, fuel);
            lemma_restructure_each_settles(t, fuel);
        },
    }
}

/// Restructuring a statement settles the lists within it.
proof fn lemma_restructure_stmt_settles(s: Rc<Stmt>, fuel: u64)
    requires
        count_in_stmt(s) <= fuel,
    ensures
        settled_stmt(spec_restructure_stmt(s, fuel)),
    decreases fuel, 1nat, 0nat, s,
{
    match s.val {
        StmtT::If { then_branch, else_branch, .. } => {
            lemma_restructure_settles(then_branch, spec_drop_one(fuel));
            lemma_restructure_settles(else_branch, spec_drop_one(fuel));
        },
        StmtT::While { body, .. } => lemma_restructure_settles(body, spec_drop_one(fuel)),
        StmtT::GotoBlock { body, .. } => lemma_restructure_settles(body, spec_drop_one(fuel)),
        StmtT::Match { branches, default_branch, .. } => {
            lemma_restructure_branches_settles(branches, spec_drop_one(fuel));
            lemma_restructure_settles(default_branch, spec_drop_one(fuel));
        },
        _ => {},
    }
}

/// Restructuring branches settles the lists within them.
proof fn lemma_restructure_branches_settles(l: Rc<List<Branch>>, fuel: u64)
    requires
        count_in_branches(l) <= fuel,
    ensures
        settled_branches(spec_restructure_branches(l, fuel)),
    decreases fuel, 4nat, 0nat, l,
{
    match *l {
        List::Nil => {},
        List::Cons(h, t) => {
            assert(count_in_branch(h) == stmt_count(branch_body(h)));
            lemma_restructure_settles(branch_body(h), fuel);
            lemma_restructure_branches_settles(t, fuel);
            assert(settled_branch(with_body(h, spec_restructure_stmts(branch_body(h), fuel))));
        },
    }
}

/// Nothing is skipped at first.
proof fn lemma_kept_at_first(l: Rc<List<Stmt>>)
    ensures
        kept(l, spec_nil()),
        open_labels(l, spec_nil()) <= l.items().len() <= stmt_count(l),
    decreases l,
{
    match *l {
        List::Nil => {},
        List::Cons(h, t) => {
            lemma_silent_at_first(h, t);
            lemma_kept_at_first(t);
            assert(count_in_stmt(h) >= 1);
        },
    }
}

/// Every statement is silent where nothing is skipped.
proof fn lemma_silent_at_first(s: Rc<Stmt>, l: Rc<List<Stmt>>)
    ensures
        silent(s, l, spec_nil()),
    decreases l,
{
    match *l {
        List::Nil => {},
        List::Cons(_, t) => lemma_silent_at_first(s, t),
    }
}

/// Restructuring settles a list, where the fuel is enough.
proof fn lemma_restructure_settles(l: Rc<List<Stmt>>, fuel: u64)
    requires
        stmt_count(l) <= fuel,
    ensures
        settled(spec_restructure_stmts(l, fuel)),
    decreases fuel, 3nat, 0nat, l,
{
    let inner = spec_restructure_each(l, fuel);
    lemma_restructure_each_settles(l, fuel);
    lemma_restructure_each(l, fuel);
    lemma_count_unblock(l);
    lemma_count_unblock(inner);
    lemma_kept_at_first(inner);
    lemma_list_len(inner);
    lemma_make_blocks_settles(inner, spec_nil(), spec_bump(spec_list_len(inner)), fuel);
}

/// The number of statements is counted exactly, up to the largest number.
proof fn lemma_nested_size(l: Rc<List<Stmt>>)
    requires
        stmt_count(l) <= u64::MAX,
    ensures
        spec_nested_size(l) == stmt_count(l),
    decreases l,
{
    reveal(spec_plus);
    match *l {
        List::Nil => {},
        List::Cons(h, t) => {
            lemma_nested_stmt_size(h);
            lemma_nested_size(t);
        },
    }
}

/// The number of statements in one is counted exactly, up to the largest number.
proof fn lemma_nested_stmt_size(s: Rc<Stmt>)
    requires
        count_in_stmt(s) <= u64::MAX,
    ensures
        spec_nested_stmt_size(s) == count_in_stmt(s),
    decreases s,
{
    reveal(spec_plus);
    match s.val {
        StmtT::If { then_branch, else_branch, .. } => {
            lemma_nested_size(then_branch);
            lemma_nested_size(else_branch);
        },
        StmtT::While { body, .. } => lemma_nested_size(body),
        StmtT::GotoBlock { body, .. } => lemma_nested_size(body),
        StmtT::Match { branches, default_branch, .. } => {
            lemma_nested_branches_size(branches);
            lemma_nested_size(default_branch);
        },
        _ => {},
    }
}

/// The number of statements in a branch is counted exactly, up to the largest number.
proof fn lemma_nested_branch_size(b: Rc<Branch>)
    requires
        count_in_branch(b) <= u64::MAX,
    ensures
        spec_nested_branch_size(b) == count_in_branch(b),
    decreases b,
{
    lemma_nested_size(branch_body(b));
}

/// The number of statements in branches is counted exactly, up to the largest number.
proof fn lemma_nested_branches_size(l: Rc<List<Branch>>)
    requires
        count_in_branches(l) <= u64::MAX,
    ensures
        spec_nested_branches_size(l) == count_in_branches(l),
    decreases l,
{
    reveal(spec_plus);
    match *l {
        List::Nil => {},
        List::Cons(h, t) => {
            lemma_nested_branch_size(h);
            lemma_nested_branches_size(t);
        },
    }
}

/// Restructuring misses no jump: afterwards no statement, however deep, jumps to a label that
/// still follows it in its list. Such a label has become the end of a block.
pub proof fn law_no_jump_is_missed(l: Rc<List<Stmt>>)
    requires
        stmt_count(l) <= u64::MAX,
    ensures
        settled(spec_restructure_stmts(l, spec_nested_size(l))),
{
    lemma_nested_size(l);
    lemma_restructure_settles(l, spec_nested_size(l));
}

/// Nothing in front of a label of a settled list jumps to it.
proof fn lemma_nothing_jumps_ahead(before: Rc<List<Stmt>>, label: Rc<Stmt>, after: Rc<List<Stmt>>, n: Text)
    requires
        settled(spec_list_append(before, Rc::new(List::Cons(label, after)))),
        label_of(label) == Some(n),
    ensures
        !spec_stmts_contain_goto(before, n),
    decreases before,
{
    match *before {
        List::Nil => {},
        List::Cons(h, t) => {
            lemma_nothing_jumps_ahead(t, label, after, n);
            lemma_never_ahead_of(h, t, label, after, n);
        },
    }
}

/// A statement that jumps to none of the labels of a list does not jump to a given one of them.
proof fn lemma_never_ahead_of(s: Rc<Stmt>, before: Rc<List<Stmt>>, label: Rc<Stmt>, after: Rc<List<Stmt>>, n: Text)
    requires
        never_ahead(s, spec_list_append(before, Rc::new(List::Cons(label, after)))),
        label_of(label) == Some(n),
    ensures
        !spec_stmt_contains_goto(s, n),
    decreases before,
{
    match *before {
        List::Nil => {},
        List::Cons(_, t) => lemma_never_ahead_of(s, t, label, after, n),
    }
}

/// No block is made of a settled list.
proof fn lemma_no_blocks(l: Rc<List<Stmt>>, skip: Rc<List<Rope>>, turns: u64, fuel: u64)
    requires
        settled(l),
    ensures
        spec_make_blocks(l, skip, turns, fuel) == l,
    decreases turns,
{
    if turns > 0 {
        match spec_last_label(l, skip) {
            None => {},
            Some(a) => {
                lemma_last_label(l, skip);
                lemma_nothing_jumps_ahead(a.before, a.label, a.after, ident_text(a.name));
                lemma_no_blocks(l, spec_cons(ident_text(a.name), skip), spec_drop_one(turns), fuel);
            },
        }
    }
}

/// What is settled stays as it is.
pub proof fn law_settled_statements_stay(l: Rc<List<Stmt>>, fuel: u64)
    requires
        settled(l),
    ensures
        spec_restructure_stmts(l, fuel) == l,
    decreases fuel, 3nat, 0nat, l,
{
    lemma_each_stays(l, fuel);
    lemma_no_blocks(l, spec_nil(), spec_bump(spec_list_len(l)), fuel);
}

/// The statements of a settled list stay as they are.
proof fn lemma_each_stays(l: Rc<List<Stmt>>, fuel: u64)
    requires
        settled(l),
    ensures
        spec_restructure_each(l, fuel) == l,
    decreases fuel, 2nat, 0nat, l,
{
    match *l {
        List::Nil => {},
        List::Cons(h, t) => {
            lemma_stmt_stays(h, fuel);
            lemma_each_stays(t, fuel);
        },
    }
}

/// A settled statement stays as it is.
proof fn lemma_stmt_stays(s: Rc<Stmt>, fuel: u64)
    requires
        settled_stmt(s),
    ensures
        spec_restructure_stmt(s, fuel) == s,
    decreases fuel, 1nat, 0nat, s,
{
    if fuel > 0 {
        match s.val {
            StmtT::If { then_branch, else_branch, .. } => {
                law_settled_statements_stay(then_branch, spec_drop_one(fuel));
                law_settled_statements_stay(else_branch, spec_drop_one(fuel));
            },
            StmtT::While { body, .. } => law_settled_statements_stay(body, spec_drop_one(fuel)),
            StmtT::GotoBlock { body, .. } => law_settled_statements_stay(body, spec_drop_one(fuel)),
            StmtT::Match { branches, default_branch, .. } => {
                lemma_branches_stay(branches, spec_drop_one(fuel));
                law_settled_statements_stay(default_branch, spec_drop_one(fuel));
            },
            _ => {},
        }
    }
}

/// Settled branches stay as they are.
proof fn lemma_branches_stay(l: Rc<List<Branch>>, fuel: u64)
    requires
        settled_branches(l),
    ensures
        spec_restructure_branches(l, fuel) == l,
    decreases fuel, 4nat, 0nat, l,
{
    match *l {
        List::Nil => {},
        List::Cons(h, t) => {
            assert(settled_branch(h));
            law_settled_statements_stay(branch_body(h), fuel);
            lemma_branches_stay(t, fuel);
        },
    }
}

/// How many jumps in the statement do not leave the innermost block.
pub open spec fn bad_jumps_stmt(s: Rc<Stmt>, innermost: Option<Text>) -> nat
    decreases s,
{
    match s.val {
        StmtT::Goto(label) => if innermost matches Some(t) && t.chars() == label.val.chars() { 0 } else { 1 },
        StmtT::If { then_branch, else_branch, .. } => bad_jumps(then_branch, innermost) + bad_jumps(else_branch, innermost),
        StmtT::While { body, .. } => bad_jumps(body, innermost),
        StmtT::GotoBlock { body, label, .. } => bad_jumps(body, Some(label.val)),
        StmtT::Match { branches, default_branch, .. } => bad_jumps_branches(branches, innermost) + bad_jumps(default_branch, innermost),
        _ => 0,
    }
}

/// How many jumps in the branch do not leave the innermost block.
pub open spec fn bad_jumps_branch(b: Rc<Branch>, innermost: Option<Text>) -> nat
    decreases b,
{
    bad_jumps(b.body, innermost)
}

/// How many jumps in the branches do not leave the innermost block.
pub open spec fn bad_jumps_branches(l: Rc<List<Branch>>, innermost: Option<Text>) -> nat
    decreases l,
{
    match *l {
        List::Nil => 0,
        List::Cons(h, t) => bad_jumps_branch(h, innermost) + bad_jumps_branches(t, innermost),
    }
}

/// How many jumps in the statements do not leave the innermost block.
pub open spec fn bad_jumps(l: Rc<List<Stmt>>, innermost: Option<Text>) -> nat
    decreases l,
{
    match *l {
        List::Nil => 0,
        List::Cons(h, t) => bad_jumps_stmt(h, innermost) + bad_jumps(t, innermost),
    }
}

/// Each bad jump in a statement is reported once.
proof fn lemma_check_gotos_stmt(d: Rc<List<Diagnostic>>, s: Rc<Stmt>, innermost: Option<Text>)
    ensures
        spec_check_gotos_stmt(d, s, innermost).items().len() == d.items().len() + bad_jumps_stmt(s, innermost),
        bad_jumps_stmt(s, innermost) == 0 ==> spec_check_gotos_stmt(d, s, innermost) == d,
    decreases s,
{
    reveal(spec_is_innermost);
    match s.val {
        StmtT::If { then_branch, else_branch, .. } => {
            law_bad_jumps_are_reported(d, then_branch, innermost);
            law_bad_jumps_are_reported(spec_check_gotos_stmts(d, then_branch, innermost), else_branch, innermost);
        },
        StmtT::While { body, .. } => law_bad_jumps_are_reported(d, body, innermost),
        StmtT::GotoBlock { body, label, .. } => law_bad_jumps_are_reported(d, body, Some(ident_text(label))),
        StmtT::Match { branches, default_branch, .. } => {
            lemma_check_gotos_branches(d, branches, innermost);
            law_bad_jumps_are_reported(spec_check_gotos_branches(d, branches, innermost), default_branch, innermost);
        },
        _ => {},
    }
}

/// Each bad jump in a branch is reported once.
proof fn lemma_check_gotos_branch(d: Rc<List<Diagnostic>>, b: Rc<Branch>, innermost: Option<Text>)
    ensures
        spec_check_gotos_branch(d, b, innermost).items().len() == d.items().len() + bad_jumps_branch(b, innermost),
        bad_jumps_branch(b, innermost) == 0 ==> spec_check_gotos_branch(d, b, innermost) == d,
    decreases b,
{
    law_bad_jumps_are_reported(d, branch_body(b), innermost);
}

/// Each bad jump in branches is reported once.
proof fn lemma_check_gotos_branches(d: Rc<List<Diagnostic>>, l: Rc<List<Branch>>, innermost: Option<Text>)
    ensures
        spec_check_gotos_branches(d, l, innermost).items().len() == d.items().len() + bad_jumps_branches(l, innermost),
        bad_jumps_branches(l, innermost) == 0 ==> spec_check_gotos_branches(d, l, innermost) == d,
    decreases l,
{
    match *l {
        List::Nil => {},
        List::Cons(h, t) => {
            lemma_check_gotos_branch(d, h, innermost);
            lemma_check_gotos_branches(spec_check_gotos_branch(d, h, innermost), t, innermost);
        },
    }
}

/// Each jump that does not leave the innermost block is reported once, and nothing else is: there
/// is no message exactly when every jump leaves its innermost block.
pub proof fn law_bad_jumps_are_reported(d: Rc<List<Diagnostic>>, l: Rc<List<Stmt>>, innermost: Option<Text>)
    ensures
        spec_check_gotos_stmts(d, l, innermost).items().len() == d.items().len() + bad_jumps(l, innermost),
        bad_jumps(l, innermost) == 0 ==> spec_check_gotos_stmts(d, l, innermost) == d,
    decreases l,
{
    match *l {
        List::Nil => {},
        List::Cons(h, t) => {
            lemma_check_gotos_stmt(d, h, innermost);
            law_bad_jumps_are_reported(spec_check_gotos_stmt(d, h, innermost), t, innermost);
        },
    }
}

} // verus!
