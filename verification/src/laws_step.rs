//! Checks that add the same messages.

use crate::list::{List, spec_l1, spec_list_append, spec_nil};
use crate::text::Text;
use crate::ir::Loc;
use crate::diag::{Diagnostic, DiagnosticLevel, extends, subsequence};
use crate::check::Checker;
use crate::laws_goto::lemma_append_assoc;
use std::rc::Rc;
use vstd::prelude::*;

verus! {

/// Whether two checks are made after the same pass, of the same.
pub open spec fn alike(s: Checker, t: Checker) -> bool {
    s.pass == t.pass && s.check_types == t.check_types
}

/// Whether a check has added the given messages.
pub open spec fn has_added(m: Rc<List<Diagnostic>>, after: Checker, before: Checker) -> bool {
    alike(after, before) && after.diags == spec_list_append(m, before.diags)
}

/// Whether two checks have added the same messages, from `s` to `s1` and from `t` to `t1`.
#[verifier::opaque]
pub open spec fn in_step(s1: Checker, s: Checker, t1: Checker, t: Checker) -> bool {
    alike(s, t) && exists|m: Rc<List<Diagnostic>>| #[trigger] has_added(m, s1, s) && has_added(m, t1, t)
}

/// Checks that add the same are alike afterwards.
pub broadcast proof fn lemma_in_step_alike(s1: Checker, s: Checker, t1: Checker, t: Checker)
    requires
        #[trigger] in_step(s1, s, t1, t),
    ensures
        alike(s1, t1),
{
    reveal(in_step);
}

/// Checks that add nothing add the same.
pub broadcast proof fn lemma_in_step_at_first(s: Checker, t: Checker)
    requires
        #[trigger] alike(s, t),
    ensures
        in_step(s, s, t, t),
{
    reveal(in_step);
    let none: Rc<List<Diagnostic>> = spec_nil();
    assert(has_added(none, s, s) && has_added(none, t, t));
}

/// Checks that add the same, and then the same again, add the same.
pub broadcast proof fn lemma_in_step_trans(s2: Checker, s1: Checker, s: Checker, t2: Checker, t1: Checker, t: Checker)
    requires
        #[trigger] in_step(s1, s, t1, t),
        #[trigger] in_step(s2, s1, t2, t1),
    ensures
        in_step(s2, s, t2, t),
{
    reveal(in_step);
    let m = choose|m: Rc<List<Diagnostic>>| #[trigger] has_added(m, s1, s) && has_added(m, t1, t);
    let n = choose|n: Rc<List<Diagnostic>>| #[trigger] has_added(n, s2, s1) && has_added(n, t2, t1);
    lemma_append_assoc(n, m, s_diags(s));
    lemma_append_assoc(n, m, s_diags(t));
    assert(has_added(spec_list_append(n, m), s2, s) && has_added(spec_list_append(n, m), t2, t));
}

/// The messages of a check.
pub open spec fn s_diags(s: Checker) -> Rc<List<Diagnostic>> {
    s.diags
}

/// The same report is the same message.
pub proof fn lemma_same_report(s: Checker, t: Checker, msg: Text, detail: Option<Text>, loc: Loc)
    requires
        alike(s, t),
    ensures
        in_step(crate::check::spec_report_with_detail(s, msg, detail, loc), s, crate::check::spec_report_with_detail(t, msg, detail, loc), t),
{
    reveal(in_step);
    reveal(crate::check::spec_report_with_detail);
    reveal_with_fuel(spec_list_append, 3);
    let m = spec_l1(detailed_message(s.pass, msg, detail, loc));
    assert(has_added(m, crate::check::spec_report_with_detail(s, msg, detail, loc), s));
    assert(has_added(m, crate::check::spec_report_with_detail(t, msg, detail, loc), t));
}

/// An error, with what the check knew.
pub open spec fn detailed_message(pass: Text, msg: Text, detail: Option<Text>, loc: Loc) -> Rc<Diagnostic> {
    Rc::new(Diagnostic { loc, level: DiagnosticLevel::Error, msg, pass: Some(pass), detail })
}

/// Whether one check checks names only, and the other, after the same pass, types too.
pub open spec fn names_beside_types(s: Checker, t: Checker) -> bool {
    s.pass == t.pass && !s.check_types && t.check_types
}

/// Whether, from `s` to `s1` and from `t` to `t1`, the second check has only added messages, and
/// among them all that the first has.
#[verifier::opaque]
pub open spec fn keeps_up(s1: Checker, s: Checker, t1: Checker, t: Checker) -> bool {
    &&& names_beside_types(s, t)
    &&& alike(s1, s)
    &&& alike(t1, t)
    &&& extends(t1.diags, t.diags)
    &&& subsequence(s.diags, t.diags) ==> subsequence(s1.diags, t1.diags)
}

/// A check of names stays one, and so does a check of types.
pub broadcast proof fn lemma_keeps_up_modes(s1: Checker, s: Checker, t1: Checker, t: Checker)
    requires
        #[trigger] keeps_up(s1, s, t1, t),
    ensures
        names_beside_types(s1, t1),
{
    reveal(keeps_up);
}

/// Checks that add nothing keep up.
pub broadcast proof fn lemma_keeps_up_at_first(s: Checker, t: Checker)
    requires
        #[trigger] names_beside_types(s, t),
    ensures
        keeps_up(s, s, t, t),
{
    reveal(keeps_up);
}

/// Checks that keep up, and then keep up again, keep up.
pub broadcast proof fn lemma_keeps_up_trans(s2: Checker, s1: Checker, s: Checker, t2: Checker, t1: Checker, t: Checker)
    requires
        #[trigger] keeps_up(s1, s, t1, t),
        #[trigger] keeps_up(s2, s1, t2, t1),
    ensures
        keeps_up(s2, s, t2, t),
{
    reveal(keeps_up);
    crate::diag::lemma_extends_trans(s_diags(t2), s_diags(t1), s_diags(t));
}

/// A check of types keeps up with a check of names that has stopped.
pub proof fn lemma_keeps_up_alone(s1: Checker, s: Checker, t1: Checker, t: Checker)
    requires
        keeps_up(s1, s, t1, t),
    ensures
        keeps_up(s, s, t1, t),
{
    reveal(keeps_up);
    if subsequence(s_diags(s), s_diags(t)) {
        crate::diag::lemma_subsequence_extends(s_diags(s), s_diags(t), s_diags(t1));
    }
}

/// Reports keep up.
pub proof fn lemma_keeps_up_report(s: Checker, t: Checker, msg: Text, detail: Option<Text>, loc: Loc)
    requires
        names_beside_types(s, t),
    ensures
        keeps_up(crate::check::spec_report_with_detail(s, msg, detail, loc), s, crate::check::spec_report_with_detail(t, msg, detail, loc), t),
{
    reveal(keeps_up);
    reveal(crate::check::spec_report_with_detail);
    reveal_with_fuel(extends, 2);
    reveal_with_fuel(subsequence, 2);
}

} // verus!
