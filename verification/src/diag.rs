//! Messages for the user.

use crate::list::{List, cons, spec_cons};
use crate::text::Text;
use crate::ir::Loc;
use std::rc::Rc;
use vstd::prelude::*;

verus! {

#[derive(Clone, Copy, Debug, PartialEq, Eq, Structural)]
pub enum DiagnosticLevel {
    Error,
    Warning,
}

/// One message, and the place that it is about.
pub struct Diagnostic {
    pub loc: Loc,
    pub level: DiagnosticLevel,
    pub msg: Text,
    /// The pass that a check was made after.
    pub pass: Option<Text>,
    /// What the check knew.
    pub detail: Option<Text>,
}

/// The messages so far, latest first.
pub struct Diagnostics {
    pub list: Rc<List<Diagnostic>>,
}

/// An error at a place.
#[verifier::opaque]
pub open spec fn spec_mk_error(loc: Loc, msg: Text) -> Rc<Diagnostic>
{
    Rc::new(Diagnostic { loc, level: DiagnosticLevel::Error, msg, pass: None, detail: None })
}

/// An error at a place.
pub fn mk_error(loc: &Loc, msg: Text) -> (out: Rc<Diagnostic>)
    ensures
        out == spec_mk_error(*loc, msg),
{
    proof {
        reveal(spec_mk_error);
    }
    Rc::new(Diagnostic { loc: loc.clone(), level: DiagnosticLevel::Error, msg, pass: None, detail: None })
}

/// Whether `b` is `a` with messages added.
pub open spec fn extends(b: Rc<List<Diagnostic>>, a: Rc<List<Diagnostic>>) -> bool
    decreases b,
{
    b == a || match *b {
        List::Nil => false,
        List::Cons(_, t) => extends(t, a),
    }
}

/// Messages added to messages added are messages added.
pub broadcast proof fn lemma_extends_trans(c: Rc<List<Diagnostic>>, b: Rc<List<Diagnostic>>, a: Rc<List<Diagnostic>>)
    requires
        #[trigger] extends(b, a),
        #[trigger] extends(c, b),
    ensures
        extends(c, a),
    decreases c,
{
    if c != b {
        match *c {
            List::Nil => {},
            List::Cons(_, t) => {
                lemma_extends_trans(t, b, a);
            },
        }
    }
}

/// Messages added make more messages, unless none was added.
proof fn lemma_extends_len(b: Rc<List<Diagnostic>>, a: Rc<List<Diagnostic>>)
    requires
        extends(b, a),
    ensures
        b == a || b.items().len() > a.items().len(),
    decreases b,
{
    if b != a {
        match *b {
            List::Nil => {},
            List::Cons(_, t) => {
                lemma_extends_len(t, a);
            },
        }
    }
}

/// Messages that are others with messages added, and the other way round, are the same.
pub broadcast proof fn lemma_extends_antisym(b: Rc<List<Diagnostic>>, a: Rc<List<Diagnostic>>)
    requires
        #[trigger] extends(b, a),
        #[trigger] extends(a, b),
    ensures
        b == a,
{
    lemma_extends_len(b, a);
    lemma_extends_len(a, b);
}

/// Messages with one added are not those without it.
pub proof fn lemma_cons_is_new(l: Rc<List<Diagnostic>>)
    ensures
        forall|m: Rc<Diagnostic>| #[trigger] spec_cons(m, l) != l,
{
    assert forall|m: Rc<Diagnostic>| #[trigger] spec_cons(m, l) != l by {
        assert(spec_cons(m, l).items().len() == l.items().len() + 1);
    }
}

/// Whether `a` is `b` with messages left out.
pub open spec fn subsequence(a: Rc<List<Diagnostic>>, b: Rc<List<Diagnostic>>) -> bool
    decreases b,
{
    match *b {
        List::Nil => *a is Nil,
        List::Cons(h, t) => subsequence(a, t) || match *a {
            List::Nil => true,
            List::Cons(g, r) => g == h && subsequence(r, t),
        },
    }
}

/// Messages are themselves with none left out.
pub proof fn lemma_subsequence_of_itself(a: Rc<List<Diagnostic>>)
    ensures
        subsequence(a, a),
    decreases a,
{
    match *a {
        List::Nil => {},
        List::Cons(_, t) => lemma_subsequence_of_itself(t),
    }
}

/// Messages that are others with some left out are so with messages added to the others.
pub broadcast proof fn lemma_subsequence_extends(a: Rc<List<Diagnostic>>, b: Rc<List<Diagnostic>>, c: Rc<List<Diagnostic>>)
    requires
        #[trigger] subsequence(a, b),
        #[trigger] extends(c, b),
    ensures
        subsequence(a, c),
    decreases c,
{
    if c != b {
        match *c {
            List::Nil => {},
            List::Cons(_, t) => lemma_subsequence_extends(a, b, t),
        }
    }
}

impl Diagnostics {
    /// No message yet.
    pub fn new() -> (r: Diagnostics)
        ensures
            r.messages() == Seq::<Rc<Diagnostic>>::empty(),
    {
        Diagnostics { list: Rc::new(List::Nil) }
    }

    /// The messages, in the order in which they came.
    pub open spec fn messages(&self) -> Seq<Rc<Diagnostic>> {
        self.list.items().reverse()
    }

    /// Adds a message.
    pub fn report(&mut self, d: Rc<Diagnostic>)
        ensures
            final(self).list == spec_cons(d, old(self).list),
            final(self).messages() == old(self).messages().push(d),
    {
        let ghost before = self.list.items();
        self.list = cons(d, self.list.clone());
        proof {
            assert(self.list.items() =~= seq![d] + before);
            assert((seq![d] + before).reverse() =~= before.reverse().push(d));
        }
    }

    /// The messages as a vector, in the order in which they came.
    pub fn to_vec(&self) -> (r: Vec<Rc<Diagnostic>>)
        ensures
            r@ == self.messages(),
    {
        let v = List::to_vec(&self.list);
        let mut r: Vec<Rc<Diagnostic>> = Vec::new();
        let mut i: usize = v.len();
        while i > 0
            invariant
                i <= v.len(),
                v@ == self.list.items(),
                r@ == v@.skip(i as int).reverse(),
            decreases i,
        {
            i -= 1;
            r.push(v[i].clone());
            proof {
                assert(v@.skip(i as int) =~= seq![v@[i as int]] + v@.skip(i as int + 1));
                assert(r@ =~= v@.skip(i as int).reverse());
            }
        }
        proof {
            assert(v@.skip(0) =~= v@);
        }
        r
    }
}

} // verus!
