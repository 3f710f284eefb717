//! What is proved of the emitted modules and of their output.

use crate::list::{List, spec_cons, spec_nil};
use crate::text::{Rope, Text, spec_cat, spec_lit};
use crate::ir::{Decl, FnDecl, FnDefn, GlobalVar, LetDecl, OpaqueTypeDecl};
use crate::diag::Diagnostic;
use crate::env::{Env, spec_empty_env, spec_push_decls};
use crate::names::spec_text_in;
use crate::emit_base::{
    Emitter, ModuleEntry, spec_add_decl_modules, spec_add_fn_modules, spec_add_module,
    spec_decl_text, spec_find_module, spec_funcptr_module_name, spec_module_text,
};
use crate::render::{Cursor, EventView, after_events, after_text};
use crate::emit::{
    PendingModule, emitted, spec_add_pending, spec_build_fn_module_map, spec_collect_addr_taken,
    spec_emit_module, spec_emit_modules, spec_emit_wrapper_module, spec_fn_of_decl,
    spec_new_emitter,
};
use std::rc::Rc;
use vstd::prelude::*;

verus! {

/// The names of modules, in order.
pub open spec fn mod_names(l: Rc<List<PendingModule>>) -> Seq<Seq<char>>
    decreases l,
{
    match *l {
        List::Nil => Seq::empty(),
        List::Cons(h, t) => seq![h.mod_name.chars()] + mod_names(t),
    }
}

/// The names of modules are those of the items.
pub proof fn lemma_mod_names(l: Rc<List<PendingModule>>)
    ensures
        mod_names(l).len() == l.items().len(),
        forall|i: int| 0 <= i < l.items().len() ==> #[trigger] mod_names(l)[i] == l.items()[i].mod_name.chars(),
    decreases l,
{
    match *l {
        List::Nil => {},
        List::Cons(h, t) => {
            lemma_mod_names(t);
            assert(l.items() == seq![h] + t.items());
            assert forall|i: int| 0 <= i < l.items().len() implies #[trigger] mod_names(l)[i] == l.items()[i].mod_name.chars() by {
                if i > 0 {
                    assert(mod_names(l)[i] == mod_names(t)[i - 1]);
                }
            }
        },
    }
}

/// A module with a new name comes last, and one with a known name takes that one's place.
pub proof fn law_a_module_takes_the_place_of_its_name(l: Rc<List<PendingModule>>, p: Rc<PendingModule>)
    ensures
        mod_names(spec_add_pending(l, p)) == (if mod_names(l).contains(p.mod_name.chars()) {
            mod_names(l)
        } else {
            mod_names(l).push(p.mod_name.chars())
        }),
    decreases l,
{
    let c = p.mod_name.chars();
    match *l {
        List::Nil => {
            assert(mod_names(spec_add_pending(l, p)) =~= mod_names(l).push(c));
        },
        List::Cons(h, t) => {
            assert(mod_names(l)[0] == h.mod_name.chars());
            if h.mod_name.chars() != c {
                law_a_module_takes_the_place_of_its_name(t, p);
                if mod_names(t).contains(c) {
                    let i = choose|i: int| 0 <= i < mod_names(t).len() && mod_names(t)[i] == c;
                    assert(mod_names(l)[i + 1] == c);
                } else {
                    assert(!mod_names(l).contains(c)) by {
                        if mod_names(l).contains(c) {
                            let i = choose|i: int| 0 <= i < mod_names(l).len() && mod_names(l)[i] == c;
                            assert(mod_names(t)[i - 1] == c);
                        }
                    }
                    assert(mod_names(spec_add_pending(l, p)) =~= mod_names(l).push(c));
                }
            }
        },
    }
}

/// Adding a module keeps names apart, and loses none.
proof fn lemma_add_pending(l: Rc<List<PendingModule>>, p: Rc<PendingModule>)
    requires
        mod_names(l).no_duplicates(),
    ensures
        mod_names(spec_add_pending(l, p)).no_duplicates(),
        mod_names(spec_add_pending(l, p)).contains(p.mod_name.chars()),
        forall|c: Seq<char>| mod_names(l).contains(c) ==> #[trigger] mod_names(spec_add_pending(l, p)).contains(c),
{
    law_a_module_takes_the_place_of_its_name(l, p);
    let after = mod_names(spec_add_pending(l, p));
    if !mod_names(l).contains(p.mod_name.chars()) {
        assert(after[mod_names(l).len() as int] == p.mod_name.chars());
        assert forall|c: Seq<char>| mod_names(l).contains(c) implies #[trigger] after.contains(c) by {
            let i = choose|i: int| 0 <= i < mod_names(l).len() && mod_names(l)[i] == c;
            assert(after[i] == c);
        }
    }
}

/// Whether the declaration needs a wrapper: its function is not pure, and its address is taken.
pub open spec fn needs_wrapper(addr_taken: Rc<List<Rope>>, d: Rc<Decl>) -> bool {
    spec_fn_of_decl(d) matches Some(f) && !f.is_pure && spec_text_in(addr_taken, f.name.val)
}

/// The name of the wrapper's module.
pub open spec fn wrapper_module(d: Rc<Decl>) -> Seq<char> {
    match spec_fn_of_decl(d) {
        Some(f) => spec_funcptr_module_name(f.name.val).chars(),
        None => Seq::empty(),
    }
}

/// Emission gives every declaration its module, and every function whose address is taken its
/// wrapper's module; no two modules have the same name.
pub proof fn law_every_declaration_has_its_module(
    st: Emitter,
    env: Env,
    addr_taken: Rc<List<Rope>>,
    l: Rc<List<Decl>>,
    done: Rc<List<PendingModule>>,
)
    requires
        mod_names(done).no_duplicates(),
    ensures
        ({
            let names = mod_names(spec_emit_modules(st, env, addr_taken, l, done).1);
            &&& names.no_duplicates()
            &&& forall|c: Seq<char>| mod_names(done).contains(c) ==> #[trigger] names.contains(c)
            &&& forall|i: int| #![trigger l.items()[i]] 0 <= i < l.items().len() ==> names.contains(spec_module_text(l.items()[i]).chars())
            &&& forall|i: int| #![trigger l.items()[i]]
                0 <= i < l.items().len() && needs_wrapper(addr_taken, l.items()[i]) ==> names.contains(wrapper_module(l.items()[i]))
        }),
    decreases l,
{
    match *l {
        List::Nil => {},
        List::Cons(d, t) => {
            reveal(spec_emit_module);
            reveal(spec_emit_wrapper_module);
            let (st1, m) = spec_emit_module(st, env, d);
            let done1 = spec_add_pending(done, m);
            lemma_add_pending(done, m);
            let (st2, done2) = after_decl(st1, env, addr_taken, d, done1);
            match spec_fn_of_decl(d) {
                Some(f) => {
                    if needs_wrapper(addr_taken, d) {
                        lemma_add_pending(done1, spec_emit_wrapper_module(st1, env, d, f).1);
                    }
                },
                None => {},
            }
            law_every_declaration_has_its_module(st2, env, addr_taken, t, done2);
            assert(spec_emit_modules(st, env, addr_taken, l, done) == spec_emit_modules(st2, env, addr_taken, t, done2));
            let names = mod_names(spec_emit_modules(st, env, addr_taken, l, done).1);
            assert(mod_names(done2).contains(spec_module_text(d).chars()));
            assert(l.items()[0] == d);
            assert forall|i: int| #![trigger l.items()[i]] 0 <= i < l.items().len() implies names.contains(spec_module_text(l.items()[i]).chars()) by {
                if i > 0 {
                    assert(l.items()[i] == t.items()[i - 1]);
                }
            }
            assert forall|i: int| #![trigger l.items()[i]]
                0 <= i < l.items().len() && needs_wrapper(addr_taken, l.items()[i]) implies names.contains(wrapper_module(l.items()[i])) by {
                if i > 0 {
                    assert(l.items()[i] == t.items()[i - 1]);
                }
            }
        },
    }
}

/// A translation unit becomes modules with different names: one for every declaration, and one for
/// the wrapper of every function whose address is taken.
pub proof fn law_emitted_modules_have_different_names(diags: Rc<List<Diagnostic>>, decls: Rc<List<Decl>>)
    ensures
        ({
            let names = mod_names(emitted(diags, decls).1);
            &&& names.no_duplicates()
            &&& forall|i: int| #![trigger decls.items()[i]]
                0 <= i < decls.items().len() ==> names.contains(spec_module_text(decls.items()[i]).chars())
            &&& forall|i: int| #![trigger decls.items()[i]]
                0 <= i < decls.items().len() && needs_wrapper(spec_collect_addr_taken(decls, spec_nil()), decls.items()[i])
                    ==> names.contains(wrapper_module(decls.items()[i]))
        }),
{
    let none: Rc<List<PendingModule>> = spec_nil();
    assert(mod_names(none).len() == 0);
    let st = spec_new_emitter(diags, decls);
    let env = spec_push_decls(spec_empty_env(), decls);
    law_every_declaration_has_its_module(st, env, spec_collect_addr_taken(decls, spec_nil()), decls, none);
}

/// The state and the modules after a declaration's wrapper, if it needs one.
pub open spec fn after_decl(
    st: Emitter,
    env: Env,
    addr_taken: Rc<List<Rope>>,
    d: Rc<Decl>,
    done: Rc<List<PendingModule>>,
) -> (Emitter, Rc<List<PendingModule>>) {
    match spec_fn_of_decl(d) {
        Some(f) => if !f.is_pure && spec_text_in(addr_taken, f.name.val) {
            let (st2, w) = spec_emit_wrapper_module(st, env, d, f);
            (st2, spec_add_pending(done, w))
        } else {
            (st, done)
        },
        None => (st, done),
    }
}

/// The texts of events, one after the other.
pub open spec fn all_text(l: Seq<EventView>) -> Seq<char>
    decreases l.len(),
{
    if l.len() == 0 {
        Seq::empty()
    } else {
        match l.last() {
            EventView::Text(s) => all_text(l.drop_last()) + s,
            _ => all_text(l.drop_last()),
        }
    }
}

/// The output is exactly what the layout writes: keeping track of places changes nothing of it.
pub proof fn law_output_is_what_was_written(l: Seq<EventView>)
    ensures
        after_events(l).text == all_text(l),
    decreases l.len(),
{
    if l.len() > 0 {
        law_output_is_what_was_written(l.drop_last());
    }
}

/// The place at the end of the output is the place after its text.
pub proof fn law_output_ends_after_its_text(l: Seq<EventView>)
    ensures
        after_events(l).at == after_text(Cursor { line: 0, character: 0 }, after_events(l).text),
    decreases l.len(),
{
    if l.len() > 0 {
        let before = after_events(l.drop_last());
        law_output_ends_after_its_text(l.drop_last());
        match l.last() {
            EventView::Text(s) => lemma_after_text(Cursor { line: 0, character: 0 }, before.text, s),
            _ => {},
        }
    }
}

/// The place after two texts is the place after the second, from the place after the first.
proof fn lemma_after_text(p: Cursor, a: Seq<char>, b: Seq<char>)
    ensures
        after_text(p, a + b) == after_text(after_text(p, a), b),
    decreases b.len(),
{
    if b.len() == 0 {
        assert(a + b =~= a);
    } else {
        lemma_after_text(p, a, b.drop_last());
        assert((a + b).drop_last() =~= a + b.drop_last());
        assert((a + b).last() == b.last());
    }
}

/// Whether a declaration is of something that is called by a function's name: a function, a
/// specification function, a global or an opaque type.
pub open spec fn is_mapped(d: Rc<Decl>) -> bool {
    d.val is FnDefn || d.val is FnDecl || d.val is LetDecl || d.val is OpaqueTypeDecl || d.val is GlobalVar
}

/// Whether a declaration is of a function.
pub open spec fn is_fn(d: Rc<Decl>) -> bool {
    d.val is FnDefn || d.val is FnDecl
}

/// The name of a function's wrapper.
pub open spec fn wrapper_name(d: Rc<Decl>) -> Seq<char> {
    spec_decl_text(d).chars() + "__fp"@
}

/// The module that a declaration gives for a name: its own for its name, and the wrapper's for the
/// name of the wrapper.
pub open spec fn given_module(d: Rc<Decl>, c: Seq<char>) -> Option<Seq<char>> {
    if is_mapped(d) && c == spec_decl_text(d).chars() {
        Some(spec_module_text(d).chars())
    } else if is_fn(d) && c == wrapper_name(d) {
        Some("Funcptr_"@ + spec_decl_text(d).chars())
    } else {
        None
    }
}

/// The module that the last of the declarations to do so gives for a name.
pub open spec fn last_given(l: Rc<List<Decl>>, c: Seq<char>) -> Option<Seq<char>>
    decreases l,
{
    match *l {
        List::Nil => None,
        List::Cons(d, t) => match last_given(t, c) {
            Some(m) => Some(m),
            None => given_module(d, c),
        },
    }
}

/// The module that a map holds for a name.
pub open spec fn held_module(map: Rc<List<ModuleEntry>>, n: Text) -> Option<Seq<char>> {
    match spec_find_module(map, n) {
        Some(m) => Some(m.chars()),
        None => None,
    }
}

/// A declaration adds to the map what it gives.
proof fn lemma_add_decl_modules(map: Rc<List<ModuleEntry>>, d: Rc<Decl>, n: Text)
    ensures
        held_module(spec_add_decl_modules(map, d), n) == (match given_module(d, n.chars()) {
            Some(m) => Some(m),
            None => held_module(map, n),
        }),
{
    reveal(spec_add_decl_modules);
    reveal(spec_add_fn_modules);
    reveal(spec_add_module);
    reveal(spec_decl_text);
    reveal(spec_module_text);
    reveal(spec_funcptr_module_name);
    reveal(spec_cat);
    reveal(spec_lit);
    reveal_with_fuel(Rope::chars, 3);
    reveal_with_fuel(spec_find_module, 4);
    reveal_strlit("__fp");
    assert(wrapper_name(d) != spec_decl_text(d).chars()) by {
        assert(wrapper_name(d).len() == spec_decl_text(d).chars().len() + 4);
    }
    if is_fn(d) {
        let g = spec_decl_text(d);
        let fp = spec_cat(g, spec_lit("__fp"));
        assert(fp.chars() == wrapper_name(d));
        assert(spec_funcptr_module_name(g).chars() == "Funcptr_"@ + g.chars());
        let inner: Rc<List<ModuleEntry>> = spec_cons(Rc::new(ModuleEntry { name: fp, module: spec_funcptr_module_name(g) }), map);
        assert(spec_find_module(inner, n) == (if wrapper_name(d) == n.chars() {
            Some(spec_funcptr_module_name(g))
        } else {
            spec_find_module(map, n)
        }));
    }
}

/// The map holds for a name what the last declaration gives for it, and holds no other name.
pub proof fn law_map_holds_what_is_given(map: Rc<List<ModuleEntry>>, l: Rc<List<Decl>>, n: Text)
    ensures
        held_module(spec_build_fn_module_map(map, l), n) == (match last_given(l, n.chars()) {
            Some(m) => Some(m),
            None => held_module(map, n),
        }),
    decreases l,
{
    match *l {
        List::Nil => {},
        List::Cons(d, t) => {
            law_map_holds_what_is_given(spec_add_decl_modules(map, d), t, n);
            lemma_add_decl_modules(map, d, n);
        },
    }
}

/// Whether the names that declarations give modules for are different.
pub open spec fn given_names_differ(l: Rc<List<Decl>>) -> bool {
    let s = l.items();
    &&& forall|i: int, j: int|
        0 <= i < s.len() && 0 <= j < s.len() && i != j && is_mapped(s[i]) && is_mapped(s[j])
            ==> spec_decl_text(#[trigger] s[i]).chars() != spec_decl_text(#[trigger] s[j]).chars()
    &&& forall|i: int, j: int|
        0 <= i < s.len() && 0 <= j < s.len() && is_mapped(s[i]) && is_fn(s[j])
            ==> spec_decl_text(#[trigger] s[i]).chars() != wrapper_name(#[trigger] s[j])
}

/// What a single declaration gives is what the last gives.
proof fn lemma_last_given(l: Rc<List<Decl>>, c: Seq<char>, m: Seq<char>)
    requires
        forall|j: int| 0 <= j < l.items().len() ==> (given_module(#[trigger] l.items()[j], c) matches Some(x) ==> x == m),
    ensures
        last_given(l, c) matches Some(x) ==> x == m,
        (exists|j: int| 0 <= j < l.items().len() && given_module(#[trigger] l.items()[j], c) is Some) ==> last_given(l, c) is Some,
    decreases l,
{
    match *l {
        List::Nil => {},
        List::Cons(d, t) => {
            assert(l.items() == seq![d] + t.items());
            assert(l.items()[0] == d);
            assert forall|j: int| 0 <= j < t.items().len() implies (given_module(#[trigger] t.items()[j], c) matches Some(x) ==> x == m) by {
                assert(l.items()[j + 1] == t.items()[j]);
            }
            lemma_last_given(t, c, m);
            if exists|j: int| 0 <= j < l.items().len() && given_module(#[trigger] l.items()[j], c) is Some {
                let j = choose|j: int| 0 <= j < l.items().len() && given_module(#[trigger] l.items()[j], c) is Some;
                if j > 0 {
                    assert(t.items()[j - 1] == l.items()[j]);
                }
            }
        },
    }
}

/// Where names differ, every function, specification function, global and opaque type is mapped to
/// its own module, and every function's wrapper to the wrapper's module. No other name is mapped.
pub proof fn law_map_holds_every_declaration(l: Rc<List<Decl>>, n: Text)
    requires
        given_names_differ(l),
    ensures
        ({
            let held = held_module(spec_build_fn_module_map(spec_nil(), l), n);
            let s = l.items();
            &&& forall|i: int|
                0 <= i < s.len() && is_mapped(s[i]) && n.chars() == spec_decl_text(#[trigger] s[i]).chars()
                    ==> held == Some(spec_module_text(s[i]).chars())
            &&& forall|i: int|
                0 <= i < s.len() && is_fn(s[i]) && n.chars() == wrapper_name(#[trigger] s[i])
                    ==> held == Some("Funcptr_"@ + spec_decl_text(s[i]).chars())
            &&& held is Some ==> exists|i: int| 0 <= i < s.len() && given_module(#[trigger] s[i], n.chars()) is Some
        }),
{
    let none: Rc<List<ModuleEntry>> = spec_nil();
    let s = l.items();
    let c = n.chars();
    law_map_holds_what_is_given(none, l, n);
    assert(held_module(none, n) is None);
    lemma_given_somewhere(l, c);
    assert forall|i: int| 0 <= i < s.len() && given_module(#[trigger] s[i], c) is Some implies last_given(l, c) == given_module(s[i], c) by {
        let m = given_module(s[i], c)->Some_0;
        assert forall|j: int| 0 <= j < s.len() implies (given_module(#[trigger] s[j], c) matches Some(x) ==> x == m) by {
            if given_module(s[j], c) is Some && j != i {
                if is_fn(s[i]) && c == wrapper_name(s[i]) && is_fn(s[j]) && c == wrapper_name(s[j]) {
                    let a = spec_decl_text(s[i]).chars();
                    let b = spec_decl_text(s[j]).chars();
                    assert(c.len() == a.len() + "__fp"@.len());
                    assert(c.len() == b.len() + "__fp"@.len());
                    assert(a =~= c.take(a.len() as int));
                    assert(b =~= c.take(b.len() as int));
                    assert(a == b);
                }
            }
        }
        lemma_last_given(l, c, m);
    }
}

/// What is given is given by one of the declarations.
proof fn lemma_given_somewhere(l: Rc<List<Decl>>, c: Seq<char>)
    ensures
        last_given(l, c) is Some ==> exists|i: int| 0 <= i < l.items().len() && given_module(#[trigger] l.items()[i], c) is Some,
    decreases l,
{
    match *l {
        List::Nil => {},
        List::Cons(d, t) => {
            lemma_given_somewhere(t, c);
            assert(l.items() == seq![d] + t.items());
            if last_given(t, c) is Some {
                let i = choose|i: int| 0 <= i < t.items().len() && given_module(#[trigger] t.items()[i], c) is Some;
                assert(l.items()[i + 1] == t.items()[i]);
            } else {
                assert(l.items()[0] == d);
            }
        },
    }
}

} // verus!
