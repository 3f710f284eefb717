//! What is proved of the emission of structs and unions.

use crate::list::{List, spec_list_append};
use crate::ir::{Field, spec_field_is_array, spec_has_flex_field};
use crate::doc::{Doc, DocT};
use crate::env::Env;
use crate::emit_base::Emitter;
use crate::emit_records::{
    RecordNames, spec_emit_activations, spec_emit_arm_activation, spec_emit_container,
    spec_emit_containers, spec_emit_flex_allocators, spec_emit_proj_null,
};
use std::rc::Rc;
use vstd::prelude::*;

verus! {

/// Whether documents are the way back from a field's address, with its two inverse lemmas.
pub open spec fn is_container(docs: Seq<Rc<DocT>>, env: Env, r: RecordNames, f: Rc<Field>) -> bool {
    exists|st: Emitter| docs == (#[trigger] spec_emit_container(st, env, r, f)).1.items()
}

/// A way back is three declarations: the function, and the two lemmas that make it an inverse.
proof fn lemma_container_len(st: Emitter, env: Env, r: RecordNames, f: Rc<Field>)
    ensures
        spec_emit_container(st, env, r, f).1.items().len() == 3,
{
    reveal(spec_emit_container);
    reveal_with_fuel(List::items, 5);
}

/// The items of two lists, one after the other.
proof fn lemma_append_docs(a: Rc<List<DocT>>, b: Rc<List<DocT>>)
    ensures
        spec_list_append(a, b).items() == a.items() + b.items(),
    decreases a,
{
    match *a {
        List::Nil => {
            assert(a.items() + b.items() =~= b.items());
        },
        List::Cons(h, t) => {
            lemma_append_docs(t, b);
            assert(a.items() + b.items() =~= seq![h] + (t.items() + b.items()));
        },
    }
}

/// Every field of a struct has its way back and both inverse lemmas, in the order of the fields.
pub proof fn law_every_field_has_its_container(st: Emitter, env: Env, r: RecordNames, fields: Rc<List<Field>>)
    ensures
        ({
            let docs = spec_emit_containers(st, env, r, fields).1.items();
            &&& docs.len() == 3 * fields.items().len()
            &&& forall|i: int| 0 <= i < fields.items().len() ==> is_container(docs.subrange(3 * i, 3 * i + 3), env, r, #[trigger] fields.items()[i])
        }),
    decreases fields,
{
    match *fields {
        List::Nil => {},
        List::Cons(f, t) => {
            let (st1, ds) = spec_emit_container(st, env, r, f);
            lemma_container_len(st, env, r, f);
            law_every_field_has_its_container(st1, env, r, t);
            let rest = spec_emit_containers(st1, env, r, t).1;
            lemma_append_docs(ds, rest);
            let docs = spec_emit_containers(st, env, r, fields).1.items();
            assert(docs == ds.items() + rest.items());
            assert(fields.items() == seq![f] + t.items());
            assert forall|i: int| 0 <= i < fields.items().len() implies is_container(
                docs.subrange(3 * i, 3 * i + 3),
                env,
                r,
                #[trigger] fields.items()[i],
            ) by {
                if i == 0 {
                    assert(docs.subrange(0, 3) =~= ds.items());
                } else {
                    assert(fields.items()[i] == t.items()[i - 1]);
                    assert(docs.subrange(3 * i, 3 * i + 3) =~= rest.items().subrange(3 * (i - 1), 3 * (i - 1) + 3));
                }
            }
        },
    }
}

/// Whether the first field is a plain one that is no array.
pub open spec fn starts_plain(fields: Rc<List<Field>>) -> bool {
    match *fields {
        List::Nil => false,
        List::Cons(f, _) => f.val is Plain && !spec_field_is_array(f),
    }
}

/// That the null struct has a null field is assumed of the first field only, where it is a plain
/// one that is no array.
pub proof fn law_null_is_assumed_of_a_first_plain_field(st: Emitter, env: Env, r: RecordNames, fields: Rc<List<Field>>)
    ensures
        spec_emit_proj_null(st, env, r, fields).1.items().len() == (if starts_plain(fields) {
            1nat
        } else {
            0nat
        }),
{
    reveal(spec_emit_proj_null);
    reveal_with_fuel(List::items, 3);
}

/// A struct has its two allocators with a tail exactly where it has a flexible array member.
pub proof fn law_flexible_structs_have_allocators(st: Emitter, env: Env, r: RecordNames, unfolded: Doc, fields: Rc<List<Field>>)
    ensures
        spec_emit_flex_allocators(st, env, r, unfolded, fields).1.items().len() == (if spec_has_flex_field(fields) {
            2nat
        } else {
            0nat
        }),
{
    reveal(spec_emit_flex_allocators);
    reveal_with_fuel(List::items, 4);
}

/// Whether a field is a bit-field.
pub open spec fn is_bit_field(f: Rc<Field>) -> bool {
    f.val is BitField
}

/// The arms of a union that are no bit-fields.
pub open spec fn whole_arms(fields: Rc<List<Field>>) -> Seq<Rc<Field>>
    decreases fields,
{
    match *fields {
        List::Nil => Seq::empty(),
        List::Cons(f, t) => if is_bit_field(f) {
            whole_arms(t)
        } else {
            seq![f] + whole_arms(t)
        },
    }
}

/// Whether a document is the activation of an arm.
pub open spec fn is_activation(d: Rc<DocT>, env: Env, r: RecordNames, f: Rc<Field>) -> bool {
    exists|st: Emitter| d == (#[trigger] spec_emit_arm_activation(st, env, r, f)).1
}

/// Every arm of a union that is no bit-field has its activation, and nothing else has one.
pub proof fn law_every_whole_arm_has_its_activation(st: Emitter, env: Env, r: RecordNames, fields: Rc<List<Field>>)
    ensures
        ({
            let docs = spec_emit_activations(st, env, r, fields).1.items();
            &&& docs.len() == whole_arms(fields).len()
            &&& forall|i: int| 0 <= i < docs.len() ==> is_activation(#[trigger] docs[i], env, r, whole_arms(fields)[i])
        }),
    decreases fields,
{
    match *fields {
        List::Nil => {},
        List::Cons(f, t) => {
            if is_bit_field(f) {
                law_every_whole_arm_has_its_activation(st, env, r, t);
            } else {
                let (st1, d) = spec_emit_arm_activation(st, env, r, f);
                law_every_whole_arm_has_its_activation(st1, env, r, t);
                let rest = spec_emit_activations(st1, env, r, t).1.items();
                let docs = spec_emit_activations(st, env, r, fields).1.items();
                assert(docs == seq![d] + rest);
                assert forall|i: int| 0 <= i < docs.len() implies is_activation(#[trigger] docs[i], env, r, whole_arms(fields)[i]) by {
                    if i > 0 {
                        assert(docs[i] == rest[i - 1]);
                    }
                }
            }
        },
    }
}

} // verus!
