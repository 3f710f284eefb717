//! What is proved of generated names.

use crate::list::{List, spec_bump, spec_drop_one, spec_list_len};
use crate::text::{
    Rope, Text, ascii_lower, digit_char, is_ascii, lower_chars, nat_chars, spec_cat, spec_cat3,
    spec_lit, spec_num, spec_same_text,
};
use crate::names::{
    Mangled, Name, NameMangling, spec_bind, spec_find_mangled, spec_mangle, spec_name_text,
    spec_new_mangling, spec_numbered, spec_pick_new, spec_pick_numbered, spec_reserved,
    spec_same_gen_name, spec_same_texts, spec_same_type_ref, spec_text_in, spec_wanted_text,
};
use std::rc::Rc;
use vstd::prelude::*;

verus! {

/// Whether one of the texts in the list is `c`.
pub open spec fn holds_text(l: Seq<Rc<Rope>>, c: Seq<char>) -> bool {
    exists|i: int| 0 <= i < l.len() && (#[trigger] l[i]).chars() == c
}

/// Looking a text up in a list finds it exactly when it is there.
proof fn lemma_text_in(l: Rc<List<Rope>>, t: Text)
    ensures
        spec_text_in(l, t) == holds_text(l.items(), t.chars()),
    decreases l,
{
    match *l {
        List::Nil => {},
        List::Cons(h, r) => {
            lemma_text_in(r, t);
            if spec_same_text(h, t) {
                assert(l.items()[0] == h);
            }
            if holds_text(r.items(), t.chars()) {
                let i = choose|i: int| 0 <= i < r.items().len() && (#[trigger] r.items()[i]).chars() == t.chars();
                assert(l.items()[i + 1] == r.items()[i]);
            }
            if holds_text(l.items(), t.chars()) {
                let i = choose|i: int| 0 <= i < l.items().len() && (#[trigger] l.items()[i]).chars() == t.chars();
                if i > 0 {
                    assert(r.items()[i - 1] == l.items()[i]);
                }
            }
        },
    }
}

/// The length of a list is the number of its items.
pub proof fn lemma_list_len<X>(l: Rc<List<X>>)
    requires
        l.items().len() <= u64::MAX,
    ensures
        spec_list_len(l) == l.items().len(),
    decreases l,
{
    match *l {
        List::Nil => {},
        List::Cons(_, t) => {
            lemma_list_len(t);
        },
    }
}

/// Digits below ten have different characters.
proof fn lemma_digit_char(a: nat, b: nat)
    requires
        a < 10,
        b < 10,
        digit_char(a) == digit_char(b),
    ensures
        a == b,
{
}

/// A decimal form is not empty, and has more than one digit from ten on.
proof fn lemma_nat_chars_len(n: nat)
    ensures
        nat_chars(n).len() >= 1,
        n >= 10 ==> nat_chars(n).len() >= 2,
    decreases n,
{
    if n >= 10 {
        lemma_nat_chars_len(n / 10);
    }
}

/// Different numbers have different decimal forms.
pub proof fn law_decimal_forms_differ(a: nat, b: nat)
    requires
        nat_chars(a) == nat_chars(b),
    ensures
        a == b,
    decreases a,
{
    lemma_nat_chars_len(a);
    lemma_nat_chars_len(b);
    assert(nat_chars(a).last() == nat_chars(b).last());
    if a < 10 && b < 10 {
        assert(nat_chars(a).last() == digit_char(a));
        assert(nat_chars(b).last() == digit_char(b));
        lemma_digit_char(a, b);
    } else if a >= 10 && b >= 10 {
        assert(nat_chars(a).last() == digit_char(a % 10));
        assert(nat_chars(b).last() == digit_char(b % 10));
        lemma_digit_char(a % 10, b % 10);
        assert(nat_chars(a).drop_last() =~= nat_chars(a / 10));
        assert(nat_chars(b).drop_last() =~= nat_chars(b / 10));
        law_decimal_forms_differ(a / 10, b / 10);
    }
}

/// The text of a numbered name.
proof fn lemma_numbered(base: Text, i: u64)
    ensures
        spec_numbered(base, i).chars() == base.chars() + ("_"@ + nat_chars(i as nat)),
{
    reveal(spec_numbered);
    reveal(spec_cat3);
    reveal(spec_cat);
    reveal(spec_lit);
    reveal(spec_num);
    reveal_with_fuel(Rope::chars, 3);
}

/// Names with different numbers have different texts.
proof fn lemma_numbered_differ(base: Text, i: u64, j: u64)
    requires
        spec_numbered(base, i).chars() == spec_numbered(base, j).chars(),
    ensures
        i == j,
{
    lemma_numbered(base, i);
    lemma_numbered(base, j);
    let b = base.chars();
    let x = "_"@ + nat_chars(i as nat);
    let y = "_"@ + nat_chars(j as nat);
    assert((b + x).skip(b.len() as int) =~= x);
    assert((b + y).skip(b.len() as int) =~= y);
    let k = "_"@.len() as int;
    assert(x.skip(k) =~= nat_chars(i as nat));
    assert(y.skip(k) =~= nat_chars(j as nat));
    law_decimal_forms_differ(i as nat, j as nat);
}

/// Either the text picked is new, or all the texts tried are in use.
proof fn lemma_pick_numbered(used: Rc<List<Rope>>, base: Text, i: u64, fuel: u64)
    requires
        i + fuel < u64::MAX,
    ensures
        !spec_text_in(used, spec_pick_numbered(used, base, i, fuel)) || forall|j: u64|
            i <= j <= i + fuel ==> spec_text_in(used, #[trigger] spec_numbered(base, j)),
    decreases fuel,
{
    if fuel == 0 || !spec_text_in(used, spec_numbered(base, i)) {
    } else {
        lemma_pick_numbered(used, base, (i + 1) as u64, (fuel - 1) as u64);
    }
}

/// There are not as many texts in a list as numbered names up to one more than its length.
proof fn lemma_some_number_is_free(used: Seq<Rc<Rope>>, base: Text)
    requires
        used.len() < u64::MAX - 2,
    ensures
        exists|j: u64| 1 <= j <= used.len() + 1 && !holds_text(used, #[trigger] spec_numbered(base, j).chars()),
{
    if forall|j: u64| 1 <= j <= used.len() + 1 ==> holds_text(used, #[trigger] spec_numbered(base, j).chars()) {
        let n = used.len();
        let texts = Seq::new(n, |i: int| used[i].chars());
        let number = |k: int| spec_numbered(base, k as u64).chars();
        let range = vstd::set_lib::set_int_range(1, n as int + 2);
        vstd::set_lib::lemma_int_range(1, n as int + 2);
        assert forall|a: int, b: int| range.contains(a) && range.contains(b) && number(a) == number(b) implies a == b by {
            lemma_numbered_differ(base, a as u64, b as u64);
        }
        vstd::set_lib::lemma_map_size(range, range.map(number), number);
        assert(range.map(number).subset_of(texts.to_set())) by {
            assert forall|c: Seq<char>| range.map(number).contains(c) implies texts.to_set().contains(c) by {
                let k = choose|k: int| range.contains(k) && number(k) == c;
                let j = k as u64;
                assert(holds_text(used, spec_numbered(base, j).chars()));
                let i = choose|i: int| 0 <= i < used.len() && (#[trigger] used[i]).chars() == spec_numbered(base, j).chars();
                assert(texts[i] == c);
            }
        }
        texts.lemma_cardinality_of_set();
        vstd::seq_lib::seq_to_set_is_finite(texts);
        vstd::set_lib::lemma_len_subset(range.map(number), texts.to_set());
        assert(false);
    }
}

/// A picked text is never one that is in use.
pub proof fn law_picked_text_is_new(used: Rc<List<Rope>>, base: Text)
    requires
        used.items().len() < u64::MAX - 2,
    ensures
        !spec_text_in(used, spec_pick_new(used, base)),
{
    reveal(spec_pick_new);
    if spec_text_in(used, base) {
        lemma_list_len(used);
        let n = spec_list_len(used);
        lemma_pick_numbered(used, base, 1, n);
        lemma_some_number_is_free(used.items(), base);
        let j = choose|j: u64| 1 <= j <= used.items().len() + 1 && !holds_text(used.items(), #[trigger] spec_numbered(base, j).chars());
        lemma_text_in(used, spec_numbered(base, j));
    }
}

/// Whether the names that have a text have different texts, all of them in use.
pub open spec fn apart(nm: NameMangling) -> bool {
    let m = nm.map.items();
    &&& forall|i: int, j: int| 0 <= i < j < m.len() ==> (#[trigger] m[i]).text.chars() != (#[trigger] m[j]).text.chars()
    &&& forall|i: int| 0 <= i < m.len() ==> holds_text(nm.used.items(), (#[trigger] m[i]).text.chars())
}

/// At the start no name has a text.
pub proof fn law_new_mangling_is_apart()
    ensures
        apart(spec_new_mangling()),
{
    reveal(spec_new_mangling);
}

/// Distinct names never get the same text, and no name gets a reserved word: a name that has no
/// text yet gets one that is not in use.
pub proof fn law_mangle_keeps_names_apart(nm: NameMangling, n: Rc<Name>)
    requires
        apart(nm),
        nm.used.items().len() < u64::MAX - 2,
    ensures
        apart(spec_mangle(nm, n).0),
        spec_find_mangled(nm.map, n) is None ==> !spec_text_in(nm.used, spec_mangle(nm, n).1),
{
    reveal(spec_mangle);
    reveal(spec_bind);
    match spec_find_mangled(nm.map, n) {
        Some(t) => {},
        None => {
            let t = spec_pick_new(nm.used, spec_wanted_text(n));
            law_picked_text_is_new(nm.used, spec_wanted_text(n));
            lemma_text_in(nm.used, t);
            let after = spec_bind(nm, n, t);
            let m = after.map.items();
            assert(after.used.items()[0] == t);
            assert forall|i: int| 0 <= i < m.len() implies holds_text(after.used.items(), (#[trigger] m[i]).text.chars()) by {
                if i > 0 {
                    assert(m[i] == nm.map.items()[i - 1]);
                    let k = choose|k: int| 0 <= k < nm.used.items().len() && (#[trigger] nm.used.items()[k]).chars() == m[i].text.chars();
                    assert(after.used.items()[k + 1] == nm.used.items()[k]);
                }
            }
            assert forall|i: int, j: int| 0 <= i < j < m.len() implies (#[trigger] m[i]).text.chars() != (#[trigger] m[j]).text.chars() by {
                assert(m[j] == nm.map.items()[j - 1]);
                if i == 0 {
                    assert(holds_text(nm.used.items(), nm.map.items()[j - 1].text.chars()));
                } else {
                    assert(m[i] == nm.map.items()[i - 1]);
                }
            }
        },
    }
}

/// Every name is the same as itself.
proof fn lemma_same_gen_name(n: Rc<Name>)
    ensures
        spec_same_gen_name(n, n),
{
    reveal(spec_same_gen_name);
    reveal(spec_same_type_ref);
    reveal(spec_same_texts);
}

/// A name keeps its text: asked for again, it is the same, and nothing else changes.
pub proof fn law_mangle_is_stable(nm: NameMangling, n: Rc<Name>)
    ensures
        spec_mangle(spec_mangle(nm, n).0, n) == spec_mangle(nm, n),
{
    reveal(spec_mangle);
    reveal(spec_bind);
    lemma_same_gen_name(n);
}

/// The texts of names, asked for one after the other, and what was picked in the end.
pub open spec fn mangle_all(nm: NameMangling, s: Seq<Rc<Name>>) -> (NameMangling, Seq<Text>)
    decreases s.len(),
{
    if s.len() == 0 {
        (nm, Seq::empty())
    } else {
        let (m, texts) = mangle_all(nm, s.drop_last());
        let (after, t) = spec_mangle(m, s.last());
        (after, texts.push(t))
    }
}

/// Whether a text has no capital letter.
pub open spec fn has_no_capital(c: Seq<char>) -> bool {
    forall|i: int| 0 <= i < c.len() ==> !('A' <= #[trigger] c[i] <= 'Z')
}

/// Whether a name is that of a constructor of a union's arm.
pub open spec fn is_constructor(n: Rc<Name>) -> bool {
    *n is UnionFieldConstructor
}

/// Whether a name is made of ASCII characters.
pub open spec fn is_ascii_name(n: Rc<Name>) -> bool {
    is_ascii(spec_name_text(n).chars())
}

/// Being the same name is an equivalence, and constructors are the same as constructors only.
proof fn lemma_same_names(a: Rc<Name>, b: Rc<Name>, c: Rc<Name>)
    ensures
        spec_same_gen_name(a, b) == spec_same_gen_name(b, a),
        spec_same_gen_name(a, b) ==> spec_same_gen_name(a, c) == spec_same_gen_name(b, c),
        spec_same_gen_name(a, b) ==> is_constructor(a) == is_constructor(b),
{
    reveal(spec_same_gen_name);
    reveal(spec_same_type_ref);
    reveal(spec_same_texts);
}

/// The entry that the text of a name is found in.
proof fn lemma_find_mangled(l: Rc<List<Mangled>>, n: Rc<Name>) -> (i: int)
    requires
        spec_find_mangled(l, n) is Some,
    ensures
        0 <= i < l.items().len(),
        spec_same_gen_name(l.items()[i].name, n),
        spec_find_mangled(l, n) == Some(l.items()[i].text),
    decreases l,
{
    match *l {
        List::Nil => 0,
        List::Cons(h, t) => {
            assert(l.items() == seq![h] + t.items());
            if spec_find_mangled(l, n) == Some(entry_text(h)) && spec_same_gen_name(entry_name(h), n) {
                assert(l.items()[0] == h);
                0
            } else {
                let i = lemma_find_mangled(t, n);
                assert(l.items()[i + 1] == t.items()[i]);
                i + 1
            }
        },
    }
}

/// The text of an entry.
pub open spec fn entry_text(m: Rc<Mangled>) -> Text {
    m.text
}

/// The name of an entry.
pub open spec fn entry_name(m: Rc<Mangled>) -> Rc<Name> {
    m.name
}

/// The same name is found in the same entry.
proof fn lemma_find_same(l: Rc<List<Mangled>>, a: Rc<Name>, b: Rc<Name>)
    requires
        spec_same_gen_name(a, b),
    ensures
        spec_find_mangled(l, a) == spec_find_mangled(l, b),
    decreases l,
{
    match *l {
        List::Nil => {},
        List::Cons(h, t) => {
            lemma_find_same(t, a, b);
            lemma_same_names(a, b, entry_name(h));
            lemma_same_names(entry_name(h), a, b);
            lemma_same_names(entry_name(h), b, a);
        },
    }
}

/// A decimal form has no capital.
proof fn lemma_nat_chars_no_capital(n: nat)
    ensures
        has_no_capital(nat_chars(n)),
    decreases n,
{
    if n >= 10 {
        lemma_nat_chars_no_capital(n / 10);
    }
}

/// A text picked for a base without capitals has none.
proof fn lemma_pick_no_capital(used: Rc<List<Rope>>, base: Text, i: u64, fuel: u64)
    requires
        has_no_capital(base.chars()),
    ensures
        has_no_capital(spec_pick_numbered(used, base, i, fuel).chars()),
    decreases fuel,
{
    lemma_numbered(base, i);
    lemma_nat_chars_no_capital(i as nat);
    reveal_strlit("_");
    if fuel > 0 {
        lemma_pick_no_capital(used, base, spec_bump(i), spec_drop_one(fuel));
    }
}

/// The text that an ASCII name would like to have has no capital, unless it is a constructor.
proof fn lemma_wanted_no_capital(n: Rc<Name>)
    requires
        is_ascii_name(n),
        !is_constructor(n),
    ensures
        has_no_capital(spec_wanted_text(n).chars()),
{
    reveal(spec_wanted_text);
    let c = spec_name_text(n).chars();
    assert(spec_wanted_text(n).chars() == lower_chars(c));
    assert forall|i: int| 0 <= i < lower_chars(c).len() implies !('A' <= #[trigger] lower_chars(c)[i] <= 'Z') by {
        assert(lower_chars(c)[i] == ascii_lower(c[i]));
    }
}

/// What holds of the texts picked for names one after the other.
spec fn picked_well(m: NameMangling, s: Seq<Rc<Name>>, texts: Seq<Text>) -> bool {
    &&& apart(m)
    &&& texts.len() == s.len()
    &&& m.used.items().len() <= spec_reserved().items().len() + s.len()
    &&& forall|i: int| 0 <= i < s.len() ==> spec_find_mangled(m.map, #[trigger] s[i]) == Some(texts[i])
    &&& forall|c: Seq<char>| #[trigger] holds_text(spec_reserved().items(), c) ==> holds_text(m.used.items(), c)
    &&& forall|i: int| 0 <= i < m.map.items().len() ==> !holds_text(spec_reserved().items(), (#[trigger] m.map.items()[i]).text.chars())
    &&& forall|i: int|
        0 <= i < m.map.items().len() ==> is_constructor((#[trigger] m.map.items()[i]).name) || has_no_capital(m.map.items()[i].text.chars())
}

/// One more name is picked well.
proof fn lemma_one_more_name(m: NameMangling, s: Seq<Rc<Name>>, texts: Seq<Text>, n: Rc<Name>)
    requires
        picked_well(m, s, texts),
        is_ascii_name(n),
        spec_reserved().items().len() + s.len() < u64::MAX - 2,
    ensures
        picked_well(spec_mangle(m, n).0, s.push(n), texts.push(spec_mangle(m, n).1)),
{
    law_mangle_keeps_names_apart(m, n);
    reveal(spec_mangle);
    let (after, t) = spec_mangle(m, n);
    let all = s.push(n);
    match spec_find_mangled(m.map, n) {
        Some(_) => {
            assert forall|i: int| 0 <= i < all.len() implies spec_find_mangled(after.map, #[trigger] all[i]) == Some(texts.push(t)[i]) by {
                if i < s.len() {
                    assert(all[i] == s[i]);
                }
            }
        },
        None => {
            reveal(spec_bind);
            lemma_same_gen_name(n);
            lemma_text_in(m.used, t);
            assert(after.map.items() == seq![after.map.items()[0]] + m.map.items());
            assert(after.used.items() == seq![t] + m.used.items());
            assert forall|i: int| 0 <= i < all.len() implies spec_find_mangled(after.map, #[trigger] all[i]) == Some(texts.push(t)[i]) by {
                if i < s.len() {
                    assert(all[i] == s[i]);
                    if spec_same_gen_name(n, s[i]) {
                        lemma_find_same(m.map, n, s[i]);
                    }
                }
            }
            assert forall|c: Seq<char>| #[trigger] holds_text(spec_reserved().items(), c) implies holds_text(after.used.items(), c) by {
                let k = choose|k: int| 0 <= k < m.used.items().len() && (#[trigger] m.used.items()[k]).chars() == c;
                assert(after.used.items()[k + 1] == m.used.items()[k]);
            }
            reveal(spec_pick_new);
            if !is_constructor(n) {
                lemma_wanted_no_capital(n);
                lemma_pick_no_capital(m.used, spec_wanted_text(n), 1, spec_list_len(m.used));
            }
            assert forall|i: int| 0 <= i < after.map.items().len() implies {
                &&& !holds_text(spec_reserved().items(), (#[trigger] after.map.items()[i]).text.chars())
                &&& is_constructor(after.map.items()[i].name) || has_no_capital(after.map.items()[i].text.chars())
            } by {
                if i > 0 {
                    assert(after.map.items()[i] == m.map.items()[i - 1]);
                }
            }
        },
    }
}

/// Names asked for one after the other are picked well.
proof fn lemma_all_picked_well(s: Seq<Rc<Name>>)
    requires
        forall|i: int| 0 <= i < s.len() ==> is_ascii_name(#[trigger] s[i]),
        spec_reserved().items().len() + s.len() < u64::MAX - 2,
    ensures
        picked_well(mangle_all(spec_new_mangling(), s).0, s, mangle_all(spec_new_mangling(), s).1),
    decreases s.len(),
{
    if s.len() == 0 {
        reveal(spec_new_mangling);
    } else {
        let front = s.drop_last();
        assert forall|i: int| 0 <= i < front.len() implies is_ascii_name(#[trigger] front[i]) by {
            assert(front[i] == s[i]);
        }
        lemma_all_picked_well(front);
        let (m, texts) = mangle_all(spec_new_mangling(), front);
        lemma_one_more_name(m, front, texts, s.last());
        assert(front.push(s.last()) =~= s);
    }
}

/// Of ASCII names that are asked for one after the other, the same ones get the same text, and
/// different ones different texts. No text is a reserved word, and none has a capital, but for
/// those of constructors.
pub proof fn law_texts_stand_for_names(s: Seq<Rc<Name>>)
    requires
        forall|i: int| 0 <= i < s.len() ==> is_ascii_name(#[trigger] s[i]),
        spec_reserved().items().len() + s.len() < u64::MAX - 2,
    ensures
        ({
            let texts = mangle_all(spec_new_mangling(), s).1;
            &&& texts.len() == s.len()
            &&& forall|i: int, j: int|
                0 <= i < s.len() && 0 <= j < s.len() ==> (spec_same_gen_name(#[trigger] s[i], #[trigger] s[j]) <==> texts[i].chars() == texts[j].chars())
            &&& forall|i: int| 0 <= i < s.len() ==> !spec_text_in(spec_reserved(), #[trigger] texts[i])
            &&& forall|i: int| 0 <= i < s.len() ==> is_constructor(#[trigger] s[i]) || has_no_capital(texts[i].chars())
        }),
{
    lemma_all_picked_well(s);
    let (m, texts) = mangle_all(spec_new_mangling(), s);
    assert forall|i: int, j: int| 0 <= i < s.len() && 0 <= j < s.len() implies (spec_same_gen_name(#[trigger] s[i], #[trigger] s[j]) <==> texts[i].chars()
        == texts[j].chars()) by {
        if spec_same_gen_name(s[i], s[j]) {
            lemma_find_same(m.map, s[i], s[j]);
        } else {
            let a = lemma_find_mangled(m.map, s[i]);
            let b = lemma_find_mangled(m.map, s[j]);
            if a == b {
                lemma_same_names(entry_name(m.map.items()[a]), s[i], s[j]);
            } else if a < b {
                assert(m.map.items()[a].text.chars() != m.map.items()[b].text.chars());
            } else {
                assert(m.map.items()[b].text.chars() != m.map.items()[a].text.chars());
            }
        }
    }
    assert forall|i: int| 0 <= i < s.len() implies !spec_text_in(spec_reserved(), #[trigger] texts[i]) by {
        let a = lemma_find_mangled(m.map, s[i]);
        assert(spec_find_mangled(m.map, s[i]) == Some(texts[i]));
        lemma_text_in(spec_reserved(), texts[i]);
    }
    assert forall|i: int| 0 <= i < s.len() implies is_constructor(#[trigger] s[i]) || has_no_capital(texts[i].chars()) by {
        let a = lemma_find_mangled(m.map, s[i]);
        lemma_same_names(entry_name(m.map.items()[a]), s[i], s[i]);
    }
}

} // verus!
