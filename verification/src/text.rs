//! Text, as shared ropes, and the integer values of literals.
//!
//! A rope keeps the pieces that a text is made of. Two ropes are compared by the
//! text they stand for, [`Rope::chars`].

use num_bigint::{BigInt, Sign};
use std::rc::Rc;
use vstd::arithmetic::power2::pow2;
use vstd::prelude::*;

verus! {

/// The value of an integer literal.
pub enum IntValue {
    Small(i64),
    /// A magnitude in base 2^32, least significant digit first.
    Big { negative: bool, digits: Vec<u32> },
}

/// A text in pieces.
pub enum Rope {
    Lit(&'static str),
    Sym(Rc<String>),
    /// The decimal form of a number.
    Nat(u64),
    /// The decimal form of an integer literal.
    Int(Rc<IntValue>),
    /// The decimal form of an integer literal, reduced modulo 2 to the given power.
    IntMod(Rc<IntValue>, u32),
    Cat(Rc<Rope>, Rc<Rope>),
    /// The lower-case form of a text.
    Lower(Rc<Rope>),
    /// A text in double quotes, with escapes where they are needed.
    Quoted(Rc<Rope>),
    /// A path relative to a directory, or the path itself where it is not below the directory.
    Below(Rc<Rope>, Rc<Rope>),
}

pub type Text = Rc<Rope>;

/// The number that digits in base 2^32 stand for, least significant first.
pub open spec fn digits_value(d: Seq<u32>) -> nat
    decreases d.len(),
{
    if d.len() == 0 {
        0
    } else {
        d[0] as nat + 0x1_0000_0000 * digits_value(d.skip(1))
    }
}

/// The integer with the given sign and magnitude.
pub open spec fn signed_value(negative: bool, d: Seq<u32>) -> int {
    if negative {
        -(digits_value(d) as int)
    } else {
        digits_value(d) as int
    }
}

impl IntValue {
    /// The integer that the value stands for.
    pub open spec fn value(&self) -> int {
        match *self {
            IntValue::Small(n) => n as int,
            IntValue::Big { negative, digits } => signed_value(negative, digits@),
        }
    }
}

/// The character of a decimal digit.
pub open spec fn digit_char(d: nat) -> char {
    if d == 0 { '0' } else if d == 1 { '1' } else if d == 2 { '2' } else if d == 3 { '3' }
    else if d == 4 { '4' } else if d == 5 { '5' } else if d == 6 { '6' } else if d == 7 { '7' }
    else if d == 8 { '8' } else { '9' }
}

/// The decimal form of a natural number, without leading zeros.
pub open spec fn nat_chars(n: nat) -> Seq<char>
    decreases n,
{
    if n < 10 {
        seq![digit_char(n)]
    } else {
        nat_chars(n / 10).push(digit_char(n % 10))
    }
}

/// The decimal form of an integer, with a minus sign in front of a negative one.
pub open spec fn int_chars(i: int) -> Seq<char> {
    if i < 0 {
        seq!['-'] + nat_chars((-i) as nat)
    } else {
        nat_chars(i as nat)
    }
}

/// Whether all characters of a text are ASCII ones.
pub open spec fn is_ascii(s: Seq<char>) -> bool {
    forall|i: int| 0 <= i < s.len() ==> (#[trigger] s[i] as u32) < 0x80
}

/// The lower-case letter of an ASCII capital; any other character itself.
pub open spec fn ascii_lower(c: char) -> char {
    if 'A' <= c <= 'Z' {
        ((c as u32 + 32) as u8) as char
    } else {
        c
    }
}

/// The lower-case form of a text.
pub open spec fn lower_chars(s: Seq<char>) -> Seq<char> {
    if is_ascii(s) {
        s.map_values(|c: char| ascii_lower(c))
    } else {
        lowercase_chars(s)
    }
}

/// What is left of a path below a directory, as `Path::strip_prefix` gives it; nothing where the
/// path is not below it.
pub uninterp spec fn stripped_path(file: Seq<char>, dir: Seq<char>) -> Option<Seq<char>>;

/// The lower-case form of a text that is not all ASCII, as `str::to_lowercase` gives it.
pub uninterp spec fn lowercase_chars(s: Seq<char>) -> Seq<char>;

/// A text as `str`'s `Debug` form writes it: in double quotes, with escapes.
pub uninterp spec fn quoted_chars(s: Seq<char>) -> Seq<char>;

impl Rope {
    /// The text that the rope stands for.
    pub open spec fn chars(&self) -> Seq<char>
        decreases self,
    {
        match *self {
            Rope::Lit(s) => s@,
            Rope::Sym(s) => s@,
            Rope::Nat(n) => nat_chars(n as nat),
            Rope::Int(v) => int_chars(v.value()),
            Rope::IntMod(v, w) => int_chars(v.value() % (pow2(w as nat) as int)),
            Rope::Cat(a, b) => a.chars() + b.chars(),
            Rope::Lower(a) => lower_chars(a.chars()),
            Rope::Quoted(a) => quoted_chars(a.chars()),
            Rope::Below(file, dir) => match stripped_path(file.chars(), dir.chars()) {
                Some(rest) => rest,
                None => file.chars(),
            },
        }
    }
}

/// `str::to_lowercase`: the lower-case form of the text, which depends on the text alone. Of ASCII
/// characters it changes the capitals, each to its small letter.
#[verifier::external_body]
fn lowercase(s: &String) -> (r: String)
    ensures
        is_ascii(s@) ==> r@ == s@.map_values(|c: char| ascii_lower(c)),
        !is_ascii(s@) ==> r@ == lowercase_chars(s@),
{
    s.to_lowercase()
}

/// `Path::strip_prefix`: what is left of the path below the directory, or nothing where the path is
/// not below it. Paths are compared by their components, so it depends on the two texts alone.
#[verifier::external_body]
fn strip_dir(file: &String, dir: &String) -> (r: Option<String>)
    ensures
        match r {
            Some(rest) => stripped_path(file@, dir@) == Some(rest@),
            None => stripped_path(file@, dir@) is None,
        },
{
    match std::path::Path::new(file).strip_prefix(dir) {
        Ok(rest) => Some(rest.to_string_lossy().into_owned()),
        Err(_) => None,
    }
}

/// The `Debug` form of a `str`, which depends on the text alone.
#[verifier::external_body]
fn quoted(s: &String) -> (r: String)
    ensures
        r@ == quoted_chars(s@),
{
    format!("{:?}", s)
}

/// `BigInt::from_slice` and `BigInt`'s `Display`: the decimal form of the integer with the
/// given sign and base-2^32 magnitude.
#[verifier::external_body]
fn big_decimal(negative: bool, digits: &Vec<u32>) -> (r: String)
    ensures
        r@ == int_chars(signed_value(negative, digits@)),
{
    BigInt::from_slice(if negative { Sign::Minus } else { Sign::Plus }, digits).to_string()
}

/// `BigInt::modpow` with exponent one: the residue of the integer modulo a positive modulus,
/// rounded as floor division rounds, so it is never negative. Both come as sign and base-2^32
/// magnitude, and the residue goes back as the magnitude that `BigInt::to_u32_digits` gives.
#[verifier::external_body]
fn big_residue(negative: bool, digits: &Vec<u32>, modulus: &Vec<u32>) -> (r: Vec<u32>)
    requires
        digits_value(modulus@) > 0,
    ensures
        digits_value(r@) == signed_value(negative, digits@) % (digits_value(modulus@) as int),
{
    let value = BigInt::from_slice(if negative { Sign::Minus } else { Sign::Plus }, digits);
    let modulus = BigInt::from_slice(Sign::Plus, modulus);
    value.modpow(&BigInt::from(1), &modulus).to_u32_digits().1
}

/// The base-2^32 digits of 2 to the power `w`.
fn pow2_digits(w: u32) -> (r: Vec<u32>)
    ensures
        digits_value(r@) == pow2(w as nat),
    decreases w,
{
    if w < 32 {
        let top: u32 = 1u32 << w;
        let r: Vec<u32> = vec![top];
        proof {
            vstd::arithmetic::power2::lemma_pow2_strictly_increases(w as nat, 32);
            vstd::arithmetic::power2::lemma2_to64();
            vstd::bits::lemma_u32_shl_is_mul(1, w);
            assert(r@.skip(1) =~= Seq::<u32>::empty());
            assert(digits_value(r@.skip(1)) == 0);
        }
        r
    } else {
        let rest = pow2_digits(w - 32);
        let mut r: Vec<u32> = vec![0];
        let mut i: usize = 0;
        while i < rest.len()
            invariant
                i <= rest.len(),
                r@ == seq![0u32] + rest@.take(i as int),
            decreases rest.len() - i,
        {
            r.push(rest[i]);
            i += 1;
            proof {
                assert(r@ =~= seq![0u32] + rest@.take(i as int));
            }
        }
        proof {
            assert(rest@.take(i as int) =~= rest@);
            assert(r@.skip(1) =~= rest@);
            vstd::arithmetic::power2::lemma_pow2_adds(32, (w - 32) as nat);
            vstd::arithmetic::power2::lemma2_to64();
            assert(digits_value(r@) == 0x1_0000_0000 * digits_value(rest@));
        }
        r
    }
}

/// Whether the magnitude is zero.
fn digits_are_zero(d: &Vec<u32>) -> (r: bool)
    ensures
        r == (digits_value(d@) == 0),
{
    let mut i: usize = d.len();
    proof {
        assert(d@.skip(i as int) =~= Seq::<u32>::empty());
    }
    while i > 0
        invariant
            i <= d.len(),
            digits_value(d@.skip(i as int)) == 0,
        decreases i,
    {
        proof {
            assert(d@.skip(i as int - 1).skip(1) =~= d@.skip(i as int));
        }
        if d[i - 1] != 0 {
            proof {
                lemma_digits_positive(d@, i as int - 1);
            }
            return false;
        }
        i -= 1;
    }
    proof {
        assert(d@.skip(0) =~= d@);
    }
    true
}

/// A magnitude with a digit other than zero is positive.
proof fn lemma_digits_positive(d: Seq<u32>, i: int)
    requires
        0 <= i < d.len(),
        d[i] != 0,
    ensures
        digits_value(d) > 0,
    decreases d.len(),
{
    if i > 0 {
        assert(d.skip(1)[i - 1] == d[i]);
        lemma_digits_positive(d.skip(1), i - 1);
    }
}

/// Whether the value is zero.
pub open spec fn spec_int_is_zero(v: Rc<IntValue>) -> bool {
    v.value() == 0
}

/// Whether the value is zero.
pub fn int_is_zero(v: &Rc<IntValue>) -> (r: bool)
    ensures
        r == spec_int_is_zero(*v),
{
    match &**v {
        IntValue::Small(n) => *n == 0,
        IntValue::Big { negative, digits } => digits_are_zero(digits),
    }
}

/// Whether the value is below zero.
pub open spec fn spec_int_is_negative(v: Rc<IntValue>) -> bool {
    v.value() < 0
}

/// Whether the value is below zero.
pub fn int_is_negative(v: &Rc<IntValue>) -> (r: bool)
    ensures
        r == spec_int_is_negative(*v),
{
    match &**v {
        IntValue::Small(n) => *n < 0,
        IntValue::Big { negative, digits } => *negative && !digits_are_zero(digits),
    }
}

/// Sign and base-2^32 magnitude of a value.
fn int_parts(v: &Rc<IntValue>) -> (r: (bool, Vec<u32>))
    ensures
        signed_value(r.0, r.1@) == v.value(),
{
    match &**v {
        IntValue::Small(n) => {
            let negative = *n < 0;
            let m: u64 = if *n == i64::MIN {
                0x8000_0000_0000_0000
            } else if *n < 0 {
                (-*n) as u64
            } else {
                *n as u64
            };
            let lo: u32 = (m % 0x1_0000_0000) as u32;
            let hi: u32 = (m / 0x1_0000_0000) as u32;
            let d: Vec<u32> = vec![lo, hi];
            proof {
                assert(d@.skip(1).skip(1) =~= Seq::<u32>::empty());
                assert(digits_value(d@.skip(1).skip(1)) == 0);
                assert(d@.skip(1)[0] == hi);
                assert(digits_value(d@.skip(1)) == hi as nat);
                assert(digits_value(d@) == m);
            }
            (negative, d)
        },
        IntValue::Big { negative, digits } => {
            let mut d: Vec<u32> = Vec::new();
            let mut i: usize = 0;
            while i < digits.len()
                invariant
                    i <= digits.len(),
                    d@ == digits@.take(i as int),
                decreases digits.len() - i,
            {
                d.push(digits[i]);
                i += 1;
                proof {
                    assert(d@ =~= digits@.take(i as int));
                }
            }
            proof {
                assert(digits@.take(i as int) =~= digits@);
            }
            (*negative, d)
        },
    }
}

/// The text of one decimal digit.
fn digit_str(d: u64) -> (r: &'static str)
    requires
        d < 10,
    ensures
        r@ == seq![digit_char(d as nat)],
{
    proof {
        reveal_strlit("0"); reveal_strlit("1"); reveal_strlit("2"); reveal_strlit("3");
        reveal_strlit("4"); reveal_strlit("5"); reveal_strlit("6"); reveal_strlit("7");
        reveal_strlit("8"); reveal_strlit("9");
    }
    let r = if d == 0 { "0" } else if d == 1 { "1" } else if d == 2 { "2" } else if d == 3 { "3" }
        else if d == 4 { "4" } else if d == 5 { "5" } else if d == 6 { "6" } else if d == 7 { "7" }
        else if d == 8 { "8" } else { "9" };
    proof {
        assert(r@ =~= seq![digit_char(d as nat)]);
    }
    r
}

/// The decimal form of `n`, appended to `out`.
fn write_nat(n: u64, out: &mut String)
    ensures
        final(out)@ == old(out)@ + nat_chars(n as nat),
    decreases n,
{
    let ghost start = out@;
    if n >= 10 {
        write_nat(n / 10, out);
    }
    out.append(digit_str(n % 10));
    proof {
        assert(n % 10 == (n as nat) % 10);
        assert(out@ =~= start + nat_chars(n as nat));
    }
}

/// The text of the rope, appended to `out`.
fn write_rope(t: &Text, out: &mut String)
    ensures
        final(out)@ == old(out)@ + t.chars(),
    decreases t, 0nat,
{
    let ghost start = out@;
    match &**t {
        Rope::Lit(s) => out.append(s),
        Rope::Sym(s) => out.append(s.as_str()),
        Rope::Nat(n) => write_nat(*n, out),
        Rope::Int(v) => {
            let (negative, digits) = int_parts(v);
            out.append(big_decimal(negative, &digits).as_str());
        },
        Rope::IntMod(v, w) => {
            let (negative, digits) = int_parts(v);
            let modulus = pow2_digits(*w);
            proof {
                vstd::arithmetic::power2::lemma_pow2_pos(*w as nat);
            }
            let residue = big_residue(negative, &digits, &modulus);
            out.append(big_decimal(false, &residue).as_str());
        },
        Rope::Cat(a, b) => {
            write_rope(a, out);
            write_rope(b, out);
            proof {
                assert(start + a.chars() + b.chars() =~= start + (a.chars() + b.chars()));
            }
        },
        Rope::Lower(a) => {
            let inner = rope_string(a);
            out.append(lowercase(&inner).as_str());
        },
        Rope::Quoted(a) => {
            let inner = rope_string(a);
            out.append(quoted(&inner).as_str());
        },
        Rope::Below(file, dir) => {
            let path = rope_string(file);
            let base = rope_string(dir);
            match strip_dir(&path, &base) {
                Some(rest) => out.append(rest.as_str()),
                None => out.append(path.as_str()),
            }
        },
    }
}

/// The text of the rope, as a string of its own.
pub fn rope_string(t: &Text) -> (r: String)
    ensures
        r@ == t.chars(),
    decreases t, 1nat,
{
    let mut out = String::new();
    write_rope(t, &mut out);
    proof {
        assert(Seq::<char>::empty() + t.chars() =~= t.chars());
    }
    out
}

/// Whether two ropes stand for the same text.
pub open spec fn spec_same_text(a: Text, b: Text) -> bool {
    a.chars() == b.chars()
}

/// Whether two ropes stand for the same text.
pub fn same_text(a: &Text, b: &Text) -> (r: bool)
    ensures
        r == spec_same_text(*a, *b),
{
    rope_string(a) == rope_string(b)
}

/// Whether `prefix` starts the text of `t`.
pub open spec fn spec_text_starts_with(t: Text, prefix: Text) -> bool {
    prefix.chars().len() <= t.chars().len() && t.chars().take(prefix.chars().len() as int) == prefix.chars()
}

/// Whether `prefix` starts the text of `t`.
pub fn text_starts_with(t: &Text, prefix: &Text) -> (r: bool)
    ensures
        r == spec_text_starts_with(*t, *prefix),
{
    let s = rope_string(t);
    let p = rope_string(prefix);
    let n: usize = p.as_str().unicode_len();
    if n > s.as_str().unicode_len() {
        return false;
    }
    let mut i: usize = 0;
    while i < n
        invariant
            i <= n,
            n == p@.len(),
            n <= s@.len(),
            s@ == t.chars(),
            p@ == prefix.chars(),
            s@.take(i as int) == p@.take(i as int),
        decreases n - i,
    {
        if s.as_str().get_char(i) != p.as_str().get_char(i) {
            proof {
                assert(t.chars().take(n as int)[i as int] == s@[i as int]);
            }
            return false;
        }
        proof {
            assert(s@.take(i as int + 1) =~= s@.take(i as int).push(s@[i as int]));
            assert(p@.take(i as int + 1) =~= p@.take(i as int).push(p@[i as int]));
        }
        i += 1;
    }
    proof {
        assert(p@.take(n as int) =~= p@);
    }
    true
}

/// Whether one text comes before another in the order of their characters' codes.
pub open spec fn chars_less(a: Seq<char>, b: Seq<char>) -> bool
    decreases a.len(),
{
    if b.len() == 0 {
        false
    } else if a.len() == 0 {
        true
    } else if a[0] == b[0] {
        chars_less(a.skip(1), b.skip(1))
    } else {
        (a[0] as u32) < (b[0] as u32)
    }
}

/// Whether one text comes before another.
pub open spec fn spec_text_less(a: Text, b: Text) -> bool {
    chars_less(a.chars(), b.chars())
}

/// Whether one text comes before another.
pub fn text_less(a: &Text, b: &Text) -> (r: bool)
    ensures
        r == spec_text_less(*a, *b),
{
    let x = rope_string(a);
    let y = rope_string(b);
    let m: usize = x.as_str().unicode_len();
    let n: usize = y.as_str().unicode_len();
    let mut i: usize = 0;
    proof {
        assert(x@.skip(0) =~= x@);
        assert(y@.skip(0) =~= y@);
    }
    while i < m && i < n
        invariant
            i <= m,
            i <= n,
            m == x@.len(),
            n == y@.len(),
            chars_less(x@, y@) == chars_less(x@.skip(i as int), y@.skip(i as int)),
            x@ == a.chars(),
            y@ == b.chars(),
        decreases m - i,
    {
        let c = x.as_str().get_char(i);
        let d = y.as_str().get_char(i);
        if c != d {
            return (c as u32) < (d as u32);
        }
        proof {
            assert(x@.skip(i as int).skip(1) =~= x@.skip(i as int + 1));
            assert(y@.skip(i as int).skip(1) =~= y@.skip(i as int + 1));
        }
        i += 1;
    }
    i < n
}

/// A fixed text.
#[verifier::opaque]
pub open spec fn spec_lit(s: &'static str) -> Text
{
    Rc::new(Rope::Lit(s))
}

/// A fixed text.
pub fn lit(s: &'static str) -> (out: Text)
    ensures
        out == spec_lit(s),
{
    proof {
        reveal(spec_lit);
    }
    Rc::new(Rope::Lit(s))
}

/// A text given at run time.
pub fn sym(s: &str) -> (r: Text)
    ensures
        r.chars() == s@,
{
    Rc::new(Rope::Sym(Rc::new(s.to_owned())))
}

/// The decimal form of a number.
#[verifier::opaque]
pub open spec fn spec_num(n: u64) -> Text
{
    Rc::new(Rope::Nat(n))
}

/// The decimal form of a number.
pub fn num(n: u64) -> (out: Text)
    ensures
        out == spec_num(n),
{
    proof {
        reveal(spec_num);
    }
    Rc::new(Rope::Nat(n))
}

/// The decimal form of a width.
#[verifier::opaque]
pub open spec fn spec_width_text(w: u32) -> Text
{
    Rc::new(Rope::Nat(w as u64))
}

/// The decimal form of a width.
pub fn width_text(w: u32) -> (out: Text)
    ensures
        out == spec_width_text(w),
{
    proof {
        reveal(spec_width_text);
    }
    Rc::new(Rope::Nat(w as u64))
}

/// One text after another.
#[verifier::opaque]
pub open spec fn spec_cat(a: Text, b: Text) -> Text
{
    Rc::new(Rope::Cat(a, b))
}

/// One text after another.
pub fn cat(a: Text, b: Text) -> (out: Text)
    ensures
        out == spec_cat(a, b),
{
    proof {
        reveal(spec_cat);
    }
    Rc::new(Rope::Cat(a, b))
}

/// Three texts in a row.
#[verifier::opaque]
pub open spec fn spec_cat3(a: Text, b: Text, c: Text) -> Text
{
    spec_cat(a, spec_cat(b, c))
}

/// Three texts in a row.
pub fn cat3(a: Text, b: Text, c: Text) -> (out: Text)
    ensures
        out == spec_cat3(a, b, c),
{
    proof {
        reveal(spec_cat3);
    }
    cat(a, cat(b, c))
}

/// Four texts in a row.
#[verifier::opaque]
pub open spec fn spec_cat4(a: Text, b: Text, c: Text, d: Text) -> Text
{
    spec_cat(a, spec_cat3(b, c, d))
}

/// Four texts in a row.
pub fn cat4(a: Text, b: Text, c: Text, d: Text) -> (out: Text)
    ensures
        out == spec_cat4(a, b, c, d),
{
    proof {
        reveal(spec_cat4);
    }
    cat(a, cat3(b, c, d))
}

/// Five texts in a row.
#[verifier::opaque]
pub open spec fn spec_cat5(a: Text, b: Text, c: Text, d: Text, e: Text) -> Text
{
    spec_cat(a, spec_cat4(b, c, d, e))
}

/// Five texts in a row.
pub fn cat5(a: Text, b: Text, c: Text, d: Text, e: Text) -> (out: Text)
    ensures
        out == spec_cat5(a, b, c, d, e),
{
    proof {
        reveal(spec_cat5);
    }
    cat(a, cat4(b, c, d, e))
}

/// Whether the text is the given one.
#[verifier::opaque]
pub open spec fn spec_text_is(a: Text, s: &'static str) -> bool
{
    spec_same_text(a, spec_lit(s))
}

/// Whether the text is the given one.
pub fn text_is(a: &Text, s: &'static str) -> (out: bool)
    ensures
        out == spec_text_is(*a, s),
{
    proof {
        reveal(spec_text_is);
    }
    same_text(a, &lit(s))
}

} // verus!
