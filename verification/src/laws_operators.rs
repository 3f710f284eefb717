//! The operators, types, literals and conversions of generated code.

use crate::text::{IntValue, int_chars, nat_chars};
use crate::ir::{BinOp, PointerKind, Type, TypeT, UnOp};
use crate::doc::Doc;
use crate::env::{Env, spec_vtype_whnf};
use crate::emit_base::{
    spec_abbrev, spec_bool_binop, spec_emit_binop, spec_emit_machine_int_literal, spec_emit_unop,
    spec_float_binop, spec_get_float_mod, spec_get_int_mod, spec_get_uint_wrap_mod,
    spec_int_binop, spec_machine_int_suffix, spec_math_binop, spec_pointer_binop,
    spec_ptrdiff_binop, spec_size_binop, spec_slprop_binop, spec_tick,
};
use crate::emit_types::spec_int_type;
use crate::emit_exprs::{
    spec_cast_plain, spec_cast_to_bool, spec_cast_to_float, spec_cast_to_int, spec_cast_to_math,
    spec_cast_to_ptrdiff, spec_cast_to_size, spec_cast_to_slprop, spec_of_int,
};
use crate::laws_text::flat;
use std::rc::Rc;
use vstd::arithmetic::power2::pow2;
use vstd::prelude::*;

verus! {

broadcast use crate::laws_text::group_flat;

/// The F* module of a machine integer type, if there is one.
pub open spec fn int_module(signed: bool, width: u32) -> Option<Seq<char>> {
    if signed {
        if width == 8 {
            Some("Int8"@)
        } else if width == 16 {
            Some("Int16"@)
        } else if width == 32 {
            Some("Int32"@)
        } else if width == 64 {
            Some("Int64"@)
        } else {
            None
        }
    } else {
        if width == 8 {
            Some("UInt8"@)
        } else if width == 16 {
            Some("UInt16"@)
        } else if width == 32 {
            Some("UInt32"@)
        } else if width == 64 {
            Some("UInt64"@)
        } else {
            None
        }
    }
}

/// The library of a floating-point type, if there is one.
pub open spec fn float_library(width: u32) -> Option<Seq<char>> {
    if width == 32 {
        Some("Pulse.Lib.C.float32"@)
    } else if width == 64 {
        Some("Pulse.Lib.C.float64"@)
    } else {
        None
    }
}

/// The library of wrapping arithmetic on an unsigned type, if there is one.
pub open spec fn wrapping_library(width: u32) -> Option<Seq<char>> {
    if width == 8 {
        Some("Pulse.Lib.C.UInt8"@)
    } else if width == 16 {
        Some("Pulse.Lib.C.UInt16"@)
    } else if width == 32 {
        Some("Pulse.Lib.C.UInt32"@)
    } else if width == 64 {
        Some("Pulse.Lib.C.UInt64"@)
    } else {
        None
    }
}

/// Integers, floating-point numbers and unsigned arithmetic have the modules of their widths.
pub proof fn law_modules_follow_widths(signed: bool, width: u32)
    ensures
        spec_get_int_mod(signed, width) is Some == int_module(signed, width) is Some,
        spec_get_int_mod(signed, width) matches Some(m) ==> Some(m@) == int_module(signed, width),
        spec_get_float_mod(width) is Some == float_library(width) is Some,
        spec_get_float_mod(width) matches Some(m) ==> Some(m@) == float_library(width),
        spec_get_uint_wrap_mod(width) is Some == wrapping_library(width) is Some,
        spec_get_uint_wrap_mod(width) matches Some(m) ==> Some(m@) == wrapping_library(width),
{
    reveal(spec_get_int_mod);
    reveal(spec_get_float_mod);
    reveal(spec_get_uint_wrap_mod);
}

/// Whether a document has the given text, where there is one, and there is no document otherwise.
pub open spec fn reads(d: Option<Doc>, text: Option<Seq<char>>) -> bool {
    match (d, text) {
        (Some(x), Some(t)) => flat(x) == t,
        (None, None) => true,
        _ => false,
    }
}

/// A function of a module as an infix operator.
pub open spec fn infix(module: Option<Seq<char>>, name: Seq<char>) -> Option<Seq<char>> {
    match module {
        Some(m) => Some("`"@ + m + name + "`"@),
        None => None,
    }
}

/// The operator on machine integers: signed arithmetic must not overflow, and unsigned arithmetic
/// wraps.
pub open spec fn int_operator(op: BinOp, signed: bool, width: u32) -> Option<Seq<char>> {
    match op {
        BinOp::Eq => Some("="@),
        BinOp::LEq => infix(int_module(signed, width), ".lte"@),
        BinOp::Lt => infix(int_module(signed, width), ".lt"@),
        BinOp::Div => infix(int_module(signed, width), ".div"@),
        BinOp::Mod => infix(int_module(signed, width), ".rem"@),
        BinOp::BitAnd => infix(int_module(signed, width), ".logand"@),
        BinOp::BitOr => infix(int_module(signed, width), ".logor"@),
        BinOp::BitXor => infix(int_module(signed, width), ".logxor"@),
        BinOp::Shl => infix(int_module(signed, width), ".shift_left"@),
        BinOp::Shr => infix(int_module(signed, width), ".shift_right"@),
        BinOp::Add => if signed {
            infix(int_module(signed, width), ".add"@)
        } else {
            infix(wrapping_library(width), ".add_wrap"@)
        },
        BinOp::Sub => if signed {
            infix(int_module(signed, width), ".sub"@)
        } else {
            infix(wrapping_library(width), ".sub_wrap"@)
        },
        BinOp::Mul => if signed {
            infix(int_module(signed, width), ".mul"@)
        } else {
            infix(wrapping_library(width), ".mul_wrap"@)
        },
        BinOp::Elvis => Some("`Pulse.Lib.C.Elvis.elvis_"@ + c_name(signed, width) + "`"@),
        _ => None,
    }
}

/// The name of a machine integer type in C: `int32` and the like.
pub open spec fn c_name(signed: bool, width: u32) -> Seq<char> {
    if signed {
        "int"@ + nat_chars(width as nat)
    } else {
        "uint"@ + nat_chars(width as nat)
    }
}

/// The operator on `size_t`.
pub open spec fn size_operator(op: BinOp) -> Option<Seq<char>> {
    match op {
        BinOp::Eq => Some("="@),
        BinOp::LEq => Some("`SizeT.lte`"@),
        BinOp::Lt => Some("`SizeT.lt`"@),
        BinOp::Mul => Some("`SizeT.mul`"@),
        BinOp::Div => Some("`SizeT.div`"@),
        BinOp::Mod => Some("`SizeT.rem`"@),
        BinOp::Add => Some("`SizeT.add`"@),
        BinOp::Sub => Some("`SizeT.sub`"@),
        BinOp::Elvis => Some("`Pulse.Lib.C.Elvis.elvis_size_t`"@),
        _ => None,
    }
}

/// The operator on `ptrdiff_t`.
pub open spec fn ptrdiff_operator(op: BinOp) -> Option<Seq<char>> {
    match op {
        BinOp::Eq => Some("="@),
        BinOp::LEq => Some("`Pulse.Lib.C.PtrdiffT.lte`"@),
        BinOp::Lt => Some("`Pulse.Lib.C.PtrdiffT.lt`"@),
        BinOp::Mul => Some("`Pulse.Lib.C.PtrdiffT.mul`"@),
        BinOp::Div => Some("`Pulse.Lib.C.PtrdiffT.div`"@),
        BinOp::Mod => Some("`Pulse.Lib.C.PtrdiffT.rem`"@),
        BinOp::Add => Some("`Pulse.Lib.C.PtrdiffT.add`"@),
        BinOp::Sub => Some("`Pulse.Lib.C.PtrdiffT.sub`"@),
        _ => None,
    }
}

/// The operator on floating-point numbers.
pub open spec fn float_operator(op: BinOp, width: u32) -> Option<Seq<char>> {
    match op {
        BinOp::Eq => infix(float_library(width), "_eq"@),
        BinOp::LEq => infix(float_library(width), "_lte"@),
        BinOp::Lt => infix(float_library(width), "_lt"@),
        BinOp::Mul => infix(float_library(width), "_mul"@),
        BinOp::Div => infix(float_library(width), "_div"@),
        BinOp::Add => infix(float_library(width), "_add"@),
        BinOp::Sub => infix(float_library(width), "_sub"@),
        _ => None,
    }
}

/// The operator on mathematical integers.
pub open spec fn math_operator(op: BinOp) -> Option<Seq<char>> {
    match op {
        BinOp::Eq => Some("="@),
        BinOp::LEq => Some("<="@),
        BinOp::Lt => Some("<"@),
        BinOp::Mul => Some("*"@),
        BinOp::Div => Some("/"@),
        BinOp::Mod => Some("%"@),
        BinOp::Add => Some("+"@),
        BinOp::Sub => Some("-"@),
        _ => None,
    }
}

/// The operator on truth values.
pub open spec fn bool_operator(op: BinOp) -> Option<Seq<char>> {
    match op {
        BinOp::Eq => Some("="@),
        BinOp::LogAnd => Some("&&"@),
        BinOp::LogOr => Some("||"@),
        BinOp::Implies => Some("==>"@),
        BinOp::Mul => Some("&&"@),
        BinOp::Elvis => Some("||"@),
        _ => None,
    }
}

/// The operator on propositions of separation logic.
pub open spec fn slprop_operator(op: BinOp) -> Option<Seq<char>> {
    match op {
        BinOp::Eq => Some("=="@),
        BinOp::LogAnd => Some("**"@),
        BinOp::Implies => Some("`Pulse.Lib.Trade.trade`"@),
        _ => None,
    }
}

/// The operator on a kind of pointer.
pub open spec fn pointer_operator(op: BinOp, kind: PointerKind) -> Option<Seq<char>> {
    match op {
        BinOp::Eq => match kind {
            PointerKind::ArrayPtr => Some("`Pulse.Lib.C.Array.arrayptr_eq`"@),
            PointerKind::Core => Some("`Pulse.Lib.C.CoreRef.core_ref_eq`"@),
            PointerKind::Array => Some("="@),
            PointerKind::Ref => Some("`Pulse.Lib.C.Ref.ref_eq`"@),
            PointerKind::Unknown => Some("`Pulse.Lib.C.Ref.ref_eq`"@),
        },
        BinOp::LEq => if kind == PointerKind::ArrayPtr {
            Some("`Pulse.Lib.C.Array.arrayptr_lte`"@)
        } else {
            None
        },
        BinOp::Lt => if kind == PointerKind::ArrayPtr {
            Some("`Pulse.Lib.C.Array.arrayptr_lt`"@)
        } else {
            None
        },
        BinOp::Elvis => if kind == PointerKind::Ref || kind == PointerKind::Unknown {
            Some("`Pulse.Lib.C.Elvis.elvis_ref`"@)
        } else {
            None
        },
        _ => None,
    }
}

/// The operator on values of a shape.
pub open spec fn operator_on(op: BinOp, shape: TypeT) -> Option<Seq<char>> {
    match shape {
        TypeT::Void => if op == BinOp::Eq {
            Some("=="@)
        } else {
            None
        },
        TypeT::SLProp => slprop_operator(op),
        TypeT::Bool => bool_operator(op),
        TypeT::Int { signed, width } => int_operator(op, signed, width),
        TypeT::SizeT => size_operator(op),
        TypeT::PtrdiffT => ptrdiff_operator(op),
        TypeT::Float { width } => float_operator(op, width),
        TypeT::SpecInt => math_operator(op),
        TypeT::SpecNat => math_operator(op),
        TypeT::Pointer(_, kind) => pointer_operator(op, kind),
        _ => None,
    }
}

/// Every C operator on machine integers becomes the F* operator of its name on the type of its
/// width.
pub proof fn law_integer_operators(op: BinOp, signed: bool, width: u32)
    ensures
        reads(spec_int_binop(op, signed, width), int_operator(op, signed, width)),
{
    law_modules_follow_widths(signed, width);
    reveal(spec_int_binop);
    reveal(spec_tick);
    reveal(spec_abbrev);
}

/// Every C operator becomes the F* operator on the shape of its operands, and there is none where
/// F* has none.
pub proof fn law_operators_follow_shapes(env: Env, op: BinOp, ty: Rc<Type>)
    ensures
        reads(spec_emit_binop(env, op, ty), operator_on(op, spec_vtype_whnf(env, ty).val)),
{
    reveal(spec_emit_binop);
    reveal(spec_tick);
    match spec_vtype_whnf(env, ty).val {
        TypeT::Int { signed, width } => law_integer_operators(op, signed, width),
        TypeT::Float { width } => {
            law_modules_follow_widths(true, width);
            reveal(spec_float_binop);
        },
        TypeT::SLProp => {
            reveal(spec_slprop_binop);
        },
        TypeT::Bool => {
            reveal(spec_bool_binop);
        },
        TypeT::SizeT => {
            reveal(spec_size_binop);
        },
        TypeT::PtrdiffT => {
            reveal(spec_ptrdiff_binop);
        },
        TypeT::Pointer(_, _) => {
            reveal(spec_pointer_binop);
        },
        _ => {
            reveal(spec_math_binop);
        },
    }
}

/// Different operators on a signed integer type of known width are different operators in F*.
pub proof fn law_signed_operators_differ(op: BinOp, other: BinOp, width: u32)
    requires
        op != other,
        width == 8 || width == 16 || width == 32 || width == 64,
        !(op is LogAnd || op is LogOr || op is Implies),
        !(other is LogAnd || other is LogOr || other is Implies),
    ensures
        spec_int_binop(op, true, width) matches Some(a) && spec_int_binop(other, true, width) matches Some(b) && flat(a) != flat(b),
{
    law_integer_operators(op, true, width);
    law_integer_operators(other, true, width);
    reveal_strlit("=");
    reveal_strlit("`");
    reveal_strlit("Int8");
    reveal_strlit("Int16");
    reveal_strlit("Int32");
    reveal_strlit("Int64");
    reveal_strlit("`Pulse.Lib.C.Elvis.elvis_");
    let m = int_module(true, width)->Some_0;
    lemma_suffixes_differ(op, other, m);
}

/// The name of the function that an operator is.
spec fn operator_suffix(op: BinOp) -> Seq<char> {
    match op {
        BinOp::LEq => ".lte"@,
        BinOp::Lt => ".lt"@,
        BinOp::Div => ".div"@,
        BinOp::Mod => ".rem"@,
        BinOp::BitAnd => ".logand"@,
        BinOp::BitOr => ".logor"@,
        BinOp::BitXor => ".logxor"@,
        BinOp::Shl => ".shift_left"@,
        BinOp::Shr => ".shift_right"@,
        BinOp::Add => ".add"@,
        BinOp::Sub => ".sub"@,
        _ => ".mul"@,
    }
}

/// Operators by different names are different.
proof fn lemma_suffixes_differ(op: BinOp, other: BinOp, m: Seq<char>)
    requires
        op != other,
        m.len() <= 5,
        m.len() >= 4,
        m[0] == 'I',
    ensures
        ({
            let named = |o: BinOp| !(o is Eq || o is Elvis || o is LogAnd || o is LogOr || o is Implies);
            &&& named(op) && named(other) ==> "`"@ + m + operator_suffix(op) + "`"@ != "`"@ + m + operator_suffix(other) + "`"@
            &&& named(op) ==> "`"@ + m + operator_suffix(op) + "`"@ != "="@
            &&& named(other) ==> "`"@ + m + operator_suffix(other) + "`"@ != "="@
            &&& forall|c: Seq<char>| #![auto] "`Pulse.Lib.C.Elvis.elvis_"@ + c + "`"@ != "="@
            &&& named(op) ==> forall|c: Seq<char>| #![auto] "`"@ + m + operator_suffix(op) + "`"@ != "`Pulse.Lib.C.Elvis.elvis_"@ + c + "`"@
            &&& named(other) ==> forall|c: Seq<char>| #![auto] "`"@ + m + operator_suffix(other) + "`"@ != "`Pulse.Lib.C.Elvis.elvis_"@ + c + "`"@
        }),
{
    reveal_strlit("=");
    reveal_strlit("`");
    reveal_strlit("`Pulse.Lib.C.Elvis.elvis_");
    reveal_strlit(".lte");
    reveal_strlit(".lt");
    reveal_strlit(".div");
    reveal_strlit(".rem");
    reveal_strlit(".logand");
    reveal_strlit(".logor");
    reveal_strlit(".logxor");
    reveal_strlit(".shift_left");
    reveal_strlit(".shift_right");
    reveal_strlit(".add");
    reveal_strlit(".sub");
    reveal_strlit(".mul");
    let x = "`"@ + m + operator_suffix(op) + "`"@;
    let y = "`"@ + m + operator_suffix(other) + "`"@;
    let k = (1 + m.len()) as int;
    assert(x.subrange(k, x.len() - 1) =~= operator_suffix(op));
    assert(y.subrange(k, y.len() - 1) =~= operator_suffix(other));
    assert(x[0] == '`' && y[0] == '`');
    assert(x[1] == 'I' && y[1] == 'I');
    assert("="@[0] == '=');
    assert forall|c: Seq<char>| #![auto] "`Pulse.Lib.C.Elvis.elvis_"@ + c + "`"@ != "="@ by {
        assert(("`Pulse.Lib.C.Elvis.elvis_"@ + c + "`"@)[0] == '`');
    }
    assert forall|c: Seq<char>| #![auto] x != "`Pulse.Lib.C.Elvis.elvis_"@ + c + "`"@ by {
        assert(("`Pulse.Lib.C.Elvis.elvis_"@ + c + "`"@)[1] == 'P');
    }
    assert forall|c: Seq<char>| #![auto] y != "`Pulse.Lib.C.Elvis.elvis_"@ + c + "`"@ by {
        assert(("`Pulse.Lib.C.Elvis.elvis_"@ + c + "`"@)[1] == 'P');
    }
    let named = |o: BinOp| !(o is Eq || o is Elvis || o is LogAnd || o is LogOr || o is Implies);
    if named(op) && named(other) {
        let a = operator_suffix(op);
        let b = operator_suffix(other);
        assert(a.len() != b.len() || a[1] != b[1] || a[4] != b[4]);
    }
}

/// The unary operator on values of a shape.
pub open spec fn unary_operator_on(op: UnOp, shape: TypeT) -> Option<Seq<char>> {
    match op {
        UnOp::Not => Some("not"@),
        UnOp::Neg => match shape {
            TypeT::Int { signed, width } => match int_module(signed, width) {
                Some(m) => Some(if signed {
                    m + ".sub "@ + m + ".zero"@
                } else {
                    m + ".minus"@
                }),
                None => None,
            },
            TypeT::SpecInt => Some("op_Tilde_Minus"@),
            TypeT::SpecNat => Some("op_Tilde_Minus"@),
            TypeT::Float { width } => match float_library(width) {
                Some(m) => Some(m + "_neg"@),
                None => None,
            },
            _ => None,
        },
        UnOp::BitNot => match shape {
            TypeT::Int { signed, width } => match int_module(signed, width) {
                Some(m) => Some(m + ".lognot"@),
                None => None,
            },
            _ => None,
        },
    }
}

/// Every unary operator becomes the F* function on the shape of its operand.
pub proof fn law_unary_operators_follow_shapes(env: Env, op: UnOp, ty: Rc<Type>)
    ensures
        reads(spec_emit_unop(env, op, ty), unary_operator_on(op, spec_vtype_whnf(env, ty).val)),
{
    reveal(spec_emit_unop);
    match spec_vtype_whnf(env, ty).val {
        TypeT::Int { signed, width } => law_modules_follow_widths(signed, width),
        TypeT::Float { width } => law_modules_follow_widths(true, width),
        _ => {},
    }
}

/// The suffix of literals of a machine integer type.
pub open spec fn literal_suffix(signed: bool, width: u32) -> Option<Seq<char>> {
    if width == 8 {
        Some(if signed { "y"@ } else { "uy"@ })
    } else if width == 16 {
        Some(if signed { "s"@ } else { "us"@ })
    } else if width == 32 {
        Some(if signed { "l"@ } else { "ul"@ })
    } else if width == 64 {
        Some(if signed { "L"@ } else { "UL"@ })
    } else {
        None
    }
}

/// The value that a literal of a machine integer type stands for: a signed one itself, and an
/// unsigned one its residue modulo two to the width.
pub open spec fn literal_value(val: Rc<IntValue>, signed: bool, width: u32) -> int {
    if signed {
        val.value()
    } else {
        val.value() % (pow2(width as nat) as int)
    }
}

/// An integer literal is its value with the suffix of its type, in parentheses where it is
/// negative; without a suffix it is converted from a mathematical integer.
pub proof fn law_integer_literals(val: Rc<IntValue>, signed: bool, width: u32)
    ensures
        ({
            let digits = int_chars(literal_value(val, signed, width));
            flat(spec_emit_machine_int_literal(val, signed, width)) == (match literal_suffix(signed, width) {
                Some(s) => if signed && val.value() < 0 {
                    "("@ + digits + s + ")"@
                } else {
                    digits + s
                },
                None => if signed {
                    "(Int"@ + nat_chars(width as nat) + ".int_to_t "@ + digits + ")"@
                } else {
                    "(UInt"@ + nat_chars(width as nat) + ".uint_to_t "@ + digits + ")"@
                },
            })
        }),
{
    reveal(spec_emit_machine_int_literal);
    reveal(spec_machine_int_suffix);
}

/// The conversion of a value with the given text from one shape to another, where it needs no name:
/// what becomes of it, or nothing where there is no such conversion.
pub open spec fn converted(from: TypeT, to: TypeT, v: Seq<char>) -> Option<Seq<char>> {
    match to {
        TypeT::Bool => converted_to_bool(from, v),
        TypeT::Int { signed, width } => converted_to_int(from, signed, width, v),
        TypeT::SpecInt => converted_to_math(from, false, v),
        TypeT::SpecNat => converted_to_math(from, true, v),
        TypeT::SLProp => match from {
            TypeT::Bool => Some("(with_pure "@ + v + ")"@),
            TypeT::SpecInt | TypeT::SpecNat => Some("(with_pure ("@ + v + " <> 0))"@),
            _ => None,
        },
        TypeT::SizeT => converted_to_size(from, v),
        TypeT::Float { width } => converted_to_float(from, width, v),
        TypeT::PtrdiffT => match from {
            TypeT::SizeT => Some("(Pulse.Lib.C.PtrdiffT.of_int (SizeT.v "@ + v + "))"@),
            TypeT::Int { signed, width } => match int_module(signed, width) {
                Some(m) => Some("(Pulse.Lib.C.PtrdiffT.of_int ("@ + m + ".v "@ + v + "))"@),
                None => None,
            },
            TypeT::Float { width } => match float_library(width) {
                Some(m) => Some("(Pulse.Lib.C.PtrdiffT.of_int ("@ + m + "_to_int "@ + v + "))"@),
                None => None,
            },
            TypeT::PtrdiffT => Some(v),
            _ => None,
        },
        _ => None,
    }
}

/// A conversion to a truth value: whether the value is not zero.
pub open spec fn converted_to_bool(from: TypeT, v: Seq<char>) -> Option<Seq<char>> {
    match from {
        TypeT::SpecInt | TypeT::SpecNat => Some("("@ + v + " <> 0)"@),
        TypeT::Int { signed, width } => Some("("@ + c_name(signed, width) + "_to_bool "@ + v + ")"@),
        TypeT::Float { width } => match float_library(width) {
            Some(m) => Some("("@ + m + "_to_bool "@ + v + ")"@),
            None => None,
        },
        TypeT::SizeT => Some("((SizeT.v "@ + v + ") <> 0)"@),
        TypeT::Pointer(_, PointerKind::Array) => Some("(not (array_is_null "@ + v + "))"@),
        TypeT::Pointer(_, PointerKind::ArrayPtr) => Some("(not (array_is_null "@ + v + "))"@),
        TypeT::Pointer(_, PointerKind::Core) => Some("(not (Pulse.Lib.C.CoreRef.core_is_null "@ + v + "))"@),
        TypeT::Pointer(_, _) => Some("(not (Pulse.Lib.Reference.is_null "@ + v + "))"@),
        TypeT::FnPtr { .. } => Some("(not (Pulse.Lib.C.FuncPtr.is_null "@ + v + "))"@),
        _ => None,
    }
}

/// The conversion of a mathematical integer to a machine integer.
pub open spec fn from_math(signed: bool) -> Seq<char> {
    if signed {
        ".int_to_t"@
    } else {
        ".uint_to_t"@
    }
}

/// A conversion to a machine integer.
pub open spec fn converted_to_int(from: TypeT, signed: bool, width: u32, v: Seq<char>) -> Option<Seq<char>> {
    let ty = (if signed { "Int"@ } else { "UInt"@ }) + nat_chars(width as nat) + ".t"@;
    match from {
        TypeT::Bool => Some("(bool_to_"@ + c_name(signed, width) + " "@ + v + ")"@),
        TypeT::Int { signed: s1, width: w1 } => if s1 == signed && w1 == width {
            Some(v)
        } else {
            Some("(id #"@ + ty + " (Int.Cast."@ + c_name(s1, w1) + "_to_"@ + c_name(signed, width) + " "@ + v + "))"@)
        },
        TypeT::Float { width: fw } => match (float_library(fw), int_module(signed, width)) {
            (Some(fm), Some(im)) => Some("("@ + im + from_math(signed) + " ("@ + fm + "_to_int "@ + v + "))"@),
            _ => None,
        },
        TypeT::SizeT => if !signed && width == 64 {
            Some("(SizeT.sizet_to_uint64 "@ + v + ")"@)
        } else if !signed && width == 32 {
            Some("(SizeT.sizet_to_uint32 "@ + v + ")"@)
        } else if int_module(signed, width) is Some {
            Some("(id #"@ + ty + " (Int.Cast.uint64_to_"@ + c_name(signed, width) + " (SizeT.sizet_to_uint64 "@ + v + ")))"@)
        } else {
            None
        },
        TypeT::SpecInt | TypeT::SpecNat => match int_module(signed, width) {
            Some(m) => Some("("@ + m + from_math(signed) + " "@ + v + ")"@),
            None => None,
        },
        TypeT::PtrdiffT => match int_module(signed, width) {
            Some(m) => Some("("@ + m + from_math(signed) + " (Pulse.Lib.C.PtrdiffT.v "@ + v + "))"@),
            None => None,
        },
        _ => None,
    }
}

/// A conversion to a mathematical integer.
pub open spec fn converted_to_math(from: TypeT, to_nat: bool, v: Seq<char>) -> Option<Seq<char>> {
    match from {
        TypeT::Bool => Some("(bool_to_int "@ + v + ")"@),
        TypeT::SpecNat => if to_nat {
            None
        } else {
            Some("(id #int "@ + v + ")"@)
        },
        TypeT::SpecInt => if to_nat {
            Some("(id #nat "@ + v + ")"@)
        } else {
            None
        },
        TypeT::Int { signed, width } => match int_module(signed, width) {
            Some(m) => Some("(id #int ("@ + m + ".v "@ + v + "))"@),
            None => None,
        },
        TypeT::SizeT => Some("(SizeT.v "@ + v + ")"@),
        _ => None,
    }
}

/// A conversion to `size_t`.
pub open spec fn converted_to_size(from: TypeT, v: Seq<char>) -> Option<Seq<char>> {
    match from {
        TypeT::Bool => Some("(if "@ + v + " then 1sz else 0sz)"@),
        TypeT::Int { signed, width } => match int_module(signed, width) {
            Some(m) => Some("(SizeT.uint_to_t ("@ + m + ".v "@ + v + "))"@),
            None => None,
        },
        TypeT::SpecInt | TypeT::SpecNat => Some("(SizeT.uint_to_t "@ + v + ")"@),
        TypeT::PtrdiffT => Some("(SizeT.uint_to_t (Pulse.Lib.C.PtrdiffT.v "@ + v + "))"@),
        TypeT::Float { width } => match float_library(width) {
            Some(m) => Some("(SizeT.uint_to_t ("@ + m + "_to_int "@ + v + "))"@),
            None => None,
        },
        _ => None,
    }
}

/// A conversion to a floating-point number.
pub open spec fn converted_to_float(from: TypeT, to: u32, v: Seq<char>) -> Option<Seq<char>> {
    match from {
        TypeT::Float { width } => if width == 32 && to == 64 {
            Some("(Pulse.Lib.C.float64_of_int (Pulse.Lib.C.float32_to_int "@ + v + "))"@)
        } else if width == 64 && to == 32 {
            Some("(Pulse.Lib.C.float32_of_int (Pulse.Lib.C.float64_to_int "@ + v + "))"@)
        } else if width == to {
            Some(v)
        } else {
            None
        },
        _ => match float_library(to) {
            Some(m) => match from {
                TypeT::Bool => Some("("@ + m + "_of_bool "@ + v + ")"@),
                TypeT::Int { signed, width } => match int_module(signed, width) {
                    Some(im) => Some("("@ + m + "_of_int ("@ + im + ".v "@ + v + "))"@),
                    None => None,
                },
                TypeT::SizeT => Some("("@ + m + "_of_int (SizeT.v "@ + v + "))"@),
                TypeT::PtrdiffT => Some("("@ + m + "_of_int (Pulse.Lib.C.PtrdiffT.v "@ + v + "))"@),
                _ => None,
            },
            None => None,
        },
    }
}

/// The texts of literals that are written in pieces.
proof fn lemma_pieces()
    ensures
        "(with_pure "@ == "("@ + "with_pure"@ + " "@,
        "(with_pure ("@ == "("@ + "with_pure"@ + " "@ + "("@,
        " <> 0))"@ == " "@ + "<>"@ + " "@ + "0"@ + ")"@ + ")"@,
        " <> 0)"@ == " "@ + "<>"@ + " "@ + "0"@ + ")"@,
        "(Pulse.Lib.C.PtrdiffT.of_int (SizeT.v "@ == "("@ + "Pulse.Lib.C.PtrdiffT.of_int (SizeT.v"@ + " "@,
        "))"@ == ")"@ + ")"@,
        ")))"@ == ")"@ + ")"@ + ")"@,
        ".v "@ == ".v"@ + " "@,
        "_to_int "@ == "_to_int"@ + " "@,
        "(Pulse.Lib.C.PtrdiffT.of_int ("@ == "("@ + "Pulse.Lib.C.PtrdiffT.of_int ("@,
        "_to_bool "@ == "_to_bool"@ + " "@,
        "((SizeT.v "@ == "("@ + "("@ + "SizeT.v"@ + " "@,
        ") <> 0)"@ == ")"@ + " "@ + "<>"@ + " "@ + "0"@ + ")"@,
        "(not (array_is_null "@ == "("@ + "not"@ + " "@ + "("@ + "array_is_null"@ + " "@,
        "(not (Pulse.Lib.C.CoreRef.core_is_null "@ == "("@ + "not"@ + " "@ + "("@ + "Pulse.Lib.C.CoreRef.core_is_null"@ + " "@,
        "(not (Pulse.Lib.Reference.is_null "@ == "("@ + "not"@ + " "@ + "("@ + "Pulse.Lib.Reference.is_null"@ + " "@,
        "(not (Pulse.Lib.C.FuncPtr.is_null "@ == "("@ + "not"@ + " "@ + "("@ + "Pulse.Lib.C.FuncPtr.is_null"@ + " "@,
        "(bool_to_"@ == "("@ + "bool_to_"@,
        "(id #"@ == "("@ + "id"@ + " "@ + "#"@,
        " (Int.Cast."@ == " "@ + "("@ + "Int.Cast."@,
        " (Int.Cast.uint64_to_"@ == " "@ + "("@ + "Int.Cast.uint64_to_"@,
        "(SizeT.sizet_to_uint64 "@ == "("@ + "SizeT.sizet_to_uint64"@ + " "@,
        " (SizeT.sizet_to_uint64 "@ == " "@ + "("@ + "SizeT.sizet_to_uint64"@ + " "@,
        "(SizeT.sizet_to_uint32 "@ == "("@ + "SizeT.sizet_to_uint32"@ + " "@,
        " (Pulse.Lib.C.PtrdiffT.v "@ == " (Pulse.Lib.C.PtrdiffT.v"@ + " "@,
        "(bool_to_int "@ == "("@ + "bool_to_int"@ + " "@,
        "(id #int "@ == "("@ + "id"@ + " "@ + "#"@ + "int"@ + " "@,
        "(id #nat "@ == "("@ + "id"@ + " "@ + "#"@ + "nat"@ + " "@,
        "(id #int ("@ == "("@ + "id"@ + " "@ + "#"@ + "int"@ + " "@ + "("@,
        "(SizeT.v "@ == "("@ + "SizeT.v"@ + " "@,
        "(if "@ == "("@ + "if"@ + " "@,
        " then 1sz else 0sz)"@ == " "@ + "then"@ + " "@ + "1sz"@ + " "@ + "else"@ + " "@ + "0sz"@ + ")"@,
        "(SizeT.uint_to_t ("@ == "("@ + "SizeT.uint_to_t ("@,
        "(SizeT.uint_to_t "@ == "("@ + "SizeT.uint_to_t"@ + " "@,
        "(SizeT.uint_to_t (Pulse.Lib.C.PtrdiffT.v "@ == "("@ + "SizeT.uint_to_t (Pulse.Lib.C.PtrdiffT.v"@ + " "@,
        "(Pulse.Lib.C.float64_of_int (Pulse.Lib.C.float32_to_int "@ == "("@ + "Pulse.Lib.C.float64_of_int (Pulse.Lib.C.float32_to_int"@ + " "@,
        "(Pulse.Lib.C.float32_of_int (Pulse.Lib.C.float64_to_int "@ == "("@ + "Pulse.Lib.C.float32_of_int (Pulse.Lib.C.float64_to_int"@ + " "@,
        "_of_bool "@ == "_of_bool"@ + " "@,
        "_of_int (SizeT.v "@ == "_of_int (SizeT.v"@ + " "@,
        "_of_int (Pulse.Lib.C.PtrdiffT.v "@ == "_of_int (Pulse.Lib.C.PtrdiffT.v"@ + " "@,
{
    reveal_strlit(" ");
    reveal_strlit(" (Int.Cast.");
    reveal_strlit(" (Int.Cast.uint64_to_");
    reveal_strlit(" (Pulse.Lib.C.PtrdiffT.v");
    reveal_strlit(" (Pulse.Lib.C.PtrdiffT.v ");
    reveal_strlit(" (SizeT.sizet_to_uint64 ");
    reveal_strlit(" <> 0)");
    reveal_strlit(" <> 0))");
    reveal_strlit(" then 1sz else 0sz)");
    reveal_strlit("#");
    reveal_strlit("(");
    reveal_strlit("((SizeT.v ");
    reveal_strlit("(Pulse.Lib.C.PtrdiffT.of_int (");
    reveal_strlit("(Pulse.Lib.C.PtrdiffT.of_int (SizeT.v ");
    reveal_strlit("(Pulse.Lib.C.float32_of_int (Pulse.Lib.C.float64_to_int ");
    reveal_strlit("(Pulse.Lib.C.float64_of_int (Pulse.Lib.C.float32_to_int ");
    reveal_strlit("(SizeT.sizet_to_uint32 ");
    reveal_strlit("(SizeT.sizet_to_uint64 ");
    reveal_strlit("(SizeT.uint_to_t ");
    reveal_strlit("(SizeT.uint_to_t (");
    reveal_strlit("(SizeT.uint_to_t (Pulse.Lib.C.PtrdiffT.v ");
    reveal_strlit("(SizeT.v ");
    reveal_strlit("(bool_to_");
    reveal_strlit("(bool_to_int ");
    reveal_strlit("(id #");
    reveal_strlit("(id #int ");
    reveal_strlit("(id #int (");
    reveal_strlit("(id #nat ");
    reveal_strlit("(if ");
    reveal_strlit("(not (Pulse.Lib.C.CoreRef.core_is_null ");
    reveal_strlit("(not (Pulse.Lib.C.FuncPtr.is_null ");
    reveal_strlit("(not (Pulse.Lib.Reference.is_null ");
    reveal_strlit("(not (array_is_null ");
    reveal_strlit("(with_pure ");
    reveal_strlit("(with_pure (");
    reveal_strlit(")");
    reveal_strlit(") <> 0)");
    reveal_strlit("))");
    reveal_strlit(")))");
    reveal_strlit(".v");
    reveal_strlit(".v ");
    reveal_strlit("0");
    reveal_strlit("0sz");
    reveal_strlit("1sz");
    reveal_strlit("<>");
    reveal_strlit("Int.Cast.");
    reveal_strlit("Int.Cast.uint64_to_");
    reveal_strlit("Pulse.Lib.C.CoreRef.core_is_null");
    reveal_strlit("Pulse.Lib.C.FuncPtr.is_null");
    reveal_strlit("Pulse.Lib.C.PtrdiffT.of_int (");
    reveal_strlit("Pulse.Lib.C.PtrdiffT.of_int (SizeT.v");
    reveal_strlit("Pulse.Lib.C.float32_of_int (Pulse.Lib.C.float64_to_int");
    reveal_strlit("Pulse.Lib.C.float64_of_int (Pulse.Lib.C.float32_to_int");
    reveal_strlit("Pulse.Lib.Reference.is_null");
    reveal_strlit("SizeT.sizet_to_uint32");
    reveal_strlit("SizeT.sizet_to_uint64");
    reveal_strlit("SizeT.uint_to_t");
    reveal_strlit("SizeT.uint_to_t (");
    reveal_strlit("SizeT.uint_to_t (Pulse.Lib.C.PtrdiffT.v");
    reveal_strlit("SizeT.v");
    reveal_strlit("_of_bool");
    reveal_strlit("_of_bool ");
    reveal_strlit("_of_int (Pulse.Lib.C.PtrdiffT.v");
    reveal_strlit("_of_int (Pulse.Lib.C.PtrdiffT.v ");
    reveal_strlit("_of_int (SizeT.v");
    reveal_strlit("_of_int (SizeT.v ");
    reveal_strlit("_to_bool");
    reveal_strlit("_to_bool ");
    reveal_strlit("_to_int");
    reveal_strlit("_to_int ");
    reveal_strlit("array_is_null");
    reveal_strlit("bool_to_");
    reveal_strlit("bool_to_int");
    reveal_strlit("else");
    reveal_strlit("id");
    reveal_strlit("if");
    reveal_strlit("int");
    reveal_strlit("nat");
    reveal_strlit("not");
    reveal_strlit("then");
    reveal_strlit("with_pure");
    assert("(with_pure "@ =~= "("@ + "with_pure"@ + " "@);
    assert("(with_pure ("@ =~= "("@ + "with_pure"@ + " "@ + "("@);
    assert(" <> 0))"@ =~= " "@ + "<>"@ + " "@ + "0"@ + ")"@ + ")"@);
    assert(" <> 0)"@ =~= " "@ + "<>"@ + " "@ + "0"@ + ")"@);
    assert("(Pulse.Lib.C.PtrdiffT.of_int (SizeT.v "@ =~= "("@ + "Pulse.Lib.C.PtrdiffT.of_int (SizeT.v"@ + " "@);
    assert("))"@ =~= ")"@ + ")"@);
    assert(")))"@ =~= ")"@ + ")"@ + ")"@);
    assert(".v "@ =~= ".v"@ + " "@);
    assert("_to_int "@ =~= "_to_int"@ + " "@);
    assert("(Pulse.Lib.C.PtrdiffT.of_int ("@ =~= "("@ + "Pulse.Lib.C.PtrdiffT.of_int ("@);
    assert("_to_bool "@ =~= "_to_bool"@ + " "@);
    assert("((SizeT.v "@ =~= "("@ + "("@ + "SizeT.v"@ + " "@);
    assert(") <> 0)"@ =~= ")"@ + " "@ + "<>"@ + " "@ + "0"@ + ")"@);
    assert("(not (array_is_null "@ =~= "("@ + "not"@ + " "@ + "("@ + "array_is_null"@ + " "@);
    assert("(not (Pulse.Lib.C.CoreRef.core_is_null "@ =~= "("@ + "not"@ + " "@ + "("@ + "Pulse.Lib.C.CoreRef.core_is_null"@ + " "@);
    assert("(not (Pulse.Lib.Reference.is_null "@ =~= "("@ + "not"@ + " "@ + "("@ + "Pulse.Lib.Reference.is_null"@ + " "@);
    assert("(not (Pulse.Lib.C.FuncPtr.is_null "@ =~= "("@ + "not"@ + " "@ + "("@ + "Pulse.Lib.C.FuncPtr.is_null"@ + " "@);
    assert("(bool_to_"@ =~= "("@ + "bool_to_"@);
    assert("(id #"@ =~= "("@ + "id"@ + " "@ + "#"@);
    assert(" (Int.Cast."@ =~= " "@ + "("@ + "Int.Cast."@);
    assert(" (Int.Cast.uint64_to_"@ =~= " "@ + "("@ + "Int.Cast.uint64_to_"@);
    assert("(SizeT.sizet_to_uint64 "@ =~= "("@ + "SizeT.sizet_to_uint64"@ + " "@);
    assert(" (SizeT.sizet_to_uint64 "@ =~= " "@ + "("@ + "SizeT.sizet_to_uint64"@ + " "@);
    assert("(SizeT.sizet_to_uint32 "@ =~= "("@ + "SizeT.sizet_to_uint32"@ + " "@);
    assert(" (Pulse.Lib.C.PtrdiffT.v "@ =~= " (Pulse.Lib.C.PtrdiffT.v"@ + " "@);
    assert("(bool_to_int "@ =~= "("@ + "bool_to_int"@ + " "@);
    assert("(id #int "@ =~= "("@ + "id"@ + " "@ + "#"@ + "int"@ + " "@);
    assert("(id #nat "@ =~= "("@ + "id"@ + " "@ + "#"@ + "nat"@ + " "@);
    assert("(id #int ("@ =~= "("@ + "id"@ + " "@ + "#"@ + "int"@ + " "@ + "("@);
    assert("(SizeT.v "@ =~= "("@ + "SizeT.v"@ + " "@);
    assert("(if "@ =~= "("@ + "if"@ + " "@);
    assert(" then 1sz else 0sz)"@ =~= " "@ + "then"@ + " "@ + "1sz"@ + " "@ + "else"@ + " "@ + "0sz"@ + ")"@);
    assert("(SizeT.uint_to_t ("@ =~= "("@ + "SizeT.uint_to_t ("@);
    assert("(SizeT.uint_to_t "@ =~= "("@ + "SizeT.uint_to_t"@ + " "@);
    assert("(SizeT.uint_to_t (Pulse.Lib.C.PtrdiffT.v "@ =~= "("@ + "SizeT.uint_to_t (Pulse.Lib.C.PtrdiffT.v"@ + " "@);
    assert("(Pulse.Lib.C.float64_of_int (Pulse.Lib.C.float32_to_int "@ =~= "("@ + "Pulse.Lib.C.float64_of_int (Pulse.Lib.C.float32_to_int"@ + " "@);
    assert("(Pulse.Lib.C.float32_of_int (Pulse.Lib.C.float64_to_int "@ =~= "("@ + "Pulse.Lib.C.float32_of_int (Pulse.Lib.C.float64_to_int"@ + " "@);
    assert("_of_bool "@ =~= "_of_bool"@ + " "@);
    assert("_of_int (SizeT.v "@ =~= "_of_int (SizeT.v"@ + " "@);
    assert("_of_int (Pulse.Lib.C.PtrdiffT.v "@ =~= "_of_int (Pulse.Lib.C.PtrdiffT.v"@ + " "@);
}

/// Values are converted as their shapes demand: one conversion for each pair of shapes, and none
/// where there is no entry.
pub proof fn law_conversions(from: Rc<Type>, to: Rc<Type>, v: Doc)
    ensures
        reads(spec_cast_plain(from, to, v), converted(from.val, to.val, flat(v))),
{
    reveal(spec_cast_plain);
    match to.val {
        TypeT::Bool => lemma_to_bool(from, v),
        TypeT::Int { signed, width } => lemma_to_int(from, to, signed, width, v),
        TypeT::SpecInt => lemma_to_math(from, false, v),
        TypeT::SpecNat => lemma_to_math(from, true, v),
        TypeT::SLProp => {
            reveal(spec_cast_to_slprop);
            lemma_pieces();
        },
        TypeT::SizeT => lemma_to_size(from, v),
        TypeT::Float { width } => lemma_to_float(from, width, v),
        TypeT::PtrdiffT => {
            reveal(spec_cast_to_ptrdiff);
            lemma_pieces();
            lemma_modules_of(from);
        },
        _ => {},
    }
}

/// The modules of a type's width.
proof fn lemma_modules_of(ty: Rc<Type>)
    ensures
        match ty.val {
            TypeT::Int { signed, width } => spec_get_int_mod(signed, width) is Some == int_module(signed, width) is Some && (spec_get_int_mod(signed, width) matches Some(
                m,
            ) ==> Some(m@) == int_module(signed, width)),
            TypeT::Float { width } => spec_get_float_mod(width) is Some == float_library(width) is Some && (spec_get_float_mod(width) matches Some(m) ==> Some(
                m@,
            ) == float_library(width)),
            _ => true,
        },
{
    match ty.val {
        TypeT::Int { signed, width } => law_modules_follow_widths(signed, width),
        TypeT::Float { width } => law_modules_follow_widths(true, width),
        _ => {},
    }
}

/// Conversions to truth values.
proof fn lemma_to_bool(from: Rc<Type>, v: Doc)
    ensures
        reads(spec_cast_to_bool(from, v), converted_to_bool(from.val, flat(v))),
{
    reveal(spec_cast_to_bool);
    reveal(spec_abbrev);
    lemma_pieces();
    lemma_modules_of(from);
}

/// Conversions to machine integers.
proof fn lemma_to_int(from: Rc<Type>, to: Rc<Type>, signed: bool, width: u32, v: Doc)
    ensures
        reads(spec_cast_to_int(from, to, signed, width, v), converted_to_int(from.val, signed, width, flat(v))),
{
    reveal(spec_cast_to_int);
    reveal(spec_abbrev);
    reveal(spec_of_int);
    reveal(spec_int_type);
    lemma_pieces();
    lemma_modules_of(from);
    law_modules_follow_widths(signed, width);
}

/// Conversions to mathematical integers.
proof fn lemma_to_math(from: Rc<Type>, to_nat: bool, v: Doc)
    ensures
        reads(spec_cast_to_math(from, to_nat, v), converted_to_math(from.val, to_nat, flat(v))),
{
    reveal(spec_cast_to_math);
    lemma_pieces();
    lemma_modules_of(from);
}

/// Conversions to `size_t`.
proof fn lemma_to_size(from: Rc<Type>, v: Doc)
    ensures
        reads(spec_cast_to_size(from, v), converted_to_size(from.val, flat(v))),
{
    reveal(spec_cast_to_size);
    lemma_pieces();
    lemma_modules_of(from);
}

/// Conversions to floating-point numbers.
proof fn lemma_to_float(from: Rc<Type>, to: u32, v: Doc)
    ensures
        reads(spec_cast_to_float(from, to, v), converted_to_float(from.val, to, flat(v))),
{
    reveal(spec_cast_to_float);
    lemma_pieces();
    lemma_modules_of(from);
    law_modules_follow_widths(true, to);
}

} // verus!
