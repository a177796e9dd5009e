//! Numbers of the language are IEEE-754 binary64 values, held here as their
//! 64-bit patterns. Sign, equality and ordering are decided on the bits;
//! arithmetic and rendering are supplied by the caller as functions on bit
//! patterns.
use vstd::prelude::*;

verus! {

pub const SIGN_BIT: u64 = 0x8000_0000_0000_0000;

pub const MAGNITUDE_MASK: u64 = 0x7fff_ffff_ffff_ffff;

pub const INFINITY_BITS: u64 = 0x7ff0_0000_0000_0000;

/// The pattern without its sign bit.
pub open spec fn magnitude(bits: u64) -> u64 {
    bits & MAGNITUDE_MASK
}

/// Not-a-number: exponent all ones and a fraction that is not zero.
pub open spec fn is_nan(bits: u64) -> bool {
    magnitude(bits) > INFINITY_BITS
}

pub open spec fn is_negative(bits: u64) -> bool {
    bits & SIGN_BIT != 0
}

/// An integer that orders the patterns that are not NaN as their values are
/// ordered; both zeros get 0.
pub open spec fn order_key(bits: u64) -> int {
    if is_negative(bits) {
        -(magnitude(bits) as int)
    } else {
        magnitude(bits) as int
    }
}

/// Numeric equality: NaN equals nothing, and the two zeros are equal.
pub open spec fn number_eq(a: u64, b: u64) -> bool {
    !is_nan(a) && !is_nan(b) && order_key(a) == order_key(b)
}

/// Numeric `<`: false whenever an operand is NaN.
pub open spec fn number_lt(a: u64, b: u64) -> bool {
    !is_nan(a) && !is_nan(b) && order_key(a) < order_key(b)
}

/// Numeric `<=`: false whenever an operand is NaN.
pub open spec fn number_le(a: u64, b: u64) -> bool {
    !is_nan(a) && !is_nan(b) && order_key(a) <= order_key(b)
}

/// Negation flips the sign bit and nothing else.
pub open spec fn negated(bits: u64) -> u64 {
    bits ^ SIGN_BIT
}

pub fn negate(bits: u64) -> (r: u64)
    ensures
        r == negated(bits),
{
    bits ^ SIGN_BIT
}

pub fn nan(bits: u64) -> (r: bool)
    ensures
        r == is_nan(bits),
{
    (bits & MAGNITUDE_MASK) > INFINITY_BITS
}

pub fn equal(a: u64, b: u64) -> (r: bool)
    ensures
        r == number_eq(a, b),
{
    if nan(a) || nan(b) {
        return false;
    }
    let ma: u64 = a & MAGNITUDE_MASK;
    let mb: u64 = b & MAGNITUDE_MASK;
    let na = a & SIGN_BIT != 0;
    let nb = b & SIGN_BIT != 0;
    if na == nb {
        ma == mb
    } else {
        ma == 0 && mb == 0
    }
}

pub fn less(a: u64, b: u64) -> (r: bool)
    ensures
        r == number_lt(a, b),
{
    if nan(a) || nan(b) {
        return false;
    }
    let ma: u64 = a & MAGNITUDE_MASK;
    let mb: u64 = b & MAGNITUDE_MASK;
    let na = a & SIGN_BIT != 0;
    let nb = b & SIGN_BIT != 0;
    if na {
        if nb {
            mb < ma
        } else {
            !(ma == 0 && mb == 0)
        }
    } else {
        if nb {
            false
        } else {
            ma < mb
        }
    }
}

pub fn less_or_equal(a: u64, b: u64) -> (r: bool)
    ensures
        r == number_le(a, b),
{
    less(a, b) || equal(a, b)
}

/// Negating twice gives the pattern back.
pub proof fn lemma_negate_twice(bits: u64)
    ensures
        negated(negated(bits)) == bits,
{
    assert((bits ^ 0x8000_0000_0000_0000u64) ^ 0x8000_0000_0000_0000u64 == bits) by (bit_vector);
}

/// Negation keeps the magnitude and turns the sign, so it mirrors the order:
/// a pattern is NaN exactly when its negation is, and `a < b` exactly when
/// `-b < -a`.
pub proof fn lemma_negation_mirrors(a: u64, b: u64)
    ensures
        magnitude(negated(a)) == magnitude(a),
        is_negative(negated(a)) == !is_negative(a),
        is_nan(negated(a)) == is_nan(a),
        order_key(negated(a)) == -order_key(a),
        number_lt(a, b) == number_lt(negated(b), negated(a)),
        number_eq(a, b) == number_eq(negated(a), negated(b)),
{
    lemma_sign_flip(a);
    lemma_sign_flip(b);
}

proof fn lemma_sign_flip(a: u64)
    ensures
        magnitude(negated(a)) == magnitude(a),
        is_negative(negated(a)) == !is_negative(a),
{
    assert((a ^ 0x8000_0000_0000_0000u64) & 0x7fff_ffff_ffff_ffffu64 == a
        & 0x7fff_ffff_ffff_ffffu64) by (bit_vector);
    assert(((a ^ 0x8000_0000_0000_0000u64) & 0x8000_0000_0000_0000u64 != 0) == !(a
        & 0x8000_0000_0000_0000u64 != 0)) by (bit_vector);
}

/// On the patterns that are not NaN, `<` is a strict order that `==` respects,
/// any two of them compare, and `<=` is `<` or `==`. NaN compares with
/// nothing, itself included.
pub proof fn lemma_order(a: u64, b: u64, c: u64)
    ensures
        !number_lt(a, a),
        number_lt(a, b) && number_lt(b, c) ==> number_lt(a, c),
        number_lt(a, b) ==> !number_lt(b, a) && !number_eq(a, b),
        number_eq(a, b) == number_eq(b, a),
        number_eq(a, b) && number_eq(b, c) ==> number_eq(a, c),
        number_le(a, b) == (number_lt(a, b) || number_eq(a, b)),
        !is_nan(a) && !is_nan(b) ==> number_lt(a, b) || number_eq(a, b) || number_lt(b, a),
        !is_nan(a) ==> number_eq(a, a),
        is_nan(a) ==> !number_eq(a, b) && !number_lt(a, b) && !number_lt(b, a) && !number_le(a, b),
{
}

// ---------------------------------------------------------------------------
// Arithmetic and rendering, as supplied by the caller
// ---------------------------------------------------------------------------
/// The four arithmetic operations.
#[derive(Debug, PartialEq, Eq, Copy, Clone, Structural)]
pub enum Operation {
    Add,
    Subtract,
    Multiply,
    Divide,
}

/// The pattern that `arithmetic` gives for `op` on `a` and `b`.
pub open spec fn computed<A: Fn(Operation, u64, u64) -> u64>(
    arithmetic: A,
    op: Operation,
    a: u64,
    b: u64,
) -> u64 {
    choose|r: u64| call_ensures(arithmetic, (op, a, b), r)
}

/// `arithmetic` accepts every operands and its result is a function of them.
pub open spec fn is_arithmetic<A: Fn(Operation, u64, u64) -> u64>(arithmetic: A) -> bool {
    &&& forall|op: Operation, a: u64, b: u64| call_requires(arithmetic, (op, a, b))
    &&& forall|op: Operation, a: u64, b: u64, r: u64|
        call_ensures(arithmetic, (op, a, b), r) ==> r == computed(arithmetic, op, a, b)
}

/// The text that `render` gives for a pattern: the shortest form that reads
/// back as the same number, or, with `fixed`, the form with two decimals.
pub open spec fn rendered<R: Fn(u64, bool) -> String>(render: R, bits: u64, fixed: bool) -> Seq<
    char,
> {
    (choose|s: String| call_ensures(render, (bits, fixed), s))@
}

/// `render` accepts every pattern and its result is a function of its arguments.
pub open spec fn is_renderer<R: Fn(u64, bool) -> String>(render: R) -> bool {
    &&& forall|bits: u64, fixed: bool| call_requires(render, (bits, fixed))
    &&& forall|bits: u64, fixed: bool, s: String|
        call_ensures(render, (bits, fixed), s) ==> s@ == rendered(render, bits, fixed)
}

pub fn compute<A: Fn(Operation, u64, u64) -> u64>(arithmetic: &A, op: Operation, a: u64, b: u64) -> (r: u64)
    requires
        is_arithmetic(*arithmetic),
    ensures
        r == computed(*arithmetic, op, a, b),
{
    arithmetic(op, a, b)
}

pub fn render_number<R: Fn(u64, bool) -> String>(render: &R, bits: u64, fixed: bool) -> (text: String)
    requires
        is_renderer(*render),
    ensures
        text@ == rendered(*render, bits, fixed),
{
    render(bits, fixed)
}

} // verus!
