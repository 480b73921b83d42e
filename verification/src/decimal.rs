//! Decimal literals and their products with a multiplier, exact to the byte.

use vstd::arithmetic::div_mod::*;
use vstd::prelude::*;

verus! {

/// The largest multiplier that is supported: two to the power of 40.
pub const MULTIPLIER_MAX: u64 = 0x100_0000_0000;

/// Ten to the power of `k`.
pub open spec fn pow10(k: nat) -> nat
    decreases k,
{
    if k == 0 {
        1
    } else {
        10 * pow10((k - 1) as nat)
    }
}

/// The number that decimal digits denote, the most significant digit first.
pub open spec fn decimal_value(s: Seq<u8>) -> nat
    decreases s.len(),
{
    if s.len() == 0 {
        0
    } else {
        10 * decimal_value(s.drop_last()) + s.last() as nat
    }
}

/// Every element is a decimal digit.
pub open spec fn all_digits(s: Seq<u8>) -> bool {
    forall|i: int| 0 <= i < s.len() ==> #[trigger] s[i] <= 9
}

/// A number, or the largest one of 64 bits where it is larger.
pub open spec fn saturated(n: nat) -> nat {
    if n <= u64::MAX {
        n
    } else {
        u64::MAX as nat
    }
}

/// The value of a decimal literal times a multiplier, rounded down and saturated.
/// The digits of the literal denote `digits`, and `places` of them stand behind
/// the decimal point.
pub open spec fn scaled_literal(digits: nat, places: nat, multiplier: nat) -> nat {
    saturated(digits * multiplier / pow10(places))
}

proof fn lemma_pow10_pos(k: nat)
    ensures
        pow10(k) > 0,
    decreases k,
{
    if k > 0 {
        lemma_pow10_pos((k - 1) as nat);
    }
}

/// Digits behind others add to them, shifted by their number.
proof fn lemma_decimal_concat(a: Seq<u8>, b: Seq<u8>)
    ensures
        decimal_value(a + b) == decimal_value(a) * pow10(b.len()) + decimal_value(b),
    decreases b.len(),
{
    if b.len() == 0 {
        assert(a + b =~= a);
        assert(decimal_value(a) * 1 == decimal_value(a)) by (nonlinear_arith);
    } else {
        lemma_decimal_concat(a, b.drop_last());
        assert((a + b).drop_last() =~= a + b.drop_last());
        let p = pow10((b.len() - 1) as nat);
        let x = decimal_value(a);
        assert(10 * (x * p) == x * (10 * p)) by (nonlinear_arith);
    }
}

/// One more digit in front of a fraction: the product is a tenth of that of the
/// digit and of what the fraction came to.
proof fn lemma_fraction_step(d: nat, rest: nat, p: nat, m: nat)
    requires
        p > 0,
    ensures
        (d * p + rest) * m / (10 * p) == (d * m + rest * m / p) / 10,
{
    let x = rest * m;
    let whole = (d * p + rest) * m;
    assert(whole == x + (d * m) * p) by (nonlinear_arith)
        requires
            x == rest * m,
            whole == (d * p + rest) * m,
    ;
    lemma_hoist_over_denominator(x as int, (d * m) as int, p);
    assert(whole / p == x / p + d * m);
    lemma_div_denominator(whole as int, p as int, 10);
    assert(p * 10 == 10 * p) by (nonlinear_arith);
}

/// The integer part of a product is that of the digits before the point, and
/// what the digits behind it come to.
proof fn lemma_split(integer: nat, fraction: nat, p: nat, m: nat)
    requires
        p > 0,
    ensures
        (integer * p + fraction) * m / p == integer * m + fraction * m / p,
{
    let x = fraction * m;
    let whole = (integer * p + fraction) * m;
    assert(whole == x + (integer * m) * p) by (nonlinear_arith)
        requires
            x == fraction * m,
            whole == (integer * p + fraction) * m,
    ;
    lemma_hoist_over_denominator(x as int, (integer * m) as int, p);
}

/// The number that digits denote, saturated.
fn integer_part(digits: &[u8]) -> (r: u64)
    requires
        all_digits(digits@),
    ensures
        r == saturated(decimal_value(digits@)),
{
    let mut value: u128 = 0;
    let mut i: usize = 0;
    while i < digits.len()
        invariant
            i <= digits.len(),
            all_digits(digits@),
            value == saturated(decimal_value(digits@.take(i as int))),
        decreases digits.len() - i,
    {
        assert(digits@.take(i + 1).drop_last() =~= digits@.take(i as int));
        assert(digits@[i as int] <= 9);
        value = value * 10 + digits[i] as u128;
        if value > u64::MAX as u128 {
            value = u64::MAX as u128;
        }
        i += 1;
    }
    assert(digits@.take(i as int) =~= digits@);
    value as u64
}

/// What the digits behind the decimal point add to the product.
fn fraction_part(digits: &[u8], multiplier: u64) -> (r: u64)
    requires
        all_digits(digits@),
        0 < multiplier <= MULTIPLIER_MAX,
    ensures
        r == decimal_value(digits@) * multiplier as nat / pow10(digits@.len()),
        r < multiplier,
{
    let ghost m = multiplier as nat;
    let mut carry: u64 = 0;
    let mut i: usize = digits.len();
    proof {
        assert(digits@.skip(i as int) =~= Seq::empty());
        assert(0 * m == 0) by (nonlinear_arith);
    }
    while i > 0
        invariant
            i <= digits.len(),
            all_digits(digits@),
            m == multiplier,
            0 < multiplier <= MULTIPLIER_MAX,
            carry < multiplier,
            carry == decimal_value(digits@.skip(i as int)) * m / pow10((digits@.len() - i) as nat),
        decreases i,
    {
        i -= 1;
        let d: u64 = digits[i] as u64;
        let ghost rest = digits@.skip(i + 1);
        let ghost p = pow10(rest.len());
        proof {
            assert(digits@[i as int] <= 9);
            assert(digits@.skip(i as int) =~= seq![digits@[i as int]] + rest);
            lemma_decimal_concat(seq![digits@[i as int]], rest);
            assert(seq![digits@[i as int]].drop_last() =~= Seq::empty());
            reveal_with_fuel(decimal_value, 2);
            lemma_pow10_pos(rest.len());
            lemma_fraction_step(d as nat, decimal_value(rest), p, m);
            assert(d * multiplier <= 9 * multiplier) by (nonlinear_arith)
                requires
                    d <= 9,
            ;
        }
        carry = (d * multiplier + carry) / 10;
    }
    assert(digits@.skip(0) =~= digits@);
    carry
}

/// The value of a decimal literal times a multiplier, rounded down and saturated.
///
/// `integer` and `fraction` are the digits before and after the decimal point.
pub fn scale_literal(integer: &[u8], fraction: &[u8], multiplier: u64) -> (r: u64)
    requires
        all_digits(integer@),
        all_digits(fraction@),
        0 < multiplier <= MULTIPLIER_MAX,
    ensures
        r == scaled_literal(
            decimal_value(integer@ + fraction@),
            fraction@.len(),
            multiplier as nat,
        ),
{
    let ghost n = decimal_value(integer@);
    let ghost m = multiplier as nat;
    proof {
        lemma_decimal_concat(integer@, fraction@);
        lemma_pow10_pos(fraction@.len());
        lemma_split(n, decimal_value(fraction@), pow10(fraction@.len()), m);
    }
    let whole: u64 = integer_part(integer);
    let rest: u64 = fraction_part(fraction, multiplier);
    proof {
        assert(whole * multiplier <= 0xffff_ffff_ffff_ffff * 0x100_0000_0000) by (nonlinear_arith)
            requires
                whole <= 0xffff_ffff_ffff_ffff,
                0 < multiplier <= 0x100_0000_0000,
        ;
        if n > u64::MAX {
            assert(n * m >= n) by (nonlinear_arith)
                requires
                    m >= 1,
            ;
            assert(whole * multiplier >= whole) by (nonlinear_arith)
                requires
                    multiplier >= 1,
            ;
        }
    }
    let total: u128 = whole as u128 * multiplier as u128 + rest as u128;
    if total > u64::MAX as u128 {
        u64::MAX
    } else {
        total as u64
    }
}

/// A scaled literal is the largest whole number that is not above the product, as long as
/// that fits; the digits behind the point weigh a tenth each of the ones before.
pub proof fn law_literals_are_rounded_down(
    integer: &[u8],
    fraction: &[u8],
    multiplier: u64,
    r: u64,
)
    requires
        call_ensures(scale_literal, (integer, fraction, multiplier), r),
    ensures
        ({
            let product = (decimal_value(integer@) * pow10(fraction@.len()) + decimal_value(
                fraction@,
            )) * multiplier as nat;
            let unit = pow10(fraction@.len());
            &&& r * unit <= product
            &&& r < u64::MAX ==> product < (r + 1) * unit
        }),
{
    let unit = pow10(fraction@.len());
    lemma_pow10_pos(fraction@.len());
    lemma_decimal_concat(integer@, fraction@);
    let product = decimal_value(integer@ + fraction@) * multiplier as nat;
    lemma_fundamental_div_mod(product as int, unit as int);
    let q = product / unit;
    assert(q * unit <= product < (q + 1) * unit) by (nonlinear_arith)
        requires
            product == unit * q + product % unit,
            0 <= product % unit < unit,
    ;
    if q > u64::MAX {
        assert(r * unit <= q * unit) by (nonlinear_arith)
            requires
                r <= q,
        ;
    }
}

/// A digit more multiplies what stands before it by ten and is added to it.
pub proof fn law_digits_count_by_their_place(s: Seq<u8>, d: u8)
    ensures
        decimal_value(s.push(d)) == 10 * decimal_value(s) + d,
        decimal_value(Seq::<u8>::empty()) == 0,
        pow10(s.len() + 1) == 10 * pow10(s.len()),
        pow10(0) == 1,
{
    assert(s.push(d).drop_last() =~= s);
}

} // verus!
