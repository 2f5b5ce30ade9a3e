use vstd::arithmetic::div_mod::lemma_fundamental_div_mod;
use vstd::prelude::*;

verus! {

/// The absolute value of `x`.
pub open spec fn magnitude(x: int) -> int {
    if x < 0 {
        -x
    } else {
        x
    }
}

/// `divisor` divides `dividend` with no remainder.
pub open spec fn divides_exactly(dividend: int, divisor: int) -> bool {
    magnitude(dividend) % magnitude(divisor) == 0
}

/// The quotient of `dividend` by `divisor` when the division leaves no
/// remainder, `None` otherwise.
pub fn exact_quotient(dividend: i32, divisor: i32) -> (r: Option<i32>)
    requires
        divisor != 0,
        !(dividend == i32::MIN && divisor == -1),
    ensures
        r is None <==> !divides_exactly(dividend as int, divisor as int),
        r matches Some(q) ==> q * divisor == dividend,
{
    let remainder = dividend.checked_rem(divisor);
    let quotient = dividend.checked_div(divisor);
    proof {
        let x = magnitude(dividend as int);
        let y = magnitude(divisor as int);
        lemma_fundamental_div_mod(x, y);
        assert(remainder == Some(
            (if dividend < 0 {
                -(x % y)
            } else {
                x % y
            }) as i32,
        ));
        if x % y == 0 {
            let k = x / y;
            assert(0 <= k <= x) by (nonlinear_arith)
                requires
                    x == y * k,
                    y >= 1,
                    x >= 0,
            ;
            assert(y >= 2 ==> k <= x / 2 + 1) by (nonlinear_arith)
                requires
                    x == y * k,
                    y >= 1,
                    x >= 0,
            ;
            assert((dividend < 0) == (divisor < 0) ==> k <= i32::MAX);
            assert((if (dividend < 0) != (divisor < 0) {
                -k
            } else {
                k
            }) * divisor == dividend) by (nonlinear_arith)
                requires
                    x == y * k,
                    dividend < 0 ==> x == -dividend,
                    dividend >= 0 ==> x == dividend,
                    divisor < 0 ==> y == -divisor,
                    divisor >= 0 ==> y == divisor,
            ;
            assert(quotient == Some(
                (if (dividend < 0) != (divisor < 0) {
                    -k
                } else {
                    k
                }) as i32,
            ));
        }
    }
    match remainder {
        Some(0) => quotient,
        _ => None,
    }
}

} // verus!
