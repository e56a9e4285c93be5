use vstd::prelude::*;
use vstd::arithmetic::div_mod::{
    lemma_fundamental_div_mod,
    lemma_fundamental_div_mod_converse_mod,
};

verus! {

/// `a mod b` in the mathematical sense: the result lies between zero and `b`
/// (zero included, `b` excluded), so it has the sign of `b` or is zero.
pub open spec fn modulo_spec(a: int, b: int) -> int
    recommends
        b != 0,
{
    if b > 0 {
        a % b
    } else {
        -((-a) % (-b))
    }
}

/// Euclidean remainders agree for a divisor and its negation.
proof fn lemma_mod_negated_divisor(x: int, y: int)
    requires
        y < 0,
    ensures
        x % y == x % (-y),
{
    lemma_fundamental_div_mod(x, y);
    let q = x / y;
    assert(x == (-q) * (-y) + x % y) by (nonlinear_arith)
        requires
            x == y * q + x % y,
    ;
    lemma_fundamental_div_mod_converse_mod(x, -y, -q, x % y);
}

/// The remainder of a negated dividend, for a positive divisor.
proof fn lemma_mod_negated_dividend(x: int, m: int)
    requires
        m > 0,
    ensures
        x % m == 0 ==> (-x) % m == 0,
        x % m != 0 ==> (-x) % m == m - x % m,
{
    lemma_fundamental_div_mod(x, m);
    let q = x / m;
    let r = x % m;
    if r == 0 {
        assert(-x == (-q) * m + 0) by (nonlinear_arith)
            requires
                x == m * q + r,
                r == 0,
        ;
        lemma_fundamental_div_mod_converse_mod(-x, m, -q, 0);
    } else {
        assert(-x == (-q - 1) * m + (m - r)) by (nonlinear_arith)
            requires
                x == m * q + r,
        ;
        lemma_fundamental_div_mod_converse_mod(-x, m, -q - 1, m - r);
    }
}

/// The ordering of two integers.
pub open spec fn compare_spec(a: int, b: int) -> core::cmp::Ordering {
    if a < b {
        core::cmp::Ordering::Less
    } else if a == b {
        core::cmp::Ordering::Equal
    } else {
        core::cmp::Ordering::Greater
    }
}

/// The modulo function (handles negatives differently to Rust's remainder `%` operator).
pub fn modulo(a: i64, b: i64) -> (r: i64)
    requires
        b != 0,
        !(a == i64::MIN && b == -1),
    ensures
        r == modulo_spec(a as int, b as int),
        b > 0 ==> 0 <= r < b,
        b < 0 ==> b < r <= 0,
{
    let r = a % b;
    proof {
        let x = a as int;
        let y = b as int;
        if y < 0 {
            lemma_mod_negated_divisor(x, y);
            lemma_mod_negated_divisor(-x, y);
            lemma_mod_negated_dividend(x, -y);
        } else {
            lemma_mod_negated_dividend(-x, y);
        }
    }
    if (r > 0 && b < 0) || (r < 0 && b > 0) {
        r + b
    } else {
        r
    }
}

} // verus!
