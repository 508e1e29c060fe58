//! Square numbers.

use vstd::prelude::*;

verus! {

/// The largest number whose square is at most `n`.
pub(crate) fn square_root(n: u64) -> (root: u64)
    ensures
        root * root <= n < (root + 1) * (root + 1),
        root < 0x1_0000_0000,
{
    let mut low: u64 = 0;
    let mut high: u64 = 0x1_0000_0000;
    assert(0x1_0000_0000int * 0x1_0000_0000int > u64::MAX);
    while high - low > 1
        invariant
            low < high <= 0x1_0000_0000,
            low * low <= n < high * high,
        decreases high - low,
    {
        let middle: u64 = low + (high - low) / 2;
        assert(middle * middle <= 0xffff_ffff * 0xffff_ffff) by (nonlinear_arith)
            requires
                0 <= middle <= 0xffff_ffff,
        ;
        if middle * middle <= n {
            low = middle;
        } else {
            high = middle;
        }
    }
    assert(high == low + 1);
    low
}

/// The root of a square is the number that was squared.
pub(crate) proof fn lemma_root_of_square(root: int, r: int)
    requires
        0 <= root,
        0 <= r,
        root * root <= r * r < (root + 1) * (root + 1),
    ensures
        root == r,
{
    if root < r {
        assert((root + 1) * (root + 1) <= r * r) by (nonlinear_arith)
            requires
                0 <= root < r,
        ;
    }
    if r < root {
        assert(r * r < root * root) by (nonlinear_arith)
            requires
                0 <= r < root,
        ;
    }
}

/// Numbers with the same square are the same.
pub(crate) proof fn lemma_same_square(a: int, b: int)
    requires
        a >= 0,
        b >= 0,
        a * a == b * b,
    ensures
        a == b,
{
    if a < b {
        assert(a * a < b * b) by (nonlinear_arith)
            requires
                0 <= a < b,
        ;
    }
    if b < a {
        assert(b * b < a * a) by (nonlinear_arith)
            requires
                0 <= b < a,
        ;
    }
}

/// Two, three and five divide a number if they divide its square.
pub(crate) proof fn lemma_divides_square(n: int, prime: int)
    requires
        n >= 0,
        prime == 2 || prime == 3 || prime == 5,
        (n * n) % prime == 0,
    ensures
        n % prime == 0,
{
    let q = n / prime;
    let t = n % prime;
    assert(n == prime * q + t);
    assert(n * n == prime * (prime * (q * q) + 2 * (q * t)) + t * t) by (nonlinear_arith)
        requires
            n == prime * q + t,
    ;
    let w = prime * (q * q) + 2 * (q * t);
    assert((prime * w + t * t) % prime == (t * t) % prime) by {
        vstd::arithmetic::div_mod::lemma_mod_multiples_vanish(w, t * t, prime);
    }
    assert(t == 0 || t == 1 || t == 2 || t == 3 || t == 4);
    assert(0int * 0 == 0 && 1int * 1 == 1 && 2int * 2 == 4 && 3int * 3 == 9 && 4int * 4 == 16);
}

/// No square is twice another one.
pub(crate) proof fn lemma_two_is_no_square(s: int, r: int)
    requires
        s >= 0,
        r >= 0,
        2 * (s * s) == r * r,
    ensures
        s == 0,
    decreases r,
{
    lemma_divides_square(r, 2);
    let a = r / 2;
    assert(r * r == 4 * (a * a)) by (nonlinear_arith)
        requires
            r == 2 * a,
    ;
    if s > 0 {
        assert(s < r) by (nonlinear_arith)
            requires
                2 * (s * s) == r * r,
                s > 0,
                r >= 0,
        ;
        lemma_two_is_no_square(a, s);
        assert(s * s == 0);
        assert(s * s > 0) by (nonlinear_arith)
            requires
                s > 0,
        ;
    }
}

/// No square is three times another one.
pub(crate) proof fn lemma_three_is_no_square(s: int, r: int)
    requires
        s >= 0,
        r >= 0,
        3 * (s * s) == r * r,
    ensures
        s == 0,
    decreases r,
{
    lemma_divides_square(r, 3);
    let a = r / 3;
    assert(r * r == 9 * (a * a)) by (nonlinear_arith)
        requires
            r == 3 * a,
    ;
    if s > 0 {
        assert(s < r) by (nonlinear_arith)
            requires
                3 * (s * s) == r * r,
                s > 0,
                r >= 0,
        ;
        lemma_three_is_no_square(a, s);
        assert(s * s == 0);
        assert(s * s > 0) by (nonlinear_arith)
            requires
                s > 0,
        ;
    }
}

/// No square is six times another one.
pub(crate) proof fn lemma_six_is_no_square(s: int, r: int)
    requires
        s >= 0,
        r >= 0,
        6 * (s * s) == r * r,
    ensures
        s == 0,
    decreases r,
{
    lemma_divides_square(r, 2);
    let a = r / 2;
    assert(r * r == 4 * (a * a)) by (nonlinear_arith)
        requires
            r == 2 * a,
    ;
    lemma_divides_square(s, 2);
    let b = s / 2;
    assert(s * s == 4 * (b * b)) by (nonlinear_arith)
        requires
            s == 2 * b,
    ;
    if s > 0 {
        assert(r > 0) by (nonlinear_arith)
            requires
                6 * (s * s) == r * r,
                s > 0,
                r >= 0,
        ;
        lemma_six_is_no_square(b, a);
    }
}

/// Six times a square is never five times another one.
pub(crate) proof fn lemma_six_fifths_is_no_square(s: int, r: int)
    requires
        s >= 0,
        r >= 0,
        6 * (s * s) == 5 * (r * r),
    ensures
        s == 0,
    decreases r,
{
    lemma_divides_square(s, 5);
    let b = s / 5;
    assert(s * s == 25 * (b * b)) by (nonlinear_arith)
        requires
            s == 5 * b,
    ;
    lemma_divides_square(r, 5);
    let c = r / 5;
    assert(r * r == 25 * (c * c)) by (nonlinear_arith)
        requires
            r == 5 * c,
    ;
    if s > 0 {
        assert(r > 0) by (nonlinear_arith)
            requires
                6 * (s * s) == 5 * (r * r),
                s > 0,
                r >= 0,
        ;
        lemma_six_fifths_is_no_square(b, c);
    }
}

} // verus!
