//! Natural numbers of any size, held as little-endian 64-bit limbs, with
//! the few operations that exact sums of fractions need.

use vstd::prelude::*;

verus! {

/// The radix of one limb, 2^64.
pub open spec fn limb_radix() -> int {
    0x1_0000_0000_0000_0000
}

/// 2^(64 n), the weight of limb `n`.
pub open spec fn radix_pow(n: nat) -> int
    decreases n,
{
    if n == 0 {
        1
    } else {
        radix_pow((n - 1) as nat) * limb_radix()
    }
}

/// Limb `i` of `s`, zero past its end.
pub open spec fn limb_at(s: Seq<u64>, i: int) -> int {
    if 0 <= i < s.len() {
        s[i] as int
    } else {
        0
    }
}

/// The value of the lowest `n` limbs of `s`.
pub open spec fn low_limbs_value(s: Seq<u64>, n: nat) -> int
    decreases n,
{
    if n == 0 {
        0
    } else {
        low_limbs_value(s, (n - 1) as nat) + limb_at(s, n - 1) * radix_pow((n - 1) as nat)
    }
}

/// The number that the limbs `s` stand for.
pub open spec fn wide_value(s: Seq<u64>) -> int {
    low_limbs_value(s, s.len())
}

proof fn lemma_radix_pow_positive(n: nat)
    ensures
        radix_pow(n) >= 1,
    decreases n,
{
    if n > 0 {
        lemma_radix_pow_positive((n - 1) as nat);
        let p = radix_pow((n - 1) as nat);
        assert(p * 0x1_0000_0000_0000_0000 >= 1) by (nonlinear_arith)
            requires
                p >= 1,
        ;
    }
}

/// The lowest `n` limbs stand for a number in `0 .. 2^(64 n)`.
pub proof fn lemma_low_limbs_bound(s: Seq<u64>, n: nat)
    ensures
        0 <= low_limbs_value(s, n) < radix_pow(n),
    decreases n,
{
    if n > 0 {
        let m = (n - 1) as nat;
        lemma_low_limbs_bound(s, m);
        lemma_radix_pow_positive(m);
        let a = low_limbs_value(s, m);
        let p = radix_pow(m);
        let l = limb_at(s, m as int);
        assert(0 <= a + l * p < p * 0x1_0000_0000_0000_0000) by (nonlinear_arith)
            requires
                0 <= a < p,
                0 <= l < 0x1_0000_0000_0000_0000,
        ;
    }
}

proof fn lemma_low_limbs_agree(s1: Seq<u64>, s2: Seq<u64>, n: nat)
    requires
        forall|j: int| 0 <= j < n ==> limb_at(s1, j) == limb_at(s2, j),
    ensures
        low_limbs_value(s1, n) == low_limbs_value(s2, n),
    decreases n,
{
    if n > 0 {
        lemma_low_limbs_agree(s1, s2, (n - 1) as nat);
        assert(limb_at(s1, n - 1) == limb_at(s2, n - 1));
    }
}

proof fn lemma_low_limbs_past_end(s: Seq<u64>, n: nat)
    requires
        n >= s.len(),
    ensures
        low_limbs_value(s, n) == wide_value(s),
    decreases n,
{
    if n > s.len() {
        lemma_low_limbs_past_end(s, (n - 1) as nat);
    }
}

/// Appending limb `x` to `s` adds `x` at the weight of its place.
proof fn lemma_push_limb(s: Seq<u64>, x: u64)
    ensures
        wide_value(s.push(x)) == wide_value(s) + x * radix_pow(s.len()),
{
    let t = s.push(x);
    assert forall|j: int| 0 <= j < s.len() implies limb_at(t, j) == limb_at(s, j) by {}
    lemma_low_limbs_agree(t, s, s.len());
    assert(limb_at(t, s.len() as int) == x);
}

proof fn lemma_mul_step(w: int, p: int, lo: int, hi: int, t: int, xi: int, m: int, carry: int, lowx: int)
    requires
        t == lo + hi * 0x1_0000_0000_0000_0000,
        t == xi * m + carry,
        w + carry * p == lowx * m,
    ensures
        w + lo * p + hi * (p * 0x1_0000_0000_0000_0000) == (lowx + xi * p) * m,
{
    assert(w + lo * p + hi * (p * 0x1_0000_0000_0000_0000) == (lowx + xi * p) * m) by (nonlinear_arith)
        requires
            t == lo + hi * 0x1_0000_0000_0000_0000,
            t == xi * m + carry,
            w + carry * p == lowx * m,
    ;
}

/// `x * m`.
pub fn wide_mul_small(x: &Vec<u64>, m: u64) -> (r: Vec<u64>)
    ensures
        wide_value(r@) == wide_value(x@) * m,
{
    let n = x.len();
    let mut r: Vec<u64> = Vec::new();
    let mut carry: u64 = 0;
    let mut i: usize = 0;
    while i < n
        invariant
            n == x@.len(),
            i <= n,
            r@.len() == i,
            wide_value(r@) + carry * radix_pow(i as nat) == low_limbs_value(x@, i as nat) * m,
        decreases n - i,
    {
        let xi: u64 = x[i];
        assert((xi as int) * (m as int) <= 0xffff_ffff_ffff_ffff * 0xffff_ffff_ffff_ffff)
            by (nonlinear_arith)
            requires
                0 <= xi <= 0xffff_ffff_ffff_ffff,
                0 <= m <= 0xffff_ffff_ffff_ffff,
        ;
        let t: u128 = (xi as u128) * (m as u128) + (carry as u128);
        let lo: u64 = (t % 0x1_0000_0000_0000_0000u128) as u64;
        let hi: u64 = (t / 0x1_0000_0000_0000_0000u128) as u64;
        proof {
            lemma_push_limb(r@, lo);
            lemma_mul_step(
                wide_value(r@),
                radix_pow(i as nat),
                lo as int,
                hi as int,
                t as int,
                xi as int,
                m as int,
                carry as int,
                low_limbs_value(x@, i as nat),
            );
            assert(limb_at(x@, i as int) == xi);
        }
        r.push(lo);
        carry = hi;
        i = i + 1;
    }
    proof {
        lemma_push_limb(r@, carry);
    }
    r.push(carry);
    r
}

proof fn lemma_add_step(w: int, p: int, lo: int, hi: int, t: int, xi: int, yi: int, carry: int, lowx: int, lowy: int)
    requires
        t == lo + hi * 0x1_0000_0000_0000_0000,
        t == xi + yi + carry,
        w + carry * p == lowx + lowy,
    ensures
        w + lo * p + hi * (p * 0x1_0000_0000_0000_0000) == (lowx + xi * p) + (lowy + yi * p),
{
    assert(w + lo * p + hi * (p * 0x1_0000_0000_0000_0000) == (lowx + xi * p) + (lowy + yi * p))
        by (nonlinear_arith)
        requires
            t == lo + hi * 0x1_0000_0000_0000_0000,
            t == xi + yi + carry,
            w + carry * p == lowx + lowy,
    ;
}

/// Limb `i` of `x`, zero past its end.
fn limb_or_zero(x: &Vec<u64>, i: usize) -> (l: u64)
    ensures
        l == limb_at(x@, i as int),
{
    if i < x.len() {
        x[i]
    } else {
        0
    }
}

/// `x + y`.
pub fn wide_add(x: &Vec<u64>, y: &Vec<u64>) -> (r: Vec<u64>)
    ensures
        wide_value(r@) == wide_value(x@) + wide_value(y@),
{
    let n = if x.len() < y.len() {
        y.len()
    } else {
        x.len()
    };
    let mut r: Vec<u64> = Vec::new();
    let mut carry: u64 = 0;
    let mut i: usize = 0;
    while i < n
        invariant
            n >= x@.len(),
            n >= y@.len(),
            i <= n,
            r@.len() == i,
            carry <= 1,
            wide_value(r@) + carry * radix_pow(i as nat) == low_limbs_value(x@, i as nat)
                + low_limbs_value(y@, i as nat),
        decreases n - i,
    {
        let xi = limb_or_zero(x, i);
        let yi = limb_or_zero(y, i);
        let t: u128 = (xi as u128) + (yi as u128) + (carry as u128);
        let lo: u64 = (t % 0x1_0000_0000_0000_0000u128) as u64;
        let hi: u64 = (t / 0x1_0000_0000_0000_0000u128) as u64;
        proof {
            lemma_push_limb(r@, lo);
            lemma_add_step(
                wide_value(r@),
                radix_pow(i as nat),
                lo as int,
                hi as int,
                t as int,
                xi as int,
                yi as int,
                carry as int,
                low_limbs_value(x@, i as nat),
                low_limbs_value(y@, i as nat),
            );
        }
        r.push(lo);
        carry = hi;
        i = i + 1;
    }
    proof {
        lemma_push_limb(r@, carry);
        lemma_low_limbs_past_end(x@, n as nat);
        lemma_low_limbs_past_end(y@, n as nat);
    }
    r.push(carry);
    r
}

proof fn lemma_sub_step(w: int, p: int, lo: int, nb: int, xi: int, yi: int, b: int, lowx: int, lowy: int)
    requires
        lo - nb * 0x1_0000_0000_0000_0000 == xi - yi - b,
        w - b * p == lowx - lowy,
    ensures
        w + lo * p - nb * (p * 0x1_0000_0000_0000_0000) == (lowx + xi * p) - (lowy + yi * p),
{
    assert(w + lo * p - nb * (p * 0x1_0000_0000_0000_0000) == (lowx + xi * p) - (lowy + yi * p))
        by (nonlinear_arith)
        requires
            lo - nb * 0x1_0000_0000_0000_0000 == xi - yi - b,
            w - b * p == lowx - lowy,
    ;
}

/// `x - y` and whether `x < y`; the difference is owed only where `x >= y`.
pub fn wide_sub(x: &Vec<u64>, y: &Vec<u64>) -> (r: (Vec<u64>, bool))
    ensures
        r.1 == (wide_value(x@) < wide_value(y@)),
        !r.1 ==> wide_value(r.0@) == wide_value(x@) - wide_value(y@),
{
    let n = if x.len() < y.len() {
        y.len()
    } else {
        x.len()
    };
    let mut r: Vec<u64> = Vec::new();
    let mut borrow: u64 = 0;
    let mut i: usize = 0;
    while i < n
        invariant
            n >= x@.len(),
            n >= y@.len(),
            i <= n,
            r@.len() == i,
            borrow <= 1,
            wide_value(r@) - borrow * radix_pow(i as nat) == low_limbs_value(x@, i as nat)
                - low_limbs_value(y@, i as nat),
        decreases n - i,
    {
        let xi = limb_or_zero(x, i);
        let yi = limb_or_zero(y, i);
        let owed: u128 = (yi as u128) + (borrow as u128);
        let (lo, nb): (u64, u64) = if (xi as u128) >= owed {
            (((xi as u128) - owed) as u64, 0)
        } else {
            (((xi as u128) + 0x1_0000_0000_0000_0000u128 - owed) as u64, 1)
        };
        proof {
            lemma_push_limb(r@, lo);
            lemma_sub_step(
                wide_value(r@),
                radix_pow(i as nat),
                lo as int,
                nb as int,
                xi as int,
                yi as int,
                borrow as int,
                low_limbs_value(x@, i as nat),
                low_limbs_value(y@, i as nat),
            );
        }
        r.push(lo);
        borrow = nb;
        i = i + 1;
    }
    proof {
        lemma_low_limbs_past_end(x@, n as nat);
        lemma_low_limbs_past_end(y@, n as nat);
        lemma_low_limbs_bound(r@, n as nat);
    }
    (r, borrow == 1)
}

/// The number `v` as limbs.
pub fn wide_from_u64(v: u64) -> (r: Vec<u64>)
    ensures
        wide_value(r@) == v,
{
    let mut r: Vec<u64> = Vec::new();
    proof {
        lemma_push_limb(r@, v);
    }
    r.push(v);
    r
}

} // verus!
