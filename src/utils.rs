use vstd::arithmetic::power::{lemma0_pow, lemma_pow1, lemma_pow_increases, pow};
use vstd::prelude::*;

verus! {

/// Deepest depth (centimetres) whose ambient pressure fits the pressure type.
pub const MAX_DEPTH_CM: u32 = 429_000_000;

/// Ambient pressure at depth: `(depth_m + 10) / 10` atm.
pub open spec fn ata_at(depth_cm: int) -> int {
    (depth_cm + 1000) * 10
}

/// Depth at which the ambient pressure is `ata`; zero above the surface.
pub open spec fn depth_at(ata: int) -> int {
    if ata >= 10000 {
        (ata - 10000) / 10
    } else {
        0
    }
}

/// Ambient pressure (10^-4 atm) at a depth given in centimetres.
pub fn calc_ata(depth_cm: u32) -> (r: u32)
    requires
        depth_cm <= MAX_DEPTH_CM,
    ensures
        r == ata_at(depth_cm as int),
{
    (depth_cm + 1000) * 10
}

/// Depth (centimetres) at which the ambient pressure is `ata` (10^-4 atm).
pub fn calc_depth(ata: u32) -> (r: u32)
    ensures
        r == depth_at(ata as int),
{
    if ata >= 10000 {
        (ata - 10000) / 10
    } else {
        0
    }
}

/// `r` is the integer `n`-th root of `x`, rounded down.
pub open spec fn is_int_root(r: int, x: int, n: nat) -> bool {
    r >= 0 && pow(r, n) <= x && x < pow(r + 1, n)
}

/// The integer `n`-th root of `x`, rounded down.
pub open spec fn int_root(x: nat, n: nat) -> nat {
    choose|r: nat| is_int_root(r as int, x as int, n)
}

pub proof fn lemma_pow_base_monotonic(a: int, b: int, n: nat)
    requires
        0 <= a <= b,
    ensures
        0 <= pow(a, n) <= pow(b, n),
    decreases n,
{
    reveal(pow);
    if n > 0 {
        lemma_pow_base_monotonic(a, b, (n - 1) as nat);
        let pa = pow(a, (n - 1) as nat);
        let pb = pow(b, (n - 1) as nat);
        assert(0 <= a * pa <= b * pb) by (nonlinear_arith)
            requires
                0 <= a <= b,
                0 <= pa <= pb,
        ;
    }
}

/// The integer root is unique.
pub proof fn lemma_int_root_unique(r1: int, r2: int, x: int, n: nat)
    requires
        is_int_root(r1, x, n),
        is_int_root(r2, x, n),
    ensures
        r1 == r2,
{
    if r1 < r2 {
        lemma_pow_base_monotonic(r1 + 1, r2, n);
    } else if r2 < r1 {
        lemma_pow_base_monotonic(r2 + 1, r1, n);
    }
}

/// A witness of the root is the root.
pub proof fn lemma_int_root_is(r: int, x: nat, n: nat)
    requires
        is_int_root(r, x as int, n),
    ensures
        int_root(x, n) == r,
{
    let w = r as nat;
    assert(is_int_root(w as int, x as int, n));
    let c = int_root(x, n);
    assert(is_int_root(c as int, x as int, n));
    lemma_int_root_unique(c as int, r, x as int, n);
}

/// Whether `base` raised to `n` is at most `limit`.
fn pow_at_most(base: u64, n: u32, limit: u64) -> (r: bool)
    ensures
        r == (pow(base as int, n as nat) <= limit),
{
    let ghost b = base as int;
    let mut acc: u128 = 1;
    let mut i: u32 = 0;
    proof {
        reveal(pow);
    }
    while i < n
        invariant
            i <= n,
            b == base as int,
            acc == pow(b, i as nat),
            acc <= 0xffff_ffff_ffff_ffffu128,
        decreases n - i,
    {
        proof {
            assert(acc * base <= 0xffff_ffff_ffff_ffffu128 * 0xffff_ffff_ffff_ffffu128) by (nonlinear_arith)
                requires
                    acc <= 0xffff_ffff_ffff_ffffu128,
                    base <= 0xffff_ffff_ffff_ffffu64,
            ;
        }
        let ghost prev = acc;
        acc = acc * base as u128;
        i = i + 1;
        proof {
            reveal(pow);
            assert(pow(b, i as nat) == b * pow(b, (i - 1) as nat));
            assert(acc == b * prev) by (nonlinear_arith)
                requires
                    acc == prev * b,
            ;
        }
        if acc > limit as u128 {
            proof {
                if base == 0 {
                    lemma0_pow(i as nat);
                } else {
                    lemma_pow_increases(base as nat, i as nat, n as nat);
                }
            }
            return false;
        }
    }
    acc <= limit as u128
}

/// Integer `root_n`-th root of `num`, rounded down.
pub fn n_root(num: u64, root_n: u32) -> (r: u64)
    requires
        root_n >= 1,
    ensures
        is_int_root(r as int, num as int, root_n as nat),
        r == int_root(num as nat, root_n as nat),
{
    let ghost n = root_n as nat;
    proof {
        lemma0_pow(n);
        lemma_pow1(num as int + 1);
        lemma_pow_increases((num + 1) as nat, 1, n);
    }
    let mut lo: u64 = 0;
    let mut hi: u64 = num;
    while lo < hi
        invariant
            lo <= hi <= num,
            n == root_n as nat,
            pow(lo as int, n) <= num,
            (num as int) < pow(hi as int + 1, n),
        decreases hi - lo,
    {
        let mid: u64 = lo + (hi - lo) / 2 + (hi - lo) % 2;
        if pow_at_most(mid, root_n, num) {
            lo = mid;
        } else {
            hi = mid - 1;
        }
    }
    proof {
        lemma_int_root_is(lo as int, num as nat, n);
    }
    lo
}

} // verus!
