//! Single-exponential gas exchange, advanced one second at a time.
//!
//! Over one second a compartment closes the fraction `rate / RATE_ONE` of the
//! gap between its partial pressure and the inspired one, where
//! `rate / RATE_ONE = 1 - 2^(-1 / half_time_in_seconds)`. The change is
//! rounded away from zero, so the gap shrinks by at least one unit per second
//! whenever it is open, is never overshot, and closes exactly.
use vstd::prelude::*;

verus! {

/// The unit of a per-second exchange rate: a rate of `RATE_ONE` closes the
/// whole gap in one second.
pub const RATE_ONE: u64 = 1_000_000_000;

pub open spec fn valid_rate(rate: int) -> bool {
    0 < rate <= RATE_ONE
}

/// `a / d` rounded up, for `a >= 0` and `d > 0`.
pub open spec fn ceil_div(a: int, d: int) -> int {
    (a + d - 1) / d
}

/// Partial pressure after one second of exchange towards `inspired`.
pub open spec fn step(x: int, inspired: int, rate: int) -> int {
    if x <= inspired {
        x + ceil_div((inspired - x) * rate, RATE_ONE as int)
    } else {
        x - ceil_div((x - inspired) * rate, RATE_ONE as int)
    }
}

/// Partial pressure after `seconds` of exchange towards `inspired`.
pub open spec fn relax(x: int, inspired: int, rate: int, seconds: nat) -> int
    decreases seconds,
{
    if seconds == 0 {
        x
    } else {
        relax(step(x, inspired, rate), inspired, rate, (seconds - 1) as nat)
    }
}

/// `count` exposures of `seconds` each, one after the other.
pub open spec fn relax_repeated(x: int, inspired: int, rate: int, seconds: nat, count: nat) -> int
    decreases count,
{
    if count == 0 {
        x
    } else {
        relax_repeated(relax(x, inspired, rate, seconds), inspired, rate, seconds, (count - 1) as nat)
    }
}

proof fn lemma_ceil_div_bounds(gap: int, rate: int)
    requires
        gap >= 0,
        valid_rate(rate),
    ensures
        0 <= ceil_div(gap * rate, RATE_ONE as int) <= gap,
        gap > 0 ==> ceil_div(gap * rate, RATE_ONE as int) >= 1,
{
    let s = RATE_ONE as int;
    assert(0 <= gap * rate <= gap * s) by (nonlinear_arith)
        requires
            gap >= 0,
            0 < rate <= s,
    ;
    assert(gap * s + s - 1 < (gap + 1) * s) by (nonlinear_arith)
        requires
            s > 0,
    ;
    assert((gap * rate + s - 1) / s <= gap) by (nonlinear_arith)
        requires
            gap * rate + s - 1 < (gap + 1) * s,
            gap * rate + s - 1 >= 0,
            s > 0,
    ;
    if gap > 0 {
        assert(gap * rate >= 1) by (nonlinear_arith)
            requires
                gap >= 1,
                rate >= 1,
        ;
        assert((gap * rate + s - 1) / s >= 1) by (nonlinear_arith)
            requires
                gap * rate + s - 1 >= s,
                s > 0,
        ;
    }
}

/// One second moves towards the inspired pressure, by at least one unit
/// while the gap is open, and never past it.
pub proof fn lemma_step_towards(x: int, inspired: int, rate: int)
    requires
        valid_rate(rate),
    ensures
        x <= inspired ==> x <= step(x, inspired, rate) <= inspired,
        x >= inspired ==> inspired <= step(x, inspired, rate) <= x,
        x < inspired ==> x < step(x, inspired, rate),
        x > inspired ==> step(x, inspired, rate) < x,
        x == inspired ==> step(x, inspired, rate) == x,
{
    if x <= inspired {
        lemma_ceil_div_bounds(inspired - x, rate);
    } else {
        lemma_ceil_div_bounds(x - inspired, rate);
    }
}

proof fn lemma_relax_at_rest(inspired: int, rate: int, seconds: nat)
    requires
        valid_rate(rate),
    ensures
        relax(inspired, inspired, rate, seconds) == inspired,
    decreases seconds,
{
    if seconds > 0 {
        lemma_step_towards(inspired, inspired, rate);
        lemma_relax_at_rest(inspired, rate, (seconds - 1) as nat);
    }
}

/// Exposure splits at any instant: `a + b` seconds are `a` seconds followed
/// by `b` seconds under the same conditions.
pub proof fn lemma_relax_adds(x: int, inspired: int, rate: int, a: nat, b: nat)
    ensures
        relax(x, inspired, rate, a + b) == relax(relax(x, inspired, rate, a), inspired, rate, b),
    decreases a,
{
    if a > 0 {
        lemma_relax_adds(step(x, inspired, rate), inspired, rate, (a - 1) as nat, b);
        assert((a + b - 1) as nat == ((a - 1) as nat + b));
    }
}

/// Step-size invariance: one exposure of `seconds * count` seconds gives the
/// same partial pressure as `count` equal exposures of `seconds` each.
pub proof fn lemma_step_size_invariance(x: int, inspired: int, rate: int, seconds: nat, count: nat)
    ensures
        relax(x, inspired, rate, seconds * count) == relax_repeated(x, inspired, rate, seconds, count),
    decreases count,
{
    if count == 0 {
        assert(seconds * count == 0) by (nonlinear_arith)
            requires
                count == 0,
        ;
    } else {
        let rest = (count - 1) as nat;
        assert(seconds * count == seconds + seconds * rest) by (nonlinear_arith)
            requires
                rest == count - 1,
        ;
        lemma_relax_adds(x, inspired, rate, seconds, seconds * rest);
        lemma_step_size_invariance(relax(x, inspired, rate, seconds), inspired, rate, seconds, rest);
    }
}

/// Monotonic convergence: at constant conditions the partial pressure moves
/// monotonically towards the inspired pressure, never past it, and reaches
/// it once as many seconds have passed as the initial gap has units.
pub proof fn lemma_monotonic_convergence(x: int, inspired: int, rate: int, seconds: nat)
    requires
        valid_rate(rate),
    ensures
        x <= inspired ==> x <= relax(x, inspired, rate, seconds) <= relax(x, inspired, rate, seconds + 1) <= inspired,
        x >= inspired ==> inspired <= relax(x, inspired, rate, seconds + 1) <= relax(x, inspired, rate, seconds) <= x,
        seconds >= x - inspired && seconds >= inspired - x ==> relax(x, inspired, rate, seconds) == inspired,
    decreases seconds,
{
    let y = step(x, inspired, rate);
    lemma_step_towards(x, inspired, rate);
    assert(relax(x, inspired, rate, seconds + 1) == relax(y, inspired, rate, seconds));
    if seconds == 0 {
        assert(relax(y, inspired, rate, 0) == y);
        if x == inspired {
            lemma_relax_at_rest(inspired, rate, 1);
        }
    } else {
        lemma_monotonic_convergence(y, inspired, rate, (seconds - 1) as nat);
        assert((seconds - 1) as nat + 1 == seconds);
        assert(relax(x, inspired, rate, seconds) == relax(y, inspired, rate, (seconds - 1) as nat));
        if x == inspired {
            lemma_relax_at_rest(inspired, rate, seconds);
        }
    }
}

proof fn lemma_step_reflects(x: int, p0: int, p1: int, rate: int)
    ensures
        step(p0 + p1 - x, p0, rate) == p0 + p1 - step(x, p1, rate),
{
    let y = p0 + p1 - x;
    if x < p1 {
        assert(y - p0 == p1 - x);
    } else if x > p1 {
        assert(p0 - y == x - p1);
    } else {
        assert(y == p0);
        assert((p1 - x) * rate == 0 && (y - p0) * rate == 0) by (nonlinear_arith)
            requires
                x == p1,
                y == p0,
        ;
    }
}

proof fn lemma_relax_reflects(x: int, p0: int, p1: int, rate: int, seconds: nat)
    ensures
        relax(p0 + p1 - x, p0, rate, seconds) == p0 + p1 - relax(x, p1, rate, seconds),
    decreases seconds,
{
    if seconds > 0 {
        lemma_step_reflects(x, p0, p1, rate);
        lemma_relax_reflects(step(x, p1, rate), p0, p1, rate, (seconds - 1) as nat);
    }
}

/// Round-trip symmetry: starting at rest at one pressure, the gain during
/// an exposure to a second pressure equals the loss during an exposure of
/// the same length back at the first, starting at rest at the second.
pub proof fn lemma_round_trip_symmetry(p0: int, p1: int, rate: int, seconds: nat)
    ensures
        relax(p0, p1, rate, seconds) - p0 == p1 - relax(p1, p0, rate, seconds),
{
    lemma_relax_reflects(p0, p0, p1, rate, seconds);
}

/// Partial pressure after one second of exchange.
fn step_exec(x: u64, inspired: u64, rate: u64) -> (r: u64)
    requires
        valid_rate(rate as int),
    ensures
        r == step(x as int, inspired as int, rate as int),
{
    proof {
        lemma_step_towards(x as int, inspired as int, rate as int);
    }
    let gap: u64 = if x <= inspired {
        inspired - x
    } else {
        x - inspired
    };
    proof {
        assert(gap as int * rate as int <= 0xffff_ffff_ffff_ffffu64 as int * RATE_ONE as int) by (nonlinear_arith)
            requires
                gap <= 0xffff_ffff_ffff_ffffu64,
                rate <= RATE_ONE,
        ;
    }
    let change = ((gap as u128 * rate as u128 + (RATE_ONE as u128 - 1)) / RATE_ONE as u128) as u64;
    if x <= inspired {
        x + change
    } else {
        x - change
    }
}

/// Partial pressure after `seconds` of exchange towards `inspired`.
pub fn relax_exec(x: u64, inspired: u64, rate: u64, seconds: u64) -> (r: u64)
    requires
        valid_rate(rate as int),
    ensures
        r == relax(x as int, inspired as int, rate as int, seconds as nat),
{
    let mut cur = x;
    let mut i: u64 = 0;
    while i < seconds
        invariant
            valid_rate(rate as int),
            i <= seconds,
            relax(x as int, inspired as int, rate as int, seconds as nat)
                == relax(cur as int, inspired as int, rate as int, (seconds - i) as nat),
        decreases seconds - i,
    {
        if cur == inspired {
            proof {
                lemma_relax_at_rest(inspired as int, rate as int, (seconds - i) as nat);
            }
            return cur;
        }
        cur = step_exec(cur, inspired, rate);
        i = i + 1;
    }
    cur
}

} // verus!
