//! Breathing-gas recipes written as text: `"O2%"` for nitrox or
//! `"O2%,He%"` for trimix, each percentage with at most two decimals.
use crate::gas::{recipe_mix, recipe_nitrogen, GasError, GasMix};
use vstd::prelude::*;
use vstd::string::StringSliceAdditionalSpecFns;

verus! {

/// Why a recipe text was refused.
#[derive(Clone, Copy, Debug, PartialEq, Eq, Structural)]
pub enum RecipeError {
    /// A percentage is not digits with at most two decimals, or exceeds 100.
    BadPercentage,
    /// The percentages make no valid mix.
    Recipe(GasError),
}

pub open spec fn is_digit(b: u8) -> bool {
    48 <= b <= 57
}

pub open spec fn all_digits(s: Seq<u8>) -> bool {
    forall|i: int| 0 <= i < s.len() ==> is_digit(#[trigger] s[i])
}

/// The number that decimal digits spell.
pub open spec fn digits_value(s: Seq<u8>) -> int
    decreases s.len(),
{
    if s.len() == 0 {
        0
    } else {
        digits_value(s.drop_last()) * 10 + (s.last() - 48)
    }
}

/// `p` is the length of the run of digits that starts `s`.
pub open spec fn is_digit_run(s: Seq<u8>, p: int) -> bool {
    &&& 0 <= p <= s.len()
    &&& all_digits(s.take(p))
    &&& (p == s.len() || !is_digit(s[p]))
}

/// The length of the run of digits that starts `s`.
pub open spec fn digit_run(s: Seq<u8>) -> int {
    choose|p: int| is_digit_run(s, p)
}

/// `p` is the position of the first comma of `s`, or its length if none.
pub open spec fn is_first_comma(s: Seq<u8>, p: int) -> bool {
    &&& 0 <= p <= s.len()
    &&& forall|i: int| 0 <= i < p ==> #[trigger] s[i] != 44
    &&& (p == s.len() || s[p] == 44)
}

/// The position of the first comma of `s`, or its length if none.
pub open spec fn first_comma(s: Seq<u8>) -> int {
    choose|p: int| is_first_comma(s, p)
}

/// A percentage in hundredths of a percent (which is also the gas fraction
/// in 1/10 000): digits, then optionally a point and at most two decimals,
/// with at least one digit in all; at most 100%.
pub open spec fn percent_value(s: Seq<u8>) -> Option<u32> {
    let p = digit_run(s);
    let rest = s.skip(p);
    let decimals = if rest.len() == 0 {
        rest
    } else {
        rest.skip(1)
    };
    let fraction = if decimals.len() == 0 {
        0
    } else if decimals.len() == 1 {
        digits_value(decimals) * 10
    } else {
        digits_value(decimals)
    };
    let value = digits_value(s.take(p)) * 100 + fraction;
    if (rest.len() == 0 || (rest[0] == 46 && rest.len() <= 3 && all_digits(decimals))) && (p > 0
        || decimals.len() > 0) && value <= 10000 {
        Some(value as u32)
    } else {
        None
    }
}

/// The mix a recipe text describes: with exactly one comma, oxygen then
/// helium percentages of a trimix; otherwise the oxygen percentage of a
/// nitrox before the first comma.
pub open spec fn gas_from_text(s: Seq<u8>) -> Result<GasMix, RecipeError> {
    let k = first_comma(s);
    let o2 = percent_value(s.take(k));
    let one_comma = k < s.len() && first_comma(s.skip(k + 1)) == s.len() - k - 1;
    if one_comma {
        let he = percent_value(s.skip(k + 1));
        match (o2, he) {
            (Some(o), Some(h)) => if recipe_nitrogen(h as int, o as int) >= 0 {
                Ok(recipe_mix(h, o))
            } else {
                Err(RecipeError::Recipe(GasError::NegativeNitrogen))
            },
            _ => Err(RecipeError::BadPercentage),
        }
    } else {
        match o2 {
            Some(o) => if recipe_nitrogen(0, o as int) >= 0 {
                Ok(recipe_mix(0, o))
            } else {
                Err(RecipeError::Recipe(GasError::NegativeNitrogen))
            },
            None => Err(RecipeError::BadPercentage),
        }
    }
}

proof fn lemma_digit_run_is(s: Seq<u8>, p: int)
    requires
        is_digit_run(s, p),
    ensures
        digit_run(s) == p,
{
    let q = digit_run(s);
    assert(is_digit_run(s, q));
    if q < p {
        assert(s.take(p)[q] == s[q]);
    } else if p < q {
        assert(s.take(q)[p] == s[p]);
    }
}

proof fn lemma_digit_run_exists(s: Seq<u8>)
    ensures
        exists|p: int| is_digit_run(s, p),
    decreases s.len(),
{
    if s.len() == 0 {
        assert(s.take(0) =~= s);
        assert(is_digit_run(s, 0));
    } else {
        let init = s.drop_last();
        lemma_digit_run_exists(init);
        let q = choose|q: int| is_digit_run(init, q);
        assert(init.take(q) =~= s.take(q));
        if q < init.len() {
            assert(is_digit_run(s, q));
        } else if is_digit(s.last()) {
            assert(all_digits(s.take(s.len() as int))) by {
                assert(s.take(s.len() as int) =~= s);
                assert forall|i: int| 0 <= i < s.len() implies is_digit(#[trigger] s[i]) by {
                    if i < init.len() {
                        assert(init.take(q)[i] == s[i]);
                    }
                }
            }
            assert(is_digit_run(s, s.len() as int));
        } else {
            assert(is_digit_run(s, q));
        }
    }
}

proof fn lemma_first_comma_is(s: Seq<u8>, p: int)
    requires
        is_first_comma(s, p),
    ensures
        first_comma(s) == p,
{
    let q = first_comma(s);
    assert(is_first_comma(s, q));
}

proof fn lemma_digits_value_grows(s: Seq<u8>, k: int)
    requires
        all_digits(s),
        0 <= k <= s.len(),
    ensures
        0 <= digits_value(s.take(k)) <= digits_value(s),
    decreases s.len(),
{
    if s.len() > 0 {
        let init = s.drop_last();
        assert(all_digits(init)) by {
            assert forall|i: int| 0 <= i < init.len() implies is_digit(#[trigger] init[i]) by {
                assert(init[i] == s[i]);
            }
        }
        assert(is_digit(s[s.len() - 1]));
        if k == s.len() {
            assert(s.take(k) =~= s);
            lemma_digits_value_grows(init, 0);
        } else {
            lemma_digits_value_grows(init, k);
            assert(init.take(k) =~= s.take(k));
        }
    } else {
        assert(s.take(k) =~= s);
    }
}

/// The first comma of `b[start..end]`, relative to `start`.
fn find_comma(b: &[u8], start: usize, end: usize) -> (r: usize)
    requires
        start <= end <= b@.len(),
    ensures
        is_first_comma(b@.subrange(start as int, end as int), r as int),
        r == first_comma(b@.subrange(start as int, end as int)),
{
    let ghost t = b@.subrange(start as int, end as int);
    let mut i = start;
    while i < end && b[i] != 44
        invariant
            start <= i <= end,
            end <= b@.len(),
            t == b@.subrange(start as int, end as int),
            forall|j: int| 0 <= j < i - start ==> #[trigger] t[j] != 44,
        decreases end - i,
    {
        i = i + 1;
    }
    proof {
        lemma_first_comma_is(t, i - start);
    }
    i - start
}

/// The percentage that `b[start..end]` spells, as `percent_value` reads it.
pub fn parse_percent(b: &[u8], start: usize, end: usize) -> (r: Option<u32>)
    requires
        start <= end <= b@.len(),
    ensures
        r == percent_value(b@.subrange(start as int, end as int)),
{
    let ghost t = b@.subrange(start as int, end as int);
    let mut i = start;
    let mut whole: u64 = 0;
    while i < end && 48 <= b[i] && b[i] <= 57
        invariant
            start <= i <= end,
            end <= b@.len(),
            t == b@.subrange(start as int, end as int),
            all_digits(t.take(i - start)),
            whole == digits_value(t.take(i - start)),
            whole <= 100,
        decreases end - i,
    {
        let ghost before = t.take(i - start);
        whole = whole * 10 + (b[i] - 48) as u64;
        i = i + 1;
        proof {
            let now = t.take(i - start);
            assert(now.drop_last() =~= before);
            assert(all_digits(now)) by {
                assert forall|j: int| 0 <= j < now.len() implies is_digit(#[trigger] now[j]) by {
                    if j < now.len() - 1 {
                        assert(now[j] == before[j]);
                    }
                }
            }
        }
        if whole > 100 {
            proof {
                lemma_digit_run_exists(t);
                let p = digit_run(t);
                // the whole run of digits is at least this prefix
                let k = i - start;
                assert(is_digit_run(t, p));
                if p < k {
                    assert(t.take(k)[p] == t[p]);
                }
                assert(t.take(p).take(k) =~= t.take(k));
                lemma_digits_value_grows(t.take(p), k);
                let rest = t.skip(p);
                if rest.len() > 0 && all_digits(rest.skip(1)) {
                    lemma_digits_value_grows(rest.skip(1), 0);
                }
            }
            return None;
        }
    }
    let p = i - start;
    proof {
        lemma_digit_run_is(t, p as int);
    }
    let ghost rest = t.skip(p as int);
    let fraction: u64;
    let mut decimals: usize = 0;
    if i == end {
        fraction = 0;
        proof {
            assert(rest.len() == 0);
        }
    } else {
        if b[i] != 46 || end - i > 3 {
            return None;
        }
        let mut f: u64 = 0;
        let mut j = i + 1;
        while j < end
            invariant
                i < j <= end,
                end - i <= 3,
                end <= b@.len(),
                t == b@.subrange(start as int, end as int),
                rest == t.skip(p as int),
                p == i - start,
                digit_run(t) == p,
                whole == digits_value(t.take(p as int)),
                whole <= 100,
                all_digits(rest.skip(1).take(j - i - 1)),
                f == digits_value(rest.skip(1).take(j - i - 1)),
                j - i - 1 == 0 ==> f == 0,
                j - i - 1 <= 1 ==> f <= 9,
                f <= 99,
            decreases end - j,
        {
            if b[j] < 48 || b[j] > 57 {
                proof {
                    let decimals = rest.skip(1);
                    assert(rest.len() > 0);
                    assert(decimals[j - i - 1] == b@[j as int]);
                    assert(!is_digit(decimals[j - i - 1]));
                    assert(!all_digits(decimals));
                }
                return None;
            }
            let ghost before = rest.skip(1).take(j - i - 1);
            f = f * 10 + (b[j] - 48) as u64;
            j = j + 1;
            proof {
                let now = rest.skip(1).take(j - i - 1);
                assert(now.drop_last() =~= before);
                assert(now.last() == b@[j - 1]);
                assert(all_digits(now)) by {
                    assert forall|m: int| 0 <= m < now.len() implies is_digit(#[trigger] now[m]) by {
                        if m < now.len() - 1 {
                            assert(now[m] == before[m]);
                        }
                    }
                }
            }
        }
        proof {
            assert(rest.skip(1).take(j - i - 1) =~= rest.skip(1));
        }
        decimals = end - i - 1;
        fraction = if decimals == 1 {
            f * 10
        } else {
            f
        };
    }
    if p == 0 && decimals == 0 {
        return None;
    }
    let value = whole * 100 + fraction;
    if value > 10000 {
        return None;
    }
    proof {
        assert(t.take(p as int) =~= t.take(i - start));
    }
    Some(value as u32)
}

/// The mix that a recipe text describes, as `gas_from_text` reads it.
pub fn str_to_gas(gas_str: &str) -> (r: Result<GasMix, RecipeError>)
    ensures
        r == gas_from_text(gas_str.spec_bytes()),
{
    let b = gas_str.as_bytes();
    let ghost s = b@;
    let n = b.len();
    let k = find_comma(b, 0, n);
    proof {
        assert(b@.subrange(0, n as int) =~= s);
        assert(s.take(k as int) =~= s.subrange(0, k as int));
    }
    let o2 = parse_percent(b, 0, k);
    let mut one_comma = false;
    if k < n {
        let k2 = find_comma(b, k + 1, n);
        proof {
            assert(s.skip(k + 1) =~= b@.subrange(k + 1, n as int));
        }
        one_comma = k2 == n - k - 1;
    }
    if one_comma {
        proof {
            assert(s.skip(k + 1) =~= b@.subrange(k + 1, n as int));
        }
        let he = parse_percent(b, k + 1, n);
        match (o2, he) {
            (Some(o), Some(h)) => match GasMix::new_trimix(h, o) {
                Ok(mix) => Ok(mix),
                Err(e) => Err(RecipeError::Recipe(e)),
            },
            _ => Err(RecipeError::BadPercentage),
        }
    } else {
        match o2 {
            Some(o) => match GasMix::new_nitrox(o) {
                Ok(mix) => Ok(mix),
                Err(e) => Err(RecipeError::Recipe(e)),
            },
            None => Err(RecipeError::BadPercentage),
        }
    }
}

} // verus!
