//! The ZHL-16 compartment constants.
use vstd::prelude::*;

verus! {

/// Nitrogen half-times of the sixteen compartments (10^-4 minutes).
pub open spec fn n2_half_time(i: int) -> int {
    if i == 0 {
        40000
    } else if i == 1 {
        80000
    } else if i == 2 {
        125000
    } else if i == 3 {
        185000
    } else if i == 4 {
        270000
    } else if i == 5 {
        383000
    } else if i == 6 {
        543000
    } else if i == 7 {
        770000
    } else if i == 8 {
        1090000
    } else if i == 9 {
        1460000
    } else if i == 10 {
        1870000
    } else if i == 11 {
        2390000
    } else if i == 12 {
        3050000
    } else if i == 13 {
        3900000
    } else if i == 14 {
        4980000
    } else {
        6350000
    }
}

/// Helium half-times of the sixteen compartments (10^-4 minutes).
pub open spec fn he_half_time(i: int) -> int {
    if i == 0 {
        15119
    } else if i == 1 {
        30237
    } else if i == 2 {
        47245
    } else if i == 3 {
        69923
    } else if i == 4 {
        102050
    } else if i == 5 {
        144760
    } else if i == 6 {
        205234
    } else if i == 7 {
        291032
    } else if i == 8 {
        411980
    } else if i == 9 {
        551826
    } else if i == 10 {
        706791
    } else if i == 11 {
        903332
    } else if i == 12 {
        1152788
    } else if i == 13 {
        1474056
    } else if i == 14 {
        1882256
    } else {
        2400066
    }
}

/// Per-second nitrogen exchange rate of each compartment (units of `RATE_ONE`):
/// `1 - 2^(-1 / (60 * half_time_in_minutes))`, rounded to nearest.
pub open spec fn n2_rate(i: int) -> int {
    if i == 0 {
        2883947
    } else if i == 1 {
        1443014
    } else if i == 2 {
        923769
    } else if i == 3 {
        624262
    } else if i == 4 {
        427777
    } else if i == 5 {
        301585
    } else if i == 6 {
        212730
    } else if i == 7 {
        150021
    } else if i == 8 {
        105980
    } else if i == 9 {
        79123
    } else if i == 10 {
        61776
    } else if i == 11 {
        48335
    } else if i == 12 {
        37876
    } else if i == 13 {
        29621
    } else if i == 14 {
        23197
    } else {
        18193
    }
}

/// Per-second helium exchange rate of each compartment (units of `RATE_ONE`).
pub open spec fn he_rate(i: int) -> int {
    if i == 0 {
        7611898
    } else if i == 1 {
        3813345
    } else if i == 2 {
        2442235
    } else if i == 3 {
        1650804
    } else if i == 4 {
        1131398
    } else if i == 5 {
        797723
    } else if i == 6 {
        562733
    } else if i == 7 {
        396869
    } else if i == 8 {
        280374
    } else if i == 9 {
        209328
    } else if i == 10 {
        163436
    } else if i == 11 {
        127879
    } else if i == 12 {
        100208
    } else if i == 13 {
        78369
    } else if i == 14 {
        61374
    } else {
        48133
    }
}

/// Nitrogen half-time of compartment `i` (10^-4 minutes).
pub fn n2_half_time_of(i: usize) -> (r: u64)
    requires
        i < 16,
    ensures
        r == n2_half_time(i as int),
{
    match i {
        0 => 40000,
        1 => 80000,
        2 => 125000,
        3 => 185000,
        4 => 270000,
        5 => 383000,
        6 => 543000,
        7 => 770000,
        8 => 1090000,
        9 => 1460000,
        10 => 1870000,
        11 => 2390000,
        12 => 3050000,
        13 => 3900000,
        14 => 4980000,
        _ => 6350000,
    }
}

/// Helium half-time of compartment `i` (10^-4 minutes).
pub fn he_half_time_of(i: usize) -> (r: u64)
    requires
        i < 16,
    ensures
        r == he_half_time(i as int),
{
    match i {
        0 => 15119,
        1 => 30237,
        2 => 47245,
        3 => 69923,
        4 => 102050,
        5 => 144760,
        6 => 205234,
        7 => 291032,
        8 => 411980,
        9 => 551826,
        10 => 706791,
        11 => 903332,
        12 => 1152788,
        13 => 1474056,
        14 => 1882256,
        _ => 2400066,
    }
}

/// Per-second nitrogen exchange rate of compartment `i`.
pub fn n2_rate_of(i: usize) -> (r: u64)
    requires
        i < 16,
    ensures
        r == n2_rate(i as int),
{
    match i {
        0 => 2883947,
        1 => 1443014,
        2 => 923769,
        3 => 624262,
        4 => 427777,
        5 => 301585,
        6 => 212730,
        7 => 150021,
        8 => 105980,
        9 => 79123,
        10 => 61776,
        11 => 48335,
        12 => 37876,
        13 => 29621,
        14 => 23197,
        _ => 18193,
    }
}

/// Per-second helium exchange rate of compartment `i`.
pub fn he_rate_of(i: usize) -> (r: u64)
    requires
        i < 16,
    ensures
        r == he_rate(i as int),
{
    match i {
        0 => 7611898,
        1 => 3813345,
        2 => 2442235,
        3 => 1650804,
        4 => 1131398,
        5 => 797723,
        6 => 562733,
        7 => 396869,
        8 => 280374,
        9 => 209328,
        10 => 163436,
        11 => 127879,
        12 => 100208,
        13 => 78369,
        14 => 61374,
        _ => 48133,
    }
}

/// Every table entry lies in the range the kinetics and coefficients need.
pub proof fn lemma_tables_in_range(i: int)
    requires
        0 <= i < 16,
    ensures
        15119 <= he_half_time(i) <= n2_half_time(i) <= 6350000,
        0 < n2_rate(i) <= 1_000_000_000,
        0 < he_rate(i) <= 1_000_000_000,
{
}

} // verus!
