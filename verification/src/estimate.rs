//! The completion estimate that a timestamp of the child gives.
//!
//! The length of the media is not known, so the elapsed time is held against
//! a fixed span of ten minutes. The estimate is the nearest whole percentage
//! of that span, and it never reaches one hundred: only the end of the run
//! says that the work is done.

use vstd::prelude::*;
use vstd::arithmetic::div_mod::lemma_fundamental_div_mod_converse;
use crate::decimal::{all_digits, decimal_value, is_digit, least};

verus! {

/// The span, in seconds, against which elapsed time is held.
pub const ASSUMED_DURATION_SECS: usize = 600;

/// The largest estimate that a timestamp gives.
pub const ESTIMATE_CEILING: usize = 99;

/// Ten to the power `k`.
pub open spec fn pow10(k: nat) -> nat
    decreases k,
{
    if k == 0 {
        1
    } else {
        10 * pow10((k - 1) as nat)
    }
}

/// The elapsed time, in seconds, as the numerator of a fraction over
/// `pow10(fraction.len())`: `whole` seconds and the decimal places `fraction`.
pub open spec fn elapsed(hours: nat, minutes: nat, whole: nat, fraction: Seq<char>) -> nat {
    (hours * 3600 + minutes * 60 + whole) * pow10(fraction.len()) + decimal_value(fraction)
}

/// The whole number nearest to `100 * (num / den) / ASSUMED_DURATION_SECS`,
/// a half rounded upwards.
pub open spec fn nearest_percent(num: nat, den: nat) -> int
    recommends
        den > 0,
{
    (2 * 100 * num + ASSUMED_DURATION_SECS * den) / (2 * ASSUMED_DURATION_SECS * den)
}

/// The estimate for a timestamp of `hours`, `minutes` and seconds written as
/// the digits `whole`, a point and the digits `fraction`.
pub open spec fn time_estimate(hours: nat, minutes: nat, whole: Seq<char>, fraction: Seq<char>) -> int {
    least(
        ESTIMATE_CEILING as int,
        nearest_percent(
            elapsed(hours, minutes, decimal_value(whole), fraction),
            pow10(fraction.len()),
        ),
    )
}

/// A power of ten is positive.
pub proof fn lemma_pow10_positive(k: nat)
    ensures
        pow10(k) > 0,
    decreases k,
{
    if k > 0 {
        lemma_pow10_positive((k - 1) as nat);
    }
}

/// A run of `k` digits writes a number below ten to the power `k`.
pub proof fn lemma_value_below_pow10(s: Seq<char>)
    requires
        all_digits(s),
    ensures
        decimal_value(s) < pow10(s.len()),
    decreases s.len(),
{
    if s.len() > 0 {
        let head = s.drop_last();
        assert forall|i: int| 0 <= i < head.len() implies is_digit(#[trigger] head[i]) by {
            assert(head[i] == s[i]);
        }
        lemma_value_below_pow10(head);
        assert(is_digit(s[s.len() - 1]));
    }
}

/// The decimal places of a timestamp never change the nearest percentage:
/// it is that of the whole seconds alone.
pub proof fn lemma_nearest_percent_of_whole(seconds: nat, places: nat, den: nat)
    requires
        den > 0,
        places < den,
    ensures
        nearest_percent(seconds * den + places, den) == (seconds + 3) / 6,
{
    let q = ((seconds + 3) / 6) as int;
    let r = ((seconds + 3) % 6) as int;
    let num: int = (200 * (seconds * den + places) + 600 * den) as int;
    let rest: int = 200 * den * r + 200 * places;
    assert(seconds + 3 == 6 * q + r);
    assert(num == 200 * den * (seconds + 3) + 200 * places) by (nonlinear_arith)
        requires
            num == 200 * (seconds * den + places) + 600 * den,
    ;
    assert(200 * den * (seconds + 3) == 1200 * den * q + 200 * den * r) by (nonlinear_arith)
        requires
            seconds + 3 == 6 * q + r,
    ;
    assert(0 <= rest < 1200 * den) by (nonlinear_arith)
        requires
            rest == 200 * den * r + 200 * places,
            0 <= r <= 5,
            0 <= places < den,
    ;
    assert(num == q * (1200 * den) + rest) by (nonlinear_arith)
        requires
            num == 200 * den * (seconds + 3) + 200 * places,
            200 * den * (seconds + 3) == 1200 * den * q + 200 * den * r,
            rest == 200 * den * r + 200 * places,
    ;
    lemma_fundamental_div_mod_converse(num, 1200 * (den as int), q, rest);
}

/// The estimate for a timestamp of whole seconds.
pub open spec fn whole_estimate(hours: nat, minutes: nat, seconds: nat) -> int {
    least(ESTIMATE_CEILING as int, nearest_percent(hours * 3600 + minutes * 60 + seconds, 1))
}

/// The decimal places of a timestamp do not count: its estimate is that of
/// its whole seconds.
pub proof fn lemma_places_do_not_count(
    hours: nat,
    minutes: nat,
    whole: Seq<char>,
    fraction: Seq<char>,
)
    requires
        all_digits(fraction),
    ensures
        time_estimate(hours, minutes, whole, fraction) == whole_estimate(
            hours,
            minutes,
            decimal_value(whole),
        ),
{
    let total = hours * 3600 + minutes * 60 + decimal_value(whole);
    lemma_pow10_positive(fraction.len());
    lemma_value_below_pow10(fraction);
    lemma_nearest_percent_of_whole(total, decimal_value(fraction), pow10(fraction.len()));
    lemma_nearest_percent_of_whole(total, 0, 1);
}

/// Seconds beyond the assumed span do not count: the estimate is at its
/// ceiling from there on.
pub proof fn lemma_estimate_saturates(hours: nat, minutes: nat, seconds: nat)
    ensures
        whole_estimate(hours, minutes, seconds) == whole_estimate(
            hours,
            minutes,
            least(seconds as int, ASSUMED_DURATION_SECS as int) as nat,
        ),
{
    let capped = least(seconds as int, ASSUMED_DURATION_SECS as int) as nat;
    lemma_nearest_percent_of_whole(hours * 3600 + minutes * 60 + seconds, 0, 1);
    lemma_nearest_percent_of_whole(hours * 3600 + minutes * 60 + capped, 0, 1);
}

/// The estimate for a timestamp of `hours`, `minutes` and whole `seconds`.
pub fn estimate(hours: usize, minutes: usize, seconds: usize) -> (percent: usize)
    ensures
        percent == whole_estimate(hours as nat, minutes as nat, seconds as nat),
        percent <= ESTIMATE_CEILING,
{
    proof {
        lemma_nearest_percent_of_whole((hours * 3600 + minutes * 60 + seconds) as nat, 0, 1);
    }
    if hours > 0 || minutes >= 10 || seconds >= ASSUMED_DURATION_SECS {
        ESTIMATE_CEILING
    } else {
        let nearest = (minutes * 60 + seconds + 3) / 6;
        if nearest > ESTIMATE_CEILING {
            ESTIMATE_CEILING
        } else {
            nearest
        }
    }
}

} // verus!
