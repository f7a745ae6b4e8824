//! From a line of the child's output to a percentage.
//!
//! A line is searched for a timestamp first, `time=` with hours, minutes and
//! seconds, and only where it holds none for a number followed by a percent
//! sign. A timestamp gives an estimate; a percentage is taken as it stands.

use vstd::prelude::*;
use crate::decimal::{
    all_digits, decimal_value, digits_end, machine_number, read_capped, read_number, skip_digits,
};
use crate::estimate::{
    estimate, lemma_estimate_saturates, lemma_places_do_not_count, time_estimate,
    ASSUMED_DURATION_SECS,
};
use crate::matcher::{group_at, group_chars, groups_view, regex_search, search, Search, SearchView};
use crate::text::chars_of;

verus! {

/// The pattern of a timestamp: group 1 the hours, group 2 the minutes,
/// group 3 the seconds with their decimal places.
pub const TIME_PATTERN: &'static str = r"time=(\d+):(\d+):(\d+\.\d+)";

/// The pattern of a percentage: group 1 the number before the sign.
pub const PERCENT_PATTERN: &'static str = r"(\d+)%";

/// The two runs of digits of a seconds field, before and behind its point.
/// The field is a non-empty run of ASCII digits, a point, and another
/// non-empty run of ASCII digits.
pub open spec fn seconds_parts(s: Seq<char>) -> Option<(Seq<char>, Seq<char>)> {
    let point = digits_end(s, 0);
    if 0 < point && point + 1 < s.len() && s[point] == '.' && all_digits(s.skip(point + 1)) {
        Some((s.take(point), s.skip(point + 1)))
    } else {
        None
    }
}

/// The estimate that the three fields of a timestamp give: none where the
/// hours or the minutes are no number that a `usize` holds, or where the
/// seconds are not written as `seconds_parts` asks.
pub open spec fn fields_progress(hours: Seq<char>, minutes: Seq<char>, seconds: Seq<char>) -> Option<
    usize,
> {
    match (machine_number(hours), machine_number(minutes), seconds_parts(seconds)) {
        (Some(h), Some(m), Some((whole, fraction))) => Some(
            time_estimate(h as nat, m as nat, whole, fraction) as usize,
        ),
        _ => None,
    }
}

/// The estimate that a match of `TIME_PATTERN` gives.
pub open spec fn timestamp_progress(groups: Seq<Option<Seq<char>>>) -> Option<usize> {
    match (group_at(groups, 1), group_at(groups, 2), group_at(groups, 3)) {
        (Some(hours), Some(minutes), Some(seconds)) => fields_progress(hours, minutes, seconds),
        _ => None,
    }
}

/// The percentage that a match of `PERCENT_PATTERN` gives: the number of its
/// group 1 as it stands, where a `usize` holds it.
pub open spec fn percentage_progress(groups: Seq<Option<Seq<char>>>) -> Option<usize> {
    match group_at(groups, 1) {
        Some(digits) => machine_number(digits),
        None => None,
    }
}

/// The progress that one line gives, from what the two searches of it found.
/// The timestamp comes first; the percentage counts only where the line
/// holds no timestamp.
pub open spec fn progress_of(time: SearchView, percent: SearchView) -> Option<usize> {
    match time {
        SearchView::Invalid => None,
        SearchView::Found(groups) => timestamp_progress(groups),
        SearchView::Absent => match percent {
            SearchView::Invalid => None,
            SearchView::Found(groups) => percentage_progress(groups),
            SearchView::Absent => None,
        },
    }
}

/// The progress that the line `line` gives.
pub open spec fn line_progress(line: Seq<char>) -> Option<usize> {
    progress_of(regex_search(TIME_PATTERN@, line), regex_search(PERCENT_PATTERN@, line))
}

/// The estimate for the hours, minutes and seconds of a timestamp, each as
/// it is written.
pub fn progress_from_fields(hours: &str, minutes: &str, seconds: &str) -> (r: Option<usize>)
    ensures
        r == fields_progress(hours@, minutes@, seconds@),
{
    let h_chars = chars_of(hours);
    let m_chars = chars_of(minutes);
    let s_chars = chars_of(seconds);
    proof {
        assert(h_chars@.subrange(0, h_chars@.len() as int) == hours@);
        assert(m_chars@.subrange(0, m_chars@.len() as int) == minutes@);
    }
    let h = match read_number(&h_chars, 0, h_chars.len()) {
        Some(h) => h,
        None => { return None; },
    };
    let m = match read_number(&m_chars, 0, m_chars.len()) {
        Some(m) => m,
        None => { return None; },
    };
    let len = s_chars.len();
    let point = skip_digits(&s_chars, 0);
    if point == 0 || point >= len || len - point < 2 || s_chars[point] != '.' {
        return None;
    }
    let end = skip_digits(&s_chars, point + 1);
    let ghost whole = seconds@.take(point as int);
    let ghost fraction = seconds@.skip(point + 1);
    if end < len {
        proof {
            assert(fraction[end - point - 1] == s_chars@[end as int]);
        }
        return None;
    }
    proof {
        assert(s_chars@.subrange(point + 1, end as int) == fraction);
        assert(s_chars@.subrange(0, point as int) == whole);
        lemma_places_do_not_count(h as nat, m as nat, whole, fraction);
        lemma_estimate_saturates(h as nat, m as nat, decimal_value(whole));
    }
    let seconds_read = read_capped(&s_chars, 0, point, ASSUMED_DURATION_SECS);
    Some(estimate(h, m, seconds_read))
}

/// The estimate that a match of `TIME_PATTERN` gives, from the texts of its
/// groups.
pub fn progress_from_timestamp(groups: &Vec<Option<String>>) -> (r: Option<usize>)
    ensures
        r == timestamp_progress(groups_view(groups@)),
{
    if groups.len() < 4 {
        return None;
    }
    match (&groups[1], &groups[2], &groups[3]) {
        (Some(hours), Some(minutes), Some(seconds)) => progress_from_fields(
            hours.as_str(),
            minutes.as_str(),
            seconds.as_str(),
        ),
        _ => None,
    }
}

/// The percentage that a match of `PERCENT_PATTERN` gives, from the texts of
/// its groups.
pub fn progress_from_percentage(groups: &Vec<Option<String>>) -> (r: Option<usize>)
    ensures
        r == percentage_progress(groups_view(groups@)),
{
    match group_chars(groups, 1) {
        Some(digits) => {
            proof {
                assert(digits@.subrange(0, digits@.len() as int) == digits@);
            }
            read_number(&digits, 0, digits.len())
        },
        None => None,
    }
}

/// The progress of a line, from what the search for a timestamp and the
/// search for a percentage found in it.
pub fn resolve_progress(time: &Search, percent: &Search) -> (r: Option<usize>)
    ensures
        r == progress_of(time@, percent@),
{
    match time {
        Search::Invalid => None,
        Search::Found(groups) => progress_from_timestamp(groups),
        Search::Absent => match percent {
            Search::Invalid => None,
            Search::Found(groups) => progress_from_percentage(groups),
            Search::Absent => None,
        },
    }
}

/// Reads the progress off one line of the child's output.
///
/// A line in which neither pattern matches gives no progress: `None`, which
/// is neither zero nor an error.
pub fn parse_progress(line: &str) -> (r: Option<usize>)
    ensures
        r == line_progress(line@),
        regex_search(TIME_PATTERN@, line@) is Absent && regex_search(PERCENT_PATTERN@, line@)
            is Absent ==> r is None,
{
    let time = search(TIME_PATTERN, line);
    // The percentage is looked for only where the line holds no timestamp.
    let percent = match time {
        Search::Absent => search(PERCENT_PATTERN, line),
        _ => Search::Absent,
    };
    resolve_progress(&time, &percent)
}

} // verus!
