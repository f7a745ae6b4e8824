//! What holds of every run.

use vstd::prelude::*;
use crate::command::{
    available, conclusion, finished, output_path_of, Operation, OutcomeView, Probe, COMPLETE,
};
use crate::decimal::{all_digits, decimal_value};
use crate::error::ErrorView;
use crate::estimate::{
    lemma_nearest_percent_of_whole, lemma_places_do_not_count, time_estimate, whole_estimate,
    ASSUMED_DURATION_SECS, ESTIMATE_CEILING,
};
use crate::matcher::regex_search;
use crate::progress::{line_progress, PERCENT_PATTERN, TIME_PATTERN};
use crate::runner::{
    action_at, fresh, line_of, react, run, told, ActionView, EventView, RunnerView, StateView,
};

verus! {

/// A run of one event is the reaction to it.
pub proof fn lemma_run_of_one(r: RunnerView, event: EventView)
    ensures
        run(r, seq![event]) == react(r, event).0,
        action_at(r, seq![event], 0) == react(r, event).1,
{
    reveal_with_fuel(run, 2);
    let one = seq![event];
    assert(one.drop_last() == Seq::<EventView>::empty());
    assert(one.last() == event);
    assert(one.take(0) == Seq::<EventView>::empty());
}

/// Running through `first` and then through `then` is running through the
/// two put together.
pub proof fn lemma_run_in_two(r: RunnerView, first: Seq<EventView>, then: Seq<EventView>)
    ensures
        run(r, first + then) == run(run(r, first), then),
    decreases then.len(),
{
    if then.len() == 0 {
        assert(first + then == first);
    } else {
        lemma_run_in_two(r, first, then.drop_last());
        assert((first + then).drop_last() == first + then.drop_last());
        assert((first + then).last() == then.last());
    }
}

/// The answer to an event of the second part of a run is the answer that the
/// runner gives after the first part.
pub proof fn lemma_action_in_two(
    r: RunnerView,
    first: Seq<EventView>,
    then: Seq<EventView>,
    j: int,
)
    requires
        0 <= j < then.len(),
    ensures
        action_at(r, first + then, first.len() + j) == action_at(run(r, first), then, j),
{
    lemma_run_in_two(r, first, then.take(j));
    assert((first + then).take(first.len() + j) == first + then.take(j));
    assert((first + then)[first.len() + j] == then[j]);
}

/// The estimate that a timestamp gives lies between nothing and the ceiling,
/// and so below one hundred percent.
pub proof fn law_estimate_stays_below_complete(
    hours: nat,
    minutes: nat,
    whole: Seq<char>,
    fraction: Seq<char>,
)
    requires
        all_digits(fraction),
    ensures
        0 <= time_estimate(hours, minutes, whole, fraction) <= ESTIMATE_CEILING < COMPLETE,
{
    lemma_places_do_not_count(hours, minutes, whole, fraction);
    lemma_nearest_percent_of_whole(hours * 3600 + minutes * 60 + decimal_value(whole), 0, 1);
}

/// A timestamp at or beyond the assumed span gives the ceiling.
pub proof fn law_estimate_at_the_span(
    hours: nat,
    minutes: nat,
    whole: Seq<char>,
    fraction: Seq<char>,
)
    requires
        all_digits(fraction),
        hours * 3600 + minutes * 60 + decimal_value(whole) >= ASSUMED_DURATION_SECS,
    ensures
        time_estimate(hours, minutes, whole, fraction) == ESTIMATE_CEILING,
{
    lemma_places_do_not_count(hours, minutes, whole, fraction);
    lemma_nearest_percent_of_whole(hours * 3600 + minutes * 60 + decimal_value(whole), 0, 1);
}

/// A later timestamp gives no smaller estimate.
pub proof fn law_estimate_grows_with_time(
    hours: nat,
    minutes: nat,
    seconds: nat,
    later_hours: nat,
    later_minutes: nat,
    later_seconds: nat,
)
    requires
        hours * 3600 + minutes * 60 + seconds <= later_hours * 3600 + later_minutes * 60
            + later_seconds,
    ensures
        whole_estimate(hours, minutes, seconds) <= whole_estimate(
            later_hours,
            later_minutes,
            later_seconds,
        ),
{
    lemma_nearest_percent_of_whole(hours * 3600 + minutes * 60 + seconds, 0, 1);
    lemma_nearest_percent_of_whole(later_hours * 3600 + later_minutes * 60 + later_seconds, 0, 1);
}

/// A line in which neither pattern matches gives no progress.
pub proof fn law_no_pattern_no_progress(line: Seq<char>)
    requires
        regex_search(TIME_PATTERN@, line) is Absent,
        regex_search(PERCENT_PATTERN@, line) is Absent,
    ensures
        line_progress(line) is None,
{
}

/// No event changes the command, the input or the output of a run.
pub proof fn law_paths_are_kept(r: RunnerView, events: Seq<EventView>)
    ensures
        run(r, events).operation == r.operation,
        run(r, events).input == r.input,
        run(r, events).output == r.output,
    decreases events.len(),
{
    if events.len() > 0 {
        law_paths_are_kept(r, events.drop_last());
    }
}

/// A run that is over stays as it is, whatever comes, and answers every
/// event with the end of the run and nothing to tell.
pub proof fn law_terminated_is_final(r: RunnerView, events: Seq<EventView>)
    requires
        r.state is Terminated,
    ensures
        run(r, events) == r,
        forall|i: int|
            0 <= i < events.len() ==> #[trigger] action_at(r, events, i) == ActionView::Finish(
                None,
            ),
    decreases events.len(),
{
    if events.len() > 0 {
        law_terminated_is_final(r, events.drop_last());
        assert forall|i: int| 0 <= i < events.len() implies #[trigger] action_at(r, events, i)
            == ActionView::Finish(None) by {
            law_terminated_is_final(r, events.take(i));
        }
    }
}

/// A child is started only in answer to a probe that found the program.
pub proof fn law_spawn_follows_probe(r: RunnerView, events: Seq<EventView>, i: int)
    requires
        0 <= i < events.len(),
        action_at(r, events, i) is Spawn,
    ensures
        events[i] matches EventView::Probed(probe) && available(probe),
        run(r, events.take(i)).state is Probing,
{
}

/// Where the probe does not find the program, the run ends with the error
/// that says so, and no child is started, whatever comes after.
pub proof fn law_unavailable_never_spawns(r: RunnerView, probe: Probe, rest: Seq<EventView>)
    requires
        r.state is Probing,
        !available(probe),
    ensures
        run(r, seq![EventView::Probed(probe)] + rest).state == StateView::Terminated(
            OutcomeView::Failure(ErrorView::FfmpegNotFound),
        ),
        conclusion(OutcomeView::Failure(ErrorView::FfmpegNotFound), None) == Err::<
            Seq<char>,
            ErrorView,
        >(ErrorView::FfmpegNotFound),
        forall|i: int|
            0 <= i < 1 + rest.len() ==> !(#[trigger] action_at(
                r,
                seq![EventView::Probed(probe)] + rest,
                i,
            ) is Spawn),
{
    let first = seq![EventView::Probed(probe)];
    let events = first + rest;
    lemma_run_of_one(r, EventView::Probed(probe));
    let over = run(r, first);
    lemma_run_in_two(r, first, rest);
    law_terminated_is_final(over, rest);
    assert forall|i: int| 0 <= i < 1 + rest.len() implies !(#[trigger] action_at(r, events, i)
        is Spawn) by {
        if i == 0 {
            assert(events.take(0) == Seq::<EventView>::empty());
            assert(events[0] == EventView::Probed(probe));
        } else {
            lemma_action_in_two(r, first, rest, i - 1);
        }
    }
}

/// A fresh run starts no child before the probe is back, and none at all
/// where the probe does not find the program.
pub proof fn law_fresh_run_without_program(
    operation: Operation,
    input: Seq<char>,
    format: Seq<char>,
    probe: Probe,
    rest: Seq<EventView>,
)
    requires
        !available(probe),
    ensures
        ({
            let events = seq![EventView::Start, EventView::Probed(probe)] + rest;
            let r = fresh(operation, input, format);
            &&& run(r, events).state == StateView::Terminated(
                OutcomeView::Failure(ErrorView::FfmpegNotFound),
            )
            &&& forall|i: int|
                0 <= i < events.len() ==> !(#[trigger] action_at(r, events, i) is Spawn)
        }),
{
    let r = fresh(operation, input, format);
    let start = seq![EventView::Start];
    let tail = seq![EventView::Probed(probe)] + rest;
    let events = seq![EventView::Start, EventView::Probed(probe)] + rest;
    assert(events == start + tail);
    lemma_run_of_one(r, EventView::Start);
    let probing = run(r, start);
    assert(probing.state is Probing);
    lemma_run_in_two(r, start, tail);
    law_unavailable_never_spawns(probing, probe, rest);
    assert forall|i: int| 0 <= i < events.len() implies !(#[trigger] action_at(r, events, i)
        is Spawn) by {
        if i == 0 {
            assert(events.take(0) == Seq::<EventView>::empty());
        } else {
            lemma_action_in_two(r, start, tail, i - 1);
            assert(!(action_at(probing, tail, i - 1) is Spawn));
        }
    }
}

/// Where the child ends with exit code zero, the run ends well with the
/// output path of the run, the window is told once that the work is done
/// and where the output is, and the caller gets that path once the window
/// was told.
pub proof fn law_exit_zero_succeeds(r: RunnerView, rest: Seq<EventView>)
    requires
        r.state is Streaming,
    ensures
        ({
            let events = seq![EventView::Terminated(Some(0i32))] + rest;
            &&& action_at(r, events, 0) == ActionView::Finish(Some(finished(r.output)))
            &&& finished(r.output).progress == COMPLETE
            &&& run(r, events).state == StateView::Terminated(OutcomeView::Success(r.output))
            &&& conclusion(OutcomeView::Success(r.output), None) == Ok::<Seq<char>, ErrorView>(
                r.output,
            )
            &&& forall|i: int|
                1 <= i < events.len() ==> #[trigger] action_at(r, events, i) == ActionView::Finish(
                    None,
                )
        }),
{
    let first = seq![EventView::Terminated(Some(0i32))];
    let events = first + rest;
    lemma_run_of_one(r, EventView::Terminated(Some(0i32)));
    let over = run(r, first);
    lemma_run_in_two(r, first, rest);
    law_terminated_is_final(over, rest);
    assert(events.take(0) == Seq::<EventView>::empty());
    assert forall|i: int| 1 <= i < events.len() implies #[trigger] action_at(r, events, i)
        == ActionView::Finish(None) by {
        lemma_action_in_two(r, first, rest, i - 1);
    }
}

/// A run that ends well ends with the path that it was made for.
pub proof fn law_success_names_the_output(r: RunnerView, events: Seq<EventView>)
    requires
        !(r.state is Terminated),
        run(r, events).state is Terminated,
    ensures
        run(r, events).state matches StateView::Terminated(OutcomeView::Success(path)) ==> path
            == r.output,
    decreases events.len(),
{
    if events.len() > 0 {
        let before = run(r, events.drop_last());
        law_paths_are_kept(r, events.drop_last());
        if before.state is Terminated {
            law_success_names_the_output(r, events.drop_last());
        }
    }
}

/// A fresh run that ends well ends with the output path that the command,
/// the input and the format give.
pub proof fn law_fresh_run_names_the_output(
    operation: Operation,
    input: Seq<char>,
    format: Seq<char>,
    events: Seq<EventView>,
)
    requires
        run(fresh(operation, input, format), events).state is Terminated,
    ensures
        run(fresh(operation, input, format), events).state matches StateView::Terminated(
            OutcomeView::Success(path),
        ) ==> path == output_path_of(operation, input, format),
{
    law_success_names_the_output(fresh(operation, input, format), events);
}

/// Where the child ends with another exit code than zero, or with none, the
/// run ends with a failure, and the window is told nothing then or later.
pub proof fn law_exit_nonzero_fails(r: RunnerView, code: Option<i32>, rest: Seq<EventView>)
    requires
        r.state is Streaming,
        code != Some(0i32),
    ensures
        ({
            let events = seq![EventView::Terminated(code)] + rest;
            &&& run(r, events).state == StateView::Terminated(
                OutcomeView::Failure(ErrorView::ConversionError(r.operation.failure_text())),
            )
            &&& forall|d: Option<Seq<char>>|
                (#[trigger] conclusion(
                    OutcomeView::Failure(ErrorView::ConversionError(r.operation.failure_text())),
                    d,
                )) is Err
            &&& forall|i: int|
                0 <= i < events.len() ==> #[trigger] action_at(r, events, i) == ActionView::Finish(
                    None,
                )
        }),
{
    let first = seq![EventView::Terminated(code)];
    let events = first + rest;
    lemma_run_of_one(r, EventView::Terminated(code));
    let over = run(r, first);
    lemma_run_in_two(r, first, rest);
    law_terminated_is_final(over, rest);
    assert forall|i: int| 0 <= i < events.len() implies #[trigger] action_at(r, events, i)
        == ActionView::Finish(None) by {
        if i == 0 {
            assert(events.take(0) == Seq::<EventView>::empty());
            assert(events[0] == EventView::Terminated(code));
        } else {
            lemma_action_in_two(r, first, rest, i - 1);
        }
    }
}

/// In a run that ends with a failure, whatever the window was told is the
/// progress read off a line of the child, with no path: it was never told
/// that the work is done.
pub proof fn law_failure_tells_no_completion(r: RunnerView, events: Seq<EventView>, i: int)
    requires
        run(r, events).state matches StateView::Terminated(OutcomeView::Failure(_)),
        0 <= i < events.len(),
        told(action_at(r, events, i)) is Some,
    ensures
        told(action_at(r, events, i))->0.output_path is None,
        line_of(events[i]) matches Some(line) && line_progress(line) == Some(
            told(action_at(r, events, i))->0.progress,
        ),
{
    let before = run(r, events.take(i));
    let after = react(before, events[i]).0;
    if action_at(r, events, i) is Finish {
        assert(after.state matches StateView::Terminated(OutcomeView::Success(_)));
        let rest = events.skip(i + 1);
        assert(events.take(i + 1).drop_last() == events.take(i));
        assert(events.take(i + 1).last() == events[i]);
        assert(run(r, events.take(i + 1)) == after);
        assert(events == events.take(i + 1) + rest);
        lemma_run_in_two(r, events.take(i + 1), rest);
        law_terminated_is_final(after, rest);
    }
}

/// In a run that ends with a failure, and in which no line of the child
/// reads as one hundred percent, the window is never told of one hundred
/// percent.
pub proof fn law_failure_tells_no_hundred(r: RunnerView, events: Seq<EventView>, i: int)
    requires
        run(r, events).state matches StateView::Terminated(OutcomeView::Failure(_)),
        forall|k: int|
            0 <= k < events.len() ==> (#[trigger] line_of(events[k]) matches Some(line)
                ==> line_progress(line) != Some(COMPLETE)),
        0 <= i < events.len(),
    ensures
        told(action_at(r, events, i)) matches Some(info) ==> info.progress != COMPLETE,
{
    if told(action_at(r, events, i)) is Some {
        law_failure_tells_no_completion(r, events, i);
        assert(line_of(events[i]) is Some);
    }
}

} // verus!
