//! One run of a command, step by step.
//!
//! A `Runner` does nothing by itself. It is told what happened, one event at
//! a time, and answers each with the action to take: see that the program is
//! there, start it, tell the window how far the work is, or end the run. The
//! caller performs the action and comes back with the next event.
//!
//! A run goes from `NotStarted` through `Probing`, `Spawned` and `Streaming`
//! to `Terminated`, and may end early: where the program is not there, no
//! child is ever started. Once terminated, a run stays as it is.

use vstd::prelude::*;
use crate::command::{
    arguments, arguments_of, available, finished, is_available, output_path, output_path_of,
    running, texts, CommandOutcome, Operation, OutcomeView, Probe, ProgressInfo, ProgressView,
    COMPLETE,
};
use crate::error::{Error, ErrorView};
use crate::progress::{line_progress, parse_progress};

verus! {

/// How far a run has come.
#[derive(Debug, Clone, PartialEq, Eq)]
pub enum State {
    /// Nothing has been done yet.
    NotStarted,
    /// The program is being asked for its version.
    Probing,
    /// The program is there, and the child is being started.
    Spawned,
    /// The child runs, and its output is read.
    Streaming,
    /// The run is over.
    Terminated(CommandOutcome),
}

/// A `State` with its texts as sequences of characters.
pub enum StateView {
    NotStarted,
    Probing,
    Spawned,
    Streaming,
    Terminated(OutcomeView),
}

impl View for State {
    type V = StateView;

    open spec fn view(&self) -> StateView {
        match self {
            State::NotStarted => StateView::NotStarted,
            State::Probing => StateView::Probing,
            State::Spawned => StateView::Spawned,
            State::Streaming => StateView::Streaming,
            State::Terminated(outcome) => StateView::Terminated(outcome@),
        }
    }
}

/// What a runner is told.
#[derive(Debug, Clone, PartialEq, Eq)]
pub enum Event {
    /// The command was called.
    Start,
    /// The run for the program's version ended.
    Probed(Probe),
    /// The child was started.
    Launched,
    /// The child could not be started; the text says why.
    LaunchFailed(String),
    /// The child wrote a line to its standard output.
    Stdout(String),
    /// The child wrote a line to its standard error.
    Stderr(String),
    /// The child ended, with this exit code if it has one.
    Terminated(Option<i32>),
    /// Anything else that the child's channel reports.
    Other,
    /// The child's channel was closed.
    Closed,
}

/// An `Event` with its texts as sequences of characters.
pub enum EventView {
    Start,
    Probed(Probe),
    Launched,
    LaunchFailed(Seq<char>),
    Stdout(Seq<char>),
    Stderr(Seq<char>),
    Terminated(Option<i32>),
    Other,
    Closed,
}

impl View for Event {
    type V = EventView;

    open spec fn view(&self) -> EventView {
        match self {
            Event::Start => EventView::Start,
            Event::Probed(probe) => EventView::Probed(*probe),
            Event::Launched => EventView::Launched,
            Event::LaunchFailed(text) => EventView::LaunchFailed(text@),
            Event::Stdout(line) => EventView::Stdout(line@),
            Event::Stderr(line) => EventView::Stderr(line@),
            Event::Terminated(code) => EventView::Terminated(*code),
            Event::Other => EventView::Other,
            Event::Closed => EventView::Closed,
        }
    }
}

/// What a runner asks its caller to do.
#[derive(Debug, Clone, PartialEq, Eq)]
pub enum Action {
    /// Run the program for its version and report how that ended.
    Probe,
    /// Start the program with these arguments and report whether it started.
    Spawn(Vec<String>),
    /// Nothing is to be done but to wait for the next event.
    Await,
    /// Tell the window of this progress, whether or not it hears, and wait
    /// for the next event.
    Notify(ProgressInfo),
    /// The run is over. Where a notification comes with it, the work is done
    /// and the window is to be told so before the command returns.
    Finish(Option<ProgressInfo>),
}

/// An `Action` with its texts as sequences of characters.
pub enum ActionView {
    Probe,
    Spawn(Seq<Seq<char>>),
    Await,
    Notify(ProgressView),
    Finish(Option<ProgressView>),
}

impl View for Action {
    type V = ActionView;

    open spec fn view(&self) -> ActionView {
        match self {
            Action::Probe => ActionView::Probe,
            Action::Spawn(list) => ActionView::Spawn(texts(list@)),
            Action::Await => ActionView::Await,
            Action::Notify(info) => ActionView::Notify(info@),
            Action::Finish(told) => ActionView::Finish(
                match told {
                    Some(info) => Some(info@),
                    None => None,
                },
            ),
        }
    }
}

/// One run of one command.
#[derive(Debug)]
pub struct Runner {
    operation: Operation,
    input_path: String,
    output_path: String,
    state: State,
    last_progress: usize,
}

/// A `Runner` as the contracts speak of it.
pub struct RunnerView {
    /// The command that is run.
    pub operation: Operation,
    /// The path of the input, as the caller gave it.
    pub input: Seq<char>,
    /// The path of the output.
    pub output: Seq<char>,
    /// How far the run has come.
    pub state: StateView,
    /// The percentage that was last read off the child's output; zero
    /// before the first.
    pub last_progress: usize,
}

impl View for Runner {
    type V = RunnerView;

    closed spec fn view(&self) -> RunnerView {
        RunnerView {
            operation: self.operation,
            input: self.input_path@,
            output: self.output_path@,
            state: self.state@,
            last_progress: self.last_progress,
        }
    }
}

/// A run of `operation` on `input` for the format `format`, before anything
/// was done.
pub open spec fn fresh(operation: Operation, input: Seq<char>, format: Seq<char>) -> RunnerView {
    RunnerView {
        operation,
        input,
        output: output_path_of(operation, input, format),
        state: StateView::NotStarted,
        last_progress: 0,
    }
}

/// `r` in another state.
pub open spec fn moved(r: RunnerView, state: StateView) -> RunnerView {
    RunnerView { state, ..r }
}

/// `r` at its end with a failure.
pub open spec fn failed(r: RunnerView, error: ErrorView) -> (RunnerView, ActionView) {
    (moved(r, StateView::Terminated(OutcomeView::Failure(error))), ActionView::Finish(None))
}

/// The answer to an event that changes nothing: a run that is over says so
/// again, any other waits on.
pub open spec fn idle(r: RunnerView) -> (RunnerView, ActionView) {
    if r.state is Terminated {
        (r, ActionView::Finish(None))
    } else {
        (r, ActionView::Await)
    }
}

/// The answer to a line of the child, from the progress that was read off
/// it. While the child's output is read, a line that gives progress is
/// remembered and told to the window, with no path; a line that gives none
/// is passed over.
pub open spec fn heard(r: RunnerView, progress: Option<usize>) -> (RunnerView, ActionView) {
    if r.state is Streaming {
        match progress {
            Some(percent) => (
                RunnerView { last_progress: percent, ..r },
                ActionView::Notify(running(percent)),
            ),
            None => (r, ActionView::Await),
        }
    } else {
        idle(r)
    }
}

/// The answer to the end of the child: success where, and only where, the
/// exit code is zero.
pub open spec fn ended(r: RunnerView, code: Option<i32>) -> (RunnerView, ActionView) {
    if r.state is Streaming {
        if code == Some(0i32) {
            (
                moved(r, StateView::Terminated(OutcomeView::Success(r.output))),
                ActionView::Finish(Some(finished(r.output))),
            )
        } else {
            failed(r, ErrorView::ConversionError(r.operation.failure_text()))
        }
    } else {
        idle(r)
    }
}

/// The runner after `event`, and the action that it answers with.
pub open spec fn react(r: RunnerView, event: EventView) -> (RunnerView, ActionView) {
    match event {
        EventView::Start => if r.state is NotStarted {
            (moved(r, StateView::Probing), ActionView::Probe)
        } else {
            idle(r)
        },
        EventView::Probed(probe) => if r.state is Probing {
            if available(probe) {
                (
                    moved(r, StateView::Spawned),
                    ActionView::Spawn(arguments_of(r.operation, r.input, r.output)),
                )
            } else {
                failed(r, ErrorView::FfmpegNotFound)
            }
        } else {
            idle(r)
        },
        EventView::Launched => if r.state is Spawned {
            (moved(r, StateView::Streaming), ActionView::Await)
        } else {
            idle(r)
        },
        EventView::LaunchFailed(text) => if r.state is Spawned {
            failed(r, ErrorView::ConversionError(text))
        } else {
            idle(r)
        },
        EventView::Stdout(line) => heard(r, line_progress(line)),
        EventView::Stderr(line) => heard(r, line_progress(line)),
        EventView::Terminated(code) => ended(r, code),
        EventView::Closed => if r.state is Streaming {
            failed(r, ErrorView::ConversionError(r.operation.failure_text()))
        } else {
            idle(r)
        },
        EventView::Other => idle(r),
    }
}

/// The runner after the events `events`, one after the other.
pub open spec fn run(r: RunnerView, events: Seq<EventView>) -> RunnerView
    decreases events.len(),
{
    if events.len() == 0 {
        r
    } else {
        react(run(r, events.drop_last()), events.last()).0
    }
}

/// The action with which the runner answers event `i` of `events`.
pub open spec fn action_at(r: RunnerView, events: Seq<EventView>, i: int) -> ActionView
    recommends
        0 <= i < events.len(),
{
    react(run(r, events.take(i)), events[i]).1
}

/// What an action tells the window, if anything.
pub open spec fn told(action: ActionView) -> Option<ProgressView> {
    match action {
        ActionView::Notify(info) => Some(info),
        ActionView::Finish(Some(info)) => Some(info),
        _ => None,
    }
}

/// The line that an event brings from the child, if it brings one.
pub open spec fn line_of(event: EventView) -> Option<Seq<char>> {
    match event {
        EventView::Stdout(line) => Some(line),
        EventView::Stderr(line) => Some(line),
        _ => None,
    }
}

/// A run that converts the audio file at `input_path` to `output_format`.
pub fn convert_audio(input_path: &str, output_format: &str) -> (r: Runner)
    ensures
        r@ == fresh(Operation::ConvertAudio, input_path@, output_format@),
{
    Runner::new(Operation::ConvertAudio, input_path, output_format)
}

/// A run that converts the video file at `input_path` to `output_format`.
pub fn convert_video(input_path: &str, output_format: &str) -> (r: Runner)
    ensures
        r@ == fresh(Operation::ConvertVideo, input_path@, output_format@),
{
    Runner::new(Operation::ConvertVideo, input_path, output_format)
}

/// A run that writes the audio of the video file at `input_path` to a file
/// of its own, in the format `output_format`.
pub fn extract_audio_from_video(input_path: &str, output_format: &str) -> (r: Runner)
    ensures
        r@ == fresh(Operation::ExtractAudio, input_path@, output_format@),
{
    Runner::new(Operation::ExtractAudio, input_path, output_format)
}

impl Runner {
    /// A run of `operation` on the file at `input_path`, for an output in
    /// the format `output_format`.
    pub fn new(operation: Operation, input_path: &str, output_format: &str) -> (r: Runner)
        ensures
            r@ == fresh(operation, input_path@, output_format@),
    {
        Runner {
            operation,
            input_path: input_path.to_owned(),
            output_path: output_path(operation, input_path, output_format),
            state: State::NotStarted,
            last_progress: 0,
        }
    }

    /// The command that is run.
    pub fn operation(&self) -> (operation: Operation)
        ensures
            operation == self@.operation,
    {
        self.operation
    }

    /// The path of the input.
    pub fn input_path(&self) -> (path: &str)
        ensures
            path@ == self@.input,
    {
        self.input_path.as_str()
    }

    /// The path of the output.
    pub fn output_path(&self) -> (path: &str)
        ensures
            path@ == self@.output,
    {
        self.output_path.as_str()
    }

    /// How far the run has come.
    pub fn state(&self) -> (state: &State)
        ensures
            state@ == self@.state,
    {
        &self.state
    }

    /// The percentage that was last read off the child's output.
    pub fn last_progress(&self) -> (percent: usize)
        ensures
            percent == self@.last_progress,
    {
        self.last_progress
    }

    /// How the run ended, once it is over.
    pub fn outcome(&self) -> (outcome: Option<CommandOutcome>)
        ensures
            match self@.state {
                StateView::Terminated(o) => outcome matches Some(copy) && copy@ == o,
                _ => outcome is None,
            },
    {
        match &self.state {
            State::Terminated(outcome) => Some(outcome.duplicate()),
            _ => None,
        }
    }

    /// Ends the run with a failure.
    fn fail(&mut self, error: Error) -> (action: Action)
        ensures
            (final(self)@, action@) == failed(old(self)@, error@),
    {
        self.state = State::Terminated(CommandOutcome::Failure(error));
        Action::Finish(None)
    }

    /// Answers an event that changes nothing.
    fn stay(&self) -> (action: Action)
        ensures
            (self@, action@) == idle(self@),
    {
        match &self.state {
            State::Terminated(_) => Action::Finish(None),
            _ => Action::Await,
        }
    }

    /// Takes the progress that was read off a line of the child.
    pub fn hear(&mut self, progress: Option<usize>) -> (action: Action)
        ensures
            (final(self)@, action@) == heard(old(self)@, progress),
    {
        match (&self.state, progress) {
            (State::Streaming, Some(percent)) => {
                self.last_progress = percent;
                Action::Notify(ProgressInfo { progress: percent, output_path: None })
            },
            (State::Streaming, None) => Action::Await,
            _ => self.stay(),
        }
    }

    /// Takes the end of the child.
    pub fn end(&mut self, code: Option<i32>) -> (action: Action)
        ensures
            (final(self)@, action@) == ended(old(self)@, code),
    {
        match &self.state {
            State::Streaming => {
                let clean = match code {
                    Some(c) => c == 0,
                    None => false,
                };
                if clean {
                    let told = ProgressInfo {
                        progress: COMPLETE,
                        output_path: Some(self.output_path.clone()),
                    };
                    self.state = State::Terminated(
                        CommandOutcome::Success(self.output_path.clone()),
                    );
                    Action::Finish(Some(told))
                } else {
                    let error = self.operation.failure();
                    self.fail(error)
                }
            },
            _ => self.stay(),
        }
    }

    /// Takes an event and answers with the action to perform.
    pub fn step(&mut self, event: Event) -> (action: Action)
        ensures
            (final(self)@, action@) == react(old(self)@, event@),
    {
        match event {
            Event::Start => match &self.state {
                State::NotStarted => {
                    self.state = State::Probing;
                    Action::Probe
                },
                _ => self.stay(),
            },
            Event::Probed(probe) => match &self.state {
                State::Probing => {
                    if is_available(probe) {
                        self.state = State::Spawned;
                        Action::Spawn(
                            arguments(
                                self.operation,
                                self.input_path.as_str(),
                                self.output_path.as_str(),
                            ),
                        )
                    } else {
                        self.fail(Error::FfmpegNotFound)
                    }
                },
                _ => self.stay(),
            },
            Event::Launched => match &self.state {
                State::Spawned => {
                    self.state = State::Streaming;
                    Action::Await
                },
                _ => self.stay(),
            },
            Event::LaunchFailed(text) => match &self.state {
                State::Spawned => self.fail(Error::ConversionError(text)),
                _ => self.stay(),
            },
            Event::Stdout(line) => {
                let progress = parse_progress(line.as_str());
                self.hear(progress)
            },
            Event::Stderr(line) => {
                let progress = parse_progress(line.as_str());
                self.hear(progress)
            },
            Event::Terminated(code) => self.end(code),
            Event::Closed => match &self.state {
                State::Streaming => {
                    let error = self.operation.failure();
                    self.fail(error)
                },
                _ => self.stay(),
            },
            Event::Other => self.stay(),
        }
    }
}

} // verus!
