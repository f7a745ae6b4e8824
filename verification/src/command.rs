//! The commands, and what each hands to `ffmpeg`.

use vstd::prelude::*;
use vstd::string::StringExecFns;
use crate::error::{Error, ErrorView};
use crate::path::{derive_path, derived_path};

verus! {

/// The program that does the work.
pub const PROGRAM: &'static str = "ffmpeg";

/// The flag with which the program is asked for its version, to see that it
/// is there.
pub const VERSION_FLAG: &'static str = "-version";

/// The flag that lets the program write over an output file that exists.
pub const OVERWRITE_FLAG: &'static str = "-y";

/// The flag before the input path.
pub const INPUT_FLAG: &'static str = "-i";

/// The flag that leaves the video out.
pub const NO_VIDEO_FLAG: &'static str = "-vn";

/// The flag that asks for progress reports that a program can read.
pub const PROGRESS_FLAG: &'static str = "-progress";

/// Where the progress reports go: the program's standard output.
pub const PROGRESS_TARGET: &'static str = "pipe:1";

/// What goes between the file stem and the extension of extracted audio.
pub const AUDIO_SUFFIX: &'static str = "_audio";

/// What is said of a conversion that did not succeed.
pub const CONVERSION_FAILED: &'static str = "FFmpeg conversion failed";

/// What is said of an extraction that did not succeed.
pub const EXTRACTION_FAILED: &'static str = "FFmpeg extraction failed";

/// The percentage that says the work is done.
pub const COMPLETE: usize = 100;

/// The three commands.
#[derive(Debug, Clone, Copy, PartialEq, Eq, Structural)]
pub enum Operation {
    /// Convert an audio file to another format.
    ConvertAudio,
    /// Convert a video file to another format.
    ConvertVideo,
    /// Write the audio of a video file to a file of its own.
    ExtractAudio,
}

impl Operation {
    /// What goes between file stem and extension in the output's name.
    pub open spec fn suffix(self) -> Seq<char> {
        match self {
            Operation::ExtractAudio => AUDIO_SUFFIX@,
            _ => Seq::empty(),
        }
    }

    /// The flags of this command between the input and the progress flag.
    pub open spec fn mode_flags(self) -> Seq<Seq<char>> {
        match self {
            Operation::ExtractAudio => seq![NO_VIDEO_FLAG@],
            _ => Seq::empty(),
        }
    }

    /// What is said where this command did not succeed.
    pub open spec fn failure_text(self) -> Seq<char> {
        match self {
            Operation::ExtractAudio => EXTRACTION_FAILED@,
            _ => CONVERSION_FAILED@,
        }
    }

    /// The error of a run of this command that did not succeed.
    pub fn failure(self) -> (error: Error)
        ensures
            error@ == ErrorView::ConversionError(self.failure_text()),
    {
        match self {
            Operation::ExtractAudio => Error::ConversionError(String::from_str(EXTRACTION_FAILED)),
            _ => Error::ConversionError(String::from_str(CONVERSION_FAILED)),
        }
    }
}

/// The texts of a list of strings.
pub open spec fn texts(list: Seq<String>) -> Seq<Seq<char>> {
    Seq::new(list.len(), |i: int| list[i]@)
}

/// The path of the output of `operation` on `input` in the format `format`.
pub open spec fn output_path_of(operation: Operation, input: Seq<char>, format: Seq<char>) -> Seq<
    char,
> {
    derived_path(input, operation.suffix(), format)
}

/// The arguments of `operation`, in the order in which the program gets
/// them: overwrite, the input, the flags of the command, where progress is
/// reported, and the output.
pub open spec fn arguments_of(operation: Operation, input: Seq<char>, output: Seq<char>) -> Seq<
    Seq<char>,
> {
    seq![OVERWRITE_FLAG@, INPUT_FLAG@, input] + operation.mode_flags() + seq![
        PROGRESS_FLAG@,
        PROGRESS_TARGET@,
        output,
    ]
}

/// The path of the output file: beside the input, under its file stem, with
/// `format` as its extension. Extracted audio has `_audio` behind the stem.
/// A file that is there already is not avoided.
pub fn output_path(operation: Operation, input: &str, format: &str) -> (path: String)
    ensures
        path@ == output_path_of(operation, input@, format@),
{
    match operation {
        Operation::ExtractAudio => derive_path(input, AUDIO_SUFFIX, format),
        _ => {
            let path = derive_path(input, "", format);
            proof {
                reveal_strlit("");
                assert(""@ =~= Seq::<char>::empty());
            }
            path
        },
    }
}

/// The arguments with which the program is run for `operation`.
pub fn arguments(operation: Operation, input: &str, output: &str) -> (list: Vec<String>)
    ensures
        texts(list@) == arguments_of(operation, input@, output@),
{
    let mut list: Vec<String> = Vec::new();
    list.push(String::from_str(OVERWRITE_FLAG));
    list.push(String::from_str(INPUT_FLAG));
    list.push(String::from_str(input));
    match operation {
        Operation::ExtractAudio => {
            list.push(String::from_str(NO_VIDEO_FLAG));
        },
        _ => {},
    }
    list.push(String::from_str(PROGRESS_FLAG));
    list.push(String::from_str(PROGRESS_TARGET));
    list.push(String::from_str(output));
    proof {
        assert(texts(list@) =~= arguments_of(operation, input@, output@));
    }
    list
}

/// The arguments with which the program is run to see that it is there.
pub fn probe_arguments() -> (list: Vec<String>)
    ensures
        texts(list@) == seq![VERSION_FLAG@],
{
    let mut list: Vec<String> = Vec::new();
    list.push(String::from_str(VERSION_FLAG));
    proof {
        assert(texts(list@) =~= seq![VERSION_FLAG@]);
    }
    list
}

/// How the run for the program's version ended.
#[derive(Debug, Clone, Copy, PartialEq, Eq, Structural)]
pub enum Probe {
    /// The program ran and ended; `success` says whether it ended well.
    Exited { success: bool },
    /// The program could not be started.
    LaunchFailed,
}

/// Whether a probe shows the program to be there: it ran and ended well.
/// That it could not be started counts as much as that it ended badly.
pub open spec fn available(probe: Probe) -> bool {
    probe == (Probe::Exited { success: true })
}

/// Tells whether the program is there, from how the probe ended.
pub fn is_available(probe: Probe) -> (r: bool)
    ensures
        r == available(probe),
{
    match probe {
        Probe::Exited { success } => success,
        Probe::LaunchFailed => false,
    }
}

/// Progress as the window is told of it.
#[derive(Debug, Clone, PartialEq, Eq)]
pub struct ProgressInfo {
    /// How far the work is, in percent.
    pub progress: usize,
    /// The path of the output, once the work is done.
    pub output_path: Option<String>,
}

/// A `ProgressInfo` with its path as a sequence of characters.
pub struct ProgressView {
    pub progress: usize,
    pub output_path: Option<Seq<char>>,
}

impl View for ProgressInfo {
    type V = ProgressView;

    open spec fn view(&self) -> ProgressView {
        ProgressView {
            progress: self.progress,
            output_path: match self.output_path {
                Some(path) => Some(path@),
                None => None,
            },
        }
    }
}

/// The notification for a percentage read off the child's output.
pub open spec fn running(progress: usize) -> ProgressView {
    ProgressView { progress, output_path: None }
}

/// The notification that the work is done and where its output is.
pub open spec fn finished(path: Seq<char>) -> ProgressView {
    ProgressView { progress: COMPLETE, output_path: Some(path) }
}

/// How one run of a command ended.
#[derive(Debug, Clone, PartialEq, Eq)]
pub enum CommandOutcome {
    /// The child ended well; the path is that of the output.
    Success(String),
    /// The command failed.
    Failure(Error),
}

/// A `CommandOutcome` with its texts as sequences of characters.
pub enum OutcomeView {
    Success(Seq<char>),
    Failure(ErrorView),
}

impl View for CommandOutcome {
    type V = OutcomeView;

    open spec fn view(&self) -> OutcomeView {
        match self {
            CommandOutcome::Success(path) => OutcomeView::Success(path@),
            CommandOutcome::Failure(error) => OutcomeView::Failure(error@),
        }
    }
}

impl CommandOutcome {
    /// A copy of this outcome.
    pub fn duplicate(&self) -> (copy: CommandOutcome)
        ensures
            copy@ == self@,
    {
        match self {
            CommandOutcome::Success(path) => CommandOutcome::Success(path.clone()),
            CommandOutcome::Failure(error) => CommandOutcome::Failure(error.duplicate()),
        }
    }
}

/// What the caller of a command gets, from how the run ended and, where it
/// ended well, from whether the window could be told so: `delivery` holds
/// what went wrong with telling it, if anything did.
pub open spec fn conclusion(outcome: OutcomeView, delivery: Option<Seq<char>>) -> Result<
    Seq<char>,
    ErrorView,
> {
    match outcome {
        OutcomeView::Failure(error) => Err(error),
        OutcomeView::Success(path) => match delivery {
            Some(text) => Err(ErrorView::ConversionError(text)),
            None => Ok(path),
        },
    }
}

/// The result of a command: the output path where the run ended well and
/// the window was told so, an error otherwise.
pub fn conclude(outcome: CommandOutcome, delivery: Result<(), String>) -> (result: Result<
    String,
    Error,
>)
    ensures
        match conclusion(
            outcome@,
            match delivery {
                Ok(_) => None,
                Err(text) => Some(text@),
            },
        ) {
            Ok(path) => result matches Ok(p) && p@ == path,
            Err(error) => result matches Err(e) && e@ == error,
        },
{
    match outcome {
        CommandOutcome::Failure(error) => Err(error),
        CommandOutcome::Success(path) => match delivery {
            Err(text) => Err(Error::ConversionError(text)),
            Ok(_) => Ok(path),
        },
    }
}

} // verus!
