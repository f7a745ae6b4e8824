//! What can go wrong with a command, and how it reads.

use vstd::prelude::*;
use vstd::string::StringExecFns;

verus! {

/// What every message of a failed conversion begins with.
pub const CONVERSION_PREFIX: &'static str = "转换失败: ";

/// What is said where the `ffmpeg` binary cannot be run.
pub const NOT_FOUND_MESSAGE: &'static str =
    "FFmpeg not found. Please install FFmpeg to use this feature.";

/// A failed command.
#[derive(Debug, Clone, PartialEq, Eq)]
pub enum Error {
    /// Input or output failed; the text is what the system said of it.
    Io(String),
    /// The `ffmpeg` binary is not there, or does not run.
    FfmpegNotFound,
    /// The conversion failed; the text says how.
    ConversionError(String),
}

/// An `Error` with its texts as sequences of characters.
pub enum ErrorView {
    Io(Seq<char>),
    FfmpegNotFound,
    ConversionError(Seq<char>),
}

impl View for Error {
    type V = ErrorView;

    open spec fn view(&self) -> ErrorView {
        match self {
            Error::Io(text) => ErrorView::Io(text@),
            Error::FfmpegNotFound => ErrorView::FfmpegNotFound,
            Error::ConversionError(text) => ErrorView::ConversionError(text@),
        }
    }
}

/// The line that an error is shown as.
pub open spec fn rendered(error: ErrorView) -> Seq<char> {
    match error {
        ErrorView::Io(text) => text,
        ErrorView::FfmpegNotFound => CONVERSION_PREFIX@ + NOT_FOUND_MESSAGE@,
        ErrorView::ConversionError(text) => CONVERSION_PREFIX@ + text,
    }
}

impl Error {
    /// The line that this error is shown as.
    pub fn message(&self) -> (line: String)
        ensures
            line@ == rendered(self@),
    {
        match self {
            Error::Io(text) => text.clone(),
            Error::FfmpegNotFound => String::from_str(CONVERSION_PREFIX).concat(NOT_FOUND_MESSAGE),
            Error::ConversionError(text) => String::from_str(CONVERSION_PREFIX).concat(
                text.as_str(),
            ),
        }
    }

    /// A copy of this error.
    pub fn duplicate(&self) -> (copy: Error)
        ensures
            copy@ == self@,
    {
        match self {
            Error::Io(text) => Error::Io(text.clone()),
            Error::FfmpegNotFound => Error::FfmpegNotFound,
            Error::ConversionError(text) => Error::ConversionError(text.clone()),
        }
    }
}

} // verus!
