//! The failures a reversal can end in.

use vstd::prelude::*;
use vstd::string::StringExecFns;

verus! {

/// `std::io::Error`, carried through unread.
#[verifier::external_type_specification]
#[verifier::external_body]
pub struct ExIoError(std::io::Error);

/// Why a reversal failed.
#[derive(Debug)]
pub enum VideoError {
    /// The `ffmpeg` executable could not be started.
    FFmpegNotFound,
    /// The input path is missing or is not an MP4 file; holds the reason.
    InvalidInput(String),
    /// `ffmpeg` ran and reported failure; holds its diagnostic output.
    ProcessingError(String),
    /// The operating system failed to start the transformation.
    IoError(std::io::Error),
}

/// A [`VideoError`] with its texts as character sequences.
pub enum VideoErrorView {
    FFmpegNotFound,
    InvalidInput(Seq<char>),
    ProcessingError(Seq<char>),
    IoError(std::io::Error),
}

impl View for VideoError {
    type V = VideoErrorView;

    open spec fn view(&self) -> VideoErrorView {
        match self {
            VideoError::FFmpegNotFound => VideoErrorView::FFmpegNotFound,
            VideoError::InvalidInput(reason) => VideoErrorView::InvalidInput(reason@),
            VideoError::ProcessingError(text) => VideoErrorView::ProcessingError(text@),
            VideoError::IoError(cause) => VideoErrorView::IoError(*cause),
        }
    }
}

impl From<std::io::Error> for VideoError {
    /// A failure of the operating system, taken as it is.
    fn from(cause: std::io::Error) -> (error: VideoError) {
        VideoError::IoError(cause)
    }
}

impl vstd::std_specs::convert::FromSpecImpl<std::io::Error> for VideoError {
    open spec fn obeys_from_spec() -> bool {
        true
    }

    open spec fn from_spec(cause: std::io::Error) -> VideoError {
        VideoError::IoError(cause)
    }
}

/// The message of an error. `detail` is the operating system's account of
/// the failure, which only an `IoError` has.
pub open spec fn spec_message(error: VideoErrorView, detail: Seq<char>) -> Seq<char> {
    match error {
        VideoErrorView::FFmpegNotFound => "FFmpeg is not installed or not accessible"@,
        VideoErrorView::InvalidInput(reason) => "Invalid input file path: "@ + reason,
        VideoErrorView::ProcessingError(text) => "Failed to process video: "@ + text,
        VideoErrorView::IoError(_) => "IO error: "@ + detail,
    }
}

impl VideoError {
    /// The message of this error, given the operating system's account of the
    /// failure for the case that it is an `IoError`.
    pub fn describe(&self, detail: &str) -> (text: String)
        ensures
            text@ == spec_message(self@, detail@),
    {
        match self {
            VideoError::FFmpegNotFound => "FFmpeg is not installed or not accessible".to_owned(),
            VideoError::InvalidInput(reason) => {
                "Invalid input file path: ".to_owned().concat(reason.as_str())
            },
            VideoError::ProcessingError(output) => {
                "Failed to process video: ".to_owned().concat(output.as_str())
            },
            VideoError::IoError(_) => "IO error: ".to_owned().concat(detail),
        }
    }

    /// The message of this error. What an `IoError` adds behind `IO error: `
    /// is up to the operating system.
    pub fn message(&self) -> (text: String)
        ensures
            exists|detail: Seq<char>| text@ == spec_message(self@, detail),
    {
        let detail = match self {
            VideoError::IoError(cause) => cause.to_string(),
            _ => String::new(),
        };
        let text = self.describe(detail.as_str());
        assert(text@ == spec_message(self@, detail@));
        text
    }
}

/// A verdict with its error, if it is one, over sequences.
pub open spec fn verdict_view(verdict: Result<(), VideoError>) -> Result<(), VideoErrorView> {
    match verdict {
        Ok(_) => Ok(()),
        Err(error) => Err(error@),
    }
}

} // verus!
