//! The reverser: the checks it makes, in their order, and what it concludes
//! from each answer.

use vstd::prelude::*;
use crate::error::{verdict_view, VideoError};
use crate::paths::{extension, file_stem, is_mp4, output_path, reversed_name, with_file_name};
use crate::process::{decode_lossy, probe_command, transform_command, SubprocessResult};
use crate::session::{
    exit_verdict, input_verdict, probe_verdict, ran_view, result_view, step, transform_verdict,
    Reply, Session,
};

verus! {

/// Reverses MP4 files with the help of `ffmpeg`. It keeps no state of its own.
pub struct VideoReverser;

impl VideoReverser {
    /// A reverser.
    pub fn new() -> (reverser: Self) {
        VideoReverser
    }

    /// Derives the path of the reversed copy from the path of the input: the
    /// same directory and extension, `-rev` appended to the stem. A path
    /// without a stem or without an extension counts as having an empty one.
    pub fn generate_output_filename(&self, input_path: &str) -> (output: String)
        ensures
            output@ == output_path(input_path@),
    {
        let stem = match file_stem(input_path) {
            Some(stem) => stem,
            None => String::new(),
        };
        let ext = match extension(input_path) {
            Some(ext) => ext,
            None => String::new(),
        };
        let new_name = reversed_name(stem.as_str(), ext.as_str());
        with_file_name(input_path, new_name.as_str())
    }

    /// Judges the input from what is known of it: whether it exists, and the
    /// extension found in its path.
    pub fn check_input(&self, exists: bool, extension: &Option<String>) -> (verdict: Result<
        (),
        VideoError,
    >)
        ensures
            verdict_view(verdict) == input_verdict(exists, extension.deep_view()),
    {
        if !exists {
            Err(VideoError::InvalidInput("Input file does not exist".to_owned()))
        } else if !is_mp4(extension) {
            Err(VideoError::InvalidInput("Input file must be an MP4".to_owned()))
        } else {
            Ok(())
        }
    }

    /// Judges whether `ffmpeg` is available from what came of the probe. A
    /// probe that started passes, however it exited.
    pub fn check_ffmpeg(&self, probe: &Result<SubprocessResult, std::io::Error>) -> (verdict:
        Result<(), VideoError>)
        ensures
            verdict_view(verdict) == probe_verdict(probe is Ok),
    {
        match probe {
            Ok(_) => Ok(()),
            Err(_) => Err(VideoError::FFmpegNotFound),
        }
    }

    /// Judges a transformation that exited, from its exit status and from
    /// what it wrote to its standard error stream.
    pub fn check_exit(&self, output: String, success: bool, diagnostic: String) -> (verdict:
        Result<String, VideoError>)
        ensures
            result_view(verdict) == exit_verdict(output@, success, diagnostic@),
    {
        if success {
            Ok(output)
        } else {
            Err(VideoError::ProcessingError(diagnostic))
        }
    }

    /// Judges the transformation from what came of running it.
    pub fn check_transform(
        &self,
        output: String,
        outcome: Result<SubprocessResult, std::io::Error>,
    ) -> (verdict: Result<String, VideoError>)
        ensures
            result_view(verdict) == transform_verdict(output@, ran_view(outcome)),
    {
        match outcome {
            Ok(finished) => {
                let diagnostic = decode_lossy(&finished.stderr);
                self.check_exit(output, finished.success, diagnostic)
            },
            Err(cause) => Err(VideoError::from(cause)),
        }
    }

    /// Takes a reversal one step further: given where it stands and what the
    /// caller observed, says where it stands next.
    ///
    /// The checks come in a fixed order and the first that fails ends the
    /// reversal: the input must exist, its extension must be `mp4`, `ffmpeg`
    /// must start, and the transformation must exit with success.
    pub fn reverse_video(&self, session: Session, reply: Reply) -> (next: Session)
        ensures
            next@ == step(session@, reply@),
    {
        match (session, reply) {
            (Session::CheckInput { input }, Reply::Exists(exists)) => {
                let found = extension(input.as_str());
                match self.check_input(exists, &found) {
                    Ok(_) => Session::Probe { input, command: probe_command() },
                    Err(error) => Session::Finished(Err(error)),
                }
            },
            (Session::Probe { input, .. }, Reply::Ran(outcome)) => {
                match self.check_ffmpeg(&outcome) {
                    Ok(_) => {
                        let output = self.generate_output_filename(input.as_str());
                        let command = transform_command(input.as_str(), output.as_str());
                        Session::Transform { output, command }
                    },
                    Err(error) => Session::Finished(Err(error)),
                }
            },
            (Session::Transform { output, .. }, Reply::Ran(outcome)) => {
                Session::Finished(self.check_transform(output, outcome))
            },
            (session, _) => session,
        }
    }
}

} // verus!
