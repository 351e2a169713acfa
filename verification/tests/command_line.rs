use std::io::{Error, ErrorKind};

use video_reverser::cli::{dispatch, failure_line, report, success_line, usage_line, Exit};
use video_reverser::session::Session;
use video_reverser::VideoError;

fn words(words: &[&str]) -> Vec<String> {
    words.iter().map(|word| word.to_string()).collect()
}

#[test]
fn one_argument_opens_a_reversal() {
    match dispatch("reverse", &words(&["clip.mp4"])) {
        Ok(Session::CheckInput { input }) => assert_eq!(input, "clip.mp4"),
        other => panic!("unexpected start: {:?}", other),
    }
}

#[test]
fn no_argument_ends_with_the_usage_line() {
    match dispatch("reverse", &words(&[])) {
        Err(exit) => {
            assert_eq!(exit, Exit::Failure(String::from("Usage: reverse <input_mp4_file>")));
            assert_eq!(exit.code(), 1);
        }
        other => panic!("unexpected start: {:?}", other),
    }
}

#[test]
fn several_arguments_end_with_the_usage_line() {
    for positional in [words(&["a.mp4", "b.mp4"]), words(&["a.mp4", "b.mp4", "c.mp4"])] {
        match dispatch("/usr/bin/reverse", &positional) {
            Err(exit) => {
                assert_eq!(
                    exit,
                    Exit::Failure(String::from("Usage: /usr/bin/reverse <input_mp4_file>"))
                );
                assert_eq!(exit.code(), 1);
            }
            other => panic!("unexpected start: {:?}", other),
        }
    }
}

#[test]
fn lines_are_spelled_out() {
    assert_eq!(usage_line("prog"), "Usage: prog <input_mp4_file>");
    assert_eq!(usage_line(""), "Usage:  <input_mp4_file>");
    assert_eq!(success_line("a/b-rev.mp4"), "Successfully created reversed video: a/b-rev.mp4");
    assert_eq!(failure_line("it broke"), "Error: it broke");
}

#[test]
fn success_is_announced_with_status_zero() {
    let exit = report(&Ok(String::from("test-rev.mp4")));
    assert_eq!(
        exit,
        Exit::Success(String::from("Successfully created reversed video: test-rev.mp4"))
    );
    assert_eq!(exit.code(), 0);
}

#[test]
fn every_failure_is_reported_with_status_one() {
    let cases = [
        (
            VideoError::FFmpegNotFound,
            "Error: FFmpeg is not installed or not accessible",
        ),
        (
            VideoError::InvalidInput(String::from("Input file does not exist")),
            "Error: Invalid input file path: Input file does not exist",
        ),
        (
            VideoError::InvalidInput(String::from("Input file must be an MP4")),
            "Error: Invalid input file path: Input file must be an MP4",
        ),
        (
            VideoError::ProcessingError(String::from("Conversion failed")),
            "Error: Failed to process video: Conversion failed",
        ),
        (
            VideoError::IoError(Error::new(ErrorKind::Other, "disk on fire")),
            "Error: IO error: disk on fire",
        ),
    ];
    for (error, line) in cases {
        let exit = report(&Err(error));
        assert_eq!(exit, Exit::Failure(String::from(line)));
        assert_eq!(exit.code(), 1);
    }
}

#[test]
fn messages_name_the_failure() {
    assert_eq!(VideoError::FFmpegNotFound.message(), "FFmpeg is not installed or not accessible");
    assert_eq!(
        VideoError::InvalidInput(String::from("why")).message(),
        "Invalid input file path: why"
    );
    assert_eq!(
        VideoError::ProcessingError(String::from("stderr text")).message(),
        "Failed to process video: stderr text"
    );
    let cause = Error::new(ErrorKind::NotFound, "gone");
    assert_eq!(VideoError::IoError(cause).message(), "IO error: gone");
}

#[test]
fn description_takes_the_detail_only_for_io_errors() {
    assert_eq!(
        VideoError::FFmpegNotFound.describe("unused"),
        "FFmpeg is not installed or not accessible"
    );
    assert_eq!(
        VideoError::InvalidInput(String::from("why")).describe("unused"),
        "Invalid input file path: why"
    );
    assert_eq!(
        VideoError::ProcessingError(String::from("text")).describe("unused"),
        "Failed to process video: text"
    );
    let cause = Error::new(ErrorKind::NotFound, "gone");
    assert_eq!(VideoError::IoError(cause).describe("told"), "IO error: told");
}

#[test]
fn io_error_converts_into_the_error_of_the_library() {
    let error = VideoError::from(Error::new(ErrorKind::BrokenPipe, "pipe closed"));
    match error {
        VideoError::IoError(cause) => {
            assert_eq!(cause.kind(), ErrorKind::BrokenPipe);
            assert_eq!(cause.to_string(), "pipe closed");
        }
        other => panic!("unexpected error: {:?}", other),
    }
}
