//! Decision logic of a command-line tool that reverses the playback of an MP4
//! file by handing the work to `ffmpeg`.
//!
//! The library never touches the filesystem and never starts a process. It
//! says what has to be done next and takes the observed outcome back.

pub mod cli;
pub mod error;
pub mod paths;
pub mod process;
pub mod reverser;
pub mod run;
pub mod session;

pub use error::VideoError;
pub use reverser::VideoReverser;
