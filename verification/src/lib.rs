//! The decisions of a screen recorder: which command lines FFmpeg is run with,
//! in which order the parts of a recording are started and stopped, when a
//! recording ends, and what is reported when a part fails.
//!
//! Nothing here touches a screen, a sound device, a process or a file. The
//! program around this library performs the actions that the library names and
//! hands back what came of them.

pub mod args;
pub mod audio;
pub mod capture;
pub mod failure;
pub mod ffmpeg;
pub mod lines;
pub mod model_laws;
pub mod plan;
pub mod samples;
pub mod session;
pub mod session_laws;
pub mod text;
