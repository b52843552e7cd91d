//! What the user asks for.

use vstd::prelude::*;

verus! {

/// The monitor that is recorded unless another one is named.
pub const DEFAULT_MONITOR: usize = 1;

/// The frame rate that is recorded at unless another one is given.
pub const DEFAULT_FPS: u32 = 30;

/// The quality that is encoded at unless another one is given.
pub const DEFAULT_CRF: u8 = 20;

/// The file that is written unless another one is named.
pub const DEFAULT_OUTPUT: &'static str = "recording.mp4";

/// The settings of one recording.
#[derive(Debug)]
pub struct Args {
    /// The path of the finished MP4 file.
    pub output: String,
    /// The index of the monitor to record, counted from one.
    pub monitor: usize,
    /// The frames per second that the video is encoded at.
    pub fps: u32,
    /// The H.264 quality: the lower, the sharper.
    pub crf: u8,
    /// The longest time to record, in seconds; without it, only Ctrl+C ends the
    /// recording.
    pub duration: Option<u64>,
    /// Whether the system sound is left out.
    pub no_audio: bool,
}

/// The model of [`Args`].
pub struct ArgsView {
    pub output: Seq<char>,
    pub monitor: nat,
    pub fps: nat,
    pub crf: nat,
    pub duration: Option<u64>,
    pub no_audio: bool,
}

impl View for Args {
    type V = ArgsView;

    open spec fn view(&self) -> ArgsView {
        ArgsView {
            output: self.output@,
            monitor: self.monitor as nat,
            fps: self.fps as nat,
            crf: self.crf as nat,
            duration: self.duration,
            no_audio: self.no_audio,
        }
    }
}

impl Default for Args {
    /// The first monitor, with sound, at 30 frames per second and quality 20,
    /// into `recording.mp4`, until Ctrl+C.
    fn default() -> (args: Args)
        ensures
            args@ == (ArgsView {
                output: "recording.mp4"@,
                monitor: 1,
                fps: 30,
                crf: 20,
                duration: None,
                no_audio: false,
            }),
    {
        Args {
            output: DEFAULT_OUTPUT.to_owned(),
            monitor: DEFAULT_MONITOR,
            fps: DEFAULT_FPS,
            crf: DEFAULT_CRF,
            duration: None,
            no_audio: false,
        }
    }
}

} // verus!
