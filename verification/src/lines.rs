//! The lines that tell the user how a recording goes.

use crate::text::{decimal_text, joined};
use vstd::prelude::*;

verus! {

/// Where a line is shown.
#[derive(Debug, Clone, Copy, PartialEq, Eq, Structural)]
pub enum Channel {
    /// On the standard output, as a line of its own.
    Output,
    /// On the standard output at once, with no line end, to be drawn over.
    InPlace,
    /// On the standard error, as a line of its own.
    Error,
}

/// A line for the user.
#[derive(Debug)]
pub struct Line {
    pub channel: Channel,
    pub text: String,
}

/// The model of a [`Line`].
pub struct LineView {
    pub channel: Channel,
    pub text: Seq<char>,
}

impl View for Line {
    type V = LineView;

    open spec fn view(&self) -> LineView {
        LineView { channel: self.channel, text: self.text@ }
    }
}

/// The model of an optional line.
pub open spec fn line_option(line: Option<Line>) -> Option<LineView> {
    match line {
        Some(line) => Some(line@),
        None => None,
    }
}

/// The line that names the monitor, its size and the frame rate.
pub open spec fn monitor_spec(monitor: nat, width: nat, height: nat, fps: nat) -> LineView {
    LineView {
        channel: Channel::Output,
        text: "Màn hình #"@ + crate::text::decimal(monitor) + ": "@ + crate::ffmpeg::size_spec(
            width,
            height,
        ) + " @ "@ + crate::text::decimal(fps) + " fps"@,
    }
}

/// The line that is redrawn with every frame.
pub open spec fn progress_spec(seconds: Seq<char>, frames: nat) -> LineView {
    LineView {
        channel: Channel::InPlace,
        text: "\rĐang quay: "@ + seconds + "s ("@ + crate::text::decimal(frames) + " khung hình)"@,
    }
}

/// The line for a frame that the encoder did not take.
pub open spec fn write_failed_spec(cause: Seq<char>) -> LineView {
    LineView {
        channel: Channel::Error,
        text: "\nGhi frame vào FFmpeg thất bại (có thể FFmpeg đã thoát): "@ + cause,
    }
}

/// A line of its own on the standard output.
pub fn output_line(text: &str) -> (line: Line)
    ensures
        line@ == (LineView { channel: Channel::Output, text: text@ }),
{
    Line { channel: Channel::Output, text: text.to_owned() }
}

/// A line of its own on the standard error.
pub fn error_line(text: &str) -> (line: Line)
    ensures
        line@ == (LineView { channel: Channel::Error, text: text@ }),
{
    Line { channel: Channel::Error, text: text.to_owned() }
}

/// Writes the line that names the monitor, its size and the frame rate.
pub fn monitor_line(monitor: usize, width: u32, height: u32, fps: u32) -> (line: Line)
    ensures
        line@ == monitor_spec(monitor as nat, width as nat, height as nat, fps as nat),
{
    let mut text = joined("Màn hình #", decimal_text(monitor as u64).as_str());
    text.append(": ");
    text.append(crate::ffmpeg::size_arg(width, height).as_str());
    text.append(" @ ");
    text.append(decimal_text(fps as u64).as_str());
    text.append(" fps");
    Line { channel: Channel::Output, text }
}

/// Writes the line that is redrawn with every frame. `seconds` is the time
/// recorded so far, rounded to tenths of a second.
pub fn progress_line(seconds: &str, frames: u64) -> (line: Line)
    ensures
        line@ == progress_spec(seconds@, frames as nat),
{
    let mut text = joined("\rĐang quay: ", seconds);
    text.append("s (");
    text.append(decimal_text(frames).as_str());
    text.append(" khung hình)");
    Line { channel: Channel::InPlace, text }
}

/// Writes the line for a frame that the encoder did not take.
pub fn write_failed_line(cause: &str) -> (line: Line)
    ensures
        line@ == write_failed_spec(cause@),
{
    error_line(
        joined("\nGhi frame vào FFmpeg thất bại (có thể FFmpeg đã thoát): ", cause).as_str(),
    )
}

/// Writes the line for an error of a running sound stream.
pub fn stream_error_line(cause: &str) -> (line: Line)
    ensures
        line@ == (LineView { channel: Channel::Error, text: "[audio] Lỗi stream: "@ + cause@ }),
{
    error_line(joined("[audio] Lỗi stream: ", cause).as_str())
}

/// The texts of the lines that hold numbers and causes, word for word.
pub proof fn law_lines_word_for_word(
    monitor: nat,
    width: nat,
    height: nat,
    fps: nat,
    seconds: Seq<char>,
    frames: nat,
    cause: Seq<char>,
)
    ensures
        monitor_spec(monitor, width, height, fps) == (LineView {
            channel: Channel::Output,
            text: "Màn hình #"@ + crate::text::decimal(monitor) + ": "@ + (crate::text::decimal(
                width,
            ).push('x') + crate::text::decimal(height)) + " @ "@ + crate::text::decimal(fps)
                + " fps"@,
        }),
        progress_spec(seconds, frames) == (LineView {
            channel: Channel::InPlace,
            text: "\rĐang quay: "@ + seconds + "s ("@ + crate::text::decimal(frames)
                + " khung hình)"@,
        }),
        write_failed_spec(cause) == (LineView {
            channel: Channel::Error,
            text: "\nGhi frame vào FFmpeg thất bại (có thể FFmpeg đã thoát): "@ + cause,
        }),
{
    crate::ffmpeg::law_size_is_width_x_height(width, height);
}

} // verus!
