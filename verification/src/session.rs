//! One recording session, from the first check to the finished file.
//!
//! A session names the action to perform next. The caller performs it and hands
//! back what came of it, until the session is finished or has given up.

use crate::args::{Args, ArgsView};
use crate::failure::{Failure, FailureView};
use crate::ffmpeg::{self, Invocation, InvocationView};
use crate::lines::{self, Channel, Line, LineView};
use crate::plan::{steps, Step};
use crate::text::joined;
use vstd::prelude::*;

verus! {

/// The name, in the directory for temporary files, of the video without sound.
pub const VIDEO_FILE_NAME: &'static str = "screenrec_video_only.mp4";

/// The name, in the directory for temporary files, of the sound file.
pub const AUDIO_FILE_NAME: &'static str = "screenrec_audio.wav";

/// How long the sound file is left to be written out, in milliseconds.
pub const SETTLE_MILLIS: u64 = 300;

/// What came of an action.
#[derive(Debug)]
pub enum Outcome {
    /// It was performed.
    Done,
    /// It was performed and gave this number.
    Measured(u32),
    /// A process was run to its end; its status, and that as text.
    Exited { success: bool, status: String },
    /// It could not be performed; the text of the error.
    Failed(String),
}

/// The model of an [`Outcome`].
pub enum OutcomeView {
    Done,
    Measured(u32),
    Exited { success: bool, status: Seq<char> },
    Failed(Seq<char>),
}

impl View for Outcome {
    type V = OutcomeView;

    open spec fn view(&self) -> OutcomeView {
        match self {
            Outcome::Done => OutcomeView::Done,
            Outcome::Measured(number) => OutcomeView::Measured(*number),
            Outcome::Exited { success, status } => OutcomeView::Exited {
                success: *success,
                status: status@,
            },
            Outcome::Failed(cause) => OutcomeView::Failed(cause@),
        }
    }
}

impl OutcomeView {
    /// Whether the action was performed and, if it was a process, ended well.
    pub open spec fn clean(self) -> bool {
        match self {
            OutcomeView::Done | OutcomeView::Measured(_) => true,
            OutcomeView::Exited { success, .. } => success,
            OutcomeView::Failed(_) => false,
        }
    }
}

/// Whether a step succeeded. A reading succeeds only if it gave a number.
pub open spec fn succeeded(step: Step, outcome: OutcomeView) -> bool {
    if step == Step::ReadWidth || step == Step::ReadHeight {
        outcome is Measured
    } else {
        outcome.clean()
    }
}

/// What a session gives up with when a step did not succeed; nothing, where the
/// session goes on all the same.
pub open spec fn blame(monitor: nat, step: Step, outcome: OutcomeView) -> Option<FailureView> {
    match step {
        Step::CheckFfmpeg => Some(FailureView::FfmpegMissing),
        Step::FindMonitor => Some(FailureView::MonitorNotFound(monitor)),
        Step::ReadWidth => Some(FailureView::WidthUnknown),
        Step::ReadHeight => Some(FailureView::HeightUnknown),
        Step::StartAudio => Some(FailureView::AudioNotStarted),
        Step::SpawnEncoder => Some(FailureView::EncoderNotSpawned),
        Step::TakeStdin => Some(FailureView::StdinMissing),
        Step::InstallInterrupt => Some(FailureView::InterruptNotInstalled),
        Step::Capture => match outcome {
            OutcomeView::Failed(cause) => Some(FailureView::CaptureFailed(cause)),
            OutcomeView::Exited { status, .. } => Some(FailureView::CaptureFailed(status)),
            _ => None,
        },
        Step::WaitEncoder => match outcome {
            OutcomeView::Exited { status, .. } => Some(FailureView::EncoderExit(status)),
            _ => Some(FailureView::EncoderNotAwaited),
        },
        Step::RenameVideo => Some(FailureView::VideoNotRenamed),
        Step::Mux => match outcome {
            OutcomeView::Exited { status, .. } => Some(FailureView::MuxExit(status)),
            _ => Some(FailureView::MuxNotRun),
        },
        Step::ShowMonitor
        | Step::CloseStdin
        | Step::StopAudio
        | Step::Settle
        | Step::RemoveVideo
        | Step::RemoveAudio => None,
    }
}

/// What a session gives up with after a step, if it does.
pub open spec fn verdict(monitor: nat, step: Step, outcome: OutcomeView) -> Option<FailureView> {
    if succeeded(step, outcome) {
        None
    } else {
        blame(monitor, step, outcome)
    }
}

/// An action to perform.
#[derive(Debug)]
pub enum Action {
    /// Run this process to its end.
    QueryVersion(Invocation),
    /// Look up the monitor with this index, counted from one.
    FindMonitor(usize),
    /// Read the monitor's width.
    ReadWidth,
    /// Read the monitor's height.
    ReadHeight,
    /// Nothing but to show the announcement.
    ShowMonitor,
    /// Record the system sound into this file.
    StartAudio(String),
    /// Start this process.
    SpawnEncoder(Invocation),
    /// Take hold of the encoder's standard input.
    TakeStdin,
    /// Install the Ctrl+C handler.
    InstallInterrupt,
    /// Capture the screen, for at most this many seconds if there is a number.
    Capture(Option<u64>),
    /// Close the encoder's standard input.
    CloseStdin,
    /// Wait for the encoder.
    WaitEncoder,
    /// Stop recording the system sound.
    StopAudio,
    /// Wait for this many milliseconds.
    Settle(u64),
    /// Rename a file.
    RenameVideo { from: String, to: String },
    /// Run this process to its end.
    Mux(Invocation),
    /// Remove this file.
    RemoveFile(String),
    /// Nothing is left to do: the recording is saved.
    Finish,
    /// Nothing is left to do but to report this failure.
    GiveUp { message: String, wraps_cause: bool, kills_encoder: bool },
}

/// The model of an [`Action`].
pub enum ActionView {
    QueryVersion(InvocationView),
    FindMonitor(nat),
    ReadWidth,
    ReadHeight,
    ShowMonitor,
    StartAudio(Seq<char>),
    SpawnEncoder(InvocationView),
    TakeStdin,
    InstallInterrupt,
    Capture(Option<u64>),
    CloseStdin,
    WaitEncoder,
    StopAudio,
    Settle(u64),
    RenameVideo { from: Seq<char>, to: Seq<char> },
    Mux(InvocationView),
    RemoveFile(Seq<char>),
    Finish,
    GiveUp { message: Seq<char>, wraps_cause: bool, kills_encoder: bool },
}

impl View for Action {
    type V = ActionView;

    open spec fn view(&self) -> ActionView {
        match self {
            Action::QueryVersion(run) => ActionView::QueryVersion(run@),
            Action::FindMonitor(index) => ActionView::FindMonitor(*index as nat),
            Action::ReadWidth => ActionView::ReadWidth,
            Action::ReadHeight => ActionView::ReadHeight,
            Action::ShowMonitor => ActionView::ShowMonitor,
            Action::StartAudio(path) => ActionView::StartAudio(path@),
            Action::SpawnEncoder(run) => ActionView::SpawnEncoder(run@),
            Action::TakeStdin => ActionView::TakeStdin,
            Action::InstallInterrupt => ActionView::InstallInterrupt,
            Action::Capture(seconds) => ActionView::Capture(*seconds),
            Action::CloseStdin => ActionView::CloseStdin,
            Action::WaitEncoder => ActionView::WaitEncoder,
            Action::StopAudio => ActionView::StopAudio,
            Action::Settle(millis) => ActionView::Settle(*millis),
            Action::RenameVideo { from, to } => ActionView::RenameVideo { from: from@, to: to@ },
            Action::Mux(run) => ActionView::Mux(run@),
            Action::RemoveFile(path) => ActionView::RemoveFile(path@),
            Action::Finish => ActionView::Finish,
            Action::GiveUp { message, wraps_cause, kills_encoder } => ActionView::GiveUp {
                message: message@,
                wraps_cause: *wraps_cause,
                kills_encoder: *kills_encoder,
            },
        }
    }
}

/// The model of a [`Session`].
pub struct SessionView {
    pub args: ArgsView,
    /// Where the video without sound is kept.
    pub video: Seq<char>,
    /// Where the sound is kept.
    pub wav: Seq<char>,
    /// The monitor's size; zero until it was read.
    pub width: nat,
    pub height: nat,
    /// How many steps of the plan have been taken.
    pub position: nat,
    /// What the session gave up with.
    pub failure: Option<FailureView>,
}

impl SessionView {
    /// A session that has taken no step yet.
    pub open spec fn fresh(args: ArgsView, video: Seq<char>, wav: Seq<char>) -> SessionView {
        SessionView { args, video, wav, width: 0, height: 0, position: 0, failure: None }
    }

    pub open spec fn plan(self) -> Seq<Step> {
        crate::plan::plan(self.args.no_audio)
    }

    /// Whether every step was taken and none made the session give up.
    pub open spec fn finished(self) -> bool {
        self.failure is None && self.position >= self.plan().len()
    }

    /// Whether the session waits for the outcome of a step.
    pub open spec fn running(self) -> bool {
        self.failure is None && self.position < self.plan().len()
    }

    /// The step whose outcome a running session waits for.
    pub open spec fn step(self) -> Step {
        self.plan()[self.position as int]
    }

    /// The session with a reading put down.
    pub open spec fn noted(self, outcome: OutcomeView) -> SessionView {
        match outcome {
            OutcomeView::Measured(number) => if self.step() == Step::ReadWidth {
                SessionView { width: number as nat, ..self }
            } else if self.step() == Step::ReadHeight {
                SessionView { height: number as nat, ..self }
            } else {
                self
            },
            _ => self,
        }
    }

    /// The session after an outcome. One that has ended stays as it is.
    pub open spec fn advanced(self, outcome: OutcomeView) -> SessionView {
        if !self.running() {
            self
        } else {
            match verdict(self.args.monitor, self.step(), outcome) {
                None => SessionView { position: self.position + 1, ..self.noted(outcome) },
                Some(failure) => SessionView { failure: Some(failure), ..self.noted(outcome) },
            }
        }
    }

    /// What a step does in this session.
    pub open spec fn action_of(self, step: Step) -> ActionView {
        match step {
            Step::CheckFfmpeg => ActionView::QueryVersion(ffmpeg::version_run()),
            Step::FindMonitor => ActionView::FindMonitor(self.args.monitor),
            Step::ReadWidth => ActionView::ReadWidth,
            Step::ReadHeight => ActionView::ReadHeight,
            Step::ShowMonitor => ActionView::ShowMonitor,
            Step::StartAudio => ActionView::StartAudio(self.wav),
            Step::SpawnEncoder => ActionView::SpawnEncoder(
                ffmpeg::encoder_run(
                    self.width,
                    self.height,
                    self.args.fps,
                    self.args.crf,
                    self.video,
                ),
            ),
            Step::TakeStdin => ActionView::TakeStdin,
            Step::InstallInterrupt => ActionView::InstallInterrupt,
            Step::Capture => ActionView::Capture(self.args.duration),
            Step::CloseStdin => ActionView::CloseStdin,
            Step::WaitEncoder => ActionView::WaitEncoder,
            Step::StopAudio => ActionView::StopAudio,
            Step::Settle => ActionView::Settle(SETTLE_MILLIS),
            Step::RenameVideo => ActionView::RenameVideo { from: self.video, to: self.args.output },
            Step::Mux => ActionView::Mux(ffmpeg::muxer_run(self.video, self.wav, self.args.output)),
            Step::RemoveVideo => ActionView::RemoveFile(self.video),
            Step::RemoveAudio => ActionView::RemoveFile(self.wav),
        }
    }

    /// The action to perform next.
    pub open spec fn action(self) -> ActionView {
        match self.failure {
            Some(failure) => ActionView::GiveUp {
                message: failure.message(),
                wraps_cause: failure.wraps_cause(),
                kills_encoder: failure.kills_encoder(),
            },
            None => if self.position < self.plan().len() {
                self.action_of(self.step())
            } else {
                ActionView::Finish
            },
        }
    }

    /// The line to show before the next action.
    pub open spec fn announcement(self) -> Option<LineView> {
        if self.finished() {
            Some(
                LineView {
                    channel: Channel::Output,
                    text: "Hoàn tất! Video đã lưu tại: "@ + self.args.output,
                },
            )
        } else if !self.running() {
            None
        } else {
            match self.step() {
                Step::ShowMonitor => Some(
                    lines::monitor_spec(self.args.monitor, self.width, self.height, self.args.fps),
                ),
                Step::StartAudio => Some(
                    LineView {
                        channel: Channel::Output,
                        text: "Đang thu âm thanh hệ thống (loopback)..."@,
                    },
                ),
                Step::WaitEncoder => Some(
                    LineView {
                        channel: Channel::Output,
                        text: "Đang chờ FFmpeg encode xong video..."@,
                    },
                ),
                Step::Mux => Some(
                    LineView {
                        channel: Channel::Output,
                        text: "Đang ghép âm thanh vào video..."@,
                    },
                ),
                _ => None,
            }
        }
    }

    /// The warning to show for an outcome: the encoder's input is still held
    /// elsewhere.
    pub open spec fn warning(self, outcome: OutcomeView) -> Option<LineView> {
        if self.running() && self.step() == Step::CloseStdin && !outcome.clean() {
            Some(
                LineView {
                    channel: Channel::Error,
                    text: "Cảnh báo: vẫn còn tham chiếu khác tới stdin của FFmpeg, có thể chương trình chờ FFmpeg lâu hơn dự kiến."@,
                },
            )
        } else {
            None
        }
    }

    /// The session after a row of outcomes.
    pub open spec fn run(self, outcomes: Seq<OutcomeView>) -> SessionView
        decreases outcomes.len(),
    {
        if outcomes.len() == 0 {
            self
        } else {
            self.run(outcomes.drop_last()).advanced(outcomes.last())
        }
    }
}

/// The model of an optional failure.
pub open spec fn failure_option(failure: Option<Failure>) -> Option<FailureView> {
    match failure {
        Some(failure) => Some(failure@),
        None => None,
    }
}

fn is_clean(outcome: &Outcome) -> (res: bool)
    ensures
        res == outcome@.clean(),
{
    match outcome {
        Outcome::Done => true,
        Outcome::Measured(_) => true,
        Outcome::Exited { success, .. } => *success,
        Outcome::Failed(_) => false,
    }
}

/// Decides whether a session goes on after a step, or what it gives up with.
pub fn judge(monitor: usize, step: Step, outcome: Outcome) -> (res: Option<Failure>)
    ensures
        failure_option(res) == verdict(monitor as nat, step, outcome@),
{
    if step == Step::ReadWidth || step == Step::ReadHeight {
        if let Outcome::Measured(_) = outcome {
            return None;
        }
    } else if is_clean(&outcome) {
        return None;
    }
    match step {
        Step::CheckFfmpeg => Some(Failure::FfmpegMissing),
        Step::FindMonitor => Some(Failure::MonitorNotFound(monitor)),
        Step::ReadWidth => Some(Failure::WidthUnknown),
        Step::ReadHeight => Some(Failure::HeightUnknown),
        Step::StartAudio => Some(Failure::AudioNotStarted),
        Step::SpawnEncoder => Some(Failure::EncoderNotSpawned),
        Step::TakeStdin => Some(Failure::StdinMissing),
        Step::InstallInterrupt => Some(Failure::InterruptNotInstalled),
        Step::Capture => match outcome {
            Outcome::Failed(cause) => Some(Failure::CaptureFailed(cause)),
            Outcome::Exited { status, .. } => Some(Failure::CaptureFailed(status)),
            _ => None,
        },
        Step::WaitEncoder => match outcome {
            Outcome::Exited { status, .. } => Some(Failure::EncoderExit(status)),
            _ => Some(Failure::EncoderNotAwaited),
        },
        Step::RenameVideo => Some(Failure::VideoNotRenamed),
        Step::Mux => match outcome {
            Outcome::Exited { status, .. } => Some(Failure::MuxExit(status)),
            _ => Some(Failure::MuxNotRun),
        },
        Step::ShowMonitor
        | Step::CloseStdin
        | Step::StopAudio
        | Step::Settle
        | Step::RemoveVideo
        | Step::RemoveAudio => None,
    }
}

/// A recording session.
#[derive(Debug)]
pub struct Session {
    args: Args,
    video: String,
    wav: String,
    width: u32,
    height: u32,
    steps: Vec<Step>,
    position: usize,
    failure: Option<Failure>,
}

impl View for Session {
    type V = SessionView;

    closed spec fn view(&self) -> SessionView {
        SessionView {
            args: self.args@,
            video: self.video@,
            wav: self.wav@,
            width: self.width as nat,
            height: self.height as nat,
            position: self.position as nat,
            failure: failure_option(self.failure),
        }
    }
}

impl Session {
    #[verifier::type_invariant]
    spec fn follows_its_plan(self) -> bool {
        &&& self.steps@ == crate::plan::plan(self.args.no_audio)
        &&& self.position <= self.steps@.len()
    }

    /// Begins a session that keeps the video without sound in `video` and the
    /// sound in `wav`.
    pub fn new(args: Args, video: String, wav: String) -> (session: Session)
        ensures
            session@ == SessionView::fresh(args@, video@, wav@),
    {
        let steps = steps(args.no_audio);
        Session { args, video, wav, width: 0, height: 0, steps, position: 0, failure: None }
    }

    /// The action to perform next.
    pub fn action(&self) -> (action: Action)
        ensures
            action@ == self@.action(),
    {
        proof {
            use_type_invariant(self);
        }
        if let Some(failure) = &self.failure {
            return Action::GiveUp {
                message: failure.message(),
                wraps_cause: failure.wraps_cause(),
                kills_encoder: failure.kills_encoder(),
            };
        }
        if self.position >= self.steps.len() {
            return Action::Finish;
        }
        match self.steps[self.position] {
            Step::CheckFfmpeg => Action::QueryVersion(ffmpeg::version_query()),
            Step::FindMonitor => Action::FindMonitor(self.args.monitor),
            Step::ReadWidth => Action::ReadWidth,
            Step::ReadHeight => Action::ReadHeight,
            Step::ShowMonitor => Action::ShowMonitor,
            Step::StartAudio => Action::StartAudio(self.wav.clone()),
            Step::SpawnEncoder => Action::SpawnEncoder(
                ffmpeg::encoder(
                    self.width,
                    self.height,
                    self.args.fps,
                    self.args.crf,
                    self.video.as_str(),
                ),
            ),
            Step::TakeStdin => Action::TakeStdin,
            Step::InstallInterrupt => Action::InstallInterrupt,
            Step::Capture => Action::Capture(self.args.duration),
            Step::CloseStdin => Action::CloseStdin,
            Step::WaitEncoder => Action::WaitEncoder,
            Step::StopAudio => Action::StopAudio,
            Step::Settle => Action::Settle(SETTLE_MILLIS),
            Step::RenameVideo => Action::RenameVideo {
                from: self.video.clone(),
                to: self.args.output.clone(),
            },
            Step::Mux => Action::Mux(
                ffmpeg::muxer(
                    self.video.as_str(),
                    self.wav.as_str(),
                    self.args.output.as_str(),
                ),
            ),
            Step::RemoveVideo => Action::RemoveFile(self.video.clone()),
            Step::RemoveAudio => Action::RemoveFile(self.wav.clone()),
        }
    }

    /// The line to show before the next action.
    pub fn announcement(&self) -> (line: Option<Line>)
        ensures
            lines::line_option(line) == self@.announcement(),
    {
        proof {
            use_type_invariant(self);
        }
        if self.failure.is_some() {
            return None;
        }
        if self.position >= self.steps.len() {
            return Some(
                lines::output_line(
                    joined("Hoàn tất! Video đã lưu tại: ", self.args.output.as_str()).as_str(),
                ),
            );
        }
        match self.steps[self.position] {
            Step::ShowMonitor => Some(
                lines::monitor_line(self.args.monitor, self.width, self.height, self.args.fps),
            ),
            Step::StartAudio => Some(
                lines::output_line("Đang thu âm thanh hệ thống (loopback)..."),
            ),
            Step::WaitEncoder => Some(
                lines::output_line("Đang chờ FFmpeg encode xong video..."),
            ),
            Step::Mux => Some(
                lines::output_line("Đang ghép âm thanh vào video..."),
            ),
            _ => None,
        }
    }

    /// The warning to show for the outcome of the current action.
    pub fn warning(&self, outcome: &Outcome) -> (line: Option<Line>)
        ensures
            lines::line_option(line) == self@.warning(outcome@),
    {
        proof {
            use_type_invariant(self);
        }
        if self.failure.is_none() && self.position < self.steps.len() && self.steps[self.position]
            == Step::CloseStdin && !is_clean(outcome) {
            Some(
                lines::error_line(
                    "Cảnh báo: vẫn còn tham chiếu khác tới stdin của FFmpeg, có thể chương trình chờ FFmpeg lâu hơn dự kiến.",
                ),
            )
        } else {
            None
        }
    }

    /// Takes note of what came of the current action.
    pub fn advance(&mut self, outcome: Outcome)
        ensures
            final(self)@ == old(self)@.advanced(outcome@),
    {
        proof {
            use_type_invariant(&*self);
        }
        if self.failure.is_some() || self.position >= self.steps.len() {
            return;
        }
        let step = self.steps[self.position];
        if let Outcome::Measured(number) = &outcome {
            if step == Step::ReadWidth {
                self.width = *number;
            } else if step == Step::ReadHeight {
                self.height = *number;
            }
        }
        match judge(self.args.monitor, step, outcome) {
            None => {
                self.position = self.position + 1;
            },
            Some(failure) => {
                self.failure = Some(failure);
            },
        }
    }
}

} // verus!
