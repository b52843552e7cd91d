//! What is done with each captured frame, and when the capture stops.
//!
//! A [`Capture`] is told what happens to a frame, event by event, and names the
//! action to perform after each.

use crate::lines::{self, Channel, Line, LineView};
use vstd::prelude::*;

verus! {

/// Nanoseconds in a second.
pub const NANOS_PER_SECOND: u128 = 1_000_000_000;

/// Something that happens to a captured frame.
#[derive(Debug, Clone, Copy, PartialEq, Eq, Structural)]
pub enum FrameEvent {
    /// A frame arrived.
    Arrived,
    /// The pixels of the frame could not be had.
    BufferFailed,
    /// The frame was written to the encoder.
    Written,
    /// The encoder did not take the frame.
    WriteFailed,
    /// The progress was shown. Whether a stop was asked for by then, and the time
    /// since the start of the recording, in nanoseconds.
    Shown { stop_requested: bool, elapsed: u128 },
}

/// What to do after an event.
#[derive(Debug, Clone, Copy, PartialEq, Eq, Structural)]
pub enum FrameAction {
    /// Take the pixels of the frame, without padding, and write them to the
    /// encoder.
    Write,
    /// End the capture with the error of the frame.
    Fail,
    /// Show the progress, with the number of frames so far.
    ShowProgress(u64),
    /// Report the failed write and stop the capture, without an error.
    StopAfterFailedWrite,
    /// Wait for the next frame.
    Continue,
    /// Stop the capture, without an error.
    Stop,
    /// Tell that the captured item went away, and ask for a stop.
    RequestStop,
}

impl FrameAction {
    /// The line to show with an action. `seconds` is the time recorded so far, in
    /// tenths of a second, and `cause` the text of the error of a failed write.
    pub open spec fn line_spec(self, seconds: Seq<char>, cause: Seq<char>) -> Option<LineView> {
        match self {
            FrameAction::ShowProgress(frames) => Some(
                lines::progress_spec(seconds, frames as nat),
            ),
            FrameAction::StopAfterFailedWrite => Some(lines::write_failed_spec(cause)),
            FrameAction::Stop => Some(
                LineView { channel: Channel::Output, text: "\nĐang dừng capture..."@ },
            ),
            FrameAction::RequestStop => Some(
                LineView { channel: Channel::Output, text: "\nPhiên capture bị đóng đột ngột."@ },
            ),
            FrameAction::Write | FrameAction::Fail | FrameAction::Continue => None,
        }
    }

    /// The line to show with an action.
    pub fn line(self, seconds: &str, cause: &str) -> (line: Option<Line>)
        ensures
            lines::line_option(line) == self.line_spec(seconds@, cause@),
    {
        match self {
            FrameAction::ShowProgress(frames) => Some(lines::progress_line(seconds, frames)),
            FrameAction::StopAfterFailedWrite => Some(lines::write_failed_line(cause)),
            FrameAction::Stop => Some(lines::output_line("\nĐang dừng capture...")),
            FrameAction::RequestStop => Some(
                lines::output_line("\nPhiên capture bị đóng đột ngột."),
            ),
            FrameAction::Write | FrameAction::Fail | FrameAction::Continue => None,
        }
    }
}

/// The model of a [`Capture`].
pub struct CaptureView {
    /// How many frames have arrived.
    pub frame_count: nat,
    /// The longest time to record, in seconds.
    pub max_seconds: Option<u64>,
}

impl CaptureView {
    /// Whether the recording has lasted as long as it may.
    pub open spec fn time_is_up(self, elapsed: nat) -> bool {
        self.max_seconds matches Some(seconds) && elapsed >= seconds * NANOS_PER_SECOND
    }

    /// The capture after an event.
    pub open spec fn after(self, event: FrameEvent) -> CaptureView {
        if event is Arrived {
            CaptureView { frame_count: self.frame_count + 1, ..self }
        } else {
            self
        }
    }

    /// What to do after an event.
    pub open spec fn action(self, event: FrameEvent) -> FrameAction {
        match event {
            FrameEvent::Arrived => FrameAction::Write,
            FrameEvent::BufferFailed => FrameAction::Fail,
            FrameEvent::Written => FrameAction::ShowProgress(self.frame_count as u64),
            FrameEvent::WriteFailed => FrameAction::StopAfterFailedWrite,
            FrameEvent::Shown { stop_requested, elapsed } => if stop_requested || self.time_is_up(
                elapsed as nat,
            ) {
                FrameAction::Stop
            } else {
                FrameAction::Continue
            },
        }
    }

    /// The capture after a row of events.
    pub open spec fn run(self, events: Seq<FrameEvent>) -> CaptureView
        decreases events.len(),
    {
        if events.len() == 0 {
            self
        } else {
            self.run(events.drop_last()).after(events.last())
        }
    }
}

/// A running screen capture.
#[derive(Debug)]
pub struct Capture {
    frame_count: u64,
    max_duration: Option<u64>,
}

impl View for Capture {
    type V = CaptureView;

    closed spec fn view(&self) -> CaptureView {
        CaptureView { frame_count: self.frame_count as nat, max_seconds: self.max_duration }
    }
}

impl Capture {
    /// A capture that has seen no frame, and that lasts at most `max_duration`
    /// seconds if that is given.
    pub fn new(max_duration: Option<u64>) -> (capture: Capture)
        ensures
            capture@ == (CaptureView { frame_count: 0, max_seconds: max_duration }),
    {
        Capture { frame_count: 0, max_duration }
    }

    /// The line to show before the first frame.
    pub fn opening_line(&self) -> (line: Line)
        ensures
            line@ == (LineView {
                channel: Channel::Output,
                text: "Bắt đầu quay. Nhấn Ctrl+C để dừng."@,
            }),
    {
        lines::output_line("Bắt đầu quay. Nhấn Ctrl+C để dừng.")
    }

    /// How many frames have arrived.
    pub fn frame_count(&self) -> (count: u64)
        ensures
            count == self@.frame_count,
    {
        self.frame_count
    }

    /// Takes note of an event and says what to do.
    pub fn on_frame_arrived(&mut self, event: FrameEvent) -> (action: FrameAction)
        requires
            event is Arrived ==> old(self)@.frame_count < u64::MAX,
        ensures
            final(self)@ == old(self)@.after(event),
            action == old(self)@.after(event).action(event),
            event matches FrameEvent::Shown { stop_requested, elapsed } ==> (action is Stop
                <==> stop_requested || (old(self)@.max_seconds matches Some(seconds) && elapsed
                >= seconds * 1_000_000_000)),
            event is Arrived ==> final(self)@.frame_count == old(self)@.frame_count + 1,
            !(event is Arrived) ==> final(self)@.frame_count == old(self)@.frame_count,
            final(self)@.max_seconds == old(self)@.max_seconds,
    {
        match event {
            FrameEvent::Arrived => {
                self.frame_count = self.frame_count + 1;
                FrameAction::Write
            },
            FrameEvent::BufferFailed => FrameAction::Fail,
            FrameEvent::Written => FrameAction::ShowProgress(self.frame_count),
            FrameEvent::WriteFailed => FrameAction::StopAfterFailedWrite,
            FrameEvent::Shown { stop_requested, elapsed } => if stop_requested
                || self.reached_max_duration(elapsed) {
                FrameAction::Stop
            } else {
                FrameAction::Continue
            },
        }
    }

    /// What to do when the captured item went away: the recording is to stop.
    pub fn on_closed(&self) -> (action: FrameAction)
        ensures
            action == FrameAction::RequestStop,
    {
        FrameAction::RequestStop
    }

    /// Whether the recording has lasted as long as it may, `elapsed` nanoseconds
    /// after its start.
    pub fn reached_max_duration(&self, elapsed: u128) -> (res: bool)
        ensures
            res == self@.time_is_up(elapsed as nat),
            res <==> (self@.max_seconds matches Some(seconds) && elapsed >= seconds
                * 1_000_000_000),
    {
        match self.max_duration {
            Some(seconds) => elapsed >= seconds as u128 * NANOS_PER_SECOND,
            None => false,
        }
    }
}

/// Whether an event tells what came of an action.
pub open spec fn answers(action: FrameAction, event: FrameEvent) -> bool {
    match action {
        FrameAction::Write => event is BufferFailed || event is Written || event is WriteFailed,
        FrameAction::ShowProgress(_) => event is Shown,
        _ => false,
    }
}

/// Whether an action is the last one for a frame.
pub open spec fn ends_frame(action: FrameAction) -> bool {
    action is Fail || action is StopAfterFailedWrite || action is Stop || action is Continue
}

/// The action that follows the event at `i` of a row of events.
pub open spec fn action_at(start: CaptureView, events: Seq<FrameEvent>, i: int) -> FrameAction {
    start.run(events.take(i + 1)).action(events[i])
}

/// Whether a row of events begins with the arrival of a frame and goes on with
/// what came of one action after the other.
pub open spec fn one_frame(start: CaptureView, events: Seq<FrameEvent>) -> bool {
    &&& events.len() > 0
    &&& events[0] is Arrived
    &&& forall|i: int|
        0 < i < events.len() ==> answers(action_at(start, events, i - 1), #[trigger] events[i])
}

/// Whether nothing is left to tell of a frame.
pub open spec fn told_to_the_end(start: CaptureView, events: Seq<FrameEvent>) -> bool {
    forall|event: FrameEvent|
        !#[trigger] answers(action_at(start, events, events.len() - 1), event)
}

proof fn lemma_run_of_one_frame(start: CaptureView, events: Seq<FrameEvent>, n: int)
    requires
        events.len() > 0,
        events[0] is Arrived,
        0 < n <= events.len(),
        forall|i: int| 0 < i < n ==> !(#[trigger] events[i] is Arrived),
    ensures
        start.run(events.take(n)) == start.after(FrameEvent::Arrived),
    decreases n,
{
    let row = events.take(n);
    assert(row.drop_last() =~= events.take(n - 1));
    assert(row.last() == events[n - 1]);
    if n == 1 {
        assert(start.run(events.take(0)) == start);
    } else {
        lemma_run_of_one_frame(start, events, n - 1);
    }
}

/// What is done with one frame, from its arrival on, as far as it has been told.
/// The frame is counted once. Writing it is named once, and first. The progress
/// is shown second, and only if the frame was written; it counts this frame. The
/// capture is stopped only after that, and only if a stop was asked for or the
/// time is up. No action that ends the frame is followed by another.
pub proof fn law_one_frame(start: CaptureView, events: Seq<FrameEvent>)
    requires
        one_frame(start, events),
    ensures
        events.len() <= 3,
        start.run(events).frame_count == start.frame_count + 1,
        start.run(events).max_seconds == start.max_seconds,
        forall|i: int|
            0 <= i < events.len() ==> {
                let action = #[trigger] action_at(start, events, i);
                &&& (action is Write <==> i == 0)
                &&& (action is ShowProgress <==> i == 1 && events[1] is Written)
                &&& (action is ShowProgress ==> action == FrameAction::ShowProgress(
                    (start.frame_count + 1) as u64,
                ))
                &&& (action is Fail <==> i == 1 && events[1] is BufferFailed)
                &&& (action is StopAfterFailedWrite <==> i == 1 && events[1] is WriteFailed)
                &&& (action is Stop || action is Continue <==> i == 2)
                &&& (action is Stop ==> events[1] is Written && events[2] is Shown)
                &&& (i == 2 ==> (action is Stop <==> events[2]->stop_requested || start.time_is_up(
                    events[2]->elapsed as nat,
                )))
                &&& !(action is RequestStop)
                &&& (ends_frame(action) ==> i == events.len() - 1)
            },
{
    assert forall|i: int| 0 < i < events.len() implies !(#[trigger] events[i] is Arrived) by {
        assert(answers(action_at(start, events, i - 1), events[i]));
    }
    assert forall|i: int| 0 <= i < events.len() implies #[trigger] action_at(start, events, i)
        == start.after(FrameEvent::Arrived).action(events[i]) by {
        lemma_run_of_one_frame(start, events, i + 1);
    }
    lemma_run_of_one_frame(start, events, events.len() as int);
    assert(events.take(events.len() as int) =~= events);
    if events.len() > 1 {
        assert(answers(action_at(start, events, 0), events[1]));
    }
    if events.len() > 2 {
        assert(answers(action_at(start, events, 1), events[2]));
    }
    if events.len() > 3 {
        assert(answers(action_at(start, events, 2), events[3]));
    }
}

/// A frame that was told to the end has come to exactly one action that ends it:
/// the capture fails, stops after a failed write, stops, or waits for the next
/// frame.
pub proof fn law_one_frame_ends_once(start: CaptureView, events: Seq<FrameEvent>)
    requires
        one_frame(start, events),
        told_to_the_end(start, events),
    ensures
        forall|i: int|
            0 <= i < events.len() ==> (ends_frame(#[trigger] action_at(start, events, i)) <==> i
                == events.len() - 1),
{
    law_one_frame(start, events);
    let last = action_at(start, events, events.len() - 1);
    assert(!answers(last, FrameEvent::Written));
    assert(!answers(last, FrameEvent::Shown { stop_requested: false, elapsed: 0 }));
}

/// Events are taken one after the other, and only an arrival changes a capture.
pub proof fn law_events_are_taken_in_order(
    start: CaptureView,
    events: Seq<FrameEvent>,
    event: FrameEvent,
)
    ensures
        start.run(Seq::<FrameEvent>::empty()) == start,
        start.run(events.push(event)) == start.run(events).after(event),
        start.after(event).max_seconds == start.max_seconds,
        event is Arrived ==> start.after(event).frame_count == start.frame_count + 1,
        !(event is Arrived) ==> start.after(event).frame_count == start.frame_count,
{
    assert(events.push(event).drop_last() =~= events);
}

/// The lines of a capture: with the progress its time and its frames, with a
/// failed write its cause, with the last frame and with a lost item that it
/// stops; and none with any other action.
pub proof fn law_lines_of_a_capture(frames: u64, seconds: Seq<char>, cause: Seq<char>)
    ensures
        FrameAction::ShowProgress(frames).line_spec(seconds, cause) == Some(
            LineView {
                channel: Channel::InPlace,
                text: "\rĐang quay: "@ + seconds + "s ("@ + crate::text::decimal(frames as nat)
                    + " khung hình)"@,
            },
        ),
        FrameAction::StopAfterFailedWrite.line_spec(seconds, cause) == Some(
            LineView {
                channel: Channel::Error,
                text: "\nGhi frame vào FFmpeg thất bại (có thể FFmpeg đã thoát): "@ + cause,
            },
        ),
        FrameAction::Stop.line_spec(seconds, cause) == Some(
            LineView { channel: Channel::Output, text: "\nĐang dừng capture..."@ },
        ),
        FrameAction::RequestStop.line_spec(seconds, cause) == Some(
            LineView { channel: Channel::Output, text: "\nPhiên capture bị đóng đột ngột."@ },
        ),
        FrameAction::Write.line_spec(seconds, cause) is None,
        FrameAction::Fail.line_spec(seconds, cause) is None,
        FrameAction::Continue.line_spec(seconds, cause) is None,
{
}

/// The number of frames is the number of arrivals, and the time limit stays.
pub proof fn law_every_arrival_is_counted(start: CaptureView, events: Seq<FrameEvent>)
    ensures
        start.run(events).frame_count == start.frame_count + events.filter(
            |e: FrameEvent| e is Arrived,
        ).len(),
        start.run(events).max_seconds == start.max_seconds,
    decreases events.len(),
{
    reveal(Seq::filter);
    if events.len() > 0 {
        law_every_arrival_is_counted(start, events.drop_last());
    }
}

/// Without a time limit, only a request stops a capture whose frames are taken.
pub proof fn law_without_a_limit_only_a_request_stops(
    capture: CaptureView,
    stop_requested: bool,
    elapsed: u128,
)
    requires
        capture.max_seconds is None,
    ensures
        (capture.action(FrameEvent::Shown { stop_requested, elapsed }) == FrameAction::Stop)
            == stop_requested,
{
}

/// With a limit of `seconds`, and without a request, a capture goes on as long as
/// fewer nanoseconds have passed than the limit has, and stops from then on.
pub proof fn law_the_limit_stops_to_the_nanosecond(
    frame_count: nat,
    seconds: u64,
    elapsed: u128,
)
    ensures
        ({
            let capture = CaptureView { frame_count, max_seconds: Some(seconds) };
            let shown = FrameEvent::Shown { stop_requested: false, elapsed };
            &&& elapsed >= seconds * 1_000_000_000 ==> capture.action(shown) == FrameAction::Stop
            &&& elapsed < seconds * 1_000_000_000 ==> capture.action(shown)
                == FrameAction::Continue
            &&& capture.time_is_up(elapsed as nat) <==> elapsed >= seconds * 1_000_000_000
        }),
{
}

/// A request stops a capture whatever its limit is and however long it has
/// lasted.
pub proof fn law_a_request_always_stops(capture: CaptureView, elapsed: u128)
    ensures
        capture.action(FrameEvent::Shown { stop_requested: true, elapsed }) == FrameAction::Stop,
{
}

/// What a capture does with a frame that it could not read or write, or that it
/// wrote, rests on nothing but how many frames there were.
pub proof fn law_reading_and_writing(capture: CaptureView)
    ensures
        capture.action(FrameEvent::Arrived) == FrameAction::Write,
        capture.action(FrameEvent::BufferFailed) == FrameAction::Fail,
        capture.action(FrameEvent::WriteFailed) == FrameAction::StopAfterFailedWrite,
        capture.action(FrameEvent::Written) == FrameAction::ShowProgress(
            capture.frame_count as u64,
        ),
{
}

/// A requested stop comes with the next frame that is taken, and so does the end
/// of the time: once it was up, it stays up.
pub proof fn law_a_due_stop_stays_due(
    capture: CaptureView,
    events: Seq<FrameEvent>,
    earlier: u128,
    later: u128,
    stop_requested: bool,
)
    requires
        earlier <= later,
        capture.action(FrameEvent::Shown { stop_requested, elapsed: earlier }) == FrameAction::Stop,
    ensures
        capture.run(events).action(FrameEvent::Shown { stop_requested, elapsed: later })
            == FrameAction::Stop,
{
    law_every_arrival_is_counted(capture, events);
}

} // verus!
