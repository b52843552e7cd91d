use screenrec::capture::{Capture, FrameAction, FrameEvent, NANOS_PER_SECOND};
use screenrec::lines::{
    monitor_line, progress_line, stream_error_line, write_failed_line, Channel, Line,
};

fn parts(line: Line) -> (Channel, String) {
    (line.channel, line.text)
}

fn line_of(action: FrameAction) -> Option<(Channel, String)> {
    action.line("12.3", "broken pipe").map(parts)
}

fn shown(stop_requested: bool, elapsed: u128) -> FrameEvent {
    FrameEvent::Shown { stop_requested, elapsed }
}

#[test]
fn each_frame_is_counted_written_and_shown() {
    let mut capture = Capture::new(None);
    assert_eq!(capture.frame_count(), 0);
    for n in 1..=3u64 {
        assert_eq!(capture.on_frame_arrived(FrameEvent::Arrived), FrameAction::Write);
        assert_eq!(
            capture.on_frame_arrived(FrameEvent::Written),
            FrameAction::ShowProgress(n)
        );
        assert_eq!(capture.on_frame_arrived(shown(false, 1)), FrameAction::Continue);
        assert_eq!(capture.frame_count(), n);
    }
}

#[test]
fn a_frame_that_is_not_taken_stops_the_capture_without_an_error() {
    let mut capture = Capture::new(None);
    capture.on_frame_arrived(FrameEvent::Arrived);
    assert_eq!(
        capture.on_frame_arrived(FrameEvent::WriteFailed),
        FrameAction::StopAfterFailedWrite
    );
    assert_eq!(capture.frame_count(), 1);
}

#[test]
fn a_frame_without_pixels_ends_the_capture_with_an_error() {
    let mut capture = Capture::new(None);
    capture.on_frame_arrived(FrameEvent::Arrived);
    assert_eq!(capture.on_frame_arrived(FrameEvent::BufferFailed), FrameAction::Fail);
}

#[test]
fn a_request_stops_the_capture() {
    let mut capture = Capture::new(Some(30));
    assert_eq!(capture.on_frame_arrived(shown(true, 0)), FrameAction::Stop);
    let mut capture = Capture::new(None);
    assert_eq!(capture.on_frame_arrived(shown(true, 0)), FrameAction::Stop);
}

#[test]
fn without_a_limit_no_time_stops_the_capture() {
    let mut capture = Capture::new(None);
    assert_eq!(capture.on_frame_arrived(shown(false, u128::MAX)), FrameAction::Continue);
    assert!(!capture.reached_max_duration(u128::MAX));
}

#[test]
fn thirty_seconds_are_not_a_nanosecond_less() {
    let mut capture = Capture::new(Some(30));
    let limit = 30 * NANOS_PER_SECOND;
    assert_eq!(limit, 30_000_000_000);
    assert_eq!(capture.on_frame_arrived(shown(false, limit - 1)), FrameAction::Continue);
    assert_eq!(capture.on_frame_arrived(shown(false, limit)), FrameAction::Stop);
    assert_eq!(capture.on_frame_arrived(shown(false, limit + 1)), FrameAction::Stop);
}

#[test]
fn the_smallest_and_the_largest_limit() {
    assert!(Capture::new(Some(0)).reached_max_duration(0));
    let longest = Capture::new(Some(u64::MAX));
    let limit = u64::MAX as u128 * NANOS_PER_SECOND;
    assert!(!longest.reached_max_duration(limit - 1));
    assert!(longest.reached_max_duration(limit));
}

#[test]
fn a_closed_item_asks_for_a_stop() {
    assert_eq!(Capture::new(None).on_closed(), FrameAction::RequestStop);
}

#[test]
fn lines_read_as_they_should() {
    assert_eq!(
        parts(monitor_line(1, 1920, 1080, 30)),
        (Channel::Output, "Màn hình #1: 1920x1080 @ 30 fps".to_string())
    );
    assert_eq!(
        parts(progress_line("0.0", 1)),
        (Channel::InPlace, "\rĐang quay: 0.0s (1 khung hình)".to_string())
    );
    assert_eq!(
        parts(write_failed_line("full")),
        (
            Channel::Error,
            "\nGhi frame vào FFmpeg thất bại (có thể FFmpeg đã thoát): full".to_string()
        )
    );
    assert_eq!(
        parts(stream_error_line("lost")),
        (Channel::Error, "[audio] Lỗi stream: lost".to_string())
    );
}

#[test]
fn each_action_has_its_line() {
    assert_eq!(
        line_of(FrameAction::ShowProgress(369)),
        Some((Channel::InPlace, "\rĐang quay: 12.3s (369 khung hình)".to_string()))
    );
    assert_eq!(
        line_of(FrameAction::StopAfterFailedWrite),
        Some((
            Channel::Error,
            "\nGhi frame vào FFmpeg thất bại (có thể FFmpeg đã thoát): broken pipe".to_string()
        ))
    );
    assert_eq!(
        line_of(FrameAction::Stop),
        Some((Channel::Output, "\nĐang dừng capture...".to_string()))
    );
    assert_eq!(
        line_of(FrameAction::RequestStop),
        Some((Channel::Output, "\nPhiên capture bị đóng đột ngột.".to_string()))
    );
    assert_eq!(line_of(FrameAction::Write), None);
    assert_eq!(line_of(FrameAction::Fail), None);
    assert_eq!(line_of(FrameAction::Continue), None);
}

#[test]
fn a_capture_opens_with_its_line() {
    assert_eq!(
        parts(Capture::new(None).opening_line()),
        (Channel::Output, "Bắt đầu quay. Nhấn Ctrl+C để dừng.".to_string())
    );
}

#[test]
fn a_frame_is_told_in_three_events_at_most() {
    let mut capture = Capture::new(Some(1));
    let events = [FrameEvent::Arrived, FrameEvent::Written, shown(false, NANOS_PER_SECOND)];
    let mut actions = Vec::new();
    for event in events {
        actions.push(capture.on_frame_arrived(event));
    }
    assert_eq!(
        actions,
        vec![FrameAction::Write, FrameAction::ShowProgress(1), FrameAction::Stop]
    );
    assert_eq!(capture.frame_count(), 1);
}
