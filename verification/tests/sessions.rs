use screenrec::args::Args;
use screenrec::failure::Failure;
use screenrec::ffmpeg::StreamMode;
use screenrec::lines::{Channel, Line};
use screenrec::plan::{steps, Step};
use screenrec::session::{judge, Action, Outcome, Session, AUDIO_FILE_NAME, VIDEO_FILE_NAME};

fn settings(no_audio: bool) -> Args {
    Args {
        output: "demo.mp4".to_string(),
        monitor: 2,
        fps: 60,
        crf: 18,
        duration: Some(30),
        no_audio,
    }
}

fn begin(no_audio: bool) -> Session {
    Session::new(settings(no_audio), "v.mp4".to_string(), "a.wav".to_string())
}

fn exited(success: bool, status: &str) -> Outcome {
    Outcome::Exited { success, status: status.to_string() }
}

/// What goes well for the action that a session asks for.
fn well(action: &Action) -> Outcome {
    match action {
        Action::QueryVersion(_) | Action::WaitEncoder | Action::Mux(_) => {
            exited(true, "exit status: 0")
        }
        Action::ReadWidth => Outcome::Measured(2560),
        Action::ReadHeight => Outcome::Measured(1440),
        _ => Outcome::Done,
    }
}

/// The name of an action.
fn name(action: &Action) -> String {
    let text = format!("{:?}", action);
    let end = text.find(|c: char| !c.is_alphanumeric()).unwrap_or(text.len());
    text[..end].to_string()
}

/// Lets everything go well, up to the action of the given name.
fn up_to(session: &mut Session, wanted: &str) {
    for _ in 0..30 {
        let action = session.action();
        if name(&action) == wanted {
            return;
        }
        session.advance(well(&action));
    }
    panic!("no such action");
}

fn give_up(session: &Session) -> (String, bool, bool) {
    match session.action() {
        Action::GiveUp { message, wraps_cause, kills_encoder } => {
            (message, wraps_cause, kills_encoder)
        }
        other => panic!("{:?}", other),
    }
}

/// What a session gives up with when the action of the given name comes to this.
fn failing_at(no_audio: bool, wanted: &str, outcome: Outcome) -> (String, bool, bool) {
    let mut session = begin(no_audio);
    up_to(&mut session, wanted);
    session.advance(outcome);
    give_up(&session)
}

fn failed() -> Outcome {
    Outcome::Failed("cause".to_string())
}

#[test]
fn defaults_are_those_of_the_manual() {
    let args = Args::default();
    assert_eq!(args.output, "recording.mp4");
    assert_eq!(args.monitor, 1);
    assert_eq!(args.fps, 30);
    assert_eq!(args.crf, 20);
    assert_eq!(args.duration, None);
    assert!(!args.no_audio);
}

#[test]
fn a_session_with_sound_goes_through_every_action() {
    let mut session = begin(false);
    let mut names = Vec::new();
    let mut lines = Vec::new();
    loop {
        let action = session.action();
        if let Some(line) = session.announcement() {
            assert_eq!(line.channel, Channel::Output);
            lines.push(line.text);
        }
        names.push(name(&action));
        match &action {
            Action::QueryVersion(run) => {
                assert_eq!(run.program, "ffmpeg");
                assert_eq!(run.args, vec!["-version"]);
                assert_eq!(run.stderr, StreamMode::Discarded);
            }
            Action::FindMonitor(index) => assert_eq!(*index, 2),
            Action::StartAudio(path) => assert_eq!(path, "a.wav"),
            Action::SpawnEncoder(run) => {
                assert_eq!(run.stdin, StreamMode::Piped);
                let args = &run.args;
                assert_eq!(args[6], "2560x1440");
                assert_eq!(args[8], "60");
                assert_eq!(args[18], "18");
                assert_eq!(args[19], "v.mp4");
            }
            Action::Capture(seconds) => assert_eq!(*seconds, Some(30)),
            Action::Settle(millis) => assert_eq!(*millis, 300),
            Action::Mux(run) => {
                assert_eq!(run.stdin, StreamMode::Inherited);
                let args = &run.args;
                assert_eq!(args[2], "v.mp4");
                assert_eq!(args[4], "a.wav");
                assert_eq!(args[12], "demo.mp4");
            }
            Action::Finish => break,
            _ => {}
        }
        let outcome = well(&action);
        assert!(session.warning(&outcome).is_none());
        session.advance(outcome);
    }
    assert_eq!(
        names,
        vec![
            "QueryVersion",
            "FindMonitor",
            "ReadWidth",
            "ReadHeight",
            "ShowMonitor",
            "StartAudio",
            "SpawnEncoder",
            "TakeStdin",
            "InstallInterrupt",
            "Capture",
            "CloseStdin",
            "WaitEncoder",
            "StopAudio",
            "Settle",
            "Mux",
            "RemoveFile",
            "RemoveFile",
            "Finish",
        ]
    );
    assert_eq!(
        lines,
        vec![
            "Màn hình #2: 2560x1440 @ 60 fps",
            "Đang thu âm thanh hệ thống (loopback)...",
            "Đang chờ FFmpeg encode xong video...",
            "Đang ghép âm thanh vào video...",
            "Hoàn tất! Video đã lưu tại: demo.mp4",
        ]
    );
}

#[test]
fn a_session_without_sound_renames_the_video() {
    let mut session = begin(true);
    let mut names = Vec::new();
    loop {
        let action = session.action();
        names.push(name(&action));
        if let Action::RenameVideo { from, to } = &action {
            assert_eq!(from, "v.mp4");
            assert_eq!(to, "demo.mp4");
        }
        if let Action::Finish = action {
            break;
        }
        session.advance(well(&action));
    }
    assert_eq!(
        names,
        vec![
            "QueryVersion",
            "FindMonitor",
            "ReadWidth",
            "ReadHeight",
            "ShowMonitor",
            "SpawnEncoder",
            "TakeStdin",
            "InstallInterrupt",
            "Capture",
            "CloseStdin",
            "WaitEncoder",
            "Settle",
            "RenameVideo",
            "Finish",
        ]
    );
}

#[test]
fn the_two_removals_are_of_the_video_and_of_the_sound() {
    let mut session = begin(false);
    up_to(&mut session, "RemoveFile");
    assert!(matches!(session.action(), Action::RemoveFile(path) if path == "v.mp4"));
    session.advance(failed());
    assert!(matches!(session.action(), Action::RemoveFile(path) if path == "a.wav"));
    session.advance(failed());
    assert!(matches!(session.action(), Action::Finish));
}

#[test]
fn plans_hold_each_step_once() {
    assert_eq!(steps(true).len(), 13);
    assert_eq!(steps(false).len(), 17);
    for no_audio in [true, false] {
        let plan = steps(no_audio);
        for i in 0..plan.len() {
            for j in 0..i {
                assert_ne!(plan[i], plan[j]);
            }
        }
        assert_eq!(plan[0], Step::CheckFfmpeg);
        assert_eq!(plan.contains(&Step::Mux), !no_audio);
    }
}

#[test]
fn without_ffmpeg_nothing_is_done() {
    let message = "Không tìm thấy `ffmpeg` trong PATH. Hãy tải FFmpeg tại \
                   https://ffmpeg.org/download.html (bản 'essentials' hoặc 'full' \
                   cho Windows), giải nén, và thêm thư mục chứa ffmpeg.exe vào PATH.";
    let expected = (message.to_string(), false, false);
    assert_eq!(failing_at(false, "QueryVersion", failed()), expected);
    assert_eq!(failing_at(false, "QueryVersion", exited(false, "exit status: 1")), expected);
}

#[test]
fn a_monitor_that_is_not_there_is_named() {
    assert_eq!(
        failing_at(false, "FindMonitor", failed()),
        (
            "Không tìm thấy màn hình #2. Hãy kiểm tra lại chỉ số màn hình.".to_string(),
            false,
            false
        )
    );
}

#[test]
fn a_size_that_cannot_be_read_ends_the_session() {
    assert_eq!(
        failing_at(true, "ReadWidth", failed()),
        ("Không lấy được chiều rộng màn hình".to_string(), true, false)
    );
    assert_eq!(
        failing_at(true, "ReadHeight", failed()),
        ("Không lấy được chiều cao màn hình".to_string(), true, false)
    );
    assert_eq!(
        failing_at(true, "ReadHeight", Outcome::Done),
        ("Không lấy được chiều cao màn hình".to_string(), true, false)
    );
}

#[test]
fn what_cannot_be_started_ends_the_session() {
    assert_eq!(
        failing_at(false, "StartAudio", failed()),
        ("Khởi tạo audio capturer thất bại".to_string(), true, false)
    );
    assert_eq!(
        failing_at(false, "SpawnEncoder", failed()),
        (
            "Không chạy được `ffmpeg` — hãy cài FFmpeg (https://ffmpeg.org/download.html) \
             và đảm bảo nó có trong PATH."
                .to_string(),
            true,
            false
        )
    );
    assert_eq!(
        failing_at(false, "TakeStdin", failed()),
        ("Không lấy được stdin của tiến trình FFmpeg".to_string(), false, false)
    );
    assert_eq!(
        failing_at(false, "InstallInterrupt", failed()),
        ("Không đăng ký được trình xử lý Ctrl+C".to_string(), true, false)
    );
}

#[test]
fn only_a_failed_capture_kills_the_encoder() {
    assert_eq!(
        failing_at(false, "Capture", failed()),
        ("Quay màn hình thất bại: cause".to_string(), false, true)
    );
    assert!(Failure::CaptureFailed(String::new()).kills_encoder());
    assert!(!Failure::EncoderExit(String::new()).kills_encoder());
}

#[test]
fn an_encoder_that_ends_badly_ends_the_session() {
    assert_eq!(
        failing_at(false, "WaitEncoder", failed()),
        ("Chờ tiến trình FFmpeg kết thúc thất bại".to_string(), true, false)
    );
    assert_eq!(
        failing_at(false, "WaitEncoder", exited(false, "exit code: 1")),
        ("FFmpeg (encode video) thoát với mã lỗi: exit code: 1".to_string(), false, false)
    );
}

#[test]
fn an_output_that_cannot_be_made_ends_the_session() {
    assert_eq!(
        failing_at(true, "RenameVideo", failed()),
        ("Không đổi tên file video thành output cuối cùng".to_string(), true, false)
    );
    assert_eq!(
        failing_at(false, "Mux", failed()),
        ("Không chạy được `ffmpeg` để mux audio/video".to_string(), true, false)
    );
    assert_eq!(
        failing_at(false, "Mux", exited(false, "exit code: 1")),
        ("FFmpeg thoát với mã lỗi khi mux: exit code: 1".to_string(), false, false)
    );
}

#[test]
fn an_input_that_is_still_held_is_only_warned_of() {
    let mut session = begin(false);
    up_to(&mut session, "CloseStdin");
    match session.warning(&failed()) {
        Some(Line { channel, text }) => {
            assert_eq!(channel, Channel::Error);
            assert_eq!(
                text,
                "Cảnh báo: vẫn còn tham chiếu khác tới stdin của FFmpeg, \
                 có thể chương trình chờ FFmpeg lâu hơn dự kiến."
            );
        }
        None => panic!("no warning"),
    }
    assert!(session.warning(&Outcome::Done).is_none());
    session.advance(failed());
    assert!(matches!(session.action(), Action::WaitEncoder));
}

#[test]
fn a_session_that_has_ended_stays_as_it_is() {
    let mut session = begin(false);
    session.advance(failed());
    let before = give_up(&session);
    session.advance(exited(true, ""));
    assert_eq!(give_up(&session), before);
    assert!(session.announcement().is_none());
    assert!(session.warning(&failed()).is_none());

    let mut session = begin(true);
    up_to(&mut session, "Finish");
    session.advance(failed());
    assert!(matches!(session.action(), Action::Finish));
}

#[test]
fn a_failed_mux_leaves_the_files() {
    let mut session = begin(false);
    up_to(&mut session, "Mux");
    session.advance(exited(false, "exit code: 1"));
    for _ in 0..3 {
        session.advance(Outcome::Done);
        assert!(matches!(session.action(), Action::GiveUp { .. }));
    }
}

#[test]
fn a_judge_goes_on_after_success_and_after_what_may_fail() {
    assert!(judge(1, Step::CheckFfmpeg, exited(true, "")).is_none());
    assert!(judge(1, Step::ReadWidth, Outcome::Measured(1)).is_none());
    for step in [
        Step::ShowMonitor,
        Step::CloseStdin,
        Step::StopAudio,
        Step::Settle,
        Step::RemoveVideo,
        Step::RemoveAudio,
    ] {
        assert!(judge(1, step, failed()).is_none());
    }
    assert!(matches!(judge(7, Step::FindMonitor, failed()), Some(Failure::MonitorNotFound(7))));
}

#[test]
fn temporary_files_have_their_names() {
    assert_eq!(VIDEO_FILE_NAME, "screenrec_video_only.mp4");
    assert_eq!(AUDIO_FILE_NAME, "screenrec_audio.wav");
}
