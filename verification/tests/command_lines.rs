use screenrec::ffmpeg::{
    encoder, mux_args, muxer, size_arg, version_args, version_query, video_only_args, StreamMode,
    PROGRAM,
};
use screenrec::text::{decimal_text, joined};

#[test]
fn numbers_are_written_in_decimal() {
    assert_eq!(decimal_text(0), "0");
    assert_eq!(decimal_text(9), "9");
    assert_eq!(decimal_text(10), "10");
    assert_eq!(decimal_text(1080), "1080");
    assert_eq!(decimal_text(u64::MAX), "18446744073709551615");
    for n in [1u64, 23, 456, 7890, 12345, 678901, 2345678] {
        assert_eq!(decimal_text(n), n.to_string());
    }
}

#[test]
fn texts_are_joined_in_order() {
    assert_eq!(joined("màn ", "hình"), "màn hình");
    assert_eq!(joined("", ""), "");
}

#[test]
fn sizes_are_written_with_an_x() {
    assert_eq!(size_arg(1920, 1080), "1920x1080");
    assert_eq!(size_arg(0, u32::MAX), "0x4294967295");
    assert_ne!(size_arg(11, 1), size_arg(1, 11));
}

#[test]
fn the_availability_test_asks_for_the_version() {
    assert_eq!(PROGRAM, "ffmpeg");
    assert_eq!(version_args(), vec!["-version"]);
}

#[test]
fn the_encoder_reads_raw_frames_and_writes_h264() {
    let args = video_only_args(1920, 1080, 30, 20, "/tmp/screenrec_video_only.mp4");
    let expected = vec![
        "-y",
        "-f",
        "rawvideo",
        "-pixel_format",
        "bgra",
        "-video_size",
        "1920x1080",
        "-framerate",
        "30",
        "-i",
        "-",
        "-c:v",
        "libx264",
        "-pix_fmt",
        "yuv420p",
        "-preset",
        "veryfast",
        "-crf",
        "20",
        "/tmp/screenrec_video_only.mp4",
    ];
    assert_eq!(args, expected);
}

#[test]
fn muxing_copies_the_video_and_encodes_the_sound() {
    let args = mux_args("v.mp4", "a.wav", "out.mp4");
    let expected = vec![
        "-y", "-i", "v.mp4", "-i", "a.wav", "-c:v", "copy", "-c:a", "aac", "-b:a", "192k",
        "-shortest", "out.mp4",
    ];
    assert_eq!(args, expected);
}

#[test]
fn the_version_query_is_run_unseen() {
    let run = version_query();
    assert_eq!(run.program, "ffmpeg");
    assert_eq!(run.args, version_args());
    assert_eq!(run.stdin, StreamMode::Inherited);
    assert_eq!(run.stdout, StreamMode::Discarded);
    assert_eq!(run.stderr, StreamMode::Discarded);
}

#[test]
fn the_encoder_is_fed_through_a_pipe() {
    let run = encoder(640, 480, 25, 51, "v.mp4");
    assert_eq!(run.program, "ffmpeg");
    assert_eq!(run.args, video_only_args(640, 480, 25, 51, "v.mp4"));
    assert_eq!(run.stdin, StreamMode::Piped);
    assert_eq!(run.stdout, StreamMode::Discarded);
    assert_eq!(run.stderr, StreamMode::Inherited);
}

#[test]
fn the_muxer_shows_its_errors_only() {
    let run = muxer("v.mp4", "a.wav", "out.mp4");
    assert_eq!(run.program, "ffmpeg");
    assert_eq!(run.args, mux_args("v.mp4", "a.wav", "out.mp4"));
    assert_eq!(run.stdin, StreamMode::Inherited);
    assert_eq!(run.stdout, StreamMode::Discarded);
    assert_eq!(run.stderr, StreamMode::Inherited);
}
