use screenrec::audio::{
    conversion, wav_spec, AudioAction, AudioCapturer, AudioFailure, AudioOutcome, Conversion,
    DeviceConfig, SampleFormat, WavSpec, I16_FULL_SCALE,
};
use screenrec::samples::SampleBlock;

fn config(sample_format: SampleFormat) -> AudioOutcome {
    AudioOutcome::Config(DeviceConfig { channels: 2, sample_rate: 48000, sample_format })
}

fn give_up(capturer: &AudioCapturer) -> (String, bool) {
    match capturer.action() {
        AudioAction::GiveUp { message, wraps_cause } => (message, wraps_cause),
        other => panic!("{:?}", other),
    }
}

fn created(sample_format: SampleFormat) -> AudioCapturer {
    AudioCapturer::start("a.wav")
        .advance(AudioOutcome::Done)
        .advance(config(sample_format))
        .advance(AudioOutcome::Done)
}

#[test]
fn the_sound_starts_action_by_action() {
    let capturer = AudioCapturer::start("a.wav");
    assert!(matches!(capturer.action(), AudioAction::FindDevice));
    let capturer = capturer.advance(AudioOutcome::Done);
    assert!(matches!(capturer.action(), AudioAction::ReadConfig));
    let capturer = capturer.advance(config(SampleFormat::F32));
    match capturer.action() {
        AudioAction::CreateWav { path, spec } => {
            assert_eq!(path, "a.wav");
            assert_eq!(
                spec,
                WavSpec {
                    channels: 2,
                    sample_rate: 48000,
                    bits_per_sample: 32,
                    float_samples: true
                }
            );
        }
        other => panic!("{:?}", other),
    }
    let capturer = capturer.advance(AudioOutcome::Done);
    assert!(matches!(capturer.action(), AudioAction::BuildStream(Conversion::AsTheyAre)));
    let capturer = capturer.advance(AudioOutcome::Done);
    assert!(matches!(capturer.action(), AudioAction::Play));
    let capturer = capturer.advance(AudioOutcome::Done);
    assert!(matches!(capturer.action(), AudioAction::Running));
    let capturer = capturer.advance(AudioOutcome::Failed);
    assert!(matches!(capturer.action(), AudioAction::Running));
}

#[test]
fn integer_samples_are_converted() {
    let capturer = created(SampleFormat::I16);
    assert!(matches!(capturer.action(), AudioAction::BuildStream(Conversion::FromI16)));
    assert_eq!(I16_FULL_SCALE, i16::MAX);
    assert_eq!(I16_FULL_SCALE as f32 / I16_FULL_SCALE as f32, 1.0);
}

#[test]
fn other_formats_are_refused_by_name() {
    let capturer = created(SampleFormat::Other("U8".to_string()));
    let expected = ("Định dạng sample audio chưa hỗ trợ: U8".to_string(), false);
    assert_eq!(give_up(&capturer), expected);
    let capturer = capturer.advance(AudioOutcome::Done);
    assert_eq!(give_up(&capturer), expected);
    match conversion(SampleFormat::Other("I32".to_string())) {
        Err(AudioFailure::UnsupportedFormat(name)) => assert_eq!(name, "I32"),
        other => panic!("{:?}", other),
    }
    assert!(matches!(conversion(SampleFormat::F32), Ok(Conversion::AsTheyAre)));
    assert!(matches!(conversion(SampleFormat::I16), Ok(Conversion::FromI16)));
}

#[test]
fn each_failure_has_its_message() {
    let found = || AudioCapturer::start("a.wav").advance(AudioOutcome::Done);
    assert_eq!(
        give_up(&AudioCapturer::start("a.wav").advance(AudioOutcome::Failed)),
        ("Không tìm thấy thiết bị âm thanh output mặc định".to_string(), false)
    );
    assert_eq!(
        give_up(&found().advance(AudioOutcome::Failed)),
        ("Không lấy được cấu hình âm thanh mặc định".to_string(), true)
    );
    assert_eq!(
        give_up(&found().advance(AudioOutcome::Done)),
        ("Không lấy được cấu hình âm thanh mặc định".to_string(), true)
    );
    assert_eq!(
        give_up(&found().advance(config(SampleFormat::F32)).advance(AudioOutcome::Failed)),
        ("Không tạo được file WAV tạm cho audio".to_string(), true)
    );
    assert_eq!(
        give_up(&created(SampleFormat::F32).advance(AudioOutcome::Failed)),
        ("Không tạo được audio input stream (loopback)".to_string(), true)
    );
    assert_eq!(
        give_up(
            &created(SampleFormat::F32)
                .advance(AudioOutcome::Done)
                .advance(AudioOutcome::Failed)
        ),
        ("Không thể bắt đầu audio stream".to_string(), true)
    );
}

#[test]
fn the_file_is_made_for_the_device() {
    let spec = wav_spec(6, 44100);
    assert_eq!((spec.channels, spec.sample_rate), (6, 44100));
    assert_eq!(spec.bits_per_sample, 32);
    assert!(spec.float_samples);
}

#[test]
fn every_sample_of_a_block_is_tried_though_some_fail() {
    let mut block = SampleBlock::new(true, true, 4);
    let mut tried = Vec::new();
    while let Some(index) = block.current() {
        tried.push(index);
        block.tried(index % 2 == 0);
    }
    assert_eq!(tried, vec![0, 1, 2, 3]);
    block.tried(true);
    assert_eq!(block.current(), None);
}

#[test]
fn a_block_is_dropped_without_its_file() {
    assert_eq!(SampleBlock::new(false, true, 4).current(), None);
    assert_eq!(SampleBlock::new(true, false, 4).current(), None);
    assert_eq!(SampleBlock::new(false, false, 4).current(), None);
    assert_eq!(SampleBlock::new(true, true, 0).current(), None);
}
