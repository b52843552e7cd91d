//! How the recording of the system sound is started, and what is recorded.
//!
//! An [`AudioCapturer`] names the action to perform next. The caller performs it
//! and hands back what came of it, until the sound stream runs or the capturer
//! has given up.

use crate::text::joined;
use vstd::prelude::*;

verus! {

/// The size of the samples in the sound file, in bits.
pub const BITS_PER_SAMPLE: u16 = 32;

/// The integer sample that becomes the floating-point sample one.
pub const I16_FULL_SCALE: i16 = 32767;

/// The format of the samples that a sound device delivers.
#[derive(Debug)]
pub enum SampleFormat {
    /// 32-bit floating-point numbers.
    F32,
    /// 16-bit signed integers.
    I16,
    /// Anything else, by its name.
    Other(String),
}

/// The configuration of a sound device.
#[derive(Debug)]
pub struct DeviceConfig {
    pub channels: u16,
    pub sample_rate: u32,
    pub sample_format: SampleFormat,
}

/// What the sound file holds.
#[derive(Debug, Clone, Copy, PartialEq, Eq, Structural)]
pub struct WavSpec {
    pub channels: u16,
    pub sample_rate: u32,
    pub bits_per_sample: u16,
    /// Whether the samples are floating-point numbers.
    pub float_samples: bool,
}

/// How delivered samples become samples of the sound file.
#[derive(Debug, Clone, Copy, PartialEq, Eq, Structural)]
pub enum Conversion {
    /// They are written as they are.
    AsTheyAre,
    /// They are divided by [`I16_FULL_SCALE`].
    FromI16,
}

/// Why the recording of the sound did not start.
#[derive(Debug)]
pub enum AudioFailure {
    /// There is no default output device.
    NoDevice,
    /// The device did not tell its configuration.
    NoConfig,
    /// The sound file could not be created.
    WavNotCreated,
    /// The samples have a format that cannot be recorded.
    UnsupportedFormat(String),
    /// The sound stream could not be built.
    StreamNotBuilt,
    /// The sound stream could not be started.
    StreamNotPlayed,
}

/// What came of an action.
#[derive(Debug)]
pub enum AudioOutcome {
    /// It was performed.
    Done,
    /// It was performed and gave this configuration.
    Config(DeviceConfig),
    /// It could not be performed.
    Failed,
}

/// An action to perform.
#[derive(Debug)]
pub enum AudioAction {
    /// Find the default output device.
    FindDevice,
    /// Read the default configuration of the device.
    ReadConfig,
    /// Create the sound file.
    CreateWav { path: String, spec: WavSpec },
    /// Build a stream that hands every block of samples, converted, to the file.
    BuildStream(Conversion),
    /// Start the stream.
    Play,
    /// Nothing is left to do: the sound is being recorded.
    Running,
    /// Nothing is left to do but to report this failure.
    GiveUp { message: String, wraps_cause: bool },
}

/// The model of a [`SampleFormat`].
pub enum SampleFormatView {
    F32,
    I16,
    Other(Seq<char>),
}

/// The model of a [`DeviceConfig`].
pub struct DeviceConfigView {
    pub channels: u16,
    pub sample_rate: u32,
    pub sample_format: SampleFormatView,
}

/// The model of an [`AudioFailure`].
pub enum AudioFailureView {
    NoDevice,
    NoConfig,
    WavNotCreated,
    UnsupportedFormat(Seq<char>),
    StreamNotBuilt,
    StreamNotPlayed,
}

/// The model of an [`AudioOutcome`].
pub enum AudioOutcomeView {
    Done,
    Config(DeviceConfigView),
    Failed,
}

/// The model of an [`AudioAction`].
pub enum AudioActionView {
    FindDevice,
    ReadConfig,
    CreateWav { path: Seq<char>, spec: WavSpec },
    BuildStream(Conversion),
    Play,
    Running,
    GiveUp { message: Seq<char>, wraps_cause: bool },
}

impl View for SampleFormat {
    type V = SampleFormatView;

    open spec fn view(&self) -> SampleFormatView {
        match self {
            SampleFormat::F32 => SampleFormatView::F32,
            SampleFormat::I16 => SampleFormatView::I16,
            SampleFormat::Other(name) => SampleFormatView::Other(name@),
        }
    }
}

impl View for DeviceConfig {
    type V = DeviceConfigView;

    open spec fn view(&self) -> DeviceConfigView {
        DeviceConfigView {
            channels: self.channels,
            sample_rate: self.sample_rate,
            sample_format: self.sample_format@,
        }
    }
}

impl View for AudioFailure {
    type V = AudioFailureView;

    open spec fn view(&self) -> AudioFailureView {
        match self {
            AudioFailure::NoDevice => AudioFailureView::NoDevice,
            AudioFailure::NoConfig => AudioFailureView::NoConfig,
            AudioFailure::WavNotCreated => AudioFailureView::WavNotCreated,
            AudioFailure::UnsupportedFormat(name) => AudioFailureView::UnsupportedFormat(name@),
            AudioFailure::StreamNotBuilt => AudioFailureView::StreamNotBuilt,
            AudioFailure::StreamNotPlayed => AudioFailureView::StreamNotPlayed,
        }
    }
}

impl View for AudioOutcome {
    type V = AudioOutcomeView;

    open spec fn view(&self) -> AudioOutcomeView {
        match self {
            AudioOutcome::Done => AudioOutcomeView::Done,
            AudioOutcome::Config(config) => AudioOutcomeView::Config(config@),
            AudioOutcome::Failed => AudioOutcomeView::Failed,
        }
    }
}

impl View for AudioAction {
    type V = AudioActionView;

    open spec fn view(&self) -> AudioActionView {
        match self {
            AudioAction::FindDevice => AudioActionView::FindDevice,
            AudioAction::ReadConfig => AudioActionView::ReadConfig,
            AudioAction::CreateWav { path, spec } => AudioActionView::CreateWav {
                path: path@,
                spec: *spec,
            },
            AudioAction::BuildStream(conversion) => AudioActionView::BuildStream(*conversion),
            AudioAction::Play => AudioActionView::Play,
            AudioAction::Running => AudioActionView::Running,
            AudioAction::GiveUp { message, wraps_cause } => AudioActionView::GiveUp {
                message: message@,
                wraps_cause: *wraps_cause,
            },
        }
    }
}

impl AudioFailureView {
    /// The text that the user is shown.
    pub open spec fn message(self) -> Seq<char> {
        match self {
            AudioFailureView::NoDevice => "Không tìm thấy thiết bị âm thanh output mặc định"@,
            AudioFailureView::NoConfig => "Không lấy được cấu hình âm thanh mặc định"@,
            AudioFailureView::WavNotCreated => "Không tạo được file WAV tạm cho audio"@,
            AudioFailureView::UnsupportedFormat(name) => "Định dạng sample audio chưa hỗ trợ: "@
                + name,
            AudioFailureView::StreamNotBuilt => "Không tạo được audio input stream (loopback)"@,
            AudioFailureView::StreamNotPlayed => "Không thể bắt đầu audio stream"@,
        }
    }

    /// Whether the error of the failed call is reported below the message.
    pub open spec fn wraps_cause(self) -> bool {
        !(self is NoDevice) && !(self is UnsupportedFormat)
    }
}

impl AudioFailure {
    /// The text that the user is shown.
    pub fn message(&self) -> (res: String)
        ensures
            res@ == self@.message(),
    {
        match self {
            AudioFailure::NoDevice => "Không tìm thấy thiết bị âm thanh output mặc định".to_owned(),
            AudioFailure::NoConfig => "Không lấy được cấu hình âm thanh mặc định".to_owned(),
            AudioFailure::WavNotCreated => "Không tạo được file WAV tạm cho audio".to_owned(),
            AudioFailure::UnsupportedFormat(name) => joined(
                "Định dạng sample audio chưa hỗ trợ: ",
                name.as_str(),
            ),
            AudioFailure::StreamNotBuilt => "Không tạo được audio input stream (loopback)".to_owned(),
            AudioFailure::StreamNotPlayed => "Không thể bắt đầu audio stream".to_owned(),
        }
    }

    /// Whether the error of the failed call is reported below the message.
    pub fn wraps_cause(&self) -> (res: bool)
        ensures
            res == self@.wraps_cause(),
    {
        match self {
            AudioFailure::NoDevice => false,
            AudioFailure::UnsupportedFormat(_) => false,
            _ => true,
        }
    }
}

/// The sound file of a device: its channels and its rate, in 32-bit
/// floating-point samples whatever the device delivers.
pub open spec fn wav_spec_of(channels: u16, sample_rate: u32) -> WavSpec {
    WavSpec { channels, sample_rate, bits_per_sample: 32, float_samples: true }
}

/// Describes the sound file of a device.
pub fn wav_spec(channels: u16, sample_rate: u32) -> (spec: WavSpec)
    ensures
        spec == wav_spec_of(channels, sample_rate),
{
    WavSpec { channels, sample_rate, bits_per_sample: BITS_PER_SAMPLE, float_samples: true }
}

/// How samples of a format are converted; nothing, if they cannot be recorded.
pub open spec fn conversion_of(format: SampleFormatView) -> Option<Conversion> {
    match format {
        SampleFormatView::F32 => Some(Conversion::AsTheyAre),
        SampleFormatView::I16 => Some(Conversion::FromI16),
        SampleFormatView::Other(_) => None,
    }
}

/// Chooses how samples of a format are converted, or refuses the format by its
/// name.
pub fn conversion(format: SampleFormat) -> (res: Result<Conversion, AudioFailure>)
    ensures
        match conversion_of(format@) {
            Some(conversion) => res == Ok::<Conversion, AudioFailure>(conversion),
            None => res matches Err(failure) && failure@ == AudioFailureView::UnsupportedFormat(
                format@->Other_0,
            ),
        },
{
    match format {
        SampleFormat::F32 => Ok(Conversion::AsTheyAre),
        SampleFormat::I16 => Ok(Conversion::FromI16),
        SampleFormat::Other(name) => Err(AudioFailure::UnsupportedFormat(name)),
    }
}

/// The model of how far an [`AudioCapturer`] has come.
pub enum StageView {
    FindDevice,
    ReadConfig,
    CreateWav(DeviceConfigView),
    BuildStream(Conversion),
    Play,
    Running,
    GivenUp(AudioFailureView),
}

/// The model of an [`AudioCapturer`].
pub struct AudioView {
    /// Where the sound is kept.
    pub wav_path: Seq<char>,
    pub stage: StageView,
}

impl AudioView {
    /// How far the capturer is after an outcome. The sound file is created
    /// before a format is refused.
    pub open spec fn next_stage(self, outcome: AudioOutcomeView) -> StageView {
        let performed = !(outcome is Failed);
        match self.stage {
            StageView::FindDevice => if performed {
                StageView::ReadConfig
            } else {
                StageView::GivenUp(AudioFailureView::NoDevice)
            },
            StageView::ReadConfig => match outcome {
                AudioOutcomeView::Config(config) => StageView::CreateWav(config),
                _ => StageView::GivenUp(AudioFailureView::NoConfig),
            },
            StageView::CreateWav(config) => if !performed {
                StageView::GivenUp(AudioFailureView::WavNotCreated)
            } else {
                match config.sample_format {
                    SampleFormatView::F32 => StageView::BuildStream(Conversion::AsTheyAre),
                    SampleFormatView::I16 => StageView::BuildStream(Conversion::FromI16),
                    SampleFormatView::Other(name) => StageView::GivenUp(
                        AudioFailureView::UnsupportedFormat(name),
                    ),
                }
            },
            StageView::BuildStream(_) => if performed {
                StageView::Play
            } else {
                StageView::GivenUp(AudioFailureView::StreamNotBuilt)
            },
            StageView::Play => if performed {
                StageView::Running
            } else {
                StageView::GivenUp(AudioFailureView::StreamNotPlayed)
            },
            StageView::Running | StageView::GivenUp(_) => self.stage,
        }
    }

    /// The capturer after an outcome.
    pub open spec fn advanced(self, outcome: AudioOutcomeView) -> AudioView {
        AudioView { stage: self.next_stage(outcome), ..self }
    }

    /// The capturer after a row of outcomes.
    pub open spec fn run(self, outcomes: Seq<AudioOutcomeView>) -> AudioView
        decreases outcomes.len(),
    {
        if outcomes.len() == 0 {
            self
        } else {
            self.run(outcomes.drop_last()).advanced(outcomes.last())
        }
    }

    /// The action to perform next.
    pub open spec fn action(self) -> AudioActionView {
        match self.stage {
            StageView::FindDevice => AudioActionView::FindDevice,
            StageView::ReadConfig => AudioActionView::ReadConfig,
            StageView::CreateWav(config) => AudioActionView::CreateWav {
                path: self.wav_path,
                spec: wav_spec_of(config.channels, config.sample_rate),
            },
            StageView::BuildStream(conversion) => AudioActionView::BuildStream(conversion),
            StageView::Play => AudioActionView::Play,
            StageView::Running => AudioActionView::Running,
            StageView::GivenUp(failure) => AudioActionView::GiveUp {
                message: failure.message(),
                wraps_cause: failure.wraps_cause(),
            },
        }
    }
}

#[derive(Debug)]
enum Stage {
    FindDevice,
    ReadConfig,
    CreateWav(DeviceConfig),
    BuildStream(Conversion),
    Play,
    Running,
    GivenUp(AudioFailure),
}

impl View for Stage {
    type V = StageView;

    closed spec fn view(&self) -> StageView {
        match self {
            Stage::FindDevice => StageView::FindDevice,
            Stage::ReadConfig => StageView::ReadConfig,
            Stage::CreateWav(config) => StageView::CreateWav(config@),
            Stage::BuildStream(conversion) => StageView::BuildStream(*conversion),
            Stage::Play => StageView::Play,
            Stage::Running => StageView::Running,
            Stage::GivenUp(failure) => StageView::GivenUp(failure@),
        }
    }
}

/// The start of a recording of the system sound.
#[derive(Debug)]
pub struct AudioCapturer {
    wav_path: String,
    stage: Stage,
}

impl View for AudioCapturer {
    type V = AudioView;

    closed spec fn view(&self) -> AudioView {
        AudioView { wav_path: self.wav_path@, stage: self.stage@ }
    }
}

impl AudioCapturer {
    /// Begins to record the system sound into a file.
    pub fn start(wav_path: &str) -> (capturer: AudioCapturer)
        ensures
            capturer@ == (AudioView { wav_path: wav_path@, stage: StageView::FindDevice }),
    {
        AudioCapturer { wav_path: wav_path.to_owned(), stage: Stage::FindDevice }
    }

    /// The action to perform next.
    pub fn action(&self) -> (action: AudioAction)
        ensures
            action@ == self@.action(),
    {
        match &self.stage {
            Stage::FindDevice => AudioAction::FindDevice,
            Stage::ReadConfig => AudioAction::ReadConfig,
            Stage::CreateWav(config) => AudioAction::CreateWav {
                path: self.wav_path.clone(),
                spec: wav_spec(config.channels, config.sample_rate),
            },
            Stage::BuildStream(conversion) => AudioAction::BuildStream(*conversion),
            Stage::Play => AudioAction::Play,
            Stage::Running => AudioAction::Running,
            Stage::GivenUp(failure) => AudioAction::GiveUp {
                message: failure.message(),
                wraps_cause: failure.wraps_cause(),
            },
        }
    }

    /// The capturer after what came of the current action.
    pub fn advance(self, outcome: AudioOutcome) -> (next: AudioCapturer)
        ensures
            next@ == self@.advanced(outcome@),
    {
        let performed = match &outcome {
            AudioOutcome::Failed => false,
            _ => true,
        };
        let stage = match self.stage {
            Stage::FindDevice => if performed {
                Stage::ReadConfig
            } else {
                Stage::GivenUp(AudioFailure::NoDevice)
            },
            Stage::ReadConfig => match outcome {
                AudioOutcome::Config(config) => Stage::CreateWav(config),
                _ => Stage::GivenUp(AudioFailure::NoConfig),
            },
            Stage::CreateWav(config) => if !performed {
                Stage::GivenUp(AudioFailure::WavNotCreated)
            } else {
                match conversion(config.sample_format) {
                    Ok(conversion) => Stage::BuildStream(conversion),
                    Err(failure) => Stage::GivenUp(failure),
                }
            },
            Stage::BuildStream(_) => if performed {
                Stage::Play
            } else {
                Stage::GivenUp(AudioFailure::StreamNotBuilt)
            },
            Stage::Play => if performed {
                Stage::Running
            } else {
                Stage::GivenUp(AudioFailure::StreamNotPlayed)
            },
            Stage::Running => Stage::Running,
            Stage::GivenUp(failure) => Stage::GivenUp(failure),
        };
        AudioCapturer { wav_path: self.wav_path, stage }
    }
}

/// How far a capturer is that was given these outcomes from its start on.
spec fn stage_after(outcomes: Seq<AudioOutcomeView>) -> StageView {
    if outcomes.len() == 0 {
        StageView::FindDevice
    } else if outcomes[0] is Failed {
        StageView::GivenUp(AudioFailureView::NoDevice)
    } else if outcomes.len() == 1 {
        StageView::ReadConfig
    } else if !(outcomes[1] is Config) {
        StageView::GivenUp(AudioFailureView::NoConfig)
    } else {
        let config = outcomes[1]->Config_0;
        if outcomes.len() == 2 {
            StageView::CreateWav(config)
        } else if outcomes[2] is Failed {
            StageView::GivenUp(AudioFailureView::WavNotCreated)
        } else if config.sample_format is Other {
            StageView::GivenUp(
                AudioFailureView::UnsupportedFormat(config.sample_format->Other_0),
            )
        } else if outcomes.len() == 3 {
            StageView::BuildStream(conversion_of(config.sample_format)->0)
        } else if outcomes[3] is Failed {
            StageView::GivenUp(AudioFailureView::StreamNotBuilt)
        } else if outcomes.len() == 4 {
            StageView::Play
        } else if outcomes[4] is Failed {
            StageView::GivenUp(AudioFailureView::StreamNotPlayed)
        } else {
            StageView::Running
        }
    }
}

proof fn lemma_stage_after(wav_path: Seq<char>, outcomes: Seq<AudioOutcomeView>)
    ensures
        (AudioView { wav_path, stage: StageView::FindDevice }).run(outcomes) == (AudioView {
            wav_path,
            stage: stage_after(outcomes),
        }),
    decreases outcomes.len(),
{
    if outcomes.len() > 0 {
        lemma_stage_after(wav_path, outcomes.drop_last());
    }
}

/// The sound is recorded exactly when the device was found, told a configuration
/// whose format can be recorded, and the file, the stream and its start
/// succeeded.
pub proof fn law_sound_runs_iff_every_action_succeeds(
    wav_path: Seq<char>,
    outcomes: Seq<AudioOutcomeView>,
)
    ensures
        (AudioView { wav_path, stage: StageView::FindDevice }).run(outcomes).action() is Running
            <==> {
            &&& outcomes.len() >= 5
            &&& !(outcomes[0] is Failed)
            &&& outcomes[1] matches AudioOutcomeView::Config(config)
            &&& conversion_of(config.sample_format) is Some
            &&& !(outcomes[2] is Failed)
            &&& !(outcomes[3] is Failed)
            &&& !(outcomes[4] is Failed)
        },
{
    lemma_stage_after(wav_path, outcomes);
}

/// The sound file is made for the channels and the rate that the device told, in
/// 32-bit floating-point samples, at the path that was asked for; and the stream
/// converts from the format that the device told.
pub proof fn law_file_and_stream_fit_the_device(
    wav_path: Seq<char>,
    outcomes: Seq<AudioOutcomeView>,
)
    ensures
        ({
            let action = (AudioView { wav_path, stage: StageView::FindDevice }).run(
                outcomes,
            ).action();
            &&& action matches AudioActionView::CreateWav { path, spec } ==> {
                &&& outcomes[1] matches AudioOutcomeView::Config(config)
                &&& path == wav_path
                &&& spec.channels == config.channels
                &&& spec.sample_rate == config.sample_rate
                &&& spec.bits_per_sample == 32
                &&& spec.float_samples
            }
            &&& action matches AudioActionView::BuildStream(conversion) ==> {
                &&& outcomes[1] matches AudioOutcomeView::Config(config)
                &&& conversion_of(config.sample_format) == Some(conversion)
            }
        }),
{
    lemma_stage_after(wav_path, outcomes);
}

/// A format that cannot be recorded is refused by its name, and the stream is
/// never built.
pub proof fn law_unsupported_format_is_refused(
    wav_path: Seq<char>,
    outcomes: Seq<AudioOutcomeView>,
    name: Seq<char>,
)
    requires
        outcomes.len() >= 3,
        !(outcomes[0] is Failed),
        outcomes[1] is Config,
        outcomes[1]->Config_0.sample_format == SampleFormatView::Other(name),
        !(outcomes[2] is Failed),
    ensures
        (AudioView { wav_path, stage: StageView::FindDevice }).run(outcomes).stage
            == StageView::GivenUp(AudioFailureView::UnsupportedFormat(name)),
{
    lemma_stage_after(wav_path, outcomes);
}

/// Floating-point samples are recorded as they are, 16-bit integers are scaled,
/// and nothing else is recorded; the file always holds 32-bit floating-point
/// samples, in the channels and at the rate of the device.
pub proof fn law_what_is_recorded(name: Seq<char>, channels: u16, sample_rate: u32)
    ensures
        conversion_of(SampleFormatView::F32) == Some(Conversion::AsTheyAre),
        conversion_of(SampleFormatView::I16) == Some(Conversion::FromI16),
        conversion_of(SampleFormatView::Other(name)) is None,
        wav_spec_of(channels, sample_rate).channels == channels,
        wav_spec_of(channels, sample_rate).sample_rate == sample_rate,
        wav_spec_of(channels, sample_rate).bits_per_sample == 32,
        wav_spec_of(channels, sample_rate).float_samples,
{
}

/// As long as everything goes well, the sound is started in five actions: the
/// device, its configuration, the file, the stream, and the start of the stream.
pub proof fn law_sound_is_started_in_order(
    wav_path: Seq<char>,
    outcomes: Seq<AudioOutcomeView>,
    config: DeviceConfigView,
)
    requires
        forall|i: int| 0 <= i < outcomes.len() ==> !(#[trigger] outcomes[i] is Failed),
        outcomes.len() > 1 ==> outcomes[1] == AudioOutcomeView::Config(config),
        outcomes.len() > 2 ==> !(config.sample_format is Other),
    ensures
        ({
            let action = (AudioView { wav_path, stage: StageView::FindDevice }).run(
                outcomes,
            ).action();
            &&& outcomes.len() == 0 ==> action is FindDevice
            &&& outcomes.len() == 1 ==> action is ReadConfig
            &&& outcomes.len() == 2 ==> action == (AudioActionView::CreateWav {
                path: wav_path,
                spec: WavSpec {
                    channels: config.channels,
                    sample_rate: config.sample_rate,
                    bits_per_sample: 32,
                    float_samples: true,
                },
            })
            &&& outcomes.len() == 3 ==> action == AudioActionView::BuildStream(
                if config.sample_format is F32 {
                    Conversion::AsTheyAre
                } else {
                    Conversion::FromI16
                },
            )
            &&& outcomes.len() == 4 ==> action is Play
            &&& outcomes.len() >= 5 ==> action is Running
        }),
{
    lemma_stage_after(wav_path, outcomes);
}

/// The first action that fails is reported by its own message, whatever comes
/// after it: with the error below it, but for a missing device, which gives none.
pub proof fn law_failed_sound_is_reported(
    wav_path: Seq<char>,
    outcomes: Seq<AudioOutcomeView>,
    first: int,
)
    requires
        0 <= first < 5,
        first < outcomes.len(),
        forall|i: int| 0 <= i < first ==> !(#[trigger] outcomes[i] is Failed),
        first > 1 ==> outcomes[1] is Config,
        first > 2 ==> !(outcomes[1]->Config_0.sample_format is Other),
        outcomes[first] is Failed,
    ensures
        (AudioView { wav_path, stage: StageView::FindDevice }).run(outcomes).action() == (
        AudioActionView::GiveUp {
            message: if first == 0 {
                "Không tìm thấy thiết bị âm thanh output mặc định"@
            } else if first == 1 {
                "Không lấy được cấu hình âm thanh mặc định"@
            } else if first == 2 {
                "Không tạo được file WAV tạm cho audio"@
            } else if first == 3 {
                "Không tạo được audio input stream (loopback)"@
            } else {
                "Không thể bắt đầu audio stream"@
            },
            wraps_cause: first != 0,
        }),
{
    lemma_stage_after(wav_path, outcomes);
}

/// A format that cannot be recorded is reported by its name, with no error below
/// it.
pub proof fn law_refused_format_is_reported(
    wav_path: Seq<char>,
    outcomes: Seq<AudioOutcomeView>,
    name: Seq<char>,
)
    requires
        outcomes.len() >= 3,
        !(outcomes[0] is Failed),
        outcomes[1] is Config,
        outcomes[1]->Config_0.sample_format == SampleFormatView::Other(name),
        !(outcomes[2] is Failed),
    ensures
        (AudioView { wav_path, stage: StageView::FindDevice }).run(outcomes).action() == (
        AudioActionView::GiveUp {
            message: "Định dạng sample audio chưa hỗ trợ: "@ + name,
            wraps_cause: false,
        }),
{
    law_unsupported_format_is_refused(wav_path, outcomes, name);
}

/// A device that was found but told no configuration is reported as such, and
/// outcomes are taken one after the other.
pub proof fn law_sound_needs_a_configuration(
    wav_path: Seq<char>,
    outcomes: Seq<AudioOutcomeView>,
    outcome: AudioOutcomeView,
)
    ensures
        ({
            let start = AudioView { wav_path, stage: StageView::FindDevice };
            &&& start.run(Seq::<AudioOutcomeView>::empty()) == start
            &&& start.run(outcomes.push(outcome)) == start.run(outcomes).advanced(outcome)
            &&& outcomes.len() > 1 && !(outcomes[0] is Failed) && !(outcomes[1] is Config)
                ==> start.run(outcomes).action() == (AudioActionView::GiveUp {
                message: "Không lấy được cấu hình âm thanh mặc định"@,
                wraps_cause: true,
            })
        }),
{
    lemma_stage_after(wav_path, outcomes);
    assert(outcomes.push(outcome).drop_last() =~= outcomes);
}

/// What the user is told of each failure of the sound, and that every failure
/// but a missing device and a refused format comes with its error.
pub proof fn law_each_audio_failure_has_its_message(failure: AudioFailureView, name: Seq<char>)
    ensures
        AudioFailureView::NoDevice.message() == "Không tìm thấy thiết bị âm thanh output mặc định"@,
        AudioFailureView::NoConfig.message() == "Không lấy được cấu hình âm thanh mặc định"@,
        AudioFailureView::WavNotCreated.message() == "Không tạo được file WAV tạm cho audio"@,
        AudioFailureView::UnsupportedFormat(name).message()
            == "Định dạng sample audio chưa hỗ trợ: "@ + name,
        AudioFailureView::StreamNotBuilt.message()
            == "Không tạo được audio input stream (loopback)"@,
        AudioFailureView::StreamNotPlayed.message() == "Không thể bắt đầu audio stream"@,
        failure.wraps_cause() <==> failure is NoConfig || failure is WavNotCreated
            || failure is StreamNotBuilt || failure is StreamNotPlayed,
{
}

} // verus!
