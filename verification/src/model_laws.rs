//! That the models of values hold what the values hold, no less and no other.

use crate::args::Args;
use crate::audio::{
    AudioAction, AudioActionView, AudioFailure, AudioFailureView, AudioOutcome, AudioOutcomeView,
    DeviceConfig, SampleFormat, SampleFormatView,
};
use crate::ffmpeg::Invocation;
use crate::lines::Line;
use crate::session::{Action, ActionView, Outcome, OutcomeView};
use vstd::prelude::*;

verus! {

/// Settings are modelled field by field.
pub proof fn law_args_model_is_faithful(args: Args)
    ensures
        args@.output == args.output@,
        args@.monitor == args.monitor,
        args@.fps == args.fps,
        args@.crf == args.crf,
        args@.duration == args.duration,
        args@.no_audio == args.no_audio,
{
}

/// A process to run is modelled field by field, its arguments one by one.
pub proof fn law_invocation_model_is_faithful(run: Invocation, i: int)
    ensures
        run@.program == run.program@,
        run@.args.len() == run.args@.len(),
        0 <= i < run.args@.len() ==> run@.args[i] == run.args@[i]@,
        run@.stdin == run.stdin,
        run@.stdout == run.stdout,
        run@.stderr == run.stderr,
{
}

/// A line is modelled by its channel and its text.
pub proof fn law_line_model_is_faithful(line: Line)
    ensures
        line@.channel == line.channel,
        line@.text == line.text@,
        crate::lines::line_option(Some(line)) == Some(line@),
        crate::lines::line_option(None) is None,
{
}

/// An outcome is modelled as what it is, with its number, its status or its
/// cause.
pub proof fn law_outcome_model_is_faithful(outcome: Outcome)
    ensures
        outcome is Done <==> outcome@ is Done,
        outcome matches Outcome::Measured(number) ==> outcome@ == OutcomeView::Measured(number),
        outcome matches Outcome::Exited { success, status } ==> outcome@ == (OutcomeView::Exited {
            success,
            status: status@,
        }),
        outcome matches Outcome::Failed(cause) ==> outcome@ == OutcomeView::Failed(cause@),
{
}

/// An action is modelled as what it is, with all that it carries.
pub proof fn law_action_model_is_faithful(action: Action)
    ensures
        action matches Action::QueryVersion(run) ==> action@ == ActionView::QueryVersion(run@),
        action matches Action::FindMonitor(index) ==> action@ == ActionView::FindMonitor(
            index as nat,
        ),
        action is ReadWidth <==> action@ is ReadWidth,
        action is ReadHeight <==> action@ is ReadHeight,
        action is ShowMonitor <==> action@ is ShowMonitor,
        action matches Action::StartAudio(path) ==> action@ == ActionView::StartAudio(path@),
        action matches Action::SpawnEncoder(run) ==> action@ == ActionView::SpawnEncoder(run@),
        action is TakeStdin <==> action@ is TakeStdin,
        action is InstallInterrupt <==> action@ is InstallInterrupt,
        action matches Action::Capture(seconds) ==> action@ == ActionView::Capture(seconds),
        action is CloseStdin <==> action@ is CloseStdin,
        action is WaitEncoder <==> action@ is WaitEncoder,
        action is StopAudio <==> action@ is StopAudio,
        action matches Action::Settle(millis) ==> action@ == ActionView::Settle(millis),
        action matches Action::RenameVideo { from, to } ==> action@ == (ActionView::RenameVideo {
            from: from@,
            to: to@,
        }),
        action matches Action::Mux(run) ==> action@ == ActionView::Mux(run@),
        action matches Action::RemoveFile(path) ==> action@ == ActionView::RemoveFile(path@),
        action is Finish <==> action@ is Finish,
        action matches Action::GiveUp { message, wraps_cause, kills_encoder } ==> action@ == (
        ActionView::GiveUp { message: message@, wraps_cause, kills_encoder }),
{
}

/// A device's configuration is modelled field by field.
pub proof fn law_config_model_is_faithful(config: DeviceConfig, format: SampleFormat)
    ensures
        config@.channels == config.channels,
        config@.sample_rate == config.sample_rate,
        config@.sample_format == config.sample_format@,
        format is F32 <==> format@ is F32,
        format is I16 <==> format@ is I16,
        format matches SampleFormat::Other(name) ==> format@ == SampleFormatView::Other(name@),
{
}

/// What came of an action of the sound is modelled as what it is.
pub proof fn law_audio_outcome_model_is_faithful(outcome: AudioOutcome)
    ensures
        outcome is Done <==> outcome@ is Done,
        outcome is Failed <==> outcome@ is Failed,
        outcome matches AudioOutcome::Config(config) ==> outcome@ == AudioOutcomeView::Config(
            config@,
        ),
{
}

/// An action of the sound, and a failure of it, are modelled as what they are,
/// with all that they carry.
pub proof fn law_audio_action_model_is_faithful(action: AudioAction, failure: AudioFailure)
    ensures
        action is FindDevice <==> action@ is FindDevice,
        action is ReadConfig <==> action@ is ReadConfig,
        action matches AudioAction::CreateWav { path, spec } ==> action@ == (
        AudioActionView::CreateWav { path: path@, spec }),
        action matches AudioAction::BuildStream(conversion) ==> action@
            == AudioActionView::BuildStream(conversion),
        action is Play <==> action@ is Play,
        action is Running <==> action@ is Running,
        action matches AudioAction::GiveUp { message, wraps_cause } ==> action@ == (
        AudioActionView::GiveUp { message: message@, wraps_cause }),
        failure is NoDevice <==> failure@ is NoDevice,
        failure is NoConfig <==> failure@ is NoConfig,
        failure is WavNotCreated <==> failure@ is WavNotCreated,
        failure matches AudioFailure::UnsupportedFormat(name) ==> failure@
            == AudioFailureView::UnsupportedFormat(name@),
        failure is StreamNotBuilt <==> failure@ is StreamNotBuilt,
        failure is StreamNotPlayed <==> failure@ is StreamNotPlayed,
{
}

} // verus!
