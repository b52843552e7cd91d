//! What holds of every recording session, whatever comes of its actions.

use crate::args::ArgsView;
use crate::failure::FailureView;
use crate::ffmpeg::StreamMode;
use crate::lines::{Channel, LineView};
use crate::plan::Step;
use crate::session::{ActionView, OutcomeView, SessionView};
use vstd::prelude::*;

verus! {

/// Whether the outcome at `i` lets a session with these settings go on.
pub open spec fn passes(args: ArgsView, outcomes: Seq<OutcomeView>, i: int) -> bool {
    crate::session::verdict(args.monitor, crate::plan::plan(args.no_audio)[i], outcomes[i]) is None
}

/// That a session holds the size that the readings gave, once it has gone past
/// them.
spec fn size_noted(s: SessionView, outcomes: Seq<OutcomeView>) -> bool {
    &&& s.position > 2 ==> outcomes[2] == OutcomeView::Measured(s.width as u32) && s.width
        <= u32::MAX
    &&& s.position > 3 ==> outcomes[3] == OutcomeView::Measured(s.height as u32) && s.height
        <= u32::MAX
}

/// Everything that a session can tell of the outcomes it was given.
spec fn traced(s: SessionView, args: ArgsView, outcomes: Seq<OutcomeView>) -> bool {
    &&& s.args == args
    &&& s.position <= outcomes.len()
    &&& s.position <= s.plan().len()
    &&& forall|i: int| 0 <= i < s.position ==> #[trigger] passes(args, outcomes, i)
    &&& s.failure is None ==> s.position == outcomes.len() || s.position == s.plan().len()
    &&& s.failure is Some ==> {
        &&& s.position < outcomes.len()
        &&& s.position < s.plan().len()
        &&& s.failure == crate::session::verdict(
            args.monitor,
            s.step(),
            outcomes[s.position as int],
        )
    }
    &&& size_noted(s, outcomes)
}

proof fn lemma_traced(args: ArgsView, video: Seq<char>, wav: Seq<char>, outcomes: Seq<OutcomeView>)
    ensures
        traced(SessionView::fresh(args, video, wav).run(outcomes), args, outcomes),
        SessionView::fresh(args, video, wav).run(outcomes).video == video,
        SessionView::fresh(args, video, wav).run(outcomes).wav == wav,
    decreases outcomes.len(),
{
    if outcomes.len() > 0 {
        let before = outcomes.drop_last();
        lemma_traced(args, video, wav, before);
        let s = SessionView::fresh(args, video, wav).run(before);
        let t = SessionView::fresh(args, video, wav).run(outcomes);
        assert(t == s.advanced(outcomes.last()));
        assert forall|i: int| 0 <= i < t.position implies #[trigger] passes(args, outcomes, i) by {
            if i < s.position {
                assert(passes(args, before, i));
                assert(before[i] == outcomes[i]);
            } else {
                assert(outcomes[i] == outcomes.last());
            }
        }
        if s.position > 2 {
            assert(before[2] == outcomes[2]);
        }
        if s.position > 3 {
            assert(before[3] == outcomes[3]);
        }
    }
}

/// A session keeps the settings and the files it was begun with.
pub proof fn law_settings_are_kept(
    args: ArgsView,
    video: Seq<char>,
    wav: Seq<char>,
    outcomes: Seq<OutcomeView>,
)
    ensures
        SessionView::fresh(args, video, wav).run(outcomes).args == args,
        SessionView::fresh(args, video, wav).run(outcomes).video == video,
        SessionView::fresh(args, video, wav).run(outcomes).wav == wav,
{
    lemma_traced(args, video, wav, outcomes);
}

/// A session finishes exactly when it got an outcome for every step of its plan
/// and each of them let it go on.
pub proof fn law_finishes_iff_every_step_passes(
    args: ArgsView,
    video: Seq<char>,
    wav: Seq<char>,
    outcomes: Seq<OutcomeView>,
)
    ensures
        SessionView::fresh(args, video, wav).run(outcomes).finished() <==> {
            &&& outcomes.len() >= crate::plan::plan(args.no_audio).len()
            &&& forall|i: int|
                0 <= i < crate::plan::plan(args.no_audio).len() ==> #[trigger] passes(
                    args,
                    outcomes,
                    i,
                )
        },
{
    lemma_traced(args, video, wav, outcomes);
    let s = SessionView::fresh(args, video, wav).run(outcomes);
    if s.failure is Some {
        assert(!passes(args, outcomes, s.position as int));
    }
}

/// A session gives up with the first outcome that does not let it go on, and
/// later outcomes change nothing.
pub proof fn law_gives_up_at_the_first_failure(
    args: ArgsView,
    video: Seq<char>,
    wav: Seq<char>,
    outcomes: Seq<OutcomeView>,
    first: int,
)
    requires
        0 <= first < outcomes.len(),
        first < crate::plan::plan(args.no_audio).len(),
        forall|i: int| 0 <= i < first ==> #[trigger] passes(args, outcomes, i),
        !passes(args, outcomes, first),
    ensures
        SessionView::fresh(args, video, wav).run(outcomes).position == first,
        SessionView::fresh(args, video, wav).run(outcomes).failure == crate::session::verdict(
            args.monitor,
            crate::plan::plan(args.no_audio)[first],
            outcomes[first],
        ),
{
    lemma_traced(args, video, wav, outcomes);
    let s = SessionView::fresh(args, video, wav).run(outcomes);
    if s.position > first {
        assert(passes(args, outcomes, first));
    } else if s.position < first {
        assert(passes(args, outcomes, s.position as int));
    }
}

/// A session that has ended stays as it is.
pub proof fn law_ended_stays_ended(s: SessionView, outcomes: Seq<OutcomeView>)
    requires
        !s.running(),
    ensures
        s.run(outcomes) == s,
    decreases outcomes.len(),
{
    if outcomes.len() > 0 {
        law_ended_stays_ended(s, outcomes.drop_last());
    }
}

/// A session ends: it asks for no more outcomes than its plan has steps.
pub proof fn law_ends(
    args: ArgsView,
    video: Seq<char>,
    wav: Seq<char>,
    outcomes: Seq<OutcomeView>,
)
    requires
        outcomes.len() >= crate::plan::plan(args.no_audio).len(),
    ensures
        !SessionView::fresh(args, video, wav).run(outcomes).running(),
{
    lemma_traced(args, video, wav, outcomes);
}

/// The encoder is told the size that the monitor gave.
pub proof fn law_encoder_is_told_the_size_read(
    args: ArgsView,
    video: Seq<char>,
    wav: Seq<char>,
    outcomes: Seq<OutcomeView>,
)
    ensures
        ({
            let s = SessionView::fresh(args, video, wav).run(outcomes);
            s.running() && s.step() == Step::SpawnEncoder ==> {
                &&& outcomes[2] matches OutcomeView::Measured(width)
                &&& outcomes[3] matches OutcomeView::Measured(height)
                &&& s.action() == ActionView::SpawnEncoder(
                    crate::ffmpeg::encoder_run(
                        width as nat,
                        height as nat,
                        args.fps,
                        args.crf,
                        video,
                    ),
                )
            }
        }),
{
    lemma_traced(args, video, wav, outcomes);
}

/// The file that the encoder writes is the one that is muxed, renamed and
/// removed; the file that the sound goes to is the one that is muxed and
/// removed; and what is muxed or renamed becomes the output file.
pub proof fn law_steps_agree_on_the_files(s: SessionView)
    ensures
        s.action_of(Step::SpawnEncoder) matches ActionView::SpawnEncoder(encode)
            && encode.args.last() == s.video,
        s.action_of(Step::StartAudio) == ActionView::StartAudio(s.wav),
        s.action_of(Step::Mux) matches ActionView::Mux(mux) && mux.args[1] == "-i"@
            && mux.args[2] == s.video && mux.args[3] == "-i"@ && mux.args[4] == s.wav
            && mux.args.last() == s.args.output,
        s.action_of(Step::RenameVideo) == (ActionView::RenameVideo {
            from: s.video,
            to: s.args.output,
        }),
        s.action_of(Step::RemoveVideo) == ActionView::RemoveFile(s.video),
        s.action_of(Step::RemoveAudio) == ActionView::RemoveFile(s.wav),
{
}

/// Whatever process a session runs, it is FFmpeg, and what it prints to its
/// standard output is never seen; only the encoder is fed through a pipe, and
/// only the version query has its errors hidden.
pub proof fn law_every_process_is_a_quiet_ffmpeg(s: SessionView)
    ensures
        s.action() matches ActionView::QueryVersion(run) ==> run.program == "ffmpeg"@ && run.stdin
            == StreamMode::Inherited && run.stdout == StreamMode::Discarded && run.stderr
            == StreamMode::Discarded,
        s.action() matches ActionView::SpawnEncoder(run) ==> run.program == "ffmpeg"@ && run.stdin
            == StreamMode::Piped && run.stdout == StreamMode::Discarded && run.stderr
            == StreamMode::Inherited,
        s.action() matches ActionView::Mux(run) ==> run.program == "ffmpeg"@ && run.stdin
            == StreamMode::Inherited && run.stdout == StreamMode::Discarded && run.stderr
            == StreamMode::Inherited,
{
}

/// Every session looks up the monitor that was asked for, and no other.
pub proof fn law_the_monitor_asked_for_is_looked_up(
    args: ArgsView,
    video: Seq<char>,
    wav: Seq<char>,
    outcomes: Seq<OutcomeView>,
)
    ensures
        ({
            let s = SessionView::fresh(args, video, wav).run(outcomes);
            &&& s.action() matches ActionView::FindMonitor(index) ==> index == args.monitor
            &&& outcomes.len() == 1 && outcomes[0].clean() ==> s.action()
                == ActionView::FindMonitor(args.monitor)
        }),
{
    lemma_traced(args, video, wav, outcomes);
    let s = SessionView::fresh(args, video, wav).run(outcomes);
    if outcomes.len() == 1 {
        assert(outcomes.drop_last() =~= Seq::<OutcomeView>::empty());
        assert(SessionView::fresh(args, video, wav).run(outcomes.drop_last())
            == SessionView::fresh(args, video, wav));
    }
}

/// Every capture has the limit that was asked for; without one it has none.
pub proof fn law_the_capture_lasts_as_asked_for(
    args: ArgsView,
    video: Seq<char>,
    wav: Seq<char>,
    outcomes: Seq<OutcomeView>,
)
    ensures
        ({
            let s = SessionView::fresh(args, video, wav).run(outcomes);
            &&& s.action() matches ActionView::Capture(limit) ==> limit == args.duration
            &&& s.running() && s.step() == Step::Capture ==> s.action() == ActionView::Capture(
                args.duration,
            )
        }),
{
    lemma_traced(args, video, wav, outcomes);
}

/// Every file that a session touches is the one that it was begun with for that
/// purpose, and it always waits the same time for the sound file.
pub proof fn law_files_are_those_begun_with(
    args: ArgsView,
    video: Seq<char>,
    wav: Seq<char>,
    outcomes: Seq<OutcomeView>,
)
    ensures
        ({
            let s = SessionView::fresh(args, video, wav).run(outcomes);
            let action = s.action();
            &&& action matches ActionView::StartAudio(path) ==> path == wav
            &&& action matches ActionView::SpawnEncoder(run) ==> run.args[19] == video
            &&& action matches ActionView::Mux(run) ==> run.args[2] == video && run.args[4] == wav
                && run.args[12] == args.output
            &&& action matches ActionView::RenameVideo { from, to } ==> from == video && to
                == args.output
            &&& action matches ActionView::RemoveFile(path) ==> path == video && s.step()
                == Step::RemoveVideo || path == wav && s.step() == Step::RemoveAudio
            &&& action matches ActionView::Settle(millis) ==> millis == 300
        }),
{
    lemma_traced(args, video, wav, outcomes);
}

/// A running session performs its step, each step by an action of its own.
pub proof fn law_each_step_is_its_own_action(s: SessionView)
    requires
        s.running(),
    ensures
        s.step() == Step::CheckFfmpeg <==> s.action() is QueryVersion,
        s.step() == Step::FindMonitor <==> s.action() is FindMonitor,
        s.step() == Step::ReadWidth <==> s.action() is ReadWidth,
        s.step() == Step::ReadHeight <==> s.action() is ReadHeight,
        s.step() == Step::ShowMonitor <==> s.action() is ShowMonitor,
        s.step() == Step::StartAudio <==> s.action() is StartAudio,
        s.step() == Step::SpawnEncoder <==> s.action() is SpawnEncoder,
        s.step() == Step::TakeStdin <==> s.action() is TakeStdin,
        s.step() == Step::InstallInterrupt <==> s.action() is InstallInterrupt,
        s.step() == Step::Capture <==> s.action() is Capture,
        s.step() == Step::CloseStdin <==> s.action() is CloseStdin,
        s.step() == Step::WaitEncoder <==> s.action() is WaitEncoder,
        s.step() == Step::StopAudio <==> s.action() is StopAudio,
        s.step() == Step::Settle <==> s.action() is Settle,
        s.step() == Step::RenameVideo <==> s.action() is RenameVideo,
        s.step() == Step::Mux <==> s.action() is Mux,
        s.step() == Step::RemoveVideo || s.step() == Step::RemoveAudio <==> s.action() is RemoveFile,
        !(s.action() is Finish) && !(s.action() is GiveUp),
{
}

/// A session begins with nothing done, and takes outcomes one after the other.
pub proof fn law_outcomes_are_taken_in_order(
    args: ArgsView,
    video: Seq<char>,
    wav: Seq<char>,
    outcomes: Seq<OutcomeView>,
    outcome: OutcomeView,
)
    ensures
        ({
            let fresh = SessionView::fresh(args, video, wav);
            &&& fresh.args == args && fresh.video == video && fresh.wav == wav
            &&& fresh.position == 0 && fresh.failure is None
            &&& fresh.running()
            &&& fresh.run(Seq::<OutcomeView>::empty()) == fresh
            &&& fresh.run(outcomes.push(outcome)) == fresh.run(outcomes).advanced(outcome)
        }),
{
    assert(outcomes.push(outcome).drop_last() =~= outcomes);
}

/// After each outcome that lets it go on, a session is at the next step of its
/// plan; there are no others and none is left out.
pub proof fn law_goes_on_step_by_step(
    args: ArgsView,
    video: Seq<char>,
    wav: Seq<char>,
    outcomes: Seq<OutcomeView>,
)
    requires
        outcomes.len() < crate::plan::plan(args.no_audio).len(),
        forall|i: int| 0 <= i < outcomes.len() ==> #[trigger] passes(args, outcomes, i),
    ensures
        SessionView::fresh(args, video, wav).run(outcomes).running(),
        SessionView::fresh(args, video, wav).run(outcomes).step() == crate::plan::plan(
            args.no_audio,
        )[outcomes.len() as int],
{
    lemma_traced(args, video, wav, outcomes);
    let s = SessionView::fresh(args, video, wav).run(outcomes);
    if s.failure is Some {
        assert(passes(args, outcomes, s.position as int));
    }
}

/// The recording is reported as saved exactly when every step of the plan was
/// answered and none of the answers ended the session.
pub proof fn law_saved_iff_every_step_passes(
    args: ArgsView,
    video: Seq<char>,
    wav: Seq<char>,
    outcomes: Seq<OutcomeView>,
)
    ensures
        SessionView::fresh(args, video, wav).run(outcomes).action() is Finish <==> {
            &&& outcomes.len() >= crate::plan::plan(args.no_audio).len()
            &&& forall|i: int|
                0 <= i < crate::plan::plan(args.no_audio).len() ==> #[trigger] passes(
                    args,
                    outcomes,
                    i,
                )
        },
{
    lemma_traced(args, video, wav, outcomes);
    law_finishes_iff_every_step_passes(args, video, wav, outcomes);
    let s = SessionView::fresh(args, video, wav).run(outcomes);
    if s.running() {
        law_each_step_is_its_own_action(s);
    }
}

/// A session that gave up reports its failure, and that failure is what the step
/// came to at which it gave up.
pub proof fn law_the_failure_is_reported(
    args: ArgsView,
    video: Seq<char>,
    wav: Seq<char>,
    outcomes: Seq<OutcomeView>,
    first: int,
    failure: FailureView,
)
    requires
        0 <= first < outcomes.len(),
        first < crate::plan::plan(args.no_audio).len(),
        forall|i: int| 0 <= i < first ==> #[trigger] passes(args, outcomes, i),
        crate::session::verdict(
            args.monitor,
            crate::plan::plan(args.no_audio)[first],
            outcomes[first],
        ) == Some(failure),
    ensures
        SessionView::fresh(args, video, wav).run(outcomes).action() == (ActionView::GiveUp {
            message: failure.message(),
            wraps_cause: failure.wraps_cause(),
            kills_encoder: failure is CaptureFailed,
        }),
{
    law_gives_up_at_the_first_failure(args, video, wav, outcomes, first);
}

/// A process ended well exactly if its status says so, what was performed was
/// performed, and what failed was not.
pub proof fn law_which_outcomes_are_clean(
    number: u32,
    success: bool,
    status: Seq<char>,
    cause: Seq<char>,
)
    ensures
        OutcomeView::Done.clean(),
        OutcomeView::Measured(number).clean(),
        (OutcomeView::Exited { success, status }).clean() == success,
        !OutcomeView::Failed(cause).clean(),
{
}

/// What was performed well never ends a session, except that a size has to be
/// told as a number; and a session outlives every failure to announce, to close
/// the encoder's input, to stop the sound, to wait, and to remove a file.
pub proof fn law_what_does_not_end_a_session(monitor: nat, step: Step, outcome: OutcomeView)
    ensures
        outcome is Measured ==> crate::session::verdict(monitor, step, outcome) is None,
        outcome.clean() && step != Step::ReadWidth && step != Step::ReadHeight
            ==> crate::session::verdict(monitor, step, outcome) is None,
        crate::session::verdict(monitor, Step::ShowMonitor, outcome) is None,
        crate::session::verdict(monitor, Step::CloseStdin, outcome) is None,
        crate::session::verdict(monitor, Step::StopAudio, outcome) is None,
        crate::session::verdict(monitor, Step::Settle, outcome) is None,
        crate::session::verdict(monitor, Step::RemoveVideo, outcome) is None,
        crate::session::verdict(monitor, Step::RemoveAudio, outcome) is None,
{
}

/// What a session gives up with when a step could not be performed.
pub proof fn law_what_a_failed_step_comes_to(monitor: nat, cause: Seq<char>)
    ensures
        ({
            let failed = OutcomeView::Failed(cause);
            &&& crate::session::verdict(monitor, Step::CheckFfmpeg, failed) == Some(
                FailureView::FfmpegMissing,
            )
            &&& crate::session::verdict(monitor, Step::FindMonitor, failed) == Some(
                FailureView::MonitorNotFound(monitor),
            )
            &&& crate::session::verdict(monitor, Step::ReadWidth, failed) == Some(
                FailureView::WidthUnknown,
            )
            &&& crate::session::verdict(monitor, Step::ReadHeight, failed) == Some(
                FailureView::HeightUnknown,
            )
            &&& crate::session::verdict(monitor, Step::StartAudio, failed) == Some(
                FailureView::AudioNotStarted,
            )
            &&& crate::session::verdict(monitor, Step::SpawnEncoder, failed) == Some(
                FailureView::EncoderNotSpawned,
            )
            &&& crate::session::verdict(monitor, Step::TakeStdin, failed) == Some(
                FailureView::StdinMissing,
            )
            &&& crate::session::verdict(monitor, Step::InstallInterrupt, failed) == Some(
                FailureView::InterruptNotInstalled,
            )
            &&& crate::session::verdict(monitor, Step::Capture, failed) == Some(
                FailureView::CaptureFailed(cause),
            )
            &&& crate::session::verdict(monitor, Step::WaitEncoder, failed) == Some(
                FailureView::EncoderNotAwaited,
            )
            &&& crate::session::verdict(monitor, Step::RenameVideo, failed) == Some(
                FailureView::VideoNotRenamed,
            )
            &&& crate::session::verdict(monitor, Step::Mux, failed) == Some(FailureView::MuxNotRun)
        }),
{
}

/// What a session gives up with when a process was run and ended badly, whatever
/// its status says, when a size was not told as a number, and when any other step
/// came to no good end.
pub proof fn law_what_a_bad_end_comes_to(monitor: nat, status: Seq<char>, outcome: OutcomeView)
    ensures
        ({
            let bad = OutcomeView::Exited { success: false, status };
            &&& crate::session::verdict(monitor, Step::CheckFfmpeg, bad) == Some(
                FailureView::FfmpegMissing,
            )
            &&& crate::session::verdict(monitor, Step::WaitEncoder, bad) == Some(
                FailureView::EncoderExit(status),
            )
            &&& crate::session::verdict(monitor, Step::Mux, bad) == Some(
                FailureView::MuxExit(status),
            )
            &&& crate::session::verdict(monitor, Step::Capture, bad) == Some(
                FailureView::CaptureFailed(status),
            )
        }),
        !outcome.clean() ==> {
            &&& crate::session::verdict(monitor, Step::CheckFfmpeg, outcome) == Some(
                FailureView::FfmpegMissing,
            )
            &&& crate::session::verdict(monitor, Step::FindMonitor, outcome) == Some(
                FailureView::MonitorNotFound(monitor),
            )
            &&& crate::session::verdict(monitor, Step::StartAudio, outcome) == Some(
                FailureView::AudioNotStarted,
            )
            &&& crate::session::verdict(monitor, Step::SpawnEncoder, outcome) == Some(
                FailureView::EncoderNotSpawned,
            )
            &&& crate::session::verdict(monitor, Step::TakeStdin, outcome) == Some(
                FailureView::StdinMissing,
            )
            &&& crate::session::verdict(monitor, Step::InstallInterrupt, outcome) == Some(
                FailureView::InterruptNotInstalled,
            )
            &&& crate::session::verdict(monitor, Step::RenameVideo, outcome) == Some(
                FailureView::VideoNotRenamed,
            )
        },
        !(outcome is Measured) ==> crate::session::verdict(monitor, Step::ReadWidth, outcome)
            == Some(FailureView::WidthUnknown),
        !(outcome is Measured) ==> crate::session::verdict(monitor, Step::ReadHeight, outcome)
            == Some(FailureView::HeightUnknown),
{
}

/// The lines of a session: the monitor with its size and rate, the start of the
/// sound, the waiting, the muxing, and in the end where the recording is saved;
/// and none with any other step.
pub proof fn law_announcements_of_a_session(s: SessionView)
    ensures
        s.finished() ==> s.announcement() == Some(
            LineView {
                channel: Channel::Output,
                text: "Hoàn tất! Video đã lưu tại: "@ + s.args.output,
            },
        ),
        s.failure is Some ==> s.announcement() is None,
        s.running() && s.step() == Step::ShowMonitor ==> s.announcement() == Some(
            LineView {
                channel: Channel::Output,
                text: "Màn hình #"@ + crate::text::decimal(s.args.monitor) + ": "@
                    + crate::ffmpeg::size_spec(s.width, s.height) + " @ "@ + crate::text::decimal(
                    s.args.fps,
                ) + " fps"@,
            },
        ),
        s.running() && s.step() == Step::StartAudio ==> s.announcement() == Some(
            LineView {
                channel: Channel::Output,
                text: "Đang thu âm thanh hệ thống (loopback)..."@,
            },
        ),
        s.running() && s.step() == Step::WaitEncoder ==> s.announcement() == Some(
            LineView { channel: Channel::Output, text: "Đang chờ FFmpeg encode xong video..."@ },
        ),
        s.running() && s.step() == Step::Mux ==> s.announcement() == Some(
            LineView { channel: Channel::Output, text: "Đang ghép âm thanh vào video..."@ },
        ),
        s.running() && s.step() != Step::ShowMonitor && s.step() != Step::StartAudio && s.step()
            != Step::WaitEncoder && s.step() != Step::Mux ==> s.announcement() is None,
{
}

/// The monitor's announcement names the monitor asked for, the size read and the
/// rate asked for.
pub proof fn law_the_monitor_is_announced_with_the_size_read(
    args: ArgsView,
    video: Seq<char>,
    wav: Seq<char>,
    outcomes: Seq<OutcomeView>,
)
    ensures
        ({
            let s = SessionView::fresh(args, video, wav).run(outcomes);
            s.running() && s.step() == Step::ShowMonitor ==> {
                &&& outcomes[2] matches OutcomeView::Measured(width)
                &&& outcomes[3] matches OutcomeView::Measured(height)
                &&& s.announcement() == Some(
                    LineView {
                        channel: Channel::Output,
                        text: "Màn hình #"@ + crate::text::decimal(args.monitor) + ": "@
                            + crate::ffmpeg::size_spec(width as nat, height as nat) + " @ "@
                            + crate::text::decimal(args.fps) + " fps"@,
                    },
                )
            }
        }),
{
    lemma_traced(args, video, wav, outcomes);
}

/// The one warning is for an encoder's input that could not be closed.
pub proof fn law_the_only_warning(s: SessionView, outcome: OutcomeView)
    ensures
        s.running() && s.step() == Step::CloseStdin && !outcome.clean() ==> s.warning(outcome)
            == Some(
            LineView {
                channel: Channel::Error,
                text: "Cảnh báo: vẫn còn tham chiếu khác tới stdin của FFmpeg, có thể chương trình chờ FFmpeg lâu hơn dự kiến."@,
            },
        ),
        outcome.clean() ==> s.warning(outcome) is None,
        !s.running() ==> s.warning(outcome) is None,
        s.step() != Step::CloseStdin ==> s.warning(outcome) is None,
{
}

/// A session runs as long as it has not given up and has steps left, and is
/// finished when it has none left.
pub proof fn law_running_or_ended(s: SessionView)
    ensures
        s.failure is Some ==> !s.running() && !s.finished() && s.action() is GiveUp,
        s.failure is None && s.position < crate::plan::plan(s.args.no_audio).len() ==> s.running()
            && !s.finished() && s.step() == crate::plan::plan(
            s.args.no_audio,
        )[s.position as int],
        s.failure is None && s.position >= crate::plan::plan(s.args.no_audio).len()
            ==> !s.running() && s.finished() && s.action() is Finish,
{
}

/// A session that gives up kills the encoder exactly when it was the screen
/// capture that failed.
pub proof fn law_encoder_is_killed_only_after_a_failed_capture(
    args: ArgsView,
    video: Seq<char>,
    wav: Seq<char>,
    outcomes: Seq<OutcomeView>,
)
    ensures
        ({
            let s = SessionView::fresh(args, video, wav).run(outcomes);
            s.action() matches ActionView::GiveUp { kills_encoder, .. } ==> kills_encoder == (s.step()
                == Step::Capture)
        }),
{
    lemma_traced(args, video, wav, outcomes);
}

/// Files are removed only once muxing has succeeded.
pub proof fn law_files_are_removed_only_after_muxing(
    args: ArgsView,
    video: Seq<char>,
    wav: Seq<char>,
    outcomes: Seq<OutcomeView>,
)
    requires
        SessionView::fresh(args, video, wav).run(outcomes).action() is RemoveFile,
    ensures
        exists|i: int|
            0 <= i < outcomes.len() && #[trigger] crate::plan::plan(args.no_audio)[i] == Step::Mux
                && outcomes[i].clean(),
{
    lemma_traced(args, video, wav, outcomes);
    let plan = crate::plan::plan(args.no_audio);
    assert(plan[14] == Step::Mux);
    assert(passes(args, outcomes, 14));
}

/// However a capture came to its end without an error, Ctrl+C included, the
/// encoder's input is closed next and then the encoder is waited for, whatever
/// came of closing its input.
pub proof fn law_a_stopped_capture_is_encoded(
    s: SessionView,
    capture: OutcomeView,
    close: OutcomeView,
)
    requires
        s.running(),
        s.step() == Step::Capture,
        capture.clean(),
    ensures
        s.advanced(capture).action() == ActionView::CloseStdin,
        s.advanced(capture).advanced(close).action() == ActionView::WaitEncoder,
{
}

/// A recording that is reported as saved was encoded to its end and then made
/// the output file, by muxing if it has sound and by renaming if it has none.
pub proof fn law_saved_means_encoded_and_put_out(
    args: ArgsView,
    video: Seq<char>,
    wav: Seq<char>,
    outcomes: Seq<OutcomeView>,
)
    requires
        SessionView::fresh(args, video, wav).run(outcomes).action() is Finish,
    ensures
        exists|i: int, j: int|
            0 <= i < j < outcomes.len() && #[trigger] crate::plan::plan(args.no_audio)[i]
                == Step::WaitEncoder && outcomes[i].clean()
                && #[trigger] crate::plan::plan(args.no_audio)[j] == (if args.no_audio {
                Step::RenameVideo
            } else {
                Step::Mux
            }) && outcomes[j].clean(),
{
    lemma_traced(args, video, wav, outcomes);
    let plan = crate::plan::plan(args.no_audio);
    if args.no_audio {
        assert(plan[10] == Step::WaitEncoder && plan[12] == Step::RenameVideo);
        assert(passes(args, outcomes, 10) && passes(args, outcomes, 12));
    } else {
        assert(plan[11] == Step::WaitEncoder && plan[14] == Step::Mux);
        assert(passes(args, outcomes, 11) && passes(args, outcomes, 14));
    }
}

} // verus!
