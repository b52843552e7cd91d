//! The order in which the parts of a recording are started and stopped.

use vstd::prelude::*;

verus! {

/// One part of a recording session.
#[derive(Debug, Clone, Copy, PartialEq, Eq, Structural)]
pub enum Step {
    /// Ask FFmpeg for its version, to see that it can be run.
    CheckFfmpeg,
    /// Look up the monitor to record.
    FindMonitor,
    /// Ask the monitor for its width.
    ReadWidth,
    /// Ask the monitor for its height.
    ReadHeight,
    /// Tell the user what is about to be recorded.
    ShowMonitor,
    /// Start to record the system sound.
    StartAudio,
    /// Start the encoder process.
    SpawnEncoder,
    /// Take hold of the encoder's standard input.
    TakeStdin,
    /// Install the Ctrl+C handler.
    InstallInterrupt,
    /// Feed frames to the encoder until the recording ends.
    Capture,
    /// Close the encoder's standard input, so that it finishes its file.
    CloseStdin,
    /// Wait for the encoder process.
    WaitEncoder,
    /// Stop recording the system sound.
    StopAudio,
    /// Leave the sound file the time to be written out.
    Settle,
    /// Make the silent video the output file.
    RenameVideo,
    /// Put video and sound together into the output file.
    Mux,
    /// Remove the video that has no sound.
    RemoveVideo,
    /// Remove the sound file.
    RemoveAudio,
}

/// The steps of a session with or without sound, in their order.
pub open spec fn plan(no_audio: bool) -> Seq<Step> {
    if no_audio {
        seq![
            Step::CheckFfmpeg,
            Step::FindMonitor,
            Step::ReadWidth,
            Step::ReadHeight,
            Step::ShowMonitor,
            Step::SpawnEncoder,
            Step::TakeStdin,
            Step::InstallInterrupt,
            Step::Capture,
            Step::CloseStdin,
            Step::WaitEncoder,
            Step::Settle,
            Step::RenameVideo,
        ]
    } else {
        seq![
            Step::CheckFfmpeg,
            Step::FindMonitor,
            Step::ReadWidth,
            Step::ReadHeight,
            Step::ShowMonitor,
            Step::StartAudio,
            Step::SpawnEncoder,
            Step::TakeStdin,
            Step::InstallInterrupt,
            Step::Capture,
            Step::CloseStdin,
            Step::WaitEncoder,
            Step::StopAudio,
            Step::Settle,
            Step::Mux,
            Step::RemoveVideo,
            Step::RemoveAudio,
        ]
    }
}

/// The steps of a session with or without sound, in their order.
pub fn steps(no_audio: bool) -> (steps: Vec<Step>)
    ensures
        steps@ == plan(no_audio),
{
    let mut steps: Vec<Step> = vec![
        Step::CheckFfmpeg,
        Step::FindMonitor,
        Step::ReadWidth,
        Step::ReadHeight,
        Step::ShowMonitor,
    ];
    if !no_audio {
        steps.push(Step::StartAudio);
    }
    steps.push(Step::SpawnEncoder);
    steps.push(Step::TakeStdin);
    steps.push(Step::InstallInterrupt);
    steps.push(Step::Capture);
    steps.push(Step::CloseStdin);
    steps.push(Step::WaitEncoder);
    if !no_audio {
        steps.push(Step::StopAudio);
    }
    steps.push(Step::Settle);
    if no_audio {
        steps.push(Step::RenameVideo);
    } else {
        steps.push(Step::Mux);
        steps.push(Step::RemoveVideo);
        steps.push(Step::RemoveAudio);
    }
    assert(steps@ =~= plan(no_audio));
    steps
}

/// Whether every `first` in a row of steps stands before every `second`.
pub open spec fn precedes(steps: Seq<Step>, first: Step, second: Step) -> bool {
    forall|i: int, j: int|
        0 <= i < steps.len() && 0 <= j < steps.len() && #[trigger] steps[i] == first
            && #[trigger] steps[j] == second ==> i < j
}

/// No step is taken twice, and nothing is done before FFmpeg was found.
pub proof fn law_each_step_once(no_audio: bool)
    ensures
        plan(no_audio).no_duplicates(),
        plan(no_audio)[0] == Step::CheckFfmpeg,
{
}

/// Where every step stands. The steps up to the announcement are the same with
/// and without sound; from the encoder on, a session with sound is one step
/// later, and from the settling on it is two steps later.
pub proof fn law_where_each_step_stands(no_audio: bool)
    ensures
        ({
            let p = plan(no_audio);
            let k: int = if no_audio { 0 } else { 1 };
            &&& p.len() == if no_audio { 13int } else { 17 }
            &&& p[0] == Step::CheckFfmpeg
            &&& p[1] == Step::FindMonitor
            &&& p[2] == Step::ReadWidth
            &&& p[3] == Step::ReadHeight
            &&& p[4] == Step::ShowMonitor
            &&& !no_audio ==> p[5] == Step::StartAudio
            &&& p[5 + k] == Step::SpawnEncoder
            &&& p[6 + k] == Step::TakeStdin
            &&& p[7 + k] == Step::InstallInterrupt
            &&& p[8 + k] == Step::Capture
            &&& p[9 + k] == Step::CloseStdin
            &&& p[10 + k] == Step::WaitEncoder
            &&& !no_audio ==> p[12] == Step::StopAudio
            &&& p[11 + 2 * k] == Step::Settle
            &&& no_audio ==> p[12] == Step::RenameVideo
            &&& !no_audio ==> p[14] == Step::Mux && p[15] == Step::RemoveVideo && p[16]
                == Step::RemoveAudio
        }),
{
}

/// Without sound no step has to do with it and the video is renamed; with sound
/// it is started, stopped and muxed, and the video is not renamed.
pub proof fn law_sound_steps(no_audio: bool)
    ensures
        plan(no_audio).contains(Step::StartAudio) == !no_audio,
        plan(no_audio).contains(Step::StopAudio) == !no_audio,
        plan(no_audio).contains(Step::Mux) == !no_audio,
        plan(no_audio).contains(Step::RemoveVideo) == !no_audio,
        plan(no_audio).contains(Step::RemoveAudio) == !no_audio,
        plan(no_audio).contains(Step::RenameVideo) == no_audio,
{
    let p = plan(no_audio);
    if no_audio {
        assert(p[12] == Step::RenameVideo);
    } else {
        assert(p[5] == Step::StartAudio);
        assert(p[12] == Step::StopAudio);
        assert(p[14] == Step::Mux);
        assert(p[15] == Step::RemoveVideo);
        assert(p[16] == Step::RemoveAudio);
    }
}

/// What comes before what: the size is known before the encoder is started, the
/// sound runs before the picture does, Ctrl+C is heard before frames are taken,
/// the encoder's input is closed before it is waited for, the sound is stopped
/// and its file settled before it is muxed, and the files that muxing reads are
/// removed only after it.
pub proof fn law_order(no_audio: bool)
    ensures
        precedes(plan(no_audio), Step::ReadWidth, Step::SpawnEncoder),
        precedes(plan(no_audio), Step::ReadHeight, Step::SpawnEncoder),
        precedes(plan(no_audio), Step::StartAudio, Step::Capture),
        precedes(plan(no_audio), Step::SpawnEncoder, Step::Capture),
        precedes(plan(no_audio), Step::InstallInterrupt, Step::Capture),
        precedes(plan(no_audio), Step::Capture, Step::CloseStdin),
        precedes(plan(no_audio), Step::CloseStdin, Step::WaitEncoder),
        precedes(plan(no_audio), Step::WaitEncoder, Step::Mux),
        precedes(plan(no_audio), Step::WaitEncoder, Step::RenameVideo),
        precedes(plan(no_audio), Step::Capture, Step::StopAudio),
        precedes(plan(no_audio), Step::StopAudio, Step::Settle),
        precedes(plan(no_audio), Step::Settle, Step::Mux),
        precedes(plan(no_audio), Step::Mux, Step::RemoveVideo),
        precedes(plan(no_audio), Step::Mux, Step::RemoveAudio),
{
}

} // verus!
