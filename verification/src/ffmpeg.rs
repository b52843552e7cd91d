//! How FFmpeg is run: its command lines and its standard streams.

use crate::text::decimal_text;
use vstd::prelude::*;

verus! {

/// The program that is run.
pub const PROGRAM: &'static str = "ffmpeg";

/// What a standard stream of a process is connected to.
#[derive(Debug, Clone, Copy, PartialEq, Eq, Structural)]
pub enum StreamMode {
    /// What this program's own stream is connected to.
    Inherited,
    /// Nothing.
    Discarded,
    /// A pipe to this program.
    Piped,
}

/// A process to run.
#[derive(Debug)]
pub struct Invocation {
    pub program: &'static str,
    pub args: Vec<String>,
    pub stdin: StreamMode,
    pub stdout: StreamMode,
    pub stderr: StreamMode,
}

/// The model of an [`Invocation`].
pub struct InvocationView {
    pub program: Seq<char>,
    pub args: Seq<Seq<char>>,
    pub stdin: StreamMode,
    pub stdout: StreamMode,
    pub stderr: StreamMode,
}

impl View for Invocation {
    type V = InvocationView;

    open spec fn view(&self) -> InvocationView {
        InvocationView {
            program: self.program@,
            args: self.args.deep_view(),
            stdin: self.stdin,
            stdout: self.stdout,
            stderr: self.stderr,
        }
    }
}

/// The version query: FFmpeg, with nothing of what it prints to be seen.
pub open spec fn version_run() -> InvocationView {
    InvocationView {
        program: "ffmpeg"@,
        args: version_spec(),
        stdin: StreamMode::Inherited,
        stdout: StreamMode::Discarded,
        stderr: StreamMode::Discarded,
    }
}

/// The encoder: FFmpeg, with its input from this program and only its errors to
/// be seen.
pub open spec fn encoder_run(
    width: nat,
    height: nat,
    fps: nat,
    crf: nat,
    video_path: Seq<char>,
) -> InvocationView {
    InvocationView {
        program: "ffmpeg"@,
        args: video_only_spec(width, height, fps, crf, video_path),
        stdin: StreamMode::Piped,
        stdout: StreamMode::Discarded,
        stderr: StreamMode::Inherited,
    }
}

/// The muxer: FFmpeg, with only its errors to be seen.
pub open spec fn muxer_run(
    video_path: Seq<char>,
    wav_path: Seq<char>,
    output_path: Seq<char>,
) -> InvocationView {
    InvocationView {
        program: "ffmpeg"@,
        args: mux_spec(video_path, wav_path, output_path),
        stdin: StreamMode::Inherited,
        stdout: StreamMode::Discarded,
        stderr: StreamMode::Inherited,
    }
}

/// A frame size as FFmpeg reads it: the width, an `x`, the height.
pub open spec fn size_spec(width: nat, height: nat) -> Seq<char> {
    crate::text::decimal(width) + "x"@ + crate::text::decimal(height)
}

/// The arguments that only ask FFmpeg for its version.
pub open spec fn version_spec() -> Seq<Seq<char>> {
    seq!["-version"@]
}

/// The arguments that make FFmpeg read raw BGRA frames of the given size and
/// rate from its standard input, encode them as H.264 at the given quality, and
/// write them to `video_path`, overwriting what is there.
pub open spec fn video_only_spec(
    width: nat,
    height: nat,
    fps: nat,
    crf: nat,
    video_path: Seq<char>,
) -> Seq<Seq<char>> {
    seq![
        "-y"@,
        "-f"@, "rawvideo"@,
        "-pixel_format"@, "bgra"@,
        "-video_size"@, size_spec(width, height),
        "-framerate"@, crate::text::decimal(fps),
        "-i"@, "-"@,
        "-c:v"@, "libx264"@,
        "-pix_fmt"@, "yuv420p"@,
        "-preset"@, "veryfast"@,
        "-crf"@, crate::text::decimal(crf),
        video_path,
    ]
}

/// The arguments that make FFmpeg copy the video of `video_path`, encode the
/// sound of `wav_path` as AAC, and write both to `output_path`, overwriting what
/// is there and ending with the shorter of the two.
pub open spec fn mux_spec(
    video_path: Seq<char>,
    wav_path: Seq<char>,
    output_path: Seq<char>,
) -> Seq<Seq<char>> {
    seq![
        "-y"@,
        "-i"@, video_path,
        "-i"@, wav_path,
        "-c:v"@, "copy"@,
        "-c:a"@, "aac"@,
        "-b:a"@, "192k"@,
        "-shortest"@,
        output_path,
    ]
}

/// Writes a frame size.
pub fn size_arg(width: u32, height: u32) -> (res: String)
    ensures
        res@ == size_spec(width as nat, height as nat),
{
    let mut res = decimal_text(width as u64);
    res.append("x");
    res.append(decimal_text(height as u64).as_str());
    res
}

/// The command line of the availability test.
pub fn version_args() -> (args: Vec<String>)
    ensures
        args.deep_view() == version_spec(),
{
    let args = vec!["-version".to_owned()];
    assert(args.deep_view() =~= version_spec());
    args
}

/// The command line of the encoder.
pub fn video_only_args(
    width: u32,
    height: u32,
    fps: u32,
    crf: u8,
    video_path: &str,
) -> (args: Vec<String>)
    ensures
        args.deep_view() == video_only_spec(
            width as nat,
            height as nat,
            fps as nat,
            crf as nat,
            video_path@,
        ),
{
    let args = vec![
        "-y".to_owned(),
        "-f".to_owned(), "rawvideo".to_owned(),
        "-pixel_format".to_owned(), "bgra".to_owned(),
        "-video_size".to_owned(), size_arg(width, height),
        "-framerate".to_owned(), decimal_text(fps as u64),
        "-i".to_owned(), "-".to_owned(),
        "-c:v".to_owned(), "libx264".to_owned(),
        "-pix_fmt".to_owned(), "yuv420p".to_owned(),
        "-preset".to_owned(), "veryfast".to_owned(),
        "-crf".to_owned(), decimal_text(crf as u64),
        video_path.to_owned(),
    ];
    assert(args.deep_view() =~= video_only_spec(
        width as nat,
        height as nat,
        fps as nat,
        crf as nat,
        video_path@,
    ));
    args
}

/// The command line that puts the sound to the video.
pub fn mux_args(video_path: &str, wav_path: &str, output_path: &str) -> (args: Vec<String>)
    ensures
        args.deep_view() == mux_spec(video_path@, wav_path@, output_path@),
{
    let args = vec![
        "-y".to_owned(),
        "-i".to_owned(), video_path.to_owned(),
        "-i".to_owned(), wav_path.to_owned(),
        "-c:v".to_owned(), "copy".to_owned(),
        "-c:a".to_owned(), "aac".to_owned(),
        "-b:a".to_owned(), "192k".to_owned(),
        "-shortest".to_owned(),
        output_path.to_owned(),
    ];
    assert(args.deep_view() =~= mux_spec(video_path@, wav_path@, output_path@));
    args
}

/// How the version query is run.
pub fn version_query() -> (run: Invocation)
    ensures
        run@ == version_run(),
{
    Invocation {
        program: PROGRAM,
        args: version_args(),
        stdin: StreamMode::Inherited,
        stdout: StreamMode::Discarded,
        stderr: StreamMode::Discarded,
    }
}

/// How the encoder is run.
pub fn encoder(width: u32, height: u32, fps: u32, crf: u8, video_path: &str) -> (run: Invocation)
    ensures
        run@ == encoder_run(width as nat, height as nat, fps as nat, crf as nat, video_path@),
{
    Invocation {
        program: PROGRAM,
        args: video_only_args(width, height, fps, crf, video_path),
        stdin: StreamMode::Piped,
        stdout: StreamMode::Discarded,
        stderr: StreamMode::Inherited,
    }
}

/// How the muxer is run.
pub fn muxer(video_path: &str, wav_path: &str, output_path: &str) -> (run: Invocation)
    ensures
        run@ == muxer_run(video_path@, wav_path@, output_path@),
{
    Invocation {
        program: PROGRAM,
        args: mux_args(video_path, wav_path, output_path),
        stdin: StreamMode::Inherited,
        stdout: StreamMode::Discarded,
        stderr: StreamMode::Inherited,
    }
}

/// Whether a text is a number written out: digits only, none of them a leading
/// zero, that read back as the number.
pub open spec fn writes(text: Seq<char>, n: nat) -> bool {
    &&& text.len() > 0
    &&& forall|i: int| 0 <= i < text.len() ==> 48 <= #[trigger] text[i] as int <= 57
    &&& text[0] == '0' ==> text.len() == 1
    &&& crate::text::value(text) == n
}

proof fn lemma_decimal_writes(n: nat)
    ensures
        writes(crate::text::decimal(n), n),
{
    crate::text::law_decimal_reads_back(n);
    let text = crate::text::decimal(n);
    assert forall|i: int| 0 <= i < text.len() implies 48 <= #[trigger] text[i] as int <= 57 by {
        assert(crate::text::is_digit(text[i]));
    }
}

/// A frame size is the width in digits, an `x` and the height in digits, and
/// nothing else.
pub proof fn law_size_is_width_x_height(width: nat, height: nat)
    ensures
        exists|k: int|
            #![trigger size_spec(width, height)[k]]
            0 < k < size_spec(width, height).len() && size_spec(width, height)[k] == 'x' && writes(
                size_spec(width, height).take(k),
                width,
            ) && writes(size_spec(width, height).skip(k + 1), height),
        size_spec(width, height) == crate::text::decimal(width).push('x') + crate::text::decimal(
            height,
        ),
{
    reveal_strlit("x");
    let w = crate::text::decimal(width);
    let h = crate::text::decimal(height);
    let size = size_spec(width, height);
    lemma_decimal_writes(width);
    lemma_decimal_writes(height);
    assert(size[w.len() as int] == 'x');
    assert(size.take(w.len() as int) =~= w);
    assert(size.skip(w.len() as int + 1) =~= h);
    assert(size =~= w.push('x') + h);
}

/// The version query is `ffmpeg -version`, with nothing of it to be seen.
pub proof fn law_version_query_in_full()
    ensures
        version_run().program == "ffmpeg"@,
        version_run().args.len() == 1,
        version_run().args[0] == "-version"@,
        version_spec() == version_run().args,
        version_run().stdin is Inherited,
        version_run().stdout is Discarded,
        version_run().stderr is Discarded,
{
}

/// The encoder's arguments, one by one, whatever it is asked to encode: the size,
/// the rate and the quality are the numbers that were asked for, in digits, and
/// everything but these and the path is the same for every recording.
pub proof fn law_encoder_in_full(width: nat, height: nat, fps: nat, crf: nat, path: Seq<char>)
    ensures
        ({
            let run = encoder_run(width, height, fps, crf, path);
            &&& run.program == "ffmpeg"@
            &&& run.stdin is Piped
            &&& run.stdout is Discarded
            &&& run.stderr is Inherited
            &&& run.args == video_only_spec(width, height, fps, crf, path)
            &&& run.args.len() == 20
            &&& run.args[0] == "-y"@
            &&& run.args[1] == "-f"@
            &&& run.args[2] == "rawvideo"@
            &&& run.args[3] == "-pixel_format"@
            &&& run.args[4] == "bgra"@
            &&& run.args[5] == "-video_size"@
            &&& run.args[6] == crate::text::decimal(width).push('x') + crate::text::decimal(height)
            &&& run.args[7] == "-framerate"@
            &&& writes(run.args[8], fps)
            &&& run.args[9] == "-i"@
            &&& run.args[10] == "-"@
            &&& run.args[11] == "-c:v"@
            &&& run.args[12] == "libx264"@
            &&& run.args[13] == "-pix_fmt"@
            &&& run.args[14] == "yuv420p"@
            &&& run.args[15] == "-preset"@
            &&& run.args[16] == "veryfast"@
            &&& run.args[17] == "-crf"@
            &&& writes(run.args[18], crf)
            &&& run.args[19] == path
        }),
{
    law_size_is_width_x_height(width, height);
    lemma_decimal_writes(fps);
    lemma_decimal_writes(crf);
}

/// Two recordings that differ in size, rate, quality or file never run the
/// encoder with the same command line.
pub proof fn law_encoder_is_unambiguous(
    w1: nat,
    h1: nat,
    fps1: nat,
    crf1: nat,
    path1: Seq<char>,
    w2: nat,
    h2: nat,
    fps2: nat,
    crf2: nat,
    path2: Seq<char>,
)
    requires
        encoder_run(w1, h1, fps1, crf1, path1).args == encoder_run(w2, h2, fps2, crf2, path2).args,
    ensures
        w1 == w2,
        h1 == h2,
        fps1 == fps2,
        crf1 == crf2,
        path1 == path2,
{
    let a = encoder_run(w1, h1, fps1, crf1, path1).args;
    let b = encoder_run(w2, h2, fps2, crf2, path2).args;
    law_encoder_in_full(w1, h1, fps1, crf1, path1);
    law_encoder_in_full(w2, h2, fps2, crf2, path2);
    assert(a[6] == b[6] && a[8] == b[8] && a[18] == b[18] && a[19] == b[19]);
    law_size_is_unambiguous(w1, h1, w2, h2);
}

/// The muxer's arguments, one by one, whatever the three paths are: both files
/// are read, the video is copied, the sound is encoded as AAC at 192k, and the
/// output ends with the shorter of the two.
pub proof fn law_muxer_in_full(video: Seq<char>, wav: Seq<char>, output: Seq<char>)
    ensures
        ({
            let run = muxer_run(video, wav, output);
            &&& run.program == "ffmpeg"@
            &&& run.stdin is Inherited
            &&& run.stdout is Discarded
            &&& run.stderr is Inherited
            &&& run.args == mux_spec(video, wav, output)
            &&& run.args.len() == 13
            &&& run.args[0] == "-y"@
            &&& run.args[1] == "-i"@
            &&& run.args[2] == video
            &&& run.args[3] == "-i"@
            &&& run.args[4] == wav
            &&& run.args[5] == "-c:v"@
            &&& run.args[6] == "copy"@
            &&& run.args[7] == "-c:a"@
            &&& run.args[8] == "aac"@
            &&& run.args[9] == "-b:a"@
            &&& run.args[10] == "192k"@
            &&& run.args[11] == "-shortest"@
            &&& run.args[12] == output
        }),
{
}

/// A written frame size stands for one width and one height only.
pub proof fn law_size_is_unambiguous(w1: nat, h1: nat, w2: nat, h2: nat)
    requires
        size_spec(w1, h1) == size_spec(w2, h2),
    ensures
        w1 == w2,
        h1 == h2,
{
    reveal_strlit("x");
    crate::text::law_decimal_reads_back(w1);
    crate::text::law_decimal_reads_back(h1);
    crate::text::law_decimal_reads_back(w2);
    crate::text::law_decimal_reads_back(h2);
    let d1 = crate::text::decimal(w1);
    let d2 = crate::text::decimal(w2);
    let s1 = size_spec(w1, h1);
    let s2 = size_spec(w2, h2);
    assert(s1[d1.len() as int] == 'x');
    assert(s2[d2.len() as int] == 'x');
    if d1.len() < d2.len() {
        assert(s2[d1.len() as int] == d2[d1.len() as int]);
    } else if d2.len() < d1.len() {
        assert(s1[d2.len() as int] == d1[d2.len() as int]);
    }
    assert(d1 =~= s1.take(d1.len() as int));
    assert(d2 =~= s2.take(d2.len() as int));
    assert(crate::text::decimal(h1) =~= s1.skip(d1.len() as int + 1));
    assert(crate::text::decimal(h2) =~= s2.skip(d2.len() as int + 1));
}

} // verus!
