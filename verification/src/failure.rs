//! What ends a recording session early, and how it is reported.

use crate::text::{decimal_text, joined};
use vstd::prelude::*;

verus! {

/// A reason why a recording session ended early.
#[derive(Debug)]
pub enum Failure {
    /// FFmpeg could not be run, or its version query did not succeed.
    FfmpegMissing,
    /// There is no monitor with this index.
    MonitorNotFound(usize),
    /// The monitor did not tell its width.
    WidthUnknown,
    /// The monitor did not tell its height.
    HeightUnknown,
    /// The sound capture did not start.
    AudioNotStarted,
    /// The encoder process could not be started.
    EncoderNotSpawned,
    /// The encoder process has no standard input.
    StdinMissing,
    /// The Ctrl+C handler could not be installed.
    InterruptNotInstalled,
    /// The screen capture failed, with the text of its error.
    CaptureFailed(String),
    /// Waiting for the encoder process failed.
    EncoderNotAwaited,
    /// The encoder process ended unsuccessfully, with the text of its status.
    EncoderExit(String),
    /// The video could not be renamed to the output file.
    VideoNotRenamed,
    /// The muxing process could not be run.
    MuxNotRun,
    /// The muxing process ended unsuccessfully, with the text of its status.
    MuxExit(String),
}

/// The model of a [`Failure`]: texts are character sequences.
pub enum FailureView {
    FfmpegMissing,
    MonitorNotFound(nat),
    WidthUnknown,
    HeightUnknown,
    AudioNotStarted,
    EncoderNotSpawned,
    StdinMissing,
    InterruptNotInstalled,
    CaptureFailed(Seq<char>),
    EncoderNotAwaited,
    EncoderExit(Seq<char>),
    VideoNotRenamed,
    MuxNotRun,
    MuxExit(Seq<char>),
}

impl View for Failure {
    type V = FailureView;

    open spec fn view(&self) -> FailureView {
        match self {
            Failure::FfmpegMissing => FailureView::FfmpegMissing,
            Failure::MonitorNotFound(index) => FailureView::MonitorNotFound(*index as nat),
            Failure::WidthUnknown => FailureView::WidthUnknown,
            Failure::HeightUnknown => FailureView::HeightUnknown,
            Failure::AudioNotStarted => FailureView::AudioNotStarted,
            Failure::EncoderNotSpawned => FailureView::EncoderNotSpawned,
            Failure::StdinMissing => FailureView::StdinMissing,
            Failure::InterruptNotInstalled => FailureView::InterruptNotInstalled,
            Failure::CaptureFailed(cause) => FailureView::CaptureFailed(cause@),
            Failure::EncoderNotAwaited => FailureView::EncoderNotAwaited,
            Failure::EncoderExit(status) => FailureView::EncoderExit(status@),
            Failure::VideoNotRenamed => FailureView::VideoNotRenamed,
            Failure::MuxNotRun => FailureView::MuxNotRun,
            Failure::MuxExit(status) => FailureView::MuxExit(status@),
        }
    }
}

impl FailureView {
    /// The text that the user is shown.
    pub open spec fn message(self) -> Seq<char> {
        match self {
            FailureView::FfmpegMissing => "Không tìm thấy `ffmpeg` trong PATH. Hãy tải FFmpeg tại https://ffmpeg.org/download.html (bản 'essentials' hoặc 'full' cho Windows), giải nén, và thêm thư mục chứa ffmpeg.exe vào PATH."@,
            FailureView::MonitorNotFound(index) => "Không tìm thấy màn hình #"@
                + crate::text::decimal(index)
                + ". Hãy kiểm tra lại chỉ số màn hình."@,
            FailureView::WidthUnknown => "Không lấy được chiều rộng màn hình"@,
            FailureView::HeightUnknown => "Không lấy được chiều cao màn hình"@,
            FailureView::AudioNotStarted => "Khởi tạo audio capturer thất bại"@,
            FailureView::EncoderNotSpawned => "Không chạy được `ffmpeg` — hãy cài FFmpeg (https://ffmpeg.org/download.html) và đảm bảo nó có trong PATH."@,
            FailureView::StdinMissing => "Không lấy được stdin của tiến trình FFmpeg"@,
            FailureView::InterruptNotInstalled => "Không đăng ký được trình xử lý Ctrl+C"@,
            FailureView::CaptureFailed(cause) => "Quay màn hình thất bại: "@ + cause,
            FailureView::EncoderNotAwaited => "Chờ tiến trình FFmpeg kết thúc thất bại"@,
            FailureView::EncoderExit(status) => "FFmpeg (encode video) thoát với mã lỗi: "@
                + status,
            FailureView::VideoNotRenamed => "Không đổi tên file video thành output cuối cùng"@,
            FailureView::MuxNotRun => "Không chạy được `ffmpeg` để mux audio/video"@,
            FailureView::MuxExit(status) => "FFmpeg thoát với mã lỗi khi mux: "@ + status,
        }
    }

    /// Whether the error of the failed call is reported below the message.
    pub open spec fn wraps_cause(self) -> bool {
        match self {
            FailureView::WidthUnknown
            | FailureView::HeightUnknown
            | FailureView::AudioNotStarted
            | FailureView::EncoderNotSpawned
            | FailureView::InterruptNotInstalled
            | FailureView::EncoderNotAwaited
            | FailureView::VideoNotRenamed
            | FailureView::MuxNotRun => true,
            _ => false,
        }
    }

    /// Whether the encoder process is killed before the program ends. It is,
    /// exactly when the screen capture failed: then no one feeds it any more and
    /// no one waits for it.
    pub open spec fn kills_encoder(self) -> bool {
        self is CaptureFailed
    }
}

impl Failure {
    /// The text that the user is shown.
    pub fn message(&self) -> (res: String)
        ensures
            res@ == self@.message(),
    {
        match self {
            Failure::FfmpegMissing => "Không tìm thấy `ffmpeg` trong PATH. Hãy tải FFmpeg tại https://ffmpeg.org/download.html (bản 'essentials' hoặc 'full' cho Windows), giải nén, và thêm thư mục chứa ffmpeg.exe vào PATH.".to_owned(),
            Failure::MonitorNotFound(index) => {
                let mut res = joined(
                    "Không tìm thấy màn hình #",
                    decimal_text(*index as u64).as_str(),
                );
                res.append(". Hãy kiểm tra lại chỉ số màn hình.");
                res
            },
            Failure::WidthUnknown => "Không lấy được chiều rộng màn hình".to_owned(),
            Failure::HeightUnknown => "Không lấy được chiều cao màn hình".to_owned(),
            Failure::AudioNotStarted => "Khởi tạo audio capturer thất bại".to_owned(),
            Failure::EncoderNotSpawned => "Không chạy được `ffmpeg` — hãy cài FFmpeg (https://ffmpeg.org/download.html) và đảm bảo nó có trong PATH.".to_owned(),
            Failure::StdinMissing => "Không lấy được stdin của tiến trình FFmpeg".to_owned(),
            Failure::InterruptNotInstalled => "Không đăng ký được trình xử lý Ctrl+C".to_owned(),
            Failure::CaptureFailed(cause) => joined("Quay màn hình thất bại: ", cause.as_str()),
            Failure::EncoderNotAwaited => "Chờ tiến trình FFmpeg kết thúc thất bại".to_owned(),
            Failure::EncoderExit(status) => joined(
                "FFmpeg (encode video) thoát với mã lỗi: ",
                status.as_str(),
            ),
            Failure::VideoNotRenamed => "Không đổi tên file video thành output cuối cùng".to_owned(),
            Failure::MuxNotRun => "Không chạy được `ffmpeg` để mux audio/video".to_owned(),
            Failure::MuxExit(status) => joined(
                "FFmpeg thoát với mã lỗi khi mux: ",
                status.as_str(),
            ),
        }
    }

    /// Whether the error of the failed call is reported below the message.
    pub fn wraps_cause(&self) -> (res: bool)
        ensures
            res == self@.wraps_cause(),
    {
        match self {
            Failure::WidthUnknown
            | Failure::HeightUnknown
            | Failure::AudioNotStarted
            | Failure::EncoderNotSpawned
            | Failure::InterruptNotInstalled
            | Failure::EncoderNotAwaited
            | Failure::VideoNotRenamed
            | Failure::MuxNotRun => true,
            _ => false,
        }
    }

    /// Whether the encoder process is killed before the program ends.
    pub fn kills_encoder(&self) -> (res: bool)
        ensures
            res == self@.kills_encoder(),
    {
        match self {
            Failure::CaptureFailed(_) => true,
            _ => false,
        }
    }
}

/// What the user is told of each failure: the monitor that is missing by its
/// index, a failed capture by its error, and a process that ended badly by its
/// status.
pub proof fn law_each_failure_has_its_message(index: nat, text: Seq<char>)
    ensures
        FailureView::FfmpegMissing.message()
            == "Không tìm thấy `ffmpeg` trong PATH. Hãy tải FFmpeg tại https://ffmpeg.org/download.html (bản 'essentials' hoặc 'full' cho Windows), giải nén, và thêm thư mục chứa ffmpeg.exe vào PATH."@,
        FailureView::MonitorNotFound(index).message() == "Không tìm thấy màn hình #"@
            + crate::text::decimal(index) + ". Hãy kiểm tra lại chỉ số màn hình."@,
        FailureView::WidthUnknown.message() == "Không lấy được chiều rộng màn hình"@,
        FailureView::HeightUnknown.message() == "Không lấy được chiều cao màn hình"@,
        FailureView::AudioNotStarted.message() == "Khởi tạo audio capturer thất bại"@,
        FailureView::EncoderNotSpawned.message()
            == "Không chạy được `ffmpeg` — hãy cài FFmpeg (https://ffmpeg.org/download.html) và đảm bảo nó có trong PATH."@,
        FailureView::StdinMissing.message() == "Không lấy được stdin của tiến trình FFmpeg"@,
        FailureView::InterruptNotInstalled.message() == "Không đăng ký được trình xử lý Ctrl+C"@,
        FailureView::CaptureFailed(text).message() == "Quay màn hình thất bại: "@ + text,
        FailureView::EncoderNotAwaited.message() == "Chờ tiến trình FFmpeg kết thúc thất bại"@,
        FailureView::EncoderExit(text).message() == "FFmpeg (encode video) thoát với mã lỗi: "@
            + text,
        FailureView::VideoNotRenamed.message()
            == "Không đổi tên file video thành output cuối cùng"@,
        FailureView::MuxNotRun.message() == "Không chạy được `ffmpeg` để mux audio/video"@,
        FailureView::MuxExit(text).message() == "FFmpeg thoát với mã lỗi khi mux: "@ + text,
{
}

/// Which failures are reported with the error below them: those of a call that
/// gave an error which the message does not hold. And only a failed capture
/// kills the encoder.
pub proof fn law_how_each_failure_is_reported(failure: FailureView)
    ensures
        failure.wraps_cause() <==> !(failure is FfmpegMissing || failure is MonitorNotFound
            || failure is StdinMissing || failure is CaptureFailed || failure is EncoderExit
            || failure is MuxExit),
        failure.kills_encoder() <==> failure is CaptureFailed,
{
}

/// The model of a failure says which one it is and holds its index or its text.
pub proof fn law_failure_model_is_faithful(failure: Failure)
    ensures
        failure matches Failure::MonitorNotFound(index) ==> failure@
            == FailureView::MonitorNotFound(index as nat),
        failure matches Failure::CaptureFailed(text) ==> failure@ == FailureView::CaptureFailed(
            text@,
        ),
        failure matches Failure::EncoderExit(text) ==> failure@ == FailureView::EncoderExit(text@),
        failure matches Failure::MuxExit(text) ==> failure@ == FailureView::MuxExit(text@),
        failure is FfmpegMissing <==> failure@ is FfmpegMissing,
        failure is MonitorNotFound <==> failure@ is MonitorNotFound,
        failure is WidthUnknown <==> failure@ is WidthUnknown,
        failure is HeightUnknown <==> failure@ is HeightUnknown,
        failure is AudioNotStarted <==> failure@ is AudioNotStarted,
        failure is EncoderNotSpawned <==> failure@ is EncoderNotSpawned,
        failure is StdinMissing <==> failure@ is StdinMissing,
        failure is InterruptNotInstalled <==> failure@ is InterruptNotInstalled,
        failure is CaptureFailed <==> failure@ is CaptureFailed,
        failure is EncoderNotAwaited <==> failure@ is EncoderNotAwaited,
        failure is EncoderExit <==> failure@ is EncoderExit,
        failure is VideoNotRenamed <==> failure@ is VideoNotRenamed,
        failure is MuxNotRun <==> failure@ is MuxNotRun,
        failure is MuxExit <==> failure@ is MuxExit,
{
}

} // verus!
