//! The download of the local whisper model: the expected file, progress
//! bookkeeping, and the check that the file arrived whole.

use vstd::prelude::*;

use crate::text::{decimal, decimal_text};

verus! {

/// Where the `ggml-base.bin` model is fetched from.
pub const WHISPER_BASE_URL: &'static str = "https://huggingface.co/ggerganov/whisper.cpp/resolve/main/ggml-base.bin";

/// The size in bytes of a complete `ggml-base.bin`.
pub const WHISPER_BASE_SIZE: u64 = 147_964_211;

/// Seconds after which the download request is abandoned.
pub const DOWNLOAD_TIMEOUT_SECS: u64 = 300;

/// Reported when the downloaded file does not have the expected size.
pub const CORRUPT_MODEL_ERROR: &'static str = "Modell-Datei beschaedigt — Download unvollstaendig";

/// Whether a model file of `size` bytes is complete.
pub fn is_model_complete(size: u64) -> (r: bool)
    ensures
        r == (size == WHISPER_BASE_SIZE),
{
    size == WHISPER_BASE_SIZE
}

/// The steps of the download whose failure is reported with the detail of the
/// underlying error.
pub enum DownloadStep {
    Request,
    ReadChunk,
    WriteChunk,
}

/// The start of the message for a failure in `step`.
pub open spec fn step_prefix(step: DownloadStep) -> Seq<char> {
    match step {
        DownloadStep::Request => "Netzwerkfehler beim Download: "@,
        DownloadStep::ReadChunk => "Fehler beim Lesen des Downloads: "@,
        DownloadStep::WriteChunk => "Fehler beim Schreiben: "@,
    }
}

/// The message for a failure in `step`, with its `detail`.
pub fn download_failure(step: DownloadStep, detail: &str) -> (r: String)
    ensures
        r@ == step_prefix(step) + detail@,
{
    let prefix = match step {
        DownloadStep::Request => String::from_str("Netzwerkfehler beim Download: "),
        DownloadStep::ReadChunk => String::from_str("Fehler beim Lesen des Downloads: "),
        DownloadStep::WriteChunk => String::from_str("Fehler beim Schreiben: "),
    };
    prefix.concat(detail)
}

/// The message for an answer whose status is not a success; `status` is the
/// status as the HTTP library prints it.
pub fn http_failure(status: &str) -> (r: String)
    ensures
        r@ == "Download fehlgeschlagen: HTTP "@ + status@,
{
    String::from_str("Download fehlgeschlagen: HTTP ").concat(status)
}

/// What is reported for a model file of the wrong size.
pub struct CorruptModel {
    /// The message of the error event shown to the user.
    pub event_message: String,
    /// The error the download ends with.
    pub error: String,
}

/// The message of the error event for a file of `actual` bytes.
pub open spec fn corrupt_event_message(actual: u64) -> Seq<char> {
    "Modell-Datei beschaedigt (Groesse: "@ + decimal(actual as nat) + " statt "@ + decimal(
        WHISPER_BASE_SIZE as nat,
    ) + "). Bitte erneut versuchen."@
}

/// Accepts the downloaded file only when it has the size of a complete model.
pub fn verify_model_size(actual: u64) -> (r: Result<(), CorruptModel>)
    ensures
        r is Ok <==> actual == WHISPER_BASE_SIZE,
        r matches Err(c) ==> c.error@ == CORRUPT_MODEL_ERROR@ && c.event_message@
            == corrupt_event_message(actual),
{
    if is_model_complete(actual) {
        return Ok(());
    }
    let mut event_message = String::from_str("Modell-Datei beschaedigt (Groesse: ");
    event_message.append(decimal_text(actual).as_str());
    event_message.append(" statt ");
    event_message.append(decimal_text(WHISPER_BASE_SIZE).as_str());
    event_message.append("). Bitte erneut versuchen.");
    Err(CorruptModel { event_message, error: String::from_str(CORRUPT_MODEL_ERROR) })
}

/// The head of the server's answer.
pub struct ResponseHead {
    /// The status is in 200..=299.
    pub success: bool,
    /// The status as the HTTP library prints it, such as `404 Not Found`.
    pub status: String,
    /// The announced length of the body, if any.
    pub content_length: Option<u64>,
}

/// What the shell reports after an action of the download.
pub enum DownloadEvent {
    /// The model's directory and file were created, or that failed.
    Prepared(Result<(), String>),
    /// The server answered, or the request failed on the way with this detail.
    Answered(Result<ResponseHead, String>),
    /// The next chunk of the body: `None` at its end, or the number of bytes
    /// read, or the detail of a read failure.
    ChunkRead(Option<Result<u64, String>>),
    /// The chunk was appended to the file, or writing failed with this detail.
    ChunkWritten(Result<(), String>),
    /// The file was closed and has this many bytes (0 when its size cannot be
    /// read).
    SizeMeasured(u64),
}

/// What the shell is asked to do next.
pub enum DownloadAction {
    /// Send the request for the model.
    Request,
    /// Read the next chunk of the body.
    ReadChunk,
    /// Append the chunk just read to the file.
    WriteChunk,
    /// Report the progress, then read the next chunk.
    ReportAndReadNext { downloaded: u64, total: u64 },
    /// Close the file and measure it.
    MeasureFile,
    /// The download succeeded: announce it.
    Complete,
    /// The download failed: remove the partial file if asked, announce the
    /// error event with its message, and end with `error`.
    Fail { remove_file: bool, error_event: Option<String>, error: String },
}

/// Where a download stands.
pub enum DownloadPhase {
    Preparing,
    Requesting,
    Reading,
    Writing,
    Measuring,
    Done,
}

/// A download in progress.
pub struct DownloadFlow {
    /// The step the download waits on.
    pub phase: DownloadPhase,
    /// The number of bytes the download is expected to have.
    pub total: u64,
    /// The bytes written to the file so far.
    pub downloaded: u64,
    /// The length of the chunk being written.
    pub pending: u64,
}

/// Whether the flow waits for `event`; a chunk that would carry the byte count
/// past `u64::MAX` is not taken.
pub open spec fn download_accepts(flow: DownloadFlow, event: DownloadEvent) -> bool {
    match flow.phase {
        DownloadPhase::Preparing => event is Prepared,
        DownloadPhase::Requesting => event is Answered,
        DownloadPhase::Reading => event is ChunkRead,
        DownloadPhase::Writing => event is ChunkWritten && (event matches DownloadEvent::ChunkWritten(
            Ok(()),
        ) ==> flow.downloaded + flow.pending <= u64::MAX),
        DownloadPhase::Measuring => event is SizeMeasured,
        DownloadPhase::Done => false,
    }
}

/// A failure with this message, removing the file or not, whose error event
/// carries the same message.
pub open spec fn fails_with(action: DownloadAction, remove: bool, message: Seq<char>) -> bool {
    match action {
        DownloadAction::Fail { remove_file, error_event, error } => remove_file == remove && error@
            == message && match error_event {
            Some(m) => m@ == message,
            None => false,
        },
        _ => false,
    }
}

/// A failure that ends with `error` and announces it in the error event.
fn failure(remove_file: bool, error: String) -> (r: DownloadAction)
    ensures
        fails_with(r, remove_file, error@),
{
    DownloadAction::Fail { remove_file, error_event: Some(error.clone()), error }
}

/// How the download moves from `old` to `new` on `event`, asking for `action`.
pub open spec fn download_step(
    old: DownloadFlow,
    event: DownloadEvent,
    new: DownloadFlow,
    action: DownloadAction,
) -> bool {
    match event {
        DownloadEvent::Prepared(Err(e)) => new.phase is Done && fails_with(action, false, e@),
        DownloadEvent::Prepared(Ok(())) => new == DownloadFlow {
            phase: DownloadPhase::Requesting,
            ..old
        } && action is Request,
        DownloadEvent::Answered(Err(d)) => new.phase is Done && fails_with(
            action,
            true,
            step_prefix(DownloadStep::Request) + d@,
        ),
        DownloadEvent::Answered(Ok(head)) => if head.success {
            &&& new.phase is Reading
            &&& new.total == match head.content_length {
                Some(n) => n,
                None => WHISPER_BASE_SIZE,
            }
            &&& new.downloaded == 0
            &&& action is ReadChunk
        } else {
            new.phase is Done && fails_with(
                action,
                true,
                "Download fehlgeschlagen: HTTP "@ + head.status@,
            )
        },
        DownloadEvent::ChunkRead(None) => new == DownloadFlow {
            phase: DownloadPhase::Measuring,
            ..old
        } && action is MeasureFile,
        DownloadEvent::ChunkRead(Some(Err(d))) => new.phase is Done && fails_with(
            action,
            true,
            step_prefix(DownloadStep::ReadChunk) + d@,
        ),
        DownloadEvent::ChunkRead(Some(Ok(len))) => new == DownloadFlow {
            phase: DownloadPhase::Writing,
            pending: len,
            ..old
        } && action is WriteChunk,
        DownloadEvent::ChunkWritten(Err(d)) => new.phase is Done && fails_with(
            action,
            true,
            step_prefix(DownloadStep::WriteChunk) + d@,
        ),
        DownloadEvent::ChunkWritten(Ok(())) => {
            &&& new == DownloadFlow {
                phase: DownloadPhase::Reading,
                downloaded: (old.downloaded + old.pending) as u64,
                ..old
            }
            &&& action == DownloadAction::ReportAndReadNext {
                downloaded: new.downloaded,
                total: new.total,
            }
        },
        DownloadEvent::SizeMeasured(n) => new.phase is Done && if n == WHISPER_BASE_SIZE {
            action is Complete
        } else {
            match action {
                DownloadAction::Fail { remove_file, error_event, error } => remove_file && error@
                    == CORRUPT_MODEL_ERROR@ && match error_event {
                    Some(m) => m@ == corrupt_event_message(n),
                    None => false,
                },
                _ => false,
            }
        },
    }
}

impl DownloadFlow {
    /// Starts a download; the first action creates the model's directory and
    /// file.
    pub fn start() -> (r: DownloadFlow)
        ensures
            r.phase is Preparing,
            r.downloaded == 0,
    {
        DownloadFlow { phase: DownloadPhase::Preparing, total: 0, downloaded: 0, pending: 0 }
    }

    /// Whether the flow waits for `event`.
    pub fn accepts(&self, event: &DownloadEvent) -> (r: bool)
        ensures
            r == download_accepts(*self, *event),
    {
        match self.phase {
            DownloadPhase::Preparing => matches!(event, DownloadEvent::Prepared(_)),
            DownloadPhase::Requesting => matches!(event, DownloadEvent::Answered(_)),
            DownloadPhase::Reading => matches!(event, DownloadEvent::ChunkRead(_)),
            DownloadPhase::Writing => match event {
                DownloadEvent::ChunkWritten(Ok(())) => self.pending <= u64::MAX - self.downloaded,
                DownloadEvent::ChunkWritten(Err(_)) => true,
                _ => false,
            },
            DownloadPhase::Measuring => matches!(event, DownloadEvent::SizeMeasured(_)),
            DownloadPhase::Done => false,
        }
    }

    /// Takes the report of the last action and returns the next action.
    pub fn step(&mut self, event: DownloadEvent) -> (r: DownloadAction)
        requires
            download_accepts(*old(self), event),
        ensures
            download_step(*old(self), event, *final(self), r),
    {
        match event {
            DownloadEvent::Prepared(Err(e)) => {
                self.phase = DownloadPhase::Done;
                failure(false, e)
            },
            DownloadEvent::Prepared(Ok(())) => {
                self.phase = DownloadPhase::Requesting;
                DownloadAction::Request
            },
            DownloadEvent::Answered(Err(d)) => {
                self.phase = DownloadPhase::Done;
                failure(true, download_failure(DownloadStep::Request, d.as_str()))
            },
            DownloadEvent::Answered(Ok(head)) => {
                if head.success {
                    self.phase = DownloadPhase::Reading;
                    self.total = match head.content_length {
                        Some(n) => n,
                        None => WHISPER_BASE_SIZE,
                    };
                    self.downloaded = 0;
                    DownloadAction::ReadChunk
                } else {
                    self.phase = DownloadPhase::Done;
                    failure(true, http_failure(head.status.as_str()))
                }
            },
            DownloadEvent::ChunkRead(None) => {
                self.phase = DownloadPhase::Measuring;
                DownloadAction::MeasureFile
            },
            DownloadEvent::ChunkRead(Some(Err(d))) => {
                self.phase = DownloadPhase::Done;
                failure(true, download_failure(DownloadStep::ReadChunk, d.as_str()))
            },
            DownloadEvent::ChunkRead(Some(Ok(len))) => {
                self.phase = DownloadPhase::Writing;
                self.pending = len;
                DownloadAction::WriteChunk
            },
            DownloadEvent::ChunkWritten(Err(d)) => {
                self.phase = DownloadPhase::Done;
                failure(true, download_failure(DownloadStep::WriteChunk, d.as_str()))
            },
            DownloadEvent::ChunkWritten(Ok(())) => {
                self.phase = DownloadPhase::Reading;
                self.downloaded = self.downloaded + self.pending;
                DownloadAction::ReportAndReadNext { downloaded: self.downloaded, total: self.total }
            },
            DownloadEvent::SizeMeasured(n) => {
                self.phase = DownloadPhase::Done;
                match verify_model_size(n) {
                    Ok(()) => DownloadAction::Complete,
                    Err(c) => DownloadAction::Fail {
                        remove_file: true,
                        error_event: Some(c.event_message),
                        error: c.error,
                    },
                }
            },
        }
    }
}

/// Every failure is announced by an error event. Every failure after the
/// model's file was created removes the partial file; only a failure to create
/// it leaves nothing to remove. The download succeeds
/// only with a file of exactly the model's size, and each written chunk adds
/// exactly its length to the count of downloaded bytes.
pub proof fn lemma_download_cleanup(
    old: DownloadFlow,
    event: DownloadEvent,
    new: DownloadFlow,
    action: DownloadAction,
)
    requires
        download_accepts(old, event),
        download_step(old, event, new, action),
    ensures
        action matches DownloadAction::Fail { remove_file, .. } ==> remove_file == !(
        old.phase is Preparing),
        action matches DownloadAction::Fail { error_event, .. } ==> error_event is Some,
        action is Fail || action is Complete <==> new.phase is Done,
        action is Complete ==> event == DownloadEvent::SizeMeasured(WHISPER_BASE_SIZE),
        old.phase is Writing && !(new.phase is Done) ==> new.downloaded == old.downloaded
            + old.pending,
{
}

} // verus!
