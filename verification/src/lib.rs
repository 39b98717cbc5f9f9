//! Speakly: the decision logic of a push-to-talk dictation tool, verified.
//!
//! The library holds what the desktop shell decides and computes: which prompt
//! an AI command uses, how API keys and HTTP answers are judged, how replies are
//! read, how the clipboard injection proceeds, when silence stops a recording,
//! how the 16 kHz WAV payload is laid out, and how the model download is
//! checked. The shell around it performs the I/O.

pub mod text;
pub mod json;
pub mod ai;
pub mod stt;
pub mod local;
pub mod download;
pub mod recording;
pub mod wav;
pub mod inject;
pub mod settings;
pub mod tray;
