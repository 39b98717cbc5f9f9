# speakly

The verified core of Speakly, a push-to-talk dictation tool for the desktop:
it records speech, transcribes it (through the OpenAI API or locally with
whisper.cpp), can rewrite the text with an AI command, and pastes the result
into the focused application.

- `src/` is the library, checked by Verus: command prompts and request checks
  (`ai`, `stt`, `local`), JSON answers (`json`), the clipboard injection flow
  (`inject`), the model download flow (`download`), recording decisions
  (`recording`), the WAV file (`wav`), settings and tray behaviour
  (`settings`, `tray`), and text helpers (`text`).
- `app/` is the Tauri shell: windows, tray, audio capture, HTTP, the file
  system, and the signal processing on floating-point samples.
- `tests/` runs the library with the real `serde_json` and `hound`.
