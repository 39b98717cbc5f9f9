//! Injecting text into the focused application: save the clipboard, write the
//! text, wait, paste, wait, restore the clipboard. The shell performs each
//! action and reports back; this module decides the next one.

use vstd::prelude::*;

verus! {

/// Milliseconds between writing the clipboard and pasting.
pub const PRE_PASTE_DELAY_MS: u64 = 50;

/// Milliseconds between pasting and restoring the clipboard.
pub const POST_PASTE_DELAY_MS: u64 = 500;

/// The start of the message when no keyboard can be simulated.
pub const ACCESSIBILITY_PREFIX: &'static str = "Accessibility-Berechtigung benoetigt: ";

/// What the shell is asked to do next.
pub enum InjectAction {
    /// Read the current clipboard text.
    ReadClipboard,
    /// Put this text on the clipboard.
    WriteClipboard(String),
    /// Sleep this many milliseconds.
    Wait(u64),
    /// Press the paste shortcut.
    Paste,
    /// Put this earlier clipboard text back.
    RestoreClipboard(String),
    /// The injection is over, with this outcome.
    Finish(Result<(), String>),
}

/// What the shell reports after an action.
pub enum InjectEvent {
    /// The clipboard held this text, or no text could be read.
    ClipboardRead(Option<String>),
    /// The clipboard was written, or failed with this message.
    Written(Result<(), String>),
    /// The wait is over.
    Waited,
    /// The paste shortcut was pressed, or failed with this message.
    Pasted(Result<(), String>),
    /// The restore was attempted; a failure there is only logged.
    Restored,
}

/// Where an injection stands.
pub enum InjectPhase {
    Reading,
    Writing,
    WaitingBeforePaste,
    Pasting,
    WaitingAfterPaste,
    Restoring,
    Done,
}

/// An injection in progress.
pub struct InjectFlow {
    /// The text to inject.
    pub text: String,
    /// The clipboard text saved before the injection.
    pub original: Option<String>,
    /// The step the injection waits on.
    pub phase: InjectPhase,
}

/// Whether the flow in `phase` waits for `event`.
pub open spec fn spec_accepts(phase: InjectPhase, event: InjectEvent) -> bool {
    match phase {
        InjectPhase::Reading => event is ClipboardRead,
        InjectPhase::Writing => event is Written,
        InjectPhase::WaitingBeforePaste => event is Waited,
        InjectPhase::Pasting => event is Pasted,
        InjectPhase::WaitingAfterPaste => event is Waited,
        InjectPhase::Restoring => event is Restored,
        InjectPhase::Done => false,
    }
}

/// The flow after `event`, and the action it asks for.
pub open spec fn spec_next(flow: InjectFlow, event: InjectEvent) -> (InjectFlow, InjectAction) {
    match event {
        InjectEvent::ClipboardRead(o) => (
            InjectFlow { text: flow.text, original: o, phase: InjectPhase::Writing },
            InjectAction::WriteClipboard(flow.text),
        ),
        InjectEvent::Written(Err(e)) => (
            InjectFlow { phase: InjectPhase::Done, ..flow },
            InjectAction::Finish(Err(e)),
        ),
        InjectEvent::Written(Ok(())) => (
            InjectFlow { phase: InjectPhase::WaitingBeforePaste, ..flow },
            InjectAction::Wait(PRE_PASTE_DELAY_MS),
        ),
        InjectEvent::Waited => if flow.phase is WaitingBeforePaste {
            (InjectFlow { phase: InjectPhase::Pasting, ..flow }, InjectAction::Paste)
        } else {
            match flow.original {
                Some(o) => (
                    InjectFlow { phase: InjectPhase::Restoring, ..flow },
                    InjectAction::RestoreClipboard(o),
                ),
                None => (
                    InjectFlow { phase: InjectPhase::Done, ..flow },
                    InjectAction::Finish(Ok(())),
                ),
            }
        },
        InjectEvent::Pasted(Err(e)) => (
            InjectFlow { phase: InjectPhase::Done, ..flow },
            InjectAction::Finish(Err(e)),
        ),
        InjectEvent::Pasted(Ok(())) => (
            InjectFlow { phase: InjectPhase::WaitingAfterPaste, ..flow },
            InjectAction::Wait(POST_PASTE_DELAY_MS),
        ),
        InjectEvent::Restored => (
            InjectFlow { phase: InjectPhase::Done, ..flow },
            InjectAction::Finish(Ok(())),
        ),
    }
}

impl InjectFlow {
    /// Starts injecting `text`; the first action reads the clipboard.
    pub fn start(text: &str) -> (r: (InjectFlow, InjectAction))
        ensures
            r.0.text@ == text@,
            r.0.original is None,
            r.0.phase is Reading,
            r.1 is ReadClipboard,
    {
        (
            InjectFlow { text: String::from_str(text), original: None, phase: InjectPhase::Reading },
            InjectAction::ReadClipboard,
        )
    }

    /// Whether the flow waits for `event`.
    pub fn accepts(&self, event: &InjectEvent) -> (r: bool)
        ensures
            r == spec_accepts(self.phase, *event),
    {
        match self.phase {
            InjectPhase::Reading => matches!(event, InjectEvent::ClipboardRead(_)),
            InjectPhase::Writing => matches!(event, InjectEvent::Written(_)),
            InjectPhase::WaitingBeforePaste => matches!(event, InjectEvent::Waited),
            InjectPhase::Pasting => matches!(event, InjectEvent::Pasted(_)),
            InjectPhase::WaitingAfterPaste => matches!(event, InjectEvent::Waited),
            InjectPhase::Restoring => matches!(event, InjectEvent::Restored),
            InjectPhase::Done => false,
        }
    }

    /// Takes the report of the last action and returns the next action.
    pub fn step(&mut self, event: InjectEvent) -> (r: InjectAction)
        requires
            spec_accepts(old(self).phase, event),
        ensures
            (*final(self), r) == spec_next(*old(self), event),
    {
        match event {
            InjectEvent::ClipboardRead(o) => {
                self.original = o;
                self.phase = InjectPhase::Writing;
                InjectAction::WriteClipboard(self.text.clone())
            },
            InjectEvent::Written(Err(e)) => {
                self.phase = InjectPhase::Done;
                InjectAction::Finish(Err(e))
            },
            InjectEvent::Written(Ok(())) => {
                self.phase = InjectPhase::WaitingBeforePaste;
                InjectAction::Wait(PRE_PASTE_DELAY_MS)
            },
            InjectEvent::Waited => {
                if matches!(self.phase, InjectPhase::WaitingBeforePaste) {
                    self.phase = InjectPhase::Pasting;
                    InjectAction::Paste
                } else {
                    match &self.original {
                        Some(o) => {
                            let saved = o.clone();
                            self.phase = InjectPhase::Restoring;
                            InjectAction::RestoreClipboard(saved)
                        },
                        None => {
                            self.phase = InjectPhase::Done;
                            InjectAction::Finish(Ok(()))
                        },
                    }
                }
            },
            InjectEvent::Pasted(Err(e)) => {
                self.phase = InjectPhase::Done;
                InjectAction::Finish(Err(e))
            },
            InjectEvent::Pasted(Ok(())) => {
                self.phase = InjectPhase::WaitingAfterPaste;
                InjectAction::Wait(POST_PASTE_DELAY_MS)
            },
            InjectEvent::Restored => {
                self.phase = InjectPhase::Done;
                InjectAction::Finish(Ok(()))
            },
        }
    }
}

/// The actions a flow asks for while it takes `events` in order.
pub open spec fn run_actions(flow: InjectFlow, events: Seq<InjectEvent>) -> Seq<InjectAction>
    decreases events.len(),
{
    if events.len() == 0 {
        Seq::empty()
    } else {
        let (after, action) = spec_next(flow, events[0]);
        seq![action] + run_actions(after, events.drop_first())
    }
}

/// Whether the flow waits for each of `events` when it comes.
pub open spec fn run_accepted(flow: InjectFlow, events: Seq<InjectEvent>) -> bool
    decreases events.len(),
{
    events.len() == 0 || (spec_accepts(flow.phase, events[0]) && run_accepted(
        spec_next(flow, events[0]).0,
        events.drop_first(),
    ))
}

/// The flow once it has taken `events` in order.
pub open spec fn run_final(flow: InjectFlow, events: Seq<InjectEvent>) -> InjectFlow
    decreases events.len(),
{
    if events.len() == 0 {
        flow
    } else {
        run_final(spec_next(flow, events[0]).0, events.drop_first())
    }
}

/// The reports of an injection in which nothing fails and the clipboard held
/// `original` before.
pub open spec fn smooth_events(original: Option<String>) -> Seq<InjectEvent> {
    seq![
        InjectEvent::ClipboardRead(original),
        InjectEvent::Written(Ok(())),
        InjectEvent::Waited,
        InjectEvent::Pasted(Ok(())),
        InjectEvent::Waited,
    ] + if original is Some {
        seq![InjectEvent::Restored]
    } else {
        Seq::empty()
    }
}

/// An injection in which nothing fails writes the text, waits 50 ms, pastes,
/// waits 500 ms, puts back exactly the clipboard text it found (and nothing
/// when there was none), and ends well. A failure to write the clipboard or to
/// paste ends the injection at once with that failure, and the clipboard is
/// then not restored.
pub proof fn lemma_injection_protocol(flow: InjectFlow, original: Option<String>, e: String)
    requires
        flow.phase is Reading,
    ensures
        run_accepted(flow, smooth_events(original)),
        run_final(flow, smooth_events(original)).phase is Done,
        run_actions(flow, smooth_events(original)) == seq![
            InjectAction::WriteClipboard(flow.text),
            InjectAction::Wait(PRE_PASTE_DELAY_MS),
            InjectAction::Paste,
            InjectAction::Wait(POST_PASTE_DELAY_MS),
        ] + match original {
            Some(o) => seq![InjectAction::RestoreClipboard(o), InjectAction::Finish(Ok(()))],
            None => seq![InjectAction::Finish(Ok(()))],
        },
        run_actions(
            flow,
            seq![InjectEvent::ClipboardRead(original), InjectEvent::Written(Err(e))],
        ) == seq![InjectAction::WriteClipboard(flow.text), InjectAction::Finish(Err(e))],
        run_final(
            flow,
            seq![InjectEvent::ClipboardRead(original), InjectEvent::Written(Err(e))],
        ).phase is Done,
        run_actions(
            flow,
            seq![
                InjectEvent::ClipboardRead(original),
                InjectEvent::Written(Ok(())),
                InjectEvent::Waited,
                InjectEvent::Pasted(Err(e)),
            ],
        ) == seq![
            InjectAction::WriteClipboard(flow.text),
            InjectAction::Wait(PRE_PASTE_DELAY_MS),
            InjectAction::Paste,
            InjectAction::Finish(Err(e)),
        ],
        run_final(
            flow,
            seq![
                InjectEvent::ClipboardRead(original),
                InjectEvent::Written(Ok(())),
                InjectEvent::Waited,
                InjectEvent::Pasted(Err(e)),
            ],
        ).phase is Done,
{
    reveal_with_fuel(run_actions, 7);
    reveal_with_fuel(run_accepted, 7);
    reveal_with_fuel(run_final, 7);
}

/// Whether the clipboard is restored after pasting: only when text was saved.
pub fn should_restore_clipboard(original: &Option<String>) -> (r: bool)
    ensures
        r == original is Some,
{
    original.is_some()
}

/// The message when the keyboard cannot be simulated, with the `detail` of the
/// failure.
pub fn accessibility_error(detail: &str) -> (r: String)
    ensures
        r@ == ACCESSIBILITY_PREFIX@ + detail@,
{
    String::from_str(ACCESSIBILITY_PREFIX).concat(detail)
}

/// The platforms the paste shortcut is known for.
pub enum Platform {
    MacOs,
    Windows,
    Other,
}

/// The modifier key held while `v` is pressed.
pub enum PasteModifier {
    /// The Command key.
    Meta,
    /// The Control key.
    Control,
}

/// The paste shortcut's modifier on `platform`: Command on macOS, Control on
/// Windows, and no shortcut elsewhere.
pub fn paste_modifier(platform: Platform) -> (r: Option<PasteModifier>)
    ensures
        platform is MacOs ==> r matches Some(PasteModifier::Meta),
        platform is Windows ==> r matches Some(PasteModifier::Control),
        platform is Other ==> r is None,
{
    match platform {
        Platform::MacOs => Some(PasteModifier::Meta),
        Platform::Windows => Some(PasteModifier::Control),
        Platform::Other => None,
    }
}

} // verus!
