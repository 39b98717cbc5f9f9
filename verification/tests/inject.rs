use speakly::inject::{
    accessibility_error, paste_modifier, should_restore_clipboard, InjectAction, InjectEvent,
    InjectFlow, PasteModifier, Platform, POST_PASTE_DELAY_MS, PRE_PASTE_DELAY_MS,
};

#[test]
fn test_clipboard_restore() {
    let original = Some("vorheriger Inhalt".to_string());
    assert!(
        should_restore_clipboard(&original),
        "Clipboard soll wiederhergestellt werden wenn original vorhanden"
    );
}

#[test]
fn test_no_original() {
    let original: Option<String> = None;
    assert!(!should_restore_clipboard(&original), "Kein Clipboard-Restore wenn original None");
}

#[test]
fn test_delays_are_correct() {
    let pre_paste_delay_ms: u64 = PRE_PASTE_DELAY_MS;
    let post_paste_delay_ms: u64 = POST_PASTE_DELAY_MS;
    assert_eq!(pre_paste_delay_ms, 50, "Pre-Paste-Delay soll 50ms sein (D-17)");
    assert_eq!(post_paste_delay_ms, 500, "Post-Paste-Delay soll 500ms sein (D-13)");
}

fn describe(a: &InjectAction) -> String {
    match a {
        InjectAction::ReadClipboard => "read".to_string(),
        InjectAction::WriteClipboard(t) => format!("write:{}", t),
        InjectAction::Wait(ms) => format!("wait:{}", ms),
        InjectAction::Paste => "paste".to_string(),
        InjectAction::RestoreClipboard(t) => format!("restore:{}", t),
        InjectAction::Finish(Ok(())) => "ok".to_string(),
        InjectAction::Finish(Err(e)) => format!("err:{}", e),
    }
}

fn drive(text: &str, events: Vec<InjectEvent>) -> Vec<String> {
    let (mut flow, first) = InjectFlow::start(text);
    let mut out = vec![describe(&first)];
    for ev in events {
        assert!(flow.accepts(&ev));
        out.push(describe(&flow.step(ev)));
    }
    out
}

#[test]
fn smooth_injection_restores_the_saved_text() {
    let out = drive(
        "Hallo",
        vec![
            InjectEvent::ClipboardRead(Some("alt".to_string())),
            InjectEvent::Written(Ok(())),
            InjectEvent::Waited,
            InjectEvent::Pasted(Ok(())),
            InjectEvent::Waited,
            InjectEvent::Restored,
        ],
    );
    assert_eq!(
        out,
        vec!["read", "write:Hallo", "wait:50", "paste", "wait:500", "restore:alt", "ok"]
    );
}

#[test]
fn smooth_injection_without_saved_text() {
    let out = drive(
        "Hallo",
        vec![
            InjectEvent::ClipboardRead(None),
            InjectEvent::Written(Ok(())),
            InjectEvent::Waited,
            InjectEvent::Pasted(Ok(())),
            InjectEvent::Waited,
        ],
    );
    assert_eq!(out, vec!["read", "write:Hallo", "wait:50", "paste", "wait:500", "ok"]);
}

#[test]
fn failures_end_the_injection() {
    let out = drive(
        "x",
        vec![
            InjectEvent::ClipboardRead(Some("alt".to_string())),
            InjectEvent::Written(Err("kaputt".to_string())),
        ],
    );
    assert_eq!(out, vec!["read", "write:x", "err:kaputt"]);
    let out = drive(
        "x",
        vec![
            InjectEvent::ClipboardRead(Some("alt".to_string())),
            InjectEvent::Written(Ok(())),
            InjectEvent::Waited,
            InjectEvent::Pasted(Err("keine Rechte".to_string())),
        ],
    );
    assert_eq!(out, vec!["read", "write:x", "wait:50", "paste", "err:keine Rechte"]);
}

#[test]
fn events_out_of_turn_are_not_accepted() {
    let (flow, _) = InjectFlow::start("x");
    assert!(!flow.accepts(&InjectEvent::Waited));
    assert!(!flow.accepts(&InjectEvent::Restored));
    assert!(flow.accepts(&InjectEvent::ClipboardRead(None)));
}

#[test]
fn paste_shortcut_per_platform() {
    assert!(matches!(paste_modifier(Platform::MacOs), Some(PasteModifier::Meta)));
    assert!(matches!(paste_modifier(Platform::Windows), Some(PasteModifier::Control)));
    assert!(paste_modifier(Platform::Other).is_none());
    assert_eq!(accessibility_error("nope"), "Accessibility-Berechtigung benoetigt: nope");
}
