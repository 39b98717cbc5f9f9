use speakly::settings::{cancelled_download_setting, first_run_settings, SettingValue};
use speakly::tray::{menu_action, tray_click_action, MenuAction, TrayAction, TrayClick};

fn show(entries: &[(String, SettingValue)]) -> Vec<String> {
    entries
        .iter()
        .map(|(k, v)| match v {
            SettingValue::Text(t) => format!("{}={}", k, t),
            SettingValue::Flag(b) => format!("{}={}", k, b),
        })
        .collect()
}

#[test]
fn defaults_are_written_only_on_first_start() {
    assert_eq!(
        show(&first_run_settings(false)),
        vec!["hotkey=CommandOrControl+Shift+Space", "stt_mode=cloud", "initialized=true"]
    );
    assert!(first_run_settings(true).is_empty());
    assert_eq!(show(&[cancelled_download_setting()]), vec!["stt_mode=cloud"]);
}

#[test]
fn menu_and_tray_clicks() {
    assert!(matches!(menu_action("quit"), MenuAction::Quit));
    assert!(matches!(menu_action("settings"), MenuAction::Ignore));
    let left_up = || Some(TrayClick { left_button: true, released: true });
    assert!(matches!(tray_click_action(left_up(), Some(true)), TrayAction::Hide));
    assert!(matches!(tray_click_action(left_up(), Some(false)), TrayAction::ShowAtTray));
    assert!(matches!(tray_click_action(left_up(), None), TrayAction::Nothing));
    let left_down = Some(TrayClick { left_button: true, released: false });
    assert!(matches!(tray_click_action(left_down, Some(true)), TrayAction::Nothing));
    let right_up = Some(TrayClick { left_button: false, released: true });
    assert!(matches!(tray_click_action(right_up, Some(false)), TrayAction::Nothing));
    assert!(matches!(tray_click_action(None, Some(false)), TrayAction::Nothing));
}
