use speakly::recording::{choose_input_device, DeviceChoice, LevelThrottle};

#[test]
fn level_is_reported_every_fourth_frame() {
    let mut t = LevelThrottle::new();
    let seen: Vec<bool> = (0..12).map(|_| t.tick()).collect();
    assert_eq!(
        seen,
        vec![false, false, false, true, false, false, false, true, false, false, false, true]
    );
}

fn pick(wanted: Option<&str>, names: Option<&Vec<Option<String>>>) -> Option<usize> {
    match choose_input_device(wanted, names) {
        DeviceChoice::Named(i) => Some(i),
        DeviceChoice::Default => None,
    }
}

#[test]
fn input_device_by_name() {
    let names = vec![
        Some("Built-in".to_string()),
        None,
        Some("USB Mic".to_string()),
        Some("USB Mic".to_string()),
    ];
    assert_eq!(pick(Some("USB Mic"), Some(&names)), Some(2));
    assert_eq!(pick(Some("Built-in"), Some(&names)), Some(0));
    assert_eq!(pick(Some("usb mic"), Some(&names)), None);
    assert_eq!(pick(None, Some(&names)), None);
    assert_eq!(pick(Some("USB Mic"), None), None);
    let empty: Vec<Option<String>> = vec![];
    assert_eq!(pick(Some("USB Mic"), Some(&empty)), None);
}
