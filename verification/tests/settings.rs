use autoclicker::{ClickSettings, MouseButton, SettingsStore, TypeSettings};

fn click(delay_ms: u64, button: &str, repeat_limit: u64, is_unlimited: bool) -> ClickSettings {
    ClickSettings { delay_ms, button: button.to_string(), repeat_limit, is_unlimited }
}

#[test]
fn click_settings_start_at_their_defaults() {
    let s = ClickSettings::default();
    assert_eq!(s.delay_ms, 100);
    assert_eq!(s.button, "left");
    assert_eq!(s.repeat_limit, 10);
    assert!(s.is_unlimited);
}

#[test]
fn type_settings_start_at_their_defaults() {
    let s = TypeSettings::default();
    assert_eq!(s.text, "");
    assert_eq!(s.interval_ms, 1000);
    assert!(s.press_enter);
    assert_eq!(s.repeat_limit, 10);
    assert!(s.is_unlimited);
    assert!(s.is_inert());
}

#[test]
fn zero_delay_is_raised_to_one_millisecond() {
    assert_eq!(click(0, "left", 1, false).pause_ms(), 1);
    assert_eq!(click(1, "left", 1, false).pause_ms(), 1);
    assert_eq!(click(250, "left", 1, false).pause_ms(), 250);
    assert_eq!(click(u64::MAX, "left", 1, false).pause_ms(), u64::MAX);
}

#[test]
fn zero_interval_is_raised_to_one_millisecond() {
    let mut s = TypeSettings::default();
    s.interval_ms = 0;
    assert_eq!(s.pause_ms(), 1);
    s.interval_ms = 50;
    assert_eq!(s.pause_ms(), 50);
}

#[test]
fn button_names_are_read_exactly() {
    assert_eq!(click(1, "left", 1, false).mouse_button(), MouseButton::Left);
    assert_eq!(click(1, "right", 1, false).mouse_button(), MouseButton::Right);
    assert_eq!(click(1, "middle", 1, false).mouse_button(), MouseButton::Middle);
}

#[test]
fn unknown_button_names_mean_the_left_button() {
    for name in ["", "Right", "RIGHT", "middle ", "centre", "rightt", "x"] {
        assert_eq!(click(1, name, 1, false).mouse_button(), MouseButton::Left, "{name:?}");
    }
}

#[test]
fn text_decides_whether_type_settings_are_inert() {
    let mut s = TypeSettings::default();
    assert!(s.is_inert());
    s.text = " ".to_string();
    assert!(!s.is_inert());
    s.text = "hello".to_string();
    assert!(!s.is_inert());
}

#[test]
fn a_clone_holds_the_same_values() {
    let s = click(7, "middle", 3, false);
    let c = s.clone();
    assert_eq!(c.delay_ms, 7);
    assert_eq!(c.button, "middle");
    assert_eq!(c.repeat_limit, 3);
    assert!(!c.is_unlimited);
    let mut t = TypeSettings::default();
    t.text = "abc".to_string();
    t.press_enter = false;
    let d = t.clone();
    assert_eq!(d.text, "abc");
    assert!(!d.press_enter);
    assert_eq!(d.interval_ms, 1000);
}

#[test]
fn the_store_begins_with_defaults_and_keeps_what_it_is_given() {
    let mut store = SettingsStore::new();
    assert_eq!(store.click_settings().delay_ms, 100);
    assert_eq!(store.type_settings().interval_ms, 1000);

    store.set_click_settings(click(5, "right", 2, false));
    let c = store.click_settings();
    assert_eq!((c.delay_ms, c.button.as_str(), c.repeat_limit, c.is_unlimited), (5, "right", 2, false));
    assert_eq!(store.type_settings().interval_ms, 1000);

    let mut t = TypeSettings::default();
    t.text = "hi".to_string();
    t.interval_ms = 20;
    store.set_type_settings(t);
    assert_eq!(store.type_settings().text, "hi");
    assert_eq!(store.type_settings().interval_ms, 20);
    assert_eq!(store.click_settings().delay_ms, 5);
}
