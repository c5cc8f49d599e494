use autoclicker::{
    ActionKind, AppState, ClickSettings, Effects, FunctionKey, KeyState, MouseButton, Notification,
    Outcome, Request, TaskHandle, Trigger, TypeSettings,
};

fn click(delay_ms: u64, button: &str, repeat_limit: u64, is_unlimited: bool) -> ClickSettings {
    ClickSettings { delay_ms, button: button.to_string(), repeat_limit, is_unlimited }
}

fn typing(text: &str, interval_ms: u64) -> TypeSettings {
    TypeSettings {
        text: text.to_string(),
        interval_ms,
        press_enter: true,
        repeat_limit: 2,
        is_unlimited: false,
    }
}

fn launched(effects: &Effects) -> TaskHandle {
    match &effects.launch {
        Some(launch) => launch.handle,
        None => panic!("nothing was launched"),
    }
}

#[test]
fn a_new_state_is_idle_with_default_settings_and_no_hotkeys() {
    let st = AppState::new();
    assert!(!st.is_running(ActionKind::Click));
    assert!(!st.is_running(ActionKind::Type));
    assert_eq!(st.click_settings().delay_ms, 100);
    assert_eq!(st.click_settings().button, "left");
    assert_eq!(st.type_settings().text, "");
    assert_eq!(st.hotkey_for(ActionKind::Click), None);
    assert_eq!(st.hotkey_for(ActionKind::Type), None);
}

#[test]
fn start_clicker_launches_with_the_given_settings() {
    let mut st = AppState::new();
    let e = st.start_clicker(click(0, "right", 3, false));
    assert_eq!(e.cancel, None);
    assert_eq!(e.notify, Some(Notification::Started(ActionKind::Click)));
    assert!(st.is_running(ActionKind::Click));
    assert_eq!(st.running(ActionKind::Click), Some(launched(&e)));
    assert_eq!(st.click_settings().delay_ms, 100);

    let mut task = e.launch.unwrap().task;
    assert_eq!(task.advance(true), Request::Click(MouseButton::Right));
    assert_eq!(task.advance(true), Request::Wait(1));
}

#[test]
fn starting_twice_leaves_one_task_with_the_second_settings() {
    let mut st = AppState::new();
    let first = st.start_clicker(click(10, "left", 3, false));
    let second = st.start_clicker(click(20, "middle", 3, false));
    assert_eq!(second.cancel, Some(launched(&first)));
    assert_eq!(st.running(ActionKind::Click), Some(launched(&second)));
    let mut task = second.launch.unwrap().task;
    assert_eq!(task.advance(true), Request::Click(MouseButton::Middle));
    assert_eq!(task.advance(true), Request::Wait(20));
}

#[test]
fn start_typer_accepts_an_empty_text() {
    let mut st = AppState::new();
    let e = st.start_typer(typing("", 5));
    assert!(st.is_running(ActionKind::Type));
    assert_eq!(e.notify, Some(Notification::Started(ActionKind::Type)));
    let task = e.launch.unwrap().task;
    assert_eq!(task.text(), "");
    assert_eq!(task.kind(), ActionKind::Type);
}

#[test]
fn stop_commands_empty_their_slot_and_notify() {
    let mut st = AppState::new();
    let h = launched(&st.start_clicker(click(1, "left", 1, true)));
    let e = st.stop_clicker();
    assert_eq!(e.cancel, Some(h));
    assert!(e.launch.is_none());
    assert_eq!(e.notify, Some(Notification::Stopped(ActionKind::Click)));
    assert!(!st.is_running(ActionKind::Click));

    let h = launched(&st.start_typer(typing("x", 5)));
    let e = st.stop_typer();
    assert_eq!(e.cancel, Some(h));
    assert_eq!(e.notify, Some(Notification::Stopped(ActionKind::Type)));
    assert!(!st.is_running(ActionKind::Type));
}

#[test]
fn stop_clicker_on_an_empty_slot_does_nothing() {
    let mut st = AppState::new();
    let never_started = st.stop_clicker();
    assert!(never_started.is_nothing());
    assert_eq!(never_started.notify, None);
    assert!(!st.is_running(ActionKind::Click));

    st.start_clicker(click(1, "left", 1, true));
    assert!(!st.stop_clicker().is_nothing());
    let already_stopped = st.stop_clicker();
    assert!(already_stopped.is_nothing());
    assert!(!st.is_running(ActionKind::Click));

    let e = st.on_hotkey_pressed(ActionKind::Click);
    assert_eq!(e.cancel, None);
    assert_eq!(e.notify, Some(Notification::Started(ActionKind::Click)));
}

#[test]
fn stop_typer_on_an_empty_slot_does_nothing() {
    let mut st = AppState::new();
    st.sync_type_settings(typing("hi", 50));
    st.start_clicker(click(1, "left", 1, true));
    let e = st.stop_typer();
    assert!(e.is_nothing());
    assert_eq!(e.notify, None);
    assert!(!st.is_running(ActionKind::Type));
    assert!(st.is_running(ActionKind::Click));
    assert_eq!(st.type_settings().text, "hi");

    let e = st.on_hotkey_pressed(ActionKind::Type);
    assert_eq!(e.cancel, None);
    assert_eq!(e.notify, Some(Notification::Started(ActionKind::Type)));
    assert!(st.is_running(ActionKind::Type));
}

#[test]
fn synced_settings_are_used_by_the_next_hotkey_start_only() {
    let mut st = AppState::new();
    st.sync_click_settings(click(30, "right", 4, false));
    let e = st.on_hotkey_pressed(ActionKind::Click);
    let mut running = e.launch.unwrap().task;

    st.sync_click_settings(click(60, "middle", 4, false));
    assert!(st.is_running(ActionKind::Click));
    assert_eq!(running.advance(true), Request::Click(MouseButton::Right));
    assert_eq!(running.advance(true), Request::Wait(30));

    st.on_hotkey_pressed(ActionKind::Click);
    let e = st.on_hotkey_pressed(ActionKind::Click);
    let mut next = e.launch.unwrap().task;
    assert_eq!(next.advance(true), Request::Click(MouseButton::Middle));
    assert_eq!(next.advance(true), Request::Wait(60));
}

#[test]
fn three_hotkey_presses_start_stop_and_start_again() {
    let mut st = AppState::new();
    let first = st.on_hotkey_pressed(ActionKind::Click);
    assert!(st.is_running(ActionKind::Click));
    assert_eq!(first.cancel, None);
    assert_eq!(first.notify, Some(Notification::Started(ActionKind::Click)));
    let h1 = launched(&first);

    let second = st.on_hotkey_pressed(ActionKind::Click);
    assert!(!st.is_running(ActionKind::Click));
    assert_eq!(second.cancel, Some(h1));
    assert!(second.launch.is_none());
    assert_eq!(second.notify, Some(Notification::Stopped(ActionKind::Click)));

    let third = st.on_hotkey_pressed(ActionKind::Click);
    assert!(st.is_running(ActionKind::Click));
    assert_eq!(third.cancel, None);
    assert_ne!(launched(&third), h1);
    assert!(!st.is_running(ActionKind::Type));
}

#[test]
fn the_type_hotkey_toggles_once_there_is_text() {
    let mut st = AppState::new();
    st.sync_type_settings(typing("hi", 50));
    let e = st.on_hotkey_pressed(ActionKind::Type);
    assert!(st.is_running(ActionKind::Type));
    let task = e.launch.unwrap().task;
    assert_eq!(task.text(), "hi");
    st.on_hotkey_pressed(ActionKind::Type);
    assert!(!st.is_running(ActionKind::Type));
    st.on_hotkey_pressed(ActionKind::Type);
    assert!(st.is_running(ActionKind::Type));
}

#[test]
fn the_type_hotkey_does_nothing_without_text_while_idle() {
    let mut st = AppState::new();
    let e = st.on_hotkey_pressed(ActionKind::Type);
    assert!(e.is_nothing());
    assert!(!st.is_running(ActionKind::Type));
    assert_eq!(st.running(ActionKind::Type), None);
}

#[test]
fn the_type_hotkey_stops_a_running_task_even_without_text() {
    let mut st = AppState::new();
    let h = launched(&st.start_typer(typing("payload", 5)));
    assert_eq!(st.type_settings().text, "");
    let e = st.on_hotkey_pressed(ActionKind::Type);
    assert_eq!(e.cancel, Some(h));
    assert_eq!(e.notify, Some(Notification::Stopped(ActionKind::Type)));
    assert!(!st.is_running(ActionKind::Type));
    assert!(st.on_hotkey_pressed(ActionKind::Type).is_nothing());
}

#[test]
fn rebinding_with_one_bad_identifier_binds_the_other() {
    let mut st = AppState::new();
    st.sync_type_settings(typing("hi", 50));
    let b = st.update_hotkeys("F5", "bogus");
    assert_eq!(b.key_for(ActionKind::Click), Some(FunctionKey::F5));
    assert_eq!(b.key_for(ActionKind::Type), None);
    assert_eq!(st.hotkey_for(ActionKind::Click), Some(FunctionKey::F5));
    assert_eq!(st.hotkey_for(ActionKind::Type), None);

    let e = st.on_key_pressed(FunctionKey::F5);
    assert_eq!(e.notify, Some(Notification::Started(ActionKind::Click)));
    assert!(st.is_running(ActionKind::Click));
    for key in [FunctionKey::F1, FunctionKey::F6, FunctionKey::F12] {
        assert!(st.on_key_pressed(key).is_nothing());
    }
    assert!(!st.is_running(ActionKind::Type));
}

#[test]
fn a_later_rebind_leaves_nothing_of_the_earlier_one() {
    let mut st = AppState::new();
    st.sync_type_settings(typing("hi", 50));
    st.update_hotkeys("F5", "F6");
    st.update_hotkeys("F7", "F8");
    assert!(st.on_key_pressed(FunctionKey::F5).is_nothing());
    assert!(st.on_key_pressed(FunctionKey::F6).is_nothing());
    assert!(!st.is_running(ActionKind::Click));
    assert!(!st.is_running(ActionKind::Type));

    st.on_key_pressed(FunctionKey::F7);
    assert!(st.is_running(ActionKind::Click));
    st.on_key_pressed(FunctionKey::F8);
    assert!(st.is_running(ActionKind::Type));

    st.update_hotkeys("none", "none");
    assert_eq!(st.hotkey_for(ActionKind::Click), None);
    assert_eq!(st.hotkey_for(ActionKind::Type), None);
    assert!(st.on_key_pressed(FunctionKey::F7).is_nothing());
    assert!(st.is_running(ActionKind::Click));
}

#[test]
fn rebinding_does_not_touch_tasks_or_settings() {
    let mut st = AppState::new();
    st.sync_click_settings(click(9, "right", 1, false));
    let h = launched(&st.start_clicker(click(1, "left", 1, true)));
    st.update_hotkeys("F1", "F2");
    assert_eq!(st.running(ActionKind::Click), Some(h));
    assert_eq!(st.click_settings().delay_ms, 9);
}

#[test]
fn a_task_that_reached_its_limit_frees_its_slot_for_the_next_press() {
    let mut st = AppState::new();
    st.sync_click_settings(click(1, "left", 1, false));
    let h = launched(&st.on_hotkey_pressed(ActionKind::Click));
    assert!(st.task_ended(h, Outcome::LimitReached));
    assert!(!st.is_running(ActionKind::Click));
    let e = st.on_hotkey_pressed(ActionKind::Click);
    assert_eq!(e.notify, Some(Notification::Started(ActionKind::Click)));
    assert_ne!(launched(&e), h);

    assert!(!st.task_ended(h, Outcome::LimitReached));
    assert!(st.is_running(ActionKind::Click));
}

#[test]
fn after_a_failure_the_next_press_stops() {
    for outcome in [Outcome::InjectionFailed, Outcome::InjectorUnavailable] {
        let mut st = AppState::new();
        let h = launched(&st.on_hotkey_pressed(ActionKind::Click));
        assert!(!st.task_ended(h, outcome));
        assert!(st.is_running(ActionKind::Click));
        let e = st.on_hotkey_pressed(ActionKind::Click);
        assert_eq!(e.cancel, Some(h));
        assert!(e.launch.is_none());
        assert_eq!(e.notify, Some(Notification::Stopped(ActionKind::Click)));
        assert!(!st.is_running(ActionKind::Click));
    }
}

#[test]
fn a_task_knows_what_launched_it() {
    let mut st = AppState::new();
    st.sync_type_settings(typing("hi", 50));
    let by_command = st.start_clicker(click(1, "left", 1, false)).launch.unwrap().task;
    assert_eq!(by_command.trigger(), Trigger::Command);
    let by_command = st.start_typer(typing("x", 1)).launch.unwrap().task;
    assert_eq!(by_command.trigger(), Trigger::Command);

    st.stop_clicker();
    st.stop_typer();
    let by_hotkey = st.on_hotkey_pressed(ActionKind::Click).launch.unwrap().task;
    assert_eq!(by_hotkey.trigger(), Trigger::Hotkey);
    st.update_hotkeys("F1", "F2");
    let mut by_key = st.on_key_pressed(FunctionKey::F2).launch.unwrap().task;
    assert_eq!(by_key.trigger(), Trigger::Hotkey);
    by_key.advance(true);
    by_key.advance(false);
    assert_eq!(by_key.log_label(), Some("Hotkey type error"));
}

#[test]
fn only_the_press_of_a_key_counts() {
    let mut st = AppState::new();
    st.update_hotkeys("F3", "F4");
    assert!(st.on_key_event(FunctionKey::F3, KeyState::Released).is_nothing());
    assert!(!st.is_running(ActionKind::Click));

    let e = st.on_key_event(FunctionKey::F3, KeyState::Pressed);
    assert_eq!(e.notify, Some(Notification::Started(ActionKind::Click)));
    assert!(st.is_running(ActionKind::Click));
    assert!(st.on_key_event(FunctionKey::F3, KeyState::Released).is_nothing());
    assert!(st.is_running(ActionKind::Click));

    let e = st.on_key_event(FunctionKey::F3, KeyState::Pressed);
    assert_eq!(e.notify, Some(Notification::Stopped(ActionKind::Click)));
    assert!(st.on_key_event(FunctionKey::F9, KeyState::Pressed).is_nothing());
}
