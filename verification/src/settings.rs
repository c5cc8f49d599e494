//! User-facing settings of the two repeating actions.

use vstd::prelude::*;

verus! {

/// Which repeating behaviour a slot, a configuration or a task refers to.
#[derive(Clone, Copy, Debug, PartialEq, Eq, Structural)]
pub enum ActionKind {
    Click,
    Type,
}

/// The mouse button a click task presses.
#[derive(Clone, Copy, Debug, PartialEq, Eq, Structural)]
pub enum MouseButton {
    Left,
    Right,
    Middle,
}

/// The button that a button name stands for. Names other than `right` and
/// `middle` are not errors: they mean the left button.
pub open spec fn button_named(name: Seq<char>) -> MouseButton {
    if name == "right"@ {
        MouseButton::Right
    } else if name == "middle"@ {
        MouseButton::Middle
    } else {
        MouseButton::Left
    }
}

/// A pause of zero milliseconds is raised to one; any other is kept.
pub open spec fn at_least_one(ms: u64) -> u64 {
    if ms == 0 {
        1
    } else {
        ms
    }
}

/// Settings of the click action, as the user interface sends them.
#[derive(Debug)]
pub struct ClickSettings {
    pub delay_ms: u64,
    pub button: String,
    pub repeat_limit: u64,
    pub is_unlimited: bool,
}

/// What a `ClickSettings` value holds.
pub struct ClickSettingsView {
    pub delay_ms: u64,
    pub button: Seq<char>,
    pub repeat_limit: u64,
    pub is_unlimited: bool,
}

impl View for ClickSettings {
    type V = ClickSettingsView;

    open spec fn view(&self) -> ClickSettingsView {
        ClickSettingsView {
            delay_ms: self.delay_ms,
            button: self.button@,
            repeat_limit: self.repeat_limit,
            is_unlimited: self.is_unlimited,
        }
    }
}

impl ClickSettingsView {
    /// The settings a fresh process starts with.
    pub open spec fn initial() -> ClickSettingsView {
        ClickSettingsView {
            delay_ms: 100,
            button: "left"@,
            repeat_limit: 10,
            is_unlimited: true,
        }
    }

    /// Time between two clicks, never zero.
    pub open spec fn pause_ms(self) -> u64 {
        at_least_one(self.delay_ms)
    }

    /// The button to press.
    pub open spec fn mouse_button(self) -> MouseButton {
        button_named(self.button)
    }
}

impl Default for ClickSettings {
    fn default() -> (r: ClickSettings)
        ensures
            r@ == ClickSettingsView::initial(),
    {
        ClickSettings {
            delay_ms: 100,
            button: "left".to_owned(),
            repeat_limit: 10,
            is_unlimited: true,
        }
    }
}

impl Clone for ClickSettings {
    fn clone(&self) -> (r: ClickSettings)
        ensures
            r@ == self@,
    {
        ClickSettings {
            delay_ms: self.delay_ms,
            button: self.button.clone(),
            repeat_limit: self.repeat_limit,
            is_unlimited: self.is_unlimited,
        }
    }
}

impl ClickSettings {
    /// Time between two clicks in milliseconds: the configured delay, with
    /// zero raised to one.
    pub fn pause_ms(&self) -> (ms: u64)
        ensures
            ms == self@.pause_ms(),
            ms >= 1,
    {
        if self.delay_ms == 0 {
            1
        } else {
            self.delay_ms
        }
    }

    /// The button that `button` names; an unknown name means the left one.
    pub fn mouse_button(&self) -> (b: MouseButton)
        ensures
            b == self@.mouse_button(),
    {
        let right = "right".to_owned();
        let middle = "middle".to_owned();
        if self.button == right {
            MouseButton::Right
        } else if self.button == middle {
            MouseButton::Middle
        } else {
            MouseButton::Left
        }
    }
}

/// Settings of the type action, as the user interface sends them.
#[derive(Debug)]
pub struct TypeSettings {
    pub text: String,
    pub interval_ms: u64,
    pub press_enter: bool,
    pub repeat_limit: u64,
    pub is_unlimited: bool,
}

/// What a `TypeSettings` value holds.
pub struct TypeSettingsView {
    pub text: Seq<char>,
    pub interval_ms: u64,
    pub press_enter: bool,
    pub repeat_limit: u64,
    pub is_unlimited: bool,
}

impl View for TypeSettings {
    type V = TypeSettingsView;

    open spec fn view(&self) -> TypeSettingsView {
        TypeSettingsView {
            text: self.text@,
            interval_ms: self.interval_ms,
            press_enter: self.press_enter,
            repeat_limit: self.repeat_limit,
            is_unlimited: self.is_unlimited,
        }
    }
}

impl TypeSettingsView {
    /// The settings a fresh process starts with.
    pub open spec fn initial() -> TypeSettingsView {
        TypeSettingsView {
            text: Seq::empty(),
            interval_ms: 1000,
            press_enter: true,
            repeat_limit: 10,
            is_unlimited: true,
        }
    }

    /// Time between two repeats, never zero.
    pub open spec fn pause_ms(self) -> u64 {
        at_least_one(self.interval_ms)
    }

    /// Settings without a payload are valid but start nothing from a hotkey.
    pub open spec fn is_inert(self) -> bool {
        self.text.len() == 0
    }
}

impl Default for TypeSettings {
    fn default() -> (r: TypeSettings)
        ensures
            r@ == TypeSettingsView::initial(),
    {
        TypeSettings {
            text: String::new(),
            interval_ms: 1000,
            press_enter: true,
            repeat_limit: 10,
            is_unlimited: true,
        }
    }
}

impl Clone for TypeSettings {
    fn clone(&self) -> (r: TypeSettings)
        ensures
            r@ == self@,
    {
        TypeSettings {
            text: self.text.clone(),
            interval_ms: self.interval_ms,
            press_enter: self.press_enter,
            repeat_limit: self.repeat_limit,
            is_unlimited: self.is_unlimited,
        }
    }
}

impl TypeSettings {
    /// Time between two repeats in milliseconds: the configured interval,
    /// with zero raised to one.
    pub fn pause_ms(&self) -> (ms: u64)
        ensures
            ms == self@.pause_ms(),
            ms >= 1,
    {
        if self.interval_ms == 0 {
            1
        } else {
            self.interval_ms
        }
    }

    /// Whether there is no text to type.
    pub fn is_inert(&self) -> (b: bool)
        ensures
            b == self@.is_inert(),
    {
        self.text.as_str().is_empty()
    }
}

/// The latest settings of each action kind. A task reads them when it is
/// launched; later edits reach it only when it is started again.
pub struct SettingsStore {
    click: ClickSettings,
    typing: TypeSettings,
}

/// What a `SettingsStore` holds.
pub struct SettingsStoreView {
    pub click: ClickSettingsView,
    pub typing: TypeSettingsView,
}

impl View for SettingsStore {
    type V = SettingsStoreView;

    closed spec fn view(&self) -> SettingsStoreView {
        SettingsStoreView { click: self.click@, typing: self.typing@ }
    }
}

impl SettingsStoreView {
    /// Both kinds at their initial settings.
    pub open spec fn initial() -> SettingsStoreView {
        SettingsStoreView {
            click: ClickSettingsView::initial(),
            typing: TypeSettingsView::initial(),
        }
    }
}

impl SettingsStore {
    /// A store that holds the initial settings of both kinds.
    pub fn new() -> (s: SettingsStore)
        ensures
            s@ == SettingsStoreView::initial(),
    {
        SettingsStore { click: ClickSettings::default(), typing: TypeSettings::default() }
    }

    /// A private copy of the click settings as they stand.
    pub fn click_settings(&self) -> (c: ClickSettings)
        ensures
            c@ == self@.click,
    {
        self.click.clone()
    }

    /// A private copy of the type settings as they stand.
    pub fn type_settings(&self) -> (t: TypeSettings)
        ensures
            t@ == self@.typing,
    {
        self.typing.clone()
    }

    /// Replaces the click settings as a whole; the type settings stay.
    pub fn set_click_settings(&mut self, settings: ClickSettings)
        ensures
            final(self)@ == (SettingsStoreView { click: settings@, ..old(self)@ }),
    {
        self.click = settings;
    }

    /// Replaces the type settings as a whole; the click settings stay.
    pub fn set_type_settings(&mut self, settings: TypeSettings)
        ensures
            final(self)@ == (SettingsStoreView { typing: settings@, ..old(self)@ }),
    {
        self.typing = settings;
    }
}

} // verus!
