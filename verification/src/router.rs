//! The trigger router and the command surface.
//!
//! `AppState` owns the settings store, the task supervisor and the hotkey
//! bindings. Explicit commands and key presses both end here, so whichever
//! comes first finds the state the other left. The shell keeps one
//! `AppState` behind one lock and carries out the effects it is handed.

use vstd::prelude::*;
use crate::hotkey::{bindings_for, FunctionKey, HotkeyBindings, KeyState};
use crate::settings::{ActionKind, ClickSettings, SettingsStore, SettingsStoreView, TypeSettings};
use crate::supervisor::{Effects, EffectsView, SupervisorView, TaskHandle, TaskSupervisor};
use crate::task::{Outcome, RepeatTask, TaskView, Trigger};

verus! {

/// The whole state as the contracts see it.
pub struct AppStateView {
    pub settings: SettingsStoreView,
    pub supervisor: SupervisorView,
    pub bindings: Map<FunctionKey, ActionKind>,
}

impl AppStateView {
    /// Initial settings, no task, no key bound.
    pub open spec fn initial() -> AppStateView {
        AppStateView {
            settings: SettingsStoreView::initial(),
            supervisor: SupervisorView::initial(),
            bindings: Map::empty(),
        }
    }

    pub open spec fn is_running(self, kind: ActionKind) -> bool {
        self.supervisor.is_running(kind)
    }

    /// The task that the stored settings of `kind` describe.
    pub open spec fn stored_task(self, kind: ActionKind) -> TaskView {
        match kind {
            ActionKind::Click => TaskView::fresh_click(self.settings.click, Trigger::Hotkey),
            ActionKind::Type => TaskView::fresh_type(self.settings.typing, Trigger::Hotkey),
        }
    }

    /// Whether a hotkey press for `kind` finds nothing to do: no task of
    /// the kind is running, and the kind is the type action with no text
    /// stored.
    pub open spec fn hotkey_is_idle(self, kind: ActionKind) -> bool {
        !self.is_running(kind) && kind == ActionKind::Type && self.settings.typing.is_inert()
    }

    /// The state after a start of `task`.
    pub open spec fn after_start(self, task: TaskView) -> AppStateView {
        AppStateView { supervisor: self.supervisor.started(task.kind()), ..self }
    }

    /// The state after a stop of `kind`.
    pub open spec fn after_stop(self, kind: ActionKind) -> AppStateView {
        AppStateView { supervisor: self.supervisor.stopped(kind), ..self }
    }

    /// The state after a hotkey press for `kind`: a running task is
    /// stopped; otherwise one is started from the stored settings, unless
    /// there is nothing to type.
    pub open spec fn after_hotkey(self, kind: ActionKind) -> AppStateView {
        if self.is_running(kind) {
            self.after_stop(kind)
        } else if self.hotkey_is_idle(kind) {
            self
        } else {
            self.after_start(self.stored_task(kind))
        }
    }

    /// What a hotkey press for `kind` asks of the shell.
    pub open spec fn hotkey_effects(self, kind: ActionKind) -> EffectsView {
        if self.is_running(kind) {
            self.supervisor.stop_effects(kind)
        } else if self.hotkey_is_idle(kind) {
            EffectsView::nothing()
        } else {
            self.supervisor.start_effects(self.stored_task(kind))
        }
    }

    /// The state after the press of a key: the hotkey press of the kind the
    /// key is bound to, and no change for a key that is not bound.
    pub open spec fn after_key(self, key: FunctionKey) -> AppStateView {
        if self.bindings.contains_key(key) {
            self.after_hotkey(self.bindings[key])
        } else {
            self
        }
    }

    /// What the press of a key asks of the shell.
    pub open spec fn key_effects(self, key: FunctionKey) -> EffectsView {
        if self.bindings.contains_key(key) {
            self.hotkey_effects(self.bindings[key])
        } else {
            EffectsView::nothing()
        }
    }

    /// The state after the hotkeys were bound anew.
    pub open spec fn rebound(self, click_id: Seq<char>, type_id: Seq<char>) -> AppStateView {
        AppStateView { bindings: bindings_for(click_id, type_id), ..self }
    }
}

/// Settings, slots and bindings of one running application.
pub struct AppState {
    settings: SettingsStore,
    supervisor: TaskSupervisor,
    bindings: HotkeyBindings,
}

impl View for AppState {
    type V = AppStateView;

    closed spec fn view(&self) -> AppStateView {
        AppStateView {
            settings: self.settings@,
            supervisor: self.supervisor@,
            bindings: self.bindings@,
        }
    }
}

impl AppState {
    /// The state of a process that has just started.
    pub fn new() -> (state: AppState)
        ensures
            state@ == AppStateView::initial(),
    {
        AppState {
            settings: SettingsStore::new(),
            supervisor: TaskSupervisor::new(),
            bindings: HotkeyBindings::unbound(),
        }
    }

    /// Whether a task of `kind` is running. It changes nothing.
    pub fn is_running(&self, kind: ActionKind) -> (b: bool)
        ensures
            b == self@.is_running(kind),
    {
        self.supervisor.is_running(kind)
    }

    /// The handle of the running task of `kind`, if there is one.
    pub fn running(&self, kind: ActionKind) -> (h: Option<TaskHandle>)
        ensures
            h == self@.supervisor.holder(kind),
    {
        self.supervisor.running(kind)
    }

    /// A copy of the stored click settings.
    pub fn click_settings(&self) -> (c: ClickSettings)
        ensures
            c@ == self@.settings.click,
    {
        self.settings.click_settings()
    }

    /// A copy of the stored type settings.
    pub fn type_settings(&self) -> (t: TypeSettings)
        ensures
            t@ == self@.settings.typing,
    {
        self.settings.type_settings()
    }

    /// The key that is bound to `kind` at present, if one is.
    pub fn hotkey_for(&self, kind: ActionKind) -> (key: Option<FunctionKey>)
        ensures
            match key {
                Some(k) => self@.bindings.contains_pair(k, kind),
                None => forall|k: FunctionKey| !self@.bindings.contains_pair(k, kind),
            },
    {
        self.bindings.key_for(kind)
    }

    /// Starts a click task with the given settings, in place of the one
    /// that may be running. The stored settings play no part and stay as
    /// they are.
    pub fn start_clicker(&mut self, settings: ClickSettings) -> (effects: Effects)
        ensures
            final(self)@ == old(self)@.after_start(TaskView::fresh_click(settings@, Trigger::Command)),
            effects@ == old(self)@.supervisor.start_effects(TaskView::fresh_click(settings@, Trigger::Command)),
            final(self)@.is_running(ActionKind::Click),
    {
        let task = RepeatTask::click(&settings, Trigger::Command);
        self.supervisor.start(task)
    }

    /// Starts a type task with the given settings, in place of the one that
    /// may be running. The stored settings play no part and stay as they
    /// are. An empty text is no obstacle here.
    pub fn start_typer(&mut self, settings: TypeSettings) -> (effects: Effects)
        ensures
            final(self)@ == old(self)@.after_start(TaskView::fresh_type(settings@, Trigger::Command)),
            effects@ == old(self)@.supervisor.start_effects(TaskView::fresh_type(settings@, Trigger::Command)),
            final(self)@.is_running(ActionKind::Type),
    {
        let task = RepeatTask::typing(&settings, Trigger::Command);
        self.supervisor.start(task)
    }

    /// Stops the click task and tells the user interface. Without one
    /// running this does nothing: the state stays as it is, and nothing is
    /// asked of the shell.
    pub fn stop_clicker(&mut self) -> (effects: Effects)
        ensures
            final(self)@ == old(self)@.after_stop(ActionKind::Click),
            effects@ == old(self)@.supervisor.stop_effects(ActionKind::Click),
            !final(self)@.is_running(ActionKind::Click),
            !old(self)@.is_running(ActionKind::Click) ==> final(self)@ == old(self)@ && effects@
                == EffectsView::nothing(),
    {
        self.supervisor.stop(ActionKind::Click)
    }

    /// Stops the type task and tells the user interface. Without one
    /// running this does nothing: the state stays as it is, and nothing is
    /// asked of the shell.
    pub fn stop_typer(&mut self) -> (effects: Effects)
        ensures
            final(self)@ == old(self)@.after_stop(ActionKind::Type),
            effects@ == old(self)@.supervisor.stop_effects(ActionKind::Type),
            !final(self)@.is_running(ActionKind::Type),
            !old(self)@.is_running(ActionKind::Type) ==> final(self)@ == old(self)@ && effects@
                == EffectsView::nothing(),
    {
        self.supervisor.stop(ActionKind::Type)
    }

    /// Stores new click settings. A running task is not touched: it keeps
    /// the settings it was started with.
    pub fn sync_click_settings(&mut self, settings: ClickSettings)
        ensures
            final(self)@ == (AppStateView {
                settings: SettingsStoreView { click: settings@, ..old(self)@.settings },
                ..old(self)@
            }),
    {
        self.settings.set_click_settings(settings);
    }

    /// Stores new type settings. A running task is not touched: it keeps
    /// the settings it was started with.
    pub fn sync_type_settings(&mut self, settings: TypeSettings)
        ensures
            final(self)@ == (AppStateView {
                settings: SettingsStoreView { typing: settings@, ..old(self)@.settings },
                ..old(self)@
            }),
    {
        self.settings.set_type_settings(settings);
    }

    /// Binds the hotkeys anew. The bindings afterwards are those that the
    /// two identifiers ask for and nothing else: no earlier binding is
    /// left. An identifier that names no key leaves its kind without a key
    /// and does not stand in the way of the other. The shell drops every
    /// registration it has and registers the returned bindings.
    pub fn update_hotkeys(&mut self, click_key: &str, type_key: &str) -> (bindings: HotkeyBindings)
        ensures
            final(self)@ == old(self)@.rebound(click_key@, type_key@),
            bindings@ == final(self)@.bindings,
    {
        self.bindings = HotkeyBindings::rebind(click_key, type_key);
        self.bindings
    }

    /// A hotkey of `kind` was pressed: stop the task of that kind if one is
    /// running, else start one from the stored settings. With nothing to
    /// type, a press for the type action starts nothing, changes nothing and
    /// tells nobody; it still stops a type task that is running.
    pub fn on_hotkey_pressed(&mut self, kind: ActionKind) -> (effects: Effects)
        ensures
            final(self)@ == old(self)@.after_hotkey(kind),
            effects@ == old(self)@.hotkey_effects(kind),
    {
        if self.supervisor.is_running(kind) {
            return self.supervisor.stop(kind);
        }
        match kind {
            ActionKind::Click => {
                let settings = self.settings.click_settings();
                let task = RepeatTask::click(&settings, Trigger::Hotkey);
                self.supervisor.start(task)
            },
            ActionKind::Type => {
                let settings = self.settings.type_settings();
                if settings.is_inert() {
                    return Effects::nothing();
                }
                let task = RepeatTask::typing(&settings, Trigger::Hotkey);
                self.supervisor.start(task)
            },
        }
    }

    /// A key was pressed: the hotkey press of the kind it is bound to. A key
    /// that is not bound does nothing.
    pub fn on_key_pressed(&mut self, key: FunctionKey) -> (effects: Effects)
        ensures
            final(self)@ == old(self)@.after_key(key),
            effects@ == old(self)@.key_effects(key),
    {
        match self.bindings.action_for(key) {
            Some(kind) => self.on_hotkey_pressed(kind),
            None => Effects::nothing(),
        }
    }

    /// The hotkey source reports a key stroke. Only the press counts: it is
    /// handled as `on_key_pressed` handles it. The release does nothing.
    pub fn on_key_event(&mut self, key: FunctionKey, stroke: KeyState) -> (effects: Effects)
        ensures
            stroke == KeyState::Pressed ==> final(self)@ == old(self)@.after_key(key) && effects@
                == old(self)@.key_effects(key),
            stroke == KeyState::Released ==> final(self)@ == old(self)@ && effects@
                == EffectsView::nothing(),
    {
        match stroke {
            KeyState::Pressed => self.on_key_pressed(key),
            KeyState::Released => Effects::nothing(),
        }
    }

    /// The task `handle` has ended by itself with `outcome`. Its slot is
    /// emptied if it still holds that task and the task reached its limit;
    /// after a failure the kind counts as running until it is stopped or
    /// started again. Nothing else changes. Returns whether the slot was
    /// emptied.
    pub fn task_ended(&mut self, handle: TaskHandle, outcome: Outcome) -> (emptied: bool)
        ensures
            final(self)@ == (AppStateView {
                supervisor: old(self)@.supervisor.ended(handle, outcome),
                ..old(self)@
            }),
            emptied == (old(self)@.supervisor.holder(handle.kind) == Some(handle) && outcome
                == Outcome::LimitReached),
    {
        self.supervisor.task_ended(handle, outcome)
    }
}

/// A hotkey toggles. Unless the press finds nothing to do, it turns a
/// running kind idle and an idle kind running, so that three presses in a
/// row go from idle to running, to idle, and to running again; the second
/// press cancels the very task that the first launched, and the third
/// launches another. The other kind, the settings and the bindings are never
/// touched.
pub proof fn lemma_hotkey_toggles(state: AppStateView, kind: ActionKind)
    requires
        kind == ActionKind::Click || !state.settings.typing.is_inert(),
    ensures
        state.after_hotkey(kind).is_running(kind) == !state.is_running(kind),
        state.after_hotkey(kind).after_hotkey(kind).is_running(kind) == state.is_running(kind),
        state.after_hotkey(kind).after_hotkey(kind).after_hotkey(kind).is_running(kind)
            == !state.is_running(kind),
        !state.is_running(kind) ==> {
            let first = state.hotkey_effects(kind);
            let second = state.after_hotkey(kind).hotkey_effects(kind);
            let third = state.after_hotkey(kind).after_hotkey(kind).hotkey_effects(kind);
            &&& first.launched() is Some
            &&& first.cancel is None
            &&& second.cancel == first.launched()
            &&& second.launch is None
            &&& third.launched() is Some
            &&& third.launched() != first.launched()
            &&& third.cancel is None
        },
        forall|other: ActionKind|
            other != kind ==> state.after_hotkey(kind).supervisor.slot(other)
                == state.supervisor.slot(other),
        state.after_hotkey(kind).settings == state.settings,
        state.after_hotkey(kind).bindings == state.bindings,
{
}

/// With no text stored, a press of the type hotkey while no type task runs
/// does nothing at all, and a press while one runs stops it as it would
/// with any text.
pub proof fn lemma_inert_type_hotkey(state: AppStateView)
    requires
        state.settings.typing.is_inert(),
    ensures
        !state.is_running(ActionKind::Type) ==> {
            &&& state.after_hotkey(ActionKind::Type) == state
            &&& state.hotkey_effects(ActionKind::Type) == EffectsView::nothing()
        },
        state.is_running(ActionKind::Type) ==> {
            &&& !state.after_hotkey(ActionKind::Type).is_running(ActionKind::Type)
            &&& state.hotkey_effects(ActionKind::Type) == state.supervisor.stop_effects(
                ActionKind::Type,
            )
            &&& state.hotkey_effects(ActionKind::Type).cancel == state.supervisor.holder(
                ActionKind::Type,
            )
        },
{
}

/// Binding anew replaces: after two rebinds in a row only the second
/// counts, and the press of a key that only the first had bound does
/// nothing.
pub proof fn lemma_rebind_replaces(
    state: AppStateView,
    click_a: Seq<char>,
    type_a: Seq<char>,
    click_b: Seq<char>,
    type_b: Seq<char>,
    key: FunctionKey,
)
    ensures
        state.rebound(click_a, type_a).rebound(click_b, type_b) == state.rebound(click_b, type_b),
        !bindings_for(click_b, type_b).contains_key(key) ==> {
            let now = state.rebound(click_a, type_a).rebound(click_b, type_b);
            &&& now.after_key(key) == now
            &&& now.key_effects(key) == EffectsView::nothing()
        },
{
}

} // verus!
