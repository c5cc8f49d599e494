//! The repeating task: inject, count, check the limit, wait, again.
//!
//! A task never acts by itself. It names the one thing its runner has to do
//! next, a `Request`, and is told whether that was carried out. The wait is
//! the only point at which a task can be cancelled: a wait that was cut short
//! ends the task, and no injection follows it.

use vstd::prelude::*;
use crate::settings::{
    ActionKind,
    ClickSettings,
    ClickSettingsView,
    MouseButton,
    TypeSettings,
    TypeSettingsView,
};

verus! {

/// What launched a task: an explicit command of the user interface, or a
/// hotkey.
#[derive(Clone, Copy, Debug, PartialEq, Eq, Structural)]
pub enum Trigger {
    Command,
    Hotkey,
}

/// Why a task ended.
#[derive(Clone, Copy, Debug, PartialEq, Eq, Structural)]
pub enum Outcome {
    /// The task performed as many actions as its limit allows.
    LimitReached,
    /// The injector refused a click, the text or the confirm key.
    InjectionFailed,
    /// The injector could not be set up; no action was attempted.
    InjectorUnavailable,
    /// The task was cancelled during a wait.
    Cancelled,
}

impl Outcome {
    /// Whether the user interface is told that the task has stopped. Only a
    /// task that reached its limit says so itself.
    pub fn notifies_stopped(&self) -> (b: bool)
        ensures
            b == (*self == Outcome::LimitReached),
    {
        match self {
            Outcome::LimitReached => true,
            _ => false,
        }
    }

    /// Whether the end is a failure that belongs in the log.
    pub fn is_failure(&self) -> (b: bool)
        ensures
            b == (*self == Outcome::InjectionFailed || *self == Outcome::InjectorUnavailable),
    {
        match self {
            Outcome::InjectionFailed => true,
            Outcome::InjectorUnavailable => true,
            _ => false,
        }
    }
}

/// What the runner of a task has to do next.
#[derive(Clone, Copy, Debug, PartialEq, Eq, Structural)]
pub enum Request {
    /// Set up the input injector.
    Prepare,
    /// Click the given mouse button once.
    Click(MouseButton),
    /// Type the task's text once.
    TypeText,
    /// Press the confirm key once.
    PressConfirm,
    /// Wait for the given number of milliseconds, at least one, and stop
    /// waiting at once when the task is cancelled.
    Wait(u64),
    /// Nothing more: the task has ended.
    Finish(Outcome),
}

impl Request {
    /// Whether the request is one of the two repeated actions, a click or
    /// the typing of the text.
    pub open spec fn is_action(self) -> bool {
        self is Click || self is TypeText
    }
}

/// The action that a task repeats.
#[derive(Debug)]
pub enum Action {
    Click(MouseButton),
    Type { text: String, press_enter: bool },
}

/// What an `Action` holds.
pub enum ActionView {
    Click(MouseButton),
    Type { text: Seq<char>, press_enter: bool },
}

impl View for Action {
    type V = ActionView;

    open spec fn view(&self) -> ActionView {
        match self {
            Action::Click(button) => ActionView::Click(*button),
            Action::Type { text, press_enter } => ActionView::Type {
                text: text@,
                press_enter: *press_enter,
            },
        }
    }
}

/// The number of completed actions after one more; it stops at the largest
/// number that a counter holds.
pub open spec fn counted_up(count: u64) -> u64 {
    if count < u64::MAX {
        (count + 1) as u64
    } else {
        count
    }
}

/// A task as the contracts see it.
pub struct TaskView {
    pub action: ActionView,
    pub trigger: Trigger,
    pub pause_ms: u64,
    pub repeat_limit: u64,
    pub unlimited: bool,
    /// Actions completed so far.
    pub count: u64,
    /// What the runner has been asked to do and has not yet answered.
    pub pending: Request,
}

impl TaskView {
    /// A click task that has not begun, with the settings' button, limit and
    /// pause.
    pub open spec fn fresh_click(settings: ClickSettingsView, trigger: Trigger) -> TaskView {
        TaskView {
            action: ActionView::Click(settings.mouse_button()),
            trigger,
            pause_ms: settings.pause_ms(),
            repeat_limit: settings.repeat_limit,
            unlimited: settings.is_unlimited,
            count: 0,
            pending: Request::Prepare,
        }
    }

    /// A type task that has not begun, with the settings' text, confirm key,
    /// limit and pause.
    pub open spec fn fresh_type(settings: TypeSettingsView, trigger: Trigger) -> TaskView {
        TaskView {
            action: ActionView::Type { text: settings.text, press_enter: settings.press_enter },
            trigger,
            pause_ms: settings.pause_ms(),
            repeat_limit: settings.repeat_limit,
            unlimited: settings.is_unlimited,
            count: 0,
            pending: Request::Prepare,
        }
    }

    /// Whether the task has not begun: nothing counted, the injector not yet
    /// asked for, and a pause of at least a millisecond.
    pub open spec fn is_fresh(self) -> bool {
        self.count == 0 && self.pending == Request::Prepare && self.pause_ms >= 1
    }

    pub open spec fn kind(self) -> ActionKind {
        match self.action {
            ActionView::Click(_) => ActionKind::Click,
            ActionView::Type { .. } => ActionKind::Type,
        }
    }

    /// The text that `TypeText` asks for; empty for a click task.
    pub open spec fn text(self) -> Seq<char> {
        match self.action {
            ActionView::Click(_) => Seq::empty(),
            ActionView::Type { text, .. } => text,
        }
    }

    /// The request that opens a round.
    pub open spec fn opening(self) -> Request {
        match self.action {
            ActionView::Click(button) => Request::Click(button),
            ActionView::Type { .. } => Request::TypeText,
        }
    }

    /// Whether the confirm key follows the action.
    pub open spec fn confirms(self) -> bool {
        match self.action {
            ActionView::Click(_) => false,
            ActionView::Type { press_enter, .. } => press_enter,
        }
    }

    pub open spec fn is_finished(self) -> bool {
        self.pending is Finish
    }

    /// The number of actions after which a limited task ends: its limit,
    /// and one where the limit is zero, since the limit is looked at only
    /// after an action.
    pub open spec fn quota(self) -> nat {
        if self.repeat_limit == 0 {
            1
        } else {
            self.repeat_limit as nat
        }
    }

    /// The words under which the end of the task is entered in the log. Only
    /// a failure is entered: an injector that could not be set up, or an
    /// injection that was refused. What the injector said of the failure is
    /// the runner's to add.
    pub open spec fn log_label(self) -> Option<Seq<char>> {
        match self.pending {
            Request::Finish(Outcome::InjectorUnavailable) => Some(
                match self.kind() {
                    ActionKind::Click => "Failed to initialize Enigo for clicker"@,
                    ActionKind::Type => "Failed to initialize Enigo for typer"@,
                },
            ),
            Request::Finish(Outcome::InjectionFailed) => Some(
                match (self.trigger, self.kind()) {
                    (Trigger::Command, ActionKind::Click) => "Click error"@,
                    (Trigger::Command, ActionKind::Type) => "Type error"@,
                    (Trigger::Hotkey, ActionKind::Click) => "Hotkey click error"@,
                    (Trigger::Hotkey, ActionKind::Type) => "Hotkey type error"@,
                },
            ),
            _ => None,
        }
    }

    /// The task with `pending` replaced.
    pub open spec fn asking(self, pending: Request) -> TaskView {
        TaskView { pending, ..self }
    }

    /// The task after a round's action, and its confirm key where it has
    /// one: the action is counted, and then the limit decides between the
    /// end and a wait.
    pub open spec fn round_done(self) -> TaskView {
        let count = counted_up(self.count);
        if !self.unlimited && count >= self.repeat_limit {
            TaskView { count, pending: Request::Finish(Outcome::LimitReached), ..self }
        } else {
            TaskView { count, pending: Request::Wait(self.pause_ms), ..self }
        }
    }

    /// The task after its runner has answered the pending request;
    /// `completed` says whether the request was carried out in full.
    pub open spec fn advanced(self, completed: bool) -> TaskView {
        match self.pending {
            Request::Prepare => if completed {
                self.asking(self.opening())
            } else {
                self.asking(Request::Finish(Outcome::InjectorUnavailable))
            },
            Request::Click(_) | Request::TypeText => if !completed {
                self.asking(Request::Finish(Outcome::InjectionFailed))
            } else if self.confirms() {
                self.asking(Request::PressConfirm)
            } else {
                self.round_done()
            },
            Request::PressConfirm => if completed {
                self.round_done()
            } else {
                self.asking(Request::Finish(Outcome::InjectionFailed))
            },
            Request::Wait(_) => if completed {
                self.asking(self.opening())
            } else {
                self.asking(Request::Finish(Outcome::Cancelled))
            },
            Request::Finish(_) => self,
        }
    }
}

impl TaskView {
    /// The task after `steps` requests in a row that were all carried out:
    /// the run of a task with a working injector that nobody cancels.
    pub open spec fn run(self, steps: nat) -> TaskView
        decreases steps,
    {
        if steps == 0 {
            self
        } else {
            self.run((steps - 1) as nat).advanced(true)
        }
    }

    /// The number of actions, clicks or typings of the text, that were
    /// carried out in the first `steps` steps of that run.
    pub open spec fn performed(self, steps: nat) -> nat
        decreases steps,
    {
        if steps == 0 {
            0
        } else {
            let earlier = self.performed((steps - 1) as nat);
            if self.run((steps - 1) as nat).pending.is_action() {
                earlier + 1
            } else {
                earlier
            }
        }
    }

    /// The number of steps that `rounds` rounds take, each with its action,
    /// its confirm key where the task has one, and a step more: the set-up
    /// before the first round, the wait before each later one.
    pub open spec fn steps_of(self, rounds: nat) -> nat {
        if self.confirms() {
            3 * rounds
        } else {
            2 * rounds
        }
    }

    /// Whether two tasks repeat the same action under the same limit and
    /// pause.
    pub open spec fn same_plan(self, other: TaskView) -> bool {
        &&& self.action == other.action
        &&& self.trigger == other.trigger
        &&& self.pause_ms == other.pause_ms
        &&& self.repeat_limit == other.repeat_limit
        &&& self.unlimited == other.unlimited
    }

    /// Where a fresh task with a limit stands after `steps` steps of its
    /// run, told by the number of actions it has performed.
    spec fn limited_on_track(self, steps: nat) -> bool {
        let now = self.run(steps);
        let done = self.performed(steps);
        &&& now.same_plan(self)
        &&& done <= self.quota()
        &&& match now.pending {
            Request::Prepare => steps == 0 && done == 0 && now.count == 0,
            Request::Click(_) | Request::TypeText => {
                &&& now.pending == self.opening()
                &&& now.count == done
                &&& done < self.quota()
                &&& steps == self.steps_of(done) + 1
            },
            Request::PressConfirm => {
                &&& self.confirms()
                &&& now.count + 1 == done
                &&& steps + 1 == self.steps_of(done)
            },
            Request::Wait(ms) => {
                &&& ms == self.pause_ms
                &&& now.count == done
                &&& 1 <= done < self.quota()
                &&& steps == self.steps_of(done)
            },
            Request::Finish(outcome) => {
                &&& outcome == Outcome::LimitReached
                &&& done == self.quota()
                &&& steps >= self.steps_of(done)
            },
        }
    }

    /// Where a fresh task without a limit stands after `steps` steps of its
    /// run.
    spec fn unlimited_on_track(self, steps: nat) -> bool {
        let now = self.run(steps);
        let done = self.performed(steps);
        &&& now.same_plan(self)
        &&& match now.pending {
            Request::Prepare => steps == 0 && done == 0,
            Request::Click(_) | Request::TypeText => {
                &&& now.pending == self.opening()
                &&& steps == self.steps_of(done) + 1
            },
            Request::PressConfirm => {
                &&& self.confirms()
                &&& done >= 1
                &&& steps + 1 == self.steps_of(done)
            },
            Request::Wait(ms) => {
                &&& ms == self.pause_ms
                &&& done >= 1
                &&& steps == self.steps_of(done)
            },
            Request::Finish(_) => false,
        }
    }
}

proof fn lemma_limited_on_track(task: TaskView, steps: nat)
    requires
        task.is_fresh(),
        !task.unlimited,
    ensures
        task.limited_on_track(steps),
    decreases steps,
{
    if steps > 0 {
        lemma_limited_on_track(task, (steps - 1) as nat);
    }
}

proof fn lemma_unlimited_on_track(task: TaskView, steps: nat)
    requires
        task.is_fresh(),
        task.unlimited,
    ensures
        task.unlimited_on_track(steps),
    decreases steps,
{
    if steps > 0 {
        lemma_unlimited_on_track(task, (steps - 1) as nat);
    }
}

/// A task with a limit, run with a working injector and never cancelled,
/// performs as many actions as its quota and no more, ends exactly when
/// the last of them is done, and ends because the limit was reached.
pub proof fn lemma_limited_task_performs_its_quota(task: TaskView, steps: nat)
    requires
        task.is_fresh(),
        !task.unlimited,
    ensures
        task.performed(steps) <= task.quota(),
        task.run(steps).is_finished() <==> steps >= task.steps_of(task.quota()),
        task.run(steps).is_finished() ==> task.performed(steps) == task.quota(),
        task.run(steps).is_finished() ==> task.run(steps).pending == Request::Finish(
            Outcome::LimitReached,
        ),
{
    lemma_limited_on_track(task, steps);
}

/// With a limit of at least one, a task that is let run to its end performs
/// exactly that many actions.
pub proof fn lemma_limit_counts_actions(task: TaskView)
    requires
        task.is_fresh(),
        !task.unlimited,
        task.repeat_limit >= 1,
    ensures
        task.run(task.steps_of(task.quota())).is_finished(),
        task.performed(task.steps_of(task.quota())) == task.repeat_limit,
{
    lemma_limited_task_performs_its_quota(task, task.steps_of(task.quota()));
}

/// With a limit of zero, a task that is let run to its end performs exactly
/// one action: the limit is looked at only after an action.
pub proof fn lemma_zero_limit_performs_one(task: TaskView)
    requires
        task.is_fresh(),
        !task.unlimited,
        task.repeat_limit == 0,
    ensures
        task.run(task.steps_of(1)).is_finished(),
        task.performed(task.steps_of(1)) == 1,
{
    lemma_limited_task_performs_its_quota(task, task.steps_of(1));
}

/// A task without a limit never ends by itself: as long as every request is
/// carried out, it asks for more, and by the end of its `rounds`-th round it
/// has performed `rounds` actions, for every number of rounds.
pub proof fn lemma_unlimited_task_goes_on(task: TaskView, steps: nat, rounds: nat)
    requires
        task.is_fresh(),
        task.unlimited,
    ensures
        !task.run(steps).is_finished(),
        task.performed(task.steps_of(rounds)) == rounds,
{
    lemma_unlimited_on_track(task, steps);
    lemma_unlimited_on_track(task, task.steps_of(rounds));
}

/// Any task, limited or not, ends at once when the injector cannot be set
/// up, when a click, the text or the confirm key is refused, or when its
/// wait is cut short. Nothing is counted for a request that was not carried
/// out. A task that has ended asks for nothing more, whatever it is told.
pub proof fn lemma_failure_or_cancellation_ends_task(task: TaskView, completed: bool)
    ensures
        task.pending is Prepare ==> task.advanced(false).pending == Request::Finish(
            Outcome::InjectorUnavailable,
        ),
        task.pending.is_action() || task.pending is PressConfirm ==> task.advanced(false).pending
            == Request::Finish(Outcome::InjectionFailed),
        task.pending is Wait ==> task.advanced(false).pending == Request::Finish(
            Outcome::Cancelled,
        ),
        task.advanced(false).is_finished(),
        task.advanced(false).count == task.count,
        task.is_finished() ==> task.advanced(completed) == task,
{
}

/// One repeating task: what it repeats, how often, and where it stands.
#[derive(Debug)]
pub struct RepeatTask {
    action: Action,
    trigger: Trigger,
    pause_ms: u64,
    repeat_limit: u64,
    unlimited: bool,
    count: u64,
    pending: Request,
}

impl View for RepeatTask {
    type V = TaskView;

    closed spec fn view(&self) -> TaskView {
        TaskView {
            action: self.action@,
            trigger: self.trigger,
            pause_ms: self.pause_ms,
            repeat_limit: self.repeat_limit,
            unlimited: self.unlimited,
            count: self.count,
            pending: self.pending,
        }
    }
}

impl RepeatTask {
    /// A click task that has not begun. It keeps what it needs of the
    /// settings; later changes to them do not reach it.
    pub fn click(settings: &ClickSettings, trigger: Trigger) -> (task: RepeatTask)
        ensures
            task@ == TaskView::fresh_click(settings@, trigger),
            task@.is_fresh(),
    {
        RepeatTask {
            action: Action::Click(settings.mouse_button()),
            trigger,
            pause_ms: settings.pause_ms(),
            repeat_limit: settings.repeat_limit,
            unlimited: settings.is_unlimited,
            count: 0,
            pending: Request::Prepare,
        }
    }

    /// A type task that has not begun. It keeps a copy of the text; later
    /// changes to the settings do not reach it.
    pub fn typing(settings: &TypeSettings, trigger: Trigger) -> (task: RepeatTask)
        ensures
            task@ == TaskView::fresh_type(settings@, trigger),
            task@.is_fresh(),
    {
        RepeatTask {
            action: Action::Type { text: settings.text.clone(), press_enter: settings.press_enter },
            trigger,
            pause_ms: settings.pause_ms(),
            repeat_limit: settings.repeat_limit,
            unlimited: settings.is_unlimited,
            count: 0,
            pending: Request::Prepare,
        }
    }

    /// Which slot the task belongs in.
    pub fn kind(&self) -> (kind: ActionKind)
        ensures
            kind == self@.kind(),
    {
        match &self.action {
            Action::Click(_) => ActionKind::Click,
            Action::Type { .. } => ActionKind::Type,
        }
    }

    /// The text to type on `TypeText`; empty for a click task.
    pub fn text(&self) -> (text: &str)
        ensures
            text@ == self@.text(),
    {
        proof {
            reveal_strlit("");
        }
        match &self.action {
            Action::Click(_) => {
                assert(""@ =~= Seq::<char>::empty());
                ""
            },
            Action::Type { text, .. } => text.as_str(),
        }
    }

    /// What launched the task.
    pub fn trigger(&self) -> (trigger: Trigger)
        ensures
            trigger == self@.trigger,
    {
        self.trigger
    }

    /// The words under which the end of the task is entered in the log;
    /// `None` for a task that has not ended, that reached its limit or that
    /// was cancelled, of which the log says nothing.
    pub fn log_label(&self) -> (label: Option<&'static str>)
        ensures
            match label {
                Some(words) => self@.log_label() == Some(words@),
                None => self@.log_label() is None,
            },
            label is Some <==> (self@.pending == Request::Finish(Outcome::InjectionFailed)
                || self@.pending == Request::Finish(Outcome::InjectorUnavailable)),
    {
        let kind = self.kind();
        match self.pending {
            Request::Finish(Outcome::InjectorUnavailable) => Some(
                match kind {
                    ActionKind::Click => "Failed to initialize Enigo for clicker",
                    ActionKind::Type => "Failed to initialize Enigo for typer",
                },
            ),
            Request::Finish(Outcome::InjectionFailed) => Some(
                match (self.trigger, kind) {
                    (Trigger::Command, ActionKind::Click) => "Click error",
                    (Trigger::Command, ActionKind::Type) => "Type error",
                    (Trigger::Hotkey, ActionKind::Click) => "Hotkey click error",
                    (Trigger::Hotkey, ActionKind::Type) => "Hotkey type error",
                },
            ),
            _ => None,
        }
    }

    /// The number of actions completed so far.
    pub fn count(&self) -> (count: u64)
        ensures
            count == self@.count,
    {
        self.count
    }

    /// What the runner has to do now.
    pub fn pending(&self) -> (request: Request)
        ensures
            request == self@.pending,
    {
        self.pending
    }

    /// Whether the task has ended.
    pub fn is_finished(&self) -> (b: bool)
        ensures
            b == self@.is_finished(),
    {
        match self.pending {
            Request::Finish(_) => true,
            _ => false,
        }
    }

    fn opening(&self) -> (request: Request)
        ensures
            request == self@.opening(),
    {
        match &self.action {
            Action::Click(button) => Request::Click(*button),
            Action::Type { .. } => Request::TypeText,
        }
    }

    fn confirms(&self) -> (b: bool)
        ensures
            b == self@.confirms(),
    {
        match &self.action {
            Action::Click(_) => false,
            Action::Type { press_enter, .. } => *press_enter,
        }
    }

    /// Counts the action of the round that has just been completed and says
    /// what follows it.
    fn finish_round(&mut self) -> (request: Request)
        ensures
            final(self)@.count == old(self)@.round_done().count,
            request == old(self)@.round_done().pending,
            final(self)@ == (TaskView { pending: old(self)@.pending, ..old(self)@.round_done() }),
    {
        if self.count < u64::MAX {
            self.count = self.count + 1;
        }
        if !self.unlimited && self.count >= self.repeat_limit {
            Request::Finish(Outcome::LimitReached)
        } else {
            Request::Wait(self.pause_ms)
        }
    }

    /// Takes the runner's answer to the pending request and returns the
    /// next request, which is pending from then on. `completed` is `true`
    /// when the request was carried out in full: the injector is ready, the
    /// click, the text or the confirm key went out, the wait ran its time.
    /// It is `false` when the injector could not be set up, when the
    /// injector refused the click, the text or the confirm key, or when the
    /// wait was cut short by a cancellation. Each of these ends the task,
    /// and an action is counted only once all of it has gone out.
    pub fn advance(&mut self, completed: bool) -> (next: Request)
        ensures
            final(self)@ == old(self)@.advanced(completed),
            next == final(self)@.pending,
    {
        let next = match self.pending {
            Request::Prepare => {
                if completed {
                    self.opening()
                } else {
                    Request::Finish(Outcome::InjectorUnavailable)
                }
            },
            Request::Click(_) | Request::TypeText => {
                if !completed {
                    Request::Finish(Outcome::InjectionFailed)
                } else if self.confirms() {
                    Request::PressConfirm
                } else {
                    self.finish_round()
                }
            },
            Request::PressConfirm => {
                if completed {
                    self.finish_round()
                } else {
                    Request::Finish(Outcome::InjectionFailed)
                }
            },
            Request::Wait(_) => {
                if completed {
                    self.opening()
                } else {
                    Request::Finish(Outcome::Cancelled)
                }
            },
            Request::Finish(outcome) => Request::Finish(outcome),
        };
        self.pending = next;
        next
    }
}

} // verus!
