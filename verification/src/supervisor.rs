//! The task supervisor: one slot for each action kind, and in each slot at
//! most one running task.
//!
//! The supervisor does not run tasks. It hands out handles and tells the
//! shell, in an `Effects` value, which task to cancel, which to launch and
//! what to tell the user interface. Taking the old handle out of a slot and
//! putting the new one in is one operation, so two tasks never share a slot.

use vstd::prelude::*;
use crate::settings::ActionKind;
use crate::task::{Outcome, RepeatTask, TaskView};

verus! {

/// Names one launched task: its kind and the serial number it was given.
#[derive(Clone, Copy, Debug, PartialEq, Eq, Structural)]
pub struct TaskHandle {
    pub kind: ActionKind,
    pub serial: u64,
}

/// What the user interface is told.
#[derive(Clone, Copy, Debug, PartialEq, Eq, Structural)]
pub enum Notification {
    Started(ActionKind),
    Stopped(ActionKind),
}

/// A task to launch, and the handle under which the supervisor knows it.
#[derive(Debug)]
pub struct Launch {
    pub handle: TaskHandle,
    pub task: RepeatTask,
}

/// What a `Launch` holds.
pub struct LaunchView {
    pub handle: TaskHandle,
    pub task: TaskView,
}

impl View for Launch {
    type V = LaunchView;

    open spec fn view(&self) -> LaunchView {
        LaunchView { handle: self.handle, task: self.task@ }
    }
}

/// What the shell has to do after an operation, in this order: cancel,
/// launch, notify. Each part may be absent.
#[derive(Debug)]
pub struct Effects {
    pub cancel: Option<TaskHandle>,
    pub launch: Option<Launch>,
    pub notify: Option<Notification>,
}

/// What an `Effects` value holds.
pub struct EffectsView {
    pub cancel: Option<TaskHandle>,
    pub launch: Option<LaunchView>,
    pub notify: Option<Notification>,
}

impl View for Effects {
    type V = EffectsView;

    open spec fn view(&self) -> EffectsView {
        EffectsView {
            cancel: self.cancel,
            launch: match self.launch {
                Some(launch) => Some(launch@),
                None => None,
            },
            notify: self.notify,
        }
    }
}

impl EffectsView {
    /// Nothing to do.
    pub open spec fn nothing() -> EffectsView {
        EffectsView { cancel: None, launch: None, notify: None }
    }

    /// The handle of the task to launch, if there is one.
    pub open spec fn launched(self) -> Option<TaskHandle> {
        match self.launch {
            Some(launch) => Some(launch.handle),
            None => None,
        }
    }
}

impl Effects {
    /// Nothing to do.
    pub fn nothing() -> (e: Effects)
        ensures
            e@ == EffectsView::nothing(),
    {
        Effects { cancel: None, launch: None, notify: None }
    }

    /// Whether there is nothing to do.
    pub fn is_nothing(&self) -> (b: bool)
        ensures
            b == (self@ == EffectsView::nothing()),
    {
        self.cancel.is_none() && self.launch.is_none() && self.notify.is_none()
    }
}

/// The serial number that follows `serial`; after the largest comes zero.
pub open spec fn serial_after(serial: u64) -> u64 {
    if serial == u64::MAX {
        0
    } else {
        (serial + 1) as u64
    }
}

/// One slot: the serial number of the task launched last in it, and whether
/// that task is still held.
pub struct SlotView {
    pub serial: u64,
    pub occupied: bool,
}

/// The supervisor as the contracts see it.
pub struct SupervisorView {
    pub click: SlotView,
    pub typing: SlotView,
}

impl SupervisorView {
    /// Both slots empty, no task launched yet.
    pub open spec fn initial() -> SupervisorView {
        SupervisorView {
            click: SlotView { serial: 0, occupied: false },
            typing: SlotView { serial: 0, occupied: false },
        }
    }

    pub open spec fn slot(self, kind: ActionKind) -> SlotView {
        match kind {
            ActionKind::Click => self.click,
            ActionKind::Type => self.typing,
        }
    }

    /// The supervisor with the slot of `kind` replaced.
    pub open spec fn with_slot(self, kind: ActionKind, slot: SlotView) -> SupervisorView {
        match kind {
            ActionKind::Click => SupervisorView { click: slot, ..self },
            ActionKind::Type => SupervisorView { typing: slot, ..self },
        }
    }

    /// The task that the slot of `kind` holds, if it holds one.
    pub open spec fn holder(self, kind: ActionKind) -> Option<TaskHandle> {
        if self.slot(kind).occupied {
            Some(TaskHandle { kind, serial: self.slot(kind).serial })
        } else {
            None
        }
    }

    pub open spec fn is_running(self, kind: ActionKind) -> bool {
        self.slot(kind).occupied
    }

    /// The tasks that the supervisor holds.
    pub open spec fn holders(self) -> Set<TaskHandle> {
        Set::new(|h: TaskHandle| self.holder(h.kind) == Some(h))
    }

    /// After a start: the slot of `kind` holds a task with the next serial
    /// number; the other slot is as before.
    pub open spec fn started(self, kind: ActionKind) -> SupervisorView {
        self.with_slot(
            kind,
            SlotView { serial: serial_after(self.slot(kind).serial), occupied: true },
        )
    }

    /// After a stop: the slot of `kind` is empty; the other is as before.
    pub open spec fn stopped(self, kind: ActionKind) -> SupervisorView {
        self.with_slot(kind, SlotView { occupied: false, ..self.slot(kind) })
    }

    /// After the task `handle` has ended by itself. A task that the slot
    /// still holds and that ended because it reached its limit leaves the
    /// slot empty. Every other end changes nothing: a failed task stays in
    /// its slot until the kind is stopped or started again, and a task that
    /// was stopped or replaced has left its slot before.
    pub open spec fn ended(self, handle: TaskHandle, outcome: Outcome) -> SupervisorView {
        if self.holder(handle.kind) == Some(handle) && outcome == Outcome::LimitReached {
            self.stopped(handle.kind)
        } else {
            self
        }
    }

    /// What a start of `task` asks of the shell: cancel the task that the
    /// slot held, launch `task` under the slot's new handle, and tell the
    /// user interface that the kind has started.
    pub open spec fn start_effects(self, task: TaskView) -> EffectsView {
        EffectsView {
            cancel: self.holder(task.kind()),
            launch: Some(
                LaunchView {
                    handle: TaskHandle {
                        kind: task.kind(),
                        serial: serial_after(self.slot(task.kind()).serial),
                    },
                    task,
                },
            ),
            notify: Some(Notification::Started(task.kind())),
        }
    }

    /// What a stop asks of the shell: cancel the task that the slot holds
    /// and tell the user interface that the kind has stopped. Of an empty
    /// slot it asks nothing.
    pub open spec fn stop_effects(self, kind: ActionKind) -> EffectsView {
        EffectsView {
            cancel: self.holder(kind),
            launch: None,
            notify: if self.is_running(kind) {
                Some(Notification::Stopped(kind))
            } else {
                None
            },
        }
    }
}

/// One thing that can happen to a supervisor, for statements about whole
/// histories.
pub enum Operation {
    /// A call of `TaskSupervisor::start` with the task named here.
    Start(TaskView),
    /// A call of `TaskSupervisor::stop` for the kind named here.
    Stop(ActionKind),
    /// A call of `TaskSupervisor::task_ended` with the handle and the
    /// outcome named here: the task has ended by itself.
    Ended(TaskHandle, Outcome),
}

impl SupervisorView {
    /// The supervisor after the operation.
    pub open spec fn after(self, op: Operation) -> SupervisorView {
        match op {
            Operation::Start(task) => self.started(task.kind()),
            Operation::Stop(kind) => self.stopped(kind),
            Operation::Ended(handle, outcome) => self.ended(handle, outcome),
        }
    }

    /// What the operation asks of the shell.
    pub open spec fn effects_of(self, op: Operation) -> EffectsView {
        match op {
            Operation::Start(task) => self.start_effects(task),
            Operation::Stop(kind) => self.stop_effects(kind),
            Operation::Ended(_, _) => EffectsView::nothing(),
        }
    }
}

/// The tasks that are still alive once the shell has done the first part of
/// `effects`, the cancelling, on the tasks in `alive`.
pub open spec fn after_cancel(alive: Set<TaskHandle>, effects: EffectsView) -> Set<TaskHandle> {
    match effects.cancel {
        Some(handle) => alive.remove(handle),
        None => alive,
    }
}

/// The tasks that are alive in the shell once it has carried out `effects`
/// on the tasks in `alive`: first the cancelled one goes, then the launched
/// one is there.
pub open spec fn carried_out(alive: Set<TaskHandle>, effects: EffectsView) -> Set<TaskHandle> {
    match effects.launched() {
        Some(handle) => after_cancel(alive, effects).insert(handle),
        None => after_cancel(alive, effects),
    }
}

/// The tasks alive at each instant while the shell carries out `effects` in
/// their order: before it begins, after the cancelling, after the launch.
pub open spec fn instants(alive: Set<TaskHandle>, effects: EffectsView) -> Seq<Set<TaskHandle>> {
    seq![alive, after_cancel(alive, effects), carried_out(alive, effects)]
}

/// The supervisor after a history of operations on a new one.
pub open spec fn supervisor_after(history: Seq<Operation>) -> SupervisorView
    decreases history.len(),
{
    if history.len() == 0 {
        SupervisorView::initial()
    } else {
        supervisor_after(history.drop_last()).after(history.last())
    }
}

/// The tasks alive in the shell after that history, given that the shell
/// carries out the effects of each operation and that a task which has
/// ended by itself is alive no longer.
pub open spec fn alive_after(history: Seq<Operation>) -> Set<TaskHandle>
    decreases history.len(),
{
    if history.len() == 0 {
        Set::empty()
    } else {
        let before = alive_after(history.drop_last());
        match history.last() {
            Operation::Ended(handle, _) => before.remove(handle),
            op => carried_out(before, supervisor_after(history.drop_last()).effects_of(op)),
        }
    }
}

/// After any history every task alive in the shell is a task that the
/// supervisor holds: whatever left a slot was cancelled or had ended.
pub proof fn lemma_alive_tasks_are_held(history: Seq<Operation>)
    ensures
        alive_after(history).subset_of(supervisor_after(history).holders()),
    decreases history.len(),
{
    if history.len() > 0 {
        lemma_alive_tasks_are_held(history.drop_last());
    }
}

/// A task that reached its limit frees its slot, and so does a stop; after
/// either, no task of the kind is alive and none is held.
pub proof fn lemma_end_at_limit_frees_slot(history: Seq<Operation>, handle: TaskHandle)
    requires
        supervisor_after(history).holder(handle.kind) == Some(handle),
    ensures
        !supervisor_after(history.push(Operation::Ended(handle, Outcome::LimitReached))).is_running(
            handle.kind,
        ),
        !supervisor_after(history.push(Operation::Stop(handle.kind))).is_running(handle.kind),
        supervisor_after(history.push(Operation::Ended(handle, Outcome::InjectionFailed)))
            == supervisor_after(history),
        supervisor_after(history.push(Operation::Ended(handle, Outcome::InjectorUnavailable)))
            == supervisor_after(history),
{
    let ended = history.push(Operation::Ended(handle, Outcome::LimitReached));
    assert(ended.drop_last() =~= history);
    let stopped = history.push(Operation::Stop(handle.kind));
    assert(stopped.drop_last() =~= history);
    let failed = history.push(Operation::Ended(handle, Outcome::InjectionFailed));
    assert(failed.drop_last() =~= history);
    let unavailable = history.push(Operation::Ended(handle, Outcome::InjectorUnavailable));
    assert(unavailable.drop_last() =~= history);
}

/// Single flight: after any history of starts, stops and ends, from either
/// source and in any order, at most one task of each kind is alive.
pub proof fn lemma_single_flight(history: Seq<Operation>, a: TaskHandle, b: TaskHandle)
    requires
        alive_after(history).contains(a),
        alive_after(history).contains(b),
        a.kind == b.kind,
    ensures
        a == b,
{
    lemma_alive_tasks_are_held(history);
}

/// Single flight holds in between as well: while the shell carries out
/// the effects of an operation in their order, cancel before launch, there
/// is no instant at which two tasks of one kind are alive.
pub proof fn lemma_single_flight_at_every_instant(
    history: Seq<Operation>,
    op: Operation,
    instant: int,
    a: TaskHandle,
    b: TaskHandle,
)
    requires
        0 <= instant < 3,
        instants(alive_after(history), supervisor_after(history).effects_of(op))[instant].contains(
            a,
        ),
        instants(alive_after(history), supervisor_after(history).effects_of(op))[instant].contains(
            b,
        ),
        a.kind == b.kind,
    ensures
        a == b,
{
    lemma_alive_tasks_are_held(history);
}

struct Slot {
    serial: u64,
    occupied: bool,
}

impl Slot {
    spec fn seen(&self) -> SlotView {
        SlotView { serial: self.serial, occupied: self.occupied }
    }
}

/// Owns the two slots.
pub struct TaskSupervisor {
    click: Slot,
    typing: Slot,
}

impl View for TaskSupervisor {
    type V = SupervisorView;

    closed spec fn view(&self) -> SupervisorView {
        SupervisorView { click: self.click.seen(), typing: self.typing.seen() }
    }
}

impl TaskSupervisor {
    /// A supervisor that holds no task.
    pub fn new() -> (s: TaskSupervisor)
        ensures
            s@ == SupervisorView::initial(),
    {
        TaskSupervisor {
            click: Slot { serial: 0, occupied: false },
            typing: Slot { serial: 0, occupied: false },
        }
    }

    /// Whether the slot of `kind` holds a task. It changes nothing.
    pub fn is_running(&self, kind: ActionKind) -> (b: bool)
        ensures
            b == self@.is_running(kind),
    {
        match kind {
            ActionKind::Click => self.click.occupied,
            ActionKind::Type => self.typing.occupied,
        }
    }

    /// The task that the slot of `kind` holds, if it holds one.
    pub fn running(&self, kind: ActionKind) -> (h: Option<TaskHandle>)
        ensures
            h == self@.holder(kind),
    {
        let (occupied, serial) = match kind {
            ActionKind::Click => (self.click.occupied, self.click.serial),
            ActionKind::Type => (self.typing.occupied, self.typing.serial),
        };
        if occupied {
            Some(TaskHandle { kind, serial })
        } else {
            None
        }
    }

    /// Empties the slot of `kind` and returns the handle it held.
    fn take(&mut self, kind: ActionKind) -> (h: Option<TaskHandle>)
        ensures
            h == old(self)@.holder(kind),
            final(self)@ == old(self)@.stopped(kind),
    {
        let held = self.running(kind);
        match kind {
            ActionKind::Click => {
                self.click.occupied = false;
            },
            ActionKind::Type => {
                self.typing.occupied = false;
            },
        }
        held
    }

    /// Puts a task with the next serial number into the slot of `kind` and
    /// returns its handle.
    fn install(&mut self, kind: ActionKind) -> (h: TaskHandle)
        ensures
            final(self)@ == old(self)@.started(kind),
            Some(h) == final(self)@.holder(kind),
    {
        match kind {
            ActionKind::Click => {
                self.click.serial = self.click.serial.wrapping_add(1);
                self.click.occupied = true;
                TaskHandle { kind, serial: self.click.serial }
            },
            ActionKind::Type => {
                self.typing.serial = self.typing.serial.wrapping_add(1);
                self.typing.occupied = true;
                TaskHandle { kind, serial: self.typing.serial }
            },
        }
    }

    /// Starts `task` in the slot of its kind. A task that the slot held is
    /// taken out and named for cancelling before the new one is put in, so
    /// the slot never holds two; the new task's handle differs from the old
    /// one's. Starting twice in a row leaves the second task in the slot.
    pub fn start(&mut self, task: RepeatTask) -> (effects: Effects)
        ensures
            final(self)@ == old(self)@.started(task@.kind()),
            effects@ == old(self)@.start_effects(task@),
            effects@.launched() == final(self)@.holder(task@.kind()),
            effects@.cancel != effects@.launched(),
    {
        let kind = task.kind();
        let cancel = self.take(kind);
        let handle = self.install(kind);
        Effects {
            cancel,
            launch: Some(Launch { handle, task }),
            notify: Some(Notification::Started(kind)),
        }
    }

    /// Stops the task of `kind`: the slot is emptied, the task it held is
    /// named for cancelling, and the user interface is told. With an empty
    /// slot this does nothing: the supervisor stays as it is and nothing is
    /// asked of the shell, no notification either.
    pub fn stop(&mut self, kind: ActionKind) -> (effects: Effects)
        ensures
            final(self)@ == old(self)@.stopped(kind),
            effects@ == old(self)@.stop_effects(kind),
            !final(self)@.is_running(kind),
            !old(self)@.is_running(kind) ==> final(self)@ == old(self)@ && effects@
                == EffectsView::nothing(),
    {
        match self.take(kind) {
            Some(handle) => Effects {
                cancel: Some(handle),
                launch: None,
                notify: Some(Notification::Stopped(kind)),
            },
            None => Effects::nothing(),
        }
    }

    /// Records that the task `handle` has ended by itself with `outcome`.
    /// The slot is emptied if it still holds that task and the task reached
    /// its limit. A task that failed stays in its slot, so that the kind
    /// counts as running until it is stopped or started again; the end of a
    /// task that was replaced or stopped in the meantime changes nothing.
    /// Returns whether the slot was emptied.
    pub fn task_ended(&mut self, handle: TaskHandle, outcome: Outcome) -> (emptied: bool)
        ensures
            final(self)@ == old(self)@.ended(handle, outcome),
            emptied == (old(self)@.holder(handle.kind) == Some(handle) && outcome
                == Outcome::LimitReached),
    {
        if outcome.notifies_stopped() && self.running(handle.kind) == Some(handle) {
            let _ = self.take(handle.kind);
            true
        } else {
            false
        }
    }
}

} // verus!
