//! Task-lifecycle core of a desktop auto-clicker and auto-typer.
//!
//! The crate decides; the surrounding shell acts. Every operation takes the
//! current state and a stimulus and answers with the next state and the work
//! the shell has to carry out (cancel a task, launch one, notify the user
//! interface, inject an input event, wait).

pub mod hotkey;
pub mod router;
pub mod settings;
pub mod supervisor;
pub mod task;

pub use hotkey::{parse_code, FunctionKey, HotkeyBindings, KeyState};
pub use router::AppState;
pub use settings::{ActionKind, ClickSettings, MouseButton, SettingsStore, TypeSettings};
pub use supervisor::{Effects, Launch, Notification, TaskHandle, TaskSupervisor};
pub use task::{Outcome, RepeatTask, Request, Trigger};
