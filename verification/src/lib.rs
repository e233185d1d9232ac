//! Core of a desktop diagnostics/remediation tool: the task-execution and
//! state-synchronization subsystem that lets a single render loop delegate
//! long-running external operations to background workers.
//!
//! The pieces, leaves first:
//! - [`gate::Gate`]: a single-flight flag guarding exclusive execution of
//!   gated commands.
//! - [`mailbox::Mailbox`]: a single-slot, last-write-wins message box drained
//!   once per frame.
//! - [`install::InstallPipeline`]: a per-item install state machine whose
//!   items progress independently of each other and of gated commands.
//! - [`refresh::ReloadFlag`] and [`refresh::RefreshScheduler`]: the one-shot
//!   reload signal and the auto-refresh countdown.
//! - [`poll::Core`]: the facade the frame driver polls, combining all of the
//!   above and the registry of the one in-flight gated task.
//! - [`detect`]: the rules deciding, from the display names the host reads
//!   out of its uninstall registry, which install items are already present.
//!
//! The host owns the threads, the process launches and the system queries;
//! every decision those workers and the frame loop make is taken here, on
//! plain values, with a contract.

pub mod detect;
pub mod gate;
pub mod install;
pub mod mailbox;
pub mod poll;
pub mod refresh;
