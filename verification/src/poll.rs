//! The poll-loop facade: one handle over the single-flight flag, the
//! gated-task registry, the reload flag, the mailbox, the install
//! pipeline and the refresh scheduler.
//!
//! The frame driver owns one [`Core`] and calls [`Core::poll_frame`] once
//! per frame; workers report back solely through the events
//! [`Core::finish_gated_worker`] and [`Core::finish_install`]. The handle
//! is explicit state, not a process-wide singleton, so several instances
//! can live side by side and a test can drive one deterministically.

use vstd::prelude::*;

use crate::gate::Gate;
use crate::install::InstallJob;
use crate::install::InstallPipeline;
use crate::install::InstallState;
use crate::install::start_allowed;
use crate::install::state_after_detection;
use crate::install::states_after_finish;
use crate::install::states_after_start;
use crate::mailbox::Mailbox;
use crate::refresh::RefreshScheduler;
use crate::refresh::ReloadFlag;
use crate::refresh::scheduler_after_tick;
use crate::refresh::scheduler_tick_fires;

verus! {

/// The one gated task that may be in flight: what to run, the message its
/// worker posts when the run ends, and whether it then requests a reload.
/// The core retains it from submission to completion — the registry that
/// makes "at most one gated worker" a stated invariant rather than a
/// convention.
pub struct GatedTask {
    pub command: String,
    pub args: Vec<String>,
    pub message: String,
    pub triggers_reload: bool,
}

/// What one frame's poll found: the drained notification, if a worker had
/// posted one, and which reload triggers fired. When both triggers fire in
/// the same frame the driver performs two reloads back to back — a minor
/// inefficiency this design deliberately keeps.
pub struct FrameOutcome {
    pub notification: Option<String>,
    pub reload_from_flag: bool,
    pub reload_from_timer: bool,
}

/// The shared state of the task core, as the single-threaded frame driver
/// sees it between events.
pub struct Core {
    pub gate: Gate,
    pub in_flight: Option<GatedTask>,
    pub reload: ReloadFlag,
    pub mailbox: Mailbox,
    pub installs: InstallPipeline,
    pub scheduler: RefreshScheduler,
}

impl Core {
    /// Well-formed: the single-flight flag is held exactly while a gated
    /// task is in flight, and the scheduler's countdown is within its
    /// interval.
    pub open spec fn wf(&self) -> bool {
        &&& self.gate.held <==> self.in_flight is Some
        &&& self.scheduler.wf()
    }

    /// A fresh core: gate idle, no task in flight, no reload requested, an
    /// empty mailbox, `item_count` untouched install items, auto-refresh
    /// off with a full countdown of `refresh_interval` time units.
    pub fn new(item_count: usize, refresh_interval: u64) -> (c: Core)
        requires
            0 < refresh_interval,
        ensures
            c.wf(),
            !c.gate.held,
            c.in_flight is None,
            !c.reload.pending,
            c.mailbox.slot is None,
            c.installs.states@.len() == item_count,
            forall|i: int|
                0 <= i < item_count ==> c.installs.states@[i] == InstallState::NotInstalled,
            !c.scheduler.enabled,
            c.scheduler.interval == refresh_interval,
            c.scheduler.countdown == refresh_interval,
    {
        Core {
            gate: Gate::new(),
            in_flight: None,
            reload: ReloadFlag::new(),
            mailbox: Mailbox::new(),
            installs: InstallPipeline::new(item_count),
            scheduler: RefreshScheduler::new(refresh_interval),
        }
    }

    /// Whether a gated worker is currently running.
    pub fn is_busy(&self) -> (r: bool)
        ensures
            r == self.gate.held,
    {
        self.gate.is_held()
    }

    /// Non-consuming peek at the reload request.
    pub fn is_reload_pending(&self) -> (r: bool)
        ensures
            r == self.reload.pending,
    {
        self.reload.peek()
    }

    /// Submission of a gated command. While a gated worker is running the
    /// call is a no-op and the submission is silently dropped. Otherwise
    /// the single-flight flag is taken and the task is registered as in
    /// flight; the caller must then spawn exactly one worker that runs the
    /// command to completion and reports back through
    /// [`Core::finish_gated_worker`].
    pub fn submit_gated_command(
        &mut self,
        command: String,
        args: Vec<String>,
        message: String,
        triggers_reload: bool,
    ) -> (accepted: bool)
        requires
            old(self).wf(),
        ensures
            final(self).wf(),
            accepted == !old(self).gate.held,
            !accepted ==> *final(self) == *old(self),
            accepted ==> final(self).gate.held,
            accepted ==> final(self).in_flight == Some(
                GatedTask { command, args, message, triggers_reload },
            ),
            accepted ==> final(self).reload == old(self).reload,
            accepted ==> final(self).mailbox == old(self).mailbox,
            accepted ==> final(self).installs == old(self).installs,
            accepted ==> final(self).scheduler == old(self).scheduler,
    {
        let granted = self.gate.acquire();
        if granted {
            self.in_flight = Some(GatedTask { command, args, message, triggers_reload });
            true
        } else {
            false
        }
    }

    /// The exit path of the gated worker, reached on success and on
    /// failure alike: the completion message is posted (overwriting any
    /// undelivered one), the reload request is raised if the task asked
    /// for it, and the flag is released last, so the message is in place
    /// before the next submission can be accepted.
    pub fn finish_gated_worker(&mut self)
        requires
            old(self).wf(),
            old(self).gate.held,
        ensures
            final(self).wf(),
            !final(self).gate.held,
            final(self).in_flight is None,
            final(self).mailbox.slot == Some(old(self).in_flight.unwrap().message),
            final(self).reload.pending == (old(self).reload.pending || old(
                self,
            ).in_flight.unwrap().triggers_reload),
            final(self).installs == old(self).installs,
            final(self).scheduler == old(self).scheduler,
    {
        let task = self.in_flight.take().unwrap();
        self.mailbox.post(task.message);
        if task.triggers_reload {
            self.reload.set();
        }
        self.gate.release();
    }

    /// Start of an install for item `index`: a single check-and-transition
    /// that refuses the request while a worker already owns the item, so
    /// two rapid requests spawn at most one worker. On success the caller
    /// spawns one worker for the returned job and reports its exit through
    /// [`Core::finish_install`]. Installs bypass the single-flight flag.
    pub fn start_install(&mut self, index: usize, url: String, args: String) -> (job: Option<
        InstallJob,
    >)
        requires
            old(self).wf(),
            index < old(self).installs.states@.len(),
        ensures
            final(self).wf(),
            job is Some <==> start_allowed(old(self).installs.states@, index as int),
            job matches Some(j) ==> j.index == index && j.url == url && j.args == args,
            job is Some ==> final(self).installs.states@ == states_after_start(
                old(self).installs.states@,
                index as int,
            ),
            job is None ==> final(self).installs.states@ == old(self).installs.states@,
            final(self).gate == old(self).gate,
            final(self).in_flight == old(self).in_flight,
            final(self).reload == old(self).reload,
            final(self).mailbox == old(self).mailbox,
            final(self).scheduler == old(self).scheduler,
    {
        self.installs.try_start(index, url, args)
    }

    /// The exit path of item `index`'s install worker, reached whether the
    /// download and the execution succeeded or failed: the item converges
    /// to `Done` either way, since the design keeps no failure state.
    pub fn finish_install(&mut self, index: usize, download_ok: bool, execute_ok: bool)
        requires
            old(self).wf(),
            index < old(self).installs.states@.len(),
            old(self).installs.states@[index as int] == InstallState::Installing,
        ensures
            final(self).wf(),
            final(self).installs.states@ == states_after_finish(
                old(self).installs.states@,
                index as int,
            ),
            final(self).gate == old(self).gate,
            final(self).in_flight == old(self).in_flight,
            final(self).reload == old(self).reload,
            final(self).mailbox == old(self).mailbox,
            final(self).scheduler == old(self).scheduler,
    {
        self.installs.finish(index, download_ok, execute_ok);
    }

    /// Read-only access to one install item's state.
    pub fn install_state(&self, index: usize) -> (s: InstallState)
        requires
            index < self.installs.states@.len(),
        ensures
            s == self.installs.states@[index as int],
    {
        self.installs.state_of(index)
    }

    /// One detection pass over the install items, run after each reload:
    /// detected, untouched items become `Installed`; claimed, finished and
    /// already-marked items are never downgraded.
    pub fn apply_detection(&mut self, detected: &Vec<bool>)
        requires
            old(self).wf(),
            detected@.len() == old(self).installs.states@.len(),
        ensures
            final(self).wf(),
            final(self).installs.states@.len() == old(self).installs.states@.len(),
            forall|i: int|
                0 <= i < old(self).installs.states@.len() ==> final(self).installs.states@[i]
                    == state_after_detection(old(self).installs.states@[i], detected@[i]),
            final(self).gate == old(self).gate,
            final(self).in_flight == old(self).in_flight,
            final(self).reload == old(self).reload,
            final(self).mailbox == old(self).mailbox,
            final(self).scheduler == old(self).scheduler,
    {
        self.installs.apply_detection(detected);
    }

    /// A manual refresh: the caller reloads immediately, and the countdown
    /// starts over at the full interval whatever its prior value, so any
    /// partially elapsed auto cycle is canceled.
    pub fn request_manual_refresh(&mut self)
        requires
            old(self).wf(),
        ensures
            final(self).wf(),
            final(self).scheduler.countdown == old(self).scheduler.interval,
            final(self).scheduler.enabled == old(self).scheduler.enabled,
            final(self).scheduler.interval == old(self).scheduler.interval,
            final(self).gate == old(self).gate,
            final(self).in_flight == old(self).in_flight,
            final(self).reload == old(self).reload,
            final(self).mailbox == old(self).mailbox,
            final(self).installs == old(self).installs,
    {
        self.scheduler.reset();
    }

    /// Turns auto-refresh on or off, starting the countdown over.
    pub fn set_auto_refresh(&mut self, on: bool)
        requires
            old(self).wf(),
        ensures
            final(self).wf(),
            final(self).scheduler.enabled == on,
            final(self).scheduler.countdown == old(self).scheduler.interval,
            final(self).scheduler.interval == old(self).scheduler.interval,
            final(self).gate == old(self).gate,
            final(self).in_flight == old(self).in_flight,
            final(self).reload == old(self).reload,
            final(self).mailbox == old(self).mailbox,
            final(self).installs == old(self).installs,
    {
        self.scheduler.set_enabled(on);
    }

    /// Drains the mailbox, delivering the pending notification at most
    /// once.
    pub fn drain_notification(&mut self) -> (msg: Option<String>)
        requires
            old(self).wf(),
        ensures
            final(self).wf(),
            msg == old(self).mailbox.slot,
            final(self).mailbox.slot is None,
            final(self).gate == old(self).gate,
            final(self).in_flight == old(self).in_flight,
            final(self).reload == old(self).reload,
            final(self).installs == old(self).installs,
            final(self).scheduler == old(self).scheduler,
    {
        self.mailbox.drain()
    }

    /// One frame of the poll loop, `elapsed` time units after the last:
    /// drains the mailbox, consumes the reload request (which leaves the
    /// countdown alone), then advances the countdown. The driver shows the
    /// notification, if any, and performs one reload per trigger that
    /// fired — both in one frame mean two reloads back to back. Workers
    /// are never waited on here.
    pub fn poll_frame(&mut self, elapsed: u64) -> (out: FrameOutcome)
        requires
            old(self).wf(),
        ensures
            final(self).wf(),
            out.notification == old(self).mailbox.slot,
            final(self).mailbox.slot is None,
            out.reload_from_flag == old(self).reload.pending,
            !final(self).reload.pending,
            out.reload_from_timer == scheduler_tick_fires(old(self).scheduler, elapsed),
            final(self).scheduler == scheduler_after_tick(old(self).scheduler, elapsed),
            final(self).gate == old(self).gate,
            final(self).in_flight == old(self).in_flight,
            final(self).installs == old(self).installs,
    {
        let notification = self.mailbox.drain();
        let reload_from_flag = self.reload.consume();
        let reload_from_timer = self.scheduler.tick(elapsed);
        FrameOutcome { notification, reload_from_flag, reload_from_timer }
    }
}

} // verus!
