//! The decisions of frame extraction: which frame's process to start next,
//! when to wait, and when the run is over.
//!
//! Frames are started in ascending order in batches of at most the
//! concurrency limit. Every process of a batch is waited on before the next
//! batch starts, so no more than the limit ever run at once. A failure lets the
//! current batch drain and then ends the run; no new batch starts after it.
use vstd::prelude::*;

verus! {

/// What the driver of an extraction run does next.
#[derive(Clone, Copy, Debug, PartialEq, Eq)]
pub enum SchedulerAction {
    /// Start the rendering process of this frame, then report `job_started`
    /// or `spawn_failed`.
    Spawn(usize),
    /// Wait until one running process exits, then report `job_finished`.
    Reap,
    /// Every frame was rendered.
    Done,
    /// A process failed or could not start; every started process was waited
    /// on. Carries the exit code of the first process that failed, where it
    /// exited with one.
    Failed(Option<i32>),
}

/// The scheduler's state in numbers.
pub struct SchedulerView {
    pub frame_count: nat,
    pub max_concurrency: nat,
    /// The frame that starts next.
    pub next_index: nat,
    /// The frames of the current batch are `batch_start .. batch_end`.
    pub batch_start: nat,
    pub batch_end: nat,
    /// Processes started so far.
    pub started: nat,
    /// Processes waited on so far.
    pub reaped: nat,
    /// A process failed or could not be started.
    pub failed: bool,
    /// The exit code of the first process that exited with a failure, where it
    /// had one; `None` until then.
    pub failure_code: Option<i32>,
}

impl SchedulerView {
    /// The state before anything has started.
    pub open spec fn initial(frame_count: nat, max_concurrency: nat) -> SchedulerView {
        SchedulerView {
            frame_count,
            max_concurrency,
            next_index: 0,
            batch_start: 0,
            batch_end: 0,
            started: 0,
            reaped: 0,
            failed: false,
            failure_code: None,
        }
    }

    pub open spec fn in_flight(self) -> int {
        self.started - self.reaped
    }

    pub open spec fn inv(self) -> bool {
        &&& self.max_concurrency >= 1
        &&& self.batch_start <= self.next_index <= self.batch_end <= self.frame_count
        &&& self.batch_end - self.batch_start <= self.max_concurrency
        &&& self.reaped <= self.started <= self.next_index
        &&& self.in_flight() <= self.next_index - self.batch_start
        &&& !self.failed ==> self.started == self.next_index
    }

    pub open spec fn next_action(self) -> SchedulerAction {
        if !self.failed && self.next_index < self.batch_end {
            SchedulerAction::Spawn(self.next_index as usize)
        } else if self.started > self.reaped {
            SchedulerAction::Reap
        } else if self.failed {
            SchedulerAction::Failed(self.failure_code)
        } else if self.next_index < self.frame_count {
            SchedulerAction::Spawn(self.next_index as usize)
        } else {
            SchedulerAction::Done
        }
    }

    /// The state after the process of frame `next_index` has started: a new
    /// batch opens where the last one is used up.
    pub open spec fn after_start(self) -> SchedulerView {
        let opens = self.next_index == self.batch_end;
        let end = if self.next_index + self.max_concurrency <= self.frame_count {
            self.next_index + self.max_concurrency
        } else {
            self.frame_count
        };
        SchedulerView {
            next_index: self.next_index + 1,
            batch_start: if opens {
                self.next_index
            } else {
                self.batch_start
            },
            batch_end: if opens {
                end
            } else {
                self.batch_end
            },
            started: self.started + 1,
            ..self
        }
    }

    pub open spec fn after_spawn_failure(self) -> SchedulerView {
        SchedulerView { failed: true, ..self }
    }

    /// The state after a running process exited, with `exit_code` where it
    /// had one: the first failure's code is kept.
    pub open spec fn after_finish(self, success: bool, exit_code: Option<i32>) -> SchedulerView {
        SchedulerView {
            reaped: self.reaped + 1,
            failed: self.failed || !success,
            failure_code: if !self.failed && !success {
                exit_code
            } else {
                self.failure_code
            },
            ..self
        }
    }
}

/// Runs `frame_count` jobs in barrier-separated batches of at most
/// `max_concurrency`.
pub struct BatchScheduler {
    frame_count: usize,
    max_concurrency: usize,
    next_index: usize,
    batch_start: usize,
    batch_end: usize,
    started: usize,
    reaped: usize,
    failed: bool,
    failure_code: Option<i32>,
}

impl View for BatchScheduler {
    type V = SchedulerView;

    closed spec fn view(&self) -> SchedulerView {
        SchedulerView {
            frame_count: self.frame_count as nat,
            max_concurrency: self.max_concurrency as nat,
            next_index: self.next_index as nat,
            batch_start: self.batch_start as nat,
            batch_end: self.batch_end as nat,
            started: self.started as nat,
            reaped: self.reaped as nat,
            failed: self.failed,
            failure_code: self.failure_code,
        }
    }
}

impl BatchScheduler {
    pub open spec fn inv(&self) -> bool {
        self@.inv()
    }

    pub fn new(frame_count: usize, max_concurrency: usize) -> (r: BatchScheduler)
        requires
            max_concurrency >= 1,
        ensures
            r.inv(),
            r@ == SchedulerView::initial(frame_count as nat, max_concurrency as nat),
    {
        BatchScheduler {
            frame_count,
            max_concurrency,
            next_index: 0,
            batch_start: 0,
            batch_end: 0,
            started: 0,
            reaped: 0,
            failed: false,
            failure_code: None,
        }
    }

    /// What to do next. The run ends only once every started process was
    /// waited on, and it ends in `Failed` exactly when a failure was reported.
    pub fn next_action(&self) -> (r: SchedulerAction)
        requires
            self.inv(),
        ensures
            r == self@.next_action(),
            r is Spawn ==> r->Spawn_0 == self@.next_index && !self@.failed && self@.next_index
                < self@.frame_count,
            r is Done ==> !self@.failed && self@.started == self@.reaped && self@.reaped
                == self@.frame_count,
            r is Failed ==> r->Failed_0 == self@.failure_code && self@.failed && self@.started == self@.reaped,
    {
        if !self.failed && self.next_index < self.batch_end {
            SchedulerAction::Spawn(self.next_index)
        } else if self.started > self.reaped {
            SchedulerAction::Reap
        } else if self.failed {
            SchedulerAction::Failed(self.failure_code)
        } else if self.next_index < self.frame_count {
            SchedulerAction::Spawn(self.next_index)
        } else {
            SchedulerAction::Done
        }
    }

    /// Records that the process of the frame named by `Spawn` is running.
    pub fn job_started(&mut self)
        requires
            old(self).inv(),
            old(self)@.next_action() is Spawn,
        ensures
            final(self).inv(),
            final(self)@ == old(self)@.after_start(),
    {
        if self.next_index == self.batch_end {
            self.batch_start = self.next_index;
            self.batch_end = if self.max_concurrency <= self.frame_count - self.next_index {
                self.next_index + self.max_concurrency
            } else {
                self.frame_count
            };
        }
        self.next_index = self.next_index + 1;
        self.started = self.started + 1;
    }

    /// Records that the process of the frame named by `Spawn` could not start.
    pub fn spawn_failed(&mut self)
        requires
            old(self).inv(),
            old(self)@.next_action() is Spawn,
        ensures
            final(self).inv(),
            final(self)@ == old(self)@.after_spawn_failure(),
    {
        self.failed = true;
    }

    /// Records that one running process exited, successfully or not, and
    /// returns the progress: processes finished so far, and the frame count.
    pub fn job_finished(&mut self, success: bool, exit_code: Option<i32>) -> (r: (usize, usize))
        requires
            old(self).inv(),
            old(self)@.in_flight() > 0,
        ensures
            final(self).inv(),
            final(self)@ == old(self)@.after_finish(success, exit_code),
            r.0 == final(self)@.reaped,
            r.1 == final(self)@.frame_count,
    {
        self.reaped = self.reaped + 1;
        if !success {
            if !self.failed {
                self.failure_code = exit_code;
            }
            self.failed = true;
        }
        (self.reaped, self.frame_count)
    }

    /// The number of processes that have finished.
    pub fn completed(&self) -> (r: usize)
        ensures
            r == self@.reaped,
    {
        self.reaped
    }

    /// The number of processes running now.
    pub fn in_flight(&self) -> (r: usize)
        requires
            self.inv(),
        ensures
            r == self@.in_flight(),
    {
        self.started - self.reaped
    }
}

/// In every state that the scheduler can reach, no more processes run than
/// the concurrency limit allows, whatever the frame count: the initial state
/// keeps the invariant, every transition that the driver may take keeps it, and
/// the invariant bounds the number of running processes by the limit.
pub proof fn lemma_in_flight_bounded(s: SchedulerView, success: bool, exit_code: Option<i32>)
    ensures
        s.max_concurrency >= 1 ==> SchedulerView::initial(s.frame_count, s.max_concurrency).inv(),
        s.inv() ==> s.in_flight() <= s.max_concurrency,
        s.inv() && s.next_action() is Spawn ==> s.after_start().inv()
            && s.after_spawn_failure().inv(),
        s.inv() && s.in_flight() > 0 ==> s.after_finish(success, exit_code).inv(),
{
}

/// Once a process has failed, no further process starts and the run does not
/// succeed: the scheduler only waits on the processes still running and then
/// reports the failure, with every started process waited on.
pub proof fn lemma_failure_drains(s: SchedulerView)
    requires
        s.inv(),
        s.failed,
    ensures
        s.in_flight() > 0 ==> s.next_action() == SchedulerAction::Reap,
        s.in_flight() == 0 ==> s.next_action() == SchedulerAction::Failed(s.failure_code),
        forall|success: bool, exit_code: Option<i32>|
            (#[trigger] s.after_finish(success, exit_code)).failed,
{
}

} // verus!
