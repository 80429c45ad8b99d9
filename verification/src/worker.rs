//! The worker of one process: what it does next, given the two flags that it
//! shares with the controller, and what it reports.

use vstd::prelude::*;

use crate::process::UpdateMsg;

verus! {

/// The piece of work between two reports, in milliseconds.
pub const STEP_MS: u64 = 100;

/// How long a worker that may not work waits before it looks again.
pub const IDLE_MS: u64 = 150;

/// What a worker does next.
#[derive(Debug, Clone, Copy, PartialEq, Eq, Structural)]
pub enum WorkerStep {
    /// Sleep for `sleep_ms`, then count it as work with [`Worker::work`] and
    /// send the report.
    Work { sleep_ms: u64 },
    /// Sleep for `sleep_ms`, which counts for nothing.
    Wait { sleep_ms: u64 },
    /// Send this report and end.
    End { report: UpdateMsg },
}

/// The worker of the process `id`.
#[derive(Debug, Clone, Copy, PartialEq, Eq, Structural)]
pub struct Worker {
    pub id: usize,
    pub total_ms: u64,
    pub elapsed_ms: u64,
}

impl Worker {
    /// The worker has not done more than there is to do.
    pub open spec fn inv(self) -> bool {
        self.elapsed_ms <= self.total_ms
    }

    /// The worker of `id` before it has done anything.
    pub open spec fn fresh(id: usize, total_ms: u64) -> Worker {
        Worker { id, total_ms, elapsed_ms: 0 }
    }

    /// What the worker does next when it finds the flags so.
    pub open spec fn decision(self, stop: bool, running: bool) -> WorkerStep {
        if self.elapsed_ms >= self.total_ms {
            WorkerStep::End {
                report: UpdateMsg::Finished { id: self.id, elapsed_ms: self.elapsed_ms },
            }
        } else if stop {
            WorkerStep::End { report: UpdateMsg::Stopped { id: self.id } }
        } else if running {
            WorkerStep::Work { sleep_ms: STEP_MS }
        } else {
            WorkerStep::Wait { sleep_ms: IDLE_MS }
        }
    }

    /// The worker after one more piece of work, cut off at the total.
    pub open spec fn worked(self) -> Worker {
        Worker {
            elapsed_ms: if self.elapsed_ms + STEP_MS < self.total_ms {
                (self.elapsed_ms + STEP_MS) as u64
            } else {
                self.total_ms
            },
            ..self
        }
    }

    /// The report after a piece of work.
    pub open spec fn progress(self) -> UpdateMsg {
        UpdateMsg::Progress { id: self.id, elapsed_ms: self.elapsed_ms }
    }

    /// The worker of `id` before it has done anything, and its first report.
    pub fn begin(id: usize, total_ms: u64) -> (r: (Worker, UpdateMsg))
        ensures
            r.0 == Worker::fresh(id, total_ms),
            r.0.inv(),
            r.1 == (UpdateMsg::Started { id }),
    {
        (Worker { id, total_ms, elapsed_ms: 0 }, UpdateMsg::Started { id })
    }

    /// What the worker does next when it finds the flags so.
    pub fn next(&self, stop: bool, running: bool) -> (step: WorkerStep)
        ensures
            step == self.decision(stop, running),
    {
        if self.elapsed_ms < self.total_ms {
            if stop {
                return WorkerStep::End { report: UpdateMsg::Stopped { id: self.id } };
            }
            if running {
                WorkerStep::Work { sleep_ms: STEP_MS }
            } else {
                WorkerStep::Wait { sleep_ms: IDLE_MS }
            }
        } else {
            WorkerStep::End {
                report: UpdateMsg::Finished { id: self.id, elapsed_ms: self.elapsed_ms },
            }
        }
    }

    /// Counts a piece of work and gives the report of it.
    pub fn work(&mut self) -> (report: UpdateMsg)
        requires
            old(self).elapsed_ms + STEP_MS <= u64::MAX,
        ensures
            *final(self) == old(self).worked(),
            final(self).inv(),
            report == old(self).worked().progress(),
    {
        let sum: u64 = self.elapsed_ms + STEP_MS;
        self.elapsed_ms = if sum < self.total_ms { sum } else { self.total_ms };
        UpdateMsg::Progress { id: self.id, elapsed_ms: self.elapsed_ms }
    }
}

} // verus!
