//! One simulated process, and what each report of its worker makes of it.

use vstd::prelude::*;

verus! {

/// Where a simulated process stands.
#[derive(Debug, Clone, Copy, PartialEq, Eq, Structural)]
pub enum ProcStatus {
    Running,
    Finished,
    Paused,
    Stopped,
}

/// A fraction `num / den`, kept exact.
#[derive(Debug, Clone, Copy, PartialEq, Eq, Structural)]
pub struct Ratio {
    pub num: u64,
    pub den: u64,
}

/// What a worker reports of its process.
#[derive(Debug, Clone, Copy, PartialEq, Eq, Structural)]
pub enum UpdateMsg {
    Progress { id: usize, elapsed_ms: u64 },
    Finished { id: usize, elapsed_ms: u64 },
    Started { id: usize },
    Stopped { id: usize },
}

/// One simulated process.
#[derive(Debug, Clone, Copy, PartialEq, Eq)]
pub struct ProcState {
    pub id: usize,
    pub total_ms: u64,
    pub elapsed_ms: u64,
    pub status: ProcStatus,
    /// When the worker last reported that it began.
    pub started_at: Option<u128>,
    /// When the process last came to rest.
    pub finished_at: Option<u128>,
}

impl Ratio {
    /// The fraction lies between zero and one.
    pub open spec fn in_unit(self) -> bool {
        0 < self.den && self.num <= self.den
    }

    /// The fraction, or one where it is more than one.
    pub open spec fn capped(self) -> Ratio {
        if self.num > self.den {
            Ratio { num: self.den, den: self.den }
        } else {
            self
        }
    }

    /// Brings a fraction above one down to one.
    pub fn clamp_to_one(self) -> (r: Ratio)
        ensures
            r == self.capped(),
            0 < self.den ==> r.in_unit(),
    {
        if self.num > self.den {
            Ratio { num: self.den, den: self.den }
        } else {
            self
        }
    }
}

impl UpdateMsg {
    /// The process that the report is about.
    pub open spec fn subject(self) -> usize {
        match self {
            UpdateMsg::Progress { id, .. } => id,
            UpdateMsg::Finished { id, .. } => id,
            UpdateMsg::Started { id } => id,
            UpdateMsg::Stopped { id } => id,
        }
    }

    /// The process that the report is about.
    pub fn id(&self) -> (id: usize)
        ensures
            id == self.subject(),
    {
        match *self {
            UpdateMsg::Progress { id, .. } => id,
            UpdateMsg::Finished { id, .. } => id,
            UpdateMsg::Started { id } => id,
            UpdateMsg::Stopped { id } => id,
        }
    }
}

impl ProcState {
    /// A process that has not begun.
    pub open spec fn fresh(id: usize, total_ms: u64) -> ProcState {
        ProcState {
            id,
            total_ms,
            elapsed_ms: 0,
            status: ProcStatus::Paused,
            started_at: None,
            finished_at: None,
        }
    }

    /// The process is out of reach of start and pause.
    pub open spec fn at_rest(self) -> bool {
        self.status is Finished || self.status is Stopped
    }

    /// Part of the work done, from zero to one; a process without work is done
    /// from the outset, and one with more done than there is to do counts as done.
    pub open spec fn ratio(self) -> Ratio {
        if self.total_ms == 0 {
            Ratio { num: 1, den: 1 }
        } else {
            Ratio { num: self.elapsed_ms, den: self.total_ms }.capped()
        }
    }

    /// The process after its worker's report `msg`, read at `now`.
    pub open spec fn received(self, msg: UpdateMsg, now: u128) -> ProcState {
        match msg {
            UpdateMsg::Started { .. } => ProcState {
                status: ProcStatus::Running,
                started_at: Some(now),
                ..self
            },
            UpdateMsg::Progress { elapsed_ms, .. } => {
                let done = elapsed_ms >= self.total_ms;
                ProcState {
                    elapsed_ms: if done { self.total_ms } else { elapsed_ms },
                    status: if done {
                        ProcStatus::Finished
                    } else if self.status is Paused {
                        ProcStatus::Paused
                    } else {
                        ProcStatus::Running
                    },
                    finished_at: if done { Some(now) } else { self.finished_at },
                    ..self
                }
            },
            UpdateMsg::Finished { elapsed_ms, .. } => ProcState {
                elapsed_ms,
                status: ProcStatus::Finished,
                finished_at: Some(now),
                ..self
            },
            UpdateMsg::Stopped { .. } => ProcState {
                status: ProcStatus::Stopped,
                finished_at: Some(now),
                ..self
            },
        }
    }

    /// The process after a start of the simulation: begun afresh unless at rest.
    pub open spec fn restarted(self) -> ProcState {
        if self.at_rest() {
            self
        } else {
            ProcState {
                elapsed_ms: 0,
                started_at: None,
                finished_at: None,
                status: ProcStatus::Running,
                ..self
            }
        }
    }

    /// The process after the simulation was set going (`going`) or halted,
    /// unless at rest.
    pub open spec fn set_going(self, going: bool) -> ProcState {
        if self.at_rest() {
            self
        } else {
            ProcState {
                status: if going { ProcStatus::Running } else { ProcStatus::Paused },
                ..self
            }
        }
    }

    /// A process that has not begun: paused, with nothing done.
    pub fn new(id: usize, total_ms: u64) -> (p: ProcState)
        ensures
            p == ProcState::fresh(id, total_ms),
    {
        ProcState {
            id,
            total_ms,
            elapsed_ms: 0,
            status: ProcStatus::Paused,
            started_at: None,
            finished_at: None,
        }
    }

    /// Tells whether the process has finished or was stopped.
    pub fn is_at_rest(&self) -> (r: bool)
        ensures
            r == self.at_rest(),
    {
        matches!(self.status, ProcStatus::Finished | ProcStatus::Stopped)
    }

    /// Part of the work done, from zero to one, as an exact fraction.
    pub fn progress_ratio(&self) -> (r: Ratio)
        ensures
            r == self.ratio(),
            r.in_unit(),
    {
        if self.total_ms == 0 {
            return Ratio { num: 1, den: 1 };
        }
        Ratio { num: self.elapsed_ms, den: self.total_ms }.clamp_to_one()
    }

    /// Takes in a report of the process's worker.
    pub fn receive(&mut self, msg: UpdateMsg, now: u128)
        ensures
            *final(self) == old(self).received(msg, now),
    {
        match msg {
            UpdateMsg::Started { .. } => {
                self.status = ProcStatus::Running;
                self.started_at = Some(now);
            },
            UpdateMsg::Progress { elapsed_ms, .. } => {
                self.elapsed_ms = if elapsed_ms < self.total_ms {
                    elapsed_ms
                } else {
                    self.total_ms
                };
                if self.elapsed_ms >= self.total_ms {
                    self.status = ProcStatus::Finished;
                    self.finished_at = Some(now);
                } else if !matches!(self.status, ProcStatus::Paused) {
                    self.status = ProcStatus::Running;
                }
            },
            UpdateMsg::Finished { elapsed_ms, .. } => {
                self.elapsed_ms = elapsed_ms;
                self.status = ProcStatus::Finished;
                self.finished_at = Some(now);
            },
            UpdateMsg::Stopped { .. } => {
                self.status = ProcStatus::Stopped;
                self.finished_at = Some(now);
            },
        }
    }

    /// Begins the process afresh, unless it is at rest.
    pub fn restart(&mut self)
        ensures
            *final(self) == old(self).restarted(),
    {
        if !self.is_at_rest() {
            self.elapsed_ms = 0;
            self.started_at = None;
            self.finished_at = None;
            self.status = ProcStatus::Running;
        }
    }

    /// Marks the process running or paused, unless it is at rest.
    pub fn mark_going(&mut self, going: bool)
        ensures
            *final(self) == old(self).set_going(going),
    {
        if !self.is_at_rest() {
            self.status = if going { ProcStatus::Running } else { ProcStatus::Paused };
        }
    }
}

} // verus!
