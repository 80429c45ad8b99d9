//! The controller: what keys, ticks and worker reports make of the simulation,
//! and what the caller has to do to the workers in turn.

use std::collections::HashMap;
use vstd::prelude::*;

use crate::clock::{elapsed_since, NANOS_PER_SEC};
use crate::process::{ProcState, Ratio, UpdateMsg};
use crate::random::random_totals;
use crate::roster::{copy_unfinished, fresh_table, restart_all, set_all_going};
use crate::screen::{details, header, process_rows, summary, Row};

verus! {

broadcast use vstd::std_specs::hash::group_hash_axioms;

/// What the controller waits for: input, or the next tick.
#[derive(Debug, PartialEq, Eq)]
pub enum Event<I> {
    Input(I),
    Tick,
}

/// A key, as far as the controller tells keys apart.
#[derive(Debug, Clone, Copy, PartialEq, Eq, Structural)]
pub enum Key {
    Char(char),
    Up,
    Down,
    Other,
}

/// What the controller asks of its caller.
#[derive(Debug, Clone, Copy, PartialEq, Eq, Structural)]
pub enum Effect {
    /// Set the flag that tells the workers to give up.
    SetStop(bool),
    /// Set the flag that lets the workers work.
    SetRunning(bool),
    /// Start one more worker for each process of [`Simulation::snapshot`].
    SpawnWorkers,
    /// Wait until every worker has ended.
    JoinWorkers,
    /// Leave the simulation.
    Exit,
}

/// The simulation as a value.
#[verifier::ext_equal]
pub struct SimState {
    pub procs: Map<usize, ProcState>,
    pub num_procs: usize,
    pub sim_duration_secs: u64,
    /// The flag that lets the workers work.
    pub running: bool,
    /// The flag that tells the workers to give up.
    pub stop: bool,
    pub selected: usize,
    /// When the simulation was last started.
    pub started_at: Option<u128>,
    pub show_summary: bool,
}

impl SimState {
    /// The simulation before anything has happened to it.
    pub open spec fn initial(
        procs: Map<usize, ProcState>,
        num_procs: usize,
        sim_duration_secs: u64,
    ) -> SimState {
        SimState {
            procs,
            num_procs,
            sim_duration_secs,
            running: false,
            stop: false,
            selected: 0,
            started_at: None,
            show_summary: false,
        }
    }

    /// There is one process under each number below `num_procs`, which is also
    /// its id, and the selection names one of them where there is any.
    pub open spec fn inv(self) -> bool {
        &&& self.procs.dom().finite()
        &&& forall|k: usize| #[trigger] self.procs.contains_key(k) <==> k < self.num_procs
        &&& forall|k: usize| k < self.num_procs ==> (#[trigger] self.procs[k]).id == k
        &&& self.selected == 0 || self.selected < self.num_procs
    }

    /// How long the simulation has been going since it was last started.
    pub open spec fn elapsed(self, now: u128) -> u128 {
        match self.started_at {
            Some(start) => crate::clock::span(start, now),
            None => 0,
        }
    }

    /// The time of the simulation is up.
    pub open spec fn expired(self, now: u128) -> bool {
        self.started_at is Some && self.elapsed(now) >= self.sim_duration_secs * NANOS_PER_SEC
    }

    /// How much of the selected process is done; zero where none is selected.
    pub open spec fn gauge(self) -> Ratio {
        if self.procs.contains_key(self.selected) {
            self.procs[self.selected].ratio()
        } else {
            Ratio { num: 0, den: 1 }
        }
    }

    /// After a report of a worker. A report on an unknown process is ignored.
    pub open spec fn after_msg(self, msg: UpdateMsg, now: u128) -> SimState {
        let id = msg.subject();
        if self.procs.contains_key(id) {
            SimState { procs: self.procs.insert(id, self.procs[id].received(msg, now)), ..self }
        } else {
            self
        }
    }

    /// After the start key. It does nothing to a simulation that is running.
    pub open spec fn after_start(self, now: u128) -> SimState {
        if self.running {
            self
        } else {
            SimState {
                procs: crate::roster::all_restarted(self.procs),
                running: true,
                stop: false,
                started_at: Some(now),
                ..self
            }
        }
    }

    /// After the key that pauses and resumes.
    pub open spec fn after_pause(self) -> SimState {
        SimState {
            procs: crate::roster::all_set_going(self.procs, !self.running),
            running: !self.running,
            ..self
        }
    }

    /// After a key.
    pub open spec fn after_key(self, key: Key, now: u128) -> SimState {
        match key {
            Key::Char('q') => SimState { running: false, stop: true, ..self },
            Key::Char('s') => self.after_start(now),
            Key::Char('p') => self.after_pause(),
            Key::Up => SimState {
                selected: if self.selected > 0 { (self.selected - 1) as usize } else { 0 },
                ..self
            },
            Key::Down => SimState {
                selected: if self.selected + 1 < self.num_procs {
                    (self.selected + 1) as usize
                } else {
                    self.selected
                },
                ..self
            },
            _ => self,
        }
    }

    /// What a key asks of the caller, in order.
    pub open spec fn key_effects(self, key: Key) -> Seq<Effect> {
        match key {
            Key::Char('q') => seq![
                Effect::SetStop(true),
                Effect::SetRunning(false),
                Effect::JoinWorkers,
                Effect::Exit,
            ],
            Key::Char('s') => if self.running {
                seq![]
            } else {
                seq![Effect::SetStop(false), Effect::SetRunning(true), Effect::SpawnWorkers]
            },
            Key::Char('p') => seq![Effect::SetRunning(!self.running)],
            _ => seq![],
        }
    }

    /// After a tick. It stops a simulation whose time is up.
    pub open spec fn after_tick(self, now: u128) -> SimState {
        if self.expired(now) {
            SimState { running: false, stop: true, show_summary: true, ..self }
        } else {
            self
        }
    }

    /// What a tick asks of the caller, in order.
    pub open spec fn tick_effects(self, now: u128) -> Seq<Effect> {
        if self.expired(now) {
            seq![Effect::SetRunning(false), Effect::SetStop(true), Effect::JoinWorkers]
        } else {
            seq![]
        }
    }

    /// After an event; `None` says that no event can come any more.
    pub open spec fn after_event(self, event: Option<Event<Key>>, now: u128) -> SimState {
        match event {
            Some(Event::Input(key)) => self.after_key(key, now),
            Some(Event::Tick) => self.after_tick(now),
            None => self,
        }
    }

    /// What an event asks of the caller, in order.
    pub open spec fn event_effects(self, event: Option<Event<Key>>, now: u128) -> Seq<Effect> {
        match event {
            Some(Event::Input(key)) => self.key_effects(key),
            Some(Event::Tick) => self.tick_effects(now),
            None => seq![Effect::Exit],
        }
    }
}

/// The simulation.
#[derive(Debug)]
pub struct Simulation {
    procs: HashMap<usize, ProcState>,
    num_procs: usize,
    sim_duration_secs: u64,
    running: bool,
    stop: bool,
    selected: usize,
    started_at: Option<u128>,
    show_summary: bool,
}

impl View for Simulation {
    type V = SimState;

    closed spec fn view(&self) -> SimState {
        SimState {
            procs: self.procs@,
            num_procs: self.num_procs,
            sim_duration_secs: self.sim_duration_secs,
            running: self.running,
            stop: self.stop,
            selected: self.selected,
            started_at: self.started_at,
            show_summary: self.show_summary,
        }
    }
}

impl Simulation {
    /// A simulation of `num_procs` processes of random durations, none of them
    /// begun.
    pub fn new(num_procs: usize, sim_duration_secs: u64) -> (sim: Simulation)
        ensures
            sim@.inv(),
            exists|totals: Seq<u64>|
                #![trigger crate::roster::fresh_procs(totals)]
                {
                    &&& totals.len() == num_procs
                    &&& forall|i: int|
                        0 <= i < num_procs ==> crate::random::is_duration(#[trigger] totals[i])
                    &&& sim@ == SimState::initial(
                        crate::roster::fresh_procs(totals),
                        num_procs,
                        sim_duration_secs,
                    )
                },
    {
        let totals: Vec<u64> = random_totals(num_procs);
        Simulation::with_totals(&totals, sim_duration_secs)
    }

    /// A simulation of one process for each of `totals`, none of them begun.
    pub fn with_totals(totals: &Vec<u64>, sim_duration_secs: u64) -> (sim: Simulation)
        ensures
            sim@.inv(),
            sim@ == SimState::initial(
                crate::roster::fresh_procs(totals@),
                totals@.len() as usize,
                sim_duration_secs,
            ),
    {
        Simulation {
            procs: fresh_table(totals),
            num_procs: totals.len(),
            sim_duration_secs,
            running: false,
            stop: false,
            selected: 0,
            started_at: None,
            show_summary: false,
        }
    }

    /// Takes in a report of a worker, read at `now`.
    pub fn receive(&mut self, msg: UpdateMsg, now: u128)
        ensures
            final(self)@ == old(self)@.after_msg(msg, now),
            old(self)@.inv() ==> final(self)@.inv(),
    {
        let id: usize = msg.id();
        if let Some(found) = self.procs.get(&id) {
            let mut p: ProcState = *found;
            p.receive(msg, now);
            self.procs.insert(id, p);
        }
    }

    /// Takes in an event at `now`, `None` where no event can come any more, and
    /// says what the caller has to do, in order.
    pub fn handle(&mut self, event: Option<Event<Key>>, now: u128) -> (effects: Vec<Effect>)
        requires
            old(self)@.inv(),
        ensures
            final(self)@ == old(self)@.after_event(event, now),
            effects@ == old(self)@.event_effects(event, now),
            final(self)@.inv(),
    {
        match event {
            Some(Event::Input(key)) => self.handle_key(key, now),
            Some(Event::Tick) => self.handle_tick(now),
            None => vec![Effect::Exit],
        }
    }

    /// Takes in a key at `now`.
    pub fn handle_key(&mut self, key: Key, now: u128) -> (effects: Vec<Effect>)
        requires
            old(self)@.inv(),
        ensures
            final(self)@ == old(self)@.after_key(key, now),
            effects@ == old(self)@.key_effects(key),
            final(self)@.inv(),
    {
        match key {
            Key::Char('q') => {
                self.stop = true;
                self.running = false;
                vec![
                    Effect::SetStop(true),
                    Effect::SetRunning(false),
                    Effect::JoinWorkers,
                    Effect::Exit,
                ]
            },
            Key::Char('s') => {
                if self.running {
                    return vec![];
                }
                self.stop = false;
                self.running = true;
                restart_all(&mut self.procs);
                self.started_at = Some(now);
                vec![Effect::SetStop(false), Effect::SetRunning(true), Effect::SpawnWorkers]
            },
            Key::Char('p') => {
                let going: bool = !self.running;
                self.running = going;
                set_all_going(&mut self.procs, going);
                vec![Effect::SetRunning(going)]
            },
            Key::Up => {
                if self.selected > 0 {
                    self.selected = self.selected - 1;
                }
                vec![]
            },
            Key::Down => {
                proof {
                    crate::roster::lemma_dense_len(self.procs@, self.num_procs);
                }
                if self.selected + 1 < self.procs.len() {
                    self.selected = self.selected + 1;
                }
                vec![]
            },
            _ => vec![],
        }
    }

    /// Takes in a tick at `now`.
    pub fn handle_tick(&mut self, now: u128) -> (effects: Vec<Effect>)
        ensures
            final(self)@ == old(self)@.after_tick(now),
            effects@ == old(self)@.tick_effects(now),
            old(self)@.inv() ==> final(self)@.inv(),
    {
        if let Some(start) = self.started_at {
            if elapsed_since(start, now) >= self.sim_duration_secs as u128 * NANOS_PER_SEC {
                self.running = false;
                self.stop = true;
                self.show_summary = true;
                return vec![Effect::SetRunning(false), Effect::SetStop(true), Effect::JoinWorkers];
            }
        }
        vec![]
    }

    /// A copy of the processes that have not finished: those that get a worker
    /// when the simulation is started.
    pub fn snapshot(&self) -> (snapshot: HashMap<usize, ProcState>)
        ensures
            snapshot@ == crate::roster::unfinished(self@.procs),
    {
        copy_unfinished(&self.procs)
    }

    /// How long the simulation has been going since it was last started, in
    /// nanoseconds.
    pub fn elapsed(&self, now: u128) -> (d: u128)
        ensures
            d == self@.elapsed(now),
    {
        match self.started_at {
            Some(start) => elapsed_since(start, now),
            None => 0,
        }
    }

    /// The process under `id`.
    pub fn process(&self, id: usize) -> (p: Option<ProcState>)
        ensures
            p == self@.procs.get(id),
    {
        match self.procs.get(&id) {
            Some(p) => Some(*p),
            None => None,
        }
    }

    /// The number of the selected process.
    pub fn selected(&self) -> (id: usize)
        ensures
            id == self@.selected,
    {
        self.selected
    }

    /// Tells whether the headline is the summary's.
    pub fn show_summary(&self) -> (r: bool)
        ensures
            r == self@.show_summary,
    {
        self.show_summary
    }

    /// The headline, for an elapsed time in seconds with the digits `elapsed`.
    pub fn header(&self, show_summary: bool, elapsed: &str) -> (s: String)
        ensures
            s@ == crate::screen::header_text(show_summary, elapsed@, self@.sim_duration_secs),
    {
        header(show_summary, elapsed, self.sim_duration_secs)
    }

    /// The list of the processes.
    pub fn rows(&self) -> (rows: Vec<Row>)
        ensures
            crate::screen::shows(rows@, self@.procs),
    {
        process_rows(&self.procs)
    }

    /// How much of the selected process is done, from zero to one; zero where
    /// none is selected.
    pub fn gauge(&self) -> (r: Ratio)
        ensures
            r == self@.gauge(),
            r.in_unit(),
    {
        match self.procs.get(&self.selected) {
            Some(p) => p.progress_ratio(),
            None => Ratio { num: 0, den: 1 },
        }
    }

    /// The details of the selected process, for a percentage with the digits
    /// `percent`.
    pub fn details(&self, percent: &str) -> (s: String)
        ensures
            s@ == crate::screen::detail_text(self@.procs.get(self@.selected), percent@),
    {
        details(self.process(self.selected), percent)
    }

    /// The closing summary, line by line.
    pub fn summary(&self) -> (lines: Vec<String>)
        ensures
            crate::screen::texts(lines@) == crate::screen::summary_text(
                self@.procs,
                self@.num_procs,
            ),
    {
        summary(&self.procs, self.num_procs)
    }
}

} // verus!
