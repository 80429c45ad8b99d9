//! What each operation of the simulation does, told by what goes in and what
//! comes out.

use vstd::prelude::*;

use crate::clock::Ticker;
use crate::process::{ProcState, Ratio, UpdateMsg};
use crate::simulation::{Effect, Event, Key, SimState};
use crate::worker::{Worker, WorkerStep};

verus! {

/// `m` is the smaller of `a` and `b`.
pub open spec fn is_least(m: int, a: int, b: int) -> bool {
    m <= a && m <= b && (m == a || m == b)
}

/// The event of pressing `key`.
pub open spec fn press(key: Key) -> Option<Event<Key>> {
    Some(Event::Input(key))
}

/// `a` and `b` agree on everything but the processes.
pub open spec fn same_but_processes(a: SimState, b: SimState) -> bool {
    &&& a.num_procs == b.num_procs
    &&& a.sim_duration_secs == b.sim_duration_secs
    &&& a.running == b.running
    &&& a.stop == b.stop
    &&& a.selected == b.selected
    &&& a.started_at == b.started_at
    &&& a.show_summary == b.show_summary
}

/// A report names its process, whatever its kind.
pub proof fn law_report_names_its_process(id: usize, elapsed_ms: u64)
    ensures
        (UpdateMsg::Progress { id, elapsed_ms }).subject() == id,
        (UpdateMsg::Finished { id, elapsed_ms }).subject() == id,
        (UpdateMsg::Started { id }).subject() == id,
        (UpdateMsg::Stopped { id }).subject() == id,
{
}

/// After a report of progress, what is done is the smaller of what is reported
/// and what there is to do; the process is finished if and only if that is all
/// of it, is otherwise paused if it was and running if it was not, and the time
/// of finishing is noted when it finishes. Nothing else of it changes.
pub proof fn law_progress_report(p: ProcState, id: usize, elapsed_ms: u64, now: u128)
    ensures
        ({
            let q = p.received(UpdateMsg::Progress { id, elapsed_ms }, now);
            &&& is_least(q.elapsed_ms as int, elapsed_ms as int, p.total_ms as int)
            &&& elapsed_ms < p.total_ms ==> q.elapsed_ms == elapsed_ms
            &&& q.status is Finished <==> p.total_ms <= elapsed_ms
            &&& q.status is Paused <==> elapsed_ms < p.total_ms && p.status is Paused
            &&& q.status is Running <==> elapsed_ms < p.total_ms && !(p.status is Paused)
            &&& q.status is Finished ==> q.finished_at == Some(now)
            &&& !(q.status is Finished) ==> q.finished_at == p.finished_at
            &&& q.id == p.id && q.total_ms == p.total_ms && q.started_at == p.started_at
        }),
{
}

/// Of two reports of progress, the one that claims more leaves no less done, and
/// strictly more where it claims no more than there is to do.
pub proof fn law_more_progress_is_more_done(
    p: ProcState,
    id: usize,
    less: u64,
    more: u64,
    now: u128,
)
    requires
        less < more,
    ensures
        ({
            let a = p.received(UpdateMsg::Progress { id, elapsed_ms: less }, now).elapsed_ms;
            let b = p.received(UpdateMsg::Progress { id, elapsed_ms: more }, now).elapsed_ms;
            &&& a <= b
            &&& more <= p.total_ms ==> b - a == more - less
        }),
{
}

/// The last report of progress alone says what is done.
pub proof fn law_last_progress_counts(
    p: ProcState,
    id: usize,
    first: u64,
    last: u64,
    now: u128,
    later: u128,
)
    ensures
        p.received(UpdateMsg::Progress { id, elapsed_ms: first }, now).received(
            UpdateMsg::Progress { id, elapsed_ms: last },
            later,
        ).elapsed_ms == p.received(UpdateMsg::Progress { id, elapsed_ms: last }, later).elapsed_ms,
{
}

/// A worker that begins sets its process running and has the time noted, and
/// nothing else changes, whatever the process was before.
pub proof fn law_started_report(p: ProcState, id: usize, now: u128)
    ensures
        ({
            let q = p.received(UpdateMsg::Started { id }, now);
            &&& q.status is Running
            &&& q.started_at == Some(now)
            &&& q.id == p.id && q.total_ms == p.total_ms
            &&& q.elapsed_ms == p.elapsed_ms && q.finished_at == p.finished_at
        }),
{
}

/// A worker that finishes has its claim taken as it is and the time noted, and
/// nothing else changes, whatever the process was before.
pub proof fn law_finished_report(p: ProcState, id: usize, elapsed_ms: u64, now: u128)
    ensures
        ({
            let q = p.received(UpdateMsg::Finished { id, elapsed_ms }, now);
            &&& q.status is Finished
            &&& q.elapsed_ms == elapsed_ms
            &&& q.finished_at == Some(now)
            &&& q.id == p.id && q.total_ms == p.total_ms && q.started_at == p.started_at
        }),
{
}

/// A worker that gives up stops its process and has the time noted; what is done
/// stays done, and nothing else changes, whatever the process was before.
pub proof fn law_stopped_report(p: ProcState, id: usize, now: u128)
    ensures
        ({
            let q = p.received(UpdateMsg::Stopped { id }, now);
            &&& q.status is Stopped
            &&& q.elapsed_ms == p.elapsed_ms
            &&& q.finished_at == Some(now)
            &&& q.id == p.id && q.total_ms == p.total_ms && q.started_at == p.started_at
        }),
{
}

/// The simulation hands a report to the process that it names, and to no other.
pub proof fn law_report_is_delivered(s: SimState, msg: UpdateMsg, now: u128)
    ensures
        same_but_processes(s, s.after_msg(msg, now)),
        forall|k: usize| #[trigger]
            s.after_msg(msg, now).procs.contains_key(k) <==> s.procs.contains_key(k),
        forall|k: usize|
            s.procs.contains_key(k) ==> #[trigger] s.after_msg(msg, now).procs[k] == if k
                == msg.subject() {
                s.procs[k].received(msg, now)
            } else {
                s.procs[k]
            },
{
}

/// To restart a process that has neither finished nor stopped is to set it
/// running with nothing done and no times noted; one that has is left alone.
pub proof fn law_restart(p: ProcState)
    ensures
        ({
            let q = p.restarted();
            &&& q.id == p.id && q.total_ms == p.total_ms
            &&& p.status is Finished || p.status is Stopped ==> q == p
            &&& p.status is Running || p.status is Paused ==> {
                &&& q.status is Running
                &&& q.elapsed_ms == 0
                &&& q.started_at is None && q.finished_at is None
            }
        }),
{
}

/// To set a process going that has neither finished nor stopped is to mark it
/// running, and to halt it is to mark it paused, whatever it has done; nothing
/// but the mark changes.
pub proof fn law_set_going(p: ProcState, going: bool)
    ensures
        ({
            let q = p.set_going(going);
            &&& p.status is Finished || p.status is Stopped ==> q == p
            &&& p.status is Running || p.status is Paused ==> {
                &&& going <==> q.status is Running
                &&& !going <==> q.status is Paused
            }
            &&& q.id == p.id && q.total_ms == p.total_ms && q.elapsed_ms == p.elapsed_ms
            &&& q.started_at == p.started_at && q.finished_at == p.finished_at
        }),
{
}

/// The start key on a halted simulation sets the flags, notes the time, and
/// begins afresh every process that has neither finished nor stopped; it asks
/// for the flags to be set and the workers to be started, in this order. The
/// selection and the headline stay.
pub proof fn law_start_key(s: SimState, now: u128)
    requires
        !s.running,
    ensures
        ({
            let t = s.after_event(press(Key::Char('s')), now);
            &&& t.running && !t.stop && t.started_at == Some(now)
            &&& t.selected == s.selected && t.show_summary == s.show_summary
            &&& t.num_procs == s.num_procs && t.sim_duration_secs == s.sim_duration_secs
            &&& forall|k: usize| #[trigger] t.procs.contains_key(k) <==> s.procs.contains_key(k)
            &&& forall|k: usize|
                s.procs.contains_key(k) ==> {
                    let p = s.procs[k];
                    let q = #[trigger] t.procs[k];
                    &&& p.status is Finished || p.status is Stopped ==> q == p
                    &&& p.status is Running || p.status is Paused ==> {
                        &&& q.status is Running && q.elapsed_ms == 0
                        &&& q.started_at is None && q.finished_at is None
                        &&& q.id == p.id && q.total_ms == p.total_ms
                    }
                }
        }),
        ({
            let e = s.event_effects(press(Key::Char('s')), now);
            &&& e.len() == 3
            &&& e[0] == Effect::SetStop(false)
            &&& e[1] == Effect::SetRunning(true)
            &&& e[2] == Effect::SpawnWorkers
        }),
{
}

/// The start key on a running simulation changes nothing and asks for nothing.
pub proof fn law_start_key_while_running(s: SimState, now: u128)
    requires
        s.running,
    ensures
        s.after_event(press(Key::Char('s')), now) == s,
        s.event_effects(press(Key::Char('s')), now).len() == 0,
{
}

/// The pause key turns the running flag over, asks for just that, and marks every
/// process that has neither finished nor stopped paused where the simulation was
/// running, and running where it was not, whatever it has done. Nothing else of a
/// process changes, and nothing else of the simulation.
pub proof fn law_pause_key(s: SimState, now: u128)
    ensures
        ({
            let t = s.after_event(press(Key::Char('p')), now);
            &&& t.running == !s.running
            &&& t.stop == s.stop && t.started_at == s.started_at
            &&& t.selected == s.selected && t.show_summary == s.show_summary
            &&& t.num_procs == s.num_procs && t.sim_duration_secs == s.sim_duration_secs
            &&& forall|k: usize| #[trigger] t.procs.contains_key(k) <==> s.procs.contains_key(k)
            &&& forall|k: usize|
                s.procs.contains_key(k) ==> {
                    let p = s.procs[k];
                    let q = #[trigger] t.procs[k];
                    &&& p.status is Finished || p.status is Stopped ==> q.status == p.status
                    &&& p.status is Running || p.status is Paused ==> {
                        &&& s.running <==> q.status is Paused
                        &&& !s.running <==> q.status is Running
                    }
                    &&& q.id == p.id && q.total_ms == p.total_ms && q.elapsed_ms == p.elapsed_ms
                    &&& q.started_at == p.started_at && q.finished_at == p.finished_at
                }
        }),
        s.event_effects(press(Key::Char('p')), now).len() == 1,
        s.event_effects(press(Key::Char('p')), now)[0] == Effect::SetRunning(!s.running),
{
}

/// The quit key takes the flags down, touches nothing else, and asks for the
/// workers to be told and waited for before the simulation is left.
pub proof fn law_quit_key(s: SimState, now: u128)
    ensures
        ({
            let t = s.after_event(press(Key::Char('q')), now);
            &&& !t.running && t.stop
            &&& t.procs == s.procs && t.started_at == s.started_at
            &&& t.selected == s.selected && t.show_summary == s.show_summary
            &&& t.num_procs == s.num_procs && t.sim_duration_secs == s.sim_duration_secs
        }),
        ({
            let e = s.event_effects(press(Key::Char('q')), now);
            &&& e.len() == 4
            &&& e[0] == Effect::SetStop(true)
            &&& e[1] == Effect::SetRunning(false)
            &&& e[2] == Effect::JoinWorkers
            &&& e[3] == Effect::Exit
        }),
{
}

/// Down moves the selection on by exactly one where there is a process after it,
/// and up moves it back by exactly one where there is one before it; else it
/// stays. Neither changes anything else or asks for anything.
pub proof fn law_arrow_keys(s: SimState, now: u128)
    ensures
        ({
            let t = s.after_event(press(Key::Down), now);
            &&& s.selected + 1 < s.num_procs ==> t.selected == s.selected + 1
            &&& s.selected + 1 >= s.num_procs ==> t.selected == s.selected
            &&& t.procs == s.procs && same_but_processes(t, SimState { selected: t.selected, ..s })
        }),
        ({
            let t = s.after_event(press(Key::Up), now);
            &&& s.selected > 0 ==> t.selected == s.selected - 1
            &&& s.selected == 0 ==> t.selected == 0
            &&& t.procs == s.procs && same_but_processes(t, SimState { selected: t.selected, ..s })
        }),
        s.event_effects(press(Key::Down), now).len() == 0,
        s.event_effects(press(Key::Up), now).len() == 0,
{
}

/// The simulation after `key` was pressed `n` times.
pub open spec fn pressed(s: SimState, key: Key, n: nat, now: u128) -> SimState
    decreases n,
{
    if n == 0 {
        s
    } else {
        pressed(s, key, (n - 1) as nat, now).after_event(press(key), now)
    }
}

/// From any selection, `n` times down selects the process `n` places further or
/// the last one, and `n` times up the one `n` places before or the first; so
/// every process can be reached from every other.
pub proof fn law_arrows_reach_every_process(s: SimState, n: nat, now: u128)
    requires
        s.selected < s.num_procs,
    ensures
        is_least(
            pressed(s, Key::Down, n, now).selected as int,
            s.selected + n,
            s.num_procs - 1,
        ),
        pressed(s, Key::Up, n, now).selected == if n <= s.selected {
            s.selected - n
        } else {
            0
        },
        pressed(s, Key::Down, n, now).num_procs == s.num_procs,
        pressed(s, Key::Up, n, now).num_procs == s.num_procs,
    decreases n,
{
    if n > 0 {
        law_arrows_reach_every_process(s, (n - 1) as nat, now);
    }
}

/// Any other key changes nothing and asks for nothing.
pub proof fn law_other_keys(s: SimState, key: Key, now: u128)
    requires
        key != Key::Up,
        key != Key::Down,
        key != Key::Char('q'),
        key != Key::Char('s'),
        key != Key::Char('p'),
    ensures
        s.after_event(press(key), now) == s,
        s.event_effects(press(key), now).len() == 0,
{
}

/// An event is the key or the tick that it brings, and no more.
pub proof fn law_events(s: SimState, key: Key, now: u128)
    ensures
        s.after_key(key, now) == s.after_event(press(key), now),
        s.key_effects(key) == s.event_effects(press(key), now),
        s.after_tick(now) == s.after_event(Some(Event::Tick), now),
        s.tick_effects(now) == s.event_effects(Some(Event::Tick), now),
{
}

/// The end of events changes nothing and asks to leave.
pub proof fn law_end_of_events(s: SimState, now: u128)
    ensures
        s.after_event(None, now) == s,
        s.event_effects(None, now).len() == 1,
        s.event_effects(None, now)[0] == Effect::Exit,
{
}

/// A tick stops a simulation that was started at `start` if and only if the
/// seconds that it lasts have gone by since: the flags are taken down, the
/// summary is shown, and the workers are waited for. Any other tick changes
/// nothing and asks for nothing.
pub proof fn law_tick(s: SimState, start: u128, now: u128)
    requires
        s.started_at == Some(start),
        start <= now,
    ensures
        ({
            let t = s.after_event(Some(Event::Tick), now);
            let e = s.event_effects(Some(Event::Tick), now);
            let over = now - start >= s.sim_duration_secs * 1_000_000_000;
            &&& over ==> {
                &&& !t.running && t.stop && t.show_summary
                &&& t.procs == s.procs && t.selected == s.selected
                &&& t.started_at == s.started_at && t.num_procs == s.num_procs
                &&& t.sim_duration_secs == s.sim_duration_secs
                &&& e.len() == 3
                &&& e[0] == Effect::SetRunning(false)
                &&& e[1] == Effect::SetStop(true)
                &&& e[2] == Effect::JoinWorkers
            }
            &&& !over ==> t == s && e.len() == 0
        }),
{
}

/// A tick read before the start counts as one at the start.
pub proof fn law_tick_before_the_start(s: SimState, start: u128, now: u128)
    requires
        s.started_at == Some(start),
        now < start,
    ensures
        s.after_event(Some(Event::Tick), now) == s.after_event(Some(Event::Tick), start),
        s.event_effects(Some(Event::Tick), now) == s.event_effects(Some(Event::Tick), start),
{
}

/// A tick changes nothing, and asks for nothing, before the first start.
pub proof fn law_tick_without_start(s: SimState, now: u128)
    requires
        s.started_at is None,
    ensures
        s.after_event(Some(Event::Tick), now) == s,
        s.event_effects(Some(Event::Tick), now).len() == 0,
{
}

/// The time that the simulation has been going is the time since its last start,
/// none before the first, and never negative.
pub proof fn law_elapsed(s: SimState, start: u128, now: u128)
    ensures
        s.started_at is None ==> s.elapsed(now) == 0,
        s.started_at == Some(start) && start <= now ==> start + s.elapsed(now) == now,
        s.started_at == Some(start) && now <= start ==> s.elapsed(now) == 0,
        start <= now ==> start + crate::clock::span(start, now) == now,
        now <= start ==> crate::clock::span(start, now) == 0,
{
}

/// A tick is due from a quarter of a second after the last one.
pub proof fn law_tick_is_due(t: Ticker, now: u128)
    ensures
        t.due_at(now) <==> now >= t.last_tick() + 250_000_000,
{
}

/// The simulation begins with the flags down, the first process selected, no
/// start noted and no summary.
pub proof fn law_initial(procs: Map<usize, ProcState>, num_procs: usize, secs: u64)
    ensures
        ({
            let s = SimState::initial(procs, num_procs, secs);
            &&& s.procs == procs && s.num_procs == num_procs && s.sim_duration_secs == secs
            &&& !s.running && !s.stop && s.selected == 0
            &&& s.started_at is None && !s.show_summary
        }),
{
}

/// The processes begin under the numbers from zero on, each with the duration in
/// its place, paused, with nothing done and no times noted.
pub proof fn law_first_processes(totals: Seq<u64>, k: usize)
    ensures
        crate::roster::fresh_procs(totals).contains_key(k) <==> k < totals.len(),
        k < totals.len() ==> {
            let p = crate::roster::fresh_procs(totals)[k];
            &&& p.id == k && p.total_ms == totals[k as int]
            &&& p.elapsed_ms == 0 && p.status is Paused
            &&& p.started_at is None && p.finished_at is None
        },
{
}

/// A process begins paused, with nothing done and no times noted.
pub proof fn law_first_state(id: usize, total_ms: u64)
    ensures
        ({
            let p = ProcState::fresh(id, total_ms);
            &&& p.id == id && p.total_ms == total_ms
            &&& p.elapsed_ms == 0 && p.status is Paused
            &&& p.started_at is None && p.finished_at is None
        }),
{
}

/// Durations are from two seconds up to, and without, eight.
pub proof fn law_durations(total_ms: u64)
    ensures
        crate::random::is_duration(total_ms) <==> 2000 <= total_ms < 8000,
{
}

/// A process gets a worker if and only if it has not finished, and its worker
/// gets it as it is.
pub proof fn law_snapshot(procs: Map<usize, ProcState>, k: usize)
    ensures
        crate::roster::unfinished(procs).contains_key(k) <==> procs.contains_key(k)
            && !(procs[k].status is Finished),
        crate::roster::unfinished(procs).contains_key(k) ==> crate::roster::unfinished(procs)[k]
            == procs[k],
{
}

/// A process has finished or was stopped: just then it is at rest.
pub proof fn law_at_rest(p: ProcState)
    ensures
        p.at_rest() <==> p.status is Finished || p.status is Stopped,
{
}

/// The part shown of a process is the smaller of what is done and what there is
/// to do, over what there is to do; all of it where there is nothing to do.
pub proof fn law_part_shown(p: ProcState)
    ensures
        p.total_ms > 0 ==> {
            &&& p.ratio().den == p.total_ms
            &&& is_least(p.ratio().num as int, p.elapsed_ms as int, p.total_ms as int)
        },
        p.total_ms == 0 ==> p.ratio().num == 1 && p.ratio().den == 1,
{
}

/// Capping leaves a fraction of at most one alone, and makes any other one.
pub proof fn law_capped(r: Ratio)
    ensures
        r.capped().den == r.den,
        is_least(r.capped().num as int, r.num as int, r.den as int),
{
}

/// The gauge shows the part of the selected process, and nothing where none is
/// selected.
pub proof fn law_gauge(s: SimState)
    ensures
        s.procs.contains_key(s.selected) ==> s.gauge() == s.procs[s.selected].ratio(),
        !s.procs.contains_key(s.selected) ==> s.gauge().num == 0 && s.gauge().den == 1,
{
}

/// A worker begins with nothing done.
pub proof fn law_worker_begins(id: usize, total_ms: u64)
    ensures
        Worker::fresh(id, total_ms).id == id,
        Worker::fresh(id, total_ms).total_ms == total_ms,
        Worker::fresh(id, total_ms).elapsed_ms == 0,
{
}

/// A worker with work before it ends if and only if it is told to give up, and
/// says that it stopped; else it works for a tenth of a second where it may, and
/// waits for longer where it may not. One without ends, says that it finished
/// and how much it did, and heeds no flag.
pub proof fn law_worker_decides(w: Worker, stop: bool, running: bool)
    ensures
        w.elapsed_ms < w.total_ms ==> {
            &&& stop ==> w.decision(stop, running) == (WorkerStep::End {
                report: UpdateMsg::Stopped { id: w.id },
            })
            &&& !stop && running ==> w.decision(stop, running) == (WorkerStep::Work {
                sleep_ms: 100,
            })
            &&& !stop && !running ==> w.decision(stop, running) == (WorkerStep::Wait {
                sleep_ms: 150,
            })
        },
        w.elapsed_ms >= w.total_ms ==> w.decision(stop, running) == (WorkerStep::End {
            report: UpdateMsg::Finished { id: w.id, elapsed_ms: w.elapsed_ms },
        }),
{
}

/// A piece of work is a tenth of a second, or what is left where that is less,
/// and is reported under the worker's process with what is then done.
pub proof fn law_piece_of_work(w: Worker)
    ensures
        is_least(w.worked().elapsed_ms as int, w.elapsed_ms + 100, w.total_ms as int),
        w.worked().id == w.id,
        w.worked().total_ms == w.total_ms,
        w.progress() == (UpdateMsg::Progress { id: w.id, elapsed_ms: w.elapsed_ms }),
{
}

} // verus!
