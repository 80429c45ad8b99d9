//! What holds of the simulation as a whole, over every state, event and order
//! of reports.

use vstd::prelude::*;

use crate::drawing::Drawing;
use crate::layout::Area;
use crate::process::{ProcState, ProcStatus, Ratio, UpdateMsg};
use crate::screen::Row;
use crate::simulation::{Effect, Event, Key, SimState};
use crate::worker::{Worker, STEP_MS};

verus! {

/// The tables `a` and `b` hold the same processes: the same keys, and under
/// each the same id and the same duration.
pub open spec fn same_roster(a: Map<usize, ProcState>, b: Map<usize, ProcState>) -> bool {
    &&& a.dom() == b.dom()
    &&& forall|k: usize| #[trigger]
        a.contains_key(k) ==> a[k].id == b[k].id && a[k].total_ms == b[k].total_ms
}

/// No process has done more than there is to do.
pub open spec fn bounded(procs: Map<usize, ProcState>) -> bool {
    forall|k: usize| #[trigger] procs.contains_key(k) ==> procs[k].elapsed_ms <= procs[k].total_ms
}

/// The flags `(running, stop)` after the caller has carried out `effects`.
pub open spec fn flags_after(flags: (bool, bool), effects: Seq<Effect>) -> (bool, bool)
    decreases effects.len(),
{
    if effects.len() == 0 {
        flags
    } else {
        let before = flags_after(flags, effects.drop_last());
        match effects.last() {
            Effect::SetRunning(b) => (b, before.1),
            Effect::SetStop(b) => (before.0, b),
            _ => before,
        }
    }
}

/// An event adds, drops and swaps no process, and leaves the set-up alone.
pub proof fn law_event_keeps_roster(s: SimState, event: Option<Event<Key>>, now: u128)
    ensures
        same_roster(s.procs, s.after_event(event, now).procs),
        s.after_event(event, now).num_procs == s.num_procs,
        s.after_event(event, now).sim_duration_secs == s.sim_duration_secs,
{
    let t = s.after_event(event, now);
    assert(s.procs.dom() =~= t.procs.dom());
}

/// A report touches only the process that it is about, and of that neither the
/// id nor the duration; everything else stays as it is.
pub proof fn law_report_is_local(s: SimState, msg: UpdateMsg, now: u128)
    ensures
        same_roster(s.procs, s.after_msg(msg, now).procs),
        forall|k: usize|
            s.procs.contains_key(k) && k != msg.subject() ==> #[trigger] s.after_msg(
                msg,
                now,
            ).procs[k] == s.procs[k],
        s.after_msg(msg, now) == (SimState { procs: s.after_msg(msg, now).procs, ..s }),
{
    assert(s.procs.dom() =~= s.after_msg(msg, now).procs.dom());
}

/// A report on a process that does not exist changes nothing.
pub proof fn law_unknown_report_is_ignored(s: SimState, msg: UpdateMsg, now: u128)
    requires
        !s.procs.contains_key(msg.subject()),
    ensures
        s.after_msg(msg, now) == s,
{
}

/// Every event and every report keeps the invariant.
pub proof fn law_invariant_is_kept(
    s: SimState,
    event: Option<Event<Key>>,
    msg: UpdateMsg,
    now: u128,
)
    requires
        s.inv(),
    ensures
        s.after_event(event, now).inv(),
        s.after_msg(msg, now).inv(),
{
    let t = s.after_event(event, now);
    assert(s.procs.dom() =~= t.procs.dom());
    assert(s.procs.dom() =~= s.after_msg(msg, now).procs.dom());
}

/// No event touches a process that has finished or was stopped.
pub proof fn law_events_leave_rest_alone(
    s: SimState,
    event: Option<Event<Key>>,
    now: u128,
    k: usize,
)
    requires
        s.procs.contains_key(k),
        s.procs[k].at_rest(),
    ensures
        s.after_event(event, now).procs[k] == s.procs[k],
{
}

/// The flags that the workers read, once the caller has carried out what an
/// event asks, are those of the new state.
pub proof fn law_effects_set_the_flags(s: SimState, event: Option<Event<Key>>, now: u128)
    ensures
        flags_after((s.running, s.stop), s.event_effects(event, now)) == (
            s.after_event(event, now).running,
            s.after_event(event, now).stop,
        ),
{
    reveal_with_fuel(flags_after, 5);
    let e = s.event_effects(event, now);
    if e.len() > 0 {
        assert(e.drop_last().len() == e.len() - 1);
    }
}

/// The simulation is left on the quit key or when no event can come any more,
/// and never else; the quit key has the workers told to give up and waited for
/// first.
pub proof fn law_exit(s: SimState, event: Option<Event<Key>>, now: u128)
    ensures
        s.event_effects(event, now).contains(Effect::Exit) <==> event is None || event == Some(
            Event::Input(Key::Char('q')),
        ),
        event == Some(Event::Input(Key::Char('q'))) ==> {
            &&& s.event_effects(event, now)[0] == Effect::SetStop(true)
            &&& s.event_effects(event, now)[2] == Effect::JoinWorkers
            &&& s.event_effects(event, now)[3] == Effect::Exit
        },
{
    let e = s.event_effects(event, now);
    if event is None {
        assert(e[0] == Effect::Exit);
    }
    if event == Some(Event::Input(Key::Char('q'))) {
        assert(e[3] == Effect::Exit);
    }
}

/// The start key does nothing to a simulation that is running.
pub proof fn law_start_while_running(s: SimState, now: u128)
    requires
        s.running,
    ensures
        s.after_key(Key::Char('s'), now) == s,
        s.key_effects(Key::Char('s')).len() == 0,
{
}

/// The start key sets a halted simulation going: every process that is not at
/// rest runs with nothing done, and workers are asked for exactly those
/// processes that have not finished, the stopped ones among them.
pub proof fn law_start(s: SimState, now: u128)
    requires
        !s.running,
    ensures
        s.after_key(Key::Char('s'), now).running,
        !s.after_key(Key::Char('s'), now).stop,
        s.after_key(Key::Char('s'), now).elapsed(now) == 0,
        forall|k: usize| #[trigger]
            s.procs.contains_key(k) && !s.procs[k].at_rest() ==> {
                let p = s.after_key(Key::Char('s'), now).procs[k];
                p.status is Running && p.elapsed_ms == 0
            },
        s.key_effects(Key::Char('s')).last() == Effect::SpawnWorkers,
        forall|k: usize| #[trigger]
            crate::roster::unfinished(s.after_key(Key::Char('s'), now).procs).contains_key(k) <==> {
                s.procs.contains_key(k) && !(s.procs[k].status is Finished)
            },
{
}

/// The pause key pressed three times does what it does once; pressed twice it
/// restores the flags and changes no more than statuses.
pub proof fn law_pause(s: SimState)
    ensures
        s.after_pause().after_pause().after_pause() == s.after_pause(),
        s.after_pause().after_pause().running == s.running,
        s.after_pause().after_pause() == (SimState {
            procs: crate::roster::all_set_going(s.procs, s.running),
            ..s
        }),
{
    let once = s.after_pause();
    let twice = once.after_pause();
    assert(twice.after_pause().procs =~= once.procs);
    assert(twice.procs =~= crate::roster::all_set_going(s.procs, s.running));
}

/// Pausing and resuming leaves no trace where every process not at rest has the
/// status that goes with the flag.
pub proof fn law_pause_and_resume(s: SimState)
    requires
        forall|k: usize| #[trigger]
            s.procs.contains_key(k) && !s.procs[k].at_rest() ==> s.procs[k].status == (
            if s.running {
                ProcStatus::Running
            } else {
                ProcStatus::Paused
            }),
    ensures
        s.after_pause().after_pause() == s,
{
    assert(s.after_pause().after_pause().procs =~= s.procs);
}

/// The selection stays on a process, and going down and up again, or up and
/// down again, comes back to it unless it stood at that end of the list.
pub proof fn law_selection(s: SimState, now: u128)
    requires
        s.inv(),
    ensures
        s.num_procs > 0 ==> s.procs.contains_key(s.selected),
        s.selected + 1 < s.num_procs ==> s.after_key(Key::Down, now).after_key(Key::Up, now) == s,
        s.selected > 0 ==> s.after_key(Key::Up, now).after_key(Key::Down, now) == s,
        s.selected + 1 >= s.num_procs ==> s.after_key(Key::Down, now) == s,
        s.selected == 0 ==> s.after_key(Key::Up, now) == s,
{
}

/// A simulation that was never started does not run out of time; once out of
/// time it stays so; and a second tick changes nothing more.
pub proof fn law_expiry(s: SimState, now: u128, later: u128)
    requires
        now <= later,
    ensures
        s.started_at is None ==> s.after_tick(now) == s && s.tick_effects(now).len() == 0,
        s.expired(now) ==> s.expired(later),
        s.expired(now) ==> s.after_tick(now).after_tick(later) == s.after_tick(now),
{
}

/// Events keep every process within its bounds.
pub proof fn law_events_keep_bounds(s: SimState, event: Option<Event<Key>>, now: u128)
    requires
        bounded(s.procs),
    ensures
        bounded(s.after_event(event, now).procs),
{
    let t = s.after_event(event, now);
    assert forall|k: usize| #[trigger] t.procs.contains_key(k) implies t.procs[k].elapsed_ms
        <= t.procs[k].total_ms by {
        assert(s.procs.contains_key(k));
    }
}

/// Reports keep every process within its bounds, whatever a report of progress
/// claims, so long as a closing report claims no more than the total.
pub proof fn law_reports_keep_bounds(s: SimState, msg: UpdateMsg, now: u128)
    requires
        bounded(s.procs),
        msg matches UpdateMsg::Finished { id, elapsed_ms } ==> s.procs.contains_key(id)
            ==> elapsed_ms <= s.procs[id].total_ms,
    ensures
        bounded(s.after_msg(msg, now).procs),
{
    let t = s.after_msg(msg, now);
    assert forall|k: usize| #[trigger] t.procs.contains_key(k) implies t.procs[k].elapsed_ms
        <= t.procs[k].total_ms by {
        assert(s.procs.contains_key(k));
    }
}

/// Something that befalls the simulation, with the time when it does.
pub enum Happening {
    Event { event: Option<Event<Key>>, now: u128 },
    Report { msg: UpdateMsg, now: u128 },
}

/// The simulation after everything in `history`.
pub open spec fn after_history(s: SimState, history: Seq<Happening>) -> SimState
    decreases history.len(),
{
    if history.len() == 0 {
        s
    } else {
        let before = after_history(s, history.drop_last());
        match history.last() {
            Happening::Event { event, now } => before.after_event(event, now),
            Happening::Report { msg, now } => before.after_msg(msg, now),
        }
    }
}

/// A closing report in it claims no more than the total of its process.
pub open spec fn is_honest(h: Happening, procs: Map<usize, ProcState>) -> bool {
    h matches Happening::Report { msg: UpdateMsg::Finished { id, elapsed_ms }, .. }
        ==> procs.contains_key(id) ==> elapsed_ms <= procs[id].total_ms
}

/// The part that is shown of `p` is what is done over what there is to do.
pub open spec fn shows_exact_part(p: ProcState) -> bool {
    p.ratio() == if p.total_ms == 0 {
        Ratio { num: 1, den: 1 }
    } else {
        Ratio { num: p.elapsed_ms, den: p.total_ms }
    }
}

/// Whatever befalls a simulation, it keeps its invariant, its processes and
/// their durations, no process ever has more done than there is to do, and each
/// shows exactly the part that is done.
pub proof fn law_history(s: SimState, history: Seq<Happening>)
    requires
        s.inv(),
        bounded(s.procs),
        forall|i: int| 0 <= i < history.len() ==> is_honest(#[trigger] history[i], s.procs),
    ensures
        after_history(s, history).inv(),
        bounded(after_history(s, history).procs),
        same_roster(s.procs, after_history(s, history).procs),
        forall|k: usize|
            k < s.num_procs ==> shows_exact_part(#[trigger] after_history(s, history).procs[k]),
    decreases history.len(),
{
    if history.len() > 0 {
        let most = history.drop_last();
        assert forall|i: int| 0 <= i < most.len() implies is_honest(
            #[trigger] most[i],
            s.procs,
        ) by {
            assert(most[i] == history[i]);
        }
        law_history(s, most);
        let before = after_history(s, most);
        assert(is_honest(history[history.len() - 1], s.procs));
        match history.last() {
            Happening::Event { event, now } => {
                law_event_keeps_roster(before, event, now);
                law_events_keep_bounds(before, event, now);
                law_invariant_is_kept(before, event, UpdateMsg::Started { id: 0 }, now);
            },
            Happening::Report { msg, now } => {
                law_report_is_local(before, msg, now);
                if let UpdateMsg::Finished { id, .. } = msg {
                    assert(s.procs.contains_key(id) <==> before.procs.contains_key(id));
                }
                law_reports_keep_bounds(before, msg, now);
                law_invariant_is_kept(before, None, msg, now);
            },
        }
    }
    let after = after_history(s, history);
    assert(s.procs.dom() == after.procs.dom());
    assert forall|k: usize| k < s.num_procs implies shows_exact_part(
        #[trigger] after.procs[k],
    ) by {
        assert(s.procs.contains_key(k));
        assert(after.procs.contains_key(k));
    }
}

/// Every process shows a part between zero and one, whatever its worker
/// claimed, and one within its bounds shows exactly the part that is done.
pub proof fn law_ratio(p: ProcState)
    ensures
        p.ratio().in_unit(),
        p.elapsed_ms <= p.total_ms ==> shows_exact_part(p),
        p.elapsed_ms >= p.total_ms ==> p.ratio().num == p.ratio().den,
{
}

/// A report of progress finishes its process if and only if it reaches the
/// total; short of that a paused process stays paused and any other runs.
pub proof fn law_progress(p: ProcState, id: usize, elapsed_ms: u64, now: u128)
    ensures
        ({
            let q = p.received(UpdateMsg::Progress { id, elapsed_ms }, now);
            &&& q.status is Finished <==> elapsed_ms >= p.total_ms
            &&& q.status is Finished ==> q.elapsed_ms == p.total_ms
            &&& q.status is Paused <==> elapsed_ms < p.total_ms && p.status is Paused
            &&& q.elapsed_ms <= q.total_ms
            &&& !(q.status is Stopped)
        }),
{
}

/// The worker after `n` pieces of work.
pub open spec fn worked_times(w: Worker, n: nat) -> Worker
    decreases n,
{
    if n == 0 {
        w
    } else {
        worked_times(w, (n - 1) as nat).worked()
    }
}

/// What a worker reports when it finds the flags `(stop, running)` so, one pair
/// each time that it looks.
pub open spec fn reports(w: Worker, flags: Seq<(bool, bool)>) -> Seq<UpdateMsg>
    decreases flags.len(),
{
    if flags.len() == 0 {
        seq![]
    } else {
        match w.decision(flags[0].0, flags[0].1) {
            crate::worker::WorkerStep::End { report } => seq![report],
            crate::worker::WorkerStep::Work { .. } => seq![w.worked().progress()] + reports(
                w.worked(),
                flags.drop_first(),
            ),
            crate::worker::WorkerStep::Wait { .. } => reports(w, flags.drop_first()),
        }
    }
}

/// How often the flags let the worker work.
pub open spec fn chances(flags: Seq<(bool, bool)>) -> nat
    decreases flags.len(),
{
    if flags.len() == 0 {
        0
    } else if flags[0].1 {
        chances(flags.drop_first()) + 1
    } else {
        chances(flags.drop_first())
    }
}

/// The pieces of work that a worker still has before it, the last one perhaps
/// shorter than the others.
pub open spec fn pieces_left(w: Worker) -> int {
    (w.total_ms - w.elapsed_ms + STEP_MS - 1) / STEP_MS as int
}

/// After `n` pieces of work a worker has done `n` steps, or all there is to do
/// where that is less.
pub proof fn law_work_adds_up(id: usize, total_ms: u64, n: nat)
    ensures
        worked_times(Worker::fresh(id, total_ms), n).id == id,
        worked_times(Worker::fresh(id, total_ms), n).total_ms == total_ms,
        worked_times(Worker::fresh(id, total_ms), n).elapsed_ms == (if n * STEP_MS <= total_ms {
            n * STEP_MS
        } else {
            total_ms as int
        }),
    decreases n,
{
    if n > 0 {
        law_work_adds_up(id, total_ms, (n - 1) as nat);
    }
}

/// A worker reports on its own process only, never claims more than the total,
/// and claims exactly the total when it finishes.
pub proof fn law_reports_are_honest(w: Worker, flags: Seq<(bool, bool)>, i: int)
    requires
        w.inv(),
        0 <= i < reports(w, flags).len(),
    ensures
        reports(w, flags)[i].subject() == w.id,
        match reports(w, flags)[i] {
            UpdateMsg::Progress { elapsed_ms, .. } => w.elapsed_ms < elapsed_ms <= w.total_ms,
            UpdateMsg::Finished { elapsed_ms, .. } => elapsed_ms == w.total_ms,
            UpdateMsg::Stopped { .. } => w.elapsed_ms < w.total_ms,
            UpdateMsg::Started { .. } => false,
        },
    decreases flags.len(),
{
    match w.decision(flags[0].0, flags[0].1) {
        crate::worker::WorkerStep::End { .. } => {},
        crate::worker::WorkerStep::Work { .. } => {
            if i > 0 {
                law_reports_are_honest(w.worked(), flags.drop_first(), i - 1);
            }
        },
        crate::worker::WorkerStep::Wait { .. } => {
            law_reports_are_honest(w, flags.drop_first(), i);
        },
    }
}

/// Whatever a worker reports before its last report is progress, and each such
/// report claims more than the one before.
pub proof fn law_reports_rise(w: Worker, flags: Seq<(bool, bool)>, i: int, j: int)
    requires
        w.inv(),
        0 <= i < j < reports(w, flags).len(),
    ensures
        reports(w, flags)[i] is Progress,
        reports(w, flags)[j] matches UpdateMsg::Progress { elapsed_ms, .. }
            ==> reports(w, flags)[i]->Progress_elapsed_ms < elapsed_ms,
    decreases flags.len(),
{
    match w.decision(flags[0].0, flags[0].1) {
        crate::worker::WorkerStep::End { .. } => {},
        crate::worker::WorkerStep::Work { .. } => {
            let rest = flags.drop_first();
            if i > 0 {
                law_reports_rise(w.worked(), rest, i - 1, j - 1);
            } else {
                law_reports_are_honest(w.worked(), rest, j - 1);
            }
        },
        crate::worker::WorkerStep::Wait { .. } => {
            law_reports_rise(w, flags.drop_first(), i, j);
        },
    }
}

/// A worker that is never told to give up, is let work often enough, and then
/// looks once more, comes to the end of its work and says so.
pub proof fn law_worker_finishes(w: Worker, flags: Seq<(bool, bool)>)
    requires
        w.inv(),
        forall|i: int| 0 <= i < flags.len() ==> !(#[trigger] flags[i]).0,
        flags.len() > 0,
        chances(flags.drop_last()) >= pieces_left(w),
    ensures
        reports(w, flags).len() > 0,
        reports(w, flags).last() == (UpdateMsg::Finished { id: w.id, elapsed_ms: w.total_ms }),
    decreases flags.len(),
{
    assert(!flags[0].0);
    if w.elapsed_ms < w.total_ms {
        let rest = flags.drop_first();
        assert forall|i: int| 0 <= i < rest.len() implies !(#[trigger] rest[i]).0 by {
            assert(rest[i] == flags[i + 1]);
        }
        assert(flags.drop_last().drop_first() =~= rest.drop_last());
        if flags[0].1 {
            assert(pieces_left(w.worked()) == pieces_left(w) - 1);
            law_worker_finishes(w.worked(), rest);
        } else {
            law_worker_finishes(w, rest);
        }
    }
}

/// A worker that is let work less often than it has pieces of work before it
/// does not finish.
pub proof fn law_worker_needs_its_time(w: Worker, flags: Seq<(bool, bool)>, i: int)
    requires
        w.inv(),
        chances(flags) < pieces_left(w),
        0 <= i < reports(w, flags).len(),
    ensures
        !(reports(w, flags)[i] is Finished),
    decreases flags.len(),
{
    match w.decision(flags[0].0, flags[0].1) {
        crate::worker::WorkerStep::End { .. } => {},
        crate::worker::WorkerStep::Work { .. } => {
            if i > 0 {
                assert(pieces_left(w.worked()) == pieces_left(w) - 1);
                law_worker_needs_its_time(w.worked(), flags.drop_first(), i - 1);
            }
        },
        crate::worker::WorkerStep::Wait { .. } => {
            law_worker_needs_its_time(w, flags.drop_first(), i);
        },
    }
}

/// A worker that is told to give up before its work is done says so the next
/// time that it looks, and ends.
pub proof fn law_worker_stops(w: Worker, flags: Seq<(bool, bool)>)
    requires
        w.elapsed_ms < w.total_ms,
        flags.len() > 0,
        flags[0].0,
    ensures
        reports(w, flags) == seq![UpdateMsg::Stopped { id: w.id }],
{
}

/// A worker that is not let work reports nothing.
pub proof fn law_paused_worker_is_silent(w: Worker, flags: Seq<(bool, bool)>)
    requires
        w.elapsed_ms < w.total_ms,
        forall|i: int| 0 <= i < flags.len() ==> (#[trigger] flags[i]) == (false, false),
    ensures
        reports(w, flags).len() == 0,
    decreases flags.len(),
{
    if flags.len() > 0 {
        assert(flags[0] == (false, false));
        let rest = flags.drop_first();
        assert forall|i: int| 0 <= i < rest.len() implies #[trigger] rest[i] == (
            false,
            false,
        ) by {
            assert(rest[i] == flags[i + 1]);
        }
        law_paused_worker_is_silent(w, rest);
    }
}

/// The simulation after the reports `msgs`, each with the time when it was read.
pub open spec fn after_msgs(s: SimState, msgs: Seq<(UpdateMsg, u128)>) -> SimState
    decreases msgs.len(),
{
    if msgs.len() == 0 {
        s
    } else {
        after_msgs(s, msgs.drop_last()).after_msg(msgs.last().0, msgs.last().1)
    }
}

/// The process `p` after the reports `msgs`.
pub open spec fn proc_after(p: ProcState, msgs: Seq<(UpdateMsg, u128)>) -> ProcState
    decreases msgs.len(),
{
    if msgs.len() == 0 {
        p
    } else {
        proc_after(p, msgs.drop_last()).received(msgs.last().0, msgs.last().1)
    }
}

/// Those of `msgs` that are about the process `id`, in order.
pub open spec fn about(msgs: Seq<(UpdateMsg, u128)>, id: usize) -> Seq<(UpdateMsg, u128)> {
    msgs.filter(|m: (UpdateMsg, u128)| m.0.subject() == id)
}

/// However the reports of the workers are mixed, what becomes of a process
/// depends on the reports about it alone, and on their order.
pub proof fn law_reports_do_not_interfere(
    s: SimState,
    msgs: Seq<(UpdateMsg, u128)>,
    id: usize,
)
    requires
        s.procs.contains_key(id),
    ensures
        after_msgs(s, msgs).procs.dom() == s.procs.dom(),
        after_msgs(s, msgs).procs[id] == proc_after(s.procs[id], about(msgs, id)),
    decreases msgs.len(),
{
    reveal(Seq::filter);
    if msgs.len() > 0 {
        let most = msgs.drop_last();
        law_reports_do_not_interfere(s, most, id);
        let before = after_msgs(s, most);
        assert(before.after_msg(msgs.last().0, msgs.last().1).procs.dom() =~= s.procs.dom());
        if msgs.last().0.subject() == id {
            assert(about(msgs, id) =~= about(most, id).push(msgs.last()));
            assert(about(msgs, id).drop_last() =~= about(most, id));
        } else {
            assert(about(msgs, id) =~= about(most, id));
        }
    }
}

/// A process whose worker ran to its end is finished with all its work done,
/// however the reports of the other workers came in between: where the reports
/// about it are those of a worker that was never told to give up and was let
/// work often enough.
pub proof fn law_complete_run_finishes(
    s: SimState,
    msgs: Seq<(UpdateMsg, u128)>,
    id: usize,
    flags: Seq<(bool, bool)>,
)
    requires
        s.procs.contains_key(id),
        forall|i: int| 0 <= i < flags.len() ==> !(#[trigger] flags[i]).0,
        flags.len() > 0,
        chances(flags.drop_last()) >= pieces_left(Worker::fresh(id, s.procs[id].total_ms)),
        about(msgs, id).map_values(|m: (UpdateMsg, u128)| m.0) == seq![
            UpdateMsg::Started { id },
        ] + reports(Worker::fresh(id, s.procs[id].total_ms), flags),
    ensures
        after_msgs(s, msgs).procs[id].status is Finished,
        after_msgs(s, msgs).procs[id].elapsed_ms == s.procs[id].total_ms,
        after_msgs(s, msgs).procs[id].finished_at is Some,
{
    let w = Worker::fresh(id, s.procs[id].total_ms);
    let own = about(msgs, id);
    law_reports_do_not_interfere(s, msgs, id);
    law_worker_finishes(w, flags);
    let plain = own.map_values(|m: (UpdateMsg, u128)| m.0);
    assert(plain.last() == reports(w, flags).last());
    assert(own.last().0 == plain.last());
}

/// A process is stopped where the last report on it is that its worker gave up,
/// whatever else was reported and on whom.
pub proof fn law_stopped_run(s: SimState, msgs: Seq<(UpdateMsg, u128)>, id: usize)
    requires
        s.procs.contains_key(id),
        about(msgs, id).len() > 0,
        about(msgs, id).last().0 == (UpdateMsg::Stopped { id }),
    ensures
        after_msgs(s, msgs).procs[id].status is Stopped,
{
    law_reports_do_not_interfere(s, msgs, id);
}

/// There is but one ascending list of a table's keys.
pub proof fn law_one_listing(a: Seq<usize>, b: Seq<usize>, procs: Map<usize, ProcState>)
    requires
        crate::roster::lists_keys(a, procs),
        crate::roster::lists_keys(b, procs),
    ensures
        a == b,
    decreases a.len(),
{
    if a.len() == 0 {
        if b.len() > 0 {
            assert(b.contains(b[0]));
            assert(a.contains(b[0]));
        }
    } else {
        assert(a.contains(a.last()));
        assert(b.contains(a.last()));
        assert(b.contains(b.last()));
        assert(a.contains(b.last()));
        let i = choose|i: int| 0 <= i < b.len() && b[i] == a.last();
        let j = choose|j: int| 0 <= j < a.len() && a[j] == b.last();
        assert(a.last() == b.last()) by {
            if i < b.len() - 1 {
                assert(b[i] < b[b.len() - 1]);
            }
            if j < a.len() - 1 {
                assert(a[j] < a[a.len() - 1]);
            }
        }
        let most = procs.remove(a.last());
        lemma_listing_without_last(a, procs);
        lemma_listing_without_last(b, procs);
        law_one_listing(a.drop_last(), b.drop_last(), most);
        assert(a =~= a.drop_last().push(a.last()));
        assert(b =~= b.drop_last().push(b.last()));
    }
}

/// A listing without its last key lists the table without that key.
proof fn lemma_listing_without_last(a: Seq<usize>, procs: Map<usize, ProcState>)
    requires
        crate::roster::lists_keys(a, procs),
        a.len() > 0,
    ensures
        crate::roster::lists_keys(a.drop_last(), procs.remove(a.last())),
{
    let most = procs.remove(a.last());
    assert forall|k: usize| most.contains_key(k) <==> #[trigger] a.drop_last().contains(k) by {
        if most.contains_key(k) {
            assert(a.contains(k));
            let i = choose|i: int| 0 <= i < a.len() && a[i] == k;
            assert(a.drop_last()[i] == k);
        }
        if a.drop_last().contains(k) {
            let i = choose|i: int| 0 <= i < a.drop_last().len() && a.drop_last()[i] == k;
            assert(a[i] == k);
            assert(a.contains(k));
            assert(a[i] < a[a.len() - 1]);
        }
    }
}

/// The list has one row for each process, the row at place `i` is that of the
/// process `i`, and no bar is overfull; so the row at the place that is selected
/// is that of the selected process.
pub proof fn law_rows(s: SimState, rows: Seq<Row>)
    requires
        s.inv(),
        crate::screen::shows(rows, s.procs),
    ensures
        rows.len() == s.num_procs,
        forall|i: int|
            0 <= i < rows.len() ==> {
                &&& (#[trigger] rows[i]).key == i
                &&& rows[i].line@ == crate::screen::process_line_text(s.procs[i as usize])
                &&& rows[i].ratio.in_unit()
            },
        s.num_procs > 0 ==> s.selected < rows.len() && rows[s.selected as int].key == s.selected,
{
    let keys = crate::screen::row_keys(rows);
    let all = Seq::new(s.num_procs as nat, |j: int| j as usize);
    assert forall|k: usize| s.procs.contains_key(k) <==> #[trigger] all.contains(k) by {
        if k < s.num_procs {
            assert(all[k as int] == k);
        }
    }
    law_one_listing(keys, all, s.procs);
    assert forall|i: int| 0 <= i < rows.len() implies (#[trigger] rows[i]).key == i by {
        assert(keys[i] == all[i]);
    }
}

/// In a drawing, the marked row is that of the process whose details and gauge
/// are shown.
pub proof fn law_marked_row_is_detailed(
    d: Drawing,
    s: SimState,
    area: Area,
    show_summary: bool,
    elapsed: Seq<char>,
    percent: Seq<char>,
)
    requires
        s.inv(),
        s.num_procs > 0,
        crate::drawing::draws(d, s, area, show_summary, elapsed, percent),
    ensures
        d.selected < d.rows.len(),
        ({
            let row = d.rows[d.selected as int];
            let p = s.procs[row.key];
            &&& s.procs.contains_key(row.key)
            &&& p.id == d.selected
            &&& row.line@ == crate::screen::process_line_text(p)
            &&& d.details == crate::screen::detail_text(Some(p), percent)
            &&& d.gauge == row.ratio && d.gauge == p.ratio()
        }),
{
    law_rows(s, d.rows);
}

/// The rows `a` and `b` show the same.
pub open spec fn same_rows(a: Seq<Row>, b: Seq<Row>) -> bool {
    &&& a.len() == b.len()
    &&& forall|i: int|
        0 <= i < a.len() ==> {
            &&& (#[trigger] a[i]).key == b[i].key
            &&& a[i].line@ == b[i].line@
            &&& a[i].ratio == b[i].ratio
        }
}

/// Two drawings of one state, one under the summary's headline and one not,
/// differ in the headline, and in nothing else: the same rows, selection,
/// details and gauge, in the same places unless the height leaves a choice. It
/// leaves one where there is room for the list and not for everything, and then
/// only in how headline and strip share what the list leaves.
pub proof fn law_summary_changes_the_headline_alone(
    a: Drawing,
    b: Drawing,
    s: SimState,
    area: Area,
    elapsed: Seq<char>,
    percent: Seq<char>,
)
    requires
        crate::drawing::draws(a, s, area, false, elapsed, percent),
        crate::drawing::draws(b, s, area, true, elapsed, percent),
    ensures
        a.header != b.header,
        same_rows(a.rows, b.rows),
        a.selected == b.selected,
        a.details == b.details,
        a.gauge == b.gauge,
        ({
            let inner = crate::layout::inset(area, 1);
            crate::layout::fits_across(inner) && crate::layout::fits_down(inner) ==> {
                &&& !(8 < inner.height < 18) ==> a.areas == b.areas
                &&& a.areas.list.height == b.areas.list.height
                &&& a.areas.header == (Area { height: a.areas.header.height, ..b.areas.header })
                &&& a.areas.details.x == b.areas.details.x
                &&& a.areas.details.width == b.areas.details.width
                &&& a.areas.gauge.x == b.areas.gauge.x
                &&& a.areas.gauge.width == b.areas.gauge.width
            }
        }),
{
    let keys = crate::screen::row_keys(a.rows);
    let other = crate::screen::row_keys(b.rows);
    law_one_listing(keys, other, s.procs);
    assert(keys.len() == a.rows.len() && other.len() == b.rows.len());
    assert forall|i: int| 0 <= i < a.rows.len() implies (#[trigger] a.rows[i]).key
        == b.rows[i].key by {
        assert(keys[i] == other[i]);
    }
    reveal_strlit("Press 's' to start, 'p' to pause/resume, 'q' to quit | Elapsed: ");
    reveal_strlit("Simulation summary (press 'q' to exit). Total duration: ");
    assert(a.header[0] == 'P');
    assert(b.header[0] == 'S');
}

/// The closing summary has a line for each process in the order of their
/// numbers, between a heading and two closing lines, and counts no more
/// finished processes than there are.
pub proof fn law_summary(s: SimState)
    requires
        s.inv(),
    ensures
        crate::screen::summary_text(s.procs, s.num_procs).len() == s.num_procs + 3,
        forall|i: int|
            0 < i <= s.num_procs ==> #[trigger] crate::screen::summary_text(
                s.procs,
                s.num_procs,
            )[i] == crate::screen::summary_line_text((i - 1) as usize, s.procs[(i - 1) as usize]),
        crate::screen::finished_below(s.procs, s.num_procs as int).len() <= s.num_procs,
{
    lemma_summary_body(s, s.num_procs as nat);
    let finished = crate::screen::finished_below(s.procs, s.num_procs as int);
    crate::roster::lemma_dense_len(s.procs, s.num_procs);
    vstd::set_lib::lemma_len_subset(finished, s.procs.dom());
}

/// The summary's lines of the first `n` processes.
proof fn lemma_summary_body(s: SimState, n: nat)
    requires
        s.inv(),
        n <= s.num_procs,
    ensures
        crate::screen::summary_body(s.procs, n) == Seq::new(
            n,
            |i: int| crate::screen::summary_line_text(i as usize, s.procs[i as usize]),
        ),
    decreases n,
{
    if n > 0 {
        lemma_summary_body(s, (n - 1) as nat);
        assert(s.procs.contains_key((n - 1) as usize));
    }
    assert(crate::screen::summary_body(s.procs, n) =~= Seq::new(
        n,
        |i: int| crate::screen::summary_line_text(i as usize, s.procs[i as usize]),
    ));
}

/// A number written in decimal is read back from the command line, with and
/// without a plus sign, where it is not too large.
pub proof fn law_numbers_read_back(n: nat, max: nat)
    requires
        n <= max,
    ensures
        crate::args::parsed(crate::text::decimal(n), max) == Some(n),
        crate::args::parsed(seq!['+'] + crate::text::decimal(n), max) == Some(n),
{
    lemma_decimal(n);
    let d = crate::text::decimal(n);
    assert(crate::args::is_digit(d[0]));
    assert(crate::args::unsigned_digits(d) =~= d);
    assert((seq!['+'] + d).drop_first() =~= d);
}

/// What `decimal` writes is a row of digits with the value written.
proof fn lemma_decimal(n: nat)
    ensures
        crate::text::decimal(n).len() > 0,
        forall|i: int|
            0 <= i < crate::text::decimal(n).len() ==> crate::args::is_digit(
                #[trigger] crate::text::decimal(n)[i],
            ),
        crate::args::digits_value(crate::text::decimal(n)) == n,
    decreases n,
{
    reveal_with_fuel(crate::args::digits_value, 2);
    let d = crate::text::decimal(n);
    if n >= 10 {
        lemma_decimal(n / 10);
        assert(d.drop_last() =~= crate::text::decimal(n / 10));
    } else {
        assert(d.drop_last() =~= seq![]);
    }
}

} // verus!
