use procsim::process::{ProcState, ProcStatus, Ratio, UpdateMsg};
use procsim::simulation::{Effect, Event, Key, Simulation};

const SECOND: u128 = 1_000_000_000;

fn key(sim: &mut Simulation, c: char, now: u128) -> Vec<Effect> {
    sim.handle(Some(Event::Input(Key::Char(c))), now)
}

fn process(sim: &Simulation, id: usize) -> ProcState {
    sim.process(id).unwrap()
}

fn three() -> Simulation {
    Simulation::with_totals(&vec![2000, 3000, 7999], 10)
}

#[test]
fn processes_begin_paused_with_nothing_done() {
    let sim = three();
    for (id, total) in [(0, 2000), (1, 3000), (2, 7999)] {
        assert_eq!(
            process(&sim, id),
            ProcState {
                id,
                total_ms: total,
                elapsed_ms: 0,
                status: ProcStatus::Paused,
                started_at: None,
                finished_at: None,
            }
        );
    }
    assert_eq!(sim.process(3), None);
    assert_eq!(sim.selected(), 0);
    assert!(!sim.show_summary());
    assert_eq!(sim.elapsed(5 * SECOND), 0);
}

#[test]
fn random_durations_lie_in_range_and_vary() {
    let sim = Simulation::new(300, 10);
    let totals: Vec<u64> = (0..300).map(|id| process(&sim, id).total_ms).collect();
    assert!(totals.iter().all(|t| (2000..8000).contains(t)));
    assert!(totals.iter().any(|t| *t != totals[0]));
    assert_eq!(sim.process(300), None);
}

#[test]
fn start_sets_everything_going() {
    let mut sim = three();
    let effects = key(&mut sim, 's', 7);
    assert_eq!(
        effects,
        vec![
            Effect::SetStop(false),
            Effect::SetRunning(true),
            Effect::SpawnWorkers
        ]
    );
    assert_eq!(process(&sim, 1).status, ProcStatus::Running);
    assert_eq!(sim.snapshot().len(), 3);
    assert_eq!(sim.snapshot()[&2].total_ms, 7999);
    assert_eq!(sim.elapsed(10), 3);
    assert_eq!(sim.elapsed(5), 0);
}

#[test]
fn start_while_running_does_nothing() {
    let mut sim = three();
    key(&mut sim, 's', 0);
    sim.receive(
        UpdateMsg::Progress {
            id: 0,
            elapsed_ms: 500,
        },
        1,
    );
    assert_eq!(key(&mut sim, 's', 2), vec![]);
    assert_eq!(process(&sim, 0).elapsed_ms, 500);
    assert_eq!(sim.elapsed(10), 10);
}

#[test]
fn restart_spares_what_is_at_rest_and_respawns_the_stopped() {
    let mut sim = three();
    key(&mut sim, 's', 0);
    sim.receive(
        UpdateMsg::Finished {
            id: 0,
            elapsed_ms: 2000,
        },
        1,
    );
    sim.receive(
        UpdateMsg::Progress {
            id: 1,
            elapsed_ms: 700,
        },
        2,
    );
    sim.receive(UpdateMsg::Stopped { id: 1 }, 3);
    sim.receive(
        UpdateMsg::Progress {
            id: 2,
            elapsed_ms: 900,
        },
        4,
    );
    key(&mut sim, 'p', 5);
    key(&mut sim, 's', 6);
    assert_eq!(process(&sim, 0).status, ProcStatus::Finished);
    assert_eq!(process(&sim, 0).elapsed_ms, 2000);
    assert_eq!(process(&sim, 1).status, ProcStatus::Stopped);
    assert_eq!(process(&sim, 1).elapsed_ms, 700);
    assert_eq!(process(&sim, 2).status, ProcStatus::Running);
    assert_eq!(process(&sim, 2).elapsed_ms, 0);
    let snapshot = sim.snapshot();
    let mut ids: Vec<usize> = snapshot.keys().copied().collect();
    ids.sort();
    assert_eq!(ids, vec![1, 2]);
}

#[test]
fn pause_and_resume_toggle() {
    let mut sim = three();
    key(&mut sim, 's', 0);
    assert_eq!(key(&mut sim, 'p', 1), vec![Effect::SetRunning(false)]);
    assert_eq!(process(&sim, 0).status, ProcStatus::Paused);
    assert_eq!(key(&mut sim, 'p', 2), vec![Effect::SetRunning(true)]);
    assert_eq!(process(&sim, 0).status, ProcStatus::Running);
    sim.receive(UpdateMsg::Stopped { id: 1 }, 3);
    key(&mut sim, 'p', 4);
    assert_eq!(process(&sim, 1).status, ProcStatus::Stopped);
    assert_eq!(process(&sim, 2).status, ProcStatus::Paused);
}

#[test]
fn pausing_before_the_start_sets_processes_running() {
    let mut sim = three();
    assert_eq!(key(&mut sim, 'p', 0), vec![Effect::SetRunning(true)]);
    assert_eq!(process(&sim, 0).status, ProcStatus::Running);
    assert_eq!(key(&mut sim, 's', 1), vec![]);
}

#[test]
fn quit_stops_joins_and_leaves() {
    let mut sim = three();
    key(&mut sim, 's', 0);
    assert_eq!(
        key(&mut sim, 'q', 1),
        vec![
            Effect::SetStop(true),
            Effect::SetRunning(false),
            Effect::JoinWorkers,
            Effect::Exit
        ]
    );
    assert_eq!(process(&sim, 0).status, ProcStatus::Running);
    assert!(!sim.show_summary());
}

#[test]
fn the_end_of_events_leaves() {
    let mut sim = three();
    assert_eq!(sim.handle(None, 0), vec![Effect::Exit]);
}

#[test]
fn other_keys_do_nothing() {
    let mut sim = three();
    for k in [Key::Char('Q'), Key::Char('x'), Key::Other] {
        assert_eq!(sim.handle(Some(Event::Input(k)), 3), vec![]);
    }
    assert_eq!(process(&sim, 0).status, ProcStatus::Paused);
}

#[test]
fn selection_stays_on_the_list() {
    let mut sim = three();
    sim.handle_key(Key::Up, 0);
    assert_eq!(sim.selected(), 0);
    for expected in [1, 2, 2] {
        sim.handle_key(Key::Down, 0);
        assert_eq!(sim.selected(), expected);
    }
    sim.handle_key(Key::Up, 0);
    assert_eq!(sim.selected(), 1);
}

#[test]
fn an_empty_simulation_has_no_selection_to_move() {
    let mut sim = Simulation::with_totals(&vec![], 10);
    sim.handle_key(Key::Down, 0);
    assert_eq!(sim.selected(), 0);
    assert_eq!(sim.process(0), None);
    assert_eq!(sim.gauge(), Ratio { num: 0, den: 1 });
    assert!(sim.rows().is_empty());
}

#[test]
fn time_runs_out_to_the_nanosecond() {
    let mut sim = three();
    assert_eq!(sim.handle(Some(Event::Tick), 100 * SECOND), vec![]);
    key(&mut sim, 's', SECOND);
    assert_eq!(sim.handle(Some(Event::Tick), 11 * SECOND - 1), vec![]);
    assert!(!sim.show_summary());
    let halt = vec![
        Effect::SetRunning(false),
        Effect::SetStop(true),
        Effect::JoinWorkers,
    ];
    assert_eq!(sim.handle(Some(Event::Tick), 11 * SECOND), halt);
    assert!(sim.show_summary());
    assert_eq!(sim.handle(Some(Event::Tick), 12 * SECOND), halt);
    key(&mut sim, 's', 13 * SECOND);
    assert!(sim.show_summary());
    assert_eq!(sim.elapsed(15 * SECOND), 2 * SECOND);
}

#[test]
fn the_longest_duration_never_runs_out() {
    let mut sim = Simulation::with_totals(&vec![2000], u64::MAX);
    key(&mut sim, 's', 0);
    let limit = u64::MAX as u128 * SECOND;
    assert_eq!(sim.handle_tick(limit - 1), vec![]);
    assert_eq!(sim.handle_tick(limit).len(), 3);
}

#[test]
fn a_duration_of_zero_runs_out_at_once() {
    let mut sim = Simulation::with_totals(&vec![2000], 0);
    assert_eq!(sim.handle_tick(5), vec![]);
    key(&mut sim, 's', 5);
    assert_eq!(sim.handle_tick(5).len(), 3);
}

#[test]
fn reports_touch_only_their_process() {
    let mut sim = three();
    let before = process(&sim, 1);
    sim.receive(UpdateMsg::Started { id: 0 }, 42);
    assert_eq!(process(&sim, 0).status, ProcStatus::Running);
    assert_eq!(process(&sim, 0).started_at, Some(42));
    assert_eq!(process(&sim, 1), before);
    sim.receive(UpdateMsg::Started { id: 9 }, 43);
    assert_eq!(sim.process(9), None);
}

#[test]
fn progress_is_cut_off_at_the_total() {
    let mut sim = three();
    sim.receive(UpdateMsg::Started { id: 0 }, 1);
    sim.receive(
        UpdateMsg::Progress {
            id: 0,
            elapsed_ms: 1999,
        },
        2,
    );
    assert_eq!(process(&sim, 0).status, ProcStatus::Running);
    assert_eq!(process(&sim, 0).finished_at, None);
    sim.receive(
        UpdateMsg::Progress {
            id: 0,
            elapsed_ms: 2500,
        },
        3,
    );
    assert_eq!(process(&sim, 0).status, ProcStatus::Finished);
    assert_eq!(process(&sim, 0).elapsed_ms, 2000);
    assert_eq!(process(&sim, 0).finished_at, Some(3));
}

#[test]
fn progress_does_not_wake_a_paused_process() {
    let mut sim = three();
    sim.receive(
        UpdateMsg::Progress {
            id: 1,
            elapsed_ms: 100,
        },
        1,
    );
    assert_eq!(process(&sim, 1).status, ProcStatus::Paused);
    assert_eq!(process(&sim, 1).elapsed_ms, 100);
    sim.receive(UpdateMsg::Stopped { id: 1 }, 2);
    sim.receive(
        UpdateMsg::Progress {
            id: 1,
            elapsed_ms: 200,
        },
        3,
    );
    assert_eq!(process(&sim, 1).status, ProcStatus::Running);
    assert_eq!(process(&sim, 1).finished_at, Some(2));
}

#[test]
fn finished_takes_the_claim_as_it_is() {
    let mut sim = three();
    sim.receive(
        UpdateMsg::Finished {
            id: 0,
            elapsed_ms: 2600,
        },
        8,
    );
    assert_eq!(process(&sim, 0).elapsed_ms, 2600);
    assert_eq!(process(&sim, 0).status, ProcStatus::Finished);
    assert_eq!(sim.gauge(), Ratio { num: 2000, den: 2000 });
}

#[test]
fn gauge_follows_the_selection() {
    let mut sim = three();
    sim.receive(
        UpdateMsg::Progress {
            id: 1,
            elapsed_ms: 750,
        },
        1,
    );
    assert_eq!(sim.gauge(), Ratio { num: 0, den: 2000 });
    sim.handle_key(Key::Down, 2);
    assert_eq!(
        sim.gauge(),
        Ratio {
            num: 750,
            den: 3000
        }
    );
}

#[test]
fn a_process_without_work_is_done() {
    let p = ProcState::new(4, 0);
    assert_eq!(p.progress_ratio(), Ratio { num: 1, den: 1 });
    assert!(!p.is_at_rest());
}

#[test]
fn progress_never_exceeds_the_whole() {
    let mut p = ProcState::new(0, 2000);
    p.elapsed_ms = 500;
    assert_eq!(p.progress_ratio(), Ratio { num: 500, den: 2000 });
    p.elapsed_ms = 3000;
    assert_eq!(p.progress_ratio(), Ratio { num: 2000, den: 2000 });
    p.elapsed_ms = u64::MAX;
    assert_eq!(p.progress_ratio(), Ratio { num: 2000, den: 2000 });
}
