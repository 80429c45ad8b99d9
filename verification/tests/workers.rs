use procsim::clock::{elapsed_since, Ticker, TICK_NANOS};
use procsim::process::{ProcStatus, UpdateMsg};
use procsim::random::random_start_delay_ms;
use procsim::simulation::Simulation;
use procsim::worker::{Worker, WorkerStep};

/// Runs a worker that is always let work, and collects its reports.
fn run(id: usize, total_ms: u64) -> Vec<UpdateMsg> {
    let (mut worker, started) = Worker::begin(id, total_ms);
    let mut reports = vec![started];
    loop {
        match worker.next(false, true) {
            WorkerStep::Work { sleep_ms } => {
                assert_eq!(sleep_ms, 100);
                reports.push(worker.work());
            }
            WorkerStep::Wait { .. } => panic!("the worker may work"),
            WorkerStep::End { report } => {
                reports.push(report);
                return reports;
            }
        }
    }
}

#[test]
fn a_worker_reports_each_step_and_the_end() {
    assert_eq!(
        run(3, 250),
        vec![
            UpdateMsg::Started { id: 3 },
            UpdateMsg::Progress {
                id: 3,
                elapsed_ms: 100
            },
            UpdateMsg::Progress {
                id: 3,
                elapsed_ms: 200
            },
            UpdateMsg::Progress {
                id: 3,
                elapsed_ms: 250
            },
            UpdateMsg::Finished {
                id: 3,
                elapsed_ms: 250
            },
        ]
    );
}

#[test]
fn a_worker_takes_as_many_steps_as_it_needs() {
    assert_eq!(run(0, 2000).len(), 22);
    assert_eq!(run(0, 2001).len(), 23);
    assert_eq!(run(0, 7999).len(), 82);
    assert_eq!(
        run(0, 0),
        vec![
            UpdateMsg::Started { id: 0 },
            UpdateMsg::Finished {
                id: 0,
                elapsed_ms: 0
            }
        ]
    );
}

#[test]
fn a_worker_heeds_the_flags() {
    let (mut worker, _) = Worker::begin(2, 150);
    assert_eq!(
        worker.next(false, false),
        WorkerStep::Wait { sleep_ms: 150 }
    );
    assert_eq!(worker.next(false, true), WorkerStep::Work { sleep_ms: 100 });
    let stopped = WorkerStep::End {
        report: UpdateMsg::Stopped { id: 2 },
    };
    assert_eq!(worker.next(true, true), stopped);
    assert_eq!(worker.next(true, false), stopped);
    worker.work();
    worker.work();
    let finished = WorkerStep::End {
        report: UpdateMsg::Finished {
            id: 2,
            elapsed_ms: 150,
        },
    };
    assert_eq!(worker.next(true, false), finished);
}

#[test]
fn complete_runs_finish_their_processes_in_any_mix() {
    let totals = vec![2050, 2100, 2999];
    let mut sim = Simulation::with_totals(&totals, 10);
    let mut queues: Vec<Vec<UpdateMsg>> = (0..3).map(|id| run(id, totals[id])).collect();
    let mut now: u128 = 0;
    while queues.iter().any(|q| !q.is_empty()) {
        for q in queues.iter_mut() {
            if !q.is_empty() {
                now += 1;
                sim.receive(q.remove(0), now);
            }
        }
    }
    for id in 0..3 {
        let p = sim.process(id).unwrap();
        assert_eq!(p.status, ProcStatus::Finished);
        assert_eq!(p.elapsed_ms, totals[id]);
        assert!(p.finished_at.is_some());
    }
}

#[test]
fn start_delays_lie_in_range_and_vary() {
    let delays: Vec<u64> = (0..300).map(|_| random_start_delay_ms()).collect();
    assert!(delays.iter().all(|d| *d < 200));
    assert!(delays.iter().any(|d| *d != delays[0]));
}

#[test]
fn ticks_come_every_quarter_second() {
    let mut ticker = Ticker::new(1000);
    assert_eq!(TICK_NANOS, 250_000_000);
    assert_eq!(ticker.remaining(1000), 250_000_000);
    assert_eq!(ticker.remaining(0), 250_000_000);
    assert_eq!(ticker.remaining(101_000), 249_900_000);
    assert!(!ticker.is_due(250_000_999));
    assert_eq!(ticker.remaining(250_000_999), 1);
    assert!(ticker.is_due(250_001_000));
    assert_eq!(ticker.remaining(250_001_000), 0);
    assert_eq!(ticker.remaining(999_999_999), 0);
    ticker.reset(300_000_000);
    assert!(!ticker.is_due(500_000_000));
}

#[test]
fn spans_do_not_run_backwards() {
    assert_eq!(elapsed_since(5, 9), 4);
    assert_eq!(elapsed_since(9, 5), 0);
    assert_eq!(elapsed_since(0, u128::MAX), u128::MAX);
}
