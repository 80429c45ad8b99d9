use procsim::args::{read_args, Config};
use procsim::layout::{screen_areas, Area};
use procsim::process::{ProcState, ProcStatus, Ratio, UpdateMsg};
use procsim::screen::{details, process_line, progress_line, status_label};
use procsim::simulation::{Key, Simulation};
use procsim::text::format_right;

fn args(words: &[&str]) -> Vec<String> {
    words.iter().map(|w| w.to_string()).collect()
}

fn config(num_procs: usize, sim_duration_secs: u64) -> Config {
    Config {
        num_procs,
        sim_duration_secs,
    }
}

#[test]
fn arguments_are_read() {
    assert_eq!(read_args(&args(&["sim", "12", "30"])), config(12, 30));
    assert_eq!(read_args(&args(&["sim", "+7", "007"])), config(7, 7));
    assert_eq!(read_args(&args(&["sim", "0", "0", "x"])), config(0, 0));
    assert_eq!(
        read_args(&args(&["sim", "1", "18446744073709551615"])),
        config(1, u64::MAX)
    );
}

#[test]
fn missing_and_bad_arguments_get_defaults() {
    assert_eq!(read_args(&args(&[])), config(5, 10));
    assert_eq!(read_args(&args(&["sim"])), config(5, 10));
    assert_eq!(read_args(&args(&["sim", "8"])), config(8, 10));
    assert_eq!(read_args(&args(&["sim", "many", "20"])), config(5, 20));
    for bad in ["", "+", "-1", " 3", "3 ", "1_000", "++3", "3+", "1.5", "٣", "18446744073709551616"] {
        assert_eq!(read_args(&args(&["sim", bad, bad])), config(5, 10));
    }
}

fn sample() -> ProcState {
    ProcState {
        id: 3,
        total_ms: 2000,
        elapsed_ms: 40,
        status: ProcStatus::Paused,
        started_at: None,
        finished_at: None,
    }
}

#[test]
fn lines_are_aligned() {
    assert_eq!(
        process_line(&sample()),
        "PID  3 |   40 ms / 2000 ms | Paused"
    );
    let wide = ProcState {
        id: 123,
        total_ms: u64::MAX,
        elapsed_ms: 12345,
        status: ProcStatus::Running,
        ..sample()
    };
    assert_eq!(
        process_line(&wide),
        "PID 123 | 12345 ms / 18446744073709551615 ms | Running"
    );
    assert_eq!(progress_line("2"), "Progress: 2%");
}

#[test]
fn details_describe_the_selected_process() {
    assert_eq!(
        details(Some(sample()), "2.0"),
        "PID: 3\nStatus: Paused\nElapsed: 40 ms\nTotal: 2000 ms\nProgress: 2.0%"
    );
    assert_eq!(details(None, "2.0"), "No process selected");
}

#[test]
fn labels_are_the_names() {
    for status in [
        ProcStatus::Running,
        ProcStatus::Finished,
        ProcStatus::Paused,
        ProcStatus::Stopped,
    ] {
        assert_eq!(status_label(status), format!("{:?}", status));
    }
}

#[test]
fn the_headline_tells_keys_or_summary() {
    let sim = Simulation::with_totals(&vec![2000], 10);
    assert_eq!(
        sim.header(false, "1.3"),
        "Press 's' to start, 'p' to pause/resume, 'q' to quit | Elapsed: 1.3s / 10s"
    );
    assert_eq!(
        sim.header(true, "1.3"),
        "Simulation summary (press 'q' to exit). Total duration: 10s"
    );
}

#[test]
fn rows_go_by_number() {
    let totals: Vec<u64> = (0..200).map(|i| 2000 + i).collect();
    let mut sim = Simulation::with_totals(&totals, 10);
    sim.receive(
        UpdateMsg::Finished {
            id: 7,
            elapsed_ms: 9999,
        },
        1,
    );
    let rows = sim.rows();
    assert_eq!(rows.len(), 200);
    for (i, row) in rows.iter().enumerate() {
        assert_eq!(row.key, i);
        assert_eq!(row.line, process_line(&sim.process(i).unwrap()));
        assert!(row.ratio.num <= row.ratio.den);
    }
    assert_eq!(rows[7].line, "PID  7 | 9999 ms / 2007 ms | Finished");
    assert_eq!(
        rows[7].ratio,
        Ratio {
            num: 2007,
            den: 2007
        }
    );
    assert_eq!(rows[8].ratio, Ratio { num: 0, den: 2008 });
}

#[test]
fn the_summary_counts_the_finished() {
    let mut sim = Simulation::with_totals(&vec![2000, 3000, 4000], 10);
    sim.receive(
        UpdateMsg::Finished {
            id: 0,
            elapsed_ms: 2000,
        },
        1,
    );
    sim.receive(
        UpdateMsg::Progress {
            id: 1,
            elapsed_ms: 300,
        },
        2,
    );
    sim.receive(UpdateMsg::Stopped { id: 1 }, 3);
    assert_eq!(
        sim.summary(),
        vec![
            "\nFinal Summary:",
            "Process  0 | expected: 2000 ms | done: 2000 ms | status: Finished",
            "Process  1 | expected: 3000 ms | done:  300 ms | status: Stopped",
            "Process  2 | expected: 4000 ms | done:    0 ms | status: Paused",
            "1 of 3 processes finished.",
            "Simulation complete.",
        ]
    );
    let empty = Simulation::with_totals(&vec![], 10);
    assert_eq!(
        empty.summary(),
        vec![
            "\nFinal Summary:",
            "0 of 0 processes finished.",
            "Simulation complete."
        ]
    );
}

#[test]
fn the_screen_is_cut_up() {
    let areas = screen_areas(Area {
        x: 0,
        y: 0,
        width: 80,
        height: 40,
    });
    let area = |x, y, width, height| Area {
        x,
        y,
        width,
        height,
    };
    assert_eq!(areas.header, area(1, 1, 78, 3));
    assert_eq!(areas.list, area(1, 4, 78, 28));
    assert_eq!(areas.details, area(1, 32, 47, 7));
    assert_eq!(areas.gauge, area(48, 32, 31, 7));
}

#[test]
fn a_tiny_screen_is_cut_up_too() {
    let areas = screen_areas(Area {
        x: 0,
        y: 0,
        width: 1,
        height: 1,
    });
    assert_eq!(areas.header.width, 0);
    assert_eq!(areas.list.width, 0);
    assert_eq!(areas.details.height, areas.gauge.height);
}

#[test]
fn the_screen_is_cut_up_at_every_size_with_room() {
    for height in 20..120u16 {
        for width in [2, 3, 10, 11, 77, 80, 81, 120, 133, 200, 255] {
            let areas = screen_areas(Area {
                x: 0,
                y: 0,
                width,
                height,
            });
            let inner = width - 2;
            let left = (6 * inner + 5) / 10;
            assert_eq!((areas.header.y, areas.header.height), (1, 3));
            assert_eq!((areas.list.y, areas.list.height), (4, height - 12));
            assert_eq!((areas.details.y, areas.details.height), (height - 8, 7));
            assert_eq!((areas.details.x, areas.details.width), (1, left));
            assert_eq!(
                (areas.gauge.x, areas.gauge.width),
                (1 + left, inner - left)
            );
        }
    }
    for width in 2..2000u16 {
        let areas = screen_areas(Area {
            x: 5,
            y: 9,
            width,
            height: 30,
        });
        let inner = width - 2;
        let left = (6 * inner + 5) / 10;
        assert_eq!((areas.list.y, areas.list.height), (13, 18));
        assert_eq!((areas.details.x, areas.details.width), (6, left));
        assert_eq!(
            (areas.gauge.x, areas.gauge.width),
            (6 + left, inner - left)
        );
    }
}

#[test]
fn the_largest_screen_is_cut_up() {
    let areas = screen_areas(Area {
        x: 0,
        y: 0,
        width: u16::MAX,
        height: u16::MAX,
    });
    assert_eq!((areas.list.y, areas.list.height), (4, 65523));
    assert_eq!((areas.details.y, areas.details.height), (65527, 7));
    assert_eq!((areas.details.x, areas.details.width), (1, 39320));
    assert_eq!((areas.gauge.x, areas.gauge.width), (39321, 26213));
}

#[test]
fn a_low_screen_is_filled_without_gaps() {
    for height in 2..20u16 {
        for width in [2u16, 3, 7, 40, 80, 133] {
            let areas = screen_areas(Area {
                x: 0,
                y: 0,
                width,
                height,
            });
            let inner = width - 2;
            let left = (6 * inner + 5) / 10;
            assert_eq!(areas.list.height, (height - 2).min(8));
            assert!(areas.header.height <= 3 && areas.details.height <= 7);
            assert_eq!(areas.header.y, 1);
            assert_eq!(areas.list.y, areas.header.y + areas.header.height);
            assert_eq!(areas.details.y, areas.list.y + areas.list.height);
            assert_eq!(areas.details.y + areas.details.height, height - 1);
            assert_eq!(areas.gauge.y, areas.details.y);
            assert_eq!((areas.details.x, areas.details.width), (1, left));
            assert_eq!((areas.gauge.x, areas.gauge.width), (1 + left, inner - left));
        }
    }
}

#[test]
fn the_summary_changes_the_headline_alone() {
    let mut sim = Simulation::with_totals(&vec![2000, 3000, 4000], 10);
    sim.receive(
        UpdateMsg::Progress {
            id: 1,
            elapsed_ms: 300,
        },
        1,
    );
    let screen = Area {
        x: 0,
        y: 0,
        width: 80,
        height: 24,
    };
    let draw = |show_summary: bool| {
        let shown = sim.draw(screen, show_summary, "1.3", "0.0");
        let rows: Vec<(usize, String, Ratio)> = shown
            .rows
            .into_iter()
            .map(|r| (r.key, r.line, r.ratio))
            .collect();
        let rest = (rows, shown.selected, shown.details, shown.gauge, shown.areas);
        (shown.header, rest)
    };
    let plain = draw(false);
    let closing = draw(true);
    assert_ne!(plain.0, closing.0);
    assert_eq!(plain.1, closing.1);
}

#[test]
fn a_screen_too_narrow_for_its_margin_is_empty() {
    let areas = screen_areas(Area {
        x: u16::MAX,
        y: u16::MAX,
        width: 1,
        height: 30,
    });
    let nothing = Area {
        x: 0,
        y: 0,
        width: 0,
        height: 0,
    };
    assert_eq!(areas.header, nothing);
    assert_eq!(areas.list, nothing);
    assert_eq!(areas.details, nothing);
    assert_eq!(areas.gauge, nothing);
}

#[test]
fn a_drawing_marks_the_process_that_it_details() {
    let mut sim = Simulation::with_totals(&vec![2000, 3000, 4000], 10);
    sim.handle_key(Key::Down, 0);
    sim.receive(
        UpdateMsg::Progress {
            id: 1,
            elapsed_ms: 300,
        },
        1,
    );
    let screen = sim.draw(
        Area {
            x: 0,
            y: 0,
            width: 80,
            height: 24,
        },
        false,
        "0.0",
        "10.0",
    );
    assert_eq!(screen.selected, 1);
    assert_eq!(
        screen.details,
        "PID: 1\nStatus: Paused\nElapsed: 300 ms\nTotal: 3000 ms\nProgress: 10.0%"
    );
    assert_eq!(screen.details, sim.details("10.0"));
    assert_eq!(
        screen.rows[1].line,
        "PID  1 |  300 ms / 3000 ms | Paused"
    );
    assert_eq!(screen.gauge, Ratio { num: 300, den: 3000 });
    let empty = Simulation::with_totals(&vec![], 10);
    assert_eq!(empty.details("0.0"), "No process selected");
}

#[test]
fn numbers_are_written_in_decimal() {
    for n in [0, 9, 10, 99, 100, 1234567890, u64::MAX] {
        for width in [0, 1, 2, 4, 25] {
            assert_eq!(format_right(n, width), format!("{:>width$}", n, width = width));
        }
    }
}
