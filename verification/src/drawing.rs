//! One drawing of the screen: everything that it shows, and where.

use vstd::prelude::*;

use crate::layout::{screen_areas, Area, ScreenAreas};
use crate::process::Ratio;
use crate::screen::Row;
use crate::simulation::{SimState, Simulation};

verus! {

/// What one drawing of the screen shows, as a value.
pub struct Drawing {
    pub header: Seq<char>,
    pub rows: Seq<Row>,
    pub selected: usize,
    pub details: Seq<char>,
    pub gauge: Ratio,
    pub areas: ScreenAreas,
}

/// What one drawing of the screen shows.
#[derive(Debug)]
pub struct Screen {
    /// The headline.
    pub header: String,
    /// The list of the processes.
    pub rows: Vec<Row>,
    /// The place of the marked row.
    pub selected: usize,
    /// The details of the selected process.
    pub details: String,
    /// How much of the selected process is done.
    pub gauge: Ratio,
    /// Where the parts go.
    pub areas: ScreenAreas,
}

impl View for Screen {
    type V = Drawing;

    open spec fn view(&self) -> Drawing {
        Drawing {
            header: self.header@,
            rows: self.rows@,
            selected: self.selected,
            details: self.details@,
            gauge: self.gauge,
            areas: self.areas,
        }
    }
}

/// `d` is a drawing of `s` on a screen of the size `area`, under the headline of
/// the summary or not, with the digits `elapsed` for the seconds gone by and
/// `percent` for the percentage of the selected process.
pub open spec fn draws(
    d: Drawing,
    s: SimState,
    area: Area,
    show_summary: bool,
    elapsed: Seq<char>,
    percent: Seq<char>,
) -> bool {
    &&& d.header == crate::screen::header_text(show_summary, elapsed, s.sim_duration_secs)
    &&& crate::screen::shows(d.rows, s.procs)
    &&& d.selected == s.selected
    &&& d.details == crate::screen::detail_text(s.procs.get(s.selected), percent)
    &&& d.gauge == s.gauge()
    &&& crate::layout::lays_out(d.areas, area)
}

impl Simulation {
    /// A drawing of the simulation on a screen of the size `area`, with the
    /// digits `elapsed` for the seconds gone by and `percent` for the percentage
    /// of the selected process.
    pub fn draw(&self, area: Area, show_summary: bool, elapsed: &str, percent: &str) -> (screen:
        Screen)
        requires
            crate::layout::can_inset(area, 1),
        ensures
            draws(screen@, self@, area, show_summary, elapsed@, percent@),
    {
        Screen {
            header: self.header(show_summary, elapsed),
            rows: self.rows(),
            selected: self.selected(),
            details: self.details(percent),
            gauge: self.gauge(),
            areas: screen_areas(area),
        }
    }
}

} // verus!
