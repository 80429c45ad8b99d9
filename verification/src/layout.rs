//! Where the parts of the screen go.

use ratatui::layout::{Constraint, Direction, Layout, Rect};
use vstd::prelude::*;

verus! {

/// A rectangle of the terminal, in cells.
#[derive(Debug, Clone, Copy, PartialEq, Eq, Structural)]
pub struct Area {
    pub x: u16,
    pub y: u16,
    pub width: u16,
    pub height: u16,
}

/// The direction in which a rectangle is cut up.
#[derive(Debug, Clone, Copy, PartialEq, Eq, Structural)]
pub enum Axis {
    Vertical,
    Horizontal,
}

/// What one part asks for along the axis.
#[derive(Debug, Clone, Copy, PartialEq, Eq, Structural)]
pub enum Size {
    Length(u16),
    Min(u16),
    Percentage(u16),
}

/// How to cut up a rectangle, inside a margin.
#[derive(Debug)]
pub struct Plan {
    pub axis: Axis,
    pub margin: u16,
    pub sizes: Vec<Size>,
}

/// The four parts of the screen.
#[derive(Debug, Clone, Copy, PartialEq, Eq, Structural)]
pub struct ScreenAreas {
    pub header: Area,
    pub list: Area,
    pub details: Area,
    pub gauge: Area,
}

/// `area` without a margin on each side; nothing where the margins do not fit.
pub open spec fn inset(area: Area, margin: u16) -> Area {
    if area.width < 2 * margin || area.height < 2 * margin {
        Area { x: 0, y: 0, width: 0, height: 0 }
    } else {
        Area {
            x: (area.x + margin) as u16,
            y: (area.y + margin) as u16,
            width: (area.width - 2 * margin) as u16,
            height: (area.height - 2 * margin) as u16,
        }
    }
}

/// The corner of `area` inside the margin can be named, where the margins fit.
pub open spec fn can_inset(area: Area, margin: u16) -> bool {
    &&& 2 * margin <= u16::MAX
    &&& area.width >= 2 * margin && area.height >= 2 * margin ==> {
        &&& area.x + margin <= u16::MAX
        &&& area.y + margin <= u16::MAX
    }
}

/// The sizes of the screen's parts from top to bottom: the headline, the list,
/// and the bottom strip.
pub open spec fn screen_sizes() -> Seq<Size> {
    seq![Size::Length(3), Size::Min(8), Size::Length(7)]
}

/// The sizes of the bottom strip's parts from left to right: the details and
/// the gauge.
pub open spec fn strip_sizes() -> Seq<Size> {
    seq![Size::Percentage(60), Size::Percentage(40)]
}

/// `inner` in three from top to bottom: three lines, seven lines at the bottom,
/// and the rest between them.
pub open spec fn stacked(inner: Area) -> Seq<Area> {
    seq![
        Area { height: 3, ..inner },
        Area { y: (inner.y + 3) as u16, height: (inner.height - 10) as u16, ..inner },
        Area { y: (inner.y + inner.height - 7) as u16, height: 7, ..inner },
    ]
}

/// There is room for the least that the screen's parts ask for.
pub open spec fn has_room(inner: Area) -> bool {
    inner.height >= 18 && fits_down(inner)
}

/// The right edge of `inner` can be named.
pub open spec fn fits_across(inner: Area) -> bool {
    inner.x + inner.width <= u16::MAX
}

/// The lower edge of `inner` can be named.
pub open spec fn fits_down(inner: Area) -> bool {
    inner.y + inner.height <= u16::MAX
}

/// Where `area` begins along `axis`.
pub open spec fn begins(area: Area, axis: Axis) -> int {
    match axis {
        Axis::Vertical => area.y as int,
        Axis::Horizontal => area.x as int,
    }
}

/// Where `area` ends along `axis`.
pub open spec fn ends(area: Area, axis: Axis) -> int {
    match axis {
        Axis::Vertical => area.y + area.height,
        Axis::Horizontal => area.x + area.width,
    }
}

/// Along `axis`, `parts` follow one another without a gap, from the beginning of
/// `inner` to its end.
pub open spec fn tiles(parts: Seq<Area>, inner: Area, axis: Axis) -> bool {
    &&& parts.len() > 0
    &&& begins(parts[0], axis) == begins(inner, axis)
    &&& forall|i: int, j: int|
        0 <= i && j == i + 1 && j < parts.len() ==> ends(#[trigger] parts[i], axis) == begins(
            #[trigger] parts[j],
            axis,
        )
    &&& ends(parts.last(), axis) == ends(inner, axis)
}

/// How headline, list and strip share an `inner` that is lower than what they
/// ask for together: the list has the least that it asks for, or all there is,
/// and the others have no more than they ask for.
pub open spec fn squeezed(header: Area, list: Area, strip: Area, inner: Area) -> bool {
    &&& list.height == if inner.height < 8 { inner.height } else { 8 }
    &&& header.height <= 3
    &&& strip.height <= 7
}

/// `areas` cuts up a screen of the size `area`: inside a margin, headline, list
/// and bottom strip from top to bottom and as wide as the screen, and in the
/// strip, details and gauge side by side, six tenths and the rest. Where there
/// is room for all of them, the parts have their sizes; where there is not, the
/// list comes first.
pub open spec fn lays_out(areas: ScreenAreas, area: Area) -> bool {
    let inner = inset(area, 1);
    &&& areas.header.x == inner.x && areas.header.width == inner.width
    &&& areas.list.x == inner.x && areas.list.width == inner.width
    &&& areas.details.y == areas.gauge.y && areas.details.height == areas.gauge.height
    &&& fits_down(inner) ==> tiles(
        seq![areas.header, areas.list, areas.details],
        inner,
        Axis::Vertical,
    )
    &&& fits_across(inner) ==> {
        &&& areas.details.x == inner.x
        &&& areas.details.width == (6 * inner.width + 5) / 10
        &&& areas.gauge.x == areas.details.x + areas.details.width
        &&& areas.gauge.width == inner.width - areas.details.width
    }
    &&& has_room(inner) ==> {
        &&& areas.header == stacked(inner)[0]
        &&& areas.list == stacked(inner)[1]
        &&& areas.details.y == stacked(inner)[2].y
        &&& areas.details.height == stacked(inner)[2].height
    }
    &&& fits_down(inner) && !has_room(inner) ==> squeezed(
        areas.header,
        areas.list,
        areas.details,
        inner,
    )
}

/// Six tenths of `inner`, rounded to whole cells, on the left, and the rest on
/// the right.
pub open spec fn side_by_side(inner: Area) -> Seq<Area> {
    let left = ((6 * inner.width + 5) / 10) as u16;
    seq![
        Area { width: left, ..inner },
        Area { x: (inner.x + left) as u16, width: (inner.width - left) as u16, ..inner },
    ]
}

/// Cuts `area` up by `plan`, which has the sizes of the screen or of the bottom
/// strip.
///
/// Calls `ratatui::layout::Layout::split`. Trusted: there is one part for each
/// size; across the axis every part fills the area inside the margin; along the
/// axis the parts follow one another without a gap and fill that area too; and
/// they have their sizes, rounded to whole cells, where there is room for all of
/// them. Where there is not, the list has what it asks for before the others
/// have anything, since its least height is wished for twice, and no part has
/// more than it asks for. How headline and strip share what the list leaves is
/// not stated: either way is as good, and `ratatui` leaves the choice to a solver
/// that walks hash maps.
#[verifier::external_body]
fn split(plan: &Plan, area: Area) -> (parts: Vec<Area>)
    requires
        can_inset(area, plan.margin),
        plan.sizes@ == screen_sizes() || plan.sizes@ == strip_sizes(),
    ensures
        parts@.len() == plan.sizes@.len(),
        forall|i: int|
            0 <= i < parts@.len() ==> match plan.axis {
                Axis::Vertical => {
                    &&& (#[trigger] parts@[i]).x == inset(area, plan.margin).x
                    &&& parts@[i].width == inset(area, plan.margin).width
                },
                Axis::Horizontal => {
                    &&& parts@[i].y == inset(area, plan.margin).y
                    &&& parts@[i].height == inset(area, plan.margin).height
                },
            },
        match plan.axis {
            Axis::Vertical => fits_down(inset(area, plan.margin)),
            Axis::Horizontal => fits_across(inset(area, plan.margin)),
        } ==> tiles(parts@, inset(area, plan.margin), plan.axis),
        ({
            let inner = inset(area, plan.margin);
            plan.axis is Vertical && plan.sizes@ == screen_sizes() && has_room(inner) ==> parts@
                == stacked(inner)
        }),
        ({
            let inner = inset(area, plan.margin);
            plan.axis is Vertical && plan.sizes@ == screen_sizes() && fits_down(inner)
                && !has_room(inner) ==> squeezed(parts@[0], parts@[1], parts@[2], inner)
        }),
        ({
            let inner = inset(area, plan.margin);
            plan.axis is Horizontal && plan.sizes@ == strip_sizes() && fits_across(inner) ==> parts@
                == side_by_side(inner)
        }),
{
    let axis = match plan.axis {
        Axis::Vertical => Direction::Vertical,
        Axis::Horizontal => Direction::Horizontal,
    };
    let sizes: Vec<Constraint> = plan.sizes.iter().map(|s| match s {
        Size::Length(n) => Constraint::Length(*n),
        Size::Min(n) => Constraint::Min(*n),
        Size::Percentage(n) => Constraint::Percentage(*n),
    }).collect();
    let layout = Layout::default().direction(axis).margin(plan.margin).constraints(sizes);
    layout.split(Rect { x: area.x, y: area.y, width: area.width, height: area.height }).iter()
        .map(|r| Area { x: r.x, y: r.y, width: r.width, height: r.height }).collect()
}

/// The screen from top to bottom: the headline, the list, and the bottom strip.
pub fn screen_plan() -> (plan: Plan)
    ensures
        plan.axis == Axis::Vertical,
        plan.margin == 1,
        plan.sizes@ == screen_sizes(),
{
    Plan {
        axis: Axis::Vertical,
        margin: 1,
        sizes: vec![Size::Length(3), Size::Min(8), Size::Length(7)],
    }
}

/// The bottom strip from left to right: the details and the gauge.
pub fn strip_plan() -> (plan: Plan)
    ensures
        plan.axis == Axis::Horizontal,
        plan.margin == 0,
        plan.sizes@ == strip_sizes(),
{
    Plan {
        axis: Axis::Horizontal,
        margin: 0,
        sizes: vec![Size::Percentage(60), Size::Percentage(40)],
    }
}

/// Gives each cut its part of the screen: `rows` are the screen from top to
/// bottom, `columns` the last of them from left to right.
pub fn assign(rows: &Vec<Area>, columns: &Vec<Area>) -> (areas: ScreenAreas)
    requires
        rows@.len() == 3,
        columns@.len() == 2,
    ensures
        areas.header == rows@[0],
        areas.list == rows@[1],
        areas.details == columns@[0],
        areas.gauge == columns@[1],
{
    ScreenAreas { header: rows[0], list: rows[1], details: columns[0], gauge: columns[1] }
}

/// Cuts the screen up into its parts.
pub fn screen_areas(area: Area) -> (areas: ScreenAreas)
    requires
        can_inset(area, 1),
    ensures
        lays_out(areas, area),
{
    let rows: Vec<Area> = split(&screen_plan(), area);
    let columns: Vec<Area> = split(&strip_plan(), rows[2]);
    assign(&rows, &columns)
}

} // verus!
