//! Rectangles of the terminal screen and their division by percentages.
use vstd::prelude::*;

use ratatui::layout::{Constraint, Direction, Layout, Rect};

verus! {

/// A rectangle of terminal cells: its top-left corner and its size.
#[derive(Debug, Clone, Copy, PartialEq, Eq, Structural)]
pub struct Area {
    pub x: u16,
    pub y: u16,
    pub width: u16,
    pub height: u16,
}

/// The direction in which an area is divided.
#[derive(Debug, Clone, Copy, PartialEq, Eq, Structural)]
pub enum SplitDirection {
    Horizontal,
    Vertical,
}

/// The sum of the percentages `percents`.
pub open spec fn percent_total(percents: Seq<u16>) -> int
    decreases percents.len(),
{
    if percents.len() == 0 {
        0
    } else {
        percent_total(percents.drop_last()) + percents.last()
    }
}

/// Whether `part` is empty or lies inside `outer` shrunk by `margin` cells on
/// each side.
pub open spec fn lies_within(part: Area, outer: Area, margin: int) -> bool {
    ||| part.width == 0
    ||| part.height == 0
    ||| {
        &&& part.x >= outer.x + margin
        &&& part.y >= outer.y + margin
        &&& part.x + part.width + margin <= outer.x + outer.width
        &&& part.y + part.height + margin <= outer.y + outer.height
    }
}

/// The parts into which the layout solver divides `area`: first shrunk by
/// `margin` cells on each side, then cut along `direction` into one part per
/// percentage.
pub uninterp spec fn layout_split(
    area: Area,
    direction: SplitDirection,
    margin: u16,
    percents: Seq<u16>,
) -> Seq<Area>;

/// `Layout::split` on a layout of percentage constraints that add up to at
/// most 100: the parts it gives are those of `layout_split`, one for each
/// percentage, and each is empty or lies inside the area shrunk by the
/// margin (the solver keeps every boundary between the start and the end of
/// the shrunk area).
#[verifier::external_body]
pub(crate) fn split_by_percentages(
    area: Area,
    direction: SplitDirection,
    margin: u16,
    percents: &Vec<u16>,
) -> (parts: Vec<Area>)
    requires
        percent_total(percents@) <= 100,
    ensures
        parts@ == layout_split(area, direction, margin, percents@),
        parts@.len() == percents@.len(),
        forall|k: int| 0 <= k < parts@.len() ==> lies_within(#[trigger] parts@[k], area, margin as int),
{
    let direction = match direction {
        SplitDirection::Horizontal => Direction::Horizontal,
        SplitDirection::Vertical => Direction::Vertical,
    };
    let constraints = percents.iter().map(|p| Constraint::Percentage(*p));
    let layout = Layout::default().direction(direction).margin(margin).constraints(constraints);
    let rect = Rect::new(area.x, area.y, area.width, area.height);
    layout.split(rect).iter().map(|r| Area { x: r.x, y: r.y, width: r.width, height: r.height }).collect()
}

} // verus!

verus! {

/// A part that lies within `b`, where `b` lies within `c` shrunk by `margin`,
/// lies within `c` shrunk by `margin`.
pub proof fn lemma_lies_within_trans(a: Area, b: Area, c: Area, margin: int)
    requires
        lies_within(a, b, 0),
        lies_within(b, c, margin),
    ensures
        lies_within(a, c, margin),
{
}

} // verus!
