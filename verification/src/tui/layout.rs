//! Rectangles of the terminal and the splitting of one into parts.

use vstd::prelude::*;
use ratatui::layout;

verus! {

/// A rectangle of terminal cells: its top left corner and its size.
#[derive(Clone, Copy, Debug, PartialEq, Eq, Structural)]
pub struct Rect {
    pub x: u16,
    pub y: u16,
    pub width: u16,
    pub height: u16,
}

/// The axis along which a rectangle is cut.
#[derive(Clone, Copy, Debug, PartialEq, Eq, Structural)]
pub enum Direction {
    Horizontal,
    Vertical,
}

/// What is asked of one part of a cut.
#[derive(Clone, Copy, Debug, PartialEq, Eq, Structural)]
pub enum Constraint {
    /// A share of the whole, in percent.
    Percentage(u16),
    /// A fixed number of cells.
    Length(u16),
    /// At least this many cells.
    Min(u16),
}

/// Whether `part` spans `area` across the axis of the cut: a part of a
/// vertical cut has the area's column and width, a part of a horizontal cut
/// its row and height.
pub open spec fn spans(area: Rect, direction: Direction, part: Rect) -> bool {
    match direction {
        Direction::Horizontal => part.y == area.y && part.height == area.height,
        Direction::Vertical => part.x == area.x && part.width == area.width,
    }
}

/// Cuts `area` along `direction` with `ratatui::layout::Layout::split`.
///
/// Trusted: the layout is built with no margin, and `split` then returns one
/// rectangle for each constraint, each with the area's extent across the axis
/// of the cut. Where along the axis the solver puts the cuts is not stated.
#[verifier::external_body]
pub(crate) fn split(area: Rect, direction: Direction, constraints: &Vec<Constraint>) -> (parts: Vec<Rect>)
    ensures
        parts@.len() == constraints@.len(),
        forall|i: int| 0 <= i < parts@.len() ==> spans(area, direction, #[trigger] parts@[i]),
{
    let direction = match direction {
        Direction::Horizontal => layout::Direction::Horizontal,
        Direction::Vertical => layout::Direction::Vertical,
    };
    let constraints = constraints.iter().map(|c| match *c {
        Constraint::Percentage(p) => layout::Constraint::Percentage(p),
        Constraint::Length(n) => layout::Constraint::Length(n),
        Constraint::Min(n) => layout::Constraint::Min(n),
    });
    let outer = layout::Rect { x: area.x, y: area.y, width: area.width, height: area.height };
    let parts = layout::Layout::default().direction(direction).constraints(constraints).split(outer);
    parts.iter().map(|r| Rect { x: r.x, y: r.y, width: r.width, height: r.height }).collect()
}

/// A cut of a rectangle in two: its axis and what is asked of each part.
#[derive(Clone, Copy, Debug, PartialEq, Eq, Structural)]
pub struct Cut {
    pub direction: Direction,
    pub first: Constraint,
    pub second: Constraint,
}

/// Cuts `area` in two as `cut` says. Both parts span the area across the
/// axis of the cut; where along the axis the cut falls is for the layout
/// solver to say.
pub fn split_in_two(area: Rect, cut: Cut) -> (parts: (Rect, Rect))
    ensures
        spans(area, cut.direction, parts.0),
        spans(area, cut.direction, parts.1),
{
    let mut constraints: Vec<Constraint> = Vec::new();
    constraints.push(cut.first);
    constraints.push(cut.second);
    let parts = split(area, cut.direction, &constraints);
    (parts[0], parts[1])
}

} // verus!
