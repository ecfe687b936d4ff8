//! Where the information popup goes on the screen.

use vstd::prelude::*;

verus! {

/// A rectangle of terminal cells, as ratatui's `Rect`.
#[derive(Debug, Clone, Copy, PartialEq, Eq, Structural)]
pub struct Rect {
    pub x: u16,
    pub y: u16,
    pub width: u16,
    pub height: u16,
}

/// What ratatui's `Layout::horizontal([Constraint::Percentage(percent)])`,
/// centred with `Flex::Center`, gives for `area` through `areas`.
pub uninterp spec fn centered_columns(percent: u16, area: Rect) -> Rect;

/// What ratatui's `Layout::vertical([Constraint::Percentage(percent)])`,
/// centred with `Flex::Center`, gives for `area` through `areas`.
pub uninterp spec fn centered_rows(percent: u16, area: Rect) -> Rect;

/// Calls ratatui's horizontal `Layout` with one percentage constraint and
/// `Flex::Center`. The layout solver's result is only named:
/// `centered_columns` of the arguments.
#[verifier::external_body]
fn center_columns(percent: u16, area: Rect) -> (r: Rect)
    ensures
        r == centered_columns(percent, area),
{
    let a = ratatui::layout::Rect { x: area.x, y: area.y, width: area.width, height: area.height };
    let layout = ratatui::layout::Layout::horizontal([ratatui::layout::Constraint::Percentage(percent)]);
    let [c] = layout.flex(ratatui::layout::Flex::Center).areas(a);
    Rect { x: c.x, y: c.y, width: c.width, height: c.height }
}

/// Calls ratatui's vertical `Layout` with one percentage constraint and
/// `Flex::Center`. The layout solver's result is only named: `centered_rows`
/// of the arguments.
#[verifier::external_body]
fn center_rows(percent: u16, area: Rect) -> (r: Rect)
    ensures
        r == centered_rows(percent, area),
{
    let a = ratatui::layout::Rect { x: area.x, y: area.y, width: area.width, height: area.height };
    let layout = ratatui::layout::Layout::vertical([ratatui::layout::Constraint::Percentage(percent)]);
    let [c] = layout.flex(ratatui::layout::Flex::Center).areas(a);
    Rect { x: c.x, y: c.y, width: c.width, height: c.height }
}

/// A rectangle `percent_x` percent as wide and `percent_y` percent as high
/// as `r`, centred in it: the columns are laid out first, then the rows
/// within them.
pub fn centered_rect(percent_x: u16, percent_y: u16, r: Rect) -> (c: Rect)
    ensures
        c == centered_rows(percent_y, centered_columns(percent_x, r)),
{
    let area = center_columns(percent_x, r);
    center_rows(percent_y, area)
}

} // verus!
