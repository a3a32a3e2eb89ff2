//! Rectangles of the screen, and how the screen is shared out.

use vstd::prelude::*;
use ratatui::layout::{Constraint, Direction, Layout};

verus! {

/// A rectangle of the screen: its top-left corner and its size in cells.
#[derive(Debug, Clone, Copy, PartialEq, Eq, Structural, Hash)]
pub struct Rect {
    pub x: u16,
    pub y: u16,
    pub width: u16,
    pub height: u16,
}

impl Rect {
    /// The rectangle with the given corner and size.
    pub fn new(x: u16, y: u16, width: u16, height: u16) -> (rect: Rect)
        ensures
            rect == (Rect { x, y, width, height }),
    {
        Rect { x, y, width, height }
    }
}

/// The parts of the screen's height that the chat log gets.
pub const CHAT_PARTS: u32 = 3;

/// The parts of the screen's height that the input box gets.
pub const INPUT_PARTS: u32 = 1;

/// The parts into which the screen's height is divided.
pub const SCREEN_PARTS: u32 = 4;

/// Whether `part` is a band of rows of `area`: as wide as the area, from
/// its left edge, and with all its rows inside it.
pub open spec fn is_band_of(part: Rect, area: Rect) -> bool {
    &&& part.x == area.x
    &&& part.width == area.width
    &&& area.y <= part.y
    &&& part.y + part.height <= area.y + area.height
}

/// The upper and the lower part into which ratatui's layout splits the
/// rows of `area`, for two shares, `upper` of `of` and `lower` of `of`,
/// that together fill the area.
pub uninterp spec fn rows_split(area: Rect, upper: u32, lower: u32, of: u32) -> (Rect, Rect);

/// `Layout::split` of ratatui, for a vertical layout of two ratio
/// constraints, `upper` of `of` and `lower` of `of`: the upper and the
/// lower part of `area`. Each part is a band of rows of the area. Where
/// the two shares fill the area, every constraint of the layout can be
/// met, in one way only, and the two parts are that one answer.
#[verifier::external_body]
fn split_rows(area: Rect, upper: u32, lower: u32, of: u32) -> (parts: (Rect, Rect))
    ensures
        is_band_of(parts.0, area),
        is_band_of(parts.1, area),
        of > 0 && upper + lower == of ==> parts == rows_split(area, upper, lower, of),
{
    let area = ratatui::layout::Rect { x: area.x, y: area.y, width: area.width, height: area.height };
    let parts = Layout::default()
        .direction(Direction::Vertical)
        .constraints([Constraint::Ratio(upper, of), Constraint::Ratio(lower, of)])
        .split(area);
    let (a, b) = (parts[0], parts[1]);
    (
        Rect { x: a.x, y: a.y, width: a.width, height: a.height },
        Rect { x: b.x, y: b.y, width: b.width, height: b.height },
    )
}

/// Where each component is drawn.
#[derive(Debug, Clone, Copy, PartialEq, Eq, Structural)]
pub struct Areas {
    /// The chat log: the upper part of the screen.
    pub chat: Rect,
    /// The input box: the lower part of the screen.
    pub input: Rect,
    /// The dialog: it lies over the whole screen.
    pub dialog: Rect,
}

/// Puts two parts of the screen and the screen itself together.
pub fn areas_from(screen: Rect, parts: (Rect, Rect)) -> (areas: Areas)
    ensures
        areas == (Areas { chat: parts.0, input: parts.1, dialog: screen }),
{
    Areas { chat: parts.0, input: parts.1, dialog: screen }
}

/// Shares the screen out: the chat log gets the upper and the input box
/// the lower part of what the layout makes of [`CHAT_PARTS`] and
/// [`INPUT_PARTS`] of [`SCREEN_PARTS`] of the rows, each a band of rows of
/// the screen, and the dialog lies over all of it.
pub fn screen_areas(screen: Rect) -> (areas: Areas)
    ensures
        areas.dialog == screen,
        (areas.chat, areas.input) == rows_split(screen, CHAT_PARTS, INPUT_PARTS, SCREEN_PARTS),
        is_band_of(areas.chat, screen),
        is_band_of(areas.input, screen),
{
    areas_from(screen, split_rows(screen, CHAT_PARTS, INPUT_PARTS, SCREEN_PARTS))
}

} // verus!
