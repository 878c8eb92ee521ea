//! The frame round the tabs: the header, the tab titles, the input bar, and boxes
//! over the text.

use vstd::prelude::*;
use crate::app::Tab;
use crate::palette::Color;
use crate::view::rows::{bold, ink, sp, Row, SpanModel};

verus! {

/// The measures as they are shown: with three decimals each, and the colour of the
/// first.
pub struct Figures {
    pub phi: String,
    pub xi: String,
    pub order: String,
    pub phi_color: Color,
}

/// The header.
pub open spec fn header_of(name: Seq<char>, f: Figures) -> Seq<SpanModel> {
    seq![
        sp("  KANNAKA "@, bold(Color::Accent)),
        sp("\u{25C6} "@, ink(Color::Accent)),
        sp(name, bold(Color::Text)),
        sp(" | "@, ink(Color::Dim)),
        sp("Phi: "@, ink(Color::Dim)),
        sp(f.phi@, ink(f.phi_color)),
        sp(" | "@, ink(Color::Dim)),
        sp("Xi: "@, ink(Color::Dim)),
        sp(f.xi@, ink(Color::Info)),
        sp(" | "@, ink(Color::Dim)),
        sp("r: "@, ink(Color::Dim)),
        sp(f.order@, ink(Color::Success)),
    ]
}

/// The header ([`header_of`]).
pub fn header_row(name: &str, f: &Figures) -> (r: Row)
    ensures
        r@ == header_of(name@, *f),
{
    Row::new().with("  KANNAKA ", bold(Color::Accent)).with(
        "\u{25C6} ",
        ink(Color::Accent),
    ).with(name, bold(Color::Text)).with(" | ", ink(Color::Dim)).with(
        "Phi: ",
        ink(Color::Dim),
    ).with(f.phi.as_str(), ink(f.phi_color)).with(" | ", ink(Color::Dim)).with(
        "Xi: ",
        ink(Color::Dim),
    ).with(f.xi.as_str(), ink(Color::Info)).with(" | ", ink(Color::Dim)).with(
        "r: ",
        ink(Color::Dim),
    ).with(f.order.as_str(), ink(Color::Success))
}

/// The name of a tab.
pub open spec fn tab_name(t: Tab) -> Seq<char> {
    match t {
        Tab::Memory => "Memory"@,
        Tab::Status => "Status"@,
        Tab::Bus => "Bus"@,
        Tab::Constellation => "Constellation"@,
        Tab::Dreams => "Dreams"@,
        Tab::Chat => "Chat"@,
        Tab::Cosmos => "Cosmos"@,
        Tab::Agent => "Agent"@,
    }
}

/// The name of a tab ([`tab_name`]).
pub fn tab_title(t: Tab) -> (r: &'static str)
    ensures
        r@ == tab_name(t),
{
    match t {
        Tab::Memory => "Memory",
        Tab::Status => "Status",
        Tab::Bus => "Bus",
        Tab::Constellation => "Constellation",
        Tab::Dreams => "Dreams",
        Tab::Chat => "Chat",
        Tab::Cosmos => "Cosmos",
        Tab::Agent => "Agent",
    }
}

/// The mark of a tab under the input bar.
pub open spec fn tab_mark_of(t: Tab) -> Seq<char> {
    match t {
        Tab::Memory => " [M] "@,
        Tab::Status => " [S] "@,
        Tab::Bus => " [B] "@,
        Tab::Constellation => " [C] "@,
        Tab::Dreams => " [D] "@,
        Tab::Chat => " [Ch] "@,
        Tab::Cosmos => " [Co] "@,
        Tab::Agent => " [Ag] "@,
    }
}

/// The mark of a tab under the input bar ([`tab_mark_of`]).
pub fn tab_mark(t: Tab) -> (r: &'static str)
    ensures
        r@ == tab_mark_of(t),
{
    match t {
        Tab::Memory => " [M] ",
        Tab::Status => " [S] ",
        Tab::Bus => " [B] ",
        Tab::Constellation => " [C] ",
        Tab::Dreams => " [D] ",
        Tab::Chat => " [Ch] ",
        Tab::Cosmos => " [Co] ",
        Tab::Agent => " [Ag] ",
    }
}

/// The input bar.
pub fn input_row(input: &str) -> (r: Row)
    ensures
        r@ == seq![sp(" > "@, bold(Color::Accent)), sp(input@, ink(Color::Text))],
{
    Row::new().with(" > ", bold(Color::Accent)).with(input, ink(Color::Text))
}

/// A rectangle of cells.
#[derive(Clone, Copy, PartialEq, Eq, Structural, Debug)]
pub struct Area {
    pub x: u16,
    pub y: u16,
    pub width: u16,
    pub height: u16,
}

/// The lesser of two numbers.
pub open spec fn least(a: int, b: int) -> int {
    if a <= b {
        a
    } else {
        b
    }
}

/// `a - b`, but not below 0.
pub open spec fn less(a: int, b: int) -> int {
    if a >= b {
        a - b
    } else {
        0
    }
}

/// The column of the cursor in the input bar: behind the border and the prompt,
/// and never past the last cell inside the right border.
pub open spec fn cursor_column_of(x: u16, width: u16, cursor: usize) -> int {
    least(
        least(x + 4 + (cursor % 65536) as int, u16::MAX as int),
        x + less(width as int, 2),
    )
}

/// The column of the cursor in the input bar ([`cursor_column_of`]).
pub fn cursor_column(x: u16, width: u16, cursor: usize) -> (r: u16)
    requires
        x + 4 <= u16::MAX,
        x + width <= u16::MAX,
    ensures
        r == cursor_column_of(x, width, cursor),
{
    let col: u16 = (x + 4).saturating_add((cursor % 65536) as u16);
    let max: u16 = x + width.saturating_sub(2);
    if col <= max {
        col
    } else {
        max
    }
}

/// The cursor never stands outside the input bar.
pub proof fn law_cursor_stays_in_the_bar(x: u16, width: u16, cursor: usize)
    requires
        x + width <= u16::MAX,
        width > 0,
    ensures
        cursor_column_of(x, width, cursor) < x + width,
        width >= 6 ==> x < cursor_column_of(x, width, cursor),
{
}

/// The place of a box of at most `width` by `height` cells in the middle of `area`,
/// which is at least `across` cells wider and `down` cells higher where there is room.
pub open spec fn box_in(area: Area, width: u16, height: u16, across: u16, down: u16) -> Area {
    let w = least(width as int, less(area.width as int, across as int));
    let h = least(height as int, less(area.height as int, down as int));
    Area {
        x: (area.x + (area.width - w) / 2) as u16,
        y: (area.y + (area.height - h) / 2) as u16,
        width: w as u16,
        height: h as u16,
    }
}

/// The place of a box in the middle of an area ([`box_in`]).
fn centered(area: Area, width: u16, height: u16, across: u16, down: u16) -> (r: Area)
    requires
        area.x + area.width <= u16::MAX,
        area.y + area.height <= u16::MAX,
    ensures
        r == box_in(area, width, height, across, down),
{
    let room: u16 = area.width.saturating_sub(across);
    let tall: u16 = area.height.saturating_sub(down);
    let w: u16 = if width <= room {
        width
    } else {
        room
    };
    let h: u16 = if height <= tall {
        height
    } else {
        tall
    };
    Area {
        x: area.x + (area.width - w) / 2,
        y: area.y + (area.height - h) / 2,
        width: w,
        height: h,
    }
}

/// The place of the box that asks for a decision.
pub fn approval_box(area: Area) -> (r: Area)
    requires
        area.x + area.width <= u16::MAX,
        area.y + area.height <= u16::MAX,
    ensures
        r == box_in(area, 72, 11, 4, 2),
{
    centered(area, 72, 11, 4, 2)
}

/// The place of the help on a screen of the given size.
pub fn help_box(width: u16, height: u16) -> (r: Area)
    ensures
        r == box_in((Area { x: 0, y: 0, width, height }), 80, 63, 4, 4),
{
    centered(Area { x: 0, y: 0, width, height }, 80, 63, 4, 4)
}

/// A box lies within its area, with the same room on either side up to one cell.
pub proof fn law_box_lies_in_the_middle(area: Area, width: u16, height: u16, across: u16, down: u16)
    requires
        area.x + area.width <= u16::MAX,
        area.y + area.height <= u16::MAX,
    ensures
        ({
            let b = box_in(area, width, height, across, down);
            let left = b.x - area.x;
            let right = area.x + area.width - (b.x + b.width);
            let above = b.y - area.y;
            let below = area.y + area.height - (b.y + b.height);
            &&& 0 <= left <= right <= left + 1
            &&& 0 <= above <= below <= above + 1
        }),
{
}

} // verus!
