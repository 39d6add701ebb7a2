//! How the picker shares the screen: the rows that its parts stand in.

use vstd::prelude::*;
use crate::draw::Rect;
use crate::metadata::{at_least_zero, larger, smaller};
use crate::picker::PickerState;

verus! {

pub const PICKER_LIST_HORIZONTAL_MARGIN: u16 = 2;

pub const DASHBOARD_LIST_HORIZONTAL_MARGIN: u16 = 1;

/// The lines of some rows, one below the other.
pub open spec fn heights_sum(heights: Seq<u16>) -> int
    decreases heights.len(),
{
    if heights.len() == 0 {
        0
    } else {
        heights_sum(heights.drop_last()) + heights.last()
    }
}

/// The rows of `above`, then a row that takes what is left, then a row of `below` lines at the
/// bottom.
pub open spec fn rows_of(area: Rect, above: Seq<u16>, below: u16) -> Seq<Rect> {
    Seq::new(
        above.len() + 2,
        |i: int|
            if i < above.len() {
                Rect {
                    y: (area.y + heights_sum(above.take(i))) as u16,
                    height: above[i],
                    ..area
                }
            } else if i == above.len() {
                Rect {
                    y: (area.y + heights_sum(above)) as u16,
                    height: (area.height - heights_sum(above) - below) as u16,
                    ..area
                }
            } else {
                Rect { y: (area.y + area.height - below) as u16, height: below, ..area }
            },
    )
}

/// The lines of `row` are lines of `area`.
pub open spec fn lies_within(row: Rect, area: Rect) -> bool {
    area.y <= row.y && row.y + row.height <= area.y + area.height
}

/// `upper` ends no lower than `lower` begins.
pub open spec fn lies_above(upper: Rect, lower: Rect) -> bool {
    upper.y + upper.height <= lower.y
}

/// `ratatui::layout::Layout::split`, on a vertical layout of rows with the `Constraint::Length`s
/// `above`, a row with the `Constraint::Min` `min`, and a row with the `Constraint::Length`
/// `below`. There is one area for each row: as wide as the whole, within it, and ending no lower
/// than the next one begins. Where all rows fit, the rows with a length have that length and the
/// row between them takes the rest. How high each row is in an area that is too low for them
/// depends on the order in which the solver walks its hash maps: nothing is claimed of it. The
/// solver's positions are rounded to whole lines; the bound on the number of rows keeps a row's end
/// and the next row's start, which are one position, from being rounded apart.
#[verifier::external_body]
fn split_rows(area: Rect, above: &Vec<u16>, min: u16, below: u16) -> (r: Vec<Rect>)
    requires
        area.is_valid(),
        min <= i16::MAX,
        above@.len() <= 16,
    ensures
        r@.len() == above@.len() + 2,
        forall|i: int|
            0 <= i < r@.len() ==> (#[trigger] r@[i]).x == area.x && r@[i].width == area.width,
        forall|i: int| 0 <= i < r@.len() ==> lies_within(#[trigger] r@[i], area),
        forall|i: int, j: int|
            0 <= i < j < r@.len() ==> lies_above(#[trigger] r@[i], #[trigger] r@[j]),
        heights_sum(above@) + min + below <= area.height ==> r@ == rows_of(area, above@, below),
{
    let mut constraints: Vec<ratatui::layout::Constraint> =
        above.iter().map(|height| ratatui::layout::Constraint::Length(*height)).collect();
    constraints.push(ratatui::layout::Constraint::Min(min));
    constraints.push(ratatui::layout::Constraint::Length(below));
    let outer = ratatui::layout::Rect::new(area.x, area.y, area.width, area.height);
    ratatui::layout::Layout::vertical(constraints)
        .split(outer)
        .iter()
        .map(|row| Rect { x: row.x, y: row.y, width: row.width, height: row.height })
        .collect()
}

/// The areas of the picker's parts.
#[derive(Clone, Copy, Debug, PartialEq, Eq, Structural)]
pub struct PickerAreas {
    pub header: Rect,
    pub search: Rect,
    /// The whole width of the list's rows, with the margins.
    pub list: Rect,
    pub bottom: Rect,
}

/// The areas where the screen has room for all parts: the header, a gap, the search, a gap, the
/// list, and the bottom.
pub open spec fn areas_of(area: Rect, bottom_height: u16) -> PickerAreas {
    PickerAreas {
        header: Rect { height: 1, ..area },
        search: Rect { y: (area.y + 2) as u16, height: 1, ..area },
        list: Rect {
            y: (area.y + 4) as u16,
            height: (area.height - 4 - bottom_height) as u16,
            ..area
        },
        bottom: Rect {
            y: (area.y + area.height - bottom_height) as u16,
            height: bottom_height,
            ..area
        },
    }
}

/// The areas of the picker's parts on a screen. They are as wide as the screen and lie in it one
/// below the other; where the screen has five lines more than the bottom, they are exact.
pub fn picker_areas(area: Rect, bottom_height: u16) -> (r: PickerAreas)
    requires
        area.is_valid(),
    ensures
        r.header.x == area.x && r.header.width == area.width,
        r.search.x == area.x && r.search.width == area.width,
        r.list.x == area.x && r.list.width == area.width,
        r.bottom.x == area.x && r.bottom.width == area.width,
        lies_within(r.header, area),
        lies_within(r.search, area),
        lies_within(r.list, area),
        lies_within(r.bottom, area),
        lies_above(r.header, r.search),
        lies_above(r.search, r.list),
        lies_above(r.list, r.bottom),
        bottom_height + 5 <= area.height ==> r == areas_of(area, bottom_height),
{
    let above: Vec<u16> = vec![1, 1, 1, 1];
    let rows = split_rows(area, &above, 1, bottom_height);
    proof {
        reveal_with_fuel(heights_sum, 5);
        assert(above@.take(0) =~= Seq::<u16>::empty());
        assert(above@.take(2) =~= seq![1u16, 1u16]);
        assert(above@.take(2).drop_last() =~= seq![1u16]);
        assert(above@ =~= seq![1u16, 1u16, 1u16, 1u16]);
        assert(above@.drop_last() =~= seq![1u16, 1u16, 1u16]);
        assert(above@.drop_last().drop_last() =~= seq![1u16, 1u16]);
        assert(seq![1u16, 1u16].drop_last() =~= seq![1u16]);
        assert(seq![1u16].drop_last() =~= Seq::<u16>::empty());
        assert(heights_sum(above@) == 4);
        assert(heights_sum(above@.take(2)) == 2);
        assert(rows_of(area, above@, bottom_height)[0] == areas_of(area, bottom_height).header);
    }
    PickerAreas { header: rows[0], search: rows[2], list: rows[4], bottom: rows[5] }
}

/// The lines at the bottom: what the composer asks for, within limits.
pub open spec fn bottom_height(composer: Option<u16>, height: int) -> int {
    match composer {
        None => 4,
        Some(desired) => larger(4, smaller(desired as int, larger(at_least_zero(height - 6), 4))),
    }
}

/// The lines at the bottom of a screen of `height` lines, where a composer asks for
/// `composer_height` of them.
pub fn picker_bottom_height(composer_height: Option<u16>, height: u16) -> (r: u16)
    ensures
        r == bottom_height(composer_height, height as int),
{
    match composer_height {
        None => 4,
        Some(desired) => {
            let room: u16 = height.saturating_sub(6);
            let most: u16 = if room > 4 {
                room
            } else {
                4
            };
            if desired < 4 {
                4
            } else if desired > most {
                most
            } else {
                desired
            }
        },
    }
}

pub open spec fn list_margin(state: PickerState) -> int {
    if state.is_dashboard() {
        1
    } else {
        2
    }
}

pub fn list_horizontal_margin(state: &PickerState) -> (r: u16)
    ensures
        r == list_margin(*state),
{
    if state.is_agents_dashboard() {
        DASHBOARD_LIST_HORIZONTAL_MARGIN
    } else {
        PICKER_LIST_HORIZONTAL_MARGIN
    }
}

/// The columns between the margins of a list.
pub open spec fn list_width(state: PickerState, width: int) -> int {
    at_least_zero(width - 2 * list_margin(state))
}

pub fn list_viewport_width(width: u16, state: &PickerState) -> (r: u16)
    ensures
        r == list_width(*state, width as int),
{
    width.saturating_sub(list_horizontal_margin(state) * 2)
}

} // verus!
