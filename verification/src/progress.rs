//! How far the list is scrolled, as its footer tells it.

use vstd::prelude::*;
use vstd::string::StringExecFns;
use crate::metadata::{at_least_zero, smaller};
use crate::picker::PickerState;
use crate::scroll::{content_rows_of, height_between, lemma_rows_height_nonnegative};
use crate::style::{at_most_usize, display_width, text_width};
use crate::text::{decimal, decimal_text};

verus! {

/// How far the list is scrolled.
#[derive(Clone, Copy, Debug, PartialEq, Eq, Structural)]
pub enum ScrollProgress {
    Percent(u8),
    /// The share of the lines that are scrolled past in those that can be, to be told in percent.
    Share { skipped: usize, max: usize },
}

/// How far the list is scrolled in a view of `height` lines. It is at its end where everything
/// fits, and where everything from the first row in view on does.
pub open spec fn scroll_progress(state: PickerState, height: int) -> ScrollProgress {
    let last = state.filtered_rows@.len() - 1;
    let room = content_rows_of(state, height);
    let max = at_least_zero(at_most_usize(height_between(state, 0, last)) - room);
    if last < 0 || max == 0 {
        ScrollProgress::Percent(100)
    } else if at_most_usize(height_between(state, state.scroll_top as int, last)) <= room {
        ScrollProgress::Percent(100)
    } else {
        let skipped = if state.scroll_top == 0 {
            0
        } else {
            at_most_usize(height_between(state, 0, state.scroll_top - 1))
        };
        ScrollProgress::Share { skipped: smaller(skipped, max) as usize, max: max as usize }
    }
}

pub fn picker_footer_scroll_percent(state: &PickerState, list_height: u16) -> (r: ScrollProgress)
    ensures
        r == scroll_progress(*state, list_height as int),
{
    if state.filtered_rows.len() == 0 {
        return ScrollProgress::Percent(100);
    }
    let last: usize = state.filtered_rows.len() - 1;
    let content_rows: usize = state.available_content_rows(list_height as usize);
    let total: usize = state.rendered_height_between(0, last);
    let max: usize = total.saturating_sub(content_rows);
    if max == 0 {
        return ScrollProgress::Percent(100);
    }
    if state.rendered_height_between(state.scroll_top, last) <= content_rows {
        return ScrollProgress::Percent(100);
    }
    let skipped: usize = if state.scroll_top == 0 {
        0
    } else {
        state.rendered_height_between(0, state.scroll_top - 1)
    };
    proof {
        if state.scroll_top > 0 {
            lemma_rows_height_nonnegative(*state, 0, state.scroll_top as nat);
        }
    }
    ScrollProgress::Share {
        skipped: if skipped < max {
            skipped
        } else {
            max
        },
        max,
    }
}

/// The progress that the footer tells: while a page is loading, what it was before.
pub open spec fn footer_progress(state: PickerState, height: int) -> ScrollProgress {
    if state.pagination.pending is Some {
        match state.frozen_footer_percent {
            Some(progress) => progress,
            None => if state.filtered_rows@.len() == 0 {
                ScrollProgress::Percent(0)
            } else {
                scroll_progress(state, height)
            },
        }
    } else {
        scroll_progress(state, height)
    }
}

pub fn picker_footer_percent(state: &PickerState, list_height: u16) -> (r: ScrollProgress)
    ensures
        r == footer_progress(*state, list_height as int),
{
    if state.pagination.is_loading() {
        return match state.frozen_footer_percent {
            Some(progress) => progress,
            None => if state.filtered_rows.len() == 0 {
                ScrollProgress::Percent(0)
            } else {
                picker_footer_scroll_percent(state, list_height)
            },
        };
    }
    picker_footer_scroll_percent(state, list_height)
}

/// The number of the selected row, counted from one; zero in an empty list.
pub open spec fn position_of(state: PickerState) -> int {
    if state.filtered_rows@.len() == 0 {
        0
    } else {
        at_most_usize(state.selected + 1)
    }
}

/// The number of known rows, with an ellipsis while more are loading.
pub open spec fn total_text(state: PickerState) -> Seq<char> {
    decimal(state.filtered_rows@.len()) + (if state.pagination.pending is Some {
        "…"@
    } else {
        ""@
    })
}

/// The progress labels, from the longest to the shortest.
pub open spec fn progress_labels(state: PickerState, percent: int) -> Seq<Seq<char>> {
    let position = decimal(position_of(state) as nat);
    let total = total_text(state);
    let share = decimal(percent as nat) + "% "@;
    seq![
        " "@ + position + " / "@ + total + " · "@ + share,
        " "@ + position + "/"@ + total + " · "@ + share,
        " "@ + share,
    ]
}

/// The first of `labels` from `at` on that is narrower than `width`; nothing where none is.
pub open spec fn first_narrower(labels: Seq<Seq<char>>, width: int, at: int) -> Seq<char>
    decreases labels.len() - at,
{
    if 0 <= at < labels.len() {
        if display_width(labels[at]) < width {
            labels[at]
        } else {
            first_narrower(labels, width, at + 1)
        }
    } else {
        Seq::empty()
    }
}

/// The position, the number of rows and `percent`, in the longest form that fits.
pub fn picker_footer_progress_label(state: &PickerState, percent: u8, width: u16) -> (r: String)
    ensures
        r@ == first_narrower(progress_labels(*state, percent as int), width as int, 0),
{
    let position: usize = if state.filtered_rows.len() == 0 {
        0
    } else {
        state.selected.saturating_add(1)
    };
    let position_text = decimal_text(position as u64);
    let mut total = decimal_text(state.filtered_rows.len() as u64);
    total.append(if state.pagination.is_loading() { "…" } else { "" });
    let mut share = decimal_text(percent as u64);
    share.append("% ");
    let mut long = " ".to_owned();
    long.append(position_text.as_str());
    long.append(" / ");
    long.append(total.as_str());
    long.append(" · ");
    long.append(share.as_str());
    let mut middle = " ".to_owned();
    middle.append(position_text.as_str());
    middle.append("/");
    middle.append(total.as_str());
    middle.append(" · ");
    middle.append(share.as_str());
    let mut short = " ".to_owned();
    short.append(share.as_str());
    let ghost labels = progress_labels(*state, percent as int);
    proof {
        assert(labels[0] == long@);
        assert(labels[1] == middle@);
        assert(labels[2] == short@);
        reveal_with_fuel(first_narrower, 4);
    }
    if text_width(long.as_str()) < width as usize {
        return long;
    }
    if text_width(middle.as_str()) < width as usize {
        return middle;
    }
    if text_width(short.as_str()) < width as usize {
        return short;
    }
    String::new()
}

} // verus!
