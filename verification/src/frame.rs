//! The picker on the screen: which line of text is drawn where.

use vstd::prelude::*;
use vstd::string::StringExecFns;
use crate::draw::{
    at_most_u16, draw_text, draws_view, group_draw_views, text_at, DrawOp, DrawView, Rect,
};
use crate::header::{columns, count_columns, search_line, search_line_view};
use crate::hints::{footer_hint_lines, hint_lines};
use crate::layout::{
    list_horizontal_margin, list_margin, list_viewport_width, list_width, PickerAreas,
};
use crate::metadata::{at_least_zero, smaller};
use crate::picker::PickerState;
use crate::progress::{first_narrower, picker_footer_progress_label, progress_labels};
use crate::render_card::{render_session_lines, session_lines};
use crate::render_row::{copy_line, Palette};
use crate::scroll::{
    can_look_below, group_label, is_expanded_at, more_above, more_below, starts_group,
};
use crate::session::{SessionListDensity, SessionPickerLaunchContext};
use crate::style::{
    bold_style, dim_italic_style, dim_style, display_width, group_line_views, line_of, lines_view,
    plain_style, span_of, text_width, Color, Line, LineView, Span, Style,
};
use crate::text::{decimal, decimal_text, repeat_char, repeated, truncate_text, truncated};

verus! {

broadcast use {group_line_views, group_draw_views};

/// The line that there is more in a direction.
pub open spec fn more_line_view(label: Seq<char>) -> LineView {
    line_of(seq![span_of(label, dim_style())])
}

pub fn more_line(label: &'static str) -> (r: Line)
    ensures
        r@ == more_line_view(label@),
{
    Line::one(Span::from_text(label, Style::dim()))
}

/// What stands in place of an empty list.
pub open spec fn empty_text(state: PickerState) -> Seq<char> {
    if state.query@.len() > 0 {
        if state.search_state is Active || (state.pagination.pending is Some
            && state.pagination.next_cursor is Some) {
            "Searching…"@
        } else if state.pagination.reached_scan_cap {
            "Search scanned first "@ + decimal(state.pagination.num_scanned_files as nat)
                + " sessions; more may exist"@
        } else {
            "No results for your search"@
        }
    } else if state.pagination.pending is Some {
        if state.all_rows@.len() == 0 && state.pagination.num_scanned_files == 0 {
            "Loading sessions…"@
        } else {
            "Loading older sessions…"@
        }
    } else {
        "No sessions yet"@
    }
}

pub open spec fn empty_line_view(state: PickerState) -> LineView {
    line_of(seq![span_of(empty_text(state), dim_italic_style())])
}

pub fn render_empty_state_line(state: &PickerState) -> (r: Line)
    ensures
        r@ == empty_line_view(*state),
{
    let text = if !state.query.as_str().is_empty() {
        if state.search_state.is_active() || (state.pagination.is_loading()
            && state.pagination.next_cursor.is_some()) {
            "Searching…".to_owned()
        } else if state.pagination.reached_scan_cap {
            let mut text = "Search scanned first ".to_owned();
            text.append(decimal_text(state.pagination.num_scanned_files as u64).as_str());
            text.append(" sessions; more may exist");
            text
        } else {
            "No results for your search".to_owned()
        }
    } else if state.pagination.is_loading() {
        if state.all_rows.len() == 0 && state.pagination.num_scanned_files == 0 {
            "Loading sessions…".to_owned()
        } else {
            "Loading older sessions…".to_owned()
        }
    } else {
        "No sessions yet".to_owned()
    };
    Line::one(Span::new(text, Style::dim_italic()))
}

/// Lines one below the other from line `y` on, as far as they lie above line `bottom`.
pub open spec fn stacked(
    lines: Seq<LineView>,
    x: int,
    width: int,
    y: int,
    bottom: int,
) -> Seq<DrawView> {
    Seq::new(
        smaller(lines.len() as int, at_least_zero(bottom - y)) as nat,
        |i: int| text_at(x, y + i, width, lines[i]),
    )
}

fn draw_lines(
    ops: &mut Vec<DrawOp>,
    lines: &Vec<Line>,
    from: usize,
    x: u16,
    width: u16,
    y: u16,
    bottom: u16,
) -> (r: u16)
    requires
        from <= lines@.len(),
    ensures
        draws_view(final(ops)@) == draws_view(old(ops)@) + stacked(
            lines_view(lines@).skip(from as int),
            x as int,
            width as int,
            y as int,
            bottom as int,
        ),
        r == y + smaller(lines@.len() - from, at_least_zero(bottom - y)),
{
    let ghost rest = lines_view(lines@).skip(from as int);
    let ghost all = stacked(rest, x as int, width as int, y as int, bottom as int);
    let mut i: usize = from;
    let mut at: u16 = y;
    proof {
        assert(draws_view(ops@) =~= draws_view(ops@) + all.take(0));
    }
    while i < lines.len() && at < bottom
        invariant
            from <= i <= lines.len(),
            y <= at,
            at - y == i - from,
            at > y ==> at <= bottom,
            rest == lines_view(lines@).skip(from as int),
            all == stacked(rest, x as int, width as int, y as int, bottom as int),
            draws_view(ops@) == draws_view(old(ops)@) + all.take(i - from),
        decreases lines.len() - i,
    {
        let line = copy_line(&lines[i]);
        draw_text(ops, x, at, width, line);
        proof {
            assert(rest[i - from] == lines@[i as int]@);
            assert(all.take(i - from + 1) =~= all.take(i - from).push(all[i - from]));
            assert(draws_view(ops@) =~= draws_view(old(ops)@) + all.take(i - from + 1));
        }
        i += 1;
        at += 1;
    }
    proof {
        assert(all.take(i - from) =~= all);
    }
    at
}

/// The heading of a group.
pub open spec fn heading_line(label: Seq<char>) -> LineView {
    line_of(seq![span_of(label, bold_style()), span_of("  ─"@, dim_style())])
}

/// The lines of a dashboard's first `count` rows, with their headings and what stands between them.
pub open spec fn dashboard_lines_to(state: PickerState, width: int, count: nat) -> Seq<LineView>
    decreases count,
{
    if count == 0 {
        Seq::empty()
    } else {
        let index = count - 1;
        let row = state.filtered_rows@[index];
        dashboard_lines_to(state, width, index as nat) + (if starts_group(state, index, 0) {
            seq![heading_line(group_label(state.dashboard_group_mode, row))]
        } else {
            Seq::empty()
        }) + session_lines(
            row,
            state,
            index == state.selected,
            is_expanded_at(state, index),
            false,
            width,
        ) + (if state.density is Comfortable && count < state.filtered_rows@.len() {
            seq![line_of(Seq::empty())]
        } else {
            Seq::empty()
        })
    }
}

fn dashboard_lines(state: &PickerState, width: u16) -> (r: Vec<Line>)
    ensures
        lines_view(r@) == dashboard_lines_to(*state, width as int, state.filtered_rows@.len()),
{
    let mut lines: Vec<Line> = Vec::new();
    let mut i: usize = 0;
    while i < state.filtered_rows.len()
        invariant
            i <= state.filtered_rows.len(),
            lines_view(lines@) == dashboard_lines_to(*state, width as int, i as nat),
        decreases state.filtered_rows.len() - i,
    {
        let row = &state.filtered_rows[i];
        let ghost before = lines_view(lines@);
        if state.starts_dashboard_group(i, 0) {
            let label = state.dashboard_group_label(row);
            lines.push(
                Line::two(
                    Span::from_text(label, Style::bold()),
                    Span::from_text("  ─", Style::dim()),
                ),
            );
        }
        let ghost headed = lines_view(lines@);
        let expanded = state.is_expanded_row(i);
        let mut session = render_session_lines(
            row,
            state,
            i == state.selected,
            expanded,
            false,
            width,
        );
        lines.append(&mut session);
        let ghost filled = lines_view(lines@);
        if state.density == SessionListDensity::Comfortable && i < state.filtered_rows.len() - 1 {
            lines.push(Line::empty());
        }
        proof {
            assert(headed =~= before + (if starts_group(*state, i as int, 0) {
                seq![
                    heading_line(
                        group_label(state.dashboard_group_mode, state.filtered_rows@[i as int]),
                    ),
                ]
            } else {
                Seq::empty()
            }));
            assert(lines_view(lines@) =~= filled + (if state.density is Comfortable && i + 1
                < state.filtered_rows@.len() {
                seq![line_of(Seq::empty())]
            } else {
                Seq::empty()
            }));
        }
        i += 1;
    }
    lines
}

/// The rows from row `index` on, drawn from line `y` on, and the line behind them.
pub open spec fn rows_drawn(
    state: PickerState,
    area: Rect,
    bottom: int,
    index: int,
    y: int,
) -> (Seq<DrawView>, int)
    decreases state.filtered_rows@.len() - index,
{
    if index >= state.filtered_rows@.len() || y >= bottom {
        (Seq::empty(), y)
    } else {
        let lines = session_lines(
            state.filtered_rows@[index],
            state,
            index == state.selected,
            is_expanded_at(state, index),
            index % 2 == 0,
            area.width as int,
        );
        let behind = y + smaller(lines.len() as int, bottom - y);
        let next = if state.density is Comfortable && behind < bottom && index + 1
            < state.filtered_rows@.len() {
            behind + 1
        } else {
            behind
        };
        let rest = rows_drawn(state, area, bottom, index + 1, next);
        (
            stacked(lines, area.x as int, area.width as int, y, bottom) + rest.0,
            rest.1,
        )
    }
}

fn draw_rows(state: &PickerState, ops: &mut Vec<DrawOp>, area: Rect, bottom: u16, y: u16) -> (r:
    u16)
    requires
        state.filtered_rows@.len() > 0,
    ensures
        draws_view(final(ops)@) == draws_view(old(ops)@) + rows_drawn(
            *state,
            area,
            bottom as int,
            first_row(*state),
            y as int,
        ).0,
        r == rows_drawn(*state, area, bottom as int, first_row(*state), y as int).1,
{
    let last: usize = state.filtered_rows.len() - 1;
    let start: usize = if state.scroll_top < last {
        state.scroll_top
    } else {
        last
    };
    let ghost first = start as int;
    let ghost whole = rows_drawn(*state, area, bottom as int, first, y as int);
    let mut i: usize = start;
    let mut at: u16 = y;
    proof {
        assert(draws_view(ops@) + whole.0 =~= draws_view(old(ops)@) + whole.0);
    }
    while i < state.filtered_rows.len() && at < bottom
        invariant
            i <= state.filtered_rows.len(),
            whole == rows_drawn(*state, area, bottom as int, first, y as int),
            draws_view(ops@) + rows_drawn(*state, area, bottom as int, i as int, at as int).0
                == draws_view(old(ops)@) + whole.0,
            rows_drawn(*state, area, bottom as int, i as int, at as int).1 == whole.1,
        decreases state.filtered_rows.len() - i,
    {
        let expanded = state.is_expanded_row(i);
        let lines = render_session_lines(
            &state.filtered_rows[i],
            state,
            i == state.selected,
            expanded,
            i % 2 == 0,
            area.width,
        );
        let ghost before = draws_view(ops@);
        let ghost now = rows_drawn(*state, area, bottom as int, i as int, at as int).0;
        let ghost line_views = lines_view(lines@);
        let ghost placed = stacked(
            line_views,
            area.x as int,
            area.width as int,
            at as int,
            bottom as int,
        );
        proof {
            assert(line_views.skip(0) =~= line_views);
        }
        let mut next: u16 = draw_lines(ops, &lines, 0, area.x, area.width, at, bottom);
        if state.density == SessionListDensity::Comfortable && next < bottom && i
            < state.filtered_rows.len() - 1 {
            next += 1;
        }
        proof {
            let rest = rows_drawn(*state, area, bottom as int, i + 1, next as int).0;
            assert(now == placed + rest);
            assert((before + placed) + rest =~= before + (placed + rest));
        }
        at = next;
        i += 1;
    }
    proof {
        let end = rows_drawn(*state, area, bottom as int, i as int, at as int);
        assert(end.0 =~= Seq::<DrawView>::empty());
        assert(draws_view(ops@) + end.0 =~= draws_view(ops@));
    }
    at
}

/// The first row that is drawn.
pub open spec fn first_row(state: PickerState) -> int {
    smaller(state.scroll_top as int, state.filtered_rows@.len() - 1)
}

/// The hint that there is more below.
pub open spec fn more_below_ops(state: PickerState, area: Rect) -> Seq<DrawView> {
    if more_below(state, area.height as int) {
        seq![
            text_at(
                area.x as int,
                at_most_u16(area.y + at_least_zero(area.height - 1)),
                area.width as int,
                more_line_view(
                    if state.pagination.pending is Some {
                        "↓ loading more"@
                    } else {
                        "↓ more"@
                    },
                ),
            ),
        ]
    } else {
        Seq::empty()
    }
}

/// The line behind the rows of a list in `area`.
pub open spec fn rows_bottom(state: PickerState, area: Rect) -> int {
    at_most_u16(
        rows_top(state, area) + at_least_zero(
            at_least_zero(area.height - flag(more_above(state))) - flag(
                more_below(state, area.height as int),
            ),
        ),
    )
}

pub open spec fn rows_top(state: PickerState, area: Rect) -> int {
    at_most_u16(area.y + flag(more_above(state)))
}

pub open spec fn flag(value: bool) -> int {
    if value {
        1
    } else {
        0
    }
}

/// What stands behind the rows while a page is loading.
pub open spec fn loading_ops(
    state: PickerState,
    area: Rect,
    y: int,
    bottom: int,
) -> Seq<DrawView> {
    if state.pagination.pending is Some && y < bottom {
        seq![
            text_at(
                area.x as int,
                y,
                area.width as int,
                line_of(
                    seq![
                        span_of("  "@, plain_style()),
                        span_of("Loading older sessions…"@, dim_italic_style()),
                    ],
                ),
            ),
        ]
    } else {
        Seq::empty()
    }
}

/// The rows in view.
pub open spec fn content_ops(state: PickerState, area: Rect) -> Seq<DrawView> {
    let top = rows_top(state, area);
    let bottom = rows_bottom(state, area);
    if state.is_dashboard() {
        let lines = dashboard_lines_to(state, area.width as int, state.filtered_rows@.len());
        stacked(
            lines.skip(smaller(state.dashboard_scroll_offset as int, lines.len() as int)),
            area.x as int,
            area.width as int,
            top,
            bottom,
        )
    } else {
        let drawn = rows_drawn(state, area, bottom, first_row(state), top);
        drawn.0 + loading_ops(state, area, drawn.1, bottom)
    }
}

/// The list in `area`: the rows in view between the hints that there is more.
pub open spec fn list_ops(state: PickerState, area: Rect) -> Seq<DrawView> {
    if area.height == 0 {
        Seq::empty()
    } else if state.filtered_rows@.len() == 0 {
        seq![
            DrawView::Clear { area },
            DrawView::Text { area, line: empty_line_view(state) },
        ]
    } else {
        seq![DrawView::Clear { area }] + (if more_above(state) {
            seq![
                text_at(area.x as int, area.y as int, area.width as int, more_line_view("↑ more"@)),
            ]
        } else {
            Seq::empty()
        }) + content_ops(state, area) + more_below_ops(state, area)
    }
}

fn draw_content(state: &PickerState, ops: &mut Vec<DrawOp>, area: Rect, top: u16, bottom: u16)
    requires
        state.filtered_rows@.len() > 0,
        top == rows_top(*state, area),
        bottom == rows_bottom(*state, area),
    ensures
        draws_view(final(ops)@) == draws_view(old(ops)@) + content_ops(*state, area),
{
    if state.is_agents_dashboard() {
        let lines = dashboard_lines(state, area.width);
        let from: usize = if state.dashboard_scroll_offset < lines.len() {
            state.dashboard_scroll_offset
        } else {
            lines.len()
        };
        draw_lines(ops, &lines, from, area.x, area.width, top, bottom);
        return;
    }
    let ghost before = draws_view(ops@);
    let y: u16 = draw_rows(state, ops, area, bottom, top);
    let ghost drawn = rows_drawn(*state, area, bottom as int, first_row(*state), top as int);
    if state.pagination.is_loading() && y < bottom {
        draw_text(
            ops,
            area.x,
            y,
            area.width,
            Line::two(
                Span::from_text("  ", Style::plain()),
                Span::from_text("Loading older sessions…", Style::dim_italic()),
            ),
        );
    }
    proof {
        assert(draws_view(ops@) =~= before + (drawn.0 + loading_ops(
            *state,
            area,
            drawn.1,
            bottom as int,
        )));
    }
}

pub fn render_list(state: &PickerState, area: Rect) -> (r: Vec<DrawOp>)
    requires
        can_look_below(*state),
    ensures
        draws_view(r@) == list_ops(*state, area),
{
    let mut ops: Vec<DrawOp> = Vec::new();
    if area.height == 0 {
        proof {
            assert(draws_view(ops@) =~= list_ops(*state, area));
        }
        return ops;
    }
    ops.push(DrawOp::Clear { area });
    if state.filtered_rows.len() == 0 {
        ops.push(DrawOp::Text { area, line: render_empty_state_line(state) });
        proof {
            assert(draws_view(ops@) =~= list_ops(*state, area));
        }
        return ops;
    }
    let above = state.has_more_above();
    let below = state.has_more_below(area.height as usize);
    let above_lines: u16 = if above {
        1
    } else {
        0
    };
    let below_lines: u16 = if below {
        1
    } else {
        0
    };
    let top: u16 = area.y.saturating_add(above_lines);
    let bottom: u16 = top.saturating_add(
        area.height.saturating_sub(above_lines).saturating_sub(below_lines),
    );
    if above {
        draw_text(&mut ops, area.x, area.y, area.width, more_line("↑ more"));
    }
    let ghost begun = draws_view(ops@);
    draw_content(state, &mut ops, area, top, bottom);
    if below {
        let label = if state.pagination.is_loading() {
            "↓ loading more"
        } else {
            "↓ more"
        };
        draw_text(
            &mut ops,
            area.x,
            area.y.saturating_add(area.height.saturating_sub(1)),
            area.width,
            more_line(label),
        );
    }
    proof {
        let content = content_ops(*state, area);
        assert(begun =~= seq![DrawView::Clear { area }] + (if above {
            seq![
                text_at(area.x as int, area.y as int, area.width as int, more_line_view("↑ more"@)),
            ]
        } else {
            Seq::empty()
        }));
        assert(draws_view(ops@) =~= begun + content + more_below_ops(*state, area));
    }
    ops
}

/// The line above the footer: a rule, with the position at its right end where there is room.
pub open spec fn separator_ops(area: Rect, label: Seq<char>) -> Seq<DrawView> {
    let width = columns(display_width(label) as int);
    seq![
        DrawView::Text {
            area,
            line: line_of(seq![span_of(repeated('─', area.width as nat), dim_style())]),
        },
    ] + (if width < area.width {
        seq![
            text_at(
                area.x + area.width - width - 1,
                area.y as int,
                width,
                line_of(seq![span_of(label, dim_style())]),
            ),
        ]
    } else {
        Seq::empty()
    })
}

fn render_picker_footer_separator(ops: &mut Vec<DrawOp>, area: Rect, progress_label: String)
    requires
        area.width > 0,
        area.x + area.width <= u16::MAX,
    ensures
        draws_view(final(ops)@) == draws_view(old(ops)@) + separator_ops(area, progress_label@),
{
    let rule = repeat_char('─', area.width as usize);
    ops.push(DrawOp::Text { area, line: Line::one(Span::new(rule, Style::dim())) });
    let progress_width: u16 = count_columns(text_width(progress_label.as_str()));
    if progress_width < area.width {
        draw_text(
            ops,
            area.x + area.width - progress_width - 1,
            area.y,
            progress_width,
            Line::one(Span::new(progress_label, Style::dim())),
        );
    }
    proof {
        assert(draws_view(ops@) =~= draws_view(old(ops)@) + separator_ops(area, progress_label@));
    }
}

/// The footer: the rule, and the lines of hints that there is room for.
pub open spec fn footer_ops(state: PickerState, area: Rect, percent: int) -> Seq<DrawView> {
    if area.width == 0 || area.height == 0 {
        Seq::empty()
    } else {
        separator_ops(
            Rect::cut(area.x as int, area.y as int, area.width as int, 1),
            first_narrower(progress_labels(state, percent), area.width as int, 0),
        ) + stacked(
            hint_lines(state, area.width as int),
            area.x as int,
            area.width as int,
            at_most_u16(area.y + 1),
            area.end(),
        )
    }
}

/// The footer in `area`, where the list has been scrolled to `percent`.
pub fn render_picker_footer(state: &PickerState, area: Rect, percent: u8) -> (r: Vec<DrawOp>)
    requires
        area.x + area.width <= u16::MAX,
    ensures
        draws_view(r@) == footer_ops(*state, area, percent as int),
{
    let mut ops: Vec<DrawOp> = Vec::new();
    proof {
        assert(draws_view(ops@) =~= Seq::<DrawView>::empty());
    }
    if area.width == 0 || area.height == 0 {
        return ops;
    }
    let label = picker_footer_progress_label(state, percent, area.width);
    render_picker_footer_separator(
        &mut ops,
        Rect::new(area.x, area.y, area.width, 1),
        label,
    );
    let lines = footer_hint_lines(state, area.width);
    proof {
        let views = lines_view(lines@);
        assert(views.skip(0) =~= views);
    }
    draw_lines(&mut ops, &lines, 0, area.x, area.width, area.y.saturating_add(1), area.bottom());
    proof {
        assert(draws_view(ops@) =~= footer_ops(*state, area, percent as int));
    }
    ops
}

/// The style of a message over the list.
pub open spec fn overlay_style(palette: Palette) -> Style {
    Style {
        bg: Some(
            match palette.overlay_background {
                Some(color) => color,
                None => Color::DarkGray,
            },
        ),
        ..plain_style()
    }
}

pub fn transcript_loading_overlay_style(palette: Palette) -> (r: Style)
    ensures
        r == overlay_style(palette),
{
    let background = match palette.overlay_background {
        Some(color) => color,
        None => Color::DarkGray,
    };
    Style { bg: Some(background), ..Style::plain() }
}

/// The box in the middle of a list, as wide as a message with a margin of five on each side, and
/// three lines high where there are as many.
pub open spec fn overlay_area(area: Rect, message_width: int) -> Rect {
    let width = if area.width >= at_most_u16(message_width + 10) {
        at_most_u16(message_width + 10)
    } else {
        area.width as int
    };
    let height: int = if area.height >= 3 {
        3
    } else {
        1
    };
    Rect::cut(area.x + (area.width - width) / 2, area.y + (area.height - height) / 2, width, height)
}

/// A message in the middle of its box.
pub open spec fn message_op(overlay: Rect, message: Seq<char>) -> DrawView {
    let shown = truncated(message, overlay.width as nat);
    let width = columns(display_width(shown) as int);
    text_at(
        overlay.x + at_least_zero(overlay.width - width) / 2,
        overlay.y + overlay.height as int / 2,
        smaller(width, overlay.width as int),
        line_of(seq![span_of(shown, bold_style())]),
    )
}

/// The message that a transcript is waited for.
pub open spec fn overlay_ops(palette: Palette, area: Rect) -> Seq<DrawView> {
    if area.width == 0 || area.height == 0 {
        Seq::empty()
    } else {
        let message = "Loading transcript…"@;
        let overlay = overlay_area(area, columns(display_width(message) as int));
        seq![
            DrawView::Fill { area: overlay, style: overlay_style(palette) },
            message_op(overlay, message),
        ]
    }
}

pub fn render_transcript_loading_overlay(palette: Palette, area: Rect) -> (r: Vec<DrawOp>)
    requires
        area.is_valid(),
    ensures
        draws_view(r@) == overlay_ops(palette, area),
{
    let mut ops: Vec<DrawOp> = Vec::new();
    proof {
        assert(draws_view(ops@) =~= Seq::<DrawView>::empty());
    }
    if area.width == 0 || area.height == 0 {
        return ops;
    }
    let message = "Loading transcript…";
    let wanted: u16 = count_columns(text_width(message)).saturating_add(10);
    let width: u16 = if area.width >= wanted {
        wanted
    } else {
        area.width
    };
    let height: u16 = if area.height >= 3 {
        3
    } else {
        1
    };
    let overlay = Rect::new(
        area.x + (area.width - width) / 2,
        area.y + (area.height - height) / 2,
        width,
        height,
    );
    ops.push(DrawOp::Fill { area: overlay, style: transcript_loading_overlay_style(palette) });
    let shown = truncate_text(message, overlay.width as usize);
    let shown_width: u16 = count_columns(text_width(shown.as_str()));
    draw_text(
        &mut ops,
        overlay.x + overlay.width.saturating_sub(shown_width) / 2,
        overlay.y + overlay.height / 2,
        if shown_width < overlay.width {
            shown_width
        } else {
            overlay.width
        },
        Line::one(Span::new(shown, Style::bold())),
    );
    proof {
        assert(draws_view(ops@) =~= overlay_ops(palette, area));
    }
    ops
}

/// The title of the picker.
pub open spec fn title_view(state: PickerState) -> LineView {
    line_of(
        seq![
            span_of(
                if state.is_dashboard() {
                    "Codex Agents"@
                } else {
                    state.action.title_text()
                },
                (Style {
                    fg: Some(
                        if state.is_dashboard() {
                            Color::Magenta
                        } else if state.palette.light {
                            state.palette.light_title
                        } else {
                            Color::Cyan
                        },
                    ),
                    ..bold_style()
                }),
            ),
        ],
    )
}

fn title_line(state: &PickerState) -> (r: Line)
    ensures
        r@ == title_view(*state),
{
    let title = match state.launch_context {
        SessionPickerLaunchContext::AgentsDashboard => "Codex Agents",
        _ => state.action.title(),
    };
    let color = match state.launch_context {
        SessionPickerLaunchContext::AgentsDashboard => Color::Magenta,
        _ => if state.palette.light {
            state.palette.light_title
        } else {
            Color::Cyan
        },
    };
    Line::one(Span::from_text(title, Style { fg: Some(color), ..Style::bold() }))
}

/// An area without its first and its last column.
pub open spec fn chrome(area: Rect) -> Rect {
    Rect::cut(
        at_most_u16(area.x + 1),
        area.y as int,
        at_least_zero(area.width - 2),
        area.height as int,
    )
}

fn chrome_of(area: Rect) -> (r: Rect)
    ensures
        r == chrome(area),
{
    Rect::new(area.x.saturating_add(1), area.y, area.width.saturating_sub(2), area.height)
}

/// The area of the list between its margins.
pub open spec fn list_area(state: PickerState, area: Rect) -> Rect {
    Rect::cut(
        at_most_u16(area.x + list_margin(state)),
        area.y as int,
        list_width(state, area.width as int),
        area.height as int,
    )
}

pub fn picker_list_area(state: &PickerState, area: Rect) -> (r: Rect)
    ensures
        r == list_area(*state, area),
        r.is_valid(),
{
    Rect::new(
        area.x.saturating_add(list_horizontal_margin(state)),
        area.y,
        list_viewport_width(area.width, state),
        area.height,
    )
}

/// What is drawn at the bottom: the composer where there is one, else the footer.
pub open spec fn bottom_ops(state: PickerState, area: Rect, percent: int) -> Seq<DrawView> {
    if state.dashboard_composer is Some {
        seq![DrawView::Composer { area, focused: !state.dashboard_search_active }]
    } else {
        footer_ops(state, area, percent)
    }
}

/// Everything that is drawn, in order.
pub open spec fn frame_ops(state: PickerState, areas: PickerAreas, percent: int) -> Seq<DrawView> {
    let list = list_area(state, areas.list);
    let search = chrome(areas.search);
    seq![
        DrawView::Text { area: chrome(areas.header), line: title_view(state) },
        DrawView::Text { area: search, line: search_line_view(state, search.width as int) },
    ] + list_ops(state, list) + (if state.pending_transcript_open is Some {
        overlay_ops(state.palette, list)
    } else {
        Seq::empty()
    }) + bottom_ops(state, areas.bottom, percent)
}

/// The picker in the given areas, where the list has been scrolled to `percent`.
pub fn render_picker_frame(state: &PickerState, areas: PickerAreas, percent: u8) -> (r: Vec<DrawOp>)
    requires
        can_look_below(*state),
        areas.bottom.x + areas.bottom.width <= u16::MAX,
    ensures
        draws_view(r@) == frame_ops(*state, areas, percent as int),
{
    let mut ops: Vec<DrawOp> = Vec::new();
    ops.push(DrawOp::Text { area: chrome_of(areas.header), line: title_line(state) });
    let search = chrome_of(areas.search);
    ops.push(DrawOp::Text { area: search, line: search_line(state, search.width) });
    let list = picker_list_area(state, areas.list);
    let ghost top = draws_view(ops@);
    let mut list_parts = render_list(state, list);
    ops.append(&mut list_parts);
    if state.is_transcript_loading() {
        let mut overlay = render_transcript_loading_overlay(state.palette, list);
        ops.append(&mut overlay);
    }
    let ghost middle = draws_view(ops@);
    if state.dashboard_composer.is_some() {
        ops.push(
            DrawOp::Composer { area: areas.bottom, focused: !state.dashboard_search_active },
        );
    } else {
        let mut footer = render_picker_footer(state, areas.bottom, percent);
        ops.append(&mut footer);
    }
    proof {
        assert(top =~= seq![
            DrawView::Text { area: chrome(areas.header), line: title_view(*state) },
            DrawView::Text { area: search, line: search_line_view(*state, search.width as int) },
        ]);
        assert(middle =~= top + list_ops(*state, list) + (if state.pending_transcript_open is Some {
            overlay_ops(state.palette, list)
        } else {
            Seq::empty()
        }));
        assert(draws_view(ops@) =~= middle + bottom_ops(*state, areas.bottom, percent as int));
    }
    ops
}

/// What is drawn lies in an area.
pub open spec fn lies_in(op: DrawView, area: Rect) -> bool {
    let part = match op {
        DrawView::Clear { area } => area,
        DrawView::Fill { area, .. } => area,
        DrawView::Text { area, .. } => area,
        DrawView::Composer { area, .. } => area,
    };
    &&& area.x <= part.x && part.x + part.width <= area.x + area.width
    &&& area.y <= part.y && part.y + part.height <= area.y + area.height
}

pub open spec fn all_lie_in(ops: Seq<DrawView>, area: Rect) -> bool {
    forall|i: int| 0 <= i < ops.len() ==> lies_in(#[trigger] ops[i], area)
}

proof fn lemma_stacked_lies_in(lines: Seq<LineView>, area: Rect, y: int, bottom: int)
    requires
        area.is_valid(),
        area.y <= y,
        bottom <= area.y + area.height,
    ensures
        all_lie_in(stacked(lines, area.x as int, area.width as int, y, bottom), area),
{
}

proof fn lemma_rows_lie_in(state: PickerState, area: Rect, bottom: int, index: int, y: int)
    requires
        area.is_valid(),
        0 <= index,
        area.y <= y,
        bottom <= area.y + area.height,
    ensures
        all_lie_in(rows_drawn(state, area, bottom, index, y).0, area),
        y <= rows_drawn(state, area, bottom, index, y).1,
    decreases state.filtered_rows@.len() - index,
{
    if index < state.filtered_rows@.len() && y < bottom {
        let lines = session_lines(
            state.filtered_rows@[index],
            state,
            index == state.selected,
            is_expanded_at(state, index),
            index % 2 == 0,
            area.width as int,
        );
        let behind = y + smaller(lines.len() as int, bottom - y);
        let next = if state.density is Comfortable && behind < bottom && index + 1
            < state.filtered_rows@.len() {
            behind + 1
        } else {
            behind
        };
        lemma_stacked_lies_in(lines, area, y, bottom);
        lemma_rows_lie_in(state, area, bottom, index + 1, next);
    }
}

/// The list draws nothing outside its area.
pub proof fn lemma_list_stays_in_its_area(state: PickerState, area: Rect)
    requires
        area.is_valid(),
    ensures
        all_lie_in(list_ops(state, area), area),
{
    if area.height > 0 && state.filtered_rows@.len() > 0 {
        let top = rows_top(state, area);
        let bottom = rows_bottom(state, area);
        let lines = dashboard_lines_to(state, area.width as int, state.filtered_rows@.len());
        lemma_stacked_lies_in(
            lines.skip(smaller(state.dashboard_scroll_offset as int, lines.len() as int)),
            area,
            top,
            bottom,
        );
        if !state.is_dashboard() {
            let first = first_row(state);
            lemma_rows_lie_in(state, area, bottom, first, top);
            let drawn = rows_drawn(state, area, bottom, first, top);
            assert(all_lie_in(loading_ops(state, area, drawn.1, bottom), area));
        }
        assert(all_lie_in(content_ops(state, area), area));
        assert(all_lie_in(more_below_ops(state, area), area));
    }
}

} // verus!
