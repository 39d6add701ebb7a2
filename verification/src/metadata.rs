//! The metadata under a session's title: its date, directory and branch, packed into lines.

use vstd::prelude::*;
use vstd::slice::slice_subrange;
use crate::protocol::ThreadSortKey;
use crate::style::{
    at_most_usize, dim_italic_style, dim_style, display_width, group_line_views, line_of,
    lines_view, plain_style, span_of, spaces_of, spans_view, text_width, Line, LineView, Span,
    SpanView, Style,
};
use crate::text::{clone_optional, optional_view, truncate_text, truncated};

verus! {

pub const SESSION_META_INDENT_WIDTH: usize = 2;

pub const SESSION_META_DATE_WIDTH: usize = 12;

pub const SESSION_META_FIELD_GAP_WIDTH: usize = 2;

pub const SESSION_META_MIN_CWD_WIDTH: usize = 30;

pub const SESSION_META_MAX_CWD_WIDTH: usize = 72;

/// A field of the metadata.
#[derive(Debug)]
pub enum FooterPart {
    Date(String),
    Branch(Option<String>),
    Cwd(Option<String>),
}

/// `value`, or none where it is below zero.
pub open spec fn at_least_zero(value: int) -> int {
    if value < 0 {
        0
    } else {
        value
    }
}

pub open spec fn smaller(a: int, b: int) -> int {
    if a < b {
        a
    } else {
        b
    }
}

pub open spec fn larger(a: int, b: int) -> int {
    if a > b {
        a
    } else {
        b
    }
}

/// What is said of a field.
pub enum PartView {
    Date(Seq<char>),
    Branch(Option<Seq<char>>),
    Cwd(Option<Seq<char>>),
}

impl View for FooterPart {
    type V = PartView;

    open spec fn view(&self) -> PartView {
        match self {
            FooterPart::Date(text) => PartView::Date(text@),
            FooterPart::Branch(text) => PartView::Branch(optional_view(*text)),
            FooterPart::Cwd(text) => PartView::Cwd(optional_view(*text)),
        }
    }
}

pub open spec fn parts_view(parts: Seq<FooterPart>) -> Seq<PartView> {
    Seq::new(parts.len(), |i: int| parts[i]@)
}

impl PartView {
    pub open spec fn shown(self) -> Seq<char> {
        match self {
            PartView::Date(text) => text,
            PartView::Branch(Some(text)) => text,
            PartView::Branch(None) => "no branch"@,
            PartView::Cwd(Some(text)) => text,
            PartView::Cwd(None) => "no cwd"@,
        }
    }

    pub open spec fn icon(self) -> Option<Seq<char>> {
        match self {
            PartView::Date(_) => None,
            PartView::Branch(_) => Some("\u{e0a0}"@),
            PartView::Cwd(_) => Some("⌁"@),
        }
    }

    /// The field is missing.
    pub open spec fn is_missing(self) -> bool {
        match self {
            PartView::Branch(None) | PartView::Cwd(None) => true,
            _ => false,
        }
    }

    /// The columns of the icon, a space and the text.
    pub open spec fn natural_width(self) -> int {
        (match self.icon() {
            Some(icon) => display_width(icon) + (if self.shown().len() > 0 {
                1int
            } else {
                0int
            }),
            None => 0,
        }) + display_width(self.shown())
    }

    /// The columns that the field is given where others follow; a branch gets what it needs.
    pub open spec fn column(self, padded: bool, cwd_width: int) -> Option<int> {
        match self {
            PartView::Date(_) if padded => Some(SESSION_META_DATE_WIDTH as int),
            PartView::Cwd(_) if padded => Some(cwd_width),
            _ => None,
        }
    }
}

impl FooterPart {
    /// The text of the field, or what stands for a missing one.
    pub fn text(&self) -> (r: &str)
        ensures
            r@ == self@.shown(),
    {
        match self {
            FooterPart::Date(text) => text.as_str(),
            FooterPart::Branch(Some(text)) => text.as_str(),
            FooterPart::Branch(None) => "no branch",
            FooterPart::Cwd(Some(text)) => text.as_str(),
            FooterPart::Cwd(None) => "no cwd",
        }
    }

    /// The icon before the field, if it has one.
    pub fn prefix(&self) -> (r: Option<&'static str>)
        ensures
            r is Some <==> self@.icon() is Some,
            r is Some ==> (r->0)@ == self@.icon()->0,
    {
        match self {
            FooterPart::Date(_) => None,
            FooterPart::Branch(_) => Some("\u{e0a0}"),
            FooterPart::Cwd(_) => Some("⌁"),
        }
    }
}

/// The columns that a field asks for.
pub open spec fn part_width(part: PartView, padded: bool, cwd_width: int) -> int {
    match part {
        PartView::Date(_) if padded => larger(
            SESSION_META_DATE_WIDTH as int,
            part.natural_width(),
        ),
        PartView::Cwd(_) if padded => cwd_width,
        _ => part.natural_width(),
    }
}

pub fn footer_part_width(part: &FooterPart, padded: bool, cwd_width: usize) -> (r: usize)
    ensures
        r == at_most_usize(part_width(part@, padded, cwd_width as int)),
{
    let prefix_width: usize = match part.prefix() {
        Some(prefix) => text_width(prefix),
        None => 0,
    };
    let gap: usize = if part.prefix().is_some() && !part.text().is_empty() {
        1
    } else {
        0
    };
    let actual: usize = prefix_width.saturating_add(gap).saturating_add(text_width(part.text()));
    match part {
        FooterPart::Date(_) => {
            if padded && actual < SESSION_META_DATE_WIDTH {
                SESSION_META_DATE_WIDTH
            } else {
                actual
            }
        },
        FooterPart::Cwd(_) => {
            if padded {
                cwd_width
            } else {
                actual
            }
        },
        FooterPart::Branch(_) => actual,
    }
}

/// The columns that the first `count` of `parts` ask for.
pub open spec fn parts_width_to(parts: Seq<PartView>, count: nat, cwd_width: int) -> int
    decreases count,
{
    if count == 0 {
        0
    } else {
        parts_width_to(parts, (count - 1) as nat, cwd_width) + part_width(
            parts[count - 1],
            count < parts.len(),
            cwd_width,
        )
    }
}

/// The columns that a line of `parts` asks for, with its indent.
pub open spec fn parts_width(parts: Seq<PartView>, cwd_width: int) -> int {
    SESSION_META_INDENT_WIDTH + parts_width_to(parts, parts.len(), cwd_width)
}

pub fn footer_parts_width(parts: &[FooterPart], cwd_width: usize) -> (r: usize)
    ensures
        r == at_most_usize(parts_width(parts_view(parts@), cwd_width as int)),
{
    let mut total: usize = SESSION_META_INDENT_WIDTH;
    let mut i: usize = 0;
    while i < parts.len()
        invariant
            i <= parts.len(),
            parts_width_to(parts_view(parts@), i as nat, cwd_width as int) >= 0,
            total == at_most_usize(
                SESSION_META_INDENT_WIDTH + parts_width_to(parts_view(parts@), i as nat, cwd_width as int),
            ),
        decreases parts.len() - i,
    {
        let width: usize = footer_part_width(&parts[i], i < parts.len() - 1, cwd_width);
        total = total.saturating_add(width);
        i += 1;
    }
    total
}

/// Half of what the date leaves, within bounds.
pub open spec fn cwd_column(width: int) -> int {
    let half = at_least_zero(width - 18) / 2;
    if half < SESSION_META_MIN_CWD_WIDTH {
        SESSION_META_MIN_CWD_WIDTH as int
    } else if half > SESSION_META_MAX_CWD_WIDTH {
        SESSION_META_MAX_CWD_WIDTH as int
    } else {
        half
    }
}

pub fn cwd_column_width(width: usize) -> (r: usize)
    ensures
        r == cwd_column(width as int),
{
    let available: usize = width.saturating_sub(
        SESSION_META_INDENT_WIDTH + SESSION_META_DATE_WIDTH + 2 * SESSION_META_FIELD_GAP_WIDTH,
    );
    let half: usize = available / 2;
    if half < SESSION_META_MIN_CWD_WIDTH {
        SESSION_META_MIN_CWD_WIDTH
    } else if half > SESSION_META_MAX_CWD_WIDTH {
        SESSION_META_MAX_CWD_WIDTH
    } else {
        half
    }
}

/// The columns left for the text of a field with an icon, where `used` are taken.
pub open spec fn text_room(target: Option<int>, available: int, used: int) -> int {
    smaller(
        at_least_zero(
            (match target {
                Some(target) => target,
                None => available,
            }) - used,
        ),
        at_least_zero(available - used),
    )
}

/// The columns that an icon takes together with the space behind it, where there is room for it.
pub open spec fn icon_room(part: PartView, available: int) -> int {
    let icon_width = display_width(part.icon()->0) as int;
    if part.shown().len() > 0 && icon_width < available {
        icon_width + 1
    } else {
        icon_width
    }
}

/// The spans of a field in `available` columns: the icon first, then as much of the text as fits
/// into its column.
pub open spec fn part_spans(
    part: PartView,
    target: Option<int>,
    available: int,
) -> Seq<SpanView> {
    match part.icon() {
        None => seq![span_of(truncated(part.shown(), available as nat), dim_style())],
        Some(icon) => if available <= display_width(icon) {
            seq![span_of(truncated(icon, available as nat), dim_style())]
        } else {
            let used = icon_room(part, available);
            let text = truncated(part.shown(), text_room(target, available, used) as nat);
            let style = if part.is_missing() {
                dim_italic_style()
            } else {
                dim_style()
            };
            seq![span_of(icon, dim_style())] + (if part.shown().len() > 0 {
                seq![span_of(" "@, dim_style())]
            } else {
                Seq::empty()
            }) + seq![span_of(text, style)]
        },
    }
}

/// The columns that those spans take.
pub open spec fn part_used(part: PartView, target: Option<int>, available: int) -> int {
    match part.icon() {
        None => display_width(truncated(part.shown(), available as nat)) as int,
        Some(icon) => if available <= display_width(icon) {
            display_width(truncated(icon, available as nat)) as int
        } else {
            let used = icon_room(part, available);
            let text = truncated(part.shown(), text_room(target, available, used) as nat);
            used + display_width(text)
        },
    }
}

pub open spec fn optional_int(value: Option<usize>) -> Option<int> {
    match value {
        Some(value) => Some(value as int),
        None => None,
    }
}

/// Appends a field and gives the columns that it takes.
pub fn push_footer_part(
    spans: &mut Vec<Span>,
    part: &FooterPart,
    target_width: Option<usize>,
    available_width: usize,
) -> (r: usize)
    ensures
        spans_view(final(spans)@) == spans_view(old(spans)@) + part_spans(
            part@,
            optional_int(target_width),
            available_width as int,
        ),
        r == at_most_usize(
            part_used(part@, optional_int(target_width), available_width as int),
        ),
{
    broadcast use group_line_views;

    let ghost before = spans_view(spans@);
    let prefix = match part.prefix() {
        None => {
            let text = truncate_text(part.text(), available_width);
            let width: usize = text_width(text.as_str());
            spans.push(Span::new(text, Style::dim()));
            proof {
                let only = span_of(truncated(part@.shown(), available_width as nat), dim_style());
                assert(before.push(only) =~= before + seq![only]);
            }
            return width;
        },
        Some(prefix) => prefix,
    };
    let prefix_width: usize = text_width(prefix);
    if available_width <= prefix_width {
        let text = truncate_text(prefix, available_width);
        let width: usize = text_width(text.as_str());
        spans.push(Span::new(text, Style::dim()));
        proof {
            let only = span_of(truncated(part@.icon()->0, available_width as nat), dim_style());
            assert(before.push(only) =~= before + seq![only]);
        }
        return width;
    }
    spans.push(Span::from_text(prefix, Style::dim()));
    let mut used_width: usize = prefix_width;
    if !part.text().is_empty() {
        spans.push(Span::from_text(" ", Style::dim()));
        used_width += 1;
    }
    let room: usize = available_width.saturating_sub(used_width);
    let wanted: usize = match target_width {
        Some(target) => target.saturating_sub(used_width),
        None => room,
    };
    let text = truncate_text(part.text(), if wanted < room { wanted } else { room });
    let rendered_width: usize = text_width(text.as_str());
    let style = match part {
        FooterPart::Branch(None) | FooterPart::Cwd(None) => Style::dim_italic(),
        _ => Style::dim(),
    };
    spans.push(Span::new(text, style));
    proof {
        let all = part_spans(part@, optional_int(target_width), available_width as int);
        assert(spans_view(spans@) =~= before + all);
    }
    used_width.saturating_add(rendered_width)
}

/// The spans of the first `count` of `parts` and the columns that are left behind them.
pub open spec fn footer_line_to(
    parts: Seq<PartView>,
    count: nat,
    width: int,
    cwd_width: int,
) -> (Seq<SpanView>, int)
    decreases count,
{
    if count == 0 {
        (
            seq![span_of("  "@, plain_style())],
            at_least_zero(width - SESSION_META_INDENT_WIDTH),
        )
    } else {
        let (spans, left) = footer_line_to(parts, (count - 1) as nat, width, cwd_width);
        let gap = if count > 1 {
            smaller(SESSION_META_FIELD_GAP_WIDTH as int, left)
        } else {
            0
        };
        let part = parts[count - 1];
        let target = part.column(count < parts.len(), cwd_width);
        let room = left - gap;
        let used = part_used(part, target, room);
        let padding = match target {
            Some(target) => at_least_zero(target - used),
            None => 0,
        };
        (
            spans + (if gap > 0 {
                seq![spaces_of(gap as nat, dim_style())]
            } else {
                Seq::empty()
            }) + part_spans(part, target, room) + (if padding > 0 {
                seq![spaces_of(padding as nat, dim_style())]
            } else {
                Seq::empty()
            }),
            at_least_zero(at_least_zero(room - used) - padding),
        )
    }
}

/// One line of metadata.
pub open spec fn footer_line_view(
    parts: Seq<PartView>,
    width: int,
    cwd_width: int,
) -> LineView {
    line_of(footer_line_to(parts, parts.len(), width, cwd_width).0)
}

pub fn footer_line(parts: &[FooterPart], width: usize, cwd_width: usize) -> (r: Line)
    ensures
        r@ == footer_line_view(parts_view(parts@), width as int, cwd_width as int),
{
    broadcast use group_line_views;

    let mut spans: Vec<Span> = Vec::new();
    spans.push(Span::from_text("  ", Style::plain()));
    let mut left: usize = width.saturating_sub(SESSION_META_INDENT_WIDTH);
    let mut i: usize = 0;
    proof {
        assert(spans_view(spans@) =~= seq![span_of("  "@, plain_style())]);
    }
    while i < parts.len()
        invariant
            i <= parts.len(),
            spans_view(spans@) == footer_line_to(
                parts_view(parts@),
                i as nat,
                width as int,
                cwd_width as int,
            ).0,
            left == footer_line_to(parts_view(parts@), i as nat, width as int, cwd_width as int).1,
        decreases parts.len() - i,
    {
        let ghost before = spans_view(spans@);
        let ghost left_before = left as int;
        if i > 0 {
            let gap: usize = if SESSION_META_FIELD_GAP_WIDTH < left {
                SESSION_META_FIELD_GAP_WIDTH
            } else {
                left
            };
            if gap > 0 {
                spans.push(Span::spaces(gap, Style::dim()));
                left -= gap;
            }
        }
        let padded = i < parts.len() - 1;
        let target: Option<usize> = match &parts[i] {
            FooterPart::Date(_) => if padded {
                Some(SESSION_META_DATE_WIDTH)
            } else {
                None
            },
            FooterPart::Cwd(_) => if padded {
                Some(cwd_width)
            } else {
                None
            },
            FooterPart::Branch(_) => None,
        };
        let ghost room = left as int;
        let ghost with_gap = spans_view(spans@);
        let used: usize = push_footer_part(&mut spans, &parts[i], target, left);
        let ghost with_part = spans_view(spans@);
        left = left.saturating_sub(used);
        let mut padding: usize = 0;
        if let Some(target_width) = target {
            padding = target_width.saturating_sub(used);
            if padding > 0 {
                spans.push(Span::spaces(padding, Style::dim()));
                left = left.saturating_sub(padding);
            }
        }
        proof {
            let part = parts@[i as int]@;
            assert(parts_view(parts@)[i as int] == part);
            assert(optional_int(target) == part.column(i + 1 < parts@.len(), cwd_width as int));
            assert(with_gap =~= before + (if room < left_before {
                seq![spaces_of((left_before - room) as nat, dim_style())]
            } else {
                Seq::empty()
            }));
            assert(spans_view(spans@) =~= with_part + (if padding > 0 {
                seq![spaces_of(padding as nat, dim_style())]
            } else {
                Seq::empty()
            }));
        }
        i += 1;
    }
    Line::from_spans(spans)
}

/// The fields of `parts` from the first of the open line to `count`, and the lines before: a line
/// is closed where the next field would not fit behind those on it.
pub open spec fn packed_to(
    parts: Seq<PartView>,
    count: nat,
    width: int,
    cwd_width: int,
) -> (Seq<LineView>, int)
    decreases count,
{
    if count == 0 {
        (Seq::empty(), 0)
    } else {
        let (lines, start) = packed_to(parts, (count - 1) as nat, width, cwd_width);
        let candidate = parts.subrange(start, count as int);
        if candidate.len() > 1 && parts_width(candidate, cwd_width) > width {
            (
                lines.push(
                    footer_line_view(parts.subrange(start, count - 1), width, cwd_width),
                ),
                count - 1,
            )
        } else {
            (lines, start)
        }
    }
}

/// The fields on as few lines as hold them in their order. They stand on one line where that is
/// wide enough; nothing is shown in columns that only the indent would take.
pub open spec fn packed_parts(parts: Seq<PartView>, width: int) -> Seq<LineView> {
    let cwd_width = cwd_column(width);
    if width <= SESSION_META_INDENT_WIDTH {
        Seq::empty()
    } else if parts_width(parts, cwd_width) <= width {
        seq![footer_line_view(parts, width, cwd_width)]
    } else {
        let (lines, start) = packed_to(parts, parts.len(), width, cwd_width);
        if start < parts.len() {
            lines.push(
                footer_line_view(parts.subrange(start, parts.len() as int), width, cwd_width),
            )
        } else {
            lines
        }
    }
}

pub fn pack_footer_parts(parts: &Vec<FooterPart>, width: u16) -> (r: Vec<Line>)
    ensures
        lines_view(r@) == packed_parts(parts_view(parts@), width as int),
{
    broadcast use group_line_views;

    let available: usize = width as usize;
    let mut lines: Vec<Line> = Vec::new();
    if available <= SESSION_META_INDENT_WIDTH {
        return lines;
    }
    let cwd_width: usize = cwd_column_width(available);
    let all = parts.as_slice();
    if footer_parts_width(all, cwd_width) <= available {
        lines.push(footer_line(all, available, cwd_width));
        proof {
            assert(lines_view(lines@) =~= seq![
                footer_line_view(parts_view(parts@), width as int, cwd_width as int),
            ]);
        }
        return lines;
    }
    let mut start: usize = 0;
    let mut i: usize = 0;
    while i < parts.len()
        invariant
            start <= i <= parts.len(),
            i > 0 ==> start < i,
            all@ == parts@,
            available == width,
            lines_view(lines@) == packed_to(
                parts_view(parts@),
                i as nat,
                width as int,
                cwd_width as int,
            ).0,
            start == packed_to(parts_view(parts@), i as nat, width as int, cwd_width as int).1,
        decreases parts.len() - i,
    {
        let candidate = slice_subrange(all, start, i + 1);
        proof {
            let views = parts_view(parts@);
            assert(parts_view(candidate@) =~= views.subrange(start as int, i + 1));
            assert(parts_view(all@.subrange(start as int, i as int)) =~= views.subrange(
                start as int,
                i as int,
            ));
        }
        if candidate.len() > 1 && footer_parts_width(candidate, cwd_width) > available {
            let line = footer_line(slice_subrange(all, start, i), available, cwd_width);
            lines.push(line);
            start = i;
        }
        i += 1;
    }
    if start < parts.len() {
        proof {
            assert(parts_view(all@.subrange(start as int, parts@.len() as int)) =~= parts_view(
                parts@,
            ).subrange(start as int, parts@.len() as int));
        }
        lines.push(footer_line(slice_subrange(all, start, parts.len()), available, cwd_width));
    }
    lines
}

/// The date of a session by what the list is sorted by.
pub open spec fn sort_date(
    sort_key: ThreadSortKey,
    created: Seq<char>,
    updated: Seq<char>,
) -> Seq<char> {
    if sort_key is CreatedAt {
        created
    } else {
        updated
    }
}

/// The metadata under a title: the date that the list is sorted by, the directory where it is
/// shown, and the branch.
pub open spec fn footer_lines(
    date: Seq<char>,
    branch: Option<Seq<char>>,
    cwd: Option<Seq<char>>,
    show_cwd: bool,
    width: int,
) -> Seq<LineView> {
    packed_parts(
        if show_cwd {
            seq![PartView::Date(date), PartView::Cwd(cwd), PartView::Branch(branch)]
        } else {
            seq![PartView::Date(date), PartView::Branch(branch)]
        },
        width,
    )
}

pub fn render_footer_lines(
    sort_key: ThreadSortKey,
    created: &str,
    updated: &str,
    branch: &Option<String>,
    cwd: Option<&str>,
    show_cwd: bool,
    width: u16,
) -> (r: Vec<Line>)
    ensures
        lines_view(r@) == footer_lines(
            sort_date(sort_key, created@, updated@),
            optional_view(*branch),
            match cwd {
                Some(cwd) => Some(cwd@),
                None => None,
            },
            show_cwd,
            width as int,
        ),
{
    let date = match sort_key {
        ThreadSortKey::CreatedAt => created,
        ThreadSortKey::UpdatedAt | ThreadSortKey::RecencyAt | ThreadSortKey::SectionPosition => {
            updated
        },
    };
    let mut parts: Vec<FooterPart> = Vec::new();
    parts.push(FooterPart::Date(date.to_owned()));
    if show_cwd {
        parts.push(
            FooterPart::Cwd(
                match cwd {
                    Some(cwd) => Some(cwd.to_owned()),
                    None => None,
                },
            ),
        );
    }
    parts.push(FooterPart::Branch(clone_optional(branch)));
    proof {
        let date_part = PartView::Date(date@);
        let branch_part = PartView::Branch(optional_view(*branch));
        if show_cwd {
            let cwd_part = PartView::Cwd(
                match cwd {
                    Some(cwd) => Some(cwd@),
                    None => None,
                },
            );
            assert(parts_view(parts@) =~= seq![date_part, cwd_part, branch_part]);
        } else {
            assert(parts_view(parts@) =~= seq![date_part, branch_part]);
        }
    }
    pack_footer_parts(&parts, width)
}

} // verus!
