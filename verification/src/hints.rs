//! The key hints in the footer of the picker.

use vstd::prelude::*;
use vstd::string::StringExecFns;
use crate::archive::can_archive;
use crate::keys::{ListAction, ListKeymap};
use crate::picker::PickerState;
use crate::render_row::Palette;
use crate::session::{SessionListDensity, SessionPickerLaunchContext, SessionStatus};
use crate::style::{
    at_most_usize, dim_style, display_width, fg_style, group_line_views, line_of, lines_view,
    plain_style, span_of, spaces_of, spans_view, text_width, Color, Line, LineView, Span, SpanView,
    Style,
};

verus! {

broadcast use group_line_views;

pub const FOOTER_COMPACT_BREAKPOINT: u16 = 120;

pub const FOOTER_HINT_LEFT_PADDING: usize = 1;

pub const FOOTER_HINT_GAP: usize = 3;

/// A key and what it does, in a long and a short form. The lower its priority, the longer a hint
/// stays where there is little room.
#[derive(Debug)]
pub struct PickerFooterHint {
    pub key: String,
    pub wide_label: String,
    pub compact_label: String,
    pub priority: u8,
}

#[verifier::ext_equal]
pub struct HintView {
    pub key: Seq<char>,
    pub wide_label: Seq<char>,
    pub compact_label: Seq<char>,
    pub priority: u8,
}

impl View for PickerFooterHint {
    type V = HintView;

    open spec fn view(&self) -> HintView {
        HintView {
            key: self.key@,
            wide_label: self.wide_label@,
            compact_label: self.compact_label@,
            priority: self.priority,
        }
    }
}

pub open spec fn hints_view(hints: Seq<PickerFooterHint>) -> Seq<HintView> {
    Seq::new(hints.len(), |i: int| hints[i]@)
}

pub open spec fn hint(
    key: Seq<char>,
    wide_label: Seq<char>,
    compact_label: Seq<char>,
    priority: u8,
) -> HintView {
    HintView { key, wide_label, compact_label, priority }
}

fn hint_of(key: &str, wide_label: &str, compact_label: &str, priority: u8) -> (r: PickerFooterHint)
    ensures
        r@ == hint(key@, wide_label@, compact_label@, priority),
{
    PickerFooterHint {
        key: key.to_owned(),
        wide_label: wide_label.to_owned(),
        compact_label: compact_label.to_owned(),
        priority,
    }
}

/// How much is said of a key.
#[derive(Clone, Copy, Debug, PartialEq, Eq, Structural)]
pub enum FooterHintLabelMode {
    Wide,
    Compact,
    KeyOnly,
}

impl HintView {
    pub open spec fn label(self, mode: FooterHintLabelMode) -> Option<Seq<char>> {
        match mode {
            FooterHintLabelMode::Wide => Some(self.wide_label),
            FooterHintLabelMode::Compact => Some(self.compact_label),
            FooterHintLabelMode::KeyOnly => None,
        }
    }

    /// The columns of the key, a space and the label.
    pub open spec fn width(self, mode: FooterHintLabelMode) -> int {
        display_width(self.key) + (match self.label(mode) {
            Some(label) => 1 + display_width(label),
            None => 0,
        })
    }
}

/// The columns of the first `count` hints with the gaps between them.
pub open spec fn hints_width_to(
    hints: Seq<HintView>,
    mode: FooterHintLabelMode,
    gap: int,
    count: nat,
) -> int
    decreases count,
{
    if count == 0 {
        0
    } else {
        hints_width_to(hints, mode, gap, (count - 1) as nat) + hints[count - 1].width(mode) + (
        if count > 1 {
            gap
        } else {
            0
        })
    }
}

/// The columns of a line of hints.
pub open spec fn hints_width(hints: Seq<HintView>, mode: FooterHintLabelMode, gap: int) -> int {
    FOOTER_HINT_LEFT_PADDING + hints_width_to(hints, mode, gap, hints.len())
}

pub open spec fn key_style(palette: Palette) -> Style {
    if palette.light {
        fg_style(Color::Black)
    } else {
        plain_style()
    }
}

pub fn footer_hint_key_style(palette: Palette) -> (r: Style)
    ensures
        r == key_style(palette),
{
    if palette.light {
        Style::fg(Color::Black)
    } else {
        Style::plain()
    }
}

pub open spec fn label_style(palette: Palette) -> Style {
    if palette.light {
        fg_style(Color::DarkGray)
    } else {
        dim_style()
    }
}

pub fn footer_hint_label_style(palette: Palette) -> (r: Style)
    ensures
        r == label_style(palette),
{
    if palette.light {
        Style::fg(Color::DarkGray)
    } else {
        Style::dim()
    }
}

/// The spans of the first `count` hints.
pub open spec fn hint_spans_to(
    palette: Palette,
    hints: Seq<HintView>,
    mode: FooterHintLabelMode,
    count: nat,
) -> Seq<SpanView>
    decreases count,
{
    let label = label_style(palette);
    if count == 0 {
        seq![spaces_of(FOOTER_HINT_LEFT_PADDING as nat, label)]
    } else {
        let hint = hints[count - 1];
        hint_spans_to(palette, hints, mode, (count - 1) as nat) + (if count > 1 {
            seq![spaces_of(FOOTER_HINT_GAP as nat, label)]
        } else {
            Seq::empty()
        }) + seq![span_of(hint.key, key_style(palette))] + (match hint.label(mode) {
            Some(text) => seq![span_of(" "@, label), span_of(text, label)],
            None => Seq::empty(),
        })
    }
}

/// A line of hints.
pub open spec fn hint_line(
    palette: Palette,
    hints: Seq<HintView>,
    mode: FooterHintLabelMode,
) -> LineView {
    line_of(hint_spans_to(palette, hints, mode, hints.len()))
}

/// The hints fit into `width` columns.
pub open spec fn hints_fit(hints: Seq<HintView>, mode: FooterHintLabelMode, width: int) -> bool {
    hints_width(hints, mode, FOOTER_HINT_GAP as int) <= width
}

pub fn footer_hints_width(
    hints: &Vec<PickerFooterHint>,
    mode: FooterHintLabelMode,
    gap_width: usize,
) -> (r: usize)
    ensures
        r == at_most_usize(hints_width(hints_view(hints@), mode, gap_width as int)),
{
    let ghost views = hints_view(hints@);
    let mut total: usize = FOOTER_HINT_LEFT_PADDING;
    let mut i: usize = 0;
    while i < hints.len()
        invariant
            i <= hints.len(),
            views == hints_view(hints@),
            hints_width_to(views, mode, gap_width as int, i as nat) >= 0,
            total == at_most_usize(
                FOOTER_HINT_LEFT_PADDING + hints_width_to(
                    views,
                    mode,
                    gap_width as int,
                    i as nat,
                ),
            ),
        decreases hints.len() - i,
    {
        let hint = &hints[i];
        let label_width: usize = match mode {
            FooterHintLabelMode::Wide => text_width(hint.wide_label.as_str()).saturating_add(1),
            FooterHintLabelMode::Compact => text_width(hint.compact_label.as_str()).saturating_add(
                1,
            ),
            FooterHintLabelMode::KeyOnly => 0,
        };
        let gap: usize = if i == 0 {
            0
        } else {
            gap_width
        };
        proof {
            assert(views[i as int] == hint@);
        }
        total = total.saturating_add(text_width(hint.key.as_str())).saturating_add(
            label_width,
        ).saturating_add(gap);
        i += 1;
    }
    total
}

/// The hints on a line of `width` columns, where they fit.
pub fn fit_footer_hints(
    palette: Palette,
    hints: &Vec<PickerFooterHint>,
    mode: FooterHintLabelMode,
    width: u16,
) -> (r: Option<Line>)
    ensures
        r is Some <==> hints_fit(hints_view(hints@), mode, width as int),
        r is Some ==> (r->0)@ == hint_line(palette, hints_view(hints@), mode),
{
    if footer_hints_width(hints, mode, FOOTER_HINT_GAP) > width as usize {
        return None;
    }
    let ghost views = hints_view(hints@);
    let label_style = footer_hint_label_style(palette);
    let mut spans: Vec<Span> = Vec::new();
    spans.push(Span::spaces(FOOTER_HINT_LEFT_PADDING, label_style));
    let mut i: usize = 0;
    proof {
        assert(spans_view(spans@) =~= hint_spans_to(palette, views, mode, 0));
    }
    while i < hints.len()
        invariant
            i <= hints.len(),
            views == hints_view(hints@),
            label_style == crate::hints::label_style(palette),
            spans_view(spans@) == hint_spans_to(palette, views, mode, i as nat),
        decreases hints.len() - i,
    {
        let hint = &hints[i];
        let ghost before = spans_view(spans@);
        if i > 0 {
            spans.push(Span::spaces(FOOTER_HINT_GAP, label_style));
        }
        spans.push(Span::from_text(hint.key.as_str(), footer_hint_key_style(palette)));
        let label: Option<&str> = match mode {
            FooterHintLabelMode::Wide => Some(hint.wide_label.as_str()),
            FooterHintLabelMode::Compact => Some(hint.compact_label.as_str()),
            FooterHintLabelMode::KeyOnly => None,
        };
        if let Some(label) = label {
            spans.push(Span::from_text(" ", label_style));
            spans.push(Span::from_text(label, label_style));
        }
        proof {
            assert(views[i as int] == hint@);
            assert(spans_view(spans@) =~= hint_spans_to(palette, views, mode, (i + 1) as nat));
        }
        i += 1;
    }
    Some(Line::from_spans(spans))
}

/// Hint `a` stays longer than hint `b`: its priority is lower or, where these are the same, it
/// stands first.
pub open spec fn outlasts(hints: Seq<HintView>, a: int, b: int) -> bool {
    hints[a].priority < hints[b].priority || (hints[a].priority == hints[b].priority && a < b)
}

/// The number of the first `count` hints that stay longer than hint `at`.
pub open spec fn outlasting(hints: Seq<HintView>, at: int, count: nat) -> nat
    decreases count,
{
    if count == 0 {
        0
    } else {
        outlasting(hints, at, (count - 1) as nat) + (if outlasts(hints, count - 1, at) {
            1nat
        } else {
            0nat
        })
    }
}

/// The `keep` hints among the first `count` that stay longest, in their order.
pub open spec fn kept_hints_to(hints: Seq<HintView>, keep: int, count: nat) -> Seq<HintView>
    decreases count,
{
    if count == 0 {
        Seq::empty()
    } else {
        let before = kept_hints_to(hints, keep, (count - 1) as nat);
        if outlasting(hints, count - 1, hints.len()) < keep {
            before.push(hints[count - 1])
        } else {
            before
        }
    }
}

/// The `keep` hints that stay longest, in their order.
pub open spec fn kept_hints(hints: Seq<HintView>, keep: int) -> Seq<HintView> {
    kept_hints_to(hints, keep, hints.len())
}

/// The most hints, at most `keep`, whose keys fit into `width` columns.
pub open spec fn most_keys(hints: Seq<HintView>, keep: int, width: int) -> int
    decreases keep,
{
    if keep <= 0 {
        0
    } else if hints_fit(kept_hints(hints, keep), FooterHintLabelMode::KeyOnly, width) {
        keep
    } else {
        most_keys(hints, keep - 1, width)
    }
}

/// The hints on a line of `width` columns: in their long form where that is wide, else in the
/// longest form that fits. Where not even the keys fit, the hints of the highest priority go first.
pub open spec fn row_of_hints(palette: Palette, hints: Seq<HintView>, width: int) -> LineView {
    if width >= FOOTER_COMPACT_BREAKPOINT && hints_fit(hints, FooterHintLabelMode::Wide, width) {
        hint_line(palette, hints, FooterHintLabelMode::Wide)
    } else if hints_fit(hints, FooterHintLabelMode::Compact, width) {
        hint_line(palette, hints, FooterHintLabelMode::Compact)
    } else if hints_fit(hints, FooterHintLabelMode::KeyOnly, width) {
        hint_line(palette, hints, FooterHintLabelMode::KeyOnly)
    } else {
        let keep = most_keys(hints, hints.len() as int, width);
        if keep > 0 {
            hint_line(palette, kept_hints(hints, keep), FooterHintLabelMode::KeyOnly)
        } else {
            line_of(Seq::empty())
        }
    }
}

/// Hint `at` is kept where `keep` hints are.
pub open spec fn is_kept(hints: Seq<HintView>, keep: int, at: int) -> bool {
    outlasting(hints, at, hints.len()) < keep
}

/// A hint that is dropped is outlasted by every hint that is kept.
pub proof fn lemma_kept_hints_outlast_dropped(
    hints: Seq<HintView>,
    keep: int,
    kept: int,
    dropped: int,
)
    requires
        0 <= kept < hints.len(),
        0 <= dropped < hints.len(),
        is_kept(hints, keep, kept),
        !is_kept(hints, keep, dropped),
    ensures
        outlasts(hints, kept, dropped),
{
    if !outlasts(hints, kept, dropped) {
        lemma_outlasting_grows(hints, dropped, kept, hints.len());
    }
}

/// What outlasts a hint outlasts those that the hint outlasts.
proof fn lemma_outlasting_grows(hints: Seq<HintView>, a: int, b: int, count: nat)
    requires
        outlasts(hints, a, b) || a == b,
        count <= hints.len(),
    ensures
        outlasting(hints, a, count) <= outlasting(hints, b, count),
    decreases count,
{
    if count > 0 {
        lemma_outlasting_grows(hints, a, b, (count - 1) as nat);
    }
}

/// Where not all keys fit into a line, those that are kept do.
pub proof fn lemma_chosen_keys_fit(hints: Seq<HintView>, keep: int, width: int)
    ensures
        most_keys(hints, keep, width) > 0 ==> hints_fit(
            kept_hints(hints, most_keys(hints, keep, width)),
            FooterHintLabelMode::KeyOnly,
            width,
        ),
    decreases keep,
{
    if keep > 0 && !hints_fit(kept_hints(hints, keep), FooterHintLabelMode::KeyOnly, width) {
        lemma_chosen_keys_fit(hints, keep - 1, width);
    }
}

fn count_outlasting(hints: &Vec<PickerFooterHint>, at: usize) -> (r: usize)
    requires
        at < hints@.len(),
    ensures
        r == outlasting(hints_view(hints@), at as int, hints@.len()),
{
    let ghost views = hints_view(hints@);
    let mut count: usize = 0;
    let mut i: usize = 0;
    while i < hints.len()
        invariant
            i <= hints.len(),
            at < hints@.len(),
            views == hints_view(hints@),
            count <= i,
            count == outlasting(views, at as int, i as nat),
        decreases hints.len() - i,
    {
        proof {
            assert(views[i as int] == hints@[i as int]@);
            assert(views[at as int] == hints@[at as int]@);
        }
        if hints[i].priority < hints[at].priority || (hints[i].priority == hints[at].priority && i
            < at) {
            count += 1;
        }
        i += 1;
    }
    count
}

fn copy_hint(hint: &PickerFooterHint) -> (r: PickerFooterHint)
    ensures
        r@ == hint@,
{
    PickerFooterHint {
        key: hint.key.clone(),
        wide_label: hint.wide_label.clone(),
        compact_label: hint.compact_label.clone(),
        priority: hint.priority,
    }
}

fn keep_hints(hints: &Vec<PickerFooterHint>, keep: usize) -> (r: Vec<PickerFooterHint>)
    ensures
        hints_view(r@) == kept_hints(hints_view(hints@), keep as int),
{
    let ghost views = hints_view(hints@);
    let mut r: Vec<PickerFooterHint> = Vec::new();
    let mut i: usize = 0;
    proof {
        assert(hints_view(r@) =~= Seq::<HintView>::empty());
    }
    while i < hints.len()
        invariant
            i <= hints.len(),
            views == hints_view(hints@),
            hints_view(r@) == kept_hints_to(views, keep as int, i as nat),
        decreases hints.len() - i,
    {
        let ghost before = hints_view(r@);
        if count_outlasting(hints, i) < keep {
            r.push(copy_hint(&hints[i]));
            proof {
                assert(hints_view(r@) =~= before.push(views[i as int]));
            }
        }
        i += 1;
    }
    r
}

pub fn hint_line_for_row(
    palette: Palette,
    hints: &Vec<PickerFooterHint>,
    width: u16,
) -> (r: Line)
    ensures
        r@ == row_of_hints(palette, hints_view(hints@), width as int),
{
    if width >= FOOTER_COMPACT_BREAKPOINT {
        if let Some(line) = fit_footer_hints(palette, hints, FooterHintLabelMode::Wide, width) {
            return line;
        }
    }
    if let Some(line) = fit_footer_hints(palette, hints, FooterHintLabelMode::Compact, width) {
        return line;
    }
    if let Some(line) = fit_footer_hints(palette, hints, FooterHintLabelMode::KeyOnly, width) {
        return line;
    }
    let ghost views = hints_view(hints@);
    let mut keep: usize = hints.len();
    while keep > 0
        invariant
            views == hints_view(hints@),
            keep <= hints.len(),
            most_keys(views, views.len() as int, width as int) == most_keys(
                views,
                keep as int,
                width as int,
            ),
            !(width >= FOOTER_COMPACT_BREAKPOINT && hints_fit(
                views,
                FooterHintLabelMode::Wide,
                width as int,
            )),
            !hints_fit(views, FooterHintLabelMode::Compact, width as int),
            !hints_fit(views, FooterHintLabelMode::KeyOnly, width as int),
        decreases keep,
    {
        let kept = keep_hints(hints, keep);
        if let Some(line) = fit_footer_hints(palette, &kept, FooterHintLabelMode::KeyOnly, width) {
            return line;
        }
        keep -= 1;
    }
    Line::empty()
}

/// The labels of two actions' first bindings, parted by a slash.
pub open spec fn pair_label(keymap: ListKeymap, first: ListAction, second: ListAction) -> Seq<
    char,
> {
    match (keymap.hint(first), keymap.hint(second)) {
        (Some(first), Some(second)) => first + "/"@ + second,
        (Some(first), None) => first,
        (None, Some(second)) => second,
        (None, None) => Seq::empty(),
    }
}

fn pair_text(keymap: &ListKeymap, first: ListAction, second: ListAction) -> (r: String)
    ensures
        r@ == pair_label(*keymap, first, second),
{
    match (keymap.primary_hint(first), keymap.primary_hint(second)) {
        (Some(first), Some(second)) => {
            let mut text = first;
            text.append("/");
            text.append(second.as_str());
            text
        },
        (Some(first), None) => first,
        (None, Some(second)) => second,
        (None, None) => String::new(),
    }
}

/// A hint for the first binding of an action, if it has one.
pub open spec fn action_hint(
    keymap: ListKeymap,
    action: ListAction,
    wide_label: Seq<char>,
    compact_label: Seq<char>,
    priority: u8,
) -> Seq<HintView> {
    match keymap.hint(action) {
        Some(key) => seq![hint(key, wide_label, compact_label, priority)],
        None => Seq::empty(),
    }
}

/// What the cancel key does, in a long and a short form.
pub open spec fn cancel_labels(state: PickerState) -> (Seq<char>, Seq<char>) {
    if state.query@.len() > 0 {
        ("clear search"@, "clear"@)
    } else if state.launch_context is ExistingSession {
        ("exit"@, "exit"@)
    } else {
        ("start new"@, "new"@)
    }
}

pub open spec fn accept_label(state: PickerState) -> Seq<char> {
    if state.status is Archived {
        "restore"@
    } else {
        state.action.name()
    }
}

/// The hints of the footer's first line.
pub open spec fn first_hints(state: PickerState) -> Seq<HintView> {
    let keymap = state.list_keymap;
    let quit = if state.launch_context is ExistingSession {
        "exit"@
    } else {
        "quit"@
    };
    let option_keys = pair_label(keymap, ListAction::MoveLeft, ListAction::MoveRight);
    action_hint(keymap, ListAction::Accept, accept_label(state), accept_label(state), 0) + (
    if state.filtered_rows@.len() > 0 && can_archive(state) {
        seq![hint("ctrl+a"@, "archive"@, "archive"@, 2)]
    } else {
        Seq::empty()
    }) + action_hint(
        keymap,
        ListAction::Cancel,
        cancel_labels(state).0,
        cancel_labels(state).1,
        1,
    ) + (if state.is_dashboard() {
        seq![hint("ctrl+g"@, "change grouping"@, "group"@, 3)]
    } else {
        Seq::empty()
    }) + seq![hint("ctrl+c"@, quit, quit, 2)] + (if state.is_dashboard() {
        Seq::empty()
    } else {
        seq![hint("tab"@, "focus sort/filter"@, "focus"@, 7)]
    }) + (if !state.is_dashboard() && option_keys.len() > 0 {
        seq![hint(option_keys, "change option"@, "option"@, 8)]
    } else {
        Seq::empty()
    })
}

/// The hints of the footer's second line.
pub open spec fn second_hints(state: PickerState) -> Seq<HintView> {
    let browse_keys = pair_label(state.list_keymap, ListAction::MoveUp, ListAction::MoveDown);
    seq![
        match state.density {
            SessionListDensity::Comfortable => hint("ctrl+o"@, "dense view"@, "dense"@, 3),
            SessionListDensity::Dense => hint("ctrl+o"@, "comfortable view"@, "comfy"@, 3),
        },
        hint("ctrl+t"@, "transcript"@, "preview"@, 4),
        hint("ctrl+e"@, "expand"@, "exp"@, 6),
    ] + (if browse_keys.len() > 0 {
        seq![hint(browse_keys, "browse"@, "browse"@, 5)]
    } else {
        Seq::empty()
    })
}

/// The hints while a transcript is waited for.
pub open spec fn loading_hints() -> Seq<HintView> {
    seq![hint("loading"@, "transcript"@, "transcript"@, 0), hint("ctrl+c"@, "quit"@, "quit"@, 1)]
}

/// The line of hints while a transcript is waited for, in the longest form that fits.
pub open spec fn loading_line(palette: Palette, width: int) -> LineView {
    let hints = loading_hints();
    if hints_fit(hints, FooterHintLabelMode::Wide, width) {
        hint_line(palette, hints, FooterHintLabelMode::Wide)
    } else if hints_fit(hints, FooterHintLabelMode::Compact, width) {
        hint_line(palette, hints, FooterHintLabelMode::Compact)
    } else if hints_fit(hints, FooterHintLabelMode::KeyOnly, width) {
        hint_line(palette, hints, FooterHintLabelMode::KeyOnly)
    } else {
        line_of(Seq::empty())
    }
}

/// The two lines of hints in the footer.
pub open spec fn hint_lines(state: PickerState, width: int) -> Seq<LineView> {
    if state.pending_transcript_open is Some {
        seq![loading_line(state.palette, width), line_of(Seq::empty())]
    } else {
        seq![
            row_of_hints(state.palette, first_hints(state), width),
            row_of_hints(state.palette, second_hints(state), width),
        ]
    }
}

pub proof fn lemma_hints_push(hints: Seq<PickerFooterHint>, hint: PickerFooterHint)
    ensures
        hints_view(hints.push(hint)) == hints_view(hints).push(hint@),
{
    assert(hints_view(hints.push(hint)) =~= hints_view(hints).push(hint@));
}

fn push_hint(hints: &mut Vec<PickerFooterHint>, hint: PickerFooterHint)
    ensures
        hints_view(final(hints)@) == hints_view(old(hints)@) + seq![hint@],
{
    proof {
        lemma_hints_push(hints@, hint);
    }
    hints.push(hint);
    proof {
        assert(hints_view(old(hints)@).push(hint@) =~= hints_view(old(hints)@) + seq![hint@]);
    }
}

fn push_action_hint(
    hints: &mut Vec<PickerFooterHint>,
    keymap: &ListKeymap,
    action: ListAction,
    wide_label: &str,
    compact_label: &str,
    priority: u8,
)
    ensures
        hints_view(final(hints)@) == hints_view(old(hints)@) + action_hint(
            *keymap,
            action,
            wide_label@,
            compact_label@,
            priority,
        ),
{
    match keymap.primary_hint(action) {
        Some(key) => {
            push_hint(hints, hint_of(key.as_str(), wide_label, compact_label, priority));
        },
        None => {
            proof {
                assert(hints_view(hints@) + Seq::<HintView>::empty() =~= hints_view(hints@));
            }
        },
    }
}

fn make_first_hints(state: &PickerState) -> (hints: Vec<PickerFooterHint>)
    ensures
        hints_view(hints@) == first_hints(*state),
{
    let accept = if state.status == SessionStatus::Archived {
        "restore"
    } else {
        state.action.action_label()
    };
    let existing = match state.launch_context {
        SessionPickerLaunchContext::ExistingSession { .. } => true,
        SessionPickerLaunchContext::Startup | SessionPickerLaunchContext::AgentsDashboard => false,
    };
    let searching = !state.query.as_str().is_empty();
    let cancel = if searching {
        "clear search"
    } else if existing {
        "exit"
    } else {
        "start new"
    };
    let short_cancel = if searching {
        "clear"
    } else if existing {
        "exit"
    } else {
        "new"
    };
    let quit = if existing {
        "exit"
    } else {
        "quit"
    };
    let dashboard = state.is_agents_dashboard();
    let option_keys = pair_text(&state.list_keymap, ListAction::MoveLeft, ListAction::MoveRight);
    let mut hints: Vec<PickerFooterHint> = Vec::new();
    push_action_hint(&mut hints, &state.list_keymap, ListAction::Accept, accept, accept, 0);
    if state.filtered_rows.len() > 0 && state.archive_shortcut_available() {
        push_hint(&mut hints, hint_of("ctrl+a", "archive", "archive", 2));
    }
    push_action_hint(&mut hints, &state.list_keymap, ListAction::Cancel, cancel, short_cancel, 1);
    if dashboard {
        push_hint(&mut hints, hint_of("ctrl+g", "change grouping", "group", 3));
    }
    push_hint(&mut hints, hint_of("ctrl+c", quit, quit, 2));
    if !dashboard {
        push_hint(&mut hints, hint_of("tab", "focus sort/filter", "focus", 7));
        if !option_keys.as_str().is_empty() {
            push_hint(&mut hints, hint_of(option_keys.as_str(), "change option", "option", 8));
        }
    }
    proof {
        assert(hints_view(hints@) =~= first_hints(*state));
    }
    hints
}

fn make_second_hints(state: &PickerState) -> (hints: Vec<PickerFooterHint>)
    ensures
        hints_view(hints@) == second_hints(*state),
{
    let browse_keys = pair_text(&state.list_keymap, ListAction::MoveUp, ListAction::MoveDown);
    let mut hints: Vec<PickerFooterHint> = Vec::new();
    push_hint(
        &mut hints,
        match state.density {
            SessionListDensity::Comfortable => hint_of("ctrl+o", "dense view", "dense", 3),
            SessionListDensity::Dense => hint_of("ctrl+o", "comfortable view", "comfy", 3),
        },
    );
    push_hint(&mut hints, hint_of("ctrl+t", "transcript", "preview", 4));
    push_hint(&mut hints, hint_of("ctrl+e", "expand", "exp", 6));
    if !browse_keys.as_str().is_empty() {
        push_hint(&mut hints, hint_of(browse_keys.as_str(), "browse", "browse", 5));
    }
    proof {
        assert(hints_view(hints@) =~= second_hints(*state));
    }
    hints
}

fn render_loading_line(palette: Palette, width: u16) -> (r: Line)
    ensures
        r@ == loading_line(palette, width as int),
{
    let mut hints: Vec<PickerFooterHint> = Vec::new();
    push_hint(&mut hints, hint_of("loading", "transcript", "transcript", 0));
    push_hint(&mut hints, hint_of("ctrl+c", "quit", "quit", 1));
    proof {
        assert(hints_view(hints@) =~= loading_hints());
    }
    if let Some(line) = fit_footer_hints(palette, &hints, FooterHintLabelMode::Wide, width) {
        return line;
    }
    if let Some(line) = fit_footer_hints(palette, &hints, FooterHintLabelMode::Compact, width) {
        return line;
    }
    if let Some(line) = fit_footer_hints(palette, &hints, FooterHintLabelMode::KeyOnly, width) {
        return line;
    }
    Line::empty()
}

/// The two lines of hints in the footer.
pub fn footer_hint_lines(state: &PickerState, width: u16) -> (r: Vec<Line>)
    ensures
        lines_view(r@) == hint_lines(*state, width as int),
{
    let mut lines: Vec<Line> = Vec::new();
    if state.is_transcript_loading() {
        lines.push(render_loading_line(state.palette, width));
        lines.push(Line::empty());
    } else {
        lines.push(hint_line_for_row(state.palette, &make_first_hints(state), width));
        lines.push(hint_line_for_row(state.palette, &make_second_hints(state), width));
    }
    proof {
        assert(lines_view(lines@) =~= hint_lines(*state, width as int));
    }
    lines
}

} // verus!
