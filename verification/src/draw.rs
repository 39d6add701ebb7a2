//! Areas of the screen, and what is drawn in them.

use vstd::prelude::*;
use crate::metadata::smaller;
use crate::style::{Line, LineView, Style};

verus! {

/// An area of the screen.
#[derive(Clone, Copy, Debug, PartialEq, Eq, Structural)]
pub struct Rect {
    pub x: u16,
    pub y: u16,
    pub width: u16,
    pub height: u16,
}

pub open spec fn at_most_u16(value: int) -> int {
    if value > u16::MAX {
        u16::MAX as int
    } else {
        value
    }
}

impl Rect {
    /// The area lies within the coordinates that there are.
    pub open spec fn is_valid(self) -> bool {
        self.x + self.width <= u16::MAX && self.y + self.height <= u16::MAX
    }

    /// The line below the area.
    pub open spec fn end(self) -> int {
        at_most_u16(self.y + self.height)
    }

    /// The area, cut to the coordinates that there are.
    pub open spec fn cut(x: int, y: int, width: int, height: int) -> Rect {
        Rect {
            x: x as u16,
            y: y as u16,
            width: smaller(width, u16::MAX - x) as u16,
            height: smaller(height, u16::MAX - y) as u16,
        }
    }

    pub fn new(x: u16, y: u16, width: u16, height: u16) -> (r: Rect)
        ensures
            r == Rect::cut(x as int, y as int, width as int, height as int),
            r.is_valid(),
    {
        let max_width: u16 = u16::MAX - x;
        let max_height: u16 = u16::MAX - y;
        Rect {
            x,
            y,
            width: if width < max_width {
                width
            } else {
                max_width
            },
            height: if height < max_height {
                height
            } else {
                max_height
            },
        }
    }

    pub fn bottom(&self) -> (r: u16)
        ensures
            r == self.end(),
    {
        self.y.saturating_add(self.height)
    }
}

/// Something to draw.
#[derive(Debug)]
pub enum DrawOp {
    Clear { area: Rect },
    /// Spaces in a style.
    Fill { area: Rect, style: Style },
    Text { area: Rect, line: Line },
    /// The composer, with the cursor in it where it has the focus.
    Composer { area: Rect, focused: bool },
}

pub enum DrawView {
    Clear { area: Rect },
    Fill { area: Rect, style: Style },
    Text { area: Rect, line: LineView },
    Composer { area: Rect, focused: bool },
}

impl View for DrawOp {
    type V = DrawView;

    open spec fn view(&self) -> DrawView {
        match self {
            DrawOp::Clear { area } => DrawView::Clear { area: *area },
            DrawOp::Fill { area, style } => DrawView::Fill { area: *area, style: *style },
            DrawOp::Text { area, line } => DrawView::Text { area: *area, line: line@ },
            DrawOp::Composer { area, focused } => DrawView::Composer {
                area: *area,
                focused: *focused,
            },
        }
    }
}

pub open spec fn draws_view(ops: Seq<DrawOp>) -> Seq<DrawView> {
    Seq::new(ops.len(), |i: int| ops[i]@)
}

pub broadcast proof fn lemma_draws_push(ops: Seq<DrawOp>, op: DrawOp)
    ensures
        #[trigger] draws_view(ops.push(op)) == draws_view(ops).push(op@),
{
    assert(draws_view(ops.push(op)) =~= draws_view(ops).push(op@));
}

pub broadcast proof fn lemma_draws_append(a: Seq<DrawOp>, b: Seq<DrawOp>)
    ensures
        #[trigger] draws_view(a + b) == draws_view(a) + draws_view(b),
{
    assert(draws_view(a + b) =~= draws_view(a) + draws_view(b));
}

pub broadcast group group_draw_views {
    lemma_draws_push,
    lemma_draws_append,
}

/// One line of text, from `x` on line `y`.
pub open spec fn text_at(x: int, y: int, width: int, line: LineView) -> DrawView {
    DrawView::Text { area: Rect::cut(x, y, width, 1), line }
}

pub fn draw_text(ops: &mut Vec<DrawOp>, x: u16, y: u16, width: u16, line: Line)
    ensures
        draws_view(final(ops)@) == draws_view(old(ops)@).push(
            text_at(x as int, y as int, width as int, line@),
        ),
{
    proof {
        broadcast use lemma_draws_push;

    }
    ops.push(DrawOp::Text { area: Rect::new(x, y, width, 1), line });
}

} // verus!
