//! The commands a frame hands to the terminal surface.

use vstd::prelude::*;
use crate::geometry::Pos;

verus! {

/// The color pair of text in its regular state.
pub const REGULAR_PAIR: i16 = 0;

/// The color pair of highlighted text.
pub const HIGHLIGHT_PAIR: i16 = 1;

/// A line-drawing glyph of the panel border.
#[derive(Debug, PartialEq, Eq, Clone, Copy, Structural)]
pub enum Glyph {
    UpperLeft,
    UpperRight,
    LowerLeft,
    LowerRight,
    Horizontal,
    Vertical,
}

/// How a text run is drawn.
#[derive(Debug, PartialEq, Eq, Clone, Copy, Structural)]
pub enum Style {
    /// With no attribute set.
    Plain,
    /// In the regular color pair.
    Regular,
    /// In the highlighted color pair.
    Highlight,
    /// Dimmed.
    Dim,
}

/// The terminal attribute that selects the color pair `pair`: the number of
/// the pair, moved past the eight bits that hold the character.
pub open spec fn pair_attribute(pair: i16) -> u64
    recommends
        pair >= 0,
{
    (256 * pair) as u64
}

/// The terminal attribute that dims text: the bit twelve places above the
/// eight bits that hold the character.
pub open spec fn dim_attribute() -> u64 {
    0x10_0000
}

/// `ncurses::COLOR_PAIR` turns the number of a color pair into a terminal
/// attribute by shifting it left by eight bits; for a number that is not
/// negative nothing is lost by the shift.
#[verifier::external_body]
fn color_pair(pair: i16) -> (attribute: u64)
    requires
        pair >= 0,
    ensures
        attribute == pair_attribute(pair),
{
    ncurses::COLOR_PAIR(pair) as u64
}

/// `ncurses::A_DIM` is the terminal attribute of dimmed text, the single
/// bit `1 << 20`.
#[verifier::external_body]
fn dim() -> (attribute: u64)
    ensures
        attribute == dim_attribute(),
{
    ncurses::A_DIM() as u64
}

impl Style {
    /// The terminal attribute that is switched on around a text of this
    /// style, if any is.
    pub open spec fn attribute_of(self) -> Option<u64> {
        match self {
            Style::Plain => None,
            Style::Regular => Some(pair_attribute(REGULAR_PAIR)),
            Style::Highlight => Some(pair_attribute(HIGHLIGHT_PAIR)),
            Style::Dim => Some(dim_attribute()),
        }
    }

    /// The terminal attribute that is switched on around a text of this
    /// style, if any is.
    pub fn attribute(self) -> (attribute: Option<u64>)
        ensures
            attribute == self.attribute_of(),
    {
        match self {
            Style::Plain => None,
            Style::Regular => Some(color_pair(REGULAR_PAIR)),
            Style::Highlight => Some(color_pair(HIGHLIGHT_PAIR)),
            Style::Dim => Some(dim()),
        }
    }

    /// The style of something that is highlighted when `on` holds and
    /// regular otherwise.
    pub open spec fn lit(on: bool) -> Style {
        if on {
            Style::Highlight
        } else {
            Style::Regular
        }
    }
}

/// One command for the terminal surface.
#[derive(Debug, PartialEq, Eq)]
pub enum DrawCmd {
    /// Move the draw position.
    MoveTo { row: i32, col: i32 },
    /// Draw one glyph at the draw position.
    Glyph(Glyph),
    /// Draw a text run at the draw position.
    Text { text: String, style: Style },
}

/// What a [`DrawCmd`] stands for, with its text as a sequence of characters.
pub ghost enum DrawView {
    MoveTo { row: i32, col: i32 },
    Glyph(Glyph),
    Text { text: Seq<char>, style: Style },
}

impl DrawView {
    /// The command that moves the draw position to `pos`.
    pub open spec fn move_to(pos: Pos) -> DrawView {
        DrawView::MoveTo { row: pos.1, col: pos.0 }
    }
}

impl View for DrawCmd {
    type V = DrawView;

    open spec fn view(&self) -> DrawView {
        match self {
            DrawCmd::MoveTo { row, col } => DrawView::MoveTo { row: *row, col: *col },
            DrawCmd::Glyph(g) => DrawView::Glyph(*g),
            DrawCmd::Text { text, style } => DrawView::Text { text: text@, style: *style },
        }
    }
}

impl Clone for DrawCmd {
    fn clone(&self) -> (copy: DrawCmd)
        ensures
            copy == *self,
    {
        match self {
            DrawCmd::MoveTo { row, col } => DrawCmd::MoveTo { row: *row, col: *col },
            DrawCmd::Glyph(g) => DrawCmd::Glyph(*g),
            DrawCmd::Text { text, style } => DrawCmd::Text { text: text.clone(), style: *style },
        }
    }
}

/// The views of a list of commands, in order.
pub open spec fn draw_views(cmds: Seq<DrawCmd>) -> Seq<DrawView> {
    Seq::new(cmds.len(), |i: int| cmds[i]@)
}

} // verus!
