//! The state of the widget engine and the layout cursor.

use vstd::prelude::*;
use crate::draw::{draw_views, DrawCmd, DrawView};
use crate::element::{element_views, Element, ElementView};
use crate::geometry::{fits_i32, Pos, Screen};

verus! {

/// The editing mode.
#[derive(Debug, PartialEq, Eq, Clone, Copy, Structural)]
pub enum Mode {
    Normal,
    Insert,
}

/// The widget engine: the panel, the two cursors, and what the frame in
/// progress has declared and drawn so far.
pub struct App {
    /// The key that waits to be handled, as the terminal reported it.
    pub key: Option<i32>,
    /// A name for what has the focus. The engine keeps it as it is.
    pub focus: Option<&'static str>,
    /// The editing mode. The engine keeps it as it is.
    pub mode: Mode,
    /// The panel in which the widgets are placed.
    pub screen: Screen,
    /// The focus cursor: the position of the focused element. It outlives
    /// the frame.
    pub cursor: Pos,
    /// The widgets declared in this frame, in the order of declaration.
    pub elements: Vec<Element>,
    /// The candidates of the last directional query, best first.
    pub focusabled_elements: Vec<Element>,
    /// The render cursor: where the next widget is placed.
    pub render_cursor: Pos,
    /// The labels of the action row.
    pub actions: Vec<&'static str>,
    /// The commands drawn in this frame, in order.
    pub draws: Vec<DrawCmd>,
}

/// The engine as a mathematical value: texts are sequences of characters and
/// lists are sequences.
pub ghost struct AppView {
    pub key: Option<i32>,
    pub focus: Option<Seq<char>>,
    pub mode: Mode,
    pub screen: Screen,
    pub cursor: Pos,
    pub elements: Seq<ElementView>,
    pub candidates: Seq<ElementView>,
    pub render_cursor: Pos,
    pub actions: Seq<Seq<char>>,
    pub draws: Seq<DrawView>,
}

/// The texts of a list of labels, in order.
pub open spec fn label_views(labels: Seq<&'static str>) -> Seq<Seq<char>> {
    Seq::new(labels.len(), |i: int| labels[i]@)
}

impl View for App {
    type V = AppView;

    open spec fn view(&self) -> AppView {
        AppView {
            key: self.key,
            focus: match self.focus {
                Some(name) => Some(name@),
                None => None,
            },
            mode: self.mode,
            screen: self.screen,
            cursor: self.cursor,
            elements: element_views(self.elements@),
            candidates: element_views(self.focusabled_elements@),
            render_cursor: self.render_cursor,
            actions: label_views(self.actions@),
            draws: draw_views(self.draws@),
        }
    }
}

impl AppView {
    /// The engine before its first frame: a panel of 40 by 16 cells at the
    /// origin, both cursors at the origin, nothing declared and no key.
    pub open spec fn initial() -> AppView {
        AppView {
            key: None,
            focus: None,
            mode: Mode::Normal,
            screen: Screen { y: 0, x: 0, width: 40, height: 16 },
            cursor: Pos(0, 0),
            elements: Seq::empty(),
            candidates: Seq::empty(),
            render_cursor: Pos(0, 0),
            actions: Seq::empty(),
            draws: Seq::empty(),
        }
    }

    /// The first interior cell of the panel: one column right of the left
    /// border, on row 1.
    pub open spec fn interior_origin(self) -> Pos {
        Pos::at(self.screen.x + 1, 1)
    }

    /// The engine after `cmds` have been drawn.
    pub open spec fn emit(self, cmds: Seq<DrawView>) -> AppView {
        AppView { draws: self.draws + cmds, ..self }
    }

    /// The engine after `element` has been recorded.
    pub open spec fn placed(self, element: ElementView) -> AppView {
        AppView { elements: self.elements.push(element), ..self }
    }

    /// The engine with its render cursor at `pos`.
    pub open spec fn render_at(self, pos: Pos) -> AppView {
        AppView { render_cursor: pos, ..self }
    }

    /// The engine with the frame discarded: no elements, nothing drawn, and
    /// the render cursor on the first interior cell.
    pub open spec fn cleared(self) -> AppView {
        AppView {
            elements: Seq::empty(),
            draws: Seq::empty(),
            render_cursor: self.interior_origin(),
            ..self
        }
    }

    /// The engine with its render cursor at the start of the next row.
    pub open spec fn row_advanced(self) -> AppView {
        self.render_at(Pos::at(self.screen.x + 1, self.render_cursor.1 + 1))
    }

    /// The engine with its render cursor moved by `dx` columns and `dy` rows.
    pub open spec fn render_cursor_moved(self, dx: int, dy: int) -> AppView {
        self.render_at(self.render_cursor.shifted(dx, dy))
    }
}

/// The character that a key code stands for: the one whose code is the key
/// code's lowest byte.
pub open spec fn key_char(key: i32) -> char {
    ((key as int) % 256) as u8 as char
}

impl App {
    /// A new engine, before its first frame.
    pub fn new() -> (app: App)
        ensures
            app@ == AppView::initial(),
    {
        let app = App {
            key: None,
            focus: None,
            mode: Mode::Normal,
            screen: Screen { y: 0, x: 0, width: 40, height: 16 },
            cursor: Pos(0, 0),
            elements: Vec::new(),
            focusabled_elements: Vec::new(),
            render_cursor: Pos(0, 0),
            actions: Vec::new(),
            draws: Vec::new(),
        };
        assert(app@.elements =~= Seq::empty());
        assert(app@.candidates =~= Seq::empty());
        assert(app@.actions =~= Seq::empty());
        assert(app@.draws =~= Seq::empty());
        app
    }

    /// Appends one command to the draw list.
    pub(crate) fn emit(&mut self, cmd: DrawCmd)
        ensures
            final(self)@ == old(self)@.emit(seq![cmd@]),
    {
        self.draws.push(cmd);
        assert(self@.draws =~= old(self)@.draws + seq![cmd@]);
    }

    /// Appends one element to the element list.
    pub(crate) fn place(&mut self, element: Element)
        ensures
            final(self)@ == old(self)@.placed(element@),
    {
        self.elements.push(element);
        assert(self@.elements =~= old(self)@.elements.push(element@));
    }

    /// Takes the waiting key, if there is one, as a character.
    pub fn get_key_char(&mut self) -> (c: Option<char>)
        ensures
            final(self)@ == (AppView { key: None, ..old(self)@ }),
            c == match old(self).key {
                Some(key) => Some(key_char(key)),
                None => None,
            },
    {
        match self.key.take() {
            Some(key) => {
                let rest: i32 = key % 256;
                let low: i32 = if rest < 0 {
                    rest + 256
                } else {
                    rest
                };
                Some(low as u8 as char)
            },
            None => None,
        }
    }

    /// Discards the frame: empties the element list and the draw list and
    /// puts the render cursor on the first interior cell of the panel.
    pub fn reset(&mut self)
        requires
            old(self).screen.x < i32::MAX,
        ensures
            final(self)@ == old(self)@.cleared(),
    {
        self.elements = Vec::new();
        self.draws = Vec::new();
        self.render_cursor = Pos(self.screen.x + 1, 1);
        assert(self@.elements =~= Seq::empty());
        assert(self@.draws =~= Seq::empty());
    }

    /// Moves the render cursor by `x` columns and `y` rows and returns it.
    pub fn move_render_cursor(&mut self, x: i32, y: i32) -> (pos: Pos)
        requires
            fits_i32(old(self).render_cursor.0 + x),
            fits_i32(old(self).render_cursor.1 + y),
        ensures
            final(self)@ == old(self)@.render_cursor_moved(x as int, y as int),
            pos == final(self).render_cursor,
    {
        self.render_cursor = Pos(self.render_cursor.0 + x, self.render_cursor.1 + y);
        self.render_cursor
    }

    /// Puts the render cursor at the start of the next row.
    pub fn next_row(&mut self)
        requires
            old(self).screen.x < i32::MAX,
            old(self).render_cursor.1 < i32::MAX,
        ensures
            final(self)@ == old(self)@.row_advanced(),
    {
        self.render_cursor = Pos(self.screen.x + 1, self.render_cursor.1 + 1);
    }
}

} // verus!
