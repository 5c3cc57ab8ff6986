//! The widget declarations: each places a widget at the render cursor,
//! draws it, records it and advances the render cursor.

use vstd::prelude::*;
use vstd::string::*;
use crate::app::{App, AppView};
use crate::draw::{DrawCmd, DrawView, Style};
use crate::element::{Element, ElementKind, ElementKindView, ElementView};
use crate::geometry::{fits_i32, Pos};
use crate::text::{
    button_text, input_label_text, input_value_text, lemma_button_len, lemma_input_value_padded,
    lemma_title_len, title_text,
};

verus! {

impl AppView {
    /// The element that declaring the title `title` records.
    pub open spec fn title_element(self, title: Seq<char>) -> ElementView {
        let text = title_text(title, self.screen.width as int);
        ElementView {
            kind: ElementKindView::Title(text),
            pos: self.render_cursor,
            width: text.len() as int,
            focusable: false,
        }
    }

    /// Whether the title `title` can be declared: the panel is well formed,
    /// the width of the title and the start of the next row fit in an `i32`.
    pub open spec fn title_fits(self, title: Seq<char>) -> bool {
        &&& self.screen.wf()
        &&& self.title_element(title).width <= i32::MAX
        &&& self.screen.x < i32::MAX
        &&& self.render_cursor.1 < i32::MAX
    }

    /// The engine after the title `title` has been declared: the title is
    /// drawn plain at the render cursor, which goes to the next row.
    pub open spec fn title_declared(self, title: Seq<char>) -> AppView {
        let element = self.title_element(title);
        self.emit(
            seq![
                DrawView::move_to(element.pos),
                DrawView::Text {
                    text: title_text(title, self.screen.width as int),
                    style: Style::Plain,
                },
            ],
        ).row_advanced().placed(element)
    }

    /// The element that declaring an input records. It keeps the label and
    /// the value as they were given; its width is that of the drawn text.
    pub open spec fn input_element(
        self,
        label: Seq<char>,
        value: Seq<char>,
        width: Option<usize>,
    ) -> ElementView {
        ElementView {
            kind: ElementKindView::Input { label, value },
            pos: self.render_cursor,
            width: (input_label_text(label).len() + input_value_text(label, value, width).len())
                as int,
            focusable: true,
        }
    }

    /// Whether an input can be declared: its width and the column after it
    /// fit in an `i32`.
    pub open spec fn input_fits(
        self,
        label: Seq<char>,
        value: Seq<char>,
        width: Option<usize>,
    ) -> bool {
        let element = self.input_element(label, value, width);
        element.width <= i32::MAX && self.render_cursor.0 + element.width <= i32::MAX
    }

    /// The engine after an input has been declared: the label is drawn plain
    /// at the render cursor, the value after it, highlighted if the focus
    /// cursor is on the input and regular if not, and the render cursor goes
    /// right by the input's width.
    pub open spec fn input_declared(
        self,
        label: Seq<char>,
        value: Seq<char>,
        width: Option<usize>,
    ) -> AppView {
        let element = self.input_element(label, value, width);
        self.emit(
            seq![
                DrawView::move_to(element.pos),
                DrawView::Text { text: input_label_text(label), style: Style::Plain },
                DrawView::Text {
                    text: input_value_text(label, value, width),
                    style: Style::lit(element.pos == self.cursor),
                },
            ],
        ).render_cursor_moved(element.width, 0).placed(element)
    }

    /// The element that declaring a button records. It keeps the text of
    /// the button as it is drawn.
    pub open spec fn button_element(
        self,
        label: Seq<char>,
        size: Option<usize>,
        active: bool,
    ) -> ElementView {
        let text = button_text(label, size);
        ElementView {
            kind: ElementKindView::Button { label: text, active },
            pos: self.render_cursor,
            width: text.len() as int,
            focusable: false,
        }
    }

    /// Whether a button can be declared: its width and the column after it
    /// fit in an `i32`.
    pub open spec fn button_fits(self, label: Seq<char>, size: Option<usize>) -> bool {
        let element = self.button_element(label, size, false);
        element.width <= i32::MAX && self.render_cursor.0 + element.width <= i32::MAX
    }

    /// The engine after a button has been declared: the button is drawn at
    /// the render cursor, highlighted if it is active and regular if not,
    /// and the render cursor goes right by the button's width.
    pub open spec fn button_declared(
        self,
        label: Seq<char>,
        size: Option<usize>,
        active: bool,
    ) -> AppView {
        let element = self.button_element(label, size, active);
        self.emit(
            seq![
                DrawView::move_to(element.pos),
                DrawView::Text { text: button_text(label, size), style: Style::lit(active) },
            ],
        ).render_cursor_moved(element.width, 0).placed(element)
    }
}

/// Whether a widget that is `width` cells wide can be placed in column
/// `col`: its width and the column after it fit in an `i32`.
fn room_for(col: i32, width: u64) -> (ok: bool)
    ensures
        ok == (width <= i32::MAX && col + width <= i32::MAX),
{
    width <= 0x7fff_ffff && col as i64 + width as i64 <= 0x7fff_ffff
}

impl App {
    /// Whether the title `title` can be declared.
    pub fn title_fits(&self, title: &str) -> (ok: bool)
        ensures
            ok == self@.title_fits(title@),
    {
        if self.screen.width <= 0 || self.screen.height <= 0 {
            return false;
        }
        if self.screen.x == i32::MAX || self.render_cursor.1 == i32::MAX {
            return false;
        }
        let width = self.screen.width as usize;
        let len = title.unicode_len();
        proof {
            lemma_title_len(title@, width as int);
        }
        if len > width {
            true
        } else {
            len <= 0x7fff_fffd
        }
    }

    /// Whether an input can be declared.
    pub fn input_fits(&self, label: &str, value: &str, width: Option<usize>) -> (ok: bool)
        ensures
            ok == self@.input_fits(label@, value@, width),
    {
        let label_len = label.unicode_len();
        let value_len = value.unicode_len();
        let asked = match width {
            Some(w) => w,
            None => 0,
        };
        proof {
            lemma_input_value_padded(label@, value@, width);
        }
        if label_len > 0x7fff_ffff || value_len > 0x7fff_ffff || asked > 0x7fff_ffff {
            return false;
        }
        let least = label_len as u64 + 1;
        let field = if asked as u64 > least {
            asked as u64
        } else {
            least
        };
        let shown = if value_len as u64 > field {
            value_len as u64
        } else {
            field
        };
        room_for(self.render_cursor.0, label_len as u64 + 2 + shown)
    }

    /// Whether a button can be declared.
    pub fn button_fits(&self, label: &str, size: Option<usize>) -> (ok: bool)
        ensures
            ok == self@.button_fits(label@, size),
    {
        let label_len = label.unicode_len();
        proof {
            lemma_button_len(label@, size);
        }
        if label_len > 0x7fff_ffff {
            return false;
        }
        let field = match size {
            Some(w) => {
                if w > 0x7fff_ffff {
                    return false;
                }
                w as u64
            },
            None => label_len as u64 + 2,
        };
        let shown = if field > label_len as u64 {
            field
        } else {
            label_len as u64
        };
        room_for(self.render_cursor.0, shown + 2)
    }

    /// Declares a title: centers it between `=` over the whole interior
    /// width, cutting it down when it is longer than the interior.
    pub fn create_title(&mut self, title: &str) -> (element: Element)
        requires
            old(self)@.title_fits(title@),
        ensures
            final(self)@ == old(self)@.title_declared(title@),
            element@ == old(self)@.title_element(title@),
    {
        let text = crate::text::title(title, self.screen.width as usize);
        let size = text.as_str().unicode_len();
        let pos = self.render_cursor;
        self.emit(DrawCmd::MoveTo { row: pos.1, col: pos.0 });
        self.emit(DrawCmd::Text { text: text.clone(), style: Style::Plain });
        self.next_row();
        let element = Element {
            kind: ElementKind::Title(text),
            pos,
            width: size as i32,
            focusable: false,
        };
        self.place(element.clone());
        assert(self@.draws =~= old(self)@.title_declared(title@).draws);
        element
    }

    /// Declares an input: its label followed by `": "` and its value,
    /// left-justified in a field of at least `width` cells and never less
    /// than one more than the label's length.
    pub fn create_input(
        &mut self,
        label: &str,
        value: &str,
        width: Option<usize>,
    ) -> (element: Element)
        requires
            old(self)@.input_fits(label@, value@, width),
        ensures
            final(self)@ == old(self)@.input_declared(label@, value@, width),
            element@ == old(self)@.input_element(label@, value@, width),
    {
        let input_label = crate::text::input_label(label);
        let input_value = crate::text::input_value(label, value, width);
        let size = input_label.as_str().unicode_len() + input_value.as_str().unicode_len();
        let pos = self.render_cursor;
        let style = if pos == self.cursor {
            Style::Highlight
        } else {
            Style::Regular
        };
        self.emit(DrawCmd::MoveTo { row: pos.1, col: pos.0 });
        self.emit(DrawCmd::Text { text: input_label, style: Style::Plain });
        self.emit(DrawCmd::Text { text: input_value, style });
        self.move_render_cursor(size as i32, 0);
        let element = Element {
            kind: ElementKind::Input { label: label.to_owned(), value: value.to_owned() },
            pos,
            width: size as i32,
            focusable: true,
        };
        self.place(element.clone());
        assert(self@.draws =~= old(self)@.input_declared(label@, value@, width).draws);
        element
    }

    /// Declares a button: its label centered in a field of `size` cells, by
    /// default two more than the label's length, between brackets. A field
    /// that is too narrow for the label leaves the label whole.
    pub fn create_button(
        &mut self,
        label: &str,
        size: Option<usize>,
        active: bool,
    ) -> (element: Element)
        requires
            old(self)@.button_fits(label@, size),
        ensures
            final(self)@ == old(self)@.button_declared(label@, size, active),
            element@ == old(self)@.button_element(label@, size, active),
    {
        let text = crate::text::button(label, size);
        let width = text.as_str().unicode_len();
        let element = Element {
            kind: ElementKind::Button { label: text.clone(), active },
            pos: self.render_cursor,
            width: width as i32,
            focusable: false,
        };
        let style = if active {
            Style::Highlight
        } else {
            Style::Regular
        };
        self.emit(DrawCmd::MoveTo { row: self.render_cursor.1, col: self.render_cursor.0 });
        self.emit(DrawCmd::Text { text, style });
        self.move_render_cursor(element.width, 0);
        self.place(element.clone());
        assert(self@.draws =~= old(self)@.button_declared(label@, size, active).draws);
        element
    }
}

} // verus!
