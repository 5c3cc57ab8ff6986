//! The widgets that a frame has declared.

use vstd::prelude::*;
use crate::geometry::Pos;

verus! {

/// The kind of a widget, with what it shows.
#[derive(Debug, PartialEq, Eq)]
pub enum ElementKind {
    /// An input field, by its label and its value as they were declared.
    Input { label: String, value: String },
    /// A button, by its text as it is drawn.
    Button { label: String, active: bool },
    /// A title, by its text as it is drawn.
    Title(String),
}

/// What an [`ElementKind`] stands for, with its texts as sequences of
/// characters.
pub ghost enum ElementKindView {
    Input { label: Seq<char>, value: Seq<char> },
    Button { label: Seq<char>, active: bool },
    Title(Seq<char>),
}

impl View for ElementKind {
    type V = ElementKindView;

    open spec fn view(&self) -> ElementKindView {
        match self {
            ElementKind::Input { label, value } => ElementKindView::Input {
                label: label@,
                value: value@,
            },
            ElementKind::Button { label, active } => ElementKindView::Button {
                label: label@,
                active: *active,
            },
            ElementKind::Title(text) => ElementKindView::Title(text@),
        }
    }
}

impl Clone for ElementKind {
    fn clone(&self) -> (copy: ElementKind)
        ensures
            copy == *self,
    {
        match self {
            ElementKind::Input { label, value } => ElementKind::Input {
                label: label.clone(),
                value: value.clone(),
            },
            ElementKind::Button { label, active } => ElementKind::Button {
                label: label.clone(),
                active: *active,
            },
            ElementKind::Title(text) => ElementKind::Title(text.clone()),
        }
    }
}

/// One widget of the current frame.
#[derive(Debug, PartialEq, Eq)]
pub struct Element {
    pub kind: ElementKind,
    /// Where the first character of the widget is drawn.
    pub pos: Pos,
    /// The number of cells that the widget takes, decorations included.
    pub width: i32,
    /// Whether the focus cursor can rest on the widget.
    pub focusable: bool,
}

/// What an [`Element`] stands for.
pub ghost struct ElementView {
    pub kind: ElementKindView,
    pub pos: Pos,
    pub width: int,
    pub focusable: bool,
}

impl View for Element {
    type V = ElementView;

    open spec fn view(&self) -> ElementView {
        ElementView {
            kind: self.kind@,
            pos: self.pos,
            width: self.width as int,
            focusable: self.focusable,
        }
    }
}

impl Clone for Element {
    fn clone(&self) -> (copy: Element)
        ensures
            copy == *self,
    {
        Element {
            kind: self.kind.clone(),
            pos: self.pos,
            width: self.width,
            focusable: self.focusable,
        }
    }
}

/// The views of a list of elements, in order.
pub open spec fn element_views(elements: Seq<Element>) -> Seq<ElementView> {
    Seq::new(elements.len(), |i: int| elements[i]@)
}

} // verus!
