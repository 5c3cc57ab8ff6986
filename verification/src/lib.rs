//! An immediate-mode terminal widget engine.
//!
//! Every frame the caller declares a bordered panel with a title, input
//! fields and a row of action buttons. Each declaration places the widget at
//! the render cursor, records it in the frame's element list and appends the
//! matching commands to the frame's draw list. Directional keys move the
//! focus cursor between the recorded elements by comparing screen positions.
//!
//! The library never touches a terminal: the draw list is handed to whatever
//! surface the caller drives. For a curses terminal each text style comes
//! with the attribute to switch on around the text.

pub mod app;
pub mod declarations;
pub mod draw;
pub mod element;
pub mod focus;
pub mod frame;
pub mod geometry;
pub mod panel;
pub mod text;
pub mod widgets;

pub use app::{App, AppView, Mode};
pub use declarations::Declaration;
pub use draw::{DrawCmd, DrawView, Glyph, Style, HIGHLIGHT_PAIR, REGULAR_PAIR};
pub use element::{Element, ElementKind, ElementKindView, ElementView};
pub use focus::Direction;
pub use frame::{Session, SessionView};
pub use geometry::{Pos, Screen};
