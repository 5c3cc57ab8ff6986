//! The frame controller: what happens at the start and at the end of every
//! frame, and what a key does.

use vstd::prelude::*;
use crate::app::{key_char, App, AppView};
use crate::focus::Direction;
use crate::geometry::{fits_i32, Screen};
use crate::panel::{lemma_actions_fit_by_panel, lemma_actions_rendered_keeps};

verus! {

/// What the frame loop carries from one frame to the next, besides the
/// engine itself.
#[derive(Debug)]
pub struct Session {
    /// Whether the loop has been asked to end.
    pub quit: bool,
    /// Whether a frame has been completed before.
    pub started: bool,
    /// The one-based number of the active action, if one was selected.
    pub active_action: Option<usize>,
    /// The notification shown under the panel.
    pub notification: String,
}

/// A [`Session`] with its notification as a sequence of characters.
pub ghost struct SessionView {
    pub quit: bool,
    pub started: bool,
    pub active_action: Option<usize>,
    pub notification: Seq<char>,
}

impl View for Session {
    type V = SessionView;

    open spec fn view(&self) -> SessionView {
        SessionView {
            quit: self.quit,
            started: self.started,
            active_action: self.active_action,
            notification: self.notification@,
        }
    }
}

/// The direction that a key asks for: `k` up, `j` down, `h` left, `l` right.
pub open spec fn direction_of(c: char) -> Option<Direction> {
    if c == 'k' {
        Some(Direction::Up)
    } else if c == 'j' {
        Some(Direction::Down)
    } else if c == 'h' {
        Some(Direction::Left)
    } else if c == 'l' {
        Some(Direction::Right)
    } else {
        None
    }
}

/// The value of a hexadecimal digit, in either case; nothing for any other
/// character.
pub open spec fn hex_value(c: char) -> Option<usize> {
    let code = c as int;
    if 48 <= code <= 57 {
        Some((code - 48) as usize)
    } else if 97 <= code <= 102 {
        Some((code - 87) as usize)
    } else if 65 <= code <= 70 {
        Some((code - 55) as usize)
    } else {
        None
    }
}

impl SessionView {
    /// The session before the first frame.
    pub open spec fn initial() -> SessionView {
        SessionView { quit: false, started: false, active_action: None, notification: Seq::empty() }
    }

    /// The session after the key `c` has been handled while `actions`
    /// actions are on offer. A direction key leaves the session alone. A
    /// hexadecimal digit selects the action of that number if the number
    /// is at most `actions`, and does nothing otherwise. Any other key
    /// clears the notification, and `q` among them asks the loop to end.
    pub open spec fn char_handled(self, c: char, actions: nat) -> SessionView {
        if direction_of(c) is Some {
            self
        } else {
            match hex_value(c) {
                Some(number) => if number <= actions {
                    SessionView { active_action: Some(number), ..self }
                } else {
                    self
                },
                None => SessionView {
                    notification: Seq::empty(),
                    quit: self.quit || c == 'q',
                    ..self
                },
            }
        }
    }

    /// The session after the waiting key, if there is one, has been
    /// handled.
    pub open spec fn key_handled(self, key: Option<i32>, actions: nat) -> SessionView {
        match key {
            Some(raw) => self.char_handled(key_char(raw), actions),
            None => self,
        }
    }

    /// The session at the end of a frame: the waiting key has been handled
    /// and a frame has been completed.
    pub open spec fn frame_ended(self, key: Option<i32>, actions: nat) -> SessionView {
        SessionView { started: true, ..self.key_handled(key, actions) }
    }
}

impl AppView {
    /// The engine after the waiting key, if there is one, has been
    /// handled: the key is consumed, and a direction key collects the
    /// candidates of a move in its direction.
    pub open spec fn key_handled(self) -> AppView {
        match self.key {
            Some(raw) => {
                let taken = AppView { key: None, ..self };
                match direction_of(key_char(raw)) {
                    Some(dir) => taken.aimed(dir),
                    None => taken,
                }
            },
            None => self,
        }
    }

    /// The engine with its panel centered on a terminal that is
    /// `terminal_width` cells wide.
    pub open spec fn centered(self, terminal_width: int) -> AppView {
        AppView {
            screen: Screen {
                x: self.screen.centered_column(terminal_width) as i32,
                ..self.screen
            },
            ..self
        }
    }

    /// Whether a frame can be begun on a terminal of that width: the
    /// centered panel and its right border fit in an `i32`.
    pub open spec fn frame_fits(self, terminal_width: int) -> bool {
        &&& fits_i32(terminal_width - self.screen.width)
        &&& self.screen.height > 1 ==> fits_i32(self.centered(terminal_width).right_border())
    }

    /// The engine at the start of a frame: the panel is centered, the last
    /// frame is discarded, the border is drawn, and on the first frame the
    /// focus cursor is put on the first interior cell.
    pub open spec fn frame_begun(self, terminal_width: int, started: bool) -> AppView {
        let ready = self.centered(terminal_width).cleared().bordered();
        if started {
            ready
        } else {
            AppView { cursor: ready.render_cursor, ..ready }
        }
    }

    /// The engine at the end of a frame whose widgets have been declared:
    /// on the first frame the focus cursor goes to the first focusable
    /// element; the action row is rendered; the waiting key is handled;
    /// the focus cursor follows the candidates.
    pub open spec fn frame_ended(self, session: SessionView) -> AppView {
        let focused = if session.started {
            self
        } else {
            self.first_focused().focus_updated()
        };
        focused.actions_rendered(session.active_action).key_handled().focus_updated()
    }
}

/// The direction that a key asks for.
pub fn direction(c: char) -> (dir: Option<Direction>)
    ensures
        dir == direction_of(c),
{
    if c == 'k' {
        Some(Direction::Up)
    } else if c == 'j' {
        Some(Direction::Down)
    } else if c == 'h' {
        Some(Direction::Left)
    } else if c == 'l' {
        Some(Direction::Right)
    } else {
        None
    }
}

/// The value of a hexadecimal digit.
pub fn hex_digit(c: char) -> (value: Option<usize>)
    ensures
        value == hex_value(c),
{
    let code: u32 = c as u32;
    if 48 <= code && code <= 57 {
        Some((code - 48) as usize)
    } else if 97 <= code && code <= 102 {
        Some((code - 87) as usize)
    } else if 65 <= code && code <= 70 {
        Some((code - 55) as usize)
    } else {
        None
    }
}

impl Session {
    /// The session before the first frame.
    pub fn new() -> (session: Session)
        ensures
            session@ == SessionView::initial(),
    {
        Session { quit: false, started: false, active_action: None, notification: String::new() }
    }
}

impl App {
    /// Handles the waiting key, if there is one.
    pub fn handle_key(&mut self, session: &mut Session)
        ensures
            final(self)@ == old(self)@.key_handled(),
            final(session)@ == old(session)@.key_handled(
                old(self).key,
                old(self)@.actions.len(),
            ),
    {
        match self.get_key_char() {
            Some(key) => {
                if key == 'k' {
                    self.move_up();
                } else if key == 'j' {
                    self.move_down();
                } else if key == 'l' {
                    self.move_right();
                } else if key == 'h' {
                    self.move_left();
                } else {
                    match hex_digit(key) {
                        Some(number) => {
                            if number <= self.actions.len() {
                                session.active_action = Some(number);
                            }
                        },
                        None => {
                            session.notification = String::new();
                            if key == 'q' {
                                session.quit = true;
                            }
                        },
                    }
                }
            },
            None => {},
        }
    }

    /// Whether a frame can be begun on a terminal that is `terminal_width`
    /// cells wide.
    pub fn frame_fits(&self, terminal_width: i32) -> (ok: bool)
        ensures
            ok == self@.frame_fits(terminal_width as int),
    {
        let d: i64 = terminal_width as i64 - self.screen.width as i64;
        if d < -0x8000_0000 || d > 0x7fff_ffff {
            return false;
        }
        if self.screen.height <= 1 {
            return true;
        }
        let right: i64 = d / 2 + self.screen.width as i64 + 1;
        -0x8000_0000 <= right && right <= 0x7fff_ffff
    }

    /// Begins a frame on a terminal that is `terminal_width` cells wide.
    /// `started` tells whether a frame has been completed before.
    pub fn begin_frame(&mut self, terminal_width: i32, started: bool)
        requires
            old(self)@.frame_fits(terminal_width as int),
        ensures
            final(self)@ == old(self)@.frame_begun(terminal_width as int, started),
    {
        self.screen.center(terminal_width);
        self.reset();
        self.render_container();
        if !started {
            self.cursor = self.render_cursor;
        }
    }

    /// Ends a frame whose widgets have been declared.
    pub fn end_frame(&mut self, session: &mut Session)
        requires
            old(self)@.actions_fit(),
        ensures
            final(self)@ == old(self)@.frame_ended(old(session)@),
            final(session)@ == old(session)@.frame_ended(
                old(self).key,
                old(self)@.actions.len(),
            ),
    {
        if !session.started {
            self.focus_element(0);
            self.update_focus();
        }
        proof {
            lemma_actions_fit_by_panel(old(self)@, self@);
            lemma_actions_rendered_keeps(self@, session.active_action);
        }
        self.render_actions(session.active_action);
        self.handle_key(session);
        self.update_focus();
        session.started = true;
    }
}

} // verus!
