//! Whole frames as sequences of declarations, and what holds of every
//! frame.

use vstd::prelude::*;
use crate::app::AppView;
use crate::focus::{declared_top_down, lemma_down_then_up, Direction};
use crate::frame::SessionView;
use crate::panel::lemma_actions_rendered_keeps;

verus! {

/// One widget declaration of a frame, or a row break between two of them.
pub ghost enum Declaration {
    Title { text: Seq<char> },
    Input { label: Seq<char>, value: Seq<char>, width: Option<usize> },
    Button { label: Seq<char>, size: Option<usize>, active: bool },
    NextRow,
}

impl AppView {
    /// The engine after one declaration.
    pub open spec fn declared(self, declaration: Declaration) -> AppView {
        match declaration {
            Declaration::Title { text } => self.title_declared(text),
            Declaration::Input { label, value, width } => self.input_declared(label, value, width),
            Declaration::Button { label, size, active } => self.button_declared(
                label,
                size,
                active,
            ),
            Declaration::NextRow => self.row_advanced(),
        }
    }

    /// The engine after a sequence of declarations, made in order.
    pub open spec fn declared_all(self, declarations: Seq<Declaration>) -> AppView
        decreases declarations.len(),
    {
        if declarations.len() == 0 {
            self
        } else {
            self.declared_all(declarations.drop_last()).declared(declarations.last())
        }
    }

    /// The engine after a whole frame on a terminal that is
    /// `terminal_width` cells wide: the frame is begun, the declarations
    /// are made, the frame is ended.
    pub open spec fn frame(
        self,
        session: SessionView,
        terminal_width: int,
        declarations: Seq<Declaration>,
    ) -> AppView {
        self.frame_begun(terminal_width, session.started).declared_all(declarations).frame_ended(
            session,
        )
    }

    /// Whether two engines show the same: the same panel with the same
    /// actions, the same elements and the same draw list, and the render
    /// cursor at the same place.
    pub open spec fn same_picture(self, other: AppView) -> bool {
        &&& self.screen == other.screen
        &&& self.actions == other.actions
        &&& self.elements == other.elements
        &&& self.draws == other.draws
        &&& self.render_cursor == other.render_cursor
    }
}

/// Declarations made on two engines that show the same, with the focus
/// cursor at the same place, leave them showing the same.
pub proof fn lemma_declared_all_same_picture(
    a: AppView,
    b: AppView,
    declarations: Seq<Declaration>,
)
    requires
        a.same_picture(b),
        a.cursor == b.cursor,
    ensures
        a.declared_all(declarations).same_picture(b.declared_all(declarations)),
        a.declared_all(declarations).cursor == b.declared_all(declarations).cursor,
    decreases declarations.len(),
{
    if declarations.len() > 0 {
        lemma_declared_all_same_picture(a, b, declarations.drop_last());
    }
}

/// Action columns rendered on two engines that show the same leave them
/// showing the same, wherever their focus cursors are.
pub proof fn lemma_columns_rendered_same_picture(
    a: AppView,
    b: AppView,
    n: nat,
    active: Option<usize>,
)
    requires
        a.same_picture(b),
    ensures
        a.columns_rendered(n, active).same_picture(b.columns_rendered(n, active)),
    decreases n,
{
    if n > 0 {
        lemma_columns_rendered_same_picture(a, b, (n - 1) as nat, active);
    }
}

/// A frame draws the same whenever it is repeated: with the same terminal
/// width, the same declarations and the same active action, two frames
/// produce the same draw list and the same elements if the panel has the
/// same size and the same actions and, after the first frame, the focus
/// cursor is at the same place. What an earlier frame left in the element
/// list, the draw list, the render cursor or the candidates, and which key
/// waits, makes no difference.
pub proof fn lemma_frame_repeats(
    a: AppView,
    b: AppView,
    s: SessionView,
    t: SessionView,
    terminal_width: int,
    declarations: Seq<Declaration>,
)
    requires
        a.screen.width == b.screen.width,
        a.screen.height == b.screen.height,
        a.screen.y == b.screen.y,
        a.actions == b.actions,
        s.started == t.started,
        s.started ==> a.cursor == b.cursor,
        s.active_action == t.active_action,
    ensures
        a.frame(s, terminal_width, declarations).draws == b.frame(
            t,
            terminal_width,
            declarations,
        ).draws,
        a.frame(s, terminal_width, declarations).elements == b.frame(
            t,
            terminal_width,
            declarations,
        ).elements,
{
    let a0 = a.frame_begun(terminal_width, s.started);
    let b0 = b.frame_begun(terminal_width, t.started);
    lemma_declared_all_same_picture(a0, b0, declarations);
    let a1 = a0.declared_all(declarations);
    let b1 = b0.declared_all(declarations);
    let a2 = if s.started {
        a1
    } else {
        a1.first_focused().focus_updated()
    };
    let b2 = if t.started {
        b1
    } else {
        b1.first_focused().focus_updated()
    };
    lemma_columns_rendered_same_picture(a2, b2, a2.actions.len(), s.active_action);
}

/// A frame leaves the size of the panel, its row and the actions as they
/// were, and puts the panel at the column that centers it.
pub proof fn lemma_frame_keeps_panel(
    app: AppView,
    session: SessionView,
    terminal_width: int,
    declarations: Seq<Declaration>,
)
    ensures
        app.frame(session, terminal_width, declarations).screen == app.centered(
            terminal_width,
        ).screen,
        app.frame(session, terminal_width, declarations).actions == app.actions,
{
    let begun = app.frame_begun(terminal_width, session.started);
    lemma_declared_all_keeps_panel(begun, declarations);
    let declared = begun.declared_all(declarations);
    let focused = if session.started {
        declared
    } else {
        declared.first_focused().focus_updated()
    };
    lemma_actions_rendered_keeps(focused, session.active_action);
}

/// Declarations leave the panel and the actions as they were.
pub proof fn lemma_declared_all_keeps_panel(app: AppView, declarations: Seq<Declaration>)
    ensures
        app.declared_all(declarations).screen == app.screen,
        app.declared_all(declarations).actions == app.actions,
    decreases declarations.len(),
{
    if declarations.len() > 0 {
        lemma_declared_all_keeps_panel(app, declarations.drop_last());
    }
}

/// A frame starts with its render cursor on an interior cell of the panel,
/// if the panel has an interior row.
pub proof fn lemma_frame_starts_inside(app: AppView, terminal_width: int, started: bool)
    requires
        app.screen.wf(),
        app.screen.height >= 2,
        app.frame_fits(terminal_width),
    ensures
        app.frame_begun(terminal_width, started).screen.encloses(
            app.frame_begun(terminal_width, started).render_cursor,
        ),
{
}

impl AppView {
    /// Whether the frame has been laid out from the top down so far: the
    /// focusable elements were declared from the top down and none of them
    /// stands below the row of the render cursor.
    pub open spec fn laid_out_top_down(self) -> bool {
        &&& declared_top_down(self.elements)
        &&& forall|i: int|
            0 <= i < self.elements.len() && self.elements[i].focusable ==> self.elements[i].pos.1
                <= self.render_cursor.1
    }
}

/// A declaration keeps a frame laid out from the top down, and takes the
/// render cursor down by one row at most.
pub proof fn lemma_declared_top_down(app: AppView, declaration: Declaration)
    requires
        app.laid_out_top_down(),
        app.render_cursor.1 < i32::MAX,
    ensures
        app.declared(declaration).laid_out_top_down(),
        app.render_cursor.1 <= app.declared(declaration).render_cursor.1 <= app.render_cursor.1
            + 1,
{
}

/// Declarations keep a frame laid out from the top down.
pub proof fn lemma_declared_all_top_down(app: AppView, declarations: Seq<Declaration>)
    requires
        app.laid_out_top_down(),
        app.render_cursor.1 + declarations.len() <= i32::MAX,
    ensures
        app.declared_all(declarations).laid_out_top_down(),
        app.declared_all(declarations).render_cursor.1 <= app.render_cursor.1
            + declarations.len(),
    decreases declarations.len(),
{
    if declarations.len() > 0 {
        lemma_declared_all_top_down(app, declarations.drop_last());
        lemma_declared_top_down(
            app.declared_all(declarations.drop_last()),
            declarations.last(),
        );
    }
}

/// The action row adds no focusable element: it leaves the focusable
/// elements declared from the top down.
pub proof fn lemma_columns_rendered_top_down(app: AppView, n: nat, active: Option<usize>)
    requires
        declared_top_down(app.elements),
    ensures
        declared_top_down(app.columns_rendered(n, active).elements),
    decreases n,
{
    if n > 0 {
        lemma_columns_rendered_top_down(app, (n - 1) as nat, active);
    }
}

/// The focusable elements of a whole frame were declared from the top
/// down, whatever was declared in it.
pub proof fn lemma_frame_top_down(
    app: AppView,
    session: SessionView,
    terminal_width: int,
    declarations: Seq<Declaration>,
)
    requires
        declarations.len() < i32::MAX,
    ensures
        declared_top_down(app.frame(session, terminal_width, declarations).elements),
{
    let begun = app.frame_begun(terminal_width, session.started);
    lemma_declared_all_top_down(begun, declarations);
    let declared = begun.declared_all(declarations);
    let focused = if session.started {
        declared
    } else {
        declared.first_focused().focus_updated()
    };
    lemma_columns_rendered_top_down(focused, focused.actions.len(), session.active_action);
}

/// In the elements of a whole frame, from a focused element with a
/// focusable element below it, a move down followed by a move up brings
/// the focus cursor to the row it started from or to a row above it.
pub proof fn lemma_down_then_up_in_frame(
    app: AppView,
    session: SessionView,
    terminal_width: int,
    declarations: Seq<Declaration>,
)
    requires
        declarations.len() < i32::MAX,
        ({
            let shown = app.frame(session, terminal_width, declarations);
            &&& exists|i: int|
                0 <= i < shown.elements.len() && shown.elements[i].focusable
                    && shown.elements[i].pos == shown.cursor
            &&& exists|i: int|
                0 <= i < shown.elements.len() && shown.elements[i].focusable
                    && shown.elements[i].pos.1 > shown.cursor.1
        }),
    ensures
        ({
            let shown = app.frame(session, terminal_width, declarations);
            shown.navigated(Direction::Down).navigated(Direction::Up).cursor.1 <= shown.cursor.1
        }),
{
    lemma_frame_top_down(app, session, terminal_width, declarations);
    lemma_down_then_up(app.frame(session, terminal_width, declarations));
}

} // verus!
