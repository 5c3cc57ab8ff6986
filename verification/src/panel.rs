//! The panel border and the row of action buttons at its bottom.

use vstd::prelude::*;
use crate::app::{App, AppView};
use crate::draw::{DrawCmd, DrawView, Glyph, Style};
use crate::geometry::{fits_i32, Pos};
use crate::text::{hint_text, lemma_button_len};

verus! {

/// `n` horizontal border glyphs; none when `n` is not positive.
pub open spec fn horizontal_run(n: int) -> Seq<DrawView> {
    Seq::new(
        if n > 0 {
            n as nat
        } else {
            0
        },
        |i: int| DrawView::Glyph(Glyph::Horizontal),
    )
}

impl AppView {
    /// A horizontal edge of the border on `row`: a corner, one horizontal
    /// glyph for each interior column, and the other corner.
    pub open spec fn border_edge(self, row: i32, left: Glyph, right: Glyph) -> Seq<DrawView> {
        seq![DrawView::MoveTo { row, col: self.screen.x }, DrawView::Glyph(left)] + horizontal_run(
            self.screen.width as int,
        ) + seq![DrawView::Glyph(right)]
    }

    /// A vertical side of the border in column `col`: one vertical glyph on
    /// each of the rows 1 to `height - 1`, from the top down.
    pub open spec fn border_side(self, col: i32) -> Seq<DrawView> {
        Seq::new(
            if self.screen.height > 1 {
                (2 * (self.screen.height - 1)) as nat
            } else {
                0
            },
            |i: int|
                if i % 2 == 0 {
                    DrawView::MoveTo { row: (i / 2 + 1) as i32, col }
                } else {
                    DrawView::Glyph(Glyph::Vertical)
                },
        )
    }

    /// The column of the right border.
    pub open spec fn right_border(self) -> int {
        self.screen.x + self.screen.width + 1
    }

    /// The border of the panel: the top edge on row 0, the bottom edge on
    /// row `height`, then the left side and the right side.
    pub open spec fn border(self) -> Seq<DrawView> {
        self.border_edge(0, Glyph::UpperLeft, Glyph::UpperRight) + self.border_edge(
            self.screen.height,
            Glyph::LowerLeft,
            Glyph::LowerRight,
        ) + self.border_side(self.screen.x) + self.border_side(self.right_border() as i32)
    }

    /// The engine after the border has been drawn.
    pub open spec fn bordered(self) -> AppView {
        self.emit(self.border())
    }

    /// The width of one action column: the interior width divided evenly
    /// among the actions, the remainder left unused.
    pub open spec fn column_width(self) -> int {
        if self.actions.len() > 0 {
            (self.screen.width as int) / (self.actions.len() as int)
        } else {
            0
        }
    }

    /// The width of the field in which the label of an action button is
    /// centered: the column without the two brackets.
    pub open spec fn action_field(self) -> usize {
        if self.column_width() >= 2 {
            (self.column_width() - 2) as usize
        } else {
            0
        }
    }

    /// Where the button of column `i` is placed: at the left of its column,
    /// one row above the bottom edge.
    pub open spec fn column_origin(self, i: int) -> Pos {
        Pos::at(self.screen.x + self.column_width() * i + 1, self.screen.height - 1)
    }

    /// The engine after column `i` of the action row has been rendered: its
    /// button is declared at the column's origin, and the column's number
    /// is drawn dimmed one row below the button.
    pub open spec fn column_rendered(self, i: int, active: Option<usize>) -> AppView {
        let origin = self.column_origin(i);
        self.render_at(origin).button_declared(
            self.actions[i],
            Some(self.action_field()),
            action_is_active(active, i),
        ).emit(
            seq![
                DrawView::MoveTo { row: self.screen.height, col: origin.0 },
                DrawView::Text { text: hint_text(i, self.column_width()), style: Style::Dim },
            ],
        )
    }

    /// The engine after the first `n` columns of the action row have been
    /// rendered, from the left.
    pub open spec fn columns_rendered(self, n: nat, active: Option<usize>) -> AppView
        decreases n,
    {
        if n == 0 {
            self
        } else {
            self.columns_rendered((n - 1) as nat, active).column_rendered(n - 1, active)
        }
    }

    /// The engine after the action row has been rendered: every column from
    /// the left, then the draw position back at the panel's origin. With no
    /// action nothing happens.
    pub open spec fn actions_rendered(self, active: Option<usize>) -> AppView {
        if self.actions.len() == 0 {
            self
        } else {
            self.columns_rendered(self.actions.len(), active).emit(
                seq![DrawView::MoveTo { row: self.screen.y, col: self.screen.x }],
            )
        }
    }

    /// Whether column `i` of the action row can be rendered: the column of
    /// its origin fits in an `i32` and its button fits there.
    pub open spec fn column_fits(self, i: int) -> bool {
        &&& fits_i32(self.screen.x + self.column_width() * i + 1)
        &&& self.render_at(self.column_origin(i)).button_fits(
            self.actions[i],
            Some(self.action_field()),
        )
    }

    /// Whether the action row can be rendered: the panel is well formed and
    /// every column fits.
    pub open spec fn actions_fit(self) -> bool {
        &&& self.screen.wf()
        &&& forall|i: int| 0 <= i < self.actions.len() ==> self.column_fits(i)
    }
}

/// Whether the action of column `i` is the active one: the active index
/// counts from one.
pub open spec fn action_is_active(active: Option<usize>, i: int) -> bool {
    active == Some((i + 1) as usize)
}

/// The columns left of column `i` take less than the interior width.
pub proof fn lemma_columns_within_width(width: int, count: int, i: int)
    requires
        width > 0,
        0 <= i < count,
    ensures
        0 <= (width / count) * i < width,
{
    assert(0 <= (width / count) * i < width) by (nonlinear_arith)
        requires
            width > 0,
            0 <= i < count,
    ;
}

/// Whether the action row can be rendered depends on the panel and on the
/// actions alone.
pub proof fn lemma_actions_fit_by_panel(a: AppView, b: AppView)
    requires
        a.screen == b.screen,
        a.actions == b.actions,
        a.actions_fit(),
    ensures
        b.actions_fit(),
{
    assert forall|i: int| 0 <= i < b.actions.len() implies b.column_fits(i) by {
        assert(a.column_fits(i));
    }
}

/// Rendering action columns draws, records elements and moves the render
/// cursor; it leaves the rest of the engine as it was.
pub proof fn lemma_columns_rendered_keeps(app: AppView, n: nat, active: Option<usize>)
    ensures
        app.columns_rendered(n, active).key == app.key,
        app.columns_rendered(n, active).focus == app.focus,
        app.columns_rendered(n, active).mode == app.mode,
        app.columns_rendered(n, active).screen == app.screen,
        app.columns_rendered(n, active).cursor == app.cursor,
        app.columns_rendered(n, active).candidates == app.candidates,
        app.columns_rendered(n, active).actions == app.actions,
    decreases n,
{
    if n > 0 {
        lemma_columns_rendered_keeps(app, (n - 1) as nat, active);
    }
}

/// Rendering the action row draws, records elements and moves the render
/// cursor; it leaves the rest of the engine as it was.
pub proof fn lemma_actions_rendered_keeps(app: AppView, active: Option<usize>)
    ensures
        app.actions_rendered(active).key == app.key,
        app.actions_rendered(active).focus == app.focus,
        app.actions_rendered(active).mode == app.mode,
        app.actions_rendered(active).screen == app.screen,
        app.actions_rendered(active).cursor == app.cursor,
        app.actions_rendered(active).candidates == app.candidates,
        app.actions_rendered(active).actions == app.actions,
{
    lemma_columns_rendered_keeps(app, app.actions.len(), active);
}

/// The button of every action column stands on an interior cell of the
/// panel, if the panel has an interior row to spare.
pub proof fn lemma_action_buttons_inside(app: AppView, i: int, active: Option<usize>)
    requires
        app.actions_fit(),
        app.screen.height >= 2,
        0 <= i < app.actions.len(),
    ensures
        app.column_rendered(i, active).elements.last().pos == app.column_origin(i),
        app.screen.encloses(app.column_origin(i)),
{
    assert(app.column_fits(i));
    lemma_columns_within_width(app.screen.width as int, app.actions.len() as int, i);
}

impl App {
    /// Draws one horizontal edge of the border.
    fn draw_edge(&mut self, row: i32, left: Glyph, right: Glyph)
        ensures
            final(self)@ == old(self)@.emit(old(self)@.border_edge(row, left, right)),
    {
        let ghost start = self@;
        let ghost head = seq![
            DrawView::MoveTo { row, col: start.screen.x },
            DrawView::Glyph(left),
        ];
        self.emit(DrawCmd::MoveTo { row, col: self.screen.x });
        self.emit(DrawCmd::Glyph(left));
        assert(self@.draws =~= start.draws + (head + horizontal_run(0)));
        let mut i: i32 = 0;
        while i < self.screen.width
            invariant
                0 <= i,
                i == 0 || i <= self.screen.width,
                self@ == start.emit(head + horizontal_run(i as int)),
            decreases self.screen.width - i,
        {
            self.emit(DrawCmd::Glyph(Glyph::Horizontal));
            i = i + 1;
            assert(self@.draws =~= start.draws + (head + horizontal_run(i as int)));
        }
        self.emit(DrawCmd::Glyph(right));
        assert(self@.draws =~= start.draws + start.border_edge(row, left, right));
    }

    /// Draws one vertical side of the border.
    fn draw_side(&mut self, col: i32)
        ensures
            final(self)@ == old(self)@.emit(old(self)@.border_side(col)),
    {
        let ghost start = self@;
        let ghost side = start.border_side(col);
        let mut row: i32 = 1;
        while row < self.screen.height
            invariant
                1 <= row,
                row == 1 || row <= self.screen.height,
                side == start.border_side(col),
                self@ == start.emit(side.take(2 * (row - 1))),
            decreases self.screen.height - row,
        {
            self.emit(DrawCmd::MoveTo { row, col });
            self.emit(DrawCmd::Glyph(Glyph::Vertical));
            assert(self@.draws =~= start.draws + side.take(2 * row));
            row = row + 1;
        }
        assert(side.take(2 * (row - 1)) =~= side);
    }

    /// Draws the border of the panel around its interior: the corners at
    /// the four extremes, horizontal glyphs along the top and the bottom,
    /// vertical glyphs along both sides on every interior row.
    pub fn render_container(&mut self)
        requires
            old(self).screen.height > 1 ==> fits_i32(old(self)@.right_border()),
        ensures
            final(self)@ == old(self)@.bordered(),
    {
        let ghost start = self@;
        self.draw_edge(0, Glyph::UpperLeft, Glyph::UpperRight);
        self.draw_edge(self.screen.height, Glyph::LowerLeft, Glyph::LowerRight);
        self.draw_side(self.screen.x);
        if self.screen.height > 1 {
            let right: i64 = self.screen.x as i64 + self.screen.width as i64 + 1;
            self.draw_side(right as i32);
        }
        assert(self@.draws =~= start.draws + start.border());
    }

    /// Whether the action row can be rendered.
    pub fn actions_fit(&self) -> (ok: bool)
        ensures
            ok == self@.actions_fit(),
    {
        if self.screen.width <= 0 || self.screen.height <= 0 {
            return false;
        }
        let count = self.actions.len();
        if count == 0 {
            return true;
        }
        let size: usize = (self.screen.width as usize) / count;
        let field: usize = if size >= 2 {
            size - 2
        } else {
            0
        };
        let mut col: usize = 0;
        while col < count
            invariant
                col <= count,
                count == self.actions.len(),
                self.screen.wf(),
                size as int == self@.column_width(),
                field == self@.action_field(),
                forall|i: int| 0 <= i < col ==> self@.column_fits(i),
            decreases count - col,
        {
            let label: &'static str = self.actions[col];
            proof {
                lemma_columns_within_width(self.screen.width as int, count as int, col as int);
            }
            let x: i64 = self.screen.x as i64 + (size * col) as i64 + 1;
            let label_len = label.unicode_len();
            proof {
                lemma_button_len(label@, Some(field));
            }
            if x > 0x7fff_ffff || label_len > 0x7fff_ffff {
                assert(!self@.column_fits(col as int));
                return false;
            }
            let shown: u64 = if field > label_len {
                field as u64
            } else {
                label_len as u64
            };
            if shown + 2 > 0x7fff_ffff || x + shown as i64 + 2 > 0x7fff_ffff {
                assert(!self@.column_fits(col as int));
                return false;
            }
            col = col + 1;
        }
        true
    }

    /// Renders the action row: the interior width is divided evenly among
    /// the actions, each column gets the button of its action, active if
    /// `active` is its one-based number, and below the button the column's
    /// number, dimmed. The draw position ends at the panel's origin. With
    /// no action nothing is drawn.
    pub fn render_actions(&mut self, active: Option<usize>)
        requires
            old(self)@.actions_fit(),
        ensures
            final(self)@ == old(self)@.actions_rendered(active),
    {
        let count = self.actions.len();
        if count == 0 {
            return ;
        }
        let ghost start = self@;
        let size: usize = (self.screen.width as usize) / count;
        let field: usize = if size >= 2 {
            size - 2
        } else {
            0
        };
        let mut col: usize = 0;
        while col < count
            invariant
                col <= count,
                count == self.actions.len(),
                count == start.actions.len(),
                count > 0,
                start.actions_fit(),
                size as int == start.column_width(),
                field == start.action_field(),
                self@.screen == start.screen,
                self@.actions == start.actions,
                self@ == start.columns_rendered(col as nat, active),
            decreases count - col,
        {
            let ghost before = self@;
            let label: &'static str = self.actions[col];
            proof {
                assert(start.column_fits(col as int));
                lemma_columns_within_width(self.screen.width as int, count as int, col as int);
            }
            let x: i32 = self.screen.x + (size * col) as i32;
            let y: i32 = self.screen.height;
            let lit = match active {
                Some(index) => index == col + 1,
                None => false,
            };
            self.render_cursor = Pos(x + 1, y - 1);
            self.create_button(label, Some(field), lit);
            self.emit(DrawCmd::MoveTo { row: y, col: x + 1 });
            self.emit(DrawCmd::Text { text: crate::text::hint(col, size), style: Style::Dim });
            assert(self@.draws =~= before.column_rendered(col as int, active).draws);
            col = col + 1;
        }
        self.emit(DrawCmd::MoveTo { row: self.screen.y, col: self.screen.x });
    }
}

} // verus!
