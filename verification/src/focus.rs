//! The focus navigator: directional queries over the elements of the frame
//! and the update of the focus cursor.

use vstd::prelude::*;
use crate::app::{App, AppView};
use crate::element::{element_views, Element, ElementView};
use crate::geometry::Pos;

verus! {

/// A direction in which the focus can be moved.
#[derive(Debug, PartialEq, Eq, Clone, Copy, Structural)]
pub enum Direction {
    Up,
    Down,
    Left,
    Right,
}

/// Whether `element` is a candidate for a move from `cursor` in direction
/// `dir`. Up and down look for focusable elements on rows above or below;
/// right looks for focusable elements further right on the cursor's row;
/// left looks for any element further left on the cursor's row, focusable
/// or not.
pub open spec fn reachable(element: ElementView, cursor: Pos, dir: Direction) -> bool {
    match dir {
        Direction::Up => element.pos.1 < cursor.1 && element.focusable,
        Direction::Down => element.pos.1 > cursor.1 && element.focusable,
        Direction::Left => element.pos.1 == cursor.1 && element.pos.0 < cursor.0,
        Direction::Right => element.pos.1 == cursor.1 && element.pos.0 > cursor.0
            && element.focusable,
    }
}

/// [`reachable`] from a given cursor in a given direction, as a predicate
/// on elements.
pub open spec fn reaches(cursor: Pos, dir: Direction) -> spec_fn(ElementView) -> bool {
    |element: ElementView| reachable(element, cursor, dir)
}

/// Whether an element can take the focus, as a predicate on elements.
pub open spec fn takes_focus() -> spec_fn(ElementView) -> bool {
    |element: ElementView| element.focusable
}

/// The candidates of a move from `cursor` in direction `dir`, best first:
/// the reachable elements in the order of their declaration, but for a move
/// up in the reverse of that order.
pub open spec fn candidates(
    elements: Seq<ElementView>,
    cursor: Pos,
    dir: Direction,
) -> Seq<ElementView> {
    let kept = elements.filter(reaches(cursor, dir));
    if dir == Direction::Up {
        kept.reverse()
    } else {
        kept
    }
}

/// The position of the first of `found`, or `cursor` when there is none.
pub open spec fn first_or(found: Seq<ElementView>, cursor: Pos) -> Pos {
    if found.len() > 0 {
        found[0].pos
    } else {
        cursor
    }
}

/// Whether the focusable elements were declared from the top down: none of
/// them stands on a row above one that was declared before it.
pub open spec fn declared_top_down(elements: Seq<ElementView>) -> bool {
    forall|i: int, j: int|
        0 <= i < j < elements.len() && elements[i].focusable && elements[j].focusable
            ==> elements[i].pos.1 <= elements[j].pos.1
}

impl AppView {
    /// The engine after a directional query: its candidates are those of a
    /// move from the focus cursor in direction `dir`.
    pub open spec fn aimed(self, dir: Direction) -> AppView {
        AppView { candidates: candidates(self.elements, self.cursor, dir), ..self }
    }

    /// The engine after the focus update: the focus cursor is on the first
    /// candidate, or where it was when there is no candidate.
    pub open spec fn focus_updated(self) -> AppView {
        AppView { cursor: first_or(self.candidates, self.cursor), ..self }
    }

    /// The engine with the focus cursor on the first focusable element that
    /// was declared, or where it was when no element is focusable.
    pub open spec fn first_focused(self) -> AppView {
        AppView { cursor: first_or(self.elements.filter(takes_focus()), self.cursor), ..self }
    }

    /// The engine after a whole navigation command: the query in direction
    /// `dir`, then the focus update.
    pub open spec fn navigated(self, dir: Direction) -> AppView {
        self.aimed(dir).focus_updated()
    }
}

/// The first element that a filter keeps is the first element of the
/// sequence that satisfies the predicate. Returns its index.
pub proof fn lemma_filter_first<A>(s: Seq<A>, pred: spec_fn(A) -> bool) -> (k: int)
    requires
        s.filter(pred).len() > 0,
    ensures
        0 <= k < s.len(),
        pred(s[k]),
        s.filter(pred)[0] == s[k],
        forall|j: int| 0 <= j < k ==> !pred(s[j]),
    decreases s.len(),
{
    reveal(Seq::filter);
    let front = s.drop_last();
    if front.filter(pred).len() > 0 {
        let k = lemma_filter_first(front, pred);
        assert forall|j: int| 0 <= j < k implies !pred(s[j]) by {
            assert(front[j] == s[j]);
        }
        k
    } else {
        assert forall|j: int| 0 <= j < s.len() - 1 implies !pred(s[j]) by {
            if pred(front[j]) {
                front.lemma_filter_contains(pred, j);
            }
        }
        s.len() - 1
    }
}

/// Every candidate of a move is an element of the frame that is reachable
/// in that direction.
pub proof fn lemma_candidates_are_elements(
    elements: Seq<ElementView>,
    cursor: Pos,
    dir: Direction,
)
    ensures
        forall|i: int|
            #![trigger candidates(elements, cursor, dir)[i]]
            0 <= i < candidates(elements, cursor, dir).len() ==> {
                &&& elements.contains(candidates(elements, cursor, dir)[i])
                &&& reachable(candidates(elements, cursor, dir)[i], cursor, dir)
            },
{
    let pred = reaches(cursor, dir);
    let kept = elements.filter(pred);
    let found = candidates(elements, cursor, dir);
    assert forall|i: int| 0 <= i < found.len() implies elements.contains(#[trigger] found[i])
        && reachable(found[i], cursor, dir) by {
        let k = if dir == Direction::Up {
            kept.len() - 1 - i
        } else {
            i
        };
        elements.lemma_filter_pred(pred, k);
        elements.lemma_filter_contains_rev(pred, kept[k]);
    }
}

/// After a navigation command in any direction the focus cursor is where it
/// was, which is the case when there is no candidate, or on the position
/// of an element of the frame.
pub proof fn lemma_focus_stays_on_elements(app: AppView, dir: Direction)
    ensures
        app.navigated(dir).elements == app.elements,
        candidates(app.elements, app.cursor, dir).len() == 0 ==> app.navigated(dir).cursor
            == app.cursor,
        app.navigated(dir).cursor == app.cursor || exists|i: int|
            0 <= i < app.elements.len() && app.elements[i].pos == app.navigated(dir).cursor,
{
    if candidates(app.elements, app.cursor, dir).len() > 0 {
        lemma_candidates_are_elements(app.elements, app.cursor, dir);
        let first = candidates(app.elements, app.cursor, dir)[0];
        let i = choose|i: int| 0 <= i < app.elements.len() && app.elements[i] == first;
        assert(app.elements[i].pos == app.navigated(dir).cursor);
    }
}

/// From a focused element with a focusable element below it, a move down
/// followed by a move up brings the focus cursor to the row it started
/// from or to a row above it, provided that the focusable elements were
/// declared from the top down. The move down itself ends strictly below.
pub proof fn lemma_down_then_up(app: AppView)
    requires
        exists|i: int|
            0 <= i < app.elements.len() && app.elements[i].focusable && app.elements[i].pos
                == app.cursor,
        exists|i: int|
            0 <= i < app.elements.len() && app.elements[i].focusable && app.elements[i].pos.1
                > app.cursor.1,
        declared_top_down(app.elements),
    ensures
        app.navigated(Direction::Down).cursor.1 > app.cursor.1,
        app.navigated(Direction::Down).navigated(Direction::Up).cursor.1 <= app.cursor.1,
{
    let elements = app.elements;
    // The move down ends on the first element below the starting row.
    let down = reaches(app.cursor, Direction::Down);
    let below = choose|i: int|
        0 <= i < elements.len() && elements[i].focusable && elements[i].pos.1 > app.cursor.1;
    elements.lemma_filter_contains(down, below);
    let k = lemma_filter_first(elements, down);
    let lower = app.navigated(Direction::Down);
    assert(lower.cursor == elements[k].pos);
    // The move up has the element that was focused among its candidates and
    // ends on the last of them.
    let up = reaches(lower.cursor, Direction::Up);
    let focused = choose|i: int|
        0 <= i < elements.len() && elements[i].focusable && elements[i].pos == app.cursor;
    elements.lemma_filter_contains(up, focused);
    let winner = elements.filter(up).last();
    elements.lemma_filter_pred(up, elements.filter(up).len() - 1);
    elements.lemma_filter_contains_rev(up, winner);
    // Were it below the starting row, it would have been declared after the
    // element the move down ended on, and yet stand above it.
    let m = choose|m: int| 0 <= m < elements.len() && elements[m] == winner;
    assert(winner.pos.1 > app.cursor.1 ==> k <= m);
}

/// Whether `element` is a candidate for a move from `cursor` in direction
/// `dir`.
fn is_reachable(element: &Element, cursor: Pos, dir: Direction) -> (hit: bool)
    ensures
        hit == reachable(element@, cursor, dir),
{
    match dir {
        Direction::Up => element.pos.1 < cursor.1 && element.focusable,
        Direction::Down => element.pos.1 > cursor.1 && element.focusable,
        Direction::Left => element.pos.1 == cursor.1 && element.pos.0 < cursor.0,
        Direction::Right => element.pos.1 == cursor.1 && element.pos.0 > cursor.0
            && element.focusable,
    }
}

/// The elements of `list` in reverse order.
fn reversed(list: &Vec<Element>) -> (out: Vec<Element>)
    ensures
        element_views(out@) == element_views(list@).reverse(),
{
    let mut out: Vec<Element> = Vec::new();
    let mut left: usize = list.len();
    while left > 0
        invariant
            left <= list.len(),
            out.len() == list.len() - left,
            forall|i: int| 0 <= i < out.len() ==> out[i]@ == list[list.len() - 1 - i]@,
        decreases left,
    {
        left = left - 1;
        out.push(list[left].clone());
    }
    out
}

impl App {
    /// Collects the candidates of a move in direction `dir`.
    pub fn aim(&mut self, dir: Direction)
        ensures
            final(self)@ == old(self)@.aimed(dir),
    {
        let ghost all = self@.elements;
        let ghost pred = reaches(self.cursor, dir);
        let mut found: Vec<Element> = Vec::new();
        let mut i: usize = 0;
        assert(all.take(0).filter(pred) =~= Seq::empty()) by {
            reveal(Seq::filter);
        }
        while i < self.elements.len()
            invariant
                i <= self.elements.len(),
                all == element_views(self.elements@),
                pred == reaches(self.cursor, dir),
                element_views(found@) == all.take(i as int).filter(pred),
            decreases self.elements.len() - i,
        {
            let ghost before = element_views(found@);
            if is_reachable(&self.elements[i], self.cursor, dir) {
                found.push(self.elements[i].clone());
                assert(element_views(found@) =~= before.push(all[i as int]));
            }
            proof {
                reveal(Seq::filter);
                assert(all.take(i + 1).drop_last() =~= all.take(i as int));
            }
            i = i + 1;
        }
        assert(all.take(i as int) =~= all);
        if dir == Direction::Up {
            found = reversed(&found);
        }
        self.focusabled_elements = found;
    }

    /// Collects the candidates of a move up: the focusable elements on rows
    /// above the focus cursor, the last declared first.
    pub fn move_up(&mut self)
        ensures
            final(self)@ == old(self)@.aimed(Direction::Up),
    {
        self.aim(Direction::Up);
    }

    /// Collects the candidates of a move down: the focusable elements on
    /// rows below the focus cursor, in the order of declaration.
    pub fn move_down(&mut self)
        ensures
            final(self)@ == old(self)@.aimed(Direction::Down),
    {
        self.aim(Direction::Down);
    }

    /// Collects the candidates of a move left: the elements on the row of
    /// the focus cursor and left of it, focusable or not, in the order of
    /// declaration.
    pub fn move_left(&mut self)
        ensures
            final(self)@ == old(self)@.aimed(Direction::Left),
    {
        self.aim(Direction::Left);
    }

    /// Collects the candidates of a move right: the focusable elements on
    /// the row of the focus cursor and right of it, in the order of
    /// declaration.
    pub fn move_right(&mut self)
        ensures
            final(self)@ == old(self)@.aimed(Direction::Right),
    {
        self.aim(Direction::Right);
    }

    /// Moves the focus cursor to the first candidate of the last query.
    /// Without a candidate the focus cursor stays where it is.
    pub fn update_focus(&mut self)
        ensures
            final(self)@ == old(self)@.focus_updated(),
    {
        if self.focusabled_elements.len() == 0 {
            return ;
        }
        self.cursor = self.focusabled_elements[0].pos;
    }

    /// Moves the focus cursor to the first focusable element that was
    /// declared, whatever `_index` is. Without a focusable element the
    /// focus cursor stays where it is.
    pub fn focus_element(&mut self, _index: usize)
        ensures
            final(self)@ == old(self)@.first_focused(),
    {
        let ghost all = self@.elements;
        let mut i: usize = 0;
        while i < self.elements.len()
            invariant
                i <= self.elements.len(),
                all == element_views(self.elements@),
                self@ == old(self)@,
                forall|j: int| 0 <= j < i ==> !all[j].focusable,
            decreases self.elements.len() - i,
        {
            if self.elements[i].focusable {
                proof {
                    all.lemma_filter_contains(takes_focus(), i as int);
                    let k = lemma_filter_first(all, takes_focus());
                }
                self.cursor = self.elements[i].pos;
                return ;
            }
            i = i + 1;
        }
        proof {
            if all.filter(takes_focus()).len() > 0 {
                let k = lemma_filter_first(all, takes_focus());
            }
        }
    }
}

} // verus!
