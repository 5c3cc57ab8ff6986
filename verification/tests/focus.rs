use mpc_tui_rs::{App, Direction, Element, ElementKind, Pos};

fn input(label: &str, col: i32, row: i32) -> Element {
    Element {
        kind: ElementKind::Input { label: label.to_string(), value: String::new() },
        pos: Pos(col, row),
        width: 4,
        focusable: true,
    }
}

fn title(label: &str, col: i32, row: i32) -> Element {
    Element {
        kind: ElementKind::Title(label.to_string()),
        pos: Pos(col, row),
        width: 4,
        focusable: false,
    }
}

fn positions(elements: &Vec<Element>) -> Vec<Pos> {
    elements.iter().map(|e| e.pos).collect()
}

/// A title on row 1, two inputs on row 2, a title and an input on row 3, an
/// input on row 4.
fn grid() -> App {
    let mut app = App::new();
    app.elements = vec![
        title("t", 1, 1),
        input("a", 1, 2),
        input("b", 10, 2),
        title("u", 1, 3),
        input("c", 10, 3),
        input("d", 1, 4),
    ];
    app
}

#[test]
fn move_up_lists_focusable_rows_above_last_declared_first() {
    let mut app = grid();
    app.cursor = Pos(1, 4);
    app.move_up();
    assert_eq!(positions(&app.focusabled_elements), vec![Pos(10, 3), Pos(10, 2), Pos(1, 2)]);
    assert_eq!(app.cursor, Pos(1, 4));
    assert_eq!(app.elements.len(), 6);
}

#[test]
fn move_down_lists_focusable_rows_below_in_declaration_order() {
    let mut app = grid();
    app.cursor = Pos(1, 2);
    app.move_down();
    assert_eq!(positions(&app.focusabled_elements), vec![Pos(10, 3), Pos(1, 4)]);
    assert_eq!(app.cursor, Pos(1, 2));
}

#[test]
fn move_right_lists_focusable_elements_further_right_on_the_row() {
    let mut app = grid();
    app.cursor = Pos(1, 2);
    app.move_right();
    assert_eq!(positions(&app.focusabled_elements), vec![Pos(10, 2)]);
    app.cursor = Pos(1, 3);
    app.move_right();
    assert_eq!(positions(&app.focusabled_elements), vec![Pos(10, 3)]);
}

#[test]
fn move_left_lists_elements_further_left_on_the_row() {
    let mut app = grid();
    app.cursor = Pos(10, 2);
    app.move_left();
    assert_eq!(positions(&app.focusabled_elements), vec![Pos(1, 2)]);
}

#[test]
fn move_left_does_not_ask_for_focusable_elements() {
    let mut app = grid();
    app.cursor = Pos(10, 3);
    app.move_left();
    assert_eq!(app.focusabled_elements, vec![title("u", 1, 3)]);
    app.update_focus();
    assert_eq!(app.cursor, Pos(1, 3));
}

#[test]
fn move_right_skips_elements_that_cannot_take_focus() {
    let mut app = App::new();
    app.elements = vec![input("a", 1, 2), title("t", 5, 2), input("b", 9, 2)];
    app.cursor = Pos(1, 2);
    app.move_right();
    assert_eq!(positions(&app.focusabled_elements), vec![Pos(9, 2)]);
}

#[test]
fn candidates_keep_the_whole_element() {
    let mut app = grid();
    app.cursor = Pos(1, 2);
    app.move_right();
    assert_eq!(app.focusabled_elements, vec![input("b", 10, 2)]);
}

#[test]
fn aim_is_the_query_of_each_direction() {
    let mut app = grid();
    app.cursor = Pos(10, 3);
    app.aim(Direction::Up);
    assert_eq!(positions(&app.focusabled_elements), vec![Pos(10, 2), Pos(1, 2)]);
    app.aim(Direction::Down);
    assert_eq!(positions(&app.focusabled_elements), vec![Pos(1, 4)]);
    app.aim(Direction::Left);
    assert_eq!(positions(&app.focusabled_elements), vec![Pos(1, 3)]);
    app.aim(Direction::Right);
    assert_eq!(positions(&app.focusabled_elements), vec![]);
}

#[test]
fn a_query_replaces_the_earlier_candidates() {
    let mut app = grid();
    app.cursor = Pos(1, 2);
    app.move_down();
    assert_eq!(app.focusabled_elements.len(), 2);
    app.move_up();
    assert!(app.focusabled_elements.is_empty());
}

#[test]
fn update_focus_takes_the_first_candidate() {
    let mut app = grid();
    app.cursor = Pos(1, 2);
    app.move_down();
    app.update_focus();
    assert_eq!(app.cursor, Pos(10, 3));
    assert_eq!(app.focusabled_elements.len(), 2);
}

#[test]
fn update_focus_without_candidates_keeps_the_cursor() {
    let mut app = grid();
    app.cursor = Pos(1, 2);
    app.update_focus();
    assert_eq!(app.cursor, Pos(1, 2));
}

#[test]
fn left_with_nothing_to_the_left_keeps_the_focus() {
    let mut app = grid();
    app.cursor = Pos(1, 2);
    app.move_left();
    assert!(app.focusabled_elements.is_empty());
    app.update_focus();
    assert_eq!(app.cursor, Pos(1, 2));
}

#[test]
fn navigation_does_not_wrap_around() {
    let mut app = grid();
    app.cursor = Pos(1, 2);
    app.move_up();
    app.update_focus();
    assert_eq!(app.cursor, Pos(1, 2));
    app.cursor = Pos(1, 4);
    app.move_down();
    app.update_focus();
    assert_eq!(app.cursor, Pos(1, 4));
    app.cursor = Pos(10, 2);
    app.move_right();
    app.update_focus();
    assert_eq!(app.cursor, Pos(10, 2));
}

#[test]
fn navigation_without_elements_keeps_the_focus() {
    let mut app = App::new();
    app.cursor = Pos(3, 3);
    for dir in [Direction::Up, Direction::Down, Direction::Left, Direction::Right] {
        app.aim(dir);
        assert!(app.focusabled_elements.is_empty());
        app.update_focus();
        assert_eq!(app.cursor, Pos(3, 3));
    }
}

#[test]
fn focus_lands_on_an_element_or_stays() {
    for start in [Pos(1, 2), Pos(10, 2), Pos(10, 3), Pos(1, 4), Pos(7, 7), Pos(0, 0)] {
        for dir in [Direction::Up, Direction::Down, Direction::Left, Direction::Right] {
            let mut app = grid();
            app.cursor = start;
            app.aim(dir);
            let found = !app.focusabled_elements.is_empty();
            app.update_focus();
            if found {
                assert!(app.elements.iter().any(|e| e.pos == app.cursor));
            } else {
                assert_eq!(app.cursor, start);
            }
        }
    }
}

#[test]
fn up_takes_the_last_declared_element_above() {
    let mut app = grid();
    app.cursor = Pos(1, 4);
    app.move_up();
    app.update_focus();
    assert_eq!(app.cursor, Pos(10, 3));
    app.move_up();
    app.update_focus();
    assert_eq!(app.cursor, Pos(10, 2));
}

#[test]
fn down_then_up_ends_at_or_above_the_starting_row() {
    let mut app = grid();
    app.cursor = Pos(1, 2);
    app.move_down();
    app.update_focus();
    assert_eq!(app.cursor, Pos(10, 3));
    app.move_up();
    app.update_focus();
    assert_eq!(app.cursor, Pos(10, 2));
    assert!(app.cursor.1 <= 2);
    assert_ne!(app.cursor, Pos(1, 2));
}

#[test]
fn down_then_up_with_one_element_a_row_comes_back() {
    let mut app = App::new();
    app.elements = vec![input("a", 1, 2), input("b", 1, 3), input("c", 1, 4)];
    app.cursor = Pos(1, 3);
    app.move_down();
    app.update_focus();
    assert_eq!(app.cursor, Pos(1, 4));
    app.move_up();
    app.update_focus();
    assert_eq!(app.cursor, Pos(1, 3));
}

#[test]
fn down_then_up_can_end_lower_when_rows_are_declared_out_of_order() {
    let mut app = App::new();
    app.elements = vec![input("a", 1, 5), input("b", 1, 10), input("c", 1, 7)];
    app.cursor = Pos(1, 5);
    app.move_down();
    app.update_focus();
    assert_eq!(app.cursor, Pos(1, 10));
    app.move_up();
    app.update_focus();
    assert_eq!(app.cursor, Pos(1, 7));
}

#[test]
fn focus_element_takes_the_first_focusable_element() {
    let mut app = grid();
    app.cursor = Pos(0, 0);
    app.focus_element(0);
    assert_eq!(app.cursor, Pos(1, 2));
}

#[test]
fn focus_element_ignores_its_index() {
    let mut app = grid();
    app.focus_element(3);
    assert_eq!(app.cursor, Pos(1, 2));
    app.cursor = Pos(9, 9);
    app.focus_element(100);
    assert_eq!(app.cursor, Pos(1, 2));
}

#[test]
fn focus_element_without_focusable_element_keeps_the_cursor() {
    let mut app = App::new();
    app.elements = vec![title("t", 1, 1), title("u", 1, 2)];
    app.cursor = Pos(4, 4);
    app.focus_element(0);
    assert_eq!(app.cursor, Pos(4, 4));
    app.elements = Vec::new();
    app.focus_element(0);
    assert_eq!(app.cursor, Pos(4, 4));
}

#[test]
fn two_elements_at_one_position_are_told_apart_by_order_only() {
    let mut app = App::new();
    app.elements = vec![input("a", 1, 2), input("b", 5, 3), input("c", 5, 3)];
    app.cursor = Pos(1, 2);
    app.move_down();
    assert_eq!(app.focusabled_elements, vec![input("b", 5, 3), input("c", 5, 3)]);
    app.update_focus();
    assert_eq!(app.cursor, Pos(5, 3));
}
