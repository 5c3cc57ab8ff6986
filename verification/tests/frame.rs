use mpc_tui_rs::frame::{direction, hex_digit};
use mpc_tui_rs::{App, Direction, DrawCmd, ElementKind, Pos, Session, Style};

fn text(text: &str, style: Style) -> DrawCmd {
    DrawCmd::Text { text: text.to_string(), style }
}

fn key(c: char) -> Option<i32> {
    Some(c as i32)
}

/// One frame of a panel with a title, two inputs and two actions on a
/// terminal of the given width.
fn frame(app: &mut App, session: &mut Session, terminal_width: i32) {
    app.actions = vec!["TODO", "DONE"];
    app.begin_frame(terminal_width, session.started);
    app.create_title("Play/Record");
    app.create_input("Seq", "1-(unused)", None);
    app.create_input("BPM", "120.0", None);
    app.end_frame(session);
}

fn button_styles(app: &App) -> Vec<(String, Style)> {
    let mut found = Vec::new();
    for cmd in &app.draws {
        if let DrawCmd::Text { text, style } = cmd {
            if text.starts_with('[') {
                found.push((text.trim_matches(|c| c == '[' || c == ']' || c == ' ').to_string(), *style));
            }
        }
    }
    found
}

#[test]
fn new_session_has_not_started() {
    let session = Session::new();
    assert!(!session.quit);
    assert!(!session.started);
    assert_eq!(session.active_action, None);
    assert_eq!(session.notification, "");
}

#[test]
fn keys_map_to_directions() {
    assert_eq!(direction('k'), Some(Direction::Up));
    assert_eq!(direction('j'), Some(Direction::Down));
    assert_eq!(direction('h'), Some(Direction::Left));
    assert_eq!(direction('l'), Some(Direction::Right));
    assert_eq!(direction('K'), None);
    assert_eq!(direction('q'), None);
    assert_eq!(direction('1'), None);
}

#[test]
fn hex_digits_have_their_value() {
    assert_eq!(hex_digit('0'), Some(0));
    assert_eq!(hex_digit('1'), Some(1));
    assert_eq!(hex_digit('9'), Some(9));
    assert_eq!(hex_digit('a'), Some(10));
    assert_eq!(hex_digit('f'), Some(15));
    assert_eq!(hex_digit('A'), Some(10));
    assert_eq!(hex_digit('F'), Some(15));
}

#[test]
fn other_characters_are_no_hex_digits() {
    for c in ['g', 'G', 'q', 'h', 'j', 'k', 'l', '/', ':', '@', '`', ' ', '\0', 'é', '١'] {
        assert_eq!(hex_digit(c), None);
    }
}

#[test]
fn hex_digit_agrees_with_the_standard_library() {
    for code in 0..0x300u32 {
        if let Some(c) = char::from_u32(code) {
            assert_eq!(hex_digit(c), c.to_digit(16).map(|d| d as usize));
        }
    }
}

#[test]
fn panel_is_centered_at_the_start_of_a_frame() {
    let mut app = App::new();
    app.begin_frame(100, true);
    assert_eq!(app.screen.x, 30);
    assert_eq!(app.screen.y, 0);
    assert_eq!(app.render_cursor, Pos(31, 1));
    app.begin_frame(80, true);
    assert_eq!(app.screen.x, 20);
    assert_eq!(app.render_cursor, Pos(21, 1));
}

#[test]
fn begin_frame_discards_the_last_frame_and_draws_the_border() {
    let mut app = App::new();
    let mut session = Session::new();
    frame(&mut app, &mut session, 100);
    assert_eq!(app.elements.len(), 5);
    app.begin_frame(100, true);
    assert!(app.elements.is_empty());
    assert_eq!(app.draws.len(), 146);
    assert_eq!(app.draws[0], DrawCmd::MoveTo { row: 0, col: 30 });
}

#[test]
fn first_frame_puts_the_focus_on_the_first_interior_cell() {
    let mut app = App::new();
    app.cursor = Pos(7, 7);
    app.begin_frame(100, false);
    assert_eq!(app.cursor, Pos(31, 1));
}

#[test]
fn later_frames_keep_the_focus() {
    let mut app = App::new();
    app.cursor = Pos(7, 7);
    app.begin_frame(100, true);
    assert_eq!(app.cursor, Pos(7, 7));
}

#[test]
fn first_frame_ends_with_the_focus_on_the_first_input() {
    let mut app = App::new();
    let mut session = Session::new();
    frame(&mut app, &mut session, 100);
    assert_eq!(app.cursor, Pos(31, 2));
    assert!(session.started);
    assert!(!session.quit);
    assert_eq!(session.active_action, None);
}

#[test]
fn first_frame_draws_no_input_highlighted() {
    let mut app = App::new();
    let mut session = Session::new();
    frame(&mut app, &mut session, 100);
    assert_eq!(app.draws[149], text("Seq: ", Style::Plain));
    assert_eq!(app.draws[150], text("1-(unused)", Style::Regular));
    assert_eq!(app.draws[153], text("120.0", Style::Regular));
}

#[test]
fn second_frame_highlights_the_focused_input() {
    let mut app = App::new();
    let mut session = Session::new();
    frame(&mut app, &mut session, 100);
    frame(&mut app, &mut session, 100);
    assert_eq!(app.draws[146], DrawCmd::MoveTo { row: 1, col: 31 });
    assert_eq!(app.draws[147], text("============= Play/Record ==============", Style::Plain));
    assert_eq!(app.draws[148], DrawCmd::MoveTo { row: 2, col: 31 });
    assert_eq!(app.draws[149], text("Seq: ", Style::Plain));
    assert_eq!(app.draws[150], text("1-(unused)", Style::Highlight));
    assert_eq!(app.draws[151], DrawCmd::MoveTo { row: 2, col: 46 });
    assert_eq!(app.draws[152], text("BPM: ", Style::Plain));
    assert_eq!(app.draws[153], text("120.0", Style::Regular));
    assert_eq!(app.draws[154], DrawCmd::MoveTo { row: 15, col: 31 });
    assert_eq!(app.draws.len(), 146 + 8 + 9);
}

#[test]
fn repeated_frames_draw_the_same() {
    let mut app = App::new();
    let mut session = Session::new();
    frame(&mut app, &mut session, 100);
    frame(&mut app, &mut session, 100);
    let second = app.draws.clone();
    let elements = app.elements.clone();
    frame(&mut app, &mut session, 100);
    assert_eq!(app.draws, second);
    assert_eq!(app.elements, elements);
    frame(&mut app, &mut session, 100);
    assert_eq!(app.draws, second);
}

#[test]
fn frames_do_not_depend_on_what_an_earlier_frame_left() {
    let mut used = App::new();
    let mut session = Session::new();
    frame(&mut used, &mut session, 100);
    frame(&mut used, &mut session, 64);
    frame(&mut used, &mut session, 100);

    let mut fresh = App::new();
    fresh.cursor = used.cursor;
    let mut started = Session::new();
    started.started = true;
    frame(&mut fresh, &mut started, 100);
    assert_eq!(fresh.draws, used.draws);
    assert_eq!(fresh.elements, used.elements);
}

#[test]
fn digit_selects_the_active_action_for_the_next_frame() {
    let mut app = App::new();
    let mut session = Session::new();
    frame(&mut app, &mut session, 100);
    app.key = key('1');
    frame(&mut app, &mut session, 100);
    assert_eq!(session.active_action, Some(1));
    assert_eq!(
        button_styles(&app),
        vec![("TODO".to_string(), Style::Regular), ("DONE".to_string(), Style::Regular)]
    );
    assert_eq!(app.key, None);
    frame(&mut app, &mut session, 100);
    assert_eq!(
        button_styles(&app),
        vec![("TODO".to_string(), Style::Highlight), ("DONE".to_string(), Style::Regular)]
    );
    assert_eq!(
        app.elements[3].kind,
        ElementKind::Button { label: "[       TODO       ]".to_string(), active: true }
    );
    assert_eq!(
        app.elements[4].kind,
        ElementKind::Button { label: "[       DONE       ]".to_string(), active: false }
    );
    assert!(!session.quit);
}

#[test]
fn q_after_a_selection_ends_the_loop() {
    let mut app = App::new();
    let mut session = Session::new();
    frame(&mut app, &mut session, 100);
    app.key = key('1');
    frame(&mut app, &mut session, 100);
    assert!(!session.quit);
    app.key = key('q');
    frame(&mut app, &mut session, 100);
    assert!(session.quit);
    assert_eq!(session.active_action, Some(1));
}

#[test]
fn second_digit_selects_the_second_action() {
    let mut app = App::new();
    let mut session = Session::new();
    frame(&mut app, &mut session, 100);
    app.key = key('2');
    frame(&mut app, &mut session, 100);
    assert_eq!(session.active_action, Some(2));
    frame(&mut app, &mut session, 100);
    assert_eq!(
        button_styles(&app),
        vec![("TODO".to_string(), Style::Regular), ("DONE".to_string(), Style::Highlight)]
    );
}

#[test]
fn digit_beyond_the_actions_is_ignored() {
    let mut app = App::new();
    let mut session = Session::new();
    session.active_action = Some(2);
    session.notification = "note".to_string();
    app.actions = vec!["TODO", "DONE"];
    for c in ['3', '9', 'a', 'F'] {
        app.key = key(c);
        app.handle_key(&mut session);
        assert_eq!(session.active_action, Some(2));
        assert_eq!(session.notification, "note");
        assert_eq!(app.key, None);
        assert!(!session.quit);
    }
}

#[test]
fn digit_zero_is_accepted_and_activates_nothing() {
    let mut app = App::new();
    let mut session = Session::new();
    frame(&mut app, &mut session, 100);
    app.key = key('0');
    frame(&mut app, &mut session, 100);
    assert_eq!(session.active_action, Some(0));
    frame(&mut app, &mut session, 100);
    assert_eq!(
        button_styles(&app),
        vec![("TODO".to_string(), Style::Regular), ("DONE".to_string(), Style::Regular)]
    );
}

#[test]
fn hex_letters_select_actions_past_nine() {
    let mut app = App::new();
    let mut session = Session::new();
    app.actions = vec!["a", "b", "c", "d", "e", "f", "g", "h", "i", "j", "k"];
    app.key = key('a');
    app.handle_key(&mut session);
    assert_eq!(session.active_action, Some(10));
    app.key = key('B');
    app.handle_key(&mut session);
    assert_eq!(session.active_action, Some(11));
    app.key = key('c');
    app.handle_key(&mut session);
    assert_eq!(session.active_action, Some(11));
}

#[test]
fn other_keys_clear_the_notification() {
    let mut app = App::new();
    let mut session = Session::new();
    session.notification = "saved".to_string();
    app.key = key('x');
    app.handle_key(&mut session);
    assert_eq!(session.notification, "");
    assert!(!session.quit);
    assert_eq!(session.active_action, None);
    assert_eq!(app.key, None);
}

#[test]
fn q_clears_the_notification_and_asks_to_quit() {
    let mut app = App::new();
    let mut session = Session::new();
    session.notification = "saved".to_string();
    app.key = key('q');
    app.handle_key(&mut session);
    assert!(session.quit);
    assert_eq!(session.notification, "");
}

#[test]
fn direction_keys_leave_the_session_alone() {
    let mut app = App::new();
    let mut session = Session::new();
    session.notification = "saved".to_string();
    session.active_action = Some(1);
    for c in ['h', 'j', 'k', 'l'] {
        app.key = key(c);
        app.handle_key(&mut session);
        assert_eq!(session.notification, "saved");
        assert_eq!(session.active_action, Some(1));
        assert!(!session.quit);
        assert_eq!(app.key, None);
    }
}

#[test]
fn no_key_changes_nothing() {
    let mut app = App::new();
    let mut session = Session::new();
    session.notification = "saved".to_string();
    app.cursor = Pos(4, 4);
    app.handle_key(&mut session);
    assert_eq!(session.notification, "saved");
    assert!(!session.quit);
    assert!(!session.started);
    assert_eq!(app.cursor, Pos(4, 4));
    assert!(app.focusabled_elements.is_empty());
}

#[test]
fn handle_key_collects_candidates_but_does_not_move_the_focus() {
    let mut app = App::new();
    let mut session = Session::new();
    app.begin_frame(100, true);
    app.create_input("Seq", "1", None);
    app.next_row();
    app.create_input("BPM", "2", None);
    app.cursor = Pos(31, 1);
    app.key = key('j');
    app.handle_key(&mut session);
    assert_eq!(app.focusabled_elements.len(), 1);
    assert_eq!(app.focusabled_elements[0].pos, Pos(31, 2));
    assert_eq!(app.cursor, Pos(31, 1));
}

#[test]
fn l_and_h_move_the_focus_along_the_row() {
    let mut app = App::new();
    let mut session = Session::new();
    frame(&mut app, &mut session, 100);
    assert_eq!(app.cursor, Pos(31, 2));
    app.key = key('l');
    frame(&mut app, &mut session, 100);
    assert_eq!(app.cursor, Pos(46, 2));
    app.key = key('l');
    frame(&mut app, &mut session, 100);
    assert_eq!(app.cursor, Pos(46, 2));
    app.key = key('h');
    frame(&mut app, &mut session, 100);
    assert_eq!(app.cursor, Pos(31, 2));
    app.key = key('h');
    frame(&mut app, &mut session, 100);
    assert_eq!(app.cursor, Pos(31, 2));
}

#[test]
fn j_and_k_find_no_input_on_other_rows() {
    let mut app = App::new();
    let mut session = Session::new();
    frame(&mut app, &mut session, 100);
    app.key = key('j');
    frame(&mut app, &mut session, 100);
    assert_eq!(app.cursor, Pos(31, 2));
    app.key = key('k');
    frame(&mut app, &mut session, 100);
    assert_eq!(app.cursor, Pos(31, 2));
}

#[test]
fn moved_focus_shows_in_the_next_frame() {
    let mut app = App::new();
    let mut session = Session::new();
    frame(&mut app, &mut session, 100);
    app.key = key('l');
    frame(&mut app, &mut session, 100);
    assert_eq!(app.draws[150], text("1-(unused)", Style::Highlight));
    assert_eq!(app.draws[153], text("120.0", Style::Regular));
    frame(&mut app, &mut session, 100);
    assert_eq!(app.draws[150], text("1-(unused)", Style::Regular));
    assert_eq!(app.draws[153], text("120.0", Style::Highlight));
}

#[test]
fn end_frame_without_actions_draws_nothing_more() {
    let mut app = App::new();
    let mut session = Session::new();
    app.begin_frame(100, false);
    app.create_input("Seq", "1", None);
    let drawn = app.draws.len();
    app.key = key('q');
    app.end_frame(&mut session);
    assert_eq!(app.draws.len(), drawn);
    assert_eq!(app.elements.len(), 1);
    assert!(session.quit);
    assert!(session.started);
    assert_eq!(app.cursor, Pos(31, 1));
}

#[test]
fn narrow_terminal_puts_the_panel_left_of_the_screen() {
    let mut app = App::new();
    let mut session = Session::new();
    frame(&mut app, &mut session, 20);
    assert_eq!(app.screen.x, -10);
    assert_eq!(app.elements[0].pos, Pos(-9, 1));
    assert_eq!(app.cursor, Pos(-9, 2));
}

#[test]
fn frames_fit_ordinary_terminals() {
    let app = App::new();
    assert!(app.frame_fits(100));
    assert!(app.frame_fits(0));
    assert!(app.frame_fits(i32::MAX));
    assert!(app.frame_fits(-1));
}

#[test]
fn frame_needs_the_centered_panel_to_fit() {
    let mut app = App::new();
    assert!(!app.frame_fits(i32::MIN));
    assert!(!app.frame_fits(i32::MIN + 39));
    assert!(app.frame_fits(i32::MIN + 40));
    app.screen.width = i32::MAX;
    assert!(!app.frame_fits(i32::MAX));
    assert!(!app.frame_fits(i32::MAX - 1));
    assert!(app.frame_fits(i32::MAX - 2));
    assert!(app.frame_fits(0));
    assert!(app.frame_fits(-1));
    app.screen.height = 1;
    assert!(app.frame_fits(i32::MAX));
    assert!(!app.frame_fits(-2));
}

/// One frame of a panel with a title and three inputs on two rows.
fn tall_frame(app: &mut App, session: &mut Session) {
    app.actions = vec!["TODO", "DONE"];
    app.begin_frame(100, session.started);
    app.create_title("Play/Record");
    app.create_input("Seq", "1", None);
    app.create_input("Bar", "4", None);
    app.next_row();
    app.create_input("BPM", "120.0", None);
    app.end_frame(session);
}

#[test]
fn j_then_k_returns_to_the_starting_row() {
    let mut app = App::new();
    let mut session = Session::new();
    tall_frame(&mut app, &mut session);
    app.key = key('l');
    tall_frame(&mut app, &mut session);
    assert_eq!(app.cursor, Pos(40, 2));
    app.key = key('j');
    tall_frame(&mut app, &mut session);
    assert_eq!(app.cursor, Pos(31, 3));
    app.key = key('k');
    tall_frame(&mut app, &mut session);
    assert_eq!(app.cursor, Pos(40, 2));
    app.key = key('h');
    tall_frame(&mut app, &mut session);
    assert_eq!(app.cursor, Pos(31, 2));
    app.key = key('j');
    tall_frame(&mut app, &mut session);
    app.key = key('k');
    tall_frame(&mut app, &mut session);
    assert_eq!(app.cursor, Pos(40, 2));
}

#[test]
fn focusable_rows_of_a_frame_never_go_up() {
    let mut app = App::new();
    let mut session = Session::new();
    tall_frame(&mut app, &mut session);
    let rows: Vec<i32> = app.elements.iter().filter(|e| e.focusable).map(|e| e.pos.1).collect();
    assert_eq!(rows, vec![2, 2, 3]);
}
