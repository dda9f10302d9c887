use jdiff::editor::{Area, EditorCursorDirection, EditorModel, EditorModelActions, History};

fn area(height: u16) -> Area {
    Area { x: 0, y: 0, width: 80, height }
}

fn buffer(lines: &[&str]) -> EditorModel {
    let mut e = EditorModel::default();
    let owned: Vec<String> = lines.iter().map(|l| l.to_string()).collect();
    e.load_lines(&owned);
    e
}

fn numbers(e: &EditorModel) -> Vec<usize> {
    e.get_visible_lines().iter().map(|l| l.0).collect()
}

#[test]
fn insert_add_line_and_backspace_scenario() {
    let mut e = buffer(&["awdawd"]);
    assert_eq!(e.get_cursor_position(), (0, 0));
    e.insert_char('X');
    assert_eq!(e.export_lines(), vec!["Xawdawd".to_string()]);
    assert_eq!(e.get_cursor_position(), (1, 0));
    e.add_line();
    assert_eq!(e.export_lines(), vec!["Xawdawd".to_string(), "".to_string()]);
    assert_eq!(e.get_cursor_position(), (0, 1));
    e.backspace();
    assert_eq!(e.export_lines(), vec!["Xawdawd".to_string()]);
    assert_eq!(e.get_cursor_position(), (7, 0));
}

#[test]
fn viewport_scrolls_down_but_stops_at_the_end() {
    let mut e = buffer(&["a", "b", "c", "d", "e"]);
    e.resize(area(3));
    let visible = e.get_visible_lines();
    assert_eq!(visible.len(), 3);
    assert_eq!(numbers(&e), vec![1, 2, 3]);
    e.move_cursor(EditorCursorDirection::Down);
    assert_eq!(numbers(&e), vec![2, 3, 4]);
    e.move_cursor(EditorCursorDirection::Down);
    assert_eq!(numbers(&e), vec![3, 4, 5]);
    e.move_cursor(EditorCursorDirection::Down);
    assert_eq!(numbers(&e), vec![3, 4, 5]);
    assert_eq!(e.get_visible_lines()[2].1, "e");
    assert_eq!(e.get_cursor_position(), (0, 3));
}

#[test]
fn viewport_covers_a_short_buffer() {
    let mut e = buffer(&["a", "b"]);
    e.resize(area(10));
    assert_eq!(numbers(&e), vec![1, 2]);
    e.move_cursor(EditorCursorDirection::Down);
    e.move_cursor(EditorCursorDirection::Up);
    assert_eq!(numbers(&e), vec![1, 2]);
}

#[test]
fn nothing_is_visible_before_an_area_is_given() {
    let e = EditorModel::default();
    assert!(e.get_visible_lines().is_empty());
    assert_eq!(e.export_lines(), vec!["".to_string()]);
}

#[test]
fn moving_right_stops_at_the_end_of_the_line() {
    let mut e = buffer(&["hello"]);
    for _ in 0.."hello".len() + 5 {
        e.move_cursor(EditorCursorDirection::Right);
        assert!(e.get_cursor_position().0 <= 5);
    }
    assert_eq!(e.get_cursor_position(), (5, 0));
}

#[test]
fn moving_left_stops_at_column_zero() {
    let mut e = buffer(&["hi"]);
    e.move_cursor(EditorCursorDirection::Right);
    e.move_cursor(EditorCursorDirection::Left);
    e.move_cursor(EditorCursorDirection::Left);
    assert_eq!(e.get_cursor_position(), (0, 0));
}

#[test]
fn vertical_moves_clamp_the_column() {
    let mut e = buffer(&["long line", "ab"]);
    for _ in 0..9 {
        e.move_cursor(EditorCursorDirection::Right);
    }
    e.move_cursor(EditorCursorDirection::Down);
    assert_eq!(e.get_cursor_position(), (2, 1));
    e.move_cursor(EditorCursorDirection::Down);
    assert_eq!(e.get_cursor_position(), (2, 1));
    e.move_cursor(EditorCursorDirection::Up);
    e.move_cursor(EditorCursorDirection::Up);
    assert_eq!(e.get_cursor_position(), (2, 0));
}

#[test]
fn line_numbers_stay_contiguous() {
    let mut e = buffer(&["one", "two", "three"]);
    e.resize(area(20));
    e.move_cursor(EditorCursorDirection::Down);
    e.add_line();
    e.insert_char('x');
    e.add_line();
    assert_eq!(numbers(&e), vec![1, 2, 3, 4, 5]);
    e.delete_line();
    assert_eq!(numbers(&e), vec![1, 2, 3, 4]);
    e.backspace();
    e.backspace();
    assert_eq!(numbers(&e), vec![1, 2, 3]);
    assert_eq!(
        e.export_lines(),
        vec!["one".to_string(), "two".to_string(), "three".to_string()]
    );
}

#[test]
fn delete_line_on_the_first_row_changes_nothing() {
    let mut e = buffer(&["abc", "def"]);
    e.delete_line();
    assert_eq!(e.export_lines(), vec!["abc".to_string(), "def".to_string()]);
    assert_eq!(e.get_cursor_position(), (0, 0));
}

#[test]
fn delete_line_merges_into_the_row_above() {
    let mut e = buffer(&["abc", "def"]);
    e.move_cursor(EditorCursorDirection::Down);
    e.move_cursor(EditorCursorDirection::Right);
    e.delete_line();
    assert_eq!(e.export_lines(), vec!["abcdef".to_string()]);
    assert_eq!(e.get_cursor_position(), (3, 0));
}

#[test]
fn backspace_removes_the_character_left_of_the_cursor() {
    let mut e = buffer(&["abc"]);
    e.move_cursor(EditorCursorDirection::Right);
    e.move_cursor(EditorCursorDirection::Right);
    e.backspace();
    assert_eq!(e.export_lines(), vec!["ac".to_string()]);
    assert_eq!(e.get_cursor_position(), (1, 0));
}

#[test]
fn undo_then_redo_round_trips_each_edit() {
    let mut e = buffer(&["ab"]);
    e.move_cursor(EditorCursorDirection::Right);
    e.insert_char('z');
    e.undo();
    assert_eq!(e.export_lines(), vec!["ab".to_string()]);
    e.redo();
    assert_eq!(e.export_lines(), vec!["azb".to_string()]);
    assert_eq!(e.get_cursor_position(), (2, 0));

    e.add_line();
    let after = (e.export_lines(), e.get_cursor_position());
    e.undo();
    assert_eq!(e.export_lines(), vec!["azb".to_string()]);
    assert_eq!(e.get_cursor_position(), (2, 0));
    e.redo();
    assert_eq!((e.export_lines(), e.get_cursor_position()), after);

    e.backspace();
    e.undo();
    assert_eq!((e.export_lines(), e.get_cursor_position()), after);
}

#[test]
fn an_edit_after_undo_discards_redo() {
    let mut e = buffer(&[""]);
    e.insert_char('a');
    e.insert_char('b');
    e.undo();
    assert_eq!(e.export_lines(), vec!["a".to_string()]);
    e.insert_char('c');
    e.redo();
    assert_eq!(e.export_lines(), vec!["ac".to_string()]);
    assert_eq!(e.get_cursor_position(), (2, 0));
}

#[test]
fn undo_stops_at_the_first_snapshot() {
    let mut e = buffer(&["x"]);
    e.insert_char('a');
    e.undo();
    e.undo();
    e.undo();
    assert_eq!(e.export_lines(), vec!["x".to_string()]);
    e.redo();
    e.redo();
    assert_eq!(e.export_lines(), vec!["ax".to_string()]);
}

#[test]
fn history_keeps_only_the_newest_snapshots() {
    let mut e = EditorModel::with_history_limit(3);
    e.insert_char('a');
    e.insert_char('b');
    e.insert_char('c');
    e.undo();
    e.undo();
    e.undo();
    assert_eq!(e.export_lines(), vec!["a".to_string()]);
}

#[test]
fn actions_reach_the_buffer() {
    let mut e = EditorModel::default();
    e.handle_action(EditorModelActions::Input('h'));
    e.handle_action(EditorModelActions::Input('i'));
    e.handle_action(EditorModelActions::AddLine);
    e.handle_action(EditorModelActions::Input('!'));
    e.handle_action(EditorModelActions::MoveCursor(EditorCursorDirection::Up));
    assert_eq!(e.get_cursor_position(), (1, 0));
    e.handle_action(EditorModelActions::Backspace);
    assert_eq!(e.export_lines(), vec!["i".to_string(), "!".to_string()]);
    e.handle_action(EditorModelActions::Undo);
    assert_eq!(e.export_lines(), vec!["hi".to_string(), "!".to_string()]);
    e.handle_action(EditorModelActions::Redo);
    assert_eq!(e.export_lines(), vec!["i".to_string(), "!".to_string()]);
}

#[test]
fn load_lines_of_nothing_gives_one_empty_line() {
    let mut e = buffer(&["a", "b"]);
    e.load_lines(&Vec::new());
    assert_eq!(e.export_lines(), vec!["".to_string()]);
    assert_eq!(e.get_cursor_position(), (0, 0));
}

#[test]
fn text_keeps_non_ascii_characters() {
    let mut e = buffer(&["żółw"]);
    e.move_cursor(EditorCursorDirection::Right);
    e.insert_char('é');
    assert_eq!(e.export_lines(), vec!["żéółw".to_string()]);
}

#[test]
fn history_trait_restores_and_saves() {
    let mut e = buffer(&["ab", "cd"]);
    e.insert_char('x');
    History::restore(&mut e);
    assert_eq!(e.export_lines(), vec!["ab".to_string(), "cd".to_string()]);
    History::undo_restore(&mut e);
    assert_eq!(e.export_lines(), vec!["xab".to_string(), "cd".to_string()]);
    e.move_cursor(EditorCursorDirection::Down);
    History::backup(&mut e);
    History::restore(&mut e);
    assert_eq!(e.get_cursor_position(), (1, 0));
    assert_eq!(e.save(), "xab\ncd");
}

#[test]
fn save_of_one_empty_line_is_empty() {
    assert_eq!(EditorModel::default().save(), "");
}

#[test]
fn a_history_of_one_cannot_undo() {
    let mut e = EditorModel::with_history_limit(1);
    e.insert_char('a');
    e.undo();
    assert_eq!(e.export_lines(), vec!["a".to_string()]);
}
