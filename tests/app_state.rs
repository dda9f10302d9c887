use jdiff::app_model::{AppMode, AppModel, AppModelActions};
use jdiff::app_state::{AppState, AppStateActions, BaseActions};
use jdiff::command_bar::{CommandBarModel, CommandBarModelActions, CursorDirection};
use jdiff::counter::{CounterModel, CounterModelActions};
use jdiff::editor::{Area, EditorCursorDirection};
use jdiff::editor_container::{EditorContainerModel, EditorContainerModelActions, EditorFocus};
use jdiff::router::{RouterModel, RouterModelActions};

fn command(action: CommandBarModelActions) -> Option<AppStateActions> {
    Some(AppStateActions::CommandBarActions(action))
}

fn editor(action: EditorContainerModelActions) -> Option<AppStateActions> {
    Some(AppStateActions::EditorActions(action))
}

fn type_command(state: &mut AppState, text: &str) {
    for c in text.chars() {
        state.update(command(CommandBarModelActions::Input(c)));
    }
}

#[test]
fn quit_command_exits_and_returns_to_normal_mode() {
    let mut state = AppState::new();
    state.update(Some(AppStateActions::AppModelActions(AppModelActions::ChangeMode(AppMode::Command))));
    assert_eq!(state.app_state_store.get_app_mode(), AppMode::Command);
    type_command(&mut state, "quit");
    assert_eq!(state.command_bar_store.get_input(), ":quit");
    assert!(!state.app_state_store.get_should_quit());
    state.update(command(CommandBarModelActions::Enter));
    assert!(state.app_state_store.get_should_quit());
    assert_eq!(state.app_state_store.get_app_mode(), AppMode::Normal);
}

#[test]
fn unknown_command_does_not_exit() {
    let mut state = AppState::new();
    type_command(&mut state, "save");
    state.update(command(CommandBarModelActions::Enter));
    assert!(!state.app_state_store.get_should_quit());
}

#[test]
fn reset_clears_the_command_line_and_leaves_command_mode() {
    let mut state = AppState::new();
    state.update(Some(AppStateActions::AppModelActions(AppModelActions::ChangeMode(AppMode::Command))));
    type_command(&mut state, "abc");
    state.update(command(CommandBarModelActions::Reset));
    assert_eq!(state.command_bar_store.get_input(), ":");
    assert_eq!(state.command_bar_store.get_cursor_position(), 1);
    assert_eq!(state.app_state_store.get_app_mode(), AppMode::Normal);
}

#[test]
fn nothing_to_resolve_changes_nothing() {
    let mut state = AppState::new();
    state.update(None);
    assert!(!state.app_state_store.get_should_quit());
    assert_eq!(state.router_store.get_current_route(), "/");
}

#[test]
fn command_bar_editing() {
    let mut bar = CommandBarModel::new();
    assert_eq!(bar.update(CommandBarModelActions::Input('a')).is_none(), true);
    bar.update(CommandBarModelActions::Input('c'));
    bar.update(CommandBarModelActions::MoveCursor(CursorDirection::Left));
    bar.update(CommandBarModelActions::Input('b'));
    assert_eq!(bar.get_input(), ":abc");
    assert_eq!(bar.get_cursor_position(), 3);
    bar.update(CommandBarModelActions::MoveCursor(CursorDirection::Right));
    bar.update(CommandBarModelActions::MoveCursor(CursorDirection::Right));
    assert_eq!(bar.get_cursor_position(), 4);
    bar.update(CommandBarModelActions::Backspace);
    assert_eq!(bar.get_input(), ":ab");
    for _ in 0..5 {
        bar.update(CommandBarModelActions::MoveCursor(CursorDirection::Left));
    }
    assert_eq!(bar.get_cursor_position(), 1);
    bar.update(CommandBarModelActions::Backspace);
    assert_eq!(bar.get_input(), ":ab");
}

#[test]
fn command_names_that_quit() {
    let bar = CommandBarModel::new();
    for name in ["q", "exit", "quit"] {
        assert!(matches!(
            bar.handle_input(name),
            Some(AppStateActions::AppModelActions(AppModelActions::Exit))
        ));
    }
    assert!(bar.handle_input("save").is_none());
    assert!(bar.handle_input("").is_none());
    assert!(bar.handle_input("qq").is_none());
}

#[test]
fn app_model_tracks_mode_and_exit() {
    let mut m = AppModel::default();
    assert_eq!(m.get_app_mode(), AppMode::Normal);
    m.update(AppModelActions::ChangeMode(AppMode::Editing));
    assert_eq!(m.get_app_mode(), AppMode::Editing);
    assert!(!m.get_should_quit());
    m.update(AppModelActions::Exit);
    assert!(m.get_should_quit());
    assert_eq!(m.get_app_mode(), AppMode::Editing);
}

#[test]
fn counter_counts() {
    let mut c = CounterModel::new();
    c.update(CounterModelActions::Increment);
    c.update(CounterModelActions::Increment);
    c.update(CounterModelActions::Decrement);
    assert_eq!(c.get_counter(), 1);
}

#[test]
fn router_model_accepts_registered_routes_only() {
    let mut r = RouterModel::default();
    assert_eq!(r.get_current_route(), "/");
    r.register_routes(vec!["/".to_string(), "/editor".to_string()]);
    r.update(RouterModelActions::Route("/missing".to_string()));
    assert_eq!(r.get_current_route(), "/");
    r.update(RouterModelActions::Route("/editor".to_string()));
    assert_eq!(r.get_current_route(), "/editor");
}

#[test]
fn resize_notice_sets_the_flag_until_the_editors_are_resized() {
    let mut state = AppState::new();
    state.update(Some(AppStateActions::BaseAppActions(BaseActions::Resized)));
    assert!(state.editor_store.get_is_resized_set());
    state.update(editor(EditorContainerModelActions::ResizeEditor(Area { x: 0, y: 0, width: 10, height: 4 })));
    assert!(!state.editor_store.get_is_resized_set());
}

#[test]
fn editor_container_edits_the_focused_buffer() {
    let mut c = EditorContainerModel::default();
    assert!(!c.get_is_initialized());
    c.update(EditorContainerModelActions::InitEditor(Area { x: 0, y: 0, width: 10, height: 5 }));
    assert!(c.get_is_initialized());
    c.update(EditorContainerModelActions::Input('a'));
    c.update(EditorContainerModelActions::AddEditor);
    c.update(EditorContainerModelActions::AddEditor);
    assert_eq!(c.get_editors().len(), 2);
    c.update(EditorContainerModelActions::ChangeFocus(EditorFocus::Next));
    c.update(EditorContainerModelActions::ChangeFocus(EditorFocus::Next));
    assert_eq!(c.get_active_editor_index(), 1);
    c.update(EditorContainerModelActions::Input('b'));
    c.update(EditorContainerModelActions::Enter);
    assert_eq!(c.get_active_cursor_position(), (0, 1));
    c.update(EditorContainerModelActions::Backspace);
    c.update(EditorContainerModelActions::MoveCursor(EditorCursorDirection::Left));
    assert_eq!(c.get_active_cursor_position(), (0, 0));
    c.update(EditorContainerModelActions::Undo);
    c.update(EditorContainerModelActions::Redo);
    c.update(EditorContainerModelActions::ChangeFocus(EditorFocus::Prev));
    c.update(EditorContainerModelActions::ChangeFocus(EditorFocus::Prev));
    assert_eq!(c.get_active_editor_index(), 0);
    assert_eq!(c.get_editors()[0].export_lines(), vec!["a".to_string()]);
    assert_eq!(c.get_editors()[1].export_lines(), vec!["b".to_string()]);
}
