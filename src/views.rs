use vstd::prelude::*;

use crate::app_model::{AppMode, AppModelActions};
use crate::app_state::{AppState, AppStateActions};
use crate::command_bar::{CommandBarModelActions, CursorDirection};
use crate::counter::CounterModelActions;
use crate::editor::{Area, EditorCursorDirection};
use crate::editor_container::{EditorContainerModelActions, EditorFocus};
use crate::keys::Key;
use crate::router::RouterModelActions;
use crate::text::same_text;

verus! {

#[derive(Clone, Copy, Debug, PartialEq, Eq, Structural)]
pub enum TabState {
    NoTab,
    Tab,
    BackTab,
}

/// The modifiers that came with a key.
#[derive(Clone, Copy, Debug, PartialEq, Eq, Structural)]
pub struct ViewContext {
    pub is_ctrl_pressed: bool,
    pub is_shift_pressed: bool,
    pub tab_state: TabState,
}

impl ViewContext {
    pub fn new(is_ctrl_pressed: bool, is_shift_pressed: bool, tab_state: TabState) -> (r: ViewContext)
        ensures
            r == (ViewContext { is_ctrl_pressed, is_shift_pressed, tab_state }),
    {
        ViewContext { is_ctrl_pressed, is_shift_pressed, tab_state }
    }
}

pub open spec fn editor_action(a: EditorContainerModelActions) -> Option<AppStateActions> {
    Some(AppStateActions::EditorActions(a))
}

pub open spec fn mode_action(m: AppMode) -> Option<AppStateActions> {
    Some(AppStateActions::AppModelActions(AppModelActions::ChangeMode(m)))
}

/// The action the editor screen makes of the character `c` typed in `mode`.
pub open spec fn editor_char_action(c: char, context: ViewContext, mode: AppMode) -> Option<AppStateActions> {
    if c == 'h' && context.is_ctrl_pressed {
        editor_action(EditorContainerModelActions::ChangeFocus(EditorFocus::Prev))
    } else if c == 'l' && context.is_ctrl_pressed {
        editor_action(EditorContainerModelActions::ChangeFocus(EditorFocus::Next))
    } else if mode == AppMode::Normal && c == 'i' {
        mode_action(AppMode::Editing)
    } else if mode == AppMode::Normal && c == 'u' {
        if context.is_shift_pressed {
            editor_action(EditorContainerModelActions::Redo)
        } else {
            editor_action(EditorContainerModelActions::Undo)
        }
    } else if mode == AppMode::Editing {
        editor_action(EditorContainerModelActions::Input(c))
    } else {
        None
    }
}

/// The action the editor screen makes of `key` in `mode`.
pub open spec fn editor_key_action(key: Key, context: ViewContext, mode: AppMode) -> Option<AppStateActions> {
    match key {
        Key::Char(c) => editor_char_action(c, context, mode),
        Key::Esc => mode_action(AppMode::Normal),
        Key::Backspace => if mode == AppMode::Editing {
            editor_action(EditorContainerModelActions::Backspace)
        } else {
            None
        },
        Key::Up => editor_action(EditorContainerModelActions::MoveCursor(EditorCursorDirection::Up)),
        Key::Down => editor_action(EditorContainerModelActions::MoveCursor(EditorCursorDirection::Down)),
        Key::Left => editor_action(EditorContainerModelActions::MoveCursor(EditorCursorDirection::Left)),
        Key::Right => editor_action(EditorContainerModelActions::MoveCursor(EditorCursorDirection::Right)),
        Key::Enter => if mode == AppMode::Editing {
            editor_action(EditorContainerModelActions::Enter)
        } else {
            None
        },
        _ => None,
    }
}

/// The screen that edits buffers.
pub struct EditorView {}

impl EditorView {
    pub fn new() -> (r: Self) {
        EditorView {}
    }

    pub fn handle_event(&mut self, key: Key, context: ViewContext, app_state: &AppState) -> (r: Option<AppStateActions>)
        ensures
            r == editor_key_action(key, context, app_state.app_state_store.mode()),
    {
        let mode = app_state.app_state_store.get_app_mode();
        match key {
            Key::Char(c) => self.handle_keyboard_input(&context, app_state, c),
            Key::Esc => Some(AppStateActions::AppModelActions(AppModelActions::ChangeMode(AppMode::Normal))),
            Key::Backspace => if mode == AppMode::Editing {
                Some(AppStateActions::EditorActions(EditorContainerModelActions::Backspace))
            } else {
                None
            },
            Key::Up => Some(AppStateActions::EditorActions(EditorContainerModelActions::MoveCursor(EditorCursorDirection::Up))),
            Key::Down => Some(AppStateActions::EditorActions(EditorContainerModelActions::MoveCursor(EditorCursorDirection::Down))),
            Key::Left => Some(AppStateActions::EditorActions(EditorContainerModelActions::MoveCursor(EditorCursorDirection::Left))),
            Key::Right => Some(AppStateActions::EditorActions(EditorContainerModelActions::MoveCursor(EditorCursorDirection::Right))),
            Key::Enter => if mode == AppMode::Editing {
                Some(AppStateActions::EditorActions(EditorContainerModelActions::Enter))
            } else {
                None
            },
            _ => None,
        }
    }

    fn handle_keyboard_input(&mut self, context: &ViewContext, app_state: &AppState, c: char) -> (r: Option<AppStateActions>)
        ensures
            r == editor_char_action(c, *context, app_state.app_state_store.mode()),
    {
        if c == 'h' && context.is_ctrl_pressed {
            return Some(AppStateActions::EditorActions(EditorContainerModelActions::ChangeFocus(EditorFocus::Prev)));
        }
        if c == 'l' && context.is_ctrl_pressed {
            return Some(AppStateActions::EditorActions(EditorContainerModelActions::ChangeFocus(EditorFocus::Next)));
        }
        let mode = app_state.app_state_store.get_app_mode();
        if mode == AppMode::Normal {
            if c == 'i' {
                return Some(AppStateActions::AppModelActions(AppModelActions::ChangeMode(AppMode::Editing)));
            }
            if c == 'u' {
                if context.is_shift_pressed {
                    return Some(AppStateActions::EditorActions(EditorContainerModelActions::Redo));
                }
                return Some(AppStateActions::EditorActions(EditorContainerModelActions::Undo));
            }
        }
        if mode == AppMode::Editing {
            return Some(AppStateActions::EditorActions(EditorContainerModelActions::Input(c)));
        }
        None
    }

    pub fn get_has_been_initialized(&self, app_state: &AppState) -> (r: bool)
        ensures
            r == app_state.editor_store.initialized(),
    {
        app_state.editor_store.get_is_initialized()
    }

    pub fn get_has_been_resized(&self, app_state: &AppState) -> (r: bool)
        ensures
            r == app_state.editor_store.resized(),
    {
        app_state.editor_store.get_is_resized_set()
    }

    /// The action that gives the buffers their first area.
    pub fn init(&mut self, rect: Area) -> (r: Option<AppStateActions>)
        ensures
            r == editor_action(EditorContainerModelActions::InitEditor(rect)),
    {
        Some(AppStateActions::EditorActions(EditorContainerModelActions::InitEditor(rect)))
    }

    /// The action that gives the buffers a new area.
    pub fn handle_resize(&mut self, rect: Area) -> (r: Option<AppStateActions>)
        ensures
            r == editor_action(EditorContainerModelActions::ResizeEditor(rect)),
    {
        Some(AppStateActions::EditorActions(EditorContainerModelActions::ResizeEditor(rect)))
    }
}

/// The action the command line makes of `key`.
pub open spec fn command_key_action(key: Key) -> Option<AppStateActions> {
    match key {
        Key::Char(c) => Some(AppStateActions::CommandBarActions(CommandBarModelActions::Input(c))),
        Key::Backspace => Some(AppStateActions::CommandBarActions(CommandBarModelActions::Backspace)),
        Key::Enter => Some(AppStateActions::CommandBarActions(CommandBarModelActions::Enter)),
        Key::Left => Some(AppStateActions::CommandBarActions(CommandBarModelActions::MoveCursor(CursorDirection::Left))),
        Key::Right => Some(AppStateActions::CommandBarActions(CommandBarModelActions::MoveCursor(CursorDirection::Right))),
        Key::Esc => Some(AppStateActions::CommandBarActions(CommandBarModelActions::Reset)),
        _ => None,
    }
}

/// The command line at the bottom of the screen.
pub struct CommandBar {}

impl CommandBar {
    pub fn new() -> (r: Self) {
        CommandBar {}
    }

    pub fn handle_event(&mut self, key: Key) -> (r: Option<AppStateActions>)
        ensures
            r == command_key_action(key),
    {
        match key {
            Key::Char(data) => Some(AppStateActions::CommandBarActions(CommandBarModelActions::Input(data))),
            Key::Backspace => Some(AppStateActions::CommandBarActions(CommandBarModelActions::Backspace)),
            Key::Enter => Some(AppStateActions::CommandBarActions(CommandBarModelActions::Enter)),
            Key::Left => Some(AppStateActions::CommandBarActions(CommandBarModelActions::MoveCursor(CursorDirection::Left))),
            Key::Right => Some(AppStateActions::CommandBarActions(CommandBarModelActions::MoveCursor(CursorDirection::Right))),
            Key::Esc => Some(AppStateActions::CommandBarActions(CommandBarModelActions::Reset)),
            _ => None,
        }
    }
}

/// A route action whose path reads `path`.
pub open spec fn route_to(r: Option<AppStateActions>, path: Seq<char>) -> bool {
    r matches Some(AppStateActions::RouterModelActions(RouterModelActions::Route(p))) && p@ == path
}

pub open spec fn editor_path() -> Seq<char> {
    seq!['/', 'e', 'd', 'i', 't', 'o', 'r']
}

/// What the first screen makes of `key`: `n` opens the editor, `q` asks to quit.
pub open spec fn welcome_action(key: Key, r: Option<AppStateActions>) -> bool {
    &&& key == Key::Char('n') ==> route_to(r, editor_path())
    &&& key == Key::Char('q') ==> r == Some(AppStateActions::AppModelActions(AppModelActions::Exit))
    &&& key != Key::Char('n') && key != Key::Char('q') ==> r is None
}

/// The first screen.
pub struct WelcomeVIew {}

impl WelcomeVIew {
    pub fn new() -> (r: Self) {
        WelcomeVIew {}
    }

    /// `n` opens the editor, `q` asks to quit.
    pub fn handle_event(&mut self, key: Key) -> (r: Option<AppStateActions>)
        ensures
            welcome_action(key, r),
    {
        match key {
            Key::Char('n') => {
                let path = String::from_str("/editor");
                proof {
                    reveal_strlit("/editor");
                }
                assert(path@ =~= editor_path());
                Some(AppStateActions::RouterModelActions(RouterModelActions::Route(path)))
            },
            Key::Char('q') => Some(AppStateActions::AppModelActions(AppModelActions::Exit)),
            _ => None,
        }
    }
}

/// The counter screen.
pub struct CounterView {}

impl CounterView {
    pub fn new() -> (r: Self) {
        CounterView {}
    }

    /// `j` and `k` count up and down; `;` goes back to the first screen in
    /// normal mode.
    pub fn handle_event(&mut self, key: Key, app_state: &AppState) -> (r: Option<AppStateActions>)
        ensures
            key == Key::Char('j') ==> r == Some(AppStateActions::CounterModelActions(CounterModelActions::Increment)),
            key == Key::Char('k') ==> r == Some(AppStateActions::CounterModelActions(CounterModelActions::Decrement)),
            key == Key::Char(';') && app_state.app_state_store.mode() == AppMode::Normal ==> route_to(r, seq!['/']),
            key == Key::Char(';') && app_state.app_state_store.mode() != AppMode::Normal ==> r is None,
            key != Key::Char('j') && key != Key::Char('k') && key != Key::Char(';') ==> r is None,
    {
        match key {
            Key::Char('j') => Some(AppStateActions::CounterModelActions(CounterModelActions::Increment)),
            Key::Char('k') => Some(AppStateActions::CounterModelActions(CounterModelActions::Decrement)),
            Key::Char(';') => {
                if app_state.app_state_store.get_app_mode() == AppMode::Normal {
                    let path = String::from_str("/");
                    proof {
                        reveal_strlit("/");
                    }
                    assert(path@ =~= seq!['/']);
                    Some(AppStateActions::RouterModelActions(RouterModelActions::Route(path)))
                } else {
                    None
                }
            },
            _ => None,
        }
    }
}


/// What the screen that has the keys makes of `key`: the command line in
/// command mode, else the screen of the current route.
pub open spec fn screen_action(app_state: AppState, key: Key, context: ViewContext, r: Option<AppStateActions>) -> bool {
    let mode = app_state.app_state_store.mode();
    let route = app_state.router_store.current_route();
    if mode == AppMode::Command {
        r == command_key_action(key)
    } else if route == seq!['/'] {
        welcome_action(key, r)
    } else if route == editor_path() {
        r == editor_key_action(key, context, mode)
    } else {
        r is None
    }
}

pub open spec fn opt_seq(a: Option<AppStateActions>) -> Seq<AppStateActions> {
    match a {
        Some(x) => seq![x],
        None => Seq::empty(),
    }
}

/// The action that the screen that has the keys makes of `key`.
pub fn screen_key_action(app_state: &AppState, key: Key, context: ViewContext) -> (r: Option<AppStateActions>)
    ensures
        screen_action(*app_state, key, context, r),
{
    if app_state.app_state_store.get_app_mode() == AppMode::Command {
        let mut bar = CommandBar::new();
        return bar.handle_event(key);
    }
    let route = app_state.router_store.get_current_route();
    proof {
        reveal_strlit("/");
        reveal_strlit("/editor");
    }
    assert("/"@ =~= seq!['/']);
    assert("/editor"@ =~= editor_path());
    if same_text(route.as_str(), "/") {
        let mut view = WelcomeVIew::new();
        view.handle_event(key)
    } else if same_text(route.as_str(), "/editor") {
        let mut view = EditorView::new();
        view.handle_event(key, context, app_state)
    } else {
        None
    }
}

/// The actions that a key press asks for, in order: command mode when `:`
/// comes in normal mode, then what the screen that has the keys makes of it.
pub fn key_actions(app_state: &AppState, key: Key, context: ViewContext) -> (r: Vec<AppStateActions>)
    ensures
        exists|a: Option<AppStateActions>| #[trigger] screen_action(*app_state, key, context, a) && r@ == (
            if key == Key::Char(':') && app_state.app_state_store.mode() == AppMode::Normal {
                seq![AppStateActions::AppModelActions(AppModelActions::ChangeMode(AppMode::Command))]
            } else {
                Seq::empty()
            }) + opt_seq(a),
{
    let mut r: Vec<AppStateActions> = Vec::new();
    let ghost first = r@;
    if key == Key::Char(':') && app_state.app_state_store.get_app_mode() == AppMode::Normal {
        r.push(AppStateActions::AppModelActions(AppModelActions::ChangeMode(AppMode::Command)));
    }
    let ghost switched = r@;
    let a = screen_key_action(app_state, key, context);
    let ghost ga = a;
    match a {
        Some(x) => r.push(x),
        None => {},
    }
    assert(r@ =~= switched + opt_seq(ga));
    r
}

} // verus!
