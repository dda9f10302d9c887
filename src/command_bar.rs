use vstd::prelude::*;

use crate::app_model::{AppMode, AppModelActions};
use crate::app_state::AppStateActions;
use crate::text::{chars_of, same_text, string_of};

verus! {

/// The command line: its text, which starts with the prompt `:`, and a cursor
/// that never moves onto the prompt.
pub struct CommandBarModel {
    pub input: String,
    pub cursor_position: usize,
}

#[derive(Clone, Copy, Debug, PartialEq, Eq, Structural)]
pub enum CursorDirection {
    Left,
    Right,
}

pub enum CommandBarModelActions {
    Input(char),
    MoveCursor(CursorDirection),
    Backspace,
    Enter,
    Reset,
}

/// The action a command asks for: `q`, `exit` and `quit` ask to quit.
pub open spec fn command_action(command: Seq<char>) -> Option<AppStateActions> {
    if command == seq!['q'] || command == seq!['e', 'x', 'i', 't'] || command == seq!['q', 'u', 'i', 't'] {
        Some(AppStateActions::AppModelActions(AppModelActions::Exit))
    } else {
        None
    }
}

impl CommandBarModel {
    pub open spec fn wf(&self) -> bool {
        1 <= self.cursor_position <= self.input@.len()
    }

    /// What `update` does with `action`, and the action it asks for next.
    pub open spec fn updated(
        before: Self,
        action: CommandBarModelActions,
        after: Self,
        next: Option<AppStateActions>,
    ) -> bool {
        let cursor = before.cursor_position;
        let text = before.input@;
        &&& after.wf()
        &&& match action {
            CommandBarModelActions::Input(c) => {
                &&& after.input@ == text.insert(cursor as int, c)
                &&& after.cursor_position == cursor + 1
                &&& next is None
            },
            CommandBarModelActions::MoveCursor(CursorDirection::Left) => {
                &&& after.input@ == text
                &&& after.cursor_position == if cursor > 1 { (cursor - 1) as usize } else { cursor }
                &&& next is None
            },
            CommandBarModelActions::MoveCursor(CursorDirection::Right) => {
                &&& after.input@ == text
                &&& after.cursor_position == if cursor < text.len() { (cursor + 1) as usize } else { cursor }
                &&& next is None
            },
            CommandBarModelActions::Backspace => {
                &&& after.input@ == if cursor != 1 { text.remove(cursor - 1) } else { text }
                &&& after.cursor_position == if cursor != 1 { (cursor - 1) as usize } else { cursor }
                &&& next is None
            },
            CommandBarModelActions::Enter => {
                &&& after.input@ == text
                &&& after.cursor_position == cursor
                &&& next == command_action(text.subrange(1, text.len() as int))
            },
            CommandBarModelActions::Reset => {
                &&& after.input@ == seq![':']
                &&& after.cursor_position == 1
                &&& next == Some(AppStateActions::AppModelActions(AppModelActions::ChangeMode(AppMode::Normal)))
            },
        }
    }

    pub fn update(&mut self, action: CommandBarModelActions) -> (r: Option<AppStateActions>)
        requires
            old(self).wf(),
        ensures
            Self::updated(*old(self), action, *final(self), r),
    {
        let cursor = self.cursor_position;
        match action {
            CommandBarModelActions::Input(data) => {
                let mut text = chars_of(self.input.as_str());
                text.insert(cursor, data);
                let n = text.len();
                assert(cursor < n);
                self.input = string_of(&text);
                self.cursor_position = cursor + 1;
                None
            },
            CommandBarModelActions::MoveCursor(direction) => match direction {
                CursorDirection::Left => {
                    if cursor > 1 {
                        self.cursor_position = cursor - 1;
                    }
                    None
                },
                CursorDirection::Right => {
                    if cursor < self.input.as_str().unicode_len() {
                        self.cursor_position = cursor + 1;
                    }
                    None
                },
            },
            CommandBarModelActions::Backspace => {
                if cursor != 1 {
                    let mut text = chars_of(self.input.as_str());
                    text.remove(cursor - 1);
                    self.input = string_of(&text);
                    self.cursor_position = cursor - 1;
                }
                None
            },
            CommandBarModelActions::Enter => {
                let text = chars_of(self.input.as_str());
                let mut command: Vec<char> = Vec::new();
                let mut i: usize = 1;
                while i < text.len()
                    invariant
                        1 <= i <= text@.len(),
                        command@ == text@.subrange(1, i as int),
                    decreases text@.len() - i,
                {
                    command.push(text[i]);
                    proof {
                        assert(text@.subrange(1, i + 1) =~= text@.subrange(1, i as int).push(text@[i as int]));
                    }
                    i = i + 1;
                }
                let command = string_of(&command);
                self.handle_input(command.as_str())
            },
            CommandBarModelActions::Reset => {
                self.input = String::from_str(":");
                proof {
                    reveal_strlit(":");
                }
                assert(self.input@ =~= seq![':']);
                self.cursor_position = 1;
                Some(AppStateActions::AppModelActions(AppModelActions::ChangeMode(AppMode::Normal)))
            },
        }
    }

    pub fn get_input(&self) -> (r: &str)
        ensures
            r@ == self.input@,
    {
        self.input.as_str()
    }

    pub fn get_cursor_position(&self) -> (r: usize)
        ensures
            r == self.cursor_position,
    {
        self.cursor_position
    }

    /// The action that `command` asks for, if any.
    pub fn handle_input(&self, command: &str) -> (r: Option<AppStateActions>)
        ensures
            r == command_action(command@),
    {
        proof {
            reveal_strlit("q");
            reveal_strlit("exit");
            reveal_strlit("quit");
        }
        assert("q"@ =~= seq!['q']);
        assert("exit"@ =~= seq!['e', 'x', 'i', 't']);
        assert("quit"@ =~= seq!['q', 'u', 'i', 't']);
        if same_text(command, "q") || same_text(command, "exit") || same_text(command, "quit") {
            Some(AppStateActions::AppModelActions(AppModelActions::Exit))
        } else {
            None
        }
    }

    pub fn new() -> (r: Self)
        ensures
            r.wf(),
            r.input@ == seq![':'],
            r.cursor_position == 1,
    {
        CommandBarModel::default()
    }
}

impl Default for CommandBarModel {
    fn default() -> (r: Self)
        ensures
            r.wf(),
            r.input@ == seq![':'],
            r.cursor_position == 1,
    {
        let input = String::from_str(":");
        proof {
            reveal_strlit(":");
        }
        assert(input@ =~= seq![':']);
        CommandBarModel { input, cursor_position: 1 }
    }
}

} // verus!
