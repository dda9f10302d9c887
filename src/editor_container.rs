use vstd::prelude::*;

use crate::app_state::AppStateActions;
use crate::editor::{
    after_resize, handled, Area, CursorPosition, EditorCursorDirection, EditorModel,
    EditorModelActions,
};

verus! {

/// The most buffers a container holds.
pub const MAX_EDITORS: usize = 2;

#[derive(Clone, Copy, Debug, PartialEq, Eq, Structural)]
pub enum EditorFocus {
    Next,
    Prev,
}

pub enum EditorContainerModelActions {
    InitEditor(Area),
    ToggleResize,
    ResizeEditor(Area),
    Input(char),
    Undo,
    Redo,
    Backspace,
    Enter,
    MoveCursor(EditorCursorDirection),
    ChangeFocus(EditorFocus),
    AddEditor,
    CloseEditor,
    ToggleLines,
}

/// The open buffers (one or two) and which of them has the focus.
pub struct EditorContainerModel {
    initialized: bool,
    resized: bool,
    active_editor_index: usize,
    editors: Vec<EditorModel>,
}

/// The action that a container hands to its focused buffer, if any.
pub open spec fn buffer_action(action: EditorContainerModelActions) -> Option<EditorModelActions> {
    match action {
        EditorContainerModelActions::Input(c) => Some(EditorModelActions::Input(c)),
        EditorContainerModelActions::Undo => Some(EditorModelActions::Undo),
        EditorContainerModelActions::Redo => Some(EditorModelActions::Redo),
        EditorContainerModelActions::Backspace => Some(EditorModelActions::Backspace),
        EditorContainerModelActions::Enter => Some(EditorModelActions::AddLine),
        EditorContainerModelActions::MoveCursor(d) => Some(EditorModelActions::MoveCursor(d)),
        _ => None,
    }
}

/// Every buffer of `after` is that of `before` given the area `rect`.
pub open spec fn all_resized(before: Seq<EditorModel>, rect: Area, after: Seq<EditorModel>) -> bool {
    &&& after.len() == before.len()
    &&& forall|i: int| 0 <= i < before.len() ==> (#[trigger] after[i]).unrecorded(before[i], after_resize(before[i].state(), rect))
}

impl EditorContainerModel {
    pub closed spec fn editors(&self) -> Seq<EditorModel> {
        self.editors@
    }

    pub closed spec fn active(&self) -> int {
        self.active_editor_index as int
    }

    pub closed spec fn initialized(&self) -> bool {
        self.initialized
    }

    pub closed spec fn resized(&self) -> bool {
        self.resized
    }

    pub open spec fn wf(&self) -> bool {
        &&& 1 <= self.editors().len() <= MAX_EDITORS
        &&& 0 <= self.active() < self.editors().len()
        &&& forall|i: int| 0 <= i < self.editors().len() ==> (#[trigger] self.editors()[i]).wf()
    }

    /// What `update` does with `action`, as a relation between the container
    /// before and after.
    pub open spec fn updated(before: Self, action: EditorContainerModelActions, after: Self) -> bool {
        &&& after.wf()
        &&& match buffer_action(action) {
            Some(a) => {
                &&& after.editors().len() == before.editors().len()
                &&& handled(before.editors()[before.active()], a, after.editors()[before.active()])
                &&& forall|i: int| 0 <= i < before.editors().len() && i != before.active()
                    ==> #[trigger] after.editors()[i] == before.editors()[i]
                &&& after.active() == before.active()
                &&& after.initialized() == before.initialized()
                &&& after.resized() == before.resized()
            },
            None => match action {
                EditorContainerModelActions::InitEditor(rect) => {
                    &&& all_resized(before.editors(), rect, after.editors())
                    &&& after.active() == before.active()
                    &&& after.initialized()
                    &&& after.resized() == before.resized()
                },
                EditorContainerModelActions::ResizeEditor(rect) => {
                    &&& all_resized(before.editors(), rect, after.editors())
                    &&& after.active() == before.active()
                    &&& after.initialized() == before.initialized()
                    &&& !after.resized()
                },
                EditorContainerModelActions::ToggleResize => {
                    &&& after.editors() == before.editors()
                    &&& after.active() == before.active()
                    &&& after.initialized() == before.initialized()
                    &&& after.resized()
                },
                EditorContainerModelActions::ChangeFocus(f) => {
                    &&& after.editors() == before.editors()
                    &&& after.active() == match f {
                        EditorFocus::Next => min_index(before.active() + 1, before.editors().len() - 1),
                        EditorFocus::Prev => if before.active() == 0 { 0 } else { before.active() - 1 },
                    }
                    &&& after.initialized() == before.initialized()
                    &&& after.resized() == before.resized()
                },
                EditorContainerModelActions::AddEditor => {
                    &&& before.editors().len() < MAX_EDITORS ==> {
                        &&& after.editors().len() == before.editors().len() + 1
                        &&& after.editors().subrange(0, before.editors().len() as int) == before.editors()
                        &&& after.editors().last().fresh()
                    }
                    &&& before.editors().len() >= MAX_EDITORS ==> after.editors() == before.editors()
                    &&& after.active() == before.active()
                    &&& after.initialized() == before.initialized()
                    &&& after.resized() == before.resized()
                },
                _ => after == before,
            },
        }
    }
}

pub open spec fn min_index(a: int, b: int) -> int {
    if a < b {
        a
    } else {
        b
    }
}

impl EditorContainerModel {
    /// Resizes every buffer to `rect`.
    fn resize_all(&mut self, rect: Area)
        requires
            old(self).wf(),
        ensures
            final(self).wf(),
            all_resized(old(self).editors(), rect, final(self).editors()),
            final(self).active() == old(self).active(),
            final(self).initialized() == old(self).initialized(),
            final(self).resized() == old(self).resized(),
    {
        let mut i: usize = 0;
        while i < self.editors.len()
            invariant
                i <= self.editors@.len(),
                self.editors@.len() == old(self).editors@.len(),
                self.active_editor_index == old(self).active_editor_index,
                self.initialized == old(self).initialized,
                self.resized == old(self).resized,
                forall|j: int| 0 <= j < i ==> (#[trigger] self.editors@[j]).unrecorded(
                    old(self).editors@[j], after_resize(old(self).editors@[j].state(), rect)),
                forall|j: int| i <= j < self.editors@.len() ==> #[trigger] self.editors@[j] == old(self).editors@[j],
                forall|j: int| 0 <= j < old(self).editors@.len() ==> (#[trigger] old(self).editors@[j]).wf(),
            decreases self.editors@.len() - i,
        {
            let ghost before = self.editors@;
            self.editors[i].resize(rect);
            assert(forall|j: int| 0 <= j < before.len() && j != i ==> self.editors@[j] == before[j]);
            i = i + 1;
        }
    }

    pub fn update(&mut self, action: EditorContainerModelActions) -> (r: Option<AppStateActions>)
        requires
            old(self).wf(),
        ensures
            Self::updated(*old(self), action, *final(self)),
            r is None,
    {
        let ghost before = self.editors@;
        let active = self.active_editor_index;
        match action {
            EditorContainerModelActions::InitEditor(rect) => {
                self.initialized = true;
                self.resize_all(rect);
            },
            EditorContainerModelActions::Undo => {
                self.handle_active(EditorModelActions::Undo);
            },
            EditorContainerModelActions::Redo => {
                self.handle_active(EditorModelActions::Redo);
            },
            EditorContainerModelActions::Input(c) => {
                self.handle_active(EditorModelActions::Input(c));
            },
            EditorContainerModelActions::Enter => {
                self.handle_active(EditorModelActions::AddLine);
            },
            EditorContainerModelActions::MoveCursor(direction) => {
                self.handle_active(EditorModelActions::MoveCursor(direction));
            },
            EditorContainerModelActions::Backspace => {
                self.handle_active(EditorModelActions::Backspace);
            },
            EditorContainerModelActions::ChangeFocus(direction) => match direction {
                EditorFocus::Next => {
                    let last = self.editors.len() - 1;
                    self.active_editor_index = if active < last { active + 1 } else { last };
                },
                EditorFocus::Prev => {
                    self.active_editor_index = if active == 0 { 0 } else { active - 1 };
                },
            },
            EditorContainerModelActions::ToggleLines => {},
            EditorContainerModelActions::CloseEditor => {},
            EditorContainerModelActions::AddEditor => {
                if self.editors.len() < MAX_EDITORS {
                    self.editors.push(EditorModel::default());
                    assert(self.editors@.subrange(0, before.len() as int) =~= before);
                }
            },
            EditorContainerModelActions::ToggleResize => {
                self.resized = true;
            },
            EditorContainerModelActions::ResizeEditor(rect) => {
                self.resized = false;
                self.resize_all(rect);
            },
        }
        None
    }

    /// Hands `action` to the focused buffer.
    fn handle_active(&mut self, action: EditorModelActions)
        requires
            old(self).wf(),
        ensures
            final(self).wf(),
            final(self).editors().len() == old(self).editors().len(),
            handled(old(self).editors()[old(self).active()], action, final(self).editors()[old(self).active()]),
            forall|i: int| 0 <= i < old(self).editors().len() && i != old(self).active()
                ==> #[trigger] final(self).editors()[i] == old(self).editors()[i],
            final(self).active() == old(self).active(),
            final(self).initialized() == old(self).initialized(),
            final(self).resized() == old(self).resized(),
    {
        let ghost before = self.editors@;
        let active = self.active_editor_index;
        self.editors[active].handle_action(action);
        assert(forall|i: int| 0 <= i < before.len() && i != active ==> self.editors@[i] == before[i]);
    }

    pub fn get_editors(&self) -> (r: &Vec<EditorModel>)
        ensures
            r@ == self.editors(),
    {
        &self.editors
    }

    pub fn get_active_editor_index(&self) -> (r: usize)
        ensures
            r == self.active(),
    {
        self.active_editor_index
    }

    pub fn get_active_cursor_position(&self) -> (r: CursorPosition)
        requires
            self.wf(),
        ensures
            r == self.editors()[self.active()].state().1,
    {
        self.editors[self.active_editor_index].get_cursor_position()
    }

    pub fn get_is_initialized(&self) -> (r: bool)
        ensures
            r == self.initialized(),
    {
        self.initialized
    }

    pub fn get_is_resized_set(&self) -> (r: bool)
        ensures
            r == self.resized(),
    {
        self.resized
    }
}

impl Default for EditorContainerModel {
    /// One empty buffer, focused, not yet given an area.
    fn default() -> (r: Self)
        ensures
            r.wf(),
            r.editors().len() == 1,
            r.editors()[0].fresh(),
            r.active() == 0,
            !r.initialized(),
            !r.resized(),
    {
        let mut editors: Vec<EditorModel> = Vec::new();
        editors.push(EditorModel::default());
        EditorContainerModel { initialized: false, resized: false, active_editor_index: 0, editors }
    }
}

} // verus!
