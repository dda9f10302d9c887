use vstd::prelude::*;

use crate::dispatcher::{Dispatcher, Store};
use crate::keys::Key;

verus! {

pub enum ModelActions {
    Increment,
    Decrement,
    Exit,
}

/// A counter and a flag that asks the application to quit.
pub struct Model {
    pub counter: i64,
    pub should_quit: bool,
}

impl Store for Model {
    type Action = ModelActions;

    open spec fn handles(&self, action: &ModelActions, after: &Model) -> bool {
        *after == model_after(*self, *action)
    }

    fn kind(&self) -> (k: u64) {
        0
    }

    fn handle(&mut self, action: &ModelActions) {
        match action {
            ModelActions::Increment => self.counter = self.counter.wrapping_add(1),
            ModelActions::Decrement => self.counter = self.counter.wrapping_sub(1),
            ModelActions::Exit => self.should_quit = true,
        }
    }
}

/// What handling `action` makes of `m`; the counter wraps around at the ends of `i64`.
pub open spec fn model_after(m: Model, action: ModelActions) -> Model {
        match action {
            ModelActions::Increment => Model {
                counter: vstd::wrapping::i64_specs::wrapping_add(m.counter, 1),
                should_quit: m.should_quit,
            },
            ModelActions::Decrement => Model {
                counter: vstd::wrapping::i64_specs::wrapping_sub(m.counter, 1),
                should_quit: m.should_quit,
            },
            ModelActions::Exit => Model { counter: m.counter, should_quit: true },
        }
}

impl Default for Model {
    fn default() -> (r: Self)
        ensures
            r.counter == 0,
            !r.should_quit,
    {
        Model { counter: 0, should_quit: false }
    }
}

impl Model {
    pub fn new() -> (r: Self)
        ensures
            r.counter == 0,
            !r.should_quit,
    {
        Model::default()
    }

    /// A model that has already been asked to quit.
    pub fn exit_model() -> (r: Self)
        ensures
            r.counter == 0,
            r.should_quit,
    {
        Model { should_quit: true, ..Model::default() }
    }
}

/// The action that a key asks of a `Model`, if any.
pub open spec fn key_action(key: Key) -> Option<ModelActions> {
    match key {
        Key::Esc => Some(ModelActions::Exit),
        Key::Char(c) => if c == 'q' {
            Some(ModelActions::Exit)
        } else if c == 'j' {
            Some(ModelActions::Increment)
        } else if c == 'k' {
            Some(ModelActions::Decrement)
        } else {
            None
        },
        Key::Right => Some(ModelActions::Increment),
        Key::Left => Some(ModelActions::Decrement),
        _ => None,
    }
}

/// Dispatches the action that `key` asks for, if any.
pub fn update(dispatcher: &mut Dispatcher<Model>, key: Key)
    requires
        old(dispatcher).wf(),
    ensures
        final(dispatcher).wf(),
        match key_action(key) {
            Some(a) => final(dispatcher).stores() == old(dispatcher).stores().map_values(|m: Model| model_after(m, a)),
            None => final(dispatcher).stores() == old(dispatcher).stores(),
        },
{
    let ghost before = dispatcher.stores();
    match key {
        Key::Esc | Key::Char('q') => dispatcher.dispatch(ModelActions::Exit),
        Key::Right | Key::Char('j') => dispatcher.dispatch(ModelActions::Increment),
        Key::Left | Key::Char('k') => dispatcher.dispatch(ModelActions::Decrement),
        _ => {},
    }
    proof {
        if let Some(a) = key_action(key) {
            assert(dispatcher.stores() =~= before.map_values(|m: Model| model_after(m, a)));
        }
    }
}

} // verus!
