use vstd::prelude::*;

use crate::app_state::AppStateActions;

verus! {

pub enum CounterModelActions {
    Increment,
    Decrement,
}

/// A counter that wraps around at the ends of `i64`.
pub struct CounterModel {
    counter: i64,
}

impl CounterModel {
    pub closed spec fn counter(&self) -> i64 {
        self.counter
    }

    /// What `update` does with `action`.
    pub open spec fn updated(before: Self, action: CounterModelActions, after: Self) -> bool {
        match action {
            CounterModelActions::Increment => after.counter() == vstd::wrapping::i64_specs::wrapping_add(before.counter(), 1),
            CounterModelActions::Decrement => after.counter() == vstd::wrapping::i64_specs::wrapping_sub(before.counter(), 1),
        }
    }

    pub fn update(&mut self, action: CounterModelActions) -> (r: Option<AppStateActions>)
        ensures
            Self::updated(*old(self), action, *final(self)),
            r is None,
    {
        match action {
            CounterModelActions::Increment => {
                self.counter = self.counter.wrapping_add(1);
            },
            CounterModelActions::Decrement => {
                self.counter = self.counter.wrapping_sub(1);
            },
        }
        None
    }

    pub fn get_counter(&self) -> (r: i64)
        ensures
            r == self.counter(),
    {
        self.counter
    }

    pub fn new() -> (r: Self)
        ensures
            r.counter() == 0,
    {
        CounterModel::default()
    }
}

impl Default for CounterModel {
    fn default() -> (r: Self)
        ensures
            r.counter() == 0,
    {
        CounterModel { counter: 0 }
    }
}

} // verus!
