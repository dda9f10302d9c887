use vstd::prelude::*;

use crate::app_state::AppStateActions;

verus! {

#[derive(Clone, Copy, Debug, PartialEq, Eq, Structural)]
pub enum AppMode {
    Normal,
    Editing,
    Command,
}

pub enum AppModelActions {
    ChangeMode(AppMode),
    Exit,
}

/// The input mode and whether the application should quit.
pub struct AppModel {
    should_quit: bool,
    mode: AppMode,
}

impl AppModel {
    pub closed spec fn should_quit(&self) -> bool {
        self.should_quit
    }

    pub closed spec fn mode(&self) -> AppMode {
        self.mode
    }

    /// What `update` does with `action`.
    pub open spec fn updated(before: Self, action: AppModelActions, after: Self) -> bool {
        match action {
            AppModelActions::ChangeMode(m) => after.mode() == m && after.should_quit() == before.should_quit(),
            AppModelActions::Exit => after.should_quit() && after.mode() == before.mode(),
        }
    }

    pub fn update(&mut self, action: AppModelActions) -> (r: Option<AppStateActions>)
        ensures
            Self::updated(*old(self), action, *final(self)),
            r is None,
    {
        match action {
            AppModelActions::ChangeMode(mode) => {
                self.mode = mode;
            },
            AppModelActions::Exit => {
                self.should_quit = true;
            },
        }
        None
    }

    pub fn get_should_quit(&self) -> (r: bool)
        ensures
            r == self.should_quit(),
    {
        self.should_quit
    }

    pub fn get_app_mode(&self) -> (r: AppMode)
        ensures
            r == self.mode(),
    {
        self.mode
    }
}

impl Default for AppModel {
    fn default() -> (r: Self)
        ensures
            !r.should_quit(),
            r.mode() == AppMode::Normal,
    {
        AppModel { should_quit: false, mode: AppMode::Normal }
    }
}

} // verus!
