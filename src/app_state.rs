use vstd::prelude::*;

use crate::app_model::{AppMode, AppModel, AppModelActions};
use crate::command_bar::{CommandBarModel, CommandBarModelActions};
use crate::counter::{CounterModel, CounterModelActions};
use crate::editor_container::{EditorContainerModel, EditorContainerModelActions};
use crate::router::{RouterModel, RouterModelActions};

verus! {

/// The most actions that one call of `AppState::update` resolves; a chain that
/// is still going after that many is cut off.
pub const CHAIN_LIMIT: usize = 16;

pub enum BaseActions {
    Resized,
}

pub enum AppStateActions {
    BaseAppActions(BaseActions),
    AppModelActions(AppModelActions),
    CommandBarActions(CommandBarModelActions),
    RouterModelActions(RouterModelActions),
    EditorActions(EditorContainerModelActions),
    CounterModelActions(CounterModelActions),
}

/// The state of the whole application, one slice per concern.
pub struct AppState {
    pub app_state_store: AppModel,
    pub command_bar_store: CommandBarModel,
    pub router_store: RouterModel,
    pub editor_store: EditorContainerModel,
    pub counter_store: CounterModel,
}

/// What resolving one action does to the state, and the action it asks for next.
pub open spec fn stepped(
    before: AppState,
    action: AppStateActions,
    after: AppState,
    next: Option<AppStateActions>,
) -> bool {
    &&& after.wf()
    &&& match action {
        AppStateActions::BaseAppActions(BaseActions::Resized) => {
            &&& EditorContainerModel::updated(before.editor_store, EditorContainerModelActions::ToggleResize, after.editor_store)
            &&& next is None
            &&& after.app_state_store == before.app_state_store
            &&& after.command_bar_store == before.command_bar_store
            &&& after.router_store == before.router_store
            &&& after.counter_store == before.counter_store
        },
        AppStateActions::AppModelActions(a) => {
            &&& AppModel::updated(before.app_state_store, a, after.app_state_store)
            &&& next is None
            &&& after.command_bar_store == before.command_bar_store
            &&& after.router_store == before.router_store
            &&& after.editor_store == before.editor_store
            &&& after.counter_store == before.counter_store
        },
        AppStateActions::CommandBarActions(a) => {
            &&& CommandBarModel::updated(before.command_bar_store, a, after.command_bar_store, next)
            &&& if a is Enter {
                AppModel::updated(before.app_state_store, AppModelActions::ChangeMode(AppMode::Normal), after.app_state_store)
            } else {
                after.app_state_store == before.app_state_store
            }
            &&& after.router_store == before.router_store
            &&& after.editor_store == before.editor_store
            &&& after.counter_store == before.counter_store
        },
        AppStateActions::RouterModelActions(a) => {
            &&& RouterModel::updated(before.router_store, a, after.router_store)
            &&& next is None
            &&& after.app_state_store == before.app_state_store
            &&& after.command_bar_store == before.command_bar_store
            &&& after.editor_store == before.editor_store
            &&& after.counter_store == before.counter_store
        },
        AppStateActions::EditorActions(a) => {
            &&& EditorContainerModel::updated(before.editor_store, a, after.editor_store)
            &&& next is None
            &&& after.app_state_store == before.app_state_store
            &&& after.command_bar_store == before.command_bar_store
            &&& after.router_store == before.router_store
            &&& after.counter_store == before.counter_store
        },
        AppStateActions::CounterModelActions(a) => {
            &&& CounterModel::updated(before.counter_store, a, after.counter_store)
            &&& next is None
            &&& after.app_state_store == before.app_state_store
            &&& after.command_bar_store == before.command_bar_store
            &&& after.router_store == before.router_store
            &&& after.editor_store == before.editor_store
        },
    }
}

/// `after` is what resolving `message` and each action it leads to makes of
/// `before`, at most `fuel` actions in all.
pub open spec fn resolved(before: AppState, message: Option<AppStateActions>, after: AppState, fuel: nat) -> bool
    decreases fuel,
{
    match message {
        None => after == before,
        Some(a) => if fuel == 0 {
            after == before
        } else {
            exists|mid: AppState, next: Option<AppStateActions>|
                #[trigger] stepped(before, a, mid, next) && resolved(mid, next, after, (fuel - 1) as nat)
        },
    }
}

impl AppState {
    pub open spec fn wf(&self) -> bool {
        &&& self.command_bar_store.wf()
        &&& self.editor_store.wf()
    }

    /// Resolves one action against the slice it belongs to.
    fn apply(&mut self, action: AppStateActions) -> (r: Option<AppStateActions>)
        requires
            old(self).wf(),
        ensures
            stepped(*old(self), action, *final(self), r),
    {
        match action {
            AppStateActions::BaseAppActions(base_action) => match base_action {
                BaseActions::Resized => {
                    self.editor_store.update(EditorContainerModelActions::ToggleResize);
                    None
                },
            },
            AppStateActions::AppModelActions(model_action) => self.app_state_store.update(model_action),
            AppStateActions::CommandBarActions(model_action) => {
                let should_reset_mode = matches!(model_action, CommandBarModelActions::Enter);
                let next = self.command_bar_store.update(model_action);
                if should_reset_mode {
                    self.app_state_store.update(AppModelActions::ChangeMode(AppMode::Normal));
                }
                next
            },
            AppStateActions::RouterModelActions(model_action) => self.router_store.update(model_action),
            AppStateActions::EditorActions(model_action) => self.editor_store.update(model_action),
            AppStateActions::CounterModelActions(model_action) => self.counter_store.update(model_action),
        }
    }

    /// Resolves `message`, then the action it asks for next, and so on until
    /// none is left or `CHAIN_LIMIT` actions have been resolved.
    pub fn update(&mut self, message: Option<AppStateActions>)
        requires
            old(self).wf(),
        ensures
            final(self).wf(),
            resolved(*old(self), message, *final(self), CHAIN_LIMIT as nat),
    {
        let mut pending = message;
        let mut fuel: usize = CHAIN_LIMIT;
        while fuel > 0 && pending.is_some()
            invariant
                self.wf(),
                fuel <= CHAIN_LIMIT,
                forall|z: AppState| #[trigger] resolved(*self, pending, z, fuel as nat)
                    ==> resolved(*old(self), message, z, CHAIN_LIMIT as nat),
            decreases fuel,
        {
            let ghost current = *self;
            let ghost p0 = pending;
            let ghost f0 = fuel;
            let action = pending.unwrap();
            let ghost a = action;
            let next = self.apply(action);
            proof {
                assert forall|z: AppState| #[trigger] resolved(*self, next, z, (f0 - 1) as nat)
                    implies resolved(*old(self), message, z, CHAIN_LIMIT as nat) by {
                    assert(stepped(current, a, *self, next));
                    assert(resolved(current, p0, z, f0 as nat));
                }
            }
            pending = next;
            fuel = fuel - 1;
            proof {
                assert(fuel as nat == (f0 - 1) as nat);
                assert(pending == next);
            }
        }
        assert(resolved(*self, pending, *self, fuel as nat));
    }

    /// Normal mode, not quitting, an empty command line, the route `/`, one
    /// empty buffer and a counter at 0.
    pub fn new() -> (r: Self)
        ensures
            r.wf(),
            !r.app_state_store.should_quit(),
            r.app_state_store.mode() == AppMode::Normal,
            r.command_bar_store.input@ == seq![':'],
            r.command_bar_store.cursor_position == 1,
            r.editor_store.editors().len() == 1,
            r.editor_store.editors()[0].fresh(),
            r.editor_store.active() == 0,
            !r.editor_store.initialized(),
            !r.editor_store.resized(),
            r.router_store.routes().len() == 0,
            r.router_store.current_route() == seq!['/'],
            r.counter_store.counter() == 0,
    {
        AppState::default()
    }
}

impl Default for AppState {
    fn default() -> (r: Self)
        ensures
            r.wf(),
            !r.app_state_store.should_quit(),
            r.app_state_store.mode() == AppMode::Normal,
            r.command_bar_store.input@ == seq![':'],
            r.command_bar_store.cursor_position == 1,
            r.editor_store.editors().len() == 1,
            r.editor_store.editors()[0].fresh(),
            r.editor_store.active() == 0,
            !r.editor_store.initialized(),
            !r.editor_store.resized(),
            r.router_store.routes().len() == 0,
            r.router_store.current_route() == seq!['/'],
            r.counter_store.counter() == 0,
    {
        AppState {
            app_state_store: AppModel::default(),
            command_bar_store: CommandBarModel::default(),
            router_store: RouterModel::default(),
            editor_store: EditorContainerModel::default(),
            counter_store: CounterModel::default(),
        }
    }
}

} // verus!
