use vstd::prelude::*;

use crate::app_state::AppStateActions;
use crate::dispatcher::Store;
use crate::text::contains_text;

verus! {

/// Some route of `routes` reads `path`.
pub open spec fn known_route(routes: Seq<String>, path: Seq<char>) -> bool {
    exists|i: int| 0 <= i < routes.len() && (#[trigger] routes[i])@ == path
}

pub enum Navigate {
    Path(String),
}

/// The known routes and the one shown, as a slice of a dispatcher.
pub struct Router {
    pub routes: Vec<String>,
    pub current_route: String,
}

impl Router {
    pub fn new() -> (r: Self)
        ensures
            r.routes@.len() == 0,
            r.current_route@ == seq!['/'],
    {
        let root = String::from_str("/");
        proof {
            reveal_strlit("/");
        }
        Router { routes: Vec::new(), current_route: root }
    }

    pub fn register_routes(&mut self, routes: Vec<String>)
        ensures
            final(self).routes@ == routes@,
            final(self).current_route == old(self).current_route,
    {
        self.routes = routes;
    }
}

impl Default for Router {
    fn default() -> (r: Self)
        ensures
            r.routes@.len() == 0,
            r.current_route@ == seq!['/'],
    {
        Router::new()
    }
}

impl Store for Router {
    type Action = Navigate;

    /// A known route becomes the current one; any other path changes nothing.
    open spec fn handles(&self, action: &Navigate, after: &Router) -> bool {
        match action {
            Navigate::Path(path) => if known_route(self.routes@, path@) {
                *after == Router { routes: self.routes, current_route: *path }
            } else {
                *after == *self
            },
        }
    }

    fn kind(&self) -> (k: u64) {
        0
    }

    fn handle(&mut self, action: &Navigate) {
        match action {
            Navigate::Path(path) => {
                if contains_text(&self.routes, path.as_str()) {
                    self.current_route = path.clone();
                }
            },
        }
    }
}

pub enum RouterModelActions {
    Route(String),
}

/// The known routes and the one shown, as a slice of the application state.
pub struct RouterModel {
    routes: Vec<String>,
    current_route: String,
}

impl RouterModel {
    pub closed spec fn routes(&self) -> Seq<String> {
        self.routes@
    }

    pub closed spec fn current_route(&self) -> Seq<char> {
        self.current_route@
    }

    /// What `update` does with `action`: a known route becomes the current one.
    pub open spec fn updated(before: Self, action: RouterModelActions, after: Self) -> bool {
        match action {
            RouterModelActions::Route(path) => {
                &&& after.routes() == before.routes()
                &&& after.current_route() == if known_route(before.routes(), path@) {
                    path@
                } else {
                    before.current_route()
                }
            },
        }
    }

    pub fn update(&mut self, action: RouterModelActions) -> (r: Option<AppStateActions>)
        ensures
            Self::updated(*old(self), action, *final(self)),
            r is None,
    {
        match action {
            RouterModelActions::Route(path) => {
                if contains_text(&self.routes, path.as_str()) {
                    self.current_route = path;
                }
            },
        }
        None
    }

    pub fn register_routes(&mut self, routes: Vec<String>)
        ensures
            final(self).routes() == routes@,
            final(self).current_route() == old(self).current_route(),
    {
        self.routes = routes;
    }

    pub fn get_current_route(&self) -> (r: String)
        ensures
            r@ == self.current_route(),
    {
        self.current_route.clone()
    }
}

impl Default for RouterModel {
    fn default() -> (r: Self)
        ensures
            r.routes().len() == 0,
            r.current_route() == seq!['/'],
    {
        let root = String::from_str("/");
        proof {
            reveal_strlit("/");
        }
        RouterModel { routes: Vec::new(), current_route: root }
    }
}

} // verus!
