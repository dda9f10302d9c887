use jdiff::dispatcher::{Dispatcher, Store};
use jdiff::keys::Key;
use jdiff::model::{update, Model, ModelActions};
use jdiff::router::{Navigate, Router};

const MARBLES: u64 = 0;

enum MarbleStoreActions {
    Increment,
    Decrement,
    Add(i64),
}

struct MarbleStore {
    pub marbles: i64,
}

impl Store for MarbleStore {
    type Action = MarbleStoreActions;

    fn kind(&self) -> u64 {
        MARBLES
    }

    fn handle(&mut self, action: &Self::Action) {
        match action {
            MarbleStoreActions::Increment => self.marbles += 1,
            MarbleStoreActions::Decrement => self.marbles -= 1,
            MarbleStoreActions::Add(amount) => self.marbles += amount,
        }
    }
}

impl MarbleStore {
    pub fn new() -> Self {
        MarbleStore { marbles: 0 }
    }
}

#[test]
fn test_registering_store() {
    let mut marble_dispatcher = Dispatcher::<MarbleStore>::new();
    let marbles_store = MarbleStore::new();

    marble_dispatcher.register_store(marbles_store);
}

#[test]
fn test_action_increment() {
    let mut marble_dispatcher = Dispatcher::<MarbleStore>::new();
    marble_dispatcher.register_store(MarbleStore::new());
    marble_dispatcher.dispatch(MarbleStoreActions::Increment);
    let store = marble_dispatcher.get_store(MARBLES).unwrap();

    assert_eq!(store.marbles, 1)
}

#[test]
fn test_action_decrement() {
    let mut marble_dispatcher = Dispatcher::<MarbleStore>::new();
    marble_dispatcher.register_store(MarbleStore::new());
    marble_dispatcher.dispatch(MarbleStoreActions::Decrement);
    let store = marble_dispatcher.get_store(MARBLES).unwrap();

    assert_eq!(store.marbles, -1);
}

#[test]
fn test_action_add() {
    let mut marble_dispatcher = Dispatcher::<MarbleStore>::new();
    marble_dispatcher.register_store(MarbleStore::new());

    marble_dispatcher.dispatch(MarbleStoreActions::Add(2137));
    let store = marble_dispatcher.get_store(MARBLES).unwrap();

    assert_eq!(store.marbles, 2137);
}

/// Two slices of different kinds that both react to `Exit`.
enum Slices {
    A(Model),
    B(Model),
}

impl Store for Slices {
    type Action = ModelActions;

    fn kind(&self) -> u64 {
        match self {
            Slices::A(_) => 1,
            Slices::B(_) => 2,
        }
    }

    fn handle(&mut self, action: &ModelActions) {
        match self {
            Slices::A(m) | Slices::B(m) => m.handle(action),
        }
    }
}

fn quits(d: &Dispatcher<Slices>, kind: u64) -> bool {
    match d.get_store(kind).unwrap() {
        Slices::A(m) | Slices::B(m) => m.should_quit,
    }
}

fn counter_of(d: &Dispatcher<Slices>, kind: u64) -> i64 {
    match d.get_store(kind).unwrap() {
        Slices::A(m) | Slices::B(m) => m.counter,
    }
}

#[test]
fn exit_reaches_every_slice_in_one_dispatch() {
    let mut d = Dispatcher::<Slices>::new();
    d.register_store(Slices::A(Model::new()));
    d.register_store(Slices::B(Model::new()));
    assert!(!quits(&d, 1));
    assert!(!quits(&d, 2));
    d.dispatch(ModelActions::Exit);
    assert!(quits(&d, 1));
    assert!(quits(&d, 2));
}

#[test]
fn each_slice_handles_a_dispatch_once() {
    let mut d = Dispatcher::<Slices>::new();
    d.register_store(Slices::A(Model::new()));
    d.register_store(Slices::B(Model::new()));
    d.dispatch(ModelActions::Increment);
    assert_eq!(counter_of(&d, 1), 1);
    assert_eq!(counter_of(&d, 2), 1);
    d.dispatch(ModelActions::Increment);
    assert_eq!(counter_of(&d, 1), 2);
    assert_eq!(counter_of(&d, 2), 2);
}

#[test]
fn registering_a_kind_again_replaces_it() {
    let mut d = Dispatcher::<Slices>::new();
    d.register_store(Slices::A(Model::new()));
    d.dispatch(ModelActions::Increment);
    assert_eq!(counter_of(&d, 1), 1);
    d.register_store(Slices::A(Model::exit_model()));
    assert_eq!(counter_of(&d, 1), 0);
    assert!(quits(&d, 1));
}

#[test]
fn lookup_of_an_unregistered_kind_is_none() {
    let d = Dispatcher::<Slices>::new();
    assert!(d.get_store(1).is_none());
}

#[test]
fn model_counter_wraps_at_the_ends() {
    let mut m = Model { counter: i64::MAX, should_quit: false };
    m.handle(&ModelActions::Increment);
    assert_eq!(m.counter, i64::MIN);
    m.handle(&ModelActions::Decrement);
    assert_eq!(m.counter, i64::MAX);
}

#[test]
fn keys_drive_the_model() {
    let mut d = Dispatcher::<Model>::new();
    d.register_store(Model::new());
    update(&mut d, Key::Char('j'));
    update(&mut d, Key::Right);
    update(&mut d, Key::Char('k'));
    update(&mut d, Key::Char('x'));
    assert_eq!(d.get_store(0).unwrap().counter, 1);
    assert!(!d.get_store(0).unwrap().should_quit);
    update(&mut d, Key::Esc);
    assert!(d.get_store(0).unwrap().should_quit);
}

#[test]
fn router_moves_only_to_known_routes() {
    let mut r = Router::new();
    r.register_routes(vec!["/".to_string(), "/editor".to_string()]);
    r.handle(&Navigate::Path("/nowhere".to_string()));
    assert_eq!(r.current_route, "/");
    r.handle(&Navigate::Path("/editor".to_string()));
    assert_eq!(r.current_route, "/editor");
}
