use vstd::prelude::*;

verus! {

/// A slice of state that folds actions into itself.
pub trait Store: Sized {
    type Action;

    /// The kind of slice this value is; a registry holds at most one value of
    /// each kind. A slice that does not say otherwise is of kind 0.
    open spec fn spec_kind(&self) -> u64 {
        0
    }

    /// Whether handling `action` may turn this value into `after`. A slice
    /// that does not say otherwise promises nothing.
    open spec fn handles(&self, action: &Self::Action, after: &Self) -> bool {
        true
    }

    fn kind(&self) -> (k: u64)
        ensures
            k == self.spec_kind(),
    ;

    fn handle(&mut self, action: &Self::Action)
        ensures
            old(self).handles(action, final(self)),
            final(self).spec_kind() == old(self).spec_kind(),
    ;
}

/// Something that takes part in dispatch rounds.
pub trait StoreContainer<A>: Sized {
    /// Whether an action has been handled in the current round.
    spec fn handled(&self) -> bool;

    /// Starts a round.
    fn begin_dispatch(&mut self)
        ensures
            !final(self).handled(),
    ;

    /// Handles `action`, unless an action has been handled in this round already.
    fn handle(&mut self, action: &A)
        ensures
            final(self).handled(),
    ;
}

/// A slice with the flag that says whether it has handled the current round's action.
pub struct ConcreteStoreContainer<S: Store> {
    pub done: bool,
    pub store: S,
}

/// `after` is `before` once `action` has come to it in the current round: the
/// slice handles it only if it has not handled one in this round yet.
pub open spec fn container_step<S: Store>(
    before: ConcreteStoreContainer<S>,
    action: &S::Action,
    after: ConcreteStoreContainer<S>,
) -> bool {
    if before.done {
        after == before
    } else {
        &&& after.done
        &&& before.store.handles(action, &after.store)
        &&& after.store.spec_kind() == before.store.spec_kind()
    }
}

impl<S: Store> ConcreteStoreContainer<S> {
    pub fn new(store: S) -> (r: Self)
        ensures
            r.store == store,
            !r.done,
    {
        ConcreteStoreContainer { done: false, store }
    }

    /// Starts a round: the slice may handle the next action.
    pub fn begin_dispatch(&mut self)
        ensures
            !final(self).done,
            final(self).store == old(self).store,
    {
        self.done = false;
    }

    /// Hands `action` to the slice, unless it has handled one in this round.
    pub fn handle(&mut self, action: &S::Action)
        ensures
            container_step(*old(self), action, *final(self)),
    {
        if !self.done {
            self.store.handle(action);
            self.done = true;
        }
    }
}

impl<S: Store> StoreContainer<S::Action> for ConcreteStoreContainer<S> {
    open spec fn handled(&self) -> bool {
        self.done
    }

    fn begin_dispatch(&mut self) {
        ConcreteStoreContainer::begin_dispatch(self);
    }

    fn handle(&mut self, action: &S::Action) {
        ConcreteStoreContainer::handle(self, action);
    }
}

/// No two slices are of one kind.
pub open spec fn distinct_kinds<S: Store>(stores: Seq<S>) -> bool {
    forall|i: int, j: int|
        0 <= i < stores.len() && 0 <= j < stores.len() && i != j ==> #[trigger] stores[i].spec_kind()
            != #[trigger] stores[j].spec_kind()
}

/// Some slice of `stores` is of kind `k`.
pub open spec fn has_kind<S: Store>(stores: Seq<S>, k: u64) -> bool {
    exists|i: int| 0 <= i < stores.len() && #[trigger] stores[i].spec_kind() == k
}

/// A registry of slices that hands each dispatched action to every slice.
pub struct Dispatcher<S: Store> {
    registered_stores: Vec<ConcreteStoreContainer<S>>,
}

impl<S: Store> Dispatcher<S> {
    /// The registered slices, in order of registration.
    pub closed spec fn stores(&self) -> Seq<S> {
        self.registered_stores@.map_values(|c: ConcreteStoreContainer<S>| c.store)
    }

    pub closed spec fn wf(&self) -> bool {
        distinct_kinds(self.stores())
    }

    pub fn new() -> (r: Self)
        ensures
            r.wf(),
            r.stores() == Seq::<S>::empty(),
    {
        let r = Dispatcher { registered_stores: Vec::new() };
        assert(r.stores() =~= Seq::<S>::empty());
        r
    }

    /// Registers `store`; one already there of the same kind is replaced in its place.
    pub fn register_store(&mut self, store: S)
        requires
            old(self).wf(),
        ensures
            final(self).wf(),
            has_kind(old(self).stores(), store.spec_kind()) ==> exists|i: int|
                0 <= i < old(self).stores().len() && old(self).stores()[i].spec_kind() == store.spec_kind()
                    && final(self).stores() == old(self).stores().update(i, store),
            !has_kind(old(self).stores(), store.spec_kind()) ==> final(self).stores() == old(self).stores().push(store),
    {
        let k = store.kind();
        let mut i: usize = 0;
        while i < self.registered_stores.len()
            invariant
                i <= self.registered_stores@.len(),
                self.wf(),
                self.registered_stores@ == old(self).registered_stores@,
                k == store.spec_kind(),
                forall|j: int| 0 <= j < i ==> (#[trigger] self.stores()[j]).spec_kind() != k,
            decreases self.registered_stores@.len() - i,
        {
            assert(self.stores()[i as int] == self.registered_stores@[i as int].store);
            let ki = self.registered_stores[i].store.kind();
            if ki == k {
                let ghost before = self.stores();
                self.registered_stores.set(i, ConcreteStoreContainer::new(store));
                assert(self.stores() =~= before.update(i as int, store));
                assert(before[i as int].spec_kind() == store.spec_kind());
                assert forall|a: int| 0 <= a < before.len() implies #[trigger] self.stores()[a].spec_kind()
                    == before[a].spec_kind() by {
                    if a == i {
                    }
                }
                return;
            }
            i = i + 1;
        }
        let ghost before = self.stores();
        self.registered_stores.push(ConcreteStoreContainer::new(store));
        assert(self.stores() =~= before.push(store));
    }

    /// The registered slice of kind `kind`, if there is one.
    pub fn get_store(&self, kind: u64) -> (r: Option<&S>)
        requires
            self.wf(),
        ensures
            r is Some <==> has_kind(self.stores(), kind),
            r matches Some(s) ==> s.spec_kind() == kind && self.stores().contains(*s),
    {
        let mut i: usize = 0;
        while i < self.registered_stores.len()
            invariant
                i <= self.registered_stores@.len(),
                forall|j: int| 0 <= j < i ==> (#[trigger] self.stores()[j]).spec_kind() != kind,
            decreases self.registered_stores@.len() - i,
        {
            assert(self.stores()[i as int] == self.registered_stores@[i as int].store);
            if self.registered_stores[i].store.kind() == kind {
                return Some(&self.registered_stores[i].store);
            }
            i = i + 1;
        }
        None
    }

    /// Runs one round: every slice is marked unhandled, then each, in order of
    /// registration, handles `action` once.
    pub fn dispatch(&mut self, action: S::Action)
        requires
            old(self).wf(),
        ensures
            final(self).wf(),
            final(self).stores().len() == old(self).stores().len(),
            forall|i: int| 0 <= i < old(self).stores().len() ==> (#[trigger] old(self).stores()[i]).handles(&action, &final(self).stores()[i]),
    {
        let n = self.registered_stores.len();
        let mut i: usize = 0;
        while i < n
            invariant
                n == self.registered_stores@.len(),
                i <= n,
                self.stores() == old(self).stores(),
                forall|j: int| 0 <= j < i ==> !(#[trigger] self.registered_stores@[j]).done,
            decreases n - i,
        {
            let ghost before = self.stores();
            self.registered_stores[i].begin_dispatch();
            assert(self.stores() =~= before);
            i = i + 1;
        }
        assert(forall|j: int| 0 <= j < n ==> (#[trigger] self.registered_stores@[j]).store == old(self).stores()[j]);
        let mut i: usize = 0;
        while i < n
            invariant
                n == self.registered_stores@.len(),
                i <= n,
                old(self).stores().len() == n,
                forall|j: int| 0 <= j < i ==> old(self).stores()[j].handles(&action, &(#[trigger] self.registered_stores@[j]).store)
                    && self.registered_stores@[j].store.spec_kind() == old(self).stores()[j].spec_kind(),
                forall|j: int| i <= j < n ==> (#[trigger] self.registered_stores@[j]).store == old(self).stores()[j],
                forall|j: int| i <= j < n ==> !(#[trigger] self.registered_stores@[j]).done,
            decreases n - i,
        {
            let ghost before = self.registered_stores@;
            self.registered_stores[i].handle(&action);
            assert(forall|j: int| 0 <= j < n && j != i ==> self.registered_stores@[j] == before[j]);
            i = i + 1;
        }
        assert forall|j: int| 0 <= j < n implies #[trigger] self.stores()[j] == self.registered_stores@[j].store by {}
        assert forall|a: int, b: int|
            0 <= a < self.stores().len() && 0 <= b < self.stores().len() && a != b implies
            #[trigger] self.stores()[a].spec_kind() != #[trigger] self.stores()[b].spec_kind() by {
            assert(self.stores()[a] == self.registered_stores@[a].store);
            assert(self.stores()[b] == self.registered_stores@[b].store);
            assert(old(self).stores()[a].spec_kind() != old(self).stores()[b].spec_kind());
        }
    }
}

impl<S: Store> Default for Dispatcher<S> {
    fn default() -> (r: Self)
        ensures
            r.wf(),
            r.stores() == Seq::<S>::empty(),
    {
        Self::new()
    }
}

/// Within one round a slice handles an action at most once: once the round has
/// begun, the first time the action comes it is handled in one step, and each
/// later time it comes round again changes nothing.
pub proof fn lemma_handled_at_most_once<S: Store>(
    begun: ConcreteStoreContainer<S>,
    action: S::Action,
    once: ConcreteStoreContainer<S>,
    again: ConcreteStoreContainer<S>,
)
    requires
        !begun.done,
        container_step(begun, &action, once),
        container_step(once, &action, again),
    ensures
        again == once,
        begun.store.handles(&action, &once.store),
        once.done,
{
}

} // verus!
