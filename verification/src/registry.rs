//! The map from window identity to handler.

use crate::toolkit::{raw_id, share, window_key};
use crate::window::{reports_id, WinitWindow};
use std::collections::HashMap;
use std::rc::Rc;
use vstd::prelude::*;
use winit::window::WindowId;

verus! {

broadcast use vstd::std_specs::hash::group_hash_axioms;

/// Registration was refused because the identifier already has a handler.
#[derive(Clone, Copy, Debug, PartialEq, Eq, Structural)]
pub struct DuplicateId;

/// The bindings that hold after an attempt to bind `key` to `handle`: an
/// existing binding of `key` wins, and everything else stays.
pub open spec fn bindings_after_register<H: ?Sized>(
    before: Map<u64, Rc<H>>,
    key: u64,
    handle: Rc<H>,
) -> Map<u64, Rc<H>> {
    if before.contains_key(key) {
        before
    } else {
        before.insert(key, handle)
    }
}

/// What an attempt to bind `key` answers.
pub open spec fn register_answer<H: ?Sized>(before: Map<u64, Rc<H>>, key: u64) -> Result<
    (),
    DuplicateId,
> {
    if before.contains_key(key) {
        Err(DuplicateId)
    } else {
        Ok(())
    }
}

/// What a lookup of `key` answers.
pub open spec fn binding_of<H: ?Sized>(bindings: Map<u64, Rc<H>>, key: u64) -> Option<Rc<H>> {
    if bindings.contains_key(key) {
        Some(bindings[key])
    } else {
        None
    }
}

/// Shared handles on window handlers, at most one per window identifier.
///
/// The registry never removes an entry by itself: a window stays registered
/// until the application unregisters it.
pub struct Registry<H: ?Sized> {
    handlers: HashMap<u64, Rc<H>>,
}

impl<H: ?Sized> View for Registry<H> {
    type V = Map<u64, Rc<H>>;

    /// The bindings, keyed by the raw value of the window identifier.
    closed spec fn view(&self) -> Map<u64, Rc<H>> {
        self.handlers@
    }
}

impl<H: ?Sized> Registry<H> {
    /// A registry without entries.
    pub fn new() -> (registry: Self)
        ensures
            registry@ == Map::<u64, Rc<H>>::empty(),
    {
        Registry { handlers: HashMap::new() }
    }

    /// Binds `id` to `handle`, unless `id` is bound already: then the
    /// registry stays as it is and the answer is `DuplicateId`.
    pub fn register_as(&mut self, id: WindowId, handle: Rc<H>) -> (answer: Result<(), DuplicateId>)
        ensures
            answer == register_answer(old(self)@, raw_id(id)),
            final(self)@ == bindings_after_register(old(self)@, raw_id(id), handle),
    {
        let key = window_key(id);
        if self.handlers.contains_key(&key) {
            Err(DuplicateId)
        } else {
            self.handlers.insert(key, handle);
            Ok(())
        }
    }

    /// Binds the identifier that `handle` reports to `handle`, unless that
    /// identifier is bound already.
    pub fn register(&mut self, handle: Rc<H>) -> (answer: Result<(), DuplicateId>) where
        H: WinitWindow,

        ensures
            exists|id: WindowId|
                {
                    &&& #[trigger] reports_id(&*handle, id)
                    &&& answer == register_answer(old(self)@, raw_id(id))
                    &&& final(self)@ == bindings_after_register(old(self)@, raw_id(id), handle)
                },
    {
        let id = handle.id();
        assert(reports_id(&*handle, id));
        self.register_as(id, handle)
    }

    /// Removes the binding of `id`, if there is one.
    pub fn unregister(&mut self, id: WindowId)
        ensures
            final(self)@ == old(self)@.remove(raw_id(id)),
    {
        let key = window_key(id);
        self.handlers.remove(&key);
    }

    /// The handle that `id` is bound to, if any. The registry keeps its own.
    pub fn lookup(&self, id: WindowId) -> (found: Option<Rc<H>>)
        ensures
            found == binding_of(self@, raw_id(id)),
    {
        let key = window_key(id);
        match self.handlers.get(&key) {
            Some(handle) => Some(share(handle)),
            None => None,
        }
    }
}

/// Registering a second handle under an identifier that is already bound
/// fails with `DuplicateId`, and the first registration remains in effect:
/// the bindings do not change, and a lookup still gives the first handle.
pub proof fn lemma_duplicate_registration<H: ?Sized>(
    before: Map<u64, Rc<H>>,
    id: WindowId,
    first: Rc<H>,
    second: Rc<H>,
)
    requires
        register_answer(before, raw_id(id)) is Ok,
    ensures
        ({
            let bound = bindings_after_register(before, raw_id(id), first);
            &&& register_answer(bound, raw_id(id)) == Err::<(), DuplicateId>(DuplicateId)
            &&& bindings_after_register(bound, raw_id(id), second) == bound
            &&& binding_of(bound, raw_id(id)) == Some(first)
        }),
{
}

/// After a window has been unregistered a lookup finds nothing for it, the
/// other bindings are as before, and unregistering a window that has no
/// binding changes nothing.
pub proof fn lemma_unregister<H: ?Sized>(bindings: Map<u64, Rc<H>>, id: WindowId, other: WindowId)
    ensures
        binding_of(bindings.remove(raw_id(id)), raw_id(id)) is None,
        raw_id(other) != raw_id(id) ==> binding_of(bindings.remove(raw_id(id)), raw_id(other))
            == binding_of(bindings, raw_id(other)),
        binding_of(bindings, raw_id(id)) is None ==> bindings.remove(raw_id(id)) == bindings,
{
    if binding_of(bindings, raw_id(id)) is None {
        assert(bindings.remove(raw_id(id)) =~= bindings);
    }
}

} // verus!
