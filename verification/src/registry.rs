//! The table of callbacks that answer yields the protocol itself gives no
//! meaning to.

use vstd::prelude::*;
use std::collections::HashMap;
use crate::constants::{is_reserved, reserved};
use crate::outcome::AdvanceError;

verus! {

broadcast use vstd::std_specs::hash::group_hash_axioms;

/// A registered handler: one that returns at once, or one that has to be
/// awaited. The driver treats both alike: it asks for the handler to be
/// invoked and goes on when the result is there.
pub enum Callback<S, A> {
    Sync(S),
    Async(A),
}

impl<S, A> Callback<S, A> {
    /// Whether the handler has to be awaited.
    pub open spec fn is_async(&self) -> bool {
        self is Async
    }

    /// Decides [`Callback::is_async`].
    pub fn needs_await(&self) -> (r: bool)
        ensures
            r == self.is_async(),
    {
        match self {
            Callback::Sync(_) => false,
            Callback::Async(_) => true,
        }
    }
}

/// Callbacks keyed by reason identifier. No key is one of the reserved
/// reason codes.
pub struct CallbackRegistry<S, A> {
    entries: HashMap<u32, Callback<S, A>>,
}

impl<S, A> View for CallbackRegistry<S, A> {
    type V = Map<u32, Callback<S, A>>;

    closed spec fn view(&self) -> Map<u32, Callback<S, A>> {
        self.entries@
    }
}

impl<S, A> CallbackRegistry<S, A> {
    /// No reserved reason code keys an entry.
    #[verifier::type_invariant]
    closed spec fn keys_allowed(&self) -> bool {
        forall|k: u32| self.entries@.contains_key(k) ==> !is_reserved(k)
    }

    /// The identifiers under which a callback is registered.
    pub open spec fn registered(&self) -> Set<u32> {
        self@.dom()
    }

    /// An empty registry.
    pub fn new() -> (registry: Self)
        ensures
            registry@ == Map::<u32, Callback<S, A>>::empty(),
    {
        CallbackRegistry { entries: HashMap::new() }
    }

    /// Registers `handler` under `reason_id`, in place of any handler that was
    /// there. A reserved reason code is refused: the registry stays as it was
    /// and the result is `false`.
    pub fn register(&mut self, reason_id: u32, handler: Callback<S, A>) -> (accepted: bool)
        ensures
            accepted == !is_reserved(reason_id),
            accepted ==> final(self)@ == old(self)@.insert(reason_id, handler),
            !accepted ==> final(self)@ == old(self)@,
    {
        proof {
            use_type_invariant(&*self);
        }
        if reserved(reason_id) {
            false
        } else {
            let mut taken = CallbackRegistry { entries: HashMap::new() };
            std::mem::swap(self, &mut taken);
            let mut entries = taken.entries;
            entries.insert(reason_id, handler);
            *self = CallbackRegistry { entries };
            true
        }
    }

    /// Whether a callback is registered under `reason_id`.
    pub fn contains(&self, reason_id: u32) -> (r: bool)
        ensures
            r == self@.contains_key(reason_id),
            r ==> !is_reserved(reason_id),
    {
        proof {
            use_type_invariant(self);
        }
        self.entries.contains_key(&reason_id)
    }

    /// Looks up the callback that a yield with `reason` is dispatched to. With
    /// none registered the dispatch fails with `UnknownCallback`.
    pub fn dispatch(&self, reason: u16) -> (found: Result<&Callback<S, A>, AdvanceError>)
        ensures
            match found {
                Ok(callback) => self@.contains_key(reason as u32) && *callback == self@[reason as u32]
                    && !is_reserved(reason as u32),
                Err(e) => !self@.contains_key(reason as u32) && e == AdvanceError::UnknownCallback(
                    reason,
                ),
            },
    {
        proof {
            use_type_invariant(self);
        }
        let key: u32 = reason as u32;
        match self.entries.get(&key) {
            Some(callback) => Ok(callback),
            None => Err(AdvanceError::UnknownCallback(reason)),
        }
    }

    /// Number of registered callbacks.
    pub fn len(&self) -> (n: usize)
        ensures
            n == self@.len(),
    {
        self.entries.len()
    }
}

} // verus!
