//! The callbacks of a scene.

use vstd::prelude::*;

verus! {

/// The callbacks that a scene is watched through: at most one for events and
/// at most one for updates. This crate never calls them. It keeps them and
/// says when each is due; `E` and `U` are whatever the caller wants to be
/// handed back then.
#[derive(Debug, PartialEq, Eq)]
pub struct Listener<E, U> {
    pub on_event: Option<E>,
    pub on_update: Option<U>,
}

impl<E, U> Default for Listener<E, U> {
    fn default() -> (listener: Self)
        ensures
            listener.on_event is None,
            listener.on_update is None,
    {
        Listener { on_event: None, on_update: None }
    }
}

impl<E, U> Listener<E, U> {
    /// A listener without callbacks.
    pub fn new() -> (listener: Self)
        ensures
            listener.on_event is None,
            listener.on_update is None,
    {
        Listener { on_event: None, on_update: None }
    }

    /// Sets the callback for events, in place of any earlier one.
    pub fn attach_on_event(&mut self, listener: E) -> (this: &mut Self)
        ensures
            *this == (Listener { on_event: Some(listener), on_update: old(self).on_update }),
            *final(self) == *final(this),
    {
        self.on_event = Some(listener);
        self
    }

    /// Sets the callback for updates, in place of any earlier one.
    pub fn attach_on_update(&mut self, listener: U) -> (this: &mut Self)
        ensures
            *this == (Listener { on_event: old(self).on_event, on_update: Some(listener) }),
            *final(self) == *final(this),
    {
        self.on_update = Some(listener);
        self
    }
}

} // verus!
