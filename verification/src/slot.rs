//! The slot through which a refreshed value is published: it is empty until
//! the first value arrives, and each later value replaces the one before
//! as a whole.

use std::sync::Arc;
use vstd::prelude::*;

verus! {

/// A slot that holds the current value of one refreshable resource, or
/// nothing while none was published yet.
#[derive(Debug)]
pub struct Slot<T> {
    current: Option<Arc<T>>,
}

impl<T> View for Slot<T> {
    type V = Option<T>;

    closed spec fn view(&self) -> Option<T> {
        match self.current {
            Some(value) => Some(*value),
            None => None,
        }
    }
}

impl<T> Clone for Slot<T> {
    /// A second handle on what the slot holds.
    fn clone(&self) -> (copy: Slot<T>)
        ensures
            copy@ == self@,
    {
        Slot { current: self.load() }
    }
}

impl<T> Slot<T> {
    /// A slot into which nothing was published yet.
    pub fn empty() -> (slot: Slot<T>)
        ensures
            slot@ is None,
    {
        Slot { current: None }
    }

    /// Whether a value was published.
    pub fn is_loaded(&self) -> (loaded: bool)
        ensures
            loaded == (self@ is Some),
    {
        self.current.is_some()
    }

    /// A snapshot of the slot: the value that was published last, `None`
    /// while none was. The snapshot is the holder's own and is not touched
    /// by what is published afterwards.
    pub fn load(&self) -> (snapshot: Option<Arc<T>>)
        ensures
            match snapshot {
                Some(value) => self@ == Some(*value),
                None => self@ is None,
            },
    {
        match &self.current {
            Some(value) => Some(Arc::clone(value)),
            None => None,
        }
    }

    /// Replaces what the slot holds by `value`, in one step.
    pub fn publish(&mut self, value: Arc<T>)
        ensures
            final(self)@ == Some(*value),
    {
        self.current = Some(value);
    }
}

} // verus!
