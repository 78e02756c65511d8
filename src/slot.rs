use vstd::prelude::*;

verus! {

/// A holder for a driver object that is filled exactly once and read only
/// after that.
pub struct Slot<T> {
    value: Option<T>,
}

impl<T> View for Slot<T> {
    type V = Option<T>;

    closed spec fn view(&self) -> Option<T> {
        self.value
    }
}

impl<T> Slot<T> {
    /// A slot that holds nothing yet.
    pub fn empty() -> (r: Slot<T>)
        ensures
            r@ is None,
    {
        Slot { value: None }
    }

    /// Fills the slot; a slot can be filled only once.
    pub fn install(&mut self, v: T)
        requires
            old(self)@ is None,
        ensures
            final(self)@ == Some(v),
    {
        self.value = Some(v);
    }

    /// Whether the slot has been filled.
    pub fn is_installed(&self) -> (r: bool)
        ensures
            r == self@ is Some,
    {
        self.value.is_some()
    }

    /// The object held; the slot must have been filled.
    pub fn get(&self) -> (r: &T)
        requires
            self@ is Some,
        ensures
            *r == self@->Some_0,
    {
        match &self.value {
            Some(v) => v,
            None => vstd::pervasive::unreached(),
        }
    }

    /// The object held, for mutation; the slot must have been filled.
    pub fn get_mut(&mut self) -> (r: &mut T)
        requires
            old(self)@ is Some,
        ensures
            *r == old(self)@->Some_0,
            final(self)@ == Some(*final(r)),
    {
        match &mut self.value {
            Some(v) => v,
            None => vstd::pervasive::unreached(),
        }
    }
}

} // verus!
