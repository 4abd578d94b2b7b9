//! A value that is set once and read afterwards (the system-wide registrations of devices).
use vstd::prelude::*;

verus! {

/// A slot that holds nothing until a value is registered, and then that value for good.
pub struct OnceSlot<T> {
    value: Option<T>,
}

impl<T> OnceSlot<T> {
    /// What the slot holds.
    pub closed spec fn spec_get(&self) -> Option<T> {
        self.value
    }

    /// An empty slot.
    pub fn new() -> (s: Self)
        ensures
            s.spec_get() is None,
    {
        OnceSlot { value: None }
    }

    /// The registered value, if any.
    pub fn get(&self) -> (v: Option<&T>)
        ensures
            v == (match self.spec_get() {
                Some(x) => Some(&x),
                None => None,
            }),
    {
        match &self.value {
            Some(x) => Some(x),
            None => None,
        }
    }

    /// The registered value, for changing it in place.
    pub fn get_mut(&mut self) -> (v: Option<&mut T>)
        ensures
            match v {
                Some(r) => old(self).spec_get() == Some(*r) && final(self).spec_get() == Some(*final(r)),
                None => old(self).spec_get() is None && final(self).spec_get() is None,
            },
    {
        match &mut self.value {
            Some(x) => Some(x),
            None => None,
        }
    }

    /// Registers `value`; fails, handing it back and leaving the slot as it was, when a value
    /// is registered already.
    pub fn set(&mut self, value: T) -> (r: Result<(), T>)
        ensures
            r is Ok <==> old(self).spec_get() is None,
            r is Ok ==> final(self).spec_get() == Some(value),
            r matches Err(v) ==> v == value && final(self).spec_get() == old(self).spec_get(),
    {
        if self.value.is_some() {
            return Err(value);
        }
        self.value = Some(value);
        Ok(())
    }
}

} // verus!
