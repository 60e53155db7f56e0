//! Overloaded accessor traits shared by the flag groups.
//!
//! Each trait carries a spec-level hook over the implementing type's view,
//! so that every implementation states exactly how the operation changes
//! or reads the model.

use vstd::prelude::*;

verus! {

/// Overloaded `clear()` method.
pub trait Clear<T>: View {
    /// What clearing does to the model.
    spec fn spec_clear(v: Self::V, t: T) -> Self::V;

    /// Clears a flag.
    fn clear(&mut self, t: T)
        ensures
            final(self)@ == Self::spec_clear(old(self)@, t),
    ;
}

/// Overloaded `contains()` method.
pub trait Contains<T>: View {
    /// What the test reads from the model.
    spec fn spec_contains(v: Self::V, t: T) -> bool;

    /// Checks if the structure contains the flag.
    fn contains(&self, t: T) -> (r: bool)
        ensures
            r == Self::spec_contains(self@, t),
    ;
}

/// Overloaded `set()` method.
pub trait SetFlag<T>: View {
    /// What setting does to the model.
    spec fn spec_set(v: Self::V, t: T) -> Self::V;

    /// Sets some property.
    fn set(&mut self, t: T)
        ensures
            final(self)@ == Self::spec_set(old(self)@, t),
    ;
}

/// Helper trait for the `get()` method.
pub trait GetFrom<T: View>: Sized {
    /// What the read returns, as a function of the model.
    spec fn spec_get_from(v: T::V) -> Self;

    /// Dispatch method used for `get()`.
    fn get_from(t: &T) -> (r: Self)
        ensures
            r == Self::spec_get_from(t@),
    ;
}

/// Overloaded `get()` method.
pub trait Get: View + Sized {
    /// Get some property.
    fn get<T: GetFrom<Self>>(&self) -> (r: T)
        ensures
            r == T::spec_get_from(self@),
    {
        T::get_from(self)
    }
}

} // verus!
