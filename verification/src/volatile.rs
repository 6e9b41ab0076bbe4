//! The verified model of one hardware-sized memory location.
//!
//! On a hardware target every logical read or write of a register must reach
//! memory as exactly one load or store, in program order, never elided or
//! reordered: the platform layer performs such accesses on raw register
//! addresses. This module gives the cell the verified code works with: one
//! word with a get and a set whose contracts say precisely which value the
//! location holds, so the register logic above it can be proved. A write
//! needs exclusive access to the cell; the read-modify-write sequences built
//! on it are therefore ordered but, as on the hardware, not atomic against a
//! writer that holds the same location by another path.

use vstd::prelude::*;

verus! {

/// One memory location of a hardware-sized value.
pub struct VolatileCell<T> {
    value: T,
}

impl<T: Copy> VolatileCell<T> {
    /// The value the location currently holds.
    pub closed spec fn spec_get(self) -> T {
        self.value
    }

    /// Wrap one location holding `value`.
    pub fn new(value: T) -> (c: VolatileCell<T>)
        ensures
            c.spec_get() == value,
    {
        VolatileCell { value }
    }

    /// One load: the value the location holds at the point of the call.
    pub fn get(&self) -> (r: T)
        ensures
            r == self.spec_get(),
    {
        self.value
    }

    /// One store: the location holds `value` after the call.
    pub fn set(&mut self, value: T)
        ensures
            final(self).spec_get() == value,
    {
        self.value = value;
    }
}

} // verus!
