use vstd::prelude::*;

verus! {

/// A single-slot container: the one piece of storage a wrapper owns.
///
/// Its whole interface is construction and read-only access to the stored
/// value. In the running program the slot must sit in storage the optimizer
/// treats as potentially mutable, so that its bytes are never folded into a
/// shared constant; that storage-class property is no fact about the stored
/// value and lies outside the contracts here, which pin down what the slot
/// holds and what a read returns.
#[derive(Debug)]
pub struct Slot<OWN> {
    value: OWN,
}

impl<OWN> Slot<OWN> {
    /// The stored value.
    pub closed spec fn contents(&self) -> OWN {
        self.value
    }

    /// Places `value` into a fresh slot.
    pub fn construct(value: OWN) -> (slot: Self)
        ensures
            slot.contents() == value,
    {
        Slot { value }
    }

    /// Read-only access to the slot's contents.
    pub fn read(&self) -> (r: &OWN)
        ensures
            *r == self.contents(),
    {
        &self.value
    }
}

} // verus!
