use core::marker::PhantomData;

use vstd::prelude::*;

use crate::slot::Slot;

verus! {

/// A zero-cost wrapper guaranteed not to share its storage with any other
/// valid (in-scope) variable, even a `const` equal to the wrapped value. Use
/// it for `static` variables whose addresses are compared with
/// `core::ptr::eq`.
///
/// `OWN` is the stored representation, `TO` the shape the value is read back
/// as. Both are held to `'static`: a wrapped value must not borrow anything
/// shorter-lived than the whole program, or the reference handed out by the
/// accessor could dangle once the borrowed data is gone. The bound rejects
/// such a value at the construction site rather than at the eventual binding
/// site. Sharing a wrapper across threads is sound only when the wrapped type
/// is itself both `Send` and `Sync`, hence the remaining bounds.
///
/// Do not use `NonDeDuplicatedFlexible` directly. Instead, use
/// [`NonDeDuplicated`], [`crate::NonDeDuplicatedStr`] and
/// [`crate::NonDeDuplicatedCStr`].
#[derive(Debug)]
pub struct NonDeDuplicatedFlexible<OWN: 'static + Send + Sync, TO: 'static + Send + Sync + ?Sized> {
    slot: Slot<OWN>,
    _t: PhantomData<TO>,
}

impl<OWN: 'static + Send + Sync, TO: 'static + Send + Sync + ?Sized> NonDeDuplicatedFlexible<OWN, TO> {
    /// The wrapped value, in its stored representation.
    pub closed spec fn wrapped(&self) -> OWN {
        self.slot.contents()
    }

    /// Places `value` into a fresh wrapper.
    pub(crate) fn from_value(value: OWN) -> (w: Self)
        ensures
            w.wrapped() == value,
    {
        NonDeDuplicatedFlexible { slot: Slot::construct(value), _t: PhantomData }
    }

    /// Read-only access to the stored representation.
    pub(crate) fn borrow_wrapped(&self) -> (r: &OWN)
        ensures
            *r == self.wrapped(),
    {
        self.slot.read()
    }
}

/// For non-de-duplicated objects stored in `static` variables, read back as
/// the wrapped type itself. NOT for string slices - for those use
/// [`crate::NonDeDuplicatedStr`] and [`crate::NonDeDuplicatedCStr`].
pub type NonDeDuplicated<T> = NonDeDuplicatedFlexible<T, T>;

impl<T: 'static + Send + Sync> NonDeDuplicated<T> {
    /// Construct a new instance.
    pub fn new(value: T) -> (w: Self)
        ensures
            w.wrapped() == value,
    {
        Self::from_value(value)
    }

    /// Get a reference.
    pub fn get(&self) -> (r: &T)
        ensures
            *r == self.wrapped(),
    {
        self.borrow_wrapped()
    }
}

/// Read stability: every read of a wrapper returns the wrapped value, so any
/// two reads of the same wrapper agree.
pub proof fn lemma_read_stability<T: 'static + Send + Sync>(w: &NonDeDuplicated<T>, r1: &T, r2: &T)
    requires
        *r1 == w.wrapped(),
        *r2 == w.wrapped(),
    ensures
        *r1 == *r2,
{
}

} // verus!
