//! Things that stand for an address.

use crate::ref_cnt::RefCnt;
use crate::sealed::Sealed;
use vstd::prelude::*;

verus! {

/// Something that stands for the address of a `B`.
pub trait AsRaw<B>: Sealed {
    /// Whether `addr` can be the address that this stands for.
    spec fn raw_at(&self, addr: usize) -> bool;

    /// The address.
    fn as_raw(&self) -> (addr: usize)
        ensures
            self.raw_at(addr),
    ;
}

impl Sealed for usize {

}

/// A number is the address it says. `0` is the null address.
impl<B> AsRaw<B> for usize {
    open spec fn raw_at(&self, addr: usize) -> bool {
        addr == *self
    }

    fn as_raw(&self) -> (addr: usize) {
        *self
    }
}

impl<'a, T: RefCnt> Sealed for &'a T {

}

/// A handle stands for the place it points to.
impl<'a, T: RefCnt> AsRaw<T::Base> for &'a T {
    open spec fn raw_at(&self, addr: usize) -> bool {
        self.at(addr) && (addr == 0) == self.is_null()
    }

    fn as_raw(&self) -> (addr: usize) {
        T::as_ptr(*self)
    }
}

} // verus!
