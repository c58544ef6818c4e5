//! Handles that a storage hands out.

use crate::as_raw::AsRaw;
use crate::ref_cnt::RefCnt;
use crate::sealed::Sealed;
use core::ops::Deref;
use vstd::prelude::*;

verus! {

/// A handle together with its address.
///
/// A guard keeps the value alive: the storage may publish other values meanwhile, the guard
/// still holds the one it was made for.
#[derive(Debug)]
pub struct Guard<T: RefCnt> {
    value: T,
    addr: usize,
}

impl<T: RefCnt> Guard<T> {
    /// The handle.
    pub closed spec fn value(&self) -> T {
        self.value
    }

    /// The address of the handle.
    pub closed spec fn addr(&self) -> usize {
        self.addr
    }

    /// Whether the address is one that was found for the handle, and `0` exactly for a handle that
    /// points nowhere. Every guard keeps to that.
    #[verifier::type_invariant]
    pub open spec fn placed(&self) -> bool {
        self.value().at(self.addr()) && (self.addr() == 0) == self.value().is_null()
    }

    /// A guard of `value`.
    pub(crate) fn new(value: T) -> (guard: Self)
        ensures
            guard.value() == value,
            guard.placed(),
    {
        let addr: usize = T::as_ptr(&value);
        Guard { value, addr }
    }

    /// Another guard of the same value.
    pub(crate) fn share(&self) -> (copy: Self)
        ensures
            copy.value() == self.value(),
            copy.addr() == self.addr(),
            copy.placed(),
    {
        proof {
            use_type_invariant(self);
        }
        Guard { value: T::inc(&self.value), addr: self.addr }
    }

    /// Puts `new` into the place of `self`, and gives back what was there.
    pub(crate) fn replace(&mut self, new: Self) -> (previous: Self)
        ensures
            *final(self) == new,
            previous == *old(self),
    {
        let mut previous = new;
        proof {
            use_type_invariant(&*self);
            use_type_invariant(&previous);
        }
        core::mem::swap(self, &mut previous);
        previous
    }

    /// The address of the handle.
    pub(crate) fn ptr_addr(&self) -> (addr: usize)
        ensures
            addr == self.addr(),
            self.placed(),
    {
        proof {
            use_type_invariant(self);
        }
        self.addr
    }

    /// Takes the handle out of the guard.
    pub fn into_inner(guard: Self) -> (value: T)
        ensures
            value == guard.value(),
    {
        guard.value
    }
}

impl<T: RefCnt> Deref for Guard<T> {
    type Target = T;

    fn deref(&self) -> (value: &T)
        ensures
            *value == self.value(),
    {
        &self.value
    }
}

impl<'a, T: RefCnt> Sealed for &'a Guard<T> {

}

/// A guard stands for the address of its handle.
impl<'a, T: RefCnt> AsRaw<T::Base> for &'a Guard<T> {
    open spec fn raw_at(&self, addr: usize) -> bool {
        addr == (*self).addr()
    }

    fn as_raw(&self) -> (addr: usize) {
        self.addr
    }
}

} // verus!
