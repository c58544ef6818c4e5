//! Reference counted handles that a storage can hold.

use std::sync::Arc;
use vstd::prelude::*;

verus! {

/// A reference counted handle to a value.
///
/// Every handle has an address: the place of the value it points to, or `0` for a handle that
/// points nowhere (such as `None`).
///
/// Implementors are expected to find the same address for a handle every time, and for copies of
/// it. No contract says so: which address is found is up to the machine.
pub trait RefCnt: Sized {
    /// The type the handle points to.
    type Base;

    /// Whether the handle points nowhere.
    spec fn is_null(&self) -> bool;

    /// Whether `addr` is an address that was found for the handle.
    ///
    /// Where a value was placed is up to the machine, so this does not say which number that is.
    /// It ties an address to the handle that it is the address of.
    open spec fn at(&self, addr: usize) -> bool {
        (addr == 0) == self.is_null()
    }

    /// The address of the handle. It is `0` exactly for a handle that points nowhere.
    fn as_ptr(me: &Self) -> (addr: usize)
        ensures
            me.at(addr),
            (addr == 0) == me.is_null(),
    ;

    /// Another handle to the same value.
    fn inc(me: &Self) -> (copy: Self)
        ensures
            copy == *me,
    ;
}

/// The address of the value behind `place`.
///
/// Calls `core::ptr::from_ref` and gives its result as a number. What is claimed of it is that a
/// reference is never null. Which number it is depends on where the machine placed the value, and
/// is left unsaid.
#[verifier::external_body]
fn address_of<V>(place: &V) -> (addr: usize)
    ensures
        addr != 0,
{
    core::ptr::from_ref(place).addr()
}

impl<V> RefCnt for Arc<V> {
    type Base = V;

    open spec fn is_null(&self) -> bool {
        false
    }

    /// The address is one that was found for the place of the value.
    closed spec fn at(&self, addr: usize) -> bool {
        call_ensures(address_of::<V>, (&**self,), addr)
    }

    fn as_ptr(me: &Self) -> (addr: usize) {
        address_of(&**me)
    }

    fn inc(me: &Self) -> (copy: Self) {
        me.clone()
    }
}

impl<T: RefCnt> RefCnt for Option<T> {
    type Base = T::Base;

    open spec fn is_null(&self) -> bool {
        match self {
            Some(handle) => handle.is_null(),
            None => true,
        }
    }

    open spec fn at(&self, addr: usize) -> bool {
        match self {
            Some(handle) => handle.at(addr),
            None => addr == 0,
        }
    }

    fn as_ptr(me: &Self) -> (addr: usize) {
        match me {
            Some(handle) => T::as_ptr(handle),
            None => 0,
        }
    }

    fn inc(me: &Self) -> (copy: Self) {
        match me {
            Some(handle) => Some(T::inc(handle)),
            None => None,
        }
    }
}

/// The addresses of an `Arc` are those that are found for the place of its value, and no others.
proof fn address_is_of_the_place<V>(handle: Arc<V>, addr: usize)
    ensures
        handle.at(addr) <==> call_ensures(address_of::<V>, (&*handle,), addr),
        call_ensures(<Arc<V> as RefCnt>::as_ptr, (&handle,), addr) ==> call_ensures(
            address_of::<V>,
            (&*handle,),
            addr,
        ),
{
}

/// An optional handle is where its handle is: `Some` has the addresses of the handle in it, and
/// points nowhere exactly if that does. `None` is at the null address, and at no other.
pub proof fn option_is_where_its_handle_is<T: RefCnt>(handle: T, addr: usize)
    ensures
        Some(handle).at(addr) <==> handle.at(addr),
        Some(handle).is_null() <==> handle.is_null(),
        call_ensures(<Option<T> as RefCnt>::as_ptr, (&Some(handle),), addr) ==> handle.at(addr) && (
        addr == 0 <==> handle.is_null()),
        None::<T>.at(addr) <==> addr == 0,
        None::<T>.is_null(),
        call_ensures(<Option<T> as RefCnt>::as_ptr, (&None::<T>,), addr) ==> addr == 0,
{
}

/// A handle to a value never points nowhere.
pub proof fn arc_is_never_null<V>(handle: Arc<V>, addr: usize)
    ensures
        !handle.is_null(),
        handle.at(addr) ==> addr != 0,
        call_ensures(<Arc<V> as RefCnt>::as_ptr, (&handle,), addr) ==> handle.at(addr),
{
}

} // verus!
