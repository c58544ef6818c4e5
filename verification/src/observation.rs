//! Tokens that identify one publication of a value.
//!
//! A comparison of addresses cannot tell whether a value was replaced and put back, or whether its
//! address was used again for another value after it was gone. An [`Observation`] can: it pairs the
//! address with the generation of the publication, and every publication has a new generation.
//!
//! The generation is a whole machine word. It starts at `0` with the value that a storage is made
//! with, and goes up by one with every write that takes place. It stops at
//! [`GENERATION_SATURATED`] and never wraps. A token of that generation is never accepted, so that
//! no token, however old, can become valid again.

use crate::as_raw::AsRaw;
use crate::debug::{debug_struct, finish, with_number, with_pointer};
use crate::digits::push_digits;
use crate::model::Stamp;
use crate::ref_cnt::RefCnt;
use crate::sealed::Sealed;
use core::fmt::{DebugStruct, Formatter};
use core::marker::PhantomData;
use vstd::prelude::*;
use vstd::string::StringExecFns;

verus! {

/// The generation at which the counter stops.
///
/// A token of this generation is never accepted, whatever its address.
pub const GENERATION_SATURATED: usize = usize::MAX;

/// A token that stands for one publication of a value.
///
/// It comes from [`load_observed`](crate::ArcSwapAny::load_observed) and goes into
/// [`compare_exchange_observed`](crate::ArcSwapAny::compare_exchange_observed).
///
/// It is an address and a number, and can be copied freely. It does not keep the value alive and
/// gives no access to it.
pub struct Observation<T: RefCnt> {
    /// The address of the value, `0` for a handle that points nowhere.
    ptr: usize,
    /// The generation at which the value was there.
    generation: usize,
    /// The kind of handle that the storage holds.
    marker: PhantomData<T>,
}

impl<T: RefCnt> View for Observation<T> {
    type V = Stamp;

    closed spec fn view(&self) -> Stamp {
        Stamp { addr: self.ptr, generation: self.generation }
    }
}

impl<T: RefCnt> Observation<T> {
    pub(crate) fn new(ptr: usize, generation: usize) -> (observation: Self)
        ensures
            observation@ == (Stamp { addr: ptr, generation }),
    {
        Observation { ptr, generation, marker: PhantomData }
    }

    /// The generation of the publication.
    ///
    /// It is what tells two publications at one address from each other.
    pub fn generation(&self) -> (generation: usize)
        ensures
            generation == self@.generation,
    {
        self.generation
    }

    /// Whether the observed address is the one that `current` stands for.
    ///
    /// The generation does not count here. After a refusal this tells a plain change, with another
    /// address, from a value that came back to its address.
    pub fn same_address<C: AsRaw<T::Base>>(&self, current: &C) -> (same: bool)
        ensures
            self@.compares::<T::Base, C>(*current, same),
    {
        self.ptr == current.as_raw()
    }

    /// The observed address as a number, `0` for a handle that points nowhere.
    pub fn ptr_addr(&self) -> (addr: usize)
        ensures
            addr == self@.addr,
    {
        self.ptr
    }

    /// Whether the token is of the generation at which the counter stops.
    ///
    /// Such a token is never accepted.
    pub fn is_saturated(&self) -> (saturated: bool)
        ensures
            saturated == self@.is_saturated(),
    {
        self.generation == GENERATION_SATURATED
    }

    /// The token as text, for diagnostics: the address in hexadecimal and the generation. This is
    /// how the token is formatted with `{:?}`.
    pub fn debug_string(&self) -> (text: String)
        ensures
            text@ == self@.text(),
    {
        let mut text = String::new();
        text.append("Observation { ptr: 0x");
        push_digits(&mut text, self.ptr, 16);
        text.append(", generation: ");
        push_digits(&mut text, self.generation, 10);
        text.append(" }");
        text
    }
}

impl<T: RefCnt> Clone for Observation<T> {
    fn clone(&self) -> (copy: Self)
        ensures
            copy == *self,
    {
        *self
    }
}

impl<T: RefCnt> Copy for Observation<T> {

}

impl<T: RefCnt> PartialEq for Observation<T> {
    /// Two tokens are equal if they have the same address and the same generation.
    fn eq(&self, other: &Self) -> (equal: bool) {
        self.ptr == other.ptr && self.generation == other.generation
    }
}

impl<T: RefCnt> vstd::std_specs::cmp::PartialEqSpecImpl for Observation<T> {
    open spec fn obeys_eq_spec() -> bool {
        true
    }

    open spec fn eq_spec(&self, other: &Self) -> bool {
        self@ == other@
    }
}

impl<T: RefCnt> Eq for Observation<T> {

}

impl<T: RefCnt> Sealed for Observation<T> {

}

/// A token stands for the observed address.
impl<T: RefCnt> AsRaw<T::Base> for Observation<T> {
    open spec fn raw_at(&self, addr: usize) -> bool {
        addr == self@.addr
    }

    fn as_raw(&self) -> (addr: usize) {
        self.ptr
    }
}

/// Whether `result` is what came of handing a token to `formatter`: a structure named
/// `Observation`, with the address as a pointer in the field `ptr`, then the generation as a number
/// in the field `generation`, and nothing else.
pub closed spec fn shown(token: Stamp, formatter: Formatter, result: core::fmt::Result) -> bool {
    exists|
        lent: &mut Formatter,
        named: DebugStruct,
        placed: DebugStruct,
        numbered: DebugStruct,
    |
        {
            &&& *lent == formatter
            &&& #[trigger] call_ensures(debug_struct, (lent, "Observation"), named)
            &&& #[trigger] call_ensures(with_pointer, (named, "ptr", token.addr), placed)
            &&& #[trigger] call_ensures(
                with_number,
                (placed, "generation", token.generation),
                numbered,
            )
            &&& call_ensures(finish, (numbered,), result)
        }
}

impl<T: RefCnt> core::fmt::Debug for Observation<T> {
    /// Formats the token as its address and its generation.
    fn fmt(&self, formatter: &mut Formatter<'_>) -> (result: core::fmt::Result)
        ensures
            shown(self@, *old(formatter), result),
    {
        let named = debug_struct(formatter, "Observation");
        let placed = with_pointer(named, "ptr", self.ptr);
        let numbered = with_number(placed, "generation", self.generation);
        finish(numbered)
    }
}

/// What is formatted are the two parts that the token tells of itself, in full: a structure named
/// `Observation`, whose fields are the address as a pointer and the generation as a number.
proof fn formatting_shows_both_parts<T: RefCnt>(
    token: Observation<T>,
    addr: usize,
    generation: usize,
    formatter: Formatter,
    result: core::fmt::Result,
)
    requires
        call_ensures(Observation::<T>::ptr_addr, (&token,), addr),
        call_ensures(Observation::<T>::generation, (&token,), generation),
        shown(token@, formatter, result),
    ensures
        exists|
            lent: &mut Formatter,
            named: DebugStruct,
            placed: DebugStruct,
            numbered: DebugStruct,
        |
            {
                &&& *lent == formatter
                &&& #[trigger] call_ensures(debug_struct, (lent, "Observation"), named)
                &&& #[trigger] call_ensures(with_pointer, (named, "ptr", addr), placed)
                &&& #[trigger] call_ensures(
                    with_number,
                    (placed, "generation", generation),
                    numbered,
                )
                &&& call_ensures(finish, (numbered,), result)
            },
{
}

} // verus!
