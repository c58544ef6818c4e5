//! The storage: one reference counted handle that can be replaced, with a generation counter.

use crate::as_raw::AsRaw;
use crate::guard::Guard;
use crate::model::{Event, Publication};
use crate::observation::{Observation, GENERATION_SATURATED};
use crate::ref_cnt::RefCnt;
use crate::refused::Refused;
use std::sync::Arc;
use vstd::prelude::*;

verus! {

/// A storage for one reference counted handle.
///
/// What it holds is a publication: the handle, the address of the handle and a generation. Every
/// write that takes place makes a new publication, of the next generation.
pub struct ArcSwapAny<T: RefCnt> {
    current: Guard<T>,
    generation: usize,
}

/// A storage that always holds a value.
pub type ArcSwap<V> = ArcSwapAny<Arc<V>>;

/// A storage that may be empty.
pub type ArcSwapOption<V> = ArcSwapAny<Option<Arc<V>>>;

impl<T: RefCnt> View for ArcSwapAny<T> {
    type V = Publication<T>;

    closed spec fn view(&self) -> Publication<T> {
        Publication {
            value: self.current.value(),
            addr: self.current.addr(),
            generation: self.generation,
        }
    }
}

impl<T: RefCnt> ArcSwapAny<T> {
    /// Whether the address is one that was found for the stored handle, and `0` exactly for a
    /// handle that points nowhere. Every storage keeps to that.
    pub open spec fn placed(&self) -> bool {
        self@.value.at(self@.addr) && (self@.addr == 0) == self@.value.is_null()
    }

    /// A storage that holds `value`, at generation `0`.
    pub fn new(value: T) -> (storage: Self)
        ensures
            storage@ == Publication::initial(value, storage@.addr),
            storage.placed(),
    {
        ArcSwapAny { current: Guard::new(value), generation: 0 }
    }

    /// The stored value.
    pub fn load(&self) -> (guard: Guard<T>)
        ensures
            guard.value() == self@.value,
            guard.addr() == self@.addr,
            self.placed(),
    {
        self.current.share()
    }

    /// A handle to the stored value.
    pub fn load_full(&self) -> (value: T)
        ensures
            value == self@.value,
    {
        Guard::into_inner(self.load())
    }

    /// The stored value, and a token for its publication.
    ///
    /// The token holds the address of the value, which is `0` exactly for a handle that points
    /// nowhere.
    pub fn load_observed(&self) -> (loaded: (Guard<T>, Observation<T>))
        ensures
            loaded.0.value() == self@.value,
            loaded.0.addr() == self@.addr,
            loaded.1@ == self@.stamp(),
            loaded.0.value().at(loaded.1@.addr),
            (loaded.1@.addr == 0) == loaded.0.value().is_null(),
            self.placed(),
    {
        (self.load(), Observation::new(self.current.ptr_addr(), self.generation))
    }

    /// The generation of the stored value.
    pub fn current_generation(&self) -> (generation: usize)
        ensures
            generation == self@.generation,
    {
        self.generation
    }

    /// Sets the generation, and leaves the value alone.
    ///
    /// This is for tests that need a storage far along in its life. It can make an old token
    /// valid again, so nothing that is promised of tokens holds across a call of it.
    pub fn force_generation(&mut self, generation: usize)
        ensures
            final(self)@ == (Publication { generation, ..old(self)@ }),
            final(self).placed(),
    {
        proof {
            use_type_invariant(&self.current);
        }
        self.generation = generation;
    }

    /// Publishes `new` and gives back the value before it.
    fn publish(&mut self, new: T) -> (previous: Guard<T>)
        ensures
            final(self)@ == old(self)@.publish(new, final(self)@.addr),
            final(self).placed(),
            previous.value() == old(self)@.value,
            previous.addr() == old(self)@.addr,
    {
        if self.generation != GENERATION_SATURATED {
            self.generation = self.generation + 1;
        }
        self.current.replace(Guard::new(new))
    }

    /// Publishes `new`.
    pub fn store(&mut self, new: T)
        ensures
            final(self)@ == old(self)@.publish(new, final(self)@.addr),
            final(self).placed(),
    {
        let _previous = self.publish(new);
    }

    /// Publishes `new` and gives back the value before it.
    pub fn swap(&mut self, new: T) -> (previous: T)
        ensures
            final(self)@ == old(self)@.publish(new, final(self)@.addr),
            final(self).placed(),
            previous == old(self)@.value,
    {
        Guard::into_inner(self.publish(new))
    }

    /// Publishes `new` if the stored value is at the address of `current`.
    ///
    /// Gives back the value that was stored before, whether `new` took its place or not.
    ///
    /// Only the address counts here. Whether the value was replaced and put back meanwhile, this
    /// cannot tell: see [`compare_exchange_observed`](Self::compare_exchange_observed).
    pub fn compare_and_swap<C: AsRaw<T::Base>>(&mut self, current: C, new: T) -> (previous: Guard<
        T,
    >)
        ensures
            exists|expected: usize| #[trigger]
                current.raw_at(expected) && final(self)@ == old(self)@.apply(
                    Event::Swap { expected, value: new, addr: final(self)@.addr },
                ),
            final(self).placed(),
            previous.value() == old(self)@.value,
            previous.addr() == old(self)@.addr,
    {
        if current.as_raw() == self.current.ptr_addr() {
            self.publish(new)
        } else {
            self.load()
        }
    }

    /// Whether `token` stands for the current publication and may still be used.
    fn is_current(&self, token: &Observation<T>) -> (current: bool)
        ensures
            current == self@.accepts(token@),
            self.placed(),
    {
        self.current.ptr_addr() == token.ptr_addr() && self.generation == token.generation()
            && !token.is_saturated()
    }

    /// Publishes `new` if `token` stands for the current publication.
    ///
    /// That takes the same address, the same generation, and a generation that is not saturated.
    /// On success the value before is given back, and otherwise the token of the publication that
    /// was found instead; `new` is then dropped.
    pub fn compare_exchange_observed(&mut self, token: Observation<T>, new: T) -> (outcome: Result<
        Guard<T>,
        Observation<T>,
    >)
        ensures
            final(self)@ == old(self)@.apply(
                Event::Commit { token: token@, value: new, addr: final(self)@.addr },
            ),
            final(self).placed(),
            outcome is Ok <==> old(self)@.accepts(token@),
            outcome matches Ok(previous) ==> previous.value() == old(self)@.value
                && previous.addr() == old(self)@.addr,
            outcome matches Err(found) ==> found@ == old(self)@.stamp(),
    {
        if self.is_current(&token) {
            Ok(self.publish(new))
        } else {
            Err(self.load_observed().1)
        }
    }

    /// Publishes `new` if `token` stands for the current publication.
    ///
    /// This decides as [`compare_exchange_observed`](Self::compare_exchange_observed) does, and
    /// answers for a caller that goes on: with the token of the new publication, or with all that
    /// is needed for another try.
    pub fn commit_observed(&mut self, token: &Observation<T>, new: T) -> (outcome: Result<
        Observation<T>,
        Refused<T>,
    >)
        ensures
            final(self)@ == old(self)@.apply(
                Event::Commit { token: token@, value: new, addr: final(self)@.addr },
            ),
            final(self).placed(),
            outcome is Ok <==> old(self)@.accepts(token@),
            outcome matches Ok(observation) ==> observation@ == final(self)@.stamp(),
            outcome matches Err(refused) ==> {
                &&& refused.found().value() == old(self)@.value
                &&& refused.found().addr() == old(self)@.addr
                &&& refused.stamp() == old(self)@.stamp()
                &&& refused.offered() == new
            },
    {
        if self.is_current(token) {
            let _previous = self.publish(new);
            Ok(self.load_observed().1)
        } else {
            let (current, observation) = self.load_observed();
            Err(Refused::new(current, observation, new))
        }
    }

    /// Publishes what `update` makes of the stored value, and gives back the value before.
    pub fn rcu<R: Into<T>, F: Fn(&T) -> R>(&mut self, update: F) -> (previous: T)
        requires
            update.requires((&old(self)@.value,)),
        ensures
            exists|made: R| #[trigger]
                update.ensures((&old(self)@.value,), made) && call_ensures(
                    <R as Into<T>>::into,
                    (made,),
                    final(self)@.value,
                ),
            final(self)@ == old(self)@.publish(final(self)@.value, final(self)@.addr),
            final(self).placed(),
            previous == old(self)@.value,
    {
        let current = self.load();
        let new: T = update(&*current).into();
        Guard::into_inner(self.compare_and_swap(&current, new))
    }

    /// Takes the stored value out.
    pub fn into_inner(self) -> (value: T)
        ensures
            value == self@.value,
    {
        Guard::into_inner(self.current)
    }
}

impl<T: RefCnt> From<T> for ArcSwapAny<T> {
    fn from(value: T) -> (storage: Self)
        ensures
            storage@ == Publication::initial(value, storage@.addr),
            storage.placed(),
    {
        ArcSwapAny::new(value)
    }
}

/// The storage is no function of the value alone, since its address is not.
impl<T: RefCnt> vstd::std_specs::convert::FromSpecImpl<T> for ArcSwapAny<T> {
    open spec fn obeys_from_spec() -> bool {
        false
    }

    open spec fn from_spec(value: T) -> Self {
        arbitrary()
    }
}

impl<V> ArcSwapAny<Arc<V>> {
    /// A storage that holds a new handle to `value`.
    pub fn from_pointee(value: V) -> (storage: Self)
        ensures
            storage@ == Publication::initial(Arc::new(value), storage@.addr),
            storage.placed(),
    {
        ArcSwapAny::new(Arc::new(value))
    }
}

impl<V> ArcSwapAny<Option<Arc<V>>> {
    /// A storage that holds nothing.
    pub fn empty() -> (storage: Self)
        ensures
            storage@ == Publication::initial(None::<Arc<V>>, 0),
    {
        ArcSwapAny::new(None)
    }
}

} // verus!
