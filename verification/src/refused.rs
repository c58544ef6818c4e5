//! The answer to a conditional update that did not take place.

use crate::guard::Guard;
use crate::model::Stamp;
use crate::observation::Observation;
use crate::ref_cnt::RefCnt;
use vstd::prelude::*;

verus! {

/// What a refused [`commit_observed`](crate::ArcSwapAny::commit_observed) hands back.
///
/// It holds what the storage had instead of the expected publication, and the value that was not
/// stored, so that the caller can decide anew and try again.
#[derive(Debug)]
pub struct Refused<T: RefCnt> {
    current: Guard<T>,
    observation: Observation<T>,
    new: T,
}

impl<T: RefCnt> Refused<T> {
    /// The value that the storage holds.
    pub closed spec fn found(&self) -> Guard<T> {
        self.current
    }

    /// The token of that value's publication.
    pub closed spec fn stamp(&self) -> Stamp {
        self.observation@
    }

    /// The value that was not stored.
    pub closed spec fn offered(&self) -> T {
        self.new
    }

    pub(crate) fn new(current: Guard<T>, observation: Observation<T>, new: T) -> (refused: Self)
        ensures
            refused.found() == current,
            refused.stamp() == observation@,
            refused.offered() == new,
    {
        Refused { current, observation, new }
    }

    /// The value that the storage holds.
    pub fn current(&self) -> (current: &Guard<T>)
        ensures
            *current == self.found(),
    {
        &self.current
    }

    /// The token of the current publication.
    pub fn observation(&self) -> (observation: Observation<T>)
        ensures
            observation@ == self.stamp(),
    {
        self.observation
    }

    /// The current value, the token of its publication and the value that was not stored.
    pub fn into_parts(self) -> (parts: (Guard<T>, Observation<T>, T))
        ensures
            parts.0 == self.found(),
            parts.1@ == self.stamp(),
            parts.2 == self.offered(),
    {
        (self.current, self.observation, self.new)
    }
}

} // verus!
