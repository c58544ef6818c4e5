//! The mathematical model of a storage: what it publishes, and what each operation does to that.

use crate::as_raw::AsRaw;
use crate::digits::digits;
use crate::observation::GENERATION_SATURATED;
use vstd::prelude::*;

verus! {

/// What a token says of a publication: where the value was, and which generation it had.
pub struct Stamp {
    pub addr: usize,
    pub generation: usize,
}

impl Stamp {
    /// Whether the generation can no longer advance.
    pub open spec fn is_saturated(self) -> bool {
        self.generation == GENERATION_SATURATED
    }

    /// Whether `same` answers whether `current` stands for the address of the token: it compares
    /// the two for an address that was found for `current`.
    pub open spec fn compares<B, C: AsRaw<B>>(self, current: C, same: bool) -> bool {
        exists|addr: usize| #[trigger] current.raw_at(addr) && same == (self.addr == addr)
    }

    /// The token as text.
    pub open spec fn text(self) -> Seq<char> {
        "Observation { ptr: 0x"@ + digits(self.addr as nat, 16) + ", generation: "@ + digits(
            self.generation as nat,
            10,
        ) + " }"@
    }
}

/// The generation of the publication that follows one of generation `generation`.
///
/// It is one more, and stays at [`GENERATION_SATURATED`] once it has got there.
pub open spec fn next_generation(generation: usize) -> usize {
    if generation == GENERATION_SATURATED {
        generation
    } else {
        (generation + 1) as usize
    }
}

/// The smaller of `GENERATION_SATURATED` and `count`.
pub open spec fn saturated(count: int) -> int {
    if count <= GENERATION_SATURATED {
        count
    } else {
        GENERATION_SATURATED as int
    }
}

/// One value in a storage, with its address and its generation.
///
/// This is the whole state of a storage.
pub struct Publication<T> {
    pub value: T,
    pub addr: usize,
    pub generation: usize,
}

/// One step of a storage.
///
/// `addr` is always the address of `value`, the value that the step offers.
pub enum Event<T> {
    /// An unconditional write.
    Publish { value: T, addr: usize },
    /// A write on the condition that the stored value is at the address `expected`.
    Swap { expected: usize, value: T, addr: usize },
    /// A write on the condition that `token` stands for the current publication.
    Commit { token: Stamp, value: T, addr: usize },
}

impl<T> Publication<T> {
    /// The first publication of a storage.
    pub open spec fn initial(value: T, addr: usize) -> Self {
        Publication { value, addr, generation: 0 }
    }

    /// The token of this publication.
    pub open spec fn stamp(self) -> Stamp {
        Stamp { addr: self.addr, generation: self.generation }
    }

    /// Whether a conditional update with `token` takes place.
    pub open spec fn accepts(self, token: Stamp) -> bool {
        token == self.stamp() && !token.is_saturated()
    }

    /// The publication of `value` after this one.
    pub open spec fn publish(self, value: T, addr: usize) -> Self {
        Publication { value, addr, generation: next_generation(self.generation) }
    }

    /// Whether `event` writes.
    pub open spec fn publishes(self, event: Event<T>) -> bool {
        match event {
            Event::Publish { .. } => true,
            Event::Swap { expected, .. } => expected == self.addr,
            Event::Commit { token, .. } => self.accepts(token),
        }
    }

    /// What is published after `event`.
    pub open spec fn apply(self, event: Event<T>) -> Self {
        if self.publishes(event) {
            match event {
                Event::Publish { value, addr } => self.publish(value, addr),
                Event::Swap { value, addr, .. } => self.publish(value, addr),
                Event::Commit { value, addr, .. } => self.publish(value, addr),
            }
        } else {
            self
        }
    }

    /// What is published after all of `events`, one after the other.
    pub open spec fn replay(self, events: Seq<Event<T>>) -> Self
        decreases events.len(),
    {
        if events.len() == 0 {
            self
        } else {
            self.replay(events.drop_last()).apply(events.last())
        }
    }

    /// How many of `events` write.
    pub open spec fn publications(self, events: Seq<Event<T>>) -> nat
        decreases events.len(),
    {
        if events.len() == 0 {
            0
        } else {
            let before = events.drop_last();
            self.publications(before) + if self.replay(before).publishes(events.last()) {
                1nat
            } else {
                0nat
            }
        }
    }
}

} // verus!
