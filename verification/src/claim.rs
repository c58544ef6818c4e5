//! The claim protocol: how threads keep a pointer and its generation in step with two atomic words
//! and no lock.
//!
//! The `word` is even while nobody writes. A writer claims it by making it odd, replaces the
//! pointer, and releases it by making it the next even number; so half of an even word is the
//! number of writes so far. A reader takes the word, the pointer and the word again, and has an
//! observation if the word was even and did not change. A conditional update claims the word on
//! the condition that it is the observed one, and can then rely on the pointer being the observed
//! one too.
//!
//! A [`Task`] is what one thread is at. It says which access to the two words comes next, and is
//! resumed with the reply to that access. The accesses themselves are left to the caller.

use vstd::prelude::*;

verus! {

/// A consistent observation of the two words.
#[derive(Clone, Copy, Debug, PartialEq, Eq, Structural)]
pub struct Seen {
    pub word: usize,
    pub ptr: usize,
}

/// An access to one of the two words.
#[derive(Clone, Copy, Debug, PartialEq, Eq, Structural)]
pub enum Access {
    /// Load the word.
    LoadWord,
    /// Load the pointer.
    LoadPtr,
    /// Make the word `to` if it is `from`. A `weak` exchange may fail although it is.
    ExchangeWord { from: usize, to: usize, weak: bool },
    /// Store the pointer.
    StorePtr { ptr: usize },
    /// Store the word.
    StoreWord { word: usize },
}

/// The reply to an access.
#[derive(Clone, Copy, Debug, PartialEq, Eq, Structural)]
pub enum Reply {
    /// What was loaded.
    Loaded(usize),
    /// Whether the exchange took place.
    Exchanged(bool),
    /// The store took place.
    Stored,
}

/// What one thread is at.
#[derive(Clone, Copy, Debug, PartialEq, Eq, Structural)]
pub enum Task {
    /// A writer of `ptr` is about to look whether the word is free.
    Look { ptr: usize, tries: usize },
    /// A writer found the free word `word` and is about to claim it.
    Grab { ptr: usize, tries: usize, word: usize },
    /// A reader is about to load the word.
    Begin { tries: usize },
    /// A reader loaded the free word `word` and is about to load the pointer.
    Fetch { tries: usize, word: usize },
    /// A reader is about to load the word again.
    Confirm { tries: usize, seen: Seen },
    /// A conditional update is about to claim the observed word.
    Commit { seen: Seen, ptr: usize },
    /// A conditional update has claimed the word and is about to check the pointer.
    Check { seen: Seen, ptr: usize },
    /// The word, `word` before, is claimed, and the pointer is about to be stored.
    Put { word: usize, ptr: usize },
    /// The word, `word` before, is claimed, and is about to be released.
    Free { word: usize },
    /// The pointer was written.
    Written,
    /// The writer did not get hold of the word.
    GaveUp,
    /// The reader has an observation.
    Observed(Seen),
    /// The reader got no consistent observation.
    Missed,
    /// The conditional update found another word than the observed one.
    Refused,
}

/// Whether nobody has claimed the word.
pub open spec fn is_free(word: usize) -> bool {
    word % 2 == 0
}

/// Whether the word after the claim and the release of `word` can be represented.
pub open spec fn has_room(word: usize) -> bool {
    word + 2 <= usize::MAX
}

impl Access {
    /// Whether `reply` is of the kind that answers this access.
    pub open spec fn fits(self, reply: Reply) -> bool {
        match self {
            Access::LoadWord | Access::LoadPtr => reply is Loaded,
            Access::ExchangeWord { .. } => reply is Exchanged,
            Access::StorePtr { .. } | Access::StoreWord { .. } => reply is Stored,
        }
    }
}

impl Task {
    /// Whether the words that the task is going to write can be represented.
    pub open spec fn wf(self) -> bool {
        match self {
            Task::Grab { word, .. } => word < usize::MAX,
            Task::Commit { seen, .. } => seen.word < usize::MAX,
            Task::Check { seen, .. } => has_room(seen.word),
            Task::Put { word, .. } | Task::Free { word } => has_room(word),
            _ => true,
        }
    }

    /// Whether the task holds the claim.
    pub open spec fn holds(self) -> bool {
        self is Check || self is Put || self is Free
    }

    /// Whether the task is over.
    pub open spec fn is_over(self) -> bool {
        self.next_access() is None
    }

    /// The access that comes next.
    pub open spec fn next_access(self) -> Option<Access> {
        match self {
            Task::Look { .. } | Task::Begin { .. } | Task::Confirm { .. } => Some(Access::LoadWord),
            Task::Fetch { .. } | Task::Check { .. } => Some(Access::LoadPtr),
            Task::Grab { word, .. } => Some(
                Access::ExchangeWord { from: word, to: (word + 1) as usize, weak: true },
            ),
            Task::Commit { seen, .. } => Some(
                Access::ExchangeWord {
                    from: seen.word,
                    to: (seen.word + 1) as usize,
                    weak: false,
                },
            ),
            Task::Put { ptr, .. } => Some(Access::StorePtr { ptr }),
            Task::Free { word } => Some(Access::StoreWord { word: (word + 2) as usize }),
            _ => None,
        }
    }

    /// A writer after a failed try, of which `tries` were allowed.
    pub open spec fn look_again(ptr: usize, tries: usize) -> Task {
        if tries <= 1 {
            Task::GaveUp
        } else {
            Task::Look { ptr, tries: (tries - 1) as usize }
        }
    }

    /// A reader with `tries` tries.
    pub open spec fn reader(tries: usize) -> Task {
        if tries == 0 {
            Task::Missed
        } else {
            Task::Begin { tries }
        }
    }

    /// A reader after a failed try, of which `tries` were allowed.
    pub open spec fn begin_again(tries: usize) -> Task {
        if tries <= 1 {
            Task::Missed
        } else {
            Task::Begin { tries: (tries - 1) as usize }
        }
    }

    /// Whether a word that `reply` says was claimed can be released.
    pub open spec fn room_after(self, reply: Reply) -> bool {
        match (self, reply) {
            (Task::Grab { word, .. }, Reply::Exchanged(true)) => has_room(word),
            (Task::Commit { seen, .. }, Reply::Exchanged(true)) => has_room(seen.word),
            _ => true,
        }
    }

    /// Whether the task can go on with `reply`.
    ///
    /// The pointer that a conditional update finds after its claim must be the observed one.
    pub open spec fn takes(self, reply: Reply) -> bool {
        &&& self.next_access() matches Some(access) && access.fits(reply)
        &&& self.room_after(reply)
        &&& self matches Task::Check { seen, .. } ==> reply == Reply::Loaded(seen.ptr)
    }

    /// What the task is at after `reply`.
    pub open spec fn after(self, reply: Reply) -> Task {
        match (self, reply) {
            (Task::Look { ptr, tries }, Reply::Loaded(word)) => if word % 2 == 0 {
                Task::Grab { ptr, tries, word }
            } else {
                Task::look_again(ptr, tries)
            },
            (Task::Grab { ptr, tries, word }, Reply::Exchanged(done)) => if done {
                Task::Put { word, ptr }
            } else {
                Task::look_again(ptr, tries)
            },
            (Task::Begin { tries }, Reply::Loaded(word)) => if word % 2 == 0 {
                Task::Fetch { tries, word }
            } else {
                Task::begin_again(tries)
            },
            (Task::Fetch { tries, word }, Reply::Loaded(ptr)) => Task::Confirm {
                tries,
                seen: Seen { word, ptr },
            },
            (Task::Confirm { tries, seen }, Reply::Loaded(word)) => if word == seen.word {
                Task::Observed(seen)
            } else {
                Task::begin_again(tries)
            },
            (Task::Commit { seen, ptr }, Reply::Exchanged(done)) => if done {
                Task::Check { seen, ptr }
            } else {
                Task::Refused
            },
            (Task::Check { seen, ptr }, Reply::Loaded(_)) => Task::Put { word: seen.word, ptr },
            (Task::Put { word, .. }, Reply::Stored) => Task::Free { word },
            (Task::Free { .. }, Reply::Stored) => Task::Written,
            _ => self,
        }
    }

    /// A task that writes `ptr`, and gives up after `tries` failed tries.
    pub fn write(ptr: usize, tries: usize) -> (task: Task)
        ensures
            task == (Task::Look { ptr, tries }),
    {
        Task::Look { ptr, tries }
    }

    /// A task that makes an observation, in at most `tries` tries.
    pub fn observe(tries: usize) -> (task: Task)
        ensures
            task == Task::reader(tries),
    {
        if tries == 0 {
            Task::Missed
        } else {
            Task::Begin { tries }
        }
    }

    /// A task that writes `ptr` on the condition that `seen` is still current.
    pub fn commit(seen: Seen, ptr: usize) -> (task: Task)
        ensures
            task == (Task::Commit { seen, ptr }),
    {
        Task::Commit { seen, ptr }
    }

    /// The access that comes next, or `None` if the task is over.
    pub fn access(&self) -> (access: Option<Access>)
        requires
            self.wf(),
        ensures
            access == self.next_access(),
    {
        match *self {
            Task::Look { .. } | Task::Begin { .. } | Task::Confirm { .. } => Some(Access::LoadWord),
            Task::Fetch { .. } | Task::Check { .. } => Some(Access::LoadPtr),
            Task::Grab { word, .. } => Some(
                Access::ExchangeWord { from: word, to: word + 1, weak: true },
            ),
            Task::Commit { seen, .. } => Some(
                Access::ExchangeWord { from: seen.word, to: seen.word + 1, weak: false },
            ),
            Task::Put { ptr, .. } => Some(Access::StorePtr { ptr }),
            Task::Free { word } => Some(Access::StoreWord { word: word + 2 }),
            Task::Written
            | Task::GaveUp
            | Task::Observed(_)
            | Task::Missed
            | Task::Refused => None,
        }
    }

    /// What the task is at after the reply to its access.
    pub fn resume(self, reply: Reply) -> (task: Task)
        requires
            self.wf(),
            self.takes(reply),
        ensures
            task == self.after(reply),
            task.wf(),
    {
        match (self, reply) {
            (Task::Look { ptr, tries }, Reply::Loaded(word)) => if word % 2 == 0 {
                Task::Grab { ptr, tries, word }
            } else {
                Task::retry_write(ptr, tries)
            },
            (Task::Grab { ptr, tries, word }, Reply::Exchanged(done)) => if done {
                Task::Put { word, ptr }
            } else {
                Task::retry_write(ptr, tries)
            },
            (Task::Begin { tries }, Reply::Loaded(word)) => if word % 2 == 0 {
                Task::Fetch { tries, word }
            } else {
                Task::retry_observe(tries)
            },
            (Task::Fetch { tries, word }, Reply::Loaded(ptr)) => Task::Confirm {
                tries,
                seen: Seen { word, ptr },
            },
            (Task::Confirm { tries, seen }, Reply::Loaded(word)) => if word == seen.word {
                Task::Observed(seen)
            } else {
                Task::retry_observe(tries)
            },
            (Task::Commit { seen, ptr }, Reply::Exchanged(done)) => if done {
                Task::Check { seen, ptr }
            } else {
                Task::Refused
            },
            (Task::Check { seen, ptr }, Reply::Loaded(_)) => Task::Put { word: seen.word, ptr },
            (Task::Put { word, .. }, Reply::Stored) => Task::Free { word },
            (Task::Free { .. }, Reply::Stored) => Task::Written,
            _ => self,
        }
    }

    fn retry_write(ptr: usize, tries: usize) -> (task: Task)
        ensures
            task == Task::look_again(ptr, tries),
    {
        if tries <= 1 {
            Task::GaveUp
        } else {
            Task::Look { ptr, tries: tries - 1 }
        }
    }

    fn retry_observe(tries: usize) -> (task: Task)
        ensures
            task == Task::begin_again(tries),
    {
        if tries <= 1 {
            Task::Missed
        } else {
            Task::Begin { tries: tries - 1 }
        }
    }
}

} // verus!
