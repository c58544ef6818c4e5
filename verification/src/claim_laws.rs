//! What holds of the claim protocol, however the accesses of its threads interleave.

use crate::claim::{is_free, Access, Reply, Seen, Task};
use vstd::prelude::*;

verus! {

/// The two words, and what every thread is at.
///
/// `tokens` are the observations that were made so far. They can be copied and passed on, so any
/// thread may use any of them, and more than once.
pub struct Threads {
    pub word: usize,
    pub ptr: usize,
    pub tasks: Seq<Task>,
    pub tokens: Set<Seen>,
}

impl Threads {
    /// Nobody has begun, and the word is even.
    pub open spec fn at_rest(self) -> bool {
        &&& is_free(self.word)
        &&& self.tokens == Set::<Seen>::empty()
        &&& forall|t: int| 0 <= t < self.tasks.len() ==> (#[trigger] self.tasks[t]).fresh()
    }

    /// Whether the access can get this reply, and leaves the words as they are in `next`.
    pub open spec fn serves(self, access: Access, reply: Reply, next: Threads) -> bool {
        match access {
            Access::LoadWord => {
                &&& reply == Reply::Loaded(self.word)
                &&& next.word == self.word
                &&& next.ptr == self.ptr
            },
            Access::LoadPtr => {
                &&& reply == Reply::Loaded(self.ptr)
                &&& next.word == self.word
                &&& next.ptr == self.ptr
            },
            Access::ExchangeWord { from, to, weak } => {
                &&& reply matches Reply::Exchanged(done)
                &&& done ==> self.word == from
                &&& !done && !weak ==> self.word != from
                &&& next.word == if done {
                    to
                } else {
                    self.word
                }
                &&& next.ptr == self.ptr
            },
            Access::StorePtr { ptr } => {
                &&& reply == Reply::Stored
                &&& next.word == self.word
                &&& next.ptr == ptr
            },
            Access::StoreWord { word } => {
                &&& reply == Reply::Stored
                &&& next.word == word
                &&& next.ptr == self.ptr
            },
        }
    }

    /// Thread `t` makes its next access, and gets `reply`.
    pub open spec fn advances(self, t: int, reply: Reply, next: Threads) -> bool {
        &&& 0 <= t < self.tasks.len()
        &&& self.tasks[t].next_access() matches Some(access)
        &&& self.serves(access, reply, next)
        &&& self.tasks[t].room_after(reply)
        &&& next.tasks == self.tasks.update(t, self.tasks[t].after(reply))
        &&& next.tokens == match self.tasks[t].after(reply) {
            Task::Observed(seen) => self.tokens.insert(seen),
            _ => self.tokens,
        }
    }

    /// Thread `t`, whose task is over, begins `task`. A conditional update uses an observation
    /// that was made.
    pub open spec fn begins(self, t: int, task: Task, next: Threads) -> bool {
        &&& 0 <= t < self.tasks.len()
        &&& self.tasks[t].is_over()
        &&& task.fresh() || (task matches Task::Commit { seen, .. } && self.tokens.contains(seen))
        &&& next == Threads { tasks: self.tasks.update(t, task), ..self }
    }

    /// One step of some thread.
    pub open spec fn steps(self, next: Threads) -> bool {
        ||| exists|t: int, reply: Reply| #[trigger] self.advances(t, reply, next)
        ||| exists|t: int, task: Task| #[trigger] self.begins(t, task, next)
    }

    /// Whether `ptr` is what the observation of `word` says, as far as that can be told now.
    pub open spec fn agrees(self, seen: Seen) -> bool {
        &&& is_free(seen.word)
        &&& seen.word <= self.word
        &&& seen.word == self.word ==> seen.ptr == self.ptr
    }

    /// What a task relies on.
    pub open spec fn supports(self, task: Task) -> bool {
        &&& task.wf()
        &&& match task {
            Task::Grab { word, .. } => is_free(word),
            Task::Fetch { word, .. } => is_free(word) && word <= self.word,
            Task::Confirm { seen, .. } => self.agrees(seen),
            Task::Observed(seen) => self.tokens.contains(seen),
            Task::Commit { seen, .. } => self.tokens.contains(seen),
            Task::Check { seen, .. } => {
                &&& is_free(seen.word)
                &&& self.word == seen.word + 1
                &&& self.ptr == seen.ptr
            },
            Task::Put { word, .. } => is_free(word) && self.word == word + 1,
            Task::Free { word } => is_free(word) && self.word == word + 1,
            _ => true,
        }
    }

    /// What every interleaving keeps.
    pub open spec fn inv(self) -> bool {
        &&& forall|t: int| 0 <= t < self.tasks.len() ==> self.supports(#[trigger] self.tasks[t])
        &&& forall|seen: Seen| #[trigger] self.tokens.contains(seen) ==> self.agrees(seen)
        &&& forall|t: int, u: int|
            0 <= t < self.tasks.len() && 0 <= u < self.tasks.len() && (
            #[trigger] self.tasks[t]).holds() && (#[trigger] self.tasks[u]).holds() ==> t == u
        &&& !is_free(self.word) ==> exists|t: int|
            0 <= t < self.tasks.len() && (#[trigger] self.tasks[t]).holds()
    }
}

impl Task {
    /// Whether this is the beginning of a write or of an observation, or nothing to do.
    pub open spec fn fresh(self) -> bool {
        match self {
            Task::Look { .. } | Task::Begin { .. } => true,
            Task::Written | Task::GaveUp | Task::Missed | Task::Refused => true,
            _ => false,
        }
    }
}

/// A course of the protocol: every state comes from the one before by a step of one thread.
pub open spec fn is_course(course: Seq<Threads>) -> bool {
    &&& course.len() > 0
    &&& course[0].at_rest()
    &&& forall|i: int| 0 < i < course.len() ==> course[i - 1].steps(#[trigger] course[i])
}

proof fn advance_keeps_inv(s: Threads, t: int, reply: Reply, next: Threads)
    requires
        s.inv(),
        s.advances(t, reply, next),
    ensures
        next.inv(),
        next.word == s.word || next.word == s.word + 1,
        next.ptr != s.ptr ==> !is_free(s.word) && next.word == s.word,
{
    let task = s.tasks[t];
    let after = task.after(reply);
    assert(s.supports(task));
    assert(next.tasks[t] == after);
    assert(task.holds() ==> !is_free(s.word));
    assert forall|u: int| 0 <= u < next.tasks.len() implies next.supports(
        #[trigger] next.tasks[u],
    ) by {
        if u != t {
            assert(next.tasks[u] == s.tasks[u]);
            assert(s.supports(s.tasks[u]));
        }
    }
    assert forall|u: int, v: int|
        0 <= u < next.tasks.len() && 0 <= v < next.tasks.len() && (
        #[trigger] next.tasks[u]).holds() && (#[trigger] next.tasks[v]).holds() implies u == v by {
        if u != t {
            assert(next.tasks[u] == s.tasks[u]);
            assert(s.supports(s.tasks[u]));
        }
        if v != t {
            assert(next.tasks[v] == s.tasks[v]);
            assert(s.supports(s.tasks[v]));
        }
    }
    if !is_free(next.word) {
        if is_free(s.word) {
            assert(next.tasks[t].holds());
        } else {
            let u = choose|u: int| 0 <= u < s.tasks.len() && (#[trigger] s.tasks[u]).holds();
            if u == t {
                assert(next.tasks[t].holds());
            } else {
                assert(next.tasks[u] == s.tasks[u]);
            }
        }
    }
}

proof fn begin_keeps_inv(s: Threads, t: int, task: Task, next: Threads)
    requires
        s.inv(),
        s.begins(t, task, next),
    ensures
        next.inv(),
        next.word == s.word,
        next.ptr == s.ptr,
{
    assert forall|u: int| 0 <= u < next.tasks.len() implies next.supports(
        #[trigger] next.tasks[u],
    ) by {
        if u != t {
            assert(next.tasks[u] == s.tasks[u]);
        }
    }
    if !is_free(next.word) {
        let u = choose|u: int| 0 <= u < s.tasks.len() && (#[trigger] s.tasks[u]).holds();
        assert(next.tasks[u] == s.tasks[u]);
    }
}

/// One step keeps what every interleaving keeps. The word changes by one at most, and the pointer
/// changes only while the word is claimed.
pub proof fn step_keeps_inv(s: Threads, next: Threads)
    requires
        s.inv(),
        s.steps(next),
    ensures
        next.inv(),
        next.word == s.word || next.word == s.word + 1,
        next.ptr != s.ptr ==> !is_free(s.word) && next.word == s.word,
{
    if exists|t: int, reply: Reply| #[trigger] s.advances(t, reply, next) {
        let (t, reply) = choose|t: int, reply: Reply| #[trigger] s.advances(t, reply, next);
        advance_keeps_inv(s, t, reply, next);
    } else {
        let (t, task) = choose|t: int, task: Task| #[trigger] s.begins(t, task, next);
        begin_keeps_inv(s, t, task, next);
    }
}

/// Every state that threads can get to, from rest and by any interleaving, is consistent.
pub proof fn course_keeps_inv(course: Seq<Threads>, i: int)
    requires
        is_course(course),
        0 <= i < course.len(),
    ensures
        course[i].inv(),
    decreases i,
{
    if i > 0 {
        course_keeps_inv(course, i - 1);
        step_keeps_inv(course[i - 1], course[i]);
    }
}

/// The core of the protocol: once a conditional update has claimed the word that it observed, the
/// pointer is the one that it observed. So the reply to its next access is one that it takes.
pub proof fn claimed_pointer_is_the_observed_one(course: Seq<Threads>, i: int, t: int)
    requires
        is_course(course),
        0 <= i < course.len(),
        0 <= t < course[i].tasks.len(),
    ensures
        course[i].tasks[t] matches Task::Check { seen, .. } ==> course[i].ptr == seen.ptr,
        course[i].tasks[t].wf(),
        forall|reply: Reply, next: Threads| #[trigger]
            course[i].advances(t, reply, next) ==> course[i].tasks[t].takes(reply),
{
    course_keeps_inv(course, i);
    assert(course[i].supports(course[i].tasks[t]));
}

/// At most one thread holds the claim.
pub proof fn claim_is_exclusive(course: Seq<Threads>, i: int, t: int, u: int)
    requires
        is_course(course),
        0 <= i < course.len(),
        0 <= t < course[i].tasks.len(),
        0 <= u < course[i].tasks.len(),
        course[i].tasks[t].holds(),
        course[i].tasks[u].holds(),
    ensures
        t == u,
{
    course_keeps_inv(course, i);
}

/// No claim is left behind: when all tasks are over, the word is even.
pub proof fn no_claim_is_left(course: Seq<Threads>, i: int)
    requires
        is_course(course),
        0 <= i < course.len(),
        forall|t: int| 0 <= t < course[i].tasks.len() ==> (#[trigger] course[i].tasks[t]).is_over(),
    ensures
        is_free(course[i].word),
{
    course_keeps_inv(course, i);
}

/// The word never goes back.
pub proof fn word_is_monotonic(course: Seq<Threads>, i: int, j: int)
    requires
        is_course(course),
        0 <= i <= j < course.len(),
    ensures
        course[i].word <= course[j].word,
    decreases j - i,
{
    if i < j {
        word_is_monotonic(course, i, j - 1);
        course_keeps_inv(course, j - 1);
        step_keeps_inv(course[j - 1], course[j]);
    }
}

/// How many writes were completed in the course up to state `i`: how often the word was released.
pub open spec fn writes(course: Seq<Threads>, i: int) -> nat
    decreases i,
{
    if i <= 0 {
        0
    } else {
        writes(course, i - 1) + if !is_free(course[i - 1].word) && is_free(course[i].word) {
            1nat
        } else {
            0nat
        }
    }
}

/// Every completed write adds two to the word: half of the word counts the writes.
pub proof fn word_counts_writes(course: Seq<Threads>, i: int)
    requires
        is_course(course),
        0 <= i < course.len(),
    ensures
        course[i].word / 2 == course[0].word / 2 + writes(course, i),
    decreases i,
{
    if i > 0 {
        word_counts_writes(course, i - 1);
        course_keeps_inv(course, i - 1);
        step_keeps_inv(course[i - 1], course[i]);
    }
}

/// An even word that is found again was there all the time, and the pointer with it. No change of
/// the pointer that is undone goes unnoticed.
pub proof fn same_word_same_pointer(course: Seq<Threads>, i: int, k: int, j: int)
    requires
        is_course(course),
        0 <= i <= k <= j < course.len(),
        is_free(course[i].word),
        course[i].word == course[j].word,
    ensures
        course[k].word == course[i].word,
        course[k].ptr == course[i].ptr,
    decreases k - i,
{
    word_is_monotonic(course, i, k);
    word_is_monotonic(course, k, j);
    if i < k {
        same_word_same_pointer(course, i, k - 1, j);
        course_keeps_inv(course, k - 1);
        step_keeps_inv(course[k - 1], course[k]);
    }
}

/// An observation is of one moment: when it is made, both words are as it says.
pub proof fn observation_is_consistent(course: Seq<Threads>, i: int, t: int, reply: Reply)
    requires
        is_course(course),
        0 <= i,
        i + 1 < course.len(),
        course[i].advances(t, reply, course[i + 1]),
        course[i + 1].tasks[t] is Observed,
    ensures
        course[i + 1].tasks[t] == Task::Observed(
            Seen { word: course[i + 1].word, ptr: course[i + 1].ptr },
        ),
        is_free(course[i + 1].word),
{
    course_keeps_inv(course, i);
    assert(course[i].supports(course[i].tasks[t]));
}

/// A conditional update takes place exactly if the word is the observed one.
pub proof fn commit_claims_iff_word_is_observed(
    course: Seq<Threads>,
    i: int,
    t: int,
    reply: Reply,
    seen: Seen,
    ptr: usize,
)
    requires
        is_course(course),
        0 <= i,
        i + 1 < course.len(),
        0 <= t < course[i].tasks.len(),
        course[i].tasks[t] == (Task::Commit { seen, ptr }),
        course[i].advances(t, reply, course[i + 1]),
    ensures
        course[i].word == seen.word ==> course[i + 1].tasks[t] == (Task::Check { seen, ptr }),
        course[i].word != seen.word ==> course[i + 1].tasks[t] == Task::Refused,
{
}

/// An observation that the word has left behind is of no use any more: whatever happens, a
/// conditional update with it is refused. That is so after every write, and after a conditional
/// update with the observation itself.
pub proof fn passed_observation_is_refused(
    course: Seq<Threads>,
    i: int,
    j: int,
    t: int,
    reply: Reply,
    seen: Seen,
    ptr: usize,
)
    requires
        is_course(course),
        0 <= i <= j,
        j + 1 < course.len(),
        seen.word < course[i].word,
        0 <= t < course[j].tasks.len(),
        course[j].tasks[t] == (Task::Commit { seen, ptr }),
        course[j].advances(t, reply, course[j + 1]),
    ensures
        course[j + 1].tasks[t] == Task::Refused,
{
    word_is_monotonic(course, i, j);
    commit_claims_iff_word_is_observed(course, j, t, reply, seen, ptr);
}

/// A thread that asks its task for the access, makes it, and resumes the task with the reply makes
/// one step of the course.
pub proof fn calls_make_a_step(
    s: Threads,
    t: int,
    access: Access,
    reply: Reply,
    after: Task,
    next: Threads,
)
    requires
        0 <= t < s.tasks.len(),
        s.tasks[t].wf(),
        s.tasks[t].takes(reply),
        call_ensures(Task::access, (&s.tasks[t],), Some(access)),
        call_ensures(Task::resume, (s.tasks[t], reply), after),
        s.serves(access, reply, next),
        next.tasks == s.tasks.update(t, after),
        next.tokens == match after {
            Task::Observed(seen) => s.tokens.insert(seen),
            _ => s.tokens,
        },
    ensures
        s.advances(t, reply, next),
{
}

/// A writer that finds the word even is about to claim that word. One that finds it odd has used up
/// a try, and gives up with the last.
pub proof fn writer_looks(s: Threads, t: int, reply: Reply, next: Threads, ptr: usize, tries: usize)
    requires
        s.advances(t, reply, next),
        s.tasks[t] == (Task::Look { ptr, tries }),
    ensures
        next.word == s.word && next.ptr == s.ptr,
        s.word % 2 == 0 ==> next.tasks[t] == (Task::Grab { ptr, tries, word: s.word }),
        s.word % 2 == 1 && tries > 1 ==> next.tasks[t] == (Task::Look {
            ptr,
            tries: (tries - 1) as usize,
        }),
        s.word % 2 == 1 && tries <= 1 ==> next.tasks[t] == Task::GaveUp,
{
}

/// A writer claims the word that it found, and no other, by adding one to it. If it does not get
/// hold of it, it has used up a try, and gives up with the last.
pub proof fn writer_claims(
    s: Threads,
    t: int,
    reply: Reply,
    next: Threads,
    ptr: usize,
    tries: usize,
    word: usize,
)
    requires
        s.advances(t, reply, next),
        s.tasks[t] == (Task::Grab { ptr, tries, word }),
        word < usize::MAX,
    ensures
        next.ptr == s.ptr,
        next.word != s.word ==> s.word == word && next.word == word + 1 && next.tasks[t] == (
        Task::Put { word, ptr }),
        s.word != word ==> next.word == s.word,
        next.word == s.word && tries > 1 ==> next.tasks[t] == (Task::Look {
            ptr,
            tries: (tries - 1) as usize,
        }),
        next.word == s.word && tries <= 1 ==> next.tasks[t] == Task::GaveUp,
{
}

/// A reader that finds the word even goes on to the pointer. One that finds it odd has used up a
/// try, and gives up with the last.
pub proof fn reader_begins(s: Threads, t: int, reply: Reply, next: Threads, tries: usize)
    requires
        s.advances(t, reply, next),
        s.tasks[t] == (Task::Begin { tries }),
    ensures
        next.word == s.word && next.ptr == s.ptr,
        s.word % 2 == 0 ==> next.tasks[t] == (Task::Fetch { tries, word: s.word }),
        s.word % 2 == 1 && tries > 1 ==> next.tasks[t] == (Task::Begin {
            tries: (tries - 1) as usize,
        }),
        s.word % 2 == 1 && tries <= 1 ==> next.tasks[t] == Task::Missed,
{
}

/// A reader takes the pointer that is there.
pub proof fn reader_fetches(
    s: Threads,
    t: int,
    reply: Reply,
    next: Threads,
    tries: usize,
    word: usize,
)
    requires
        s.advances(t, reply, next),
        s.tasks[t] == (Task::Fetch { tries, word }),
    ensures
        next.word == s.word && next.ptr == s.ptr,
        next.tasks[t] == (Task::Confirm { tries, seen: Seen { word, ptr: s.ptr } }),
{
}

/// A reader that finds the word again has its observation. One that finds another word has used up
/// a try, and gives up with the last.
pub proof fn reader_confirms(
    s: Threads,
    t: int,
    reply: Reply,
    next: Threads,
    tries: usize,
    seen: Seen,
)
    requires
        s.advances(t, reply, next),
        s.tasks[t] == (Task::Confirm { tries, seen }),
    ensures
        next.word == s.word && next.ptr == s.ptr,
        s.word == seen.word ==> next.tasks[t] == Task::Observed(seen) && next.tokens
            == s.tokens.insert(seen),
        s.word != seen.word && tries > 1 ==> next.tasks[t] == (Task::Begin {
            tries: (tries - 1) as usize,
        }),
        s.word != seen.word && tries <= 1 ==> next.tasks[t] == Task::Missed,
{
}

/// A conditional update that finds the observed word claims it, by adding one to it. One that finds
/// another word is refused, and changes nothing.
pub proof fn update_claims(
    s: Threads,
    t: int,
    reply: Reply,
    next: Threads,
    seen: Seen,
    ptr: usize,
)
    requires
        s.advances(t, reply, next),
        s.tasks[t] == (Task::Commit { seen, ptr }),
        seen.word < usize::MAX,
    ensures
        next.ptr == s.ptr,
        s.word == seen.word ==> next.word == s.word + 1 && next.tasks[t] == (Task::Check {
            seen,
            ptr,
        }),
        s.word != seen.word ==> next.word == s.word && next.tasks[t] == Task::Refused,
{
}

/// A thread that holds the claim comes to the end of its write: it stores its own pointer, and
/// then releases the word as the next even one.
pub proof fn holder_completes(s: Threads, t: int, reply: Reply, next: Threads)
    requires
        s.advances(t, reply, next),
    ensures
        s.tasks[t] matches Task::Check { seen, ptr } ==> next.word == s.word && next.ptr == s.ptr
            && next.tasks[t] == (Task::Put { word: seen.word, ptr }),
        s.tasks[t] matches Task::Put { word, ptr } ==> next.word == s.word && next.ptr == ptr
            && next.tasks[t] == (Task::Free { word }),
        s.tasks[t] matches Task::Free { word } ==> (word + 2 <= usize::MAX ==> next.word == word
            + 2) && next.ptr == s.ptr && next.tasks[t] == Task::Written,
{
}

/// A write that nobody disturbs takes four accesses. It leaves its pointer, and the next even word.
pub proof fn undisturbed_write(
    states: Seq<Threads>,
    replies: Seq<Reply>,
    t: int,
    ptr: usize,
    tries: usize,
)
    requires
        states.len() == 5,
        replies.len() == 4,
        forall|k: int|
            0 <= k < 4 ==> states[k].advances(t, #[trigger] replies[k], states[k + 1]),
        states[0].tasks[t] == (Task::Look { ptr, tries }),
        states[0].word % 2 == 0,
        replies[1] == Reply::Exchanged(true),
    ensures
        states[4].tasks[t] == Task::Written,
        states[4].ptr == ptr,
        states[4].word == states[0].word + 2,
{
    assert(states[0].advances(t, replies[0], states[1]));
    assert(states[1].advances(t, replies[1], states[2]));
    assert(states[2].advances(t, replies[2], states[3]));
    assert(states[3].advances(t, replies[3], states[4]));
}

/// A conditional update that nobody disturbs, with what is there as its observation, takes four
/// accesses. It leaves its pointer, and the next even word.
pub proof fn undisturbed_update(
    states: Seq<Threads>,
    replies: Seq<Reply>,
    t: int,
    seen: Seen,
    ptr: usize,
)
    requires
        states.len() == 5,
        replies.len() == 4,
        forall|k: int|
            0 <= k < 4 ==> states[k].advances(t, #[trigger] replies[k], states[k + 1]),
        states[0].tasks[t] == (Task::Commit { seen, ptr }),
        states[0].word == seen.word,
    ensures
        states[4].tasks[t] == Task::Written,
        states[4].ptr == ptr,
        states[4].word == states[0].word + 2,
{
    assert(states[0].advances(t, replies[0], states[1]));
    assert(states[1].advances(t, replies[1], states[2]));
    assert(states[2].advances(t, replies[2], states[3]));
    assert(states[3].advances(t, replies[3], states[4]));
}

/// An observation that nobody disturbs takes three accesses, and is of the very two words that are
/// there. After a write these are the pointer that was written and the word that it left.
pub proof fn undisturbed_observation(
    states: Seq<Threads>,
    replies: Seq<Reply>,
    t: int,
    tries: usize,
)
    requires
        states.len() == 4,
        replies.len() == 3,
        forall|k: int|
            0 <= k < 3 ==> states[k].advances(t, #[trigger] replies[k], states[k + 1]),
        states[0].tasks[t] == (Task::Begin { tries }),
        states[0].word % 2 == 0,
    ensures
        states[3].tasks[t] == Task::Observed(Seen { word: states[0].word, ptr: states[0].ptr }),
        states[3].word == states[0].word,
        states[3].ptr == states[0].ptr,
{
    assert(states[0].advances(t, replies[0], states[1]));
    assert(states[1].advances(t, replies[1], states[2]));
    assert(states[2].advances(t, replies[2], states[3]));
}

/// Whether `tasks` is what one task goes through: each is what a call of `resume` made of the one
/// before and a reply that it takes.
pub open spec fn is_run(tasks: Seq<Task>, replies: Seq<Reply>) -> bool {
    &&& tasks.len() == replies.len() + 1
    &&& forall|k: int|
        0 <= k < replies.len() ==> tasks[k].takes(#[trigger] replies[k]) && call_ensures(
            Task::resume,
            (tasks[k], replies[k]),
            tasks[k + 1],
        )
}

/// Whether the task is on its way to write `ptr`, or is past the store.
spec fn pursues(task: Task, ptr: usize) -> bool {
    match task {
        Task::Look { ptr: own, .. } => own == ptr,
        Task::Grab { ptr: own, .. } => own == ptr,
        Task::Commit { ptr: own, .. } => own == ptr,
        Task::Check { ptr: own, .. } => own == ptr,
        Task::Put { ptr: own, .. } => own == ptr,
        Task::Free { .. } | Task::Written | Task::GaveUp | Task::Refused => true,
        _ => false,
    }
}

/// Whether the task is about to claim `word`.
spec fn claims(task: Task, word: usize) -> bool {
    match task {
        Task::Grab { word: found, .. } => found == word,
        Task::Commit { seen, .. } => seen.word == word,
        _ => false,
    }
}

/// Whether `word` was claimed before task `i` of a run.
spec fn claimed(tasks: Seq<Task>, replies: Seq<Reply>, i: int, word: usize) -> bool {
    exists|k: int|
        0 <= k < i && #[trigger] replies[k] == Reply::Exchanged(true) && claims(tasks[k], word)
}

proof fn run_keeps_its_pointer(tasks: Seq<Task>, replies: Seq<Reply>, i: int, ptr: usize)
    requires
        is_run(tasks, replies),
        tasks[0] is Look || tasks[0] is Commit,
        pursues(tasks[0], ptr),
        tasks[0].wf(),
        0 <= i < tasks.len(),
    ensures
        tasks[i].wf(),
        pursues(tasks[i], ptr),
        tasks[i] matches Task::Check { seen, .. } ==> claimed(tasks, replies, i, seen.word),
        tasks[i] matches Task::Put { word, .. } ==> claimed(tasks, replies, i, word),
        tasks[i] matches Task::Free { word } ==> claimed(tasks, replies, i, word),
    decreases i,
{
    if i > 0 {
        run_keeps_its_pointer(tasks, replies, i - 1, ptr);
        let reply = replies[i - 1];
        assert(tasks[i - 1].takes(reply));
        assert(call_ensures(Task::resume, (tasks[i - 1], reply), tasks[i]));
    }
}

/// What a writer or a conditional update stores is its own pointer, whatever the replies are. It
/// releases the very word that it claimed, two further on.
pub proof fn run_stores_its_own_pointer(
    tasks: Seq<Task>,
    replies: Seq<Reply>,
    i: int,
    ptr: usize,
    tries: usize,
    seen: Seen,
    access: Access,
)
    requires
        is_run(tasks, replies),
        call_ensures(Task::write, (ptr, tries), tasks[0]) || call_ensures(
            Task::commit,
            (seen, ptr),
            tasks[0],
        ),
        seen.word < usize::MAX,
        0 <= i < tasks.len(),
        call_ensures(Task::access, (&tasks[i],), Some(access)),
    ensures
        access matches Access::StorePtr { ptr: stored } ==> stored == ptr,
        access matches Access::StoreWord { word } ==> exists|k: int|
            0 <= k < i && #[trigger] replies[k] == Reply::Exchanged(true) && (
            tasks[k].next_access() matches Some(Access::ExchangeWord { from, to, .. }) && to == from
                + 1 && word == from + 2),
{
    run_keeps_its_pointer(tasks, replies, i, ptr);
    if let Task::Free { word } = tasks[i] {
        let k = choose|k: int|
            0 <= k < i && #[trigger] replies[k] == Reply::Exchanged(true) && claims(tasks[k], word);
        assert(replies[k] == Reply::Exchanged(true));
        run_keeps_its_pointer(tasks, replies, k, ptr);
    }
}

/// A reader loads, and does nothing else to the words.
pub proof fn reader_only_loads(
    tasks: Seq<Task>,
    replies: Seq<Reply>,
    i: int,
    tries: usize,
    access: Access,
)
    requires
        is_run(tasks, replies),
        call_ensures(Task::observe, (tries,), tasks[0]),
        0 <= i < tasks.len(),
        call_ensures(Task::access, (&tasks[i],), Some(access)),
    ensures
        access == Access::LoadWord || access == Access::LoadPtr,
{
    reader_counts_its_tries(tasks, replies, i, tries);
}

/// How many of the first `i` replies say that the word is not to be had: it is odd, or the exchange
/// did not take place.
pub open spec fn failures(replies: Seq<Reply>, i: int) -> nat
    decreases i,
{
    if i <= 0 {
        0
    } else {
        failures(replies, i - 1) + match replies[i - 1] {
            Reply::Loaded(word) => if word % 2 == 1 {
                1nat
            } else {
                0nat
            },
            Reply::Exchanged(done) => if done {
                0nat
            } else {
                1nat
            },
            Reply::Stored => 0nat,
        }
    }
}

/// A writer gives up exactly when it has failed as often as it was allowed to, and at least once.
pub proof fn writer_counts_its_tries(
    tasks: Seq<Task>,
    replies: Seq<Reply>,
    i: int,
    ptr: usize,
    tries: usize,
)
    requires
        is_run(tasks, replies),
        call_ensures(Task::write, (ptr, tries), tasks[0]),
        0 <= i < tasks.len(),
    ensures
        tasks[i] == Task::GaveUp <==> failures(replies, i) == if tries == 0 {
            1
        } else {
            tries as int
        },
        tasks[i] != Task::GaveUp ==> failures(replies, i) < if tries == 0 {
            1
        } else {
            tries as int
        },
        tasks[i] matches Task::Look { ptr: own, tries: left } ==> own == ptr && left + failures(
            replies,
            i,
        ) == tries,
        tasks[i] matches Task::Grab { ptr: own, tries: left, .. } ==> own == ptr && left + failures(
            replies,
            i,
        ) == tries,
        tasks[i] is Look || tasks[i] is Grab || tasks[i] is Put || tasks[i] is Free
            || tasks[i] is Written || tasks[i] is GaveUp,
    decreases i,
{
    if i > 0 {
        writer_counts_its_tries(tasks, replies, i - 1, ptr, tries);
        let reply = replies[i - 1];
        assert(tasks[i - 1].takes(reply));
        assert(call_ensures(Task::resume, (tasks[i - 1], reply), tasks[i]));
    }
}

/// How often a reader failed before task `i` of its run: it found the word odd, or found another
/// word the second time.
pub open spec fn misses(tasks: Seq<Task>, replies: Seq<Reply>, i: int) -> nat
    decreases i,
{
    if i <= 0 {
        0
    } else {
        misses(tasks, replies, i - 1) + match (tasks[i - 1], replies[i - 1]) {
            (Task::Begin { .. }, Reply::Loaded(word)) => if word % 2 == 1 {
                1nat
            } else {
                0nat
            },
            (Task::Confirm { seen, .. }, Reply::Loaded(word)) => if word != seen.word {
                1nat
            } else {
                0nat
            },
            _ => 0nat,
        }
    }
}

/// A reader misses exactly when it has failed as often as it was allowed to.
pub proof fn reader_counts_its_tries(
    tasks: Seq<Task>,
    replies: Seq<Reply>,
    i: int,
    tries: usize,
)
    requires
        is_run(tasks, replies),
        call_ensures(Task::observe, (tries,), tasks[0]),
        0 <= i < tasks.len(),
    ensures
        tasks[i] == Task::Missed <==> misses(tasks, replies, i) == tries,
        tasks[i] != Task::Missed ==> misses(tasks, replies, i) < tries,
        tasks[i] matches Task::Begin { tries: left } ==> left + misses(tasks, replies, i) == tries,
        tasks[i] matches Task::Fetch { tries: left, .. } ==> left + misses(tasks, replies, i)
            == tries,
        tasks[i] matches Task::Confirm { tries: left, .. } ==> left + misses(tasks, replies, i)
            == tries,
        tasks[i] is Begin || tasks[i] is Fetch || tasks[i] is Confirm || tasks[i] is Observed
            || tasks[i] is Missed,
    decreases i,
{
    if i > 0 {
        reader_counts_its_tries(tasks, replies, i - 1, tries);
        let reply = replies[i - 1];
        assert(tasks[i - 1].takes(reply));
        assert(call_ensures(Task::resume, (tasks[i - 1], reply), tasks[i]));
    }
}

/// What a reader observes is what it was told: the pointer is the last one that was loaded, and the
/// word is the one that was loaded just before that and again just after.
pub proof fn observation_is_what_was_loaded(
    tasks: Seq<Task>,
    replies: Seq<Reply>,
    i: int,
    tries: usize,
    seen: Seen,
)
    requires
        is_run(tasks, replies),
        call_ensures(Task::observe, (tries,), tasks[0]),
        0 <= i < tasks.len(),
        tasks[i] == Task::Observed(seen),
    ensures
        i >= 3,
        replies[i - 3] == Reply::Loaded(seen.word),
        replies[i - 2] == Reply::Loaded(seen.ptr),
        replies[i - 1] == Reply::Loaded(seen.word),
        seen.word % 2 == 0,
{
    reader_counts_its_tries(tasks, replies, i, tries);
    assert(i > 0);
    assert(tasks[i - 1].takes(replies[i - 1]));
    reader_counts_its_tries(tasks, replies, i - 1, tries);
    assert(i > 1);
    assert(tasks[i - 2].takes(replies[i - 2]));
    reader_counts_its_tries(tasks, replies, i - 2, tries);
    assert(i > 2);
    assert(tasks[i - 3].takes(replies[i - 3]));
    reader_counts_its_tries(tasks, replies, i - 3, tries);
}

/// A task goes on with every reply of the right kind, save two: a claim of a word that has no even
/// word after it, and a pointer after the claim that is not the observed one.
pub proof fn task_goes_on(task: Task, word: usize, done: bool)
    ensures
        task is Look || task is Begin || task is Fetch || task is Confirm ==> task.takes(
            Reply::Loaded(word),
        ),
        task matches Task::Check { seen, .. } ==> (task.takes(Reply::Loaded(word)) <==> word
            == seen.ptr),
        task matches Task::Grab { word: found, .. } ==> (task.takes(Reply::Exchanged(done)) <==> (
        done ==> found + 2 <= usize::MAX)),
        task matches Task::Commit { seen, .. } ==> (task.takes(Reply::Exchanged(done)) <==> (done
            ==> seen.word + 2 <= usize::MAX)),
        task is Put || task is Free ==> task.takes(Reply::Stored),
{
}

/// Every task can be begun, and one with an observation that was made in some course is no
/// exception.
pub proof fn task_can_begin(
    ptr: usize,
    tries: usize,
    seen: Seen,
    writer: Task,
    reader: Task,
    update: Task,
)
    requires
        call_ensures(Task::write, (ptr, tries), writer),
        call_ensures(Task::observe, (tries,), reader),
        call_ensures(Task::commit, (seen, ptr), update),
    ensures
        writer == (Task::Look { ptr, tries }) && writer.wf(),
        tries > 0 ==> reader == (Task::Begin { tries }),
        tries == 0 ==> reader == Task::Missed,
        reader.wf(),
        update == (Task::Commit { seen, ptr }),
        seen.word < usize::MAX ==> update.wf(),
        forall|course: Seq<Threads>, i: int|
            #![trigger course[i].tokens.contains(seen)]
            is_course(course) && 0 <= i < course.len() && course[i].tokens.contains(seen)
                ==> update.wf() && seen.word % 2 == 0,
{
    assert forall|course: Seq<Threads>, i: int|
        #![trigger course[i].tokens.contains(seen)]
        is_course(course) && 0 <= i < course.len() && course[i].tokens.contains(
            seen,
        ) implies update.wf() && seen.word % 2 == 0 by {
        course_keeps_inv(course, i);
        assert(course[i].agrees(seen));
    }
}

/// The thread with an unfinished write at state `i` has its own pointer in place once it is about
/// to release the word.
proof fn write_in_course(course: Seq<Threads>, i: int, j: int, t: int, ptr: usize)
    requires
        is_course(course),
        0 <= i <= j < course.len(),
        0 <= t < course[i].tasks.len(),
        course[i].tasks[t] is Look || course[i].tasks[t] is Commit,
        pursues(course[i].tasks[t], ptr),
        forall|k: int|
            i <= k <= j ==> {
                let task = (#[trigger] course[k]).tasks[t];
                !(task is Written) && !(task is GaveUp) && !(task is Refused)
            },
    ensures
        course[j].tasks.len() == course[i].tasks.len(),
        pursues(course[j].tasks[t], ptr),
        course[j].tasks[t] is Free ==> course[j].ptr == ptr,
    decreases j - i,
{
    if i < j {
        write_in_course(course, i, j - 1, t, ptr);
        course_keeps_inv(course, j - 1);
        let s = course[j - 1];
        let next = course[j];
        assert(s.steps(next));
        assert(s.supports(s.tasks[t]));
        if exists|u: int, reply: Reply| #[trigger] s.advances(u, reply, next) {
            let (u, reply) = choose|u: int, reply: Reply| #[trigger] s.advances(u, reply, next);
            if u != t {
                assert(next.tasks[t] == s.tasks[t]);
                assert(s.tasks[u].holds() ==> !s.tasks[t].holds());
            }
        } else {
            let (u, task) = choose|u: int, task: Task| #[trigger] s.begins(u, task, next);
            assert(u != t);
        }
    }
}

/// What is in place when the word is about to be released stays until the word changes again.
proof fn release_keeps_the_pointer(course: Seq<Threads>, j: int, k: int, t: int, reply: Reply)
    requires
        is_course(course),
        0 <= j < k < course.len(),
        0 <= t < course[j].tasks.len(),
        course[j].tasks[t] is Free,
        course[j].advances(t, reply, course[j + 1]),
        course[k].word == course[j + 1].word,
    ensures
        course[j + 1].tasks[t] == Task::Written,
        course[j + 1].ptr == course[j].ptr,
        course[j + 1].word % 2 == 0,
        course[j + 1].word == course[j].word + 1,
        course[k].ptr == course[j].ptr,
{
    course_keeps_inv(course, j);
    assert(course[j].supports(course[j].tasks[t]));
    holder_completes(course[j], t, reply, course[j + 1]);
    same_word_same_pointer(course, j + 1, k, k);
}

/// A completed write leaves exactly its pointer: a thread that began to write `ptr`, with or
/// without an observation, has that very pointer in place when it is about to release the word. It
/// is still there when the word is released, and from then on until the word changes again.
pub proof fn completed_write_leaves_its_pointer(
    course: Seq<Threads>,
    i: int,
    j: int,
    k: int,
    t: int,
    ptr: usize,
    reply: Reply,
)
    requires
        is_course(course),
        0 <= i <= j < k < course.len(),
        0 <= t < course[i].tasks.len(),
        match course[i].tasks[t] {
            Task::Look { ptr: own, .. } => own == ptr,
            Task::Commit { ptr: own, .. } => own == ptr,
            _ => false,
        },
        forall|m: int|
            i <= m <= j ==> {
                let task = (#[trigger] course[m]).tasks[t];
                !(task is Written) && !(task is GaveUp) && !(task is Refused)
            },
        course[j].tasks[t] is Free,
        course[j].advances(t, reply, course[j + 1]),
        course[k].word == course[j + 1].word,
    ensures
        course[j].ptr == ptr,
        course[j + 1].tasks[t] == Task::Written,
        course[j + 1].ptr == ptr,
        course[j + 1].word % 2 == 0,
        course[j + 1].word == course[j].word + 1,
        course[k].ptr == ptr,
{
    write_in_course(course, i, j, t, ptr);
    release_keeps_the_pointer(course, j, k, t, reply);
}

} // verus!
