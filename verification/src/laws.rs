//! What holds of a storage over any course of writes.
//!
//! The steps of a storage are [`Event`]s, and each conditional or unconditional write of
//! [`ArcSwapAny`](crate::ArcSwapAny) is one of them. Writers that race take turns, so whatever they
//! do is one sequence of events, and the laws below speak of every such sequence.
//!
//! The laws after them are about the calls themselves: how the result of one call is bound to what
//! went in and to the results of others.

use crate::as_raw::AsRaw;
use crate::digits::{digit_value, digits, digits_read_back, number};
use crate::guard::Guard;
use crate::model::{saturated, Event, Publication, Stamp};
use crate::observation::{shown, Observation, GENERATION_SATURATED};
use crate::ref_cnt::RefCnt;
use crate::refused::Refused;
use crate::storage::ArcSwapAny;
use core::fmt::Formatter;
use std::sync::Arc;
use vstd::prelude::*;
use vstd::std_specs::cmp::PartialEqSpec;

verus! {

/// A write that does not take place changes nothing: neither the value nor the generation.
pub proof fn refused_write_changes_nothing<T>(p: Publication<T>, event: Event<T>)
    requires
        !p.publishes(event),
    ensures
        p.apply(event) == p,
{
}

/// Every write that takes place advances the generation by one, also one of the value that is
/// already there, until the generation is saturated.
pub proof fn publication_advances_generation<T>(p: Publication<T>, event: Event<T>)
    requires
        p.publishes(event),
    ensures
        p.apply(event).generation == saturated(p.generation + 1),
{
}

/// Events in two stretches are events in one.
proof fn replay_in_parts<T>(p: Publication<T>, first: Seq<Event<T>>, second: Seq<Event<T>>)
    ensures
        p.replay(first + second) == p.replay(first).replay(second),
        p.publications(first + second) == p.publications(first) + p.replay(first).publications(
            second,
        ),
    decreases second.len(),
{
    if second.len() == 0 {
        assert(first + second =~= first);
    } else {
        assert((first + second).drop_last() =~= first + second.drop_last());
        replay_in_parts(p, first, second.drop_last());
    }
}

/// The generation counts the writes that took place, up to its saturation.
pub proof fn generation_counts_publications<T>(p: Publication<T>, events: Seq<Event<T>>)
    ensures
        p.replay(events).generation == saturated(p.generation + p.publications(events)),
    decreases events.len(),
{
    if events.len() > 0 {
        generation_counts_publications(p, events.drop_last());
    }
}

/// A storage starts at generation `0`, so that its generation is the number of writes since.
pub proof fn generation_of_a_storage<T>(value: T, addr: usize, events: Seq<Event<T>>)
    ensures
        ({
            let start = Publication::initial(value, addr);
            start.replay(events).generation == saturated(start.publications(events) as int)
        }),
{
    generation_counts_publications(Publication::initial(value, addr), events);
}

/// Without a write that takes place, the publication stays.
pub proof fn publication_stays<T>(p: Publication<T>, events: Seq<Event<T>>)
    requires
        p.publications(events) == 0,
    ensures
        p.replay(events) == p,
    decreases events.len(),
{
    if events.len() > 0 {
        publication_stays(p, events.drop_last());
    }
}

/// A token commits exactly as long as its publication is the current one: whatever happened since
/// it was taken, it is accepted if and only if no write took place and its generation is not
/// saturated. The value that is then replaced is the very value that was observed.
pub proof fn token_commits_iff_publication_is_current<T>(
    p: Publication<T>,
    events: Seq<Event<T>>,
)
    ensures
        p.replay(events).accepts(p.stamp()) <==> p.publications(events) == 0
            && !p.stamp().is_saturated(),
        p.replay(events).accepts(p.stamp()) ==> p.replay(events) == p,
{
    generation_counts_publications(p, events);
    if p.publications(events) == 0 {
        publication_stays(p, events);
    }
}

/// A value that is replaced and put back, at its old address, is another publication. The token
/// from before is refused, and what is found differs from it in the generation alone, while a
/// comparison of addresses still takes place.
pub proof fn return_of_a_value_is_noticed<T>(p: Publication<T>, between: Seq<Event<T>>, back: Event<T>)
    requires
        !p.stamp().is_saturated(),
        p.replay(between).publishes(back),
        p.replay(between.push(back)).addr == p.addr,
    ensures
        ({
            let now = p.replay(between.push(back));
            &&& !now.accepts(p.stamp())
            &&& now.generation > p.generation
            &&& forall|value: T, addr: usize| #[trigger]
                now.publishes(Event::Swap { expected: p.addr, value, addr })
        }),
{
    let events = between.push(back);
    assert(events.drop_last() =~= between);
    assert(p.publications(events) >= 1);
    generation_counts_publications(p, events);
}

/// A token that is refused is refused for ever: no course of writes makes it valid again.
///
/// This is of tokens that are not from the future of the storage, as every token that was taken
/// from it.
pub proof fn stale_token_stays_stale<T>(p: Publication<T>, token: Stamp, events: Seq<Event<T>>)
    requires
        token.generation <= p.generation,
        !p.accepts(token),
    ensures
        !p.replay(events).accepts(token),
{
    generation_counts_publications(p, events);
    if p.publications(events) == 0 {
        publication_stays(p, events);
    }
}

/// A token commits at most once.
pub proof fn token_commits_once<T>(
    p: Publication<T>,
    token: Stamp,
    value: T,
    addr: usize,
    events: Seq<Event<T>>,
)
    requires
        p.accepts(token),
    ensures
        !p.apply(Event::Commit { token, value, addr }).replay(events).accepts(token),
{
    stale_token_stays_stale(p.apply(Event::Commit { token, value, addr }), token, events);
}

/// Of any number of racers with one token, exactly one commits: the first, and its value stays.
pub proof fn one_racer_commits<T>(p: Publication<T>, token: Stamp, racers: Seq<Event<T>>)
    requires
        p.accepts(token),
        racers.len() > 0,
        forall|i: int|
            0 <= i < racers.len() ==> (#[trigger] racers[i] matches Event::Commit {
                token: held,
                ..
            } && held == token),
    ensures
        p.publications(racers) == 1,
        p.replay(racers) == p.apply(racers.first()),
    decreases racers.len(),
{
    let before = racers.drop_last();
    let last = racers.last();
    assert(last == racers[racers.len() - 1]);
    if before.len() == 0 {
        assert(racers.first() == last);
        assert(p.replay(before) == p);
        assert(p.publications(before) == 0);
    } else {
        assert(racers.first() == before.first());
        assert forall|i: int| 0 <= i < before.len() implies (#[trigger] before[i] matches Event::Commit {
            token: held,
            ..
        } && held == token) by {
            assert(before[i] == racers[i]);
        }
        one_racer_commits(p, token, before);
        assert(racers.first() == racers[0]);
        generation_counts_publications(p, before);
    }
}

/// The generation never goes back.
pub proof fn generation_is_monotonic<T>(p: Publication<T>, events: Seq<Event<T>>, i: int, j: int)
    requires
        0 <= i <= j <= events.len(),
    ensures
        p.replay(events.take(i)).generation <= p.replay(events.take(j)).generation,
{
    assert(events.take(j) =~= events.take(i) + events.subrange(i, j));
    replay_in_parts(p, events.take(i), events.subrange(i, j));
    generation_counts_publications(p.replay(events.take(i)), events.subrange(i, j));
}

/// Equal tokens stand for one publication: if two tokens from one storage are equal and not
/// saturated, nothing was written between them.
pub proof fn equal_tokens_same_publication<T>(
    p: Publication<T>,
    events: Seq<Event<T>>,
    i: int,
    j: int,
)
    requires
        0 <= i <= j <= events.len(),
        p.replay(events.take(i)).stamp() == p.replay(events.take(j)).stamp(),
        !p.replay(events.take(i)).stamp().is_saturated(),
    ensures
        p.replay(events.take(i)) == p.replay(events.take(j)),
        p.publications(events.take(i)) == p.publications(events.take(j)),
{
    assert(events.take(j) =~= events.take(i) + events.subrange(i, j));
    replay_in_parts(p, events.take(i), events.subrange(i, j));
    generation_counts_publications(p.replay(events.take(i)), events.subrange(i, j));
    publication_stays(p.replay(events.take(i)), events.subrange(i, j));
}

/// Equal tokens cannot be told apart: they agree in generation, address, saturation and text, they
/// are formatted alike, they compare alike with everything that stands for an address, and every
/// storage accepts both or neither.
pub proof fn equal_tokens_cannot_be_told_apart<T: RefCnt, C: AsRaw<T::Base>>(
    a: Observation<T>,
    b: Observation<T>,
    current: C,
    storage: Publication<T>,
)
    requires
        a.eq_spec(&b),
    ensures
        a@.generation == b@.generation,
        a@.addr == b@.addr,
        a@.is_saturated() == b@.is_saturated(),
        a@.text() == b@.text(),
        forall|formatter: Formatter, result: core::fmt::Result| #[trigger]
            shown(a@, formatter, result) == shown(b@, formatter, result),
        forall|addr: usize| #[trigger] current.raw_at(addr) ==> (a@.addr == addr) == (b@.addr == addr),
        forall|same: bool| #[trigger]
            a@.compares::<T::Base, C>(current, same) == b@.compares::<T::Base, C>(current, same),
        storage.accepts(a@) == storage.accepts(b@),
{
}

/// Two comparisons, of equal tokens with something that stands for one address, have one answer.
///
/// Tokens, guards and numbers stand for one address.
pub proof fn equal_tokens_answer_alike<T: RefCnt, C: AsRaw<T::Base>>(
    a: Observation<T>,
    b: Observation<T>,
    current: C,
    same_a: bool,
    same_b: bool,
)
    requires
        a.eq_spec(&b),
        forall|x: usize, y: usize| #[trigger]
            current.raw_at(x) && #[trigger] current.raw_at(y) ==> x == y,
        a@.compares::<T::Base, C>(current, same_a),
        b@.compares::<T::Base, C>(current, same_b),
    ensures
        same_a == same_b,
{
}

/// A refusal never reports the publication that was asked for, unless the token is saturated.
pub proof fn refusal_reports_another_publication<T>(p: Publication<T>, token: Stamp)
    requires
        !p.accepts(token),
        !token.is_saturated(),
    ensures
        p.stamp() != token,
        p.addr != token.addr || p.generation != token.generation,
{
}

/// When a token that was taken from the storage is refused, the generation found is newer. So the
/// address tells a plain change from a value that came back.
pub proof fn refusal_finds_newer_generation<T>(p: Publication<T>, events: Seq<Event<T>>)
    requires
        !p.stamp().is_saturated(),
        !p.replay(events).accepts(p.stamp()),
    ensures
        p.replay(events).generation > p.generation,
{
    token_commits_iff_publication_is_current(p, events);
    generation_counts_publications(p, events);
}

/// Saturation is final: the generation stays where it is, whatever is written, and no token, not
/// even a current one, commits any more.
pub proof fn saturation_is_final<T>(p: Publication<T>, events: Seq<Event<T>>, token: Stamp)
    requires
        p.stamp().is_saturated(),
    ensures
        p.replay(events).generation == GENERATION_SATURATED,
        !p.replay(events).accepts(token),
{
    generation_counts_publications(p, events);
}

/// A saturated token never commits, in no storage.
pub proof fn saturated_token_never_commits<T>(p: Publication<T>, token: Stamp)
    requires
        token.is_saturated(),
    ensures
        !p.accepts(token),
{
}

/// Tokens work for as long as fewer than `GENERATION_SATURATED` writes took place in the storage,
/// and not after that.
pub proof fn tokens_work_until_saturation<T>(value: T, addr: usize, events: Seq<Event<T>>)
    ensures
        ({
            let start = Publication::initial(value, addr);
            let now = start.replay(events);
            now.accepts(now.stamp()) <==> start.publications(events) < GENERATION_SATURATED
        }),
{
    generation_of_a_storage(value, addr, events);
}

/// A token of one storage is refused by another one, unless that stands at the same address and at
/// the same generation: a token holds nothing else.
pub proof fn foreign_token_is_refused<T>(p: Publication<T>, other: Publication<T>)
    requires
        p.addr != other.addr || p.generation != other.generation,
    ensures
        !other.accepts(p.stamp()),
{
}

/// `f`, `n` times over.
pub open spec fn repeated<T>(f: spec_fn(T) -> T, n: nat, value: T) -> T
    decreases n,
{
    if n == 0 {
        value
    } else {
        f(repeated(f, (n - 1) as nat, value))
    }
}

/// Whether `event` is a conditional update that offers `f` of a value that was observed together
/// with the token, at some point in the course of `events`.
pub open spec fn updates_observed<T>(
    p: Publication<T>,
    events: Seq<Event<T>>,
    event: Event<T>,
    f: spec_fn(T) -> T,
) -> bool {
    exists|k: int|
        0 <= k <= events.len() && #[trigger] is_update_of(p.replay(events.take(k)), event, f)
}

/// Whether `event` is a conditional update of `seen` by `f`.
pub open spec fn is_update_of<T>(
    seen: Publication<T>,
    event: Event<T>,
    f: spec_fn(T) -> T,
) -> bool {
    event matches Event::Commit { token, value, .. } && token == seen.stamp() && value == f(
        seen.value,
    )
}

/// No update is lost: where everybody reads, computes and writes back on the condition that the
/// token is current, the value is what the updates that took place make of the first value, each
/// applied to the outcome of the one before.
pub proof fn no_update_is_lost<T>(
    p: Publication<T>,
    events: Seq<Event<T>>,
    f: spec_fn(T) -> T,
)
    requires
        forall|i: int|
            0 <= i < events.len() ==> updates_observed(p, events.take(i), #[trigger] events[i], f),
    ensures
        p.replay(events).value == repeated(f, p.publications(events), p.value),
    decreases events.len(),
{
    if events.len() > 0 {
        let before = events.drop_last();
        let last = events.last();
        let now = p.replay(before);
        let end = events.len() - 1;
        assert(before =~= events.take(end));
        assert forall|i: int| 0 <= i < before.len() implies updates_observed(
            p,
            before.take(i),
            #[trigger] before[i],
            f,
        ) by {
            assert(before[i] == events[i]);
            assert(before.take(i) =~= events.take(i));
        }
        no_update_is_lost(p, before, f);
        assert(updates_observed(p, events.take(end), events[end], f));
        let k = choose|k: int|
            0 <= k <= before.len() && #[trigger] is_update_of(p.replay(before.take(k)), last, f);
        if now.publishes(last) {
            assert(before.take(before.len() as int) =~= before);
            equal_tokens_same_publication(p, before, k, before.len() as int);
            assert(p.publications(events) == p.publications(before) + 1);
        }
    }
}

/// A write without a condition always takes place. One on the condition of an address takes place
/// exactly if that is the address of the stored value, whatever the generation. One with a token
/// takes place exactly if the token has the address and the generation of the stored value, and
/// that generation is not the last one.
pub proof fn condition_decides<T>(p: Publication<T>, value: T, addr: usize)
    ensures
        p.publishes(Event::Publish { value, addr }),
        forall|expected: usize| #[trigger]
            p.publishes(Event::Swap { expected, value, addr }) <==> expected == p.addr,
        forall|token: Stamp| #[trigger]
            p.publishes(Event::Commit { token, value, addr }) <==> token.addr == p.addr
                && token.generation == p.generation && token.generation != usize::MAX,
{
}

/// A write that takes place leaves its own value at its own address, and one that does not leaves
/// everything as it was. The generation is one more after a write, unless it is the last one.
pub proof fn write_leaves_its_value<T>(
    p: Publication<T>,
    event: Event<T>,
    offered: T,
    place: usize,
)
    requires
        match event {
            Event::Publish { value, addr } => value == offered && addr == place,
            Event::Swap { value, addr, .. } => value == offered && addr == place,
            Event::Commit { value, addr, .. } => value == offered && addr == place,
        },
    ensures
        p.publishes(event) ==> p.apply(event).value == offered && p.apply(event).addr == place,
        p.publishes(event) && p.generation < usize::MAX ==> p.apply(event).generation
            == p.generation + 1,
        p.publishes(event) && p.generation == usize::MAX ==> p.apply(event).generation
            == usize::MAX,
        !p.publishes(event) ==> p.apply(event).value == p.value && p.apply(event).addr == p.addr
            && p.apply(event).generation == p.generation,
{
}

/// A course of events is made one event at a time, and counts the events that write.
pub proof fn course_is_made_of_steps<T>(p: Publication<T>, events: Seq<Event<T>>, event: Event<T>)
    ensures
        p.replay(Seq::empty()) == p,
        p.replay(events.push(event)) == p.replay(events).apply(event),
        p.publications(Seq::empty()) == 0,
        p.replay(events).publishes(event) ==> p.publications(events.push(event))
            == p.publications(events) + 1,
        !p.replay(events).publishes(event) ==> p.publications(events.push(event))
            == p.publications(events),
{
    assert(events.push(event).drop_last() =~= events);
}

/// After any course, the generation of a storage is the number of writes that took place, and no
/// more than a machine word can hold.
pub proof fn generation_is_number_of_writes<T>(value: T, addr: usize, events: Seq<Event<T>>)
    ensures
        ({
            let start = Publication::initial(value, addr);
            let count = start.publications(events);
            &&& start.value == value && start.addr == addr && start.generation == 0
            &&& count <= usize::MAX ==> start.replay(events).generation == count
            &&& count > usize::MAX ==> start.replay(events).generation == usize::MAX
        }),
{
    generation_of_a_storage(value, addr, events);
}

/// What stands for an address stands for no other: a number for itself, a token for the observed
/// address, a guard for the address of its handle. A handle stands for the addresses that are found
/// for it, and for the null address exactly if it points nowhere.
pub proof fn what_stands_for_an_address<T: RefCnt>(
    n: usize,
    token: Observation<T>,
    guard: &Guard<T>,
    handle: &T,
    addr: usize,
)
    ensures
        <usize as AsRaw<T::Base>>::raw_at(&n, addr) <==> addr == n,
        token.raw_at(addr) <==> addr == token@.addr,
        guard.raw_at(addr) <==> addr == guard.addr(),
        handle.raw_at(addr) <==> handle.at(addr) && (addr == 0 <==> handle.is_null()),
        call_ensures(<usize as AsRaw<T::Base>>::as_raw, (&n,), addr) ==> addr == n,
        call_ensures(<Observation<T> as AsRaw<T::Base>>::as_raw, (&token,), addr) ==> addr
            == token@.addr,
        call_ensures(<&Guard<T> as AsRaw<T::Base>>::as_raw, (&guard,), addr) ==> addr
            == guard.addr(),
        call_ensures(<&T as AsRaw<T::Base>>::as_raw, (&handle,), addr) ==> handle.at(addr) && (addr
            == 0 <==> handle.is_null()),
{
}

/// Two tokens are equal exactly if they have the same address and the same generation.
pub proof fn tokens_are_equal_iff_both_parts_are<T: RefCnt>(
    a: Observation<T>,
    b: Observation<T>,
    equal: bool,
    differ: bool,
    addr_a: usize,
    addr_b: usize,
    generation_a: usize,
    generation_b: usize,
)
    requires
        call_ensures(<Observation<T> as PartialEq>::eq, (&a, &b), equal),
        call_ensures(<Observation<T> as PartialEq>::ne, (&a, &b), differ),
        call_ensures(Observation::<T>::ptr_addr, (&a,), addr_a),
        call_ensures(Observation::<T>::ptr_addr, (&b,), addr_b),
        call_ensures(Observation::<T>::generation, (&a,), generation_a),
        call_ensures(Observation::<T>::generation, (&b,), generation_b),
    ensures
        equal <==> addr_a == addr_b && generation_a == generation_b,
        differ <==> !equal,
        a.eq_spec(&b) <==> a@.addr == b@.addr && a@.generation == b@.generation,
        Observation::<T>::obeys_eq_spec(),
{
}

/// Every token equals itself and its copies, and equality of tokens goes both ways and carries on.
pub proof fn equality_of_tokens_is_an_equivalence<T: RefCnt>(
    a: Observation<T>,
    b: Observation<T>,
    c: Observation<T>,
    copy: Observation<T>,
)
    requires
        call_ensures(<Observation<T> as Clone>::clone, (&a,), copy),
    ensures
        a.eq_spec(&a),
        a.eq_spec(&copy),
        a.eq_spec(&b) ==> b.eq_spec(&a),
        a.eq_spec(&b) && b.eq_spec(&c) ==> a.eq_spec(&c),
        call_ensures(<Observation<T> as PartialEq>::eq, (&a, &a), false) ==> false,
        call_ensures(<Observation<T> as PartialEq>::eq, (&a, &copy), false) ==> false,
{
}

/// The answer on something that stands for one address is whether that is the address of the
/// token, whatever the generations.
pub proof fn same_address_compares_addresses<T: RefCnt, C: AsRaw<T::Base>>(
    token: Observation<T>,
    current: C,
    x: usize,
    addr: usize,
    same: bool,
)
    requires
        forall|y: usize| #[trigger] current.raw_at(y) ==> y == x,
        call_ensures(Observation::<T>::ptr_addr, (&token,), addr),
        call_ensures(Observation::<T>::same_address::<C>, (&token, &current), same),
    ensures
        same <==> addr == x,
        forall|answer: bool| #[trigger]
            token@.compares::<T::Base, C>(current, answer) ==> (answer <==> token@.addr == x),
{
}

/// Two tokens, a token and a guard, or a token and a number have the same address exactly if their
/// addresses are the same number.
pub proof fn same_address_of_tokens<T: RefCnt>(
    a: Observation<T>,
    b: Observation<T>,
    guard: &Guard<T>,
    n: usize,
    same: bool,
)
    ensures
        call_ensures(Observation::<T>::same_address::<Observation<T>>, (&a, &b), same) ==> (same
            <==> a@.addr == b@.addr),
        call_ensures(Observation::<T>::same_address::<&Guard<T>>, (&a, &guard), same) ==> (same
            <==> a@.addr == guard.addr()),
        call_ensures(Observation::<T>::same_address::<usize>, (&a, &n), same) ==> (same <==> a@.addr
            == n),
{
}

/// A token and a handle have the same address exactly if the address that is found for the handle
/// is that of the token. A handle that points nowhere has the same address as the tokens at the
/// null address, and no others.
pub proof fn same_address_of_handle<T: RefCnt>(token: Observation<T>, handle: &T, same: bool)
    requires
        call_ensures(Observation::<T>::same_address::<&T>, (&token, &handle), same),
    ensures
        same ==> handle.at(token@.addr),
        !same ==> exists|addr: usize| #[trigger] handle.at(addr) && addr != token@.addr,
        handle.is_null() ==> (same <==> token@.addr == 0),
        !handle.is_null() && token@.addr == 0 ==> !same,
{
}

/// A token is saturated exactly if its generation is the largest number of a machine word.
pub proof fn saturated_is_the_largest_word<T: RefCnt>(
    token: Observation<T>,
    saturated: bool,
    generation: usize,
)
    requires
        call_ensures(Observation::<T>::is_saturated, (&token,), saturated),
        call_ensures(Observation::<T>::generation, (&token,), generation),
    ensures
        saturated <==> generation == usize::MAX,
        token@.is_saturated() <==> token@.generation == usize::MAX,
        GENERATION_SATURATED == usize::MAX,
{
}

/// The text of a token names both parts in full: the address reads back from it in base sixteen,
/// and the generation in base ten, and neither has a zero in front.
pub proof fn text_names_both_parts<T: RefCnt>(
    token: Observation<T>,
    text: String,
    addr: usize,
    generation: usize,
) -> (parts: (Seq<char>, Seq<char>))
    requires
        call_ensures(Observation::<T>::debug_string, (&token,), text),
        call_ensures(Observation::<T>::ptr_addr, (&token,), addr),
        call_ensures(Observation::<T>::generation, (&token,), generation),
    ensures
        text@ == "Observation { ptr: 0x"@ + parts.0 + ", generation: "@ + parts.1 + " }"@,
        number(parts.0, 16) == addr,
        number(parts.1, 10) == generation,
        parts.0.len() > 0 && (parts.0[0] == '0' ==> parts.0.len() == 1),
        parts.1.len() > 0 && (parts.1[0] == '0' ==> parts.1.len() == 1),
        forall|i: int| 0 <= i < parts.0.len() ==> digit_value(#[trigger] parts.0[i]) < 16,
        forall|i: int| 0 <= i < parts.1.len() ==> digit_value(#[trigger] parts.1[i]) < 10,
{
    digits_read_back(token@.addr as nat, 16);
    digits_read_back(token@.generation as nat, 10);
    (digits(token@.addr as nat, 16), digits(token@.generation as nat, 10))
}

/// All ways to read a storage agree: they give the one stored value, and the one token of it. The
/// address is one that was found for that value, and is `0` exactly if it points nowhere.
pub proof fn reads_agree<T: RefCnt>(
    storage: ArcSwapAny<T>,
    guard: Guard<T>,
    full: T,
    loaded: (Guard<T>, Observation<T>),
    generation: usize,
    inner: T,
)
    requires
        call_ensures(ArcSwapAny::<T>::load, (&storage,), guard),
        call_ensures(ArcSwapAny::<T>::load_full, (&storage,), full),
        call_ensures(ArcSwapAny::<T>::load_observed, (&storage,), loaded),
        call_ensures(ArcSwapAny::<T>::current_generation, (&storage,), generation),
        call_ensures(ArcSwapAny::<T>::into_inner, (storage,), inner),
    ensures
        guard.value() == storage@.value,
        full == storage@.value,
        inner == storage@.value,
        loaded.0.value() == storage@.value,
        guard.addr() == storage@.addr,
        loaded.0.addr() == storage@.addr,
        loaded.1@.addr == storage@.addr,
        loaded.1@.generation == storage@.generation,
        generation == storage@.generation,
        storage@.value.at(storage@.addr),
        storage@.addr == 0 <==> storage@.value.is_null(),
{
}

/// A guard gives the one handle that it holds, by reference and by value. Its address is one that
/// was found for the handle, and is `0` exactly if the handle points nowhere.
pub proof fn guard_gives_its_handle<T: RefCnt>(guard: Guard<T>, value: &T, inner: T)
    requires
        call_ensures(<Guard<T> as core::ops::Deref>::deref, (&guard,), value),
        call_ensures(Guard::<T>::into_inner, (guard,), inner),
    ensures
        *value == guard.value(),
        inner == *value,
        guard.placed() <==> guard.value().at(guard.addr()) && (guard.addr() == 0
            <==> guard.value().is_null()),
{
}

/// An idle storage keeps its token: two loads without a write between them give equal tokens, with
/// the same address.
pub proof fn idle_storage_keeps_its_token<T: RefCnt>(
    storage: ArcSwapAny<T>,
    first: (Guard<T>, Observation<T>),
    again: (Guard<T>, Observation<T>),
    equal: bool,
    same: bool,
)
    requires
        call_ensures(ArcSwapAny::<T>::load_observed, (&storage,), first),
        call_ensures(ArcSwapAny::<T>::load_observed, (&storage,), again),
        call_ensures(<Observation<T> as PartialEq>::eq, (&first.1, &again.1), equal),
        call_ensures(
            Observation::<T>::same_address::<Observation<T>>,
            (&first.1, &again.1),
            same,
        ),
    ensures
        equal,
        same,
{
}

/// A new storage holds the value that it is made with, at generation `0`.
pub proof fn new_storage_holds_its_value<T: RefCnt>(
    value: T,
    made: ArcSwapAny<T>,
    from: ArcSwapAny<T>,
)
    requires
        call_ensures(ArcSwapAny::<T>::new, (value,), made),
        call_ensures(<ArcSwapAny<T> as From<T>>::from, (value,), from),
    ensures
        made@.value == value,
        made@.generation == 0,
        value.at(made@.addr),
        made@.addr == 0 <==> value.is_null(),
        from@.value == value,
        from@.generation == 0,
        value.at(from@.addr),
        from@.addr == 0 <==> value.is_null(),
{
}

/// A storage that is made of a value holds a handle to it. An empty one holds nothing, at the null
/// address. Both are at generation `0`.
pub proof fn new_storage_of_a_value<V>(
    value: V,
    full: ArcSwapAny<Arc<V>>,
    empty: ArcSwapAny<Option<Arc<V>>>,
)
    requires
        call_ensures(ArcSwapAny::<Arc<V>>::from_pointee, (value,), full),
        call_ensures(ArcSwapAny::<Option<Arc<V>>>::empty, (), empty),
    ensures
        *full@.value == value,
        full@.generation == 0,
        full@.value.at(full@.addr),
        full@.addr != 0,
        empty@.value == None::<Arc<V>>,
        empty@.generation == 0,
        empty@.addr == 0,
{
}

/// A storage of an optional handle and a storage of the handle itself have tokens with addresses
/// that are found for the same place.
pub proof fn optional_storage_is_at_the_same_place<T: RefCnt>(
    handle: T,
    optional: ArcSwapAny<Option<T>>,
    plain: ArcSwapAny<T>,
)
    requires
        call_ensures(ArcSwapAny::<Option<T>>::new, (Some(handle),), optional),
        call_ensures(ArcSwapAny::<T>::new, (handle,), plain),
    ensures
        handle.at(optional@.addr),
        handle.at(plain@.addr),
        optional@.addr == 0 <==> handle.is_null(),
{
}

/// A write without a condition leaves the new value, at an address that was found for it, and is
/// of the next generation. What comes back is the value before.
pub proof fn store_and_swap_publish<T: RefCnt>(new: T)
    ensures
        forall|storage: &mut ArcSwapAny<T>|
            #[trigger] call_ensures(ArcSwapAny::<T>::store, (storage, new), ()) ==> {
                &&& final(storage)@.value == new
                &&& new.at(final(storage)@.addr)
                &&& final(storage)@.addr == 0 <==> new.is_null()
                &&& storage@.generation < usize::MAX ==> final(storage)@.generation
                    == storage@.generation + 1
                &&& storage@.generation == usize::MAX ==> final(storage)@.generation == usize::MAX
            },
        forall|storage: &mut ArcSwapAny<T>, previous: T|
            #[trigger] call_ensures(ArcSwapAny::<T>::swap, (storage, new), previous) ==> {
                &&& previous == storage@.value
                &&& final(storage)@.value == new
                &&& new.at(final(storage)@.addr)
                &&& final(storage)@.addr == 0 <==> new.is_null()
                &&& storage@.generation < usize::MAX ==> final(storage)@.generation
                    == storage@.generation + 1
                &&& storage@.generation == usize::MAX ==> final(storage)@.generation == usize::MAX
            },
{
}

/// A write on the condition of one address leaves the new value exactly if the stored value is at
/// that address, and is then of the next generation. Otherwise it changes nothing. What comes back
/// is the value before, either way.
pub proof fn compare_and_swap_decides_by_address<T: RefCnt, C: AsRaw<T::Base>>(
    current: C,
    x: usize,
    new: T,
)
    requires
        forall|y: usize| #[trigger] current.raw_at(y) ==> y == x,
    ensures
        forall|storage: &mut ArcSwapAny<T>, previous: Guard<T>|
            #[trigger] call_ensures(
                ArcSwapAny::<T>::compare_and_swap::<C>,
                (storage, current, new),
                previous,
            ) ==> {
                &&& previous.value() == storage@.value
                &&& previous.addr() == storage@.addr
                &&& storage@.addr != x ==> final(storage)@ == storage@
                &&& storage@.addr == x ==> {
                    &&& final(storage)@.value == new
                    &&& new.at(final(storage)@.addr)
                    &&& final(storage)@.addr == 0 <==> new.is_null()
                    &&& storage@.generation < usize::MAX ==> final(storage)@.generation
                        == storage@.generation + 1
                    &&& storage@.generation == usize::MAX ==> final(storage)@.generation
                        == usize::MAX
                }
            },
{
}

/// A write on the condition of a token's address, of a guard or of a number leaves a storage at
/// another address as it was.
pub proof fn compare_and_swap_with_another_address<T: RefCnt>(
    token: Observation<T>,
    guard: &Guard<T>,
    n: usize,
    new: T,
)
    ensures
        forall|storage: &mut ArcSwapAny<T>, previous: Guard<T>|
            #[trigger] call_ensures(
                ArcSwapAny::<T>::compare_and_swap::<Observation<T>>,
                (storage, token, new),
                previous,
            ) ==> (storage@.addr != token@.addr ==> final(storage)@ == storage@) && (storage@.addr
                == token@.addr ==> final(storage)@.value == new),
        forall|storage: &mut ArcSwapAny<T>, previous: Guard<T>|
            #[trigger] call_ensures(
                ArcSwapAny::<T>::compare_and_swap::<&Guard<T>>,
                (storage, guard, new),
                previous,
            ) ==> (storage@.addr != guard.addr() ==> final(storage)@ == storage@) && (storage@.addr
                == guard.addr() ==> final(storage)@.value == new),
        forall|storage: &mut ArcSwapAny<T>, previous: Guard<T>|
            #[trigger] call_ensures(
                ArcSwapAny::<T>::compare_and_swap::<usize>,
                (storage, n, new),
                previous,
            ) ==> (storage@.addr != n ==> final(storage)@ == storage@) && (storage@.addr == n
                ==> final(storage)@.value == new),
{
}

/// A write on the condition of a handle goes by an address that is found for the handle: it leaves
/// the new value exactly if the stored value is at that address. So a storage at an address that is
/// none of the handle's stays as it was.
pub proof fn compare_and_swap_with_a_handle<T: RefCnt>(handle: &T, new: T)
    ensures
        forall|storage: &mut ArcSwapAny<T>, previous: Guard<T>|
            #[trigger] call_ensures(
                ArcSwapAny::<T>::compare_and_swap::<&T>,
                (storage, handle, new),
                previous,
            ) ==> {
                &&& !handle.at(storage@.addr) ==> final(storage)@ == storage@
                &&& (storage@.addr == 0) != handle.is_null() ==> final(storage)@ == storage@
                &&& storage@.addr == 0 && handle.is_null() ==> final(storage)@.value == new
                &&& exists|expected: usize| #[trigger]
                    handle.at(expected) && (expected != storage@.addr ==> final(storage)@
                        == storage@) && (expected == storage@.addr ==> final(storage)@.value == new
                        && new.at(final(storage)@.addr) && (storage@.generation < usize::MAX
                        ==> final(storage)@.generation == storage@.generation + 1))
            },
{
}

/// A conditional update succeeds exactly if the token has the address and the generation of the
/// stored value, and that generation is not the last one. It then leaves the new value, of the next
/// generation. Otherwise it changes nothing, and gives the token of what is there.
pub proof fn compare_exchange_decides_by_token<T: RefCnt>(token: Observation<T>, new: T)
    ensures
        forall|storage: &mut ArcSwapAny<T>, outcome: Result<Guard<T>, Observation<T>>|
            #[trigger] call_ensures(
                ArcSwapAny::<T>::compare_exchange_observed,
                (storage, token, new),
                outcome,
            ) ==> {
                &&& outcome is Ok <==> token@.addr == storage@.addr && token@.generation
                    == storage@.generation && storage@.generation != usize::MAX
                &&& outcome matches Ok(previous) ==> {
                    &&& previous.value() == storage@.value
                    &&& previous.addr() == storage@.addr
                    &&& final(storage)@.value == new
                    &&& new.at(final(storage)@.addr)
                    &&& final(storage)@.addr == 0 <==> new.is_null()
                    &&& final(storage)@.generation == storage@.generation + 1
                }
                &&& outcome matches Err(found) ==> {
                    &&& final(storage)@ == storage@
                    &&& found@.addr == storage@.addr
                    &&& found@.generation == storage@.generation
                }
            },
{
}

/// The other form of a conditional update decides alike. It gives the token of the new publication,
/// or what is there together with the value that was not stored.
pub proof fn commit_decides_by_token<T: RefCnt>(token: Observation<T>, new: T)
    ensures
        forall|storage: &mut ArcSwapAny<T>, outcome: Result<Observation<T>, Refused<T>>|
            #[trigger] call_ensures(
                ArcSwapAny::<T>::commit_observed,
                (storage, &token, new),
                outcome,
            ) ==> {
                &&& outcome is Ok <==> token@.addr == storage@.addr && token@.generation
                    == storage@.generation && storage@.generation != usize::MAX
                &&& outcome matches Ok(observation) ==> {
                    &&& final(storage)@.value == new
                    &&& new.at(final(storage)@.addr)
                    &&& final(storage)@.addr == 0 <==> new.is_null()
                    &&& final(storage)@.generation == storage@.generation + 1
                    &&& observation@.addr == final(storage)@.addr
                    &&& observation@.generation == storage@.generation + 1
                }
                &&& outcome matches Err(refused) ==> {
                    &&& final(storage)@ == storage@
                    &&& refused.found().value() == storage@.value
                    &&& refused.found().addr() == storage@.addr
                    &&& refused.stamp().addr == storage@.addr
                    &&& refused.stamp().generation == storage@.generation
                    &&& refused.offered() == new
                }
            },
{
}

/// A refusal gives the same three things in parts and one by one.
pub proof fn refusal_gives_its_parts<T: RefCnt>(
    refused: Refused<T>,
    current: &Guard<T>,
    observation: Observation<T>,
    parts: (Guard<T>, Observation<T>, T),
)
    requires
        call_ensures(Refused::<T>::current, (&refused,), current),
        call_ensures(Refused::<T>::observation, (&refused,), observation),
        call_ensures(Refused::<T>::into_parts, (refused,), parts),
    ensures
        *current == refused.found(),
        parts.0 == *current,
        parts.1@ == observation@,
        observation@ == refused.stamp(),
        parts.2 == refused.offered(),
{
}

/// An update by a function leaves what that makes of the stored value, of the next generation, and
/// gives the value before.
pub proof fn rcu_publishes_the_update<T: RefCnt, R: Into<T>, F: Fn(&T) -> R>(update: F)
    ensures
        forall|storage: &mut ArcSwapAny<T>, previous: T|
            #[trigger] call_ensures(ArcSwapAny::<T>::rcu::<R, F>, (storage, update), previous)
                ==> {
                &&& previous == storage@.value
                &&& exists|made: R| #[trigger]
                    update.ensures((&storage@.value,), made) && call_ensures(
                        <R as Into<T>>::into,
                        (made,),
                        final(storage)@.value,
                    )
                &&& final(storage)@.value.at(final(storage)@.addr)
                &&& final(storage)@.addr == 0 <==> final(storage)@.value.is_null()
                &&& storage@.generation < usize::MAX ==> final(storage)@.generation
                    == storage@.generation + 1
                &&& storage@.generation == usize::MAX ==> final(storage)@.generation == usize::MAX
            },
{
}

/// Setting the generation changes the generation alone.
pub proof fn forcing_changes_the_generation_alone<T: RefCnt>(generation: usize)
    ensures
        forall|storage: &mut ArcSwapAny<T>|
            #[trigger] call_ensures(
                ArcSwapAny::<T>::force_generation,
                (storage, generation),
                (),
            ) ==> {
                &&& final(storage)@.generation == generation
                &&& final(storage)@.value == storage@.value
                &&& final(storage)@.addr == storage@.addr
            },
{
}

/// A token that was just taken commits, unless it is saturated, and does not commit a second time.
pub proof fn fresh_token_commits_once<T: RefCnt>(
    loaded: (Guard<T>, Observation<T>),
    new: T,
    second: T,
)
    ensures
        forall|
            storage: &mut ArcSwapAny<T>,
            outcome: Result<Guard<T>, Observation<T>>,
            later: &mut ArcSwapAny<T>,
            again: Result<Guard<T>, Observation<T>>,
        |
            call_ensures(ArcSwapAny::<T>::load_observed, (&*storage,), loaded)
                && *final(storage) == *later && #[trigger] call_ensures(
                ArcSwapAny::<T>::compare_exchange_observed,
                (storage, loaded.1, new),
                outcome,
            ) && #[trigger] call_ensures(
                ArcSwapAny::<T>::compare_exchange_observed,
                (later, loaded.1, second),
                again,
            ) ==> {
                &&& outcome is Ok <==> loaded.1@.generation != usize::MAX
                &&& again is Err
            },
{
}

/// A write makes another token, also one of the very value that is stored: the tokens before and
/// after it are not equal, unless the generation is the last one.
pub proof fn write_makes_another_token<T: RefCnt>(
    before: (Guard<T>, Observation<T>),
    new: T,
    after: (Guard<T>, Observation<T>),
    equal: bool,
)
    requires
        call_ensures(<Observation<T> as PartialEq>::eq, (&before.1, &after.1), equal),
        before.1@.generation != usize::MAX,
    ensures
        forall|storage: &mut ArcSwapAny<T>|
            call_ensures(ArcSwapAny::<T>::load_observed, (&*storage,), before)
                && #[trigger] call_ensures(ArcSwapAny::<T>::store, (storage, new), ())
                && call_ensures(ArcSwapAny::<T>::load_observed, (&*final(storage),), after)
                ==> !equal && after.0.value() == new,
{
}

} // verus!
