//! The access protocol, stated over whole traces.
//!
//! This module gives the cell's discipline a ghost model.  An
//! [`Event`] is one completed operation on a cell; [`word_step`] says
//! what each event does to the state word.

use vstd::prelude::*;

verus! {

use crate::word::SHARED_MASK;
use crate::word::WRITE_BIT;
use crate::word::flag_set;
use crate::word::shared_count;

/// One completed operation on a cell.  An acquisition event covers
/// both outcomes: a refused attempt is the same event as a successful
/// one, and `word_step` shows that a refused attempt leaves the word
/// unchanged.
pub enum Event {
    AcquireShared,
    AcquireExclusive,
    ReleaseShared,
    ReleaseExclusive,
}

/// What one event does to the state word.  A refused acquisition
/// leaves the word as it was; a release subtracts exactly the share or
/// flag that the matching acquisition added.
pub open spec fn word_step(s: u64, e: Event) -> u64 {
    match e {
        Event::AcquireShared => if flag_set(s) {
            s
        } else {
            (s + 1) as u64
        },
        Event::AcquireExclusive => if s == 0 {
            WRITE_BIT
        } else {
            s
        },
        Event::ReleaseShared => (s - 1) as u64,
        Event::ReleaseExclusive => if flag_set(s) {
            (s - WRITE_BIT) as u64
        } else {
            s
        },
    }
}

/// The live-guard census: how many shared borrows are live, and
/// whether the exclusive borrow is live.  This is the bookkeeping that
/// the state word encodes.
pub struct Census {
    pub shared: nat,
    pub exclusive: bool,
}

/// The census of a fresh cell: nothing is live.
pub open spec fn idle() -> Census {
    Census { shared: 0, exclusive: false }
}

/// The state word that encodes a census.
pub open spec fn encode(c: Census) -> u64
    recommends
        c.shared <= SHARED_MASK,
{
    if c.exclusive {
        (c.shared + WRITE_BIT) as u64
    } else {
        c.shared as u64
    }
}

/// Whether the discipline lets event `e` happen under census `c`: a
/// release needs a live borrow of its kind to release, and a shared
/// acquisition needs room under the hard ceiling.  An acquisition that
/// will be refused is still a permitted event: the refusal is an
/// outcome, not a forbidden move.
pub open spec fn permits(c: Census, e: Event) -> bool {
    match e {
        Event::AcquireShared => c.shared < SHARED_MASK,
        Event::AcquireExclusive => true,
        Event::ReleaseShared => c.shared > 0,
        Event::ReleaseExclusive => c.exclusive,
    }
}

/// What one event does to the census.  An acquisition takes effect
/// only when the discipline grants it: a shared acquisition is refused
/// while the exclusive borrow is live, and an exclusive acquisition is
/// refused unless nothing at all is live.
pub open spec fn census_step(c: Census, e: Event) -> Census {
    match e {
        Event::AcquireShared => if c.exclusive {
            c
        } else {
            Census { shared: c.shared + 1, exclusive: c.exclusive }
        },
        Event::AcquireExclusive => if c.exclusive || c.shared > 0 {
            c
        } else {
            Census { shared: c.shared, exclusive: true }
        },
        Event::ReleaseShared => Census { shared: (c.shared - 1) as nat, exclusive: c.exclusive },
        Event::ReleaseExclusive => Census { shared: c.shared, exclusive: false },
    }
}

/// A trace is well formed under `c` when every event, in turn, is
/// permitted by the census reached before it: nothing is released that
/// is not live, and the shared ceiling is respected.
pub open spec fn wf_trace(c: Census, es: Seq<Event>) -> bool
    decreases es.len(),
{
    es.len() == 0 || (permits(c, es.first()) && wf_trace(census_step(c, es.first()), es.drop_first()))
}

/// The census after a whole trace.
pub open spec fn census_run(c: Census, es: Seq<Event>) -> Census
    decreases es.len(),
{
    if es.len() == 0 {
        c
    } else {
        census_run(census_step(c, es.first()), es.drop_first())
    }
}

/// The state word after a whole trace.
pub open spec fn word_run(s: u64, es: Seq<Event>) -> u64
    decreases es.len(),
{
    if es.len() == 0 {
        s
    } else {
        word_run(word_step(s, es.first()), es.drop_first())
    }
}

/// A census the discipline can ever reach: the shared count respects
/// the ceiling, and the exclusive borrow is never live together with a
/// shared one.
pub open spec fn coherent(c: Census) -> bool {
    c.shared <= SHARED_MASK && (c.exclusive ==> c.shared == 0)
}

/// One permitted event keeps the census coherent.
proof fn lemma_step_coherent(c: Census, e: Event)
    requires
        coherent(c),
        permits(c, e),
    ensures
        coherent(census_step(c, e)),
{
}

/// One permitted event moves the state word exactly as it moves the
/// census.
proof fn lemma_step_tracks(c: Census, e: Event)
    requires
        coherent(c),
        permits(c, e),
    ensures
        word_step(encode(c), e) == encode(census_step(c, e)),
{
}

/// A whole well-formed trace keeps the census coherent.
pub proof fn lemma_run_coherent(c: Census, es: Seq<Event>)
    requires
        coherent(c),
        wf_trace(c, es),
    ensures
        coherent(census_run(c, es)),
    decreases es.len(),
{
    if es.len() > 0 {
        lemma_step_coherent(c, es.first());
        lemma_run_coherent(census_step(c, es.first()), es.drop_first());
    }
}

/// The state word tracks the live-guard census along any well-formed
/// trace: at the end of the trace the word is exactly the encoding of
/// what is live.
pub proof fn lemma_word_tracks_census(c: Census, es: Seq<Event>)
    requires
        coherent(c),
        wf_trace(c, es),
    ensures
        word_run(encode(c), es) == encode(census_run(c, es)),
    decreases es.len(),
{
    if es.len() > 0 {
        lemma_step_coherent(c, es.first());
        lemma_step_tracks(c, es.first());
        lemma_word_tracks_census(census_step(c, es.first()), es.drop_first());
    }
}

/// Every prefix of a well-formed trace is well formed.
proof fn lemma_wf_prefix(c: Census, es: Seq<Event>, i: int)
    requires
        wf_trace(c, es),
        0 <= i <= es.len(),
    ensures
        wf_trace(c, es.subrange(0, i)),
    decreases i,
{
    if i > 0 {
        assert(es.subrange(0, i).first() == es.first());
        assert(es.subrange(0, i).drop_first() =~= es.drop_first().subrange(0, i - 1));
        lemma_wf_prefix(census_step(c, es.first()), es.drop_first(), i - 1);
    }
}

/// Mutual exclusion: along any well-formed trace from the idle census,
/// whenever the exclusive borrow is live no shared borrow is live, and
/// whenever shared borrows are live the exclusive borrow is not — at
/// every step of the trace, not only at its end.
pub proof fn lemma_mutual_exclusion(es: Seq<Event>, i: int)
    requires
        wf_trace(idle(), es),
        0 <= i <= es.len(),
    ensures
        census_run(idle(), es.subrange(0, i)).exclusive ==> census_run(
            idle(),
            es.subrange(0, i),
        ).shared == 0,
        census_run(idle(), es.subrange(0, i)).shared > 0 ==> !census_run(
            idle(),
            es.subrange(0, i),
        ).exclusive,
{
    lemma_wf_prefix(idle(), es, i);
    lemma_run_coherent(idle(), es.subrange(0, i));
}

/// A trace of `n` shared acquisitions and nothing else.
pub open spec fn only_shared(n: nat) -> Seq<Event>
    decreases n,
{
    if n == 0 {
        Seq::empty()
    } else {
        seq![Event::AcquireShared] + only_shared((n - 1) as nat)
    }
}

/// Shared acquisitions alone, starting with the exclusive borrow free,
/// all succeed and add up.
proof fn lemma_only_shared_run(c: Census, n: nat)
    requires
        !c.exclusive,
        c.shared + n <= SHARED_MASK,
    ensures
        wf_trace(c, only_shared(n)),
        census_run(c, only_shared(n)) == (Census { shared: (c.shared + n) as nat, exclusive: false }),
    decreases n,
{
    if n > 0 {
        let es = only_shared(n);
        assert(es.first() == Event::AcquireShared);
        assert(es.drop_first() =~= only_shared((n - 1) as nat));
        lemma_only_shared_run(census_step(c, Event::AcquireShared), (n - 1) as nat);
    }
}

/// Shared compatibility: any number of shared borrows, up to the hard
/// ceiling, may be live together.  The trace that acquires them all is
/// well formed — no attempt in it is refused — and it leaves exactly
/// `n` shared borrows live with the exclusive borrow free.
pub proof fn lemma_shared_compatibility(n: nat)
    requires
        n <= SHARED_MASK,
    ensures
        wf_trace(idle(), only_shared(n)),
        census_run(idle(), only_shared(n)) == (Census { shared: n, exclusive: false }),
{
    lemma_only_shared_run(idle(), n);
}

/// Releasing a shared borrow undoes exactly what acquiring it did:
/// after the acquisition and its matching release the state word holds
/// no residual trace of the pair.
pub proof fn lemma_release_restores_shared(s: u64)
    requires
        !flag_set(s),
        shared_count(s) < SHARED_MASK,
    ensures
        word_step(word_step(s, Event::AcquireShared), Event::ReleaseShared) == s,
{
}

/// Releasing the exclusive borrow undoes exactly what acquiring it
/// did: after the acquisition and its matching release the state word
/// holds no residual trace of the pair.
pub proof fn lemma_release_restores_exclusive(s: u64)
    requires
        s == 0,
    ensures
        word_step(word_step(s, Event::AcquireExclusive), Event::ReleaseExclusive) == s,
{
}

/// Quiescence after full release: a well-formed trace from the idle
/// census whose acquisitions have all been matched by releases brings
/// the state word back to zero, its initial value.
pub proof fn lemma_quiescence(es: Seq<Event>)
    requires
        wf_trace(idle(), es),
        census_run(idle(), es) == idle(),
    ensures
        word_run(0, es) == 0,
{
    lemma_word_tracks_census(idle(), es);
}

} // verus!
