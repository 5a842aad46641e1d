//! The cell, its guard tokens, and the borrow operations.
//!
//! `SynCell` owns one value and a state word.  A successful borrow
//! hands back a guard token; the token is handed back to the cell to
//! release the access it stands for.  Each operation states over
//! [`crate::protocol::word_step`] exactly what it does to the state
//! word, so a refused attempt is proved to leave the word as it was.

use vstd::prelude::*;

verus! {

use crate::protocol::Event;
use crate::protocol::word_step;
use crate::word::SHARED_MASK;
use crate::word::WRITE_BIT;
use crate::word::flag_set;
use crate::word::lemma_flag_clear;
use crate::word::lemma_flag_or_noop;
use crate::word::lemma_flag_or_sets;
use crate::word::lemma_flag_test;
use crate::word::shared_count;

/// The one failure the cell reports, in its two flavors: an attempt
/// made while an exclusive borrow is live is a write conflict, and an
/// exclusive attempt made while shared borrows are live is a read
/// conflict.  Both mean the caller broke the shared-xor-exclusive
/// discipline; neither is an expected steady-state outcome.
#[derive(Clone, Copy, Debug, PartialEq, Eq, Structural)]
pub enum BorrowError {
    WriteConflict,
    ReadConflict,
}

/// Token for one live shared (read-only) borrow.  Only a successful
/// [`SynCell::borrow`] makes one; handing it to [`SynCell::release`]
/// consumes it, so each token is released at most once.
#[derive(Debug)]
pub struct SynRef {
    token: (),
}

/// Token for the one live exclusive (read-write) borrow.  Only a
/// successful [`SynCell::borrow_mut`] makes one; handing it to
/// [`SynCell::release_mut`] consumes it.
#[derive(Debug)]
pub struct SynRefMut {
    token: (),
}

/// A cell that checks Rust's borrow discipline at run time.  The state
/// word is the sole arbiter: its top bit is the exclusive flag and its
/// low bits count live shared borrows (see [`crate::word`]).  A fresh
/// cell is quiescent, and every refused borrow leaves the word exactly
/// as it found it.
pub struct SynCell<T> {
    state: u64,
    value: T,
}

impl<T> SynCell<T> {
    /// The cell's state word.
    pub closed spec fn word(self) -> u64 {
        self.state
    }

    /// The protected value.
    pub closed spec fn contents(self) -> T {
        self.value
    }

    /// No access of any kind is live.
    pub open spec fn quiescent(self) -> bool {
        crate::word::quiescent(self.word())
    }

    /// An exclusive borrow is live.
    pub open spec fn writing(self) -> bool {
        flag_set(self.word())
    }

    /// The number of live shared borrows.
    pub open spec fn readers(self) -> u64 {
        shared_count(self.word())
    }

    /// Create a new cell holding `value`, in the quiescent state.
    pub fn new(value: T) -> (r: Self)
        ensures
            r.quiescent(),
            r.contents() == value,
    {
        SynCell { state: 0, value }
    }

    /// Return the protected value, consuming the cell.  Sole ownership
    /// of the cell already rules out live guards, and the quiescence
    /// demanded here says the same of the state word.
    pub fn into_inner(self) -> (r: T)
        requires
            self.quiescent(),
        ensures
            r == self.contents(),
    {
        let SynCell { state: _, value } = self;
        value
    }

    /// Direct exclusive access to the value, without going through the
    /// borrow protocol.  Sole mutable access to the cell already rules
    /// out live guards, and the quiescence demanded here says the same
    /// of the state word, which the access leaves untouched.
    pub fn get_mut(&mut self) -> (r: &mut T)
        requires
            old(self).quiescent(),
        ensures
            *r == old(self).contents(),
            final(self).contents() == *final(r),
            final(self).quiescent(),
    {
        &mut self.value
    }

    /// The current state word, as a plain number.
    pub fn state_word(&self) -> (r: u64)
        ensures
            r == self.word(),
    {
        self.state
    }

    /// Attempt a shared (read-only) borrow.
    ///
    /// The count is raised first, optimistically; if the word then
    /// shows a live exclusive borrow, the attempt lowers its own count
    /// again — restoring the word exactly — and reports a write
    /// conflict.  Otherwise the raised count stands for the new borrow
    /// and a token for it is returned.
    ///
    /// The shared count has `SHARED_MASK` as a hard ceiling: the
    /// caller must keep the number of live shared borrows below it.
    pub fn borrow(&mut self) -> (r: Result<SynRef, BorrowError>)
        requires
            old(self).readers() < SHARED_MASK,
        ensures
            final(self).contents() == old(self).contents(),
            final(self).word() == word_step(old(self).word(), Event::AcquireShared),
            r is Ok <==> !old(self).writing(),
            r is Err ==> r == Err::<SynRef, BorrowError>(BorrowError::WriteConflict),
            r is Err ==> final(self).word() == old(self).word(),
            r is Ok ==> final(self).readers() == old(self).readers() + 1,
            r is Ok ==> !final(self).writing(),
    {
        let prev = self.state;
        proof {
            lemma_flag_test(prev);
        }
        self.state = prev + 1;
        if (prev & WRITE_BIT) != 0 {
            self.state = self.state - 1;
            Err(BorrowError::WriteConflict)
        } else {
            Ok(SynRef { token: () })
        }
    }

    /// Attempt an exclusive (read-write) borrow.
    ///
    /// The flag is set first, optimistically.  If it was already set,
    /// the flag belongs to another live exclusive borrow and is left
    /// alone: the attempt reports a write conflict.  If the flag was
    /// clear but shared borrows are live, the attempt clears the flag
    /// it itself just set — restoring the word exactly — and reports a
    /// read conflict.  Only from the quiescent word does the attempt
    /// succeed and return a token.
    pub fn borrow_mut(&mut self) -> (r: Result<SynRefMut, BorrowError>)
        ensures
            final(self).contents() == old(self).contents(),
            final(self).word() == word_step(old(self).word(), Event::AcquireExclusive),
            r is Ok <==> old(self).quiescent(),
            old(self).writing() ==> r == Err::<SynRefMut, BorrowError>(BorrowError::WriteConflict),
            !old(self).writing() && old(self).readers() > 0 ==> r == Err::<SynRefMut, BorrowError>(
                BorrowError::ReadConflict,
            ),
            r is Err ==> final(self).word() == old(self).word(),
            r is Ok ==> final(self).writing() && final(self).readers() == 0,
    {
        let prev = self.state;
        proof {
            lemma_flag_test(prev);
            if prev >= WRITE_BIT {
                lemma_flag_or_noop(prev);
            } else {
                lemma_flag_or_sets(prev);
            }
        }
        self.state = prev | WRITE_BIT;
        if (prev & WRITE_BIT) != 0 {
            Err(BorrowError::WriteConflict)
        } else if prev != 0 {
            proof {
                lemma_flag_clear(self.state);
            }
            self.state = self.state & SHARED_MASK;
            Err(BorrowError::ReadConflict)
        } else {
            Ok(SynRefMut { token: () })
        }
    }

    /// Release one shared borrow, consuming its token: the shared
    /// count goes down by exactly one and nothing else changes.
    pub fn release(&mut self, guard: SynRef)
        requires
            old(self).readers() > 0,
        ensures
            final(self).contents() == old(self).contents(),
            final(self).word() == word_step(old(self).word(), Event::ReleaseShared),
            final(self).readers() == old(self).readers() - 1,
            final(self).writing() == old(self).writing(),
    {
        let SynRef { token: _ } = guard;
        self.state = self.state - 1;
    }

    /// Release the exclusive borrow, consuming its token: the
    /// exclusive flag is cleared and nothing else changes.
    pub fn release_mut(&mut self, guard: SynRefMut)
        ensures
            final(self).contents() == old(self).contents(),
            final(self).word() == word_step(old(self).word(), Event::ReleaseExclusive),
            !final(self).writing(),
            final(self).readers() == old(self).readers(),
    {
        let SynRefMut { token: _ } = guard;
        proof {
            lemma_flag_clear(self.state);
        }
        self.state = self.state & SHARED_MASK;
    }

    /// Read the value under a live shared borrow.
    pub fn read(&self, guard: &SynRef) -> (r: &T)
        requires
            self.readers() > 0,
        ensures
            *r == self.contents(),
    {
        let SynRef { token: _ } = guard;
        &self.value
    }

    /// Read the value under the live exclusive borrow.
    pub fn read_mut(&self, guard: &SynRefMut) -> (r: &T)
        requires
            self.writing(),
        ensures
            *r == self.contents(),
    {
        let SynRefMut { token: _ } = guard;
        &self.value
    }

    /// Overwrite the value under the live exclusive borrow.  The state
    /// word is untouched: the borrow stays live until its token is
    /// handed back.
    pub fn write(&mut self, guard: &SynRefMut, value: T)
        requires
            old(self).writing(),
        ensures
            final(self).contents() == value,
            final(self).word() == old(self).word(),
    {
        let SynRefMut { token: _ } = guard;
        self.value = value;
    }
}

} // verus!
