//! Encoding of the cell's state word.
//!
//! A single 64-bit unsigned word records both kinds of live access at
//! once: the most-significant bit is the *exclusive flag*, set while a
//! read-write borrow is live, and the remaining bits are the *shared
//! count* of live read-only borrows.  The all-zero word is the
//! *quiescent* state: no access of any kind is live.

use vstd::prelude::*;

verus! {

/// Most-significant bit of the state word: set while an exclusive
/// borrow is live.
pub const WRITE_BIT: u64 = 0x8000_0000_0000_0000;

/// Mask of the remaining bits, which hold the shared count.  Its value
/// is also the largest count the word can represent, and therefore the
/// hard ceiling on concurrently live shared borrows.
pub const SHARED_MASK: u64 = 0x7FFF_FFFF_FFFF_FFFF;

/// The exclusive flag of `s`, read arithmetically: the top bit is set
/// exactly when the word is at least `WRITE_BIT`.
pub open spec fn flag_set(s: u64) -> bool {
    s >= WRITE_BIT
}

/// The shared count held in the low bits of `s`.
pub open spec fn shared_count(s: u64) -> u64 {
    if flag_set(s) {
        (s - WRITE_BIT) as u64
    } else {
        s
    }
}

/// A word is quiescent when no access of any kind is live.
pub open spec fn quiescent(s: u64) -> bool {
    s == 0
}

/// Testing the top bit agrees with the arithmetic reading of the flag.
pub proof fn lemma_flag_test(s: u64)
    by (bit_vector)
    ensures
        ((s & WRITE_BIT) != 0) <==> s >= WRITE_BIT,
{
}

/// Or-ing the top bit into a word whose flag is clear adds `WRITE_BIT`.
pub proof fn lemma_flag_or_sets(s: u64)
    by (bit_vector)
    requires
        s < WRITE_BIT,
    ensures
        (s | WRITE_BIT) == s + WRITE_BIT,
{
}

/// Or-ing the top bit into a word whose flag is already set changes
/// nothing.
pub proof fn lemma_flag_or_noop(s: u64)
    by (bit_vector)
    requires
        s >= WRITE_BIT,
    ensures
        (s | WRITE_BIT) == s,
{
}

/// Masking with `SHARED_MASK` clears exactly the top bit and keeps the
/// shared count.
pub proof fn lemma_flag_clear(s: u64)
    by (bit_vector)
    ensures
        s >= WRITE_BIT ==> (s & SHARED_MASK) == s - WRITE_BIT,
        s < WRITE_BIT ==> (s & SHARED_MASK) == s,
{
}

} // verus!
