//! A runtime-checked shareable borrow cell.
//!
//! `SynCell` holds one value and hands out either any number of
//! read-only borrows or a single read-write borrow of it, enforcing
//! the shared-xor-exclusive discipline at run time through a single
//! state word rather than through the type system.  A borrow that
//! would violate the discipline is refused on the spot, after any
//! partial change to the state word has been reversed, so a refused
//! attempt leaves no trace.
//!
//! The state word packs both kinds of live access into one 64-bit
//! unsigned integer ([`word`]), the cell and its guard tokens live in
//! [`cell`], and [`protocol`] states and proves the laws of the
//! discipline over whole traces of acquisitions and releases.

pub mod cell;
pub mod protocol;
pub mod word;

pub use cell::BorrowError;
pub use cell::SynCell;
pub use cell::SynRef;
pub use cell::SynRefMut;
