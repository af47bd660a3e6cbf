//! A vector that is read as an endless cycle.
//!
//! [`VecCycle`] owns a `Vec` and a cursor. Each call of [`VecCycle::next`]
//! hands out a clone of the element under the cursor and moves the cursor on,
//! going back to the first element after the last. The vector stays within
//! reach and may grow or shrink between calls; the cursor is only brought
//! into range when it is used.
//!
//! The module [`cursor`] holds the arithmetic that the contracts are stated
//! in, and the lemmas on the order in which elements come.

pub mod cursor;
pub mod cycle;

pub use cycle::VecCycle;
