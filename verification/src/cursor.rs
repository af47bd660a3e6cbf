//! The arithmetic of a cursor that runs round a sequence.
//!
//! A cursor is a natural number that need not lie inside the sequence it
//! belongs to: the sequence may have shrunk since the cursor was last used.
//! It is brought into range, by remainder, at the moment it is read.
//!
//! The three functions here say where a cursor points and where it goes;
//! the lemmas after them say what that amounts to over many steps.

use vstd::prelude::*;
use vstd::arithmetic::div_mod::{
    lemma_add_mod_noop_right,
    lemma_mod_add_multiples_vanish,
    lemma_mod_bound,
    lemma_small_mod,
};

verus! {

/// The place in a sequence of `len` elements that `cursor` stands for.
///
/// Meaningful for `len > 0` only: an empty sequence has no places.
pub open spec fn position(cursor: nat, len: nat) -> nat
    recommends
        len > 0,
{
    cursor % len
}

/// The cursor after one element has been produced from a sequence of `len`
/// elements. Nothing is produced from an empty sequence, and the cursor stays.
pub open spec fn advance(cursor: nat, len: nat) -> nat {
    if len == 0 {
        cursor
    } else {
        (position(cursor, len) + 1) % len
    }
}

/// The cursor after `n` elements have been produced, one after the other,
/// from a sequence that kept its `len` elements meanwhile.
pub open spec fn advance_by(cursor: nat, len: nat, n: nat) -> nat
    decreases n,
{
    if n == 0 {
        cursor
    } else {
        advance(advance_by(cursor, len, (n - 1) as nat), len)
    }
}

/// A cursor always stands for a place inside a non-empty sequence, and a
/// cursor that already lies inside stands for itself.
pub proof fn lemma_position_in_range(cursor: nat, len: nat)
    requires
        len > 0,
    ensures
        position(cursor, len) < len,
        cursor < len ==> position(cursor, len) == cursor,
{
    lemma_mod_bound(cursor as int, len as int);
    if cursor < len {
        lemma_small_mod(cursor, len);
    }
}

/// One step goes to the next place, and from the last place to the first.
pub proof fn lemma_advance_wraps(cursor: nat, len: nat)
    requires
        len > 0,
    ensures
        advance(cursor, len) < len,
        advance(cursor, len) == (cursor + 1) % len,
        advance(cursor, len) == (if position(cursor, len) + 1 == len {
            0
        } else {
            position(cursor, len) + 1
        }),
{
    let here = position(cursor, len);
    lemma_position_in_range(cursor, len);
    lemma_add_mod_noop_right(1, cursor as int, len as int);
    if here + 1 == len {
        lemma_mod_add_multiples_vanish(0, len as int);
        lemma_small_mod(0, len);
    } else {
        lemma_small_mod(here + 1, len);
    }
}

/// Cyclic order. Production from a non-empty sequence that keeps its `len`
/// elements goes through the places in order, starting from the cursor's, and
/// begins again after the last: the call that follows `n` earlier ones reads
/// the place `(cursor + n) % len`. After at least one call the stored cursor
/// is that place itself.
pub proof fn lemma_cycle_order(cursor: nat, len: nat, n: nat)
    requires
        len > 0,
    ensures
        position(advance_by(cursor, len, n), len) == (cursor + n) % len,
        n > 0 ==> advance_by(cursor, len, n) == (cursor + n) % len,
    decreases n,
{
    if n > 0 {
        let before = advance_by(cursor, len, (n - 1) as nat);
        lemma_cycle_order(cursor, len, (n - 1) as nat);
        lemma_advance_wraps(before, len);
        lemma_add_mod_noop_right(1, cursor + n - 1, len as int);
        lemma_position_in_range(advance_by(cursor, len, n), len);
    }
}

/// The order repeats without end: `len` calls later the same place is read
/// again.
pub proof fn lemma_cycle_repeats(cursor: nat, len: nat, n: nat)
    requires
        len > 0,
    ensures
        position(advance_by(cursor, len, n + len), len) == position(
            advance_by(cursor, len, n),
            len,
        ),
{
    lemma_cycle_order(cursor, len, n);
    lemma_cycle_order(cursor, len, n + len);
    lemma_mod_add_multiples_vanish((cursor + n) as int, len as int);
}

/// With no elements the cursor never moves, however often production is
/// tried.
pub proof fn lemma_empty_stays(cursor: nat, n: nat)
    ensures
        advance_by(cursor, 0, n) == cursor,
    decreases n,
{
    if n > 0 {
        lemma_empty_stays(cursor, (n - 1) as nat);
    }
}

/// From the first element on. With the cursor at zero, as after a restart,
/// the first `len` calls read the places `0, 1, .., len - 1` in that order,
/// and every later call reads the place `n % len`.
pub proof fn lemma_order_from_start(len: nat, n: nat)
    requires
        len > 0,
    ensures
        position(advance_by(0, len, n), len) == n % len,
        n < len ==> position(advance_by(0, len, n), len) == n,
{
    lemma_cycle_order(0, len, n);
    if n < len {
        lemma_small_mod(n, len);
    }
}

/// From a chosen element on. With the cursor set to a place `k` inside the
/// sequence, the next call reads the place `k` itself and leaves the cursor
/// at `(k + 1) % len`.
pub proof fn lemma_order_from_place(k: nat, len: nat)
    requires
        k < len,
    ensures
        position(k, len) == k,
        advance(k, len) == (k + 1) % len,
{
    lemma_position_in_range(k, len);
    lemma_advance_wraps(k, len);
}

} // verus!
