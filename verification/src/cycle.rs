//! The cycling vector: a `Vec`, a cursor into it, and production round it.

use vstd::prelude::*;
use vstd::std_specs::convert::FromSpec;
use crate::cursor::{
    advance,
    advance_by,
    lemma_cycle_order,
    lemma_empty_stays,
    lemma_position_in_range,
    position,
};

verus! {

/// Cycles over a vector as if it were an endless iterator.
///
/// The elements are an ordinary `Vec`, reached by [`VecCycle::as_vec`] and
/// [`VecCycle::as_mut_vec`] or, implicitly, through `Deref` and
/// `DerefMut`, so they can be changed at any time. The cursor is not clamped
/// when the vector shrinks: it is brought into range, by remainder, only when
/// it is read by [`VecCycle::index`] or used by [`VecCycle::next`].
///
/// In contracts the elements are the view, `cycle@`, and the stored cursor
/// is [`VecCycle::cursor`].
///
/// `next` is a method of the type and not of `Iterator`: vstd states that
/// trait for iterators that end for good, and this one never ends while there
/// are elements, and goes on when an empty vector is filled again.
pub struct VecCycle<T: Clone> {
    index: usize,
    inner: Vec<T>,
}

impl<T: Clone> View for VecCycle<T> {
    type V = Seq<T>;

    /// The elements, in the order in which they are produced.
    closed spec fn view(&self) -> Seq<T> {
        self.inner@
    }
}

impl<T: Clone> VecCycle<T> {
    /// The cursor as it is stored, which may lie beyond the last element.
    pub closed spec fn cursor(&self) -> nat {
        self.index as nat
    }

    /// Creates a `VecCycle` from a `Vec`, with the cursor on the first element.
    ///
    /// This is the conversion from a `Vec` under another name.
    pub fn new(vector: Vec<T>) -> (cycle: Self)
        ensures
            cycle@ == vector@,
            cycle.cursor() == 0,
            cycle == Self::from_spec(vector),
    {
        Self::from(vector)
    }

    /// Produces a clone of the element under the cursor and moves the cursor
    /// to the element after it, or to the first one after the last.
    ///
    /// An empty vector produces `None` and leaves the cursor alone; once an
    /// element has been added, production goes on.
    pub fn next(&mut self) -> (item: Option<T>)
        ensures
            final(self)@ == old(self)@,
            final(self).cursor() == advance(old(self).cursor(), old(self)@.len()),
            (match item {
                Some(value) => old(self)@.len() > 0 && cloned(
                    old(self)@[position(old(self).cursor(), old(self)@.len()) as int],
                    value,
                ),
                None => old(self)@.len() == 0,
            }),
    {
        let len: usize = self.inner.len();
        if len == 0 {
            return None;
        }
        self.index = self.index % len;
        let value = self.inner[self.index].clone();
        self.index = (self.index + 1) % len;
        Some(value)
    }

    /// Produces `n` elements, as `n` calls of [`VecCycle::next`] would, and
    /// returns them in the order in which they came: clones of the elements
    /// from the cursor's place on, going round as often as `n` asks for.
    ///
    /// An empty vector gives an empty result.
    pub fn take_next(&mut self, n: usize) -> (items: Vec<T>)
        ensures
            final(self)@ == old(self)@,
            final(self).cursor() == advance_by(old(self).cursor(), old(self)@.len(), n as nat),
            old(self)@.len() > 0 && n > 0 ==> final(self).cursor() == (old(self).cursor()
                + n as nat) % old(self)@.len(),
            items@.len() == (if old(self)@.len() == 0 {
                0
            } else {
                n as nat
            }),
            forall|i: int|
                0 <= i < items@.len() ==> cloned(
                    old(self)@[(old(self).cursor() + i) % (old(self)@.len() as int)],
                    #[trigger] items@[i],
                ),
    {
        let mut items: Vec<T> = Vec::new();
        let mut count: usize = 0;
        while count < n
            invariant
                self@ == old(self)@,
                count <= n,
                items@.len() == count,
                self@.len() == 0 ==> count == 0,
                self.cursor() == advance_by(old(self).cursor(), self@.len(), count as nat),
                forall|i: int|
                    0 <= i < count ==> cloned(
                        old(self)@[(old(self).cursor() + i) % (old(self)@.len() as int)],
                        #[trigger] items@[i],
                    ),
            decreases n - count,
        {
            proof {
                if self@.len() > 0 {
                    lemma_cycle_order(old(self).cursor(), self@.len(), count as nat);
                }
            }
            match self.next() {
                Some(value) => {
                    items.push(value);
                    count += 1;
                },
                None => {
                    proof {
                        lemma_empty_stays(old(self).cursor(), n as nat);
                    }
                    return items;
                },
            }
        }
        proof {
            if self@.len() > 0 {
                lemma_cycle_order(old(self).cursor(), self@.len(), n as nat);
            }
        }
        items
    }

    /// The elements, to read.
    pub fn as_vec(&self) -> (elements: &Vec<T>)
        ensures
            elements@ == self@,
    {
        &self.inner
    }

    /// The elements, to change: to add to, to take from, to clear. Whatever
    /// is done to them, the cursor stays as it is stored; it is not clamped
    /// when elements leave.
    pub fn as_mut_vec(&mut self) -> (elements: &mut Vec<T>)
        ensures
            elements@ == old(self)@,
            final(self)@ == final(elements)@,
            final(self).cursor() == old(self).cursor(),
    {
        &mut self.inner
    }

    /// Returns the place of the element that is produced next: the cursor,
    /// brought into range.
    ///
    /// An empty vector has no places, so the caller has to know that there is
    /// an element.
    pub fn index(&self) -> (place: usize)
        requires
            self@.len() > 0,
        ensures
            place == position(self.cursor(), self@.len()),
            place < self@.len(),
            self.cursor() < self@.len() ==> place == self.cursor(),
    {
        proof {
            lemma_position_in_range(self.cursor(), self@.len());
        }
        self.index % self.inner.len()
    }

    /// Puts the cursor on the element at `new_index`, which is produced next.
    ///
    /// The place has to exist: a cursor set by hand is not brought into
    /// range.
    pub fn set_index(&mut self, new_index: usize)
        requires
            new_index < old(self)@.len(),
        ensures
            final(self)@ == old(self)@,
            final(self).cursor() == new_index,
    {
        self.index = new_index;
    }

    /// Puts the cursor back on the first element. This needs no element to
    /// be there.
    pub fn restart(&mut self)
        ensures
            final(self)@ == old(self)@,
            final(self).cursor() == 0,
    {
        self.index = 0;
    }
}

impl<T: Clone> core::ops::Deref for VecCycle<T> {
    type Target = Vec<T>;

    /// [`VecCycle::as_vec`], so that the cycle reads like its vector.
    fn deref(&self) -> (elements: &Vec<T>)
        ensures
            elements@ == self@,
    {
        self.as_vec()
    }
}

impl<T: Clone> core::ops::DerefMut for VecCycle<T> {
    /// [`VecCycle::as_mut_vec`], so that the cycle is changed like its
    /// vector.
    fn deref_mut(&mut self) -> (elements: &mut Vec<T>)
        ensures
            elements@ == old(self)@,
            final(self)@ == final(elements)@,
            final(self).cursor() == old(self).cursor(),
    {
        self.as_mut_vec()
    }
}

impl<T: Clone> core::convert::From<Vec<T>> for VecCycle<T> {
    /// Takes a `Vec` over, with the cursor on the first element.
    fn from(vector: Vec<T>) -> (cycle: Self)
        ensures
            cycle@ == vector@,
            cycle.cursor() == 0,
    {
        VecCycle { index: 0, inner: vector }
    }
}

impl<T: Clone> vstd::std_specs::convert::FromSpecImpl<Vec<T>> for VecCycle<T> {
    open spec fn obeys_from_spec() -> bool {
        true
    }

    closed spec fn from_spec(vector: Vec<T>) -> Self {
        VecCycle { index: 0, inner: vector }
    }
}

impl<T: Clone> VecCycle<T> {
    /// What the conversion from a `Vec` makes: a cycle of the same elements
    /// with the cursor at zero.
    pub proof fn lemma_from_spec(vector: Vec<T>)
        ensures
            Self::from_spec(vector)@ == vector@,
            Self::from_spec(vector).cursor() == 0,
    {
    }
}

impl<T: Clone> Clone for VecCycle<T> {
    /// Clones the elements one by one and keeps the cursor.
    fn clone(&self) -> (copy: Self)
        ensures
            copy.cursor() == self.cursor(),
            copy@.len() == self@.len(),
            forall|i: int| 0 <= i < self@.len() ==> cloned(self@[i], #[trigger] copy@[i]),
    {
        VecCycle { index: self.index, inner: self.inner.clone() }
    }
}

} // verus!
