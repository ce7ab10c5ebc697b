//! Traits for chains of values linked by ownership, and cursors over
//! them: a value that owns an optional boxed successor forms a list, and
//! a list type exposes indexed access from the chain's far end.

use vstd::prelude::*;

verus! {

/// Trait for types linked within a linked list.
pub trait Linked: Sized {
    /// Return a reference to the next link for the list.
    fn get_link(&self) -> Option<&Box<Self>>;

    /// Count links, starting the tally from `count`.
    fn count_links(&self, count: usize) -> usize;
}

/// Trait for linked list types. The chain's own accessors — the element
/// count, and retrieval at a depth or an index — come from the
/// implementation; the cursors below walk any implementation by index.
pub trait LinkedList<T: Linked>: Sized {
    /// Return the number of elements in the list.
    fn len(&self) -> usize;

    /// Helper recursive function for `get`: the element `depth` links in.
    fn get_from(&self, depth: usize) -> &T;

    /// Helper recursive function for mutably getting a value.
    fn get_from_mut(&mut self, depth: usize) -> &mut T;

    /// Return a reference to the value at index, counted from the far end
    /// of the chain.
    fn get(&self, index: usize) -> &T;

    /// Return a mutable reference to the value at index.
    fn get_mut(&mut self, index: usize) -> &mut T;

    /// Return a cursor over the elements in the linked list.
    fn iter(&self) -> Items<'_, T, Self> {
        let len = self.len();
        Items { tail: self, nelem: len, count: 0, _marker: std::marker::PhantomData }
    }

    /// Return a cursor for stepping through the list while mutating it.
    fn mut_iter(&mut self) -> MutItems<'_, T, Self> {
        let len = self.len();
        MutItems { tail: self, nelem: len, count: 0, _marker: std::marker::PhantomData }
    }

    /// Return the entire list as a vector of references.
    fn as_vec(&self) -> Vec<&T> {
        let len = self.len();
        let mut v: Vec<&T> = Vec::with_capacity(len);
        let mut i: usize = 0;
        while i < len
            invariant
                i <= len,
            decreases len - i,
        {
            v.push(self.get(i));
            i += 1;
        }
        v
    }
}

/// A cursor over a linked list's elements, by index.
pub struct Items<'a, T: Linked, L: LinkedList<T>> {
    tail: &'a L,
    nelem: usize,
    count: usize,
    _marker: std::marker::PhantomData<T>,
}

impl<'a, T: Linked, L: LinkedList<T>> Items<'a, T, L> {
    /// How many elements the cursor has not yet yielded.
    pub closed spec fn remaining(self) -> int {
        self.nelem - self.count
    }

    /// The next element, or `None` when the cursor has walked the whole
    /// list.
    pub fn next(&mut self) -> (r: Option<&'a T>)
        ensures
            r is Some <==> old(self).remaining() > 0,
            r is Some ==> final(self).remaining() == old(self).remaining() - 1,
            r is None ==> *final(self) == *old(self),
    {
        if self.count >= self.nelem {
            None
        } else {
            let here = self.tail.get(self.count);
            self.count += 1;
            Some(here)
        }
    }
}

/// A cursor over a linked list's elements that hands out mutable access
/// one index at a time: hold the list by `&mut` and call `get_mut` with
/// the cursor's positions, since handing out long-lived `&mut` elements
/// from a shared walk is not expressible safely.
pub struct MutItems<'a, T: Linked, L: LinkedList<T>> {
    tail: &'a mut L,
    nelem: usize,
    count: usize,
    _marker: std::marker::PhantomData<T>,
}

impl<'a, T: Linked, L: LinkedList<T>> MutItems<'a, T, L> {
    /// How many elements the cursor has not yet passed.
    pub closed spec fn remaining(self) -> int {
        self.nelem - self.count
    }

    /// The position the cursor stands at, or `None` when it has walked the
    /// whole list; advance with `step`.
    pub fn position(&self) -> (r: Option<usize>)
        ensures
            r is Some <==> self.remaining() > 0,
    {
        if self.count >= self.nelem {
            None
        } else {
            Some(self.count)
        }
    }

    /// Advance the cursor one element.
    pub fn step(&mut self)
        ensures
            old(self).remaining() > 0 ==> final(self).remaining() == old(self).remaining() - 1,
            old(self).remaining() <= 0 ==> final(self).remaining() == old(self).remaining(),
    {
        if self.count < self.nelem {
            self.count += 1;
        }
    }
}

} // verus!
