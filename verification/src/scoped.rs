//! A cons list whose links are shared borrows of caller-owned cells, so a
//! longer list exists only inside the scope of a callback: each call of
//! `push` owns one cell on its own stack frame and lends the grown list to
//! the closure it was given.

use vstd::prelude::*;

verus! {

/// One cell of the list: a value and a borrow of the rest of the list.
pub struct List<'a, T> {
    pub data: T,
    pub prev: Option<&'a List<'a, T>>,
}

/// The values reachable from an optional borrow of a cell, the most
/// recently pushed value first.
pub open spec fn chain<'a, T>(link: Option<&'a List<'a, T>>) -> Seq<T>
    decreases link,
{
    match link {
        None => Seq::empty(),
        Some(cell) => seq![cell.data] + chain(cell.prev),
    }
}

impl<'a, T> List<'a, T> {
    /// The values of this list, the most recently pushed first.
    pub open spec fn elems(&self) -> Seq<T> {
        seq![self.data] + chain(self.prev)
    }

    /// Grows the list by one cell holding `data`, lends the grown list to
    /// `callback`, and hands back whatever the callback returns. The cell
    /// lives only for the duration of the call.
    pub fn push<U, F: FnOnce(&List<'a, T>) -> U>(
        prev: Option<&'a List<'a, T>>,
        data: T,
        callback: F,
    ) -> (r: U)
        requires
            call_requires(callback, (&(List { data, prev }),)),
        ensures
            call_ensures(callback, (&(List { data, prev }),), r),
    {
        let list = List { data, prev };
        callback(&list)
    }

    /// A walk over this list, starting at this cell.
    pub fn iter(&'a self) -> (it: Iter<'a, T>)
        ensures
            it.remaining() == self.elems(),
    {
        Iter { next: Some(self) }
    }
}

/// A walk over a borrowed list, yielding each cell's value in turn,
/// the most recently pushed first.
pub struct Iter<'a, T> {
    next: Option<&'a List<'a, T>>,
}

impl<'a, T> Iter<'a, T> {
    /// The values not yet yielded, in the order they will come.
    pub closed spec fn remaining(&self) -> Seq<T> {
        chain(self.next)
    }

    /// Yields a borrow of the next value, or `None` once the walk is done.
    pub fn next(&mut self) -> (r: Option<&'a T>)
        ensures
            old(self).remaining().len() == 0 ==> r is None
                && final(self).remaining() == old(self).remaining(),
            old(self).remaining().len() > 0 ==> r is Some
                && *r.unwrap() == old(self).remaining()[0]
                && final(self).remaining() == old(self).remaining().drop_first(),
    {
        match self.next {
            None => None,
            Some(cell) => {
                self.next = cell.prev;
                Some(&cell.data)
            }
        }
    }
}

} // verus!
