//! A cell that holds at most one boxed value and gives it up whole.

use vstd::prelude::*;

verus! {

/// A slot for one boxed value. Every access swaps the whole content, so
/// the value is never seen half written.
pub struct AtomicCell<T> {
    pub data: Option<Box<T>>,
}

impl<T> AtomicCell<T> {
    /// A cell holding `data`.
    pub fn new(data: Option<Box<T>>) -> (cell: Self)
        ensures
            cell.data == data,
    {
        AtomicCell { data }
    }

    /// Puts `val` in and hands out what was there.
    pub fn swap(&mut self, val: Option<Box<T>>) -> (prev: Option<Box<T>>)
        ensures
            prev == old(self).data,
            final(self).data == val,
    {
        let mut val = val;
        std::mem::swap(&mut self.data, &mut val);
        val
    }

    /// Puts `val` in; what was there is dropped.
    pub fn set(&mut self, val: Box<T>)
        ensures
            final(self).data == Some(val),
    {
        let _ = self.swap(Some(val));
    }

    /// Takes out what is there, leaving the cell empty.
    pub fn take(&mut self) -> (prev: Option<Box<T>>)
        ensures
            prev == old(self).data,
            final(self).data is None,
    {
        self.swap(None)
    }
}

} // verus!
