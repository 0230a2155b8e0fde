//! A cell whose content is reached only through a closure.

use vstd::prelude::*;

verus! {

/// A value that is read and changed only inside the closures handed to
/// `with` and `with_mut`.
#[derive(Debug)]
pub struct CausalCell<T>(pub T);

impl<T> CausalCell<T> {
    /// A cell holding `data`.
    pub fn new(data: T) -> (cell: CausalCell<T>)
        ensures
            cell.0 == data,
    {
        CausalCell(data)
    }

    /// Runs `f` on the content, to read it.
    pub fn with<F, R>(&self, f: F) -> (r: R) where F: FnOnce(&T) -> R
        requires
            call_requires(f, (&self.0,)),
        ensures
            call_ensures(f, (&self.0,), r),
    {
        f(&self.0)
    }

    /// Runs `f` on the content, to change it: `f` takes the content and
    /// hands back what takes its place, with its answer.
    pub fn with_mut<F, R>(self, f: F) -> (res: (CausalCell<T>, R)) where F: FnOnce(T) -> (T, R)
        requires
            call_requires(f, (self.0,)),
        ensures
            call_ensures(f, (self.0,), (res.0.0, res.1)),
    {
        let (data, r) = f(self.0);
        (CausalCell(data), r)
    }
}

} // verus!
