//! A cell for values that are computed once.

use vstd::prelude::*;

verus! {

/// A cell that is filled at most once and read any number of times.
pub struct LazyCell<T> {
    inner: Option<T>,
}

impl<T> LazyCell<T> {
    /// What the cell holds: nothing yet, or the value it was filled with.
    pub closed spec fn content(&self) -> Option<T> {
        self.inner
    }

    /// An empty cell.
    pub fn new() -> (cell: LazyCell<T>)
        ensures
            cell.content() is None,
    {
        LazyCell { inner: None }
    }

    /// Whether the cell has been filled.
    pub fn filled(&self) -> (full: bool)
        ensures
            full == self.content() is Some,
    {
        self.inner.is_some()
    }

    /// Puts `value` into an empty cell. A filled cell stays as it is and
    /// gives the value back as the error.
    pub fn fill(&mut self, value: T) -> (done: Result<(), T>)
        ensures
            old(self).content() is None ==> done is Ok && final(self).content() == Some(value),
            old(self).content() is Some ==> done == Err::<(), T>(value) && final(self).content()
                == old(self).content(),
    {
        if self.inner.is_some() {
            Err(value)
        } else {
            self.inner = Some(value);
            Ok(())
        }
    }

    /// The value of a filled cell.
    pub fn borrow(&self) -> (value: Option<&T>)
        ensures
            value is Some == self.content() is Some,
            value is Some ==> *value->0 == self.content()->0,
    {
        self.inner.as_ref()
    }
}

} // verus!
