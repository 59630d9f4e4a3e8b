use crate::errors::PulseCtlError;
use vstd::prelude::*;

verus! {

/// The place where the callbacks of one request leave what the server
/// delivered, and from which the caller takes it once the wait is over.
pub struct PendingResult<T> {
    value: T,
}

impl<T> PendingResult<T> {
    /// What the cell holds now.
    pub closed spec fn held(self) -> T {
        self.value
    }

    /// A cell that holds `initial` until something is written to it.
    pub fn new(initial: T) -> (cell: Self)
        ensures
            cell.held() == initial,
    {
        PendingResult { value: initial }
    }

    /// Puts `value` in the place of what the cell held.
    pub fn write(&mut self, value: T)
        ensures
            final(self).held() == value,
    {
        self.value = value;
    }

    /// Ends the request: hands out what the cell holds if the wait went
    /// well, and the wait's error if it did not. What was written before a
    /// wait failed is dropped.
    pub fn read(self, waited: Result<(), PulseCtlError>) -> (r: Result<T, PulseCtlError>)
        ensures
            r == match waited {
                Ok(_) => Ok::<T, PulseCtlError>(self.held()),
                Err(e) => Err::<T, PulseCtlError>(e),
            },
    {
        match waited {
            Ok(_) => Ok(self.value),
            Err(e) => Err(e),
        }
    }
}

impl<T> PendingResult<Option<T>> {
    /// A cell for a request that delivers one item at most: empty at first.
    pub fn empty() -> (cell: Self)
        ensures
            cell.held() is None,
    {
        PendingResult { value: None }
    }

    /// Takes an item in; of several, the last one stays.
    pub fn fill(&mut self, item: T)
        ensures
            final(self).held() == Some(item),
    {
        self.value = Some(item);
    }
}

impl<T> PendingResult<Vec<T>> {
    /// A cell for a request that delivers any number of items: without
    /// items at first.
    pub fn list() -> (cell: Self)
        ensures
            cell.held()@ == Seq::<T>::empty(),
    {
        PendingResult { value: Vec::new() }
    }

    /// Takes an item in, behind those that came before it.
    pub fn append(&mut self, item: T)
        ensures
            final(self).held()@ == old(self).held()@.push(item),
    {
        self.value.push(item);
    }
}

} // verus!
