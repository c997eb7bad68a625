//! A thin wrapper that lets a byte stream written against one asynchronous
//! I/O interface stand in where the other is expected.

use vstd::prelude::*;

verus! {

/// A reader/writer under a wrapper that can carry adapter impls.
pub struct Compat<S> {
    reader_writer: S,
}

impl<S> Compat<S> {
    /// Wraps `reader_writer`.
    pub fn new(reader_writer: S) -> (wrapped: Compat<S>)
        ensures
            wrapped.inner() == reader_writer,
    {
        Compat { reader_writer }
    }

    /// What is wrapped.
    pub closed spec fn inner(self) -> S {
        self.reader_writer
    }

    /// Unwraps.
    pub fn into_inner(self) -> (reader_writer: S)
        ensures
            reader_writer == self.inner(),
    {
        self.reader_writer
    }
}

} // verus!
