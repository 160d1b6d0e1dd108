//! Handles to futures and streams of a payload type that is known statically.

use crate::store::TableId;
use core::marker::PhantomData;
use vstd::prelude::*;

verus! {

/// A handle to the readable end of a `future` whose payload is a `T`.
pub struct FutureReader<T> {
    id: TableId,
    marker: PhantomData<T>,
}

impl<T> FutureReader<T> {
    /// The handle.
    pub closed spec fn handle(&self) -> TableId {
        self.id
    }

    /// The reader with handle `id`. What the handle is to shows when the reader's type is erased.
    pub fn new_(id: TableId) -> (r: FutureReader<T>)
        ensures
            r.handle() == id,
    {
        FutureReader { id, marker: PhantomData }
    }

    /// The handle.
    pub fn id(&self) -> (r: TableId)
        ensures
            r == self.handle(),
    {
        self.id
    }
}

/// A handle to the readable end of a `stream` whose items are `T`s.
pub struct StreamReader<T> {
    id: TableId,
    marker: PhantomData<T>,
}

impl<T> StreamReader<T> {
    /// The handle.
    pub closed spec fn handle(&self) -> TableId {
        self.id
    }

    /// The reader with handle `id`. What the handle is to shows when the reader's type is erased.
    pub fn new_(id: TableId) -> (r: StreamReader<T>)
        ensures
            r.handle() == id,
    {
        StreamReader { id, marker: PhantomData }
    }

    /// The handle.
    pub fn id(&self) -> (r: TableId)
        ensures
            r == self.handle(),
    {
        self.id
    }
}

} // verus!
