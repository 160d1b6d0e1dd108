//! The table in which a component instance keeps its handles.

use crate::store::{TableId, TransmitKind};
use crate::types::{TypeFutureTableIndex, TypeStreamTableIndex};
use vstd::prelude::*;

verus! {

/// What a handle of an instance is a handle to, as the instance knows it.
#[derive(Clone, Copy, PartialEq, Eq, Structural, Debug)]
pub enum HandleType {
    Future(TypeFutureTableIndex),
    Stream(TypeStreamTableIndex),
}

impl HandleType {
    /// Whether a handle of this type is to a stream or to a future.
    pub open spec fn kind(self) -> TransmitKind {
        match self {
            HandleType::Future(_) => TransmitKind::Future,
            HandleType::Stream(_) => TransmitKind::Stream,
        }
    }
}

/// A handle of an instance to the readable end of a future or stream.
#[derive(Clone, Copy, PartialEq, Eq, Structural, Debug)]
pub struct GuestHandle {
    pub ty: HandleType,
    pub id: TableId,
}

/// How many handles an instance can have at most.
pub const MAX_HANDLES: u32 = 0x0fff_ffff;

/// Whether slot `i` is the lowest one that is free: the first empty slot, or the one behind the
/// last if none is empty.
pub open spec fn lowest_free(slots: Seq<Option<GuestHandle>>, i: int) -> bool {
    &&& 0 <= i <= slots.len()
    &&& i < slots.len() ==> slots[i] is None
    &&& forall|j: int| 0 <= j < i ==> #[trigger] slots[j] is Some
}

/// The slots with `handle` in slot `i`.
pub open spec fn placed(
    slots: Seq<Option<GuestHandle>>,
    i: int,
    handle: GuestHandle,
) -> Seq<Option<GuestHandle>> {
    if i < slots.len() {
        slots.update(i, Some(handle))
    } else {
        slots.push(Some(handle))
    }
}

/// Whether no more handles fit.
pub open spec fn table_full(slots: Seq<Option<GuestHandle>>) -> bool {
    slots.len() == MAX_HANDLES && forall|j: int|
        0 <= j < slots.len() ==> #[trigger] slots[j] is Some
}

/// What index `index` refers to. Index 0 refers to nothing, index `i + 1` to slot `i`.
pub open spec fn looked_up(slots: Seq<Option<GuestHandle>>, index: u32) -> Option<GuestHandle> {
    if 0 < index <= slots.len() {
        slots[index - 1]
    } else {
        None
    }
}

/// Whether every handle names what it is a handle to: one to a future a future, one to a stream a
/// stream.
pub open spec fn kinds_agree(slots: Seq<Option<GuestHandle>>) -> bool {
    forall|i: int|
        0 <= i < slots.len() ==> (#[trigger] slots[i] matches Some(handle) ==> handle.ty.kind()
            == handle.id.kind)
}

/// The handles of an instance, by index.
pub struct HandleTable {
    slots: Vec<Option<GuestHandle>>,
}

impl View for HandleTable {
    type V = Seq<Option<GuestHandle>>;

    closed spec fn view(&self) -> Seq<Option<GuestHandle>> {
        self.slots@
    }
}

impl HandleTable {
    pub open spec fn wf(self) -> bool {
        self@.len() <= MAX_HANDLES
    }

    /// A table without handles.
    pub fn new() -> (r: HandleTable)
        ensures
            r@ == Seq::<Option<GuestHandle>>::empty(),
            r.wf(),
    {
        HandleTable { slots: Vec::new() }
    }

    /// Puts a handle into the lowest free slot and returns its index, `None` if the table is
    /// full.
    pub fn insert(&mut self, handle: GuestHandle) -> (r: Option<u32>)
        requires
            old(self).wf(),
        ensures
            final(self).wf(),
            r is None <==> table_full(old(self)@),
            r is None ==> final(self)@ == old(self)@,
            r matches Some(index) ==> index > 0 && lowest_free(old(self)@, index - 1)
                && final(self)@ == placed(old(self)@, index - 1, handle),
    {
        let mut i: usize = 0;
        while i < self.slots.len() && self.slots[i].is_some()
            invariant
                0 <= i <= self.slots@.len(),
                forall|j: int| 0 <= j < i ==> #[trigger] self.slots@[j] is Some,
            decreases self.slots@.len() - i,
        {
            i += 1;
        }
        if i < self.slots.len() {
            self.slots.set(i, Some(handle));
            Some(i as u32 + 1)
        } else if self.slots.len() < MAX_HANDLES as usize {
            self.slots.push(Some(handle));
            Some(i as u32 + 1)
        } else {
            None
        }
    }

    /// The handle at an index.
    pub fn get(&self, index: u32) -> (r: Option<GuestHandle>)
        ensures
            r == looked_up(self@, index),
    {
        if 0 < index && index as usize <= self.slots.len() {
            self.slots[index as usize - 1]
        } else {
            None
        }
    }

    /// Takes the handle at an index out of the table.
    pub fn remove(&mut self, index: u32)
        requires
            old(self).wf(),
            looked_up(old(self)@, index) is Some,
        ensures
            final(self).wf(),
            final(self)@ == old(self)@.update(index - 1, None),
    {
        self.slots.set(index as usize - 1, None);
    }
}

/// Looking up the index that a handle was put at gives the handle back, and every other index
/// refers to what it referred to before.
pub proof fn law_insert_lookup(
    slots: Seq<Option<GuestHandle>>,
    i: u32,
    handle: GuestHandle,
    other: u32,
)
    requires
        i > 0,
        lowest_free(slots, i - 1),
    ensures
        looked_up(slots, i) is None,
        looked_up(placed(slots, i - 1, handle), i) == Some(handle),
        other != i ==> looked_up(placed(slots, i - 1, handle), other) == looked_up(slots, other),
{
}

} // verus!
