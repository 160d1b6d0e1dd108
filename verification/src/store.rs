//! The store: what owns the futures, the streams and the component instances.

use crate::engine::{Engine, StoreId};
use crate::error::Error;
use crate::handle_table::{GuestHandle, HandleTable, HandleType};
use crate::tables::InstanceType;
use crate::types::{TypeEnv, TypeFutureTableIndex, TypeStreamTableIndex};
use std::collections::HashMap;
use vstd::prelude::*;

verus! {

/// Names a handle to a future or stream. No two handles of a store have one name, also not one
/// after the other.
#[derive(Clone, Copy, PartialEq, Eq, Structural, Debug)]
pub struct TableId {
    pub store: StoreId,
    pub rep: u64,
    /// What the handle is to.
    pub kind: TransmitKind,
}

/// Whether a handle is to a stream or to a future.
#[derive(Clone, Copy, PartialEq, Eq, Structural, Debug)]
pub enum TransmitKind {
    Stream,
    Future,
}

/// Names a component instance of a store.
#[derive(Clone, Copy, PartialEq, Eq, Structural, Debug)]
pub struct ComponentInstanceId(pub u32);

/// Who made a future or stream: the host, or an instance that knows it by a type of its own.
#[derive(Clone, Copy, PartialEq, Eq, Structural, Debug)]
pub enum TransmitOrigin {
    Host,
    GuestFuture(ComponentInstanceId, TypeFutureTableIndex),
    GuestStream(ComponentInstanceId, TypeStreamTableIndex),
}

/// A future or stream whose readable end is open.
#[derive(Clone, Copy, PartialEq, Eq, Structural, Debug)]
pub struct Transmit {
    pub kind: TransmitKind,
    pub origin: TransmitOrigin,
    /// Whether a consumer was set.
    pub piped: bool,
}

/// A component instance: its types, its handles and its linear memory.
pub struct ComponentInstance {
    pub ty: InstanceType,
    pub handles: HandleTable,
    pub memory: Vec<u8>,
}

/// What a component instance holds.
pub struct InstanceModel {
    pub env: TypeEnv,
    pub handles: Seq<Option<GuestHandle>>,
    pub memory: Seq<u8>,
}

impl InstanceModel {
    pub open spec fn wf(self) -> bool {
        &&& self.env.wf()
        &&& self.handles.len() <= crate::handle_table::MAX_HANDLES
        &&& crate::handle_table::kinds_agree(self.handles)
    }
}

impl View for ComponentInstance {
    type V = InstanceModel;

    open spec fn view(&self) -> InstanceModel {
        InstanceModel { env: self.ty@, handles: self.handles@, memory: self.memory@ }
    }
}

/// What a store holds.
pub struct StoreModel {
    pub id: StoreId,
    pub concurrency_support: bool,
    /// How many readable ends can be open at a time.
    pub capacity: nat,
    /// The name of the next handle.
    pub next: u64,
    /// The futures and streams whose readable end is open, by the names of the handles.
    pub live: Map<u64, Transmit>,
    pub instances: Seq<InstanceModel>,
}

impl StoreModel {
    pub open spec fn has_instance(self, i: ComponentInstanceId) -> bool {
        i.0 < self.instances.len()
    }

    pub open spec fn instance(self, i: ComponentInstanceId) -> InstanceModel {
        self.instances[i.0 as int]
    }

    /// Whether a future or stream of this kind can have this origin: an instance that makes a
    /// future makes it as a future of one of its types, and so for a stream.
    pub open spec fn has_origin(self, kind: TransmitKind, origin: TransmitOrigin) -> bool {
        match origin {
            TransmitOrigin::Host => true,
            TransmitOrigin::GuestFuture(i, ty) => kind == TransmitKind::Future && self.has_instance(
                i,
            ) && self.instance(i).env.table.has_future_table(ty),
            TransmitOrigin::GuestStream(i, ty) => kind == TransmitKind::Stream && self.has_instance(
                i,
            ) && self.instance(i).env.table.has_stream_table(ty),
        }
    }

    pub open spec fn wf(self) -> bool {
        &&& self.live.dom().finite()
        &&& self.live.len() <= self.capacity
        &&& forall|rep: u64| #[trigger]
            self.live.contains_key(rep) ==> rep < self.next && self.has_origin(
                self.live[rep].kind,
                self.live[rep].origin,
            )
        &&& self.instances.len() <= u32::MAX
        &&& forall|i: int| 0 <= i < self.instances.len() ==> (#[trigger] self.instances[i]).wf()
    }

    /// Whether `id` is a name that this store gave out. If what it names is open, the name says of
    /// what kind that is.
    pub open spec fn owns(self, id: TableId) -> bool {
        &&& id.store == self.id
        &&& id.rep < self.next
        &&& self.live.contains_key(id.rep) ==> self.live[id.rep].kind == id.kind
    }

    /// The open future or stream with handle `id`, `None` if there is none.
    pub open spec fn transmit(self, id: TableId) -> Option<Transmit> {
        if id.store == self.id && self.live.contains_key(id.rep) && self.live[id.rep].kind
            == id.kind {
            Some(self.live[id.rep])
        } else {
            None
        }
    }

    /// Whether `id` is the handle of a future or stream that was closed.
    pub open spec fn closed(self, id: TableId) -> bool {
        self.owns(id) && self.transmit(id) is None
    }

    /// Whether this can be what `before` has become: it is the same store, its instances are
    /// those that it had and maybe more, with the types that they had, and the futures and
    /// streams that it had are what they were or are closed. What was closed is closed.
    pub open spec fn later(self, before: StoreModel) -> bool {
        &&& self.id == before.id
        &&& self.concurrency_support == before.concurrency_support
        &&& self.capacity == before.capacity
        &&& self.next >= before.next
        &&& self.instances.len() >= before.instances.len()
        &&& forall|i: int|
            0 <= i < before.instances.len() ==> (#[trigger] self.instances[i]).env
                == before.instances[i].env
        &&& forall|id: TableId|
            before.owns(id) ==> self.owns(id) && match #[trigger] self.transmit(id) {
                Some(t) => before.transmit(id) matches Some(u) && t.kind == u.kind && t.origin
                    == u.origin,
                None => true,
            }
    }

    /// Whether there is no room for another handle.
    pub open spec fn full(self) -> bool {
        self.live.len() >= self.capacity || self.next == u64::MAX
    }

    /// The handle that a new future or stream gets.
    pub open spec fn fresh(self, kind: TransmitKind) -> TableId {
        TableId { store: self.id, rep: self.next, kind }
    }

    /// The store with one more future or stream.
    pub open spec fn allocated(self, kind: TransmitKind, origin: TransmitOrigin) -> StoreModel {
        StoreModel {
            next: (self.next + 1) as u64,
            live: self.live.insert(self.next, Transmit { kind, origin, piped: false }),
            ..self
        }
    }

    /// The store in which a consumer is set for the future or stream with handle `id`.
    pub open spec fn piped(self, id: TableId) -> StoreModel {
        StoreModel {
            live: self.live.insert(id.rep, Transmit { piped: true, ..self.live[id.rep] }),
            ..self
        }
    }

    /// The store in which the future or stream with handle `id` is closed.
    pub open spec fn without(self, id: TableId) -> StoreModel {
        StoreModel { live: self.live.remove(id.rep), ..self }
    }

    /// The store in which instance `i` is `instance`.
    pub open spec fn with_instance(
        self,
        i: ComponentInstanceId,
        instance: InstanceModel,
    ) -> StoreModel {
        StoreModel { instances: self.instances.update(i.0 as int, instance), ..self }
    }

    /// The store in which instance `i` has the handles `handles`.
    pub open spec fn with_handles(
        self,
        i: ComponentInstanceId,
        handles: Seq<Option<GuestHandle>>,
    ) -> StoreModel {
        self.with_instance(i, InstanceModel { handles, ..self.instance(i) })
    }

    /// Whether handing the readable end with handle `id` to instance `i`, which knows it as
    /// `ty`, gives `r` and makes this store `after`: the instance gets a handle at the lowest
    /// free index, unless the end is not open or the instance has no room.
    pub open spec fn lowers(
        self,
        id: TableId,
        i: ComponentInstanceId,
        ty: HandleType,
        after: StoreModel,
        r: Result<u32, Error>,
    ) -> bool {
        let handles = self.instance(i).handles;
        if self.transmit(id) is None {
            r == Err::<u32, Error>(Error::UnknownHandle) && after == self
        } else if crate::handle_table::table_full(handles) {
            r == Err::<u32, Error>(Error::TableFull) && after == self
        } else {
            &&& r matches Ok(index)
            &&& index > 0
            &&& crate::handle_table::lowest_free(handles, index - 1)
            &&& after == self.with_handles(
                i,
                crate::handle_table::placed(handles, index - 1, GuestHandle { ty, id }),
            )
        }
    }

    /// What taking back the handle at `index` from instance `i` gives, if the instance knows it
    /// as `ty`.
    pub open spec fn lifted(
        self,
        i: ComponentInstanceId,
        ty: HandleType,
        index: u32,
    ) -> Result<TableId, Error> {
        match crate::handle_table::looked_up(self.instance(i).handles, index) {
            Some(handle) => if handle.ty != ty {
                Err(Error::UnknownIndex)
            } else if self.transmit(handle.id) is None {
                Err(Error::UnknownHandle)
            } else {
                Ok(handle.id)
            },
            None => Err(Error::UnknownIndex),
        }
    }

    /// The store after instance `i` was asked to give back the handle at `index`, which it does
    /// if it knows it as `ty`.
    pub open spec fn after_lift(
        self,
        i: ComponentInstanceId,
        ty: HandleType,
        index: u32,
    ) -> StoreModel {
        match crate::handle_table::looked_up(self.instance(i).handles, index) {
            Some(handle) => if handle.ty != ty {
                self
            } else {
                self.with_handles(i, self.instance(i).handles.update(index - 1, None))
            },
            None => self,
        }
    }

    /// The store in which instance `i` has the memory `memory`.
    pub open spec fn with_memory(self, i: ComponentInstanceId, memory: Seq<u8>) -> StoreModel {
        self.with_instance(i, InstanceModel { memory, ..self.instance(i) })
    }
}

/// The part of a store that does not depend on the host's data.
pub struct StoreOpaque {
    id: StoreId,
    concurrency_support: bool,
    capacity: usize,
    next: u64,
    live: HashMap<u64, Transmit>,
    instances: Vec<ComponentInstance>,
}

impl View for StoreOpaque {
    type V = StoreModel;

    closed spec fn view(&self) -> StoreModel {
        StoreModel {
            id: self.id,
            concurrency_support: self.concurrency_support,
            capacity: self.capacity as nat,
            next: self.next,
            live: self.live@,
            instances: Seq::new(self.instances@.len(), |i: int| self.instances@[i]@),
        }
    }
}

impl StoreOpaque {
    pub open spec fn wf(self) -> bool {
        self@.wf()
    }

    /// A store of `engine` without futures, streams and instances, in which `capacity` readable
    /// ends can be open at a time.
    pub fn new(engine: &mut Engine, capacity: usize) -> (r: StoreOpaque)
        requires
            old(engine)@.has_room(),
        ensures
            final(engine)@ == old(engine)@.numbered(),
            r.wf(),
            r@ == (StoreModel {
                id: old(engine)@.fresh(),
                concurrency_support: old(engine)@.concurrency_support,
                capacity: capacity as nat,
                next: 0,
                live: Map::empty(),
                instances: Seq::empty(),
            }),
    {
        let r = StoreOpaque {
            id: engine.number(),
            concurrency_support: engine.concurrency_support(),
            capacity,
            next: 0,
            live: HashMap::new(),
            instances: Vec::new(),
        };
        assert(r@.instances =~= Seq::empty());
        r
    }

    /// Whether the store supports concurrency, and so futures and streams of the host.
    pub fn concurrency_support(&self) -> (r: bool)
        ensures
            r == self@.concurrency_support,
    {
        self.concurrency_support
    }

    /// Adds a component instance without handles.
    pub fn add_instance(&mut self, ty: InstanceType, memory: Vec<u8>) -> (r: ComponentInstanceId)
        requires
            old(self).wf(),
            old(self)@.instances.len() < u32::MAX,
        ensures
            final(self).wf(),
            r == ComponentInstanceId(old(self)@.instances.len() as u32),
            final(self)@ == (StoreModel {
                instances: old(self)@.instances.push(
                    InstanceModel { env: ty@, handles: Seq::empty(), memory: memory@ },
                ),
                ..old(self)@
            }),
    {
        proof {
            use_type_invariant(&ty);
        }
        let r = ComponentInstanceId(self.instances.len() as u32);
        self.instances.push(ComponentInstance { ty, handles: HandleTable::new(), memory });
        assert(self@.instances =~= old(self)@.instances.push(
            InstanceModel { env: ty@, handles: Seq::empty(), memory: memory@ },
        ));
        r
    }

    /// The types of an instance.
    pub fn instance_type(&self, i: ComponentInstanceId) -> (r: &InstanceType)
        requires
            self@.has_instance(i),
        ensures
            r@ == self@.instance(i).env,
    {
        &self.instances[i.0 as usize].ty
    }

    /// Makes a future or stream with its readable end open.
    pub fn new_transmit(&mut self, kind: TransmitKind, origin: TransmitOrigin) -> (r: Result<
        TableId,
        Error,
    >)
        requires
            old(self).wf(),
            old(self)@.has_origin(kind, origin),
        ensures
            final(self).wf(),
            old(self)@.full() ==> r == Err::<TableId, Error>(Error::TableFull) && final(self)@
                == old(self)@,
            !old(self)@.full() ==> {
                &&& r == Ok::<TableId, Error>(old(self)@.fresh(kind))
                &&& final(self)@ == old(self)@.allocated(kind, origin)
            },
    {
        broadcast use vstd::std_specs::hash::group_hash_axioms;

        if self.live.len() >= self.capacity || self.next == u64::MAX {
            return Err(Error::TableFull);
        }
        let rep = self.next;
        self.next = rep + 1;
        self.live.insert(rep, Transmit { kind, origin, piped: false });
        Ok(TableId { store: self.id, rep, kind })
    }

    /// Who made the open future or stream with handle `id`.
    pub fn transmit_origin(&self, id: TableId) -> (r: Result<TransmitOrigin, Error>)
        ensures
            r == (match self@.transmit(id) {
                Some(transmit) => Ok::<TransmitOrigin, Error>(transmit.origin),
                None => Err(Error::UnknownHandle),
            }),
    {
        broadcast use vstd::std_specs::hash::group_hash_axioms;

        if id.store != self.id {
            return Err(Error::UnknownHandle);
        }
        match self.live.get(&id.rep) {
            Some(transmit) => if transmit.kind == id.kind {
                Ok(transmit.origin)
            } else {
                Err(Error::UnknownHandle)
            },
            None => Err(Error::UnknownHandle),
        }
    }

    /// Whether the future or stream with handle `id` was closed.
    pub fn is_closed(&self, id: TableId) -> (r: bool)
        requires
            self@.owns(id),
        ensures
            r == self@.closed(id),
    {
        broadcast use vstd::std_specs::hash::group_hash_axioms;

        !self.live.contains_key(&id.rep)
    }

    /// Notes that a consumer was set for the future or stream with handle `id`.
    pub fn set_consumer(&mut self, id: TableId) -> (r: Result<(), Error>)
        requires
            old(self).wf(),
            old(self)@.owns(id),
        ensures
            final(self).wf(),
            old(self)@.closed(id) ==> r == Err::<(), Error>(Error::Closed) && final(self)@ == old(
                self,
            )@,
            !old(self)@.closed(id) ==> r == Ok::<(), Error>(()) && final(self)@ == old(self)@.piped(
                id,
            ),
    {
        broadcast use vstd::std_specs::hash::group_hash_axioms;

        let transmit = match self.live.get(&id.rep) {
            Some(transmit) => *transmit,
            None => {
                return Err(Error::Closed);
            },
        };
        self.live.insert(id.rep, Transmit { piped: true, ..transmit });
        assert(self.live@.dom() =~= old(self).live@.dom());
        Ok(())
    }

    /// Closes the future or stream with handle `id`, which frees the room that it took.
    pub fn close(&mut self, id: TableId) -> (r: Result<(), Error>)
        requires
            old(self).wf(),
            old(self)@.owns(id),
        ensures
            final(self).wf(),
            old(self)@.closed(id) ==> r == Err::<(), Error>(Error::Closed) && final(self)@ == old(
                self,
            )@,
            !old(self)@.closed(id) ==> r == Ok::<(), Error>(()) && final(self)@ == old(
                self,
            )@.without(id),
    {
        broadcast use vstd::std_specs::hash::group_hash_axioms;

        match self.live.remove(&id.rep) {
            Some(_) => Ok(()),
            None => {
                assert(self.live@ =~= old(self).live@);
                Err(Error::Closed)
            },
        }
    }

    /// Hands the readable end with handle `id` to instance `i`, which knows it as `ty`, and
    /// returns the index of the handle that the instance gets.
    pub fn lower_to_index(&mut self, id: TableId, i: ComponentInstanceId, ty: HandleType) -> (r:
        Result<u32, Error>)
        requires
            old(self).wf(),
            old(self)@.has_instance(i),
            ty.kind() == id.kind,
        ensures
            final(self).wf(),
            old(self)@.lowers(id, i, ty, final(self)@, r),
    {
        if let Err(error) = self.transmit_origin(id) {
            return Err(error);
        }
        let ghost before = self@.instance(i);
        assert(self@.instances[i.0 as int] == before);
        match self.instances[i.0 as usize].handles.insert(GuestHandle { ty, id }) {
            Some(index) => {
                proof {
                    let handles = crate::handle_table::placed(
                        before.handles,
                        index - 1,
                        GuestHandle { ty, id },
                    );
                    assert(self@.instances =~= old(self)@.with_handles(i, handles).instances);
                }
                Ok(index)
            },
            None => {
                assert(self@.instances =~= old(self)@.instances);
                Err(Error::TableFull)
            },
        }
    }

    /// Takes back the readable end whose handle instance `i` has at `index`, if the instance
    /// knows it as `ty`.
    pub fn lift_from_index(&mut self, i: ComponentInstanceId, ty: HandleType, index: u32) -> (r:
        Result<TableId, Error>)
        requires
            old(self).wf(),
            old(self)@.has_instance(i),
        ensures
            final(self).wf(),
            r == old(self)@.lifted(i, ty, index),
            final(self)@ == old(self)@.after_lift(i, ty, index),
    {
        let ghost before = self@.instance(i);
        assert(self@.instances[i.0 as int] == before);
        match self.instances[i.0 as usize].handles.get(index) {
            Some(handle) => {
                if handle.ty != ty {
                    return Err(Error::UnknownIndex);
                }
                self.instances[i.0 as usize].handles.remove(index);
                assert(self@.instances =~= old(self)@.after_lift(i, ty, index).instances);
                match self.transmit_origin(handle.id) {
                    Ok(_) => Ok(handle.id),
                    Err(error) => Err(error),
                }
            },
            None => Err(Error::UnknownIndex),
        }
    }

    /// Writes a number into the memory of an instance, the lowest byte first.
    pub fn write_u32(&mut self, i: ComponentInstanceId, offset: usize, value: u32)
        requires
            old(self).wf(),
            old(self)@.has_instance(i),
            offset + 4 <= old(self)@.instance(i).memory.len(),
        ensures
            final(self).wf(),
            final(self)@ == old(self)@.with_memory(
                i,
                overwritten(
                    old(self)@.instance(i).memory,
                    offset as int,
                    vstd::bytes::spec_u32_to_le_bytes(value),
                ),
            ),
    {
        let bytes = vstd::bytes::u32_to_le_bytes(value);
        let ghost before = self@.instance(i);
        assert(self@.instances[i.0 as int] == before);
        let memory = &mut self.instances[i.0 as usize].memory;
        let end: usize = memory.len();
        assert(offset + 4 <= end);
        memory.set(offset, bytes[0]);
        memory.set(offset + 1, bytes[1]);
        memory.set(offset + 2, bytes[2]);
        memory.set(offset + 3, bytes[3]);
        proof {
            let memory = overwritten(before.memory, offset as int, bytes@);
            assert(self@.instance(i).memory =~= memory);
            assert(self@.instances =~= old(self)@.with_memory(i, memory).instances);
        }
    }

    /// The memory of an instance.
    pub fn memory(&self, i: ComponentInstanceId) -> (r: &Vec<u8>)
        requires
            self@.has_instance(i),
        ensures
            r@ == self@.instance(i).memory,
    {
        &self.instances[i.0 as usize].memory
    }
}

/// `memory` with `bytes` at `offset`.
pub open spec fn overwritten(memory: Seq<u8>, offset: int, bytes: Seq<u8>) -> Seq<u8> {
    Seq::new(
        memory.len(),
        |k: int|
            if offset <= k < offset + bytes.len() {
                bytes[k - offset]
            } else {
                memory[k]
            },
    )
}

/// A store with data of the host.
pub struct Store<D> {
    pub data: D,
    pub opaque: StoreOpaque,
}

impl<D> View for Store<D> {
    type V = StoreModel;

    open spec fn view(&self) -> StoreModel {
        self.opaque@
    }
}

impl<D> Store<D> {
    pub open spec fn wf(self) -> bool {
        self.opaque.wf()
    }
}

} // verus!
