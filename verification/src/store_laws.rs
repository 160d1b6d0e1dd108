//! What holds of the engine, the store and the handles of instances.

use crate::engine::{Engine, StoreId};
use crate::error::Error;
use crate::handle_table::{GuestHandle, HandleTable, HandleType};
use crate::store::{
    ComponentInstanceId, StoreOpaque, TableId, Transmit, TransmitKind, TransmitOrigin,
};
use crate::tables::InstanceType;
use vstd::prelude::*;

verus! {

/// Each store that an engine numbers gets the key of the engine and a number that no other store
/// of the engine gets. The engine stays what it is but for the count.
pub proof fn law_numbers(
    concurrency: bool,
    fresh: Engine,
    asked: &Engine,
    supported: bool,
    engine: &mut Engine,
    first: StoreId,
    later: &mut Engine,
    second: StoreId,
)
    requires
        call_ensures(Engine::new, (concurrency,), fresh),
        call_ensures(Engine::concurrency_support, (asked,), supported),
        call_ensures(Engine::number, (engine,), first),
        old(engine)@.next < u64::MAX,
        old(later)@ == final(engine)@,
        call_ensures(Engine::number, (later,), second),
    ensures
        fresh@.concurrency_support == concurrency,
        fresh@.next == 0,
        supported == asked@.concurrency_support,
        first.engine == old(engine)@.key,
        second.engine == first.engine,
        first.number == old(engine)@.next,
        second.number == first.number + 1,
        final(engine)@.key == old(engine)@.key,
        final(engine)@.concurrency_support == old(engine)@.concurrency_support,
        final(engine)@.next == old(engine)@.next + 1,
{
}

/// A new store is empty, has the name that its engine gave out and supports what its engine
/// supports.
pub proof fn law_new_store(engine: &mut Engine, capacity: usize, store: StoreOpaque)
    requires
        old(engine)@.next < u64::MAX,
        call_ensures(StoreOpaque::new, (engine, capacity), store),
    ensures
        store@.id.engine == old(engine)@.key,
        store@.id.number == old(engine)@.next,
        final(engine)@.next == old(engine)@.next + 1,
        final(engine)@.key == old(engine)@.key,
        store@.concurrency_support == old(engine)@.concurrency_support,
        store@.capacity == capacity,
        store@.live =~= Map::<u64, Transmit>::empty(),
        store@.instances.len() == 0,
        store@.next == 0,
{
}

/// What a store is asked about itself, it answers as it is: whether it supports concurrency, the
/// types and the memory of an instance, and of a handle who made it or that it has none.
pub proof fn law_store_answers(
    store: &StoreOpaque,
    supported: bool,
    i: ComponentInstanceId,
    types: &InstanceType,
    memory: &Vec<u8>,
    id: TableId,
    origin: Result<TransmitOrigin, Error>,
    other: TableId,
    closed: bool,
)
    requires
        store@.wf(),
        call_ensures(StoreOpaque::concurrency_support, (store,), supported),
        call_ensures(StoreOpaque::instance_type, (store, i), types),
        call_ensures(StoreOpaque::memory, (store, i), memory),
        call_ensures(StoreOpaque::transmit_origin, (store, id), origin),
        other.store == store@.id,
        other.rep < store@.next,
        store@.live.contains_key(other.rep) ==> store@.live[other.rep].kind == other.kind,
        call_ensures(StoreOpaque::is_closed, (store, other), closed),
    ensures
        supported == store@.concurrency_support,
        types@ == store@.instances[i.0 as int].env,
        memory@ == store@.instances[i.0 as int].memory,
        origin is Ok <==> ({
            &&& id.store == store@.id
            &&& store@.live.contains_key(id.rep)
            &&& store@.live[id.rep].kind == id.kind
        }),
        origin matches Ok(o) ==> o == store@.live[id.rep].origin,
        origin matches Err(e) ==> e == Error::UnknownHandle,
        closed <==> !store@.live.contains_key(other.rep),
{
}

/// An instance that is added comes last, with its types and its memory and without handles. All
/// else stays.
pub proof fn law_added_instance(
    store: &mut StoreOpaque,
    ty: InstanceType,
    memory: Vec<u8>,
    i: ComponentInstanceId,
    j: int,
)
    requires
        old(store)@.wf(),
        old(store)@.instances.len() < u32::MAX,
        call_ensures(StoreOpaque::add_instance, (store, ty, memory), i),
    ensures
        i.0 == old(store)@.instances.len(),
        final(store)@.instances.len() == i.0 + 1,
        final(store)@.instances[i.0 as int].env == ty@,
        final(store)@.instances[i.0 as int].memory == memory@,
        final(store)@.instances[i.0 as int].handles.len() == 0,
        0 <= j < i.0 ==> final(store)@.instances[j] == old(store)@.instances[j],
        final(store)@.live == old(store)@.live,
        final(store)@.id == old(store)@.id,
        final(store)@.next == old(store)@.next,
        final(store)@.capacity == old(store)@.capacity,
        final(store)@.concurrency_support == old(store)@.concurrency_support,
{
}

/// A future or stream is made if and only if there is room. It gets a name that was never given
/// out, is open under it, of the kind and the origin that were asked for and without a consumer.
/// All others stay, and where there is no room everything does.
pub proof fn law_new_transmit(
    store: &mut StoreOpaque,
    kind: TransmitKind,
    origin: TransmitOrigin,
    r: Result<TableId, Error>,
    rep: u64,
)
    requires
        old(store)@.wf(),
        call_ensures(StoreOpaque::new_transmit, (store, kind, origin), r),
    ensures
        r is Ok <==> old(store)@.live.dom().len() < old(store)@.capacity && old(store)@.next
            < u64::MAX,
        r matches Err(e) ==> e == Error::TableFull && final(store)@ == old(store)@,
        r matches Ok(id) ==> ({
            &&& id.store == old(store)@.id
            &&& id.kind == kind
            &&& !old(store)@.live.contains_key(id.rep)
            &&& old(store)@.next <= id.rep < final(store)@.next
            &&& final(store)@.live.contains_key(id.rep)
            &&& final(store)@.live[id.rep] == Transmit { kind, origin, piped: false }
            &&& rep != id.rep ==> (final(store)@.live.contains_key(rep) <==> old(
                store,
            )@.live.contains_key(rep))
            &&& rep != id.rep && old(store)@.live.contains_key(rep) ==> final(store)@.live[rep]
                == old(store)@.live[rep]
            &&& final(store)@.live.dom().len() == old(store)@.live.dom().len() + 1
            &&& final(store)@.instances == old(store)@.instances
            &&& final(store)@.id == old(store)@.id
            &&& final(store)@.capacity == old(store)@.capacity
            &&& final(store)@.concurrency_support == old(store)@.concurrency_support
        }),
{
}

/// Closing succeeds if and only if the future or stream is open. It is gone then, its room is free,
/// and all else stays.
pub proof fn law_closed(store: &mut StoreOpaque, id: TableId, r: Result<(), Error>, rep: u64)
    requires
        old(store)@.wf(),
        id.store == old(store)@.id,
        id.rep < old(store)@.next,
        old(store)@.live.contains_key(id.rep) ==> old(store)@.live[id.rep].kind == id.kind,
        call_ensures(StoreOpaque::close, (store, id), r),
    ensures
        r is Ok <==> old(store)@.live.contains_key(id.rep),
        r matches Err(e) ==> e == Error::Closed && final(store)@ == old(store)@,
        !final(store)@.live.contains_key(id.rep),
        rep != id.rep ==> (final(store)@.live.contains_key(rep) <==> old(
            store,
        )@.live.contains_key(rep)),
        rep != id.rep && old(store)@.live.contains_key(rep) ==> final(store)@.live[rep] == old(
            store,
        )@.live[rep],
        r is Ok ==> final(store)@.live.dom().len() + 1 == old(store)@.live.dom().len(),
        final(store)@.instances == old(store)@.instances,
        final(store)@.next == old(store)@.next,
        final(store)@.id == old(store)@.id,
        final(store)@.capacity == old(store)@.capacity,
        final(store)@.concurrency_support == old(store)@.concurrency_support,
{
}

/// A future or stream that was closed cannot be closed again nor get a consumer.
pub proof fn law_closed_once(
    store: &mut StoreOpaque,
    id: TableId,
    r: Result<(), Error>,
    later: &mut StoreOpaque,
    again: Result<(), Error>,
    other: &mut StoreOpaque,
    piped: Result<(), Error>,
)
    requires
        old(store)@.wf(),
        id.store == old(store)@.id,
        id.rep < old(store)@.next,
        old(store)@.live.contains_key(id.rep) ==> old(store)@.live[id.rep].kind == id.kind,
        call_ensures(StoreOpaque::close, (store, id), r),
        old(later)@ == final(store)@,
        call_ensures(StoreOpaque::close, (later, id), again),
        old(other)@ == final(store)@,
        call_ensures(StoreOpaque::set_consumer, (other, id), piped),
    ensures
        again matches Err(e) && e == Error::Closed,
        piped matches Err(e) && e == Error::Closed,
        final(later)@ == final(store)@,
        final(other)@ == final(store)@,
{
}

/// A consumer is set if and only if the future or stream is open, which it stays. All else stays
/// too.
pub proof fn law_consumer_set(store: &mut StoreOpaque, id: TableId, r: Result<(), Error>, rep: u64)
    requires
        old(store)@.wf(),
        id.store == old(store)@.id,
        id.rep < old(store)@.next,
        old(store)@.live.contains_key(id.rep) ==> old(store)@.live[id.rep].kind == id.kind,
        call_ensures(StoreOpaque::set_consumer, (store, id), r),
    ensures
        r is Ok <==> old(store)@.live.contains_key(id.rep),
        r matches Err(e) ==> e == Error::Closed && final(store)@ == old(store)@,
        final(store)@.live.contains_key(rep) <==> old(store)@.live.contains_key(rep),
        rep != id.rep && old(store)@.live.contains_key(rep) ==> final(store)@.live[rep] == old(
            store,
        )@.live[rep],
        r is Ok ==> final(store)@.live[id.rep].piped,
        r is Ok ==> final(store)@.live[id.rep].kind == old(store)@.live[id.rep].kind,
        r is Ok ==> final(store)@.live[id.rep].origin == old(store)@.live[id.rep].origin,
        final(store)@.instances == old(store)@.instances,
        final(store)@.next == old(store)@.next,
        final(store)@.id == old(store)@.id,
        final(store)@.capacity == old(store)@.capacity,
        final(store)@.concurrency_support == old(store)@.concurrency_support,
{
}

/// A handle gets the lowest index that is free, unless there are no more indices, and is found
/// there. Every other index keeps what it refers to.
pub proof fn law_table_insert(
    table: &mut HandleTable,
    handle: GuestHandle,
    r: Option<u32>,
    later: &HandleTable,
    index: u32,
    found: Option<GuestHandle>,
)
    requires
        old(table)@.len() <= 0x0fff_ffff,
        call_ensures(HandleTable::insert, (table, handle), r),
        later@ == final(table)@,
        call_ensures(HandleTable::get, (later, index), found),
    ensures
        r is None <==> old(table)@.len() == 0x0fff_ffff && (forall|j: int|
            0 <= j < old(table)@.len() ==> #[trigger] old(table)@[j] is Some),
        r is None ==> final(table)@ == old(table)@,
        r matches Some(n) ==> ({
            &&& 0 < n <= old(table)@.len() + 1
            &&& n <= old(table)@.len() ==> old(table)@[n - 1] is None
            &&& forall|j: int| 0 <= j < n - 1 ==> #[trigger] old(table)@[j] is Some
            &&& index == n ==> found == Some(handle)
            &&& index != n && 0 < index <= old(table)@.len() ==> found == old(table)@[index - 1]
            &&& index != n && (index == 0 || index > old(table)@.len()) ==> found is None
        }),
{
}

/// An index whose handle was taken out refers to nothing. Every other index keeps what it refers
/// to.
pub proof fn law_table_remove(
    table: &mut HandleTable,
    index: u32,
    done: (),
    later: &HandleTable,
    other: u32,
    found: Option<GuestHandle>,
)
    requires
        0 < index <= old(table)@.len(),
        call_ensures(HandleTable::remove, (table, index), done),
        later@ == final(table)@,
        call_ensures(HandleTable::get, (later, other), found),
    ensures
        other == index ==> found is None,
        other != index && 0 < other <= old(table)@.len() ==> found == old(table)@[other - 1],
        other == 0 || other > old(table)@.len() ==> found is None,
{
}

/// Handing a readable end to an instance succeeds if and only if the end is open and the instance
/// has room. The instance then has a handle to it at the lowest index that was free, as what it
/// knows the end. All else stays, and where it does not succeed everything does.
pub proof fn law_store_lower(
    store: &mut StoreOpaque,
    id: TableId,
    i: ComponentInstanceId,
    ty: HandleType,
    r: Result<u32, Error>,
    j: int,
)
    requires
        old(store)@.wf(),
        i.0 < old(store)@.instances.len(),
        call_ensures(StoreOpaque::lower_to_index, (store, id, i, ty), r),
    ensures
        ({
            let before = old(store)@;
            let after = final(store)@;
            let handles = before.instances[i.0 as int].handles;
            let open = id.store == before.id && before.live.contains_key(id.rep)
                && before.live[id.rep].kind == id.kind;
            let room = handles.len() < 0x0fff_ffff || exists|k: int|
                0 <= k < handles.len() && #[trigger] handles[k] is None;
            &&& r is Ok <==> open && room
            &&& !open ==> r == Err::<u32, Error>(Error::UnknownHandle)
            &&& open && !room ==> r == Err::<u32, Error>(Error::TableFull)
            &&& r is Err ==> after == before
            &&& after.live == before.live
            &&& after.id == before.id
            &&& after.next == before.next
            &&& after.capacity == before.capacity
            &&& after.concurrency_support == before.concurrency_support
            &&& after.instances.len() == before.instances.len()
            &&& 0 <= j < before.instances.len() && j != i.0 ==> after.instances[j]
                == before.instances[j]
            &&& after.instances[i.0 as int].env == before.instances[i.0 as int].env
            &&& after.instances[i.0 as int].memory == before.instances[i.0 as int].memory
            &&& r matches Ok(n) ==> ({
                let now = after.instances[i.0 as int].handles;
                &&& 0 < n <= handles.len() + 1
                &&& n <= handles.len() ==> handles[n - 1] is None
                &&& forall|k: int| 0 <= k < n - 1 ==> #[trigger] handles[k] is Some
                &&& n <= now.len()
                &&& now[n - 1] == Some(GuestHandle { ty, id })
                &&& 0 <= j < handles.len() && j != n - 1 ==> j < now.len() && now[j] == handles[j]
                &&& handles.len() <= now.len() <= handles.len() + 1
            })
        }),
{
}

/// A handle is taken back from an instance if and only if the instance has it at the index, knows
/// it as what it is asked for, and its end is open. If the instance knows it as that, the index
/// then refers to nothing. All else stays.
pub proof fn law_store_lift(
    store: &mut StoreOpaque,
    i: ComponentInstanceId,
    ty: HandleType,
    index: u32,
    r: Result<TableId, Error>,
    j: int,
)
    requires
        old(store)@.wf(),
        i.0 < old(store)@.instances.len(),
        call_ensures(StoreOpaque::lift_from_index, (store, i, ty, index), r),
    ensures
        ({
            let before = old(store)@;
            let after = final(store)@;
            let handles = before.instances[i.0 as int].handles;
            let now = after.instances[i.0 as int].handles;
            let held = 0 < index <= handles.len() && handles[index - 1] is Some && handles[index
                - 1]->0.ty == ty;
            let id = handles[index - 1]->0.id;
            let open = id.store == before.id && before.live.contains_key(id.rep)
                && before.live[id.rep].kind == id.kind;
            &&& held && open ==> r == Ok::<TableId, Error>(id)
            &&& held && !open ==> r == Err::<TableId, Error>(Error::UnknownHandle)
            &&& !held ==> r == Err::<TableId, Error>(Error::UnknownIndex) && after == before
            &&& after.live == before.live
            &&& after.id == before.id
            &&& after.next == before.next
            &&& after.capacity == before.capacity
            &&& after.concurrency_support == before.concurrency_support
            &&& after.instances.len() == before.instances.len()
            &&& 0 <= j < before.instances.len() && j != i.0 ==> after.instances[j]
                == before.instances[j]
            &&& after.instances[i.0 as int].env == before.instances[i.0 as int].env
            &&& after.instances[i.0 as int].memory == before.instances[i.0 as int].memory
            &&& now.len() == handles.len()
            &&& held ==> now[index - 1] is None
            &&& 0 <= j < handles.len() && j != index - 1 ==> now[j] == handles[j]
        }),
{
}

/// A number that was written to the memory of an instance is read back from the four bytes at its
/// place, the lowest byte first. Every other byte, and all else, stays.
pub proof fn law_written(
    store: &mut StoreOpaque,
    i: ComponentInstanceId,
    offset: usize,
    value: u32,
    done: (),
    k: int,
    j: int,
)
    requires
        old(store)@.wf(),
        i.0 < old(store)@.instances.len(),
        offset + 4 <= old(store)@.instances[i.0 as int].memory.len(),
        call_ensures(StoreOpaque::write_u32, (store, i, offset, value), done),
    ensures
        ({
            let before = old(store)@;
            let after = final(store)@;
            let memory = before.instances[i.0 as int].memory;
            let now = after.instances[i.0 as int].memory;
            &&& now.len() == memory.len()
            &&& vstd::bytes::spec_u32_from_le_bytes(now.subrange(offset as int, offset + 4))
                == value
            &&& 0 <= k < memory.len() && !(offset <= k < offset + 4) ==> now[k] == memory[k]
            &&& after.instances[i.0 as int].env == before.instances[i.0 as int].env
            &&& after.instances[i.0 as int].handles == before.instances[i.0 as int].handles
            &&& after.instances.len() == before.instances.len()
            &&& 0 <= j < before.instances.len() && j != i.0 ==> after.instances[j]
                == before.instances[j]
            &&& after.live == before.live
            &&& after.id == before.id
            &&& after.next == before.next
            &&& after.capacity == before.capacity
            &&& after.concurrency_support == before.concurrency_support
        }),
{
    vstd::bytes::lemma_auto_spec_u32_to_from_le_bytes();
    let bytes = vstd::bytes::spec_u32_to_le_bytes(value);
    let now = final(store)@.instances[i.0 as int].memory;
    assert(now.subrange(offset as int, offset + 4) =~= bytes);
}

} // verus!
