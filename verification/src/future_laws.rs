//! What holds of handles to futures of a payload type that is not known ahead of time.

use crate::component_type::ComponentType;
use crate::error::Error;
use crate::future_any::FutureAny;
use crate::future_end::{Consumer, Producer};
use crate::handle_table::{GuestHandle, HandleType};
use crate::payload::PayloadType;
use crate::reader::FutureReader;
use crate::store::{
    ComponentInstanceId, Store, StoreModel, StoreOpaque, TableId, Transmit, TransmitKind,
    TransmitOrigin,
};
use crate::transmit::{FutureAnyConsumer, FutureAnyProducer, HostReader, HostWriter};
use crate::types::{
    DefModel, InterfaceType, TypeEnv, TypeFuture, TypeFutureIndex, TypeFutureTable,
    TypeFutureTableIndex,
};
use vstd::prelude::*;

verus! {

/// A future is read as one of the Rust type `T` if and only if `T` is the type of its payload. For
/// a future of an instance that is that `T` stands for the payload that the instance says, or is
/// the unit type if there is none; for one of the host, that the payload was noted to be a `T`. A
/// future of no known payload is never read. The reader has the handle.
pub proof fn law_future_read<T: ComponentType + 'static>(any: FutureAny, r: Result<
    FutureReader<T>,
    Error,
>)
    requires
        call_ensures(FutureAny::try_into_future_reader::<T>, (any,), r),
    ensures
        r matches Ok(reader) ==> reader.handle() == any.handle(),
        any.payload() matches PayloadType::Guest(t) ==> ({
            &&& t@.payload matches Some(ty) ==> ({
                &&& r is Ok <==> T::spec_typecheck(ty, t@.env) is Ok
                &&& r matches Err(e) ==> T::spec_typecheck(ty, t@.env) == Err::<(), Error>(e)
            })
            &&& t@.payload is None ==> (r is Ok <==> T::spec_is_unit())
            &&& t@.payload is None ==> (r matches Err(e) ==> e == Error::PayloadTypesDiffer)
        }),
        any.payload() matches PayloadType::Host { id, .. } ==> ({
            &&& r is Ok <==> id == T::spec_type_id()
            &&& r matches Err(e) ==> e == Error::PayloadTypesDiffer
        }),
        any.payload() is Val ==> (r matches Err(e) && e == Error::PayloadTypesDiffer),
{
}

/// A future of an instance is read as one of `()` if and only if the instance says that it has no
/// payload or the tuple without parts, and as one of `u32` if and only if it says `u32`. So what
/// is read as the one is never read as the other.
pub proof fn law_future_read_as(
    any: FutureAny,
    unit: Result<FutureReader<()>, Error>,
    number: Result<FutureReader<u32>, Error>,
)
    requires
        any.wf(),
        any.payload() is Guest,
        call_ensures(FutureAny::try_into_future_reader::<()>, (any,), unit),
        call_ensures(FutureAny::try_into_future_reader::<u32>, (any,), number),
    ensures
        number is Ok <==> any.payload()->Guest_0@.payload == Some(InterfaceType::U32),
        ({
            let known = any.payload()->Guest_0@;
            unit is Ok <==> match known.payload {
                None => true,
                Some(InterfaceType::Tuple(i)) => known.env.table.defs[i.0 as int] matches
                DefModel::Compound(c) && c.parts.len() == 0,
                Some(_) => false,
            }
        }),
        !(unit is Ok && number is Ok),
{
}

/// A reader's type is erased if and only if the reader is of a future that the store has open. The
/// handle stays. Of a future of the host the Rust type is noted, and of one of an instance what
/// the instance says of it.
pub proof fn law_future_erased<D, T: ComponentType + 'static>(
    store: &Store<D>,
    reader: FutureReader<T>,
    r: Result<FutureAny, Error>,
    i: ComponentInstanceId,
    table: TypeFutureTableIndex,
    ty: TypeFutureIndex,
    payload: Option<InterfaceType>,
    outcome: Option<InterfaceType>,
)
    requires
        store@.wf(),
        call_ensures(FutureAny::try_from_future_reader::<D, T>, (store, reader), r),
        store@.instances[i.0 as int].env.table.defs[table.0 as int] == DefModel::FutureTable(
            TypeFutureTable { ty },
        ),
        store@.instances[i.0 as int].env.table.defs[ty.0 as int] == DefModel::Future(
            TypeFuture { payload },
        ),
    ensures
        ({
            let id = reader.handle();
            let open = id.store == store@.id && store@.live.contains_key(id.rep)
                && store@.live[id.rep].kind == id.kind;
            &&& r is Ok <==> open && id.kind == TransmitKind::Future
            &&& !open ==> r == Err::<FutureAny, Error>(Error::UnknownHandle)
            &&& open && id.kind != TransmitKind::Future ==> r == Err::<FutureAny, Error>(
                Error::NotAFuture,
            )
            &&& r matches Ok(any) ==> ({
                &&& any.handle() == id
                &&& store@.live[id.rep].origin is Host ==> (any.payload() matches
                PayloadType::Host { id: noted, typecheck } && noted == T::spec_type_id()
                    && match outcome {
                    Some(x) => typecheck.outcome(outcome, store@.instances[i.0 as int].env)
                        == T::spec_typecheck(x, store@.instances[i.0 as int].env),
                    None => typecheck.outcome(outcome, store@.instances[i.0 as int].env) is Ok
                        <==> T::spec_is_unit(),
                })
                &&& store@.live[id.rep].origin == TransmitOrigin::GuestFuture(i, table) ==> ({
                    &&& any.payload() matches PayloadType::Guest(t)
                    &&& t@.env == store@.instances[i.0 as int].env
                    &&& t@.payload == payload
                })
            })
        }),
{
    if store@.transmit(reader.handle()) is Some {
        assert(store@.live.contains_key(reader.handle().rep));
    }
}

/// A future of the host whose type was erased is read again as what it was, and as nothing else.
pub proof fn law_future_erased_and_read<D, T: ComponentType + 'static, U: ComponentType + 'static>(
    store: &Store<D>,
    reader: FutureReader<T>,
    any: FutureAny,
    same: Result<FutureReader<T>, Error>,
    other: Result<FutureReader<U>, Error>,
)
    requires
        store@.wf(),
        call_ensures(
            FutureAny::try_from_future_reader::<D, T>,
            (store, reader),
            Ok::<FutureAny, Error>(any),
        ),
        store@.live[reader.handle().rep].origin is Host,
        call_ensures(FutureAny::try_into_future_reader::<T>, (any,), same),
        call_ensures(FutureAny::try_into_future_reader::<U>, (any,), other),
    ensures
        same matches Ok(again) && again.handle() == reader.handle(),
        other is Ok <==> U::spec_type_id() == T::spec_type_id(),
{
}

/// A future is made if and only if the store supports concurrency and has room. It gets a name
/// that was never given out and is open, of the host and without a consumer. The producer comes
/// back with the name. If it makes the unit value alone, `()` is noted for the payload, and
/// nothing otherwise. All else stays, and where no future is made everything does.
pub proof fn law_future_made<D, P: FutureAnyProducer<D>>(
    store: &mut Store<D>,
    producer: P,
    r: Result<(FutureAny, HostWriter<Producer<P>>), Error>,
    rep: u64,
    x: InterfaceType,
    env: TypeEnv,
)
    requires
        old(store)@.wf(),
        call_ensures(FutureAny::new::<D, P>, (store, producer), r),
    ensures
        ({
            let before = old(store)@;
            let after = final(store)@;
            let room = before.live.dom().len() < before.capacity && before.next < u64::MAX;
            &&& final(store).data == old(store).data
            &&& r is Ok <==> before.concurrency_support && room
            &&& !before.concurrency_support ==> (r matches Err(e) && e
                == Error::ConcurrencyDisabled)
            &&& before.concurrency_support && !room ==> (r matches Err(e) && e == Error::TableFull)
            &&& r is Err ==> after == before
            &&& r matches Ok((any, writer)) ==> ({
                let id = any.handle();
                &&& id.store == before.id
                &&& id.kind == TransmitKind::Future
                &&& before.next <= id.rep < after.next
                &&& !before.live.contains_key(id.rep)
                &&& after.live.contains_key(id.rep)
                &&& after.live[id.rep] == Transmit {
                    kind: TransmitKind::Future,
                    origin: TransmitOrigin::Host,
                    piped: false,
                }
                &&& writer.id == id
                &&& writer.kind == TransmitKind::Future
                &&& writer.producer.0 == producer
                &&& producer.unit_only() ==> (any.payload() matches
                PayloadType::Host { id: noted, typecheck } && noted
                    == <() as ComponentType>::spec_type_id() && typecheck.outcome(None, env) is Ok
                    && typecheck.outcome(Some(x), env) == <() as ComponentType>::spec_typecheck(
                    x,
                    env,
                ))
                &&& !producer.unit_only() ==> any.payload() is Val
                &&& rep != id.rep ==> (after.live.contains_key(rep) <==> before.live.contains_key(
                    rep,
                ))
                &&& rep != id.rep && before.live.contains_key(rep) ==> after.live[rep]
                    == before.live[rep]
                &&& after.instances == before.instances
                &&& after.id == before.id
                &&& after.capacity == before.capacity
                &&& after.concurrency_support == before.concurrency_support
            })
        }),
{
}

/// A future whose producer makes the unit value alone is read as one of `()` and of nothing else
/// of another identity, and any other future that a producer makes is read as one of nothing.
pub proof fn law_future_made_and_read<D, P: FutureAnyProducer<D>, T: ComponentType + 'static>(
    store: &mut Store<D>,
    producer: P,
    made: (FutureAny, HostWriter<Producer<P>>),
    unit: Result<FutureReader<()>, Error>,
    r: Result<FutureReader<T>, Error>,
)
    requires
        old(store)@.wf(),
        call_ensures(
            FutureAny::new::<D, P>,
            (store, producer),
            Ok::<(FutureAny, HostWriter<Producer<P>>), Error>(made),
        ),
        call_ensures(FutureAny::try_into_future_reader::<()>, (made.0,), unit),
        call_ensures(FutureAny::try_into_future_reader::<T>, (made.0,), r),
    ensures
        unit is Ok <==> producer.unit_only(),
        r is Ok <==> producer.unit_only() && T::spec_type_id()
            == <() as ComponentType>::spec_type_id(),
        unit matches Ok(reader) ==> reader.handle() == made.0.handle(),
{
}

/// Handles are equal if and only if they are one handle and the payloads are alike: of instances
/// and both absent or one type, of the host and of one Rust type, or both not known.
pub proof fn law_future_equal(a: &FutureAny, b: &FutureAny, r: bool)
    requires
        call_ensures(<FutureAny as PartialEq>::eq, (a, b), r),
    ensures
        r ==> a.handle() == b.handle(),
        r <==> a.handle() == b.handle() && match (a.payload(), b.payload()) {
            (PayloadType::Guest(s), PayloadType::Guest(t)) => match (s@.payload, t@.payload) {
                (Some(x), Some(y)) => crate::types::equal(s@.env, x, t@.env, y),
                (None, None) => true,
                _ => false,
            },
            (PayloadType::Host { id: s, .. }, PayloadType::Host { id: t, .. }) => s == t,
            (PayloadType::Val, PayloadType::Val) => true,
            _ => false,
        },
{
}

/// Two futures that were made one after the other are never equal, whatever happened to the store
/// in between.
pub proof fn law_futures_made_differ<D, P: FutureAnyProducer<D>, Q: FutureAnyProducer<D>>(
    store: &mut Store<D>,
    p: P,
    first: (FutureAny, HostWriter<Producer<P>>),
    later: &mut Store<D>,
    q: Q,
    second: (FutureAny, HostWriter<Producer<Q>>),
    r: bool,
    other: bool,
)
    requires
        old(store)@.wf(),
        old(later)@.wf(),
        call_ensures(
            FutureAny::new::<D, P>,
            (store, p),
            Ok::<(FutureAny, HostWriter<Producer<P>>), Error>(first),
        ),
        old(later)@.next >= final(store)@.next,
        call_ensures(
            FutureAny::new::<D, Q>,
            (later, q),
            Ok::<(FutureAny, HostWriter<Producer<Q>>), Error>(second),
        ),
        call_ensures(<FutureAny as PartialEq>::eq, (&first.0, &second.0), r),
        call_ensures(<FutureAny as PartialEq>::eq, (&second.0, &first.0), other),
    ensures
        first.0.handle() != second.0.handle(),
        !r,
        !other,
{
}

/// A copy of a handle is the handle, and a handle tells its name.
pub proof fn law_future_copied(any: &FutureAny, copy: FutureAny, id: TableId)
    requires
        call_ensures(<FutureAny as Clone>::clone, (any,), copy),
        call_ensures(FutureAny::id, (any,), id),
    ensures
        copy.handle() == any.handle(),
        copy.payload() == any.payload(),
        id == any.handle(),
        id.kind == TransmitKind::Future,
{
}

/// A reader tells the name that it was made with.
pub proof fn law_future_reader<T>(id: TableId, reader: FutureReader<T>, told: TableId)
    requires
        call_ensures(FutureReader::<T>::new_, (id,), reader),
        call_ensures(FutureReader::<T>::id, (&reader,), told),
    ensures
        told == id,
        reader.handle() == id,
{
}

/// A consumer is set if and only if the future is open, which it stays. The consumer comes back
/// with the name of the future. All else stays.
pub proof fn law_future_piped<D, C: FutureAnyConsumer<D>>(
    any: FutureAny,
    store: &mut Store<D>,
    consumer: C,
    r: Result<HostReader<Consumer<C>>, Error>,
    rep: u64,
)
    requires
        old(store)@.wf(),
        any.handle().store == old(store)@.id,
        any.handle().rep < old(store)@.next,
        old(store)@.live.contains_key(any.handle().rep) ==> old(store)@.live[any.handle().rep].kind
            == any.handle().kind,
        call_ensures(FutureAny::pipe::<D, C>, (any, store, consumer), r),
    ensures
        ({
            let before = old(store)@;
            let after = final(store)@;
            let id = any.handle();
            &&& final(store).data == old(store).data
            &&& r is Ok <==> before.live.contains_key(id.rep)
            &&& r matches Err(e) ==> e == Error::Closed && after == before
            &&& r matches Ok(reader) ==> ({
                &&& reader.id == id
                &&& reader.kind == TransmitKind::Future
                &&& reader.consumer.0 == consumer
                &&& after.live[id.rep].piped
                &&& after.live[id.rep].kind == before.live[id.rep].kind
                &&& after.live[id.rep].origin == before.live[id.rep].origin
            })
            &&& after.live.contains_key(rep) <==> before.live.contains_key(rep)
            &&& rep != id.rep && before.live.contains_key(rep) ==> after.live[rep]
                == before.live[rep]
            &&& after.instances == before.instances
            &&& after.next == before.next
            &&& after.id == before.id
            &&& after.capacity == before.capacity
            &&& after.concurrency_support == before.concurrency_support
        }),
{
}

/// Closing succeeds if and only if the future is open, and it is gone then. The handle and all
/// else stay.
pub proof fn law_future_closed<D>(
    any: &mut FutureAny,
    store: &mut Store<D>,
    r: Result<(), Error>,
    rep: u64,
)
    requires
        old(store)@.wf(),
        old(any).handle().store == old(store)@.id,
        old(any).handle().rep < old(store)@.next,
        old(store)@.live.contains_key(old(any).handle().rep) ==> old(store)@.live[old(
            any,
        ).handle().rep].kind == old(any).handle().kind,
        call_ensures(FutureAny::close::<D>, (any, store), r),
    ensures
        ({
            let before = old(store)@;
            let after = final(store)@;
            let id = old(any).handle();
            &&& *final(any) == *old(any)
            &&& final(store).data == old(store).data
            &&& r is Ok <==> before.live.contains_key(id.rep)
            &&& r matches Err(e) ==> e == Error::Closed && after == before
            &&& !after.live.contains_key(id.rep)
            &&& rep != id.rep ==> (after.live.contains_key(rep) <==> before.live.contains_key(rep))
            &&& rep != id.rep && before.live.contains_key(rep) ==> after.live[rep]
                == before.live[rep]
            &&& r is Ok ==> after.live.dom().len() + 1 == before.live.dom().len()
            &&& after.instances == before.instances
            &&& after.next == before.next
            &&& after.id == before.id
            &&& after.capacity == before.capacity
            &&& after.concurrency_support == before.concurrency_support
        }),
{
}

/// A future is handed to an instance if and only if its payload is the one that the instance
/// expects, it is open and the instance has room. A payload of an instance is the expected one if
/// both are absent or both are one type; one of the host if its check says so; and one that is not
/// known if no payload or the tuple without parts is expected.
///
/// The instance then has a handle to the future at the lowest index that was free. All else stays,
/// and where the future is not handed over everything does.
pub proof fn law_future_lower(
    any: &FutureAny,
    store: &mut StoreOpaque,
    i: ComponentInstanceId,
    table: TypeFutureTableIndex,
    ty: TypeFutureIndex,
    payload: Option<InterfaceType>,
    r: Result<u32, Error>,
    j: int,
)
    requires
        old(store)@.wf(),
        i.0 < old(store)@.instances.len(),
        old(store)@.instances[i.0 as int].env.valid(InterfaceType::Future(table)),
        old(store)@.instances[i.0 as int].env.table.defs[table.0 as int] == DefModel::FutureTable(
            TypeFutureTable { ty },
        ),
        old(store)@.instances[i.0 as int].env.table.defs[ty.0 as int] == DefModel::Future(
            TypeFuture { payload },
        ),
        call_ensures(
            FutureAny::lower_to_index,
            (any, store, i, InterfaceType::Future(table)),
            r,
        ),
    ensures
        ({
            let before = old(store)@;
            let after = final(store)@;
            let id = any.handle();
            let env = before.instances[i.0 as int].env;
            let handles = before.instances[i.0 as int].handles;
            let fits = match any.payload() {
                PayloadType::Guest(t) => match (t@.payload, payload) {
                    (Some(x), Some(y)) => crate::types::equal(t@.env, x, env, y),
                    (None, None) => true,
                    _ => false,
                },
                PayloadType::Host { typecheck, .. } => typecheck.outcome(payload, env) is Ok,
                PayloadType::Val => match payload {
                    None => true,
                    Some(InterfaceType::Tuple(c)) => env.table.defs[c.0 as int] matches
                    DefModel::Compound(d) && d.parts.len() == 0,
                    Some(_) => false,
                },
            };
            let open = id.store == before.id && before.live.contains_key(id.rep)
                && before.live[id.rep].kind == id.kind;
            let room = handles.len() < 0x0fff_ffff || exists|k: int|
                0 <= k < handles.len() && #[trigger] handles[k] is None;
            &&& r is Ok <==> fits && open && room
            &&& !fits && any.payload() is Guest ==> r == Err::<u32, Error>(
                Error::PayloadTypesDiffer,
            )
            &&& any.payload() matches PayloadType::Host { typecheck, .. } ==> (!fits ==> (r matches
            Err(Error::PayloadTypesDifferSince(cause)) && typecheck.outcome(payload, env) == Err::<
                (),
                Error,
            >(*cause)))
            &&& any.payload() is Val ==> (!fits ==> (r matches
            Err(Error::PayloadTypesDifferSince(cause)) && (*cause matches
            Error::Expected { expected, found } && expected@ == "unit"@ && Some(found)
                == payload)))
            &&& fits && !open ==> r == Err::<u32, Error>(Error::UnknownHandle)
            &&& fits && open && !room ==> r == Err::<u32, Error>(Error::TableFull)
            &&& r is Err ==> after == before
            &&& after.live == before.live
            &&& after.id == before.id
            &&& after.next == before.next
            &&& after.capacity == before.capacity
            &&& after.concurrency_support == before.concurrency_support
            &&& after.instances.len() == before.instances.len()
            &&& 0 <= j < before.instances.len() && j != i.0 ==> after.instances[j]
                == before.instances[j]
            &&& after.instances[i.0 as int].env == env
            &&& after.instances[i.0 as int].memory == before.instances[i.0 as int].memory
            &&& r matches Ok(n) ==> ({
                let now = after.instances[i.0 as int].handles;
                &&& 0 < n <= handles.len() + 1
                &&& n <= handles.len() ==> handles[n - 1] is None
                &&& forall|k: int| 0 <= k < n - 1 ==> #[trigger] handles[k] is Some
                &&& n <= now.len()
                &&& now[n - 1] == Some(GuestHandle { ty: HandleType::Future(table), id })
                &&& 0 <= j < handles.len() && j != n - 1 ==> j < now.len() && now[j] == handles[j]
                &&& handles.len() <= now.len() <= handles.len() + 1
            })
        }),
{
}

/// Handing a future over as a flat value or through memory is handing it over: it fails where that
/// fails, with the same error and store, and otherwise the index is what is put into the flat
/// value, or into the four bytes at the offset and no others.
pub proof fn law_future_lower_linear(
    any: &FutureAny,
    store: &mut StoreOpaque,
    i: ComponentInstanceId,
    table: TypeFutureTableIndex,
    r: Result<u32, Error>,
    other: &mut StoreOpaque,
    flat: &mut u32,
    a: Result<(), Error>,
    third: &mut StoreOpaque,
    offset: usize,
    b: Result<(), Error>,
    k: int,
)
    requires
        old(store)@.wf(),
        i.0 < old(store)@.instances.len(),
        old(store)@.instances[i.0 as int].env.valid(InterfaceType::Future(table)),
        offset + 4 <= old(store)@.instances[i.0 as int].memory.len(),
        old(other)@ == old(store)@,
        old(third)@ == old(store)@,
        call_ensures(FutureAny::lower_to_index, (any, store, i, InterfaceType::Future(table)), r),
        call_ensures(
            FutureAny::linear_lower_to_flat,
            (any, other, i, InterfaceType::Future(table), flat),
            a,
        ),
        call_ensures(
            FutureAny::linear_lower_to_memory,
            (any, third, i, InterfaceType::Future(table), offset),
            b,
        ),
    ensures
        a is Ok <==> r is Ok,
        b is Ok <==> r is Ok,
        r matches Err(e) ==> ({
            &&& a == Err::<(), Error>(e)
            &&& b == Err::<(), Error>(e)
            &&& *final(flat) == *old(flat)
            &&& final(other)@ == old(store)@
            &&& final(third)@ == old(store)@
        }),
        r matches Ok(n) ==> ({
            let memory = old(store)@.instances[i.0 as int].memory;
            let now = final(third)@.instances[i.0 as int].memory;
            let after = final(store)@;
            let handles = after.instances[i.0 as int].handles;
            &&& *final(flat) == n
            &&& final(other)@ == final(store)@
            &&& now.len() == memory.len()
            &&& vstd::bytes::spec_u32_from_le_bytes(now.subrange(offset as int, offset + 4)) == n
            &&& 0 <= k < memory.len() && !(offset <= k < offset + 4) ==> now[k] == memory[k]
            &&& final(third)@.instances[i.0 as int].handles == handles
            &&& final(third)@.instances[i.0 as int].env == after.instances[i.0 as int].env
            &&& final(third)@.instances.len() == after.instances.len()
            &&& 0 <= k < after.instances.len() && k != i.0 ==> final(third)@.instances[k]
                == after.instances[k]
            &&& final(third)@.live == after.live
            &&& final(third)@.id == after.id
            &&& final(third)@.next == after.next
            &&& final(third)@.capacity == after.capacity
            &&& final(third)@.concurrency_support == after.concurrency_support
        }),
{
    vstd::bytes::lemma_auto_spec_u32_to_from_le_bytes();
    if let Ok(n) = r {
        let bytes = vstd::bytes::spec_u32_to_le_bytes(n);
        let now = final(third)@.instances[i.0 as int].memory;
        assert(a is Ok);
        assert(b is Ok);
        let (middle, index) = choose|middle: StoreModel, index: u32|
            {
                &&& #[trigger] any.lowers(old(third)@, i, table, middle, Ok(index))
                &&& final(third)@ == middle.with_memory(
                    i,
                    crate::store::overwritten(
                        middle.instance(i).memory,
                        offset as int,
                        vstd::bytes::spec_u32_to_le_bytes(index),
                    ),
                )
            };
        lemma_future_lowered_alike(any, old(store)@, i, table, final(store)@, n, middle, index);
        let m = *final(flat);
        lemma_future_lowered_alike(any, old(store)@, i, table, final(store)@, n, final(other)@, m);
        assert(now.subrange(offset as int, offset + 4) =~= bytes);
    }
}

/// Handing over one future gives one index and one store.
proof fn lemma_future_lowered_alike(
    any: &FutureAny,
    before: StoreModel,
    i: ComponentInstanceId,
    table: TypeFutureTableIndex,
    after: StoreModel,
    n: u32,
    other: StoreModel,
    m: u32,
)
    requires
        any.lowers(before, i, table, after, Ok(n)),
        any.lowers(before, i, table, other, Ok(m)),
    ensures
        n == m,
        after == other,
{
    let handles = before.instance(i).handles;
    if n < m {
        assert(handles[n - 1] is Some);
    }
    if m < n {
        assert(handles[m - 1] is Some);
    }
}

/// A future is taken back from an instance if and only if the instance has it at the index as a
/// future of the type that is asked for, and it is open. It is the handle that the instance had,
/// and its payload is what the instance says. If the instance has it as that, the index then
/// refers to nothing. All else stays.
pub proof fn law_future_lift(
    store: &mut StoreOpaque,
    i: ComponentInstanceId,
    table: TypeFutureTableIndex,
    ty: TypeFutureIndex,
    payload: Option<InterfaceType>,
    index: u32,
    r: Result<FutureAny, Error>,
    j: int,
)
    requires
        old(store)@.wf(),
        i.0 < old(store)@.instances.len(),
        old(store)@.instances[i.0 as int].env.valid(InterfaceType::Future(table)),
        old(store)@.instances[i.0 as int].env.table.defs[table.0 as int] == DefModel::FutureTable(
            TypeFutureTable { ty },
        ),
        old(store)@.instances[i.0 as int].env.table.defs[ty.0 as int] == DefModel::Future(
            TypeFuture { payload },
        ),
        call_ensures(
            FutureAny::lift_from_index,
            (store, i, InterfaceType::Future(table), index),
            r,
        ),
    ensures
        ({
            let before = old(store)@;
            let after = final(store)@;
            let handles = before.instances[i.0 as int].handles;
            let now = after.instances[i.0 as int].handles;
            let held = 0 < index <= handles.len() && handles[index - 1] is Some && handles[index
                - 1]->0.ty == HandleType::Future(table);
            let id = handles[index - 1]->0.id;
            let open = id.store == before.id && before.live.contains_key(id.rep)
                && before.live[id.rep].kind == id.kind;
            &&& r is Ok <==> held && open
            &&& !held ==> r == Err::<FutureAny, Error>(Error::UnknownIndex) && after == before
            &&& held && !open ==> r == Err::<FutureAny, Error>(Error::UnknownHandle)
            &&& r matches Ok(any) ==> ({
                &&& any.handle() == id
                &&& id.kind == TransmitKind::Future
                &&& any.payload() matches PayloadType::Guest(t)
                &&& t@.env == before.instances[i.0 as int].env
                &&& t@.payload == payload
            })
            &&& now.len() == handles.len()
            &&& held ==> now[index - 1] is None
            &&& 0 <= j < handles.len() && j != index - 1 ==> now[j] == handles[j]
            &&& after.live == before.live
            &&& after.id == before.id
            &&& after.next == before.next
            &&& after.capacity == before.capacity
            &&& after.concurrency_support == before.concurrency_support
            &&& after.instances.len() == before.instances.len()
            &&& 0 <= j < before.instances.len() && j != i.0 ==> after.instances[j]
                == before.instances[j]
            &&& after.instances[i.0 as int].env == before.instances[i.0 as int].env
            &&& after.instances[i.0 as int].memory == before.instances[i.0 as int].memory
        }),
{
}

/// Taking a future back from a flat value or from memory is taking it back at the index that the
/// value is, or that the four bytes are. What it gives is equal, and so is the store.
pub proof fn law_future_lift_linear(
    store: &mut StoreOpaque,
    i: ComponentInstanceId,
    table: TypeFutureTableIndex,
    index: u32,
    r: Result<FutureAny, Error>,
    other: &mut StoreOpaque,
    flat: &u32,
    a: Result<FutureAny, Error>,
    third: &mut StoreOpaque,
    bytes: &[u8],
    b: Result<FutureAny, Error>,
)
    requires
        old(store)@.wf(),
        old(other)@ == old(store)@,
        old(third)@ == old(store)@,
        *flat == index,
        bytes@ == vstd::bytes::spec_u32_to_le_bytes(index),
        call_ensures(
            FutureAny::lift_from_index,
            (store, i, InterfaceType::Future(table), index),
            r,
        ),
        call_ensures(
            FutureAny::linear_lift_from_flat,
            (other, i, InterfaceType::Future(table), flat),
            a,
        ),
        call_ensures(
            FutureAny::linear_lift_from_memory,
            (third, i, InterfaceType::Future(table), bytes),
            b,
        ),
    ensures
        final(other)@ == final(store)@,
        final(third)@ == final(store)@,
        a is Ok <==> r is Ok,
        b is Ok <==> r is Ok,
        r matches Err(e) ==> a == Err::<FutureAny, Error>(e) && b == Err::<FutureAny, Error>(e),
        r matches Ok(any) ==> ({
            &&& a->Ok_0.handle() == any.handle()
            &&& b->Ok_0.handle() == any.handle()
            &&& a->Ok_0.payload()->Guest_0@ == any.payload()->Guest_0@
            &&& b->Ok_0.payload()->Guest_0@ == any.payload()->Guest_0@
        }),
{
    vstd::bytes::lemma_auto_spec_u32_to_from_le_bytes();
    let encoded = vstd::bytes::spec_u32_to_le_bytes(index);
    assert(encoded.len() == 4);
}

/// A future that was handed to an instance and then taken back at the index that the instance got
/// is the handle that it was, and one of an instance is equal to what it was.
pub proof fn law_future_there_and_back(
    any: &FutureAny,
    store: &mut StoreOpaque,
    i: ComponentInstanceId,
    table: TypeFutureTableIndex,
    index: u32,
    later: &mut StoreOpaque,
    back: Result<FutureAny, Error>,
    same: bool,
)
    requires
        old(store)@.wf(),
        i.0 < old(store)@.instances.len(),
        old(store)@.instances[i.0 as int].env.valid(InterfaceType::Future(table)),
        call_ensures(
            FutureAny::lower_to_index,
            (any, store, i, InterfaceType::Future(table)),
            Ok::<u32, Error>(index),
        ),
        old(later)@ == final(store)@,
        call_ensures(
            FutureAny::lift_from_index,
            (later, i, InterfaceType::Future(table), index),
            back,
        ),
        call_ensures(<FutureAny as PartialEq>::eq, (any, &back->Ok_0), same),
    ensures
        back matches Ok(b) && b.handle() == any.handle(),
        any.payload() is Guest ==> same,
{
}

/// What a future is noted to be when it is made from a table or for a Rust type.
pub proof fn law_future_payload_noted<P: ComponentType + 'static>(
    store: &StoreOpaque,
    i: ComponentInstanceId,
    table: TypeFutureTableIndex,
    ty: TypeFutureIndex,
    payload: Option<InterfaceType>,
    of_guest: PayloadType<crate::transmit_type::FutureType>,
    of_host: PayloadType<crate::transmit_type::FutureType>,
    x: InterfaceType,
    env: TypeEnv,
)
    requires
        call_ensures(
            PayloadType::<crate::transmit_type::FutureType>::new_guest_future,
            (store, i, table),
            of_guest,
        ),
        call_ensures(PayloadType::<crate::transmit_type::FutureType>::new_host::<P>, (), of_host),
        store@.instances[i.0 as int].env.table.defs[table.0 as int] == DefModel::FutureTable(
            TypeFutureTable { ty },
        ),
        store@.instances[i.0 as int].env.table.defs[ty.0 as int] == DefModel::Future(
            TypeFuture { payload },
        ),
    ensures
        of_guest matches PayloadType::Guest(t) && t@.payload == payload && t@.env
            == store@.instances[i.0 as int].env,
        of_host matches PayloadType::Host { id, typecheck } && id == P::spec_type_id()
            && typecheck.outcome(Some(x), env) == P::spec_typecheck(x, env) && (typecheck.outcome(
            None,
            env,
        ) is Ok <==> P::spec_is_unit()),
{
}

} // verus!
