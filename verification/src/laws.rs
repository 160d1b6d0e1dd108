//! What holds of the library as a whole.

use crate::component_type::ComponentType;
use crate::engine::EngineModel;
use crate::error::Error;
use crate::future_any::FutureAny;
use crate::future_end::Consumer;
use crate::handle_table::HandleType;
use crate::payload::PayloadType;
use crate::store::{
    ComponentInstanceId, InstanceModel, Store, StoreModel, TableId, Transmit, TransmitKind,
    TransmitOrigin,
};
use crate::stream_any::StreamAny;
use crate::transmit::{
    FutureAnyConsumer, Poll, ReturnCode, StreamAnyConsumer, StreamAnyProducer, StreamResult,
};
use crate::transmit_type::PayloadModel;
use crate::types::{InterfaceType, TypeFutureTableIndex, TypeStreamTableIndex};
use crate::val::Val;
use core::task::Context;
use vstd::prelude::*;

verus! {

/// No two stores of an engine have one name, so a handle of the one is never one of the other: the
/// other neither owns it nor finds anything under it.
pub proof fn law_stores_apart(
    e: EngineModel,
    f: EngineModel,
    a: StoreModel,
    b: StoreModel,
    id: TableId,
)
    requires
        e.has_room(),
        f.later(e.numbered()),
        a.id == e.fresh(),
        b.id == f.fresh(),
    ensures
        a.id != b.id,
        a.owns(id) ==> !b.owns(id) && b.transmit(id) is None,
        b.owns(id) ==> !a.owns(id) && a.transmit(id) is None,
{
}

/// A new future or stream gets a handle that was never given out before, and is open under it.
/// All other handles stay what they were.
pub proof fn law_new_handle(
    s: StoreModel,
    kind: TransmitKind,
    origin: TransmitOrigin,
    other: TableId,
)
    requires
        s.wf(),
        s.has_origin(kind, origin),
        !s.full(),
    ensures
        !s.owns(s.fresh(kind)),
        s.transmit(s.fresh(kind)) is None,
        s.allocated(kind, origin).owns(s.fresh(kind)),
        s.allocated(kind, origin).transmit(s.fresh(kind)) == Some(
            Transmit { kind, origin, piped: false },
        ),
        other != s.fresh(kind) ==> s.allocated(kind, origin).transmit(other) == s.transmit(other),
        s.allocated(kind, origin).wf(),
{
    let t = s.allocated(kind, origin);
    assert forall|rep: u64| #[trigger] t.live.contains_key(rep) implies {
        rep < t.next && t.has_origin(t.live[rep].kind, t.live[rep].origin)
    } by {
        if rep != s.next {
            assert(s.live.contains_key(rep));
        }
    }
}

/// A future or stream that is closed cannot be closed a second time nor be given a consumer, and
/// all other handles stay what they were.
pub proof fn law_close(s: StoreModel, id: TableId, other: TableId)
    requires
        s.wf(),
        s.owns(id),
        !s.closed(id),
    ensures
        s.without(id).closed(id),
        s.without(id).owns(id),
        other != id ==> s.without(id).transmit(other) == s.transmit(other),
        s.without(id).wf(),
{
    let t = s.without(id);
    assert forall|rep: u64| #[trigger] t.live.contains_key(rep) implies {
        rep < t.next && t.has_origin(t.live[rep].kind, t.live[rep].origin)
    } by {
        assert(s.live.contains_key(rep));
    }
}

/// Closing a handle frees the room that it took: if the store was full for want of room, another
/// future or stream can be made.
pub proof fn law_close_frees_room(s: StoreModel, id: TableId)
    requires
        s.wf(),
        s.owns(id),
        !s.closed(id),
        s.next < u64::MAX,
    ensures
        s.without(id).live.len() + 1 == s.live.len(),
        !s.without(id).full(),
{
}

/// What a store has become stays what it has become, and is so also of what the store was before
/// that. A handle that was closed stays closed.
pub proof fn law_later(a: StoreModel, b: StoreModel, c: StoreModel, id: TableId)
    requires
        b.later(a),
        c.later(b),
    ensures
        a.later(a),
        c.later(a),
        a.owns(id) ==> c.owns(id),
        a.closed(id) ==> c.closed(id),
{
    assert forall|id: TableId| a.owns(id) implies c.owns(id) && match #[trigger] c.transmit(id) {
        Some(t) => a.transmit(id) matches Some(u) && t.kind == u.kind && t.origin == u.origin,
        None => true,
    } by {
        assert(b.transmit(id) is Some ==> b.owns(id));
        if c.transmit(id) is Some {
            assert(b.transmit(id) is Some);
        }
    }
    assert forall|i: int| 0 <= i < a.instances.len() implies (#[trigger] c.instances[i]).env
        == a.instances[i].env by {
        assert(b.instances[i].env == a.instances[i].env);
    }
    if a.closed(id) {
        assert(c.transmit(id) is None);
    }
}

/// Whatever is done with a store, it stays the same store: the names of its handles are given out
/// once, and none of them comes to name another future or stream.
pub proof fn law_operations_later(
    s: StoreModel,
    kind: TransmitKind,
    origin: TransmitOrigin,
    id: TableId,
    i: ComponentInstanceId,
    ty: HandleType,
    index: u32,
    memory: Seq<u8>,
    instance: InstanceModel,
)
    requires
        s.wf(),
        s.has_instance(i),
    ensures
        !s.full() ==> s.allocated(kind, origin).later(s),
        s.transmit(id) is Some ==> s.piped(id).later(s) && s.without(id).later(s),
        forall|t: StoreModel, r: Result<u32, Error>| #[trigger]
            s.lowers(id, i, ty, t, r) ==> t.later(s),
        s.after_lift(i, ty, index).later(s),
        s.with_memory(i, memory).later(s),
        (StoreModel { instances: s.instances.push(instance), ..s }).later(s),
{
}

/// Setting a consumer leaves a future or stream open and what it was, and all other handles
/// untouched.
pub proof fn law_pipe(s: StoreModel, id: TableId, other: TableId)
    requires
        s.wf(),
        s.transmit(id) is Some,
    ensures
        s.piped(id).transmit(id) == Some(Transmit { piped: true, ..s.transmit(id)->0 }),
        other != id ==> s.piped(id).transmit(other) == s.transmit(other),
{
}

/// What is written to memory is read back.
pub proof fn law_memory_round_trip(memory: Seq<u8>, offset: int, index: u32)
    requires
        0 <= offset,
        offset + 4 <= memory.len(),
    ensures
        ({
            let bytes = crate::store::overwritten(
                memory,
                offset,
                vstd::bytes::spec_u32_to_le_bytes(index),
            ).subrange(offset, offset + 4);
            vstd::bytes::spec_u32_from_le_bytes(bytes) == index
        }),
{
    vstd::bytes::lemma_auto_spec_u32_to_from_le_bytes();
    let bytes = vstd::bytes::spec_u32_to_le_bytes(index);
    assert(crate::store::overwritten(memory, offset, bytes).subrange(offset, offset + 4) =~= bytes);
}

/// The write end of a future is never `Dropped`: it is `Completed` exactly if the value was
/// delivered.
pub proof fn law_future_produces_one(polled: Poll<Result<Option<Val>, Error>>, before: Seq<Val>)
    ensures
        crate::future_end::produce_outcome(polled) != Poll::Ready(
            Ok::<StreamResult, Error>(StreamResult::Dropped),
        ),
        crate::future_end::produce_outcome(polled) == Poll::Ready(
            Ok::<StreamResult, Error>(StreamResult::Completed),
        ) <==> (polled matches Poll::Ready(Ok(Some(_)))),
        (polled matches Poll::Ready(Ok(Some(_)))) ==> crate::future_end::delivered(
            polled,
            before,
        ).len() == 1,
        !(polled matches Poll::Ready(Ok(Some(_)))) ==> crate::future_end::delivered(polled, before)
            == before,
{
}

/// A writer of a future is told that the write is complete if the consumer took the value, and
/// that it was given up if the consumer left it: never that the consumer is gone.
pub proof fn law_future_write<D: 'static, C: FutureAnyConsumer<D>>(
    before: (Consumer<C>, Store<D>, Seq<Val>, Context<'_>),
    finish: bool,
    after: (Consumer<C>, Store<D>, Seq<Val>, Context<'_>),
    polled: Poll<Result<StreamResult, Error>>,
)
    requires
        before.2.len() == 1,
        after.2.len() <= 1,
        <Consumer<C> as StreamAnyConsumer<D>>::consumed(before, finish, after, polled),
    ensures
        ({
            let taken = (before.2.len() - after.2.len()) as usize;
            match crate::transmit::write_outcome(polled, taken) {
                Poll::Ready(Ok(code)) => code == if taken == 1 {
                    ReturnCode::Completed(1)
                } else {
                    ReturnCode::Cancelled(0)
                },
                _ => true,
            }
        }),
{
}

/// A producer that waits for a future is not pending when it is asked to finish.
pub proof fn law_finish_is_answered<E: Into<Error>>(
    polled: Poll<Result<Val, E>>,
    r: Poll<Result<Option<Val>, Error>>,
)
    requires
        crate::producers::answers(polled, true, r),
    ensures
        r is Ready,
{
}

/// A producer that is a vector delivers its items, all of them and in order, to the first read,
/// and nothing to any read after that.
pub proof fn law_items_delivered_once<D>(
    start: (Vec<Val>, Store<D>, Seq<Val>, Context<'_>),
    first: (Vec<Val>, Store<D>, Seq<Val>, Context<'_>),
    again: (Vec<Val>, Store<D>, Seq<Val>, Context<'_>),
    second: (Vec<Val>, Store<D>, Seq<Val>, Context<'_>),
    finish: (bool, bool),
    r: (Poll<Result<StreamResult, Error>>, Poll<Result<StreamResult, Error>>),
)
    requires
        <Vec<Val> as StreamAnyProducer<D>>::produced(start, finish.0, first, r.0),
        again.0 == first.0,
        <Vec<Val> as StreamAnyProducer<D>>::produced(again, finish.1, second, r.1),
    ensures
        first.2 == start.0@,
        second.2 == Seq::<Val>::empty(),
        r.0 == Poll::Ready(Ok::<StreamResult, Error>(StreamResult::Dropped)),
        r.1 == r.0,
{
}

/// A producer that is a boxed slice delivers its items, all of them and in order, to the first
/// read, and nothing to any read after that.
pub proof fn law_boxed_items_delivered_once<D>(
    start: (Box<[Val]>, Store<D>, Seq<Val>, Context<'_>),
    first: (Box<[Val]>, Store<D>, Seq<Val>, Context<'_>),
    again: (Box<[Val]>, Store<D>, Seq<Val>, Context<'_>),
    second: (Box<[Val]>, Store<D>, Seq<Val>, Context<'_>),
    finish: (bool, bool),
    r: (Poll<Result<StreamResult, Error>>, Poll<Result<StreamResult, Error>>),
)
    requires
        <Box<[Val]> as StreamAnyProducer<D>>::produced(start, finish.0, first, r.0),
        again.0 == first.0,
        <Box<[Val]> as StreamAnyProducer<D>>::produced(again, finish.1, second, r.1),
    ensures
        first.2 == start.0@,
        second.2 == Seq::<Val>::empty(),
        r.0 == Poll::Ready(Ok::<StreamResult, Error>(StreamResult::Dropped)),
        r.1 == r.0,
{
}

/// That two payloads are alike is an equivalence relation.
pub proof fn law_payloads_alike(a: PayloadModel, b: PayloadModel, c: PayloadModel)
    requires
        a.wf(),
        b.wf(),
        c.wf(),
    ensures
        a.same_as(a),
        a.same_as(b) == b.same_as(a),
        a.same_as(b) && b.same_as(c) ==> a.same_as(c),
{
    if let Some(x) = a.payload {
        crate::types::law_equal_reflexive(a.env, x);
        if let Some(y) = b.payload {
            crate::types::law_equal_symmetric(a.env, x, b.env, y);
            if let Some(z) = c.payload {
                if a.same_as(b) && b.same_as(c) {
                    crate::types::law_equal_transitive(a.env, x, b.env, y, c.env, z);
                }
            }
        }
    }
}

/// A future handle names a future in whatever store, never a stream.
pub proof fn law_future_names_a_future(any: FutureAny, s: StoreModel)
    requires
        any.wf(),
        s.wf(),
    ensures
        s.transmit(any.handle()) matches Some(t) ==> t.kind == TransmitKind::Future && !(t.origin
            is GuestStream),
{
    if let Some(t) = s.transmit(any.handle()) {
        assert(s.live.contains_key(any.handle().rep));
    }
}

/// What is taken back from an instance as a future is an open future.
pub proof fn law_future_lifted_is_open(
    s: StoreModel,
    i: ComponentInstanceId,
    table: TypeFutureTableIndex,
    index: u32,
    any: FutureAny,
)
    requires
        s.wf(),
        s.has_instance(i),
        s.instance(i).env.table.has_future_table(table),
        crate::future_any::lifts(s, i, table, index, Ok(any)),
    ensures
        any.wf(),
        s.transmit(any.handle()) matches Some(t) && t.kind == TransmitKind::Future,
{
    assert(s.instances[i.0 as int].env.wf());
    crate::types::lemma_children(s.instance(i).env, InterfaceType::Future(table));
}

/// A future whose producer makes values of types that are not known ahead of time is read as one of
/// no Rust type.
pub proof fn law_future_of_values<T: ComponentType>(any: FutureAny)
    requires
        any.payload() is Val,
    ensures
        any.host_outcome::<T>() == Err::<(), Error>(Error::PayloadTypesDiffer),
{
}

/// A future whose payload is of the Rust type `T` can be read as one of `U` if and only if `U` is
/// `T`. So the type that was erased, and no other, can be had back.
pub proof fn law_future_erased_type<T: ComponentType, U: ComponentType>(any: FutureAny)
    requires
        any.payload().is_host::<T>(),
    ensures
        any.host_outcome::<T>() == Ok::<(), Error>(()),
        U::spec_type_id() == T::spec_type_id() <==> any.host_outcome::<U>() == Ok::<(), Error>(()),
{
}

/// A future of the host that was read as one of the Rust type `T`, and whose type was then erased
/// again, is the future that it was.
pub proof fn law_future_read_and_erased<T: ComponentType>(any: FutureAny, again: FutureAny)
    requires
        any.payload() is Host,
        any.host_outcome::<T>() == Ok::<(), Error>(()),
        again.handle() == any.handle(),
        again.payload().is_host::<T>(),
    ensures
        any.same(again),
        again.same(any),
{
}

/// A future that was handed to an instance can be taken back from it, at the index that the
/// instance got. It is the same handle, and what the instance says of the payload is what the
/// future said, if the future is one of an instance. Every index then refers to what it referred
/// to before.
pub proof fn law_future_lower_lift(
    any: FutureAny,
    before: StoreModel,
    i: ComponentInstanceId,
    table: TypeFutureTableIndex,
    after: StoreModel,
    index: u32,
    back: Result<FutureAny, Error>,
    other: u32,
)
    requires
        before.wf(),
        before.has_instance(i),
        before.instance(i).env.table.has_future_table(table),
        any.lowers(before, i, table, after, Ok(index)),
        crate::future_any::lifts(after, i, table, index, back),
    ensures
        back matches Ok(b) && b.handle() == any.handle() && (any.payload() is Guest ==> any.same(
            b,
        )),
        crate::handle_table::looked_up(
            after.after_lift(i, HandleType::Future(table), index).instance(i).handles,
            other,
        ) == crate::handle_table::looked_up(before.instance(i).handles, other),
        after.after_lift(i, HandleType::Future(table), index).live == before.live,
{
}

/// A future that was handed to an instance through its memory can be taken back through the same
/// place in memory.
pub proof fn law_future_memory_round_trip(
    any: FutureAny,
    before: StoreModel,
    i: ComponentInstanceId,
    table: TypeFutureTableIndex,
    middle: StoreModel,
    index: u32,
    offset: int,
    back: Result<FutureAny, Error>,
)
    requires
        before.wf(),
        before.has_instance(i),
        before.instance(i).env.table.has_future_table(table),
        0 <= offset,
        offset + 4 <= before.instance(i).memory.len(),
        any.lowers(before, i, table, middle, Ok(index)),
        ({
            let memory = crate::store::overwritten(
                middle.instance(i).memory,
                offset,
                vstd::bytes::spec_u32_to_le_bytes(index),
            );
            crate::future_any::lifts(
                middle.with_memory(i, memory),
                i,
                table,
                vstd::bytes::spec_u32_from_le_bytes(memory.subrange(offset, offset + 4)),
                back,
            )
        }),
    ensures
        back matches Ok(b) && b.handle() == any.handle() && (any.payload() is Guest ==> any.same(
            b,
        )),
{
    law_memory_round_trip(middle.instance(i).memory, offset, index);
}

/// A handle that an instance has to a stream is not taken for one to a future.
pub proof fn law_stream_not_lifted_as_future(
    s: StoreModel,
    i: ComponentInstanceId,
    table: TypeFutureTableIndex,
    index: u32,
)
    requires
        crate::handle_table::looked_up(s.instance(i).handles, index) matches Some(handle)
            && handle.ty is Stream,
    ensures
        s.lifted(i, HandleType::Future(table), index) == Err::<TableId, Error>(Error::UnknownIndex),
        s.after_lift(i, HandleType::Future(table), index) == s,
{
}

/// An instance is handed only futures with the payload that it expects, and a future that it is not
/// handed leaves the store as it was.
pub proof fn law_future_lowered_payload<P: ComponentType>(
    any: FutureAny,
    before: StoreModel,
    i: ComponentInstanceId,
    table: TypeFutureTableIndex,
    after: StoreModel,
    r: Result<u32, Error>,
)
    requires
        any.lowers(before, i, table, after, r),
    ensures
        r is Ok ==> (any.payload() matches PayloadType::Guest(t) ==> t@.same_as(
            PayloadModel {
                env: before.instance(i).env,
                payload: before.instance(i).env.table.future_payload(table),
            },
        )),
        r is Ok && any.payload().is_host::<P>() ==> crate::component_type::payload_outcome::<P>(
            before.instance(i).env.table.future_payload(table),
            before.instance(i).env,
        ) is Ok,
        r is Ok && any.payload() is Val ==> crate::component_type::payload_outcome::<()>(
            before.instance(i).env.table.future_payload(table),
            before.instance(i).env,
        ) is Ok,
        r is Err ==> after == before,
{
}

/// A future of an instance can be handed back to the instance as what it was made, as long as it
/// is open and the instance has room.
pub proof fn law_future_returns_home(
    any: FutureAny,
    s: StoreModel,
    i: ComponentInstanceId,
    table: TypeFutureTableIndex,
    after: StoreModel,
    r: Result<u32, Error>,
)
    requires
        s.wf(),
        s.has_instance(i),
        s.instance(i).env.table.has_future_table(table),
        any.payload() matches PayloadType::Guest(t) && t@ == (PayloadModel {
            env: s.instance(i).env,
            payload: s.instance(i).env.table.future_payload(table),
        }),
        s.transmit(any.handle()) is Some,
        !crate::handle_table::table_full(s.instance(i).handles),
        any.lowers(s, i, table, after, r),
    ensures
        r is Ok,
{
    let env = s.instance(i).env;
    assert(s.instances[i.0 as int].env.wf());
    crate::types::lemma_children(env, InterfaceType::Future(table));
    if let Some(ty) = env.table.future_payload(table) {
        crate::types::law_equal_reflexive(env, ty);
    }
}

/// Equality of futures is an equivalence relation.
pub proof fn law_future_equality(a: FutureAny, b: FutureAny, c: FutureAny)
    requires
        a.wf(),
        b.wf(),
        c.wf(),
    ensures
        a.same(a),
        a.same(b) == b.same(a),
        a.same(b) && b.same(c) ==> a.same(c),
{
    if let PayloadType::Guest(x) = a.payload() {
        law_payloads_alike(x@, x@, x@);
        if let PayloadType::Guest(y) = b.payload() {
            law_payloads_alike(x@, y@, x@);
            if let PayloadType::Guest(z) = c.payload() {
                law_payloads_alike(x@, y@, z@);
            }
        }
    }
}

/// A stream handle names a stream in whatever store, never a future.
pub proof fn law_stream_names_a_stream(any: StreamAny, s: StoreModel)
    requires
        any.wf(),
        s.wf(),
    ensures
        s.transmit(any.handle()) matches Some(t) ==> t.kind == TransmitKind::Stream && !(t.origin
            is GuestFuture),
{
    if let Some(t) = s.transmit(any.handle()) {
        assert(s.live.contains_key(any.handle().rep));
    }
}

/// What is taken back from an instance as a stream is an open stream.
pub proof fn law_stream_lifted_is_open(
    s: StoreModel,
    i: ComponentInstanceId,
    table: TypeStreamTableIndex,
    index: u32,
    any: StreamAny,
)
    requires
        s.wf(),
        s.has_instance(i),
        s.instance(i).env.table.has_stream_table(table),
        crate::stream_any::lifts(s, i, table, index, Ok(any)),
    ensures
        any.wf(),
        s.transmit(any.handle()) matches Some(t) && t.kind == TransmitKind::Stream,
{
    assert(s.instances[i.0 as int].env.wf());
    crate::types::lemma_children(s.instance(i).env, InterfaceType::Stream(table));
}

/// A stream whose producer makes values of types that are not known ahead of time is read as one of
/// no Rust type.
pub proof fn law_stream_of_values<T: ComponentType>(any: StreamAny)
    requires
        any.payload() is Val,
    ensures
        any.host_outcome::<T>() == Err::<(), Error>(Error::PayloadTypesDiffer),
{
}

/// A stream whose payload is of the Rust type `T` can be read as one of `U` if and only if `U` is
/// `T`. So the type that was erased, and no other, can be had back.
pub proof fn law_stream_erased_type<T: ComponentType, U: ComponentType>(any: StreamAny)
    requires
        any.payload().is_host::<T>(),
    ensures
        any.host_outcome::<T>() == Ok::<(), Error>(()),
        U::spec_type_id() == T::spec_type_id() <==> any.host_outcome::<U>() == Ok::<(), Error>(()),
{
}

/// A stream of the host that was read as one of the Rust type `T`, and whose type was then erased
/// again, is the stream that it was.
pub proof fn law_stream_read_and_erased<T: ComponentType>(any: StreamAny, again: StreamAny)
    requires
        any.payload() is Host,
        any.host_outcome::<T>() == Ok::<(), Error>(()),
        again.handle() == any.handle(),
        again.payload().is_host::<T>(),
    ensures
        any.same(again),
        again.same(any),
{
}

/// A stream that was handed to an instance can be taken back from it, at the index that the
/// instance got. It is the same handle, and what the instance says of the payload is what the
/// stream said, if the stream is one of an instance. Every index then refers to what it referred
/// to before.
pub proof fn law_stream_lower_lift(
    any: StreamAny,
    before: StoreModel,
    i: ComponentInstanceId,
    table: TypeStreamTableIndex,
    after: StoreModel,
    index: u32,
    back: Result<StreamAny, Error>,
    other: u32,
)
    requires
        before.wf(),
        before.has_instance(i),
        before.instance(i).env.table.has_stream_table(table),
        any.lowers(before, i, table, after, Ok(index)),
        crate::stream_any::lifts(after, i, table, index, back),
    ensures
        back matches Ok(b) && b.handle() == any.handle() && (any.payload() is Guest ==> any.same(
            b,
        )),
        crate::handle_table::looked_up(
            after.after_lift(i, HandleType::Stream(table), index).instance(i).handles,
            other,
        ) == crate::handle_table::looked_up(before.instance(i).handles, other),
        after.after_lift(i, HandleType::Stream(table), index).live == before.live,
{
}

/// A stream that was handed to an instance through its memory can be taken back through the same
/// place in memory.
pub proof fn law_stream_memory_round_trip(
    any: StreamAny,
    before: StoreModel,
    i: ComponentInstanceId,
    table: TypeStreamTableIndex,
    middle: StoreModel,
    index: u32,
    offset: int,
    back: Result<StreamAny, Error>,
)
    requires
        before.wf(),
        before.has_instance(i),
        before.instance(i).env.table.has_stream_table(table),
        0 <= offset,
        offset + 4 <= before.instance(i).memory.len(),
        any.lowers(before, i, table, middle, Ok(index)),
        ({
            let memory = crate::store::overwritten(
                middle.instance(i).memory,
                offset,
                vstd::bytes::spec_u32_to_le_bytes(index),
            );
            crate::stream_any::lifts(
                middle.with_memory(i, memory),
                i,
                table,
                vstd::bytes::spec_u32_from_le_bytes(memory.subrange(offset, offset + 4)),
                back,
            )
        }),
    ensures
        back matches Ok(b) && b.handle() == any.handle() && (any.payload() is Guest ==> any.same(
            b,
        )),
{
    law_memory_round_trip(middle.instance(i).memory, offset, index);
}

/// A handle that an instance has to a future is not taken for one to a stream.
pub proof fn law_future_not_lifted_as_stream(
    s: StoreModel,
    i: ComponentInstanceId,
    table: TypeStreamTableIndex,
    index: u32,
)
    requires
        crate::handle_table::looked_up(s.instance(i).handles, index) matches Some(handle)
            && handle.ty is Future,
    ensures
        s.lifted(i, HandleType::Stream(table), index) == Err::<TableId, Error>(Error::UnknownIndex),
        s.after_lift(i, HandleType::Stream(table), index) == s,
{
}

/// An instance is handed only streams with the payload that it expects, and a stream that it is not
/// handed leaves the store as it was.
pub proof fn law_stream_lowered_payload<P: ComponentType>(
    any: StreamAny,
    before: StoreModel,
    i: ComponentInstanceId,
    table: TypeStreamTableIndex,
    after: StoreModel,
    r: Result<u32, Error>,
)
    requires
        any.lowers(before, i, table, after, r),
    ensures
        r is Ok ==> (any.payload() matches PayloadType::Guest(t) ==> t@.same_as(
            PayloadModel {
                env: before.instance(i).env,
                payload: before.instance(i).env.table.stream_payload(table),
            },
        )),
        r is Ok && any.payload().is_host::<P>() ==> crate::component_type::payload_outcome::<P>(
            before.instance(i).env.table.stream_payload(table),
            before.instance(i).env,
        ) is Ok,
        r is Ok && any.payload() is Val ==> crate::component_type::payload_outcome::<()>(
            before.instance(i).env.table.stream_payload(table),
            before.instance(i).env,
        ) is Ok,
        r is Err ==> after == before,
{
}

/// A stream of an instance can be handed back to the instance as what it was made, as long as it
/// is open and the instance has room.
pub proof fn law_stream_returns_home(
    any: StreamAny,
    s: StoreModel,
    i: ComponentInstanceId,
    table: TypeStreamTableIndex,
    after: StoreModel,
    r: Result<u32, Error>,
)
    requires
        s.wf(),
        s.has_instance(i),
        s.instance(i).env.table.has_stream_table(table),
        any.payload() matches PayloadType::Guest(t) && t@ == (PayloadModel {
            env: s.instance(i).env,
            payload: s.instance(i).env.table.stream_payload(table),
        }),
        s.transmit(any.handle()) is Some,
        !crate::handle_table::table_full(s.instance(i).handles),
        any.lowers(s, i, table, after, r),
    ensures
        r is Ok,
{
    let env = s.instance(i).env;
    assert(s.instances[i.0 as int].env.wf());
    crate::types::lemma_children(env, InterfaceType::Stream(table));
    if let Some(ty) = env.table.stream_payload(table) {
        crate::types::law_equal_reflexive(env, ty);
    }
}

/// Equality of streams is an equivalence relation.
pub proof fn law_stream_equality(a: StreamAny, b: StreamAny, c: StreamAny)
    requires
        a.wf(),
        b.wf(),
        c.wf(),
    ensures
        a.same(a),
        a.same(b) == b.same(a),
        a.same(b) && b.same(c) ==> a.same(c),
{
    if let PayloadType::Guest(x) = a.payload() {
        law_payloads_alike(x@, x@, x@);
        if let PayloadType::Guest(y) = b.payload() {
            law_payloads_alike(x@, y@, x@);
            if let PayloadType::Guest(z) = c.payload() {
                law_payloads_alike(x@, y@, z@);
            }
        }
    }
}

} // verus!
