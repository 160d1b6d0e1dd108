//! What holds of the host's ends of futures and streams, and of the values that go through them.

use crate::component_type::{ComponentType, TypeId};
use crate::count_stream::{Component, CountAction, CountStream};
use crate::error::Error;
use crate::future_end::{Consumer, Producer};
use crate::store::Store;
use crate::transmit::{
    AnyObject, Destination, FutureAnyConsumer, FutureAnyProducer, HostReader, Poll, ReturnCode,
    Source, StreamAnyConsumer, StreamAnyProducer, StreamResult, VecBuffer, WriteBuffer,
};
use crate::val::Val;
use core::task::Context;
use vstd::prelude::*;

verus! {

/// A writer learns of a write what the reader answered and how many items were taken. It learns of
/// an error as it is, and of nothing as long as there is no answer.
pub proof fn law_return_code(
    polled: Poll<Result<StreamResult, Error>>,
    taken: usize,
    r: Poll<Result<ReturnCode, Error>>,
    n: usize,
)
    requires
        call_ensures(crate::transmit::return_code, (polled, taken), r),
    ensures
        r is Pending <==> polled is Pending,
        r == Poll::Ready(Ok::<ReturnCode, Error>(ReturnCode::Completed(n))) <==> n == taken
            && polled == Poll::Ready(Ok::<StreamResult, Error>(StreamResult::Completed)),
        r == Poll::Ready(Ok::<ReturnCode, Error>(ReturnCode::Cancelled(n))) <==> n == taken
            && polled == Poll::Ready(Ok::<StreamResult, Error>(StreamResult::Cancelled)),
        r == Poll::Ready(Ok::<ReturnCode, Error>(ReturnCode::Dropped(n))) <==> n == taken && polled
            == Poll::Ready(Ok::<StreamResult, Error>(StreamResult::Dropped)),
        r matches Poll::Ready(Err(e)) ==> polled == Poll::Ready(Err::<StreamResult, Error>(e)),
        polled matches Poll::Ready(Err(e)) ==> r == Poll::Ready(Err::<ReturnCode, Error>(e)),
{
}

/// Whatever the consumer answers, the number that the writer is told is the number of items that
/// were taken, which are the first ones in order. Those that were not taken stay, and no other.
pub proof fn law_write_counts<D, R: StreamAnyConsumer<D>>(
    reader: &mut HostReader<R>,
    cx: &mut Context<'_>,
    store: &mut Store<D>,
    source: &mut Source,
    finish: bool,
    r: Poll<Result<ReturnCode, Error>>,
    k: int,
)
    requires
        old(store)@.wf(),
        call_ensures(HostReader::<R>::write::<D>, (reader, cx, store, source, finish), r),
    ensures
        final(source)@.len() <= old(source)@.len(),
        ({
            let taken = old(source)@.len() - final(source)@.len();
            &&& r matches Poll::Ready(Ok(ReturnCode::Completed(n))) ==> n == taken
            &&& r matches Poll::Ready(Ok(ReturnCode::Cancelled(n))) ==> n == taken
            &&& r matches Poll::Ready(Ok(ReturnCode::Dropped(n))) ==> n == taken
            &&& 0 <= k < final(source)@.len() ==> final(source)@[k] == old(source)@[k + taken]
        }),
        final(reader).id == old(reader).id,
        final(reader).kind == old(reader).kind,
{
}

/// A write to what was closed is answered `Dropped` with nothing taken, and touches nothing.
pub proof fn law_write_after_close<D, R: StreamAnyConsumer<D>>(
    reader: &mut HostReader<R>,
    cx: &mut Context<'_>,
    store: &mut Store<D>,
    source: &mut Source,
    finish: bool,
    r: Poll<Result<ReturnCode, Error>>,
)
    requires
        old(reader).id.store == old(store)@.id,
        old(reader).id.rep < old(store)@.next,
        !old(store)@.live.contains_key(old(reader).id.rep),
        call_ensures(HostReader::<R>::write::<D>, (reader, cx, store, source, finish), r),
    ensures
        r == Poll::Ready(Ok::<ReturnCode, Error>(ReturnCode::Dropped(0))),
        *final(reader) == *old(reader),
        *final(store) == *old(store),
        *final(cx) == *old(cx),
        final(source)@ == old(source)@,
{
}

/// A write to what is open polls the consumer once, with the context, the store, the items and the
/// request to finish that it got, and tells the writer what the consumer answered.
pub proof fn law_write_polls<D, R: StreamAnyConsumer<D>>(
    reader: &mut HostReader<R>,
    cx: &mut Context<'_>,
    store: &mut Store<D>,
    source: &mut Source,
    finish: bool,
    r: Poll<Result<ReturnCode, Error>>,
)
    requires
        old(store)@.live.contains_key(old(reader).id.rep),
        old(store)@.live[old(reader).id.rep].kind == old(reader).id.kind,
        old(reader).id.store == old(store)@.id,
        call_ensures(HostReader::<R>::write::<D>, (reader, cx, store, source, finish), r),
    ensures
        exists|polled: Poll<Result<StreamResult, Error>>|
            {
                &&& #[trigger] R::consumed(
                    (old(reader).consumer, *old(store), old(source)@, *old(cx)),
                    finish,
                    (final(reader).consumer, *final(store), final(source)@, *final(cx)),
                    polled,
                )
                &&& r is Pending <==> polled is Pending
                &&& r matches Poll::Ready(Err(e)) ==> polled == Poll::Ready(
                    Err::<StreamResult, Error>(e),
                )
                &&& polled == Poll::Ready(Ok::<StreamResult, Error>(StreamResult::Completed)) <==> (
                r matches Poll::Ready(Ok(ReturnCode::Completed(_))))
                &&& polled == Poll::Ready(Ok::<StreamResult, Error>(StreamResult::Cancelled)) <==> (
                r matches Poll::Ready(Ok(ReturnCode::Cancelled(_))))
                &&& polled == Poll::Ready(Ok::<StreamResult, Error>(StreamResult::Dropped)) <==> (
                r matches Poll::Ready(Ok(ReturnCode::Dropped(_))))
            },
{
}

/// The write end of a future delivers the value and nothing else, and is `Completed` if and only if
/// there was one. Without one it is `Cancelled`, and what was in the destination stays.
pub proof fn law_delivered(
    polled: Poll<Result<Option<Val>, Error>>,
    destination: &mut Destination<Option<Val>>,
    r: Poll<Result<StreamResult, Error>>,
)
    requires
        call_ensures(crate::future_end::deliver_polled, (polled, destination), r),
    ensures
        r is Pending <==> polled is Pending,
        r matches Poll::Ready(Err(e)) ==> polled == Poll::Ready(Err::<Option<Val>, Error>(e)),
        polled matches Poll::Ready(Err(e)) ==> r == Poll::Ready(Err::<StreamResult, Error>(e)),
        (polled matches Poll::Ready(Ok(Some(_)))) <==> r == Poll::Ready(
            Ok::<StreamResult, Error>(StreamResult::Completed),
        ),
        (polled matches Poll::Ready(Ok(None))) <==> r == Poll::Ready(
            Ok::<StreamResult, Error>(StreamResult::Cancelled),
        ),
        polled matches Poll::Ready(Ok(Some(value))) ==> final(destination).buffer == Some(value),
        !(polled matches Poll::Ready(Ok(Some(_)))) ==> final(destination).buffer == old(
            destination,
        ).buffer,
{
}

/// The read end of a future is `Completed` if and only if the consumer is done and nothing is left,
/// and `Cancelled` if and only if it is done and something is.
pub proof fn law_answered(
    polled: Poll<Result<(), Error>>,
    remaining: usize,
    r: Poll<Result<StreamResult, Error>>,
)
    requires
        call_ensures(crate::future_end::answer_polled, (polled, remaining), r),
    ensures
        r is Pending <==> polled is Pending,
        (r matches Poll::Ready(Err(_))) <==> (polled matches Poll::Ready(Err(_))),
        polled matches Poll::Ready(Err(e)) ==> r == Poll::Ready(Err::<StreamResult, Error>(e)),
        r == Poll::Ready(Ok::<StreamResult, Error>(StreamResult::Completed)) <==> (
        polled matches Poll::Ready(Ok(_))) && remaining == 0,
        r == Poll::Ready(Ok::<StreamResult, Error>(StreamResult::Cancelled)) <==> (
        polled matches Poll::Ready(Ok(_))) && remaining > 0,
{
}

/// A producer that waits for a future has the value if and only if the future has it, and an error
/// if and only if the future has one. Else it waits, unless it is asked to finish: then there is no
/// value.
pub proof fn law_waited<E: Into<Error>>(
    polled: Poll<Result<Val, E>>,
    finish: bool,
    r: Poll<Result<Option<Val>, Error>>,
)
    requires
        call_ensures(crate::producers::produce_polled::<E>, (polled, finish), r),
    ensures
        r is Pending <==> polled is Pending && !finish,
        r == Poll::Ready(Ok::<Option<Val>, Error>(None)) <==> polled is Pending && finish,
        polled matches Poll::Ready(Ok(value)) ==> r == Poll::Ready(
            Ok::<Option<Val>, Error>(Some(value)),
        ),
        r matches Poll::Ready(Ok(Some(value))) ==> polled == Poll::Ready(Ok::<Val, E>(value)),
        (r matches Poll::Ready(Err(_))) <==> (polled matches Poll::Ready(Err(_))),
        polled matches Poll::Ready(Err(cause)) ==> (r matches Poll::Ready(Err(e)) && call_ensures(
            <E as Into<Error>>::into,
            (cause,),
            e,
        )),
{
}

/// A poll of a producer of a stream does what the producer says that it does, and leaves the store
/// in order.
pub proof fn law_stream_produced<D, P: StreamAnyProducer<D>>(
    producer: &mut P,
    cx: &mut Context<'_>,
    store: &mut Store<D>,
    destination: &mut Destination<P::Buffer>,
    finish: bool,
    r: Poll<Result<StreamResult, Error>>,
)
    requires
        call_ensures(
            <P as StreamAnyProducer<D>>::poll_produce,
            (producer, cx, store, destination, finish),
            r,
        ),
    ensures
        P::produced(
            (*old(producer), *old(store), old(destination).buffer.items(), *old(cx)),
            finish,
            (*final(producer), *final(store), final(destination).buffer.items(), *final(cx)),
            r,
        ),
        final(store)@.wf(),
        final(store)@.later(old(store)@),
{
}

/// A poll of a consumer of a stream does what the consumer says that it does, leaves the store in
/// order and takes items only from the front.
pub proof fn law_stream_consumed<D, C: StreamAnyConsumer<D>>(
    consumer: &mut C,
    cx: &mut Context<'_>,
    store: &mut Store<D>,
    source: &mut Source,
    finish: bool,
    r: Poll<Result<StreamResult, Error>>,
    k: int,
)
    requires
        call_ensures(
            <C as StreamAnyConsumer<D>>::poll_consume,
            (consumer, cx, store, source, finish),
            r,
        ),
    ensures
        C::consumed(
            (*old(consumer), *old(store), old(source)@, *old(cx)),
            finish,
            (*final(consumer), *final(store), final(source)@, *final(cx)),
            r,
        ),
        final(store)@.wf(),
        final(store)@.later(old(store)@),
        final(source)@.len() <= old(source)@.len(),
        0 <= k < final(source)@.len() ==> final(source)@[k] == old(source)@[k + old(source)@.len()
            - final(source)@.len()],
{
}

/// A poll of a producer or a consumer of a future does what it says that it does, and leaves the
/// store in order.
pub proof fn law_future_ends<D, P: FutureAnyProducer<D>, C: FutureAnyConsumer<D>>(
    producer: &mut P,
    cx: &mut Context<'_>,
    store: &mut Store<D>,
    finish: bool,
    made: Poll<Result<Option<Val>, Error>>,
    consumer: &mut C,
    other: &mut Context<'_>,
    later: &mut Store<D>,
    source: &mut Source,
    taken: Poll<Result<(), Error>>,
)
    requires
        call_ensures(
            <P as FutureAnyProducer<D>>::poll_produce,
            (producer, cx, store, finish),
            made,
        ),
        call_ensures(
            <C as FutureAnyConsumer<D>>::poll_consume,
            (consumer, other, later, source, finish),
            taken,
        ),
    ensures
        P::produced(
            (*old(producer), *old(store), *old(cx)),
            finish,
            (*final(producer), *final(store), *final(cx)),
            made,
        ),
        final(store)@.wf(),
        final(store)@.later(old(store)@),
        C::consumed(
            (*old(consumer), *old(later), old(source)@, *old(other)),
            finish,
            (*final(consumer), *final(later), final(source)@, *final(other)),
            taken,
        ),
        final(later)@.wf(),
        final(later)@.later(old(later)@),
        final(source)@.len() <= old(source)@.len(),
{
}

/// The write end of a future polls the producer of the value once, with the context, the store and
/// the request to finish that it got. If there is a value it delivers it and is `Completed`, if the
/// producer has none it is `Cancelled`, and an error or a wait it hands on.
pub proof fn law_write_end<D, P: FutureAnyProducer<D>>(
    end: &mut Producer<P>,
    cx: &mut Context<'_>,
    store: &mut Store<D>,
    destination: &mut Destination<Option<Val>>,
    finish: bool,
    r: Poll<Result<StreamResult, Error>>,
)
    requires
        call_ensures(
            <Producer<P> as StreamAnyProducer<D>>::poll_produce,
            (end, cx, store, destination, finish),
            r,
        ),
    ensures
        exists|polled: Poll<Result<Option<Val>, Error>>|
            {
                &&& #[trigger] P::produced(
                    (old(end).0, *old(store), *old(cx)),
                    finish,
                    (final(end).0, *final(store), *final(cx)),
                    polled,
                )
                &&& r is Pending <==> polled is Pending
                &&& polled matches Poll::Ready(Err(e)) ==> r == Poll::Ready(
                    Err::<StreamResult, Error>(e),
                )
                &&& polled matches Poll::Ready(Ok(None)) ==> r == Poll::Ready(
                    Ok::<StreamResult, Error>(StreamResult::Cancelled),
                )
                &&& polled matches Poll::Ready(Ok(Some(value))) ==> r == Poll::Ready(
                    Ok::<StreamResult, Error>(StreamResult::Completed),
                ) && final(destination).buffer == Some(value)
                &&& !(polled matches Poll::Ready(Ok(Some(_)))) ==> final(destination).buffer == old(
                    destination,
                ).buffer
            },
{
    law_stream_produced::<D, Producer<P>>(end, cx, store, destination, finish, r);
    lemma_one_item(old(destination).buffer, final(destination).buffer);
    let polled = choose|polled: Poll<Result<Option<Val>, Error>>|
        {
            &&& #[trigger] P::produced(
                (old(end).0, *old(store), *old(cx)),
                finish,
                (final(end).0, *final(store), *final(cx)),
                polled,
            )
            &&& r == crate::future_end::produce_outcome(polled)
            &&& final(destination).buffer.items() == crate::future_end::delivered(
                polled,
                old(destination).buffer.items(),
            )
        };
    if let Poll::Ready(Ok(Some(value))) = polled {
        assert(seq![value][0] == value);
        assert(final(destination).buffer.items()[0] == value);
    }
}

/// A buffer for at most one item is fixed by the items that it holds.
proof fn lemma_one_item(a: Option<Val>, b: Option<Val>)
    ensures
        a.items() == b.items() ==> a == b,
        a.items().len() == 1 ==> a == Some(a.items()[0]),
        b.items().len() == 1 ==> b == Some(b.items()[0]),
        a.items().len() == 0 <==> a is None,
        b.items().len() == 0 <==> b is None,
{
    if a.items() == b.items() {
        assert(a.items().len() == b.items().len());
        match (a, b) {
            (Some(x), Some(y)) => {
                assert(a.items()[0] == x);
                assert(b.items()[0] == y);
            },
            _ => {},
        }
    }
}

/// The read end of a future polls the consumer of the value once, with the context, the store, the
/// items and the request to finish that it got. If the consumer is done, the end is `Completed` if
/// nothing is left and `Cancelled` if something is; an error or a wait it hands on.
pub proof fn law_read_end<D: 'static, C: FutureAnyConsumer<D>>(
    end: &mut Consumer<C>,
    cx: &mut Context<'_>,
    store: &mut Store<D>,
    source: &mut Source,
    finish: bool,
    r: Poll<Result<StreamResult, Error>>,
)
    requires
        call_ensures(
            <Consumer<C> as StreamAnyConsumer<D>>::poll_consume,
            (end, cx, store, source, finish),
            r,
        ),
    ensures
        exists|polled: Poll<Result<(), Error>>|
            {
                &&& #[trigger] C::consumed(
                    (old(end).0, *old(store), old(source)@, *old(cx)),
                    finish,
                    (final(end).0, *final(store), final(source)@, *final(cx)),
                    polled,
                )
                &&& r is Pending <==> polled is Pending
                &&& polled matches Poll::Ready(Err(e)) ==> r == Poll::Ready(
                    Err::<StreamResult, Error>(e),
                )
                &&& polled matches Poll::Ready(Ok(_)) ==> r == Poll::Ready(
                    Ok::<StreamResult, Error>(
                        if final(source)@.len() == 0 {
                            StreamResult::Completed
                        } else {
                            StreamResult::Cancelled
                        },
                    ),
                )
            },
{
    law_stream_consumed::<D, Consumer<C>>(end, cx, store, source, finish, r, 0);
}

/// A vector delivers all its items, in order and as they are, to one read, whether asked to finish
/// or not. It is empty then, and the stream is over. Nothing else is touched.
pub proof fn law_vector_read<D>(
    items: &mut Vec<Val>,
    cx: &mut Context<'_>,
    store: &mut Store<D>,
    destination: &mut Destination<VecBuffer>,
    finish: bool,
    r: Poll<Result<StreamResult, Error>>,
)
    requires
        call_ensures(
            <Vec<Val> as StreamAnyProducer<D>>::poll_produce,
            (items, cx, store, destination, finish),
            r,
        ),
    ensures
        final(destination).buffer.items@ == old(items)@,
        final(items)@.len() == 0,
        r == Poll::Ready(Ok::<StreamResult, Error>(StreamResult::Dropped)),
        *final(store) == *old(store),
        *final(cx) == *old(cx),
{
    law_stream_produced::<D, Vec<Val>>(items, cx, store, destination, finish, r);
}

/// A boxed slice delivers all its items, in order and as they are, to one read, whether asked to
/// finish or not. It is empty then, and the stream is over. Nothing else is touched.
pub proof fn law_slice_read<D>(
    items: &mut Box<[Val]>,
    cx: &mut Context<'_>,
    store: &mut Store<D>,
    destination: &mut Destination<VecBuffer>,
    finish: bool,
    r: Poll<Result<StreamResult, Error>>,
)
    requires
        call_ensures(
            <Box<[Val]> as StreamAnyProducer<D>>::poll_produce,
            (items, cx, store, destination, finish),
            r,
        ),
    ensures
        final(destination).buffer.items@ == old(items)@,
        final(items)@.len() == 0,
        r == Poll::Ready(Ok::<StreamResult, Error>(StreamResult::Dropped)),
        *final(store) == *old(store),
        *final(cx) == *old(cx),
{
    law_stream_produced::<D, Box<[Val]>>(items, cx, store, destination, finish, r);
}

/// Every read of a stream without items, whether asked to finish or not, delivers nothing and says
/// that the stream is over. Nothing is touched.
pub proof fn law_empty_stream_read<D>(
    producer: &mut futures::stream::Empty<Val>,
    cx: &mut Context<'_>,
    store: &mut Store<D>,
    destination: &mut Destination<Option<Val>>,
    finish: bool,
    r: Poll<Result<StreamResult, Error>>,
)
    requires
        call_ensures(
            <futures::stream::Empty<Val> as StreamAnyProducer<D>>::poll_produce,
            (producer, cx, store, destination, finish),
            r,
        ),
    ensures
        r == Poll::Ready(Ok::<StreamResult, Error>(StreamResult::Dropped)),
        final(destination).buffer == old(destination).buffer,
        *final(producer) == *old(producer),
        *final(store) == *old(store),
        *final(cx) == *old(cx),
{
    law_stream_produced::<D, futures::stream::Empty<Val>>(
        producer,
        cx,
        store,
        destination,
        finish,
        r,
    );
    lemma_one_item(old(destination).buffer, final(destination).buffer);
}

/// Every read of an iterator without items, whether asked to finish or not, delivers nothing and
/// says that the stream is over. Nothing is touched.
pub proof fn law_empty_iterator_read<D>(
    producer: &mut core::iter::Empty<Val>,
    cx: &mut Context<'_>,
    store: &mut Store<D>,
    destination: &mut Destination<Option<Val>>,
    finish: bool,
    r: Poll<Result<StreamResult, Error>>,
)
    requires
        call_ensures(
            <core::iter::Empty<Val> as StreamAnyProducer<D>>::poll_produce,
            (producer, cx, store, destination, finish),
            r,
        ),
    ensures
        r == Poll::Ready(Ok::<StreamResult, Error>(StreamResult::Dropped)),
        final(destination).buffer == old(destination).buffer,
        *final(producer) == *old(producer),
        *final(store) == *old(store),
        *final(cx) == *old(cx),
{
    law_stream_produced::<D, core::iter::Empty<Val>>(producer, cx, store, destination, finish, r);
    lemma_one_item(old(destination).buffer, final(destination).buffer);
}

/// What the producers of streams say of a poll is that the items go out at once and the stream is
/// over: those of a vector or a slice all and in order, and where there are none nothing.
pub proof fn law_what_is_produced<D>(
    finish: bool,
    r: Poll<Result<StreamResult, Error>>,
    a: (futures::stream::Empty<Val>, Store<D>, Seq<Val>, Context<'_>),
    b: (futures::stream::Empty<Val>, Store<D>, Seq<Val>, Context<'_>),
    c: (core::iter::Empty<Val>, Store<D>, Seq<Val>, Context<'_>),
    d: (core::iter::Empty<Val>, Store<D>, Seq<Val>, Context<'_>),
    e: (Vec<Val>, Store<D>, Seq<Val>, Context<'_>),
    f: (Vec<Val>, Store<D>, Seq<Val>, Context<'_>),
    g: (Box<[Val]>, Store<D>, Seq<Val>, Context<'_>),
    h: (Box<[Val]>, Store<D>, Seq<Val>, Context<'_>),
)
    requires
        <futures::stream::Empty<Val> as StreamAnyProducer<D>>::produced(a, finish, b, r),
        <core::iter::Empty<Val> as StreamAnyProducer<D>>::produced(c, finish, d, r),
        <Vec<Val> as StreamAnyProducer<D>>::produced(e, finish, f, r),
        <Box<[Val]> as StreamAnyProducer<D>>::produced(g, finish, h, r),
    ensures
        r == Poll::Ready(Ok::<StreamResult, Error>(StreamResult::Dropped)),
        b.2 == a.2,
        d.2 == c.2,
        f.2 == e.0@,
        h.2 == g.0@,
        b.1 == a.1 && d.1 == c.1 && f.1 == e.1 && h.1 == g.1,
        b.3 == a.3 && d.3 == c.3 && f.3 == e.3 && h.3 == g.3,
{
}

/// Only the tuple without parts is the unit value, and a list of values is all unit if and only if
/// each of them is.
pub proof fn law_unit_values(value: &Val, unit: bool, values: &[Val], all: bool)
    requires
        call_ensures(Val::is_unit, (value,), unit),
        call_ensures(crate::val::are_all_unit, (values,), all),
    ensures
        unit <==> (*value matches Val::Tuple(parts) && parts@.len() == 0),
        all <==> (forall|k: int|
            0 <= k < values@.len() ==> (#[trigger] values@[k] matches Val::Tuple(parts)
                && parts@.len() == 0)),
{
    lemma_all_unit(values@);
}

/// The producers of this crate say that they make the unit value alone if and only if each item
/// that they hold is the unit value, and the write end of a future says what its producer says.
pub proof fn law_who_makes_unit<D, P: FutureAnyProducer<D>>(
    items: &Vec<Val>,
    a: bool,
    slice: &Box<[Val]>,
    b: bool,
    stream: &futures::stream::Empty<Val>,
    c: bool,
    iterator: &core::iter::Empty<Val>,
    d: bool,
    end: &Producer<P>,
    e: bool,
    f: bool,
)
    requires
        call_ensures(<Vec<Val> as StreamAnyProducer<D>>::makes_unit, (items,), a),
        call_ensures(<Box<[Val]> as StreamAnyProducer<D>>::makes_unit, (slice,), b),
        call_ensures(
            <futures::stream::Empty<Val> as StreamAnyProducer<D>>::makes_unit,
            (stream,),
            c,
        ),
        call_ensures(<core::iter::Empty<Val> as StreamAnyProducer<D>>::makes_unit, (iterator,), d),
        call_ensures(<Producer<P> as StreamAnyProducer<D>>::makes_unit, (end,), e),
        call_ensures(<P as FutureAnyProducer<D>>::makes_unit, (&end.0,), f),
    ensures
        a <==> (forall|k: int|
            0 <= k < items@.len() ==> (#[trigger] items@[k] matches Val::Tuple(parts)
                && parts@.len() == 0)),
        b <==> (forall|k: int|
            0 <= k < slice@.len() ==> (#[trigger] slice@[k] matches Val::Tuple(parts)
                && parts@.len() == 0)),
        c,
        d,
        e == f,
        a == StreamAnyProducer::<D>::unit_only(items),
        b == StreamAnyProducer::<D>::unit_only(slice),
        c == StreamAnyProducer::<D>::unit_only(stream),
        d == StreamAnyProducer::<D>::unit_only(iterator),
{
    lemma_all_unit(items@);
    lemma_all_unit(slice@);
}

/// What it is for all values to be the unit value.
proof fn lemma_all_unit(values: Seq<Val>)
    ensures
        crate::val::all_unit(values) <==> (forall|k: int|
            0 <= k < values.len() ==> (#[trigger] values[k] matches Val::Tuple(parts)
                && parts@.len() == 0)),
{
    if crate::val::all_unit(values) {
        assert forall|k: int| 0 <= k < values.len() implies (#[trigger] values[k] matches
        Val::Tuple(parts) && parts@.len() == 0) by {
            assert(values[k].is_unit_spec());
        }
    }
}

/// A source holds what it was made with, gives out its items in order and as they are, and says how
/// many it still has. One without items gives out nothing and stays so.
pub proof fn law_source(
    items: Vec<Val>,
    fresh: Source,
    asked: &Source,
    remaining: usize,
    source: &mut Source,
    taken: Option<Val>,
    k: int,
)
    requires
        call_ensures(Source::new, (items,), fresh),
        call_ensures(Source::remaining, (asked,), remaining),
        call_ensures(Source::read_val, (source,), taken),
    ensures
        fresh@ == items@,
        remaining == asked@.len(),
        taken is None <==> old(source)@.len() == 0,
        taken is None ==> final(source)@ == old(source)@,
        taken matches Some(value) ==> value == old(source)@[0],
        taken is Some ==> final(source)@.len() + 1 == old(source)@.len(),
        taken is Some && 0 <= k < final(source)@.len() ==> final(source)@[k] == old(source)@[k + 1],
{
}

/// A destination holds what was put into it last, and a buffer hands out the items that it holds.
pub proof fn law_buffers(
    destination: &mut Destination<VecBuffer>,
    buffer: VecBuffer,
    done: (),
    one: &mut Destination<Option<Val>>,
    value: Option<Val>,
    also: (),
    many: Vec<Val>,
    few: Vec<Val>,
    items: Vec<Val>,
    made: VecBuffer,
    fresh: VecBuffer,
)
    requires
        call_ensures(Destination::<VecBuffer>::set_buffer, (destination, buffer), done),
        call_ensures(Destination::<Option<Val>>::set_buffer, (one, value), also),
        call_ensures(<VecBuffer as WriteBuffer>::into_items, (buffer,), many),
        call_ensures(<Option<Val> as WriteBuffer>::into_items, (value,), few),
        call_ensures(<VecBuffer as From<Vec<Val>>>::from, (items,), made),
        call_ensures(<VecBuffer as Default>::default, (), fresh),
    ensures
        final(destination).buffer.items@ == buffer.items@,
        final(one).buffer == value,
        many@ == buffer.items@,
        value is None ==> few@.len() == 0,
        value matches Some(v) ==> few@.len() == 1 && few@[0] == v,
        made.items@ == items@,
        fresh.items@.len() == 0,
{
}

/// A producer turns only into an object of the type that it is asked for. An object tells the type
/// that it is of.
pub proof fn law_turned<D, P: StreamAnyProducer<D>, T: ComponentType>(
    me: P,
    ty: TypeId,
    r: Result<Box<dyn AnyObject>, P>,
    value: &T,
    told: TypeId,
)
    requires
        call_ensures(<P as StreamAnyProducer<D>>::try_into, (me, ty), r),
        call_ensures(<T as AnyObject>::type_of, (value,), told),
    ensures
        r matches Ok(object) ==> object.spec_type_of() == ty,
        told == T::spec_type_id(),
{
}

/// The producers of this crate stay what they are.
pub proof fn law_not_turned<D, P: FutureAnyProducer<D>>(
    ty: TypeId,
    items: Vec<Val>,
    a: Result<Box<dyn AnyObject>, Vec<Val>>,
    slice: Box<[Val]>,
    b: Result<Box<dyn AnyObject>, Box<[Val]>>,
    end: Producer<P>,
    c: Result<Box<dyn AnyObject>, Producer<P>>,
)
    requires
        call_ensures(<Vec<Val> as StreamAnyProducer<D>>::try_into, (items, ty), a),
        call_ensures(<Box<[Val]> as StreamAnyProducer<D>>::try_into, (slice, ty), b),
        call_ensures(<Producer<P> as StreamAnyProducer<D>>::try_into, (end, ty), c),
    ensures
        a == Err::<Box<dyn AnyObject>, Vec<Val>>(items),
        b == Err::<Box<dyn AnyObject>, Box<[Val]>>(slice),
        c == Err::<Box<dyn AnyObject>, Producer<P>>(end),
{
}

/// The component counts from nothing up to the count: a step writes the next number alone and goes
/// on to the one after it, until all are written. It fails if and only if an item was not taken,
/// and then stays where it is.
pub proof fn law_count_steps(
    count: u32,
    start: CountStream,
    task: &mut CountStream,
    remaining: &Vec<u32>,
    action: CountAction,
)
    requires
        call_ensures(Component::get, (count,), start),
        old(task)@.next <= old(task)@.count,
        call_ensures(CountStream::step, (task, remaining), action),
    ensures
        start@.next == 0,
        start@.count == count,
        final(task)@.count == old(task)@.count,
        action is Fail <==> remaining@.len() > 0,
        action is Finish <==> remaining@.len() == 0 && old(task)@.next == old(task)@.count,
        action is Write ==> final(task)@.next == old(task)@.next + 1,
        !(action is Write) ==> final(task)@.next == old(task)@.next,
        action matches CountAction::Write(items) ==> items@.len() == 1 && items@[0] == old(
            task,
        )@.next,
{
}

} // verus!
