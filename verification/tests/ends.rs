use future_stream_any::component_type::TypeId;
use future_stream_any::engine::Engine;
use future_stream_any::error::Error;
use future_stream_any::future_any::FutureAny;
use future_stream_any::future_end::{answer_polled, deliver_polled, Consumer, Producer};
use future_stream_any::handle_table::HandleType;
use future_stream_any::producers::produce_polled;
use future_stream_any::store::{Store, StoreOpaque, Transmit, TransmitKind, TransmitOrigin};
use future_stream_any::stream_any::StreamAny;
use future_stream_any::tables::{ComponentTypes, InstanceType};
use future_stream_any::transmit::{
    return_code, AnyObject, Destination, FutureAnyConsumer, FutureAnyProducer, Poll, ReturnCode,
    Source, StreamAnyConsumer, StreamAnyProducer, StreamResult, VecBuffer, WriteBuffer,
};
use future_stream_any::types::InterfaceType;
use future_stream_any::val::Val;
use std::future::Future;
use std::pin::Pin;
use std::sync::{Arc, Mutex};
use std::task::{Context, Waker};

fn store() -> Store<u8> {
    Store { data: 7, opaque: StoreOpaque::new(&mut Engine::new(true), 8) }
}

fn numbers(n: u32) -> Vec<Val> {
    (0..n).map(Val::U32).collect()
}

fn as_numbers(items: Vec<Val>) -> Vec<u32> {
    items
        .into_iter()
        .map(|v| match v {
            Val::U32(n) => n,
            _ => panic!("expected a number"),
        })
        .collect()
}

/// Takes one item of each write.
struct OneAtATimeAny {
    destination: Arc<Mutex<Vec<Val>>>,
}

impl<D> StreamAnyConsumer<D> for OneAtATimeAny {
    fn poll_consume(
        &mut self,
        _: &mut Context<'_>,
        _: &mut Store<D>,
        source: &mut Source,
        _: bool,
    ) -> Poll<Result<StreamResult, Error>> {
        self.destination.lock().unwrap().push(source.read_val().unwrap());
        Poll::Ready(Ok(StreamResult::Completed))
    }
}

/// Takes what there is if it is told to, and answers as it is told.
struct Scripted {
    take: bool,
    answer: Option<Poll<Result<(), Error>>>,
}

impl FutureAnyConsumer<u8> for Scripted {
    fn poll_consume(
        &mut self,
        _: &mut Context<'_>,
        _: &mut Store<u8>,
        source: &mut Source,
        _: bool,
    ) -> Poll<Result<(), Error>> {
        if self.take {
            source.read_val();
        }
        self.answer.take().unwrap()
    }
}

/// Waits for a future.
struct Waiting<Fut>(Pin<Box<Fut>>);

impl<Fut> Waiting<Fut> {
    fn new(future: Fut) -> Waiting<Fut> {
        Waiting(Box::pin(future))
    }
}

impl<D, Fut> FutureAnyProducer<D> for Waiting<Fut>
where
    Fut: Future<Output = Result<Val, Error>> + Send + 'static,
{
    fn makes_unit(&self) -> bool {
        false
    }

    fn poll_produce(
        &mut self,
        cx: &mut Context<'_>,
        _: &mut Store<D>,
        finish: bool,
    ) -> Poll<Result<Option<Val>, Error>> {
        let polled = match self.0.as_mut().poll(cx) {
            std::task::Poll::Ready(answer) => Poll::Ready(answer),
            std::task::Poll::Pending => Poll::Pending,
        };
        produce_polled(polled, finish)
    }
}

struct Never;

impl FutureAnyProducer<u8> for Never {
    fn makes_unit(&self) -> bool {
        false
    }

    fn poll_produce(
        &mut self,
        _: &mut Context<'_>,
        store: &mut Store<u8>,
        finish: bool,
    ) -> Poll<Result<Option<Val>, Error>> {
        store.data += 1;
        if finish {
            Poll::Ready(Ok(None))
        } else {
            Poll::Pending
        }
    }
}

#[test]
fn async_unit_stream_callee_val() {
    let mut cx = Context::from_waker(Waker::noop());
    let mut s = store();
    // An instance makes a stream without payload and hands it out.
    let mut types = ComponentTypes::new(0);
    let unit_stream = types.add_stream(None);
    let table = types.add_stream_table(unit_stream);
    let i = s.opaque.add_instance(InstanceType::new(Arc::new(types), vec![]), vec![]);
    let origin = TransmitOrigin::GuestStream(i, table);
    let id = s.opaque.new_transmit(TransmitKind::Stream, origin).unwrap();
    let index = s.opaque.lower_to_index(id, i, HandleType::Stream(table)).unwrap();
    let ty = InterfaceType::Stream(table);
    let lifted = StreamAny::lift_from_index(&mut s.opaque, i, ty, index).ok().unwrap();
    let stream = match Val::Stream(lifted) {
        Val::Stream(stream) => stream,
        _ => panic!("expected stream"),
    };
    let numbers = Arc::new(Mutex::new(Vec::<Val>::with_capacity(4)));
    // Read just one item at a time, forcing the writer to re-take ownership of any unwritten
    // items.
    let consumer = OneAtATimeAny { destination: numbers.clone() };
    let mut reader = stream.pipe(&mut s, consumer).ok().unwrap();
    let mut source = Source::new((0..4).map(|_| Val::Tuple(vec![])).collect());
    for i in 0.. {
        assert!(i < 1000);
        if 4 == numbers.lock().unwrap().len() {
            break;
        }
        let before = source.remaining();
        let r = reader.write(&mut cx, &mut s, &mut source, false);
        assert!(matches!(r, Poll::Ready(Ok(ReturnCode::Completed(1)))));
        assert_eq!(source.remaining(), before - 1);
    }
    assert_eq!(source.remaining(), 0);
}

#[test]
fn a_write_after_close_is_dropped() {
    let mut cx = Context::from_waker(Waker::noop());
    let mut s = store();
    let (stream, _) = StreamAny::new(&mut s, numbers(0)).ok().unwrap();
    let mut copy = stream.clone();
    let taken = Arc::new(Mutex::new(vec![]));
    let consumer = OneAtATimeAny { destination: taken.clone() };
    let mut reader = stream.pipe(&mut s, consumer).ok().unwrap();
    assert_eq!((reader.id, reader.kind), (copy.id(), TransmitKind::Stream));
    let mut source = Source::new(numbers(3));
    assert!(matches!(
        reader.write(&mut cx, &mut s, &mut source, false),
        Poll::Ready(Ok(ReturnCode::Completed(1)))
    ));
    assert!(copy.close(&mut s).is_ok());
    assert!(matches!(
        reader.write(&mut cx, &mut s, &mut source, false),
        Poll::Ready(Ok(ReturnCode::Dropped(0)))
    ));
    assert_eq!(source.remaining(), 2);
    assert_eq!(taken.lock().unwrap().len(), 1);
    let consumer = OneAtATimeAny { destination: taken };
    assert!(matches!(copy.pipe(&mut s, consumer).err().unwrap(), Error::Closed));
}

#[test]
fn a_closed_future_gets_no_consumer() {
    let mut s = store();
    let (mut future, _) = FutureAny::new(&mut s, Never).ok().unwrap();
    assert!(future.close(&mut s).is_ok());
    let e = future.pipe(&mut s, Scripted { take: false, answer: None }).err().unwrap();
    assert!(matches!(e, Error::Closed));
    assert_eq!(e.message(), "already closed");
}

#[test]
fn the_consumer_of_a_future() {
    let mut cx = Context::from_waker(Waker::noop());
    let mut write = |take: bool, answer: Poll<Result<(), Error>>| {
        let mut s = store();
        let (future, _) = FutureAny::new(&mut s, Never).ok().unwrap();
        let consumer = Scripted { take, answer: Some(answer) };
        let mut reader = future.pipe(&mut s, consumer).ok().unwrap();
        assert_eq!(reader.kind, TransmitKind::Future);
        let mut source = Source::new(numbers(1));
        reader.write(&mut cx, &mut s, &mut source, false)
    };
    assert!(matches!(
        write(true, Poll::Ready(Ok(()))),
        Poll::Ready(Ok(ReturnCode::Completed(1)))
    ));
    assert!(matches!(
        write(false, Poll::Ready(Ok(()))),
        Poll::Ready(Ok(ReturnCode::Cancelled(0)))
    ));
    assert!(matches!(write(false, Poll::Pending), Poll::Pending));
    assert!(matches!(
        write(true, Poll::Ready(Err(Error::Reported("no".to_string())))),
        Poll::Ready(Err(Error::Reported(_)))
    ));
    let mut consumer = Consumer(Scripted { take: true, answer: Some(Poll::Ready(Ok(()))) });
    let mut source = Source::new(numbers(2));
    let r = consumer.poll_consume(&mut cx, &mut store(), &mut source, true);
    assert!(matches!(r, Poll::Ready(Ok(StreamResult::Cancelled))));
}

#[test]
fn the_producer_of_a_future() {
    let mut cx = Context::from_waker(Waker::noop());
    let mut s = store();
    let value = Waiting::new(std::future::ready(Ok::<Val, Error>(Val::U32(5))));
    let (_, mut writer) = FutureAny::new(&mut s, value).ok().unwrap();
    let mut dst: Destination<Option<Val>> = Destination { buffer: None };
    let r = writer.producer.poll_produce(&mut cx, &mut s, &mut dst, false);
    assert!(matches!(r, Poll::Ready(Ok(StreamResult::Completed))));
    assert_eq!(as_numbers(dst.buffer.into_items()), vec![5]);

    let mut producer = Producer(Never);
    let mut dst: Destination<Option<Val>> = Destination { buffer: None };
    let r = producer.poll_produce(&mut cx, &mut s, &mut dst, false);
    assert!(matches!(r, Poll::Pending));
    let r = producer.poll_produce(&mut cx, &mut s, &mut dst, true);
    assert!(matches!(r, Poll::Ready(Ok(StreamResult::Cancelled))));
    assert!(dst.buffer.is_none());
    // The store is the one that was passed in.
    assert_eq!(s.data, 9);

    let failing = std::future::ready(Err::<Val, Error>(Error::Reported("no".to_string())));
    let failing = Waiting::new(failing);
    let r = Producer(failing).poll_produce(&mut cx, &mut s, &mut dst, false);
    match r {
        Poll::Ready(Err(e)) => assert_eq!(e.message(), "no"),
        _ => panic!("expected an error"),
    }
}

#[test]
fn a_future_that_is_not_ready() {
    let mut cx = Context::from_waker(Waker::noop());
    let mut s = store();
    let mut pending = Waiting::new(std::future::pending::<Result<Val, Error>>());
    assert!(matches!(pending.poll_produce(&mut cx, &mut s, false), Poll::Pending));
    assert!(matches!(pending.poll_produce(&mut cx, &mut s, true), Poll::Ready(Ok(None))));
    let r = produce_polled(Poll::<Result<Val, Error>>::Ready(Ok(Val::Bool(true))), true);
    assert!(matches!(r, Poll::Ready(Ok(Some(Val::Bool(true))))));
    let mut boxed = Waiting::new(async { Ok::<Val, Error>(Val::U32(8)) });
    let r = boxed.poll_produce(&mut cx, &mut s, false);
    assert!(matches!(r, Poll::Ready(Ok(Some(Val::U32(8))))));
}

#[test]
fn a_future_is_polled_until_it_is_ready() {
    let mut cx = Context::from_waker(Waker::noop());
    let mut s = store();
    let mut polls: u32 = 0;
    let mut producer = Waiting::new(std::future::poll_fn(move |_| {
        polls += 1;
        if polls < 3 {
            std::task::Poll::Pending
        } else {
            std::task::Poll::Ready(Ok::<Val, Error>(Val::U32(polls)))
        }
    }));
    assert!(matches!(producer.poll_produce(&mut cx, &mut s, false), Poll::Pending));
    assert!(matches!(producer.poll_produce(&mut cx, &mut s, true), Poll::Ready(Ok(None))));
    let r = producer.poll_produce(&mut cx, &mut s, false);
    assert!(matches!(r, Poll::Ready(Ok(Some(Val::U32(3))))));
}

#[test]
fn what_a_polled_end_answers() {
    let mut dst: Destination<Option<Val>> = Destination { buffer: Some(Val::U32(1)) };
    assert!(matches!(deliver_polled(Poll::Pending, &mut dst), Poll::Pending));
    assert!(matches!(dst.buffer, Some(Val::U32(1))));
    let r = deliver_polled(Poll::Ready(Ok(Some(Val::U32(2)))), &mut dst);
    assert!(matches!(r, Poll::Ready(Ok(StreamResult::Completed))));
    assert!(matches!(dst.buffer, Some(Val::U32(2))));
    let r = answer_polled(Poll::Ready(Ok(())), 0);
    assert!(matches!(r, Poll::Ready(Ok(StreamResult::Completed))));
    let r = answer_polled(Poll::Ready(Ok(())), 1);
    assert!(matches!(r, Poll::Ready(Ok(StreamResult::Cancelled))));
    assert!(matches!(
        return_code(Poll::Ready(Ok(StreamResult::Dropped)), 2),
        Poll::Ready(Ok(ReturnCode::Dropped(2)))
    ));
    assert!(matches!(
        return_code(Poll::Ready(Ok(StreamResult::Cancelled)), 0),
        Poll::Ready(Ok(ReturnCode::Cancelled(0)))
    ));
}

#[test]
fn streams_without_items() {
    let mut cx = Context::from_waker(Waker::noop());
    let mut s = store();
    let mut dst: Destination<Option<Val>> = Destination { buffer: None };
    let r = std::iter::empty::<Val>().poll_produce(&mut cx, &mut s, &mut dst, false);
    assert!(matches!(r, Poll::Ready(Ok(StreamResult::Dropped))));
    let mut empty = futures::stream::empty::<Val>();
    let r = empty.poll_produce(&mut cx, &mut s, &mut dst, true);
    assert!(matches!(r, Poll::Ready(Ok(StreamResult::Dropped))));
    assert!(dst.buffer.into_items().is_empty());
    let (any, _) = StreamAny::new(&mut s, futures::stream::empty::<Val>()).ok().unwrap();
    assert!(!s.opaque.is_closed(any.id()));
}

#[test]
fn all_items_at_once() {
    let mut cx = Context::from_waker(Waker::noop());
    let mut s = store();
    let mut vec = numbers(3);
    let mut dst = Destination { buffer: VecBuffer::default() };
    let r = vec.poll_produce(&mut cx, &mut s, &mut dst, false);
    assert!(matches!(r, Poll::Ready(Ok(StreamResult::Dropped))));
    assert!(vec.is_empty());
    assert_eq!(as_numbers(dst.buffer.into_items()), vec![0, 1, 2]);
    let mut dst = Destination { buffer: VecBuffer::default() };
    let _ = vec.poll_produce(&mut cx, &mut s, &mut dst, false);
    assert!(dst.buffer.into_items().is_empty());

    let mut slice: Box<[Val]> = numbers(2).into_boxed_slice();
    let mut dst = Destination { buffer: VecBuffer::default() };
    let r = slice.poll_produce(&mut cx, &mut s, &mut dst, false);
    assert!(matches!(r, Poll::Ready(Ok(StreamResult::Dropped))));
    assert!(slice.is_empty());
    assert_eq!(as_numbers(dst.buffer.into_items()), vec![0, 1]);
}

/// Turns into a number if it is asked for one.
struct Number(u32);

impl StreamAnyProducer<u8> for Number {
    type Buffer = Option<Val>;

    fn makes_unit(&self) -> bool {
        false
    }

    fn poll_produce(
        &mut self,
        _: &mut Context<'_>,
        _: &mut Store<u8>,
        destination: &mut Destination<Option<Val>>,
        _: bool,
    ) -> Poll<Result<StreamResult, Error>> {
        destination.set_buffer(Some(Val::U32(self.0)));
        Poll::Ready(Ok(StreamResult::Completed))
    }

    fn try_into(me: Self, ty: TypeId) -> Result<Box<dyn AnyObject>, Self> {
        if ty == TypeId::U32 {
            Ok(Box::new(me.0))
        } else {
            Err(me)
        }
    }
}

#[test]
fn a_producer_turns_into_another_object() {
    let object = StreamAnyProducer::try_into(Number(4), TypeId::U32).ok().unwrap();
    assert_eq!((*object).type_of(), TypeId::U32);
    assert_eq!(StreamAnyProducer::try_into(Number(4), TypeId::Unit).err().unwrap().0, 4);
}

#[test]
fn a_producer_stays_what_it_is() {
    let r = StreamAnyProducer::<u8>::try_into(numbers(2), TypeId::Other(3));
    assert_eq!(as_numbers(r.err().unwrap()), vec![0, 1]);
}

#[test]
fn reading_a_source() {
    let mut source = Source::new(numbers(2));
    assert!(matches!(source.read_val(), Some(Val::U32(0))));
    assert_eq!(source.remaining(), 1);
    assert!(matches!(source.read_val(), Some(Val::U32(1))));
    assert!(source.read_val().is_none());
    let t = Transmit { kind: TransmitKind::Future, origin: TransmitOrigin::Host, piped: false };
    assert_eq!(t, t.clone());
}
