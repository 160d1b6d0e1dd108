use future_stream_any::component_type::{CanonicalAbiInfo, ComponentType, TypeId};
use future_stream_any::engine::Engine;
use future_stream_any::error::Error;
use future_stream_any::future_any::FutureAny;
use future_stream_any::handle_table::HandleType;
use future_stream_any::producers::produce_polled;
use future_stream_any::reader::{FutureReader, StreamReader};
use future_stream_any::store::{
    ComponentInstanceId, Store, StoreOpaque, TableId, TransmitKind, TransmitOrigin,
};
use future_stream_any::stream_any::StreamAny;
use future_stream_any::tables::{ComponentTypes, InstanceType};
use future_stream_any::transmit::{FutureAnyProducer, Poll, StreamAnyProducer};
use future_stream_any::types::{
    CompoundKind, InterfaceType, TypeEnv, TypeFutureTableIndex, TypeStreamTableIndex,
};
use future_stream_any::val::Val;
use std::sync::Arc;
use std::task::Context;

/// The types of an instance, with the tables of its handles to `future<u32>`, to `future` without
/// payload, to `stream<u32>` and to `stream<list<u32>>`. Two instances with a different `gap` give
/// them different indices.
struct Types {
    instance: InstanceType,
    future_u32: TypeFutureTableIndex,
    future_unit: TypeFutureTableIndex,
    stream_u32: TypeStreamTableIndex,
    stream_list: TypeStreamTableIndex,
}

fn types(gap: usize) -> Types {
    let mut t = ComponentTypes::new(0);
    for _ in 0..gap {
        t.add_compound(CompoundKind::List, vec![], vec![Some(InterfaceType::Bool)]);
    }
    let f = t.add_future(Some(InterfaceType::U32));
    let future_u32 = t.add_future_table(f);
    let f = t.add_future(None);
    let future_unit = t.add_future_table(f);
    let s = t.add_stream(Some(InterfaceType::U32));
    let stream_u32 = t.add_stream_table(s);
    let list = t.add_compound(CompoundKind::List, vec![], vec![Some(InterfaceType::U32)]);
    let s = t.add_stream(Some(list));
    let stream_list = t.add_stream_table(s);
    Types {
        instance: InstanceType::new(Arc::new(t), vec![]),
        future_u32,
        future_unit,
        stream_u32,
        stream_list,
    }
}

fn store(capacity: usize) -> Store<u8> {
    Store { data: 7, opaque: StoreOpaque::new(&mut Engine::new(true), capacity) }
}

fn two_instances(
    store: &mut Store<u8>,
) -> (Types, ComponentInstanceId, Types, ComponentInstanceId) {
    let a = types(0);
    let b = types(3);
    let i = store.opaque.add_instance(a.instance.clone(), vec![0; 16]);
    let j = store.opaque.add_instance(b.instance.clone(), vec![0; 16]);
    (a, i, b, j)
}

fn guest_future(
    store: &mut Store<u8>,
    i: ComponentInstanceId,
    table: TypeFutureTableIndex,
) -> FutureAny {
    let id = store
        .opaque
        .new_transmit(TransmitKind::Future, TransmitOrigin::GuestFuture(i, table))
        .unwrap();
    let index = store.opaque.lower_to_index(id, i, HandleType::Future(table)).unwrap();
    match FutureAny::lift_from_index(&mut store.opaque, i, InterfaceType::Future(table), index) {
        Ok(any) => any,
        Err(e) => panic!("{}", e.message()),
    }
}

fn guest_stream(
    store: &mut Store<u8>,
    i: ComponentInstanceId,
    table: TypeStreamTableIndex,
) -> StreamAny {
    let id = store
        .opaque
        .new_transmit(TransmitKind::Stream, TransmitOrigin::GuestStream(i, table))
        .unwrap();
    let index = store.opaque.lower_to_index(id, i, HandleType::Stream(table)).unwrap();
    match StreamAny::lift_from_index(&mut store.opaque, i, InterfaceType::Stream(table), index) {
        Ok(any) => any,
        Err(e) => panic!("{}", e.message()),
    }
}

/// Never has a value.
struct NoValue;

impl<D> FutureAnyProducer<D> for NoValue {
    fn makes_unit(&self) -> bool {
        false
    }

    fn poll_produce(
        &mut self,
        _: &mut Context<'_>,
        _: &mut Store<D>,
        finish: bool,
    ) -> Poll<Result<Option<Val>, Error>> {
        produce_polled(Poll::<Result<Val, Error>>::Pending, finish)
    }
}

fn new_future(store: &mut Store<u8>) -> FutureAny {
    match FutureAny::new(store, NoValue) {
        Ok((any, _)) => any,
        Err(e) => panic!("{}", e.message()),
    }
}

#[test]
fn new_needs_concurrency_support() {
    let mut s = Store { data: 7u8, opaque: StoreOpaque::new(&mut Engine::new(false), 4) };
    let e = FutureAny::new(&mut s, NoValue).err().unwrap();
    assert!(matches!(e, Error::ConcurrencyDisabled));
    assert_eq!(e.message(), "concurrency support is not enabled");
    let e = StreamAny::new(&mut s, Vec::<Val>::new()).err().unwrap();
    assert!(matches!(e, Error::ConcurrencyDisabled));
    assert_eq!(s.data, 7);
}

#[test]
fn new_needs_room_and_close_frees_it() {
    let mut s = store(2);
    let mut a = new_future(&mut s);
    let b = new_future(&mut s);
    let store = a.id().store;
    assert_eq!(store.number, 0);
    assert_eq!(a.id(), TableId { store, rep: 0, kind: TransmitKind::Future });
    assert_eq!(b.id(), TableId { store, rep: 1, kind: TransmitKind::Future });
    let e = StreamAny::new(&mut s, Vec::<Val>::new()).err().unwrap();
    assert!(matches!(e, Error::TableFull));
    assert!(a.close(&mut s).is_ok());
    let (c, writer) = StreamAny::new(&mut s, Vec::<Val>::new()).ok().unwrap();
    // The name of the closed handle is not used again.
    assert_eq!(c.id(), TableId { store, rep: 2, kind: TransmitKind::Stream });
    assert_eq!(writer.id, c.id());
    assert_eq!(writer.kind, TransmitKind::Stream);
}

#[test]
fn new_future_hands_back_its_writer() {
    let mut s = store(2);
    let (any, writer) = FutureAny::new(&mut s, NoValue).ok().unwrap();
    assert_eq!(writer.id, any.id());
    assert_eq!(writer.kind, TransmitKind::Future);
    assert!(!s.opaque.is_closed(any.id()));
    assert_eq!(s.opaque.transmit_origin(any.id()).unwrap(), TransmitOrigin::Host);
}

#[test]
fn closing_twice_is_an_error() {
    let mut s = store(2);
    let mut f = new_future(&mut s);
    let mut copy = f.clone();
    assert!(f == copy);
    assert!(f.close(&mut s).is_ok());
    assert!(s.opaque.is_closed(f.id()));
    assert!(matches!(f.close(&mut s), Err(Error::Closed)));
    assert!(matches!(copy.close(&mut s), Err(Error::Closed)));
    let (mut t, _) = StreamAny::new(&mut s, Vec::<Val>::new()).ok().unwrap();
    assert!(t.close(&mut s).is_ok());
    assert!(matches!(t.close(&mut s), Err(Error::Closed)));
}

#[test]
fn what_a_producer_makes_is_of_no_known_type() {
    let mut s = store(2);
    let f = new_future(&mut s);
    let e = f.clone().try_into_future_reader::<u32>().err().unwrap();
    assert!(matches!(e, Error::PayloadTypesDiffer));
    assert_eq!(e.message(), "future payload types differ");
    let e = f.clone().try_into_future_reader::<()>().err().unwrap();
    assert!(matches!(e, Error::PayloadTypesDiffer));
    assert!(f == f.clone());
    let (t, _) = StreamAny::new(&mut s, vec![Val::U32(1)]).ok().unwrap();
    let e = t.clone().try_into_stream_reader::<()>().err().unwrap();
    assert!(matches!(e, Error::PayloadTypesDiffer));
    assert!(matches!(t.try_into_stream_reader::<u32>(), Err(Error::PayloadTypesDiffer)));
}

/// Makes the unit value.
struct UnitValue;

impl<D> FutureAnyProducer<D> for UnitValue {
    fn makes_unit(&self) -> bool {
        true
    }

    fn poll_produce(
        &mut self,
        _: &mut Context<'_>,
        _: &mut Store<D>,
        _: bool,
    ) -> Poll<Result<Option<Val>, Error>> {
        Poll::Ready(Ok(Some(Val::Tuple(vec![]))))
    }
}

#[test]
fn what_a_producer_of_unit_makes_is_read_as_unit() {
    let mut s = store(8);
    let (f, writer) = FutureAny::new(&mut s, UnitValue).ok().unwrap();
    assert!(StreamAnyProducer::<u8>::makes_unit(&writer.producer));
    assert_eq!(f.clone().try_into_future_reader::<()>().ok().unwrap().id(), f.id());
    assert!(f.clone().try_into_future_reader::<u32>().is_err());
    assert!(new_future(&mut s) != f);
    let unit = || Val::Tuple(vec![]);
    let (t, _) = StreamAny::new(&mut s, vec![unit(), unit()]).ok().unwrap();
    assert!(t.clone().try_into_stream_reader::<()>().is_ok());
    assert!(t.try_into_stream_reader::<u32>().is_err());
    let boxed = vec![unit()].into_boxed_slice();
    assert!(StreamAny::new(&mut s, boxed).ok().unwrap().0.try_into_stream_reader::<()>().is_ok());
    // One other item, and the stream is of no known type.
    let (t, _) = StreamAny::new(&mut s, vec![unit(), Val::Tuple(vec![unit()])]).ok().unwrap();
    assert!(matches!(t.try_into_stream_reader::<()>(), Err(Error::PayloadTypesDiffer)));
    let boxed = vec![Val::Bool(true), unit()].into_boxed_slice();
    assert!(StreamAny::new(&mut s, boxed).ok().unwrap().0.try_into_stream_reader::<()>().is_err());
    let (t, _) = StreamAny::new(&mut s, std::iter::empty::<Val>()).ok().unwrap();
    assert!(t.try_into_stream_reader::<()>().is_ok());
    let (t, _) = StreamAny::new(&mut s, futures::stream::empty::<Val>()).ok().unwrap();
    assert!(t.try_into_stream_reader::<()>().is_ok());
}

#[test]
fn stores_have_names_of_their_own() {
    let mut engine = Engine::new(true);
    let mut s: Store<u8> = Store { data: 0, opaque: StoreOpaque::new(&mut engine, 2) };
    let mut t: Store<u8> = Store { data: 0, opaque: StoreOpaque::new(&mut engine, 2) };
    let f = new_future(&mut s);
    let g = new_future(&mut t);
    assert_eq!((f.id().store.number, g.id().store.number), (0, 1));
    assert_eq!(f.id().store.engine, g.id().store.engine);
    assert_eq!(f.id().rep, g.id().rep);
    assert_ne!(f.id(), g.id());
    assert!(matches!(t.opaque.transmit_origin(f.id()), Err(Error::UnknownHandle)));
    assert!(matches!(s.opaque.transmit_origin(g.id()), Err(Error::UnknownHandle)));
    // Two engines number their stores alike, and have keys of their own.
    let mut u = store(2);
    assert_ne!(new_future(&mut u).id().store, f.id().store);
}

#[test]
fn a_reader_of_the_host_is_erased_and_read_again() {
    let mut s = store(2);
    let f = new_future(&mut s);
    let reader = FutureReader::<u32>::new_(f.id());
    let any = FutureAny::try_from_future_reader(&s, reader).ok().unwrap();
    assert!(any.clone().try_into_future_reader::<()>().is_err());
    let reader = any.clone().try_into_future_reader::<u32>().ok().unwrap();
    assert_eq!(reader.id(), f.id());
    assert!(FutureAny::try_from_future_reader(&s, reader).ok().unwrap() == any);
    // The payload is another one than that of the future as it was made.
    assert!(any != f);
}

#[test]
fn a_reader_of_another_store_is_refused() {
    let mut s = store(2);
    let other = store(2);
    let mut f = new_future(&mut s);
    let e = FutureAny::try_from_future_reader(&other, FutureReader::<u32>::new_(f.id()));
    assert!(matches!(e.err().unwrap(), Error::UnknownHandle));
    assert!(f.close(&mut s).is_ok());
    let e = FutureAny::try_from_future_reader(&s, FutureReader::<u32>::new_(f.id()));
    assert!(matches!(e.err().unwrap(), Error::UnknownHandle));
    let e = StreamAny::try_from_stream_reader(&s, StreamReader::<u32>::new_(f.id()));
    assert_eq!(e.err().unwrap().message(), "resource not present");
}

#[test]
fn a_stream_of_the_host_is_not_a_future() {
    let mut s = store(2);
    let f = new_future(&mut s);
    let (t, _) = StreamAny::new(&mut s, Vec::<Val>::new()).ok().unwrap();
    let e = FutureAny::try_from_future_reader(&s, FutureReader::<u32>::new_(t.id())).err().unwrap();
    assert!(matches!(e, Error::NotAFuture));
    let e = StreamAny::try_from_stream_reader(&s, StreamReader::<u32>::new_(f.id())).err().unwrap();
    assert!(matches!(e, Error::NotAStream));
    // A name of a stream that says it names a future names nothing.
    let id = TableId { kind: TransmitKind::Future, ..t.id() };
    let e = FutureAny::try_from_future_reader(&s, FutureReader::<u32>::new_(id)).err().unwrap();
    assert!(matches!(e, Error::UnknownHandle));
}

#[test]
fn a_stream_is_not_a_future() {
    let mut s = store(4);
    let (a, i, _, _) = two_instances(&mut s);
    let f = guest_future(&mut s, i, a.future_u32);
    let t = guest_stream(&mut s, i, a.stream_u32);
    let e = FutureAny::try_from_future_reader(&s, FutureReader::<u32>::new_(t.id())).err().unwrap();
    assert!(matches!(e, Error::NotAFuture));
    assert_eq!(e.message(), "not a future");
    let e = StreamAny::try_from_stream_reader(&s, StreamReader::<u32>::new_(f.id())).err().unwrap();
    assert!(matches!(e, Error::NotAStream));
    assert_eq!(e.message(), "not a stream");
}

#[test]
fn a_reader_of_a_guest_keeps_the_type_of_the_guest() {
    let mut s = store(4);
    let (a, i, _, _) = two_instances(&mut s);
    let t = guest_stream(&mut s, i, a.stream_list);
    let again = StreamAny::try_from_stream_reader(&s, StreamReader::<u32>::new_(t.id()));
    let again = again.ok().unwrap();
    assert!(again == t);
    // `u32` was said of it, and the instance says `list<u32>`.
    assert!(matches!(
        again.try_into_stream_reader::<u32>().err().unwrap(),
        Error::Expected { expected: "u32", found: InterfaceType::List(_) }
    ));
    let f = guest_future(&mut s, i, a.future_unit);
    assert!(f.clone().try_into_future_reader::<()>().is_ok());
    assert!(matches!(f.try_into_future_reader::<u32>(), Err(Error::PayloadTypesDiffer)));
    let f = guest_future(&mut s, i, a.future_u32);
    assert!(f.clone().try_into_future_reader::<u32>().is_ok());
    let e = f.try_into_future_reader::<()>().err().unwrap();
    assert_eq!(e.message(), "expected `unit`, found `u32`");
}

#[test]
fn lowered_and_lifted() {
    let mut s = store(4);
    let (a, i, b, j) = two_instances(&mut s);
    let f = guest_future(&mut s, i, a.future_u32);
    assert_ne!(a.future_u32, b.future_u32);
    // The other instance has other indices for the same type.
    let ty = InterfaceType::Future(b.future_u32);
    let index = f.lower_to_index(&mut s.opaque, j, ty).unwrap();
    assert_eq!(index, 1);
    assert_eq!(f.lower_to_index(&mut s.opaque, j, ty).unwrap(), 2);
    let back = FutureAny::lift_from_index(&mut s.opaque, j, ty, index).ok().unwrap();
    assert!(back == f);
    // The index is free again, and is the next to be taken.
    let e = FutureAny::lift_from_index(&mut s.opaque, j, ty, index).err().unwrap();
    assert!(matches!(e, Error::UnknownIndex));
    assert_eq!(f.lower_to_index(&mut s.opaque, j, ty).unwrap(), 1);
    let e = FutureAny::lift_from_index(&mut s.opaque, j, ty, 0).err().unwrap();
    assert!(matches!(e, Error::UnknownIndex));
}

#[test]
fn lowering_checks_the_payload() {
    let mut s = store(4);
    let (a, i, b, j) = two_instances(&mut s);
    let f = guest_future(&mut s, i, a.future_u32);
    let r = f.lower_to_index(&mut s.opaque, j, InterfaceType::Future(b.future_unit));
    assert!(matches!(r, Err(Error::PayloadTypesDiffer)));
    let t = guest_stream(&mut s, i, a.stream_list);
    let r = t.lower_to_index(&mut s.opaque, j, InterfaceType::Stream(b.stream_u32));
    assert!(matches!(r, Err(Error::PayloadTypesDiffer)));
    assert!(t.lower_to_index(&mut s.opaque, j, InterfaceType::Stream(b.stream_list)).is_ok());
    // A future whose payload is not known is taken to carry no value.
    let h = new_future(&mut s);
    assert!(h.lower_to_index(&mut s.opaque, j, InterfaceType::Future(b.future_unit)).is_ok());
    match h.lower_to_index(&mut s.opaque, j, InterfaceType::Future(b.future_u32)) {
        Err(Error::PayloadTypesDifferSince(cause)) => {
            assert!(matches!(*cause, Error::Expected { expected: "unit", .. }));
        }
        _ => panic!("the payloads differ"),
    }
    // What was refused took no index.
    let g = guest_future(&mut s, j, b.future_u32);
    assert_eq!(
        g.lower_to_index(&mut s.opaque, j, InterfaceType::Future(b.future_u32)).unwrap(),
        3
    );
}

#[test]
fn a_closed_handle_is_not_lowered_or_lifted() {
    let mut s = store(4);
    let (a, i, _, _) = two_instances(&mut s);
    let ty = InterfaceType::Future(a.future_u32);
    let mut f = guest_future(&mut s, i, a.future_u32);
    let index = f.lower_to_index(&mut s.opaque, i, ty).unwrap();
    assert!(f.close(&mut s).is_ok());
    assert!(matches!(f.lower_to_index(&mut s.opaque, i, ty), Err(Error::UnknownHandle)));
    let e = FutureAny::lift_from_index(&mut s.opaque, i, ty, index).err().unwrap();
    assert!(matches!(e, Error::UnknownHandle));
    let e = FutureAny::lift_from_index(&mut s.opaque, i, ty, index).err().unwrap();
    assert!(matches!(e, Error::UnknownIndex));
}

#[test]
fn a_handle_is_lifted_as_what_it_is() {
    let mut s = store(4);
    let (a, i, _, _) = two_instances(&mut s);
    let f = guest_future(&mut s, i, a.future_u32);
    let index = f.lower_to_index(&mut s.opaque, i, InterfaceType::Future(a.future_u32)).unwrap();
    let ty = InterfaceType::Future(a.future_unit);
    let e = FutureAny::lift_from_index(&mut s.opaque, i, ty, index).err().unwrap();
    assert!(matches!(e, Error::UnknownIndex));
    let ty = InterfaceType::Stream(a.stream_u32);
    let e = StreamAny::lift_from_index(&mut s.opaque, i, ty, index).err().unwrap();
    assert_eq!(e.message(), "unknown handle index");
    let ty = InterfaceType::Future(a.future_u32);
    assert!(FutureAny::lift_from_index(&mut s.opaque, i, ty, index).is_ok());
}

#[test]
fn through_flat_values_and_memory() {
    let mut s = store(4);
    let (a, i, _, _) = two_instances(&mut s);
    let f = guest_future(&mut s, i, a.future_u32);
    let ty = InterfaceType::Future(a.future_u32);
    let mut flat: u32 = 99;
    assert!(f.linear_lower_to_flat(&mut s.opaque, i, ty, &mut flat).is_ok());
    assert_eq!(flat, 1);
    assert!(f.linear_lower_to_memory(&mut s.opaque, i, ty, 8).is_ok());
    assert_eq!(&s.opaque.memory(i)[4..16], &[0u8, 0, 0, 0, 2, 0, 0, 0, 0, 0, 0, 0][..]);
    let bytes = s.opaque.memory(i)[8..12].to_vec();
    let back = FutureAny::linear_lift_from_memory(&mut s.opaque, i, ty, &bytes).ok().unwrap();
    assert!(back == f);
    let back = FutureAny::linear_lift_from_flat(&mut s.opaque, i, ty, &flat).ok().unwrap();
    assert!(back == f);
    let other = InterfaceType::Future(a.future_unit);
    let mut flat: u32 = 99;
    assert!(f.linear_lower_to_flat(&mut s.opaque, i, other, &mut flat).is_err());
    assert_eq!(flat, 99);
    assert!(f.linear_lower_to_memory(&mut s.opaque, i, other, 0).is_err());
    assert_eq!(&s.opaque.memory(i)[0..4], &[0u8; 4][..]);
}

#[test]
fn streams_through_flat_values_and_memory() {
    let mut s = store(4);
    let (a, i, _, _) = two_instances(&mut s);
    let t = guest_stream(&mut s, i, a.stream_u32);
    let ty = InterfaceType::Stream(a.stream_u32);
    let mut flat: u32 = 0;
    assert!(t.linear_lower_to_flat(&mut s.opaque, i, ty, &mut flat).is_ok());
    assert!(t.linear_lower_to_memory(&mut s.opaque, i, ty, 0).is_ok());
    assert_eq!(&s.opaque.memory(i)[0..4], &[2u8, 0, 0, 0][..]);
    let back = StreamAny::linear_lift_from_flat(&mut s.opaque, i, ty, &flat).ok().unwrap();
    assert!(back == t);
    let back = StreamAny::linear_lift_from_memory(&mut s.opaque, i, ty, &[2, 0, 0, 0]);
    assert!(back.ok().unwrap() == t);
}

/// A Rust type of the host that stands for `list<u32>`, whatever its index.
struct Numbers;

impl ComponentType for Numbers {
    fn spec_type_id() -> TypeId {
        TypeId::Other(5)
    }
    fn spec_is_unit() -> bool {
        false
    }
    fn spec_abi() -> CanonicalAbiInfo {
        CanonicalAbiInfo { size: 8, align: 4, flat_count: 2 }
    }
    fn spec_typecheck(_: InterfaceType, _: TypeEnv) -> Result<(), Error> {
        unreachable!()
    }
    fn type_id() -> TypeId {
        TypeId::Other(5)
    }
    fn is_unit() -> bool {
        false
    }
    fn abi() -> CanonicalAbiInfo {
        CanonicalAbiInfo { size: 8, align: 4, flat_count: 2 }
    }
    fn typecheck(ty: &InterfaceType, types: &InstanceType) -> Result<(), Error> {
        match ty {
            InterfaceType::List(i)
                if types.types().compound(CompoundKind::List, *i).parts[0]
                    == Some(InterfaceType::U32) =>
            {
                Ok(())
            }
            _ => Err(Error::Expected { expected: "list", found: *ty }),
        }
    }
}

#[test]
fn a_type_of_the_host_decides_for_its_payload() {
    let mut s = store(4);
    let (a, i, _, _) = two_instances(&mut s);
    let (made, _) = StreamAny::new(&mut s, Vec::<Val>::new()).ok().unwrap();
    let reader = StreamReader::<Numbers>::new_(made.id());
    let any = StreamAny::try_from_stream_reader(&s, reader).ok().unwrap();
    let list = InterfaceType::Stream(a.stream_list);
    assert!(any.lower_to_index(&mut s.opaque, i, list).is_ok());
    match any.lower_to_index(&mut s.opaque, i, InterfaceType::Stream(a.stream_u32)) {
        Err(Error::PayloadTypesDifferSince(cause)) => {
            assert_eq!(cause.message(), "expected `list`, found `u32`");
        }
        _ => panic!("the payloads differ"),
    }
    assert!(any.clone().try_into_stream_reader::<u32>().is_err());
    assert!(any.clone().try_into_stream_reader::<Numbers>().is_ok());
    // What an instance made is judged by the type that the instance has for it.
    let t = guest_stream(&mut s, i, a.stream_list);
    assert!(t.clone().try_into_stream_reader::<Numbers>().is_ok());
    assert!(t != any);
    let t = guest_stream(&mut s, i, a.stream_u32);
    assert!(t.try_into_stream_reader::<Numbers>().is_err());
}

#[test]
fn which_types_a_handle_stands_for() {
    let t = types(0);
    assert!(FutureAny::typecheck(&InterfaceType::Future(t.future_u32), &t.instance).is_ok());
    assert!(StreamAny::typecheck(&InterfaceType::Stream(t.stream_u32), &t.instance).is_ok());
    let e = FutureAny::typecheck(&InterfaceType::Stream(t.stream_u32), &t.instance).unwrap_err();
    assert_eq!(e.message(), "expected `future`, found `stream`");
    let e = StreamAny::typecheck(&InterfaceType::Future(t.future_u32), &t.instance).unwrap_err();
    assert_eq!(e.message(), "expected `stream`, found `future`");
    let e = StreamAny::typecheck(&InterfaceType::U32, &t.instance).unwrap_err();
    assert_eq!(e.message(), "expected `stream`, found `u32`");
    let scalar = CanonicalAbiInfo { size: 4, align: 4, flat_count: 1 };
    assert_eq!(FutureAny::abi(), scalar);
    assert_eq!(StreamAny::abi(), scalar);
    assert_eq!(u32::abi(), scalar);
    assert_eq!(<()>::abi().size, 0);
    assert_eq!(FutureAny::type_id(), TypeId::FutureAny);
    assert_ne!(StreamAny::type_id(), FutureAny::type_id());
    assert!(<()>::is_unit() && !FutureAny::is_unit() && !StreamAny::is_unit() && !u32::is_unit());
}
