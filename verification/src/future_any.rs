//! Handles to futures of a payload type that is not known ahead of time.

use crate::component_type::{CanonicalAbiInfo, ComponentType, TypeId};
use crate::error::Error;
use crate::future_end::{Consumer, Producer};
use crate::handle_table::HandleType;
use crate::payload::PayloadType;
use crate::reader::FutureReader;
use crate::store::{
    ComponentInstanceId, Store, StoreOpaque, TableId, TransmitKind, TransmitOrigin,
};
use crate::tables::InstanceType;
use crate::transmit::{FutureAnyConsumer, FutureAnyProducer, HostReader, HostWriter};
use crate::transmit_type::{FutureType, PayloadModel};
use crate::types::{InterfaceType, TypeEnv, TypeFutureTableIndex};
use vstd::pervasive::unreached;
use vstd::prelude::*;

verus! {

/// Represents a type-erased component model `future`.
///
/// The handle is to a `future`, never to a `stream`. What its payload is was known to whoever
/// made it, and is checked when the handle is turned into one of a known type or handed to a
/// component.
///
/// # Closing futures
///
/// A [`FutureAny`] represents a resource that is owned by a [`Store`]. Proper disposal of a
/// future requires invoking the [`FutureAny::close`] method to ensure that this handle does not
/// leak: the room that it takes in the store is free again only then.
pub struct FutureAny {
    id: TableId,
    ty: PayloadType<FutureType>,
}

impl FutureAny {
    /// The handle is to a future, and the payload that an instance says is one of its types.
    #[verifier::type_invariant]
    pub open spec fn wf(self) -> bool {
        &&& self.handle().kind == TransmitKind::Future
        &&& self.payload() matches PayloadType::Guest(t) ==> t@.wf()
    }

    /// The handle.
    pub closed spec fn handle(&self) -> TableId {
        self.id
    }

    /// What is known of the payload.
    pub closed spec fn payload(&self) -> PayloadType<FutureType> {
        self.ty
    }

    /// Whether this and `other` are one handle and say the same of the payload.
    pub open spec fn same(self, other: FutureAny) -> bool {
        self.handle() == other.handle() && match (self.payload(), other.payload()) {
            (PayloadType::Guest(a), PayloadType::Guest(b)) => a@.same_as(b@),
            (PayloadType::Val, PayloadType::Val) => true,
            (PayloadType::Host { id: a, .. }, PayloadType::Host { id: b, .. }) => a == b,
            _ => false,
        }
    }

    /// Whether the future has the payload `payload`, as an instance with types `env` has it.
    pub open spec fn guest_outcome(
        &self,
        payload: Option<InterfaceType>,
        env: TypeEnv,
    ) -> Result<(), Error> {
        match self.payload() {
            PayloadType::Guest(ty) => if ty@.same_as(PayloadModel { env, payload }) {
                Ok(())
            } else {
                Err(Error::PayloadTypesDiffer)
            },
            PayloadType::Val => crate::payload::with_context(
                crate::component_type::payload_outcome::<()>(payload, env),
            ),
            PayloadType::Host { typecheck, .. } => crate::payload::with_context(
                typecheck.outcome(payload, env),
            ),
        }
    }

    /// Whether the future has a payload of the Rust type `T`.
    pub open spec fn host_outcome<T: ComponentType>(&self) -> Result<(), Error> {
        match self.payload() {
            PayloadType::Guest(ty) => crate::component_type::payload_outcome::<T>(
                ty@.payload,
                ty@.env,
            ),
            PayloadType::Val => Err(Error::PayloadTypesDiffer),
            PayloadType::Host { id, .. } => if id == T::spec_type_id() {
                Ok(())
            } else {
                Err(Error::PayloadTypesDiffer)
            },
        }
    }

    /// Hands this future to instance `i` as a future of type `ty`, and returns the index of the
    /// handle that the instance gets.
    ///
    /// The payload was not checked before, so it is checked here that it is the one that the
    /// instance expects.
    pub fn lower_to_index(
        &self,
        store: &mut StoreOpaque,
        i: ComponentInstanceId,
        ty: InterfaceType,
    ) -> (r: Result<u32, Error>)
        requires
            old(store).wf(),
            old(store)@.has_instance(i),
            ty is Future,
            old(store)@.instance(i).env.valid(ty),
        ensures
            final(store).wf(),
            self.lowers(old(store)@, i, ty->Future_0, final(store)@, r),
    {
        proof {
            use_type_invariant(self);
        }
        let index = match ty {
            InterfaceType::Future(index) => index,
            _ => unreached(),
        };
        let types = store.instance_type(i);
        proof {
            assert(store@.instances[i.0 as int].env.wf());
            crate::types::lemma_children(types@, ty);
            assert(types@.table.admits(types@.table.defs[index.0 as int], index.0 as int));
        }
        let future_ty = types.types().future_table(index).ty;
        let payload = types.types().future(future_ty).payload;
        let checked = match &payload {
            Some(ty) => self.ty.typecheck_guest(
                types,
                Some(ty),
                FutureType::equivalent_payload_guest,
            ),
            None => self.ty.typecheck_guest(types, None, FutureType::equivalent_payload_guest),
        };
        match checked {
            Ok(()) => store.lower_to_index(self.id, i, HandleType::Future(index)),
            Err(error) => Err(error),
        }
    }

    /// Whether handing this future to instance `i` as a future of table `index` gives `r` and turns
    /// the store `before` into `after`.
    pub open spec fn lowers(
        &self,
        before: crate::store::StoreModel,
        i: ComponentInstanceId,
        index: TypeFutureTableIndex,
        after: crate::store::StoreModel,
        r: Result<u32, Error>,
    ) -> bool {
        let env = before.instance(i).env;
        match self.guest_outcome(env.table.future_payload(index), env) {
            Ok(()) => before.lowers(self.handle(), i, HandleType::Future(index), after, r),
            Err(error) => r == Err::<u32, Error>(error) && after == before,
        }
    }

    /// Attempts to convert this [`FutureAny`] to a [`FutureReader<T>`] with a statically known
    /// type.
    ///
    /// # Errors
    ///
    /// This function will return an error if `T` does not match the type of value on this
    /// future.
    pub fn try_into_future_reader<T: ComponentType + 'static>(self) -> (r: Result<
        FutureReader<T>,
        Error,
    >)
        ensures
            match self.host_outcome::<T>() {
                Ok(()) => r matches Ok(reader) && reader.handle() == self.handle(),
                Err(error) => r matches Err(e) && e == error,
            },
    {
        match self.ty.typecheck_host::<T, _>(FutureType::equivalent_payload_host::<T>) {
            Ok(()) => Ok(FutureReader::new_(self.id)),
            Err(error) => Err(error),
        }
    }

    /// Attempts to convert `reader` to a [`FutureAny`], erasing its statically known type.
    ///
    /// # Errors
    ///
    /// This function will return an error if `reader` does not belong to `store`.
    pub fn try_from_future_reader<D, T: ComponentType + 'static>(
        store: &Store<D>,
        reader: FutureReader<T>,
    ) -> (r: Result<FutureAny, Error>)
        requires
            store.wf(),
        ensures
            r matches Ok(any) ==> any.wf(),
            match store@.transmit(reader.handle()) {
                None => r matches Err(error) && error == Error::UnknownHandle,
                Some(transmit) => match transmit.origin {
                    TransmitOrigin::Host => if transmit.kind == TransmitKind::Future {
                        &&& r matches Ok(any)
                        &&& any.handle() == reader.handle()
                        &&& any.payload().is_host::<T>()
                    } else {
                        r matches Err(error) && error == Error::NotAFuture
                    },
                    TransmitOrigin::GuestFuture(i, ty) => {
                        &&& r matches Ok(any)
                        &&& any.handle() == reader.handle()
                        &&& any.payload() matches PayloadType::Guest(t)
                        &&& t@ == (PayloadModel {
                            env: store@.instance(i).env,
                            payload: store@.instance(i).env.table.future_payload(ty),
                        })
                    },
                    TransmitOrigin::GuestStream(..) => r matches Err(error) && error
                        == Error::NotAFuture,
                },
            },
    {
        let id = reader.id();
        let ty = match store.opaque.transmit_origin(id) {
            Err(error) => {
                return Err(error);
            },
            Ok(TransmitOrigin::Host) => {
                if id.kind != TransmitKind::Future {
                    return Err(Error::NotAFuture);
                }
                PayloadType::new_host::<T>()
            },
            Ok(TransmitOrigin::GuestFuture(i, ty)) => PayloadType::new_guest_future(
                &store.opaque,
                i,
                ty,
            ),
            Ok(TransmitOrigin::GuestStream(..)) => {
                return Err(Error::NotAFuture);
            },
        };
        Ok(FutureAny { id, ty })
    }

    /// Takes back the future whose handle instance `i` has at `index` and knows as a future of
    /// type `ty`.
    ///
    /// The future may be one that the host made. The instance has the most accurate view of
    /// its type, so the type is taken to be the one that the instance says.
    pub fn lift_from_index(
        store: &mut StoreOpaque,
        i: ComponentInstanceId,
        ty: InterfaceType,
        index: u32,
    ) -> (r: Result<FutureAny, Error>)
        requires
            old(store).wf(),
            old(store)@.has_instance(i),
            ty is Future,
            old(store)@.instance(i).env.valid(ty),
        ensures
            final(store).wf(),
            r matches Ok(any) ==> any.wf(),
            final(store)@ == old(store)@.after_lift(i, HandleType::Future(ty->Future_0), index),
            lifts(old(store)@, i, ty->Future_0, index, r),
    {
        let table = match ty {
            InterfaceType::Future(table) => table,
            _ => unreached(),
        };
        match store.lift_from_index(i, HandleType::Future(table), index) {
            Ok(id) => Ok(FutureAny { id, ty: PayloadType::new_guest_future(store, i, table) }),
            Err(error) => Err(error),
        }
    }

    /// Create a new future with the specified producer, which comes back with what it writes to.
    ///
    /// If the producer makes the unit value, the future can be read as one of `()`. Otherwise it
    /// can be read as one of no Rust type.
    ///
    /// # Errors
    ///
    /// Returns an error if the resource table for this store is full or if the store does not
    /// support concurrency.
    pub fn new<D, P: FutureAnyProducer<D>>(store: &mut Store<D>, producer: P) -> (r: Result<
        (FutureAny, HostWriter<Producer<P>>),
        Error,
    >)
        requires
            old(store).wf(),
        ensures
            final(store).wf(),
            final(store).data == old(store).data,
            if !old(store)@.concurrency_support {
                final(store)@ == old(store)@ && (r matches Err(error) && error
                    == Error::ConcurrencyDisabled)
            } else if old(store)@.full() {
                final(store)@ == old(store)@ && (r matches Err(error) && error
                    == Error::TableFull)
            } else {
                &&& final(store)@ == old(store)@.allocated(
                    TransmitKind::Future,
                    TransmitOrigin::Host,
                )
                &&& r matches Ok((any, writer))
                &&& any.wf()
                &&& any.handle() == old(store)@.fresh(TransmitKind::Future)
                &&& if producer.unit_only() {
                    any.payload().is_host::<()>()
                } else {
                    any.payload() is Val
                }
                &&& writer.id == old(store)@.fresh(TransmitKind::Future)
                &&& writer.kind == TransmitKind::Future
                &&& writer.producer.0 == producer
            },
    {
        if !store.opaque.concurrency_support() {
            return Err(Error::ConcurrencyDisabled);
        }
        match store.opaque.new_transmit(TransmitKind::Future, TransmitOrigin::Host) {
            Ok(id) => {
                let any = if producer.makes_unit() {
                    FutureAny::new_(id)
                } else {
                    // The values are of types that show only when they are there, so there is
                    // no Rust type to note for them.
                    FutureAny { id, ty: PayloadType::Val }
                };
                let writer = HostWriter {
                    id,
                    kind: TransmitKind::Future,
                    producer: Producer(producer),
                };
                Ok((any, writer))
            },
            Err(error) => Err(error),
        }
    }

    /// The future with handle `id`, which carries no value.
    pub(crate) fn new_(id: TableId) -> (r: FutureAny)
        requires
            id.kind == TransmitKind::Future,
        ensures
            r.handle() == id,
            r.payload().is_host::<()>(),
    {
        FutureAny { id, ty: PayloadType::new_host::<()>() }
    }

    /// The handle.
    pub fn id(&self) -> (r: TableId)
        ensures
            r == self.handle(),
            r.kind == TransmitKind::Future,
    {
        proof {
            use_type_invariant(self);
        }
        self.id
    }

    /// Set the consumer that accepts the result of this future. It comes back with what it
    /// reads from.
    ///
    /// # Errors
    ///
    /// Returns an error if this future has already been closed.
    ///
    /// `store` has to be the store that this future belongs to.
    pub fn pipe<D, C: FutureAnyConsumer<D>>(self, store: &mut Store<D>, consumer: C) -> (r: Result<
        HostReader<Consumer<C>>,
        Error,
    >)
        requires
            old(store).wf(),
            old(store)@.owns(self.handle()),
        ensures
            final(store).wf(),
            final(store).data == old(store).data,
            if old(store)@.closed(self.handle()) {
                final(store)@ == old(store)@ && (r matches Err(error) && error == Error::Closed)
            } else {
                &&& final(store)@ == old(store)@.piped(self.handle())
                &&& r matches Ok(reader)
                &&& reader.id == self.handle()
                &&& reader.kind == TransmitKind::Future
                &&& reader.consumer.0 == consumer
            },
    {
        match store.opaque.set_consumer(self.id) {
            Ok(()) => Ok(
                HostReader {
                    id: self.id,
                    kind: TransmitKind::Future,
                    consumer: Consumer(consumer),
                },
            ),
            Err(error) => Err(error),
        }
    }

    /// Close this `FutureAny`.
    ///
    /// This will close this future and cause any write that happens later to return `DROPPED`.
    ///
    /// # Errors
    ///
    /// Returns an error if this future has already been closed.
    ///
    /// `store` has to be the store that owns this future.
    pub fn close<D>(&mut self, store: &mut Store<D>) -> (r: Result<(), Error>)
        requires
            old(store).wf(),
            old(store)@.owns(old(self).handle()),
        ensures
            *final(self) == *old(self),
            final(store).wf(),
            final(store).data == old(store).data,
            if old(store)@.closed(old(self).handle()) {
                final(store)@ == old(store)@ && r == Err::<(), Error>(Error::Closed)
            } else {
                final(store)@ == old(store)@.without(old(self).handle()) && r == Ok::<(), Error>(())
            },
    {
        store.opaque.close(self.id)
    }

    /// Hands this future to an instance as [`FutureAny::lower_to_index`] does, and puts the index
    /// into `dst`.
    pub fn linear_lower_to_flat(
        &self,
        store: &mut StoreOpaque,
        i: ComponentInstanceId,
        ty: InterfaceType,
        dst: &mut u32,
    ) -> (r: Result<(), Error>)
        requires
            old(store).wf(),
            old(store)@.has_instance(i),
            ty is Future,
            old(store)@.instance(i).env.valid(ty),
        ensures
            final(store).wf(),
            match r {
                Ok(()) => self.lowers(
                    old(store)@,
                    i,
                    ty->Future_0,
                    final(store)@,
                    Ok(*final(dst)),
                ),
                Err(error) => *final(dst) == *old(dst) && self.lowers(
                    old(store)@,
                    i,
                    ty->Future_0,
                    final(store)@,
                    Err(error),
                ),
            },
    {
        match self.lower_to_index(store, i, ty) {
            Ok(index) => {
                *dst = index;
                Ok(())
            },
            Err(error) => Err(error),
        }
    }

    /// Hands this future to an instance as [`FutureAny::lower_to_index`] does, and writes the
    /// index into the memory of the instance.
    pub fn linear_lower_to_memory(
        &self,
        store: &mut StoreOpaque,
        i: ComponentInstanceId,
        ty: InterfaceType,
        offset: usize,
    ) -> (r: Result<(), Error>)
        requires
            old(store).wf(),
            old(store)@.has_instance(i),
            ty is Future,
            old(store)@.instance(i).env.valid(ty),
            offset % 4 == 0,
            offset + 4 <= old(store)@.instance(i).memory.len(),
        ensures
            final(store).wf(),
            match r {
                Ok(()) => exists|middle: crate::store::StoreModel, index: u32|
                    {
                        &&& #[trigger] self.lowers(
                            old(store)@,
                            i,
                            ty->Future_0,
                            middle,
                            Ok(index),
                        )
                        &&& final(store)@ == middle.with_memory(
                            i,
                            crate::store::overwritten(
                                middle.instance(i).memory,
                                offset as int,
                                vstd::bytes::spec_u32_to_le_bytes(index),
                            ),
                        )
                    },
                Err(error) => self.lowers(
                    old(store)@,
                    i,
                    ty->Future_0,
                    final(store)@,
                    Err(error),
                ),
            },
    {
        match self.lower_to_index(store, i, ty) {
            Ok(index) => {
                let ghost middle = store@;
                assert(self.lowers(old(store)@, i, ty->Future_0, middle, Ok(index)));
                store.write_u32(i, offset, index);
                Ok(())
            },
            Err(error) => Err(error),
        }
    }

    /// Takes back a future as [`FutureAny::lift_from_index`] does, where the index is `src`.
    pub fn linear_lift_from_flat(
        store: &mut StoreOpaque,
        i: ComponentInstanceId,
        ty: InterfaceType,
        src: &u32,
    ) -> (r: Result<FutureAny, Error>)
        requires
            old(store).wf(),
            old(store)@.has_instance(i),
            ty is Future,
            old(store)@.instance(i).env.valid(ty),
        ensures
            final(store).wf(),
            r matches Ok(any) ==> any.wf(),
            final(store)@ == old(store)@.after_lift(i, HandleType::Future(ty->Future_0), *src),
            lifts(old(store)@, i, ty->Future_0, *src, r),
    {
        Self::lift_from_index(store, i, ty, *src)
    }

    /// Takes back a future as [`FutureAny::lift_from_index`] does, where `bytes` are the index as
    /// it stands in memory.
    pub fn linear_lift_from_memory(
        store: &mut StoreOpaque,
        i: ComponentInstanceId,
        ty: InterfaceType,
        bytes: &[u8],
    ) -> (r: Result<FutureAny, Error>)
        requires
            old(store).wf(),
            old(store)@.has_instance(i),
            ty is Future,
            old(store)@.instance(i).env.valid(ty),
            bytes@.len() == 4,
        ensures
            final(store).wf(),
            r matches Ok(any) ==> any.wf(),
            final(store)@ == old(store)@.after_lift(
                i,
                HandleType::Future(ty->Future_0),
                vstd::bytes::spec_u32_from_le_bytes(bytes@),
            ),
            lifts(
                old(store)@,
                i,
                ty->Future_0,
                vstd::bytes::spec_u32_from_le_bytes(bytes@),
                r,
            ),
    {
        let index = vstd::bytes::u32_from_le_bytes(bytes);
        Self::lift_from_index(store, i, ty, index)
    }
}

/// Whether taking back the future whose handle instance `i` has at `index` and knows as one of
/// table `table` gives `r`, in the store `before`.
pub open spec fn lifts(
    before: crate::store::StoreModel,
    i: ComponentInstanceId,
    table: TypeFutureTableIndex,
    index: u32,
    r: Result<FutureAny, Error>,
) -> bool {
    match before.lifted(i, HandleType::Future(table), index) {
        Ok(id) => {
            &&& r matches Ok(any)
            &&& any.handle() == id
            &&& any.payload() matches PayloadType::Guest(t)
            &&& t@ == (PayloadModel {
                env: before.instance(i).env,
                payload: before.instance(i).env.table.future_payload(table),
            })
        },
        Err(error) => r matches Err(e) && e == error,
    }
}

impl Clone for FutureAny {
    fn clone(&self) -> (r: FutureAny)
        ensures
            r == *self,
    {
        proof {
            use_type_invariant(self);
        }
        FutureAny { id: self.id, ty: self.ty.clone() }
    }
}

impl PartialEq for FutureAny {
    fn eq(&self, other: &FutureAny) -> (r: bool) {
        self.id == other.id && self.ty == other.ty
    }
}

impl vstd::std_specs::cmp::PartialEqSpecImpl for FutureAny {
    open spec fn obeys_eq_spec() -> bool {
        true
    }

    /// Two handles are equal if they are one handle and say the same of the payload.
    open spec fn eq_spec(&self, other: &FutureAny) -> bool {
        self.same(*other)
    }
}

impl ComponentType for FutureAny {
    open spec fn spec_type_id() -> TypeId {
        TypeId::FutureAny
    }

    open spec fn spec_is_unit() -> bool {
        false
    }

    open spec fn spec_abi() -> CanonicalAbiInfo {
        crate::component_type::scalar4()
    }

    /// A [`FutureAny`] stands for every `future` type.
    open spec fn spec_typecheck(ty: InterfaceType, env: TypeEnv) -> Result<(), Error> {
        match ty {
            InterfaceType::Future(_) => Ok(()),
            other => Err(Error::Expected { expected: "future", found: other }),
        }
    }

    fn type_id() -> (r: TypeId) {
        TypeId::FutureAny
    }

    fn is_unit() -> (r: bool) {
        false
    }

    fn abi() -> (r: CanonicalAbiInfo) {
        CanonicalAbiInfo { size: 4, align: 4, flat_count: 1 }
    }

    fn typecheck(ty: &InterfaceType, types: &InstanceType) -> (r: Result<(), Error>) {
        match ty {
            InterfaceType::Future(_) => Ok(()),
            other => Err(Error::Expected { expected: "future", found: *other }),
        }
    }
}

} // verus!
