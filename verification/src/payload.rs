//! What the holder of a type-erased handle knows of the payload's type.

use crate::component_type::{typecheck_payload, ComponentType, TypeId};
use crate::error::Error;
use crate::store::{ComponentInstanceId, StoreOpaque};
use crate::tables::InstanceType;
use crate::transmit_type::{FutureType, PayloadModel, StreamType};
use crate::types::{InterfaceType, TypeEnv, TypeFutureTableIndex, TypeStreamTableIndex};
use core::marker::PhantomData;
use std::sync::Arc;
use vstd::prelude::*;
use vstd::std_specs::cmp::PartialEqSpec;

verus! {

/// The check whether some Rust type, no longer known, stands for a payload.
pub trait PayloadCheck: Send + Sync {
    /// What [`PayloadCheck::typecheck`] returns.
    spec fn outcome(&self, payload: Option<InterfaceType>, env: TypeEnv) -> Result<(), Error>;

    /// Checks that the type stands for `payload`, a payload in terms of `types`.
    fn typecheck(
        &self,
        payload: Option<&InterfaceType>,
        types: &InstanceType,
    ) -> (r: Result<(), Error>)
        requires
            types@.valid_payload(crate::component_type::owned(payload)),
        ensures
            r == self.outcome(crate::component_type::owned(payload), types@),
    ;
}

/// The check for the Rust type `P`.
pub struct HostCheck<P> {
    marker: PhantomData<P>,
}

impl<P: ComponentType + 'static> PayloadCheck for HostCheck<P> {
    open spec fn outcome(
        &self,
        payload: Option<InterfaceType>,
        env: TypeEnv,
    ) -> Result<(), Error> {
        crate::component_type::payload_outcome::<P>(payload, env)
    }

    fn typecheck(
        &self,
        payload: Option<&InterfaceType>,
        types: &InstanceType,
    ) -> (r: Result<(), Error>) {
        typecheck_payload::<P>(payload, types)
    }
}

/// The type of the payload of a future or stream.
///
/// `T` is the type of the future or stream itself, as a component instance has it. A future or
/// stream that the host made has no such type: of it, the Rust type of the payload is known by
/// its identity and by the check whether it stands for a payload. Where a producer makes values
/// whose types show only when they are there, not even that is known.
pub enum PayloadType<T> {
    Guest(T),
    Val,
    Host { id: TypeId, typecheck: Arc<Box<dyn PayloadCheck>> },
}

/// `result`, where an error says that the payloads differ and keeps the first error as cause.
pub open spec fn with_context(result: Result<(), Error>) -> Result<(), Error> {
    match result {
        Ok(()) => Ok(()),
        Err(cause) => Err(Error::PayloadTypesDifferSince(Box::new(cause))),
    }
}

/// Whether `typecheck` decides as the check for the Rust type `P` does.
pub open spec fn checks_for<P: ComponentType>(typecheck: Arc<Box<dyn PayloadCheck>>) -> bool {
    forall|payload: Option<InterfaceType>, env: TypeEnv| #[trigger]
        typecheck.outcome(payload, env) == crate::component_type::payload_outcome::<P>(payload, env)
}

impl PayloadType<FutureType> {
    /// The payload type of the futures that instance `i` of `store` knows as futures of table `ty`.
    pub fn new_guest_future(
        store: &StoreOpaque,
        i: ComponentInstanceId,
        ty: TypeFutureTableIndex,
    ) -> (r: Self)
        requires
            store.wf(),
            store@.has_instance(i),
            store@.instance(i).env.table.has_future_table(ty),
        ensures
            r matches PayloadType::Guest(t) && t@.wf() && t@ == (PayloadModel {
                env: store@.instance(i).env,
                payload: store@.instance(i).env.table.future_payload(ty),
            }),
    {
        let types = store.instance_type(i);
        assert(store@.instances[i.0 as int].env.wf());
        assert(types@.table.admits(types@.table.defs[ty.0 as int], ty.0 as int));
        let ty = types.types().future_table(ty).ty;
        PayloadType::Guest(FutureType::from(ty, types))
    }
}

impl PayloadType<StreamType> {
    /// The payload type of the streams that instance `i` of `store` knows as streams of table `ty`.
    pub fn new_guest_stream(
        store: &StoreOpaque,
        i: ComponentInstanceId,
        ty: TypeStreamTableIndex,
    ) -> (r: Self)
        requires
            store.wf(),
            store@.has_instance(i),
            store@.instance(i).env.table.has_stream_table(ty),
        ensures
            r matches PayloadType::Guest(t) && t@.wf() && t@ == (PayloadModel {
                env: store@.instance(i).env,
                payload: store@.instance(i).env.table.stream_payload(ty),
            }),
    {
        let types = store.instance_type(i);
        assert(store@.instances[i.0 as int].env.wf());
        assert(types@.table.admits(types@.table.defs[ty.0 as int], ty.0 as int));
        let ty = types.types().stream_table(ty).ty;
        PayloadType::Guest(StreamType::from(ty, types))
    }
}

impl<T> PayloadType<T> {
    /// Whether this is the type of a payload of the Rust type `P`.
    pub open spec fn is_host<P: ComponentType>(self) -> bool {
        self matches PayloadType::Host { id, typecheck } && id == P::spec_type_id() && checks_for::<
            P,
        >(typecheck)
    }

    /// The type of a payload of the Rust type `P`.
    pub fn new_host<P: ComponentType + 'static>() -> (r: Self)
        ensures
            r.is_host::<P>(),
    {
        let check: Box<dyn PayloadCheck> = Box::new(HostCheck::<P> { marker: PhantomData });
        assert(forall|
            payload: Option<InterfaceType>,
            env: TypeEnv,
        | #[trigger]
            check.outcome(payload, env) == crate::component_type::payload_outcome::<P>(
                payload,
                env,
            ));
        let typecheck = Arc::new(check);
        assert(checks_for::<P>(typecheck));
        PayloadType::Host { id: P::type_id(), typecheck }
    }

    /// Checks that `payload`, a payload in terms of `types`, is the payload that this type says.
    ///
    /// `equivalent` decides it for the type of a future or stream of an instance. One whose
    /// payload is not known is taken to carry no value.
    pub fn typecheck_guest<F: Fn(&T, &InstanceType, Option<&InterfaceType>) -> bool>(
        &self,
        types: &InstanceType,
        payload: Option<&InterfaceType>,
        equivalent: F,
    ) -> (r: Result<(), Error>)
        requires
            types@.valid_payload(crate::component_type::owned(payload)),
            self matches PayloadType::Guest(ty) ==> call_requires(equivalent, (ty, types, payload)),
        ensures
            match self {
                PayloadType::Guest(ty) => {
                    ||| r == Ok::<(), Error>(()) && call_ensures(
                        equivalent,
                        (ty, types, payload),
                        true,
                    )
                    ||| r == Err::<(), Error>(Error::PayloadTypesDiffer) && call_ensures(
                        equivalent,
                        (ty, types, payload),
                        false,
                    )
                },
                PayloadType::Val => r == with_context(
                    crate::component_type::payload_outcome::<()>(
                        crate::component_type::owned(payload),
                        types@,
                    ),
                ),
                PayloadType::Host { typecheck, .. } => r == with_context(
                    typecheck.outcome(crate::component_type::owned(payload), types@),
                ),
            },
    {
        match self {
            PayloadType::Guest(ty) => {
                if equivalent(ty, types, payload) {
                    Ok(())
                } else {
                    Err(Error::PayloadTypesDiffer)
                }
            },
            PayloadType::Val => match typecheck_payload::<()>(payload, types) {
                Ok(()) => Ok(()),
                Err(cause) => Err(Error::PayloadTypesDifferSince(Box::new(cause))),
            },
            PayloadType::Host { typecheck, .. } => match typecheck.typecheck(payload, types) {
                Ok(()) => Ok(()),
                Err(cause) => Err(Error::PayloadTypesDifferSince(Box::new(cause))),
            },
        }
    }

    /// Checks that the payload is of the Rust type `P`.
    ///
    /// `equivalent` decides it for the type of a future or stream of an instance. A payload that
    /// is not known is of no Rust type.
    pub fn typecheck_host<P: ComponentType + 'static, F: Fn(&T) -> Result<(), Error>>(
        &self,
        equivalent: F,
    ) -> (r: Result<(), Error>)
        requires
            self matches PayloadType::Guest(ty) ==> call_requires(equivalent, (ty,)),
        ensures
            match self {
                PayloadType::Guest(ty) => call_ensures(equivalent, (ty,), r),
                PayloadType::Val => r == Err::<(), Error>(Error::PayloadTypesDiffer),
                PayloadType::Host { id, .. } => r == (if id == P::spec_type_id() {
                    Ok::<(), Error>(())
                } else {
                    Err(Error::PayloadTypesDiffer)
                }),
            },
    {
        match self {
            PayloadType::Guest(ty) => equivalent(ty),
            PayloadType::Val => Err(Error::PayloadTypesDiffer),
            PayloadType::Host { id, .. } => {
                if *id == P::type_id() {
                    Ok(())
                } else {
                    Err(Error::PayloadTypesDiffer)
                }
            },
        }
    }
}

impl<T: Clone> Clone for PayloadType<T> {
    fn clone(&self) -> (r: Self)
        ensures
            match self {
                PayloadType::Guest(a) => r matches PayloadType::Guest(b) && cloned::<T>(*a, b),
                _ => r == *self,
            },
    {
        match self {
            PayloadType::Guest(ty) => PayloadType::Guest(ty.clone()),
            PayloadType::Val => PayloadType::Val,
            PayloadType::Host { id, typecheck } => PayloadType::Host {
                id: *id,
                typecheck: typecheck.clone(),
            },
        }
    }
}

impl<T: PartialEq> PartialEq for PayloadType<T> {
    fn eq(&self, other: &Self) -> (r: bool) {
        match (self, other) {
            (PayloadType::Guest(a), PayloadType::Guest(b)) => a == b,
            (PayloadType::Guest(_), _) => false,
            (PayloadType::Val, PayloadType::Val) => true,
            (PayloadType::Val, _) => false,
            (PayloadType::Host { id: a_id, .. }, PayloadType::Host { id: b_id, .. }) => {
                *a_id == *b_id
            },
            (PayloadType::Host { .. }, _) => false,
        }
    }
}

impl<T: PartialEq> vstd::std_specs::cmp::PartialEqSpecImpl for PayloadType<T> {
    open spec fn obeys_eq_spec() -> bool {
        T::obeys_eq_spec()
    }

    /// Two payload types are equal if both are of an instance and equal there, if both are of
    /// the host and of one Rust type, or if neither is known.
    open spec fn eq_spec(&self, other: &Self) -> bool {
        match (self, other) {
            (PayloadType::Guest(a), PayloadType::Guest(b)) => a.eq_spec(b),
            (PayloadType::Val, PayloadType::Val) => true,
            (PayloadType::Host { id: a, .. }, PayloadType::Host { id: b, .. }) => a == b,
            _ => false,
        }
    }
}

} // verus!
