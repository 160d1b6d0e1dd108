//! Rust types that stand for interface types.

use crate::error::Error;
use crate::tables::InstanceType;
use crate::types::{InterfaceType, TypeEnv};
use vstd::prelude::*;

verus! {

/// The identity of a Rust type.
#[derive(Clone, Copy, PartialEq, Eq, Structural, Debug)]
pub enum TypeId {
    Unit,
    U32,
    FutureAny,
    StreamAny,
    /// A type outside this crate. Distinct types take distinct numbers.
    Other(u64),
}

/// How much room a value takes in linear memory, and how many core values it flattens to.
#[derive(Clone, Copy, PartialEq, Eq, Structural, Debug)]
pub struct CanonicalAbiInfo {
    pub size: u32,
    pub align: u32,
    pub flat_count: u8,
}

/// A Rust type that stands for an interface type.
pub trait ComponentType: Sized + Send + Sync {
    /// What [`ComponentType::type_id`] returns.
    spec fn spec_type_id() -> TypeId;

    /// What [`ComponentType::is_unit`] returns.
    spec fn spec_is_unit() -> bool;

    /// What [`ComponentType::abi`] returns.
    spec fn spec_abi() -> CanonicalAbiInfo;

    /// What [`ComponentType::typecheck`] returns.
    spec fn spec_typecheck(ty: InterfaceType, env: TypeEnv) -> Result<(), Error>;

    /// The identity of this type, which no other type has.
    fn type_id() -> (r: TypeId)
        ensures
            r == Self::spec_type_id(),
    ;

    /// Whether this is `()`, the payload of futures and streams that carry no value.
    fn is_unit() -> (r: bool)
        ensures
            r == Self::spec_is_unit(),
    ;

    /// The layout of values of this type.
    fn abi() -> (r: CanonicalAbiInfo)
        ensures
            r == Self::spec_abi(),
    ;

    /// Whether this type stands for `ty`, a type of the instance with types `types`.
    fn typecheck(ty: &InterfaceType, types: &InstanceType) -> (r: Result<(), Error>)
        requires
            types@.valid(*ty),
        ensures
            r == Self::spec_typecheck(*ty, types@),
    ;
}

/// The layout of a value of four bytes that flattens to one core value.
pub open spec fn scalar4() -> CanonicalAbiInfo {
    CanonicalAbiInfo { size: 4, align: 4, flat_count: 1 }
}

/// Whether `T` stands for the payload of a future or stream: for its type if it has one, and for
/// no payload if `T` is `()`.
pub open spec fn payload_outcome<T: ComponentType>(
    payload: Option<InterfaceType>,
    env: TypeEnv,
) -> Result<(), Error> {
    match payload {
        Some(ty) => T::spec_typecheck(ty, env),
        None => if T::spec_is_unit() {
            Ok(())
        } else {
            Err(Error::PayloadTypesDiffer)
        },
    }
}

/// Checks that `T` stands for the payload of a future or stream.
pub fn typecheck_payload<T: ComponentType>(
    payload: Option<&InterfaceType>,
    types: &InstanceType,
) -> (r: Result<(), Error>)
    requires
        payload matches Some(ty) ==> types@.valid(*ty),
    ensures
        r == payload_outcome::<T>(crate::component_type::owned(payload), types@),
{
    match payload {
        Some(ty) => T::typecheck(ty, types),
        None => if T::is_unit() {
            Ok(())
        } else {
            Err(Error::PayloadTypesDiffer)
        },
    }
}

/// An optional type without the reference.
pub open spec fn owned(payload: Option<&InterfaceType>) -> Option<InterfaceType> {
    match payload {
        Some(ty) => Some(*ty),
        None => None,
    }
}

impl ComponentType for () {
    open spec fn spec_type_id() -> TypeId {
        TypeId::Unit
    }

    open spec fn spec_is_unit() -> bool {
        true
    }

    open spec fn spec_abi() -> CanonicalAbiInfo {
        CanonicalAbiInfo { size: 0, align: 1, flat_count: 0 }
    }

    /// `()` stands for the tuple without parts.
    open spec fn spec_typecheck(ty: InterfaceType, env: TypeEnv) -> Result<(), Error> {
        if ty matches InterfaceType::Tuple(i) && env.table.compound(i).parts.len() == 0 {
            Ok(())
        } else {
            Err(Error::Expected { expected: "unit", found: ty })
        }
    }

    fn type_id() -> (r: TypeId) {
        TypeId::Unit
    }

    fn is_unit() -> (r: bool) {
        true
    }

    fn abi() -> (r: CanonicalAbiInfo) {
        CanonicalAbiInfo { size: 0, align: 1, flat_count: 0 }
    }

    fn typecheck(ty: &InterfaceType, types: &InstanceType) -> (r: Result<(), Error>) {
        match ty {
            InterfaceType::Tuple(i) if types.types().compound(
                crate::types::CompoundKind::Tuple,
                *i,
            ).parts.len() == 0 => Ok(()),
            _ => Err(Error::Expected { expected: "unit", found: *ty }),
        }
    }
}

impl ComponentType for u32 {
    open spec fn spec_type_id() -> TypeId {
        TypeId::U32
    }

    open spec fn spec_is_unit() -> bool {
        false
    }

    open spec fn spec_abi() -> CanonicalAbiInfo {
        scalar4()
    }

    open spec fn spec_typecheck(ty: InterfaceType, env: TypeEnv) -> Result<(), Error> {
        if ty == InterfaceType::U32 {
            Ok(())
        } else {
            Err(Error::Expected { expected: "u32", found: ty })
        }
    }

    fn type_id() -> (r: TypeId) {
        TypeId::U32
    }

    fn is_unit() -> (r: bool) {
        false
    }

    fn abi() -> (r: CanonicalAbiInfo) {
        CanonicalAbiInfo { size: 4, align: 4, flat_count: 1 }
    }

    fn typecheck(ty: &InterfaceType, types: &InstanceType) -> (r: Result<(), Error>) {
        match ty {
            InterfaceType::U32 => Ok(()),
            _ => Err(Error::Expected { expected: "u32", found: *ty }),
        }
    }
}

} // verus!
