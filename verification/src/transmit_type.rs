//! The types of futures and streams, as a holder of a handle knows them.

use crate::component_type::{typecheck_payload, ComponentType};
use crate::error::Error;
use crate::tables::{payloads_equal, InstanceType};
use crate::types::{InterfaceType, TypeEnv, TypeFutureIndex, TypeStreamIndex};
use vstd::prelude::*;

verus! {

/// What the type of a future or stream says of its payload, and the types in terms of which.
pub struct PayloadModel {
    pub env: TypeEnv,
    pub payload: Option<InterfaceType>,
}

impl PayloadModel {
    /// Whether the payloads are both absent, or both present and one type.
    pub open spec fn same_as(self, other: PayloadModel) -> bool {
        crate::types::equal_payloads(self.env, self.payload, other.env, other.payload)
    }

    /// Whether the payload is a type of the table.
    pub open spec fn wf(self) -> bool {
        self.env.wf() && self.env.valid_payload(self.payload)
    }
}

/// The type of a `future` of some component instance.
pub struct FutureType {
    index: TypeFutureIndex,
    instance: InstanceType,
}

impl View for FutureType {
    type V = PayloadModel;

    closed spec fn view(&self) -> PayloadModel {
        PayloadModel {
            env: self.instance@,
            payload: self.instance@.table.future(self.index).payload,
        }
    }
}

impl FutureType {
    /// The index names a `future` type of the instance.
    #[verifier::type_invariant]
    closed spec fn inv(self) -> bool {
        self.instance@.table.has_future(self.index)
    }

    /// The `future` type number `ty` of the instance with types `types`.
    pub fn from(ty: TypeFutureIndex, types: &InstanceType) -> (r: FutureType)
        requires
            types@.table.has_future(ty),
        ensures
            r@ == (PayloadModel { env: types@, payload: types@.table.future(ty).payload }),
    {
        FutureType { index: ty, instance: types.clone() }
    }

    /// Whether the payload of this type and `payload`, a payload in terms of `types`, are alike:
    /// both absent, or both present and one type.
    pub fn equivalent_payload_guest(
        &self,
        types: &InstanceType,
        payload: Option<&InterfaceType>,
    ) -> (r: bool)
        requires
            types@.valid_payload(crate::component_type::owned(payload)),
        ensures
            r == self@.same_as(
                PayloadModel { env: types@, payload: crate::component_type::owned(payload) },
            ),
    {
        proof {
            use_type_invariant(self);
            use_type_invariant(&self.instance);
        }
        let mine = self.instance.types().future(self.index).payload;
        assert(self.instance@.table.admits(
            self.instance@.table.defs[self.index.0 as int],
            self.index.0 as int,
        ));
        let other = match payload {
            Some(ty) => Some(*ty),
            None => None,
        };
        payloads_equal(&self.instance, mine, types, other)
    }

    /// Checks that `T` stands for the payload of this type.
    pub fn equivalent_payload_host<T: ComponentType>(&self) -> (r: Result<(), Error>)
        ensures
            r == crate::component_type::payload_outcome::<T>(self@.payload, self@.env),
    {
        proof {
            use_type_invariant(self);
            use_type_invariant(&self.instance);
        }
        assert(self.instance@.table.admits(
            self.instance@.table.defs[self.index.0 as int],
            self.index.0 as int,
        ));
        match self.instance.types().future(self.index).payload {
            Some(ty) => typecheck_payload::<T>(Some(&ty), &self.instance),
            None => typecheck_payload::<T>(None, &self.instance),
        }
    }
}

impl Clone for FutureType {
    fn clone(&self) -> (r: FutureType)
        ensures
            r == *self,
    {
        proof {
            use_type_invariant(self);
        }
        FutureType { index: self.index, instance: self.instance.clone() }
    }
}

impl PartialEq for FutureType {
    fn eq(&self, other: &FutureType) -> (r: bool) {
        proof {
            use_type_invariant(self);
            use_type_invariant(other);
            use_type_invariant(&self.instance);
            use_type_invariant(&other.instance);
        }
        assert(self.instance@.table.admits(
            self.instance@.table.defs[self.index.0 as int],
            self.index.0 as int,
        ));
        assert(other.instance@.table.admits(
            other.instance@.table.defs[other.index.0 as int],
            other.index.0 as int,
        ));
        payloads_equal(
            &self.instance,
            self.instance.types().future(self.index).payload,
            &other.instance,
            other.instance.types().future(other.index).payload,
        )
    }
}

impl vstd::std_specs::cmp::PartialEqSpecImpl for FutureType {
    open spec fn obeys_eq_spec() -> bool {
        true
    }

    /// Two `future` types are equal if their payloads are alike.
    open spec fn eq_spec(&self, other: &FutureType) -> bool {
        self@.same_as(other@)
    }
}

/// The type of a `stream` of some component instance.
pub struct StreamType {
    index: TypeStreamIndex,
    instance: InstanceType,
}

impl View for StreamType {
    type V = PayloadModel;

    closed spec fn view(&self) -> PayloadModel {
        PayloadModel {
            env: self.instance@,
            payload: self.instance@.table.stream(self.index).payload,
        }
    }
}

impl StreamType {
    /// The index names a `stream` type of the instance.
    #[verifier::type_invariant]
    closed spec fn inv(self) -> bool {
        self.instance@.table.has_stream(self.index)
    }

    /// The `stream` type number `ty` of the instance with types `types`.
    pub fn from(ty: TypeStreamIndex, types: &InstanceType) -> (r: StreamType)
        requires
            types@.table.has_stream(ty),
        ensures
            r@ == (PayloadModel { env: types@, payload: types@.table.stream(ty).payload }),
    {
        StreamType { index: ty, instance: types.clone() }
    }

    /// Whether the payload of this type and `payload`, a payload in terms of `types`, are alike:
    /// both absent, or both present and one type.
    pub fn equivalent_payload_guest(
        &self,
        types: &InstanceType,
        payload: Option<&InterfaceType>,
    ) -> (r: bool)
        requires
            types@.valid_payload(crate::component_type::owned(payload)),
        ensures
            r == self@.same_as(
                PayloadModel { env: types@, payload: crate::component_type::owned(payload) },
            ),
    {
        proof {
            use_type_invariant(self);
            use_type_invariant(&self.instance);
        }
        let mine = self.instance.types().stream(self.index).payload;
        assert(self.instance@.table.admits(
            self.instance@.table.defs[self.index.0 as int],
            self.index.0 as int,
        ));
        let other = match payload {
            Some(ty) => Some(*ty),
            None => None,
        };
        payloads_equal(&self.instance, mine, types, other)
    }

    /// Checks that `T` stands for the payload of this type.
    pub fn equivalent_payload_host<T: ComponentType>(&self) -> (r: Result<(), Error>)
        ensures
            r == crate::component_type::payload_outcome::<T>(self@.payload, self@.env),
    {
        proof {
            use_type_invariant(self);
            use_type_invariant(&self.instance);
        }
        assert(self.instance@.table.admits(
            self.instance@.table.defs[self.index.0 as int],
            self.index.0 as int,
        ));
        match self.instance.types().stream(self.index).payload {
            Some(ty) => typecheck_payload::<T>(Some(&ty), &self.instance),
            None => typecheck_payload::<T>(None, &self.instance),
        }
    }
}

impl Clone for StreamType {
    fn clone(&self) -> (r: StreamType)
        ensures
            r == *self,
    {
        proof {
            use_type_invariant(self);
        }
        StreamType { index: self.index, instance: self.instance.clone() }
    }
}

impl PartialEq for StreamType {
    fn eq(&self, other: &StreamType) -> (r: bool) {
        proof {
            use_type_invariant(self);
            use_type_invariant(other);
            use_type_invariant(&self.instance);
            use_type_invariant(&other.instance);
        }
        assert(self.instance@.table.admits(
            self.instance@.table.defs[self.index.0 as int],
            self.index.0 as int,
        ));
        assert(other.instance@.table.admits(
            other.instance@.table.defs[other.index.0 as int],
            other.index.0 as int,
        ));
        payloads_equal(
            &self.instance,
            self.instance.types().stream(self.index).payload,
            &other.instance,
            other.instance.types().stream(other.index).payload,
        )
    }
}

impl vstd::std_specs::cmp::PartialEqSpecImpl for StreamType {
    open spec fn obeys_eq_spec() -> bool {
        true
    }

    /// Two `stream` types are equal if their payloads are alike.
    open spec fn eq_spec(&self, other: &StreamType) -> bool {
        self@.same_as(other@)
    }
}

} // verus!
