//! What holds of errors and of the checks of payloads that report them.

use crate::component_type::ComponentType;
use crate::error::Error;
use crate::payload::{HostCheck, PayloadCheck, PayloadType};
use crate::tables::InstanceType;
use crate::types::InterfaceType;
use vstd::prelude::*;
use vstd::std_specs::cmp::PartialEqSpec;

verus! {

/// What the sort of a type is called.
pub proof fn law_names_of_sorts(ty: &InterfaceType, name: &'static str)
    requires
        call_ensures(crate::error::desc, (ty,), name),
    ensures
        *ty is Bool ==> name@ == "bool"@,
        *ty is S8 ==> name@ == "s8"@,
        *ty is U8 ==> name@ == "u8"@,
        *ty is S16 ==> name@ == "s16"@,
        *ty is U16 ==> name@ == "u16"@,
        *ty is S32 ==> name@ == "s32"@,
        *ty is U32 ==> name@ == "u32"@,
        *ty is S64 ==> name@ == "s64"@,
        *ty is U64 ==> name@ == "u64"@,
        *ty is Float32 ==> name@ == "f32"@,
        *ty is Float64 ==> name@ == "f64"@,
        *ty is Char ==> name@ == "char"@,
        *ty is String ==> name@ == "string"@,
        *ty is Record ==> name@ == "record"@,
        *ty is Variant ==> name@ == "variant"@,
        *ty is List ==> name@ == "list"@,
        *ty is Tuple ==> name@ == "tuple"@,
        *ty is Flags ==> name@ == "flags"@,
        *ty is Enum ==> name@ == "enum"@,
        *ty is Option ==> name@ == "option"@,
        *ty is Result ==> name@ == "result"@,
        *ty is Own ==> name@ == "owned resource"@,
        *ty is Borrow ==> name@ == "borrowed resource"@,
        *ty is Future ==> name@ == "future"@,
        *ty is Stream ==> name@ == "stream"@,
        *ty is ErrorContext ==> name@ == "error-context"@,
{
}

/// What an error says. Of an error with a cause it is said that the payloads differ, and of a type
/// that was not expected which sort was, and which was found.
pub proof fn law_messages(
    error: &Error,
    text: String,
    found: &InterfaceType,
    name: &'static str,
    cause: Box<Error>,
    reported: String,
)
    requires
        call_ensures(Error::message, (error,), text),
        call_ensures(crate::error::desc, (found,), name),
    ensures
        *error is ConcurrencyDisabled ==> text@ == "concurrency support is not enabled"@,
        *error is TableFull ==> text@ == "resource table has no free keys"@,
        *error is UnknownHandle ==> text@ == "resource not present"@,
        *error is Closed ==> text@ == "already closed"@,
        *error is NotAFuture ==> text@ == "not a future"@,
        *error is NotAStream ==> text@ == "not a stream"@,
        *error is PayloadTypesDiffer ==> text@ == "future payload types differ"@,
        *error is PayloadTypesDifferSince ==> text@ == "future payload types differ"@,
        *error is UnknownIndex ==> text@ == "unknown handle index"@,
        *error matches Error::Reported(said) ==> text@ == said@,
        *error matches Error::Expected { expected, found: other } ==> (other == *found ==> text@
            == "expected `"@ + expected@ + "`, found `"@ + name@ + "`"@),
{
}

/// A payload passes if and only if it is the one that is known: for one of an instance that is for
/// `equivalent` to say, for one of the host for its check, and one that is not known passes for no
/// payload and for the tuple without parts. What a check of the host found is kept as the cause.
pub proof fn law_payload_passes<T, F: Fn(&T, &InstanceType, Option<&InterfaceType>) -> bool>(
    known: &PayloadType<T>,
    types: &InstanceType,
    payload: Option<&InterfaceType>,
    equivalent: F,
    r: Result<(), Error>,
)
    requires
        call_ensures(
            PayloadType::<T>::typecheck_guest::<F>,
            (known, types, payload, equivalent),
            r,
        ),
    ensures
        *known matches PayloadType::Guest(ty) ==> ({
            &&& r is Ok ==> call_ensures(equivalent, (&ty, types, payload), true)
            &&& r is Err ==> call_ensures(equivalent, (&ty, types, payload), false)
            &&& r matches Err(e) ==> e == Error::PayloadTypesDiffer
        }),
        *known matches PayloadType::Host { typecheck, .. } ==> ({
            let outcome = match payload {
                Some(ty) => typecheck.outcome(Some(*ty), types@),
                None => typecheck.outcome(None, types@),
            };
            &&& r is Ok <==> outcome is Ok
            &&& r matches Err(e) ==> (e matches Error::PayloadTypesDifferSince(cause) && outcome
                == Err::<(), Error>(*cause))
        }),
        *known is Val ==> ({
            &&& payload is None ==> r is Ok
            &&& payload matches Some(ty) ==> (r is Ok <==> (*ty matches InterfaceType::Tuple(i) && (
            types@.table.defs[i.0 as int]->Compound_0).parts.len() == 0))
            &&& r matches Err(e) ==> e is PayloadTypesDifferSince
        }),
{
}

/// A payload is of a Rust type if and only if it is known to be: for one of an instance that is for
/// `equivalent` to say, for one of the host it was noted, and one that is not known is of none.
pub proof fn law_payload_of_type<
    T,
    P: ComponentType + 'static,
    F: Fn(&T) -> Result<(), Error>,
>(known: &PayloadType<T>, equivalent: F, r: Result<(), Error>)
    requires
        call_ensures(PayloadType::<T>::typecheck_host::<P, F>, (known, equivalent), r),
    ensures
        *known matches PayloadType::Guest(ty) ==> call_ensures(equivalent, (&ty,), r),
        *known matches PayloadType::Host { id, .. } ==> (r is Ok <==> id == P::spec_type_id()),
        *known is Val ==> r is Err,
        !(*known is Guest) ==> (r matches Err(e) ==> e == Error::PayloadTypesDiffer),
{
}

/// What is known of two payloads is equal if and only if both are of instances and equal there,
/// both are of the host and of one Rust type, or neither is known. A copy says what the payload
/// type says.
pub proof fn law_payloads_compared<T: PartialEq + Clone>(
    a: &PayloadType<T>,
    b: &PayloadType<T>,
    r: bool,
    copy: PayloadType<T>,
)
    requires
        T::obeys_eq_spec(),
        call_ensures(<PayloadType<T> as PartialEq>::eq, (a, b), r),
        call_ensures(<PayloadType<T> as Clone>::clone, (a,), copy),
    ensures
        *a matches PayloadType::Guest(s) ==> (*b matches PayloadType::Guest(t) ==> r == s.eq_spec(
            &t,
        )),
        *a matches PayloadType::Host { id: s, .. } ==> (*b matches PayloadType::Host { id: t, .. }
            ==> r == (s == t)),
        *a is Val && *b is Val ==> r,
        r ==> (*a is Guest <==> *b is Guest) && (*a is Host <==> *b is Host) && (*a is Val <==> *b
            is Val),
        *a matches PayloadType::Guest(s) ==> (copy matches PayloadType::Guest(t) && cloned::<T>(
            s,
            t,
        )),
        !(*a is Guest) ==> copy == *a,
{
}

/// The check for a Rust type passes a payload if and only if the type stands for it, and no payload
/// if and only if it is the unit type.
pub proof fn law_host_check<P: ComponentType + 'static>(
    check: &HostCheck<P>,
    payload: Option<&InterfaceType>,
    types: &InstanceType,
    r: Result<(), Error>,
)
    requires
        call_ensures(<HostCheck<P> as PayloadCheck>::typecheck, (check, payload, types), r),
    ensures
        payload matches Some(ty) ==> r == P::spec_typecheck(*ty, types@),
        payload is None ==> (r is Ok <==> P::spec_is_unit()),
{
}

} // verus!
