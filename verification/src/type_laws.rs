//! What holds of types, of type tables and of the Rust types that stand for types.

use crate::component_type::{ComponentType, TypeId};
use crate::error::Error;
use crate::future_any::FutureAny;
use crate::stream_any::StreamAny;
use crate::tables::{ComponentTypes, InstanceType};
use crate::transmit_type::{FutureType, StreamType};
use crate::types::{
    CompoundIndex, CompoundKind, CompoundModel, CompoundType, DefModel, InterfaceType, TypeEnv,
    TypeFuture, TypeFutureIndex, TypeFutureTable, TypeFutureTableIndex, TypeStream,
    TypeStreamIndex, TypeStreamTable, TypeStreamTableIndex,
};
use vstd::prelude::*;

verus! {

/// Two compound types are one type if and only if they are of one sort, have the same names and
/// have as many parts, and the parts are one type or both absent, one by one.
pub proof fn law_equal_compounds(
    a: TypeEnv,
    x: InterfaceType,
    i: CompoundIndex,
    p: CompoundModel,
    b: TypeEnv,
    y: InterfaceType,
    j: CompoundIndex,
    q: CompoundModel,
)
    requires
        a.wf(),
        b.wf(),
        a.valid(x),
        b.valid(y),
        a.table.defs[i.0 as int] == DefModel::Compound(p),
        b.table.defs[j.0 as int] == DefModel::Compound(q),
        ({
            ||| x == InterfaceType::Record(i) && y == InterfaceType::Record(j)
            ||| x == InterfaceType::Variant(i) && y == InterfaceType::Variant(j)
            ||| x == InterfaceType::List(i) && y == InterfaceType::List(j)
            ||| x == InterfaceType::Tuple(i) && y == InterfaceType::Tuple(j)
            ||| x == InterfaceType::Flags(i) && y == InterfaceType::Flags(j)
            ||| x == InterfaceType::Enum(i) && y == InterfaceType::Enum(j)
            ||| x == InterfaceType::Option(i) && y == InterfaceType::Option(j)
            ||| x == InterfaceType::Result(i) && y == InterfaceType::Result(j)
        }),
    ensures
        crate::types::equal(a, x, b, y) <==> ({
            &&& p.labels == q.labels
            &&& p.parts.len() == q.parts.len()
            &&& forall|n: int|
                0 <= n < p.parts.len() ==> ({
                    ||| #[trigger] p.parts[n] is None && q.parts[n] is None
                    ||| p.parts[n] is Some && q.parts[n] is Some && crate::types::equal(
                        a,
                        p.parts[n]->0,
                        b,
                        q.parts[n]->0,
                    )
                })
        }),
{
    if crate::types::equal(a, x, b, y) {
        assert forall|n: int| 0 <= n < p.parts.len() implies {
            ||| #[trigger] p.parts[n] is None && q.parts[n] is None
            ||| p.parts[n] is Some && q.parts[n] is Some && crate::types::equal(
                a,
                p.parts[n]->0,
                b,
                q.parts[n]->0,
            )
        } by {
            assert(a.table.compound(i).parts[n] == p.parts[n]);
        }
    }
}

/// Two lists, two options, two results, two records and so on are one type only if their parts
/// are. So a list of one type is never taken for a list of another.
pub proof fn law_equal_parts(
    a: TypeEnv,
    x: InterfaceType,
    i: CompoundIndex,
    p: CompoundModel,
    b: TypeEnv,
    y: InterfaceType,
    j: CompoundIndex,
    q: CompoundModel,
    n: int,
)
    requires
        a.wf(),
        b.wf(),
        a.valid(x),
        b.valid(y),
        a.table.defs[i.0 as int] == DefModel::Compound(p),
        b.table.defs[j.0 as int] == DefModel::Compound(q),
        ({
            ||| x == InterfaceType::Record(i) && y == InterfaceType::Record(j)
            ||| x == InterfaceType::Variant(i) && y == InterfaceType::Variant(j)
            ||| x == InterfaceType::List(i) && y == InterfaceType::List(j)
            ||| x == InterfaceType::Tuple(i) && y == InterfaceType::Tuple(j)
            ||| x == InterfaceType::Option(i) && y == InterfaceType::Option(j)
            ||| x == InterfaceType::Result(i) && y == InterfaceType::Result(j)
        }),
        0 <= n < p.parts.len(),
        crate::types::equal(a, x, b, y),
    ensures
        n < q.parts.len(),
        p.parts[n] is None <==> q.parts[n] is None,
        p.parts[n] matches Some(s) ==> crate::types::equal(a, s, b, q.parts[n]->0),
{
    law_equal_compounds(a, x, i, p, b, y, j, q);
}

/// Types of two sorts are never one type.
pub proof fn law_equal_sorts(a: TypeEnv, x: InterfaceType, b: TypeEnv, y: InterfaceType)
    requires
        a.wf(),
        b.wf(),
        a.valid(x),
        b.valid(y),
        crate::types::equal(a, x, b, y),
    ensures
        x is Record <==> y is Record,
        x is Variant <==> y is Variant,
        x is List <==> y is List,
        x is Tuple <==> y is Tuple,
        x is Flags <==> y is Flags,
        x is Enum <==> y is Enum,
        x is Option <==> y is Option,
        x is Result <==> y is Result,
        x is Own <==> y is Own,
        x is Borrow <==> y is Borrow,
        x is Future <==> y is Future,
        x is Stream <==> y is Stream,
{
}

/// A type that names no entry of a table is one type with itself and no other.
pub proof fn law_equal_primitives(a: TypeEnv, x: InterfaceType, b: TypeEnv, y: InterfaceType)
    requires
        a.wf(),
        b.wf(),
        a.valid(x),
        b.valid(y),
        x is Bool || x is S8 || x is U8 || x is S16 || x is U16 || x is S32 || x is U32 || x is S64
            || x is U64 || x is Float32 || x is Float64 || x is Char || x is String || x
            is ErrorContext,
    ensures
        crate::types::equal(a, x, b, y) <==> x == y,
        crate::types::equal(b, y, a, x) <==> x == y,
{
}

/// Handles to resources are one type if and only if they are both owned or both borrowed, and the
/// resource is the same.
pub proof fn law_equal_resources(
    a: TypeEnv,
    x: InterfaceType,
    b: TypeEnv,
    y: InterfaceType,
    r: int,
    s: int,
)
    requires
        a.wf(),
        b.wf(),
        a.valid(x),
        b.valid(y),
        x matches InterfaceType::Own(i) ==> r == i.0,
        x matches InterfaceType::Borrow(i) ==> r == i.0,
        y matches InterfaceType::Own(i) ==> s == i.0,
        y matches InterfaceType::Borrow(i) ==> s == i.0,
        x is Own || x is Borrow,
    ensures
        crate::types::equal(a, x, b, y) <==> ({
            &&& (x is Own && y is Own) || (x is Borrow && y is Borrow)
            &&& a.resources[r] == b.resources[s]
        }),
{
}

/// Two future types are one type if and only if neither has a payload, or both have one and the
/// payloads are one type.
pub proof fn law_equal_futures(
    a: TypeEnv,
    i: TypeFutureTableIndex,
    k: TypeFutureIndex,
    p: Option<InterfaceType>,
    b: TypeEnv,
    j: TypeFutureTableIndex,
    l: TypeFutureIndex,
    q: Option<InterfaceType>,
)
    requires
        a.wf(),
        b.wf(),
        a.valid(InterfaceType::Future(i)),
        b.valid(InterfaceType::Future(j)),
        a.table.defs[i.0 as int] == DefModel::FutureTable(TypeFutureTable { ty: k }),
        a.table.defs[k.0 as int] == DefModel::Future(TypeFuture { payload: p }),
        b.table.defs[j.0 as int] == DefModel::FutureTable(TypeFutureTable { ty: l }),
        b.table.defs[l.0 as int] == DefModel::Future(TypeFuture { payload: q }),
    ensures
        crate::types::equal(a, InterfaceType::Future(i), b, InterfaceType::Future(j)) <==> ({
            ||| p is None && q is None
            ||| p is Some && q is Some && crate::types::equal(a, p->0, b, q->0)
        }),
{
}

/// Two stream types are one type if and only if neither has a payload, or both have one and the
/// payloads are one type.
pub proof fn law_equal_streams(
    a: TypeEnv,
    i: TypeStreamTableIndex,
    k: TypeStreamIndex,
    p: Option<InterfaceType>,
    b: TypeEnv,
    j: TypeStreamTableIndex,
    l: TypeStreamIndex,
    q: Option<InterfaceType>,
)
    requires
        a.wf(),
        b.wf(),
        a.valid(InterfaceType::Stream(i)),
        b.valid(InterfaceType::Stream(j)),
        a.table.defs[i.0 as int] == DefModel::StreamTable(TypeStreamTable { ty: k }),
        a.table.defs[k.0 as int] == DefModel::Stream(TypeStream { payload: p }),
        b.table.defs[j.0 as int] == DefModel::StreamTable(TypeStreamTable { ty: l }),
        b.table.defs[l.0 as int] == DefModel::Stream(TypeStream { payload: q }),
    ensures
        crate::types::equal(a, InterfaceType::Stream(i), b, InterfaceType::Stream(j)) <==> ({
            ||| p is None && q is None
            ||| p is Some && q is Some && crate::types::equal(a, p->0, b, q->0)
        }),
{
}

/// The comparison of types says whether they are one type, and that of optional types whether both
/// are absent or both present and one type.
pub proof fn law_comparisons(
    a: &InstanceType,
    x: InterfaceType,
    b: &InstanceType,
    y: InterfaceType,
    p: Option<InterfaceType>,
    q: Option<InterfaceType>,
    r: bool,
    s: bool,
)
    requires
        call_ensures(crate::tables::interface_types_equal, (a, x, b, y), r),
        call_ensures(crate::tables::payloads_equal, (a, p, b, q), s),
    ensures
        r == crate::types::equal(a@, x, b@, y),
        p is None && q is None ==> s,
        p is None != q is None ==> !s,
        p is Some && q is Some ==> s == crate::types::equal(a@, p->0, b@, q->0),
        p == Some(x) && q == Some(y) ==> s == r,
{
}

/// The type of a future is compared by its payload and by nothing else, with a payload as well as
/// with another type.
pub proof fn law_future_types_compared(
    a: &FutureType,
    types: &InstanceType,
    payload: Option<&InterfaceType>,
    fits: bool,
    b: &FutureType,
    same: bool,
)
    requires
        call_ensures(FutureType::equivalent_payload_guest, (a, types, payload), fits),
        call_ensures(<FutureType as PartialEq>::eq, (a, b), same),
    ensures
        fits <==> ({
            ||| a@.payload is None && payload is None
            ||| a@.payload is Some && payload is Some && crate::types::equal(
                a@.env,
                a@.payload->0,
                types@,
                *payload->0,
            )
        }),
        same <==> ({
            ||| a@.payload is None && b@.payload is None
            ||| a@.payload is Some && b@.payload is Some && crate::types::equal(
                a@.env,
                a@.payload->0,
                b@.env,
                b@.payload->0,
            )
        }),
{
}

/// The type of a stream is compared by its payload and by nothing else, with a payload as well as
/// with another type.
pub proof fn law_stream_types_compared(
    a: &StreamType,
    types: &InstanceType,
    payload: Option<&InterfaceType>,
    fits: bool,
    b: &StreamType,
    same: bool,
)
    requires
        call_ensures(StreamType::equivalent_payload_guest, (a, types, payload), fits),
        call_ensures(<StreamType as PartialEq>::eq, (a, b), same),
    ensures
        fits <==> ({
            ||| a@.payload is None && payload is None
            ||| a@.payload is Some && payload is Some && crate::types::equal(
                a@.env,
                a@.payload->0,
                types@,
                *payload->0,
            )
        }),
        same <==> ({
            ||| a@.payload is None && b@.payload is None
            ||| a@.payload is Some && b@.payload is Some && crate::types::equal(
                a@.env,
                a@.payload->0,
                b@.env,
                b@.payload->0,
            )
        }),
{
}

/// A copy of the type of a future or stream is that type.
pub proof fn law_types_copied(f: &FutureType, g: FutureType, s: &StreamType, t: StreamType)
    requires
        call_ensures(<FutureType as Clone>::clone, (f,), g),
        call_ensures(<StreamType as Clone>::clone, (s,), t),
    ensures
        g@ == f@,
        t@ == s@,
{
}

/// The type of a future or stream says of its payload what the table of its instance says.
pub proof fn law_types_from_table(
    types: &InstanceType,
    i: TypeFutureIndex,
    f: FutureType,
    j: TypeStreamIndex,
    s: StreamType,
    p: Option<InterfaceType>,
    q: Option<InterfaceType>,
)
    requires
        call_ensures(FutureType::from, (i, types), f),
        call_ensures(StreamType::from, (j, types), s),
        types@.table.defs[i.0 as int] == DefModel::Future(TypeFuture { payload: p }),
        types@.table.defs[j.0 as int] == DefModel::Stream(TypeStream { payload: q }),
    ensures
        f@.env == types@,
        f@.payload == p,
        s@.env == types@,
        s@.payload == q,
{
}

/// A Rust type stands for a payload if and only if it stands for the payload's type, and for no
/// payload if and only if it is the unit type. The check of the type of a future or of a stream is
/// the same check.
pub proof fn law_payload_check<T: ComponentType>(
    payload: Option<&InterfaceType>,
    types: &InstanceType,
    r: Result<(), Error>,
    f: &FutureType,
    of_future: Result<(), Error>,
    s: &StreamType,
    of_stream: Result<(), Error>,
)
    requires
        call_ensures(crate::component_type::typecheck_payload::<T>, (payload, types), r),
        call_ensures(FutureType::equivalent_payload_host::<T>, (f,), of_future),
        call_ensures(StreamType::equivalent_payload_host::<T>, (s,), of_stream),
    ensures
        payload matches Some(ty) ==> r == T::spec_typecheck(*ty, types@),
        payload is None && T::spec_is_unit() ==> r is Ok,
        payload is None && !T::spec_is_unit() ==> r == Err::<(), Error>(Error::PayloadTypesDiffer),
        f@.payload matches Some(ty) ==> of_future == T::spec_typecheck(ty, f@.env),
        f@.payload is None && T::spec_is_unit() ==> of_future is Ok,
        f@.payload is None && !T::spec_is_unit() ==> of_future == Err::<(), Error>(
            Error::PayloadTypesDiffer,
        ),
        s@.payload matches Some(ty) ==> of_stream == T::spec_typecheck(ty, s@.env),
        s@.payload is None && T::spec_is_unit() ==> of_stream is Ok,
        s@.payload is None && !T::spec_is_unit() ==> of_stream == Err::<(), Error>(
            Error::PayloadTypesDiffer,
        ),
{
}

/// Which types the Rust types of this crate stand for: `()` for the tuple without parts, `u32` for
/// `u32`, and a handle of unknown payload for every type of its sort. What is refused is named in
/// the error.
pub proof fn law_which_types(
    ty: &InterfaceType,
    types: &InstanceType,
    unit: Result<(), Error>,
    number: Result<(), Error>,
    future: Result<(), Error>,
    stream: Result<(), Error>,
)
    requires
        types@.wf(),
        types@.valid(*ty),
        call_ensures(<() as ComponentType>::typecheck, (ty, types), unit),
        call_ensures(<u32 as ComponentType>::typecheck, (ty, types), number),
        call_ensures(<FutureAny as ComponentType>::typecheck, (ty, types), future),
        call_ensures(<StreamAny as ComponentType>::typecheck, (ty, types), stream),
    ensures
        unit is Ok <==> (*ty matches InterfaceType::Tuple(i) && (
        types@.table.defs[i.0 as int] matches DefModel::Compound(c) && c.parts.len() == 0)),
        unit matches Err(e) ==> (e matches Error::Expected { expected, found } && found == *ty
            && expected@ == "unit"@),
        number is Ok <==> *ty is U32,
        number matches Err(e) ==> (e matches Error::Expected { expected, found } && found == *ty
            && expected@ == "u32"@),
        future is Ok <==> *ty is Future,
        future matches Err(e) ==> (e matches Error::Expected { expected, found } && found == *ty
            && expected@ == "future"@),
        stream is Ok <==> *ty is Stream,
        stream matches Err(e) ==> (e matches Error::Expected { expected, found } && found == *ty
            && expected@ == "stream"@),
{
}

/// Of the Rust types of this crate, only `()` is the unit type, no two have one identity, and all
/// but `()` take four bytes.
pub proof fn law_rust_types(
    unit: (TypeId, bool, crate::component_type::CanonicalAbiInfo),
    number: (TypeId, bool, crate::component_type::CanonicalAbiInfo),
    future: (TypeId, bool, crate::component_type::CanonicalAbiInfo),
    stream: (TypeId, bool, crate::component_type::CanonicalAbiInfo),
)
    requires
        call_ensures(<() as ComponentType>::type_id, (), unit.0),
        call_ensures(<() as ComponentType>::is_unit, (), unit.1),
        call_ensures(<() as ComponentType>::abi, (), unit.2),
        call_ensures(<u32 as ComponentType>::type_id, (), number.0),
        call_ensures(<u32 as ComponentType>::is_unit, (), number.1),
        call_ensures(<u32 as ComponentType>::abi, (), number.2),
        call_ensures(<FutureAny as ComponentType>::type_id, (), future.0),
        call_ensures(<FutureAny as ComponentType>::is_unit, (), future.1),
        call_ensures(<FutureAny as ComponentType>::abi, (), future.2),
        call_ensures(<StreamAny as ComponentType>::type_id, (), stream.0),
        call_ensures(<StreamAny as ComponentType>::is_unit, (), stream.1),
        call_ensures(<StreamAny as ComponentType>::abi, (), stream.2),
    ensures
        unit.0 != number.0 && unit.0 != future.0 && unit.0 != stream.0,
        number.0 != future.0 && number.0 != stream.0 && future.0 != stream.0,
        !(unit.0 is Other || number.0 is Other || future.0 is Other || stream.0 is Other),
        unit.1 && !number.1 && !future.1 && !stream.1,
        unit.2.size == 0 && unit.2.align == 1 && unit.2.flat_count == 0,
        number.2.size == 4 && number.2.align == 4 && number.2.flat_count == 1,
        future.2 == number.2,
        stream.2 == number.2,
{
}

/// The types of an instance are the table and the resources that it was made with, and a copy says
/// the same.
pub proof fn law_instance_types(
    types: std::sync::Arc<ComponentTypes>,
    resources: Vec<crate::types::ResourceType>,
    instance: InstanceType,
    table: &ComponentTypes,
    copy: InstanceType,
)
    requires
        call_ensures(InstanceType::new, (types, resources), instance),
        call_ensures(InstanceType::types, (&instance,), table),
        call_ensures(<InstanceType as Clone>::clone, (&instance,), copy),
    ensures
        instance@.table == types@,
        instance@.resources == resources@,
        table@ == types@,
        copy@ == instance@,
{
}

/// A new table has no entries, and the length of a table is the number of its entries.
pub proof fn law_table_length(
    resources: u32,
    empty: ComponentTypes,
    types: &ComponentTypes,
    len: usize,
)
    requires
        call_ensures(ComponentTypes::new, (resources,), empty),
        call_ensures(ComponentTypes::len, (types,), len),
    ensures
        empty@.defs.len() == 0,
        empty@.resources == resources,
        len == types@.defs.len(),
{
}

/// A type has a kind and an entry if and only if it is made of parts or names, and they are those
/// that it is made with.
pub proof fn law_kind_and_entry(x: InterfaceType, i: CompoundIndex, r: Option<
    (CompoundKind, CompoundIndex),
>)
    requires
        call_ensures(InterfaceType::as_compound, (x,), r),
    ensures
        r == Some((CompoundKind::Record, i)) <==> x == InterfaceType::Record(i),
        r == Some((CompoundKind::Variant, i)) <==> x == InterfaceType::Variant(i),
        r == Some((CompoundKind::List, i)) <==> x == InterfaceType::List(i),
        r == Some((CompoundKind::Tuple, i)) <==> x == InterfaceType::Tuple(i),
        r == Some((CompoundKind::Flags, i)) <==> x == InterfaceType::Flags(i),
        r == Some((CompoundKind::Enum, i)) <==> x == InterfaceType::Enum(i),
        r == Some((CompoundKind::Option, i)) <==> x == InterfaceType::Option(i),
        r == Some((CompoundKind::Result, i)) <==> x == InterfaceType::Result(i),
{
}

/// A compound type that was added to a table is found there as what it was added, under an index
/// that was not in use, and what was there before stays.
pub proof fn law_added_compound(
    types: &mut ComponentTypes,
    kind: CompoundKind,
    labels: Vec<String>,
    parts: Vec<Option<InterfaceType>>,
    ty: InterfaceType,
    later: &ComponentTypes,
    found: &CompoundType,
    n: int,
)
    requires
        call_ensures(ComponentTypes::add_compound, (types, kind, labels, parts), ty),
        old(types)@.defs.len() < u32::MAX,
        later@ == final(types)@,
        call_ensures(
            ComponentTypes::compound,
            (later, kind, CompoundIndex(old(types)@.defs.len() as u32)),
            found,
        ),
    ensures
        found@.kind == kind,
        found@.parts == parts@,
        found@.labels.len() == labels@.len(),
        0 <= n < labels@.len() ==> found@.labels[n] == labels@[n]@,
        ({
            let i = CompoundIndex(old(types)@.defs.len() as u32);
            match kind {
                CompoundKind::Record => ty == InterfaceType::Record(i),
                CompoundKind::Variant => ty == InterfaceType::Variant(i),
                CompoundKind::List => ty == InterfaceType::List(i),
                CompoundKind::Tuple => ty == InterfaceType::Tuple(i),
                CompoundKind::Flags => ty == InterfaceType::Flags(i),
                CompoundKind::Enum => ty == InterfaceType::Enum(i),
                CompoundKind::Option => ty == InterfaceType::Option(i),
                CompoundKind::Result => ty == InterfaceType::Result(i),
            }
        }),
        final(types)@.defs.len() == old(types)@.defs.len() + 1,
        0 <= n < old(types)@.defs.len() ==> final(types)@.defs[n] == old(types)@.defs[n],
        final(types)@.resources == old(types)@.resources,
{
}

/// A future type, and a table of handles to futures of it, that were added to a type table are
/// found there as what they were added, and what was there before stays.
pub proof fn law_added_future(
    types: &mut ComponentTypes,
    payload: Option<InterfaceType>,
    i: TypeFutureIndex,
    between: &ComponentTypes,
    found: TypeFuture,
    more: &mut ComponentTypes,
    j: TypeFutureTableIndex,
    later: &ComponentTypes,
    table: TypeFutureTable,
    again: TypeFuture,
    n: int,
)
    requires
        old(types)@.defs.len() + 1 < u32::MAX,
        call_ensures(ComponentTypes::add_future, (types, payload), i),
        between@ == final(types)@,
        call_ensures(ComponentTypes::future, (between, i), found),
        old(more)@ == final(types)@,
        call_ensures(ComponentTypes::add_future_table, (more, i), j),
        later@ == final(more)@,
        call_ensures(ComponentTypes::future_table, (later, j), table),
        call_ensures(ComponentTypes::future, (later, i), again),
    ensures
        found.payload == payload,
        again.payload == payload,
        table.ty == i,
        i.0 == old(types)@.defs.len(),
        j.0 == old(types)@.defs.len() + 1,
        final(more)@.defs.len() == old(types)@.defs.len() + 2,
        0 <= n < old(types)@.defs.len() ==> final(more)@.defs[n] == old(types)@.defs[n],
        final(more)@.resources == old(types)@.resources,
{
}

/// A stream type, and a table of handles to streams of it, that were added to a type table are
/// found there as what they were added, and what was there before stays.
pub proof fn law_added_stream(
    types: &mut ComponentTypes,
    payload: Option<InterfaceType>,
    i: TypeStreamIndex,
    between: &ComponentTypes,
    found: TypeStream,
    more: &mut ComponentTypes,
    j: TypeStreamTableIndex,
    later: &ComponentTypes,
    table: TypeStreamTable,
    again: TypeStream,
    n: int,
)
    requires
        old(types)@.defs.len() + 1 < u32::MAX,
        call_ensures(ComponentTypes::add_stream, (types, payload), i),
        between@ == final(types)@,
        call_ensures(ComponentTypes::stream, (between, i), found),
        old(more)@ == final(types)@,
        call_ensures(ComponentTypes::add_stream_table, (more, i), j),
        later@ == final(more)@,
        call_ensures(ComponentTypes::stream_table, (later, j), table),
        call_ensures(ComponentTypes::stream, (later, i), again),
    ensures
        found.payload == payload,
        again.payload == payload,
        table.ty == i,
        i.0 == old(types)@.defs.len(),
        j.0 == old(types)@.defs.len() + 1,
        final(more)@.defs.len() == old(types)@.defs.len() + 2,
        0 <= n < old(types)@.defs.len() ==> final(more)@.defs[n] == old(types)@.defs[n],
        final(more)@.resources == old(types)@.resources,
{
}

} // verus!
