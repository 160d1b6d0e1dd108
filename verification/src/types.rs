//! Interface types and the tables that give meaning to their indices.
//!
//! A component instance names the types of its futures, streams, records and so on by indices
//! into a type table of its own, so two instances can give different indices to one type. Types
//! of two instances are therefore compared by what the indices stand for (see [`equal`]).

use vstd::prelude::*;

verus! {

/// Names an entry of a type table that describes a record, a variant, a list and the like.
#[derive(Clone, Copy, PartialEq, Eq, Structural, Debug)]
pub struct CompoundIndex(pub u32);

/// Names a `future` type of a type table.
#[derive(Clone, Copy, PartialEq, Eq, Structural, Debug)]
pub struct TypeFutureIndex(pub u32);

/// Names a `stream` type of a type table.
#[derive(Clone, Copy, PartialEq, Eq, Structural, Debug)]
pub struct TypeStreamIndex(pub u32);

/// Names the table in which a component instance keeps its handles to futures of one type.
#[derive(Clone, Copy, PartialEq, Eq, Structural, Debug)]
pub struct TypeFutureTableIndex(pub u32);

/// Names the table in which a component instance keeps its handles to streams of one type.
#[derive(Clone, Copy, PartialEq, Eq, Structural, Debug)]
pub struct TypeStreamTableIndex(pub u32);

/// Names a resource type that a component instance uses.
#[derive(Clone, Copy, PartialEq, Eq, Structural, Debug)]
pub struct TypeResourceTableIndex(pub u32);

/// The identity of a resource type, the same for every instance that uses it.
#[derive(Clone, Copy, PartialEq, Eq, Structural, Debug)]
pub struct ResourceType(pub u64);

/// A type that crosses the boundary of a component.
#[derive(Clone, Copy, PartialEq, Eq, Structural, Debug)]
pub enum InterfaceType {
    Bool,
    S8,
    U8,
    S16,
    U16,
    S32,
    U32,
    S64,
    U64,
    Float32,
    Float64,
    Char,
    String,
    Record(CompoundIndex),
    Variant(CompoundIndex),
    List(CompoundIndex),
    Tuple(CompoundIndex),
    Flags(CompoundIndex),
    Enum(CompoundIndex),
    Option(CompoundIndex),
    Result(CompoundIndex),
    Own(TypeResourceTableIndex),
    Borrow(TypeResourceTableIndex),
    Future(TypeFutureTableIndex),
    Stream(TypeStreamTableIndex),
    ErrorContext,
}

/// The kinds of types that are made of other types or of names.
#[derive(Clone, Copy, PartialEq, Eq, Structural, Debug)]
pub enum CompoundKind {
    Record,
    Variant,
    List,
    Tuple,
    Flags,
    Enum,
    Option,
    Result,
}

impl InterfaceType {
    /// The kind and the table entry of a compound type, `None` for any other type.
    pub open spec fn compound(self) -> Option<(CompoundKind, CompoundIndex)> {
        match self {
            InterfaceType::Record(i) => Some((CompoundKind::Record, i)),
            InterfaceType::Variant(i) => Some((CompoundKind::Variant, i)),
            InterfaceType::List(i) => Some((CompoundKind::List, i)),
            InterfaceType::Tuple(i) => Some((CompoundKind::Tuple, i)),
            InterfaceType::Flags(i) => Some((CompoundKind::Flags, i)),
            InterfaceType::Enum(i) => Some((CompoundKind::Enum, i)),
            InterfaceType::Option(i) => Some((CompoundKind::Option, i)),
            InterfaceType::Result(i) => Some((CompoundKind::Result, i)),
            _ => None,
        }
    }

    /// One more than the table entry that the type refers to, 0 if it refers to none.
    pub open spec fn rank(self) -> nat {
        match self.compound() {
            Some((_, i)) => (i.0 + 1) as nat,
            None => match self {
                InterfaceType::Future(i) => (i.0 + 1) as nat,
                InterfaceType::Stream(i) => (i.0 + 1) as nat,
                _ => 0,
            },
        }
    }

    /// The compound type of the given kind that entry `i` describes.
    pub open spec fn of_compound(kind: CompoundKind, i: CompoundIndex) -> InterfaceType {
        match kind {
            CompoundKind::Record => InterfaceType::Record(i),
            CompoundKind::Variant => InterfaceType::Variant(i),
            CompoundKind::List => InterfaceType::List(i),
            CompoundKind::Tuple => InterfaceType::Tuple(i),
            CompoundKind::Flags => InterfaceType::Flags(i),
            CompoundKind::Enum => InterfaceType::Enum(i),
            CompoundKind::Option => InterfaceType::Option(i),
            CompoundKind::Result => InterfaceType::Result(i),
        }
    }

    pub fn as_compound(self) -> (r: Option<(CompoundKind, CompoundIndex)>)
        ensures
            r == self.compound(),
    {
        match self {
            InterfaceType::Record(i) => Some((CompoundKind::Record, i)),
            InterfaceType::Variant(i) => Some((CompoundKind::Variant, i)),
            InterfaceType::List(i) => Some((CompoundKind::List, i)),
            InterfaceType::Tuple(i) => Some((CompoundKind::Tuple, i)),
            InterfaceType::Flags(i) => Some((CompoundKind::Flags, i)),
            InterfaceType::Enum(i) => Some((CompoundKind::Enum, i)),
            InterfaceType::Option(i) => Some((CompoundKind::Option, i)),
            InterfaceType::Result(i) => Some((CompoundKind::Result, i)),
            _ => None,
        }
    }
}

/// A `future` type: the type of its value, or `None` if it carries no value.
#[derive(Clone, Copy, PartialEq, Eq, Structural, Debug)]
pub struct TypeFuture {
    pub payload: Option<InterfaceType>,
}

/// A `stream` type: the type of its items, or `None` if its items carry no value.
#[derive(Clone, Copy, PartialEq, Eq, Structural, Debug)]
pub struct TypeStream {
    pub payload: Option<InterfaceType>,
}

/// A table of handles to futures of type `ty`.
#[derive(Clone, Copy, PartialEq, Eq, Structural, Debug)]
pub struct TypeFutureTable {
    pub ty: TypeFutureIndex,
}

/// A table of handles to streams of type `ty`.
#[derive(Clone, Copy, PartialEq, Eq, Structural, Debug)]
pub struct TypeStreamTable {
    pub ty: TypeStreamIndex,
}

/// A compound type: the names of its fields, cases or flags, and the types of its parts.
///
/// A case of a variant and a side of a result can be without a type, so a part is optional.
pub struct CompoundType {
    pub kind: CompoundKind,
    pub labels: Vec<String>,
    pub parts: Vec<Option<InterfaceType>>,
}

/// An entry of a type table.
pub enum TypeDef {
    Compound(CompoundType),
    Future(TypeFuture),
    FutureTable(TypeFutureTable),
    Stream(TypeStream),
    StreamTable(TypeStreamTable),
}

/// What a compound type is made of.
pub struct CompoundModel {
    pub kind: CompoundKind,
    pub labels: Seq<Seq<char>>,
    pub parts: Seq<Option<InterfaceType>>,
}

/// What an entry of a type table says.
pub enum DefModel {
    Compound(CompoundModel),
    Future(TypeFuture),
    FutureTable(TypeFutureTable),
    Stream(TypeStream),
    StreamTable(TypeStreamTable),
}

impl CompoundModel {
    /// Whether every part has a type.
    pub open spec fn parts_given(self) -> bool {
        forall|n: int| 0 <= n < self.parts.len() ==> #[trigger] self.parts[n] is Some
    }

    /// Whether there are as many names and parts as the kind calls for.
    pub open spec fn shaped(self) -> bool {
        match self.kind {
            CompoundKind::Record => self.labels.len() == self.parts.len() && self.parts_given(),
            CompoundKind::Variant => self.labels.len() == self.parts.len(),
            CompoundKind::List => self.labels.len() == 0 && self.parts.len() == 1
                && self.parts_given(),
            CompoundKind::Option => self.labels.len() == 0 && self.parts.len() == 1
                && self.parts_given(),
            CompoundKind::Tuple => self.labels.len() == 0 && self.parts_given(),
            CompoundKind::Flags => self.parts.len() == 0,
            CompoundKind::Enum => self.parts.len() == 0,
            CompoundKind::Result => self.labels.len() == 0 && self.parts.len() == 2,
        }
    }
}

/// The characters of each of `labels`.
pub open spec fn label_texts(labels: Seq<String>) -> Seq<Seq<char>> {
    Seq::new(labels.len(), |n: int| labels[n]@)
}

impl View for CompoundType {
    type V = CompoundModel;

    open spec fn view(&self) -> CompoundModel {
        CompoundModel {
            kind: self.kind,
            labels: label_texts(self.labels@),
            parts: self.parts@,
        }
    }
}

impl View for TypeDef {
    type V = DefModel;

    open spec fn view(&self) -> DefModel {
        match *self {
            TypeDef::Compound(c) => DefModel::Compound(c@),
            TypeDef::Future(f) => DefModel::Future(f),
            TypeDef::FutureTable(t) => DefModel::FutureTable(t),
            TypeDef::Stream(s) => DefModel::Stream(s),
            TypeDef::StreamTable(t) => DefModel::StreamTable(t),
        }
    }
}

/// A type table: its entries, and how many resource types its entries may name.
pub struct TypeTable {
    pub defs: Seq<DefModel>,
    pub resources: nat,
}

impl TypeTable {
    pub open spec fn has_compound(self, kind: CompoundKind, i: CompoundIndex) -> bool {
        &&& i.0 < self.defs.len()
        &&& self.defs[i.0 as int] is Compound
        &&& self.compound(i).kind == kind
    }

    pub open spec fn has_future(self, i: TypeFutureIndex) -> bool {
        i.0 < self.defs.len() && self.defs[i.0 as int] is Future
    }

    pub open spec fn has_stream(self, i: TypeStreamIndex) -> bool {
        i.0 < self.defs.len() && self.defs[i.0 as int] is Stream
    }

    pub open spec fn has_future_table(self, i: TypeFutureTableIndex) -> bool {
        i.0 < self.defs.len() && self.defs[i.0 as int] is FutureTable
    }

    pub open spec fn has_stream_table(self, i: TypeStreamTableIndex) -> bool {
        i.0 < self.defs.len() && self.defs[i.0 as int] is StreamTable
    }

    pub open spec fn compound(self, i: CompoundIndex) -> CompoundModel {
        self.defs[i.0 as int]->Compound_0
    }

    pub open spec fn future(self, i: TypeFutureIndex) -> TypeFuture {
        self.defs[i.0 as int]->Future_0
    }

    pub open spec fn stream(self, i: TypeStreamIndex) -> TypeStream {
        self.defs[i.0 as int]->Stream_0
    }

    pub open spec fn future_table(self, i: TypeFutureTableIndex) -> TypeFutureTable {
        self.defs[i.0 as int]->FutureTable_0
    }

    pub open spec fn stream_table(self, i: TypeStreamTableIndex) -> TypeStreamTable {
        self.defs[i.0 as int]->StreamTable_0
    }

    /// The payload of the futures that table `i` holds handles to.
    pub open spec fn future_payload(self, i: TypeFutureTableIndex) -> Option<InterfaceType> {
        self.future(self.future_table(i).ty).payload
    }

    /// The payload of the streams that table `i` holds handles to.
    pub open spec fn stream_payload(self, i: TypeStreamTableIndex) -> Option<InterfaceType> {
        self.stream(self.stream_table(i).ty).payload
    }

    /// Whether what `ty` refers to is in the table.
    pub open spec fn valid(self, ty: InterfaceType) -> bool {
        match ty.compound() {
            Some((kind, i)) => self.has_compound(kind, i),
            None => match ty {
                InterfaceType::Own(r) => r.0 < self.resources,
                InterfaceType::Borrow(r) => r.0 < self.resources,
                InterfaceType::Future(i) => self.has_future_table(i),
                InterfaceType::Stream(i) => self.has_stream_table(i),
                _ => true,
            },
        }
    }

    /// Whether an optional part is valid and refers to an entry before entry `i`, if to any.
    pub open spec fn precedes(self, part: Option<InterfaceType>, i: int) -> bool {
        part matches Some(ty) ==> self.valid(ty) && ty.rank() <= i
    }

    /// Whether `d` can be entry `i`: it refers to entries of the right kind before it.
    pub open spec fn admits(self, d: DefModel, i: int) -> bool {
        match d {
            DefModel::Compound(c) => c.shaped() && (forall|n: int|
                0 <= n < c.parts.len() ==> self.precedes(#[trigger] c.parts[n], i)),
            DefModel::Future(f) => self.precedes(f.payload, i),
            DefModel::FutureTable(t) => self.has_future(t.ty) && t.ty.0 < i,
            DefModel::Stream(s) => self.precedes(s.payload, i),
            DefModel::StreamTable(t) => self.has_stream(t.ty) && t.ty.0 < i,
        }
    }

    /// Every entry refers only to entries before it, each of the kind that the reference asks
    /// for. So no type contains itself.
    pub open spec fn wf(self) -> bool {
        &&& self.defs.len() <= u32::MAX
        &&& forall|i: int| 0 <= i < self.defs.len() ==> self.admits(#[trigger] self.defs[i], i)
    }

    /// The table with one more entry.
    pub open spec fn extended(self, d: DefModel) -> TypeTable {
        TypeTable { defs: self.defs.push(d), ..self }
    }
}

/// The types of one component instance: its type table, and the resource types that the table
/// names by index.
pub struct TypeEnv {
    pub table: TypeTable,
    pub resources: Seq<ResourceType>,
}

impl TypeEnv {
    pub open spec fn wf(self) -> bool {
        self.table.wf() && self.resources.len() == self.table.resources
    }

    pub open spec fn valid(self, ty: InterfaceType) -> bool {
        self.table.valid(ty)
    }

    /// Whether what an optional payload refers to is in the table.
    pub open spec fn valid_payload(self, payload: Option<InterfaceType>) -> bool {
        payload matches Some(ty) ==> self.valid(ty)
    }
}

/// Whether `x`, a type of the instance with types `a`, and `y`, a type of the instance with
/// types `b`, are one type: they are built alike out of the same names, the same primitive types
/// and the same resources, whatever indices the two tables give them.
pub open spec fn equal(a: TypeEnv, x: InterfaceType, b: TypeEnv, y: InterfaceType) -> bool
    decreases x.rank(),
    when a.wf() && a.valid(x)
{
    match (x.compound(), y.compound()) {
        (Some((k, i)), Some((l, j))) => {
            let p = a.table.compound(i);
            let q = b.table.compound(j);
            &&& k == l
            &&& p.labels == q.labels
            &&& p.parts.len() == q.parts.len()
            &&& forall|n: int|
                0 <= n < p.parts.len() ==> match (#[trigger] p.parts[n], q.parts[n]) {
                    (Some(s), Some(t)) => equal(a, s, b, t),
                    (None, None) => true,
                    _ => false,
                }
        },
        (None, None) => match (x, y) {
            (InterfaceType::Own(r), InterfaceType::Own(s)) => a.resources[r.0 as int]
                == b.resources[s.0 as int],
            (InterfaceType::Borrow(r), InterfaceType::Borrow(s)) => a.resources[r.0 as int]
                == b.resources[s.0 as int],
            (InterfaceType::Future(i), InterfaceType::Future(j)) => match (
                a.table.future_payload(i),
                b.table.future_payload(j),
            ) {
                (Some(s), Some(t)) => equal(a, s, b, t),
                (None, None) => true,
                _ => false,
            },
            (InterfaceType::Stream(i), InterfaceType::Stream(j)) => match (
                a.table.stream_payload(i),
                b.table.stream_payload(j),
            ) {
                (Some(s), Some(t)) => equal(a, s, b, t),
                (None, None) => true,
                _ => false,
            },
            _ => x == y,
        },
        _ => false,
    }
}

/// The rank of an optional type, 0 if it is absent.
pub open spec fn payload_rank(x: Option<InterfaceType>) -> nat {
    match x {
        Some(ty) => ty.rank(),
        None => 0,
    }
}

/// Whether two optional types are both absent, or both present and one type.
pub open spec fn equal_payloads(
    a: TypeEnv,
    x: Option<InterfaceType>,
    b: TypeEnv,
    y: Option<InterfaceType>,
) -> bool {
    match (x, y) {
        (Some(s), Some(t)) => equal(a, s, b, t),
        (None, None) => true,
        _ => false,
    }
}

/// What a valid type refers to are valid types that refer to earlier entries.
pub proof fn lemma_children(a: TypeEnv, x: InterfaceType)
    requires
        a.wf(),
        a.valid(x),
    ensures
        x.compound() matches Some((_, i)) ==> forall|n: int|
            0 <= n < a.table.compound(i).parts.len() ==> a.valid_payload(
                #[trigger] a.table.compound(i).parts[n],
            ) && payload_rank(a.table.compound(i).parts[n]) < x.rank(),
        x matches InterfaceType::Future(i) ==> a.valid_payload(a.table.future_payload(i))
            && payload_rank(a.table.future_payload(i)) < x.rank(),
        x matches InterfaceType::Stream(i) ==> a.valid_payload(a.table.stream_payload(i))
            && payload_rank(a.table.stream_payload(i)) < x.rank(),
{
    match x.compound() {
        Some((_, i)) => {
            assert(a.table.admits(a.table.defs[i.0 as int], i.0 as int));
        },
        None => match x {
            InterfaceType::Future(i) => {
                let s = a.table.future_table(i).ty;
                assert(a.table.admits(a.table.defs[i.0 as int], i.0 as int));
                assert(a.table.admits(a.table.defs[s.0 as int], s.0 as int));
            },
            InterfaceType::Stream(i) => {
                let s = a.table.stream_table(i).ty;
                assert(a.table.admits(a.table.defs[i.0 as int], i.0 as int));
                assert(a.table.admits(a.table.defs[s.0 as int], s.0 as int));
            },
            _ => {},
        },
    }
}

/// Every type is the same type as itself.
pub proof fn law_equal_reflexive(a: TypeEnv, x: InterfaceType)
    requires
        a.wf(),
        a.valid(x),
    ensures
        equal(a, x, a, x),
    decreases x.rank(),
{
    lemma_children(a, x);
    match x.compound() {
        Some((_, i)) => {
            let p = a.table.compound(i);
            assert forall|n: int| 0 <= n < p.parts.len() implies equal_payloads(
                a,
                #[trigger] p.parts[n],
                a,
                p.parts[n],
            ) by {
                if let Some(s) = p.parts[n] {
                    law_equal_reflexive(a, s);
                }
            }
        },
        None => match x {
            InterfaceType::Future(i) => {
                if let Some(s) = a.table.future_payload(i) {
                    law_equal_reflexive(a, s);
                }
            },
            InterfaceType::Stream(i) => {
                if let Some(s) = a.table.stream_payload(i) {
                    law_equal_reflexive(a, s);
                }
            },
            _ => {},
        },
    }
}

/// Whether two types are one type does not depend on their order.
pub proof fn law_equal_symmetric(a: TypeEnv, x: InterfaceType, b: TypeEnv, y: InterfaceType)
    requires
        a.wf(),
        b.wf(),
        a.valid(x),
        b.valid(y),
    ensures
        equal(a, x, b, y) == equal(b, y, a, x),
    decreases x.rank(),
{
    lemma_children(a, x);
    lemma_children(b, y);
    match (x.compound(), y.compound()) {
        (Some((_, i)), Some((_, j))) => {
            let p = a.table.compound(i);
            let q = b.table.compound(j);
            if p.parts.len() == q.parts.len() {
                assert forall|n: int| 0 <= n < p.parts.len() implies equal_payloads(
                    a,
                    #[trigger] p.parts[n],
                    b,
                    q.parts[n],
                ) == equal_payloads(b, #[trigger] q.parts[n], a, p.parts[n]) by {
                    if let (Some(s), Some(t)) = (p.parts[n], q.parts[n]) {
                        law_equal_symmetric(a, s, b, t);
                    }
                }
                if equal(a, x, b, y) {
                    assert forall|n: int| 0 <= n < q.parts.len() implies equal_payloads(
                        b,
                        #[trigger] q.parts[n],
                        a,
                        p.parts[n],
                    ) by {
                        assert(equal_payloads(a, p.parts[n], b, q.parts[n]));
                    }
                }
                if equal(b, y, a, x) {
                    assert forall|n: int| 0 <= n < p.parts.len() implies equal_payloads(
                        a,
                        #[trigger] p.parts[n],
                        b,
                        q.parts[n],
                    ) by {
                        assert(equal_payloads(b, q.parts[n], a, p.parts[n]));
                    }
                }
            }
        },
        _ => match (x, y) {
            (InterfaceType::Future(i), InterfaceType::Future(j)) => {
                if let (Some(s), Some(t)) = (
                    a.table.future_payload(i),
                    b.table.future_payload(j),
                ) {
                    law_equal_symmetric(a, s, b, t);
                }
            },
            (InterfaceType::Stream(i), InterfaceType::Stream(j)) => {
                if let (Some(s), Some(t)) = (
                    a.table.stream_payload(i),
                    b.table.stream_payload(j),
                ) {
                    law_equal_symmetric(a, s, b, t);
                }
            },
            _ => {},
        },
    }
}

/// Two types that are each the same type as a third are one type.
pub proof fn law_equal_transitive(
    a: TypeEnv,
    x: InterfaceType,
    b: TypeEnv,
    y: InterfaceType,
    c: TypeEnv,
    z: InterfaceType,
)
    requires
        a.wf(),
        b.wf(),
        c.wf(),
        a.valid(x),
        b.valid(y),
        c.valid(z),
        equal(a, x, b, y),
        equal(b, y, c, z),
    ensures
        equal(a, x, c, z),
    decreases x.rank(),
{
    lemma_children(a, x);
    lemma_children(b, y);
    lemma_children(c, z);
    match (x.compound(), y.compound(), z.compound()) {
        (Some((_, i)), Some((_, j)), Some((_, k))) => {
            let p = a.table.compound(i);
            let q = b.table.compound(j);
            let r = c.table.compound(k);
            assert forall|n: int| 0 <= n < p.parts.len() implies equal_payloads(
                a,
                #[trigger] p.parts[n],
                c,
                r.parts[n],
            ) by {
                assert(equal_payloads(a, p.parts[n], b, q.parts[n]));
                assert(equal_payloads(b, q.parts[n], c, r.parts[n]));
                if let (Some(s), Some(t), Some(u)) = (p.parts[n], q.parts[n], r.parts[n]) {
                    law_equal_transitive(a, s, b, t, c, u);
                }
            }
        },
        _ => match (x, y, z) {
            (InterfaceType::Future(i), InterfaceType::Future(j), InterfaceType::Future(k)) => {
                if let (Some(s), Some(t), Some(u)) = (
                    a.table.future_payload(i),
                    b.table.future_payload(j),
                    c.table.future_payload(k),
                ) {
                    law_equal_transitive(a, s, b, t, c, u);
                }
            },
            (InterfaceType::Stream(i), InterfaceType::Stream(j), InterfaceType::Stream(k)) => {
                if let (Some(s), Some(t), Some(u)) = (
                    a.table.stream_payload(i),
                    b.table.stream_payload(j),
                    c.table.stream_payload(k),
                ) {
                    law_equal_transitive(a, s, b, t, c, u);
                }
            },
            _ => {},
        },
    }
}

} // verus!
