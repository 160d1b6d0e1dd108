//! Type tables and the comparison of types of two instances.

use crate::types::{
    CompoundIndex, CompoundKind, CompoundModel, CompoundType, DefModel, InterfaceType,
    ResourceType, TypeDef, TypeEnv, TypeFuture, TypeFutureIndex, TypeFutureTable,
    TypeFutureTableIndex, TypeStream, TypeStreamIndex, TypeStreamTable, TypeStreamTableIndex,
    TypeTable,
};
use std::sync::Arc;
use vstd::pervasive::unreached;
use vstd::prelude::*;

verus! {

/// The type table of a component.
pub struct ComponentTypes {
    defs: Vec<TypeDef>,
    resources: u32,
}

impl View for ComponentTypes {
    type V = TypeTable;

    closed spec fn view(&self) -> TypeTable {
        TypeTable {
            defs: Seq::new(self.defs@.len(), |i: int| self.defs@[i]@),
            resources: self.resources as nat,
        }
    }
}

impl ComponentTypes {
    /// No type of the table contains itself, and every reference has its entry.
    #[verifier::type_invariant]
    pub open spec fn inv(self) -> bool {
        self@.wf()
    }

    /// A table without entries whose types may name `resources` resource types.
    pub fn new(resources: u32) -> (r: ComponentTypes)
        ensures
            r@ == (TypeTable { defs: Seq::empty(), resources: resources as nat }),
    {
        let r = ComponentTypes { defs: Vec::new(), resources };
        assert(r@.defs =~= Seq::empty());
        r
    }

    /// How many entries the table has.
    pub fn len(&self) -> (r: usize)
        ensures
            r == self@.defs.len(),
    {
        self.defs.len()
    }

    /// Adds an entry.
    fn push(&mut self, def: TypeDef) -> (r: u32)
        requires
            old(self)@.defs.len() < u32::MAX,
            old(self)@.admits(def@, old(self)@.defs.len() as int),
        ensures
            r == old(self)@.defs.len(),
            final(self)@ == old(self)@.extended(def@),
    {
        proof {
            use_type_invariant(&*self);
        }
        let ghost before = self@;
        let mut defs: Vec<TypeDef> = Vec::new();
        std::mem::swap(&mut self.defs, &mut defs);
        let r: u32 = defs.len() as u32;
        defs.push(def);
        let ghost after = TypeTable {
            defs: Seq::new(defs@.len(), |i: int| defs@[i]@),
            resources: self.resources as nat,
        };
        proof {
            assert(after.defs =~= before.extended(def@).defs);
            lemma_extended_wf(before, def@);
        }
        self.defs = defs;
        r
    }

    /// Adds a compound type made of types of the table.
    pub fn add_compound(
        &mut self,
        kind: CompoundKind,
        labels: Vec<String>,
        parts: Vec<Option<InterfaceType>>,
    ) -> (r: InterfaceType)
        requires
            old(self)@.defs.len() < u32::MAX,
            (CompoundType { kind, labels, parts })@.shaped(),
            forall|n: int|
                0 <= n < parts@.len() ==> old(self)@.precedes(
                    #[trigger] parts@[n],
                    old(self)@.defs.len() as int,
                ),
        ensures
            r == InterfaceType::of_compound(kind, CompoundIndex(old(self)@.defs.len() as u32)),
            final(self)@ == old(self)@.extended(
                DefModel::Compound((CompoundType { kind, labels, parts })@),
            ),
    {
        let def = TypeDef::Compound(CompoundType { kind, labels, parts });
        let i = CompoundIndex(self.push(def));
        match kind {
            CompoundKind::Record => InterfaceType::Record(i),
            CompoundKind::Variant => InterfaceType::Variant(i),
            CompoundKind::List => InterfaceType::List(i),
            CompoundKind::Tuple => InterfaceType::Tuple(i),
            CompoundKind::Flags => InterfaceType::Flags(i),
            CompoundKind::Enum => InterfaceType::Enum(i),
            CompoundKind::Option => InterfaceType::Option(i),
            CompoundKind::Result => InterfaceType::Result(i),
        }
    }

    /// Adds a `future` type whose payload is a type of the table.
    pub fn add_future(&mut self, payload: Option<InterfaceType>) -> (r: TypeFutureIndex)
        requires
            old(self)@.defs.len() < u32::MAX,
            payload matches Some(ty) ==> old(self)@.valid(ty),
        ensures
            r == TypeFutureIndex(old(self)@.defs.len() as u32),
            final(self)@ == old(self)@.extended(DefModel::Future(TypeFuture { payload })),
    {
        TypeFutureIndex(self.push(TypeDef::Future(TypeFuture { payload })))
    }

    /// Adds a table of handles to futures of a type of this table.
    pub fn add_future_table(&mut self, ty: TypeFutureIndex) -> (r: TypeFutureTableIndex)
        requires
            old(self)@.defs.len() < u32::MAX,
            old(self)@.has_future(ty),
        ensures
            r == TypeFutureTableIndex(old(self)@.defs.len() as u32),
            final(self)@ == old(self)@.extended(DefModel::FutureTable(TypeFutureTable { ty })),
    {
        TypeFutureTableIndex(self.push(TypeDef::FutureTable(TypeFutureTable { ty })))
    }

    /// Adds a `stream` type whose payload is a type of the table.
    pub fn add_stream(&mut self, payload: Option<InterfaceType>) -> (r: TypeStreamIndex)
        requires
            old(self)@.defs.len() < u32::MAX,
            payload matches Some(ty) ==> old(self)@.valid(ty),
        ensures
            r == TypeStreamIndex(old(self)@.defs.len() as u32),
            final(self)@ == old(self)@.extended(DefModel::Stream(TypeStream { payload })),
    {
        TypeStreamIndex(self.push(TypeDef::Stream(TypeStream { payload })))
    }

    /// Adds a table of handles to streams of a type of this table.
    pub fn add_stream_table(&mut self, ty: TypeStreamIndex) -> (r: TypeStreamTableIndex)
        requires
            old(self)@.defs.len() < u32::MAX,
            old(self)@.has_stream(ty),
        ensures
            r == TypeStreamTableIndex(old(self)@.defs.len() as u32),
            final(self)@ == old(self)@.extended(DefModel::StreamTable(TypeStreamTable { ty })),
    {
        TypeStreamTableIndex(self.push(TypeDef::StreamTable(TypeStreamTable { ty })))
    }

    /// The compound type that entry `i` describes.
    pub fn compound(&self, kind: CompoundKind, i: CompoundIndex) -> (r: &CompoundType)
        requires
            self@.has_compound(kind, i),
        ensures
            r@ == self@.compound(i),
    {
        assert(self@.defs[i.0 as int] == self.defs@[i.0 as int]@);
        match &self.defs[i.0 as usize] {
            TypeDef::Compound(c) => c,
            _ => unreached(),
        }
    }

    /// The `future` type that entry `i` describes.
    pub fn future(&self, i: TypeFutureIndex) -> (r: TypeFuture)
        requires
            self@.has_future(i),
        ensures
            r == self@.future(i),
    {
        assert(self@.defs[i.0 as int] == self.defs@[i.0 as int]@);
        match &self.defs[i.0 as usize] {
            TypeDef::Future(f) => *f,
            _ => unreached(),
        }
    }

    /// The table of handles to futures that entry `i` describes.
    pub fn future_table(&self, i: TypeFutureTableIndex) -> (r: TypeFutureTable)
        requires
            self@.has_future_table(i),
        ensures
            r == self@.future_table(i),
    {
        assert(self@.defs[i.0 as int] == self.defs@[i.0 as int]@);
        match &self.defs[i.0 as usize] {
            TypeDef::FutureTable(t) => *t,
            _ => unreached(),
        }
    }

    /// The `stream` type that entry `i` describes.
    pub fn stream(&self, i: TypeStreamIndex) -> (r: TypeStream)
        requires
            self@.has_stream(i),
        ensures
            r == self@.stream(i),
    {
        assert(self@.defs[i.0 as int] == self.defs@[i.0 as int]@);
        match &self.defs[i.0 as usize] {
            TypeDef::Stream(s) => *s,
            _ => unreached(),
        }
    }

    /// The table of handles to streams that entry `i` describes.
    pub fn stream_table(&self, i: TypeStreamTableIndex) -> (r: TypeStreamTable)
        requires
            self@.has_stream_table(i),
        ensures
            r == self@.stream_table(i),
    {
        assert(self@.defs[i.0 as int] == self.defs@[i.0 as int]@);
        match &self.defs[i.0 as usize] {
            TypeDef::StreamTable(t) => *t,
            _ => unreached(),
        }
    }
}

/// A table stays well-formed when it gets an entry that refers to its entries.
pub proof fn lemma_extended_wf(table: TypeTable, d: DefModel)
    requires
        table.wf(),
        table.defs.len() < u32::MAX,
        table.admits(d, table.defs.len() as int),
    ensures
        table.extended(d).wf(),
{
    let after = table.extended(d);
    assert forall|i: int| 0 <= i < after.defs.len() implies after.admits(
        #[trigger] after.defs[i],
        i,
    ) by {
        if i < table.defs.len() {
            assert(table.admits(table.defs[i], i));
        }
    }
}

/// The types of a component instance.
pub struct InstanceType {
    types: Arc<ComponentTypes>,
    resources: Arc<Vec<ResourceType>>,
}

impl View for InstanceType {
    type V = TypeEnv;

    closed spec fn view(&self) -> TypeEnv {
        TypeEnv { table: self.types@, resources: self.resources@ }
    }
}

impl InstanceType {
    /// The table is well-formed, and each resource type that it may name is given.
    #[verifier::type_invariant]
    pub open spec fn inv(self) -> bool {
        self@.wf()
    }

    /// The types of an instance of a component with type table `types`, in which resource type
    /// number `i` of the table is `resources[i]`.
    pub fn new(types: Arc<ComponentTypes>, resources: Vec<ResourceType>) -> (r: InstanceType)
        requires
            resources@.len() == types@.resources,
        ensures
            r@ == (TypeEnv { table: types@, resources: resources@ }),
    {
        proof {
            use_type_invariant(&*types);
        }
        InstanceType { types, resources: Arc::new(resources) }
    }

    /// The type table.
    pub fn types(&self) -> (r: &ComponentTypes)
        ensures
            r@ == self@.table,
    {
        &self.types
    }

    /// The resource type that index `i` stands for.
    fn resource(&self, i: u32) -> (r: ResourceType)
        requires
            i < self@.resources.len(),
        ensures
            r == self@.resources[i as int],
    {
        self.resources[i as usize]
    }
}

impl Clone for InstanceType {
    fn clone(&self) -> (r: InstanceType)
        ensures
            r == *self,
    {
        proof {
            use_type_invariant(self);
        }
        InstanceType { types: self.types.clone(), resources: self.resources.clone() }
    }
}

/// Whether two lists of names are the same.
fn labels_equal(a: &Vec<String>, b: &Vec<String>) -> (r: bool)
    ensures
        r == (crate::types::label_texts(a@) == crate::types::label_texts(b@)),
{
    let ghost x = crate::types::label_texts(a@);
    let ghost y = crate::types::label_texts(b@);
    if a.len() != b.len() {
        assert(x.len() != y.len());
        return false;
    }
    let mut n: usize = 0;
    while n < a.len()
        invariant
            n <= a@.len(),
            a@.len() == b@.len(),
            x == crate::types::label_texts(a@),
            y == crate::types::label_texts(b@),
            forall|m: int| 0 <= m < n ==> x[m] == y[m],
        decreases a@.len() - n,
    {
        if a[n] != b[n] {
            assert(x[n as int] != y[n as int]);
            return false;
        }
        n += 1;
    }
    assert(x =~= y);
    true
}

/// Whether `x`, a type of `a`, and `y`, a type of `b`, are one type.
pub fn interface_types_equal(
    a: &InstanceType,
    x: InterfaceType,
    b: &InstanceType,
    y: InterfaceType,
) -> (r: bool)
    requires
        a@.valid(x),
        b@.valid(y),
    ensures
        r == crate::types::equal(a@, x, b@, y),
    decreases x.rank(), 0nat,
{
    proof {
        use_type_invariant(a);
        use_type_invariant(b);
    }
    match (x.as_compound(), y.as_compound()) {
        (Some((k, i)), Some((l, j))) => {
            let p = a.types().compound(k, i);
            let q = b.types().compound(l, j);
            assert(a@.table.admits(a@.table.defs[i.0 as int], i.0 as int));
            assert(b@.table.admits(b@.table.defs[j.0 as int], j.0 as int));
            if k != l || !labels_equal(&p.labels, &q.labels) || p.parts.len() != q.parts.len() {
                return false;
            }
            let mut n: usize = 0;
            while n < p.parts.len()
                invariant
                    n <= p.parts@.len(),
                    p.parts@.len() == q.parts@.len(),
                    p.parts@ == a@.table.compound(i).parts,
                    q.parts@ == b@.table.compound(j).parts,
                    x.compound() == Some((k, i)),
                    y.compound() == Some((l, j)),
                    a@.wf(),
                    b@.wf(),
                    a@.valid(x),
                    b@.valid(y),
                    a@.table.admits(a@.table.defs[i.0 as int], i.0 as int),
                    b@.table.admits(b@.table.defs[j.0 as int], j.0 as int),
                    forall|m: int|
                        0 <= m < n ==> crate::types::equal_payloads(
                            a@,
                            #[trigger] p.parts@[m],
                            b@,
                            q.parts@[m],
                        ),
                decreases p.parts@.len() - n,
            {
                if !payloads_equal(a, p.parts[n], b, q.parts[n]) {
                    assert(!crate::types::equal_payloads(
                        a@,
                        a@.table.compound(i).parts[n as int],
                        b@,
                        b@.table.compound(j).parts[n as int],
                    ));
                    return false;
                }
                n += 1;
            }
            true
        },
        (None, None) => match (x, y) {
            (InterfaceType::Own(r), InterfaceType::Own(s)) => a.resource(r.0) == b.resource(s.0),
            (InterfaceType::Borrow(r), InterfaceType::Borrow(s)) => a.resource(r.0) == b.resource(
                s.0,
            ),
            (InterfaceType::Future(i), InterfaceType::Future(j)) => {
                let s = a.types().future_table(i).ty;
                let t = b.types().future_table(j).ty;
                assert(a@.table.admits(a@.table.defs[i.0 as int], i.0 as int));
                assert(b@.table.admits(b@.table.defs[j.0 as int], j.0 as int));
                assert(a@.table.admits(a@.table.defs[s.0 as int], s.0 as int));
                assert(b@.table.admits(b@.table.defs[t.0 as int], t.0 as int));
                payloads_equal(a, a.types().future(s).payload, b, b.types().future(t).payload)
            },
            (InterfaceType::Stream(i), InterfaceType::Stream(j)) => {
                let s = a.types().stream_table(i).ty;
                let t = b.types().stream_table(j).ty;
                assert(a@.table.admits(a@.table.defs[i.0 as int], i.0 as int));
                assert(b@.table.admits(b@.table.defs[j.0 as int], j.0 as int));
                assert(a@.table.admits(a@.table.defs[s.0 as int], s.0 as int));
                assert(b@.table.admits(b@.table.defs[t.0 as int], t.0 as int));
                payloads_equal(a, a.types().stream(s).payload, b, b.types().stream(t).payload)
            },
            _ => x == y,
        },
        _ => false,
    }
}

/// Whether two optional types are both absent, or both present and one type.
pub fn payloads_equal(
    a: &InstanceType,
    x: Option<InterfaceType>,
    b: &InstanceType,
    y: Option<InterfaceType>,
) -> (r: bool)
    requires
        a@.valid_payload(x),
        b@.valid_payload(y),
    ensures
        r == crate::types::equal_payloads(a@, x, b@, y),
    decreases crate::types::payload_rank(x), 1nat,
{
    match (x, y) {
        (Some(s), Some(t)) => interface_types_equal(a, s, b, t),
        (None, None) => true,
        _ => false,
    }
}

} // verus!
