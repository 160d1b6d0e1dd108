//! Values of types that are not known ahead of time.

use crate::future_any::FutureAny;
use crate::stream_any::StreamAny;
use vstd::prelude::*;

verus! {

/// A value of any interface type.
///
/// A floating-point number is held as its bits, a resource and an error context by the number
/// that names it.
pub enum Val {
    Bool(bool),
    S8(i8),
    U8(u8),
    S16(i16),
    U16(u16),
    S32(i32),
    U32(u32),
    S64(i64),
    U64(u64),
    Float32(u32),
    Float64(u64),
    Char(char),
    String(String),
    List(Vec<Val>),
    Record(Vec<(String, Val)>),
    Tuple(Vec<Val>),
    Variant(String, Option<Box<Val>>),
    Enum(String),
    Option(Option<Box<Val>>),
    Result(Result<Option<Box<Val>>, Option<Box<Val>>>),
    Flags(Vec<String>),
    Resource(u32),
    Future(FutureAny),
    Stream(StreamAny),
    ErrorContext(u32),
}

impl Val {
    /// Whether this is the unit value: the tuple without parts.
    pub open spec fn is_unit_spec(self) -> bool {
        self matches Val::Tuple(parts) && parts@.len() == 0
    }

    /// Whether this is the unit value.
    pub fn is_unit(&self) -> (r: bool)
        ensures
            r == self.is_unit_spec(),
    {
        match self {
            Val::Tuple(parts) => parts.len() == 0,
            _ => false,
        }
    }
}

/// Whether all of the values are the unit value.
pub open spec fn all_unit(values: Seq<Val>) -> bool {
    forall|i: int| 0 <= i < values.len() ==> (#[trigger] values[i]).is_unit_spec()
}

/// Whether all of the values are the unit value.
pub fn are_all_unit(values: &[Val]) -> (r: bool)
    ensures
        r == all_unit(values@),
{
    let mut i: usize = 0;
    while i < values.len()
        invariant
            0 <= i <= values@.len(),
            all_unit(values@.take(i as int)),
        decreases values@.len() - i,
    {
        if !values[i].is_unit() {
            return false;
        }
        assert forall|j: int| 0 <= j < i + 1 implies (#[trigger] values@.take(
            i + 1,
        )[j]).is_unit_spec() by {
            if j < i {
                assert(values@.take(i as int)[j].is_unit_spec());
            }
        }
        i += 1;
    }
    assert(values@.take(i as int) =~= values@);
    true
}

} // verus!
