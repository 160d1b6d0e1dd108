//! Why an operation on a future or a stream was refused.

use crate::types::InterfaceType;
use vstd::prelude::*;

verus! {

#[derive(Debug)]
pub enum Error {
    /// The store was made without support for concurrency.
    ConcurrencyDisabled,
    /// The resource table of the store, or a handle table of an instance, has no room.
    TableFull,
    /// The store has no such handle: it belongs to another store or was closed.
    UnknownHandle,
    /// The future or stream was closed before.
    Closed,
    /// A future was asked for, and the handle is that of a stream.
    NotAFuture,
    /// A stream was asked for, and the handle is that of a future.
    NotAStream,
    /// The value or the items have another type than the one that was asked for.
    PayloadTypesDiffer,
    /// As `PayloadTypesDiffer`, with what the check of the type found.
    PayloadTypesDifferSince(Box<Error>),
    /// A type of one sort was asked for, and the type is of another.
    Expected { expected: &'static str, found: InterfaceType },
    /// An instance has no handle at an index, or one to something else.
    UnknownIndex,
    /// What a producer or a consumer reported.
    Reported(String),
}

/// The name of a sort of types.
pub open spec fn desc_text(ty: InterfaceType) -> Seq<char> {
    match ty {
        InterfaceType::Bool => "bool"@,
        InterfaceType::S8 => "s8"@,
        InterfaceType::U8 => "u8"@,
        InterfaceType::S16 => "s16"@,
        InterfaceType::U16 => "u16"@,
        InterfaceType::S32 => "s32"@,
        InterfaceType::U32 => "u32"@,
        InterfaceType::S64 => "s64"@,
        InterfaceType::U64 => "u64"@,
        InterfaceType::Float32 => "f32"@,
        InterfaceType::Float64 => "f64"@,
        InterfaceType::Char => "char"@,
        InterfaceType::String => "string"@,
        InterfaceType::Record(_) => "record"@,
        InterfaceType::Variant(_) => "variant"@,
        InterfaceType::List(_) => "list"@,
        InterfaceType::Tuple(_) => "tuple"@,
        InterfaceType::Flags(_) => "flags"@,
        InterfaceType::Enum(_) => "enum"@,
        InterfaceType::Option(_) => "option"@,
        InterfaceType::Result(_) => "result"@,
        InterfaceType::Own(_) => "owned resource"@,
        InterfaceType::Borrow(_) => "borrowed resource"@,
        InterfaceType::Future(_) => "future"@,
        InterfaceType::Stream(_) => "stream"@,
        InterfaceType::ErrorContext => "error-context"@,
    }
}

/// The name of the sort of types that `ty` is of.
pub fn desc(ty: &InterfaceType) -> (r: &'static str)
    ensures
        r@ == desc_text(*ty),
{
    match ty {
        InterfaceType::Bool => "bool",
        InterfaceType::S8 => "s8",
        InterfaceType::U8 => "u8",
        InterfaceType::S16 => "s16",
        InterfaceType::U16 => "u16",
        InterfaceType::S32 => "s32",
        InterfaceType::U32 => "u32",
        InterfaceType::S64 => "s64",
        InterfaceType::U64 => "u64",
        InterfaceType::Float32 => "f32",
        InterfaceType::Float64 => "f64",
        InterfaceType::Char => "char",
        InterfaceType::String => "string",
        InterfaceType::Record(_) => "record",
        InterfaceType::Variant(_) => "variant",
        InterfaceType::List(_) => "list",
        InterfaceType::Tuple(_) => "tuple",
        InterfaceType::Flags(_) => "flags",
        InterfaceType::Enum(_) => "enum",
        InterfaceType::Option(_) => "option",
        InterfaceType::Result(_) => "result",
        InterfaceType::Own(_) => "owned resource",
        InterfaceType::Borrow(_) => "borrowed resource",
        InterfaceType::Future(_) => "future",
        InterfaceType::Stream(_) => "stream",
        InterfaceType::ErrorContext => "error-context",
    }
}

impl Error {
    /// The error as a sentence.
    pub open spec fn text(self) -> Seq<char> {
        match self {
            Error::ConcurrencyDisabled => "concurrency support is not enabled"@,
            Error::TableFull => "resource table has no free keys"@,
            Error::UnknownHandle => "resource not present"@,
            Error::Closed => "already closed"@,
            Error::NotAFuture => "not a future"@,
            Error::NotAStream => "not a stream"@,
            Error::PayloadTypesDiffer => "future payload types differ"@,
            Error::PayloadTypesDifferSince(_) => "future payload types differ"@,
            Error::Expected { expected, found } => "expected `"@ + expected@ + "`, found `"@
                + desc_text(found) + "`"@,
            Error::UnknownIndex => "unknown handle index"@,
            Error::Reported(text) => text@,
        }
    }

    /// The error as a sentence. Of an error with a cause, the sentence leaves the cause out.
    pub fn message(&self) -> (r: String)
        ensures
            r@ == self.text(),
    {
        match self {
            Error::ConcurrencyDisabled => "concurrency support is not enabled".to_string(),
            Error::TableFull => "resource table has no free keys".to_string(),
            Error::UnknownHandle => "resource not present".to_string(),
            Error::Closed => "already closed".to_string(),
            Error::NotAFuture => "not a future".to_string(),
            Error::NotAStream => "not a stream".to_string(),
            Error::PayloadTypesDiffer => "future payload types differ".to_string(),
            Error::PayloadTypesDifferSince(_) => "future payload types differ".to_string(),
            Error::Expected { expected, found } => {
                let mut text: String = "expected `".to_string();
                text.append(expected);
                text.append("`, found `");
                text.append(desc(found));
                text.append("`");
                text
            },
            Error::UnknownIndex => "unknown handle index".to_string(),
            Error::Reported(text) => text.clone(),
        }
    }
}

} // verus!
