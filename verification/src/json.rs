//! A small JSON value model.
//!
//! Request payloads and response bodies cross this library as JSON
//! values. The dispatch core never interprets an operation's payload; it
//! only passes payloads through and builds the overload error body, so a
//! plain recursive datatype is all it needs. Converting between this
//! type and a serializer's value type is the caller's concern.
//!
//! Contracts speak about `Json` values directly, through structural
//! predicates such as [`crate::util::is_overload_body`]; the type has no
//! separate mathematical view.

use vstd::prelude::*;

verus! {

/// A JSON value: null, a boolean, a number, a string, an array, or an
/// object given as an ordered list of key/value fields. A number is
/// an `Int` when it fits a signed machine word; any other number (a
/// float, or an integer beyond that range) is a `Num` carrying its
/// literal text, so every payload passes through unchanged.
#[derive(Debug, PartialEq, Eq)]
pub enum Json {
    Null,
    Bool(bool),
    Int(i64),
    Num(String),
    Text(String),
    Array(Vec<Json>),
    Object(Vec<(String, Json)>),
}

} // verus!
