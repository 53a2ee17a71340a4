//! Protobuf well-known types carried inside messages.
//!
//! Several messages hold dynamically typed metadata (`Struct`), points in time
//! (`Timestamp`) or spans of time (`Duration`). The library never reads inside
//! such a value: it is carried through a message unchanged, and only the wire
//! codec outside the library ever takes it apart.

use vstd::prelude::*;

verus! {

/// Relies on prost_types::Struct: a protobuf map of dynamically typed values.
/// Declared so that messages can hold one; the library treats it as opaque.
#[verifier::external_type_specification]
#[verifier::external_body]
pub struct ExStruct(prost_types::Struct);

/// Relies on prost_types::Timestamp: a point in time as seconds and
/// nanoseconds since the Unix epoch. Declared so that messages can hold one;
/// the library treats it as opaque.
#[verifier::external_type_specification]
#[verifier::external_body]
pub struct ExTimestamp(prost_types::Timestamp);

/// Relies on prost_types::Duration: a span of time as seconds and
/// nanoseconds. Declared so that messages can hold one; the library treats it
/// as opaque.
#[verifier::external_type_specification]
#[verifier::external_body]
pub struct ExDuration(prost_types::Duration);

} // verus!
