//! Declarations of the protobuf runtime types that the wire messages of this
//! library carry, and the calls into that runtime that carry no payload.

use protobuf::{CachedSize, RepeatedField, SingularPtrField, UnknownFields};
use vstd::prelude::*;

verus! {

/// The protobuf runtime's list of repeated message fields.
#[verifier::external_type_specification]
#[verifier::external_body]
#[verifier::reject_recursive_types(T)]
pub struct ExRepeatedField<T>(RepeatedField<T>);

/// The protobuf runtime's optional, boxed message field.
#[verifier::external_type_specification]
#[verifier::external_body]
#[verifier::reject_recursive_types(T)]
pub struct ExSingularPtrField<T>(SingularPtrField<T>);

/// The protobuf runtime's store of fields that a message did not know.
#[verifier::external_type_specification]
#[verifier::external_body]
pub struct ExUnknownFields(UnknownFields);

/// The protobuf runtime's cache of a message's encoded size.
#[verifier::external_type_specification]
#[verifier::external_body]
pub struct ExCachedSize(CachedSize);

/// The numbers of the fields that a store of unknown fields holds.
pub uninterp spec fn unknown_field_numbers(u: UnknownFields) -> Set<u32>;

/// Calls `UnknownFields::default`, a store whose map is absent: it holds no
/// unknown field.
#[verifier::external_body]
pub(crate) fn fresh_unknown_fields() -> (r: UnknownFields)
    ensures
        unknown_field_numbers(r).is_empty(),
{
    UnknownFields::default()
}

/// Calls `CachedSize::default`: a size cache that holds nothing yet.
/// Its contents are opaque here, so nothing is stated of the result.
#[verifier::external_body]
pub(crate) fn fresh_cached_size() -> (r: CachedSize) {
    CachedSize::default()
}

} // verus!
