//! The identifiers that commits carry, which come from the `uuid` crate.

use vstd::prelude::*;

verus! {

/// `uuid::Uuid`, carried through as an opaque value.
#[verifier::external_type_specification]
#[verifier::external_body]
pub struct ExUuid(uuid::Uuid);

/// What `Uuid::get_version_num` returns of `id`: the version field of its sixteen bytes.
pub uninterp spec fn uuid_version(id: uuid::Uuid) -> nat;

/// `Uuid::get_version_num` reads the version field of an identifier.
pub assume_specification[ uuid::Uuid::get_version_num ](id: &uuid::Uuid) -> (version: usize)
    ensures
        version == uuid_version(*id),
;

/// `Uuid::now_v7` makes an identifier out of the clock and random bytes. Of every such
/// identifier the version field is 7. That identifiers made one after the other by one process
/// are ordered is left unsaid. The call does not return on a machine without random bytes or
/// with a clock that stands before the Unix epoch.
pub assume_specification[ uuid::Uuid::now_v7 ]() -> (id: uuid::Uuid)
    ensures
        uuid_version(id) == 7,
;

} // verus!
