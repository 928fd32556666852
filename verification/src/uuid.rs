//! Fresh identifiers, behind a trait.

use vstd::prelude::*;

verus! {

/// A universally unique identifier, carried through as it is.
#[verifier::external_type_specification]
#[verifier::external_body]
pub struct ExUuid(uuid::Uuid);

/// The bytes that an identifier holds, as `uuid::Uuid::as_bytes` gives them.
pub uninterp spec fn bytes_of(id: uuid::Uuid) -> Seq<u8>;

/// Whether `bytes` are those of an identifier of version 4: sixteen bytes,
/// of which the seventh has the version, 4, in its upper half, and the ninth
/// starts with the bits 1 and 0, which mark the layout that the versions
/// belong to. The other bits are free.
pub open spec fn is_v4(bytes: Seq<u8>) -> bool {
    &&& bytes.len() == 16
    &&& bytes[6] / 16 == 4
    &&& bytes[8] / 64 == 2
}

/// A trait for generating UUIDs.
pub trait UuidGenerator: Send + Sync {
    /// Generates a new UUID V4.
    fn generate_v4(&self) -> uuid::Uuid;
}

/// Calls `uuid::Uuid::new_v4`. The result is drawn at random: all that is
/// known of it beforehand is that it is of version 4, whose bits the call
/// sets in whatever was drawn. The call aborts where the system has no
/// random bytes to give.
#[verifier::external_body]
fn new_v4() -> (id: uuid::Uuid)
    ensures
        is_v4(bytes_of(id)),
{
    uuid::Uuid::new_v4()
}

/// The generator that draws identifiers at random.
pub struct DefaultUuidGenerator;

impl UuidGenerator for DefaultUuidGenerator {
    /// Draws an identifier of version 4.
    fn generate_v4(&self) -> (id: uuid::Uuid)
        ensures
            is_v4(bytes_of(id)),
    {
        new_v4()
    }
}

} // verus!
