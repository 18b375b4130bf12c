use uuid::Uuid;
use vstd::prelude::*;

verus! {

/// Mask of the version nibble and the two variant bits of a UUID taken as a
/// big-endian 128-bit value.
pub const UUID_LAYOUT_MASK: u128 = 0x0000_0000_0000_F000_C000_0000_0000_0000u128;

/// The bits that a randomly generated UUID (version 4, RFC 9562 variant)
/// carries under [`UUID_LAYOUT_MASK`].
pub const UUID_RANDOM_LAYOUT: u128 = 0x0000_0000_0000_4000_8000_0000_0000_0000u128;

/// A value laid out as a version-4 UUID: version nibble 4, variant bits `10`.
pub open spec fn is_random_uuid(v: u128) -> bool {
    v & UUID_LAYOUT_MASK == UUID_RANDOM_LAYOUT
}

/// A fresh random identifier: `uuid::Uuid::new_v4`, taken as its 128-bit value
/// (`Uuid::as_u128`).
///
/// The value is random, so nothing ties it to earlier ones. Its layout is
/// fixed by the crate's source: `new_v4` masks a random `u128` and sets the
/// version and variant bits, which is what the contract claims. `new_v4`
/// panics only when the operating system gives no random bytes.
#[verifier::external_body]
pub(crate) fn fresh_id() -> (r: u128)
    ensures
        is_random_uuid(r),
{
    Uuid::new_v4().as_u128()
}

/// A value laid out as a random UUID is never the nil UUID.
pub proof fn lemma_random_uuid_not_nil(v: u128)
    requires
        is_random_uuid(v),
    ensures
        v != 0,
{
    assert(v & 0x0000_0000_0000_F000_C000_0000_0000_0000u128 == 0x0000_0000_0000_4000_8000_0000_0000_0000u128 ==> v != 0) by (bit_vector);
}

} // verus!
