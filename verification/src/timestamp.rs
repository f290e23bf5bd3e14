//! Modification times packed into one 64-bit value: whole seconds in the high
//! 32 bits, nanoseconds in the low 32 bits.

use vstd::prelude::*;

verus! {

/// The seconds held in a packed modification time.
pub open spec fn spec_packed_secs(combined: u64) -> u64 {
    combined >> 32
}

/// The nanoseconds held in a packed modification time.
pub open spec fn spec_packed_nanos(combined: u64) -> u32 {
    (combined & 0xFFFF_FFFF) as u32
}

/// The packed form of `secs` seconds and `nanos` nanoseconds. Seconds beyond
/// 32 bits lose their high bits.
pub open spec fn spec_pack_modified_time(secs: u64, nanos: u32) -> u64 {
    (secs << 32) | (nanos as u64)
}

/// Splits a packed modification time into seconds and nanoseconds.
pub fn parse_modified_time(combined: u64) -> (parts: (u64, u32))
    ensures
        parts.0 == spec_packed_secs(combined),
        parts.1 == spec_packed_nanos(combined),
        parts.0 == combined / 0x1_0000_0000,
        parts.1 == combined % 0x1_0000_0000,
{
    assert(combined >> 32 == combined / 0x1_0000_0000) by (bit_vector);
    assert(combined & 0xFFFF_FFFF == combined % 0x1_0000_0000) by (bit_vector);
    assert((combined & 0xFFFF_FFFF) < 0x1_0000_0000) by (bit_vector);
    let secs: u64 = combined >> 32;
    let nanos: u32 = (combined & 0xFFFF_FFFF) as u32;
    (secs, nanos)
}

/// Packs seconds and nanoseconds into one value.
pub fn pack_modified_time(secs: u64, nanos: u32) -> (combined: u64)
    ensures
        combined == spec_pack_modified_time(secs, nanos),
        secs < 0x1_0000_0000 ==> combined == secs * 0x1_0000_0000 + nanos,
{
    let low: u64 = nanos as u64;
    assert(secs < 0x1_0000_0000 ==> ((secs << 32) | low) == secs * 0x1_0000_0000 + low) by (bit_vector)
        requires
            low < 0x1_0000_0000,
    ;
    (secs << 32) | low
}

/// Packing and then splitting gives the parts back, as long as the seconds
/// fit in 32 bits.
pub proof fn lemma_pack_then_parse(secs: u64, nanos: u32)
    requires
        secs < 0x1_0000_0000,
    ensures
        spec_packed_secs(spec_pack_modified_time(secs, nanos)) == secs,
        spec_packed_nanos(spec_pack_modified_time(secs, nanos)) == nanos,
{
    let low: u64 = nanos as u64;
    assert(secs < 0x1_0000_0000 && low < 0x1_0000_0000 ==> (((secs << 32) | low) >> 32) == secs
        && (((secs << 32) | low) & 0xFFFF_FFFF) == low) by (bit_vector);
}

} // verus!
