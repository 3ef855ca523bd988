use vstd::prelude::*;

verus! {

/// The protocol version carried by the two reply bytes `[lo, hi]`, little-endian.
pub open spec fn spec_version(lo: u8, hi: u8) -> u16 {
    (hi as int * 256 + lo as int) as u16
}

/// Decodes the two-byte little-endian reply to the version query.
pub fn as_version(data: [u8; 2]) -> (r: u16)
    ensures
        r as int == data@[1] as int * 256 + data@[0] as int,
        r == spec_version(data@[0], data@[1]),
        r == ((data@[1] as u16) << 8u16) | (data@[0] as u16),
{
    let lo = data[0];
    let hi = data[1];
    let r: u16 = (hi as u16) << 8u16 | (lo as u16);
    assert(r as int == hi as int * 256 + lo as int) by (bit_vector)
        requires
            r == (hi as u16) << 8u16 | (lo as u16),
    ;
    r
}

} // verus!
