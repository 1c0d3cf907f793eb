use vstd::prelude::*;

verus! {

/// The signed 16-bit value whose little-endian bytes are `lo`, `hi`.
pub open spec fn le_i16(lo: u8, hi: u8) -> int {
    let u = lo as int + 256 * hi as int;
    if u >= 0x8000 {
        u - 0x10000
    } else {
        u
    }
}

/// Reads one little-endian signed 16-bit value.
pub fn read_le_i16(lo: u8, hi: u8) -> (r: i16)
    ensures
        r as int == le_i16(lo, hi),
{
    let u: i32 = lo as i32 + 256 * (hi as i32);
    let v: i32 = if u >= 0x8000 {
        u - 0x10000
    } else {
        u
    };
    v as i16
}

/// Splits a raw 6-byte sample into its X, Y and Z counts.
pub fn decode_sample(data: &[u8; 6]) -> (r: (i16, i16, i16))
    ensures
        r.0 as int == le_i16(data@[0], data@[1]),
        r.1 as int == le_i16(data@[2], data@[3]),
        r.2 as int == le_i16(data@[4], data@[5]),
{
    let x = read_le_i16(data[0], data[1]);
    let y = read_le_i16(data[2], data[3]);
    let z = read_le_i16(data[4], data[5]);
    (x, y, z)
}

} // verus!
