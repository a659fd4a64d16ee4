use vstd::prelude::*;

verus! {

/// The ordered key of the density whose IEEE-754 single-precision bits are `bits`:
/// the magnitude bits, negated where the sign bit is set. Keys are negative exactly for
/// densities below zero and order as the densities do; both zeros have key 0.
pub open spec fn density_key_spec(bits: u32) -> int {
    if bits >= 0x8000_0000 {
        -(bits - 0x8000_0000)
    } else {
        bits as int
    }
}

/// The single-precision bits of the density whose ordered key is `key`.
pub open spec fn density_bits_spec(key: i32) -> int {
    if key < 0 {
        0x8000_0000 - key
    } else {
        key as int
    }
}

/// Ordered key of a density, from its single-precision bits.
pub fn density_key(bits: u32) -> (key: i32)
    ensures
        key == density_key_spec(bits),
{
    if bits >= 0x8000_0000 {
        -((bits - 0x8000_0000) as i32)
    } else {
        bits as i32
    }
}

/// Single-precision bits of the density with the given ordered key.
pub fn density_bits(key: i32) -> (bits: u32)
    requires
        key > i32::MIN,
    ensures
        bits == density_bits_spec(key),
{
    if key < 0 {
        0x8000_0000 + (-key) as u32
    } else {
        key as u32
    }
}

/// Keys give back the bits they came from, but for negative zero, which reads as
/// positive zero.
pub proof fn lemma_density_key_round_trip(bits: u32)
    ensures
        density_key_spec(bits) > i32::MIN,
        bits != 0x8000_0000 ==> density_bits_spec(density_key_spec(bits) as i32) == bits,
        bits == 0x8000_0000 ==> density_bits_spec(density_key_spec(bits) as i32) == 0,
{
}

/// The color word of the four channel bytes: red in the lowest byte, alpha in the
/// highest (`0xAABBGGRR`).
pub open spec fn rgba_spec(r: u8, g: u8, b: u8, a: u8) -> int {
    r + 0x100 * g + 0x1_0000 * b + 0x100_0000 * a
}

/// Packs four channel bytes into one color word, red lowest.
pub fn pack_rgba(r: u8, g: u8, b: u8, a: u8) -> (c: u32)
    ensures
        c == rgba_spec(r, g, b, a),
{
    r as u32 + 0x100 * g as u32 + 0x1_0000 * b as u32 + 0x100_0000 * a as u32
}

/// Splits a color word into its red, green, blue and alpha bytes.
pub fn unpack_rgba(c: u32) -> (rgba: [u8; 4])
    ensures
        rgba_spec(rgba[0], rgba[1], rgba[2], rgba[3]) == c,
        rgba[0] == c % 0x100,
        rgba[1] == (c / 0x100) % 0x100,
        rgba[2] == (c / 0x1_0000) % 0x100,
        rgba[3] == c / 0x100_0000,
{
    [(c % 0x100) as u8, ((c / 0x100) % 0x100) as u8, ((c / 0x1_0000) % 0x100) as u8, (c
        / 0x100_0000) as u8]
}

} // verus!
