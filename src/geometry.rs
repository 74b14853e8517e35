//! Rotation of logical coordinates and address-range parameters.
use vstd::prelude::*;

verus! {

/// The four fixed orientations of the panel.
#[derive(Clone, Copy, Debug, PartialEq, Eq)]
pub enum Rotate {
    Rotate0,
    Rotate90,
    Rotate180,
    Rotate270,
}

/// `a - b` modulo 2^16.
pub open spec fn wrap_sub(a: u16, b: u16) -> u16 {
    if b <= a {
        (a - b) as u16
    } else {
        (a - b + 0x10000) as u16
    }
}

/// The physical coordinate of the logical `(x, y)` on a `width` x `height` panel.
pub open spec fn transform(rotate: Rotate, width: u16, height: u16, x: u16, y: u16) -> (u16, u16) {
    match rotate {
        Rotate::Rotate0 => (x, y),
        Rotate::Rotate90 => (wrap_sub(width, x), y),
        Rotate::Rotate180 => (x, wrap_sub(height, y)),
        Rotate::Rotate270 => (wrap_sub(width, x), wrap_sub(height, y)),
    }
}

/// Whether the orientation reverses the order of rows.
pub open spec fn flips_rows(rotate: Rotate) -> bool {
    rotate == Rotate::Rotate180 || rotate == Rotate::Rotate270
}

/// Maps the logical `(x, y)` to the physical coordinate for `rotate`.
pub fn transform_point(rotate: Rotate, width: u16, height: u16, x: u16, y: u16) -> (r: (u16, u16))
    ensures
        r == transform(rotate, width, height, x, y),
{
    match rotate {
        Rotate::Rotate0 => (x, y),
        Rotate::Rotate90 => (width.wrapping_sub(x), y),
        Rotate::Rotate180 => (x, height.wrapping_sub(y)),
        Rotate::Rotate270 => (width.wrapping_sub(x), height.wrapping_sub(y)),
    }
}

/// Without rotation a coordinate is its own physical coordinate; rotated by 180 degrees
/// the row is mirrored (`height - y`) and the column kept, for every `y <= height`.
pub proof fn lemma_transform_identity_and_half_turn(width: u16, height: u16, x: u16, y: u16)
    ensures
        transform(Rotate::Rotate0, width, height, x, y) == (x, y),
        y <= height ==> transform(Rotate::Rotate180, width, height, x, y) == (x, (height - y) as u16),
{
}

/// High byte of a 16-bit value.
pub open spec fn hi(v: u16) -> u8 {
    (v / 256) as u8
}

/// Low byte of a 16-bit value.
pub open spec fn lo(v: u16) -> u8 {
    (v % 256) as u8
}

/// Splits a 16-bit value into its high and low byte.
pub fn split_u16(v: u16) -> (r: (u8, u8))
    ensures
        r == (hi(v), lo(v)),
{
    proof {
        assert(v >> 8u16 == v / 256) by (bit_vector);
        assert(v & 0xFFu16 == v % 256) by (bit_vector);
    }
    ((v >> 8) as u8, (v & 0xFF) as u8)
}

/// The inclusive end address `end - 1` of the half-open range ending at `end`, modulo 2^16.
/// The range operations reject `end == 0`, so they never send a wrapped end.
pub open spec fn last_address(end: u16) -> u16 {
    wrap_sub(end, 1)
}

/// The four parameter bytes of a column or row range `[start, end)`: start, then `end - 1`,
/// each high byte first.
pub open spec fn range_params(start: u16, end: u16) -> Seq<u8> {
    seq![hi(start), lo(start), hi(last_address(end)), lo(last_address(end))]
}

/// The parameter bytes of the range `[start, end)`.
pub fn range_bytes(start: u16, end: u16) -> (r: Vec<u8>)
    ensures
        r@ == range_params(start, end),
{
    let (sh, sl) = split_u16(start);
    let (eh, el) = split_u16(end.wrapping_sub(1));
    let r = vec![sh, sl, eh, el];
    assert(r@ =~= range_params(start, end));
    r
}

/// The range parameters are, in order, `start >> 8`, `start & 0xFF`, `(end - 1) >> 8` and
/// `(end - 1) & 0xFF`, where `end - 1` wraps modulo 2^16.
pub proof fn lemma_range_params_bytes(start: u16, end: u16)
    ensures
        range_params(start, end) == seq![
            (start >> 8u16) as u8,
            (start & 0xFFu16) as u8,
            (end.wrapping_sub(1) >> 8u16) as u8,
            (end.wrapping_sub(1) & 0xFFu16) as u8,
        ],
{
    let e = end.wrapping_sub(1);
    assert(e == last_address(end));
    assert(start >> 8u16 == start / 256) by (bit_vector);
    assert(start & 0xFFu16 == start % 256) by (bit_vector);
    assert(e >> 8u16 == e / 256) by (bit_vector);
    assert(e & 0xFFu16 == e % 256) by (bit_vector);
}

} // verus!
