use vstd::prelude::*;

verus! {

/// The four little-endian bytes of `v`.
pub open spec fn le_u32(v: u32) -> Seq<u8> {
    seq![
        (v % 256) as u8,
        (v / 256 % 256) as u8,
        (v / 65536 % 256) as u8,
        (v / 16777216 % 256) as u8,
    ]
}

/// The value of the four little-endian bytes `s[0..4]`.
pub open spec fn from_le_u32(s: Seq<u8>) -> u32 {
    (s[0] as int + 256 * s[1] as int + 65536 * s[2] as int + 16777216 * s[3] as int) as u32
}

/// The value of the two little-endian bytes `s[0..2]`.
pub open spec fn from_le_u16(s: Seq<u8>) -> u16 {
    (s[0] as int + 256 * s[1] as int) as u16
}

/// The value of the eight little-endian bytes `s[0..8]`.
pub open spec fn from_le_u64(s: Seq<u8>) -> u64 {
    (from_le_u32(s) as int + 0x1_0000_0000 * from_le_u32(s.subrange(4, 8)) as int) as u64
}

/// Encoding four bytes and decoding them again gives the bytes back.
pub proof fn lemma_le_u32_round_trip(s: Seq<u8>)
    requires
        s.len() == 4,
    ensures
        le_u32(from_le_u32(s)) == s,
{
    let v = s[0] as int + 256 * s[1] as int + 65536 * s[2] as int + 16777216 * s[3] as int;
    let (b0, b1, b2, b3) = (s[0] as int, s[1] as int, s[2] as int, s[3] as int);
    assert(0 <= v < 0x1_0000_0000);
    assert(v % 256 == b0) by (nonlinear_arith)
        requires
            v == b0 + 256 * b1 + 65536 * b2 + 16777216 * b3,
            0 <= b0 < 256,
            0 <= b1 < 256,
            0 <= b2 < 256,
            0 <= b3 < 256,
    ;
    assert(v / 256 == b1 + 256 * b2 + 65536 * b3) by (nonlinear_arith)
        requires
            v == b0 + 256 * b1 + 65536 * b2 + 16777216 * b3,
            0 <= b0 < 256,
    ;
    assert((b1 + 256 * b2 + 65536 * b3) % 256 == b1) by (nonlinear_arith)
        requires
            0 <= b1 < 256,
            0 <= b2 < 256,
            0 <= b3 < 256,
    ;
    assert(v / 65536 == b2 + 256 * b3) by (nonlinear_arith)
        requires
            v == b0 + 256 * b1 + 65536 * b2 + 16777216 * b3,
            0 <= b0 < 256,
            0 <= b1 < 256,
    ;
    assert((b2 + 256 * b3) % 256 == b2) by (nonlinear_arith)
        requires
            0 <= b2 < 256,
            0 <= b3 < 256,
    ;
    assert(v / 16777216 == b3) by (nonlinear_arith)
        requires
            v == b0 + 256 * b1 + 65536 * b2 + 16777216 * b3,
            0 <= b0 < 256,
            0 <= b1 < 256,
            0 <= b2 < 256,
    ;
    assert(le_u32(from_le_u32(s)) =~= s);
}

/// Appends the four little-endian bytes of `v`.
pub fn push_le_u32(out: &mut Vec<u8>, v: u32)
    ensures
        final(out)@ == old(out)@ + le_u32(v),
{
    out.push((v % 256) as u8);
    out.push((v / 256 % 256) as u8);
    out.push((v / 65536 % 256) as u8);
    out.push((v / 16777216 % 256) as u8);
    assert(final(out)@ =~= old(out)@ + le_u32(v));
}

/// Reads the little-endian 16-bit value at `at`.
pub fn read_le_u16(s: &[u8], at: usize) -> (r: u16)
    requires
        at + 2 <= s@.len(),
    ensures
        r == from_le_u16(s@.subrange(at as int, at + 2)),
{
    let v: u32 = s[at] as u32 + 256 * (s[at + 1] as u32);
    v as u16
}

/// Reads the little-endian 32-bit value at `at`.
pub fn read_le_u32(s: &[u8], at: usize) -> (r: u32)
    requires
        at + 4 <= s@.len(),
    ensures
        r == from_le_u32(s@.subrange(at as int, at + 4)),
{
    let v: u64 = s[at] as u64 + 256 * (s[at + 1] as u64) + 65536 * (s[at + 2] as u64) + 16777216
        * (s[at + 3] as u64);
    v as u32
}

/// Reads the little-endian 64-bit value at `at`.
pub fn read_le_u64(s: &[u8], at: usize) -> (r: u64)
    requires
        at + 8 <= s@.len(),
    ensures
        r == from_le_u64(s@.subrange(at as int, at + 8)),
{
    let n = s.len();
    let lo = read_le_u32(s, at);
    let hi = read_le_u32(s, at + 4);
    assert(s@.subrange(at as int, at + 8).subrange(0, 4) =~= s@.subrange(at as int, at + 4));
    assert(s@.subrange(at as int, at + 8).subrange(4, 8) =~= s@.subrange(at + 4, at + 8));
    lo as u64 + 0x1_0000_0000 * (hi as u64)
}

} // verus!
