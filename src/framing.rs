//! Native-messaging frames: a four-byte little-endian length, then the payload.
use vstd::prelude::*;

verus! {

/// The unsigned value of four bytes read little-endian.
pub open spec fn le_value(b: Seq<u8>) -> int {
    b[0] as int + 256 * (b[1] as int) + 65536 * (b[2] as int) + 16777216 * (b[3] as int)
}

/// Length of the payload announced by a frame's four-byte prefix.
pub fn frame_length(prefix: [u8; 4]) -> (r: u32)
    ensures
        r as int == le_value(prefix@),
{
    let b0 = prefix[0] as u32;
    let b1 = prefix[1] as u32;
    let b2 = prefix[2] as u32;
    let b3 = prefix[3] as u32;
    b0 + 256 * b1 + 65536 * b2 + 16777216 * b3
}

/// A frame holding `payload`: its length as four little-endian bytes, then
/// the payload itself.
pub fn encode_frame(payload: &Vec<u8>) -> (r: Vec<u8>)
    requires
        payload.len() <= u32::MAX,
    ensures
        r@.len() == payload@.len() + 4,
        le_value(r@) == payload@.len(),
        r@.subrange(4, r@.len() as int) == payload@,
{
    let n = payload.len() as u32;
    let b0 = (n % 256) as u8;
    let b1 = (n / 256 % 256) as u8;
    let b2 = (n / 65536 % 256) as u8;
    let b3 = (n / 16777216) as u8;
    assert(b0 as int + 256 * (b1 as int) + 65536 * (b2 as int) + 16777216 * (b3 as int) == n)
        by (nonlinear_arith)
        requires
            b0 == n % 256,
            b1 == n / 256 % 256,
            b2 == n / 65536 % 256,
            b3 == n / 16777216,
            n <= 0xffff_ffff,
    ;
    let mut out: Vec<u8> = Vec::new();
    out.push(b0);
    out.push(b1);
    out.push(b2);
    out.push(b3);
    let mut i: usize = 0;
    while i < payload.len()
        invariant
            0 <= i <= payload.len(),
            out@.len() == 4 + i,
            out@[0] == b0 && out@[1] == b1 && out@[2] == b2 && out@[3] == b3,
            out@.subrange(4, out@.len() as int) == payload@.subrange(0, i as int),
        decreases payload.len() - i,
    {
        out.push(payload[i]);
        i = i + 1;
        assert(out@.subrange(4, out@.len() as int) =~= payload@.subrange(0, i as int));
    }
    assert(payload@.subrange(0, i as int) =~= payload@);
    out
}

} // verus!
