//! Little-endian byte framing shared by the native record layouts.
use vstd::prelude::*;

verus! {

/// The eight little-endian bytes of `v`.
pub open spec fn u64_le(v: u64) -> Seq<u8> {
    seq![
        v as u8,
        (v >> 8u64) as u8,
        (v >> 16u64) as u8,
        (v >> 24u64) as u8,
        (v >> 32u64) as u8,
        (v >> 40u64) as u8,
        (v >> 48u64) as u8,
        (v >> 56u64) as u8,
    ]
}

/// The four little-endian bytes of `v`.
pub open spec fn u32_le(v: u32) -> Seq<u8> {
    seq![v as u8, (v >> 8u32) as u8, (v >> 16u32) as u8, (v >> 24u32) as u8]
}

/// The two little-endian bytes of `v`.
pub open spec fn u16_le(v: u16) -> Seq<u8> {
    seq![v as u8, (v >> 8u16) as u8]
}

/// `n` zero bytes.
pub open spec fn zeros(n: nat) -> Seq<u8> {
    Seq::new(n, |i: int| 0u8)
}

/// The value of the eight little-endian bytes of `s` at `off`.
pub open spec fn le_u64(s: Seq<u8>, off: int) -> u64 {
    (s[off] as u64) | ((s[off + 1] as u64) << 8u64) | ((s[off + 2] as u64) << 16u64) | ((s[off
        + 3] as u64) << 24u64) | ((s[off + 4] as u64) << 32u64) | ((s[off + 5] as u64) << 40u64)
        | ((s[off + 6] as u64) << 48u64) | ((s[off + 7] as u64) << 56u64)
}

/// The value of the four little-endian bytes of `s` at `off`.
pub open spec fn le_u32(s: Seq<u8>, off: int) -> u32 {
    (s[off] as u32) | ((s[off + 1] as u32) << 8u32) | ((s[off + 2] as u32) << 16u32) | ((s[off
        + 3] as u32) << 24u32)
}

/// The value of the two little-endian bytes of `s` at `off`.
pub open spec fn le_u16(s: Seq<u8>, off: int) -> u16 {
    (s[off] as u16) | ((s[off + 1] as u16) << 8u16)
}

pub fn push_u64(out: &mut Vec<u8>, v: u64)
    ensures
        final(out)@ == old(out)@ + u64_le(v),
{
    out.push(v as u8);
    out.push((v >> 8u64) as u8);
    out.push((v >> 16u64) as u8);
    out.push((v >> 24u64) as u8);
    out.push((v >> 32u64) as u8);
    out.push((v >> 40u64) as u8);
    out.push((v >> 48u64) as u8);
    out.push((v >> 56u64) as u8);
    assert(final(out)@ =~= old(out)@ + u64_le(v));
}

pub fn push_u32(out: &mut Vec<u8>, v: u32)
    ensures
        final(out)@ == old(out)@ + u32_le(v),
{
    out.push(v as u8);
    out.push((v >> 8u32) as u8);
    out.push((v >> 16u32) as u8);
    out.push((v >> 24u32) as u8);
    assert(final(out)@ =~= old(out)@ + u32_le(v));
}

pub fn push_u16(out: &mut Vec<u8>, v: u16)
    ensures
        final(out)@ == old(out)@ + u16_le(v),
{
    out.push(v as u8);
    out.push((v >> 8u16) as u8);
    assert(final(out)@ =~= old(out)@ + u16_le(v));
}

pub fn push_zeros(out: &mut Vec<u8>, n: usize)
    ensures
        final(out)@ == old(out)@ + zeros(n as nat),
{
    let mut i: usize = 0;
    while i < n
        invariant
            i <= n,
            out@ == old(out)@ + zeros(i as nat),
        decreases n - i,
    {
        out.push(0u8);
        i = i + 1;
        assert(out@ =~= old(out)@ + zeros(i as nat));
    }
}

pub fn read_u64(s: &[u8], off: usize) -> (r: u64)
    requires
        off + 8 <= s@.len(),
    ensures
        r == le_u64(s@, off as int),
{
    (s[off] as u64) | ((s[off + 1] as u64) << 8u64) | ((s[off + 2] as u64) << 16u64) | ((s[off
        + 3] as u64) << 24u64) | ((s[off + 4] as u64) << 32u64) | ((s[off + 5] as u64) << 40u64)
        | ((s[off + 6] as u64) << 48u64) | ((s[off + 7] as u64) << 56u64)
}

pub fn read_u32(s: &[u8], off: usize) -> (r: u32)
    requires
        off + 4 <= s@.len(),
    ensures
        r == le_u32(s@, off as int),
{
    (s[off] as u32) | ((s[off + 1] as u32) << 8u32) | ((s[off + 2] as u32) << 16u32) | ((s[off
        + 3] as u32) << 24u32)
}

pub fn read_u16(s: &[u8], off: usize) -> (r: u16)
    requires
        off + 2 <= s@.len(),
    ensures
        r == le_u16(s@, off as int),
{
    (s[off] as u16) | ((s[off + 1] as u16) << 8u16)
}

proof fn bytes_of_u64(b0: u8, b1: u8, b2: u8, b3: u8, b4: u8, b5: u8, b6: u8, b7: u8)
    by (bit_vector)
    ensures
        ({
            let v = (b0 as u64) | ((b1 as u64) << 8u64) | ((b2 as u64) << 16u64) | ((b3 as u64)
                << 24u64) | ((b4 as u64) << 32u64) | ((b5 as u64) << 40u64) | ((b6 as u64)
                << 48u64) | ((b7 as u64) << 56u64);
            &&& v as u8 == b0
            &&& (v >> 8u64) as u8 == b1
            &&& (v >> 16u64) as u8 == b2
            &&& (v >> 24u64) as u8 == b3
            &&& (v >> 32u64) as u8 == b4
            &&& (v >> 40u64) as u8 == b5
            &&& (v >> 48u64) as u8 == b6
            &&& (v >> 56u64) as u8 == b7
        }),
{
}

proof fn bytes_of_u32(b0: u8, b1: u8, b2: u8, b3: u8)
    by (bit_vector)
    ensures
        ({
            let v = (b0 as u32) | ((b1 as u32) << 8u32) | ((b2 as u32) << 16u32) | ((b3 as u32)
                << 24u32);
            &&& v as u8 == b0
            &&& (v >> 8u32) as u8 == b1
            &&& (v >> 16u32) as u8 == b2
            &&& (v >> 24u32) as u8 == b3
        }),
{
}

proof fn bytes_of_u16(b0: u8, b1: u8)
    by (bit_vector)
    ensures
        ({
            let v = (b0 as u16) | ((b1 as u16) << 8u16);
            &&& v as u8 == b0
            &&& (v >> 8u16) as u8 == b1
        }),
{
}

/// Reading eight bytes and writing the value back gives the same bytes.
pub proof fn lemma_u64_chunk(s: Seq<u8>, off: int)
    requires
        0 <= off,
        off + 8 <= s.len(),
    ensures
        u64_le(le_u64(s, off)) == s.subrange(off, off + 8),
{
    bytes_of_u64(s[off], s[off + 1], s[off + 2], s[off + 3], s[off + 4], s[off + 5], s[off + 6], s[off + 7]);
    assert(u64_le(le_u64(s, off)) =~= s.subrange(off, off + 8));
}

/// Reading four bytes and writing the value back gives the same bytes.
pub proof fn lemma_u32_chunk(s: Seq<u8>, off: int)
    requires
        0 <= off,
        off + 4 <= s.len(),
    ensures
        u32_le(le_u32(s, off)) == s.subrange(off, off + 4),
{
    bytes_of_u32(s[off], s[off + 1], s[off + 2], s[off + 3]);
    assert(u32_le(le_u32(s, off)) =~= s.subrange(off, off + 4));
}

/// Reading two bytes and writing the value back gives the same bytes.
pub proof fn lemma_u16_chunk(s: Seq<u8>, off: int)
    requires
        0 <= off,
        off + 2 <= s.len(),
    ensures
        u16_le(le_u16(s, off)) == s.subrange(off, off + 2),
{
    bytes_of_u16(s[off], s[off + 1]);
    assert(u16_le(le_u16(s, off)) =~= s.subrange(off, off + 2));
}

proof fn value_of_bytes_u64(v: u64)
    by (bit_vector)
    ensures
        v == ((v as u8) as u64) | ((((v >> 8u64) as u8) as u64) << 8u64) | ((((v >> 16u64) as u8)
            as u64) << 16u64) | ((((v >> 24u64) as u8) as u64) << 24u64) | ((((v >> 32u64) as u8)
            as u64) << 32u64) | ((((v >> 40u64) as u8) as u64) << 40u64) | ((((v >> 48u64) as u8)
            as u64) << 48u64) | ((((v >> 56u64) as u8) as u64) << 56u64),
{
}

proof fn value_of_bytes_u32(v: u32)
    by (bit_vector)
    ensures
        v == ((v as u8) as u32) | ((((v >> 8u32) as u8) as u32) << 8u32) | ((((v >> 16u32) as u8)
            as u32) << 16u32) | ((((v >> 24u32) as u8) as u32) << 24u32),
{
}

proof fn value_of_bytes_u16(v: u16)
    by (bit_vector)
    ensures
        v == ((v as u8) as u16) | ((((v >> 8u16) as u8) as u16) << 8u16),
{
}

/// Eight bytes written from `v` read back as `v`.
pub proof fn lemma_read_u64_le(s: Seq<u8>, off: int, v: u64)
    requires
        0 <= off,
        off + 8 <= s.len(),
        s.subrange(off, off + 8) == u64_le(v),
    ensures
        le_u64(s, off) == v,
{
    assert forall|k: int| 0 <= k < 8 implies s[off + k] == #[trigger] u64_le(v)[k] by {
        assert(s.subrange(off, off + 8)[k] == s[off + k]);
    }
    assert(s[off] == u64_le(v)[0]);
    assert(s[off + 1] == u64_le(v)[1]);
    assert(s[off + 2] == u64_le(v)[2]);
    assert(s[off + 3] == u64_le(v)[3]);
    assert(s[off + 4] == u64_le(v)[4]);
    assert(s[off + 5] == u64_le(v)[5]);
    assert(s[off + 6] == u64_le(v)[6]);
    assert(s[off + 7] == u64_le(v)[7]);
    value_of_bytes_u64(v);
}

/// Four bytes written from `v` read back as `v`.
pub proof fn lemma_read_u32_le(s: Seq<u8>, off: int, v: u32)
    requires
        0 <= off,
        off + 4 <= s.len(),
        s.subrange(off, off + 4) == u32_le(v),
    ensures
        le_u32(s, off) == v,
{
    assert forall|k: int| 0 <= k < 4 implies s[off + k] == #[trigger] u32_le(v)[k] by {
        assert(s.subrange(off, off + 4)[k] == s[off + k]);
    }
    assert(s[off] == u32_le(v)[0]);
    assert(s[off + 1] == u32_le(v)[1]);
    assert(s[off + 2] == u32_le(v)[2]);
    assert(s[off + 3] == u32_le(v)[3]);
    value_of_bytes_u32(v);
}

/// Two bytes written from `v` read back as `v`.
pub proof fn lemma_read_u16_le(s: Seq<u8>, off: int, v: u16)
    requires
        0 <= off,
        off + 2 <= s.len(),
        s.subrange(off, off + 2) == u16_le(v),
    ensures
        le_u16(s, off) == v,
{
    assert forall|k: int| 0 <= k < 2 implies s[off + k] == #[trigger] u16_le(v)[k] by {
        assert(s.subrange(off, off + 2)[k] == s[off + k]);
    }
    assert(s[off] == u16_le(v)[0]);
    assert(s[off + 1] == u16_le(v)[1]);
    value_of_bytes_u16(v);
}

} // verus!
