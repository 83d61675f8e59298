//! Shared result and error types for the in-place decoders.
use vstd::prelude::*;

verus! {

/// An item along with the number of bytes its encoding occupies.
#[derive(Copy, Clone, PartialEq, Eq, Debug)]
pub struct WithByteSize<T> {
    pub item: T,
    pub byte_size: usize,
}

/// Error raised when the input is too short to hold a complete item.
#[derive(Copy, Clone, PartialEq, Eq, Debug)]
pub enum SizeError {
    MissingBytes,
}

/// Bytes of `data` after the first `n` ones (empty when `n` exceeds the length).
pub open spec fn tail(data: Seq<u8>, n: int) -> Seq<u8> {
    data.subrange(n, data.len() as int)
}

/// `data` where the bytes from `pos` on are replaced by `bytes`.
pub open spec fn splice(data: Seq<u8>, pos: int, bytes: Seq<u8>) -> Seq<u8> {
    data.subrange(0, pos) + bytes + data.subrange(pos + bytes.len(), data.len() as int)
}

/// `out` now starts with `written` and keeps the rest of `before` unchanged.
pub open spec fn written_at_head(out: Seq<u8>, before: Seq<u8>, written: Seq<u8>) -> bool {
    &&& written.len() <= before.len()
    &&& out == splice(before, 0, written)
}

/// `before` whose bytes from `start` to `end` are replaced by `mid`.
pub open spec fn replaced(before: Seq<u8>, start: int, end: int, mid: Seq<u8>) -> Seq<u8> {
    before.subrange(0, start) + mid + before.subrange(end, before.len() as int)
}

/// `end`, or the length of `data` when `data` stops before it.
pub open spec fn clamp_end(data: Seq<u8>, end: int) -> int {
    if end <= data.len() {
        end
    } else {
        data.len() as int
    }
}

/// Big endian bytes of a 32 bits number.
pub open spec fn be_bytes_u32(v: u32) -> Seq<u8> {
    seq![(v >> 24u32) as u8, (v >> 16u32) as u8, (v >> 8u32) as u8, v as u8]
}

/// The 32 bits number whose big endian bytes are `b0` to `b3`.
pub open spec fn from_be_u32(b0: u8, b1: u8, b2: u8, b3: u8) -> u32 {
    ((b0 as u32) << 24u32) | ((b1 as u32) << 16u32) | ((b2 as u32) << 8u32) | (b3 as u32)
}

/// Reading the big endian bytes of a 32 bits number gives it back.
pub proof fn lemma_be_u32_roundtrip(v: u32)
    by (bit_vector)
    ensures
        from_be_u32((v >> 24u32) as u8, (v >> 16u32) as u8, (v >> 8u32) as u8, v as u8) == v,
{
}

/// Two consecutive writes are one write of both.
pub proof fn lemma_splice_concat(data: Seq<u8>, pos: int, x: Seq<u8>, y: Seq<u8>)
    requires
        0 <= pos,
        pos + x.len() + y.len() <= data.len(),
    ensures
        splice(splice(data, pos, x), pos + x.len(), y) == splice(data, pos, x + y),
        splice(data, pos, x).len() == data.len(),
{
    assert(splice(splice(data, pos, x), pos + x.len(), y) =~= splice(data, pos, x + y));
}

/// Writing one byte is a splice of one byte.
pub proof fn lemma_splice_byte(data: Seq<u8>, pos: int, b: u8)
    requires
        0 <= pos < data.len(),
    ensures
        data.update(pos, b) == splice(data, pos, seq![b]),
{
    assert(data.update(pos, b) =~= splice(data, pos, seq![b]));
}

/// A splice keeps what lies outside of it.
pub proof fn lemma_splice_content(data: Seq<u8>, pos: int, bytes: Seq<u8>)
    requires
        0 <= pos,
        pos + bytes.len() <= data.len(),
    ensures
        splice(data, pos, bytes).len() == data.len(),
        splice(data, pos, bytes).subrange(pos, pos + bytes.len()) == bytes,
        splice(data, pos, bytes).subrange(0, pos) == data.subrange(0, pos),
        forall|i: int|
            0 <= i < data.len() ==> #[trigger] splice(data, pos, bytes)[i] == if pos <= i < pos
                + bytes.len() {
                bytes[i - pos]
            } else {
                data[i]
            },
{
    assert(splice(data, pos, bytes).subrange(pos, pos + bytes.len()) =~= bytes);
    assert(splice(data, pos, bytes).subrange(0, pos) =~= data.subrange(0, pos));
}

/// Copies `src` into `out` at `pos`.
pub fn copy_at(out: &mut [u8], pos: usize, src: &[u8])
    requires
        pos + src@.len() <= old(out)@.len(),
    ensures
        final(out)@ == splice(old(out)@, pos as int, src@),
{
    let ghost before = out@;
    let n = out.len();
    let mut i: usize = 0;
    while i < src.len()
        invariant
            n == before.len(),
            i <= src@.len(),
            pos + src@.len() <= before.len(),
            out@.len() == before.len(),
            out@ == splice(before, pos as int, src@.subrange(0, i as int)),
        decreases src@.len() - i,
    {
        proof {
            lemma_splice_byte(out@, pos + i, src@[i as int]);
            lemma_splice_concat(before, pos as int, src@.subrange(0, i as int), seq![src@[i as int]]);
            assert(src@.subrange(0, i as int) + seq![src@[i as int]] =~= src@.subrange(0, i + 1));
        }
        out[pos + i] = src[i];
        i = i + 1;
    }
    assert(src@.subrange(0, src@.len() as int) =~= src@);
}

/// The bytes of `data` after the first `n` ones.
pub fn skip(data: &[u8], n: usize) -> (r: &[u8])
    requires
        n <= data@.len(),
    ensures
        r@ == tail(data@, n as int),
{
    data.split_at(n).1
}

/// The bytes of `data` after the first `n` ones, mutably.
pub fn skip_mut(data: &mut [u8], n: usize) -> (r: &mut [u8])
    requires
        n <= old(data)@.len(),
    ensures
        r@ == tail(old(data)@, n as int),
        final(data)@ == old(data)@.subrange(0, n as int) + final(r)@,
{
    data.split_at_mut(n).1
}

/// The bytes of `data` from `start` to `end`, mutably: the bytes around them stay as they
/// were.
pub fn slice_mut(data: &mut [u8], start: usize, end: usize) -> (r: &mut [u8])
    requires
        start <= end <= old(data)@.len(),
    ensures
        r@ == old(data)@.subrange(start as int, end as int),
        final(data)@ == old(data)@.subrange(0, start as int) + final(r)@ + old(data)@.subrange(
            end as int,
            old(data)@.len() as int,
        ),
{
    let (_, rest) = data.split_at_mut(start);
    let (r, _) = rest.split_at_mut(end - start);
    r
}

/// The first `n` bytes of `data`.
pub fn take(data: &[u8], n: usize) -> (r: &[u8])
    requires
        n <= data@.len(),
    ensures
        r@ == data@.subrange(0, n as int),
{
    data.split_at(n).0
}

} // verus!
