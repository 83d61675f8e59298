//! A range of values with an optional bitmap selecting some of them.
//!
//! Its boundaries are encoded in little endian on `compare_length` bytes.
use crate::decodable::splice;
use vstd::prelude::*;

verus! {

/// Largest supported byte size of the range boundaries.
pub const MAX_COMPARE_LENGTH: usize = 8;

/// `256` to the power `n`.
pub open spec fn pow256(n: nat) -> nat
    decreases n,
{
    if n == 0 {
        1
    } else {
        256 * pow256((n - 1) as nat)
    }
}

/// Little endian encoding of `v` on `n` bytes (higher bytes are dropped).
pub open spec fn le_bytes(v: nat, n: nat) -> Seq<u8>
    decreases n,
{
    if n == 0 {
        seq![]
    } else {
        seq![(v % 256) as u8] + le_bytes(v / 256, (n - 1) as nat)
    }
}

/// Value of little endian bytes.
pub open spec fn le_value(s: Seq<u8>) -> nat
    decreases s.len(),
{
    if s.len() == 0 {
        0
    } else {
        s[0] as nat + 256 * le_value(s.drop_first())
    }
}

/// Number of bytes of the bitmap of a range, one bit per value of `[start, end)`.
pub open spec fn spec_bitmap_size(start: int, end: int) -> int {
    (end - start + 7) / 8
}

pub proof fn lemma_pow256_positive(n: nat)
    ensures
        pow256(n) >= 1,
    decreases n,
{
    if n > 0 {
        lemma_pow256_positive((n - 1) as nat);
    }
}

pub proof fn lemma_pow256_monotonic(a: nat, b: nat)
    requires
        a <= b,
    ensures
        pow256(a) <= pow256(b),
    decreases b,
{
    if a < b {
        lemma_pow256_monotonic(a, (b - 1) as nat);
        lemma_pow256_positive((b - 1) as nat);
    }
}

pub proof fn lemma_pow256_8()
    ensures
        pow256(8) == 0x1_0000_0000_0000_0000,
{
    reveal_with_fuel(pow256, 9);
}

/// Decoding little endian bytes of a value that fits gives it back.
pub proof fn lemma_le_roundtrip(v: nat, n: nat)
    requires
        v < pow256(n),
    ensures
        le_bytes(v, n).len() == n,
        le_value(le_bytes(v, n)) == v,
    decreases n,
{
    if n > 0 {
        let p = pow256((n - 1) as nat);
        assert(v / 256 < p) by (nonlinear_arith)
            requires
                v < 256 * p,
        ;
        lemma_le_roundtrip(v / 256, (n - 1) as nat);
        assert(le_bytes(v, n).drop_first() =~= le_bytes(v / 256, (n - 1) as nat));
    } else {
        assert(v == 0);
    }
}

/// Little endian bytes always hold a value below `256^len`.
pub proof fn lemma_le_bound(s: Seq<u8>)
    ensures
        le_value(s) < pow256(s.len()),
    decreases s.len(),
{
    if s.len() > 0 {
        lemma_le_bound(s.drop_first());
        let p = pow256((s.len() - 1) as nat);
        let w = le_value(s.drop_first());
        assert(s[0] as nat + 256 * w < 256 * p) by (nonlinear_arith)
            requires
                w < p,
                s[0] < 256,
        ;
    }
}

/// Whether `v` can be written on `n` bytes (at most 8).
pub fn fits_bytes(v: usize, n: usize) -> (r: bool)
    requires
        n <= MAX_COMPARE_LENGTH,
    ensures
        r == (v < pow256(n as nat)),
{
    if n >= 8 {
        proof {
            lemma_pow256_8();
            lemma_pow256_monotonic(8, n as nat);
        }
        return true;
    }
    let mut limit: u64 = 1;
    let mut i: usize = 0;
    while i < n
        invariant
            i <= n,
            n < 8,
            limit == pow256(i as nat),
        decreases n - i,
    {
        proof {
            lemma_pow256_monotonic((i + 1) as nat, 7);
            reveal_with_fuel(pow256, 8);
        }
        limit = limit * 256;
        i = i + 1;
    }
    (v as u64) < limit
}

/// Writes `v` in little endian on `n` bytes of `out` at `pos`.
pub fn write_le(out: &mut [u8], pos: usize, v: usize, n: usize)
    requires
        pos + n <= old(out)@.len(),
    ensures
        final(out)@ == splice(old(out)@, pos as int, le_bytes(v as nat, n as nat)),
{
    let ghost before = out@;
    let len = out.len();
    let mut cur = v;
    let mut i: usize = 0;
    while i < n
        invariant
            i <= n,
            pos + n <= len,
            len == before.len(),
            le_bytes(v as nat, n as nat) == le_bytes(v as nat, i as nat).add(
                le_bytes(cur as nat, (n - i) as nat),
            ),
            le_bytes(v as nat, i as nat).len() == i,
            out@ == splice(before, pos as int, le_bytes(v as nat, i as nat)),
        decreases n - i,
    {
        let b = (cur % 256) as u8;
        proof {
            let w = le_bytes(v as nat, i as nat);
            let r = le_bytes(cur as nat, (n - i) as nat);
            assert(r == seq![b] + le_bytes((cur / 256) as nat, (n - i - 1) as nat));
            crate::decodable::lemma_splice_byte(out@, pos + i, b);
            crate::decodable::lemma_splice_concat(before, pos as int, w, seq![b]);
            lemma_le_prefix(v as nat, (i + 1) as nat, n as nat);
            lemma_le_len(cur as nat, (n - i) as nat);
            assert(le_bytes(v as nat, (i + 1) as nat) == w + seq![b]) by {
                assert(le_bytes(v as nat, n as nat) == w + r);
                assert(le_bytes(v as nat, n as nat).subrange(0, i + 1) =~= w + seq![b]);
            }
            assert(le_bytes(v as nat, n as nat) =~= (w + seq![b]).add(
                le_bytes((cur / 256) as nat, (n - i - 1) as nat),
            ));
        }
        out[pos + i] = b;
        cur = cur / 256;
        i = i + 1;
    }
    assert(le_bytes(v as nat, n as nat) =~= le_bytes(v as nat, i as nat));
}

/// The first bytes of a little endian encoding are a shorter little endian encoding.
pub proof fn lemma_le_prefix(v: nat, i: nat, n: nat)
    requires
        i <= n,
    ensures
        le_bytes(v, n).len() == n,
        le_bytes(v, n).subrange(0, i as int) == le_bytes(v, i),
    decreases i,
{
    lemma_le_len(v, n);
    lemma_le_len(v, i);
    if i > 0 {
        lemma_le_prefix(v / 256, (i - 1) as nat, (n - 1) as nat);
        assert(le_bytes(v, n).subrange(0, i as int) =~= le_bytes(v, i));
    } else {
        assert(le_bytes(v, n).subrange(0, 0) =~= le_bytes(v, 0));
    }
}

pub proof fn lemma_le_len(v: nat, n: nat)
    ensures
        le_bytes(v, n).len() == n,
    decreases n,
{
    if n > 0 {
        lemma_le_len(v / 256, (n - 1) as nat);
    }
}

/// Reads a little endian value on the `n` bytes of `data` at `pos`.
pub fn read_le(data: &[u8], pos: usize, n: usize) -> (r: u64)
    requires
        pos + n <= data@.len(),
        n <= MAX_COMPARE_LENGTH,
    ensures
        r == le_value(data@.subrange(pos as int, pos + n)),
{
    let mut value: u64 = 0;
    let len = data.len();
    let mut i: usize = n;
    while i > 0
        invariant
            len == data@.len(),
            i <= n,
            n <= 8,
            pos + n <= data@.len(),
            value == le_value(data@.subrange(pos + i, pos + n)),
        decreases i,
    {
        let ghost s = data@.subrange(pos + i - 1, pos + n);
        proof {
            assert(s.drop_first() =~= data@.subrange(pos + i, pos + n));
            lemma_le_bound(s);
            lemma_pow256_monotonic(s.len(), 8);
            lemma_pow256_8();
            assert(le_value(s) == s[0] as nat + 256 * le_value(s.drop_first()));
            assert(s[0] == data@[pos + i - 1]);
            assert(s.len() <= 8);
            assert(pow256(s.len()) <= pow256(8));
            assert(le_value(s) < 0x1_0000_0000_0000_0000);
            assert(value * 256 + data@[pos + i - 1] < 0x1_0000_0000_0000_0000);
        }
        let idx = pos + i - 1;
        let byte = data[idx] as u64;
        let shifted = value * 256;
        value = shifted + byte;
        i = i - 1;
    }
    value
}

/// A range of values with an optional bitmap selecting some of them.
#[derive(Copy, Clone, Eq, PartialEq, Ord, PartialOrd, Hash, Debug)]
pub struct MaskedRangeRef<'data> {
    compare_length: usize,
    start: usize,
    end: usize,
    bitmap: Option<&'data [u8]>,
}

/// The boundaries of a range fit their byte size and the bitmap has the size of the range.
pub open spec fn spec_valid_range(
    compare_length: int,
    start: int,
    end: int,
    bitmap: Option<Seq<u8>>,
) -> bool {
    &&& 0 <= compare_length <= MAX_COMPARE_LENGTH
    &&& 0 <= start <= end
    &&& end < pow256(compare_length as nat)
    &&& bitmap matches Some(b) ==> b.len() == spec_bitmap_size(start, end)
}

impl<'data> MaskedRangeRef<'data> {
    #[verifier::type_invariant]
    spec fn inv(self) -> bool {
        spec_valid_range(
            self.compare_length as int,
            self.start as int,
            self.end as int,
            self.bitmap_view(),
        )
    }

    pub closed spec fn compare_length_view(&self) -> nat {
        self.compare_length as nat
    }

    pub closed spec fn start_view(&self) -> nat {
        self.start as nat
    }

    pub closed spec fn end_view(&self) -> nat {
        self.end as nat
    }

    pub closed spec fn bitmap_view(&self) -> Option<Seq<u8>> {
        match self.bitmap {
            Some(b) => Some(b@),
            None => None,
        }
    }

    /// Number of bytes of the bitmap of a range, one bit per value of `[start, end)`.
    pub fn bitmap_size(start: usize, end: usize) -> (r: usize)
        requires
            start <= end,
        ensures
            r == spec_bitmap_size(start as int, end as int),
    {
        let d = end - start;
        d / 8 + if d % 8 == 0 {
            0
        } else {
            1
        }
    }

    /// # Errors
    /// Fails if the boundaries are not ordered, do not fit on `compare_length` bytes, or if
    /// the bitmap does not have the size of the range.
    pub fn new(compare_length: usize, start: usize, end: usize, bitmap: Option<&'data [u8]>) -> (r:
        Result<Self, ()>)
        ensures
            r is Ok <==> spec_valid_range(
                compare_length as int,
                start as int,
                end as int,
                match bitmap {
                    Some(b) => Some(b@),
                    None => None,
                },
            ),
            r matches Ok(v) ==> v.compare_length_view() == compare_length && v.start_view()
                == start && v.end_view() == end && v.bitmap_view() == match bitmap {
                Some(b) => Some(b@),
                None => None::<Seq<u8>>,
            },
    {
        if compare_length > MAX_COMPARE_LENGTH || start > end || !fits_bytes(end, compare_length) {
            return Err(());
        }
        match bitmap {
            Some(b) => {
                if b.len() != Self::bitmap_size(start, end) {
                    return Err(());
                }
            },
            None => {},
        }
        Ok(Self { compare_length, start, end, bitmap })
    }

    pub fn new_unchecked(
        compare_length: usize,
        start: usize,
        end: usize,
        bitmap: Option<&'data [u8]>,
    ) -> (r: Self)
        requires
            spec_valid_range(
                compare_length as int,
                start as int,
                end as int,
                match bitmap {
                    Some(b) => Some(b@),
                    None => None,
                },
            ),
        ensures
            r.compare_length_view() == compare_length,
            r.start_view() == start,
            r.end_view() == end,
            r.bitmap_view() == match bitmap {
                Some(b) => Some(b@),
                None => None::<Seq<u8>>,
            },
    {
        Self { compare_length, start, end, bitmap }
    }

    pub fn compare_length(&self) -> (r: usize)
        ensures
            r == self.compare_length_view(),
            r <= MAX_COMPARE_LENGTH,
    {
        proof {
            use_type_invariant(self);
        }
        self.compare_length
    }

    pub fn start(&self) -> (r: usize)
        ensures
            r == self.start_view(),
    {
        self.start
    }

    pub fn end(&self) -> (r: usize)
        ensures
            r == self.end_view(),
    {
        self.end
    }

    /// Byte size of each boundary.
    pub fn boundaries_size(&self) -> (r: u32)
        ensures
            r == self.compare_length_view(),
    {
        proof {
            use_type_invariant(self);
        }
        self.compare_length as u32
    }

    pub fn bitmap(&self) -> (r: Option<&'data [u8]>)
        ensures
            match r {
                Some(b) => self.bitmap_view() == Some(b@),
                None => self.bitmap_view() is None,
            },
    {
        self.bitmap
    }

    /// The range satisfies its invariant.
    pub(crate) fn lemma_valid(&self)
        ensures
            spec_valid_range(
                self.compare_length_view() as int,
                self.start_view() as int,
                self.end_view() as int,
                self.bitmap_view(),
            ),
    {
        proof {
            use_type_invariant(self);
        }
    }

    pub fn to_owned(&self) -> (r: MaskedRange)
        ensures
            r.compare_length_view() == self.compare_length_view(),
            r.start_view() == self.start_view(),
            r.end_view() == self.end_view(),
            r.bitmap_view() == self.bitmap_view(),
    {
        proof {
            use_type_invariant(self);
        }
        let bitmap = match self.bitmap {
            Some(b) => Some(vstd::slice::slice_to_vec(b)),
            None => None,
        };
        MaskedRange {
            compare_length: self.compare_length,
            start: self.start,
            end: self.end,
            bitmap,
        }
    }
}

/// An owned range of values with an optional bitmap selecting some of them.
#[derive(Eq, PartialEq, Ord, PartialOrd, Hash, Debug)]
pub struct MaskedRange {
    compare_length: usize,
    start: usize,
    end: usize,
    bitmap: Option<Vec<u8>>,
}

impl MaskedRange {
    #[verifier::type_invariant]
    spec fn inv(self) -> bool {
        spec_valid_range(
            self.compare_length as int,
            self.start as int,
            self.end as int,
            self.bitmap_view(),
        )
    }

    pub closed spec fn compare_length_view(&self) -> nat {
        self.compare_length as nat
    }

    pub closed spec fn start_view(&self) -> nat {
        self.start as nat
    }

    pub closed spec fn end_view(&self) -> nat {
        self.end as nat
    }

    pub closed spec fn bitmap_view(&self) -> Option<Seq<u8>> {
        match self.bitmap {
            Some(b) => Some(b@),
            None => None,
        }
    }

    /// # Errors
    /// Fails if the boundaries are not ordered, do not fit on `compare_length` bytes, or if
    /// the bitmap does not have the size of the range.
    pub fn new(compare_length: usize, start: usize, end: usize, bitmap: Option<Vec<u8>>) -> (r:
        Result<Self, ()>)
        ensures
            r is Ok <==> spec_valid_range(
                compare_length as int,
                start as int,
                end as int,
                match bitmap {
                    Some(b) => Some(b@),
                    None => None,
                },
            ),
            r matches Ok(v) ==> v.compare_length_view() == compare_length && v.start_view()
                == start && v.end_view() == end && v.bitmap_view() == match bitmap {
                Some(b) => Some(b@),
                None => None::<Seq<u8>>,
            },
    {
        let ok = match &bitmap {
            Some(b) => MaskedRangeRef::new(compare_length, start, end, Some(b.as_slice())).is_ok(),
            None => MaskedRangeRef::new(compare_length, start, end, None).is_ok(),
        };
        if !ok {
            return Err(());
        }
        Ok(Self { compare_length, start, end, bitmap })
    }

    pub fn as_ref(&self) -> (r: MaskedRangeRef<'_>)
        ensures
            r.compare_length_view() == self.compare_length_view(),
            r.start_view() == self.start_view(),
            r.end_view() == self.end_view(),
            r.bitmap_view() == self.bitmap_view(),
    {
        proof {
            use_type_invariant(self);
        }
        let bitmap = match &self.bitmap {
            Some(b) => Some(b.as_slice()),
            None => None,
        };
        MaskedRangeRef::new_unchecked(self.compare_length, self.start, self.end, bitmap)
    }
}

} // verus!
