//! Little-endian byte layouts of fixed-width unsigned integers, and the
//! helpers that write them to and read them from byte buffers.
use vstd::prelude::*;

verus! {

/// The two bytes of `v`, least significant first.
pub open spec fn le16(v: u16) -> Seq<u8> {
    seq![(v % 256) as u8, (v / 256) as u8]
}

/// The four bytes of `v`, least significant first.
pub open spec fn le32(v: u32) -> Seq<u8> {
    seq![
        (v % 256) as u8,
        ((v / 256) % 256) as u8,
        ((v / 65536) % 256) as u8,
        (v / 16777216) as u8,
    ]
}

/// The eight bytes of `v`, least significant first.
pub open spec fn le64(v: u64) -> Seq<u8> {
    le32((v % 4294967296) as u32) + le32((v / 4294967296) as u32)
}

/// The integer whose little-endian layout starts `b`.
pub open spec fn from_le16(b: Seq<u8>) -> u16 {
    (b[0] + 256 * b[1]) as u16
}

/// The integer whose little-endian layout starts `b`.
pub open spec fn from_le32(b: Seq<u8>) -> u32 {
    (b[0] + 256 * b[1] + 65536 * b[2] + 16777216 * b[3]) as u32
}

/// The integer whose little-endian layout starts `b`.
pub open spec fn from_le64(b: Seq<u8>) -> u64 {
    (from_le32(b.subrange(0, 4)) + 4294967296 * from_le32(b.subrange(4, 8))) as u64
}

/// The little-endian layouts of the elements of `a`, one after another.
pub open spec fn le16s(a: Seq<u16>) -> Seq<u8>
    decreases a.len(),
{
    if a.len() == 0 {
        Seq::empty()
    } else {
        le16s(a.drop_last()) + le16(a.last())
    }
}

/// The little-endian layouts of the elements of `a`, one after another.
pub open spec fn le32s(a: Seq<u32>) -> Seq<u8>
    decreases a.len(),
{
    if a.len() == 0 {
        Seq::empty()
    } else {
        le32s(a.drop_last()) + le32(a.last())
    }
}

/// `n` zero bytes.
pub open spec fn zeros(n: nat) -> Seq<u8> {
    Seq::new(n, |i: int| 0u8)
}

pub proof fn lemma_le16(v: u16)
    ensures
        le16(v).len() == 2,
        from_le16(le16(v)) == v,
{
    assert(from_le16(le16(v)) == v) by (nonlinear_arith);
}

pub proof fn lemma_from_le16(b: Seq<u8>)
    requires
        b.len() == 2,
    ensures
        le16(from_le16(b)) =~= b,
{
    let v = from_le16(b);
    assert(b[0] + 256 * b[1] < 65536);
    assert(v % 256 == b[0] && v / 256 == b[1]) by (nonlinear_arith)
        requires
            v == b[0] + 256 * b[1],
            0 <= b[0] < 256,
            0 <= b[1] < 256,
    ;
}

pub proof fn lemma_le32(v: u32)
    ensures
        le32(v).len() == 4,
        from_le32(le32(v)) == v,
{
    let b = le32(v);
    assert(b[0] + 256 * b[1] + 65536 * b[2] + 16777216 * b[3] == v) by (nonlinear_arith)
        requires
            b[0] == v % 256,
            b[1] == (v / 256) % 256,
            b[2] == (v / 65536) % 256,
            b[3] == v / 16777216,
            0 <= v < 4294967296,
    ;
}

pub proof fn lemma_from_le32(b: Seq<u8>)
    requires
        b.len() == 4,
    ensures
        le32(from_le32(b)) =~= b,
{
    let x: int = b[0] + 256 * b[1] + 65536 * b[2] + 16777216 * b[3];
    assert(0 <= x < 4294967296);
    let v = from_le32(b);
    assert(v == x);
    assert(x % 256 == b[0] && (x / 256) % 256 == b[1] && (x / 65536) % 256 == b[2]
        && x / 16777216 == b[3]) by (nonlinear_arith)
        requires
            x == b[0] + 256 * b[1] + 65536 * b[2] + 16777216 * b[3],
            0 <= b[0] < 256,
            0 <= b[1] < 256,
            0 <= b[2] < 256,
            0 <= b[3] < 256,
    ;
}

pub proof fn lemma_le64(v: u64)
    ensures
        le64(v).len() == 8,
        from_le64(le64(v)) == v,
{
    let lo = (v % 4294967296) as u32;
    let hi = (v / 4294967296) as u32;
    lemma_le32(lo);
    lemma_le32(hi);
    assert(le64(v).subrange(0, 4) =~= le32(lo));
    assert(le64(v).subrange(4, 8) =~= le32(hi));
    assert(lo + 4294967296 * hi == v) by (nonlinear_arith)
        requires
            lo == v % 4294967296,
            hi == v / 4294967296,
    ;
}

pub proof fn lemma_from_le64(b: Seq<u8>)
    requires
        b.len() == 8,
    ensures
        le64(from_le64(b)) =~= b,
{
    let lo = from_le32(b.subrange(0, 4));
    let hi = from_le32(b.subrange(4, 8));
    let v = from_le64(b);
    assert(v == lo + 4294967296 * hi);
    assert(v % 4294967296 == lo && v / 4294967296 == hi) by (nonlinear_arith)
        requires
            v == lo + 4294967296 * hi,
            0 <= lo < 4294967296,
    ;
    lemma_from_le32(b.subrange(0, 4));
    lemma_from_le32(b.subrange(4, 8));
}

pub proof fn lemma_le16s_len(a: Seq<u16>)
    ensures
        le16s(a).len() == 2 * a.len(),
    decreases a.len(),
{
    if a.len() > 0 {
        lemma_le16s_len(a.drop_last());
    }
}

pub proof fn lemma_le32s_len(a: Seq<u32>)
    ensures
        le32s(a).len() == 4 * a.len(),
    decreases a.len(),
{
    if a.len() > 0 {
        lemma_le32s_len(a.drop_last());
    }
}

/// Equal layouts of equally long sequences come from equal sequences.
pub proof fn lemma_le32s_injective(a: Seq<u32>, b: Seq<u32>)
    requires
        a.len() == b.len(),
        le32s(a) == le32s(b),
    ensures
        a =~= b,
    decreases a.len(),
{
    if a.len() > 0 {
        lemma_le32s_len(a.drop_last());
        lemma_le32s_len(b.drop_last());
        let n = le32s(a.drop_last()).len() as int;
        assert(le32s(a).subrange(0, n) =~= le32s(a.drop_last()));
        assert(le32s(b).subrange(0, n) =~= le32s(b.drop_last()));
        assert(le32s(a).subrange(n, n + 4) =~= le32(a.last()));
        assert(le32s(b).subrange(n, n + 4) =~= le32(b.last()));
        lemma_le32s_injective(a.drop_last(), b.drop_last());
        lemma_le32(a.last());
        lemma_le32(b.last());
        assert(a =~= a.drop_last().push(a.last()));
        assert(b =~= b.drop_last().push(b.last()));
    }
}

/// Equal layouts of equally long sequences come from equal sequences.
pub proof fn lemma_le16s_injective(a: Seq<u16>, b: Seq<u16>)
    requires
        a.len() == b.len(),
        le16s(a) == le16s(b),
    ensures
        a =~= b,
    decreases a.len(),
{
    if a.len() > 0 {
        lemma_le16s_len(a.drop_last());
        lemma_le16s_len(b.drop_last());
        let n = le16s(a.drop_last()).len() as int;
        assert(le16s(a).subrange(0, n) =~= le16s(a.drop_last()));
        assert(le16s(b).subrange(0, n) =~= le16s(b.drop_last()));
        assert(le16s(a).subrange(n, n + 2) =~= le16(a.last()));
        assert(le16s(b).subrange(n, n + 2) =~= le16(b.last()));
        lemma_le16s_injective(a.drop_last(), b.drop_last());
        lemma_le16(a.last());
        lemma_le16(b.last());
        assert(a =~= a.drop_last().push(a.last()));
        assert(b =~= b.drop_last().push(b.last()));
    }
}

/// Appends the little-endian layout of `x`.
pub fn push_u16(out: &mut Vec<u8>, x: u16)
    ensures
        final(out)@ == old(out)@ + le16(x),
{
    out.push((x % 256) as u8);
    out.push((x / 256) as u8);
    assert(final(out)@ =~= old(out)@ + le16(x));
}

/// Appends the little-endian layout of `x`.
pub fn push_u32(out: &mut Vec<u8>, x: u32)
    ensures
        final(out)@ == old(out)@ + le32(x),
{
    out.push((x % 256) as u8);
    out.push(((x / 256) % 256) as u8);
    out.push(((x / 65536) % 256) as u8);
    out.push((x / 16777216) as u8);
    assert(final(out)@ =~= old(out)@ + le32(x));
}

/// Appends the bytes of `src`.
pub fn push_bytes(out: &mut Vec<u8>, src: &[u8])
    ensures
        final(out)@ == old(out)@ + src@,
{
    let ghost start = out@;
    let mut i: usize = 0;
    while i < src.len()
        invariant
            i <= src@.len(),
            out@ == start + src@.take(i as int),
        decreases src@.len() - i,
    {
        out.push(src[i]);
        i = i + 1;
        assert(out@ =~= start + src@.take(i as int));
    }
    assert(src@.take(i as int) =~= src@);
}

/// Appends the little-endian layouts of the elements of `src`.
pub fn push_u32s(out: &mut Vec<u8>, src: &[u32])
    ensures
        final(out)@ == old(out)@ + le32s(src@),
{
    let ghost start = out@;
    let mut i: usize = 0;
    while i < src.len()
        invariant
            i <= src@.len(),
            out@ == start + le32s(src@.take(i as int)),
        decreases src@.len() - i,
    {
        push_u32(out, src[i]);
        i = i + 1;
        assert(src@.take(i as int).drop_last() =~= src@.take(i - 1));
        assert(out@ =~= start + le32s(src@.take(i as int)));
    }
    assert(src@.take(i as int) =~= src@);
}

/// The integer whose little-endian layout is `d[off..off + 2]`.
pub fn read_u16(d: &[u8], off: usize) -> (v: u16)
    requires
        off + 2 <= d@.len(),
    ensures
        le16(v) == d@.subrange(off as int, off + 2),
{
    let v = (d[off] as u16) + (d[off + 1] as u16) * 256;
    proof {
        let b = d@.subrange(off as int, off + 2);
        lemma_from_le16(b);
        assert(from_le16(b) == v);
    }
    v
}

/// The integer whose little-endian layout is `d[off..off + 4]`.
pub fn read_u32(d: &[u8], off: usize) -> (v: u32)
    requires
        off + 4 <= d@.len(),
    ensures
        le32(v) == d@.subrange(off as int, off + 4),
{
    let v = (d[off] as u32) + (d[off + 1] as u32) * 256 + (d[off + 2] as u32) * 65536
        + (d[off + 3] as u32) * 16777216;
    proof {
        let b = d@.subrange(off as int, off + 4);
        lemma_from_le32(b);
        assert(from_le32(b) == v);
    }
    v
}

/// The integer whose little-endian layout is `d[off..off + 8]`.
pub fn read_u64(d: &[u8], off: usize) -> (v: u64)
    requires
        off + 8 <= d@.len(),
    ensures
        le64(v) == d@.subrange(off as int, off + 8),
{
    let n = d.len();
    assert(off + 4 < n);
    let lo = read_u32(d, off);
    let hi = read_u32(d, off + 4);
    let v = (lo as u64) + (hi as u64) * 4294967296;
    proof {
        let b = d@.subrange(off as int, off + 8);
        assert(b.subrange(0, 4) =~= d@.subrange(off as int, off + 4));
        assert(b.subrange(4, 8) =~= d@.subrange(off + 4, off + 8));
        lemma_from_le32(b.subrange(0, 4));
        lemma_from_le32(b.subrange(4, 8));
        lemma_le32(lo);
        lemma_le32(hi);
        lemma_from_le64(b);
        assert(from_le64(b) == v);
    }
    v
}

/// Copies `src` to the front of `d`; the rest of `d` stays as it was.
pub fn copy_to_front(d: &mut [u8], src: &Vec<u8>)
    requires
        src@.len() <= old(d)@.len(),
    ensures
        final(d)@ == src@ + old(d)@.skip(src@.len() as int),
{
    let ghost start = d@;
    let mut i: usize = 0;
    while i < src.len()
        invariant
            i <= src@.len(),
            src@.len() <= start.len(),
            d@.len() == start.len(),
            d@ =~= src@.take(i as int) + start.skip(i as int),
        decreases src@.len() - i,
    {
        d[i] = src[i];
        i = i + 1;
        assert(d@ =~= src@.take(i as int) + start.skip(i as int));
    }
    assert(src@.take(i as int) =~= src@);
}

/// The `N` bytes `d[off..off + N]`, as an array.
pub fn read_byte_array<const N: usize>(d: &[u8], off: usize) -> (a: [u8; N])
    requires
        off + N <= d@.len(),
    ensures
        a@ == d@.subrange(off as int, off + N),
{
    let mut a = [0u8; N];
    let n = d.len();
    let mut i: usize = 0;
    while i < N
        invariant
            i <= N,
            n == d@.len(),
            off + N <= d@.len(),
            a@.len() == N,
            forall|k: int| 0 <= k < i ==> a@[k] == d@[off + k],
        decreases N - i,
    {
        a[i] = d[off + i];
        i = i + 1;
    }
    assert(a@ =~= d@.subrange(off as int, off + N));
    a
}

/// The `N` integers whose little-endian layouts follow one another in
/// `d[off..off + 4 * N]`, as an array.
pub fn read_u32_array<const N: usize>(d: &[u8], off: usize) -> (a: [u32; N])
    requires
        off + 4 * N <= d@.len(),
    ensures
        le32s(a@) == d@.subrange(off as int, off + 4 * N),
{
    let mut a = [0u32; N];
    let n = d.len();
    let mut i: usize = 0;
    while i < N
        invariant
            i <= N,
            n == d@.len(),
            off + 4 * N <= d@.len(),
            a@.len() == N,
            le32s(a@.take(i as int)) == d@.subrange(off as int, off + 4 * i),
        decreases N - i,
    {
        let v = read_u32(d, off + 4 * i);
        let ghost before = a@;
        a[i] = v;
        assert(a@.take(i as int) =~= before.take(i as int));
        assert(a@.take(i + 1).drop_last() =~= a@.take(i as int));
        i = i + 1;
        assert(d@.subrange(off as int, off + 4 * i) =~= d@.subrange(off as int, off + 4 * (i - 1))
            + d@.subrange(off + 4 * (i - 1), off + 4 * i));
    }
    assert(a@.take(N as int) =~= a@);
    a
}

/// The `N` integers whose little-endian layouts follow one another in
/// `d[off..off + 2 * N]`, as an array.
pub fn read_u16_array<const N: usize>(d: &[u8], off: usize) -> (a: [u16; N])
    requires
        off + 2 * N <= d@.len(),
    ensures
        le16s(a@) == d@.subrange(off as int, off + 2 * N),
{
    let mut a = [0u16; N];
    let n = d.len();
    let mut i: usize = 0;
    while i < N
        invariant
            i <= N,
            n == d@.len(),
            off + 2 * N <= d@.len(),
            a@.len() == N,
            le16s(a@.take(i as int)) == d@.subrange(off as int, off + 2 * i),
        decreases N - i,
    {
        let v = read_u16(d, off + 2 * i);
        let ghost before = a@;
        a[i] = v;
        assert(a@.take(i as int) =~= before.take(i as int));
        assert(a@.take(i + 1).drop_last() =~= a@.take(i as int));
        i = i + 1;
        assert(d@.subrange(off as int, off + 2 * i) =~= d@.subrange(off as int, off + 2 * (i - 1))
            + d@.subrange(off + 2 * (i - 1), off + 2 * i));
    }
    assert(a@.take(N as int) =~= a@);
    a
}

} // verus!
