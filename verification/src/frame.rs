//! The headers and frames that the instrument streams, as laid out in
//! memory on the little-endian hosts that capture them.
use crate::wire::{
    le16s, le32, le64, lemma_le16s_injective, lemma_le16s_len, lemma_le32, lemma_le64, read_byte_array,
    read_u16_array, read_u32, read_u64, zeros,
};
use vstd::prelude::*;

verus! {

/// Bytes of a [`MetaData`] header.
pub const META_DATA_LEN: usize = 32;

/// Bytes of a [`RawDataFrame`].
pub const RAW_DATA_FRAME_LEN: usize = 4104;

/// The header of a correlation packet: which board and port produced each
/// of the two signals, the packet's place in its spectrum (`pcnt`) and in
/// the integration (`fcnt`), and a running packet counter (`gcnt`).
#[derive(Clone, Copy, Debug)]
pub struct MetaData {
    pub _skip1: [u8; 16],
    pub bid1: u8,
    pub pid1: u8,
    pub bid2: u8,
    pub pid2: u8,
    pub pcnt: u8,
    pub _skip2: [u8; 3],
    pub gcnt: u32,
    pub fcnt: u32,
}

impl MetaData {
    /// The header's 32 bytes: 16 unused, the five byte fields, 3 unused,
    /// then `gcnt` and `fcnt`, little-endian.
    pub open spec fn spec_bytes(self) -> Seq<u8> {
        self._skip1@ + seq![self.bid1, self.pid1, self.bid2, self.pid2, self.pcnt] + self._skip2@
            + le32(self.gcnt) + le32(self.fcnt)
    }

    /// The header whose layout starts `src`.
    pub fn from_raw(src: &[u8]) -> (m: MetaData)
        requires
            META_DATA_LEN <= src@.len(),
        ensures
            m.spec_bytes() == src@.take(META_DATA_LEN as int),
            m.bid1 == src@[16],
            m.pid1 == src@[17],
            m.bid2 == src@[18],
            m.pid2 == src@[19],
            m.pcnt == src@[20],
            le32(m.gcnt) == src@.subrange(24, 28),
            le32(m.fcnt) == src@.subrange(28, 32),
    {
        let _skip1: [u8; 16] = read_byte_array(src, 0);
        let _skip2: [u8; 3] = read_byte_array(src, 21);
        let m = MetaData {
            _skip1,
            bid1: src[16],
            pid1: src[17],
            bid2: src[18],
            pid2: src[19],
            pcnt: src[20],
            _skip2,
            gcnt: read_u32(src, 24),
            fcnt: read_u32(src, 28),
        };
        assert(m.spec_bytes() =~= src@.take(32));
        m
    }
}

impl Default for MetaData {
    fn default() -> (m: Self)
        ensures
            m.spec_bytes() == zeros(32),
            m.bid1 == 0 && m.pid1 == 0 && m.bid2 == 0 && m.pid2 == 0 && m.pcnt == 0,
            m.gcnt == 0 && m.fcnt == 0,
    {
        let m = MetaData {
            _skip1: [0u8; 16],
            bid1: 0,
            pid1: 0,
            bid2: 0,
            pid2: 0,
            pcnt: 0,
            _skip2: [0u8; 3],
            gcnt: 0,
            fcnt: 0,
        };
        proof {
            lemma_le32(0);
        }
        assert(m.spec_bytes() =~= zeros(32));
        m
    }
}

/// A frame of time-domain samples: a counter and 2048 samples.
#[derive(Debug, Clone)]
pub struct RawDataFrame {
    pub cnt: u64,
    pub payload: [u16; 2048],
}

impl RawDataFrame {
    /// The frame's 4104 bytes: `cnt`, then the samples, little-endian.
    pub open spec fn spec_bytes(self) -> Seq<u8> {
        le64(self.cnt) + le16s(self.payload@)
    }

    /// The frame whose layout is `x`.
    pub fn from_raw(x: &[u8]) -> (r: Self)
        requires
            x@.len() == RAW_DATA_FRAME_LEN,
        ensures
            r.spec_bytes() == x@,
    {
        let cnt = read_u64(x, 0);
        let payload: [u16; 2048] = read_u16_array(x, 8);
        let r = Self { cnt, payload };
        assert(r.spec_bytes() =~= x@);
        r
    }
}

impl Default for RawDataFrame {
    fn default() -> (r: Self)
        ensures
            r.cnt == 0,
            forall|i: int| 0 <= i < 2048 ==> r.payload@[i] == 0,
    {
        Self { cnt: 0, payload: [0u16; 2048] }
    }
}

/// Two raw frames with the same layout are the same frame.
pub proof fn lemma_raw_frame_injective(a: RawDataFrame, b: RawDataFrame)
    requires
        a.spec_bytes() == b.spec_bytes(),
    ensures
        a.cnt == b.cnt,
        a.payload == b.payload,
{
    broadcast use vstd::array::group_array_axioms;

    lemma_le64(a.cnt);
    lemma_le64(b.cnt);
    assert(a.spec_bytes().subrange(0, 8) =~= le64(a.cnt));
    assert(b.spec_bytes().subrange(0, 8) =~= le64(b.cnt));
    lemma_le16s_len(a.payload@);
    assert(a.spec_bytes().subrange(8, 4104) =~= le16s(a.payload@));
    assert(b.spec_bytes().subrange(8, 4104) =~= le16s(b.payload@));
    lemma_le16s_injective(a.payload@, b.payload@);
    assert(a.payload =~= b.payload);
}

} // verus!
