//! Control messages exchanged with the acquisition instrument over UDP.
//!
//! Every message has a fixed little-endian wire layout: its fields in
//! declaration order, each integer least significant byte first, each array
//! element after element. A message travels inside a [`CommandFrame`], whose
//! `info_func` byte names the message type and whose `data` field holds the
//! message's bytes, padded with zeros.
use crate::text::{dec, push_dec};
use crate::wire::{
    copy_to_front, le16, le32, le32s, lemma_le16, lemma_le32, lemma_le32s_injective, lemma_le32s_len,
    push_bytes, push_u16, push_u32, push_u32s, read_byte_array, read_u16, read_u32, read_u32_array,
    zeros,
};
use crate::NBOARD;
use vstd::prelude::*;

verus! {

/// The first word of every frame.
pub const FRAME_HEAD: u32 = 0x5555aaaa;

/// The last word of every frame.
pub const FRAME_TALE: u32 = 0xaaaabbbb;

/// Bytes in the payload field of a frame.
pub const FRAME_DATA_LEN: usize = 100;

/// Bytes of a packed frame: head (4), type (1), length (4), tail (4), payload (100).
pub const FRAME_LEN: usize = 113;

/// The message types, numbered on the wire from 1 (`Stop`) to 12
/// (`QueryDataStatus`); `Unknown` (13) stands for every other number.
#[derive(Debug, Clone, Copy, PartialEq, Eq, Structural)]
pub enum CmdType {
    Stop,
    /// Start in one-board mode.
    SingleBoardSet,
    /// Start in two-board mode.
    DoubleBoardSet,
    /// Start in five-board mode.
    FiveBoardSet,
    /// Query the self-check result.
    QuerySelfCheckStatus,
    /// Query the board temperatures.
    QueryHealthInfo,
    /// Query the work mode.
    QueryWorkMode,
    /// Start in 40 GB mode.
    ModeFor40GB,
    /// Internal or external trigger.
    TriggerSet,
    /// Internal or external reference.
    ReferenceSet,
    /// Power off.
    ShutDownNow,
    /// Query whether the data stream is healthy.
    QueryDataStatus,
    Unknown,
}

impl CmdType {
    /// The number of the type on the wire.
    pub open spec fn spec_code(self) -> u8 {
        match self {
            CmdType::Stop => 0x01,
            CmdType::SingleBoardSet => 0x02,
            CmdType::DoubleBoardSet => 0x03,
            CmdType::FiveBoardSet => 0x04,
            CmdType::QuerySelfCheckStatus => 0x05,
            CmdType::QueryHealthInfo => 0x06,
            CmdType::QueryWorkMode => 0x07,
            CmdType::ModeFor40GB => 0x08,
            CmdType::TriggerSet => 0x09,
            CmdType::ReferenceSet => 0x0a,
            CmdType::ShutDownNow => 0x0b,
            CmdType::QueryDataStatus => 0x0c,
            CmdType::Unknown => 0x0d,
        }
    }

    /// The type that the wire number `x` names.
    pub open spec fn spec_from_u8(x: u8) -> CmdType {
        match x {
            0x01 => CmdType::Stop,
            0x02 => CmdType::SingleBoardSet,
            0x03 => CmdType::DoubleBoardSet,
            0x04 => CmdType::FiveBoardSet,
            0x05 => CmdType::QuerySelfCheckStatus,
            0x06 => CmdType::QueryHealthInfo,
            0x07 => CmdType::QueryWorkMode,
            0x08 => CmdType::ModeFor40GB,
            0x09 => CmdType::TriggerSet,
            0x0a => CmdType::ReferenceSet,
            0x0b => CmdType::ShutDownNow,
            0x0c => CmdType::QueryDataStatus,
            _ => CmdType::Unknown,
        }
    }

    /// Bytes that a message of this type occupies on the wire.
    pub open spec fn wire_len(self) -> nat {
        match self {
            CmdType::Stop => 1,
            CmdType::SingleBoardSet => 5,
            CmdType::DoubleBoardSet => 6,
            CmdType::FiveBoardSet => 4,
            CmdType::QuerySelfCheckStatus => 50,
            CmdType::QueryHealthInfo => 44,
            CmdType::QueryWorkMode => 4,
            CmdType::ModeFor40GB => 56,
            CmdType::TriggerSet => 1,
            CmdType::ReferenceSet => 1,
            CmdType::ShutDownNow => 1,
            CmdType::QueryDataStatus => 20,
            CmdType::Unknown => 0,
        }
    }

    /// The number of the type on the wire.
    pub fn code(&self) -> (c: u8)
        ensures
            c == self.spec_code(),
    {
        match self {
            CmdType::Stop => 0x01,
            CmdType::SingleBoardSet => 0x02,
            CmdType::DoubleBoardSet => 0x03,
            CmdType::FiveBoardSet => 0x04,
            CmdType::QuerySelfCheckStatus => 0x05,
            CmdType::QueryHealthInfo => 0x06,
            CmdType::QueryWorkMode => 0x07,
            CmdType::ModeFor40GB => 0x08,
            CmdType::TriggerSet => 0x09,
            CmdType::ReferenceSet => 0x0a,
            CmdType::ShutDownNow => 0x0b,
            CmdType::QueryDataStatus => 0x0c,
            CmdType::Unknown => 0x0d,
        }
    }

    /// The type that the wire number `x` names; `Unknown` for any number
    /// outside 1..=12.
    pub fn from_u8(x: u8) -> (t: CmdType)
        ensures
            t == CmdType::spec_from_u8(x),
    {
        match x {
            0x01 => CmdType::Stop,
            0x02 => CmdType::SingleBoardSet,
            0x03 => CmdType::DoubleBoardSet,
            0x04 => CmdType::FiveBoardSet,
            0x05 => CmdType::QuerySelfCheckStatus,
            0x06 => CmdType::QueryHealthInfo,
            0x07 => CmdType::QueryWorkMode,
            0x08 => CmdType::ModeFor40GB,
            0x09 => CmdType::TriggerSet,
            0x0a => CmdType::ReferenceSet,
            0x0b => CmdType::ShutDownNow,
            0x0c => CmdType::QueryDataStatus,
            _ => CmdType::Unknown,
        }
    }
}

/// The boards of the instrument, numbered 1 to 5.
#[derive(Debug, Clone, Copy, PartialEq, Eq, Structural)]
pub enum BoardID {
    B0,
    B1,
    B2,
    B3,
    B4,
}

impl BoardID {
    /// The number of the board.
    pub fn code(&self) -> (c: u8)
        ensures
            c == match self {
                BoardID::B0 => 1u8,
                BoardID::B1 => 2u8,
                BoardID::B2 => 3u8,
                BoardID::B3 => 4u8,
                BoardID::B4 => 5u8,
            },
    {
        match self {
            BoardID::B0 => 1,
            BoardID::B1 => 2,
            BoardID::B2 => 3,
            BoardID::B3 => 4,
            BoardID::B4 => 5,
        }
    }
}

/// What every control message offers: its type, its text for the operator,
/// and its wire layout in both directions.
pub trait Command {
    /// The type of the message.
    spec fn spec_type(&self) -> CmdType;

    /// The wire layout of the message.
    spec fn spec_bytes(&self) -> Seq<u8>;

    /// The text shown to the operator.
    spec fn spec_text(&self) -> Seq<char>;

    /// The message as a [`CmdEnum`].
    spec fn spec_enum(&self) -> CmdEnum;

    /// The type of the message; every message also fits in a frame.
    fn cmd_type(&self) -> (t: CmdType)
        ensures
            t == self.spec_type(),
            self.spec_bytes().len() <= FRAME_DATA_LEN,
    ;

    fn cmd_string(&self) -> (s: String)
        ensures
            s@ == self.spec_text(),
    ;

    /// Writes the wire layout to the front of `d`, leaves the rest of `d`
    /// as it was, and returns the number of bytes written.
    fn fill_data(&self, d: &mut [u8]) -> (n: usize)
        requires
            self.spec_bytes().len() <= old(d)@.len(),
        ensures
            n == self.spec_bytes().len(),
            final(d)@ == self.spec_bytes() + old(d)@.skip(n as int),
    ;

    /// Replaces the message by the one whose wire layout starts `d`.
    fn from_data(&mut self, d: &[u8])
        requires
            old(self).spec_bytes().len() <= d@.len(),
        ensures
            final(self).spec_type() == old(self).spec_type(),
            final(self).spec_bytes() == d@.take(old(self).spec_bytes().len() as int),
    ;

    fn to_enum(&self) -> (e: CmdEnum)
        ensures
            e == self.spec_enum(),
    ;
}

/// One byte as a sequence.
pub open spec fn byte(x: u8) -> Seq<u8> {
    seq![x]
}

/// Start in one-board mode.
#[derive(Clone, Copy, PartialEq, Eq, Debug)]
pub struct SingleBoard {
    pub board_num: u8,
    pub resolution: u32,
}

impl Default for SingleBoard {
    fn default() -> (r: Self)
        ensures
            r.board_num == 0 && r.resolution == 0,
    {
        SingleBoard { board_num: 0, resolution: 0 }
    }
}

impl Command for SingleBoard {
    open spec fn spec_type(&self) -> CmdType {
        CmdType::SingleBoardSet
    }

    open spec fn spec_bytes(&self) -> Seq<u8> {
        byte(self.board_num) + le32(self.resolution)
    }

    open spec fn spec_text(&self) -> Seq<char> {
        "SingleBoard: "@ + dec(self.board_num as nat) + " "@ + dec(self.resolution as nat)
    }

    open spec fn spec_enum(&self) -> CmdEnum {
        CmdEnum::SingleBoard(*self)
    }

    fn cmd_type(&self) -> (t: CmdType) {
        proof {
            lemma_wire_len(self.spec_enum());
        }
        CmdType::SingleBoardSet
    }

    fn cmd_string(&self) -> (s: String) {
        let mut s = String::new();
        s.append("SingleBoard: ");
        push_dec(&mut s, self.board_num as u32);
        s.append(" ");
        push_dec(&mut s, self.resolution);
        assert(s@ =~= self.spec_text());
        s
    }

    fn fill_data(&self, d: &mut [u8]) -> (n: usize) {
        let mut b: Vec<u8> = Vec::new();
        b.push(self.board_num);
        push_u32(&mut b, self.resolution);
        assert(b@ =~= self.spec_bytes());
        copy_to_front(d, &b);
        b.len()
    }

    fn from_data(&mut self, d: &[u8]) {
        let board_num = d[0];
        let resolution = read_u32(d, 1);
        *self = SingleBoard { board_num, resolution };
        assert(self.spec_bytes() =~= d@.take(5));
    }

    /// The message, held by its own variant.
    fn to_enum(&self) -> (e: CmdEnum)
        ensures
            e == CmdEnum::SingleBoard(*self),
    {
        CmdEnum::SingleBoard(*self)
    }
}

/// Start in two-board mode.
#[derive(Clone, Copy, PartialEq, Eq, Debug)]
pub struct DoubleBoard {
    /// First board, 1 to 5.
    pub board_num1: u8,
    /// Second board, 1 to 5, above the first.
    pub board_num2: u8,
    /// Resolution in ms.
    pub resolution: u32,
}

impl Default for DoubleBoard {
    fn default() -> (r: Self)
        ensures
            r.board_num1 == 0 && r.board_num2 == 0 && r.resolution == 0,
    {
        DoubleBoard { board_num1: 0, board_num2: 0, resolution: 0 }
    }
}

impl Command for DoubleBoard {
    open spec fn spec_type(&self) -> CmdType {
        CmdType::DoubleBoardSet
    }

    open spec fn spec_bytes(&self) -> Seq<u8> {
        byte(self.board_num1) + byte(self.board_num2) + le32(self.resolution)
    }

    open spec fn spec_text(&self) -> Seq<char> {
        "DoubleBoard "@ + dec(self.board_num1 as nat) + " "@ + dec(self.board_num2 as nat) + " "@
            + dec(self.resolution as nat)
    }

    open spec fn spec_enum(&self) -> CmdEnum {
        CmdEnum::DoubleBoard(*self)
    }

    fn cmd_type(&self) -> (t: CmdType) {
        proof {
            lemma_wire_len(self.spec_enum());
        }
        CmdType::DoubleBoardSet
    }

    fn cmd_string(&self) -> (s: String) {
        let mut s = String::new();
        s.append("DoubleBoard ");
        push_dec(&mut s, self.board_num1 as u32);
        s.append(" ");
        push_dec(&mut s, self.board_num2 as u32);
        s.append(" ");
        push_dec(&mut s, self.resolution);
        assert(s@ =~= self.spec_text());
        s
    }

    fn fill_data(&self, d: &mut [u8]) -> (n: usize) {
        let mut b: Vec<u8> = Vec::new();
        b.push(self.board_num1);
        b.push(self.board_num2);
        push_u32(&mut b, self.resolution);
        assert(b@ =~= self.spec_bytes());
        copy_to_front(d, &b);
        b.len()
    }

    fn from_data(&mut self, d: &[u8]) {
        let board_num1 = d[0];
        let board_num2 = d[1];
        let resolution = read_u32(d, 2);
        *self = DoubleBoard { board_num1, board_num2, resolution };
        assert(self.spec_bytes() =~= d@.take(6));
    }

    /// The message, held by its own variant.
    fn to_enum(&self) -> (e: CmdEnum)
        ensures
            e == CmdEnum::DoubleBoard(*self),
    {
        CmdEnum::DoubleBoard(*self)
    }
}

/// Start in five-board mode.
#[derive(Clone, Copy, PartialEq, Eq, Debug)]
pub struct FiveBoard {
    /// Resolution in ms.
    pub resolution: u32,
}

impl FiveBoard {
    pub fn new(resolution: u32) -> (r: Self)
        ensures
            r.resolution == resolution,
    {
        Self { resolution }
    }
}

impl Default for FiveBoard {
    fn default() -> (r: Self)
        ensures
            r.resolution == 0,
    {
        FiveBoard { resolution: 0 }
    }
}

impl Command for FiveBoard {
    open spec fn spec_type(&self) -> CmdType {
        CmdType::FiveBoardSet
    }

    open spec fn spec_bytes(&self) -> Seq<u8> {
        le32(self.resolution)
    }

    open spec fn spec_text(&self) -> Seq<char> {
        "FiveBoard "@ + dec(self.resolution as nat)
    }

    open spec fn spec_enum(&self) -> CmdEnum {
        CmdEnum::FiveBoard(*self)
    }

    fn cmd_type(&self) -> (t: CmdType) {
        proof {
            lemma_wire_len(self.spec_enum());
        }
        CmdType::FiveBoardSet
    }

    fn cmd_string(&self) -> (s: String) {
        let mut s = String::new();
        s.append("FiveBoard ");
        push_dec(&mut s, self.resolution);
        assert(s@ =~= self.spec_text());
        s
    }

    fn fill_data(&self, d: &mut [u8]) -> (n: usize) {
        let mut b: Vec<u8> = Vec::new();
        push_u32(&mut b, self.resolution);
        assert(b@ =~= self.spec_bytes());
        copy_to_front(d, &b);
        b.len()
    }

    fn from_data(&mut self, d: &[u8]) {
        let resolution = read_u32(d, 0);
        *self = FiveBoard { resolution };
        assert(self.spec_bytes() =~= d@.take(4));
    }

    /// The message, held by its own variant.
    fn to_enum(&self) -> (e: CmdEnum)
        ensures
            e == CmdEnum::FiveBoard(*self),
    {
        CmdEnum::FiveBoard(*self)
    }
}

/// Self-check result: four status bytes per board from each of the two
/// VU9P chips and two from the K7 chip.
#[derive(Clone, Copy, PartialEq, Eq, Debug)]
pub struct SelfCheckStatus {
    pub self_check_vu9p1: [u8; 20],
    pub self_check_vu9p2: [u8; 20],
    pub self_check_k7: [u8; 10],
}

impl Default for SelfCheckStatus {
    fn default() -> (r: Self)
        ensures
            r.self_check_vu9p1@ == zeros(20),
            r.self_check_vu9p2@ == zeros(20),
            r.self_check_k7@ == zeros(10),
    {
        let r = SelfCheckStatus {
            self_check_vu9p1: [0u8; 20],
            self_check_vu9p2: [0u8; 20],
            self_check_k7: [0u8; 10],
        };
        assert(r.self_check_vu9p1@ =~= zeros(20));
        assert(r.self_check_vu9p2@ =~= zeros(20));
        assert(r.self_check_k7@ =~= zeros(10));
        r
    }
}

impl SelfCheckStatus {
    /// The line of board `i`: `a a a a | b b b b | c c \n`.
    pub open spec fn spec_line(self, i: int) -> Seq<char> {
        pair_text(self.self_check_vu9p1@[4 * i], self.self_check_vu9p1@[4 * i + 1]) + " "@
            + pair_text(self.self_check_vu9p1@[4 * i + 2], self.self_check_vu9p1@[4 * i + 3])
            + " | "@ + pair_text(self.self_check_vu9p2@[4 * i], self.self_check_vu9p2@[4 * i + 1])
            + " "@ + pair_text(self.self_check_vu9p2@[4 * i + 2], self.self_check_vu9p2@[4 * i + 3])
            + " | "@ + pair_text(self.self_check_k7@[2 * i], self.self_check_k7@[2 * i + 1])
            + " \n"@
    }

    /// The lines of boards `0..n`.
    pub open spec fn spec_lines(self, n: nat) -> Seq<char>
        decreases n,
    {
        if n == 0 {
            Seq::empty()
        } else {
            self.spec_lines((n - 1) as nat) + self.spec_line(n - 1)
        }
    }

    #[verifier::spinoff_prover]
    #[verifier::rlimit(40)]
    fn push_line(&self, s: &mut String, i: usize)
        requires
            i < NBOARD,
        ensures
            final(s)@ == old(s)@ + self.spec_line(i as int),
    {
        let a = &self.self_check_vu9p1;
        let b = &self.self_check_vu9p2;
        let c = &self.self_check_k7;
        push_pair(s, a[i * 4], a[i * 4 + 1]);
        s.append(" ");
        push_pair(s, a[i * 4 + 2], a[i * 4 + 3]);
        s.append(" | ");
        push_pair(s, b[i * 4], b[i * 4 + 1]);
        s.append(" ");
        push_pair(s, b[i * 4 + 2], b[i * 4 + 3]);
        s.append(" | ");
        push_pair(s, c[i * 2], c[i * 2 + 1]);
        s.append(" \n");
        assert(s@ =~= old(s)@ + self.spec_line(i as int));
    }
}

/// Two numbers separated by a space.
pub open spec fn pair_text(x: u8, y: u8) -> Seq<char> {
    dec(x as nat) + " "@ + dec(y as nat)
}

fn push_pair(s: &mut String, x: u8, y: u8)
    ensures
        final(s)@ == old(s)@ + pair_text(x, y),
{
    push_dec(s, x as u32);
    s.append(" ");
    push_dec(s, y as u32);
    assert(final(s)@ =~= old(s)@ + pair_text(x, y));
}

impl Command for SelfCheckStatus {
    open spec fn spec_type(&self) -> CmdType {
        CmdType::QuerySelfCheckStatus
    }

    open spec fn spec_bytes(&self) -> Seq<u8> {
        self.self_check_vu9p1@ + self.self_check_vu9p2@ + self.self_check_k7@
    }

    open spec fn spec_text(&self) -> Seq<char> {
        "SelfCheckStatus:\n"@ + self.spec_lines(NBOARD as nat)
    }

    open spec fn spec_enum(&self) -> CmdEnum {
        CmdEnum::SelfCheckStatus(*self)
    }

    fn cmd_type(&self) -> (t: CmdType) {
        proof {
            lemma_wire_len(self.spec_enum());
        }
        CmdType::QuerySelfCheckStatus
    }

    fn cmd_string(&self) -> (s: String) {
        let mut s = String::new();
        s.append("SelfCheckStatus:\n");
        let mut i: usize = 0;
        while i < NBOARD
            invariant
                i <= NBOARD,
                s@ == "SelfCheckStatus:\n"@ + self.spec_lines(i as nat),
            decreases NBOARD - i,
        {
            self.push_line(&mut s, i);
            i = i + 1;
            assert(s@ =~= "SelfCheckStatus:\n"@ + self.spec_lines(i as nat));
        }
        s
    }

    fn fill_data(&self, d: &mut [u8]) -> (n: usize) {
        let mut b: Vec<u8> = Vec::new();
        push_bytes(&mut b, self.self_check_vu9p1.as_slice());
        push_bytes(&mut b, self.self_check_vu9p2.as_slice());
        push_bytes(&mut b, self.self_check_k7.as_slice());
        assert(b@ =~= self.spec_bytes());
        copy_to_front(d, &b);
        b.len()
    }

    fn from_data(&mut self, d: &[u8]) {
        let self_check_vu9p1: [u8; 20] = read_byte_array(d, 0);
        let self_check_vu9p2: [u8; 20] = read_byte_array(d, 20);
        let self_check_k7: [u8; 10] = read_byte_array(d, 40);
        *self = SelfCheckStatus { self_check_vu9p1, self_check_vu9p2, self_check_k7 };
        assert(self.spec_bytes() =~= d@.take(50));
    }

    /// The message, held by its own variant.
    fn to_enum(&self) -> (e: CmdEnum)
        ensures
            e == CmdEnum::SelfCheckStatus(*self),
    {
        CmdEnum::SelfCheckStatus(*self)
    }
}

/// Board temperatures.
#[derive(Clone, Copy, PartialEq, Eq, Debug)]
pub struct HealthInfo {
    pub temperature: [u32; 11],
}

impl Default for HealthInfo {
    fn default() -> (r: Self)
        ensures
            forall|i: int| 0 <= i < 11 ==> r.temperature@[i] == 0,
    {
        HealthInfo { temperature: [0u32; 11] }
    }
}

impl Command for HealthInfo {
    open spec fn spec_type(&self) -> CmdType {
        CmdType::QueryHealthInfo
    }

    open spec fn spec_bytes(&self) -> Seq<u8> {
        le32s(self.temperature@)
    }

    open spec fn spec_text(&self) -> Seq<char> {
        let t = self.temperature@;
        "Temperature \n"@ + dec(t[0] as nat) + " "@ + dec(t[1] as nat) + "\n"@ + dec(t[2] as nat)
            + " "@ + dec(t[3] as nat) + "\n"@ + dec(t[4] as nat) + " "@ + dec(t[5] as nat) + "\n"@
            + dec(t[6] as nat) + " "@ + dec(t[7] as nat) + "\n"@ + dec(t[8] as nat) + " "@ + dec(
            t[9] as nat,
        ) + "\n"@ + dec(t[10] as nat) + "\n"@
    }

    open spec fn spec_enum(&self) -> CmdEnum {
        CmdEnum::HealthInfo(*self)
    }

    fn cmd_type(&self) -> (t: CmdType) {
        proof {
            lemma_wire_len(self.spec_enum());
        }
        CmdType::QueryHealthInfo
    }

    fn cmd_string(&self) -> (s: String) {
        let t = &self.temperature;
        let mut s = String::new();
        s.append("Temperature \n");
        push_dec(&mut s, t[0]);
        s.append(" ");
        push_dec(&mut s, t[1]);
        s.append("\n");
        push_dec(&mut s, t[2]);
        s.append(" ");
        push_dec(&mut s, t[3]);
        s.append("\n");
        push_dec(&mut s, t[4]);
        s.append(" ");
        push_dec(&mut s, t[5]);
        s.append("\n");
        push_dec(&mut s, t[6]);
        s.append(" ");
        push_dec(&mut s, t[7]);
        s.append("\n");
        push_dec(&mut s, t[8]);
        s.append(" ");
        push_dec(&mut s, t[9]);
        s.append("\n");
        push_dec(&mut s, t[10]);
        s.append("\n");
        assert(s@ =~= self.spec_text());
        s
    }

    fn fill_data(&self, d: &mut [u8]) -> (n: usize) {
        let mut b: Vec<u8> = Vec::new();
        push_u32s(&mut b, self.temperature.as_slice());
        assert(b@ =~= self.spec_bytes());
        proof {
            lemma_le32s_len(self.temperature@);
        }
        copy_to_front(d, &b);
        b.len()
    }

    fn from_data(&mut self, d: &[u8]) {
        proof {
            lemma_le32s_len(old(self).temperature@);
        }
        let temperature: [u32; 11] = read_u32_array(d, 0);
        *self = HealthInfo { temperature };
        assert(d@.subrange(0, 44) =~= d@.take(44));
    }

    /// The message, held by its own variant.
    fn to_enum(&self) -> (e: CmdEnum)
        ensures
            e == CmdEnum::HealthInfo(*self),
    {
        CmdEnum::HealthInfo(*self)
    }
}

/// Start in 40 GB mode. Each of four boards is enabled by a non-zero
/// `board_num` and works on the channel beside it (0 to 7); each has a
/// local and a remote (optical) endpoint, set when the first address byte
/// is non-zero.
#[derive(Clone, Copy, PartialEq, Eq, Debug)]
pub struct GB40 {
    pub board_num1: u8,
    pub channel1: u8,
    pub board_num2: u8,
    pub channel2: u8,
    pub board_num3: u8,
    pub channel3: u8,
    pub board_num4: u8,
    pub channel4: u8,
    pub local_ip1: [u8; 4],
    pub local_port1: u16,
    pub local_ip2: [u8; 4],
    pub local_port2: u16,
    pub local_ip3: [u8; 4],
    pub local_port3: u16,
    pub local_ip4: [u8; 4],
    pub local_port4: u16,
    pub optical_ip1: [u8; 4],
    pub optical_port1: u16,
    pub optical_ip2: [u8; 4],
    pub optical_port2: u16,
    pub optical_ip3: [u8; 4],
    pub optical_port3: u16,
    pub optical_ip4: [u8; 4],
    pub optical_port4: u16,
}

/// An address and a port as they stand on the wire.
pub open spec fn endpoint(ip: [u8; 4], port: u16) -> Seq<u8> {
    ip@ + le16(port)
}

impl GB40 {
    /// The board and channel bytes.
    pub open spec fn spec_boards(self) -> Seq<u8> {
        seq![
            self.board_num1,
            self.channel1,
            self.board_num2,
            self.channel2,
            self.board_num3,
            self.channel3,
            self.board_num4,
            self.channel4,
        ]
    }

    /// The local endpoints.
    pub open spec fn spec_local(self) -> Seq<u8> {
        endpoint(self.local_ip1, self.local_port1) + endpoint(self.local_ip2, self.local_port2)
            + endpoint(self.local_ip3, self.local_port3) + endpoint(
            self.local_ip4,
            self.local_port4,
        )
    }

    /// The remote endpoints.
    pub open spec fn spec_optical(self) -> Seq<u8> {
        endpoint(self.optical_ip1, self.optical_port1) + endpoint(
            self.optical_ip2,
            self.optical_port2,
        ) + endpoint(self.optical_ip3, self.optical_port3) + endpoint(
            self.optical_ip4,
            self.optical_port4,
        )
    }
}

fn push_endpoint(b: &mut Vec<u8>, ip: &[u8; 4], port: u16)
    ensures
        final(b)@ == old(b)@ + endpoint(*ip, port),
{
    push_bytes(b, ip.as_slice());
    push_u16(b, port);
    assert(final(b)@ =~= old(b)@ + endpoint(*ip, port));
}

fn read_endpoint(d: &[u8], off: usize) -> (r: ([u8; 4], u16))
    requires
        off + 6 <= d@.len(),
    ensures
        endpoint(r.0, r.1) == d@.subrange(off as int, off + 6),
{
    let n = d.len();
    assert(off + 4 < n);
    let ip: [u8; 4] = read_byte_array(d, off);
    let port = read_u16(d, off + 4);
    assert(endpoint(ip, port) =~= d@.subrange(off as int, off + 6));
    (ip, port)
}

impl Default for GB40 {
    fn default() -> (r: Self)
        ensures
            r.spec_boards() == zeros(8),
            r.spec_local() == zeros(24),
            r.spec_optical() == zeros(24),
    {
        let r = GB40 {
            board_num1: 0,
            channel1: 0,
            board_num2: 0,
            channel2: 0,
            board_num3: 0,
            channel3: 0,
            board_num4: 0,
            channel4: 0,
            local_ip1: [0u8; 4],
            local_port1: 0,
            local_ip2: [0u8; 4],
            local_port2: 0,
            local_ip3: [0u8; 4],
            local_port3: 0,
            local_ip4: [0u8; 4],
            local_port4: 0,
            optical_ip1: [0u8; 4],
            optical_port1: 0,
            optical_ip2: [0u8; 4],
            optical_port2: 0,
            optical_ip3: [0u8; 4],
            optical_port3: 0,
            optical_ip4: [0u8; 4],
            optical_port4: 0,
        };
        assert(r.spec_boards() =~= zeros(8));
        assert(r.spec_local() =~= zeros(24));
        assert(r.spec_optical() =~= zeros(24));
        r
    }
}

impl Command for GB40 {
    open spec fn spec_type(&self) -> CmdType {
        CmdType::ModeFor40GB
    }

    open spec fn spec_bytes(&self) -> Seq<u8> {
        self.spec_boards() + self.spec_local() + self.spec_optical()
    }

    open spec fn spec_text(&self) -> Seq<char> {
        "GB40"@
    }

    open spec fn spec_enum(&self) -> CmdEnum {
        CmdEnum::GB40(*self)
    }

    fn cmd_type(&self) -> (t: CmdType) {
        proof {
            lemma_wire_len(self.spec_enum());
        }
        CmdType::ModeFor40GB
    }

    fn cmd_string(&self) -> (s: String) {
        String::from_str("GB40")
    }

    fn fill_data(&self, d: &mut [u8]) -> (n: usize) {
        let mut b: Vec<u8> = Vec::new();
        b.push(self.board_num1);
        b.push(self.channel1);
        b.push(self.board_num2);
        b.push(self.channel2);
        b.push(self.board_num3);
        b.push(self.channel3);
        b.push(self.board_num4);
        b.push(self.channel4);
        assert(b@ =~= self.spec_boards());
        push_endpoint(&mut b, &self.local_ip1, self.local_port1);
        push_endpoint(&mut b, &self.local_ip2, self.local_port2);
        push_endpoint(&mut b, &self.local_ip3, self.local_port3);
        push_endpoint(&mut b, &self.local_ip4, self.local_port4);
        assert(b@ =~= self.spec_boards() + self.spec_local());
        push_endpoint(&mut b, &self.optical_ip1, self.optical_port1);
        push_endpoint(&mut b, &self.optical_ip2, self.optical_port2);
        push_endpoint(&mut b, &self.optical_ip3, self.optical_port3);
        push_endpoint(&mut b, &self.optical_ip4, self.optical_port4);
        assert(b@ =~= self.spec_bytes());
        copy_to_front(d, &b);
        b.len()
    }

    fn from_data(&mut self, d: &[u8]) {
        let (local_ip1, local_port1) = read_endpoint(d, 8);
        let (local_ip2, local_port2) = read_endpoint(d, 14);
        let (local_ip3, local_port3) = read_endpoint(d, 20);
        let (local_ip4, local_port4) = read_endpoint(d, 26);
        let (optical_ip1, optical_port1) = read_endpoint(d, 32);
        let (optical_ip2, optical_port2) = read_endpoint(d, 38);
        let (optical_ip3, optical_port3) = read_endpoint(d, 44);
        let (optical_ip4, optical_port4) = read_endpoint(d, 50);
        *self = GB40 {
            board_num1: d[0],
            channel1: d[1],
            board_num2: d[2],
            channel2: d[3],
            board_num3: d[4],
            channel3: d[5],
            board_num4: d[6],
            channel4: d[7],
            local_ip1,
            local_port1,
            local_ip2,
            local_port2,
            local_ip3,
            local_port3,
            local_ip4,
            local_port4,
            optical_ip1,
            optical_port1,
            optical_ip2,
            optical_port2,
            optical_ip3,
            optical_port3,
            optical_ip4,
            optical_port4,
        };
        assert(self.spec_boards() =~= d@.subrange(0, 8));
        assert(self.spec_local() =~= d@.subrange(8, 32));
        assert(self.spec_optical() =~= d@.subrange(32, 56));
        assert(self.spec_bytes() =~= d@.take(56));
    }

    /// The message, held by its own variant.
    fn to_enum(&self) -> (e: CmdEnum)
        ensures
            e == CmdEnum::GB40(*self),
    {
        CmdEnum::GB40(*self)
    }
}

/// Internal (0) or external trigger.
#[derive(Clone, Copy, PartialEq, Eq, Debug)]
pub struct Trigger {
    pub trigger_value: u8,
}

impl Default for Trigger {
    fn default() -> (r: Self)
        ensures
            r.trigger_value == 0,
    {
        Trigger { trigger_value: 0 }
    }
}

impl Command for Trigger {
    open spec fn spec_type(&self) -> CmdType {
        CmdType::TriggerSet
    }

    open spec fn spec_bytes(&self) -> Seq<u8> {
        byte(self.trigger_value)
    }

    open spec fn spec_text(&self) -> Seq<char> {
        "Trigger"@
    }

    open spec fn spec_enum(&self) -> CmdEnum {
        CmdEnum::Trigger(*self)
    }

    fn cmd_type(&self) -> (t: CmdType) {
        proof {
            lemma_wire_len(self.spec_enum());
        }
        CmdType::TriggerSet
    }

    fn cmd_string(&self) -> (s: String) {
        String::from_str("Trigger")
    }

    fn fill_data(&self, d: &mut [u8]) -> (n: usize) {
        let mut b: Vec<u8> = Vec::new();
        b.push(self.trigger_value);
        assert(b@ =~= self.spec_bytes());
        copy_to_front(d, &b);
        b.len()
    }

    fn from_data(&mut self, d: &[u8]) {
        *self = Trigger { trigger_value: d[0] };
        assert(self.spec_bytes() =~= d@.take(1));
    }

    /// The message, held by its own variant.
    fn to_enum(&self) -> (e: CmdEnum)
        ensures
            e == CmdEnum::Trigger(*self),
    {
        CmdEnum::Trigger(*self)
    }
}

/// Internal (0) or external frequency reference.
#[derive(Clone, Copy, PartialEq, Eq, Debug)]
pub struct Reference {
    pub reference_value: u8,
}

impl Default for Reference {
    fn default() -> (r: Self)
        ensures
            r.reference_value == 0,
    {
        Reference { reference_value: 0 }
    }
}

impl Command for Reference {
    open spec fn spec_type(&self) -> CmdType {
        CmdType::ReferenceSet
    }

    open spec fn spec_bytes(&self) -> Seq<u8> {
        byte(self.reference_value)
    }

    open spec fn spec_text(&self) -> Seq<char> {
        "Reference: "@ + dec(self.reference_value as nat)
    }

    open spec fn spec_enum(&self) -> CmdEnum {
        CmdEnum::Reference(*self)
    }

    fn cmd_type(&self) -> (t: CmdType) {
        proof {
            lemma_wire_len(self.spec_enum());
        }
        CmdType::ReferenceSet
    }

    fn cmd_string(&self) -> (s: String) {
        let mut s = String::new();
        s.append("Reference: ");
        push_dec(&mut s, self.reference_value as u32);
        s
    }

    fn fill_data(&self, d: &mut [u8]) -> (n: usize) {
        let mut b: Vec<u8> = Vec::new();
        b.push(self.reference_value);
        assert(b@ =~= self.spec_bytes());
        copy_to_front(d, &b);
        b.len()
    }

    fn from_data(&mut self, d: &[u8]) {
        *self = Reference { reference_value: d[0] };
        assert(self.spec_bytes() =~= d@.take(1));
    }

    /// The message, held by its own variant.
    fn to_enum(&self) -> (e: CmdEnum)
        ensures
            e == CmdEnum::Reference(*self),
    {
        CmdEnum::Reference(*self)
    }
}

/// Work mode query and reply.
#[derive(Clone, Copy, PartialEq, Eq, Debug)]
pub struct WorkMode {
    pub mode: u32,
}

impl Default for WorkMode {
    fn default() -> (r: Self)
        ensures
            r.mode == 0,
    {
        WorkMode { mode: 0 }
    }
}

impl Command for WorkMode {
    open spec fn spec_type(&self) -> CmdType {
        CmdType::QueryWorkMode
    }

    open spec fn spec_bytes(&self) -> Seq<u8> {
        le32(self.mode)
    }

    open spec fn spec_text(&self) -> Seq<char> {
        "WorkMode: "@ + dec(self.mode as nat)
    }

    open spec fn spec_enum(&self) -> CmdEnum {
        CmdEnum::WorkMode(*self)
    }

    fn cmd_type(&self) -> (t: CmdType) {
        proof {
            lemma_wire_len(self.spec_enum());
        }
        CmdType::QueryWorkMode
    }

    fn cmd_string(&self) -> (s: String) {
        let mut s = String::new();
        s.append("WorkMode: ");
        push_dec(&mut s, self.mode);
        s
    }

    fn fill_data(&self, d: &mut [u8]) -> (n: usize) {
        let mut b: Vec<u8> = Vec::new();
        push_u32(&mut b, self.mode);
        assert(b@ =~= self.spec_bytes());
        copy_to_front(d, &b);
        b.len()
    }

    fn from_data(&mut self, d: &[u8]) {
        let mode = read_u32(d, 0);
        *self = WorkMode { mode };
        assert(self.spec_bytes() =~= d@.take(4));
    }

    /// The message, held by its own variant.
    fn to_enum(&self) -> (e: CmdEnum)
        ensures
            e == CmdEnum::WorkMode(*self),
    {
        CmdEnum::WorkMode(*self)
    }
}

/// Data stream status query and reply; meaningful only while the
/// instrument is acquiring.
#[derive(Clone, Copy, PartialEq, Eq, Debug)]
pub struct DataStatus {
    pub sta: [u32; 5],
}

impl Default for DataStatus {
    fn default() -> (r: Self)
        ensures
            forall|i: int| 0 <= i < 5 ==> r.sta@[i] == 0,
    {
        DataStatus { sta: [0u32; 5] }
    }
}

impl Command for DataStatus {
    open spec fn spec_type(&self) -> CmdType {
        CmdType::QueryDataStatus
    }

    open spec fn spec_bytes(&self) -> Seq<u8> {
        le32s(self.sta@)
    }

    open spec fn spec_text(&self) -> Seq<char> {
        let t = self.sta@;
        "DataStatus: "@ + dec(t[0] as nat) + " "@ + dec(t[1] as nat) + " "@ + dec(t[2] as nat)
            + " "@ + dec(t[3] as nat) + " "@ + dec(t[4] as nat) + "\n"@
    }

    open spec fn spec_enum(&self) -> CmdEnum {
        CmdEnum::DataStatus(*self)
    }

    fn cmd_type(&self) -> (t: CmdType) {
        proof {
            lemma_wire_len(self.spec_enum());
        }
        CmdType::QueryDataStatus
    }

    fn cmd_string(&self) -> (s: String) {
        let t = &self.sta;
        let mut s = String::new();
        s.append("DataStatus: ");
        push_dec(&mut s, t[0]);
        s.append(" ");
        push_dec(&mut s, t[1]);
        s.append(" ");
        push_dec(&mut s, t[2]);
        s.append(" ");
        push_dec(&mut s, t[3]);
        s.append(" ");
        push_dec(&mut s, t[4]);
        s.append("\n");
        assert(s@ =~= self.spec_text());
        s
    }

    fn fill_data(&self, d: &mut [u8]) -> (n: usize) {
        let mut b: Vec<u8> = Vec::new();
        push_u32s(&mut b, self.sta.as_slice());
        assert(b@ =~= self.spec_bytes());
        proof {
            lemma_le32s_len(self.sta@);
        }
        copy_to_front(d, &b);
        b.len()
    }

    fn from_data(&mut self, d: &[u8]) {
        proof {
            lemma_le32s_len(old(self).sta@);
        }
        let sta: [u32; 5] = read_u32_array(d, 0);
        *self = DataStatus { sta };
        assert(d@.subrange(0, 20) =~= d@.take(20));
    }

    /// The message, held by its own variant.
    fn to_enum(&self) -> (e: CmdEnum)
        ensures
            e == CmdEnum::DataStatus(*self),
    {
        CmdEnum::DataStatus(*self)
    }
}

/// Power the instrument off.
#[derive(Clone, Copy, PartialEq, Eq, Debug)]
pub struct Shutdown {
    pub _x: u8,
}

impl Default for Shutdown {
    fn default() -> (r: Self)
        ensures
            r._x == 0,
    {
        Shutdown { _x: 0 }
    }
}

impl Command for Shutdown {
    open spec fn spec_type(&self) -> CmdType {
        CmdType::ShutDownNow
    }

    open spec fn spec_bytes(&self) -> Seq<u8> {
        byte(self._x)
    }

    open spec fn spec_text(&self) -> Seq<char> {
        "Shutdown"@
    }

    open spec fn spec_enum(&self) -> CmdEnum {
        CmdEnum::Shutdown(*self)
    }

    fn cmd_type(&self) -> (t: CmdType) {
        proof {
            lemma_wire_len(self.spec_enum());
        }
        CmdType::ShutDownNow
    }

    fn cmd_string(&self) -> (s: String) {
        String::from_str("Shutdown")
    }

    fn fill_data(&self, d: &mut [u8]) -> (n: usize) {
        let mut b: Vec<u8> = Vec::new();
        b.push(self._x);
        assert(b@ =~= self.spec_bytes());
        copy_to_front(d, &b);
        b.len()
    }

    fn from_data(&mut self, d: &[u8]) {
        *self = Shutdown { _x: d[0] };
        assert(self.spec_bytes() =~= d@.take(1));
    }

    /// The message, held by its own variant.
    fn to_enum(&self) -> (e: CmdEnum)
        ensures
            e == CmdEnum::Shutdown(*self),
    {
        CmdEnum::Shutdown(*self)
    }
}

/// Stop acquiring.
#[derive(Clone, Copy, PartialEq, Eq, Debug)]
pub struct Stop {
    pub _x: u8,
}

impl Default for Stop {
    fn default() -> (r: Self)
        ensures
            r._x == 0,
    {
        Stop { _x: 0 }
    }
}

impl Command for Stop {
    open spec fn spec_type(&self) -> CmdType {
        CmdType::Stop
    }

    open spec fn spec_bytes(&self) -> Seq<u8> {
        byte(self._x)
    }

    open spec fn spec_text(&self) -> Seq<char> {
        "Stop"@
    }

    open spec fn spec_enum(&self) -> CmdEnum {
        CmdEnum::Stop(*self)
    }

    fn cmd_type(&self) -> (t: CmdType) {
        proof {
            lemma_wire_len(self.spec_enum());
        }
        CmdType::Stop
    }

    fn cmd_string(&self) -> (s: String) {
        String::from_str("Stop")
    }

    fn fill_data(&self, d: &mut [u8]) -> (n: usize) {
        let mut b: Vec<u8> = Vec::new();
        b.push(self._x);
        assert(b@ =~= self.spec_bytes());
        copy_to_front(d, &b);
        b.len()
    }

    fn from_data(&mut self, d: &[u8]) {
        *self = Stop { _x: d[0] };
        assert(self.spec_bytes() =~= d@.take(1));
    }

    /// The message, held by its own variant.
    fn to_enum(&self) -> (e: CmdEnum)
        ensures
            e == CmdEnum::Stop(*self),
    {
        CmdEnum::Stop(*self)
    }
}

/// Any one of the control messages.
#[derive(Clone, Copy, PartialEq, Eq, Debug)]
pub enum CmdEnum {
    SingleBoard(SingleBoard),
    DoubleBoard(DoubleBoard),
    FiveBoard(FiveBoard),
    SelfCheckStatus(SelfCheckStatus),
    HealthInfo(HealthInfo),
    GB40(GB40),
    Trigger(Trigger),
    Reference(Reference),
    WorkMode(WorkMode),
    DataStatus(DataStatus),
    Shutdown(Shutdown),
    Stop(Stop),
}

impl Command for CmdEnum {
    open spec fn spec_type(&self) -> CmdType {
        match self {
            CmdEnum::SingleBoard(a) => a.spec_type(),
            CmdEnum::DoubleBoard(a) => a.spec_type(),
            CmdEnum::FiveBoard(a) => a.spec_type(),
            CmdEnum::SelfCheckStatus(a) => a.spec_type(),
            CmdEnum::HealthInfo(a) => a.spec_type(),
            CmdEnum::GB40(a) => a.spec_type(),
            CmdEnum::Trigger(a) => a.spec_type(),
            CmdEnum::Reference(a) => a.spec_type(),
            CmdEnum::WorkMode(a) => a.spec_type(),
            CmdEnum::DataStatus(a) => a.spec_type(),
            CmdEnum::Shutdown(a) => a.spec_type(),
            CmdEnum::Stop(a) => a.spec_type(),
        }
    }

    open spec fn spec_bytes(&self) -> Seq<u8> {
        match self {
            CmdEnum::SingleBoard(a) => a.spec_bytes(),
            CmdEnum::DoubleBoard(a) => a.spec_bytes(),
            CmdEnum::FiveBoard(a) => a.spec_bytes(),
            CmdEnum::SelfCheckStatus(a) => a.spec_bytes(),
            CmdEnum::HealthInfo(a) => a.spec_bytes(),
            CmdEnum::GB40(a) => a.spec_bytes(),
            CmdEnum::Trigger(a) => a.spec_bytes(),
            CmdEnum::Reference(a) => a.spec_bytes(),
            CmdEnum::WorkMode(a) => a.spec_bytes(),
            CmdEnum::DataStatus(a) => a.spec_bytes(),
            CmdEnum::Shutdown(a) => a.spec_bytes(),
            CmdEnum::Stop(a) => a.spec_bytes(),
        }
    }

    open spec fn spec_text(&self) -> Seq<char> {
        match self {
            CmdEnum::SingleBoard(a) => a.spec_text(),
            CmdEnum::DoubleBoard(a) => a.spec_text(),
            CmdEnum::FiveBoard(a) => a.spec_text(),
            CmdEnum::SelfCheckStatus(a) => a.spec_text(),
            CmdEnum::HealthInfo(a) => a.spec_text(),
            CmdEnum::GB40(a) => a.spec_text(),
            CmdEnum::Trigger(a) => a.spec_text(),
            CmdEnum::Reference(a) => a.spec_text(),
            CmdEnum::WorkMode(a) => a.spec_text(),
            CmdEnum::DataStatus(a) => a.spec_text(),
            CmdEnum::Shutdown(a) => a.spec_text(),
            CmdEnum::Stop(a) => a.spec_text(),
        }
    }

    open spec fn spec_enum(&self) -> CmdEnum {
        *self
    }

    fn cmd_type(&self) -> (t: CmdType) {
        proof {
            lemma_wire_len(self.spec_enum());
        }
        match self {
            CmdEnum::SingleBoard(a) => a.cmd_type(),
            CmdEnum::DoubleBoard(a) => a.cmd_type(),
            CmdEnum::FiveBoard(a) => a.cmd_type(),
            CmdEnum::SelfCheckStatus(a) => a.cmd_type(),
            CmdEnum::HealthInfo(a) => a.cmd_type(),
            CmdEnum::GB40(a) => a.cmd_type(),
            CmdEnum::Trigger(a) => a.cmd_type(),
            CmdEnum::Reference(a) => a.cmd_type(),
            CmdEnum::WorkMode(a) => a.cmd_type(),
            CmdEnum::DataStatus(a) => a.cmd_type(),
            CmdEnum::Shutdown(a) => a.cmd_type(),
            CmdEnum::Stop(a) => a.cmd_type(),
        }
    }

    fn cmd_string(&self) -> (s: String) {
        match self {
            CmdEnum::SingleBoard(a) => a.cmd_string(),
            CmdEnum::DoubleBoard(a) => a.cmd_string(),
            CmdEnum::FiveBoard(a) => a.cmd_string(),
            CmdEnum::SelfCheckStatus(a) => a.cmd_string(),
            CmdEnum::HealthInfo(a) => a.cmd_string(),
            CmdEnum::GB40(a) => a.cmd_string(),
            CmdEnum::Trigger(a) => a.cmd_string(),
            CmdEnum::Reference(a) => a.cmd_string(),
            CmdEnum::WorkMode(a) => a.cmd_string(),
            CmdEnum::DataStatus(a) => a.cmd_string(),
            CmdEnum::Shutdown(a) => a.cmd_string(),
            CmdEnum::Stop(a) => a.cmd_string(),
        }
    }

    fn fill_data(&self, d: &mut [u8]) -> (n: usize) {
        match self {
            CmdEnum::SingleBoard(a) => a.fill_data(d),
            CmdEnum::DoubleBoard(a) => a.fill_data(d),
            CmdEnum::FiveBoard(a) => a.fill_data(d),
            CmdEnum::SelfCheckStatus(a) => a.fill_data(d),
            CmdEnum::HealthInfo(a) => a.fill_data(d),
            CmdEnum::GB40(a) => a.fill_data(d),
            CmdEnum::Trigger(a) => a.fill_data(d),
            CmdEnum::Reference(a) => a.fill_data(d),
            CmdEnum::WorkMode(a) => a.fill_data(d),
            CmdEnum::DataStatus(a) => a.fill_data(d),
            CmdEnum::Shutdown(a) => a.fill_data(d),
            CmdEnum::Stop(a) => a.fill_data(d),
        }
    }

    fn from_data(&mut self, d: &[u8]) {
        match *self {
            CmdEnum::SingleBoard(a) => {
                let mut x = a;
                x.from_data(d);
                *self = CmdEnum::SingleBoard(x);
            },
            CmdEnum::DoubleBoard(a) => {
                let mut x = a;
                x.from_data(d);
                *self = CmdEnum::DoubleBoard(x);
            },
            CmdEnum::FiveBoard(a) => {
                let mut x = a;
                x.from_data(d);
                *self = CmdEnum::FiveBoard(x);
            },
            CmdEnum::SelfCheckStatus(a) => {
                let mut x = a;
                x.from_data(d);
                *self = CmdEnum::SelfCheckStatus(x);
            },
            CmdEnum::HealthInfo(a) => {
                let mut x = a;
                x.from_data(d);
                *self = CmdEnum::HealthInfo(x);
            },
            CmdEnum::GB40(a) => {
                let mut x = a;
                x.from_data(d);
                *self = CmdEnum::GB40(x);
            },
            CmdEnum::Trigger(a) => {
                let mut x = a;
                x.from_data(d);
                *self = CmdEnum::Trigger(x);
            },
            CmdEnum::Reference(a) => {
                let mut x = a;
                x.from_data(d);
                *self = CmdEnum::Reference(x);
            },
            CmdEnum::WorkMode(a) => {
                let mut x = a;
                x.from_data(d);
                *self = CmdEnum::WorkMode(x);
            },
            CmdEnum::DataStatus(a) => {
                let mut x = a;
                x.from_data(d);
                *self = CmdEnum::DataStatus(x);
            },
            CmdEnum::Shutdown(a) => {
                let mut x = a;
                x.from_data(d);
                *self = CmdEnum::Shutdown(x);
            },
            CmdEnum::Stop(a) => {
                let mut x = a;
                x.from_data(d);
                *self = CmdEnum::Stop(x);
            },
        }
    }

    fn to_enum(&self) -> (e: CmdEnum) {
        *self
    }
}

/// Why a frame could not be unpacked.
#[derive(Debug, Clone, Copy, PartialEq, Eq, Structural)]
pub enum PackingError {
    /// The buffer does not have the length of a packed frame.
    BufferSizeMismatch { expected: usize, actual: usize },
}

/// The frame that carries one message on the wire.
#[derive(Clone, Copy, PartialEq, Eq, Debug)]
pub struct CommandFrame {
    pub frame_head: u32,
    /// The wire number of the message type.
    pub info_func: u8,
    /// The number of meaningful bytes in `data`.
    pub packet_len: u32,
    pub frame_tale: u32,
    /// The message's bytes, then zeros.
    pub data: [u8; 100],
}

impl CommandFrame {
    /// The packed layout of the frame.
    pub open spec fn spec_bytes(self) -> Seq<u8> {
        le32(self.frame_head) + byte(self.info_func) + le32(self.packet_len) + le32(
            self.frame_tale,
        ) + self.data@
    }

    /// The frame carries a message of type `t` whose wire layout is `payload`.
    pub open spec fn carries(self, t: CmdType, payload: Seq<u8>) -> bool {
        &&& self.frame_head == FRAME_HEAD
        &&& self.info_func == t.spec_code()
        &&& self.packet_len == payload.len()
        &&& self.frame_tale == FRAME_TALE
        &&& self.data@ == payload + zeros((FRAME_DATA_LEN - payload.len()) as nat)
    }

    /// `r` is the message that the frame names by its type byte and whose
    /// wire layout starts the payload.
    pub open spec fn decodes_to(self, r: CmdEnum) -> bool {
        &&& r.spec_type() == CmdType::spec_from_u8(self.info_func)
        &&& r.spec_bytes() == self.data@.take(r.spec_type().wire_len() as int)
    }

    /// The frame that carries `msg`.
    pub fn from_msg(msg: &dyn Command) -> (f: Self)
        ensures
            f.carries(msg.spec_type(), msg.spec_bytes()),
    {
        let info_func = msg.cmd_type().code();
        let mut data = [0u8; 100];
        let ghost zero = data@;
        assert(zero =~= zeros(100));
        let sz = msg.fill_data(&mut data);
        let f = Self {
            frame_head: FRAME_HEAD,
            info_func,
            packet_len: sz as u32,
            frame_tale: FRAME_TALE,
            data,
        };
        assert(f.data@ =~= msg.spec_bytes() + zeros((FRAME_DATA_LEN - sz) as nat));
        f
    }

    /// The message that the frame carries.
    pub fn get_cmd(&self) -> (r: CmdEnum)
        requires
            CmdType::spec_from_u8(self.info_func) != CmdType::Unknown,
        ensures
            self.decodes_to(r),
    {
        let d = self.data.as_slice();
        match CmdType::from_u8(self.info_func) {
            CmdType::DoubleBoardSet => {
                let mut x = DoubleBoard::default();
                proof {
                    lemma_wire_len(CmdEnum::DoubleBoard(x));
                }
                x.from_data(d);
                proof {
                    lemma_wire_len(CmdEnum::DoubleBoard(x));
                }
                CmdEnum::DoubleBoard(x)
            },
            CmdType::FiveBoardSet => {
                let mut x = FiveBoard::default();
                proof {
                    lemma_wire_len(CmdEnum::FiveBoard(x));
                }
                x.from_data(d);
                proof {
                    lemma_wire_len(CmdEnum::FiveBoard(x));
                }
                CmdEnum::FiveBoard(x)
            },
            CmdType::ModeFor40GB => {
                let mut x = GB40::default();
                proof {
                    lemma_wire_len(CmdEnum::GB40(x));
                }
                x.from_data(d);
                proof {
                    lemma_wire_len(CmdEnum::GB40(x));
                }
                CmdEnum::GB40(x)
            },
            CmdType::QueryDataStatus => {
                let mut x = DataStatus::default();
                proof {
                    lemma_wire_len(CmdEnum::DataStatus(x));
                }
                x.from_data(d);
                proof {
                    lemma_wire_len(CmdEnum::DataStatus(x));
                }
                CmdEnum::DataStatus(x)
            },
            CmdType::QueryHealthInfo => {
                let mut x = HealthInfo::default();
                proof {
                    lemma_wire_len(CmdEnum::HealthInfo(x));
                }
                x.from_data(d);
                proof {
                    lemma_wire_len(CmdEnum::HealthInfo(x));
                }
                CmdEnum::HealthInfo(x)
            },
            CmdType::QuerySelfCheckStatus => {
                let mut x = SelfCheckStatus::default();
                proof {
                    lemma_wire_len(CmdEnum::SelfCheckStatus(x));
                }
                x.from_data(d);
                proof {
                    lemma_wire_len(CmdEnum::SelfCheckStatus(x));
                }
                CmdEnum::SelfCheckStatus(x)
            },
            CmdType::QueryWorkMode => {
                let mut x = WorkMode::default();
                proof {
                    lemma_wire_len(CmdEnum::WorkMode(x));
                }
                x.from_data(d);
                proof {
                    lemma_wire_len(CmdEnum::WorkMode(x));
                }
                CmdEnum::WorkMode(x)
            },
            CmdType::ReferenceSet => {
                let mut x = Reference::default();
                proof {
                    lemma_wire_len(CmdEnum::Reference(x));
                }
                x.from_data(d);
                proof {
                    lemma_wire_len(CmdEnum::Reference(x));
                }
                CmdEnum::Reference(x)
            },
            CmdType::ShutDownNow => {
                let mut x = Shutdown::default();
                proof {
                    lemma_wire_len(CmdEnum::Shutdown(x));
                }
                x.from_data(d);
                proof {
                    lemma_wire_len(CmdEnum::Shutdown(x));
                }
                CmdEnum::Shutdown(x)
            },
            CmdType::SingleBoardSet => {
                let mut x = SingleBoard::default();
                proof {
                    lemma_wire_len(CmdEnum::SingleBoard(x));
                }
                x.from_data(d);
                proof {
                    lemma_wire_len(CmdEnum::SingleBoard(x));
                }
                CmdEnum::SingleBoard(x)
            },
            CmdType::Stop => {
                let mut x = Stop::default();
                proof {
                    lemma_wire_len(CmdEnum::Stop(x));
                }
                x.from_data(d);
                proof {
                    lemma_wire_len(CmdEnum::Stop(x));
                }
                CmdEnum::Stop(x)
            },
            CmdType::TriggerSet => {
                let mut x = Trigger::default();
                proof {
                    lemma_wire_len(CmdEnum::Trigger(x));
                }
                x.from_data(d);
                proof {
                    lemma_wire_len(CmdEnum::Trigger(x));
                }
                CmdEnum::Trigger(x)
            },
            CmdType::Unknown => {
                proof {
                    assert(false);
                }
                CmdEnum::Stop(Stop::default())
            },
        }
    }

    /// The packed layout of the frame.
    pub fn pack(&self) -> (r: [u8; 113])
        ensures
            r@ == self.spec_bytes(),
    {
        let mut b: Vec<u8> = Vec::new();
        push_u32(&mut b, self.frame_head);
        b.push(self.info_func);
        push_u32(&mut b, self.packet_len);
        push_u32(&mut b, self.frame_tale);
        push_bytes(&mut b, self.data.as_slice());
        assert(b@ =~= self.spec_bytes());
        let mut out = [0u8; 113];
        copy_to_front(&mut out, &b);
        assert(out@ =~= self.spec_bytes());
        out
    }

    /// The frame whose packed layout is `src`; an error when `src` does not
    /// have the length of a packed frame.
    pub fn unpack_from_slice(src: &[u8]) -> (r: Result<Self, PackingError>)
        ensures
            match r {
                Ok(f) => src@.len() == FRAME_LEN && f.spec_bytes() == src@,
                Err(e) => src@.len() != FRAME_LEN && e == (PackingError::BufferSizeMismatch {
                    expected: FRAME_LEN,
                    actual: src@.len() as usize,
                }),
            },
    {
        if src.len() != FRAME_LEN {
            return Err(PackingError::BufferSizeMismatch { expected: FRAME_LEN, actual: src.len() });
        }
        let frame_head = read_u32(src, 0);
        let info_func = src[4];
        let packet_len = read_u32(src, 5);
        let frame_tale = read_u32(src, 9);
        let data: [u8; 100] = read_byte_array(src, 13);
        let f = CommandFrame { frame_head, info_func, packet_len, frame_tale, data };
        assert(f.spec_bytes() =~= src@);
        Ok(f)
    }
}

impl Default for CommandFrame {
    fn default() -> (r: Self)
        ensures
            r.frame_head == FRAME_HEAD,
            r.info_func == 0,
            r.packet_len == 0,
            r.frame_tale == FRAME_TALE,
            r.data@ == zeros(100),
    {
        let r = CommandFrame {
            frame_head: FRAME_HEAD,
            info_func: 0,
            packet_len: 0,
            frame_tale: FRAME_TALE,
            data: [0u8; 100],
        };
        assert(r.data@ =~= zeros(100));
        r
    }
}

/// Every message has the length that its type gives it on the wire, and
/// fits in a frame.
pub proof fn lemma_wire_len(m: CmdEnum)
    ensures
        m.spec_bytes().len() == m.spec_type().wire_len(),
        m.spec_type().wire_len() <= FRAME_DATA_LEN,
        m.spec_type() != CmdType::Unknown,
{
    match m {
        CmdEnum::HealthInfo(a) => lemma_le32s_len(a.temperature@),
        CmdEnum::DataStatus(a) => lemma_le32s_len(a.sta@),
        _ => {},
    }
}

/// The wire number of every known type names that type again.
pub proof fn lemma_code_round_trip(t: CmdType)
    requires
        t != CmdType::Unknown,
    ensures
        CmdType::spec_from_u8(t.spec_code()) == t,
{
}

/// Exactly the numbers 1 to 12 name a known type, and a known type's
/// number is the number that named it.
pub proof fn lemma_from_u8_known(x: u8)
    ensures
        (CmdType::spec_from_u8(x) != CmdType::Unknown) == (1 <= x <= 12),
        CmdType::spec_from_u8(x) != CmdType::Unknown ==> CmdType::spec_from_u8(x).spec_code()
            == x,
{
}

proof fn lemma_u8_array_eq<const N: usize>(a: [u8; N], b: [u8; N])
    requires
        a@ == b@,
    ensures
        a == b,
{
    broadcast use vstd::array::group_array_axioms;

    assert(a =~= b);
}

proof fn lemma_u32_array_eq<const N: usize>(a: [u32; N], b: [u32; N])
    requires
        le32s(a@) == le32s(b@),
    ensures
        a == b,
{
    broadcast use vstd::array::group_array_axioms;

    lemma_le32s_injective(a@, b@);
    assert(a =~= b);
}

proof fn lemma_le32_eq(x: u32, y: u32)
    requires
        le32(x) == le32(y),
    ensures
        x == y,
{
    lemma_le32(x);
    lemma_le32(y);
}

proof fn lemma_le16_eq(x: u16, y: u16)
    requires
        le16(x) == le16(y),
    ensures
        x == y,
{
    lemma_le16(x);
    lemma_le16(y);
}

proof fn lemma_endpoint_eq(ip1: [u8; 4], p1: u16, ip2: [u8; 4], p2: u16)
    requires
        endpoint(ip1, p1) == endpoint(ip2, p2),
    ensures
        ip1 == ip2,
        p1 == p2,
{
    let e1 = endpoint(ip1, p1);
    let e2 = endpoint(ip2, p2);
    assert(e1.subrange(0, 4) =~= ip1@);
    assert(e2.subrange(0, 4) =~= ip2@);
    assert(e1.subrange(4, 6) =~= le16(p1));
    assert(e2.subrange(4, 6) =~= le16(p2));
    lemma_u8_array_eq(ip1, ip2);
    lemma_le16_eq(p1, p2);
}

proof fn lemma_gb40_eq(a: GB40, b: GB40)
    requires
        a.spec_bytes() == b.spec_bytes(),
    ensures
        a == b,
{
    let x = a.spec_bytes();
    let y = b.spec_bytes();
    assert(x.subrange(0, 8) =~= a.spec_boards());
    assert(y.subrange(0, 8) =~= b.spec_boards());
    assert(a.spec_boards()[0] == b.spec_boards()[0]);
    assert(a.spec_boards()[1] == b.spec_boards()[1]);
    assert(a.spec_boards()[2] == b.spec_boards()[2]);
    assert(a.spec_boards()[3] == b.spec_boards()[3]);
    assert(a.spec_boards()[4] == b.spec_boards()[4]);
    assert(a.spec_boards()[5] == b.spec_boards()[5]);
    assert(a.spec_boards()[6] == b.spec_boards()[6]);
    assert(a.spec_boards()[7] == b.spec_boards()[7]);
    assert(x.subrange(8, 14) =~= endpoint(a.local_ip1, a.local_port1));
    assert(y.subrange(8, 14) =~= endpoint(b.local_ip1, b.local_port1));
    lemma_endpoint_eq(a.local_ip1, a.local_port1, b.local_ip1, b.local_port1);
    assert(x.subrange(14, 20) =~= endpoint(a.local_ip2, a.local_port2));
    assert(y.subrange(14, 20) =~= endpoint(b.local_ip2, b.local_port2));
    lemma_endpoint_eq(a.local_ip2, a.local_port2, b.local_ip2, b.local_port2);
    assert(x.subrange(20, 26) =~= endpoint(a.local_ip3, a.local_port3));
    assert(y.subrange(20, 26) =~= endpoint(b.local_ip3, b.local_port3));
    lemma_endpoint_eq(a.local_ip3, a.local_port3, b.local_ip3, b.local_port3);
    assert(x.subrange(26, 32) =~= endpoint(a.local_ip4, a.local_port4));
    assert(y.subrange(26, 32) =~= endpoint(b.local_ip4, b.local_port4));
    lemma_endpoint_eq(a.local_ip4, a.local_port4, b.local_ip4, b.local_port4);
    assert(x.subrange(32, 38) =~= endpoint(a.optical_ip1, a.optical_port1));
    assert(y.subrange(32, 38) =~= endpoint(b.optical_ip1, b.optical_port1));
    lemma_endpoint_eq(a.optical_ip1, a.optical_port1, b.optical_ip1, b.optical_port1);
    assert(x.subrange(38, 44) =~= endpoint(a.optical_ip2, a.optical_port2));
    assert(y.subrange(38, 44) =~= endpoint(b.optical_ip2, b.optical_port2));
    lemma_endpoint_eq(a.optical_ip2, a.optical_port2, b.optical_ip2, b.optical_port2);
    assert(x.subrange(44, 50) =~= endpoint(a.optical_ip3, a.optical_port3));
    assert(y.subrange(44, 50) =~= endpoint(b.optical_ip3, b.optical_port3));
    lemma_endpoint_eq(a.optical_ip3, a.optical_port3, b.optical_ip3, b.optical_port3);
    assert(x.subrange(50, 56) =~= endpoint(a.optical_ip4, a.optical_port4));
    assert(y.subrange(50, 56) =~= endpoint(b.optical_ip4, b.optical_port4));
    lemma_endpoint_eq(a.optical_ip4, a.optical_port4, b.optical_ip4, b.optical_port4);
}

/// Two messages of one type with the same wire layout are the same
/// message: reading back what was written gives the message that was
/// written.
pub proof fn lemma_bytes_injective(a: CmdEnum, b: CmdEnum)
    requires
        a.spec_type() == b.spec_type(),
        a.spec_bytes() == b.spec_bytes(),
    ensures
        a == b,
{
    let x = a.spec_bytes();
    let y = b.spec_bytes();
    match (a, b) {
        (CmdEnum::SingleBoard(p), CmdEnum::SingleBoard(q)) => {
            assert(x[0] == p.board_num && y[0] == q.board_num);
            assert(x.subrange(1, 5) =~= le32(p.resolution));
            assert(y.subrange(1, 5) =~= le32(q.resolution));
            lemma_le32_eq(p.resolution, q.resolution);
        },
        (CmdEnum::DoubleBoard(p), CmdEnum::DoubleBoard(q)) => {
            assert(x[0] == p.board_num1 && y[0] == q.board_num1);
            assert(x[1] == p.board_num2 && y[1] == q.board_num2);
            assert(x.subrange(2, 6) =~= le32(p.resolution));
            assert(y.subrange(2, 6) =~= le32(q.resolution));
            lemma_le32_eq(p.resolution, q.resolution);
        },
        (CmdEnum::FiveBoard(p), CmdEnum::FiveBoard(q)) => {
            lemma_le32_eq(p.resolution, q.resolution);
        },
        (CmdEnum::SelfCheckStatus(p), CmdEnum::SelfCheckStatus(q)) => {
            assert(x.subrange(0, 20) =~= p.self_check_vu9p1@);
            assert(y.subrange(0, 20) =~= q.self_check_vu9p1@);
            assert(x.subrange(20, 40) =~= p.self_check_vu9p2@);
            assert(y.subrange(20, 40) =~= q.self_check_vu9p2@);
            assert(x.subrange(40, 50) =~= p.self_check_k7@);
            assert(y.subrange(40, 50) =~= q.self_check_k7@);
            lemma_u8_array_eq(p.self_check_vu9p1, q.self_check_vu9p1);
            lemma_u8_array_eq(p.self_check_vu9p2, q.self_check_vu9p2);
            lemma_u8_array_eq(p.self_check_k7, q.self_check_k7);
        },
        (CmdEnum::HealthInfo(p), CmdEnum::HealthInfo(q)) => {
            lemma_u32_array_eq(p.temperature, q.temperature);
        },
        (CmdEnum::GB40(p), CmdEnum::GB40(q)) => {
            lemma_gb40_eq(p, q);
        },
        (CmdEnum::Trigger(p), CmdEnum::Trigger(q)) => {
            assert(x[0] == p.trigger_value && y[0] == q.trigger_value);
        },
        (CmdEnum::Reference(p), CmdEnum::Reference(q)) => {
            assert(x[0] == p.reference_value && y[0] == q.reference_value);
        },
        (CmdEnum::WorkMode(p), CmdEnum::WorkMode(q)) => {
            lemma_le32_eq(p.mode, q.mode);
        },
        (CmdEnum::DataStatus(p), CmdEnum::DataStatus(q)) => {
            lemma_u32_array_eq(p.sta, q.sta);
        },
        (CmdEnum::Shutdown(p), CmdEnum::Shutdown(q)) => {
            assert(x[0] == p._x && y[0] == q._x);
        },
        (CmdEnum::Stop(p), CmdEnum::Stop(q)) => {
            assert(x[0] == p._x && y[0] == q._x);
        },
        _ => {},
    }
}

/// Filling a buffer with a message and reading a message of the same type
/// back from that buffer gives the message that was written, whatever the
/// buffer held before.
pub proof fn lemma_fill_then_read(m: CmdEnum, old_d: Seq<u8>, d: Seq<u8>, r: CmdEnum)
    requires
        m.spec_bytes().len() <= old_d.len(),
        d == m.spec_bytes() + old_d.skip(m.spec_bytes().len() as int),
        r.spec_type() == m.spec_type(),
        r.spec_bytes() == d.take(m.spec_bytes().len() as int),
    ensures
        r == m,
{
    assert(d.take(m.spec_bytes().len() as int) =~= m.spec_bytes());
    lemma_bytes_injective(m, r);
}

/// A frame built from a message names a known type, and the message read
/// back from that frame is the message that was sent.
pub proof fn lemma_frame_round_trip(m: CmdEnum, f: CommandFrame, r: CmdEnum)
    requires
        f.carries(m.spec_type(), m.spec_bytes()),
        f.decodes_to(r),
    ensures
        CmdType::spec_from_u8(f.info_func) != CmdType::Unknown,
        r == m,
{
    lemma_wire_len(m);
    lemma_wire_len(r);
    assert(r.spec_type() == m.spec_type());
    assert(f.data@.take(m.spec_bytes().len() as int) =~= m.spec_bytes());
    lemma_bytes_injective(m, r);
}

/// A frame built from a message can be decoded.
pub proof fn lemma_frame_decodable(m: CmdEnum, f: CommandFrame)
    requires
        f.carries(m.spec_type(), m.spec_bytes()),
    ensures
        CmdType::spec_from_u8(f.info_func) != CmdType::Unknown,
{
    lemma_wire_len(m);
}

/// Packed frames are 113 bytes long, and two frames with the same packed
/// layout are the same frame: unpacking a packed frame gives it back.
pub proof fn lemma_frame_bytes_injective(f: CommandFrame, g: CommandFrame)
    requires
        f.spec_bytes() == g.spec_bytes(),
    ensures
        f.spec_bytes().len() == FRAME_LEN,
        f == g,
{
    let x = f.spec_bytes();
    let y = g.spec_bytes();
    assert(x.subrange(0, 4) =~= le32(f.frame_head));
    assert(y.subrange(0, 4) =~= le32(g.frame_head));
    lemma_le32_eq(f.frame_head, g.frame_head);
    assert(x[4] == f.info_func && y[4] == g.info_func);
    assert(x.subrange(5, 9) =~= le32(f.packet_len));
    assert(y.subrange(5, 9) =~= le32(g.packet_len));
    lemma_le32_eq(f.packet_len, g.packet_len);
    assert(x.subrange(9, 13) =~= le32(f.frame_tale));
    assert(y.subrange(9, 13) =~= le32(g.frame_tale));
    lemma_le32_eq(f.frame_tale, g.frame_tale);
    assert(x.subrange(13, 113) =~= f.data@);
    assert(y.subrange(13, 113) =~= g.data@);
    lemma_u8_array_eq(f.data, g.data);
}

/// A [`CmdEnum`] is the message it holds: it has that message's type,
/// wire layout and text; and converting a message to a [`CmdEnum`] keeps its
/// type, wire layout and text.
pub proof fn lemma_enum_is_its_message(m: CmdEnum)
    ensures
        match m {
            CmdEnum::SingleBoard(a) => {
                &&& m.spec_type() == a.spec_type()
                &&& m.spec_bytes() == a.spec_bytes()
                &&& m.spec_text() == a.spec_text()
                &&& a.spec_enum().spec_type() == a.spec_type()
                &&& a.spec_enum().spec_bytes() == a.spec_bytes()
                &&& a.spec_enum().spec_text() == a.spec_text()
            },
            CmdEnum::DoubleBoard(a) => {
                &&& m.spec_type() == a.spec_type()
                &&& m.spec_bytes() == a.spec_bytes()
                &&& m.spec_text() == a.spec_text()
                &&& a.spec_enum().spec_type() == a.spec_type()
                &&& a.spec_enum().spec_bytes() == a.spec_bytes()
                &&& a.spec_enum().spec_text() == a.spec_text()
            },
            CmdEnum::FiveBoard(a) => {
                &&& m.spec_type() == a.spec_type()
                &&& m.spec_bytes() == a.spec_bytes()
                &&& m.spec_text() == a.spec_text()
                &&& a.spec_enum().spec_type() == a.spec_type()
                &&& a.spec_enum().spec_bytes() == a.spec_bytes()
                &&& a.spec_enum().spec_text() == a.spec_text()
            },
            CmdEnum::SelfCheckStatus(a) => {
                &&& m.spec_type() == a.spec_type()
                &&& m.spec_bytes() == a.spec_bytes()
                &&& m.spec_text() == a.spec_text()
                &&& a.spec_enum().spec_type() == a.spec_type()
                &&& a.spec_enum().spec_bytes() == a.spec_bytes()
                &&& a.spec_enum().spec_text() == a.spec_text()
            },
            CmdEnum::HealthInfo(a) => {
                &&& m.spec_type() == a.spec_type()
                &&& m.spec_bytes() == a.spec_bytes()
                &&& m.spec_text() == a.spec_text()
                &&& a.spec_enum().spec_type() == a.spec_type()
                &&& a.spec_enum().spec_bytes() == a.spec_bytes()
                &&& a.spec_enum().spec_text() == a.spec_text()
            },
            CmdEnum::GB40(a) => {
                &&& m.spec_type() == a.spec_type()
                &&& m.spec_bytes() == a.spec_bytes()
                &&& m.spec_text() == a.spec_text()
                &&& a.spec_enum().spec_type() == a.spec_type()
                &&& a.spec_enum().spec_bytes() == a.spec_bytes()
                &&& a.spec_enum().spec_text() == a.spec_text()
            },
            CmdEnum::Trigger(a) => {
                &&& m.spec_type() == a.spec_type()
                &&& m.spec_bytes() == a.spec_bytes()
                &&& m.spec_text() == a.spec_text()
                &&& a.spec_enum().spec_type() == a.spec_type()
                &&& a.spec_enum().spec_bytes() == a.spec_bytes()
                &&& a.spec_enum().spec_text() == a.spec_text()
            },
            CmdEnum::Reference(a) => {
                &&& m.spec_type() == a.spec_type()
                &&& m.spec_bytes() == a.spec_bytes()
                &&& m.spec_text() == a.spec_text()
                &&& a.spec_enum().spec_type() == a.spec_type()
                &&& a.spec_enum().spec_bytes() == a.spec_bytes()
                &&& a.spec_enum().spec_text() == a.spec_text()
            },
            CmdEnum::WorkMode(a) => {
                &&& m.spec_type() == a.spec_type()
                &&& m.spec_bytes() == a.spec_bytes()
                &&& m.spec_text() == a.spec_text()
                &&& a.spec_enum().spec_type() == a.spec_type()
                &&& a.spec_enum().spec_bytes() == a.spec_bytes()
                &&& a.spec_enum().spec_text() == a.spec_text()
            },
            CmdEnum::DataStatus(a) => {
                &&& m.spec_type() == a.spec_type()
                &&& m.spec_bytes() == a.spec_bytes()
                &&& m.spec_text() == a.spec_text()
                &&& a.spec_enum().spec_type() == a.spec_type()
                &&& a.spec_enum().spec_bytes() == a.spec_bytes()
                &&& a.spec_enum().spec_text() == a.spec_text()
            },
            CmdEnum::Shutdown(a) => {
                &&& m.spec_type() == a.spec_type()
                &&& m.spec_bytes() == a.spec_bytes()
                &&& m.spec_text() == a.spec_text()
                &&& a.spec_enum().spec_type() == a.spec_type()
                &&& a.spec_enum().spec_bytes() == a.spec_bytes()
                &&& a.spec_enum().spec_text() == a.spec_text()
            },
            CmdEnum::Stop(a) => {
                &&& m.spec_type() == a.spec_type()
                &&& m.spec_bytes() == a.spec_bytes()
                &&& m.spec_text() == a.spec_text()
                &&& a.spec_enum().spec_type() == a.spec_type()
                &&& a.spec_enum().spec_bytes() == a.spec_bytes()
                &&& a.spec_enum().spec_text() == a.spec_text()
            },
        },
{
}

/// Converting a message to a [`CmdEnum`] keeps its type, its wire layout
/// and its text, so the enum holds that very message.
pub proof fn lemma_to_enum_keeps_message(m: CmdEnum, e: CmdEnum)
    requires
        e.spec_type() == m.spec_type(),
        e.spec_bytes() == m.spec_bytes(),
    ensures
        e == m,
{
    lemma_bytes_injective(m, e);
}

/// Every message type has its own wire number: messages of different
/// types are never taken for one another.
pub proof fn lemma_types_distinct(a: CmdType, b: CmdType)
    requires
        a != b,
    ensures
        a.spec_code() != b.spec_code(),
{
}

} // verus!
