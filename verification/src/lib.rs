//! Data acquisition for a 40-antenna correlator: the control protocol of the
//! acquisition instrument, the layouts of the frames it streams, and the
//! rules that assemble correlation products and choose where they are stored.
pub mod assemble;
pub mod corr;
pub mod ctrl_msg;
pub mod frame;
pub mod mac;
pub mod storage;
pub mod text;
pub mod wire;

pub use frame::{MetaData, RawDataFrame};
pub use mac::str2macarray;
pub use storage::StorageMgr;

use vstd::prelude::*;

verus! {

/// Frequency channels of a spectrum.
pub const NCH: usize = 8192;

/// Channels carried by one correlation packet.
pub const NCH_PER_PKT: usize = 8192 / 8;

/// Ports on one board.
pub const NPORT_PER_BD: usize = 8;

/// Bytes of a correlation packet: a 32-byte header and 1024 complex
/// single-precision values.
pub const PKT_LEN: usize = 8224;

/// Boards in the instrument.
pub const NBOARD: usize = 5;

/// Antennas.
pub const NANTS: usize = 40;

/// Correlation products: every unordered pair of antennas, each antenna
/// with itself included.
pub const NCORR: usize = NANTS * (NANTS + 1) / 2;

#[verifier::external_type_specification]
#[verifier::external_body]
pub struct ExPathBuf(std::path::PathBuf);

/// The capture configuration.
#[derive(Clone, Debug)]
pub struct Cfg {
    pub dev: String,
    pub out_dir: Vec<std::path::PathBuf>,
    pub gbytes_per_day: usize,
    pub stations: Vec<String>,
}

/// The time of the last message or data, as text.
#[derive(Clone, Debug)]
pub struct TimeStamp {
    pub time: String,
}

impl Default for TimeStamp {
    fn default() -> (r: Self)
        ensures
            r.time@ == Seq::<char>::empty(),
    {
        TimeStamp { time: String::new() }
    }
}

} // verus!
