//! Assembly of correlation packets into integrations.
//!
//! The capture loop hands every packet header to an [`Assembler`] twice:
//! [`Assembler::arrive`] decides what the packet means for the integration
//! that is being collected (was a packet lost, does this packet open a new
//! integration, what becomes of the finished one), and after the caller has
//! written or discarded the finished integration, [`Assembler::place`] says
//! where the packet's channels go in the integration buffer and records which
//! pair of ports the correlation product belongs to.
use crate::frame::MetaData;
use crate::wire::zeros;
use crate::{NCH, NCH_PER_PKT, NCORR, NPORT_PER_BD};
use vstd::prelude::*;

verus! {

/// Complex values in the buffer of one integration.
pub const BUF_LEN: usize = NCH * NCORR;

/// What becomes of the integration that a packet closes.
#[derive(Debug, Clone, Copy, PartialEq, Eq, Structural)]
pub enum Flush {
    /// Write it, then clear the buffer.
    Write,
    /// A packet was lost: discard it.
    SkipDropped,
    /// A dry run: discard it.
    SkipDryRun,
}

/// What a packet means for the integration being collected.
#[derive(Debug, Clone, Copy, PartialEq, Eq, Structural)]
pub struct Arrival {
    /// The packet does not follow the previous one; the number reported is
    /// `gcnt - last_gcnt + 1`, wrapping.
    pub gap: Option<u32>,
    /// The packet opens a new integration; what becomes of the finished one.
    pub flush: Option<Flush>,
    /// The packet opens a new integration at a counter that is not a
    /// multiple of the number of products: the capture cannot go on.
    pub misaligned: bool,
}

/// Where the channels of a packet go.
#[derive(Debug, Clone, Copy, PartialEq, Eq, Structural)]
pub struct Placement {
    /// Index of the packet's first channel in the integration buffer.
    pub offset: usize,
    /// The product is stored for the port pair in increasing order, so the
    /// values must be conjugated.
    pub conjugate: bool,
    /// The two signals come from different boards.
    pub cross_board: bool,
}

/// The port that a board and a port number name.
pub open spec fn port_id(bid: u8, pid: u8) -> nat {
    (bid * NPORT_PER_BD + pid) as nat
}

/// The packet is the first of an integration.
pub open spec fn opens_integration(m: MetaData) -> bool {
    m.fcnt == 0 && m.pcnt == 0
}

/// Index in the integration buffer of the packet's first channel.
pub open spec fn channel_offset(m: MetaData) -> int {
    m.fcnt * NCH + m.pcnt * NCH_PER_PKT
}

/// The packet's channels fit in the integration buffer.
pub open spec fn fits(m: MetaData) -> bool {
    channel_offset(m) + NCH_PER_PKT <= BUF_LEN
}

/// The gap that a packet after `last` reports, if it does not follow it.
pub open spec fn spec_gap(last: MetaData, m: MetaData) -> Option<u32> {
    if (last.gcnt + 1) % 0x1_0000_0000 != m.gcnt {
        Some(((m.gcnt - last.gcnt + 1) % 0x1_0000_0000) as u32)
    } else {
        None
    }
}

/// The state of the assembly between packets.
pub struct Assembler {
    /// The header of the previous packet.
    pub last_meta_data: MetaData,
    /// For each product of the integration, the ports it correlates, in
    /// increasing order.
    pub corr_prod: Vec<(usize, usize)>,
    /// A packet of the integration being collected was lost.
    pub dropped: bool,
}

impl Assembler {
    /// One entry per product, each pair in increasing order.
    pub open spec fn wf(&self) -> bool {
        &&& self.corr_prod@.len() == NCORR
        &&& forall|i: int|
            0 <= i < self.corr_prod@.len() ==> (#[trigger] self.corr_prod@[i]).0
                <= self.corr_prod@[i].1
    }

    /// The state before the first packet.
    pub fn new() -> (a: Self)
        ensures
            a.wf(),
            a.last_meta_data.spec_bytes() == zeros(32),
            a.last_meta_data.gcnt == 0,
            a.corr_prod@ == Seq::new(NCORR as nat, |i: int| (0usize, 0usize)),
            !a.dropped,
    {
        let mut corr_prod: Vec<(usize, usize)> = Vec::new();
        let mut i: usize = 0;
        while i < NCORR
            invariant
                i <= NCORR,
                corr_prod@ == Seq::new(i as nat, |j: int| (0usize, 0usize)),
            decreases NCORR - i,
        {
            corr_prod.push((0, 0));
            i = i + 1;
            assert(corr_prod@ =~= Seq::new(i as nat, |j: int| (0usize, 0usize)));
        }
        Assembler { last_meta_data: MetaData::default(), corr_prod, dropped: false }
    }

    /// What the packet with header `m` means for the integration being
    /// collected. A lost packet marks the integration as dropped; a packet
    /// that opens an integration decides the fate of the finished one and
    /// starts the new one clean.
    pub fn arrive(&mut self, m: &MetaData, dry_run: bool) -> (a: Arrival)
        ensures
            a.gap == spec_gap(old(self).last_meta_data, *m),
            a.flush == (if opens_integration(*m) {
                let dropped = old(self).dropped || a.gap is Some;
                Some(
                    if !dropped && !dry_run {
                        Flush::Write
                    } else if dropped && !dry_run {
                        Flush::SkipDropped
                    } else {
                        Flush::SkipDryRun
                    },
                )
            } else {
                None
            }),
            a.misaligned == (opens_integration(*m) && m.gcnt % (NCORR as u32) != 0),
            final(self).dropped == (!opens_integration(*m) && (old(self).dropped || a.gap is Some)),
            final(self).last_meta_data == old(self).last_meta_data,
            final(self).corr_prod == old(self).corr_prod,
            // Only the first packet of the first product opens an integration.
            (a.flush is Some) == (m.fcnt == 0 && m.pcnt == 0),
            m.fcnt != 0 || m.pcnt != 0 ==> a.flush is None && !a.misaligned,
            // A gap is reported exactly when the counter does not follow the
            // previous one, and then the integration is marked dropped.
            (a.gap is None) == (m.gcnt as int == (old(self).last_meta_data.gcnt as int + 1)
                % 0x1_0000_0000),
            a.gap matches Some(g) ==> (old(self).last_meta_data.gcnt as int + g as int)
                % 0x1_0000_0000 == (m.gcnt as int + 1) % 0x1_0000_0000,
            a.gap is Some && !(m.fcnt == 0 && m.pcnt == 0) ==> final(self).dropped,
            a.gap is Some && m.fcnt == 0 && m.pcnt == 0 && !dry_run ==> a.flush == Some(
                Flush::SkipDropped,
            ),
    {
        let last = self.last_meta_data.gcnt;
        let gap = if last.wrapping_add(1) != m.gcnt {
            self.dropped = true;
            Some(m.gcnt.wrapping_sub(last).wrapping_add(1))
        } else {
            None
        };
        let mut flush = None;
        let mut misaligned = false;
        if m.fcnt == 0 && m.pcnt == 0 {
            flush = Some(
                if !self.dropped && !dry_run {
                    Flush::Write
                } else if self.dropped && !dry_run {
                    Flush::SkipDropped
                } else {
                    Flush::SkipDryRun
                },
            );
            misaligned = m.gcnt % (NCORR as u32) != 0;
            self.dropped = false;
        }
        Arrival { gap, flush, misaligned }
    }

    /// Where the channels of the packet with header `m` go, and which ports
    /// its product correlates, recorded in increasing order; `None` when the
    /// channels would fall outside the buffer, which stops the capture.
    /// The packet becomes the previous one.
    pub fn place(&mut self, m: &MetaData) -> (p: Option<Placement>)
        requires
            old(self).wf(),
        ensures
            final(self).wf(),
            final(self).last_meta_data == *m,
            final(self).dropped == old(self).dropped,
            match p {
                Some(p) => {
                    &&& fits(*m)
                    &&& p.offset == channel_offset(*m)
                    &&& p.offset + NCH_PER_PKT <= BUF_LEN
                    &&& p.conjugate == (port_id(m.bid2, m.pid2) < port_id(m.bid1, m.pid1))
                    &&& p.cross_board == (m.bid1 != m.bid2)
                    &&& final(self).corr_prod@ == old(self).corr_prod@.update(
                        m.fcnt as int,
                        if p.conjugate {
                            (port_id(m.bid2, m.pid2) as usize, port_id(m.bid1, m.pid1) as usize)
                        } else {
                            (port_id(m.bid1, m.pid1) as usize, port_id(m.bid2, m.pid2) as usize)
                        },
                    )
                },
                None => !fits(*m) && final(self).corr_prod == old(self).corr_prod,
            },
    {
        let offset = (m.fcnt as u64) * (NCH as u64) + (m.pcnt as u64) * (NCH_PER_PKT as u64);
        let result = if offset + (NCH_PER_PKT as u64) <= (BUF_LEN as u64) {
            let port_id1 = (m.bid1 as usize) * NPORT_PER_BD + (m.pid1 as usize);
            let port_id2 = (m.bid2 as usize) * NPORT_PER_BD + (m.pid2 as usize);
            let fcnt = m.fcnt as usize;
            let conjugate = port_id2 < port_id1;
            let pair = if conjugate {
                (port_id2, port_id1)
            } else {
                (port_id1, port_id2)
            };
            self.corr_prod.set(fcnt, pair);
            Some(Placement { offset: offset as usize, conjugate, cross_board: m.bid1 != m.bid2 })
        } else {
            None
        };
        self.last_meta_data = *m;
        result
    }
}

/// A packet opens an integration exactly when it is the first packet
/// (`pcnt == 0`) of the first product (`fcnt == 0`); every other packet
/// belongs to the integration being collected.
pub proof fn lemma_integration_boundary(m: MetaData)
    ensures
        m.fcnt != 0 ==> !opens_integration(m),
        m.pcnt != 0 ==> !opens_integration(m),
        m.fcnt == 0 && m.pcnt == 0 ==> opens_integration(m),
{
}

/// A packet reports a gap exactly when its counter is not the successor of
/// the previous packet's counter (counting modulo 2^32), and the gap
/// reported is one more than the distance between the two counters.
pub proof fn lemma_gap_detects_loss(last: MetaData, m: MetaData)
    ensures
        spec_gap(last, m) is None <==> m.gcnt as int == (last.gcnt as int + 1) % 0x1_0000_0000,
        spec_gap(last, m) matches Some(g) ==> (last.gcnt as int + g as int) % 0x1_0000_0000 == (
        m.gcnt as int + 1) % 0x1_0000_0000,
{
}

} // verus!
