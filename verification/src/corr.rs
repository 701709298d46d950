//! Lookup of correlation products for display: which product of the
//! integration holds the correlation of two antennas, where its channels
//! lie, and how the overview grid is laid out.
use crate::{NANTS, NCH, NCORR};
use vstd::prelude::*;

verus! {

/// One line of the product table: product `nb` correlates antennas `a1`
/// and `a2`.
#[derive(Debug, Clone, Copy, PartialEq, Eq, Structural)]
pub struct CpRecord {
    pub nb: usize,
    pub a1: usize,
    pub a2: usize,
}

/// The product table as a map from antenna pair to product; of several
/// lines for one pair, the last one counts.
pub struct CorrProdMap {
    pub records: Vec<CpRecord>,
}

/// The product that the last line for `(a1, a2)` among `r` names.
pub open spec fn last_product(r: Seq<CpRecord>, a1: usize, a2: usize) -> Option<usize>
    decreases r.len(),
{
    if r.len() == 0 {
        None
    } else if r.last().a1 == a1 && r.last().a2 == a2 {
        Some(r.last().nb)
    } else {
        last_product(r.drop_last(), a1, a2)
    }
}

impl CorrProdMap {
    /// The map of the lines `records`.
    pub fn from_records(records: Vec<CpRecord>) -> (m: Self)
        ensures
            m.records@ == records@,
    {
        CorrProdMap { records }
    }

    /// The product of the pair `(a1, a2)`, taken in this order.
    pub fn get(&self, a1: usize, a2: usize) -> (r: Option<usize>)
        ensures
            r == last_product(self.records@, a1, a2),
    {
        let mut i = self.records.len();
        assert(self.records@.take(i as int) =~= self.records@);
        while i > 0
            invariant
                i <= self.records@.len(),
                last_product(self.records@, a1, a2) == last_product(
                    self.records@.take(i as int),
                    a1,
                    a2,
                ),
            decreases i,
        {
            let rec = self.records[i - 1];
            assert(self.records@.take(i as int).drop_last() =~= self.records@.take(i - 1));
            if rec.a1 == a1 && rec.a2 == a2 {
                return Some(rec.nb);
            }
            i = i - 1;
        }
        None
    }

    /// The product that correlates antennas `a1` and `a2`, whichever
    /// order they are given in: the table lists each pair lower antenna
    /// first.
    pub fn spec_id(&self, a1: usize, a2: usize) -> (r: Option<usize>)
        ensures
            r == (if a2 >= a1 {
                last_product(self.records@, a1, a2)
            } else {
                last_product(self.records@, a2, a1)
            }),
    {
        if a2 >= a1 {
            self.get(a1, a2)
        } else {
            self.get(a2, a1)
        }
    }
}

/// The antenna number of the station called `name`: its place in the
/// station list; of several stations with that name, the last one counts.
pub fn station_index(stations: &Vec<String>, name: &String) -> (r: Option<usize>)
    ensures
        match r {
            Some(i) => i < stations@.len() && stations@[i as int]@ == name@ && forall|j: int|
                i < j < stations@.len() ==> stations@[j]@ != name@,
            None => forall|j: int| 0 <= j < stations@.len() ==> stations@[j]@ != name@,
        },
{
    let mut i = stations.len();
    while i > 0
        invariant
            i <= stations@.len(),
            forall|j: int| i <= j < stations@.len() ==> stations@[j]@ != name@,
        decreases i,
    {
        if stations[i - 1].eq(name) {
            return Some(i - 1);
        }
        i = i - 1;
    }
    None
}

/// The range of the integration buffer that holds the channels of product
/// `spec_id`.
pub fn spectrum_range(spec_id: usize) -> (r: (usize, usize))
    requires
        spec_id < NCORR,
    ensures
        r.0 == spec_id * NCH,
        r.1 == (spec_id + 1) * NCH,
{
    (spec_id * NCH, (spec_id + 1) * NCH)
}

/// A panel of the overview grid: the product of antennas `row` and `col`,
/// its amplitude or its phase.
#[derive(Debug, Clone, Copy, PartialEq, Eq, Structural)]
pub struct GridCell {
    pub row: usize,
    pub col: usize,
    pub amplitude: bool,
}

/// The panel at position `n` of the overview grid of `2 * NANTS` rows and
/// `NANTS` columns, filled row by row: each antenna pair `row <= col` has
/// its amplitude in grid row `2 * row` and its phase in the row below;
/// `None` for the panels left empty.
pub fn grid_cell(n: usize) -> (r: Option<GridCell>)
    ensures
        ({
            let i = n / NANTS;
            let j = n % NANTS;
            if i / 2 > j {
                r is None
            } else {
                r == Some(GridCell { row: i / 2, col: j, amplitude: i % 2 == 0 })
            }
        }),
{
    let i = n / NANTS;
    let j = n % NANTS;
    if i / 2 > j {
        None
    } else {
        Some(GridCell { row: i / 2, col: j, amplitude: i % 2 == 0 })
    }
}

} // verus!
