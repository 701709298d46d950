//! The choice of the disk that a day's data goes to.
//!
//! The candidate disks form a pool, first candidate first. When a new day
//! starts, the first candidate is checked for room; one without room is
//! moved to the back of the pool and the next one is checked, until one has
//! room. The data of the day goes to the first candidate.
use std::path::PathBuf;
use vstd::prelude::*;

verus! {

#[verifier::external_type_specification]
#[verifier::external_body]
pub struct ExLockfile(lockfile::Lockfile);

/// A calendar day.
#[derive(Debug, Clone, Copy, PartialEq, Eq, Structural)]
pub struct Day {
    pub year: i32,
    pub month: u32,
    pub day: u32,
}

/// The disks that data can be written to, and the day they were last
/// chosen for.
pub struct StorageMgr {
    /// The candidate disks, first candidate first.
    pub pool: Vec<PathBuf>,
    /// The day the first candidate was chosen for.
    pub today: Day,
    /// The data of one day, in GB.
    pub gbytes_per_day: usize,
    /// The lock held on the chosen disk.
    pub lock: Option<lockfile::Lockfile>,
}

impl StorageMgr {
    /// A manager whose last choice was made on `yesterday`, so that the
    /// first request of today chooses a disk.
    pub fn new(pool: Vec<PathBuf>, gbytes_per_day: usize, yesterday: Day) -> (s: Self)
        ensures
            s.pool@ == pool@,
            s.today == yesterday,
            s.gbytes_per_day == gbytes_per_day,
            s.lock is None,
    {
        Self { pool, today: yesterday, gbytes_per_day, lock: None }
    }

    /// Records that `today` has come; true when it is a different day from
    /// the last one, so that a disk must be chosen.
    pub fn start_day(&mut self, today: Day) -> (changed: bool)
        ensures
            changed == (today != old(self).today),
            final(self).today == today,
            final(self).pool@ == old(self).pool@,
            final(self).gbytes_per_day == old(self).gbytes_per_day,
            final(self).lock == old(self).lock,
    {
        let changed = today != self.today;
        self.today = today;
        changed
    }

    /// Moves the first candidate, which has no room, to the back of the
    /// pool.
    pub fn next_candidate(&mut self)
        requires
            old(self).pool@.len() > 0,
        ensures
            final(self).pool@ == old(self).pool@.skip(1).push(old(self).pool@[0]),
            final(self).today == old(self).today,
            final(self).gbytes_per_day == old(self).gbytes_per_day,
            final(self).lock == old(self).lock,
    {
        let first = self.pool.remove(0);
        self.pool.push(first);
        assert(self.pool@ =~= old(self).pool@.skip(1).push(old(self).pool@[0]));
    }

    /// The disk that data goes to: the first candidate.
    pub fn out_dir(&self) -> (d: &PathBuf)
        requires
            self.pool@.len() > 0,
        ensures
            *d == self.pool@[0],
    {
        &self.pool[0]
    }
}

/// Moving the first candidate to the back as many times as there are
/// candidates gives the pool back.
pub proof fn lemma_full_rotation(pool: Seq<PathBuf>)
    ensures
        rotate_n(pool, pool.len()) == pool,
{
    assert forall|n: nat| n <= pool.len() implies #[trigger] rotate_n(pool, n) == pool.skip(
        n as int,
    ) + pool.take(n as int) by {
        lemma_rotate_n(pool, n);
    }
    assert(pool.skip(pool.len() as int) + pool.take(pool.len() as int) =~= pool);
}

/// The pool after moving the first candidate to the back `n` times.
pub open spec fn rotate_n(pool: Seq<PathBuf>, n: nat) -> Seq<PathBuf>
    decreases n,
{
    if n == 0 || pool.len() == 0 {
        pool
    } else {
        let p = rotate_n(pool, (n - 1) as nat);
        p.skip(1).push(p[0])
    }
}

proof fn lemma_rotate_n(pool: Seq<PathBuf>, n: nat)
    requires
        n <= pool.len(),
    ensures
        rotate_n(pool, n) == pool.skip(n as int) + pool.take(n as int),
    decreases n,
{
    if n == 0 {
        assert(pool.skip(0) + pool.take(0) =~= pool);
    } else if pool.len() > 0 {
        lemma_rotate_n(pool, (n - 1) as nat);
        let p = rotate_n(pool, (n - 1) as nat);
        assert(p[0] == pool[n - 1]);
        assert(p.skip(1).push(p[0]) =~= pool.skip(n as int) + pool.take(n as int));
    }
}

} // verus!
