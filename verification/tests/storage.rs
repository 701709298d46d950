use newdaq::storage::Day;
use newdaq::StorageMgr;
use std::path::PathBuf;

fn day(d: u32) -> Day {
    Day { year: 2023, month: 5, day: d }
}

#[test]
fn first_request_chooses() {
    let pool = vec![PathBuf::from("/mnt/a"), PathBuf::from("/mnt/b"), PathBuf::from("/mnt/c")];
    let mut s = StorageMgr::new(pool, 300, day(1));
    assert!(s.lock.is_none());
    assert_eq!(s.gbytes_per_day, 300);
    assert!(s.start_day(day(2)));
    assert!(!s.start_day(day(2)));
    assert!(s.start_day(day(3)));
    assert_eq!(s.out_dir(), &PathBuf::from("/mnt/a"));
}

#[test]
fn rotation() {
    let pool = vec![PathBuf::from("/mnt/a"), PathBuf::from("/mnt/b"), PathBuf::from("/mnt/c")];
    let mut s = StorageMgr::new(pool.clone(), 300, day(1));
    s.next_candidate();
    assert_eq!(s.pool, vec![PathBuf::from("/mnt/b"), PathBuf::from("/mnt/c"), PathBuf::from("/mnt/a")]);
    assert_eq!(s.out_dir(), &PathBuf::from("/mnt/b"));
    s.next_candidate();
    s.next_candidate();
    assert_eq!(s.pool, pool);
}
