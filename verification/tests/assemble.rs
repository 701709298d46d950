use newdaq::assemble::{Assembler, Flush, BUF_LEN};
use newdaq::{MetaData, NCORR};

fn header(bid1: u8, pid1: u8, bid2: u8, pid2: u8, pcnt: u8, gcnt: u32, fcnt: u32) -> MetaData {
    let mut b = vec![0_u8; 32];
    b[16] = bid1;
    b[17] = pid1;
    b[18] = bid2;
    b[19] = pid2;
    b[20] = pcnt;
    b[24..28].copy_from_slice(&gcnt.to_le_bytes());
    b[28..32].copy_from_slice(&fcnt.to_le_bytes());
    MetaData::from_raw(&b)
}

#[test]
fn first_packet_after_start() {
    let mut a = Assembler::new();
    assert_eq!(a.corr_prod.len(), NCORR);
    // the counter before any packet is 0, so a first packet with gcnt 1 follows it
    let m = header(0, 1, 0, 2, 1, 1, 0);
    let arr = a.arrive(&m, false);
    assert_eq!(arr.gap, None);
    assert_eq!(arr.flush, None);
    assert!(!arr.misaligned);
    let p = a.place(&m).unwrap();
    assert_eq!(p.offset, 1024);
    assert!(!p.conjugate);
    assert!(!p.cross_board);
    assert_eq!(a.corr_prod[0], (1, 2));
    assert_eq!(a.last_meta_data.gcnt, 1);
}

#[test]
fn lost_packet_marks_integration() {
    let mut a = Assembler::new();
    let m = header(0, 0, 0, 0, 3, 10, 5);
    let arr = a.arrive(&m, false);
    // reported as gcnt - last + 1
    assert_eq!(arr.gap, Some(11));
    assert!(a.dropped);
    a.place(&m).unwrap();
    // the integration that the next opening packet closes is discarded
    let m = header(0, 0, 0, 0, 0, 820, 0);
    let arr = a.arrive(&m, false);
    assert_eq!(arr.flush, Some(Flush::SkipDropped));
    assert!(!a.dropped);
    assert!(!arr.misaligned);
}

#[test]
fn clean_integration_is_written() {
    let mut a = Assembler::new();
    a.last_meta_data = header(0, 0, 0, 0, 0, 1639, 0);
    let m = header(0, 0, 0, 0, 0, 1640, 0);
    let arr = a.arrive(&m, false);
    assert_eq!(arr.gap, None);
    assert_eq!(arr.flush, Some(Flush::Write));
    assert!(!arr.misaligned);
    let mut b = Assembler::new();
    b.last_meta_data = header(0, 0, 0, 0, 0, 1639, 0);
    assert_eq!(b.arrive(&m, true).flush, Some(Flush::SkipDryRun));
}

#[test]
fn misaligned_start() {
    let mut a = Assembler::new();
    a.last_meta_data = header(0, 0, 0, 0, 0, 99, 0);
    let arr = a.arrive(&header(0, 0, 0, 0, 0, 100, 0), false);
    assert!(arr.misaligned);
}

#[test]
fn wrapping_counter() {
    let mut a = Assembler::new();
    a.last_meta_data = header(0, 0, 0, 0, 0, u32::MAX, 0);
    assert_eq!(a.arrive(&header(0, 0, 0, 0, 1, 0, 0), false).gap, None);
    let mut a = Assembler::new();
    a.last_meta_data = header(0, 0, 0, 0, 0, 5, 0);
    assert_eq!(a.arrive(&header(0, 0, 0, 0, 1, 2, 0), false).gap, Some(u32::MAX - 1));
}

#[test]
fn conjugated_product() {
    let mut a = Assembler::new();
    let m = header(2, 3, 1, 7, 7, 1, 819);
    a.arrive(&m, false);
    let p = a.place(&m).unwrap();
    assert_eq!(p.offset, 819 * 8192 + 7 * 1024);
    assert_eq!(p.offset + 1024, BUF_LEN);
    assert!(p.conjugate);
    assert!(p.cross_board);
    assert_eq!(a.corr_prod[819], (15, 19));
}

#[test]
fn packet_outside_buffer() {
    let mut a = Assembler::new();
    let m = header(0, 0, 0, 0, 8, 1, 819);
    assert_eq!(a.place(&m), None);
    let m = header(0, 0, 0, 0, 0, 1, 820);
    assert_eq!(a.place(&m), None);
    assert!(a.corr_prod.iter().all(|&p| p == (0, 0)));
    assert_eq!(a.last_meta_data.fcnt, 820);
}
