use newdaq::{MetaData, RawDataFrame};

#[test]
fn meta_data_fields() {
    let mut b = vec![0_u8; 40];
    for i in 0..16 {
        b[i] = 0xee;
    }
    b[16] = 1;
    b[17] = 2;
    b[18] = 3;
    b[19] = 4;
    b[20] = 5;
    b[24..28].copy_from_slice(&[0x78, 0x56, 0x34, 0x12]);
    b[28..32].copy_from_slice(&[7, 0, 0, 0]);
    let m = MetaData::from_raw(&b);
    assert_eq!((m.bid1, m.pid1, m.bid2, m.pid2, m.pcnt), (1, 2, 3, 4, 5));
    assert_eq!(m.gcnt, 0x12345678);
    assert_eq!(m.fcnt, 7);
}

#[test]
fn meta_data_default() {
    let m = MetaData::default();
    assert_eq!((m.bid1, m.pid1, m.bid2, m.pid2, m.pcnt, m.gcnt, m.fcnt), (0, 0, 0, 0, 0, 0, 0));
}

#[test]
fn raw_frame() {
    let mut b = vec![0_u8; 4104];
    b[0] = 1;
    b[7] = 0x80;
    b[8] = 0x34;
    b[9] = 0x12;
    b[4102] = 0xff;
    b[4103] = 0xff;
    let r = RawDataFrame::from_raw(&b);
    assert_eq!(r.cnt, 0x8000_0000_0000_0001);
    assert_eq!(r.payload[0], 0x1234);
    assert_eq!(r.payload[2047], 0xffff);
    assert_eq!(r.payload[1], 0);
}

#[test]
fn raw_frame_default() {
    let r = RawDataFrame::default();
    assert_eq!(r.cnt, 0);
    assert!(r.payload.iter().all(|&x| x == 0));
}
