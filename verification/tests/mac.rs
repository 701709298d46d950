use newdaq::mac::try_str2macarray;
use newdaq::str2macarray;

#[test]
fn mac_six_bytes() {
    assert_eq!(str2macarray("00:1b:21:Ab:CD:ef"), [0x00, 0x1b, 0x21, 0xab, 0xcd, 0xef]);
}

#[test]
fn mac_fewer_pieces() {
    assert_eq!(str2macarray("ff:1"), [0xff, 0x01, 0, 0, 0, 0]);
}

#[test]
fn mac_extra_pieces_ignored() {
    assert_eq!(str2macarray("1:2:3:4:5:6:zz"), [1, 2, 3, 4, 5, 6]);
}

#[test]
fn mac_plus_and_leading_zeros() {
    assert_eq!(str2macarray("+a:00ff:0:0:0:0"), [0x0a, 0xff, 0, 0, 0, 0]);
}

#[test]
fn mac_checked() {
    assert_eq!(try_str2macarray("00:1g:21:ab:cd:ef"), None);
    assert_eq!(try_str2macarray("00::21:ab:cd:ef"), None);
    assert_eq!(try_str2macarray("100:1:2:3:4:5"), None);
    assert_eq!(try_str2macarray("+:1"), None);
    assert_eq!(try_str2macarray("1:2:3:4:5:6:zz"), Some([1, 2, 3, 4, 5, 6]));
    assert_eq!(try_str2macarray("aa:BB"), Some([0xaa, 0xbb, 0, 0, 0, 0]));
}

#[test]
fn mac_text_round_trip() {
    for a in [[0u8, 1, 2, 3, 4, 5], [0xff, 0x10, 0x0f, 0xa0, 0x09, 0x7e], [0; 6]] {
        let lower = format!("{:02x}:{:02x}:{:02x}:{:02x}:{:02x}:{:02x}", a[0], a[1], a[2], a[3], a[4], a[5]);
        let upper = format!("{:02X}:{:02X}:{:02X}:{:02X}:{:02X}:{:02X}", a[0], a[1], a[2], a[3], a[4], a[5]);
        let short = format!("{:x}:{:x}:{:x}:{:x}:{:x}:{:x}", a[0], a[1], a[2], a[3], a[4], a[5]);
        assert_eq!(str2macarray(&lower), a);
        assert_eq!(str2macarray(&upper), a);
        assert_eq!(str2macarray(&short), a);
    }
}
