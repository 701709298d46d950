use newdaq::ctrl_msg::{
    CmdEnum, CmdType, Command, CommandFrame, DataStatus, DoubleBoard, FiveBoard, HealthInfo,
    PackingError, Reference, SelfCheckStatus, Shutdown, SingleBoard, Stop, Trigger, WorkMode, BoardID,
    FRAME_HEAD, FRAME_TALE, GB40,
};

fn sample_gb40() -> GB40 {
    let mut g = GB40::default();
    g.board_num1 = 1;
    g.channel1 = 0;
    g.board_num2 = 1;
    g.channel2 = 0;
    g.board_num3 = 1;
    g.channel3 = 0;
    g.board_num4 = 1;
    g.channel4 = 0;
    g.local_ip1 = [192, 168, 1, 10];
    g.local_port1 = 8888;
    g.local_ip2 = [192, 168, 1, 11];
    g.local_port2 = 8888;
    g.local_ip3 = [192, 168, 1, 12];
    g.local_port3 = 8888;
    g.local_ip4 = [192, 168, 1, 13];
    g.local_port4 = 8888;
    g.optical_ip1 = [192, 168, 1, 20];
    g.optical_port1 = 8888;
    g.optical_ip2 = [192, 168, 1, 20];
    g.optical_port2 = 8888;
    g.optical_ip3 = [192, 168, 1, 20];
    g.optical_port3 = 8888;
    g.optical_ip4 = [192, 168, 1, 20];
    g.optical_port4 = 8889;
    g
}

fn all_messages() -> Vec<CmdEnum> {
    let mut sc = SelfCheckStatus::default();
    for i in 0..20 {
        sc.self_check_vu9p1[i] = i as u8;
        sc.self_check_vu9p2[i] = 100 + i as u8;
    }
    for i in 0..10 {
        sc.self_check_k7[i] = 200 + i as u8;
    }
    let mut hi = HealthInfo::default();
    for i in 0..11 {
        hi.temperature[i] = 30 + i as u32 * 1000;
    }
    vec![
        CmdEnum::SingleBoard(SingleBoard { board_num: 3, resolution: 1000 }),
        CmdEnum::DoubleBoard(DoubleBoard { board_num1: 1, board_num2: 4, resolution: 70000 }),
        CmdEnum::FiveBoard(FiveBoard::new(3000)),
        CmdEnum::SelfCheckStatus(sc),
        CmdEnum::HealthInfo(hi),
        CmdEnum::GB40(sample_gb40()),
        CmdEnum::Trigger(Trigger { trigger_value: 1 }),
        CmdEnum::Reference(Reference { reference_value: 2 }),
        CmdEnum::WorkMode(WorkMode { mode: 0xdeadbeef }),
        CmdEnum::DataStatus(DataStatus { sta: [1, 2, 3, 0x01020304, u32::MAX] }),
        CmdEnum::Shutdown(Shutdown::default()),
        CmdEnum::Stop(Stop::default()),
    ]
}

#[test]
fn cmd_type_numbers() {
    let known = [
        CmdType::Stop,
        CmdType::SingleBoardSet,
        CmdType::DoubleBoardSet,
        CmdType::FiveBoardSet,
        CmdType::QuerySelfCheckStatus,
        CmdType::QueryHealthInfo,
        CmdType::QueryWorkMode,
        CmdType::ModeFor40GB,
        CmdType::TriggerSet,
        CmdType::ReferenceSet,
        CmdType::ShutDownNow,
        CmdType::QueryDataStatus,
    ];
    for (i, t) in known.iter().enumerate() {
        assert_eq!(t.code(), i as u8 + 1);
        assert_eq!(CmdType::from_u8(i as u8 + 1), *t);
    }
    assert_eq!(CmdType::from_u8(0), CmdType::Unknown);
    assert_eq!(CmdType::from_u8(13), CmdType::Unknown);
    assert_eq!(CmdType::from_u8(0xff), CmdType::Unknown);
    assert_eq!(CmdType::Unknown.code(), 13);
}

#[test]
fn board_numbers() {
    assert_eq!(BoardID::B0.code(), 1);
    assert_eq!(BoardID::B4.code(), 5);
}

#[test]
fn single_board_layout() {
    let m = SingleBoard { board_num: 3, resolution: 1000 };
    let mut d = vec![0xaa_u8; 8];
    assert_eq!(m.fill_data(&mut d), 5);
    assert_eq!(d, vec![3, 0xe8, 0x03, 0, 0, 0xaa, 0xaa, 0xaa]);
    let mut r = SingleBoard::default();
    r.from_data(&d);
    assert_eq!(r, m);
}

#[test]
fn double_board_layout() {
    let m = DoubleBoard { board_num1: 1, board_num2: 2, resolution: 0x01020304 };
    let mut d = vec![0_u8; 6];
    assert_eq!(m.fill_data(&mut d), 6);
    assert_eq!(d, vec![1, 2, 4, 3, 2, 1]);
}

#[test]
fn health_info_layout() {
    let mut m = HealthInfo::default();
    m.temperature[0] = 0x11223344;
    m.temperature[10] = 7;
    let mut d = vec![0_u8; 44];
    assert_eq!(m.fill_data(&mut d), 44);
    assert_eq!(&d[0..4], &[0x44, 0x33, 0x22, 0x11]);
    assert_eq!(&d[40..44], &[7, 0, 0, 0]);
    let mut r = HealthInfo::default();
    r.from_data(&d);
    assert_eq!(r, m);
}

#[test]
fn gb40_layout() {
    let g = sample_gb40();
    let mut data = vec![0_u8; 72];
    assert_eq!(g.fill_data(&mut data), 56);
    assert_eq!(&data[0..8], &[1, 0, 1, 0, 1, 0, 1, 0]);
    assert_eq!(&data[8..14], &[192, 168, 1, 10, 0xb8, 0x22]);
    assert_eq!(&data[50..56], &[192, 168, 1, 20, 0xb9, 0x22]);
    assert_eq!(&data[56..72], &[0_u8; 16]);
    let mut g1 = GB40::default();
    g1.from_data(&data);
    assert_eq!(g, g1);
}

#[test]
fn every_message_reads_back() {
    for m in all_messages() {
        let mut d = vec![0_u8; 100];
        let n = m.fill_data(&mut d);
        let mut r = m;
        // start from a different value of the same type
        r.from_data(&[0_u8; 100]);
        r.from_data(&d);
        assert_eq!(r, m);
        assert_eq!(m.to_enum(), m);
        assert!(n <= 100);
    }
}

#[test]
fn wire_lengths() {
    let lens: Vec<usize> = all_messages()
        .iter()
        .map(|m| {
            let mut d = vec![0_u8; 100];
            m.fill_data(&mut d)
        })
        .collect();
    assert_eq!(lens, vec![5, 6, 4, 50, 44, 56, 1, 1, 4, 20, 1, 1]);
}

#[test]
fn frame_from_message() {
    let m = FiveBoard::new(3000);
    let f = CommandFrame::from_msg(&m);
    assert_eq!(f.frame_head, FRAME_HEAD);
    assert_eq!(f.frame_tale, FRAME_TALE);
    assert_eq!(f.info_func, 4);
    assert_eq!(f.packet_len, 4);
    assert_eq!(&f.data[0..4], &[0xb8, 0x0b, 0, 0]);
    assert!(f.data[4..].iter().all(|&b| b == 0));
    let p = f.pack();
    assert_eq!(p.len(), 113);
    assert_eq!(&p[0..13], &[0xaa, 0xaa, 0x55, 0x55, 4, 4, 0, 0, 0, 0xbb, 0xbb, 0xaa, 0xaa]);
    assert_eq!(&p[13..17], &[0xb8, 0x0b, 0, 0]);
}

#[test]
fn frame_round_trip() {
    for m in all_messages() {
        let f = CommandFrame::from_msg(&m);
        let packed = f.pack();
        let g = CommandFrame::unpack_from_slice(&packed).unwrap();
        assert_eq!(g, f);
        assert_eq!(g.get_cmd(), m);
        assert_eq!(g.get_cmd().cmd_type(), m.cmd_type());
    }
}

#[test]
fn frame_wrong_length() {
    let buf = vec![0_u8; 112];
    assert_eq!(
        CommandFrame::unpack_from_slice(&buf),
        Err(PackingError::BufferSizeMismatch { expected: 113, actual: 112 })
    );
    let buf = vec![0_u8; 1024];
    assert_eq!(
        CommandFrame::unpack_from_slice(&buf),
        Err(PackingError::BufferSizeMismatch { expected: 113, actual: 1024 })
    );
}

#[test]
fn default_frame() {
    let f = CommandFrame::default();
    assert_eq!(f.frame_head, 0x5555aaaa);
    assert_eq!(f.frame_tale, 0xaaaabbbb);
    assert_eq!(f.info_func, 0);
    assert_eq!(f.packet_len, 0);
    assert_eq!(f.data, [0_u8; 100]);
}

#[test]
fn texts() {
    assert_eq!(SingleBoard { board_num: 3, resolution: 1000 }.cmd_string(), "SingleBoard: 3 1000");
    assert_eq!(
        DoubleBoard { board_num1: 1, board_num2: 4, resolution: 70000 }.cmd_string(),
        "DoubleBoard 1 4 70000"
    );
    assert_eq!(FiveBoard::new(3000).cmd_string(), "FiveBoard 3000");
    assert_eq!(sample_gb40().cmd_string(), "GB40");
    assert_eq!(Trigger { trigger_value: 9 }.cmd_string(), "Trigger");
    assert_eq!(Reference { reference_value: 255 }.cmd_string(), "Reference: 255");
    assert_eq!(WorkMode { mode: 4294967295 }.cmd_string(), "WorkMode: 4294967295");
    assert_eq!(
        DataStatus { sta: [0, 10, 100, 1000, 10000] }.cmd_string(),
        "DataStatus: 0 10 100 1000 10000\n"
    );
    assert_eq!(Shutdown::default().cmd_string(), "Shutdown");
    assert_eq!(Stop::default().cmd_string(), "Stop");
}

#[test]
fn health_text() {
    let mut m = HealthInfo::default();
    for i in 0..11 {
        m.temperature[i] = i as u32 + 40;
    }
    assert_eq!(
        m.cmd_string(),
        "Temperature \n40 41\n42 43\n44 45\n46 47\n48 49\n50\n"
    );
}

#[test]
fn self_check_text() {
    let mut m = SelfCheckStatus::default();
    for i in 0..20 {
        m.self_check_vu9p1[i] = i as u8;
        m.self_check_vu9p2[i] = 100 + i as u8;
    }
    for i in 0..10 {
        m.self_check_k7[i] = 200 + i as u8;
    }
    let mut expected = "SelfCheckStatus:\n".to_string();
    for i in 0..5 {
        expected += &format!(
            "{} {} {} {} | {} {} {} {} | {} {} \n",
            4 * i,
            4 * i + 1,
            4 * i + 2,
            4 * i + 3,
            100 + 4 * i,
            101 + 4 * i,
            102 + 4 * i,
            103 + 4 * i,
            200 + 2 * i,
            201 + 2 * i
        );
    }
    assert_eq!(m.cmd_string(), expected);
    assert!(m.cmd_string().starts_with("SelfCheckStatus:\n0 1 2 3 | 100 101 102 103 | 200 201 \n"));
}

#[test]
fn enum_dispatch() {
    let m = CmdEnum::WorkMode(WorkMode { mode: 7 });
    assert_eq!(m.cmd_type(), CmdType::QueryWorkMode);
    assert_eq!(m.cmd_string(), "WorkMode: 7");
    let f = CommandFrame::from_msg(&m);
    assert_eq!(f.info_func, 7);
}
