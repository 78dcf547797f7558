use fakeldat::{
    decode, encode, interpret, parse_frame, set_action_frame, set_poll_rate_frame,
    set_report_mode_frame, set_threshold_frame, sum_slice, ActionMode, Command, Error,
    KeyboardKey, MouseButton, Report, ReportMode, FRAME_LEN,
};

fn with_command(frame: [u8; 16], command: Command) -> [u8; 16] {
    let mut f = frame;
    f[0] = command.code();
    f[15] = sum_slice(&f[..15]);
    f
}

fn frame(command: u8, payload: &[u8]) -> [u8; 16] {
    let mut f = [0u8; 16];
    f[0] = command;
    f[1..1 + payload.len()].copy_from_slice(payload);
    f[15] = sum_slice(&f[..15]);
    f
}

#[test]
fn set_poll_rate_2000_bytes() {
    let f = set_poll_rate_frame(2000);
    let mut expected = [0u8; 16];
    expected[0] = 0x01;
    expected[1] = 0xD0;
    expected[2] = 0x07;
    expected[15] = ((0x01u32 + 0xD0 + 0x07) % 256) as u8;
    assert_eq!(f, expected);
    assert_eq!(f[15], 0xD8);
    assert!(matches!(parse_frame(&f), Ok(Report::PollRate(2000))));
}

#[test]
fn frame_is_sixteen_bytes() {
    assert_eq!(FRAME_LEN, 16);
    assert_eq!(encode(Command::ManualTrigger, [0, 0]).len(), FRAME_LEN);
}

#[test]
fn encode_places_command_args_and_checksum() {
    let f = encode(Command::SetAction, [1, b'q']);
    assert_eq!(f[0], 0x04);
    assert_eq!(f[1], 1);
    assert_eq!(f[2], b'q');
    assert!(f[3..15].iter().all(|&b| b == 0));
    assert_eq!(f[15], 0x04u8.wrapping_add(1).wrapping_add(b'q'));
}

#[test]
fn checksum_wraps_around() {
    assert_eq!(sum_slice(&[]), 0);
    assert_eq!(sum_slice(&[200, 100]), 44);
    assert_eq!(sum_slice(&[255, 1, 255]), 255);
    let f = encode(Command::GetAction, [0xFF, 0xFF]);
    assert_eq!(f[15], (0x24u32 + 0xFF + 0xFF) as u8);
}

#[test]
fn all_zero_prefix_has_zero_checksum() {
    let zero = [0u8; 16];
    assert_eq!(sum_slice(&zero[..15]), 0);
    assert_eq!(sum_slice(&zero[..15]), zero[15]);
    // The checksum matches, but 0 is no command code.
    assert!(matches!(decode(&zero), Err(Error::InvalidCommand(0))));
}

#[test]
fn zero_payload_frame_is_accepted() {
    let f = with_command([0u8; 16], Command::ManualTrigger);
    assert_eq!(f[15], 0x1F);
    assert!(matches!(parse_frame(&f), Ok(Report::ManualTrigger)));
}

#[test]
fn wrong_checksum_is_rejected() {
    let good = set_poll_rate_frame(1000);
    for delta in 1..=255u8 {
        let mut bad = good;
        bad[15] = good[15].wrapping_add(delta);
        match decode(&bad) {
            Err(Error::WrongChecksum(c, received, calculated)) => {
                assert_eq!(c, Command::SetPollRate);
                assert_eq!(received, bad[15]);
                assert_eq!(calculated, good[15]);
            }
            _ => panic!("frame with a bad checksum was not refused"),
        }
    }
    assert!(decode(&good).is_ok());
}

#[test]
fn corrupted_payload_is_rejected() {
    let mut bad = set_threshold_frame(42);
    bad[7] = 9;
    assert!(matches!(
        decode(&bad),
        Err(Error::WrongChecksum(Command::SetThreshold, _, _))
    ));
}

#[test]
fn unknown_command_is_rejected() {
    let f = frame(0x55, &[1, 2]);
    assert!(matches!(decode(&f), Err(Error::InvalidCommand(0x55))));
    // An unknown code is reported even when the checksum is wrong too.
    let mut g = f;
    g[15] = g[15].wrapping_add(1);
    assert!(matches!(decode(&g), Err(Error::InvalidCommand(0x55))));
}

#[test]
fn decode_returns_payload_window() {
    let mut payload = [0u8; 14];
    for (i, b) in payload.iter_mut().enumerate() {
        *b = i as u8 + 1;
    }
    let f = frame(0x41, &payload);
    let (c, p) = decode(&f).ok().unwrap();
    assert_eq!(c, Command::ReportRaw);
    assert_eq!(p, payload);
}

#[test]
fn raw_report_is_little_endian() {
    let mut payload = [0u8; 14];
    payload[..8].copy_from_slice(&0x0102_0304_0506_0708u64.to_le_bytes());
    payload[8..10].copy_from_slice(&4095u16.to_le_bytes());
    payload[10] = 1;
    match parse_frame(&frame(0x41, &payload)) {
        Ok(Report::Raw(r)) => {
            assert_eq!(r.timestamp, 0x0102_0304_0506_0708);
            assert_eq!(r.brightness, 4095);
            assert!(r.trigger);
        }
        _ => panic!("raw report expected"),
    }
    payload[10] = 2;
    match parse_frame(&frame(0x41, &payload)) {
        Ok(Report::Raw(r)) => assert!(!r.trigger),
        _ => panic!("raw report expected"),
    }
}

#[test]
fn raw_report_largest_timestamp() {
    let mut payload = [0u8; 14];
    payload[..8].copy_from_slice(&u64::MAX.to_le_bytes());
    payload[8..10].copy_from_slice(&u16::MAX.to_le_bytes());
    match interpret(Command::ReportRaw, &payload) {
        Ok(Report::Raw(r)) => {
            assert_eq!(r.timestamp, u64::MAX);
            assert_eq!(r.brightness, u16::MAX);
            assert!(!r.trigger);
        }
        _ => panic!("raw report expected"),
    }
}

#[test]
fn summary_report_is_little_endian() {
    let mut payload = [0u8; 14];
    payload[..8].copy_from_slice(&123_456_789u64.to_le_bytes());
    payload[8..10].copy_from_slice(&300u16.to_le_bytes());
    match parse_frame(&frame(0x42, &payload)) {
        Ok(Report::Summary(s)) => {
            assert_eq!(s.delay, 123_456_789);
            assert_eq!(s.threshold, 300);
        }
        _ => panic!("summary report expected"),
    }
}

#[test]
fn poll_rate_round_trip() {
    for v in [0u16, 1, 255, 256, 500, 2000, 32000, u16::MAX] {
        let set = set_poll_rate_frame(v);
        assert!(matches!(parse_frame(&set), Ok(Report::PollRate(x)) if x == v));
        let get = with_command(set, Command::GetPollRate);
        assert!(matches!(parse_frame(&get), Ok(Report::PollRate(x)) if x == v));
    }
}

#[test]
fn threshold_round_trip() {
    for v in [i16::MIN, -4000, -256, -1, 0, 1, 150, 4000, i16::MAX] {
        let set = set_threshold_frame(v);
        assert_eq!(&set[1..3], &v.to_le_bytes());
        assert!(matches!(parse_frame(&set), Ok(Report::Threshold(x)) if x == v));
        let get = with_command(set, Command::GetThreshold);
        assert!(matches!(parse_frame(&get), Ok(Report::Threshold(x)) if x == v));
    }
}

#[test]
fn report_mode_round_trip() {
    for m in [ReportMode::Raw, ReportMode::Summary, ReportMode::Combined] {
        let set = set_report_mode_frame(m);
        assert!(matches!(parse_frame(&set), Ok(Report::ReportMode(x)) if x == m));
        let get = with_command(set, Command::GetReportMode);
        assert!(matches!(parse_frame(&get), Ok(Report::ReportMode(x)) if x == m));
    }
}

#[test]
fn action_round_trip_mouse() {
    for b in [MouseButton::Left, MouseButton::Right, MouseButton::Middle] {
        let a = ActionMode::Mouse(b);
        let set = set_action_frame(a);
        assert_eq!(set[1], 0);
        assert_eq!(set[2], b.code());
        assert!(matches!(parse_frame(&set), Ok(Report::Action(x)) if x == a));
        let get = with_command(set, Command::GetAction);
        assert!(matches!(parse_frame(&get), Ok(Report::Action(x)) if x == a));
    }
}

#[test]
fn action_round_trip_keyboard() {
    for c in b'a'..=b'z' {
        let k = KeyboardKey::try_from(c).ok().unwrap();
        let a = ActionMode::Keyboard(k);
        let set = set_action_frame(a);
        assert_eq!(set[1], 1);
        assert_eq!(set[2], c);
        assert!(matches!(parse_frame(&set), Ok(Report::Action(x)) if x == a));
        let get = with_command(set, Command::GetAction);
        assert!(matches!(parse_frame(&get), Ok(Report::Action(x)) if x == a));
    }
}

#[test]
fn invalid_report_mode_setting() {
    let f = frame(0x22, &[3, 7]);
    match parse_frame(&f) {
        Err(Error::InvalidSetting(c, bytes)) => {
            assert_eq!(c, Command::GetReportMode);
            assert_eq!(bytes, [3, 7]);
        }
        _ => panic!("invalid setting expected"),
    }
}

#[test]
fn action_selector_out_of_range() {
    for selector in [2u8, 3, 0x80, 0xFF] {
        for key in [1u8, 4, b'a', b'z', 0, 0xFF] {
            for code in [0x04u8, 0x24] {
                match parse_frame(&frame(code, &[selector, key])) {
                    Err(Error::InvalidSetting(c, bytes)) => {
                        assert_eq!(c.code(), code);
                        assert_eq!(bytes, [selector, key]);
                    }
                    _ => panic!("invalid setting expected"),
                }
            }
        }
    }
}

#[test]
fn action_key_out_of_family() {
    assert!(matches!(
        parse_frame(&frame(0x24, &[0, b'a'])),
        Err(Error::InvalidEnumConversion)
    ));
    assert!(matches!(
        parse_frame(&frame(0x04, &[1, 1])),
        Err(Error::InvalidEnumConversion)
    ));
    assert!(matches!(
        parse_frame(&frame(0x04, &[0, 3])),
        Err(Error::InvalidEnumConversion)
    ));
}
