use fakeldat::{
    encode, set_poll_rate_frame, set_threshold_frame, Command, Error, PollAction, PollEvent,
    Report, Session,
};

#[test]
fn new_session_has_nothing_to_drain() {
    let mut s = Session::new();
    assert!(s.take_report_buffer().is_none());
}

#[test]
fn partial_frame_waits() {
    let mut s = Session::new();
    for n in 0..16u32 {
        assert!(matches!(s.poll_step(PollEvent::Available(n)), Ok(PollAction::Done)));
    }
    assert!(s.take_report_buffer().is_none());
}

#[test]
fn whole_frame_is_read() {
    let mut s = Session::new();
    assert!(matches!(s.poll_step(PollEvent::Available(16)), Ok(PollAction::ReadFrame)));
    assert!(matches!(s.poll_step(PollEvent::Available(4096)), Ok(PollAction::ReadFrame)));
    assert!(s.take_report_buffer().is_none());
}

#[test]
fn decoded_reports_are_queued_in_order() {
    let mut s = Session::new();
    let a = PollEvent::Frame(set_poll_rate_frame(1000));
    let b = PollEvent::Frame(set_threshold_frame(-5));
    assert!(matches!(s.poll_step(a), Ok(PollAction::CheckAvailable)));
    assert!(matches!(s.poll_step(b), Ok(PollAction::CheckAvailable)));
    let reports = s.take_report_buffer().unwrap();
    assert_eq!(reports, vec![Report::PollRate(1000), Report::Threshold(-5)]);
}

#[test]
fn drain_twice() {
    let mut s = Session::new();
    s.poll_step(PollEvent::Frame(encode(Command::ManualTrigger, [0, 0])))
        .ok()
        .unwrap();
    let first = s.take_report_buffer();
    assert_eq!(first, Some(vec![Report::ManualTrigger]));
    assert!(s.take_report_buffer().is_none());
}

#[test]
fn desync_recovery() {
    let mut s = Session::new();
    let mut bad = set_poll_rate_frame(2000);
    bad[2] ^= 0x40;
    match s.poll_step(PollEvent::Frame(bad)) {
        Ok(PollAction::ClearInput(c, received, calculated)) => {
            assert_eq!(c, Command::SetPollRate);
            assert_eq!(received, bad[15]);
            assert_ne!(received, calculated);
        }
        _ => panic!("a bad checksum should ask for the input to be cleared"),
    }
    assert!(s.take_report_buffer().is_none());
    let good = set_threshold_frame(150);
    assert!(matches!(s.poll_step(PollEvent::Frame(good)), Ok(PollAction::CheckAvailable)));
    assert_eq!(s.take_report_buffer(), Some(vec![Report::Threshold(150)]));
}

#[test]
fn bad_checksum_keeps_queued_reports() {
    let mut s = Session::new();
    s.poll_step(PollEvent::Frame(set_poll_rate_frame(500))).ok().unwrap();
    let mut bad = set_poll_rate_frame(500);
    bad[15] = bad[15].wrapping_add(1);
    assert!(matches!(
        s.poll_step(PollEvent::Frame(bad)),
        Ok(PollAction::ClearInput(Command::SetPollRate, _, _))
    ));
    assert_eq!(s.take_report_buffer(), Some(vec![Report::PollRate(500)]));
}

#[test]
fn other_failures_propagate() {
    let mut s = Session::new();
    let mut f = [0u8; 16];
    f[0] = 0x99;
    f[15] = 0x99;
    assert!(matches!(s.poll_step(PollEvent::Frame(f)), Err(Error::InvalidCommand(0x99))));
    let g = encode(Command::SetReportMode, [9, 0]);
    assert!(matches!(
        s.poll_step(PollEvent::Frame(g)),
        Err(Error::InvalidSetting(Command::SetReportMode, [9, 0]))
    ));
    assert!(s.take_report_buffer().is_none());
}
