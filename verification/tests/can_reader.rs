use basis::can_reader::{
    BusErrorKind, BusErrorStats, Broadcaster, CanReader, ForwardOutcome, LinkStep,
};
use basis::messages::{CanFrameData, Message};

#[test]
fn frames_reset_the_error_run() {
    let mut r = CanReader::new();
    for _ in 0..3 {
        r.on_bus_error(BusErrorKind::Crc);
    }
    assert_eq!(r.consecutive_bus_errors, 3);
    assert!(r.on_frame(true));
    assert_eq!(r.consecutive_bus_errors, 0);
    assert!(r.ever_seen_valid_frame);
    assert!(!r.on_frame(false));
}

#[test]
fn backoff_after_25_consecutive_errors() {
    let mut r = CanReader::new();
    for i in 1..=30u32 {
        let report = r.on_bus_error(BusErrorKind::Form);
        assert_eq!(report.backoff, i >= 25, "error {}", i);
        assert_eq!(report.first_physical_error, i == 1);
        assert_eq!(report.warn_no_valid_frame, i % 25 == 1);
    }
    assert_eq!(r.bus_errors.form, 30);
    assert_eq!(r.stats.rx_errors, 30);
    assert_eq!(r.bus_errors.total(), 30);
}

#[test]
fn passive_warnings_and_summaries() {
    let mut r = CanReader::new();
    r.on_frame(true);
    let first = r.on_bus_error(BusErrorKind::BusPassive);
    assert!(first.passive_warning);
    assert!(!first.passive_recovery_alert);
    assert!(!first.warn_no_valid_frame);
    let mut summaries = 0;
    for _ in 1..500 {
        if r.on_bus_error(BusErrorKind::BusPassive).summary_due {
            summaries += 1;
        }
    }
    assert_eq!(r.bus_errors.bus_passive, 500);
    assert_eq!(summaries, 5);
    let alert = r.on_bus_error(BusErrorKind::BusPassive);
    assert!(alert.passive_recovery_alert);
    assert!(alert.passive_warning);
    let other = r.on_bus_error(BusErrorKind::BusOff);
    assert!(!other.passive_warning);
    assert_eq!(r.bus_errors.bus_off, 1);
}

#[test]
fn forward_outcomes_and_timeouts() {
    let mut r = CanReader::new();
    for _ in 0..100 {
        r.on_forward(ForwardOutcome::Sent);
    }
    assert!(r.stats_due());
    r.on_forward(ForwardOutcome::Stalled);
    r.on_forward(ForwardOutcome::ParseFailed);
    r.on_timeout();
    assert_eq!(r.stats.rx_count, 100);
    assert_eq!(r.stats.rx_errors, 2);
    assert_eq!(r.stats.timeout_count, 1);
    r.on_forward(ForwardOutcome::Sent);
    assert!(!r.stats_due());
    assert!(!CanReader::new().stats_due());
}

#[test]
fn bus_error_stats_record_each_kind() {
    let mut s = BusErrorStats::default();
    let kinds = [
        BusErrorKind::Form,
        BusErrorKind::Stuff,
        BusErrorKind::Crc,
        BusErrorKind::Acknowledge,
        BusErrorKind::BitRecessive,
        BusErrorKind::BitDominant,
        BusErrorKind::Software,
        BusErrorKind::BusWarning,
        BusErrorKind::BusPassive,
        BusErrorKind::BusOff,
    ];
    for (i, k) in kinds.iter().enumerate() {
        for _ in 0..=i {
            s.record(*k);
        }
    }
    assert_eq!(s.total(), 55);
    assert_eq!(s.form, 1);
    assert_eq!(s.ack, 4);
    assert_eq!(s.bus_off, 10);
}

#[test]
fn broadcaster_link_and_messages() {
    let mut b = Broadcaster::new();
    assert_eq!(b.link_check(false), LinkStep::Wait { first: true });
    assert_eq!(b.link_check(false), LinkStep::Wait { first: false });
    assert_eq!(b.link_check(true), LinkStep::Proceed { recovered: true });
    assert_eq!(b.link_check(true), LinkStep::Proceed { recovered: false });
    let msg = Message::CanFrame(CanFrameData::new(0x300, [1; 8], 8));
    let mut buf = [0u8; 512];
    assert_eq!(b.prepare(&msg, &mut buf), 14);
    assert_eq!(b.msg_count, 1);
    assert!(!b.report_due());
    let mut tiny = [0u8; 4];
    assert_eq!(b.prepare(&msg, &mut tiny), 0);
    for _ in 0..98 {
        b.prepare(&msg, &mut buf);
    }
    assert!(b.report_due());
}
