use basis::constants::SCS_MESSAGE_IDS;
use basis::maxx::{MaxxTestGenerator, MAXX_MESSAGE_IDS};
use basis::scs::ScsTestGenerator;
use basis::send_cycle::{MaxxSendCycle, ScsSendCycle, TxOutcome};

#[test]
fn scs_cycle_walks_the_ids_then_advances_the_counter() {
    let mut c = ScsSendCycle::new();
    for pass in 0u8..3 {
        for &id in SCS_MESSAGE_IDS.iter() {
            assert_eq!(c.counter(), pass);
            let (frame_id, data) = c.next_frame();
            assert_eq!(frame_id, id);
            assert_eq!(data, ScsTestGenerator::with_counter(pass).generate_frame(id).1);
            c.advance(TxOutcome::Sent);
        }
    }
    assert_eq!(c.counter(), 3);
}

#[test]
fn scs_cycle_reports_each_full_pass() {
    let mut c = ScsSendCycle::new();
    for k in 1..17 {
        assert_eq!(c.advance(TxOutcome::Sent), None, "frame {}", k);
    }
    assert_eq!(c.advance(TxOutcome::Sent), Some(1));
    // a dropped frame keeps the count and repeats the report; a rejected one does not
    assert_eq!(c.advance(TxOutcome::QueueFull), Some(1));
    assert_eq!(c.advance(TxOutcome::Rejected), None);
    for _ in 0..16 {
        c.advance(TxOutcome::Sent);
    }
    assert_eq!(c.advance(TxOutcome::Sent), Some(2));
    assert_eq!(c.msg_count(), 34);
}

#[test]
fn maxx_cycle_walks_the_ids_then_advances_the_counter() {
    let mut c = MaxxSendCycle::new();
    for pass in 0u8..2 {
        for &id in MAXX_MESSAGE_IDS.iter() {
            assert_eq!(c.next_id(), id);
            let (frame_id, data) = c.next_frame();
            assert_eq!(frame_id, id);
            assert_eq!(data, MaxxTestGenerator::with_counter(pass).generate_frame(id).1);
            assert_eq!(c.advance(TxOutcome::QueueFull), None);
        }
    }
    assert_eq!(c.counter(), 2);
}

#[test]
fn maxx_cycle_reports_after_21_frames() {
    let mut c = MaxxSendCycle::new();
    for _ in 1..21 {
        assert_eq!(c.advance(TxOutcome::Sent), None);
    }
    assert_eq!(c.advance(TxOutcome::Sent), Some(1));
    assert_eq!(c.counter(), 1);
}

#[test]
fn kth_frame_follows_the_rotation_whatever_the_outcomes() {
    let outcomes = [TxOutcome::Sent, TxOutcome::QueueFull, TxOutcome::Rejected];
    let mut scs = ScsSendCycle::new();
    let mut maxx = MaxxSendCycle::new();
    for k in 0..(17 * 21 * 3) as usize {
        let id = SCS_MESSAGE_IDS[k % 17];
        let data = ScsTestGenerator::with_counter(((k / 17) % 256) as u8).generate_frame(id).1;
        assert_eq!(scs.next_frame(), (id, data), "SCS frame {}", k);
        let mid = MAXX_MESSAGE_IDS[k % 21];
        let mdata = MaxxTestGenerator::with_counter(((k / 21) % 256) as u8).generate_frame(mid).1;
        assert_eq!(maxx.next_frame(), (mid, mdata), "MaxxECU frame {}", k);
        scs.advance(outcomes[k % 3]);
        maxx.advance(outcomes[k % 3]);
    }
}
