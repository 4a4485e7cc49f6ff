//! Decision logic of the CAN reader and of the UDP broadcast loop.
//!
//! The reader loop (outside this crate) waits for a frame, a bus error or a
//! timeout, hands the event to `CanReader` and performs what it answers:
//! forward or ignore a frame, back off after a run of bus errors, and the
//! diagnostics to report.

use vstd::prelude::*;

use crate::config::CanStats;
use crate::messages::{encode, splice, Message};

verus! {

/// Kinds of CAN bus errors reported by the controller.
#[derive(Clone, Copy, Debug, PartialEq, Eq, Structural)]
pub enum BusErrorKind {
    Form,
    Stuff,
    Crc,
    Acknowledge,
    BitRecessive,
    BitDominant,
    Software,
    BusWarning,
    BusPassive,
    BusOff,
}

/// Count of bus errors per kind.
#[derive(Clone, Copy, Debug, PartialEq, Eq, Structural)]
pub struct BusErrorStats {
    pub form: u32,
    pub stuff: u32,
    pub crc: u32,
    pub ack: u32,
    pub bit_recessive: u32,
    pub bit_dominant: u32,
    pub software: u32,
    pub bus_warning: u32,
    pub bus_passive: u32,
    pub bus_off: u32,
}

impl Default for BusErrorStats {
    fn default() -> (r: Self)
        ensures
            r.sum() == 0,
            r == BusErrorStats::zero(),
    {
        BusErrorStats {
            form: 0,
            stuff: 0,
            crc: 0,
            ack: 0,
            bit_recessive: 0,
            bit_dominant: 0,
            software: 0,
            bus_warning: 0,
            bus_passive: 0,
            bus_off: 0,
        }
    }
}

impl BusErrorStats {
    pub open spec fn zero() -> BusErrorStats {
        BusErrorStats {
            form: 0,
            stuff: 0,
            crc: 0,
            ack: 0,
            bit_recessive: 0,
            bit_dominant: 0,
            software: 0,
            bus_warning: 0,
            bus_passive: 0,
            bus_off: 0,
        }
    }

    /// Sum of all counters.
    pub open spec fn sum(self) -> int {
        self.form + self.stuff + self.crc + self.ack + self.bit_recessive + self.bit_dominant
            + self.software + self.bus_warning + self.bus_passive + self.bus_off
    }

    /// The counter of one kind.
    pub open spec fn count_of(self, k: BusErrorKind) -> u32 {
        match k {
            BusErrorKind::Form => self.form,
            BusErrorKind::Stuff => self.stuff,
            BusErrorKind::Crc => self.crc,
            BusErrorKind::Acknowledge => self.ack,
            BusErrorKind::BitRecessive => self.bit_recessive,
            BusErrorKind::BitDominant => self.bit_dominant,
            BusErrorKind::Software => self.software,
            BusErrorKind::BusWarning => self.bus_warning,
            BusErrorKind::BusPassive => self.bus_passive,
            BusErrorKind::BusOff => self.bus_off,
        }
    }

    /// Total number of errors recorded (the sum must fit in 32 bits).
    pub fn total(&self) -> (r: u32)
        requires
            self.sum() <= u32::MAX,
        ensures
            r == self.sum(),
    {
        self.form + self.stuff + self.crc + self.ack + self.bit_recessive + self.bit_dominant
            + self.software + self.bus_warning + self.bus_passive + self.bus_off
    }

    /// Counts one error of kind `err`.
    pub fn record(&mut self, err: BusErrorKind)
        requires
            old(self).count_of(err) < u32::MAX,
        ensures
            *final(self) == after_record(*old(self), err),
            final(self).count_of(err) == old(self).count_of(err) + 1,
            final(self).sum() == old(self).sum() + 1,
    {
        match err {
            BusErrorKind::Form => self.form = self.form + 1,
            BusErrorKind::Stuff => self.stuff = self.stuff + 1,
            BusErrorKind::Crc => self.crc = self.crc + 1,
            BusErrorKind::Acknowledge => self.ack = self.ack + 1,
            BusErrorKind::BitRecessive => self.bit_recessive = self.bit_recessive + 1,
            BusErrorKind::BitDominant => self.bit_dominant = self.bit_dominant + 1,
            BusErrorKind::Software => self.software = self.software + 1,
            BusErrorKind::BusWarning => self.bus_warning = self.bus_warning + 1,
            BusErrorKind::BusPassive => self.bus_passive = self.bus_passive + 1,
            BusErrorKind::BusOff => self.bus_off = self.bus_off + 1,
        }
    }
}

/// Outcome of handing a parsed frame to the UDP pipeline.
#[derive(Clone, Copy, Debug, PartialEq, Eq, Structural)]
pub enum ForwardOutcome {
    /// The message entered the channel.
    Sent,
    /// The channel stayed full for 50 ms and the frame was dropped.
    Stalled,
    /// The parser rejected the frame.
    ParseFailed,
}

/// What to do and report after a bus error.
#[derive(Clone, Copy, Debug, PartialEq, Eq, Structural)]
pub struct BusErrorReport {
    /// 25 or more errors in a row: pause 50 ms before reading again.
    pub backoff: bool,
    /// First bus error since start: hint at wiring and termination.
    pub first_physical_error: bool,
    /// No valid frame seen yet (reported every 25th error).
    pub warn_no_valid_frame: bool,
    /// Every 100th error: report the per-kind counters.
    pub summary_due: bool,
    /// Error-passive state repeated (every 50th, from the first).
    pub passive_warning: bool,
    /// Error-passive state persists (every 500th from the 500th on).
    pub passive_recovery_alert: bool,
}

/// State of the CAN reader loop.
#[derive(Clone, Copy, Debug, PartialEq, Eq, Structural)]
pub struct CanReader {
    pub stats: CanStats,
    pub bus_errors: BusErrorStats,
    /// Bus errors since the last valid frame.
    pub consecutive_bus_errors: u32,
    pub physical_hint_logged: bool,
    pub ever_seen_valid_frame: bool,
}

/// The reader state after a received frame.
pub open spec fn after_frame(r: CanReader) -> CanReader {
    CanReader { consecutive_bus_errors: 0, ever_seen_valid_frame: true, ..r }
}

/// The reader state after a forwarding outcome.
pub open spec fn after_forward(r: CanReader, o: ForwardOutcome) -> CanReader {
    match o {
        ForwardOutcome::Sent => CanReader {
            stats: CanStats { rx_count: (r.stats.rx_count + 1) as u32, ..r.stats },
            ..r
        },
        _ => CanReader { stats: CanStats { rx_errors: (r.stats.rx_errors + 1) as u32, ..r.stats }, ..r },
    }
}

/// The bus error counters after one error of kind `k`.
pub open spec fn after_record(s: BusErrorStats, k: BusErrorKind) -> BusErrorStats {
    match k {
        BusErrorKind::Form => BusErrorStats { form: (s.form + 1) as u32, ..s },
        BusErrorKind::Stuff => BusErrorStats { stuff: (s.stuff + 1) as u32, ..s },
        BusErrorKind::Crc => BusErrorStats { crc: (s.crc + 1) as u32, ..s },
        BusErrorKind::Acknowledge => BusErrorStats { ack: (s.ack + 1) as u32, ..s },
        BusErrorKind::BitRecessive => BusErrorStats { bit_recessive: (s.bit_recessive + 1) as u32, ..s },
        BusErrorKind::BitDominant => BusErrorStats { bit_dominant: (s.bit_dominant + 1) as u32, ..s },
        BusErrorKind::Software => BusErrorStats { software: (s.software + 1) as u32, ..s },
        BusErrorKind::BusWarning => BusErrorStats { bus_warning: (s.bus_warning + 1) as u32, ..s },
        BusErrorKind::BusPassive => BusErrorStats { bus_passive: (s.bus_passive + 1) as u32, ..s },
        BusErrorKind::BusOff => BusErrorStats { bus_off: (s.bus_off + 1) as u32, ..s },
    }
}

/// The reader state after a bus error of kind `k`.
pub open spec fn after_bus_error(r: CanReader, k: BusErrorKind) -> CanReader {
    CanReader {
        stats: CanStats { rx_errors: (r.stats.rx_errors + 1) as u32, ..r.stats },
        bus_errors: after_record(r.bus_errors, k),
        consecutive_bus_errors: if r.consecutive_bus_errors == u32::MAX {
            u32::MAX
        } else {
            (r.consecutive_bus_errors + 1) as u32
        },
        physical_hint_logged: true,
        ..r
    }
}

/// What is reported after a bus error of kind `k` in state `r`.
pub open spec fn bus_error_report(r: CanReader, k: BusErrorKind) -> BusErrorReport {
    let n = after_bus_error(r, k);
    let total = n.bus_errors.sum();
    let passive = n.bus_errors.bus_passive;
    BusErrorReport {
        backoff: n.consecutive_bus_errors >= 25,
        first_physical_error: !r.physical_hint_logged,
        warn_no_valid_frame: !r.ever_seen_valid_frame && total % 25 == 1,
        summary_due: total % 100 == 0,
        passive_warning: k == BusErrorKind::BusPassive && passive % 50 == 1,
        passive_recovery_alert: k == BusErrorKind::BusPassive && passive >= 500 && passive % 500 == 1,
    }
}

impl CanReader {
    /// A reader with all counters at zero.
    pub fn new() -> (r: Self)
        ensures
            r.stats == (CanStats { tx_count: 0, tx_errors: 0, rx_count: 0, rx_errors: 0, timeout_count: 0 }),
            r.bus_errors == BusErrorStats::zero(),
            r.consecutive_bus_errors == 0,
            !r.physical_hint_logged,
            !r.ever_seen_valid_frame,
    {
        CanReader {
            stats: CanStats::default(),
            bus_errors: BusErrorStats::default(),
            consecutive_bus_errors: 0,
            physical_hint_logged: false,
            ever_seen_valid_frame: false,
        }
    }

    /// A frame arrived: the error run ends. Only standard (11-bit) frames are
    /// handed to the parser; the answer says whether to parse this one.
    pub fn on_frame(&mut self, is_standard: bool) -> (parse: bool)
        ensures
            *final(self) == after_frame(*old(self)),
            parse == is_standard,
            final(self).consecutive_bus_errors == 0,
            final(self).ever_seen_valid_frame,
    {
        self.consecutive_bus_errors = 0;
        self.ever_seen_valid_frame = true;
        is_standard
    }

    /// Counts what became of a parsed frame: sent frames, and dropped or
    /// rejected ones as receive errors.
    pub fn on_forward(&mut self, outcome: ForwardOutcome)
        requires
            outcome == ForwardOutcome::Sent ==> old(self).stats.rx_count < u32::MAX,
            outcome != ForwardOutcome::Sent ==> old(self).stats.rx_errors < u32::MAX,
        ensures
            *final(self) == after_forward(*old(self), outcome),
    {
        match outcome {
            ForwardOutcome::Sent => self.stats.rx_count = self.stats.rx_count + 1,
            _ => self.stats.rx_errors = self.stats.rx_errors + 1,
        }
    }

    /// A bus error: counts it and answers what to do and report.
    pub fn on_bus_error(&mut self, kind: BusErrorKind) -> (report: BusErrorReport)
        requires
            old(self).bus_errors.count_of(kind) < u32::MAX,
            old(self).bus_errors.sum() < u32::MAX,
            old(self).stats.rx_errors < u32::MAX,
        ensures
            *final(self) == after_bus_error(*old(self), kind),
            report == bus_error_report(*old(self), kind),
            report.backoff == (old(self).consecutive_bus_errors >= 24),
            final(self).consecutive_bus_errors == if old(self).consecutive_bus_errors == u32::MAX {
                u32::MAX as int
            } else {
                old(self).consecutive_bus_errors + 1
            },
    {
        let ghost before = *self;
        let first_physical_error = !self.physical_hint_logged;
        let no_valid_frame_yet = !self.ever_seen_valid_frame;
        self.bus_errors.record(kind);
        self.consecutive_bus_errors = self.consecutive_bus_errors.saturating_add(1);
        self.stats.rx_errors = self.stats.rx_errors + 1;
        self.physical_hint_logged = true;
        let total = self.bus_errors.total();
        let passive = self.bus_errors.bus_passive;
        let is_passive = match kind {
            BusErrorKind::BusPassive => true,
            _ => false,
        };
        proof {
            assert(self.bus_errors == after_record(before.bus_errors, kind));
            assert(*self == after_bus_error(before, kind));
        }
        BusErrorReport {
            backoff: self.consecutive_bus_errors >= 25,
            first_physical_error,
            warn_no_valid_frame: no_valid_frame_yet && total % 25 == 1,
            summary_due: total % 100 == 0,
            passive_warning: is_passive && passive % 50 == 1,
            passive_recovery_alert: is_passive && passive >= 500 && passive % 500 == 1,
        }
    }

    /// No frame within the timeout.
    pub fn on_timeout(&mut self)
        requires
            old(self).stats.timeout_count < u32::MAX,
        ensures
            *final(self) == (CanReader {
                stats: CanStats { timeout_count: (old(self).stats.timeout_count + 1) as u32, ..old(self).stats },
                ..*old(self)
            }),
    {
        self.stats.timeout_count = self.stats.timeout_count + 1;
    }

    /// Periodic statistics are due after every 100th forwarded frame.
    pub fn stats_due(&self) -> (r: bool)
        ensures
            r == (self.stats.rx_count % 100 == 0 && self.stats.rx_count > 0),
    {
        self.stats.rx_count % 100 == 0 && self.stats.rx_count > 0
    }
}

/// The sum of the bus error counters, added field by field.
pub open spec fn error_total(s: BusErrorStats) -> int {
    s.form as int + s.stuff as int + s.crc as int + s.ack as int + s.bit_recessive as int
        + s.bit_dominant as int + s.software as int + s.bus_warning as int + s.bus_passive as int
        + s.bus_off as int
}

/// What the reader decides after a bus error of kind `k` in state `r`, in
/// terms of `r` itself: it backs off once this error makes 25 or more in a
/// row since the last valid frame (so never on the first error after a
/// frame); it gives the wiring hint only on the first error ever; it warns
/// that no valid frame was seen on the 1st, 26th, 51st, ... error while none
/// was; it reports the counters on every 100th error; and it warns of the
/// error-passive state on the 1st, 51st, ... such error and raises the alert
/// on the 501st, 1001st, ... one. The error is counted once, in its own kind,
/// and the run of errors grows by one (staying at its maximum).
pub proof fn lemma_bus_error_decisions(r: CanReader, k: BusErrorKind)
    requires
        error_total(r.bus_errors) < u32::MAX,
    ensures
        ({
            let rep = bus_error_report(r, k);
            let total = error_total(r.bus_errors) + 1;
            let passive = r.bus_errors.bus_passive + 1;
            &&& rep.backoff == (r.consecutive_bus_errors >= 24)
            &&& rep.first_physical_error == !r.physical_hint_logged
            &&& rep.warn_no_valid_frame == (!r.ever_seen_valid_frame && total % 25 == 1)
            &&& rep.summary_due == (total % 100 == 0)
            &&& rep.passive_warning == (k == BusErrorKind::BusPassive && passive % 50 == 1)
            &&& rep.passive_recovery_alert == (k == BusErrorKind::BusPassive && passive >= 500 && passive
                % 500 == 1)
        }),
        ({
            let n = after_bus_error(r, k);
            &&& error_total(n.bus_errors) == error_total(r.bus_errors) + 1
            &&& n.consecutive_bus_errors == if r.consecutive_bus_errors == u32::MAX {
                u32::MAX as int
            } else {
                r.consecutive_bus_errors + 1
            }
            &&& n.stats.rx_errors == r.stats.rx_errors + 1 || r.stats.rx_errors == u32::MAX
            &&& n.stats.rx_count == r.stats.rx_count
            &&& n.physical_hint_logged
            &&& n.ever_seen_valid_frame == r.ever_seen_valid_frame
        }),
        !bus_error_report(after_frame(r), k).backoff,
        after_frame(r).consecutive_bus_errors == 0,
        after_frame(r).ever_seen_valid_frame,
        after_frame(r).stats == r.stats,
        after_frame(r).bus_errors == r.bus_errors,
{
}

/// A forwarded frame counts as received; a dropped or rejected one as a
/// receive error; nothing else changes.
pub proof fn lemma_forward_counts(r: CanReader, o: ForwardOutcome)
    requires
        r.stats.rx_count < u32::MAX,
        r.stats.rx_errors < u32::MAX,
    ensures
        ({
            let n = after_forward(r, o);
            &&& n.stats.rx_count == r.stats.rx_count + if o == ForwardOutcome::Sent { 1int } else { 0 }
            &&& n.stats.rx_errors == r.stats.rx_errors + if o == ForwardOutcome::Sent { 0int } else { 1 }
            &&& n.stats.tx_count == r.stats.tx_count
            &&& n.stats.tx_errors == r.stats.tx_errors
            &&& n.stats.timeout_count == r.stats.timeout_count
            &&& n.bus_errors == r.bus_errors
            &&& n.consecutive_bus_errors == r.consecutive_bus_errors
            &&& n.physical_hint_logged == r.physical_hint_logged
            &&& n.ever_seen_valid_frame == r.ever_seen_valid_frame
        }),
{
}

/// After a valid frame, it takes exactly 25 bus errors in a row before the
/// reader backs off.
pub proof fn lemma_backoff_after_25(r: CanReader, kinds: Seq<BusErrorKind>)
    requires
        r.consecutive_bus_errors == 0,
    ensures
        errors_after(r, kinds).consecutive_bus_errors == kinds.len() || kinds.len()
            > u32::MAX,
        kinds.len() <= u32::MAX ==> (errors_after(r, kinds).consecutive_bus_errors >= 25
            <==> kinds.len() >= 25),
    decreases kinds.len(),
{
    if kinds.len() > 0 {
        lemma_backoff_after_25(r, kinds.drop_last());
    }
}

/// The reader state after a run of bus errors of the given kinds.
pub open spec fn errors_after(r: CanReader, kinds: Seq<BusErrorKind>) -> CanReader
    decreases kinds.len(),
{
    if kinds.len() == 0 {
        r
    } else {
        after_bus_error(errors_after(r, kinds.drop_last()), kinds.last())
    }
}

// ============================================================================
//                   UDP BROADCAST LOOP
// ============================================================================

/// What the broadcast loop does after checking the link.
#[derive(Clone, Copy, Debug, PartialEq, Eq, Structural)]
pub enum LinkStep {
    /// Link down: wait 500 ms and check again (`first`: it just went down).
    Wait { first: bool },
    /// Link up: take the next message (`recovered`: it was down before).
    Proceed { recovered: bool },
}

/// State of the UDP broadcast loop.
#[derive(Clone, Copy, Debug, PartialEq, Eq, Structural)]
pub struct Broadcaster {
    /// Messages taken from the channel.
    pub msg_count: u32,
    /// The link was reported down and has not come back yet.
    pub link_down_logged: bool,
}

impl Broadcaster {
    pub fn new() -> (r: Self)
        ensures
            r == (Broadcaster { msg_count: 0, link_down_logged: false }),
    {
        Broadcaster { msg_count: 0, link_down_logged: false }
    }

    /// Handles the link state.
    pub fn link_check(&mut self, up: bool) -> (step: LinkStep)
        ensures
            final(self).msg_count == old(self).msg_count,
            final(self).link_down_logged == !up,
            !up ==> step == (LinkStep::Wait { first: !old(self).link_down_logged }),
            up ==> step == (LinkStep::Proceed { recovered: old(self).link_down_logged }),
    {
        if !up {
            let first = !self.link_down_logged;
            self.link_down_logged = true;
            LinkStep::Wait { first }
        } else {
            let recovered = self.link_down_logged;
            self.link_down_logged = false;
            LinkStep::Proceed { recovered }
        }
    }

    /// Counts a message taken from the channel and serializes it into `buf`
    /// (as `Message::serialize` does); the length to send (0: nothing to send).
    pub fn prepare(&mut self, msg: &Message, buf: &mut [u8]) -> (n: usize)
        requires
            old(self).msg_count < u32::MAX,
        ensures
            final(self).msg_count == old(self).msg_count + 1,
            final(self).link_down_logged == old(self).link_down_logged,
            encode(msg@).len() <= old(buf)@.len() ==> n == encode(msg@).len() && final(buf)@
                == splice(old(buf)@, 0, encode(msg@)),
            encode(msg@).len() > old(buf)@.len() ==> {
                if msg is EcuJson && old(buf)@.len() >= 2 {
                    n == 1 && final(buf)@ == old(buf)@.update(0, 0x04u8)
                } else {
                    n == 0 && final(buf)@ == old(buf)@
                }
            },
    {
        self.msg_count = self.msg_count + 1;
        msg.serialize(buf)
    }

    /// A progress report is due after every 100th message.
    pub fn report_due(&self) -> (r: bool)
        ensures
            r == (self.msg_count % 100 == 0),
    {
        self.msg_count % 100 == 0
    }
}

} // verus!
