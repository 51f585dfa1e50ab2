use pingstats::address::Ipv4Address;
use pingstats::correlate::echo_reply_to;
use pingstats::probe::{
    poll_slice, Probe, ProbeAction, ProbeKind, ProbeState, ECHO_TIMEOUT_NANOS, HOP_TIMEOUT_NANOS,
    POLL_SLICE_NANOS,
};
use pingstats::stats::ProbeOutcome;
use pingstats::wire::build_echo_request;

const SECOND: u64 = 1_000_000_000;

fn target() -> Ipv4Address {
    Ipv4Address::from_octets(198, 51, 100, 7)
}

fn sent_probe(kind: ProbeKind, at: u64) -> Probe {
    let mut probe = Probe::new(kind, 0x4242, 5);
    probe.start(at);
    probe
}

#[test]
fn timeouts_are_one_and_two_seconds() {
    assert_eq!(ECHO_TIMEOUT_NANOS, SECOND);
    assert_eq!(HOP_TIMEOUT_NANOS, 2 * SECOND);
    assert_eq!(Probe::new(ProbeKind::Echo, 1, 1).timeout(), SECOND);
    assert_eq!(Probe::new(ProbeKind::Hop, 1, 1).timeout(), 2 * SECOND);
}

#[test]
fn a_new_probe_waits_to_be_transmitted() {
    let probe = Probe::new(ProbeKind::Echo, 0x4242, 5);
    assert_eq!(probe.state, ProbeState::Created);
    assert_eq!(probe.action(), ProbeAction::Transmit);
    assert_eq!(probe.outcome(), None);
    assert!(!probe.send_failed);
    assert_eq!(probe.request(), build_echo_request(0x4242, 5));
}

#[test]
fn start_records_the_time_and_sets_the_deadline() {
    let mut probe = Probe::new(ProbeKind::Echo, 0x4242, 5);
    assert_eq!(probe.start(250), ProbeAction::Listen { deadline: SECOND + 250 });
    assert_eq!(probe.state, ProbeState::Sent { sent_at: 250 });
    // Starting again changes nothing.
    assert_eq!(probe.start(999), ProbeAction::Listen { deadline: SECOND + 250 });
    assert_eq!(probe.state, ProbeState::Sent { sent_at: 250 });
}

#[test]
fn the_matching_reply_resolves_the_probe() {
    let mut probe = sent_probe(ProbeKind::Echo, 1_000);
    let raw = echo_reply_to(&probe.request()).unwrap();
    let outcome = ProbeOutcome::Replied { rtt_nanos: 12_345_678, responder: target() };
    assert_eq!(
        probe.on_packet(&raw, target(), 12_346_678),
        ProbeAction::Finish { outcome }
    );
    assert_eq!(probe.outcome(), Some(outcome));
    assert_eq!(
        probe.state,
        ProbeState::Replied { rtt_nanos: 12_345_678, responder: target() }
    );
}

#[test]
fn stray_packets_do_not_move_the_deadline() {
    let mut probe = sent_probe(ProbeKind::Echo, 0);
    let other = echo_reply_to(&build_echo_request(0x4242, 6)).unwrap();
    let foreign = echo_reply_to(&build_echo_request(0x4243, 5)).unwrap();
    let time_exceeded = [11u8, 0, 0xf4, 0xff, 0, 0, 0, 0];
    assert_eq!(probe.on_packet(&other, target(), 100), ProbeAction::Listen { deadline: SECOND });
    assert_eq!(probe.on_packet(&foreign, target(), 200), ProbeAction::Listen { deadline: SECOND });
    assert_eq!(
        probe.on_packet(&time_exceeded, target(), SECOND - 1),
        ProbeAction::Listen { deadline: SECOND }
    );
    assert_eq!(probe.on_packet(&[], target(), SECOND - 1), ProbeAction::Listen { deadline: SECOND });
    assert_eq!(probe.state, ProbeState::Sent { sent_at: 0 });
}

#[test]
fn the_probe_times_out_at_the_deadline() {
    let mut probe = sent_probe(ProbeKind::Echo, 500);
    assert_eq!(probe.on_quiet(SECOND + 499), ProbeAction::Listen { deadline: SECOND + 500 });
    assert_eq!(
        probe.on_quiet(SECOND + 500),
        ProbeAction::Finish { outcome: ProbeOutcome::TimedOut }
    );
    assert_eq!(probe.outcome(), Some(ProbeOutcome::TimedOut));
    assert!(!probe.send_failed);
}

#[test]
fn a_late_reply_counts_as_a_timeout() {
    let mut probe = sent_probe(ProbeKind::Echo, 0);
    let raw = echo_reply_to(&probe.request()).unwrap();
    assert_eq!(
        probe.on_packet(&raw, target(), SECOND),
        ProbeAction::Finish { outcome: ProbeOutcome::TimedOut }
    );
    // The outcome is never revised.
    assert_eq!(
        probe.on_packet(&raw, target(), 5),
        ProbeAction::Finish { outcome: ProbeOutcome::TimedOut }
    );
    assert_eq!(probe.start(0), ProbeAction::Finish { outcome: ProbeOutcome::TimedOut });
    assert_eq!(probe.state, ProbeState::TimedOut);
}

#[test]
fn a_reply_just_before_the_deadline_is_accepted() {
    let mut probe = sent_probe(ProbeKind::Echo, 0);
    let raw = echo_reply_to(&probe.request()).unwrap();
    probe.on_packet(&raw, target(), SECOND - 1);
    assert_eq!(
        probe.outcome(),
        Some(ProbeOutcome::Replied { rtt_nanos: SECOND - 1, responder: target() })
    );
    // A duplicate does not change the time measured.
    probe.on_packet(&raw, target(), SECOND / 2);
    probe.on_quiet(5 * SECOND);
    probe.transmit_failed();
    assert_eq!(
        probe.outcome(),
        Some(ProbeOutcome::Replied { rtt_nanos: SECOND - 1, responder: target() })
    );
}

#[test]
fn a_failed_transmission_counts_as_a_timeout() {
    let mut probe = sent_probe(ProbeKind::Echo, 0);
    assert_eq!(
        probe.transmit_failed(),
        ProbeAction::Finish { outcome: ProbeOutcome::TimedOut }
    );
    assert!(probe.send_failed);
    assert_eq!(probe.outcome(), Some(ProbeOutcome::TimedOut));
}

#[test]
fn nothing_happens_to_a_probe_that_was_not_started() {
    let mut probe = Probe::new(ProbeKind::Echo, 0x4242, 5);
    let raw = echo_reply_to(&probe.request()).unwrap();
    assert_eq!(probe.on_packet(&raw, target(), 10), ProbeAction::Transmit);
    assert_eq!(probe.on_quiet(10 * SECOND), ProbeAction::Transmit);
    assert_eq!(probe.transmit_failed(), ProbeAction::Transmit);
    assert_eq!(probe, Probe::new(ProbeKind::Echo, 0x4242, 5));
}

#[test]
fn a_hop_probe_takes_any_message_with_a_header() {
    let router = Ipv4Address::from_octets(10, 0, 0, 1);
    let time_exceeded = [11u8, 0, 0xf4, 0xff, 0, 0, 0, 0];
    let mut probe = sent_probe(ProbeKind::Hop, 0);
    assert_eq!(
        probe.on_packet(&[11, 0, 0], router, 10),
        ProbeAction::Listen { deadline: 2 * SECOND }
    );
    assert_eq!(
        probe.on_packet(&time_exceeded, router, 3_000),
        ProbeAction::Finish {
            outcome: ProbeOutcome::Replied { rtt_nanos: 3_000, responder: router }
        }
    );
    let mut probe = sent_probe(ProbeKind::Hop, 0);
    let foreign = echo_reply_to(&build_echo_request(1, 1)).unwrap();
    probe.on_packet(&foreign, router, SECOND + 1);
    assert_eq!(
        probe.outcome(),
        Some(ProbeOutcome::Replied { rtt_nanos: SECOND + 1, responder: router })
    );
}

#[test]
fn a_hop_probe_times_out_after_two_seconds() {
    let mut probe = sent_probe(ProbeKind::Hop, 7);
    assert_eq!(probe.on_quiet(2 * SECOND + 6), ProbeAction::Listen { deadline: 2 * SECOND + 7 });
    assert_eq!(
        probe.on_quiet(2 * SECOND + 7),
        ProbeAction::Finish { outcome: ProbeOutcome::TimedOut }
    );
}

#[test]
fn the_deadline_stops_at_the_end_of_time() {
    let mut probe = Probe::new(ProbeKind::Echo, 1, 1);
    assert_eq!(probe.start(u64::MAX - 5), ProbeAction::Listen { deadline: u64::MAX });
    assert_eq!(probe.on_quiet(u64::MAX - 1), ProbeAction::Listen { deadline: u64::MAX });
    assert_eq!(
        probe.on_quiet(u64::MAX),
        ProbeAction::Finish { outcome: ProbeOutcome::TimedOut }
    );
}

#[test]
fn a_clock_that_ran_backwards_gives_zero() {
    let mut probe = sent_probe(ProbeKind::Echo, 1_000);
    let raw = echo_reply_to(&probe.request()).unwrap();
    probe.on_packet(&raw, target(), 900);
    assert_eq!(
        probe.outcome(),
        Some(ProbeOutcome::Replied { rtt_nanos: 0, responder: target() })
    );
}

#[test]
fn a_receive_call_lasts_one_slice_at_most() {
    assert_eq!(POLL_SLICE_NANOS, 50_000_000);
    assert_eq!(poll_slice(SECOND, 0), 50_000_000);
    assert_eq!(poll_slice(SECOND, SECOND - 50_000_001), 50_000_000);
    assert_eq!(poll_slice(SECOND, SECOND - 50_000_000), 50_000_000);
    assert_eq!(poll_slice(SECOND, SECOND - 49_999_999), 49_999_999);
    assert_eq!(poll_slice(SECOND, SECOND - 1), 1);
    assert_eq!(poll_slice(SECOND, SECOND), 0);
    assert_eq!(poll_slice(SECOND, SECOND + 1), 0);
    assert_eq!(poll_slice(u64::MAX, 0), 50_000_000);
    assert_eq!(poll_slice(0, u64::MAX), 0);
}
