use pingstats::address::Ipv4Address;
use pingstats::stats::{Aggregator, ProbeOutcome, RttSummary, SessionStats, WINDOW_LEN};

const MS: u64 = 1_000_000;

fn host() -> Ipv4Address {
    Ipv4Address::from_octets(192, 0, 2, 1)
}

fn replied(rtt_nanos: u64) -> ProbeOutcome {
    ProbeOutcome::Replied { rtt_nanos, responder: host() }
}

fn aggregate(outcomes: &[ProbeOutcome]) -> Aggregator {
    let mut aggregator = Aggregator::new();
    for outcome in outcomes {
        aggregator.record(*outcome);
    }
    aggregator
}

#[test]
fn no_probe_yet_gives_no_data() {
    let stats = Aggregator::new().snapshot();
    assert_eq!(
        stats,
        SessionStats { sent: 0, received: 0, loss_percent: None, rtt: None }
    );
}

#[test]
fn five_probes_all_timed_out() {
    let stats = aggregate(&[ProbeOutcome::TimedOut; 5]).snapshot();
    assert_eq!(stats.sent, 5);
    assert_eq!(stats.received, 0);
    assert_eq!(stats.loss_percent, Some(100));
    assert_eq!(stats.rtt, None);
}

#[test]
fn three_replies_and_one_timeout() {
    let stats = aggregate(&[
        replied(10 * MS),
        replied(20 * MS),
        ProbeOutcome::TimedOut,
        replied(30 * MS),
    ])
    .snapshot();
    assert_eq!(stats.sent, 4);
    assert_eq!(stats.received, 3);
    assert_eq!(stats.loss_percent, Some(25));
    assert_eq!(
        stats.rtt,
        Some(RttSummary { min_nanos: 10 * MS, avg_nanos: 20 * MS, max_nanos: 30 * MS })
    );
}

#[test]
fn sent_counts_records_and_received_counts_replies() {
    let mut aggregator = Aggregator::new();
    let mut replies = 0;
    for n in 0..200u64 {
        if n % 3 == 0 {
            aggregator.record(ProbeOutcome::TimedOut);
        } else {
            aggregator.record(replied(n));
            replies += 1;
        }
        let stats = aggregator.snapshot();
        assert_eq!(stats.sent, n + 1);
        assert_eq!(stats.received, replies);
        assert_eq!(aggregator.len() as u64, n + 1);
    }
}

#[test]
fn loss_is_the_whole_part_of_the_formula() {
    for sent in 1..=40u64 {
        for received in 0..=sent {
            let mut aggregator = Aggregator::new();
            for n in 0..sent {
                aggregator.record(if n < received { replied(1) } else { ProbeOutcome::TimedOut });
            }
            let loss = aggregator.snapshot().loss_percent.unwrap();
            assert_eq!(loss, 100 * (sent - received) / sent);
            assert!(loss <= 100);
        }
    }
}

#[test]
fn loss_of_one_in_three() {
    let stats = aggregate(&[replied(1), replied(1), ProbeOutcome::TimedOut]).snapshot();
    assert_eq!(stats.loss_percent, Some(33));
    let stats = aggregate(&[replied(1), ProbeOutcome::TimedOut, ProbeOutcome::TimedOut]).snapshot();
    assert_eq!(stats.loss_percent, Some(66));
}

#[test]
fn loss_follows_the_probes_issued_so_far() {
    let mut aggregator = Aggregator::new();
    aggregator.record(replied(MS));
    assert_eq!(aggregator.snapshot().loss_percent, Some(0));
    aggregator.record(ProbeOutcome::TimedOut);
    assert_eq!(aggregator.snapshot().loss_percent, Some(50));
    aggregator.record(replied(MS));
    aggregator.record(replied(MS));
    assert_eq!(aggregator.snapshot().loss_percent, Some(25));
}

#[test]
fn snapshot_twice_is_identical() {
    let aggregator = aggregate(&[replied(7), ProbeOutcome::TimedOut, replied(11)]);
    let first = aggregator.snapshot();
    let second = aggregator.snapshot();
    assert_eq!(first, second);
    assert_eq!(aggregator.len(), 3);
}

#[test]
fn zero_round_trip_time_is_not_absence() {
    let stats = aggregate(&[replied(0)]).snapshot();
    assert_eq!(stats.rtt, Some(RttSummary { min_nanos: 0, avg_nanos: 0, max_nanos: 0 }));
    assert_eq!(stats.loss_percent, Some(0));
}

#[test]
fn mean_is_rounded_down_and_does_not_overflow() {
    let stats = aggregate(&[replied(1), replied(2)]).snapshot();
    assert_eq!(stats.rtt.unwrap().avg_nanos, 1);
    let stats = aggregate(&[replied(u64::MAX), replied(u64::MAX), replied(u64::MAX - 3)]).snapshot();
    assert_eq!(
        stats.rtt,
        Some(RttSummary {
            min_nanos: u64::MAX - 3,
            avg_nanos: u64::MAX - 1,
            max_nanos: u64::MAX
        })
    );
}

#[test]
fn outcomes_keep_their_order() {
    let aggregator = aggregate(&[replied(3), ProbeOutcome::TimedOut, replied(1)]);
    assert_eq!(aggregator.get(0), Some(replied(3)));
    assert_eq!(aggregator.get(1), Some(ProbeOutcome::TimedOut));
    assert_eq!(aggregator.get(2), Some(replied(1)));
    assert_eq!(aggregator.get(3), None);
}

#[test]
fn recent_samples_substitute_zero_for_timeouts() {
    let aggregator = aggregate(&[replied(3), ProbeOutcome::TimedOut, replied(1)]);
    assert_eq!(aggregator.recent_samples(), vec![3, 0, 1]);
    assert_eq!(Aggregator::new().recent_samples(), Vec::<u64>::new());
}

#[test]
fn recent_samples_keep_the_last_fifty() {
    assert_eq!(WINDOW_LEN, 50);
    let mut aggregator = Aggregator::new();
    for n in 0..50u64 {
        aggregator.record(replied(n));
    }
    assert_eq!(aggregator.recent_samples(), (0..50).collect::<Vec<u64>>());
    aggregator.record(ProbeOutcome::TimedOut);
    let mut expected: Vec<u64> = (1..50).collect();
    expected.push(0);
    assert_eq!(aggregator.recent_samples(), expected);
    for n in 100..170u64 {
        aggregator.record(replied(n));
    }
    assert_eq!(aggregator.recent_samples(), (120..170).collect::<Vec<u64>>());
    assert_eq!(aggregator.snapshot().sent, 121);
}
