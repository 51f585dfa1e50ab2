use pingstats::address::Ipv4Address;
use pingstats::report::{
    csv_header, csv_row, hop_line, hop_line_with, loss_figure, panel, panel_with, rtt_text,
    short_millis, summary_line, totals_line, trace_header, unresolved_line, CsvRow, RttText,
};
use pingstats::stats::{ProbeOutcome, RttSummary, SessionStats};
use pingstats::sweep::HopReport;
use pingstats::text::{push_decimal, push_fixed_point, push_left_aligned, push_right_aligned};
use std::time::Duration;

const MS: u64 = 1_000_000;

fn host() -> Ipv4Address {
    Ipv4Address::from_octets(192, 0, 2, 1)
}

fn replied(rtt_nanos: u64) -> ProbeOutcome {
    ProbeOutcome::Replied { rtt_nanos, responder: host() }
}

fn stats(sent: u64, received: u64, rtt: Option<(u64, u64, u64)>) -> SessionStats {
    SessionStats {
        sent,
        received,
        loss_percent: if sent == 0 { None } else { Some(100 * (sent - received) / sent) },
        rtt: rtt.map(|(min_nanos, avg_nanos, max_nanos)| RttSummary {
            min_nanos,
            avg_nanos,
            max_nanos,
        }),
    }
}

fn decimal(n: u128) -> String {
    let mut out = String::new();
    push_decimal(&mut out, n);
    out
}

fn fixed(scaled: u128, places: u8) -> String {
    let mut out = String::new();
    push_fixed_point(&mut out, scaled, places);
    out
}

#[test]
fn decimal_digits() {
    assert_eq!(decimal(0), "0");
    assert_eq!(decimal(7), "7");
    assert_eq!(decimal(10), "10");
    assert_eq!(decimal(1_234_567_890), "1234567890");
    assert_eq!(decimal(u128::MAX), u128::MAX.to_string());
    let mut out = String::from("n=");
    push_decimal(&mut out, 42);
    assert_eq!(out, "n=42");
}

#[test]
fn fixed_point_figures() {
    assert_eq!(fixed(0, 3), "0.000");
    assert_eq!(fixed(5, 3), "0.005");
    assert_eq!(fixed(12_345, 3), "12.345");
    assert_eq!(fixed(12_345, 2), "123.45");
    assert_eq!(fixed(12_345, 1), "1234.5");
    assert_eq!(fixed(12_345, 0), "12345.");
    assert_eq!(fixed(1_000, 1), "100.0");
    assert_eq!(fixed(7, 10), "0.0000000007");
    assert_eq!(fixed(u128::MAX, 38), "3.40282366920938463463374607431768211455");
    assert_eq!(fixed(u128::MAX, 40), "0.0340282366920938463463374607431768211455");
}

#[test]
fn padding() {
    let mut out = String::new();
    push_right_aligned(&mut out, "ab", 5);
    out.push('|');
    push_left_aligned(&mut out, "cd", 4);
    out.push('|');
    push_right_aligned(&mut out, "toolong", 3);
    push_left_aligned(&mut out, "toolong", 3);
    push_left_aligned(&mut out, "", 2);
    out.push('|');
    // Width counts characters, not bytes.
    push_right_aligned(&mut out, "µs", 3);
    assert_eq!(out, "   ab|cd  |toolongtoolong  | µs");
}

#[test]
fn milliseconds_with_two_decimals() {
    assert_eq!(short_millis(0), "0.00");
    assert_eq!(short_millis(20 * MS), "20.00");
    assert_eq!(short_millis(1_234_000), "1.23");
    assert_eq!(short_millis(1_235_000), "1.24");
    assert_eq!(short_millis(4_999), "0.00");
    assert_eq!(short_millis(5_000), "0.01");
    assert_eq!(short_millis(999_995_000), "1000.00");
    assert_eq!(short_millis(u64::MAX), "18446744073709.55");
    for nanos in [0u64, 10 * MS, 1_230_000, 123_456_789, 999 * MS, 5_120_000] {
        assert_eq!(short_millis(nanos), format!("{:.2}", nanos as f64 / 1e6));
    }
}

#[test]
fn loss_with_one_decimal() {
    assert_eq!(loss_figure(4, 3), "25.0");
    assert_eq!(loss_figure(5, 0), "100.0");
    assert_eq!(loss_figure(5, 5), "0.0");
    assert_eq!(loss_figure(3, 2), "33.3");
    assert_eq!(loss_figure(3, 1), "66.7");
    assert_eq!(loss_figure(7, 6), "14.3");
    assert_eq!(loss_figure(2000, 1999), "0.1");
    assert_eq!(loss_figure(0, 0), "0.0");
    assert_eq!(loss_figure(2, 3), "0.0");
    assert_eq!(loss_figure(u64::MAX, 0), "100.0");
    for (sent, received) in [(4u64, 3u64), (3, 1), (9, 2), (50, 49), (10, 0)] {
        let loss = 100.0 * ((sent - received) as f64) / sent as f64;
        assert_eq!(loss_figure(sent, received), format!("{:.1}", loss));
    }
}

#[test]
fn a_csv_row_has_three_fields() {
    for (sequence, nanos) in [(0u32, 0u64), (7, 1_234_567), (u32::MAX, u64::MAX)] {
        let row = csv_row(sequence, "2024-05-01T12:00:00.5+00:00", replied(nanos));
        let fields: Vec<&str> = row.split(',').collect();
        assert_eq!(fields.len(), 3);
        assert_eq!(fields[0], sequence.to_string());
        assert_eq!(fields[1], "2024-05-01T12:00:00.5+00:00");
        assert_eq!(row.lines().count(), 1);
    }
    // A comma in the timestamp is one more comma in the row.
    assert_eq!(csv_row(1, "a,b", ProbeOutcome::TimedOut).matches(',').count(), 3);
}

#[test]
fn the_loss_figure_stays_within_its_range() {
    for sent in 1..=60u64 {
        for received in 0..=sent {
            let figure: f64 = loss_figure(sent, received).parse().unwrap();
            let whole = (100 * (sent - received) / sent) as f64;
            assert!((0.0..=100.0).contains(&figure));
            assert!(whole <= figure && figure <= whole + 1.0);
            assert_eq!(figure == 0.0, 2000 * (sent - received) < sent);
        }
    }
    assert_eq!(loss_figure(2000, 1999), "0.1");
    assert_eq!(loss_figure(2001, 2000), "0.0");
    assert_eq!(loss_figure(u64::MAX, u64::MAX - 1), "0.0");
}

#[test]
fn csv_rows() {
    assert_eq!(csv_header(), "seq,timestamp,rtt_ms");
    assert_eq!(
        csv_row(0, "2024-05-01T12:00:00.123456789+00:00", replied(10 * MS)),
        "0,2024-05-01T12:00:00.123456789+00:00,10.000"
    );
    assert_eq!(csv_row(41, "T", replied(1_234_567)), "41,T,1.235");
    assert_eq!(csv_row(41, "T", replied(1_234_499)), "41,T,1.234");
    assert_eq!(csv_row(u32::MAX, "", replied(499)), "4294967295,,0.000");
    assert_eq!(csv_row(2, "T", ProbeOutcome::TimedOut), "2,T,0.000");
    assert_eq!(csv_row(3, "T", replied(0)), "3,T,0.000");
    for nanos in [0u64, 10 * MS, 1_230_000, 123_456_789, 999 * MS] {
        assert_eq!(
            csv_row(7, "now", replied(nanos)),
            format!("{},{},{:.3}", 7, "now", nanos as f64 / 1e6)
        );
    }
}

#[test]
fn a_csv_row_is_stamped_when_it_is_opened() {
    let row = CsvRow::open(12);
    assert_eq!(row.sequence, 12);
    // RFC 3339 in UTC: date, `T`, time, offset.
    let stamp = row.timestamp.clone();
    assert!(stamp.len() >= 25);
    assert_eq!(&stamp[4..5], "-");
    assert_eq!(&stamp[10..11], "T");
    assert!(stamp.ends_with("+00:00"));
    assert!(stamp.chars().all(|c| c.is_ascii_digit() || "-+T:.".contains(c)));
    assert!(!stamp.contains(','));
    assert_eq!(row.close(replied(2 * MS)).matches(',').count(), 2);
    assert!(!row.close(ProbeOutcome::TimedOut).contains('\n'));
    assert_eq!(row.close(replied(2 * MS)), format!("12,{},2.000", stamp));
    assert_eq!(row.close(ProbeOutcome::TimedOut), format!("12,{},0.000", stamp));
    let stamped = CsvRow { sequence: 1, timestamp: String::from("2024-01-01T00:00:00+00:00") };
    assert_eq!(stamped.close(replied(MS)), "1,2024-01-01T00:00:00+00:00,1.000");
}

#[test]
fn summary_lines() {
    assert_eq!(
        summary_line("example.com", &stats(4, 3, Some((10 * MS, 20 * MS, 30 * MS)))),
        format!(
            "{:<25} | avg: {:>6.2} ms | min: {:>6.2} ms | max: {:>6.2} ms | loss: {:>4.1}%",
            "example.com", 20.0, 10.0, 30.0, 25.0
        )
    );
    assert_eq!(
        summary_line("h", &stats(3, 3, Some((1_500_000, 2_345_678, 1_234_567_890)))),
        "h                         | avg:   2.35 ms | min:   1.50 ms | max: 1234.57 ms | loss:  0.0%"
    );
    assert_eq!(
        summary_line("a-host-name-longer-than-the-column", &stats(5, 0, None)),
        "a-host-name-longer-than-the-column | no reply"
    );
    assert_eq!(summary_line("", &stats(0, 0, None)), format!("{:<25} | no reply", ""));
    assert_eq!(
        unresolved_line("nowhere.invalid"),
        format!("{:<25} | failed to resolve", "nowhere.invalid")
    );
}

#[test]
fn totals_lines() {
    assert_eq!(
        totals_line(&stats(50, 49, Some((1, 1, 1)))),
        "50 packets sent, 49 received, 2.0% packet loss"
    );
    assert_eq!(totals_line(&stats(5, 0, None)), "5 packets sent, 0 received, 100.0% packet loss");
    assert_eq!(totals_line(&stats(0, 0, None)), "0 packets sent, 0 received, no data");
}

#[test]
fn hop_lines() {
    let answered = HopReport {
        ttl: 3,
        outcome: ProbeOutcome::Replied {
            rtt_nanos: 12_340_000,
            responder: Ipv4Address::from_octets(203, 0, 113, 9),
        },
        reached: true,
        attributed: true,
    };
    assert_eq!(hop_line_with(&answered, "12.34ms"), " 3  203.0.113.9      12.34ms");
    assert_eq!(hop_line(&answered), " 3  203.0.113.9      12.34ms");
    let silent = HopReport {
        ttl: 12,
        outcome: ProbeOutcome::TimedOut,
        reached: false,
        attributed: true,
    };
    assert_eq!(hop_line(&silent), "12  *");
    assert_eq!(hop_line_with(&silent, "ignored"), "12  *");
    let far = HopReport {
        ttl: 255,
        outcome: ProbeOutcome::Replied {
            rtt_nanos: 1_500_000_000,
            responder: Ipv4Address::from_octets(255, 255, 255, 255),
        },
        reached: false,
        attributed: true,
    };
    assert_eq!(hop_line(&far), "255  255.255.255.255  1.50s");
    let unattributed = HopReport { attributed: false, ..answered };
    assert_eq!(hop_line_with(&unattributed, "x"), " ?  203.0.113.9      x");
}

#[test]
fn hop_times_are_written_as_durations_are() {
    for nanos in [0u64, 999, 1_000, 250_000, 12_340_000, 999_999_999, 1_500_000_000, u64::MAX] {
        let report = HopReport {
            ttl: 1,
            outcome: ProbeOutcome::Replied { rtt_nanos: nanos, responder: host() },
            reached: false,
            attributed: true,
        };
        assert_eq!(
            hop_line(&report),
            format!(" 1  192.0.2.1        {:.2?}", Duration::from_nanos(nanos))
        );
    }
}

#[test]
fn trace_headers() {
    assert_eq!(
        trace_header("example.com", Ipv4Address::from_octets(93, 184, 216, 34)),
        "Traceroute to example.com (93.184.216.34)"
    );
    assert_eq!(trace_header("", Ipv4Address { bits: 0 }), "Traceroute to  (0.0.0.0)");
}

#[test]
fn panels() {
    assert_eq!(panel("example.com", &stats(0, 0, None)), "No data yet");
    assert_eq!(
        panel("example.com", &stats(2, 0, None)),
        "host: example.com\ntransmitted: 2\nreceived: 0\nloss: 100.0%\nmin: -  avg: -  max: -\n(press 'q' to quit)"
    );
    assert_eq!(
        panel("example.com", &stats(4, 3, Some((10 * MS, 20 * MS, 1_500 * MS)))),
        "host: example.com\ntransmitted: 4\nreceived: 3\nloss: 25.0%\nmin: 10.00ms  avg: 20.00ms  max: 1.50s\n(press 'q' to quit)"
    );
    let times = RttText { min: String::from("a"), avg: String::from("b"), max: String::from("c") };
    assert_eq!(
        panel_with("h", &stats(1, 1, Some((1, 1, 1))), &Some(times)),
        "host: h\ntransmitted: 1\nreceived: 1\nloss: 0.0%\nmin: a  avg: b  max: c\n(press 'q' to quit)"
    );
    assert_eq!(
        panel_with("h", &stats(1, 1, Some((1, 1, 1))), &None),
        "host: h\ntransmitted: 1\nreceived: 1\nloss: 0.0%\nmin: -  avg: -  max: -\n(press 'q' to quit)"
    );
}

#[test]
fn round_trip_times_as_text() {
    assert!(rtt_text(&stats(3, 0, None)).is_none());
    let times = rtt_text(&stats(3, 3, Some((250_000, 12_345_678, 2_000_000_000)))).unwrap();
    assert_eq!(times.min, "250.00µs");
    assert_eq!(times.avg, "12.35ms");
    assert_eq!(times.max, "2.00s");
}
