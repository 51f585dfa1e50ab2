//! The lines that the front-ends write: CSV rows, the summary of a host,
//! the hops of a traceroute and the panel of the dashboard.

use crate::address::{octets_of, Ipv4Address};
use crate::stats::{chart_sample, ProbeOutcome, SessionStats};
use crate::sweep::HopReport;
use crate::text::{
    count_of, decimal, fixed_point, is_digit_char, left_aligned, lemma_count_of_concat,
    lemma_count_of_single, lemma_count_of_zero, lemma_decimal_is_digits,
    lemma_fixed_point_shape, push_decimal, push_fixed_point, push_left_aligned,
    push_right_aligned, right_aligned, rounded_div,
};
use vstd::prelude::*;
use vstd::string::StringExecFns;

verus! {

/// Width of the host column of a summary line.
pub const HOST_WIDTH: usize = 25;

/// Width of a round-trip time in a summary line.
pub const RTT_WIDTH: usize = 6;

/// Width of the loss in a summary line.
pub const LOSS_WIDTH: usize = 4;

/// Width of the hop number of a traceroute line.
pub const HOP_WIDTH: usize = 2;

/// Width of the address of a traceroute line.
pub const ADDRESS_WIDTH: usize = 15;

/// The text that `std::time::Duration` gives for `nanos` nanoseconds when
/// it is formatted with `{:.2?}`.
pub uninterp spec fn duration_text(nanos: u64) -> Seq<char>;

/// Formats a duration of `nanos` nanoseconds with `{:.2?}`, as
/// `std::time::Duration` writes it: in seconds, milliseconds, microseconds
/// or nanoseconds, whichever fits, with two decimals.
///
/// Trusted: the text depends on `nanos` alone. What the text is, is not
/// stated.
#[verifier::external_body]
fn format_duration(nanos: u64) -> (text: String)
    ensures
        text@ == duration_text(nanos),
{
    format!("{:.2?}", std::time::Duration::from_nanos(nanos))
}

/// Whether `c` can stand in a timestamp: a digit, or one of `-`, `+`, `T`,
/// `:` and `.`.
pub open spec fn is_timestamp_char(c: char) -> bool {
    is_digit_char(c) || c == '-' || c == '+' || c == 'T' || c == ':' || c == '.'
}

/// Shortest timestamp: `1970-01-01T00:00:00+00:00`.
pub const MIN_TIMESTAMP_LEN: usize = 25;

/// What holds of every UTC timestamp in ISO 8601, whatever the clock
/// reads: date, time and offset take 25 characters or more, all of them
/// digits and the marks `-`, `+`, `T`, `:` and `.`, and the offset at the
/// end is `+00:00`. Where the fields stand is not said: a year past 9999
/// has a sign and a fifth digit.
pub open spec fn timestamp_shape(text: Seq<char>) -> bool {
    &&& text.len() >= MIN_TIMESTAMP_LEN
    &&& forall|i: int| 0 <= i < text.len() ==> is_timestamp_char(#[trigger] text[i])
    &&& text.subrange(text.len() - 6, text.len() as int) == seq!['+', '0', '0', ':', '0', '0']
}

/// Reads the wall clock through `chrono::Utc::now` and writes it with
/// `to_rfc3339`.
///
/// Trusted: whatever the clock reads, chrono writes year, month, day, `T`,
/// hour, minute and second in digits with `-` and `:` between them, then
/// a point and digits where the second has a fraction, then the offset of
/// UTC as `+00:00`. Which time it is, is not claimed.
#[verifier::external_body]
fn utc_timestamp() -> (text: String)
    ensures
        timestamp_shape(text@),
{
    chrono::Utc::now().to_rfc3339()
}

/// `nanos` nanoseconds as thousandths of a millisecond, rounded to the
/// nearest.
pub open spec fn micros_rounded(nanos: u64) -> nat {
    rounded_div(nanos as nat, 1_000)
}

/// `nanos` nanoseconds as hundredths of a millisecond, rounded to the
/// nearest.
pub open spec fn centimillis_rounded(nanos: u64) -> nat {
    rounded_div(nanos as nat, 10_000)
}

/// The loss in tenths of a percent, rounded to the nearest; zero while
/// nothing was sent.
pub open spec fn loss_tenths(sent: u64, received: u64) -> nat {
    if sent == 0 || received >= sent {
        0
    } else {
        rounded_div((1000 * (sent - received)) as nat, sent as nat)
    }
}

/// Milliseconds with three decimals, as a CSV row holds them.
pub open spec fn millis_text(nanos: u64) -> Seq<char> {
    fixed_point(micros_rounded(nanos), 3)
}

/// Milliseconds with two decimals, as a summary line holds them.
pub open spec fn short_millis_text(nanos: u64) -> Seq<char> {
    fixed_point(centimillis_rounded(nanos), 2)
}

/// The loss in percent with one decimal.
pub open spec fn loss_text(sent: u64, received: u64) -> Seq<char> {
    fixed_point(loss_tenths(sent, received), 1)
}

/// The address in dotted-quad notation.
pub open spec fn dotted_quad(address: Ipv4Address) -> Seq<char> {
    let parts = octets_of(address.bits);
    decimal(parts.0 as nat) + seq!['.'] + decimal(parts.1 as nat) + seq!['.'] + decimal(
        parts.2 as nat,
    ) + seq!['.'] + decimal(parts.3 as nat)
}

/// The header row of the CSV export.
pub open spec fn csv_header_text() -> Seq<char> {
    "seq,timestamp,rtt_ms"@
}

/// The CSV row of the probe numbered `sequence` that was transmitted at
/// `timestamp`: a probe that timed out has `0.000` for its time.
pub open spec fn csv_row_text(
    sequence: u32,
    timestamp: Seq<char>,
    outcome: ProbeOutcome,
) -> Seq<char> {
    decimal(sequence as nat) + seq![','] + timestamp + seq![','] + millis_text(
        chart_sample(outcome),
    )
}

/// The summary line of one host.
pub open spec fn summary_text(host: Seq<char>, stats: SessionStats) -> Seq<char> {
    match stats.rtt {
        None => left_aligned(host, HOST_WIDTH as nat) + " | no reply"@,
        Some(rtt) => left_aligned(host, HOST_WIDTH as nat) + " | avg: "@ + right_aligned(
            short_millis_text(rtt.avg_nanos),
            RTT_WIDTH as nat,
        ) + " ms | min: "@ + right_aligned(short_millis_text(rtt.min_nanos), RTT_WIDTH as nat)
            + " ms | max: "@ + right_aligned(short_millis_text(rtt.max_nanos), RTT_WIDTH as nat)
            + " ms | loss: "@ + right_aligned(
            loss_text(stats.sent, stats.received),
            LOSS_WIDTH as nat,
        ) + "%"@,
    }
}

/// The line of a host whose name did not resolve to an IPv4 address.
pub open spec fn unresolved_text(host: Seq<char>) -> Seq<char> {
    left_aligned(host, HOST_WIDTH as nat) + " | failed to resolve"@
}

/// The closing line of a run: how many probes went out and came back.
pub open spec fn totals_text(stats: SessionStats) -> Seq<char> {
    decimal(stats.sent as nat) + " packets sent, "@ + decimal(stats.received as nat)
        + " received, "@ + if stats.sent == 0 {
        "no data"@
    } else {
        loss_text(stats.sent, stats.received) + "% packet loss"@
    }
}

/// The hop number of a traceroute line: a question mark where the probe did
/// not go out with that hop limit.
pub open spec fn hop_number_text(report: HopReport) -> Seq<char> {
    if report.attributed {
        decimal(report.ttl as nat)
    } else {
        "?"@
    }
}

/// The traceroute line of one hop, with `elapsed` for the round-trip time
/// of a hop that answered. A silent hop shows as `*`.
pub open spec fn hop_text(report: HopReport, elapsed: Seq<char>) -> Seq<char> {
    match report.outcome {
        ProbeOutcome::TimedOut => right_aligned(hop_number_text(report), HOP_WIDTH as nat)
            + "  *"@,
        ProbeOutcome::Replied { responder, .. } => right_aligned(
            hop_number_text(report),
            HOP_WIDTH as nat,
        ) + "  "@ + left_aligned(dotted_quad(responder), ADDRESS_WIDTH as nat) + "  "@ + elapsed,
    }
}

/// The first line of a traceroute.
pub open spec fn trace_header_text(host: Seq<char>, destination: Ipv4Address) -> Seq<char> {
    "Traceroute to "@ + host + " ("@ + dotted_quad(destination) + ")"@
}

/// The round-trip times of a summary as the dashboard shows them.
pub struct RttText {
    pub min: String,
    pub avg: String,
    pub max: String,
}

/// The panel of the dashboard: nothing to show while no probe was issued,
/// dashes for the times while no probe was answered.
pub open spec fn panel_text(
    host: Seq<char>,
    stats: SessionStats,
    times: Option<(Seq<char>, Seq<char>, Seq<char>)>,
) -> Seq<char> {
    if stats.sent == 0 {
        "No data yet"@
    } else {
        "host: "@ + host + "\ntransmitted: "@ + decimal(stats.sent as nat) + "\nreceived: "@
            + decimal(stats.received as nat) + "\nloss: "@ + loss_text(stats.sent, stats.received)
            + "%\nmin: "@ + match times {
            Some(t) => t.0 + "  avg: "@ + t.1 + "  max: "@ + t.2,
            None => "-  avg: -  max: -"@,
        } + "\n(press 'q' to quit)"@
    }
}

/// The texts of the times of `stats`, each as `duration_text` gives it.
pub open spec fn rtt_texts(stats: SessionStats) -> Option<(Seq<char>, Seq<char>, Seq<char>)> {
    match stats.rtt {
        Some(rtt) => Some(
            (
                duration_text(rtt.min_nanos),
                duration_text(rtt.avg_nanos),
                duration_text(rtt.max_nanos),
            ),
        ),
        None => None,
    }
}

/// A timestamp holds neither a comma nor a line break, so it cannot end
/// the field or the row that it stands in.
pub proof fn lemma_timestamp_is_one_field(text: Seq<char>)
    requires
        timestamp_shape(text),
    ensures
        count_of(text, ',') == 0,
        count_of(text, '\n') == 0,
        count_of(text, '\r') == 0,
{
    lemma_count_of_zero(text, ',');
    lemma_count_of_zero(text, '\n');
    lemma_count_of_zero(text, '\r');
    assert forall|i: int| 0 <= i < text.len() implies text[i] != ',' && text[i] != '\n'
        && text[i] != '\r' by {
        assert(is_timestamp_char(text[i]));
    }
}

/// A CSV row has three fields: with a timestamp that holds no comma, the
/// row holds two commas, and it holds a line break only where the timestamp
/// does.
pub proof fn lemma_csv_row_has_three_fields(
    sequence: u32,
    timestamp: Seq<char>,
    outcome: ProbeOutcome,
)
    ensures
        count_of(csv_row_text(sequence, timestamp, outcome), ',') == 2 + count_of(timestamp, ','),
        count_of(csv_row_text(sequence, timestamp, outcome), '\n') == count_of(timestamp, '\n'),
        count_of(csv_row_text(sequence, timestamp, outcome), '\r') == count_of(timestamp, '\r'),
{
    lemma_csv_row_count(sequence, timestamp, outcome, ',');
    lemma_csv_row_count(sequence, timestamp, outcome, '\n');
    lemma_csv_row_count(sequence, timestamp, outcome, '\r');
    lemma_count_of_single(',', ',');
    lemma_count_of_single(',', '\n');
    lemma_count_of_single(',', '\r');
}

/// A character that is neither a digit nor the point stands in a CSV row as
/// often as in its timestamp and in the two commas of the row.
proof fn lemma_csv_row_count(sequence: u32, timestamp: Seq<char>, outcome: ProbeOutcome, c: char)
    requires
        !is_digit_char(c),
        c != '.',
    ensures
        count_of(csv_row_text(sequence, timestamp, outcome), c) == 2 * count_of(seq![','], c)
            + count_of(timestamp, c),
{
    let number = decimal(sequence as nat);
    let comma = seq![','];
    let time = millis_text(chart_sample(outcome));
    lemma_decimal_is_digits(sequence as nat);
    lemma_fixed_point_shape(micros_rounded(chart_sample(outcome)), 3);
    lemma_count_of_zero(number, c);
    lemma_count_of_zero(time, c);
    assert(count_of(number, c) == 0);
    assert(count_of(time, c) == 0) by {
        assert forall|i: int| 0 <= i < time.len() implies time[i] != c by {
            if i != time.len() - 3 - 1 {
                assert(is_digit_char(time[i]));
            }
        }
    }
    lemma_count_of_concat(number, comma, c);
    lemma_count_of_concat(number + comma, timestamp, c);
    lemma_count_of_concat(number + comma + timestamp, comma, c);
    lemma_count_of_concat(number + comma + timestamp + comma, time, c);
}

/// The figure that the front-ends print for the loss lies between 0.0 and
/// 100.0. It is 0.0 when nothing was lost and 100.0 when everything was; a
/// loss of one probe in two thousand or more shows as 0.1 at least; and
/// the figure is never below the whole percent `100 * lost / sent`, nor a
/// whole percent or more above it.
pub proof fn lemma_loss_tenths_range(sent: u64, received: u64)
    ensures
        loss_tenths(sent, received) <= 1000,
        sent == 0 || received >= sent ==> loss_tenths(sent, received) == 0,
        sent > 0 && received == 0 ==> loss_tenths(sent, received) == 1000,
        sent > received ==> (loss_tenths(sent, received) >= 1 <==> 2000 * (sent - received)
            >= sent),
        sent > received ==> 10 * (100 * (sent - received) / (sent as int)) <= loss_tenths(
            sent,
            received,
        ) <= 10 * (100 * (sent - received) / (sent as int)) + 10,
{
    if sent > received {
        let lost = sent - received;
        let s = sent as int;
        let tenths = (1000 * lost + s / 2) / s;
        let percent = 100 * lost / s;
        assert(loss_tenths(sent, received) == tenths);
        assert(0 <= tenths <= 1000 && (lost == s ==> tenths == 1000) && (tenths >= 1 <==> 2000
            * lost >= s)) by (nonlinear_arith)
            requires
                0 < lost <= s,
                tenths == (1000 * lost + s / 2) / s,
        ;
        assert(10 * percent <= tenths <= 10 * percent + 10) by (nonlinear_arith)
            requires
                0 < lost <= s,
                tenths == (1000 * lost + s / 2) / s,
                percent == 100 * lost / s,
        ;
    }
}

/// Appends `nanos` as milliseconds with three decimals.
pub fn push_millis(out: &mut String, nanos: u64)
    ensures
        final(out)@ == old(out)@ + millis_text(nanos),
{
    let micros: u128 = (nanos as u128 + 500) / 1_000;
    push_fixed_point(out, micros, 3);
}

/// Milliseconds with two decimals.
pub fn short_millis(nanos: u64) -> (text: String)
    ensures
        text@ == short_millis_text(nanos),
{
    let scaled: u128 = (nanos as u128 + 5_000) / 10_000;
    let mut text = String::new();
    push_fixed_point(&mut text, scaled, 2);
    assert(text@ =~= short_millis_text(nanos));
    text
}

/// The loss in percent with one decimal.
pub fn loss_figure(sent: u64, received: u64) -> (text: String)
    ensures
        text@ == loss_text(sent, received),
{
    let tenths: u128 = if sent == 0 || received >= sent {
        0
    } else {
        (1000 * ((sent - received) as u128) + (sent as u128) / 2) / (sent as u128)
    };
    let mut text = String::new();
    push_fixed_point(&mut text, tenths, 1);
    assert(text@ =~= loss_text(sent, received));
    text
}

/// Appends the address in dotted-quad notation.
pub fn push_dotted_quad(out: &mut String, address: Ipv4Address)
    ensures
        final(out)@ == old(out)@ + dotted_quad(address),
{
    let parts = address.octets();
    push_decimal(out, parts.0 as u128);
    out.push('.');
    push_decimal(out, parts.1 as u128);
    out.push('.');
    push_decimal(out, parts.2 as u128);
    out.push('.');
    push_decimal(out, parts.3 as u128);
    assert(out@ =~= old(out)@ + dotted_quad(address));
}

/// The header row of the CSV export.
pub fn csv_header() -> (row: String)
    ensures
        row@ == csv_header_text(),
{
    String::from_str("seq,timestamp,rtt_ms")
}

/// The CSV row of the probe numbered `sequence`, transmitted at the wall
/// clock time `timestamp`, that ended with `outcome`.
pub fn csv_row(sequence: u32, timestamp: &str, outcome: ProbeOutcome) -> (row: String)
    ensures
        row@ == csv_row_text(sequence, timestamp@, outcome),
{
    let nanos = match outcome {
        ProbeOutcome::Replied { rtt_nanos, .. } => rtt_nanos,
        ProbeOutcome::TimedOut => 0,
    };
    let mut row = String::new();
    push_decimal(&mut row, sequence as u128);
    row.push(',');
    row.append(timestamp);
    row.push(',');
    push_millis(&mut row, nanos);
    assert(row@ =~= csv_row_text(sequence, timestamp@, outcome));
    row
}

/// A CSV row in the making: opened when the request is transmitted, closed
/// when the probe is over.
pub struct CsvRow {
    pub sequence: u32,
    pub timestamp: String,
}

impl CsvRow {
    /// Opens the row of the probe numbered `sequence` with the UTC wall
    /// clock time of this moment, in ISO 8601.
    pub fn open(sequence: u32) -> (row: CsvRow)
        ensures
            row.sequence == sequence,
            timestamp_shape(row.timestamp@),
    {
        CsvRow { sequence, timestamp: utc_timestamp() }
    }

    /// Closes the row with the outcome of its probe. A row that was
    /// opened by `open` has three fields and stands on one line.
    pub fn close(&self, outcome: ProbeOutcome) -> (row: String)
        ensures
            row@ == csv_row_text(self.sequence, self.timestamp@, outcome),
            timestamp_shape(self.timestamp@) ==> count_of(row@, ',') == 2 && count_of(row@, '\n')
                == 0 && count_of(row@, '\r') == 0,
    {
        proof {
            lemma_csv_row_has_three_fields(self.sequence, self.timestamp@, outcome);
            if timestamp_shape(self.timestamp@) {
                lemma_timestamp_is_one_field(self.timestamp@);
            }
        }
        csv_row(self.sequence, self.timestamp.as_str(), outcome)
    }
}

/// The summary line of one host: its times and its loss, or `no reply`
/// when not one probe was answered.
pub fn summary_line(host: &str, stats: &SessionStats) -> (line: String)
    ensures
        line@ == summary_text(host@, *stats),
{
    let mut line = String::new();
    push_left_aligned(&mut line, host, HOST_WIDTH);
    match stats.rtt {
        None => {
            line.append(" | no reply");
        },
        Some(rtt) => {
            line.append(" | avg: ");
            push_right_aligned(&mut line, short_millis(rtt.avg_nanos).as_str(), RTT_WIDTH);
            line.append(" ms | min: ");
            push_right_aligned(&mut line, short_millis(rtt.min_nanos).as_str(), RTT_WIDTH);
            line.append(" ms | max: ");
            push_right_aligned(&mut line, short_millis(rtt.max_nanos).as_str(), RTT_WIDTH);
            line.append(" ms | loss: ");
            push_right_aligned(
                &mut line,
                loss_figure(stats.sent, stats.received).as_str(),
                LOSS_WIDTH,
            );
            line.append("%");
        },
    }
    assert(line@ =~= summary_text(host@, *stats));
    line
}

/// The line of a host whose name did not resolve to an IPv4 address.
pub fn unresolved_line(host: &str) -> (line: String)
    ensures
        line@ == unresolved_text(host@),
{
    let mut line = String::new();
    push_left_aligned(&mut line, host, HOST_WIDTH);
    line.append(" | failed to resolve");
    assert(line@ =~= unresolved_text(host@));
    line
}

/// The closing line of a run.
pub fn totals_line(stats: &SessionStats) -> (line: String)
    ensures
        line@ == totals_text(*stats),
{
    let mut line = String::new();
    push_decimal(&mut line, stats.sent as u128);
    line.append(" packets sent, ");
    push_decimal(&mut line, stats.received as u128);
    line.append(" received, ");
    if stats.sent == 0 {
        line.append("no data");
    } else {
        line.append(loss_figure(stats.sent, stats.received).as_str());
        line.append("% packet loss");
    }
    assert(line@ =~= totals_text(*stats));
    line
}

/// The traceroute line of one hop, with `elapsed` for the round-trip time
/// of a hop that answered.
pub fn hop_line_with(report: &HopReport, elapsed: &str) -> (line: String)
    ensures
        line@ == hop_text(*report, elapsed@),
{
    let mut number = String::new();
    if report.attributed {
        push_decimal(&mut number, report.ttl as u128);
    } else {
        number.append("?");
    }
    assert(number@ =~= hop_number_text(*report));
    let mut line = String::new();
    push_right_aligned(&mut line, number.as_str(), HOP_WIDTH);
    match report.outcome {
        ProbeOutcome::TimedOut => {
            line.append("  *");
        },
        ProbeOutcome::Replied { responder, .. } => {
            line.append("  ");
            let mut address = String::new();
            push_dotted_quad(&mut address, responder);
            assert(address@ =~= dotted_quad(responder));
            push_left_aligned(&mut line, address.as_str(), ADDRESS_WIDTH);
            line.append("  ");
            line.append(elapsed);
        },
    }
    assert(line@ =~= hop_text(*report, elapsed@));
    line
}

/// The traceroute line of one hop. The round-trip time of a hop that
/// answered is written as `std::time::Duration` writes it.
pub fn hop_line(report: &HopReport) -> (line: String)
    ensures
        line@ == hop_text(*report, duration_text(chart_sample(report.outcome))),
{
    let nanos = match report.outcome {
        ProbeOutcome::Replied { rtt_nanos, .. } => rtt_nanos,
        ProbeOutcome::TimedOut => 0,
    };
    let elapsed = format_duration(nanos);
    hop_line_with(report, elapsed.as_str())
}

/// The first line of a traceroute.
pub fn trace_header(host: &str, destination: Ipv4Address) -> (line: String)
    ensures
        line@ == trace_header_text(host@, destination),
{
    let mut line = String::new();
    line.append("Traceroute to ");
    line.append(host);
    line.append(" (");
    push_dotted_quad(&mut line, destination);
    line.append(")");
    assert(line@ =~= trace_header_text(host@, destination));
    line
}

/// The panel of the dashboard, with `times` for the least, mean and
/// greatest round-trip time.
pub fn panel_with(host: &str, stats: &SessionStats, times: &Option<RttText>) -> (panel: String)
    ensures
        panel@ == panel_text(
            host@,
            *stats,
            match *times {
                Some(t) => Some((t.min@, t.avg@, t.max@)),
                None => None,
            },
        ),
{
    let mut panel = String::new();
    if stats.sent == 0 {
        panel.append("No data yet");
        assert(panel@ =~= "No data yet"@);
        return panel;
    }
    panel.append("host: ");
    panel.append(host);
    panel.append("\ntransmitted: ");
    push_decimal(&mut panel, stats.sent as u128);
    panel.append("\nreceived: ");
    push_decimal(&mut panel, stats.received as u128);
    panel.append("\nloss: ");
    panel.append(loss_figure(stats.sent, stats.received).as_str());
    panel.append("%\nmin: ");
    let ghost head = panel@;
    match times {
        Some(t) => {
            panel.append(t.min.as_str());
            panel.append("  avg: ");
            panel.append(t.avg.as_str());
            panel.append("  max: ");
            panel.append(t.max.as_str());
            assert(panel@ =~= head + (t.min@ + "  avg: "@ + t.avg@ + "  max: "@ + t.max@));
        },
        None => {
            panel.append("-  avg: -  max: -");
        },
    }
    panel.append("\n(press 'q' to quit)");
    assert(panel@ =~= panel_text(
        host@,
        *stats,
        match *times {
            Some(t) => Some((t.min@, t.avg@, t.max@)),
            None => None,
        },
    ));
    panel
}

/// The texts of the round-trip times of `stats`, each written as
/// `std::time::Duration` writes it; `None` while no probe was answered.
pub fn rtt_text(stats: &SessionStats) -> (times: Option<RttText>)
    ensures
        rtt_texts(*stats) == match times {
            Some(t) => Some((t.min@, t.avg@, t.max@)),
            None => None,
        },
{
    match stats.rtt {
        Some(rtt) => Some(
            RttText {
                min: format_duration(rtt.min_nanos),
                avg: format_duration(rtt.avg_nanos),
                max: format_duration(rtt.max_nanos),
            },
        ),
        None => None,
    }
}

/// The panel of the dashboard.
pub fn panel(host: &str, stats: &SessionStats) -> (panel: String)
    ensures
        panel@ == panel_text(host@, *stats, rtt_texts(*stats)),
{
    let times = rtt_text(stats);
    panel_with(host, stats, &times)
}

} // verus!
