//! Probe outcomes and the statistics of a session.
//!
//! Statistics are never stored: they are recomputed from the sequence of
//! outcomes whenever they are asked for.

use crate::address::Ipv4Address;
use vstd::prelude::*;

verus! {

/// Number of samples in the window that a live chart shows.
pub const WINDOW_LEN: usize = 50;

/// How one probe ended.
#[derive(Clone, Copy, Debug, PartialEq, Eq, Structural)]
pub enum ProbeOutcome {
    /// The matching reply arrived `rtt_nanos` nanoseconds after the request
    /// was sent, from `responder`.
    Replied { rtt_nanos: u64, responder: Ipv4Address },
    /// No matching reply arrived before the deadline.
    TimedOut,
}

/// Least, mean and greatest round-trip time, in nanoseconds.
#[derive(Clone, Copy, Debug, PartialEq, Eq, Structural)]
pub struct RttSummary {
    pub min_nanos: u64,
    pub avg_nanos: u64,
    pub max_nanos: u64,
}

/// Summary of the probes issued so far.
#[derive(Clone, Copy, Debug, PartialEq, Eq, Structural)]
pub struct SessionStats {
    /// Probes issued so far.
    pub sent: u64,
    /// Probes that were answered.
    pub received: u64,
    /// Whole percent of probes lost, `100 * (sent - received) / sent`;
    /// `None` while no probe was issued.
    pub loss_percent: Option<u64>,
    /// Round-trip times over the answered probes; `None` while none was
    /// answered.
    pub rtt: Option<RttSummary>,
}

/// Number of answered probes among `outcomes`.
pub open spec fn replied_count(outcomes: Seq<ProbeOutcome>) -> nat
    decreases outcomes.len(),
{
    if outcomes.len() == 0 {
        0
    } else {
        replied_count(outcomes.drop_last()) + if outcomes.last() is Replied {
            1nat
        } else {
            0nat
        }
    }
}

/// Sum of the round-trip times of the answered probes.
pub open spec fn total_rtt(outcomes: Seq<ProbeOutcome>) -> nat
    decreases outcomes.len(),
{
    if outcomes.len() == 0 {
        0
    } else {
        total_rtt(outcomes.drop_last()) + match outcomes.last() {
            ProbeOutcome::Replied { rtt_nanos, .. } => rtt_nanos as nat,
            ProbeOutcome::TimedOut => 0nat,
        }
    }
}

/// Least round-trip time among the answered probes, if any was answered.
pub open spec fn min_rtt(outcomes: Seq<ProbeOutcome>) -> Option<u64>
    decreases outcomes.len(),
{
    if outcomes.len() == 0 {
        None
    } else {
        let rest = min_rtt(outcomes.drop_last());
        match (outcomes.last(), rest) {
            (ProbeOutcome::TimedOut, _) => rest,
            (ProbeOutcome::Replied { rtt_nanos, .. }, None) => Some(rtt_nanos),
            (ProbeOutcome::Replied { rtt_nanos, .. }, Some(least)) => Some(
                if rtt_nanos < least {
                    rtt_nanos
                } else {
                    least
                },
            ),
        }
    }
}

/// Greatest round-trip time among the answered probes, if any was answered.
pub open spec fn max_rtt(outcomes: Seq<ProbeOutcome>) -> Option<u64>
    decreases outcomes.len(),
{
    if outcomes.len() == 0 {
        None
    } else {
        let rest = max_rtt(outcomes.drop_last());
        match (outcomes.last(), rest) {
            (ProbeOutcome::TimedOut, _) => rest,
            (ProbeOutcome::Replied { rtt_nanos, .. }, None) => Some(rtt_nanos),
            (ProbeOutcome::Replied { rtt_nanos, .. }, Some(greatest)) => Some(
                if rtt_nanos > greatest {
                    rtt_nanos
                } else {
                    greatest
                },
            ),
        }
    }
}

/// Whole percent of `sent` probes that were not among the `received`.
pub open spec fn loss_percent_of(sent: nat, received: nat) -> Option<u64> {
    if sent == 0 {
        None
    } else {
        Some((100 * (sent - received) / (sent as int)) as u64)
    }
}

/// The statistics of a session whose probes ended as `outcomes` say.
pub open spec fn session_stats(outcomes: Seq<ProbeOutcome>) -> SessionStats {
    let received = replied_count(outcomes);
    SessionStats {
        sent: outcomes.len() as u64,
        received: received as u64,
        loss_percent: loss_percent_of(outcomes.len(), received),
        rtt: match (min_rtt(outcomes), max_rtt(outcomes)) {
            (Some(least), Some(greatest)) => Some(
                RttSummary {
                    min_nanos: least,
                    avg_nanos: (total_rtt(outcomes) / received) as u64,
                    max_nanos: greatest,
                },
            ),
            _ => None,
        },
    }
}

/// What a chart shows for one probe: its round-trip time, or zero for a
/// probe that timed out.
pub open spec fn chart_sample(outcome: ProbeOutcome) -> u64 {
    match outcome {
        ProbeOutcome::Replied { rtt_nanos, .. } => rtt_nanos,
        ProbeOutcome::TimedOut => 0,
    }
}

/// Index of the first outcome that the chart window still shows.
pub open spec fn window_start(outcomes: Seq<ProbeOutcome>) -> int {
    if outcomes.len() > WINDOW_LEN {
        outcomes.len() - WINDOW_LEN
    } else {
        0
    }
}

/// The chart samples of the most recent probes, oldest first, at most
/// `WINDOW_LEN` of them.
pub open spec fn recent_window(outcomes: Seq<ProbeOutcome>) -> Seq<u64> {
    Seq::new(
        (outcomes.len() - window_start(outcomes)) as nat,
        |i: int| chart_sample(outcomes[window_start(outcomes) + i]),
    )
}

/// Counts and sums stay within what the number of outcomes allows, and a
/// least and a greatest time exist when something was answered.
pub proof fn lemma_stats_bounds(outcomes: Seq<ProbeOutcome>)
    ensures
        replied_count(outcomes) <= outcomes.len(),
        total_rtt(outcomes) <= replied_count(outcomes) * u64::MAX,
        min_rtt(outcomes) is Some <==> replied_count(outcomes) > 0,
        max_rtt(outcomes) is Some <==> replied_count(outcomes) > 0,
    decreases outcomes.len(),
{
    if outcomes.len() > 0 {
        lemma_stats_bounds(outcomes.drop_last());
        let n = replied_count(outcomes.drop_last());
        assert((n + 1) * u64::MAX == n * u64::MAX + u64::MAX) by (nonlinear_arith);
    }
}

/// The statistics count what was recorded: `sent` is the number of
/// outcomes and `received` the number of those that are replies.
pub proof fn lemma_stats_count_outcomes(outcomes: Seq<ProbeOutcome>)
    requires
        outcomes.len() <= u64::MAX,
    ensures
        session_stats(outcomes).sent == outcomes.len(),
        session_stats(outcomes).received == replied_count(outcomes),
        replied_count(outcomes) == outcomes.filter(|o: ProbeOutcome| o is Replied).len(),
        session_stats(outcomes).received <= session_stats(outcomes).sent,
{
    lemma_stats_bounds(outcomes);
    lemma_replied_count_is_filter_len(outcomes);
}

/// `replied_count` is the length of the sub-sequence of replies.
pub proof fn lemma_replied_count_is_filter_len(outcomes: Seq<ProbeOutcome>)
    ensures
        replied_count(outcomes) == outcomes.filter(|o: ProbeOutcome| o is Replied).len(),
    decreases outcomes.len(),
{
    reveal(Seq::filter);
    if outcomes.len() > 0 {
        lemma_replied_count_is_filter_len(outcomes.drop_last());
    }
}

/// The loss is absent exactly while nothing was sent; otherwise it is the
/// whole part of `100 * (sent - received) / sent` and lies between 0 and
/// 100.
pub proof fn lemma_loss_percent_range(sent: nat, received: nat)
    requires
        received <= sent,
    ensures
        loss_percent_of(sent, received) is None <==> sent == 0,
        loss_percent_of(sent, received) matches Some(percent) ==> {
            &&& 0 <= percent <= 100
            &&& percent == 100 * (sent - received) / (sent as int)
            &&& (percent == 100 <==> received == 0)
            &&& (percent == 0 ==> 100 * (sent - received) < sent)
        },
{
    if sent > 0 {
        let lost = sent - received;
        assert(0 <= 100 * lost / (sent as int) <= 100) by (nonlinear_arith)
            requires
                0 <= lost <= sent,
                sent > 0,
        ;
        assert(100 * lost / (sent as int) == 100 <==> lost == sent) by (nonlinear_arith)
            requires
                0 <= lost <= sent,
                sent > 0,
        ;
        assert(100 * lost / (sent as int) == 0 ==> 100 * lost < sent) by (nonlinear_arith)
            requires
                0 <= lost <= sent,
                sent > 0,
        ;
    }
}

/// The loss that a session reports obeys `lemma_loss_percent_range`,
/// whatever the outcomes.
pub proof fn lemma_session_loss_percent(outcomes: Seq<ProbeOutcome>)
    ensures
        session_stats(outcomes).loss_percent is None <==> outcomes.len() == 0,
        session_stats(outcomes).loss_percent matches Some(percent) ==> {
            &&& 0 <= percent <= 100
            &&& percent == 100 * (outcomes.len() - replied_count(outcomes)) / (
            outcomes.len() as int)
        },
{
    lemma_stats_bounds(outcomes);
    lemma_loss_percent_range(outcomes.len(), replied_count(outcomes));
}

/// Two snapshots of one aggregator with no `record` in between are
/// identical: what `snapshot` promises of its result leaves room for one
/// value only.
pub proof fn lemma_snapshot_idempotent(
    aggregator: Aggregator,
    first: SessionStats,
    second: SessionStats,
)
    requires
        first == session_stats(aggregator@),
        second == session_stats(aggregator@),
    ensures
        first == second,
{
}

/// Every answered probe lies between the least and the greatest time, each
/// of which some probe attained, and so does their mean.
pub proof fn lemma_rtt_extremes(outcomes: Seq<ProbeOutcome>)
    ensures
        forall|i: int|
            0 <= i < outcomes.len() && (#[trigger] outcomes[i]) is Replied ==> {
                &&& min_rtt(outcomes) matches Some(least)
                &&& max_rtt(outcomes) matches Some(greatest)
                &&& least <= outcomes[i]->rtt_nanos <= greatest
            },
        min_rtt(outcomes) matches Some(least) ==> exists|i: int|
            0 <= i < outcomes.len() && (#[trigger] outcomes[i]) is Replied
                && outcomes[i]->rtt_nanos == least,
        max_rtt(outcomes) matches Some(greatest) ==> exists|i: int|
            0 <= i < outcomes.len() && (#[trigger] outcomes[i]) is Replied
                && outcomes[i]->rtt_nanos == greatest,
        min_rtt(outcomes) matches Some(least) ==> least * replied_count(outcomes) <= total_rtt(
            outcomes,
        ),
        max_rtt(outcomes) matches Some(greatest) ==> total_rtt(outcomes) <= greatest
            * replied_count(outcomes),
    decreases outcomes.len(),
{
    if outcomes.len() > 0 {
        let rest = outcomes.drop_last();
        let n = replied_count(rest);
        lemma_rtt_extremes(rest);
        lemma_stats_bounds(rest);
        assert forall|i: int| 0 <= i < rest.len() implies rest[i] == outcomes[i] by {}
        match outcomes.last() {
            ProbeOutcome::TimedOut => {
                if let Some(least) = min_rtt(outcomes) {
                    let i = choose|i: int|
                        0 <= i < rest.len() && (#[trigger] rest[i]) is Replied
                            && rest[i]->rtt_nanos == least;
                    assert(outcomes[i] is Replied && outcomes[i]->rtt_nanos == least);
                }
                if let Some(greatest) = max_rtt(outcomes) {
                    let i = choose|i: int|
                        0 <= i < rest.len() && (#[trigger] rest[i]) is Replied
                            && rest[i]->rtt_nanos == greatest;
                    assert(outcomes[i] is Replied && outcomes[i]->rtt_nanos == greatest);
                }
            },
            ProbeOutcome::Replied { rtt_nanos, .. } => {
                let last = outcomes.len() - 1;
                assert(outcomes[last] is Replied && outcomes[last]->rtt_nanos == rtt_nanos);
                let least = min_rtt(outcomes)->0;
                let greatest = max_rtt(outcomes)->0;
                if least != rtt_nanos {
                    let i = choose|i: int|
                        0 <= i < rest.len() && (#[trigger] rest[i]) is Replied
                            && rest[i]->rtt_nanos == least;
                    assert(outcomes[i] is Replied && outcomes[i]->rtt_nanos == least);
                }
                if greatest != rtt_nanos {
                    let i = choose|i: int|
                        0 <= i < rest.len() && (#[trigger] rest[i]) is Replied
                            && rest[i]->rtt_nanos == greatest;
                    assert(outcomes[i] is Replied && outcomes[i]->rtt_nanos == greatest);
                }
                if n > 0 {
                    let old_least = min_rtt(rest)->0;
                    let old_greatest = max_rtt(rest)->0;
                    assert(least * (n + 1) <= old_least * n + rtt_nanos) by (nonlinear_arith)
                        requires
                            least <= old_least,
                            least <= rtt_nanos,
                            n >= 0,
                    ;
                    assert(old_greatest * n + rtt_nanos <= greatest * (n + 1))
                        by (nonlinear_arith)
                        requires
                            old_greatest <= greatest,
                            rtt_nanos <= greatest,
                            n >= 0,
                    ;
                } else {
                    assert(least * (n + 1) == least && greatest * (n + 1) == greatest)
                        by (nonlinear_arith)
                        requires
                            n == 0,
                    ;
                }
            },
        }
    }
}

/// The mean that a session reports lies between its least and its greatest
/// round-trip time.
pub proof fn lemma_mean_between_extremes(outcomes: Seq<ProbeOutcome>)
    ensures
        session_stats(outcomes).rtt is Some <==> replied_count(outcomes) > 0,
        session_stats(outcomes).rtt matches Some(rtt) ==> {
            &&& rtt.min_nanos <= rtt.avg_nanos <= rtt.max_nanos
            &&& rtt.avg_nanos == total_rtt(outcomes) / replied_count(outcomes)
        },
{
    lemma_stats_bounds(outcomes);
    lemma_rtt_extremes(outcomes);
    if let (Some(least), Some(greatest)) = (min_rtt(outcomes), max_rtt(outcomes)) {
        let n = replied_count(outcomes);
        let total = total_rtt(outcomes);
        assert(least <= total / n <= greatest) by (nonlinear_arith)
            requires
                n > 0,
                least * n <= total,
                total <= greatest * n,
        ;
    }
}

/// The outcomes of a session, in the order in which the probes were issued.
pub struct Aggregator {
    outcomes: Vec<ProbeOutcome>,
}

impl View for Aggregator {
    type V = Seq<ProbeOutcome>;

    closed spec fn view(&self) -> Seq<ProbeOutcome> {
        self.outcomes@
    }
}

impl Aggregator {
    /// An aggregator that holds no outcome yet.
    pub fn new() -> (aggregator: Aggregator)
        ensures
            aggregator@ == Seq::<ProbeOutcome>::empty(),
    {
        Aggregator { outcomes: Vec::new() }
    }

    /// Appends the outcome of the probe that was issued last.
    pub fn record(&mut self, outcome: ProbeOutcome)
        ensures
            final(self)@ == old(self)@.push(outcome),
    {
        self.outcomes.push(outcome);
    }

    /// Number of outcomes recorded.
    pub fn len(&self) -> (count: usize)
        ensures
            count == self@.len(),
    {
        self.outcomes.len()
    }

    /// The outcome of the probe issued at position `index`, if there is one.
    pub fn get(&self, index: usize) -> (outcome: Option<ProbeOutcome>)
        ensures
            outcome == if index < self@.len() {
                Some(self@[index as int])
            } else {
                None
            },
    {
        if index < self.outcomes.len() {
            Some(self.outcomes[index])
        } else {
            None
        }
    }

    /// Recomputes the statistics from all outcomes recorded so far.
    pub fn snapshot(&self) -> (stats: SessionStats)
        ensures
            stats == session_stats(self@),
            stats.sent == self@.len(),
            stats.received == replied_count(self@),
    {
        let n = self.outcomes.len();
        let mut received: u64 = 0;
        let mut total: u128 = 0;
        let mut least: Option<u64> = None;
        let mut greatest: Option<u64> = None;
        let mut i: usize = 0;
        while i < n
            invariant
                n == self.outcomes@.len(),
                i <= n,
                received == replied_count(self.outcomes@.take(i as int)),
                received <= i,
                total == total_rtt(self.outcomes@.take(i as int)),
                total <= received * u64::MAX,
                least == min_rtt(self.outcomes@.take(i as int)),
                greatest == max_rtt(self.outcomes@.take(i as int)),
            decreases n - i,
        {
            proof {
                let next = self.outcomes@.take(i + 1);
                assert(next.drop_last() =~= self.outcomes@.take(i as int));
                assert(next.last() == self.outcomes@[i as int]);
                assert((received + 1) * u64::MAX == received * u64::MAX + u64::MAX)
                    by (nonlinear_arith);
                assert(i * u64::MAX <= usize::MAX * u64::MAX) by (nonlinear_arith)
                    requires
                        i <= usize::MAX,
                ;
                assert(received * u64::MAX <= i * u64::MAX) by (nonlinear_arith)
                    requires
                        received <= i,
                ;
            }
            match self.outcomes[i] {
                ProbeOutcome::Replied { rtt_nanos, .. } => {
                    received = received + 1;
                    total = total + rtt_nanos as u128;
                    least =
                    match least {
                        None => Some(rtt_nanos),
                        Some(m) => Some(
                            if rtt_nanos < m {
                                rtt_nanos
                            } else {
                                m
                            },
                        ),
                    };
                    greatest =
                    match greatest {
                        None => Some(rtt_nanos),
                        Some(m) => Some(
                            if rtt_nanos > m {
                                rtt_nanos
                            } else {
                                m
                            },
                        ),
                    };
                },
                ProbeOutcome::TimedOut => {},
            }
            i = i + 1;
        }
        proof {
            assert(self.outcomes@.take(n as int) =~= self.outcomes@);
            lemma_stats_bounds(self.outcomes@);
        }
        let sent: u64 = n as u64;
        let loss_percent = if sent == 0 {
            None
        } else {
            let lost: u128 = (sent - received) as u128;
            assert(100 * lost / (sent as int) <= 100 && 100 * lost <= u128::MAX) by (nonlinear_arith)
                requires
                    lost <= sent,
                    sent > 0,
            ;
            Some((100 * lost / (sent as u128)) as u64)
        };
        let rtt = match (least, greatest) {
            (Some(min_nanos), Some(max_nanos)) => {
                assert(total as int / (received as int) <= u64::MAX) by (nonlinear_arith)
                    requires
                        total <= received * u64::MAX,
                        received > 0,
                ;
                Some(
                    RttSummary {
                        min_nanos,
                        avg_nanos: (total / (received as u128)) as u64,
                        max_nanos,
                    },
                )
            },
            _ => None,
        };
        SessionStats { sent, received, loss_percent, rtt }
    }

    /// The chart samples of the most recent probes, oldest first: the
    /// round-trip time of each, zero for one that timed out.
    pub fn recent_samples(&self) -> (samples: Vec<u64>)
        ensures
            samples@ == recent_window(self@),
            samples@.len() <= WINDOW_LEN,
    {
        let n = self.outcomes.len();
        let start: usize = if n > WINDOW_LEN {
            n - WINDOW_LEN
        } else {
            0
        };
        let mut samples: Vec<u64> = Vec::new();
        let mut i: usize = start;
        while i < n
            invariant
                n == self.outcomes@.len(),
                start == window_start(self.outcomes@),
                start <= i <= n,
                samples@.len() == i - start,
                forall|k: int|
                    0 <= k < samples@.len() ==> samples@[k] == chart_sample(
                        #[trigger] self.outcomes@[start + k],
                    ),
            decreases n - i,
        {
            let sample = match self.outcomes[i] {
                ProbeOutcome::Replied { rtt_nanos, .. } => rtt_nanos,
                ProbeOutcome::TimedOut => 0,
            };
            samples.push(sample);
            i = i + 1;
        }
        assert(samples@ =~= recent_window(self.outcomes@));
        samples
    }
}

} // verus!
