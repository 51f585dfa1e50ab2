//! One probe: send a request, wait for its reply until a deadline, resolve.
//!
//! The probe never sends or receives by itself. Its owner transmits the
//! request, polls the socket in short slices, and reports each message and
//! each quiet slice together with the reading of a monotonic clock, in
//! nanoseconds.

use crate::address::Ipv4Address;
use crate::correlate::{classify, is_hop_answer, is_hop_response, is_reply_to, Arrival};
use crate::stats::ProbeOutcome;
use crate::wire::{build_echo_request, echo_request};
use vstd::prelude::*;

verus! {

/// Time a ping, CSV or comparison probe waits for its reply: one second.
pub const ECHO_TIMEOUT_NANOS: u64 = 1_000_000_000;

/// Time a traceroute probe waits for an answer: two seconds, since paths of
/// many hops are slower.
pub const HOP_TIMEOUT_NANOS: u64 = 2_000_000_000;

/// Longest time to spend in one receive call, so that a request to stop is
/// seen soon: fifty milliseconds.
pub const POLL_SLICE_NANOS: u64 = 50_000_000;

/// Which answers a probe accepts, and for how long it waits.
#[derive(Clone, Copy, Debug, PartialEq, Eq, Structural)]
pub enum ProbeKind {
    /// Accepts only the echo reply with its own identifier and sequence
    /// number.
    Echo,
    /// Accepts any ICMP message: routers in transit answer with Time
    /// Exceeded, not with an echo reply.
    Hop,
}

/// Where a probe stands.
#[derive(Clone, Copy, Debug, PartialEq, Eq, Structural)]
pub enum ProbeState {
    /// Not sent yet.
    Created,
    /// Sent at `sent_at`, waiting.
    Sent { sent_at: u64 },
    /// Answered.
    Replied { rtt_nanos: u64, responder: Ipv4Address },
    /// The deadline passed, or the request could not be sent.
    TimedOut,
}

/// What the owner of a probe does next.
#[derive(Clone, Copy, Debug, PartialEq, Eq, Structural)]
pub enum ProbeAction {
    /// Start the probe and transmit its request.
    Transmit,
    /// Poll the socket, until `deadline` at the latest.
    Listen { deadline: u64 },
    /// The probe is over.
    Finish { outcome: ProbeOutcome },
}

/// One echo-request attempt.
#[derive(Clone, Copy, Debug, PartialEq, Eq, Structural)]
pub struct Probe {
    pub kind: ProbeKind,
    pub identifier: u16,
    pub sequence_number: u16,
    pub state: ProbeState,
    /// Set when the probe timed out because its request could not be sent.
    pub send_failed: bool,
}

/// The timeout of a probe of the given kind.
pub open spec fn timeout_of(kind: ProbeKind) -> u64 {
    match kind {
        ProbeKind::Echo => ECHO_TIMEOUT_NANOS,
        ProbeKind::Hop => HOP_TIMEOUT_NANOS,
    }
}

/// `sent_at + timeout`, or the end of time where that does not fit.
pub open spec fn deadline_after(sent_at: u64, timeout: u64) -> u64 {
    if sent_at + timeout > u64::MAX {
        u64::MAX
    } else {
        (sent_at + timeout) as u64
    }
}

/// Time from `sent_at` to `now`; zero should the clock have run backwards.
pub open spec fn elapsed_between(sent_at: u64, now: u64) -> u64 {
    if now >= sent_at {
        (now - sent_at) as u64
    } else {
        0
    }
}

/// Time to spend in the next receive call at `now`: what is left until
/// `deadline`, one polling slice at the most.
pub open spec fn slice_before(deadline: u64, now: u64) -> u64 {
    if deadline <= now {
        0
    } else if deadline - now < POLL_SLICE_NANOS {
        (deadline - now) as u64
    } else {
        POLL_SLICE_NANOS
    }
}

/// Time to spend in the next receive call at `now`. Zero says that the
/// deadline has come: there is nothing left to wait for.
pub fn poll_slice(deadline: u64, now: u64) -> (wait: u64)
    ensures
        wait == slice_before(deadline, now),
{
    if deadline <= now {
        0
    } else if deadline - now < POLL_SLICE_NANOS {
        deadline - now
    } else {
        POLL_SLICE_NANOS
    }
}

impl Probe {
    /// A probe that was not sent yet.
    pub open spec fn created(kind: ProbeKind, identifier: u16, sequence_number: u16) -> Probe {
        Probe { kind, identifier, sequence_number, state: ProbeState::Created, send_failed: false }
    }

    /// Whether the probe is over.
    pub open spec fn resolved(self) -> bool {
        self.state is Replied || self.state is TimedOut
    }

    /// How the probe ended, once it is over.
    pub open spec fn outcome_of(self) -> Option<ProbeOutcome> {
        match self.state {
            ProbeState::Replied { rtt_nanos, responder } => Some(
                ProbeOutcome::Replied { rtt_nanos, responder },
            ),
            ProbeState::TimedOut => Some(ProbeOutcome::TimedOut),
            _ => None,
        }
    }

    /// Whether the probe takes `raw` for its answer.
    pub open spec fn accepts(self, raw: Seq<u8>) -> bool {
        match self.kind {
            ProbeKind::Echo => is_reply_to(raw, self.identifier, self.sequence_number),
            ProbeKind::Hop => is_hop_answer(raw),
        }
    }

    /// The probe after its owner started it at `now`.
    pub open spec fn after_start(self, now: u64) -> Probe {
        if self.state is Created {
            Probe { state: ProbeState::Sent { sent_at: now }, ..self }
        } else {
            self
        }
    }

    /// The probe after its request could not be sent.
    pub open spec fn after_transmit_failure(self) -> Probe {
        if self.state is Sent {
            Probe { state: ProbeState::TimedOut, send_failed: true, ..self }
        } else {
            self
        }
    }

    /// The probe after `raw` arrived from `source` at `now`.
    pub open spec fn after_packet(self, raw: Seq<u8>, source: Ipv4Address, now: u64) -> Probe {
        match self.state {
            ProbeState::Sent { sent_at } => {
                if now >= deadline_after(sent_at, timeout_of(self.kind)) {
                    Probe { state: ProbeState::TimedOut, ..self }
                } else if self.accepts(raw) {
                    Probe {
                        state: ProbeState::Replied {
                            rtt_nanos: elapsed_between(sent_at, now),
                            responder: source,
                        },
                        ..self
                    }
                } else {
                    self
                }
            },
            _ => self,
        }
    }

    /// The probe after a polling slice ended at `now` with nothing received.
    pub open spec fn after_quiet(self, now: u64) -> Probe {
        match self.state {
            ProbeState::Sent { sent_at } => {
                if now >= deadline_after(sent_at, timeout_of(self.kind)) {
                    Probe { state: ProbeState::TimedOut, ..self }
                } else {
                    self
                }
            },
            _ => self,
        }
    }

    /// What the owner of the probe does next.
    pub open spec fn pending(self) -> ProbeAction {
        match self.state {
            ProbeState::Created => ProbeAction::Transmit,
            ProbeState::Sent { sent_at } => ProbeAction::Listen {
                deadline: deadline_after(sent_at, timeout_of(self.kind)),
            },
            ProbeState::Replied { rtt_nanos, responder } => ProbeAction::Finish {
                outcome: ProbeOutcome::Replied { rtt_nanos, responder },
            },
            ProbeState::TimedOut => ProbeAction::Finish { outcome: ProbeOutcome::TimedOut },
        }
    }

    /// Creates a probe; nothing is sent yet.
    pub fn new(kind: ProbeKind, identifier: u16, sequence_number: u16) -> (probe: Probe)
        ensures
            probe == Probe::created(kind, identifier, sequence_number),
    {
        Probe { kind, identifier, sequence_number, state: ProbeState::Created, send_failed: false }
    }

    /// The time the probe waits for its answer.
    pub fn timeout(&self) -> (nanos: u64)
        ensures
            nanos == timeout_of(self.kind),
    {
        match self.kind {
            ProbeKind::Echo => ECHO_TIMEOUT_NANOS,
            ProbeKind::Hop => HOP_TIMEOUT_NANOS,
        }
    }

    /// The bytes of the echo request of this probe.
    pub fn request(&self) -> (packet: Vec<u8>)
        ensures
            packet@ == echo_request(self.identifier, self.sequence_number),
    {
        build_echo_request(self.identifier, self.sequence_number)
    }

    /// Records `now` as the time of sending. The owner transmits
    /// `request()` right after.
    pub fn start(&mut self, now: u64) -> (action: ProbeAction)
        ensures
            *final(self) == old(self).after_start(now),
            action == final(self).pending(),
    {
        if let ProbeState::Created = self.state {
            self.state = ProbeState::Sent { sent_at: now };
        }
        self.action()
    }

    /// Reports that the request could not be sent: the probe counts as
    /// timed out, and remembers why.
    pub fn transmit_failed(&mut self) -> (action: ProbeAction)
        ensures
            *final(self) == old(self).after_transmit_failure(),
            action == final(self).pending(),
    {
        if let ProbeState::Sent { .. } = self.state {
            self.state = ProbeState::TimedOut;
            self.send_failed = true;
        }
        self.action()
    }

    /// Reports a message that arrived from `source` at `now`. The answer of
    /// the probe resolves it; anything else is dropped and leaves the
    /// deadline where it was. A message that arrives at or after the
    /// deadline is too late, whatever it holds.
    pub fn on_packet(&mut self, raw: &[u8], source: Ipv4Address, now: u64) -> (action: ProbeAction)
        ensures
            *final(self) == old(self).after_packet(raw@, source, now),
            action == final(self).pending(),
    {
        if let ProbeState::Sent { sent_at } = self.state {
            if now >= self.deadline_from(sent_at) {
                self.state = ProbeState::TimedOut;
            } else {
                let accepted = match self.kind {
                    ProbeKind::Echo => {
                        match classify(raw, self.identifier, self.sequence_number) {
                            Arrival::Match => true,
                            _ => false,
                        }
                    },
                    ProbeKind::Hop => is_hop_response(raw),
                };
                if accepted {
                    let rtt_nanos = if now >= sent_at {
                        now - sent_at
                    } else {
                        0
                    };
                    self.state = ProbeState::Replied { rtt_nanos, responder: source };
                }
            }
        }
        self.action()
    }

    /// Reports that a polling slice ended at `now` with nothing received.
    pub fn on_quiet(&mut self, now: u64) -> (action: ProbeAction)
        ensures
            *final(self) == old(self).after_quiet(now),
            action == final(self).pending(),
    {
        if let ProbeState::Sent { sent_at } = self.state {
            if now >= self.deadline_from(sent_at) {
                self.state = ProbeState::TimedOut;
            }
        }
        self.action()
    }

    /// What the owner of the probe does next.
    pub fn action(&self) -> (action: ProbeAction)
        ensures
            action == self.pending(),
    {
        match self.state {
            ProbeState::Created => ProbeAction::Transmit,
            ProbeState::Sent { sent_at } => ProbeAction::Listen {
                deadline: self.deadline_from(sent_at),
            },
            ProbeState::Replied { rtt_nanos, responder } => ProbeAction::Finish {
                outcome: ProbeOutcome::Replied { rtt_nanos, responder },
            },
            ProbeState::TimedOut => ProbeAction::Finish { outcome: ProbeOutcome::TimedOut },
        }
    }

    /// How the probe ended, or `None` while it is not over.
    pub fn outcome(&self) -> (outcome: Option<ProbeOutcome>)
        ensures
            outcome == self.outcome_of(),
            outcome is Some <==> self.resolved(),
    {
        match self.state {
            ProbeState::Replied { rtt_nanos, responder } => Some(
                ProbeOutcome::Replied { rtt_nanos, responder },
            ),
            ProbeState::TimedOut => Some(ProbeOutcome::TimedOut),
            _ => None,
        }
    }

    fn deadline_from(&self, sent_at: u64) -> (deadline: u64)
        ensures
            deadline == deadline_after(sent_at, timeout_of(self.kind)),
    {
        let timeout = self.timeout();
        if sent_at > u64::MAX - timeout {
            u64::MAX
        } else {
            sent_at + timeout
        }
    }
}

/// A probe that is over stays as it is, whatever is reported to it: an
/// outcome is never revised.
pub proof fn lemma_resolved_is_final(probe: Probe, raw: Seq<u8>, source: Ipv4Address, now: u64)
    requires
        probe.resolved(),
    ensures
        probe.after_start(now) == probe,
        probe.after_transmit_failure() == probe,
        probe.after_packet(raw, source, now) == probe,
        probe.after_quiet(now) == probe,
{
}

/// Before the deadline a message that is not the answer changes nothing:
/// the probe keeps waiting, with the deadline it had.
pub proof fn lemma_stray_packet_is_dropped(
    probe: Probe,
    raw: Seq<u8>,
    source: Ipv4Address,
    now: u64,
)
    requires
        probe.state is Sent,
        !probe.accepts(raw),
        now < deadline_after(probe.state->sent_at, timeout_of(probe.kind)),
    ensures
        probe.after_packet(raw, source, now) == probe,
        probe.after_packet(raw, source, now).pending() == probe.pending(),
{
}

/// A probe goes from created to sent to resolved and never back: no report
/// takes a sent probe back to created, nor a resolved one anywhere.
pub proof fn lemma_probe_moves_forward(probe: Probe, raw: Seq<u8>, source: Ipv4Address, now: u64)
    ensures
        !(probe.state is Created) ==> !(probe.after_start(now).state is Created),
        !(probe.state is Created) ==> !(probe.after_transmit_failure().state is Created),
        !(probe.state is Created) ==> !(probe.after_packet(raw, source, now).state is Created),
        !(probe.state is Created) ==> !(probe.after_quiet(now).state is Created),
        probe.state is Created ==> probe.after_packet(raw, source, now) == probe
            && probe.after_quiet(now) == probe && probe.after_transmit_failure() == probe,
        probe.after_start(now).identifier == probe.identifier,
        probe.after_packet(raw, source, now).identifier == probe.identifier,
        probe.after_packet(raw, source, now).sequence_number == probe.sequence_number,
{
}

} // verus!
