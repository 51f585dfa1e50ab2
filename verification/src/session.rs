//! A session: a fixed number of probes to one target, one at a time, in
//! increasing sequence order.
//!
//! The session decides; its owner acts. After every report the session
//! answers with the next thing to do: transmit a request, listen until a
//! deadline, show an outcome, sleep through the interval between two
//! probes, or stop.

use crate::address::Ipv4Address;
use crate::correlate::is_reply_to;
use crate::identifier::random_identifier;
use crate::probe::{deadline_after, Probe, ProbeAction, ProbeKind, ECHO_TIMEOUT_NANOS};
use crate::stats::{
    recent_window, session_stats, Aggregator, ProbeOutcome, SessionStats, WINDOW_LEN,
};
use crate::wire::echo_request;
use vstd::prelude::*;

verus! {

/// What the owner of a session does next.
#[derive(Clone, Copy, Debug, PartialEq, Eq, Structural)]
pub enum SessionAction {
    /// Transmit `request()`; it belongs to the probe numbered `sequence`.
    /// Report a failure with `transmit_failed`, then go on with `poll`.
    Transmit { sequence: u32 },
    /// Poll the socket, until `deadline` at the latest. Report a message
    /// with `on_packet` and a quiet slice with `poll`.
    Listen { deadline: u64 },
    /// The probe numbered `sequence` ended with `outcome`. Show it, then
    /// go on with `poll`.
    Rest { sequence: u32, outcome: ProbeOutcome },
    /// No probe is issued before `until`. Sleep until then, in short slices
    /// where a request to stop must be seen, and not at all should that
    /// time have passed; then go on with `poll`.
    Sleep { until: u64 },
    /// Nothing is left to do.
    Done,
}

/// The sequence number that goes on the wire for the probe numbered `n`:
/// the field has sixteen bits, so the count wraps.
pub open spec fn wire_sequence(n: nat) -> u16 {
    (n % 0x1_0000) as u16
}

/// A session as the contracts see it.
pub struct SessionModel {
    /// Chosen once, when the session begins.
    pub identifier: u16,
    /// Number of probes to issue.
    pub count: u32,
    /// Time between the end of one probe and the start of the next, in
    /// nanoseconds.
    pub interval: u64,
    /// Time before which the next probe is not issued.
    pub resume_at: u64,
    /// Outcomes of the probes that are over, in the order of issue.
    pub outcomes: Seq<ProbeOutcome>,
    /// The probe that is outstanding, if one is.
    pub current: Option<Probe>,
    /// How many of the timed-out probes could not even be sent.
    pub send_failures: nat,
    /// Set once the owner cancelled the session.
    pub stopped: bool,
}

impl SessionModel {
    /// A session that has issued nothing yet.
    pub open spec fn initial(identifier: u16, count: u32, interval: u64) -> SessionModel {
        SessionModel {
            identifier,
            count,
            interval,
            resume_at: 0,
            outcomes: Seq::empty(),
            current: None,
            send_failures: 0,
            stopped: false,
        }
    }

    /// What holds of every session: at most one probe is outstanding, it
    /// was sent and is not over, and it is the probe that follows the ones
    /// recorded; no more probes are issued than were asked for.
    pub open spec fn wf(self) -> bool {
        &&& self.send_failures <= self.outcomes.len()
        &&& match self.current {
            None => self.outcomes.len() <= self.count,
            Some(probe) => {
                &&& self.outcomes.len() < self.count
                &&& !self.stopped
                &&& probe.kind == ProbeKind::Echo
                &&& probe.identifier == self.identifier
                &&& probe.sequence_number == wire_sequence(self.outcomes.len())
                &&& probe.state is Sent
                &&& !probe.send_failed
            },
        }
    }

    /// Number of probes issued so far, the outstanding one included.
    pub open spec fn issued(self) -> nat {
        self.outcomes.len() + if self.current is Some {
            1nat
        } else {
            0nat
        }
    }

    /// Whether nothing is left to do.
    pub open spec fn finished(self) -> bool {
        self.stopped || (self.current is None && self.outcomes.len() >= self.count)
    }

    /// The probe that is issued next.
    pub open spec fn next_probe(self) -> Probe {
        Probe::created(ProbeKind::Echo, self.identifier, wire_sequence(self.outcomes.len()))
    }

    /// The session once its outstanding probe has become `probe` at `now`:
    /// a probe that is over is recorded and the interval begins, any other
    /// probe stays outstanding.
    pub open spec fn settled(self, probe: Probe, now: u64) -> SessionModel {
        match probe.outcome_of() {
            Some(outcome) => SessionModel {
                outcomes: self.outcomes.push(outcome),
                current: None,
                resume_at: deadline_after(now, self.interval),
                send_failures: if probe.send_failed {
                    self.send_failures + 1
                } else {
                    self.send_failures
                },
                ..self
            },
            None => SessionModel { current: Some(probe), ..self },
        }
    }

    /// What the owner does once the outstanding probe has become `probe`.
    pub open spec fn settled_action(self, probe: Probe) -> SessionAction {
        match probe.pending() {
            ProbeAction::Finish { outcome } => SessionAction::Rest {
                sequence: self.outcomes.len() as u32,
                outcome,
            },
            ProbeAction::Listen { deadline } => SessionAction::Listen { deadline },
            ProbeAction::Transmit => SessionAction::Transmit {
                sequence: self.outcomes.len() as u32,
            },
        }
    }

    /// The session after `poll` at `now`. With a probe outstanding, `now`
    /// ends a quiet polling slice. With none, the next probe is issued once
    /// the interval is over.
    pub open spec fn after_poll(self, now: u64) -> SessionModel {
        match self.current {
            Some(probe) => self.settled(probe.after_quiet(now), now),
            None => {
                if self.finished() || now < self.resume_at {
                    self
                } else {
                    SessionModel { current: Some(self.next_probe().after_start(now)), ..self }
                }
            },
        }
    }

    /// What `poll` at `now` answers.
    pub open spec fn poll_action(self, now: u64) -> SessionAction {
        match self.current {
            Some(probe) => self.settled_action(probe.after_quiet(now)),
            None => {
                if self.finished() {
                    SessionAction::Done
                } else if now < self.resume_at {
                    SessionAction::Sleep { until: self.resume_at }
                } else {
                    SessionAction::Transmit { sequence: self.outcomes.len() as u32 }
                }
            },
        }
    }

    /// The session after a message arrived. With no probe outstanding the
    /// message is dropped.
    pub open spec fn after_packet(
        self,
        raw: Seq<u8>,
        source: Ipv4Address,
        now: u64,
    ) -> SessionModel {
        match self.current {
            Some(probe) => self.settled(probe.after_packet(raw, source, now), now),
            None => self,
        }
    }

    /// What the session answers to a message that arrived.
    pub open spec fn packet_action(
        self,
        raw: Seq<u8>,
        source: Ipv4Address,
        now: u64,
    ) -> SessionAction {
        match self.current {
            Some(probe) => self.settled_action(probe.after_packet(raw, source, now)),
            None => self.idle_action(),
        }
    }

    /// The session after the request of the outstanding probe could not be
    /// sent at `now`. With no probe outstanding nothing changes.
    pub open spec fn after_transmit_failure(self, now: u64) -> SessionModel {
        match self.current {
            Some(probe) => self.settled(probe.after_transmit_failure(), now),
            None => self,
        }
    }

    /// What the session answers to a request that could not be sent.
    pub open spec fn transmit_failure_action(self) -> SessionAction {
        match self.current {
            Some(probe) => self.settled_action(probe.after_transmit_failure()),
            None => self.idle_action(),
        }
    }

    /// What the owner does after a report that found no probe outstanding.
    pub open spec fn idle_action(self) -> SessionAction {
        if self.finished() {
            SessionAction::Done
        } else {
            SessionAction::Sleep { until: self.resume_at }
        }
    }

    /// The session after its owner cancelled it: the outstanding probe is
    /// given up, what was recorded stays.
    pub open spec fn after_cancel(self) -> SessionModel {
        SessionModel { current: None, stopped: true, ..self }
    }
}

/// One step of a session, from `before` to `after`, kept the session well
/// formed and did no more than append one outcome.
pub open spec fn session_step_appends(before: SessionModel, after: SessionModel) -> bool {
    &&& after.wf()
    &&& after.identifier == before.identifier
    &&& after.count == before.count
    &&& after.interval == before.interval
    &&& before.outcomes.len() <= after.outcomes.len() <= before.outcomes.len() + 1
    &&& after.outcomes.take(before.outcomes.len() as int) == before.outcomes
    &&& after.issued() <= after.count
    &&& (before.stopped ==> after.stopped && after.outcomes == before.outcomes)
}

/// Whatever is reported to a session, what was recorded stays and stays in
/// order: the outcomes before are a prefix of the outcomes after, at most
/// one is added, and identifier, count and interval never change. A session
/// that was cancelled records nothing more.
pub proof fn lemma_session_only_appends(
    before: SessionModel,
    raw: Seq<u8>,
    source: Ipv4Address,
    now: u64,
)
    requires
        before.wf(),
    ensures
        session_step_appends(before, before.after_poll(now)),
        session_step_appends(before, before.after_packet(raw, source, now)),
        session_step_appends(before, before.after_transmit_failure(now)),
        session_step_appends(before, before.after_cancel()),
{
    assert(before.outcomes.take(before.outcomes.len() as int) =~= before.outcomes);
    if let Some(probe) = before.current {
        let after_quiet = probe.after_quiet(now);
        let after_packet = probe.after_packet(raw, source, now);
        let after_failure = probe.after_transmit_failure();
        if let Some(outcome) = after_quiet.outcome_of() {
            assert(before.outcomes.push(outcome).take(before.outcomes.len() as int)
                =~= before.outcomes);
        }
        if let Some(outcome) = after_packet.outcome_of() {
            assert(before.outcomes.push(outcome).take(before.outcomes.len() as int)
                =~= before.outcomes);
        }
        if let Some(outcome) = after_failure.outcome_of() {
            assert(before.outcomes.push(outcome).take(before.outcomes.len() as int)
                =~= before.outcomes);
        }
    }
}

/// A session takes nothing for an answer but the echo reply that carries
/// its identifier and the sequence number of the probe outstanding, and
/// that only before the deadline of the probe.
pub proof fn lemma_session_accepts_only_its_reply(
    before: SessionModel,
    raw: Seq<u8>,
    source: Ipv4Address,
    now: u64,
)
    requires
        before.wf(),
    ensures
        ({
            let after = before.after_packet(raw, source, now);
            (after.outcomes.len() == before.outcomes.len() + 1 && after.outcomes.last() is Replied)
                <==> (before.current matches Some(probe) && is_reply_to(
                raw,
                before.identifier,
                wire_sequence(before.outcomes.len()),
            ) && now < deadline_after(probe.state->sent_at, ECHO_TIMEOUT_NANOS))
        }),
{
}

/// A session of probes to one target.
pub struct Session {
    identifier: u16,
    count: u32,
    interval: u64,
    resume_at: u64,
    aggregator: Aggregator,
    current: Option<Probe>,
    send_failures: usize,
    stopped: bool,
}

impl View for Session {
    type V = SessionModel;

    closed spec fn view(&self) -> SessionModel {
        SessionModel {
            identifier: self.identifier,
            count: self.count,
            interval: self.interval,
            resume_at: self.resume_at,
            outcomes: self.aggregator@,
            current: self.current,
            send_failures: self.send_failures as nat,
            stopped: self.stopped,
        }
    }
}

impl Session {
    /// Begins a session of `count` probes under the given identifier, with
    /// `interval` nanoseconds between the end of one probe and the start of
    /// the next.
    pub fn new(identifier: u16, count: u32, interval: u64) -> (session: Session)
        ensures
            session@ == SessionModel::initial(identifier, count, interval),
            session@.wf(),
    {
        Session {
            identifier,
            count,
            interval,
            resume_at: 0,
            aggregator: Aggregator::new(),
            current: None,
            send_failures: 0,
            stopped: false,
        }
    }

    /// Begins a session of `count` probes under a random identifier, drawn
    /// once for the whole session.
    pub fn begin(count: u32, interval: u64) -> (session: Session)
        ensures
            session@ == SessionModel::initial(session@.identifier, count, interval),
            session@.wf(),
    {
        Session::new(random_identifier(), count, interval)
    }

    /// The identifier of every probe of this session.
    pub fn identifier(&self) -> (identifier: u16)
        ensures
            identifier == self@.identifier,
    {
        self.identifier
    }

    /// Number of probes the session was asked to issue.
    pub fn count(&self) -> (count: u32)
        ensures
            count == self@.count,
    {
        self.count
    }

    /// Time between the end of one probe and the start of the next, in
    /// nanoseconds.
    pub fn interval(&self) -> (interval: u64)
        ensures
            interval == self@.interval,
    {
        self.interval
    }

    /// How many probes timed out because their request could not be sent.
    pub fn send_failures(&self) -> (failures: usize)
        ensures
            failures == self@.send_failures,
    {
        self.send_failures
    }

    /// Whether nothing is left to do.
    pub fn is_finished(&self) -> (finished: bool)
        ensures
            finished == self@.finished(),
    {
        self.stopped || (self.current.is_none() && self.aggregator.len() >= self.count as usize)
    }

    /// The probe that is outstanding, if one is.
    pub fn current(&self) -> (probe: Option<Probe>)
        ensures
            probe == self@.current,
    {
        self.current
    }

    /// The outcomes recorded so far, in the order of issue.
    pub fn outcomes(&self) -> (aggregator: &Aggregator)
        ensures
            aggregator@ == self@.outcomes,
    {
        &self.aggregator
    }

    /// The statistics of the probes that are over.
    pub fn stats(&self) -> (stats: SessionStats)
        ensures
            stats == session_stats(self@.outcomes),
    {
        self.aggregator.snapshot()
    }

    /// The chart samples of the most recent probes, oldest first.
    pub fn recent_samples(&self) -> (samples: Vec<u64>)
        ensures
            samples@ == recent_window(self@.outcomes),
            samples@.len() <= WINDOW_LEN,
    {
        self.aggregator.recent_samples()
    }

    /// The bytes to transmit for the outstanding probe, or `None` when no
    /// probe is outstanding.
    pub fn request(&self) -> (packet: Option<Vec<u8>>)
        ensures
            packet is Some <==> self@.current is Some,
            packet matches Some(bytes) ==> bytes@ == echo_request(
                self@.current->0.identifier,
                self@.current->0.sequence_number,
            ),
    {
        match &self.current {
            Some(probe) => Some(probe.request()),
            None => None,
        }
    }

    /// Moves on at `now`. With a probe outstanding, `now` is the end of a
    /// quiet polling slice: past the deadline the probe is recorded as
    /// timed out. With none, the session says that it is done, or that the
    /// interval is not over, or issues the next probe.
    pub fn poll(&mut self, now: u64) -> (action: SessionAction)
        requires
            old(self)@.wf(),
        ensures
            final(self)@ == old(self)@.after_poll(now),
            action == old(self)@.poll_action(now),
            final(self)@.wf(),
    {
        match self.current {
            Some(probe) => {
                let mut probe = probe;
                probe.on_quiet(now);
                self.settle(probe, now)
            },
            None => {
                if self.is_finished() {
                    SessionAction::Done
                } else if now < self.resume_at {
                    SessionAction::Sleep { until: self.resume_at }
                } else {
                    let issued = self.aggregator.len();
                    let mut probe = Probe::new(
                        ProbeKind::Echo,
                        self.identifier,
                        (issued % 0x1_0000) as u16,
                    );
                    probe.start(now);
                    self.current = Some(probe);
                    SessionAction::Transmit { sequence: issued as u32 }
                }
            },
        }
    }

    /// Reports a message that arrived from `source` at `now`.
    pub fn on_packet(&mut self, raw: &[u8], source: Ipv4Address, now: u64) -> (action:
        SessionAction)
        requires
            old(self)@.wf(),
        ensures
            final(self)@ == old(self)@.after_packet(raw@, source, now),
            action == old(self)@.packet_action(raw@, source, now),
            final(self)@.wf(),
    {
        match self.current {
            Some(probe) => {
                let mut probe = probe;
                probe.on_packet(raw, source, now);
                self.settle(probe, now)
            },
            None => self.idle(),
        }
    }

    /// Reports at `now` that the request of the outstanding probe could not
    /// be sent. The probe is recorded as timed out and the session goes on.
    pub fn transmit_failed(&mut self, now: u64) -> (action: SessionAction)
        requires
            old(self)@.wf(),
        ensures
            final(self)@ == old(self)@.after_transmit_failure(now),
            action == old(self)@.transmit_failure_action(),
            final(self)@.wf(),
    {
        match self.current {
            Some(probe) => {
                let mut probe = probe;
                probe.transmit_failed();
                self.settle(probe, now)
            },
            None => self.idle(),
        }
    }

    /// Cancels the session. The outstanding probe is given up; every
    /// outcome recorded so far stays.
    pub fn cancel(&mut self)
        requires
            old(self)@.wf(),
        ensures
            final(self)@ == old(self)@.after_cancel(),
            final(self)@.wf(),
            final(self)@.finished(),
    {
        self.current = None;
        self.stopped = true;
    }

    fn idle(&self) -> (action: SessionAction)
        requires
            self@.wf(),
            self@.current is None,
        ensures
            action == self@.idle_action(),
    {
        if self.is_finished() {
            SessionAction::Done
        } else {
            SessionAction::Sleep { until: self.resume_at }
        }
    }

    fn settle(&mut self, probe: Probe, now: u64) -> (action: SessionAction)
        requires
            old(self)@.wf(),
            old(self)@.current is Some,
            probe.kind == ProbeKind::Echo,
            probe.identifier == old(self)@.identifier,
            probe.sequence_number == wire_sequence(old(self)@.outcomes.len()),
            !(probe.state is Created),
            probe.send_failed ==> probe.state is TimedOut,
        ensures
            final(self)@ == old(self)@.settled(probe, now),
            action == old(self)@.settled_action(probe),
            final(self)@.wf(),
    {
        let sequence = self.aggregator.len() as u32;
        match probe.action() {
            ProbeAction::Finish { outcome } => {
                self.aggregator.record(outcome);
                self.current = None;
                self.resume_at = if now > u64::MAX - self.interval {
                    u64::MAX
                } else {
                    now + self.interval
                };
                if probe.send_failed {
                    self.send_failures = self.send_failures + 1;
                }
                SessionAction::Rest { sequence, outcome }
            },
            ProbeAction::Listen { deadline } => {
                self.current = Some(probe);
                SessionAction::Listen { deadline }
            },
            ProbeAction::Transmit => {
                self.current = Some(probe);
                SessionAction::Transmit { sequence }
            },
        }
    }
}

} // verus!
