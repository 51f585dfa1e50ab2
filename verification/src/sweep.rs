//! The TTL sweep of a traceroute: one probe per hop limit, from 1 upwards,
//! until the destination answers or the hops run out.

use crate::address::Ipv4Address;
use crate::identifier::random_identifier;
use crate::probe::{deadline_after, Probe, ProbeAction, ProbeKind};
use crate::stats::ProbeOutcome;
use crate::wire::echo_request;
use vstd::prelude::*;

verus! {

/// Time to rest between two hops: half a second.
pub const HOP_REST_NANOS: u64 = 500_000_000;

/// Where a sweep stands.
#[derive(Clone, Copy, Debug, PartialEq, Eq, Structural)]
pub enum SweepStatus {
    /// More hops are to be probed.
    Running,
    /// The destination answered.
    Reached,
    /// The last hop allowed was probed and the destination did not answer.
    Exhausted,
}

/// What the probe of one hop found.
#[derive(Clone, Copy, Debug, PartialEq, Eq, Structural)]
pub struct HopReport {
    /// The hop limit of the probe, counted from 1.
    pub ttl: u8,
    /// Who answered and how fast; `TimedOut` for a silent hop.
    pub outcome: ProbeOutcome,
    /// Whether the destination itself answered.
    pub reached: bool,
    /// Whether the probe really went out with hop limit `ttl`. Where the
    /// platform cannot set the hop limit this is false, and the answer must
    /// not be taken for that of hop `ttl`.
    pub attributed: bool,
}

/// What the owner of a sweep does next.
#[derive(Clone, Copy, Debug, PartialEq, Eq, Structural)]
pub enum SweepAction {
    /// Tell the user, once, that this platform cannot limit hops, then go
    /// on with `poll`.
    Warn,
    /// Open a fresh socket with hop limit `ttl` and transmit `request()`.
    /// Report a failure with `transmit_failed`, then go on with `poll`.
    Transmit { ttl: u8 },
    /// Poll the socket, until `deadline` at the latest. Report a message
    /// with `on_packet` and a quiet slice with `poll`.
    Listen { deadline: u64 },
    /// A hop is over. Show `report`, then go on with `poll`.
    Rest { report: HopReport, status: SweepStatus },
    /// The next hop is not probed before `until`. Sleep until then, and not
    /// at all should that time have passed; then go on with `poll`.
    Sleep { until: u64 },
    /// The sweep is over.
    Done { status: SweepStatus },
}

/// Whether `outcome` is an answer from `destination`.
pub open spec fn answered_by(outcome: ProbeOutcome, destination: Ipv4Address) -> bool {
    outcome matches ProbeOutcome::Replied { responder, .. } && responder == destination
}

/// A sweep as the contracts see it.
pub struct SweepModel {
    /// The address that the sweep tries to reach.
    pub destination: Ipv4Address,
    /// The greatest hop limit to probe.
    pub max_hops: u8,
    /// Whether the platform can set the hop limit of what it sends.
    pub hop_limit_supported: bool,
    /// Whether the user was told that it cannot.
    pub warned: bool,
    /// The hops probed so far, nearest first.
    pub hops: Seq<HopReport>,
    /// The probe that is outstanding, if one is.
    pub current: Option<Probe>,
    /// Time before which the next hop is not probed.
    pub resume_at: u64,
}

impl SweepModel {
    /// A sweep that has probed nothing yet.
    pub open spec fn initial(
        destination: Ipv4Address,
        max_hops: u8,
        hop_limit_supported: bool,
    ) -> SweepModel {
        SweepModel {
            destination,
            max_hops,
            hop_limit_supported,
            warned: false,
            hops: Seq::empty(),
            current: None,
            resume_at: 0,
        }
    }

    /// Where the sweep stands: it has reached the destination once the last
    /// hop probed was answered by it, and has run out of hops once
    /// `max_hops` were probed without that.
    pub open spec fn status(self) -> SweepStatus {
        if self.hops.len() > 0 && self.hops.last().reached {
            SweepStatus::Reached
        } else if self.hops.len() >= self.max_hops {
            SweepStatus::Exhausted
        } else {
            SweepStatus::Running
        }
    }

    /// What holds of every sweep: hop `i` was probed with hop limit
    /// `i + 1`, only the last hop can be the destination, and a probe is
    /// outstanding only while the sweep runs.
    pub open spec fn wf(self) -> bool {
        &&& self.hops.len() <= self.max_hops
        &&& forall|i: int|
            0 <= i < self.hops.len() ==> {
                &&& (#[trigger] self.hops[i]).ttl == i + 1
                &&& self.hops[i].reached == answered_by(self.hops[i].outcome, self.destination)
                &&& self.hops[i].attributed == self.hop_limit_supported
                &&& (self.hops[i].reached ==> i == self.hops.len() - 1)
            }
        &&& match self.current {
            None => true,
            Some(probe) => {
                &&& self.status() is Running
                &&& (self.hop_limit_supported || self.warned)
                &&& probe.kind == ProbeKind::Hop
                &&& probe.sequence_number == self.hops.len() + 1
                &&& probe.state is Sent
                &&& !probe.send_failed
            },
        }
    }

    /// The report on the hop that `outcome` ends.
    pub open spec fn report_of(self, outcome: ProbeOutcome) -> HopReport {
        HopReport {
            ttl: (self.hops.len() + 1) as u8,
            outcome,
            reached: answered_by(outcome, self.destination),
            attributed: self.hop_limit_supported,
        }
    }

    /// The sweep once its outstanding probe has become `probe` at `now`: a
    /// probe that is over ends its hop and the rest before the next hop
    /// begins, any other probe stays outstanding.
    pub open spec fn settled(self, probe: Probe, now: u64) -> SweepModel {
        match probe.outcome_of() {
            Some(outcome) => SweepModel {
                hops: self.hops.push(self.report_of(outcome)),
                current: None,
                resume_at: deadline_after(now, HOP_REST_NANOS),
                ..self
            },
            None => SweepModel { current: Some(probe), ..self },
        }
    }

    /// What the owner does once the outstanding probe has become `probe`
    /// at `now`.
    pub open spec fn settled_action(self, probe: Probe, now: u64) -> SweepAction {
        match probe.pending() {
            ProbeAction::Finish { outcome } => SweepAction::Rest {
                report: self.report_of(outcome),
                status: self.settled(probe, now).status(),
            },
            ProbeAction::Listen { deadline } => SweepAction::Listen { deadline },
            ProbeAction::Transmit => SweepAction::Transmit { ttl: (self.hops.len() + 1) as u8 },
        }
    }

    /// What the owner does after a report that found no probe outstanding.
    pub open spec fn idle_action(self) -> SweepAction {
        if !(self.status() is Running) {
            SweepAction::Done { status: self.status() }
        } else {
            SweepAction::Sleep { until: self.resume_at }
        }
    }

    /// The sweep after `poll` at `now`, should the next probe take
    /// `identifier`.
    pub open spec fn after_poll(self, identifier: u16, now: u64) -> SweepModel {
        match self.current {
            Some(probe) => self.settled(probe.after_quiet(now), now),
            None => {
                if !(self.status() is Running) {
                    self
                } else if !self.hop_limit_supported && !self.warned {
                    SweepModel { warned: true, ..self }
                } else if now < self.resume_at {
                    self
                } else {
                    SweepModel {
                        current: Some(
                            Probe::created(
                                ProbeKind::Hop,
                                identifier,
                                (self.hops.len() + 1) as u16,
                            ).after_start(now),
                        ),
                        ..self
                    }
                }
            },
        }
    }

    /// What `poll` at `now` answers.
    pub open spec fn poll_action(self, now: u64) -> SweepAction {
        match self.current {
            Some(probe) => self.settled_action(probe.after_quiet(now), now),
            None => {
                if !(self.status() is Running) {
                    SweepAction::Done { status: self.status() }
                } else if !self.hop_limit_supported && !self.warned {
                    SweepAction::Warn
                } else if now < self.resume_at {
                    SweepAction::Sleep { until: self.resume_at }
                } else {
                    SweepAction::Transmit { ttl: (self.hops.len() + 1) as u8 }
                }
            },
        }
    }

    /// The sweep after a message arrived.
    pub open spec fn after_packet(self, raw: Seq<u8>, source: Ipv4Address, now: u64) -> SweepModel {
        match self.current {
            Some(probe) => self.settled(probe.after_packet(raw, source, now), now),
            None => self,
        }
    }

    /// What the sweep answers to a message that arrived.
    pub open spec fn packet_action(
        self,
        raw: Seq<u8>,
        source: Ipv4Address,
        now: u64,
    ) -> SweepAction {
        match self.current {
            Some(probe) => self.settled_action(probe.after_packet(raw, source, now), now),
            None => self.idle_action(),
        }
    }

    /// The sweep after the request of the outstanding probe could not be
    /// sent at `now`: the hop counts as silent.
    pub open spec fn after_transmit_failure(self, now: u64) -> SweepModel {
        match self.current {
            Some(probe) => self.settled(probe.after_transmit_failure(), now),
            None => self,
        }
    }

    /// What the sweep answers to a request that could not be sent.
    pub open spec fn transmit_failure_action(self, now: u64) -> SweepAction {
        match self.current {
            Some(probe) => self.settled_action(probe.after_transmit_failure(), now),
            None => self.idle_action(),
        }
    }
}

/// One step of a sweep, from `before` to `after`, kept the sweep well formed
/// and did no more than append the report of one hop.
pub open spec fn sweep_step_appends(before: SweepModel, after: SweepModel) -> bool {
    &&& after.wf()
    &&& after.destination == before.destination
    &&& after.max_hops == before.max_hops
    &&& after.hop_limit_supported == before.hop_limit_supported
    &&& (before.warned ==> after.warned)
    &&& before.hops.len() <= after.hops.len() <= before.hops.len() + 1
    &&& after.hops.take(before.hops.len() as int) == before.hops
    &&& (!(before.status() is Running) ==> after == before)
}

/// Whatever is reported to a sweep, the hops probed stay and stay in order,
/// at most one is added, and a sweep that has ended never changes again.
pub proof fn lemma_sweep_only_appends(
    before: SweepModel,
    identifier: u16,
    raw: Seq<u8>,
    source: Ipv4Address,
    now: u64,
)
    requires
        before.wf(),
    ensures
        sweep_step_appends(before, before.after_poll(identifier, now)),
        sweep_step_appends(before, before.after_packet(raw, source, now)),
        sweep_step_appends(before, before.after_transmit_failure(now)),
{
    assert(before.hops.take(before.hops.len() as int) =~= before.hops);
    if let Some(probe) = before.current {
        lemma_settled_appends(before, probe.after_quiet(now), now);
        lemma_settled_appends(before, probe.after_packet(raw, source, now), now);
        lemma_settled_appends(before, probe.after_transmit_failure(), now);
    }
}

/// Settling the outstanding probe of a well-formed sweep is a step that
/// appends at most one hop.
proof fn lemma_settled_appends(before: SweepModel, probe: Probe, now: u64)
    requires
        before.wf(),
        before.current is Some,
        probe.kind == ProbeKind::Hop,
        probe.sequence_number == before.hops.len() + 1,
        !(probe.state is Created),
        probe.send_failed ==> probe.state is TimedOut,
    ensures
        sweep_step_appends(before, before.settled(probe, now)),
{
    let after = before.settled(probe, now);
    assert(after.hops.take(before.hops.len() as int) =~= before.hops);
    if let Some(outcome) = probe.outcome_of() {
        assert forall|i: int| 0 <= i < after.hops.len() implies {
            &&& (#[trigger] after.hops[i]).ttl == i + 1
            &&& after.hops[i].reached == answered_by(after.hops[i].outcome, after.destination)
            &&& after.hops[i].attributed == after.hop_limit_supported
            &&& (after.hops[i].reached ==> i == after.hops.len() - 1)
        } by {
            if i < before.hops.len() {
                assert(after.hops[i] == before.hops[i]);
            }
        }
    }
}

/// A silent hop does not end a sweep: after a hop that timed out the sweep
/// goes on to the next hop limit, unless that hop was the last one allowed.
pub proof fn lemma_silent_hop_is_not_fatal(sweep: SweepModel, probe: Probe, now: u64)
    requires
        sweep.wf(),
        sweep.current is Some,
        probe.state is TimedOut,
    ensures
        sweep.settled(probe, now).hops.len() == sweep.hops.len() + 1,
        sweep.settled(probe, now).hops.last().outcome == ProbeOutcome::TimedOut,
        sweep.settled(probe, now).status() == if sweep.hops.len() + 1 == sweep.max_hops {
            SweepStatus::Exhausted
        } else {
            SweepStatus::Running
        },
{
}

/// A sweep ends exactly as its hops say: it has reached the destination
/// when the last hop was answered by it, it is exhausted when `max_hops`
/// hops went by without that, and it runs otherwise. No hop before the last
/// was answered by the destination.
pub proof fn lemma_sweep_status(sweep: SweepModel)
    requires
        sweep.wf(),
    ensures
        sweep.status() is Reached <==> exists|i: int|
            0 <= i < sweep.hops.len() && answered_by(
                (#[trigger] sweep.hops[i]).outcome,
                sweep.destination,
            ),
        sweep.status() is Exhausted <==> sweep.hops.len() == sweep.max_hops && forall|i: int|
            0 <= i < sweep.hops.len() ==> !answered_by(
                (#[trigger] sweep.hops[i]).outcome,
                sweep.destination,
            ),
        forall|i: int|
            0 <= i < sweep.hops.len() - 1 ==> !answered_by(
                (#[trigger] sweep.hops[i]).outcome,
                sweep.destination,
            ),
{
    if sweep.hops.len() > 0 {
        let last = sweep.hops.len() - 1;
        if sweep.hops[last].reached {
            assert(answered_by(sweep.hops[last].outcome, sweep.destination));
        }
    }
}

/// The TTL sweep of one traceroute.
pub struct Sweep {
    destination: Ipv4Address,
    max_hops: u8,
    hop_limit_supported: bool,
    warned: bool,
    hops: Vec<HopReport>,
    current: Option<Probe>,
    resume_at: u64,
}

impl View for Sweep {
    type V = SweepModel;

    closed spec fn view(&self) -> SweepModel {
        SweepModel {
            destination: self.destination,
            max_hops: self.max_hops,
            hop_limit_supported: self.hop_limit_supported,
            warned: self.warned,
            hops: self.hops@,
            current: self.current,
            resume_at: self.resume_at,
        }
    }
}

impl Sweep {
    /// A sweep towards `destination` over at most `max_hops` hops.
    /// `hop_limit_supported` says whether the platform can set the hop
    /// limit of what it sends.
    pub fn new(destination: Ipv4Address, max_hops: u8, hop_limit_supported: bool) -> (sweep:
        Sweep)
        ensures
            sweep@ == SweepModel::initial(destination, max_hops, hop_limit_supported),
            sweep@.wf(),
    {
        Sweep {
            destination,
            max_hops,
            hop_limit_supported,
            warned: false,
            hops: Vec::new(),
            current: None,
            resume_at: 0,
        }
    }

    /// Where the sweep stands.
    pub fn status(&self) -> (status: SweepStatus)
        ensures
            status == self@.status(),
    {
        let n = self.hops.len();
        if n > 0 && self.hops[n - 1].reached {
            SweepStatus::Reached
        } else if n >= self.max_hops as usize {
            SweepStatus::Exhausted
        } else {
            SweepStatus::Running
        }
    }

    /// The hops probed so far, nearest first.
    pub fn hops(&self) -> (hops: &Vec<HopReport>)
        ensures
            hops@ == self@.hops,
    {
        &self.hops
    }

    /// The probe that is outstanding, if one is.
    pub fn current(&self) -> (probe: Option<Probe>)
        ensures
            probe == self@.current,
    {
        self.current
    }

    /// The bytes to transmit for the outstanding probe, or `None` when no
    /// probe is outstanding.
    pub fn request(&self) -> (packet: Option<Vec<u8>>)
        ensures
            packet is Some <==> self@.current is Some,
            packet matches Some(bytes) ==> bytes@ == echo_request(
                self@.current->0.identifier,
                self@.current->0.sequence_number,
            ),
    {
        match &self.current {
            Some(probe) => Some(probe.request()),
            None => None,
        }
    }

    /// Moves on at `now`, with `identifier` for the probe of the next hop
    /// should one be issued. With a probe outstanding, `now` is the end of
    /// a quiet polling slice.
    pub fn poll_with(&mut self, identifier: u16, now: u64) -> (action: SweepAction)
        requires
            old(self)@.wf(),
        ensures
            final(self)@ == old(self)@.after_poll(identifier, now),
            action == old(self)@.poll_action(now),
            final(self)@.wf(),
    {
        match self.current {
            Some(probe) => {
                let mut probe = probe;
                probe.on_quiet(now);
                self.settle(probe, now)
            },
            None => {
                let status = self.status();
                if status != SweepStatus::Running {
                    SweepAction::Done { status }
                } else if !self.hop_limit_supported && !self.warned {
                    self.warned = true;
                    SweepAction::Warn
                } else if now < self.resume_at {
                    SweepAction::Sleep { until: self.resume_at }
                } else {
                    let ttl: u8 = (self.hops.len() + 1) as u8;
                    let mut probe = Probe::new(ProbeKind::Hop, identifier, ttl as u16);
                    probe.start(now);
                    self.current = Some(probe);
                    SweepAction::Transmit { ttl }
                }
            },
        }
    }

    /// Moves on at `now`. The probe of each hop gets a fresh random
    /// identifier; everything else is as `poll_with` says.
    pub fn poll(&mut self, now: u64) -> (action: SweepAction)
        requires
            old(self)@.wf(),
        ensures
            exists|identifier: u16|
                final(self)@ == #[trigger] old(self)@.after_poll(identifier, now),
            action == old(self)@.poll_action(now),
            final(self)@.wf(),
    {
        let identifier = random_identifier();
        self.poll_with(identifier, now)
    }

    /// Reports a message that arrived from `source` at `now`.
    pub fn on_packet(&mut self, raw: &[u8], source: Ipv4Address, now: u64) -> (action:
        SweepAction)
        requires
            old(self)@.wf(),
        ensures
            final(self)@ == old(self)@.after_packet(raw@, source, now),
            action == old(self)@.packet_action(raw@, source, now),
            final(self)@.wf(),
    {
        match self.current {
            Some(probe) => {
                let mut probe = probe;
                probe.on_packet(raw, source, now);
                self.settle(probe, now)
            },
            None => self.idle(),
        }
    }

    /// Reports at `now` that the request of the outstanding probe could not
    /// be sent. The hop counts as silent and the sweep goes on.
    pub fn transmit_failed(&mut self, now: u64) -> (action: SweepAction)
        requires
            old(self)@.wf(),
        ensures
            final(self)@ == old(self)@.after_transmit_failure(now),
            action == old(self)@.transmit_failure_action(now),
            final(self)@.wf(),
    {
        match self.current {
            Some(probe) => {
                let mut probe = probe;
                probe.transmit_failed();
                self.settle(probe, now)
            },
            None => self.idle(),
        }
    }

    fn idle(&self) -> (action: SweepAction)
        requires
            self@.wf(),
            self@.current is None,
        ensures
            action == self@.idle_action(),
    {
        let status = self.status();
        if status != SweepStatus::Running {
            SweepAction::Done { status }
        } else {
            SweepAction::Sleep { until: self.resume_at }
        }
    }

    fn settle(&mut self, probe: Probe, now: u64) -> (action: SweepAction)
        requires
            old(self)@.wf(),
            old(self)@.current is Some,
            probe.kind == ProbeKind::Hop,
            probe.sequence_number == old(self)@.hops.len() + 1,
            !(probe.state is Created),
            probe.send_failed ==> probe.state is TimedOut,
        ensures
            final(self)@ == old(self)@.settled(probe, now),
            action == old(self)@.settled_action(probe, now),
            final(self)@.wf(),
    {
        let ttl: u8 = (self.hops.len() + 1) as u8;
        match probe.action() {
            ProbeAction::Finish { outcome } => {
                let reached = match outcome {
                    ProbeOutcome::Replied { responder, .. } => responder == self.destination,
                    ProbeOutcome::TimedOut => false,
                };
                let report = HopReport {
                    ttl,
                    outcome,
                    reached,
                    attributed: self.hop_limit_supported,
                };
                self.hops.push(report);
                self.current = None;
                self.resume_at = if now > u64::MAX - HOP_REST_NANOS {
                    u64::MAX
                } else {
                    now + HOP_REST_NANOS
                };
                SweepAction::Rest { report, status: self.status() }
            },
            ProbeAction::Listen { deadline } => {
                self.current = Some(probe);
                SweepAction::Listen { deadline }
            },
            ProbeAction::Transmit => {
                self.current = Some(probe);
                SweepAction::Transmit { ttl }
            },
        }
    }
}

} // verus!
