//! The per-client session: signaling phases, the channel-ready gate, and the
//! single bridge slot that the supervisor owns.
use vstd::prelude::*;
use crate::gate::ChannelOpenGate;
use crate::signal::{answer_sdp, parse_answer, kind_of, sdp_well_formed, signal_kind, SignalKind};
use webrtc::peer_connection::sdp::session_description::RTCSessionDescription;

verus! {

/// Lifecycle phase of a client session. `Closed` and `Errored` are terminal.
#[derive(Clone, Copy, PartialEq, Eq, Structural)]
pub enum Phase {
    Created,
    OfferSent,
    Negotiating,
    Established,
    Closed,
    Errored,
}

/// Connection state that the transport session reports.
#[derive(Clone, Copy, PartialEq, Eq, Structural)]
pub enum PeerState {
    Unspecified,
    New,
    Connecting,
    Connected,
    Disconnected,
    Failed,
    Closed,
}

/// What to do with one inbound signaling message.
pub enum InboundAction {
    /// Register this description as the remote one.
    ApplyAnswer(RTCSessionDescription),
    /// Drop an answer whose SDP does not parse; the session goes on.
    MalformedAnswer,
    /// Hand the message's payload to the ICE-candidate accumulator.
    AddCandidate,
    /// Drop the message.
    Ignore,
}

/// Whether a phase ends the session.
pub open spec fn terminal(p: Phase) -> bool {
    p is Closed || p is Errored
}

/// The SDP text of an answer whose `sdp` field is `field`: empty where the
/// field is missing or not a string.
pub open spec fn answer_text(field: Option<&str>) -> Seq<char> {
    match field {
        Some(f) => f@,
        None => Seq::empty(),
    }
}

/// Whether a reported transport state ends the session.
pub open spec fn ends_session(s: PeerState) -> bool {
    s is Disconnected || s is Failed || s is Closed
}

/// One accepted client connection.
pub struct ClientSession {
    client_id: String,
    phase: Phase,
    gate: ChannelOpenGate,
    bridge_started: bool,
    bridge_live: bool,
}

/// What one "channel open" event does to a session: outside a terminal phase
/// it is counted, and the event that completes the pair starts the bridge.
pub open spec fn opened_step(before: ClientSession, after: ClientSession, start: bool) -> bool {
    &&& after.wf()
    &&& start == (!terminal(before.phase_spec()) && before.opened_count() == 1)
    &&& after.client_id_spec() == before.client_id_spec()
    &&& terminal(before.phase_spec()) ==> after == before
    &&& !terminal(before.phase_spec()) ==> after.opened_count() == if before.opened_count() < 2 {
        before.opened_count() + 1
    } else {
        2
    }
    &&& start ==> {
        &&& after.phase_spec() is Established
        &&& after.bridge_live_spec()
        &&& after.bridge_started_spec()
        &&& !before.bridge_started_spec()
    }
    &&& !start ==> {
        &&& after.phase_spec() == before.phase_spec()
        &&& after.bridge_live_spec() == before.bridge_live_spec()
        &&& after.bridge_started_spec() == before.bridge_started_spec()
    }
}

/// What ending the session in phase `to` does: a session that is not yet
/// terminal moves to `to`, and the live bridge, if any, is to be stopped.
pub open spec fn end_step(before: ClientSession, after: ClientSession, to: Phase, stop: bool) -> bool {
    &&& after.wf()
    &&& stop == before.bridge_live_spec()
    &&& !after.bridge_live_spec()
    &&& after.bridge_started_spec() == before.bridge_started_spec()
    &&& after.opened_count() == before.opened_count()
    &&& after.client_id_spec() == before.client_id_spec()
    &&& after.phase_spec() == if terminal(before.phase_spec()) { before.phase_spec() } else { to }
}

impl ClientSession {
    /// The client's correlation identifier.
    pub closed spec fn client_id_spec(&self) -> Seq<char> {
        self.client_id@
    }

    /// The current phase.
    pub closed spec fn phase_spec(&self) -> Phase {
        self.phase
    }

    /// How many of the two logical channels have opened while the session ran.
    pub closed spec fn opened_count(&self) -> nat {
        self.gate.count()
    }

    /// Whether a bridge was ever created for this session.
    pub closed spec fn bridge_started_spec(&self) -> bool {
        self.bridge_started
    }

    /// Whether the session owns a bridge that has not been stopped.
    pub closed spec fn bridge_live_spec(&self) -> bool {
        self.bridge_live
    }

    /// The session's invariant: a live bridge exists only in the established
    /// phase, and a bridge was created exactly when both channels opened.
    pub closed spec fn wf(&self) -> bool {
        &&& self.gate.wf()
        &&& self.bridge_live ==> self.bridge_started
        &&& self.bridge_live ==> self.phase is Established
        &&& self.bridge_started <==> self.gate.count() == 2
        &&& terminal(self.phase) ==> !self.bridge_live
    }

    /// A session for a newly accepted connection.
    pub fn new(client_id: String) -> (s: Self)
        ensures
            s.wf(),
            s.client_id_spec() == client_id@,
            s.phase_spec() is Created,
            s.opened_count() == 0,
            !s.bridge_started_spec(),
            !s.bridge_live_spec(),
    {
        ClientSession {
            client_id,
            phase: Phase::Created,
            gate: ChannelOpenGate::new(),
            bridge_started: false,
            bridge_live: false,
        }
    }

    /// The client's correlation identifier.
    pub fn client_id(&self) -> (r: &str)
        ensures
            r@ == self.client_id_spec(),
    {
        self.client_id.as_str()
    }

    /// The current phase.
    pub fn phase(&self) -> (r: Phase)
        ensures
            r == self.phase_spec(),
    {
        self.phase
    }

    /// Whether the session has closed or failed.
    pub fn is_terminal(&self) -> (r: bool)
        ensures
            r == terminal(self.phase_spec()),
    {
        self.phase == Phase::Closed || self.phase == Phase::Errored
    }

    /// Whether the session owns a running bridge.
    pub fn has_bridge(&self) -> (r: bool)
        ensures
            r == self.bridge_live_spec(),
    {
        self.bridge_live
    }

    /// Whether a locally gathered ICE candidate is still sent to the client.
    pub fn should_forward_candidate(&self) -> (r: bool)
        ensures
            r == !terminal(self.phase_spec()),
    {
        !self.is_terminal()
    }

    /// Records that the local offer was created, registered and sent.
    pub fn offer_sent(&mut self)
        requires
            old(self).wf(),
        ensures
            final(self).wf(),
            final(self).phase_spec() == if old(self).phase_spec() is Created {
                Phase::OfferSent
            } else {
                old(self).phase_spec()
            },
            final(self).opened_count() == old(self).opened_count(),
            final(self).bridge_started_spec() == old(self).bridge_started_spec(),
            final(self).bridge_live_spec() == old(self).bridge_live_spec(),
            final(self).client_id_spec() == old(self).client_id_spec(),
    {
        if self.phase == Phase::Created {
            self.phase = Phase::OfferSent;
        }
    }

    /// Records that an answer was registered as the remote description.
    pub fn answer_applied(&mut self)
        requires
            old(self).wf(),
        ensures
            final(self).wf(),
            final(self).phase_spec() == if old(self).phase_spec() is OfferSent
                || old(self).phase_spec() is Negotiating {
                Phase::Negotiating
            } else {
                old(self).phase_spec()
            },
            final(self).opened_count() == old(self).opened_count(),
            final(self).bridge_started_spec() == old(self).bridge_started_spec(),
            final(self).bridge_live_spec() == old(self).bridge_live_spec(),
            final(self).client_id_spec() == old(self).client_id_spec(),
    {
        if self.phase == Phase::OfferSent || self.phase == Phase::Negotiating {
            self.phase = Phase::Negotiating;
        }
    }

    /// Decides on one inbound signaling message, given its `event` field and
    /// its payload's `sdp` field where that is a string. An answer whose SDP
    /// does not parse is dropped; so are messages of unknown kind, and all
    /// messages once the session has ended.
    pub fn on_signal(&self, event: &str, sdp_field: Option<&str>) -> (r: InboundAction)
        ensures
            terminal(self.phase_spec()) ==> r is Ignore,
            !terminal(self.phase_spec()) ==> match kind_of(event@) {
                SignalKind::Answer => if sdp_well_formed(answer_text(sdp_field)) {
                    r is ApplyAnswer
                } else {
                    r is MalformedAnswer
                },
                SignalKind::Candidate => r is AddCandidate,
                _ => r is Ignore,
            },
    {
        if self.is_terminal() {
            return InboundAction::Ignore;
        }
        match signal_kind(event) {
            SignalKind::Answer => match parse_answer(answer_sdp(sdp_field)) {
                Some(d) => InboundAction::ApplyAnswer(d),
                None => InboundAction::MalformedAnswer,
            },
            SignalKind::Candidate => InboundAction::AddCandidate,
            _ => InboundAction::Ignore,
        }
    }

    /// Registers that one logical channel opened; true for the one event that
    /// must create the bridge.
    pub fn channel_opened(&mut self) -> (start: bool)
        requires
            old(self).wf(),
        ensures
            opened_step(*old(self), *final(self), start),
    {
        if self.is_terminal() {
            return false;
        }
        let start = self.gate.register_open();
        if start {
            self.bridge_started = true;
            self.bridge_live = true;
            self.phase = Phase::Established;
        }
        start
    }

    fn end(&mut self, to: Phase) -> (stop: bool)
        requires
            old(self).wf(),
            terminal(to),
        ensures
            end_step(*old(self), *final(self), to, stop),
    {
        let stop = self.bridge_live;
        self.bridge_live = false;
        if !self.is_terminal() {
            self.phase = to;
        }
        stop
    }

    /// The session failed (offer creation, description registration or
    /// bridge construction); true when a live bridge is to be stopped.
    pub fn fail(&mut self) -> (stop: bool)
        requires
            old(self).wf(),
        ensures
            end_step(*old(self), *final(self), Phase::Errored, stop),
    {
        self.end(Phase::Errored)
    }

    /// The signaling connection ended; true when a live bridge is to be stopped.
    pub fn transport_closed(&mut self) -> (stop: bool)
        requires
            old(self).wf(),
        ensures
            end_step(*old(self), *final(self), Phase::Closed, stop),
    {
        self.end(Phase::Closed)
    }

    /// The transport session reported a new state; a disconnected, failed or
    /// closed session ends, and true means a live bridge is to be stopped.
    pub fn peer_state_changed(&mut self, state: PeerState) -> (stop: bool)
        requires
            old(self).wf(),
        ensures
            ends_session(state) ==> end_step(*old(self), *final(self), Phase::Closed, stop),
            !ends_session(state) ==> *final(self) == *old(self) && !stop,
    {
        if state == PeerState::Disconnected || state == PeerState::Failed || state == PeerState::Closed {
            self.end(Phase::Closed)
        } else {
            false
        }
    }
}

/// Whatever the order in which the two channels report "open", a running
/// session creates its bridge exactly once: on the second event.
pub proof fn lemma_bridge_created_once(
    s0: ClientSession,
    s1: ClientSession,
    s2: ClientSession,
    first: bool,
    second: bool,
)
    requires
        s0.wf(),
        s0.opened_count() == 0,
        !terminal(s0.phase_spec()),
        opened_step(s0, s1, first),
        opened_step(s1, s2, second),
    ensures
        !first,
        second,
        s2.bridge_live_spec(),
        s2.phase_spec() is Established,
{
}

/// A third "open" event, in any phase, never creates a second bridge.
pub proof fn lemma_no_second_bridge(s0: ClientSession, s1: ClientSession, start: bool)
    requires
        s0.wf(),
        s0.bridge_started_spec(),
        opened_step(s0, s1, start),
    ensures
        !start,
{
}

/// Ending a session stops its bridge at most once: after the first end,
/// every further end reports nothing to stop.
pub proof fn lemma_bridge_stopped_once(
    s0: ClientSession,
    s1: ClientSession,
    s2: ClientSession,
    to1: Phase,
    to2: Phase,
    stop1: bool,
    stop2: bool,
)
    requires
        end_step(s0, s1, to1, stop1),
        end_step(s1, s2, to2, stop2),
    ensures
        !stop2,
        stop1 == s0.bridge_live_spec(),
{
}

} // verus!
