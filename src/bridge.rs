//! The bridge's forwarding decisions between the UDP socket and the two
//! logical channels, and its shutdown latch.
use vstd::prelude::*;

verus! {

/// Size of the receive buffer: the largest datagram that the bridge relays.
pub const MAX_PACKET_SIZE: usize = 65536;

/// What can stop a bridge.
pub enum ShutdownCause {
    StopRequested,
    UdpReceiveFailed,
    OutboundWriteFailed,
    InboundClosed,
    InboundErrored,
}

/// What the UDP receive loop does with one receive result.
pub enum UdpAction {
    /// Write these bytes as one message on the outbound channel.
    Forward(Vec<u8>),
    /// Nothing to write; keep receiving.
    Skip,
    /// Leave the loop.
    Stop,
}

/// The shared state of one running bridge: whether it has been shut down.
pub struct BridgeState {
    stopped: bool,
}

/// What one shutdown trigger does: the bridge is stopped afterwards, and the
/// trigger is the first one exactly when it was not stopped before.
pub open spec fn shutdown_step(before: BridgeState, after: BridgeState, first: bool) -> bool {
    &&& after.is_stopped_spec()
    &&& first == !before.is_stopped_spec()
}

impl BridgeState {
    /// Whether the bridge has been shut down.
    pub closed spec fn is_stopped_spec(&self) -> bool {
        self.stopped
    }

    /// A running bridge.
    pub fn new() -> (b: Self)
        ensures
            !b.is_stopped_spec(),
    {
        BridgeState { stopped: false }
    }

    /// Whether the bridge has been shut down.
    pub fn is_stopped(&self) -> (r: bool)
        ensures
            r == self.is_stopped_spec(),
    {
        self.stopped
    }

    /// Signals shutdown for any cause; true only for the signal that stopped
    /// a running bridge, so redundant signals have no further effect.
    pub fn trigger_shutdown(&mut self, cause: ShutdownCause) -> (first: bool)
        ensures
            shutdown_step(*old(self), *final(self), first),
    {
        let first = !self.stopped;
        self.stopped = true;
        first
    }

    /// Decides on one UDP receive: `received` is the length read into `buf`,
    /// or `None` for a receive error. A non-empty datagram is forwarded whole,
    /// an empty one is dropped, and an error stops the bridge.
    pub fn on_udp_receive(&mut self, buf: &[u8], received: Option<usize>) -> (r: UdpAction)
        requires
            received matches Some(n) ==> n <= buf@.len(),
        ensures
            old(self).is_stopped_spec() ==> r is Stop && *final(self) == *old(self),
            !old(self).is_stopped_spec() ==> match received {
                None => r is Stop && final(self).is_stopped_spec(),
                Some(n) => *final(self) == *old(self) && if n == 0 {
                    r is Skip
                } else {
                    r matches UdpAction::Forward(v) && v@ == buf@.subrange(0, n as int)
                },
            },
    {
        if self.stopped {
            return UdpAction::Stop;
        }
        match received {
            None => {
                self.trigger_shutdown(ShutdownCause::UdpReceiveFailed);
                UdpAction::Stop
            },
            Some(n) => {
                if n == 0 {
                    UdpAction::Skip
                } else {
                    let mut v: Vec<u8> = Vec::with_capacity(n);
                    let mut i: usize = 0;
                    while i < n
                        invariant
                            n <= buf@.len(),
                            i <= n,
                            v@ == buf@.subrange(0, i as int),
                        decreases n - i,
                    {
                        v.push(buf[i]);
                        assert(v@ =~= buf@.subrange(0, i + 1));
                        i = i + 1;
                    }
                    UdpAction::Forward(v)
                }
            },
        }
    }

    /// Decides on the result of writing one datagram to the outbound channel:
    /// true to keep receiving; a failed write stops the bridge.
    pub fn on_outbound_written(&mut self, ok: bool) -> (keep_going: bool)
        ensures
            keep_going == (ok && !old(self).is_stopped_spec()),
            final(self).is_stopped_spec() == (old(self).is_stopped_spec() || !ok),
    {
        if !ok {
            self.trigger_shutdown(ShutdownCause::OutboundWriteFailed);
        }
        !self.stopped
    }

    /// Decides on one message from the inbound channel: while the bridge
    /// runs, it becomes exactly one datagram with the same bytes.
    pub fn on_inbound_message(&self, msg: &[u8]) -> (r: Option<Vec<u8>>)
        ensures
            r is Some <==> !self.is_stopped_spec(),
            r matches Some(d) ==> d@ == msg@,
    {
        if self.stopped {
            return None;
        }
        let mut v: Vec<u8> = Vec::with_capacity(msg.len());
        let mut i: usize = 0;
        while i < msg.len()
            invariant
                i <= msg@.len(),
                v@ == msg@.subrange(0, i as int),
            decreases msg@.len() - i,
        {
            v.push(msg[i]);
            assert(v@ =~= msg@.subrange(0, i + 1));
            i = i + 1;
        }
        assert(v@ =~= msg@);
        Some(v)
    }
}

/// How many of the triggers in `firsts` reported that they stopped the bridge.
pub open spec fn count_first(firsts: Seq<bool>) -> nat
    decreases firsts.len(),
{
    if firsts.len() == 0 {
        0
    } else {
        count_first(firsts.drop_last()) + if firsts.last() { 1nat } else { 0nat }
    }
}

/// Shutdown is idempotent: of any number N >= 1 of triggers on a running
/// bridge, exactly one stops it, and the bridge stays stopped.
pub proof fn lemma_shutdown_once(states: Seq<BridgeState>, firsts: Seq<bool>)
    requires
        firsts.len() >= 1,
        states.len() == firsts.len() + 1,
        !states[0].is_stopped_spec(),
        forall|i: int| 0 <= i < firsts.len() ==> shutdown_step(#[trigger] states[i], states[i + 1], firsts[i]),
    ensures
        count_first(firsts) == 1,
        states.last().is_stopped_spec(),
    decreases firsts.len(),
{
    let k = firsts.len() - 1;
    assert(shutdown_step(states[k], states[k + 1], firsts[k]));
    if k == 0 {
        assert(firsts.drop_last().len() == 0);
        assert(count_first(firsts.drop_last()) == 0);
        assert(firsts.last());
    } else {
        let prefix = states.subrange(0, k + 1);
        assert forall|i: int| 0 <= i < firsts.drop_last().len() implies shutdown_step(
            #[trigger] prefix[i],
            prefix[i + 1],
            firsts.drop_last()[i],
        ) by {
            assert(shutdown_step(states[i], states[i + 1], firsts[i]));
        }
        lemma_shutdown_once(prefix, firsts.drop_last());
        assert(prefix.last() == states[k]);
        assert(!firsts.last());
    }
}

} // verus!
