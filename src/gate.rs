//! The channel-ready gate: it fires once both logical channels have opened.
use vstd::prelude::*;

verus! {

/// Counts the logical channels of a session that have reported "open".
pub struct ChannelOpenGate {
    opened: u8,
}

/// What one "channel open" registration does: the count moves up, stopping at
/// two, and the registration fires exactly when it moves from one to two.
pub open spec fn open_step(before: ChannelOpenGate, after: ChannelOpenGate, fired: bool) -> bool {
    &&& after.count() == if before.count() < 2 { before.count() + 1 } else { 2 }
    &&& fired == (before.count() == 1)
}

impl ChannelOpenGate {
    /// How many channels have opened, at most two.
    pub closed spec fn count(&self) -> nat {
        self.opened as nat
    }

    /// The count never passes two.
    pub open spec fn wf(&self) -> bool {
        self.count() <= 2
    }

    /// A gate before any channel has opened.
    pub fn new() -> (g: Self)
        ensures
            g.wf(),
            g.count() == 0,
    {
        ChannelOpenGate { opened: 0 }
    }

    /// Records that one channel opened; true for the one registration that
    /// completes the pair, which is the one that must create the bridge.
    pub fn register_open(&mut self) -> (fired: bool)
        requires
            old(self).wf(),
        ensures
            final(self).wf(),
            open_step(*old(self), *final(self), fired),
    {
        let fired = self.opened == 1;
        if self.opened < 2 {
            self.opened = self.opened + 1;
        }
        fired
    }

    /// Whether both channels have opened.
    pub fn both_open(&self) -> (r: bool)
        ensures
            r == (self.count() == 2),
    {
        self.opened == 2
    }
}

/// How many of the registrations in `fired` fired.
pub open spec fn count_fired(fired: Seq<bool>) -> nat
    decreases fired.len(),
{
    if fired.len() == 0 {
        0
    } else {
        count_fired(fired.drop_last()) + if fired.last() { 1nat } else { 0nat }
    }
}

/// From a fresh gate, whatever the order of the "open" events, after two
/// registrations exactly one has fired, and it is the second; no later
/// registration fires.
pub proof fn lemma_gate_fires_once(gates: Seq<ChannelOpenGate>, fired: Seq<bool>)
    requires
        gates.len() == fired.len() + 1,
        gates[0].count() == 0,
        forall|i: int| 0 <= i < fired.len() ==> open_step(#[trigger] gates[i], gates[i + 1], fired[i]),
    ensures
        count_fired(fired) == if fired.len() >= 2 { 1nat } else { 0nat },
        forall|i: int| 0 <= i < fired.len() ==> (#[trigger] fired[i] <==> i == 1),
    decreases fired.len(),
{
    if fired.len() > 0 {
        let k = fired.len() - 1;
        lemma_gate_fires_once(gates.subrange(0, k + 1), fired.drop_last());
        assert forall|i: int| 0 <= i <= k implies #[trigger] gates[i].count() == if i < 2 { i as nat } else { 2nat } by {
            lemma_gate_count(gates, fired, i);
        }
        assert(open_step(gates[k], gates[k + 1], fired[k]));
        assert forall|i: int| 0 <= i < fired.len() implies (#[trigger] fired[i] <==> i == 1) by {
            assert(open_step(gates[i], gates[i + 1], fired[i]));
        }
    }
}

proof fn lemma_gate_count(gates: Seq<ChannelOpenGate>, fired: Seq<bool>, i: int)
    requires
        gates.len() == fired.len() + 1,
        gates[0].count() == 0,
        forall|j: int| 0 <= j < fired.len() ==> open_step(#[trigger] gates[j], gates[j + 1], fired[j]),
        0 <= i < gates.len(),
    ensures
        gates[i].count() == if i < 2 { i as nat } else { 2nat },
    decreases i,
{
    if i > 0 {
        lemma_gate_count(gates, fired, i - 1);
        assert(open_step(gates[i - 1], gates[i], fired[i - 1]));
    }
}

} // verus!
