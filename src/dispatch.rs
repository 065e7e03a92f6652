use vstd::prelude::*;

use crate::address::IpAddress;
use crate::control::{control_bytes, control_message, control_of_state};
use crate::engine::{Command, MatchState};

verus! {

/// The UI sink behind its ready signal. Until the signal comes, nothing is
/// delivered: only the latest snapshot is kept, each new one replacing the
/// last. When the signal comes, that snapshot is delivered, and from then on each
/// snapshot is delivered as it comes.
pub struct UiSink<T> {
    ready: bool,
    latest: Option<T>,
}

impl<T> UiSink<T> {
    /// Whether the ready signal has come.
    pub closed spec fn is_ready(&self) -> bool {
        self.ready
    }

    /// The snapshot kept back while the UI is not ready.
    pub closed spec fn held(&self) -> Option<T> {
        self.latest
    }

    pub open spec fn wf(&self) -> bool {
        self.is_ready() ==> self.held() is None
    }

    /// A sink whose UI is not ready yet, holding nothing.
    pub fn new() -> (r: UiSink<T>)
        ensures
            !r.is_ready(),
            r.held() is None,
            r.wf(),
    {
        UiSink { ready: false, latest: None }
    }

    /// Offers a snapshot to the UI: returns it for delivery if the UI is
    /// ready; otherwise keeps it in place of any earlier one and delivers
    /// nothing.
    pub fn publish(&mut self, snapshot: T) -> (r: Option<T>)
        requires
            old(self).wf(),
        ensures
            final(self).wf(),
            final(self).is_ready() == old(self).is_ready(),
            old(self).is_ready() ==> r == Some(snapshot) && final(self).held() is None,
            !old(self).is_ready() ==> r is None && final(self).held() == Some(snapshot),
    {
        if self.ready {
            Some(snapshot)
        } else {
            self.latest = Some(snapshot);
            None
        }
    }

    /// The ready signal: the UI is ready. Returns the snapshot kept back, if any,
    /// for delivery.
    pub fn mark_ready(&mut self) -> (r: Option<T>)
        requires
            old(self).wf(),
        ensures
            final(self).wf(),
            final(self).is_ready(),
            final(self).held() is None,
            r == old(self).held(),
    {
        self.ready = true;
        self.latest.take()
    }
}

/// A datagram to send: to one host, or to the broadcast address when `to` is
/// `None`.
#[derive(Clone, Debug, PartialEq, Eq)]
pub struct Outgoing {
    pub to: Option<IpAddress>,
    pub bytes: Vec<u8>,
}

pub open spec fn destination(c: Command) -> Option<IpAddress> {
    match c {
        Command::BroadcastNow => None,
        Command::SendControlTo(host) => Some(host),
    }
}

/// Turns the engine's commands into datagrams, one per command and in the same
/// order, each holding the control message that shows the current state.
pub fn outgoing_for(state: &MatchState, commands: &Vec<Command>, packet_number: u8) -> (r: Vec<
    Outgoing,
>)
    requires
        state.wf(),
    ensures
        r@.len() == commands@.len(),
        forall|i: int|
            0 <= i < r@.len() ==> #[trigger] r@[i].to == destination(commands@[i]) && r@[i].bytes@
                == control_bytes(control_of_state(state@, packet_number)),
{
    let m = control_message(state, packet_number);
    let mut out: Vec<Outgoing> = Vec::new();
    let mut i: usize = 0;
    while i < commands.len()
        invariant
            i <= commands@.len(),
            m.wf(),
            m@ == control_of_state(state@, packet_number),
            out@.len() == i,
            forall|j: int|
                0 <= j < i ==> #[trigger] out@[j].to == destination(commands@[j]) && out@[j].bytes@
                    == control_bytes(control_of_state(state@, packet_number)),
        decreases commands@.len() - i,
    {
        let to = match commands[i] {
            Command::BroadcastNow => None,
            Command::SendControlTo(host) => Some(host),
        };
        out.push(Outgoing { to, bytes: m.encode() });
        i += 1;
    }
    out
}

} // verus!
