use vstd::prelude::*;

use crate::address::IpAddress;
use crate::engine::Event;
use crate::wire::{
    decode_monitor_request_spec, decode_team_message, team_payload, status_decoded_from, status_error, MonitorRequest, StatusMessage,
};

verus! {

/// The largest team-message payload that the protocol allows.
pub const TEAM_MESSAGE_MAX_SIZE: usize = 128;

/// The number to which a team's number is added to obtain the UDP port on
/// which that team's messages arrive.
pub const TEAM_MESSAGE_PORT_BASE: u16 = 10000;

/// The multicast group 239.0.0.1, which team messages are sent to in multicast
/// mode.
pub const TEAM_MESSAGE_MULTICAST_GROUP: u32 = 0xEF00_0001;

/// The size of the receive buffer: one byte more than the largest message, so
/// that an oversized datagram can be told apart from one of exactly the largest
/// size.
pub fn team_message_buffer_size() -> (r: usize)
    ensures
        r == TEAM_MESSAGE_MAX_SIZE + 1,
{
    TEAM_MESSAGE_MAX_SIZE + 1
}

/// The UDP port on which messages of the given team are received.
pub fn team_message_port(team: u8) -> (r: u16)
    ensures
        r as int == TEAM_MESSAGE_PORT_BASE as int + team as int,
{
    TEAM_MESSAGE_PORT_BASE + team as u16
}

pub open spec fn unspecified_like(local: IpAddress) -> IpAddress {
    match local {
        IpAddress::V4(_) => IpAddress::V4(0),
        IpAddress::V6(_) => IpAddress::V6(0),
    }
}

/// The address a receiver binds to: the unspecified address of the same family
/// as the configured local address, so that the local address selects IPv4 or
/// IPv6.
pub fn bind_address(local: IpAddress) -> (r: IpAddress)
    ensures
        r == unspecified_like(local),
{
    match local {
        IpAddress::V4(_) => IpAddress::V4(0),
        IpAddress::V6(_) => IpAddress::V6(0),
    }
}

pub open spec fn multicast_interface_spec(local: IpAddress, multicast: bool) -> Option<u32> {
    match local {
        IpAddress::V4(a) => if multicast {
            Some(a)
        } else {
            None
        },
        IpAddress::V6(_) => None,
    }
}

/// The local IPv4 interface on which the receiver joins the team-message
/// multicast group, if it joins at all: only in multicast mode, and only over
/// IPv4.
pub fn multicast_interface(local: IpAddress, multicast: bool) -> (r: Option<u32>)
    ensures
        r == multicast_interface_spec(local, multicast),
{
    match local {
        IpAddress::V4(a) => if multicast {
            Some(a)
        } else {
            None
        },
        IpAddress::V6(_) => None,
    }
}

/// How a single receive call on a socket failed.
#[derive(Clone, Copy, Debug, PartialEq, Eq, Structural)]
pub enum RecvFailure {
    /// No datagram was ready yet.
    WouldBlock,
    /// The call was interrupted by a signal.
    Interrupted,
    /// The call timed out.
    TimedOut,
    /// Any other error: the socket can no longer be used.
    Hard,
}

/// What a network service does next.
#[derive(Clone, Copy, Debug, PartialEq, Eq, Structural)]
pub enum LoopStep {
    Continue,
    Stop,
}

/// After a failed receive call: transient failures are retried, a hard error
/// ends this one service.
pub fn after_recv_failure(f: RecvFailure) -> (r: LoopStep)
    ensures
        (r == LoopStep::Stop) == (f == RecvFailure::Hard),
{
    match f {
        RecvFailure::Hard => LoopStep::Stop,
        _ => LoopStep::Continue,
    }
}

/// After handing an event to the event channel: a failed send means the engine
/// is gone and the runtime is shutting down, so the service ends quietly.
pub fn after_send(delivered: bool) -> (r: LoopStep)
    ensures
        (r == LoopStep::Continue) == delivered,
{
    if delivered {
        LoopStep::Continue
    } else {
        LoopStep::Stop
    }
}

/// Where a team-message receiver stands in its startup.
#[derive(Clone, Copy, Debug, PartialEq, Eq, Structural)]
pub enum ReceiverStatus {
    Starting,
    Running,
    BindFailed,
}

pub open spec fn bind_outcome(bound: bool) -> ReceiverStatus {
    if bound {
        ReceiverStatus::Running
    } else {
        ReceiverStatus::BindFailed
    }
}

/// The statuses after the receiver at `index` reported whether it could bind.
pub open spec fn recorded(statuses: Seq<ReceiverStatus>, index: int, bound: bool) -> Seq<
    ReceiverStatus,
> {
    statuses.update(index, bind_outcome(bound))
}

/// The teams whose receivers could not bind, in configured order.
pub open spec fn failed_of(teams: Seq<u8>, statuses: Seq<ReceiverStatus>) -> Seq<u8>
    decreases teams.len(),
{
    if teams.len() == 0 {
        Seq::empty()
    } else {
        failed_of(teams.drop_last(), statuses.subrange(0, teams.len() - 1)) + if statuses[teams.len()
            - 1] == ReceiverStatus::BindFailed {
            seq![teams.last()]
        } else {
            Seq::empty()
        }
    }
}

/// One team-message receiver per configured team, each with its own port and
/// its own startup status.
pub struct ReceiverBoard {
    teams: Vec<u8>,
    statuses: Vec<ReceiverStatus>,
}

impl ReceiverBoard {
    pub closed spec fn teams_spec(&self) -> Seq<u8> {
        self.teams@
    }

    pub closed spec fn statuses_spec(&self) -> Seq<ReceiverStatus> {
        self.statuses@
    }

    pub open spec fn wf(&self) -> bool {
        self.teams_spec().len() == self.statuses_spec().len()
    }

    /// A board for the configured teams, every receiver still starting.
    pub fn new(teams: &Vec<u8>) -> (r: ReceiverBoard)
        ensures
            r.wf(),
            r.teams_spec() == teams@,
            forall|i: int|
                0 <= i < teams@.len() ==> r.statuses_spec()[i] == ReceiverStatus::Starting,
    {
        let mut ts: Vec<u8> = Vec::new();
        let mut statuses: Vec<ReceiverStatus> = Vec::new();
        let mut i: usize = 0;
        while i < teams.len()
            invariant
                i <= teams@.len(),
                ts@ == teams@.subrange(0, i as int),
                statuses@.len() == i,
                forall|j: int| 0 <= j < i ==> statuses@[j] == ReceiverStatus::Starting,
            decreases teams@.len() - i,
        {
            ts.push(teams[i]);
            statuses.push(ReceiverStatus::Starting);
            i += 1;
            assert(ts@ =~= teams@.subrange(0, i as int));
        }
        assert(ts@ =~= teams@);
        ReceiverBoard { teams: ts, statuses }
    }

    /// The number of receivers.
    pub fn len(&self) -> (r: usize)
        ensures
            r == self.teams_spec().len(),
    {
        self.teams.len()
    }

    /// The team of the receiver at `index`.
    pub fn team(&self, index: usize) -> (r: u8)
        requires
            index < self.teams_spec().len(),
        ensures
            r == self.teams_spec()[index as int],
    {
        self.teams[index]
    }

    /// The port of the receiver at `index`.
    pub fn port(&self, index: usize) -> (r: u16)
        requires
            index < self.teams_spec().len(),
        ensures
            r as int == TEAM_MESSAGE_PORT_BASE as int + self.teams_spec()[index as int] as int,
    {
        team_message_port(self.teams[index])
    }

    /// The status of the receiver at `index`.
    pub fn status(&self, index: usize) -> (r: ReceiverStatus)
        requires
            self.wf(),
            index < self.teams_spec().len(),
        ensures
            r == self.statuses_spec()[index as int],
    {
        self.statuses[index]
    }

    /// Records whether the receiver at `index` could bind its port. No other
    /// receiver's status changes.
    pub fn record_bind(&mut self, index: usize, bound: bool)
        requires
            old(self).wf(),
            index < old(self).teams_spec().len(),
        ensures
            final(self).wf(),
            final(self).teams_spec() == old(self).teams_spec(),
            final(self).statuses_spec() == recorded(
                old(self).statuses_spec(),
                index as int,
                bound,
            ),
    {
        let st = if bound {
            ReceiverStatus::Running
        } else {
            ReceiverStatus::BindFailed
        };
        self.statuses.set(index, st);
    }

    /// The teams whose receivers could not bind, so that a startup error can
    /// name each of them.
    pub fn failed_teams(&self) -> (r: Vec<u8>)
        requires
            self.wf(),
        ensures
            r@ == failed_of(self.teams_spec(), self.statuses_spec()),
    {
        let mut out: Vec<u8> = Vec::new();
        let mut i: usize = 0;
        while i < self.teams.len()
            invariant
                self.wf(),
                i <= self.teams@.len(),
                out@ == failed_of(self.teams@.subrange(0, i as int), self.statuses@.subrange(0, i as int)),
            decreases self.teams@.len() - i,
        {
            let ghost ts = self.teams@.subrange(0, i + 1);
            let ghost ss = self.statuses@.subrange(0, i + 1);
            assert(ts.drop_last() =~= self.teams@.subrange(0, i as int));
            assert(ss.subrange(0, ts.len() - 1) =~= self.statuses@.subrange(0, i as int));
            if self.statuses[i] == ReceiverStatus::BindFailed {
                out.push(self.teams[i]);
            }
            i += 1;
            assert(out@ =~= failed_of(ts, ss));
        }
        assert(self.teams@.subrange(0, i as int) =~= self.teams@);
        assert(self.statuses@.subrange(0, i as int) =~= self.statuses@);
        out
    }
}

/// A receiver that fails to bind leaves every other receiver as it was: a
/// failure recorded for one team neither stops nor starts any other team's
/// receiver.
pub proof fn lemma_bind_failure_isolated(statuses: Seq<ReceiverStatus>, failed: int, other: int)
    requires
        0 <= failed < statuses.len(),
        0 <= other < statuses.len(),
        other != failed,
    ensures
        recorded(statuses, failed, false)[other] == statuses[other],
        recorded(statuses, failed, false)[failed] == ReceiverStatus::BindFailed,
{
}

/// The event for a datagram received on the status port: the decoded message
/// tagged with its sender, or nothing when the datagram is no status message
/// (it is dropped, and the receiver goes on).
pub fn status_event(host: IpAddress, datagram: &[u8]) -> (r: Option<Event>)
    ensures
        r is None <==> status_error(datagram@) is Some,
        r is Some ==> exists|m: StatusMessage|
            status_decoded_from(Ok(m), datagram@) && r == Some(Event::Status { host, message: m }),
{
    match StatusMessage::decode(datagram) {
        Ok(message) => Some(Event::Status { host, message }),
        Err(_) => None,
    }
}

/// The event for a datagram received on the monitor-request port: a request
/// from its sender, or nothing when the datagram is no monitor request.
pub fn monitor_event(host: IpAddress, datagram: &[u8]) -> (r: Option<Event>)
    ensures
        r is None <==> decode_monitor_request_spec(datagram@) is Err,
        r is Some ==> r == Some(Event::MonitorRequest { host }),
{
    match MonitorRequest::decode(datagram) {
        Ok(_) => Some(Event::MonitorRequest { host }),
        Err(_) => None,
    }
}

/// The event for a datagram of `length` bytes received into `buffer` on a
/// team's port: a team message from its sender, flagged if it was too long.
pub fn team_message_event(host: IpAddress, team: u8, buffer: &[u8], length: usize) -> (r: Event)
    requires
        length <= buffer@.len(),
    ensures
        r is TeamMessage,
        r->TeamMessage_0.host == host,
        r->TeamMessage_0.team == team,
        r->TeamMessage_0.data@ == team_payload(buffer@.subrange(0, length as int)),
        r->TeamMessage_0.too_long == (length > TEAM_MESSAGE_MAX_SIZE),
{
    Event::TeamMessage(decode_team_message(host, team, buffer, length))
}

} // verus!
