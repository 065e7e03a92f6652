use vstd::prelude::*;

use crate::address::IpAddress;
use crate::receiver::TEAM_MESSAGE_MAX_SIZE;

verus! {

/// The UDP port to which control messages are broadcast.
pub const CONTROL_MESSAGE_PORT: u16 = 3838;

/// The UDP port on which status messages are received.
pub const STATUS_MESSAGE_PORT: u16 = 3939;

/// The UDP port on which received status messages are passed on to monitors.
pub const STATUS_MESSAGE_FORWARD_PORT: u16 = 3940;

/// The UDP port on which monitor requests are received.
pub const MONITOR_REQUEST_PORT: u16 = 3636;

/// The binary size of a monitor request.
pub const MONITOR_REQUEST_SIZE: usize = 5;

/// The binary size of a status message.
pub const STATUS_MESSAGE_SIZE: usize = 32;

/// The number of raw motion bytes in a status message: the robot's pose, the
/// age of its ball observation and the ball's position, as six little-endian
/// IEEE-754 single-precision words that the core carries without reading.
pub const STATUS_MOTION_SIZE: usize = 24;

/// The protocol version of monitor requests.
pub const MONITOR_REQUEST_VERSION: u8 = 0;

/// The protocol version of status messages.
pub const STATUS_MESSAGE_VERSION: u8 = 4;

/// Why a buffer could not be decoded into a message.
#[derive(Clone, Copy, Debug, PartialEq, Eq, Structural)]
pub enum DecodeError {
    /// The buffer holds fewer bytes than the message's fixed size.
    Truncated,
    /// The buffer holds more bytes than the message's fixed size.
    Oversized,
    /// The four header bytes do not name this kind of message.
    BadHeader,
    /// The version byte is not the one this protocol speaks.
    BadVersion,
}

pub open spec fn monitor_request_header() -> Seq<u8> {
    seq![0x52u8, 0x47u8, 0x54u8, 0x72u8]
}

pub open spec fn status_message_header() -> Seq<u8> {
    seq![0x52u8, 0x47u8, 0x72u8, 0x74u8]
}

/// A team message: an opaque payload of at most the protocol's maximum size,
/// tagged with the sending host and the team whose port it arrived on, and
/// flagged when the datagram was longer than the maximum.
#[derive(Clone, Debug, PartialEq, Eq)]
pub struct TeamMessage {
    pub host: IpAddress,
    pub team: u8,
    pub data: Vec<u8>,
    pub too_long: bool,
}

/// The usable part of a received team-message datagram.
pub open spec fn team_payload(datagram: Seq<u8>) -> Seq<u8> {
    if datagram.len() > TEAM_MESSAGE_MAX_SIZE {
        datagram.subrange(0, TEAM_MESSAGE_MAX_SIZE as int)
    } else {
        datagram
    }
}

/// Whether a team message could have been sent as it is: its payload fits and
/// it carries no oversize flag.
pub open spec fn team_message_sendable(m: TeamMessage) -> bool {
    m.data@.len() <= TEAM_MESSAGE_MAX_SIZE && !m.too_long
}

/// Appends `src[from..to]` to `out`.
pub(crate) fn append_range(out: &mut Vec<u8>, src: &[u8], from: usize, to: usize)
    requires
        from <= to <= src@.len(),
    ensures
        final(out)@ == old(out)@ + src@.subrange(from as int, to as int),
{
    let mut i: usize = from;
    while i < to
        invariant
            from <= i <= to,
            to <= src@.len(),
            out@ == old(out)@ + src@.subrange(from as int, i as int),
        decreases to - i,
    {
        out.push(src[i]);
        i += 1;
        assert(out@ =~= old(out)@ + src@.subrange(from as int, i as int));
    }
}

fn copy_prefix(buffer: &[u8], n: usize) -> (r: Vec<u8>)
    requires
        n <= buffer@.len(),
    ensures
        r@ == buffer@.subrange(0, n as int),
{
    let mut out: Vec<u8> = Vec::with_capacity(n);
    append_range(&mut out, buffer, 0, n);
    assert(out@ =~= buffer@.subrange(0, n as int));
    out
}

/// Turns a received datagram, of which `length` bytes stand at the start of
/// `buffer`, into a team message. A datagram longer than the maximum is never
/// refused: its first bytes are kept up to the maximum and it is flagged.
pub fn decode_team_message(host: IpAddress, team: u8, buffer: &[u8], length: usize) -> (r:
    TeamMessage)
    requires
        length <= buffer@.len(),
    ensures
        r.host == host,
        r.team == team,
        r.data@ == team_payload(buffer@.subrange(0, length as int)),
        r.too_long == (length > TEAM_MESSAGE_MAX_SIZE),
{
    let n: usize = if length > TEAM_MESSAGE_MAX_SIZE {
        TEAM_MESSAGE_MAX_SIZE
    } else {
        length
    };
    let data = copy_prefix(buffer, n);
    assert(data@ =~= team_payload(buffer@.subrange(0, length as int)));
    TeamMessage { host, team, data, too_long: length > TEAM_MESSAGE_MAX_SIZE }
}

/// The bytes that carry a team message: its payload as it is.
pub fn encode_team_message(m: &TeamMessage) -> (r: Vec<u8>)
    ensures
        r@ == m.data@,
{
    copy_prefix(m.data.as_slice(), m.data.len())
}

/// A request by a monitor tool for an immediate copy of the current control
/// message. It carries nothing beyond its header and version.
#[derive(Clone, Copy, Debug, PartialEq, Eq, Structural)]
pub struct MonitorRequest {}

pub open spec fn monitor_request_bytes() -> Seq<u8> {
    monitor_request_header().push(MONITOR_REQUEST_VERSION)
}

pub open spec fn decode_monitor_request_spec(b: Seq<u8>) -> Result<MonitorRequest, DecodeError> {
    if b.len() < MONITOR_REQUEST_SIZE {
        Err(DecodeError::Truncated)
    } else if b.len() > MONITOR_REQUEST_SIZE {
        Err(DecodeError::Oversized)
    } else if b.subrange(0, 4) != monitor_request_header() {
        Err(DecodeError::BadHeader)
    } else if b[4] != MONITOR_REQUEST_VERSION {
        Err(DecodeError::BadVersion)
    } else {
        Ok(MonitorRequest {  })
    }
}

pub(crate) fn header_matches(b: &[u8], h0: u8, h1: u8, h2: u8, h3: u8) -> (r: bool)
    requires
        b@.len() >= 4,
    ensures
        r == (b@.subrange(0, 4) == seq![h0, h1, h2, h3]),
{
    let r = b[0] == h0 && b[1] == h1 && b[2] == h2 && b[3] == h3;
    if r {
        assert(b@.subrange(0, 4) =~= seq![h0, h1, h2, h3]);
    } else {
        assert(b@.subrange(0, 4)[0] == b@[0]);
        assert(b@.subrange(0, 4)[1] == b@[1]);
        assert(b@.subrange(0, 4)[2] == b@[2]);
        assert(b@.subrange(0, 4)[3] == b@[3]);
    }
    r
}

impl MonitorRequest {
    /// The five bytes of a monitor request.
    pub fn encode(&self) -> (r: Vec<u8>)
        ensures
            r@ == monitor_request_bytes(),
            r@.len() == MONITOR_REQUEST_SIZE,
    {
        let r = vec![0x52u8, 0x47u8, 0x54u8, 0x72u8, MONITOR_REQUEST_VERSION];
        assert(r@ =~= monitor_request_bytes());
        r
    }

    /// Reads a monitor request from a received datagram.
    pub fn decode(b: &[u8]) -> (r: Result<MonitorRequest, DecodeError>)
        ensures
            r == decode_monitor_request_spec(b@),
    {
        if b.len() < MONITOR_REQUEST_SIZE {
            Err(DecodeError::Truncated)
        } else if b.len() > MONITOR_REQUEST_SIZE {
            Err(DecodeError::Oversized)
        } else if !header_matches(b, 0x52u8, 0x47u8, 0x54u8, 0x72u8) {
            Err(DecodeError::BadHeader)
        } else if b[4] != MONITOR_REQUEST_VERSION {
            Err(DecodeError::BadVersion)
        } else {
            Ok(MonitorRequest {  })
        }
    }
}

/// A status message, sent by a robot to report on itself.
#[derive(Clone, Debug, PartialEq, Eq)]
pub struct StatusMessage {
    pub player_number: u8,
    pub team_number: u8,
    pub fallen: u8,
    /// Pose, ball age and ball position as raw bytes, carried unread.
    pub motion: Vec<u8>,
}

/// The mathematical content of a [`StatusMessage`].
#[verifier::ext_equal]
pub struct StatusView {
    pub player_number: u8,
    pub team_number: u8,
    pub fallen: u8,
    pub motion: Seq<u8>,
}

impl View for StatusMessage {
    type V = StatusView;

    open spec fn view(&self) -> StatusView {
        StatusView {
            player_number: self.player_number,
            team_number: self.team_number,
            fallen: self.fallen,
            motion: self.motion@,
        }
    }
}

impl StatusMessage {
    /// The message can be encoded: its motion bytes have their fixed size.
    pub open spec fn wf(&self) -> bool {
        self.motion@.len() == STATUS_MOTION_SIZE
    }
}

/// The bytes of a status message.
pub open spec fn status_message_bytes(m: StatusView) -> Seq<u8> {
    status_message_header() + seq![STATUS_MESSAGE_VERSION, m.player_number, m.team_number, m.fallen]
        + m.motion
}

/// Why a buffer is no status message, if it is none.
pub open spec fn status_error(b: Seq<u8>) -> Option<DecodeError> {
    if b.len() < STATUS_MESSAGE_SIZE {
        Some(DecodeError::Truncated)
    } else if b.len() > STATUS_MESSAGE_SIZE {
        Some(DecodeError::Oversized)
    } else if b.subrange(0, 4) != status_message_header() {
        Some(DecodeError::BadHeader)
    } else if b[4] != STATUS_MESSAGE_VERSION {
        Some(DecodeError::BadVersion)
    } else {
        None
    }
}

/// The status message that a buffer of the right size holds.
pub open spec fn status_of_bytes(b: Seq<u8>) -> StatusView {
    StatusView {
        player_number: b[5],
        team_number: b[6],
        fallen: b[7],
        motion: b.subrange(8, STATUS_MESSAGE_SIZE as int),
    }
}

/// Whether a decoding result is what the buffer holds: the message when the
/// buffer is one, else the error that says why not.
pub open spec fn status_decoded_from(r: Result<StatusMessage, DecodeError>, b: Seq<u8>) -> bool {
    match status_error(b) {
        None => r is Ok && r->Ok_0.wf() && r->Ok_0@ == status_of_bytes(b),
        Some(e) => r == Err::<StatusMessage, DecodeError>(e),
    }
}

impl StatusMessage {
    /// The fixed-size bytes of a status message.
    pub fn encode(&self) -> (r: Vec<u8>)
        requires
            self.wf(),
        ensures
            r@ == status_message_bytes(self@),
            r@.len() == STATUS_MESSAGE_SIZE,
    {
        let mut r = vec![
            0x52u8,
            0x47u8,
            0x72u8,
            0x74u8,
            STATUS_MESSAGE_VERSION,
            self.player_number,
            self.team_number,
            self.fallen,
        ];
        let mut i: usize = 0;
        while i < STATUS_MOTION_SIZE
            invariant
                i <= STATUS_MOTION_SIZE,
                self.wf(),
                r@ == status_message_header() + seq![
                    STATUS_MESSAGE_VERSION,
                    self.player_number,
                    self.team_number,
                    self.fallen,
                ] + self.motion@.subrange(0, i as int),
            decreases STATUS_MOTION_SIZE - i,
        {
            r.push(self.motion[i]);
            i += 1;
            assert(r@ =~= status_message_header() + seq![
                STATUS_MESSAGE_VERSION,
                self.player_number,
                self.team_number,
                self.fallen,
            ] + self.motion@.subrange(0, i as int));
        }
        assert(self.motion@.subrange(0, i as int) =~= self.motion@);
        r
    }

    /// Reads a status message from a received datagram.
    pub fn decode(b: &[u8]) -> (r: Result<StatusMessage, DecodeError>)
        ensures
            status_decoded_from(r, b@),
    {
        if b.len() < STATUS_MESSAGE_SIZE {
            Err(DecodeError::Truncated)
        } else if b.len() > STATUS_MESSAGE_SIZE {
            Err(DecodeError::Oversized)
        } else if !header_matches(b, 0x52u8, 0x47u8, 0x72u8, 0x74u8) {
            Err(DecodeError::BadHeader)
        } else if b[4] != STATUS_MESSAGE_VERSION {
            Err(DecodeError::BadVersion)
        } else {
            let mut motion: Vec<u8> = Vec::with_capacity(STATUS_MOTION_SIZE);
            let mut i: usize = 8;
            while i < STATUS_MESSAGE_SIZE
                invariant
                    8 <= i <= STATUS_MESSAGE_SIZE,
                    b@.len() == STATUS_MESSAGE_SIZE,
                    motion@ == b@.subrange(8, i as int),
                decreases STATUS_MESSAGE_SIZE - i,
            {
                motion.push(b[i]);
                i += 1;
                assert(motion@ =~= b@.subrange(8, i as int));
            }
            Ok(StatusMessage { player_number: b[5], team_number: b[6], fallen: b[7], motion })
        }
    }
}

/// Reading the bytes of a status message with motion bytes of the fixed size
/// gives that message back, and those bytes always have the protocol's size.
pub proof fn lemma_status_round_trip(m: StatusView)
    requires
        m.motion.len() == STATUS_MOTION_SIZE,
    ensures
        status_message_bytes(m).len() == STATUS_MESSAGE_SIZE,
        status_error(status_message_bytes(m)) is None,
        status_of_bytes(status_message_bytes(m)) == m,
{
    let b = status_message_bytes(m);
    assert(b.subrange(0, 4) =~= status_message_header());
    assert(b.subrange(8, STATUS_MESSAGE_SIZE as int) =~= m.motion);
    assert(status_of_bytes(b) =~= m);
}

/// Reading the bytes of a monitor request gives a monitor request back, and
/// those bytes always have the protocol's size.
pub proof fn lemma_monitor_request_round_trip()
    ensures
        monitor_request_bytes().len() == MONITOR_REQUEST_SIZE,
        decode_monitor_request_spec(monitor_request_bytes()) == Ok::<MonitorRequest, DecodeError>(
            MonitorRequest {  },
        ),
{
    assert(monitor_request_bytes().subrange(0, 4) =~= monitor_request_header());
}

/// A team message that could have been sent is received as it was sent: a
/// datagram that holds its payload decodes to the whole payload, without the
/// oversize flag.
pub proof fn lemma_team_message_round_trip(m: TeamMessage)
    requires
        team_message_sendable(m),
    ensures
        team_payload(m.data@.subrange(0, m.data@.len() as int)) == m.data@,
        (m.data@.len() > TEAM_MESSAGE_MAX_SIZE) == m.too_long,
{
    assert(m.data@.subrange(0, m.data@.len() as int) =~= m.data@);
}

} // verus!
