use vstd::prelude::*;

use crate::engine::{MatchState, MatchView, Phase, TEAMS, MAX_PLAYERS};
use crate::wire::{append_range, header_matches, DecodeError};

verus! {

/// The binary size of a control message.
pub const CONTROL_MESSAGE_SIZE: usize = 54;

/// The protocol version of control messages.
pub const CONTROL_MESSAGE_VERSION: u8 = 15;

/// The penalty byte of a robot that plays.
pub const PENALTY_NONE: u8 = 0;

/// The penalty byte of a robot that the referee has penalised.
pub const PENALTY_REFEREE: u8 = 1;

/// One team's part of a control message.
#[derive(Clone, Copy, Debug, PartialEq, Eq, Structural)]
pub struct TeamInfo {
    pub team_number: u8,
    pub score: u8,
}

/// The control message that the referee broadcasts. Laid out as: the header
/// `RGme`, the version, the packet number, the players per team, the state,
/// the seconds remaining (16 bits, little-endian), then per team its number,
/// its score and one penalty byte per robot slot.
#[derive(Clone, Debug, PartialEq, Eq)]
pub struct ControlMessage {
    pub packet_number: u8,
    pub players_per_team: u8,
    pub state: u8,
    pub secs_remaining: u16,
    pub teams: Vec<TeamInfo>,
    /// The penalty byte of each robot slot, team by team.
    pub penalties: Vec<u8>,
}

/// The mathematical content of a [`ControlMessage`].
#[verifier::ext_equal]
pub struct ControlView {
    pub packet_number: u8,
    pub players_per_team: u8,
    pub state: u8,
    pub secs_remaining: u16,
    pub teams: Seq<TeamInfo>,
    pub penalties: Seq<u8>,
}

impl View for ControlMessage {
    type V = ControlView;

    open spec fn view(&self) -> ControlView {
        ControlView {
            packet_number: self.packet_number,
            players_per_team: self.players_per_team,
            state: self.state,
            secs_remaining: self.secs_remaining,
            teams: self.teams@,
            penalties: self.penalties@,
        }
    }
}

impl ControlView {
    /// Two teams and a penalty byte for every robot slot of each.
    pub open spec fn wf(self) -> bool {
        self.teams.len() == TEAMS && self.penalties.len() == TEAMS * MAX_PLAYERS
    }
}

impl ControlMessage {
    pub open spec fn wf(&self) -> bool {
        self@.wf()
    }
}

pub open spec fn control_header() -> Seq<u8> {
    seq![0x52u8, 0x47u8, 0x6du8, 0x65u8]
}

pub open spec fn le16(v: u16) -> Seq<u8> {
    seq![(v % 256) as u8, (v / 256) as u8]
}

pub open spec fn read_le16(lo: u8, hi: u8) -> u16 {
    (lo as int + 256 * hi as int) as u16
}

pub open spec fn team_bytes(t: TeamInfo, penalties: Seq<u8>) -> Seq<u8> {
    seq![t.team_number, t.score] + penalties
}

pub open spec fn team_penalties(penalties: Seq<u8>, side: int) -> Seq<u8> {
    penalties.subrange(side * MAX_PLAYERS, (side + 1) * MAX_PLAYERS)
}

/// The bytes of a control message.
pub open spec fn control_bytes(m: ControlView) -> Seq<u8> {
    control_header() + seq![CONTROL_MESSAGE_VERSION, m.packet_number, m.players_per_team, m.state]
        + le16(m.secs_remaining) + team_bytes(m.teams[0], team_penalties(m.penalties, 0))
        + team_bytes(m.teams[1], team_penalties(m.penalties, 1))
}

/// Why a buffer is no control message, if it is none.
pub open spec fn control_error(b: Seq<u8>) -> Option<DecodeError> {
    if b.len() < CONTROL_MESSAGE_SIZE {
        Some(DecodeError::Truncated)
    } else if b.len() > CONTROL_MESSAGE_SIZE {
        Some(DecodeError::Oversized)
    } else if b.subrange(0, 4) != control_header() {
        Some(DecodeError::BadHeader)
    } else if b[4] != CONTROL_MESSAGE_VERSION {
        Some(DecodeError::BadVersion)
    } else {
        None
    }
}

/// The control message that a buffer of the right size holds.
pub open spec fn control_of_bytes(b: Seq<u8>) -> ControlView {
    ControlView {
        packet_number: b[5],
        players_per_team: b[6],
        state: b[7],
        secs_remaining: read_le16(b[8], b[9]),
        teams: seq![
            TeamInfo { team_number: b[10], score: b[11] },
            TeamInfo { team_number: b[32], score: b[33] },
        ],
        penalties: b.subrange(12, 32) + b.subrange(34, 54),
    }
}

/// Reading two little-endian bytes gives back the 16-bit value they were written from.
pub proof fn lemma_le16(v: u16)
    ensures
        read_le16(le16(v)[0], le16(v)[1]) == v,
{
}

/// Reading the bytes of a well-formed control message gives that message back,
/// and those bytes always have the protocol's size.
pub proof fn lemma_control_round_trip(m: ControlView)
    requires
        m.wf(),
    ensures
        control_bytes(m).len() == CONTROL_MESSAGE_SIZE,
        control_error(control_bytes(m)) is None,
        control_of_bytes(control_bytes(m)) == m,
{
    let b = control_bytes(m);
    lemma_le16(m.secs_remaining);
    assert(b.subrange(0, 4) =~= control_header());
    assert(b.subrange(12, 32) =~= team_penalties(m.penalties, 0));
    assert(b.subrange(34, 54) =~= team_penalties(m.penalties, 1));
    assert(team_penalties(m.penalties, 0) + team_penalties(m.penalties, 1) =~= m.penalties);
    let d = control_of_bytes(b);
    assert(d.teams =~= m.teams);
    assert(d =~= m);
}

/// The state byte that the control message shows for a phase.
pub open spec fn phase_code(p: Phase) -> u8 {
    match p {
        Phase::Initial => 0,
        Phase::Ready => 1,
        Phase::Paused => 2,
        Phase::Playing => 3,
        Phase::Finished => 4,
    }
}

/// The control message that shows a match state.
pub open spec fn control_of_state(s: MatchView, packet_number: u8) -> ControlView {
    ControlView {
        packet_number,
        players_per_team: MAX_PLAYERS as u8,
        state: phase_code(s.phase),
        secs_remaining: s.secs_remaining,
        teams: seq![
            TeamInfo { team_number: s.teams[0].team_number, score: s.teams[0].score },
            TeamInfo { team_number: s.teams[1].team_number, score: s.teams[1].score },
        ],
        penalties: s.robots.map_values(
            |r: crate::engine::RobotState|
                if r.penalized {
                    PENALTY_REFEREE
                } else {
                    PENALTY_NONE
                },
        ),
    }
}

fn phase_code_exec(p: Phase) -> (r: u8)
    ensures
        r == phase_code(p),
{
    match p {
        Phase::Initial => 0,
        Phase::Ready => 1,
        Phase::Paused => 2,
        Phase::Playing => 3,
        Phase::Finished => 4,
    }
}

/// Builds the control message that shows the given state, with the given
/// packet number.
pub fn control_message(state: &MatchState, packet_number: u8) -> (r: ControlMessage)
    requires
        state.wf(),
    ensures
        r.wf(),
        r@ == control_of_state(state@, packet_number),
{
    let teams = vec![
        TeamInfo { team_number: state.teams[0].team_number, score: state.teams[0].score },
        TeamInfo { team_number: state.teams[1].team_number, score: state.teams[1].score },
    ];
    let mut penalties: Vec<u8> = Vec::new();
    let mut k: usize = 0;
    while k < state.robots.len()
        invariant
            state.wf(),
            k <= state.robots@.len(),
            penalties@.len() == k,
            forall|j: int|
                0 <= j < k ==> penalties@[j] == (if state.robots@[j].penalized {
                    PENALTY_REFEREE
                } else {
                    PENALTY_NONE
                }),
        decreases state.robots@.len() - k,
    {
        let b = if state.robots[k].penalized {
            PENALTY_REFEREE
        } else {
            PENALTY_NONE
        };
        penalties.push(b);
        k += 1;
    }
    let r = ControlMessage {
        packet_number,
        players_per_team: MAX_PLAYERS as u8,
        state: phase_code_exec(state.phase),
        secs_remaining: state.secs_remaining,
        teams,
        penalties,
    };
    assert(r@ =~= control_of_state(state@, packet_number));
    r
}

/// Whether a decoding result is what the buffer holds: the message when the
/// buffer is one, else the error that says why not.
pub open spec fn control_decoded_from(r: Result<ControlMessage, DecodeError>, b: Seq<u8>) -> bool {
    match control_error(b) {
        None => r is Ok && r->Ok_0.wf() && r->Ok_0@ == control_of_bytes(b),
        Some(e) => r == Err::<ControlMessage, DecodeError>(e),
    }
}

impl ControlMessage {
    /// The fixed-size bytes of a control message.
    pub fn encode(&self) -> (r: Vec<u8>)
        requires
            self.wf(),
        ensures
            r@ == control_bytes(self@),
            r@.len() == CONTROL_MESSAGE_SIZE,
    {
        let mut r = vec![
            0x52u8,
            0x47u8,
            0x6du8,
            0x65u8,
            CONTROL_MESSAGE_VERSION,
            self.packet_number,
            self.players_per_team,
            self.state,
            (self.secs_remaining % 256) as u8,
            (self.secs_remaining / 256) as u8,
        ];
        r.push(self.teams[0].team_number);
        r.push(self.teams[0].score);
        append_range(&mut r, self.penalties.as_slice(), 0, MAX_PLAYERS);
        r.push(self.teams[1].team_number);
        r.push(self.teams[1].score);
        append_range(&mut r, self.penalties.as_slice(), MAX_PLAYERS, 2 * MAX_PLAYERS);
        assert(r@ =~= control_bytes(self@));
        r
    }

    /// Reads a control message from a received datagram.
    pub fn decode(b: &[u8]) -> (r: Result<ControlMessage, DecodeError>)
        ensures
            control_decoded_from(r, b@),
    {
        if b.len() < CONTROL_MESSAGE_SIZE {
            Err(DecodeError::Truncated)
        } else if b.len() > CONTROL_MESSAGE_SIZE {
            Err(DecodeError::Oversized)
        } else if !header_matches(b, 0x52u8, 0x47u8, 0x6du8, 0x65u8) {
            Err(DecodeError::BadHeader)
        } else if b[4] != CONTROL_MESSAGE_VERSION {
            Err(DecodeError::BadVersion)
        } else {
            let mut penalties: Vec<u8> = Vec::with_capacity(TEAMS * MAX_PLAYERS);
            append_range(&mut penalties, b, 12, 32);
            append_range(&mut penalties, b, 34, 54);
            let m = ControlMessage {
                packet_number: b[5],
                players_per_team: b[6],
                state: b[7],
                secs_remaining: b[8] as u16 + 256 * (b[9] as u16),
                teams: vec![
                    TeamInfo { team_number: b[10], score: b[11] },
                    TeamInfo { team_number: b[32], score: b[33] },
                ],
                penalties,
            };
            assert(penalties@ =~= b@.subrange(12, 32) + b@.subrange(34, 54));
            assert(m@ =~= control_of_bytes(b@));
            Ok(m)
        }
    }
}

} // verus!
