use game_controller_core::address::IpAddress;
use game_controller_core::control::{
    control_message, ControlMessage, TeamInfo, CONTROL_MESSAGE_SIZE, PENALTY_NONE,
    PENALTY_REFEREE,
};
use game_controller_core::engine::{MatchState, MAX_PLAYERS, TEAMS};
use game_controller_core::receiver::{
    team_message_buffer_size, team_message_event, TEAM_MESSAGE_MAX_SIZE,
};
use game_controller_core::engine::Event;
use game_controller_core::wire::{
    decode_team_message, encode_team_message, DecodeError, MonitorRequest, StatusMessage,
    TeamMessage, MONITOR_REQUEST_SIZE, STATUS_MESSAGE_SIZE,
};

fn host() -> IpAddress {
    IpAddress::V4(0x0A00_0105)
}

#[test]
fn monitor_request_round_trip() {
    let bytes = MonitorRequest {}.encode();
    assert_eq!(bytes.len(), MONITOR_REQUEST_SIZE);
    assert_eq!(bytes, vec![b'R', b'G', b'T', b'r', 0]);
    assert_eq!(MonitorRequest::decode(&bytes), Ok(MonitorRequest {}));
}

#[test]
fn monitor_request_errors() {
    assert_eq!(MonitorRequest::decode(b"RGTr"), Err(DecodeError::Truncated));
    assert_eq!(MonitorRequest::decode(b"RGTr\0\0"), Err(DecodeError::Oversized));
    assert_eq!(MonitorRequest::decode(b"RGme\0"), Err(DecodeError::BadHeader));
    assert_eq!(MonitorRequest::decode(b"RGTr\x01"), Err(DecodeError::BadVersion));
}

fn status(player: u8, team: u8) -> StatusMessage {
    StatusMessage {
        player_number: player,
        team_number: team,
        fallen: 1,
        motion: (0..24u8).collect(),
    }
}

#[test]
fn status_message_round_trip() {
    let m = status(3, 5);
    let bytes = m.encode();
    assert_eq!(bytes.len(), STATUS_MESSAGE_SIZE);
    assert_eq!(&bytes[0..8], &[b'R', b'G', b'r', b't', 4, 3, 5, 1]);
    assert_eq!(bytes[8], 0);
    assert_eq!(bytes[31], 23);
    assert_eq!(StatusMessage::decode(&bytes), Ok(m));
}

#[test]
fn status_message_errors() {
    let bytes = status(1, 5).encode();
    assert_eq!(StatusMessage::decode(&bytes[0..31]), Err(DecodeError::Truncated));
    let mut longer = bytes.clone();
    longer.push(0);
    assert_eq!(StatusMessage::decode(&longer), Err(DecodeError::Oversized));
    let mut bad_header = bytes.clone();
    bad_header[3] = b'x';
    assert_eq!(StatusMessage::decode(&bad_header), Err(DecodeError::BadHeader));
    let mut bad_version = bytes.clone();
    bad_version[4] = 3;
    assert_eq!(StatusMessage::decode(&bad_version), Err(DecodeError::BadVersion));
}

fn sample_control() -> ControlMessage {
    let mut penalties = vec![PENALTY_NONE; TEAMS * MAX_PLAYERS];
    penalties[2] = PENALTY_REFEREE;
    penalties[MAX_PLAYERS + 7] = PENALTY_REFEREE;
    ControlMessage {
        packet_number: 42,
        players_per_team: MAX_PLAYERS as u8,
        state: 3,
        secs_remaining: 600,
        teams: vec![
            TeamInfo { team_number: 5, score: 2 },
            TeamInfo { team_number: 12, score: 1 },
        ],
        penalties,
    }
}

#[test]
fn control_message_round_trip() {
    let m = sample_control();
    let bytes = m.encode();
    assert_eq!(bytes.len(), CONTROL_MESSAGE_SIZE);
    assert_eq!(&bytes[0..10], &[b'R', b'G', b'm', b'e', 15, 42, 20, 3, 0x58, 0x02]);
    assert_eq!(&bytes[10..12], &[5, 2]);
    assert_eq!(bytes[14], PENALTY_REFEREE);
    assert_eq!(&bytes[32..34], &[12, 1]);
    assert_eq!(bytes[34 + 7], PENALTY_REFEREE);
    assert_eq!(ControlMessage::decode(&bytes), Ok(m));
}

#[test]
fn control_message_errors() {
    let bytes = sample_control().encode();
    assert_eq!(ControlMessage::decode(&bytes[0..53]), Err(DecodeError::Truncated));
    let mut bad_version = bytes.clone();
    bad_version[4] = 14;
    assert_eq!(ControlMessage::decode(&bad_version), Err(DecodeError::BadVersion));
    let mut bad_header = bytes.clone();
    bad_header[0] = 0;
    assert_eq!(ControlMessage::decode(&bad_header), Err(DecodeError::BadHeader));
}

#[test]
fn control_message_shows_state() {
    let s = MatchState::new(5, 12, 600);
    let m = control_message(&s, 7);
    assert_eq!(m.packet_number, 7);
    assert_eq!(m.state, 0);
    assert_eq!(m.secs_remaining, 600);
    assert_eq!(m.teams, vec![TeamInfo { team_number: 5, score: 0 }, TeamInfo { team_number: 12, score: 0 }]);
    assert_eq!(m.penalties, vec![PENALTY_NONE; 40]);
}

#[test]
fn team_message_of_129_bytes_is_truncated_and_flagged() {
    let buffer: Vec<u8> = (0..129).map(|i| i as u8).collect();
    assert_eq!(team_message_buffer_size(), 129);
    let m = decode_team_message(host(), 1, &buffer, 129);
    assert_eq!(m.data.len(), TEAM_MESSAGE_MAX_SIZE);
    assert_eq!(&m.data[..], &buffer[0..128]);
    assert!(m.too_long);
}

#[test]
fn team_message_of_128_bytes_is_whole() {
    let buffer: Vec<u8> = (0..129).map(|i| i as u8).collect();
    let m = decode_team_message(host(), 1, &buffer, 128);
    assert_eq!(&m.data[..], &buffer[0..128]);
    assert!(!m.too_long);
}

#[test]
fn team_message_round_trip() {
    let m = TeamMessage { host: host(), team: 2, data: vec![9, 8, 7], too_long: false };
    let bytes = encode_team_message(&m);
    assert_eq!(bytes, vec![9, 8, 7]);
    assert_eq!(decode_team_message(host(), 2, &bytes, bytes.len()), m);
}

#[test]
fn team_message_event_carries_origin() {
    let buffer = vec![1u8, 2, 3, 4];
    match team_message_event(host(), 2, &buffer, 2) {
        Event::TeamMessage(m) => {
            assert_eq!(m.host, host());
            assert_eq!(m.team, 2);
            assert_eq!(m.data, vec![1, 2]);
            assert!(!m.too_long);
        }
        other => panic!("unexpected event {:?}", other),
    }
}
