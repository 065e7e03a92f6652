use game_controller_core::address::IpAddress;
use game_controller_core::receiver::{
    after_recv_failure, after_send, bind_address, multicast_interface, team_message_port,
    LoopStep, ReceiverBoard, ReceiverStatus, RecvFailure, TEAM_MESSAGE_MULTICAST_GROUP,
};

#[test]
fn team_ports() {
    assert_eq!(team_message_port(1), 10001);
    assert_eq!(team_message_port(2), 10002);
    assert_eq!(team_message_port(255), 10255);
}

#[test]
fn bind_address_follows_family() {
    assert_eq!(bind_address(IpAddress::V4(0x0A00_0001)), IpAddress::V4(0));
    assert_eq!(bind_address(IpAddress::V6(5)), IpAddress::V6(0));
    assert!(IpAddress::V4(1).is_v4());
    assert!(!IpAddress::V6(1).is_v4());
}

#[test]
fn multicast_only_over_ipv4() {
    assert_eq!(TEAM_MESSAGE_MULTICAST_GROUP, 0xEF00_0001);
    assert_eq!(multicast_interface(IpAddress::V4(7), true), Some(7));
    assert_eq!(multicast_interface(IpAddress::V4(7), false), None);
    assert_eq!(multicast_interface(IpAddress::V6(7), true), None);
}

#[test]
fn loop_decisions() {
    assert_eq!(after_recv_failure(RecvFailure::WouldBlock), LoopStep::Continue);
    assert_eq!(after_recv_failure(RecvFailure::Interrupted), LoopStep::Continue);
    assert_eq!(after_recv_failure(RecvFailure::TimedOut), LoopStep::Continue);
    assert_eq!(after_recv_failure(RecvFailure::Hard), LoopStep::Stop);
    assert_eq!(after_send(true), LoopStep::Continue);
    assert_eq!(after_send(false), LoopStep::Stop);
}

#[test]
fn bind_failure_of_one_team_leaves_the_other_running() {
    let mut board = ReceiverBoard::new(&vec![1, 2]);
    assert_eq!(board.len(), 2);
    assert_eq!(board.port(0), 10001);
    assert_eq!(board.port(1), 10002);
    board.record_bind(1, false);
    assert_eq!(board.status(0), ReceiverStatus::Starting);
    board.record_bind(0, true);
    assert_eq!(board.status(0), ReceiverStatus::Running);
    assert_eq!(board.status(1), ReceiverStatus::BindFailed);
    assert_eq!(board.failed_teams(), vec![2]);
    assert_eq!(board.team(1), 2);
}
