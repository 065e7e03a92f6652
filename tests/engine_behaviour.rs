use game_controller_core::address::IpAddress;
use game_controller_core::channel::EventQueue;
use game_controller_core::control::{control_message, ControlMessage};
use game_controller_core::dispatch::{outgoing_for, UiSink};
use game_controller_core::engine::{
    apply, process_pending, replay, Action, Command, Event, MatchState, Phase, RuleSet,
};
use game_controller_core::receiver::{monitor_event, status_event};
use game_controller_core::wire::{MonitorRequest, StatusMessage, TeamMessage};

fn start() -> MatchState {
    MatchState::new(5, 12, 600)
}

fn status_from(team: u8, player: u8) -> StatusMessage {
    StatusMessage { player_number: player, team_number: team, fallen: 1, motion: vec![0; 24] }
}

#[test]
fn out_of_phase_penalty_is_rejected() {
    let rules = RuleSet::standard();
    let s = start();
    let (next, commands) =
        apply(&rules, s.clone(), &Event::Action(Action::AwardPenalty { side: 0, player: 3 }));
    assert_eq!(next, s);
    assert!(commands.is_empty());
}

#[test]
fn out_of_phase_edge_and_goal_are_rejected() {
    let rules = RuleSet::standard();
    let s = start();
    let (next, commands) = apply(&rules, s.clone(), &Event::Action(Action::SetPhase(Phase::Playing)));
    assert_eq!(next, s);
    assert!(commands.is_empty());
    let (next, commands) = apply(&rules, s.clone(), &Event::Action(Action::AddGoal { side: 1 }));
    assert_eq!(next, s);
    assert!(commands.is_empty());
}

#[test]
fn end_to_end_scenario() {
    let rules = RuleSet::standard();
    let s = start();
    assert_eq!(s.phase, Phase::Initial);

    let (s, commands) = apply(&rules, s, &Event::Action(Action::SetPhase(Phase::Ready)));
    assert_eq!(s.phase, Phase::Ready);
    assert_eq!(commands, vec![Command::BroadcastNow]);

    let sender = IpAddress::V4(0x0A00_0507);
    let (s, commands) =
        apply(&rules, s, &Event::Status { host: sender, message: status_from(5, 2) });
    assert_eq!(s.phase, Phase::Ready);
    assert!(commands.is_empty());
    assert!(s.robots[1].seen);
    assert_eq!(s.robots[1].fallen, 1);
    assert_eq!(s.robots[1].host, sender);

    let monitor = IpAddress::V4(0x0A00_0009);
    let before = s.clone();
    let (s, commands) = apply(&rules, s, &Event::MonitorRequest { host: monitor });
    assert_eq!(s, before);
    assert_eq!(commands, vec![Command::SendControlTo(monitor)]);
    let out = outgoing_for(&s, &commands, 3);
    assert_eq!(out.len(), 1);
    assert_eq!(out[0].to, Some(monitor));
    let sent = ControlMessage::decode(&out[0].bytes).unwrap();
    assert_eq!(sent, control_message(&s, 3));
    assert_eq!(sent.state, 1);
}

#[test]
fn penalties_goals_and_clock() {
    let rules = RuleSet::standard();
    let (s, _) = apply(&rules, start(), &Event::Action(Action::SetPhase(Phase::Ready)));
    let (s, c) = apply(&rules, s, &Event::Action(Action::AwardPenalty { side: 1, player: 3 }));
    assert!(s.robots[20 + 2].penalized);
    assert_eq!(c, vec![Command::BroadcastNow]);
    let (s2, c) = apply(&rules, s.clone(), &Event::Action(Action::AwardPenalty { side: 1, player: 3 }));
    assert_eq!(s2, s);
    assert!(c.is_empty());
    let (s, _) = apply(&rules, s, &Event::Action(Action::ClearPenalty { side: 1, player: 3 }));
    assert!(!s.robots[22].penalized);
    let (s, c) = apply(&rules, s, &Event::Action(Action::SetClock { secs: 2 }));
    assert_eq!(s.secs_remaining, 2);
    assert_eq!(c, vec![Command::BroadcastNow]);
    let (s, _) = apply(&rules, s, &Event::Action(Action::SetPhase(Phase::Playing)));
    let (s, c) = apply(&rules, s, &Event::Action(Action::AddGoal { side: 0 }));
    assert_eq!(s.teams[0].score, 1);
    assert_eq!(c, vec![Command::BroadcastNow]);
    let (s, c) = apply(&rules, s, &Event::Tick);
    assert_eq!(s.secs_remaining, 1);
    assert_eq!(s.phase, Phase::Playing);
    assert_eq!(c, vec![Command::BroadcastNow]);
    let (s, _) = apply(&rules, s, &Event::Tick);
    assert_eq!(s.secs_remaining, 0);
    assert_eq!(s.phase, Phase::Finished);
    let (s2, c) = apply(&rules, s.clone(), &Event::Tick);
    assert_eq!(s2, s);
    assert!(c.is_empty());
}

#[test]
fn team_messages_are_counted() {
    let rules = RuleSet::standard();
    let msg = |too_long| {
        Event::TeamMessage(TeamMessage {
            host: IpAddress::V4(1),
            team: 12,
            data: vec![1, 2, 3],
            too_long,
        })
    };
    let (s, c) = apply(&rules, start(), &msg(false));
    let (s, _) = apply(&rules, s, &msg(true));
    assert!(c.is_empty());
    assert_eq!(s.teams[1].messages, 2);
    assert_eq!(s.teams[1].oversized_messages, 1);
    assert_eq!(s.teams[0].messages, 0);
}

fn events() -> Vec<Event> {
    vec![
        Event::Action(Action::SetPhase(Phase::Ready)),
        Event::Status { host: IpAddress::V4(2), message: status_from(12, 1) },
        Event::Action(Action::SetPhase(Phase::Playing)),
        Event::Tick,
        Event::Action(Action::AddGoal { side: 1 }),
    ]
}

#[test]
fn queue_keeps_enqueue_order_across_producers() {
    let mut q: EventQueue<u32> = EventQueue::new();
    // two producers, interleaved
    for (a, b) in [(1, 101), (2, 102), (3, 103)] {
        q.send(a).unwrap();
        q.send(b).unwrap();
    }
    let mut seen = Vec::new();
    while let Some(x) = q.recv() {
        seen.push(x);
    }
    assert_eq!(seen, vec![1, 101, 2, 102, 3, 103]);
    q.close();
    assert_eq!(q.send(7), Err(7));
    assert_eq!(q.len(), 0);
}

#[test]
fn replay_is_deterministic_and_matches_queue_order() {
    let rules = RuleSet::standard();
    let (a, _) = replay(&rules, start(), &events());
    let (b, _) = replay(&rules, start(), &events());
    assert_eq!(a, b);
    assert_eq!(a.phase, Phase::Playing);
    assert_eq!(a.secs_remaining, 599);
    assert_eq!(a.teams[1].score, 1);

    let mut q = EventQueue::new();
    for e in events() {
        q.send(e).unwrap();
    }
    let (c, commands) = process_pending(&rules, start(), &mut q);
    assert_eq!(c, a);
    assert_eq!(q.len(), 0);
    assert_eq!(commands.len(), 4);
}

#[test]
fn no_snapshot_before_ready_signal() {
    let rules = RuleSet::standard();
    let mut sink: UiSink<MatchState> = UiSink::new();
    let mut q = EventQueue::new();
    for e in events() {
        q.send(e).unwrap();
    }
    let (s1, _) = process_pending(&rules, start(), &mut q);
    assert_eq!(sink.publish(start()), None);
    assert_eq!(sink.publish(s1.clone()), None);
    assert_eq!(sink.mark_ready(), Some(s1.clone()));
    assert_eq!(sink.mark_ready(), None);
    assert_eq!(sink.publish(s1.clone()), Some(s1));
}

#[test]
fn receivers_drop_undecodable_datagrams() {
    let host = IpAddress::V6(1);
    assert_eq!(monitor_event(host, &MonitorRequest {}.encode()), Some(Event::MonitorRequest { host }));
    assert_eq!(monitor_event(host, b"RGTr"), None);
    let bytes = status_from(5, 4).encode();
    assert_eq!(
        status_event(host, &bytes),
        Some(Event::Status { host, message: status_from(5, 4) })
    );
    assert_eq!(status_event(host, &bytes[1..]), None);
}
