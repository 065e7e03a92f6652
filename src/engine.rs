use vstd::prelude::*;

use crate::address::IpAddress;
use crate::channel::EventQueue;
use crate::wire::{StatusMessage, TeamMessage};

verus! {

/// The number of teams in a match.
pub const TEAMS: usize = 2;

/// The number of robot slots per team.
pub const MAX_PLAYERS: usize = 20;

/// The phase of a match.
#[derive(Clone, Copy, Debug, PartialEq, Eq, Structural)]
pub enum Phase {
    Initial,
    Ready,
    Playing,
    Paused,
    Finished,
}

/// What the engine knows of one robot.
#[derive(Clone, Copy, Debug, PartialEq, Eq, Structural)]
pub struct RobotState {
    /// Whether the robot is penalised by the referee.
    pub penalized: bool,
    /// Whether a status message of the robot has been received.
    pub seen: bool,
    /// The fallen flag of the robot's last status message.
    pub fallen: u8,
    /// The host that sent the robot's last status message.
    pub host: IpAddress,
}

/// What the engine knows of one team.
#[derive(Clone, Copy, Debug, PartialEq, Eq, Structural)]
pub struct TeamState {
    pub team_number: u8,
    pub score: u8,
    /// Team messages received, saturating at the largest `u32`.
    pub messages: u32,
    /// Of those, the ones that were longer than the protocol allows.
    pub oversized_messages: u32,
}

/// The authoritative record of a match. Robot `p` (numbered from 1) of the team
/// at index `side` is `robots[side * MAX_PLAYERS + p - 1]`.
#[derive(Clone, Debug, PartialEq, Eq)]
pub struct MatchState {
    pub phase: Phase,
    pub secs_remaining: u16,
    pub teams: Vec<TeamState>,
    pub robots: Vec<RobotState>,
}

/// The mathematical content of a [`MatchState`].
#[verifier::ext_equal]
pub struct MatchView {
    pub phase: Phase,
    pub secs_remaining: u16,
    pub teams: Seq<TeamState>,
    pub robots: Seq<RobotState>,
}

impl View for MatchState {
    type V = MatchView;

    open spec fn view(&self) -> MatchView {
        MatchView {
            phase: self.phase,
            secs_remaining: self.secs_remaining,
            teams: self.teams@,
            robots: self.robots@,
        }
    }
}

impl MatchView {
    pub open spec fn wf(self) -> bool {
        self.teams.len() == TEAMS && self.robots.len() == TEAMS * MAX_PLAYERS
    }
}

impl MatchState {
    pub open spec fn wf(&self) -> bool {
        self@.wf()
    }
}

pub open spec fn fresh_robot() -> RobotState {
    RobotState { penalized: false, seen: false, fallen: 0, host: IpAddress::V4(0) }
}

pub open spec fn fresh_team(team_number: u8) -> TeamState {
    TeamState { team_number, score: 0, messages: 0, oversized_messages: 0 }
}

impl MatchState {
    /// A match that has not begun: phase initial, no goals, no penalties,
    /// nothing received, and the given time on the clock.
    pub fn new(home: u8, away: u8, secs_remaining: u16) -> (r: MatchState)
        ensures
            r.wf(),
            r.phase == Phase::Initial,
            r.secs_remaining == secs_remaining,
            r.teams@ == seq![fresh_team(home), fresh_team(away)],
            forall|k: int| 0 <= k < r.robots@.len() ==> r.robots@[k] == fresh_robot(),
    {
        let teams = vec![
            TeamState { team_number: home, score: 0, messages: 0, oversized_messages: 0 },
            TeamState { team_number: away, score: 0, messages: 0, oversized_messages: 0 },
        ];
        let mut robots: Vec<RobotState> = Vec::new();
        let mut k: usize = 0;
        while k < TEAMS * MAX_PLAYERS
            invariant
                k <= TEAMS * MAX_PLAYERS,
                robots@.len() == k,
                forall|j: int| 0 <= j < k ==> robots@[j] == fresh_robot(),
            decreases TEAMS * MAX_PLAYERS - k,
        {
            robots.push(
                RobotState { penalized: false, seen: false, fallen: 0, host: IpAddress::V4(0) },
            );
            k += 1;
        }
        let r = MatchState { phase: Phase::Initial, secs_remaining, teams, robots };
        assert(r.teams@ =~= seq![fresh_team(home), fresh_team(away)]);
        r
    }
}

/// The rule data that decides which operator actions are allowed: the edges of
/// the phase graph, and the phases in which penalties, goals and clock changes
/// are accepted. Different competition rule sets are different values of this.
#[derive(Clone, Debug)]
pub struct RuleSet {
    pub edges: Vec<(Phase, Phase)>,
    pub penalty_phases: Vec<Phase>,
    pub goal_phases: Vec<Phase>,
    pub clock_phases: Vec<Phase>,
}

impl RuleSet {
    /// The usual rules: initial, ready, playing and paused in turn, playing
    /// and paused back and forth, and finished from playing or paused;
    /// penalties in ready, playing and paused; goals while playing; the clock
    /// set while it is not running.
    pub fn standard() -> (r: RuleSet)
        ensures
            r.edges@ == seq![
                (Phase::Initial, Phase::Ready),
                (Phase::Ready, Phase::Playing),
                (Phase::Playing, Phase::Paused),
                (Phase::Paused, Phase::Playing),
                (Phase::Playing, Phase::Finished),
                (Phase::Paused, Phase::Finished),
            ],
            r.penalty_phases@ == seq![Phase::Ready, Phase::Playing, Phase::Paused],
            r.goal_phases@ == seq![Phase::Playing],
            r.clock_phases@ == seq![Phase::Initial, Phase::Ready, Phase::Paused],
    {
        let r = RuleSet {
            edges: vec![
                (Phase::Initial, Phase::Ready),
                (Phase::Ready, Phase::Playing),
                (Phase::Playing, Phase::Paused),
                (Phase::Paused, Phase::Playing),
                (Phase::Playing, Phase::Finished),
                (Phase::Paused, Phase::Finished),
            ],
            penalty_phases: vec![Phase::Ready, Phase::Playing, Phase::Paused],
            goal_phases: vec![Phase::Playing],
            clock_phases: vec![Phase::Initial, Phase::Ready, Phase::Paused],
        };
        assert(r.edges@ =~= seq![
            (Phase::Initial, Phase::Ready),
            (Phase::Ready, Phase::Playing),
            (Phase::Playing, Phase::Paused),
            (Phase::Paused, Phase::Playing),
            (Phase::Playing, Phase::Finished),
            (Phase::Paused, Phase::Finished),
        ]);
        assert(r.penalty_phases@ =~= seq![Phase::Ready, Phase::Playing, Phase::Paused]);
        assert(r.goal_phases@ =~= seq![Phase::Playing]);
        assert(r.clock_phases@ =~= seq![Phase::Initial, Phase::Ready, Phase::Paused]);
        r
    }
}

fn has_phase(ps: &Vec<Phase>, p: Phase) -> (r: bool)
    ensures
        r == ps@.contains(p),
{
    let mut i: usize = 0;
    while i < ps.len()
        invariant
            i <= ps@.len(),
            forall|j: int| 0 <= j < i ==> ps@[j] != p,
        decreases ps@.len() - i,
    {
        if ps[i] == p {
            return true;
        }
        i += 1;
    }
    false
}

fn has_edge(es: &Vec<(Phase, Phase)>, from: Phase, to: Phase) -> (r: bool)
    ensures
        r == es@.contains((from, to)),
{
    let mut i: usize = 0;
    while i < es.len()
        invariant
            i <= es@.len(),
            forall|j: int| 0 <= j < i ==> es@[j] != (from, to),
        decreases es@.len() - i,
    {
        let (a, b) = es[i];
        if a == from && b == to {
            assert(es@[i as int] == (from, to));
            return true;
        }
        i += 1;
    }
    false
}

/// An operator's request to change the match. Sides are team indices (0 or 1);
/// players are numbered from 1.
#[derive(Clone, Copy, Debug, PartialEq, Eq, Structural)]
pub enum Action {
    SetPhase(Phase),
    AwardPenalty { side: u8, player: u8 },
    ClearPenalty { side: u8, player: u8 },
    AddGoal { side: u8 },
    SetClock { secs: u16 },
}

/// An input of the engine: an operator action, a decoded network message with
/// its origin, or the periodic clock tick.
#[derive(Clone, Debug, PartialEq, Eq)]
pub enum Event {
    Action(Action),
    Status { host: IpAddress, message: StatusMessage },
    TeamMessage(TeamMessage),
    MonitorRequest { host: IpAddress },
    Tick,
}

/// What the engine asks the network side to do after an event.
#[derive(Clone, Copy, Debug, PartialEq, Eq, Structural)]
pub enum Command {
    /// Broadcast the control message now instead of at the next periodic send.
    BroadcastNow,
    /// Send the current control message to this host at once.
    SendControlTo(IpAddress),
}

pub open spec fn robot_index(side: u8, player: u8) -> int {
    side as int * MAX_PLAYERS as int + player as int - 1
}

pub open spec fn robot_in_range(side: u8, player: u8) -> bool {
    (side as int) < TEAMS && 1 <= player && player as int <= MAX_PLAYERS
}

pub open spec fn action_allowed(rules: &RuleSet, s: MatchView, a: Action) -> bool {
    match a {
        Action::SetPhase(p) => rules.edges@.contains((s.phase, p)),
        Action::AwardPenalty { side, player } => rules.penalty_phases@.contains(s.phase)
            && robot_in_range(side, player) && !s.robots[robot_index(side, player)].penalized,
        Action::ClearPenalty { side, player } => rules.penalty_phases@.contains(s.phase)
            && robot_in_range(side, player) && s.robots[robot_index(side, player)].penalized,
        Action::AddGoal { side } => rules.goal_phases@.contains(s.phase) && (side as int) < TEAMS
            && s.teams[side as int].score < 255,
        Action::SetClock { secs } => rules.clock_phases@.contains(s.phase),
    }
}

pub open spec fn with_penalty(s: MatchView, side: u8, player: u8, penalized: bool) -> MatchView {
    let k = robot_index(side, player);
    MatchView { robots: s.robots.update(k, RobotState { penalized, ..s.robots[k] }), ..s }
}

pub open spec fn action_effect(s: MatchView, a: Action) -> MatchView {
    match a {
        Action::SetPhase(p) => MatchView { phase: p, ..s },
        Action::AwardPenalty { side, player } => with_penalty(s, side, player, true),
        Action::ClearPenalty { side, player } => with_penalty(s, side, player, false),
        Action::AddGoal { side } => MatchView {
            teams: s.teams.update(
                side as int,
                TeamState { score: (s.teams[side as int].score + 1) as u8, ..s.teams[side as int] },
            ),
            ..s
        },
        Action::SetClock { secs } => MatchView { secs_remaining: secs, ..s },
    }
}

/// The side whose team has this number, if any.
pub open spec fn side_of(s: MatchView, team_number: u8) -> Option<int> {
    if s.teams[0].team_number == team_number {
        Some(0)
    } else if s.teams[1].team_number == team_number {
        Some(1)
    } else {
        None
    }
}

pub open spec fn status_effect(s: MatchView, host: IpAddress, m: StatusMessage) -> MatchView {
    match side_of(s, m.team_number) {
        Some(side) => if 1 <= m.player_number && m.player_number as int <= MAX_PLAYERS {
            let k = side * MAX_PLAYERS + m.player_number - 1;
            MatchView {
                robots: s.robots.update(
                    k,
                    RobotState { seen: true, fallen: m.fallen, host, ..s.robots[k] },
                ),
                ..s
            }
        } else {
            s
        },
        None => s,
    }
}

pub open spec fn saturating_inc(n: u32) -> u32 {
    if n == u32::MAX {
        n
    } else {
        (n + 1) as u32
    }
}

pub open spec fn team_message_effect(s: MatchView, m: TeamMessage) -> MatchView {
    match side_of(s, m.team) {
        Some(side) => {
            let t = s.teams[side];
            MatchView {
                teams: s.teams.update(
                    side,
                    TeamState {
                        messages: saturating_inc(t.messages),
                        oversized_messages: if m.too_long {
                            saturating_inc(t.oversized_messages)
                        } else {
                            t.oversized_messages
                        },
                        ..t
                    },
                ),
                ..s
            }
        },
        None => s,
    }
}

/// One second of match time: the clock runs only while playing, and when it
/// reaches zero the match finishes if the rules allow that edge.
pub open spec fn tick_effect(rules: &RuleSet, s: MatchView) -> MatchView {
    if s.phase == Phase::Playing && s.secs_remaining > 0 {
        let secs = (s.secs_remaining - 1) as u16;
        MatchView {
            secs_remaining: secs,
            phase: if secs == 0 && rules.edges@.contains((Phase::Playing, Phase::Finished)) {
                Phase::Finished
            } else {
                Phase::Playing
            },
            ..s
        }
    } else {
        s
    }
}

/// The state after one event.
pub open spec fn next_state(rules: &RuleSet, s: MatchView, e: Event) -> MatchView {
    match e {
        Event::Action(a) => if action_allowed(rules, s, a) {
            action_effect(s, a)
        } else {
            s
        },
        Event::Status { host, message } => status_effect(s, host, message),
        Event::TeamMessage(m) => team_message_effect(s, m),
        Event::MonitorRequest { .. } => s,
        Event::Tick => tick_effect(rules, s),
    }
}

/// Whether two states show the same thing in a control message: phase, clock,
/// scores and penalties.
pub open spec fn same_visible(a: MatchView, b: MatchView) -> bool {
    &&& a.phase == b.phase
    &&& a.secs_remaining == b.secs_remaining
    &&& a.teams.len() == b.teams.len()
    &&& a.robots.len() == b.robots.len()
    &&& forall|i: int| 0 <= i < a.teams.len() ==> #[trigger] a.teams[i].score == b.teams[i].score
    &&& forall|k: int|
        0 <= k < a.robots.len() ==> #[trigger] a.robots[k].penalized == b.robots[k].penalized
}

/// The commands after one event: a monitor request asks for a direct send of
/// the control message; any other event asks for an immediate broadcast
/// exactly when it changed what the control message shows.
pub open spec fn commands_after(rules: &RuleSet, s: MatchView, e: Event) -> Seq<Command> {
    match e {
        Event::MonitorRequest { host } => seq![Command::SendControlTo(host)],
        _ => if same_visible(s, next_state(rules, s, e)) {
            seq![]
        } else {
            seq![Command::BroadcastNow]
        },
    }
}

fn robot_slot(side: u8, player: u8) -> (r: usize)
    requires
        robot_in_range(side, player),
    ensures
        r as int == robot_index(side, player),
        (r as int) < TEAMS * MAX_PLAYERS,
{
    side as usize * MAX_PLAYERS + player as usize - 1
}

fn action_allowed_exec(rules: &RuleSet, s: &MatchState, a: Action) -> (r: bool)
    requires
        s.wf(),
    ensures
        r == action_allowed(rules, s@, a),
{
    match a {
        Action::SetPhase(p) => has_edge(&rules.edges, s.phase, p),
        Action::AwardPenalty { side, player } => {
            if has_phase(&rules.penalty_phases, s.phase) && (side as usize) < TEAMS && 1 <= player
                && (player as usize) <= MAX_PLAYERS {
                !s.robots[robot_slot(side, player)].penalized
            } else {
                false
            }
        },
        Action::ClearPenalty { side, player } => {
            if has_phase(&rules.penalty_phases, s.phase) && (side as usize) < TEAMS && 1 <= player
                && (player as usize) <= MAX_PLAYERS {
                s.robots[robot_slot(side, player)].penalized
            } else {
                false
            }
        },
        Action::AddGoal { side } => {
            if has_phase(&rules.goal_phases, s.phase) && (side as usize) < TEAMS {
                s.teams[side as usize].score < 255
            } else {
                false
            }
        },
        Action::SetClock { secs } => has_phase(&rules.clock_phases, s.phase),
    }
}

fn set_penalty(s: &mut MatchState, side: u8, player: u8, penalized: bool)
    requires
        old(s).wf(),
        robot_in_range(side, player),
    ensures
        final(s)@ == with_penalty(old(s)@, side, player, penalized),
{
    let k = robot_slot(side, player);
    let r = s.robots[k];
    s.robots.set(k, RobotState { penalized, seen: r.seen, fallen: r.fallen, host: r.host });
    assert(s@ =~= with_penalty(old(s)@, side, player, penalized));
}

/// Applies an allowed action; tells whether the control message now shows
/// something else.
fn apply_allowed_action(rules: &RuleSet, s: &mut MatchState, a: Action) -> (changed: bool)
    requires
        old(s).wf(),
        action_allowed(rules, old(s)@, a),
    ensures
        final(s)@ == action_effect(old(s)@, a),
        changed == !same_visible(old(s)@, final(s)@),
{
    match a {
        Action::SetPhase(p) => {
            let changed = s.phase != p;
            s.phase = p;
            assert(s@ =~= action_effect(old(s)@, a));
            changed
        },
        Action::AwardPenalty { side, player } => {
            set_penalty(s, side, player, true);
            let ghost k = robot_index(side, player);
            assert(s@.robots[k].penalized != old(s)@.robots[k].penalized);
            true
        },
        Action::ClearPenalty { side, player } => {
            set_penalty(s, side, player, false);
            let ghost k = robot_index(side, player);
            assert(s@.robots[k].penalized != old(s)@.robots[k].penalized);
            true
        },
        Action::AddGoal { side } => {
            let i = side as usize;
            let t = s.teams[i];
            s.teams.set(
                i,
                TeamState {
                    team_number: t.team_number,
                    score: t.score + 1,
                    messages: t.messages,
                    oversized_messages: t.oversized_messages,
                },
            );
            assert(s@ =~= action_effect(old(s)@, a));
            assert(s@.teams[i as int].score != old(s)@.teams[i as int].score);
            true
        },
        Action::SetClock { secs } => {
            let changed = s.secs_remaining != secs;
            s.secs_remaining = secs;
            assert(s@ =~= action_effect(old(s)@, a));
            changed
        },
    }
}

fn side_of_exec(s: &MatchState, team_number: u8) -> (r: Option<usize>)
    requires
        s.wf(),
    ensures
        match side_of(s@, team_number) {
            Some(i) => r == Some(i as usize),
            None => r is None,
        },
{
    if s.teams[0].team_number == team_number {
        Some(0)
    } else if s.teams[1].team_number == team_number {
        Some(1)
    } else {
        None
    }
}

fn saturating_inc_exec(n: u32) -> (r: u32)
    ensures
        r == saturating_inc(n),
{
    if n == u32::MAX {
        n
    } else {
        n + 1
    }
}

/// Applies one event to the match state: the single transition function of the
/// engine. Actions that the rules do not allow in the current state leave it
/// as it is and ask for nothing; network messages update only the team and
/// robot records, never phase, clock or score.
pub fn apply(rules: &RuleSet, state: MatchState, event: &Event) -> (r: (MatchState, Vec<Command>))
    requires
        state.wf(),
    ensures
        r.0.wf(),
        r.0@ == next_state(rules, state@, *event),
        r.1@ == commands_after(rules, state@, *event),
{
    let ghost s0 = state@;
    let mut s = state;
    let changed: bool = match event {
        Event::Action(a) => {
            if action_allowed_exec(rules, &s, *a) {
                apply_allowed_action(rules, &mut s, *a)
            } else {
                false
            }
        },
        Event::Status { host, message } => {
            match side_of_exec(&s, message.team_number) {
                Some(side) => {
                    if 1 <= message.player_number && (message.player_number as usize)
                        <= MAX_PLAYERS {
                        let k = side * MAX_PLAYERS + message.player_number as usize - 1;
                        let r = s.robots[k];
                        s.robots.set(
                            k,
                            RobotState {
                                penalized: r.penalized,
                                seen: true,
                                fallen: message.fallen,
                                host: *host,
                            },
                        );
                    }
                },
                None => {},
            }
            assert(s@ =~= next_state(rules, s0, *event));
            false
        },
        Event::TeamMessage(m) => {
            match side_of_exec(&s, m.team) {
                Some(side) => {
                    let t = s.teams[side];
                    let messages = saturating_inc_exec(t.messages);
                    let oversized_messages = if m.too_long {
                        saturating_inc_exec(t.oversized_messages)
                    } else {
                        t.oversized_messages
                    };
                    s.teams.set(
                        side,
                        TeamState {
                            team_number: t.team_number,
                            score: t.score,
                            messages,
                            oversized_messages,
                        },
                    );
                },
                None => {},
            }
            assert(s@ =~= next_state(rules, s0, *event));
            false
        },
        Event::MonitorRequest { .. } => false,
        Event::Tick => {
            if s.phase == Phase::Playing && s.secs_remaining > 0 {
                s.secs_remaining = s.secs_remaining - 1;
                if s.secs_remaining == 0 && has_edge(&rules.edges, Phase::Playing, Phase::Finished) {
                    s.phase = Phase::Finished;
                }
                assert(s@ =~= next_state(rules, s0, *event));
                true
            } else {
                false
            }
        },
    };
    let mut commands: Vec<Command> = Vec::new();
    match event {
        Event::MonitorRequest { host } => {
            commands.push(Command::SendControlTo(*host));
        },
        _ => {
            if changed {
                commands.push(Command::BroadcastNow);
            }
        },
    }
    assert(commands@ =~= commands_after(rules, s0, *event));
    (s, commands)
}

/// An action that the rules do not allow in the current state changes nothing
/// and asks for nothing.
pub proof fn lemma_rejected_action_is_inert(rules: &RuleSet, s: MatchView, a: Action)
    requires
        !action_allowed(rules, s, a),
    ensures
        next_state(rules, s, Event::Action(a)) == s,
        commands_after(rules, s, Event::Action(a)) == Seq::<Command>::empty(),
{
    assert(same_visible(s, s));
}

/// Messages from the network never change phase, clock or score, never touch
/// a penalty, and never ask for an immediate broadcast.
pub proof fn lemma_network_events_keep_visible(rules: &RuleSet, s: MatchView, e: Event)
    requires
        s.wf(),
        e is Status || e is TeamMessage || e is MonitorRequest,
    ensures
        same_visible(s, next_state(rules, s, e)),
        !commands_after(rules, s, e).contains(Command::BroadcastNow),
{
    if e is MonitorRequest {
        assert(commands_after(rules, s, e)[0] != Command::BroadcastNow);
    }
}

/// The state after a sequence of events, applied in order.
pub open spec fn run(rules: &RuleSet, s: MatchView, events: Seq<Event>) -> MatchView
    decreases events.len(),
{
    if events.len() == 0 {
        s
    } else {
        next_state(rules, run(rules, s, events.drop_last()), events.last())
    }
}

/// The commands that a sequence of events asks for, event by event, in order.
pub open spec fn run_commands(rules: &RuleSet, s: MatchView, events: Seq<Event>) -> Seq<Command>
    decreases events.len(),
{
    if events.len() == 0 {
        Seq::empty()
    } else {
        run_commands(rules, s, events.drop_last()) + commands_after(
            rules,
            run(rules, s, events.drop_last()),
            events.last(),
        )
    }
}

/// Applying events in order in two batches is applying them in order at once:
/// the state after `a` followed by `b` is the state reached by applying `b` to
/// the state after `a`.
pub proof fn lemma_run_concat(rules: &RuleSet, s: MatchView, a: Seq<Event>, b: Seq<Event>)
    ensures
        run(rules, s, a + b) == run(rules, run(rules, s, a), b),
    decreases b.len(),
{
    if b.len() == 0 {
        assert(a + b =~= a);
    } else {
        assert((a + b).drop_last() =~= a + b.drop_last());
        assert((a + b).last() == b.last());
        lemma_run_concat(rules, s, a, b.drop_last());
    }
}

/// Every state that a sequence of events reaches from a well-formed state is
/// well formed.
pub proof fn lemma_run_wf(rules: &RuleSet, s: MatchView, events: Seq<Event>)
    requires
        s.wf(),
    ensures
        run(rules, s, events).wf(),
    decreases events.len(),
{
    if events.len() > 0 {
        lemma_run_wf(rules, s, events.drop_last());
    }
}

/// Applies the events in order, collecting the commands that each one asks for.
/// The result depends on the rules, the state and the events alone.
pub fn replay(rules: &RuleSet, state: MatchState, events: &Vec<Event>) -> (r: (
    MatchState,
    Vec<Command>,
))
    requires
        state.wf(),
    ensures
        r.0.wf(),
        r.0@ == run(rules, state@, events@),
        r.1@ == run_commands(rules, state@, events@),
{
    let ghost s0 = state@;
    let mut s = state;
    let mut commands: Vec<Command> = Vec::new();
    let mut i: usize = 0;
    while i < events.len()
        invariant
            i <= events@.len(),
            s.wf(),
            s@ == run(rules, s0, events@.subrange(0, i as int)),
            commands@ == run_commands(rules, s0, events@.subrange(0, i as int)),
        decreases events@.len() - i,
    {
        let (next, mut more) = apply(rules, s, &events[i]);
        s = next;
        commands.append(&mut more);
        assert(events@.subrange(0, i + 1).drop_last() =~= events@.subrange(0, i as int));
        i += 1;
    }
    assert(events@.subrange(0, i as int) =~= events@);
    (s, commands)
}

/// The engine's turn: takes every event waiting in the queue, oldest first,
/// and applies each to the state. Whatever the interleaving of the producers,
/// the events are applied in the order in which they were enqueued.
pub fn process_pending(rules: &RuleSet, state: MatchState, queue: &mut EventQueue<Event>) -> (r: (
    MatchState,
    Vec<Command>,
))
    requires
        state.wf(),
    ensures
        r.0.wf(),
        r.0@ == run(rules, state@, old(queue).pending()),
        r.1@ == run_commands(rules, state@, old(queue).pending()),
        final(queue).pending().len() == 0,
        final(queue).is_closed() == old(queue).is_closed(),
{
    let ghost s0 = state@;
    let ghost all = queue.pending();
    let mut s = state;
    let mut commands: Vec<Command> = Vec::new();
    let ghost mut taken: int = 0;
    loop
        invariant
            0 <= taken <= all.len(),
            queue.pending() == all.subrange(taken, all.len() as int),
            queue.is_closed() == old(queue).is_closed(),
            all == old(queue).pending(),
            s.wf(),
            s@ == run(rules, s0, all.subrange(0, taken)),
            commands@ == run_commands(rules, s0, all.subrange(0, taken)),
        ensures
            s.wf(),
            s@ == run(rules, s0, all),
            commands@ == run_commands(rules, s0, all),
            queue.pending().len() == 0,
            queue.is_closed() == old(queue).is_closed(),
        decreases queue.pending().len(),
    {
        match queue.recv() {
            Some(e) => {
                assert(e == all[taken]);
                let (next, mut more) = apply(rules, s, &e);
                s = next;
                commands.append(&mut more);
                assert(all.subrange(0, taken + 1).drop_last() =~= all.subrange(0, taken));
                proof {
                    taken = taken + 1;
                }
                assert(queue.pending() =~= all.subrange(taken, all.len() as int));
            },
            None => {
                assert(all.subrange(0, taken) =~= all);
                break ;
            },
        }
    }
    (s, commands)
}

} // verus!
