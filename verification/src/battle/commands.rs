//! Atomic battle commands: every state change of a battle is one command, and executing a
//! command emits the events that describe it.
use vstd::prelude::*;

use crate::battle::action_stack::{ActionStack, BattleAction};
use crate::battle::conditions::{
    spec_condition_type, ConditionSet, PokemonCondition, PokemonConditionType,
};
use crate::battle::state::{
    spec_events_extend, spec_keeps_phase, spec_keeps_turn, BattleEvent, BattleState, EventBus, GameState,
};
use crate::moves::Move;
use crate::player::{
    spec_active, spec_stage, spec_stages_in_range, spec_team_turns, spec_with_stage,
    spec_with_team_turns, spec_zero_stages, BattlePlayer, PlayerAction,
};
use crate::pokemon::{
    spec_after_damage, spec_after_heal, spec_after_progress, spec_after_use_move, PokemonInst,
    StatusCondition,
};
use crate::schema::{StatType, TeamCondition};

verus! {

/// Which side of the battle a command applies to.
#[derive(Debug, Clone, Copy, PartialEq, Eq, Structural)]
pub enum PlayerTarget {
    Player1,
    Player2,
}

/// The player index of a side: 0 for the first player, 1 for the second.
pub open spec fn spec_target_index(t: PlayerTarget) -> int {
    match t {
        PlayerTarget::Player1 => 0,
        PlayerTarget::Player2 => 1,
    }
}

/// The side of player index `i` (0 for the first player, anything else for the second).
pub open spec fn spec_from_index(i: int) -> PlayerTarget {
    if i == 0 {
        PlayerTarget::Player1
    } else {
        PlayerTarget::Player2
    }
}

/// The other side.
pub open spec fn spec_opponent(t: PlayerTarget) -> PlayerTarget {
    match t {
        PlayerTarget::Player1 => PlayerTarget::Player2,
        PlayerTarget::Player2 => PlayerTarget::Player1,
    }
}

/// Sides and indices correspond one to one: converting a side to its index and back gives
/// the side again, and taking the opponent twice does too, never giving the same side once.
pub proof fn lemma_player_target_round_trip(t: PlayerTarget)
    ensures
        spec_from_index(spec_target_index(t)) == t,
        spec_opponent(spec_opponent(t)) == t,
        spec_opponent(t) != t,
        spec_target_index(spec_opponent(t)) == 1 - spec_target_index(t),
{
}

impl PlayerTarget {
    /// The player index of this side.
    pub fn to_index(self) -> (r: usize)
        ensures
            r as int == spec_target_index(self),
            r < 2,
    {
        match self {
            PlayerTarget::Player1 => 0,
            PlayerTarget::Player2 => 1,
        }
    }

    /// The other side.
    pub fn opponent(self) -> (r: PlayerTarget)
        ensures
            spec_target_index(r) == 1 - spec_target_index(self),
            r == spec_opponent(self),
    {
        match self {
            PlayerTarget::Player1 => PlayerTarget::Player2,
            PlayerTarget::Player2 => PlayerTarget::Player1,
        }
    }

    /// The side of player `index` (0 or 1).
    pub fn from_index(index: usize) -> (r: PlayerTarget)
        requires
            index < 2,
        ensures
            spec_target_index(r) == index,
            r == spec_from_index(index as int),
    {
        if index == 0 {
            PlayerTarget::Player1
        } else {
            PlayerTarget::Player2
        }
    }
}

/// An atomic change to the battle.
#[derive(Debug, Clone, Copy)]
pub enum BattleCommand {
    SetGameState(GameState),
    IncrementTurnNumber,
    ClearActionQueue,
    DealDamage { target: PlayerTarget, amount: u16 },
    HealPokemon { target: PlayerTarget, amount: u16 },
    SetPokemonStatus { target: PlayerTarget, status: StatusCondition },
    CurePokemonStatus { target: PlayerTarget, status: StatusCondition },
    UsePP { target: PlayerTarget, move_used: Move },
    ChangeStatStage { target: PlayerTarget, stat: StatType, delta: i8 },
    AddCondition { target: PlayerTarget, condition: PokemonCondition },
    RemoveCondition { target: PlayerTarget, condition_type: PokemonConditionType },
    RemoveSpecificCondition { target: PlayerTarget, condition: PokemonCondition },
    AddTeamCondition { target: PlayerTarget, condition: TeamCondition, turns: u8 },
    AddAnte { target: PlayerTarget, amount: u32 },
    SetLastMove { target: PlayerTarget, move_used: Move },
    SwitchPokemon { target: PlayerTarget, new_pokemon_index: usize },
    ClearPlayerState { target: PlayerTarget },
    DealStatusDamage { target: PlayerTarget, status: StatusCondition, amount: u16 },
    DealConditionDamage { target: PlayerTarget, condition: PokemonCondition, amount: u16 },
    UpdateStatusProgress { target: PlayerTarget },
    TickPokemonCondition { target: PlayerTarget, condition: PokemonCondition },
    ExpirePokemonCondition { target: PlayerTarget, condition: PokemonCondition },
    TickTeamCondition { target: PlayerTarget, condition: TeamCondition },
    ExpireTeamCondition { target: PlayerTarget, condition: TeamCondition },
    QueueForcedAction { target: PlayerTarget, action: PlayerAction },
    EmitEvent(BattleEvent),
    PushAction(BattleAction),
}

/// Why a command could not be executed.
#[derive(Debug, Clone, Copy, PartialEq, Eq, Structural)]
pub enum ExecutionError {
    NoPokemon,
    InvalidPokemonIndex,
    InvalidMoveIndex,
}

/// The state with player `i` replaced.
pub open spec fn spec_set_player(s: BattleState, i: int, p: BattlePlayer) -> BattleState {
    BattleState { players: vstd::array::spec_array_update(s.players, i, p), ..s }
}

/// The player with its active Pokemon replaced.
pub open spec fn spec_set_active(p: BattlePlayer, pk: PokemonInst) -> BattlePlayer {
    BattlePlayer {
        team: vstd::array::spec_array_update(p.team, p.active_pokemon_index as int, Some(pk)),
        ..p
    }
}

/// A condition after one end-of-turn tick: its turn counter, if it has one, drops by one
/// (not below 0).
pub open spec fn spec_tick_condition(c: PokemonCondition) -> PokemonCondition {
    match c {
        PokemonCondition::Confused { turns_remaining } => PokemonCondition::Confused {
            turns_remaining: if turns_remaining > 0 { (turns_remaining - 1) as u8 } else { 0 },
        },
        PokemonCondition::Exhausted { turns_remaining } => PokemonCondition::Exhausted {
            turns_remaining: if turns_remaining > 0 { (turns_remaining - 1) as u8 } else { 0 },
        },
        PokemonCondition::Trapped { turns_remaining } => PokemonCondition::Trapped {
            turns_remaining: if turns_remaining > 0 { (turns_remaining - 1) as u8 } else { 0 },
        },
        PokemonCondition::Rampaging { turns_remaining } => PokemonCondition::Rampaging {
            turns_remaining: if turns_remaining > 0 { (turns_remaining - 1) as u8 } else { 0 },
        },
        PokemonCondition::Disabled { pokemon_move, turns_remaining } => PokemonCondition::Disabled {
            pokemon_move,
            turns_remaining: if turns_remaining > 0 { (turns_remaining - 1) as u8 } else { 0 },
        },
        PokemonCondition::Biding { turns_remaining, damage } => PokemonCondition::Biding {
            turns_remaining: if turns_remaining > 0 { (turns_remaining - 1) as u8 } else { 0 },
            damage,
        },
        _ => c,
    }
}

/// `v` clamped to the stage range `-6..=6`.
pub open spec fn spec_clamp_stage(v: int) -> i8 {
    if v < -6 {
        -6i8
    } else if v > 6 {
        6i8
    } else {
        v as i8
    }
}

/// Commands whose arithmetic cannot overflow in this state: a stat change whose sum with
/// the current stage fits in an `i8`, and a turn advance below the counter's maximum.
pub open spec fn spec_command_allowed(s: BattleState, cmd: BattleCommand) -> bool {
    match cmd {
        BattleCommand::ChangeStatStage { target, stat, delta } => -128 <= spec_stage(
            s.players[spec_target_index(target)].stat_stages,
            stat,
        ) + delta <= 127,
        BattleCommand::IncrementTurnNumber => s.turn_number < u32::MAX,
        _ => true,
    }
}

/// The player a command changes, if it changes a player.
pub open spec fn spec_command_target(cmd: BattleCommand) -> Option<PlayerTarget> {
    match cmd {
        BattleCommand::DealDamage { target, .. } => Some(target),
        BattleCommand::HealPokemon { target, .. } => Some(target),
        BattleCommand::SetPokemonStatus { target, .. } => Some(target),
        BattleCommand::CurePokemonStatus { target, .. } => Some(target),
        BattleCommand::UsePP { target, .. } => Some(target),
        BattleCommand::ChangeStatStage { target, .. } => Some(target),
        BattleCommand::AddCondition { target, .. } => Some(target),
        BattleCommand::RemoveCondition { target, .. } => Some(target),
        BattleCommand::RemoveSpecificCondition { target, .. } => Some(target),
        BattleCommand::AddTeamCondition { target, .. } => Some(target),
        BattleCommand::AddAnte { target, .. } => Some(target),
        BattleCommand::SetLastMove { target, .. } => Some(target),
        BattleCommand::SwitchPokemon { target, .. } => Some(target),
        BattleCommand::ClearPlayerState { target } => Some(target),
        BattleCommand::DealStatusDamage { target, .. } => Some(target),
        BattleCommand::DealConditionDamage { target, .. } => Some(target),
        BattleCommand::UpdateStatusProgress { target } => Some(target),
        BattleCommand::TickPokemonCondition { target, .. } => Some(target),
        BattleCommand::ExpirePokemonCondition { target, .. } => Some(target),
        BattleCommand::TickTeamCondition { target, .. } => Some(target),
        BattleCommand::ExpireTeamCondition { target, .. } => Some(target),
        _ => None,
    }
}

/// How an operation changes an active Pokemon.
#[derive(Debug, Clone, Copy)]
pub enum PokemonOperation {
    Heal(u16),
    SetStatus(StatusCondition),
    CureStatus,
    UsePP(Move),
    TakeDamage(u16),
    UpdateStatusProgress,
}

/// What an operation does to a Pokemon, or `None` when it fails.
pub open spec fn spec_apply_operation(pk: PokemonInst, op: PokemonOperation) -> Option<PokemonInst> {
    match op {
        PokemonOperation::Heal(amount) => Some(spec_after_heal(pk, amount)),
        PokemonOperation::SetStatus(status) => Some(
            if pk.curr_hp == 0 {
                pk
            } else {
                PokemonInst { status: Some(status), ..pk }
            },
        ),
        PokemonOperation::CureStatus => Some(PokemonInst { status: None, ..pk }),
        PokemonOperation::UsePP(m) => spec_after_use_move(pk, m),
        PokemonOperation::TakeDamage(amount) => Some(spec_after_damage(pk, amount)),
        PokemonOperation::UpdateStatusProgress => Some(spec_after_progress(pk)),
    }
}

/// An operation on the active Pokemon of a player; fails with `NoPokemon`, changing
/// nothing, when the active slot is empty or the operation fails.
pub open spec fn spec_player_operation(p: BattlePlayer, op: PokemonOperation) -> (
    BattlePlayer,
    Result<(), ExecutionError>,
) {
    match spec_active(p) {
        Some(pk) => match spec_apply_operation(pk, op) {
            Some(pk2) => (spec_set_active(p, pk2), Ok(())),
            None => (p, Err(ExecutionError::NoPokemon)),
        },
        None => (p, Err(ExecutionError::NoPokemon)),
    }
}

/// The operation a command performs on the active Pokemon, if it is such a command.
pub open spec fn spec_command_operation(cmd: BattleCommand) -> Option<PokemonOperation> {
    match cmd {
        BattleCommand::DealDamage { amount, .. } => Some(PokemonOperation::TakeDamage(amount)),
        BattleCommand::DealStatusDamage { amount, .. } => Some(PokemonOperation::TakeDamage(amount)),
        BattleCommand::DealConditionDamage { amount, .. } => Some(PokemonOperation::TakeDamage(amount)),
        BattleCommand::HealPokemon { amount, .. } => Some(PokemonOperation::Heal(amount)),
        BattleCommand::SetPokemonStatus { status, .. } => Some(PokemonOperation::SetStatus(status)),
        BattleCommand::CurePokemonStatus { .. } => Some(PokemonOperation::CureStatus),
        BattleCommand::UsePP { move_used, .. } => Some(PokemonOperation::UsePP(move_used)),
        BattleCommand::UpdateStatusProgress { .. } => Some(PokemonOperation::UpdateStatusProgress),
        _ => None,
    }
}

/// What a player-targeted command does to that player, and whether it succeeds.
pub open spec fn spec_player_effect(p: BattlePlayer, cmd: BattleCommand) -> (
    BattlePlayer,
    Result<(), ExecutionError>,
) {
    match spec_command_operation(cmd) {
        Some(op) => spec_player_operation(p, op),
        None => match cmd {
            BattleCommand::ChangeStatStage { stat, delta, .. } => (
                BattlePlayer {
                    stat_stages: spec_with_stage(
                        p.stat_stages,
                        stat,
                        spec_clamp_stage(spec_stage(p.stat_stages, stat) + delta),
                    ),
                    ..p
                },
                Ok(()),
            ),
            BattleCommand::AddCondition { condition, .. } => (
                if spec_active(p) matches Some(pk) && pk.curr_hp != 0 {
                    BattlePlayer {
                        active_pokemon_conditions: p.active_pokemon_conditions.spec_insert(condition),
                        ..p
                    }
                } else {
                    p
                },
                Ok(()),
            ),
            BattleCommand::RemoveCondition { condition_type, .. } => (
                BattlePlayer {
                    active_pokemon_conditions: p.active_pokemon_conditions.spec_remove(condition_type),
                    ..p
                },
                Ok(()),
            ),
            BattleCommand::RemoveSpecificCondition { condition, .. }
            | BattleCommand::ExpirePokemonCondition { condition, .. } => (
                BattlePlayer {
                    active_pokemon_conditions: p.active_pokemon_conditions.spec_remove(
                        spec_condition_type(condition),
                    ),
                    ..p
                },
                Ok(()),
            ),
            BattleCommand::AddTeamCondition { condition, turns, .. } => (
                BattlePlayer {
                    team_conditions: spec_with_team_turns(p.team_conditions, condition, Some(turns)),
                    ..p
                },
                Ok(()),
            ),
            BattleCommand::SetLastMove { move_used, .. } => (
                BattlePlayer { last_move: Some(move_used), ..p },
                Ok(()),
            ),
            BattleCommand::SwitchPokemon { new_pokemon_index, .. } => if new_pokemon_index < 6
                && p.team[new_pokemon_index as int] is Some {
                (BattlePlayer { active_pokemon_index: new_pokemon_index, ..p }, Ok(()))
            } else {
                (p, Err(ExecutionError::InvalidPokemonIndex))
            },
            BattleCommand::AddAnte { amount, .. } => (
                BattlePlayer {
                    ante: if p.ante + amount > u32::MAX {
                        u32::MAX
                    } else {
                        (p.ante + amount) as u32
                    },
                    ..p
                },
                Ok(()),
            ),
            BattleCommand::ClearPlayerState { .. } => (
                BattlePlayer {
                    stat_stages: spec_zero_stages(),
                    active_pokemon_conditions: ConditionSet::spec_empty(),
                    ..p
                },
                Ok(()),
            ),
            BattleCommand::TickPokemonCondition { condition, .. } => {
                let t = spec_condition_type(condition);
                (
                    if p.active_pokemon_conditions.view().dom().contains(t) {
                        BattlePlayer {
                            active_pokemon_conditions: p.active_pokemon_conditions.spec_insert(
                                spec_tick_condition(p.active_pokemon_conditions.view()[t]),
                            ),
                            ..p
                        }
                    } else {
                        p
                    },
                    Ok(()),
                )
            },
            BattleCommand::TickTeamCondition { condition, .. } => (
                match spec_team_turns(p.team_conditions, condition) {
                    Some(turns) => BattlePlayer {
                        team_conditions: spec_with_team_turns(
                            p.team_conditions,
                            condition,
                            Some(if turns > 0 { (turns - 1) as u8 } else { 0 }),
                        ),
                        ..p
                    },
                    None => p,
                },
                Ok(()),
            ),
            BattleCommand::ExpireTeamCondition { condition, .. } => (
                BattlePlayer {
                    team_conditions: spec_with_team_turns(p.team_conditions, condition, None),
                    ..p
                },
                Ok(()),
            ),
            _ => (p, Ok(())),
        },
    }
}

/// What a command does to the state and the action stack, and whether it succeeds.
pub open spec fn spec_state_change(s: BattleState, stack: Seq<BattleAction>, cmd: BattleCommand) -> (
    BattleState,
    Seq<BattleAction>,
    Result<(), ExecutionError>,
) {
    match cmd {
        BattleCommand::SetGameState(g) => (BattleState { game_state: g, ..s }, stack, Ok(())),
        BattleCommand::IncrementTurnNumber => (
            BattleState { turn_number: (s.turn_number + 1) as u32, ..s },
            stack,
            Ok(()),
        ),
        BattleCommand::ClearActionQueue => (BattleState { action_queue: [None, None], ..s }, stack, Ok(())),
        BattleCommand::PushAction(action) => (s, seq![action] + stack, Ok(())),
        BattleCommand::QueueForcedAction { target, action } => (
            BattleState {
                action_queue: vstd::array::spec_array_update(
                    s.action_queue,
                    spec_target_index(target),
                    Some(action),
                ),
                ..s
            },
            stack,
            Ok(()),
        ),
        _ => match spec_command_target(cmd) {
            Some(t) => {
                let i = spec_target_index(t);
                let (p2, r) = spec_player_effect(s.players[i], cmd);
                (spec_set_player(s, i, p2), stack, r)
            },
            None => (s, stack, Ok(())),
        },
    }
}

/// The damage event of the active Pokemon of player `i`, followed by a faint event when it
/// has fainted.
pub open spec fn spec_damage_events(
    s: BattleState,
    i: int,
    amount: u16,
    status: Option<StatusCondition>,
    condition: Option<PokemonCondition>,
) -> Seq<BattleEvent> {
    match spec_active(s.players[i]) {
        Some(pk) => {
            let primary = match (status, condition) {
                (Some(st), _) => BattleEvent::PokemonStatusDamage {
                    target: pk.species,
                    status: st,
                    damage: amount,
                    remaining_hp: pk.curr_hp,
                },
                (None, Some(c)) => BattleEvent::StatusDamage {
                    target: pk.species,
                    status: c,
                    damage: amount,
                },
                (None, None) => BattleEvent::DamageDealt {
                    target: pk.species,
                    damage: amount,
                    remaining_hp: pk.curr_hp,
                },
            };
            if pk.curr_hp == 0 {
                seq![primary, BattleEvent::PokemonFainted { player_index: i as usize, pokemon: pk.species }]
            } else {
                seq![primary]
            }
        },
        None => Seq::empty(),
    }
}

/// The events that describe a command, read from the state after it executed.
pub open spec fn spec_emit_events(cmd: BattleCommand, s: BattleState) -> Seq<BattleEvent> {
    match cmd {
        BattleCommand::DealDamage { target, amount } => spec_damage_events(
            s,
            spec_target_index(target),
            amount,
            None,
            None,
        ),
        BattleCommand::DealStatusDamage { target, status, amount } => spec_damage_events(
            s,
            spec_target_index(target),
            amount,
            Some(status),
            None,
        ),
        BattleCommand::DealConditionDamage { target, condition, amount } => spec_damage_events(
            s,
            spec_target_index(target),
            amount,
            None,
            Some(condition),
        ),
        BattleCommand::HealPokemon { target, amount } => match spec_active(
            s.players[spec_target_index(target)],
        ) {
            Some(pk) => if amount > 0 {
                seq![BattleEvent::PokemonHealed { target: pk.species, amount, new_hp: pk.curr_hp }]
            } else {
                Seq::empty()
            },
            None => Seq::empty(),
        },
        BattleCommand::SetPokemonStatus { target, status } => match spec_active(
            s.players[spec_target_index(target)],
        ) {
            Some(pk) => if pk.curr_hp == 0 {
                Seq::empty()
            } else {
                seq![BattleEvent::PokemonStatusApplied { target: pk.species, status }]
            },
            None => Seq::empty(),
        },
        BattleCommand::CurePokemonStatus { target, status } => match spec_active(
            s.players[spec_target_index(target)],
        ) {
            Some(pk) => seq![BattleEvent::PokemonStatusRemoved { target: pk.species, status }],
            None => Seq::empty(),
        },
        BattleCommand::ChangeStatStage { target, stat, delta } => {
            let p = s.players[spec_target_index(target)];
            match spec_active(p) {
                Some(pk) => {
                    let new_stage = spec_stage(p.stat_stages, stat);
                    seq![
                        BattleEvent::StatStageChanged {
                            target: pk.species,
                            stat,
                            old_stage: (new_stage - delta) as i8,
                            new_stage,
                        },
                    ]
                },
                None => Seq::empty(),
            }
        },
        BattleCommand::AddCondition { target, condition } => match spec_active(
            s.players[spec_target_index(target)],
        ) {
            Some(pk) => if pk.curr_hp == 0 {
                Seq::empty()
            } else {
                seq![BattleEvent::StatusApplied { target: pk.species, status: condition }]
            },
            None => Seq::empty(),
        },
        BattleCommand::RemoveCondition { target, condition_type } => {
            let p = s.players[spec_target_index(target)];
            match spec_active(p) {
                Some(pk) => if p.active_pokemon_conditions.view().dom().contains(condition_type) {
                    seq![
                        BattleEvent::StatusRemoved {
                            target: pk.species,
                            status: p.active_pokemon_conditions.view()[condition_type],
                        },
                    ]
                } else {
                    Seq::empty()
                },
                None => Seq::empty(),
            }
        },
        BattleCommand::RemoveSpecificCondition { target, condition } => match spec_active(
            s.players[spec_target_index(target)],
        ) {
            Some(pk) => seq![BattleEvent::StatusRemoved { target: pk.species, status: condition }],
            None => Seq::empty(),
        },
        BattleCommand::AddTeamCondition { target, condition, .. } => seq![
            BattleEvent::TeamConditionApplied {
                player_index: spec_target_index(target) as usize,
                condition,
            },
        ],
        BattleCommand::SwitchPokemon { target, new_pokemon_index } => {
            let p = s.players[spec_target_index(target)];
            match (p.team[p.active_pokemon_index as int], p.team[new_pokemon_index as int]) {
                (Some(old), Some(new)) => seq![
                    BattleEvent::PokemonSwitched {
                        player_index: spec_target_index(target) as usize,
                        old_pokemon: old.species,
                        new_pokemon: new.species,
                    },
                ],
                _ => Seq::empty(),
            }
        },
        BattleCommand::ExpirePokemonCondition { target, condition } => match spec_active(
            s.players[spec_target_index(target)],
        ) {
            Some(pk) => seq![BattleEvent::ConditionExpired { target: pk.species, condition }],
            None => Seq::empty(),
        },
        BattleCommand::ExpireTeamCondition { target, condition } => seq![
            BattleEvent::TeamConditionExpired {
                player_index: spec_target_index(target) as usize,
                condition,
            },
        ],
        BattleCommand::EmitEvent(event) => seq![event],
        _ => Seq::empty(),
    }
}

/// Executing one command: an `EmitEvent` only records its event; any other command changes
/// the state and, when it succeeds, records the events that describe it.
pub open spec fn spec_execute_command(
    s: BattleState,
    stack: Seq<BattleAction>,
    bus: Seq<BattleEvent>,
    cmd: BattleCommand,
) -> (BattleState, Seq<BattleAction>, Seq<BattleEvent>, Result<(), ExecutionError>) {
    match cmd {
        BattleCommand::EmitEvent(event) => (s, stack, bus.push(event), Ok(())),
        _ => {
            let (s2, stack2, r) = spec_state_change(s, stack, cmd);
            (s2, stack2, if r is Ok {
                bus + spec_emit_events(cmd, s2)
            } else {
                bus
            }, r)
        },
    }
}

/// Executing commands in order, stopping at the first failure.
pub open spec fn spec_execute_batch(
    s: BattleState,
    stack: Seq<BattleAction>,
    bus: Seq<BattleEvent>,
    cmds: Seq<BattleCommand>,
) -> (BattleState, Seq<BattleAction>, Seq<BattleEvent>, Result<(), ExecutionError>)
    decreases cmds.len(),
{
    if cmds.len() == 0 {
        (s, stack, bus, Ok(()))
    } else {
        let (s2, stack2, bus2, r) = spec_execute_command(s, stack, bus, cmds[0]);
        if r is Err {
            (s2, stack2, bus2, r)
        } else {
            spec_execute_batch(s2, stack2, bus2, cmds.drop_first())
        }
    }
}

/// Every command of the batch is allowed in the state it will meet.
pub open spec fn spec_batch_allowed(s: BattleState, stack: Seq<BattleAction>, cmds: Seq<BattleCommand>) -> bool
    decreases cmds.len(),
{
    if cmds.len() == 0 {
        true
    } else {
        let (s2, stack2, bus2, r) = spec_execute_command(s, stack, Seq::empty(), cmds[0]);
        spec_command_allowed(s, cmds[0]) && (r is Ok ==> spec_batch_allowed(s2, stack2, cmds.drop_first()))
    }
}

/// A command that changes a stat stage by at most 12, does not advance the turn, and sets
/// the game state only to end the battle: any state allows it.
pub open spec fn spec_cmd_safe(c: BattleCommand) -> bool {
    match c {
        BattleCommand::ChangeStatStage { delta, .. } => -12 <= delta <= 12,
        BattleCommand::IncrementTurnNumber => false,
        BattleCommand::SetGameState(g) => g == GameState::Player1Win || g == GameState::Player2Win || g
            == GameState::Draw,
        _ => true,
    }
}

/// No command of the list sets the game state.
pub open spec fn spec_sets_no_game_state(cmds: Seq<BattleCommand>) -> bool {
    forall|k: int| 0 <= k < cmds.len() ==> !(#[trigger] cmds[k] is SetGameState)
}

/// Every command of the list is safe (see `spec_cmd_safe`).
pub open spec fn spec_cmds_safe(cmds: Seq<BattleCommand>) -> bool {
    forall|k: int| 0 <= k < cmds.len() ==> spec_cmd_safe(#[trigger] cmds[k])
}

/// Joining two lists of safe commands gives a list of safe commands.
pub proof fn lemma_safe_concat(a: Seq<BattleCommand>, b: Seq<BattleCommand>)
    requires
        spec_cmds_safe(a),
        spec_cmds_safe(b),
    ensures
        spec_cmds_safe(a + b),
{
    assert forall|k: int| 0 <= k < (a + b).len() implies spec_cmd_safe(#[trigger] (a + b)[k]) by {
        if k < a.len() {
            assert((a + b)[k] == a[k]);
        } else {
            assert((a + b)[k] == b[k - a.len()]);
        }
    }
}

/// A command keeps a well-formed state well formed.
proof fn lemma_command_keeps_wf(s: BattleState, stack: Seq<BattleAction>, bus: Seq<BattleEvent>, cmd: BattleCommand)
    requires
        s.wf(),
    ensures
        spec_execute_command(s, stack, bus, cmd).0.wf(),
{
    if let Some(t) = spec_command_target(cmd) {
        lemma_player_effect_keeps_wf(s.players[spec_target_index(t)], cmd);
    }
}

/// A list of safe commands is allowed from any well-formed state.
pub proof fn lemma_safe_batch_allowed(s: BattleState, stack: Seq<BattleAction>, cmds: Seq<BattleCommand>)
    requires
        s.wf(),
        spec_cmds_safe(cmds),
    ensures
        spec_batch_allowed(s, stack, cmds),
    decreases cmds.len(),
{
    if cmds.len() > 0 {
        assert(spec_cmd_safe(cmds[0]));
        if let BattleCommand::ChangeStatStage { target, stat, .. } = cmds[0] {
            assert(-6 <= spec_stage(s.players[spec_target_index(target)].stat_stages, stat) <= 6);
        }
        lemma_command_keeps_wf(s, stack, Seq::empty(), cmds[0]);
        let (s2, stack2, bus2, r) = spec_execute_command(s, stack, Seq::empty(), cmds[0]);
        assert forall|k: int| 0 <= k < cmds.drop_first().len() implies spec_cmd_safe(#[trigger] cmds.drop_first()[k]) by {
            assert(cmds.drop_first()[k] == cmds[k + 1]);
        }
        lemma_safe_batch_allowed(s2, stack2, cmds.drop_first());
    }
}

/// A player-targeted command keeps the player well formed.
proof fn lemma_player_effect_keeps_wf(p: BattlePlayer, cmd: BattleCommand)
    requires
        p.wf(),
    ensures
        spec_player_effect(p, cmd).0.wf(),
{
    let p2 = spec_player_effect(p, cmd).0;
    match cmd {
        BattleCommand::ChangeStatStage { stat, delta, .. } => {
            let new_stage = spec_clamp_stage(spec_stage(p.stat_stages, stat) + delta);
            assert forall|x: StatType| -6 <= #[trigger] spec_stage(p2.stat_stages, x) <= 6 by {
                assert(-6 <= spec_stage(p.stat_stages, x) <= 6);
            }
        },
        BattleCommand::ClearPlayerState { .. } => {
            assert forall|x: StatType| -6 <= #[trigger] spec_stage(p2.stat_stages, x) <= 6 by {}
        },
        _ => {
            assert(p2.stat_stages == p.stat_stages);
        },
    }
}

/// Applies `operation` to the active Pokemon of the player. Fails with `NoPokemon`, changing
/// nothing, when the active slot is empty or the operation fails.
fn execute_pokemon_command(player: &mut BattlePlayer, operation: PokemonOperation) -> (r: Result<
    (),
    ExecutionError,
>)
    requires
        old(player).wf(),
    ensures
        (*final(player), r) == spec_player_operation(*old(player), operation),
{
    let idx = player.active_pokemon_index;
    match player.team[idx] {
        Some(pokemon) => {
            let mut pk = pokemon;
            let ok = match operation {
                PokemonOperation::Heal(amount) => {
                    pk.heal(amount);
                    true
                },
                PokemonOperation::SetStatus(status) => {
                    if !pk.is_fainted() {
                        pk.status = Some(status);
                    }
                    true
                },
                PokemonOperation::CureStatus => {
                    pk.status = None;
                    true
                },
                PokemonOperation::UsePP(m) => pk.use_move(m).is_ok(),
                PokemonOperation::TakeDamage(amount) => {
                    pk.take_damage(amount);
                    true
                },
                PokemonOperation::UpdateStatusProgress => {
                    pk.update_status_progress();
                    true
                },
            };
            if ok {
                player.team.set(idx, Some(pk));
                assert(player.team =~= spec_set_active(*old(player), pk).team);
                Ok(())
            } else {
                Err(ExecutionError::NoPokemon)
            }
        },
        None => Err(ExecutionError::NoPokemon),
    }
}

/// Deals damage to the active Pokemon of the player without emitting events.
fn execute_deal_damage_command_state_only(player: &mut BattlePlayer, amount: u16) -> (r: Result<
    (),
    ExecutionError,
>)
    requires
        old(player).wf(),
    ensures
        (*final(player), r) == spec_player_operation(*old(player), PokemonOperation::TakeDamage(amount)),
{
    execute_pokemon_command(player, PokemonOperation::TakeDamage(amount))
}

/// Applies a player-targeted command to that player.
fn execute_player_change(command: &BattleCommand, player: &mut BattlePlayer) -> (r: Result<
    (),
    ExecutionError,
>)
    requires
        old(player).wf(),
        spec_command_target(*command) is Some,
        *command matches BattleCommand::ChangeStatStage { stat, delta, .. } ==> -128 <= spec_stage(
            old(player).stat_stages,
            stat,
        ) + delta <= 127,
    ensures
        (*final(player), r) == spec_player_effect(*old(player), *command),
        final(player).wf(),
{
    proof {
        lemma_player_effect_keeps_wf(*player, *command);
    }
    match *command {
        BattleCommand::DealDamage { amount, .. } => execute_deal_damage_command_state_only(player, amount),
        BattleCommand::DealStatusDamage { amount, .. }
        | BattleCommand::DealConditionDamage { amount, .. } => {
            execute_pokemon_command(player, PokemonOperation::TakeDamage(amount))
        },
        BattleCommand::HealPokemon { amount, .. } => {
            execute_pokemon_command(player, PokemonOperation::Heal(amount))
        },
        BattleCommand::SetPokemonStatus { status, .. } => {
            execute_pokemon_command(player, PokemonOperation::SetStatus(status))
        },
        BattleCommand::CurePokemonStatus { .. } => {
            execute_pokemon_command(player, PokemonOperation::CureStatus)
        },
        BattleCommand::UsePP { move_used, .. } => {
            execute_pokemon_command(player, PokemonOperation::UsePP(move_used))
        },
        BattleCommand::UpdateStatusProgress { .. } => {
            execute_pokemon_command(player, PokemonOperation::UpdateStatusProgress)
        },
        BattleCommand::ChangeStatStage { stat, delta, .. } => {
            let current_stage = player.get_stat_stage(stat);
            let sum = current_stage + delta;
            let new_stage = if sum < -6 {
                -6
            } else if sum > 6 {
                6
            } else {
                sum
            };
            player.set_stat_stage(stat, new_stage);
            Ok(())
        },
        BattleCommand::AddCondition { condition, .. } => {
            let add = match player.active_pokemon() {
                Some(pokemon) => !pokemon.is_fainted(),
                None => false,
            };
            if add {
                player.add_condition(condition);
            }
            Ok(())
        },
        BattleCommand::RemoveCondition { condition_type, .. } => {
            player.active_pokemon_conditions.remove(condition_type);
            Ok(())
        },
        BattleCommand::RemoveSpecificCondition { condition, .. }
        | BattleCommand::ExpirePokemonCondition { condition, .. } => {
            player.active_pokemon_conditions.remove(condition.get_type());
            Ok(())
        },
        BattleCommand::AddTeamCondition { condition, turns, .. } => {
            player.add_team_condition(condition, turns);
            Ok(())
        },
        BattleCommand::SetLastMove { move_used, .. } => {
            player.last_move = Some(move_used);
            Ok(())
        },
        BattleCommand::SwitchPokemon { new_pokemon_index, .. } => {
            if new_pokemon_index < 6 && player.team[new_pokemon_index].is_some() {
                player.active_pokemon_index = new_pokemon_index;
                Ok(())
            } else {
                Err(ExecutionError::InvalidPokemonIndex)
            }
        },
        BattleCommand::AddAnte { amount, .. } => {
            player.add_ante(amount);
            Ok(())
        },
        BattleCommand::ClearPlayerState { .. } => {
            player.clear_active_pokemon_state();
            Ok(())
        },
        BattleCommand::TickPokemonCondition { condition, .. } => {
            match player.active_pokemon_conditions.get(condition.get_type()) {
                Some(existing) => {
                    let ticked = tick_condition(existing);
                    player.active_pokemon_conditions.insert(ticked);
                },
                None => {},
            }
            Ok(())
        },
        BattleCommand::TickTeamCondition { condition, .. } => {
            match player.team_conditions.get(condition) {
                Some(turns) => {
                    let left = if turns > 0 {
                        turns - 1
                    } else {
                        0
                    };
                    player.team_conditions.set(condition, Some(left));
                },
                None => {},
            }
            Ok(())
        },
        BattleCommand::ExpireTeamCondition { condition, .. } => {
            player.team_conditions.set(condition, None);
            Ok(())
        },
        _ => Ok(()),
    }
}

/// The command's player side, for a player-targeted command.
fn command_target(command: &BattleCommand) -> (r: Option<PlayerTarget>)
    ensures
        r == spec_command_target(*command),
{
    match *command {
        BattleCommand::DealDamage { target, .. } => Some(target),
        BattleCommand::HealPokemon { target, .. } => Some(target),
        BattleCommand::SetPokemonStatus { target, .. } => Some(target),
        BattleCommand::CurePokemonStatus { target, .. } => Some(target),
        BattleCommand::UsePP { target, .. } => Some(target),
        BattleCommand::ChangeStatStage { target, .. } => Some(target),
        BattleCommand::AddCondition { target, .. } => Some(target),
        BattleCommand::RemoveCondition { target, .. } => Some(target),
        BattleCommand::RemoveSpecificCondition { target, .. } => Some(target),
        BattleCommand::AddTeamCondition { target, .. } => Some(target),
        BattleCommand::AddAnte { target, .. } => Some(target),
        BattleCommand::SetLastMove { target, .. } => Some(target),
        BattleCommand::SwitchPokemon { target, .. } => Some(target),
        BattleCommand::ClearPlayerState { target } => Some(target),
        BattleCommand::DealStatusDamage { target, .. } => Some(target),
        BattleCommand::DealConditionDamage { target, .. } => Some(target),
        BattleCommand::UpdateStatusProgress { target } => Some(target),
        BattleCommand::TickPokemonCondition { target, .. } => Some(target),
        BattleCommand::ExpirePokemonCondition { target, .. } => Some(target),
        BattleCommand::TickTeamCondition { target, .. } => Some(target),
        BattleCommand::ExpireTeamCondition { target, .. } => Some(target),
        _ => None,
    }
}

impl BattleCommand {
    /// The events that describe this command, read from the state after it executed.
    #[verifier::rlimit(100)]
    #[verifier::spinoff_prover]
    pub fn emit_events(&self, state: &BattleState) -> (r: Vec<BattleEvent>)
        requires
            state.wf(),
            *self matches BattleCommand::SwitchPokemon { new_pokemon_index, .. } ==> new_pokemon_index < 6,
            *self matches BattleCommand::ChangeStatStage { target, stat, delta } ==> -128 <= spec_stage(
                state.players[spec_target_index(target)].stat_stages,
                stat,
            ) - delta <= 127,
        ensures
            r@ == spec_emit_events(*self, *state),
    {
        match *self {
            BattleCommand::DealDamage { target, amount } => emit_damage_and_faint_events(
                target,
                amount,
                state,
                None,
                None,
            ),
            BattleCommand::DealStatusDamage { target, status, amount } => emit_damage_and_faint_events(
                target,
                amount,
                state,
                Some(status),
                None,
            ),
            BattleCommand::DealConditionDamage { target, condition, amount } =>
                emit_damage_and_faint_events(target, amount, state, None, Some(condition)),
            BattleCommand::HealPokemon { target, amount } => {
                let player = &state.players[target.to_index()];
                match player.active_pokemon() {
                    Some(pokemon) => if amount > 0 {
                        let v = vec![
                            BattleEvent::PokemonHealed {
                                target: pokemon.species,
                                amount,
                                new_hp: pokemon.current_hp(),
                            },
                        ];
                        assert(v@ =~= spec_emit_events(*self, *state));
                        v
                    } else {
                        let v = Vec::new();
                        assert(v@ =~= spec_emit_events(*self, *state));
                        v
                    },
                    None => {
                        let v = Vec::new();
                        assert(v@ =~= spec_emit_events(*self, *state));
                        v
                    },
                }
            },
            BattleCommand::SetPokemonStatus { target, status } => {
                let player = &state.players[target.to_index()];
                match player.active_pokemon() {
                    Some(pokemon) => if pokemon.is_fainted() {
                        let v = Vec::new();
                        assert(v@ =~= spec_emit_events(*self, *state));
                        v
                    } else {
                        let v = vec![BattleEvent::PokemonStatusApplied { target: pokemon.species, status }];
                        assert(v@ =~= spec_emit_events(*self, *state));
                        v
                    },
                    None => {
                        let v = Vec::new();
                        assert(v@ =~= spec_emit_events(*self, *state));
                        v
                    },
                }
            },
            BattleCommand::CurePokemonStatus { target, status } => {
                let player = &state.players[target.to_index()];
                match player.active_pokemon() {
                    Some(pokemon) => {
                        let v = vec![BattleEvent::PokemonStatusRemoved { target: pokemon.species, status }];
                        assert(v@ =~= spec_emit_events(*self, *state));
                        v
                    },
                    None => {
                        let v = Vec::new();
                        assert(v@ =~= spec_emit_events(*self, *state));
                        v
                    },
                }
            },
            BattleCommand::ChangeStatStage { target, stat, delta } => {
                let player = &state.players[target.to_index()];
                match player.active_pokemon() {
                    Some(pokemon) => {
                        let new_stage = player.get_stat_stage(stat);
                        let old_stage = new_stage - delta;
                        let v = vec![
                            BattleEvent::StatStageChanged {
                                target: pokemon.species,
                                stat,
                                old_stage,
                                new_stage,
                            },
                        ];
                        assert(v@ =~= spec_emit_events(*self, *state));
                        v
                    },
                    None => {
                        let v = Vec::new();
                        assert(v@ =~= spec_emit_events(*self, *state));
                        v
                    },
                }
            },
            BattleCommand::AddCondition { target, condition } => {
                let player = &state.players[target.to_index()];
                match player.active_pokemon() {
                    Some(pokemon) => if pokemon.is_fainted() {
                        let v = Vec::new();
                        assert(v@ =~= spec_emit_events(*self, *state));
                        v
                    } else {
                        let v = vec![BattleEvent::StatusApplied { target: pokemon.species, status: condition }];
                        assert(v@ =~= spec_emit_events(*self, *state));
                        v
                    },
                    None => {
                        let v = Vec::new();
                        assert(v@ =~= spec_emit_events(*self, *state));
                        v
                    },
                }
            },
            BattleCommand::RemoveCondition { target, condition_type } => {
                let player = &state.players[target.to_index()];
                match player.active_pokemon() {
                    Some(pokemon) => match player.active_pokemon_conditions.get(condition_type) {
                        Some(actual) => {
                            let v = vec![BattleEvent::StatusRemoved { target: pokemon.species, status: actual }];
                            assert(v@ =~= spec_emit_events(*self, *state));
                            v
                        },
                        None => {
                            let v = Vec::new();
                            assert(v@ =~= spec_emit_events(*self, *state));
                            v
                        },
                    },
                    None => {
                        let v = Vec::new();
                        assert(v@ =~= spec_emit_events(*self, *state));
                        v
                    },
                }
            },
            BattleCommand::RemoveSpecificCondition { target, condition } => {
                let player = &state.players[target.to_index()];
                match player.active_pokemon() {
                    Some(pokemon) => {
                        let v = vec![BattleEvent::StatusRemoved { target: pokemon.species, status: condition }];
                        assert(v@ =~= spec_emit_events(*self, *state));
                        v
                    },
                    None => {
                        let v = Vec::new();
                        assert(v@ =~= spec_emit_events(*self, *state));
                        v
                    },
                }
            },
            BattleCommand::AddTeamCondition { target, condition, .. } => {
                let v = vec![
                    BattleEvent::TeamConditionApplied { player_index: target.to_index(), condition },
                ];
                assert(v@ =~= spec_emit_events(*self, *state));
                v
            },
            BattleCommand::SwitchPokemon { target, new_pokemon_index } => {
                let i = target.to_index();
                let player = &state.players[i];
                match (player.team[player.active_pokemon_index], player.team[new_pokemon_index]) {
                    (Some(old), Some(new)) => {
                        let v = vec![
                            BattleEvent::PokemonSwitched {
                                player_index: i,
                                old_pokemon: old.species,
                                new_pokemon: new.species,
                            },
                        ];
                        assert(v@ =~= spec_emit_events(*self, *state));
                        v
                    },
                    _ => {
                        let v = Vec::new();
                        assert(v@ =~= spec_emit_events(*self, *state));
                        v
                    },
                }
            },
            BattleCommand::ExpirePokemonCondition { target, condition } => {
                let player = &state.players[target.to_index()];
                match player.active_pokemon() {
                    Some(pokemon) => {
                        let v = vec![BattleEvent::ConditionExpired { target: pokemon.species, condition }];
                        assert(v@ =~= spec_emit_events(*self, *state));
                        v
                    },
                    None => {
                        let v = Vec::new();
                        assert(v@ =~= spec_emit_events(*self, *state));
                        v
                    },
                }
            },
            BattleCommand::ExpireTeamCondition { target, condition } => {
                let v = vec![
                    BattleEvent::TeamConditionExpired { player_index: target.to_index(), condition },
                ];
                assert(v@ =~= spec_emit_events(*self, *state));
                v
            },
            BattleCommand::EmitEvent(event) => {
                let v = vec![event];
                assert(v@ =~= spec_emit_events(*self, *state));
                v
            },
            _ => {
                let v = Vec::new();
                assert(v@ =~= spec_emit_events(*self, *state));
                v
            },
        }
    }
}

/// The damage event for the active Pokemon of `target` (status damage, condition damage or
/// plain damage), followed by a faint event when it has fainted.
fn emit_damage_and_faint_events(
    target: PlayerTarget,
    amount: u16,
    state: &BattleState,
    status: Option<StatusCondition>,
    condition: Option<PokemonCondition>,
) -> (r: Vec<BattleEvent>)
    requires
        state.wf(),
    ensures
        r@ == spec_damage_events(*state, spec_target_index(target), amount, status, condition),
{
    let player_index = target.to_index();
    let player = &state.players[player_index];
    match player.active_pokemon() {
        Some(pokemon) => {
            let mut events: Vec<BattleEvent> = Vec::new();
            let primary = match (status, condition) {
                (Some(s), _) => BattleEvent::PokemonStatusDamage {
                    target: pokemon.species,
                    status: s,
                    damage: amount,
                    remaining_hp: pokemon.current_hp(),
                },
                (None, Some(c)) => BattleEvent::StatusDamage {
                    target: pokemon.species,
                    status: c,
                    damage: amount,
                },
                (None, None) => BattleEvent::DamageDealt {
                    target: pokemon.species,
                    damage: amount,
                    remaining_hp: pokemon.current_hp(),
                },
            };
            events.push(primary);
            if pokemon.is_fainted() {
                events.push(BattleEvent::PokemonFainted { player_index, pokemon: pokemon.species });
            }
            assert(events@ =~= spec_damage_events(
                *state,
                spec_target_index(target),
                amount,
                status,
                condition,
            ));
            events
        },
        None => {
            let v = Vec::new();
            assert(v@ =~= spec_damage_events(
                *state,
                spec_target_index(target),
                amount,
                status,
                condition,
            ));
            v
        },
    }
}

/// Executes the state change of a command (not `EmitEvent`).
fn execute_state_change(
    command: &BattleCommand,
    state: &mut BattleState,
    action_stack: &mut ActionStack,
) -> (r: Result<(), ExecutionError>)
    requires
        old(state).wf(),
        spec_command_allowed(*old(state), *command),
        !(*command matches BattleCommand::EmitEvent(_)),
    ensures
        (*final(state), final(action_stack).view(), r) == spec_state_change(
            *old(state),
            old(action_stack).view(),
            *command,
        ),
        final(state).wf(),
{
    match *command {
        BattleCommand::SetGameState(new_state) => {
            state.game_state = new_state;
            return Ok(());
        },
        BattleCommand::IncrementTurnNumber => {
            state.turn_number = state.turn_number + 1;
            return Ok(());
        },
        BattleCommand::ClearActionQueue => {
            state.action_queue = [None, None];
            return Ok(());
        },
        BattleCommand::PushAction(action) => {
            action_stack.push_front(action);
            return Ok(());
        },
        BattleCommand::QueueForcedAction { target, action } => {
            let i = target.to_index();
            state.action_queue.set(i, Some(action));
            assert(state.action_queue =~= spec_state_change(
                *old(state),
                old(action_stack).view(),
                *command,
            ).0.action_queue);
            return Ok(());
        },
        _ => {},
    }
    match command_target(command) {
        Some(target) => {
            let i = target.to_index();
            let r = execute_player_change(command, &mut state.players[i]);
            assert(state.players =~= spec_state_change(
                *old(state),
                old(action_stack).view(),
                *command,
            ).0.players);
            r
        },
        None => Ok(()),
    }
}

/// A condition after one end-of-turn tick.
fn tick_condition(c: PokemonCondition) -> (r: PokemonCondition)
    ensures
        r == spec_tick_condition(c),
{
    match c {
        PokemonCondition::Confused { turns_remaining } => PokemonCondition::Confused {
            turns_remaining: turns_remaining.saturating_sub(1),
        },
        PokemonCondition::Exhausted { turns_remaining } => PokemonCondition::Exhausted {
            turns_remaining: turns_remaining.saturating_sub(1),
        },
        PokemonCondition::Trapped { turns_remaining } => PokemonCondition::Trapped {
            turns_remaining: turns_remaining.saturating_sub(1),
        },
        PokemonCondition::Rampaging { turns_remaining } => PokemonCondition::Rampaging {
            turns_remaining: turns_remaining.saturating_sub(1),
        },
        PokemonCondition::Disabled { pokemon_move, turns_remaining } => PokemonCondition::Disabled {
            pokemon_move,
            turns_remaining: turns_remaining.saturating_sub(1),
        },
        PokemonCondition::Biding { turns_remaining, damage } => PokemonCondition::Biding {
            turns_remaining: turns_remaining.saturating_sub(1),
            damage,
        },
        _ => c,
    }
}

/// Executes one command: an `EmitEvent` records its event; any other command changes the
/// state and, when it succeeds, records the events that describe it.
pub fn execute_command(
    command: BattleCommand,
    state: &mut BattleState,
    bus: &mut EventBus,
    action_stack: &mut ActionStack,
) -> (r: Result<(), ExecutionError>)
    requires
        old(state).wf(),
        spec_command_allowed(*old(state), command),
    ensures
        (*final(state), final(action_stack).view(), final(bus).view(), r) == spec_execute_command(
            *old(state),
            old(action_stack).view(),
            old(bus).view(),
            command,
        ),
        final(state).wf(),
        final(state).battle_id == old(state).battle_id,
        final(state).battle_type == old(state).battle_type,
        final(state).turn_number == if command is IncrementTurnNumber {
            old(state).turn_number + 1
        } else {
            old(state).turn_number as int
        },
        spec_events_extend(old(bus).view(), final(bus).view()),
        final(state).game_state == match command {
            BattleCommand::SetGameState(g) => g,
            _ => old(state).game_state,
        },
{
    proof {
        lemma_command_keeps_battle(*old(state), old(action_stack).view(), old(bus).view(), command);
    }
    if let BattleCommand::EmitEvent(event) = command {
        bus.push(event);
        return Ok(());
    }
    let result = execute_state_change(&command, state, action_stack);
    if result.is_ok() {
        let events = command.emit_events(state);
        let mut k: usize = 0;
        while k < events.len()
            invariant
                0 <= k <= events.len(),
                bus.view() == old(bus).view() + events@.take(k as int),
            decreases events.len() - k,
        {
            bus.push(events[k]);
            assert(events@.take(k + 1) =~= events@.take(k as int).push(events@[k as int]));
            k = k + 1;
        }
        assert(events@.take(events.len() as int) =~= events@);
    }
    result
}

/// Executes commands in order, stopping at the first failure.
/// A command never changes which battle this is or its kind, only adds events, and
/// changes the turn counter only when it advances it.
proof fn lemma_command_keeps_battle(
    s: BattleState,
    stack: Seq<BattleAction>,
    bus: Seq<BattleEvent>,
    cmd: BattleCommand,
)
    requires
        spec_command_allowed(s, cmd),
    ensures
        ({
            let s2 = spec_execute_command(s, stack, bus, cmd).0;
            &&& s2.battle_id == s.battle_id
            &&& s2.battle_type == s.battle_type
            &&& s2.turn_number == if cmd is IncrementTurnNumber {
                s.turn_number + 1
            } else {
                s.turn_number as int
            }
            &&& spec_events_extend(bus, spec_execute_command(s, stack, bus, cmd).2)
            &&& s2.game_state == match cmd {
                BattleCommand::SetGameState(g) => g,
                _ => s.game_state,
            }
        }),
{
}

pub fn execute_command_batch(
    commands: Vec<BattleCommand>,
    state: &mut BattleState,
    bus: &mut EventBus,
    action_stack: &mut ActionStack,
) -> (r: Result<(), ExecutionError>)
    requires
        old(state).wf(),
        spec_batch_allowed(*old(state), old(action_stack).view(), commands@),
    ensures
        (*final(state), final(action_stack).view(), final(bus).view(), r) == spec_execute_batch(
            *old(state),
            old(action_stack).view(),
            old(bus).view(),
            commands@,
        ),
        final(state).wf(),
        spec_cmds_safe(commands@) ==> spec_keeps_turn(*old(state), *final(state), old(bus).view(), final(bus).view()),
        spec_cmds_safe(commands@) ==> spec_keeps_phase(*old(state), *final(state)),
        spec_sets_no_game_state(commands@) ==> final(state).game_state == old(state).game_state,
{
    let mut i: usize = 0;
    assert(commands@.skip(0) =~= commands@);
    while i < commands.len()
        invariant
            0 <= i <= commands.len(),
            state.wf(),
            spec_batch_allowed(*state, action_stack.view(), commands@.skip(i as int)),
            spec_execute_batch(*old(state), old(action_stack).view(), old(bus).view(), commands@)
                == spec_execute_batch(*state, action_stack.view(), bus.view(), commands@.skip(i as int)),
            state.battle_id == old(state).battle_id,
            state.battle_type == old(state).battle_type,
            spec_events_extend(old(bus).view(), bus.view()),
            spec_cmds_safe(commands@) ==> state.turn_number == old(state).turn_number,
            spec_cmds_safe(commands@) ==> spec_keeps_phase(*old(state), *state),
            spec_sets_no_game_state(commands@) ==> state.game_state == old(state).game_state,
        decreases commands.len() - i,
    {
        let ghost before = (*state, action_stack.view(), bus.view());
        let command = commands[i];
        assert(spec_cmds_safe(commands@) ==> spec_cmd_safe(commands@[i as int]));
        assert(spec_sets_no_game_state(commands@) ==> !(commands@[i as int] is SetGameState));
        assert(commands@.skip(i as int)[0] == command);
        assert(commands@.skip(i as int).drop_first() =~= commands@.skip(i + 1));
        let result = execute_command(command, state, bus, action_stack);
        if result.is_err() {
            return result;
        }
        i = i + 1;
    }
    assert(commands@.skip(i as int) =~= Seq::<BattleCommand>::empty());
    Ok(())
}

/// A command that fails changes nothing: the state, the action stack and the events are
/// exactly as before.
pub proof fn lemma_failed_command_changes_nothing(
    s: BattleState,
    stack: Seq<BattleAction>,
    bus: Seq<BattleEvent>,
    cmd: BattleCommand,
)
    requires
        spec_execute_command(s, stack, bus, cmd).3 is Err,
    ensures
        spec_execute_command(s, stack, bus, cmd).0 == s,
        spec_execute_command(s, stack, bus, cmd).1 == stack,
        spec_execute_command(s, stack, bus, cmd).2 == bus,
{
    if let Some(t) = spec_command_target(cmd) {
        let i = spec_target_index(t);
        assert(spec_set_player(s, i, s.players[i]).players =~= s.players);
    }
}

/// Events are only ever added: after any batch of commands, the events recorded before are
/// still there, in order, at the front.
pub proof fn lemma_batch_only_appends_events(
    s: BattleState,
    stack: Seq<BattleAction>,
    bus: Seq<BattleEvent>,
    cmds: Seq<BattleCommand>,
)
    ensures
        bus.len() <= spec_execute_batch(s, stack, bus, cmds).2.len(),
        spec_execute_batch(s, stack, bus, cmds).2.subrange(0, bus.len() as int) == bus,
    decreases cmds.len(),
{
    if cmds.len() > 0 {
        let (s2, stack2, bus2, r) = spec_execute_command(s, stack, bus, cmds[0]);
        assert(bus.len() <= bus2.len() && bus2.subrange(0, bus.len() as int) =~= bus);
        if r is Ok {
            lemma_batch_only_appends_events(s2, stack2, bus2, cmds.drop_first());
            let fin = spec_execute_batch(s2, stack2, bus2, cmds.drop_first()).2;
            assert(fin.subrange(0, bus.len() as int) =~= fin.subrange(0, bus2.len() as int).subrange(
                0,
                bus.len() as int,
            ));
        }
    }
}

} // verus!
