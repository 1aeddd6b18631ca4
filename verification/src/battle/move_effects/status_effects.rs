//! Effects that give the defender a major status or a volatile condition.
use vstd::prelude::*;

use super::EffectContext;
use crate::battle::commands::{spec_cmds_safe, spec_from_index, BattleCommand, PlayerTarget};
use crate::battle::conditions::PokemonCondition;
use crate::battle::state::{BattleState, TurnRng};
use crate::battle::stats::contains_type;
use crate::player::{spec_active, spec_current_types, BattlePlayer};
use crate::pokemon::StatusCondition;
use crate::schema::{PokemonType, StatusType, Target};

verus! {

/// Commands and rolls used by an effect that may give the defender a major status: nothing
/// happens (and no roll is used) when the defender is absent, already has a status, or has
/// the immune type; otherwise one roll is used and the status lands when it is at most `chance`.
pub open spec fn spec_major_status_effect(
    chance: u8,
    defender: BattlePlayer,
    defender_index: usize,
    immune: PokemonType,
    status: StatusCondition,
    rolls: Seq<u8>,
) -> (Seq<BattleCommand>, nat) {
    match spec_active(defender) {
        None => (seq![], 0),
        Some(p) => if p.status is Some || spec_current_types(p, defender).contains(immune) {
            (seq![], 0)
        } else if rolls[0] <= chance {
            (
                seq![
                    BattleCommand::SetPokemonStatus {
                        target: spec_from_index(defender_index as int),
                        status,
                    },
                ],
                1,
            )
        } else {
            (seq![], 1)
        },
    }
}

fn apply_major_status_effect(
    chance: u8,
    context: &EffectContext,
    state: &BattleState,
    rng: &mut TurnRng,
    immune: PokemonType,
    status: StatusCondition,
) -> (r: Vec<BattleCommand>)
    requires
        context.wf(),
        state.wf(),
        spec_major_status_effect(
                chance,
                state.players[context.defender_index as int],
                context.defender_index,
                immune,
                status,
                old(rng).remaining(),
            ).1 <= old(rng).remaining().len(),
    ensures
        spec_cmds_safe(r@),
        ({
            let (cmds, used) = spec_major_status_effect(
                chance,
                state.players[context.defender_index as int],
                context.defender_index,
                immune,
                status,
                old(rng).remaining(),
            );
            r@ == cmds && final(rng).remaining() == old(rng).remaining().skip(used as int)
        }),
{
    let mut commands: Vec<BattleCommand> = Vec::new();
    let target_player = &state.players[context.defender_index];
    assert(old(rng).remaining().skip(0) =~= old(rng).remaining());
    if let Some(target_pokemon) = target_player.active_pokemon() {
        let types = target_pokemon.get_current_types(target_player);
        if target_pokemon.status.is_some() || contains_type(&types, immune) {
            return commands;
        }
        let roll = rng.next_outcome("Apply Status Check");
        assert(old(rng).remaining().skip(1) =~= old(rng).remaining().drop_first());
        if roll <= chance {
            commands.push(
                BattleCommand::SetPokemonStatus {
                    target: PlayerTarget::from_index(context.defender_index),
                    status,
                },
            );
            assert(commands@ =~= seq![
                BattleCommand::SetPokemonStatus {
                    target: spec_from_index(context.defender_index as int),
                    status,
                },
            ]);
        }
    }
    commands
}

/// Burn, unless the defender is a Fire type (see `spec_major_status_effect`).
pub(crate) fn apply_burn_effect(
    chance: u8,
    context: &EffectContext,
    state: &BattleState,
    rng: &mut TurnRng,
) -> (r: Vec<BattleCommand>)
    requires
        context.wf(),
        state.wf(),
        spec_major_status_effect(
                chance,
                state.players[context.defender_index as int],
                context.defender_index,
                PokemonType::Fire,
                StatusCondition::Burn,
                old(rng).remaining(),
            ).1 <= old(rng).remaining().len(),
    ensures
        spec_cmds_safe(r@),
        ({
            let (cmds, used) = spec_major_status_effect(
                chance,
                state.players[context.defender_index as int],
                context.defender_index,
                PokemonType::Fire,
                StatusCondition::Burn,
                old(rng).remaining(),
            );
            r@ == cmds && final(rng).remaining() == old(rng).remaining().skip(used as int)
        }),
{
    apply_major_status_effect(chance, context, state, rng, PokemonType::Fire, StatusCondition::Burn)
}

/// Paralysis, unless the defender is an Electric type.
pub(crate) fn apply_paralyze_effect(
    chance: u8,
    context: &EffectContext,
    state: &BattleState,
    rng: &mut TurnRng,
) -> (r: Vec<BattleCommand>)
    requires
        context.wf(),
        state.wf(),
        spec_major_status_effect(
                chance,
                state.players[context.defender_index as int],
                context.defender_index,
                PokemonType::Electric,
                StatusCondition::Paralysis,
                old(rng).remaining(),
            ).1 <= old(rng).remaining().len(),
    ensures
        spec_cmds_safe(r@),
        ({
            let (cmds, used) = spec_major_status_effect(
                chance,
                state.players[context.defender_index as int],
                context.defender_index,
                PokemonType::Electric,
                StatusCondition::Paralysis,
                old(rng).remaining(),
            );
            r@ == cmds && final(rng).remaining() == old(rng).remaining().skip(used as int)
        }),
{
    apply_major_status_effect(
        chance,
        context,
        state,
        rng,
        PokemonType::Electric,
        StatusCondition::Paralysis,
    )
}

/// Freeze, unless the defender is an Ice type.
pub(crate) fn apply_freeze_effect(
    chance: u8,
    context: &EffectContext,
    state: &BattleState,
    rng: &mut TurnRng,
) -> (r: Vec<BattleCommand>)
    requires
        context.wf(),
        state.wf(),
        spec_major_status_effect(
                chance,
                state.players[context.defender_index as int],
                context.defender_index,
                PokemonType::Ice,
                StatusCondition::Freeze,
                old(rng).remaining(),
            ).1 <= old(rng).remaining().len(),
    ensures
        spec_cmds_safe(r@),
        ({
            let (cmds, used) = spec_major_status_effect(
                chance,
                state.players[context.defender_index as int],
                context.defender_index,
                PokemonType::Ice,
                StatusCondition::Freeze,
                old(rng).remaining(),
            );
            r@ == cmds && final(rng).remaining() == old(rng).remaining().skip(used as int)
        }),
{
    apply_major_status_effect(chance, context, state, rng, PokemonType::Ice, StatusCondition::Freeze)
}

/// Poison (severity 0), unless the defender is a Poison type.
pub(crate) fn apply_poison_effect(
    chance: u8,
    context: &EffectContext,
    state: &BattleState,
    rng: &mut TurnRng,
) -> (r: Vec<BattleCommand>)
    requires
        context.wf(),
        state.wf(),
        spec_major_status_effect(
                chance,
                state.players[context.defender_index as int],
                context.defender_index,
                PokemonType::Poison,
                StatusCondition::Poison(0),
                old(rng).remaining(),
            ).1 <= old(rng).remaining().len(),
    ensures
        spec_cmds_safe(r@),
        ({
            let (cmds, used) = spec_major_status_effect(
                chance,
                state.players[context.defender_index as int],
                context.defender_index,
                PokemonType::Poison,
                StatusCondition::Poison(0),
                old(rng).remaining(),
            );
            r@ == cmds && final(rng).remaining() == old(rng).remaining().skip(used as int)
        }),
{
    apply_major_status_effect(
        chance,
        context,
        state,
        rng,
        PokemonType::Poison,
        StatusCondition::Poison(0),
    )
}

/// Sleep for `roll % 3 + 1` turns: no type is immune; a second roll sets the duration.
pub open spec fn spec_sedate_effect(chance: u8, defender: BattlePlayer, defender_index: usize, rolls: Seq<u8>) -> (Seq<BattleCommand>, nat) {
    match spec_active(defender) {
        None => (seq![], 0),
        Some(p) => if p.status is Some {
            (seq![], 0)
        } else if rolls[0] <= chance {
            (
                seq![
                    BattleCommand::SetPokemonStatus {
                        target: spec_from_index(defender_index as int),
                        status: StatusCondition::Sleep((rolls[1] % 3 + 1) as u8),
                    },
                ],
                2,
            )
        } else {
            (seq![], 1)
        },
    }
}

/// Puts the defender to sleep (see `spec_sedate_effect`).
pub(crate) fn apply_sedate_effect(
    chance: u8,
    context: &EffectContext,
    state: &BattleState,
    rng: &mut TurnRng,
) -> (r: Vec<BattleCommand>)
    requires
        context.wf(),
        state.wf(),
        spec_sedate_effect(
                chance,
                state.players[context.defender_index as int],
                context.defender_index,
                old(rng).remaining(),
            ).1 <= old(rng).remaining().len(),
    ensures
        spec_cmds_safe(r@),
        ({
            let (cmds, used) = spec_sedate_effect(
                chance,
                state.players[context.defender_index as int],
                context.defender_index,
                old(rng).remaining(),
            );
            r@ == cmds && final(rng).remaining() == old(rng).remaining().skip(used as int)
        }),
{
    let mut commands: Vec<BattleCommand> = Vec::new();
    let target_player = &state.players[context.defender_index];
    assert(old(rng).remaining().skip(0) =~= old(rng).remaining());
    if let Some(target_pokemon) = target_player.active_pokemon() {
        if target_pokemon.status.is_some() {
            return commands;
        }
        let roll = rng.next_outcome("Apply Sedate Check");
        assert(old(rng).remaining().skip(1) =~= old(rng).remaining().drop_first());
        if roll <= chance {
            let sleep_turns = (rng.next_outcome("Generate Sleep Duration") % 3) + 1;
            assert(old(rng).remaining().skip(2) =~= old(rng).remaining().drop_first().drop_first());
            commands.push(
                BattleCommand::SetPokemonStatus {
                    target: PlayerTarget::from_index(context.defender_index),
                    status: StatusCondition::Sleep(sleep_turns),
                },
            );
        }
    }
    commands
}

/// Flinch: one roll is always used; at most `chance` flinches a present defender.
pub open spec fn spec_flinch_effect(chance: u8, defender: BattlePlayer, defender_index: usize, rolls: Seq<u8>) -> (Seq<BattleCommand>, nat) {
    if rolls[0] > chance || spec_active(defender) is None {
        (seq![], 1)
    } else {
        (
            seq![
                BattleCommand::AddCondition {
                    target: spec_from_index(defender_index as int),
                    condition: PokemonCondition::Flinched,
                },
            ],
            1,
        )
    }
}

/// Makes the defender flinch (see `spec_flinch_effect`).
pub(crate) fn apply_flinch_effect(
    chance: u8,
    context: &EffectContext,
    state: &BattleState,
    rng: &mut TurnRng,
) -> (r: Vec<BattleCommand>)
    requires
        context.wf(),
        state.wf(),
        spec_flinch_effect(
                chance,
                state.players[context.defender_index as int],
                context.defender_index,
                old(rng).remaining(),
            ).1 <= old(rng).remaining().len(),
    ensures
        spec_cmds_safe(r@),
        ({
            let (cmds, used) = spec_flinch_effect(
                chance,
                state.players[context.defender_index as int],
                context.defender_index,
                old(rng).remaining(),
            );
            r@ == cmds && final(rng).remaining() == old(rng).remaining().skip(used as int)
        }),
{
    let mut commands: Vec<BattleCommand> = Vec::new();
    let roll = rng.next_outcome("Apply Flinch Effect");
    assert(old(rng).remaining().skip(1) =~= old(rng).remaining().drop_first());
    if roll > chance {
        return commands;
    }
    if state.players[context.defender_index].active_pokemon().is_some() {
        commands.push(
            BattleCommand::AddCondition {
                target: PlayerTarget::from_index(context.defender_index),
                condition: PokemonCondition::Flinched,
            },
        );
    }
    commands
}

/// A volatile condition on a present Pokemon: one roll decides it, and when `extra` is set a
/// second roll `d` gives the condition `make(d)`.
pub open spec fn spec_chance_condition(
    chance: u8,
    holder: BattlePlayer,
    holder_index: usize,
    rolls: Seq<u8>,
    two_rolls: bool,
    condition: PokemonCondition,
) -> (Seq<BattleCommand>, nat) {
    if spec_active(holder) is None {
        (seq![], 0)
    } else if rolls[0] <= chance {
        (
            seq![
                BattleCommand::AddCondition { target: spec_from_index(holder_index as int), condition },
            ],
            if two_rolls {
                2
            } else {
                1
            },
        )
    } else {
        (seq![], 1)
    }
}

/// Confusion for `roll % 4 + 1` turns on a present defender.
pub open spec fn spec_confuse_effect(chance: u8, defender: BattlePlayer, defender_index: usize, rolls: Seq<u8>) -> (Seq<BattleCommand>, nat) {
    spec_chance_condition(
        chance,
        defender,
        defender_index,
        rolls,
        true,
        PokemonCondition::Confused { turns_remaining: (rolls[1] % 4 + 1) as u8 },
    )
}

/// Confuses the defender (see `spec_confuse_effect`).
pub(crate) fn apply_confuse_effect(
    chance: u8,
    context: &EffectContext,
    state: &BattleState,
    rng: &mut TurnRng,
) -> (r: Vec<BattleCommand>)
    requires
        context.wf(),
        state.wf(),
        spec_confuse_effect(
                chance,
                state.players[context.defender_index as int],
                context.defender_index,
                old(rng).remaining(),
            ).1 <= old(rng).remaining().len(),
    ensures
        spec_cmds_safe(r@),
        ({
            let (cmds, used) = spec_confuse_effect(
                chance,
                state.players[context.defender_index as int],
                context.defender_index,
                old(rng).remaining(),
            );
            r@ == cmds && final(rng).remaining() == old(rng).remaining().skip(used as int)
        }),
{
    let mut commands: Vec<BattleCommand> = Vec::new();
    assert(old(rng).remaining().skip(0) =~= old(rng).remaining());
    if state.players[context.defender_index].active_pokemon().is_none() {
        return commands;
    }
    let roll = rng.next_outcome("Apply Confuse Effect");
    assert(old(rng).remaining().skip(1) =~= old(rng).remaining().drop_first());
    if roll <= chance {
        let confuse_turns = (rng.next_outcome("Generate Confusion Duration") % 4) + 1;
        assert(old(rng).remaining().skip(2) =~= old(rng).remaining().drop_first().drop_first());
        commands.push(
            BattleCommand::AddCondition {
                target: PlayerTarget::from_index(context.defender_index),
                condition: PokemonCondition::Confused { turns_remaining: confuse_turns },
            },
        );
    }
    commands
}

/// Trapping for `roll % 4 + 2` turns on a present defender.
pub open spec fn spec_trap_effect(chance: u8, defender: BattlePlayer, defender_index: usize, rolls: Seq<u8>) -> (Seq<BattleCommand>, nat) {
    spec_chance_condition(
        chance,
        defender,
        defender_index,
        rolls,
        true,
        PokemonCondition::Trapped { turns_remaining: (rolls[1] % 4 + 2) as u8 },
    )
}

/// Traps the defender (see `spec_trap_effect`).
pub(crate) fn apply_trap_effect(
    chance: u8,
    context: &EffectContext,
    state: &BattleState,
    rng: &mut TurnRng,
) -> (r: Vec<BattleCommand>)
    requires
        context.wf(),
        state.wf(),
        spec_trap_effect(
                chance,
                state.players[context.defender_index as int],
                context.defender_index,
                old(rng).remaining(),
            ).1 <= old(rng).remaining().len(),
    ensures
        spec_cmds_safe(r@),
        ({
            let (cmds, used) = spec_trap_effect(
                chance,
                state.players[context.defender_index as int],
                context.defender_index,
                old(rng).remaining(),
            );
            r@ == cmds && final(rng).remaining() == old(rng).remaining().skip(used as int)
        }),
{
    let mut commands: Vec<BattleCommand> = Vec::new();
    assert(old(rng).remaining().skip(0) =~= old(rng).remaining());
    if state.players[context.defender_index].active_pokemon().is_none() {
        return commands;
    }
    let roll = rng.next_outcome("Apply Trap Check");
    assert(old(rng).remaining().skip(1) =~= old(rng).remaining().drop_first());
    if roll <= chance {
        let trap_turns = (rng.next_outcome("Generate Trap Duration") % 4) + 2;
        assert(old(rng).remaining().skip(2) =~= old(rng).remaining().drop_first().drop_first());
        commands.push(
            BattleCommand::AddCondition {
                target: PlayerTarget::from_index(context.defender_index),
                condition: PokemonCondition::Trapped { turns_remaining: trap_turns },
            },
        );
    }
    commands
}

/// Seeds a present defender.
pub(crate) fn apply_seed_effect(
    chance: u8,
    context: &EffectContext,
    state: &BattleState,
    rng: &mut TurnRng,
) -> (r: Vec<BattleCommand>)
    requires
        context.wf(),
        state.wf(),
        spec_chance_condition(
                chance,
                state.players[context.defender_index as int],
                context.defender_index,
                old(rng).remaining(),
                false,
                PokemonCondition::Seeded,
            ).1 <= old(rng).remaining().len(),
    ensures
        spec_cmds_safe(r@),
        ({
            let (cmds, used) = spec_chance_condition(
                chance,
                state.players[context.defender_index as int],
                context.defender_index,
                old(rng).remaining(),
                false,
                PokemonCondition::Seeded,
            );
            r@ == cmds && final(rng).remaining() == old(rng).remaining().skip(used as int)
        }),
{
    let mut commands: Vec<BattleCommand> = Vec::new();
    assert(old(rng).remaining().skip(0) =~= old(rng).remaining());
    if state.players[context.defender_index].active_pokemon().is_none() {
        return commands;
    }
    let roll = rng.next_outcome("Apply Seeded Effect");
    assert(old(rng).remaining().skip(1) =~= old(rng).remaining().drop_first());
    if roll <= chance {
        commands.push(
            BattleCommand::AddCondition {
                target: PlayerTarget::from_index(context.defender_index),
                condition: PokemonCondition::Seeded,
            },
        );
    }
    commands
}

/// Exhausts a present attacker for two turns.
pub(crate) fn apply_exhaust_effect(
    chance: u8,
    context: &EffectContext,
    state: &BattleState,
    rng: &mut TurnRng,
) -> (r: Vec<BattleCommand>)
    requires
        context.wf(),
        state.wf(),
        spec_chance_condition(
                chance,
                state.players[context.attacker_index as int],
                context.attacker_index,
                old(rng).remaining(),
                false,
                PokemonCondition::Exhausted { turns_remaining: 2 },
            ).1 <= old(rng).remaining().len(),
    ensures
        spec_cmds_safe(r@),
        ({
            let (cmds, used) = spec_chance_condition(
                chance,
                state.players[context.attacker_index as int],
                context.attacker_index,
                old(rng).remaining(),
                false,
                PokemonCondition::Exhausted { turns_remaining: 2 },
            );
            r@ == cmds && final(rng).remaining() == old(rng).remaining().skip(used as int)
        }),
{
    let mut commands: Vec<BattleCommand> = Vec::new();
    assert(old(rng).remaining().skip(0) =~= old(rng).remaining());
    if state.players[context.attacker_index].active_pokemon().is_none() {
        return commands;
    }
    let roll = rng.next_outcome("Apply Exhaust Check");
    assert(old(rng).remaining().skip(1) =~= old(rng).remaining().drop_first());
    if roll <= chance {
        commands.push(
            BattleCommand::AddCondition {
                target: PlayerTarget::from_index(context.attacker_index),
                condition: PokemonCondition::Exhausted { turns_remaining: 2 },
            },
        );
    }
    commands
}

/// Whether a major status is of the kind a cure names.
pub open spec fn spec_status_matches(status: StatusCondition, kind: StatusType) -> bool {
    match (status, kind) {
        (StatusCondition::Sleep(_), StatusType::Sleep) => true,
        (StatusCondition::Poison(_), StatusType::Poison) => true,
        (StatusCondition::Burn, StatusType::Burn) => true,
        (StatusCondition::Freeze, StatusType::Freeze) => true,
        (StatusCondition::Paralysis, StatusType::Paralysis) => true,
        _ => false,
    }
}

/// Cures the target's status when it is of the named kind; uses no roll.
pub open spec fn spec_cure_status_effect(target: BattlePlayer, target_index: usize, kind: StatusType) -> Seq<BattleCommand> {
    match spec_active(target) {
        Some(p) => match p.status {
            Some(s) => if spec_status_matches(s, kind) {
                seq![BattleCommand::CurePokemonStatus { target: spec_from_index(target_index as int), status: s }]
            } else {
                seq![]
            },
            None => seq![],
        },
        None => seq![],
    }
}

/// Cures a status of the named kind (see `spec_cure_status_effect`).
pub(crate) fn apply_cure_status_effect(
    target: &Target,
    status_type: &StatusType,
    context: &EffectContext,
    state: &BattleState,
) -> (r: Vec<BattleCommand>)
    requires
        context.wf(),
        state.wf(),
    ensures
        spec_cmds_safe(r@),
        r@ == spec_cure_status_effect(
            state.players[context.spec_index_of(*target) as int],
            context.spec_index_of(*target),
            *status_type,
        ),
{
    let mut commands: Vec<BattleCommand> = Vec::new();
    let target_index = context.target_index(target);
    let target_player = &state.players[target_index];
    if let Some(target_pokemon) = target_player.active_pokemon() {
        let status_to_cure = match (target_pokemon.status, *status_type) {
            (Some(status @ StatusCondition::Sleep(_)), StatusType::Sleep) => Some(status),
            (Some(status @ StatusCondition::Poison(_)), StatusType::Poison) => Some(status),
            (Some(status @ StatusCondition::Burn), StatusType::Burn) => Some(status),
            (Some(status @ StatusCondition::Freeze), StatusType::Freeze) => Some(status),
            (Some(status @ StatusCondition::Paralysis), StatusType::Paralysis) => Some(status),
            _ => None,
        };
        if let Some(status) = status_to_cure {
            commands.push(
                BattleCommand::CurePokemonStatus { target: PlayerTarget::from_index(target_index), status },
            );
        }
    }
    commands
}

} // verus!
