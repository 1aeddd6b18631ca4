//! Effects on stat stages.
use vstd::prelude::*;

use super::EffectContext;
use crate::battle::commands::{spec_cmds_safe, spec_from_index, BattleCommand, PlayerTarget};
use crate::battle::state::{BattleEvent, BattleState, StatChangeBlockReason, TurnRng};
use crate::player::{spec_active, spec_stage, spec_team_turns, BattlePlayer};
use crate::schema::{StatType, Target, TeamCondition};

verus! {

/// `v` clamped to `-6..=6`.
pub open spec fn spec_clamp_six(v: int) -> int {
    if v < -6 {
        -6
    } else if v > 6 {
        6
    } else {
        v
    }
}

/// A stat change on the target: one roll is always used and must be at most `chance`;
/// against a present target, a reduction by the opponent is blocked by Mist (an event says
/// so), and otherwise the stage moves by `stages`, kept in `-6..=6`, when that changes it.
pub open spec fn spec_stat_change_effect(
    stat: StatType,
    stages: i8,
    chance: u8,
    target: BattlePlayer,
    target_index: usize,
    attacker_index: usize,
    rolls: Seq<u8>,
) -> Seq<BattleCommand> {
    if rolls[0] > chance {
        seq![]
    } else {
        match spec_active(target) {
            None => seq![],
            Some(p) => if target_index != attacker_index && stages < 0 && spec_team_turns(
                target.team_conditions,
                TeamCondition::Mist,
            ) is Some {
                seq![
                    BattleCommand::EmitEvent(
                        BattleEvent::StatChangeBlocked {
                            target: p.species,
                            stat,
                            reason: StatChangeBlockReason::MistPreventedReduction,
                        },
                    ),
                ]
            } else {
                let old_stage = spec_stage(target.stat_stages, stat) as int;
                let new_stage = spec_clamp_six(old_stage + stages);
                if old_stage != new_stage {
                    seq![
                        BattleCommand::ChangeStatStage {
                            target: spec_from_index(target_index as int),
                            stat,
                            delta: (new_stage - old_stage) as i8,
                        },
                    ]
                } else {
                    seq![]
                }
            },
        }
    }
}

/// Changes a stat stage of the target (see `spec_stat_change_effect`); uses one roll.
pub(crate) fn apply_stat_change_effect(
    target: &Target,
    stat: &StatType,
    stages: i8,
    chance: u8,
    context: &EffectContext,
    state: &BattleState,
    rng: &mut TurnRng,
) -> (r: Vec<BattleCommand>)
    requires
        context.wf(),
        state.wf(),
        old(rng).remaining().len() >= 1,
    ensures
        spec_cmds_safe(r@),
        r@ == spec_stat_change_effect(
            *stat,
            stages,
            chance,
            state.players[context.spec_index_of(*target) as int],
            context.spec_index_of(*target),
            context.attacker_index,
            old(rng).remaining(),
        ),
        final(rng).remaining() == old(rng).remaining().drop_first(),
{
    let mut commands: Vec<BattleCommand> = Vec::new();
    let roll = rng.next_outcome("Apply Stat Change Effect");
    if roll > chance {
        return commands;
    }
    let target_index = context.target_index(target);
    let target_player = &state.players[target_index];
    if let Some(target_pokemon) = target_player.active_pokemon() {
        let is_enemy_move = target_index != context.attacker_index;
        let is_negative_change = stages < 0;
        let has_mist = target_player.has_team_condition(&TeamCondition::Mist);
        if is_enemy_move && is_negative_change && has_mist {
            commands.push(
                BattleCommand::EmitEvent(
                    BattleEvent::StatChangeBlocked {
                        target: target_pokemon.species,
                        stat: *stat,
                        reason: StatChangeBlockReason::MistPreventedReduction,
                    },
                ),
            );
        } else {
            let old_stage = target_player.get_stat_stage(*stat);
            assert(-6 <= old_stage <= 6);
            let sum: i16 = old_stage as i16 + stages as i16;
            let new_stage: i16 = if sum < -6 {
                -6
            } else if sum > 6 {
                6
            } else {
                sum
            };
            if old_stage as i16 != new_stage {
                commands.push(
                    BattleCommand::ChangeStatStage {
                        target: PlayerTarget::from_index(target_index),
                        stat: *stat,
                        delta: (new_stage - old_stage as i16) as i8,
                    },
                );
            }
        }
    }
    commands
}

/// A stage increase of one for `stat`, unless it is already at +6.
pub open spec fn spec_raise_one(player: BattlePlayer, index: usize, stat: StatType) -> Seq<BattleCommand> {
    if spec_stage(player.stat_stages, stat) < 6 {
        seq![BattleCommand::ChangeStatStage { target: spec_from_index(index as int), stat, delta: 1 }]
    } else {
        seq![]
    }
}

/// Raise-all-stats: one roll, at most `chance`, raises Attack, Defense, Special Attack,
/// Special Defense and Speed of a present attacker by one stage each, skipping those at +6.
pub open spec fn spec_raise_all_stats_effect(chance: u8, attacker: BattlePlayer, attacker_index: usize, rolls: Seq<u8>) -> Seq<BattleCommand> {
    if rolls[0] > chance || spec_active(attacker) is None {
        seq![]
    } else {
        spec_raise_one(attacker, attacker_index, StatType::Atk) + spec_raise_one(
            attacker,
            attacker_index,
            StatType::Def,
        ) + spec_raise_one(attacker, attacker_index, StatType::SpAtk) + spec_raise_one(
            attacker,
            attacker_index,
            StatType::SpDef,
        ) + spec_raise_one(attacker, attacker_index, StatType::Spe)
    }
}

fn raise_one(commands: &mut Vec<BattleCommand>, player: &BattlePlayer, index: usize, stat: StatType)
    requires
        spec_cmds_safe(old(commands)@),
        index < 2,
    ensures
        spec_cmds_safe(final(commands)@),
        final(commands)@ == old(commands)@ + spec_raise_one(*player, index, stat),
{
    if player.get_stat_stage(stat) < 6 {
        commands.push(
            BattleCommand::ChangeStatStage { target: PlayerTarget::from_index(index), stat, delta: 1 },
        );
    }
    assert(final(commands)@ =~= old(commands)@ + spec_raise_one(*player, index, stat));
}

/// Raises the attacker's main stats (see `spec_raise_all_stats_effect`); uses one roll.
pub(crate) fn apply_raise_all_stats_effect(
    chance: u8,
    context: &EffectContext,
    state: &BattleState,
    rng: &mut TurnRng,
) -> (r: Vec<BattleCommand>)
    requires
        context.wf(),
        state.wf(),
        old(rng).remaining().len() >= 1,
    ensures
        spec_cmds_safe(r@),
        r@ == spec_raise_all_stats_effect(
            chance,
            state.players[context.attacker_index as int],
            context.attacker_index,
            old(rng).remaining(),
        ),
        final(rng).remaining() == old(rng).remaining().drop_first(),
{
    let mut commands: Vec<BattleCommand> = Vec::new();
    let roll = rng.next_outcome("Apply Raise All Stats Check");
    if roll > chance {
        return commands;
    }
    let attacker_player = &state.players[context.attacker_index];
    if attacker_player.active_pokemon().is_some() {
        let i = context.attacker_index;
        raise_one(&mut commands, attacker_player, i, StatType::Atk);
        raise_one(&mut commands, attacker_player, i, StatType::Def);
        raise_one(&mut commands, attacker_player, i, StatType::SpAtk);
        raise_one(&mut commands, attacker_player, i, StatType::SpDef);
        raise_one(&mut commands, attacker_player, i, StatType::Spe);
        assert(commands@ =~= spec_raise_all_stats_effect(
            chance,
            state.players[context.attacker_index as int],
            context.attacker_index,
            old(rng).remaining(),
        ));
    }
    commands
}

/// A reset of `stat` to stage 0, unless it is already 0.
pub open spec fn spec_reset_one(player: BattlePlayer, index: usize, stat: StatType) -> Seq<BattleCommand> {
    let s = spec_stage(player.stat_stages, stat);
    if s != 0 {
        seq![BattleCommand::ChangeStatStage { target: spec_from_index(index as int), stat, delta: (-s) as i8 }]
    } else {
        seq![]
    }
}

/// The resets of every stat stage of a present player's Pokemon, in stat order.
pub open spec fn spec_haze_player(player: BattlePlayer, index: usize) -> Seq<BattleCommand> {
    if spec_active(player) is None {
        seq![]
    } else {
        spec_reset_one(player, index, StatType::Atk) + spec_reset_one(player, index, StatType::Def)
            + spec_reset_one(player, index, StatType::SpAtk) + spec_reset_one(
            player,
            index,
            StatType::SpDef,
        ) + spec_reset_one(player, index, StatType::Spe) + spec_reset_one(player, index, StatType::Acc)
            + spec_reset_one(player, index, StatType::Eva) + spec_reset_one(
            player,
            index,
            StatType::Crit,
        )
    }
}

/// Haze: one roll, at most `chance`, resets every stat stage of both players.
pub open spec fn spec_haze_effect(chance: u8, state: BattleState, rolls: Seq<u8>) -> Seq<BattleCommand> {
    if rolls[0] > chance {
        seq![]
    } else {
        spec_haze_player(state.players[0], 0) + spec_haze_player(state.players[1], 1)
    }
}

fn reset_one(commands: &mut Vec<BattleCommand>, player: &BattlePlayer, index: usize, stat: StatType)
    requires
        spec_cmds_safe(old(commands)@),
        index < 2,
        player.wf(),
    ensures
        spec_cmds_safe(final(commands)@),
        final(commands)@ == old(commands)@ + spec_reset_one(*player, index, stat),
{
    let s = player.get_stat_stage(stat);
    if s != 0 {
        commands.push(
            BattleCommand::ChangeStatStage { target: PlayerTarget::from_index(index), stat, delta: -s },
        );
    }
    assert(final(commands)@ =~= old(commands)@ + spec_reset_one(*player, index, stat));
}

fn haze_player(commands: &mut Vec<BattleCommand>, player: &BattlePlayer, index: usize)
    requires
        spec_cmds_safe(old(commands)@),
        index < 2,
        player.wf(),
    ensures
        spec_cmds_safe(final(commands)@),
        final(commands)@ == old(commands)@ + spec_haze_player(*player, index),
{
    if player.active_pokemon().is_some() {
        let ghost p = *player;
        let ghost start = commands@;
        reset_one(commands, player, index, StatType::Atk);
        reset_one(commands, player, index, StatType::Def);
        assert(commands@ =~= start + (spec_reset_one(p, index, StatType::Atk) + spec_reset_one(p, index, StatType::Def)));
        let ghost acc1 = spec_reset_one(p, index, StatType::Atk) + spec_reset_one(p, index, StatType::Def);
        reset_one(commands, player, index, StatType::SpAtk);
        reset_one(commands, player, index, StatType::SpDef);
        assert(commands@ =~= start + (acc1 + spec_reset_one(p, index, StatType::SpAtk) + spec_reset_one(p, index, StatType::SpDef)));
        let ghost acc2 = acc1 + spec_reset_one(p, index, StatType::SpAtk) + spec_reset_one(p, index, StatType::SpDef);
        reset_one(commands, player, index, StatType::Spe);
        reset_one(commands, player, index, StatType::Acc);
        assert(commands@ =~= start + (acc2 + spec_reset_one(p, index, StatType::Spe) + spec_reset_one(p, index, StatType::Acc)));
        let ghost acc3 = acc2 + spec_reset_one(p, index, StatType::Spe) + spec_reset_one(p, index, StatType::Acc);
        reset_one(commands, player, index, StatType::Eva);
        reset_one(commands, player, index, StatType::Crit);
        assert(commands@ =~= start + (acc3 + spec_reset_one(p, index, StatType::Eva) + spec_reset_one(p, index, StatType::Crit)));
    } else {
        assert(commands@ =~= old(commands)@ + spec_haze_player(*player, index));
    }
}

/// Clears every stat stage of both players (see `spec_haze_effect`); uses one roll.
pub(crate) fn apply_haze_effect(
    chance: u8,
    _context: &EffectContext,
    state: &BattleState,
    rng: &mut TurnRng,
) -> (r: Vec<BattleCommand>)
    requires
        state.wf(),
        old(rng).remaining().len() >= 1,
    ensures
        spec_cmds_safe(r@),
        r@ == spec_haze_effect(chance, *state, old(rng).remaining()),
        final(rng).remaining() == old(rng).remaining().drop_first(),
{
    let mut commands: Vec<BattleCommand> = Vec::new();
    let roll = rng.next_outcome("Apply Haze Check");
    if roll > chance {
        return commands;
    }
    haze_player(&mut commands, &state.players[0], 0);
    haze_player(&mut commands, &state.players[1], 1);
    assert(commands@ =~= spec_haze_effect(chance, *state, old(rng).remaining()));
    commands
}

} // verus!
