//! Effects that heal, hurt or pay out, by fixed shares of HP or of the damage dealt.
use vstd::prelude::*;

use super::EffectContext;
use crate::battle::commands::{spec_cmds_safe, spec_from_index, BattleCommand, PlayerTarget};
use crate::battle::state::{BattleState, TurnRng};
use crate::player::{spec_active, BattlePlayer};

verus! {

/// `percentage` percent of `amount`, rounded down, kept to 16 bits.
pub open spec fn spec_percent_of(amount: u16, percentage: u8) -> nat {
    ((amount as nat * percentage as nat / 100) % 65536) as nat
}

fn percent_of(amount: u16, percentage: u8) -> (r: u16)
    ensures
        r as nat == spec_percent_of(amount, percentage),
{
    let a: u32 = amount as u32;
    let p: u32 = percentage as u32;
    assert(a * p <= 65535 * 255) by (nonlinear_arith)
        requires
            a <= 65535,
            p <= 255,
    ;
    ((a * p / 100) % 65536) as u16
}

/// Heal: a present attacker that has not fainted and is below full HP is healed by
/// `percentage` percent of its maximum HP, when that is positive.
pub open spec fn spec_heal_effect(percentage: u8, attacker: BattlePlayer, attacker_index: usize) -> Seq<BattleCommand> {
    match spec_active(attacker) {
        Some(p) => {
            let amount = spec_percent_of(p.stats.hp, percentage);
            if p.curr_hp > 0 && p.curr_hp < p.stats.hp && amount > 0 {
                seq![
                    BattleCommand::HealPokemon {
                        target: spec_from_index(attacker_index as int),
                        amount: amount as u16,
                    },
                ]
            } else {
                seq![]
            }
        },
        None => seq![],
    }
}

/// Heals the attacker (see `spec_heal_effect`).
pub(crate) fn apply_heal_effect(percentage: u8, context: &EffectContext, state: &BattleState) -> (r: Vec<
    BattleCommand,
>)
    requires
        context.wf(),
        state.wf(),
    ensures
        spec_cmds_safe(r@),
        r@ == spec_heal_effect(
            percentage,
            state.players[context.attacker_index as int],
            context.attacker_index,
        ),
{
    let mut commands: Vec<BattleCommand> = Vec::new();
    let attacker_player = &state.players[context.attacker_index];
    if let Some(attacker_pokemon) = attacker_player.active_pokemon() {
        let max_hp = attacker_pokemon.max_hp();
        let current_hp = attacker_pokemon.current_hp();
        if current_hp > 0 && current_hp < max_hp {
            let heal_amount = percent_of(max_hp, percentage);
            if heal_amount > 0 {
                commands.push(
                    BattleCommand::HealPokemon {
                        target: PlayerTarget::from_index(context.attacker_index),
                        amount: heal_amount,
                    },
                );
            }
        }
    }
    commands
}

/// Ante: one roll, at most `chance`, adds twice a present attacker's level to its
/// player's ante.
pub open spec fn spec_ante_effect(chance: u8, attacker: BattlePlayer, attacker_index: usize, rolls: Seq<u8>) -> Seq<BattleCommand> {
    if rolls[0] > chance {
        seq![]
    } else {
        match spec_active(attacker) {
            Some(p) => seq![
                BattleCommand::AddAnte {
                    target: spec_from_index(attacker_index as int),
                    amount: (p.level * 2) as u32,
                },
            ],
            None => seq![],
        }
    }
}

/// Adds to the attacker's ante (see `spec_ante_effect`); uses one roll.
pub(crate) fn apply_ante_effect(
    chance: u8,
    context: &EffectContext,
    state: &BattleState,
    rng: &mut TurnRng,
) -> (r: Vec<BattleCommand>)
    requires
        context.wf(),
        state.wf(),
        old(rng).remaining().len() >= 1,
    ensures
        spec_cmds_safe(r@),
        r@ == spec_ante_effect(
            chance,
            state.players[context.attacker_index as int],
            context.attacker_index,
            old(rng).remaining(),
        ),
        final(rng).remaining() == old(rng).remaining().drop_first(),
{
    let mut commands: Vec<BattleCommand> = Vec::new();
    let roll = rng.next_outcome("Apply Ante Check");
    if roll > chance {
        return commands;
    }
    let attacker_player = &state.players[context.attacker_index];
    if let Some(attacker_pokemon) = attacker_player.active_pokemon() {
        let pokemon_level = attacker_pokemon.level as u32;
        let ante_amount = pokemon_level * 2;
        commands.push(
            BattleCommand::AddAnte {
                target: PlayerTarget::from_index(context.attacker_index),
                amount: ante_amount,
            },
        );
    }
    commands
}

/// Recoil: the attacker takes `percentage` percent of the damage dealt, when positive.
pub open spec fn spec_recoil_effect(percentage: u8, attacker_index: usize, damage_dealt: u16) -> Seq<BattleCommand> {
    let amount = spec_percent_of(damage_dealt, percentage);
    if amount > 0 {
        seq![BattleCommand::DealDamage { target: spec_from_index(attacker_index as int), amount: amount as u16 }]
    } else {
        seq![]
    }
}

/// Hurts the attacker by a share of the damage it dealt (see `spec_recoil_effect`).
pub(crate) fn apply_recoil_effect(percentage: u8, context: &EffectContext, damage_dealt: u16) -> (r: Vec<
    BattleCommand,
>)
    requires
        context.wf(),
    ensures
        spec_cmds_safe(r@),
        r@ == spec_recoil_effect(percentage, context.attacker_index, damage_dealt),
{
    let mut commands: Vec<BattleCommand> = Vec::new();
    let recoil_damage = percent_of(damage_dealt, percentage);
    if recoil_damage > 0 {
        commands.push(
            BattleCommand::DealDamage {
                target: PlayerTarget::from_index(context.attacker_index),
                amount: recoil_damage,
            },
        );
    }
    commands
}

/// Drain: a present attacker that has not fainted and is below full HP heals
/// `percentage` percent of the damage dealt, when positive.
pub open spec fn spec_drain_effect(percentage: u8, attacker: BattlePlayer, attacker_index: usize, damage_dealt: u16) -> Seq<BattleCommand> {
    let amount = spec_percent_of(damage_dealt, percentage);
    match spec_active(attacker) {
        Some(p) => if amount > 0 && p.curr_hp != 0 && p.curr_hp < p.stats.hp {
            seq![
                BattleCommand::HealPokemon {
                    target: spec_from_index(attacker_index as int),
                    amount: amount as u16,
                },
            ]
        } else {
            seq![]
        },
        None => seq![],
    }
}

/// Heals the attacker by a share of the damage it dealt (see `spec_drain_effect`).
pub(crate) fn apply_drain_effect(
    percentage: u8,
    context: &EffectContext,
    state: &BattleState,
    damage_dealt: u16,
) -> (r: Vec<BattleCommand>)
    requires
        context.wf(),
        state.wf(),
    ensures
        spec_cmds_safe(r@),
        r@ == spec_drain_effect(
            percentage,
            state.players[context.attacker_index as int],
            context.attacker_index,
            damage_dealt,
        ),
{
    let mut commands: Vec<BattleCommand> = Vec::new();
    let heal_amount = percent_of(damage_dealt, percentage);
    if heal_amount > 0 {
        let attacker_player = &state.players[context.attacker_index];
        if let Some(attacker_pokemon) = attacker_player.active_pokemon() {
            if !attacker_pokemon.is_fainted() && attacker_pokemon.current_hp()
                < attacker_pokemon.max_hp() {
                commands.push(
                    BattleCommand::HealPokemon {
                        target: PlayerTarget::from_index(context.attacker_index),
                        amount: heal_amount,
                    },
                );
            }
        }
    }
    commands
}

/// Reckless: a present attacker whose move missed takes `percentage` percent of its
/// maximum HP, when positive.
pub open spec fn spec_reckless_effect(percentage: u8, attacker: BattlePlayer, attacker_index: usize) -> Seq<BattleCommand> {
    match spec_active(attacker) {
        Some(p) => {
            let amount = spec_percent_of(p.stats.hp, percentage);
            if amount > 0 {
                seq![
                    BattleCommand::DealDamage {
                        target: spec_from_index(attacker_index as int),
                        amount: amount as u16,
                    },
                ]
            } else {
                seq![]
            }
        },
        None => seq![],
    }
}

/// Hurts an attacker whose move missed (see `spec_reckless_effect`).
pub(crate) fn apply_reckless_effect(percentage: u8, context: &EffectContext, state: &BattleState) -> (r:
    Vec<BattleCommand>)
    requires
        context.wf(),
        state.wf(),
    ensures
        spec_cmds_safe(r@),
        r@ == spec_reckless_effect(
            percentage,
            state.players[context.attacker_index as int],
            context.attacker_index,
        ),
{
    let mut commands: Vec<BattleCommand> = Vec::new();
    let attacker_player = &state.players[context.attacker_index];
    if let Some(attacker_pokemon) = attacker_player.active_pokemon() {
        let max_hp = attacker_pokemon.max_hp();
        let recoil_damage = percent_of(max_hp, percentage);
        if recoil_damage > 0 {
            commands.push(
                BattleCommand::DealDamage {
                    target: PlayerTarget::from_index(context.attacker_index),
                    amount: recoil_damage,
                },
            );
        }
    }
    commands
}

} // verus!
