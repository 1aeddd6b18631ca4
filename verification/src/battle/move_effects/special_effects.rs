//! Effects that change how a move plays out: two-turn moves, transformations, substitutes,
//! stored damage, called moves and self-destruction. Each gives whether the rest of the
//! move is skipped, and its commands.
use vstd::prelude::*;

use super::{EffectContext, EffectResult};
use crate::battle::action_stack::BattleAction;
use crate::battle::commands::{spec_cmds_safe, spec_from_index, BattleCommand, PlayerTarget};
use crate::battle::conditions::{PokemonCondition, PokemonConditionType};
use crate::battle::state::{ActionFailureReason, BattleEvent, BattleState, TurnRng};
use crate::moves::Move;
use crate::player::{spec_active, spec_current_types, BattlePlayer};
use crate::pokemon::StatusCondition;
use crate::schema::TeamCondition;

verus! {

/// A two-turn move on the attacker's side: if the attacker has the condition of kind `kind`
/// the move goes ahead and the condition is removed; otherwise a present attacker gets
/// `condition` and the rest of the move is skipped.
pub open spec fn spec_two_turn_effect(
    attacker: BattlePlayer,
    attacker_index: usize,
    kind: PokemonConditionType,
    condition: PokemonCondition,
) -> (bool, Seq<BattleCommand>) {
    if attacker.active_pokemon_conditions.view().dom().contains(kind) {
        (
            false,
            seq![BattleCommand::RemoveCondition { target: spec_from_index(attacker_index as int), condition_type: kind }],
        )
    } else if spec_active(attacker) is Some {
        (true, seq![BattleCommand::AddCondition { target: spec_from_index(attacker_index as int), condition }])
    } else {
        (false, seq![])
    }
}

fn two_turn_effect(
    context: &EffectContext,
    state: &BattleState,
    kind: PokemonConditionType,
    condition: PokemonCondition,
) -> (r: EffectResult)
    requires
        context.wf(),
        state.wf(),
    ensures
        spec_cmds_safe(r.commands()),
        r !is Ensured,
        (r.skips(), r.commands()) == spec_two_turn_effect(
            state.players[context.attacker_index as int],
            context.attacker_index,
            kind,
            condition,
        ),
{
    let attacker_player = &state.players[context.attacker_index];
    let attacker_target = PlayerTarget::from_index(context.attacker_index);
    if attacker_player.has_condition_type(kind) {
        let commands = vec![BattleCommand::RemoveCondition { target: attacker_target, condition_type: kind }];
        return EffectResult::Continue(commands);
    }
    if attacker_player.active_pokemon().is_some() {
        let commands = vec![BattleCommand::AddCondition { target: attacker_target, condition }];
        return EffectResult::Skip(commands);
    }
    EffectResult::Continue(Vec::new())
}

/// Fly: first turn in the air, second turn the attack.
pub(crate) fn apply_in_air_special(context: &EffectContext, state: &BattleState) -> (r: EffectResult)
    requires
        context.wf(),
        state.wf(),
    ensures
        spec_cmds_safe(r.commands()),
        r !is Ensured,
        (r.skips(), r.commands()) == spec_two_turn_effect(
            state.players[context.attacker_index as int],
            context.attacker_index,
            PokemonConditionType::InAir,
            PokemonCondition::InAir,
        ),
{
    two_turn_effect(context, state, PokemonConditionType::InAir, PokemonCondition::InAir)
}

/// Charging moves: first turn charging, second turn the attack.
pub(crate) fn apply_charge_up_special(context: &EffectContext, state: &BattleState) -> (r: EffectResult)
    requires
        context.wf(),
        state.wf(),
    ensures
        spec_cmds_safe(r.commands()),
        r !is Ensured,
        (r.skips(), r.commands()) == spec_two_turn_effect(
            state.players[context.attacker_index as int],
            context.attacker_index,
            PokemonConditionType::Charging,
            PokemonCondition::Charging,
        ),
{
    two_turn_effect(context, state, PokemonConditionType::Charging, PokemonCondition::Charging)
}

/// Dig: first turn underground, second turn the attack.
pub(crate) fn apply_underground_special(context: &EffectContext, state: &BattleState) -> (r: EffectResult)
    requires
        context.wf(),
        state.wf(),
    ensures
        spec_cmds_safe(r.commands()),
        r !is Ensured,
        (r.skips(), r.commands()) == spec_two_turn_effect(
            state.players[context.attacker_index as int],
            context.attacker_index,
            PokemonConditionType::Underground,
            PokemonCondition::Underground,
        ),
{
    two_turn_effect(context, state, PokemonConditionType::Underground, PokemonCondition::Underground)
}

/// A present attacker gets `condition` and the rest of the move is skipped (when `skip`)
/// or goes on; without an attacker nothing happens and the move goes on.
pub open spec fn spec_self_condition(attacker: BattlePlayer, attacker_index: usize, condition: PokemonCondition, skip: bool) -> (bool, Seq<BattleCommand>) {
    if spec_active(attacker) is Some {
        (skip, seq![BattleCommand::AddCondition { target: spec_from_index(attacker_index as int), condition }])
    } else {
        (false, seq![])
    }
}

fn self_condition(context: &EffectContext, state: &BattleState, condition: PokemonCondition, skip: bool) -> (r:
    EffectResult)
    requires
        context.wf(),
        state.wf(),
    ensures
        spec_cmds_safe(r.commands()),
        r !is Ensured,
        (r.skips(), r.commands()) == spec_self_condition(
            state.players[context.attacker_index as int],
            context.attacker_index,
            condition,
            skip,
        ),
{
    if state.players[context.attacker_index].active_pokemon().is_some() {
        let commands = vec![
            BattleCommand::AddCondition { target: PlayerTarget::from_index(context.attacker_index), condition },
        ];
        if skip {
            return EffectResult::Skip(commands);
        } else {
            return EffectResult::Continue(commands);
        }
    }
    EffectResult::Continue(Vec::new())
}

/// Teleport: the attacker leaves the field, skipping the rest of the move.
pub(crate) fn apply_teleport_special(context: &EffectContext, state: &BattleState) -> (r: EffectResult)
    requires
        context.wf(),
        state.wf(),
    ensures
        spec_cmds_safe(r.commands()),
        r !is Ensured,
        (r.skips(), r.commands()) == spec_self_condition(
            state.players[context.attacker_index as int],
            context.attacker_index,
            PokemonCondition::Teleported,
            true,
        ),
{
    self_condition(context, state, PokemonCondition::Teleported, true)
}

/// Counter: the attacker starts countering with no damage stored.
pub(crate) fn apply_counter_special(context: &EffectContext, state: &BattleState) -> (r: EffectResult)
    requires
        context.wf(),
        state.wf(),
    ensures
        spec_cmds_safe(r.commands()),
        r !is Ensured,
        (r.skips(), r.commands()) == spec_self_condition(
            state.players[context.attacker_index as int],
            context.attacker_index,
            PokemonCondition::Countering { damage: 0 },
            true,
        ),
{
    self_condition(context, state, PokemonCondition::Countering { damage: 0 }, true)
}

/// Rage: the attacker becomes enraged and the move goes on.
pub(crate) fn apply_rage_special(context: &EffectContext, state: &BattleState) -> (r: EffectResult)
    requires
        context.wf(),
        state.wf(),
    ensures
        spec_cmds_safe(r.commands()),
        r !is Ensured,
        (r.skips(), r.commands()) == spec_self_condition(
            state.players[context.attacker_index as int],
            context.attacker_index,
            PokemonCondition::Enraged,
            false,
        ),
{
    self_condition(context, state, PokemonCondition::Enraged, false)
}

/// Transform: with both Pokemon present the attacker becomes a copy of the defender's.
pub open spec fn spec_transform_special(attacker: BattlePlayer, attacker_index: usize, defender: BattlePlayer) -> (bool, Seq<BattleCommand>) {
    match (spec_active(attacker), spec_active(defender)) {
        (Some(_), Some(t)) => (
            true,
            seq![
                BattleCommand::AddCondition {
                    target: spec_from_index(attacker_index as int),
                    condition: PokemonCondition::Transformed { target: t },
                },
            ],
        ),
        _ => (false, seq![]),
    }
}

/// Transforms the attacker (see `spec_transform_special`).
pub(crate) fn apply_transform_special(context: &EffectContext, state: &BattleState) -> (r: EffectResult)
    requires
        context.wf(),
        state.wf(),
    ensures
        spec_cmds_safe(r.commands()),
        r !is Ensured,
        (r.skips(), r.commands()) == spec_transform_special(
            state.players[context.attacker_index as int],
            context.attacker_index,
            state.players[context.defender_index as int],
        ),
{
    let attacker_player = &state.players[context.attacker_index];
    let defender_player = &state.players[context.defender_index];
    if let (Some(_), Some(target_pokemon)) = (attacker_player.active_pokemon(), defender_player.active_pokemon()) {
        let commands = vec![
            BattleCommand::AddCondition {
                target: PlayerTarget::from_index(context.attacker_index),
                condition: PokemonCondition::Transformed { target: *target_pokemon },
            },
        ];
        return EffectResult::Skip(commands);
    }
    EffectResult::Continue(Vec::new())
}

/// Conversion: with both Pokemon present the attacker takes the first current type of the
/// defender.
pub open spec fn spec_conversion_special(attacker: BattlePlayer, attacker_index: usize, defender: BattlePlayer) -> (bool, Seq<BattleCommand>) {
    match (spec_active(attacker), spec_active(defender)) {
        (Some(_), Some(t)) => (
            true,
            seq![
                BattleCommand::AddCondition {
                    target: spec_from_index(attacker_index as int),
                    condition: PokemonCondition::Converted {
                        pokemon_type: spec_current_types(t, defender)[0],
                    },
                },
            ],
        ),
        _ => (false, seq![]),
    }
}

/// Converts the attacker's type (see `spec_conversion_special`).
pub(crate) fn apply_conversion_special(context: &EffectContext, state: &BattleState) -> (r: EffectResult)
    requires
        context.wf(),
        state.wf(),
    ensures
        spec_cmds_safe(r.commands()),
        r !is Ensured,
        (r.skips(), r.commands()) == spec_conversion_special(
            state.players[context.attacker_index as int],
            context.attacker_index,
            state.players[context.defender_index as int],
        ),
{
    let attacker_player = &state.players[context.attacker_index];
    let defender_player = &state.players[context.defender_index];
    if let (Some(_), Some(target_pokemon)) = (attacker_player.active_pokemon(), defender_player.active_pokemon()) {
        let types = target_pokemon.get_current_types(defender_player);
        let commands = vec![
            BattleCommand::AddCondition {
                target: PlayerTarget::from_index(context.attacker_index),
                condition: PokemonCondition::Converted { pokemon_type: types[0] },
            },
        ];
        return EffectResult::Skip(commands);
    }
    EffectResult::Continue(Vec::new())
}

/// The HP of a substitute made from `max_hp`: a quarter of it, at least 1, kept to 8 bits.
pub open spec fn spec_substitute_hp(max_hp: u16) -> u8 {
    let quarter: nat = if max_hp / 4 >= 1 {
        (max_hp / 4) as nat
    } else {
        1
    };
    (quarter % 256) as u8
}

/// Substitute: a present attacker puts up a substitute (see `spec_substitute_hp`).
pub open spec fn spec_substitute_special(attacker: BattlePlayer, attacker_index: usize) -> (bool, Seq<BattleCommand>) {
    match spec_active(attacker) {
        Some(p) => (
            true,
            seq![
                BattleCommand::AddCondition {
                    target: spec_from_index(attacker_index as int),
                    condition: PokemonCondition::Substitute { hp: spec_substitute_hp(p.stats.hp) },
                },
            ],
        ),
        None => (false, seq![]),
    }
}

/// Puts up a substitute (see `spec_substitute_special`).
pub(crate) fn apply_substitute_special(context: &EffectContext, state: &BattleState) -> (r: EffectResult)
    requires
        context.wf(),
        state.wf(),
    ensures
        spec_cmds_safe(r.commands()),
        r !is Ensured,
        (r.skips(), r.commands()) == spec_substitute_special(
            state.players[context.attacker_index as int],
            context.attacker_index,
        ),
{
    if let Some(attacker_pokemon) = state.players[context.attacker_index].active_pokemon() {
        let quarter = attacker_pokemon.max_hp() / 4;
        let hp16: u16 = if quarter >= 1 {
            quarter
        } else {
            1
        };
        let substitute_hp = (hp16 % 256) as u8;
        let commands = vec![
            BattleCommand::AddCondition {
                target: PlayerTarget::from_index(context.attacker_index),
                condition: PokemonCondition::Substitute { hp: substitute_hp },
            },
        ];
        return EffectResult::Skip(commands);
    }
    EffectResult::Continue(Vec::new())
}

/// Rampage: a present attacker that is rampaging with turns left goes on; one whose rampage
/// has run out becomes confused for two turns; otherwise one roll starts a rampage of one
/// turn (at most 50) or two. The move always goes on.
pub open spec fn spec_rampage_special(attacker: BattlePlayer, attacker_index: usize, rolls: Seq<u8>) -> (bool, Seq<BattleCommand>, nat) {
    if spec_active(attacker) is None {
        (false, seq![], 0)
    } else {
        match attacker.active_pokemon_conditions.spec_get(PokemonConditionType::Rampaging) {
            Some(PokemonCondition::Rampaging { turns_remaining }) => if turns_remaining > 0 {
                (false, seq![], 0)
            } else {
                (
                    false,
                    seq![
                        BattleCommand::AddCondition {
                            target: spec_from_index(attacker_index as int),
                            condition: PokemonCondition::Confused { turns_remaining: 2 },
                        },
                    ],
                    0,
                )
            },
            _ => (
                false,
                seq![
                    BattleCommand::AddCondition {
                        target: spec_from_index(attacker_index as int),
                        condition: PokemonCondition::Rampaging {
                            turns_remaining: if rolls[0] <= 50 { 1 } else { 2 },
                        },
                    },
                ],
                1,
            ),
        }
    }
}

/// Starts or ends a rampage (see `spec_rampage_special`).
pub(crate) fn apply_rampage_special(context: &EffectContext, state: &BattleState, rng: &mut TurnRng) -> (r:
    EffectResult)
    requires
        context.wf(),
        state.wf(),
        spec_rampage_special(
                state.players[context.attacker_index as int],
                context.attacker_index,
                old(rng).remaining(),
            ).2 <= old(rng).remaining().len(),
    ensures
        spec_cmds_safe(r.commands()),
        ({
            let (skip, cmds, used) = spec_rampage_special(
                state.players[context.attacker_index as int],
                context.attacker_index,
                old(rng).remaining(),
            );
            r !is Ensured && r.skips() == skip && r.commands() == cmds && final(rng).remaining() == old(
                rng,
            ).remaining().skip(used as int)
        }),
{
    let attacker_player = &state.players[context.attacker_index];
    assert(old(rng).remaining().skip(0) =~= old(rng).remaining());
    if attacker_player.active_pokemon().is_none() {
        return EffectResult::Continue(Vec::new());
    }
    if let Some(PokemonCondition::Rampaging { turns_remaining }) = attacker_player.active_pokemon_conditions.get(
        PokemonConditionType::Rampaging,
    ) {
        if turns_remaining > 0 {
            return EffectResult::Continue(Vec::new());
        } else {
            let commands = vec![
                BattleCommand::AddCondition {
                    target: PlayerTarget::from_index(context.attacker_index),
                    condition: PokemonCondition::Confused { turns_remaining: 2 },
                },
            ];
            return EffectResult::Continue(commands);
        }
    }
    let turns: u8 = if rng.next_outcome("Generate Rampage Duration") <= 50 {
        1
    } else {
        2
    };
    assert(old(rng).remaining().skip(1) =~= old(rng).remaining().drop_first());
    let commands = vec![
        BattleCommand::AddCondition {
            target: PlayerTarget::from_index(context.attacker_index),
            condition: PokemonCondition::Rampaging { turns_remaining: turns },
        },
    ];
    EffectResult::Continue(commands)
}

/// Explosion: a present attacker takes damage equal to its current HP.
pub open spec fn spec_explode_special(attacker: BattlePlayer, attacker_index: usize) -> (bool, Seq<BattleCommand>) {
    match spec_active(attacker) {
        Some(p) => (
            false,
            seq![BattleCommand::DealDamage { target: spec_from_index(attacker_index as int), amount: p.curr_hp }],
        ),
        None => (false, seq![]),
    }
}

/// Makes the attacker faint by its own move (see `spec_explode_special`).
pub(crate) fn apply_explode_special(context: &EffectContext, state: &BattleState) -> (r: EffectResult)
    requires
        context.wf(),
        state.wf(),
    ensures
        spec_cmds_safe(r.commands()),
        r !is Ensured,
        (r.skips(), r.commands()) == spec_explode_special(
            state.players[context.attacker_index as int],
            context.attacker_index,
        ),
{
    if let Some(attacker_pokemon) = state.players[context.attacker_index].active_pokemon() {
        let commands = vec![
            BattleCommand::DealDamage {
                target: PlayerTarget::from_index(context.attacker_index),
                amount: attacker_pokemon.current_hp(),
            },
        ];
        return EffectResult::Continue(commands);
    }
    EffectResult::Continue(Vec::new())
}

/// Twice the stored Bide damage, wrapping at 16 bits, and at least 1.
pub open spec fn spec_bide_release(stored: u16) -> u16 {
    let doubled = ((stored as nat * 2) % 65536) as u16;
    if doubled >= 1 {
        doubled
    } else {
        1
    }
}

/// Bide: a biding attacker whose turns have run out releases its stored damage on the
/// defender (see `spec_bide_release`); one still biding does nothing; otherwise a present
/// attacker starts biding for `turns` turns. All but the last case skip the rest of the move.
pub open spec fn spec_bide_special(turns: u8, attacker: BattlePlayer, attacker_index: usize, defender_index: usize) -> (bool, Seq<BattleCommand>) {
    match attacker.active_pokemon_conditions.spec_get(PokemonConditionType::Biding) {
        Some(PokemonCondition::Biding { turns_remaining, damage }) => if turns_remaining < 1 {
            (
                true,
                seq![
                    BattleCommand::DealDamage {
                        target: spec_from_index(defender_index as int),
                        amount: spec_bide_release(damage),
                    },
                ],
            )
        } else {
            (true, seq![])
        },
        _ => if spec_active(attacker) is Some {
            (
                true,
                seq![
                    BattleCommand::AddCondition {
                        target: spec_from_index(attacker_index as int),
                        condition: PokemonCondition::Biding { turns_remaining: turns, damage: 0 },
                    },
                ],
            )
        } else {
            (false, seq![])
        },
    }
}

/// Stores or releases damage (see `spec_bide_special`).
pub(crate) fn apply_bide_special(turns: u8, context: &EffectContext, state: &BattleState) -> (r: EffectResult)
    requires
        context.wf(),
        state.wf(),
    ensures
        spec_cmds_safe(r.commands()),
        r !is Ensured,
        (r.skips(), r.commands()) == spec_bide_special(
            turns,
            state.players[context.attacker_index as int],
            context.attacker_index,
            context.defender_index,
        ),
{
    let attacker_player = &state.players[context.attacker_index];
    if let Some(PokemonCondition::Biding { turns_remaining, damage }) = attacker_player.active_pokemon_conditions.get(
        PokemonConditionType::Biding,
    ) {
        if turns_remaining < 1 {
            let doubled = damage.wrapping_mul(2);
            let damage_to_deal: u16 = if doubled >= 1 {
                doubled
            } else {
                1
            };
            assert(doubled == ((damage as nat * 2) % 65536) as u16);
            let commands = vec![
                BattleCommand::DealDamage {
                    target: PlayerTarget::from_index(context.defender_index),
                    amount: damage_to_deal,
                },
            ];
            return EffectResult::Skip(commands);
        } else {
            return EffectResult::Skip(Vec::new());
        }
    }
    if attacker_player.active_pokemon().is_some() {
        let commands = vec![
            BattleCommand::AddCondition {
                target: PlayerTarget::from_index(context.attacker_index),
                condition: PokemonCondition::Biding { turns_remaining: turns, damage: 0 },
            },
        ];
        return EffectResult::Skip(commands);
    }
    EffectResult::Continue(Vec::new())
}

/// Rest: a present attacker heals to full (when below it), loses its status, and falls
/// asleep for `sleep_turns` turns; the rest of the move is skipped.
pub open spec fn spec_rest_special(sleep_turns: u8, attacker: BattlePlayer, attacker_index: usize) -> (bool, Seq<BattleCommand>) {
    match spec_active(attacker) {
        Some(p) => {
            let t = spec_from_index(attacker_index as int);
            let heal = if p.curr_hp < p.stats.hp {
                seq![BattleCommand::HealPokemon { target: t, amount: p.stats.hp }]
            } else {
                seq![]
            };
            let cure = match p.status {
                Some(s) => seq![BattleCommand::CurePokemonStatus { target: t, status: s }],
                None => seq![],
            };
            (
                true,
                heal + cure + seq![
                    BattleCommand::SetPokemonStatus { target: t, status: StatusCondition::Sleep(sleep_turns) },
                ],
            )
        },
        None => (false, seq![]),
    }
}

/// Rests (see `spec_rest_special`).
pub(crate) fn apply_rest_special(sleep_turns: u8, context: &EffectContext, state: &BattleState) -> (r:
    EffectResult)
    requires
        context.wf(),
        state.wf(),
    ensures
        spec_cmds_safe(r.commands()),
        r !is Ensured,
        (r.skips(), r.commands()) == spec_rest_special(
            sleep_turns,
            state.players[context.attacker_index as int],
            context.attacker_index,
        ),
{
    if let Some(attacker_pokemon) = state.players[context.attacker_index].active_pokemon() {
        let mut commands: Vec<BattleCommand> = Vec::new();
        let t = PlayerTarget::from_index(context.attacker_index);
        if attacker_pokemon.current_hp() < attacker_pokemon.max_hp() {
            commands.push(BattleCommand::HealPokemon { target: t, amount: attacker_pokemon.max_hp() });
        }
        if let Some(existing_status) = attacker_pokemon.status {
            commands.push(BattleCommand::CurePokemonStatus { target: t, status: existing_status });
        }
        commands.push(BattleCommand::SetPokemonStatus { target: t, status: StatusCondition::Sleep(sleep_turns) });
        proof {
            let (_, cmds) = spec_rest_special(
                sleep_turns,
                state.players[context.attacker_index as int],
                context.attacker_index,
            );
            assert(commands@ =~= cmds);
        }
        return EffectResult::Skip(commands);
    }
    EffectResult::Continue(Vec::new())
}

/// The event of a move that could not be executed.
pub open spec fn spec_mirror_move_failed() -> BattleCommand {
    BattleCommand::EmitEvent(
        BattleEvent::ActionFailed { reason: ActionFailureReason::MoveFailedToExecute { move_used: Move::MirrorMove } },
    )
}

/// The commands that use `m` in place of the calling move: the event that the attacker used
/// it, then its first hit.
pub open spec fn spec_called_move(attacker: BattlePlayer, attacker_index: usize, defender_index: usize, m: Move) -> Seq<BattleCommand> {
    seq![
        BattleCommand::EmitEvent(
            BattleEvent::MoveUsed {
                player_index: attacker_index,
                pokemon: spec_active(attacker).unwrap().species,
                move_used: m,
            },
        ),
        BattleCommand::PushAction(
            BattleAction::AttackHit { attacker_index, defender_index, move_used: m, hit_number: 1 },
        ),
    ]
}

/// Mirror Move: a present attacker uses the defender's last move, unless that was Mirror
/// Move itself or there is none, in which case the move fails. The rest of the move is skipped.
pub open spec fn spec_mirror_move_special(attacker: BattlePlayer, attacker_index: usize, defender: BattlePlayer, defender_index: usize) -> (bool, Seq<BattleCommand>) {
    match defender.last_move {
        Some(m) => if m == Move::MirrorMove || spec_active(attacker) is None {
            (true, seq![spec_mirror_move_failed()])
        } else {
            (true, spec_called_move(attacker, attacker_index, defender_index, m))
        },
        None => (true, seq![spec_mirror_move_failed()]),
    }
}

fn called_move(context: &EffectContext, state: &BattleState, m: Move) -> (r: Vec<BattleCommand>)
    requires
        context.wf(),
        state.wf(),
        spec_active(state.players[context.attacker_index as int]) is Some,
    ensures
        spec_cmds_safe(r@),
        r@ == spec_called_move(
            state.players[context.attacker_index as int],
            context.attacker_index,
            context.defender_index,
            m,
        ),
{
    let attacker_pokemon = state.players[context.attacker_index].active_pokemon().unwrap();
    let action = BattleAction::AttackHit {
        attacker_index: context.attacker_index,
        defender_index: context.defender_index,
        move_used: m,
        hit_number: 1,
    };
    let r = vec![
        BattleCommand::EmitEvent(
            BattleEvent::MoveUsed {
                player_index: context.attacker_index,
                pokemon: attacker_pokemon.species,
                move_used: m,
            },
        ),
        BattleCommand::PushAction(action),
    ];
    assert(r@ =~= spec_called_move(
        state.players[context.attacker_index as int],
        context.attacker_index,
        context.defender_index,
        m,
    ));
    r
}

fn mirror_move_failed() -> (r: Vec<BattleCommand>)
    ensures
        spec_cmds_safe(r@),
        r@ == seq![spec_mirror_move_failed()],
{
    let r = vec![
        BattleCommand::EmitEvent(
            BattleEvent::ActionFailed {
                reason: ActionFailureReason::MoveFailedToExecute { move_used: Move::MirrorMove },
            },
        ),
    ];
    assert(r@ =~= seq![spec_mirror_move_failed()]);
    r
}

/// Copies the defender's last move (see `spec_mirror_move_special`).
pub(crate) fn apply_mirror_move_special(context: &EffectContext, state: &BattleState) -> (r: EffectResult)
    requires
        context.wf(),
        state.wf(),
    ensures
        spec_cmds_safe(r.commands()),
        r !is Ensured,
        (r.skips(), r.commands()) == spec_mirror_move_special(
            state.players[context.attacker_index as int],
            context.attacker_index,
            state.players[context.defender_index as int],
            context.defender_index,
        ),
{
    let defender_player = &state.players[context.defender_index];
    if let Some(mirrored_move) = defender_player.last_move {
        if mirrored_move == Move::MirrorMove {
            return EffectResult::Skip(mirror_move_failed());
        }
        if state.players[context.attacker_index].active_pokemon().is_some() {
            return EffectResult::Skip(called_move(context, state, mirrored_move));
        }
    }
    EffectResult::Skip(mirror_move_failed())
}

/// The moves Metronome picks from, by `roll % 5`.
pub open spec fn spec_metronome_move(roll: u8) -> Move {
    let i = roll % 5;
    if i == 0 {
        Move::Tackle
    } else if i == 1 {
        Move::Ember
    } else if i == 2 {
        Move::WaterGun
    } else if i == 3 {
        Move::VineWhip
    } else {
        Move::ThunderPunch
    }
}

/// Metronome: one roll picks a move (see `spec_metronome_move`), which a present attacker
/// then uses, skipping the rest of the calling move.
pub open spec fn spec_metronome_special(attacker: BattlePlayer, attacker_index: usize, defender_index: usize, rolls: Seq<u8>) -> (bool, Seq<BattleCommand>) {
    if spec_active(attacker) is Some {
        (true, spec_called_move(attacker, attacker_index, defender_index, spec_metronome_move(rolls[0])))
    } else {
        (false, seq![])
    }
}

/// Uses a random move (see `spec_metronome_special`); uses one roll.
pub(crate) fn apply_metronome_special(context: &EffectContext, state: &BattleState, rng: &mut TurnRng) -> (r:
    EffectResult)
    requires
        context.wf(),
        state.wf(),
        old(rng).remaining().len() >= 1,
    ensures
        spec_cmds_safe(r.commands()),
        r !is Ensured,
        (r.skips(), r.commands()) == spec_metronome_special(
            state.players[context.attacker_index as int],
            context.attacker_index,
            context.defender_index,
            old(rng).remaining(),
        ),
        final(rng).remaining() == old(rng).remaining().drop_first(),
{
    let all_moves: [Move; 5] = [Move::Tackle, Move::Ember, Move::WaterGun, Move::VineWhip, Move::ThunderPunch];
    let random_index = (rng.next_outcome("Generate Metronome Move Select") as usize) % 5;
    let selected_move = all_moves[random_index];
    assert(selected_move == spec_metronome_move(old(rng).remaining()[0]));
    if state.players[context.attacker_index].active_pokemon().is_some() {
        return EffectResult::Skip(called_move(context, state, selected_move));
    }
    EffectResult::Continue(Vec::new())
}

/// The team condition set by a move, on the attacker's side.
pub open spec fn spec_team_condition_effect(condition: TeamCondition, turns: u8, attacker_index: usize) -> Seq<BattleCommand> {
    seq![BattleCommand::AddTeamCondition { target: spec_from_index(attacker_index as int), condition, turns }]
}

/// Sets a team condition on the attacker's side.
pub(crate) fn apply_team_condition_effect(condition: &TeamCondition, turns: u8, context: &EffectContext) -> (r:
    Vec<BattleCommand>)
    requires
        context.wf(),
    ensures
        spec_cmds_safe(r@),
        r@ == spec_team_condition_effect(*condition, turns, context.attacker_index),
{
    let r = vec![
        BattleCommand::AddTeamCondition {
            target: PlayerTarget::from_index(context.attacker_index),
            condition: *condition,
            turns,
        },
    ];
    assert(r@ =~= spec_team_condition_effect(*condition, turns, context.attacker_index));
    r
}

} // verus!
