//! Turn calculations that read the battle state and return the commands that carry them
//! out: attacks, end-of-turn effects, forced actions, action prevention, switches and
//! forfeits.
use vstd::prelude::*;

use crate::battle::commands::{
    lemma_safe_concat, spec_cmd_safe, spec_cmds_safe, spec_from_index, BattleCommand, PlayerTarget,
};
use crate::battle::conditions::{
    spec_on_damage_taken, PokemonCondition, PokemonConditionType,
};
use crate::battle::move_effects::{
    spec_apply_effect, spec_damage_based_effects, spec_has_substitute, spec_miss_based_effects,
    spec_multi_hit_continuation, BattleMoveDataExt, BattleMoveEffectExt, EffectContext, EffectResult,
};
use crate::battle::state::{ActionFailureReason, BattleEvent, BattleState, GameState, TurnRng};
use crate::battle::stats::{
    calculate_attack_damage, calculate_special_attack_damage, get_type_effectiveness, move_hits,
    move_is_critical_hit, spec_adjusted_accuracy_stage, spec_attack_damage, spec_can_crit,
    spec_crit_ratio, spec_crit_threshold, spec_damage_rolls, spec_effectiveness_percent,
    spec_hit_check_rolls, spec_modified_accuracy, spec_special_damage,
};
use crate::moves::{spec_move_accuracy, spec_move_category, spec_move_effects, spec_move_type, Move, MoveData, MoveEffect};
use crate::player::{spec_active, spec_current_types, spec_stage, BattlePlayer};
use crate::pokemon::PokemonInst;
use crate::schema::{MoveCategory, StatType};

verus! {

/// The attacker and defender of an attack, or the event of the first one missing: the
/// attacker's absence is reported as fainted, the defender's as no enemy present.
pub open spec fn spec_participation(attacker_player: BattlePlayer, defender_player: BattlePlayer) -> Result<(PokemonInst, PokemonInst), BattleCommand> {
    match (spec_active(attacker_player), spec_active(defender_player)) {
        (Some(a), Some(d)) => Ok((a, d)),
        (None, _) => Err(
            BattleCommand::EmitEvent(BattleEvent::ActionFailed { reason: ActionFailureReason::PokemonFainted }),
        ),
        (Some(_), None) => Err(
            BattleCommand::EmitEvent(BattleEvent::ActionFailed { reason: ActionFailureReason::NoEnemyPresent }),
        ),
    }
}

/// Both active Pokemon of an attack (see `spec_participation`).
pub fn validate_pokemon_participation<'a>(
    attacker_player: &'a BattlePlayer,
    defender_player: &'a BattlePlayer,
) -> (r: Result<(&'a PokemonInst, &'a PokemonInst), BattleCommand>)
    requires
        attacker_player.wf(),
        defender_player.wf(),
    ensures
        match (r, spec_participation(*attacker_player, *defender_player)) {
            (Ok((a, d)), Ok((sa, sd))) => *a == sa && *d == sd,
            (Err(c), Err(sc)) => c == sc,
            _ => false,
        },
{
    let attacker_pokemon = match attacker_player.active_pokemon() {
        Some(p) => p,
        None => {
            return Err(
                BattleCommand::EmitEvent(
                    BattleEvent::ActionFailed { reason: ActionFailureReason::PokemonFainted },
                ),
            )
        },
    };
    let defender_pokemon = match defender_player.active_pokemon() {
        Some(p) => p,
        None => {
            return Err(
                BattleCommand::EmitEvent(
                    BattleEvent::ActionFailed { reason: ActionFailureReason::NoEnemyPresent },
                ),
            )
        },
    };
    Ok((attacker_pokemon, defender_pokemon))
}

/// The type multiplier of a move against the defender, as a percentage: 100 for status moves.
pub open spec fn spec_type_percent(m: Move, defender: PokemonInst, defender_player: BattlePlayer) -> nat {
    if spec_move_category(m) == MoveCategory::Status {
        100
    } else {
        spec_effectiveness_percent(spec_move_type(m), spec_current_types(defender, defender_player))
    }
}

/// The effectiveness event of a move: emitted when the multiplier is not neutral.
pub open spec fn spec_type_event(m: Move, defender: PokemonInst, defender_player: BattlePlayer) -> Seq<BattleCommand> {
    let p = spec_type_percent(m, defender, defender_player);
    if p != 100 {
        seq![BattleCommand::EmitEvent(BattleEvent::AttackTypeEffectiveness { multiplier_percent: p as u16 })]
    } else {
        seq![]
    }
}

fn calculate_and_emit_type_effectiveness(
    move_used: Move,
    move_data: &MoveData,
    defender_pokemon: &PokemonInst,
    defender_player: &BattlePlayer,
    commands: &mut Vec<BattleCommand>,
) -> (r: u16)
    requires
        spec_cmds_safe(old(commands)@),
        crate::moves::spec_is_move_data(*move_data, move_used),
    ensures
        spec_cmds_safe(final(commands)@),
        r as nat == spec_type_percent(move_used, *defender_pokemon, *defender_player),
        final(commands)@ == old(commands)@ + spec_type_event(move_used, *defender_pokemon, *defender_player),
{
    if move_data.category == MoveCategory::Status {
        assert(old(commands)@ + seq![] =~= old(commands)@);
        return 100;
    }
    let defender_types = defender_pokemon.get_current_types(defender_player);
    let percent = get_type_effectiveness(move_data.move_type, &defender_types);
    if percent != 100 {
        commands.push(BattleCommand::EmitEvent(BattleEvent::AttackTypeEffectiveness { multiplier_percent: percent }));
    }
    assert(final(commands)@ =~= old(commands)@ + spec_type_event(move_used, *defender_pokemon, *defender_player));
    percent
}

/// The damage of a hit, its events, and the rolls used: fixed-damage moves deal their fixed
/// damage unless the defender is immune (multiplier 10% or less), using no roll; other moves
/// first decide a critical hit (reported by an event), then roll their damage. The damage
/// never exceeds the defender's current HP.
pub open spec fn spec_move_damage(
    attacker: PokemonInst,
    defender: PokemonInst,
    attacker_player: BattlePlayer,
    defender_player: BattlePlayer,
    m: Move,
    type_percent: nat,
    rolls: Seq<u8>,
) -> (nat, Seq<BattleCommand>, nat) {
    let theoretical: (nat, Seq<BattleCommand>, nat) = match spec_special_damage(spec_move_effects(m), defender.curr_hp) {
        Some(fixed) => (if type_percent > 10 { fixed as nat } else { 0 }, seq![], 0),
        None => {
            let crit_used: nat = if spec_can_crit(m) { 1 } else { 0 };
            let is_crit = spec_can_crit(m) && rolls[0] <= spec_crit_threshold(
                spec_crit_ratio(m, spec_stage(attacker_player.stat_stages, StatType::Crit)),
            );
            let events = if is_crit {
                seq![
                    BattleCommand::EmitEvent(
                        BattleEvent::CriticalHit { attacker: attacker.species, defender: defender.species, move_used: m },
                    ),
                ]
            } else {
                seq![]
            };
            if spec_damage_rolls(m) {
                (
                    spec_attack_damage(
                        attacker,
                        defender,
                        attacker_player,
                        defender_player,
                        m,
                        is_crit,
                        rolls[crit_used as int],
                    ),
                    events,
                    crit_used + 1,
                )
            } else {
                (0, events, crit_used)
            }
        },
    };
    (
        if theoretical.0 < defender.curr_hp {
            theoretical.0
        } else {
            defender.curr_hp as nat
        },
        theoretical.1,
        theoretical.2,
    )
}

fn calculate_move_damage(
    attacker_pokemon: &PokemonInst,
    defender_pokemon: &PokemonInst,
    attacker_player: &BattlePlayer,
    defender_player: &BattlePlayer,
    move_used: Move,
    type_percent: u16,
    rng: &mut TurnRng,
    commands: &mut Vec<BattleCommand>,
) -> (r: u16)
    requires
        spec_cmds_safe(old(commands)@),
        spec_move_damage(
            *attacker_pokemon,
            *defender_pokemon,
            *attacker_player,
            *defender_player,
            move_used,
            type_percent as nat,
            old(rng).remaining(),
        ).2 <= old(rng).remaining().len(),
    ensures
        spec_cmds_safe(final(commands)@),
        ({
            let (dmg, events, used) = spec_move_damage(
                *attacker_pokemon,
                *defender_pokemon,
                *attacker_player,
                *defender_player,
                move_used,
                type_percent as nat,
                old(rng).remaining(),
            );
            &&& r as nat == dmg
            &&& final(commands)@ == old(commands)@ + events
            &&& final(rng).remaining() == old(rng).remaining().skip(used as int)
        }),
{
    assert(old(rng).remaining().skip(0) =~= old(rng).remaining());
    let theoretical_damage: u16 = match calculate_special_attack_damage(move_used, attacker_pokemon, defender_pokemon) {
        Some(special_damage) => {
            assert(old(commands)@ + seq![] =~= old(commands)@);
            if type_percent > 10 {
                special_damage
            } else {
                0
            }
        },
        None => {
            let is_critical = move_is_critical_hit(attacker_pokemon, attacker_player, move_used, rng);
            if is_critical {
                commands.push(
                    BattleCommand::EmitEvent(
                        BattleEvent::CriticalHit {
                            attacker: attacker_pokemon.species,
                            defender: defender_pokemon.species,
                            move_used,
                        },
                    ),
                );
            }
            proof {
                let (_, events, _) = spec_move_damage(
                    *attacker_pokemon,
                    *defender_pokemon,
                    *attacker_player,
                    *defender_player,
                    move_used,
                    type_percent as nat,
                    old(rng).remaining(),
                );
                assert(commands@ =~= old(commands)@ + events);
                if spec_can_crit(move_used) {
                    assert(old(rng).remaining().skip(1) =~= old(rng).remaining().drop_first());
                    if spec_damage_rolls(move_used) {
                        assert(old(rng).remaining().skip(2) =~= old(rng).remaining().drop_first().drop_first());
                    }
                } else if spec_damage_rolls(move_used) {
                    assert(old(rng).remaining().skip(1) =~= old(rng).remaining().drop_first());
                }
            }
            calculate_attack_damage(
                attacker_pokemon,
                defender_pokemon,
                attacker_player,
                defender_player,
                move_used,
                is_critical,
                rng,
            )
        },
    };
    if theoretical_damage < defender_pokemon.current_hp() {
        theoretical_damage
    } else {
        defender_pokemon.current_hp()
    }
}

/// The substitute's HP of a player's active Pokemon, if it has one.
pub open spec fn spec_substitute_hp_of(p: BattlePlayer) -> Option<u8> {
    match p.active_pokemon_conditions.spec_get(PokemonConditionType::Substitute) {
        Some(PokemonCondition::Substitute { hp }) => Some(hp),
        _ => None,
    }
}

/// A substitute with `substitute_hp` takes `damage`: it loses up to its HP; a substitute
/// left at 0 is removed, otherwise it is replaced by one with the HP left; an event reports
/// the damage it took.
pub open spec fn spec_substitute_absorption(damage: u16, substitute_hp: u8, defender: PokemonInst, defender_index: usize) -> Seq<BattleCommand> {
    let actual: nat = if damage < substitute_hp { damage as nat } else { substitute_hp as nat };
    let remaining: nat = (substitute_hp - actual) as nat;
    let t = spec_from_index(defender_index as int);
    let change = if remaining == 0 {
        seq![
            BattleCommand::RemoveSpecificCondition {
                target: t,
                condition: PokemonCondition::Substitute { hp: substitute_hp },
            },
        ]
    } else {
        seq![
            BattleCommand::RemoveCondition { target: t, condition_type: PokemonConditionType::Substitute },
            BattleCommand::AddCondition { target: t, condition: PokemonCondition::Substitute { hp: remaining as u8 } },
        ]
    };
    change + seq![
        BattleCommand::EmitEvent(
            BattleEvent::SubstituteDamaged {
                target: defender.species,
                damage: actual as u16,
                remaining_substitute_hp: remaining as u8,
                substitute_destroyed: remaining == 0,
            },
        ),
    ]
}

fn handle_substitute_damage_absorption(
    damage: u16,
    substitute_hp: u8,
    defender_pokemon: &PokemonInst,
    defender_index: usize,
    commands: &mut Vec<BattleCommand>,
)
    requires
        spec_cmds_safe(old(commands)@),
        defender_index < 2,
    ensures
        spec_cmds_safe(final(commands)@),
        final(commands)@ == old(commands)@ + spec_substitute_absorption(
            damage,
            substitute_hp,
            *defender_pokemon,
            defender_index,
        ),
{
    let actual_damage: u16 = if damage < substitute_hp as u16 {
        damage
    } else {
        substitute_hp as u16
    };
    let remaining_substitute_hp: u8 = substitute_hp - actual_damage as u8;
    let substitute_destroyed = remaining_substitute_hp == 0;
    let t = PlayerTarget::from_index(defender_index);
    if substitute_destroyed {
        commands.push(
            BattleCommand::RemoveSpecificCondition {
                target: t,
                condition: PokemonCondition::Substitute { hp: substitute_hp },
            },
        );
    } else {
        commands.push(BattleCommand::RemoveCondition { target: t, condition_type: PokemonConditionType::Substitute });
        commands.push(
            BattleCommand::AddCondition {
                target: t,
                condition: PokemonCondition::Substitute { hp: remaining_substitute_hp },
            },
        );
    }
    commands.push(
        BattleCommand::EmitEvent(
            BattleEvent::SubstituteDamaged {
                target: defender_pokemon.species,
                damage: actual_damage,
                remaining_substitute_hp,
                substitute_destroyed,
            },
        ),
    );
    assert(final(commands)@ =~= old(commands)@ + spec_substitute_absorption(
        damage,
        substitute_hp,
        *defender_pokemon,
        defender_index,
    ));
}

/// Damage dealt to the defender: absorbed by its substitute if it has one, else dealt to it.
pub open spec fn spec_damage_application(damage: u16, defender: PokemonInst, defender_player: BattlePlayer, defender_index: usize) -> Seq<BattleCommand> {
    match spec_substitute_hp_of(defender_player) {
        Some(hp) => spec_substitute_absorption(damage, hp, defender, defender_index),
        None => seq![BattleCommand::DealDamage { target: spec_from_index(defender_index as int), amount: damage }],
    }
}

fn handle_damage_application(
    damage: u16,
    defender_pokemon: &PokemonInst,
    defender_player: &BattlePlayer,
    defender_index: usize,
    commands: &mut Vec<BattleCommand>,
)
    requires
        spec_cmds_safe(old(commands)@),
        defender_index < 2,
    ensures
        spec_cmds_safe(final(commands)@),
        final(commands)@ == old(commands)@ + spec_damage_application(
            damage,
            *defender_pokemon,
            *defender_player,
            defender_index,
        ),
{
    if let Some(PokemonCondition::Substitute { hp }) = defender_player.active_pokemon_conditions.get(
        PokemonConditionType::Substitute,
    ) {
        handle_substitute_damage_absorption(damage, hp, defender_pokemon, defender_index, commands);
    } else {
        commands.push(BattleCommand::DealDamage { target: PlayerTarget::from_index(defender_index), amount: damage });
        assert(final(commands)@ =~= old(commands)@ + spec_damage_application(
            damage,
            *defender_pokemon,
            *defender_player,
            defender_index,
        ));
    }
}

/// The reactions of each of the defender's conditions, in order, to damage taken.
pub open spec fn spec_damage_reactions(
    conditions: Seq<PokemonCondition>,
    damage: u16,
    attacker_target: PlayerTarget,
    defender_target: PlayerTarget,
    category: MoveCategory,
    defender_current_hp: u16,
    defender_stat_stage: i8,
) -> Seq<BattleCommand>
    decreases conditions.len(),
{
    if conditions.len() == 0 {
        seq![]
    } else {
        spec_damage_reactions(
            conditions.drop_last(),
            damage,
            attacker_target,
            defender_target,
            category,
            defender_current_hp,
            defender_stat_stage,
        ) + spec_on_damage_taken(
            conditions.last(),
            damage,
            attacker_target,
            defender_target,
            category,
            defender_current_hp,
            defender_stat_stage,
        )
    }
}

/// The reactions of the defender's conditions to damage from a move, in condition order;
/// none when a substitute took the damage.
pub open spec fn spec_damage_triggered(
    damage: u16,
    defender: PokemonInst,
    defender_player: BattlePlayer,
    attacker_index: usize,
    defender_index: usize,
    m: Move,
) -> Seq<BattleCommand> {
    if spec_has_substitute(defender_player) {
        seq![]
    } else {
        spec_damage_reactions(
            defender_player.active_pokemon_conditions.spec_in_order(),
            damage,
            spec_from_index(attacker_index as int),
            spec_from_index(defender_index as int),
            spec_move_category(m),
            defender.curr_hp,
            spec_stage(defender_player.stat_stages, StatType::Atk),
        )
    }
}

fn handle_damage_triggered_conditions(
    damage: u16,
    defender_pokemon: &PokemonInst,
    defender_player: &BattlePlayer,
    attacker_index: usize,
    defender_index: usize,
    move_used: Move,
    commands: &mut Vec<BattleCommand>,
)
    requires
        spec_cmds_safe(old(commands)@),
        attacker_index < 2,
        defender_index < 2,
        defender_player.wf(),
    ensures
        spec_cmds_safe(final(commands)@),
        final(commands)@ == old(commands)@ + spec_damage_triggered(
            damage,
            *defender_pokemon,
            *defender_player,
            attacker_index,
            defender_index,
            move_used,
        ),
{
    let absorbed = matches!(
        defender_player.active_pokemon_conditions.get(PokemonConditionType::Substitute),
        Some(PokemonCondition::Substitute { .. })
    );
    if absorbed {
        assert(old(commands)@ + seq![] =~= old(commands)@);
        return;
    }
    let move_data = MoveData::get_move_data(move_used);
    let attacker_target = PlayerTarget::from_index(attacker_index);
    let defender_target = PlayerTarget::from_index(defender_index);
    let stage = defender_player.get_stat_stage(StatType::Atk);
    let conditions = defender_player.active_pokemon_conditions.to_vec();
    let ghost start = commands@;
    let mut i: usize = 0;
    while i < conditions.len()
        invariant
            0 <= i <= conditions.len(),
            -6 <= stage <= 6,
            spec_cmds_safe(commands@),
            commands@ == start + spec_damage_reactions(
                conditions@.take(i as int),
                damage,
                attacker_target,
                defender_target,
                move_data.category,
                defender_pokemon.curr_hp,
                stage,
            ),
        decreases conditions.len() - i,
    {
        assert(conditions@.take(i + 1).drop_last() =~= conditions@.take(i as int));
        let mut reaction = conditions[i].on_damage_taken(
            damage,
            attacker_target,
            defender_target,
            defender_pokemon.species,
            move_data.category,
            defender_pokemon.current_hp(),
            stage,
        );
        proof {
            lemma_safe_concat(commands@, reaction@);
        }
        commands.append(&mut reaction);
        i = i + 1;
        assert(commands@ =~= start + spec_damage_reactions(
            conditions@.take(i as int),
            damage,
            attacker_target,
            defender_target,
            move_data.category,
            defender_pokemon.curr_hp,
            stage,
        ));
    }
    assert(conditions@.take(i as int) =~= conditions@);
}

/// The commands of a hit and the rolls it uses: the hit event, the effectiveness event, the
/// damage events, and, for positive damage, its application and the defender's reactions.
pub open spec fn spec_successful_hit(
    attacker: PokemonInst,
    defender: PokemonInst,
    attacker_player: BattlePlayer,
    defender_player: BattlePlayer,
    attacker_index: usize,
    defender_index: usize,
    m: Move,
    rolls: Seq<u8>,
) -> (Seq<BattleCommand>, nat) {
    let (damage, damage_events, used) = spec_move_damage(
        attacker,
        defender,
        attacker_player,
        defender_player,
        m,
        spec_type_percent(m, defender, defender_player),
        rolls,
    );
    let after = if damage > 0 {
        spec_damage_application(damage as u16, defender, defender_player, defender_index) + spec_damage_triggered(
            damage as u16,
            defender,
            defender_player,
            attacker_index,
            defender_index,
            m,
        )
    } else {
        seq![]
    };
    (
        seq![
            BattleCommand::EmitEvent(
                BattleEvent::MoveHit { attacker: attacker.species, defender: defender.species, move_used: m },
            ),
        ] + spec_type_event(m, defender, defender_player) + damage_events + after,
        used,
    )
}

fn handle_successful_hit(
    attacker_pokemon: &PokemonInst,
    defender_pokemon: &PokemonInst,
    attacker_player: &BattlePlayer,
    defender_player: &BattlePlayer,
    attacker_index: usize,
    defender_index: usize,
    move_used: Move,
    rng: &mut TurnRng,
) -> (r: Vec<BattleCommand>)
    requires
        attacker_index < 2,
        defender_index < 2,
        defender_player.wf(),
        spec_successful_hit(
            *attacker_pokemon,
            *defender_pokemon,
            *attacker_player,
            *defender_player,
            attacker_index,
            defender_index,
            move_used,
            old(rng).remaining(),
        ).1 <= old(rng).remaining().len(),
    ensures
        spec_cmds_safe(r@),
        ({
            let (cmds, used) = spec_successful_hit(
                *attacker_pokemon,
                *defender_pokemon,
                *attacker_player,
                *defender_player,
                attacker_index,
                defender_index,
                move_used,
                old(rng).remaining(),
            );
            r@ == cmds && final(rng).remaining() == old(rng).remaining().skip(used as int)
        }),
{
    let mut commands: Vec<BattleCommand> = Vec::new();
    commands.push(
        BattleCommand::EmitEvent(
            BattleEvent::MoveHit {
                attacker: attacker_pokemon.species,
                defender: defender_pokemon.species,
                move_used,
            },
        ),
    );
    let move_data = MoveData::get_move_data(move_used);
    let type_percent = calculate_and_emit_type_effectiveness(
        move_used,
        &move_data,
        defender_pokemon,
        defender_player,
        &mut commands,
    );
    let damage = calculate_move_damage(
        attacker_pokemon,
        defender_pokemon,
        attacker_player,
        defender_player,
        move_used,
        type_percent,
        rng,
        &mut commands,
    );
    let ghost before = commands@;
    if damage > 0 {
        handle_damage_application(damage, defender_pokemon, defender_player, defender_index, &mut commands);
        handle_damage_triggered_conditions(
            damage,
            defender_pokemon,
            defender_player,
            attacker_index,
            defender_index,
            move_used,
            &mut commands,
        );
    }
    proof {
        let (cmds, _) = spec_successful_hit(
            *attacker_pokemon,
            *defender_pokemon,
            *attacker_player,
            *defender_player,
            attacker_index,
            defender_index,
            move_used,
            old(rng).remaining(),
        );
        assert(commands@ =~= cmds);
    }
    commands
}


/// After the first `n` effects of a move: whether one of them skipped the rest of the move,
/// the commands kept (those of the skipping effect alone, or else all commands so far), and
/// the rolls used.
pub open spec fn spec_effects_prefix(
    effects: Seq<MoveEffect>,
    n: nat,
    ctx: EffectContext,
    state: BattleState,
    rolls: Seq<u8>,
) -> (bool, Seq<BattleCommand>, nat)
    decreases n,
{
    if n == 0 {
        (false, seq![], 0)
    } else {
        let p = spec_effects_prefix(effects, (n - 1) as nat, ctx, state, rolls);
        if p.0 {
            p
        } else {
            let (skip, c, u) = spec_apply_effect(effects[n - 1], ctx, state, rolls.skip(p.2 as int));
            (
                skip,
                if skip {
                    c
                } else {
                    p.1 + c
                },
                p.2 + u,
            )
        }
    }
}

/// After the first `n` effects of a move, the next hit of a multi-hit move found so far
/// and the rolls used: the first effect that gives one wins.
pub open spec fn spec_multi_hit_prefix(
    effects: Seq<MoveEffect>,
    n: nat,
    ctx: EffectContext,
    hit_number: u8,
    rolls: Seq<u8>,
) -> (Option<BattleCommand>, nat)
    decreases n,
{
    if n == 0 {
        (None, 0)
    } else {
        let p = spec_multi_hit_prefix(effects, (n - 1) as nat, ctx, hit_number, rolls);
        if p.0 is Some {
            p
        } else {
            let (c, u) = spec_multi_hit_continuation(effects[n - 1], ctx, hit_number, rolls.skip(p.1 as int));
            (c, p.1 + u)
        }
    }
}

/// The amount of the first damage command among the first `n` commands, if any.
pub open spec fn spec_first_damage(cmds: Seq<BattleCommand>, n: nat) -> Option<u16>
    decreases n,
{
    if n == 0 {
        None
    } else {
        let p = spec_first_damage(cmds, (n - 1) as nat);
        if p is Some {
            p
        } else {
            match cmds[n - 1] {
                BattleCommand::DealDamage { amount, .. } => Some(amount),
                _ => None,
            }
        }
    }
}

fn first_damage(cmds: &Vec<BattleCommand>) -> (r: u16)
    ensures
        r == match spec_first_damage(cmds@, cmds@.len()) {
            Some(a) => a,
            None => 0,
        },
{
    let mut i: usize = 0;
    while i < cmds.len()
        invariant
            0 <= i <= cmds.len(),
            spec_first_damage(cmds@, i as nat) is None,
        decreases cmds.len() - i,
    {
        if let BattleCommand::DealDamage { amount, .. } = cmds[i] {
            assert(spec_first_damage(cmds@, (i + 1) as nat) == Some(amount));
            proof {
                lemma_first_damage_stays(cmds@, (i + 1) as nat, cmds@.len());
            }
            return amount;
        }
        i = i + 1;
    }
    0
}

proof fn lemma_first_damage_stays(cmds: Seq<BattleCommand>, n: nat, m: nat)
    requires
        n <= m,
        spec_first_damage(cmds, n) is Some,
    ensures
        spec_first_damage(cmds, m) == spec_first_damage(cmds, n),
    decreases m - n,
{
    if m > n {
        lemma_first_damage_stays(cmds, n, (m - 1) as nat);
    }
}

/// Whether the move hits and the rolls that decides it (see `move_hits`).
pub open spec fn spec_hit_outcome(m: Move, attacker_player: BattlePlayer, defender_player: BattlePlayer, rolls: Seq<u8>) -> (bool, nat) {
    if spec_hit_check_rolls(m, defender_player) {
        (
            rolls[0] <= spec_modified_accuracy(
                spec_move_accuracy(m).unwrap(),
                spec_adjusted_accuracy_stage(attacker_player, defender_player),
            ),
            1,
        )
    } else {
        (spec_move_accuracy(m) is None, 0)
    }
}

/// The commands of an attack that hit or missed, after its effects, and the rolls used:
/// a hit gives its hit commands, the effects' commands, and the commands that follow the
/// damage dealt (the first damage command's amount, when positive); a miss gives the miss
/// event and the commands that follow a miss.
pub open spec fn spec_attack_body(
    state: BattleState,
    ctx: EffectContext,
    attacker: PokemonInst,
    defender: PokemonInst,
    effect_commands: Seq<BattleCommand>,
    hits: bool,
    rolls: Seq<u8>,
) -> (Seq<BattleCommand>, nat) {
    let m = ctx.move_used;
    let effects = spec_move_effects(m);
    if hits {
        let (hit_cmds, used) = spec_successful_hit(
            attacker,
            defender,
            state.players[ctx.attacker_index as int],
            state.players[ctx.defender_index as int],
            ctx.attacker_index,
            ctx.defender_index,
            m,
            rolls,
        );
        let damage: u16 = match spec_first_damage(hit_cmds, hit_cmds.len()) {
            Some(a) => a,
            None => 0,
        };
        (
            hit_cmds + effect_commands + if damage > 0 {
                spec_damage_based_effects(effects, ctx, state, damage)
            } else {
                seq![]
            },
            used,
        )
    } else {
        (
            seq![
                BattleCommand::EmitEvent(
                    BattleEvent::MoveMissed { attacker: attacker.species, defender: defender.species, move_used: m },
                ),
            ] + spec_miss_based_effects(effects, ctx, state),
            0,
        )
    }
}

/// The commands of an attack and the rolls it uses. Without both Pokemon the attack fails
/// with one event. Otherwise: the move-used event on the first hit; each effect in order,
/// where one that skips the rest of the move ends the attack with its own commands; then
/// the hit check, the hit or miss (see `spec_attack_body`), and at most one next hit.
pub open spec fn spec_attack_outcome(
    state: BattleState,
    attacker_index: usize,
    defender_index: usize,
    m: Move,
    hit_number: u8,
    rolls: Seq<u8>,
) -> (Seq<BattleCommand>, nat) {
    let ap = state.players[attacker_index as int];
    let dp = state.players[defender_index as int];
    match spec_participation(ap, dp) {
        Err(c) => (seq![c], 0),
        Ok((a, d)) => spec_attack_with(state, attacker_index, defender_index, m, hit_number, a, d, rolls),
    }
}

/// One hit of an attack once both active Pokemon `a` and `d` are known: the
/// commands and the number of rolls used.
pub open spec fn spec_attack_with(
    state: BattleState,
    attacker_index: usize,
    defender_index: usize,
    m: Move,
    hit_number: u8,
    a: PokemonInst,
    d: PokemonInst,
    rolls: Seq<u8>,
) -> (Seq<BattleCommand>, nat) {
    let ap = state.players[attacker_index as int];
    let dp = state.players[defender_index as int];
    let head = if hit_number == 0 {
        seq![
            BattleCommand::EmitEvent(
                BattleEvent::MoveUsed { player_index: attacker_index, pokemon: a.species, move_used: m },
            ),
        ]
    } else {
        seq![]
    };
    let ctx = EffectContext { attacker_index, defender_index, move_used: m };
    let effects = spec_move_effects(m);
    let (skipped, effect_cmds, u1) = spec_effects_prefix(effects, effects.len(), ctx, state, rolls);
    if skipped {
        (head + effect_cmds, u1)
    } else {
        let r1 = rolls.skip(u1 as int);
        let (hits, u2) = spec_hit_outcome(m, ap, dp, r1);
        let r2 = r1.skip(u2 as int);
        let (body, u3) = spec_attack_body(state, ctx, a, d, effect_cmds, hits, r2);
        let r3 = r2.skip(u3 as int);
        let (next_hit, u4) = spec_multi_hit_prefix(effects, effects.len(), ctx, hit_number, r3);
        let tail = match next_hit {
            Some(c) => seq![c],
            None => seq![],
        };
        (head + body + tail, u1 + u2 + u3 + u4)
    }
}

fn apply_effects_phase(
    move_data: &MoveData,
    context: &EffectContext,
    state: &BattleState,
    rng: &mut TurnRng,
) -> (r: (bool, Vec<BattleCommand>))
    requires
        state.wf(),
        context.wf(),
        crate::moves::spec_is_move_data(*move_data, context.move_used),
        spec_effects_prefix(
            spec_move_effects(context.move_used),
            spec_move_effects(context.move_used).len(),
            *context,
            *state,
            old(rng).remaining(),
        ).2 <= old(rng).remaining().len(),
    ensures
        ({
            let (skipped, cmds, used) = spec_effects_prefix(
                spec_move_effects(context.move_used),
                spec_move_effects(context.move_used).len(),
                *context,
                *state,
                old(rng).remaining(),
            );
            &&& r.0 == skipped
            &&& r.1@ == cmds
            &&& final(rng).remaining() == old(rng).remaining().skip(used as int)
        }),
        spec_cmds_safe(r.1@),
{
    let ghost rolls = old(rng).remaining();
    let ghost effects = spec_move_effects(context.move_used);
    let ghost ctx = *context;
    assert(rolls.skip(0) =~= rolls);
    let n = move_data.effects.len();
    let mut regular: Vec<BattleCommand> = Vec::new();
    let mut i: usize = 0;
    while i < n
        invariant
            0 <= i <= n,
            n == effects.len(),
            effects == spec_move_effects(context.move_used),
            rolls == old(rng).remaining(),
            move_data.effects@ == effects,
            *context == ctx,
            ctx.wf(),
            state.wf(),
            spec_effects_prefix(effects, n as nat, ctx, *state, rolls).2 <= rolls.len(),
            !spec_effects_prefix(effects, i as nat, ctx, *state, rolls).0,
            regular@ == spec_effects_prefix(effects, i as nat, ctx, *state, rolls).1,
            spec_cmds_safe(regular@),
            rng.remaining() == rolls.skip(spec_effects_prefix(effects, i as nat, ctx, *state, rolls).2 as int),
        decreases n - i,
    {
        let ghost p = spec_effects_prefix(effects, i as nat, ctx, *state, rolls);
        proof {
            lemma_effects_prefix_mono(effects, (i + 1) as nat, n as nat, ctx, *state, rolls);
        }
        let effect = move_data.effects[i];
        let effect_result = effect.apply(context, state, rng);
        proof {
            let (_, _, u) = spec_apply_effect(effects[i as int], ctx, *state, rolls.skip(p.2 as int));
            assert(rolls.skip(p.2 as int).skip(u as int) =~= rolls.skip((p.2 + u) as int));
        }
        match effect_result {
            EffectResult::Skip(special_commands) => {
                proof {
                    let (_, c, u) = spec_apply_effect(effects[i as int], ctx, *state, rolls.skip(p.2 as int));
                    assert(spec_effects_prefix(effects, (i + 1) as nat, ctx, *state, rolls) == (true, c, p.2 + u));
                    lemma_effects_prefix_stays(effects, (i + 1) as nat, n as nat, ctx, *state, rolls);
                    assert(special_commands@ == c);
                    assert(rng.remaining() == rolls.skip((p.2 + u) as int));
                    assert(spec_effects_prefix(effects, n as nat, ctx, *state, rolls) == (true, c, p.2 + u));
                }
                return (true, special_commands);
            },
            EffectResult::Continue(mut effect_commands) => {
                proof {
                    lemma_safe_concat(regular@, effect_commands@);
                }
                regular.append(&mut effect_commands);
            },
            EffectResult::Ensured(mut effect_commands) => {
                proof {
                    lemma_safe_concat(regular@, effect_commands@);
                }
                regular.append(&mut effect_commands);
            },
        }
        proof {
            let (_, c, u) = spec_apply_effect(effects[i as int], ctx, *state, rolls.skip(p.2 as int));
            assert(spec_effects_prefix(effects, (i + 1) as nat, ctx, *state, rolls) == (false, p.1 + c, p.2 + u));
        }
        i = i + 1;
    }
    (false, regular)
}

fn multi_hit_phase(move_data: &MoveData, context: &EffectContext, rng: &mut TurnRng, hit_number: u8) -> (r: Option<
    BattleCommand,
>)
    requires
        crate::moves::spec_is_move_data(*move_data, context.move_used),
        spec_multi_hit_prefix(
            spec_move_effects(context.move_used),
            spec_move_effects(context.move_used).len(),
            *context,
            hit_number,
            old(rng).remaining(),
        ).1 <= old(rng).remaining().len(),
    ensures
        ({
            let (next, used) = spec_multi_hit_prefix(
                spec_move_effects(context.move_used),
                spec_move_effects(context.move_used).len(),
                *context,
                hit_number,
                old(rng).remaining(),
            );
            r == next && final(rng).remaining() == old(rng).remaining().skip(used as int)
        }),
        r matches Some(c) ==> spec_cmd_safe(c),
{
    let ghost rolls = old(rng).remaining();
    let ghost effects = spec_move_effects(context.move_used);
    let ghost ctx = *context;
    assert(rolls.skip(0) =~= rolls);
    let n = move_data.effects.len();
    let mut j: usize = 0;
    while j < n
        invariant
            0 <= j <= n,
            n == effects.len(),
            effects == spec_move_effects(context.move_used),
            rolls == old(rng).remaining(),
            move_data.effects@ == effects,
            *context == ctx,
            spec_multi_hit_prefix(effects, n as nat, ctx, hit_number, rolls).1 <= rolls.len(),
            spec_multi_hit_prefix(effects, j as nat, ctx, hit_number, rolls).0 is None,
            rng.remaining() == rolls.skip(spec_multi_hit_prefix(effects, j as nat, ctx, hit_number, rolls).1 as int),
        decreases n - j,
    {
        let ghost p = spec_multi_hit_prefix(effects, j as nat, ctx, hit_number, rolls);
        proof {
            lemma_multi_hit_prefix_mono(effects, (j + 1) as nat, n as nat, ctx, hit_number, rolls);
        }
        let next = move_data.effects[j].apply_multi_hit_continuation(context, rng, hit_number);
        proof {
            let (_, u) = spec_multi_hit_continuation(effects[j as int], ctx, hit_number, rolls.skip(p.1 as int));
            assert(rolls.skip(p.1 as int).skip(u as int) =~= rolls.skip((p.1 + u) as int));
        }
        proof {
            let (c, u) = spec_multi_hit_continuation(effects[j as int], ctx, hit_number, rolls.skip(p.1 as int));
            assert(spec_multi_hit_prefix(effects, (j + 1) as nat, ctx, hit_number, rolls) == (c, p.1 + u));
        }
        if next.is_some() {
            proof {
                lemma_multi_hit_prefix_stays(effects, (j + 1) as nat, n as nat, ctx, hit_number, rolls);
                let (c, u) = spec_multi_hit_continuation(effects[j as int], ctx, hit_number, rolls.skip(p.1 as int));
                assert(next == c);
                assert(rng.remaining() == rolls.skip((p.1 + u) as int));
            }
            return next;
        }
        j = j + 1;
    }
    None
}

fn attack_body(
    state: &BattleState,
    context: &EffectContext,
    move_data: &MoveData,
    attacker_pokemon: &PokemonInst,
    defender_pokemon: &PokemonInst,
    regular: Vec<BattleCommand>,
    hits: bool,
    rng: &mut TurnRng,
) -> (r: Vec<BattleCommand>)
    requires
        state.wf(),
        context.wf(),
        crate::moves::spec_is_move_data(*move_data, context.move_used),
        spec_attack_body(
            *state,
            *context,
            *attacker_pokemon,
            *defender_pokemon,
            regular@,
            hits,
            old(rng).remaining(),
        ).1 <= old(rng).remaining().len(),
        spec_cmds_safe(regular@),
    ensures
        spec_cmds_safe(r@),
        ({
            let (cmds, used) = spec_attack_body(
                *state,
                *context,
                *attacker_pokemon,
                *defender_pokemon,
                regular@,
                hits,
                old(rng).remaining(),
            );
            &&& r@ == cmds
            &&& final(rng).remaining() == old(rng).remaining().skip(used as int)
        }),
{
    let mut commands: Vec<BattleCommand> = Vec::new();
    let mut regular = regular;
    let ghost regular0 = regular@;
    if hits {
        let mut hit_commands = handle_successful_hit(
            attacker_pokemon,
            defender_pokemon,
            &state.players[context.attacker_index],
            &state.players[context.defender_index],
            context.attacker_index,
            context.defender_index,
            context.move_used,
            rng,
        );
        let ghost hit0 = hit_commands@;
        let damage = first_damage(&hit_commands);
        proof {
            lemma_safe_concat(commands@, hit_commands@);
            lemma_safe_concat(commands@ + hit_commands@, regular@);
        }
        commands.append(&mut hit_commands);
        commands.append(&mut regular);
        if damage > 0 {
            let mut damage_commands = move_data.apply_damage_based_effects(context, state, damage);
            proof {
                lemma_safe_concat(commands@, damage_commands@);
            }
            commands.append(&mut damage_commands);
        }
        proof {
            let (cmds, _) = spec_attack_body(
                *state,
                *context,
                *attacker_pokemon,
                *defender_pokemon,
                regular0,
                hits,
                old(rng).remaining(),
            );
            assert(commands@ =~= cmds);
        }
    } else {
        commands.push(
            BattleCommand::EmitEvent(
                BattleEvent::MoveMissed {
                    attacker: attacker_pokemon.species,
                    defender: defender_pokemon.species,
                    move_used: context.move_used,
                },
            ),
        );
        let mut miss_commands = move_data.apply_miss_based_effects(context, state);
        proof {
            lemma_safe_concat(commands@, miss_commands@);
        }
        commands.append(&mut miss_commands);
        assert(old(rng).remaining().skip(0) =~= old(rng).remaining());
        proof {
            let (cmds, _) = spec_attack_body(
                *state,
                *context,
                *attacker_pokemon,
                *defender_pokemon,
                regular0,
                hits,
                old(rng).remaining(),
            );
            assert(commands@ =~= cmds);
        }
    }
    commands
}

/// The commands of one hit of an attack (see `spec_attack_outcome`).
pub fn calculate_attack_outcome(
    state: &BattleState,
    attacker_index: usize,
    defender_index: usize,
    move_used: Move,
    hit_number: u8,
    rng: &mut TurnRng,
) -> (r: Vec<BattleCommand>)
    requires
        state.wf(),
        attacker_index < 2,
        defender_index < 2,
        spec_attack_outcome(
            *state,
            attacker_index,
            defender_index,
            move_used,
            hit_number,
            old(rng).remaining(),
        ).1 <= old(rng).remaining().len(),
    ensures
        spec_cmds_safe(r@),
        ({
            let (cmds, used) = spec_attack_outcome(
                *state,
                attacker_index,
                defender_index,
                move_used,
                hit_number,
                old(rng).remaining(),
            );
            r@ == cmds && final(rng).remaining() == old(rng).remaining().skip(used as int)
        }),
{
    let ghost rolls = old(rng).remaining();
    let attacker_player = &state.players[attacker_index];
    let defender_player = &state.players[defender_index];
    match validate_pokemon_participation(attacker_player, defender_player) {
        Ok((attacker_pokemon, defender_pokemon)) => attack_with_participants(
            state,
            attacker_index,
            defender_index,
            move_used,
            hit_number,
            attacker_pokemon,
            defender_pokemon,
            rng,
        ),
        Err(error_command) => {
            let v = vec![error_command];
            assert(v@ =~= seq![error_command]);
            assert(rolls.skip(0) =~= rolls);
            v
        },
    }
}

/// One hit of an attack once both active Pokemon are known (see `spec_attack_with`).
#[verifier::spinoff_prover]
#[verifier::rlimit(100)]
fn attack_with_participants(
    state: &BattleState,
    attacker_index: usize,
    defender_index: usize,
    move_used: Move,
    hit_number: u8,
    attacker_pokemon: &PokemonInst,
    defender_pokemon: &PokemonInst,
    rng: &mut TurnRng,
) -> (r: Vec<BattleCommand>)
    requires
        state.wf(),
        attacker_index < 2,
        defender_index < 2,
        spec_attack_with(
            *state,
            attacker_index,
            defender_index,
            move_used,
            hit_number,
            *attacker_pokemon,
            *defender_pokemon,
            old(rng).remaining(),
        ).1 <= old(rng).remaining().len(),
    ensures
        spec_cmds_safe(r@),
        ({
            let (cmds, used) = spec_attack_with(
                *state,
                attacker_index,
                defender_index,
                move_used,
                hit_number,
                *attacker_pokemon,
                *defender_pokemon,
                old(rng).remaining(),
            );
            r@ == cmds && final(rng).remaining() == old(rng).remaining().skip(used as int)
        }),
{
    let ghost rolls = old(rng).remaining();
    let attacker_player = &state.players[attacker_index];
    let defender_player = &state.players[defender_index];
    let mut commands: Vec<BattleCommand> = Vec::new();
    if hit_number == 0 {
        commands.push(
            BattleCommand::EmitEvent(
                BattleEvent::MoveUsed {
                    player_index: attacker_index,
                    pokemon: attacker_pokemon.species,
                    move_used,
                },
            ),
        );
    }
    let ghost head = commands@;
    proof {
        assert(spec_cmds_safe(head));
    }
    let move_data = MoveData::get_move_data(move_used);
    let context = EffectContext::new(attacker_index, defender_index, move_used);
    let ghost effects = spec_move_effects(move_used);
    let ghost ep = spec_effects_prefix(effects, effects.len(), context, *state, rolls);
    let ghost sr1 = rolls.skip(ep.2 as int);
    let ghost hit_s = spec_hit_outcome(move_used, *attacker_player, *defender_player, sr1);
    let ghost sr2 = sr1.skip(hit_s.1 as int);
    let ghost body_s = spec_attack_body(
        *state,
        context,
        *attacker_pokemon,
        *defender_pokemon,
        ep.1,
        hit_s.0,
        sr2,
    );
    let ghost sr3 = sr2.skip(body_s.1 as int);
    let ghost next_s = spec_multi_hit_prefix(effects, effects.len(), context, hit_number, sr3);
    proof {
        if !ep.0 {
            assert(sr1.len() == rolls.len() - ep.2);
            assert(sr2.len() == sr1.len() - hit_s.1);
            assert(sr3.len() == sr2.len() - body_s.1);
        }
    }
    let (skipped, mut effect_commands) = apply_effects_phase(&move_data, &context, state, rng);
    if skipped {
        proof {
            lemma_safe_concat(commands@, effect_commands@);
        }
        commands.append(&mut effect_commands);
        return commands;
    }
    let hit_result = move_hits(
        attacker_pokemon,
        defender_pokemon,
        attacker_player,
        defender_player,
        move_used,
        rng,
    );
    proof {
        assert(sr1.drop_first() =~= sr1.skip(1));
        assert(sr1.skip(0) =~= sr1);
    }
    let mut body = attack_body(
        state,
        &context,
        &move_data,
        attacker_pokemon,
        defender_pokemon,
        effect_commands,
        hit_result,
        rng,
    );
    proof {
        lemma_safe_concat(commands@, body@);
    }
    commands.append(&mut body);
    let next = multi_hit_phase(&move_data, &context, rng, hit_number);
    if let Some(command) = next {
        proof {
            lemma_safe_concat(commands@, seq![command]);
        }
        commands.push(command);
    }
    proof {
        lemma_skip_skip(rolls, ep.2 as int, hit_s.1 as int);
        lemma_skip_skip(rolls, (ep.2 + hit_s.1) as int, body_s.1 as int);
        lemma_skip_skip(rolls, (ep.2 + hit_s.1 + body_s.1) as int, next_s.1 as int);
        let (cmds, used) = spec_attack_with(
            *state,
            attacker_index,
            defender_index,
            move_used,
            hit_number,
            *attacker_pokemon,
            *defender_pokemon,
            rolls,
        );
        assert(commands@ =~= cmds);
    }
    commands
}

/// Skipping `a` then `b` elements skips `a + b`.
proof fn lemma_skip_skip(s: Seq<u8>, a: int, b: int)
    requires
        0 <= a,
        0 <= b,
        a + b <= s.len(),
    ensures
        s.skip(a).skip(b) == s.skip(a + b),
{
    assert(s.skip(a).skip(b) =~= s.skip(a + b));
}

proof fn lemma_effects_prefix_mono(
    effects: Seq<MoveEffect>,
    n: nat,
    m: nat,
    ctx: EffectContext,
    state: BattleState,
    rolls: Seq<u8>,
)
    requires
        n <= m,
    ensures
        spec_effects_prefix(effects, n, ctx, state, rolls).2 <= spec_effects_prefix(effects, m, ctx, state, rolls).2,
    decreases m - n,
{
    if m > n {
        lemma_effects_prefix_mono(effects, n, (m - 1) as nat, ctx, state, rolls);
    }
}

proof fn lemma_multi_hit_prefix_mono(
    effects: Seq<MoveEffect>,
    n: nat,
    m: nat,
    ctx: EffectContext,
    hit_number: u8,
    rolls: Seq<u8>,
)
    requires
        n <= m,
    ensures
        spec_multi_hit_prefix(effects, n, ctx, hit_number, rolls).1 <= spec_multi_hit_prefix(
            effects,
            m,
            ctx,
            hit_number,
            rolls,
        ).1,
    decreases m - n,
{
    if m > n {
        lemma_multi_hit_prefix_mono(effects, n, (m - 1) as nat, ctx, hit_number, rolls);
    }
}

proof fn lemma_effects_prefix_stays(
    effects: Seq<MoveEffect>,
    n: nat,
    m: nat,
    ctx: EffectContext,
    state: BattleState,
    rolls: Seq<u8>,
)
    requires
        n <= m,
        spec_effects_prefix(effects, n, ctx, state, rolls).0,
    ensures
        spec_effects_prefix(effects, m, ctx, state, rolls) == spec_effects_prefix(effects, n, ctx, state, rolls),
    decreases m - n,
{
    if m > n {
        lemma_effects_prefix_stays(effects, n, (m - 1) as nat, ctx, state, rolls);
    }
}

proof fn lemma_multi_hit_prefix_stays(
    effects: Seq<MoveEffect>,
    n: nat,
    m: nat,
    ctx: EffectContext,
    hit_number: u8,
    rolls: Seq<u8>,
)
    requires
        n <= m,
        spec_multi_hit_prefix(effects, n, ctx, hit_number, rolls).0 is Some,
    ensures
        spec_multi_hit_prefix(effects, m, ctx, hit_number, rolls) == spec_multi_hit_prefix(
            effects,
            n,
            ctx,
            hit_number,
            rolls,
        ),
    decreases m - n,
{
    if m > n {
        lemma_multi_hit_prefix_stays(effects, n, (m - 1) as nat, ctx, hit_number, rolls);
    }
}


/// The smaller of two values.
pub open spec fn spec_min(a: nat, b: nat) -> nat {
    if a < b {
        a
    } else {
        b
    }
}

/// `max_hp / divisor`, at least 1, at most `current_hp`.
pub open spec fn spec_fraction_damage(max_hp: u16, divisor: nat, current_hp: u16) -> nat {
    let part: nat = if max_hp as nat / divisor >= 1 {
        max_hp as nat / divisor
    } else {
        1
    };
    spec_min(part, current_hp as nat)
}

/// Healing of player `opponent_index` by up to `amount`, limited to its missing HP, when its
/// active Pokemon has not fainted and some HP is missing.
pub open spec fn spec_seed_heal(state: BattleState, opponent_index: int, amount: nat) -> Seq<BattleCommand> {
    match spec_active(state.players[opponent_index]) {
        Some(o) => {
            let missing: nat = if o.stats.hp > o.curr_hp { (o.stats.hp - o.curr_hp) as nat } else { 0 };
            let heal = spec_min(amount, missing);
            if o.curr_hp != 0 && heal > 0 {
                seq![BattleCommand::HealPokemon { target: spec_from_index(opponent_index), amount: heal as u16 }]
            } else {
                seq![]
            }
        },
        None => seq![],
    }
}

/// End-of-turn condition damage for player `i`: a trapped active Pokemon that has not fainted
/// takes 1/16 of its max HP; a seeded one loses 1/8, which heals the opponent (each at least 1
/// and at most its current HP).
pub open spec fn spec_condition_damage_player(state: BattleState, i: int) -> Seq<BattleCommand> {
    let p = state.players[i];
    match spec_active(p) {
        None => seq![],
        Some(pk) => if pk.curr_hp == 0 {
            seq![]
        } else {
            let trapped = p.active_pokemon_conditions.spec_get(PokemonConditionType::Trapped) matches Some(
                PokemonCondition::Trapped { .. },
            );
            let seeded = p.active_pokemon_conditions.view().dom().contains(PokemonConditionType::Seeded);
            let trap_part = if trapped {
                seq![
                    BattleCommand::DealConditionDamage {
                        target: spec_from_index(i),
                        condition: PokemonCondition::Trapped { turns_remaining: 1 },
                        amount: spec_fraction_damage(pk.stats.hp, 16, pk.curr_hp) as u16,
                    },
                ]
            } else {
                seq![]
            };
            let seed_damage = spec_fraction_damage(pk.stats.hp, 8, pk.curr_hp);
            let seed_part = if seeded {
                seq![
                    BattleCommand::DealConditionDamage {
                        target: spec_from_index(i),
                        condition: PokemonCondition::Seeded,
                        amount: seed_damage as u16,
                    },
                ] + spec_seed_heal(state, 1 - i, seed_damage)
            } else {
                seq![]
            };
            trap_part + seed_part
        },
    }
}

/// End-of-turn condition damage for both players, the first player first.
pub open spec fn spec_condition_damage(state: BattleState) -> Seq<BattleCommand> {
    spec_condition_damage_player(state, 0) + spec_condition_damage_player(state, 1)
}

fn fraction_damage(max_hp: u16, divisor: u16, current_hp: u16) -> (r: u16)
    requires
        divisor > 0,
    ensures
        r as nat == spec_fraction_damage(max_hp, divisor as nat, current_hp),
{
    let part = max_hp / divisor;
    let part = if part >= 1 {
        part
    } else {
        1
    };
    if part < current_hp {
        part
    } else {
        current_hp
    }
}

fn condition_damage_player(state: &BattleState, player_index: usize, commands: &mut Vec<BattleCommand>)
    requires
        spec_cmds_safe(old(commands)@),
        state.wf(),
        player_index < 2,
    ensures
        spec_cmds_safe(final(commands)@),
        final(commands)@ == old(commands)@ + spec_condition_damage_player(*state, player_index as int),
{
    let opponent_index = 1 - player_index;
    let player = &state.players[player_index];
    let ghost start = commands@;
    if let Some(pokemon) = player.active_pokemon() {
        if pokemon.is_fainted() {
            assert(start + seq![] =~= start);
            return;
        }
        let max_hp = pokemon.max_hp();
        let has_trapped = matches!(
            player.active_pokemon_conditions.get(PokemonConditionType::Trapped),
            Some(PokemonCondition::Trapped { .. })
        );
        let has_seeded = player.has_condition_type(PokemonConditionType::Seeded);
        if has_trapped {
            let condition_damage = fraction_damage(max_hp, 16, pokemon.current_hp());
            commands.push(
                BattleCommand::DealConditionDamage {
                    target: PlayerTarget::from_index(player_index),
                    condition: PokemonCondition::Trapped { turns_remaining: 1 },
                    amount: condition_damage,
                },
            );
        }
        let ghost after_trap = commands@;
        if has_seeded {
            let actual_damage = fraction_damage(max_hp, 8, pokemon.current_hp());
            commands.push(
                BattleCommand::DealConditionDamage {
                    target: PlayerTarget::from_index(player_index),
                    condition: PokemonCondition::Seeded,
                    amount: actual_damage,
                },
            );
            let opponent_player = &state.players[opponent_index];
            if let Some(opponent_pokemon) = opponent_player.active_pokemon() {
                if !opponent_pokemon.is_fainted() {
                    let missing = opponent_pokemon.max_hp().saturating_sub(opponent_pokemon.current_hp());
                    let actual_heal = if actual_damage < missing {
                        actual_damage
                    } else {
                        missing
                    };
                    if actual_heal > 0 {
                        commands.push(
                            BattleCommand::HealPokemon {
                                target: PlayerTarget::from_index(opponent_index),
                                amount: actual_heal,
                            },
                        );
                    }
                }
            }
        }
        assert(commands@ =~= start + spec_condition_damage_player(*state, player_index as int));
    } else {
        assert(start + seq![] =~= start);
    }
}

/// The condition damage at the end of a turn (see `spec_condition_damage`).
pub fn calculate_condition_damage_commands(battle_state: &BattleState) -> (r: Vec<BattleCommand>)
    requires
        battle_state.wf(),
    ensures
        spec_cmds_safe(r@),
        r@ == spec_condition_damage(*battle_state),
{
    let mut commands: Vec<BattleCommand> = Vec::new();
    condition_damage_player(battle_state, 0, &mut commands);
    condition_damage_player(battle_state, 1, &mut commands);
    assert(commands@ =~= spec_condition_damage(*battle_state));
    commands
}

/// Whether a condition ends at the end of a turn: confusion and trapping on their last turn
/// (1 or fewer left), the other counted conditions at 0 turns, and flinching, teleporting and
/// countering always.
pub open spec fn spec_expires_at_end(c: PokemonCondition) -> bool {
    match c {
        PokemonCondition::Confused { turns_remaining } => turns_remaining <= 1,
        PokemonCondition::Exhausted { turns_remaining } => turns_remaining == 0,
        PokemonCondition::Trapped { turns_remaining } => turns_remaining <= 1,
        PokemonCondition::Rampaging { turns_remaining } => turns_remaining == 0,
        PokemonCondition::Disabled { turns_remaining, .. } => turns_remaining == 0,
        PokemonCondition::Biding { turns_remaining, .. } => turns_remaining == 0,
        PokemonCondition::Flinched | PokemonCondition::Teleported | PokemonCondition::Countering { .. } => true,
        _ => false,
    }
}

/// The tick of each condition, in order, each followed by its expiry when due.
pub open spec fn spec_condition_ticks(conditions: Seq<PokemonCondition>, target: PlayerTarget) -> Seq<BattleCommand>
    decreases conditions.len(),
{
    if conditions.len() == 0 {
        seq![]
    } else {
        let c = conditions.last();
        spec_condition_ticks(conditions.drop_last(), target) + seq![
            BattleCommand::TickPokemonCondition { target, condition: c },
        ] + if spec_expires_at_end(c) {
            seq![BattleCommand::ExpirePokemonCondition { target, condition: c }]
        } else {
            seq![]
        }
    }
}

/// End-of-turn effects on player `i`'s active Pokemon, unless absent or fainted: its status
/// damage (when positive), then the tick and expiry of each of its conditions.
pub open spec fn spec_end_turn_player(state: BattleState, i: int) -> Seq<BattleCommand> {
    let p = state.players[i];
    match spec_active(p) {
        None => seq![],
        Some(pk) => if pk.curr_hp == 0 {
            seq![]
        } else {
            let damage = crate::pokemon::spec_status_damage(pk.status, pk.stats.hp);
            let status_part = match pk.status {
                Some(status) => if damage > 0 {
                    seq![BattleCommand::DealStatusDamage { target: spec_from_index(i), status, amount: damage as u16 }]
                } else {
                    seq![]
                },
                None => seq![],
            };
            status_part + spec_condition_ticks(p.active_pokemon_conditions.spec_in_order(), spec_from_index(i))
        },
    }
}

/// The tick of each team condition, in order, each followed by its expiry when at most one
/// turn was left.
pub open spec fn spec_team_ticks(conditions: Seq<(crate::schema::TeamCondition, u8)>, target: PlayerTarget) -> Seq<BattleCommand>
    decreases conditions.len(),
{
    if conditions.len() == 0 {
        seq![]
    } else {
        let (c, turns) = conditions.last();
        spec_team_ticks(conditions.drop_last(), target) + seq![BattleCommand::TickTeamCondition { target, condition: c }]
            + if turns <= 1 {
            seq![BattleCommand::ExpireTeamCondition { target, condition: c }]
        } else {
            seq![]
        }
    }
}

/// Every end-of-turn effect: each player's status damage and condition ticks, then
/// condition damage, then each player's team condition ticks.
pub open spec fn spec_end_turn(state: BattleState) -> Seq<BattleCommand> {
    spec_end_turn_player(state, 0) + spec_end_turn_player(state, 1) + spec_condition_damage(state)
        + spec_team_ticks(
        crate::player::spec_active_team_conditions(state.players[0].team_conditions),
        PlayerTarget::Player1,
    ) + spec_team_ticks(
        crate::player::spec_active_team_conditions(state.players[1].team_conditions),
        PlayerTarget::Player2,
    )
}

fn end_turn_player(state: &BattleState, player_index: usize, commands: &mut Vec<BattleCommand>)
    requires
        spec_cmds_safe(old(commands)@),
        state.wf(),
        player_index < 2,
    ensures
        spec_cmds_safe(final(commands)@),
        final(commands)@ == old(commands)@ + spec_end_turn_player(*state, player_index as int),
{
    let player = &state.players[player_index];
    let ghost start = commands@;
    if let Some(pokemon) = player.active_pokemon() {
        if pokemon.is_fainted() {
            assert(start + seq![] =~= start);
            return;
        }
        if let Some(status) = pokemon.status {
            let status_damage = pokemon.calculate_status_damage();
            if status_damage > 0 {
                commands.push(
                    BattleCommand::DealStatusDamage {
                        target: PlayerTarget::from_index(player_index),
                        status,
                        amount: status_damage,
                    },
                );
            }
        }
        let ghost after_status = commands@;
        let target = PlayerTarget::from_index(player_index);
        let conditions = player.active_pokemon_conditions.to_vec();
        let mut i: usize = 0;
        while i < conditions.len()
            invariant
                0 <= i <= conditions.len(),
                commands@ == after_status + spec_condition_ticks(conditions@.take(i as int), target),
                spec_cmds_safe(commands@),
            decreases conditions.len() - i,
        {
            assert(conditions@.take(i + 1).drop_last() =~= conditions@.take(i as int));
            let condition = conditions[i];
            commands.push(BattleCommand::TickPokemonCondition { target, condition });
            let should_expire = match condition {
                PokemonCondition::Confused { turns_remaining } => turns_remaining <= 1,
                PokemonCondition::Exhausted { turns_remaining } => turns_remaining == 0,
                PokemonCondition::Trapped { turns_remaining } => turns_remaining <= 1,
                PokemonCondition::Rampaging { turns_remaining } => turns_remaining == 0,
                PokemonCondition::Disabled { turns_remaining, .. } => turns_remaining == 0,
                PokemonCondition::Biding { turns_remaining, .. } => turns_remaining == 0,
                PokemonCondition::Flinched | PokemonCondition::Teleported | PokemonCondition::Countering {
                    ..
                } => true,
                _ => false,
            };
            if should_expire {
                commands.push(BattleCommand::ExpirePokemonCondition { target, condition });
            }
            i = i + 1;
            assert(commands@ =~= after_status + spec_condition_ticks(conditions@.take(i as int), target));
        }
        assert(conditions@.take(i as int) =~= conditions@);
        assert(commands@ =~= start + spec_end_turn_player(*state, player_index as int));
    } else {
        assert(start + seq![] =~= start);
    }
}

fn team_ticks(state: &BattleState, player_index: usize, commands: &mut Vec<BattleCommand>)
    requires
        spec_cmds_safe(old(commands)@),
        player_index < 2,
    ensures
        spec_cmds_safe(final(commands)@),
        final(commands)@ == old(commands)@ + spec_team_ticks(
            crate::player::spec_active_team_conditions(state.players[player_index as int].team_conditions),
            spec_from_index(player_index as int),
        ),
{
    let target = PlayerTarget::from_index(player_index);
    let active = state.players[player_index].team_conditions.active();
    let ghost start = commands@;
    let mut i: usize = 0;
    while i < active.len()
        invariant
            0 <= i <= active.len(),
            commands@ == start + spec_team_ticks(active@.take(i as int), target),
            spec_cmds_safe(commands@),
        decreases active.len() - i,
    {
        assert(active@.take(i + 1).drop_last() =~= active@.take(i as int));
        let (condition, turns) = active[i];
        commands.push(BattleCommand::TickTeamCondition { target, condition });
        if turns <= 1 {
            commands.push(BattleCommand::ExpireTeamCondition { target, condition });
        }
        i = i + 1;
        assert(commands@ =~= start + spec_team_ticks(active@.take(i as int), target));
    }
    assert(active@.take(i as int) =~= active@);
}

/// Every end-of-turn effect of the battle (see `spec_end_turn`); uses no roll.
pub fn calculate_end_turn_commands(battle_state: &BattleState, _rng: &mut TurnRng) -> (r: Vec<BattleCommand>)
    requires
        battle_state.wf(),
    ensures
        spec_cmds_safe(r@),
        r@ == spec_end_turn(*battle_state),
        final(_rng).remaining() == old(_rng).remaining(),
{
    let mut commands: Vec<BattleCommand> = Vec::new();
    end_turn_player(battle_state, 0, &mut commands);
    end_turn_player(battle_state, 1, &mut commands);
    let mut condition_damage = calculate_condition_damage_commands(battle_state);
    commands.append(&mut condition_damage);
    team_ticks(battle_state, 0, &mut commands);
    team_ticks(battle_state, 1, &mut commands);
    assert(commands@ =~= spec_end_turn(*battle_state));
    commands
}

/// The action a player is forced into: using the move it is locked into, from the first
/// slot of its active Pokemon that holds it.
pub open spec fn spec_forced_action_player(state: BattleState, i: int) -> Seq<BattleCommand> {
    let p = state.players[i];
    match (crate::player::spec_forced_move(p), spec_active(p)) {
        (Some(m), Some(pk)) => match crate::pokemon::spec_first_move_slot(pk.moves, m) {
            Some(slot) => seq![
                BattleCommand::QueueForcedAction {
                    target: spec_from_index(i),
                    action: crate::player::PlayerAction::UseMove { move_index: slot as usize },
                },
            ],
            None => seq![],
        },
        _ => seq![],
    }
}

fn first_move_slot(pokemon: &PokemonInst, m: Move) -> (r: Option<usize>)
    ensures
        match crate::pokemon::spec_first_move_slot(pokemon.moves, m) {
            Some(k) => r == Some(k as usize),
            None => r is None,
        },
{
    let mut i: usize = 0;
    while i < 4
        invariant
            0 <= i <= 4,
            forall|k: int| 0 <= k < i ==> !crate::pokemon::spec_slot_has(#[trigger] pokemon.moves[k], m),
        decreases 4 - i,
    {
        if let Some(inst) = pokemon.moves[i] {
            if inst.move_ == m {
                return Some(i);
            }
        }
        i = i + 1;
    }
    None
}

/// The forced actions of both players for the next turn, the first player first.
pub fn calculate_forced_action_commands(battle_state: &BattleState) -> (r: Vec<BattleCommand>)
    requires
        battle_state.wf(),
    ensures
        spec_cmds_safe(r@),
        r@ == spec_forced_action_player(*battle_state, 0) + spec_forced_action_player(*battle_state, 1),
{
    let mut commands: Vec<BattleCommand> = Vec::new();
    let mut player_index: usize = 0;
    while player_index < 2
        invariant
            0 <= player_index <= 2,
            battle_state.wf(),
            player_index == 0 ==> commands@ == Seq::<BattleCommand>::empty(),
            player_index == 1 ==> commands@ == spec_forced_action_player(*battle_state, 0),
            player_index == 2 ==> commands@ == spec_forced_action_player(*battle_state, 0)
                + spec_forced_action_player(*battle_state, 1),
        decreases 2 - player_index,
    {
        let ghost before = commands@;
        let player = &battle_state.players[player_index];
        if let Some(forced_move) = player.forced_move() {
            if let Some(active_pokemon) = player.active_pokemon() {
                if let Some(index) = first_move_slot(active_pokemon, forced_move) {
                    commands.push(
                        BattleCommand::QueueForcedAction {
                            target: PlayerTarget::from_index(player_index),
                            action: crate::player::PlayerAction::UseMove { move_index: index },
                        },
                    );
                }
            }
        }
        assert(commands@ =~= before + spec_forced_action_player(*battle_state, player_index as int));
        player_index = player_index + 1;
    }
    commands
}

/// The commands of a switch by player `player_index` to slot `target_pokemon_index`: the
/// player's battle state is cleared, an event reports the switch when both slots hold a
/// Pokemon, then the switch happens.
pub open spec fn spec_switch_commands(player_index: usize, target_pokemon_index: usize, state: BattleState) -> Seq<BattleCommand> {
    let p = state.players[player_index as int];
    let t = spec_from_index(player_index as int);
    let event = match (spec_active(p), p.team[target_pokemon_index as int]) {
        (Some(old_p), Some(new_p)) => seq![
            BattleCommand::EmitEvent(
                BattleEvent::PokemonSwitched { player_index, old_pokemon: old_p.species, new_pokemon: new_p.species },
            ),
        ],
        _ => seq![],
    };
    seq![BattleCommand::ClearPlayerState { target: t }] + event + seq![
        BattleCommand::SwitchPokemon { target: t, new_pokemon_index: target_pokemon_index },
    ]
}

/// The commands of a switch (see `spec_switch_commands`).
pub fn calculate_switch_commands(player_index: usize, target_pokemon_index: usize, battle_state: &BattleState) -> (r:
    Vec<BattleCommand>)
    requires
        battle_state.wf(),
        player_index < 2,
        target_pokemon_index < 6,
    ensures
        spec_cmds_safe(r@),
        r@ == spec_switch_commands(player_index, target_pokemon_index, *battle_state),
{
    let target = PlayerTarget::from_index(player_index);
    let player = &battle_state.players[player_index];
    let mut commands: Vec<BattleCommand> = Vec::new();
    commands.push(BattleCommand::ClearPlayerState { target });
    if let (Some(old), Some(new)) = (player.active_pokemon(), &player.team[target_pokemon_index]) {
        commands.push(
            BattleCommand::EmitEvent(
                BattleEvent::PokemonSwitched { player_index, old_pokemon: old.species, new_pokemon: new.species },
            ),
        );
    }
    commands.push(BattleCommand::SwitchPokemon { target, new_pokemon_index: target_pokemon_index });
    assert(commands@ =~= spec_switch_commands(player_index, target_pokemon_index, *battle_state));
    commands
}

/// The commands of a forfeit by player `player_index`: the other player wins, the player is
/// reported defeated and the battle ended.
pub open spec fn spec_forfeit_commands(player_index: usize) -> Seq<BattleCommand> {
    seq![
        BattleCommand::SetGameState(
            if player_index == 0 {
                GameState::Player2Win
            } else {
                GameState::Player1Win
            },
        ),
        BattleCommand::EmitEvent(BattleEvent::PlayerDefeated { player_index }),
        BattleCommand::EmitEvent(
            BattleEvent::BattleEnded {
                winner: Some(
                    if player_index == 0 {
                        1usize
                    } else {
                        0usize
                    },
                ),
            },
        ),
    ]
}

/// The commands of a forfeit (see `spec_forfeit_commands`).
pub fn calculate_forfeit_commands(player_index: usize) -> (r: Vec<BattleCommand>)
    ensures
        spec_cmds_safe(r@),
        r@ == spec_forfeit_commands(player_index),
{
    let new_state = if player_index == 0 {
        GameState::Player2Win
    } else {
        GameState::Player1Win
    };
    let winner: usize = if player_index == 0 {
        1
    } else {
        0
    };
    let r = vec![
        BattleCommand::SetGameState(new_state),
        BattleCommand::EmitEvent(BattleEvent::PlayerDefeated { player_index }),
        BattleCommand::EmitEvent(BattleEvent::BattleEnded { winner: Some(winner) }),
    ];
    assert(r@ =~= spec_forfeit_commands(player_index));
    r
}


/// Whether a Nightmare move fails: the opponent's active Pokemon is present and not asleep.
pub open spec fn spec_nightmare_fails(state: BattleState, player_index: usize, m: Move) -> bool {
    spec_move_effects(m).contains(MoveEffect::Nightmare) && match spec_active(state.players[1 - player_index]) {
        Some(target) => !(target.status matches Some(crate::pokemon::StatusCondition::Sleep(_))),
        None => false,
    }
}

/// The checks that can stop an active Pokemon after its status was looked at, given the
/// commands and rolls so far: flinching, exhaustion, full paralysis (a roll below 25),
/// confusion (ended at 0 turns, else a roll below 50 stops it), a disabled move, and a
/// Nightmare move against a target that is not asleep.
pub open spec fn spec_prevention_checks(
    player_index: usize,
    state: BattleState,
    rolls: Seq<u8>,
    m: Move,
    cmds: Seq<BattleCommand>,
    used: nat,
) -> (Option<ActionFailureReason>, Seq<BattleCommand>, nat) {
    let p = state.players[player_index as int];
    let pk = spec_active(p).unwrap();
    let species = pk.species;
    let conds = p.active_pokemon_conditions;
    if conds.view().dom().contains(PokemonConditionType::Flinched) {
        (Some(ActionFailureReason::IsFlinching { pokemon: species }), cmds, used)
    } else if conds.spec_get(PokemonConditionType::Exhausted) matches Some(PokemonCondition::Exhausted { turns_remaining }) && turns_remaining > 0 {
        (Some(ActionFailureReason::IsExhausted { pokemon: species }), cmds, used)
    } else if pk.status == Some(crate::pokemon::StatusCondition::Paralysis) && rolls[used as int] < 25 {
        (Some(ActionFailureReason::IsParalyzed { pokemon: species }), cmds, used + 1)
    } else {
        let used2: nat = if pk.status == Some(crate::pokemon::StatusCondition::Paralysis) {
            used + 1
        } else {
            used
        };
        let confused = conds.spec_get(PokemonConditionType::Confused);
        if confused matches Some(PokemonCondition::Confused { turns_remaining }) && turns_remaining > 0 && rolls[used2 as int] < 50 {
            (Some(ActionFailureReason::IsConfused { pokemon: species }), cmds, used2 + 1)
        } else {
            let (cmds3, used3): (Seq<BattleCommand>, nat) = match confused {
                Some(PokemonCondition::Confused { turns_remaining }) => if turns_remaining == 0 {
                    (
                        cmds + seq![
                            BattleCommand::ExpirePokemonCondition {
                                target: spec_from_index(player_index as int),
                                condition: PokemonCondition::Confused { turns_remaining: 0 },
                            },
                        ],
                        used2,
                    )
                } else {
                    (cmds, used2 + 1)
                },
                _ => (cmds, used2),
            };
            if conds.spec_get(PokemonConditionType::Disabled) matches Some(PokemonCondition::Disabled { pokemon_move, turns_remaining }) && turns_remaining > 0 && pokemon_move == m {
                (Some(ActionFailureReason::MoveFailedToExecute { move_used: m }), cmds3, used3)
            } else if spec_nightmare_fails(state, player_index, m) {
                (Some(ActionFailureReason::MoveFailedToExecute { move_used: m }), cmds3, used3)
            } else {
                (None, cmds3, used3)
            }
        }
    }
}

/// Whether and why player `player_index`'s active Pokemon fails to act with `m`, the
/// commands that go with the check, and the rolls used. Without an active Pokemon it has
/// fainted. A sleeping Pokemon with turns left stays asleep (its sleep progresses); a frozen
/// one thaws on a roll of at most 25 and stays frozen otherwise. Any other Pokemon's status then
/// progresses, and the remaining checks follow (see `spec_prevention_checks`).
pub open spec fn spec_action_prevention(player_index: usize, state: BattleState, rolls: Seq<u8>, m: Move) -> (Option<ActionFailureReason>, Seq<BattleCommand>, nat) {
    let p = state.players[player_index as int];
    let t = spec_from_index(player_index as int);
    match spec_active(p) {
        None => (Some(ActionFailureReason::PokemonFainted), seq![], 0),
        Some(pk) => match pk.status {
            Some(crate::pokemon::StatusCondition::Sleep(n)) if n > 0 => (
                Some(ActionFailureReason::IsAsleep { pokemon: pk.species }),
                seq![BattleCommand::UpdateStatusProgress { target: t }],
                0,
            ),
            Some(crate::pokemon::StatusCondition::Freeze) => if rolls[0] <= 25 {
                spec_prevention_checks(
                    player_index,
                    state,
                    rolls,
                    m,
                    seq![
                        BattleCommand::CurePokemonStatus {
                            target: t,
                            status: crate::pokemon::StatusCondition::Freeze,
                        },
                        BattleCommand::UpdateStatusProgress { target: t },
                    ],
                    1,
                )
            } else {
                (Some(ActionFailureReason::IsFrozen { pokemon: pk.species }), seq![], 1)
            },
            _ => spec_prevention_checks(
                player_index,
                state,
                rolls,
                m,
                seq![BattleCommand::UpdateStatusProgress { target: t }],
                0,
            ),
        },
    }
}

fn has_nightmare(m: Move) -> (r: bool)
    ensures
        r == spec_move_effects(m).contains(MoveEffect::Nightmare),
{
    let move_data = MoveData::get_move_data(m);
    let mut i: usize = 0;
    while i < move_data.effects.len()
        invariant
            0 <= i <= move_data.effects.len(),
            move_data.effects@ == spec_move_effects(m),
            forall|k: int| 0 <= k < i ==> move_data.effects@[k] != MoveEffect::Nightmare,
        decreases move_data.effects.len() - i,
    {
        if move_data.effects[i] == MoveEffect::Nightmare {
            assert(move_data.effects@[i as int] == MoveEffect::Nightmare);
            return true;
        }
        i = i + 1;
    }
    false
}

fn prevention_checks(
    player_index: usize,
    battle_state: &BattleState,
    rng: &mut TurnRng,
    move_used: Move,
    commands: Vec<BattleCommand>,
    rolls: Ghost<Seq<u8>>,
    used: Ghost<nat>,
) -> (r: (Option<ActionFailureReason>, Vec<BattleCommand>))
    requires
        battle_state.wf(),
        player_index < 2,
        spec_active(battle_state.players[player_index as int]) is Some,
        used@ <= rolls@.len(),
        spec_prevention_checks(player_index, *battle_state, rolls@, move_used, commands@, used@).2
            <= rolls@.len(),
        old(rng).remaining() == rolls@.skip(used@ as int),
    ensures
        ({
            let (reason, cmds, total) = spec_prevention_checks(
                player_index,
                *battle_state,
                rolls@,
                move_used,
                commands@,
                used@,
            );
            &&& r.0 == reason
            &&& r.1@ == cmds
            &&& total <= rolls@.len()
            &&& final(rng).remaining() == rolls@.skip(total as int)
        }),
        spec_cmds_safe(commands@) ==> spec_cmds_safe(r.1@),
{
    let mut commands = commands;
    let ghost all = rolls@;
    let ghost u = used@;
    let player = &battle_state.players[player_index];
    let pokemon = player.active_pokemon().unwrap();
    let species = pokemon.species;
    if player.has_condition_type(PokemonConditionType::Flinched) {
        return (Some(ActionFailureReason::IsFlinching { pokemon: species }), commands);
    }
    if let Some(PokemonCondition::Exhausted { turns_remaining }) = player.active_pokemon_conditions.get(
        PokemonConditionType::Exhausted,
    ) {
        if turns_remaining > 0 {
            return (Some(ActionFailureReason::IsExhausted { pokemon: species }), commands);
        }
    }
    let ghost mut consumed: nat = u;
    if pokemon.status == Some(crate::pokemon::StatusCondition::Paralysis) {
        let roll = rng.next_outcome("Immobilized by Paralysis Check");
        assert(roll == all[u as int]);
        assert(all.skip(u as int).drop_first() =~= all.skip((u + 1) as int));
        proof {
            consumed = u + 1;
        }
        if roll < 25 {
            return (Some(ActionFailureReason::IsParalyzed { pokemon: species }), commands);
        }
    }
    assert(rng.remaining() == all.skip(consumed as int));
    let confused = player.active_pokemon_conditions.get(PokemonConditionType::Confused);
    if let Some(PokemonCondition::Confused { turns_remaining }) = confused {
        if turns_remaining == 0 {
            commands.push(
                BattleCommand::ExpirePokemonCondition {
                    target: PlayerTarget::from_index(player_index),
                    condition: PokemonCondition::Confused { turns_remaining: 0 },
                },
            );
        } else {
            let roll = rng.next_outcome("Hit Itself in Confusion Check");
            assert(roll == all[consumed as int]);
            assert(all.skip(consumed as int).drop_first() =~= all.skip((consumed + 1) as int));
            proof {
                consumed = consumed + 1;
            }
            if roll < 50 {
                return (Some(ActionFailureReason::IsConfused { pokemon: species }), commands);
            }
        }
    }
    if let Some(PokemonCondition::Disabled { pokemon_move, turns_remaining }) = player.active_pokemon_conditions.get(
        PokemonConditionType::Disabled,
    ) {
        if turns_remaining > 0 && pokemon_move == move_used {
            return (Some(ActionFailureReason::MoveFailedToExecute { move_used: pokemon_move }), commands);
        }
    }
    if has_nightmare(move_used) {
        let target_index: usize = if player_index == 0 {
            1
        } else {
            0
        };
        if let Some(target_pokemon) = battle_state.players[target_index].active_pokemon() {
            let is_asleep = matches!(target_pokemon.status, Some(crate::pokemon::StatusCondition::Sleep(_)));
            if !is_asleep {
                return (Some(ActionFailureReason::MoveFailedToExecute { move_used }), commands);
            }
        }
    }
    (None, commands)
}

/// Whether the active Pokemon of player `player_index` fails to act with `move_used` (see
/// `spec_action_prevention`); uses at most two rolls.
pub fn calculate_action_prevention(
    player_index: usize,
    battle_state: &BattleState,
    rng: &mut TurnRng,
    move_used: Move,
) -> (r: (Option<ActionFailureReason>, Vec<BattleCommand>))
    requires
        battle_state.wf(),
        player_index < 2,
        spec_action_prevention(player_index, *battle_state, old(rng).remaining(), move_used).2 <= old(rng).remaining().len(),
    ensures
        ({
            let (reason, cmds, used) = spec_action_prevention(
                player_index,
                *battle_state,
                old(rng).remaining(),
                move_used,
            );
            &&& r.0 == reason
            &&& r.1@ == cmds
            &&& final(rng).remaining() == old(rng).remaining().skip(used as int)
        }),
        spec_cmds_safe(r.1@),
{
    let ghost rolls = old(rng).remaining();
    assert(rolls.skip(0) =~= rolls);
    let mut commands: Vec<BattleCommand> = Vec::new();
    let player = &battle_state.players[player_index];
    let target = PlayerTarget::from_index(player_index);
    let pokemon = match player.active_pokemon() {
        Some(p) => p,
        None => {
            return (Some(ActionFailureReason::PokemonFainted), commands);
        },
    };
    let mut used: usize = 0;
    match pokemon.status {
        Some(crate::pokemon::StatusCondition::Sleep(turns)) => {
            if turns > 0 {
                commands.push(BattleCommand::UpdateStatusProgress { target });
                assert(commands@ =~= seq![BattleCommand::UpdateStatusProgress { target }]);
                return (Some(ActionFailureReason::IsAsleep { pokemon: pokemon.species }), commands);
            }
        },
        Some(crate::pokemon::StatusCondition::Freeze) => {
            let roll = rng.next_outcome("Defrost Check");
            assert(rolls.skip(1) =~= rolls.drop_first());
            used = 1;
            if roll <= 25 {
                commands.push(
                    BattleCommand::CurePokemonStatus { target, status: crate::pokemon::StatusCondition::Freeze },
                );
            } else {
                return (Some(ActionFailureReason::IsFrozen { pokemon: pokemon.species }), commands);
            }
        },
        _ => {},
    }
    commands.push(BattleCommand::UpdateStatusProgress { target });
    prevention_checks(player_index, battle_state, rng, move_used, commands, Ghost(rolls), Ghost(used as nat))
}

/// A substitute takes the hit for the Pokemon behind it: no damage command reaches the
/// defender, the substitute loses as much HP as it has up to the damage, and it is removed
/// exactly when nothing of it is left. Without a substitute the defender takes the damage.
pub proof fn lemma_substitute_takes_the_hit(
    damage: u16,
    defender: PokemonInst,
    defender_player: BattlePlayer,
    defender_index: usize,
)
    ensures
        ({
            let cmds = spec_damage_application(damage, defender, defender_player, defender_index);
            let t = spec_from_index(defender_index as int);
            match spec_substitute_hp_of(defender_player) {
                Some(hp) => {
                    &&& forall|k: int| 0 <= k < cmds.len() ==> !(#[trigger] cmds[k] is DealDamage)
                    &&& damage >= hp ==> cmds[0] == BattleCommand::RemoveSpecificCondition {
                        target: t,
                        condition: PokemonCondition::Substitute { hp },
                    }
                    &&& damage < hp ==> cmds[1] == BattleCommand::AddCondition {
                        target: t,
                        condition: PokemonCondition::Substitute { hp: (hp - damage) as u8 },
                    }
                },
                None => cmds == seq![BattleCommand::DealDamage { target: t, amount: damage }],
            }
        }),
{
    if let Some(hp) = spec_substitute_hp_of(defender_player) {
        let cmds = spec_damage_application(damage, defender, defender_player, defender_index);
        assert forall|k: int| 0 <= k < cmds.len() implies !(#[trigger] cmds[k] is DealDamage) by {
            if damage >= hp {
                assert(cmds.len() == 2);
            } else {
                assert(cmds.len() == 3);
            }
        }
    }
}

} // verus!
