//! What each move effect does to a battle: a move's effects are turned into commands,
//! with the random rolls they use taken from the turn's source in order.
use vstd::prelude::*;

pub mod damage_effects;
pub mod special_effects;
pub mod stat_effects;
pub mod status_effects;

use crate::battle::action_stack::BattleAction;
use crate::battle::commands::{spec_cmds_safe, BattleCommand};
use crate::battle::conditions::{PokemonCondition, PokemonConditionType};
use crate::battle::state::{BattleState, TurnRng};
use crate::moves::{spec_move_effects, Move, MoveData, MoveEffect};
use crate::player::BattlePlayer;
use crate::pokemon::StatusCondition;
use crate::schema::{PokemonType, Target};

use self::damage_effects::{
    spec_percent_of, spec_heal_effect, apply_heal_effect, spec_ante_effect, apply_ante_effect, spec_recoil_effect, apply_recoil_effect, spec_drain_effect, apply_drain_effect, spec_reckless_effect, apply_reckless_effect,
};
use self::special_effects::{
    spec_two_turn_effect, apply_in_air_special, apply_charge_up_special, apply_underground_special, spec_self_condition, apply_teleport_special, apply_counter_special, apply_rage_special, spec_transform_special, apply_transform_special, spec_conversion_special, apply_conversion_special, spec_substitute_hp, spec_substitute_special, apply_substitute_special, spec_rampage_special, apply_rampage_special, spec_explode_special, apply_explode_special, spec_bide_release, spec_bide_special, apply_bide_special, spec_rest_special, apply_rest_special, spec_mirror_move_failed, spec_called_move, spec_mirror_move_special, apply_mirror_move_special, spec_metronome_move, spec_metronome_special, apply_metronome_special, spec_team_condition_effect, apply_team_condition_effect,
};
use self::stat_effects::{
    spec_clamp_six, spec_stat_change_effect, apply_stat_change_effect, spec_raise_one, spec_raise_all_stats_effect, apply_raise_all_stats_effect, spec_reset_one, spec_haze_player, spec_haze_effect, apply_haze_effect,
};
use self::status_effects::{
    spec_major_status_effect, apply_burn_effect, apply_paralyze_effect, apply_freeze_effect, apply_poison_effect, spec_sedate_effect, apply_sedate_effect, spec_flinch_effect, apply_flinch_effect, spec_chance_condition, spec_confuse_effect, apply_confuse_effect, spec_trap_effect, apply_trap_effect, apply_seed_effect, apply_exhaust_effect, spec_status_matches, spec_cure_status_effect, apply_cure_status_effect,
};

verus! {

/// The attacker, the defender and the move of an effect.
#[derive(Debug, Clone, Copy)]
pub struct EffectContext {
    pub attacker_index: usize,
    pub defender_index: usize,
    pub move_used: Move,
}

impl EffectContext {
    /// Both indices name a player.
    pub open spec fn wf(&self) -> bool {
        self.attacker_index < 2 && self.defender_index < 2
    }

    /// The player index an effect target refers to.
    pub open spec fn spec_index_of(&self, target: Target) -> usize {
        match target {
            Target::User => self.attacker_index,
            Target::Target => self.defender_index,
        }
    }

    /// A context for `move_used` from `attacker_index` against `defender_index`.
    pub fn new(attacker_index: usize, defender_index: usize, move_used: Move) -> (r: EffectContext)
        ensures
            r.attacker_index == attacker_index,
            r.defender_index == defender_index,
            r.move_used == move_used,
    {
        EffectContext { attacker_index, defender_index, move_used }
    }

    /// The player index an effect target refers to: the attacker for the user, the defender
    /// for the target.
    pub fn target_index(&self, target: &Target) -> (r: usize)
        ensures
            r == self.spec_index_of(*target),
    {
        match target {
            Target::User => self.attacker_index,
            Target::Target => self.defender_index,
        }
    }
}

/// The commands of an effect, and whether the rest of the move goes on.
#[derive(Debug, Clone)]
pub enum EffectResult {
    /// The move goes on.
    Continue(Vec<BattleCommand>),
    /// The rest of the move is skipped.
    Skip(Vec<BattleCommand>),
    /// Happens whether or not the move hits.
    Ensured(Vec<BattleCommand>),
}

impl EffectResult {
    /// Whether the rest of the move is skipped.
    pub open spec fn skips(self) -> bool {
        self is Skip
    }

    /// The commands of the effect.
    pub open spec fn commands(self) -> Seq<BattleCommand> {
        match self {
            EffectResult::Continue(v) => v@,
            EffectResult::Skip(v) => v@,
            EffectResult::Ensured(v) => v@,
        }
    }
}

/// Whether a substitute stops an effect: effects on the user, effects on the damage dealt,
/// move modifiers, Haze and team conditions pass; stat changes and cures pass when aimed at
/// the user; every other effect is stopped.
pub open spec fn spec_blocked_by_substitute(effect: MoveEffect) -> bool {
    match effect {
        MoveEffect::Heal(_) | MoveEffect::Exhaust(_) | MoveEffect::RaiseAllStats(_) | MoveEffect::Rest(
            _,
        ) | MoveEffect::Rage(_) | MoveEffect::Substitute | MoveEffect::Transform
        | MoveEffect::Conversion | MoveEffect::Counter | MoveEffect::Bide(_) | MoveEffect::Explode
        | MoveEffect::Reckless(_) | MoveEffect::MirrorMove | MoveEffect::Metronome
        | MoveEffect::Recoil(_) | MoveEffect::Drain(_) | MoveEffect::Crit(_)
        | MoveEffect::IgnoreDef(_) | MoveEffect::Priority(_) | MoveEffect::MultiHit(_, _)
        | MoveEffect::Haze(_) | MoveEffect::SetTeamCondition(_, _) => false,
        MoveEffect::StatChange(target, _, _, _) => target == Target::Target,
        MoveEffect::CureStatus(target, _) => target == Target::Target,
        _ => true,
    }
}

/// Whether a substitute stops the effect (see `spec_blocked_by_substitute`).
pub fn is_blocked_by_substitute(effect: &MoveEffect) -> (r: bool)
    ensures
        r == spec_blocked_by_substitute(*effect),
{
    match effect {
        MoveEffect::Heal(_) | MoveEffect::Exhaust(_) | MoveEffect::RaiseAllStats(_) | MoveEffect::Rest(
            _,
        ) | MoveEffect::Rage(_) | MoveEffect::Substitute | MoveEffect::Transform
        | MoveEffect::Conversion | MoveEffect::Counter | MoveEffect::Bide(_) | MoveEffect::Explode
        | MoveEffect::Reckless(_) | MoveEffect::MirrorMove | MoveEffect::Metronome
        | MoveEffect::Recoil(_) | MoveEffect::Drain(_) | MoveEffect::Crit(_)
        | MoveEffect::IgnoreDef(_) | MoveEffect::Priority(_) | MoveEffect::MultiHit(_, _)
        | MoveEffect::Haze(_) | MoveEffect::SetTeamCondition(_, _) => false,
        MoveEffect::StatChange(target, _, _, _) => *target == Target::Target,
        MoveEffect::CureStatus(target, _) => *target == Target::Target,
        _ => true,
    }
}

/// Whether the player's active Pokemon is behind a substitute.
pub open spec fn spec_has_substitute(p: BattlePlayer) -> bool {
    p.active_pokemon_conditions.spec_get(PokemonConditionType::Substitute) matches Some(
        PokemonCondition::Substitute { .. },
    )
}

/// A list of commands that never skips the move.
pub open spec fn spec_go_on(r: (Seq<BattleCommand>, nat)) -> (bool, Seq<BattleCommand>, nat) {
    (false, r.0, r.1)
}

/// A result that uses no roll.
pub open spec fn spec_no_roll(r: (bool, Seq<BattleCommand>)) -> (bool, Seq<BattleCommand>, nat) {
    (r.0, r.1, 0)
}

/// What the effects that give statuses and conditions do.
pub open spec fn spec_apply_status_family(effect: MoveEffect, ctx: EffectContext, state: BattleState, rolls: Seq<u8>) -> (bool, Seq<BattleCommand>, nat) {
    let attacker = state.players[ctx.attacker_index as int];
    let defender = state.players[ctx.defender_index as int];
    let d = ctx.defender_index;
    match effect {
        MoveEffect::Burn(c) => spec_go_on(
            spec_major_status_effect(c, defender, d, PokemonType::Fire, StatusCondition::Burn, rolls),
        ),
        MoveEffect::Paralyze(c) => spec_go_on(
            spec_major_status_effect(c, defender, d, PokemonType::Electric, StatusCondition::Paralysis, rolls),
        ),
        MoveEffect::Freeze(c) => spec_go_on(
            spec_major_status_effect(c, defender, d, PokemonType::Ice, StatusCondition::Freeze, rolls),
        ),
        MoveEffect::Poison(c) => spec_go_on(
            spec_major_status_effect(c, defender, d, PokemonType::Poison, StatusCondition::Poison(0), rolls),
        ),
        MoveEffect::Sedate(c) => spec_go_on(spec_sedate_effect(c, defender, d, rolls)),
        MoveEffect::Flinch(c) => spec_go_on(spec_flinch_effect(c, defender, d, rolls)),
        MoveEffect::Confuse(c) => spec_go_on(spec_confuse_effect(c, defender, d, rolls)),
        MoveEffect::Trap(c) => spec_go_on(spec_trap_effect(c, defender, d, rolls)),
        MoveEffect::Seed(c) => spec_go_on(
            spec_chance_condition(c, defender, d, rolls, false, PokemonCondition::Seeded),
        ),
        MoveEffect::Exhaust(c) => spec_go_on(
            spec_chance_condition(
                c,
                attacker,
                ctx.attacker_index,
                rolls,
                false,
                PokemonCondition::Exhausted { turns_remaining: 2 },
            ),
        ),
        _ => (false, seq![], 0),
    }
}

/// What the effects on stats, HP, ante and team conditions do.
pub open spec fn spec_apply_stat_family(effect: MoveEffect, ctx: EffectContext, state: BattleState, rolls: Seq<u8>) -> (bool, Seq<BattleCommand>, nat) {
    let attacker = state.players[ctx.attacker_index as int];
    let a = ctx.attacker_index;
    match effect {
        MoveEffect::StatChange(target, stat, stages, chance) => (
            false,
            spec_stat_change_effect(
                stat,
                stages,
                chance,
                state.players[ctx.spec_index_of(target) as int],
                ctx.spec_index_of(target),
                a,
                rolls,
            ),
            1,
        ),
        MoveEffect::RaiseAllStats(c) => (false, spec_raise_all_stats_effect(c, attacker, a, rolls), 1),
        MoveEffect::Heal(p) => (false, spec_heal_effect(p, attacker, a), 0),
        MoveEffect::Haze(c) => (false, spec_haze_effect(c, state, rolls), 1),
        MoveEffect::CureStatus(target, kind) => (
            false,
            spec_cure_status_effect(
                state.players[ctx.spec_index_of(target) as int],
                ctx.spec_index_of(target),
                kind,
            ),
            0,
        ),
        MoveEffect::SetTeamCondition(c, turns) => (false, spec_team_condition_effect(c, turns, a), 0),
        MoveEffect::Ante(c) => (false, spec_ante_effect(c, attacker, a, rolls), 1),
        _ => (false, seq![], 0),
    }
}

/// What the effects that change how the move plays out do.
pub open spec fn spec_apply_special_family(effect: MoveEffect, ctx: EffectContext, state: BattleState, rolls: Seq<u8>) -> (bool, Seq<BattleCommand>, nat) {
    let attacker = state.players[ctx.attacker_index as int];
    let defender = state.players[ctx.defender_index as int];
    let a = ctx.attacker_index;
    let d = ctx.defender_index;
    match effect {
        MoveEffect::InAir => spec_no_roll(
            spec_two_turn_effect(attacker, a, PokemonConditionType::InAir, PokemonCondition::InAir),
        ),
        MoveEffect::Teleport(_) => spec_no_roll(
            spec_self_condition(attacker, a, PokemonCondition::Teleported, true),
        ),
        MoveEffect::ChargeUp => spec_no_roll(
            spec_two_turn_effect(attacker, a, PokemonConditionType::Charging, PokemonCondition::Charging),
        ),
        MoveEffect::Underground => spec_no_roll(
            spec_two_turn_effect(
                attacker,
                a,
                PokemonConditionType::Underground,
                PokemonCondition::Underground,
            ),
        ),
        MoveEffect::Transform => spec_no_roll(spec_transform_special(attacker, a, defender)),
        MoveEffect::Conversion => spec_no_roll(spec_conversion_special(attacker, a, defender)),
        MoveEffect::Substitute => spec_no_roll(spec_substitute_special(attacker, a)),
        MoveEffect::Counter => spec_no_roll(
            spec_self_condition(attacker, a, PokemonCondition::Countering { damage: 0 }, true),
        ),
        MoveEffect::Bide(turns) => spec_no_roll(spec_bide_special(turns, attacker, a, d)),
        MoveEffect::MirrorMove => spec_no_roll(spec_mirror_move_special(attacker, a, defender, d)),
        MoveEffect::Rest(turns) => spec_no_roll(spec_rest_special(turns, attacker, a)),
        MoveEffect::Metronome => {
            let (s, c) = spec_metronome_special(attacker, a, d, rolls);
            (s, c, 1)
        },
        MoveEffect::Rampage => spec_rampage_special(attacker, a, rolls),
        MoveEffect::Rage(_) => spec_no_roll(spec_self_condition(attacker, a, PokemonCondition::Enraged, false)),
        MoveEffect::Explode => spec_no_roll(spec_explode_special(attacker, a)),
        _ => (false, seq![], 0),
    }
}

/// Which family an effect belongs to: 0 for statuses and conditions on a chance, 1 for stats,
/// HP, ante and team conditions, 2 for the special move behaviours, 3 for effects applied
/// elsewhere (damage modifiers, recoil and drain, priority, multi-hit, fixed damage).
pub open spec fn spec_effect_family(effect: MoveEffect) -> int {
    match effect {
        MoveEffect::Burn(_) | MoveEffect::Paralyze(_) | MoveEffect::Freeze(_) | MoveEffect::Poison(_)
        | MoveEffect::Sedate(_) | MoveEffect::Flinch(_) | MoveEffect::Confuse(_) | MoveEffect::Trap(_)
        | MoveEffect::Seed(_) | MoveEffect::Exhaust(_) => 0,
        MoveEffect::StatChange(_, _, _, _) | MoveEffect::RaiseAllStats(_) | MoveEffect::Heal(_)
        | MoveEffect::Haze(_) | MoveEffect::CureStatus(_, _) | MoveEffect::SetTeamCondition(_, _)
        | MoveEffect::Ante(_) => 1,
        MoveEffect::InAir | MoveEffect::Teleport(_) | MoveEffect::ChargeUp | MoveEffect::Underground
        | MoveEffect::Transform | MoveEffect::Conversion | MoveEffect::Substitute | MoveEffect::Counter
        | MoveEffect::Bide(_) | MoveEffect::MirrorMove | MoveEffect::Rest(_) | MoveEffect::Metronome
        | MoveEffect::Rampage | MoveEffect::Rage(_) | MoveEffect::Explode => 2,
        _ => 3,
    }
}

/// What applying an effect does: whether the rest of the move is skipped, its commands, and
/// how many rolls it uses. Against a defender behind a substitute, a blocked effect does
/// nothing; effects applied elsewhere do nothing here.
pub open spec fn spec_apply_effect(effect: MoveEffect, ctx: EffectContext, state: BattleState, rolls: Seq<u8>) -> (bool, Seq<BattleCommand>, nat) {
    if spec_has_substitute(state.players[ctx.defender_index as int]) && spec_blocked_by_substitute(effect) {
        (false, seq![], 0)
    } else if spec_effect_family(effect) == 0 {
        spec_apply_status_family(effect, ctx, state, rolls)
    } else if spec_effect_family(effect) == 1 {
        spec_apply_stat_family(effect, ctx, state, rolls)
    } else if spec_effect_family(effect) == 2 {
        spec_apply_special_family(effect, ctx, state, rolls)
    } else {
        (false, seq![], 0)
    }
}

/// The next hit of a multi-hit move: with `g` guaranteed hits and continuation chance `c`,
/// the hit after `hit_number` (counted with 8-bit wrap-around) follows for sure while below
/// `g`; otherwise, up to the seventh hit, one roll at most `c` lets it follow.
pub open spec fn spec_multi_hit_continuation(effect: MoveEffect, ctx: EffectContext, hit_number: u8, rolls: Seq<u8>) -> (Option<BattleCommand>, nat) {
    match effect {
        MoveEffect::MultiHit(guaranteed_hits, continuation_chance) => {
            let next = ((hit_number as nat + 1) % 256) as u8;
            let push = BattleCommand::PushAction(
                BattleAction::AttackHit {
                    attacker_index: ctx.attacker_index,
                    defender_index: ctx.defender_index,
                    move_used: ctx.move_used,
                    hit_number: next,
                },
            );
            if next < guaranteed_hits {
                (Some(push), 0)
            } else if next <= 7 {
                if rolls[0] <= continuation_chance {
                    (Some(push), 1)
                } else {
                    (None, 1)
                }
            } else {
                (None, 0)
            }
        },
        _ => (None, 0),
    }
}

/// Applying a move effect during an attack.
pub trait BattleMoveEffectExt {
    /// How many rolls deciding on a next hit uses, given the rolls it would read.
    spec fn spec_continuation_rolls(&self, context: EffectContext, hit_number: u8, rolls: Seq<u8>) -> nat;

    /// How many rolls applying the effect uses, given the rolls it would read.
    spec fn spec_effect_rolls(&self, context: EffectContext, state: BattleState, rolls: Seq<u8>) -> nat;

    /// The next hit of a multi-hit move, if one follows.
    fn apply_multi_hit_continuation(&self, context: &EffectContext, rng: &mut TurnRng, hit_number: u8) -> Option<
        BattleCommand,
    >
        requires
            self.spec_continuation_rolls(*context, hit_number, old(rng).remaining()) <= old(
                rng,
            ).remaining().len(),
    ;

    /// The commands of the effect, and whether the rest of the move goes on.
    fn apply(&self, context: &EffectContext, state: &BattleState, rng: &mut TurnRng) -> EffectResult
        requires
            context.wf(),
            state.wf(),
            self.spec_effect_rolls(*context, *state, old(rng).remaining()) <= old(rng).remaining().len(),
    ;
}

fn apply_status_family(effect: MoveEffect, context: &EffectContext, state: &BattleState, rng: &mut TurnRng) -> (r:
    EffectResult)
    requires
        context.wf(),
        state.wf(),
        spec_apply_status_family(effect, *context, *state, old(rng).remaining()).2 <= old(rng).remaining().len(),
        spec_effect_family(effect) == 0,
    ensures
        spec_cmds_safe(r.commands()),
        ({
            let (skip, cmds, used) = spec_apply_status_family(effect, *context, *state, old(rng).remaining());
            r !is Ensured && r.skips() == skip && r.commands() == cmds && final(rng).remaining() == old(rng).remaining().skip(
                used as int,
            )
        }),
{
    match effect {
        MoveEffect::Burn(chance) => EffectResult::Continue(apply_burn_effect(chance, context, state, rng)),
        MoveEffect::Paralyze(chance) => EffectResult::Continue(apply_paralyze_effect(chance, context, state, rng)),
        MoveEffect::Freeze(chance) => EffectResult::Continue(apply_freeze_effect(chance, context, state, rng)),
        MoveEffect::Poison(chance) => EffectResult::Continue(apply_poison_effect(chance, context, state, rng)),
        MoveEffect::Sedate(chance) => EffectResult::Continue(apply_sedate_effect(chance, context, state, rng)),
        MoveEffect::Flinch(chance) => EffectResult::Continue(apply_flinch_effect(chance, context, state, rng)),
        MoveEffect::Confuse(chance) => EffectResult::Continue(apply_confuse_effect(chance, context, state, rng)),
        MoveEffect::Trap(chance) => EffectResult::Continue(apply_trap_effect(chance, context, state, rng)),
        MoveEffect::Seed(chance) => EffectResult::Continue(apply_seed_effect(chance, context, state, rng)),
        MoveEffect::Exhaust(chance) => EffectResult::Continue(apply_exhaust_effect(chance, context, state, rng)),
        _ => EffectResult::Continue(Vec::new()),
    }
}

fn apply_stat_family(effect: MoveEffect, context: &EffectContext, state: &BattleState, rng: &mut TurnRng) -> (r:
    EffectResult)
    requires
        context.wf(),
        state.wf(),
        spec_apply_stat_family(effect, *context, *state, old(rng).remaining()).2 <= old(rng).remaining().len(),
        spec_effect_family(effect) == 1,
    ensures
        spec_cmds_safe(r.commands()),
        ({
            let (skip, cmds, used) = spec_apply_stat_family(effect, *context, *state, old(rng).remaining());
            r !is Ensured && r.skips() == skip && r.commands() == cmds && final(rng).remaining() == old(rng).remaining().skip(
                used as int,
            )
        }),
{
    proof {
        assert(old(rng).remaining().skip(0) =~= old(rng).remaining());
        assert(old(rng).remaining().skip(1) =~= old(rng).remaining().drop_first());
    }
    match effect {
        MoveEffect::StatChange(target, stat, stages, chance) => EffectResult::Continue(
            apply_stat_change_effect(&target, &stat, stages, chance, context, state, rng),
        ),
        MoveEffect::RaiseAllStats(chance) => EffectResult::Continue(
            apply_raise_all_stats_effect(chance, context, state, rng),
        ),
        MoveEffect::Heal(percentage) => EffectResult::Continue(apply_heal_effect(percentage, context, state)),
        MoveEffect::Haze(chance) => EffectResult::Continue(apply_haze_effect(chance, context, state, rng)),
        MoveEffect::CureStatus(target, status_type) => EffectResult::Continue(
            apply_cure_status_effect(&target, &status_type, context, state),
        ),
        MoveEffect::SetTeamCondition(condition, turns) => EffectResult::Continue(
            apply_team_condition_effect(&condition, turns, context),
        ),
        MoveEffect::Ante(chance) => EffectResult::Continue(apply_ante_effect(chance, context, state, rng)),
        _ => EffectResult::Continue(Vec::new()),
    }
}

fn apply_special_family(effect: MoveEffect, context: &EffectContext, state: &BattleState, rng: &mut TurnRng) -> (r:
    EffectResult)
    requires
        context.wf(),
        state.wf(),
        spec_apply_special_family(effect, *context, *state, old(rng).remaining()).2 <= old(rng).remaining().len(),
        spec_effect_family(effect) == 2,
    ensures
        spec_cmds_safe(r.commands()),
        ({
            let (skip, cmds, used) = spec_apply_special_family(effect, *context, *state, old(rng).remaining());
            r !is Ensured && r.skips() == skip && r.commands() == cmds && final(rng).remaining() == old(rng).remaining().skip(
                used as int,
            )
        }),
{
    proof {
        assert(old(rng).remaining().skip(0) =~= old(rng).remaining());
        assert(old(rng).remaining().skip(1) =~= old(rng).remaining().drop_first());
    }
    match effect {
        MoveEffect::InAir => apply_in_air_special(context, state),
        MoveEffect::Teleport(_) => apply_teleport_special(context, state),
        MoveEffect::ChargeUp => apply_charge_up_special(context, state),
        MoveEffect::Underground => apply_underground_special(context, state),
        MoveEffect::Transform => apply_transform_special(context, state),
        MoveEffect::Conversion => apply_conversion_special(context, state),
        MoveEffect::Substitute => apply_substitute_special(context, state),
        MoveEffect::Counter => apply_counter_special(context, state),
        MoveEffect::Bide(turns) => apply_bide_special(turns, context, state),
        MoveEffect::MirrorMove => apply_mirror_move_special(context, state),
        MoveEffect::Rest(sleep_turns) => apply_rest_special(sleep_turns, context, state),
        MoveEffect::Metronome => apply_metronome_special(context, state, rng),
        MoveEffect::Rampage => apply_rampage_special(context, state, rng),
        MoveEffect::Rage(_) => apply_rage_special(context, state),
        MoveEffect::Explode => apply_explode_special(context, state),
        _ => EffectResult::Continue(Vec::new()),
    }
}

impl BattleMoveEffectExt for MoveEffect {
    open spec fn spec_continuation_rolls(&self, context: EffectContext, hit_number: u8, rolls: Seq<u8>) -> nat {
        spec_multi_hit_continuation(*self, context, hit_number, rolls).1
    }

    open spec fn spec_effect_rolls(&self, context: EffectContext, state: BattleState, rolls: Seq<u8>) -> nat {
        spec_apply_effect(*self, context, state, rolls).2
    }

    /// The next hit of a multi-hit move (see `spec_multi_hit_continuation`).
    fn apply_multi_hit_continuation(&self, context: &EffectContext, rng: &mut TurnRng, hit_number: u8) -> (r:
        Option<BattleCommand>)
        ensures
            r matches Some(c) ==> crate::battle::commands::spec_cmd_safe(c),
            ({
                let (cmd, used) = spec_multi_hit_continuation(*self, *context, hit_number, old(rng).remaining());
                r == cmd && final(rng).remaining() == old(rng).remaining().skip(used as int)
            }),
    {
        assert(old(rng).remaining().skip(0) =~= old(rng).remaining());
        assert(old(rng).remaining().skip(1) =~= old(rng).remaining().drop_first());
        if let MoveEffect::MultiHit(guaranteed_hits, continuation_chance) = *self {
            let next_hit_number = hit_number.wrapping_add(1);
            assert(next_hit_number == ((hit_number as nat + 1) % 256) as u8);
            let should_queue_next_hit = if next_hit_number < guaranteed_hits {
                true
            } else {
                next_hit_number <= 7 && rng.next_outcome("Multi-Hit Continuation Check")
                    <= continuation_chance
            };
            if should_queue_next_hit {
                return Some(
                    BattleCommand::PushAction(
                        BattleAction::AttackHit {
                            attacker_index: context.attacker_index,
                            defender_index: context.defender_index,
                            move_used: context.move_used,
                            hit_number: next_hit_number,
                        },
                    ),
                );
            }
        }
        None
    }

    /// The commands of the effect (see `spec_apply_effect`): a result that skips the rest of
    /// the move is `Skip`, any other is `Continue`; an effect a substitute blocks gives
    /// `Continue` with no commands and uses no roll.
    fn apply(&self, context: &EffectContext, state: &BattleState, rng: &mut TurnRng) -> (r: EffectResult)
        ensures
            spec_cmds_safe(r.commands()),
            r is Skip <==> spec_apply_effect(*self, *context, *state, old(rng).remaining()).0,
            r is Continue <==> !spec_apply_effect(*self, *context, *state, old(rng).remaining()).0,
            (spec_has_substitute(state.players[context.defender_index as int])
                && spec_blocked_by_substitute(*self)) ==> r is Continue && r.commands() == Seq::<BattleCommand>::empty()
                && final(rng).remaining() == old(rng).remaining(),
            ({
                let (skip, cmds, used) = spec_apply_effect(*self, *context, *state, old(rng).remaining());
                r !is Ensured && r.skips() == skip && r.commands() == cmds && final(rng).remaining() == old(
                    rng,
                ).remaining().skip(used as int)
            }),
    {
        assert(old(rng).remaining().skip(0) =~= old(rng).remaining());
        let defender_has_substitute = matches!(
            state.players[context.defender_index].active_pokemon_conditions.get(PokemonConditionType::Substitute),
            Some(PokemonCondition::Substitute { .. })
        );
        if defender_has_substitute && is_blocked_by_substitute(self) {
            return EffectResult::Continue(Vec::new());
        }
        let effect = *self;
        if is_status_family(&effect) {
            apply_status_family(effect, context, state, rng)
        } else if is_stat_family(&effect) {
            apply_stat_family(effect, context, state, rng)
        } else if is_special_family(&effect) {
            apply_special_family(effect, context, state, rng)
        } else {
            EffectResult::Continue(Vec::new())
        }
    }
}

fn is_status_family(effect: &MoveEffect) -> (r: bool)
    ensures
        r == (spec_effect_family(*effect) == 0),
{
    matches!(
        effect,
        MoveEffect::Burn(_) | MoveEffect::Paralyze(_) | MoveEffect::Freeze(_) | MoveEffect::Poison(_)
            | MoveEffect::Sedate(_) | MoveEffect::Flinch(_) | MoveEffect::Confuse(_) | MoveEffect::Trap(_)
            | MoveEffect::Seed(_) | MoveEffect::Exhaust(_)
    )
}

fn is_stat_family(effect: &MoveEffect) -> (r: bool)
    ensures
        r == (spec_effect_family(*effect) == 1),
{
    matches!(
        effect,
        MoveEffect::StatChange(_, _, _, _) | MoveEffect::RaiseAllStats(_) | MoveEffect::Heal(_)
            | MoveEffect::Haze(_) | MoveEffect::CureStatus(_, _) | MoveEffect::SetTeamCondition(_, _)
            | MoveEffect::Ante(_)
    )
}

fn is_special_family(effect: &MoveEffect) -> (r: bool)
    ensures
        r == (spec_effect_family(*effect) == 2),
{
    matches!(
        effect,
        MoveEffect::InAir | MoveEffect::Teleport(_) | MoveEffect::ChargeUp | MoveEffect::Underground
            | MoveEffect::Transform | MoveEffect::Conversion | MoveEffect::Substitute | MoveEffect::Counter
            | MoveEffect::Bide(_) | MoveEffect::MirrorMove | MoveEffect::Rest(_) | MoveEffect::Metronome
            | MoveEffect::Rampage | MoveEffect::Rage(_) | MoveEffect::Explode
    )
}

/// The commands of one effect after a move dealt `damage_dealt`: recoil and drain, when
/// some damage was dealt.
pub open spec fn spec_damage_based_one(effect: MoveEffect, ctx: EffectContext, state: BattleState, damage_dealt: u16) -> Seq<BattleCommand> {
    if damage_dealt == 0 {
        seq![]
    } else {
        match effect {
            MoveEffect::Recoil(p) => spec_recoil_effect(p, ctx.attacker_index, damage_dealt),
            MoveEffect::Drain(p) => spec_drain_effect(
                p,
                state.players[ctx.attacker_index as int],
                ctx.attacker_index,
                damage_dealt,
            ),
            _ => seq![],
        }
    }
}

/// The commands of all effects after a move dealt damage, in effect order.
pub open spec fn spec_damage_based_effects(effects: Seq<MoveEffect>, ctx: EffectContext, state: BattleState, damage_dealt: u16) -> Seq<BattleCommand>
    decreases effects.len(),
{
    if effects.len() == 0 {
        seq![]
    } else {
        spec_damage_based_effects(effects.drop_last(), ctx, state, damage_dealt) + spec_damage_based_one(
            effects.last(),
            ctx,
            state,
            damage_dealt,
        )
    }
}

/// The commands of one effect after a move missed: reckless recoil.
pub open spec fn spec_miss_based_one(effect: MoveEffect, ctx: EffectContext, state: BattleState) -> Seq<BattleCommand> {
    match effect {
        MoveEffect::Reckless(p) => spec_reckless_effect(p, state.players[ctx.attacker_index as int], ctx.attacker_index),
        _ => seq![],
    }
}

/// The commands of all effects after a move missed, in effect order.
pub open spec fn spec_miss_based_effects(effects: Seq<MoveEffect>, ctx: EffectContext, state: BattleState) -> Seq<BattleCommand>
    decreases effects.len(),
{
    if effects.len() == 0 {
        seq![]
    } else {
        spec_miss_based_effects(effects.drop_last(), ctx, state) + spec_miss_based_one(effects.last(), ctx, state)
    }
}

/// Applying a move's effects that depend on how the move landed.
pub trait BattleMoveDataExt {
    /// The commands of the effects that follow damage dealt.
    fn apply_damage_based_effects(&self, context: &EffectContext, state: &BattleState, damage_dealt: u16) -> Vec<
        BattleCommand,
    >
        requires
            context.wf(),
            state.wf(),
    ;

    /// The commands of the effects that follow a miss.
    fn apply_miss_based_effects(&self, context: &EffectContext, state: &BattleState) -> Vec<BattleCommand>
        requires
            context.wf(),
            state.wf(),
    ;
}

impl BattleMoveDataExt for MoveData {
    /// See `spec_damage_based_effects`.
    fn apply_damage_based_effects(&self, context: &EffectContext, state: &BattleState, damage_dealt: u16) -> (r:
        Vec<BattleCommand>)
        ensures
            spec_cmds_safe(r@),
            r@ == spec_damage_based_effects(self.effects@, *context, *state, damage_dealt),
    {
        let mut all_commands: Vec<BattleCommand> = Vec::new();
        let mut i: usize = 0;
        while i < self.effects.len()
            invariant
                0 <= i <= self.effects.len(),
                context.wf(),
                state.wf(),
                all_commands@ == spec_damage_based_effects(self.effects@.take(i as int), *context, *state, damage_dealt),
                spec_cmds_safe(all_commands@),
            decreases self.effects.len() - i,
        {
            assert(self.effects@.take(i + 1).drop_last() =~= self.effects@.take(i as int));
            let effect = self.effects[i];
            if damage_dealt != 0 {
                match effect {
                    MoveEffect::Recoil(percentage) => {
                        let mut cmds = apply_recoil_effect(percentage, context, damage_dealt);
                        proof {
                            crate::battle::commands::lemma_safe_concat(all_commands@, cmds@);
                        }
                        all_commands.append(&mut cmds);
                    },
                    MoveEffect::Drain(percentage) => {
                        let mut cmds = apply_drain_effect(percentage, context, state, damage_dealt);
                        proof {
                            crate::battle::commands::lemma_safe_concat(all_commands@, cmds@);
                        }
                        all_commands.append(&mut cmds);
                    },
                    _ => {},
                }
            }
            i = i + 1;
            assert(all_commands@ =~= spec_damage_based_effects(self.effects@.take(i as int), *context, *state, damage_dealt));
        }
        assert(self.effects@.take(i as int) =~= self.effects@);
        all_commands
    }

    /// See `spec_miss_based_effects`.
    fn apply_miss_based_effects(&self, context: &EffectContext, state: &BattleState) -> (r: Vec<BattleCommand>)
        ensures
            spec_cmds_safe(r@),
            r@ == spec_miss_based_effects(self.effects@, *context, *state),
    {
        let mut all_commands: Vec<BattleCommand> = Vec::new();
        let mut i: usize = 0;
        while i < self.effects.len()
            invariant
                0 <= i <= self.effects.len(),
                context.wf(),
                state.wf(),
                all_commands@ == spec_miss_based_effects(self.effects@.take(i as int), *context, *state),
                spec_cmds_safe(all_commands@),
            decreases self.effects.len() - i,
        {
            assert(self.effects@.take(i + 1).drop_last() =~= self.effects@.take(i as int));
            if let MoveEffect::Reckless(percentage) = self.effects[i] {
                let mut cmds = apply_reckless_effect(percentage, context, state);
                proof {
                    crate::battle::commands::lemma_safe_concat(all_commands@, cmds@);
                }
                all_commands.append(&mut cmds);
            }
            i = i + 1;
            assert(all_commands@ =~= spec_miss_based_effects(self.effects@.take(i as int), *context, *state));
        }
        assert(self.effects@.take(i as int) =~= self.effects@);
        all_commands
    }
}

/// The major status an effect gives, with its chance and the type that is immune to it:
/// burn (Fire), paralysis (Electric), freeze (Ice) and poison (Poison).
pub open spec fn spec_major_status_of(effect: MoveEffect) -> Option<(u8, PokemonType, StatusCondition)> {
    match effect {
        MoveEffect::Burn(c) => Some((c, PokemonType::Fire, StatusCondition::Burn)),
        MoveEffect::Paralyze(c) => Some((c, PokemonType::Electric, StatusCondition::Paralysis)),
        MoveEffect::Freeze(c) => Some((c, PokemonType::Ice, StatusCondition::Freeze)),
        MoveEffect::Poison(c) => Some((c, PokemonType::Poison, StatusCondition::Poison(0))),
        _ => None,
    }
}

/// A Pokemon has at most one major status, and keeps the one it has: a burn, paralysis,
/// freeze, poison or sleep effect against a defender whose active Pokemon already has a
/// status gives no command, lets the move go on and uses no roll; so does a burn, paralysis,
/// freeze or poison effect against a Pokemon of the type immune to it. Against an active Pokemon
/// without a status, not behind a substitute and not of the immune type, a burn, paralysis,
/// freeze or poison effect uses one roll: at most the chance gives the defender that status,
/// anything higher gives nothing.
pub proof fn lemma_major_status_effects(effect: MoveEffect, ctx: EffectContext, state: BattleState, rolls: Seq<u8>)
    requires
        ctx.wf(),
    ensures
        ({
            let defender = state.players[ctx.defender_index as int];
            let active = crate::player::spec_active(defender);
            let p = active.unwrap();
            let (chance, immune, status) = spec_major_status_of(effect).unwrap();
            &&& (spec_major_status_of(effect) is Some || effect is Sedate) && active is Some && p.status is Some
                ==> spec_apply_effect(effect, ctx, state, rolls) == (false, Seq::<BattleCommand>::empty(), 0nat)
            &&& spec_major_status_of(effect) is Some && active is Some && crate::player::spec_current_types(
                p,
                defender,
            ).contains(immune) ==> spec_apply_effect(effect, ctx, state, rolls) == (
                false,
                Seq::<BattleCommand>::empty(),
                0nat,
            )
            &&& spec_major_status_of(effect) is Some && active is Some && p.status is None && !spec_has_substitute(
                defender,
            ) && !crate::player::spec_current_types(p, defender).contains(immune) ==> spec_apply_effect(
                effect,
                ctx,
                state,
                rolls,
            ) == (
                false,
                if rolls[0] <= chance {
                    seq![
                        BattleCommand::SetPokemonStatus {
                            target: crate::battle::commands::spec_from_index(ctx.defender_index as int),
                            status,
                        },
                    ]
                } else {
                    Seq::<BattleCommand>::empty()
                },
                1nat,
            )
        }),
{
}

} // verus!
