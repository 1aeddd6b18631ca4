//! Battle stat formulas: effective stats under stages and status, critical hits,
//! accuracy, type effectiveness and damage.
use vstd::prelude::*;

use crate::battle::conditions::{PokemonCondition, PokemonConditionType};
use crate::battle::state::TurnRng;
use crate::moves::{
    spec_move_accuracy, spec_move_category, spec_move_effects, spec_move_power, spec_move_type,
    Move, MoveData, MoveEffect,
};
use crate::player::{spec_active, spec_current_types, spec_stage, spec_team_turns, BattlePlayer};
use crate::pokemon::{PokemonInst, PokemonStats, StatusCondition};
use crate::schema::{spec_effectiveness_halves, MoveCategory, PokemonType, StatType, TeamCondition};

verus! {

/// The largest value a 16-bit stat or damage can hold.
pub open spec fn spec_sat_u16(v: nat) -> nat {
    if v > 65535 {
        65535
    } else {
        v
    }
}

/// `a / b` rounded to the nearest integer, halves rounding up.
pub open spec fn spec_round_div(a: nat, b: nat) -> nat
    recommends
        b > 0,
{
    (2 * a + b) / (2 * b)
}

/// A stat scaled by its stage (clamped to `-6..=6`): x(2+s)/2 for positive stages and
/// x2/(2-s) for negative ones, rounded to nearest, saturating at the 16-bit maximum.
pub open spec fn spec_stage_multiplied(base: u16, stage: i8) -> nat {
    let s: int = if stage < -6 {
        -6
    } else if stage > 6 {
        6
    } else {
        stage as int
    };
    if s == 0 {
        base as nat
    } else if s > 0 {
        spec_sat_u16(spec_round_div(base as nat * (2 + s) as nat, 2))
    } else {
        spec_sat_u16(spec_round_div(base as nat * 2, (2 - s) as nat))
    }
}

/// Applies the stat-stage multiplier to a stat.
pub fn apply_stat_stage_multiplier(base_stat: u16, stage: i8) -> (r: u16)
    ensures
        r as nat == spec_stage_multiplied(base_stat, stage),
{
    let s: i8 = if stage < -6 {
        -6
    } else if stage > 6 {
        6
    } else {
        stage
    };
    if s == 0 {
        return base_stat;
    }
    let (mult, den): (u64, u64) = if s > 0 {
        ((2 + s) as u64, 2)
    } else {
        (2, (2 - s) as u64)
    };
    let b: u64 = base_stat as u64;
    assert(b * mult <= 65535 * 8) by (nonlinear_arith)
        requires
            b <= 65535,
            mult <= 8,
    ;
    let num: u64 = b * mult;
    let v = (2 * num + den) / (2 * den);
    if v > 65535 {
        65535
    } else {
        v as u16
    }
}

/// The stats used in battle: those of the Pokemon it transformed into, if its player's
/// active Pokemon is transformed, else its own.
pub open spec fn spec_battle_stats(pokemon: PokemonInst, player: BattlePlayer) -> PokemonStats {
    let conds = player.active_pokemon_conditions.view();
    if conds.dom().contains(PokemonConditionType::Transformed) && conds[PokemonConditionType::Transformed] is Transformed {
        conds[PokemonConditionType::Transformed]->target.stats
    } else {
        pokemon.stats
    }
}

fn battle_stats(pokemon: &PokemonInst, player: &BattlePlayer) -> (r: PokemonStats)
    ensures
        r == spec_battle_stats(*pokemon, *player),
{
    match player.active_pokemon_conditions.get(PokemonConditionType::Transformed) {
        Some(PokemonCondition::Transformed { target }) => target.stats,
        _ => pokemon.stats,
    }
}

/// The attack a move uses: Attack for physical moves and Special Attack for special ones,
/// scaled by the stage and halved by burn for physical moves; 0 for moves that use neither.
pub open spec fn spec_effective_attack(pokemon: PokemonInst, player: BattlePlayer, m: Move) -> nat {
    let stats = spec_battle_stats(pokemon, player);
    match spec_move_category(m) {
        MoveCategory::Physical => {
            let v = spec_stage_multiplied(stats.attack, spec_stage(player.stat_stages, StatType::Atk));
            if pokemon.status == Some(StatusCondition::Burn) {
                v / 2
            } else {
                v
            }
        },
        MoveCategory::Special => spec_stage_multiplied(
            stats.sp_attack,
            spec_stage(player.stat_stages, StatType::SpAtk),
        ),
        _ => 0,
    }
}

/// The effective attack stat a move of `move_` uses.
pub fn effective_attack(pokemon: &PokemonInst, player: &BattlePlayer, move_: Move) -> (r: u16)
    ensures
        r as nat == spec_effective_attack(*pokemon, *player, move_),
{
    let move_data = MoveData::get_move_data(move_);
    let stats = battle_stats(pokemon, player);
    match move_data.category {
        MoveCategory::Physical => {
            let stage = player.get_stat_stage(StatType::Atk);
            let mut v = apply_stat_stage_multiplier(stats.attack, stage);
            if pokemon.status == Some(StatusCondition::Burn) {
                v = v / 2;
            }
            v
        },
        MoveCategory::Special => {
            let stage = player.get_stat_stage(StatType::SpAtk);
            apply_stat_stage_multiplier(stats.sp_attack, stage)
        },
        _ => 0,
    }
}

/// The first `IgnoreDef` percentage among a move's effects.
pub open spec fn spec_first_ignore_def(effects: Seq<MoveEffect>) -> Option<u8>
    decreases effects.len(),
{
    if effects.len() == 0 {
        None
    } else {
        match effects[0] {
            MoveEffect::IgnoreDef(p) => Some(p),
            _ => spec_first_ignore_def(effects.drop_first()),
        }
    }
}

fn first_ignore_def(effects: &Vec<MoveEffect>) -> (r: Option<u8>)
    ensures
        r == spec_first_ignore_def(effects@),
{
    let mut i: usize = 0;
    assert(effects@.skip(0) =~= effects@);
    while i < effects.len()
        invariant
            0 <= i <= effects.len(),
            spec_first_ignore_def(effects@) == spec_first_ignore_def(effects@.skip(i as int)),
        decreases effects.len() - i,
    {
        assert(effects@.skip(i as int).drop_first() =~= effects@.skip(i + 1));
        if let MoveEffect::IgnoreDef(p) = effects[i] {
            return Some(p);
        }
        i = i + 1;
    }
    None
}

/// Defense after ignoring `p` percent of it, rounded to nearest (nothing is left above 100%).
pub open spec fn spec_ignore_defense(defense: nat, p: u8) -> nat {
    if p > 100 {
        0
    } else {
        spec_sat_u16(spec_round_div(defense * (100 - p) as nat, 100))
    }
}

/// The defense a move meets: Defense against physical moves and Special Defense against
/// special ones, scaled by the stage, reduced by the move's ignore-defense effect, and
/// doubled by Reflect (physical) or Light Screen (special); 0 for other moves.
pub open spec fn spec_effective_defense(pokemon: PokemonInst, player: BattlePlayer, m: Move) -> nat {
    let stats = spec_battle_stats(pokemon, player);
    let staged = match spec_move_category(m) {
        MoveCategory::Physical => spec_stage_multiplied(
            stats.defense,
            spec_stage(player.stat_stages, StatType::Def),
        ),
        MoveCategory::Special => spec_stage_multiplied(
            stats.sp_defense,
            spec_stage(player.stat_stages, StatType::SpDef),
        ),
        _ => 0,
    };
    let ignored = match spec_first_ignore_def(spec_move_effects(m)) {
        Some(p) => spec_ignore_defense(staged, p),
        None => staged,
    };
    match spec_move_category(m) {
        MoveCategory::Physical => if spec_team_turns(player.team_conditions, TeamCondition::Reflect) is Some {
            spec_sat_u16(ignored * 2)
        } else {
            ignored
        },
        MoveCategory::Special => if spec_team_turns(player.team_conditions, TeamCondition::LightScreen) is Some {
            spec_sat_u16(ignored * 2)
        } else {
            ignored
        },
        _ => 0,
    }
}

/// The effective defense stat a move of `move_` meets.
pub fn effective_defense(pokemon: &PokemonInst, player: &BattlePlayer, move_: Move) -> (r: u16)
    ensures
        r as nat == spec_effective_defense(*pokemon, *player, move_),
{
    let move_data = MoveData::get_move_data(move_);
    let stats = battle_stats(pokemon, player);
    let staged = match move_data.category {
        MoveCategory::Physical => apply_stat_stage_multiplier(
            stats.defense,
            player.get_stat_stage(StatType::Def),
        ),
        MoveCategory::Special => apply_stat_stage_multiplier(
            stats.sp_defense,
            player.get_stat_stage(StatType::SpDef),
        ),
        _ => return 0,
    };
    let ignored: u16 = match first_ignore_def(&move_data.effects) {
        Some(p) => {
            if p > 100 {
                0
            } else {
                let st: u64 = staged as u64;
                let keep: u64 = (100 - p) as u64;
                assert(st * keep <= 65535 * 100) by (nonlinear_arith)
                    requires
                        st <= 65535,
                        keep <= 100,
                ;
                let v: u64 = (2 * (st * keep) + 100) / 200;
                if v > 65535 {
                    65535
                } else {
                    v as u16
                }
            }
        },
        None => staged,
    };
    let doubled = match move_data.category {
        MoveCategory::Physical => player.has_team_condition(&TeamCondition::Reflect),
        _ => player.has_team_condition(&TeamCondition::LightScreen),
    };
    if doubled {
        let v: u32 = ignored as u32 * 2;
        if v > 65535 {
            65535
        } else {
            v as u16
        }
    } else {
        ignored
    }
}

/// Speed scaled by its stage and quartered by paralysis.
pub open spec fn spec_effective_speed(pokemon: PokemonInst, player: BattlePlayer) -> nat {
    let v = spec_stage_multiplied(
        spec_battle_stats(pokemon, player).speed,
        spec_stage(player.stat_stages, StatType::Spe),
    );
    if pokemon.status == Some(StatusCondition::Paralysis) {
        v / 4
    } else {
        v
    }
}

/// The effective speed of the Pokemon.
pub fn effective_speed(pokemon: &PokemonInst, player: &BattlePlayer) -> (r: u16)
    ensures
        r as nat == spec_effective_speed(*pokemon, *player),
{
    let stats = battle_stats(pokemon, player);
    let stage = player.get_stat_stage(StatType::Spe);
    let mut v = apply_stat_stage_multiplier(stats.speed, stage);
    if pokemon.status == Some(StatusCondition::Paralysis) {
        v = v / 4;
    }
    v
}

/// `a + b` saturating at 255.
pub open spec fn spec_sat_add_u8(a: nat, b: nat) -> nat {
    if a + b > 255 {
        255
    } else {
        a + b
    }
}

/// The critical-hit ratio after adding each `Crit` boost of the effects to `start`,
/// saturating at 255.
pub open spec fn spec_crit_ratio_from(start: nat, effects: Seq<MoveEffect>) -> nat
    decreases effects.len(),
{
    if effects.len() == 0 {
        start
    } else {
        let next = match effects[0] {
            MoveEffect::Crit(b) => spec_sat_add_u8(start, b as nat),
            _ => start,
        };
        spec_crit_ratio_from(next, effects.drop_first())
    }
}

/// The critical-hit ratio of a move: 1, plus its crit boosts, plus a positive focus stage.
pub open spec fn spec_crit_ratio(m: Move, focus_stage: i8) -> nat {
    let r = spec_crit_ratio_from(1, spec_move_effects(m));
    if focus_stage > 0 {
        spec_sat_add_u8(r, focus_stage as nat)
    } else {
        r
    }
}

/// The highest roll that still lands a critical hit, by ratio.
pub open spec fn spec_crit_threshold(ratio: nat) -> nat {
    if ratio <= 1 {
        4
    } else if ratio == 2 {
        12
    } else if ratio == 3 {
        25
    } else if ratio == 4 {
        33
    } else if ratio == 5 {
        50
    } else if ratio == 6 {
        75
    } else {
        90
    }
}

/// Whether a move can land critical hits (status moves cannot, and consume no roll).
pub open spec fn spec_can_crit(m: Move) -> bool {
    spec_move_category(m) != MoveCategory::Status
}

/// Whether a move is a critical hit: status moves never are (no roll is consumed);
/// otherwise one roll is consumed and compared with the threshold of the move's ratio.
pub fn move_is_critical_hit(
    _attacker: &PokemonInst,
    attacker_player: &BattlePlayer,
    move_: Move,
    rng: &mut TurnRng,
) -> (r: bool)
    requires
        spec_can_crit(move_) ==> old(rng).remaining().len() >= 1,
    ensures
        !spec_can_crit(move_) ==> !r && final(rng).remaining() == old(rng).remaining(),
        spec_can_crit(move_) ==> r == (old(rng).remaining()[0] <= spec_crit_threshold(
            spec_crit_ratio(move_, spec_stage(attacker_player.stat_stages, StatType::Crit)),
        )) && final(rng).remaining() == old(rng).remaining().drop_first(),
{
    let move_data = MoveData::get_move_data(move_);
    if move_data.category == MoveCategory::Status {
        return false;
    }
    let mut crit_ratio: u8 = 1;
    let mut i: usize = 0;
    assert(spec_move_effects(move_).skip(0) =~= spec_move_effects(move_));
    while i < move_data.effects.len()
        invariant
            0 <= i <= move_data.effects.len(),
            move_data.effects@ == spec_move_effects(move_),
            spec_crit_ratio_from(1, spec_move_effects(move_)) == spec_crit_ratio_from(
                crit_ratio as nat,
                spec_move_effects(move_).skip(i as int),
            ),
        decreases move_data.effects.len() - i,
    {
        assert(spec_move_effects(move_).skip(i as int).drop_first() =~= spec_move_effects(
            move_,
        ).skip(i + 1));
        if let MoveEffect::Crit(boost) = move_data.effects[i] {
            crit_ratio = crit_ratio.saturating_add(boost);
        }
        i = i + 1;
    }
    assert(spec_move_effects(move_).skip(i as int) =~= Seq::<MoveEffect>::empty());
    let focus_stage = attacker_player.get_stat_stage(StatType::Crit);
    if focus_stage > 0 {
        crit_ratio = crit_ratio.saturating_add(focus_stage as u8);
    }
    let crit_threshold: u8 = if crit_ratio <= 1 {
        4
    } else if crit_ratio == 2 {
        12
    } else if crit_ratio == 3 {
        25
    } else if crit_ratio == 4 {
        33
    } else if crit_ratio == 5 {
        50
    } else if crit_ratio == 6 {
        75
    } else {
        90
    };
    let roll = rng.next_outcome("Critical Hit Check");
    roll <= crit_threshold
}

/// A move's accuracy scaled by the accuracy stage (`-6..=6`): x(3+s)/3 for positive stages
/// and x3/(3-s) for negative ones, rounded to nearest, saturating at 255, then kept in `1..=100`.
pub open spec fn spec_modified_accuracy(base_accuracy: u8, stage: int) -> nat {
    let scaled = if stage >= 0 {
        spec_round_div(base_accuracy as nat * (3 + stage) as nat, 3)
    } else {
        spec_round_div(base_accuracy as nat * 3, (3 - stage) as nat)
    };
    let saturated = if scaled > 255 {
        255
    } else {
        scaled
    };
    if saturated < 1 {
        1
    } else if saturated > 100 {
        100
    } else {
        saturated
    }
}

/// The accuracy stage of an attack: attacker's accuracy minus defender's evasion, in `-6..=6`.
pub open spec fn spec_adjusted_accuracy_stage(attacker_player: BattlePlayer, defender_player: BattlePlayer) -> int {
    let d = spec_stage(attacker_player.stat_stages, StatType::Acc) - spec_stage(
        defender_player.stat_stages,
        StatType::Eva,
    );
    if d < -6 {
        -6
    } else if d > 6 {
        6
    } else {
        d
    }
}

/// Whether the defender is out of reach (teleported, in the air or underground).
pub open spec fn spec_is_out_of_reach(defender_player: BattlePlayer) -> bool {
    let d = defender_player.active_pokemon_conditions.view().dom();
    d.contains(PokemonConditionType::Teleported) || d.contains(PokemonConditionType::InAir)
        || d.contains(PokemonConditionType::Underground)
}

/// Whether deciding if a move hits consumes a roll: only moves with an accuracy aimed at a
/// defender within reach do.
pub open spec fn spec_hit_check_rolls(m: Move, defender_player: BattlePlayer) -> bool {
    spec_move_accuracy(m) is Some && !spec_is_out_of_reach(defender_player)
}

/// Whether a move hits: moves without accuracy always hit, moves against a defender out of
/// reach always miss, and otherwise one roll is consumed and must not exceed the modified
/// accuracy.
pub fn move_hits(
    _attacker: &PokemonInst,
    _defender: &PokemonInst,
    attacker_player: &BattlePlayer,
    defender_player: &BattlePlayer,
    move_: Move,
    rng: &mut TurnRng,
) -> (r: bool)
    requires
        attacker_player.wf(),
        defender_player.wf(),
        spec_hit_check_rolls(move_, *defender_player) ==> old(rng).remaining().len() >= 1,
    ensures
        !spec_hit_check_rolls(move_, *defender_player) ==> final(rng).remaining() == old(
            rng,
        ).remaining() && r == (spec_move_accuracy(move_) is None),
        spec_hit_check_rolls(move_, *defender_player) ==> final(rng).remaining() == old(
            rng,
        ).remaining().drop_first() && r == (old(rng).remaining()[0] <= spec_modified_accuracy(
            spec_move_accuracy(move_).unwrap(),
            spec_adjusted_accuracy_stage(*attacker_player, *defender_player),
        )),
{
    let move_data = MoveData::get_move_data(move_);
    let base_accuracy = match move_data.accuracy {
        Some(a) => a,
        None => return true,
    };
    if defender_player.has_condition_type(PokemonConditionType::Teleported)
        || defender_player.has_condition_type(PokemonConditionType::InAir)
        || defender_player.has_condition_type(PokemonConditionType::Underground) {
        return false;
    }
    let accuracy_stage = attacker_player.get_stat_stage(StatType::Acc);
    let evasion_stage = defender_player.get_stat_stage(StatType::Eva);
    assert(-6 <= spec_stage(attacker_player.stat_stages, StatType::Acc) <= 6);
    assert(-6 <= spec_stage(defender_player.stat_stages, StatType::Eva) <= 6);
    let d = accuracy_stage - evasion_stage;
    let adjusted: i8 = if d < -6 {
        -6
    } else if d > 6 {
        6
    } else {
        d
    };
    let (mult, den): (u32, u32) = if adjusted >= 0 {
        ((3 + adjusted) as u32, 3)
    } else {
        (3, (3 - adjusted) as u32)
    };
    let acc: u32 = base_accuracy as u32;
    assert(acc * mult <= 255 * 9) by (nonlinear_arith)
        requires
            acc <= 255,
            mult <= 9,
    ;
    let num: u32 = acc * mult;
    let scaled = (2 * num + den) / (2 * den);
    let saturated = if scaled > 255 {
        255
    } else {
        scaled
    };
    let clamped: u8 = if saturated < 1 {
        1
    } else if saturated > 100 {
        100
    } else {
        saturated as u8
    };
    let roll = rng.next_outcome("Hit/Miss Check");
    roll <= clamped
}

/// The type-chart multiplier of an attack type against all defending types, as a
/// percentage (the product of the single-type multipliers).
pub open spec fn spec_effectiveness_percent(attack_type: PokemonType, defense_types: Seq<PokemonType>) -> nat {
    if defense_types.len() == 0 {
        100
    } else if defense_types.len() == 1 {
        50 * spec_effectiveness_halves(attack_type, defense_types[0])
    } else {
        25 * spec_effectiveness_halves(attack_type, defense_types[0]) * spec_effectiveness_halves(
            attack_type,
            defense_types[1],
        )
    }
}

/// The type-chart multiplier of an attack type against the defending types (at most two),
/// as a percentage: 0, 25, 50, 100, 200 or 400.
pub fn get_type_effectiveness(attack_type: PokemonType, defense_types: &Vec<PokemonType>) -> (r: u16)
    requires
        defense_types.len() <= 2,
    ensures
        r as nat == spec_effectiveness_percent(attack_type, defense_types@),
        r <= 400,
{
    if defense_types.len() == 0 {
        100
    } else if defense_types.len() == 1 {
        50 * PokemonType::effectiveness_halves(attack_type, defense_types[0]) as u16
    } else {
        let a = PokemonType::effectiveness_halves(attack_type, defense_types[0]) as u16;
        let b = PokemonType::effectiveness_halves(attack_type, defense_types[1]) as u16;
        assert(a * b <= 16 && 25 * (a * b) == 25 * a * b) by (nonlinear_arith)
            requires
                a <= 4,
                b <= 4,
        ;
        25 * (a * b)
    }
}

/// The battle level every damage formula assumes.
pub const BATTLE_LEVEL: u16 = 50;

/// Standard damage with every multiplier exact: ((22 x power x STAB x A / D) / 50 + 2) x
/// crit x type x (85 + roll % 16) / 100, rounded to nearest, saturating at the 16-bit maximum
/// and at least 1. STAB is 3/2 (`stab_halves` = 3) or 1 (2), crit 2 or 1, the type multiplier a
/// percentage. A zero defense follows the limits of the formula: an unbounded result (65535)
/// when the rest is positive, and 1 when it is undefined.
pub open spec fn spec_damage(
    power: nat,
    stab_halves: nat,
    attack: nat,
    defense: nat,
    crit: nat,
    type_percent: nat,
    roll: u8,
) -> nat {
    let random_percent = 85 + (roll % 16) as nat;
    if defense == 0 {
        if 22 * power * stab_halves * attack == 0 || type_percent == 0 {
            1
        } else {
            65535
        }
    } else {
        let numerator = (22 * power * stab_halves * attack + 200 * defense) * crit * type_percent
            * random_percent;
        let denominator = 1000000 * defense;
        let v = spec_sat_u16(spec_round_div(numerator, denominator));
        if v < 1 {
            1
        } else {
            v
        }
    }
}

/// Whether the move's damage formula consumes a roll: only moves with positive power do.
pub open spec fn spec_damage_rolls(m: Move) -> bool {
    spec_move_power(m) matches Some(p) && p > 0
}

/// The standard damage of a move: 0 without power; otherwise the damage formula with the
/// effective stats, STAB when the attacker currently has the move's type, the type
/// multiplier against the defender's current types, and the next roll.
pub open spec fn spec_attack_damage(
    attacker: PokemonInst,
    defender: PokemonInst,
    attacker_player: BattlePlayer,
    defender_player: BattlePlayer,
    m: Move,
    is_critical: bool,
    roll: u8,
) -> nat {
    if !spec_damage_rolls(m) {
        0
    } else {
        spec_damage(
            spec_move_power(m).unwrap() as nat,
            if spec_current_types(attacker, attacker_player).contains(spec_move_type(m)) {
                3
            } else {
                2
            },
            spec_effective_attack(attacker, attacker_player, m),
            spec_effective_defense(defender, defender_player, m),
            if is_critical {
                2
            } else {
                1
            },
            spec_effectiveness_percent(spec_move_type(m), spec_current_types(defender, defender_player)),
            roll,
        )
    }
}

pub(crate) fn contains_type(types: &Vec<PokemonType>, t: PokemonType) -> (r: bool)
    ensures
        r == types@.contains(t),
{
    let mut i: usize = 0;
    while i < types.len()
        invariant
            0 <= i <= types.len(),
            forall|k: int| 0 <= k < i ==> types@[k] != t,
        decreases types.len() - i,
    {
        if types[i] == t {
            assert(types@[i as int] == t);
            return true;
        }
        i = i + 1;
    }
    false
}

/// The standard damage of an attack (see `spec_attack_damage`); consumes one roll when
/// the move has power.
pub fn calculate_attack_damage(
    attacker: &PokemonInst,
    defender: &PokemonInst,
    attacker_player: &BattlePlayer,
    defender_player: &BattlePlayer,
    move_used: Move,
    is_critical: bool,
    rng: &mut TurnRng,
) -> (r: u16)
    requires
        spec_damage_rolls(move_used) ==> old(rng).remaining().len() >= 1,
    ensures
        !spec_damage_rolls(move_used) ==> r == 0 && final(rng).remaining() == old(rng).remaining(),
        spec_damage_rolls(move_used) ==> r as nat == spec_attack_damage(
            *attacker,
            *defender,
            *attacker_player,
            *defender_player,
            move_used,
            is_critical,
            old(rng).remaining()[0],
        ) && final(rng).remaining() == old(rng).remaining().drop_first(),
{
    let move_data = MoveData::get_move_data(move_used);
    let power = match move_data.power {
        Some(p) => p,
        None => return 0,
    };
    if power == 0 {
        return 0;
    }
    let attack = effective_attack(attacker, attacker_player, move_used);
    let defense = effective_defense(defender, defender_player, move_used);
    let attacker_types = attacker.get_current_types(attacker_player);
    let stab_halves: u64 = if contains_type(&attacker_types, move_data.move_type) {
        3
    } else {
        2
    };
    let crit: u64 = if is_critical {
        2
    } else {
        1
    };
    let defender_types = defender.get_current_types(defender_player);
    let type_percent = get_type_effectiveness(move_data.move_type, &defender_types);
    let roll = rng.next_outcome("Random Damage Multiplier Roll");
    let random_percent: u64 = 85 + (roll % 16) as u64;
    let pw: u64 = power as u64;
    let at: u64 = attack as u64;
    assert(22 * pw * stab_halves <= 22 * 255 * 3 && 22 * pw * stab_halves * at <= 22 * 255 * 3
        * 65535) by (nonlinear_arith)
        requires
            pw <= 255,
            stab_halves <= 3,
            at <= 65535,
    ;
    let core: u64 = 22 * pw * stab_halves * at;
    if defense == 0 {
        if core == 0 || type_percent == 0 {
            return 1;
        } else {
            return 65535;
        }
    }
    let base: u64 = core + 200 * defense as u64;
    let b1: u128 = base as u128;
    let c1: u128 = crit as u128;
    let t1: u128 = type_percent as u128;
    let r1: u128 = random_percent as u128;
    assert(b1 * c1 <= 40000000000 && b1 * c1 * t1 <= 40000000000 * 400 && b1 * c1 * t1 * r1
        <= 40000000000 * 400 * 100) by (nonlinear_arith)
        requires
            b1 <= 22 * 255 * 3 * 65535 + 200 * 65535,
            c1 <= 2,
            t1 <= 400,
            r1 <= 100,
    ;
    let numerator: u128 = b1 * c1 * t1 * r1;
    let denominator: u128 = 1000000 * defense as u128;
    let v: u128 = (2 * numerator + denominator) / (2 * denominator);
    let sat: u16 = if v > 65535 {
        65535
    } else {
        v as u16
    };
    if sat < 1 {
        1
    } else {
        sat
    }
}

/// The damage of the first fixed-damage effect of a move: one-hit KOs take the defender's
/// current HP, Super Fang half of it (at least 1), level damage the battle level, and set
/// damage its amount; `None` when the move has no such effect.
pub open spec fn spec_special_damage(effects: Seq<MoveEffect>, defender_hp: u16) -> Option<u16>
    decreases effects.len(),
{
    if effects.len() == 0 {
        None
    } else {
        match effects[0] {
            MoveEffect::OHKO => Some(defender_hp),
            MoveEffect::SuperFang(_) => Some(if defender_hp / 2 >= 1 { (defender_hp / 2) as u16 } else { 1u16 }),
            MoveEffect::LevelDamage => Some(50u16),
            MoveEffect::SetDamage(d) => Some(d),
            _ => spec_special_damage(effects.drop_first(), defender_hp),
        }
    }
}

/// The fixed damage of a move, if it deals fixed damage (see `spec_special_damage`).
pub fn calculate_special_attack_damage(
    move_used: Move,
    _attacker: &PokemonInst,
    defender: &PokemonInst,
) -> (r: Option<u16>)
    ensures
        r == spec_special_damage(spec_move_effects(move_used), defender.curr_hp),
{
    let move_data = MoveData::get_move_data(move_used);
    let attacker_level: u16 = BATTLE_LEVEL;
    let defender_level: u16 = BATTLE_LEVEL;
    let mut i: usize = 0;
    assert(spec_move_effects(move_used).skip(0) =~= spec_move_effects(move_used));
    while i < move_data.effects.len()
        invariant
            0 <= i <= move_data.effects.len(),
            move_data.effects@ == spec_move_effects(move_used),
            attacker_level == 50 && defender_level == 50,
            spec_special_damage(spec_move_effects(move_used), defender.curr_hp) == spec_special_damage(
                spec_move_effects(move_used).skip(i as int),
                defender.curr_hp,
            ),
        decreases move_data.effects.len() - i,
    {
        assert(spec_move_effects(move_used).skip(i as int).drop_first() =~= spec_move_effects(
            move_used,
        ).skip(i + 1));
        match move_data.effects[i] {
            MoveEffect::OHKO => {
                if attacker_level < defender_level {
                    return Some(0);
                } else {
                    return Some(defender.current_hp());
                }
            },
            MoveEffect::SuperFang(_) => {
                let half = defender.current_hp() / 2;
                return Some(
                    if half >= 1 {
                        half
                    } else {
                        1
                    },
                );
            },
            MoveEffect::LevelDamage => {
                return Some(attacker_level);
            },
            MoveEffect::SetDamage(fixed_damage) => {
                return Some(fixed_damage);
            },
            _ => {},
        }
        i = i + 1;
    }
    None
}

/// One stage up never lowers a stat: the multiplier at stage `s` is at most the one at
/// `s + 1`, for every stage in `-6..6`.
proof fn lemma_stage_step_monotone(base: u16, s: i8)
    requires
        -6 <= s < 6,
    ensures
        spec_stage_multiplied(base, s) <= spec_stage_multiplied(base, (s + 1) as i8),
{
    let b = base as nat;
    if s == -6 {
        assert((b * 2 * 2 + 8) / (2 * 8) <= (b * 2 * 2 + 7) / (2 * 7)) by (nonlinear_arith);
    } else if s == -5 {
        assert((b * 2 * 2 + 7) / (2 * 7) <= (b * 2 * 2 + 6) / (2 * 6)) by (nonlinear_arith);
    } else if s == -4 {
        assert((b * 2 * 2 + 6) / (2 * 6) <= (b * 2 * 2 + 5) / (2 * 5)) by (nonlinear_arith);
    } else if s == -3 {
        assert((b * 2 * 2 + 5) / (2 * 5) <= (b * 2 * 2 + 4) / (2 * 4)) by (nonlinear_arith);
    } else if s == -2 {
        assert((b * 2 * 2 + 4) / (2 * 4) <= (b * 2 * 2 + 3) / (2 * 3)) by (nonlinear_arith);
    } else if s == -1 {
        assert((b * 2 * 2 + 3) / (2 * 3) <= b) by (nonlinear_arith);
    } else if s == 0 {
        assert(b <= (b * 3 * 2 + 2) / (2 * 2)) by (nonlinear_arith);
    } else {
        let k: nat = (2 + s) as nat;
        assert(b * k <= b * (k + 1)) by (nonlinear_arith);
        vstd::arithmetic::div_mod::lemma_div_is_ordered(
            (b * k * 2 + 2) as int,
            (b * (k + 1) * 2 + 2) as int,
            4,
        );
    }
}

/// The multiplier never decreases from stage `s1` to stage `s2` within `-6..=6`.
proof fn lemma_stage_range_monotone(base: u16, s1: i8, s2: i8)
    requires
        -6 <= s1 <= s2 <= 6,
    ensures
        spec_stage_multiplied(base, s1) <= spec_stage_multiplied(base, s2),
    decreases s2 - s1,
{
    if s1 < s2 {
        lemma_stage_range_monotone(base, s1, (s2 - 1) as i8);
        lemma_stage_step_monotone(base, (s2 - 1) as i8);
    }
}

/// Stat stages never work against their sign: a stage of 0 leaves a stat as it is, and
/// a higher stage never gives a lower stat than a lower one.
pub proof fn lemma_stage_multiplier_monotone(base: u16, s1: i8, s2: i8)
    requires
        s1 <= s2,
    ensures
        spec_stage_multiplied(base, 0) == base,
        spec_stage_multiplied(base, s1) <= spec_stage_multiplied(base, s2),
{
    let c1: i8 = if s1 < -6 { -6i8 } else if s1 > 6 { 6i8 } else { s1 };
    let c2: i8 = if s2 < -6 { -6i8 } else if s2 > 6 { 6i8 } else { s2 };
    assert(spec_stage_multiplied(base, s1) == spec_stage_multiplied(base, c1));
    assert(spec_stage_multiplied(base, s2) == spec_stage_multiplied(base, c2));
    lemma_stage_range_monotone(base, c1, c2);
}

/// Stages beyond six count as six: any stage above 6 scales like +6 and any stage below
/// -6 like -6.
pub proof fn lemma_stage_beyond_six_is_clamped(base: u16, s: i8)
    ensures
        s > 6 ==> spec_stage_multiplied(base, s) == spec_stage_multiplied(base, 6i8),
        s < -6 ==> spec_stage_multiplied(base, s) == spec_stage_multiplied(base, -6i8),
{
}

/// How a major status changes battle stats: burn halves the attack of physical moves and
/// leaves special attack and speed alone; paralysis quarters speed and leaves attack alone.
pub proof fn lemma_status_stat_effects(pokemon: PokemonInst, player: BattlePlayer, m: Move)
    ensures
        ({
            let healthy = PokemonInst { status: None, ..pokemon };
            let burned = PokemonInst { status: Some(StatusCondition::Burn), ..pokemon };
            let paralyzed = PokemonInst { status: Some(StatusCondition::Paralysis), ..pokemon };
            &&& spec_move_category(m) == MoveCategory::Physical ==> spec_effective_attack(burned, player, m)
                == spec_effective_attack(healthy, player, m) / 2
            &&& spec_move_category(m) != MoveCategory::Physical ==> spec_effective_attack(burned, player, m)
                == spec_effective_attack(healthy, player, m)
            &&& spec_effective_speed(burned, player) == spec_effective_speed(healthy, player)
            &&& spec_effective_speed(paralyzed, player) == spec_effective_speed(healthy, player) / 4
            &&& spec_effective_attack(paralyzed, player, m) == spec_effective_attack(healthy, player, m)
        }),
{
}

/// Damage grows with its multipliers: a critical hit never deals less than the same hit
/// without one, and every damaging hit deals at least 1.
pub proof fn lemma_critical_hit_never_weaker(
    power: nat,
    stab_halves: nat,
    attack: nat,
    defense: nat,
    type_percent: nat,
    roll: u8,
)
    ensures
        spec_damage(power, stab_halves, attack, defense, 1, type_percent, roll) <= spec_damage(
            power,
            stab_halves,
            attack,
            defense,
            2,
            type_percent,
            roll,
        ),
        spec_damage(power, stab_halves, attack, defense, 1, type_percent, roll) >= 1,
{
    if defense > 0 {
        let random_percent = 85 + (roll % 16) as nat;
        let base = 22 * power * stab_halves * attack + 200 * defense;
        let n1 = base * 1 * type_percent * random_percent;
        let n2 = base * 2 * type_percent * random_percent;
        assert(n1 <= n2) by (nonlinear_arith)
            requires
                n1 == base * 1 * type_percent * random_percent,
                n2 == base * 2 * type_percent * random_percent,
        ;
        let d = 1000000 * defense;
        vstd::arithmetic::div_mod::lemma_div_is_ordered((2 * n1 + d) as int, (2 * n2 + d) as int, (2 * d) as int);
    }
}

/// A type matchup is always one of six multipliers: 0, 1/4, 1/2, 1, 2 or 4 times (as a
/// percentage) against up to two defending types.
pub proof fn lemma_effectiveness_percent_values(attack_type: PokemonType, defense_types: Seq<PokemonType>)
    requires
        defense_types.len() <= 2,
    ensures
        ({
            let p = spec_effectiveness_percent(attack_type, defense_types);
            p == 0 || p == 25 || p == 50 || p == 100 || p == 200 || p == 400
        }),
{
    if defense_types.len() >= 1 {
        crate::schema::lemma_typeless_is_neutral(attack_type, defense_types[0]);
    }
    if defense_types.len() == 2 {
        crate::schema::lemma_typeless_is_neutral(attack_type, defense_types[1]);
        let a = spec_effectiveness_halves(attack_type, defense_types[0]);
        let b = spec_effectiveness_halves(attack_type, defense_types[1]);
        let p = 25 * a * b;
        assert(p == 0 || p == 25 || p == 50 || p == 100 || p == 200 || p == 400) by (nonlinear_arith)
            requires
                a == 0 || a == 1 || a == 2 || a == 4,
                b == 0 || b == 1 || b == 2 || b == 4,
                p == 25 * a * b,
        ;
    }
}

/// The same-type bonus raises damage: the 3/2 factor on the base term never gives less than
/// the formula without it, and gives strictly more when that extra half is worth at least two
/// points (22 x power x attack x crit x type% x random% >= 2,000,000 x defense) and the damage
/// without it is not capped.
pub proof fn lemma_bonus_raises_damage(
    power: nat,
    attack: nat,
    defense: nat,
    crit: nat,
    type_percent: nat,
    roll: u8,
)
    ensures
        spec_damage(power, 2, attack, defense, crit, type_percent, roll) <= spec_damage(
            power,
            3,
            attack,
            defense,
            crit,
            type_percent,
            roll,
        ),
        defense > 0 && 22 * power * attack * crit * type_percent * (85 + (roll % 16) as nat) >= 2000000 * defense
            && spec_damage(power, 2, attack, defense, crit, type_percent, roll) < 65535 ==> spec_damage(
            power,
            2,
            attack,
            defense,
            crit,
            type_percent,
            roll,
        ) < spec_damage(power, 3, attack, defense, crit, type_percent, roll),
{
    let r = 85 + (roll % 16) as nat;
    if defense == 0 {
        assert(22 * power * 2 * attack == 0 <==> 22 * power * 3 * attack == 0) by (nonlinear_arith);
    } else {
        let extra = 22 * power * attack * crit * type_percent * r;
        let n2 = (22 * power * 2 * attack + 200 * defense) * crit * type_percent * r;
        let n3 = (22 * power * 3 * attack + 200 * defense) * crit * type_percent * r;
        assert(n3 == n2 + extra) by (nonlinear_arith)
            requires
                extra == 22 * power * attack * crit * type_percent * r,
                n2 == (22 * power * 2 * attack + 200 * defense) * crit * type_percent * r,
                n3 == (22 * power * 3 * attack + 200 * defense) * crit * type_percent * r,
        ;
        let d = 1000000 * defense;
        vstd::arithmetic::div_mod::lemma_div_is_ordered((2 * n2 + d) as int, (2 * n3 + d) as int, (2 * d) as int);
        if extra >= 2 * d {
            vstd::arithmetic::div_mod::lemma_div_is_ordered(
                (2 * n2 + d + 4 * d) as int,
                (2 * n3 + d) as int,
                (2 * d) as int,
            );
            let x: int = (2 * n2 + d) as int;
            let dd: int = (2 * d) as int;
            vstd::arithmetic::div_mod::lemma_div_plus_one(x, dd);
            vstd::arithmetic::div_mod::lemma_div_plus_one(dd + x, dd);
            assert(dd + (dd + x) == (2 * n2 + d + 4 * d) as int);
        }
    }
}

/// The same-type attack bonus: when the attacker currently has the move's type, its damage is
/// the formula with the 3/2 factor; otherwise the formula without it. So a same-type move
/// never does less than the formula without the bonus, and does more once the bonus is worth
/// two points and the damage is not capped (see `lemma_bonus_raises_damage`).
pub proof fn lemma_same_type_attack_bonus(
    attacker: PokemonInst,
    defender: PokemonInst,
    attacker_player: BattlePlayer,
    defender_player: BattlePlayer,
    m: Move,
    is_critical: bool,
    roll: u8,
)
    requires
        spec_damage_rolls(m),
    ensures
        ({
            let power = spec_move_power(m).unwrap() as nat;
            let attack = spec_effective_attack(attacker, attacker_player, m);
            let defense = spec_effective_defense(defender, defender_player, m);
            let crit: nat = if is_critical { 2 } else { 1 };
            let percent = spec_effectiveness_percent(
                spec_move_type(m),
                spec_current_types(defender, defender_player),
            );
            let damage = spec_attack_damage(attacker, defender, attacker_player, defender_player, m, is_critical, roll);
            let plain = spec_damage(power, 2, attack, defense, crit, percent, roll);
            &&& spec_current_types(attacker, attacker_player).contains(spec_move_type(m)) ==> damage
                == spec_damage(power, 3, attack, defense, crit, percent, roll) && damage >= plain
            &&& spec_current_types(attacker, attacker_player).contains(spec_move_type(m)) && defense > 0 && 22
                * power * attack * crit * percent * (85 + (roll % 16) as nat) >= 2000000 * defense && plain
                < 65535 ==> damage > plain
            &&& !spec_current_types(attacker, attacker_player).contains(spec_move_type(m)) ==> damage == plain
        }),
{
    let power = spec_move_power(m).unwrap() as nat;
    let attack = spec_effective_attack(attacker, attacker_player, m);
    let defense = spec_effective_defense(defender, defender_player, m);
    let crit: nat = if is_critical { 2 } else { 1 };
    let percent = spec_effectiveness_percent(spec_move_type(m), spec_current_types(defender, defender_player));
    lemma_bonus_raises_damage(power, attack, defense, crit, percent, roll);
}

/// Monotonicity of the accuracy modifier: a higher accuracy stage never gives a lower hit
/// threshold.
proof fn lemma_modified_accuracy_monotone(base: u8, s1: int, s2: int)
    requires
        -6 <= s1 <= s2 <= 6,
    ensures
        spec_modified_accuracy(base, s1) <= spec_modified_accuracy(base, s2),
{
    let b = base as nat;
    let q1: nat = if s1 >= 0 {
        spec_round_div(b * (3 + s1) as nat, 3)
    } else {
        spec_round_div(b * 3, (3 - s1) as nat)
    };
    let q2: nat = if s2 >= 0 {
        spec_round_div(b * (3 + s2) as nat, 3)
    } else {
        spec_round_div(b * 3, (3 - s2) as nat)
    };
    if s1 >= 0 {
        assert(b * (3 + s1) as nat <= b * (3 + s2) as nat) by (nonlinear_arith)
            requires
                0 <= s1 <= s2,
        ;
        vstd::arithmetic::div_mod::lemma_div_is_ordered(
            (2 * (b * (3 + s1) as nat) + 3) as int,
            (2 * (b * (3 + s2) as nat) + 3) as int,
            6,
        );
    } else if s2 < 0 {
        // b*3 / (3 - s) with a smaller denominator for s2: compare through rounding bounds.
        let d1: int = 3 - s1;
        let d2: int = 3 - s2;
        let x: int = (6 * b) as int;
        assert((x + d1) / (2 * d1) <= (x + d2) / (2 * d2)) by (nonlinear_arith)
            requires
                x >= 0,
                4 <= d2 <= d1 <= 9,
        {
            let a = (x + d1) / (2 * d1);
            assert(a * (2 * d1) <= x + d1);
            assert(a * (2 * d2) <= x + d2) by (nonlinear_arith)
                requires
                    a * (2 * d1) <= x + d1,
                    4 <= d2 <= d1,
                    x >= 0,
                    a >= 0,
            ;
        }
    } else {
        assert(q1 <= b) by {
            let d1: int = 3 - s1;
            assert((6 * b + d1) / (2 * d1) <= b) by (nonlinear_arith)
                requires
                    4 <= d1 <= 9,
                    b >= 0,
            ;
        }
        assert(b <= q2) by {
            assert(b * (3 + s2) as nat >= 3 * b) by (nonlinear_arith)
                requires
                    s2 >= 0,
            ;
            assert((2 * (b * (3 + s2) as nat) + 3) / 6 >= b) by (nonlinear_arith)
                requires
                    b * (3 + s2) as nat >= 3 * b,
            ;
        }
    }
}

/// Evasion only ever hurts the attacker and accuracy only ever helps it: the hit threshold
/// never rises when the defender's evasion stage rises, never falls when the attacker's
/// accuracy stage rises, and with equal accuracy and evasion stages it is the move's own
/// accuracy (kept within 1..=100).
pub proof fn lemma_accuracy_and_evasion(
    attacker1: BattlePlayer,
    attacker2: BattlePlayer,
    defender1: BattlePlayer,
    defender2: BattlePlayer,
    accuracy: u8,
)
    ensures
        spec_stage(attacker1.stat_stages, StatType::Acc) <= spec_stage(attacker2.stat_stages, StatType::Acc)
            && spec_stage(defender1.stat_stages, StatType::Eva) >= spec_stage(defender2.stat_stages, StatType::Eva)
            ==> spec_modified_accuracy(accuracy, spec_adjusted_accuracy_stage(attacker1, defender1))
            <= spec_modified_accuracy(accuracy, spec_adjusted_accuracy_stage(attacker2, defender2)),
        spec_stage(attacker1.stat_stages, StatType::Acc) == spec_stage(defender1.stat_stages, StatType::Eva)
            ==> spec_modified_accuracy(accuracy, spec_adjusted_accuracy_stage(attacker1, defender1)) == if accuracy
            < 1 {
            1
        } else if accuracy > 100 {
            100
        } else {
            accuracy as nat
        },
{
    let s1 = spec_adjusted_accuracy_stage(attacker1, defender1);
    let s2 = spec_adjusted_accuracy_stage(attacker2, defender2);
    if spec_stage(attacker1.stat_stages, StatType::Acc) <= spec_stage(attacker2.stat_stages, StatType::Acc)
        && spec_stage(defender1.stat_stages, StatType::Eva) >= spec_stage(defender2.stat_stages, StatType::Eva) {
        lemma_modified_accuracy_monotone(accuracy, s1, s2);
    }
    if spec_stage(attacker1.stat_stages, StatType::Acc) == spec_stage(defender1.stat_stages, StatType::Eva) {
        assert(s1 == 0);
        assert((2 * (accuracy as nat * 3) + 3) / 6 == accuracy as nat) by (nonlinear_arith);
    }
}

/// Adding crit boosts to a ratio of at most 255 keeps it within 255 and never lowers it.
proof fn lemma_crit_ratio_from_bounds(start: nat, effects: Seq<MoveEffect>)
    requires
        start <= 255,
    ensures
        start <= spec_crit_ratio_from(start, effects) <= 255,
    decreases effects.len(),
{
    if effects.len() > 0 {
        let next = match effects[0] {
            MoveEffect::Crit(b) => spec_sat_add_u8(start, b as nat),
            _ => start,
        };
        lemma_crit_ratio_from_bounds(next, effects.drop_first());
    }
}

/// Critical hits only get likelier: a higher critical-hit ratio never has a lower roll
/// threshold, and a higher Focus Energy stage never gives a lower ratio, nor a lower
/// threshold, for the same move.
pub proof fn lemma_critical_hit_chances(m: Move, focus1: i8, focus2: i8, ratio1: nat, ratio2: nat)
    ensures
        ratio1 <= ratio2 ==> spec_crit_threshold(ratio1) <= spec_crit_threshold(ratio2),
        focus1 <= focus2 ==> spec_crit_ratio(m, focus1) <= spec_crit_ratio(m, focus2),
        focus1 <= focus2 ==> spec_crit_threshold(spec_crit_ratio(m, focus1)) <= spec_crit_threshold(
            spec_crit_ratio(m, focus2),
        ),
{
    lemma_crit_ratio_from_bounds(1, spec_move_effects(m));
}

/// Damage never falls when any of its factors rises: with the same defense, more power, a
/// larger same-type factor, more attack, a critical multiplier at least as large, a type
/// multiplier at least as large and a random factor (85 + roll % 16 percent) at least as large
/// never deal less.
pub proof fn lemma_damage_grows_with_its_factors(
    defense: nat,
    power1: nat,
    power2: nat,
    stab1: nat,
    stab2: nat,
    attack1: nat,
    attack2: nat,
    crit1: nat,
    crit2: nat,
    type1: nat,
    type2: nat,
    roll1: u8,
    roll2: u8,
)
    requires
        power1 <= power2,
        stab1 <= stab2,
        attack1 <= attack2,
        crit1 <= crit2,
        type1 <= type2,
        roll1 % 16 <= roll2 % 16,
    ensures
        spec_damage(power1, stab1, attack1, defense, crit1, type1, roll1) <= spec_damage(
            power2,
            stab2,
            attack2,
            defense,
            crit2,
            type2,
            roll2,
        ),
{
    let core1 = 22 * power1 * stab1 * attack1;
    let core2 = 22 * power2 * stab2 * attack2;
    assert(core1 <= core2) by (nonlinear_arith)
        requires
            core1 == 22 * power1 * stab1 * attack1,
            core2 == 22 * power2 * stab2 * attack2,
            power1 <= power2,
            stab1 <= stab2,
            attack1 <= attack2,
    ;
    if defense > 0 {
        let r1 = 85 + (roll1 % 16) as nat;
        let r2 = 85 + (roll2 % 16) as nat;
        let n1 = (core1 + 200 * defense) * crit1 * type1 * r1;
        let n2 = (core2 + 200 * defense) * crit2 * type2 * r2;
        assert(n1 <= n2) by (nonlinear_arith)
            requires
                n1 == (core1 + 200 * defense) * crit1 * type1 * r1,
                n2 == (core2 + 200 * defense) * crit2 * type2 * r2,
                core1 <= core2,
                crit1 <= crit2,
                type1 <= type2,
                r1 <= r2,
        ;
        let d = 1000000 * defense;
        vstd::arithmetic::div_mod::lemma_div_is_ordered((2 * n1 + d) as int, (2 * n2 + d) as int, (2 * d) as int);
    }
}

} // verus!
