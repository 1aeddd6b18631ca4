//! Core game vocabulary: elemental types and the type chart, move categories,
//! stats, species data, experience curves and learnsets.
use vstd::prelude::*;

use crate::moves::Move;
use crate::species::Species;

verus! {

/// The elemental type of a Pokemon or of a move.
#[derive(Debug, Clone, Copy, PartialEq, Eq, Hash, Structural)]
pub enum PokemonType {
    Normal,
    Fighting,
    Flying,
    Poison,
    Ground,
    Rock,
    Bug,
    GhostType,
    Fire,
    Water,
    Grass,
    Electric,
    Psychic,
    Ice,
    Dragon,
    Typeless,
}

/// The type chart, with each multiplier counted in halves:
/// 0 = no effect, 1 = not very effective (x0.5), 2 = neutral (x1), 4 = super effective (x2).
pub open spec fn spec_effectiveness_halves(attacking: PokemonType, defending: PokemonType) -> nat {
    match (attacking, defending) {
        (PokemonType::Normal, PokemonType::GhostType) => 0,
        (PokemonType::Normal, PokemonType::Rock) => 1,
        (PokemonType::Normal, _) => 2,
        (PokemonType::Fire, PokemonType::Fire) | (PokemonType::Fire, PokemonType::Water)
        | (PokemonType::Fire, PokemonType::Rock) | (PokemonType::Fire, PokemonType::Dragon) => 1,
        (PokemonType::Fire, PokemonType::Grass) | (PokemonType::Fire, PokemonType::Ice)
        | (PokemonType::Fire, PokemonType::Bug) => 4,
        (PokemonType::Fire, _) => 2,
        (PokemonType::Water, PokemonType::Water) | (PokemonType::Water, PokemonType::Grass)
        | (PokemonType::Water, PokemonType::Dragon) => 1,
        (PokemonType::Water, PokemonType::Fire) | (PokemonType::Water, PokemonType::Ground)
        | (PokemonType::Water, PokemonType::Rock) => 4,
        (PokemonType::Water, _) => 2,
        (PokemonType::Electric, PokemonType::Electric)
        | (PokemonType::Electric, PokemonType::Grass)
        | (PokemonType::Electric, PokemonType::Dragon) => 1,
        (PokemonType::Electric, PokemonType::Ground) => 0,
        (PokemonType::Electric, PokemonType::Water)
        | (PokemonType::Electric, PokemonType::Flying) => 4,
        (PokemonType::Electric, _) => 2,
        (PokemonType::Grass, PokemonType::Fire) | (PokemonType::Grass, PokemonType::Grass)
        | (PokemonType::Grass, PokemonType::Poison) | (PokemonType::Grass, PokemonType::Flying)
        | (PokemonType::Grass, PokemonType::Bug) | (PokemonType::Grass, PokemonType::Dragon) => 1,
        (PokemonType::Grass, PokemonType::Water) | (PokemonType::Grass, PokemonType::Ground)
        | (PokemonType::Grass, PokemonType::Rock) => 4,
        (PokemonType::Grass, _) => 2,
        (PokemonType::Ice, PokemonType::Fire) | (PokemonType::Ice, PokemonType::Water)
        | (PokemonType::Ice, PokemonType::Ice) => 1,
        (PokemonType::Ice, PokemonType::Grass) | (PokemonType::Ice, PokemonType::Ground)
        | (PokemonType::Ice, PokemonType::Flying) | (PokemonType::Ice, PokemonType::Dragon) => 4,
        (PokemonType::Ice, _) => 2,
        (PokemonType::Fighting, PokemonType::Poison)
        | (PokemonType::Fighting, PokemonType::Flying)
        | (PokemonType::Fighting, PokemonType::Psychic)
        | (PokemonType::Fighting, PokemonType::Bug) => 1,
        (PokemonType::Fighting, PokemonType::GhostType) => 0,
        (PokemonType::Fighting, PokemonType::Normal) | (PokemonType::Fighting, PokemonType::Ice)
        | (PokemonType::Fighting, PokemonType::Rock) => 4,
        (PokemonType::Fighting, _) => 2,
        (PokemonType::Poison, PokemonType::Poison) | (PokemonType::Poison, PokemonType::Ground)
        | (PokemonType::Poison, PokemonType::Rock) | (PokemonType::Poison, PokemonType::GhostType) => 1,
        (PokemonType::Poison, PokemonType::Grass) => 4,
        (PokemonType::Poison, _) => 2,
        (PokemonType::Ground, PokemonType::Grass) | (PokemonType::Ground, PokemonType::Bug) => 1,
        (PokemonType::Ground, PokemonType::Flying) => 0,
        (PokemonType::Ground, PokemonType::Fire) | (PokemonType::Ground, PokemonType::Electric)
        | (PokemonType::Ground, PokemonType::Poison) | (PokemonType::Ground, PokemonType::Rock) => 4,
        (PokemonType::Ground, _) => 2,
        (PokemonType::Flying, PokemonType::Electric) | (PokemonType::Flying, PokemonType::Rock) => 1,
        (PokemonType::Flying, PokemonType::Grass) | (PokemonType::Flying, PokemonType::Fighting)
        | (PokemonType::Flying, PokemonType::Bug) => 4,
        (PokemonType::Flying, _) => 2,
        (PokemonType::Psychic, PokemonType::Psychic) => 1,
        (PokemonType::Psychic, PokemonType::Fighting)
        | (PokemonType::Psychic, PokemonType::Poison) => 4,
        (PokemonType::Psychic, _) => 2,
        (PokemonType::Bug, PokemonType::Fire) | (PokemonType::Bug, PokemonType::Fighting)
        | (PokemonType::Bug, PokemonType::Poison) | (PokemonType::Bug, PokemonType::Flying)
        | (PokemonType::Bug, PokemonType::GhostType) => 1,
        (PokemonType::Bug, PokemonType::Grass) | (PokemonType::Bug, PokemonType::Psychic) => 4,
        (PokemonType::Bug, _) => 2,
        (PokemonType::Rock, PokemonType::Fighting) | (PokemonType::Rock, PokemonType::Ground) => 1,
        (PokemonType::Rock, PokemonType::Fire) | (PokemonType::Rock, PokemonType::Ice)
        | (PokemonType::Rock, PokemonType::Flying) | (PokemonType::Rock, PokemonType::Bug) => 4,
        (PokemonType::Rock, _) => 2,
        (PokemonType::GhostType, PokemonType::Normal) => 0,
        (PokemonType::GhostType, PokemonType::GhostType) => 4,
        (PokemonType::GhostType, PokemonType::Psychic) => 1,
        (PokemonType::GhostType, _) => 2,
        (PokemonType::Dragon, PokemonType::Dragon) => 4,
        (PokemonType::Dragon, _) => 2,
        (PokemonType::Typeless, _) => 2,
    }
}

impl PokemonType {
    /// The type-chart multiplier of `attacking` against `defending`, counted in halves
    /// (0, 1, 2 or 4 for x0, x0.5, x1, x2).
    pub fn effectiveness_halves(attacking: PokemonType, defending: PokemonType) -> (r: u8)
        ensures
            r as nat == spec_effectiveness_halves(attacking, defending),
            r == 0 || r == 1 || r == 2 || r == 4,
    {
        match (attacking, defending) {
            (PokemonType::Normal, PokemonType::GhostType) => 0,
            (PokemonType::Normal, PokemonType::Rock) => 1,
            (PokemonType::Normal, _) => 2,
            (PokemonType::Fire, PokemonType::Fire) | (PokemonType::Fire, PokemonType::Water)
            | (PokemonType::Fire, PokemonType::Rock) | (PokemonType::Fire, PokemonType::Dragon) => 1,
            (PokemonType::Fire, PokemonType::Grass) | (PokemonType::Fire, PokemonType::Ice)
            | (PokemonType::Fire, PokemonType::Bug) => 4,
            (PokemonType::Fire, _) => 2,
            (PokemonType::Water, PokemonType::Water) | (PokemonType::Water, PokemonType::Grass)
            | (PokemonType::Water, PokemonType::Dragon) => 1,
            (PokemonType::Water, PokemonType::Fire) | (PokemonType::Water, PokemonType::Ground)
            | (PokemonType::Water, PokemonType::Rock) => 4,
            (PokemonType::Water, _) => 2,
            (PokemonType::Electric, PokemonType::Electric)
            | (PokemonType::Electric, PokemonType::Grass)
            | (PokemonType::Electric, PokemonType::Dragon) => 1,
            (PokemonType::Electric, PokemonType::Ground) => 0,
            (PokemonType::Electric, PokemonType::Water)
            | (PokemonType::Electric, PokemonType::Flying) => 4,
            (PokemonType::Electric, _) => 2,
            (PokemonType::Grass, PokemonType::Fire) | (PokemonType::Grass, PokemonType::Grass)
            | (PokemonType::Grass, PokemonType::Poison) | (PokemonType::Grass, PokemonType::Flying)
            | (PokemonType::Grass, PokemonType::Bug) | (PokemonType::Grass, PokemonType::Dragon) => 1,
            (PokemonType::Grass, PokemonType::Water) | (PokemonType::Grass, PokemonType::Ground)
            | (PokemonType::Grass, PokemonType::Rock) => 4,
            (PokemonType::Grass, _) => 2,
            (PokemonType::Ice, PokemonType::Fire) | (PokemonType::Ice, PokemonType::Water)
            | (PokemonType::Ice, PokemonType::Ice) => 1,
            (PokemonType::Ice, PokemonType::Grass) | (PokemonType::Ice, PokemonType::Ground)
            | (PokemonType::Ice, PokemonType::Flying) | (PokemonType::Ice, PokemonType::Dragon) => 4,
            (PokemonType::Ice, _) => 2,
            (PokemonType::Fighting, PokemonType::Poison)
            | (PokemonType::Fighting, PokemonType::Flying)
            | (PokemonType::Fighting, PokemonType::Psychic)
            | (PokemonType::Fighting, PokemonType::Bug) => 1,
            (PokemonType::Fighting, PokemonType::GhostType) => 0,
            (PokemonType::Fighting, PokemonType::Normal)
            | (PokemonType::Fighting, PokemonType::Ice)
            | (PokemonType::Fighting, PokemonType::Rock) => 4,
            (PokemonType::Fighting, _) => 2,
            (PokemonType::Poison, PokemonType::Poison) | (PokemonType::Poison, PokemonType::Ground)
            | (PokemonType::Poison, PokemonType::Rock) | (PokemonType::Poison, PokemonType::GhostType) => 1,
            (PokemonType::Poison, PokemonType::Grass) => 4,
            (PokemonType::Poison, _) => 2,
            (PokemonType::Ground, PokemonType::Grass) | (PokemonType::Ground, PokemonType::Bug) => 1,
            (PokemonType::Ground, PokemonType::Flying) => 0,
            (PokemonType::Ground, PokemonType::Fire) | (PokemonType::Ground, PokemonType::Electric)
            | (PokemonType::Ground, PokemonType::Poison) | (PokemonType::Ground, PokemonType::Rock) => 4,
            (PokemonType::Ground, _) => 2,
            (PokemonType::Flying, PokemonType::Electric) | (PokemonType::Flying, PokemonType::Rock) => 1,
            (PokemonType::Flying, PokemonType::Grass) | (PokemonType::Flying, PokemonType::Fighting)
            | (PokemonType::Flying, PokemonType::Bug) => 4,
            (PokemonType::Flying, _) => 2,
            (PokemonType::Psychic, PokemonType::Psychic) => 1,
            (PokemonType::Psychic, PokemonType::Fighting)
            | (PokemonType::Psychic, PokemonType::Poison) => 4,
            (PokemonType::Psychic, _) => 2,
            (PokemonType::Bug, PokemonType::Fire) | (PokemonType::Bug, PokemonType::Fighting)
            | (PokemonType::Bug, PokemonType::Poison) | (PokemonType::Bug, PokemonType::Flying)
            | (PokemonType::Bug, PokemonType::GhostType) => 1,
            (PokemonType::Bug, PokemonType::Grass) | (PokemonType::Bug, PokemonType::Psychic) => 4,
            (PokemonType::Bug, _) => 2,
            (PokemonType::Rock, PokemonType::Fighting) | (PokemonType::Rock, PokemonType::Ground) => 1,
            (PokemonType::Rock, PokemonType::Fire) | (PokemonType::Rock, PokemonType::Ice)
            | (PokemonType::Rock, PokemonType::Flying) | (PokemonType::Rock, PokemonType::Bug) => 4,
            (PokemonType::Rock, _) => 2,
            (PokemonType::GhostType, PokemonType::Normal) => 0,
            (PokemonType::GhostType, PokemonType::GhostType) => 4,
            (PokemonType::GhostType, PokemonType::Psychic) => 1,
            (PokemonType::GhostType, _) => 2,
            (PokemonType::Dragon, PokemonType::Dragon) => 4,
            (PokemonType::Dragon, _) => 2,
            (PokemonType::Typeless, _) => 2,
        }
    }

    /// True when `defending` takes no damage at all from `attacking` moves.
    pub fn is_immune(attacking: PokemonType, defending: PokemonType) -> (r: bool)
        ensures
            r == (spec_effectiveness_halves(attacking, defending) == 0),
    {
        Self::effectiveness_halves(attacking, defending) == 0
    }
}

/// The five type pairs of the chart that have no effect.
pub open spec fn spec_is_immunity_pair(attacking: PokemonType, defending: PokemonType) -> bool {
    ||| attacking == PokemonType::Normal && defending == PokemonType::GhostType
    ||| attacking == PokemonType::Fighting && defending == PokemonType::GhostType
    ||| attacking == PokemonType::Electric && defending == PokemonType::Ground
    ||| attacking == PokemonType::Ground && defending == PokemonType::Flying
    ||| attacking == PokemonType::GhostType && defending == PokemonType::Normal
}

/// Immunity holds for exactly five (attacking, defending) pairs of the chart.
pub proof fn lemma_immunities_are_exactly(attacking: PokemonType, defending: PokemonType)
    ensures
        (spec_effectiveness_halves(attacking, defending) == 0) <==> spec_is_immunity_pair(
            attacking,
            defending,
        ),
{
}

/// Typeless attacks are neutral against every type, and against a single type every attack
/// is immune (0), not very effective (1/2), neutral (1) or super effective (2).
pub proof fn lemma_typeless_is_neutral(attacking: PokemonType, defending: PokemonType)
    ensures
        spec_effectiveness_halves(PokemonType::Typeless, defending) == 2,
        spec_effectiveness_halves(attacking, defending) == 0 || spec_effectiveness_halves(attacking, defending)
            == 1 || spec_effectiveness_halves(attacking, defending) == 2 || spec_effectiveness_halves(
            attacking,
            defending,
        ) == 4,
{
}

/// The type chart, row by row: for every defending type, each attacking type is super
/// effective (x2) exactly against the types listed first and not very effective (x1/2) exactly
/// against those listed second. With the five immunities and every other pair neutral, this
/// is the whole chart.
pub proof fn lemma_type_chart(defending: PokemonType)
    ensures
        (spec_effectiveness_halves(PokemonType::Normal, defending) == 4) <==> (false),
        (spec_effectiveness_halves(PokemonType::Normal, defending) == 1) <==> (defending == PokemonType::Rock),
        (spec_effectiveness_halves(PokemonType::Fire, defending) == 4) <==> (defending == PokemonType::Grass || defending == PokemonType::Ice || defending == PokemonType::Bug),
        (spec_effectiveness_halves(PokemonType::Fire, defending) == 1) <==> (defending == PokemonType::Fire || defending == PokemonType::Water || defending == PokemonType::Rock || defending == PokemonType::Dragon),
        (spec_effectiveness_halves(PokemonType::Water, defending) == 4) <==> (defending == PokemonType::Fire || defending == PokemonType::Ground || defending == PokemonType::Rock),
        (spec_effectiveness_halves(PokemonType::Water, defending) == 1) <==> (defending == PokemonType::Water || defending == PokemonType::Grass || defending == PokemonType::Dragon),
        (spec_effectiveness_halves(PokemonType::Electric, defending) == 4) <==> (defending == PokemonType::Water || defending == PokemonType::Flying),
        (spec_effectiveness_halves(PokemonType::Electric, defending) == 1) <==> (defending == PokemonType::Electric || defending == PokemonType::Grass || defending == PokemonType::Dragon),
        (spec_effectiveness_halves(PokemonType::Grass, defending) == 4) <==> (defending == PokemonType::Water || defending == PokemonType::Ground || defending == PokemonType::Rock),
        (spec_effectiveness_halves(PokemonType::Grass, defending) == 1) <==> (defending == PokemonType::Fire || defending == PokemonType::Grass || defending == PokemonType::Poison || defending == PokemonType::Flying || defending == PokemonType::Bug || defending == PokemonType::Dragon),
        (spec_effectiveness_halves(PokemonType::Ice, defending) == 4) <==> (defending == PokemonType::Grass || defending == PokemonType::Ground || defending == PokemonType::Flying || defending == PokemonType::Dragon),
        (spec_effectiveness_halves(PokemonType::Ice, defending) == 1) <==> (defending == PokemonType::Fire || defending == PokemonType::Water || defending == PokemonType::Ice),
        (spec_effectiveness_halves(PokemonType::Fighting, defending) == 4) <==> (defending == PokemonType::Normal || defending == PokemonType::Ice || defending == PokemonType::Rock),
        (spec_effectiveness_halves(PokemonType::Fighting, defending) == 1) <==> (defending == PokemonType::Poison || defending == PokemonType::Flying || defending == PokemonType::Psychic || defending == PokemonType::Bug),
        (spec_effectiveness_halves(PokemonType::Poison, defending) == 4) <==> (defending == PokemonType::Grass),
        (spec_effectiveness_halves(PokemonType::Poison, defending) == 1) <==> (defending == PokemonType::Poison || defending == PokemonType::Ground || defending == PokemonType::Rock || defending == PokemonType::GhostType),
        (spec_effectiveness_halves(PokemonType::Ground, defending) == 4) <==> (defending == PokemonType::Fire || defending == PokemonType::Electric || defending == PokemonType::Poison || defending == PokemonType::Rock),
        (spec_effectiveness_halves(PokemonType::Ground, defending) == 1) <==> (defending == PokemonType::Grass || defending == PokemonType::Bug),
        (spec_effectiveness_halves(PokemonType::Flying, defending) == 4) <==> (defending == PokemonType::Grass || defending == PokemonType::Fighting || defending == PokemonType::Bug),
        (spec_effectiveness_halves(PokemonType::Flying, defending) == 1) <==> (defending == PokemonType::Electric || defending == PokemonType::Rock),
        (spec_effectiveness_halves(PokemonType::Psychic, defending) == 4) <==> (defending == PokemonType::Fighting || defending == PokemonType::Poison),
        (spec_effectiveness_halves(PokemonType::Psychic, defending) == 1) <==> (defending == PokemonType::Psychic),
        (spec_effectiveness_halves(PokemonType::Bug, defending) == 4) <==> (defending == PokemonType::Grass || defending == PokemonType::Psychic),
        (spec_effectiveness_halves(PokemonType::Bug, defending) == 1) <==> (defending == PokemonType::Fire || defending == PokemonType::Fighting || defending == PokemonType::Poison || defending == PokemonType::Flying || defending == PokemonType::GhostType),
        (spec_effectiveness_halves(PokemonType::Rock, defending) == 4) <==> (defending == PokemonType::Fire || defending == PokemonType::Ice || defending == PokemonType::Flying || defending == PokemonType::Bug),
        (spec_effectiveness_halves(PokemonType::Rock, defending) == 1) <==> (defending == PokemonType::Fighting || defending == PokemonType::Ground),
        (spec_effectiveness_halves(PokemonType::GhostType, defending) == 4) <==> (defending == PokemonType::GhostType),
        (spec_effectiveness_halves(PokemonType::GhostType, defending) == 1) <==> (defending == PokemonType::Psychic),
        (spec_effectiveness_halves(PokemonType::Dragon, defending) == 4) <==> (defending == PokemonType::Dragon),
        (spec_effectiveness_halves(PokemonType::Dragon, defending) == 1) <==> (false),
        (spec_effectiveness_halves(PokemonType::Typeless, defending) == 4) <==> (false),
        (spec_effectiveness_halves(PokemonType::Typeless, defending) == 1) <==> (false),
{
}

/// How a move deals its damage.
#[derive(Debug, Clone, Copy, PartialEq, Eq, Structural)]
pub enum MoveCategory {
    Physical,
    Special,
    Other,
    Status,
}

/// The battle stats that stages apply to.
#[derive(Debug, Clone, Copy, PartialEq, Eq, Hash, Structural)]
pub enum StatType {
    Atk,
    Def,
    SpAtk,
    SpDef,
    Spe,
    Acc,
    Eva,
    Crit,
}

/// Who a move effect applies to.
#[derive(Debug, Clone, Copy, PartialEq, Eq, Structural)]
pub enum Target {
    User,
    Target,
}

/// The kinds of major status a move can cure.
#[derive(Debug, Clone, Copy, PartialEq, Eq, Structural)]
pub enum StatusType {
    Sleep,
    Poison,
    Burn,
    Freeze,
    Paralysis,
}

/// Conditions that protect a whole side of the field for some turns.
#[derive(Debug, Clone, Copy, PartialEq, Eq, Hash, Structural)]
pub enum TeamCondition {
    Reflect,
    LightScreen,
    Mist,
}

/// Items that can trigger an evolution.
#[derive(Debug, Clone, Copy, PartialEq, Eq, Structural)]
pub enum Item {
    FireStone,
    WaterStone,
    ThunderStone,
    LeafStone,
    MoonStone,
}

/// The six base stats of a species.
#[derive(Debug, Clone, Copy)]
pub struct BaseStats {
    pub hp: u8,
    pub attack: u8,
    pub defense: u8,
    pub sp_attack: u8,
    pub sp_defense: u8,
    pub speed: u8,
}

impl BaseStats {
    /// The base stat total.
    pub fn total(&self) -> (r: u16)
        ensures
            r == self.hp as int + self.attack as int + self.defense as int + self.sp_attack as int
                + self.sp_defense as int + self.speed as int,
    {
        self.hp as u16 + self.attack as u16 + self.defense as u16 + self.sp_attack as u16
            + self.sp_defense as u16 + self.speed as u16
    }
}

/// How a species evolves.
#[derive(Debug, Clone, Copy)]
pub enum EvolutionMethod {
    Level(u8),
    Item(Item),
}

/// The species a Pokemon evolves into, and how.
#[derive(Debug, Clone, Copy)]
pub struct EvolutionData {
    pub evolves_into: Species,
    pub method: EvolutionMethod,
}

/// Experience groups that determine leveling speed.
#[derive(Debug, Clone, Copy, PartialEq, Eq, Structural)]
pub enum ExperienceGroup {
    Fast,
    MediumFast,
    MediumSlow,
    Slow,
    Fluctuating,
    Erratic,
}

/// The highest level a Pokemon can reach.
pub const MAX_LEVEL: u8 = 100;

/// The level reached with `total_exp` on an experience curve, where `curve[n]` is the
/// total experience needed for level `n`: one less than the first level in `1..=100`
/// whose requirement exceeds `total_exp`, or 100 when there is none.
pub open spec fn spec_level_from_exp(curve: Seq<u32>, total_exp: u32) -> nat {
    if exists|l: int| 1 <= l <= 100 && curve[l] > total_exp {
        let l = choose|l: int|
            1 <= l <= 100 && curve[l] > total_exp && forall|k: int|
                1 <= k < l ==> curve[k] <= total_exp;
        (l - 1) as nat
    } else {
        100
    }
}

impl ExperienceGroup {
    /// The level a Pokemon holds with `total_exp` experience, given the group's curve
    /// (`exp_curve[n]` is the total experience needed to reach level `n`, for `n` in `0..=100`).
    pub fn calculate_level_from_exp(exp_curve: &Vec<u32>, total_exp: u32) -> (r: u8)
        requires
            exp_curve.len() == 101,
        ensures
            r as nat == spec_level_from_exp(exp_curve@, total_exp),
            r <= 100,
            forall|k: int| 1 <= k <= r ==> exp_curve@[k] <= total_exp,
            r < 100 ==> exp_curve@[r + 1] > total_exp,
    {
        let mut level: usize = 1;
        while level <= 100
            invariant
                1 <= level <= 101,
                exp_curve.len() == 101,
                forall|k: int| 1 <= k < level ==> exp_curve@[k] <= total_exp,
            decreases 101 - level,
        {
            if exp_curve[level] > total_exp {
                proof {
                    let l = level as int;
                    assert(1 <= l <= 100 && exp_curve@[l] > total_exp);
                    let c = choose|c: int|
                        1 <= c <= 100 && exp_curve@[c] > total_exp && forall|k: int|
                            1 <= k < c ==> exp_curve@[k] <= total_exp;
                    assert(1 <= c <= 100 && exp_curve@[c] > total_exp && forall|k: int|
                        1 <= k < c ==> exp_curve@[k] <= total_exp);
                    if c < l {
                        assert(exp_curve@[c] <= total_exp);
                    }
                    if l < c {
                        assert(exp_curve@[l] <= total_exp);
                    }
                }
                return (level - 1) as u8;
            }
            level = level + 1;
        }
        100
    }

    /// Whether a Pokemon at `current_level` with `total_exp` has enough experience for the
    /// next level; never at level 100 or above.
    pub fn can_level_up(exp_curve: &Vec<u32>, current_level: u8, total_exp: u32) -> (r: bool)
        requires
            exp_curve.len() == 101,
        ensures
            r == (current_level < 100 && total_exp >= exp_curve@[current_level + 1]),
    {
        if current_level >= 100 {
            return false;
        }
        let next_level_exp = exp_curve[(current_level + 1) as usize];
        total_exp >= next_level_exp
    }
}

/// Moves a species learns by level, its signature move, and tutorable moves.
#[derive(Debug, Clone)]
pub struct Learnset {
    /// Each entry is a level and the moves learned at that level.
    pub level_up: Vec<(u8, Vec<Move>)>,
    pub signature: Option<Move>,
    pub can_learn: Vec<Move>,
}

/// The index of the first level-up entry for `level`, if any.
pub open spec fn spec_first_entry_for_level(entries: Seq<(u8, Vec<Move>)>, level: u8, i: int) -> bool {
    &&& 0 <= i < entries.len()
    &&& entries[i].0 == level
    &&& forall|k: int| 0 <= k < i ==> entries[k].0 != level
}

/// Whether `m` appears in the learnset in any of its three lists.
pub open spec fn spec_learnset_has(ls: Learnset, m: Move) -> bool {
    ||| ls.signature == Some(m)
    ||| exists|i: int, j: int|
        0 <= i < ls.level_up.len() && 0 <= j < ls.level_up[i].1.len() && ls.level_up[i].1[j] == m
    ||| ls.can_learn@.contains(m)
}

impl Learnset {
    /// The moves learned at exactly `level` (the first entry for that level).
    pub fn learns_at_level(&self, level: u8) -> (r: Option<&Vec<Move>>)
        ensures
            r is None <==> forall|i: int| 0 <= i < self.level_up.len() ==> self.level_up[i].0 != level,
            r matches Some(v) ==> exists|i: int|
                spec_first_entry_for_level(self.level_up@, level, i) && *v == self.level_up[i].1,
    {
        let mut i: usize = 0;
        while i < self.level_up.len()
            invariant
                0 <= i <= self.level_up.len(),
                forall|k: int| 0 <= k < i ==> self.level_up[k].0 != level,
            decreases self.level_up.len() - i,
        {
            if self.level_up[i].0 == level {
                let r = &self.level_up[i].1;
                assert(spec_first_entry_for_level(self.level_up@, level, i as int));
                return Some(r);
            }
            i = i + 1;
        }
        None
    }

    /// Whether the move is the signature move, a level-up move, or tutorable.
    pub fn can_learn_move(&self, move_: Move) -> (r: bool)
        ensures
            r == spec_learnset_has(*self, move_),
    {
        if let Some(signature) = self.signature {
            if signature == move_ {
                return true;
            }
        }
        let mut i: usize = 0;
        while i < self.level_up.len()
            invariant
                0 <= i <= self.level_up.len(),
                self.signature != Some(move_),
                forall|a: int, b: int|
                    0 <= a < i && 0 <= b < self.level_up[a].1.len() ==> self.level_up[a].1[b] != move_,
            decreases self.level_up.len() - i,
        {
            let moves = &self.level_up[i].1;
            let mut j: usize = 0;
            while j < moves.len()
                invariant
                    0 <= j <= moves.len(),
                    i < self.level_up.len(),
                    *moves == self.level_up[i as int].1,
                    forall|b: int| 0 <= b < j ==> moves[b] != move_,
                decreases moves.len() - j,
            {
                if moves[j] == move_ {
                    assert(self.level_up[i as int].1[j as int] == move_);
                    return true;
                }
                j = j + 1;
            }
            i = i + 1;
        }
        let mut k: usize = 0;
        while k < self.can_learn.len()
            invariant
                0 <= k <= self.can_learn.len(),
                forall|b: int| 0 <= b < k ==> self.can_learn[b] != move_,
            decreases self.can_learn.len() - k,
        {
            if self.can_learn[k] == move_ {
                assert(self.can_learn@.contains(move_));
                return true;
            }
            k = k + 1;
        }
        false
    }
}

/// The static data of a species.
#[derive(Debug, Clone)]
pub struct PokemonSpecies {
    pub pokedex_number: u16,
    pub name: String,
    pub types: Vec<PokemonType>,
    pub base_stats: BaseStats,
    pub learnset: Learnset,
    pub catch_rate: u8,
    pub base_exp: u16,
    pub experience_group: ExperienceGroup,
    pub description: String,
    pub evolution_data: Option<EvolutionData>,
}

/// The display name of a team condition.
pub open spec fn spec_team_condition_name(v: TeamCondition) -> Seq<char> {
    match v {
        TeamCondition::Reflect => "Reflect"@,
        TeamCondition::LightScreen => "Light Screen"@,
        TeamCondition::Mist => "Mist"@,
    }
}

impl TeamCondition {
    /// The display name of the team condition.
    pub fn display_name(&self) -> (r: &'static str)
        ensures
            r@ == spec_team_condition_name(*self),
    {
        match self {
            TeamCondition::Reflect => "Reflect",
            TeamCondition::LightScreen => "Light Screen",
            TeamCondition::Mist => "Mist",
        }
    }
}

/// The display name of a move category.
pub open spec fn spec_move_category_name(v: MoveCategory) -> Seq<char> {
    match v {
        MoveCategory::Physical => "Physical"@,
        MoveCategory::Special => "Special"@,
        MoveCategory::Other => "Other"@,
        MoveCategory::Status => "Status"@,
    }
}

impl MoveCategory {
    /// The display name of the category.
    pub fn display_name(&self) -> (r: &'static str)
        ensures
            r@ == spec_move_category_name(*self),
    {
        match self {
            MoveCategory::Physical => "Physical",
            MoveCategory::Special => "Special",
            MoveCategory::Other => "Other",
            MoveCategory::Status => "Status",
        }
    }
}

/// The display name of a stat.
pub open spec fn spec_stat_name(v: StatType) -> Seq<char> {
    match v {
        StatType::Atk => "Attack"@,
        StatType::Def => "Defense"@,
        StatType::SpAtk => "Special Attack"@,
        StatType::SpDef => "Special Defense"@,
        StatType::Spe => "Speed"@,
        StatType::Acc => "Accuracy"@,
        StatType::Eva => "Evasion"@,
        StatType::Crit => "Focus"@,
    }
}

impl StatType {
    /// The display name of the stat.
    pub fn display_name(&self) -> (r: &'static str)
        ensures
            r@ == spec_stat_name(*self),
    {
        match self {
            StatType::Atk => "Attack",
            StatType::Def => "Defense",
            StatType::SpAtk => "Special Attack",
            StatType::SpDef => "Special Defense",
            StatType::Spe => "Speed",
            StatType::Acc => "Accuracy",
            StatType::Eva => "Evasion",
            StatType::Crit => "Focus",
        }
    }
}

/// The display name of an effect target.
pub open spec fn spec_target_name(v: Target) -> Seq<char> {
    match v {
        Target::User => "User"@,
        Target::Target => "Target"@,
    }
}

impl Target {
    /// The display name of the target.
    pub fn display_name(&self) -> (r: &'static str)
        ensures
            r@ == spec_target_name(*self),
    {
        match self {
            Target::User => "User",
            Target::Target => "Target",
        }
    }
}

/// The display name of a type: the name of its variant.
pub open spec fn spec_type_name(v: PokemonType) -> Seq<char> {
    match v {
        PokemonType::Normal => "Normal"@,
        PokemonType::Fighting => "Fighting"@,
        PokemonType::Flying => "Flying"@,
        PokemonType::Poison => "Poison"@,
        PokemonType::Ground => "Ground"@,
        PokemonType::Rock => "Rock"@,
        PokemonType::Bug => "Bug"@,
        PokemonType::GhostType => "Ghost"@,
        PokemonType::Fire => "Fire"@,
        PokemonType::Water => "Water"@,
        PokemonType::Grass => "Grass"@,
        PokemonType::Electric => "Electric"@,
        PokemonType::Psychic => "Psychic"@,
        PokemonType::Ice => "Ice"@,
        PokemonType::Dragon => "Dragon"@,
        PokemonType::Typeless => "Typeless"@,
    }
}

impl PokemonType {
    /// The display name of the type.
    pub fn display_name(&self) -> (r: &'static str)
        ensures
            r@ == spec_type_name(*self),
    {
        match self {
            PokemonType::Normal => "Normal",
            PokemonType::Fighting => "Fighting",
            PokemonType::Flying => "Flying",
            PokemonType::Poison => "Poison",
            PokemonType::Ground => "Ground",
            PokemonType::Rock => "Rock",
            PokemonType::Bug => "Bug",
            PokemonType::GhostType => "Ghost",
            PokemonType::Fire => "Fire",
            PokemonType::Water => "Water",
            PokemonType::Grass => "Grass",
            PokemonType::Electric => "Electric",
            PokemonType::Psychic => "Psychic",
            PokemonType::Ice => "Ice",
            PokemonType::Dragon => "Dragon",
            PokemonType::Typeless => "Typeless",
        }
    }
}

} // verus!
