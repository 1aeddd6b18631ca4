//! Moves, their secondary effects, and the move data table.
use vstd::prelude::*;

use crate::schema::{MoveCategory, PokemonType, StatType, StatusType, Target, TeamCondition};

verus! {

/// A move a Pokemon can use.
#[derive(Debug, Clone, Copy, PartialEq, Eq, Hash, Structural)]
pub enum Move {
    Tackle,
    Scratch,
    QuickAttack,
    ViceGrip,
    Slash,
    DoubleEdge,
    SelfDestruct,
    PayDay,
    Bite,
    FuryAttack,
    Wrap,
    Rage,
    Thrash,
    HyperBeam,
    Struggle,
    HittingItself,
    Fly,
    Dig,
    HighJumpKick,
    PoisonSting,
    Ember,
    WaterGun,
    VineWhip,
    ThunderPunch,
    IceBeam,
    SolarBeam,
    Absorb,
    DreamEater,
    Swift,
    SeismicToss,
    SonicBoom,
    SuperFang,
    Guillotine,
    Counter,
    Bide,
    Growl,
    SwordsDance,
    ThunderWave,
    Hypnosis,
    Supersonic,
    LeechSeed,
    Recover,
    Rest,
    Substitute,
    Reflect,
    LightScreen,
    Mist,
    Haze,
    Growth,
    Refresh,
    Transform,
    Conversion,
    Teleport,
    MirrorMove,
    Metronome,
}

/// Secondary effects and special behaviours a move can carry.
#[derive(Debug, Clone, Copy, PartialEq, Eq, Structural)]
pub enum MoveEffect {
    Burn(u8),
    Paralyze(u8),
    Freeze(u8),
    Poison(u8),
    Sedate(u8),
    Flinch(u8),
    Confuse(u8),
    Trap(u8),
    Seed(u8),
    Exhaust(u8),
    StatChange(Target, StatType, i8, u8),
    RaiseAllStats(u8),
    Heal(u8),
    Haze(u8),
    CureStatus(Target, StatusType),
    SetTeamCondition(TeamCondition, u8),
    Ante(u8),
    InAir,
    Teleport(u8),
    ChargeUp,
    Underground,
    Transform,
    Conversion,
    Substitute,
    Counter,
    Bide(u8),
    MirrorMove,
    Rest(u8),
    Metronome,
    Rampage,
    Rage(u8),
    Explode,
    Reckless(u8),
    Recoil(u8),
    Drain(u8),
    Crit(u8),
    IgnoreDef(u8),
    Priority(i8),
    MultiHit(u8, u8),
    OHKO,
    SuperFang(u8),
    LevelDamage,
    SetDamage(u16),
    Nightmare,
}

/// The static data of a move.
#[derive(Debug, Clone)]
pub struct MoveData {
    pub move_type: PokemonType,
    pub category: MoveCategory,
    pub power: Option<u8>,
    pub accuracy: Option<u8>,
    pub max_pp: u8,
    pub effects: Vec<MoveEffect>,
}

/// The type, category, power, accuracy and maximum PP of a move.
pub open spec fn spec_move_stats(m: Move) -> (PokemonType, MoveCategory, Option<u8>, Option<u8>, u8) {
    match m {
        Move::Tackle => (PokemonType::Normal, MoveCategory::Physical, Some(35), Some(95), 35),
        Move::Scratch => (PokemonType::Normal, MoveCategory::Physical, Some(40), Some(100), 35),
        Move::QuickAttack => (PokemonType::Normal, MoveCategory::Physical, Some(40), Some(100), 30),
        Move::ViceGrip => (PokemonType::Normal, MoveCategory::Physical, Some(55), Some(100), 30),
        Move::Slash => (PokemonType::Normal, MoveCategory::Physical, Some(70), Some(100), 20),
        Move::DoubleEdge => (PokemonType::Normal, MoveCategory::Physical, Some(100), Some(100), 15),
        Move::SelfDestruct => (PokemonType::Normal, MoveCategory::Physical, Some(130), Some(100), 5),
        Move::PayDay => (PokemonType::Normal, MoveCategory::Physical, Some(40), Some(100), 20),
        Move::Bite => (PokemonType::Normal, MoveCategory::Physical, Some(60), Some(100), 25),
        Move::FuryAttack => (PokemonType::Normal, MoveCategory::Physical, Some(15), Some(85), 20),
        Move::Wrap => (PokemonType::Normal, MoveCategory::Physical, Some(15), Some(85), 20),
        Move::Rage => (PokemonType::Normal, MoveCategory::Physical, Some(20), Some(100), 20),
        Move::Thrash => (PokemonType::Normal, MoveCategory::Physical, Some(90), Some(100), 20),
        Move::HyperBeam => (PokemonType::Normal, MoveCategory::Physical, Some(150), Some(90), 5),
        Move::Struggle => (PokemonType::Typeless, MoveCategory::Physical, Some(50), None, 1),
        Move::HittingItself => (PokemonType::Typeless, MoveCategory::Physical, Some(40), None, 1),
        Move::Fly => (PokemonType::Flying, MoveCategory::Physical, Some(70), Some(95), 15),
        Move::Dig => (PokemonType::Ground, MoveCategory::Physical, Some(100), Some(100), 10),
        Move::HighJumpKick => (PokemonType::Fighting, MoveCategory::Physical, Some(85), Some(90), 20),
        Move::PoisonSting => (PokemonType::Poison, MoveCategory::Physical, Some(15), Some(100), 35),
        Move::Ember => (PokemonType::Fire, MoveCategory::Special, Some(40), Some(100), 25),
        Move::WaterGun => (PokemonType::Water, MoveCategory::Special, Some(40), Some(100), 25),
        Move::VineWhip => (PokemonType::Grass, MoveCategory::Special, Some(35), Some(100), 10),
        Move::ThunderPunch => (PokemonType::Electric, MoveCategory::Special, Some(75), Some(100), 15),
        Move::IceBeam => (PokemonType::Ice, MoveCategory::Special, Some(90), Some(100), 10),
        Move::SolarBeam => (PokemonType::Grass, MoveCategory::Special, Some(120), Some(100), 10),
        Move::Absorb => (PokemonType::Grass, MoveCategory::Special, Some(20), Some(100), 25),
        Move::DreamEater => (PokemonType::Psychic, MoveCategory::Special, Some(100), Some(100), 15),
        Move::Swift => (PokemonType::Normal, MoveCategory::Special, Some(60), None, 20),
        Move::SeismicToss => (PokemonType::Fighting, MoveCategory::Other, None, Some(100), 20),
        Move::SonicBoom => (PokemonType::Normal, MoveCategory::Other, None, Some(90), 20),
        Move::SuperFang => (PokemonType::Normal, MoveCategory::Other, None, Some(90), 10),
        Move::Guillotine => (PokemonType::Normal, MoveCategory::Other, None, Some(30), 5),
        Move::Counter => (PokemonType::Fighting, MoveCategory::Other, None, Some(100), 20),
        Move::Bide => (PokemonType::Normal, MoveCategory::Other, None, None, 10),
        Move::Growl => (PokemonType::Normal, MoveCategory::Status, None, Some(100), 40),
        Move::SwordsDance => (PokemonType::Normal, MoveCategory::Status, None, None, 30),
        Move::ThunderWave => (PokemonType::Electric, MoveCategory::Status, None, Some(100), 20),
        Move::Hypnosis => (PokemonType::Psychic, MoveCategory::Status, None, Some(60), 20),
        Move::Supersonic => (PokemonType::Normal, MoveCategory::Status, None, Some(55), 20),
        Move::LeechSeed => (PokemonType::Grass, MoveCategory::Status, None, Some(90), 10),
        Move::Recover => (PokemonType::Normal, MoveCategory::Status, None, None, 20),
        Move::Rest => (PokemonType::Psychic, MoveCategory::Status, None, None, 10),
        Move::Substitute => (PokemonType::Normal, MoveCategory::Status, None, None, 10),
        Move::Reflect => (PokemonType::Psychic, MoveCategory::Status, None, None, 20),
        Move::LightScreen => (PokemonType::Psychic, MoveCategory::Status, None, None, 30),
        Move::Mist => (PokemonType::Ice, MoveCategory::Status, None, None, 30),
        Move::Haze => (PokemonType::Ice, MoveCategory::Status, None, None, 30),
        Move::Growth => (PokemonType::Normal, MoveCategory::Status, None, None, 40),
        Move::Refresh => (PokemonType::Normal, MoveCategory::Status, None, None, 20),
        Move::Transform => (PokemonType::Normal, MoveCategory::Status, None, None, 10),
        Move::Conversion => (PokemonType::Normal, MoveCategory::Status, None, None, 30),
        Move::Teleport => (PokemonType::Psychic, MoveCategory::Status, None, None, 20),
        Move::MirrorMove => (PokemonType::Flying, MoveCategory::Status, None, None, 20),
        Move::Metronome => (PokemonType::Normal, MoveCategory::Status, None, None, 10),
    }
}

/// The effects of a move, in order.
pub open spec fn spec_move_effects(m: Move) -> Seq<MoveEffect> {
    match m {
        Move::Tackle => seq![],
        Move::Scratch => seq![],
        Move::QuickAttack => seq![MoveEffect::Priority(1i8)],
        Move::ViceGrip => seq![],
        Move::Slash => seq![MoveEffect::Crit(1)],
        Move::DoubleEdge => seq![MoveEffect::Recoil(25)],
        Move::SelfDestruct => seq![MoveEffect::Explode],
        Move::PayDay => seq![MoveEffect::Ante(100)],
        Move::Bite => seq![MoveEffect::Flinch(10)],
        Move::FuryAttack => seq![MoveEffect::MultiHit(2, 50)],
        Move::Wrap => seq![MoveEffect::Trap(100)],
        Move::Rage => seq![MoveEffect::Rage(100)],
        Move::Thrash => seq![MoveEffect::Rampage],
        Move::HyperBeam => seq![MoveEffect::Exhaust(100)],
        Move::Struggle => seq![MoveEffect::Recoil(25)],
        Move::HittingItself => seq![],
        Move::Fly => seq![MoveEffect::InAir],
        Move::Dig => seq![MoveEffect::Underground],
        Move::HighJumpKick => seq![MoveEffect::Reckless(50)],
        Move::PoisonSting => seq![MoveEffect::Poison(20)],
        Move::Ember => seq![MoveEffect::Burn(10)],
        Move::WaterGun => seq![],
        Move::VineWhip => seq![],
        Move::ThunderPunch => seq![MoveEffect::Paralyze(10)],
        Move::IceBeam => seq![MoveEffect::Freeze(10)],
        Move::SolarBeam => seq![MoveEffect::ChargeUp],
        Move::Absorb => seq![MoveEffect::Drain(50)],
        Move::DreamEater => seq![MoveEffect::Nightmare, MoveEffect::Drain(50)],
        Move::Swift => seq![],
        Move::SeismicToss => seq![MoveEffect::LevelDamage],
        Move::SonicBoom => seq![MoveEffect::SetDamage(20)],
        Move::SuperFang => seq![MoveEffect::SuperFang(50)],
        Move::Guillotine => seq![MoveEffect::OHKO],
        Move::Counter => seq![MoveEffect::Counter],
        Move::Bide => seq![MoveEffect::Bide(2)],
        Move::Growl => seq![MoveEffect::StatChange(Target::Target, StatType::Atk, -1i8, 100)],
        Move::SwordsDance => seq![MoveEffect::StatChange(Target::User, StatType::Atk, 2i8, 100)],
        Move::ThunderWave => seq![MoveEffect::Paralyze(100)],
        Move::Hypnosis => seq![MoveEffect::Sedate(100)],
        Move::Supersonic => seq![MoveEffect::Confuse(100)],
        Move::LeechSeed => seq![MoveEffect::Seed(100)],
        Move::Recover => seq![MoveEffect::Heal(50)],
        Move::Rest => seq![MoveEffect::Rest(2)],
        Move::Substitute => seq![MoveEffect::Substitute],
        Move::Reflect => seq![MoveEffect::SetTeamCondition(TeamCondition::Reflect, 5)],
        Move::LightScreen => seq![MoveEffect::SetTeamCondition(TeamCondition::LightScreen, 5)],
        Move::Mist => seq![MoveEffect::SetTeamCondition(TeamCondition::Mist, 5)],
        Move::Haze => seq![MoveEffect::Haze(100)],
        Move::Growth => seq![MoveEffect::RaiseAllStats(100)],
        Move::Refresh => seq![MoveEffect::CureStatus(Target::User, StatusType::Poison)],
        Move::Transform => seq![MoveEffect::Transform],
        Move::Conversion => seq![MoveEffect::Conversion],
        Move::Teleport => seq![MoveEffect::Teleport(0)],
        Move::MirrorMove => seq![MoveEffect::MirrorMove],
        Move::Metronome => seq![MoveEffect::Metronome],
    }
}

/// Whether `d` holds exactly the data of move `m`.
pub open spec fn spec_is_move_data(d: MoveData, m: Move) -> bool {
    &&& (d.move_type, d.category, d.power, d.accuracy, d.max_pp) == spec_move_stats(m)
    &&& d.effects@ == spec_move_effects(m)
}

pub open spec fn spec_move_category(m: Move) -> MoveCategory {
    spec_move_stats(m).1
}

pub open spec fn spec_move_type(m: Move) -> PokemonType {
    spec_move_stats(m).0
}

pub open spec fn spec_move_power(m: Move) -> Option<u8> {
    spec_move_stats(m).2
}

pub open spec fn spec_move_accuracy(m: Move) -> Option<u8> {
    spec_move_stats(m).3
}

pub open spec fn spec_move_max_pp(m: Move) -> u8 {
    spec_move_stats(m).4
}

/// The effects of a move, freshly allocated.
fn move_effects(m: Move) -> (r: Vec<MoveEffect>)
    ensures
        r@ == spec_move_effects(m),
{
    match m {
        Move::Tackle => {
            let v: Vec<MoveEffect> = Vec::new();
            assert(v@ =~= spec_move_effects(m));
            v
        },
        Move::Scratch => {
            let v: Vec<MoveEffect> = Vec::new();
            assert(v@ =~= spec_move_effects(m));
            v
        },
        Move::QuickAttack => {
            let v = vec![MoveEffect::Priority(1i8)];
            assert(v@ =~= spec_move_effects(m));
            v
        },
        Move::ViceGrip => {
            let v: Vec<MoveEffect> = Vec::new();
            assert(v@ =~= spec_move_effects(m));
            v
        },
        Move::Slash => {
            let v = vec![MoveEffect::Crit(1)];
            assert(v@ =~= spec_move_effects(m));
            v
        },
        Move::DoubleEdge => {
            let v = vec![MoveEffect::Recoil(25)];
            assert(v@ =~= spec_move_effects(m));
            v
        },
        Move::SelfDestruct => {
            let v = vec![MoveEffect::Explode];
            assert(v@ =~= spec_move_effects(m));
            v
        },
        Move::PayDay => {
            let v = vec![MoveEffect::Ante(100)];
            assert(v@ =~= spec_move_effects(m));
            v
        },
        Move::Bite => {
            let v = vec![MoveEffect::Flinch(10)];
            assert(v@ =~= spec_move_effects(m));
            v
        },
        Move::FuryAttack => {
            let v = vec![MoveEffect::MultiHit(2, 50)];
            assert(v@ =~= spec_move_effects(m));
            v
        },
        Move::Wrap => {
            let v = vec![MoveEffect::Trap(100)];
            assert(v@ =~= spec_move_effects(m));
            v
        },
        Move::Rage => {
            let v = vec![MoveEffect::Rage(100)];
            assert(v@ =~= spec_move_effects(m));
            v
        },
        Move::Thrash => {
            let v = vec![MoveEffect::Rampage];
            assert(v@ =~= spec_move_effects(m));
            v
        },
        Move::HyperBeam => {
            let v = vec![MoveEffect::Exhaust(100)];
            assert(v@ =~= spec_move_effects(m));
            v
        },
        Move::Struggle => {
            let v = vec![MoveEffect::Recoil(25)];
            assert(v@ =~= spec_move_effects(m));
            v
        },
        Move::HittingItself => {
            let v: Vec<MoveEffect> = Vec::new();
            assert(v@ =~= spec_move_effects(m));
            v
        },
        Move::Fly => {
            let v = vec![MoveEffect::InAir];
            assert(v@ =~= spec_move_effects(m));
            v
        },
        Move::Dig => {
            let v = vec![MoveEffect::Underground];
            assert(v@ =~= spec_move_effects(m));
            v
        },
        Move::HighJumpKick => {
            let v = vec![MoveEffect::Reckless(50)];
            assert(v@ =~= spec_move_effects(m));
            v
        },
        Move::PoisonSting => {
            let v = vec![MoveEffect::Poison(20)];
            assert(v@ =~= spec_move_effects(m));
            v
        },
        Move::Ember => {
            let v = vec![MoveEffect::Burn(10)];
            assert(v@ =~= spec_move_effects(m));
            v
        },
        Move::WaterGun => {
            let v: Vec<MoveEffect> = Vec::new();
            assert(v@ =~= spec_move_effects(m));
            v
        },
        Move::VineWhip => {
            let v: Vec<MoveEffect> = Vec::new();
            assert(v@ =~= spec_move_effects(m));
            v
        },
        Move::ThunderPunch => {
            let v = vec![MoveEffect::Paralyze(10)];
            assert(v@ =~= spec_move_effects(m));
            v
        },
        Move::IceBeam => {
            let v = vec![MoveEffect::Freeze(10)];
            assert(v@ =~= spec_move_effects(m));
            v
        },
        Move::SolarBeam => {
            let v = vec![MoveEffect::ChargeUp];
            assert(v@ =~= spec_move_effects(m));
            v
        },
        Move::Absorb => {
            let v = vec![MoveEffect::Drain(50)];
            assert(v@ =~= spec_move_effects(m));
            v
        },
        Move::DreamEater => {
            let v = vec![MoveEffect::Nightmare, MoveEffect::Drain(50)];
            assert(v@ =~= spec_move_effects(m));
            v
        },
        Move::Swift => {
            let v: Vec<MoveEffect> = Vec::new();
            assert(v@ =~= spec_move_effects(m));
            v
        },
        Move::SeismicToss => {
            let v = vec![MoveEffect::LevelDamage];
            assert(v@ =~= spec_move_effects(m));
            v
        },
        Move::SonicBoom => {
            let v = vec![MoveEffect::SetDamage(20)];
            assert(v@ =~= spec_move_effects(m));
            v
        },
        Move::SuperFang => {
            let v = vec![MoveEffect::SuperFang(50)];
            assert(v@ =~= spec_move_effects(m));
            v
        },
        Move::Guillotine => {
            let v = vec![MoveEffect::OHKO];
            assert(v@ =~= spec_move_effects(m));
            v
        },
        Move::Counter => {
            let v = vec![MoveEffect::Counter];
            assert(v@ =~= spec_move_effects(m));
            v
        },
        Move::Bide => {
            let v = vec![MoveEffect::Bide(2)];
            assert(v@ =~= spec_move_effects(m));
            v
        },
        Move::Growl => {
            let v = vec![MoveEffect::StatChange(Target::Target, StatType::Atk, -1i8, 100)];
            assert(v@ =~= spec_move_effects(m));
            v
        },
        Move::SwordsDance => {
            let v = vec![MoveEffect::StatChange(Target::User, StatType::Atk, 2i8, 100)];
            assert(v@ =~= spec_move_effects(m));
            v
        },
        Move::ThunderWave => {
            let v = vec![MoveEffect::Paralyze(100)];
            assert(v@ =~= spec_move_effects(m));
            v
        },
        Move::Hypnosis => {
            let v = vec![MoveEffect::Sedate(100)];
            assert(v@ =~= spec_move_effects(m));
            v
        },
        Move::Supersonic => {
            let v = vec![MoveEffect::Confuse(100)];
            assert(v@ =~= spec_move_effects(m));
            v
        },
        Move::LeechSeed => {
            let v = vec![MoveEffect::Seed(100)];
            assert(v@ =~= spec_move_effects(m));
            v
        },
        Move::Recover => {
            let v = vec![MoveEffect::Heal(50)];
            assert(v@ =~= spec_move_effects(m));
            v
        },
        Move::Rest => {
            let v = vec![MoveEffect::Rest(2)];
            assert(v@ =~= spec_move_effects(m));
            v
        },
        Move::Substitute => {
            let v = vec![MoveEffect::Substitute];
            assert(v@ =~= spec_move_effects(m));
            v
        },
        Move::Reflect => {
            let v = vec![MoveEffect::SetTeamCondition(TeamCondition::Reflect, 5)];
            assert(v@ =~= spec_move_effects(m));
            v
        },
        Move::LightScreen => {
            let v = vec![MoveEffect::SetTeamCondition(TeamCondition::LightScreen, 5)];
            assert(v@ =~= spec_move_effects(m));
            v
        },
        Move::Mist => {
            let v = vec![MoveEffect::SetTeamCondition(TeamCondition::Mist, 5)];
            assert(v@ =~= spec_move_effects(m));
            v
        },
        Move::Haze => {
            let v = vec![MoveEffect::Haze(100)];
            assert(v@ =~= spec_move_effects(m));
            v
        },
        Move::Growth => {
            let v = vec![MoveEffect::RaiseAllStats(100)];
            assert(v@ =~= spec_move_effects(m));
            v
        },
        Move::Refresh => {
            let v = vec![MoveEffect::CureStatus(Target::User, StatusType::Poison)];
            assert(v@ =~= spec_move_effects(m));
            v
        },
        Move::Transform => {
            let v = vec![MoveEffect::Transform];
            assert(v@ =~= spec_move_effects(m));
            v
        },
        Move::Conversion => {
            let v = vec![MoveEffect::Conversion];
            assert(v@ =~= spec_move_effects(m));
            v
        },
        Move::Teleport => {
            let v = vec![MoveEffect::Teleport(0)];
            assert(v@ =~= spec_move_effects(m));
            v
        },
        Move::MirrorMove => {
            let v = vec![MoveEffect::MirrorMove];
            assert(v@ =~= spec_move_effects(m));
            v
        },
        Move::Metronome => {
            let v = vec![MoveEffect::Metronome];
            assert(v@ =~= spec_move_effects(m));
            v
        },
    }
}

/// The type, category, power, accuracy and maximum PP of a move.
fn move_stats(m: Move) -> (r: (PokemonType, MoveCategory, Option<u8>, Option<u8>, u8))
    ensures
        r == spec_move_stats(m),
{
    match m {
        Move::Tackle => (PokemonType::Normal, MoveCategory::Physical, Some(35), Some(95), 35u8),
        Move::Scratch => (PokemonType::Normal, MoveCategory::Physical, Some(40), Some(100), 35u8),
        Move::QuickAttack => (PokemonType::Normal, MoveCategory::Physical, Some(40), Some(100), 30u8),
        Move::ViceGrip => (PokemonType::Normal, MoveCategory::Physical, Some(55), Some(100), 30u8),
        Move::Slash => (PokemonType::Normal, MoveCategory::Physical, Some(70), Some(100), 20u8),
        Move::DoubleEdge => (PokemonType::Normal, MoveCategory::Physical, Some(100), Some(100), 15u8),
        Move::SelfDestruct => (PokemonType::Normal, MoveCategory::Physical, Some(130), Some(100), 5u8),
        Move::PayDay => (PokemonType::Normal, MoveCategory::Physical, Some(40), Some(100), 20u8),
        Move::Bite => (PokemonType::Normal, MoveCategory::Physical, Some(60), Some(100), 25u8),
        Move::FuryAttack => (PokemonType::Normal, MoveCategory::Physical, Some(15), Some(85), 20u8),
        Move::Wrap => (PokemonType::Normal, MoveCategory::Physical, Some(15), Some(85), 20u8),
        Move::Rage => (PokemonType::Normal, MoveCategory::Physical, Some(20), Some(100), 20u8),
        Move::Thrash => (PokemonType::Normal, MoveCategory::Physical, Some(90), Some(100), 20u8),
        Move::HyperBeam => (PokemonType::Normal, MoveCategory::Physical, Some(150), Some(90), 5u8),
        Move::Struggle => (PokemonType::Typeless, MoveCategory::Physical, Some(50), None, 1u8),
        Move::HittingItself => (PokemonType::Typeless, MoveCategory::Physical, Some(40), None, 1u8),
        Move::Fly => (PokemonType::Flying, MoveCategory::Physical, Some(70), Some(95), 15u8),
        Move::Dig => (PokemonType::Ground, MoveCategory::Physical, Some(100), Some(100), 10u8),
        Move::HighJumpKick => (PokemonType::Fighting, MoveCategory::Physical, Some(85), Some(90), 20u8),
        Move::PoisonSting => (PokemonType::Poison, MoveCategory::Physical, Some(15), Some(100), 35u8),
        Move::Ember => (PokemonType::Fire, MoveCategory::Special, Some(40), Some(100), 25u8),
        Move::WaterGun => (PokemonType::Water, MoveCategory::Special, Some(40), Some(100), 25u8),
        Move::VineWhip => (PokemonType::Grass, MoveCategory::Special, Some(35), Some(100), 10u8),
        Move::ThunderPunch => (PokemonType::Electric, MoveCategory::Special, Some(75), Some(100), 15u8),
        Move::IceBeam => (PokemonType::Ice, MoveCategory::Special, Some(90), Some(100), 10u8),
        Move::SolarBeam => (PokemonType::Grass, MoveCategory::Special, Some(120), Some(100), 10u8),
        Move::Absorb => (PokemonType::Grass, MoveCategory::Special, Some(20), Some(100), 25u8),
        Move::DreamEater => (PokemonType::Psychic, MoveCategory::Special, Some(100), Some(100), 15u8),
        Move::Swift => (PokemonType::Normal, MoveCategory::Special, Some(60), None, 20u8),
        Move::SeismicToss => (PokemonType::Fighting, MoveCategory::Other, None, Some(100), 20u8),
        Move::SonicBoom => (PokemonType::Normal, MoveCategory::Other, None, Some(90), 20u8),
        Move::SuperFang => (PokemonType::Normal, MoveCategory::Other, None, Some(90), 10u8),
        Move::Guillotine => (PokemonType::Normal, MoveCategory::Other, None, Some(30), 5u8),
        Move::Counter => (PokemonType::Fighting, MoveCategory::Other, None, Some(100), 20u8),
        Move::Bide => (PokemonType::Normal, MoveCategory::Other, None, None, 10u8),
        Move::Growl => (PokemonType::Normal, MoveCategory::Status, None, Some(100), 40u8),
        Move::SwordsDance => (PokemonType::Normal, MoveCategory::Status, None, None, 30u8),
        Move::ThunderWave => (PokemonType::Electric, MoveCategory::Status, None, Some(100), 20u8),
        Move::Hypnosis => (PokemonType::Psychic, MoveCategory::Status, None, Some(60), 20u8),
        Move::Supersonic => (PokemonType::Normal, MoveCategory::Status, None, Some(55), 20u8),
        Move::LeechSeed => (PokemonType::Grass, MoveCategory::Status, None, Some(90), 10u8),
        Move::Recover => (PokemonType::Normal, MoveCategory::Status, None, None, 20u8),
        Move::Rest => (PokemonType::Psychic, MoveCategory::Status, None, None, 10u8),
        Move::Substitute => (PokemonType::Normal, MoveCategory::Status, None, None, 10u8),
        Move::Reflect => (PokemonType::Psychic, MoveCategory::Status, None, None, 20u8),
        Move::LightScreen => (PokemonType::Psychic, MoveCategory::Status, None, None, 30u8),
        Move::Mist => (PokemonType::Ice, MoveCategory::Status, None, None, 30u8),
        Move::Haze => (PokemonType::Ice, MoveCategory::Status, None, None, 30u8),
        Move::Growth => (PokemonType::Normal, MoveCategory::Status, None, None, 40u8),
        Move::Refresh => (PokemonType::Normal, MoveCategory::Status, None, None, 20u8),
        Move::Transform => (PokemonType::Normal, MoveCategory::Status, None, None, 10u8),
        Move::Conversion => (PokemonType::Normal, MoveCategory::Status, None, None, 30u8),
        Move::Teleport => (PokemonType::Psychic, MoveCategory::Status, None, None, 20u8),
        Move::MirrorMove => (PokemonType::Flying, MoveCategory::Status, None, None, 20u8),
        Move::Metronome => (PokemonType::Normal, MoveCategory::Status, None, None, 10u8),
    }
}

impl MoveData {
    /// Looks up the data of a move.
    pub fn get_move_data(m: Move) -> (r: MoveData)
        ensures
            spec_is_move_data(r, m),
    {
        let (move_type, category, power, accuracy, max_pp) = move_stats(m);
        let effects = move_effects(m);
        MoveData { move_type, category, power, accuracy, max_pp, effects }
    }
}

} // verus!
