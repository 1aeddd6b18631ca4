//! The sentence each battle event reads as.
use vstd::prelude::*;

use crate::battle::conditions::{spec_condition_type, PokemonCondition, PokemonConditionType};
use crate::battle::state::{ActionFailureReason, BattleEvent, BattleState};
use crate::moves::Move;
use crate::pokemon::StatusCondition;
use crate::schema::{spec_team_condition_name, StatType};
use crate::species::spec_species_name;
use crate::text::{decimal_text, spec_decimal};
use vstd::string::StringExecFns;

verus! {

/// The display name of a move: its words spaced out, with Double-Edge and Self-Destruct hyphenated.
pub open spec fn spec_move_name(v: Move) -> Seq<char> {
    match v {
        Move::Tackle => "Tackle"@,
        Move::Scratch => "Scratch"@,
        Move::QuickAttack => "Quick Attack"@,
        Move::ViceGrip => "Vice Grip"@,
        Move::Slash => "Slash"@,
        Move::DoubleEdge => "Double-Edge"@,
        Move::SelfDestruct => "Self-Destruct"@,
        Move::PayDay => "Pay Day"@,
        Move::Bite => "Bite"@,
        Move::FuryAttack => "Fury Attack"@,
        Move::Wrap => "Wrap"@,
        Move::Rage => "Rage"@,
        Move::Thrash => "Thrash"@,
        Move::HyperBeam => "Hyper Beam"@,
        Move::Struggle => "Struggle"@,
        Move::HittingItself => "Hitting Itself"@,
        Move::Fly => "Fly"@,
        Move::Dig => "Dig"@,
        Move::HighJumpKick => "High Jump Kick"@,
        Move::PoisonSting => "Poison Sting"@,
        Move::Ember => "Ember"@,
        Move::WaterGun => "Water Gun"@,
        Move::VineWhip => "Vine Whip"@,
        Move::ThunderPunch => "Thunder Punch"@,
        Move::IceBeam => "Ice Beam"@,
        Move::SolarBeam => "Solar Beam"@,
        Move::Absorb => "Absorb"@,
        Move::DreamEater => "Dream Eater"@,
        Move::Swift => "Swift"@,
        Move::SeismicToss => "Seismic Toss"@,
        Move::SonicBoom => "Sonic Boom"@,
        Move::SuperFang => "Super Fang"@,
        Move::Guillotine => "Guillotine"@,
        Move::Counter => "Counter"@,
        Move::Bide => "Bide"@,
        Move::Growl => "Growl"@,
        Move::SwordsDance => "Swords Dance"@,
        Move::ThunderWave => "Thunder Wave"@,
        Move::Hypnosis => "Hypnosis"@,
        Move::Supersonic => "Supersonic"@,
        Move::LeechSeed => "Leech Seed"@,
        Move::Recover => "Recover"@,
        Move::Rest => "Rest"@,
        Move::Substitute => "Substitute"@,
        Move::Reflect => "Reflect"@,
        Move::LightScreen => "Light Screen"@,
        Move::Mist => "Mist"@,
        Move::Haze => "Haze"@,
        Move::Growth => "Growth"@,
        Move::Refresh => "Refresh"@,
        Move::Transform => "Transform"@,
        Move::Conversion => "Conversion"@,
        Move::Teleport => "Teleport"@,
        Move::MirrorMove => "Mirror Move"@,
        Move::Metronome => "Metronome"@,
    }
}

pub fn move_name(v: Move) -> (r: &'static str)
    ensures
        r@ == spec_move_name(v),
{
    match v {
        Move::Tackle => "Tackle",
        Move::Scratch => "Scratch",
        Move::QuickAttack => "Quick Attack",
        Move::ViceGrip => "Vice Grip",
        Move::Slash => "Slash",
        Move::DoubleEdge => "Double-Edge",
        Move::SelfDestruct => "Self-Destruct",
        Move::PayDay => "Pay Day",
        Move::Bite => "Bite",
        Move::FuryAttack => "Fury Attack",
        Move::Wrap => "Wrap",
        Move::Rage => "Rage",
        Move::Thrash => "Thrash",
        Move::HyperBeam => "Hyper Beam",
        Move::Struggle => "Struggle",
        Move::HittingItself => "Hitting Itself",
        Move::Fly => "Fly",
        Move::Dig => "Dig",
        Move::HighJumpKick => "High Jump Kick",
        Move::PoisonSting => "Poison Sting",
        Move::Ember => "Ember",
        Move::WaterGun => "Water Gun",
        Move::VineWhip => "Vine Whip",
        Move::ThunderPunch => "Thunder Punch",
        Move::IceBeam => "Ice Beam",
        Move::SolarBeam => "Solar Beam",
        Move::Absorb => "Absorb",
        Move::DreamEater => "Dream Eater",
        Move::Swift => "Swift",
        Move::SeismicToss => "Seismic Toss",
        Move::SonicBoom => "Sonic Boom",
        Move::SuperFang => "Super Fang",
        Move::Guillotine => "Guillotine",
        Move::Counter => "Counter",
        Move::Bide => "Bide",
        Move::Growl => "Growl",
        Move::SwordsDance => "Swords Dance",
        Move::ThunderWave => "Thunder Wave",
        Move::Hypnosis => "Hypnosis",
        Move::Supersonic => "Supersonic",
        Move::LeechSeed => "Leech Seed",
        Move::Recover => "Recover",
        Move::Rest => "Rest",
        Move::Substitute => "Substitute",
        Move::Reflect => "Reflect",
        Move::LightScreen => "Light Screen",
        Move::Mist => "Mist",
        Move::Haze => "Haze",
        Move::Growth => "Growth",
        Move::Refresh => "Refresh",
        Move::Transform => "Transform",
        Move::Conversion => "Conversion",
        Move::Teleport => "Teleport",
        Move::MirrorMove => "Mirror Move",
        Move::Metronome => "Metronome",
    }
}

/// How a condition kind reads inside a sentence.
pub open spec fn spec_condition_word(v: PokemonConditionType) -> Seq<char> {
    match v {
        PokemonConditionType::Confused => "confusion"@,
        PokemonConditionType::Exhausted => "exhaustion"@,
        PokemonConditionType::Trapped => "trapping"@,
        PokemonConditionType::Flinched => "flinching"@,
        PokemonConditionType::Rampaging => "rampage"@,
        PokemonConditionType::Disabled => "disable"@,
        PokemonConditionType::Biding => "bide"@,
        PokemonConditionType::Teleported => "teleportation"@,
        PokemonConditionType::Countering => "counter stance"@,
        PokemonConditionType::Charging => "charging"@,
        PokemonConditionType::Underground => "underground"@,
        PokemonConditionType::InAir => "in air"@,
        PokemonConditionType::Substitute => "substitute"@,
        PokemonConditionType::Seeded => "leech seed"@,
        PokemonConditionType::Converted => "type conversion"@,
        PokemonConditionType::Transformed => "transformation"@,
        PokemonConditionType::Enraged => "rage"@,
    }
}

pub fn condition_word(v: PokemonConditionType) -> (r: &'static str)
    ensures
        r@ == spec_condition_word(v),
{
    match v {
        PokemonConditionType::Confused => "confusion",
        PokemonConditionType::Exhausted => "exhaustion",
        PokemonConditionType::Trapped => "trapping",
        PokemonConditionType::Flinched => "flinching",
        PokemonConditionType::Rampaging => "rampage",
        PokemonConditionType::Disabled => "disable",
        PokemonConditionType::Biding => "bide",
        PokemonConditionType::Teleported => "teleportation",
        PokemonConditionType::Countering => "counter stance",
        PokemonConditionType::Charging => "charging",
        PokemonConditionType::Underground => "underground",
        PokemonConditionType::InAir => "in air",
        PokemonConditionType::Substitute => "substitute",
        PokemonConditionType::Seeded => "leech seed",
        PokemonConditionType::Converted => "type conversion",
        PokemonConditionType::Transformed => "transformation",
        PokemonConditionType::Enraged => "rage",
    }
}

/// How a stat reads inside a sentence.
pub open spec fn spec_stat_word(v: StatType) -> Seq<char> {
    match v {
        StatType::Atk => "Attack"@,
        StatType::Def => "Defense"@,
        StatType::Spe => "Speed"@,
        StatType::SpAtk => "Special Attack"@,
        StatType::SpDef => "Special Defense"@,
        StatType::Acc => "accuracy"@,
        StatType::Eva => "evasiveness"@,
        StatType::Crit => "critical hit ratio"@,
    }
}

pub fn stat_word(v: StatType) -> (r: &'static str)
    ensures
        r@ == spec_stat_word(v),
{
    match v {
        StatType::Atk => "Attack",
        StatType::Def => "Defense",
        StatType::Spe => "Speed",
        StatType::SpAtk => "Special Attack",
        StatType::SpDef => "Special Defense",
        StatType::Acc => "accuracy",
        StatType::Eva => "evasiveness",
        StatType::Crit => "critical hit ratio",
    }
}

/// How a major status reads inside a sentence.
pub open spec fn spec_status_word(s: StatusCondition) -> Seq<char> {
    match s {
        StatusCondition::Sleep(_) => "sleep"@,
        StatusCondition::Poison(_) => "poison"@,
        StatusCondition::Burn => "burn"@,
        StatusCondition::Freeze => "freeze"@,
        StatusCondition::Paralysis => "paralysis"@,
        StatusCondition::Faint => "faint"@,
    }
}

fn status_word(s: StatusCondition) -> (r: &'static str)
    ensures
        r@ == spec_status_word(s),
{
    match s {
        StatusCondition::Sleep(_) => "sleep",
        StatusCondition::Poison(_) => "poison",
        StatusCondition::Burn => "burn",
        StatusCondition::Freeze => "freeze",
        StatusCondition::Paralysis => "paralysis",
        StatusCondition::Faint => "faint",
    }
}

/// What a Pokemon does when it gets a major status.
pub open spec fn spec_status_applied(s: StatusCondition) -> Seq<char> {
    match s {
        StatusCondition::Sleep(_) => "fell asleep!"@,
        StatusCondition::Poison(_) => "was poisoned!"@,
        StatusCondition::Burn => "was burned!"@,
        StatusCondition::Freeze => "was frozen solid!"@,
        StatusCondition::Paralysis => "is paralyzed! It may be unable to move!"@,
        StatusCondition::Faint => "fainted!"@,
    }
}

pub fn status_applied(s: StatusCondition) -> (r: &'static str)
    ensures
        r@ == spec_status_applied(s),
{
    match s {
        StatusCondition::Sleep(_) => "fell asleep!",
        StatusCondition::Poison(_) => "was poisoned!",
        StatusCondition::Burn => "was burned!",
        StatusCondition::Freeze => "was frozen solid!",
        StatusCondition::Paralysis => "is paralyzed! It may be unable to move!",
        StatusCondition::Faint => "fainted!",
    }
}

/// What a Pokemon does when a major status ends: waking up from sleep, else being cured.
pub open spec fn spec_status_removed(s: StatusCondition) -> Seq<char> {
    match s {
        StatusCondition::Sleep(_) => "woke up!"@,
        _ => "was cured of its "@ + spec_status_word(s) + "!"@,
    }
}

pub fn status_removed(s: StatusCondition) -> (r: String)
    ensures
        r@ == spec_status_removed(s),
{
    match s {
        StatusCondition::Sleep(_) => "woke up!".to_owned(),
        _ => {
            let mut m = "was cured of its ".to_owned();
            m.append(status_word(s));
            m.append("!");
            m
        },
    }
}

/// Why an action failed, as it reads after the Pokemon's name.
pub open spec fn spec_failure_text(reason: ActionFailureReason) -> Seq<char> {
    match reason {
        ActionFailureReason::IsAsleep { .. } => "is fast asleep."@,
        ActionFailureReason::IsFrozen { .. } => "is frozen solid!"@,
        ActionFailureReason::IsExhausted { .. } => "must recharge!"@,
        ActionFailureReason::IsParalyzed { .. } => "is fully paralyzed!"@,
        ActionFailureReason::IsFlinching { .. } => "flinched and couldn't move!"@,
        ActionFailureReason::IsConfused { .. } => "is confused!"@,
        ActionFailureReason::IsTrapped { .. } => "can't escape!"@,
        _ => "But it failed!"@,
    }
}

fn failure_text(reason: ActionFailureReason) -> (r: &'static str)
    ensures
        r@ == spec_failure_text(reason),
{
    match reason {
        ActionFailureReason::IsAsleep { .. } => "is fast asleep.",
        ActionFailureReason::IsFrozen { .. } => "is frozen solid!",
        ActionFailureReason::IsExhausted { .. } => "must recharge!",
        ActionFailureReason::IsParalyzed { .. } => "is fully paralyzed!",
        ActionFailureReason::IsFlinching { .. } => "flinched and couldn't move!",
        ActionFailureReason::IsConfused { .. } => "is confused!",
        ActionFailureReason::IsTrapped { .. } => "can't escape!",
        _ => "But it failed!",
    }
}

/// Every player an event names is one of the two players.
pub open spec fn spec_event_players_valid(event: BattleEvent) -> bool {
    match event {
        BattleEvent::PokemonSwitched { player_index, .. } => player_index < 2,
        BattleEvent::MoveUsed { player_index, .. } => player_index < 2,
        BattleEvent::TeamConditionApplied { player_index, .. } => player_index < 2,
        BattleEvent::TeamConditionExpired { player_index, .. } => player_index < 2,
        BattleEvent::PlayerDefeated { player_index } => player_index < 2,
        BattleEvent::BattleEnded { winner: Some(i) } => i < 2,
        _ => true,
    }
}

/// Whether an event is silent: the end of a turn, a hit, and neutral effectiveness.
pub open spec fn spec_event_silent(event: BattleEvent) -> bool {
    match event {
        BattleEvent::TurnEnded => true,
        BattleEvent::MoveHit { .. } => true,
        BattleEvent::AttackTypeEffectiveness { multiplier_percent } => multiplier_percent == 100,
        _ => false,
    }
}

/// The name of player `i`.
pub open spec fn spec_player_name(state: BattleState, i: usize) -> Seq<char> {
    state.players[i as int].player_name@
}

/// The sentence a non-silent event reads as in the battle.
pub open spec fn spec_event_text(event: BattleEvent, state: BattleState) -> Seq<char> {
    match event {
        BattleEvent::TurnStarted { turn_number } => "=== Turn "@ + spec_decimal(turn_number as nat) + " ==="@,
        BattleEvent::PokemonSwitched { player_index, old_pokemon, new_pokemon } => spec_player_name(state, player_index)
            + " recalled "@ + spec_species_name(old_pokemon) + " and sent out "@ + spec_species_name(new_pokemon)
            + "!"@,
        BattleEvent::MoveUsed { player_index, pokemon, move_used } => spec_player_name(state, player_index) + "'s "@
            + spec_species_name(pokemon) + " used "@ + spec_move_name(move_used) + "!"@,
        BattleEvent::MoveMissed { attacker, .. } => spec_species_name(attacker) + "'s attack missed!"@,
        BattleEvent::CriticalHit { .. } => "A critical hit!"@,
        BattleEvent::DamageDealt { target, damage, .. } => spec_species_name(target) + " took "@ + spec_decimal(
            damage as nat,
        ) + " damage!"@,
        BattleEvent::PokemonHealed { target, amount, .. } => spec_species_name(target) + " recovered "@ + spec_decimal(
            amount as nat,
        ) + " HP!"@,
        BattleEvent::PokemonFainted { pokemon, .. } => spec_species_name(pokemon) + " fainted!"@,
        BattleEvent::AttackTypeEffectiveness { multiplier_percent } => if multiplier_percent == 0 {
            "It had no effect!"@
        } else if multiplier_percent > 100 {
            "It's super effective!"@
        } else {
            "It's not very effective..."@
        },
        BattleEvent::SubstituteDamaged { target, .. } => "The substitute took damage for "@ + spec_species_name(target)
            + "!"@,
        BattleEvent::StatusApplied { target, status } => spec_species_name(target) + " was affected by "@
            + spec_condition_word(spec_condition_type(status)) + "!"@,
        BattleEvent::StatusRemoved { target, status } => spec_species_name(target) + " is no longer affected by "@
            + spec_condition_word(spec_condition_type(status)) + "!"@,
        BattleEvent::StatusDamage { target, status, damage } => spec_species_name(target) + " is hurt by "@
            + spec_condition_word(spec_condition_type(status)) + "! ("@ + spec_decimal(damage as nat) + " damage)"@,
        BattleEvent::ConditionExpired { target, condition } => spec_species_name(target) + "'s "@ + spec_condition_word(
            spec_condition_type(condition),
        ) + " wore off."@,
        BattleEvent::PokemonStatusApplied { target, status } => spec_species_name(target) + " "@ + spec_status_applied(
            status,
        ),
        BattleEvent::PokemonStatusRemoved { target, status } => spec_species_name(target) + " "@ + spec_status_removed(
            status,
        ),
        BattleEvent::PokemonStatusDamage { target, status, damage, .. } => spec_species_name(target)
            + " is hurt by its "@ + spec_status_word(status) + "! ("@ + spec_decimal(damage as nat) + " damage)"@,
        BattleEvent::TeamConditionApplied { player_index, condition } => spec_player_name(state, player_index) + "'s "@
            + spec_team_condition_name(condition) + " is now in effect!"@,
        BattleEvent::TeamConditionExpired { player_index, condition } => spec_player_name(state, player_index) + "'s "@
            + spec_team_condition_name(condition) + " wore off."@,
        BattleEvent::StatStageChanged { target, stat, new_stage, .. } => if new_stage > 6 || new_stage < -6 {
            "All stat changes were eliminated!"@
        } else if new_stage > 0 {
            spec_species_name(target) + "'s "@ + spec_stat_word(stat) + " rose!"@
        } else {
            spec_species_name(target) + "'s "@ + spec_stat_word(stat) + " fell!"@
        },
        BattleEvent::StatChangeBlocked { target, .. } => spec_species_name(target) + "'s stats won't go any higher!"@,
        BattleEvent::ActionFailed { reason } => spec_failure_text(reason),
        BattleEvent::AnteIncreased { amount, .. } => "Gained $"@ + spec_decimal(amount as nat) + " from Pay Day!"@,
        BattleEvent::PlayerDefeated { player_index } => spec_player_name(state, player_index)
            + " is out of usable Pok\u{e9}mon!"@,
        BattleEvent::BattleEnded { winner } => match winner {
            Some(i) => spec_player_name(state, i) + " has won the battle!"@,
            None => "The battle ended in a draw!"@,
        },
        _ => Seq::empty(),
    }
}

/// The sentence an event reads as in the battle, or `None` when the event is silent (see
/// `spec_event_silent` and `spec_event_text`).
pub fn format_event(event: &BattleEvent, battle_state: &BattleState) -> (r: Option<String>)
    requires
        spec_event_players_valid(*event),
    ensures
        r is None <==> spec_event_silent(*event),
        r matches Some(t) ==> t@ == spec_event_text(*event, *battle_state),
{
    match *event {
        BattleEvent::TurnStarted { turn_number } => {
            let mut m = "=== Turn ".to_owned();
            let n = decimal_text(turn_number as u64);
            m.append(n.as_str());
            m.append(" ===");
            Some(m)
        },
        BattleEvent::TurnEnded => None,
        BattleEvent::PokemonSwitched { player_index, old_pokemon, new_pokemon } => {
            let mut m = battle_state.players[player_index].player_name.clone();
            m.append(" recalled ");
            m.append(old_pokemon.name());
            m.append(" and sent out ");
            m.append(new_pokemon.name());
            m.append("!");
            Some(m)
        },
        BattleEvent::MoveUsed { player_index, pokemon, move_used } => {
            let mut m = battle_state.players[player_index].player_name.clone();
            m.append("'s ");
            m.append(pokemon.name());
            m.append(" used ");
            m.append(move_name(move_used));
            m.append("!");
            Some(m)
        },
        BattleEvent::MoveMissed { attacker, .. } => {
            let mut m = attacker.name().to_owned();
            m.append("'s attack missed!");
            Some(m)
        },
        BattleEvent::MoveHit { .. } => None,
        BattleEvent::CriticalHit { .. } => Some("A critical hit!".to_owned()),
        BattleEvent::DamageDealt { target, damage, .. } => {
            let mut m = target.name().to_owned();
            m.append(" took ");
            let n = decimal_text(damage as u64);
            m.append(n.as_str());
            m.append(" damage!");
            Some(m)
        },
        BattleEvent::PokemonHealed { target, amount, .. } => {
            let mut m = target.name().to_owned();
            m.append(" recovered ");
            let n = decimal_text(amount as u64);
            m.append(n.as_str());
            m.append(" HP!");
            Some(m)
        },
        BattleEvent::PokemonFainted { pokemon, .. } => {
            let mut m = pokemon.name().to_owned();
            m.append(" fainted!");
            Some(m)
        },
        BattleEvent::AttackTypeEffectiveness { multiplier_percent } => {
            if multiplier_percent == 0 {
                Some("It had no effect!".to_owned())
            } else if multiplier_percent > 100 {
                Some("It's super effective!".to_owned())
            } else if multiplier_percent < 100 {
                Some("It's not very effective...".to_owned())
            } else {
                None
            }
        },
        BattleEvent::SubstituteDamaged { target, .. } => {
            let mut m = "The substitute took damage for ".to_owned();
            m.append(target.name());
            m.append("!");
            Some(m)
        },
        BattleEvent::StatusApplied { target, status } => {
            let mut m = target.name().to_owned();
            m.append(" was affected by ");
            m.append(condition_word(status.get_type()));
            m.append("!");
            Some(m)
        },
        BattleEvent::StatusRemoved { target, status } => {
            let mut m = target.name().to_owned();
            m.append(" is no longer affected by ");
            m.append(condition_word(status.get_type()));
            m.append("!");
            Some(m)
        },
        BattleEvent::StatusDamage { target, status, damage } => {
            let mut m = target.name().to_owned();
            m.append(" is hurt by ");
            m.append(condition_word(status.get_type()));
            m.append("! (");
            let n = decimal_text(damage as u64);
            m.append(n.as_str());
            m.append(" damage)");
            Some(m)
        },
        BattleEvent::ConditionExpired { target, condition } => {
            let mut m = target.name().to_owned();
            m.append("'s ");
            m.append(condition_word(condition.get_type()));
            m.append(" wore off.");
            Some(m)
        },
        BattleEvent::PokemonStatusApplied { target, status } => {
            let mut m = target.name().to_owned();
            m.append(" ");
            m.append(status_applied(status));
            Some(m)
        },
        BattleEvent::PokemonStatusRemoved { target, status } => {
            let mut m = target.name().to_owned();
            m.append(" ");
            let removed = status_removed(status);
            m.append(removed.as_str());
            Some(m)
        },
        BattleEvent::PokemonStatusDamage { target, status, damage, .. } => {
            let mut m = target.name().to_owned();
            m.append(" is hurt by its ");
            m.append(status_word(status));
            m.append("! (");
            let n = decimal_text(damage as u64);
            m.append(n.as_str());
            m.append(" damage)");
            Some(m)
        },
        BattleEvent::TeamConditionApplied { player_index, condition } => {
            let mut m = battle_state.players[player_index].player_name.clone();
            m.append("'s ");
            m.append(condition.display_name());
            m.append(" is now in effect!");
            Some(m)
        },
        BattleEvent::TeamConditionExpired { player_index, condition } => {
            let mut m = battle_state.players[player_index].player_name.clone();
            m.append("'s ");
            m.append(condition.display_name());
            m.append(" wore off.");
            Some(m)
        },
        BattleEvent::StatStageChanged { target, stat, new_stage, .. } => {
            if new_stage > 6 || new_stage < -6 {
                Some("All stat changes were eliminated!".to_owned())
            } else {
                let mut m = target.name().to_owned();
                m.append("'s ");
                m.append(stat_word(stat));
                if new_stage > 0 {
                    m.append(" rose!");
                } else {
                    m.append(" fell!");
                }
                Some(m)
            }
        },
        BattleEvent::StatChangeBlocked { target, .. } => {
            let mut m = target.name().to_owned();
            m.append("'s stats won't go any higher!");
            Some(m)
        },
        BattleEvent::ActionFailed { reason } => Some(failure_text(reason).to_owned()),
        BattleEvent::AnteIncreased { amount, .. } => {
            let mut m = "Gained $".to_owned();
            let n = decimal_text(amount as u64);
            m.append(n.as_str());
            m.append(" from Pay Day!");
            Some(m)
        },
        BattleEvent::PlayerDefeated { player_index } => {
            let mut m = battle_state.players[player_index].player_name.clone();
            m.append(" is out of usable Pok\u{e9}mon!");
            Some(m)
        },
        BattleEvent::BattleEnded { winner } => match winner {
            Some(i) => {
                let mut m = battle_state.players[i].player_name.clone();
                m.append(" has won the battle!");
                Some(m)
            },
            None => Some("The battle ended in a draw!".to_owned()),
        },
    }
}

} // verus!
