//! Whether a catch attempt may be made, and the steps of an attempt.
use vstd::prelude::*;

use crate::battle::state::{BattleState, BattleType, TurnRng};
use crate::player::spec_active;
use crate::species::Species;

verus! {

/// Why a catch attempt cannot be made.
#[derive(Debug, Clone, Copy, PartialEq, Eq, Structural)]
pub enum CatchError {
    /// Catching is not allowed in this kind of battle.
    InvalidBattleType { battle_type: BattleType },
    /// The opponent has no active Pokemon.
    NoTargetPokemon,
    /// The player's team already has six Pokemon.
    TeamFull,
    /// The target has fainted.
    TargetFainted { pokemon: Species },
}

/// Catching is allowed in wild and Safari battles only.
pub open spec fn spec_catch_allowed(battle_type: BattleType) -> bool {
    battle_type == BattleType::Wild || battle_type == BattleType::Safari
}

/// Whether catching is allowed in a battle of this kind (see `spec_catch_allowed`).
pub fn is_catch_allowed(battle_type: BattleType) -> (r: bool)
    ensures
        r == spec_catch_allowed(battle_type),
{
    match battle_type {
        BattleType::Wild | BattleType::Safari => true,
        _ => false,
    }
}

/// How many of the first `n` team slots hold a Pokemon.
pub open spec fn spec_team_count(team: [Option<crate::pokemon::PokemonInst>; 6], n: int) -> nat
    decreases n,
{
    if n <= 0 {
        0
    } else {
        spec_team_count(team, n - 1) + if team[n - 1] is Some {
            1nat
        } else {
            0nat
        }
    }
}

/// The outcome of validating a catch by player `player_index`: the battle kind must allow
/// catching, the player's team must have room, and the opponent's active Pokemon must be
/// present and not fainted; its species is the target.
pub open spec fn spec_can_attempt_catch(state: BattleState, player_index: usize) -> Result<Species, CatchError> {
    if !spec_catch_allowed(state.battle_type) {
        Err(CatchError::InvalidBattleType { battle_type: state.battle_type })
    } else if spec_team_count(state.players[player_index as int].team, 6) >= 6 {
        Err(CatchError::TeamFull)
    } else {
        match spec_active(state.players[1 - player_index]) {
            Some(t) => if t.curr_hp == 0 {
                Err(CatchError::TargetFainted { pokemon: t.species })
            } else {
                Ok(t.species)
            },
            None => Err(CatchError::NoTargetPokemon),
        }
    }
}

/// Validates a catch attempt and gives the target species (see `spec_can_attempt_catch`).
pub fn can_attempt_catch(battle_state: &BattleState, player_index: usize) -> (r: Result<Species, CatchError>)
    requires
        battle_state.wf(),
        player_index < 2,
    ensures
        r == spec_can_attempt_catch(*battle_state, player_index),
{
    if !is_catch_allowed(battle_state.battle_type) {
        return Err(CatchError::InvalidBattleType { battle_type: battle_state.battle_type });
    }
    let player = &battle_state.players[player_index];
    let mut team_count: usize = 0;
    let mut i: usize = 0;
    while i < 6
        invariant
            0 <= i <= 6,
            team_count == spec_team_count(player.team, i as int),
            team_count <= i,
        decreases 6 - i,
    {
        if player.team[i].is_some() {
            team_count = team_count + 1;
        }
        i = i + 1;
    }
    if team_count >= 6 {
        return Err(CatchError::TeamFull);
    }
    let opponent_index = 1 - player_index;
    let opponent = &battle_state.players[opponent_index];
    match opponent.active_pokemon() {
        Some(target_pokemon) => {
            if target_pokemon.is_fainted() {
                Err(CatchError::TargetFainted { pokemon: target_pokemon.species })
            } else {
                Ok(target_pokemon.species)
            }
        },
        None => Err(CatchError::NoTargetPokemon),
    }
}

/// A catch can be attempted only where catching is allowed, only with room on the team, and
/// only at an opponent that is there and has not fainted; the species it names is that
/// opponent's.
pub proof fn lemma_catch_needs_allowed_battle_and_live_target(state: BattleState, player_index: usize)
    requires
        player_index < 2,
    ensures
        spec_can_attempt_catch(state, player_index) is Ok ==> {
            &&& spec_catch_allowed(state.battle_type)
            &&& spec_team_count(state.players[player_index as int].team, 6) < 6
            &&& spec_active(state.players[1 - player_index]) matches Some(t)
            &&& t.curr_hp > 0
            &&& spec_can_attempt_catch(state, player_index) == Ok::<Species, CatchError>(t.species)
        },
        !spec_catch_allowed(state.battle_type) ==> spec_can_attempt_catch(state, player_index) == Err::<
            Species,
            CatchError,
        >(CatchError::InvalidBattleType { battle_type: state.battle_type }),
{
}

/// Why a catch attempt failed. A failed roll carries the catch threshold it was held against.
#[derive(Debug, Clone, Copy, PartialEq, Eq, Structural)]
pub enum CatchFailureReason {
    /// Catching is not allowed in this kind of battle.
    InvalidBattleType { battle_type: BattleType },
    /// There is no Pokemon to catch, or not the one named.
    NoTargetPokemon,
    /// The player's team already has six Pokemon.
    TeamFull,
    /// The target has fainted.
    TargetFainted { pokemon: Species },
    /// The roll was not below the catch threshold.
    RollFailed { catch_threshold: u16 },
}

/// One step of a catch attempt, in the order they happen.
#[derive(Debug, Clone, Copy, PartialEq, Eq, Structural)]
pub enum CatchCommand {
    /// The player throws a ball at `pokemon`; a roll below `catch_threshold` catches it.
    CatchAttempted { player_index: usize, pokemon: Species, catch_threshold: u16 },
    /// The attempt failed, for `reason`.
    CatchFailed { player_index: usize, pokemon: Species, reason: CatchFailureReason },
    /// The player catches `target_pokemon`.
    AttemptCatch { player_index: usize, target_pokemon: Species },
}

/// The failure reason that reports a validation error.
pub open spec fn spec_failure_reason(e: CatchError) -> CatchFailureReason {
    match e {
        CatchError::InvalidBattleType { battle_type } => CatchFailureReason::InvalidBattleType { battle_type },
        CatchError::NoTargetPokemon => CatchFailureReason::NoTargetPokemon,
        CatchError::TeamFull => CatchFailureReason::TeamFull,
        CatchError::TargetFainted { pokemon } => CatchFailureReason::TargetFainted { pokemon },
    }
}

/// The failure reason that reports a validation error (see `spec_failure_reason`).
pub fn failure_reason(e: CatchError) -> (r: CatchFailureReason)
    ensures
        r == spec_failure_reason(e),
{
    match e {
        CatchError::InvalidBattleType { battle_type } => CatchFailureReason::InvalidBattleType { battle_type },
        CatchError::NoTargetPokemon => CatchFailureReason::NoTargetPokemon,
        CatchError::TeamFull => CatchFailureReason::TeamFull,
        CatchError::TargetFainted { pokemon } => CatchFailureReason::TargetFainted { pokemon },
    }
}

/// Whether an attempt by player `player_index` at `target` reaches the catch roll: the
/// attempt is valid and names the opponent's active Pokemon.
pub open spec fn spec_catch_rolls(state: BattleState, player_index: usize, target: Species) -> bool {
    spec_can_attempt_catch(state, player_index) == Ok::<Species, CatchError>(target)
}

/// The steps of a catch attempt by player `player_index` at `target`, whose catch threshold
/// is `catch_threshold`, and the rolls used: an invalid attempt fails with the reason it is
/// invalid, an attempt at another species than the opponent's fails for want of a target;
/// otherwise the attempt is announced and one roll below the threshold catches the target,
/// any other roll fails.
pub open spec fn spec_catch_commands(
    state: BattleState,
    player_index: usize,
    target: Species,
    catch_threshold: u16,
    rolls: Seq<u8>,
) -> (Seq<CatchCommand>, nat) {
    match spec_can_attempt_catch(state, player_index) {
        Err(e) => (
            seq![CatchCommand::CatchFailed { player_index, pokemon: target, reason: spec_failure_reason(e) }],
            0,
        ),
        Ok(species) => if species != target {
            (
                seq![
                    CatchCommand::CatchFailed {
                        player_index,
                        pokemon: target,
                        reason: CatchFailureReason::NoTargetPokemon,
                    },
                ],
                0,
            )
        } else {
            let attempted = CatchCommand::CatchAttempted { player_index, pokemon: target, catch_threshold };
            if (rolls[0] as int) < catch_threshold {
                (seq![attempted, CatchCommand::AttemptCatch { player_index, target_pokemon: target }], 1)
            } else {
                (
                    seq![
                        attempted,
                        CatchCommand::CatchFailed {
                            player_index,
                            pokemon: target,
                            reason: CatchFailureReason::RollFailed { catch_threshold },
                        },
                    ],
                    1,
                )
            }
        },
    }
}

/// Rolls for a catch: the next roll succeeds when it is below `catch_threshold`.
pub fn roll_catch_success(catch_threshold: u16, rng: &mut TurnRng) -> (r: bool)
    requires
        old(rng).remaining().len() > 0,
    ensures
        r == ((old(rng).remaining()[0] as int) < catch_threshold),
        final(rng).remaining() == old(rng).remaining().drop_first(),
{
    let roll = rng.next_outcome("catch roll");
    (roll as u16) < catch_threshold
}

/// The steps of a catch attempt (see `spec_catch_commands`).
pub fn calculate_catch_commands(
    player_index: usize,
    target_species: Species,
    battle_state: &BattleState,
    catch_threshold: u16,
    rng: &mut TurnRng,
) -> (r: Vec<CatchCommand>)
    requires
        battle_state.wf(),
        player_index < 2,
        spec_catch_rolls(*battle_state, player_index, target_species) ==> old(rng).remaining().len() > 0,
    ensures
        ({
            let (cmds, used) = spec_catch_commands(
                *battle_state,
                player_index,
                target_species,
                catch_threshold,
                old(rng).remaining(),
            );
            &&& r@ == cmds
            &&& final(rng).remaining() == old(rng).remaining().skip(used as int)
        }),
{
    let ghost rolls = old(rng).remaining();
    proof {
        assert(rolls.skip(0) =~= rolls);
        assert(rolls.skip(1) =~= rolls.drop_first());
    }
    match can_attempt_catch(battle_state, player_index) {
        Ok(validated_species) => {
            if validated_species != target_species {
                let r = vec![
                    CatchCommand::CatchFailed {
                        player_index,
                        pokemon: target_species,
                        reason: CatchFailureReason::NoTargetPokemon,
                    },
                ];
                return r;
            }
            let attempted = CatchCommand::CatchAttempted { player_index, pokemon: target_species, catch_threshold };
            if roll_catch_success(catch_threshold, rng) {
                vec![attempted, CatchCommand::AttemptCatch { player_index, target_pokemon: target_species }]
            } else {
                vec![
                    attempted,
                    CatchCommand::CatchFailed {
                        player_index,
                        pokemon: target_species,
                        reason: CatchFailureReason::RollFailed { catch_threshold },
                    },
                ]
            }
        },
        Err(error) => {
            let reason = failure_reason(error);
            vec![CatchCommand::CatchFailed { player_index, pokemon: target_species, reason }]
        },
    }
}

} // verus!
