//! Whether a Pokemon may gain experience, level up, learn a move or evolve during a battle.
use vstd::prelude::*;

use crate::battle::commands::{spec_target_index, BattleCommand, ExecutionError, PlayerTarget};
use crate::battle::state::BattleState;
use crate::moves::{spec_move_max_pp, Move};
use crate::pokemon::{MoveInstance, PokemonInst};
use crate::schema::MAX_LEVEL;
use crate::species::Species;

verus! {

/// Why a progression step cannot happen.
#[derive(Debug, Clone, Copy, PartialEq, Eq, Structural)]
pub enum ProgressionError {
    NoPokemon { player_index: usize, pokemon_index: usize },
    PokemonFainted { player_index: usize, pokemon: Species },
    MaxLevel { pokemon: Species, level: u8 },
    InvalidIndices { player_index: usize, pokemon_index: usize },
}

/// Whether team slot `pokemon_index` of the target's player holds a Pokemon that may gain
/// experience: the slot must exist and be filled, and the Pokemon must not have fainted nor
/// be at level 100 or above.
pub open spec fn spec_can_award_experience(target: PlayerTarget, pokemon_index: usize, state: BattleState) -> Result<(), ProgressionError> {
    let player_index = spec_target_index(target) as usize;
    if pokemon_index >= 6 {
        Err(ProgressionError::InvalidIndices { player_index, pokemon_index })
    } else {
        match state.players[player_index as int].team[pokemon_index as int] {
            Some(p) => if p.curr_hp == 0 {
                Err(ProgressionError::PokemonFainted { player_index, pokemon: p.species })
            } else if p.level >= 100 {
                Err(ProgressionError::MaxLevel { pokemon: p.species, level: p.level })
            } else {
                Ok(())
            },
            None => Err(ProgressionError::NoPokemon { player_index, pokemon_index }),
        }
    }
}

/// Whether a Pokemon may gain experience in battle (see `spec_can_award_experience`).
pub fn can_award_experience_in_battle(target: PlayerTarget, pokemon_index: usize, state: &BattleState) -> (r: Result<
    (),
    ProgressionError,
>)
    ensures
        r == spec_can_award_experience(target, pokemon_index, *state),
{
    let player_index = target.to_index();
    if player_index >= 2 || pokemon_index >= 6 {
        return Err(ProgressionError::InvalidIndices { player_index, pokemon_index });
    }
    match &state.players[player_index].team[pokemon_index] {
        Some(pokemon) => {
            if pokemon.current_hp() == 0 {
                Err(ProgressionError::PokemonFainted { player_index, pokemon: pokemon.species })
            } else if pokemon.level >= MAX_LEVEL {
                Err(ProgressionError::MaxLevel { pokemon: pokemon.species, level: pokemon.level })
            } else {
                Ok(())
            }
        },
        None => Err(ProgressionError::NoPokemon { player_index, pokemon_index }),
    }
}

/// Whether a Pokemon may level up in battle: the same conditions as gaining experience.
pub fn can_level_up_in_battle(target: PlayerTarget, pokemon_index: usize, state: &BattleState) -> (r: Result<
    (),
    ProgressionError,
>)
    ensures
        r == spec_can_award_experience(target, pokemon_index, *state),
{
    can_award_experience_in_battle(target, pokemon_index, state)
}

/// Whether team slot `pokemon_index` of the target's player holds a Pokemon that may learn a
/// move: the slot must exist and be filled.
pub open spec fn spec_can_learn_move(target: PlayerTarget, pokemon_index: usize, state: BattleState) -> Result<(), ProgressionError> {
    let player_index = spec_target_index(target) as usize;
    if pokemon_index >= 6 {
        Err(ProgressionError::InvalidIndices { player_index, pokemon_index })
    } else if state.players[player_index as int].team[pokemon_index as int] is Some {
        Ok(())
    } else {
        Err(ProgressionError::NoPokemon { player_index, pokemon_index })
    }
}

/// Whether a Pokemon may learn a move in battle (see `spec_can_learn_move`).
pub fn can_learn_move_in_battle(target: PlayerTarget, pokemon_index: usize, state: &BattleState) -> (r: Result<
    (),
    ProgressionError,
>)
    ensures
        r == spec_can_learn_move(target, pokemon_index, *state),
{
    let player_index = target.to_index();
    if player_index >= 2 || pokemon_index >= 6 {
        return Err(ProgressionError::InvalidIndices { player_index, pokemon_index });
    }
    match &state.players[player_index].team[pokemon_index] {
        Some(_pokemon) => Ok(()),
        None => Err(ProgressionError::NoPokemon { player_index, pokemon_index }),
    }
}

/// Whether a Pokemon may evolve in battle: the same conditions as learning a move.
pub fn can_evolve_in_battle(target: PlayerTarget, pokemon_index: usize, state: &BattleState) -> (r: Result<
    (),
    ProgressionError,
>)
    ensures
        r == spec_can_learn_move(target, pokemon_index, *state),
{
    can_learn_move_in_battle(target, pokemon_index, state)
}

/// The move slots after learning `m` with full PP: into slot `replace_index` when one is
/// given (only slots 0 to 3 exist), else into the first empty slot, else over the last
/// slot.
pub open spec fn spec_learn_move(
    moves: [Option<MoveInstance>; 4],
    m: Move,
    replace_index: Option<usize>,
) -> Result<[Option<MoveInstance>; 4], ExecutionError> {
    let learned = Some(MoveInstance { move_: m, pp: spec_move_max_pp(m) });
    match replace_index {
        Some(k) => if k >= 4 {
            Err(ExecutionError::InvalidMoveIndex)
        } else {
            Ok(vstd::array::spec_array_update(moves, k as int, learned))
        },
        None => {
            let slot = if moves[0] is None {
                0int
            } else if moves[1] is None {
                1int
            } else if moves[2] is None {
                2int
            } else {
                3int
            };
            Ok(vstd::array::spec_array_update(moves, slot, learned))
        },
    }
}

/// The outcome of teaching `m` to team slot `pokemon_index` of the target's player: no
/// Pokemon there fails; otherwise its moves become those of `spec_learn_move`, or the move
/// index error comes back and nothing changes.
pub open spec fn spec_execute_learn_move(
    target: PlayerTarget,
    pokemon_index: usize,
    m: Move,
    replace_index: Option<usize>,
    state: BattleState,
) -> (BattleState, Result<(), ExecutionError>) {
    let i = spec_target_index(target);
    match state.players[i].team[pokemon_index as int] {
        None => (state, Err(ExecutionError::NoPokemon)),
        Some(p) => match spec_learn_move(p.moves, m, replace_index) {
            Err(e) => (state, Err(e)),
            Ok(moves) => {
                let player = state.players[i];
                let new_player = crate::player::BattlePlayer {
                    team: vstd::array::spec_array_update(player.team, pokemon_index as int, Some(PokemonInst { moves, ..p })),
                    ..player
                };
                (BattleState { players: vstd::array::spec_array_update(state.players, i, new_player), ..state }, Ok(()))
            },
        },
    }
}

/// Teaches a move to a team Pokemon (see `spec_execute_learn_move`). Learning a move brings
/// no further commands.
pub fn execute_learn_move(
    target: PlayerTarget,
    pokemon_index: usize,
    move_: Move,
    replace_index: Option<usize>,
    state: &mut BattleState,
) -> (r: Result<Vec<BattleCommand>, ExecutionError>)
    requires
        pokemon_index < 6,
    ensures
        ({
            let (s2, res) = spec_execute_learn_move(target, pokemon_index, move_, replace_index, *old(state));
            &&& *final(state) == s2
            &&& match (r, res) {
                (Ok(v), Ok(_)) => v@.len() == 0,
                (Err(e), Err(e2)) => e == e2,
                _ => false,
            }
        }),
{
    let i = target.to_index();
    let mut pokemon = match state.players[i].team[pokemon_index] {
        Some(p) => p,
        None => return Err(ExecutionError::NoPokemon),
    };
    let new_move = MoveInstance::new(move_);
    match replace_index {
        Some(index) => {
            if index >= 4 {
                return Err(ExecutionError::InvalidMoveIndex);
            }
            pokemon.moves.set(index, Some(new_move));
        },
        None => {
            let slot: usize = if pokemon.moves[0].is_none() {
                0
            } else if pokemon.moves[1].is_none() {
                1
            } else if pokemon.moves[2].is_none() {
                2
            } else {
                3
            };
            pokemon.moves.set(slot, Some(new_move));
        },
    }
    let ghost expected = spec_execute_learn_move(target, pokemon_index, move_, replace_index, *old(state)).0;
    state.players[i].team.set(pokemon_index, Some(pokemon));
    proof {
        assert(pokemon.moves =~= spec_learn_move(old(state).players[i as int].team[pokemon_index as int].unwrap().moves, move_, replace_index).unwrap());
        assert(state.players[i as int].team =~= expected.players[i as int].team);
        assert(state.players =~= expected.players);
    }
    Ok(Vec::new())
}

} // verus!
