//! The checks a battle runner makes on submitted actions, and the bookkeeping of which
//! players still have to act.
use vstd::prelude::*;

use crate::battle::catch::spec_team_count;
use crate::battle::state::{spec_game_state_name, BattleState, GameState};
use crate::player::{spec_active, BattlePlayer, PlayerAction};
use crate::pokemon::{PokemonInst, StatusCondition};
use crate::species::{spec_species_name, Species};
use crate::text::{decimal_text, spec_decimal};
use vstd::string::StringExecFns;

verus! {

/// Why the battle runner refused a request.
#[derive(Debug, Clone, PartialEq)]
pub enum BattleRunnerError {
    InvalidPlayerIndex(usize),
    PlayerAlreadySubmitted(usize),
    GameNotAcceptingActions,
    InvalidActionForGameState(String),
    InvalidPlayerAction(String),
    InternalError(String),
}

/// Whether the battle is over.
pub open spec fn spec_is_battle_ended(g: GameState) -> bool {
    g == GameState::Player1Win || g == GameState::Player2Win || g == GameState::Draw
}

/// Whether a battle in this state is over.
pub fn is_battle_ended(game_state: GameState) -> (r: bool)
    ensures
        r == spec_is_battle_ended(game_state),
{
    match game_state {
        GameState::Player1Win | GameState::Player2Win | GameState::Draw => true,
        _ => false,
    }
}

/// The winner of a battle in this state: player 0 or 1 after a win, none otherwise.
pub open spec fn spec_winner(g: GameState) -> Option<usize> {
    match g {
        GameState::Player1Win => Some(0),
        GameState::Player2Win => Some(1),
        _ => None,
    }
}

/// The winner of a battle in this state (see `spec_winner`).
pub fn get_winner(game_state: GameState) -> (r: Option<usize>)
    ensures
        r == spec_winner(game_state),
{
    match game_state {
        GameState::Player1Win => Some(0),
        GameState::Player2Win => Some(1),
        _ => None,
    }
}

/// The players that still have to submit an action in this state, given which players have
/// a pending action: both players while waiting for actions or for both replacements, the
/// replacing player otherwise, each only without a pending action.
pub open spec fn spec_players_needing_actions(g: GameState, pending: [bool; 2]) -> Seq<usize> {
    let p0 = if !pending[0] { seq![0usize] } else { seq![] };
    let p1 = if !pending[1] { seq![1usize] } else { seq![] };
    match g {
        GameState::WaitingForActions | GameState::WaitingForBothReplacements => p0 + p1,
        GameState::WaitingForPlayer1Replacement => p0,
        GameState::WaitingForPlayer2Replacement => p1,
        _ => seq![],
    }
}

/// The players that still have to act (see `spec_players_needing_actions`).
pub fn players_needing_actions(game_state: GameState, pending: [bool; 2]) -> (r: Vec<usize>)
    ensures
        r@ == spec_players_needing_actions(game_state, pending),
{
    let mut r: Vec<usize> = Vec::new();
    match game_state {
        GameState::WaitingForActions | GameState::WaitingForBothReplacements => {
            if !pending[0] {
                r.push(0);
            }
            if !pending[1] {
                r.push(1);
            }
        },
        GameState::WaitingForPlayer1Replacement => {
            if !pending[0] {
                r.push(0);
            }
        },
        GameState::WaitingForPlayer2Replacement => {
            if !pending[1] {
                r.push(1);
            }
        },
        _ => {},
    }
    assert(r@ =~= spec_players_needing_actions(game_state, pending));
    r
}

/// Whether player `player_index` may submit an action in this state.
pub open spec fn spec_can_submit(player_index: usize, g: GameState) -> bool {
    match g {
        GameState::WaitingForActions | GameState::WaitingForBothReplacements => player_index < 2,
        GameState::WaitingForPlayer1Replacement => player_index == 0,
        GameState::WaitingForPlayer2Replacement => player_index == 1,
        _ => false,
    }
}

/// What is wrong with an action for the player's team, if anything: a move needs an active
/// Pokemon and a filled slot among the four with PP left; a switch needs an existing slot
/// with a Pokemon that has not fainted and is not already active; a forfeit is always fine.
pub open spec fn spec_action_problem(state: BattleState, player_index: usize, action: PlayerAction) -> Option<Seq<char>> {
    let player = state.players[player_index as int];
    match action {
        PlayerAction::UseMove { move_index } => match spec_active(player) {
            None => Some("No active Pokemon"@),
            Some(pk) => if move_index >= 4 {
                Some("Invalid move index"@)
            } else {
                match pk.moves[move_index as int] {
                    Some(inst) => if inst.pp == 0 {
                        Some("Move has no PP remaining"@)
                    } else {
                        None
                    },
                    None => Some("No move in that slot"@),
                }
            },
        },
        PlayerAction::SwitchPokemon { team_index } => if team_index >= 6 {
            Some("Invalid Pokemon index"@)
        } else {
            match player.team[team_index as int] {
                Some(t) => if t.curr_hp == 0 {
                    Some("Cannot switch to fainted Pokemon"@)
                } else if team_index == player.active_pokemon_index {
                    Some("Pokemon is already active"@)
                } else {
                    None
                },
                None => Some("No Pokemon in that team slot"@),
            }
        },
        PlayerAction::Forfeit => None,
    }
}

/// Checks an action against the player's team (see `spec_action_problem`).
pub fn validate_action_details(battle_state: &BattleState, player_index: usize, action: &PlayerAction) -> (r: Result<
    (),
    BattleRunnerError,
>)
    requires
        battle_state.wf(),
        player_index < 2,
    ensures
        match spec_action_problem(*battle_state, player_index, *action) {
            None => r is Ok,
            Some(text) => r matches Err(BattleRunnerError::InvalidPlayerAction(m)) && m@ == text,
        },
{
    let player = &battle_state.players[player_index];
    match action {
        PlayerAction::UseMove { move_index } => {
            let pokemon = match player.active_pokemon() {
                Some(p) => p,
                None => {
                    return Err(BattleRunnerError::InvalidPlayerAction("No active Pokemon".to_owned()));
                },
            };
            if *move_index >= 4 {
                return Err(BattleRunnerError::InvalidPlayerAction("Invalid move index".to_owned()));
            }
            match pokemon.moves[*move_index] {
                Some(move_instance) => {
                    if move_instance.pp == 0 {
                        return Err(BattleRunnerError::InvalidPlayerAction("Move has no PP remaining".to_owned()));
                    }
                },
                None => {
                    return Err(BattleRunnerError::InvalidPlayerAction("No move in that slot".to_owned()));
                },
            }
        },
        PlayerAction::SwitchPokemon { team_index } => {
            if *team_index >= 6 {
                return Err(BattleRunnerError::InvalidPlayerAction("Invalid Pokemon index".to_owned()));
            }
            match &player.team[*team_index] {
                Some(target_pokemon) => {
                    if target_pokemon.is_fainted() {
                        return Err(
                            BattleRunnerError::InvalidPlayerAction("Cannot switch to fainted Pokemon".to_owned()),
                        );
                    }
                    if *team_index == player.active_pokemon_index {
                        return Err(BattleRunnerError::InvalidPlayerAction("Pokemon is already active".to_owned()));
                    }
                },
                None => {
                    return Err(BattleRunnerError::InvalidPlayerAction("No Pokemon in that team slot".to_owned()));
                },
            }
        },
        PlayerAction::Forfeit => {},
    }
    Ok(())
}

/// The refusal text for player `player_index` submitting in state `g`.
pub open spec fn spec_cannot_submit_text(player_index: usize, g: GameState) -> Seq<char> {
    "Player "@ + spec_decimal(player_index as nat) + " cannot submit actions in state "@ + spec_game_state_name(g)
}

fn cannot_submit_message(player_index: usize, game_state: GameState) -> (r: String)
    ensures
        r@ == spec_cannot_submit_text(player_index, game_state),
{
    let mut m = "Player ".to_owned();
    let number = decimal_text(player_index as u64);
    m.append(number.as_str());
    m.append(" cannot submit actions in state ");
    m.append(game_state.name());
    m
}

/// The outcome of the checks on a submitted action, in order: a valid player index, a
/// battle still going on, no action already pending for the player, a state in which the
/// player may act, only switches during replacements, and an action that fits the team.
/// Gives the kind of the first failed check, with the text of action problems.
pub open spec fn spec_submission_check(state: BattleState, player_index: usize, already_submitted: bool, action: PlayerAction) -> Option<BattleRunnerError> {
    if player_index >= 2 {
        Some(BattleRunnerError::InvalidPlayerIndex(player_index))
    } else if spec_is_battle_ended(state.game_state) {
        Some(BattleRunnerError::GameNotAcceptingActions)
    } else if already_submitted {
        Some(BattleRunnerError::PlayerAlreadySubmitted(player_index))
    } else {
        None
    }
}

/// Checks a submitted action (see `spec_submission_check` and `spec_action_problem`).
pub fn check_submission(battle_state: &BattleState, player_index: usize, already_submitted: bool, action: &PlayerAction) -> (r:
    Result<(), BattleRunnerError>)
    requires
        battle_state.wf(),
    ensures
        match spec_submission_check(*battle_state, player_index, already_submitted, *action) {
            Some(e) => r == Err::<(), BattleRunnerError>(e),
            None => if !spec_can_submit(player_index, battle_state.game_state) {
                r matches Err(BattleRunnerError::InvalidActionForGameState(m)) && m@ == spec_cannot_submit_text(
                    player_index,
                    battle_state.game_state,
                )
            } else if crate::battle::engine::spec_is_replacement_phase(battle_state.game_state) && !(
            *action is SwitchPokemon) {
                r matches Err(BattleRunnerError::InvalidActionForGameState(m)) && m@
                    == "Only switch actions allowed during forced replacement"@
            } else {
                match spec_action_problem(*battle_state, player_index, *action) {
                    None => r is Ok,
                    Some(text) => r matches Err(BattleRunnerError::InvalidPlayerAction(m)) && m@ == text,
                }
            },
        },
{
    if player_index >= 2 {
        return Err(BattleRunnerError::InvalidPlayerIndex(player_index));
    }
    if is_battle_ended(battle_state.game_state) {
        return Err(BattleRunnerError::GameNotAcceptingActions);
    }
    if already_submitted {
        return Err(BattleRunnerError::PlayerAlreadySubmitted(player_index));
    }
    let can_submit = match battle_state.game_state {
        GameState::WaitingForActions | GameState::WaitingForBothReplacements => true,
        GameState::WaitingForPlayer1Replacement => player_index == 0,
        GameState::WaitingForPlayer2Replacement => player_index == 1,
        _ => false,
    };
    if !can_submit {
        return Err(BattleRunnerError::InvalidActionForGameState(
            cannot_submit_message(player_index, battle_state.game_state),
        ));
    }
    let replacement = battle_state.game_state == GameState::WaitingForPlayer1Replacement
        || battle_state.game_state == GameState::WaitingForPlayer2Replacement
        || battle_state.game_state == GameState::WaitingForBothReplacements;
    if replacement {
        if let PlayerAction::SwitchPokemon { .. } = action {
        } else {
            return Err(BattleRunnerError::InvalidActionForGameState(
                "Only switch actions allowed during forced replacement".to_owned(),
            ));
        }
    }
    validate_action_details(battle_state, player_index, action)
}

/// A finished battle waits for nobody, and it is finished exactly when it has a winner or
/// is drawn; a battle that is not finished has no winner.
pub proof fn lemma_finished_battles_need_no_actions(g: GameState, pending: [bool; 2], player_index: usize)
    ensures
        spec_is_battle_ended(g) <==> (spec_winner(g) is Some || g == GameState::Draw),
        spec_is_battle_ended(g) ==> spec_players_needing_actions(g, pending).len() == 0,
        spec_is_battle_ended(g) ==> !spec_can_submit(player_index, g),
        !spec_is_battle_ended(g) ==> spec_winner(g) is None,
{
}

/// A summary of one Pokemon for display.
#[derive(Debug, Clone)]
pub struct PokemonInfo {
    pub species: Species,
    pub name: String,
    pub current_hp: u16,
    pub max_hp: u16,
    pub is_fainted: bool,
    pub status: Option<StatusCondition>,
}

/// A summary of one player for display.
#[derive(Debug, Clone)]
pub struct PlayerInfo {
    pub player_id: String,
    pub player_name: String,
    pub active_pokemon: Option<PokemonInfo>,
    pub team: Vec<Option<PokemonInfo>>,
    pub team_size: usize,
    pub fainted_count: usize,
}

/// A summary of a battle for display.
#[derive(Debug, Clone)]
pub struct BattleInfo {
    pub battle_id: String,
    pub turn_number: u32,
    pub game_state: GameState,
    pub players: Vec<PlayerInfo>,
}

/// The summary describes the Pokemon: its species and name, its HP and maximum HP, whether
/// it has fainted, and its status.
pub open spec fn spec_describes(info: PokemonInfo, p: PokemonInst) -> bool {
    &&& info.species == p.species
    &&& info.name@ == spec_species_name(p.species)
    &&& info.current_hp == p.curr_hp
    &&& info.max_hp == p.stats.hp
    &&& info.is_fainted == (p.curr_hp == 0)
    &&& info.status == p.status
}

/// An empty slot has no summary; a filled one has the summary of its Pokemon.
pub open spec fn spec_slot_described(info: Option<PokemonInfo>, slot: Option<PokemonInst>) -> bool {
    match (info, slot) {
        (None, None) => true,
        (Some(i), Some(p)) => spec_describes(i, p),
        _ => false,
    }
}

/// How many of the first `n` team slots hold a fainted Pokemon.
pub open spec fn spec_fainted_count(team: [Option<PokemonInst>; 6], n: int) -> nat
    decreases n,
{
    if n <= 0 {
        0
    } else {
        spec_fainted_count(team, n - 1) + if team[n - 1] matches Some(p) && p.curr_hp == 0 {
            1nat
        } else {
            0nat
        }
    }
}

/// The summary describes the player: its id and name, its active Pokemon, each of its six
/// team slots, how many slots are filled and how many hold a fainted Pokemon.
pub open spec fn spec_player_described(info: PlayerInfo, player: BattlePlayer) -> bool {
    &&& info.player_id@ == player.player_id@
    &&& info.player_name@ == player.player_name@
    &&& spec_slot_described(info.active_pokemon, spec_active(player))
    &&& info.team.len() == 6
    &&& forall|i: int| 0 <= i < 6 ==> spec_slot_described(#[trigger] info.team@[i], player.team[i])
    &&& info.team_size == spec_team_count(player.team, 6)
    &&& info.fainted_count == spec_fainted_count(player.team, 6)
}

fn pokemon_info(p: &PokemonInst) -> (r: PokemonInfo)
    ensures
        spec_describes(r, *p),
{
    PokemonInfo {
        species: p.species,
        name: p.species.name().to_owned(),
        current_hp: p.current_hp(),
        max_hp: p.max_hp(),
        is_fainted: p.is_fainted(),
        status: p.status,
    }
}

fn slot_info(slot: &Option<PokemonInst>) -> (r: Option<PokemonInfo>)
    ensures
        spec_slot_described(r, *slot),
{
    match slot {
        Some(p) => Some(pokemon_info(p)),
        None => None,
    }
}

fn player_info(player: &BattlePlayer) -> (r: PlayerInfo)
    requires
        player.wf(),
    ensures
        spec_player_described(r, *player),
{
    let mut team: Vec<Option<PokemonInfo>> = Vec::new();
    let mut team_size: usize = 0;
    let mut fainted_count: usize = 0;
    let mut i: usize = 0;
    while i < 6
        invariant
            0 <= i <= 6,
            team.len() == i,
            forall|k: int| 0 <= k < i ==> spec_slot_described(#[trigger] team@[k], player.team[k]),
            team_size == spec_team_count(player.team, i as int),
            fainted_count == spec_fainted_count(player.team, i as int),
            team_size <= i,
            fainted_count <= i,
        decreases 6 - i,
    {
        team.push(slot_info(&player.team[i]));
        if let Some(p) = &player.team[i] {
            team_size = team_size + 1;
            if p.is_fainted() {
                fainted_count = fainted_count + 1;
            }
        }
        i = i + 1;
    }
    let active = match player.active_pokemon() {
        Some(p) => Some(pokemon_info(p)),
        None => None,
    };
    PlayerInfo {
        player_id: player.player_id.clone(),
        player_name: player.player_name.clone(),
        active_pokemon: active,
        team,
        team_size,
        fainted_count,
    }
}

/// A summary of the battle: its id, turn number and state, and a summary of each player
/// (see `spec_player_described`), the first player first.
pub fn battle_info(battle_state: &BattleState) -> (r: BattleInfo)
    requires
        battle_state.wf(),
    ensures
        r.battle_id@ == battle_state.battle_id@,
        r.turn_number == battle_state.turn_number,
        r.game_state == battle_state.game_state,
        r.players.len() == 2,
        spec_player_described(r.players@[0], battle_state.players[0]),
        spec_player_described(r.players@[1], battle_state.players[1]),
{
    let mut players: Vec<PlayerInfo> = Vec::new();
    players.push(player_info(&battle_state.players[0]));
    players.push(player_info(&battle_state.players[1]));
    BattleInfo {
        battle_id: battle_state.battle_id.clone(),
        turn_number: battle_state.turn_number,
        game_state: battle_state.game_state,
        players,
    }
}

} // verus!
