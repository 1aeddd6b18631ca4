use pokemon_adventure::battle::action_stack::ActionStack;
use pokemon_adventure::battle::calculators::calculate_attack_outcome;
use pokemon_adventure::battle::catch::{
    calculate_catch_commands, can_attempt_catch, is_catch_allowed, roll_catch_success, CatchCommand, CatchError,
    CatchFailureReason,
};
use pokemon_adventure::battle::commands::{execute_command_batch, BattleCommand, PlayerTarget};
use pokemon_adventure::battle::conditions::{ConditionSet, PokemonCondition};
use pokemon_adventure::battle::engine::resolve_turn;
use pokemon_adventure::battle::state::{
    ActionFailureReason, BattleEvent, BattleState, BattleType, EventBus, GameState, TurnRng,
};
use pokemon_adventure::moves::Move;
use pokemon_adventure::player::{BattlePlayer, PlayerAction, PlayerType, StatStages, TeamConditions};
use pokemon_adventure::pokemon::{MoveInstance, PokemonInst};
use pokemon_adventure::schema::{BaseStats, ExperienceGroup, Learnset, PokemonSpecies, PokemonType, StatType};
use pokemon_adventure::species::Species;

fn npc_player(id: &str, name: &str, pokemon: PokemonInst) -> BattlePlayer {
    BattlePlayer {
        player_id: id.to_string(),
        player_name: name.to_string(),
        player_type: PlayerType::NPC,
        team: [Some(pokemon), None, None, None, None, None],
        active_pokemon_index: 0,
        stat_stages: StatStages::new(),
        team_conditions: TeamConditions::new(),
        active_pokemon_conditions: ConditionSet::new(),
        last_move: None,
        ante: 200,
    }
}

fn command_state() -> BattleState {
    let moves1 = [Some(MoveInstance::new(Move::Tackle)), Some(MoveInstance::new(Move::Growl)), None, None];
    let moves2 = [Some(MoveInstance::new(Move::Tackle)), Some(MoveInstance::new(Move::Scratch)), None, None];
    let pokemon1 = PokemonInst::new_for_test(
        Species::Pikachu, 1, 0, 100, [15; 6], [0; 6], [100, 80, 60, 80, 60, 100], moves1, None,
    );
    let pokemon2 = PokemonInst::new_for_test(
        Species::Charmander, 1, 0, 100, [15; 6], [0; 6], [100, 80, 60, 80, 60, 100], moves2, None,
    );
    BattleState::new(
        "test_battle".to_string(),
        npc_player("test1", "Player 1", pokemon1),
        npc_player("test2", "Player 2", pokemon2),
    )
}

fn outcome_state() -> BattleState {
    let pokemon1 = PokemonInst::new_for_test(
        Species::Pikachu, 1, 0, 100, [15; 6], [0; 6], [100, 80, 60, 80, 60, 100], [None; 4], None,
    );
    let pokemon2 = PokemonInst::new_for_test(
        Species::Charmander, 1, 0, 100, [15; 6], [0; 6], [100, 80, 60, 80, 60, 100], [None; 4], None,
    );
    BattleState::new(
        "test_battle".to_string(),
        npc_player("test1", "Player 1", pokemon1),
        npc_player("test2", "Player 2", pokemon2),
    )
}

fn record(species: Species) -> PokemonSpecies {
    let (types, base) = match species {
        Species::Pikachu => (vec![PokemonType::Electric], [35, 55, 30, 50, 50, 90]),
        _ => (vec![PokemonType::Fire], [39, 52, 43, 60, 50, 65]),
    };
    PokemonSpecies {
        pokedex_number: 1,
        name: String::new(),
        types,
        base_stats: BaseStats {
            hp: base[0],
            attack: base[1],
            defense: base[2],
            sp_attack: base[3],
            sp_defense: base[4],
            speed: base[5],
        },
        learnset: Learnset { level_up: vec![], signature: None, can_learn: vec![] },
        catch_rate: 45,
        base_exp: 64,
        experience_group: ExperienceGroup::MediumFast,
        description: String::new(),
        evolution_data: None,
    }
}

fn catch_state(battle_type: BattleType, player1_team_size: usize, opponent_fainted: bool) -> BattleState {
    let mut player1_team = vec![];
    for _ in 0..player1_team_size {
        let data = record(Species::Pikachu);
        player1_team.push(PokemonInst::new(Species::Pikachu, &data, 25, None, None));
    }
    let data = record(Species::Charmander);
    let mut opponent_pokemon = PokemonInst::new(Species::Charmander, &data, 25, None, None);
    if opponent_fainted {
        opponent_pokemon.take_damage(opponent_pokemon.current_hp());
    }
    let player1 = BattlePlayer::new_with_player_type("p1".to_string(), "Player 1".to_string(), player1_team, PlayerType::Human);
    let opponent = BattlePlayer::new_with_player_type(
        "wild".to_string(),
        "Wild Pokemon".to_string(),
        vec![opponent_pokemon],
        PlayerType::NPC,
    );
    let mut state = BattleState::new("test".to_string(), player1, opponent);
    state.battle_type = battle_type;
    state
}

fn turn_pokemon(species: Species, moves: Vec<Move>, hp: u16) -> PokemonInst {
    let mut slots: [Option<MoveInstance>; 4] = [None; 4];
    for (i, m) in moves.into_iter().enumerate() {
        if i < 4 {
            slots[i] = Some(MoveInstance { move_: m, pp: 10 });
        }
    }
    PokemonInst::new_for_test(species, 50, 0, hp, [15; 6], [0; 6], [hp, 80, 80, 80, 80, 80], slots, None)
}

fn turn_state(p1: PokemonInst, p2: PokemonInst) -> BattleState {
    let mut state = BattleState::new(
        "test_battle".to_string(),
        npc_player("test_player", "TestPlayer", p1),
        npc_player("test_player", "TestPlayer", p2),
    );
    state.action_queue[0] = Some(PlayerAction::UseMove { move_index: 0 });
    state.action_queue[1] = Some(PlayerAction::UseMove { move_index: 0 });
    state
}

#[test]
fn test_is_catch_allowed() {
    assert!(is_catch_allowed(BattleType::Wild));
    assert!(is_catch_allowed(BattleType::Safari));
    assert!(!is_catch_allowed(BattleType::Trainer));
    assert!(!is_catch_allowed(BattleType::Tournament));
}

#[test]
fn test_can_attempt_catch_success() {
    let state = catch_state(BattleType::Wild, 1, false);
    assert_eq!(can_attempt_catch(&state, 0), Ok(Species::Charmander));
}

#[test]
fn test_can_attempt_catch_invalid_battle_type() {
    let state = catch_state(BattleType::Trainer, 1, false);
    assert_eq!(
        can_attempt_catch(&state, 0),
        Err(CatchError::InvalidBattleType { battle_type: BattleType::Trainer })
    );
}

#[test]
fn test_can_attempt_catch_team_full() {
    let state = catch_state(BattleType::Wild, 6, false);
    assert_eq!(can_attempt_catch(&state, 0), Err(CatchError::TeamFull));
}

#[test]
fn test_can_attempt_catch_target_fainted() {
    let state = catch_state(BattleType::Wild, 1, true);
    assert_eq!(
        can_attempt_catch(&state, 0),
        Err(CatchError::TargetFainted { pokemon: Species::Charmander })
    );
}

#[test]
fn catch_without_target_is_refused() {
    let mut state = catch_state(BattleType::Safari, 1, false);
    state.players[1].team[0] = None;
    assert_eq!(can_attempt_catch(&state, 0), Err(CatchError::NoTargetPokemon));
}

#[test]
fn test_player_target_conversion() {
    assert_eq!(PlayerTarget::Player1.to_index(), 0);
    assert_eq!(PlayerTarget::Player2.to_index(), 1);
    assert_eq!(PlayerTarget::from_index(0), PlayerTarget::Player1);
    assert_eq!(PlayerTarget::from_index(1), PlayerTarget::Player2);
    assert_eq!(PlayerTarget::Player1.opponent(), PlayerTarget::Player2);
    assert_eq!(PlayerTarget::Player2.opponent(), PlayerTarget::Player1);
}

#[test]
fn test_deal_damage_command() {
    let mut state = command_state();
    let mut bus = EventBus::new();
    let mut action_stack = ActionStack::new();
    let initial_hp = state.players[0].active_pokemon().unwrap().current_hp();
    let result = execute_command_batch(
        vec![BattleCommand::DealDamage { target: PlayerTarget::Player1, amount: 20 }],
        &mut state,
        &mut bus,
        &mut action_stack,
    );
    assert!(result.is_ok());
    assert_eq!(state.players[0].active_pokemon().unwrap().current_hp(), initial_hp - 20);
}

#[test]
fn test_heal_pokemon_command() {
    let mut state = command_state();
    let mut bus = EventBus::new();
    let mut action_stack = ActionStack::new();
    execute_command_batch(
        vec![BattleCommand::DealDamage { target: PlayerTarget::Player1, amount: 30 }],
        &mut state,
        &mut bus,
        &mut action_stack,
    )
    .unwrap();
    let damaged_hp = state.players[0].active_pokemon().unwrap().current_hp();
    let result = execute_command_batch(
        vec![BattleCommand::HealPokemon { target: PlayerTarget::Player1, amount: 10 }],
        &mut state,
        &mut bus,
        &mut action_stack,
    );
    assert!(result.is_ok());
    assert_eq!(state.players[0].active_pokemon().unwrap().current_hp(), damaged_hp + 10);
}

#[test]
fn test_emit_event_command() {
    let mut state = command_state();
    let mut bus = EventBus::new();
    let mut action_stack = ActionStack::new();
    let event = BattleEvent::TurnStarted { turn_number: 1 };
    let result = execute_command_batch(vec![BattleCommand::EmitEvent(event)], &mut state, &mut bus, &mut action_stack);
    assert!(result.is_ok());
    assert_eq!(bus.events().len(), 1);
    assert!(matches!(bus.events()[0], BattleEvent::TurnStarted { turn_number: 1 }));
}

#[test]
fn test_change_stat_stage_command() {
    let mut state = command_state();
    let mut bus = EventBus::new();
    let mut action_stack = ActionStack::new();
    let result = execute_command_batch(
        vec![BattleCommand::ChangeStatStage { target: PlayerTarget::Player1, stat: StatType::Atk, delta: 2 }],
        &mut state,
        &mut bus,
        &mut action_stack,
    );
    assert!(result.is_ok());
    assert_eq!(state.players[0].get_stat_stage(StatType::Atk), 2);
}

#[test]
fn test_set_game_state_command() {
    let mut state = command_state();
    let mut bus = EventBus::new();
    let mut action_stack = ActionStack::new();
    let result = execute_command_batch(
        vec![BattleCommand::SetGameState(GameState::TurnInProgress)],
        &mut state,
        &mut bus,
        &mut action_stack,
    );
    assert!(result.is_ok());
    assert_eq!(state.game_state, GameState::TurnInProgress);
}

#[test]
fn stat_stage_command_clamps_and_reports() {
    let mut state = command_state();
    let mut bus = EventBus::new();
    let mut action_stack = ActionStack::new();
    let result = execute_command_batch(
        vec![
            BattleCommand::ChangeStatStage { target: PlayerTarget::Player2, stat: StatType::Def, delta: -4 },
            BattleCommand::ChangeStatStage { target: PlayerTarget::Player2, stat: StatType::Def, delta: -4 },
        ],
        &mut state,
        &mut bus,
        &mut action_stack,
    );
    assert!(result.is_ok());
    assert_eq!(state.players[1].get_stat_stage(StatType::Def), -6);
    assert!(bus.events().iter().any(|e| matches!(
        e,
        BattleEvent::StatStageChanged { old_stage: -2, new_stage: -6, .. }
    )));
}

#[test]
fn damage_command_without_pokemon_fails() {
    let mut state = command_state();
    state.players[1].team[0] = None;
    let mut bus = EventBus::new();
    let mut action_stack = ActionStack::new();
    let result = execute_command_batch(
        vec![
            BattleCommand::DealDamage { target: PlayerTarget::Player2, amount: 5 },
            BattleCommand::SetGameState(GameState::Draw),
        ],
        &mut state,
        &mut bus,
        &mut action_stack,
    );
    assert!(result.is_err());
    assert_eq!(state.game_state, GameState::WaitingForActions);
}

#[test]
fn fatal_damage_command_reports_fainting() {
    let mut state = command_state();
    let mut bus = EventBus::new();
    let mut action_stack = ActionStack::new();
    let result = execute_command_batch(
        vec![BattleCommand::DealDamage { target: PlayerTarget::Player2, amount: 150 }],
        &mut state,
        &mut bus,
        &mut action_stack,
    );
    assert!(result.is_ok());
    assert_eq!(state.players[1].active_pokemon().unwrap().current_hp(), 0);
    assert!(bus.events().iter().any(|e| matches!(e, BattleEvent::PokemonFainted { player_index: 1, .. })));
}

#[test]
fn test_calculate_attack_outcome_hit() {
    let state = outcome_state();
    let mut rng = TurnRng::new_for_test(vec![1, 99, 50, 50, 50]);
    let commands = calculate_attack_outcome(&state, 0, 1, Move::Tackle, 0, &mut rng);
    assert!(commands.len() >= 3);
    assert!(matches!(commands[0], BattleCommand::EmitEvent(BattleEvent::MoveUsed { .. })));
    assert!(matches!(commands[1], BattleCommand::EmitEvent(BattleEvent::MoveHit { .. })));
    assert!(commands.iter().any(|cmd| matches!(cmd, BattleCommand::DealDamage { .. })));
}

#[test]
fn test_calculate_attack_outcome_miss() {
    let state = outcome_state();
    let mut rng = TurnRng::new_for_test(vec![100]);
    let commands = calculate_attack_outcome(&state, 0, 1, Move::Tackle, 0, &mut rng);
    assert_eq!(commands.len(), 2);
    assert!(matches!(commands[0], BattleCommand::EmitEvent(BattleEvent::MoveUsed { .. })));
    assert!(matches!(commands[1], BattleCommand::EmitEvent(BattleEvent::MoveMissed { .. })));
}

#[test]
fn test_calculate_attack_outcome_no_attacker() {
    let mut state = outcome_state();
    state.players[0].team[0] = None;
    let mut rng = TurnRng::new_for_test(vec![50]);
    let commands = calculate_attack_outcome(&state, 0, 1, Move::Tackle, 0, &mut rng);
    assert_eq!(commands.len(), 1);
    assert!(matches!(
        commands[0],
        BattleCommand::EmitEvent(BattleEvent::ActionFailed { reason: ActionFailureReason::PokemonFainted })
    ));
}

#[test]
fn test_calculate_attack_outcome_no_defender() {
    let mut state = outcome_state();
    state.players[1].team[0] = None;
    let mut rng = TurnRng::new_for_test(vec![50]);
    let commands = calculate_attack_outcome(&state, 0, 1, Move::Tackle, 0, &mut rng);
    assert_eq!(commands.len(), 1);
    assert!(matches!(
        commands[0],
        BattleCommand::EmitEvent(BattleEvent::ActionFailed { reason: ActionFailureReason::NoEnemyPresent })
    ));
}

#[test]
fn test_calculate_attack_outcome_with_substitute() {
    let mut state = outcome_state();
    state.players[1].add_condition(PokemonCondition::Substitute { hp: 50 });
    let mut rng = TurnRng::new_for_test(vec![1, 99, 50, 50, 50]);
    let commands = calculate_attack_outcome(&state, 0, 1, Move::Tackle, 0, &mut rng);
    assert!(commands.len() >= 3);
    assert!(matches!(commands[0], BattleCommand::EmitEvent(BattleEvent::MoveUsed { .. })));
    assert!(matches!(commands[1], BattleCommand::EmitEvent(BattleEvent::MoveHit { .. })));
    assert!(commands
        .iter()
        .any(|cmd| matches!(cmd, BattleCommand::EmitEvent(BattleEvent::SubstituteDamaged { .. }))));
    assert!(commands.iter().any(|cmd| matches!(cmd, BattleCommand::RemoveCondition { .. })));
}

#[test]
fn test_calculate_attack_outcome_substitute_destroyed() {
    let mut state = outcome_state();
    state.players[1].add_condition(PokemonCondition::Substitute { hp: 1 });
    let mut rng = TurnRng::new_for_test(vec![1, 99, 50, 50, 50]);
    let commands = calculate_attack_outcome(&state, 0, 1, Move::Tackle, 0, &mut rng);
    assert!(commands.iter().any(|cmd| matches!(cmd, BattleCommand::RemoveSpecificCondition { .. })));
    let remove_condition_count = commands
        .iter()
        .filter(|cmd| matches!(cmd, BattleCommand::RemoveSpecificCondition { .. }))
        .count();
    let add_condition_count = commands.iter().filter(|cmd| matches!(cmd, BattleCommand::AddCondition { .. })).count();
    assert_eq!(remove_condition_count, 1);
    assert_eq!(add_condition_count, 0);
}

#[test]
fn test_critical_hits_in_battle() {
    let mut state = turn_state(
        turn_pokemon(Species::Pikachu, vec![Move::Tackle], 100),
        turn_pokemon(Species::Charmander, vec![Move::Scratch], 100),
    );
    let rng = TurnRng::new_for_test(vec![2, 1, 3, 2, 1, 3]);
    let bus = resolve_turn(&mut state, rng);
    let critical_hits = bus.events().iter().filter(|e| matches!(e, BattleEvent::CriticalHit { .. })).count();
    assert!(critical_hits > 0, "Should generate at least one critical hit event");
}

#[test]
fn test_no_critical_hits_guaranteed_miss() {
    let mut state = turn_state(
        turn_pokemon(Species::Pikachu, vec![Move::Tackle], 100),
        turn_pokemon(Species::Charmander, vec![Move::Scratch], 100),
    );
    let rng = TurnRng::new_for_test(vec![99, 99, 99, 99, 99, 99]);
    let bus = resolve_turn(&mut state, rng);
    let critical_hits = bus.events().iter().filter(|e| matches!(e, BattleEvent::CriticalHit { .. })).count();
    let misses = bus.events().iter().filter(|e| matches!(e, BattleEvent::MoveMissed { .. })).count();
    assert_eq!(critical_hits, 0, "Should not generate critical hit events when moves miss");
    assert!(misses > 0, "Should generate miss events");
}

#[test]
fn test_battle_with_fainting() {
    let mut state = turn_state(
        turn_pokemon(Species::Pikachu, vec![Move::Tackle], 100),
        turn_pokemon(Species::Charmander, vec![Move::Scratch], 20),
    );
    let rng = TurnRng::new_for_test(vec![50, 50, 50, 50, 50, 50]);
    let bus = resolve_turn(&mut state, rng);
    let damage_events = bus.events().iter().filter(|e| matches!(e, BattleEvent::DamageDealt { .. })).count();
    let faint_events = bus.events().iter().filter(|e| matches!(e, BattleEvent::PokemonFainted { .. })).count();
    assert!(damage_events > 0, "Should generate damage events");
    let hp = state.players[1].team[0].as_ref().unwrap().current_hp();
    if hp == 0 {
        assert!(faint_events > 0, "Should generate faint event when Pokemon faints");
    }
}

#[test]
fn test_skip_actions_against_fainted_pokemon() {
    let pokemon1 = turn_pokemon(Species::Pikachu, vec![Move::Tackle], 100);
    let mut pokemon2 = turn_pokemon(Species::Charmander, vec![Move::Scratch], 20);
    pokemon2.take_damage(50);
    assert!(pokemon2.is_fainted());
    let mut state = turn_state(pokemon1, pokemon2);
    let rng = TurnRng::new_for_test(vec![50, 50, 50]);
    let bus = resolve_turn(&mut state, rng);
    let failed = bus.events().iter().filter(|e| matches!(e, BattleEvent::ActionFailed { .. })).count();
    assert!(failed > 0, "Should skip actions against fainted Pokemon");
}

#[test]
fn resolved_turn_advances_turn_counter() {
    let mut state = turn_state(
        turn_pokemon(Species::Pikachu, vec![Move::Tackle], 100),
        turn_pokemon(Species::Charmander, vec![Move::Scratch], 100),
    );
    let rng = TurnRng::new_for_test(vec![50, 50, 50, 50, 50, 50]);
    let bus = resolve_turn(&mut state, rng);
    assert!(matches!(bus.events()[0], BattleEvent::TurnStarted { turn_number: 1 }));
    assert_eq!(state.turn_number, 2);
    assert_eq!(state.game_state, GameState::WaitingForActions);
    assert!(state.action_queue[0].is_none() && state.action_queue[1].is_none());
}

// A full-health Charmander (species catch rate 45) has catch rate 45 / 9 = 5 with a regular
// ball, so a whole roll catches it when it is below 5.
const CHARMANDER_THRESHOLD: u16 = 5;

#[test]
fn test_catch_commands_invalid_battle_type() {
    let state = catch_state(BattleType::Trainer, 1, false);
    let mut rng = TurnRng::new_for_test(vec![100]);
    let commands = calculate_catch_commands(0, Species::Charmander, &state, CHARMANDER_THRESHOLD, &mut rng);
    assert_eq!(commands.len(), 1);
    match &commands[0] {
        CatchCommand::CatchFailed { reason, .. } => {
            assert!(matches!(reason, CatchFailureReason::InvalidBattleType { .. }));
        }
        _ => panic!("Expected CatchFailed event"),
    }
}

#[test]
fn test_catch_commands_team_full() {
    let state = catch_state(BattleType::Wild, 6, false);
    let mut rng = TurnRng::new_for_test(vec![100]);
    let commands = calculate_catch_commands(0, Species::Charmander, &state, CHARMANDER_THRESHOLD, &mut rng);
    assert_eq!(commands.len(), 1);
    match &commands[0] {
        CatchCommand::CatchFailed { reason, .. } => assert!(matches!(reason, CatchFailureReason::TeamFull)),
        _ => panic!("Expected CatchFailed event"),
    }
}

#[test]
fn test_catch_commands_success() {
    let state = catch_state(BattleType::Wild, 1, false);
    let mut rng = TurnRng::new_for_test(vec![1]);
    let commands = calculate_catch_commands(0, Species::Charmander, &state, CHARMANDER_THRESHOLD, &mut rng);
    assert_eq!(commands.len(), 2);
    match &commands[0] {
        CatchCommand::CatchAttempted { player_index, pokemon, .. } => {
            assert_eq!(*player_index, 0);
            assert_eq!(*pokemon, Species::Charmander);
        }
        _ => panic!("Expected CatchAttempted event"),
    }
    match &commands[1] {
        CatchCommand::AttemptCatch { player_index, target_pokemon } => {
            assert_eq!(*player_index, 0);
            assert_eq!(*target_pokemon, Species::Charmander);
        }
        _ => panic!("Expected AttemptCatch command"),
    }
}

#[test]
fn test_catch_commands_failure() {
    let state = catch_state(BattleType::Wild, 1, false);
    let mut rng = TurnRng::new_for_test(vec![255]);
    let commands = calculate_catch_commands(0, Species::Charmander, &state, CHARMANDER_THRESHOLD, &mut rng);
    assert_eq!(commands.len(), 2);
    match &commands[0] {
        CatchCommand::CatchAttempted { .. } => (),
        _ => panic!("Expected CatchAttempted event"),
    }
    match &commands[1] {
        CatchCommand::CatchFailed { reason, .. } => assert!(matches!(reason, CatchFailureReason::RollFailed { .. })),
        _ => panic!("Expected CatchFailed event"),
    }
}

#[test]
fn catch_roll_at_the_threshold_fails() {
    let state = catch_state(BattleType::Wild, 1, false);
    let mut rng = TurnRng::new_for_test(vec![5]);
    let commands = calculate_catch_commands(0, Species::Charmander, &state, CHARMANDER_THRESHOLD, &mut rng);
    assert_eq!(
        commands[1],
        CatchCommand::CatchFailed {
            player_index: 0,
            pokemon: Species::Charmander,
            reason: CatchFailureReason::RollFailed { catch_threshold: 5 },
        }
    );
    let mut rng = TurnRng::new_for_test(vec![4]);
    let commands = calculate_catch_commands(0, Species::Charmander, &state, CHARMANDER_THRESHOLD, &mut rng);
    assert_eq!(commands[1], CatchCommand::AttemptCatch { player_index: 0, target_pokemon: Species::Charmander });
}

#[test]
fn catch_at_another_species_has_no_target_and_uses_no_roll() {
    let state = catch_state(BattleType::Wild, 1, false);
    let mut rng = TurnRng::new_for_test(vec![1]);
    let commands = calculate_catch_commands(0, Species::Pikachu, &state, CHARMANDER_THRESHOLD, &mut rng);
    assert_eq!(
        commands,
        vec![CatchCommand::CatchFailed {
            player_index: 0,
            pokemon: Species::Pikachu,
            reason: CatchFailureReason::NoTargetPokemon,
        }]
    );
    assert_eq!(rng.remaining_len(), 1);
}

#[test]
fn catch_at_fainted_target_reports_it() {
    let state = catch_state(BattleType::Wild, 1, true);
    let mut rng = TurnRng::new_for_test(vec![]);
    let commands = calculate_catch_commands(0, Species::Charmander, &state, CHARMANDER_THRESHOLD, &mut rng);
    assert_eq!(
        commands,
        vec![CatchCommand::CatchFailed {
            player_index: 0,
            pokemon: Species::Charmander,
            reason: CatchFailureReason::TargetFainted { pokemon: Species::Charmander },
        }]
    );
}

#[test]
fn test_catch_success_rolls() {
    let mut rng = TurnRng::new_for_test(vec![50, 100, 200]);
    assert!(roll_catch_success(100, &mut rng));
    assert!(!roll_catch_success(50, &mut rng));
    assert!(!roll_catch_success(150, &mut rng));
}
