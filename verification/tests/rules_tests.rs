use pokemon_adventure::battle::action_stack::{ActionStack, BattleAction};
use pokemon_adventure::battle::calculators::{calculate_action_prevention, calculate_end_turn_commands};
use pokemon_adventure::battle::commands::{execute_command_batch, BattleCommand, ExecutionError, PlayerTarget};
use pokemon_adventure::battle::conditions::{ConditionSet, PokemonCondition};
use pokemon_adventure::battle::engine::{execute_battle_action, resolve_turn};
use pokemon_adventure::battle::progression::{
    can_award_experience_in_battle, can_evolve_in_battle, can_learn_move_in_battle, can_level_up_in_battle,
    execute_learn_move, ProgressionError,
};
use pokemon_adventure::battle::runner::{
    check_submission, get_winner, is_battle_ended, players_needing_actions, validate_action_details,
    BattleRunnerError,
};
use pokemon_adventure::battle::state::{ActionFailureReason, BattleEvent, BattleState, EventBus, GameState, TurnRng};
use pokemon_adventure::battle::stats::{apply_stat_stage_multiplier, calculate_attack_damage};
use pokemon_adventure::moves::Move;
use pokemon_adventure::player::{BattlePlayer, PlayerAction, PlayerType, StatStages, TeamConditions};
use pokemon_adventure::pokemon::{MoveInstance, PokemonInst, StatusCondition};
use pokemon_adventure::species::Species;

fn rules_pokemon(species: Species, status: Option<StatusCondition>) -> PokemonInst {
    let moves = [Some(MoveInstance::new(Move::Tackle)), Some(MoveInstance::new(Move::Growl)), None, None];
    PokemonInst::new_for_test(species, 20, 0, 100, [15; 6], [0; 6], [100, 80, 60, 80, 60, 100], moves, status)
}

fn rules_player(team: [Option<PokemonInst>; 6]) -> BattlePlayer {
    BattlePlayer {
        player_id: "p".to_string(),
        player_name: "P".to_string(),
        player_type: PlayerType::NPC,
        team,
        active_pokemon_index: 0,
        stat_stages: StatStages::new(),
        team_conditions: TeamConditions::new(),
        active_pokemon_conditions: ConditionSet::new(),
        last_move: None,
        ante: 0,
    }
}

fn rules_state(status: Option<StatusCondition>) -> BattleState {
    let p1 = rules_player([
        Some(rules_pokemon(Species::Pikachu, status)),
        Some(rules_pokemon(Species::Squirtle, None)),
        None,
        None,
        None,
        None,
    ]);
    let p2 = rules_player([Some(rules_pokemon(Species::Charmander, None)), None, None, None, None, None]);
    BattleState::new("rules".to_string(), p1, p2)
}

#[test]
fn paralysis_roll_below_25_prevents_action() {
    let state = rules_state(Some(StatusCondition::Paralysis));
    let mut rng = TurnRng::new_for_test(vec![24]);
    let (reason, _) = calculate_action_prevention(0, &state, &mut rng, Move::Tackle);
    assert_eq!(reason, Some(ActionFailureReason::IsParalyzed { pokemon: Species::Pikachu }));
    let mut rng = TurnRng::new_for_test(vec![25]);
    let (reason, _) = calculate_action_prevention(0, &state, &mut rng, Move::Tackle);
    assert_eq!(reason, None);
}

#[test]
fn confusion_roll_below_50_prevents_action() {
    let mut state = rules_state(None);
    state.players[0].add_condition(PokemonCondition::Confused { turns_remaining: 2 });
    let mut rng = TurnRng::new_for_test(vec![49]);
    let (reason, _) = calculate_action_prevention(0, &state, &mut rng, Move::Tackle);
    assert_eq!(reason, Some(ActionFailureReason::IsConfused { pokemon: Species::Pikachu }));
    let mut rng = TurnRng::new_for_test(vec![50]);
    let (reason, _) = calculate_action_prevention(0, &state, &mut rng, Move::Tackle);
    assert_eq!(reason, None);
}

#[test]
fn sleep_and_exhaustion_prevent_action() {
    let state = rules_state(Some(StatusCondition::Sleep(2)));
    let mut rng = TurnRng::new_for_test(vec![]);
    let (reason, commands) = calculate_action_prevention(0, &state, &mut rng, Move::Tackle);
    assert_eq!(reason, Some(ActionFailureReason::IsAsleep { pokemon: Species::Pikachu }));
    assert_eq!(commands.len(), 1);
    assert!(matches!(commands[0], BattleCommand::UpdateStatusProgress { target: PlayerTarget::Player1 }));

    let mut state = rules_state(None);
    state.players[0].add_condition(PokemonCondition::Exhausted { turns_remaining: 1 });
    let mut rng = TurnRng::new_for_test(vec![]);
    let (reason, _) = calculate_action_prevention(0, &state, &mut rng, Move::Tackle);
    assert_eq!(reason, Some(ActionFailureReason::IsExhausted { pokemon: Species::Pikachu }));
}

#[test]
fn frozen_thaws_on_low_roll() {
    let state = rules_state(Some(StatusCondition::Freeze));
    let mut rng = TurnRng::new_for_test(vec![25]);
    let (reason, commands) = calculate_action_prevention(0, &state, &mut rng, Move::Tackle);
    assert_eq!(reason, None);
    assert!(matches!(commands[0], BattleCommand::CurePokemonStatus { status: StatusCondition::Freeze, .. }));
    let mut rng = TurnRng::new_for_test(vec![26]);
    let (reason, commands) = calculate_action_prevention(0, &state, &mut rng, Move::Tackle);
    assert_eq!(reason, Some(ActionFailureReason::IsFrozen { pokemon: Species::Pikachu }));
    assert!(!commands.iter().any(|c| matches!(c, BattleCommand::CurePokemonStatus { .. })));
}

#[test]
fn refusal_text_names_player_and_state() {
    let mut state = rules_state(None);
    state.game_state = GameState::WaitingForPlayer1Replacement;
    assert_eq!(
        check_submission(&state, 1, false, &PlayerAction::SwitchPokemon { team_index: 1 }),
        Err(BattleRunnerError::InvalidActionForGameState(
            "Player 1 cannot submit actions in state WaitingForPlayer1Replacement".to_string()
        ))
    );
}

#[test]
fn end_turn_trapped_and_seeded_damage() {
    let mut state = rules_state(None);
    state.players[0].add_condition(PokemonCondition::Trapped { turns_remaining: 2 });
    state.players[1].add_condition(PokemonCondition::Seeded);
    let mut rng = TurnRng::new_for_test(vec![]);
    let commands = calculate_end_turn_commands(&state, &mut rng);
    assert!(commands.iter().any(|c| matches!(
        c,
        BattleCommand::DealConditionDamage { target: PlayerTarget::Player1, amount: 6, .. }
    )));
    assert!(commands.iter().any(|c| matches!(
        c,
        BattleCommand::DealConditionDamage { target: PlayerTarget::Player2, amount: 12, .. }
    )));
    let mut bus = EventBus::new();
    let mut stack = ActionStack::new();
    assert!(execute_command_batch(commands, &mut state, &mut bus, &mut stack).is_ok());
    assert_eq!(state.players[0].active_pokemon().unwrap().current_hp(), 94);
    assert_eq!(state.players[1].active_pokemon().unwrap().current_hp(), 88);
    assert!(!commands_heal_player_one_when_full());
}

fn commands_heal_player_one_when_full() -> bool {
    let mut state = rules_state(None);
    state.players[1].add_condition(PokemonCondition::Seeded);
    let mut rng = TurnRng::new_for_test(vec![]);
    calculate_end_turn_commands(&state, &mut rng)
        .iter()
        .any(|c| matches!(c, BattleCommand::HealPokemon { target: PlayerTarget::Player1, .. }))
}

#[test]
fn seeded_drain_heals_a_hurt_opponent() {
    let mut state = rules_state(None);
    state.players[1].add_condition(PokemonCondition::Seeded);
    state.players[0].team[0].as_mut().unwrap().take_damage(50);
    let mut rng = TurnRng::new_for_test(vec![]);
    let commands = calculate_end_turn_commands(&state, &mut rng);
    assert!(commands.iter().any(|c| matches!(
        c,
        BattleCommand::HealPokemon { target: PlayerTarget::Player1, amount: 12 }
    )));
}

#[test]
fn runner_reports_end_and_winner() {
    assert!(is_battle_ended(GameState::Player1Win));
    assert!(is_battle_ended(GameState::Draw));
    assert!(!is_battle_ended(GameState::WaitingForActions));
    assert_eq!(get_winner(GameState::Player1Win), Some(0));
    assert_eq!(get_winner(GameState::Player2Win), Some(1));
    assert_eq!(get_winner(GameState::Draw), None);
    assert_eq!(players_needing_actions(GameState::WaitingForActions, [false, true]), vec![0]);
    assert_eq!(players_needing_actions(GameState::WaitingForPlayer2Replacement, [false, false]), vec![1]);
    assert!(players_needing_actions(GameState::Player2Win, [false, false]).is_empty());
}

#[test]
fn runner_checks_submissions() {
    let mut state = rules_state(None);
    assert_eq!(
        check_submission(&state, 2, false, &PlayerAction::Forfeit),
        Err(BattleRunnerError::InvalidPlayerIndex(2))
    );
    assert_eq!(
        check_submission(&state, 0, true, &PlayerAction::Forfeit),
        Err(BattleRunnerError::PlayerAlreadySubmitted(0))
    );
    assert_eq!(check_submission(&state, 0, false, &PlayerAction::UseMove { move_index: 0 }), Ok(()));
    assert_eq!(
        check_submission(&state, 0, false, &PlayerAction::UseMove { move_index: 3 }),
        Err(BattleRunnerError::InvalidPlayerAction("No move in that slot".to_string()))
    );
    assert_eq!(
        validate_action_details(&state, 0, &PlayerAction::SwitchPokemon { team_index: 0 }),
        Err(BattleRunnerError::InvalidPlayerAction("Pokemon is already active".to_string()))
    );
    assert_eq!(
        validate_action_details(&state, 0, &PlayerAction::SwitchPokemon { team_index: 4 }),
        Err(BattleRunnerError::InvalidPlayerAction("No Pokemon in that team slot".to_string()))
    );
    state.game_state = GameState::WaitingForPlayer1Replacement;
    assert_eq!(
        check_submission(&state, 0, false, &PlayerAction::UseMove { move_index: 0 }),
        Err(BattleRunnerError::InvalidActionForGameState(
            "Only switch actions allowed during forced replacement".to_string()
        ))
    );
    assert!(matches!(
        check_submission(&state, 1, false, &PlayerAction::Forfeit),
        Err(BattleRunnerError::InvalidActionForGameState(_))
    ));
    state.game_state = GameState::Player2Win;
    assert_eq!(
        check_submission(&state, 0, false, &PlayerAction::Forfeit),
        Err(BattleRunnerError::GameNotAcceptingActions)
    );
}

#[test]
fn progression_checks_slots() {
    let mut state = rules_state(None);
    assert_eq!(can_award_experience_in_battle(PlayerTarget::Player1, 0, &state), Ok(()));
    assert_eq!(can_level_up_in_battle(PlayerTarget::Player1, 1, &state), Ok(()));
    assert_eq!(
        can_award_experience_in_battle(PlayerTarget::Player1, 6, &state),
        Err(ProgressionError::InvalidIndices { player_index: 0, pokemon_index: 6 })
    );
    assert_eq!(
        can_learn_move_in_battle(PlayerTarget::Player2, 3, &state),
        Err(ProgressionError::NoPokemon { player_index: 1, pokemon_index: 3 })
    );
    assert_eq!(can_evolve_in_battle(PlayerTarget::Player2, 0, &state), Ok(()));
    state.players[0].team[1].as_mut().unwrap().level = 100;
    assert_eq!(
        can_level_up_in_battle(PlayerTarget::Player1, 1, &state),
        Err(ProgressionError::MaxLevel { pokemon: Species::Squirtle, level: 100 })
    );
    state.players[0].team[0].as_mut().unwrap().take_damage(500);
    assert_eq!(
        can_award_experience_in_battle(PlayerTarget::Player1, 0, &state),
        Err(ProgressionError::PokemonFainted { player_index: 0, pokemon: Species::Pikachu })
    );
}

#[test]
fn switch_goes_before_move() {
    let mut state = rules_state(None);
    state.action_queue[0] = Some(PlayerAction::UseMove { move_index: 0 });
    state.action_queue[1] = Some(PlayerAction::Forfeit);
    let stack = ActionStack::build_initial(&state);
    assert_eq!(stack.len(), 2);
    state.action_queue[0] = Some(PlayerAction::SwitchPokemon { team_index: 1 });
    state.action_queue[1] = Some(PlayerAction::UseMove { move_index: 0 });
    let mut stack = ActionStack::build_initial(&state);
    assert!(matches!(stack.pop_front(), Some(BattleAction::Switch { player_index: 0, target_pokemon_index: 1 })));
    assert!(matches!(stack.pop_front(), Some(BattleAction::AttackHit { attacker_index: 1, .. })));
}

#[test]
fn stage_multiplier_never_decreases_with_stage() {
    for base in [0u16, 1, 7, 100, 255, 9999] {
        let mut last = 0u16;
        for stage in -8i8..=8 {
            let v = apply_stat_stage_multiplier(base, stage);
            assert!(v >= last);
            last = v;
        }
        assert_eq!(apply_stat_stage_multiplier(base, 0), base);
    }
}

#[test]
fn critical_hit_damage_is_at_least_normal() {
    let state = rules_state(None);
    let attacker = state.players[0].active_pokemon().unwrap().clone();
    let defender = state.players[1].active_pokemon().unwrap().clone();
    for roll in [0u8, 7, 15, 50, 100] {
        let mut r1 = TurnRng::new_for_test(vec![roll]);
        let mut r2 = TurnRng::new_for_test(vec![roll]);
        let normal = calculate_attack_damage(
            &attacker, &defender, &state.players[0], &state.players[1], Move::Tackle, false, &mut r1,
        );
        let critical = calculate_attack_damage(
            &attacker, &defender, &state.players[0], &state.players[1], Move::Tackle, true, &mut r2,
        );
        assert!(normal >= 1);
        assert!(critical >= normal);
    }
}

#[test]
fn failed_command_leaves_events_alone() {
    let mut state = rules_state(None);
    let mut bus = EventBus::new();
    bus.push(BattleEvent::TurnEnded);
    let mut stack = ActionStack::new();
    let result = execute_command_batch(
        vec![BattleCommand::SwitchPokemon { target: PlayerTarget::Player2, new_pokemon_index: 3 }],
        &mut state,
        &mut bus,
        &mut stack,
    );
    assert!(result.is_err());
    assert_eq!(bus.len(), 1);
    assert_eq!(state.players[1].active_pokemon_index, 0);
}

#[test]
fn turn_events_are_bracketed() {
    let mut state = rules_state(None);
    state.turn_number = 7;
    state.action_queue[0] = Some(PlayerAction::UseMove { move_index: 1 });
    state.action_queue[1] = Some(PlayerAction::UseMove { move_index: 1 });
    let bus = resolve_turn(&mut state, TurnRng::new_random());
    let events = bus.events();
    assert!(matches!(events[0], BattleEvent::TurnStarted { turn_number: 7 }));
    assert!(matches!(events[events.len() - 1], BattleEvent::TurnEnded));
    assert_eq!(state.turn_number, 8);
    assert_eq!(state.battle_id, "rules");
}

#[test]
fn random_source_rolls_stay_in_range() {
    let mut rng = TurnRng::new_random();
    assert_eq!(rng.remaining_len(), 100);
    for _ in 0..100 {
        let roll = rng.next_outcome("range check");
        assert!((1..=100).contains(&roll));
    }
    assert_eq!(rng.remaining_len(), 0);
}

#[test]
fn forfeit_hands_victory_to_opponent() {
    let mut state = rules_state(None);
    let mut stack = ActionStack::new();
    let mut bus = EventBus::new();
    let mut rng = TurnRng::new_for_test(vec![]);
    execute_battle_action(BattleAction::Forfeit { player_index: 0 }, &mut state, &mut stack, &mut bus, &mut rng);
    assert_eq!(state.game_state, GameState::Player2Win);
    assert_eq!(bus.len(), 2);
    assert!(matches!(bus.events()[0], BattleEvent::PlayerDefeated { player_index: 0 }));
    assert!(matches!(bus.events()[1], BattleEvent::BattleEnded { winner: Some(1) }));
}

#[test]
fn switch_resets_stages_and_conditions() {
    let mut state = rules_state(None);
    state.players[0].set_stat_stage(pokemon_adventure::schema::StatType::Atk, 3);
    state.players[0].add_condition(PokemonCondition::Confused { turns_remaining: 2 });
    let mut stack = ActionStack::new();
    let mut bus = EventBus::new();
    let mut rng = TurnRng::new_for_test(vec![]);
    execute_battle_action(
        BattleAction::Switch { player_index: 0, target_pokemon_index: 1 },
        &mut state,
        &mut stack,
        &mut bus,
        &mut rng,
    );
    assert_eq!(state.players[0].active_pokemon_index, 1);
    assert_eq!(state.players[0].get_stat_stage(pokemon_adventure::schema::StatType::Atk), 0);
    assert_eq!(state.players[0].active_pokemon_conditions.len(), 0);
    assert!(bus.events().iter().any(|e| matches!(
        e,
        BattleEvent::PokemonSwitched { player_index: 0, old_pokemon: Species::Pikachu, new_pokemon: Species::Squirtle }
    )));
}

#[test]
fn trapped_pokemon_cannot_switch_out() {
    let mut state = rules_state(None);
    state.players[0].add_condition(PokemonCondition::Trapped { turns_remaining: 2 });
    let mut stack = ActionStack::new();
    let mut bus = EventBus::new();
    let mut rng = TurnRng::new_for_test(vec![]);
    execute_battle_action(
        BattleAction::Switch { player_index: 0, target_pokemon_index: 1 },
        &mut state,
        &mut stack,
        &mut bus,
        &mut rng,
    );
    assert_eq!(state.players[0].active_pokemon_index, 0);
    assert!(matches!(
        bus.events()[0],
        BattleEvent::ActionFailed { reason: ActionFailureReason::IsTrapped { pokemon: Species::Pikachu } }
    ));
}

#[test]
fn valid_moves_and_switches_in_order() {
    let mut state = rules_state(None);
    state.players[0].team[0].as_mut().unwrap().moves[1] = Some(MoveInstance { move_: Move::Growl, pp: 0 });
    state.players[0].team[0].as_mut().unwrap().moves[3] = Some(MoveInstance { move_: Move::Ember, pp: 5 });
    assert_eq!(
        state.players[0].get_valid_moves(),
        vec![PlayerAction::UseMove { move_index: 0 }, PlayerAction::UseMove { move_index: 3 }]
    );
    state.players[0].team[3] = Some(rules_pokemon(Species::Pidgey, None));
    state.players[0].team[4] = Some(rules_pokemon(Species::Snorlax, None));
    state.players[0].team[4].as_mut().unwrap().take_damage(500);
    assert_eq!(
        state.players[0].get_valid_switches(),
        vec![PlayerAction::SwitchPokemon { team_index: 1 }, PlayerAction::SwitchPokemon { team_index: 3 }]
    );
}

#[test]
fn turn_that_ends_the_battle_keeps_the_counter() {
    let mut state = rules_state(None);
    state.turn_number = 7;
    state.action_queue[0] = Some(PlayerAction::Forfeit);
    state.action_queue[1] = Some(PlayerAction::UseMove { move_index: 1 });
    let bus = resolve_turn(&mut state, TurnRng::new_random());
    assert_eq!(state.game_state, GameState::Player2Win);
    assert_eq!(state.turn_number, 7);
    assert!(matches!(bus.events()[bus.events().len() - 1], BattleEvent::TurnEnded));
}

#[test]
fn learned_move_fills_first_empty_slot() {
    let mut state = rules_state(None);
    let r = execute_learn_move(PlayerTarget::Player1, 0, Move::Ember, None, &mut state);
    assert_eq!(r.unwrap().len(), 0);
    let moves = state.players[0].team[0].unwrap().moves;
    assert_eq!(moves[0].unwrap().move_, Move::Tackle);
    assert_eq!(moves[1].unwrap().move_, Move::Growl);
    assert_eq!(moves[2].unwrap().move_, Move::Ember);
    assert_eq!(moves[2].unwrap().pp, MoveInstance::new(Move::Ember).pp);
    assert!(moves[3].is_none());
}

#[test]
fn learned_move_replaces_named_slot_or_last_when_full() {
    let mut state = rules_state(None);
    execute_learn_move(PlayerTarget::Player1, 0, Move::Ember, Some(0), &mut state).unwrap();
    assert_eq!(state.players[0].team[0].unwrap().moves[0].unwrap().move_, Move::Ember);
    execute_learn_move(PlayerTarget::Player1, 0, Move::Scratch, None, &mut state).unwrap();
    execute_learn_move(PlayerTarget::Player1, 0, Move::Growl, None, &mut state).unwrap();
    execute_learn_move(PlayerTarget::Player1, 0, Move::Tackle, None, &mut state).unwrap();
    let moves = state.players[0].team[0].unwrap().moves;
    assert_eq!(moves[2].unwrap().move_, Move::Scratch);
    assert_eq!(moves[3].unwrap().move_, Move::Tackle);
}

#[test]
fn learn_move_errors() {
    let mut state = rules_state(None);
    assert_eq!(
        execute_learn_move(PlayerTarget::Player1, 0, Move::Ember, Some(4), &mut state).unwrap_err(),
        ExecutionError::InvalidMoveIndex
    );
    assert_eq!(
        execute_learn_move(PlayerTarget::Player2, 3, Move::Ember, None, &mut state).unwrap_err(),
        ExecutionError::NoPokemon
    );
    assert_eq!(state.players[0].team[0].unwrap().moves[0].unwrap().move_, Move::Tackle);
}
