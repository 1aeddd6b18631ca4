use pokemon_adventure::battle::action_stack::{ActionStack, BattleAction};
use pokemon_adventure::battle::calculators::calculate_end_turn_commands;
use pokemon_adventure::battle::commands::execute_command_batch;
use pokemon_adventure::battle::conditions::{PokemonCondition, PokemonConditionType};
use pokemon_adventure::battle::engine::execute_battle_action;
use pokemon_adventure::battle::state::{ActionFailureReason, BattleEvent, BattleState, EventBus, GameState, TurnRng};
use pokemon_adventure::moves::Move;
use pokemon_adventure::player::BattlePlayer;
use pokemon_adventure::pokemon::{MoveInstance, PokemonInst, StatusCondition};
use pokemon_adventure::schema::{BaseStats, ExperienceGroup, Learnset, PokemonSpecies, PokemonType};
use pokemon_adventure::species::Species;

fn phase_species(species: Species) -> PokemonSpecies {
    let (types, base) = match species {
        Species::Pikachu => (vec![PokemonType::Electric], [35, 55, 30, 50, 50, 90]),
        _ => (vec![PokemonType::Fire], [39, 52, 43, 60, 50, 65]),
    };
    PokemonSpecies {
        pokedex_number: 0,
        name: String::new(),
        types,
        base_stats: BaseStats {
            hp: base[0],
            attack: base[1],
            defense: base[2],
            sp_attack: base[3],
            sp_defense: base[4],
            speed: base[5],
        },
        learnset: Learnset { level_up: vec![], signature: None, can_learn: vec![] },
        catch_rate: 190,
        base_exp: 100,
        experience_group: ExperienceGroup::MediumFast,
        description: String::new(),
        evolution_data: None,
    }
}

fn prevention_state(attacker_status: Option<StatusCondition>, attacker_conditions: Vec<PokemonCondition>) -> BattleState {
    let moves = Some([Some(MoveInstance::new(Move::Tackle)), None, None, None]);
    let mut pikachu = PokemonInst::new(Species::Pikachu, &phase_species(Species::Pikachu), 25, None, moves);
    let charmander = PokemonInst::new(Species::Charmander, &phase_species(Species::Charmander), 25, None, moves);
    pikachu.status = attacker_status;
    let mut player1 = BattlePlayer::new("p1".to_string(), "Player 1".to_string(), vec![pikachu]);
    let player2 = BattlePlayer::new("p2".to_string(), "Player 2".to_string(), vec![charmander]);
    for condition in attacker_conditions {
        player1.add_condition(condition);
    }
    let mut state = BattleState::new("test".to_string(), player1, player2);
    state.game_state = GameState::TurnInProgress;
    state
}

fn attack(state: &mut BattleState, rolls: Vec<u8>) -> EventBus {
    let mut bus = EventBus::new();
    let mut rng = TurnRng::new_for_test(rolls);
    let mut action_stack = ActionStack::new();
    execute_battle_action(
        BattleAction::AttackHit { attacker_index: 0, defender_index: 1, move_used: Move::Tackle, hit_number: 0 },
        state,
        &mut action_stack,
        &mut bus,
        &mut rng,
    );
    bus
}

fn damage_pokemon(species: Species, hp: u16) -> PokemonInst {
    let mut pokemon = PokemonInst::new(species, &phase_species(species), 50, Some([15; 6]), None);
    pokemon.curr_hp = hp.min(pokemon.max_hp());
    pokemon
}

fn damage_state(player1_hp: u16, player2_hp: u16) -> BattleState {
    let player1 = BattlePlayer::new("player1".to_string(), "Player 1".to_string(), vec![damage_pokemon(Species::Pikachu, player1_hp)]);
    let player2 = BattlePlayer::new(
        "player2".to_string(),
        "Player 2".to_string(),
        vec![damage_pokemon(Species::Charmander, player2_hp)],
    );
    BattleState::new("test_battle".to_string(), player1, player2)
}

fn end_turn(state: &mut BattleState, bus: &mut EventBus, rng: &mut TurnRng) {
    let commands = calculate_end_turn_commands(state, rng);
    let mut stack = ActionStack::new();
    let _ = execute_command_batch(commands, state, bus, &mut stack);
}

#[test]
fn test_sleep_prevents_action() {
    let mut state = prevention_state(Some(StatusCondition::Sleep(2)), vec![]);
    let bus = attack(&mut state, vec![128]);
    let events = bus.events();
    assert_eq!(events.len(), 1);
    assert!(matches!(events[0], BattleEvent::ActionFailed { reason: ActionFailureReason::IsAsleep { .. } }));
}

#[test]
fn test_paralysis_sometimes_prevents_action() {
    let mut state = prevention_state(Some(StatusCondition::Paralysis), vec![]);
    let bus = attack(&mut state, vec![24]);
    let events = bus.events();
    assert_eq!(events.len(), 1);
    assert!(matches!(events[0], BattleEvent::ActionFailed { reason: ActionFailureReason::IsParalyzed { .. } }));
}

#[test]
fn test_paralysis_sometimes_allows_action() {
    let mut state = prevention_state(Some(StatusCondition::Paralysis), vec![]);
    let bus = attack(&mut state, vec![25, 75, 60, 80, 90, 85]);
    let events = bus.events();
    assert!(events.len() >= 1);
    assert!(matches!(events[0], BattleEvent::MoveUsed { .. }));
}

#[test]
fn test_confusion_sometimes_prevents_action() {
    let mut state = prevention_state(None, vec![PokemonCondition::Confused { turns_remaining: 2 }]);
    let bus = attack(&mut state, vec![49, 75, 90, 80]);
    let events = bus.events();
    assert_eq!(events.len(), 1);
    assert!(matches!(events[0], BattleEvent::ActionFailed { reason: ActionFailureReason::IsConfused { .. } }));
}

#[test]
fn test_confusion_sometimes_allows_action() {
    let mut state = prevention_state(None, vec![PokemonCondition::Confused { turns_remaining: 2 }]);
    let bus = attack(&mut state, vec![50, 75, 60, 80, 90, 85]);
    let events = bus.events();
    assert!(events.len() >= 1);
    assert!(matches!(events[0], BattleEvent::MoveUsed { .. }));
}

#[test]
fn test_exhausted_prevents_action() {
    let mut state = prevention_state(None, vec![PokemonCondition::Exhausted { turns_remaining: 1 }]);
    let bus = attack(&mut state, vec![75, 85, 60]);
    let events = bus.events();
    assert_eq!(events.len(), 1);
    assert!(matches!(events[0], BattleEvent::ActionFailed { reason: ActionFailureReason::IsExhausted { .. } }));
}

#[test]
fn test_multiple_conditions_priority() {
    let mut state = prevention_state(Some(StatusCondition::Sleep(1)), vec![PokemonCondition::Flinched]);
    let bus = attack(&mut state, vec![75]);
    let events = bus.events();
    assert_eq!(events.len(), 1);
    assert!(matches!(events[0], BattleEvent::ActionFailed { reason: ActionFailureReason::IsAsleep { .. } }));
}

#[test]
fn test_no_preventing_conditions_allows_action() {
    let mut state = prevention_state(None, vec![]);
    let bus = attack(&mut state, vec![75, 60, 80]);
    let events = bus.events();
    assert!(events.len() >= 1);
    assert!(matches!(events[0], BattleEvent::MoveUsed { .. }));
    for event in events {
        assert!(!matches!(event, BattleEvent::ActionFailed { .. }));
    }
}

#[test]
fn test_trapped_condition_damage() {
    let mut state = damage_state(100, 100);
    let mut bus = EventBus::new();
    let mut rng = TurnRng::new_for_test(vec![50]);
    state.players[0].add_condition(PokemonCondition::Trapped { turns_remaining: 3 });
    let initial_hp = state.players[0].team[0].as_ref().unwrap().current_hp();
    let max_hp = state.players[0].team[0].as_ref().unwrap().max_hp();
    let expected_damage = (max_hp / 16).max(1);
    end_turn(&mut state, &mut bus, &mut rng);
    let final_hp = state.players[0].team[0].as_ref().unwrap().current_hp();
    assert_eq!(final_hp, initial_hp - expected_damage, "Pokemon should take trapped damage");
    let has_status_damage = bus.events().iter().any(|e| {
        matches!(e, BattleEvent::StatusDamage {
            target: Species::Pikachu,
            status: PokemonCondition::Trapped { .. },
            damage
        } if *damage == expected_damage)
    });
    assert!(has_status_damage, "Should generate StatusDamage event for trapped condition");
}

#[test]
fn test_trapped_condition_causes_fainting() {
    let mut state = damage_state(5, 100);
    let mut bus = EventBus::new();
    let mut rng = TurnRng::new_for_test(vec![50]);
    state.players[0].add_condition(PokemonCondition::Trapped { turns_remaining: 2 });
    end_turn(&mut state, &mut bus, &mut rng);
    let pokemon = state.players[0].team[0].as_ref().unwrap();
    assert!(pokemon.is_fainted(), "Pokemon should faint from trapped damage");
    assert_eq!(pokemon.current_hp(), 0, "Pokemon HP should be 0");
    let has_fainted_event = bus
        .events()
        .iter()
        .any(|e| matches!(e, BattleEvent::PokemonFainted { player_index: 0, pokemon: Species::Pikachu }));
    assert!(has_fainted_event, "Should generate PokemonFainted event");
}

#[test]
fn test_seeded_condition_causes_fainting_and_heals_opponent() {
    let mut state = damage_state(3, 100);
    let mut bus = EventBus::new();
    let mut rng = TurnRng::new_for_test(vec![50]);
    state.players[0].add_condition(PokemonCondition::Seeded);
    let p1 = state.players[0].team[0].as_ref().unwrap();
    let max_hp_p1 = p1.max_hp();
    let current_hp_p1 = p1.current_hp();
    let potential_drain = (max_hp_p1 / 8).max(1);
    let actual_damage_dealt = potential_drain.min(current_hp_p1);
    let expected_healing = actual_damage_dealt;
    let initial_hp_p2 = state.players[1].team[0].as_ref().unwrap().current_hp();
    end_turn(&mut state, &mut bus, &mut rng);
    assert!(state.players[0].team[0].as_ref().unwrap().is_fainted());
    let final_hp_p2 = state.players[1].team[0].as_ref().unwrap().current_hp();
    assert_eq!(final_hp_p2, initial_hp_p2 + expected_healing);
    let events = bus.events();
    let has_fainted_event = events.iter().any(|e| matches!(e, BattleEvent::PokemonFainted { player_index: 0, .. }));
    let has_heal_event = events.iter().any(|e| {
        matches!(e, BattleEvent::PokemonHealed { target: Species::Charmander, amount, .. } if *amount == expected_healing)
    });
    assert!(has_fainted_event, "A PokemonFainted event should have been generated for player 0.");
    assert!(has_heal_event);
}

#[test]
fn test_seeded_no_heal_when_opponent_at_full_hp() {
    let mut state = damage_state(100, 100);
    let mut bus = EventBus::new();
    let mut rng = TurnRng::new_for_test(vec![50]);
    let p2 = state.players[1].team[0].as_mut().unwrap();
    p2.curr_hp = p2.max_hp();
    state.players[0].add_condition(PokemonCondition::Seeded);
    let initial_hp_p2 = state.players[1].team[0].as_ref().unwrap().current_hp();
    end_turn(&mut state, &mut bus, &mut rng);
    assert!(state.players[0].team[0].as_ref().unwrap().current_hp() < 100, "Seeded Pokemon should take drain damage");
    let final_hp_p2 = state.players[1].team[0].as_ref().unwrap().current_hp();
    assert_eq!(final_hp_p2, initial_hp_p2, "Opponent at full HP should not be healed");
    let events = bus.events();
    let has_drain_damage = events.iter().any(|e| {
        matches!(e, BattleEvent::StatusDamage { target: Species::Pikachu, status: PokemonCondition::Seeded, .. })
    });
    let has_heal_event = events.iter().any(|e| matches!(e, BattleEvent::PokemonHealed { .. }));
    assert!(has_drain_damage, "Should have drain damage event");
    assert!(!has_heal_event, "Should not have heal event when opponent is at full HP");
}

#[test]
fn test_both_conditions_simultaneously() {
    let mut state = damage_state(100, 80);
    let mut bus = EventBus::new();
    let mut rng = TurnRng::new_for_test(vec![50]);
    state.players[0].add_condition(PokemonCondition::Trapped { turns_remaining: 2 });
    state.players[0].add_condition(PokemonCondition::Seeded);
    let initial_hp_p1 = state.players[0].team[0].as_ref().unwrap().current_hp();
    let initial_hp_p2 = state.players[1].team[0].as_ref().unwrap().current_hp();
    let max_hp = state.players[0].team[0].as_ref().unwrap().max_hp();
    let expected_trapped_damage = (max_hp / 16).max(1);
    let expected_seed_damage = (max_hp / 8).max(1);
    let total_expected_damage = expected_trapped_damage + expected_seed_damage;
    end_turn(&mut state, &mut bus, &mut rng);
    let final_hp_p1 = state.players[0].team[0].as_ref().unwrap().current_hp();
    assert_eq!(final_hp_p1, initial_hp_p1 - total_expected_damage, "Should take damage from both conditions");
    let final_hp_p2 = state.players[1].team[0].as_ref().unwrap().current_hp();
    assert_eq!(final_hp_p2, initial_hp_p2 + expected_seed_damage, "Should only be healed by seed drain");
    let events = bus.events();
    let trapped_events = events
        .iter()
        .filter(|e| matches!(e, BattleEvent::StatusDamage { status: PokemonCondition::Trapped { .. }, .. }))
        .count();
    let seeded_events = events
        .iter()
        .filter(|e| matches!(e, BattleEvent::StatusDamage { status: PokemonCondition::Seeded, .. }))
        .count();
    let heal_events = events.iter().filter(|e| matches!(e, BattleEvent::PokemonHealed { .. })).count();
    assert_eq!(trapped_events, 1, "Should have one trapped damage event");
    assert_eq!(seeded_events, 1, "Should have one seeded damage event");
    assert_eq!(heal_events, 1, "Should have one heal event");
}

#[test]
fn test_no_damage_when_no_conditions() {
    let mut state = damage_state(100, 80);
    let mut bus = EventBus::new();
    let mut rng = TurnRng::new_for_test(vec![50]);
    let initial_hp_p1 = state.players[0].team[0].as_ref().unwrap().current_hp();
    let initial_hp_p2 = state.players[1].team[0].as_ref().unwrap().current_hp();
    end_turn(&mut state, &mut bus, &mut rng);
    assert_eq!(state.players[0].team[0].as_ref().unwrap().current_hp(), initial_hp_p1, "Player 1 HP should not change");
    assert_eq!(state.players[1].team[0].as_ref().unwrap().current_hp(), initial_hp_p2, "Player 2 HP should not change");
    let events = bus.events();
    let condition_damage_events = events
        .iter()
        .filter(|e| {
            matches!(e, BattleEvent::StatusDamage { status: PokemonCondition::Trapped { .. } | PokemonCondition::Seeded, .. })
        })
        .count();
    let heal_events = events.iter().filter(|e| matches!(e, BattleEvent::PokemonHealed { .. })).count();
    assert_eq!(condition_damage_events, 0, "Should have no condition damage events");
    assert_eq!(heal_events, 0, "Should have no heal events");
}

#[test]
fn immune_defender_is_untouched() {
    let mut state = prevention_state(None, vec![]);
    state.players[1].team[0].as_mut().unwrap().primary_type = PokemonType::GhostType;
    state.players[1].team[0].as_mut().unwrap().secondary_type = None;
    let before = state.players[1].team[0].as_ref().unwrap().current_hp();
    let bus = attack(&mut state, vec![75, 60, 80]);
    let events = bus.events();
    assert!(matches!(events[events.len() - 1], BattleEvent::AttackTypeEffectiveness { multiplier_percent: 0 }));
    assert_eq!(state.players[1].team[0].as_ref().unwrap().current_hp(), before);
    assert_eq!(state.players[0].team[0].as_ref().unwrap().moves[0].unwrap().pp, 34);
}

#[test]
fn test_frozen_defrost_25_percent_chance() {
    let mut state = prevention_state(Some(StatusCondition::Freeze), vec![]);
    let bus = attack(&mut state, vec![25, 75, 60, 80, 90, 85]);
    let pokemon = state.players[0].team[state.players[0].active_pokemon_index].as_ref().unwrap();
    assert_eq!(pokemon.status, None);
    assert!(bus.events().iter().any(|e| matches!(
        e,
        BattleEvent::PokemonStatusRemoved { target: Species::Pikachu, status: StatusCondition::Freeze }
    )));
}

#[test]
fn test_frozen_no_defrost_75_percent_chance() {
    let mut state = prevention_state(Some(StatusCondition::Freeze), vec![]);
    let bus = attack(&mut state, vec![26]);
    let pokemon = state.players[0].team[state.players[0].active_pokemon_index].as_ref().unwrap();
    assert_eq!(pokemon.status, Some(StatusCondition::Freeze));
    assert!(!bus.events().iter().any(|e| matches!(
        e,
        BattleEvent::PokemonStatusRemoved { status: StatusCondition::Freeze, .. }
    )));
}

#[test]
fn test_active_condition_timers() {
    let species_data = phase_species(Species::Pikachu);
    let pokemon = PokemonInst::new(Species::Pikachu, &species_data, 25, None, None);
    let player = BattlePlayer::new("test".to_string(), "Test".to_string(), vec![pokemon]);
    let other = BattlePlayer::new(
        "other".to_string(),
        "Other".to_string(),
        vec![PokemonInst::new(Species::Charmander, &phase_species(Species::Charmander), 25, None, None)],
    );
    let mut state = BattleState::new("timers".to_string(), player, other);
    state.players[0].add_condition(PokemonCondition::Confused { turns_remaining: 3 });
    state.players[0].add_condition(PokemonCondition::Trapped { turns_remaining: 2 });
    state.players[0].add_condition(PokemonCondition::Flinched);

    let expired = tick_conditions(&mut state);
    assert_eq!(expired.len(), 1);
    assert!(matches!(expired[0], PokemonCondition::Flinched));
    assert!(!state.players[0].has_condition_type(PokemonConditionType::Flinched));
    match state.players[0].active_pokemon_conditions.get(PokemonConditionType::Confused) {
        Some(PokemonCondition::Confused { turns_remaining }) => assert_eq!(turns_remaining, 2),
        other => panic!("Expected Confused condition, got: {:?}", other),
    }
    match state.players[0].active_pokemon_conditions.get(PokemonConditionType::Trapped) {
        Some(PokemonCondition::Trapped { turns_remaining }) => assert_eq!(turns_remaining, 1),
        _ => panic!("Trapped condition should exist with 1 turn remaining"),
    }

    let expired = tick_conditions(&mut state);
    assert_eq!(expired.len(), 1);
    assert!(matches!(expired[0], PokemonCondition::Trapped { turns_remaining: 1 }));
    match state.players[0].active_pokemon_conditions.get(PokemonConditionType::Confused) {
        Some(PokemonCondition::Confused { turns_remaining }) => assert_eq!(turns_remaining, 1),
        _ => panic!("Confused condition should exist with 1 turn remaining"),
    }

    let expired = tick_conditions(&mut state);
    assert_eq!(expired.len(), 1);
    assert!(matches!(expired[0], PokemonCondition::Confused { turns_remaining: 1 }));
    assert_eq!(state.players[0].active_pokemon_conditions.len(), 0);
}

fn tick_conditions(state: &mut BattleState) -> Vec<PokemonCondition> {
    let mut bus = EventBus::new();
    let mut rng = TurnRng::new_for_test(vec![]);
    end_turn(state, &mut bus, &mut rng);
    bus.events()
        .iter()
        .filter_map(|e| match e {
            BattleEvent::ConditionExpired { condition, .. } => Some(*condition),
            _ => None,
        })
        .collect()
}

#[test]
fn enraged_pokemon_calms_down_when_it_uses_another_move() {
    let mut state = prevention_state(None, vec![PokemonCondition::Enraged]);
    state.players[0].last_move = Some(Move::Rage);
    let bus = attack(&mut state, vec![50; 20]);
    assert!(!state.players[0].has_condition_type(PokemonConditionType::Enraged));
    assert!(bus.events().iter().any(|e| matches!(
        e,
        BattleEvent::StatusRemoved { target: Species::Pikachu, status: PokemonCondition::Enraged }
    )));
    assert_eq!(state.players[0].last_move, Some(Move::Tackle));
}

#[test]
fn enraged_pokemon_stays_enraged_when_it_repeats_its_move() {
    let mut state = prevention_state(None, vec![PokemonCondition::Enraged]);
    state.players[0].last_move = Some(Move::Tackle);
    let bus = attack(&mut state, vec![50; 20]);
    assert!(state.players[0].has_condition_type(PokemonConditionType::Enraged));
    assert!(!bus.events().iter().any(|e| matches!(
        e,
        BattleEvent::StatusRemoved { status: PokemonCondition::Enraged, .. }
    )));
}
