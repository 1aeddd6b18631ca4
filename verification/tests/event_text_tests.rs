use pokemon_adventure::battle::event_text::{format_event, move_name, status_applied, status_removed};
use pokemon_adventure::battle::state::{BattleEvent, BattleState, GameState};
use pokemon_adventure::moves::Move;
use pokemon_adventure::player::BattlePlayer;
use pokemon_adventure::pokemon::{PokemonInst, StatusCondition};
use pokemon_adventure::schema::{BaseStats, ExperienceGroup, Learnset, PokemonSpecies, PokemonType};
use pokemon_adventure::species::Species;

fn text_species(types: Vec<PokemonType>, base: [u8; 6]) -> PokemonSpecies {
    PokemonSpecies {
        pokedex_number: 0,
        name: String::new(),
        types,
        base_stats: BaseStats {
            hp: base[0],
            attack: base[1],
            defense: base[2],
            sp_attack: base[3],
            sp_defense: base[4],
            speed: base[5],
        },
        learnset: Learnset { level_up: vec![], signature: None, can_learn: vec![] },
        catch_rate: 45,
        base_exp: 64,
        experience_group: ExperienceGroup::MediumFast,
        description: String::new(),
        evolution_data: None,
    }
}

fn text_state() -> BattleState {
    let pikachu_data = text_species(vec![PokemonType::Electric], [35, 55, 30, 50, 50, 90]);
    let charmander_data = text_species(vec![PokemonType::Fire], [39, 52, 43, 60, 50, 65]);
    let pikachu = PokemonInst::new(Species::Pikachu, &pikachu_data, 25, None, None);
    let charmander = PokemonInst::new(Species::Charmander, &charmander_data, 25, None, None);
    let player1 = BattlePlayer::new("p1".to_string(), "Player 1".to_string(), vec![pikachu]);
    let player2 = BattlePlayer::new("p2".to_string(), "Player 2".to_string(), vec![charmander]);
    let mut state = BattleState::new("test".to_string(), player1, player2);
    state.game_state = GameState::TurnInProgress;
    state
}

#[test]
fn test_silent_events_return_none() {
    let battle_state = text_state();
    let silent_events = vec![
        BattleEvent::TurnEnded,
        BattleEvent::MoveHit { attacker: Species::Pikachu, defender: Species::Charmander, move_used: Move::Tackle },
        BattleEvent::AttackTypeEffectiveness { multiplier_percent: 100 },
    ];
    for event in silent_events {
        assert!(format_event(&event, &battle_state).is_none(), "Event {:?} should be silent but returned text", event);
    }
}

#[test]
fn test_formatted_events_return_some() {
    let battle_state = text_state();
    let formatted_events = vec![
        BattleEvent::TurnStarted { turn_number: 1 },
        BattleEvent::CriticalHit { attacker: Species::Pikachu, defender: Species::Charmander, move_used: Move::Tackle },
        BattleEvent::AttackTypeEffectiveness { multiplier_percent: 200 },
        BattleEvent::PokemonFainted { player_index: 0, pokemon: Species::Pikachu },
    ];
    for event in formatted_events {
        assert!(
            format_event(&event, &battle_state).is_some(),
            "Event {:?} should return formatted text but returned None",
            event
        );
    }
}

#[test]
fn test_move_name_formatting() {
    assert_eq!(move_name(Move::ViceGrip), "Vice Grip");
    assert_eq!(move_name(Move::SolarBeam), "Solar Beam");
    assert_eq!(move_name(Move::ThunderWave), "Thunder Wave");
    assert_eq!(move_name(Move::SelfDestruct), "Self-Destruct");
    assert_eq!(move_name(Move::Tackle), "Tackle");
    assert_eq!(move_name(Move::QuickAttack), "Quick Attack");
}

#[test]
fn test_status_condition_formatting() {
    assert_eq!(status_applied(StatusCondition::Sleep(3)), "fell asleep!");
    assert_eq!(status_applied(StatusCondition::Poison(0)), "was poisoned!");
    assert_eq!(status_applied(StatusCondition::Paralysis), "is paralyzed! It may be unable to move!");
    assert_eq!(status_removed(StatusCondition::Sleep(0)), "woke up!");
    assert_eq!(status_removed(StatusCondition::Burn), "was cured of its burn!");
}

#[test]
fn test_event_text_samples() {
    let battle_state = text_state();
    let turn_event = BattleEvent::TurnStarted { turn_number: 5 };
    assert_eq!(format_event(&turn_event, &battle_state), Some("=== Turn 5 ===".to_string()));
    let crit_event =
        BattleEvent::CriticalHit { attacker: Species::Pikachu, defender: Species::Charmander, move_used: Move::Tackle };
    assert_eq!(format_event(&crit_event, &battle_state), Some("A critical hit!".to_string()));
    let effectiveness_event = BattleEvent::AttackTypeEffectiveness { multiplier_percent: 50 };
    assert_eq!(format_event(&effectiveness_event, &battle_state), Some("It's not very effective...".to_string()));
    let no_effect_event = BattleEvent::AttackTypeEffectiveness { multiplier_percent: 0 };
    assert_eq!(format_event(&no_effect_event, &battle_state), Some("It had no effect!".to_string()));
}

#[test]
fn event_sentences_with_names_and_numbers() {
    let state = text_state();
    assert_eq!(
        format_event(&BattleEvent::MoveUsed { player_index: 1, pokemon: Species::Charmander, move_used: Move::DoubleEdge }, &state),
        Some("Player 2's Charmander used Double-Edge!".to_string())
    );
    assert_eq!(
        format_event(&BattleEvent::DamageDealt { target: Species::Pikachu, damage: 1234, remaining_hp: 0 }, &state),
        Some("Pikachu took 1234 damage!".to_string())
    );
    assert_eq!(
        format_event(&BattleEvent::PlayerDefeated { player_index: 0 }, &state),
        Some("Player 1 is out of usable Pokémon!".to_string())
    );
    assert_eq!(
        format_event(&BattleEvent::BattleEnded { winner: Some(1) }, &state),
        Some("Player 2 has won the battle!".to_string())
    );
    assert_eq!(
        format_event(&BattleEvent::PokemonStatusRemoved { target: Species::Pikachu, status: StatusCondition::Freeze }, &state),
        Some("Pikachu was cured of its freeze!".to_string())
    );
    assert_eq!(
        format_event(&BattleEvent::AnteIncreased { player_index: 0, amount: 90, new_total: 290 }, &state),
        Some("Gained $90 from Pay Day!".to_string())
    );
}
