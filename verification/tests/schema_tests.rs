use pokemon_adventure::battle::conditions::{ConditionSet, PokemonConditionType};
use pokemon_adventure::battle::runner::battle_info;
use pokemon_adventure::battle::state::{BattleState, GameState};
use pokemon_adventure::moves::Move;
use pokemon_adventure::player::{BattlePlayer, PlayerType, StatStages, TeamConditions};
use pokemon_adventure::pokemon::{PokemonInst, StatusCondition};
use pokemon_adventure::schema::{
    BaseStats, ExperienceGroup, Learnset, MoveCategory, PokemonType, StatType, Target, TeamCondition,
};
use pokemon_adventure::species::Species;

fn cubic_curve() -> Vec<u32> {
    (0u32..=100).map(|n| n * n * n).collect()
}

#[test]
fn level_follows_the_experience_curve() {
    let curve = cubic_curve();
    assert_eq!(ExperienceGroup::calculate_level_from_exp(&curve, 0), 0);
    assert_eq!(ExperienceGroup::calculate_level_from_exp(&curve, 1), 1);
    assert_eq!(ExperienceGroup::calculate_level_from_exp(&curve, 124_999), 49);
    assert_eq!(ExperienceGroup::calculate_level_from_exp(&curve, 125_000), 50);
    assert_eq!(ExperienceGroup::calculate_level_from_exp(&curve, 5_000_000), 100);
    assert!(ExperienceGroup::can_level_up(&curve, 49, 125_000));
    assert!(!ExperienceGroup::can_level_up(&curve, 50, 125_000));
    assert!(!ExperienceGroup::can_level_up(&curve, 100, u32::MAX));
}

#[test]
fn learnset_lookups() {
    let learnset = Learnset {
        level_up: vec![(1, vec![Move::Tackle, Move::Growl]), (7, vec![Move::LeechSeed]), (7, vec![Move::VineWhip])],
        signature: Some(Move::SolarBeam),
        can_learn: vec![Move::SwordsDance],
    };
    assert_eq!(learnset.learns_at_level(7), Some(&vec![Move::LeechSeed]));
    assert_eq!(learnset.learns_at_level(3), None);
    assert!(learnset.can_learn_move(Move::Growl));
    assert!(learnset.can_learn_move(Move::SolarBeam));
    assert!(learnset.can_learn_move(Move::SwordsDance));
    assert!(learnset.can_learn_move(Move::VineWhip));
    assert!(!learnset.can_learn_move(Move::Ember));
}

#[test]
fn base_stat_total_and_immunities() {
    let stats = BaseStats { hp: 45, attack: 49, defense: 49, sp_attack: 65, sp_defense: 65, speed: 45 };
    assert_eq!(stats.total(), 318);
    assert!(PokemonType::is_immune(PokemonType::Normal, PokemonType::GhostType));
    assert!(PokemonType::is_immune(PokemonType::Ground, PokemonType::Flying));
    assert!(!PokemonType::is_immune(PokemonType::Fire, PokemonType::Water));
    assert_eq!(PokemonType::effectiveness_halves(PokemonType::Water, PokemonType::Fire), 4);
    assert_eq!(PokemonType::effectiveness_halves(PokemonType::Typeless, PokemonType::Rock), 2);
}

#[test]
fn battle_summary_describes_both_players() {
    let mut fainted = PokemonInst::new_for_test(
        Species::Gengar, 30, 0, 10, [15; 6], [0; 6], [90, 60, 50, 120, 70, 110], [None; 4], None,
    );
    fainted.take_damage(20);
    let active = PokemonInst::new_for_test(
        Species::Pikachu, 30, 0, 40, [15; 6], [0; 6], [70, 60, 40, 55, 50, 90], [None; 4],
        Some(StatusCondition::Paralysis),
    );
    let player1 = BattlePlayer {
        player_id: "ash".to_string(),
        player_name: "Ash".to_string(),
        player_type: PlayerType::Human,
        team: [Some(active), None, Some(fainted), None, None, None],
        active_pokemon_index: 0,
        stat_stages: StatStages::new(),
        team_conditions: TeamConditions::new(),
        active_pokemon_conditions: ConditionSet::new(),
        last_move: None,
        ante: 0,
    };
    let player2 = BattlePlayer::new("gary".to_string(), "Gary".to_string(), vec![]);
    let state = BattleState::new("summary".to_string(), player1, player2);
    let info = battle_info(&state);
    assert_eq!(info.battle_id, "summary");
    assert_eq!(info.turn_number, 1);
    assert_eq!(info.game_state, GameState::WaitingForActions);
    assert_eq!(info.players.len(), 2);
    let p1 = &info.players[0];
    assert_eq!(p1.player_name, "Ash");
    assert_eq!(p1.team_size, 2);
    assert_eq!(p1.fainted_count, 1);
    let active_info = p1.active_pokemon.as_ref().unwrap();
    assert_eq!(active_info.name, "Pikachu");
    assert_eq!(active_info.current_hp, 40);
    assert_eq!(active_info.max_hp, 70);
    assert!(!active_info.is_fainted);
    assert_eq!(active_info.status, Some(StatusCondition::Paralysis));
    assert!(p1.team[2].as_ref().unwrap().is_fainted);
    assert!(p1.team[1].is_none());
    let p2 = &info.players[1];
    assert_eq!(p2.player_id, "gary");
    assert_eq!(p2.team_size, 0);
    assert!(p2.active_pokemon.is_none());
    assert_eq!(Species::Snorlax.name(), "Snorlax");
}

#[test]
fn display_names_of_kinds() {
    assert_eq!(TeamCondition::LightScreen.display_name(), "Light Screen");
    assert_eq!(MoveCategory::Status.display_name(), "Status");
    assert_eq!(StatType::SpAtk.display_name(), "Special Attack");
    assert_eq!(StatType::Crit.display_name(), "Focus");
    assert_eq!(Target::User.display_name(), "User");
    assert_eq!(PokemonType::GhostType.display_name(), "Ghost");
    assert_eq!(PokemonType::Electric.display_name(), "Electric");
    assert_eq!(PokemonConditionType::InAir.display_name(), "In the Air");
    assert_eq!(PokemonConditionType::Charging.display_name(), "Charging Attack");
}

#[test]
fn condition_and_team_condition_storage() {
    use_condition_storage();
}

fn use_condition_storage() {
    let mut set = ConditionSet::new();
    set.insert(pokemon_adventure::battle::conditions::PokemonCondition::Confused { turns_remaining: 3 });
    set.insert(pokemon_adventure::battle::conditions::PokemonCondition::Seeded);
    set.insert(pokemon_adventure::battle::conditions::PokemonCondition::Confused { turns_remaining: 1 });
    assert_eq!(set.len(), 2);
    assert!(matches!(
        set.get(PokemonConditionType::Confused),
        Some(pokemon_adventure::battle::conditions::PokemonCondition::Confused { turns_remaining: 1 })
    ));
    set.remove(PokemonConditionType::Confused);
    assert!(set.get(PokemonConditionType::Confused).is_none());
    assert!(set.contains(PokemonConditionType::Seeded));
    set.clear();
    assert_eq!(set.len(), 0);

    let mut team = TeamConditions::new();
    team.set(TeamCondition::Reflect, Some(5));
    assert_eq!(team.get(TeamCondition::Reflect), Some(5));
    assert_eq!(team.get(TeamCondition::Mist), None);
    team.set(TeamCondition::Reflect, None);
    assert_eq!(team.get(TeamCondition::Reflect), None);
}
