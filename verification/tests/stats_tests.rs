use pokemon_adventure::battle::conditions::ConditionSet;
use pokemon_adventure::battle::state::TurnRng;
use pokemon_adventure::battle::stats::{
    apply_stat_stage_multiplier, calculate_special_attack_damage, effective_attack, effective_defense,
    effective_speed, get_type_effectiveness, move_hits, move_is_critical_hit,
};
use pokemon_adventure::moves::Move;
use pokemon_adventure::player::{BattlePlayer, PlayerType, StatStages, TeamConditions};
use pokemon_adventure::pokemon::{PokemonInst, StatusCondition};
use pokemon_adventure::schema::{PokemonType, StatType};
use pokemon_adventure::species::Species;

fn stats_pokemon(species: Species, level: u8, stats: [u16; 6], status: Option<StatusCondition>) -> PokemonInst {
    PokemonInst::new_for_test(species, level, 0, 100, [15; 6], [0; 6], stats, [None; 4], status)
}

fn stats_player(ante: u32) -> BattlePlayer {
    BattlePlayer {
        player_id: "test".to_string(),
        player_name: "Test".to_string(),
        player_type: PlayerType::NPC,
        team: [None, None, None, None, None, None],
        active_pokemon_index: 0,
        stat_stages: StatStages::new(),
        team_conditions: TeamConditions::new(),
        active_pokemon_conditions: ConditionSet::new(),
        last_move: None,
        ante,
    }
}

#[test]
fn test_stat_stage_multipliers() {
    assert_eq!(apply_stat_stage_multiplier(100, 0), 100);
    assert_eq!(apply_stat_stage_multiplier(100, 1), 150);
    assert_eq!(apply_stat_stage_multiplier(100, 2), 200);
    assert_eq!(apply_stat_stage_multiplier(100, -1), 67);
    assert_eq!(apply_stat_stage_multiplier(100, -2), 50);
    assert_eq!(apply_stat_stage_multiplier(100, 6), 400);
    assert_eq!(apply_stat_stage_multiplier(100, -6), 25);
}

#[test]
fn test_effective_speed_paralysis() {
    let mut pokemon = stats_pokemon(
        Species::Pikachu,
        0,
        [100, 80, 80, 80, 80, 100],
        Some(StatusCondition::Paralysis),
    );
    let player = stats_player(200);
    assert_eq!(effective_speed(&pokemon, &player), 25);
    pokemon.status = None;
    assert_eq!(effective_speed(&pokemon, &player), 100);
}

#[test]
fn test_effective_attack_burn() {
    let mut pokemon = stats_pokemon(
        Species::Charmander,
        0,
        [100, 80, 80, 80, 80, 100],
        Some(StatusCondition::Burn),
    );
    let player = stats_player(200);
    assert_eq!(effective_attack(&pokemon, &player, Move::Tackle), 40);
    assert_eq!(effective_attack(&pokemon, &player, Move::Ember), 80);
    pokemon.status = None;
    assert_eq!(effective_attack(&pokemon, &player, Move::Tackle), 80);
    assert_eq!(effective_attack(&pokemon, &player, Move::Ember), 80);
}

#[test]
fn test_critical_hit_calculation() {
    let pokemon = stats_pokemon(Species::Pikachu, 10, [100, 80, 80, 80, 80, 100], None);
    let mut player = stats_player(0);

    let mut rng_low = TurnRng::new_for_test(vec![10, 10, 10]);
    assert!(!move_is_critical_hit(&pokemon, &player, Move::Tackle, &mut rng_low));

    let mut rng_high = TurnRng::new_for_test(vec![3, 3, 3]);
    assert!(move_is_critical_hit(&pokemon, &player, Move::Tackle, &mut rng_high));

    player.set_stat_stage(StatType::Crit, 2);
    let mut rng_focus = TurnRng::new_for_test(vec![20, 20, 20]);
    assert!(move_is_critical_hit(&pokemon, &player, Move::Tackle, &mut rng_focus));

    let mut rng_status = TurnRng::new_for_test(vec![99, 99, 99]);
    assert!(!move_is_critical_hit(&pokemon, &player, Move::Growl, &mut rng_status));
}

#[test]
fn test_combined_status_effects() {
    let mut burned_pokemon = stats_pokemon(
        Species::Charmander,
        10,
        [100, 80, 60, 80, 60, 100],
        Some(StatusCondition::Burn),
    );
    let mut paralyzed_pokemon = stats_pokemon(
        Species::Pikachu,
        10,
        [100, 80, 60, 80, 60, 100],
        Some(StatusCondition::Paralysis),
    );
    let player = stats_player(200);

    assert_eq!(effective_attack(&burned_pokemon, &player, Move::Tackle), 40, "Burn should halve physical attack: 80/2=40");
    assert_eq!(effective_attack(&burned_pokemon, &player, Move::Ember), 80, "Burn should NOT affect special attack");
    assert_eq!(effective_speed(&burned_pokemon, &player), 100, "Burn should NOT affect speed");

    assert_eq!(effective_speed(&paralyzed_pokemon, &player), 25, "Paralysis should quarter speed: 100/4=25");
    assert_eq!(effective_attack(&paralyzed_pokemon, &player, Move::Tackle), 80, "Paralysis should NOT affect attack");
    assert_eq!(
        effective_attack(&paralyzed_pokemon, &player, Move::ThunderPunch),
        80,
        "Paralysis should NOT affect special attack"
    );

    burned_pokemon.status = None;
    paralyzed_pokemon.status = None;
    assert_eq!(effective_attack(&burned_pokemon, &player, Move::Tackle), 80);
    assert_eq!(effective_speed(&paralyzed_pokemon, &player), 100);
}

#[test]
fn stage_multiplier_is_clamped_to_six() {
    assert_eq!(apply_stat_stage_multiplier(100, 9), 400);
    assert_eq!(apply_stat_stage_multiplier(100, -9), 25);
    assert_eq!(apply_stat_stage_multiplier(0, 6), 0);
    assert_eq!(apply_stat_stage_multiplier(90, 3), 225);
}

#[test]
fn stat_stages_change_effective_stats() {
    let pokemon = stats_pokemon(Species::Pikachu, 10, [100, 80, 60, 70, 50, 100], None);
    let mut player = stats_player(0);
    player.set_stat_stage(StatType::Atk, 2);
    player.set_stat_stage(StatType::Def, -1);
    player.set_stat_stage(StatType::Spe, 1);
    assert_eq!(effective_attack(&pokemon, &player, Move::Tackle), 160);
    assert_eq!(effective_defense(&pokemon, &player, Move::Tackle), 40);
    assert_eq!(effective_defense(&pokemon, &player, Move::Ember), 50);
    assert_eq!(effective_speed(&pokemon, &player), 150);
}

#[test]
fn type_effectiveness_percentages() {
    assert_eq!(get_type_effectiveness(PokemonType::Fire, &vec![PokemonType::Grass]), 200);
    assert_eq!(get_type_effectiveness(PokemonType::Fire, &vec![PokemonType::Water]), 50);
    assert_eq!(get_type_effectiveness(PokemonType::Normal, &vec![PokemonType::GhostType]), 0);
    assert_eq!(get_type_effectiveness(PokemonType::Electric, &vec![PokemonType::Water, PokemonType::Flying]), 400);
    assert_eq!(get_type_effectiveness(PokemonType::Normal, &vec![]), 100);
}

#[test]
fn accuracy_roll_decides_hit() {
    let attacker = stats_pokemon(Species::Pikachu, 10, [100, 80, 60, 80, 60, 100], None);
    let defender = stats_pokemon(Species::Charmander, 10, [100, 80, 60, 80, 60, 100], None);
    let p1 = stats_player(0);
    let p2 = stats_player(0);
    let mut hit = TurnRng::new_for_test(vec![95]);
    assert!(move_hits(&attacker, &defender, &p1, &p2, Move::Tackle, &mut hit));
    let mut miss = TurnRng::new_for_test(vec![96]);
    assert!(!move_hits(&attacker, &defender, &p1, &p2, Move::Tackle, &mut miss));
}

#[test]
fn fixed_damage_moves_ignore_stats() {
    let attacker = stats_pokemon(Species::Pikachu, 10, [100, 80, 60, 80, 60, 100], None);
    let defender = stats_pokemon(Species::Charmander, 10, [100, 80, 60, 80, 60, 100], None);
    assert_eq!(calculate_special_attack_damage(Move::Tackle, &attacker, &defender), None);
    assert_eq!(calculate_special_attack_damage(Move::SonicBoom, &attacker, &defender), Some(20));
}
