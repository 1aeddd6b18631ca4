use pokemon_adventure::moves::Move;
use pokemon_adventure::pokemon::{MoveInstance, PokemonInst, StatusCondition};
use pokemon_adventure::schema::{BaseStats, ExperienceGroup, Learnset, PokemonSpecies, PokemonType};
use pokemon_adventure::species::Species;

fn species_record(species: Species) -> PokemonSpecies {
    let (number, name, types, base) = match species {
        Species::Bulbasaur => (1, "Bulbasaur", vec![PokemonType::Grass, PokemonType::Poison], [45, 49, 49, 65, 65, 45]),
        Species::Charmander => (4, "Charmander", vec![PokemonType::Fire], [39, 52, 43, 60, 50, 65]),
        Species::Pikachu => (25, "Pikachu", vec![PokemonType::Electric], [35, 55, 30, 50, 50, 90]),
        Species::Magikarp => (129, "Magikarp", vec![PokemonType::Water], [20, 10, 55, 15, 20, 80]),
        Species::Snorlax => (143, "Snorlax", vec![PokemonType::Normal], [160, 110, 65, 65, 110, 30]),
        _ => (0, "Other", vec![PokemonType::Normal], [50, 50, 50, 50, 50, 50]),
    };
    PokemonSpecies {
        pokedex_number: number,
        name: name.to_string(),
        types,
        base_stats: BaseStats {
            hp: base[0],
            attack: base[1],
            defense: base[2],
            sp_attack: base[3],
            sp_defense: base[4],
            speed: base[5],
        },
        learnset: Learnset { level_up: vec![], signature: None, can_learn: vec![] },
        catch_rate: 45,
        base_exp: 64,
        experience_group: ExperienceGroup::MediumSlow,
        description: String::new(),
        evolution_data: None,
    }
}

fn fainting_pokemon(species: Species, moves: Vec<Move>, hp: u16) -> PokemonInst {
    let mut slots: [Option<MoveInstance>; 4] = [None; 4];
    for (i, m) in moves.into_iter().enumerate() {
        if i < 4 {
            slots[i] = Some(MoveInstance { move_: m, pp: 10 });
        }
    }
    PokemonInst::new_for_test(species, 50, 0, hp, [15; 6], [0; 6], [hp, 80, 80, 80, 80, 80], slots, None)
}

#[test]
fn test_poison_status_damage() {
    let species_data = species_record(Species::Bulbasaur);
    let mut pokemon = PokemonInst::new(Species::Bulbasaur, &species_data, 50, None, None);
    let initial_hp = pokemon.curr_hp;
    let max_hp = pokemon.max_hp();
    pokemon.status = Some(StatusCondition::Poison(0));
    let (damage, should_cure, status_changed) = pokemon.tick_status();
    assert_eq!(damage, (max_hp / 16).max(1));
    assert!(!should_cure);
    assert!(!status_changed);
    assert_eq!(pokemon.curr_hp, initial_hp - damage);
    assert!(matches!(pokemon.status, Some(StatusCondition::Poison(0))));
}

#[test]
fn test_badly_poisoned_status_damage() {
    let species_data = species_record(Species::Bulbasaur);
    let mut pokemon = PokemonInst::new(Species::Bulbasaur, &species_data, 50, None, None);
    let initial_hp = pokemon.curr_hp;
    let max_hp = pokemon.max_hp();
    pokemon.status = Some(StatusCondition::Poison(1));
    let (damage, should_cure, status_changed) = pokemon.tick_status();
    let expected_damage = (max_hp * 2 / 16).max(1);
    assert_eq!(damage, expected_damage);
    assert!(!should_cure);
    assert!(status_changed);
    assert_eq!(pokemon.curr_hp, initial_hp - damage);
    assert!(matches!(pokemon.status, Some(StatusCondition::Poison(2))));
}

#[test]
fn test_burn_status_damage() {
    let species_data = species_record(Species::Charmander);
    let mut pokemon = PokemonInst::new(Species::Charmander, &species_data, 50, None, None);
    let initial_hp = pokemon.curr_hp;
    let max_hp = pokemon.max_hp();
    pokemon.status = Some(StatusCondition::Burn);
    let (damage, should_cure, status_changed) = pokemon.tick_status();
    assert_eq!(damage, (max_hp / 8).max(1));
    assert!(!should_cure);
    assert!(!status_changed);
    assert_eq!(pokemon.curr_hp, initial_hp - damage);
    assert!(matches!(pokemon.status, Some(StatusCondition::Burn)));
}

#[test]
fn test_sleep_status_countdown() {
    let species_data = species_record(Species::Snorlax);
    let mut pokemon = PokemonInst::new(Species::Snorlax, &species_data, 50, None, None);
    let initial_hp = pokemon.curr_hp;
    pokemon.status = Some(StatusCondition::Sleep(3));

    let (damage, should_cure, status_changed) = pokemon.tick_status();
    assert_eq!(damage, 0);
    assert!(!should_cure);
    assert!(status_changed);
    assert_eq!(pokemon.curr_hp, initial_hp);
    assert!(matches!(pokemon.status, Some(StatusCondition::Sleep(2))));

    let (damage, should_cure, status_changed) = pokemon.tick_status();
    assert_eq!(damage, 0);
    assert!(!should_cure);
    assert!(status_changed);
    assert!(matches!(pokemon.status, Some(StatusCondition::Sleep(1))));

    let (damage, should_cure, status_changed) = pokemon.tick_status();
    assert_eq!(damage, 0);
    assert!(should_cure);
    assert!(status_changed);
    assert!(pokemon.status.is_none());
}

#[test]
fn test_status_damage_causes_fainting() {
    let species_data = species_record(Species::Magikarp);
    let mut pokemon = PokemonInst::new(Species::Magikarp, &species_data, 5, None, None);
    pokemon.curr_hp = 3;
    let max_hp = pokemon.max_hp();
    pokemon.status = Some(StatusCondition::Poison(0));
    let expected_damage = (max_hp / 16).max(1);
    let (damage, should_cure, status_changed) = pokemon.tick_status();
    if expected_damage >= 3 {
        assert_eq!(damage, expected_damage);
        assert!(!should_cure);
        assert!(status_changed);
        assert_eq!(pokemon.curr_hp, 0);
        assert!(matches!(pokemon.status, Some(StatusCondition::Faint)));
    } else {
        assert_eq!(pokemon.curr_hp, 3 - damage);
        assert!(matches!(pokemon.status, Some(StatusCondition::Poison(0))));
    }
}

#[test]
fn test_pokemon_fainting_mechanics() {
    let mut pokemon = fainting_pokemon(Species::Pikachu, vec![Move::Tackle], 20);
    assert!(!pokemon.is_fainted());
    assert_eq!(pokemon.current_hp(), 20);

    let fainted = pokemon.take_damage(10);
    assert!(!fainted);
    assert_eq!(pokemon.current_hp(), 10);
    assert!(!pokemon.is_fainted());

    let fainted = pokemon.take_damage(15);
    assert!(fainted);
    assert_eq!(pokemon.current_hp(), 0);
    assert!(pokemon.is_fainted());
    assert_eq!(pokemon.status, Some(StatusCondition::Faint));
}

#[test]
fn test_faint_replaces_other_statuses() {
    let mut pokemon = fainting_pokemon(Species::Pikachu, vec![Move::Tackle], 10);
    pokemon.status = Some(StatusCondition::Burn);
    assert_eq!(pokemon.status, Some(StatusCondition::Burn));
    let fainted = pokemon.take_damage(20);
    assert!(fainted);
    assert!(pokemon.is_fainted());
    assert_eq!(pokemon.status, Some(StatusCondition::Faint));
}

#[test]
fn test_healing_and_revival() {
    let mut pokemon = fainting_pokemon(Species::Pikachu, vec![Move::Tackle], 50);
    pokemon.take_damage(30);
    assert_eq!(pokemon.current_hp(), 20);

    let hp_before_heal = pokemon.current_hp();
    pokemon.heal(10);
    let hp_after_heal = pokemon.current_hp();
    assert!(hp_after_heal >= hp_before_heal, "Healing should not decrease HP");

    pokemon.take_damage(100);
    assert!(pokemon.is_fainted());
    assert_eq!(pokemon.current_hp(), 0);

    pokemon.heal(20);
    assert_eq!(pokemon.current_hp(), 0);
    assert!(pokemon.is_fainted());

    pokemon.revive(25);
    assert!(!pokemon.is_fainted());
    assert_eq!(pokemon.current_hp(), 25);
    assert_eq!(pokemon.status, None);
}

#[test]
fn new_pokemon_stats_follow_the_formula() {
    let species_data = species_record(Species::Pikachu);
    let pokemon = PokemonInst::new(Species::Pikachu, &species_data, 50, None, None);
    // hp: (2*(35+15) + 0) * 50 / 100 + 50 + 10 = 110
    assert_eq!(pokemon.stats.hp, 110);
    // attack: (2*(55+15)) * 50 / 100 + 5 = 75
    assert_eq!(pokemon.stats.attack, 75);
    // speed: (2*(90+15)) * 50 / 100 + 5 = 110
    assert_eq!(pokemon.stats.speed, 110);
    assert_eq!(pokemon.curr_hp, 110);
    assert_eq!(pokemon.primary_type, PokemonType::Electric);
    assert_eq!(pokemon.secondary_type, None);
    assert_eq!(pokemon.status, None);
}

#[test]
fn heal_is_capped_at_max_hp() {
    let mut pokemon = fainting_pokemon(Species::Pikachu, vec![Move::Tackle], 50);
    pokemon.take_damage(5);
    pokemon.heal(40);
    assert_eq!(pokemon.current_hp(), 50);
    pokemon.revive(80);
    assert_eq!(pokemon.current_hp(), 50);
}

#[test]
fn badly_poisoned_severity_caps_at_fifteen() {
    let mut pokemon = fainting_pokemon(Species::Pikachu, vec![Move::Tackle], 320);
    pokemon.status = Some(StatusCondition::Poison(15));
    let (progress_cured, progress_changed) = pokemon.update_status_progress();
    assert!(!progress_cured);
    assert!(!progress_changed);
    assert_eq!(pokemon.status, Some(StatusCondition::Poison(15)));
    assert_eq!(pokemon.calculate_status_damage(), 300);
}

#[test]
fn use_move_spends_pp() {
    let mut pokemon = fainting_pokemon(Species::Pikachu, vec![Move::Tackle, Move::Growl], 50);
    assert_eq!(pokemon.use_move(Move::Growl), Ok(()));
    assert_eq!(pokemon.moves[1], Some(MoveInstance { move_: Move::Growl, pp: 9 }));
    assert_eq!(pokemon.use_move(Move::Ember), Err(()));
    assert_eq!(pokemon.use_move(Move::Struggle), Ok(()));
    pokemon.moves[0] = Some(MoveInstance { move_: Move::Tackle, pp: 0 });
    assert_eq!(pokemon.use_move(Move::Tackle), Err(()));
}
