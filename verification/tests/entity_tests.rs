use state_processor::EntityMgmt;
use state_processor::SimError;
use state_processor::Terrain;
use state_processor::entity_management::Entity;
use state_processor::entity_management::calculate_material_speeds;
use state_processor::generate_entities;
use state_processor::generate_terrain;
use state_processor::terrain::NoiseSample;

/// A small all-grass terrain: a centered biome value classifies as grass
/// and a centered height sample keeps heights mid-range.
fn flat_grass_terrain(width: u16, height: u16) -> Terrain {
    let cell = NoiseSample { height_noise: 0, biome_low: 0, biome_mid: 0, biome_high: 0 };
    let samples = vec![cell; width as usize * height as usize];
    generate_terrain((width, height, 10), &samples).unwrap()
}

fn zero_headings(n: usize) -> Vec<(i32, i32)> {
    vec![(0, 0); n]
}

#[test]
fn material_speeds_are_exact_fractions() {
    // Base speed 30: mud 60% -> 18, ice 40% -> 12; with both traits the
    // proficient fractions apply: mud 80% -> 24, ice 70% -> 21.
    assert_eq!(calculate_material_speeds(false, false, 30), (18, 12));
    assert_eq!(calculate_material_speeds(true, true, 30), (24, 21));
    assert_eq!(calculate_material_speeds(false, true, 10), (6, 7));
    assert_eq!(calculate_material_speeds(true, false, 0), (0, 0));
}

#[test]
fn fertility_curve_has_exact_window_and_peak() {
    // Fertility is carried in ninths of a percent: the peak age yields 900,
    // that is 100%.
    assert_eq!(Entity::get_fertility_at_age(30), 900);
    assert_eq!(Entity::get_fertility_at_age(15), 0);
    assert_eq!(Entity::get_fertility_at_age(45), 0);
    assert_eq!(Entity::get_fertility_at_age(22), 7 * 23 * 4);
}

#[test]
fn speed_profile_of_spawned_entity() {
    let e = Entity::new(30, false, false, (3, 4), true, 70);
    assert_eq!(e.grass_speed, 30);
    assert_eq!(e.mud_speed, 18);
    assert_eq!(e.ice_speed, 12);
    assert_eq!(e.get_speed_for_material(0), 18);
    assert_eq!(e.get_speed_for_material(1), 30);
    assert_eq!(e.get_speed_for_material(2), 12);
    assert_eq!(e.get_speed_for_material(77), 30);
    assert_eq!(e.age, 1);
    assert_eq!(e.size, 1);
    assert!(e.is_alive);
    assert!(!e.is_pregnant);
    assert_eq!(e.fertility, 0);
    assert_eq!(e.death_age, 70);
    assert_eq!(e.location, (3, 4));
}

#[test]
fn degenerate_spawn_rectangles_are_rejected() {
    // Empty, inverted, and out-of-area rectangles are configuration
    // errors, surfaced at construction.
    assert!(matches!(EntityMgmt::new((5, 0, 5, 10), (20, 20)), Err(SimError::Configuration)));
    assert!(matches!(EntityMgmt::new((7, 0, 3, 10), (20, 20)), Err(SimError::Configuration)));
    assert!(matches!(EntityMgmt::new((0, 0, 30, 10), (20, 20)), Err(SimError::Configuration)));
    assert!(matches!(EntityMgmt::new((0, 0, 10, 10), (0, 20)), Err(SimError::Configuration)));
    assert!(EntityMgmt::new((0, 0, 10, 10), (20, 20)).is_ok());
}

#[test]
fn spawned_agents_sit_inside_the_rectangle() {
    let ages = vec![70u8; 200];
    let m = generate_entities((10, 20, 30, 40), (100, 100), Some(200), &ages).unwrap();
    assert_eq!(m.get_num_entities(), 200);
    let locs = m.get_all_entity_locs();
    assert_eq!(locs.len(), 200);
    for (x, y) in locs {
        assert!((10..30).contains(&x));
        assert!((20..40).contains(&y));
    }
}

#[test]
fn spawn_appends_without_touching_existing_agents() {
    let mut m = EntityMgmt::new((0, 0, 10, 10), (10, 10)).unwrap();
    m.generate_random_entities(3, &vec![50, 60, 70]);
    let before = m.get_all_entity_locs();
    m.generate_random_entities(2, &vec![40, 41]);
    assert_eq!(m.get_num_entities(), 5);
    let after = m.get_all_entity_locs();
    for i in 0..3 {
        assert_eq!(before[i], after[i]);
    }
}

#[test]
fn reset_replaces_population_with_default_count() {
    let mut m = EntityMgmt::new((0, 0, 10, 10), (10, 10)).unwrap();
    m.generate_random_entities(40, &vec![9u8; 40]);
    m.reset(&vec![70u8; 15]);
    assert_eq!(m.get_num_entities(), 15);
    assert_eq!(m.is_entity_alive(0), Ok(true));
}

#[test]
fn clamping_pins_low_corner() {
    // An agent forced to spawn at (0, 0) and pushed by an arbitrarily
    // large negative displacement stays at (0, 0): edges are walls.
    let mut m = EntityMgmt::new((0, 0, 1, 1), (50, 50)).unwrap();
    m.generate_random_entities(1, &vec![70]);
    assert_eq!(m.get_all_entity_locs()[0], (0, 0));
    assert!(m.get_and_move_entity(0, (i32::MIN, i32::MIN)));
    assert_eq!(m.get_all_entity_locs()[0], (0, 0));
}

#[test]
fn clamping_pins_high_corner() {
    let mut m = EntityMgmt::new((49, 49, 50, 50), (50, 50)).unwrap();
    m.generate_random_entities(1, &vec![70]);
    assert_eq!(m.get_all_entity_locs()[0], (49, 49));
    assert!(m.get_and_move_entity(0, (i32::MAX, i32::MAX)));
    assert_eq!(m.get_all_entity_locs()[0], (49, 49));
}

#[test]
fn moving_an_unknown_key_reports_failure_and_changes_nothing() {
    let mut m = EntityMgmt::new((0, 0, 1, 1), (50, 50)).unwrap();
    m.generate_random_entities(1, &vec![70]);
    assert!(!m.get_and_move_entity(5, (3, 3)));
    assert_eq!(m.get_all_entity_locs()[0], (0, 0));
}

#[test]
fn unknown_keys_surface_lookup_errors_and_sentinels() {
    let mut m = EntityMgmt::new((0, 0, 4, 4), (4, 4)).unwrap();
    m.generate_random_entities(2, &vec![70, 70]);
    assert_eq!(m.is_entity_alive(1), Ok(true));
    assert_eq!(m.is_entity_alive(2), Err(SimError::Lookup));
    assert_eq!(m.get_entity_size(0), 1);
    assert_eq!(m.get_entity_size(2), -1);
}

#[test]
fn lifecycle_follows_the_death_age_exactly() {
    // One agent with death-age 5: alive through age 5, dead the step its
    // age reaches 6, and never revived after.
    let t = flat_grass_terrain(4, 4);
    let mut m = EntityMgmt::new((0, 0, 1, 1), (4, 4)).unwrap();
    m.generate_random_entities(1, &vec![5]);
    let headings = zero_headings(1);
    for expected_age in 2..=5u16 {
        m.advance_time(&t, &headings);
        assert_eq!(m.is_entity_alive(0), Ok(true), "agent died early at age {expected_age}");
        assert_eq!(m.get_entity_size(0), expected_age as i32);
    }
    m.advance_time(&t, &headings);
    assert_eq!(m.is_entity_alive(0), Ok(false));
    let size_at_death = m.get_entity_size(0);
    assert_eq!(size_at_death, 5);
    for _ in 0..3 {
        m.advance_time(&t, &headings);
        assert_eq!(m.is_entity_alive(0), Ok(false));
        assert_eq!(m.get_entity_size(0), size_at_death);
    }
}

#[test]
fn death_age_one_dies_on_the_first_step() {
    let t = flat_grass_terrain(4, 4);
    let mut m = EntityMgmt::new((0, 0, 1, 1), (4, 4)).unwrap();
    m.generate_random_entities(1, &vec![1]);
    assert_eq!(m.is_entity_alive(0), Ok(true));
    m.advance_time(&t, &zero_headings(1));
    assert_eq!(m.is_entity_alive(0), Ok(false));
    assert_eq!(m.get_entity_size(0), 1);
}

#[test]
fn ages_are_monotonic_and_sizes_track_survival() {
    let t = flat_grass_terrain(4, 4);
    let mut m = EntityMgmt::new((0, 0, 1, 1), (4, 4)).unwrap();
    m.generate_random_entities(3, &vec![2, 10, 200]);
    let headings = zero_headings(3);
    let mut last_ages = vec![0u16; 3];
    for _ in 0..12 {
        m.advance_time(&t, &headings);
        for id in 0..3 {
            let age = m.entities[id].age;
            assert!(age >= last_ages[id]);
            last_ages[id] = age;
        }
    }
    assert_eq!(m.is_entity_alive(0), Ok(false));
    assert_eq!(m.is_entity_alive(1), Ok(false));
    assert_eq!(m.is_entity_alive(2), Ok(true));
    assert_eq!(m.get_entity_size(2), 13);
}

#[test]
fn fertility_follows_the_window_across_steps() {
    let t = flat_grass_terrain(4, 4);
    let mut m = EntityMgmt::new((0, 0, 1, 1), (4, 4)).unwrap();
    m.generate_random_entities(1, &vec![200]);
    let headings = zero_headings(1);
    for _ in 0..13 {
        m.advance_time(&t, &headings);
    }
    assert_eq!(m.entities[0].age, 14);
    assert_eq!(m.entities[0].fertility, 0);
    m.advance_time(&t, &headings);
    assert_eq!(m.entities[0].fertility, 0);
    for _ in 0..15 {
        m.advance_time(&t, &headings);
    }
    assert_eq!(m.entities[0].age, 30);
    assert_eq!(m.entities[0].fertility, 900);
    for _ in 0..16 {
        m.advance_time(&t, &headings);
    }
    assert_eq!(m.entities[0].age, 46);
    assert_eq!(m.entities[0].fertility, 0);
}

#[test]
fn base_speed_grows_then_decays() {
    let t = flat_grass_terrain(4, 4);
    let mut m = EntityMgmt::new((0, 0, 1, 1), (4, 4)).unwrap();
    m.generate_random_entities(1, &vec![200]);
    let headings = zero_headings(1);
    // Ages 2..=30 each add one to the base speed of 30.
    for _ in 0..29 {
        m.advance_time(&t, &headings);
    }
    assert_eq!(m.entities[0].age, 30);
    assert_eq!(m.entities[0].grass_speed, 59);
    // Above the threshold the speed decays again.
    m.advance_time(&t, &headings);
    assert_eq!(m.entities[0].grass_speed, 58);
}
