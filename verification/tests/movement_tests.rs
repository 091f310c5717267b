use rand::Rng;
use rand::SeedableRng;
use state_processor::EntityMgmt;
use state_processor::Terrain;
use state_processor::generate_entities;
use state_processor::generate_terrain;
use state_processor::terrain::NoiseSample;

const FIXED_ONE: f64 = 1048576.0;

/// Unit-vector headings in fixed point, one per agent, from a seeded
/// generator: a uniform angle in `[0, 2*pi)` mapped through cosine and sine.
fn random_headings(n: usize, seed: u64) -> Vec<(i32, i32)> {
    let mut rng = rand::rngs::StdRng::seed_from_u64(seed);
    (0..n)
        .map(|_| {
            let angle: f64 = rng.random_range(0.0..(2.0 * std::f64::consts::PI));
            ((angle.cos() * FIXED_ONE) as i32, (angle.sin() * FIXED_ONE) as i32)
        })
        .collect()
}

/// A terrain whose biome varies with the seed, so agents cross materials.
fn varied_terrain(width: u16, height: u16, seed: u32) -> Terrain {
    let perlin = noise::Perlin::new(seed);
    let mut samples = Vec::new();
    for y in 0..height {
        for x in 0..width {
            let v = noise::NoiseFn::get(&perlin, [x as f64 * 0.3, y as f64 * 0.3]);
            samples.push(NoiseSample {
                height_noise: (v * FIXED_ONE) as i64,
                biome_low: (v * FIXED_ONE) as i64,
                biome_mid: ((-v) * FIXED_ONE) as i64,
                biome_high: 0,
            });
        }
    }
    generate_terrain((width, height, 10), &samples).unwrap()
}

fn all_grass(width: u16, height: u16) -> Terrain {
    let cell = NoiseSample { height_noise: 0, biome_low: 0, biome_mid: 0, biome_high: 0 };
    generate_terrain((width, height, 10), &vec![cell; width as usize * height as usize]).unwrap()
}

#[test]
fn sequential_and_parallel_passes_agree() {
    // 400 agents is above the parallel threshold. Both movement passes on
    // the same start-of-step population with the same heading batch must
    // leave identical locations — and identical everything else.
    let t = varied_terrain(64, 64, 7);
    let ages = vec![200u8; 400];
    let mut a = generate_entities((0, 0, 64, 64), (64, 64), Some(400), &ages).unwrap();
    let mut b = a.duplicate();
    let headings = random_headings(400, 99);
    a.random_move_all_entities(&t, &headings);
    b.mt_random_move_all_entities(&t, &headings);
    let la = a.get_all_entity_locs();
    let lb = b.get_all_entity_locs();
    assert_eq!(la, lb);
    for id in 0..400u16 {
        assert_eq!(a.is_entity_alive(id), b.is_entity_alive(id));
        assert_eq!(a.get_entity_size(id), b.get_entity_size(id));
    }
}

#[test]
fn full_steps_agree_across_the_threshold_paths() {
    // advance_time picks the parallel pass at 400 agents; stepping two
    // identical copies with identical headings must agree agent by agent,
    // repeatedly.
    let t = varied_terrain(64, 64, 3);
    let ages: Vec<u8> = (0..400).map(|i| (i % 90) as u8).collect();
    let mut a = generate_entities((0, 0, 64, 64), (64, 64), Some(400), &ages).unwrap();
    let mut b = a.duplicate();
    for round in 0..5u64 {
        let headings = random_headings(400, round);
        a.advance_time(&t, &headings);
        b.advance_time(&t, &headings);
        assert_eq!(a.get_all_entity_locs(), b.get_all_entity_locs());
        for id in 0..400u16 {
            assert_eq!(a.is_entity_alive(id), b.is_entity_alive(id));
            assert_eq!(a.get_entity_size(id), b.get_entity_size(id));
        }
    }
}

#[test]
fn movement_stays_inside_the_area() {
    let t = varied_terrain(32, 32, 11);
    let ages = vec![200u8; 500];
    let mut m = generate_entities((0, 0, 32, 32), (32, 32), Some(500), &ages).unwrap();
    for round in 0..6u64 {
        m.advance_time(&t, &random_headings(500, 1000 + round));
        for (x, y) in m.get_all_entity_locs() {
            assert!(x < 32);
            assert!(y < 32);
        }
    }
}

#[test]
fn displacement_scales_heading_by_speed_exactly() {
    // On grass the fresh agent's speed is 30: a due-east unit heading
    // moves it 30 cells east; a half-magnitude heading moves it 15.
    let t = all_grass(100, 100);
    let mut m = generate_entities((0, 0, 1, 1), (100, 100), Some(1), &vec![200]).unwrap();
    m.random_move_all_entities(&t, &vec![(1048576, 0)]);
    assert_eq!(m.get_all_entity_locs()[0], (30, 0));
    m.random_move_all_entities(&t, &vec![(524288, 524288)]);
    assert_eq!(m.get_all_entity_locs()[0], (45, 15));
}

#[test]
fn dead_agents_do_not_move() {
    let t = all_grass(20, 20);
    let mut m = generate_entities((0, 0, 1, 1), (20, 20), Some(1), &vec![1]).unwrap();
    // First step kills the agent (death-age 1); it moved once while alive.
    m.advance_time(&t, &vec![(1048576, 0)]);
    assert_eq!(m.is_entity_alive(0), Ok(false));
    let rest = m.get_all_entity_locs()[0];
    m.advance_time(&t, &vec![(1048576, 0)]);
    assert_eq!(m.get_all_entity_locs()[0], rest);
}
