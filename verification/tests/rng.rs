use rand::SeedableRng;
use rand_pcg::Mcg128Xsl64;
use tango_core::rng::{
    advance_rng, draw_round_seeds, generate_rng1_state, generate_rng2_state,
    random_battle_settings_and_background, round_seeds, step_rng, RngSeeds, MAX_WARMUP_STEPS,
    RNG1_INITIAL_STATE, RNG2_INITIAL_STATE,
};

fn seeded(seed: u128) -> Mcg128Xsl64 {
    Mcg128Xsl64::from_seed(seed.to_le_bytes())
}

#[test]
fn step_rng_rotates_adds_one_and_masks() {
    assert_eq!(step_rng(0), 0x873ca9e4);
    assert_eq!(step_rng(0xffff_ffff), 0x873ca9e5);
    assert_eq!(step_rng(0x8000_0000), 0x873ca9e7);
    assert_eq!(step_rng(0x1234_5678), 0xa354_0514);
}

#[test]
fn advance_rng_by_no_step_is_the_seed() {
    assert_eq!(advance_rng(0xdead_beef, 0), 0xdead_beef);
}

#[test]
fn advance_rng_repeats_step_rng() {
    assert_eq!(advance_rng(0, 3), step_rng(step_rng(step_rng(0))));
    assert_eq!(advance_rng(0, 3), 0x95b7_5d85);
    assert_eq!(advance_rng(7, 2), step_rng(step_rng(7)));
}

#[test]
fn warmup_constants() {
    assert_eq!(RNG1_INITIAL_STATE, 0);
    assert_eq!(RNG2_INITIAL_STATE, 0xa338_244f);
    assert_eq!(MAX_WARMUP_STEPS, 0x10000);
}

#[test]
fn generate_rng1_state_gives_the_known_states() {
    let mut rng = seeded(42);
    assert_eq!(generate_rng1_state(&mut rng), 0x75f2_7bad);
    assert_eq!(generate_rng1_state(&mut rng), 0xf2b1_fb10);
    assert_eq!(generate_rng2_state(&mut rng), 0x9ba5_9652);
}

#[test]
fn generate_rng1_state_is_reachable_within_the_warmup() {
    let mut rng = seeded(7);
    let state = generate_rng1_state(&mut rng);
    let mut reached = false;
    let mut walk = RNG1_INITIAL_STATE;
    for _ in 0..MAX_WARMUP_STEPS {
        if walk == state {
            reached = true;
            break;
        }
        walk = step_rng(walk);
    }
    assert!(reached);
}

#[test]
fn generate_rng2_state_starts_from_its_own_state() {
    let mut first = seeded(9);
    let mut second = seeded(9);
    let one = generate_rng1_state(&mut first);
    let two = generate_rng2_state(&mut second);
    assert_ne!(one, two);
}

#[test]
fn same_shared_state_gives_the_same_candidates_on_both_peers() {
    let mut offerer = seeded(42);
    let mut answerer = seeded(42);
    let offerer_seeds = draw_round_seeds(&mut offerer, true);
    let answerer_seeds = draw_round_seeds(&mut answerer, false);
    assert_eq!(offerer_seeds, RngSeeds { rng1: 0x75f2_7bad, rng2: 0x9ba5_9652 });
    assert_eq!(answerer_seeds, RngSeeds { rng1: 0xf2b1_fb10, rng2: 0x9ba5_9652 });
    // Both peers have consumed the same number of draws.
    assert_eq!(generate_rng1_state(&mut offerer), generate_rng1_state(&mut answerer));
}

#[test]
fn round_seeds_picks_the_candidate_of_the_player() {
    assert_eq!(round_seeds(true, 1, 2, 3), RngSeeds { rng1: 1, rng2: 3 });
    assert_eq!(round_seeds(false, 1, 2, 3), RngSeeds { rng1: 2, rng2: 3 });
}

#[test]
fn battle_settings_and_background_give_the_known_picks() {
    let mut rng = seeded(42);
    assert_eq!(random_battle_settings_and_background(&mut rng, 200, 100), (15, 2));
}

#[test]
fn battle_settings_and_background_stay_below_their_totals() {
    let mut rng = seeded(1234);
    for _ in 0..200 {
        let (settings, background) = random_battle_settings_and_background(&mut rng, 3, 1);
        assert!(settings < 3);
        assert_eq!(background, 0);
    }
}
