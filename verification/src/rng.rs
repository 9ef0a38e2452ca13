//! The in-game random number generators, and how their states are derived
//! from the generator that both peers seed from the negotiated seed.

use rand::Rng;
use rand::SeedableRng;
use rand_pcg::Mcg128Xsl64;
use vstd::prelude::*;

verus! {

/// The mask that the in-game generator applies on every step.
pub const RNG_STEP_MASK: u32 = 0x873ca9e5;

/// The state from which the private generator (RNG1) is warmed up.
pub const RNG1_INITIAL_STATE: u32 = 0;

/// The state from which the shared generators (RNG2 and RNG3) are warmed up.
pub const RNG2_INITIAL_STATE: u32 = 0xa338244f;

/// A warm-up takes fewer steps than this.
pub const MAX_WARMUP_STEPS: u32 = 0x10000;

/// `rand_pcg::Mcg128Xsl64`, the generator that both peers seed alike. Its
/// state is not visible here.
#[verifier::external_type_specification]
#[verifier::external_body]
pub struct ExMcg128Xsl64(Mcg128Xsl64);

/// One step of the in-game generator: the seed is rotated left by one bit,
/// one is added with wrap-around, and the mask is applied.
pub open spec fn spec_step_rng(seed: u32) -> u32 {
    ((((seed << 1) + (seed >> 31) + 1) % 0x1_0000_0000) as u32) ^ RNG_STEP_MASK
}

/// The state that `steps` steps lead to from `seed`.
pub open spec fn spec_advance_rng(seed: u32, steps: nat) -> u32
    decreases steps,
{
    if steps == 0 {
        seed
    } else {
        spec_step_rng(spec_advance_rng(seed, (steps - 1) as nat))
    }
}

/// Whether `state` can come out of a warm-up that starts at `initial`.
pub open spec fn is_warmed_up_from(initial: u32, state: u32) -> bool {
    exists|steps: nat|
        steps < MAX_WARMUP_STEPS && state == #[trigger] spec_advance_rng(initial, steps)
}

/// The generator that `SeedableRng::from_seed` makes of sixteen seed bytes.
pub uninterp spec fn spec_rng_from_seed(seed: Seq<u8>) -> Mcg128Xsl64;

/// The value that `Rng::gen_range` draws from a generator for a half-open
/// range of `i32`.
pub uninterp spec fn spec_draw_i32(rng: Mcg128Xsl64, low: i32, high: i32) -> i32;

/// The generator after `Rng::gen_range` has drawn from it for a half-open
/// range of `i32`.
pub uninterp spec fn spec_after_draw_i32(rng: Mcg128Xsl64, low: i32, high: i32) -> Mcg128Xsl64;

/// The value that `Rng::gen_range` draws from a generator for a half-open
/// range of `u8`.
pub uninterp spec fn spec_draw_u8(rng: Mcg128Xsl64, low: u8, high: u8) -> u8;

/// The generator after `Rng::gen_range` has drawn from it for a half-open
/// range of `u8`.
pub uninterp spec fn spec_after_draw_u8(rng: Mcg128Xsl64, low: u8, high: u8) -> Mcg128Xsl64;

/// `SeedableRng::from_seed` for `Mcg128Xsl64`: the generator is a function
/// of the sixteen seed bytes. Which generator it is, is not claimed.
#[verifier::external_body]
pub(crate) fn rng_from_seed(seed: [u8; 16]) -> (rng: Mcg128Xsl64)
    ensures
        rng == spec_rng_from_seed(seed@),
{
    Mcg128Xsl64::from_seed(seed)
}

/// `Rng::gen_range` on `Mcg128Xsl64` for a half-open range of `i32`. It
/// panics on an empty range, which the precondition leaves out. The value
/// drawn lies in the range; it and the generator afterwards are functions of
/// the generator before and of the range. Which value is drawn is not
/// claimed.
#[verifier::external_body]
pub(crate) fn gen_range_i32(rng: &mut Mcg128Xsl64, low: i32, high: i32) -> (value: i32)
    requires
        low < high,
    ensures
        low <= value < high,
        value == spec_draw_i32(*old(rng), low, high),
        *final(rng) == spec_after_draw_i32(*old(rng), low, high),
{
    rng.gen_range(low..high)
}

/// `Rng::gen_range` on `Mcg128Xsl64` for a half-open range of `u8`. It panics
/// on an empty range, which the precondition leaves out. The value drawn lies
/// in the range; it and the generator afterwards are functions of the
/// generator before and of the range. Which value is drawn is not claimed.
#[verifier::external_body]
pub(crate) fn gen_range_u8(rng: &mut Mcg128Xsl64, low: u8, high: u8) -> (value: u8)
    requires
        low < high,
    ensures
        low <= value < high,
        value == spec_draw_u8(*old(rng), low, high),
        *final(rng) == spec_after_draw_u8(*old(rng), low, high),
{
    rng.gen_range(low..high)
}

/// Advances the in-game generator by one step.
pub fn step_rng(seed: u32) -> (next: u32)
    ensures
        next == spec_step_rng(seed),
{
    let shifted: u32 = seed << 1;
    let carried: u32 = seed >> 31;
    assert(shifted + carried < 0x1_0000_0000) by (bit_vector)
        requires
            shifted == seed << 1,
            carried == seed >> 31,
    ;
    let rotated: u32 = shifted + carried;
    let bumped: u32 = rotated.wrapping_add(1);
    bumped ^ RNG_STEP_MASK
}

/// Advances the in-game generator by `steps` steps.
pub fn advance_rng(seed: u32, steps: u32) -> (state: u32)
    ensures
        state == spec_advance_rng(seed, steps as nat),
{
    let mut state: u32 = seed;
    let mut done: u32 = 0;
    while done < steps
        invariant
            done <= steps,
            state == spec_advance_rng(seed, done as nat),
        decreases steps - done,
    {
        state = step_rng(state);
        done = done + 1;
    }
    state
}

/// The state that a warm-up from `initial` ends in: as many steps from
/// `initial` as the shared generator draws.
pub open spec fn spec_warm_up(rng: Mcg128Xsl64, initial: u32) -> u32 {
    spec_advance_rng(initial, spec_draw_i32(rng, 0, MAX_WARMUP_STEPS as i32) as nat)
}

/// The shared generator after a warm-up has drawn from it.
pub open spec fn spec_after_warm_up(rng: Mcg128Xsl64) -> Mcg128Xsl64 {
    spec_after_draw_i32(rng, 0, MAX_WARMUP_STEPS as i32)
}

/// Warms a generator up from `initial` by a number of steps that the shared
/// generator draws.
fn warm_up(rng: &mut Mcg128Xsl64, initial: u32) -> (state: u32)
    ensures
        state == spec_warm_up(*old(rng), initial),
        *final(rng) == spec_after_warm_up(*old(rng)),
        is_warmed_up_from(initial, state),
{
    let drawn: i32 = gen_range_i32(rng, 0, MAX_WARMUP_STEPS as i32);
    let steps: u32 = drawn as u32;
    advance_rng(initial, steps)
}

/// Draws a state for the private generator (RNG1) from the shared generator:
/// the state that the draw's number of steps leads to from the initial state
/// of RNG1. The shared generator has made one draw.
pub fn generate_rng1_state(rng: &mut Mcg128Xsl64) -> (state: u32)
    ensures
        state == spec_warm_up(*old(rng), RNG1_INITIAL_STATE),
        *final(rng) == spec_after_warm_up(*old(rng)),
        is_warmed_up_from(RNG1_INITIAL_STATE, state),
{
    warm_up(rng, RNG1_INITIAL_STATE)
}

/// Draws a state for the shared generators (RNG2 and RNG3) from the shared
/// generator: the state that the draw's number of steps leads to from the
/// initial state of RNG2. The shared generator has made one draw.
pub fn generate_rng2_state(rng: &mut Mcg128Xsl64) -> (state: u32)
    ensures
        state == spec_warm_up(*old(rng), RNG2_INITIAL_STATE),
        *final(rng) == spec_after_warm_up(*old(rng)),
        is_warmed_up_from(RNG2_INITIAL_STATE, state),
{
    warm_up(rng, RNG2_INITIAL_STATE)
}

/// The states that the in-game generators start a round from.
#[derive(Clone, Copy, Debug, PartialEq, Eq, Structural)]
pub struct RngSeeds {
    /// The private generator (RNG1) of the player that the instance plays.
    pub rng1: u32,
    /// The generators that both players share (RNG2 and RNG3).
    pub rng2: u32,
}

/// The seeds of an instance, from the three states drawn: the private
/// generator takes the candidate of the player that the instance plays, the
/// shared generators take the shared state.
pub open spec fn spec_round_seeds(
    plays_offerer: bool,
    offerer_state: u32,
    answerer_state: u32,
    shared_state: u32,
) -> RngSeeds {
    RngSeeds {
        rng1: if plays_offerer {
            offerer_state
        } else {
            answerer_state
        },
        rng2: shared_state,
    }
}

/// Whether `seeds` can come out of `draw_round_seeds`.
pub open spec fn is_round_seeds(seeds: RngSeeds) -> bool {
    &&& is_warmed_up_from(RNG1_INITIAL_STATE, seeds.rng1)
    &&& is_warmed_up_from(RNG2_INITIAL_STATE, seeds.rng2)
}

/// Picks the seeds of an instance from the three states drawn.
pub fn round_seeds(
    plays_offerer: bool,
    offerer_state: u32,
    answerer_state: u32,
    shared_state: u32,
) -> (seeds: RngSeeds)
    ensures
        seeds == spec_round_seeds(plays_offerer, offerer_state, answerer_state, shared_state),
{
    RngSeeds {
        rng1: if plays_offerer {
            offerer_state
        } else {
            answerer_state
        },
        rng2: shared_state,
    }
}

/// The two candidates for the private generator that are drawn from a
/// shared generator: the offerer's from the first draw, the answerer's from
/// the second.
pub open spec fn spec_rng1_candidates(rng: Mcg128Xsl64) -> (u32, u32) {
    (
        spec_warm_up(rng, RNG1_INITIAL_STATE),
        spec_warm_up(spec_after_warm_up(rng), RNG1_INITIAL_STATE),
    )
}

/// The state for the shared generators that is drawn from a shared
/// generator: it comes from the third draw.
pub open spec fn spec_shared_state(rng: Mcg128Xsl64) -> u32 {
    spec_warm_up(spec_after_warm_up(spec_after_warm_up(rng)), RNG2_INITIAL_STATE)
}

/// The seeds that an instance draws from a shared generator.
pub open spec fn spec_draw_round_seeds(rng: Mcg128Xsl64, plays_offerer: bool) -> RngSeeds {
    spec_round_seeds(
        plays_offerer,
        spec_rng1_candidates(rng).0,
        spec_rng1_candidates(rng).1,
        spec_shared_state(rng),
    )
}

/// The shared generator after an instance has drawn its seeds: it has made
/// three draws, whichever player the instance plays.
pub open spec fn spec_after_round_seeds(rng: Mcg128Xsl64) -> Mcg128Xsl64 {
    spec_after_warm_up(spec_after_warm_up(spec_after_warm_up(rng)))
}

/// Draws the seeds of an instance from the shared generator. The candidates
/// of both players are drawn, the offerer's first, whichever player the
/// instance plays, so that the shared generator moves alike on both peers.
pub fn draw_round_seeds(rng: &mut Mcg128Xsl64, plays_offerer: bool) -> (seeds: RngSeeds)
    ensures
        seeds == spec_draw_round_seeds(*old(rng), plays_offerer),
        *final(rng) == spec_after_round_seeds(*old(rng)),
        is_round_seeds(seeds),
{
    let offerer_state = generate_rng1_state(rng);
    let answerer_state = generate_rng1_state(rng);
    let shared_state = generate_rng2_state(rng);
    round_seeds(plays_offerer, offerer_state, answerer_state, shared_state)
}

/// Two peers whose shared generators are in one state have the same two
/// candidates and the same shared state before them, whichever of them
/// draws and whichever player its instance plays: the instance that plays the
/// offerer takes the first candidate, the instance that plays the answerer
/// takes the second, both take the same state for the shared generators, and
/// the two generators are in one state again afterwards.
pub proof fn lemma_rng1_symmetry(offerer_rng: Mcg128Xsl64, answerer_rng: Mcg128Xsl64)
    requires
        offerer_rng == answerer_rng,
    ensures
        spec_rng1_candidates(offerer_rng) == spec_rng1_candidates(answerer_rng),
        spec_draw_round_seeds(offerer_rng, true).rng1 == spec_rng1_candidates(answerer_rng).0,
        spec_draw_round_seeds(answerer_rng, false).rng1 == spec_rng1_candidates(offerer_rng).1,
        spec_draw_round_seeds(offerer_rng, true).rng2 == spec_draw_round_seeds(
            answerer_rng,
            false,
        ).rng2,
        spec_after_round_seeds(offerer_rng) == spec_after_round_seeds(answerer_rng),
{
}

/// The battle settings and the background that are drawn from a shared
/// generator: the settings from the first draw, the background from the
/// second.
pub open spec fn spec_battle_settings_and_background(
    rng: Mcg128Xsl64,
    total_settings: u8,
    total_bg: u8,
) -> (u8, u8) {
    (
        spec_draw_u8(rng, 0, total_settings),
        spec_draw_u8(spec_after_draw_u8(rng, 0, total_settings), 0, total_bg),
    )
}

/// The shared generator after the battle settings and the background have
/// been drawn from it.
pub open spec fn spec_after_battle_settings_and_background(
    rng: Mcg128Xsl64,
    total_settings: u8,
    total_bg: u8,
) -> Mcg128Xsl64 {
    spec_after_draw_u8(spec_after_draw_u8(rng, 0, total_settings), 0, total_bg)
}

/// Draws the battle settings and the background, each below its total: the
/// settings first, then the background. The shared generator has made two
/// draws.
pub fn random_battle_settings_and_background(
    rng: &mut Mcg128Xsl64,
    total_settings: u8,
    total_bg: u8,
) -> (picked: (u8, u8))
    requires
        total_settings > 0,
        total_bg > 0,
    ensures
        picked == spec_battle_settings_and_background(*old(rng), total_settings, total_bg),
        *final(rng) == spec_after_battle_settings_and_background(
            *old(rng),
            total_settings,
            total_bg,
        ),
        picked.0 < total_settings,
        picked.1 < total_bg,
{
    let settings: u8 = gen_range_u8(rng, 0, total_settings);
    let background: u8 = gen_range_u8(rng, 0, total_bg);
    (settings, background)
}

} // verus!
