use raytrace::pcg32::PCG32State;

// Reference outputs of the standard 32-bit PCG stream for the seed pair
// (42, 54).
const REFERENCE_DRAWS: [u32; 6] = [
    0xa15c02b7, 0x7b47f409, 0xba1d3330, 0x83d2f293, 0xbfa4784b, 0xcbed606e,
];

#[test]
fn known_stream_for_reference_seed() {
    let mut rng = PCG32State::new(42, 54);
    for expected in REFERENCE_DRAWS {
        assert_eq!(rng.u32(), expected);
    }
}

#[test]
fn identical_seeds_give_identical_streams() {
    let mut a = PCG32State::new(12345, 678);
    let mut b = PCG32State::new(12345, 678);
    for _ in 0..8 {
        assert_eq!(a.u32(), b.u32());
    }
    for _ in 0..8 {
        assert_eq!(a.u32_between(3, 700), b.u32_between(3, 700));
    }
    for _ in 0..8 {
        assert_eq!(a.f32_bits(), b.f32_bits());
    }
}

#[test]
fn different_sequences_give_different_streams() {
    let mut a = PCG32State::new(12345, 1);
    let mut b = PCG32State::new(12345, 2);
    let draws_a: Vec<u32> = (0..4).map(|_| a.u32()).collect();
    let draws_b: Vec<u32> = (0..4).map(|_| b.u32()).collect();
    assert_ne!(draws_a, draws_b);
}

#[test]
fn reseeding_matches_fresh_construction() {
    let mut reseeded = PCG32State::new(1, 2);
    reseeded.u32();
    reseeded.seed(42, 54);
    let mut fresh = PCG32State::new(42, 54);
    for _ in 0..6 {
        assert_eq!(reseeded.u32(), fresh.u32());
    }
}

#[test]
fn u32_between_reduces_one_draw_modulo_the_width() {
    let mut rng = PCG32State::new(42, 54);
    assert_eq!(rng.u32_between(10, 20), 10 + (0xa15c02b7u32 % 10));

    let mut axis_rng = PCG32State::new(42, 54);
    let picks: Vec<u32> = (0..5).map(|_| axis_rng.u32_between(0, 3)).collect();
    assert_eq!(picks, vec![0, 0, 2, 1, 1]);
}

#[test]
fn u32_between_stays_inside_the_interval() {
    let mut rng = PCG32State::new(7, 9);
    for _ in 0..100 {
        let r = rng.u32_between(250, 260);
        assert!((250..260).contains(&r));
    }
}

#[test]
fn f32_bits_keeps_the_top_24_bits() {
    let mut rng = PCG32State::new(42, 54);
    for expected in REFERENCE_DRAWS {
        let bits = rng.f32_bits();
        assert_eq!(bits, expected >> 8);
        assert!(bits < 1 << 24);
    }
}

#[test]
fn f32_bits_quantises_to_the_unit_interval() {
    // The sample the caller derives from the bits lies in [0, 1).
    let mut rng = PCG32State::new(42, 54);
    for _ in 0..50 {
        let sample = rng.f32_bits() as f32 / (1u32 << 24) as f32;
        assert!((0.0..1.0).contains(&sample));
    }
}
