use doryen_extra::noise::algorithms::AlgorithmInitializer;
use doryen_extra::random::algorithms::{ComplementaryMultiplyWithCarry, MersenneTwister};
use doryen_extra::random::{seed_from_bytes, Dice, Random};

#[test]
fn mersenne_twister_reference_sequence() {
    let mut rng = Random::new_mt_from_seed(5489);
    let expected = [3499211612u32, 581869302, 3890346734, 3586334585, 545404204];
    for e in expected.iter() {
        assert_eq!(rng.get_int(), *e);
    }
}

#[test]
fn mersenne_twister_ten_thousandth_output() {
    let mut rng = Random::new_mt_from_seed(5489);
    let mut last = 0;
    for _ in 0..10000 {
        last = rng.get_int();
    }
    assert_eq!(last, 4123659995);
}

#[test]
fn cmwc_known_sequence() {
    let mut rng = Random::new_cmwc_from_seed(42);
    let expected = [1586541335u32, 66084410, 3621089460, 3755974890, 2578903852];
    for e in expected.iter() {
        assert_eq!(rng.get_int(), *e);
    }
}

#[test]
fn same_seed_gives_same_sequence() {
    let mut a = Random::new_cmwc_from_seed(7);
    let mut b = Random::new_cmwc_from_seed(7);
    for _ in 0..5000 {
        assert_eq!(a.get_i32(-10, 10), b.get_i32(-10, 10));
    }
    let mut c: Random<MersenneTwister> = Random::new_mt_from_seed(7);
    let mut d = c.clone();
    for _ in 0..1000 {
        assert_eq!(c.get_int(), d.get_int());
    }
}

#[test]
fn get_i32_stays_in_range_either_order() {
    let mut rng = Random::new_mt_from_seed(3);
    for _ in 0..1000 {
        let v = rng.get_i32(5, -5);
        assert!((-5..=5).contains(&v));
        let w = rng.get_i32(i32::MIN, i32::MAX);
        let _ = w;
    }
}

#[test]
fn get_i32_equal_bounds_consumes_a_draw() {
    let mut a = Random::new_mt_from_seed(11);
    let mut b = Random::new_mt_from_seed(11);
    assert_eq!(a.get_i32(4, 4), 4);
    b.get_int();
    assert_eq!(a.get_int(), b.get_int());
}

#[test]
fn get_i32_reduces_the_raw_word() {
    let mut rng = Random::new_mt_from_seed(5489);
    assert_eq!(rng.get_i32(0, 9), (3499211612u32 % 10) as i32);
    assert_eq!(rng.get_i32(-3, 3), (581869302u32 % 7) as i32 - 3);
}

#[test]
fn dice_three_d_six() {
    let dice = Dice::new("3d6");
    assert_eq!(dice.nb_rolls, 3);
    assert_eq!(dice.nb_faces, 6);
    assert_eq!(dice.multiplier, 1);
    assert_eq!(dice.add_sub, 0);
    let mut rng = Random::new_mt_from_seed(42);
    assert_eq!(dice.roll(&mut rng), 12);
}

#[test]
fn dice_multiplier_and_offset() {
    let mut rng = Random::new_mt_from_seed(42);
    assert_eq!(Dice::new("5*3d6+2").roll(&mut rng), (12 + 2) * 5);
    let mut rng = Random::new_mt_from_seed(42);
    assert_eq!(Dice::single_roll(&mut rng, "2x3D6-1"), (12 - 1) * 2);
}

#[test]
fn dice_malformed_fields_read_as_zero() {
    let dice = Dice::new("a*bdc+");
    assert_eq!(dice.multiplier, 0);
    assert_eq!(dice.nb_rolls, 0);
    assert_eq!(dice.nb_faces, 0);
    assert_eq!(dice.add_sub, 0);
    let big = Dice::new("3d99999999999");
    assert_eq!(big.nb_faces, 0);
    let mut rng = Random::new_mt_from_seed(1);
    assert_eq!(dice.roll(&mut rng), 0);
}

#[test]
fn dice_roll_saturates() {
    let dice = Dice::new("2147483647*1d1+2147483647");
    let mut rng = Random::new_mt_from_seed(1);
    assert_eq!(dice.roll(&mut rng), i32::MAX);
    let dice = Dice::new("-2147483648*1d1");
    assert_eq!(dice.roll(&mut rng), i32::MIN);
}

#[test]
fn permutation_map_is_a_permutation() {
    for seed in 0..20u32 {
        let mut init = AlgorithmInitializer::new(Random::new_mt_from_seed(seed));
        let map = init.map();
        let mut seen = [false; 256];
        for &v in map.iter() {
            assert!(!seen[v as usize]);
            seen[v as usize] = true;
        }
        let mut init = AlgorithmInitializer::new(Random::new_cmwc_from_seed(seed));
        let map = init.map();
        let mut sorted = map.to_vec();
        sorted.sort();
        assert_eq!(sorted, (0..=255u8).collect::<Vec<u8>>());
    }
}

#[test]
fn permutation_map_known_values() {
    let mut init = AlgorithmInitializer::new(Random::new_mt_from_seed(1));
    let map = init.map();
    assert_eq!(&map[..8], &[26, 1, 86, 185, 211, 243, 199, 117]);
}

#[test]
fn unseeded_generators_draw() {
    let mut mt = Random::new_mt();
    let mut cmwc: Random<ComplementaryMultiplyWithCarry> = Random::new_cmwc();
    let v = mt.get_i32(1, 6);
    assert!((1..=6).contains(&v));
    let w = cmwc.get_i32(1, 6);
    assert!((1..=6).contains(&w));
}

#[test]
fn seed_bytes_are_big_endian() {
    assert_eq!(seed_from_bytes([0x12, 0x34, 0x56, 0x78]), 0x1234_5678);
    assert_eq!(seed_from_bytes([0, 0, 0, 1]), 1);
    assert_eq!(seed_from_bytes([0xFF, 0xFF, 0xFF, 0xFF]), u32::MAX);
}
