use doryen_extra::noise::algorithms::hashing::permute;
use doryen_extra::noise::algorithms::perlin::lattice_index;
use doryen_extra::noise::algorithms::simplex::{simplex_4d_rank, Simplex};
use doryen_extra::noise::algorithms::wavelet::tile_index;
use doryen_extra::noise::algorithms::AlgorithmInitializer;
use doryen_extra::random::Random;
use doryen_extra::util::FloorRem;

fn reversed_table() -> [u8; 256] {
    let mut map = [0u8; 256];
    for (i, m) in map.iter_mut().enumerate() {
        *m = 255 - i as u8;
    }
    map
}

#[test]
fn floor_modulo_of_negative_values_is_non_negative() {
    assert_eq!((-1i32).floor_modulo(256), 255);
    assert_eq!((-256i32).floor_modulo(256), 0);
    assert_eq!((-257i32).floor_modulo(256), 255);
    assert_eq!(300i32.floor_modulo(256), 44);
    assert_eq!((-33isize).floor_modulo(32), 31);
    assert_eq!(i32::MIN.floor_modulo(32), 0);
    assert_eq!(7i32.floor_modulo(-3), 1);
    assert_eq!((-7i32).floor_modulo(-3), -4);
}

#[test]
fn permute_wraps_its_index() {
    let map = reversed_table();
    assert_eq!(permute(&map, 0), 255);
    assert_eq!(permute(&map, 256), 255);
    assert_eq!(permute(&map, -1), 0);
    assert_eq!(permute(&map, 1 << 40), 255);
}

#[test]
fn lattice_index_hashes_coordinates_in_order() {
    let map = reversed_table();
    assert_eq!(lattice_index(&map, &[3, 99, 99, 99], 1), 252);
    // 255 - ((252 + 5) mod 256) = 254
    assert_eq!(lattice_index(&map, &[3, 5, 99, 99], 2), 254);
    assert_eq!(lattice_index(&map, &[-1, 0, 0, 0], 1), 0);
    // i32::MAX wraps to 255, giving 0; then i32::MIN wraps to 0, giving 255.
    assert_eq!(lattice_index(&map, &[i32::MAX, i32::MIN, 0, 0], 2), 255);
    assert_eq!(lattice_index(&map, &[1, 2, 3, 4], 0), 0);
}

#[test]
fn simplex_hashes_nest_from_the_last_coordinate() {
    let init = AlgorithmInitializer::new(Random::new_mt_from_seed(9));
    let simplex = Simplex::new(4, init);
    assert_eq!(simplex.dimensions(), 4);
    let h1 = simplex.hash_1d(7);
    assert_eq!(simplex.hash_1d(7 + 256), h1);
    assert_eq!(simplex.hash_1d(7 - 256), h1);
    let inner = simplex.hash_1d(4);
    assert_eq!(simplex.hash_2d(3, 4), simplex.hash_1d(3 + inner));
    let h3 = simplex.hash_3d(1, 2, 3);
    assert_eq!(h3, simplex.hash_2d(1, 2 + simplex.hash_1d(3)));
    let h4 = simplex.hash_4d(1, 2, 3, 4);
    assert_eq!(h4, simplex.hash_3d(1, 2, 3 + simplex.hash_1d(4)));
    assert!((0..256).contains(&h4));
}

#[test]
fn simplex_table_matches_the_initializer_map() {
    let mut init = AlgorithmInitializer::new(Random::new_mt_from_seed(1));
    let map = init.map();
    let simplex = Simplex::new(2, AlgorithmInitializer::new(Random::new_mt_from_seed(1)));
    for i in 0..256 {
        assert_eq!(simplex.hash_1d(i), map[i as usize] as i32);
    }
}

#[test]
fn initializer_gives_back_the_advanced_generator() {
    let mut init = AlgorithmInitializer::new(Random::new_mt_from_seed(5));
    init.map();
    let mut after = init.into_random();
    let mut reference = Random::new_mt_from_seed(5);
    for _ in 0..255 {
        reference.get_int();
    }
    assert_eq!(after.get_int(), reference.get_int());
}

#[test]
fn simplex_4d_table_entries() {
    let table: [[u8; 4]; 64] = [
        [0, 1, 2, 3],
        [0, 1, 3, 2],
        [0, 0, 0, 0],
        [0, 2, 3, 1],
        [0, 0, 0, 0],
        [0, 0, 0, 0],
        [0, 0, 0, 0],
        [1, 2, 3, 0],
        [0, 2, 1, 3],
        [0, 0, 0, 0],
        [0, 3, 1, 2],
        [0, 3, 2, 1],
        [0, 0, 0, 0],
        [0, 0, 0, 0],
        [0, 0, 0, 0],
        [1, 3, 2, 0],
        [0, 0, 0, 0],
        [0, 0, 0, 0],
        [0, 0, 0, 0],
        [0, 0, 0, 0],
        [0, 0, 0, 0],
        [0, 0, 0, 0],
        [0, 0, 0, 0],
        [0, 0, 0, 0],
        [1, 2, 0, 3],
        [0, 0, 0, 0],
        [1, 3, 0, 2],
        [0, 0, 0, 0],
        [0, 0, 0, 0],
        [0, 0, 0, 0],
        [2, 3, 0, 1],
        [2, 3, 1, 0],
        [1, 0, 2, 3],
        [1, 0, 3, 2],
        [0, 0, 0, 0],
        [0, 0, 0, 0],
        [0, 0, 0, 0],
        [2, 0, 3, 1],
        [0, 0, 0, 0],
        [2, 1, 3, 0],
        [0, 0, 0, 0],
        [0, 0, 0, 0],
        [0, 0, 0, 0],
        [0, 0, 0, 0],
        [0, 0, 0, 0],
        [0, 0, 0, 0],
        [0, 0, 0, 0],
        [0, 0, 0, 0],
        [2, 0, 1, 3],
        [0, 0, 0, 0],
        [0, 0, 0, 0],
        [0, 0, 0, 0],
        [3, 0, 1, 2],
        [3, 0, 2, 1],
        [0, 0, 0, 0],
        [3, 1, 2, 0],
        [2, 1, 0, 3],
        [0, 0, 0, 0],
        [0, 0, 0, 0],
        [0, 0, 0, 0],
        [3, 1, 0, 2],
        [0, 0, 0, 0],
        [3, 2, 0, 1],
        [3, 2, 1, 0],
    ];
    for (code, row) in table.iter().enumerate() {
        for axis in 0..4 {
            assert_eq!(simplex_4d_rank(code as u8, axis), row[axis], "code {} axis {}", code, axis);
        }
    }
}

#[test]
fn wavelet_tile_index_wraps_each_axis_by_floor_modulo() {
    assert_eq!(tile_index(0, 0, 0), 0);
    assert_eq!(tile_index(1, 2, 3), 1 + 2 * 32 + 3 * 1024);
    assert_eq!(tile_index(-1, 0, 0), 31);
    assert_eq!(tile_index(0, -1, 0), 31 * 32);
    assert_eq!(tile_index(0, 0, -33), 31 * 1024);
    assert_eq!(tile_index(32, 64, 96), 0);
    assert_eq!(tile_index(i32::MIN, i32::MAX, 0), 31 * 32);
}
