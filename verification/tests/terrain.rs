use engine::terrain::{MAP_HEIGHT, MAP_SEED, MAP_WIDTH};
use engine::{classify, normalized, NoisePoint, Ratio, TileMap, TileType};
use noise::{NoiseFn, Perlin};

fn sample(perlin: &Perlin, point: &NoisePoint) -> i32 {
    let x = point.x.num as f64 / point.x.den as f64;
    let y = point.y.num as f64 / point.y.den as f64;
    (perlin.get([x, y]) * 1000.0).floor() as i32
}

fn noise_map(seed: u32, width: usize, height: usize) -> TileMap {
    let perlin = Perlin::new(seed);
    let points = TileMap::sample_points(width, height).unwrap();
    let samples: Vec<i32> = points.iter().map(|point| sample(&perlin, point)).collect();
    TileMap::generate(width, height, &samples).unwrap()
}

#[test]
fn the_ground_changes_at_the_two_thresholds() {
    assert_eq!(classify(-1000), TileType::Water);
    assert_eq!(classify(-201), TileType::Water);
    assert_eq!(classify(-200), TileType::Grass);
    assert_eq!(classify(0), TileType::Grass);
    assert_eq!(classify(199), TileType::Grass);
    assert_eq!(classify(200), TileType::Dirt);
    assert_eq!(classify(1000), TileType::Dirt);
    assert_eq!(classify(i32::MIN), TileType::Water);
    assert_eq!(classify(i32::MAX), TileType::Dirt);
}

#[test]
fn cells_are_placed_from_minus_a_half_up_to_a_half() {
    assert_eq!(normalized(0, 200), Ratio { num: -200, den: 400 });
    assert_eq!(normalized(100, 200), Ratio { num: 0, den: 400 });
    assert_eq!(normalized(199, 200), Ratio { num: 198, den: 400 });
    assert_eq!(normalized(0, 1), Ratio { num: -1, den: 2 });
    let far = normalized(usize::MAX - 1, usize::MAX);
    assert_eq!(far.num, usize::MAX as i128 - 2);
    assert_eq!(far.den, 2 * (usize::MAX as i128));
}

#[test]
fn noise_points_come_row_by_row() {
    let points = TileMap::sample_points(3, 2).unwrap();
    assert_eq!(points.len(), 6);
    for y in 0..2 {
        for x in 0..3 {
            let expected = NoisePoint { x: normalized(x, 3), y: normalized(y, 2) };
            assert_eq!(points[y * 3 + x], expected);
        }
    }
}

#[test]
fn a_grid_with_no_cells_has_no_points() {
    assert_eq!(TileMap::sample_points(0, 5), Some(Vec::new()));
    assert_eq!(TileMap::sample_points(5, 0), Some(Vec::new()));
}

#[test]
fn a_grid_too_large_to_count_has_no_points() {
    assert_eq!(TileMap::sample_points(usize::MAX, 2), None);
}

#[test]
fn tiles_follow_the_noise_one_for_one() {
    let samples = vec![-500, -200, 199, 200, 0, -201];
    let map = TileMap::generate(3, 2, &samples).unwrap();
    assert_eq!(map.width, 3);
    assert_eq!(map.height, 2);
    assert_eq!(
        map.tiles,
        vec![
            TileType::Water,
            TileType::Grass,
            TileType::Grass,
            TileType::Dirt,
            TileType::Grass,
            TileType::Water,
        ]
    );
    assert_eq!(map.tile(0, 0), Some(TileType::Water));
    assert_eq!(map.tile(2, 0), Some(TileType::Grass));
    assert_eq!(map.tile(0, 1), Some(TileType::Dirt));
    assert_eq!(map.tile(2, 1), Some(TileType::Water));
    assert_eq!(map.tile(3, 0), None);
    assert_eq!(map.tile(0, 2), None);
}

#[test]
fn the_number_of_noise_values_must_be_the_number_of_cells() {
    assert!(TileMap::generate(3, 2, &vec![0; 5]).is_none());
    assert!(TileMap::generate(3, 2, &vec![0; 7]).is_none());
    assert!(TileMap::generate(usize::MAX, 2, &vec![0; 2]).is_none());
    let empty = TileMap::generate(0, 7, &Vec::new()).unwrap();
    assert!(empty.tiles.is_empty());
    assert_eq!(empty.tile(0, 0), None);
}

#[test]
fn the_same_noise_gives_the_same_map() {
    let samples = vec![-300, 300, 10, -10];
    let first = TileMap::generate(2, 2, &samples).unwrap();
    let second = TileMap::generate(2, 2, &samples).unwrap();
    assert_eq!(first.tiles, second.tiles);
}

#[test]
fn the_map_of_the_game_is_the_same_on_every_run() {
    let first = noise_map(MAP_SEED, MAP_WIDTH, MAP_HEIGHT);
    assert_eq!(first.width, 200);
    assert_eq!(first.height, 200);
    assert_eq!(first.tiles.len(), 40000);
    let corner = first.tile(0, 0).unwrap();
    assert!(matches!(corner, TileType::Water | TileType::Grass | TileType::Dirt));
    let second = noise_map(123456, 200, 200);
    assert_eq!(second.tile(0, 0), Some(corner));
    assert_eq!(first.tiles, second.tiles);
}
