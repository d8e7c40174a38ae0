use orientation_telemetry::classify::FLAT_THRESHOLD_MILLI;
use orientation_telemetry::classify::board_is_flat;
use orientation_telemetry::classify::bucket_from_angle;
use orientation_telemetry::classify::tilt_direction;
use orientation_telemetry::direction::Direction;
use orientation_telemetry::vector::BoardVector;
use orientation_telemetry::vector::MathError;
use orientation_telemetry::vector::RawSample;
use orientation_telemetry::vector::UnitVector;
use orientation_telemetry::vector::g_from_raw_acc_value;
use orientation_telemetry::vector::normalize;

fn unit(x: i32, y: i32, z: i32) -> UnitVector {
    UnitVector { x, y, z }
}

#[test]
fn flat_within_threshold_regardless_of_z() {
    assert_eq!(FLAT_THRESHOLD_MILLI, 87);
    assert!(board_is_flat(&unit(0, 0, 1000)));
    assert!(board_is_flat(&unit(87, -87, 996)));
    assert!(board_is_flat(&unit(-87, 87, -996)));
    assert_eq!(tilt_direction(&unit(87, 87, -993)), None);
    assert_eq!(tilt_direction(&unit(-87, -87, 0)), None);
    assert!(!board_is_flat(&unit(88, 0, 996)));
    assert!(tilt_direction(&unit(88, 0, 996)).is_some());
    assert!(tilt_direction(&unit(0, -88, 996)).is_some());
}

#[test]
fn bucket_boundaries_belong_to_lower_bucket() {
    assert_eq!(bucket_from_angle(250), Direction::North);
    assert_eq!(bucket_from_angle(750), Direction::NorthEast);
    assert_eq!(bucket_from_angle(1250), Direction::East);
    assert_eq!(bucket_from_angle(1750), Direction::SouthEast);
    assert_eq!(bucket_from_angle(2250), Direction::South);
    assert_eq!(bucket_from_angle(2750), Direction::SouthWest);
    assert_eq!(bucket_from_angle(3250), Direction::West);
    assert_eq!(bucket_from_angle(3750), Direction::NorthWest);
    assert_eq!(bucket_from_angle(251), Direction::NorthEast);
    assert_eq!(bucket_from_angle(751), Direction::East);
    assert_eq!(bucket_from_angle(3751), Direction::North);
    assert_eq!(bucket_from_angle(0), Direction::North);
}

#[test]
fn scenario_angles_bucket_as_documented() {
    assert_eq!(bucket_from_angle(100), Direction::North);
    assert_eq!(bucket_from_angle(500), Direction::NorthEast);
    assert_eq!(bucket_from_angle(3900), Direction::North);
}

#[test]
fn flat_sample_from_raw_reading() {
    let raw = RawSample { x: 0, y: 0, z: 16384 };
    let board = g_from_raw_acc_value(&raw);
    assert_eq!(board, BoardVector { x: 0, y: 0, z: 16384 });
    let u = normalize(&board).unwrap();
    assert_eq!(u, unit(0, 0, 1000));
    assert_eq!(tilt_direction(&u), None);
}

#[test]
fn normalize_rejects_the_zero_vector() {
    let r = normalize(&BoardVector { x: 0, y: 0, z: 0 });
    assert_eq!(r, Err(MathError::DegenerateVector));
}

#[test]
fn normalize_scales_exactly() {
    // A 3-4-5 triangle in the horizontal plane: the magnitude is exact.
    let board = BoardVector { x: 4, y: -3, z: 0 };
    let u = normalize(&board).unwrap();
    assert_eq!(u, unit(800, -600, 0));

    let board = BoardVector { x: -16384, y: 0, z: 0 };
    let u = normalize(&board).unwrap();
    assert_eq!(u, unit(-1000, 0, 0));
}

#[test]
fn normalize_keeps_the_unit_norm_for_short_vectors() {
    // The shortest diagonal input still normalizes to nearly one:
    // 707 per mille is 1/sqrt(2) rounded down.
    let u = normalize(&BoardVector { x: 1, y: 1, z: 0 }).unwrap();
    assert_eq!(u, unit(707, 707, 0));
    let norm_sq = u.x * u.x + u.y * u.y + u.z * u.z;
    assert!((993998..=1000000).contains(&norm_sq));
}

#[test]
fn normalize_discards_magnitude() {
    let short = normalize(&BoardVector { x: 1, y: 1, z: 0 }).unwrap();
    let long = normalize(&BoardVector { x: 10, y: 10, z: 0 }).unwrap();
    assert_eq!(short, long);

    let short = normalize(&BoardVector { x: 4, y: -3, z: 0 }).unwrap();
    let long = normalize(&BoardVector { x: 400, y: -300, z: 0 }).unwrap();
    assert_eq!(short, long);
}

#[test]
fn axis_tilts_classify_to_their_compass_point() {
    assert_eq!(tilt_direction(&unit(0, 1000, 0)), Some(Direction::North));
    assert_eq!(tilt_direction(&unit(1000, 0, 0)), Some(Direction::East));
    assert_eq!(tilt_direction(&unit(0, -1000, 0)), Some(Direction::South));
    assert_eq!(tilt_direction(&unit(-1000, 0, 0)), Some(Direction::West));
}

#[test]
fn diagonal_tilts_classify_to_the_intercardinals() {
    assert_eq!(tilt_direction(&unit(700, 700, 100)), Some(Direction::NorthEast));
    assert_eq!(tilt_direction(&unit(700, -700, 100)), Some(Direction::SouthEast));
    assert_eq!(tilt_direction(&unit(-700, -700, 100)), Some(Direction::SouthWest));
    assert_eq!(tilt_direction(&unit(-700, 700, 100)), Some(Direction::NorthWest));
}

#[test]
fn full_pipeline_classifies_an_eastward_tilt() {
    // Sensor frame: board x is sensor y, so a positive sensor y reading is a
    // tilt toward board east.
    let raw = RawSample { x: 0, y: 16384, z: 0 };
    let board = g_from_raw_acc_value(&raw);
    let u = normalize(&board).unwrap();
    assert_eq!(u, unit(1000, 0, 0));
    assert_eq!(tilt_direction(&u), Some(Direction::East));
}

#[test]
fn direction_index_round_trips() {
    let all = [
        Direction::North,
        Direction::NorthEast,
        Direction::East,
        Direction::SouthEast,
        Direction::South,
        Direction::SouthWest,
        Direction::West,
        Direction::NorthWest,
    ];
    for (i, d) in all.iter().enumerate() {
        assert_eq!(d.index(), i);
        assert_eq!(Direction::from_index(i), *d);
    }
}
