use obot::hall::{rem_euclid_6, HallElectricalAngle, HallEncoder};

#[test]
fn follows_cpp_forward_hall_table() {
    let mut encoder = HallEncoder::new();
    for (raw, expected) in [(1, 1), (3, 2), (2, 3), (6, 4), (4, 5), (5, 6), (1, 7)] {
        assert_eq!(encoder.read(raw), expected);
    }
    assert_eq!(encoder.count(), 7);
}

#[test]
fn wraps_reverse_hall_steps() {
    let mut encoder = HallEncoder::new();
    encoder.read(1);
    assert_eq!(encoder.read(5), 0);
    assert_eq!(encoder.read(4), -1);
    assert_eq!(encoder.read(6), -2);
}

#[test]
fn ignores_invalid_zero_and_seven_states() {
    let mut encoder = HallEncoder::new();
    assert_eq!(encoder.read(0), 0);
    assert_eq!(encoder.read(7), 0);
    assert_eq!(encoder.read(1), 1);
    assert_eq!(encoder.read(7), 1);
}

#[test]
fn read_sample_exposes_last_valid_hall_sector() {
    let mut encoder = HallEncoder::new();
    assert_eq!(encoder.read_sample(0).hall_count, 0);
    let sample = encoder.read_sample(1);
    assert_eq!(sample.count, 1);
    assert_eq!(sample.hall_count, 1);
    let invalid = encoder.read_sample(7);
    assert_eq!(invalid.count, 1);
    assert_eq!(invalid.hall_count, 1);
}

#[test]
fn motor_hall_sectors_run_against_the_hall_count() {
    let angle = HallElectricalAngle::motor_hall();
    assert_eq!(angle.sector(0), 0);
    assert_eq!(angle.sector(1), 5);
    assert_eq!(angle.sector(2), 4);
    assert_eq!(angle.sector(3), 3);
    assert_eq!(angle.sector(-1), 1);
    assert_eq!(angle.signed_electrical_count(7), -7);
    for hall_count in 0..=6 {
        assert_eq!(
            HallElectricalAngle::motor_hall_sector(hall_count),
            angle.hall_count_sector(hall_count)
        );
    }
    let forward = HallElectricalAngle::new(1, 2);
    assert_eq!(forward.sector(2), 0);
    assert_eq!(forward.sector(9), 1);
    assert_eq!(forward.hall_count_sector(6), 0);
    assert_eq!(forward.hall_count_sector(4), 4);
}

#[test]
fn remainder_is_euclidean() {
    assert_eq!(rem_euclid_6(-1), 5);
    assert_eq!(rem_euclid_6(-6), 0);
    assert_eq!(rem_euclid_6(13), 1);
    assert_eq!(rem_euclid_6(i32::MIN), i32::MIN.rem_euclid(6));
}

#[test]
fn count_stays_congruent_to_the_last_sector() {
    let mut encoder = HallEncoder::new();
    for raw in [1u8, 3, 2, 6, 4, 5, 1, 5, 4, 0, 7, 4, 6] {
        let sample = encoder.read_sample(raw);
        assert_eq!((sample.count - sample.hall_count as i32).rem_euclid(6), 0);
    }
}
