use otoware::levels::{GainLevel, VolumeLevel, MAX_LEVEL};

#[test]
fn levels_above_hundred_are_rejected() {
    assert_eq!(GainLevel::new(101), None);
    assert_eq!(VolumeLevel::new(101), None);
    assert_eq!(GainLevel::new(255), None);
    assert_eq!(VolumeLevel::new(255), None);
    assert_eq!(MAX_LEVEL, 100);
}

#[test]
fn boundary_levels_are_accepted() {
    assert_eq!(GainLevel::new(0).unwrap().value(), 0);
    assert_eq!(GainLevel::new(100).unwrap().value(), 100);
    assert_eq!(VolumeLevel::new(0).unwrap().value(), 0);
    assert_eq!(VolumeLevel::new(100).unwrap().value(), 100);
}

#[test]
fn gain_zero_means_unit_factor() {
    let (num, den) = GainLevel::new(0).unwrap().factor_exponent();
    assert_eq!((num, den), (0, 20));
    let factor = 10.0f32.powf(num as f32 / den as f32);
    assert_eq!(factor, 1.0);
    assert_eq!(GainLevel::new(40).unwrap().factor_exponent(), (40, 20));
}

#[test]
fn volume_fractions_at_the_ends() {
    assert_eq!(VolumeLevel::new(0).unwrap().fraction(), (0, 100));
    assert_eq!(VolumeLevel::new(100).unwrap().fraction(), (100, 100));
    assert_eq!(VolumeLevel::new(37).unwrap().fraction(), (37, 100));
}

#[test]
fn starting_levels() {
    assert_eq!(GainLevel::unity().value(), 0);
    assert_eq!(VolumeLevel::half().value(), 50);
}
