use darkmode::mode::{mode_from_u32, Mode};

#[test]
fn one_is_dark() {
    assert_eq!(mode_from_u32(1), Mode::Dark);
}

#[test]
fn two_is_light() {
    assert_eq!(mode_from_u32(2), Mode::Light);
}

#[test]
fn zero_is_no_preference() {
    assert_eq!(mode_from_u32(0), Mode::Default);
}

#[test]
fn unknown_numbers_are_no_preference() {
    for raw in [3u32, 4, 255, 256, 65_535, 1 << 31, u32::MAX - 1, u32::MAX] {
        assert_eq!(mode_from_u32(raw), Mode::Default, "{raw}");
    }
}

#[test]
fn only_one_and_two_name_a_preference() {
    for raw in 0u32..=1024 {
        let expected = match raw {
            1 => Mode::Dark,
            2 => Mode::Light,
            _ => Mode::Default,
        };
        assert_eq!(mode_from_u32(raw), expected);
    }
}

#[test]
fn default_mode_is_no_preference() {
    assert_eq!(Mode::default(), Mode::Default);
    assert_eq!(Mode::default(), mode_from_u32(0));
}

#[test]
fn mode_is_reachable_from_the_crate_root() {
    let mode: darkmode::Mode = darkmode::mode_from_u32(2);
    assert_eq!(mode, Mode::Light);
}

#[test]
fn modes_are_plain_values() {
    let mode = Mode::Dark;
    let copy = mode;
    assert_eq!(mode, copy);
    assert_ne!(Mode::Dark, Mode::Light);
    assert_ne!(Mode::Dark, Mode::Default);
    assert_eq!(format!("{:?}", Mode::Light), "Light");
}
