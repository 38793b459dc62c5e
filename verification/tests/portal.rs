use darkmode::portal::{
    is_color_scheme, same_text, CALL_TIMEOUT_MS, COLOR_SCHEME, INTERFACE, MODERN_VERSION,
    NAMESPACE, OBJECT_PATH, POLL_TIMEOUT_MS, READ, READ_ONE, SERVICE, SETTING_CHANGED, VERSION,
};

#[test]
fn addresses_are_those_of_the_settings_portal() {
    assert_eq!(SERVICE, "org.freedesktop.portal.Desktop");
    assert_eq!(OBJECT_PATH, "/org/freedesktop/portal/desktop");
    assert_eq!(INTERFACE, "org.freedesktop.portal.Settings");
    assert_eq!(NAMESPACE, "org.freedesktop.appearance");
    assert_eq!(COLOR_SCHEME, "color-scheme");
    assert_eq!(READ_ONE, "ReadOne");
    assert_eq!(READ, "Read");
    assert_eq!(VERSION, "version");
    assert_eq!(SETTING_CHANGED, "SettingChanged");
}

#[test]
fn limits_are_a_tenth_of_a_second_and_a_second() {
    assert_eq!(CALL_TIMEOUT_MS, 100);
    assert_eq!(POLL_TIMEOUT_MS, 1000);
    assert_eq!(MODERN_VERSION, 2);
}

#[test]
fn same_text_accepts_equal_strings() {
    assert!(same_text("", ""));
    assert!(same_text("a", "a"));
    assert!(same_text("color-scheme", "color-scheme"));
    assert!(same_text(&String::from("org.freedesktop.appearance"), NAMESPACE));
    assert!(same_text("farbschema-\u{e4}\u{20ac}\u{1f319}", "farbschema-\u{e4}\u{20ac}\u{1f319}"));
}

#[test]
fn same_text_rejects_a_difference_anywhere() {
    assert!(!same_text("color-scheme", "Color-scheme"));
    assert!(!same_text("color-scheme", "color-schema"));
    assert!(!same_text("color-scheme", "color_scheme"));
    assert!(!same_text("\u{e4}", "\u{e5}"));
    assert!(!same_text("\u{e4}", "a\u{308}"));
}

#[test]
fn same_text_rejects_a_difference_in_length() {
    assert!(!same_text("", "a"));
    assert!(!same_text("a", ""));
    assert!(!same_text("color-scheme", "color-scheme "));
    assert!(!same_text("color-scheme", "color-schem"));
    assert!(!same_text("color-scheme\0", "color-scheme"));
}

#[test]
fn same_text_agrees_with_string_equality() {
    let samples = ["", "a", "b", "ab", "ba", "color-scheme", "\u{e4}", "\u{20ac}", "a\u{e4}"];
    for left in samples {
        for right in samples {
            assert_eq!(same_text(left, right), left == right, "{left:?} {right:?}");
        }
    }
}

#[test]
fn the_fixed_pair_is_the_color_scheme() {
    assert!(is_color_scheme("org.freedesktop.appearance", "color-scheme"));
    assert!(is_color_scheme(NAMESPACE, COLOR_SCHEME));
}

#[test]
fn any_other_pair_is_not_the_color_scheme() {
    assert!(!is_color_scheme("org.freedesktop.appearance", "accent-color"));
    assert!(!is_color_scheme("org.freedesktop.appearance", "contrast"));
    assert!(!is_color_scheme("org.gnome.desktop.interface", "color-scheme"));
    assert!(!is_color_scheme("color-scheme", "org.freedesktop.appearance"));
    assert!(!is_color_scheme("org.freedesktop.Appearance", "color-scheme"));
    assert!(!is_color_scheme("org.freedesktop.appearance", "Color-Scheme"));
    assert!(!is_color_scheme("org.freedesktop.appearance ", "color-scheme"));
    assert!(!is_color_scheme("", ""));
}
