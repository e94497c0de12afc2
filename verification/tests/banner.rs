use kora::{intro_message, VERSION};

const TEXT: &str = "Kora editor -- version 0.1.0";

#[test]
fn version_is_the_package_version() {
    assert_eq!(VERSION, "0.1.0");
    assert_eq!(TEXT.len(), 28);
}

#[test]
fn banner_is_centred_on_a_wide_terminal() {
    let line = intro_message(80, VERSION);
    let expected = format!("~{}{}", " ".repeat(25), TEXT);
    assert_eq!(line, expected);
    assert_eq!(line.chars().count(), 54);
}

#[test]
fn banner_at_width_20_is_cut_to_20_characters() {
    let line = intro_message(20, VERSION);
    assert_eq!(line, "~Kora editor -- vers");
    assert_eq!(line.chars().count(), 20);
}

#[test]
fn banner_at_width_zero_is_empty() {
    assert_eq!(intro_message(0, VERSION), "");
}

#[test]
fn banner_at_width_one_is_the_tilde() {
    assert_eq!(intro_message(1, VERSION), "~");
}

#[test]
fn banner_cut_when_width_equals_text_length() {
    assert_eq!(intro_message(28, VERSION), "~Kora editor -- version 0.1.");
}

#[test]
fn banner_has_no_padding_when_only_the_tilde_fits() {
    assert_eq!(intro_message(29, VERSION), "~Kora editor -- version 0.1.0");
    assert_eq!(intro_message(30, VERSION), "~Kora editor -- version 0.1.0");
    assert_eq!(intro_message(31, VERSION), "~Kora editor -- version 0.1.0");
}

#[test]
fn banner_padding_grows_by_one_space_every_two_columns() {
    assert_eq!(intro_message(32, VERSION), "~ Kora editor -- version 0.1.0");
    assert_eq!(intro_message(33, VERSION), "~ Kora editor -- version 0.1.0");
    assert_eq!(intro_message(34, VERSION), "~  Kora editor -- version 0.1.0");
}

#[test]
fn banner_uses_the_given_version() {
    assert_eq!(intro_message(40, "12.3"), "~     Kora editor -- version 12.3");
    assert_eq!(intro_message(40, ""), "~       Kora editor -- version ");
}

#[test]
fn banner_counts_characters_not_bytes() {
    let line = intro_message(25, "\u{e9}\u{e9}\u{e9}");
    assert_eq!(line, "~Kora editor -- version \u{e9}");
    assert_eq!(line.chars().count(), 25);
}

#[test]
fn banner_at_the_largest_width() {
    let line = intro_message(u16::MAX, VERSION);
    let padding = (65535 - 28) / 2 - 1;
    assert_eq!(line.chars().count(), 1 + padding + 28);
    assert!(line.starts_with("~ "));
    assert!(line.ends_with(" Kora editor -- version 0.1.0"));
}
