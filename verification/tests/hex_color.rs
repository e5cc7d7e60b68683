use blueprint_editor::hex_color::{parse_hex_color, HexColor};

fn c(r: u8, g: u8, b: u8, a: u8) -> Option<HexColor> {
    Some(HexColor { r, g, b, a })
}

#[test]
fn six_digits_are_opaque() {
    assert_eq!(parse_hex_color("#4A90E2"), c(0x4A, 0x90, 0xE2, 255));
    assert_eq!(parse_hex_color("4a90e2"), c(0x4A, 0x90, 0xE2, 255));
}

#[test]
fn eight_digits_carry_alpha() {
    assert_eq!(parse_hex_color("#4A90E2CC"), c(0x4A, 0x90, 0xE2, 0xCC));
    assert_eq!(parse_hex_color("00000000"), c(0, 0, 0, 0));
}

#[test]
fn leading_hashes_are_all_removed() {
    assert_eq!(parse_hex_color("###FF0000"), c(255, 0, 0, 255));
}

#[test]
fn signed_pairs_are_not_digits() {
    assert_eq!(parse_hex_color("+F+F+F"), None);
    assert_eq!(parse_hex_color("#+F0000"), None);
    assert_eq!(parse_hex_color("00+F00FF"), None);
}

#[test]
fn wrong_lengths_and_digits_fail() {
    assert_eq!(parse_hex_color("#12345"), None);
    assert_eq!(parse_hex_color("#1234567"), None);
    assert_eq!(parse_hex_color(""), None);
    assert_eq!(parse_hex_color("#"), None);
    assert_eq!(parse_hex_color("#GG0000"), None);
    assert_eq!(parse_hex_color("-10000"), None);
    assert_eq!(parse_hex_color("#12 456"), None);
    assert_eq!(parse_hex_color("++0000"), None);
}

#[test]
fn non_ascii_pairs_fail() {
    // two-byte characters that line up with the pairs
    assert_eq!(parse_hex_color("éé00"), None);
    assert_eq!(parse_hex_color("é0000"), None);
}

#[test]
fn pairs_that_would_cut_a_character_fail() {
    assert_eq!(parse_hex_color("aéaé"), None);
    assert_eq!(parse_hex_color("aé123"), None);
    assert_eq!(parse_hex_color("00aé0"), None);
    assert_eq!(parse_hex_color("00000é0"), None);
    assert_eq!(parse_hex_color("#é"), None);
}

#[test]
fn mixed_case_digits_agree() {
    assert_eq!(parse_hex_color("#aBcDeF"), parse_hex_color("ABCDEF"));
    assert_eq!(parse_hex_color("#aBcDeF"), c(0xAB, 0xCD, 0xEF, 255));
}
