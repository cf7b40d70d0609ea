use sus_check::steam_id::normalize_steam_id;
use sus_check::text::{push_decimal, split_on, trim};

#[test]
fn steam_ids_are_trimmed_and_checked() {
    assert_eq!(normalize_steam_id("  76561198000000000\n").unwrap(), "76561198000000000");
    assert_eq!(normalize_steam_id("\u{3000}76561198000000000\u{a0}").unwrap(), "76561198000000000");
    assert_eq!(normalize_steam_id("7656119800000000").unwrap_err(), "Enter a 17-digit SteamID64.");
    assert_eq!(normalize_steam_id("765611980000000000").unwrap_err(), "Enter a 17-digit SteamID64.");
    assert_eq!(normalize_steam_id("7656119800000000x").unwrap_err(), "Enter a 17-digit SteamID64.");
    assert_eq!(normalize_steam_id("765611980 0000000").unwrap_err(), "Enter a 17-digit SteamID64.");
    assert!(normalize_steam_id("").is_err());
    assert!(normalize_steam_id("٧٦٥٦١١٩٨٠٠٠٠٠٠٠٠").is_err());
}

#[test]
fn trimming_matches_unicode_whitespace() {
    assert_eq!(trim(" \t a b \r\n"), "a b");
    assert_eq!(trim("\u{2003}x\u{205f}"), "x");
    assert_eq!(trim("   "), "");
    assert_eq!(trim(""), "");
    assert_eq!(trim("\u{200b}x"), "\u{200b}x");
}

#[test]
fn splitting_keeps_empty_pieces() {
    assert_eq!(split_on("a,b", ','), vec!["a".to_string(), "b".to_string()]);
    assert_eq!(split_on("", ','), vec!["".to_string()]);
    assert_eq!(split_on(",x,", ','), vec!["".to_string(), "x".to_string(), "".to_string()]);
}

#[test]
fn decimals_render_without_leading_zeros() {
    let mut s = String::from("n=");
    push_decimal(&mut s, 0);
    push_decimal(&mut s, 1_366_800);
    assert_eq!(s, "n=01366800");
    let mut t = String::new();
    push_decimal(&mut t, u128::MAX);
    assert_eq!(t, u128::MAX.to_string());
}

#[test]
fn trimming_twice_equals_trimming_once() {
    for s in [" a ", "\u{a0}\u{a0}b\t", "", "  ", "c"] {
        assert_eq!(trim(trim(s)), trim(s));
    }
}

#[test]
fn a_normalized_id_normalizes_to_itself() {
    let id = normalize_steam_id(" 76561197960287930 ").unwrap();
    assert_eq!(normalize_steam_id(&id).unwrap(), id);
}
