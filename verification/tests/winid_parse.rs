use vi_tg::winid::{
    parse_u64_decimal, parse_u64_hex, window_id_from_var, window_id_from_xdotool,
    window_id_from_xprop,
};

#[test]
fn decimal_parsing_accepts_exactly_digit_strings() {
    assert_eq!(parse_u64_decimal("123"), Some(123));
    assert_eq!(parse_u64_decimal("0"), Some(0));
    assert_eq!(parse_u64_decimal("000"), Some(0));
    assert_eq!(parse_u64_decimal(""), None);
    assert_eq!(parse_u64_decimal("12a"), None);
    assert_eq!(parse_u64_decimal(" 12"), None);
    assert_eq!(parse_u64_decimal("-5"), None);
}

#[test]
fn decimal_parsing_respects_the_u64_range() {
    assert_eq!(parse_u64_decimal("18446744073709551615"), Some(u64::MAX));
    assert_eq!(parse_u64_decimal("18446744073709551616"), None);
    assert_eq!(parse_u64_decimal("99999999999999999999999"), None);
}

#[test]
fn hex_parsing_accepts_both_cases() {
    assert_eq!(parse_u64_hex("ff"), Some(255));
    assert_eq!(parse_u64_hex("FF"), Some(255));
    assert_eq!(parse_u64_hex("3c00007"), Some(0x3c00007));
    assert_eq!(parse_u64_hex(""), None);
    assert_eq!(parse_u64_hex("g1"), None);
    assert_eq!(parse_u64_hex("ffffffffffffffff"), Some(u64::MAX));
    assert_eq!(parse_u64_hex("10000000000000000"), None);
}

#[test]
fn windowid_variable_must_be_a_nonzero_decimal() {
    assert_eq!(window_id_from_var("77"), Some(77));
    assert_eq!(window_id_from_var("0"), None);
    assert_eq!(window_id_from_var("00"), None);
    assert_eq!(window_id_from_var("77\n"), None);
    assert_eq!(window_id_from_var("abc"), None);
}

#[test]
fn xdotool_output_is_trimmed_then_parsed() {
    assert_eq!(window_id_from_xdotool(" 42\n"), Some(42));
    assert_eq!(window_id_from_xdotool("\t123456\r\n"), Some(123456));
    assert_eq!(window_id_from_xdotool("0\n"), None);
    assert_eq!(window_id_from_xdotool("1 2"), None);
    assert_eq!(window_id_from_xdotool("   "), None);
}

#[test]
fn xprop_output_yields_the_hex_id_after_0x() {
    assert_eq!(
        window_id_from_xprop("_NET_ACTIVE_WINDOW(WINDOW): window id # 0x3c00007\n"),
        Some(0x3c00007)
    );
    assert_eq!(window_id_from_xprop("window id # 0x1"), Some(1));
    assert_eq!(window_id_from_xprop("0x 3c"), Some(0x3c));
}

#[test]
fn xprop_rejects_missing_or_zero_ids() {
    assert_eq!(window_id_from_xprop("no id here"), None);
    assert_eq!(window_id_from_xprop("window id # 0x0"), None);
    assert_eq!(window_id_from_xprop("0xzz"), None);
    assert_eq!(window_id_from_xprop(""), None);
    assert_eq!(window_id_from_xprop("0"), None);
}
