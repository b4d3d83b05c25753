use guessing_game::input::parse_number;

#[test]
fn parses_plain_numbers() {
    assert_eq!(parse_number("7"), Some(7));
    assert_eq!(parse_number("0"), Some(0));
    assert_eq!(parse_number("-15"), Some(-15));
    assert_eq!(parse_number("+42"), Some(42));
    assert_eq!(parse_number("007"), Some(7));
}

#[test]
fn trims_surrounding_white_space() {
    assert_eq!(parse_number("  15\n"), Some(15));
    assert_eq!(parse_number("\t-3 \r\n"), Some(-3));
    assert_eq!(parse_number("\u{3000}9\u{a0}"), Some(9));
}

#[test]
fn refuses_text_that_is_not_a_number() {
    assert_eq!(parse_number("abc"), None);
    assert_eq!(parse_number(""), None);
    assert_eq!(parse_number("\n"), None);
    assert_eq!(parse_number("-"), None);
    assert_eq!(parse_number("+"), None);
    assert_eq!(parse_number("1 2"), None);
    assert_eq!(parse_number("3.5"), None);
    assert_eq!(parse_number("--1"), None);
    assert_eq!(parse_number("12a"), None);
}

#[test]
fn reads_the_extremes_of_i32() {
    assert_eq!(parse_number("2147483647"), Some(i32::MAX));
    assert_eq!(parse_number("-2147483648"), Some(i32::MIN));
    assert_eq!(parse_number("2147483648"), None);
    assert_eq!(parse_number("-2147483649"), None);
    assert_eq!(parse_number("99999999999999999999"), None);
    assert_eq!(parse_number("99999999999999999999x"), None);
}

#[test]
fn agrees_with_std_parse() {
    let cases = [
        "7", " 7 ", "-0", "+0", "abc", "", "2147483647", "2147483648", "-2147483648", " +12\n",
        "1_000", "٣", "0x10",
    ];
    for c in cases.iter() {
        assert_eq!(parse_number(c), c.trim().parse::<i32>().ok(), "input {:?}", c);
    }
}
