use alglobo::input::{accept, read_number};

fn by_the_standard_library(line: &str) -> Option<i32> {
    match line.trim().parse::<u32>() {
        Ok(n) if n > 0 => Some(n as i32),
        _ => None,
    }
}

#[test]
fn typed_numbers() {
    assert_eq!(read_number("5"), Some(5));
    assert_eq!(read_number("42\n"), Some(42));
    assert_eq!(read_number("  17 \r\n"), Some(17));
    assert_eq!(read_number("+8"), Some(8));
    assert_eq!(read_number("007"), Some(7));
    assert_eq!(read_number("2147483647"), Some(i32::MAX));
}

#[test]
fn lines_that_spell_no_number() {
    assert_eq!(read_number(""), None);
    assert_eq!(read_number("\n"), None);
    assert_eq!(read_number("   "), None);
    assert_eq!(read_number("0"), None);
    assert_eq!(read_number("+0"), None);
    assert_eq!(read_number("000"), None);
    assert_eq!(read_number("-3"), None);
    assert_eq!(read_number("+"), None);
    assert_eq!(read_number("++1"), None);
    assert_eq!(read_number("1 2"), None);
    assert_eq!(read_number("12a"), None);
    assert_eq!(read_number("a12"), None);
    assert_eq!(read_number("1_000"), None);
    assert_eq!(read_number("3.5"), None);
    assert_eq!(read_number("4294967296"), None);
    assert_eq!(read_number("99999999999999999999999999"), None);
    assert_eq!(read_number("99999999999999999999999999x"), None);
}

#[test]
fn numbers_above_the_signed_range_wrap() {
    assert_eq!(read_number("2147483648"), Some(i32::MIN));
    assert_eq!(read_number("4294967295"), Some(-1));
    assert_eq!(accept(Some(0x8000_0001)), Some(i32::MIN + 1));
}

#[test]
fn accepted_numbers_are_above_zero() {
    assert_eq!(accept(None), None);
    assert_eq!(accept(Some(0)), None);
    assert_eq!(accept(Some(1)), Some(1));
    assert_eq!(accept(Some(300)), Some(300));
}

#[test]
fn typed_numbers_read_as_the_standard_library_reads_them() {
    let lines = [
        "", " ", "1", " 1", "1 ", "\t1\t", "\u{a0}12\u{3000}", "\u{2003}9", "\u{85}3\u{1680}",
        "\u{200b}4", "+12", "+ 12", "-0", "0", "00", "010", "4294967295", "4294967296",
        "42949672950", "18446744073709551616", "१२", "1\u{0}", "12\n", "12\r\n", "\u{feff}1",
        "９", "1e3", "0x10", " +7 ", "+", "+-1", "\u{2028}5\u{2029}", "\u{202f}6\u{205f}",
        "\u{b}\u{c}8", "\u{1c}8",
    ];
    for line in lines {
        assert_eq!(read_number(line), by_the_standard_library(line), "line {:?}", line);
    }
}
