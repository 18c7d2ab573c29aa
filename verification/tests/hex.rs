use twoliter_tools::eif::DEFAULT_PCIE_FLAGS;
use twoliter_tools::hex::parse_hex_u16;

fn standard(s: &str) -> Result<u16, String> {
    let s = s.strip_prefix("0x").unwrap_or(s);
    u16::from_str_radix(s, 16).map_err(|e| e.to_string())
}

#[test]
fn default_flags_are_what_the_command_line_says() {
    assert_eq!(parse_hex_u16("0240"), Ok(DEFAULT_PCIE_FLAGS));
    assert_eq!(parse_hex_u16("0x0240"), Ok(DEFAULT_PCIE_FLAGS));
}

#[test]
fn both_cases_of_digits_are_read() {
    assert_eq!(parse_hex_u16("aBcD"), Ok(0xabcd));
    assert_eq!(parse_hex_u16("ffff"), Ok(0xffff));
    assert_eq!(parse_hex_u16("0"), Ok(0));
}

#[test]
fn bad_numbers_are_refused_with_their_reason() {
    assert_eq!(
        parse_hex_u16(""),
        Err("cannot parse integer from empty string".to_string())
    );
    assert_eq!(
        parse_hex_u16("0x"),
        Err("cannot parse integer from empty string".to_string())
    );
    assert_eq!(parse_hex_u16("g"), Err("invalid digit found in string".to_string()));
    assert_eq!(
        parse_hex_u16("10000"),
        Err("number too large to fit in target type".to_string())
    );
}

#[test]
fn agrees_with_the_standard_library() {
    for s in [
        "", "0x", "0X1", "+", "-", "+1", "-1", "++1", "0x+1f", "+0x1f", "0x0x1", "0x-1", " 1", "1 ",
        "1_0", "00000000001", "0000g", "fffff", "ffffg", "fffg0", "10000g", "1000g0", "gfffff", "\u{e9}",
        "1\u{e9}", "0x\u{ff11}", "7fff", "FfFf", "0xFFFF", "0x10000", "x1", "0", "00", "+ffff", "+10000",
    ] {
        assert_eq!(parse_hex_u16(s), standard(s), "{:?}", s);
    }
}

#[test]
fn every_number_is_read_back() {
    for value in 0..=u16::MAX {
        if value % 17 == 0 || value > 0xfff0 {
            assert_eq!(parse_hex_u16(&format!("{:04x}", value)), Ok(value));
            assert_eq!(parse_hex_u16(&format!("0x{:X}", value)), Ok(value));
        }
    }
}
