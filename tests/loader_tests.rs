use emu8080::loader::{parse_program_text, ProgramLoadError};

fn chars(s: &str) -> Vec<char> {
    s.chars().collect()
}

#[test]
fn parse_plain_program() {
    assert_eq!(parse_program_text(&chars("06 05 3C 76")), Ok(vec![0x06, 0x05, 0x3c, 0x76]));
}

#[test]
fn parse_mixed_whitespace_and_case() {
    assert_eq!(parse_program_text(&chars("\n  ff\tA0\r\n0b  \u{3000}7 ")), Ok(vec![0xff, 0xa0, 0x0b, 0x07]));
}

#[test]
fn parse_empty_text() {
    assert_eq!(parse_program_text(&chars("  \n ")), Ok(vec![]));
}

#[test]
fn parse_plus_sign_and_leading_zeros() {
    assert_eq!(parse_program_text(&chars("+F 00ff 0")), Ok(vec![0x0f, 0xff, 0x00]));
}

#[test]
fn parse_reports_first_malformed_token() {
    assert_eq!(
        parse_program_text(&chars("06 05 zz 1G")),
        Err(ProgramLoadError::MalformedToken { position: 3, token: chars("zz") })
    );
}

#[test]
fn parse_rejects_value_above_byte() {
    assert_eq!(
        parse_program_text(&chars("100")),
        Err(ProgramLoadError::MalformedToken { position: 1, token: chars("100") })
    );
}

#[test]
fn parse_rejects_signs_without_digits() {
    assert_eq!(
        parse_program_text(&chars("01 +")),
        Err(ProgramLoadError::MalformedToken { position: 2, token: chars("+") })
    );
    assert_eq!(
        parse_program_text(&chars("-1")),
        Err(ProgramLoadError::MalformedToken { position: 1, token: chars("-1") })
    );
}
