//! Dialect and display options: single-character parsing, terminators, the
//! color pairing logic, and the color-slot registry.

use hamstercsv::aesthetics::{Rgb, RgbError, RgbPair};
use hamstercsv::cli::{AsciiCharacter, AsciiCharacterParseError, TerminatorParseError, TrimParseError};
use hamstercsv::config::{Ascii, CsvConfigError, Terminator, Trim};
use hamstercsv::cursed::{ColorPair, ColorRegistry, CursedError, Sequence};
use hamstercsv::unicode::eq_ignore_ascii_case;
use hamstercsv::display::DisplayError;
use hamstercsv::builder::CsvError;

#[test]
fn ascii_parses_a_single_character() {
    let a = Ascii::from_str(",").unwrap();
    assert_eq!(a.as_char(), ',');
    assert_eq!(a.as_byte(), b',');
}

#[test]
fn ascii_rejects_long_and_non_ascii_input() {
    assert!(matches!(
        Ascii::from_str("ab"),
        Err(CsvConfigError::ExpectedASCII { string }) if string == "ab"
    ));
    assert!(matches!(
        Ascii::from_str("é"),
        Err(CsvConfigError::ExpectedASCII { .. })
    ));
    assert!(matches!(
        Ascii::from_str(""),
        Err(CsvConfigError::ExpectedASCII { .. })
    ));
}

#[test]
fn optional_ascii_reads_an_empty_string_as_off() {
    assert_eq!(Ascii::optional_from_str("").unwrap(), None);
    let on = Ascii::optional_from_str("#").unwrap();
    assert_eq!(on.map(|a| a.as_byte()), Some(b'#'));
    assert!(Ascii::optional_from_str("##").is_err());
}

#[test]
fn ascii_character_parses_one_byte() {
    let c = AsciiCharacter::from_str(";").unwrap();
    assert_eq!(c.as_u8(), b';');
    assert!(matches!(
        AsciiCharacter::from_str("ab"),
        Err(AsciiCharacterParseError(s)) if s == "ab"
    ));
    assert!(AsciiCharacter::from_str("é").is_err());
}

#[test]
fn terminator_names_and_default() {
    assert_eq!(Terminator::CRLF.as_str(), "CRLF");
    assert_eq!(Terminator::CR.as_str(), "CR");
    assert_eq!(Terminator::LF.as_str(), "LF");
    assert_eq!(Terminator::default(), Terminator::CRLF);
}

#[test]
fn terminator_parses_its_names_in_any_case() {
    assert_eq!(Terminator::from_str("CRLF").unwrap(), Terminator::CRLF);
    assert_eq!(Terminator::from_str("crlf").unwrap(), Terminator::CRLF);
    assert_eq!(Terminator::from_str("default").unwrap(), Terminator::CRLF);
    assert_eq!(Terminator::from_str("cr").unwrap(), Terminator::CR);
    assert_eq!(Terminator::from_str("LF").unwrap(), Terminator::LF);
    assert!(matches!(
        Terminator::from_str("NEL"),
        Err(TerminatorParseError(s)) if s == "NEL"
    ));
}

#[test]
fn trim_parses_its_four_modes_in_any_case() {
    assert_eq!(Trim::from_str("none").unwrap(), Trim::Nothing);
    assert_eq!(Trim::from_str("HEADERS").unwrap(), Trim::OnlyHeaders);
    assert_eq!(Trim::from_str("Fields").unwrap(), Trim::ExceptHeaders);
    assert_eq!(Trim::from_str("aLL").unwrap(), Trim::All);
    assert!(matches!(
        Trim::from_str("sometimes"),
        Err(TrimParseError(s)) if s == "sometimes"
    ));
    assert!(Trim::from_str("").is_err());
}

#[test]
fn case_insensitive_comparison_ignores_ascii_case_only() {
    assert!(eq_ignore_ascii_case("CrLf", "crlf"));
    assert!(eq_ignore_ascii_case("", ""));
    assert!(!eq_ignore_ascii_case("crl", "crlf"));
    // Non-ASCII letters are compared as they are.
    assert!(!eq_ignore_ascii_case("É", "é"));
}

#[test]
fn trim_modes_are_distinct() {
    let all = [Trim::Nothing, Trim::OnlyHeaders, Trim::ExceptHeaders, Trim::All];
    for (i, a) in all.iter().enumerate() {
        for (j, b) in all.iter().enumerate() {
            assert_eq!(a == b, i == j);
        }
    }
}

#[test]
fn config_error_constructors_carry_the_input() {
    assert!(matches!(
        CsvConfigError::expected_character("xy".to_string()),
        CsvConfigError::ExpectedCharacter { string } if string == "xy"
    ));
    assert!(matches!(
        CsvConfigError::expected_line_terminator("zz".to_string()),
        CsvConfigError::ExpectedLineTerminator { string } if string == "zz"
    ));
    let trim_err = TrimParseError("sometimes".to_string());
    assert_eq!(trim_err.0, "sometimes");
    let term_err = TerminatorParseError("NEL".to_string());
    assert_eq!(term_err.0, "NEL");
}

#[test]
fn rgb_components_round_trip() {
    let c = Rgb::new(1, 2, 3);
    assert_eq!(c.components(), (1, 2, 3));
}

#[test]
fn bind_repeats_the_shorter_color_list() {
    let fg = vec![Rgb::new(1, 1, 1)];
    let bg = vec![Rgb::new(9, 9, 9), Rgb::new(8, 8, 8)];
    let pairs = RgbPair::bind(|i| format!("value_{}", i), &fg, &bg);
    assert_eq!(pairs.len(), 2);
    assert_eq!(pairs[0].name, "value_0");
    assert_eq!(pairs[0].fg, Rgb::new(1, 1, 1));
    assert_eq!(pairs[0].bg, Rgb::new(9, 9, 9));
    assert_eq!(pairs[1].name, "value_1");
    assert_eq!(pairs[1].fg, Rgb::new(1, 1, 1));
    assert_eq!(pairs[1].bg, Rgb::new(8, 8, 8));
}

#[test]
fn bind_of_two_empty_lists_is_empty() {
    let none: Vec<Rgb> = vec![];
    let pairs = RgbPair::bind(|i| format!("p{}", i), &none, &none);
    assert!(pairs.is_empty());
}

#[test]
fn rgb_pair_new_keeps_its_parts() {
    let p = RgbPair::new("basic".to_string(), Rgb::new(1, 2, 3), Rgb::new(4, 5, 6));
    assert_eq!(p.name, "basic");
    assert_eq!(p.fg.components(), (1, 2, 3));
    assert_eq!(p.bg.components(), (4, 5, 6));
}

#[test]
fn rgb_error_carries_string_and_reason() {
    let e = RgbError::ParseColorError { string: "#zz".to_string(), reason: "bad hex".to_string() };
    assert!(matches!(e, RgbError::ParseColorError { string, .. } if string == "#zz"));
}

#[test]
fn sequence_counts_up_and_reports_exhaustion() {
    let mut s = Sequence::new();
    assert_eq!(s.next().unwrap(), 0);
    assert_eq!(s.next().unwrap(), 1);
    for expected in 2..=254u8 {
        assert_eq!(s.next().unwrap(), expected);
    }
    assert_eq!(s.next(), Err(CursedError::SequenceExhausted(255)));
    assert_eq!(s.next(), Err(CursedError::SequenceExhausted(255)));
}

#[test]
fn color_pair_new_keeps_its_slots() {
    let p = ColorPair::new(3, 1, 2);
    assert_eq!(p.pair, 3);
    assert_eq!(p.fg, 1);
    assert_eq!(p.bg, 2);
}

#[test]
fn registry_hands_out_three_slots_per_name() {
    let mut registry = ColorRegistry::new();
    let basic = registry.add_colors("basic".to_string()).unwrap();
    assert_eq!((basic.fg, basic.bg, basic.pair), (0, 1, 2));
    let header = registry.add_colors("header_0".to_string()).unwrap();
    assert_eq!((header.fg, header.bg, header.pair), (3, 4, 5));
}

#[test]
fn registry_rejects_a_repeated_name() {
    let mut registry = ColorRegistry::new();
    registry.add_colors("basic".to_string()).unwrap();
    assert_eq!(
        registry.add_colors("basic".to_string()),
        Err(CursedError::ColorAlreadyDefined("basic".to_string()))
    );
}

#[test]
fn registry_reports_exhaustion_once_slots_run_out() {
    let mut registry = ColorRegistry::new();
    for i in 0..86 {
        // 85 pairs fill slots 0..=254; the 86th finds fewer than three left.
        let result = registry.add_colors(format!("pair_{}", i));
        if i < 85 {
            assert!(result.is_ok());
        } else {
            assert_eq!(result, Err(CursedError::SequenceExhausted(255)));
        }
    }
}

#[test]
fn error_types_carry_their_context() {
    let not_found = CursedError::ColorNotFound("value_9".to_string());
    assert!(matches!(not_found, CursedError::ColorNotFound(name) if name == "value_9"));
    let display = DisplayError::CannotCreateWindow(CursedError::SequenceExhausted(255));
    assert!(matches!(display, DisplayError::CannotCreateWindow(_)));
    let load = CsvError::CannotOpenFile { path: "data.csv".to_string(), reason: "missing".to_string() };
    assert!(matches!(load, CsvError::CannotOpenFile { path, .. } if path == "data.csv"));
}
