use botcore::handlers::error::{BotError, ErrorKind, ErrorOrigin};
use botcore::utils::expression::{LimitFault, Sign};
use botcore::utils::parse::{
    apply_term, digit, duration, limit_to_milli, normalize, operator, sign, whitespace,
};
use botcore::utils::units::TimeUnit;

fn fault_of(limit: &str) -> BotError {
    limit_to_milli(limit.to_string()).unwrap_err()
}

#[test]
pub fn limit_basic_minutes_sum() {
    assert_eq!(
        limit_to_milli("1min".to_string()).unwrap(),
        60000,
        "Test simple conversion, 1min to 120000"
    );

    assert_eq!(
        limit_to_milli("1min + 1min".to_string()).unwrap(),
        120000,
        "Test simple sum, 1min + 1min to 240000"
    );
}

#[test]
pub fn limit_basic_sum_and_subtract() {
    assert_eq!(
        limit_to_milli("1min - 1min".to_string()).unwrap(),
        0,
        "Test simple subtraction, 1min - 1min to 0"
    );

    assert_eq!(
        limit_to_milli("1min + 1min - 1min".to_string()).unwrap(),
        60000,
        "Test simple sum and subtraction, 1min + 1min - 1min to 60000"
    );

    // A day is 86 400 000 ms, so the day is what is left once the minutes cancel.
    assert_eq!(
        limit_to_milli("1min - 1min + 1d".to_string()).unwrap(),
        86_400_000,
        "Test inverted sum and subtraction, 1min - 1min + 1d to 86400000"
    );
    assert_eq!(
        limit_to_milli("1min - 1min + 1min".to_string()).unwrap(),
        60000,
        "Test inverted sum and subtraction, 1min - 1min + 1min to 60000"
    );
}

#[test]
#[should_panic(expected = "ArithmeticUnderflow")]
pub fn limit_negative_case() {
    limit_to_milli("1min - 2min".to_string()).unwrap();
}

#[test]
fn limit_underflow_is_an_error_value() {
    let error = fault_of("1min - 2min");
    assert_eq!(error.kind, ErrorKind::ArithmeticUnderflow);
    assert_eq!(error.origin, ErrorOrigin::User);
    assert_eq!(error.message, "syntax.limit.underflow");
    assert_eq!(duration("1min - 2min"), Err(LimitFault::Underflow));
}

#[test]
fn limit_underflow_on_the_way_is_an_error() {
    assert_eq!(duration("1min - 2min + 1h"), Err(LimitFault::Underflow));
    assert_eq!(duration("1h - 2min - 1h"), Err(LimitFault::Underflow));
    assert_eq!(duration("1h + 1min - 1h - 1min"), Ok(0));
}

#[test]
fn limit_empty_is_a_syntax_error() {
    let error = fault_of("");
    assert_eq!(error.kind, ErrorKind::SyntaxError);
    assert_eq!(error.origin, ErrorOrigin::User);
    assert_eq!(error.message, "syntax.limit.unit_syntax_err");
    assert_eq!(duration(""), Err(LimitFault::UnmatchedTerm));
    assert_eq!(duration("   "), Err(LimitFault::UnmatchedTerm));
}

#[test]
fn limit_every_unit() {
    assert_eq!(duration("1s"), Ok(1_000));
    assert_eq!(duration("1min"), Ok(60_000));
    assert_eq!(duration("1h"), Ok(3_600_000));
    assert_eq!(duration("1d"), Ok(86_400_000));
    assert_eq!(duration("1w"), Ok(604_800_000));
    assert_eq!(duration("1m"), Ok(2_592_000_000));
    assert_eq!(duration("1y"), Ok(31_536_000_000));
}

#[test]
fn limit_month_and_minute_are_told_apart() {
    assert_eq!(duration("2m"), Ok(2 * 30 * 86_400_000));
    assert_eq!(duration("2min"), Ok(120_000));
    assert_eq!(duration("1m+1min"), Ok(2_592_060_000));
    assert_eq!(duration("1mi"), Err(LimitFault::PartialTerm));
    assert_eq!(duration("1mn"), Err(LimitFault::PartialTerm));
    assert_eq!(duration("1minm"), Err(LimitFault::PartialTerm));
}

#[test]
fn limit_mixed_expression() {
    assert_eq!(duration("1d-2h+3min"), Ok(79_380_000));
    assert_eq!(duration("10s + 5s"), Ok(15_000));
    assert_eq!(duration("007s"), Ok(7_000));
    assert_eq!(duration("0s"), Ok(0));
    assert_eq!(duration("0y - 0s"), Ok(0));
}

#[test]
fn limit_leading_operator() {
    assert_eq!(duration("+1min"), Ok(60_000));
    assert_eq!(duration("+ 1min - 1s"), Ok(59_000));
    assert_eq!(duration("-1min"), Err(LimitFault::Underflow));
    assert_eq!(duration("-0s"), Ok(0));
    assert_eq!(duration("-0s + 2s"), Ok(2_000));
}

#[test]
fn limit_dangling_operator() {
    assert_eq!(duration("1min+"), Err(LimitFault::DanglingOperator));
    assert_eq!(duration("1min -"), Err(LimitFault::DanglingOperator));
    assert_eq!(duration("+"), Err(LimitFault::DanglingOperator));
    assert_eq!(duration(" - "), Err(LimitFault::DanglingOperator));
    assert_eq!(duration("x-"), Err(LimitFault::DanglingOperator));
    let error = fault_of("1min +");
    assert_eq!(error.kind, ErrorKind::SyntaxError);
    assert_eq!(error.message, "syntax.limit.end_operators");
}

#[test]
fn limit_operators_in_a_row() {
    assert_eq!(duration("1min++1min"), Err(LimitFault::UnmatchedTerm));
    assert_eq!(duration("1min+-1min"), Err(LimitFault::UnmatchedTerm));
    assert_eq!(duration("++1min"), Err(LimitFault::UnmatchedTerm));
    assert_eq!(duration("--1min"), Err(LimitFault::UnmatchedTerm));
}

#[test]
fn limit_malformed_terms() {
    assert_eq!(duration("abc"), Err(LimitFault::UnmatchedTerm));
    assert_eq!(duration("1"), Err(LimitFault::UnmatchedTerm));
    assert_eq!(duration("min"), Err(LimitFault::UnmatchedTerm));
    assert_eq!(duration("1x"), Err(LimitFault::UnmatchedTerm));
    assert_eq!(duration("1MIN"), Err(LimitFault::UnmatchedTerm));
    assert_eq!(duration("1S"), Err(LimitFault::UnmatchedTerm));
    assert_eq!(duration("1.5h"), Err(LimitFault::PartialTerm));
    assert_eq!(duration("x1min"), Err(LimitFault::PartialTerm));
    assert_eq!(duration("1minx"), Err(LimitFault::PartialTerm));
    assert_eq!(duration("1min1min"), Err(LimitFault::PartialTerm));
    assert_eq!(duration("1h*2"), Err(LimitFault::PartialTerm));
    assert_eq!(duration("\u{0663}s"), Err(LimitFault::UnmatchedTerm));
    let error = fault_of("1minx");
    assert_eq!(error.kind, ErrorKind::SyntaxError);
    assert_eq!(error.message, "syntax.limit.invalid_unit_match");
}

#[test]
fn limit_syntax_is_judged_before_arithmetic() {
    assert_eq!(duration("1min - 2min + x"), Err(LimitFault::UnmatchedTerm));
    assert_eq!(duration("x + 1min - 2min"), Err(LimitFault::UnmatchedTerm));
    assert_eq!(duration("99999999999999999999y + 1hx"), Err(LimitFault::PartialTerm));
    assert_eq!(duration("1min - 2min +"), Err(LimitFault::DanglingOperator));
    assert_eq!(duration("1q + 1minx"), Err(LimitFault::UnmatchedTerm));
    assert_eq!(duration("1minx + 1q"), Err(LimitFault::PartialTerm));
}

#[test]
fn limit_overflow_is_an_error() {
    assert_eq!(duration("18446744073709551s"), Ok(18_446_744_073_709_551_000));
    assert_eq!(duration("18446744073709551s + 1s"), Err(LimitFault::Overflow));
    assert_eq!(duration("18446744073709552s"), Err(LimitFault::Overflow));
    assert_eq!(duration("18446744073709551615s"), Err(LimitFault::Overflow));
    assert_eq!(duration("18446744073709551616s"), Err(LimitFault::Overflow));
    assert_eq!(duration("99999999999999999999999999999999y"), Err(LimitFault::Overflow));
    assert_eq!(duration("1s - 99999999999999999999999999999999y"), Err(LimitFault::Underflow));
    assert_eq!(duration("584942417y"), Ok(584_942_417 * 31_536_000_000));
    assert_eq!(duration("584942418y"), Err(LimitFault::Overflow));
    assert_eq!(
        duration("18446744073709551s - 18446744073709551s"),
        Ok(0)
    );
    let error = fault_of("584942418y");
    assert_eq!(error.kind, ErrorKind::ArithmeticOverflow);
    assert_eq!(error.origin, ErrorOrigin::User);
    assert_eq!(error.message, "syntax.limit.overflow");
}

#[test]
fn limit_first_arithmetic_fault_wins() {
    assert_eq!(duration("584942418y - 1s"), Err(LimitFault::Overflow));
    assert_eq!(duration("1s - 2s + 584942418y"), Err(LimitFault::Underflow));
}

#[test]
fn limit_whitespace_is_ignored() {
    let spaced = " 1 min\t+\n1 0 s \u{00A0}-\u{3000} 1s\r";
    let bare: String = normalize(spaced).into_iter().collect();
    assert_eq!(bare, "1min+10s-1s");
    assert_eq!(duration(spaced), Ok(69_000));
    assert_eq!(duration(&bare), duration(spaced));
    let faulty = "1 min - 2 min";
    let bare: String = normalize(faulty).into_iter().collect();
    assert_eq!(duration(&bare), duration(faulty));
    assert_eq!(normalize(&bare), normalize(faulty));
}

#[test]
fn normalize_keeps_what_is_not_white() {
    assert_eq!(normalize(""), Vec::<char>::new());
    assert_eq!(normalize(" \t\n\u{000B}\u{000C}\r\u{0085}\u{1680}\u{2000}\u{200A}"), Vec::<char>::new());
    assert_eq!(normalize("\u{2028}\u{2029}\u{202F}\u{205F}\u{3000}"), Vec::<char>::new());
    assert_eq!(normalize("a b"), vec!['a', 'b']);
    assert_eq!(normalize("\u{200B}\u{200D}\u{FEFF}"), vec!['\u{200B}', '\u{200D}', '\u{FEFF}']);
    assert_eq!(normalize("\u{0008}\u{000E}\u{001F}"), vec!['\u{0008}', '\u{000E}', '\u{001F}']);
}

#[test]
fn whitespace_agrees_with_the_standard_library() {
    for point in 0..=0x10FFFFu32 {
        if let Some(c) = char::from_u32(point) {
            assert_eq!(whitespace(c), c.is_whitespace(), "U+{:04X}", point);
        }
    }
}

#[test]
fn digit_and_operator_are_ascii() {
    for c in ['0', '5', '9'] {
        assert!(digit(c));
    }
    for c in ['/', ':', 'a', '\u{0663}', '\u{FF11}'] {
        assert!(!digit(c));
    }
    assert!(operator('+'));
    assert!(operator('-'));
    assert!(!operator('*'));
    assert!(!operator('\u{2212}'));
    assert_eq!(sign('+'), Sign::Plus);
    assert_eq!(sign('-'), Sign::Minus);
}

#[test]
fn unit_table() {
    assert_eq!(TimeUnit::Second.millis(), 1_000);
    assert_eq!(TimeUnit::Minute.millis(), 60 * 1_000);
    assert_eq!(TimeUnit::Hour.millis(), 60 * 60 * 1_000);
    assert_eq!(TimeUnit::Day.millis(), 24 * 60 * 60 * 1_000);
    assert_eq!(TimeUnit::Week.millis(), 7 * 24 * 60 * 60 * 1_000);
    assert_eq!(TimeUnit::Month.millis(), 30 * 24 * 60 * 60 * 1_000);
    assert_eq!(TimeUnit::Year.millis(), 365 * 24 * 60 * 60 * 1_000);
}

#[test]
fn unit_suffixes() {
    assert_eq!(TimeUnit::from_suffix(&['s']), Some(TimeUnit::Second));
    assert_eq!(TimeUnit::from_suffix(&['m', 'i', 'n']), Some(TimeUnit::Minute));
    assert_eq!(TimeUnit::from_suffix(&['h']), Some(TimeUnit::Hour));
    assert_eq!(TimeUnit::from_suffix(&['d']), Some(TimeUnit::Day));
    assert_eq!(TimeUnit::from_suffix(&['w']), Some(TimeUnit::Week));
    assert_eq!(TimeUnit::from_suffix(&['m']), Some(TimeUnit::Month));
    assert_eq!(TimeUnit::from_suffix(&['y']), Some(TimeUnit::Year));
    assert_eq!(TimeUnit::from_suffix(&[]), None);
    assert_eq!(TimeUnit::from_suffix(&['S']), None);
    assert_eq!(TimeUnit::from_suffix(&['m', 'i']), None);
    assert_eq!(TimeUnit::from_suffix(&['m', 'i', 'n', 's']), None);
    assert_eq!(TimeUnit::from_suffix(&['M', 'I', 'N']), None);
    assert_eq!(TimeUnit::from_suffix(&['s', 'e', 'c']), None);
}

#[test]
fn apply_term_steps() {
    assert_eq!(apply_term(0, Sign::Plus, 5), Ok(5));
    assert_eq!(apply_term(5, Sign::Minus, 5), Ok(0));
    assert_eq!(apply_term(5, Sign::Minus, 6), Err(LimitFault::Underflow));
    assert_eq!(apply_term(u64::MAX, Sign::Plus, 0), Ok(u64::MAX));
    assert_eq!(apply_term(u64::MAX, Sign::Plus, 1), Err(LimitFault::Overflow));
    assert_eq!(apply_term(u64::MAX, Sign::Minus, u64::MAX), Ok(0));
}

#[test]
fn fault_kinds_and_keys() {
    assert_eq!(LimitFault::DanglingOperator.kind(), ErrorKind::SyntaxError);
    assert_eq!(LimitFault::UnmatchedTerm.kind(), ErrorKind::SyntaxError);
    assert_eq!(LimitFault::PartialTerm.kind(), ErrorKind::SyntaxError);
    assert_eq!(LimitFault::Underflow.kind(), ErrorKind::ArithmeticUnderflow);
    assert_eq!(LimitFault::Overflow.kind(), ErrorKind::ArithmeticOverflow);
    assert_eq!(LimitFault::DanglingOperator.key(), "syntax.limit.end_operators");
    assert_eq!(LimitFault::UnmatchedTerm.key(), "syntax.limit.unit_syntax_err");
    assert_eq!(LimitFault::PartialTerm.key(), "syntax.limit.invalid_unit_match");
    assert_eq!(LimitFault::Underflow.key(), "syntax.limit.underflow");
    assert_eq!(LimitFault::Overflow.key(), "syntax.limit.overflow");
}
