use mod_mail::logging::{LogLevel, SimpleLogger};
use mod_mail::text::{dec_string_u64, str_lex_lt, wait_notice};

#[test]
fn renders_decimals() {
    assert_eq!(dec_string_u64(0), "0");
    assert_eq!(dec_string_u64(7), "7");
    assert_eq!(dec_string_u64(10), "10");
    assert_eq!(dec_string_u64(125), "125");
    assert_eq!(dec_string_u64(9876543210), "9876543210");
}

#[test]
fn wait_notice_with_both_units() {
    assert_eq!(
        wait_notice(125),
        "You must wait until 2 minutes and 5 seconds to use Mod Mail again."
    );
}

#[test]
fn wait_notice_with_whole_minutes_only() {
    assert_eq!(wait_notice(60), "You must wait until 1 minute to use Mod Mail again.");
    assert_eq!(wait_notice(120), "You must wait until 2 minutes to use Mod Mail again.");
}

#[test]
fn wait_notice_with_seconds_only() {
    assert_eq!(wait_notice(5), "You must wait until 5 seconds to use Mod Mail again.");
    assert_eq!(wait_notice(1), "You must wait until 1 second to use Mod Mail again.");
}

#[test]
fn wait_notice_singular_and_plural_mix() {
    assert_eq!(
        wait_notice(61),
        "You must wait until 1 minute and 1 second to use Mod Mail again."
    );
}

#[test]
fn lexicographic_order_on_strings() {
    assert!(str_lex_lt("Alpha", "Beta"));
    assert!(!str_lex_lt("Beta", "Alpha"));
    assert!(str_lex_lt("Alp", "Alpha"));
    assert!(!str_lex_lt("Alpha", "Alpha"));
    // byte-wise order of ordered string maps: upper case sorts first
    assert!(str_lex_lt("Zeta", "alpha"));
}

#[test]
fn logger_filters_by_severity() {
    let logger = SimpleLogger;
    assert!(logger.enabled(LogLevel::Error));
    assert!(logger.enabled(LogLevel::Warn));
    assert!(logger.enabled(LogLevel::Info));
    assert!(!logger.enabled(LogLevel::Debug));
    assert!(!logger.enabled(LogLevel::Trace));
}

#[test]
fn logger_formats_lines() {
    let logger = SimpleLogger;
    assert_eq!(
        logger.format_line(LogLevel::Info, "mod_mail", "ready"),
        "[INFO] - mod_mail - ready"
    );
    assert_eq!(
        logger.format_line(LogLevel::Error, "net", "boom"),
        "[ERROR] - net - boom"
    );
}
