use mcp_datadog::utils::{
    format_timestamp, has_short_words, parse_time, parse_time_at, timestamp_to_rfc3339,
    to_plain_form,
};
use mcp_datadog::DatadogError;

// 2024-03-15 12:00:00 UTC, a Friday.
const NOW: i64 = 1710504000;

fn now() -> i64 {
    std::time::SystemTime::now()
        .duration_since(std::time::UNIX_EPOCH)
        .unwrap()
        .as_secs() as i64
}

#[test]
fn test_parse_time_unix() {
    let result = parse_time("1704067200");
    assert!(result.is_ok());
    assert_eq!(result.unwrap(), 1704067200);
}

#[test]
fn test_parse_time_now() {
    let result = parse_time("now");
    assert!(result.is_ok());
    assert!((result.unwrap() - now()).abs() < 2);
}

#[test]
fn test_parse_time_natural() {
    let result = parse_time("yesterday");
    assert!(result.is_ok());
}

#[test]
fn test_parse_time_iso8601() {
    let result = parse_time("2024-01-01T00:00:00Z");
    assert!(result.is_ok());
    assert_eq!(result.unwrap(), 1704067200);
}

#[test]
fn test_parse_time_natural_hour_ago() {
    let result = parse_time("1 hour ago");
    assert!(result.is_ok());
    let expected = now() - 3600;
    assert!((result.unwrap() - expected).abs() < 5);
}

#[test]
fn test_parse_time_natural_days_ago() {
    let result = parse_time("2 days ago");
    assert!(result.is_ok());
}

#[test]
fn test_parse_time_invalid() {
    let result = parse_time("invalid time string xyz");
    assert!(result.is_err());
    match result.unwrap_err() {
        DatadogError::DateParseError(_) => {}
        _ => panic!("Expected DateParseError"),
    }
}

#[test]
fn test_format_timestamp_valid() {
    let formatted = format_timestamp(1704067200);
    assert!(formatted.contains("2024-01-01"));
    assert!(formatted.contains("UTC"));
    assert_eq!(formatted, "2024-01-01 00:00:00 UTC");
}

#[test]
fn test_format_timestamp_negative() {
    let formatted = format_timestamp(-1);
    // Negative timestamps can be valid (before 1970), but very large negative values are invalid
    assert!(formatted.contains("1969") || formatted.contains("Invalid"));
    assert_eq!(formatted, "1969-12-31 23:59:59 UTC");
}

#[test]
fn test_format_timestamp_outside_the_calendar() {
    assert_eq!(
        format_timestamp(i64::MAX),
        "Invalid timestamp: 9223372036854775807"
    );
    assert_eq!(
        format_timestamp(i64::MIN),
        "Invalid timestamp: -9223372036854775808"
    );
}

#[test]
fn test_parse_time_case_insensitive_now() {
    assert!(parse_time("NOW").is_ok());
    assert!(parse_time("Now").is_ok());
    assert!(parse_time("  now  ").is_ok());
}

#[test]
fn test_parse_time_at_a_given_moment() {
    assert_eq!(parse_time_at("now", NOW, 0), Ok(NOW));
    assert_eq!(parse_time_at(" NoW\t", NOW, 5), Ok(NOW));
    assert_eq!(parse_time_at("1 hour ago", NOW, 0), Ok(NOW - 3600));
    assert_eq!(parse_time_at("2 days ago", NOW, 0), Ok(NOW - 2 * 86400));
    assert_eq!(parse_time_at("15 minutes ago", NOW, 0), Ok(NOW - 900));
    // A day given by name starts at midnight.
    assert_eq!(parse_time_at("yesterday", NOW, 0), Ok(NOW - 86400));
    assert_eq!(parse_time_at("2024-01-01", NOW, 0), Ok(1704067200));
}

#[test]
fn test_parse_time_integers_win_over_dates() {
    assert_eq!(parse_time_at("0", NOW, 0), Ok(0));
    assert_eq!(parse_time_at("-42", NOW, 0), Ok(-42));
    assert_eq!(parse_time_at("+42", NOW, 0), Ok(42));
    assert_eq!(parse_time_at("2024", NOW, 0), Ok(2024));
    assert_eq!(
        parse_time_at("9223372036854775807", NOW, 0),
        Ok(i64::MAX)
    );
    assert_eq!(
        parse_time_at("-9223372036854775808", NOW, 0),
        Ok(i64::MIN)
    );
    // One more than fits is no integer, and nothing else either.
    assert!(matches!(
        parse_time_at("9223372036854775808", NOW, 0),
        Err(DatadogError::DateParseError(_))
    ));
}

#[test]
fn test_parse_time_reads_words_in_any_case() {
    assert_eq!(parse_time_at("1 Hour Ago", NOW, 0), Ok(NOW - 3600));
    assert_eq!(parse_time_at("YESTERDAY", NOW, 0), Ok(NOW - 86400));
    // The word after an hour, in capitals, upsets the reader of dates if
    // it is handed on as it is.
    assert_eq!(
        parse_time_at("today 5PM", NOW, 0),
        Ok(NOW + 5 * 3600)
    );
}

#[test]
fn test_parse_time_timestamps() {
    assert_eq!(parse_time_at("2024-01-01T00:00:00Z", NOW, 0), Ok(1704067200));
    assert_eq!(
        parse_time_at("2024-01-01T01:00:00+01:00", NOW, 0),
        Ok(1704067200)
    );
    assert_eq!(parse_time_at("2024-01-01T10:30:00", NOW, 0), Ok(1704067200 + 37800));
    assert_eq!(parse_time_at("2024-01-01 T 10:00", NOW, 0), Ok(1704067200 + 36000));
    assert_eq!(parse_time_at("2024-01-01 T10:30:00", NOW, 0), Ok(1704067200 + 37800));
    assert_eq!(parse_time_at("2024-01-01T 10:30", NOW, 0), Ok(1704067200 + 37800));
    assert_eq!(
        parse_time_at("2024-01-01T00:00:00.250Z", NOW, 0),
        Ok(1704067200)
    );
}

#[test]
fn test_parse_time_error_quotes_the_expression() {
    assert_eq!(
        parse_time_at("invalid time string xyz", NOW, 0),
        Err(DatadogError::DateParseError(
            "Unable to parse time expression: 'invalid time string xyz'".to_string()
        ))
    );
    assert_eq!(
        parse_time_at("", NOW, 0),
        Err(DatadogError::DateParseError(
            "Unable to parse time expression: ''".to_string()
        ))
    );
    // A word too long for the reader of dates.
    assert!(parse_time_at("5 abcdefghijklmnopqrstuvwxyz", NOW, 0).is_err());
    assert!(parse_time_at("today 5abcdefghijklmnopqrstuvwxyz", NOW, 0).is_err());
}

#[test]
fn test_plain_form() {
    assert_eq!(to_plain_form("1 Hour Ago"), "1 hour ago");
    assert_eq!(to_plain_form("2024-01-01T10:30:00Z"), "2024-01-01 10:30:00z");
    // A `T` that stands alone after something and before a digit separates
    // a date and a time.
    assert_eq!(to_plain_form("Today T5"), "today  5");
    assert_eq!(to_plain_form("2024-01-01 T 10:00"), "2024-01-01   10:00");
    assert_eq!(to_plain_form("5T\t\n7"), "5 \t\n7");
    // Any other `T` is a letter like every other.
    assert_eq!(to_plain_form("5T"), "5t");
    assert_eq!(to_plain_form("5T "), "5t ");
    assert_eq!(to_plain_form("T5"), "t5");
    assert_eq!(to_plain_form(" \tT 5"), " \tt 5");
    assert_eq!(to_plain_form("aT5"), "at5");
    assert_eq!(to_plain_form("5 Tx 7"), "5 tx 7");
    assert_eq!(to_plain_form("5 T x"), "5 t x");
    assert_eq!(to_plain_form("5 T\r7"), "5 t\r7");
    assert_eq!(to_plain_form("ÀB é"), "Àb é");
    assert_eq!(to_plain_form(""), "");
}

#[test]
fn test_short_words() {
    assert!(has_short_words(""));
    assert!(has_short_words("abcdefghijklmno"));
    assert!(!has_short_words("abcdefghijklmnop"));
    assert!(has_short_words("abcdefghijklmno pqrstuvwxyz"));
    assert!(has_short_words("abcdefgh1ijklmnopq"));
    assert!(!has_short_words("1 ABCDEFGHabcdefgh"));
}

#[test]
fn test_timestamp_to_rfc3339() {
    assert_eq!(
        timestamp_to_rfc3339(1704067200),
        Ok("2024-01-01T00:00:00+00:00".to_string())
    );
    assert_eq!(
        timestamp_to_rfc3339(i64::MAX),
        Err(DatadogError::InvalidInput("Invalid timestamp".to_string()))
    );
}
