use mcp_datadog::handlers::metrics::MetricsHandler;

#[test]
fn test_calculate_rollup_interval() {
    // 30000s / 100 points = 300s, 300 >= 300 and < 600 so rounds to 600
    assert_eq!(
        MetricsHandler::calculate_rollup_interval(0, 30000, 100),
        600
    );

    // 86400s / 100 points = 864s, 864 >= 600 and < 1800 so rounds to 1800
    assert_eq!(
        MetricsHandler::calculate_rollup_interval(0, 86400, 100),
        1800
    );

    // Very short range: 100s / 100 = 1s, < 60 so gets 60s minimum
    assert_eq!(MetricsHandler::calculate_rollup_interval(0, 100, 100), 60);

    // 6000s / 100 = 60s, 60 >= 60 and < 300 so rounds to 300
    assert_eq!(MetricsHandler::calculate_rollup_interval(0, 6000, 100), 300);
}

#[test]
fn test_add_rollup_to_query() {
    // Test adding rollup to simple query
    let query = "avg:system.cpu.user{*}";
    let result = MetricsHandler::add_rollup_to_query(query, 300);
    assert!(result.contains(".rollup(avg, 300)"));

    // Test with max aggregation
    let query = "max:system.cpu.user{*}";
    let result = MetricsHandler::add_rollup_to_query(query, 60);
    assert!(result.contains(".rollup(max, 60)"));

    // Test when rollup already exists
    let query = "avg:system.cpu.user{*}.rollup(sum, 600)";
    let result = MetricsHandler::add_rollup_to_query(query, 300);
    assert_eq!(result, query); // Should not modify
}

#[test]
fn test_rollup_interval_boundaries() {
    assert_eq!(MetricsHandler::calculate_rollup_interval(0, 5900, 100), 60);
    assert_eq!(
        MetricsHandler::calculate_rollup_interval(0, 29900, 100),
        300
    );
    assert_eq!(
        MetricsHandler::calculate_rollup_interval(0, 59900, 100),
        600
    );
    assert_eq!(
        MetricsHandler::calculate_rollup_interval(0, 179900, 100),
        1800
    );
    assert_eq!(
        MetricsHandler::calculate_rollup_interval(0, 359900, 100),
        3600
    );
    assert_eq!(
        MetricsHandler::calculate_rollup_interval(0, 719900, 100),
        7200
    );
}

#[test]
fn test_add_rollup_preserves_query_structure() {
    let query_with_filter = "avg:system.cpu.user{host:web-1,env:prod}";
    let result = MetricsHandler::add_rollup_to_query(query_with_filter, 300);
    assert!(result.contains("host:web-1"));
    assert!(result.contains("env:prod"));
    assert!(result.ends_with(".rollup(avg, 300)"));

    let query_with_wildcard = "avg:system.cpu.user{*}";
    let result = MetricsHandler::add_rollup_to_query(query_with_wildcard, 60);
    assert!(result.contains("{*}"));
    assert!(result.ends_with(".rollup(avg, 60)"));
}

#[test]
fn test_add_rollup_with_all_aggregation_types() {
    let test_cases = vec![
        ("avg:metric{*}", "avg"),
        ("max:metric{*}", "max"),
        ("min:metric{*}", "min"),
        ("sum:metric{*}", "sum"),
        ("count:metric{*}", "avg"),
        ("metric{*}", "avg"),
    ];

    for (query, expected_agg) in test_cases {
        let result = MetricsHandler::add_rollup_to_query(query, 300);
        let expected_suffix = format!(".rollup({}, 300)", expected_agg);
        assert!(
            result.ends_with(&expected_suffix),
            "Query '{}' should produce rollup with aggregation '{}', got: {}",
            query,
            expected_agg,
            result
        );
    }
}

#[test]
fn test_calculate_rollup_interval_large_ranges() {
    assert_eq!(
        MetricsHandler::calculate_rollup_interval(0, 2159900, 100),
        21600
    );
    assert_eq!(
        MetricsHandler::calculate_rollup_interval(0, 4319900, 100),
        43200
    );
    assert_eq!(
        MetricsHandler::calculate_rollup_interval(0, 8639900, 100),
        86400
    );
    assert_eq!(
        MetricsHandler::calculate_rollup_interval(0, 86400 * 100, 100),
        86400
    );
    assert_eq!(
        MetricsHandler::calculate_rollup_interval(0, 86400 * 1000, 100),
        86400
    );
}

#[test]
fn test_rollup_interval_of_a_reversed_range_is_a_minute() {
    assert_eq!(MetricsHandler::calculate_rollup_interval(1000, 0, 10), 60);
    assert_eq!(MetricsHandler::calculate_rollup_interval(1_000_000, 0, 1), 60);
}

#[test]
fn test_add_rollup_exact_text() {
    assert_eq!(
        MetricsHandler::add_rollup_to_query("sum:requests{*}", 3600),
        "sum:requests{*}.rollup(sum, 3600)"
    );
    assert_eq!(
        MetricsHandler::add_rollup_to_query("min:latency{env:prod}", -5),
        "min:latency{env:prod}.rollup(min, -5)"
    );
    assert_eq!(MetricsHandler::add_rollup_to_query("", 0), ".rollup(avg, 0)");
    assert_eq!(
        MetricsHandler::add_rollup_to_query("x.rollup(", 60),
        "x.rollup("
    );
    assert_eq!(
        MetricsHandler::add_rollup_to_query("avg:m{*}", i64::MIN),
        "avg:m{*}.rollup(avg, -9223372036854775808)"
    );
}
