use mcp_datadog::datadog::client::{ApiRequest, HttpMethod};
use mcp_datadog::datadog::models::{LogsCompute, LogsGroupBy, LogsGroupBySort};
use mcp_datadog::datadog::retry::{execute, RetryState, RetryStep};
use mcp_datadog::json::{Json, JsonNumber};
use mcp_datadog::{DatadogClient, DatadogError};
use std::cell::{Cell, RefCell};
use std::time::Duration;

fn client() -> DatadogClient {
    DatadogClient::new("key".to_string(), "app".to_string(), None).unwrap()
}

fn text(s: &str) -> Json {
    Json::Str(s.to_string())
}

fn object(fields: Vec<(&str, Json)>) -> Json {
    Json::Object(
        fields
            .into_iter()
            .map(|(key, value)| (key.to_string(), value))
            .collect(),
    )
}

fn pairs(list: Vec<(&str, &str)>) -> Option<Vec<(String, String)>> {
    Some(
        list.into_iter()
            .map(|(key, value)| (key.to_string(), value.to_string()))
            .collect(),
    )
}

fn assert_plain_request(request: &ApiRequest, method: HttpMethod, url: &str) {
    assert_eq!(request.method, method);
    assert_eq!(request.url, url);
    assert_eq!(
        request.headers,
        vec![
            ("DD-API-KEY".to_string(), "key".to_string()),
            ("DD-APPLICATION-KEY".to_string(), "app".to_string()),
            ("Content-Type".to_string(), "application/json".to_string()),
        ]
    );
}

#[test]
fn test_client_new_with_default_site() {
    let client = DatadogClient::new("test_api_key".to_string(), "test_app_key".to_string(), None);

    assert!(client.is_ok());
    let client = client.unwrap();
    assert_eq!(client.base_url(), "https://api.datadoghq.com");
    assert_eq!(client.api_key(), "test_api_key");
    assert_eq!(client.app_key(), "test_app_key");
}

#[test]
fn test_client_new_with_custom_site() {
    let client = DatadogClient::new(
        "test_api_key".to_string(),
        "test_app_key".to_string(),
        Some("datadoghq.eu".to_string()),
    );

    assert!(client.is_ok());
    let client = client.unwrap();
    assert_eq!(client.base_url(), "https://api.datadoghq.eu");
}

#[test]
fn test_client_regional_urls() {
    let regions = vec![
        ("datadoghq.com", "https://api.datadoghq.com"),
        ("datadoghq.eu", "https://api.datadoghq.eu"),
        ("us3.datadoghq.com", "https://api.us3.datadoghq.com"),
        ("us5.datadoghq.com", "https://api.us5.datadoghq.com"),
    ];

    for (region, expected_url) in regions {
        let client = DatadogClient::new(
            "key".to_string(),
            "app".to_string(),
            Some(region.to_string()),
        )
        .unwrap();

        assert_eq!(client.base_url(), expected_url);
    }
}

#[test]
fn test_tag_filter_injection() {
    let client = DatadogClient::with_tag_filter(
        "key".to_string(),
        "app".to_string(),
        None,
        Some("env:,service:".to_string()),
    )
    .unwrap();

    assert_eq!(client.get_tag_filter(), Some("env:,service:"));
}

#[test]
fn test_no_tag_filter() {
    let client =
        DatadogClient::with_tag_filter("key".to_string(), "app".to_string(), None, None).unwrap();

    assert_eq!(client.get_tag_filter(), None);
}

#[test]
fn test_handle_response_success() {
    let body = "{\"status\":\"ok\",\"data\":\"test_value\"}".to_string();
    let result = client().handle_response(200, Ok(body.clone()));
    assert_eq!(result, Ok(body.clone()));
    assert_eq!(client().handle_response(204, Ok(String::new())), Ok(String::new()));
    assert_eq!(client().handle_response(299, Ok(body.clone())), Ok(body));
}

#[test]
fn test_handle_response_unreadable_success_body_is_a_transport_failure() {
    let result = client().handle_response(200, Err("error decoding response body".to_string()));
    assert_eq!(
        result,
        Err(DatadogError::NetworkError(
            "error decoding response body".to_string()
        ))
    );
}

#[test]
fn test_handle_response_unauthorized() {
    let result = client().handle_response(401, Ok("Unauthorized".to_string()));

    assert!(result.is_err());
    match result.unwrap_err() {
        DatadogError::AuthError(msg) => {
            assert!(msg.contains("Unauthorized"));
        }
        _ => panic!("Expected AuthError"),
    }
}

#[test]
fn test_handle_response_forbidden() {
    let result = client().handle_response(403, Ok("Forbidden".to_string()));

    assert!(result.is_err());
    match result.unwrap_err() {
        DatadogError::AuthError(msg) => {
            assert!(msg.contains("Forbidden"));
        }
        _ => panic!("Expected AuthError"),
    }
}

#[test]
fn test_handle_response_rate_limit() {
    let result = client().handle_response(429, Ok("Rate limit exceeded".to_string()));

    assert!(result.is_err());
    match result.unwrap_err() {
        DatadogError::RateLimitError => {}
        _ => panic!("Expected RateLimitError"),
    }
}

#[test]
fn test_handle_response_timeout() {
    let result = client().handle_response(408, Ok("Request timeout".to_string()));

    assert!(result.is_err());
    match result.unwrap_err() {
        DatadogError::TimeoutError => {}
        _ => panic!("Expected TimeoutError"),
    }
}

#[test]
fn test_handle_response_server_error() {
    let result = client().handle_response(500, Ok("Internal server error".to_string()));

    assert!(result.is_err());
    match result.unwrap_err() {
        DatadogError::ApiError(msg) => {
            assert!(msg.contains("HTTP 500"));
            assert!(msg.contains("Internal server error"));
            assert_eq!(
                msg,
                "HTTP 500 Internal Server Error: Internal server error"
            );
        }
        _ => panic!("Expected ApiError"),
    }
}

#[test]
fn test_handle_response_other_statuses() {
    assert_eq!(
        client().handle_response(404, Ok("nope".to_string())),
        Err(DatadogError::ApiError("HTTP 404 Not Found: nope".to_string()))
    );
    assert_eq!(
        client().handle_response(301, Ok(String::new())),
        Err(DatadogError::ApiError(
            "HTTP 301 Moved Permanently: ".to_string()
        ))
    );
    assert_eq!(
        client().handle_response(199, Ok("early".to_string())),
        Err(DatadogError::ApiError(
            "HTTP 199 <unknown status code>: early".to_string()
        ))
    );
    // A body that could not be read is reported as unknown.
    assert_eq!(
        client().handle_response(502, Err("connection reset".to_string())),
        Err(DatadogError::ApiError(
            "HTTP 502 Bad Gateway: Unknown error".to_string()
        ))
    );
    assert_eq!(
        client().handle_response(401, Err("connection reset".to_string())),
        Err(DatadogError::AuthError("Unknown error".to_string()))
    );
}

#[test]
fn test_request_retry_logic() {
    let call_count = Cell::new(0u32);
    let pauses = RefCell::new(Vec::new());

    let done = execute(
        |_retries| {
            let count = call_count.get();
            call_count.set(count + 1);
            if count < 2 {
                client().handle_response(500, Ok(String::new()))
            } else {
                client().handle_response(200, Ok("{\"status\":\"ok\"}".to_string()))
            }
        },
        |delay| pauses.borrow_mut().push(delay),
    );

    assert!(done.outcome.is_ok());
    assert_eq!(call_count.get(), 3);
    assert_eq!(
        *pauses.borrow(),
        vec![Duration::from_secs(2), Duration::from_secs(4)]
    );
    // What is handed back is what was waited.
    assert_eq!(done.pauses, *pauses.borrow());
}

#[test]
fn test_request_max_retries() {
    let call_count = Cell::new(0u32);
    let pauses = RefCell::new(Vec::new());

    let done = execute(
        |_retries| {
            call_count.set(call_count.get() + 1);
            Err(DatadogError::ApiError(format!("attempt {}", call_count.get())))
        },
        |delay| pauses.borrow_mut().push(delay),
    );
    let result: Result<String, DatadogError> = done.outcome;

    assert!(result.is_err());
    assert_eq!(call_count.get(), 4);
    // The failure of the last attempt is the one that surfaces.
    assert_eq!(
        result,
        Err(DatadogError::ApiError("attempt 4".to_string()))
    );
    assert_eq!(
        *pauses.borrow(),
        vec![
            Duration::from_secs(2),
            Duration::from_secs(4),
            Duration::from_secs(8)
        ]
    );
    assert_eq!(done.pauses, *pauses.borrow());
}

#[test]
fn test_request_success_first_try() {
    let call_count = Cell::new(0u32);

    let done = execute(
        |_retries| {
            call_count.set(call_count.get() + 1);
            client().handle_response(200, Ok("{\"status\":\"ok\"}".to_string()))
        },
        |_delay| panic!("no pause before a first attempt that succeeds"),
    );

    assert!(done.outcome.is_ok());
    assert!(done.pauses.is_empty());
    assert_eq!(call_count.get(), 1);
}

#[test]
fn test_retries_whatever_the_failure() {
    for failure in [
        DatadogError::AuthError("denied".to_string()),
        DatadogError::RateLimitError,
        DatadogError::TimeoutError,
        DatadogError::NetworkError("refused".to_string()),
    ] {
        let call_count = Cell::new(0u32);
        let done = execute(
            |_retries| {
                call_count.set(call_count.get() + 1);
                Err(failure.clone())
            },
            |_delay| {},
        );
        let result: Result<(), DatadogError> = done.outcome;
        assert_eq!(result, Err(failure.clone()));
        assert_eq!(done.pauses.len(), 3);
        assert_eq!(call_count.get(), 4);
    }
}

#[test]
fn test_retry_state_steps() {
    let mut state = RetryState::new();
    assert_eq!(state.retries(), 0);
    for (retries, secs) in [(1, 2), (2, 4), (3, 8)] {
        match state.on_failure(DatadogError::TimeoutError) {
            RetryStep::RetryAfter(delay) => assert_eq!(delay, Duration::from_secs(secs)),
            RetryStep::GiveUp(_) => panic!("gave up after {} retries", retries - 1),
        }
        assert_eq!(state.retries(), retries);
    }
    match state.on_failure(DatadogError::RateLimitError) {
        RetryStep::GiveUp(failure) => assert_eq!(failure, DatadogError::RateLimitError),
        RetryStep::RetryAfter(_) => panic!("a fourth retry"),
    }
    assert_eq!(state.retries(), 3);
}

#[test]
fn test_query_metrics_request() {
    let request = client().query_metrics("avg:system.cpu.user{*}", 1609459200, -5);
    assert_plain_request(&request, HttpMethod::Get, "https://api.datadoghq.com/api/v1/query");
    assert_eq!(
        request.query,
        pairs(vec![
            ("query", "avg:system.cpu.user{*}"),
            ("from", "1609459200"),
            ("to", "-5"),
        ])
    );
    assert_eq!(request.body, None);
}

#[test]
fn test_search_logs_request() {
    let request = client().search_logs("service:web", "1", "2", None);
    assert_plain_request(
        &request,
        HttpMethod::Post,
        "https://api.datadoghq.com/api/v2/logs/events/search",
    );
    assert_eq!(request.query, None);
    assert_eq!(
        request.body,
        Some(object(vec![
            (
                "filter",
                object(vec![
                    ("query", text("service:web")),
                    ("from", text("1")),
                    ("to", text("2")),
                ])
            ),
            (
                "page",
                object(vec![("limit", Json::Number(JsonNumber::PosInt(10)))])
            ),
            ("sort", text("timestamp")),
        ]))
    );
    let request = client().search_logs("q", "1", "2", Some(-3));
    assert_eq!(
        request.body.unwrap().get("page"),
        Some(&object(vec![(
            "limit",
            Json::Number(JsonNumber::NegInt(-3))
        )]))
    );
}

#[test]
fn test_list_monitors_request() {
    let request = client().list_monitors(None, None, None, None);
    assert_plain_request(&request, HttpMethod::Get, "https://api.datadoghq.com/api/v1/monitor");
    assert_eq!(request.query, None);
    assert_eq!(request.body, None);

    let request = client().list_monitors(
        Some("env:prod".to_string()),
        Some("team:a".to_string()),
        Some(2),
        Some(25),
    );
    assert_eq!(
        request.query,
        pairs(vec![
            ("tags", "env:prod"),
            ("monitor_tags", "team:a"),
            ("page", "2"),
            ("page_size", "25"),
        ])
    );
    let request = client().list_monitors(None, None, None, Some(0));
    assert_eq!(request.query, pairs(vec![("page_size", "0")]));
}

#[test]
fn test_get_monitor_and_dashboard_requests() {
    let request = client().get_monitor(12345);
    assert_plain_request(
        &request,
        HttpMethod::Get,
        "https://api.datadoghq.com/api/v1/monitor/12345",
    );
    assert_eq!(request.query, None);
    let request = client().get_monitor(i64::MIN);
    assert_eq!(
        request.url,
        "https://api.datadoghq.com/api/v1/monitor/-9223372036854775808"
    );
    let request = client().get_dashboard("abc-def");
    assert_plain_request(
        &request,
        HttpMethod::Get,
        "https://api.datadoghq.com/api/v1/dashboard/abc-def",
    );
    let request = client().list_dashboards();
    assert_plain_request(
        &request,
        HttpMethod::Get,
        "https://api.datadoghq.com/api/v1/dashboard",
    );
    assert_eq!(request.query, None);
    assert_eq!(request.body, None);
}

#[test]
fn test_query_events_request() {
    let request = client().query_events(10, 20, None, Some("nagios".to_string()), None);
    assert_plain_request(&request, HttpMethod::Get, "https://api.datadoghq.com/api/v1/events");
    assert_eq!(
        request.query,
        pairs(vec![("start", "10"), ("end", "20"), ("sources", "nagios")])
    );
}

#[test]
fn test_list_hosts_request() {
    let request = client().list_hosts(
        Some("env:prod".to_string()),
        Some(1700000000),
        None,
        Some("desc".to_string()),
        Some(0),
        Some(100),
    );
    assert_plain_request(&request, HttpMethod::Get, "https://api.datadoghq.com/api/v1/hosts");
    assert_eq!(
        request.query,
        pairs(vec![
            ("filter", "env:prod"),
            ("from", "1700000000"),
            ("sort_dir", "desc"),
            ("start", "0"),
            ("count", "100"),
        ])
    );
    assert_eq!(client().list_hosts(None, None, None, None, None, None).query, None);
}

#[test]
fn test_list_spans_request() {
    let request = client().list_spans("service:api", "a", "b", None, None, Some("-timestamp".to_string()));
    assert_plain_request(
        &request,
        HttpMethod::Get,
        "https://api.datadoghq.com/api/v2/spans/events",
    );
    assert_eq!(
        request.query,
        pairs(vec![
            ("filter[query]", "service:api"),
            ("filter[from]", "a"),
            ("filter[to]", "b"),
            ("page[limit]", "10"),
            ("sort", "-timestamp"),
        ])
    );
    let request = client().list_spans("q", "a", "b", Some(50), Some("cur".to_string()), None);
    assert_eq!(
        request.query,
        pairs(vec![
            ("filter[query]", "q"),
            ("filter[from]", "a"),
            ("filter[to]", "b"),
            ("page[limit]", "50"),
            ("page[cursor]", "cur"),
        ])
    );
}

#[test]
fn test_get_service_catalog_request() {
    let request = client().get_service_catalog(Some(10), None, Some("prod".to_string()));
    assert_plain_request(
        &request,
        HttpMethod::Get,
        "https://api.datadoghq.com/api/v2/services/definitions",
    );
    assert_eq!(
        request.query,
        pairs(vec![("page[size]", "10"), ("filter[env]", "prod")])
    );
    assert_eq!(client().get_service_catalog(None, None, None).query, None);
}

#[test]
fn test_aggregate_logs_request() {
    let compute = vec![LogsCompute {
        aggregation: "count".to_string(),
        compute_type: Some("total".to_string()),
        interval: None,
        metric: None,
    }];
    let group_by = vec![LogsGroupBy {
        facet: "status".to_string(),
        limit: Some(5),
        sort: Some(LogsGroupBySort {
            order: Some("desc".to_string()),
            sort_type: Some("measure".to_string()),
            aggregation: None,
            metric: None,
        }),
        group_type: Some("facet".to_string()),
    }];
    let request = client().aggregate_logs(
        "*",
        "1",
        "2",
        Some(compute),
        Some(group_by),
        Some("UTC".to_string()),
    );
    assert_plain_request(
        &request,
        HttpMethod::Post,
        "https://api.datadoghq.com/api/v2/logs/analytics/aggregate",
    );
    assert_eq!(
        request.body,
        Some(object(vec![
            (
                "filter",
                object(vec![("query", text("*")), ("from", text("1")), ("to", text("2"))])
            ),
            (
                "compute",
                Json::Array(vec![object(vec![
                    ("aggregation", text("count")),
                    ("type", text("total")),
                ])])
            ),
            (
                "group_by",
                Json::Array(vec![object(vec![
                    ("facet", text("status")),
                    ("limit", Json::Number(JsonNumber::PosInt(5))),
                    (
                        "sort",
                        object(vec![("order", text("desc")), ("type", text("measure"))])
                    ),
                    ("type", text("facet")),
                ])])
            ),
            ("options", object(vec![("timezone", text("UTC"))])),
        ]))
    );
    let request = client().aggregate_logs("*", "1", "2", None, None, None);
    assert_eq!(
        request.body,
        Some(object(vec![(
            "filter",
            object(vec![("query", text("*")), ("from", text("1")), ("to", text("2"))])
        )]))
    );
}

#[test]
fn test_search_rum_events_request() {
    let request = client().search_rum_events(
        "@type:error",
        "1",
        "2",
        Some(25),
        Some("next".to_string()),
        Some("timestamp".to_string()),
    );
    assert_plain_request(
        &request,
        HttpMethod::Post,
        "https://api.datadoghq.com/api/v2/rum/events/search",
    );
    assert_eq!(
        request.body,
        Some(object(vec![
            (
                "filter",
                object(vec![
                    ("query", text("@type:error")),
                    ("from", text("1")),
                    ("to", text("2")),
                ])
            ),
            (
                "page",
                object(vec![
                    ("limit", Json::Number(JsonNumber::PosInt(25))),
                    ("cursor", text("next")),
                ])
            ),
            ("sort", text("timestamp")),
        ]))
    );
}

#[test]
fn test_attempts_are_told_their_number() {
    let seen = RefCell::new(Vec::new());
    let done = execute(
        |retries| {
            seen.borrow_mut().push(retries);
            if retries < 3 {
                Err(DatadogError::RateLimitError)
            } else {
                Ok(retries)
            }
        },
        |_delay| {},
    );
    assert_eq!(done.outcome, Ok(3));
    assert_eq!(
        done.pauses,
        vec![
            Duration::from_secs(2),
            Duration::from_secs(4),
            Duration::from_secs(8)
        ]
    );
    assert_eq!(*seen.borrow(), vec![0, 1, 2, 3]);
}
