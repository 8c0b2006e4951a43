use mcp_datadog::handlers::common::{
    Paginator, ResponseFilter, ResponseFormatter, TimeHandler, TimeParams,
};
use mcp_datadog::handlers::events::EventsHandler;
use mcp_datadog::handlers::hosts::HostsHandler;
use mcp_datadog::handlers::logs::LogsHandler;
use mcp_datadog::handlers::logs_aggregate::LogsAggregateHandler;
use mcp_datadog::handlers::logs_timeseries::LogsTimeseriesHandler;
use mcp_datadog::handlers::metrics::MetricsHandler;
use mcp_datadog::handlers::monitors::MonitorsHandler;
use mcp_datadog::handlers::rum::RumHandler;
use mcp_datadog::handlers::services::ServicesHandler;
use mcp_datadog::handlers::spans::SpansHandler;
use mcp_datadog::json::{Json, JsonNumber};
use mcp_datadog::DatadogClient;

// 2024-03-15 12:00:00 UTC.
const NOW: (i64, u32) = (1710504000, 0);

fn from_value(value: &serde_json::Value) -> Json {
    match value {
        serde_json::Value::Null => Json::Null,
        serde_json::Value::Bool(flag) => Json::Bool(*flag),
        serde_json::Value::Number(number) => {
            if let Some(n) = number.as_u64() {
                Json::Number(JsonNumber::PosInt(n))
            } else if let Some(n) = number.as_i64() {
                Json::Number(JsonNumber::NegInt(n))
            } else {
                Json::Number(JsonNumber::Real(number.as_f64().unwrap().to_bits()))
            }
        }
        serde_json::Value::String(text) => Json::Str(text.clone()),
        serde_json::Value::Array(items) => Json::Array(items.iter().map(from_value).collect()),
        serde_json::Value::Object(fields) => Json::Object(
            fields
                .iter()
                .map(|(key, value)| (key.clone(), from_value(value)))
                .collect(),
        ),
    }
}

fn j(text: &str) -> Json {
    from_value(&serde_json::from_str(text).unwrap())
}

#[test]
fn test_time_handler_parse_time() {
    let handler = SpansHandler;
    let params = j(r#"{"from": "1609459200", "to": "1609462800"}"#);

    let result = handler.parse_time(&params, 1);
    assert!(result.is_ok());

    if let Ok(TimeParams::Timestamp { from, to }) = result {
        assert!(from > 0);
        assert!(to > from);
    }
}

#[test]
fn test_time_handler_defaults() {
    let handler = SpansHandler;
    let params = j(r#"{}"#);

    // Should use defaults: "1 hour ago" and "now"
    let result = handler.parse_time(&params, 1);
    assert!(result.is_ok());
}

#[test]
fn test_paginator_parse() {
    let handler = SpansHandler;

    let params = j(r#"{"page": 2, "page_size": 25}"#);

    let (page, page_size) = handler.parse_pagination(&params);
    assert_eq!(page, 2);
    assert_eq!(page_size, 25);
}

#[test]
fn test_paginator_defaults() {
    let handler = SpansHandler;
    let params = j(r#"{}"#);

    let (page, page_size) = handler.parse_pagination(&params);
    assert_eq!(page, 0); // Default page
    assert_eq!(page_size, 50); // Default page_size
}

#[test]
fn test_paginator_paginate() {
    let handler = SpansHandler;
    let data = vec![1, 2, 3, 4, 5, 6, 7, 8, 9, 10];

    // First page
    let page1 = handler.paginate(&data, 0, 3);
    assert_eq!(page1, &[1, 2, 3]);

    // Second page
    let page2 = handler.paginate(&data, 1, 3);
    assert_eq!(page2, &[4, 5, 6]);

    // Last page (partial)
    let page4 = handler.paginate(&data, 3, 3);
    assert_eq!(page4, &[10]);

    // Beyond available data
    let page_empty = handler.paginate(&data, 10, 3);
    assert_eq!(page_empty.len(), 0);
}

#[test]
fn common_test_response_formatter_list() {
    let handler = SpansHandler;
    let data = j(r#"["item1", "item2"]"#);

    let response = handler.format_list(data.clone(), None, None);
    assert_eq!(response.get("data"), Some(&data));
    assert!(response.get("pagination").is_none());
    assert!(response.get("meta").is_none());
}

#[test]
fn test_response_formatter_with_meta() {
    let handler = SpansHandler;
    let data = j(r#"["item1"]"#);
    let meta = j(r#"{"count": 1}"#);

    let response = handler.format_list(data.clone(), None, Some(meta.clone()));
    assert_eq!(response.get("data"), Some(&data));
    assert_eq!(response.get("meta"), Some(&meta));
}

#[test]
fn test_response_formatter_pagination() {
    let handler = SpansHandler;

    let pagination = handler.format_pagination(0, 50, 150);
    assert_eq!(pagination.get_u64("page"), Some(0));
    assert_eq!(pagination.get_u64("page_size"), Some(50));
    assert_eq!(pagination.get_u64("total"), Some(150));
    assert_eq!(pagination.get_bool("has_next"), Some(true));

    // Page 2: (2+1)*50 = 150, not < 150, so has_next = false
    let last_page = handler.format_pagination(2, 50, 150);
    assert_eq!(last_page.get_bool("has_next"), Some(false));

    // Page 1: (1+1)*50 = 100 < 150, so has_next = true
    let mid_page = handler.format_pagination(1, 50, 150);
    assert_eq!(mid_page.get_bool("has_next"), Some(true));
}

#[test]
fn common_test_response_formatter_detail() {
    let handler = SpansHandler;
    let data = j(r#"{"id": 123, "name": "test"}"#);

    let response = handler.format_detail(data.clone());
    assert_eq!(response.get("data"), Some(&data));
}

#[test]
fn test_optional_priority_parameter() {
    let params = j(r#"{"priority": "normal"}"#);
    assert_eq!(params.get_str("priority"), Some("normal"));
}

#[test]
fn test_optional_sources_parameter() {
    let params = j(r#"{"sources": "my_app"}"#);
    assert_eq!(params.get_str("sources"), Some("my_app"));
}

#[test]
fn events_test_optional_tags_parameter() {
    let params = j(r#"{"tags": "env:prod,service:api"}"#);
    assert_eq!(params.get_str("tags"), Some("env:prod,service:api"));
}

#[test]
fn events_test_pagination_parameters() {
    let handler = EventsHandler;
    let params = j(r#"{"page": 1, "page_size": 100}"#);

    let (page, page_size) = handler.parse_pagination(&params);
    assert_eq!(page, 1);
    assert_eq!(page_size, 100);
}

#[test]
fn events_test_time_handler_trait() {
    let handler = EventsHandler;
    let params = j(r#"{"from": "2 hours ago", "to": "now"}"#);

    let result = handler.parse_time(&params, 1);
    assert!(result.is_ok());
}

#[test]
fn events_test_paginator_trait() {
    let handler = EventsHandler;
    let data = vec![1, 2, 3, 4, 5, 6, 7, 8, 9, 10];

    let page = handler.paginate(&data, 0, 3);
    assert_eq!(page, &[1, 2, 3]);
}

#[test]
fn events_test_response_formatter_trait() {
    let handler = EventsHandler;
    let data = j(r#"[{"id": 1}]"#);
    let pagination = j(r#"{"page": 0}"#);
    let meta = j(r#"{"from": "timestamp"}"#);

    let response = handler.format_list(data, Some(pagination), Some(meta));
    assert!(response.get("data").is_some());
    assert!(response.get("pagination").is_some());
    assert!(response.get("meta").is_some());
}

#[test]
fn test_optional_filter_parameter() {
    let params = j(r#"{"filter": "env:prod"}"#);
    assert_eq!(params.get_str("filter"), Some("env:prod"));
}

#[test]
fn test_optional_sort_parameters() {
    let params = j(r#"{"sort_field": "cpu", "sort_dir": "desc"}"#);

    assert_eq!(params.get_str("sort_field"), Some("cpu"));
    assert_eq!(params.get_str("sort_dir"), Some("desc"));
}

#[test]
fn test_optional_start_parameter() {
    let params = j(r#"{"start": 50}"#);
    assert_eq!(params.get_i64("start"), Some(50));
}

#[test]
fn test_default_count_parameter() {
    let params = j(r#"{}"#);
    let count = params.get_i64("count").map(|c| c as i32).or(Some(100));
    assert_eq!(count, Some(100));
}

#[test]
fn test_custom_count_parameter() {
    let params = j(r#"{"count": 500}"#);
    let count = params.get_i64("count").map(|c| c as i32);
    assert_eq!(count, Some(500));
}

#[test]
fn hosts_test_time_handler_trait() {
    let handler = HostsHandler;
    let params = j(r#"{"from": "1 hour ago", "to": "now"}"#);

    let result = handler.parse_time(&params, 1);
    assert!(result.is_ok());
}

#[test]
fn hosts_test_response_formatter_trait() {
    let handler = HostsHandler;
    let data = j(r#"[{"name": "host1"}]"#);
    let meta = j(r#"{"total_matching": 1}"#);

    let response = handler.format_list(data, None, Some(meta));
    assert!(response.get("data").is_some());
    assert!(response.get("meta").is_some());
}

#[test]
fn logs_test_missing_query_parameter() {
    let client =
        DatadogClient::new("test_key".to_string(), "test_app_key".to_string(), None).unwrap();

    let params = j(r#"{"from": "1 hour ago", "to": "now"}"#);

    let result = LogsHandler::search(&client, &params, NOW, NOW);
    assert!(result.is_err());
}

#[test]
fn logs_test_valid_input_parameters() {
    let params = j(r#"{"query": "service:web-api", "from": "1 hour ago", "to": "now", "limit": 50}"#);

    assert_eq!(params.get_str("query"), Some("service:web-api"));
    assert_eq!(params.get_i64("limit"), Some(50));
}

#[test]
fn test_optional_limit_parameter() {
    let params_with = j(r#"{"query": "test", "limit": 100}"#);
    let params_without = j(r#"{"query": "test"}"#);

    assert_eq!(params_with.get_i64("limit"), Some(100));
    assert_eq!(params_without.get_i64("limit"), None);
}

#[test]
fn logs_test_time_handler_available() {
    let handler = LogsHandler;
    let params = j(r#"{"from": "1609459200", "to": "1609462800"}"#);

    let result = handler.parse_time(&params, 1);
    assert!(result.is_ok());
}

#[test]
fn logs_test_response_formatter_available() {
    let handler = LogsHandler;
    let data = j(r#"[{"id": "log1"}]"#);
    let formatted = handler.format_list(data, None, None);
    assert!(formatted.get("data").is_some());
}

#[test]
fn logs_aggregate_test_default_query_parameter() {
    let params = j(r#"{"from": "1 hour ago", "to": "now"}"#);

    let query = params.get_str("query").unwrap_or("*");
    assert_eq!(query, "*");
}

#[test]
fn logs_aggregate_test_custom_query_parameter() {
    let params = j(r#"{"query": "service:web-api", "from": "1 hour ago", "to": "now"}"#);

    let query = params.get_str("query").unwrap_or("*");
    assert_eq!(query, "service:web-api");
}

#[test]
fn test_default_compute_when_empty() {
    let params = j(r#"{"compute": []}"#);

    let compute_params = params.get_array("compute");
    assert!(compute_params.is_some());
    assert!(compute_params.unwrap().is_empty());
}

#[test]
fn test_compute_with_aggregation() {
    let params = j(r#"{"compute": [{"aggregation": "count", "type": "total"}]}"#);

    let compute_params = params.get_array("compute").unwrap();
    assert_eq!(compute_params.len(), 1);
    assert_eq!(compute_params[0].get_str("aggregation"), Some("count"));
    assert_eq!(compute_params[0].get_str("type"), Some("total"));
}

#[test]
fn test_compute_with_metric() {
    let params = j(r#"{"compute": [{"aggregation": "sum", "type": "total", "metric": "@duration"}]}"#);

    let compute_params = params.get_array("compute").unwrap();
    assert_eq!(compute_params[0].get_str("metric"), Some("@duration"));
}

#[test]
fn logs_aggregate_test_group_by_parameter() {
    let params = j(r#"{"group_by": [{"facet": "status", "limit": 10, "type": "facet"}]}"#);

    let group_by = params.get_array("group_by");
    assert!(group_by.is_some());
    assert_eq!(group_by.unwrap().len(), 1);
}

#[test]
fn test_group_by_with_sort() {
    let params = j(r#"{"group_by": [{"facet": "status", "limit": 10, "type": "facet", "sort": {"order": "desc", "type": "measure", "aggregation": "count"}}]}"#);

    let group_by = params.get_array("group_by").unwrap();
    let sort = group_by[0].get("sort").and_then(|sort| sort.as_object());
    assert!(sort.is_some());
    assert_eq!(group_by[0].get("sort").unwrap().get_str("order"), Some("desc"));
}

#[test]
fn test_optional_timezone_parameter() {
    let params_with = j(r#"{"timezone": "UTC"}"#);
    let params_without = j(r#"{}"#);

    assert_eq!(params_with.get_str("timezone"), Some("UTC"));
    assert_eq!(params_without.get_str("timezone"), None);
}

#[test]
fn logs_aggregate_test_time_handler_available() {
    let handler = LogsAggregateHandler;
    let params = j(r#"{"from": "1609459200", "to": "1609462800"}"#);

    let result = handler.parse_time(&params, 1);
    assert!(result.is_ok());
}

#[test]
fn logs_aggregate_test_response_formatter_available() {
    let handler = LogsAggregateHandler;
    let data = j(r#"{"buckets": []}"#);
    let meta = j(r#"{"query": "*"}"#);

    let response = handler.format_list(data, None, Some(meta));
    assert!(response.get("data").is_some());
    assert!(response.get("meta").is_some());
}

#[test]
fn test_default_interval() {
    let params = j(r#"{}"#);
    let interval = params.get_str("interval").unwrap_or("1h");
    assert_eq!(interval, "1h");
}

#[test]
fn test_custom_interval() {
    let params = j(r#"{"interval": "5m"}"#);
    let interval = params.get_str("interval").unwrap_or("1h");
    assert_eq!(interval, "5m");
}

#[test]
fn test_default_aggregation() {
    let params = j(r#"{}"#);
    let aggregation = params.get_str("aggregation").unwrap_or("count");
    assert_eq!(aggregation, "count");
}

#[test]
fn test_custom_aggregation() {
    let params = j(r#"{"aggregation": "avg"}"#);
    let aggregation = params.get_str("aggregation").unwrap_or("count");
    assert_eq!(aggregation, "avg");
}

#[test]
fn test_optional_metric_parameter() {
    let params_with = j(r#"{"metric": "@duration"}"#);
    let params_without = j(r#"{}"#);

    assert_eq!(params_with.get_str("metric"), Some("@duration"));
    assert_eq!(params_without.get_str("metric"), None);
}

#[test]
fn logs_timeseries_test_group_by_parameter() {
    let params = j(r#"{"group_by": [{"facet": "service", "limit": 5, "type": "facet"}]}"#);

    let group_by = params.get_array("group_by");
    assert!(group_by.is_some());
    assert_eq!(group_by.unwrap().len(), 1);
}

#[test]
fn test_timezone_parameter() {
    let params = j(r#"{"timezone": "America/New_York"}"#);
    assert_eq!(params.get_str("timezone"), Some("America/New_York"));
}

#[test]
fn test_default_query() {
    let params = j(r#"{}"#);
    let query = params.get_str("query").unwrap_or("*");
    assert_eq!(query, "*");
}

#[test]
fn logs_timeseries_test_time_handler_trait() {
    let handler = LogsTimeseriesHandler;
    let params = j(r#"{"from": "1 hour ago", "to": "now"}"#);

    let result = handler.parse_time(&params, 1);
    assert!(result.is_ok());
}

#[test]
fn logs_timeseries_test_response_formatter_trait() {
    let handler = LogsTimeseriesHandler;
    let data = j(r#"{"buckets": []}"#);
    let meta = j(r#"{"interval": "1h"}"#);

    let response = handler.format_list(data, None, Some(meta));
    assert!(response.get("data").is_some());
    assert!(response.get("meta").is_some());
}

#[test]
fn metrics_test_missing_query_parameter() {
    let client =
        DatadogClient::new("test_key".to_string(), "test_app_key".to_string(), None).unwrap();

    let params = j(r#"{"from": "1 hour ago", "to": "now"}"#);

    let result = MetricsHandler::query(&client, &params, NOW, NOW);
    assert!(result.is_err());

    if let Err(e) = result {
        let error_str = e.message();
        assert!(error_str.contains("query") || error_str.contains("Missing"));
    }
}

#[test]
fn metrics_test_valid_input_parameters() {
    // This test verifies parameter extraction works
    let params = j(r#"{"query": "avg:system.cpu.user{*}", "from": "1609459200", "to": "1609462800"}"#);

    assert_eq!(params.get_str("query"), Some("avg:system.cpu.user{*}"));
    assert!(params.get_str("from").is_some());
    assert!(params.get_str("to").is_some());
}

#[test]
fn test_optional_max_points_parameter() {
    let params_with = j(r#"{"query": "avg:cpu", "from": "1 hour ago", "to": "now", "max_points": 100}"#);

    let params_without = j(r#"{"query": "avg:cpu", "from": "1 hour ago", "to": "now"}"#);

    assert_eq!(params_with.get_i64("max_points"), Some(100));
    assert_eq!(params_without.get_i64("max_points"), None);
}

#[test]
fn test_time_handler_trait_available() {
    // Verify MetricsHandler implements TimeHandler
    let handler = MetricsHandler;
    let params = j(r#"{"from": "1609459200", "to": "1609462800"}"#);

    // This should not panic
    let result = handler.parse_time(&params, 1);
    assert!(result.is_ok());
}

#[test]
fn test_response_formatter_trait_available() {
    // Verify MetricsHandler implements ResponseFormatter
    let handler = MetricsHandler;
    let data = j(r#"["test"]"#);

    let formatted = handler.format_list(data, None, None);
    assert!(formatted.get("data").is_some());
}

#[test]
fn monitors_test_optional_tags_parameter() {
    let params_with = j(r#"{"tags": "env:prod"}"#);
    let params_without = j(r#"{}"#);

    assert_eq!(params_with.get_str("tags"), Some("env:prod"));
    assert_eq!(params_without.get_str("tags"), None);
}

#[test]
fn test_optional_monitor_tags_parameter() {
    let params = j(r#"{"monitor_tags": "service:web"}"#);
    assert_eq!(params.get_str("monitor_tags"), Some("service:web"));
}

#[test]
fn test_pagination_defaults() {
    let handler = MonitorsHandler;
    let params = j(r#"{}"#);

    let (page, page_size) = handler.parse_pagination(&params);
    assert_eq!(page, 0);
    assert_eq!(page_size, 50);
}

#[test]
fn test_pagination_custom() {
    let handler = MonitorsHandler;
    let params = j(r#"{"page": 2, "page_size": 25}"#);

    let (page, page_size) = handler.parse_pagination(&params);
    assert_eq!(page, 2);
    assert_eq!(page_size, 25);
}

#[test]
fn test_get_missing_monitor_id() {
    let params = j(r#"{}"#);
    let monitor_id = params.get_i64("monitor_id");
    assert_eq!(monitor_id, None);
}

#[test]
fn test_get_valid_monitor_id() {
    let params = j(r#"{"monitor_id": 12345}"#);
    let monitor_id = params.get_i64("monitor_id");
    assert_eq!(monitor_id, Some(12345));
}

#[test]
fn monitors_test_paginator_trait() {
    let handler = MonitorsHandler;
    let data = vec![1, 2, 3, 4, 5];

    let page1 = handler.paginate(&data, 0, 2);
    assert_eq!(page1, &[1, 2]);

    let page2 = handler.paginate(&data, 1, 2);
    assert_eq!(page2, &[3, 4]);
}

#[test]
fn monitors_test_response_formatter_list() {
    let handler = MonitorsHandler;
    let data = j(r#"[{"id": 1}, {"id": 2}]"#);
    let pagination = j(r#"{"page": 0, "page_size": 50}"#);

    let response = handler.format_list(data, Some(pagination), None);
    assert!(response.get("data").is_some());
    assert!(response.get("pagination").is_some());
}

#[test]
fn monitors_test_response_formatter_detail() {
    let handler = MonitorsHandler;
    let data = j(r#"{"id": 123, "name": "Test Monitor"}"#);

    let response = handler.format_detail(data.clone());
    assert_eq!(response.get("data"), Some(&data));
}

#[test]
fn test_format_pagination() {
    let handler = MonitorsHandler;
    let pagination = handler.format_pagination(0, 50, 150);

    assert_eq!(pagination.get_u64("page"), Some(0));
    assert_eq!(pagination.get_u64("page_size"), Some(50));
    assert_eq!(pagination.get_u64("total"), Some(150));
    assert_eq!(pagination.get_bool("has_next"), Some(true));
}

#[test]
fn rum_test_default_query_parameter() {
    let params = j(r#"{}"#);
    let query = params.get_str("query").unwrap_or("*");
    assert_eq!(query, "*");
}

#[test]
fn rum_test_custom_query_parameter() {
    let params = j(r#"{"query": "@type:session AND @session.type:user"}"#);
    assert_eq!(
        params.get_str("query"),
        Some("@type:session AND @session.type:user")
    );
}

#[test]
fn test_optional_limit() {
    let params = j(r#"{"limit": 25}"#);
    let limit = params.get_i64("limit").unwrap_or(10);
    assert_eq!(limit, 25);
}

#[test]
fn rum_test_time_handler_trait() {
    let handler = RumHandler;
    let params = j(r#"{"from": "1 hour ago", "to": "now"}"#);

    let result = handler.parse_time(&params, 2);
    assert!(result.is_ok());
}

#[test]
fn test_response_filter_trait() {
    let handler = RumHandler;

    // Test with full_stack_trace = false (default)
    let params = j(r#"{}"#);
    assert!(handler.should_truncate_stack_trace(&params));

    // Test with full_stack_trace = true
    let params = j(r#"{"full_stack_trace": true}"#);
    assert!(!handler.should_truncate_stack_trace(&params));
}

#[test]
fn rum_test_response_formatter_trait() {
    let handler = RumHandler;
    let data = j(r#"[{"id": "event1"}]"#);
    let pagination = j(r#"{"page": 0}"#);

    let response = handler.format_list(data, Some(pagination), None);
    assert!(response.get("data").is_some());
    assert!(response.get("pagination").is_some());
}

#[test]
fn test_optional_env_filter() {
    let params = j(r#"{"env": "production"}"#);
    assert_eq!(params.get_str("env"), Some("production"));
}

#[test]
fn services_test_pagination_parameters() {
    let handler = ServicesHandler;
    let params = j(r#"{"page": 3, "page_size": 20}"#);

    let (page, page_size) = handler.parse_pagination(&params);
    assert_eq!(page, 3);
    assert_eq!(page_size, 20);
}

#[test]
fn services_test_paginator_trait() {
    let handler = ServicesHandler;
    let data = vec![1, 2, 3, 4, 5];

    let page = handler.paginate(&data, 1, 2);
    assert_eq!(page, &[3, 4]);
}

#[test]
fn services_test_response_formatter_trait() {
    let handler = ServicesHandler;
    let data = j(r#"[{"service": "api"}]"#);
    let pagination = j(r#"{"page": 0}"#);
    let meta = j(r#"{"filter_env": "prod"}"#);

    let response = handler.format_list(data, Some(pagination), Some(meta));
    assert!(response.get("data").is_some());
    assert!(response.get("pagination").is_some());
    assert!(response.get("meta").is_some());
}

#[test]
fn test_required_query_parameter() {
    let params = j(r#"{"query": "service:web-api"}"#);
    assert_eq!(params.get_str("query"), Some("service:web-api"));
}

#[test]
fn test_default_limit() {
    let params = j(r#"{}"#);
    let limit = params.get_i64("limit").map(|l| l as i32).or(Some(10));
    assert_eq!(limit, Some(10));
}

#[test]
fn test_optional_sort_parameter() {
    let params = j(r#"{"sort": "timestamp"}"#);
    assert_eq!(params.get_str("sort"), Some("timestamp"));
}

#[test]
fn spans_test_pagination_parameters() {
    let handler = SpansHandler;
    let params = j(r#"{"page": 1, "page_size": 50}"#);

    let (page, page_size) = handler.parse_pagination(&params);
    assert_eq!(page, 1);
    assert_eq!(page_size, 50);
}

#[test]
fn spans_test_time_handler_trait() {
    let handler = SpansHandler;
    let params = j(r#"{"from": "1 hour ago", "to": "now"}"#);

    let result = handler.parse_time(&params, 1);
    assert!(result.is_ok());
}

#[test]
fn spans_test_response_formatter_trait() {
    let handler = SpansHandler;
    let data = j(r#"[{"span_id": "123"}]"#);
    let pagination = j(r#"{"page": 0}"#);
    let meta = j(r#"{"query": "*"}"#);

    let response = handler.format_list(data, Some(pagination), Some(meta));
    assert!(response.get("data").is_some());
}
