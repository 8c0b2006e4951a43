use mcp_datadog::cache::DataCache;
use mcp_datadog::datadog::client::HttpMethod;
use mcp_datadog::datadog::models::{
    AuthorInfo, Dashboard, DashboardSummary, Event, Host, HostsResponse, LogAttributes, LogEntry,
    LogsResponse, MetricSeries, MetricsResponse, Monitor, MonitorOptions, MonitorThresholds,
    RumAttributes, RumError, RumEvent, RumEventsResponse, RumMeta, RumPage, RumSession, RumView,
    Service, ServiceAttributes, ServiceContact, ServiceIntegrations, ServicesLinks, ServicesMeta,
    ServicesResponse, ServicesWarning, TemplateVariable, Unit, Widget, WidgetDefinition,
    WidgetLayout,
};
use mcp_datadog::handlers::dashboards::DashboardsHandler;
use mcp_datadog::handlers::events::EventsHandler;
use mcp_datadog::handlers::hosts::HostsHandler;
use mcp_datadog::handlers::logs::LogsHandler;
use mcp_datadog::handlers::logs_aggregate::LogsAggregateHandler;
use mcp_datadog::handlers::logs_timeseries::LogsTimeseriesHandler;
use mcp_datadog::handlers::metrics::MetricsHandler;
use mcp_datadog::handlers::monitors::MonitorsHandler;
use mcp_datadog::handlers::rum::RumHandler;
use mcp_datadog::handlers::services::ServicesHandler;
use mcp_datadog::handlers::spans::SpansHandler;
use mcp_datadog::json::{Json, JsonNumber};
use mcp_datadog::{DatadogClient, DatadogError};

// 2024-03-15 12:00:00 UTC.
const NOW: (i64, u32) = (1710504000, 0);

fn from_value(value: &serde_json::Value) -> Json {
    match value {
        serde_json::Value::Null => Json::Null,
        serde_json::Value::Bool(flag) => Json::Bool(*flag),
        serde_json::Value::Number(number) => {
            if let Some(n) = number.as_u64() {
                Json::Number(JsonNumber::PosInt(n))
            } else if let Some(n) = number.as_i64() {
                Json::Number(JsonNumber::NegInt(n))
            } else {
                Json::Number(JsonNumber::Real(number.as_f64().unwrap().to_bits()))
            }
        }
        serde_json::Value::String(text) => Json::Str(text.clone()),
        serde_json::Value::Array(items) => Json::Array(items.iter().map(from_value).collect()),
        serde_json::Value::Object(fields) => Json::Object(
            fields
                .iter()
                .map(|(key, value)| (key.clone(), from_value(value)))
                .collect(),
        ),
    }
}

fn j(text: &str) -> Json {
    from_value(&serde_json::from_str(text).unwrap())
}

/// A value with the fields of every object in the order of their names.
fn canon(json: &Json) -> Json {
    match json {
        Json::Array(items) => Json::Array(items.iter().map(canon).collect()),
        Json::Object(fields) => {
            let mut sorted: Vec<(String, Json)> = fields
                .iter()
                .map(|(key, value)| (key.clone(), canon(value)))
                .collect();
            sorted.sort_by(|a, b| a.0.cmp(&b.0));
            Json::Object(sorted)
        }
        other => other.clone(),
    }
}

fn assert_json(actual: &Json, expected: &str) {
    assert_eq!(canon(actual), canon(&j(expected)));
}

fn client() -> DatadogClient {
    DatadogClient::new("key".to_string(), "app".to_string(), None).unwrap()
}

fn filtering_client() -> DatadogClient {
    DatadogClient::with_tag_filter(
        "key".to_string(),
        "app".to_string(),
        None,
        Some("env:".to_string()),
    )
    .unwrap()
}

fn text(s: &str) -> Option<String> {
    Some(s.to_string())
}

fn pairs(list: Vec<(&str, &str)>) -> Option<Vec<(String, String)>> {
    Some(
        list.into_iter()
            .map(|(key, value)| (key.to_string(), value.to_string()))
            .collect(),
    )
}

#[test]
fn test_rum_search_request() {
    let params = j(
        r#"{"query": "@type:error", "from": "1704067200", "to": "1704070800", "limit": 25,
            "cursor": "abc", "sort": "-timestamp", "tag_filter": "service:"}"#,
    );
    let search = RumHandler::search_events(&filtering_client(), &params, NOW, NOW).unwrap();
    assert_eq!(search.request.method, HttpMethod::Post);
    assert_eq!(
        search.request.url,
        "https://api.datadoghq.com/api/v2/rum/events/search"
    );
    assert_eq!(search.request.query, None);
    assert_json(
        search.request.body.as_ref().unwrap(),
        r#"{"filter": {"query": "@type:error", "from": "2024-01-01T00:00:00+00:00",
                       "to": "2024-01-01T01:00:00+00:00"},
            "page": {"limit": 25, "cursor": "abc"}, "sort": "-timestamp"}"#,
    );
    assert_eq!(search.tag_filter, "service:");
    assert_eq!(search.limit, 25);
    assert!(search.truncate_stack_traces);
}

#[test]
fn test_rum_search_defaults() {
    let params = j(r#"{"full_stack_trace": true}"#);
    let search = RumHandler::search_events(&filtering_client(), &params, NOW, NOW).unwrap();
    assert_json(
        search.request.body.as_ref().unwrap(),
        r#"{"filter": {"query": "*", "from": "2024-03-15T11:00:00+00:00",
                       "to": "2024-03-15T12:00:00+00:00"},
            "page": {"limit": 10}}"#,
    );
    // The client's default filter stands in where the call names none.
    assert_eq!(search.tag_filter, "env:");
    assert_eq!(search.limit, 10);
    assert!(!search.truncate_stack_traces);
    assert_eq!(
        RumHandler::search_events(&client(), &params, NOW, NOW)
            .unwrap()
            .tag_filter,
        "*"
    );
}

#[test]
fn test_rum_search_rejects_unreadable_times() {
    let params = j(r#"{"from": "whenever"}"#);
    let failure = RumHandler::search_events(&client(), &params, NOW, NOW).unwrap_err();
    assert_eq!(
        failure,
        DatadogError::DateParseError("Unable to parse time expression: 'whenever'".to_string())
    );
    // A timestamp outside the calendar has no RFC 3339 form.
    let params = j(r#"{"from": "9223372036854775807"}"#);
    let failure = RumHandler::search_events(&client(), &params, NOW, NOW).unwrap_err();
    assert_eq!(
        failure,
        DatadogError::InvalidInput("Invalid timestamp".to_string())
    );
}

#[test]
fn test_rum_search_response() {
    let params = j(r#"{"tag_filter": "env:", "limit": 5}"#);
    let search = RumHandler::search_events(&client(), &params, NOW, NOW).unwrap();
    let stack: Vec<String> = (1..=12).map(|n| format!("at frame {}", n)).collect();
    let response = RumEventsResponse {
        data: Some(vec![
            RumEvent {
                id: "e1".to_string(),
                event_type: text("rum"),
                attributes: Some(RumAttributes {
                    timestamp: text("2024-01-01T00:00:00Z"),
                    tags: Some(vec!["env:prod".to_string(), "team:a".to_string()]),
                    service: text("web"),
                    view: Some(RumView {
                        name: text("home"),
                        loading_time: Some(120),
                        ..Default::default()
                    }),
                    session: Some(RumSession {
                        id: text("s1"),
                        has_replay: Some(false),
                        ..Default::default()
                    }),
                    error: Some(RumError {
                        message: text("boom"),
                        stack: Some(stack.join("\n")),
                        is_crash: Some(true),
                        ..Default::default()
                    }),
                    ..Default::default()
                }),
            },
            RumEvent {
                id: "e2".to_string(),
                event_type: None,
                attributes: Some(RumAttributes {
                    tags: Some(vec!["team:a".to_string()]),
                    view: Some(RumView::default()),
                    ..Default::default()
                }),
            },
            RumEvent {
                id: "e3".to_string(),
                event_type: None,
                attributes: None,
            },
        ]),
        meta: Some(RumMeta {
            page: Some(RumPage {
                after: text("next"),
            }),
            ..Default::default()
        }),
        links: None,
    };
    let json = RumHandler::search_events_response(&search, &response);
    let mut expected_stack: Vec<String> = (1..=10).map(|n| format!("at frame {}", n)).collect();
    expected_stack.push("... (2 more lines)".to_string());
    let first = &json.get("data").unwrap().as_array().unwrap()[0];
    assert_eq!(
        first.get("error").unwrap().get_str("stack"),
        Some(expected_stack.join("\n").as_str())
    );
    assert_eq!(first.get("error").unwrap().get_bool("is_crash"), Some(true));
    assert_eq!(first.get("error").unwrap().get_str("message"), Some("boom"));
    assert_json(
        first.get("view").unwrap(),
        r#"{"name": "home", "loading_time": 120}"#,
    );
    // A replay that is not there is not mentioned.
    assert_json(first.get("session").unwrap(), r#"{"id": "s1"}"#);
    assert_json(first.get("tags").unwrap(), r#"["env:prod"]"#);
    assert_eq!(first.get_str("type"), Some("rum"));
    assert_eq!(first.get_str("timestamp"), Some("2024-01-01T00:00:00Z"));
    assert_eq!(first.get_str("service"), Some("web"));
    // Empty objects and empty tag lists are left out.
    assert_json(
        &json.get("data").unwrap().as_array().unwrap()[1],
        r#"{"id": "e2"}"#,
    );
    assert_json(
        &json.get("data").unwrap().as_array().unwrap()[2],
        r#"{"id": "e3"}"#,
    );
    assert_json(
        json.get("pagination").unwrap(),
        r#"{"total": 3, "page": 0, "page_size": 5, "has_next": true}"#,
    );
}

#[test]
fn test_rum_full_stack_trace_is_kept() {
    let params = j(r#"{"full_stack_trace": true}"#);
    let search = RumHandler::search_events(&client(), &params, NOW, NOW).unwrap();
    let stack: Vec<String> = (1..=12).map(|n| format!("at frame {}", n)).collect();
    let response = RumEventsResponse {
        data: Some(vec![RumEvent {
            id: "e1".to_string(),
            event_type: None,
            attributes: Some(RumAttributes {
                error: Some(RumError {
                    stack: Some(stack.join("\n")),
                    ..Default::default()
                }),
                ..Default::default()
            }),
        }]),
        meta: None,
        links: None,
    };
    let json = RumHandler::search_events_response(&search, &response);
    let first = &json.get("data").unwrap().as_array().unwrap()[0];
    assert_eq!(
        first.get("error").unwrap().get_str("stack"),
        Some(stack.join("\n").as_str())
    );
    assert_eq!(
        json.get("pagination").unwrap().get_bool("has_next"),
        Some(false)
    );
}

#[test]
fn test_services_list_request() {
    let params = j(r#"{"page": 3, "page_size": 20, "env": "prod"}"#);
    let listing = ServicesHandler::list(&client(), &params);
    assert_eq!(listing.request.method, HttpMethod::Get);
    assert_eq!(
        listing.request.url,
        "https://api.datadoghq.com/api/v2/services/definitions"
    );
    assert_eq!(
        listing.request.query,
        pairs(vec![
            ("page[size]", "20"),
            ("page[number]", "3"),
            ("filter[env]", "prod"),
        ])
    );
    assert_eq!((listing.page, listing.page_size), (3, 20));
    assert_eq!(listing.filter_env, text("prod"));
    let listing = ServicesHandler::list(&client(), &j("{}"));
    assert_eq!(
        listing.request.query,
        pairs(vec![("page[size]", "50"), ("page[number]", "0")])
    );
}

#[test]
fn test_services_list_response() {
    let listing = ServicesHandler::list(&client(), &j(r#"{"env": "prod"}"#));
    let response = ServicesResponse {
        data: vec![
            Service {
                id: text("svc-1"),
                service_type: text("service-definition"),
                attributes: Some(ServiceAttributes {
                    dd_service: text("api"),
                    languages: Some(vec!["rust".to_string()]),
                    contacts: Some(vec![ServiceContact {
                        name: text("oncall"),
                        email: None,
                        contact_type: text("slack"),
                    }]),
                    integrations: Some(ServiceIntegrations {
                        pagerduty: Some(j(r#"{"service-url": "https://pd"}"#)),
                        slack: None,
                        others: vec![
                            ("opsgenie".to_string(), j(r#"{"region": "EU"}"#)),
                            ("pagerduty".to_string(), j(r#""replaced""#)),
                        ],
                    }),
                    extra: vec![
                        ("tier".to_string(), j(r#""ignored""#)),
                        ("custom".to_string(), j("7")),
                    ],
                    ..Default::default()
                }),
            },
            Service::default(),
        ],
        meta: Some(ServicesMeta {
            warnings: Some(vec![ServicesWarning {
                code: text("W1"),
                detail: None,
                title: text("careful"),
            }]),
        }),
        links: Some(ServicesLinks {
            next: text("https://next"),
        }),
    };
    let json = ServicesHandler::list_response(&listing, &response);
    assert_json(
        &json,
        r#"{
            "data": [
                {"id": "svc-1", "type": "service-definition", "schema_version": null,
                 "dd_service": "api", "dd_team": null, "application": null, "tier": null,
                 "lifecycle": null, "type_of_service": null, "languages": ["rust"], "tags": null,
                 "contacts": [{"name": "oncall", "email": null, "type": "slack"}],
                 "integrations": {"pagerduty": "replaced", "opsgenie": {"region": "EU"}},
                 "custom": 7},
                {"id": null, "type": null}
            ],
            "pagination": {"page": 0, "page_size": 50, "total": 2, "has_next": false},
            "meta": {"filter_env": "prod",
                     "warnings": [{"code": "W1", "detail": null, "title": "careful"}],
                     "next": "https://next"}
        }"#,
    );
}

fn monitor(id: i64, name: &str) -> Monitor {
    Monitor {
        id,
        name: name.to_string(),
        monitor_type: "metric alert".to_string(),
        query: "avg(last_5m):avg:cpu{*} > 90".to_string(),
        tags: vec!["env:prod".to_string()],
        ..Default::default()
    }
}

#[test]
fn test_monitors_list_request() {
    let params = j(r#"{"tags": "env:prod", "page": 2, "page_size": 2}"#);
    let listing = MonitorsHandler::list(&client(), &params);
    assert_eq!(listing.request.url, "https://api.datadoghq.com/api/v1/monitor");
    assert_eq!(listing.request.query, pairs(vec![("tags", "env:prod")]));
    assert!(!listing.refresh);
    assert_eq!((listing.page, listing.page_size), (2, 2));
    assert_json(
        &listing.cache_params,
        r#"{"tags": "env:prod", "monitor_tags": null}"#,
    );
    // The first page always fetches afresh.
    let listing = MonitorsHandler::list(&client(), &j("{}"));
    assert!(listing.refresh);
    assert_eq!(listing.request.query, None);
}

#[test]
fn test_monitors_list_response() {
    let monitors: Vec<Monitor> = (1..=5).map(|n| monitor(n, &format!("m{}", n))).collect();
    let listing = MonitorsHandler::list(&client(), &j(r#"{"page": 1, "page_size": 2}"#));
    let json = MonitorsHandler::list_response(&listing, &monitors);
    assert_json(
        &json,
        r#"{
            "data": [
                {"id": 3, "name": "m3", "type": "metric alert",
                 "query": "avg(last_5m):avg:cpu{*} > 90", "status": null,
                 "tags": ["env:prod"], "priority": null},
                {"id": 4, "name": "m4", "type": "metric alert",
                 "query": "avg(last_5m):avg:cpu{*} > 90", "status": null,
                 "tags": ["env:prod"], "priority": null}
            ],
            "pagination": {"page": 1, "page_size": 2, "total": 5, "has_next": true}
        }"#,
    );
    let listing = MonitorsHandler::list(&client(), &j(r#"{"page": 9, "page_size": 2}"#));
    let json = MonitorsHandler::list_response(&listing, &monitors);
    assert_json(
        &json,
        r#"{"data": [], "pagination": {"page": 9, "page_size": 2, "total": 5, "has_next": false}}"#,
    );
}

#[test]
fn test_monitors_get() {
    let failure = MonitorsHandler::get(&client(), &j(r#"{"monitor_id": "12"}"#)).unwrap_err();
    assert_eq!(
        failure,
        DatadogError::InvalidInput("Missing 'monitor_id' parameter".to_string())
    );
    let request = MonitorsHandler::get(&client(), &j(r#"{"monitor_id": 12}"#)).unwrap();
    assert_eq!(request.url, "https://api.datadoghq.com/api/v1/monitor/12");

    let mut found = monitor(12, "cpu");
    found.priority = Some(2);
    found.overall_state = text("Alert");
    found.options = Some(MonitorOptions {
        thresholds: Some(MonitorThresholds {
            critical: Some(JsonNumber::Real(90.5f64.to_bits())),
            warning: None,
            ok: Some(JsonNumber::PosInt(1)),
        }),
        notify_no_data: Some(true),
        notify_audit: None,
        timeout_h: Some(0),
        silenced: Some(j(r#"{"*": null}"#)),
        extra: Vec::new(),
    });
    let json = MonitorsHandler::get_response(&found);
    let options = json.get("data").unwrap().get("options").unwrap();
    assert_eq!(
        options.get("thresholds").unwrap().get("critical"),
        Some(&Json::Number(JsonNumber::Real(90.5f64.to_bits())))
    );
    assert_eq!(options.get("thresholds").unwrap().get("warning"), Some(&Json::Null));
    assert_eq!(options.get_bool("notify_no_data"), Some(true));
    assert_eq!(options.get("notify_audit"), Some(&Json::Null));
    assert_eq!(options.get_i64("timeout_h"), Some(0));
    assert_json(options.get("silenced").unwrap(), r#"{"*": null}"#);
    assert_eq!(json.get("data").unwrap().get_i64("priority"), Some(2));
    assert_eq!(json.get("data").unwrap().get_str("overall_state"), Some("Alert"));

    // A silencing without entries, or no options at all.
    found.options.as_mut().unwrap().silenced = Some(j("{}"));
    let json = MonitorsHandler::get_response(&found);
    assert_eq!(
        json.get("data").unwrap().get("options").unwrap().get("silenced"),
        None
    );
    found.options = None;
    let json = MonitorsHandler::get_response(&found);
    assert_eq!(json.get("data").unwrap().get("options"), Some(&Json::Null));
}

#[test]
fn test_events_query() {
    let params = j(
        r#"{"from": "1704067200", "to": "1704070800", "sources": "nagios", "page": 1,
            "page_size": 1}"#,
    );
    let query = EventsHandler::query(&client(), &params, NOW, NOW).unwrap();
    assert_eq!(
        query.request.query,
        pairs(vec![
            ("start", "1704067200"),
            ("end", "1704070800"),
            ("sources", "nagios"),
        ])
    );
    assert_eq!((query.start, query.end), (1704067200, 1704070800));
    assert!(!query.refresh);
    assert_json(
        &query.cache_params,
        r#"{"start": 1704067200, "end": 1704070800, "priority": null, "sources": "nagios",
            "tags": null}"#,
    );
    let events = vec![
        Event {
            id: Some(1),
            title: text("first"),
            ..Default::default()
        },
        Event {
            id: Some(2),
            title: text("second"),
            date_happened: Some(1704067260),
            alert_type: text("info"),
            ..Default::default()
        },
    ];
    let json = EventsHandler::query_response(&query, &events);
    assert_json(
        &json,
        r#"{
            "data": [{"id": 2, "title": "second", "text": null,
                      "date": "2024-01-01 00:01:00 UTC", "priority": null, "host": null,
                      "source": null, "alert_type": "info"}],
            "pagination": {"page": 1, "page_size": 1, "total": 2, "has_next": false},
            "meta": {"from": "2024-01-01 00:00:00 UTC", "to": "2024-01-01 01:00:00 UTC"}
        }"#,
    );
    assert!(EventsHandler::query(&client(), &j(r#"{"to": "??"}"#), NOW, NOW).is_err());
}

#[test]
fn test_hosts_list() {
    let params = j(r#"{"filter": "env:prod", "from": "1704067200", "start": 5, "tag_filter": "env:,role:"}"#);
    let listing = HostsHandler::list(&client(), &params, NOW, NOW).unwrap();
    assert_eq!(
        listing.request.query,
        pairs(vec![
            ("filter", "env:prod"),
            ("from", "1704067200"),
            ("start", "5"),
            ("count", "100"),
        ])
    );
    let response = HostsResponse {
        total_matching: 2,
        total_returned: 2,
        host_list: vec![
            Host {
                name: "web-1".to_string(),
                host_name: "web-1.internal".to_string(),
                up: true,
                is_muted: false,
                last_reported_time: Some(1704067200),
                tags_by_source: Some(vec![
                    (
                        "Datadog".to_string(),
                        vec!["env:prod".to_string(), "team:a".to_string()],
                    ),
                    ("Users".to_string(), vec!["owner:me".to_string()]),
                    ("Chef".to_string(), vec!["role:web".to_string()]),
                ]),
                apps: Some(vec!["nginx".to_string()]),
                ..Default::default()
            },
            Host {
                name: "db-1".to_string(),
                host_name: "db-1.internal".to_string(),
                ..Default::default()
            },
        ],
    };
    let json = HostsHandler::list_response(&listing, &response);
    assert_json(
        &json,
        r#"{
            "data": [
                {"name": "web-1", "host_name": "web-1.internal", "up": true, "is_muted": false,
                 "last_reported": "2024-01-01 00:00:00 UTC", "aws_name": null,
                 "apps": ["nginx"], "sources": null,
                 "tags": {"Datadog": ["env:prod"], "Chef": ["role:web"]}},
                {"name": "db-1", "host_name": "db-1.internal", "up": false, "is_muted": false,
                 "last_reported": null, "aws_name": null, "apps": null, "sources": null,
                 "tags": null}
            ],
            "meta": {"total_matching": 2, "total_returned": 2}
        }"#,
    );
    // Without tags at all for the empty filter, and all of them for `*`.
    let listing = HostsHandler::list(&client(), &j(r#"{"tag_filter": ""}"#), NOW, NOW).unwrap();
    let json = HostsHandler::list_response(&listing, &response);
    assert_eq!(
        json.get("data").unwrap().as_array().unwrap()[0].get("tags"),
        Some(&Json::Null)
    );
    let listing = HostsHandler::list(&client(), &j("{}"), NOW, NOW).unwrap();
    let json = HostsHandler::list_response(&listing, &response);
    assert_json(
        json.get("data").unwrap().as_array().unwrap()[0]
            .get("tags")
            .unwrap(),
        r#"{"Datadog": ["env:prod", "team:a"], "Users": ["owner:me"], "Chef": ["role:web"]}"#,
    );
}

#[test]
fn test_logs_search() {
    let params = j(r#"{"query": "service:web", "from": "1704067200", "to": "1704070800", "limit": 2, "tag_filter": "env:"}"#);
    let search = LogsHandler::search(&client(), &params, NOW, NOW).unwrap();
    assert_json(
        search.request.body.as_ref().unwrap(),
        r#"{"filter": {"query": "service:web", "from": "2024-01-01T00:00:00+00:00",
                       "to": "2024-01-01T01:00:00+00:00"},
            "page": {"limit": 2}, "sort": "timestamp"}"#,
    );
    let response = LogsResponse {
        data: Some(vec![
            LogEntry {
                id: "l1".to_string(),
                log_type: text("log"),
                attributes: Some(LogAttributes {
                    message: text("hello"),
                    tags: Some(vec!["env:prod".to_string(), "x:y".to_string()]),
                    status: text("info"),
                    ..Default::default()
                }),
            },
            LogEntry {
                id: "l2".to_string(),
                log_type: None,
                attributes: None,
            },
        ]),
        meta: None,
        errors: None,
    };
    let json = LogsHandler::search_response(&search, &response).unwrap();
    assert_json(
        &json,
        r#"{
            "data": [
                {"id": "l1", "timestamp": null, "message": "hello", "host": null,
                 "service": null, "tags": ["env:prod"], "status": "info"},
                {"id": "l2", "timestamp": null, "message": null, "host": null,
                 "service": null, "tags": null, "status": null}
            ],
            "meta": {"query": "service:web", "from": "2024-01-01T00:00:00+00:00",
                     "to": "2024-01-01T01:00:00+00:00", "total": 2}
        }"#,
    );
    let failed = LogsResponse {
        data: None,
        meta: None,
        errors: Some(vec!["bad query".to_string(), "try again".to_string()]),
    };
    assert_eq!(
        LogsHandler::search_response(&search, &failed),
        Err(DatadogError::ApiError("bad query, try again".to_string()))
    );
    let failed = LogsResponse {
        data: None,
        meta: None,
        errors: Some(Vec::new()),
    };
    assert_eq!(
        LogsHandler::search_response(&search, &failed),
        Err(DatadogError::ApiError(String::new()))
    );
}

#[test]
fn test_logs_search_needs_a_query() {
    // The query is missed before the time range is looked at.
    let params = j(r#"{"from": "no time at all"}"#);
    assert_eq!(
        LogsHandler::search(&client(), &params, NOW, NOW).unwrap_err(),
        DatadogError::InvalidInput("Missing 'query' parameter".to_string())
    );
    let params = j(r#"{"query": 5}"#);
    assert_eq!(
        LogsHandler::search(&client(), &params, NOW, NOW).unwrap_err(),
        DatadogError::InvalidInput("Missing 'query' parameter".to_string())
    );
}

#[test]
fn test_logs_aggregate() {
    let params = j(
        r#"{"from": "1704067200", "to": "1704070800", "timezone": "UTC",
            "compute": [{"aggregation": "sum", "metric": "@duration"}, 5],
            "group_by": [{"facet": "service", "limit": 3, "sort": {"order": "desc"}},
                         {"sort": "none"}]}"#,
    );
    let plan = LogsAggregateHandler::aggregate(&client(), &params, NOW, NOW).unwrap();
    assert_eq!(plan.from, "1704067200000");
    assert_eq!(plan.to, "1704070800000");
    assert_json(
        plan.request.body.as_ref().unwrap(),
        r#"{"filter": {"query": "*", "from": "1704067200000", "to": "1704070800000"},
            "compute": [{"aggregation": "sum", "type": "total", "metric": "@duration"},
                        {"aggregation": "count", "type": "total"}],
            "group_by": [{"facet": "service", "limit": 3, "type": "facet",
                          "sort": {"order": "desc", "type": "measure"}},
                         {"facet": "status", "type": "facet"}],
            "options": {"timezone": "UTC"}}"#,
    );
    let response = j(r#"{"data": {"buckets": [{"by": {}}, {"by": {}}]}, "meta": {}}"#);
    assert_json(
        &LogsAggregateHandler::aggregate_response(&plan, &response),
        r#"{"data": {"buckets": [{"by": {}}, {"by": {}}]},
            "meta": {"query": "*", "from": "1704067200000", "to": "1704070800000",
                     "buckets_count": 2, "timezone": "UTC"}}"#,
    );
    assert_json(
        &LogsAggregateHandler::aggregate_response(&plan, &j("{}")),
        r#"{"data": null,
            "meta": {"query": "*", "from": "1704067200000", "to": "1704070800000",
                     "buckets_count": 0, "timezone": "UTC"}}"#,
    );
}

#[test]
fn test_logs_aggregate_defaults_and_limits() {
    for params in [r#"{}"#, r#"{"compute": []}"#, r#"{"compute": "count"}"#] {
        let plan = LogsAggregateHandler::aggregate(&client(), &j(params), NOW, NOW).unwrap();
        assert_json(
            plan.request.body.as_ref().unwrap(),
            r#"{"filter": {"query": "*", "from": "1710500400000", "to": "1710504000000"},
                "compute": [{"aggregation": "count", "type": "total"}]}"#,
        );
        assert_eq!(plan.timezone, None);
    }
    // Milliseconds that do not fit.
    let params = j(r#"{"from": "9223372036854775"}"#);
    assert!(LogsAggregateHandler::aggregate(&client(), &params, NOW, NOW).is_ok());
    let params = j(r#"{"from": "9223372036854776"}"#);
    assert_eq!(
        LogsAggregateHandler::aggregate(&client(), &params, NOW, NOW).unwrap_err(),
        DatadogError::InvalidInput("Invalid timestamp".to_string())
    );
}

#[test]
fn test_logs_timeseries() {
    let params = j(
        r#"{"query": "status:error", "from": "1704067200", "to": "1704070800",
            "interval": "5m", "aggregation": "avg", "metric": "@duration",
            "group_by": [{"facet": "host", "sort": {"order": "asc"}}]}"#,
    );
    let plan = LogsTimeseriesHandler::timeseries(&client(), &params, NOW, NOW).unwrap();
    assert_json(
        plan.request.body.as_ref().unwrap(),
        r#"{"filter": {"query": "status:error", "from": "1704067200000", "to": "1704070800000"},
            "compute": [{"aggregation": "avg", "type": "timeseries", "interval": "5m",
                         "metric": "@duration"}],
            "group_by": [{"facet": "host", "type": "facet"}]}"#,
    );
    let response = j(r#"{"data": {"buckets": [1, 2, 3]}}"#);
    assert_json(
        &LogsTimeseriesHandler::timeseries_response(&plan, &response),
        r#"{"data": {"buckets": [1, 2, 3]},
            "meta": {"query": "status:error", "from": "1704067200000", "to": "1704070800000",
                     "interval": "5m", "aggregation": "avg", "metric": "@duration",
                     "buckets_count": 3, "timezone": null}}"#,
    );
    let plan = LogsTimeseriesHandler::timeseries(&client(), &j("{}"), NOW, NOW).unwrap();
    assert_json(
        plan.request.body.as_ref().unwrap(),
        r#"{"filter": {"query": "*", "from": "1710500400000", "to": "1710504000000"},
            "compute": [{"aggregation": "count", "type": "timeseries", "interval": "1h"}]}"#,
    );
}

fn widget(kind: &str, nested: Vec<Widget>) -> Widget {
    Widget {
        id: None,
        definition: WidgetDefinition {
            widget_type: kind.to_string(),
            ..Default::default()
        },
        layout: None,
        nested,
    }
}

#[test]
fn test_dashboards_widget_types() {
    let widgets = vec![
        widget("timeseries", vec![widget("hidden", vec![])]),
        widget(
            "group",
            vec![
                widget("toplist", vec![]),
                widget("group", vec![widget("note", vec![]), widget("timeseries", vec![])]),
            ],
        ),
        widget("Note", vec![]),
        widget("", vec![]),
    ];
    // Widgets inside anything but a group are not looked at.
    assert_eq!(
        DashboardsHandler::collect_widget_types(&widgets),
        vec!["", "Note", "group", "note", "timeseries", "toplist"]
    );
    assert_eq!(
        DashboardsHandler::collect_widget_types(&Vec::new()),
        Vec::<String>::new()
    );
}

#[test]
fn test_dashboards_list() {
    let listing = DashboardsHandler::list(&client(), &j(r#"{"page": 1, "page_size": 1}"#));
    assert_eq!(listing.request.url, "https://api.datadoghq.com/api/v1/dashboard");
    assert!(!listing.refresh);
    assert_json(&listing.cache_params, "{}");
    let dashboards = vec![
        DashboardSummary {
            id: "a".to_string(),
            title: "A".to_string(),
            url: "/a".to_string(),
            ..Default::default()
        },
        DashboardSummary {
            id: "b".to_string(),
            title: "B".to_string(),
            url: "/b".to_string(),
            is_read_only: Some(true),
            tags: Some(vec!["team:x".to_string()]),
            ..Default::default()
        },
    ];
    assert_json(
        &DashboardsHandler::list_response(&listing, &dashboards),
        r#"{"data": [{"id": "b", "title": "B", "url": "/b", "author_handle": null,
                      "created_at": null, "modified_at": null, "is_read_only": true,
                      "layout_type": null, "description": null, "tags": ["team:x"]}],
            "pagination": {"page": 1, "page_size": 1, "total": 2, "has_next": false}}"#,
    );
}

#[test]
fn test_dashboards_get() {
    assert_eq!(
        DashboardsHandler::get(&client(), &j("{}")).unwrap_err(),
        DatadogError::InvalidInput("Missing 'dashboard_id' parameter".to_string())
    );
    let request = DashboardsHandler::get(&client(), &j(r#"{"dashboard_id": "abc-123"}"#)).unwrap();
    assert_eq!(
        request.url,
        "https://api.datadoghq.com/api/v1/dashboard/abc-123"
    );
    let mut first = widget("timeseries", vec![]);
    first.id = Some(7);
    first.definition.title = text("CPU");
    first.layout = Some(WidgetLayout {
        x: 0,
        y: -1,
        width: 4,
        height: 2,
    });
    let dashboard = Dashboard {
        id: "abc-123".to_string(),
        title: "Ops".to_string(),
        layout_type: "ordered".to_string(),
        url: "/dashboard/abc-123".to_string(),
        author_info: Some(AuthorInfo {
            name: text("Ada"),
            handle: None,
            email: None,
        }),
        template_variables: Some(vec![TemplateVariable {
            name: "env".to_string(),
            default_value: text("prod"),
            prefix: None,
            available_values: Some(vec!["prod".to_string(), "dev".to_string()]),
        }]),
        widgets: vec![first, widget("group", vec![widget("note", vec![])])],
        ..Default::default()
    };
    assert_json(
        &DashboardsHandler::get_response(&dashboard),
        r#"{"data": {
            "id": "abc-123", "title": "Ops", "description": null, "url": "/dashboard/abc-123",
            "layout_type": "ordered", "is_read_only": false, "created_at": null,
            "modified_at": null, "tags": [],
            "author": {"name": "Ada", "handle": null, "email": null},
            "template_variables": [{"name": "env", "default": "prod", "prefix": null,
                                    "available_values": ["prod", "dev"]}],
            "widgets_summary": {
                "total_widgets": 2,
                "widget_types": ["group", "note", "timeseries"],
                "widgets": [
                    {"id": 7, "type": "timeseries", "title": "CPU",
                     "layout": {"x": 0, "y": -1, "width": 4, "height": 2}},
                    {"id": null, "type": "group", "title": null, "layout": null}
                ]
            }
        }}"#,
    );
}

#[test]
fn test_spans_list_request() {
    let params = j(r#"{"query": "service:api", "from": "1704067200", "to": "1704070800", "page_size": 5, "sort": "-timestamp"}"#);
    let listing = SpansHandler::list(&client(), &params, NOW, NOW).unwrap();
    assert_eq!(
        listing.request.query,
        pairs(vec![
            ("filter[query]", "service:api"),
            ("filter[from]", "2024-01-01T00:00:00+00:00"),
            ("filter[to]", "2024-01-01T01:00:00+00:00"),
            ("page[limit]", "5"),
            ("sort", "-timestamp"),
        ])
    );
    assert_eq!(listing.page_size, 5);
    let params = j(r#"{"limit": 7, "page_size": 5}"#);
    let listing = SpansHandler::list(&client(), &params, NOW, NOW).unwrap();
    assert_eq!(
        listing.request.query.unwrap()[3],
        ("page[limit]".to_string(), "7".to_string())
    );
}

#[test]
fn test_spans_list_response() {
    let params = j(r#"{"tag_filter": "env:", "page_size": 10}"#);
    let listing = SpansHandler::list(&client(), &params, NOW, NOW).unwrap();
    let stack: Vec<String> = (1..=11).map(|n| format!("frame {}", n)).collect();
    let servers = "k".repeat(150);
    let response = Json::Object(vec![
        (
            "data".to_string(),
            Json::Array(vec![
                Json::Object(vec![
                    ("id".to_string(), Json::Str("s1".to_string())),
                    (
                        "attributes".to_string(),
                        Json::Object(vec![
                            ("tags".to_string(), j(r#"["env:prod", 5, "team:a"]"#)),
                            ("ingestion_reason".to_string(), Json::Str(String::new())),
                            (
                                "custom".to_string(),
                                Json::Object(vec![
                                    (
                                        "http".to_string(),
                                        j(r#"{"method": "GET", "useragent_details": {"os": "x"}}"#),
                                    ),
                                    (
                                        "error".to_string(),
                                        Json::Object(vec![
                                            ("message".to_string(), Json::Str("boom".to_string())),
                                            ("stack".to_string(), Json::Str(stack.join("\n"))),
                                        ]),
                                    ),
                                    (
                                        "messaging".to_string(),
                                        Json::Object(vec![(
                                            "kafka".to_string(),
                                            Json::Object(vec![(
                                                "bootstrap".to_string(),
                                                Json::Object(vec![(
                                                    "servers".to_string(),
                                                    Json::Str(servers.clone()),
                                                )]),
                                            )]),
                                        )]),
                                    ),
                                ]),
                            ),
                        ]),
                    ),
                ]),
                j(r#"{"id": "s2", "attributes": {"tags": ["team:a"], "ingestion_reason": "auto"}}"#),
                j(r#"{"id": "s3", "attributes": "none"}"#),
                j(r#""not a span""#),
            ]),
        ),
        ("meta".to_string(), j(r#"{"page": {"after": "cursor"}}"#)),
    ]);
    let json = SpansHandler::list_response(&listing, &response);
    let spans = json.get("data").unwrap().as_array().unwrap();
    assert_eq!(spans.len(), 4);
    let attributes = spans[0].get("attributes").unwrap();
    assert_json(attributes.get("tags").unwrap(), r#"["env:prod"]"#);
    assert_eq!(attributes.get("ingestion_reason"), None);
    let custom = attributes.get("custom").unwrap();
    assert_json(custom.get("http").unwrap(), r#"{"method": "GET"}"#);
    let mut short: Vec<String> = (1..=10).map(|n| format!("frame {}", n)).collect();
    short.push("... (1 more lines)".to_string());
    assert_eq!(
        custom.get("error").unwrap().get_str("stack"),
        Some(short.join("\n").as_str())
    );
    assert_eq!(custom.get("error").unwrap().get_str("message"), Some("boom"));
    let cut = format!("{}...", "k".repeat(100));
    assert_eq!(
        custom
            .get("messaging")
            .unwrap()
            .get("kafka")
            .unwrap()
            .get("bootstrap")
            .unwrap()
            .get_str("servers"),
        Some(cut.as_str())
    );
    // No tag left: the list goes; a reason that says something stays.
    assert_json(
        &spans[1],
        r#"{"id": "s2", "attributes": {"ingestion_reason": "auto"}}"#,
    );
    assert_json(&spans[2], r#"{"id": "s3", "attributes": "none"}"#);
    assert_json(&spans[3], r#""not a span""#);
    assert_json(
        json.get("pagination").unwrap(),
        r#"{"total": 4, "page": 0, "page_size": 10, "has_next": true}"#,
    );
}

#[test]
fn test_spans_servers_are_not_cut_inside_a_character() {
    let listing = SpansHandler::list(&client(), &j("{}"), NOW, NOW).unwrap();
    // Ninety-nine bytes, then a character of two bytes: byte 100 is inside it.
    let servers = format!("{}\u{e9}{}", "k".repeat(99), "k".repeat(20));
    let response = Json::Object(vec![(
        "data".to_string(),
        Json::Array(vec![Json::Object(vec![(
            "attributes".to_string(),
            Json::Object(vec![(
                "custom".to_string(),
                Json::Object(vec![(
                    "messaging".to_string(),
                    Json::Object(vec![(
                        "kafka".to_string(),
                        Json::Object(vec![(
                            "bootstrap".to_string(),
                            Json::Object(vec![(
                                "servers".to_string(),
                                Json::Str(servers.clone()),
                            )]),
                        )]),
                    )]),
                )]),
            )]),
        )])]),
    )]);
    let json = SpansHandler::list_response(&listing, &response);
    assert_eq!(canon(json.get("data").unwrap()), canon(response.get("data").unwrap()));
    assert_eq!(
        json.get("pagination").unwrap().get_u64("page_size"),
        Some(50)
    );
}

#[test]
fn test_metrics_query() {
    let params = j(r#"{"query": "avg:system.cpu.user{*}", "from": "1704067200", "to": "1704153600", "max_points": 100}"#);
    let plan = MetricsHandler::query(&client(), &params, NOW, NOW).unwrap();
    // 86400 s for 100 points is 864 s a point, rolled up to half an hour.
    assert_eq!(
        plan.request.query,
        pairs(vec![
            ("query", "avg:system.cpu.user{*}.rollup(avg, 1800)"),
            ("from", "1704067200"),
            ("to", "1704153600"),
        ])
    );
    assert_eq!(plan.max_points, Some(100));
    let params = j(r#"{"query": "max:m{*}", "from": "1704067200", "to": "1704153600"}"#);
    let plan = MetricsHandler::query(&client(), &params, NOW, NOW).unwrap();
    assert_eq!(plan.request.query.as_ref().unwrap()[0].1, "max:m{*}");
    assert_eq!(plan.max_points, None);
    for points in ["0", "-3"] {
        let params = j(&format!(r#"{{"query": "q", "max_points": {}}}"#, points));
        assert_eq!(
            MetricsHandler::query(&client(), &params, NOW, NOW).unwrap_err(),
            DatadogError::InvalidInput("Invalid 'max_points' parameter".to_string())
        );
    }
}

#[test]
fn test_metrics_query_response() {
    let params = j(r#"{"query": "avg:m{*}", "from": "1704067200", "to": "1704070800", "max_points": 10}"#);
    let plan = MetricsHandler::query(&client(), &params, NOW, NOW).unwrap();
    let value = JsonNumber::Real(4.25f64.to_bits());
    let response = MetricsResponse {
        status: "ok".to_string(),
        query: "avg:m{*}".to_string(),
        message: text(""),
        group_by: Some(Vec::new()),
        series: vec![
            MetricSeries {
                metric: "m".to_string(),
                scope: "*".to_string(),
                aggr: text("avg"),
                interval: Some(20),
                unit: Some(vec![
                    None,
                    Some(Unit {
                        family: "db".to_string(),
                        name: "query".to_string(),
                        short_name: text(""),
                        ..Default::default()
                    }),
                    Some(Unit {
                        family: "time".to_string(),
                        name: "second".to_string(),
                        short_name: text("s"),
                        ..Default::default()
                    }),
                ]),
                pointlist: Some(vec![
                    vec![Some(JsonNumber::PosInt(1704067260999)), Some(value)],
                    vec![Some(JsonNumber::NegInt(-1500)), None],
                    vec![None, Some(JsonNumber::PosInt(1))],
                    vec![Some(JsonNumber::PosInt(1))],
                    vec![Some(JsonNumber::Real(1.0f64.to_bits())), Some(value)],
                ]),
                ..Default::default()
            },
            MetricSeries {
                metric: "n".to_string(),
                scope: "host:a".to_string(),
                unit: Some(vec![None]),
                ..Default::default()
            },
        ],
        ..Default::default()
    };
    let json = MetricsHandler::query_response(&plan, &response);
    let series = json.get("data").unwrap().as_array().unwrap();
    assert_json(
        series[0].get("unit").unwrap(),
        r#"{"name": "query", "family": "db"}"#,
    );
    assert_eq!(series[0].get_str("aggr"), Some("avg"));
    assert_eq!(series[0].get_i64("interval"), Some(20));
    let points = series[0].get("points").unwrap();
    assert_eq!(points.get_u64("count"), Some(5));
    let data = points.get("data").unwrap().as_array().unwrap();
    assert_eq!(data[0].get_str("timestamp"), Some("2024-01-01 00:01:00 UTC"));
    assert_eq!(data[0].get("value"), Some(&Json::Number(value)));
    // Whole seconds are rounded towards zero.
    assert_eq!(data[1].get_str("timestamp"), Some("1969-12-31 23:59:59 UTC"));
    assert_eq!(data[1].get("value"), Some(&Json::Null));
    assert_eq!(data[2].get_str("timestamp"), Some("N/A"));
    assert_eq!(data[2].get_u64("value"), Some(1));
    assert_json(&data[3], r#"{"timestamp": "N/A", "value": null}"#);
    assert_eq!(data[4].get_str("timestamp"), Some("N/A"));
    assert_json(
        &series[1],
        r#"{"metric": "n", "scope": "host:a", "points": {"count": 0, "data": []}}"#,
    );
    assert_json(
        json.get("meta").unwrap(),
        r#"{"query": "avg:m{*}", "status": "ok", "from": "2024-01-01 00:00:00 UTC",
            "to": "2024-01-01 01:00:00 UTC", "rollup_applied": true,
            "requested_max_points": 10}"#,
    );
    let failed = MetricsResponse {
        status: "error".to_string(),
        query: "bad".to_string(),
        error: text("Error parsing query"),
        message: text("look again"),
        group_by: Some(vec!["host".to_string()]),
        ..Default::default()
    };
    let plan = MetricsHandler::query(
        &client(),
        &j(r#"{"query": "bad", "from": "0", "to": "60"}"#),
        NOW,
        NOW,
    )
    .unwrap();
    assert_json(
        &MetricsHandler::query_response(&plan, &failed),
        r#"{"data": [],
            "meta": {"query": "bad", "status": "error", "from": "1970-01-01 00:00:00 UTC",
                     "to": "1970-01-01 00:01:00 UTC", "error": "Error parsing query",
                     "message": "look again", "group_by": ["host"]}}"#,
    );
}

#[test]
fn test_first_page_does_not_read_the_cache() {
    let mut cache = DataCache::new(300);
    cache.set_monitors("k".to_string(), vec![monitor(1, "kept")]);
    let first = MonitorsHandler::list(&client(), &j("{}"));
    assert_eq!(MonitorsHandler::cached(&first, &mut cache, "k").map(|list| list.len()), None);
    let second = MonitorsHandler::list(&client(), &j(r#"{"page": 1}"#));
    let found = MonitorsHandler::cached(&second, &mut cache, "k").unwrap();
    assert_eq!(found.len(), 1);
    assert_eq!(found[0].name, "kept");
    assert!(MonitorsHandler::cached(&second, &mut cache, "other").is_none());

    cache.set_dashboards("d".to_string(), Vec::new());
    let first = DashboardsHandler::list(&client(), &j("{}"));
    assert!(DashboardsHandler::cached(&first, &mut cache, "d").is_none());
    let later = DashboardsHandler::list(&client(), &j(r#"{"page": 3}"#));
    assert_eq!(DashboardsHandler::cached(&later, &mut cache, "d").map(|list| list.len()), Some(0));

    cache.set_events("e".to_string(), Vec::new());
    let now = (1_710_504_000, 0);
    let first = EventsHandler::query(&client(), &j("{}"), now, now).unwrap();
    assert!(EventsHandler::cached(&first, &mut cache, "e").is_none());
    let later = EventsHandler::query(&client(), &j(r#"{"page": 1}"#), now, now).unwrap();
    assert_eq!(EventsHandler::cached(&later, &mut cache, "e").map(|list| list.len()), Some(0));
}
