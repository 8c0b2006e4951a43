//! The client's side of the upstream API: where requests go and how they
//! are authenticated, described as plain values for a transport to carry
//! out.

use crate::datadog::models::LogsCompute;
use crate::datadog::models::LogsGroupBy;
use crate::datadog::models::LogsGroupBySort;
use crate::error::DatadogError;
use crate::error::DatadogErrorView;
use crate::json::opt_field;
use crate::json::opt_str;
use crate::json::opt_text_json;
use crate::json::push_opt_field;
use crate::json::view_fields;
use crate::json::view_items;
use crate::json::view_opt;
use crate::json::Json;
use crate::json::JsonNumber;
use crate::json::JsonView;
use crate::text::join;
use crate::text::view_text;
use crate::text::decimal;
use crate::text::decimal_i64;
use vstd::prelude::*;
use vstd::string::*;

verus! {

/// The site that requests go to when none is named.
pub open spec fn default_site() -> Seq<char> {
    "datadoghq.com"@
}

/// The base URL of the API of a site.
pub open spec fn base_url_of(site: Option<Seq<char>>) -> Seq<char> {
    "https://api."@ + match site {
        Some(name) => name,
        None => default_site(),
    }
}

/// Credentials and address of the upstream API, with the tag filter that
/// applies where a tool call names none.
pub struct DatadogClient {
    api_key: String,
    app_key: String,
    base_url: String,
    tag_filter: Option<String>,
}

/// The mathematical value of a [`DatadogClient`].
pub struct DatadogClientView {
    pub api_key: Seq<char>,
    pub app_key: Seq<char>,
    pub base_url: Seq<char>,
    pub tag_filter: Option<Seq<char>>,
}

impl View for DatadogClient {
    type V = DatadogClientView;

    closed spec fn view(&self) -> DatadogClientView {
        DatadogClientView {
            api_key: self.api_key@,
            app_key: self.app_key@,
            base_url: self.base_url@,
            tag_filter: view_text(self.tag_filter),
        }
    }
}

impl DatadogClient {
    /// A client for `site` (the default site where none is given) without a
    /// default tag filter.
    pub fn new(api_key: String, app_key: String, site: Option<String>) -> (client: Result<
        Self,
        DatadogError,
    >)
        ensures
            client is Ok,
            client->Ok_0@ == (DatadogClientView {
                api_key: api_key@,
                app_key: app_key@,
                base_url: base_url_of(view_text(site)),
                tag_filter: None,
            }),
    {
        Self::with_tag_filter(api_key, app_key, site, None)
    }

    /// A client for `site` (the default site where none is given) with the
    /// given default tag filter.
    pub fn with_tag_filter(
        api_key: String,
        app_key: String,
        site: Option<String>,
        tag_filter: Option<String>,
    ) -> (client: Result<Self, DatadogError>)
        ensures
            client is Ok,
            client->Ok_0@ == (DatadogClientView {
                api_key: api_key@,
                app_key: app_key@,
                base_url: base_url_of(view_text(site)),
                tag_filter: view_text(tag_filter),
            }),
    {
        let base_url = match &site {
            Some(name) => join("https://api.", name.as_str()),
            None => join("https://api.", "datadoghq.com"),
        };
        Ok(DatadogClient { api_key, app_key, base_url, tag_filter })
    }

    /// The default tag filter, if one was given.
    pub fn get_tag_filter(&self) -> (filter: Option<&str>)
        ensures
            match filter {
                Some(text) => self@.tag_filter == Some(text@),
                None => self@.tag_filter is None,
            },
    {
        match &self.tag_filter {
            Some(text) => Some(text.as_str()),
            None => None,
        }
    }

    /// The base URL that requests are sent to.
    pub fn base_url(&self) -> (url: &str)
        ensures
            url@ == self@.base_url,
    {
        self.base_url.as_str()
    }

    /// The API key sent with every request.
    pub fn api_key(&self) -> (key: &str)
        ensures
            key@ == self@.api_key,
    {
        self.api_key.as_str()
    }

    /// The application key sent with every request.
    pub fn app_key(&self) -> (key: &str)
        ensures
            key@ == self@.app_key,
    {
        self.app_key.as_str()
    }
}

/// How a request is sent.
#[derive(Debug, Clone, Copy, PartialEq, Eq, Structural)]
pub enum HttpMethod {
    Get,
    Post,
}

/// A request to the upstream API, described for a transport to send.
#[derive(Debug)]
pub struct ApiRequest {
    pub method: HttpMethod,
    pub url: String,
    pub headers: Vec<(String, String)>,
    pub query: Option<Vec<(String, String)>>,
    pub body: Option<Json>,
}

/// The mathematical value of an [`ApiRequest`].
pub struct ApiRequestView {
    pub method: HttpMethod,
    pub url: Seq<char>,
    pub headers: Seq<(Seq<char>, Seq<char>)>,
    pub query: Option<Seq<(Seq<char>, Seq<char>)>>,
    pub body: Option<JsonView>,
}

/// The views of a list of pairs of texts.
pub open spec fn view_pairs(pairs: Seq<(String, String)>) -> Seq<(Seq<char>, Seq<char>)> {
    Seq::new(pairs.len(), |i: int| (pairs[i].0@, pairs[i].1@))
}

impl View for ApiRequest {
    type V = ApiRequestView;

    open spec fn view(&self) -> ApiRequestView {
        ApiRequestView {
            method: self.method,
            url: self.url@,
            headers: view_pairs(self.headers@),
            query: match self.query {
                Some(pairs) => Some(view_pairs(pairs@)),
                None => None,
            },
            body: view_opt(self.body),
        }
    }
}

/// A query parameter that is only sent where it has a value.
pub open spec fn opt_pair(key: Seq<char>, value: Option<Seq<char>>) -> Seq<(Seq<char>, Seq<char>)> {
    match value {
        Some(text) => seq![(key, text)],
        None => Seq::empty(),
    }
}

/// A number as an optional text: its decimal numeral.
pub open spec fn opt_decimal(value: Option<int>) -> Option<Seq<char>> {
    match value {
        Some(n) => Some(decimal(n)),
        None => None,
    }
}

/// The query of a request: absent where there are no parameters.
pub open spec fn query_of(pairs: Seq<(Seq<char>, Seq<char>)>) -> Option<Seq<(Seq<char>, Seq<char>)>> {
    if pairs.len() == 0 {
        None
    } else {
        Some(pairs)
    }
}

/// The filter of a search: a query and the two ends of a time range.
pub open spec fn search_filter(query: Seq<char>, from: Seq<char>, to: Seq<char>) -> JsonView {
    JsonView::Object(
        seq![
            ("query"@, JsonView::Str(query)),
            ("from"@, JsonView::Str(from)),
            ("to"@, JsonView::Str(to)),
        ],
    )
}

/// The page limit of a search: ten where none is asked for.
pub open spec fn limit_or_default(limit: Option<i32>) -> JsonView {
    JsonView::Number(
        JsonNumber::of_int(
            match limit {
                Some(n) => n as int,
                None => 10,
            },
        ),
    )
}

/// The body of a log search.
pub open spec fn search_logs_body(query: Seq<char>, from: Seq<char>, to: Seq<char>, limit: Option<i32>) -> JsonView {
    JsonView::Object(
        seq![
            ("filter"@, search_filter(query, from, to)),
            ("page"@, JsonView::Object(seq![("limit"@, limit_or_default(limit))])),
            ("sort"@, JsonView::Str("timestamp"@)),
        ],
    )
}

/// The body of a search for real-user-monitoring events.
pub open spec fn search_rum_body(
    query: Seq<char>,
    from: Seq<char>,
    to: Seq<char>,
    limit: Option<i32>,
    cursor: Option<Seq<char>>,
    sort: Option<Seq<char>>,
) -> JsonView {
    JsonView::Object(
        seq![
            ("filter"@, search_filter(query, from, to)),
            (
                "page"@,
                JsonView::Object(
                    seq![("limit"@, limit_or_default(limit))] + opt_field("cursor"@, opt_str(cursor)),
                ),
            ),
        ] + opt_field("sort"@, opt_str(sort)),
    )
}

/// One aggregate of a log aggregation, as the API reads it.
pub open spec fn compute_json(compute: LogsCompute) -> JsonView {
    JsonView::Object(
        seq![("aggregation"@, JsonView::Str(compute.aggregation@))] + opt_field(
            "type"@,
            opt_str(view_text(compute.compute_type)),
        ) + opt_field("interval"@, opt_str(view_text(compute.interval))) + opt_field(
            "metric"@,
            opt_str(view_text(compute.metric)),
        ),
    )
}

/// The order of the groups of a facet, as the API reads it.
pub open spec fn sort_json(sort: LogsGroupBySort) -> JsonView {
    JsonView::Object(
        opt_field("order"@, opt_str(view_text(sort.order))) + opt_field(
            "type"@,
            opt_str(view_text(sort.sort_type)),
        ) + opt_field("aggregation"@, opt_str(view_text(sort.aggregation))) + opt_field(
            "metric"@,
            opt_str(view_text(sort.metric)),
        ),
    )
}

/// One facet of a log aggregation, as the API reads it.
pub open spec fn group_by_json(group: LogsGroupBy) -> JsonView {
    JsonView::Object(
        seq![("facet"@, JsonView::Str(group.facet@))] + opt_field(
            "limit"@,
            match group.limit {
                Some(n) => Some(JsonView::Number(JsonNumber::of_int(n as int))),
                None => None,
            },
        ) + opt_field(
            "sort"@,
            match group.sort {
                Some(sort) => Some(sort_json(sort)),
                None => None,
            },
        ) + opt_field("type"@, opt_str(view_text(group.group_type))),
    )
}

/// The body of a log aggregation.
pub open spec fn aggregate_logs_body(
    query: Seq<char>,
    from: Seq<char>,
    to: Seq<char>,
    compute: Option<Seq<LogsCompute>>,
    group_by: Option<Seq<LogsGroupBy>>,
    timezone: Option<Seq<char>>,
) -> JsonView {
    JsonView::Object(
        seq![("filter"@, search_filter(query, from, to))] + opt_field(
            "compute"@,
            match compute {
                Some(list) => Some(JsonView::Array(Seq::new(list.len(), |i: int| compute_json(list[i])))),
                None => None,
            },
        ) + opt_field(
            "group_by"@,
            match group_by {
                Some(list) => Some(
                    JsonView::Array(Seq::new(list.len(), |i: int| group_by_json(list[i]))),
                ),
                None => None,
            },
        ) + opt_field(
            "options"@,
            match timezone {
                Some(zone) => Some(JsonView::Object(seq![("timezone"@, JsonView::Str(zone))])),
                None => None,
            },
        ),
    )
}

impl DatadogClientView {
    /// The headers that every request carries: the two credentials and the
    /// content type.
    pub open spec fn headers(self) -> Seq<(Seq<char>, Seq<char>)> {
        seq![
            ("DD-API-KEY"@, self.api_key),
            ("DD-APPLICATION-KEY"@, self.app_key),
            ("Content-Type"@, "application/json"@),
        ]
    }

    /// The request for `endpoint` with the given query and body.
    pub open spec fn request_for(
        self,
        method: HttpMethod,
        endpoint: Seq<char>,
        query: Option<Seq<(Seq<char>, Seq<char>)>>,
        body: Option<JsonView>,
    ) -> ApiRequestView {
        ApiRequestView { method, url: self.base_url + endpoint, headers: self.headers(), query, body }
    }
}

/// Appends a query parameter.
fn push_pair(pairs: &mut Vec<(String, String)>, key: &str, value: String)
    ensures
        view_pairs(final(pairs)@) == view_pairs(old(pairs)@).push((key@, value@)),
{
    pairs.push((key.to_string(), value));
    assert(view_pairs(pairs@) =~= view_pairs(old(pairs)@).push((key@, value@)));
}

/// Appends a query parameter where it has a value.
fn push_opt_pair(pairs: &mut Vec<(String, String)>, key: &str, value: Option<String>)
    ensures
        view_pairs(final(pairs)@) == view_pairs(old(pairs)@) + opt_pair(key@, view_text(value)),
{
    match value {
        Some(text) => {
            push_pair(pairs, key, text);
            assert(view_pairs(pairs@) =~= view_pairs(old(pairs)@) + opt_pair(key@, Some(text@)));
        },
        None => {
            assert(view_pairs(pairs@) =~= view_pairs(old(pairs)@) + opt_pair(key@, None));
        },
    }
}

/// The decimal numeral of an optional number.
fn opt_decimal_i64(value: Option<i64>) -> (text: Option<String>)
    ensures
        view_text(text) == opt_decimal(
            match value {
                Some(n) => Some(n as int),
                None => None,
            },
        ),
{
    match value {
        Some(n) => Some(decimal_i64(n)),
        None => None,
    }
}

/// The decimal numeral of an optional number.
fn opt_decimal_i32(value: Option<i32>) -> (text: Option<String>)
    ensures
        view_text(text) == opt_decimal(
            match value {
                Some(n) => Some(n as int),
                None => None,
            },
        ),
{
    match value {
        Some(n) => Some(decimal_i64(n as i64)),
        None => None,
    }
}

/// The query of a request: absent where there are no parameters.
fn finish_query(pairs: Vec<(String, String)>) -> (query: Option<Vec<(String, String)>>)
    ensures
        match query {
            Some(list) => query_of(view_pairs(pairs@)) == Some(view_pairs(list@)),
            None => query_of(view_pairs(pairs@)) is None,
        },
{
    if pairs.len() == 0 {
        None
    } else {
        Some(pairs)
    }
}

/// Builds the filter of a search.
fn build_search_filter(query: &str, from: &str, to: &str) -> (filter: Json)
    ensures
        filter@ == search_filter(query@, from@, to@),
{
    let mut fields: Vec<(String, Json)> = Vec::new();
    Json::push_field(&mut fields, "query", Json::text(query));
    Json::push_field(&mut fields, "from", Json::text(from));
    Json::push_field(&mut fields, "to", Json::text(to));
    proof {
        assert(view_fields(fields@) =~= search_filter(query@, from@, to@)->Object_0);
    }
    Json::object(fields)
}

/// Builds the page limit of a search.
fn build_limit(limit: Option<i32>) -> (json: Json)
    ensures
        json@ == limit_or_default(limit),
{
    match limit {
        Some(n) => Json::integer(n as i64),
        None => Json::integer(10),
    }
}

/// Builds one aggregate of a log aggregation.
fn build_compute(compute: &LogsCompute) -> (json: Json)
    ensures
        json@ == compute_json(*compute),
{
    let mut fields: Vec<(String, Json)> = Vec::new();
    Json::push_field(&mut fields, "aggregation", Json::Str(compute.aggregation.clone()));
    push_opt_field(&mut fields, "type", opt_text_json(&compute.compute_type));
    push_opt_field(&mut fields, "interval", opt_text_json(&compute.interval));
    push_opt_field(&mut fields, "metric", opt_text_json(&compute.metric));
    proof {
        assert(view_fields(fields@) =~= compute_json(*compute)->Object_0);
    }
    Json::object(fields)
}

/// Builds the order of the groups of a facet.
fn build_sort(sort: &LogsGroupBySort) -> (json: Json)
    ensures
        json@ == sort_json(*sort),
{
    let mut fields: Vec<(String, Json)> = Vec::new();
    push_opt_field(&mut fields, "order", opt_text_json(&sort.order));
    push_opt_field(&mut fields, "type", opt_text_json(&sort.sort_type));
    push_opt_field(&mut fields, "aggregation", opt_text_json(&sort.aggregation));
    push_opt_field(&mut fields, "metric", opt_text_json(&sort.metric));
    proof {
        assert(view_fields(fields@) =~= sort_json(*sort)->Object_0);
    }
    Json::object(fields)
}

/// Builds one facet of a log aggregation.
fn build_group_by(group: &LogsGroupBy) -> (json: Json)
    ensures
        json@ == group_by_json(*group),
{
    let mut fields: Vec<(String, Json)> = Vec::new();
    Json::push_field(&mut fields, "facet", Json::Str(group.facet.clone()));
    let limit = match group.limit {
        Some(n) => Some(Json::integer(n as i64)),
        None => None,
    };
    push_opt_field(&mut fields, "limit", limit);
    let sort = match &group.sort {
        Some(sort) => Some(build_sort(sort)),
        None => None,
    };
    push_opt_field(&mut fields, "sort", sort);
    push_opt_field(&mut fields, "type", opt_text_json(&group.group_type));
    proof {
        assert(view_fields(fields@) =~= group_by_json(*group)->Object_0);
    }
    Json::object(fields)
}

impl DatadogClient {
    /// Describes the request for `endpoint` with the given query and body,
    /// with the credentials and the content type as headers.
    pub fn request(
        &self,
        method: HttpMethod,
        endpoint: &str,
        query: Option<Vec<(String, String)>>,
        body: Option<Json>,
    ) -> (request: ApiRequest)
        ensures
            request@ == self@.request_for(
                method,
                endpoint@,
                match query {
                    Some(pairs) => Some(view_pairs(pairs@)),
                    None => None,
                },
                view_opt(body),
            ),
    {
        let mut headers: Vec<(String, String)> = Vec::new();
        push_pair(&mut headers, "DD-API-KEY", self.api_key.clone());
        push_pair(&mut headers, "DD-APPLICATION-KEY", self.app_key.clone());
        push_pair(&mut headers, "Content-Type", "application/json".to_string());
        proof {
            assert(view_pairs(headers@) =~= self@.headers());
        }
        ApiRequest { method, url: join(self.base_url.as_str(), endpoint), headers, query, body }
    }

    /// The request that queries a metric over a time range.
    pub fn query_metrics(&self, query: &str, from: i64, to: i64) -> (request: ApiRequest)
        ensures
            request@ == self@.request_for(
                HttpMethod::Get,
                "/api/v1/query"@,
                Some(
                    seq![
                        ("query"@, query@),
                        ("from"@, decimal(from as int)),
                        ("to"@, decimal(to as int)),
                    ],
                ),
                None,
            ),
    {
        let mut params: Vec<(String, String)> = Vec::new();
        push_pair(&mut params, "query", query.to_string());
        push_pair(&mut params, "from", decimal_i64(from));
        push_pair(&mut params, "to", decimal_i64(to));
        proof {
            assert(view_pairs(params@) =~= seq![
                ("query"@, query@),
                ("from"@, decimal(from as int)),
                ("to"@, decimal(to as int)),
            ]);
        }
        self.request(HttpMethod::Get, "/api/v1/query", Some(params), None)
    }

    /// The request that searches log events.
    pub fn search_logs(&self, query: &str, from: &str, to: &str, limit: Option<i32>) -> (request:
        ApiRequest)
        ensures
            request@ == self@.request_for(
                HttpMethod::Post,
                "/api/v2/logs/events/search"@,
                None,
                Some(search_logs_body(query@, from@, to@, limit)),
            ),
    {
        let mut fields: Vec<(String, Json)> = Vec::new();
        Json::push_field(&mut fields, "filter", build_search_filter(query, from, to));
        Json::push_field(&mut fields, "page", Json::singleton("limit", build_limit(limit)));
        Json::push_field(&mut fields, "sort", Json::text("timestamp"));
        proof {
            assert(view_fields(fields@) =~= search_logs_body(query@, from@, to@, limit)->Object_0);
        }
        self.request(HttpMethod::Post, "/api/v2/logs/events/search", None, Some(Json::object(fields)))
    }

    /// The request that lists monitors, optionally by tags and by page.
    pub fn list_monitors(
        &self,
        tags: Option<String>,
        monitor_tags: Option<String>,
        page: Option<i32>,
        page_size: Option<i32>,
    ) -> (request: ApiRequest)
        ensures
            request@ == self@.request_for(
                HttpMethod::Get,
                "/api/v1/monitor"@,
                query_of(
                    opt_pair("tags"@, view_text(tags)) + opt_pair(
                        "monitor_tags"@,
                        view_text(monitor_tags),
                    ) + opt_pair(
                        "page"@,
                        opt_decimal(
                            match page {
                                Some(n) => Some(n as int),
                                None => None,
                            },
                        ),
                    ) + opt_pair(
                        "page_size"@,
                        opt_decimal(
                            match page_size {
                                Some(n) => Some(n as int),
                                None => None,
                            },
                        ),
                    ),
                ),
                None,
            ),
    {
        let mut params: Vec<(String, String)> = Vec::new();
        assert(view_pairs(params@) =~= Seq::empty());
        push_opt_pair(&mut params, "tags", tags);
        push_opt_pair(&mut params, "monitor_tags", monitor_tags);
        push_opt_pair(&mut params, "page", opt_decimal_i32(page));
        push_opt_pair(&mut params, "page_size", opt_decimal_i32(page_size));
        self.request(HttpMethod::Get, "/api/v1/monitor", finish_query(params), None)
    }

    /// The request that fetches one monitor.
    pub fn get_monitor(&self, monitor_id: i64) -> (request: ApiRequest)
        ensures
            request@ == self@.request_for(
                HttpMethod::Get,
                "/api/v1/monitor/"@ + decimal(monitor_id as int),
                None,
                None,
            ),
    {
        let endpoint = join("/api/v1/monitor/", decimal_i64(monitor_id).as_str());
        self.request(HttpMethod::Get, endpoint.as_str(), None, None)
    }

    /// The request that queries events over a time range.
    pub fn query_events(
        &self,
        start: i64,
        end: i64,
        priority: Option<String>,
        sources: Option<String>,
        tags: Option<String>,
    ) -> (request: ApiRequest)
        ensures
            request@ == self@.request_for(
                HttpMethod::Get,
                "/api/v1/events"@,
                Some(
                    seq![("start"@, decimal(start as int)), ("end"@, decimal(end as int))]
                        + opt_pair("priority"@, view_text(priority)) + opt_pair(
                        "sources"@,
                        view_text(sources),
                    ) + opt_pair("tags"@, view_text(tags)),
                ),
                None,
            ),
    {
        let mut params: Vec<(String, String)> = Vec::new();
        push_pair(&mut params, "start", decimal_i64(start));
        push_pair(&mut params, "end", decimal_i64(end));
        proof {
            assert(view_pairs(params@) =~= seq![
                ("start"@, decimal(start as int)),
                ("end"@, decimal(end as int)),
            ]);
        }
        push_opt_pair(&mut params, "priority", priority);
        push_opt_pair(&mut params, "sources", sources);
        push_opt_pair(&mut params, "tags", tags);
        self.request(HttpMethod::Get, "/api/v1/events", Some(params), None)
    }

    /// The request that lists hosts.
    pub fn list_hosts(
        &self,
        filter: Option<String>,
        from: Option<i64>,
        sort_field: Option<String>,
        sort_dir: Option<String>,
        start: Option<i32>,
        count: Option<i32>,
    ) -> (request: ApiRequest)
        ensures
            request@ == self@.request_for(
                HttpMethod::Get,
                "/api/v1/hosts"@,
                query_of(
                    opt_pair("filter"@, view_text(filter)) + opt_pair(
                        "from"@,
                        opt_decimal(
                            match from {
                                Some(n) => Some(n as int),
                                None => None,
                            },
                        ),
                    ) + opt_pair("sort_field"@, view_text(sort_field)) + opt_pair(
                        "sort_dir"@,
                        view_text(sort_dir),
                    ) + opt_pair(
                        "start"@,
                        opt_decimal(
                            match start {
                                Some(n) => Some(n as int),
                                None => None,
                            },
                        ),
                    ) + opt_pair(
                        "count"@,
                        opt_decimal(
                            match count {
                                Some(n) => Some(n as int),
                                None => None,
                            },
                        ),
                    ),
                ),
                None,
            ),
    {
        let mut params: Vec<(String, String)> = Vec::new();
        assert(view_pairs(params@) =~= Seq::empty());
        push_opt_pair(&mut params, "filter", filter);
        push_opt_pair(&mut params, "from", opt_decimal_i64(from));
        push_opt_pair(&mut params, "sort_field", sort_field);
        push_opt_pair(&mut params, "sort_dir", sort_dir);
        push_opt_pair(&mut params, "start", opt_decimal_i32(start));
        push_opt_pair(&mut params, "count", opt_decimal_i32(count));
        self.request(HttpMethod::Get, "/api/v1/hosts", finish_query(params), None)
    }

    /// The request that lists all dashboards.
    pub fn list_dashboards(&self) -> (request: ApiRequest)
        ensures
            request@ == self@.request_for(HttpMethod::Get, "/api/v1/dashboard"@, None, None),
    {
        self.request(HttpMethod::Get, "/api/v1/dashboard", None, None)
    }

    /// The request that fetches one dashboard.
    pub fn get_dashboard(&self, dashboard_id: &str) -> (request: ApiRequest)
        ensures
            request@ == self@.request_for(
                HttpMethod::Get,
                "/api/v1/dashboard/"@ + dashboard_id@,
                None,
                None,
            ),
    {
        let endpoint = join("/api/v1/dashboard/", dashboard_id);
        self.request(HttpMethod::Get, endpoint.as_str(), None, None)
    }

    /// The request that lists spans.
    pub fn list_spans(
        &self,
        query: &str,
        from: &str,
        to: &str,
        limit: Option<i32>,
        cursor: Option<String>,
        sort: Option<String>,
    ) -> (request: ApiRequest)
        ensures
            request@ == self@.request_for(
                HttpMethod::Get,
                "/api/v2/spans/events"@,
                Some(
                    seq![
                        ("filter[query]"@, query@),
                        ("filter[from]"@, from@),
                        ("filter[to]"@, to@),
                        (
                            "page[limit]"@,
                            decimal(
                                match limit {
                                    Some(n) => n as int,
                                    None => 10,
                                },
                            ),
                        ),
                    ] + opt_pair("page[cursor]"@, view_text(cursor)) + opt_pair(
                        "sort"@,
                        view_text(sort),
                    ),
                ),
                None,
            ),
    {
        let limit_text = match limit {
            Some(n) => decimal_i64(n as i64),
            None => decimal_i64(10),
        };
        let mut params: Vec<(String, String)> = Vec::new();
        push_pair(&mut params, "filter[query]", query.to_string());
        push_pair(&mut params, "filter[from]", from.to_string());
        push_pair(&mut params, "filter[to]", to.to_string());
        push_pair(&mut params, "page[limit]", limit_text);
        let ghost fixed = view_pairs(params@);
        push_opt_pair(&mut params, "page[cursor]", cursor);
        push_opt_pair(&mut params, "sort", sort);
        proof {
            assert(fixed =~= seq![
                ("filter[query]"@, query@),
                ("filter[from]"@, from@),
                ("filter[to]"@, to@),
                (
                    "page[limit]"@,
                    decimal(
                        match limit {
                            Some(n) => n as int,
                            None => 10,
                        },
                    ),
                ),
            ]);
        }
        self.request(HttpMethod::Get, "/api/v2/spans/events", Some(params), None)
    }

    /// The request that lists the service catalog.
    pub fn get_service_catalog(
        &self,
        page_size: Option<i32>,
        page_number: Option<i32>,
        filter_env: Option<String>,
    ) -> (request: ApiRequest)
        ensures
            request@ == self@.request_for(
                HttpMethod::Get,
                "/api/v2/services/definitions"@,
                query_of(
                    opt_pair(
                        "page[size]"@,
                        opt_decimal(
                            match page_size {
                                Some(n) => Some(n as int),
                                None => None,
                            },
                        ),
                    ) + opt_pair(
                        "page[number]"@,
                        opt_decimal(
                            match page_number {
                                Some(n) => Some(n as int),
                                None => None,
                            },
                        ),
                    ) + opt_pair("filter[env]"@, view_text(filter_env)),
                ),
                None,
            ),
    {
        let mut params: Vec<(String, String)> = Vec::new();
        assert(view_pairs(params@) =~= Seq::empty());
        push_opt_pair(&mut params, "page[size]", opt_decimal_i32(page_size));
        push_opt_pair(&mut params, "page[number]", opt_decimal_i32(page_number));
        push_opt_pair(&mut params, "filter[env]", filter_env);
        self.request(
            HttpMethod::Get,
            "/api/v2/services/definitions",
            finish_query(params),
            None,
        )
    }

    /// The request that aggregates log events into buckets.
    pub fn aggregate_logs(
        &self,
        query: &str,
        from: &str,
        to: &str,
        compute: Option<Vec<LogsCompute>>,
        group_by: Option<Vec<LogsGroupBy>>,
        timezone: Option<String>,
    ) -> (request: ApiRequest)
        ensures
            request@ == self@.request_for(
                HttpMethod::Post,
                "/api/v2/logs/analytics/aggregate"@,
                None,
                Some(
                    aggregate_logs_body(
                        query@,
                        from@,
                        to@,
                        match compute {
                            Some(list) => Some(list@),
                            None => None,
                        },
                        match group_by {
                            Some(list) => Some(list@),
                            None => None,
                        },
                        view_text(timezone),
                    ),
                ),
            ),
    {
        let mut fields: Vec<(String, Json)> = Vec::new();
        Json::push_field(&mut fields, "filter", build_search_filter(query, from, to));
        proof {
            assert(view_fields(fields@) =~= seq![("filter"@, search_filter(query@, from@, to@))]);
        }
        let compute_json = match &compute {
            Some(list) => {
                let mut items: Vec<Json> = Vec::new();
                let mut i: usize = 0;
                while i < list.len()
                    invariant
                        i <= list.len(),
                        items.len() == i,
                        forall|j: int| 0 <= j < i ==> items@[j]@ == compute_json(list@[j]),
                    decreases list.len() - i,
                {
                    items.push(build_compute(&list[i]));
                    i = i + 1;
                }
                proof {
                    assert(view_items(items@) =~= Seq::new(
                        list@.len(),
                        |i: int| compute_json(list@[i]),
                    ));
                }
                Some(Json::array(items))
            },
            None => None,
        };
        push_opt_field(&mut fields, "compute", compute_json);
        let group_by_json = match &group_by {
            Some(list) => {
                let mut items: Vec<Json> = Vec::new();
                let mut i: usize = 0;
                while i < list.len()
                    invariant
                        i <= list.len(),
                        items.len() == i,
                        forall|j: int| 0 <= j < i ==> items@[j]@ == group_by_json(list@[j]),
                    decreases list.len() - i,
                {
                    items.push(build_group_by(&list[i]));
                    i = i + 1;
                }
                proof {
                    assert(view_items(items@) =~= Seq::new(
                        list@.len(),
                        |i: int| group_by_json(list@[i]),
                    ));
                }
                Some(Json::array(items))
            },
            None => None,
        };
        push_opt_field(&mut fields, "group_by", group_by_json);
        let options = match timezone {
            Some(zone) => Some(Json::singleton("timezone", Json::Str(zone))),
            None => None,
        };
        push_opt_field(&mut fields, "options", options);
        self.request(
            HttpMethod::Post,
            "/api/v2/logs/analytics/aggregate",
            None,
            Some(Json::object(fields)),
        )
    }

    /// The request that searches real-user-monitoring events.
    pub fn search_rum_events(
        &self,
        query: &str,
        from: &str,
        to: &str,
        limit: Option<i32>,
        cursor: Option<String>,
        sort: Option<String>,
    ) -> (request: ApiRequest)
        ensures
            request@ == self@.request_for(
                HttpMethod::Post,
                "/api/v2/rum/events/search"@,
                None,
                Some(
                    search_rum_body(query@, from@, to@, limit, view_text(cursor), view_text(sort)),
                ),
            ),
    {
        let mut page: Vec<(String, Json)> = Vec::new();
        Json::push_field(&mut page, "limit", build_limit(limit));
        proof {
            assert(view_fields(page@) =~= seq![("limit"@, limit_or_default(limit))]);
        }
        push_opt_field(&mut page, "cursor", opt_text_json(&cursor));
        let mut fields: Vec<(String, Json)> = Vec::new();
        Json::push_field(&mut fields, "filter", build_search_filter(query, from, to));
        Json::push_field(&mut fields, "page", Json::object(page));
        proof {
            assert(view_fields(fields@) =~= seq![
                ("filter"@, search_filter(query@, from@, to@)),
                (
                    "page"@,
                    JsonView::Object(
                        seq![("limit"@, limit_or_default(limit))] + opt_field(
                            "cursor"@,
                            opt_str(view_text(cursor)),
                        ),
                    ),
                ),
            ]);
        }
        push_opt_field(&mut fields, "sort", opt_text_json(&sort));
        self.request(HttpMethod::Post, "/api/v2/rum/events/search", None, Some(Json::object(fields)))
    }
}

/// The reason phrase that goes with a status code, or the words that
/// stand in for it where the code has none.
pub uninterp spec fn reason_phrase(status: u16) -> Seq<char>;

/// `reqwest::StatusCode`'s `Display` writes the code in decimal, a space,
/// and the code's canonical reason phrase, or a fixed stand-in where the
/// code has none. The phrase is determined by the code.
#[verifier::external_body]
fn status_line(status: u16) -> (line: String)
    requires
        100 <= status <= 999,
    ensures
        line@ == decimal(status as int) + seq![' '] + reason_phrase(status),
{
    match reqwest::StatusCode::from_u16(status) {
        Ok(code) => code.to_string(),
        Err(_) => String::new(),
    }
}

/// What a response amounts to, by its status. A success hands on the
/// body, and fails as a transport failure where the body could not be read.
/// Any other status is a failure: 401 and 403 are authentication failures,
/// 429 a rate limit, 408 a timeout, and the rest API failures that carry
/// the status and the body; an unreadable body is reported as unknown.
pub open spec fn classify_response(status: u16, body: Result<Seq<char>, Seq<char>>) -> Result<
    Seq<char>,
    DatadogErrorView,
> {
    if 200 <= status < 300 {
        match body {
            Ok(text) => Ok(text),
            Err(diagnostic) => Err(DatadogErrorView::NetworkError(diagnostic)),
        }
    } else {
        let error_text = match body {
            Ok(text) => text,
            Err(_) => "Unknown error"@,
        };
        if status == 401 || status == 403 {
            Err(DatadogErrorView::AuthError(error_text))
        } else if status == 429 {
            Err(DatadogErrorView::RateLimitError)
        } else if status == 408 {
            Err(DatadogErrorView::TimeoutError)
        } else {
            Err(
                DatadogErrorView::ApiError(
                    "HTTP "@ + decimal(status as int) + seq![' '] + reason_phrase(status) + ": "@
                        + error_text,
                ),
            )
        }
    }
}

/// The views of the two sides of a result of texts.
pub open spec fn view_body(body: Result<String, String>) -> Result<Seq<char>, Seq<char>> {
    match body {
        Ok(text) => Ok(text@),
        Err(diagnostic) => Err(diagnostic@),
    }
}

impl DatadogClient {
    /// Classifies a response by its status. `body` is the text of the
    /// response, or the transport's diagnostic where the body could not be
    /// read.
    pub fn handle_response(&self, status: u16, body: Result<String, String>) -> (outcome: Result<
        String,
        DatadogError,
    >)
        requires
            100 <= status <= 999,
        ensures
            match outcome {
                Ok(text) => classify_response(status, view_body(body)) == Ok::<
                    Seq<char>,
                    DatadogErrorView,
                >(text@),
                Err(failure) => classify_response(status, view_body(body)) == Err::<
                    Seq<char>,
                    DatadogErrorView,
                >(failure@),
            },
    {
        if 200 <= status && status < 300 {
            return match body {
                Ok(text) => Ok(text),
                Err(diagnostic) => Err(DatadogError::NetworkError(diagnostic)),
            };
        }
        let error_text = match body {
            Ok(text) => text,
            Err(_) => "Unknown error".to_string(),
        };
        if status == 401 || status == 403 {
            Err(DatadogError::AuthError(error_text))
        } else if status == 429 {
            Err(DatadogError::RateLimitError)
        } else if status == 408 {
            Err(DatadogError::TimeoutError)
        } else {
            let mut message = join("HTTP ", status_line(status).as_str());
            message.append(": ");
            message.append(error_text.as_str());
            assert(message@ =~= "HTTP "@ + decimal(status as int) + seq![' '] + reason_phrase(status)
                + ": "@ + error_text@);
            Err(DatadogError::ApiError(message))
        }
    }
}

} // verus!
