//! The tool for log aggregation.

use crate::datadog::client::aggregate_logs_body;
use crate::datadog::client::ApiRequest;
use crate::datadog::client::DatadogClient;
use crate::datadog::client::HttpMethod;
use crate::datadog::models::LogsCompute;
use crate::datadog::models::LogsGroupBy;
use crate::datadog::models::LogsGroupBySort;
use crate::error::DatadogError;
use crate::error::DatadogErrorView;
use crate::handlers::common::count_json;
use crate::handlers::common::list_envelope;
use crate::handlers::common::read_time_range;
use crate::handlers::common::time_range;
use crate::handlers::common::ResponseFormatter;
use crate::handlers::common::TimeHandler;
use crate::handlers::common::TimeParams;
use crate::handlers::events::copy_text_field;
use crate::datadog::client::search_filter;
use crate::json::opt_field;
use crate::json::opt_str;
use crate::json::text_or_null;
use crate::json::JsonNumber;
use crate::json::text_or_null_json;
use crate::json::view_fields;
use crate::json::view_items;
use crate::json::Json;
use crate::json::JsonView;
use crate::text::decimal;
use crate::text::decimal_i64;
use crate::text::view_text;
use vstd::prelude::*;
use vstd::string::*;

verus! {

/// The tool for log aggregation.
#[derive(Debug, Clone, Copy)]
pub struct LogsAggregateHandler;

impl TimeHandler for LogsAggregateHandler {

}

impl ResponseFormatter for LogsAggregateHandler {

}

/// A log aggregation, ready to be sent, with what shapes its answer.
#[derive(Debug)]
pub struct LogsAggregation {
    pub request: ApiRequest,
    pub query: String,
    pub from: String,
    pub to: String,
    pub timezone: Option<String>,
}

/// A time range in milliseconds, as decimal numerals. A range that cannot
/// be read is the failure it is; an end that does not fit once it is in
/// milliseconds is an invalid input.
pub open spec fn millis_range(params: JsonView, from_now: (i64, u32), to_now: (i64, u32)) -> Result<
    (Seq<char>, Seq<char>),
    DatadogErrorView,
> {
    match time_range(params, from_now, to_now) {
        Err(failure) => Err(failure),
        Ok(TimeParams::Timestamp { from, to }) => if i64::MIN <= from * 1000 <= i64::MAX && i64::MIN
            <= to * 1000 <= i64::MAX {
            Ok((decimal(from * 1000), decimal(to * 1000)))
        } else {
            Err(DatadogErrorView::InvalidInput("Invalid timestamp"@))
        },
    }
}

/// Reads the time range of a tool call at the two given moments and puts
/// its ends into milliseconds.
pub fn read_millis_range(params: &Json, from_now: (i64, u32), to_now: (i64, u32)) -> (outcome:
    Result<(String, String), DatadogError>)
    ensures
        crate::handlers::common::range_is(outcome, millis_range(params@, from_now, to_now)),
{
    let (from, to) = match read_time_range(params, from_now, to_now) {
        Ok(TimeParams::Timestamp { from, to }) => (from, to),
        Err(failure) => {
            return Err(failure);
        },
    };
    match (from.checked_mul(1000), to.checked_mul(1000)) {
        (Some(from_millis), Some(to_millis)) => Ok(
            (decimal_i64(from_millis), decimal_i64(to_millis)),
        ),
        _ => Err(DatadogError::InvalidInput("Invalid timestamp".to_string())),
    }
}

/// The aggregate that is computed where a call names none: a count in
/// total.
pub open spec fn default_compute() -> LogsComputeView {
    LogsComputeView {
        aggregation: "count"@,
        compute_type: Some("total"@),
        interval: None,
        metric: None,
    }
}

/// The mathematical value of a [`LogsCompute`].
pub struct LogsComputeView {
    pub aggregation: Seq<char>,
    pub compute_type: Option<Seq<char>>,
    pub interval: Option<Seq<char>>,
    pub metric: Option<Seq<char>>,
}

/// The mathematical value of a [`LogsGroupBySort`].
pub struct LogsGroupBySortView {
    pub order: Option<Seq<char>>,
    pub sort_type: Option<Seq<char>>,
    pub aggregation: Option<Seq<char>>,
    pub metric: Option<Seq<char>>,
}

/// The mathematical value of a [`LogsGroupBy`].
pub struct LogsGroupByView {
    pub facet: Seq<char>,
    pub limit: Option<i32>,
    pub sort: Option<LogsGroupBySortView>,
    pub group_type: Option<Seq<char>>,
}

/// The view of an aggregate.
pub open spec fn view_compute(compute: LogsCompute) -> LogsComputeView {
    LogsComputeView {
        aggregation: compute.aggregation@,
        compute_type: view_text(compute.compute_type),
        interval: view_text(compute.interval),
        metric: view_text(compute.metric),
    }
}

/// The view of a facet.
pub open spec fn view_group_by(group: LogsGroupBy) -> LogsGroupByView {
    LogsGroupByView {
        facet: group.facet@,
        limit: group.limit,
        sort: match group.sort {
            Some(sort) => Some(
                LogsGroupBySortView {
                    order: view_text(sort.order),
                    sort_type: view_text(sort.sort_type),
                    aggregation: view_text(sort.aggregation),
                    metric: view_text(sort.metric),
                },
            ),
            None => None,
        },
        group_type: view_text(group.group_type),
    }
}

/// The views of a list of aggregates.
pub open spec fn view_computes(computes: Seq<LogsCompute>) -> Seq<LogsComputeView> {
    Seq::new(computes.len(), |i: int| view_compute(computes[i]))
}

/// The views of a list of facets.
pub open spec fn view_group_bys(groups: Seq<LogsGroupBy>) -> Seq<LogsGroupByView> {
    Seq::new(groups.len(), |i: int| view_group_by(groups[i]))
}

/// The aggregate that an item of the `compute` argument asks for: a count
/// in total, as far as the item says nothing else.
pub open spec fn compute_of(item: JsonView) -> LogsComputeView {
    LogsComputeView {
        aggregation: item.text_or("aggregation"@, "count"@),
        compute_type: Some(item.text_or("type"@, "total"@)),
        interval: item.text_field("interval"@),
        metric: item.text_field("metric"@),
    }
}

/// The aggregates that a call asks for: those of its `compute` argument,
/// and the default one where that is missing, empty or no array.
pub open spec fn computes_of(params: JsonView) -> Seq<LogsComputeView> {
    match params.array_field("compute"@) {
        Some(items) => if items.len() == 0 {
            seq![default_compute()]
        } else {
            Seq::new(items.len(), |i: int| compute_of(items[i]))
        },
        None => seq![default_compute()],
    }
}

/// The order that the `sort` field of a facet asks for, where that field
/// is an object: by measure, as far as it says nothing else.
pub open spec fn sort_of(item: JsonView) -> Option<LogsGroupBySortView> {
    match item.field("sort"@) {
        Some(JsonView::Object(fields)) => Some(
            LogsGroupBySortView {
                order: JsonView::Object(fields).text_field("order"@),
                sort_type: Some(JsonView::Object(fields).text_or("type"@, "measure"@)),
                aggregation: JsonView::Object(fields).text_field("aggregation"@),
                metric: JsonView::Object(fields).text_field("metric"@),
            },
        ),
        _ => None,
    }
}

/// The limit that an item of the `group_by` argument asks for.
pub open spec fn limit_of(item: JsonView) -> Option<i32> {
    match item.i64_field("limit"@) {
        Some(n) => Some(n as i32),
        None => None,
    }
}

/// The facet that an item of the `group_by` argument asks for: the
/// status, as a facet, as far as the item says nothing else.
pub open spec fn group_by_of(item: JsonView) -> LogsGroupByView {
    LogsGroupByView {
        facet: item.text_or("facet"@, "status"@),
        limit: limit_of(item),
        sort: sort_of(item),
        group_type: Some(item.text_or("type"@, "facet"@)),
    }
}

/// The facets that a call asks for, where its `group_by` argument is an
/// array.
pub open spec fn group_bys_of(params: JsonView) -> Option<Seq<LogsGroupByView>> {
    match params.array_field("group_by"@) {
        Some(items) => Some(Seq::new(items.len(), |i: int| group_by_of(items[i]))),
        None => None,
    }
}

/// An aggregate as the API reads it.
pub open spec fn compute_view_json(compute: LogsComputeView) -> JsonView {
    JsonView::Object(
        seq![("aggregation"@, JsonView::Str(compute.aggregation))] + opt_field(
            "type"@,
            opt_str(compute.compute_type),
        ) + opt_field("interval"@, opt_str(compute.interval)) + opt_field(
            "metric"@,
            opt_str(compute.metric),
        ),
    )
}

/// The order of the groups of a facet as the API reads it.
pub open spec fn sort_view_json(sort: LogsGroupBySortView) -> JsonView {
    JsonView::Object(
        opt_field("order"@, opt_str(sort.order)) + opt_field("type"@, opt_str(sort.sort_type))
            + opt_field("aggregation"@, opt_str(sort.aggregation)) + opt_field(
            "metric"@,
            opt_str(sort.metric),
        ),
    )
}

/// A facet as the API reads it.
pub open spec fn group_by_view_json(group: LogsGroupByView) -> JsonView {
    JsonView::Object(
        seq![("facet"@, JsonView::Str(group.facet))] + opt_field(
            "limit"@,
            match group.limit {
                Some(n) => Some(JsonView::Number(JsonNumber::of_int(n as int))),
                None => None,
            },
        ) + opt_field(
            "sort"@,
            match group.sort {
                Some(sort) => Some(sort_view_json(sort)),
                None => None,
            },
        ) + opt_field("type"@, opt_str(group.group_type)),
    )
}

/// The body of a log aggregation for the given aggregates and facets.
pub open spec fn aggregation_body(
    query: Seq<char>,
    from: Seq<char>,
    to: Seq<char>,
    compute: Seq<LogsComputeView>,
    group_by: Option<Seq<LogsGroupByView>>,
    timezone: Option<Seq<char>>,
) -> JsonView {
    JsonView::Object(
        seq![("filter"@, search_filter(query, from, to))] + opt_field(
            "compute"@,
            Some(JsonView::Array(Seq::new(compute.len(), |i: int| compute_view_json(compute[i])))),
        ) + opt_field(
            "group_by"@,
            match group_by {
                Some(list) => Some(
                    JsonView::Array(Seq::new(list.len(), |i: int| group_by_view_json(list[i]))),
                ),
                None => None,
            },
        ) + opt_field(
            "options"@,
            match timezone {
                Some(zone) => Some(JsonView::Object(seq![("timezone"@, JsonView::Str(zone))])),
                None => None,
            },
        ),
    )
}

/// The views of an optional list of facets.
pub open spec fn view_opt_group_bys(groups: Option<Seq<LogsGroupBy>>) -> Option<Seq<LogsGroupByView>> {
    match groups {
        Some(list) => Some(view_group_bys(list)),
        None => None,
    }
}

/// The body of a request depends on the aggregates and facets through
/// their views only.
pub proof fn lemma_body_by_views(
    query: Seq<char>,
    from: Seq<char>,
    to: Seq<char>,
    compute: Seq<LogsCompute>,
    group_by: Option<Seq<LogsGroupBy>>,
    timezone: Option<Seq<char>>,
)
    ensures
        aggregate_logs_body(query, from, to, Some(compute), group_by, timezone) == aggregation_body(
            query,
            from,
            to,
            view_computes(compute),
            view_opt_group_bys(group_by),
            timezone,
        ),
{
    assert(Seq::new(compute.len(), |i: int| crate::datadog::client::compute_json(compute[i]))
        =~= Seq::new(
        view_computes(compute).len(),
        |i: int| compute_view_json(view_computes(compute)[i]),
    ));
    match group_by {
        Some(list) => {
            assert(Seq::new(list.len(), |i: int| crate::datadog::client::group_by_json(list[i]))
                =~= Seq::new(
                view_group_bys(list).len(),
                |i: int| group_by_view_json(view_group_bys(list)[i]),
            ));
        },
        None => {},
    }
}

/// The items of an optional list.
pub open spec fn opt_seq<T>(list: Option<Vec<T>>) -> Option<Seq<T>> {
    match list {
        Some(items) => Some(items@),
        None => None,
    }
}

/// The data of an answer to a log aggregation.
pub open spec fn data_of(response: JsonView) -> JsonView {
    response.field_or_null("data"@)
}

/// How many buckets the data of an answer holds.
pub open spec fn buckets_count(data: JsonView) -> usize {
    match data.array_field("buckets"@) {
        Some(buckets) => buckets.len() as usize,
        None => 0usize,
    }
}

/// The response to a log aggregation.
pub open spec fn aggregation_response(
    response: JsonView,
    query: Seq<char>,
    from: Seq<char>,
    to: Seq<char>,
    timezone: Option<String>,
) -> JsonView {
    list_envelope(
        data_of(response),
        None,
        Some(
            JsonView::Object(
                seq![
                    ("query"@, JsonView::Str(query)),
                    ("from"@, JsonView::Str(from)),
                    ("to"@, JsonView::Str(to)),
                    ("buckets_count"@, count_json(buckets_count(data_of(response)))),
                    ("timezone"@, text_or_null(timezone)),
                ],
            ),
        ),
    )
}

/// Reads the aggregate that an item of the `compute` argument asks for.
fn read_compute(item: &Json) -> (compute: LogsCompute)
    ensures
        view_compute(compute) == compute_of(item@),
{
    LogsCompute {
        aggregation: item.get_str_or("aggregation", "count").to_string(),
        compute_type: Some(item.get_str_or("type", "total").to_string()),
        interval: copy_text_field(item, "interval"),
        metric: copy_text_field(item, "metric"),
    }
}

/// Reads the aggregates that a call asks for.
pub fn read_computes(params: &Json) -> (computes: Vec<LogsCompute>)
    ensures
        view_computes(computes@) == computes_of(params@),
{
    let mut computes: Vec<LogsCompute> = Vec::new();
    match params.get_array("compute") {
        Some(items) => {
            let mut i: usize = 0;
            while i < items.len()
                invariant
                    i <= items.len(),
                    computes.len() == i,
                    forall|j: int|
                        0 <= j < i ==> view_compute(#[trigger] computes@[j]) == compute_of(
                            items@[j]@,
                        ),
                decreases items.len() - i,
            {
                computes.push(read_compute(&items[i]));
                i = i + 1;
            }
            if items.len() > 0 {
                proof {
                    assert(view_computes(computes@) =~= Seq::new(
                        view_items(items@).len(),
                        |i: int| compute_of(view_items(items@)[i]),
                    ));
                }
                return computes;
            }
        },
        None => {},
    }
    computes.push(
        LogsCompute {
            aggregation: "count".to_string(),
            compute_type: Some("total".to_string()),
            interval: None,
            metric: None,
        },
    );
    proof {
        assert(view_computes(computes@) =~= seq![default_compute()]);
    }
    computes
}

/// Reads the facet that an item of the `group_by` argument asks for.
fn read_group_by(item: &Json) -> (group: LogsGroupBy)
    ensures
        view_group_by(group) == group_by_of(item@),
{
    let sort = match item.get("sort") {
        Some(value) => match value {
            Json::Object(fields) => {
                proof {
                    Json::lemma_object_view(*fields);
                }
                Some(
                    LogsGroupBySort {
                        order: copy_text_field(value, "order"),
                        sort_type: Some(value.get_str_or("type", "measure").to_string()),
                        aggregation: copy_text_field(value, "aggregation"),
                        metric: copy_text_field(value, "metric"),
                    },
                )
            },
            _ => None,
        },
        None => None,
    };
    let limit = match item.get_i64("limit") {
        Some(n) => Some(
            #[verifier::truncate]
            (n as i32),
        ),
        None => None,
    };
    LogsGroupBy {
        facet: item.get_str_or("facet", "status").to_string(),
        limit,
        sort,
        group_type: Some(item.get_str_or("type", "facet").to_string()),
    }
}

/// Reads the facets that a call asks for.
pub fn read_group_bys(params: &Json) -> (groups: Option<Vec<LogsGroupBy>>)
    ensures
        match groups {
            Some(list) => group_bys_of(params@) == Some(view_group_bys(list@)),
            None => group_bys_of(params@) is None,
        },
{
    match params.get_array("group_by") {
        Some(items) => {
            let mut groups: Vec<LogsGroupBy> = Vec::new();
            let mut i: usize = 0;
            while i < items.len()
                invariant
                    i <= items.len(),
                    groups.len() == i,
                    forall|j: int|
                        0 <= j < i ==> view_group_by(#[trigger] groups@[j]) == group_by_of(
                            items@[j]@,
                        ),
                decreases items.len() - i,
            {
                groups.push(read_group_by(&items[i]));
                i = i + 1;
            }
            proof {
                assert(view_group_bys(groups@) =~= Seq::new(
                    view_items(items@).len(),
                    |i: int| group_by_of(view_items(items@)[i]),
                ));
            }
            Some(groups)
        },
        None => None,
    }
}

/// How many buckets the data of an answer holds.
pub fn count_buckets(data: &Json) -> (count: usize)
    ensures
        count == buckets_count(data@),
{
    match data.get_array("buckets") {
        Some(buckets) => buckets.len(),
        None => 0,
    }
}

impl LogsAggregateHandler {
    /// Reads the arguments of a log aggregation, at the two given moments,
    /// into the request to send and what shapes its answer.
    pub fn aggregate(client: &DatadogClient, params: &Json, from_now: (i64, u32), to_now: (i64, u32)) -> (outcome:
        Result<LogsAggregation, DatadogError>)
        ensures
            match outcome {
                Ok(plan) => {
                    &&& millis_range(params@, from_now, to_now) == Ok::<
                        (Seq<char>, Seq<char>),
                        DatadogErrorView,
                    >((plan.from@, plan.to@))
                    &&& plan.query@ == params@.text_or("query"@, "*"@)
                    &&& view_text(plan.timezone) == params@.text_field("timezone"@)
                    &&& plan.request@ == client@.request_for(
                        HttpMethod::Post,
                        "/api/v2/logs/analytics/aggregate"@,
                        None,
                        Some(
                            aggregation_body(
                                plan.query@,
                                plan.from@,
                                plan.to@,
                                computes_of(params@),
                                group_bys_of(params@),
                                params@.text_field("timezone"@),
                            ),
                        ),
                    )
                },
                Err(failure) => millis_range(params@, from_now, to_now) == Err::<
                    (Seq<char>, Seq<char>),
                    DatadogErrorView,
                >(failure@),
            },
    {
        let (from, to) = match read_millis_range(params, from_now, to_now) {
            Ok(range) => range,
            Err(failure) => {
                return Err(failure);
            },
        };
        let query = params.get_str_or("query", "*").to_string();
        let compute = read_computes(params);
        let group_by = read_group_bys(params);
        let timezone = copy_text_field(params, "timezone");
        let request_zone = copy_text_field(params, "timezone");
        let ghost sent_compute = compute@;
        let ghost sent_group_by = opt_seq(group_by);
        let request = client.aggregate_logs(
            query.as_str(),
            from.as_str(),
            to.as_str(),
            Some(compute),
            group_by,
            request_zone,
        );
        proof {
            lemma_body_by_views(
                query@,
                from@,
                to@,
                sent_compute,
                sent_group_by,
                view_text(timezone),
            );
        }
        Ok(LogsAggregation { request, query, from, to, timezone })
    }

    /// Shapes the answer to a log aggregation.
    pub fn aggregate_response(plan: &LogsAggregation, response: &Json) -> (json: Json)
        ensures
            json@ == aggregation_response(response@, plan.query@, plan.from@, plan.to@, plan.timezone),
    {
        let handler = LogsAggregateHandler;
        let data = response.get_or_null("data");
        let buckets = count_buckets(&data);
        let mut meta: Vec<(String, Json)> = Vec::new();
        Json::push_field(&mut meta, "query", Json::Str(plan.query.clone()));
        Json::push_field(&mut meta, "from", Json::Str(plan.from.clone()));
        Json::push_field(&mut meta, "to", Json::Str(plan.to.clone()));
        Json::push_field(&mut meta, "buckets_count", Json::unsigned(buckets as u64));
        Json::push_field(&mut meta, "timezone", text_or_null_json(&plan.timezone));
        assert(view_fields(meta@) =~= seq![
            ("query"@, JsonView::Str(plan.query@)),
            ("from"@, JsonView::Str(plan.from@)),
            ("to"@, JsonView::Str(plan.to@)),
            ("buckets_count"@, count_json(buckets_count(data_of(response@)))),
            ("timezone"@, text_or_null(plan.timezone)),
        ]);
        handler.format_list(data, None, Some(Json::object(meta)))
    }
}

} // verus!
