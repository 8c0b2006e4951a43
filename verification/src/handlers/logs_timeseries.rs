//! The tool for log time series.

use crate::datadog::client::ApiRequest;
use crate::datadog::client::DatadogClient;
use crate::datadog::client::HttpMethod;
use crate::datadog::models::LogsCompute;
use crate::datadog::models::LogsGroupBy;
use crate::error::DatadogError;
use crate::error::DatadogErrorView;
use crate::handlers::common::count_json;
use crate::handlers::common::list_envelope;
use crate::handlers::common::ResponseFormatter;
use crate::handlers::common::TimeHandler;
use crate::handlers::events::copy_text_field;
use crate::handlers::logs_aggregate::aggregation_body;
use crate::handlers::logs_aggregate::buckets_count;
use crate::handlers::logs_aggregate::count_buckets;
use crate::handlers::logs_aggregate::data_of;
use crate::handlers::logs_aggregate::lemma_body_by_views;
use crate::handlers::logs_aggregate::limit_of;
use crate::handlers::logs_aggregate::millis_range;
use crate::handlers::logs_aggregate::opt_seq;
use crate::handlers::logs_aggregate::read_millis_range;
use crate::handlers::logs_aggregate::view_computes;
use crate::handlers::logs_aggregate::view_group_by;
use crate::handlers::logs_aggregate::view_group_bys;
use crate::handlers::logs_aggregate::LogsComputeView;
use crate::handlers::logs_aggregate::LogsGroupByView;
use crate::json::text_or_null;
use crate::json::text_or_null_json;
use crate::json::view_fields;
use crate::json::view_items;
use crate::json::Json;
use crate::json::JsonView;
use crate::text::view_text;
use vstd::prelude::*;
use vstd::string::*;

verus! {

/// The tool for log time series.
#[derive(Debug, Clone, Copy)]
pub struct LogsTimeseriesHandler;

impl TimeHandler for LogsTimeseriesHandler {

}

impl ResponseFormatter for LogsTimeseriesHandler {

}

/// A log time series, ready to be sent, with what shapes its answer.
#[derive(Debug)]
pub struct LogsTimeseries {
    pub request: ApiRequest,
    pub query: String,
    pub from: String,
    pub to: String,
    pub interval: String,
    pub aggregation: String,
    pub metric: Option<String>,
    pub timezone: Option<String>,
}

/// The aggregate of a time series: the aggregation that the call names, a
/// count by default, every interval that it names, an hour by default.
pub open spec fn timeseries_compute(params: JsonView) -> LogsComputeView {
    LogsComputeView {
        aggregation: params.text_or("aggregation"@, "count"@),
        compute_type: Some("timeseries"@),
        interval: Some(params.text_or("interval"@, "1h"@)),
        metric: params.text_field("metric"@),
    }
}

/// The facet that an item of the `group_by` argument asks for: the
/// status, as a facet, as far as the item says nothing else. A time series
/// orders no groups.
pub open spec fn timeseries_group_by_of(item: JsonView) -> LogsGroupByView {
    LogsGroupByView {
        facet: item.text_or("facet"@, "status"@),
        limit: limit_of(item),
        sort: None,
        group_type: Some(item.text_or("type"@, "facet"@)),
    }
}

/// The facets that a call asks for, where its `group_by` argument is an
/// array.
pub open spec fn timeseries_group_bys_of(params: JsonView) -> Option<Seq<LogsGroupByView>> {
    match params.array_field("group_by"@) {
        Some(items) => Some(Seq::new(items.len(), |i: int| timeseries_group_by_of(items[i]))),
        None => None,
    }
}

/// The response to a log time series.
pub open spec fn timeseries_response(response: JsonView, plan: LogsTimeseries) -> JsonView {
    list_envelope(
        data_of(response),
        None,
        Some(
            JsonView::Object(
                seq![
                    ("query"@, JsonView::Str(plan.query@)),
                    ("from"@, JsonView::Str(plan.from@)),
                    ("to"@, JsonView::Str(plan.to@)),
                    ("interval"@, JsonView::Str(plan.interval@)),
                    ("aggregation"@, JsonView::Str(plan.aggregation@)),
                    ("metric"@, text_or_null(plan.metric)),
                    ("buckets_count"@, count_json(buckets_count(data_of(response)))),
                    ("timezone"@, text_or_null(plan.timezone)),
                ],
            ),
        ),
    )
}

/// Reads the facet that an item of the `group_by` argument asks for.
fn read_group_by(item: &Json) -> (group: LogsGroupBy)
    ensures
        view_group_by(group) == timeseries_group_by_of(item@),
{
    let limit = match item.get_i64("limit") {
        Some(n) => Some(
            #[verifier::truncate]
            (n as i32),
        ),
        None => None,
    };
    LogsGroupBy {
        facet: item.get_str_or("facet", "status").to_string(),
        limit,
        sort: None,
        group_type: Some(item.get_str_or("type", "facet").to_string()),
    }
}

/// Reads the facets that a call asks for.
fn read_group_bys(params: &Json) -> (groups: Option<Vec<LogsGroupBy>>)
    ensures
        match groups {
            Some(list) => timeseries_group_bys_of(params@) == Some(view_group_bys(list@)),
            None => timeseries_group_bys_of(params@) is None,
        },
{
    match params.get_array("group_by") {
        Some(items) => {
            let mut groups: Vec<LogsGroupBy> = Vec::new();
            let mut i: usize = 0;
            while i < items.len()
                invariant
                    i <= items.len(),
                    groups.len() == i,
                    forall|j: int|
                        0 <= j < i ==> view_group_by(#[trigger] groups@[j])
                            == timeseries_group_by_of(items@[j]@),
                decreases items.len() - i,
            {
                groups.push(read_group_by(&items[i]));
                i = i + 1;
            }
            proof {
                assert(view_group_bys(groups@) =~= Seq::new(
                    view_items(items@).len(),
                    |i: int| timeseries_group_by_of(view_items(items@)[i]),
                ));
            }
            Some(groups)
        },
        None => None,
    }
}

impl LogsTimeseriesHandler {
    /// Reads the arguments of a log time series, at the two given moments,
    /// into the request to send and what shapes its answer.
    pub fn timeseries(client: &DatadogClient, params: &Json, from_now: (i64, u32), to_now: (i64, u32)) -> (outcome:
        Result<LogsTimeseries, DatadogError>)
        ensures
            match outcome {
                Ok(plan) => {
                    &&& millis_range(params@, from_now, to_now) == Ok::<
                        (Seq<char>, Seq<char>),
                        DatadogErrorView,
                    >((plan.from@, plan.to@))
                    &&& plan.query@ == params@.text_or("query"@, "*"@)
                    &&& plan.interval@ == params@.text_or("interval"@, "1h"@)
                    &&& plan.aggregation@ == params@.text_or("aggregation"@, "count"@)
                    &&& view_text(plan.metric) == params@.text_field("metric"@)
                    &&& view_text(plan.timezone) == params@.text_field("timezone"@)
                    &&& plan.request@ == client@.request_for(
                        HttpMethod::Post,
                        "/api/v2/logs/analytics/aggregate"@,
                        None,
                        Some(
                            aggregation_body(
                                plan.query@,
                                plan.from@,
                                plan.to@,
                                seq![timeseries_compute(params@)],
                                timeseries_group_bys_of(params@),
                                params@.text_field("timezone"@),
                            ),
                        ),
                    )
                },
                Err(failure) => millis_range(params@, from_now, to_now) == Err::<
                    (Seq<char>, Seq<char>),
                    DatadogErrorView,
                >(failure@),
            },
    {
        let (from, to) = match read_millis_range(params, from_now, to_now) {
            Ok(range) => range,
            Err(failure) => {
                return Err(failure);
            },
        };
        let query = params.get_str_or("query", "*").to_string();
        let interval = params.get_str_or("interval", "1h").to_string();
        let metric = copy_text_field(params, "metric");
        let aggregation = params.get_str_or("aggregation", "count").to_string();
        let mut compute: Vec<LogsCompute> = Vec::new();
        compute.push(
            LogsCompute {
                aggregation: aggregation.clone(),
                compute_type: Some("timeseries".to_string()),
                interval: Some(interval.clone()),
                metric: copy_text_field(params, "metric"),
            },
        );
        let group_by = read_group_bys(params);
        let timezone = copy_text_field(params, "timezone");
        let ghost sent_compute = compute@;
        let ghost sent_group_by = opt_seq(group_by);
        let request = client.aggregate_logs(
            query.as_str(),
            from.as_str(),
            to.as_str(),
            Some(compute),
            group_by,
            copy_text_field(params, "timezone"),
        );
        proof {
            lemma_body_by_views(
                query@,
                from@,
                to@,
                sent_compute,
                sent_group_by,
                view_text(timezone),
            );
            assert(view_computes(sent_compute) =~= seq![timeseries_compute(params@)]);
        }
        Ok(LogsTimeseries { request, query, from, to, interval, aggregation, metric, timezone })
    }

    /// Shapes the answer to a log time series.
    pub fn timeseries_response(plan: &LogsTimeseries, response: &Json) -> (json: Json)
        ensures
            json@ == timeseries_response(response@, *plan),
    {
        let handler = LogsTimeseriesHandler;
        let data = response.get_or_null("data");
        let buckets = count_buckets(&data);
        let mut meta: Vec<(String, Json)> = Vec::new();
        Json::push_field(&mut meta, "query", Json::Str(plan.query.clone()));
        Json::push_field(&mut meta, "from", Json::Str(plan.from.clone()));
        Json::push_field(&mut meta, "to", Json::Str(plan.to.clone()));
        Json::push_field(&mut meta, "interval", Json::Str(plan.interval.clone()));
        Json::push_field(&mut meta, "aggregation", Json::Str(plan.aggregation.clone()));
        Json::push_field(&mut meta, "metric", text_or_null_json(&plan.metric));
        Json::push_field(&mut meta, "buckets_count", Json::unsigned(buckets as u64));
        Json::push_field(&mut meta, "timezone", text_or_null_json(&plan.timezone));
        assert(view_fields(meta@) =~= seq![
            ("query"@, JsonView::Str(plan.query@)),
            ("from"@, JsonView::Str(plan.from@)),
            ("to"@, JsonView::Str(plan.to@)),
            ("interval"@, JsonView::Str(plan.interval@)),
            ("aggregation"@, JsonView::Str(plan.aggregation@)),
            ("metric"@, text_or_null(plan.metric)),
            ("buckets_count"@, count_json(buckets_count(data_of(response@)))),
            ("timezone"@, text_or_null(plan.timezone)),
        ]);
        handler.format_list(data, None, Some(Json::object(meta)))
    }
}

} // verus!
