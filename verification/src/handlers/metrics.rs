//! The tool for metrics.

use crate::datadog::client::ApiRequest;
use crate::datadog::client::DatadogClient;
use crate::datadog::client::HttpMethod;
use crate::datadog::models::MetricSeries;
use crate::datadog::models::MetricsResponse;
use crate::datadog::models::Unit;
use crate::error::DatadogError;
use crate::error::DatadogErrorView;
use crate::handlers::common::count_json;
use crate::handlers::common::list_envelope;
use crate::handlers::common::read_time_range;
use crate::handlers::common::time_range;
use crate::handlers::common::ResponseFormatter;
use crate::handlers::common::TimeHandler;
use crate::handlers::common::TimeParams;
use crate::json::append_fields;
use crate::json::map_json;
use crate::json::opt_field;
use crate::json::opt_int;
use crate::json::opt_int_json;
use crate::json::opt_str;
use crate::json::opt_text_json;
use crate::json::push_opt_field;
use crate::json::text_array;
use crate::json::text_array_json;
use crate::json::view_fields;
use crate::json::view_opt;
use crate::json::Json;
use crate::json::JsonNumber;
use crate::json::JsonView;
use crate::text::contains;
use crate::text::decimal;
use crate::text::occurs_in;
use crate::text::push_decimal_i64;
use crate::text::starts_with;
use crate::text::view_text;
use crate::text::views;
use crate::utils::format_timestamp;
use crate::utils::timestamp_text;
use vstd::prelude::*;
use vstd::string::*;

verus! {

/// The tool for metrics.
#[derive(Debug, Clone, Copy)]
pub struct MetricsHandler;

impl TimeHandler for MetricsHandler {

}

impl ResponseFormatter for MetricsHandler {

}

/// A query for metrics, ready to be sent, with what shapes its answer.
/// `max_points` is the number of points that the call asked for, where it
/// asked for one; the query then has a rollup.
#[derive(Debug)]
pub struct MetricsQuery {
    pub request: ApiRequest,
    pub from: i64,
    pub to: i64,
    pub max_points: Option<usize>,
}

/// The spacing of points, in seconds, at which `points` points span
/// `seconds` seconds, rounded up to the next customary interval: a minute,
/// five, ten or thirty minutes, one, two, six or twelve hours, and a day at
/// most. A range that ends before it starts is spaced by the minute.
pub open spec fn rollup_interval(seconds: int, points: int) -> int {
    if seconds < 0 {
        60
    } else {
        let interval = seconds / points;
        if interval < 60 {
            60
        } else if interval < 300 {
            300
        } else if interval < 600 {
            600
        } else if interval < 1800 {
            1800
        } else if interval < 3600 {
            3600
        } else if interval < 7200 {
            7200
        } else if interval < 21600 {
            21600
        } else if interval < 43200 {
            43200
        } else {
            86400
        }
    }
}

/// The aggregation that a query asks for by its prefix: `avg`, `max`,
/// `min` or `sum`, and `avg` where it names none of them.
pub open spec fn rollup_aggregation(query: Seq<char>) -> Seq<char> {
    if "avg:"@.is_prefix_of(query) {
        "avg"@
    } else if "max:"@.is_prefix_of(query) {
        "max"@
    } else if "min:"@.is_prefix_of(query) {
        "min"@
    } else if "sum:"@.is_prefix_of(query) {
        "sum"@
    } else {
        "avg"@
    }
}

/// The query with a rollup to the given interval: a query that already
/// has a rollup is left as it is; any other gets one appended, with the
/// aggregation of the query itself.
pub open spec fn with_rollup(query: Seq<char>, interval: int) -> Seq<char> {
    if occurs_in(query, ".rollup("@) {
        query
    } else {
        query + ".rollup("@ + rollup_aggregation(query) + ", "@ + decimal(interval) + ")"@
    }
}

impl MetricsHandler {
    /// The rollup interval, in seconds, at which the range from `from_ts` to
    /// `to_ts` holds about `max_points` points.
    pub fn calculate_rollup_interval(from_ts: i64, to_ts: i64, max_points: usize) -> (interval: i64)
        requires
            0 < max_points,
        ensures
            interval == rollup_interval(to_ts - from_ts, max_points as int),
    {
        let time_range: i128 = to_ts as i128 - from_ts as i128;
        if time_range < 0 {
            return 60;
        }
        let interval = time_range / (max_points as i128);
        if interval < 60 {
            60
        } else if interval < 300 {
            300
        } else if interval < 600 {
            600
        } else if interval < 1800 {
            1800
        } else if interval < 3600 {
            3600
        } else if interval < 7200 {
            7200
        } else if interval < 21600 {
            21600
        } else if interval < 43200 {
            43200
        } else {
            86400
        }
    }

    /// Adds a rollup to the query unless it has one.
    pub fn add_rollup_to_query(query: &str, interval: i64) -> (rolled: String)
        ensures
            rolled@ == with_rollup(query@, interval as int),
    {
        if contains(query, ".rollup(") {
            return query.to_string();
        }
        let agg = if starts_with(query, "avg:") {
            "avg"
        } else if starts_with(query, "max:") {
            "max"
        } else if starts_with(query, "min:") {
            "min"
        } else if starts_with(query, "sum:") {
            "sum"
        } else {
            "avg"
        };
        let mut rolled = query.to_string();
        rolled.append(".rollup(");
        rolled.append(agg);
        rolled.append(", ");
        push_decimal_i64(&mut rolled, interval);
        rolled.append(")");
        rolled
    }
}

/// The query that is sent: the query of the call, with a rollup where the
/// call asks for a number of points.
pub open spec fn sent_query(query: Seq<char>, params: JsonView, from: i64, to: i64) -> Seq<char> {
    match params.i64_field("max_points"@) {
        Some(points) => with_rollup(query, rollup_interval(to - from, points as usize as int)),
        None => query,
    }
}

/// What a query for metrics is read into: the query and its time range.
/// A missing query is an invalid input, found before the time range is
/// read; so is a number of points that is not positive.
pub open spec fn metrics_plan(params: JsonView, from_now: (i64, u32), to_now: (i64, u32)) -> Result<
    (Seq<char>, i64, i64),
    DatadogErrorView,
> {
    match params.text_field("query"@) {
        None => Err(DatadogErrorView::InvalidInput("Missing 'query' parameter"@)),
        Some(query) => match time_range(params, from_now, to_now) {
            Err(failure) => Err(failure),
            Ok(TimeParams::Timestamp { from, to }) => match params.i64_field("max_points"@) {
                Some(points) => if points <= 0 || points as usize == 0 {
                    Err(DatadogErrorView::InvalidInput("Invalid 'max_points' parameter"@))
                } else {
                    Ok((sent_query(query, params, from, to), from, to))
                },
                None => Ok((query, from, to)),
            },
        },
    }
}

/// The time of a point as it is reported: the first number of its row is
/// its time in whole milliseconds; anything else is not a time.
pub open spec fn point_time(row: Seq<Option<JsonNumber>>) -> Seq<char> {
    if row.len() >= 2 {
        match row[0] {
            Some(number) => match JsonView::Number(number).as_i64() {
                Some(millis) => timestamp_text(whole_seconds(millis)),
                None => "N/A"@,
            },
            None => "N/A"@,
        }
    } else {
        "N/A"@
    }
}

/// Milliseconds as whole seconds, rounded towards zero.
pub open spec fn whole_seconds(millis: i64) -> i64 {
    if millis >= 0 {
        (millis / 1000) as i64
    } else {
        (-((-millis) / 1000)) as i64
    }
}

/// The value of a point as it is reported: the second number of its row.
pub open spec fn point_value(row: Seq<Option<JsonNumber>>) -> JsonView {
    if row.len() >= 2 {
        match row[1] {
            Some(number) => JsonView::Number(number),
            None => JsonView::Null,
        }
    } else {
        JsonView::Null
    }
}

/// A point as it is reported.
pub open spec fn point_json(row: Vec<Option<JsonNumber>>) -> JsonView {
    JsonView::Object(
        seq![("timestamp"@, JsonView::Str(point_time(row@))), ("value"@, point_value(row@))],
    )
}

/// The points of a series as they are reported.
pub open spec fn points_json(points: Option<Vec<Vec<Option<JsonNumber>>>>) -> JsonView {
    match points {
        Some(rows) => JsonView::Object(
            seq![
                ("count"@, count_json(rows@.len() as usize)),
                ("data"@, JsonView::Array(Seq::new(rows@.len(), |i: int| point_json(rows@[i])))),
            ],
        ),
        None => JsonView::Object(
            seq![("count"@, count_json(0)), ("data"@, JsonView::Array(Seq::empty()))],
        ),
    }
}

/// The first unit among the first `upto` entries of a list.
pub open spec fn first_unit(units: Seq<Option<Unit>>, upto: int) -> Option<Unit>
    decreases upto,
{
    if upto <= 0 || upto > units.len() {
        None
    } else {
        match first_unit(units, upto - 1) {
            Some(unit) => Some(unit),
            None => units[upto - 1],
        }
    }
}

/// A text that is only reported where it says something.
pub open spec fn nonempty_text(text: Option<String>) -> Option<JsonView> {
    match text {
        Some(t) => if t@.len() > 0 {
            Some(JsonView::Str(t@))
        } else {
            None
        },
        None => None,
    }
}

/// A unit as it is reported.
pub open spec fn unit_json(unit: Unit) -> JsonView {
    JsonView::Object(
        seq![("name"@, JsonView::Str(unit.name@)), ("family"@, JsonView::Str(unit.family@))]
            + opt_field("short_name"@, nonempty_text(unit.short_name)),
    )
}

/// The unit of a series as it is reported: the first of its units.
pub open spec fn series_unit(units: Option<Vec<Option<Unit>>>) -> Option<JsonView> {
    match units {
        Some(list) => match first_unit(list@, list@.len() as int) {
            Some(unit) => Some(unit_json(unit)),
            None => None,
        },
        None => None,
    }
}

/// An integer as an optional `int`.
pub open spec fn some_int(value: Option<i64>) -> Option<int> {
    match value {
        Some(n) => Some(n as int),
        None => None,
    }
}

/// A series as it is reported.
pub open spec fn series_json(series: MetricSeries) -> JsonView {
    JsonView::Object(
        seq![
            ("metric"@, JsonView::Str(series.metric@)),
            ("scope"@, JsonView::Str(series.scope@)),
            ("points"@, points_json(series.pointlist)),
        ] + opt_field("aggr"@, opt_str(view_text(series.aggr))) + opt_field(
            "interval"@,
            opt_int(some_int(series.interval)),
        ) + opt_field("unit"@, series_unit(series.unit)),
    )
}

/// The groups of an answer as they are reported: only where there are
/// any.
pub open spec fn groups_json(groups: Option<Vec<String>>) -> Option<JsonView> {
    match groups {
        Some(list) => if list@.len() > 0 {
            Some(text_array(views(list@)))
        } else {
            None
        },
        None => None,
    }
}

/// What is reported of a rollup: that there was one, and for how many
/// points.
pub open spec fn rollup_fields(max_points: Option<usize>) -> Seq<(Seq<char>, JsonView)> {
    match max_points {
        Some(points) => seq![
            ("rollup_applied"@, JsonView::Bool(true)),
            ("requested_max_points"@, count_json(points)),
        ],
        None => Seq::empty(),
    }
}

/// The response to a query for metrics.
pub open spec fn metrics_response(response: MetricsResponse, from: i64, to: i64, max_points: Option<usize>) -> JsonView {
    list_envelope(
        JsonView::Array(Seq::new(response.series@.len(), |i: int| series_json(response.series@[i]))),
        None,
        Some(
            JsonView::Object(
                seq![
                    ("query"@, JsonView::Str(response.query@)),
                    ("status"@, JsonView::Str(response.status@)),
                    ("from"@, JsonView::Str(timestamp_text(from))),
                    ("to"@, JsonView::Str(timestamp_text(to))),
                ] + opt_field("error"@, nonempty_text(response.error)) + opt_field(
                    "message"@,
                    nonempty_text(response.message),
                ) + opt_field("group_by"@, groups_json(response.group_by)) + rollup_fields(max_points),
            ),
        ),
    )
}

/// Builds a text that is only reported where it says something.
fn build_nonempty_text(text: &Option<String>) -> (json: Option<Json>)
    ensures
        view_opt(json) == nonempty_text(*text),
{
    match text {
        Some(t) => if t.as_str().is_empty() {
            None
        } else {
            Some(Json::Str(t.clone()))
        },
        None => None,
    }
}

/// Builds a point as it is reported.
fn build_point(row: &Vec<Option<JsonNumber>>) -> (json: Json)
    ensures
        json@ == point_json(*row),
{
    let mut time = "N/A".to_string();
    let mut value = Json::Null;
    if row.len() >= 2 {
        match row[0] {
            Some(number) => match Json::Number(number).as_i64() {
                Some(millis) => {
                    let seconds = if millis >= 0 {
                        millis / 1000
                    } else if millis == i64::MIN {
                        -9223372036854775i64
                    } else {
                        -((-millis) / 1000)
                    };
                    time = format_timestamp(seconds);
                },
                None => {},
            },
            None => {},
        }
        value = match row[1] {
            Some(number) => Json::Number(number),
            None => Json::Null,
        };
    }
    let mut fields: Vec<(String, Json)> = Vec::new();
    Json::push_field(&mut fields, "timestamp", Json::Str(time));
    Json::push_field(&mut fields, "value", value);
    assert(view_fields(fields@) =~= point_json(*row)->Object_0);
    Json::object(fields)
}

/// Builds the points of a series as they are reported.
fn build_points(points: &Option<Vec<Vec<Option<JsonNumber>>>>) -> (json: Json)
    ensures
        json@ == points_json(*points),
{
    let (count, data) = match points {
        Some(rows) => {
            let data = map_json(rows.as_slice(), build_point);
            assert(data@->Array_0 =~= Seq::new(rows@.len(), |i: int| point_json(rows@[i])));
            (rows.len(), data)
        },
        None => (0, Json::empty_array()),
    };
    let mut fields: Vec<(String, Json)> = Vec::new();
    Json::push_field(&mut fields, "count", Json::unsigned(count as u64));
    Json::push_field(&mut fields, "data", data);
    assert(view_fields(fields@) =~= points_json(*points)->Object_0);
    Json::object(fields)
}

/// Builds the unit of a series as it is reported.
fn build_unit(units: &Option<Vec<Option<Unit>>>) -> (json: Option<Json>)
    ensures
        view_opt(json) == series_unit(*units),
{
    let list = match units {
        Some(list) => list,
        None => {
            return None;
        },
    };
    let mut i: usize = 0;
    while i < list.len()
        invariant
            i <= list.len(),
            *units == Some(*list),
            first_unit(list@, i as int) is None,
        decreases list.len() - i,
    {
        match &list[i] {
            Some(unit) => {
                let mut fields: Vec<(String, Json)> = Vec::new();
                Json::push_field(&mut fields, "name", Json::Str(unit.name.clone()));
                Json::push_field(&mut fields, "family", Json::Str(unit.family.clone()));
                assert(view_fields(fields@) =~= seq![
                    ("name"@, JsonView::Str(unit.name@)),
                    ("family"@, JsonView::Str(unit.family@)),
                ]);
                push_opt_field(&mut fields, "short_name", build_nonempty_text(&unit.short_name));
                proof {
                    lemma_first_unit_found(list@, i as int);
                }
                return Some(Json::object(fields));
            },
            None => {},
        }
        i = i + 1;
    }
    None
}

/// A unit that has no unit before it is the first unit of every longer
/// stretch of the list.
proof fn lemma_first_unit_found(units: Seq<Option<Unit>>, at: int)
    requires
        0 <= at < units.len(),
        first_unit(units, at) is None,
        units[at] is Some,
    ensures
        first_unit(units, units.len() as int) == units[at],
{
    lemma_first_unit_stays(units, at + 1, units.len() as int);
}

proof fn lemma_first_unit_stays(units: Seq<Option<Unit>>, found: int, upto: int)
    requires
        0 < found <= upto <= units.len(),
        first_unit(units, found) is Some,
    ensures
        first_unit(units, upto) == first_unit(units, found),
    decreases upto - found,
{
    if found < upto {
        lemma_first_unit_stays(units, found, upto - 1);
    }
}

/// Builds a series as it is reported.
fn build_series(series: &MetricSeries) -> (json: Json)
    ensures
        json@ == series_json(*series),
{
    let mut fields: Vec<(String, Json)> = Vec::new();
    Json::push_field(&mut fields, "metric", Json::Str(series.metric.clone()));
    Json::push_field(&mut fields, "scope", Json::Str(series.scope.clone()));
    Json::push_field(&mut fields, "points", build_points(&series.pointlist));
    assert(view_fields(fields@) =~= seq![
        ("metric"@, JsonView::Str(series.metric@)),
        ("scope"@, JsonView::Str(series.scope@)),
        ("points"@, points_json(series.pointlist)),
    ]);
    push_opt_field(&mut fields, "aggr", opt_text_json(&series.aggr));
    push_opt_field(&mut fields, "interval", opt_int_json(series.interval));
    push_opt_field(&mut fields, "unit", build_unit(&series.unit));
    Json::object(fields)
}

impl MetricsHandler {
    /// Reads the arguments of a query for metrics, at the two given
    /// moments, into the request to send and what shapes its answer. The
    /// query is required.
    pub fn query(client: &DatadogClient, params: &Json, from_now: (i64, u32), to_now: (i64, u32)) -> (outcome:
        Result<MetricsQuery, DatadogError>)
        ensures
            match outcome {
                Ok(plan) => {
                    &&& metrics_plan(params@, from_now, to_now) is Ok
                    &&& metrics_plan(params@, from_now, to_now)->Ok_0.1 == plan.from
                    &&& metrics_plan(params@, from_now, to_now)->Ok_0.2 == plan.to
                    &&& plan.max_points == match params@.i64_field("max_points"@) {
                        Some(points) => Some(points as usize),
                        None => None,
                    }
                    &&& plan.request@ == client@.request_for(
                        HttpMethod::Get,
                        "/api/v1/query"@,
                        Some(
                            seq![
                                ("query"@, metrics_plan(params@, from_now, to_now)->Ok_0.0),
                                ("from"@, crate::text::decimal(plan.from as int)),
                                ("to"@, crate::text::decimal(plan.to as int)),
                            ],
                        ),
                        None,
                    )
                },
                Err(failure) => metrics_plan(params@, from_now, to_now) == Err::<
                    (Seq<char>, i64, i64),
                    DatadogErrorView,
                >(failure@),
            },
    {
        let query = match params.get_str("query") {
            Some(query) => query,
            None => {
                return Err(DatadogError::InvalidInput("Missing 'query' parameter".to_string()));
            },
        };
        let (from, to) = match read_time_range(params, from_now, to_now) {
            Ok(TimeParams::Timestamp { from, to }) => (from, to),
            Err(failure) => {
                return Err(failure);
            },
        };
        match params.get_i64("max_points") {
            Some(points) => {
                let max = #[verifier::truncate]
                (points as usize);
                if points <= 0 || max == 0 {
                    return Err(
                        DatadogError::InvalidInput("Invalid 'max_points' parameter".to_string()),
                    );
                }
                let interval = Self::calculate_rollup_interval(from, to, max);
                let rolled = Self::add_rollup_to_query(query, interval);
                Ok(
                    MetricsQuery {
                        request: client.query_metrics(rolled.as_str(), from, to),
                        from,
                        to,
                        max_points: Some(max),
                    },
                )
            },
            None => Ok(
                MetricsQuery {
                    request: client.query_metrics(query, from, to),
                    from,
                    to,
                    max_points: None,
                },
            ),
        }
    }

    /// Shapes the answer to a query for metrics.
    pub fn query_response(plan: &MetricsQuery, response: &MetricsResponse) -> (json: Json)
        ensures
            json@ == metrics_response(*response, plan.from, plan.to, plan.max_points),
    {
        let handler = MetricsHandler;
        let series = map_json(response.series.as_slice(), build_series);
        assert(series@->Array_0 =~= Seq::new(
            response.series@.len(),
            |i: int| series_json(response.series@[i]),
        ));
        let mut meta: Vec<(String, Json)> = Vec::new();
        Json::push_field(&mut meta, "query", Json::Str(response.query.clone()));
        Json::push_field(&mut meta, "status", Json::Str(response.status.clone()));
        Json::push_field(&mut meta, "from", Json::Str(format_timestamp(plan.from)));
        Json::push_field(&mut meta, "to", Json::Str(format_timestamp(plan.to)));
        assert(view_fields(meta@) =~= seq![
            ("query"@, JsonView::Str(response.query@)),
            ("status"@, JsonView::Str(response.status@)),
            ("from"@, JsonView::Str(timestamp_text(plan.from))),
            ("to"@, JsonView::Str(timestamp_text(plan.to))),
        ]);
        push_opt_field(&mut meta, "error", build_nonempty_text(&response.error));
        push_opt_field(&mut meta, "message", build_nonempty_text(&response.message));
        let groups = match &response.group_by {
            Some(list) => if list.len() > 0 {
                Some(text_array_json(list))
            } else {
                None
            },
            None => None,
        };
        push_opt_field(&mut meta, "group_by", groups);
        let mut rollup: Vec<(String, Json)> = Vec::new();
        match plan.max_points {
            Some(points) => {
                Json::push_field(&mut rollup, "rollup_applied", Json::Bool(true));
                Json::push_field(&mut rollup, "requested_max_points", Json::unsigned(points as u64));
            },
            None => {},
        }
        assert(view_fields(rollup@) =~= rollup_fields(plan.max_points));
        append_fields(&mut meta, rollup);
        handler.format_list(series, None, Some(Json::object(meta)))
    }
}

} // verus!
