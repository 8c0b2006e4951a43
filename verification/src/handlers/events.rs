//! The tool for events.

use crate::datadog::client::opt_pair;
use crate::cache::DataCache;
use crate::datadog::client::ApiRequest;
use crate::datadog::client::DatadogClient;
use crate::datadog::client::HttpMethod;
use crate::datadog::models::Event;
use crate::error::DatadogError;
use crate::error::DatadogErrorView;
use crate::handlers::common::list_envelope;
use crate::handlers::common::page_of;
use crate::handlers::common::pagination_of;
use crate::handlers::common::pagination_summary;
use crate::handlers::common::read_time_range;
use crate::handlers::common::time_range;
use crate::handlers::common::Paginator;
use crate::handlers::common::ResponseFormatter;
use crate::handlers::common::TimeHandler;
use crate::handlers::common::TimeParams;
use crate::json::int_or_null;
use crate::json::int_or_null_json;
use crate::json::map_json;
use crate::json::opt_str;
use crate::json::or_null;
use crate::json::text_or_null;
use crate::json::text_or_null_json;
use crate::json::view_fields;
use crate::json::Json;
use crate::json::JsonNumber;
use crate::json::JsonView;
use crate::text::decimal;
use crate::utils::format_timestamp;
use crate::utils::timestamp_text;
use vstd::prelude::*;
use vstd::string::*;

verus! {

/// The tool for events.
#[derive(Debug, Clone, Copy)]
pub struct EventsHandler;

impl TimeHandler for EventsHandler {

}

impl Paginator for EventsHandler {

}

impl ResponseFormatter for EventsHandler {

}

/// A query for events, ready to be sent, with what shapes its answer. The
/// events are cached under the endpoint `events` and the given
/// parameters; the first page always fetches them afresh.
#[derive(Debug)]
pub struct EventsQuery {
    pub request: ApiRequest,
    pub cache_params: Json,
    pub refresh: bool,
    pub page: usize,
    pub page_size: usize,
    pub start: i64,
    pub end: i64,
}

/// An optional text of a tool call as a JSON string, or `null`.
pub open spec fn field_or_null(params: JsonView, key: Seq<char>) -> JsonView {
    or_null(opt_str(params.text_field(key)))
}

/// The parameters that tell one cached query for events from another.
pub open spec fn events_cache_params(params: JsonView, start: i64, end: i64) -> JsonView {
    JsonView::Object(
        seq![
            ("start"@, JsonView::Number(JsonNumber::of_int(start as int))),
            ("end"@, JsonView::Number(JsonNumber::of_int(end as int))),
            ("priority"@, field_or_null(params, "priority"@)),
            ("sources"@, field_or_null(params, "sources"@)),
            ("tags"@, field_or_null(params, "tags"@)),
        ],
    )
}

/// The request of a query for events between two timestamps.
pub open spec fn events_request(
    client: crate::datadog::client::DatadogClientView,
    params: JsonView,
    start: i64,
    end: i64,
) -> crate::datadog::client::ApiRequestView {
    client.request_for(
        HttpMethod::Get,
        "/api/v1/events"@,
        Some(
            seq![("start"@, decimal(start as int)), ("end"@, decimal(end as int))] + opt_pair(
                "priority"@,
                params.text_field("priority"@),
            ) + opt_pair("sources"@, params.text_field("sources"@)) + opt_pair(
                "tags"@,
                params.text_field("tags"@),
            ),
        ),
        None,
    )
}

/// An integer as an optional `int`.
pub open spec fn some_int(value: Option<i64>) -> Option<int> {
    match value {
        Some(n) => Some(n as int),
        None => None,
    }
}

/// The date of an event as it is reported.
pub open spec fn date_json(date: Option<i64>) -> JsonView {
    match date {
        Some(timestamp) => JsonView::Str(timestamp_text(timestamp)),
        None => JsonView::Null,
    }
}

/// An event as it is reported.
pub open spec fn event_json(event: Event) -> JsonView {
    JsonView::Object(
        seq![
            ("id"@, int_or_null(some_int(event.id))),
            ("title"@, text_or_null(event.title)),
            ("text"@, text_or_null(event.text)),
            ("date"@, date_json(event.date_happened)),
            ("priority"@, text_or_null(event.priority)),
            ("host"@, text_or_null(event.host)),
            ("source"@, text_or_null(event.source)),
            ("alert_type"@, text_or_null(event.alert_type)),
        ],
    )
}

/// A list of events as it is reported.
pub open spec fn events_json(events: Seq<Event>) -> JsonView {
    JsonView::Array(Seq::new(events.len(), |i: int| event_json(events[i])))
}

/// The response to a query for events: the events of the page that was
/// asked for, where that page stands among all of them, and the time range
/// in readable form.
pub open spec fn events_response(events: Seq<Event>, page: usize, page_size: usize, start: i64, end: i64) -> JsonView {
    list_envelope(
        events_json(page_of(events, page as int, page_size as int)),
        Some(pagination_summary(page, page_size, events.len() as usize)),
        Some(
            JsonView::Object(
                seq![
                    ("from"@, JsonView::Str(timestamp_text(start))),
                    ("to"@, JsonView::Str(timestamp_text(end))),
                ],
            ),
        ),
    )
}

/// Builds an event as it is reported.
fn build_event(event: &Event) -> (json: Json)
    ensures
        json@ == event_json(*event),
{
    let date = match event.date_happened {
        Some(timestamp) => Json::Str(format_timestamp(timestamp)),
        None => Json::Null,
    };
    let mut fields: Vec<(String, Json)> = Vec::new();
    Json::push_field(&mut fields, "id", int_or_null_json(event.id));
    Json::push_field(&mut fields, "title", text_or_null_json(&event.title));
    Json::push_field(&mut fields, "text", text_or_null_json(&event.text));
    Json::push_field(&mut fields, "date", date);
    Json::push_field(&mut fields, "priority", text_or_null_json(&event.priority));
    Json::push_field(&mut fields, "host", text_or_null_json(&event.host));
    Json::push_field(&mut fields, "source", text_or_null_json(&event.source));
    Json::push_field(&mut fields, "alert_type", text_or_null_json(&event.alert_type));
    assert(view_fields(fields@) =~= event_json(*event)->Object_0);
    Json::object(fields)
}

/// A copy of an optional text of a tool call.
pub fn copy_text_field(params: &Json, key: &str) -> (text: Option<String>)
    ensures
        crate::text::view_text(text) == params@.text_field(key@),
{
    match params.get_str(key) {
        Some(value) => Some(value.to_string()),
        None => None,
    }
}

impl EventsHandler {
    /// Reads the arguments of a query for events, at the two given
    /// moments, into the request to send and what shapes its answer.
    pub fn query(client: &DatadogClient, params: &Json, from_now: (i64, u32), to_now: (i64, u32)) -> (outcome:
        Result<EventsQuery, DatadogError>)
        ensures
            match outcome {
                Ok(query) => {
                    &&& time_range(params@, from_now, to_now) == Ok::<TimeParams, DatadogErrorView>(
                        TimeParams::Timestamp { from: query.start, to: query.end },
                    )
                    &&& (query.page, query.page_size) == pagination_of(params@)
                    &&& query.refresh == (query.page == 0)
                    &&& query.cache_params@ == events_cache_params(params@, query.start, query.end)
                    &&& query.request@ == events_request(client@, params@, query.start, query.end)
                },
                Err(failure) => time_range(params@, from_now, to_now) == Err::<
                    TimeParams,
                    DatadogErrorView,
                >(failure@),
            },
    {
        let handler = EventsHandler;
        let (start, end) = match read_time_range(params, from_now, to_now) {
            Ok(TimeParams::Timestamp { from, to }) => (from, to),
            Err(failure) => {
                return Err(failure);
            },
        };
        let (page, page_size) = handler.parse_pagination(params);
        let priority = copy_text_field(params, "priority");
        let sources = copy_text_field(params, "sources");
        let tags = copy_text_field(params, "tags");
        let mut cache_params: Vec<(String, Json)> = Vec::new();
        Json::push_field(&mut cache_params, "start", Json::integer(start));
        Json::push_field(&mut cache_params, "end", Json::integer(end));
        Json::push_field(&mut cache_params, "priority", text_or_null_json(&priority));
        Json::push_field(&mut cache_params, "sources", text_or_null_json(&sources));
        Json::push_field(&mut cache_params, "tags", text_or_null_json(&tags));
        proof {
            assert(view_fields(cache_params@) =~= events_cache_params(params@, start, end)->Object_0);
        }
        let request = client.query_events(start, end, priority, sources, tags);
        Ok(
            EventsQuery {
                request,
                cache_params: Json::object(cache_params),
                refresh: page == 0,
                page,
                page_size,
                start,
                end,
            },
        )
    }

    /// What the cache holds for this call under `key`, read at the time the
    /// cache's clock shows. A call that asks for fresh data does not read
    /// the cache.
    pub fn cached(query: &EventsQuery, cache: &mut DataCache, key: &str) -> (found: Option<Vec<Event>>)
        ensures
            query.refresh ==> found is None && final(cache)@ == old(cache)@,
            !query.refresh ==> old(cache)@.events.read(key@, final(cache)@.events, found),
            final(cache)@.dashboards == old(cache)@.dashboards,
            final(cache)@.monitors == old(cache)@.monitors,
            old(cache)@.valid() ==> final(cache)@.valid(),
    {
        if query.refresh {
            None
        } else {
            cache.get_events(key)
        }
    }

    /// Shapes the answer to a query for events out of all the events that
    /// the query found.
    pub fn query_response(query: &EventsQuery, events: &Vec<Event>) -> (json: Json)
        ensures
            json@ == events_response(events@, query.page, query.page_size, query.start, query.end),
    {
        let handler = EventsHandler;
        let shown = handler.paginate(events.as_slice(), query.page, query.page_size);
        let data = map_json(shown, build_event);
        assert(data@->Array_0 =~= events_json(shown@)->Array_0);
        let pagination = handler.format_pagination(query.page, query.page_size, events.len());
        let mut meta: Vec<(String, Json)> = Vec::new();
        Json::push_field(&mut meta, "from", Json::Str(format_timestamp(query.start)));
        Json::push_field(&mut meta, "to", Json::Str(format_timestamp(query.end)));
        assert(view_fields(meta@) =~= seq![
            ("from"@, JsonView::Str(timestamp_text(query.start))),
            ("to"@, JsonView::Str(timestamp_text(query.end))),
        ]);
        handler.format_list(data, Some(pagination), Some(Json::object(meta)))
    }
}

} // verus!
