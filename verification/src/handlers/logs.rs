//! The tool for log search.

use crate::datadog::client::search_logs_body;
use crate::datadog::client::ApiRequest;
use crate::datadog::client::DatadogClient;
use crate::datadog::client::HttpMethod;
use crate::datadog::models::LogEntry;
use crate::datadog::models::LogsResponse;
use crate::error::DatadogError;
use crate::error::DatadogErrorView;
use crate::handlers::common::choose_tag_filter;
use crate::handlers::common::count_json;
use crate::handlers::common::filtered_tags;
use crate::handlers::common::list_envelope;
use crate::handlers::common::read_rfc3339_range;
use crate::handlers::common::rfc3339_range;
use crate::handlers::common::tag_filter_of;
use crate::handlers::common::ResponseFormatter;
use crate::handlers::common::TagFilter;
use crate::handlers::common::TimeHandler;
use crate::json::text_array;
use crate::json::text_array_json;
use crate::json::text_or_null;
use crate::json::text_or_null_json;
use crate::json::view_fields;
use crate::json::view_items;
use crate::json::Json;
use crate::json::JsonView;
use crate::text::join_with;
use crate::text::joined_with;
use crate::text::views;
use vstd::prelude::*;
use vstd::string::*;

verus! {

/// The tool for log search.
#[derive(Debug, Clone, Copy)]
pub struct LogsHandler;

impl TimeHandler for LogsHandler {

}

impl TagFilter for LogsHandler {

}

impl ResponseFormatter for LogsHandler {

}

/// A log search, ready to be sent, with what shapes its answer.
#[derive(Debug)]
pub struct LogsSearch {
    pub request: ApiRequest,
    pub query: String,
    pub from: String,
    pub to: String,
    pub tag_filter: String,
}

/// How many log events a search asks for: ten where the call names no
/// number.
pub open spec fn logs_limit(params: JsonView) -> Option<i32> {
    match params.i64_field("limit"@) {
        Some(n) => Some(n as i32),
        None => Some(10i32),
    }
}

/// What a log search is read into: a missing query is an invalid input,
/// and it is found before the time range is read.
pub open spec fn logs_search_plan(params: JsonView, from_now: (i64, u32), to_now: (i64, u32)) -> Result<
    (Seq<char>, (Seq<char>, Seq<char>)),
    DatadogErrorView,
> {
    match params.text_field("query"@) {
        None => Err(DatadogErrorView::InvalidInput("Missing 'query' parameter"@)),
        Some(query) => match rfc3339_range(params, from_now, to_now) {
            Err(failure) => Err(failure),
            Ok(range) => Ok((query, range)),
        },
    }
}

/// The tags of a log event as they are reported: those that the filter
/// lets through, and `null` where the event has none at all.
pub open spec fn log_tags_json(entry: LogEntry, filter: Seq<char>) -> JsonView {
    match entry.attributes {
        Some(attributes) => match attributes.tags {
            Some(tags) => text_array(filtered_tags(views(tags@), filter)),
            None => JsonView::Null,
        },
        None => JsonView::Null,
    }
}

/// A log event as it is reported.
pub open spec fn log_json(entry: LogEntry, filter: Seq<char>) -> JsonView {
    JsonView::Object(
        seq![
            ("id"@, JsonView::Str(entry.id@)),
            (
                "timestamp"@,
                text_or_null(
                    match entry.attributes {
                        Some(attributes) => attributes.timestamp,
                        None => None,
                    },
                ),
            ),
            (
                "message"@,
                text_or_null(
                    match entry.attributes {
                        Some(attributes) => attributes.message,
                        None => None,
                    },
                ),
            ),
            (
                "host"@,
                text_or_null(
                    match entry.attributes {
                        Some(attributes) => attributes.host,
                        None => None,
                    },
                ),
            ),
            (
                "service"@,
                text_or_null(
                    match entry.attributes {
                        Some(attributes) => attributes.service,
                        None => None,
                    },
                ),
            ),
            ("tags"@, log_tags_json(entry, filter)),
            (
                "status"@,
                text_or_null(
                    match entry.attributes {
                        Some(attributes) => attributes.status,
                        None => None,
                    },
                ),
            ),
        ],
    )
}

/// The log events of an answer.
pub open spec fn entries_of(response: LogsResponse) -> Seq<LogEntry> {
    match response.data {
        Some(entries) => entries@,
        None => Seq::empty(),
    }
}

/// The response to a log search: errors that the API reported make it
/// fail; else it lists the log events and says what was searched.
pub open spec fn logs_response(
    response: LogsResponse,
    query: Seq<char>,
    from: Seq<char>,
    to: Seq<char>,
    filter: Seq<char>,
) -> Result<JsonView, DatadogErrorView> {
    match response.errors {
        Some(errors) => Err(DatadogErrorView::ApiError(joined_with(views(errors@), ", "@))),
        None => Ok(
            list_envelope(
                JsonView::Array(
                    Seq::new(
                        entries_of(response).len(),
                        |i: int| log_json(entries_of(response)[i], filter),
                    ),
                ),
                None,
                Some(
                    JsonView::Object(
                        seq![
                            ("query"@, JsonView::Str(query)),
                            ("from"@, JsonView::Str(from)),
                            ("to"@, JsonView::Str(to)),
                            ("total"@, count_json(entries_of(response).len() as usize)),
                        ],
                    ),
                ),
            ),
        ),
    }
}

/// Builds a log event as it is reported.
fn build_log(entry: &LogEntry, filter: &str) -> (json: Json)
    ensures
        json@ == log_json(*entry, filter@),
{
    let handler = LogsHandler;
    let (timestamp, message, host, service, status, tags) = match &entry.attributes {
        Some(attributes) => (
            text_or_null_json(&attributes.timestamp),
            text_or_null_json(&attributes.message),
            text_or_null_json(&attributes.host),
            text_or_null_json(&attributes.service),
            text_or_null_json(&attributes.status),
            match &attributes.tags {
                Some(tags) => text_array_json(&handler.filter_tags(tags.as_slice(), filter)),
                None => Json::Null,
            },
        ),
        None => (Json::Null, Json::Null, Json::Null, Json::Null, Json::Null, Json::Null),
    };
    let mut fields: Vec<(String, Json)> = Vec::new();
    Json::push_field(&mut fields, "id", Json::Str(entry.id.clone()));
    Json::push_field(&mut fields, "timestamp", timestamp);
    Json::push_field(&mut fields, "message", message);
    Json::push_field(&mut fields, "host", host);
    Json::push_field(&mut fields, "service", service);
    Json::push_field(&mut fields, "tags", tags);
    Json::push_field(&mut fields, "status", status);
    assert(view_fields(fields@) =~= log_json(*entry, filter@)->Object_0);
    Json::object(fields)
}

impl LogsHandler {
    /// Reads the arguments of a log search, at the two given moments, into
    /// the request to send and what shapes its answer. The query is
    /// required.
    pub fn search(client: &DatadogClient, params: &Json, from_now: (i64, u32), to_now: (i64, u32)) -> (outcome:
        Result<LogsSearch, DatadogError>)
        ensures
            match outcome {
                Ok(search) => {
                    &&& logs_search_plan(params@, from_now, to_now) == Ok::<
                        (Seq<char>, (Seq<char>, Seq<char>)),
                        DatadogErrorView,
                    >((search.query@, (search.from@, search.to@)))
                    &&& search.tag_filter@ == tag_filter_of(params@, client@.tag_filter)
                    &&& search.request@ == client@.request_for(
                        HttpMethod::Post,
                        "/api/v2/logs/events/search"@,
                        None,
                        Some(
                            search_logs_body(search.query@, search.from@, search.to@, logs_limit(params@)),
                        ),
                    )
                },
                Err(failure) => logs_search_plan(params@, from_now, to_now) == Err::<
                    (Seq<char>, (Seq<char>, Seq<char>)),
                    DatadogErrorView,
                >(failure@),
            },
    {
        let query = match params.get_str("query") {
            Some(query) => query.to_string(),
            None => {
                return Err(DatadogError::InvalidInput("Missing 'query' parameter".to_string()));
            },
        };
        let limit = match params.get_i64("limit") {
            Some(n) => Some(
                #[verifier::truncate]
                (n as i32),
            ),
            None => Some(10),
        };
        let (from, to) = match read_rfc3339_range(params, from_now, to_now) {
            Ok(range) => range,
            Err(failure) => {
                return Err(failure);
            },
        };
        let request = client.search_logs(query.as_str(), from.as_str(), to.as_str(), limit);
        Ok(
            LogsSearch {
                request,
                query,
                from,
                to,
                tag_filter: choose_tag_filter(params, client.get_tag_filter()),
            },
        )
    }

    /// Shapes the answer to a log search.
    pub fn search_response(search: &LogsSearch, response: &LogsResponse) -> (outcome: Result<
        Json,
        DatadogError,
    >)
        ensures
            match outcome {
                Ok(json) => logs_response(
                    *response,
                    search.query@,
                    search.from@,
                    search.to@,
                    search.tag_filter@,
                ) == Ok::<JsonView, DatadogErrorView>(json@),
                Err(failure) => logs_response(
                    *response,
                    search.query@,
                    search.from@,
                    search.to@,
                    search.tag_filter@,
                ) == Err::<JsonView, DatadogErrorView>(failure@),
            },
    {
        let handler = LogsHandler;
        match &response.errors {
            Some(errors) => {
                return Err(DatadogError::ApiError(join_with(errors, ", ")));
            },
            None => {},
        }
        let mut logs: Vec<Json> = Vec::new();
        match &response.data {
            Some(entries) => {
                let mut i: usize = 0;
                while i < entries.len()
                    invariant
                        i <= entries.len(),
                        logs.len() == i,
                        forall|j: int|
                            0 <= j < i ==> logs@[j]@ == log_json(entries@[j], search.tag_filter@),
                    decreases entries.len() - i,
                {
                    logs.push(build_log(&entries[i], search.tag_filter.as_str()));
                    i = i + 1;
                }
            },
            None => {},
        }
        proof {
            assert(view_items(logs@) =~= Seq::new(
                entries_of(*response).len(),
                |i: int| log_json(entries_of(*response)[i], search.tag_filter@),
            ));
        }
        let mut meta: Vec<(String, Json)> = Vec::new();
        Json::push_field(&mut meta, "query", Json::Str(search.query.clone()));
        Json::push_field(&mut meta, "from", Json::Str(search.from.clone()));
        Json::push_field(&mut meta, "to", Json::Str(search.to.clone()));
        Json::push_field(&mut meta, "total", Json::unsigned(logs.len() as u64));
        assert(view_fields(meta@) =~= seq![
            ("query"@, JsonView::Str(search.query@)),
            ("from"@, JsonView::Str(search.from@)),
            ("to"@, JsonView::Str(search.to@)),
            ("total"@, count_json(entries_of(*response).len() as usize)),
        ]);
        Ok(handler.format_list(Json::array(logs), None, Some(Json::object(meta))))
    }
}

} // verus!
