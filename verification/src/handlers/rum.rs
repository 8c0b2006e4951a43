//! The tool for real-user-monitoring events.

use crate::datadog::client::search_rum_body;
use crate::datadog::client::ApiRequest;
use crate::datadog::client::DatadogClient;
use crate::datadog::client::DatadogClientView;
use crate::datadog::client::HttpMethod;
use crate::datadog::models::RumAction;
use crate::datadog::models::RumApplication;
use crate::datadog::models::RumAttributes;
use crate::datadog::models::RumError;
use crate::datadog::models::RumEvent;
use crate::datadog::models::RumEventsResponse;
use crate::datadog::models::RumResource;
use crate::datadog::models::RumSession;
use crate::datadog::models::RumView;
use crate::error::DatadogError;
use crate::error::DatadogErrorView;
use crate::handlers::common::build_page_envelope;
use crate::handlers::common::choose_tag_filter;
use crate::handlers::common::filtered_tags;
use crate::handlers::common::page_envelope;
use crate::handlers::common::read_rfc3339_range;
use crate::handlers::common::rfc3339_range;
use crate::handlers::common::tag_filter_of;
use crate::handlers::common::truncated_trace;
use crate::handlers::common::truncates_stack_traces;
use crate::handlers::common::PaginationInfo;
use crate::handlers::common::ResponseFilter;
use crate::handlers::common::ResponseFormatter;
use crate::handlers::common::TagFilter;
use crate::handlers::common::TimeHandler;
use crate::handlers::common::DEFAULT_STACK_TRACE_LINES;
use crate::json::nonempty_object;
use crate::json::nonempty_object_json;
use crate::json::only_true;
use crate::json::only_true_json;
use crate::json::opt_field;
use crate::json::opt_i32_json;
use crate::json::opt_int;
use crate::json::opt_int_json;
use crate::json::opt_str;
use crate::json::opt_text_json;
use crate::json::push_opt_field;
use crate::json::text_array;
use crate::json::text_array_json;
use crate::json::view_fields;
use crate::json::view_items;
use crate::json::view_opt;
use crate::json::Json;
use crate::json::JsonView;
use crate::text::view_text;
use crate::text::views;
use vstd::prelude::*;
use vstd::string::*;

verus! {

/// The tool for real-user-monitoring events.
#[derive(Debug, Clone, Copy)]
pub struct RumHandler;

impl TimeHandler for RumHandler {

}

impl TagFilter for RumHandler {

}

impl ResponseFilter for RumHandler {

}

impl ResponseFormatter for RumHandler {

}

/// A search for events, ready to be sent, with what shapes its answer.
#[derive(Debug)]
pub struct RumSearch {
    pub request: ApiRequest,
    pub tag_filter: String,
    pub limit: i32,
    pub truncate_stack_traces: bool,
}

/// An integer as an optional `int`.
pub open spec fn some_int(value: Option<i64>) -> Option<int> {
    match value {
        Some(n) => Some(n as int),
        None => None,
    }
}

/// A 32-bit integer as an optional `int`.
pub open spec fn some_i32(value: Option<i32>) -> Option<int> {
    match value {
        Some(n) => Some(n as int),
        None => None,
    }
}

/// How many events a search asks for: ten where the call names no number.
pub open spec fn rum_limit(params: JsonView) -> i32 {
    match params.i64_field("limit"@) {
        Some(n) => n as i32,
        None => 10i32,
    }
}

/// The request of a search for events over the given time range.
pub open spec fn rum_request(client: DatadogClientView, params: JsonView, range: (Seq<char>, Seq<char>)) -> crate::datadog::client::ApiRequestView {
    client.request_for(
        HttpMethod::Post,
        "/api/v2/rum/events/search"@,
        None,
        Some(
            search_rum_body(
                params.text_or("query"@, "*"@),
                range.0,
                range.1,
                Some(rum_limit(params)),
                params.text_field("cursor"@),
                params.text_field("sort"@),
            ),
        ),
    )
}

/// The fields of a view that are worth reporting.
pub open spec fn view_fields_of(view: RumView) -> Seq<(Seq<char>, JsonView)> {
    opt_field("name"@, opt_str(view_text(view.name))) + opt_field(
        "url_path"@,
        opt_str(view_text(view.url_path)),
    ) + opt_field("loading_time"@, opt_int(some_int(view.loading_time))) + opt_field(
        "time_spent"@,
        opt_int(some_int(view.time_spent)),
    )
}

/// The fields of a session that are worth reporting; a replay is only
/// mentioned where there is one.
pub open spec fn session_fields_of(session: RumSession) -> Seq<(Seq<char>, JsonView)> {
    opt_field("id"@, opt_str(view_text(session.id))) + opt_field(
        "type"@,
        opt_str(view_text(session.session_type)),
    ) + opt_field("has_replay"@, only_true(session.has_replay))
}

/// The fields of an action that are worth reporting.
pub open spec fn action_fields_of(action: RumAction) -> Seq<(Seq<char>, JsonView)> {
    opt_field("name"@, opt_str(view_text(action.name))) + opt_field(
        "type"@,
        opt_str(view_text(action.action_type)),
    ) + opt_field("loading_time"@, opt_int(some_int(action.loading_time)))
}

/// The fields of a resource that are worth reporting.
pub open spec fn resource_fields_of(resource: RumResource) -> Seq<(Seq<char>, JsonView)> {
    opt_field("url"@, opt_str(view_text(resource.url))) + opt_field(
        "method"@,
        opt_str(view_text(resource.method)),
    ) + opt_field("status_code"@, opt_int(some_i32(resource.status_code))) + opt_field(
        "duration"@,
        opt_int(some_int(resource.duration)),
    )
}

/// The stack trace of an error as it is reported: truncated or whole.
pub open spec fn reported_stack(stack: Option<String>, truncate: bool) -> Option<Seq<char>> {
    match stack {
        Some(trace) => Some(
            if truncate {
                truncated_trace(trace@, DEFAULT_STACK_TRACE_LINES as nat)
            } else {
                trace@
            },
        ),
        None => None,
    }
}

/// The fields of an error that are worth reporting; a crash is only
/// mentioned where there was one.
pub open spec fn error_fields_of(error: RumError, truncate: bool) -> Seq<(Seq<char>, JsonView)> {
    opt_field("message"@, opt_str(view_text(error.message))) + opt_field(
        "source"@,
        opt_str(view_text(error.source)),
    ) + opt_field("type"@, opt_str(view_text(error.error_type))) + opt_field(
        "stack"@,
        opt_str(reported_stack(error.stack, truncate)),
    ) + opt_field("is_crash"@, only_true(error.is_crash))
}

/// The application of an event as it is reported: its name, where it has
/// one.
pub open spec fn application_of(application: Option<RumApplication>) -> Option<JsonView> {
    match application {
        Some(app) => match app.name {
            Some(name) => Some(JsonView::Object(seq![("name"@, JsonView::Str(name@))])),
            None => None,
        },
        None => None,
    }
}

/// The tags of an event as they are reported: those that the filter lets
/// through, where there are any.
pub open spec fn tags_of(tags: Option<Vec<String>>, filter: Seq<char>) -> Option<JsonView> {
    match tags {
        Some(list) => if filtered_tags(views(list@), filter).len() > 0 {
            Some(text_array(filtered_tags(views(list@), filter)))
        } else {
            None
        },
        None => None,
    }
}

/// What is reported of the attributes of an event.
pub open spec fn attribute_fields_of(attributes: RumAttributes, filter: Seq<char>, truncate: bool) -> Seq<
    (Seq<char>, JsonView),
> {
    opt_field("timestamp"@, opt_str(view_text(attributes.timestamp))) + opt_field(
        "service"@,
        opt_str(view_text(attributes.service)),
    ) + opt_field("application"@, application_of(attributes.application)) + opt_field(
        "view"@,
        match attributes.view {
            Some(view) => nonempty_object(view_fields_of(view)),
            None => None,
        },
    ) + opt_field(
        "session"@,
        match attributes.session {
            Some(session) => nonempty_object(session_fields_of(session)),
            None => None,
        },
    ) + opt_field(
        "action"@,
        match attributes.action {
            Some(action) => nonempty_object(action_fields_of(action)),
            None => None,
        },
    ) + opt_field(
        "resource"@,
        match attributes.resource {
            Some(resource) => nonempty_object(resource_fields_of(resource)),
            None => None,
        },
    ) + opt_field(
        "error"@,
        match attributes.error {
            Some(error) => nonempty_object(error_fields_of(error, truncate)),
            None => None,
        },
    ) + opt_field("tags"@, tags_of(attributes.tags, filter))
}

/// What is reported of an event: its id and type, and of its attributes
/// only what carries meaning.
pub open spec fn event_entry(event: RumEvent, filter: Seq<char>, truncate: bool) -> JsonView {
    JsonView::Object(
        seq![("id"@, JsonView::Str(event.id@))] + opt_field(
            "type"@,
            opt_str(view_text(event.event_type)),
        ) + match event.attributes {
            Some(attributes) => attribute_fields_of(attributes, filter, truncate),
            None => Seq::empty(),
        },
    )
}

/// The events of an answer.
pub open spec fn events_of(response: RumEventsResponse) -> Seq<RumEvent> {
    match response.data {
        Some(events) => events@,
        None => Seq::empty(),
    }
}

/// Whether an answer says that more events follow.
pub open spec fn has_cursor(response: RumEventsResponse) -> bool {
    match response.meta {
        Some(meta) => match meta.page {
            Some(page) => page.after is Some,
            None => false,
        },
        None => false,
    }
}

/// The response to a search for events.
pub open spec fn rum_response(
    response: RumEventsResponse,
    filter: Seq<char>,
    limit: i32,
    truncate: bool,
) -> JsonView {
    page_envelope(
        JsonView::Array(
            Seq::new(
                events_of(response).len(),
                |i: int| event_entry(events_of(response)[i], filter, truncate),
            ),
        ),
        PaginationInfo {
            total: events_of(response).len() as usize,
            page: 0,
            page_size: limit as usize,
            has_next: has_cursor(response),
            next_offset: None,
        },
    )
}

/// Builds what is reported of a view.
fn build_view(view: &RumView) -> (json: Option<Json>)
    ensures
        view_opt(json) == nonempty_object(view_fields_of(*view)),
{
    let mut fields: Vec<(String, Json)> = Vec::new();
    assert(view_fields(fields@) =~= Seq::empty());
    push_opt_field(&mut fields, "name", opt_text_json(&view.name));
    push_opt_field(&mut fields, "url_path", opt_text_json(&view.url_path));
    push_opt_field(&mut fields, "loading_time", opt_int_json(view.loading_time));
    push_opt_field(&mut fields, "time_spent", opt_int_json(view.time_spent));
    assert(view_fields(fields@) =~= view_fields_of(*view));
    nonempty_object_json(fields)
}

/// Builds what is reported of a session.
fn build_session(session: &RumSession) -> (json: Option<Json>)
    ensures
        view_opt(json) == nonempty_object(session_fields_of(*session)),
{
    let mut fields: Vec<(String, Json)> = Vec::new();
    assert(view_fields(fields@) =~= Seq::empty());
    push_opt_field(&mut fields, "id", opt_text_json(&session.id));
    push_opt_field(&mut fields, "type", opt_text_json(&session.session_type));
    push_opt_field(&mut fields, "has_replay", only_true_json(session.has_replay));
    assert(view_fields(fields@) =~= session_fields_of(*session));
    nonempty_object_json(fields)
}

/// Builds what is reported of an action.
fn build_action(action: &RumAction) -> (json: Option<Json>)
    ensures
        view_opt(json) == nonempty_object(action_fields_of(*action)),
{
    let mut fields: Vec<(String, Json)> = Vec::new();
    assert(view_fields(fields@) =~= Seq::empty());
    push_opt_field(&mut fields, "name", opt_text_json(&action.name));
    push_opt_field(&mut fields, "type", opt_text_json(&action.action_type));
    push_opt_field(&mut fields, "loading_time", opt_int_json(action.loading_time));
    assert(view_fields(fields@) =~= action_fields_of(*action));
    nonempty_object_json(fields)
}

/// Builds what is reported of a resource.
fn build_resource(resource: &RumResource) -> (json: Option<Json>)
    ensures
        view_opt(json) == nonempty_object(resource_fields_of(*resource)),
{
    let mut fields: Vec<(String, Json)> = Vec::new();
    assert(view_fields(fields@) =~= Seq::empty());
    push_opt_field(&mut fields, "url", opt_text_json(&resource.url));
    push_opt_field(&mut fields, "method", opt_text_json(&resource.method));
    push_opt_field(&mut fields, "status_code", opt_i32_json(resource.status_code));
    push_opt_field(&mut fields, "duration", opt_int_json(resource.duration));
    assert(view_fields(fields@) =~= resource_fields_of(*resource));
    nonempty_object_json(fields)
}

/// Builds what is reported of an error.
fn build_error(error: &RumError, truncate: bool) -> (json: Option<Json>)
    ensures
        view_opt(json) == nonempty_object(error_fields_of(*error, truncate)),
{
    let handler = RumHandler;
    let mut fields: Vec<(String, Json)> = Vec::new();
    assert(view_fields(fields@) =~= Seq::empty());
    push_opt_field(&mut fields, "message", opt_text_json(&error.message));
    push_opt_field(&mut fields, "source", opt_text_json(&error.source));
    push_opt_field(&mut fields, "type", opt_text_json(&error.error_type));
    let stack = match &error.stack {
        Some(trace) => Some(
            Json::Str(
                if truncate {
                    handler.truncate_stack_trace(trace.as_str(), DEFAULT_STACK_TRACE_LINES)
                } else {
                    trace.clone()
                },
            ),
        ),
        None => None,
    };
    assert(view_opt(stack) == opt_str(reported_stack(error.stack, truncate)));
    push_opt_field(&mut fields, "stack", stack);
    push_opt_field(&mut fields, "is_crash", only_true_json(error.is_crash));
    assert(view_fields(fields@) =~= error_fields_of(*error, truncate));
    nonempty_object_json(fields)
}

/// Builds what is reported of the tags of an event.
fn build_tags(tags: &Option<Vec<String>>, filter: &str) -> (json: Option<Json>)
    ensures
        view_opt(json) == tags_of(*tags, filter@),
{
    let handler = RumHandler;
    match tags {
        Some(list) => {
            let kept = handler.filter_tags(list.as_slice(), filter);
            if kept.len() > 0 {
                Some(text_array_json(&kept))
            } else {
                None
            }
        },
        None => None,
    }
}

/// Builds what is reported of the attributes of an event.
fn build_attribute_fields(attributes: &RumAttributes, filter: &str, truncate: bool) -> (fields: Vec<
    (String, Json),
>)
    ensures
        view_fields(fields@) == attribute_fields_of(*attributes, filter@, truncate),
{
    let mut fields: Vec<(String, Json)> = Vec::new();
    push_opt_field(&mut fields, "timestamp", opt_text_json(&attributes.timestamp));
    assert(view_fields(fields@) =~= opt_field("timestamp"@, opt_str(view_text(attributes.timestamp))));
    push_opt_field(&mut fields, "service", opt_text_json(&attributes.service));
    let application = match &attributes.application {
        Some(app) => match &app.name {
            Some(name) => Some(Json::singleton("name", Json::Str(name.clone()))),
            None => None,
        },
        None => None,
    };
    push_opt_field(&mut fields, "application", application);
    let view = match &attributes.view {
        Some(view) => build_view(view),
        None => None,
    };
    push_opt_field(&mut fields, "view", view);
    let session = match &attributes.session {
        Some(session) => build_session(session),
        None => None,
    };
    push_opt_field(&mut fields, "session", session);
    let action = match &attributes.action {
        Some(action) => build_action(action),
        None => None,
    };
    push_opt_field(&mut fields, "action", action);
    let resource = match &attributes.resource {
        Some(resource) => build_resource(resource),
        None => None,
    };
    push_opt_field(&mut fields, "resource", resource);
    let error = match &attributes.error {
        Some(error) => build_error(error, truncate),
        None => None,
    };
    push_opt_field(&mut fields, "error", error);
    push_opt_field(&mut fields, "tags", build_tags(&attributes.tags, filter));
    fields
}

/// Builds what is reported of an event.
fn build_event_entry(event: &RumEvent, filter: &str, truncate: bool) -> (json: Json)
    ensures
        json@ == event_entry(*event, filter@, truncate),
{
    let mut fields: Vec<(String, Json)> = Vec::new();
    Json::push_field(&mut fields, "id", Json::Str(event.id.clone()));
    assert(view_fields(fields@) =~= seq![("id"@, JsonView::Str(event.id@))]);
    push_opt_field(&mut fields, "type", opt_text_json(&event.event_type));
    let more = match &event.attributes {
        Some(attributes) => build_attribute_fields(attributes, filter, truncate),
        None => {
            let none: Vec<(String, Json)> = Vec::new();
            assert(view_fields(none@) =~= Seq::empty());
            none
        },
    };
    crate::json::append_fields(&mut fields, more);
    Json::object(fields)
}

impl RumHandler {
    /// Reads the arguments of a search for events, at the two given
    /// moments, into the request to send and what shapes its answer.
    pub fn search_events(
        client: &DatadogClient,
        params: &Json,
        from_now: (i64, u32),
        to_now: (i64, u32),
    ) -> (outcome: Result<RumSearch, DatadogError>)
        ensures
            match outcome {
                Ok(search) => {
                    &&& rfc3339_range(params@, from_now, to_now) is Ok
                    &&& search.request@ == rum_request(
                        client@,
                        params@,
                        rfc3339_range(params@, from_now, to_now)->Ok_0,
                    )
                    &&& search.tag_filter@ == tag_filter_of(params@, client@.tag_filter)
                    &&& search.limit == rum_limit(params@)
                    &&& search.truncate_stack_traces == truncates_stack_traces(params@)
                },
                Err(failure) => rfc3339_range(params@, from_now, to_now) == Err::<
                    (Seq<char>, Seq<char>),
                    DatadogErrorView,
                >(failure@),
            },
    {
        let handler = RumHandler;
        let query = params.get_str_or("query", "*");
        let (from, to) = match read_rfc3339_range(params, from_now, to_now) {
            Ok(range) => range,
            Err(failure) => {
                return Err(failure);
            },
        };
        let limit = match params.get_i64("limit") {
            Some(n) => #[verifier::truncate]
            (n as i32),
            None => 10,
        };
        let cursor = match params.get_str("cursor") {
            Some(text) => Some(text.to_string()),
            None => None,
        };
        let sort = match params.get_str("sort") {
            Some(text) => Some(text.to_string()),
            None => None,
        };
        let request = client.search_rum_events(
            query,
            from.as_str(),
            to.as_str(),
            Some(limit),
            cursor,
            sort,
        );
        Ok(
            RumSearch {
                request,
                tag_filter: choose_tag_filter(params, client.get_tag_filter()),
                limit,
                truncate_stack_traces: handler.should_truncate_stack_trace(params),
            },
        )
    }

    /// Shapes the answer to a search for events.
    pub fn search_events_response(search: &RumSearch, response: &RumEventsResponse) -> (json: Json)
        ensures
            json@ == rum_response(
                *response,
                search.tag_filter@,
                search.limit,
                search.truncate_stack_traces,
            ),
    {
        let mut entries: Vec<Json> = Vec::new();
        match &response.data {
            Some(events) => {
                let mut i: usize = 0;
                while i < events.len()
                    invariant
                        i <= events.len(),
                        entries.len() == i,
                        forall|j: int|
                            0 <= j < i ==> entries@[j]@ == event_entry(
                                events@[j],
                                search.tag_filter@,
                                search.truncate_stack_traces,
                            ),
                    decreases events.len() - i,
                {
                    entries.push(
                        build_event_entry(
                            &events[i],
                            search.tag_filter.as_str(),
                            search.truncate_stack_traces,
                        ),
                    );
                    i = i + 1;
                }
            },
            None => {},
        }
        let more = match &response.meta {
            Some(meta) => match &meta.page {
                Some(page) => page.after.is_some(),
                None => false,
            },
            None => false,
        };
        let pagination = PaginationInfo::from_cursor(
            entries.len(),
            #[verifier::truncate]
            (search.limit as usize),
            more,
        );
        proof {
            assert(view_items(entries@) =~= Seq::new(
                events_of(*response).len(),
                |i: int|
                    event_entry(
                        events_of(*response)[i],
                        search.tag_filter@,
                        search.truncate_stack_traces,
                    ),
            ));
        }
        build_page_envelope(Json::array(entries), &pagination)
    }
}

} // verus!
