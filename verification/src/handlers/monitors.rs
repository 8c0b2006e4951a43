//! The tool for monitors.

use crate::cache::DataCache;
use crate::datadog::client::ApiRequest;
use crate::datadog::client::DatadogClient;
use crate::datadog::client::HttpMethod;
use crate::datadog::client::opt_pair;
use crate::datadog::client::query_of;
use crate::datadog::models::Monitor;
use crate::datadog::models::MonitorOptions;
use crate::datadog::models::MonitorThresholds;
use crate::error::DatadogError;
use crate::error::DatadogErrorView;
use crate::handlers::common::detail_envelope;
use crate::handlers::common::list_envelope;
use crate::handlers::common::page_of;
use crate::handlers::common::pagination_of;
use crate::handlers::common::pagination_summary;
use crate::handlers::common::Paginator;
use crate::handlers::common::ResponseFormatter;
use crate::json::bool_or_null;
use crate::json::bool_or_null_json;
use crate::json::i32_or_null_json;
use crate::json::int_or_null;
use crate::json::map_json;
use crate::json::opt_field;
use crate::json::push_opt_field;
use crate::json::text_array;
use crate::json::text_array_json;
use crate::json::text_or_null;
use crate::json::text_or_null_json;
use crate::json::view_fields;
use crate::json::Json;
use crate::json::JsonNumber;
use crate::json::JsonView;
use crate::text::decimal;
use crate::text::views;
use vstd::prelude::*;
use vstd::string::*;

verus! {

/// The tool for monitors.
#[derive(Debug, Clone, Copy)]
pub struct MonitorsHandler;

impl Paginator for MonitorsHandler {

}

impl ResponseFormatter for MonitorsHandler {

}

/// A listing of monitors, ready to be sent, with what shapes its answer.
/// The listing is cached under the endpoint `monitors` and the given
/// parameters; the first page always fetches it afresh.
#[derive(Debug)]
pub struct MonitorsListing {
    pub request: ApiRequest,
    pub cache_params: Json,
    pub refresh: bool,
    pub page: usize,
    pub page_size: usize,
}

/// The parameters that tell one cached listing of monitors from another.
pub open spec fn monitors_cache_params(params: JsonView) -> JsonView {
    JsonView::Object(
        seq![
            ("tags"@, crate::json::or_null(crate::json::opt_str(params.text_field("tags"@)))),
            (
                "monitor_tags"@,
                crate::json::or_null(crate::json::opt_str(params.text_field("monitor_tags"@))),
            ),
        ],
    )
}

/// A 32-bit integer as an optional `int`.
pub open spec fn some_i32(value: Option<i32>) -> Option<int> {
    match value {
        Some(n) => Some(n as int),
        None => None,
    }
}

/// A monitor as it appears in a listing.
pub open spec fn monitor_summary(monitor: Monitor) -> JsonView {
    JsonView::Object(
        seq![
            ("id"@, JsonView::Number(JsonNumber::of_int(monitor.id as int))),
            ("name"@, JsonView::Str(monitor.name@)),
            ("type"@, JsonView::Str(monitor.monitor_type@)),
            ("query"@, JsonView::Str(monitor.query@)),
            ("status"@, text_or_null(monitor.overall_state)),
            ("tags"@, text_array(views(monitor.tags@))),
            ("priority"@, int_or_null(some_i32(monitor.priority))),
        ],
    )
}

/// A list of monitors as it appears in a listing.
pub open spec fn monitor_summaries(monitors: Seq<Monitor>) -> JsonView {
    JsonView::Array(Seq::new(monitors.len(), |i: int| monitor_summary(monitors[i])))
}

/// The response to a listing of monitors: the monitors of the page that
/// was asked for, and where that page stands among all of them.
pub open spec fn monitors_response(monitors: Seq<Monitor>, page: usize, page_size: usize) -> JsonView {
    list_envelope(
        monitor_summaries(page_of(monitors, page as int, page_size as int)),
        Some(pagination_summary(page, page_size, monitors.len() as usize)),
        None,
    )
}

/// A threshold as it is reported.
pub open spec fn threshold_json(threshold: Option<JsonNumber>) -> JsonView {
    match threshold {
        Some(number) => JsonView::Number(number),
        None => JsonView::Null,
    }
}

/// The thresholds of a monitor as they are reported.
pub open spec fn thresholds_json(thresholds: Option<MonitorThresholds>) -> JsonView {
    match thresholds {
        Some(t) => JsonView::Object(
            seq![
                ("critical"@, threshold_json(t.critical)),
                ("warning"@, threshold_json(t.warning)),
                ("ok"@, threshold_json(t.ok)),
            ],
        ),
        None => JsonView::Null,
    }
}

/// The silencing of a monitor as it is reported: only where it is an
/// object with entries.
pub open spec fn silenced_json(silenced: Option<Json>) -> Option<JsonView> {
    match silenced {
        Some(value) => match value@ {
            JsonView::Object(entries) => if entries.len() > 0 {
                Some(value@)
            } else {
                None
            },
            _ => None,
        },
        None => None,
    }
}

/// The options of a monitor as they are reported.
pub open spec fn options_json(options: Option<MonitorOptions>) -> JsonView {
    match options {
        Some(o) => JsonView::Object(
            seq![
                ("thresholds"@, thresholds_json(o.thresholds)),
                ("notify_no_data"@, bool_or_null(o.notify_no_data)),
                ("notify_audit"@, bool_or_null(o.notify_audit)),
                ("timeout_h"@, int_or_null(some_i32(o.timeout_h))),
            ] + opt_field("silenced"@, silenced_json(o.silenced)),
        ),
        None => JsonView::Null,
    }
}

/// The response that reports one monitor.
pub open spec fn monitor_detail(monitor: Monitor) -> JsonView {
    detail_envelope(
        JsonView::Object(
            seq![
                ("id"@, JsonView::Number(JsonNumber::of_int(monitor.id as int))),
                ("name"@, JsonView::Str(monitor.name@)),
                ("type"@, JsonView::Str(monitor.monitor_type@)),
                ("query"@, JsonView::Str(monitor.query@)),
                ("message"@, text_or_null(monitor.message)),
                ("tags"@, text_array(views(monitor.tags@))),
                ("created"@, text_or_null(monitor.created)),
                ("modified"@, text_or_null(monitor.modified)),
                ("overall_state"@, text_or_null(monitor.overall_state)),
                ("priority"@, int_or_null(some_i32(monitor.priority))),
                ("options"@, options_json(monitor.options)),
            ],
        ),
    )
}

/// Builds a monitor as it appears in a listing.
fn build_monitor_summary(monitor: &Monitor) -> (json: Json)
    ensures
        json@ == monitor_summary(*monitor),
{
    let mut fields: Vec<(String, Json)> = Vec::new();
    Json::push_field(&mut fields, "id", Json::integer(monitor.id));
    Json::push_field(&mut fields, "name", Json::Str(monitor.name.clone()));
    Json::push_field(&mut fields, "type", Json::Str(monitor.monitor_type.clone()));
    Json::push_field(&mut fields, "query", Json::Str(monitor.query.clone()));
    Json::push_field(&mut fields, "status", text_or_null_json(&monitor.overall_state));
    Json::push_field(&mut fields, "tags", text_array_json(&monitor.tags));
    Json::push_field(&mut fields, "priority", i32_or_null_json(monitor.priority));
    assert(view_fields(fields@) =~= monitor_summary(*monitor)->Object_0);
    Json::object(fields)
}

/// Builds a threshold as it is reported.
fn build_threshold(threshold: Option<JsonNumber>) -> (json: Json)
    ensures
        json@ == threshold_json(threshold),
{
    match threshold {
        Some(number) => Json::Number(number),
        None => Json::Null,
    }
}

/// Builds the options of a monitor as they are reported.
fn build_options(options: &Option<MonitorOptions>) -> (json: Json)
    ensures
        json@ == options_json(*options),
{
    let o = match options {
        Some(o) => o,
        None => {
            return Json::Null;
        },
    };
    let thresholds = match &o.thresholds {
        Some(t) => {
            let mut fields: Vec<(String, Json)> = Vec::new();
            Json::push_field(&mut fields, "critical", build_threshold(t.critical));
            Json::push_field(&mut fields, "warning", build_threshold(t.warning));
            Json::push_field(&mut fields, "ok", build_threshold(t.ok));
            assert(view_fields(fields@) =~= thresholds_json(o.thresholds)->Object_0);
            Json::object(fields)
        },
        None => Json::Null,
    };
    let mut fields: Vec<(String, Json)> = Vec::new();
    Json::push_field(&mut fields, "thresholds", thresholds);
    Json::push_field(&mut fields, "notify_no_data", bool_or_null_json(o.notify_no_data));
    Json::push_field(&mut fields, "notify_audit", bool_or_null_json(o.notify_audit));
    Json::push_field(&mut fields, "timeout_h", i32_or_null_json(o.timeout_h));
    assert(view_fields(fields@) =~= seq![
        ("thresholds"@, thresholds_json(o.thresholds)),
        ("notify_no_data"@, bool_or_null(o.notify_no_data)),
        ("notify_audit"@, bool_or_null(o.notify_audit)),
        ("timeout_h"@, int_or_null(some_i32(o.timeout_h))),
    ]);
    let silenced = match &o.silenced {
        Some(value) => match value {
            Json::Object(entries) => {
                proof {
                    Json::lemma_object_view(*entries);
                }
                if entries.len() > 0 {
                    Some(value.clone())
                } else {
                    None
                }
            },
            _ => None,
        },
        None => None,
    };
    push_opt_field(&mut fields, "silenced", silenced);
    Json::object(fields)
}

impl MonitorsHandler {
    /// Reads the arguments of a listing of monitors into the request to
    /// send and what shapes its answer.
    pub fn list(client: &DatadogClient, params: &Json) -> (listing: MonitorsListing)
        ensures
            (listing.page, listing.page_size) == pagination_of(params@),
            listing.refresh == (listing.page == 0),
            listing.cache_params@ == monitors_cache_params(params@),
            listing.request@ == client@.request_for(
                HttpMethod::Get,
                "/api/v1/monitor"@,
                query_of(
                    opt_pair("tags"@, params@.text_field("tags"@)) + opt_pair(
                        "monitor_tags"@,
                        params@.text_field("monitor_tags"@),
                    ),
                ),
                None,
            ),
    {
        let handler = MonitorsHandler;
        let tags = match params.get_str("tags") {
            Some(text) => Some(text.to_string()),
            None => None,
        };
        let monitor_tags = match params.get_str("monitor_tags") {
            Some(text) => Some(text.to_string()),
            None => None,
        };
        let (page, page_size) = handler.parse_pagination(params);
        let mut cache_params: Vec<(String, Json)> = Vec::new();
        Json::push_field(&mut cache_params, "tags", text_or_null_json(&tags));
        Json::push_field(&mut cache_params, "monitor_tags", text_or_null_json(&monitor_tags));
        proof {
            assert(view_fields(cache_params@) =~= monitors_cache_params(params@)->Object_0);
            let sent = opt_pair("tags"@, params@.text_field("tags"@)) + opt_pair(
                "monitor_tags"@,
                params@.text_field("monitor_tags"@),
            );
            assert(sent + opt_pair("page"@, None) + opt_pair("page_size"@, None) =~= sent);
        }
        let request = client.list_monitors(tags, monitor_tags, None, None);
        MonitorsListing {
            request,
            cache_params: Json::object(cache_params),
            refresh: page == 0,
            page,
            page_size,
        }
    }

    /// What the cache holds for this call under `key`, read at the time the
    /// cache's clock shows. A call that asks for fresh data does not read
    /// the cache.
    pub fn cached(listing: &MonitorsListing, cache: &mut DataCache, key: &str) -> (found: Option<Vec<Monitor>>)
        ensures
            listing.refresh ==> found is None && final(cache)@ == old(cache)@,
            !listing.refresh ==> old(cache)@.monitors.read(key@, final(cache)@.monitors, found),
            final(cache)@.dashboards == old(cache)@.dashboards,
            final(cache)@.events == old(cache)@.events,
            old(cache)@.valid() ==> final(cache)@.valid(),
    {
        if listing.refresh {
            None
        } else {
            cache.get_monitors(key)
        }
    }

    /// Shapes the answer to a listing of monitors out of all the monitors
    /// that the listing found.
    pub fn list_response(listing: &MonitorsListing, monitors: &Vec<Monitor>) -> (json: Json)
        ensures
            json@ == monitors_response(monitors@, listing.page, listing.page_size),
    {
        let handler = MonitorsHandler;
        let shown = handler.paginate(monitors.as_slice(), listing.page, listing.page_size);
        let data = map_json(shown, build_monitor_summary);
        assert(data@->Array_0 =~= monitor_summaries(shown@)->Array_0);
        let pagination = handler.format_pagination(listing.page, listing.page_size, monitors.len());
        handler.format_list(data, Some(pagination), None)
    }

    /// Reads the arguments of a request for one monitor into the request to
    /// send. The monitor's id is required.
    pub fn get(client: &DatadogClient, params: &Json) -> (outcome: Result<ApiRequest, DatadogError>)
        ensures
            match outcome {
                Ok(request) => params@.i64_field("monitor_id"@) is Some && request@
                    == client@.request_for(
                    HttpMethod::Get,
                    "/api/v1/monitor/"@ + decimal(params@.i64_field("monitor_id"@)->0 as int),
                    None,
                    None,
                ),
                Err(failure) => params@.i64_field("monitor_id"@) is None && failure@
                    == DatadogErrorView::InvalidInput("Missing 'monitor_id' parameter"@),
            },
    {
        match params.get_i64("monitor_id") {
            Some(id) => Ok(client.get_monitor(id)),
            None => Err(DatadogError::InvalidInput("Missing 'monitor_id' parameter".to_string())),
        }
    }

    /// Shapes the answer to a request for one monitor.
    pub fn get_response(monitor: &Monitor) -> (json: Json)
        ensures
            json@ == monitor_detail(*monitor),
    {
        let handler = MonitorsHandler;
        let mut fields: Vec<(String, Json)> = Vec::new();
        Json::push_field(&mut fields, "id", Json::integer(monitor.id));
        Json::push_field(&mut fields, "name", Json::Str(monitor.name.clone()));
        Json::push_field(&mut fields, "type", Json::Str(monitor.monitor_type.clone()));
        Json::push_field(&mut fields, "query", Json::Str(monitor.query.clone()));
        Json::push_field(&mut fields, "message", text_or_null_json(&monitor.message));
        Json::push_field(&mut fields, "tags", text_array_json(&monitor.tags));
        Json::push_field(&mut fields, "created", text_or_null_json(&monitor.created));
        Json::push_field(&mut fields, "modified", text_or_null_json(&monitor.modified));
        Json::push_field(&mut fields, "overall_state", text_or_null_json(&monitor.overall_state));
        Json::push_field(&mut fields, "priority", i32_or_null_json(monitor.priority));
        Json::push_field(&mut fields, "options", build_options(&monitor.options));
        assert(view_fields(fields@) =~= monitor_detail(*monitor)->Object_0[0].1->Object_0);
        handler.format_detail(Json::object(fields))
    }
}

} // verus!
