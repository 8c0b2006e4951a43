//! The tool for hosts.

use crate::datadog::client::opt_decimal;
use crate::datadog::client::opt_pair;
use crate::datadog::client::query_of;
use crate::datadog::client::ApiRequest;
use crate::datadog::client::DatadogClient;
use crate::datadog::client::HttpMethod;
use crate::datadog::models::Host;
use crate::datadog::models::HostsResponse;
use crate::error::DatadogError;
use crate::error::DatadogErrorView;
use crate::handlers::common::build_tag_table;
use crate::handlers::common::choose_tag_filter;
use crate::handlers::common::filter_tag_table;
use crate::handlers::common::filtered_tag_map;
use crate::handlers::common::list_envelope;
use crate::handlers::common::read_time_range;
use crate::handlers::common::tag_filter_of;
use crate::handlers::common::tag_table_json;
use crate::handlers::common::time_range;
use crate::handlers::common::view_opt_tag_map;
use crate::handlers::common::ResponseFormatter;
use crate::handlers::common::TimeHandler;
use crate::handlers::common::TimeParams;
use crate::handlers::events::copy_text_field;
use crate::json::text_or_null;
use crate::json::text_or_null_json;
use crate::json::texts_or_null;
use crate::json::texts_or_null_json;
use crate::json::view_fields;
use crate::json::Json;
use crate::json::JsonNumber;
use crate::json::JsonView;
use crate::utils::format_timestamp;
use crate::utils::timestamp_text;
use vstd::prelude::*;
use vstd::string::*;

verus! {

/// The tool for hosts.
#[derive(Debug, Clone, Copy)]
pub struct HostsHandler;

impl TimeHandler for HostsHandler {

}

impl ResponseFormatter for HostsHandler {

}

/// A listing of hosts, ready to be sent, with what shapes its answer.
#[derive(Debug)]
pub struct HostsListing {
    pub request: ApiRequest,
    pub tag_filter: String,
}

/// The position in the host list that a listing starts at, where the call
/// names one.
pub open spec fn hosts_start(params: JsonView) -> Option<int> {
    match params.i64_field("start"@) {
        Some(n) => Some(n as i32 as int),
        None => None,
    }
}

/// How many hosts a listing asks for: a hundred where the call names no
/// number.
pub open spec fn hosts_count(params: JsonView) -> int {
    match params.i64_field("count"@) {
        Some(n) => n as i32 as int,
        None => 100,
    }
}

/// The request of a listing of hosts that reported since `from`.
pub open spec fn hosts_request(client: crate::datadog::client::DatadogClientView, params: JsonView, from: i64) -> crate::datadog::client::ApiRequestView {
    client.request_for(
        HttpMethod::Get,
        "/api/v1/hosts"@,
        query_of(
            opt_pair("filter"@, params.text_field("filter"@)) + opt_pair(
                "from"@,
                opt_decimal(Some(from as int)),
            ) + opt_pair("sort_field"@, params.text_field("sort_field"@)) + opt_pair(
                "sort_dir"@,
                params.text_field("sort_dir"@),
            ) + opt_pair("start"@, opt_decimal(hosts_start(params))) + opt_pair(
                "count"@,
                opt_decimal(Some(hosts_count(params))),
            ),
        ),
        None,
    )
}

/// When a host last reported, as it is shown.
pub open spec fn last_reported_json(time: Option<i64>) -> JsonView {
    match time {
        Some(timestamp) => JsonView::Str(timestamp_text(timestamp)),
        None => JsonView::Null,
    }
}

/// The tags of a host as they are reported: by source, as far as the
/// filter lets them through.
pub open spec fn host_tags_json(host: Host, filter: Seq<char>) -> JsonView {
    match filtered_tag_map(view_opt_tag_map(host.tags_by_source), filter) {
        Some(table) => tag_table_json(table),
        None => JsonView::Null,
    }
}

/// A host as it is reported.
pub open spec fn host_json(host: Host, filter: Seq<char>) -> JsonView {
    JsonView::Object(
        seq![
            ("name"@, JsonView::Str(host.name@)),
            ("host_name"@, JsonView::Str(host.host_name@)),
            ("up"@, JsonView::Bool(host.up)),
            ("is_muted"@, JsonView::Bool(host.is_muted)),
            ("last_reported"@, last_reported_json(host.last_reported_time)),
            ("aws_name"@, text_or_null(host.aws_name)),
            ("apps"@, texts_or_null(host.apps)),
            ("sources"@, texts_or_null(host.sources)),
            ("tags"@, host_tags_json(host, filter)),
        ],
    )
}

/// The response to a listing of hosts.
pub open spec fn hosts_response(response: HostsResponse, filter: Seq<char>) -> JsonView {
    list_envelope(
        JsonView::Array(
            Seq::new(response.host_list@.len(), |i: int| host_json(response.host_list@[i], filter)),
        ),
        None,
        Some(
            JsonView::Object(
                seq![
                    (
                        "total_matching"@,
                        JsonView::Number(JsonNumber::of_int(response.total_matching as int)),
                    ),
                    (
                        "total_returned"@,
                        JsonView::Number(JsonNumber::of_int(response.total_returned as int)),
                    ),
                ],
            ),
        ),
    )
}

/// Builds a host as it is reported.
fn build_host(host: &Host, filter: &str) -> (json: Json)
    ensures
        json@ == host_json(*host, filter@),
{
    let table = match &host.tags_by_source {
        Some(table) => filter_tag_table(Some(table), filter),
        None => filter_tag_table(None, filter),
    };
    let tags = match &table {
        Some(kept) => build_tag_table(kept),
        None => Json::Null,
    };
    let last_reported = match host.last_reported_time {
        Some(timestamp) => Json::Str(format_timestamp(timestamp)),
        None => Json::Null,
    };
    let mut fields: Vec<(String, Json)> = Vec::new();
    Json::push_field(&mut fields, "name", Json::Str(host.name.clone()));
    Json::push_field(&mut fields, "host_name", Json::Str(host.host_name.clone()));
    Json::push_field(&mut fields, "up", Json::Bool(host.up));
    Json::push_field(&mut fields, "is_muted", Json::Bool(host.is_muted));
    Json::push_field(&mut fields, "last_reported", last_reported);
    Json::push_field(&mut fields, "aws_name", text_or_null_json(&host.aws_name));
    Json::push_field(&mut fields, "apps", texts_or_null_json(&host.apps));
    Json::push_field(&mut fields, "sources", texts_or_null_json(&host.sources));
    Json::push_field(&mut fields, "tags", tags);
    assert(view_fields(fields@) =~= host_json(*host, filter@)->Object_0);
    Json::object(fields)
}

impl HostsHandler {
    /// Reads the arguments of a listing of hosts, at the two given moments,
    /// into the request to send and what shapes its answer.
    pub fn list(client: &DatadogClient, params: &Json, from_now: (i64, u32), to_now: (i64, u32)) -> (outcome:
        Result<HostsListing, DatadogError>)
        ensures
            match outcome {
                Ok(listing) => {
                    &&& time_range(params@, from_now, to_now) is Ok
                    &&& listing.request@ == hosts_request(
                        client@,
                        params@,
                        time_range(params@, from_now, to_now)->Ok_0->from,
                    )
                    &&& listing.tag_filter@ == tag_filter_of(params@, client@.tag_filter)
                },
                Err(failure) => time_range(params@, from_now, to_now) == Err::<
                    TimeParams,
                    DatadogErrorView,
                >(failure@),
            },
    {
        let filter = copy_text_field(params, "filter");
        let sort_field = copy_text_field(params, "sort_field");
        let sort_dir = copy_text_field(params, "sort_dir");
        let from = match read_time_range(params, from_now, to_now) {
            Ok(TimeParams::Timestamp { from, to }) => from,
            Err(failure) => {
                return Err(failure);
            },
        };
        let start = match params.get_i64("start") {
            Some(n) => Some(
                #[verifier::truncate]
                (n as i32),
            ),
            None => None,
        };
        let count = match params.get_i64("count") {
            Some(n) => Some(
                #[verifier::truncate]
                (n as i32),
            ),
            None => Some(100),
        };
        let request = client.list_hosts(filter, Some(from), sort_field, sort_dir, start, count);
        Ok(HostsListing { request, tag_filter: choose_tag_filter(params, client.get_tag_filter()) })
    }

    /// Shapes the answer to a listing of hosts.
    pub fn list_response(listing: &HostsListing, response: &HostsResponse) -> (json: Json)
        ensures
            json@ == hosts_response(*response, listing.tag_filter@),
    {
        let handler = HostsHandler;
        let mut hosts: Vec<Json> = Vec::new();
        let mut i: usize = 0;
        while i < response.host_list.len()
            invariant
                i <= response.host_list.len(),
                hosts.len() == i,
                forall|j: int|
                    0 <= j < i ==> hosts@[j]@ == host_json(
                        response.host_list@[j],
                        listing.tag_filter@,
                    ),
            decreases response.host_list.len() - i,
        {
            hosts.push(build_host(&response.host_list[i], listing.tag_filter.as_str()));
            i = i + 1;
        }
        proof {
            assert(crate::json::view_items(hosts@) =~= Seq::new(
                response.host_list@.len(),
                |i: int| host_json(response.host_list@[i], listing.tag_filter@),
            ));
        }
        let mut meta: Vec<(String, Json)> = Vec::new();
        Json::push_field(&mut meta, "total_matching", Json::integer(response.total_matching));
        Json::push_field(&mut meta, "total_returned", Json::integer(response.total_returned));
        assert(view_fields(meta@) =~= seq![
            (
                "total_matching"@,
                JsonView::Number(JsonNumber::of_int(response.total_matching as int)),
            ),
            (
                "total_returned"@,
                JsonView::Number(JsonNumber::of_int(response.total_returned as int)),
            ),
        ]);
        handler.format_list(Json::array(hosts), None, Some(Json::object(meta)))
    }
}

} // verus!
