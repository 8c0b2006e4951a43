//! The tool for spans.

use crate::datadog::client::opt_pair;
use crate::datadog::client::ApiRequest;
use crate::datadog::client::DatadogClient;
use crate::datadog::client::HttpMethod;
use crate::error::DatadogError;
use crate::error::DatadogErrorView;
use crate::handlers::common::build_page_envelope;
use crate::handlers::common::can_shorten;
use crate::handlers::common::choose_tag_filter;
use crate::handlers::common::filtered_tags;
use crate::handlers::common::page_envelope;
use crate::handlers::common::pagination_of;
use crate::handlers::common::read_rfc3339_range;
use crate::handlers::common::rfc3339_range;
use crate::handlers::common::shorten;
use crate::handlers::common::shortened;
use crate::handlers::common::tag_filter_of;
use crate::handlers::common::truncate_trace;
use crate::handlers::common::truncated_trace;
use crate::handlers::common::truncates_stack_traces;
use crate::handlers::common::PaginationInfo;
use crate::handlers::common::Paginator;
use crate::handlers::common::ResponseFilter;
use crate::handlers::common::ResponseFormatter;
use crate::handlers::common::TagFilter;
use crate::handlers::common::TimeHandler;
use crate::handlers::common::DEFAULT_STACK_TRACE_LINES;
use crate::handlers::common::MAX_STRING_LENGTH;
use crate::handlers::events::copy_text_field;
use crate::json::find_field;
use crate::json::find_text;
use crate::json::object_at;
use crate::json::position_from;
use crate::json::put_value;
use crate::json::remove_fields;
use crate::json::take_object;
use crate::json::text_array;
use crate::json::text_array_json;
use crate::json::text_at;
use crate::json::view_fields;
use crate::json::view_items;
use crate::json::without;
use crate::json::Json;
use crate::json::JsonView;
use crate::text::decimal;
use crate::text::views;
use vstd::prelude::*;
use vstd::string::*;

verus! {

/// The tool for spans.
#[derive(Debug, Clone, Copy)]
pub struct SpansHandler;

impl TimeHandler for SpansHandler {

}

impl Paginator for SpansHandler {

}

impl TagFilter for SpansHandler {

}

impl ResponseFilter for SpansHandler {

}

impl ResponseFormatter for SpansHandler {

}

/// A listing of spans, ready to be sent, with what shapes its answer.
#[derive(Debug)]
pub struct SpansListing {
    pub request: ApiRequest,
    pub tag_filter: String,
    pub page_size: usize,
    pub truncate_stack_traces: bool,
}

/// The fields of a JSON object, as a shorthand.
pub type Fields = Seq<(Seq<char>, JsonView)>;

/// How many spans a listing asks for: the limit that the call names, and
/// the page size where it names none.
pub open spec fn spans_limit(params: JsonView) -> int {
    match params.i64_field("limit"@) {
        Some(n) => n as i32 as int,
        None => pagination_of(params).1 as i32 as int,
    }
}

/// The request of a listing of spans over the given time range.
pub open spec fn spans_request(
    client: crate::datadog::client::DatadogClientView,
    params: JsonView,
    range: (Seq<char>, Seq<char>),
) -> crate::datadog::client::ApiRequestView {
    client.request_for(
        HttpMethod::Get,
        "/api/v2/spans/events"@,
        Some(
            seq![
                ("filter[query]"@, params.text_or("query"@, "*"@)),
                ("filter[from]"@, range.0),
                ("filter[to]"@, range.1),
                ("page[limit]"@, decimal(spans_limit(params))),
            ] + opt_pair("page[cursor]"@, params.text_field("cursor"@)) + opt_pair(
                "sort"@,
                params.text_field("sort"@),
            ),
        ),
        None,
    )
}

/// The texts among the first `upto` items of a list, in order.
pub open spec fn texts_among(items: Seq<JsonView>, upto: int) -> Seq<Seq<char>>
    decreases upto,
{
    if upto <= 0 || upto > items.len() {
        Seq::empty()
    } else {
        match items[upto - 1] {
            JsonView::Str(text) => texts_among(items, upto - 1).push(text),
            _ => texts_among(items, upto - 1),
        }
    }
}

/// The attributes with their tags filtered: where the tags are a list,
/// those of its texts that the filter lets through take its place, and the
/// field is dropped where none is left.
pub open spec fn tags_sifted(attributes: Fields, filter: Seq<char>) -> Fields {
    match position_from(attributes, "tags"@, 0) {
        Some(at) => match attributes[at].1 {
            JsonView::Array(items) => {
                let kept = filtered_tags(texts_among(items, items.len() as int), filter);
                if kept.len() == 0 {
                    without(attributes, "tags"@)
                } else {
                    attributes.update(at, ("tags"@, text_array(kept)))
                }
            },
            _ => attributes,
        },
        None => attributes,
    }
}

/// The attributes without an ingestion reason that says nothing: one that
/// is no text, or the empty text.
pub open spec fn reason_dropped(attributes: Fields) -> Fields {
    match position_from(attributes, "ingestion_reason"@, 0) {
        Some(at) => match attributes[at].1 {
            JsonView::Str(reason) => if reason.len() == 0 {
                without(attributes, "ingestion_reason"@)
            } else {
                attributes
            },
            _ => without(attributes, "ingestion_reason"@),
        },
        None => attributes,
    }
}

/// The custom attributes without the details of the user agent.
pub open spec fn agent_dropped(custom: Fields) -> Fields {
    match position_from(custom, "http"@, 0) {
        Some(at) => custom.update(at, ("http"@, custom[at].1.without_field("useragent_details"@))),
        None => custom,
    }
}

/// The custom attributes with the stack trace of the error cut short.
pub open spec fn stack_cut(custom: Fields) -> Fields {
    match object_at(custom, "error"@) {
        Some((at, error)) => match text_at(error, "stack"@) {
            Some((stack_at, stack)) => custom.update(
                at,
                (
                    "error"@,
                    JsonView::Object(
                        error.update(
                            stack_at,
                            (
                                "stack"@,
                                JsonView::Str(
                                    truncated_trace(stack, DEFAULT_STACK_TRACE_LINES as nat),
                                ),
                            ),
                        ),
                    ),
                ),
            ),
            None => custom,
        },
        None => custom,
    }
}

/// The bootstrap settings with the list of servers cut short, where it
/// can be cut.
pub open spec fn servers_cut(bootstrap: Fields) -> Fields {
    match text_at(bootstrap, "servers"@) {
        Some((at, servers)) => if can_shorten(servers, MAX_STRING_LENGTH as int) {
            bootstrap.update(
                at,
                ("servers"@, JsonView::Str(shortened(servers, MAX_STRING_LENGTH as int))),
            )
        } else {
            bootstrap
        },
        None => bootstrap,
    }
}

/// The Kafka settings with the list of bootstrap servers cut short.
pub open spec fn bootstrap_cut(kafka: Fields) -> Fields {
    match object_at(kafka, "bootstrap"@) {
        Some((at, bootstrap)) => kafka.update(
            at,
            ("bootstrap"@, JsonView::Object(servers_cut(bootstrap))),
        ),
        None => kafka,
    }
}

/// The messaging settings with the list of Kafka bootstrap servers cut
/// short.
pub open spec fn kafka_cut(messaging: Fields) -> Fields {
    match object_at(messaging, "kafka"@) {
        Some((at, kafka)) => messaging.update(at, ("kafka"@, JsonView::Object(bootstrap_cut(kafka)))),
        None => messaging,
    }
}

/// The custom attributes with the list of Kafka bootstrap servers cut
/// short.
pub open spec fn messaging_cut(custom: Fields) -> Fields {
    match object_at(custom, "messaging"@) {
        Some((at, messaging)) => custom.update(
            at,
            ("messaging"@, JsonView::Object(kafka_cut(messaging))),
        ),
        None => custom,
    }
}

/// The custom attributes as they are reported.
pub open spec fn custom_trimmed(custom: Fields, truncate: bool) -> Fields {
    messaging_cut(
        if truncate {
            stack_cut(agent_dropped(custom))
        } else {
            agent_dropped(custom)
        },
    )
}

/// The attributes with their custom attributes trimmed.
pub open spec fn custom_step(attributes: Fields, truncate: bool) -> Fields {
    match object_at(attributes, "custom"@) {
        Some((at, custom)) => attributes.update(
            at,
            ("custom"@, JsonView::Object(custom_trimmed(custom, truncate))),
        ),
        None => attributes,
    }
}

/// The attributes of a span as they are reported.
pub open spec fn attributes_trimmed(attributes: Fields, filter: Seq<char>, truncate: bool) -> Fields {
    custom_step(reason_dropped(tags_sifted(attributes, filter)), truncate)
}

/// A span as it is reported: an object has its attributes trimmed, where
/// they are an object; anything else is left as it is.
pub open spec fn span_trimmed(span: JsonView, filter: Seq<char>, truncate: bool) -> JsonView {
    match span {
        JsonView::Object(fields) => match object_at(fields, "attributes"@) {
            Some((at, attributes)) => JsonView::Object(
                fields.update(
                    at,
                    ("attributes"@, JsonView::Object(attributes_trimmed(attributes, filter, truncate))),
                ),
            ),
            None => span,
        },
        _ => span,
    }
}

/// The spans of an answer.
pub open spec fn spans_of(response: JsonView) -> Seq<JsonView> {
    match response.array_field("data"@) {
        Some(spans) => spans,
        None => Seq::empty(),
    }
}

/// Whether an answer says that more spans follow.
pub open spec fn spans_continue(response: JsonView) -> bool {
    match response.field("meta"@) {
        Some(meta) => match meta.field("page"@) {
            Some(page) => page.field("after"@) is Some,
            None => false,
        },
        None => false,
    }
}

/// The response to a listing of spans.
pub open spec fn spans_response(response: JsonView, filter: Seq<char>, page_size: usize, truncate: bool) -> JsonView {
    page_envelope(
        JsonView::Array(
            Seq::new(
                spans_of(response).len(),
                |i: int| span_trimmed(spans_of(response)[i], filter, truncate),
            ),
        ),
        PaginationInfo {
            total: spans_of(response).len() as usize,
            page: 0,
            page_size,
            has_next: spans_continue(response),
            next_offset: None,
        },
    )
}

/// Collects the texts among the items of a list.
fn collect_texts(items: &Vec<Json>) -> (texts: Vec<String>)
    ensures
        views(texts@) == texts_among(view_items(items@), items@.len() as int),
{
    let mut texts: Vec<String> = Vec::new();
    let mut i: usize = 0;
    assert(views(texts@) =~= Seq::empty());
    while i < items.len()
        invariant
            i <= items.len(),
            views(texts@) == texts_among(view_items(items@), i as int),
        decreases items.len() - i,
    {
        match &items[i] {
            Json::Str(text) => {
                texts.push(text.clone());
                assert(views(texts@) =~= texts_among(view_items(items@), i as int).push(text@));
            },
            _ => {},
        }
        i = i + 1;
    }
    texts
}

/// Filters the tags among the attributes of a span.
fn sift_tags(attributes: &mut Vec<(String, Json)>, filter: &str)
    ensures
        view_fields(final(attributes)@) == tags_sifted(view_fields(old(attributes)@), filter@),
{
    let handler = SpansHandler;
    let at = match find_field(attributes, "tags") {
        Some(at) => at,
        None => {
            return ;
        },
    };
    let kept = match &attributes[at].1 {
        Json::Array(items) => {
            proof {
                Json::lemma_array_view(*items);
            }
            let texts = collect_texts(items);
            handler.filter_tags(texts.as_slice(), filter)
        },
        _ => {
            return ;
        },
    };
    if kept.len() == 0 {
        remove_fields(attributes, "tags");
    } else {
        put_value(attributes, at, "tags", text_array_json(&kept));
    }
}

/// Drops an ingestion reason that says nothing.
fn drop_reason(attributes: &mut Vec<(String, Json)>)
    ensures
        view_fields(final(attributes)@) == reason_dropped(view_fields(old(attributes)@)),
{
    let at = match find_field(attributes, "ingestion_reason") {
        Some(at) => at,
        None => {
            return ;
        },
    };
    let says_nothing = match &attributes[at].1 {
        Json::Str(reason) => reason.as_str().is_empty(),
        _ => true,
    };
    if says_nothing {
        remove_fields(attributes, "ingestion_reason");
    }
}

/// Drops the details of the user agent.
fn drop_agent(custom: &mut Vec<(String, Json)>)
    ensures
        view_fields(final(custom)@) == agent_dropped(view_fields(old(custom)@)),
{
    let handler = SpansHandler;
    let at = match find_field(custom, "http") {
        Some(at) => at,
        None => {
            return ;
        },
    };
    let (_, mut http) = custom.remove(at);
    handler.filter_http_verbose_fields(&mut http);
    custom.insert(at, ("http".to_string(), http));
    assert(view_fields(custom@) =~= agent_dropped(view_fields(old(custom)@)));
}

/// Cuts the stack trace of the error short.
fn cut_stack(custom: &mut Vec<(String, Json)>)
    ensures
        view_fields(final(custom)@) == stack_cut(view_fields(old(custom)@)),
{
    let (at, mut error) = match take_object(custom, "error") {
        Some(taken) => taken,
        None => {
            return ;
        },
    };
    match find_text(&error, "stack") {
        Some((stack_at, stack)) => {
            let short = truncate_trace(stack.as_str(), DEFAULT_STACK_TRACE_LINES);
            put_value(&mut error, stack_at, "stack", Json::Str(short));
        },
        None => {},
    }
    put_value(custom, at, "error", Json::object(error));
    proof {
        crate::json::lemma_position(view_fields(old(custom)@), "error"@, 0);
        assert(view_fields(custom@) =~= stack_cut(view_fields(old(custom)@)));
    }
}

/// Cuts the list of servers short, where it can be cut.
fn cut_servers(bootstrap: &mut Vec<(String, Json)>)
    ensures
        view_fields(final(bootstrap)@) == servers_cut(view_fields(old(bootstrap)@)),
{
    match find_text(bootstrap, "servers") {
        Some((at, servers)) => {
            let bytes = servers.as_str().as_bytes().len();
            if bytes <= MAX_STRING_LENGTH || servers.as_str().is_char_boundary(MAX_STRING_LENGTH) {
                let short = shorten(servers.as_str(), MAX_STRING_LENGTH);
                put_value(bootstrap, at, "servers", Json::Str(short));
            }
        },
        None => {},
    }
}

/// Cuts the list of bootstrap servers short.
fn cut_bootstrap(kafka: &mut Vec<(String, Json)>)
    ensures
        view_fields(final(kafka)@) == bootstrap_cut(view_fields(old(kafka)@)),
{
    match take_object(kafka, "bootstrap") {
        Some((at, mut bootstrap)) => {
            cut_servers(&mut bootstrap);
            put_value(kafka, at, "bootstrap", Json::object(bootstrap));
            proof {
                crate::json::lemma_position(view_fields(old(kafka)@), "bootstrap"@, 0);
                assert(view_fields(kafka@) =~= bootstrap_cut(view_fields(old(kafka)@)));
            }
        },
        None => {},
    }
}

/// Cuts the list of Kafka bootstrap servers short.
fn cut_kafka(messaging: &mut Vec<(String, Json)>)
    ensures
        view_fields(final(messaging)@) == kafka_cut(view_fields(old(messaging)@)),
{
    match take_object(messaging, "kafka") {
        Some((at, mut kafka)) => {
            cut_bootstrap(&mut kafka);
            put_value(messaging, at, "kafka", Json::object(kafka));
            proof {
                crate::json::lemma_position(view_fields(old(messaging)@), "kafka"@, 0);
                assert(view_fields(messaging@) =~= kafka_cut(view_fields(old(messaging)@)));
            }
        },
        None => {},
    }
}

/// Cuts the list of Kafka bootstrap servers among the custom attributes
/// short.
fn cut_messaging(custom: &mut Vec<(String, Json)>)
    ensures
        view_fields(final(custom)@) == messaging_cut(view_fields(old(custom)@)),
{
    match take_object(custom, "messaging") {
        Some((at, mut messaging)) => {
            cut_kafka(&mut messaging);
            put_value(custom, at, "messaging", Json::object(messaging));
            proof {
                crate::json::lemma_position(view_fields(old(custom)@), "messaging"@, 0);
                assert(view_fields(custom@) =~= messaging_cut(view_fields(old(custom)@)));
            }
        },
        None => {},
    }
}

/// Trims the custom attributes among the attributes of a span.
fn trim_custom(attributes: &mut Vec<(String, Json)>, truncate: bool)
    ensures
        view_fields(final(attributes)@) == custom_step(view_fields(old(attributes)@), truncate),
{
    match take_object(attributes, "custom") {
        Some((at, mut custom)) => {
            drop_agent(&mut custom);
            if truncate {
                cut_stack(&mut custom);
            }
            cut_messaging(&mut custom);
            put_value(attributes, at, "custom", Json::object(custom));
            proof {
                crate::json::lemma_position(view_fields(old(attributes)@), "custom"@, 0);
                assert(view_fields(attributes@) =~= custom_step(
                    view_fields(old(attributes)@),
                    truncate,
                ));
            }
        },
        None => {},
    }
}

/// Trims a span.
fn trim_span(span: &Json, filter: &str, truncate: bool) -> (trimmed: Json)
    ensures
        trimmed@ == span_trimmed(span@, filter@, truncate),
{
    let mut fields = match span.clone() {
        Json::Object(fields) => {
            proof {
                Json::lemma_object_view(fields);
            }
            fields
        },
        other => {
            return other;
        },
    };
    let ghost before = view_fields(fields@);
    match take_object(&mut fields, "attributes") {
        Some((at, mut attributes)) => {
            sift_tags(&mut attributes, filter);
            drop_reason(&mut attributes);
            trim_custom(&mut attributes, truncate);
            put_value(&mut fields, at, "attributes", Json::object(attributes));
            proof {
                crate::json::lemma_position(before, "attributes"@, 0);
                assert(view_fields(fields@) =~= span_trimmed(span@, filter@, truncate)->Object_0);
            }
        },
        None => {},
    }
    Json::object(fields)
}

impl SpansHandler {
    /// Reads the arguments of a listing of spans, at the two given
    /// moments, into the request to send and what shapes its answer.
    pub fn list(client: &DatadogClient, params: &Json, from_now: (i64, u32), to_now: (i64, u32)) -> (outcome:
        Result<SpansListing, DatadogError>)
        ensures
            match outcome {
                Ok(listing) => {
                    &&& rfc3339_range(params@, from_now, to_now) is Ok
                    &&& listing.request@ == spans_request(
                        client@,
                        params@,
                        rfc3339_range(params@, from_now, to_now)->Ok_0,
                    )
                    &&& listing.tag_filter@ == tag_filter_of(params@, client@.tag_filter)
                    &&& listing.page_size == pagination_of(params@).1
                    &&& listing.truncate_stack_traces == truncates_stack_traces(params@)
                },
                Err(failure) => rfc3339_range(params@, from_now, to_now) == Err::<
                    (Seq<char>, Seq<char>),
                    DatadogErrorView,
                >(failure@),
            },
    {
        let handler = SpansHandler;
        let query = params.get_str_or("query", "*");
        let (from, to) = match read_rfc3339_range(params, from_now, to_now) {
            Ok(range) => range,
            Err(failure) => {
                return Err(failure);
            },
        };
        let (_, page_size) = handler.parse_pagination(params);
        let limit = match params.get_i64("limit") {
            Some(n) => #[verifier::truncate]
            (n as i32),
            None => #[verifier::truncate]
            (page_size as i32),
        };
        let request = client.list_spans(
            query,
            from.as_str(),
            to.as_str(),
            Some(limit),
            copy_text_field(params, "cursor"),
            copy_text_field(params, "sort"),
        );
        proof {
            assert(limit as int == spans_limit(params@));
            assert(request@.query == spans_request(client@, params@, (from@, to@)).query);
        }
        Ok(
            SpansListing {
                request,
                tag_filter: choose_tag_filter(params, client.get_tag_filter()),
                page_size,
                truncate_stack_traces: handler.should_truncate_stack_trace(params),
            },
        )
    }

    /// Shapes the answer to a listing of spans.
    pub fn list_response(listing: &SpansListing, response: &Json) -> (json: Json)
        ensures
            json@ == spans_response(
                response@,
                listing.tag_filter@,
                listing.page_size,
                listing.truncate_stack_traces,
            ),
    {
        let mut spans: Vec<Json> = Vec::new();
        match response.get_array("data") {
            Some(items) => {
                let mut i: usize = 0;
                while i < items.len()
                    invariant
                        i <= items.len(),
                        spans.len() == i,
                        forall|j: int|
                            0 <= j < i ==> spans@[j]@ == span_trimmed(
                                items@[j]@,
                                listing.tag_filter@,
                                listing.truncate_stack_traces,
                            ),
                    decreases items.len() - i,
                {
                    spans.push(
                        trim_span(
                            &items[i],
                            listing.tag_filter.as_str(),
                            listing.truncate_stack_traces,
                        ),
                    );
                    i = i + 1;
                }
            },
            None => {},
        }
        let more = match response.get("meta") {
            Some(meta) => match meta.get("page") {
                Some(page) => page.get("after").is_some(),
                None => false,
            },
            None => false,
        };
        let pagination = PaginationInfo::from_cursor(spans.len(), listing.page_size, more);
        proof {
            assert(view_items(spans@) =~= Seq::new(
                spans_of(response@).len(),
                |i: int|
                    span_trimmed(
                        spans_of(response@)[i],
                        listing.tag_filter@,
                        listing.truncate_stack_traces,
                    ),
            ));
        }
        build_page_envelope(Json::array(spans), &pagination)
    }
}

} // verus!
