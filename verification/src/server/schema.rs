//! The answer to `tools/list`: the catalog of the tools and of their
//! arguments.

use crate::json::view_fields;
use crate::json::view_items;
use crate::json::view_opt;
use crate::json::Json;
use crate::json::JsonNumber;
use crate::json::JsonView;
use crate::server::protocol::clone_id;
use crate::server::protocol::object1;
use crate::server::protocol::success_response;
use crate::server::protocol::tools_list_dispatch;
use crate::server::protocol::Dispatch;
use crate::server::protocol::JsonRpcRequest;
use crate::server::protocol::JsonRpcResponse;
use crate::server::protocol::Server;
use crate::server::protocol::NOT_INITIALIZED;
use crate::server::router::Tool;
use crate::text::join;
use vstd::prelude::*;
use vstd::string::*;

verus! {

/// The tools that the catalog lists, in its order.
pub open spec fn listed_tools() -> Seq<Tool> {
    seq![
        Tool::MetricsQuery,
        Tool::LogsSearch,
        Tool::MonitorsList,
        Tool::MonitorsGet,
        Tool::EventsQuery,
        Tool::HostsList,
        Tool::DashboardsList,
        Tool::DashboardsGet,
        Tool::SpansSearch,
        Tool::ServicesList,
        Tool::LogsAggregate,
        Tool::LogsTimeseries,
    ]
}

/// The arguments that each listed tool takes: the name of each and the
/// type of its values, in the order in which the catalog declares them.
pub open spec fn declared_arguments(tool: Tool) -> Seq<(Seq<char>, Seq<char>)> {
    match tool {
        Tool::MetricsQuery => seq![
            ("query"@, "string"@),
            ("from"@, "string"@),
            ("to"@, "string"@),
            ("max_points"@, "integer"@),
        ],
        Tool::LogsSearch => seq![
            ("query"@, "string"@),
            ("from"@, "string"@),
            ("to"@, "string"@),
            ("limit"@, "integer"@),
            ("tag_filter"@, "string"@),
        ],
        Tool::MonitorsList => seq![
            ("tags"@, "string"@),
            ("monitor_tags"@, "string"@),
            ("page"@, "integer"@),
            ("page_size"@, "integer"@),
        ],
        Tool::MonitorsGet => seq![
            ("monitor_id"@, "integer"@),
        ],
        Tool::EventsQuery => seq![
            ("from"@, "string"@),
            ("to"@, "string"@),
            ("priority"@, "string"@),
            ("sources"@, "string"@),
            ("tags"@, "string"@),
            ("page"@, "integer"@),
            ("page_size"@, "integer"@),
        ],
        Tool::HostsList => seq![
            ("filter"@, "string"@),
            ("from"@, "string"@),
            ("sort_field"@, "string"@),
            ("sort_dir"@, "string"@),
            ("start"@, "integer"@),
            ("count"@, "integer"@),
            ("tag_filter"@, "string"@),
        ],
        Tool::DashboardsList => seq![
            ("page"@, "integer"@),
            ("page_size"@, "integer"@),
        ],
        Tool::DashboardsGet => seq![
            ("dashboard_id"@, "string"@),
        ],
        Tool::SpansSearch => seq![
            ("query"@, "string"@),
            ("from"@, "string"@),
            ("to"@, "string"@),
            ("limit"@, "integer"@),
            ("cursor"@, "string"@),
            ("sort"@, "string"@),
            ("page"@, "integer"@),
            ("page_size"@, "integer"@),
            ("tag_filter"@, "string"@),
        ],
        Tool::ServicesList => seq![
            ("env"@, "string"@),
            ("page"@, "integer"@),
            ("page_size"@, "integer"@),
        ],
        Tool::LogsAggregate => seq![
            ("query"@, "string"@),
            ("from"@, "string"@),
            ("to"@, "string"@),
            ("compute"@, "array"@),
            ("group_by"@, "array"@),
            ("timezone"@, "string"@),
        ],
        Tool::LogsTimeseries => seq![
            ("query"@, "string"@),
            ("from"@, "string"@),
            ("to"@, "string"@),
            ("interval"@, "string"@),
            ("aggregation"@, "string"@),
            ("metric"@, "string"@),
            ("group_by"@, "array"@),
            ("timezone"@, "string"@),
        ],
        Tool::RumEventsSearch => Seq::empty(),
    }
}

/// The arguments without which a listed tool cannot be called.
pub open spec fn required_arguments(tool: Tool) -> Seq<Seq<char>> {
    match tool {
        Tool::MetricsQuery => seq!["query"@],
        Tool::LogsSearch => seq!["query"@],
        Tool::MonitorsGet => seq!["monitor_id"@],
        Tool::DashboardsGet => seq!["dashboard_id"@],
        Tool::SpansSearch => seq!["from"@, "to"@],
        Tool::LogsAggregate => seq!["from"@, "to"@],
        Tool::LogsTimeseries => seq!["from"@, "to"@],
        _ => Seq::empty(),
    }
}

/// Whether a listed tool takes a tag filter as its last argument.
pub open spec fn takes_tag_filter(tool: Tool) -> bool {
    tool == Tool::LogsSearch || tool == Tool::HostsList || tool == Tool::SpansSearch
}

/// The schema of an argument that is a text.
pub open spec fn text_schema(description: Seq<char>) -> JsonView {
    JsonView::Object(
        seq![("type"@, JsonView::Str("string"@)), ("description"@, JsonView::Str(description))],
    )
}

/// What a list of properties declares: the name of each and the type that
/// its schema gives.
pub open spec fn declarations(properties: Seq<(Seq<char>, JsonView)>) -> Seq<(Seq<char>, Seq<char>)> {
    Seq::new(
        properties.len(),
        |i: int| (properties[i].0, properties[i].1.text_or("type"@, Seq::empty())),
    )
}

/// The list of the given texts.
pub open spec fn text_list(texts: Seq<Seq<char>>) -> JsonView {
    JsonView::Array(Seq::new(texts.len(), |i: int| JsonView::Str(texts[i])))
}

/// The schema of an object with the given properties, of which those
/// named must be given; where none must, the schema names none.
pub open spec fn object_schema(properties: Seq<(Seq<char>, JsonView)>, required: Seq<JsonView>) -> JsonView {
    JsonView::Object(
        seq![("type"@, JsonView::Str("object"@)), ("properties"@, JsonView::Object(properties))]
            + if required.len() > 0 {
            seq![("required"@, JsonView::Array(required))]
        } else {
            Seq::empty()
        },
    )
}

/// Whether a schema is that of the arguments of `tool`: it declares the
/// tool's arguments with their types, names those that must be given, and
/// describes the tag filter, where the tool takes one, by `note`.
pub open spec fn is_schema_of(schema: JsonView, tool: Tool, note: Seq<char>) -> bool {
    exists|properties: Seq<(Seq<char>, JsonView)>|
        {
            &&& schema == #[trigger] object_schema(
                properties,
                text_list(required_arguments(tool))->Array_0,
            )
            &&& declarations(properties) == declared_arguments(tool)
            &&& takes_tag_filter(tool) ==> properties.last() == ("tag_filter"@, text_schema(note))
        }
}

/// Whether a catalog entry is that of `tool`: its name is the name under
/// which the tool is called, it has a description, and its schema is that
/// of the tool's arguments.
pub open spec fn is_entry_of(entry: JsonView, tool: Tool, note: Seq<char>) -> bool {
    &&& entry matches JsonView::Object(fields)
    &&& fields.len() == 3
    &&& fields[0] == ("name"@, JsonView::Str(tool.name_text()))
    &&& fields[1].0 == "description"@
    &&& fields[1].1 is Str
    &&& fields[2].0 == "inputSchema"@
    &&& is_schema_of(fields[2].1, tool, note)
}

/// Whether a value is the catalog: one entry for each listed tool, in
/// order. `note` is what the catalog says of the tag filter.
pub open spec fn lists_tools(catalog: JsonView, note: Seq<char>) -> bool {
    &&& catalog matches JsonView::Array(entries)
    &&& entries.len() == listed_tools().len()
    &&& forall|i: int|
        0 <= i < entries.len() ==> is_entry_of(#[trigger] entries[i], listed_tools()[i], note)
}

/// Every tool that the catalog lists can be called: its name in the
/// catalog is one that the router knows, and it leads to that tool.
pub proof fn lemma_listed_tools_are_routable(catalog: JsonView, note: Seq<char>, i: int)
    requires
        lists_tools(catalog, note),
        0 <= i < listed_tools().len(),
    ensures
        catalog->Array_0[i].text_field("name"@) == Some(listed_tools()[i].name_text()),
        Tool::named(listed_tools()[i].name_text()) == Some(listed_tools()[i]),
{
    crate::server::router::lemma_tools_route_by_name(listed_tools()[i]);
    assert(is_entry_of(catalog->Array_0[i], listed_tools()[i], note));
}

/// What the catalog says of the tag filter, given the default in force.
pub open spec fn tag_filter_note_of(default: Option<Seq<char>>) -> Seq<char> {
    "Comma-separated tag prefixes to include (e.g., 'env:,service:,version:'). Use '*' for all tags (default), '' (empty) to exclude all tags. Current default: '"@
        + match default {
        Some(filter) => filter,
        None => "*"@,
    } + "'"@
}

/// An argument that is a text.
fn text_argument(description: &str) -> (schema: Json)
    ensures
        schema@ == text_schema(description@),
{
    let mut fields: Vec<(String, Json)> = Vec::new();
    Json::push_field(&mut fields, "type", Json::text("string"));
    Json::push_field(&mut fields, "description", Json::text(description));
    assert(view_fields(fields@) =~= seq![
        ("type"@, JsonView::Str("string"@)),
        ("description"@, JsonView::Str(description@)),
    ]);
    Json::object(fields)
}

/// An argument that is a text, with the value that stands in where it is
/// not given.
fn text_argument_or(description: &str, default: &str) -> (schema: Json)
    ensures
        schema@ == JsonView::Object(
            seq![
                ("type"@, JsonView::Str("string"@)),
                ("description"@, JsonView::Str(description@)),
                ("default"@, JsonView::Str(default@)),
            ],
        ),
{
    let mut fields: Vec<(String, Json)> = Vec::new();
    Json::push_field(&mut fields, "type", Json::text("string"));
    Json::push_field(&mut fields, "description", Json::text(description));
    Json::push_field(&mut fields, "default", Json::text(default));
    assert(view_fields(fields@) =~= seq![
        ("type"@, JsonView::Str("string"@)),
        ("description"@, JsonView::Str(description@)),
        ("default"@, JsonView::Str(default@)),
    ]);
    Json::object(fields)
}

/// An argument that is a whole number.
fn integer_argument(description: &str) -> (schema: Json)
    ensures
        schema@ == JsonView::Object(
            seq![("type"@, JsonView::Str("integer"@)), ("description"@, JsonView::Str(description@))],
        ),
{
    let mut fields: Vec<(String, Json)> = Vec::new();
    Json::push_field(&mut fields, "type", Json::text("integer"));
    Json::push_field(&mut fields, "description", Json::text(description));
    assert(view_fields(fields@) =~= seq![
        ("type"@, JsonView::Str("integer"@)),
        ("description"@, JsonView::Str(description@)),
    ]);
    Json::object(fields)
}

/// An argument that is a whole number, with the value that stands in
/// where it is not given.
fn integer_argument_or(description: &str, default: u64) -> (schema: Json)
    ensures
        schema@ == JsonView::Object(
            seq![
                ("type"@, JsonView::Str("integer"@)),
                ("description"@, JsonView::Str(description@)),
                ("default"@, JsonView::Number(JsonNumber::PosInt(default))),
            ],
        ),
{
    let mut fields: Vec<(String, Json)> = Vec::new();
    Json::push_field(&mut fields, "type", Json::text("integer"));
    Json::push_field(&mut fields, "description", Json::text(description));
    Json::push_field(&mut fields, "default", Json::unsigned(default));
    assert(view_fields(fields@) =~= seq![
        ("type"@, JsonView::Str("integer"@)),
        ("description"@, JsonView::Str(description@)),
        ("default"@, JsonView::Number(JsonNumber::PosInt(default))),
    ]);
    Json::object(fields)
}

/// The schema of a record with the given fields, each with its type.
fn record_of(fields: &[(&str, &str)]) -> (schema: Json)
    ensures
        schema@ is Object,
{
    let mut properties: Vec<(String, Json)> = Vec::new();
    let mut i: usize = 0;
    while i < fields.len()
        invariant
            i <= fields.len(),
        decreases fields.len() - i,
    {
        let (name, kind) = fields[i];
        Json::push_field(&mut properties, name, Json::singleton("type", Json::text(kind)));
        i = i + 1;
    }
    let mut schema: Vec<(String, Json)> = Vec::new();
    Json::push_field(&mut schema, "type", Json::text("object"));
    Json::push_field(&mut schema, "properties", Json::object(properties));
    Json::object(schema)
}

/// An argument that is a list of items of the given schema.
fn list_argument(description: &str, items: Json) -> (schema: Json)
    ensures
        schema@ == JsonView::Object(
            seq![
                ("type"@, JsonView::Str("array"@)),
                ("description"@, JsonView::Str(description@)),
                ("items"@, items@),
            ],
        ),
{
    let mut fields: Vec<(String, Json)> = Vec::new();
    Json::push_field(&mut fields, "type", Json::text("array"));
    Json::push_field(&mut fields, "description", Json::text(description));
    Json::push_field(&mut fields, "items", items);
    assert(view_fields(fields@) =~= seq![
        ("type"@, JsonView::Str("array"@)),
        ("description"@, JsonView::Str(description@)),
        ("items"@, items@),
    ]);
    Json::object(fields)
}

/// The schema of the arguments of a tool: an object with the given
/// properties, of which those named must be given.
fn arguments(properties: Vec<(String, Json)>, required: Vec<Json>) -> (schema: Json)
    ensures
        schema@ == object_schema(view_fields(properties@), view_items(required@)),
{
    let ghost declared = view_fields(properties@);
    let ghost named = view_items(required@);
    let mut schema: Vec<(String, Json)> = Vec::new();
    Json::push_field(&mut schema, "type", Json::text("object"));
    Json::push_field(&mut schema, "properties", Json::object(properties));
    if required.len() > 0 {
        Json::push_field(&mut schema, "required", Json::array(required));
    }
    proof {
        assert(view_fields(schema@) =~= object_schema(declared, named)->Object_0);
    }
    Json::object(schema)
}

/// The list of the one argument that must be given.
fn one_required(name: &str) -> (required: Vec<Json>)
    ensures
        view_items(required@) == text_list(seq![name@])->Array_0,
{
    let mut required: Vec<Json> = Vec::new();
    required.push(Json::text(name));
    assert(view_items(required@) =~= text_list(seq![name@])->Array_0);
    required
}

/// The list of the two arguments that must be given.
fn two_required(first: &str, second: &str) -> (required: Vec<Json>)
    ensures
        view_items(required@) == text_list(seq![first@, second@])->Array_0,
{
    let mut required: Vec<Json> = Vec::new();
    required.push(Json::text(first));
    required.push(Json::text(second));
    assert(view_items(required@) =~= text_list(seq![first@, second@])->Array_0);
    required
}

/// The list that says that no argument must be given.
fn none_required() -> (required: Vec<Json>)
    ensures
        view_items(required@) == text_list(Seq::empty())->Array_0,
{
    let required: Vec<Json> = Vec::new();
    assert(view_items(required@) =~= text_list(Seq::empty())->Array_0);
    required
}

/// The catalog entry of a tool.
fn tool_entry(tool: Tool, description: &str, schema: Json) -> (entry: Json)
    ensures
        entry@ == JsonView::Object(
            seq![
                ("name"@, JsonView::Str(tool.name_text())),
                ("description"@, JsonView::Str(description@)),
                ("inputSchema"@, schema@),
            ],
        ),
{
    let mut fields: Vec<(String, Json)> = Vec::new();
    Json::push_field(&mut fields, "name", Json::text(tool.name()));
    Json::push_field(&mut fields, "description", Json::text(description));
    Json::push_field(&mut fields, "inputSchema", schema);
    assert(view_fields(fields@) =~= seq![
        ("name"@, JsonView::Str(tool.name_text())),
        ("description"@, JsonView::Str(description@)),
        ("inputSchema"@, schema@),
    ]);
    Json::object(fields)
}

/// The arguments that a query for metrics takes.
fn metrics_query_arguments() -> (schema: Json)
    ensures
        is_schema_of(schema@, Tool::MetricsQuery, Seq::empty()),
{
    let mut properties: Vec<(String, Json)> = Vec::new();
    Json::push_field(
        &mut properties,
        "query",
        text_argument("Metrics query (e.g., 'avg:system.cpu.user{*}')"),
    );
    Json::push_field(
        &mut properties,
        "from",
        text_argument_or("Start time (supports natural language like '1 hour ago', ISO8601 timestamps, or Unix timestamps)", "1 hour ago"),
    );
    Json::push_field(
        &mut properties,
        "to",
        text_argument_or("End time (supports natural language like 'now', ISO8601 timestamps, or Unix timestamps)", "now"),
    );
    Json::push_field(
        &mut properties,
        "max_points",
        integer_argument("Maximum number of data points to return (downsample if exceeded). Useful for large time ranges to reduce response size. If not specified, returns all points from API."),
    );
    let required = one_required("query");
    proof {
        let declared = view_fields(properties@);
        assert(declarations(declared) =~= declared_arguments(Tool::MetricsQuery));
        assert(view_items(required@) == text_list(required_arguments(Tool::MetricsQuery))->Array_0);
    }
    arguments(properties, required)
}

/// The arguments that a log search takes.
fn logs_search_arguments(tag_filter_note: &str) -> (schema: Json)
    ensures
        is_schema_of(schema@, Tool::LogsSearch, tag_filter_note@),
{
    let mut properties: Vec<(String, Json)> = Vec::new();
    Json::push_field(
        &mut properties,
        "query",
        text_argument("Log search query"),
    );
    Json::push_field(
        &mut properties,
        "from",
        text_argument_or("Start time (supports natural language like '1 hour ago', ISO8601, or Unix timestamps)", "1 hour ago"),
    );
    Json::push_field(
        &mut properties,
        "to",
        text_argument_or("End time (supports natural language like 'now', ISO8601, or Unix timestamps)", "now"),
    );
    Json::push_field(
        &mut properties,
        "limit",
        integer_argument_or("Maximum number of logs to return", 10),
    );
    Json::push_field(
        &mut properties,
        "tag_filter",
        text_argument(tag_filter_note),
    );
    let required = one_required("query");
    proof {
        let declared = view_fields(properties@);
        assert(declarations(declared) =~= declared_arguments(Tool::LogsSearch));
        assert(view_items(required@) == text_list(required_arguments(Tool::LogsSearch))->Array_0);
    }
    arguments(properties, required)
}

/// The arguments that a listing of monitors takes.
fn monitors_list_arguments() -> (schema: Json)
    ensures
        is_schema_of(schema@, Tool::MonitorsList, Seq::empty()),
{
    let mut properties: Vec<(String, Json)> = Vec::new();
    Json::push_field(
        &mut properties,
        "tags",
        text_argument("Filter by tags (comma-separated)"),
    );
    Json::push_field(
        &mut properties,
        "monitor_tags",
        text_argument("Filter by monitor tags"),
    );
    Json::push_field(
        &mut properties,
        "page",
        integer_argument_or("Page number (0-based). Page 0 always fetches fresh data from Datadog API.", 0),
    );
    Json::push_field(
        &mut properties,
        "page_size",
        integer_argument_or("Number of monitors per page", 50),
    );
    let required = none_required();
    proof {
        let declared = view_fields(properties@);
        assert(declarations(declared) =~= declared_arguments(Tool::MonitorsList));
        assert(view_items(required@) == text_list(required_arguments(Tool::MonitorsList))->Array_0);
    }
    arguments(properties, required)
}

/// The arguments that a request for one monitor takes.
fn monitors_get_arguments() -> (schema: Json)
    ensures
        is_schema_of(schema@, Tool::MonitorsGet, Seq::empty()),
{
    let mut properties: Vec<(String, Json)> = Vec::new();
    Json::push_field(
        &mut properties,
        "monitor_id",
        integer_argument("Monitor ID"),
    );
    let required = one_required("monitor_id");
    proof {
        let declared = view_fields(properties@);
        assert(declarations(declared) =~= declared_arguments(Tool::MonitorsGet));
        assert(view_items(required@) == text_list(required_arguments(Tool::MonitorsGet))->Array_0);
    }
    arguments(properties, required)
}

/// The arguments that a query for events takes.
fn events_query_arguments() -> (schema: Json)
    ensures
        is_schema_of(schema@, Tool::EventsQuery, Seq::empty()),
{
    let mut properties: Vec<(String, Json)> = Vec::new();
    Json::push_field(
        &mut properties,
        "from",
        text_argument_or("Start time (supports natural language like '1 hour ago', ISO8601, or Unix timestamps)", "1 hour ago"),
    );
    Json::push_field(
        &mut properties,
        "to",
        text_argument_or("End time (supports natural language like 'now', ISO8601, or Unix timestamps)", "now"),
    );
    Json::push_field(
        &mut properties,
        "priority",
        text_argument("Priority filter (normal, low)"),
    );
    Json::push_field(
        &mut properties,
        "sources",
        text_argument("Sources filter"),
    );
    Json::push_field(
        &mut properties,
        "tags",
        text_argument("Tags filter"),
    );
    Json::push_field(
        &mut properties,
        "page",
        integer_argument_or("Page number (0-based). Page 0 always fetches fresh data from Datadog API.", 0),
    );
    Json::push_field(
        &mut properties,
        "page_size",
        integer_argument_or("Number of events per page", 50),
    );
    let required = none_required();
    proof {
        let declared = view_fields(properties@);
        assert(declarations(declared) =~= declared_arguments(Tool::EventsQuery));
        assert(view_items(required@) == text_list(required_arguments(Tool::EventsQuery))->Array_0);
    }
    arguments(properties, required)
}

/// The arguments that a listing of hosts takes.
fn hosts_list_arguments(tag_filter_note: &str) -> (schema: Json)
    ensures
        is_schema_of(schema@, Tool::HostsList, tag_filter_note@),
{
    let mut properties: Vec<(String, Json)> = Vec::new();
    Json::push_field(
        &mut properties,
        "filter",
        text_argument("Host filter query"),
    );
    Json::push_field(
        &mut properties,
        "from",
        text_argument_or("From time (supports natural language like '1 hour ago', ISO8601, or Unix timestamps)", "1 hour ago"),
    );
    Json::push_field(
        &mut properties,
        "sort_field",
        text_argument("Sort field"),
    );
    Json::push_field(
        &mut properties,
        "sort_dir",
        text_argument("Sort direction (asc, desc)"),
    );
    Json::push_field(
        &mut properties,
        "start",
        integer_argument_or("Starting index for pagination", 0),
    );
    Json::push_field(
        &mut properties,
        "count",
        integer_argument_or("Number of hosts to return (max 1000)", 100),
    );
    Json::push_field(
        &mut properties,
        "tag_filter",
        text_argument(tag_filter_note),
    );
    let required = none_required();
    proof {
        let declared = view_fields(properties@);
        assert(declarations(declared) =~= declared_arguments(Tool::HostsList));
        assert(view_items(required@) == text_list(required_arguments(Tool::HostsList))->Array_0);
    }
    arguments(properties, required)
}

/// The arguments that a listing of dashboards takes.
fn dashboards_list_arguments() -> (schema: Json)
    ensures
        is_schema_of(schema@, Tool::DashboardsList, Seq::empty()),
{
    let mut properties: Vec<(String, Json)> = Vec::new();
    Json::push_field(
        &mut properties,
        "page",
        integer_argument_or("Page number (0-based). Page 0 fetches fresh data from Datadog API.", 0),
    );
    Json::push_field(
        &mut properties,
        "page_size",
        integer_argument_or("Number of dashboards per page", 50),
    );
    let required = none_required();
    proof {
        let declared = view_fields(properties@);
        assert(declarations(declared) =~= declared_arguments(Tool::DashboardsList));
        assert(view_items(required@) == text_list(required_arguments(Tool::DashboardsList))->Array_0);
    }
    arguments(properties, required)
}

/// The arguments that a request for one dashboard takes.
fn dashboards_get_arguments() -> (schema: Json)
    ensures
        is_schema_of(schema@, Tool::DashboardsGet, Seq::empty()),
{
    let mut properties: Vec<(String, Json)> = Vec::new();
    Json::push_field(
        &mut properties,
        "dashboard_id",
        text_argument("Dashboard ID"),
    );
    let required = one_required("dashboard_id");
    proof {
        let declared = view_fields(properties@);
        assert(declarations(declared) =~= declared_arguments(Tool::DashboardsGet));
        assert(view_items(required@) == text_list(required_arguments(Tool::DashboardsGet))->Array_0);
    }
    arguments(properties, required)
}

/// The arguments that a listing of spans takes.
fn spans_search_arguments(tag_filter_note: &str) -> (schema: Json)
    ensures
        is_schema_of(schema@, Tool::SpansSearch, tag_filter_note@),
{
    let mut properties: Vec<(String, Json)> = Vec::new();
    Json::push_field(
        &mut properties,
        "query",
        text_argument_or("Spans search query", "*"),
    );
    Json::push_field(
        &mut properties,
        "from",
        text_argument("Start time (e.g., '1 hour ago', timestamp)"),
    );
    Json::push_field(
        &mut properties,
        "to",
        text_argument("End time (e.g., 'now', timestamp)"),
    );
    Json::push_field(
        &mut properties,
        "limit",
        integer_argument_or("Maximum number of spans to return", 10),
    );
    Json::push_field(
        &mut properties,
        "cursor",
        text_argument("Pagination cursor"),
    );
    Json::push_field(
        &mut properties,
        "sort",
        text_argument("Sort order (e.g., 'timestamp')"),
    );
    Json::push_field(
        &mut properties,
        "page",
        integer_argument_or("Page number (0-based, for client-side pagination)", 0),
    );
    Json::push_field(
        &mut properties,
        "page_size",
        integer_argument_or("Number of spans per page", 10),
    );
    Json::push_field(
        &mut properties,
        "tag_filter",
        text_argument(tag_filter_note),
    );
    let required = two_required("from", "to");
    proof {
        let declared = view_fields(properties@);
        assert(declarations(declared) =~= declared_arguments(Tool::SpansSearch));
        assert(view_items(required@) == text_list(required_arguments(Tool::SpansSearch))->Array_0);
    }
    arguments(properties, required)
}

/// The arguments that a listing of services takes.
fn services_list_arguments() -> (schema: Json)
    ensures
        is_schema_of(schema@, Tool::ServicesList, Seq::empty()),
{
    let mut properties: Vec<(String, Json)> = Vec::new();
    Json::push_field(
        &mut properties,
        "env",
        text_argument("Filter by environment (e.g., 'production', 'staging')"),
    );
    Json::push_field(
        &mut properties,
        "page",
        integer_argument_or("Page number (0-based, for client-side pagination)", 0),
    );
    Json::push_field(
        &mut properties,
        "page_size",
        integer_argument_or("Number of services per page", 50),
    );
    let required = none_required();
    proof {
        let declared = view_fields(properties@);
        assert(declarations(declared) =~= declared_arguments(Tool::ServicesList));
        assert(view_items(required@) == text_list(required_arguments(Tool::ServicesList))->Array_0);
    }
    arguments(properties, required)
}

/// The arguments that a log aggregation takes.
fn logs_aggregate_arguments() -> (schema: Json)
    ensures
        is_schema_of(schema@, Tool::LogsAggregate, Seq::empty()),
{
    let mut properties: Vec<(String, Json)> = Vec::new();
    Json::push_field(
        &mut properties,
        "query",
        text_argument_or("Log search query", "*"),
    );
    Json::push_field(
        &mut properties,
        "from",
        text_argument("Start time (e.g., '1 hour ago', timestamp)"),
    );
    Json::push_field(
        &mut properties,
        "to",
        text_argument("End time (e.g., 'now', timestamp)"),
    );
    Json::push_field(
        &mut properties,
        "compute",
        list_argument("Array of compute aggregations (count, sum, avg, min, max, pc99)", record_of(&[("aggregation", "string"), ("type", "string"), ("interval", "string"), ("metric", "string")])),
    );
    Json::push_field(
        &mut properties,
        "group_by",
        list_argument("Array of fields to group by", record_of(&[("facet", "string"), ("limit", "integer"), ("sort", "object")])),
    );
    Json::push_field(
        &mut properties,
        "timezone",
        text_argument("Timezone for time-based operations (e.g., 'UTC', 'America/New_York')"),
    );
    let required = two_required("from", "to");
    proof {
        let declared = view_fields(properties@);
        assert(declarations(declared) =~= declared_arguments(Tool::LogsAggregate));
        assert(view_items(required@) == text_list(required_arguments(Tool::LogsAggregate))->Array_0);
    }
    arguments(properties, required)
}

/// The arguments that a log time series takes.
fn logs_timeseries_arguments() -> (schema: Json)
    ensures
        is_schema_of(schema@, Tool::LogsTimeseries, Seq::empty()),
{
    let mut properties: Vec<(String, Json)> = Vec::new();
    Json::push_field(
        &mut properties,
        "query",
        text_argument_or("Log search query", "*"),
    );
    Json::push_field(
        &mut properties,
        "from",
        text_argument("Start time (e.g., '1 hour ago', timestamp)"),
    );
    Json::push_field(
        &mut properties,
        "to",
        text_argument("End time (e.g., 'now', timestamp)"),
    );
    Json::push_field(
        &mut properties,
        "interval",
        text_argument_or("Time interval for timeseries (e.g., '1m', '5m', '1h')", "1h"),
    );
    Json::push_field(
        &mut properties,
        "aggregation",
        text_argument_or("Aggregation type (count, sum, avg, min, max, pc99)", "count"),
    );
    Json::push_field(
        &mut properties,
        "metric",
        text_argument("Field to aggregate on (for non-count aggregations)"),
    );
    Json::push_field(
        &mut properties,
        "group_by",
        list_argument("Array of fields to group by", record_of(&[("facet", "string"), ("limit", "integer")])),
    );
    Json::push_field(
        &mut properties,
        "timezone",
        text_argument("Timezone for time-based operations (e.g., 'UTC', 'America/New_York')"),
    );
    let required = two_required("from", "to");
    proof {
        let declared = view_fields(properties@);
        assert(declarations(declared) =~= declared_arguments(Tool::LogsTimeseries));
        assert(view_items(required@) == text_list(required_arguments(Tool::LogsTimeseries))->Array_0);
    }
    arguments(properties, required)
}

impl Server {
    /// Decides what to do with a `tools/list` request.
    pub fn handle_tools_list(&self, request: &JsonRpcRequest) -> (dispatch: Dispatch)
        ensures
            dispatch@ == tools_list_dispatch(self.initialized, request@),
    {
        if !self.initialized {
            return Dispatch::Reply(
                Self::create_error_response(
                    NOT_INITIALIZED,
                    "Server not initialized".to_string(),
                    clone_id(&request.id),
                ),
            );
        }
        Dispatch::ListTools { id: clone_id(&request.id) }
    }

    /// What the catalog says of the tag filter: how it is written, and
    /// which default is in force.
    pub fn tag_filter_note(&self) -> (note: String)
        ensures
            note@ == tag_filter_note_of(self.client@.tag_filter),
    {
        let default = match self.client.get_tag_filter() {
            Some(filter) => filter,
            None => "*",
        };
        let mut note = join(
            "Comma-separated tag prefixes to include (e.g., 'env:,service:,version:'). Use '*' for all tags (default), '' (empty) to exclude all tags. Current default: '",
            default,
        );
        note.append("'");
        note
    }

    /// The catalog of the tools: for each listed tool its name, what it is
    /// for, and the schema of its arguments.
    pub fn tool_catalog(&self) -> (catalog: Json)
        ensures
            lists_tools(catalog@, tag_filter_note_of(self.client@.tag_filter)),
    {
        let note = self.tag_filter_note();
        let mut tools: Vec<Json> = Vec::new();
        tools.push(
            tool_entry(
                Tool::MetricsQuery,
                "Query time series metrics from Datadog. Returns metric data points with timestamps and values. Supports natural language time expressions ('1 hour ago'), ISO8601, and Unix timestamps.",
                metrics_query_arguments(),
            ),
        );
        tools.push(
            tool_entry(
                Tool::LogsSearch,
                "Search log events in Datadog. Returns log entries with timestamps, messages, and metadata. Supports Datadog query syntax and natural language time expressions.",
                logs_search_arguments(note.as_str()),
            ),
        );
        tools.push(
            tool_entry(
                Tool::MonitorsList,
                "List all monitors from Datadog. Returns monitor names, types, queries, and states. Supports filtering by tags. Page 0 always fetches fresh data, subsequent pages use cache.",
                monitors_list_arguments(),
            ),
        );
        tools.push(
            tool_entry(
                Tool::MonitorsGet,
                "Retrieve detailed information about a specific monitor by ID. Returns full monitor configuration, thresholds, notification settings, and current state.",
                monitors_get_arguments(),
            ),
        );
        tools.push(
            tool_entry(
                Tool::EventsQuery,
                "Query event stream from Datadog. Returns events with titles, text, timestamps, and alert types. Supports filtering by priority, sources, and tags. Page 0 fetches fresh data.",
                events_query_arguments(),
            ),
        );
        tools.push(
            tool_entry(
                Tool::HostsList,
                "List infrastructure hosts from Datadog. Returns host names, status, applications, sources, and tags. Supports filtering and sorting by various fields.",
                hosts_list_arguments(note.as_str()),
            ),
        );
        tools.push(
            tool_entry(
                Tool::DashboardsList,
                "List all dashboards from Datadog. Returns dashboard IDs, titles, and descriptions. Page 0 fetches fresh data, subsequent pages use cache.",
                dashboards_list_arguments(),
            ),
        );
        tools.push(
            tool_entry(
                Tool::DashboardsGet,
                "Retrieve full dashboard configuration by ID. Returns title, description, layout type, widgets, template variables, and author information.",
                dashboards_get_arguments(),
            ),
        );
        tools.push(
            tool_entry(
                Tool::SpansSearch,
                "Search APM trace spans from Datadog. Returns span details with timing, service information, and trace IDs. Supports cursor-based pagination and sorting.",
                spans_search_arguments(note.as_str()),
            ),
        );
        tools.push(
            tool_entry(
                Tool::ServicesList,
                "List services from APM service catalog. Returns service names, teams, repositories, integrations, and metadata. Supports environment filtering.",
                services_list_arguments(),
            ),
        );
        tools.push(
            tool_entry(
                Tool::LogsAggregate,
                "Aggregate log events into buckets and compute metrics. Returns aggregated data with count, sum, avg, min, max, or percentiles. Supports grouping by log attributes.",
                logs_aggregate_arguments(),
            ),
        );
        tools.push(
            tool_entry(
                Tool::LogsTimeseries,
                "Generate time series data from log events. Returns bucketed metrics over time with configurable intervals (1m, 5m, 1h). Supports count, sum, avg, and percentile aggregations.",
                logs_timeseries_arguments(),
            ),
        );
        let catalog = Json::array(tools);
        proof {
            let entries = view_items(tools@);
            assert(is_entry_of(entries[0], listed_tools()[0], note@));
            assert(is_entry_of(entries[1], listed_tools()[1], note@));
            assert(is_entry_of(entries[2], listed_tools()[2], note@));
            assert(is_entry_of(entries[3], listed_tools()[3], note@));
            assert(is_entry_of(entries[4], listed_tools()[4], note@));
            assert(is_entry_of(entries[5], listed_tools()[5], note@));
            assert(is_entry_of(entries[6], listed_tools()[6], note@));
            assert(is_entry_of(entries[7], listed_tools()[7], note@));
            assert(is_entry_of(entries[8], listed_tools()[8], note@));
            assert(is_entry_of(entries[9], listed_tools()[9], note@));
            assert(is_entry_of(entries[10], listed_tools()[10], note@));
            assert(is_entry_of(entries[11], listed_tools()[11], note@));
        }
        catalog
    }

    /// Wraps the tool catalog into the response to `tools/list`.
    pub fn tools_list_response(tools: Json, id: Option<Json>) -> (response: JsonRpcResponse)
        ensures
            response@ == success_response(object1("tools"@, tools@), view_opt(id)),
    {
        Self::create_success_response(Json::singleton("tools", tools), id)
    }
}

} // verus!
