//! The tool for dashboards.

use crate::cache::DataCache;
use crate::datadog::client::ApiRequest;
use crate::datadog::client::DatadogClient;
use crate::datadog::client::HttpMethod;
use crate::datadog::models::AuthorInfo;
use crate::datadog::models::Dashboard;
use crate::datadog::models::DashboardSummary;
use crate::datadog::models::TemplateVariable;
use crate::datadog::models::Widget;
use crate::datadog::models::WidgetLayout;
use crate::error::DatadogError;
use crate::error::DatadogErrorView;
use crate::handlers::common::count_json;
use crate::handlers::common::detail_envelope;
use crate::handlers::common::list_envelope;
use crate::handlers::common::page_of;
use crate::handlers::common::pagination_of;
use crate::handlers::common::pagination_summary;
use crate::handlers::common::Paginator;
use crate::handlers::common::ResponseFormatter;
use crate::json::bool_or_null;
use crate::json::bool_or_null_json;
use crate::json::int_or_null;
use crate::json::int_or_null_json;
use crate::json::map_json;
use crate::json::text_array;
use crate::json::text_array_json;
use crate::json::text_or_null;
use crate::json::text_or_null_json;
use crate::json::texts_or_null;
use crate::json::texts_or_null_json;
use crate::json::view_fields;
use crate::json::Json;
use crate::json::JsonNumber;
use crate::json::JsonView;
use crate::text::insert_sorted;
use crate::text::strictly_sorted;
use crate::text::views;
use vstd::prelude::*;
use vstd::string::*;

verus! {

/// The tool for dashboards.
#[derive(Debug, Clone, Copy)]
pub struct DashboardsHandler;

impl Paginator for DashboardsHandler {

}

impl ResponseFormatter for DashboardsHandler {

}

/// A listing of dashboards, ready to be sent, with what shapes its
/// answer. The listing is cached under the endpoint `dashboards` and the
/// given parameters; the first page always fetches it afresh.
#[derive(Debug)]
pub struct DashboardsListing {
    pub request: ApiRequest,
    pub cache_params: Json,
    pub refresh: bool,
    pub page: usize,
    pub page_size: usize,
}

/// A dashboard as it appears in a listing.
pub open spec fn summary_json(summary: DashboardSummary) -> JsonView {
    JsonView::Object(
        seq![
            ("id"@, JsonView::Str(summary.id@)),
            ("title"@, JsonView::Str(summary.title@)),
            ("url"@, JsonView::Str(summary.url@)),
            ("author_handle"@, text_or_null(summary.author_handle)),
            ("created_at"@, text_or_null(summary.created_at)),
            ("modified_at"@, text_or_null(summary.modified_at)),
            ("is_read_only"@, bool_or_null(summary.is_read_only)),
            ("layout_type"@, text_or_null(summary.layout_type)),
            ("description"@, text_or_null(summary.description)),
            ("tags"@, texts_or_null(summary.tags)),
        ],
    )
}

/// A list of dashboards as it appears in a listing.
pub open spec fn summaries_json(summaries: Seq<DashboardSummary>) -> JsonView {
    JsonView::Array(Seq::new(summaries.len(), |i: int| summary_json(summaries[i])))
}

/// The response to a listing of dashboards: the dashboards of the page
/// that was asked for, and where that page stands among all of them.
pub open spec fn dashboards_response(dashboards: Seq<DashboardSummary>, page: usize, page_size: usize) -> JsonView {
    list_envelope(
        summaries_json(page_of(dashboards, page as int, page_size as int)),
        Some(pagination_summary(page, page_size, dashboards.len() as usize)),
        None,
    )
}

/// The types of the first `upto` widgets of a list, with those of the
/// widgets inside them.
pub open spec fn types_among(widgets: Seq<Widget>, upto: nat) -> Set<Seq<char>>
    decreases widgets, upto,
{
    if upto == 0 || upto > widgets.len() {
        Set::empty()
    } else {
        types_among(widgets, (upto - 1) as nat).union(types_within(widgets[upto - 1]))
    }
}

/// The type of a widget, and where the widget is a group, the types of the
/// widgets inside it.
pub open spec fn types_within(widget: Widget) -> Set<Seq<char>>
    decreases widget, 0nat,
{
    if widget.definition.widget_type@ == "group"@ {
        types_among(widget.nested@, widget.nested@.len()).insert(widget.definition.widget_type@)
    } else {
        set![widget.definition.widget_type@]
    }
}

/// The author of a dashboard as it is reported.
pub open spec fn author_json(author: Option<AuthorInfo>) -> JsonView {
    match author {
        Some(info) => JsonView::Object(
            seq![
                ("name"@, text_or_null(info.name)),
                ("handle"@, text_or_null(info.handle)),
                ("email"@, text_or_null(info.email)),
            ],
        ),
        None => JsonView::Null,
    }
}

/// A template variable as it is reported.
pub open spec fn variable_json(variable: TemplateVariable) -> JsonView {
    JsonView::Object(
        seq![
            ("name"@, JsonView::Str(variable.name@)),
            ("default"@, text_or_null(variable.default_value)),
            ("prefix"@, text_or_null(variable.prefix)),
            ("available_values"@, texts_or_null(variable.available_values)),
        ],
    )
}

/// The template variables of a dashboard as they are reported.
pub open spec fn variables_json(variables: Option<Vec<TemplateVariable>>) -> JsonView {
    match variables {
        Some(list) => JsonView::Array(Seq::new(list@.len(), |i: int| variable_json(list@[i]))),
        None => JsonView::Array(Seq::empty()),
    }
}

/// The place of a widget as it is reported.
pub open spec fn layout_json(layout: Option<WidgetLayout>) -> JsonView {
    match layout {
        Some(l) => JsonView::Object(
            seq![
                ("x"@, JsonView::Number(JsonNumber::of_int(l.x as int))),
                ("y"@, JsonView::Number(JsonNumber::of_int(l.y as int))),
                ("width"@, JsonView::Number(JsonNumber::of_int(l.width as int))),
                ("height"@, JsonView::Number(JsonNumber::of_int(l.height as int))),
            ],
        ),
        None => JsonView::Null,
    }
}

/// An integer as an optional `int`.
pub open spec fn some_int(value: Option<i64>) -> Option<int> {
    match value {
        Some(n) => Some(n as int),
        None => None,
    }
}

/// A widget as it is reported.
pub open spec fn widget_json(widget: Widget) -> JsonView {
    JsonView::Object(
        seq![
            ("id"@, int_or_null(some_int(widget.id))),
            ("type"@, JsonView::Str(widget.definition.widget_type@)),
            ("title"@, text_or_null(widget.definition.title)),
            ("layout"@, layout_json(widget.layout)),
        ],
    )
}

/// A list of widgets as it is reported.
pub open spec fn widgets_json(widgets: Seq<Widget>) -> JsonView {
    JsonView::Array(Seq::new(widgets.len(), |i: int| widget_json(widgets[i])))
}

/// The tags of a dashboard as they are reported: none where it has none.
pub open spec fn tags_json(tags: Option<Vec<String>>) -> JsonView {
    match tags {
        Some(list) => text_array(views(list@)),
        None => JsonView::Array(Seq::empty()),
    }
}

/// Whether `types` are the widget types of a dashboard: every type that
/// occurs among its widgets and inside its groups, once, and in order.
pub open spec fn are_widget_types(types: Seq<Seq<char>>, dashboard: Dashboard) -> bool {
    &&& strictly_sorted(types)
    &&& types.to_set() == types_among(dashboard.widgets@, dashboard.widgets@.len())
}

/// The response that reports one dashboard, given its widget types.
pub open spec fn dashboard_detail(dashboard: Dashboard, types: Seq<Seq<char>>) -> JsonView {
    detail_envelope(
        JsonView::Object(
            seq![
                ("id"@, JsonView::Str(dashboard.id@)),
                ("title"@, JsonView::Str(dashboard.title@)),
                ("description"@, text_or_null(dashboard.description)),
                ("url"@, JsonView::Str(dashboard.url@)),
                ("layout_type"@, JsonView::Str(dashboard.layout_type@)),
                ("is_read_only"@, JsonView::Bool(dashboard.is_read_only == Some(true))),
                ("created_at"@, text_or_null(dashboard.created_at)),
                ("modified_at"@, text_or_null(dashboard.modified_at)),
                ("tags"@, tags_json(dashboard.tags)),
                ("author"@, author_json(dashboard.author_info)),
                ("template_variables"@, variables_json(dashboard.template_variables)),
                (
                    "widgets_summary"@,
                    JsonView::Object(
                        seq![
                            ("total_widgets"@, count_json(dashboard.widgets@.len() as usize)),
                            ("widget_types"@, text_array(types)),
                            ("widgets"@, widgets_json(dashboard.widgets@)),
                        ],
                    ),
                ),
            ],
        ),
    )
}

/// Builds a dashboard as it appears in a listing.
fn build_summary(summary: &DashboardSummary) -> (json: Json)
    ensures
        json@ == summary_json(*summary),
{
    let mut fields: Vec<(String, Json)> = Vec::new();
    Json::push_field(&mut fields, "id", Json::Str(summary.id.clone()));
    Json::push_field(&mut fields, "title", Json::Str(summary.title.clone()));
    Json::push_field(&mut fields, "url", Json::Str(summary.url.clone()));
    Json::push_field(&mut fields, "author_handle", text_or_null_json(&summary.author_handle));
    Json::push_field(&mut fields, "created_at", text_or_null_json(&summary.created_at));
    Json::push_field(&mut fields, "modified_at", text_or_null_json(&summary.modified_at));
    Json::push_field(&mut fields, "is_read_only", bool_or_null_json(summary.is_read_only));
    Json::push_field(&mut fields, "layout_type", text_or_null_json(&summary.layout_type));
    Json::push_field(&mut fields, "description", text_or_null_json(&summary.description));
    Json::push_field(&mut fields, "tags", texts_or_null_json(&summary.tags));
    assert(view_fields(fields@) =~= summary_json(*summary)->Object_0);
    Json::object(fields)
}

/// Builds a template variable as it is reported.
fn build_variable(variable: &TemplateVariable) -> (json: Json)
    ensures
        json@ == variable_json(*variable),
{
    let mut fields: Vec<(String, Json)> = Vec::new();
    Json::push_field(&mut fields, "name", Json::Str(variable.name.clone()));
    Json::push_field(&mut fields, "default", text_or_null_json(&variable.default_value));
    Json::push_field(&mut fields, "prefix", text_or_null_json(&variable.prefix));
    Json::push_field(&mut fields, "available_values", texts_or_null_json(&variable.available_values));
    assert(view_fields(fields@) =~= variable_json(*variable)->Object_0);
    Json::object(fields)
}

/// Builds a widget as it is reported.
fn build_widget(widget: &Widget) -> (json: Json)
    ensures
        json@ == widget_json(*widget),
{
    let layout = match &widget.layout {
        Some(l) => {
            let mut fields: Vec<(String, Json)> = Vec::new();
            Json::push_field(&mut fields, "x", Json::integer(l.x as i64));
            Json::push_field(&mut fields, "y", Json::integer(l.y as i64));
            Json::push_field(&mut fields, "width", Json::integer(l.width as i64));
            Json::push_field(&mut fields, "height", Json::integer(l.height as i64));
            assert(view_fields(fields@) =~= layout_json(widget.layout)->Object_0);
            Json::object(fields)
        },
        None => Json::Null,
    };
    let mut fields: Vec<(String, Json)> = Vec::new();
    Json::push_field(&mut fields, "id", int_or_null_json(widget.id));
    Json::push_field(&mut fields, "type", Json::Str(widget.definition.widget_type.clone()));
    Json::push_field(&mut fields, "title", text_or_null_json(&widget.definition.title));
    Json::push_field(&mut fields, "layout", layout);
    assert(view_fields(fields@) =~= widget_json(*widget)->Object_0);
    Json::object(fields)
}

/// Adds the types of the first `upto` widgets of a list, with those of the
/// widgets inside them, to a sorted list of types.
fn collect_among(widgets: &Vec<Widget>, types: &mut Vec<String>)
    requires
        strictly_sorted(views(old(types)@)),
    ensures
        strictly_sorted(views(final(types)@)),
        views(final(types)@).to_set() == views(old(types)@).to_set().union(
            types_among(widgets@, widgets@.len()),
        ),
    decreases widgets, 1nat,
{
    let mut i: usize = 0;
    proof {
        assert(views(types@).to_set().union(types_among(widgets@, 0)) =~= views(types@).to_set());
    }
    while i < widgets.len()
        invariant
            i <= widgets.len(),
            strictly_sorted(views(types@)),
            views(types@).to_set() == views(old(types)@).to_set().union(
                types_among(widgets@, i as nat),
            ),
        decreases widgets.len() - i,
    {
        let ghost before = views(types@).to_set();
        collect_within(&widgets[i], types);
        proof {
            assert(views(types@).to_set() =~= views(old(types)@).to_set().union(
                types_among(widgets@, (i + 1) as nat),
            ));
        }
        i = i + 1;
    }
}

/// Adds the type of a widget, and where the widget is a group the types
/// of the widgets inside it, to a sorted list of types.
fn collect_within(widget: &Widget, types: &mut Vec<String>)
    requires
        strictly_sorted(views(old(types)@)),
    ensures
        strictly_sorted(views(final(types)@)),
        views(final(types)@).to_set() == views(old(types)@).to_set().union(types_within(*widget)),
    decreases widget, 0nat,
{
    insert_sorted(types, widget.definition.widget_type.as_str());
    if widget.definition.widget_type.as_str().eq("group") {
        collect_among(&widget.nested, types);
        proof {
            assert(views(types@).to_set() =~= views(old(types)@).to_set().union(
                types_within(*widget),
            ));
        }
    } else {
        proof {
            assert(views(types@).to_set() =~= views(old(types)@).to_set().union(
                types_within(*widget),
            ));
        }
    }
}

impl DashboardsHandler {
    /// The types of the widgets of a dashboard, groups searched through:
    /// each type once, in order.
    pub fn collect_widget_types(widgets: &Vec<Widget>) -> (types: Vec<String>)
        ensures
            strictly_sorted(views(types@)),
            views(types@).to_set() == types_among(widgets@, widgets@.len()),
    {
        let mut types: Vec<String> = Vec::new();
        proof {
            assert(views(types@).to_set() =~= Set::empty());
        }
        collect_among(widgets, &mut types);
        proof {
            assert(views(types@).to_set() =~= types_among(widgets@, widgets@.len()));
        }
        types
    }

    /// Reads the arguments of a listing of dashboards into the request to
    /// send and what shapes its answer.
    pub fn list(client: &DatadogClient, params: &Json) -> (listing: DashboardsListing)
        ensures
            (listing.page, listing.page_size) == pagination_of(params@),
            listing.refresh == (listing.page == 0),
            listing.cache_params@ == JsonView::Object(Seq::empty()),
            listing.request@ == client@.request_for(
                HttpMethod::Get,
                "/api/v1/dashboard"@,
                None,
                None,
            ),
    {
        let handler = DashboardsHandler;
        let (page, page_size) = handler.parse_pagination(params);
        DashboardsListing {
            request: client.list_dashboards(),
            cache_params: Json::empty_object(),
            refresh: page == 0,
            page,
            page_size,
        }
    }

    /// What the cache holds for this call under `key`, read at the time the
    /// cache's clock shows. A call that asks for fresh data does not read
    /// the cache.
    pub fn cached(listing: &DashboardsListing, cache: &mut DataCache, key: &str) -> (found: Option<Vec<DashboardSummary>>)
        ensures
            listing.refresh ==> found is None && final(cache)@ == old(cache)@,
            !listing.refresh ==> old(cache)@.dashboards.read(key@, final(cache)@.dashboards, found),
            final(cache)@.monitors == old(cache)@.monitors,
            final(cache)@.events == old(cache)@.events,
            old(cache)@.valid() ==> final(cache)@.valid(),
    {
        if listing.refresh {
            None
        } else {
            cache.get_dashboards(key)
        }
    }

    /// Shapes the answer to a listing of dashboards out of all the
    /// dashboards that the listing found.
    pub fn list_response(listing: &DashboardsListing, dashboards: &Vec<DashboardSummary>) -> (json:
        Json)
        ensures
            json@ == dashboards_response(dashboards@, listing.page, listing.page_size),
    {
        let handler = DashboardsHandler;
        let shown = handler.paginate(dashboards.as_slice(), listing.page, listing.page_size);
        let data = map_json(shown, build_summary);
        assert(data@->Array_0 =~= summaries_json(shown@)->Array_0);
        let pagination = handler.format_pagination(
            listing.page,
            listing.page_size,
            dashboards.len(),
        );
        handler.format_list(data, Some(pagination), None)
    }

    /// Reads the arguments of a request for one dashboard into the request
    /// to send. The dashboard's id is required.
    pub fn get(client: &DatadogClient, params: &Json) -> (outcome: Result<ApiRequest, DatadogError>)
        ensures
            match outcome {
                Ok(request) => params@.text_field("dashboard_id"@) is Some && request@
                    == client@.request_for(
                    HttpMethod::Get,
                    "/api/v1/dashboard/"@ + params@.text_field("dashboard_id"@)->0,
                    None,
                    None,
                ),
                Err(failure) => params@.text_field("dashboard_id"@) is None && failure@
                    == DatadogErrorView::InvalidInput("Missing 'dashboard_id' parameter"@),
            },
    {
        match params.get_str("dashboard_id") {
            Some(id) => Ok(client.get_dashboard(id)),
            None => Err(
                DatadogError::InvalidInput("Missing 'dashboard_id' parameter".to_string()),
            ),
        }
    }

    /// Shapes the answer to a request for one dashboard.
    pub fn get_response(dashboard: &Dashboard) -> (json: Json)
        ensures
            exists|types: Seq<Seq<char>>|
                #![trigger dashboard_detail(*dashboard, types)]
                are_widget_types(types, *dashboard) && json@ == dashboard_detail(*dashboard, types),
    {
        let handler = DashboardsHandler;
        let types = Self::collect_widget_types(&dashboard.widgets);
        let tags = match &dashboard.tags {
            Some(list) => text_array_json(list),
            None => Json::empty_array(),
        };
        let author = match &dashboard.author_info {
            Some(info) => {
                let mut fields: Vec<(String, Json)> = Vec::new();
                Json::push_field(&mut fields, "name", text_or_null_json(&info.name));
                Json::push_field(&mut fields, "handle", text_or_null_json(&info.handle));
                Json::push_field(&mut fields, "email", text_or_null_json(&info.email));
                assert(view_fields(fields@) =~= author_json(dashboard.author_info)->Object_0);
                Json::object(fields)
            },
            None => Json::Null,
        };
        let variables = match &dashboard.template_variables {
            Some(list) => {
                let json = map_json(list.as_slice(), build_variable);
                assert(json@->Array_0 =~= variables_json(dashboard.template_variables)->Array_0);
                json
            },
            None => Json::empty_array(),
        };
        let widgets = map_json(dashboard.widgets.as_slice(), build_widget);
        assert(widgets@->Array_0 =~= widgets_json(dashboard.widgets@)->Array_0);
        let read_only = match dashboard.is_read_only {
            Some(flag) => flag,
            None => false,
        };
        let mut summary: Vec<(String, Json)> = Vec::new();
        Json::push_field(&mut summary, "total_widgets", Json::unsigned(dashboard.widgets.len() as u64));
        Json::push_field(&mut summary, "widget_types", text_array_json(&types));
        Json::push_field(&mut summary, "widgets", widgets);
        assert(view_fields(summary@) =~= seq![
            ("total_widgets"@, count_json(dashboard.widgets@.len() as usize)),
            ("widget_types"@, text_array(views(types@))),
            ("widgets"@, widgets_json(dashboard.widgets@)),
        ]);
        let mut fields: Vec<(String, Json)> = Vec::new();
        Json::push_field(&mut fields, "id", Json::Str(dashboard.id.clone()));
        Json::push_field(&mut fields, "title", Json::Str(dashboard.title.clone()));
        Json::push_field(&mut fields, "description", text_or_null_json(&dashboard.description));
        Json::push_field(&mut fields, "url", Json::Str(dashboard.url.clone()));
        Json::push_field(&mut fields, "layout_type", Json::Str(dashboard.layout_type.clone()));
        Json::push_field(&mut fields, "is_read_only", Json::Bool(read_only));
        Json::push_field(&mut fields, "created_at", text_or_null_json(&dashboard.created_at));
        Json::push_field(&mut fields, "modified_at", text_or_null_json(&dashboard.modified_at));
        Json::push_field(&mut fields, "tags", tags);
        Json::push_field(&mut fields, "author", author);
        Json::push_field(&mut fields, "template_variables", variables);
        Json::push_field(&mut fields, "widgets_summary", Json::object(summary));
        assert(view_fields(fields@) =~= dashboard_detail(
            *dashboard,
            views(types@),
        )->Object_0[0].1->Object_0);
        let json = handler.format_detail(Json::object(fields));
        assert(are_widget_types(views(types@), *dashboard));
        assert(json@ == dashboard_detail(*dashboard, views(types@)));
        json
    }
}

} // verus!
