//! The shapes of the upstream API's answers.
//!
//! Numbers that the API sends as reals are kept as JSON numbers, free-form
//! documents as JSON values, and string-keyed tables as lists of pairs.

use crate::json::Json;
use crate::json::JsonNumber;
use vstd::prelude::*;

verus! {

/// The answer to a metrics query.
#[derive(Debug, Clone, Default)]
pub struct MetricsResponse {
    pub status: String,
    pub res_type: String,
    pub resp_version: Option<i32>,
    pub from_date: i64,
    pub to_date: i64,
    pub series: Vec<MetricSeries>,
    pub query: String,
    pub error: Option<String>,
    pub values: Option<Vec<Vec<Option<JsonNumber>>>>,
    pub times: Option<Vec<i64>>,
    pub message: Option<String>,
    pub group_by: Option<Vec<String>>,
}

/// One time series of a metrics answer. Points are rows of optional
/// numbers: a timestamp in milliseconds, then a value.
#[derive(Debug, Clone, Default)]
pub struct MetricSeries {
    pub metric: String,
    pub display_name: Option<String>,
    pub unit: Option<Vec<Option<Unit>>>,
    pub pointlist: Option<Vec<Vec<Option<JsonNumber>>>>,
    pub scope: String,
    pub expression: String,
    pub tag_set: Option<Vec<String>>,
    pub aggr: Option<String>,
    pub interval: Option<i64>,
    pub length: Option<i64>,
    pub start: Option<i64>,
    pub end: Option<i64>,
    pub attributes: Option<Vec<(String, Json)>>,
    pub query_index: Option<i64>,
}

/// The unit of a metric.
#[derive(Debug, Clone, Default)]
pub struct Unit {
    pub family: String,
    pub name: String,
    pub plural: String,
    pub scale_factor: JsonNumber,
    pub short_name: Option<String>,
    pub id: Option<i64>,
}

/// The answer to a log search.
#[derive(Debug, Clone, Default)]
pub struct LogsResponse {
    pub data: Option<Vec<LogEntry>>,
    pub meta: Option<LogsMeta>,
    pub errors: Option<Vec<String>>,
}

/// One log event.
#[derive(Debug, Clone, Default)]
pub struct LogEntry {
    pub id: String,
    pub log_type: Option<String>,
    pub attributes: Option<LogAttributes>,
}

/// What is known of a log event.
#[derive(Debug, Clone, Default)]
pub struct LogAttributes {
    pub timestamp: Option<String>,
    pub tags: Option<Vec<String>>,
    pub host: Option<String>,
    pub service: Option<String>,
    pub message: Option<String>,
    pub status: Option<String>,
    pub attributes: Option<Vec<(String, Json)>>,
}

/// Paging and timing of a log search.
#[derive(Debug, Clone, Default)]
pub struct LogsMeta {
    pub page: Option<LogsPage>,
    pub elapsed: Option<i64>,
}

/// The cursor after the last log event returned.
#[derive(Debug, Clone, Default)]
pub struct LogsPage {
    pub after: Option<String>,
}

/// A monitor and its state.
#[derive(Debug, Clone, Default)]
pub struct Monitor {
    pub id: i64,
    pub name: String,
    pub monitor_type: String,
    pub query: String,
    pub message: Option<String>,
    pub tags: Vec<String>,
    pub created: Option<String>,
    pub created_at: Option<i64>,
    pub modified: Option<String>,
    pub overall_state: Option<String>,
    pub overall_state_modified: Option<String>,
    pub priority: Option<i32>,
    pub options: Option<MonitorOptions>,
    pub creator: Option<Creator>,
    pub deleted: Option<String>,
    pub multi: Option<bool>,
    pub org_id: Option<i64>,
    pub restricted_roles: Option<Vec<String>>,
    pub matching_downtimes: Option<Vec<Json>>,
}

/// Who created a monitor.
#[derive(Debug, Clone, Default)]
pub struct Creator {
    pub id: Option<i64>,
    pub email: Option<String>,
    pub handle: Option<String>,
    pub name: Option<String>,
}

/// The options of a monitor. Options without a field of their own are kept by name.
#[derive(Debug, Clone, Default)]
pub struct MonitorOptions {
    pub thresholds: Option<MonitorThresholds>,
    pub notify_no_data: Option<bool>,
    pub notify_audit: Option<bool>,
    pub timeout_h: Option<i32>,
    pub silenced: Option<Json>,
    pub extra: Vec<(String, Json)>,
}

/// The thresholds at which a monitor changes state.
#[derive(Debug, Clone, Default)]
pub struct MonitorThresholds {
    pub critical: Option<JsonNumber>,
    pub warning: Option<JsonNumber>,
    pub ok: Option<JsonNumber>,
}

/// The answer to an event query.
#[derive(Debug, Clone, Default)]
pub struct EventsResponse {
    pub events: Option<Vec<Event>>,
    pub status: Option<String>,
}

/// One event of the event stream.
#[derive(Debug, Clone, Default)]
pub struct Event {
    pub id: Option<i64>,
    pub id_str: Option<String>,
    pub title: Option<String>,
    pub text: Option<String>,
    pub date_happened: Option<i64>,
    pub priority: Option<String>,
    pub host: Option<String>,
    pub tags: Option<Vec<String>>,
    pub source: Option<String>,
    pub alert_type: Option<String>,
    pub comments: Option<Vec<String>>,
    pub device_name: Option<String>,
    pub is_aggregate: Option<bool>,
    pub monitor_group_status: Option<i32>,
    pub monitor_groups: Option<Vec<String>>,
    pub monitor_id: Option<i64>,
    pub resource: Option<String>,
    pub url: Option<String>,
}

/// The answer to a host listing.
#[derive(Debug, Clone, Default)]
pub struct HostsResponse {
    pub total_matching: i64,
    pub total_returned: i64,
    pub host_list: Vec<Host>,
}

/// One host with its tags, grouped by the source that reported them.
#[derive(Debug, Clone, Default)]
pub struct Host {
    pub id: Option<i64>,
    pub name: String,
    pub up: bool,
    pub is_muted: bool,
    pub tags_by_source: Option<Vec<(String, Vec<String>)>>,
    pub apps: Option<Vec<String>>,
    pub aws_name: Option<String>,
    pub host_name: String,
    pub last_reported_time: Option<i64>,
    pub sources: Option<Vec<String>>,
}

/// The answer to a dashboard listing.
#[derive(Debug, Clone, Default)]
pub struct DashboardsResponse {
    pub dashboards: Vec<DashboardSummary>,
}

/// A dashboard as it appears in a listing.
#[derive(Debug, Clone, Default)]
pub struct DashboardSummary {
    pub id: String,
    pub title: String,
    pub url: String,
    pub author_handle: Option<String>,
    pub created_at: Option<String>,
    pub modified_at: Option<String>,
    pub is_read_only: Option<bool>,
    pub layout_type: Option<String>,
    pub description: Option<String>,
    pub tags: Option<Vec<String>>,
}

/// A dashboard with its widgets.
#[derive(Debug, Clone, Default)]
pub struct Dashboard {
    pub id: String,
    pub title: String,
    pub description: Option<String>,
    pub author_info: Option<AuthorInfo>,
    pub layout_type: String,
    pub url: String,
    pub is_read_only: Option<bool>,
    pub template_variables: Option<Vec<TemplateVariable>>,
    pub widgets: Vec<Widget>,
    pub created_at: Option<String>,
    pub modified_at: Option<String>,
    pub tags: Option<Vec<String>>,
}

/// Who wrote a dashboard.
#[derive(Debug, Clone, Default)]
pub struct AuthorInfo {
    pub name: Option<String>,
    pub handle: Option<String>,
    pub email: Option<String>,
}

/// A template variable of a dashboard.
#[derive(Debug, Clone, Default)]
pub struct TemplateVariable {
    pub name: String,
    pub default_value: Option<String>,
    pub prefix: Option<String>,
    pub available_values: Option<Vec<String>>,
}

/// One widget of a dashboard. The widgets that a group widget holds are
/// listed in `nested`, as far as they could be read as widgets.
#[derive(Debug, Default)]
pub struct Widget {
    pub id: Option<i64>,
    pub definition: WidgetDefinition,
    pub layout: Option<WidgetLayout>,
    pub nested: Vec<Widget>,
}

impl Clone for Widget {
    /// A copy of the widget and of the widgets inside it.
    #[verifier::loop_isolation(false)]
    fn clone(&self) -> (copy: Self)
        decreases self,
    {
        let mut nested: Vec<Widget> = Vec::new();
        let mut i: usize = 0;
        while i < self.nested.len()
            invariant
                i <= self.nested.len(),
            decreases self.nested.len() - i,
        {
            nested.push(self.nested[i].clone());
            i = i + 1;
        }
        Widget {
            id: self.id,
            definition: self.definition.clone(),
            layout: self.layout.clone(),
            nested,
        }
    }
}

/// What a widget shows. Settings without a field of their own are kept by name.
#[derive(Debug, Clone, Default)]
pub struct WidgetDefinition {
    pub widget_type: String,
    pub title: Option<String>,
    pub title_size: Option<String>,
    pub title_align: Option<String>,
    pub requests: Option<Vec<Json>>,
    pub extra: Vec<(String, Json)>,
}

/// Where a widget sits on the dashboard grid.
#[derive(Debug, Clone, Default)]
pub struct WidgetLayout {
    pub x: i32,
    pub y: i32,
    pub width: i32,
    pub height: i32,
}

/// The answer to a service catalog listing.
#[derive(Debug, Clone, Default)]
pub struct ServicesResponse {
    pub data: Vec<Service>,
    pub meta: Option<ServicesMeta>,
    pub links: Option<ServicesLinks>,
}

/// One service definition.
#[derive(Debug, Clone, Default)]
pub struct Service {
    pub id: Option<String>,
    pub service_type: Option<String>,
    pub attributes: Option<ServiceAttributes>,
}

/// What is known of a service. Attributes without a field of their own are kept by name.
#[derive(Debug, Clone, Default)]
pub struct ServiceAttributes {
    pub schema_version: Option<String>,
    pub dd_service: Option<String>,
    pub dd_team: Option<String>,
    pub application: Option<String>,
    pub tier: Option<String>,
    pub lifecycle: Option<String>,
    pub type_of_service: Option<String>,
    pub languages: Option<Vec<String>>,
    pub contacts: Option<Vec<ServiceContact>>,
    pub links: Option<Vec<ServiceLink>>,
    pub repos: Option<Vec<ServiceRepo>>,
    pub docs: Option<Vec<ServiceDoc>>,
    pub tags: Option<Vec<String>>,
    pub integrations: Option<ServiceIntegrations>,
    pub extra: Vec<(String, Json)>,
}

/// A contact of a service.
#[derive(Debug, Clone, Default)]
pub struct ServiceContact {
    pub name: Option<String>,
    pub email: Option<String>,
    pub contact_type: Option<String>,
}

/// A link of a service.
#[derive(Debug, Clone, Default)]
pub struct ServiceLink {
    pub name: Option<String>,
    pub url: Option<String>,
    pub link_type: Option<String>,
}

/// A source repository of a service.
#[derive(Debug, Clone, Default)]
pub struct ServiceRepo {
    pub name: Option<String>,
    pub url: Option<String>,
    pub provider: Option<String>,
}

/// A document of a service.
#[derive(Debug, Clone, Default)]
pub struct ServiceDoc {
    pub name: Option<String>,
    pub url: Option<String>,
    pub provider: Option<String>,
}

/// The integrations of a service. Integrations without a field of their own are kept by name.
#[derive(Debug, Clone, Default)]
pub struct ServiceIntegrations {
    pub pagerduty: Option<Json>,
    pub slack: Option<Json>,
    pub others: Vec<(String, Json)>,
}

/// Warnings that came with a service listing.
#[derive(Debug, Clone, Default)]
pub struct ServicesMeta {
    pub warnings: Option<Vec<ServicesWarning>>,
}

/// One warning of a service listing.
#[derive(Debug, Clone, Default)]
pub struct ServicesWarning {
    pub code: Option<String>,
    pub detail: Option<String>,
    pub title: Option<String>,
}

/// The link to the next page of services.
#[derive(Debug, Clone, Default)]
pub struct ServicesLinks {
    pub next: Option<String>,
}

/// One aggregate to compute over log events.
#[derive(Debug, Clone, Default)]
pub struct LogsCompute {
    pub aggregation: String,
    pub compute_type: Option<String>,
    pub interval: Option<String>,
    pub metric: Option<String>,
}

/// One facet to group log events by.
#[derive(Debug, Clone, Default)]
pub struct LogsGroupBy {
    pub facet: String,
    pub limit: Option<i32>,
    pub sort: Option<LogsGroupBySort>,
    pub group_type: Option<String>,
}

/// How the groups of a facet are ordered.
#[derive(Debug, Clone, Default)]
pub struct LogsGroupBySort {
    pub order: Option<String>,
    pub sort_type: Option<String>,
    pub aggregation: Option<String>,
    pub metric: Option<String>,
}

/// The answer to a search for real-user-monitoring events.
#[derive(Debug, Clone, Default)]
pub struct RumEventsResponse {
    pub data: Option<Vec<RumEvent>>,
    pub meta: Option<RumMeta>,
    pub links: Option<RumLinks>,
}

/// One real-user-monitoring event.
#[derive(Debug, Clone, Default)]
pub struct RumEvent {
    pub id: String,
    pub event_type: Option<String>,
    pub attributes: Option<RumAttributes>,
}

/// What is known of a real-user-monitoring event.
#[derive(Debug, Clone, Default)]
pub struct RumAttributes {
    pub timestamp: Option<String>,
    pub tags: Option<Vec<String>>,
    pub service: Option<String>,
    pub application: Option<RumApplication>,
    pub view: Option<RumView>,
    pub session: Option<RumSession>,
    pub action: Option<RumAction>,
    pub resource: Option<RumResource>,
    pub error: Option<RumError>,
    pub attributes: Option<Vec<(String, Json)>>,
}

/// The application an event came from.
#[derive(Debug, Clone, Default)]
pub struct RumApplication {
    pub id: Option<String>,
    pub name: Option<String>,
}

/// The view an event belongs to.
#[derive(Debug, Clone, Default)]
pub struct RumView {
    pub id: Option<String>,
    pub name: Option<String>,
    pub url: Option<String>,
    pub url_path: Option<String>,
    pub time_spent: Option<i64>,
    pub loading_time: Option<i64>,
}

/// The session an event belongs to.
#[derive(Debug, Clone, Default)]
pub struct RumSession {
    pub id: Option<String>,
    pub session_type: Option<String>,
    pub has_replay: Option<bool>,
}

/// A user action.
#[derive(Debug, Clone, Default)]
pub struct RumAction {
    pub id: Option<String>,
    pub name: Option<String>,
    pub action_type: Option<String>,
    pub target: Option<RumActionTarget>,
    pub loading_time: Option<i64>,
}

/// What a user action was aimed at.
#[derive(Debug, Clone, Default)]
pub struct RumActionTarget {
    pub name: Option<String>,
}

/// A resource that a view loaded.
#[derive(Debug, Clone, Default)]
pub struct RumResource {
    pub id: Option<String>,
    pub name: Option<String>,
    pub resource_type: Option<String>,
    pub url: Option<String>,
    pub method: Option<String>,
    pub status_code: Option<i32>,
    pub duration: Option<i64>,
    pub size: Option<i64>,
}

/// An error that a view raised.
#[derive(Debug, Clone, Default)]
pub struct RumError {
    pub id: Option<String>,
    pub message: Option<String>,
    pub source: Option<String>,
    pub error_type: Option<String>,
    pub stack: Option<String>,
    pub is_crash: Option<bool>,
}

/// Paging, timing and warnings of an event search.
#[derive(Debug, Clone, Default)]
pub struct RumMeta {
    pub page: Option<RumPage>,
    pub elapsed: Option<i64>,
    pub request_id: Option<String>,
    pub status: Option<String>,
    pub warnings: Option<Vec<RumWarning>>,
}

/// The cursor after the last event returned.
#[derive(Debug, Clone, Default)]
pub struct RumPage {
    pub after: Option<String>,
}

/// The link to the next page of events.
#[derive(Debug, Clone, Default)]
pub struct RumLinks {
    pub next: Option<String>,
}

/// One warning of an event search.
#[derive(Debug, Clone, Default)]
pub struct RumWarning {
    pub code: Option<String>,
    pub detail: Option<String>,
    pub title: Option<String>,
}

} // verus!
