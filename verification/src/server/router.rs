//! The tools and how a `tools/call` request is routed to one of them.

use crate::error::DatadogError;
use crate::json::view_opt;
use crate::json::Json;
use crate::json::JsonView;
use crate::server::protocol::clone_id;
use crate::server::protocol::error_response;
use crate::server::protocol::success_response;
use crate::server::protocol::Dispatch;
use crate::server::protocol::DispatchView;
use crate::server::protocol::JsonRpcRequest;
use crate::server::protocol::JsonRpcRequestView;
use crate::server::protocol::JsonRpcResponse;
use crate::server::protocol::Server;
use crate::server::protocol::INVALID_PARAMS;
use crate::server::protocol::NOT_INITIALIZED;
use crate::text::join;
use vstd::prelude::*;
use vstd::string::*;

verus! {

/// The tools that the engine offers.
#[derive(Debug, Clone, Copy, PartialEq, Eq, Structural)]
pub enum Tool {
    MetricsQuery,
    LogsSearch,
    MonitorsList,
    MonitorsGet,
    EventsQuery,
    HostsList,
    DashboardsList,
    DashboardsGet,
    SpansSearch,
    ServicesList,
    LogsAggregate,
    LogsTimeseries,
    RumEventsSearch,
}

impl Tool {
    /// The name under which clients call the tool.
    pub open spec fn name_text(self) -> Seq<char> {
        match self {
            Tool::MetricsQuery => "datadog_metrics_query"@,
            Tool::LogsSearch => "datadog_logs_search"@,
            Tool::MonitorsList => "datadog_monitors_list"@,
            Tool::MonitorsGet => "datadog_monitors_get"@,
            Tool::EventsQuery => "datadog_events_query"@,
            Tool::HostsList => "datadog_hosts_list"@,
            Tool::DashboardsList => "datadog_dashboards_list"@,
            Tool::DashboardsGet => "datadog_dashboards_get"@,
            Tool::SpansSearch => "datadog_spans_search"@,
            Tool::ServicesList => "datadog_services_list"@,
            Tool::LogsAggregate => "datadog_logs_aggregate"@,
            Tool::LogsTimeseries => "datadog_logs_timeseries"@,
            Tool::RumEventsSearch => "datadog_rum_events_search"@,
        }
    }

    /// The tool that clients call by `name`, if there is one.
    pub open spec fn named(name: Seq<char>) -> Option<Tool> {
        if name == "datadog_metrics_query"@ {
            Some(Tool::MetricsQuery)
        } else if name == "datadog_logs_search"@ {
            Some(Tool::LogsSearch)
        } else if name == "datadog_monitors_list"@ {
            Some(Tool::MonitorsList)
        } else if name == "datadog_monitors_get"@ {
            Some(Tool::MonitorsGet)
        } else if name == "datadog_events_query"@ {
            Some(Tool::EventsQuery)
        } else if name == "datadog_hosts_list"@ {
            Some(Tool::HostsList)
        } else if name == "datadog_dashboards_list"@ {
            Some(Tool::DashboardsList)
        } else if name == "datadog_dashboards_get"@ {
            Some(Tool::DashboardsGet)
        } else if name == "datadog_spans_search"@ {
            Some(Tool::SpansSearch)
        } else if name == "datadog_services_list"@ {
            Some(Tool::ServicesList)
        } else if name == "datadog_logs_aggregate"@ {
            Some(Tool::LogsAggregate)
        } else if name == "datadog_logs_timeseries"@ {
            Some(Tool::LogsTimeseries)
        } else if name == "datadog_rum_events_search"@ {
            Some(Tool::RumEventsSearch)
        } else {
            None
        }
    }

    /// The name under which clients call the tool.
    pub fn name(&self) -> (name: &'static str)
        ensures
            name@ == self.name_text(),
    {
        match self {
            Tool::MetricsQuery => "datadog_metrics_query",
            Tool::LogsSearch => "datadog_logs_search",
            Tool::MonitorsList => "datadog_monitors_list",
            Tool::MonitorsGet => "datadog_monitors_get",
            Tool::EventsQuery => "datadog_events_query",
            Tool::HostsList => "datadog_hosts_list",
            Tool::DashboardsList => "datadog_dashboards_list",
            Tool::DashboardsGet => "datadog_dashboards_get",
            Tool::SpansSearch => "datadog_spans_search",
            Tool::ServicesList => "datadog_services_list",
            Tool::LogsAggregate => "datadog_logs_aggregate",
            Tool::LogsTimeseries => "datadog_logs_timeseries",
            Tool::RumEventsSearch => "datadog_rum_events_search",
        }
    }

    /// The tool that clients call by `name`, if there is one.
    pub fn from_name(name: &str) -> (tool: Option<Tool>)
        ensures
            tool == Tool::named(name@),
    {
        if name.eq("datadog_metrics_query") {
            Some(Tool::MetricsQuery)
        } else if name.eq("datadog_logs_search") {
            Some(Tool::LogsSearch)
        } else if name.eq("datadog_monitors_list") {
            Some(Tool::MonitorsList)
        } else if name.eq("datadog_monitors_get") {
            Some(Tool::MonitorsGet)
        } else if name.eq("datadog_events_query") {
            Some(Tool::EventsQuery)
        } else if name.eq("datadog_hosts_list") {
            Some(Tool::HostsList)
        } else if name.eq("datadog_dashboards_list") {
            Some(Tool::DashboardsList)
        } else if name.eq("datadog_dashboards_get") {
            Some(Tool::DashboardsGet)
        } else if name.eq("datadog_spans_search") {
            Some(Tool::SpansSearch)
        } else if name.eq("datadog_services_list") {
            Some(Tool::ServicesList)
        } else if name.eq("datadog_logs_aggregate") {
            Some(Tool::LogsAggregate)
        } else if name.eq("datadog_logs_timeseries") {
            Some(Tool::LogsTimeseries)
        } else if name.eq("datadog_rum_events_search") {
            Some(Tool::RumEventsSearch)
        } else {
            None
        }
    }
}

/// Every tool is called by its own name: the name of a tool leads back to
/// that tool and to no other.
pub proof fn lemma_tools_route_by_name(tool: Tool)
    ensures
        Tool::named(tool.name_text()) == Some(tool),
{
    reveal_strlit("datadog_metrics_query");
    reveal_strlit("datadog_logs_search");
    reveal_strlit("datadog_monitors_list");
    reveal_strlit("datadog_monitors_get");
    reveal_strlit("datadog_events_query");
    reveal_strlit("datadog_hosts_list");
    reveal_strlit("datadog_dashboards_list");
    reveal_strlit("datadog_dashboards_get");
    reveal_strlit("datadog_spans_search");
    reveal_strlit("datadog_services_list");
    reveal_strlit("datadog_logs_aggregate");
    reveal_strlit("datadog_logs_timeseries");
    reveal_strlit("datadog_rum_events_search");
    assert("datadog_metrics_query"@.len() == 21);
    assert("datadog_logs_search"@.len() == 19);
    assert("datadog_monitors_list"@.len() == 21);
    assert("datadog_monitors_get"@.len() == 20);
    assert("datadog_events_query"@.len() == 20);
    assert("datadog_hosts_list"@.len() == 18);
    assert("datadog_dashboards_list"@.len() == 23);
    assert("datadog_dashboards_get"@.len() == 22);
    assert("datadog_spans_search"@.len() == 20);
    assert("datadog_services_list"@.len() == 21);
    assert("datadog_logs_aggregate"@.len() == 22);
    assert("datadog_logs_timeseries"@.len() == 23);
    assert("datadog_rum_events_search"@.len() == 25);
    assert("datadog_metrics_query"@[9] != "datadog_monitors_list"@[9]);
    assert("datadog_metrics_query"@[8] != "datadog_services_list"@[8]);
    assert("datadog_monitors_list"@[8] != "datadog_services_list"@[8]);
    assert("datadog_monitors_get"@[8] != "datadog_events_query"@[8]);
    assert("datadog_monitors_get"@[8] != "datadog_spans_search"@[8]);
    assert("datadog_events_query"@[8] != "datadog_spans_search"@[8]);
    assert("datadog_dashboards_list"@[8] != "datadog_logs_timeseries"@[8]);
    assert("datadog_dashboards_get"@[8] != "datadog_logs_aggregate"@[8]);
}

/// The tool name in the parameters of a `tools/call` request: the text of
/// the field `name`, where there is such a field and it is a string.
pub open spec fn tool_name_of(params: JsonView) -> Option<Seq<char>> {
    match params.field("name"@) {
        Some(name) => name.as_str(),
        None => None,
    }
}

/// The arguments in the parameters of a `tools/call` request: the field
/// `arguments`, or `null` where there is none.
pub open spec fn tool_arguments_of(params: JsonView) -> JsonView {
    match params.field("arguments"@) {
        Some(arguments) => arguments,
        None => JsonView::Null,
    }
}

/// What is done with a `tools/call` request: before the session is
/// initialized it is refused; without parameters, without a tool name or
/// with the name of no tool it is refused as invalid; else the named tool is
/// to be run on the arguments.
pub open spec fn tool_call_dispatch(initialized: bool, request: JsonRpcRequestView) -> DispatchView {
    if !initialized {
        DispatchView::Reply(
            error_response(NOT_INITIALIZED as int, "Server not initialized"@, request.id),
        )
    } else {
        match request.params {
            None => DispatchView::Reply(
                error_response(INVALID_PARAMS as int, "Missing params"@, request.id),
            ),
            Some(params) => match tool_name_of(params) {
                None => DispatchView::Reply(
                    error_response(INVALID_PARAMS as int, "Missing tool name"@, request.id),
                ),
                Some(name) => match Tool::named(name) {
                    None => DispatchView::Reply(
                        error_response(INVALID_PARAMS as int, "Unknown tool: "@ + name, request.id),
                    ),
                    Some(tool) => DispatchView::CallTool {
                        tool,
                        arguments: tool_arguments_of(params),
                        id: request.id,
                    },
                },
            },
        }
    }
}

/// The content list that carries one text.
pub open spec fn text_content(text: Seq<char>) -> JsonView {
    JsonView::Array(
        seq![JsonView::Object(seq![("type"@, JsonView::Str("text"@)), ("text"@, JsonView::Str(text))])],
    )
}

/// The result that reports what a tool produced: its output as text, or
/// the description of its failure, flagged as an error.
pub open spec fn tool_result(outcome: Result<Seq<char>, Seq<char>>) -> JsonView {
    match outcome {
        Ok(text) => JsonView::Object(seq![("content"@, text_content(text))]),
        Err(failure) => JsonView::Object(
            seq![("content"@, text_content("Error: "@ + failure)), ("isError"@, JsonView::Bool(true))],
        ),
    }
}

/// What a tool produced, as texts: its output, or the description of its
/// failure.
pub open spec fn outcome_texts(outcome: Result<String, DatadogError>) -> Result<Seq<char>, Seq<char>> {
    match outcome {
        Ok(text) => Ok(text@),
        Err(failure) => Err(failure.message_text()),
    }
}

/// Builds the content list that carries one text.
fn build_text_content(text: String) -> (content: Json)
    ensures
        content@ == text_content(text@),
{
    let mut fields: Vec<(String, Json)> = Vec::new();
    Json::push_field(&mut fields, "type", Json::text("text"));
    Json::push_field(&mut fields, "text", Json::Str(text));
    let entry = Json::object(fields);
    let mut items: Vec<Json> = Vec::new();
    items.push(entry);
    let content = Json::array(items);
    proof {
        assert(crate::json::view_fields(fields@) =~= seq![
            ("type"@, JsonView::Str("text"@)),
            ("text"@, JsonView::Str(text@)),
        ]);
        assert(crate::json::view_items(items@) =~= seq![entry@]);
    }
    content
}

impl Server {
    /// Decides what to do with a `tools/call` request.
    pub fn handle_tool_call(&self, request: &JsonRpcRequest) -> (dispatch: Dispatch)
        ensures
            dispatch@ == tool_call_dispatch(self.initialized, request@),
    {
        if !self.initialized {
            return Dispatch::Reply(
                Self::create_error_response(
                    NOT_INITIALIZED,
                    "Server not initialized".to_string(),
                    clone_id(&request.id),
                ),
            );
        }
        let params = match &request.params {
            Some(params) => params,
            None => {
                return Dispatch::Reply(
                    Self::create_error_response(
                        INVALID_PARAMS,
                        "Missing params".to_string(),
                        clone_id(&request.id),
                    ),
                );
            },
        };
        let name = match params.get("name") {
            Some(value) => value.as_str(),
            None => None,
        };
        let name = match name {
            Some(name) => name,
            None => {
                return Dispatch::Reply(
                    Self::create_error_response(
                        INVALID_PARAMS,
                        "Missing tool name".to_string(),
                        clone_id(&request.id),
                    ),
                );
            },
        };
        let arguments = match params.get("arguments") {
            Some(arguments) => arguments.clone(),
            None => Json::Null,
        };
        match Tool::from_name(name) {
            Some(tool) => Dispatch::CallTool { tool, arguments, id: clone_id(&request.id) },
            None => Dispatch::Reply(
                Self::create_error_response(
                    INVALID_PARAMS,
                    join("Unknown tool: ", name),
                    clone_id(&request.id),
                ),
            ),
        }
    }

    /// Wraps what a tool produced into the response to its call. A failed
    /// tool still gets a success envelope; the failure is in its content.
    pub fn tool_call_response(outcome: Result<String, DatadogError>, id: Option<Json>) -> (response:
        JsonRpcResponse)
        ensures
            response@ == success_response(tool_result(outcome_texts(outcome)), view_opt(id)),
    {
        let result = match &outcome {
            Ok(text) => {
                let content = build_text_content(text.clone());
                Json::singleton("content", content)
            },
            Err(failure) => {
                let description = failure.message();
                let content = build_text_content(join("Error: ", description.as_str()));
                let mut fields: Vec<(String, Json)> = Vec::new();
                Json::push_field(&mut fields, "content", content);
                Json::push_field(&mut fields, "isError", Json::Bool(true));
                proof {
                    assert(crate::json::view_fields(fields@) =~= seq![
                        ("content"@, content@),
                        ("isError"@, JsonView::Bool(true)),
                    ]);
                }
                Json::object(fields)
            },
        };
        Self::create_success_response(result, id)
    }
}

} // verus!
