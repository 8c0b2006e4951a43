//! Envelopes, session state and method dispatch.
//!
//! The engine never touches a stream. It is told what was read and what a
//! tool produced, and answers with what to write or which outside work to
//! do next.

use crate::cache::DataCache;
use crate::datadog::client::base_url_of;
use crate::datadog::client::DatadogClient;
use crate::datadog::client::DatadogClientView;
use crate::error::DatadogError;
use crate::json::view_opt;
use crate::json::Json;
use crate::json::JsonView;
use crate::server::router::Tool;
use crate::text::join;
use crate::text::is_white_space;
use crate::text::lemma_trimmed;
use crate::text::trim;
use crate::text::trimmed;
use crate::text::view_text;
use vstd::prelude::*;
use vstd::string::*;

verus! {

/// The line could not be read as JSON.
pub const PARSE_ERROR: i32 = -32700;

/// The method is not one the engine knows.
pub const METHOD_NOT_FOUND: i32 = -32601;

/// The parameters are missing or unusable.
pub const INVALID_PARAMS: i32 = -32602;

/// The engine itself failed.
pub const INTERNAL_ERROR: i32 = -32603;

/// A tool was asked for before the session was initialized.
pub const NOT_INITIALIZED: i32 = -32002;

/// How many reads in a row may come back empty before the peer counts as
/// gone.
pub const MAX_EMPTY_READS: u32 = 3;

/// How long to wait, in milliseconds, before reading again after an empty
/// read.
pub const EMPTY_READ_PAUSE_MILLIS: u64 = 100;

/// How long the engine caches listings, in seconds.
pub const CACHE_TTL_SECS: u64 = 300;

/// How often, in seconds, the caches are to be swept.
pub const SWEEP_PERIOD_SECS: u64 = 60;

/// An inbound message. One without an `id` is a notification.
#[derive(Debug)]
pub struct JsonRpcRequest {
    pub method: String,
    pub params: Option<Json>,
    pub id: Option<Json>,
}

/// The parameters of the `initialize` request.
#[derive(Debug)]
pub struct InitializeRequest {
    pub protocol_version: String,
}

/// An outbound message: either a result or an error, never both.
#[derive(Debug)]
pub struct JsonRpcResponse {
    pub jsonrpc: String,
    pub result: Option<Json>,
    pub error: Option<JsonRpcError>,
    pub id: Option<Json>,
}

/// A protocol-level error.
#[derive(Debug)]
pub struct JsonRpcError {
    pub code: i32,
    pub message: String,
    pub data: Option<Json>,
}

/// The mathematical value of a [`JsonRpcRequest`].
pub struct JsonRpcRequestView {
    pub method: Seq<char>,
    pub params: Option<JsonView>,
    pub id: Option<JsonView>,
}

/// The mathematical value of a [`JsonRpcError`].
pub struct JsonRpcErrorView {
    pub code: int,
    pub message: Seq<char>,
    pub data: Option<JsonView>,
}

/// The mathematical value of a [`JsonRpcResponse`].
pub struct JsonRpcResponseView {
    pub jsonrpc: Seq<char>,
    pub result: Option<JsonView>,
    pub error: Option<JsonRpcErrorView>,
    pub id: Option<JsonView>,
}

impl View for JsonRpcRequest {
    type V = JsonRpcRequestView;

    open spec fn view(&self) -> JsonRpcRequestView {
        JsonRpcRequestView {
            method: self.method@,
            params: view_opt(self.params),
            id: view_opt(self.id),
        }
    }
}

impl View for JsonRpcError {
    type V = JsonRpcErrorView;

    open spec fn view(&self) -> JsonRpcErrorView {
        JsonRpcErrorView {
            code: self.code as int,
            message: self.message@,
            data: view_opt(self.data),
        }
    }
}

impl View for JsonRpcResponse {
    type V = JsonRpcResponseView;

    open spec fn view(&self) -> JsonRpcResponseView {
        JsonRpcResponseView {
            jsonrpc: self.jsonrpc@,
            result: view_opt(self.result),
            error: match self.error {
                Some(e) => Some(e@),
                None => None,
            },
            id: view_opt(self.id),
        }
    }
}

/// The error envelope with the given code, message and id, and no data.
pub open spec fn error_response(code: int, message: Seq<char>, id: Option<JsonView>) -> JsonRpcResponseView {
    JsonRpcResponseView {
        jsonrpc: "2.0"@,
        result: None,
        error: Some(JsonRpcErrorView { code, message, data: None }),
        id,
    }
}

/// The success envelope with the given result and id.
pub open spec fn success_response(result: JsonView, id: Option<JsonView>) -> JsonRpcResponseView {
    JsonRpcResponseView { jsonrpc: "2.0"@, result: Some(result), error: None, id }
}

/// The object with the single field `key: value`.
pub open spec fn object1(key: Seq<char>, value: JsonView) -> JsonView {
    JsonView::Object(seq![(key, value)])
}

/// The result of a successful `initialize`: the protocol version that the
/// client asked for, the server's name and version, and its capabilities.
pub open spec fn initialize_result(protocol_version: Seq<char>) -> JsonView {
    JsonView::Object(
        seq![
            ("protocolVersion"@, JsonView::Str(protocol_version)),
            (
                "serverInfo"@,
                JsonView::Object(
                    seq![
                        ("name"@, JsonView::Str("datadog-mcp-server"@)),
                        ("version"@, JsonView::Str("0.1.0"@)),
                    ],
                ),
            ),
            ("capabilities"@, object1("tools"@, JsonView::Object(Seq::empty()))),
        ],
    )
}

/// The answer to `initialize`, given how its parameters decoded: an error
/// envelope with the decoder's diagnostic where they did not, else the
/// success envelope that echoes the requested protocol version.
pub open spec fn initialize_response_of(
    decoded: Result<Seq<char>, Seq<char>>,
    id: Option<JsonView>,
) -> JsonRpcResponseView {
    match decoded {
        Ok(protocol_version) => success_response(initialize_result(protocol_version), id),
        Err(diagnostic) => error_response(
            INVALID_PARAMS as int,
            "Invalid params: "@ + diagnostic,
            id,
        ),
    }
}

/// The answer to a line that is no request envelope: none where the line
/// is no JSON at all or carries no `id`; else a parse error with that id
/// and the parser's diagnostic as details.
pub open spec fn parse_error_response_of(
    recovered: Option<JsonView>,
    details: Seq<char>,
) -> Option<JsonRpcResponseView> {
    match recovered {
        Some(document) => match document.field("id"@) {
            Some(id) => Some(
                JsonRpcResponseView {
                    jsonrpc: "2.0"@,
                    result: None,
                    error: Some(
                        JsonRpcErrorView {
                            code: PARSE_ERROR as int,
                            message: "Parse error"@,
                            data: Some(object1("details"@, JsonView::Str(details))),
                        },
                    ),
                    id: Some(id),
                },
            ),
            None => None,
        },
        None => None,
    }
}

/// What the engine wants done with a request.
#[derive(Debug)]
pub enum Dispatch {
    /// Write this response.
    Reply(JsonRpcResponse),
    /// A notification: write nothing.
    Silent,
    /// Decode `params` as [`InitializeRequest`] and answer with
    /// [`Server::initialize_response`].
    Initialize { params: Json, id: Option<Json> },
    /// Answer with [`Server::tools_list_response`].
    ListTools { id: Option<Json> },
    /// Run `tool` on `arguments` and answer with
    /// [`Server::tool_call_response`].
    CallTool { tool: Tool, arguments: Json, id: Option<Json> },
}

/// The mathematical value of a [`Dispatch`].
pub enum DispatchView {
    Reply(JsonRpcResponseView),
    Silent,
    Initialize { params: JsonView, id: Option<JsonView> },
    ListTools { id: Option<JsonView> },
    CallTool { tool: Tool, arguments: JsonView, id: Option<JsonView> },
}

impl View for Dispatch {
    type V = DispatchView;

    open spec fn view(&self) -> DispatchView {
        match self {
            Dispatch::Reply(response) => DispatchView::Reply(response@),
            Dispatch::Silent => DispatchView::Silent,
            Dispatch::Initialize { params, id } => DispatchView::Initialize {
                params: params@,
                id: view_opt(*id),
            },
            Dispatch::ListTools { id } => DispatchView::ListTools { id: view_opt(*id) },
            Dispatch::CallTool { tool, arguments, id } => DispatchView::CallTool {
                tool: *tool,
                arguments: arguments@,
                id: view_opt(*id),
            },
        }
    }
}

/// A copy of an optional JSON value.
pub fn clone_id(id: &Option<Json>) -> (copy: Option<Json>)
    ensures
        view_opt(copy) == view_opt(*id),
{
    match id {
        Some(value) => Some(value.clone()),
        None => None,
    }
}

/// The session engine: the client's settings, the caches, and whether the
/// client has acknowledged the handshake.
pub struct Server {
    pub client: DatadogClient,
    pub cache: DataCache,
    pub initialized: bool,
}

/// What is done with an `initialize` request: without parameters it is
/// refused as invalid; else its parameters are to be decoded.
pub open spec fn initialize_dispatch(request: JsonRpcRequestView) -> DispatchView {
    match request.params {
        Some(params) => DispatchView::Initialize { params, id: request.id },
        None => DispatchView::Reply(
            error_response(INVALID_PARAMS as int, "Missing params"@, request.id),
        ),
    }
}

/// What is done with a `tools/list` request: before the session is
/// initialized it is refused; else the tools are to be listed.
pub open spec fn tools_list_dispatch(initialized: bool, request: JsonRpcRequestView) -> DispatchView {
    if initialized {
        DispatchView::ListTools { id: request.id }
    } else {
        DispatchView::Reply(
            error_response(NOT_INITIALIZED as int, "Server not initialized"@, request.id),
        )
    }
}

/// Whether a method is the acknowledgement that ends the handshake.
pub open spec fn is_initialized_notice(method: Seq<char>) -> bool {
    method == "initialized"@ || method == "notifications/initialized"@
}

/// Whether a method is a notification that is accepted and ignored.
pub open spec fn is_ignored_notice(method: Seq<char>) -> bool {
    method == "exit"@ || method == "notifications/cancelled"@ || method
        == "notifications/progress"@
}

/// What is done with a message that asks for an answer, by its method.
pub open spec fn request_dispatch(initialized: bool, request: JsonRpcRequestView) -> DispatchView {
    if request.method == "initialize"@ {
        initialize_dispatch(request)
    } else if is_initialized_notice(request.method) {
        DispatchView::Silent
    } else if request.method == "tools/list"@ {
        tools_list_dispatch(initialized, request)
    } else if request.method == "tools/call"@ {
        crate::server::router::tool_call_dispatch(initialized, request)
    } else if request.method == "prompts/list"@ {
        DispatchView::Reply(
            success_response(object1("prompts"@, JsonView::Array(Seq::empty())), request.id),
        )
    } else if request.method == "resources/list"@ {
        DispatchView::Reply(
            success_response(object1("resources"@, JsonView::Array(Seq::empty())), request.id),
        )
    } else if request.method == "shutdown"@ {
        DispatchView::Reply(success_response(JsonView::Object(Seq::empty()), request.id))
    } else if is_ignored_notice(request.method) {
        DispatchView::Silent
    } else {
        DispatchView::Reply(
            error_response(
                METHOD_NOT_FOUND as int,
                "Method not found: "@ + request.method,
                request.id,
            ),
        )
    }
}

/// What is done with a message. One without an `id` is a notification: it
/// is never answered, and no tool is run for it.
pub open spec fn dispatch_of(initialized: bool, request: JsonRpcRequestView) -> DispatchView {
    if request.id is None {
        DispatchView::Silent
    } else {
        request_dispatch(initialized, request)
    }
}

/// Whether the session is initialized once a request with the given method
/// has been handled: the acknowledgement initializes it, and nothing ever
/// resets it.
pub open spec fn initialized_after(initialized: bool, method: Seq<char>) -> bool {
    initialized || is_initialized_notice(method)
}

impl Server {
    /// Create a standardized error response.
    pub fn create_error_response(code: i32, message: String, id: Option<Json>) -> (response:
        JsonRpcResponse)
        ensures
            response@ == error_response(code as int, message@, view_opt(id)),
    {
        JsonRpcResponse {
            jsonrpc: "2.0".to_string(),
            result: None,
            error: Some(JsonRpcError { code, message, data: None }),
            id,
        }
    }

    /// Create a standardized success response.
    pub fn create_success_response(result: Json, id: Option<Json>) -> (response: JsonRpcResponse)
        ensures
            response@ == success_response(result@, view_opt(id)),
    {
        JsonRpcResponse { jsonrpc: "2.0".to_string(), result: Some(result), error: None, id }
    }

    /// An engine for the given credentials and site, with empty caches and
    /// an uninitialized session.
    pub fn new(api_key: String, app_key: String, site: Option<String>) -> (server: Result<
        Self,
        DatadogError,
    >)
        ensures
            server is Ok,
            !server->Ok_0.initialized,
            server->Ok_0.cache@.valid(),
            server->Ok_0.client@ == (DatadogClientView {
                api_key: api_key@,
                app_key: app_key@,
                base_url: base_url_of(view_text(site)),
                tag_filter: None,
            }),
    {
        let client = match DatadogClient::new(api_key, app_key, site) {
            Ok(client) => client,
            Err(failure) => {
                return Err(failure);
            },
        };
        let cache = DataCache::new(CACHE_TTL_SECS);
        Ok(Server { client, cache, initialized: false })
    }

    /// Decides what to do with a message, and records the handshake's
    /// acknowledgement. A message without an `id` is never answered.
    pub fn process_request(&mut self, request: JsonRpcRequest) -> (dispatch: Dispatch)
        ensures
            dispatch@ == dispatch_of(old(self).initialized, request@),
            final(self).initialized == initialized_after(old(self).initialized, request@.method),
            final(self).client == old(self).client,
            final(self).cache == old(self).cache,
    {
        proof {
            lemma_methods_differ();
        }
        let answered = request.id.is_some();
        let method = request.method.as_str();
        let dispatch = if method.eq("initialize") {
            self.handle_initialize(&request)
        } else if method.eq("initialized") || method.eq("notifications/initialized") {
            self.handle_initialized(&request)
        } else if method.eq("tools/list") {
            self.handle_tools_list(&request)
        } else if method.eq("tools/call") {
            self.handle_tool_call(&request)
        } else if method.eq("prompts/list") {
            Dispatch::Reply(
                Self::create_success_response(
                    Json::singleton("prompts", Json::empty_array()),
                    request.id,
                ),
            )
        } else if method.eq("resources/list") {
            Dispatch::Reply(
                Self::create_success_response(
                    Json::singleton("resources", Json::empty_array()),
                    request.id,
                ),
            )
        } else if method.eq("shutdown") {
            Dispatch::Reply(Self::create_success_response(Json::empty_object(), request.id))
        } else if method.eq("exit") || method.eq("notifications/cancelled") || method.eq(
            "notifications/progress",
        ) {
            Dispatch::Silent
        } else {
            Dispatch::Reply(
                Self::create_error_response(
                    METHOD_NOT_FOUND,
                    join("Method not found: ", method),
                    request.id,
                ),
            )
        };
        if answered {
            dispatch
        } else {
            Dispatch::Silent
        }
    }

    /// Decides what to do with an `initialize` request. The session is not
    /// initialized by it.
    pub fn handle_initialize(&self, request: &JsonRpcRequest) -> (dispatch: Dispatch)
        ensures
            dispatch@ == initialize_dispatch(request@),
    {
        match &request.params {
            Some(params) => Dispatch::Initialize { params: params.clone(), id: clone_id(&request.id) },
            None => Dispatch::Reply(
                Self::create_error_response(
                    INVALID_PARAMS,
                    "Missing params".to_string(),
                    clone_id(&request.id),
                ),
            ),
        }
    }

    /// Answers an `initialize` request whose parameters were decoded, or
    /// failed to decode with the given diagnostic.
    pub fn initialize_response(decoded: Result<InitializeRequest, String>, id: Option<Json>) -> (response:
        JsonRpcResponse)
        ensures
            response@ == initialize_response_of(
                match decoded {
                    Ok(params) => Ok(params.protocol_version@),
                    Err(diagnostic) => Err(diagnostic@),
                },
                view_opt(id),
            ),
    {
        match decoded {
            Ok(params) => {
                let mut info: Vec<(String, Json)> = Vec::new();
                Json::push_field(&mut info, "name", Json::text("datadog-mcp-server"));
                Json::push_field(&mut info, "version", Json::text("0.1.0"));
                let info = Json::object(info);
                let capabilities = Json::singleton("tools", Json::empty_object());
                let mut fields: Vec<(String, Json)> = Vec::new();
                Json::push_field(&mut fields, "protocolVersion", Json::Str(params.protocol_version));
                Json::push_field(&mut fields, "serverInfo", info);
                Json::push_field(&mut fields, "capabilities", capabilities);
                let result = Json::object(fields);
                proof {
                    assert(info@ =~= JsonView::Object(
                        seq![
                            ("name"@, JsonView::Str("datadog-mcp-server"@)),
                            ("version"@, JsonView::Str("0.1.0"@)),
                        ],
                    )) by {
                        assert(info@->Object_0 =~= seq![
                            ("name"@, JsonView::Str("datadog-mcp-server"@)),
                            ("version"@, JsonView::Str("0.1.0"@)),
                        ]);
                    }
                    assert(result@->Object_0 =~= initialize_result(
                        params.protocol_version@,
                    )->Object_0);
                }
                Self::create_success_response(result, id)
            },
            Err(diagnostic) => Self::create_error_response(
                INVALID_PARAMS,
                join("Invalid params: ", diagnostic.as_str()),
                id,
            ),
        }
    }

    /// Records the client's acknowledgement of the handshake. Nothing is
    /// written in answer.
    pub fn handle_initialized(&mut self, request: &JsonRpcRequest) -> (dispatch: Dispatch)
        ensures
            dispatch@ == DispatchView::Silent,
            final(self).initialized,
            final(self).client == old(self).client,
            final(self).cache == old(self).cache,
    {
        self.initialized = true;
        Dispatch::Silent
    }

    /// Answers a line that could not be read as a request. `recovered` is
    /// the line read as plain JSON, if it is JSON at all; `details` is the
    /// parser's diagnostic.
    pub fn parse_error_response(recovered: Option<&Json>, details: &str) -> (response: Option<
        JsonRpcResponse,
    >)
        ensures
            match response {
                Some(r) => parse_error_response_of(crate::json::view_opt_ref(recovered), details@)
                    == Some(r@),
                None => parse_error_response_of(crate::json::view_opt_ref(recovered), details@)
                    is None,
            },
    {
        let document = match recovered {
            Some(document) => document,
            None => {
                return None;
            },
        };
        match document.get("id") {
            Some(id) => {
                let mut response = Self::create_error_response(
                    PARSE_ERROR,
                    "Parse error".to_string(),
                    Some(id.clone()),
                );
                let data = Json::singleton("details", Json::text(details));
                response.error = Some(
                    JsonRpcError { code: PARSE_ERROR, message: "Parse error".to_string(), data: Some(data) },
                );
                Some(response)
            },
            None => None,
        }
    }

    /// The response that reports a failure of the engine itself.
    pub fn internal_error_response(failure: &DatadogError) -> (response: JsonRpcResponse)
        ensures
            response@ == error_response(INTERNAL_ERROR as int, failure.message_text(), None),
    {
        Self::create_error_response(INTERNAL_ERROR, failure.message(), None)
    }
}

/// What one attempt to read a line brought.
#[derive(Debug)]
pub enum ReadEvent {
    /// Some bytes were read; this is the text.
    Line(String),
    /// Nothing was read.
    Empty,
    /// The read failed.
    Failed,
}

/// What the read loop does next.
#[derive(Debug)]
pub enum ReadStep {
    /// The peer is gone: end the loop.
    Stop,
    /// Wait for [`EMPTY_READ_PAUSE_MILLIS`], then read again.
    Pause,
    /// Read again at once.
    Read,
    /// Handle this line, which is trimmed and not blank.
    Handle(String),
}

/// The mathematical value of a [`ReadEvent`].
pub enum ReadEventView {
    Line(Seq<char>),
    Empty,
    Failed,
}

/// The mathematical value of a [`ReadStep`].
pub enum ReadStepView {
    Stop,
    Pause,
    Read,
    Handle(Seq<char>),
}

impl View for ReadEvent {
    type V = ReadEventView;

    open spec fn view(&self) -> ReadEventView {
        match self {
            ReadEvent::Line(text) => ReadEventView::Line(text@),
            ReadEvent::Empty => ReadEventView::Empty,
            ReadEvent::Failed => ReadEventView::Failed,
        }
    }
}

impl View for ReadStep {
    type V = ReadStepView;

    open spec fn view(&self) -> ReadStepView {
        match self {
            ReadStep::Stop => ReadStepView::Stop,
            ReadStep::Pause => ReadStepView::Pause,
            ReadStep::Read => ReadStepView::Read,
            ReadStep::Handle(line) => ReadStepView::Handle(line@),
        }
    }
}

/// Which kind of message a write carried.
#[derive(Debug, Clone, Copy, PartialEq, Eq, Structural)]
pub enum Written {
    /// The response to a request.
    Response,
    /// The report of a line that could not be read as a request.
    ParseError,
    /// The report of a failure of the engine itself.
    InternalError,
}

/// The count of empty reads in a row once one more has come. The count
/// stops growing once it is over the limit.
pub open spec fn empty_reads_after(count: nat) -> nat {
    if count > MAX_EMPTY_READS {
        count
    } else {
        count + 1
    }
}

/// The next step once a read has brought `event`, after `empty_reads`
/// empty reads in a row: an empty read pauses the loop, and ends it once
/// there were more of them than the limit; a failed read is tried again; a
/// line is trimmed and handled unless it is blank.
pub open spec fn read_step(empty_reads: nat, event: ReadEventView) -> ReadStepView {
    match event {
        ReadEventView::Empty => if empty_reads_after(empty_reads) > MAX_EMPTY_READS {
            ReadStepView::Stop
        } else {
            ReadStepView::Pause
        },
        ReadEventView::Failed => ReadStepView::Read,
        ReadEventView::Line(text) => if trimmed(text).len() == 0 {
            ReadStepView::Read
        } else {
            ReadStepView::Handle(trimmed(text))
        },
    }
}

/// The count of empty reads in a row once a read has brought `event`.
pub open spec fn empty_reads_next(empty_reads: nat, event: ReadEventView) -> nat {
    match event {
        ReadEventView::Empty => empty_reads_after(empty_reads),
        ReadEventView::Failed => empty_reads,
        ReadEventView::Line(_) => 0,
    }
}

/// The next step once a message was written, or failed to be: a message
/// that could not be written, of whatever kind, means that the peer is
/// gone, and the loop ends; the write is not tried again.
pub open spec fn write_step(kind: Written, written: bool) -> ReadStepView {
    if written {
        ReadStepView::Read
    } else {
        ReadStepView::Stop
    }
}

/// The state of the read loop: how many reads in a row came back empty.
pub struct ReadLoop {
    empty_reads: u32,
}

impl View for ReadLoop {
    type V = nat;

    closed spec fn view(&self) -> nat {
        self.empty_reads as nat
    }
}

impl ReadLoop {
    #[verifier::type_invariant]
    spec fn bounded(self) -> bool {
        self.empty_reads <= MAX_EMPTY_READS + 1
    }

    /// A loop that has not read yet.
    pub fn new() -> (state: Self)
        ensures
            state@ == 0,
    {
        ReadLoop { empty_reads: 0 }
    }

    /// Decides the next step once a read has brought `event`.
    pub fn on_read(&mut self, event: ReadEvent) -> (step: ReadStep)
        ensures
            step@ == read_step(old(self)@, event@),
            final(self)@ == empty_reads_next(old(self)@, event@),
    {
        proof {
            use_type_invariant(&*self);
        }
        match event {
            ReadEvent::Empty => {
                if self.empty_reads <= MAX_EMPTY_READS {
                    self.empty_reads = self.empty_reads + 1;
                }
                if self.empty_reads > MAX_EMPTY_READS {
                    ReadStep::Stop
                } else {
                    ReadStep::Pause
                }
            },
            ReadEvent::Failed => ReadStep::Read,
            ReadEvent::Line(text) => {
                self.empty_reads = 0;
                let line = trim(text.as_str());
                if line.is_empty() {
                    ReadStep::Read
                } else {
                    ReadStep::Handle(line.to_string())
                }
            },
        }
    }

    /// Decides the next step once a message was written, or failed to be.
    pub fn on_write(&self, kind: Written, written: bool) -> (step: ReadStep)
        ensures
            step@ == write_step(kind, written),
    {
        if written {
            ReadStep::Read
        } else {
            ReadStep::Stop
        }
    }
}

/// Whether the session is initialized when request number `upto` of
/// `requests` is handled, given how the session started.
pub open spec fn initialized_before(start: bool, requests: Seq<JsonRpcRequestView>, upto: int) -> bool
    decreases upto,
{
    if upto <= 0 {
        start
    } else {
        initialized_after(initialized_before(start, requests, upto - 1), requests[upto - 1].method)
    }
}

/// For a tool call that arrives before the session is initialized no tool
/// is run; and where it asks for an answer, it is refused with the code
/// for an uninitialized session.
pub proof fn lemma_tool_call_needs_initialization(request: JsonRpcRequestView)
    requires
        request.method == "tools/call"@,
    ensures
        !(dispatch_of(false, request) is CallTool),
        request.id is Some ==> dispatch_of(false, request) == DispatchView::Reply(
            error_response(NOT_INITIALIZED as int, "Server not initialized"@, request.id),
        ),
{
    lemma_methods_differ();
}

/// In a session that starts uninitialized, a tool is only ever run after
/// the client has acknowledged the handshake; and once initialized, a
/// session stays so.
pub proof fn lemma_tools_run_only_after_handshake(requests: Seq<JsonRpcRequestView>, at: int)
    requires
        0 <= at < requests.len(),
        dispatch_of(initialized_before(false, requests, at), requests[at]) is CallTool,
    ensures
        exists|earlier: int|
            0 <= earlier < at && is_initialized_notice((#[trigger] requests[earlier]).method),
    decreases at,
{
    lemma_methods_differ();
    assert(initialized_before(false, requests, at));
    if at > 0 {
        if is_initialized_notice(requests[at - 1].method) {
        } else {
            assert(initialized_before(false, requests, at - 1));
            lemma_initialized_needs_notice(requests, at - 1);
        }
    }
}

proof fn lemma_initialized_needs_notice(requests: Seq<JsonRpcRequestView>, upto: int)
    requires
        0 <= upto <= requests.len(),
        initialized_before(false, requests, upto),
    ensures
        exists|earlier: int|
            0 <= earlier < upto && is_initialized_notice((#[trigger] requests[earlier]).method),
    decreases upto,
{
    if upto > 0 {
        if is_initialized_notice(requests[upto - 1].method) {
        } else {
            lemma_initialized_needs_notice(requests, upto - 1);
        }
    }
}

/// The method names are pairwise different texts.
proof fn lemma_methods_differ()
    ensures
        "initialize"@ != "initialized"@,
        "initialize"@ != "notifications/initialized"@,
        "tools/call"@ != "initialize"@,
        "tools/call"@ != "initialized"@,
        "tools/call"@ != "notifications/initialized"@,
        "tools/call"@ != "tools/list"@,
{
    reveal_strlit("initialize");
    reveal_strlit("initialized");
    reveal_strlit("notifications/initialized");
    reveal_strlit("tools/call");
    reveal_strlit("tools/list");
    assert("initialize"@.len() == 10);
    assert("initialized"@.len() == 11);
    assert("notifications/initialized"@.len() == 25);
    assert("tools/call"@.len() == 10);
    assert("tools/call"@[0] != "initialize"@[0]);
    assert("tools/call"@[6] != "tools/list"@[6]);
}

/// The answer to a well-formed `initialize` echoes the protocol version
/// that the client asked for.
pub proof fn lemma_initialize_echoes_version(protocol_version: Seq<char>, id: Option<JsonView>)
    ensures
        initialize_response_of(Ok(protocol_version), id).error is None,
        initialize_response_of(Ok(protocol_version), id).id == id,
        initialize_response_of(Ok(protocol_version), id).result is Some,
        initialize_response_of(Ok(protocol_version), id).result->0.field("protocolVersion"@) == Some(
            JsonView::Str(protocol_version),
        ),
{
}

/// A line that is no JSON at all, or that carries no `id`, is answered
/// with nothing; a line that is JSON and carries an `id` is answered with
/// exactly one parse error that carries that id.
pub proof fn lemma_parse_errors(recovered: Option<JsonView>, details: Seq<char>)
    ensures
        recovered is None ==> parse_error_response_of(recovered, details) is None,
        recovered is Some && recovered->0.field("id"@) is None ==> parse_error_response_of(
            recovered,
            details,
        ) is None,
        recovered is Some && recovered->0.field("id"@) is Some ==> {
            let response = parse_error_response_of(recovered, details);
            &&& response is Some
            &&& response->0.id == recovered->0.field("id"@)
            &&& response->0.result is None
            &&& response->0.error is Some
            &&& response->0.error->0.code == PARSE_ERROR
        },
{
}

/// A line of white space only is skipped. Any other line is handled as
/// what is left of it without the white space around it, which is not
/// empty and neither begins nor ends with white space.
pub proof fn lemma_blank_lines_are_skipped(empty_reads: nat, text: Seq<char>)
    ensures
        (forall|i: int| 0 <= i < text.len() ==> is_white_space(#[trigger] text[i])) ==> read_step(
            empty_reads,
            ReadEventView::Line(text),
        ) == ReadStepView::Read,
        read_step(empty_reads, ReadEventView::Line(text)) matches ReadStepView::Handle(line) ==> {
            &&& line == trimmed(text)
            &&& line.len() > 0
            &&& !is_white_space(line.first())
            &&& !is_white_space(line.last())
        },
{
    lemma_trimmed(text);
}

/// A write that fails ends the loop, whatever was being written: a
/// response, the report of a parse error or that of a failure of the
/// engine. A write that succeeds lets the loop read on.
pub proof fn lemma_failed_write_ends_the_loop(kind: Written)
    ensures
        write_step(kind, false) == ReadStepView::Stop,
        write_step(kind, true) == ReadStepView::Read,
{
}

/// Empty reads pause the loop three times in a row; the fourth ends it. A
/// line in between starts the count afresh.
pub proof fn lemma_empty_reads()
    ensures
        read_step(0, ReadEventView::Empty) == ReadStepView::Pause,
        read_step(1, ReadEventView::Empty) == ReadStepView::Pause,
        read_step(2, ReadEventView::Empty) == ReadStepView::Pause,
        read_step(3, ReadEventView::Empty) == ReadStepView::Stop,
        forall|count: nat, text: Seq<char>|
            #[trigger] empty_reads_next(count, ReadEventView::Line(text)) == 0,
        forall|count: nat| count < 3 ==> #[trigger] empty_reads_next(count, ReadEventView::Empty) == count + 1,
{
}

} // verus!
