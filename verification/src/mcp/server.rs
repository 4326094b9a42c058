//! The dispatcher: what each request is answered with, line by line.
//!
//! Nothing here reads or writes a stream. `handle_line` takes one line of
//! input and comes to a `LineStep`: nothing for a blank line, the line to
//! write for a request that is answered on the spot, or what is to be sent
//! before the answer can be made. Whoever drives the transport sends it and
//! hands the reply to `finish_upstream` or `finish_cluster`, which give the
//! line to write. No step depends on an earlier one: a line that is no
//! request is answered with a parse error and leaves the next line as it
//! would have been.

use crate::api::client::{ApiClient, HttpReply, HttpReplyView, HttpRequest, HttpRequestView};
use crate::config::Config;
use crate::errors::{outcome, EctusError, Failure};
use crate::json::{
    json_parse, json_text, object, one_line, Items, Json, JsonView, Members,
};
use crate::mcp::types::{
    failure, opt_view, request_of, success, JsonRpcRequest, JsonRpcResponse, RequestView,
    ResponseView, INVALID_PARAMS, METHOD_NOT_FOUND, PARSE_ERROR, TOOL_FAILURE,
};
use crate::orchestrator::{ClusterReply, ClusterReplyView};
use crate::text::{is_blank, opt_text, same_text, trim};
use crate::tools::{
    call_step, catalog, cluster_outcome, upstream_outcome, ClusterWait, ClusterWaitView, ToolStep,
    ToolStepView,
};
use vstd::prelude::*;
use vstd::string::StringExecFns;

verus! {

/// How many lines may wait between the reader of the input and the
/// dispatcher.
pub const QUEUE_CAPACITY: usize = 100;

/// What a request comes to.
#[derive(Debug)]
pub enum Dispatch {
    /// The response.
    Reply(JsonRpcResponse),
    /// The request is to be sent upstream; `complete_upstream` makes the
    /// response from the reply.
    Upstream { id: Json, request: HttpRequest },
    /// The call is to be made on the cluster; `complete_cluster` makes the
    /// response from the reply.
    Cluster { id: Json, wait: ClusterWait },
}

/// What a line of input comes to.
#[derive(Debug)]
pub enum LineStep {
    /// The line is blank: nothing is written.
    Skip,
    /// The line to write.
    Respond(String),
    /// The request is to be sent upstream; `finish_upstream` makes the line
    /// to write from the reply.
    Upstream { id: Json, request: HttpRequest },
    /// The call is to be made on the cluster; `finish_cluster` makes the
    /// line to write from the reply.
    Cluster { id: Json, wait: ClusterWait },
}

pub ghost enum DispatchView {
    Reply(ResponseView),
    Upstream { id: JsonView, request: HttpRequestView },
    Cluster { id: JsonView, wait: ClusterWaitView },
}

pub ghost enum LineStepView {
    Skip,
    Respond(Seq<char>),
    Upstream { id: JsonView, request: HttpRequestView },
    Cluster { id: JsonView, wait: ClusterWaitView },
}

impl View for Dispatch {
    type V = DispatchView;

    open spec fn view(&self) -> DispatchView {
        match self {
            Dispatch::Reply(r) => DispatchView::Reply(r@),
            Dispatch::Upstream { id, request } => DispatchView::Upstream {
                id: id@,
                request: request@,
            },
            Dispatch::Cluster { id, wait } => DispatchView::Cluster { id: id@, wait: wait@ },
        }
    }
}

impl View for LineStep {
    type V = LineStepView;

    open spec fn view(&self) -> LineStepView {
        match self {
            LineStep::Skip => LineStepView::Skip,
            LineStep::Respond(line) => LineStepView::Respond(line@),
            LineStep::Upstream { id, request } => LineStepView::Upstream {
                id: id@,
                request: request@,
            },
            LineStep::Cluster { id, wait } => LineStepView::Cluster { id: id@, wait: wait@ },
        }
    }
}

/// An object without members.
pub open spec fn nothing() -> JsonView {
    object(Seq::empty())
}

/// What the handshake answers: the version of the protocol, what the server
/// offers, and what it is.
pub open spec fn handshake() -> JsonView {
    object(
        Seq::empty().push(("protocolVersion"@, JsonView::Str("2024-11-05"@))).push(
            (
                "capabilities"@,
                object(
                    Seq::empty().push(("tools"@, nothing())).push(("resources"@, nothing())).push(
                        ("prompts"@, nothing()),
                    ),
                ),
            ),
        ).push(
            (
                "serverInfo"@,
                object(
                    Seq::empty().push(("name"@, JsonView::Str("ectusr2"@))).push(
                        ("version"@, JsonView::Str("0.1.0"@)),
                    ),
                ),
            ),
        ),
    )
}

/// A list under a name.
pub open spec fn listed(key: Seq<char>, list: JsonView) -> JsonView {
    object(Seq::empty().push((key, list)))
}

/// The text of a tool, as the content of a result.
pub open spec fn content(text: Seq<char>) -> JsonView {
    object(
        Seq::empty().push(
            (
                "content"@,
                JsonView::Array(
                    Seq::empty().push(
                        object(
                            Seq::empty().push(("type"@, JsonView::Str("text"@))).push(
                                ("text"@, JsonView::Str(text)),
                            ),
                        ),
                    ),
                ),
            ),
        ),
    )
}

/// The response to the call of a tool: what the tool answered as content,
/// or the message of its failure as a tool error.
pub open spec fn tool_response(id: JsonView, outcome: Result<Seq<char>, Failure>) -> ResponseView {
    match outcome {
        Ok(text) => success(id, content(text)),
        Err(f) => failure(id, TOOL_FAILURE as int, f.message(), None),
    }
}

/// The name of the tool and the arguments that the parameters of a call
/// give. The name is a string; arguments that are left out are an object
/// without members.
pub open spec fn call_params(params: JsonView) -> Option<(Seq<char>, JsonView)> {
    match params.text_member("name"@) {
        None => None,
        Some(name) => Some(
            (
                name,
                match params.member("arguments"@) {
                    Some(a) => a,
                    None => nothing(),
                },
            ),
        ),
    }
}

/// What the step of a tool means for the request that called it.
pub open spec fn after_tool(id: JsonView, step: ToolStepView) -> DispatchView {
    match step {
        ToolStepView::Done(r) => DispatchView::Reply(tool_response(id, r)),
        ToolStepView::Upstream(request) => DispatchView::Upstream { id, request },
        ToolStepView::Cluster(wait) => DispatchView::Cluster { id, wait },
    }
}

/// What the call of a tool comes to.
pub open spec fn tool_call(client: ApiClient, cfg: Config, req: RequestView) -> DispatchView {
    let found = match req.params {
        Some(p) => call_params(p),
        None => None,
    };
    match found {
        None => DispatchView::Reply(failure(req.id, INVALID_PARAMS as int, "invalid params"@, None)),
        Some((name, args)) => after_tool(req.id, call_step(client, cfg, name, args)),
    }
}

/// What the request for a prompt comes to.
pub open spec fn prompt_request(req: RequestView) -> DispatchView {
    let name = match req.params {
        Some(p) => p.text_member("name"@),
        None => None,
    };
    match name {
        Some(n) => DispatchView::Reply(success(req.id, crate::prompts::get::prompt(n))),
        None => DispatchView::Reply(failure(req.id, INVALID_PARAMS as int, "missing name"@, None)),
    }
}

/// What a request comes to. Every request comes to exactly one response,
/// at once or after one reply, and the response bears the id of the request.
pub open spec fn dispatched(client: ApiClient, cfg: Config, req: RequestView) -> DispatchView {
    if req.method == "initialize"@ {
        DispatchView::Reply(success(req.id, handshake()))
    } else if req.method == "tools/list"@ {
        DispatchView::Reply(success(req.id, listed("tools"@, JsonView::Array(catalog()))))
    } else if req.method == "tools/call"@ {
        tool_call(client, cfg, req)
    } else if req.method == "resources/list"@ {
        DispatchView::Reply(
            success(req.id, listed("resources"@, JsonView::Array(crate::resources::registry::registry()))),
        )
    } else if req.method == "prompts/list"@ {
        DispatchView::Reply(
            success(req.id, listed("prompts"@, JsonView::Array(crate::prompts::list::listings()))),
        )
    } else if req.method == "prompts/get"@ {
        prompt_request(req)
    } else {
        DispatchView::Reply(failure(req.id, METHOD_NOT_FOUND as int, "method not found"@, None))
    }
}

/// The line that tells a response.
pub open spec fn response_line(r: ResponseView) -> Seq<char> {
    json_text(r.document())
}

/// The line that answers a line that is no request: a parse error that bears
/// no id.
pub open spec fn parse_error_line(reason: Seq<char>) -> Seq<char> {
    response_line(failure(JsonView::Null, PARSE_ERROR as int, "parse error: "@ + reason, None))
}

/// What a dispatch means for the line that was read.
pub open spec fn after_dispatch(d: DispatchView) -> LineStepView {
    match d {
        DispatchView::Reply(r) => LineStepView::Respond(response_line(r)),
        DispatchView::Upstream { id, request } => LineStepView::Upstream { id, request },
        DispatchView::Cluster { id, wait } => LineStepView::Cluster { id, wait },
    }
}

/// What a line that is not blank comes to, given what was read from it.
pub open spec fn parsed_step(
    client: ApiClient,
    cfg: Config,
    parsed: Result<JsonView, Seq<char>>,
) -> LineStepView {
    match parsed {
        Err(e) => LineStepView::Respond(parse_error_line(e)),
        Ok(j) => match request_of(j) {
            Err(e) => LineStepView::Respond(parse_error_line(e)),
            Ok(req) => after_dispatch(dispatched(client, cfg, req)),
        },
    }
}

/// What a line of input comes to.
pub open spec fn line_step(client: ApiClient, cfg: Config, line: Seq<char>) -> LineStepView {
    if trim(line).len() == 0 {
        LineStepView::Skip
    } else {
        parsed_step(client, cfg, json_parse(line))
    }
}

/// What comes back from outside for a line that waits: the reply of the
/// upstream service, and the reply of the cluster. A line waits for one of
/// them at most.
pub ghost struct Replies {
    pub upstream: HttpReplyView,
    pub cluster: ClusterReplyView,
}

/// The response that a request comes to in the end, once what it waited for
/// has come back.
pub open spec fn settled(d: DispatchView, back: Replies) -> ResponseView {
    match d {
        DispatchView::Reply(r) => r,
        DispatchView::Upstream { id, .. } => tool_response(id, upstream_outcome(back.upstream)),
        DispatchView::Cluster { id, wait } => tool_response(
            id,
            cluster_outcome(wait, back.cluster),
        ),
    }
}

/// The response that a line of input comes to in the end; none for a blank
/// line.
pub open spec fn answered(client: ApiClient, cfg: Config, line: Seq<char>, back: Replies) -> Option<
    ResponseView,
> {
    if trim(line).len() == 0 {
        None
    } else {
        match json_parse(line) {
            Err(e) => Some(failure(JsonView::Null, PARSE_ERROR as int, "parse error: "@ + e, None)),
            Ok(j) => match request_of(j) {
                Err(e) => Some(
                    failure(JsonView::Null, PARSE_ERROR as int, "parse error: "@ + e, None),
                ),
                Ok(req) => Some(settled(dispatched(client, cfg, req), back)),
            },
        }
    }
}

/// The request that a line holds, where it holds one.
pub open spec fn requested(line: Seq<char>) -> Option<RequestView> {
    match json_parse(line) {
        Ok(j) => match request_of(j) {
            Ok(req) => Some(req),
            Err(_) => None,
        },
        Err(_) => None,
    }
}

/// Whether there is a response, it bears the id of the request, and it has
/// a result or an error and not both.
pub open spec fn answers(response: Option<ResponseView>, req: RequestView) -> bool {
    response matches Some(r) && r.id == req.id && r.well_formed()
}

/// The line that is written for a line of input in the end; none for a
/// blank line.
pub open spec fn written(client: ApiClient, cfg: Config, line: Seq<char>, back: Replies) -> Option<
    Seq<char>,
> {
    match answered(client, cfg, line, back) {
        Some(r) => Some(response_line(r)),
        None => None,
    }
}

/// The lines that are written for lines of input where each line is
/// finished before the next is taken: for each line in turn what is written
/// for it, given what came back for it.
pub open spec fn transcript(
    client: ApiClient,
    cfg: Config,
    lines: Seq<Seq<char>>,
    back: Seq<Replies>,
) -> Seq<Seq<char>>
    decreases lines.len(),
{
    if lines.len() == 0 {
        Seq::empty()
    } else {
        let before = transcript(client, cfg, lines.drop_last(), back.drop_last());
        match written(client, cfg, lines.last(), back.last()) {
            Some(out) => before.push(out),
            None => before,
        }
    }
}

/// What was read from a line.
pub open spec fn parsed_view(parsed: Result<Json, String>) -> Result<JsonView, Seq<char>> {
    match parsed {
        Ok(j) => Ok(j@),
        Err(e) => Err(e@),
    }
}

/// The client of the upstream service that the configuration names.
pub fn upstream_client(cfg: &Config) -> (client: ApiClient)
    ensures
        client.base() == cfg.api_url@,
        client.api_key() == opt_text(cfg.api_key),
{
    ApiClient::new(cfg.api_url.clone(), cfg.api_key.clone())
}

fn empty_object() -> (j: Json)
    ensures
        j@ == nothing(),
{
    Members::new().finish()
}

fn under(key: &str, list: Json) -> (j: Json)
    ensures
        j@ == listed(key@, list@),
{
    let mut m = Members::new();
    m.put(key, list);
    m.finish()
}

fn handshake_result() -> (j: Json)
    ensures
        j@ == handshake(),
{
    let mut capabilities = Members::new();
    capabilities.put("tools", empty_object());
    capabilities.put("resources", empty_object());
    capabilities.put("prompts", empty_object());
    let mut info = Members::new();
    info.put("name", Json::text("ectusr2"));
    info.put("version", Json::text("0.1.0"));
    let mut m = Members::new();
    m.put("protocolVersion", Json::text("2024-11-05"));
    m.put("capabilities", capabilities.finish());
    m.put("serverInfo", info.finish());
    m.finish()
}

fn content_of(text: &str) -> (j: Json)
    ensures
        j@ == content(text@),
{
    let mut part = Members::new();
    part.put("type", Json::text("text"));
    part.put("text", Json::text(text));
    let mut parts = Items::new();
    parts.put(part.finish());
    let mut m = Members::new();
    m.put("content", parts.finish());
    m.finish()
}

/// The response that tells an error.
pub fn error(id: Json, code: i32, msg: &str, data: Option<Json>) -> (r: JsonRpcResponse)
    ensures
        r@ == failure(id@, code as int, msg@, opt_view(data)),
{
    JsonRpcResponse::failure(id, code, msg, data)
}

/// The name of the tool and the arguments that the parameters of a call
/// give.
pub fn parse_call_params(v: &Json) -> (r: Option<(String, Json)>)
    ensures
        match r {
            Some((name, args)) => call_params(v@) == Some((name@, args@)),
            None => call_params(v@) is None,
        },
{
    let name = match v.get_str("name") {
        Some(n) => n.to_owned(),
        None => {
            return None;
        },
    };
    let args = match v.get("arguments") {
        Some(a) => a.duplicate(),
        None => empty_object(),
    };
    Some((name, args))
}

/// The response to the call of a tool, made from what the tool came to.
pub fn tool_reply(id: Json, result: Result<String, EctusError>) -> (r: JsonRpcResponse)
    ensures
        r@ == tool_response(id@, outcome(result)),
{
    match result {
        Ok(text) => JsonRpcResponse::success(id, content_of(text.as_str())),
        Err(e) => error(id, TOOL_FAILURE, e.message(), None),
    }
}

fn follow(id: Json, step: ToolStep) -> (d: Dispatch)
    ensures
        d@ == after_tool(id@, step@),
{
    match step {
        ToolStep::Done(r) => Dispatch::Reply(tool_reply(id, r)),
        ToolStep::Upstream(request) => Dispatch::Upstream { id, request },
        ToolStep::Cluster(wait) => Dispatch::Cluster { id, wait },
    }
}

/// Answers a request, as far as that can be done without reaching out.
pub fn handle_request(client: &ApiClient, cfg: &Config, req: JsonRpcRequest) -> (d: Dispatch)
    ensures
        d@ == dispatched(*client, *cfg, req@),
{
    let method = req.method.as_str();
    if same_text(method, "initialize") {
        Dispatch::Reply(JsonRpcResponse::success(req.id, handshake_result()))
    } else if same_text(method, "tools/list") {
        Dispatch::Reply(JsonRpcResponse::success(req.id, under("tools", crate::tools::list())))
    } else if same_text(method, "tools/call") {
        let found = match &req.params {
            Some(p) => parse_call_params(p),
            None => None,
        };
        match found {
            Some((name, args)) => {
                let step = crate::tools::call(client, cfg, name.as_str(), args);
                follow(req.id, step)
            },
            None => Dispatch::Reply(error(req.id, INVALID_PARAMS, "invalid params", None)),
        }
    } else if same_text(method, "resources/list") {
        Dispatch::Reply(
            JsonRpcResponse::success(req.id, under("resources", crate::resources::registry::list())),
        )
    } else if same_text(method, "prompts/list") {
        Dispatch::Reply(JsonRpcResponse::success(req.id, under("prompts", crate::prompts::list::list())))
    } else if same_text(method, "prompts/get") {
        let name: Option<&str> = match &req.params {
            Some(p) => p.get_str("name"),
            None => None,
        };
        match name {
            Some(n) => Dispatch::Reply(JsonRpcResponse::success(req.id, crate::prompts::get::get(n))),
            None => Dispatch::Reply(error(req.id, INVALID_PARAMS, "missing name", None)),
        }
    } else {
        Dispatch::Reply(error(req.id, METHOD_NOT_FOUND, "method not found", None))
    }
}

/// The response to a request that waited for the upstream service.
pub fn complete_upstream(id: Json, reply: HttpReply) -> (r: JsonRpcResponse)
    ensures
        r@ == tool_response(id@, upstream_outcome(reply@)),
{
    tool_reply(id, crate::tools::upstream_done(reply))
}

/// The response to a request that waited for a cluster.
pub fn complete_cluster(id: Json, wait: ClusterWait, reply: ClusterReply) -> (r: JsonRpcResponse)
    ensures
        r@ == tool_response(id@, cluster_outcome(wait@, reply@)),
{
    tool_reply(id, wait.done(reply))
}

/// The line that tells a response.
pub fn respond(response: &JsonRpcResponse) -> (line: String)
    ensures
        line@ == response_line(response@),
        one_line(line@),
{
    response.to_json().render()
}

/// The line that answers a line that is no request.
pub fn parse_error(reason: &str) -> (line: String)
    ensures
        line@ == parse_error_line(reason@),
        one_line(line@),
{
    let mut msg = String::new();
    msg.append("parse error: ");
    msg.append(reason);
    respond(&error(Json::Null, PARSE_ERROR, msg.as_str(), None))
}

fn proceed(d: Dispatch) -> (step: LineStep)
    ensures
        step@ == after_dispatch(d@),
        step matches LineStep::Respond(line) ==> one_line(line@),
{
    match d {
        Dispatch::Reply(r) => LineStep::Respond(respond(&r)),
        Dispatch::Upstream { id, request } => LineStep::Upstream { id, request },
        Dispatch::Cluster { id, wait } => LineStep::Cluster { id, wait },
    }
}

/// What a line that is not blank comes to, given what was read from it:
/// a parse error where no document was read or the document is no request,
/// and else what the request comes to.
pub fn handle_parsed(client: &ApiClient, cfg: &Config, parsed: Result<Json, String>) -> (step:
    LineStep)
    ensures
        step@ == parsed_step(*client, *cfg, parsed_view(parsed)),
        step matches LineStep::Respond(line) ==> one_line(line@),
{
    match parsed {
        Err(e) => LineStep::Respond(parse_error(e.as_str())),
        Ok(j) => match JsonRpcRequest::from_json(&j) {
            Err(e) => LineStep::Respond(parse_error(e.as_str())),
            Ok(req) => proceed(handle_request(client, cfg, req)),
        },
    }
}

/// What a line of input comes to. A blank line is passed over. Every other
/// line comes to exactly one line of output, at once or after one reply.
pub fn handle_line(client: &ApiClient, cfg: &Config, line: &str) -> (step: LineStep)
    ensures
        step@ == line_step(*client, *cfg, line@),
        step matches LineStep::Respond(out) ==> one_line(out@),
{
    if is_blank(line) {
        return LineStep::Skip;
    }
    handle_parsed(client, cfg, Json::parse(line))
}

/// The line to write for a request that waited for the upstream service.
pub fn finish_upstream(id: Json, reply: HttpReply) -> (line: String)
    ensures
        line@ == response_line(tool_response(id@, upstream_outcome(reply@))),
        one_line(line@),
{
    respond(&complete_upstream(id, reply))
}

/// The line to write for a request that waited for a cluster.
pub fn finish_cluster(id: Json, wait: ClusterWait, reply: ClusterReply) -> (line: String)
    ensures
        line@ == response_line(tool_response(id@, cluster_outcome(wait@, reply@))),
        one_line(line@),
{
    respond(&complete_cluster(id, wait, reply))
}

/// A response has a result or an error, and not both, whatever the request;
/// and it bears the id of the request.
pub proof fn lemma_one_response(client: ApiClient, cfg: Config, req: RequestView)
    ensures
        dispatched(client, cfg, req) matches DispatchView::Reply(r) ==> r.well_formed() && r.id
            == req.id,
        dispatched(client, cfg, req) matches DispatchView::Upstream { id, .. } ==> id == req.id,
        dispatched(client, cfg, req) matches DispatchView::Cluster { id, .. } ==> id == req.id,
{
}

/// The response to a request that waited has a result or an error, and not
/// both, and bears the id that it is made with.
pub proof fn lemma_one_response_after_reply(id: JsonView, outcome: Result<Seq<char>, Failure>)
    ensures
        tool_response(id, outcome).well_formed(),
        tool_response(id, outcome).id == id,
{
}

/// What is written for a line is what the steps give: the line of
/// `handle_line` where that answers at once, and else the line that
/// `finish_upstream` or `finish_cluster` makes from what came back.
pub proof fn lemma_written_by_the_steps(
    client: ApiClient,
    cfg: Config,
    line: Seq<char>,
    back: Replies,
)
    ensures
        match line_step(client, cfg, line) {
            LineStepView::Skip => written(client, cfg, line, back) is None,
            LineStepView::Respond(out) => written(client, cfg, line, back) == Some(out),
            LineStepView::Upstream { id, .. } => written(client, cfg, line, back) == Some(
                response_line(tool_response(id, upstream_outcome(back.upstream))),
            ),
            LineStepView::Cluster { id, wait } => written(client, cfg, line, back) == Some(
                response_line(tool_response(id, cluster_outcome(wait, back.cluster))),
            ),
        },
{
}

/// The response that a line with a request comes to in the end has a result
/// or an error, and not both, and bears the id of the request, whether the
/// request waited or not.
pub proof fn lemma_response_bears_the_id(
    client: ApiClient,
    cfg: Config,
    line: Seq<char>,
    back: Replies,
)
    requires
        trim(line).len() > 0,
    ensures
        match requested(line) {
            Some(req) => answers(answered(client, cfg, line, back), req),
            None => true,
        },
{
    if let Ok(j) = json_parse(line) {
        if let Ok(req) = request_of(j) {
            lemma_one_response(client, cfg, req);
            match dispatched(client, cfg, req) {
                DispatchView::Reply(r) => {},
                DispatchView::Upstream { id, .. } => {
                    lemma_one_response_after_reply(id, upstream_outcome(back.upstream));
                },
                DispatchView::Cluster { id, wait } => {
                    lemma_one_response_after_reply(id, cluster_outcome(wait, back.cluster));
                },
            }
        }
    }
}

/// Responses leave in the order in which the requests came. For lines of
/// input of which none is blank, as many lines are written as were read, and
/// the nth line written is the response to the nth line read, whatever came
/// back for the other lines. Where the nth line holds a request, that
/// response bears the id of the request.
pub proof fn lemma_responses_in_order(
    client: ApiClient,
    cfg: Config,
    lines: Seq<Seq<char>>,
    back: Seq<Replies>,
)
    requires
        back.len() == lines.len(),
        forall|n: int| 0 <= n < lines.len() ==> trim(#[trigger] lines[n]).len() > 0,
    ensures
        transcript(client, cfg, lines, back).len() == lines.len(),
        forall|n: int|
            0 <= n < lines.len() ==> written(client, cfg, lines[n], back[n]) == Some(
                #[trigger] transcript(client, cfg, lines, back)[n],
            ),
        forall|n: int|
            0 <= n < lines.len() ==> (#[trigger] requested(lines[n]) matches Some(req) ==> answers(
                answered(client, cfg, lines[n], back[n]),
                req,
            )),
    decreases lines.len(),
{
    if lines.len() > 0 {
        let head = lines.drop_last();
        let head_back = back.drop_last();
        lemma_responses_in_order(client, cfg, head, head_back);
        let all = transcript(client, cfg, lines, back);
        let before = transcript(client, cfg, head, head_back);
        assert(written(client, cfg, lines.last(), back.last()) is Some);
        assert forall|n: int| 0 <= n < lines.len() implies written(
            client,
            cfg,
            lines[n],
            back[n],
        ) == Some(#[trigger] all[n]) by {
            if n < lines.len() - 1 {
                assert(head[n] == lines[n] && head_back[n] == back[n]);
                assert(all[n] == before[n]);
            }
        }
        assert forall|n: int| 0 <= n < lines.len() implies (#[trigger] requested(
            lines[n],
        ) matches Some(req) ==> answers(answered(client, cfg, lines[n], back[n]), req)) by {
            lemma_response_bears_the_id(client, cfg, lines[n], back[n]);
        }
    }
}

/// A line that is not blank and from which no document can be read is
/// answered with one line: a parse error without an id. What is read from
/// one line does not bear on the next: `line_step` knows of no earlier line.
pub proof fn lemma_malformed_line(client: ApiClient, cfg: Config, line: Seq<char>)
    requires
        trim(line).len() > 0,
        json_parse(line) is Err,
    ensures
        line_step(client, cfg, line) == LineStepView::Respond(
            parse_error_line(json_parse(line)->Err_0),
        ),
{
}

} // verus!
