use vstd::prelude::*;
use crate::bridge::{
    plan_call, plan_model, CallPlan, CallPlanModel, ToolAction, ToolActionModel,
};
use crate::codec::{compact_text, decoded, parse_json, to_text};
use crate::json::{ArrayBuilder, Json, JsonModel, ObjectBuilder};
use crate::registry::{CACHE_STATS_URI, CONFIG_URI};
use crate::rpc::{
    decode_request, failure_model, opt_json, parse_failure, parse_failure_model, success_model,
    JsonRpcRequest, JsonRpcResponse, RequestModel, ResponseModel, INTERNAL_ERROR, INVALID_PARAMS,
    METHOD_NOT_FOUND,
};
use crate::server::{
    handle_initialize, handle_initialized, handle_ping, handle_resources_list, handle_tools_list,
    initialize_step, initialized_step, offered_tools, ping_response, resources_list_response,
    tools_list_response, tools_offered, McpServerState, ServerModel,
};
use crate::text::{joined, str_equal};

verus! {

/// What the cache store said when it was asked for its statistics.
#[derive(Debug, PartialEq, Eq)]
pub enum CacheReport {
    /// There is no cache store.
    Unavailable,
    /// The statistics.
    Stats(Json),
    /// The store failed, for this reason.
    Failed(String),
}

pub enum CacheReportModel {
    Unavailable,
    Stats(JsonModel),
    Failed(Seq<char>),
}

impl CacheReport {
    pub open spec fn view(&self) -> CacheReportModel {
        match self {
            CacheReport::Unavailable => CacheReportModel::Unavailable,
            CacheReport::Stats(j) => CacheReportModel::Stats(j@),
            CacheReport::Failed(why) => CacheReportModel::Failed(why@),
        }
    }
}

/// What the server does with one request.
#[derive(Debug, PartialEq, Eq)]
pub enum Outcome {
    /// This answer goes to the client.
    Reply(JsonRpcResponse),
    /// The request was a notification: nothing goes to the client.
    Accepted,
    /// A collaborator is to run the tool; `render_tool_result` then makes
    /// the answer of what it hands back.
    CallTool { id: Option<Json>, action: ToolAction },
    /// The cache store is to be asked for its statistics;
    /// `complete_cache_stats` then makes the answer of what it says.
    ReadCacheStats { id: Option<Json> },
}

pub enum OutcomeModel {
    Reply(ResponseModel),
    Accepted,
    CallTool { id: Option<JsonModel>, action: ToolActionModel },
    ReadCacheStats { id: Option<JsonModel> },
}

impl Outcome {
    pub open spec fn view(&self) -> OutcomeModel {
        match self {
            Outcome::Reply(r) => OutcomeModel::Reply(r@),
            Outcome::Accepted => OutcomeModel::Accepted,
            Outcome::CallTool { id, action } => OutcomeModel::CallTool {
                id: opt_json(*id),
                action: action@,
            },
            Outcome::ReadCacheStats { id } => OutcomeModel::ReadCacheStats { id: opt_json(*id) },
        }
    }
}

/// The configuration that the resource `m3u8://config` shows.
pub open spec fn config_doc() -> JsonModel {
    JsonModel::Object(
        Seq::empty().push(("ffmpeg_path"@, JsonModel::Text("ffmpeg"@))).push(
            ("output_dir"@, JsonModel::Text("~/Downloads/m3u8-mcp"@)),
        ).push(("cache_enabled"@, JsonModel::Bool(true))),
    )
}

/// What the resource `m3u8://cache/stats` shows where there is no cache
/// store.
pub open spec fn no_cache_doc() -> JsonModel {
    JsonModel::Object(
        Seq::empty().push(("error"@, JsonModel::Text("Database not initialized"@))),
    )
}

/// What `resources/read` answers: the one content of the resource `uri`,
/// as JSON text.
pub open spec fn contents_model(uri: Seq<char>, text: Seq<char>) -> JsonModel {
    JsonModel::Object(
        Seq::empty().push(
            (
                "contents"@,
                JsonModel::Array(
                    Seq::empty().push(
                        JsonModel::Object(
                            Seq::empty().push(("uri"@, JsonModel::Text(uri))).push(
                                ("mimeType"@, JsonModel::Text("application/json"@)),
                            ).push(("text"@, JsonModel::Text(text))),
                        ),
                    ),
                ),
            ),
        ),
    )
}

/// The answer that shows `text` as the content of the resource `uri`, or
/// reports an internal error where there is no text to show.
pub open spec fn contents_response(
    id: Option<JsonModel>,
    uri: Seq<char>,
    text: Option<Seq<char>>,
) -> ResponseModel {
    match text {
        Some(t) => success_model(id, contents_model(uri, t)),
        None => failure_model(id, INTERNAL_ERROR as int, "Failed to serialize resource"@),
    }
}

/// The answer that shows `doc` as the content of the resource `uri`, or
/// reports an internal error where `doc` cannot be written as JSON text.
pub open spec fn document_response(
    id: Option<JsonModel>,
    uri: Seq<char>,
    doc: JsonModel,
) -> ResponseModel {
    contents_response(id, uri, compact_text(doc))
}

/// `resources/read`: the configuration is answered at once, the cache
/// statistics after the cache store was asked; a request without a string
/// `uri`, or for a URI that names no resource, is refused as invalid.
pub open spec fn resources_read_outcome(
    id: Option<JsonModel>,
    params: Option<JsonModel>,
) -> OutcomeModel {
    match params {
        None => OutcomeModel::Reply(failure_model(id, INVALID_PARAMS as int, "Invalid params"@)),
        Some(p) => match p.text_field("uri"@) {
            None => OutcomeModel::Reply(
                failure_model(id, INVALID_PARAMS as int, "Missing required parameter: uri"@),
            ),
            Some(uri) => if uri == CONFIG_URI@ {
                OutcomeModel::Reply(document_response(id, uri, config_doc()))
            } else if uri == CACHE_STATS_URI@ {
                OutcomeModel::ReadCacheStats { id }
            } else {
                OutcomeModel::Reply(
                    failure_model(id, INVALID_PARAMS as int, "Unknown resource URI: "@ + uri),
                )
            },
        },
    }
}

/// The answer to a read of the cache statistics, given what the cache
/// store said.
pub open spec fn cache_stats_response(
    id: Option<JsonModel>,
    report: CacheReportModel,
) -> ResponseModel {
    match report {
        CacheReportModel::Stats(stats) => document_response(id, CACHE_STATS_URI@, stats),
        CacheReportModel::Unavailable => document_response(id, CACHE_STATS_URI@, no_cache_doc()),
        CacheReportModel::Failed(why) => failure_model(
            id,
            INTERNAL_ERROR as int,
            "Failed to get cache stats: "@ + why,
        ),
    }
}

/// `tools/call`: the call is refused, or handed to the collaborator. Only
/// the tools that the session of the connection was offered can be called.
pub open spec fn tools_call_outcome(
    s: ServerModel,
    session_id: Seq<char>,
    id: Option<JsonModel>,
    params: Option<JsonModel>,
) -> OutcomeModel {
    match plan_model(offered_tools(s, session_id), params) {
        CallPlanModel::Reject { code, message } => OutcomeModel::Reply(
            failure_model(id, code, message),
        ),
        CallPlanModel::Invoke { action } => OutcomeModel::CallTool { id, action },
    }
}

/// The answer to a request for a method that the server does not have.
pub open spec fn method_not_found_response(
    id: Option<JsonModel>,
    method: Seq<char>,
) -> ResponseModel {
    failure_model(id, METHOD_NOT_FOUND as int, "Method not found: "@ + method)
}

/// What becomes of a request that expects an answer: the state of the
/// server afterwards, and what the server does.
pub open spec fn route_step(s: ServerModel, session_id: Seq<char>, now: u64, req: RequestModel) -> (
    ServerModel,
    OutcomeModel,
) {
    if req.method == "initialize"@ {
        let (after, response) = initialize_step(s, session_id, now, req.id);
        (after, OutcomeModel::Reply(response))
    } else if req.method == "initialized"@ {
        let (after, response) = initialized_step(s, session_id, now, req.id);
        (after, OutcomeModel::Reply(response))
    } else if req.method == "tools/list"@ {
        (s, OutcomeModel::Reply(tools_list_response(s, session_id, req.id)))
    } else if req.method == "tools/call"@ {
        (s, tools_call_outcome(s, session_id, req.id, req.params))
    } else if req.method == "resources/list"@ {
        (s, OutcomeModel::Reply(resources_list_response(s, session_id, req.id)))
    } else if req.method == "resources/read"@ {
        (s, resources_read_outcome(req.id, req.params))
    } else if req.method == "ping"@ {
        (s, OutcomeModel::Reply(ping_response(req.id)))
    } else {
        (s, OutcomeModel::Reply(method_not_found_response(req.id, req.method)))
    }
}

/// What becomes of a request. A notification changes the sessions as a
/// request would, but nothing is answered and no collaborator is asked.
pub open spec fn handle_step(
    s: ServerModel,
    session_id: Seq<char>,
    now: u64,
    req: RequestModel,
) -> (ServerModel, OutcomeModel) {
    let (after, outcome) = route_step(s, session_id, now, req);
    if req.id is None {
        (after, OutcomeModel::Accepted)
    } else {
        (after, outcome)
    }
}

/// The answer that shows `text` as the content of the resource `uri`, or
/// reports an internal error where there is no text to show.
pub fn contents_reply(request_id: Option<Json>, uri: &str, text: Option<String>) -> (response:
    JsonRpcResponse)
    ensures
        response@ == contents_response(
            opt_json(request_id),
            uri@,
            match text {
                Some(t) => Some(t@),
                None => None,
            },
        ),
{
    match text {
        Some(text) => {
            let content = ObjectBuilder::new().with("uri", Json::text(uri)).with(
                "mimeType",
                Json::text("application/json"),
            ).with("text", Json::Text(text)).build();
            let result = ObjectBuilder::new().with(
                "contents",
                ArrayBuilder::new().with(content).build(),
            ).build();
            JsonRpcResponse::success(request_id, result)
        },
        None => JsonRpcResponse::failure(
            request_id,
            INTERNAL_ERROR,
            String::from_str("Failed to serialize resource"),
        ),
    }
}

fn document_reply(request_id: Option<Json>, uri: &str, doc: &Json) -> (response: JsonRpcResponse)
    ensures
        response@ == document_response(opt_json(request_id), uri@, doc@),
        doc@.plain_numbers() ==> compact_text(doc@) is Some && response@.error is None,
{
    contents_reply(request_id, uri, to_text(doc))
}

/// Whether the server answers at once, with a result.
pub open spec fn answers_with_result(outcome: OutcomeModel) -> bool {
    match outcome {
        OutcomeModel::Reply(r) => r.error is None && r.result is Some,
        _ => false,
    }
}

/// The configuration holds no number, so it can always be written as text.
pub proof fn lemma_config_has_plain_numbers()
    ensures
        config_doc().plain_numbers(),
{
    let members = config_doc()->Object_0;
    assert forall|i: int| 0 <= i < members.len() implies (
    #[trigger] members[i]).1.plain_numbers() by {
        if i == 0 {
        } else if i == 1 {
        } else {
            assert(i == 2);
        }
    }
}

/// Serves `resources/read` as far as the server can by itself. A read of
/// the configuration is always answered with a result.
pub fn handle_resources_read(request_id: Option<Json>, params: Option<&Json>) -> (outcome: Outcome)
    ensures
        outcome@ == resources_read_outcome(opt_json(request_id), match params {
            Some(p) => Some(p@),
            None => None,
        }),
        (params matches Some(p) && p@.text_field("uri"@) == Some(CONFIG_URI@))
            ==> answers_with_result(outcome@) && compact_text(config_doc()) is Some,
{
    let p = match params {
        Some(p) => p,
        None => {
            return Outcome::Reply(
                JsonRpcResponse::failure(
                    request_id,
                    INVALID_PARAMS,
                    String::from_str("Invalid params"),
                ),
            );
        },
    };
    let uri = match p.get("uri") {
        Some(v) => match v.as_str() {
            Some(u) => u,
            None => {
                return Outcome::Reply(
                    JsonRpcResponse::failure(
                        request_id,
                        INVALID_PARAMS,
                        String::from_str("Missing required parameter: uri"),
                    ),
                );
            },
        },
        None => {
            return Outcome::Reply(
                JsonRpcResponse::failure(
                    request_id,
                    INVALID_PARAMS,
                    String::from_str("Missing required parameter: uri"),
                ),
            );
        },
    };
    if str_equal(uri, CONFIG_URI) {
        let doc = ObjectBuilder::new().with("ffmpeg_path", Json::text("ffmpeg")).with(
            "output_dir",
            Json::text("~/Downloads/m3u8-mcp"),
        ).with("cache_enabled", Json::Bool(true)).build();
        proof {
            lemma_config_has_plain_numbers();
        }
        Outcome::Reply(document_reply(request_id, uri, &doc))
    } else if str_equal(uri, CACHE_STATS_URI) {
        Outcome::ReadCacheStats { id: request_id }
    } else {
        Outcome::Reply(
            JsonRpcResponse::failure(
                request_id,
                INVALID_PARAMS,
                joined("Unknown resource URI: ", uri),
            ),
        )
    }
}

/// The answer to a read of the cache statistics, once the cache store was
/// asked.
pub fn complete_cache_stats(request_id: Option<Json>, report: CacheReport) -> (response:
    JsonRpcResponse)
    ensures
        response@ == cache_stats_response(opt_json(request_id), report@),
        report is Unavailable ==> response@.error is None,
        (report matches CacheReport::Stats(stats) && stats@.plain_numbers())
            ==> response@.error is None,
{
    match report {
        CacheReport::Stats(stats) => document_reply(request_id, CACHE_STATS_URI, &stats),
        CacheReport::Unavailable => {
            let doc = ObjectBuilder::new().with(
                "error",
                Json::text("Database not initialized"),
            ).build();
            proof {
                let members = doc@->Object_0;
                assert forall|i: int| 0 <= i < members.len() implies (
                #[trigger] members[i]).1.plain_numbers() by {
                    assert(i == 0);
                }
            }
            document_reply(request_id, CACHE_STATS_URI, &doc)
        },
        CacheReport::Failed(why) => JsonRpcResponse::failure(
            request_id,
            INTERNAL_ERROR,
            joined("Failed to get cache stats: ", why.as_str()),
        ),
    }
}

/// Serves `tools/call` as far as the server can by itself: the call is
/// refused, or handed to the collaborator.
pub fn handle_tools_call(
    state: &McpServerState,
    session_id: &str,
    request_id: Option<Json>,
    params: Option<&Json>,
) -> (outcome: Outcome)
    ensures
        outcome@ == tools_call_outcome(
            state@,
            session_id@,
            opt_json(request_id),
            match params {
                Some(p) => Some(p@),
                None => None,
            },
        ),
{
    let tools = tools_offered(state, session_id);
    match plan_call(&tools, params) {
        CallPlan::Reject { code, message } => Outcome::Reply(
            JsonRpcResponse::failure(request_id, code, message),
        ),
        CallPlan::Invoke { action } => Outcome::CallTool { id: request_id, action },
    }
}

/// Serves one request: routes it by its method, and answers nothing to a
/// notification.
pub fn handle_jsonrpc_request(
    state: &mut McpServerState,
    session_id: &str,
    now: u64,
    request: JsonRpcRequest,
) -> (outcome: Outcome)
    ensures
        (final(state)@, outcome@) == handle_step(old(state)@, session_id@, now, request@),
{
    let JsonRpcRequest { jsonrpc: _, id, method, params } = request;
    let notification = id.is_none();
    let method = method.as_str();
    let outcome = if str_equal(method, "initialize") {
        Outcome::Reply(handle_initialize(state, session_id, now, id))
    } else if str_equal(method, "initialized") {
        Outcome::Reply(handle_initialized(state, session_id, now, id))
    } else if str_equal(method, "tools/list") {
        Outcome::Reply(handle_tools_list(state, session_id, id))
    } else if str_equal(method, "tools/call") {
        handle_tools_call(state, session_id, id, params.as_ref())
    } else if str_equal(method, "resources/list") {
        Outcome::Reply(handle_resources_list(state, session_id, id))
    } else if str_equal(method, "resources/read") {
        handle_resources_read(id, params.as_ref())
    } else if str_equal(method, "ping") {
        Outcome::Reply(handle_ping(id))
    } else {
        Outcome::Reply(
            JsonRpcResponse::failure(id, METHOD_NOT_FOUND, joined("Method not found: ", method)),
        )
    };
    if notification {
        Outcome::Accepted
    } else {
        outcome
    }
}

/// What the server does with one request body.
#[derive(Debug, PartialEq, Eq)]
pub enum Dispatch {
    /// The body held one request.
    Single(Outcome),
    /// The body held a batch: one outcome for each entry, in order.
    Batch(Vec<Outcome>),
}

pub enum DispatchModel {
    Single(OutcomeModel),
    Batch(Seq<OutcomeModel>),
}

pub open spec fn outcomes_model(outcomes: Seq<Outcome>) -> Seq<OutcomeModel> {
    Seq::new(outcomes.len(), |i: int| outcomes[i]@)
}

impl Dispatch {
    pub open spec fn view(&self) -> DispatchModel {
        match self {
            Dispatch::Single(o) => DispatchModel::Single(o@),
            Dispatch::Batch(all) => DispatchModel::Batch(outcomes_model(all@)),
        }
    }
}

/// What becomes of one document of a body: a document that is no request
/// gets the answer of a parse error, a request is served.
pub open spec fn document_step(s: ServerModel, session_id: Seq<char>, now: u64, doc: JsonModel) -> (
    ServerModel,
    OutcomeModel,
) {
    match decode_request(doc) {
        Err(why) => (s, OutcomeModel::Reply(parse_failure_model(why))),
        Ok(req) => handle_step(s, session_id, now, req),
    }
}

/// What becomes of the entries of a batch, served one after the other.
pub open spec fn batch_step(
    s: ServerModel,
    session_id: Seq<char>,
    now: u64,
    entries: Seq<JsonModel>,
) -> (ServerModel, Seq<OutcomeModel>)
    decreases entries.len(),
{
    if entries.len() == 0 {
        (s, Seq::empty())
    } else {
        let (before, outcomes) = batch_step(s, session_id, now, entries.drop_last());
        let (after, outcome) = document_step(before, session_id, now, entries.last());
        (after, outcomes.push(outcome))
    }
}

/// What becomes of a request body: a body that is no JSON gets the answer
/// of a parse error, an array is served as a batch, any other document as
/// one request.
pub open spec fn dispatch_step(s: ServerModel, session_id: Seq<char>, now: u64, body: Seq<u8>) -> (
    ServerModel,
    DispatchModel,
) {
    parsed_step(s, session_id, now, decoded(body))
}

/// Serves one document of a body.
pub fn handle_document(
    state: &mut McpServerState,
    session_id: &str,
    now: u64,
    doc: &Json,
) -> (outcome: Outcome)
    ensures
        (final(state)@, outcome@) == document_step(old(state)@, session_id@, now, doc@),
{
    match JsonRpcRequest::from_json(doc) {
        Err(why) => Outcome::Reply(parse_failure(why.as_str())),
        Ok(request) => handle_jsonrpc_request(state, session_id, now, request),
    }
}

/// Serves the entries of a batch, one after the other.
pub fn handle_batch(
    state: &mut McpServerState,
    session_id: &str,
    now: u64,
    entries: &Vec<Json>,
) -> (outcomes: Vec<Outcome>)
    ensures
        (final(state)@, outcomes_model(outcomes@)) == batch_step(
            old(state)@,
            session_id@,
            now,
            crate::json::items_model(entries@),
        ),
{
    let ghost all = crate::json::items_model(entries@);
    let mut outcomes: Vec<Outcome> = Vec::new();
    let mut i: usize = 0;
    proof {
        assert(all.take(0) =~= Seq::<JsonModel>::empty());
        assert(outcomes_model(outcomes@) =~= Seq::<OutcomeModel>::empty());
    }
    while i < entries.len()
        invariant
            0 <= i <= entries.len(),
            all == crate::json::items_model(entries@),
            (state@, outcomes_model(outcomes@)) == batch_step(
                old(state)@,
                session_id@,
                now,
                all.take(i as int),
            ),
        decreases entries.len() - i,
    {
        let ghost before = outcomes_model(outcomes@);
        let outcome = handle_document(state, session_id, now, &entries[i]);
        outcomes.push(outcome);
        proof {
            assert(all.take(i + 1).drop_last() =~= all.take(i as int));
            assert(all.take(i + 1).last() == entries@[i as int]@);
            assert(outcomes_model(outcomes@) =~= before.push(outcome@));
        }
        i += 1;
    }
    proof {
        assert(all.take(entries.len() as int) =~= all);
    }
    outcomes
}

/// What becomes of a request body, given what reading it as JSON gave.
pub open spec fn parsed_step(
    s: ServerModel,
    session_id: Seq<char>,
    now: u64,
    parsed: Result<JsonModel, Seq<char>>,
) -> (ServerModel, DispatchModel) {
    match parsed {
        Err(why) => (s, DispatchModel::Single(OutcomeModel::Reply(parse_failure_model(why)))),
        Ok(JsonModel::Array(entries)) => {
            let (after, outcomes) = batch_step(s, session_id, now, entries);
            (after, DispatchModel::Batch(outcomes))
        },
        Ok(doc) => {
            let (after, outcome) = document_step(s, session_id, now, doc);
            (after, DispatchModel::Single(outcome))
        },
    }
}

/// The models of what reading a body gave.
pub open spec fn parsed_model(parsed: Result<Json, String>) -> Result<JsonModel, Seq<char>> {
    match parsed {
        Ok(doc) => Ok(doc@),
        Err(why) => Err(why@),
    }
}

/// Serves a request body, given what reading it as JSON gave: the
/// document, or the reason why the body is none.
pub fn handle_parsed(
    state: &mut McpServerState,
    session_id: &str,
    now: u64,
    parsed: Result<Json, String>,
) -> (out: Dispatch)
    ensures
        (final(state)@, out@) == parsed_step(old(state)@, session_id@, now, parsed_model(parsed)),
{
    match parsed {
        Err(why) => Dispatch::Single(Outcome::Reply(parse_failure(why.as_str()))),
        Ok(Json::Array(entries)) => {
            proof {
                Json::lemma_array_view(entries);
            }
            Dispatch::Batch(handle_batch(state, session_id, now, &entries))
        },
        Ok(doc) => Dispatch::Single(handle_document(state, session_id, now, &doc)),
    }
}

/// Serves a request body.
pub fn dispatch(
    state: &mut McpServerState,
    session_id: &str,
    now: u64,
    body: &[u8],
) -> (out: Dispatch)
    ensures
        (final(state)@, out@) == dispatch_step(old(state)@, session_id@, now, body@),
{
    handle_parsed(state, session_id, now, parse_json(body))
}

/// Whether one of the outcomes is something else than the silence that
/// answers a notification.
pub open spec fn expects_reply(outcomes: Seq<OutcomeModel>) -> bool {
    exists|i: int| 0 <= i < outcomes.len() && !(outcomes[i] is Accepted)
}

/// The HTTP status that goes with what the server did: 202 where nothing
/// is answered, 200 where an answer follows.
pub open spec fn http_status_model(d: DispatchModel) -> u16 {
    match d {
        DispatchModel::Single(OutcomeModel::Accepted) => 202,
        DispatchModel::Single(_) => 200,
        DispatchModel::Batch(outcomes) => if expects_reply(outcomes) {
            200
        } else {
            202
        },
    }
}

/// The HTTP status that goes with what the server did.
pub fn http_status(d: &Dispatch) -> (status: u16)
    ensures
        status == http_status_model(d@),
{
    match d {
        Dispatch::Single(Outcome::Accepted) => 202,
        Dispatch::Single(_) => 200,
        Dispatch::Batch(outcomes) => {
            let mut i: usize = 0;
            while i < outcomes.len()
                invariant
                    0 <= i <= outcomes.len(),
                    d@ == DispatchModel::Batch(outcomes_model(outcomes@)),
                    forall|k: int| 0 <= k < i ==> outcomes_model(outcomes@)[k] is Accepted,
                decreases outcomes.len() - i,
            {
                match &outcomes[i] {
                    Outcome::Accepted => {},
                    _ => {
                        assert(0 <= i < outcomes_model(outcomes@).len() && !(outcomes_model(
                            outcomes@,
                        )[i as int] is Accepted));
                        assert(expects_reply(outcomes_model(outcomes@)));
                        return 200;
                    },
                }
                i += 1;
            }
            202
        },
    }
}

/// The media type of a JSON body.
pub const JSON_MEDIA_TYPE: &'static str = "application/json";

/// Whether a content type names JSON: the media type `application/json`,
/// alone or followed by parameters.
pub open spec fn is_json_media_type(value: Seq<char>) -> bool {
    &&& JSON_MEDIA_TYPE@.is_prefix_of(value)
    &&& (value.len() == JSON_MEDIA_TYPE@.len() || value[JSON_MEDIA_TYPE@.len() as int] == ';')
}

/// Whether a content type names JSON.
pub fn is_json_content_type(value: &str) -> (yes: bool)
    ensures
        yes == is_json_media_type(value@),
{
    proof {
        reveal_strlit("application/json");
    }
    let n = value.unicode_len();
    if n < 16 {
        return false;
    }
    let head = value.substring_char(0, 16);
    if !str_equal(head, JSON_MEDIA_TYPE) {
        proof {
            if JSON_MEDIA_TYPE@.is_prefix_of(value@) {
                assert(value@.subrange(0, 16) =~= JSON_MEDIA_TYPE@);
            }
        }
        return false;
    }
    assert(value@.subrange(0, 16) == JSON_MEDIA_TYPE@);
    assert(JSON_MEDIA_TYPE@.is_prefix_of(value@));
    n == 16 || value.get_char(16) == ';'
}

/// The answer to a body that is sent as something else than JSON.
pub open spec fn wrong_content_type_response() -> ResponseModel {
    parse_failure_model("unsupported content type"@)
}

/// What becomes of a request body that came with this content type: a
/// body that is sent as something else than JSON gets the answer of a
/// parse error and is not read; a body without content type is read as
/// JSON.
pub open spec fn http_step(
    s: ServerModel,
    session_id: Seq<char>,
    now: u64,
    content_type: Option<Seq<char>>,
    body: Seq<u8>,
) -> (ServerModel, DispatchModel) {
    match content_type {
        Some(value) => if is_json_media_type(value) {
            dispatch_step(s, session_id, now, body)
        } else {
            (s, DispatchModel::Single(OutcomeModel::Reply(wrong_content_type_response())))
        },
        None => dispatch_step(s, session_id, now, body),
    }
}

/// Serves a request body that came with this content type.
pub fn dispatch_http(
    state: &mut McpServerState,
    session_id: &str,
    now: u64,
    content_type: Option<&str>,
    body: &[u8],
) -> (out: Dispatch)
    ensures
        (final(state)@, out@) == http_step(
            old(state)@,
            session_id@,
            now,
            match content_type {
                Some(value) => Some(value@),
                None => None,
            },
            body@,
        ),
{
    match content_type {
        Some(value) => {
            if is_json_content_type(value) {
                dispatch(state, session_id, now, body)
            } else {
                Dispatch::Single(Outcome::Reply(parse_failure("unsupported content type")))
            }
        },
        None => dispatch(state, session_id, now, body),
    }
}

/// Whether serving a method may change the sessions.
pub open spec fn changes_sessions(method: Seq<char>) -> bool {
    method == "initialize"@ || method == "initialized"@
}

/// Whether a body can be served without changing the server: a body that
/// is no JSON, or that holds one document which is no request or asks for
/// a method that leaves the sessions alone. A batch is never served so.
pub open spec fn served_shared(body: Seq<u8>) -> bool {
    match decoded(body) {
        Err(_) => true,
        Ok(JsonModel::Array(_)) => false,
        Ok(doc) => match decode_request(doc) {
            Err(_) => true,
            Ok(req) => !changes_sessions(req.method),
        },
    }
}

/// Serves a request body while others may read the server too: the body
/// is served exactly where serving it changes nothing; otherwise nothing
/// is done, and the caller serves it with `dispatch` once the server is
/// its own.
pub fn dispatch_shared(state: &McpServerState, session_id: &str, now: u64, body: &[u8]) -> (out:
    Option<Dispatch>)
    ensures
        out is Some <==> served_shared(body@),
        out matches Some(d) ==> dispatch_step(state@, session_id@, now, body@) == (state@, d@),
{
    match parse_json(body) {
        Err(why) => Some(Dispatch::Single(Outcome::Reply(parse_failure(why.as_str())))),
        Ok(Json::Array(_)) => None,
        Ok(doc) => match JsonRpcRequest::from_json(&doc) {
            Err(why) => Some(Dispatch::Single(Outcome::Reply(parse_failure(why.as_str())))),
            Ok(request) => {
                let JsonRpcRequest { jsonrpc: _, id, method, params } = request;
                let notification = id.is_none();
                let method = method.as_str();
                let outcome = if str_equal(method, "initialize") || str_equal(
                    method,
                    "initialized",
                ) {
                    return None;
                } else if str_equal(method, "tools/list") {
                    Outcome::Reply(handle_tools_list(state, session_id, id))
                } else if str_equal(method, "tools/call") {
                    handle_tools_call(state, session_id, id, params.as_ref())
                } else if str_equal(method, "resources/list") {
                    Outcome::Reply(handle_resources_list(state, session_id, id))
                } else if str_equal(method, "resources/read") {
                    handle_resources_read(id, params.as_ref())
                } else if str_equal(method, "ping") {
                    Outcome::Reply(handle_ping(id))
                } else {
                    Outcome::Reply(
                        JsonRpcResponse::failure(
                            id,
                            METHOD_NOT_FOUND,
                            joined("Method not found: ", method),
                        ),
                    )
                };
                if notification {
                    Some(Dispatch::Single(Outcome::Accepted))
                } else {
                    Some(Dispatch::Single(outcome))
                }
            },
        },
    }
}

/// Serves a request body that came with this content type while others
/// may read the server too. A body that is sent as something else than
/// JSON is answered at once.
pub fn dispatch_shared_http(
    state: &McpServerState,
    session_id: &str,
    now: u64,
    content_type: Option<&str>,
    body: &[u8],
) -> (out: Option<Dispatch>)
    ensures
        out is Some <==> (match content_type {
            Some(value) => !is_json_media_type(value@) || served_shared(body@),
            None => served_shared(body@),
        }),
        out matches Some(d) ==> http_step(
            state@,
            session_id@,
            now,
            match content_type {
                Some(value) => Some(value@),
                None => None,
            },
            body@,
        ) == (state@, d@),
{
    match content_type {
        Some(value) => {
            if is_json_content_type(value) {
                dispatch_shared(state, session_id, now, body)
            } else {
                Some(Dispatch::Single(Outcome::Reply(parse_failure("unsupported content type"))))
            }
        },
        None => dispatch_shared(state, session_id, now, body),
    }
}

} // verus!
