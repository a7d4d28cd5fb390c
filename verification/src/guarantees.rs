use vstd::prelude::*;
use crate::bridge::{
    arguments_of, find_tool, first_missing, invalid, plan_model, required_names,
    tool_action_model, tool_response_model, CallPlanModel, ToolActionModel, ToolOutputModel,
};
use crate::codec::decoded;
use crate::dispatcher::{
    batch_step, dispatch_step, handle_step, http_status_model, http_step, is_json_media_type,
    tools_call_outcome, DispatchModel, OutcomeModel,
};
use crate::json::{find_member, JsonModel};
use crate::lifecycle::{ControllerModel, LifecycleError, ServerStatus, LOWEST_PORT};
use crate::registry::{
    allows, available_tools_model, catalogue_model, get_url_tool_model,
    lemma_empty_allowlist_offers_all, lemma_filter_source, parse_tool_model, set_url_tool_model,
    ToolModel,
};
use crate::rpc::{
    decode_request, success_model, RequestModel, ResponseModel, INVALID_PARAMS, METHOD_NOT_FOUND,
    PARSE_ERROR,
};
use crate::server::{
    empty_object, initialize_result_model, initialize_step, offered_tools, session_key,
    tools_list_model, tools_list_response, ServerModel, MCP_PROTOCOL_VERSION, SERVER_NAME,
    SERVER_VERSION,
};

verus! {

/// Whether `method` is one of the methods that the server has.
pub open spec fn known_method(method: Seq<char>) -> bool {
    ||| method == "initialize"@
    ||| method == "initialized"@
    ||| method == "tools/list"@
    ||| method == "tools/call"@
    ||| method == "resources/list"@
    ||| method == "resources/read"@
    ||| method == "ping"@
}

/// Whether `r` reports the error `code`, and nothing else, under `id`.
pub open spec fn reports(r: ResponseModel, id: Option<JsonModel>, code: int) -> bool {
    &&& r.id == id
    &&& r.result is None
    &&& match r.error {
        Some(e) => e.code == code,
        None => false,
    }
}

/// Whether the server answers at once, with the error `code` under `id`.
pub open spec fn refuses(outcome: OutcomeModel, id: Option<JsonModel>, code: int) -> bool {
    match outcome {
        OutcomeModel::Reply(r) => reports(r, id, code),
        _ => false,
    }
}

/// A `ping` that expects an answer gets an empty result under its own id,
/// and changes nothing in the server.
pub proof fn lemma_ping_echoes_id(
    s: ServerModel,
    session_id: Seq<char>,
    now: u64,
    req: RequestModel,
)
    requires
        req.method == "ping"@,
        req.id is Some,
    ensures
        handle_step(s, session_id, now, req) == (
            s,
            OutcomeModel::Reply(success_model(req.id, empty_object())),
        ),
{
    reveal_strlit("ping");
    reveal_strlit("initialize");
    reveal_strlit("initialized");
    reveal_strlit("tools/list");
    reveal_strlit("tools/call");
    reveal_strlit("resources/list");
    reveal_strlit("resources/read");
}

/// A body that holds one `ping` request with an id gets, as its one
/// answer, an empty result under that id.
pub proof fn lemma_ping_body(
    s: ServerModel,
    session_id: Seq<char>,
    now: u64,
    body: Seq<u8>,
    doc: JsonModel,
    req: RequestModel,
)
    requires
        decoded(body) == Ok::<JsonModel, Seq<char>>(doc),
        decode_request(doc) == Ok::<RequestModel, Seq<char>>(req),
        req.method == "ping"@,
        req.id is Some,
    ensures
        dispatch_step(s, session_id, now, body) == (
            s,
            DispatchModel::Single(OutcomeModel::Reply(success_model(req.id, empty_object()))),
        ),
{
    lemma_ping_echoes_id(s, session_id, now, req);
}

/// A body that is no JSON gets one answer: the error -32700, under no id.
/// The server is as it was.
pub proof fn lemma_invalid_json_is_parse_error(
    s: ServerModel,
    session_id: Seq<char>,
    now: u64,
    body: Seq<u8>,
)
    requires
        decoded(body) is Err,
    ensures
        dispatch_step(s, session_id, now, body).0 == s,
        match dispatch_step(s, session_id, now, body).1 {
            DispatchModel::Single(outcome) => refuses(outcome, None, PARSE_ERROR as int),
            DispatchModel::Batch(_) => false,
        },
        PARSE_ERROR == -32700,
{
}

/// A body that is sent as something else than JSON gets one answer, the
/// error -32700 under no id, whatever it holds. The server is as it was.
pub proof fn lemma_wrong_content_type_is_parse_error(
    s: ServerModel,
    session_id: Seq<char>,
    now: u64,
    content_type: Seq<char>,
    body: Seq<u8>,
)
    requires
        !is_json_media_type(content_type),
    ensures
        http_step(s, session_id, now, Some(content_type), body).0 == s,
        match http_step(s, session_id, now, Some(content_type), body).1 {
            DispatchModel::Single(outcome) => refuses(outcome, None, PARSE_ERROR as int),
            DispatchModel::Batch(_) => false,
        },
{
}

/// A request for a method that the server does not have, and that expects
/// an answer, gets the error -32601 under its own id. The server is as it
/// was.
pub proof fn lemma_unknown_method(
    s: ServerModel,
    session_id: Seq<char>,
    now: u64,
    req: RequestModel,
)
    requires
        !known_method(req.method),
        req.id is Some,
    ensures
        handle_step(s, session_id, now, req).0 == s,
        refuses(handle_step(s, session_id, now, req).1, req.id, METHOD_NOT_FOUND as int),
        METHOD_NOT_FOUND == -32601,
{
}

/// Every answer that the server gives to a request by itself holds a
/// result or an error, never both, and stands under the id of the request.
pub proof fn lemma_answers_are_well_formed(
    s: ServerModel,
    session_id: Seq<char>,
    now: u64,
    req: RequestModel,
)
    ensures
        handle_step(s, session_id, now, req).1 matches OutcomeModel::Reply(r) ==> r.well_formed()
            && r.id == req.id,
        handle_step(s, session_id, now, req).1 matches OutcomeModel::CallTool { id, .. } ==> id
            == req.id,
        handle_step(s, session_id, now, req).1 matches OutcomeModel::ReadCacheStats { id } ==> id
            == req.id,
        req.id is None <==> handle_step(s, session_id, now, req).1 is Accepted,
{
}

/// Initializing a session a second time keeps the time at which it was
/// created, and offers what was offered the first time: the same tools, the
/// same resources, and the same answer but for the id of the request.
pub proof fn lemma_initialize_twice(
    s: ServerModel,
    session_id: Seq<char>,
    first: u64,
    second: u64,
    id: Option<JsonModel>,
)
    ensures
        ({
            let (once, r1) = initialize_step(s, session_id, first, id);
            let (twice, r2) = initialize_step(once, session_id, second, id);
            let key = session_key(session_id);
            &&& once.sessions.contains_key(key)
            &&& twice.sessions.contains_key(key)
            &&& twice.sessions[key].created_at == once.sessions[key].created_at
            &&& twice.sessions[key].tools == once.sessions[key].tools
            &&& twice.sessions[key].resources == once.sessions[key].resources
            &&& twice.sessions[key].last_activity == second
            &&& twice.enabled == s.enabled
            &&& r2 == r1
            &&& forall|other: Seq<char>|
                other != key ==> (twice.sessions.contains_key(other)
                    <==> s.sessions.contains_key(other)) && (s.sessions.contains_key(other)
                    ==> twice.sessions[other] == s.sessions[other])
        }),
{
}

/// A session that is opened for the first time is created at the time of
/// the call, and a second `initialize` does not move that time.
pub proof fn lemma_created_at_is_first_call(
    s: ServerModel,
    session_id: Seq<char>,
    first: u64,
    second: u64,
    id: Option<JsonModel>,
)
    requires
        !s.sessions.contains_key(session_key(session_id)),
    ensures
        ({
            let (once, _r1) = initialize_step(s, session_id, first, id);
            let (twice, _r2) = initialize_step(once, session_id, second, id);
            twice.sessions[session_key(session_id)].created_at == first
        }),
{
}

/// After `initialize`, `tools/list` on the same session answers exactly
/// the tools of the catalogue that the allowlist lets through, in catalogue
/// order; with an empty allowlist, the whole catalogue.
pub proof fn lemma_tools_list_is_filtered_catalogue(
    s: ServerModel,
    session_id: Seq<char>,
    now: u64,
    id: Option<JsonModel>,
    list_id: Option<JsonModel>,
)
    ensures
        ({
            let (after, _r) = initialize_step(s, session_id, now, id);
            &&& tools_list_response(after, session_id, list_id) == success_model(
                list_id,
                tools_list_model(available_tools_model(s.enabled)),
            )
            &&& s.enabled.len() == 0 ==> tools_list_response(after, session_id, list_id)
                == success_model(list_id, tools_list_model(catalogue_model()))
        }),
{
    lemma_empty_allowlist_offers_all();
    if s.enabled.len() == 0 {
        assert(s.enabled =~= Seq::<Seq<char>>::empty());
    }
}

/// Where no session is open, `tools/list` answers what the allowlist lets
/// through as well.
pub proof fn lemma_tools_list_without_session(
    s: ServerModel,
    session_id: Seq<char>,
    list_id: Option<JsonModel>,
)
    requires
        !s.sessions.contains_key(session_key(session_id)),
    ensures
        tools_list_response(s, session_id, list_id) == success_model(
            list_id,
            tools_list_model(available_tools_model(s.enabled)),
        ),
{
}

/// A `tools/call` without a string `name` is refused with the error
/// -32602, under the id of the request.
pub proof fn lemma_call_without_name(
    s: ServerModel,
    session_id: Seq<char>,
    id: Option<JsonModel>,
    params: JsonModel,
)
    requires
        params.text_field("name"@) is None,
    ensures
        refuses(tools_call_outcome(s, session_id, id, Some(params)), id, INVALID_PARAMS as int),
        INVALID_PARAMS == -32602,
{
}

/// A call that is not refused goes to the collaborator with what the call
/// was read as; and whatever the collaborator hands back, a result or a
/// failure, the answer is a result with one content block, never an error
/// of the protocol.
pub proof fn lemma_accepted_call_never_fails_the_protocol(
    s: ServerModel,
    session_id: Seq<char>,
    id: Option<JsonModel>,
    params: JsonModel,
    outcome: Result<ToolOutputModel, Seq<char>>,
)
    requires
        plan_model(offered_tools(s, session_id), Some(params)) is Invoke,
    ensures
        tools_call_outcome(s, session_id, id, Some(params)) == (OutcomeModel::CallTool {
            id,
            action: plan_model(offered_tools(s, session_id), Some(params))->action,
        }),
        tool_response_model(id, outcome).error is None,
        tool_response_model(id, outcome).result is Some,
        tool_response_model(id, outcome).id == id,
{
}

/// A call of a tool that the session was not offered is refused with the
/// error -32601 and reaches no collaborator: a tool that the catalogue
/// does not hold, and a tool that the allowlist keeps back, alike.
pub proof fn lemma_call_of_unknown_tool(
    s: ServerModel,
    session_id: Seq<char>,
    id: Option<JsonModel>,
    params: JsonModel,
    name: Seq<char>,
)
    requires
        params.text_field("name"@) == Some(name),
        find_tool(offered_tools(s, session_id), name) is None,
    ensures
        refuses(tools_call_outcome(s, session_id, id, Some(params)), id, METHOD_NOT_FOUND as int),
        METHOD_NOT_FOUND == -32601,
{
}

/// No tool is found under a name that none of the tools has.
pub proof fn lemma_find_tool_none(tools: Seq<ToolModel>, name: Seq<char>)
    requires
        forall|i: int| 0 <= i < tools.len() ==> (#[trigger] tools[i]).name != name,
    ensures
        find_tool(tools, name) is None,
    decreases tools.len(),
{
    if tools.len() > 0 {
        assert(tools[0].name != name);
        assert forall|i: int| 0 <= i < tools.drop_first().len() implies (
        #[trigger] tools.drop_first()[i]).name != name by {
            assert(tools.drop_first()[i] == tools[i + 1]);
        }
        lemma_find_tool_none(tools.drop_first(), name);
    }
}

/// Once a session has initialized, a tool whose name the allowlist does
/// not let through cannot be called on it: the call is refused with the
/// error -32601.
pub proof fn lemma_allowlist_holds_for_calls(
    s: ServerModel,
    session_id: Seq<char>,
    now: u64,
    id: Option<JsonModel>,
    call_id: Option<JsonModel>,
    params: JsonModel,
    name: Seq<char>,
)
    requires
        params.text_field("name"@) == Some(name),
        !allows(s.enabled, name),
    ensures
        refuses(
            tools_call_outcome(
                initialize_step(s, session_id, now, id).0,
                session_id,
                call_id,
                Some(params),
            ),
            call_id,
            METHOD_NOT_FOUND as int,
        ),
{
    let after = initialize_step(s, session_id, now, id).0;
    let offered = offered_tools(after, session_id);
    assert(offered == available_tools_model(s.enabled));
    let keep = |t: ToolModel| allows(s.enabled, t.name);
    assert forall|i: int| 0 <= i < offered.len() implies (#[trigger] offered[i]).name != name by {
        lemma_filter_source(catalogue_model(), keep, i);
    }
    lemma_find_tool_none(offered, name);
}

/// A call that lacks a string argument that the tool's schema requires is
/// refused with the error -32602: an argument that is no string counts as
/// missing.
pub proof fn lemma_call_without_required_argument(
    s: ServerModel,
    session_id: Seq<char>,
    id: Option<JsonModel>,
    params: JsonModel,
    name: Seq<char>,
)
    requires
        params.text_field("name"@) == Some(name),
        find_tool(offered_tools(s, session_id), name) matches Some(tool) && first_missing(
            required_names(tool.input_schema),
            arguments_of(params),
        ) is Some,
    ensures
        refuses(tools_call_outcome(s, session_id, id, Some(params)), id, INVALID_PARAMS as int),
{
}

/// No two tools of the catalogue share a name.
pub proof fn lemma_tool_names_differ()
    ensures
        "m3u8_set_url"@ != "m3u8_get_url"@,
        "m3u8_parse"@ != "m3u8_set_url"@,
        "m3u8_parse"@ != "m3u8_get_url"@,
        "m3u8_download"@ != "m3u8_set_url"@,
        "m3u8_download"@ != "m3u8_get_url"@,
        "m3u8_download"@ != "m3u8_parse"@,
        "m3u8_convert"@ != "m3u8_set_url"@,
        "m3u8_convert"@ != "m3u8_get_url"@,
        "m3u8_convert"@ != "m3u8_parse"@,
        "m3u8_convert"@ != "m3u8_download"@,
        "m3u8_probe"@ != "m3u8_set_url"@,
        "m3u8_probe"@ != "m3u8_get_url"@,
        "m3u8_probe"@ != "m3u8_parse"@,
        "m3u8_probe"@ != "m3u8_download"@,
        "m3u8_probe"@ != "m3u8_convert"@,
        "m3u8_extract_segments"@ != "m3u8_set_url"@,
        "m3u8_extract_segments"@ != "m3u8_get_url"@,
        "m3u8_extract_segments"@ != "m3u8_parse"@,
        "m3u8_extract_segments"@ != "m3u8_download"@,
        "m3u8_extract_segments"@ != "m3u8_convert"@,
        "m3u8_extract_segments"@ != "m3u8_probe"@,
{
    reveal_strlit("m3u8_set_url");
    reveal_strlit("m3u8_get_url");
    reveal_strlit("m3u8_parse");
    reveal_strlit("m3u8_download");
    reveal_strlit("m3u8_convert");
    reveal_strlit("m3u8_probe");
    reveal_strlit("m3u8_extract_segments");
    assert("m3u8_set_url"@.len() == 12);
    assert("m3u8_get_url"@.len() == 12);
    assert("m3u8_parse"@.len() == 10);
    assert("m3u8_download"@.len() == 13);
    assert("m3u8_convert"@.len() == 12);
    assert("m3u8_probe"@.len() == 10);
    assert("m3u8_extract_segments"@.len() == 21);
    assert("m3u8_set_url"@[5] == 's');
    assert("m3u8_get_url"@[5] == 'g');
    assert("m3u8_convert"@[5] == 'c');
    assert("m3u8_parse"@[6] == 'a');
    assert("m3u8_probe"@[6] == 'r');
}

/// A call of `m3u8_parse` that brings neither a string `url` nor a string
/// `content` is refused with the error -32602 and reaches no collaborator.
pub proof fn lemma_parse_needs_url_or_content(
    s: ServerModel,
    session_id: Seq<char>,
    id: Option<JsonModel>,
    params: JsonModel,
)
    requires
        params.text_field("name"@) == Some("m3u8_parse"@),
        find_tool(offered_tools(s, session_id), "m3u8_parse"@) is Some,
        arguments_of(params).text_field("url"@) is None,
        arguments_of(params).text_field("content"@) is None,
    ensures
        refuses(tools_call_outcome(s, session_id, id, Some(params)), id, INVALID_PARAMS as int),
        tool_action_model("m3u8_parse"@, arguments_of(params)) == Err::<
            ToolActionModel,
            CallPlanModel,
        >(invalid("Either 'url' or 'content' parameter is required"@)),
{
    lemma_tool_names_differ();
}

/// The catalogue holds the tool `m3u8_parse`.
pub proof fn lemma_catalogue_holds_parse()
    ensures
        find_tool(catalogue_model(), "m3u8_parse"@) == Some(parse_tool_model()),
{
    lemma_tool_names_differ();
    let all = catalogue_model();
    let rest = all.drop_first();
    let last = rest.drop_first();
    assert(all[0] == set_url_tool_model());
    assert(rest[0] == get_url_tool_model());
    assert(last[0] == parse_tool_model());
    assert(find_tool(last, "m3u8_parse"@) == Some(parse_tool_model()));
    assert(find_tool(rest, "m3u8_parse"@) == find_tool(last, "m3u8_parse"@));
}

/// On a server that offers the whole catalogue, a call of `m3u8_parse`
/// that brings neither a string `url` nor a string `content` is refused
/// with the error -32602, under the id of the request, whatever else it
/// brings.
pub proof fn lemma_parse_without_source_is_refused(
    s: ServerModel,
    session_id: Seq<char>,
    id: Option<JsonModel>,
    params: JsonModel,
)
    requires
        offered_tools(s, session_id) == catalogue_model(),
        params.text_field("name"@) == Some("m3u8_parse"@),
        arguments_of(params).text_field("url"@) is None,
        arguments_of(params).text_field("content"@) is None,
    ensures
        refuses(tools_call_outcome(s, session_id, id, Some(params)), id, INVALID_PARAMS as int),
        INVALID_PARAMS == -32602,
{
    lemma_catalogue_holds_parse();
    lemma_parse_needs_url_or_content(s, session_id, id, params);
}

/// A call of a tool that needs a URL, and brings none or one that is no
/// string, is refused with the error -32602 and reaches no collaborator.
pub proof fn lemma_url_must_be_a_string(
    s: ServerModel,
    session_id: Seq<char>,
    id: Option<JsonModel>,
    params: JsonModel,
    name: Seq<char>,
)
    requires
        params.text_field("name"@) == Some(name),
        name == "m3u8_set_url"@ || name == "m3u8_download"@ || name == "m3u8_probe"@ || name
            == "m3u8_extract_segments"@,
        find_tool(offered_tools(s, session_id), name) is Some,
        arguments_of(params).text_field("url"@) is None,
    ensures
        refuses(tools_call_outcome(s, session_id, id, Some(params)), id, INVALID_PARAMS as int),
{
    lemma_tool_names_differ();
}

/// Whatever the state, the connection and the request, `initialize`
/// answers with the protocol version, a server name and a session id that
/// are not empty, a server version, and the capabilities as an object.
pub proof fn lemma_initialize_introduces_server(
    s: ServerModel,
    session_id: Seq<char>,
    now: u64,
    id: Option<JsonModel>,
)
    ensures
        ({
            let (_after, r) = initialize_step(s, session_id, now, id);
            &&& r.error is None
            &&& r.id == id
            &&& r.result matches Some(result) && {
                &&& result.text_field("protocolVersion"@) == Some(MCP_PROTOCOL_VERSION@)
                &&& result.text_field("sessionId"@) == Some(session_key(session_id))
                &&& session_key(session_id).len() > 0
                &&& result.field("capabilities"@) matches Some(c) && c.is_object()
                &&& result.field("serverInfo"@) matches Some(info) && {
                    &&& info.text_field("name"@) == Some(SERVER_NAME@)
                    &&& SERVER_NAME@.len() > 0
                    &&& info.text_field("version"@) == Some(SERVER_VERSION@)
                }
            }
        }),
{
    reveal_strlit("protocolVersion");
    reveal_strlit("capabilities");
    reveal_strlit("serverInfo");
    reveal_strlit("sessionId");
    reveal_strlit("name");
    reveal_strlit("version");
    reveal_strlit("default");
    reveal_strlit("m3u8-mcp");
    let result = initialize_result_model(session_key(session_id));
    let members = result->Object_0;
    assert(members[0].0 == "protocolVersion"@);
    assert(members[1].0 == "capabilities"@);
    assert(members[2].0 == "serverInfo"@);
    assert(members[3].0 == "sessionId"@);
    lemma_member_at(members, 0);
    lemma_member_at(members, 1);
    lemma_member_at(members, 2);
    lemma_member_at(members, 3);
    let info = members[2].1->Object_0;
    assert(info[0].0 == "name"@);
    assert(info[1].0 == "version"@);
    lemma_member_at(info, 0);
    lemma_member_at(info, 1);
}

/// The member at `i` is the one found under its key where no member
/// before it has that key.
pub proof fn lemma_member_at(members: Seq<(Seq<char>, JsonModel)>, i: int)
    requires
        0 <= i < members.len(),
        forall|j: int| 0 <= j < i ==> (#[trigger] members[j]).0 != members[i].0,
    ensures
        find_member(members, members[i].0) == Some(members[i].1),
    decreases i,
{
    if i > 0 {
        assert(members[0].0 != members[i].0);
        let rest = members.drop_first();
        assert(rest[i - 1] == members[i]);
        assert forall|j: int| 0 <= j < i - 1 implies (#[trigger] rest[j]).0 != rest[i - 1].0 by {
            assert(rest[j] == members[j + 1]);
        }
        lemma_member_at(rest, i - 1);
    }
}

/// A second start while the server runs is refused as already running,
/// and the controller is as it was: the host is told to start no second
/// listener.
pub proof fn lemma_start_twice(
    c: ControllerModel,
    port: u16,
    enabled: Seq<Seq<char>>,
    again: Seq<Seq<char>>,
)
    requires
        port >= LOWEST_PORT,
        !(c.state is Running) && !(c.state is Starting),
    ensures
        ({
            let (asked, first) = c.request_start(port, enabled);
            let (probed, server) = asked.probe_result(false);
            let (up, told) = probed.start_settled(true);
            let (after, second) = up.request_start(port, again);
            &&& first == Ok::<(), LifecycleError>(())
            &&& server is Ok
            &&& told is Ok
            &&& up.status() == (ServerStatus { running: true, port: Some(port) })
            &&& second == Err::<(), LifecycleError>(LifecycleError::AlreadyRunning)
            &&& after == up
        }),
{
}

/// While the server runs or is being started, every further start is
/// refused and changes nothing.
pub proof fn lemma_start_while_up(c: ControllerModel, port: u16, enabled: Seq<Seq<char>>)
    requires
        c.state is Running || c.state is Starting,
    ensures
        c.request_start(port, enabled).0 == c,
        c.request_start(port, enabled).1 is Err,
        port >= LOWEST_PORT ==> c.request_start(port, enabled).1 == Err::<(), LifecycleError>(
            LifecycleError::AlreadyRunning,
        ),
{
}

/// A start on port 0 or on a reserved port is refused in every state, at
/// the request itself, before the host is told to probe or to listen; the
/// controller is as it was.
pub proof fn lemma_reserved_port_refused(c: ControllerModel, port: u16, enabled: Seq<Seq<char>>)
    requires
        port < LOWEST_PORT,
    ensures
        c.request_start(port, enabled).0 == c,
        c.request_start(port, enabled).1 == Err::<(), LifecycleError>(
            if port == 0 {
                LifecycleError::PortZero
            } else {
                LifecycleError::PortReserved
            },
        ),
        LOWEST_PORT == 1024,
{
}

/// A stop while the server does not run is refused as not running and
/// changes nothing: what the host is told of the server stays the same.
pub proof fn lemma_stop_when_not_running(c: ControllerModel)
    requires
        !(c.state is Running),
    ensures
        c.stop().0 == c,
        c.stop().1 == Err::<Seq<char>, LifecycleError>(LifecycleError::NotRunning),
        c.stop().0.status() == c.status(),
        !c.status().running,
{
}

/// Every step of the controller keeps a port exactly while a start is
/// under way or the server runs.
pub proof fn lemma_controller_steps_keep_port_rule(
    c: ControllerModel,
    port: u16,
    enabled: Seq<Seq<char>>,
    flag: bool,
)
    requires
        c.well_formed(),
    ensures
        c.request_start(port, enabled).0.well_formed(),
        c.probe_result(flag).0.well_formed(),
        c.start_settled(flag).0.well_formed(),
        c.stop().0.well_formed(),
        c.task_ended().well_formed(),
        ControllerModel::initial().well_formed(),
{
}

/// A failed start leaves nothing behind: whether the port was taken or
/// the listener did not bind, the server does not run and no port is kept.
pub proof fn lemma_failed_start_rolls_back(c: ControllerModel)
    requires
        c.state is Starting,
        c.port is Some,
    ensures
        c.probe_result(true).0.status() == (ServerStatus { running: false, port: None }),
        c.probe_result(true).1 == Err::<ServerModel, LifecycleError>(
            LifecycleError::PortInUse(c.port.unwrap()),
        ),
        c.start_settled(false).0.status() == (ServerStatus { running: false, port: None }),
        c.start_settled(false).1 == Err::<Seq<char>, LifecycleError>(
            LifecycleError::BindFailed(c.port.unwrap()),
        ),
{
}

/// A batch gets one outcome for each of its entries, in order.
pub proof fn lemma_batch_has_one_outcome_per_entry(
    s: ServerModel,
    session_id: Seq<char>,
    now: u64,
    entries: Seq<JsonModel>,
)
    ensures
        batch_step(s, session_id, now, entries).1.len() == entries.len(),
    decreases entries.len(),
{
    if entries.len() > 0 {
        lemma_batch_has_one_outcome_per_entry(s, session_id, now, entries.drop_last());
    }
}

/// A body that holds one notification is answered by the status 202 and
/// nothing else, whatever the method is.
pub proof fn lemma_notification_is_accepted(
    s: ServerModel,
    session_id: Seq<char>,
    now: u64,
    body: Seq<u8>,
    doc: JsonModel,
    req: RequestModel,
)
    requires
        decoded(body) == Ok::<JsonModel, Seq<char>>(doc),
        decode_request(doc) == Ok::<RequestModel, Seq<char>>(req),
        req.id is None,
    ensures
        dispatch_step(s, session_id, now, body).1 == DispatchModel::Single(OutcomeModel::Accepted),
        http_status_model(dispatch_step(s, session_id, now, body).1) == 202,
{
}

} // verus!
