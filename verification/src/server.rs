use vstd::prelude::*;
use crate::json::{ArrayBuilder, Json, JsonModel, ObjectBuilder};
use crate::registry::{
    available_tools_model, get_available_resources, get_available_tools, names_model, opt_text,
    resource_catalogue_model, resources_model, tools_model, Resource, ResourceModel, Tool,
    ToolModel,
};
use crate::rpc::{opt_json, success_model, JsonRpcResponse, ResponseModel};
use crate::session::{fresh_session, Session, SessionModel, SessionStore};

verus! {

/// The protocol version that the server speaks.
pub const MCP_PROTOCOL_VERSION: &'static str = "2025-03-26";

/// The name under which the server introduces itself.
pub const SERVER_NAME: &'static str = "m3u8-mcp";

/// The version under which the server introduces itself.
pub const SERVER_VERSION: &'static str = "0.1.0";

/// The session of a connection that names none.
pub const DEFAULT_SESSION_ID: &'static str = "default";

/// The state of one server: its sessions, the port it serves, whether it
/// is serving, and the allowlist of tools it was started with.
pub struct McpServerState {
    pub sessions: SessionStore,
    pub port: u16,
    pub running: bool,
    pub enabled_tools: Vec<String>,
}

pub struct ServerModel {
    pub sessions: Map<Seq<char>, SessionModel>,
    pub port: u16,
    pub running: bool,
    pub enabled: Seq<Seq<char>>,
}

/// The allowlist of a server that is given none.
pub open spec fn default_allowlist() -> Seq<Seq<char>> {
    Seq::empty().push("m3u8_parse"@).push("m3u8_download"@).push("m3u8_convert"@).push(
        "m3u8_probe"@,
    ).push("m3u8_extract_segments"@)
}

impl McpServerState {
    pub open spec fn view(&self) -> ServerModel {
        ServerModel {
            sessions: self.sessions@,
            port: self.port,
            running: self.running,
            enabled: names_model(self.enabled_tools@),
        }
    }

    /// A server for `port` that is not serving yet, has no sessions, and
    /// offers the five playlist tools.
    pub fn new(port: u16) -> (state: McpServerState)
        ensures
            state@ == (ServerModel {
                sessions: Map::empty(),
                port,
                running: false,
                enabled: default_allowlist(),
            }),
    {
        let mut enabled_tools: Vec<String> = Vec::new();
        enabled_tools.push(String::from_str("m3u8_parse"));
        enabled_tools.push(String::from_str("m3u8_download"));
        enabled_tools.push(String::from_str("m3u8_convert"));
        enabled_tools.push(String::from_str("m3u8_probe"));
        enabled_tools.push(String::from_str("m3u8_extract_segments"));
        assert(names_model(enabled_tools@) =~= default_allowlist());
        McpServerState { sessions: SessionStore::new(), port, running: false, enabled_tools }
    }

    /// A server for `port` that is not serving yet, has no sessions, and
    /// offers the tools that `tools` lets through.
    pub fn new_with_tools(port: u16, tools: Vec<String>) -> (state: McpServerState)
        ensures
            state@ == (ServerModel {
                sessions: Map::empty(),
                port,
                running: false,
                enabled: names_model(tools@),
            }),
    {
        McpServerState { sessions: SessionStore::new(), port, running: false, enabled_tools: tools }
    }
}

/// The id under which the session of a connection is filed: the id that
/// the connection names, or `DEFAULT_SESSION_ID` where it names none.
pub open spec fn session_key(id: Seq<char>) -> Seq<char> {
    if id.len() == 0 {
        DEFAULT_SESSION_ID@
    } else {
        id
    }
}

/// The id under which the session of a connection is filed.
pub fn session_key_of<'a>(id: &'a str) -> (key: &'a str)
    ensures
        key@ == session_key(id@),
        key@.len() > 0,
{
    proof {
        reveal_strlit("default");
    }
    if id.is_empty() {
        DEFAULT_SESSION_ID
    } else {
        id
    }
}

/// An object without members.
pub open spec fn empty_object() -> JsonModel {
    JsonModel::Object(Seq::empty())
}

/// What `initialize` answers: the protocol version, what the server can do,
/// who it is, and the session that was opened.
pub open spec fn initialize_result_model(session_id: Seq<char>) -> JsonModel {
    JsonModel::Object(
        Seq::empty().push(("protocolVersion"@, JsonModel::Text(MCP_PROTOCOL_VERSION@))).push(
            (
                "capabilities"@,
                JsonModel::Object(
                    Seq::empty().push(("tools"@, empty_object())).push(
                        ("resources"@, empty_object()),
                    ).push(("logging"@, empty_object())),
                ),
            ),
        ).push(
            (
                "serverInfo"@,
                JsonModel::Object(
                    Seq::empty().push(("name"@, JsonModel::Text(SERVER_NAME@))).push(
                        ("version"@, JsonModel::Text(SERVER_VERSION@)),
                    ),
                ),
            ),
        ).push(("sessionId"@, JsonModel::Text(session_id))),
    )
}

/// The session `id` after `initialize` at time `now`: a session that was
/// there keeps when it was created, whether it finished the handshake and
/// its last event, and gets a new offer; otherwise a new session is opened.
pub open spec fn initialized_session(s: ServerModel, id: Seq<char>, now: u64) -> SessionModel {
    if s.sessions.contains_key(id) {
        SessionModel {
            last_activity: now,
            tools: available_tools_model(s.enabled),
            resources: resource_catalogue_model(),
            ..s.sessions[id]
        }
    } else {
        fresh_session(id, now, available_tools_model(s.enabled), resource_catalogue_model())
    }
}

/// `initialize`: the session of the connection is opened or refreshed and
/// the answer introduces the server and names the session.
pub open spec fn initialize_step(
    s: ServerModel,
    session_id: Seq<char>,
    now: u64,
    id: Option<JsonModel>,
) -> (ServerModel, ResponseModel) {
    let key = session_key(session_id);
    (
        ServerModel { sessions: s.sessions.insert(key, initialized_session(s, key, now)), ..s },
        success_model(id, initialize_result_model(key)),
    )
}

/// The session `id` after `initialized` at time `now`: it has finished the
/// handshake and was last heard of now. A session that was not there is
/// opened first.
pub open spec fn acknowledged_session(s: ServerModel, id: Seq<char>, now: u64) -> SessionModel {
    SessionModel { initialized: true, last_activity: now, ..initialized_or_fresh(s, id, now) }
}

/// The session `id` as it is, or as it would be opened at time `now`.
pub open spec fn initialized_or_fresh(s: ServerModel, id: Seq<char>, now: u64) -> SessionModel {
    if s.sessions.contains_key(id) {
        s.sessions[id]
    } else {
        fresh_session(id, now, available_tools_model(s.enabled), resource_catalogue_model())
    }
}

/// `initialized`: the session has finished the handshake; the answer is
/// empty.
pub open spec fn initialized_step(
    s: ServerModel,
    session_id: Seq<char>,
    now: u64,
    id: Option<JsonModel>,
) -> (ServerModel, ResponseModel) {
    let key = session_key(session_id);
    (
        ServerModel { sessions: s.sessions.insert(key, acknowledged_session(s, key, now)), ..s },
        success_model(id, empty_object()),
    )
}

/// `ping`: the answer is empty.
pub open spec fn ping_response(id: Option<JsonModel>) -> ResponseModel {
    success_model(id, empty_object())
}

/// An optional string as a document: the string, or `null`.
pub open spec fn text_or_null(s: Option<Seq<char>>) -> JsonModel {
    match s {
        Some(t) => JsonModel::Text(t),
        None => JsonModel::Null,
    }
}

/// A tool as the client reads it.
pub open spec fn tool_doc(t: ToolModel) -> JsonModel {
    JsonModel::Object(
        Seq::empty().push(("name"@, JsonModel::Text(t.name))).push(
            ("description"@, text_or_null(t.description)),
        ).push(("inputSchema"@, t.input_schema)),
    )
}

/// A resource as the client reads it.
pub open spec fn resource_doc(r: ResourceModel) -> JsonModel {
    JsonModel::Object(
        Seq::empty().push(("uri"@, JsonModel::Text(r.uri))).push(
            ("name"@, JsonModel::Text(r.name)),
        ).push(("description"@, text_or_null(r.description))).push(
            ("mime_type"@, text_or_null(r.mime_type)),
        ),
    )
}

pub open spec fn tool_docs(tools: Seq<ToolModel>) -> Seq<JsonModel> {
    Seq::new(tools.len(), |i: int| tool_doc(tools[i]))
}

pub open spec fn resource_docs(resources: Seq<ResourceModel>) -> Seq<JsonModel> {
    Seq::new(resources.len(), |i: int| resource_doc(resources[i]))
}

/// What `tools/list` answers for these tools.
pub open spec fn tools_list_model(tools: Seq<ToolModel>) -> JsonModel {
    JsonModel::Object(Seq::empty().push(("tools"@, JsonModel::Array(tool_docs(tools)))))
}

/// What `resources/list` answers for these resources.
pub open spec fn resources_list_model(resources: Seq<ResourceModel>) -> JsonModel {
    JsonModel::Object(
        Seq::empty().push(("resources"@, JsonModel::Array(resource_docs(resources)))),
    )
}

/// The tools offered to the session `id`: what it was offered when it
/// initialized, or, where there is no such session, what the allowlist lets
/// through.
pub open spec fn offered_tools(s: ServerModel, id: Seq<char>) -> Seq<ToolModel> {
    let key = session_key(id);
    if s.sessions.contains_key(key) {
        s.sessions[key].tools
    } else {
        available_tools_model(s.enabled)
    }
}

/// The resources offered to the session `id`.
pub open spec fn offered_resources(s: ServerModel, id: Seq<char>) -> Seq<ResourceModel> {
    let key = session_key(id);
    if s.sessions.contains_key(key) {
        s.sessions[key].resources
    } else {
        resource_catalogue_model()
    }
}

/// `tools/list`: the tools offered to the session.
pub open spec fn tools_list_response(
    s: ServerModel,
    session_id: Seq<char>,
    id: Option<JsonModel>,
) -> ResponseModel {
    success_model(id, tools_list_model(offered_tools(s, session_id)))
}

/// `resources/list`: the resources offered to the session.
pub open spec fn resources_list_response(
    s: ServerModel,
    session_id: Seq<char>,
    id: Option<JsonModel>,
) -> ResponseModel {
    success_model(id, resources_list_model(offered_resources(s, session_id)))
}

fn opt_text_json(s: &Option<String>) -> (j: Json)
    ensures
        j@ == text_or_null(opt_text(*s)),
{
    match s {
        Some(t) => Json::text(t.as_str()),
        None => Json::Null,
    }
}

impl Tool {
    /// The tool as the client reads it.
    pub fn to_json(&self) -> (j: Json)
        ensures
            j@ == tool_doc(self@),
    {
        ObjectBuilder::new().with("name", Json::text(self.name.as_str())).with(
            "description",
            opt_text_json(&self.description),
        ).with("inputSchema", self.input_schema.duplicate()).build()
    }
}

impl Resource {
    /// The resource as the client reads it.
    pub fn to_json(&self) -> (j: Json)
        ensures
            j@ == resource_doc(self@),
    {
        ObjectBuilder::new().with("uri", Json::text(self.uri.as_str())).with(
            "name",
            Json::text(self.name.as_str()),
        ).with("description", opt_text_json(&self.description)).with(
            "mime_type",
            opt_text_json(&self.mime_type),
        ).build()
    }
}

/// What `tools/list` answers for these tools.
pub fn tools_list_result(tools: &Vec<Tool>) -> (j: Json)
    ensures
        j@ == tools_list_model(tools_model(tools@)),
{
    let mut docs = ArrayBuilder::new();
    let mut i: usize = 0;
    while i < tools.len()
        invariant
            0 <= i <= tools.len(),
            docs@ == tool_docs(tools_model(tools@)).take(i as int),
        decreases tools.len() - i,
    {
        let ghost before = docs@;
        docs = docs.with(tools[i].to_json());
        proof {
            assert(docs@ =~= tool_docs(tools_model(tools@)).take(i + 1));
        }
        i += 1;
    }
    proof {
        assert(docs@ =~= tool_docs(tools_model(tools@)));
    }
    ObjectBuilder::new().with("tools", docs.build()).build()
}

/// What `resources/list` answers for these resources.
pub fn resources_list_result(resources: &Vec<Resource>) -> (j: Json)
    ensures
        j@ == resources_list_model(resources_model(resources@)),
{
    let mut docs = ArrayBuilder::new();
    let mut i: usize = 0;
    while i < resources.len()
        invariant
            0 <= i <= resources.len(),
            docs@ == resource_docs(resources_model(resources@)).take(i as int),
        decreases resources.len() - i,
    {
        docs = docs.with(resources[i].to_json());
        proof {
            assert(docs@ =~= resource_docs(resources_model(resources@)).take(i + 1));
        }
        i += 1;
    }
    proof {
        assert(docs@ =~= resource_docs(resources_model(resources@)));
    }
    ObjectBuilder::new().with("resources", docs.build()).build()
}

/// What `initialize` answers for this session.
pub fn initialize_result(session_id: &str) -> (j: Json)
    ensures
        j@ == initialize_result_model(session_id@),
{
    let capabilities = ObjectBuilder::new().with("tools", ObjectBuilder::new().build()).with(
        "resources",
        ObjectBuilder::new().build(),
    ).with("logging", ObjectBuilder::new().build()).build();
    let server_info = ObjectBuilder::new().with("name", Json::text(SERVER_NAME)).with(
        "version",
        Json::text(SERVER_VERSION),
    ).build();
    ObjectBuilder::new().with("protocolVersion", Json::text(MCP_PROTOCOL_VERSION)).with(
        "capabilities",
        capabilities,
    ).with("serverInfo", server_info).with("sessionId", Json::text(session_id)).build()
}

/// Serves `initialize`: opens the session of this connection, or refreshes
/// its offer where it is open already, and introduces the server.
pub fn handle_initialize(
    state: &mut McpServerState,
    session_id: &str,
    now: u64,
    request_id: Option<Json>,
) -> (response: JsonRpcResponse)
    ensures
        (final(state)@, response@) == initialize_step(
            old(state)@,
            session_id@,
            now,
            opt_json(request_id),
        ),
{
    let session_id = session_key_of(session_id);
    let tools = get_available_tools(state.enabled_tools.as_slice());
    let resources = get_available_resources();
    let session = match state.sessions.get(session_id) {
        Some(known) => Session {
            id: String::from_str(session_id),
            initialized: known.initialized,
            created_at: known.created_at,
            last_activity: now,
            last_event_id: known.last_event_id,
            tools,
            resources,
        },
        None => Session {
            id: String::from_str(session_id),
            initialized: false,
            created_at: now,
            last_activity: now,
            last_event_id: 0,
            tools,
            resources,
        },
    };
    state.sessions.put(session);
    JsonRpcResponse::success(request_id, initialize_result(session_id))
}

/// Serves `initialized`: the session of this connection has finished the
/// handshake.
pub fn handle_initialized(
    state: &mut McpServerState,
    session_id: &str,
    now: u64,
    request_id: Option<Json>,
) -> (response: JsonRpcResponse)
    ensures
        (final(state)@, response@) == initialized_step(
            old(state)@,
            session_id@,
            now,
            opt_json(request_id),
        ),
{
    let session_id = session_key_of(session_id);
    let tools = get_available_tools(state.enabled_tools.as_slice());
    let resources = get_available_resources();
    let mut session = state.sessions.get_or_create(session_id, now, tools, resources);
    session.initialized = true;
    session.last_activity = now;
    state.sessions.put(session);
    proof {
        let s = old(state)@;
        assert(state@.sessions =~= s.sessions.insert(
            session_id@,
            acknowledged_session(s, session_id@, now),
        ));
    }
    JsonRpcResponse::success(request_id, ObjectBuilder::new().build())
}

/// Serves `tools/list`: the tools offered to the session of this
/// connection.
pub fn handle_tools_list(
    state: &McpServerState,
    session_id: &str,
    request_id: Option<Json>,
) -> (response: JsonRpcResponse)
    ensures
        response@ == tools_list_response(state@, session_id@, opt_json(request_id)),
{
    let result = match state.sessions.get(session_key_of(session_id)) {
        Some(session) => tools_list_result(&session.tools),
        None => {
            let tools = get_available_tools(state.enabled_tools.as_slice());
            tools_list_result(&tools)
        },
    };
    JsonRpcResponse::success(request_id, result)
}

/// Serves `resources/list`: the resources offered to the session of this
/// connection.
pub fn handle_resources_list(
    state: &McpServerState,
    session_id: &str,
    request_id: Option<Json>,
) -> (response: JsonRpcResponse)
    ensures
        response@ == resources_list_response(state@, session_id@, opt_json(request_id)),
{
    let result = match state.sessions.get(session_key_of(session_id)) {
        Some(session) => resources_list_result(&session.resources),
        None => {
            let resources = get_available_resources();
            resources_list_result(&resources)
        },
    };
    JsonRpcResponse::success(request_id, result)
}

/// Serves `ping`: an empty answer.
pub fn handle_ping(request_id: Option<Json>) -> (response: JsonRpcResponse)
    ensures
        response@ == ping_response(opt_json(request_id)),
{
    JsonRpcResponse::success(request_id, ObjectBuilder::new().build())
}

/// The tools that the session of this connection may call: those it was
/// offered.
pub fn tools_offered(state: &McpServerState, session_id: &str) -> (tools: Vec<Tool>)
    ensures
        tools_model(tools@) == offered_tools(state@, session_id@),
{
    match state.sessions.get(session_key_of(session_id)) {
        Some(session) => crate::registry::duplicate_tools(&session.tools),
        None => get_available_tools(state.enabled_tools.as_slice()),
    }
}

} // verus!
