use vstd::prelude::*;
use crate::codec::{pretty_text, to_pretty_text};
use crate::json::{ArrayBuilder, Json, JsonModel, ObjectBuilder};
use crate::registry::{tools_model, Tool, ToolModel};
use crate::rpc::{
    opt_json, success_model, JsonRpcResponse, ResponseModel, INVALID_PARAMS, METHOD_NOT_FOUND,
};
use crate::chars::{chars_of, parse_unsigned, unsigned_value};
use crate::text::{joined, str_equal};

verus! {

/// What a collaborator hands back when a tool has run.
#[derive(Debug, PartialEq, Eq)]
pub enum ToolOutput {
    /// A structured result, shown to the client as indented JSON text.
    Structured(Json),
    /// A result that is text already.
    Text(String),
    /// A capture: the picture in base64 and its media type.
    Image { data: String, mime_type: String },
}

/// One piece of the content of a tool result.
#[derive(Debug, PartialEq, Eq)]
pub enum ContentBlock {
    Text { text: String },
    Image { data: String, mime_type: String },
}

pub enum ToolOutputModel {
    Structured(JsonModel),
    Text(Seq<char>),
    Image { data: Seq<char>, mime_type: Seq<char> },
}

pub enum ContentBlockModel {
    Text { text: Seq<char> },
    Image { data: Seq<char>, mime_type: Seq<char> },
}

impl ToolOutput {
    pub open spec fn view(&self) -> ToolOutputModel {
        match self {
            ToolOutput::Structured(j) => ToolOutputModel::Structured(j@),
            ToolOutput::Text(s) => ToolOutputModel::Text(s@),
            ToolOutput::Image { data, mime_type } => ToolOutputModel::Image {
                data: data@,
                mime_type: mime_type@,
            },
        }
    }
}

impl ContentBlock {
    pub open spec fn view(&self) -> ContentBlockModel {
        match self {
            ContentBlock::Text { text } => ContentBlockModel::Text { text: text@ },
            ContentBlock::Image { data, mime_type } => ContentBlockModel::Image {
                data: data@,
                mime_type: mime_type@,
            },
        }
    }

    /// The block as the client reads it.
    pub fn to_json(&self) -> (j: Json)
        ensures
            j@ == self@.to_json(),
    {
        match self {
            ContentBlock::Text { text } => ObjectBuilder::new()
                .with("type", Json::text("text"))
                .with("text", Json::text(text.as_str()))
                .build(),
            ContentBlock::Image { data, mime_type } => ObjectBuilder::new().with(
                "type",
                Json::text("image"),
            ).with("data", Json::text(data.as_str())).with(
                "mimeType",
                Json::text(mime_type.as_str()),
            ).build(),
        }
    }
}

impl ContentBlockModel {
    /// The block as the client reads it: an object tagged by `type`.
    pub open spec fn to_json(self) -> JsonModel {
        match self {
            ContentBlockModel::Text { text } => JsonModel::Object(
                Seq::empty().push(("type"@, JsonModel::Text("text"@))).push(
                    ("text"@, JsonModel::Text(text)),
                ),
            ),
            ContentBlockModel::Image { data, mime_type } => JsonModel::Object(
                Seq::empty().push(("type"@, JsonModel::Text("image"@))).push(
                    ("data"@, JsonModel::Text(data)),
                ).push(("mimeType"@, JsonModel::Text(mime_type))),
            ),
        }
    }
}

/// The text shown where a structured result cannot be written as JSON.
pub open spec fn serialize_failure_text() -> Seq<char> {
    "Failed to serialize"@
}

/// The content block that shows what a collaborator handed back: a picture
/// for a capture, text for everything else. A failure is shown by its message.
pub open spec fn block_for(outcome: Result<ToolOutputModel, Seq<char>>) -> ContentBlockModel {
    match outcome {
        Ok(ToolOutputModel::Structured(doc)) => structured_block_model(pretty_text(doc)),
        Ok(ToolOutputModel::Text(text)) => ContentBlockModel::Text { text },
        Ok(ToolOutputModel::Image { data, mime_type }) => ContentBlockModel::Image {
            data,
            mime_type,
        },
        Err(message) => ContentBlockModel::Text { text: message },
    }
}

/// The result of a tool call as the client reads it: the content, and
/// whether the tool failed.
pub open spec fn call_result_model(block: ContentBlockModel, failed: bool) -> JsonModel {
    JsonModel::Object(
        Seq::empty().push(("content"@, JsonModel::Array(Seq::empty().push(block.to_json())))).push(
            ("isError"@, JsonModel::Bool(failed)),
        ),
    )
}

/// The answer to a tool call once the collaborator is done. It is a result
/// whatever the collaborator handed back: a failure of the tool is told in
/// the content, as text, and never as an error of the protocol.
pub open spec fn tool_response_model(
    id: Option<JsonModel>,
    outcome: Result<ToolOutputModel, Seq<char>>,
) -> ResponseModel {
    success_model(id, call_result_model(block_for(outcome), outcome is Err))
}

/// The models of what a collaborator handed back.
pub open spec fn outcome_model(outcome: Result<ToolOutput, String>) -> Result<
    ToolOutputModel,
    Seq<char>,
> {
    match outcome {
        Ok(out) => Ok(out@),
        Err(message) => Err(message@),
    }
}

/// The text block for a structured result, given its indented JSON text,
/// or nothing where it could not be written.
pub open spec fn structured_block_model(pretty: Option<Seq<char>>) -> ContentBlockModel {
    ContentBlockModel::Text {
        text: match pretty {
            Some(t) => t,
            None => serialize_failure_text(),
        },
    }
}

/// The text block for a structured result, given its indented JSON text,
/// or nothing where it could not be written.
pub fn structured_block(pretty: Option<String>) -> (block: ContentBlock)
    ensures
        block@ == structured_block_model(
            match pretty {
                Some(t) => Some(t@),
                None => None,
            },
        ),
{
    match pretty {
        Some(text) => ContentBlock::Text { text },
        None => ContentBlock::Text { text: String::from_str("Failed to serialize") },
    }
}

/// A structured result whose numbers are whole numbers in plain digits is
/// shown as its JSON text, not by the text that tells of a failure to
/// write it.
pub open spec fn shown_in_full(outcome: Result<ToolOutputModel, Seq<char>>) -> bool {
    match outcome {
        Ok(ToolOutputModel::Structured(doc)) => doc.plain_numbers() ==> pretty_text(doc) is Some,
        _ => true,
    }
}

/// Turns what a collaborator handed back into the content block shown to
/// the client.
pub fn content_block(outcome: Result<ToolOutput, String>) -> (block: ContentBlock)
    ensures
        block@ == block_for(outcome_model(outcome)),
        shown_in_full(outcome_model(outcome)),
{
    match outcome {
        Ok(ToolOutput::Structured(doc)) => structured_block(to_pretty_text(&doc)),
        Ok(ToolOutput::Text(text)) => ContentBlock::Text { text },
        Ok(ToolOutput::Image { data, mime_type }) => ContentBlock::Image { data, mime_type },
        Err(message) => ContentBlock::Text { text: message },
    }
}

/// The answer to a tool call once the collaborator is done.
pub fn render_tool_result(request_id: Option<Json>, outcome: Result<ToolOutput, String>) -> (r:
    JsonRpcResponse)
    ensures
        r@ == tool_response_model(opt_json(request_id), outcome_model(outcome)),
        r@.error is None,
        shown_in_full(outcome_model(outcome)),
{
    let failed = outcome.is_err();
    let block = content_block(outcome);
    let result = ObjectBuilder::new().with(
        "content",
        ArrayBuilder::new().with(block.to_json()).build(),
    ).with("isError", Json::Bool(failed)).build();
    JsonRpcResponse::success(request_id, result)
}

/// The items of the member `required` of a schema; none where the schema
/// has no such list.
pub open spec fn required_names(schema: JsonModel) -> Seq<JsonModel> {
    match schema.field("required"@) {
        Some(JsonModel::Array(items)) => items,
        _ => Seq::empty(),
    }
}

/// The first name of `required` for which `arguments` has no string
/// member: an argument that is there but is no string counts as missing.
pub open spec fn first_missing(required: Seq<JsonModel>, arguments: JsonModel) -> Option<Seq<char>>
    decreases required.len(),
{
    if required.len() == 0 {
        None
    } else {
        match required[0] {
            JsonModel::Text(name) => if arguments.text_field(name) is None {
                Some(name)
            } else {
                first_missing(required.drop_first(), arguments)
            },
            _ => first_missing(required.drop_first(), arguments),
        }
    }
}

/// The first tool of `tools` that is called `name`.
pub open spec fn find_tool(tools: Seq<ToolModel>, name: Seq<char>) -> Option<ToolModel>
    decreases tools.len(),
{
    if tools.len() == 0 {
        None
    } else if tools[0].name == name {
        Some(tools[0])
    } else {
        find_tool(tools.drop_first(), name)
    }
}

/// The seconds of a segment where a conversion names none.
pub const DEFAULT_SEGMENT_DURATION: u32 = 10;

/// What a collaborator is asked to do, with the arguments it needs.
#[derive(Debug, Clone, PartialEq, Eq)]
pub enum ToolAction {
    /// Make `url` the current URL.
    SetUrl { url: String },
    /// Tell the current URL.
    GetUrl,
    /// Fetch the playlist at `url` and read it.
    ParseUrl { url: String },
    /// Read the playlist whose text is `content`.
    ParseContent { content: String },
    /// Download the stream at `url` to `output_path`.
    Download { url: String, output_path: String },
    /// Cut the file at `input_path` into segments below `output_dir`.
    Convert { input_path: String, output_dir: String, segment_duration: u32 },
    /// Describe the stream at `url`.
    Probe { url: String },
    /// List the segments of the playlist at `url`; references in it are
    /// taken from `base_url` where one is given.
    ExtractSegments { url: String, base_url: Option<String> },
}

pub enum ToolActionModel {
    SetUrl { url: Seq<char> },
    GetUrl,
    ParseUrl { url: Seq<char> },
    ParseContent { content: Seq<char> },
    Download { url: Seq<char>, output_path: Seq<char> },
    Convert { input_path: Seq<char>, output_dir: Seq<char>, segment_duration: u32 },
    Probe { url: Seq<char> },
    ExtractSegments { url: Seq<char>, base_url: Option<Seq<char>> },
}

impl ToolAction {
    pub open spec fn view(&self) -> ToolActionModel {
        match self {
            ToolAction::SetUrl { url } => ToolActionModel::SetUrl { url: url@ },
            ToolAction::GetUrl => ToolActionModel::GetUrl,
            ToolAction::ParseUrl { url } => ToolActionModel::ParseUrl { url: url@ },
            ToolAction::ParseContent { content } => ToolActionModel::ParseContent {
                content: content@,
            },
            ToolAction::Download { url, output_path } => ToolActionModel::Download {
                url: url@,
                output_path: output_path@,
            },
            ToolAction::Convert { input_path, output_dir, segment_duration } => {
                ToolActionModel::Convert {
                    input_path: input_path@,
                    output_dir: output_dir@,
                    segment_duration: *segment_duration,
                }
            },
            ToolAction::Probe { url } => ToolActionModel::Probe { url: url@ },
            ToolAction::ExtractSegments { url, base_url } => ToolActionModel::ExtractSegments {
                url: url@,
                base_url: crate::registry::opt_text(*base_url),
            },
        }
    }
}

/// What the bridge decides on a call before any tool runs.
#[derive(Debug, PartialEq, Eq)]
pub enum CallPlan {
    /// The request is refused with this error code and message.
    Reject { code: i32, message: String },
    /// The collaborator is to do this.
    Invoke { action: ToolAction },
}

pub enum CallPlanModel {
    Reject { code: int, message: Seq<char> },
    Invoke { action: ToolActionModel },
}

impl CallPlan {
    pub open spec fn view(&self) -> CallPlanModel {
        match self {
            CallPlan::Reject { code, message } => CallPlanModel::Reject {
                code: *code as int,
                message: message@,
            },
            CallPlan::Invoke { action } => CallPlanModel::Invoke { action: action@ },
        }
    }
}

/// The arguments of a call: the member `arguments` of its parameters, or an
/// empty object where there is none.
pub open spec fn arguments_of(params: JsonModel) -> JsonModel {
    match params.field("arguments"@) {
        Some(a) => a,
        None => JsonModel::Object(Seq::empty()),
    }
}

/// The text that names a missing parameter.
pub open spec fn missing_parameter_message(name: Seq<char>) -> Seq<char> {
    "Missing required parameter: "@ + name
}

/// The text that names a tool that cannot be called.
pub open spec fn unknown_tool_message(name: Seq<char>) -> Seq<char> {
    "Unknown tool: "@ + name
}

/// The refusal of a call that lacks the string argument `name`.
pub open spec fn missing(name: Seq<char>) -> CallPlanModel {
    CallPlanModel::Reject { code: INVALID_PARAMS as int, message: missing_parameter_message(name) }
}

/// The refusal of a call for the reason `message`.
pub open spec fn invalid(message: Seq<char>) -> CallPlanModel {
    CallPlanModel::Reject { code: INVALID_PARAMS as int, message }
}

/// The seconds of a segment that a conversion asks for: those it names,
/// where it names a whole number that fits; `DEFAULT_SEGMENT_DURATION`
/// where it names none; nothing where it names anything else.
pub open spec fn segment_duration_of(arguments: JsonModel) -> Option<u32> {
    match arguments.field("segment_duration"@) {
        None => Some(DEFAULT_SEGMENT_DURATION),
        Some(JsonModel::Number(text)) => match unsigned_value(text, u32::MAX as nat) {
            Some(n) => Some(n as u32),
            None => None,
        },
        Some(_) => None,
    }
}

/// What the collaborator is asked to do by a call of the tool `name` with
/// `arguments`, or why the call is refused. Every argument that a tool
/// needs must be a string. Reading a playlist needs a URL or, where there
/// is none, the text of the playlist. A tool that is not known is refused
/// as unknown; every other refusal is one of invalid parameters.
pub open spec fn tool_action_model(name: Seq<char>, arguments: JsonModel) -> Result<
    ToolActionModel,
    CallPlanModel,
> {
    if name == "m3u8_set_url"@ {
        match arguments.text_field("url"@) {
            Some(url) => Ok(ToolActionModel::SetUrl { url }),
            None => Err(missing("url"@)),
        }
    } else if name == "m3u8_get_url"@ {
        Ok(ToolActionModel::GetUrl)
    } else if name == "m3u8_parse"@ {
        match arguments.text_field("url"@) {
            Some(url) => Ok(ToolActionModel::ParseUrl { url }),
            None => match arguments.text_field("content"@) {
                Some(content) => Ok(ToolActionModel::ParseContent { content }),
                None => Err(invalid("Either 'url' or 'content' parameter is required"@)),
            },
        }
    } else if name == "m3u8_download"@ {
        match arguments.text_field("url"@) {
            None => Err(missing("url"@)),
            Some(url) => match arguments.text_field("output_path"@) {
                None => Err(missing("output_path"@)),
                Some(output_path) => Ok(ToolActionModel::Download { url, output_path }),
            },
        }
    } else if name == "m3u8_convert"@ {
        match arguments.text_field("input_path"@) {
            None => Err(missing("input_path"@)),
            Some(input_path) => match arguments.text_field("output_dir"@) {
                None => Err(missing("output_dir"@)),
                Some(output_dir) => match segment_duration_of(arguments) {
                    None => Err(invalid("Invalid parameter: segment_duration"@)),
                    Some(segment_duration) => Ok(
                        ToolActionModel::Convert { input_path, output_dir, segment_duration },
                    ),
                },
            },
        }
    } else if name == "m3u8_probe"@ {
        match arguments.text_field("url"@) {
            Some(url) => Ok(ToolActionModel::Probe { url }),
            None => Err(missing("url"@)),
        }
    } else if name == "m3u8_extract_segments"@ {
        match arguments.text_field("url"@) {
            Some(url) => Ok(
                ToolActionModel::ExtractSegments {
                    url,
                    base_url: arguments.text_field("base_url"@),
                },
            ),
            None => Err(invalid("Missing 'url' parameter"@)),
        }
    } else {
        Err(
            CallPlanModel::Reject {
                code: METHOD_NOT_FOUND as int,
                message: unknown_tool_message(name),
            },
        )
    }
}

/// The models of what `tool_action` gives.
pub open spec fn out_model(out: Result<ToolAction, CallPlan>) -> Result<
    ToolActionModel,
    CallPlanModel,
> {
    match out {
        Ok(action) => Ok(action@),
        Err(plan) => Err(plan@),
    }
}

/// What becomes of a call with these parameters, given the tools that may
/// be called. A call without parameters or without a string `name` is
/// refused as invalid. A call of a tool that is not among `tools` is
/// refused as unknown. A call that lacks a string argument that the tool's
/// schema requires is refused as invalid. Every other call is read as
/// `tool_action_model` says.
pub open spec fn plan_model(tools: Seq<ToolModel>, params: Option<JsonModel>) -> CallPlanModel {
    match params {
        None => invalid("Invalid params"@),
        Some(p) => match p.text_field("name"@) {
            None => missing("name"@),
            Some(name) => match find_tool(tools, name) {
                None => CallPlanModel::Reject {
                    code: METHOD_NOT_FOUND as int,
                    message: unknown_tool_message(name),
                },
                Some(tool) => match first_missing(
                    required_names(tool.input_schema),
                    arguments_of(p),
                ) {
                    Some(name) => missing(name),
                    None => match tool_action_model(name, arguments_of(p)) {
                        Ok(action) => CallPlanModel::Invoke { action },
                        Err(refusal) => refusal,
                    },
                },
            },
        },
    }
}

/// The first tool of `tools` that is called `name`.
pub fn lookup_tool<'a>(tools: &'a Vec<Tool>, name: &str) -> (found: Option<&'a Tool>)
    ensures
        match found {
            Some(t) => find_tool(tools_model(tools@), name@) == Some(t@),
            None => find_tool(tools_model(tools@), name@) is None,
        },
{
    let ghost all = tools_model(tools@);
    proof {
        assert(all.skip(0) =~= all);
    }
    let mut i: usize = 0;
    while i < tools.len()
        invariant
            0 <= i <= tools.len(),
            all == tools_model(tools@),
            find_tool(all, name@) == find_tool(all.skip(i as int), name@),
        decreases tools.len() - i,
    {
        proof {
            assert(all.skip(i as int).drop_first() =~= all.skip(i + 1));
            assert(all.skip(i as int)[0] == all[i as int]);
        }
        if str_equal(tools[i].name.as_str(), name) {
            return Some(&tools[i]);
        }
        i += 1;
    }
    None
}

/// The first argument that `schema` requires and `arguments` lacks as a
/// string.
pub fn missing_argument(schema: &Json, arguments: &Json) -> (missing: Option<String>)
    ensures
        match missing {
            Some(name) => first_missing(required_names(schema@), arguments@) == Some(name@),
            None => first_missing(required_names(schema@), arguments@) is None,
        },
{
    match schema.get("required") {
        Some(Json::Array(items)) => {
            proof {
                Json::lemma_array_view(*items);
            }
            let ghost all = required_names(schema@);
            proof {
                assert(all.skip(0) =~= all);
            }
            let mut i: usize = 0;
            while i < items.len()
                invariant
                    0 <= i <= items.len(),
                    all == required_names(schema@),
                    all.len() == items@.len(),
                    forall|k: int| 0 <= k < items@.len() ==> all[k] == items@[k]@,
                    first_missing(all, arguments@) == first_missing(
                        all.skip(i as int),
                        arguments@,
                    ),
                decreases items.len() - i,
            {
                proof {
                    assert(all.skip(i as int).drop_first() =~= all.skip(i + 1));
                    assert(all.skip(i as int)[0] == all[i as int]);
                }
                match items[i].as_str() {
                    Some(name) => {
                        if arguments.text_field(name).is_none() {
                            return Some(String::from_str(name));
                        }
                    },
                    None => {},
                }
                i += 1;
            }
            None
        },
        _ => None,
    }
}

fn refuse_missing(name: &str) -> (plan: CallPlan)
    ensures
        plan@ == missing(name@),
{
    CallPlan::Reject { code: INVALID_PARAMS, message: joined("Missing required parameter: ", name) }
}

fn refuse_invalid(message: &str) -> (plan: CallPlan)
    ensures
        plan@ == invalid(message@),
{
    CallPlan::Reject { code: INVALID_PARAMS, message: String::from_str(message) }
}

/// The seconds of a segment that a conversion asks for.
pub fn segment_duration(arguments: &Json) -> (seconds: Option<u32>)
    ensures
        seconds == segment_duration_of(arguments@),
{
    match arguments.get("segment_duration") {
        None => Some(DEFAULT_SEGMENT_DURATION),
        Some(Json::Number(text)) => match parse_unsigned(&chars_of(text.as_str()), 0xffff_ffff) {
            Some(n) => Some(n as u32),
            None => None,
        },
        Some(_) => None,
    }
}

/// Reads a call of the tool `name` with `arguments` as what the
/// collaborator is asked to do, or refuses it.
pub fn tool_action(name: &str, arguments: &Json) -> (out: Result<ToolAction, CallPlan>)
    ensures
        out_model(out) == tool_action_model(name@, arguments@),
{
    if str_equal(name, "m3u8_set_url") {
        match arguments.text_field("url") {
            Some(url) => Ok(ToolAction::SetUrl { url: String::from_str(url) }),
            None => Err(refuse_missing("url")),
        }
    } else if str_equal(name, "m3u8_get_url") {
        Ok(ToolAction::GetUrl)
    } else if str_equal(name, "m3u8_parse") {
        match arguments.text_field("url") {
            Some(url) => Ok(ToolAction::ParseUrl { url: String::from_str(url) }),
            None => match arguments.text_field("content") {
                Some(content) => Ok(
                    ToolAction::ParseContent { content: String::from_str(content) },
                ),
                None => Err(refuse_invalid("Either 'url' or 'content' parameter is required")),
            },
        }
    } else if str_equal(name, "m3u8_download") {
        match arguments.text_field("url") {
            None => Err(refuse_missing("url")),
            Some(url) => match arguments.text_field("output_path") {
                None => Err(refuse_missing("output_path")),
                Some(output_path) => Ok(
                    ToolAction::Download {
                        url: String::from_str(url),
                        output_path: String::from_str(output_path),
                    },
                ),
            },
        }
    } else if str_equal(name, "m3u8_convert") {
        match arguments.text_field("input_path") {
            None => Err(refuse_missing("input_path")),
            Some(input_path) => match arguments.text_field("output_dir") {
                None => Err(refuse_missing("output_dir")),
                Some(output_dir) => match segment_duration(arguments) {
                    None => Err(refuse_invalid("Invalid parameter: segment_duration")),
                    Some(seconds) => Ok(
                        ToolAction::Convert {
                            input_path: String::from_str(input_path),
                            output_dir: String::from_str(output_dir),
                            segment_duration: seconds,
                        },
                    ),
                },
            },
        }
    } else if str_equal(name, "m3u8_probe") {
        match arguments.text_field("url") {
            Some(url) => Ok(ToolAction::Probe { url: String::from_str(url) }),
            None => Err(refuse_missing("url")),
        }
    } else if str_equal(name, "m3u8_extract_segments") {
        match arguments.text_field("url") {
            Some(url) => {
                let base_url = match arguments.text_field("base_url") {
                    Some(base) => Some(String::from_str(base)),
                    None => None,
                };
                Ok(ToolAction::ExtractSegments { url: String::from_str(url), base_url })
            },
            None => Err(refuse_invalid("Missing 'url' parameter")),
        }
    } else {
        Err(CallPlan::Reject { code: METHOD_NOT_FOUND, message: joined("Unknown tool: ", name) })
    }
}

/// Decides on a call before any tool runs.
pub fn plan_call(tools: &Vec<Tool>, params: Option<&Json>) -> (plan: CallPlan)
    ensures
        plan@ == plan_model(tools_model(tools@), match params {
            Some(p) => Some(p@),
            None => None,
        }),
{
    let p = match params {
        Some(p) => p,
        None => {
            return refuse_invalid("Invalid params");
        },
    };
    let name = match p.text_field("name") {
        Some(n) => n,
        None => {
            return refuse_missing("name");
        },
    };
    let tool = match lookup_tool(tools, name) {
        Some(t) => t,
        None => {
            return CallPlan::Reject {
                code: METHOD_NOT_FOUND,
                message: joined("Unknown tool: ", name),
            };
        },
    };
    let none = ObjectBuilder::new().build();
    let arguments = match p.get("arguments") {
        Some(a) => a,
        None => &none,
    };
    match missing_argument(&tool.input_schema, arguments) {
        Some(missing) => refuse_missing(missing.as_str()),
        None => match tool_action(name, arguments) {
            Ok(action) => CallPlan::Invoke { action },
            Err(refusal) => refusal,
        },
    }
}

/// The text that tells that `url` was made the current URL.
pub fn set_url_text(url: &str) -> (t: String)
    ensures
        t@ == "URL set to: "@ + url@,
{
    joined("URL set to: ", url)
}

/// The text that tells the current URL, or that there is none.
pub fn current_url_text(url: Option<&str>) -> (t: String)
    ensures
        t@ == "Current URL: "@ + (match url {
            Some(u) => u@,
            None => "No URL set"@,
        }),
{
    match url {
        Some(u) => joined("Current URL: ", u),
        None => joined("Current URL: ", "No URL set"),
    }
}

} // verus!
